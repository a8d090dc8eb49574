use toolbox::named_task::NamedTask;

#[test]
fn named_task_keeps_its_name() {
    let rt = tokio::runtime::Builder::new_current_thread().build().unwrap();
    let handle = rt.spawn(async { 7u32 });
    let task = NamedTask::new(handle, "worker".to_string());
    assert_eq!(task.name().as_str(), "worker");

    let (handle, name) = task.into_parts();
    assert_eq!(name.as_str(), "worker");
    assert_eq!(rt.block_on(handle).unwrap(), 7);
}
