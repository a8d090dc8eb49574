use toolbox::soft_assert::SoftAssert;

#[test]
fn soft_assert() {
    // A holding condition never asks for a report.
    let mut quiet = SoftAssert::new();
    assert!(!quiet.check(true));
    assert!(!quiet.check(true));

    // The first violation asks for one report; later ones stay quiet.
    let mut noisy = SoftAssert::new();
    assert!(noisy.check(false));
    assert!(!noisy.check(false));
    assert!(!noisy.check(true));
    assert!(!noisy.check(false));

    // What a reporting caller prints, one latch per call site.
    let val: i32 = 10;
    let mut reports: Vec<String> = Vec::new();
    let mut msg0_site = SoftAssert::new();
    if msg0_site.check(true) {
        reports.push(format!("msg0"));
    }
    let mut msg1_site = SoftAssert::new();
    if msg1_site.check(false) {
        reports.push(format!("msg1"));
    }
    let mut val_site = SoftAssert::new();
    if val_site.check(false) {
        reports.push(format!("msg; val={val}"));
    }
    let mut val_args_site = SoftAssert::new();
    if val_args_site.check(false) {
        reports.push(format!("msg; val={}", val));
    }
    assert_eq!(
        reports,
        vec!["msg1".to_string(), "msg; val=10".to_string(), "msg; val=10".to_string()]
    );
}
