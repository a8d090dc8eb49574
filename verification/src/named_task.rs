//! A task join handle carrying a name, so that a parent awaiting many
//! children can tell which one has exited.

use vstd::prelude::*;

verus! {

/// Declares tokio's task join handle so it can be stored and handed back; a
/// value of it is carried through untouched.
#[verifier::external_type_specification]
#[verifier::external_body]
#[verifier::reject_recursive_types(T)]
pub struct ExJoinHandle<T>(tokio::task::JoinHandle<T>);

/// Declares the error a join handle completes with, which the handle's own
/// declaration drags in.
#[verifier::external_type_specification]
#[verifier::external_body]
pub struct ExJoinError(tokio::task::JoinError);

/// A join handle together with the name given to it at construction.
#[verifier::reject_recursive_types(Ret)]
pub struct NamedTask<Ret, Name> {
    task: tokio::task::JoinHandle<Ret>,
    name: Name,
}

impl<Ret, Name> NamedTask<Ret, Name> {
    /// The name the task carries.
    pub closed spec fn spec_name(self) -> Name {
        self.name
    }

    /// The handle under the name.
    pub closed spec fn spec_task(self) -> tokio::task::JoinHandle<Ret> {
        self.task
    }

    /// Attach `name` to `task`.
    pub fn new(task: tokio::task::JoinHandle<Ret>, name: Name) -> (r: Self)
        ensures
            r.spec_name() == name,
            r.spec_task() == task,
    {
        NamedTask { task, name }
    }

    /// The name the task carries.
    pub fn name(&self) -> (r: &Name)
        ensures
            r == self.spec_name(),
    {
        &self.name
    }

    /// Give the handle and the name back, for a caller that drives the task
    /// itself.
    pub fn into_parts(self) -> (r: (tokio::task::JoinHandle<Ret>, Name))
        ensures
            r.0 == self.spec_task(),
            r.1 == self.spec_name(),
    {
        let NamedTask { task, name } = self;
        (task, name)
    }
}

} // verus!
