use vstd::prelude::*;

verus! {

/// What a change notification reports about a record.
#[derive(Debug, Clone, Copy, PartialEq, Eq, Structural)]
pub enum Action {
    Create,
    Update,
    Delete,
    Other,
}

/// One change notification: the action and the record as it now stands.
pub struct Notification<T> {
    pub action: Action,
    pub data: T,
}

} // verus!
