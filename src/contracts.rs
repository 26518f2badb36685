use vstd::prelude::*;

verus! {

/// Published when a user has been created.
pub struct UserCreatedEvent {
    /// The user's name.
    pub name: String,
}

} // verus!
