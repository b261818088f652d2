use vstd::prelude::*;

verus! {

/// A record that a state change occurred, persisted alongside current state.
pub trait Event {

}

/// A request to change state: it carries intent, never an assigned identity.
pub trait Command {

}

/// A persistent entity whose current state the repository stores.
pub trait Model {

}

} // verus!
