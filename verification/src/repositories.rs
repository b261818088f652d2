use vstd::prelude::*;

use crate::events::UserCreated;
use crate::models::{User, UserView};

verus! {

/// A storage failure reported by the repository port, carrying what the
/// backend said. It stands for a genuine I/O or storage fault, never for
/// "not found": absence on the read path is a value, not an error.
#[derive(Debug)]
pub struct StorageError {
    pub message: String,
}

impl StorageError {
    pub fn new(message: String) -> (r: StorageError)
        ensures
            r.message@ == message@,
    {
        StorageError { message }
    }
}

/// One call of the repository port, as the port's trace records it. The
/// trace is what turns persistence order into a stated fact: the worker's
/// FIFO guarantee is a statement about this sequence.
pub enum RepoOp {
    SaveUser { user: UserView },
    SaveEvent { event: UserView },
    FindUser { id: u128 },
}

/// The acceptance switches of two repository states agree.
pub open spec fn same_policy<R: UserRepository>(a: &R, b: &R) -> bool {
    &&& a.user_writes_accepted() == b.user_writes_accepted()
    &&& a.event_writes_accepted() == b.event_writes_accepted()
    &&& a.reads_accepted() == b.reads_accepted()
}

/// The persistence contract the service layer consumes.
///
/// A repository is modelled by its current state (`users`), its event
/// records in write order (`events`), and the trace of every call made so
/// far (`log`). Whether the backing store is accepting each kind of call is
/// part of the model state (`user_writes_accepted` and its siblings) and is
/// not changed by the data operations themselves; the in-memory
/// implementation realises it with injection switches, and a production
/// adapter's faults lie outside what verification can see.
pub trait UserRepository: Sized {
    /// The stored users, each under its id. The body here is only the
    /// default an implementation replaces with its own state; callers
    /// generic over the port learn of it through the method contracts
    /// alone.
    open spec fn users(&self) -> Map<u128, UserView> {
        Map::empty()
    }

    /// The event records, in the order they were written.
    open spec fn events(&self) -> Seq<UserView> {
        Seq::empty()
    }

    /// Every call of the port so far, oldest first.
    open spec fn log(&self) -> Seq<RepoOp> {
        Seq::empty()
    }

    /// Whether the store is accepting user writes.
    open spec fn user_writes_accepted(&self) -> bool {
        true
    }

    /// Whether the store is accepting event writes.
    open spec fn event_writes_accepted(&self) -> bool {
        true
    }

    /// Whether the store is answering reads.
    open spec fn reads_accepted(&self) -> bool {
        true
    }

    /// Persist one user row. On success the user stands in the store under
    /// its id; on failure the state is unchanged. Either way the call is
    /// recorded and the event records are untouched.
    fn save_user(&mut self, user: User) -> (r: Result<(), StorageError>)
        ensures
            r is Ok <==> old(self).user_writes_accepted(),
            r is Ok ==> final(self).users() == old(self).users().insert(user@.id, user@),
            r is Err ==> final(self).users() == old(self).users(),
            final(self).events() == old(self).events(),
            final(self).log() == old(self).log().push(RepoOp::SaveUser { user: user@ }),
            final(self).user_writes_accepted() == old(self).user_writes_accepted(),
            final(self).event_writes_accepted() == old(self).event_writes_accepted(),
            final(self).reads_accepted() == old(self).reads_accepted(),
    ;

    /// Persist one event record. On success it is appended to the event
    /// records; on failure they are unchanged. Either way the call is
    /// recorded and the stored users are untouched.
    fn save_event(&mut self, event: UserCreated) -> (r: Result<(), StorageError>)
        ensures
            r is Ok <==> old(self).event_writes_accepted(),
            r is Ok ==> final(self).events() == old(self).events().push(event@),
            r is Err ==> final(self).events() == old(self).events(),
            final(self).users() == old(self).users(),
            final(self).log() == old(self).log().push(RepoOp::SaveEvent { event: event@ }),
            final(self).user_writes_accepted() == old(self).user_writes_accepted(),
            final(self).event_writes_accepted() == old(self).event_writes_accepted(),
            final(self).reads_accepted() == old(self).reads_accepted(),
    ;

    /// Look one user up by id. Absence is `Ok(None)`, never an error; an
    /// error stands only for a storage fault. The call is recorded and the
    /// state is unchanged.
    fn find_user_by_id(&mut self, id: u128) -> (r: Result<Option<User>, StorageError>)
        ensures
            final(self).users() == old(self).users(),
            final(self).events() == old(self).events(),
            final(self).log() == old(self).log().push(RepoOp::FindUser { id }),
            final(self).user_writes_accepted() == old(self).user_writes_accepted(),
            final(self).event_writes_accepted() == old(self).event_writes_accepted(),
            final(self).reads_accepted() == old(self).reads_accepted(),
            r is Ok <==> old(self).reads_accepted(),
            r matches Ok(Some(u)) ==> old(self).users().dom().contains(id) && u@ == old(
                self,
            ).users()[id],
            r matches Ok(None) ==> !old(self).users().dom().contains(id),
            old(self).reads_accepted() && !old(self).users().dom().contains(id) ==> (
            r matches Ok(None)),
    ;
}

} // verus!
