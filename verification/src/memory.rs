use vstd::prelude::*;

use crate::events::UserCreated;
use crate::models::{User, UserView};
use crate::repositories::{RepoOp, StorageError, UserRepository};

verus! {

/// The views of stored user rows, in storage order.
pub open spec fn views_of_users(s: Seq<User>) -> Seq<UserView> {
    s.map_values(|u: User| u@)
}

/// The views of stored event records, in write order.
pub open spec fn views_of_events(s: Seq<UserCreated>) -> Seq<UserView> {
    s.map_values(|e: UserCreated| e@)
}

/// The map that a sequence of user rows denotes: each row stands under its
/// id, and a later row with the same id shadows an earlier one.
pub open spec fn user_map(s: Seq<UserView>) -> Map<u128, UserView>
    decreases s.len(),
{
    if s.len() == 0 {
        Map::empty()
    } else {
        user_map(s.drop_last()).insert(s.last().id, s.last())
    }
}

/// An id is in the map of a row sequence exactly when some row carries it.
pub proof fn lemma_user_map_membership(s: Seq<UserView>, id: u128)
    ensures
        user_map(s).dom().contains(id) <==> exists|j: int| 0 <= j < s.len() && s[j].id == id,
    decreases s.len(),
{
    if s.len() > 0 {
        lemma_user_map_membership(s.drop_last(), id);
        if s.last().id == id {
            assert(s[s.len() - 1].id == id);
        } else {
            if exists|j: int| 0 <= j < s.len() && s[j].id == id {
                let j = choose|j: int| 0 <= j < s.len() && s[j].id == id;
                assert(s.drop_last()[j].id == id);
            }
        }
    }
}

/// The map holds the last row that carries the id.
pub proof fn lemma_user_map_last_match(s: Seq<UserView>, id: u128, j: int)
    requires
        0 <= j < s.len(),
        s[j].id == id,
        forall|k: int| j < k < s.len() ==> s[k].id != id,
    ensures
        user_map(s).dom().contains(id),
        user_map(s)[id] == s[j],
    decreases s.len(),
{
    if j < s.len() - 1 {
        lemma_user_map_last_match(s.drop_last(), id, j);
    }
}

/// The in-memory implementation of the repository port: the test double the
/// design asks for. It stores rows and event records in plain vectors,
/// keeps the call trace as ghost state, and lets a test refuse each kind of
/// call through the acceptance switches chosen at construction.
pub struct MemoryRepository {
    stored_users: Vec<User>,
    stored_events: Vec<UserCreated>,
    accept_user_writes: bool,
    accept_event_writes: bool,
    accept_reads: bool,
    trace: Ghost<Seq<RepoOp>>,
}

impl MemoryRepository {
    /// A fresh, empty store that accepts every call.
    pub fn new() -> (r: MemoryRepository)
        ensures
            r.users() == Map::<u128, UserView>::empty(),
            r.events() == Seq::<UserView>::empty(),
            r.log() == Seq::<RepoOp>::empty(),
            r.user_writes_accepted(),
            r.event_writes_accepted(),
            r.reads_accepted(),
    {
        MemoryRepository::with_policy(true, true, true)
    }

    /// A fresh, empty store with chosen acceptance switches, for driving
    /// the failure paths.
    pub fn with_policy(user_writes: bool, event_writes: bool, reads: bool) -> (r:
        MemoryRepository)
        ensures
            r.users() == Map::<u128, UserView>::empty(),
            r.events() == Seq::<UserView>::empty(),
            r.log() == Seq::<RepoOp>::empty(),
            r.user_writes_accepted() == user_writes,
            r.event_writes_accepted() == event_writes,
            r.reads_accepted() == reads,
    {
        let r = MemoryRepository {
            stored_users: Vec::new(),
            stored_events: Vec::new(),
            accept_user_writes: user_writes,
            accept_event_writes: event_writes,
            accept_reads: reads,
            trace: Ghost(Seq::empty()),
        };
        proof {
            assert(views_of_users(r.stored_users@) =~= Seq::<UserView>::empty());
            assert(views_of_events(r.stored_events@) =~= Seq::<UserView>::empty());
        }
        r
    }

    /// A copy of the event records, in write order: what a test inspects
    /// to see which persistence effects happened and in which order.
    pub fn recorded_events(&self) -> (r: Vec<UserCreated>)
        ensures
            views_of_events(r@) == self.events(),
    {
        let mut out: Vec<UserCreated> = Vec::new();
        let n = self.stored_events.len();
        let mut i: usize = 0;
        while i < n
            invariant
                i <= n,
                n == self.stored_events.len(),
                views_of_events(out@) == views_of_events(self.stored_events@).take(i as int),
            decreases n - i,
        {
            let ghost before = views_of_events(out@);
            out.push(self.stored_events[i].duplicate());
            proof {
                assert(views_of_events(out@) =~= before.push(self.stored_events@[i as int]@));
                assert(views_of_events(self.stored_events@).take(i + 1) =~= views_of_events(
                    self.stored_events@,
                ).take(i as int).push(self.stored_events@[i as int]@));
            }
            i = i + 1;
        }
        proof {
            assert(views_of_events(self.stored_events@).take(n as int) =~= views_of_events(
                self.stored_events@,
            ));
        }
        out
    }
}

impl UserRepository for MemoryRepository {
    closed spec fn users(&self) -> Map<u128, UserView> {
        user_map(views_of_users(self.stored_users@))
    }

    closed spec fn events(&self) -> Seq<UserView> {
        views_of_events(self.stored_events@)
    }

    closed spec fn log(&self) -> Seq<RepoOp> {
        self.trace@
    }

    closed spec fn user_writes_accepted(&self) -> bool {
        self.accept_user_writes
    }

    closed spec fn event_writes_accepted(&self) -> bool {
        self.accept_event_writes
    }

    closed spec fn reads_accepted(&self) -> bool {
        self.accept_reads
    }

    fn save_user(&mut self, user: User) -> (r: Result<(), StorageError>) {
        self.trace = Ghost(self.trace@.push(RepoOp::SaveUser { user: user@ }));
        if self.accept_user_writes {
            let ghost before = views_of_users(self.stored_users@);
            let ghost added = user@;
            self.stored_users.push(user);
            proof {
                assert(views_of_users(self.stored_users@) =~= before.push(added));
                assert(before.push(added).drop_last() =~= before);
            }
            Ok(())
        } else {
            Err(StorageError::new("the store is refusing user writes".to_owned()))
        }
    }

    fn save_event(&mut self, event: UserCreated) -> (r: Result<(), StorageError>) {
        self.trace = Ghost(self.trace@.push(RepoOp::SaveEvent { event: event@ }));
        if self.accept_event_writes {
            let ghost before = views_of_events(self.stored_events@);
            let ghost added = event@;
            self.stored_events.push(event);
            proof {
                assert(views_of_events(self.stored_events@) =~= before.push(added));
            }
            Ok(())
        } else {
            Err(StorageError::new("the store is refusing event writes".to_owned()))
        }
    }

    fn find_user_by_id(&mut self, id: u128) -> (r: Result<Option<User>, StorageError>) {
        self.trace = Ghost(self.trace@.push(RepoOp::FindUser { id }));
        if !self.accept_reads {
            return Err(StorageError::new("the store is refusing reads".to_owned()));
        }
        let mut i: usize = self.stored_users.len();
        while i > 0
            invariant
                self.stored_users@ == old(self).stored_users@,
                self.stored_events@ == old(self).stored_events@,
                self.accept_user_writes == old(self).accept_user_writes,
                self.accept_event_writes == old(self).accept_event_writes,
                self.accept_reads == old(self).accept_reads,
                self.accept_reads,
                self.trace@ == old(self).trace@.push(RepoOp::FindUser { id }),
                i <= self.stored_users.len(),
                forall|k: int|
                    i <= k < self.stored_users@.len() ==> views_of_users(
                        self.stored_users@,
                    )[k].id != id,
            decreases i,
        {
            i = i - 1;
            if self.stored_users[i].id == id {
                let found = self.stored_users[i].duplicate();
                proof {
                    lemma_user_map_last_match(views_of_users(self.stored_users@), id, i as int);
                }
                return Ok(Some(found));
            }
        }
        proof {
            lemma_user_map_membership(views_of_users(self.stored_users@), id);
        }
        Ok(None)
    }
}

} // verus!
