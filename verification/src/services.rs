use vstd::prelude::*;

use crate::commands::{
    attempt_ops, created_user, send_command, CommandBus, CommandMessage, CommandMessageView,
    CreateUser, CreateUserView, EnqueueOutcome,
};
use crate::events::UserCreated;
use crate::ids::fresh_user_id;
use crate::models::{User, UserView};
use crate::repositories::{same_policy, RepoOp, StorageError, UserRepository};

verus! {

/// The domain logic. It owns id assignment and the write order — user row
/// first, then the matching event — and nothing else in the system may
/// duplicate either. Reads pass straight through to the repository port.
pub struct UserService<R: UserRepository> {
    pub repo: R,
}

impl<R: UserRepository> UserService<R> {
    pub fn new(repo: R) -> (r: Self)
        ensures
            r.repo == repo,
    {
        UserService { repo }
    }

    /// Execute a create command: assign a fresh non-nil id, persist the
    /// user via the port, then persist the matching event via the port.
    ///
    /// If the user write fails, the operation fails at once and no event
    /// write is attempted. If the user write succeeds and the event write
    /// fails, the operation reports failure although the user row already
    /// stands — the entity write and the event write are two
    /// independently-failing operations, not one transaction.
    pub fn handle_create_user(&mut self, cmd: CreateUser) -> (r: Result<User, StorageError>)
        ensures
            same_policy(&final(self).repo, &old(self).repo),
            r is Ok <==> old(self).repo.user_writes_accepted() && old(
                self,
            ).repo.event_writes_accepted(),
            r matches Ok(u) ==> {
                &&& u@ == created_user(u@.id, cmd@)
                &&& u@.id != 0
                &&& final(self).repo.users() == old(self).repo.users().insert(u@.id, u@)
                &&& final(self).repo.events() == old(self).repo.events().push(u@)
                &&& final(self).repo.log() == old(self).repo.log() + attempt_ops(u@, true)
            },
            !old(self).repo.user_writes_accepted() ==> {
                &&& final(self).repo.users() == old(self).repo.users()
                &&& final(self).repo.events() == old(self).repo.events()
                &&& exists|id: u128|
                    #![trigger created_user(id, cmd@)]
                    {
                        &&& id != 0
                        &&& final(self).repo.log() == old(self).repo.log() + attempt_ops(
                            created_user(id, cmd@),
                            false,
                        )
                    }
            },
            old(self).repo.user_writes_accepted() && !old(self).repo.event_writes_accepted()
                ==> {
                &&& final(self).repo.events() == old(self).repo.events()
                &&& exists|id: u128|
                    #![trigger created_user(id, cmd@)]
                    {
                        &&& id != 0
                        &&& final(self).repo.users() == old(self).repo.users().insert(
                            id,
                            created_user(id, cmd@),
                        )
                        &&& final(self).repo.log() == old(self).repo.log() + attempt_ops(
                            created_user(id, cmd@),
                            true,
                        )
                    }
            },
    {
        let ghost c = cmd@;
        let ghost log0 = self.repo.log();
        let id = fresh_user_id();
        let user = User { id, username: cmd.username, email: cmd.email };
        let created = user.duplicate();
        let event = UserCreated::of_user(&user);
        let ghost u = user@;
        match self.repo.save_user(user) {
            Ok(_) => {},
            Err(e) => {
                proof {
                    assert(u == created_user(id, c));
                    assert(self.repo.log() =~= log0 + attempt_ops(created_user(id, c), false));
                }
                return Err(e);
            },
        }
        match self.repo.save_event(event) {
            Ok(_) => {
                proof {
                    assert(u == created_user(id, c));
                    assert(self.repo.log() =~= log0 + attempt_ops(u, true));
                }
                Ok(created)
            },
            Err(e) => {
                proof {
                    assert(u == created_user(id, c));
                    assert(self.repo.log() =~= log0 + attempt_ops(created_user(id, c), true));
                }
                Err(e)
            },
        }
    }

    /// Look a user up by id: a pure read-through to the repository port.
    /// Absence is `Ok(None)`, never an error; an error stands only for a
    /// genuine storage fault.
    pub fn handle_get_user_by_id(&mut self, id: u128) -> (r: Result<Option<User>, StorageError>)
        ensures
            same_policy(&final(self).repo, &old(self).repo),
            final(self).repo.users() == old(self).repo.users(),
            final(self).repo.events() == old(self).repo.events(),
            final(self).repo.log() == old(self).repo.log().push(RepoOp::FindUser { id }),
            r is Ok <==> old(self).repo.reads_accepted(),
            r matches Ok(Some(u)) ==> old(self).repo.users().dom().contains(id) && u@ == old(
                self,
            ).repo.users()[id],
            r matches Ok(None) ==> !old(self).repo.users().dom().contains(id),
            old(self).repo.reads_accepted() && !old(self).repo.users().dom().contains(id) ==> (
            r matches Ok(None)),
    {
        self.repo.find_user_by_id(id)
    }

    /// The asynchronous write path: wrap the command in a bus message and
    /// offer it to the bus. The caller is acknowledged as soon as the
    /// command is accepted — execution happens later, in the worker.
    pub fn create_user(&self, bus: &mut CommandBus, cmd: CreateUser) -> (r: EnqueueOutcome)
        ensures
            final(bus).cap() == old(bus).cap(),
            final(bus).is_closed() == old(bus).is_closed(),
            old(bus).is_closed() ==> final(bus).pending() == old(bus).pending() && (
            r matches EnqueueOutcome::Closed(m) && m@ == CommandMessageView::CreateUser(cmd@)),
            !old(bus).is_closed() && old(bus).pending().len() >= old(bus).cap() ==> final(bus).pending() == old(bus).pending() && (r matches EnqueueOutcome::Full(m) && m@
                == CommandMessageView::CreateUser(cmd@)),
            !old(bus).is_closed() && old(bus).pending().len() < old(bus).cap() ==> final(bus).pending() == old(bus).pending().push(CommandMessageView::CreateUser(cmd@))
                && r is Accepted,
    {
        send_command(bus, CommandMessage::CreateUser(cmd))
    }
}

/// The read-your-create law: once a create has succeeded and handed back
/// its user, the store maps that user's id to a row carrying the command's
/// own username and email under a non-nil id — which is what the read
/// path's contract then answers for that id.
pub proof fn lemma_create_then_get(
    users0: Map<u128, UserView>,
    cmd: CreateUserView,
    u: UserView,
)
    requires
        u == created_user(u.id, cmd),
        u.id != 0,
    ensures
        users0.insert(u.id, u).dom().contains(u.id),
        users0.insert(u.id, u)[u.id].username == cmd.username,
        users0.insert(u.id, u)[u.id].email == cmd.email,
        users0.insert(u.id, u)[u.id].id != 0,
{
}

} // verus!
