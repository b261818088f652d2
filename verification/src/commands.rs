use vstd::prelude::*;

use crate::grpc::CreateUserRequest;
use crate::interfaces::Command;
use crate::models::UserView;
use crate::repositories::{same_policy, RepoOp, UserRepository};
use crate::services::UserService;

verus! {

/// The create command as a front end hands it in: the two text fields and
/// no id. The id is assigned when the worker executes the command, never
/// when it is issued, so two identical commands yield two distinct users.
pub struct CreateUser {
    pub username: String,
    pub email: String,
}

/// The value of a create command.
pub struct CreateUserView {
    pub username: Seq<char>,
    pub email: Seq<char>,
}

impl View for CreateUser {
    type V = CreateUserView;

    open spec fn view(&self) -> CreateUserView {
        CreateUserView { username: self.username@, email: self.email@ }
    }
}

impl Command for CreateUser {

}

impl From<CreateUserRequest> for CreateUser {
    fn from(value: CreateUserRequest) -> (r: CreateUser) {
        CreateUser { email: value.email, username: value.username }
    }
}

impl vstd::std_specs::convert::FromSpecImpl<CreateUserRequest> for CreateUser {
    open spec fn obeys_from_spec() -> bool {
        true
    }

    open spec fn from_spec(v: CreateUserRequest) -> Self {
        CreateUser { username: v.username, email: v.email }
    }
}

/// The user a create command's execution writes, once an id is assigned.
pub open spec fn created_user(id: u128, cmd: CreateUserView) -> UserView {
    UserView { id, username: cmd.username, email: cmd.email }
}

/// The closed set of commands the bus can carry; it grows by variant
/// without changing the bus's transport mechanics.
pub enum CommandMessage {
    CreateUser(CreateUser),
}

/// The value of a bus message.
pub enum CommandMessageView {
    CreateUser(CreateUserView),
}

impl View for CommandMessage {
    type V = CommandMessageView;

    open spec fn view(&self) -> CommandMessageView {
        match self {
            CommandMessage::CreateUser(c) => CommandMessageView::CreateUser(c@),
        }
    }
}

/// The create command a bus message carries.
pub open spec fn command_payload(cmd: CommandMessageView) -> CreateUserView {
    match cmd {
        CommandMessageView::CreateUser(c) => c,
    }
}

/// How many commands the bus buffers unless a caller chooses otherwise.
pub const DEFAULT_BUS_CAPACITY: usize = 32;

/// What one enqueue attempt came to. A full buffer is backpressure, not
/// failure: the command comes back untouched and the caller suspends and
/// retries once a slot frees. Only a closed bus refuses a command for good.
pub enum EnqueueOutcome {
    /// The command sits in the buffer; the caller is done.
    Accepted,
    /// The buffer already holds `capacity` commands; the command comes
    /// back so that nothing is dropped silently.
    Full(CommandMessage),
    /// The consumer side has shut down; the command comes back.
    Closed(CommandMessage),
}

/// The bounded, ordered, single-consumer channel carrying commands from
/// the front ends to the worker. Producers enqueue at the back; the one
/// worker dequeues at the front, so commands are executed in the order
/// they were accepted.
pub struct CommandBus {
    queue: Vec<CommandMessage>,
    capacity: usize,
    closed: bool,
}

impl CommandBus {
    /// The buffered commands, oldest first.
    pub closed spec fn pending(&self) -> Seq<CommandMessageView> {
        self.queue@.map_values(|m: CommandMessage| m@)
    }

    /// The fixed bound on the buffer.
    pub closed spec fn cap(&self) -> int {
        self.capacity as int
    }

    /// Whether the consumer side has shut down.
    pub closed spec fn is_closed(&self) -> bool {
        self.closed
    }

    /// An open, empty bus. A bus of capacity zero could never accept a
    /// command, so the capacity is at least one.
    pub fn new(capacity: usize) -> (r: CommandBus)
        requires
            1 <= capacity,
        ensures
            r.pending() == Seq::<CommandMessageView>::empty(),
            r.cap() == capacity,
            !r.is_closed(),
    {
        let r = CommandBus { queue: Vec::new(), capacity, closed: false };
        proof {
            assert(r.pending() =~= Seq::<CommandMessageView>::empty());
        }
        r
    }

    /// Offer one command. Exactly one of three things happens: the command
    /// is appended to the buffer, or it comes back because the buffer is
    /// full, or it comes back because the bus is closed.
    pub fn enqueue(&mut self, msg: CommandMessage) -> (r: EnqueueOutcome)
        ensures
            final(self).cap() == old(self).cap(),
            final(self).is_closed() == old(self).is_closed(),
            old(self).is_closed() ==> final(self).pending() == old(self).pending() && (
            r matches EnqueueOutcome::Closed(m) && m@ == msg@),
            !old(self).is_closed() && old(self).pending().len() >= old(self).cap()
                ==> final(self).pending() == old(self).pending() && (
            r matches EnqueueOutcome::Full(m) && m@ == msg@),
            !old(self).is_closed() && old(self).pending().len() < old(self).cap()
                ==> final(self).pending() == old(self).pending().push(msg@)
                && r is Accepted,
    {
        if self.closed {
            EnqueueOutcome::Closed(msg)
        } else if self.queue.len() >= self.capacity {
            EnqueueOutcome::Full(msg)
        } else {
            let ghost before = self.pending();
            let ghost added = msg@;
            self.queue.push(msg);
            proof {
                assert(self.pending() =~= before.push(added));
            }
            EnqueueOutcome::Accepted
        }
    }

    /// Shut the producer side down: the worker drains what is buffered and
    /// then stops; every later enqueue comes back `Closed`.
    pub fn close(&mut self)
        ensures
            final(self).is_closed(),
            final(self).pending() == old(self).pending(),
            final(self).cap() == old(self).cap(),
    {
        self.closed = true;
    }

    /// Take the oldest buffered command, if any.
    pub fn dequeue(&mut self) -> (r: Option<CommandMessage>)
        ensures
            final(self).cap() == old(self).cap(),
            final(self).is_closed() == old(self).is_closed(),
            old(self).pending().len() == 0 ==> r is None && final(self).pending() == old(
                self,
            ).pending(),
            old(self).pending().len() > 0 ==> (r matches Some(m) && m@ == old(self).pending()[0])
                && final(self).pending() == old(self).pending().skip(1),
    {
        if self.queue.len() == 0 {
            None
        } else {
            let ghost before = self.pending();
            let m = self.queue.remove(0);
            proof {
                assert(self.pending() =~= before.skip(1));
            }
            Some(m)
        }
    }
}

/// Hand one command to the bus on behalf of a front end. The outcome says
/// whether the command was accepted, must be retried, or met a closed bus.
pub fn send_command(bus: &mut CommandBus, command: CommandMessage) -> (r: EnqueueOutcome)
    ensures
        final(bus).cap() == old(bus).cap(),
        final(bus).is_closed() == old(bus).is_closed(),
        old(bus).is_closed() ==> final(bus).pending() == old(bus).pending() && (
        r matches EnqueueOutcome::Closed(m) && m@ == command@),
        !old(bus).is_closed() && old(bus).pending().len() >= old(bus).cap() ==> final(bus).pending() == old(bus).pending() && (r matches EnqueueOutcome::Full(m) && m@ == command@),
        !old(bus).is_closed() && old(bus).pending().len() < old(bus).cap() ==> final(bus).pending() == old(bus).pending().push(command@) && r is Accepted,
{
    bus.enqueue(command)
}

/// The repository calls one executed create command adds to the trace: the
/// user write always stands first; the event write follows exactly when
/// the user write was accepted.
pub open spec fn attempt_ops(u: UserView, user_write_ok: bool) -> Seq<RepoOp> {
    if user_write_ok {
        seq![RepoOp::SaveUser { user: u }, RepoOp::SaveEvent { event: u }]
    } else {
        seq![RepoOp::SaveUser { user: u }]
    }
}

/// The FIFO law of the worker: the repository calls it makes while
/// draining a command sequence are exactly the commands' own segments, in
/// enqueue order — the first command's persistence effects stand wholly
/// before the second's, and so on. Each segment writes a user carrying the
/// command's own fields under some fresh non-nil id.
pub open spec fn worker_trace(
    ops: Seq<RepoOp>,
    cmds: Seq<CommandMessageView>,
    user_write_ok: bool,
) -> bool
    decreases cmds.len(),
{
    if cmds.len() == 0 {
        ops.len() == 0
    } else {
        exists|id: u128|
            #![trigger created_user(id, command_payload(cmds[0]))]
            {
                &&& id != 0
                &&& ops.len() >= attempt_ops(
                    created_user(id, command_payload(cmds[0])),
                    user_write_ok,
                ).len()
                &&& ops.take(
                    attempt_ops(created_user(id, command_payload(cmds[0])), user_write_ok).len() as int,
                ) == attempt_ops(created_user(id, command_payload(cmds[0])), user_write_ok)
                &&& worker_trace(
                    ops.skip(
                        attempt_ops(
                            created_user(id, command_payload(cmds[0])),
                            user_write_ok,
                        ).len() as int,
                    ),
                    cmds.skip(1),
                    user_write_ok,
                )
            }
    }
}

/// Extending a worker trace by one more command's segment keeps it a
/// worker trace.
pub proof fn lemma_worker_trace_snoc(
    ops: Seq<RepoOp>,
    cmds: Seq<CommandMessageView>,
    seg_id: u128,
    c: CommandMessageView,
    user_write_ok: bool,
)
    requires
        worker_trace(ops, cmds, user_write_ok),
        seg_id != 0,
    ensures
        worker_trace(
            ops + attempt_ops(created_user(seg_id, command_payload(c)), user_write_ok),
            cmds.push(c),
            user_write_ok,
        ),
    decreases cmds.len(),
{
    let u = created_user(seg_id, command_payload(c));
    let seg = attempt_ops(u, user_write_ok);
    let whole = ops + seg;
    if cmds.len() == 0 {
        assert(whole =~= seg);
        assert(cmds.push(c)[0] == c);
        assert(whole.take(seg.len() as int) =~= seg);
        assert(whole.skip(seg.len() as int) =~= Seq::<RepoOp>::empty());
        assert(cmds.push(c).skip(1) =~= Seq::<CommandMessageView>::empty());
        assert(worker_trace(
            whole.skip(seg.len() as int),
            cmds.push(c).skip(1),
            user_write_ok,
        ));
        assert(created_user(seg_id, command_payload(cmds.push(c)[0])) == u);
    } else {
        let id0 = choose|id: u128|
            #![trigger created_user(id, command_payload(cmds[0]))]
            {
                &&& id != 0
                &&& ops.len() >= attempt_ops(
                    created_user(id, command_payload(cmds[0])),
                    user_write_ok,
                ).len()
                &&& ops.take(
                    attempt_ops(created_user(id, command_payload(cmds[0])), user_write_ok).len() as int,
                ) == attempt_ops(created_user(id, command_payload(cmds[0])), user_write_ok)
                &&& worker_trace(
                    ops.skip(
                        attempt_ops(
                            created_user(id, command_payload(cmds[0])),
                            user_write_ok,
                        ).len() as int,
                    ),
                    cmds.skip(1),
                    user_write_ok,
                )
            };
        let u0 = created_user(id0, command_payload(cmds[0]));
        let seg0 = attempt_ops(u0, user_write_ok);
        let l0 = seg0.len() as int;
        lemma_worker_trace_snoc(ops.skip(l0), cmds.skip(1), seg_id, c, user_write_ok);
        assert(whole.take(l0) =~= ops.take(l0));
        assert(whole.skip(l0) =~= ops.skip(l0) + seg);
        assert(cmds.push(c)[0] == cmds[0]);
        assert(cmds.push(c).skip(1) =~= cmds.skip(1).push(c));
        assert(created_user(id0, command_payload(cmds.push(c)[0])) == u0);
    }
}

/// The worker: the one consumer of a bus instance.
pub struct CommandHandler {
    receiver: CommandBus,
}

impl CommandHandler {
    /// The commands the worker has still to drain, oldest first.
    pub closed spec fn queued(&self) -> Seq<CommandMessageView> {
        self.receiver.pending()
    }

    pub fn new(receiver: CommandBus) -> (r: CommandHandler)
        ensures
            r.queued() == receiver.pending(),
    {
        CommandHandler { receiver }
    }

    /// The worker loop: dequeue one command at a time and dispatch it by
    /// variant, strictly sequentially, until the bus is drained. A handler
    /// error is recorded in the repository trace and the command is
    /// dropped — no retry, no dead letter, and no signal to the producer,
    /// who already got an enqueue acknowledgment. The postcondition is the
    /// FIFO guarantee: the repository trace grows by the commands' own
    /// segments in enqueue order.
    pub fn run<R: UserRepository>(self, service: &mut UserService<R>)
        ensures
            same_policy(&final(service).repo, &old(service).repo),
            final(service).repo.log().len() >= old(service).repo.log().len(),
            final(service).repo.log().take(old(service).repo.log().len() as int) == old(
                service,
            ).repo.log(),
            worker_trace(
                final(service).repo.log().skip(old(service).repo.log().len() as int),
                self.queued(),
                old(service).repo.user_writes_accepted(),
            ),
    {
        let ghost q = self.queued();
        let ghost log0 = service.repo.log();
        let ghost su = service.repo.user_writes_accepted();
        let ghost se = service.repo.event_writes_accepted();
        let ghost ra = service.repo.reads_accepted();
        let mut receiver = self.receiver;
        let ghost mut done: int = 0;
        proof {
            assert(q.take(0) =~= Seq::<CommandMessageView>::empty());
            assert(service.repo.log().skip(log0.len() as int) =~= Seq::<RepoOp>::empty());
        }
        loop
            invariant
                0 <= done <= q.len(),
                receiver.pending() == q.skip(done),
                service.repo.user_writes_accepted() == su,
                service.repo.event_writes_accepted() == se,
                service.repo.reads_accepted() == ra,
                service.repo.log().len() >= log0.len(),
                service.repo.log().take(log0.len() as int) == log0,
                worker_trace(service.repo.log().skip(log0.len() as int), q.take(done), su),
            ensures
                service.repo.user_writes_accepted() == su,
                service.repo.event_writes_accepted() == se,
                service.repo.reads_accepted() == ra,
                service.repo.log().len() >= log0.len(),
                service.repo.log().take(log0.len() as int) == log0,
                worker_trace(service.repo.log().skip(log0.len() as int), q, su),
            decreases q.len() - done,
        {
            match receiver.dequeue() {
                None => {
                    proof {
                        assert(q.skip(done).len() == 0);
                        assert(q.take(done) =~= q);
                    }
                    break ;
                },
                Some(command) => {
                    proof {
                        assert(q.skip(done)[0] == q[done]);
                        assert(q.skip(done).skip(1) =~= q.skip(done + 1));
                    }
                    match command {
                        CommandMessage::CreateUser(cmd) => {
                            let ghost log_before = service.repo.log();
                            let ghost payload = cmd@;
                            match service.handle_create_user(cmd) {
                                Ok(created) => {
                                    proof {
                                        let u = created@;
                                        assert(service.repo.log() == log_before + attempt_ops(
                                            created_user(u.id, payload),
                                            su,
                                        ));
                                        Self::lemma_extend(
                                            log0,
                                            log_before,
                                            service.repo.log(),
                                            q,
                                            done,
                                            u.id,
                                            payload,
                                            su,
                                        );
                                        done = done + 1;
                                    }
                                },
                                Err(_) => {
                                    proof {
                                        let wid = choose|id: u128|
                                            id != 0 && service.repo.log() == log_before
                                                + attempt_ops(created_user(id, payload), su);
                                        Self::lemma_extend(
                                            log0,
                                            log_before,
                                            service.repo.log(),
                                            q,
                                            done,
                                            wid,
                                            payload,
                                            su,
                                        );
                                        done = done + 1;
                                    }
                                },
                            }
                        },
                    }
                },
            }
        }
    }

    /// One step of the worker's bookkeeping: a command's segment appended
    /// to the trace extends the FIFO law by that command.
    proof fn lemma_extend(
        log0: Seq<RepoOp>,
        log_before: Seq<RepoOp>,
        log_after: Seq<RepoOp>,
        q: Seq<CommandMessageView>,
        done: int,
        seg_id: u128,
        payload: CreateUserView,
        user_write_ok: bool,
    )
        requires
            0 <= done < q.len(),
            command_payload(q[done]) == payload,
            log_before.len() >= log0.len(),
            log_before.take(log0.len() as int) == log0,
            worker_trace(log_before.skip(log0.len() as int), q.take(done), user_write_ok),
            seg_id != 0,
            log_after == log_before + attempt_ops(created_user(seg_id, payload), user_write_ok),
        ensures
            log_after.len() >= log0.len(),
            log_after.take(log0.len() as int) == log0,
            worker_trace(log_after.skip(log0.len() as int), q.take(done + 1), user_write_ok),
    {
        let seg = attempt_ops(created_user(seg_id, payload), user_write_ok);
        lemma_worker_trace_snoc(
            log_before.skip(log0.len() as int),
            q.take(done),
            seg_id,
            q[done],
            user_write_ok,
        );
        assert(q.take(done).push(q[done]) =~= q.take(done + 1));
        assert(log_after.take(log0.len() as int) =~= log0);
        assert(log_after.skip(log0.len() as int) =~= log_before.skip(log0.len() as int) + seg);
    }
}

} // verus!
