use coqrs::commands::{
    send_command, CommandBus, CommandHandler, CommandMessage, CreateUser, EnqueueOutcome,
    DEFAULT_BUS_CAPACITY,
};
use coqrs::memory::MemoryRepository;
use coqrs::services::UserService;

fn command(username: &str, email: &str) -> CreateUser {
    CreateUser {
        username: username.to_string(),
        email: email.to_string(),
    }
}

#[test]
fn fresh_store_get_returns_absence() {
    let mut service = UserService::new(MemoryRepository::new());
    let r = service.handle_get_user_by_id(0x0123_4567_89ab_cdef_0123_4567_89ab_cdefu128);
    assert!(matches!(r, Ok(None)));
}

#[test]
fn create_then_get_returns_same_user() {
    let mut service = UserService::new(MemoryRepository::new());
    let user = service
        .handle_create_user(command("ada", "ada@example.com"))
        .expect("create should succeed on a fresh store");
    assert_ne!(user.id, 0);
    let found = service
        .handle_get_user_by_id(user.id)
        .expect("get should succeed on a fresh store")
        .expect("the created user should be found");
    assert_eq!(found.id, user.id);
    assert_eq!(found.username, "ada");
    assert_eq!(found.email, "ada@example.com");
}

#[test]
fn create_assigns_distinct_ids() {
    let mut service = UserService::new(MemoryRepository::new());
    let first = service
        .handle_create_user(command("ada", "ada@example.com"))
        .unwrap();
    let second = service
        .handle_create_user(command("ada", "ada@example.com"))
        .unwrap();
    assert_ne!(first.id, second.id);
}

#[test]
fn create_assigns_time_ordered_ids() {
    let mut service = UserService::new(MemoryRepository::new());
    let user = service.handle_create_user(command("ada", "a@b.c")).unwrap();
    assert_eq!((user.id >> 76) & 0xf, 7);
}

#[test]
fn create_writes_one_matching_event() {
    let mut service = UserService::new(MemoryRepository::new());
    let user = service
        .handle_create_user(command("ada", "ada@example.com"))
        .unwrap();
    let events = service.repo.recorded_events();
    assert_eq!(events.len(), 1);
    assert_eq!(events[0].id, user.id);
    assert_eq!(events[0].username, "ada");
    assert_eq!(events[0].email, "ada@example.com");
}

#[test]
fn user_write_failure_writes_nothing() {
    let mut service = UserService::new(MemoryRepository::with_policy(false, true, true));
    let r = service.handle_create_user(command("ada", "a@b.c"));
    assert!(r.is_err());
    assert_eq!(service.repo.recorded_events().len(), 0);
}

#[test]
fn event_write_failure_reports_error() {
    let mut service = UserService::new(MemoryRepository::with_policy(true, false, true));
    let r = service.handle_create_user(command("ada", "a@b.c"));
    assert!(r.is_err());
    assert_eq!(service.repo.recorded_events().len(), 0);
}

#[test]
fn read_failure_is_an_error_not_absence() {
    let mut service = UserService::new(MemoryRepository::with_policy(true, true, false));
    let r = service.handle_get_user_by_id(1);
    let e = r.err().expect("a refused read must be an error");
    assert!(!e.message.is_empty());
}

#[test]
fn worker_processes_commands_fifo() {
    let mut bus = CommandBus::new(DEFAULT_BUS_CAPACITY);
    let r1 = send_command(
        &mut bus,
        CommandMessage::CreateUser(command("first", "1@example.com")),
    );
    assert!(matches!(r1, EnqueueOutcome::Accepted));
    let r2 = send_command(
        &mut bus,
        CommandMessage::CreateUser(command("second", "2@example.com")),
    );
    assert!(matches!(r2, EnqueueOutcome::Accepted));

    let mut service = UserService::new(MemoryRepository::new());
    let handler = CommandHandler::new(bus);
    handler.run(&mut service);

    let events = service.repo.recorded_events();
    assert_eq!(events.len(), 2);
    assert_eq!(events[0].username, "first");
    assert_eq!(events[1].username, "second");
    assert_ne!(events[0].id, events[1].id);
}

#[test]
fn enqueue_backpressure_keeps_the_message() {
    let mut bus = CommandBus::new(2);
    assert!(matches!(
        bus.enqueue(CommandMessage::CreateUser(command("one", "1@x"))),
        EnqueueOutcome::Accepted
    ));
    assert!(matches!(
        bus.enqueue(CommandMessage::CreateUser(command("two", "2@x"))),
        EnqueueOutcome::Accepted
    ));
    let third = bus.enqueue(CommandMessage::CreateUser(command("three", "3@x")));
    let held = match third {
        EnqueueOutcome::Full(CommandMessage::CreateUser(c)) => c,
        _ => panic!("the third enqueue on a full bus must report Full"),
    };
    assert_eq!(held.username, "three");
    assert_eq!(held.email, "3@x");

    let drained = bus.dequeue();
    assert!(drained.is_some());
    let retry = bus.enqueue(CommandMessage::CreateUser(held));
    assert!(matches!(retry, EnqueueOutcome::Accepted));
}

#[test]
fn closed_bus_refuses_commands() {
    let mut bus = CommandBus::new(4);
    bus.close();
    let r = bus.enqueue(CommandMessage::CreateUser(command("late", "l@x")));
    let held = match r {
        EnqueueOutcome::Closed(CommandMessage::CreateUser(c)) => c,
        _ => panic!("an enqueue on a closed bus must report Closed"),
    };
    assert_eq!(held.username, "late");
}

#[test]
fn dequeue_is_fifo() {
    let mut bus = CommandBus::new(4);
    bus.enqueue(CommandMessage::CreateUser(command("a", "a@x")));
    bus.enqueue(CommandMessage::CreateUser(command("b", "b@x")));
    let CommandMessage::CreateUser(first) = bus.dequeue().unwrap();
    assert_eq!(first.username, "a");
    let CommandMessage::CreateUser(second) = bus.dequeue().unwrap();
    assert_eq!(second.username, "b");
    assert!(bus.dequeue().is_none());
}

#[test]
fn service_create_user_enqueues_the_command() {
    let mut bus = CommandBus::new(4);
    let service: UserService<MemoryRepository> = UserService::new(MemoryRepository::new());
    let r = service.create_user(&mut bus, command("ada", "ada@example.com"));
    assert!(matches!(r, EnqueueOutcome::Accepted));
    let CommandMessage::CreateUser(queued) = bus.dequeue().unwrap();
    assert_eq!(queued.username, "ada");
    assert_eq!(queued.email, "ada@example.com");
}
