use tego::callbacks::{
    direction_code, response_code, tor_config_type_code, transfer_result_code, user_status_code, user_type_code, CallbackData,
    FileTransferDirection, FileTransferResponse, FileTransferResult, TorConfigType, UserStatus,
};
use tego::command_queue::{Command, CommandQueue};
use tego::event_loop::{EventLoopError, EventLoopTask, TorEvent};
use tego::service_id::ServiceId;
use tego::session::{ConnectContact, ProfileUser, Session, SessionError, UserType};
use tor_interface::tor_crypto::{Ed25519PrivateKey, V3OnionServiceId};

fn fresh_id() -> ServiceId {
    let key = Ed25519PrivateKey::generate();
    ServiceId::from_string(&V3OnionServiceId::from_private_key(&key).to_string()).unwrap()
}

fn profile() -> Vec<ProfileUser> {
    vec![
        ProfileUser {
            user_handle: 0,
            user_type: UserType::Owner,
            service_id: fresh_id(),
            nickname: "me".to_string(),
            pet_name: None,
            has_private_key: true,
        },
        ProfileUser {
            user_handle: 1,
            user_type: UserType::Allowed,
            service_id: fresh_id(),
            nickname: "alice".to_string(),
            pet_name: Some("Alice".to_string()),
            has_private_key: false,
        },
    ]
}

fn started_loop() -> (EventLoopTask, i64) {
    let mut task = EventLoopTask::new();
    let h = task.allocate_session_handle();
    let session = Session::new(h, &profile()).unwrap();
    let mut commands: Vec<(ConnectContact, u64)> = Vec::new();
    task.install_session(session, &mut commands);
    (task, h)
}

#[test]
fn commands_run_in_start_order() {
    let mut q: CommandQueue<&str> = CommandQueue::new();
    assert!(q.is_empty());
    q.push(Command::new("late", 10, 100));
    q.push(Command::new("early", 0, 100));
    q.push(Command::new("early too", 0, 100));
    assert_eq!(q.len(), 3);
    assert_eq!(q.peek_start_time(), Some(100));
    assert_eq!(q.pop().unwrap().data(), "early");
    assert_eq!(q.pop().unwrap().data(), "early too");
    let last = q.pop().unwrap();
    assert_eq!(last.start_time(), 110);
    assert_eq!(last.data(), "late");
    assert!(q.pop().is_none());
    assert_eq!(q.peek_start_time(), None);
}

#[test]
fn due_commands_are_taken_and_the_rest_stay() {
    let mut q: CommandQueue<u32> = CommandQueue::new();
    q.push(Command::new(1, 5, 0));
    q.push(Command::new(2, 0, 0));
    q.push(Command::new(3, 20, 0));
    assert_eq!(q.take_due(5), vec![2, 1]);
    assert_eq!(q.len(), 1);
    assert_eq!(q.take_due(19), Vec::<u32>::new());
    assert_eq!(q.take_due(20), vec![3]);
    assert!(q.is_empty());
}

#[test]
fn queues_merge() {
    let mut a: CommandQueue<u32> = CommandQueue::new();
    a.push(Command::new(1, 3, 0));
    let mut b: CommandQueue<u32> = CommandQueue::new();
    b.push(Command::new(2, 1, 0));
    b.push(Command::new(3, 5, 0));
    a.append(b);
    assert_eq!(a.len(), 3);
    let all = a.take();
    assert!(a.is_empty());
    let mut all = all;
    assert_eq!(all.take_due(100), vec![2, 1, 3]);
}

#[test]
fn session_handles_count_up() {
    let mut task = EventLoopTask::new();
    assert_eq!(task.allocate_session_handle(), 0);
    assert_eq!(task.allocate_session_handle(), 1);
    assert!(!task.is_complete());
    task.end_event_loop();
    assert!(task.is_complete());
}

#[test]
fn installing_a_session_reports_its_users_and_connects_contacts() {
    let mut task = EventLoopTask::new();
    let h = task.allocate_session_handle();
    let session = Session::new(h, &profile()).unwrap();
    let mut commands: Vec<(ConnectContact, u64)> = Vec::new();
    task.install_session(session, &mut commands);
    assert!(task.has_session(h));
    assert_eq!(commands.len(), 1);
    assert_eq!(commands[0].0.user_handle, 1);
    assert_eq!(commands[0].1, 0);
    let callbacks = task.take_callbacks();
    assert_eq!(callbacks.len(), 1);
    match &callbacks[0] {
        CallbackData::SessionBegan { session_handle, users } => {
            assert_eq!(*session_handle, h);
            assert_eq!(users.len(), 2);
            assert_eq!(users[0], (0, UserType::Owner, "me".to_string()));
            assert_eq!(users[1], (1, UserType::Allowed, "Alice".to_string()));
        },
        other => panic!("unexpected callback {other:?}"),
    }
    assert!(task.take_callbacks().is_empty());
}

#[test]
fn ending_a_session_drops_its_connection_attempts() {
    let (mut task, h) = started_loop();
    task.register_connect(10, h);
    task.register_connect(11, h + 1);
    assert!(task.end_session(h).is_ok());
    assert!(!task.has_session(h));
    assert!(matches!(task.end_session(h), Err(EventLoopError::UnknownSession { session_handle: 0 })));
    let mut commands: Vec<(ConnectContact, u64)> = Vec::new();
    // the attempt of the ended session is gone, the other one is still waited for
    assert!(matches!(
        task.handle_tor_event(TorEvent::ConnectComplete { handle: 10 }, &mut commands),
        Err(EventLoopError::UnknownConnectHandle { connect_handle: 10 })
    ));
    assert!(matches!(task.handle_tor_event(TorEvent::ConnectComplete { handle: 11 }, &mut commands), Ok(None)));
}

#[test]
fn tor_progress_is_passed_on() {
    let mut task = EventLoopTask::new();
    let mut commands: Vec<(ConnectContact, u64)> = Vec::new();
    task.handle_tor_event(TorEvent::BootstrapStatus { progress: 50, tag: "conn".to_string() }, &mut commands).unwrap();
    task.handle_tor_event(TorEvent::OnionServicePublished, &mut commands).unwrap();
    task.handle_tor_event(TorEvent::LogReceived { line: "hello".to_string() }, &mut commands).unwrap();
    task.handle_tor_event(TorEvent::BootstrapComplete, &mut commands).unwrap();
    let callbacks = task.take_callbacks();
    assert_eq!(callbacks.len(), 3);
    assert!(matches!(&callbacks[0], CallbackData::TorBootstrapStatusChanged { progress: 50, tag } if tag == "conn"));
    assert!(matches!(&callbacks[1], CallbackData::TorLogReceived { line } if line == "hello"));
    assert!(matches!(callbacks[2], CallbackData::TorBootstrapComplete));
}

#[test]
fn finished_connection_goes_to_its_session() {
    let (mut task, h) = started_loop();
    let mut commands: Vec<(ConnectContact, u64)> = Vec::new();
    task.register_connect(3, h);
    assert_eq!(task.handle_tor_event(TorEvent::ConnectComplete { handle: 3 }, &mut commands).unwrap(), Some(h));
    assert!(commands.is_empty());
}

#[test]
fn failed_connection_is_retried_by_its_session() {
    let (mut task, h) = started_loop();
    let mut session = task.take_session(h).unwrap();
    let mut commands: Vec<(ConnectContact, u64)> = Vec::new();
    session.on_connect_started(1, Some(8), None, &mut commands);
    task.restore_session(session);
    task.register_connect(8, h);
    assert_eq!(task.handle_tor_event(TorEvent::ConnectFailed { handle: 8 }, &mut commands).unwrap(), None);
    assert_eq!(commands.len(), 1);
    assert_eq!(commands[0].0.session_handle, h);
    assert_eq!(commands[0].0.user_handle, 1);
    assert_eq!(commands[0].1, 30);
    // a session that does not know the attempt refuses it
    task.register_connect(9, h);
    assert!(matches!(
        task.handle_tor_event(TorEvent::ConnectFailed { handle: 9 }, &mut commands),
        Err(EventLoopError::Session(SessionError::UnknownConnectHandle { connect_handle: 9 }))
    ));
}

#[test]
fn contacts_through_the_loop() {
    let (mut task, h) = started_loop();
    let _ = task.take_callbacks();
    let id = fresh_id();
    assert!(task.can_add_contact(h, &id).is_ok());
    assert!(matches!(task.can_add_contact(h + 5, &id), Err(EventLoopError::UnknownSession { .. })));
    assert_eq!(task.add_pending_contact(h, id.clone(), "carol".to_string(), 5).unwrap(), 5);
    assert!(matches!(
        task.can_add_contact(h, &id),
        Err(EventLoopError::Session(SessionError::DuplicateServiceId))
    ));
    assert!(matches!(
        task.add_pending_contact(h, id.clone(), "carol".to_string(), 6),
        Err(EventLoopError::Session(SessionError::DuplicateServiceId))
    ));
    let forgotten = task.forget_user(h, 5).unwrap().unwrap();
    assert!(forgotten.same(&id));
    assert!(task.forget_user(h, 5).unwrap().is_none());
    let callbacks = task.take_callbacks();
    assert_eq!(callbacks.len(), 3);
    assert!(matches!(
        callbacks[0],
        CallbackData::UserAdded { user_handle: 5, user_type: UserType::Pending, .. }
    ));
    assert!(matches!(callbacks[1], CallbackData::UserRemoved { user_handle: 5, .. }));
    assert!(matches!(
        task.add_pending_contact(h + 5, fresh_id(), "x".to_string(), 9),
        Err(EventLoopError::UnknownSession { .. })
    ));
}

#[test]
fn contact_requests_through_the_loop() {
    let (mut task, h) = started_loop();
    let _ = task.acknowledge_contact_request(h, 1, false).unwrap();
    let session = task.take_session(h).unwrap();
    assert_eq!(session.get_users()[&1].user_type, UserType::Rejected);
    task.restore_session(session);
    task.acknowledge_contact_request(h, 1, true).unwrap();
    assert!(matches!(
        task.acknowledge_contact_request(h, 77, true),
        Err(EventLoopError::Session(SessionError::UnknownUser { user_handle: 77 }))
    ));
    assert!(matches!(
        task.acknowledge_contact_request(h + 3, 1, true),
        Err(EventLoopError::UnknownSession { .. })
    ));
}

#[test]
fn finished_transfers_are_reported() {
    let mut task = EventLoopTask::new();
    task.file_transfer_rejected(1, 2, 3);
    task.file_transfer_cancelled(1, 2, 4, FileTransferDirection::Sending);
    task.queue_callbacks(vec![CallbackData::TorBootstrapComplete]);
    let callbacks = task.take_callbacks();
    assert!(matches!(
        callbacks[0],
        CallbackData::FileTransferComplete {
            file_transfer_id: 3,
            direction: FileTransferDirection::Receiving,
            result: FileTransferResult::Rejected,
            ..
        }
    ));
    assert!(matches!(
        callbacks[1],
        CallbackData::FileTransferComplete {
            file_transfer_id: 4,
            direction: FileTransferDirection::Sending,
            result: FileTransferResult::Cancelled,
            ..
        }
    ));
    assert!(matches!(callbacks[2], CallbackData::TorBootstrapComplete));
}

#[test]
fn values_given_to_the_c_interface() {
    assert_eq!(user_type_code(UserType::Owner), 0);
    assert_eq!(user_type_code(UserType::Pending), 4);
    assert_eq!(user_type_code(UserType::Rejected), 5);
    assert_eq!(user_status_code(UserStatus::Unset), 0);
    assert_eq!(user_status_code(UserStatus::Offline), 2);
    assert_eq!(direction_code(FileTransferDirection::Receiving), 1);
    assert_eq!(transfer_result_code(FileTransferResult::BadHash), 4);
    assert_eq!(transfer_result_code(FileTransferResult::FilesystemError), 6);
    assert_eq!(response_code(FileTransferResponse::Reject), 1);
    assert_eq!(tor_config_type_code(TorConfigType::BundledTor), 0);
}
