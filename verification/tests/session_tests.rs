use tego::callbacks::{CallbackData, FileTransferDirection};
use tego::service_id::ServiceId;
use tego::session::{
    retry_delay, ConnectContact, ContactRequestOutcome, FileUpload, ProfileUser, Session, SessionError, UserType,
};
use tor_interface::tor_crypto::{Ed25519PrivateKey, V3OnionServiceId};

fn fresh_id() -> ServiceId {
    let key = Ed25519PrivateKey::generate();
    let text = V3OnionServiceId::from_private_key(&key).to_string();
    ServiceId::from_string(&text).unwrap()
}

fn user(handle: i64, user_type: UserType, pet_name: Option<&str>) -> ProfileUser {
    ProfileUser {
        user_handle: handle,
        user_type,
        service_id: fresh_id(),
        nickname: format!("nick{handle}"),
        pet_name: pet_name.map(|p| p.to_string()),
        has_private_key: user_type == UserType::Owner,
    }
}

fn sample_session() -> Session {
    let profile = vec![
        user(0, UserType::Owner, None),
        user(3, UserType::Allowed, Some("alice")),
        user(1, UserType::Pending, None),
        user(2, UserType::Blocked, Some("mallory")),
        user(4, UserType::Requesting, Some("bob")),
    ];
    Session::new(7, &profile).unwrap()
}

#[test]
fn session_needs_an_owner() {
    let profile = vec![user(1, UserType::Allowed, Some("alice"))];
    assert!(matches!(Session::new(1, &profile), Err(SessionError::NoOwner)));
    assert!(matches!(Session::new(1, &vec![]), Err(SessionError::NoOwner)));
}

#[test]
fn session_lists_users_in_handle_order() {
    let s = sample_session();
    assert_eq!(s.get_handle(), 7);
    let list = s.user_list();
    let handles: Vec<i64> = list.iter().map(|u| u.0).collect();
    assert_eq!(handles, vec![0, 1, 2, 3, 4]);
    assert_eq!(list[1].1, UserType::Pending);
    assert_eq!(list[1].2, "nick1");
    assert_eq!(list[3].2, "alice");
    let users = s.get_users();
    assert_eq!(users.len(), 5);
    assert_eq!(users[&3].connection_failures, 0);
    assert_eq!(users[&3].next_message_id, 0);
}

#[test]
fn connecting_to_known_contacts() {
    let s = sample_session();
    let mut commands: Vec<(ConnectContact, u64)> = Vec::new();
    s.connect_all_known_contacts(&mut commands);
    let targets: Vec<i64> = commands.iter().map(|c| c.0.user_handle).collect();
    assert_eq!(targets, vec![1, 3]);
    for (c, delay) in &commands {
        assert_eq!(c.session_handle, 7);
        assert!(c.contact_request_message.is_none());
        assert_eq!(*delay, 0);
    }
}

#[test]
fn pending_contacts_are_unique() {
    let mut s = sample_session();
    let existing = s.contact_service_id(3).unwrap();
    assert!(matches!(s.can_add_contact(&existing), Err(SessionError::DuplicateServiceId)));
    assert!(matches!(
        s.add_pending_contact(existing, "again".to_string(), 10),
        Err(SessionError::DuplicateServiceId)
    ));
    let id = fresh_id();
    let id_copy = id.clone();
    assert!(s.can_add_contact(&id).is_ok());
    assert_eq!(s.add_pending_contact(id, "carol".to_string(), 10).unwrap(), 10);
    assert_eq!(s.get_users()[&10].user_type, UserType::Pending);
    assert_eq!(s.get_users()[&10].pet_name, "carol");
    assert_eq!(s.find_user(&id_copy), Some(10));
}

#[test]
fn retry_delays_grow_with_failures() {
    assert_eq!(retry_delay(0), 30);
    assert_eq!(retry_delay(10), 30);
    assert_eq!(retry_delay(11), 60);
    assert_eq!(retry_delay(15), 60);
    assert_eq!(retry_delay(16), 120);
    assert_eq!(retry_delay(20), 120);
    assert_eq!(retry_delay(21), 600);
    assert_eq!(retry_delay(usize::MAX), 600);
}

#[test]
fn failed_connection_is_retried() {
    let mut s = sample_session();
    let mut commands: Vec<(ConnectContact, u64)> = Vec::new();
    s.on_connect_started(3, Some(42), Some("hi".to_string()), &mut commands);
    assert!(commands.is_empty());
    assert!(s.on_connect_failed(42, &mut commands).is_ok());
    assert_eq!(commands.len(), 1);
    assert_eq!(commands[0].0.user_handle, 3);
    assert_eq!(commands[0].0.contact_request_message.as_deref(), Some("hi"));
    assert_eq!(commands[0].1, 30);
    assert_eq!(s.get_users()[&3].connection_failures, 1);
    assert!(matches!(
        s.on_connect_failed(42, &mut commands),
        Err(SessionError::UnknownConnectHandle { connect_handle: 42 })
    ));
}

#[test]
fn connect_attempt_that_could_not_start_is_retried() {
    let mut s = sample_session();
    let mut commands: Vec<(ConnectContact, u64)> = Vec::new();
    s.on_connect_started(1, None, None, &mut commands);
    assert_eq!(commands.len(), 1);
    assert_eq!(commands[0].0.user_handle, 1);
    assert_eq!(commands[0].1, 30);
    assert_eq!(s.get_users()[&1].connection_failures, 1);
}

#[test]
fn completed_connection_gives_back_its_user() {
    let mut s = sample_session();
    let mut commands: Vec<(ConnectContact, u64)> = Vec::new();
    s.on_connect_started(3, Some(5), None, &mut commands);
    let (h, msg, sid) = s.take_pending_connection(5).unwrap();
    assert_eq!(h, 3);
    assert!(msg.is_none());
    assert!(sid.same(&s.contact_service_id(3).unwrap()));
    assert!(matches!(
        s.take_pending_connection(5),
        Err(SessionError::UnknownConnectHandle { connect_handle: 5 })
    ));
}

#[test]
fn contact_requests_are_answered() {
    let mut s = sample_session();
    let sid = s.accept_contact_request(4).unwrap();
    assert!(sid.same(&s.contact_service_id(4).unwrap()));
    assert_eq!(s.get_users()[&4].user_type, UserType::Allowed);
    s.reject_contact_request(1).unwrap();
    assert_eq!(s.get_users()[&1].user_type, UserType::Rejected);
    assert!(matches!(s.accept_contact_request(99), Err(SessionError::UnknownUser { user_handle: 99 })));
    assert!(matches!(s.reject_contact_request(99), Err(SessionError::UnknownUser { user_handle: 99 })));
}

#[test]
fn forgetting_a_user() {
    let mut s = sample_session();
    let sid = s.contact_service_id(3).unwrap();
    let forgotten = s.forget_user(3).unwrap();
    assert!(forgotten.same(&sid));
    assert!(!s.has_user(3));
    assert_eq!(s.find_user(&sid), None);
    assert!(s.forget_user(3).is_none());
}

#[test]
fn sent_messages_get_increasing_ids() {
    let mut s = sample_session();
    assert!(matches!(
        s.record_sent_message(3, 9, 100, "hi".to_string(), 5),
        Err(SessionError::UnknownConnection { connection_handle: 9 })
    ));
    s.add_connection(9, Some(s.contact_service_id(3).unwrap()), Some(3));
    assert_eq!(s.record_sent_message(3, 9, 100, "hi".to_string(), 5).unwrap(), 0);
    assert_eq!(s.record_sent_message(3, 9, 101, "again".to_string(), 6).unwrap(), 1);
    let queued = s.queued_chat_messages(3);
    assert_eq!(queued.len(), 2);
    assert_eq!(queued[0].1, "hi");
    assert_eq!(queued[1].1, "again");
}

#[test]
fn acknowledged_message_leaves_the_queue() {
    let mut s = sample_session();
    let sid = s.contact_service_id(3).unwrap();
    s.add_connection(9, Some(sid.clone()), Some(3));
    s.record_sent_message(3, 9, 100, "hi".to_string(), 5).unwrap();
    s.record_sent_message(3, 9, 101, "there".to_string(), 6).unwrap();
    let mut callbacks: Vec<CallbackData> = Vec::new();
    s.on_chat_acknowledge_received(&sid, 101, true, &mut callbacks);
    assert_eq!(callbacks.len(), 1);
    assert!(matches!(
        callbacks[0],
        CallbackData::MessageAcknowledged { session_handle: 7, user_handle: 3, message_id: 1, accepted: true }
    ));
    assert_eq!(s.queued_chat_messages(3).len(), 1);
    // an unknown message handle changes nothing
    s.on_chat_acknowledge_received(&sid, 555, true, &mut callbacks);
    assert_eq!(callbacks.len(), 1);
}

#[test]
fn received_message_is_reported() {
    let mut s = sample_session();
    let sid = s.contact_service_id(3).unwrap();
    let mut callbacks: Vec<CallbackData> = Vec::new();
    s.on_chat_message_received(&sid, "hello".to_string(), 1234, &mut callbacks);
    match &callbacks[0] {
        CallbackData::MessageReceived { session_handle, user_handle, timestamp, message_id, message } => {
            assert_eq!((*session_handle, *user_handle, *timestamp, *message_id), (7, 3, 1234, 0));
            assert_eq!(message, "hello");
        },
        other => panic!("unexpected callback {other:?}"),
    }
    assert_eq!(s.get_users()[&3].next_message_id, 1);
    // a stranger's message is dropped
    s.on_chat_message_received(&fresh_id(), "spam".to_string(), 1, &mut callbacks);
    assert_eq!(callbacks.len(), 1);
}

#[test]
fn contact_request_from_stranger_and_rejected_user() {
    let mut s = sample_session();
    let mut callbacks: Vec<CallbackData> = Vec::new();
    assert_eq!(
        s.on_contact_request_received(&fresh_id(), "hi".to_string(), &mut callbacks),
        ContactRequestOutcome::AddRequestingUser
    );
    s.reject_contact_request(1).unwrap();
    let sid = s.contact_service_id(1).unwrap();
    assert_eq!(
        s.on_contact_request_received(&sid, "please".to_string(), &mut callbacks),
        ContactRequestOutcome::SetRequesting { user_handle: 1 }
    );
    assert_eq!(s.get_users()[&1].user_type, UserType::Requesting);
    assert_eq!(callbacks.len(), 1);
    let allowed = s.contact_service_id(3).unwrap();
    assert_eq!(
        s.on_contact_request_received(&allowed, "hi".to_string(), &mut callbacks),
        ContactRequestOutcome::Ignored
    );
}

#[test]
fn requesting_user_is_added() {
    let mut s = sample_session();
    let id = fresh_id();
    let text = id.as_str().to_string();
    let mut callbacks: Vec<CallbackData> = Vec::new();
    s.add_requesting_user(id, 20, "let me in".to_string(), &mut callbacks);
    assert_eq!(s.get_users()[&20].user_type, UserType::Requesting);
    assert_eq!(s.get_users()[&20].pet_name, text);
    assert!(matches!(
        callbacks[0],
        CallbackData::UserAdded { session_handle: 7, user_handle: 20, user_type: UserType::Requesting }
    ));
    assert!(matches!(callbacks[1], CallbackData::ChatRequestReceived { session_handle: 7, user_handle: 20, .. }));
}

#[test]
fn first_chunk_counts_its_bytes_once() {
    let mut s = sample_session();
    let sid = s.contact_service_id(3).unwrap();
    s.add_connection(9, Some(sid.clone()), Some(3));
    let upload = FileUpload { name: "f.txt".to_string(), size: 1000, hash: vec![1, 2, 3], bytes_sent: 0 };
    let (id, size) = s.record_file_transfer_request(3, 9, 77, upload).unwrap();
    assert_eq!(size, 1000);
    let mut callbacks: Vec<CallbackData> = Vec::new();
    s.on_file_transfer_request_acknowledged(9, &sid, 77, true, &mut callbacks);
    assert_eq!(callbacks.len(), 1);
    s.on_first_chunk_sent(9, 3, id, 77, 100, &mut callbacks);
    assert_eq!(callbacks.len(), 3);
    assert!(matches!(
        callbacks[2],
        CallbackData::FileTransferProgress {
            direction: FileTransferDirection::Sending,
            bytes_complete: 100,
            bytes_total: 1000,
            ..
        }
    ));
    // the peer acknowledges the first 100 bytes; more is left to send
    assert_eq!(s.on_file_chunk_ack_received(9, &sid, 77, 100, &mut callbacks), Some(true));
    assert!(matches!(callbacks[3], CallbackData::FileTransferProgress { bytes_complete: 100, .. }));
}
