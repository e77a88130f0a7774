use vtt_server::command::Command;
use vtt_server::fields::Fields;
use vtt_server::identity::UserManager;
use vtt_server::model::{Message, User};
use vtt_server::opcode::Commands;
use vtt_server::queue::MessageQueue;
use vtt_server::session::{parseDateTime, Action, Event, Session};

/// Users and messages kept in memory, standing for the persistence layer.
struct Store {
    users: Vec<User>,
    messages: Vec<Message>,
}

impl Store {
    fn find_or_create(&mut self, name: &str) -> Option<User> {
        if let Some(u) = self.users.iter().find(|u| u.name == name) {
            return Some(u.clone());
        }
        let user = User { id: self.users.len() as i32 + 10, label: None, name: name.to_string() };
        self.users.push(user.clone());
        Some(user)
    }
}

fn request(kind: Commands, pairs: &[(&str, &str)]) -> Command {
    let mut data = Fields::new();
    for (k, v) in pairs {
        data.insert(k.to_string(), v.to_string());
    }
    Command::new(-1, kind, 0, data, Fields::new())
}

fn text(c: &Command) -> String {
    c.Data.get(&"text".to_string()).cloned().unwrap_or_default()
}

fn authenticate(
    session: &mut Session,
    queue: &mut MessageQueue,
    users: &mut UserManager,
    store: &mut Store,
    name: &str,
) {
    let action = session.dispatch(queue, &request(Commands::AuthenticateSend, &[("name", name)]));
    match action {
        Action::FindOrCreateUser(n) => {
            let found = store.find_or_create(&n);
            session.completeAuthentication(queue, users, found);
        },
        _ => panic!("authentication asks for the user"),
    }
}

#[test]
fn first_command_is_authenticate_request() {
    let mut queue = MessageQueue::new();
    let session = Session::new();
    assert_eq!(session.id(), -1);
    session.start(&mut queue);
    let batch = session.drain(&mut queue);
    assert_eq!(batch.len(), 1);
    assert_eq!(batch[0].Type, Commands::AuthenticateRequest);
    assert_eq!(batch[0].Id, -1);
}

#[test]
fn authenticate_new_user_succeeds_and_is_announced() {
    let mut queue = MessageQueue::new();
    let mut users = UserManager::new();
    let mut store = Store { users: vec![], messages: vec![] };

    let mut bob = Session::new();
    bob.start(&mut queue);
    bob.drain(&mut queue);
    authenticate(&mut bob, &mut queue, &mut users, &mut store, "bob");
    bob.drain(&mut queue);

    let mut alice = Session::new();
    alice.start(&mut queue);
    alice.drain(&mut queue);
    authenticate(&mut alice, &mut queue, &mut users, &mut store, "alice");

    assert!(store.users.iter().any(|u| u.name == "alice"));
    assert_eq!(alice.user().as_ref().unwrap().name, "alice");
    let batch = alice.drain(&mut queue);
    let successes: Vec<&Command> =
        batch.iter().filter(|c| c.Type == Commands::AuthenticateSuccess).collect();
    assert_eq!(successes.len(), 1);
    let success = successes[0];
    assert_eq!(success.Data.get(&"username".to_string()).unwrap(), "alice");
    let client_id: i64 = success.Data.get(&"clientId".to_string()).unwrap().parse().unwrap();
    assert_eq!(client_id, alice.id());
    assert_eq!(client_id, 2);

    let seen = bob.drain(&mut queue);
    assert!(seen.iter().any(|c| c.Type == Commands::BroadcastResponse
        && text(c) == "alice (2) connected!"));
}

#[test]
fn authenticate_without_name_fails() {
    let mut queue = MessageQueue::new();
    let session = Session::new();
    let action = session.dispatch(&mut queue, &request(Commands::AuthenticateSend, &[]));
    assert!(matches!(action, Action::Done));
    let batch = session.drain(&mut queue);
    assert_eq!(batch.len(), 1);
    assert_eq!(batch[0].Type, Commands::AuthenticateFail);
}

#[test]
fn authenticate_without_user_fails_and_keeps_state() {
    let mut queue = MessageQueue::new();
    let mut users = UserManager::new();
    let mut session = Session::new();
    session.completeAuthentication(&mut queue, &mut users, None);
    assert_eq!(session.id(), -1);
    assert!(session.user().is_none());
    let batch = session.drain(&mut queue);
    assert_eq!(batch.len(), 1);
    assert_eq!(batch[0].Type, Commands::AuthenticateFail);
}

#[test]
fn reconnect_keeps_handle() {
    let mut queue = MessageQueue::new();
    let mut users = UserManager::new();
    let mut store = Store { users: vec![], messages: vec![] };
    let mut first = Session::new();
    authenticate(&mut first, &mut queue, &mut users, &mut store, "carol");
    first.close(&mut queue);
    let mut again = Session::new();
    authenticate(&mut again, &mut queue, &mut users, &mut store, "carol");
    assert_eq!(first.id(), again.id());
}

#[test]
fn chat_is_broadcast_and_stored() {
    let mut queue = MessageQueue::new();
    let mut users = UserManager::new();
    let mut store = Store { users: vec![], messages: vec![] };
    let mut alice = Session::new();
    authenticate(&mut alice, &mut queue, &mut users, &mut store, "alice");
    let mut bob = Session::new();
    authenticate(&mut bob, &mut queue, &mut users, &mut store, "bob");
    let waiting = Session::new();
    waiting.start(&mut queue);
    alice.drain(&mut queue);
    bob.drain(&mut queue);
    waiting.drain(&mut queue);

    let mut stored = 0;
    let action = alice.dispatch(&mut queue, &request(Commands::BroadcastRequest, &[("text", "hi")]));
    if let Action::StoreMessage(m) = action {
        assert_eq!(m.text, "hi");
        assert_eq!(m.userId, Some(alice.user().as_ref().unwrap().id));
        stored += 1;
    }
    assert_eq!(stored, 1);
    for s in [&alice, &bob, &waiting] {
        let batch = s.drain(&mut queue);
        assert_eq!(batch.len(), 1);
        assert_eq!(batch[0].Type, Commands::BroadcastResponse);
        assert_eq!(text(&batch[0]), "alice: hi");
    }
}

#[test]
fn chat_is_ignored_before_authentication_or_when_empty() {
    let mut queue = MessageQueue::new();
    let mut users = UserManager::new();
    let mut store = Store { users: vec![], messages: vec![] };
    let anon = Session::new();
    anon.start(&mut queue);
    anon.drain(&mut queue);
    let action = anon.dispatch(&mut queue, &request(Commands::BroadcastRequest, &[("text", "hi")]));
    assert!(matches!(action, Action::Done));
    assert!(anon.drain(&mut queue).is_empty());

    let mut alice = Session::new();
    authenticate(&mut alice, &mut queue, &mut users, &mut store, "alice");
    alice.drain(&mut queue);
    anon.drain(&mut queue);
    let action = alice.dispatch(&mut queue, &request(Commands::BroadcastRequest, &[("text", "")]));
    assert!(matches!(action, Action::Done));
    assert!(alice.drain(&mut queue).is_empty());
}

#[test]
fn history_goes_only_to_requester_in_order() {
    let mut queue = MessageQueue::new();
    let mut users = UserManager::new();
    let mut store = Store { users: vec![], messages: vec![] };
    let mut alice = Session::new();
    authenticate(&mut alice, &mut queue, &mut users, &mut store, "alice");
    let mut bob = Session::new();
    authenticate(&mut bob, &mut queue, &mut users, &mut store, "bob");
    alice.drain(&mut queue);
    bob.drain(&mut queue);
    let alice_id = alice.user().as_ref().unwrap().id;
    store.messages.push(Message { id: 1, text: "first".to_string(), timestamp: 100, userId: Some(alice_id) });
    store.messages.push(Message { id: 2, text: "second".to_string(), timestamp: 200, userId: None });

    let action = bob.dispatch(
        &mut queue,
        &request(Commands::BroadcastGetRequest, &[("start", "0"), ("end", "9999999999")]),
    );
    match action {
        Action::LoadMessages { start, end } => {
            assert_eq!(start, 0);
            assert_eq!(end, 9999999999);
            let found: Vec<Message> = store
                .messages
                .iter()
                .filter(|m| m.timestamp >= start && m.timestamp <= end)
                .cloned()
                .collect();
            bob.queueExistingMessages(&mut queue, &found, &store.users);
        },
        _ => panic!("history asks for the messages"),
    }
    let batch = bob.drain(&mut queue);
    assert_eq!(batch.len(), 2);
    assert!(batch.iter().all(|c| c.Type == Commands::BroadcastResponse));
    assert_eq!(text(&batch[0]), "alice: first");
    assert_eq!(text(&batch[1]), "second");
    assert!(alice.drain(&mut queue).is_empty());
}

#[test]
fn history_with_bad_range_asks_nothing() {
    let mut queue = MessageQueue::new();
    let session = Session::new();
    for pairs in [
        vec![("start", "0")],
        vec![("start", "x"), ("end", "5")],
        vec![("start", "1"), ("end", "99999999999999999999")],
    ] {
        let action = session.dispatch(&mut queue, &request(Commands::BroadcastGetRequest, &pairs));
        assert!(matches!(action, Action::Done));
    }
    assert!(queue.isEmpty());
}

#[test]
fn scene_request_failure_sends_nothing() {
    let mut queue = MessageQueue::new();
    let mut users = UserManager::new();
    let mut store = Store { users: vec![], messages: vec![] };
    let mut other = Session::new();
    authenticate(&mut other, &mut queue, &mut users, &mut store, "dave");
    let a = Session::new();
    a.start(&mut queue);
    a.drain(&mut queue);
    let before = other.drain(&mut queue).len();
    assert_eq!(before, 2);
    other.dispatch(&mut queue, &request(Commands::NoOp, &[]));
    let action = a.dispatch(&mut queue, &request(Commands::Scene2DRequest, &[]));
    match action {
        Action::LoadAsset(name) => assert_eq!(name, "BackgroundPlaceholder.png"),
        _ => panic!("scene asks for the asset"),
    }
    a.handleScene2dRequest(&mut queue, None);
    assert!(a.drain(&mut queue).is_empty());
    assert!(other.drain(&mut queue).is_empty());
}

#[test]
fn scene_request_sends_base64_background() {
    let mut queue = MessageQueue::new();
    let a = Session::new();
    a.handleScene2dRequest(&mut queue, Some(b"hello".to_vec()));
    let batch = a.drain(&mut queue);
    assert_eq!(batch.len(), 1);
    assert_eq!(batch[0].Type, Commands::Scene2DResponse);
    assert_eq!(batch[0].Data.get(&"height".to_string()).unwrap(), "600");
    assert_eq!(batch[0].Data.get(&"width".to_string()).unwrap(), "900");
    assert_eq!(batch[0].BinaryData.get(&"background".to_string()).unwrap(), "aGVsbG8=");
}

#[test]
fn other_commands_are_ignored() {
    let mut queue = MessageQueue::new();
    let a = Session::new();
    for kind in [Commands::NoOp, Commands::AuthenticateSuccess, Commands::Scene2DResponse] {
        assert!(matches!(a.dispatch(&mut queue, &request(kind, &[])), Action::Done));
    }
    assert!(queue.isEmpty());
}

#[test]
fn close_removes_mailbox_and_announces() {
    let mut queue = MessageQueue::new();
    let mut users = UserManager::new();
    let mut store = Store { users: vec![], messages: vec![] };
    let mut alice = Session::new();
    authenticate(&mut alice, &mut queue, &mut users, &mut store, "alice");
    let mut bob = Session::new();
    authenticate(&mut bob, &mut queue, &mut users, &mut store, "bob");
    bob.drain(&mut queue);
    alice.close(&mut queue);
    let seen = bob.drain(&mut queue);
    assert_eq!(seen.len(), 1);
    assert_eq!(text(&seen[0]), "alice (1) disconnected!");
    assert!(alice.drain(&mut queue).is_empty());
}

#[test]
fn username_falls_back_to_handle() {
    let s = Session::new();
    assert_eq!(s.username(), "-1");
}

#[test]
fn parse_date_time_reads_seconds() {
    assert_eq!(parseDateTime(Some(&"1431648000".to_string())), Some(1431648000));
    assert_eq!(parseDateTime(Some(&"-86400".to_string())), Some(-86400));
    assert_eq!(parseDateTime(Some(&"12a".to_string())), None);
    assert_eq!(parseDateTime(None), None);
    assert_eq!(parseDateTime(Some(&"9223372036854775807".to_string())), None);
}

#[test]
fn poll_reacts_to_each_event() {
    let mut queue = MessageQueue::new();
    let mut users = UserManager::new();
    let mut store = Store { users: vec![], messages: vec![] };
    let mut alice = Session::new();
    authenticate(&mut alice, &mut queue, &mut users, &mut store, "alice");
    let mut bob = Session::new();
    authenticate(&mut bob, &mut queue, &mut users, &mut store, "bob");
    alice.drain(&mut queue);
    bob.drain(&mut queue);

    let r = alice.poll(&mut queue, Event::Cancelled);
    assert!(r.stop && !r.flush && matches!(r.action, Action::Done));
    let r = alice.poll(&mut queue, Event::Malformed);
    assert!(!r.stop && r.flush && matches!(r.action, Action::Done));
    let r = alice.poll(&mut queue, Event::Other);
    assert!(!r.stop && r.flush && matches!(r.action, Action::Done));
    assert!(bob.drain(&mut queue).is_empty());

    let r = alice.poll(&mut queue, Event::Text(request(Commands::BroadcastRequest, &[("text", "yo")])));
    assert!(!r.stop && r.flush);
    assert!(matches!(r.action, Action::StoreMessage(_)));
    assert_eq!(text(&bob.drain(&mut queue)[0]), "alice: yo");

    let r = bob.poll(&mut queue, Event::Close);
    assert!(r.stop && !r.flush && matches!(r.action, Action::Done));
    let seen = alice.drain(&mut queue);
    assert_eq!(seen.len(), 2);
    assert_eq!(text(&seen[1]), "bob (2) disconnected!");
}
