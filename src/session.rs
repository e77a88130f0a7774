use vstd::prelude::*;
use crate::assets::{base64_encode, base64_of};
use crate::clock::{instant_representable, now_seconds, representable_instant};
use crate::command::{command_matches, Command};
use crate::decimal::{decimal_of, format_i64, parse_i64, parsed_i64};
use crate::fields::Fields;
use crate::identity::{spec_resolve, UserManager};
use crate::model::{Message, NewMessage, User};
use crate::opcode::Commands;
use crate::queue::{
    is_broadcast, mailbox, spec_drain, spec_enqueue, text_payload, Mailboxes, MessageQueue,
};

verus! {

/// The handle of every session that has not authenticated yet.
pub const UnauthenticatedId: i64 = -1;

/// The value under `key` in `data`, if any.
pub open spec fn field(data: Map<Seq<char>, Seq<char>>, key: Seq<char>) -> Option<Seq<char>> {
    if data.contains_key(key) {
        Some(data[key])
    } else {
        None
    }
}

/// The instant, in seconds since the Unix epoch, that the text `t` names:
/// an `i64` in decimal that chrono can represent.
pub open spec fn instant_of(t: Option<Seq<char>>) -> Option<i64> {
    match t {
        Some(s) => match parsed_i64(s) {
            Some(n) => if representable_instant(n as int) {
                Some(n)
            } else {
                None
            },
            None => None,
        },
        None => None,
    }
}

/// The text of a chat request: present and not empty.
pub open spec fn chat_text(data: Map<Seq<char>, Seq<char>>) -> Option<Seq<char>> {
    match field(data, "text"@) {
        Some(t) => if t.len() > 0 {
            Some(t)
        } else {
            None
        },
        None => None,
    }
}

/// A chat line as it is broadcast: `<name>: <text>`.
pub open spec fn chat_line(name: Seq<char>, text: Seq<char>) -> Seq<char> {
    name + ": "@ + text
}

/// The notice broadcast when a user connects: `<name> (<handle>) connected!`.
pub open spec fn connected_line(name: Seq<char>, handle: i64) -> Seq<char> {
    name + " ("@ + decimal_of(handle as int) + ") connected!"@
}

/// The notice broadcast when a session closes:
/// `<name> (<handle>) disconnected!`.
pub open spec fn disconnected_line(name: Seq<char>, handle: i64) -> Seq<char> {
    name + " ("@ + decimal_of(handle as int) + ") disconnected!"@
}

/// The payload of a successful authentication.
pub open spec fn success_payload(handle: i64, name: Seq<char>) -> Map<Seq<char>, Seq<char>> {
    Map::empty().insert("clientId"@, decimal_of(handle as int)).insert("username"@, name)
}

/// The size payload of a scene reply.
pub open spec fn scene_payload() -> Map<Seq<char>, Seq<char>> {
    Map::empty().insert("height"@, "600"@).insert("width"@, "900"@)
}

/// The image payload of a scene reply.
pub open spec fn background_payload(background: Seq<char>) -> Map<Seq<char>, Seq<char>> {
    Map::empty().insert("background"@, background)
}

/// The name of the first user of `users` whose id is `author`; empty where
/// there is no author or no such user.
pub open spec fn author_name(users: Seq<User>, author: Option<i32>) -> Seq<char>
    decreases users.len(),
{
    match author {
        None => Seq::empty(),
        Some(a) => if users.len() == 0 {
            Seq::empty()
        } else if users[0].id == a {
            users[0].name@
        } else {
            author_name(users.drop_first(), author)
        },
    }
}

/// How a stored message is replayed: `<name>: <text>`, or the bare text
/// where the author has no name.
pub open spec fn history_line(m: Message, users: Seq<User>) -> Seq<char> {
    let name = author_name(users, m.userId);
    if name.len() == 0 {
        m.text@
    } else {
        chat_line(name, m.text@)
    }
}

/// Whether `new` is `old` after one command matching the given fields was
/// appended to the mailbox of `id`.
pub open spec fn enqueued_one(
    old: Mailboxes,
    new: Mailboxes,
    id: i64,
    kind: Commands,
    data: Map<Seq<char>, Seq<char>>,
    binary: Map<Seq<char>, Seq<char>>,
) -> bool {
    &&& new == spec_enqueue(old, new[id].last())
    &&& command_matches(new[id].last(), id, kind, data, binary)
}

/// The work that a command leaves for a collaborator of the session.
pub enum Action {
    /// Nothing is left to do.
    Done,
    /// Find the persisted user with this name, or create one.
    FindOrCreateUser(String),
    /// Load the stored messages from `start` to `end`, in seconds since the
    /// Unix epoch, both included.
    LoadMessages { start: i64, end: i64 },
    /// Persist this chat message.
    StoreMessage(NewMessage),
    /// Load the asset with this name.
    LoadAsset(String),
}

/// Whether handling a command of opcode `kind` with payload `data`, in a
/// session with handle `id` and user `user`, may turn the mailboxes `old`
/// into `new` and leave `r` to be done.
pub open spec fn dispatched(
    id: i64,
    user: Option<User>,
    old: Mailboxes,
    new: Mailboxes,
    kind: Commands,
    data: Map<Seq<char>, Seq<char>>,
    r: Action,
) -> bool {
    match kind {
        Commands::AuthenticateSend => match field(data, "name"@) {
            Some(n) => r matches Action::FindOrCreateUser(s) && s@ == n && new == old,
            None => r is Done && enqueued_one(
                old,
                new,
                id,
                Commands::AuthenticateFail,
                Map::empty(),
                Map::empty(),
            ),
        },
        Commands::BroadcastGetRequest => new == old && match (
            instant_of(field(data, "start"@)),
            instant_of(field(data, "end"@)),
        ) {
            (Some(s), Some(e)) => r == (Action::LoadMessages { start: s, end: e }),
            _ => r is Done,
        },
        Commands::BroadcastRequest => match (chat_text(data), user) {
            (Some(t), Some(u)) => {
                &&& is_broadcast(old, new, chat_line(u.name@, t))
                &&& r matches Action::StoreMessage(m) && m.text@ == t && m.userId == Some(u.id)
                    && m.timestamp >= 0
            },
            _ => r is Done && new == old,
        },
        Commands::Scene2DRequest => r matches Action::LoadAsset(p) && p@
            == "BackgroundPlaceholder.png"@ && new == old,
        _ => r is Done && new == old,
    }
}

/// What the connection delivered to the session.
pub enum Event {
    /// The shared shutdown signal fired.
    Cancelled,
    /// The client closed the connection.
    Close,
    /// A text frame that decoded to a command.
    Text(Command),
    /// A text frame that did not decode to a command.
    Malformed,
    /// Any other frame.
    Other,
}

/// What the connection does after an event: first the work left for a
/// collaborator, then, where `flush` is set, it drains the session's mailbox
/// to the client; where `stop` is set the read loop ends.
pub struct Reaction {
    pub action: Action,
    pub flush: bool,
    pub stop: bool,
}

/// The state of one connection: its current handle and, once it has
/// authenticated, its user.
///
/// A session starts unauthenticated with handle `-1`; a successful
/// authentication gives it the handle of its user.
pub struct Session {
    id: i64,
    user: Option<User>,
}

/// The instant that `timestamp` names, in seconds since the Unix epoch.
pub fn parseDateTime(timestamp: Option<&String>) -> (r: Option<i64>)
    ensures
        r == instant_of(
            match timestamp {
                Some(s) => Some(s@),
                None => None,
            },
        ),
{
    match timestamp {
        None => None,
        Some(ts) => match parse_i64(ts.as_str()) {
            None => None,
            Some(number) => if instant_representable(number) {
                Some(number)
            } else {
                None
            },
        },
    }
}

fn lookup<'a>(data: &'a Fields, key: &str) -> (r: Option<&'a String>)
    ensures
        r matches Some(v) ==> field(data@, key@) == Some(v@),
        r is None ==> field(data@, key@) is None,
{
    let k = String::from_str(key);
    data.get(&k)
}

/// The name of the first user of `users` whose id is `author`, or an empty
/// string.
fn authorName(users: &Vec<User>, author: Option<i32>) -> (r: String)
    ensures
        r@ == author_name(users@, author),
{
    match author {
        None => String::new(),
        Some(a) => {
            let n = users.len();
            let mut i: usize = 0;
            assert(users@.skip(0) =~= users@);
            while i < n
                invariant
                    n == users@.len(),
                    0 <= i <= n,
                    author == Some(a),
                    author_name(users@, author) == author_name(users@.skip(i as int), author),
                decreases n - i,
            {
                let ghost rest = users@.skip(i as int);
                assert(rest.drop_first() =~= users@.skip(i + 1));
                assert(rest[0] == users@[i as int]);
                if users[i].id == a {
                    return users[i].name.clone();
                }
                i = i + 1;
            }
            assert(users@.skip(n as int).len() == 0);
            String::new()
        },
    }
}

impl Session {
    #[verifier::type_invariant]
    spec fn inv(self) -> bool {
        &&& (self.user is None) == (self.id == UnauthenticatedId)
        &&& self.id == UnauthenticatedId || self.id >= 1
    }

    /// The handle of the session.
    pub closed spec fn spec_id(&self) -> i64 {
        self.id
    }

    /// The user of the session, once authenticated.
    pub closed spec fn spec_user(&self) -> Option<User> {
        self.user
    }

    /// A session that has just connected: handle `-1`, no user.
    pub fn new() -> (r: Session)
        ensures
            r.spec_id() == UnauthenticatedId,
            r.spec_user() is None,
    {
        Session { id: UnauthenticatedId, user: None }
    }

    /// Whether the session has authenticated. An authenticated session has
    /// a positive handle; any other has handle `-1`.
    pub fn isAuthenticated(&self) -> (r: bool)
        ensures
            r == self.spec_user() is Some,
            r ==> self.spec_id() >= 1,
            !r ==> self.spec_id() == UnauthenticatedId,
    {
        proof {
            use_type_invariant(self);
        }
        self.user.is_some()
    }

    /// The handle of the session.
    pub fn id(&self) -> (r: i64)
        ensures
            r == self.spec_id(),
    {
        self.id
    }

    /// The user of the session, once authenticated.
    pub fn user(&self) -> (r: &Option<User>)
        ensures
            *r == self.spec_user(),
    {
        &self.user
    }

    /// The name to show for the session: its user's name, or its handle.
    pub fn username(&self) -> (r: String)
        ensures
            r@ == match self.spec_user() {
                Some(u) => u.name@,
                None => decimal_of(self.spec_id() as int),
            },
    {
        match &self.user {
            Some(u) => u.name.clone(),
            None => format_i64(self.id),
        }
    }

    /// Opens the session: makes sure its mailbox exists and asks the
    /// client to authenticate.
    pub fn start(&self, queue: &mut MessageQueue)
        ensures
            enqueued_one(
                old(queue)@,
                final(queue)@,
                self.spec_id(),
                Commands::AuthenticateRequest,
                Map::empty(),
                Map::empty(),
            ),
    {
        queue.registerId(self.id);
        let ghost mid = queue@;
        queue.queueCommand(self.id, Commands::AuthenticateRequest, None, None);
        assert(spec_enqueue(mid, queue@[self.id].last()) =~= spec_enqueue(
            old(queue)@,
            queue@[self.id].last(),
        ));
    }

    /// Takes every command waiting for the session, in order, to be written
    /// to the client.
    pub fn drain(&self, queue: &mut MessageQueue) -> (r: Vec<Command>)
        ensures
            r@.map_values(|c: Command| c@) == spec_drain(old(queue)@, self.spec_id()).0,
            final(queue)@ == spec_drain(old(queue)@, self.spec_id()).1,
    {
        queue.readMessages(self.id)
    }

    /// Closes the session: its mailbox is deleted with whatever it still
    /// held, and the others are told that it left.
    pub fn close(&self, queue: &mut MessageQueue)
        ensures
            is_broadcast(
                old(queue)@.remove(self.spec_id()),
                final(queue)@,
                disconnected_line(
                    match self.spec_user() {
                        Some(u) => u.name@,
                        None => Seq::empty(),
                    },
                    self.spec_id(),
                ),
            ),
    {
        let _ = queue.removeId(self.id);
        let mut text = match &self.user {
            None => String::new(),
            Some(u) => u.name.clone(),
        };
        text.append(" (");
        let handle = format_i64(self.id);
        text.append(handle.as_str());
        text.append(") disconnected!");
        queue.queueBroadcast(text);
    }

    /// Reacts to one event of the connection's read loop. Cancellation ends
    /// the loop with no further writes; a close frame closes the session and
    /// ends the loop without a reply; a command is handled as `dispatch`
    /// does; every frame but a close one is followed by a flush.
    pub fn poll(&self, queue: &mut MessageQueue, event: Event) -> (r: Reaction)
        ensures
            match event {
                Event::Cancelled => {
                    &&& r.stop && !r.flush && r.action is Done
                    &&& final(queue)@ == old(queue)@
                },
                Event::Close => {
                    &&& r.stop && !r.flush && r.action is Done
                    &&& is_broadcast(
                        old(queue)@.remove(self.spec_id()),
                        final(queue)@,
                        disconnected_line(
                            match self.spec_user() {
                                Some(u) => u.name@,
                                None => Seq::empty(),
                            },
                            self.spec_id(),
                        ),
                    )
                },
                Event::Text(c) => {
                    &&& !r.stop && r.flush
                    &&& dispatched(
                        self.spec_id(),
                        self.spec_user(),
                        old(queue)@,
                        final(queue)@,
                        c.Type,
                        c.Data@,
                        r.action,
                    )
                },
                _ => {
                    &&& !r.stop && r.flush && r.action is Done
                    &&& final(queue)@ == old(queue)@
                },
            },
    {
        match event {
            Event::Cancelled => Reaction { action: Action::Done, flush: false, stop: true },
            Event::Close => {
                self.close(queue);
                Reaction { action: Action::Done, flush: false, stop: true }
            },
            Event::Text(command) => {
                let action = self.dispatch(queue, &command);
                Reaction { action, flush: true, stop: false }
            },
            _ => Reaction { action: Action::Done, flush: true, stop: false },
        }
    }

    /// Handles one decoded command. What needs no collaborator is done here,
    /// on the mailboxes; what needs one is returned.
    ///
    /// - `AuthenticateSend` without a `name` gets `AuthenticateFail`; with
    ///   one, the user of that name is to be found or created.
    /// - `BroadcastGetRequest` whose `start` and `end` are both instants asks
    ///   for the messages between them.
    /// - `BroadcastRequest` from an authenticated session with a non-empty
    ///   `text` broadcasts `<name>: <text>` and asks to persist the text.
    /// - `Scene2DRequest` asks for the background image.
    /// - Everything else is ignored.
    pub fn dispatch(&self, queue: &mut MessageQueue, command: &Command) -> (r: Action)
        ensures
            dispatched(
                self.spec_id(),
                self.spec_user(),
                old(queue)@,
                final(queue)@,
                command.Type,
                command.Data@,
                r,
            ),
    {
        match command.Type {
            Commands::AuthenticateSend => match lookup(&command.Data, "name") {
                Some(name) => Action::FindOrCreateUser(name.clone()),
                None => {
                    queue.queueCommand(self.id, Commands::AuthenticateFail, None, None);
                    Action::Done
                },
            },
            Commands::BroadcastGetRequest => {
                let start = parseDateTime(lookup(&command.Data, "start"));
                let end = parseDateTime(lookup(&command.Data, "end"));
                match (start, end) {
                    (Some(s), Some(e)) => Action::LoadMessages { start: s, end: e },
                    _ => Action::Done,
                }
            },
            Commands::BroadcastRequest => self.handleBroadcastSend(queue, command),
            Commands::Scene2DRequest => Action::LoadAsset(
                String::from_str("BackgroundPlaceholder.png"),
            ),
            _ => Action::Done,
        }
    }

    fn handleBroadcastSend(&self, queue: &mut MessageQueue, command: &Command) -> (r: Action)
        ensures
            match (chat_text(command.Data@), self.spec_user()) {
                (Some(t), Some(u)) => {
                    &&& is_broadcast(old(queue)@, final(queue)@, chat_line(u.name@, t))
                    &&& r matches Action::StoreMessage(m) && m.text@ == t && m.userId == Some(
                        u.id,
                    ) && m.timestamp >= 0
                },
                _ => {
                    &&& r is Done
                    &&& final(queue)@ == old(queue)@
                },
            },
    {
        if let Some(text) = lookup(&command.Data, "text") {
            if text.as_str().unicode_len() != 0 {
                if let Some(user) = &self.user {
                    let mut line = user.name.clone();
                    line.append(": ");
                    line.append(text.as_str());
                    queue.queueBroadcast(line);
                    let content = NewMessage {
                        text: text.clone(),
                        timestamp: now_seconds(),
                        userId: Some(user.id),
                    };
                    return Action::StoreMessage(content);
                }
            }
        }
        Action::Done
    }
    /// Finishes an authentication once the user of the requested name was
    /// looked up (or created). Without a user, or when no handle is left to
    /// hand out, `AuthenticateFail` goes to the current handle and the
    /// session is unchanged. Otherwise the session takes the handle of the
    /// user's id, `AuthenticateSuccess` goes to that handle, and everyone is
    /// told that the user connected.
    pub fn completeAuthentication(
        &mut self,
        queue: &mut MessageQueue,
        users: &mut UserManager,
        found: Option<User>,
    )
        ensures
            found is None ==> {
                &&& *final(self) == *old(self)
                &&& final(users)@ == old(users)@
                &&& enqueued_one(
                    old(queue)@,
                    final(queue)@,
                    old(self).spec_id(),
                    Commands::AuthenticateFail,
                    Map::empty(),
                    Map::empty(),
                )
            },
            found matches Some(u) ==> final(users)@ == spec_resolve(
                old(users)@,
                decimal_of(u.id as int),
            ).0,
            found matches Some(u) ==> spec_resolve(old(users)@, decimal_of(u.id as int)).1 is None
                ==> {
                &&& *final(self) == *old(self)
                &&& enqueued_one(
                    old(queue)@,
                    final(queue)@,
                    old(self).spec_id(),
                    Commands::AuthenticateFail,
                    Map::empty(),
                    Map::empty(),
                )
            },
            found matches Some(u) ==> (spec_resolve(old(users)@, decimal_of(u.id as int)).1 matches Some(
                h,
            ) ==> {
                &&& final(self).spec_id() == h
                &&& final(self).spec_user() == Some(u)
                &&& exists|mid: Mailboxes|
                    {
                        &&& enqueued_one(
                            old(queue)@,
                            mid,
                            h,
                            Commands::AuthenticateSuccess,
                            success_payload(h, u.name@),
                            Map::empty(),
                        )
                        &&& is_broadcast(mid, final(queue)@, connected_line(u.name@, h))
                    }
            }),
    {
        match found {
            None => {
                queue.queueCommand(self.id, Commands::AuthenticateFail, None, None);
            },
            Some(user) => {
                let key = format_i64(user.id as i64);
                match users.getClientId(&key) {
                    None => {
                        queue.queueCommand(self.id, Commands::AuthenticateFail, None, None);
                    },
                    Some(newId) => {
                        let mut data = Fields::new();
                        data.insert(String::from_str("clientId"), format_i64(newId));
                        data.insert(String::from_str("username"), user.name.clone());
                        queue.queueCommand(newId, Commands::AuthenticateSuccess, Some(data), None);
                        let ghost mid = queue@;
                        let mut line = user.name.clone();
                        line.append(" (");
                        let handle = format_i64(newId);
                        line.append(handle.as_str());
                        line.append(") connected!");
                        queue.queueBroadcast(line);
                        *self = Session { id: newId, user: Some(user) };
                        assert(enqueued_one(
                            old(queue)@,
                            mid,
                            newId,
                            Commands::AuthenticateSuccess,
                            success_payload(newId, self.user->Some_0.name@),
                            Map::empty(),
                        ));
                        assert(self.user->Some_0 == found->Some_0);
                        assert(is_broadcast(mid, queue@, connected_line(found->Some_0.name@, newId)));
                    },
                }
            },
        }
    }

    /// Queues for this session one `BroadcastResponse` per stored message,
    /// in the order given, each carrying the message as it is replayed. No
    /// other handle's mailbox changes.
    pub fn queueExistingMessages(
        &self,
        queue: &mut MessageQueue,
        messages: &Vec<Message>,
        users: &Vec<User>,
    )
        ensures
            final(queue)@.remove(self.spec_id()) == old(queue)@.remove(self.spec_id()),
            messages@.len() == 0 ==> final(queue)@ == old(queue)@,
            messages@.len() > 0 ==> final(queue)@.contains_key(self.spec_id()),
            mailbox(final(queue)@, self.spec_id()).len() == mailbox(
                old(queue)@,
                self.spec_id(),
            ).len() + messages@.len(),
            mailbox(final(queue)@, self.spec_id()).take(
                mailbox(old(queue)@, self.spec_id()).len() as int,
            ) == mailbox(old(queue)@, self.spec_id()),
            forall|i: int|
                0 <= i < messages@.len() ==> command_matches(
                    #[trigger] mailbox(final(queue)@, self.spec_id())[mailbox(
                        old(queue)@,
                        self.spec_id(),
                    ).len() + i],
                    self.spec_id(),
                    Commands::BroadcastResponse,
                    text_payload(history_line(messages@[i], users@)),
                    Map::empty(),
                ),
    {
        let ghost id = self.id;
        let ghost base = mailbox(old(queue)@, id);
        let n = messages.len();
        let mut i: usize = 0;
        while i < n
            invariant
                n == messages@.len(),
                0 <= i <= n,
                id == self.spec_id(),
                base == mailbox(old(queue)@, id),
                queue@.remove(id) == old(queue)@.remove(id),
                i == 0 ==> queue@ == old(queue)@,
                i > 0 ==> queue@.contains_key(id),
                mailbox(queue@, id).len() == base.len() + i,
                mailbox(queue@, id).take(base.len() as int) == base,
                forall|j: int|
                    0 <= j < i ==> command_matches(
                        #[trigger] mailbox(queue@, id)[base.len() + j],
                        id,
                        Commands::BroadcastResponse,
                        text_payload(history_line(messages@[j], users@)),
                        Map::empty(),
                    ),
            decreases n - i,
        {
            let m = &messages[i];
            let line = self.historyLine(m, users);
            let mut data = Fields::new();
            data.insert(String::from_str("text"), line);
            let ghost before = queue@;
            queue.queueCommand(self.id, Commands::BroadcastResponse, Some(data), None);
            proof {
                assert(mailbox(queue@, id) == mailbox(before, id).push(queue@[id].last()));
                assert(queue@.remove(id) =~= before.remove(id));
                assert(mailbox(queue@, id).take(base.len() as int) =~= mailbox(before, id).take(
                    base.len() as int,
                ));
                assert forall|j: int| 0 <= j < i + 1 implies command_matches(
                    #[trigger] mailbox(queue@, id)[base.len() + j],
                    id,
                    Commands::BroadcastResponse,
                    text_payload(history_line(messages@[j], users@)),
                    Map::empty(),
                ) by {
                    if j < i {
                        assert(mailbox(queue@, id)[base.len() + j] == mailbox(before, id)[base.len()
                            + j]);
                    }
                }
            }
            i = i + 1;
        }
    }

    /// How `m` is replayed to a client.
    fn historyLine(&self, m: &Message, users: &Vec<User>) -> (r: String)
        ensures
            r@ == history_line(*m, users@),
    {
        let name = authorName(users, m.userId);
        if name.as_str().unicode_len() == 0 {
            m.text.clone()
        } else {
            let mut line = name;
            line.append(": ");
            line.append(m.text.as_str());
            line
        }
    }

    /// Replies to a scene request once the background image was loaded:
    /// with no image nothing is sent; with one, a `Scene2DResponse` carrying
    /// the scene's size and the image as base64 goes to this session.
    pub fn handleScene2dRequest(&self, queue: &mut MessageQueue, background: Option<Vec<u8>>)
        ensures
            match background {
                None => final(queue)@ == old(queue)@,
                Some(b) => enqueued_one(
                    old(queue)@,
                    final(queue)@,
                    self.spec_id(),
                    Commands::Scene2DResponse,
                    scene_payload(),
                    background_payload(base64_of(b@)),
                ),
            },
    {
        if let Some(bytes) = background {
            let encoded = base64_encode(&bytes);
            self.queueScene2dResponse(queue, encoded);
        }
    }

    /// Queues for this session a `Scene2DResponse` carrying the scene's size
    /// and `background`, the image as base64 text.
    pub fn queueScene2dResponse(&self, queue: &mut MessageQueue, background: String)
        ensures
            enqueued_one(
                old(queue)@,
                final(queue)@,
                self.spec_id(),
                Commands::Scene2DResponse,
                scene_payload(),
                background_payload(background@),
            ),
    {
        let mut data = Fields::new();
        data.insert(String::from_str("height"), String::from_str("600"));
        data.insert(String::from_str("width"), String::from_str("900"));
        let mut binaryData = Fields::new();
        binaryData.insert(String::from_str("background"), background);
        queue.queueCommand(self.id, Commands::Scene2DResponse, Some(data), Some(binaryData));
    }
}

} // verus!
