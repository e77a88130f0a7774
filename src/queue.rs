use std::collections::HashMap;
use vstd::prelude::*;
use vstd::std_specs::hash::{group_hash_axioms, spec_keys_iter};
use vstd::std_specs::iter::IteratorSpec;
use crate::clock::now_seconds;
use crate::command::{command_matches, Command, CommandView};
use crate::fields::Fields;
use crate::opcode::Commands;

verus! {

broadcast use group_hash_axioms;

/// Every mailbox, by session handle.
pub type Mailboxes = Map<i64, Seq<CommandView>>;

/// The commands waiting for `id`; none where it has no mailbox.
pub open spec fn mailbox(m: Mailboxes, id: i64) -> Seq<CommandView> {
    if m.contains_key(id) {
        m[id]
    } else {
        Seq::empty()
    }
}

/// The mailboxes after `c` is appended to the mailbox of its handle, which is
/// made first if missing.
pub open spec fn spec_enqueue(m: Mailboxes, c: CommandView) -> Mailboxes {
    m.insert(c.id, mailbox(m, c.id).push(c))
}

/// What draining `id` hands out, and the mailboxes after it.
pub open spec fn spec_drain(m: Mailboxes, id: i64) -> (Seq<CommandView>, Mailboxes) {
    if m.contains_key(id) {
        (m[id], m.insert(id, Seq::empty()))
    } else {
        (Seq::empty(), m)
    }
}

/// The mailboxes after `id` is registered: an empty mailbox is made if
/// there is none.
pub open spec fn spec_register(m: Mailboxes, id: i64) -> Mailboxes {
    if m.contains_key(id) {
        m
    } else {
        m.insert(id, Seq::empty())
    }
}

/// The mailboxes after each command of `cs` is enqueued, in order.
pub open spec fn enqueue_all(m: Mailboxes, cs: Seq<CommandView>) -> Mailboxes
    decreases cs.len(),
{
    if cs.len() == 0 {
        m
    } else {
        spec_enqueue(enqueue_all(m, cs.drop_last()), cs.last())
    }
}

/// The text payload of a broadcast.
pub open spec fn text_payload(text: Seq<char>) -> Map<Seq<char>, Seq<char>> {
    Map::empty().insert("text"@, text)
}

/// Whether `new` is `old` after one `BroadcastResponse` carrying `text` was
/// appended to every mailbox, and nothing else changed.
pub open spec fn is_broadcast(old: Mailboxes, new: Mailboxes, text: Seq<char>) -> bool {
    &&& new.dom() == old.dom()
    &&& forall|id: i64| #[trigger]
        old.contains_key(id) ==> {
            &&& new[id].len() == old[id].len() + 1
            &&& new[id].drop_last() == old[id]
            &&& command_matches(
                new[id].last(),
                id,
                Commands::BroadcastResponse,
                text_payload(text),
                Map::empty(),
            )
        }
}

/// Per-handle outbound queues of commands.
///
/// Each registered handle has exactly one mailbox; commands leave a mailbox
/// in the order in which they entered it, and only by being drained.
pub struct MessageQueue {
    queue: HashMap<i64, Vec<Command>>,
}

impl View for MessageQueue {
    type V = Mailboxes;

    closed spec fn view(&self) -> Mailboxes {
        self.queue@.map_values(|v: Vec<Command>| v@.map_values(|c: Command| c@))
    }
}

impl MessageQueue {
    /// A registry with no mailbox.
    pub fn new() -> (r: MessageQueue)
        ensures
            r@ == Mailboxes::empty(),
    {
        let r = MessageQueue { queue: HashMap::new() };
        assert(r@ =~= Mailboxes::empty());
        r
    }

    /// Whether no handle has a mailbox.
    pub fn isEmpty(&self) -> (r: bool)
        ensures
            r == self@.dom().is_empty(),
    {
        let r = self.queue.is_empty();
        proof {
            assert(self@.dom() =~= self.queue@.dom());
        }
        r
    }

    /// Takes out the mailbox of `id` and its commands, or an empty list.
    fn take_mailbox(&mut self, id: i64) -> (r: Vec<Command>)
        ensures
            r@.map_values(|c: Command| c@) == mailbox(old(self)@, id),
            final(self)@ == old(self)@.remove(id),
    {
        let r = match self.queue.remove(&id) {
            Some(list) => list,
            None => Vec::new(),
        };
        proof {
            assert(final(self)@ =~= old(self)@.remove(id));
            assert(r@.map_values(|c: Command| c@) =~= mailbox(old(self)@, id));
        }
        r
    }

    /// Puts `list` in as the mailbox of `id`.
    fn put_mailbox(&mut self, id: i64, list: Vec<Command>)
        ensures
            final(self)@ == old(self)@.insert(id, list@.map_values(|c: Command| c@)),
    {
        self.queue.insert(id, list);
        proof {
            assert(final(self)@ =~= old(self)@.insert(id, list@.map_values(|c: Command| c@)));
        }
    }

    /// Appends `command` to the mailbox of its `Id`, making the mailbox if
    /// there is none yet.
    pub fn queueMessage(&mut self, command: Command)
        ensures
            final(self)@ == spec_enqueue(old(self)@, command@),
    {
        let id = command.Id;
        let ghost c = command@;
        let mut list = self.take_mailbox(id);
        list.push(command);
        self.put_mailbox(id, list);
        proof {
            assert(list@.map_values(|c: Command| c@) =~= mailbox(old(self)@, id).push(c));
            assert(final(self)@ =~= spec_enqueue(old(self)@, c));
        }
    }

    /// Appends to the mailbox of `id` a command with opcode `command` and the
    /// given payloads (empty where absent), stamped with the current time.
    pub fn queueCommand(
        &mut self,
        id: i64,
        command: Commands,
        data: Option<Fields>,
        binaryData: Option<Fields>,
    )
        ensures
            final(self)@ == spec_enqueue(old(self)@, final(self)@[id].last()),
            command_matches(
                final(self)@[id].last(),
                id,
                command,
                match data {
                    Some(d) => d@,
                    None => Map::empty(),
                },
                match binaryData {
                    Some(b) => b@,
                    None => Map::empty(),
                },
            ),
    {
        let binaryMap = match binaryData {
            Some(map) => map,
            None => Fields::new(),
        };
        let dataMap = match data {
            Some(map) => map,
            None => Fields::new(),
        };
        let c = Command::new(id, command, now_seconds(), dataMap, binaryMap);
        let ghost cv = c@;
        self.queueMessage(c);
        assert(final(self)@[id] == mailbox(old(self)@, id).push(cv));
    }

    /// Takes every command waiting for `id`, in the order in which they were
    /// enqueued, and leaves its mailbox empty. A handle without a mailbox
    /// gets an empty list and no mailbox is made for it.
    pub fn readMessages(&mut self, id: i64) -> (r: Vec<Command>)
        ensures
            r@.map_values(|c: Command| c@) == spec_drain(old(self)@, id).0,
            final(self)@ == spec_drain(old(self)@, id).1,
    {
        if self.queue.contains_key(&id) {
            let list = self.take_mailbox(id);
            let empty: Vec<Command> = Vec::new();
            assert(empty@.map_values(|c: Command| c@) =~= Seq::<CommandView>::empty());
            self.put_mailbox(id, empty);
            assert(final(self)@ =~= old(self)@.insert(id, Seq::empty()));
            list
        } else {
            let list = Vec::new();
            assert(list@.map_values(|c: Command| c@) =~= Seq::<CommandView>::empty());
            list
        }
    }

    /// Makes sure that `id` has a mailbox; what it holds is kept.
    pub fn registerId(&mut self, id: i64)
        ensures
            final(self)@ == spec_register(old(self)@, id),
    {
        if !self.queue.contains_key(&id) {
            let empty: Vec<Command> = Vec::new();
            assert(empty@.map_values(|c: Command| c@) =~= Seq::<CommandView>::empty());
            self.put_mailbox(id, empty);
        }
    }

    /// Deletes the mailbox of `id`, returning what was still in it.
    pub fn removeId(&mut self, id: i64) -> (r: Vec<Command>)
        ensures
            r@.map_values(|c: Command| c@) == mailbox(old(self)@, id),
            final(self)@ == old(self)@.remove(id),
    {
        self.take_mailbox(id)
    }
    /// The handles that have a mailbox, each once.
    fn handles(&self) -> (r: Vec<i64>)
        ensures
            r@.to_set() == self@.dom(),
            r@.no_duplicates(),
    {
        let mut keys: Vec<i64> = Vec::new();
        for k in it: self.queue.keys()
            invariant
                keys@ == it.seq().unref().take(it.index()),
        {
            keys.push(*k);
            proof {
                assert(keys@ =~= it.seq().unref().take(it.index() + 1));
            }
        }
        proof {
            assert(keys@ =~= spec_keys_iter(&self.queue).remaining().unref());
            assert(self@.dom() =~= self.queue@.dom());
        }
        keys
    }
    /// Appends a `BroadcastResponse` carrying `message` as `text` to every
    /// mailbox that exists at the time of the call.
    pub fn queueBroadcast(&mut self, message: String)
        ensures
            is_broadcast(old(self)@, final(self)@, message@),
    {
        let ghost text = message@;
        let ghost start = self@;
        let keys = self.handles();
        let mut data = Fields::new();
        data.insert(String::from_str("text"), message);
        let n = keys.len();
        let mut i: usize = 0;
        while i < n
            invariant
                n == keys@.len(),
                0 <= i <= n,
                keys@.to_set() == start.dom(),
                keys@.no_duplicates(),
                data@ == text_payload(text),
                start == old(self)@,
                self@.dom() == start.dom(),
                forall|j: int|
                    0 <= j < i ==> {
                        let id = #[trigger] keys@[j];
                        &&& self@[id].len() == start[id].len() + 1
                        &&& self@[id].drop_last() == start[id]
                        &&& command_matches(
                            self@[id].last(),
                            id,
                            Commands::BroadcastResponse,
                            text_payload(text),
                            Map::empty(),
                        )
                    },
                forall|j: int| i <= j < n ==> self@[#[trigger] keys@[j]] == start[keys@[j]],
            decreases n - i,
        {
            let id = keys[i];
            proof {
                assert(keys@.to_set().contains(id));
            }
            let ghost before = self@;
            self.queueCommand(id, Commands::BroadcastResponse, Some(data.clone()), None);
            proof {
                assert forall|j: int| 0 <= j < n && j != i implies #[trigger] keys@[j] != id by {}
                assert(self@[id].drop_last() =~= before[id]);
            }
            i = i + 1;
        }
        proof {
            assert forall|id: i64| #[trigger] start.contains_key(id) implies {
                &&& self@[id].len() == start[id].len() + 1
                &&& self@[id].drop_last() == start[id]
                &&& command_matches(
                    self@[id].last(),
                    id,
                    Commands::BroadcastResponse,
                    text_payload(text),
                    Map::empty(),
                )
            } by {
                assert(keys@.to_set().contains(id));
                assert(keys@.contains(id));
                let j = choose|j: int| 0 <= j < n && keys@[j] == id;
                assert(keys@[j] == id);
            }
        }
    }
}

impl Default for MessageQueue {
    fn default() -> (r: MessageQueue)
        ensures
            r@ == Mailboxes::empty(),
    {
        MessageQueue::new()
    }
}

proof fn lemma_enqueue_all_mailbox(m: Mailboxes, id: i64, cs: Seq<CommandView>)
    requires
        forall|i: int| 0 <= i < cs.len() ==> (#[trigger] cs[i]).id == id,
    ensures
        mailbox(enqueue_all(m, cs), id) == mailbox(m, id) + cs,
    decreases cs.len(),
{
    if cs.len() == 0 {
        assert(mailbox(m, id) + cs =~= mailbox(m, id));
    } else {
        let init = cs.drop_last();
        assert forall|i: int| 0 <= i < init.len() implies (#[trigger] init[i]).id == id by {
            assert(init[i] == cs[i]);
        }
        lemma_enqueue_all_mailbox(m, id, init);
        assert(cs.last().id == id);
        assert(mailbox(m, id) + cs =~= (mailbox(m, id) + init).push(cs.last()));
    }
}

/// Commands leave a mailbox in the order in which they entered it: after
/// any run of enqueues for `id`, its mailbox holds what it held before
/// followed by the new commands in order, and a drain taken right after an
/// earlier drain and those enqueues hands out exactly those commands.
pub proof fn lemma_fifo(m: Mailboxes, id: i64, cs: Seq<CommandView>)
    requires
        forall|i: int| 0 <= i < cs.len() ==> (#[trigger] cs[i]).id == id,
    ensures
        mailbox(enqueue_all(m, cs), id) == mailbox(m, id) + cs,
        spec_drain(enqueue_all(spec_drain(m, id).1, cs), id).0 == cs,
{
    lemma_enqueue_all_mailbox(m, id, cs);
    let d = spec_drain(m, id).1;
    lemma_enqueue_all_mailbox(d, id, cs);
    assert(mailbox(d, id) =~= Seq::<CommandView>::empty());
    assert(mailbox(d, id) + cs =~= cs);
}

/// Draining a mailbox twice in a row hands out nothing the second time.
pub proof fn lemma_drain_twice(m: Mailboxes, id: i64)
    ensures
        spec_drain(spec_drain(m, id).1, id).0 == Seq::<CommandView>::empty(),
{
}

/// A broadcast reaches each handle registered at the time of the call with
/// exactly one `BroadcastResponse` carrying its text, behind what was
/// already waiting; a handle registered afterwards gets nothing from it.
pub proof fn lemma_broadcast(old: Mailboxes, new: Mailboxes, text: Seq<char>, late: i64)
    requires
        is_broadcast(old, new, text),
    ensures
        forall|id: i64| #[trigger]
            old.contains_key(id) ==> {
                let got = spec_drain(new, id).0;
                &&& got.len() == mailbox(old, id).len() + 1
                &&& got == mailbox(old, id).push(got.last())
                &&& command_matches(
                    got.last(),
                    id,
                    Commands::BroadcastResponse,
                    text_payload(text),
                    Map::empty(),
                )
            },
        !old.contains_key(late) ==> spec_drain(spec_register(new, late), late).0
            == Seq::<CommandView>::empty(),
{
    assert forall|id: i64| #[trigger] old.contains_key(id) implies {
        let got = spec_drain(new, id).0;
        &&& got.len() == mailbox(old, id).len() + 1
        &&& got == mailbox(old, id).push(got.last())
        &&& command_matches(
            got.last(),
            id,
            Commands::BroadcastResponse,
            text_payload(text),
            Map::empty(),
        )
    } by {
        assert(new.contains_key(id));
        assert(new[id] =~= new[id].drop_last().push(new[id].last()));
    }
}

} // verus!
