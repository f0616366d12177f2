//! The router: a registry of topics, each with a broadcast channel, and the
//! decisions of the distribution loop.

use crate::message::{Message, MessageData, Topic};
use tokio::sync::broadcast::{Receiver, Sender};
use vstd::prelude::*;

verus! {

/// The backlog capacity of a topic registered without one.
pub const DEFAULT_BUFFER: usize = 1;

/// The topic of envelopes that name none.
pub const DEFAULT_TOPIC: &'static str = "default-topic-queue";

/// The largest backlog capacity a topic can have.
pub const MAX_BUFFER: usize = usize::MAX / 2;

/// Errors surfaced to callers of the router.
#[derive(Debug, Clone, PartialEq, Eq)]
pub enum Error {
    /// No topic of this name is registered.
    UnknownTopic(String),
}

/// What distributing one envelope came to.
#[derive(Debug, Clone, PartialEq, Eq)]
pub enum Outcome<E> {
    /// The envelope was a stop signal: distribution ends here.
    Stop,
    /// No topic of this name is registered; the envelope was dropped.
    Unrouted(String),
    /// The envelope was queued on the topic's channel for this many receivers.
    Delivered(String, usize),
    /// The topic's channel had no receiver, so the envelope, handed back
    /// here, reached no one.
    NoReceivers(String, Message<E>),
}

impl<E> Outcome<E> {
    /// Whether distribution ends with this outcome.
    pub fn is_stop(&self) -> (r: bool)
        ensures
            r == (*self is Stop),
    {
        matches!(self, Outcome::Stop)
    }
}

/// The name a topic option stands for: the default topic when absent.
pub open spec fn destination(topic: Option<String>) -> Seq<char> {
    match topic {
        Some(t) => t@,
        None => DEFAULT_TOPIC@,
    }
}

/// A capacity that a broadcast channel can be opened with.
pub open spec fn valid_capacity(capacity: usize) -> bool {
    0 < capacity <= MAX_BUFFER
}

/// The registry that registering `list` in order yields: a later entry of a
/// name replaces an earlier one.
pub open spec fn registry_of(list: Seq<(String, usize)>) -> Map<Seq<char>, nat>
    decreases list.len(),
{
    if list.len() == 0 {
        Map::empty()
    } else {
        registry_of(list.drop_last()).insert(list.last().0@, list.last().1 as nat)
    }
}

#[verifier::reject_recursive_types(E)]
struct TopicEntry<E> {
    name: String,
    capacity: usize,
    sender: Sender<Message<E>>,
}

/// Relies on tokio::sync::broadcast::channel, which panics on a capacity of
/// zero or above `usize::MAX >> 1`: a topic called `name` with a fresh
/// channel of `capacity`, the capacity it records. Only the sending half is
/// kept: receivers are made from it on demand.
#[verifier::external_body]
fn open_topic<E: Clone>(name: String, capacity: usize) -> (r: TopicEntry<E>)
    requires
        valid_capacity(capacity),
    ensures
        r.name == name,
        r.capacity == capacity,
{
    TopicEntry { name, capacity, sender: tokio::sync::broadcast::channel(capacity).0 }
}

/// `entries` holds exactly the topics of `registry`, each once, with its
/// capacity.
spec fn indexes<E>(entries: Seq<TopicEntry<E>>, registry: Map<Seq<char>, nat>) -> bool {
    &&& forall|i: int, j: int|
        0 <= i < j < entries.len() ==> entries[i].name@ != entries[j].name@
    &&& forall|i: int|
        0 <= i < entries.len() ==> {
            &&& #[trigger] registry.contains_key(entries[i].name@)
            &&& registry[entries[i].name@] == entries[i].capacity as nat
            &&& valid_capacity(entries[i].capacity)
        }
    &&& forall|k: Seq<char>|
        #[trigger] registry.contains_key(k) ==> exists|i: int|
            0 <= i < entries.len() && entries[i].name@ == k
}

/// A message bus that fans envelopes out to the subscribers of topics.
#[verifier::reject_recursive_types(E)]
pub struct Router<E> {
    entries: Vec<TopicEntry<E>>,
    registry: Ghost<Map<Seq<char>, nat>>,
    sent: Ghost<Seq<(Seq<char>, Message<E>)>>,
}

/// What distributing `m` does to a router: a stop signal changes nothing and
/// ends distribution; an envelope for an unregistered topic is dropped; any
/// other is broadcast, in full, on its topic's channel.
pub open spec fn distributes<E>(pre: Router<E>, m: Message<E>, post: Router<E>, out: Outcome<E>) -> bool {
    let dest = destination(m.topic);
    &&& post.wf()
    &&& post.topics() == pre.topics()
    &&& if m.data is StopSignal {
        &&& out is Stop
        &&& post.sent() == pre.sent()
    } else if !pre.topics().contains_key(dest) {
        &&& out matches Outcome::Unrouted(t) && t@ == dest
        &&& post.sent() == pre.sent()
    } else {
        &&& post.sent() == pre.sent().push((dest, m))
        &&& (out matches Outcome::Delivered(t, n) && t@ == dest && n > 0)
            || (out matches Outcome::NoReceivers(t, v) && t@ == dest && v == m)
    }
}

impl<E> Router<E> {
    /// The registered topics, each with the capacity it was registered with.
    pub closed spec fn topics(&self) -> Map<Seq<char>, nat> {
        self.registry@
    }

    /// Every envelope handed to a topic's channel so far, in order, with the
    /// topic it went to. Only `send_on`, which makes the send, extends it.
    pub closed spec fn sent(&self) -> Seq<(Seq<char>, Message<E>)> {
        self.sent@
    }

    /// Topic names are unique, each has a channel of a valid capacity, and no
    /// stop signal was ever broadcast.
    pub closed spec fn wf(&self) -> bool {
        &&& indexes(self.entries@, self.registry@)
        &&& forall|i: int|
            0 <= i < self.sent@.len() ==> !((#[trigger] self.sent@[i]).1.data is StopSignal)
    }

    /// The position of the topic called `name`, if it is registered.
    fn find(&self, name: &String) -> (r: Option<usize>)
        requires
            self.wf(),
        ensures
            r matches Some(i) ==> i < self.entries@.len() && self.entries@[i as int].name@ == name@,
            r is None <==> !self.topics().contains_key(name@),
    {
        let mut i: usize = 0;
        while i < self.entries.len()
            invariant
                self.wf(),
                i <= self.entries@.len(),
                forall|j: int| 0 <= j < i ==> self.entries@[j].name@ != name@,
            decreases self.entries@.len() - i,
        {
            if self.entries[i].name.eq(name) {
                return Some(i);
            }
            i = i + 1;
        }
        None
    }
}

impl<E: Clone> Router<E> {
    /// A router with the default topic alone, of the default capacity.
    pub fn new() -> (r: Self)
        ensures
            r.wf(),
            r.topics() == map![DEFAULT_TOPIC@ => DEFAULT_BUFFER as nat],
            r.sent() == Seq::<(Seq<char>, Message<E>)>::empty(),
    {
        let mut r = Router { entries: Vec::new(), registry: Ghost(Map::empty()), sent: Ghost(Seq::empty()) };
        r.add_topic(DEFAULT_TOPIC.to_owned(), None);
        proof {
            assert(r.topics() =~= map![DEFAULT_TOPIC@ => DEFAULT_BUFFER as nat]);
        }
        r
    }

    /// A router with exactly the given topics, each with its capacity; a
    /// name given twice keeps its later capacity. No default topic is added.
    pub fn new_with_topics(topics: &[(Topic, usize)]) -> (r: Self)
        requires
            forall|i: int| 0 <= i < topics@.len() ==> valid_capacity(#[trigger] topics@[i].1),
        ensures
            r.wf(),
            r.topics() == registry_of(topics@),
            r.sent() == Seq::<(Seq<char>, Message<E>)>::empty(),
    {
        let mut r = Router { entries: Vec::new(), registry: Ghost(Map::empty()), sent: Ghost(Seq::empty()) };
        let mut i: usize = 0;
        while i < topics.len()
            invariant
                i <= topics@.len(),
                forall|j: int| 0 <= j < topics@.len() ==> valid_capacity(#[trigger] topics@[j].1),
                r.wf(),
                r.topics() == registry_of(topics@.take(i as int)),
                r.sent() == Seq::<(Seq<char>, Message<E>)>::empty(),
            decreases topics@.len() - i,
        {
            r.add_topic(topics[i].0.clone(), Some(topics[i].1));
            proof {
                assert(topics@.take(i + 1).drop_last() =~= topics@.take(i as int));
            }
            i = i + 1;
        }
        proof {
            assert(topics@.take(i as int) =~= topics@);
        }
        r
    }

    /// Registers `topic` with a fresh channel of capacity `buffer`, or of the
    /// default capacity when absent. A topic already registered gets the new
    /// channel; receivers of the old one no longer get envelopes.
    pub fn add_topic(&mut self, topic: Topic, buffer: Option<usize>)
        requires
            old(self).wf(),
            buffer matches Some(b) ==> valid_capacity(b),
        ensures
            final(self).wf(),
            final(self).topics() == old(self).topics().insert(
                topic@,
                (match buffer { Some(b) => b, None => DEFAULT_BUFFER }) as nat,
            ),
            final(self).sent() == old(self).sent(),
    {
        let capacity = match buffer {
            Some(b) => b,
            None => DEFAULT_BUFFER,
        };
        let ghost name = topic@;
        let ghost pre = self.entries@;
        let ghost reg = self.registry@;
        let ghost mut pos: int = 0;
        let found = self.find(&topic);
        let entry = open_topic(topic, capacity);
        match found {
            Some(i) => {
                self.entries.set(i, entry);
                proof {
                    pos = i as int;
                    assert(forall|x: int| 0 <= x < pre.len() ==> #[trigger] self.entries@[x].name@ == pre[x].name@);
                }
            },
            None => {
                self.entries.push(entry);
                proof {
                    pos = pre.len() as int;
                    assert(forall|x: int| 0 <= x < pre.len() ==> #[trigger] self.entries@[x].name@ == pre[x].name@);
                    assert(forall|x: int| 0 <= x < pre.len() ==> (#[trigger] pre[x]).name@ != name);
                }
            },
        }
        self.registry = Ghost(reg.insert(name, capacity as nat));
        proof {
            assert(self.entries@[pos].name@ == name && self.entries@[pos].capacity == capacity);
            assert(forall|x: int| 0 <= x < pre.len() && x != pos ==> (#[trigger] pre[x]).name@ != name);
            assert(forall|x: int| 0 <= x < self.entries@.len() && x != pos ==> #[trigger] self.entries@[x] == pre[x]);
            assert forall|x: int, y: int| 0 <= x < y < self.entries@.len()
                implies self.entries@[x].name@ != self.entries@[y].name@ by {
                if x != pos && y != pos {
                    assert(self.entries@[x] == pre[x] && self.entries@[y] == pre[y]);
                }
            }
            assert forall|x: int| 0 <= x < self.entries@.len() implies {
                &&& #[trigger] self.registry@.contains_key(self.entries@[x].name@)
                &&& self.registry@[self.entries@[x].name@] == self.entries@[x].capacity as nat
                &&& valid_capacity(self.entries@[x].capacity)
            } by {
                if x != pos {
                    assert(self.entries@[x] == pre[x]);
                    assert(reg.contains_key(pre[x].name@));
                }
            }
            assert forall|k: Seq<char>| #[trigger] self.registry@.contains_key(k)
                implies exists|j: int| 0 <= j < self.entries@.len() && self.entries@[j].name@ == k by {
                if k != name {
                    let j = choose|j: int| 0 <= j < pre.len() && pre[j].name@ == k;
                    assert(self.entries@[j].name@ == k);
                } else {
                    assert(self.entries@[pos].name@ == k);
                }
            }
        }
    }
}

/// The name of the topic that `topic` stands for.
fn resolve(topic: &Option<Topic>) -> (r: String)
    ensures
        r@ == destination(*topic),
{
    match topic {
        Some(t) => t.clone(),
        None => DEFAULT_TOPIC.to_owned(),
    }
}

impl<E: Clone> Router<E> {
    /// A new receiver of the channel of `topic` (the default topic when
    /// absent): it gets every envelope broadcast there after this call.
    /// Fails when no such topic is registered.
    pub fn subscribe(&self, topic: Option<Topic>) -> (r: Result<Receiver<Message<E>>, Error>)
        requires
            self.wf(),
        ensures
            r is Ok <==> self.topics().contains_key(destination(topic)),
            r matches Err(Error::UnknownTopic(t)) ==> t@ == destination(topic),
    {
        let name = resolve(&topic);
        match self.find(&name) {
            Some(i) => Ok(self.entries[i].sender.subscribe()),
            None => Err(Error::UnknownTopic(name)),
        }
    }

    /// Relies on tokio::sync::broadcast::Sender::send, which never blocks:
    /// `message` is queued on the channel of the topic at `i` and logged as
    /// sent there. tokio returns how many receivers it was queued for, at
    /// least one, or, when the channel has none, the value itself.
    #[verifier::external_body]
    fn send_on(&mut self, i: usize, message: Message<E>) -> (r: Result<usize, Message<E>>)
        requires
            i < old(self).entries@.len(),
        ensures
            final(self).entries@ == old(self).entries@,
            final(self).registry@ == old(self).registry@,
            final(self).sent@ == old(self).sent@.push((old(self).entries@[i as int].name@, message)),
            r matches Ok(n) ==> n > 0,
            r matches Err(v) ==> v == message,
    {
        match self.entries[i].sender.send(message) {
            Ok(n) => Ok(n),
            Err(e) => Err(e.0),
        }
    }

    /// Broadcasts `message` on the channel of its topic, or drops it when the
    /// topic is not registered. A channel without receivers is no failure of
    /// the router: the outcome reports it.
    fn fan_out_message(&mut self, message: Message<E>) -> (r: Outcome<E>)
        requires
            old(self).wf(),
            !(message.data is StopSignal),
        ensures
            distributes(*old(self), message, *final(self), r),
    {
        let topic = resolve(&message.topic);
        match self.find(&topic) {
            None => Outcome::Unrouted(topic),
            Some(i) => {
                let ghost before = self.sent@;
                let sent = self.send_on(i, message);
                proof {
                    assert forall|j: int| 0 <= j < self.sent@.len()
                        implies !((#[trigger] self.sent@[j]).1.data is StopSignal) by {
                        if j < before.len() {
                            assert(self.sent@[j] == before[j]);
                        }
                    }
                }
                match sent {
                    Ok(n) => Outcome::Delivered(topic, n),
                    Err(back) => Outcome::NoReceivers(topic, back),
                }
            },
        }
    }

    /// Handles one envelope taken from the ingress queue: a stop signal is
    /// consumed and ends distribution; any other envelope is fanned out.
    pub fn dispatch(&mut self, message: Message<E>) -> (r: Outcome<E>)
        requires
            old(self).wf(),
        ensures
            distributes(*old(self), message, *final(self), r),
    {
        if matches!(message.data, MessageData::StopSignal) {
            return Outcome::Stop;
        }
        self.fan_out_message(message)
    }
}

impl<E: Clone> Default for Router<E> {
    fn default() -> (r: Self)
        ensures
            r.wf(),
            r.topics() == map![DEFAULT_TOPIC@ => DEFAULT_BUFFER as nat],
            r.sent() == Seq::<(Seq<char>, Message<E>)>::empty(),
    {
        Self::new()
    }
}

/// An envelope that names no topic goes to the default topic, and to no
/// other: whatever distributing it adds to the broadcast log is addressed to
/// the default topic.
pub proof fn absent_topic_goes_to_default<E>(pre: Router<E>, m: Message<E>, post: Router<E>, out: Outcome<E>)
    requires
        distributes(pre, m, post, out),
        m.topic is None,
    ensures
        post.sent().len() <= pre.sent().len() + 1,
        post.sent().take(pre.sent().len() as int) == pre.sent(),
        forall|i: int| pre.sent().len() <= i < post.sent().len() ==> (#[trigger] post.sent()[i]).0 == DEFAULT_TOPIC@,
{
    assert(post.sent().take(pre.sent().len() as int) =~= pre.sent());
}

/// A stop signal ends distribution and reaches no subscriber: nothing is
/// broadcast for it, and the registry is left as it was.
pub proof fn stop_signal_ends_distribution<E>(pre: Router<E>, m: Message<E>, post: Router<E>, out: Outcome<E>)
    requires
        distributes(pre, m, post, out),
        m.data is StopSignal,
    ensures
        out is Stop,
        post.sent() == pre.sent(),
        post.topics() == pre.topics(),
{
}

/// No stop signal is ever among the envelopes a router has broadcast.
pub proof fn stop_signal_never_broadcast<E>(r: Router<E>)
    requires
        r.wf(),
    ensures
        forall|i: int| 0 <= i < r.sent().len() ==> !((#[trigger] r.sent()[i]).1.data is StopSignal),
{
}

/// An envelope other than a stop signal, sent to a registered topic, is
/// broadcast on that topic's channel whole: id, timestamp, topic and payload.
pub proof fn envelope_round_trip<E>(pre: Router<E>, m: Message<E>, post: Router<E>, out: Outcome<E>)
    requires
        distributes(pre, m, post, out),
        !(m.data is StopSignal),
        pre.topics().contains_key(destination(m.topic)),
    ensures
        post.sent().len() == pre.sent().len() + 1,
        post.sent().last() == (destination(m.topic), m),
        post.sent().last().1.id == m.id,
        post.sent().last().1.timestamp == m.timestamp,
        post.sent().last().1.topic == m.topic,
        post.sent().last().1.data == m.data,
{
}

/// Broadcasting to a topic whose channel has no receiver is no failure:
/// distribution goes on, the envelope is logged as handed to the channel and
/// comes back whole in the outcome, and the registry is unchanged.
pub proof fn no_receivers_is_not_a_failure<E>(pre: Router<E>, m: Message<E>, post: Router<E>, out: Outcome<E>)
    requires
        distributes(pre, m, post, out),
        out is NoReceivers,
    ensures
        !(out is Stop),
        out matches Outcome::NoReceivers(t, v) && t@ == destination(m.topic) && v == m,
        post.wf(),
        post.topics() == pre.topics(),
        post.sent() == pre.sent().push((destination(m.topic), m)),
{
}

/// A router built from a list of topics can be subscribed to on exactly the
/// names in that list: each listed name is registered, and no other.
pub proof fn listed_topics_are_registered(list: Seq<(String, usize)>, name: Seq<char>)
    ensures
        registry_of(list).contains_key(name) <==> exists|i: int| 0 <= i < list.len() && #[trigger] list[i].0@ == name,
    decreases list.len(),
{
    if list.len() > 0 {
        let rest = list.drop_last();
        listed_topics_are_registered(rest, name);
        if registry_of(list).contains_key(name) && list.last().0@ != name {
            let i = choose|i: int| 0 <= i < rest.len() && #[trigger] rest[i].0@ == name;
            assert(list[i].0@ == name);
        }
        if exists|i: int| 0 <= i < list.len() && #[trigger] list[i].0@ == name {
            let i = choose|i: int| 0 <= i < list.len() && #[trigger] list[i].0@ == name;
            if i < rest.len() {
                assert(rest[i].0@ == name);
            }
        }
    }
}

} // verus!
