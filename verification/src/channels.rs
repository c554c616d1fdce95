//! A registry of named guest↔host message channels, used by cooperating
//! plugins for steady-state messaging: each channel has an optional name and
//! a queue of messages bound for the guest. Messages travelling the other
//! way are handed back to the caller, who delivers them to the channel's
//! callback outside this crate.
//!
//! The per-channel queue is `crossbeam_queue::SegQueue`, kept behind trusted
//! wrappers whose contracts state what the queue's own documentation does:
//! it is a first-in first-out queue.

use vstd::prelude::*;
use crossbeam_queue::SegQueue;

verus! {

/// Identifier of a channel: its index in the registry, in creation order.
pub type ChannelId = u32;

/// What a [`SegQueue`] holds, front first.
pub uninterp spec fn queue_contents(q: SegQueue<Vec<u8>>) -> Seq<Seq<u8>>;

#[verifier::external_type_specification]
#[verifier::external_body]
#[verifier::reject_recursive_types(T)]
pub struct ExSegQueue<T>(SegQueue<T>);

/// Relies on `crossbeam_queue::SegQueue::new`: a new queue is empty.
#[verifier::external_body]
fn queue_new() -> (q: SegQueue<Vec<u8>>)
    ensures
        queue_contents(q) == Seq::<Seq<u8>>::empty(),
{
    SegQueue::new()
}

/// Relies on `crossbeam_queue::SegQueue::push`: pushes back an element to
/// the tail of the queue.
#[verifier::external_body]
fn queue_push(q: &mut SegQueue<Vec<u8>>, msg: Vec<u8>)
    ensures
        queue_contents(*final(q)) == queue_contents(*old(q)).push(msg@),
{
    q.push(msg);
}

/// Relies on `crossbeam_queue::SegQueue::pop`: pops the head element from
/// the queue, or returns `None` if the queue is empty.
#[verifier::external_body]
fn queue_pop(q: &mut SegQueue<Vec<u8>>) -> (r: Option<Vec<u8>>)
    ensures
        match r {
            None => queue_contents(*old(q)).len() == 0 && queue_contents(*final(q))
                == queue_contents(*old(q)),
            Some(m) => queue_contents(*old(q)).len() > 0 && m@ == queue_contents(*old(q))[0]
                && queue_contents(*final(q)) == queue_contents(*old(q)).drop_first(),
        },
{
    q.pop()
}

/// One registered channel: its optional name and the queue of messages
/// waiting to be polled from the guest side.
pub struct Channel {
    name: Option<String>,
    message_queue: SegQueue<Vec<u8>>,
}

/// Spec-level image of a [`Channel`].
#[verifier::ext_equal]
pub ghost struct ChannelView {
    /// The channel's name, if it was given one.
    pub name: Option<Seq<char>>,
    /// Messages bound for the guest, front first.
    pub messages: Seq<Seq<u8>>,
}

impl View for Channel {
    type V = ChannelView;

    closed spec fn view(&self) -> ChannelView {
        ChannelView {
            name: match self.name {
                Some(ref n) => Some(n@),
                None => None,
            },
            messages: queue_contents(self.message_queue),
        }
    }
}

/// The registry of channels. A channel's identifier is its index; channels
/// are never removed, so identifiers stay dense and stable.
pub struct ChannelRegistry {
    channels: Vec<Channel>,
}

impl View for ChannelRegistry {
    type V = Seq<ChannelView>;

    closed spec fn view(&self) -> Seq<ChannelView> {
        self.channels@.map_values(|c: Channel| c@)
    }
}

impl ChannelRegistry {
    /// Identifiers are `u32`s, so the registry never outgrows that space.
    pub open spec fn wf(&self) -> bool {
        self@.len() <= u32::MAX
    }

    /// An empty registry.
    pub fn new() -> (r: ChannelRegistry)
        ensures
            r@ == Seq::<ChannelView>::empty(),
            r.wf(),
    {
        let r = ChannelRegistry { channels: Vec::new() };
        proof {
            assert(r@ =~= Seq::<ChannelView>::empty());
        }
        r
    }

    /// Register a new channel under `p_name` and hand back its identifier,
    /// the next free one. The caller keeps the channel's receive callback on
    /// its own side, keyed by the identifier.
    pub fn add_channel(&mut self, p_name: Option<String>) -> (r: ChannelId)
        requires
            old(self)@.len() < u32::MAX,
        ensures
            final(self).wf(),
            r == old(self)@.len(),
            final(self)@ == old(self)@.push(
                ChannelView {
                    name: match p_name {
                        Some(n) => Some(n@),
                        None => None,
                    },
                    messages: Seq::empty(),
                },
            ),
    {
        let channel_id = self.channels.len();
        let channel = Channel { name: p_name, message_queue: queue_new() };
        self.channels.push(channel);
        proof {
            assert(self@ =~= old(self)@.push(self.channels@.last()@));
        }
        channel_id as u32
    }

    /// Poll the next message bound for the guest on `channel_id`: the front
    /// of that channel's queue, or `None` when the queue is empty. Polling a
    /// channel that was never registered is a caller error, excluded here.
    pub fn poll_plugin_message(&mut self, channel_id: ChannelId) -> (r: Option<Vec<u8>>)
        requires
            channel_id < old(self)@.len(),
        ensures
            final(self)@.len() == old(self)@.len(),
            match r {
                None => old(self)@[channel_id as int].messages.len() == 0 && final(self)@
                    == old(self)@,
                Some(m) => old(self)@[channel_id as int].messages.len() > 0 && m@ == old(
                    self,
                )@[channel_id as int].messages[0] && final(self)@ == old(self)@.update(
                    channel_id as int,
                    ChannelView {
                        name: old(self)@[channel_id as int].name,
                        messages: old(self)@[channel_id as int].messages.drop_first(),
                    },
                ),
            },
    {
        let idx = channel_id as usize;
        let channel = &mut self.channels[idx];
        let r = queue_pop(&mut channel.message_queue);
        proof {
            match r {
                None => {
                    assert(self@ =~= old(self)@);
                },
                Some(ref m) => {
                    assert(self@ =~= old(self)@.update(
                        channel_id as int,
                        ChannelView {
                            name: old(self)@[channel_id as int].name,
                            messages: old(self)@[channel_id as int].messages.drop_first(),
                        },
                    ));
                },
            }
        }
        r
    }

    /// Queue `msg` for the guest on `channel_id`. A message to an unknown
    /// channel is silently dropped.
    pub fn publish_message_to_guest(&mut self, channel_id: ChannelId, msg: Vec<u8>)
        ensures
            channel_id < old(self)@.len() ==> final(self)@ == old(self)@.update(
                channel_id as int,
                ChannelView {
                    name: old(self)@[channel_id as int].name,
                    messages: old(self)@[channel_id as int].messages.push(msg@),
                },
            ),
            channel_id >= old(self)@.len() ==> final(self)@ == old(self)@,
    {
        let idx = channel_id as usize;
        if idx < self.channels.len() {
            let channel = &mut self.channels[idx];
            queue_push(&mut channel.message_queue, msg);
            proof {
                assert(self@ =~= old(self)@.update(
                    channel_id as int,
                    ChannelView {
                        name: old(self)@[channel_id as int].name,
                        messages: old(self)@[channel_id as int].messages.push(msg@),
                    },
                ));
            }
        }
    }

    /// A message arriving from the guest on `channel_id`: hand it back for
    /// delivery to the channel's receive callback when the channel exists; a
    /// message on an unknown channel is silently dropped.
    pub fn publish_message_from_guest(&self, channel_id: ChannelId, msg: Vec<u8>) -> (r: Option<
        Vec<u8>,
    >)
        ensures
            match r {
                Some(m) => channel_id < self@.len() && m@ == msg@,
                None => channel_id >= self@.len(),
            },
    {
        let idx = channel_id as usize;
        if idx < self.channels.len() {
            Some(msg)
        } else {
            None
        }
    }

    /// Look a channel up by name: some identifier of a channel carrying
    /// `p_name` if one exists, `None` otherwise.
    pub fn get_channel_from_name(&self, p_name: &str) -> (r: Option<ChannelId>)
        requires
            self.wf(),
        ensures
            match r {
                Some(i) => i < self@.len() && self@[i as int].name == Some(p_name@),
                None => forall|i: int|
                    0 <= i < self@.len() ==> self@[i].name != Some(p_name@),
            },
    {
        let wanted: String = p_name.to_owned();
        let mut i: usize = 0;
        while i < self.channels.len()
            invariant
                self.wf(),
                i <= self@.len(),
                self@.len() == self.channels@.len(),
                wanted@ == p_name@,
                forall|j: int| 0 <= j < i ==> self@[j].name != Some(p_name@),
            decreases self.channels.len() - i,
        {
            proof {
                assert(self@[i as int] == self.channels@[i as int]@);
            }
            match &self.channels[i].name {
                Some(n) => {
                    if *n == wanted {
                        proof {
                            assert(self@[i as int].name == Some(p_name@));
                        }
                        return Some(i as u32);
                    }
                    proof {
                        assert(self@[i as int].name != Some(p_name@));
                    }
                },
                None => {
                    proof {
                        assert(self@[i as int].name is None);
                    }
                },
            }
            i = i + 1;
        }
        None
    }
}

} // verus!
