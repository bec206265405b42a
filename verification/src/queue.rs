//! The event queue: a bounded first-in, first-out channel between the decoder
//! and the actuator.

use embassy_sync::blocking_mutex::raw::NoopRawMutex;
use embassy_sync::channel::Channel;
use embassy_sync::channel::TryReceiveError;
use embassy_sync::channel::TrySendError;
use vstd::prelude::*;

use crate::controller::ControlMessages;

verus! {

/// Number of events that the queue holds at most.
pub const QUEUE_CAPACITY: usize = 10;

/// The channel that carries the events: an `embassy_sync::channel::Channel`
/// for one executor, with room for `QUEUE_CAPACITY` events.
///
/// The verifier does not look inside. All it knows of a channel is what the
/// three functions below say of `channel_pending`, and those it takes on
/// trust.
#[verifier::external_body]
pub struct EventChannel {
    channel: Channel<NoopRawMutex, ControlMessages, QUEUE_CAPACITY>,
}

/// The events that a channel holds, oldest first. Nothing is known of it but
/// what `channel_new`, `channel_try_send` and `channel_try_receive` state.
pub uninterp spec fn channel_pending(channel: EventChannel) -> Seq<ControlMessages>;

/// Trusted, not proved: `Channel::new` gives a channel that holds nothing.
#[verifier::external_body]
fn channel_new() -> (channel: EventChannel)
    ensures
        channel_pending(channel) == Seq::<ControlMessages>::empty(),
{
    EventChannel { channel: Channel::new() }
}

/// Trusted, not proved: `Channel::try_send` puts the event behind the ones
/// held while they are fewer than `QUEUE_CAPACITY`, and then returns nothing;
/// a channel that holds `QUEUE_CAPACITY` events stays as it is and hands the
/// event back in its `Full` error. It does not block and, called on a channel
/// that nothing else has borrowed, does not panic.
#[verifier::external_body]
fn channel_try_send(channel: &mut EventChannel, event: ControlMessages) -> (back: Option<
    ControlMessages,
>)
    ensures
        channel_pending(*old(channel)).len() < QUEUE_CAPACITY ==> back is None && channel_pending(
            *final(channel),
        ) == channel_pending(*old(channel)).push(event),
        channel_pending(*old(channel)).len() >= QUEUE_CAPACITY ==> back == Some(event)
            && channel_pending(*final(channel)) == channel_pending(*old(channel)),
    no_unwind
{
    match channel.channel.try_send(event) {
        Ok(()) => None,
        Err(TrySendError::Full(event)) => Some(event),
    }
}

/// Trusted, not proved: `Channel::try_receive` takes the oldest event out of
/// the channel and returns it; on an empty channel it returns its `Empty`
/// error, given here as `None`, and changes nothing. It does not block and,
/// called on a channel that nothing else has borrowed, does not panic.
#[verifier::external_body]
fn channel_try_receive(channel: &mut EventChannel) -> (event: Option<ControlMessages>)
    ensures
        channel_pending(*old(channel)).len() == 0 ==> event is None && channel_pending(
            *final(channel),
        ) == channel_pending(*old(channel)),
        channel_pending(*old(channel)).len() > 0 ==> event == Some(
            channel_pending(*old(channel))[0],
        ) && channel_pending(*final(channel)) == channel_pending(*old(channel)).drop_first(),
    no_unwind
{
    match channel.channel.try_receive() {
        Ok(event) => Some(event),
        Err(TryReceiveError::Empty) => None,
    }
}

/// Whether a queue that holds `pending` has room for one more event.
pub open spec fn has_room(pending: Seq<ControlMessages>) -> bool {
    pending.len() < QUEUE_CAPACITY
}

/// What a queue holds after `event` was offered to it: the event at the back
/// if there was room, else what it held.
pub open spec fn after_offer(pending: Seq<ControlMessages>, event: ControlMessages) -> Seq<
    ControlMessages,
> {
    if has_room(pending) {
        pending.push(event)
    } else {
        pending
    }
}

/// What a queue holds after one event was taken from it.
pub open spec fn after_take(pending: Seq<ControlMessages>) -> Seq<ControlMessages> {
    if pending.len() > 0 {
        pending.drop_first()
    } else {
        pending
    }
}

/// How many of `offered` events a queue that holds `pending` takes at once:
/// all of them, up to the room it has.
pub open spec fn taken_at_once(pending: Seq<ControlMessages>, offered: nat) -> nat {
    let room = QUEUE_CAPACITY - pending.len();
    if room <= 0 {
        0
    } else if offered <= room {
        offered
    } else {
        room as nat
    }
}

/// The bounded queue of button events, first in, first out.
///
/// The decoder offers events at the back and the actuator takes them from the
/// front. A full queue takes nothing: the event comes back to the producer,
/// which has to wait and offer it again.
pub struct EventQueue {
    channel: EventChannel,
}

impl EventQueue {
    #[verifier::type_invariant]
    spec fn within_capacity(self) -> bool {
        channel_pending(self.channel).len() <= QUEUE_CAPACITY
    }

    /// The events that wait in the queue, oldest first.
    pub closed spec fn view(&self) -> Seq<ControlMessages> {
        channel_pending(self.channel)
    }

    /// An empty queue.
    pub fn new() -> (queue: Self)
        ensures
            queue@ == Seq::<ControlMessages>::empty(),
    {
        EventQueue { channel: channel_new() }
    }

    /// Offers one event. With room in the queue the event goes to the back
    /// and `None` is returned; a full queue stays as it is and hands the
    /// event back.
    pub fn try_enqueue(&mut self, event: ControlMessages) -> (back: Option<ControlMessages>)
        ensures
            final(self)@ == after_offer(old(self)@, event),
            back == if has_room(old(self)@) {
                None
            } else {
                Some(event)
            },
            final(self)@.len() <= QUEUE_CAPACITY,
    {
        proof {
            use_type_invariant(&*self);
        }
        channel_try_send(&mut self.channel, event)
    }

    /// Takes the oldest event, if the queue holds any.
    pub fn try_dequeue(&mut self) -> (event: Option<ControlMessages>)
        ensures
            final(self)@ == after_take(old(self)@),
            event == if old(self)@.len() > 0 {
                Some(old(self)@[0])
            } else {
                None
            },
            final(self)@.len() <= QUEUE_CAPACITY,
    {
        proof {
            use_type_invariant(&*self);
        }
        channel_try_receive(&mut self.channel)
    }

    /// Offers the events of `events` in order, until the queue is full or
    /// none is left. Returns how many went in; the others are still the
    /// producer's to offer.
    pub fn try_enqueue_all(&mut self, events: &[ControlMessages]) -> (taken: usize)
        ensures
            taken == taken_at_once(old(self)@, events@.len()),
            final(self)@ == old(self)@ + events@.take(taken as int),
            final(self)@.len() <= QUEUE_CAPACITY,
    {
        proof {
            use_type_invariant(&*self);
        }
        let mut taken: usize = 0;
        assert(events@.take(0) == Seq::<ControlMessages>::empty());
        while taken < events.len()
            invariant_except_break
                taken <= events@.len(),
                self@.len() <= QUEUE_CAPACITY,
                self@ == old(self)@ + events@.take(taken as int),
            ensures
                taken == taken_at_once(old(self)@, events@.len()),
                self@ == old(self)@ + events@.take(taken as int),
                self@.len() <= QUEUE_CAPACITY,
            decreases events@.len() - taken,
        {
            match self.try_enqueue(events[taken]) {
                None => {
                    assert(events@.take(taken as int).push(events@[taken as int]) == events@.take(
                        taken + 1,
                    ));
                    taken = taken + 1;
                },
                Some(_) => {
                    break ;
                },
            }
        }
        taken
    }
}

/// A full queue takes no further event: the offer leaves it as it is, so the
/// producer has to wait. Once the consumer has taken one event, the same
/// offer goes in, behind the events that were waiting.
pub proof fn lemma_full_queue_holds_producer_back(
    pending: Seq<ControlMessages>,
    event: ControlMessages,
)
    requires
        pending.len() == QUEUE_CAPACITY,
    ensures
        !has_room(pending),
        after_offer(pending, event) == pending,
        has_room(after_take(pending)),
        after_offer(after_take(pending), event) == pending.drop_first().push(event),
        after_offer(after_take(pending), event).len() == QUEUE_CAPACITY,
{
}

/// Offering and taking keep a queue within its capacity.
pub proof fn lemma_capacity_is_kept(pending: Seq<ControlMessages>, event: ControlMessages)
    requires
        pending.len() <= QUEUE_CAPACITY,
    ensures
        after_offer(pending, event).len() <= QUEUE_CAPACITY,
        after_take(pending).len() <= QUEUE_CAPACITY,
{
}

/// Events leave the queue in the order in which they went in: an event that
/// is offered behind waiting events is taken only after each of them.
pub proof fn lemma_first_in_first_out(pending: Seq<ControlMessages>, event: ControlMessages)
    requires
        has_room(pending),
    ensures
        after_offer(pending, event) == pending + seq![event],
        pending.len() > 0 ==> after_offer(pending, event)[0] == pending[0] && after_take(
            after_offer(pending, event),
        ) == after_offer(after_take(pending), event),
        pending.len() == 0 ==> after_offer(pending, event)[0] == event && after_take(
            after_offer(pending, event),
        ) == pending,
{
}

} // verus!
