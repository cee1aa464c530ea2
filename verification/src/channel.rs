//! Event fan-out queues over `shrev`'s `EventChannel`.
//!
//! Each event category is buffered in one `shrev::EventChannel`, an
//! append-only channel whose ring buffer grows before it would overwrite an
//! event that some live reader has not seen, so no live reader ever loses an
//! event. A channel is modelled by the whole history of events ever written
//! to it, and a reader by a cursor into that history: the index after the
//! last event it has drained. Draining hands back exactly the events between
//! the cursor and the tail, in enqueue order, and moves only that reader's
//! cursor, so independent readers drain at their own pace.
//!
//! Retention is deterministic, and growing — never dropping — is a
//! deliberate choice: dropping unread events would break reader
//! independence, which promises every reader all events since its
//! registration. The configurable capacity is the initial ring size; the
//! buffer holds an event only until every live reader has drained it, then
//! reuses its slot, so memory beyond the capacity is claimed only by live
//! readers that lag, and is released as soon as they drain or are dropped.
//! With no live reader nothing is retained at all. The caller's side of
//! the contract is to drain its readers or drop them.
//!
//! The channel and reader types are opaque to the verifier; the handful of
//! methods the queues need are wrapped below with contracts read off
//! `shrev`'s source.

use vstd::prelude::*;

use crate::event::Event;

verus! {

#[verifier::external_type_specification]
#[verifier::external_body]
#[verifier::reject_recursive_types(E)]
pub struct ExEventChannel<E>(shrev::EventChannel<E>);

#[verifier::external_type_specification]
#[verifier::external_body]
#[verifier::reject_recursive_types(T)]
pub struct ExReaderId<T: 'static>(shrev::ReaderId<T>);

/// The whole history of events ever written to this channel, in enqueue
/// order.
pub uninterp spec fn channel_history(c: shrev::EventChannel<Event>) -> Seq<Event>;

/// Which channel this channel is: `shrev` ties every reader to the channel
/// that registered it and refuses a foreign reader, so the contracts must
/// tell channels apart.
pub uninterp spec fn channel_instance(c: shrev::EventChannel<Event>) -> int;

/// This reader's cursor: the index into its channel's history after the
/// last event it has drained (or, right after registration, the history's
/// length at that moment).
pub uninterp spec fn reader_cursor(r: shrev::ReaderId<Event>) -> int;

/// The channel this reader was registered on.
pub uninterp spec fn reader_instance(r: shrev::ReaderId<Event>) -> int;

/// Relies on `shrev::EventChannel::with_capacity`: a fresh channel with
/// the given initial ring size and nothing written to it yet. The ring
/// size must exceed one; the underlying buffer refuses smaller sizes.
#[verifier::external_body]
pub(crate) fn channel_with_capacity(capacity: usize) -> (c: shrev::EventChannel<Event>)
    requires
        capacity > 1,
    ensures
        channel_history(c) == Seq::<Event>::empty(),
{
    shrev::EventChannel::with_capacity(capacity)
}

/// Relies on `shrev::EventChannel::register_reader`: the new reader belongs
/// to this channel and will only observe events written after its
/// registration; the channel's contents are untouched.
#[verifier::external_body]
pub(crate) fn channel_register_reader(c: &mut shrev::EventChannel<Event>) -> (r: shrev::ReaderId<
    Event,
>)
    ensures
        channel_history(*final(c)) == channel_history(*old(c)),
        channel_instance(*final(c)) == channel_instance(*old(c)),
        reader_instance(r) == channel_instance(*final(c)),
        reader_cursor(r) == channel_history(*final(c)).len(),
{
    c.register_reader()
}

/// Relies on `shrev::EventChannel::single_write`: appends one event; the
/// buffer grows before overwriting anything a live reader has not seen, so
/// the history only ever grows.
#[verifier::external_body]
pub(crate) fn channel_write(c: &mut shrev::EventChannel<Event>, e: Event)
    ensures
        channel_history(*final(c)) == channel_history(*old(c)).push(e),
        channel_instance(*final(c)) == channel_instance(*old(c)),
{
    c.single_write(e);
}

/// Relies on `shrev::EventChannel::read`: hands back every event written
/// since this reader's last drain (or registration), in enqueue order, and
/// advances only this reader's cursor to the tail. The channel itself is
/// untouched — other readers observe the same events independently. `shrev`
/// panics on a reader of another channel, which the precondition rules out.
#[verifier::external_body]
pub(crate) fn channel_read(c: &shrev::EventChannel<Event>, r: &mut shrev::ReaderId<Event>) -> (out:
    Vec<Event>)
    requires
        reader_instance(*old(r)) == channel_instance(*c),
        0 <= reader_cursor(*old(r)) <= channel_history(*c).len(),
    ensures
        out@ == channel_history(*c).subrange(
            reader_cursor(*old(r)),
            channel_history(*c).len() as int,
        ),
        reader_cursor(*final(r)) == channel_history(*c).len(),
        reader_instance(*final(r)) == reader_instance(*old(r)),
{
    c.read(r).cloned().collect()
}

/// Reader independence: however many events stood in the history when a
/// reader was registered, a drain at any later point hands back exactly the
/// events appended since, in enqueue order. Draining takes the channel
/// immutably and moves only the draining reader's cursor, so two readers
/// registered at the same point both drain exactly these events, in this
/// order, whichever drains first.
pub proof fn law_reader_independence(base: Seq<Event>, appended: Seq<Event>)
    ensures
        (base + appended).subrange(base.len() as int, (base + appended).len() as int) == appended,
{
    assert((base + appended).subrange(base.len() as int, (base + appended).len() as int)
        =~= appended);
}

/// Late registration: a reader registered when the history already held its
/// whole contents — its cursor standing at the tail — drains nothing until
/// further events are appended.
pub proof fn law_late_registration(history: Seq<Event>)
    ensures
        history.subrange(history.len() as int, history.len() as int) == Seq::<Event>::empty(),
{
    assert(history.subrange(history.len() as int, history.len() as int) =~= Seq::<
        Event,
    >::empty());
}

} // verus!
