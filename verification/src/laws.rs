//! What holds of an audio loop across its parts.
use crate::audio_loop::delivered;
use crate::channel::{
    accepted_messages, commands_of, CommandSender, Sending, StreamThreadMessage,
};
use crate::control::{stop_signalled, StreamState};
use crate::ring::{
    advanced, drained, linked, newly_taken, nothing_dropped, pushed, UpdateReceiver, UpdateSender,
};
use crate::subscription::{
    is_order_of, law_every_listener_receives_every_update, received, rounds, Delivery,
};
use crate::threads::{
    callback_actions, callback_history, forwarded, found, handled,
    law_commands_are_handled_before_the_run, polls_of, stands_after, BufferRequest, CallbackAction,
    StreamThread, StreamThreadAction, StreamThreadEvent, UpdateThread, UpdateThreadAction,
};
use vstd::prelude::*;

verus! {

/// The ring buffers as many updates as it was made for: up to that number, each one that is sent
/// is accepted, and the accepted ones are all that were sent, in order.
pub proof fn law_updates_are_buffered_up_to_capacity<U>(
    before: UpdateSender<U>,
    after: UpdateSender<U>,
    update: U,
    accepted: bool,
)
    requires
        nothing_dropped(before),
        before.offered().len() < before.capacity(),
        pushed(before, after, update, accepted),
    ensures
        accepted,
        nothing_dropped(after),
{
}

/// Never more updates wait than the ring was made for, and no room is wasted:
/// an update that is sent is accepted exactly if fewer wait. Otherwise it is dropped, and the
/// ones that wait are kept.
///
/// `before` knows how much was taken out, and nothing is taken out meanwhile.
pub proof fn law_ring_accepts_while_there_is_room<U>(
    before: UpdateSender<U>,
    after: UpdateSender<U>,
    receiver: UpdateReceiver<U>,
    update: U,
    accepted: bool,
)
    requires
        linked(before, receiver),
        linked(after, receiver),
        before.freed() == receiver.taken().len(),
        pushed(before, after, update, accepted),
    ensures
        accepted <==> before.accepted().len() - receiver.taken().len() < before.capacity(),
        after.accepted() == if accepted {
            before.accepted().push(update)
        } else {
            before.accepted()
        },
{
}

/// Updates are received in the order in which the ring accepted them, none altered, left out or
/// received twice: what was received is the beginning of what was accepted.
pub proof fn law_updates_arrive_in_order<U>(
    updates: UpdateSender<U>,
    first: UpdateReceiver<U>,
    second: UpdateReceiver<U>,
    third: UpdateReceiver<U>,
)
    requires
        advanced(first, second),
        advanced(second, third),
        linked(updates, third),
    ensures
        first.taken() + newly_taken(first, second) + newly_taken(second, third) == third.taken(),
        third.taken().is_prefix_of(updates.accepted()),
{
    lemma_taken(first, second);
    lemma_taken(second, third);
}

/// What was taken before a read and what the read took is what was taken after it.
proof fn lemma_taken<U>(before: UpdateReceiver<U>, after: UpdateReceiver<U>)
    requires
        advanced(before, after),
    ensures
        before.taken() + newly_taken(before, after) == after.taken(),
{
    assert(before.taken() + newly_taken(before, after) =~= after.taken());
}

/// A delivery gives a listener the updates, and anybody else nothing.
proof fn lemma_delivered<U, F>(
    log: Seq<Delivery<U, F>>,
    updates: Seq<U>,
    callbacks: Map<u64, F>,
    after: Seq<Delivery<U, F>>,
    key: u64,
)
    requires
        delivered(log, updates, callbacks, after),
    ensures
        received(after, key) == received(log, key) + (if callbacks.contains_key(key) {
            updates
        } else {
            Seq::empty()
        }),
{
    let order = choose|order: Seq<u64>| #[trigger]
        is_order_of(order, callbacks) && after == log + rounds(updates, order, callbacks);
    law_every_listener_receives_every_update(log, updates, order, callbacks, key);
}

/// A listener hears what the ring accepts, without gaps, repeats or changes of order: over two
/// deliveries, one after the other, it receives exactly the stretch of accepted updates that was
/// taken out of the ring.
pub proof fn law_listener_hears_what_the_ring_accepts<U, F>(
    updates: UpdateSender<U>,
    first: UpdateReceiver<U>,
    second: UpdateReceiver<U>,
    third: UpdateReceiver<U>,
    log: Seq<Delivery<U, F>>,
    later: Seq<Delivery<U, F>>,
    latest: Seq<Delivery<U, F>>,
    callbacks: Map<u64, F>,
    key: u64,
)
    requires
        advanced(first, second),
        advanced(second, third),
        linked(updates, third),
        delivered(log, newly_taken(first, second), callbacks, later),
        delivered(later, newly_taken(second, third), callbacks, latest),
        callbacks.contains_key(key),
    ensures
        received(latest, key) == received(log, key) + updates.accepted().subrange(
            first.taken().len() as int,
            third.taken().len() as int,
        ),
{
    lemma_delivered(log, newly_taken(first, second), callbacks, later, key);
    lemma_delivered(later, newly_taken(second, third), callbacks, latest, key);
    lemma_taken(first, second);
    lemma_taken(second, third);
    assert(newly_taken(first, second) + newly_taken(second, third)
        =~= updates.accepted().subrange(first.taken().len() as int, third.taken().len() as int));
    assert(received(log, key) + newly_taken(first, second) + newly_taken(second, third)
        =~= received(log, key) + (newly_taken(first, second) + newly_taken(second, third)));
}

/// No accepted update is lost: once the ring is known to have accepted an update, the next
/// delivery brings it to every listener, in order.
pub proof fn law_accepted_updates_are_delivered<U, F>(
    updates: UpdateSender<U>,
    before: UpdateReceiver<U>,
    after: UpdateReceiver<U>,
    log: Seq<Delivery<U, F>>,
    later: Seq<Delivery<U, F>>,
    callbacks: Map<u64, F>,
    key: u64,
)
    requires
        linked(updates, before),
        before.known() == updates.accepted(),
        advanced(before, after),
        delivered(log, newly_taken(before, after), callbacks, later),
        callbacks.contains_key(key),
    ensures
        (received(log, key) + updates.accepted().skip(
            before.taken().len() as int,
        )).is_prefix_of(received(later, key)),
{
    lemma_delivered(log, newly_taken(before, after), callbacks, later, key);
    let waiting = updates.accepted().skip(before.taken().len() as int);
    let fresh = newly_taken(before, after);
    assert forall|i: int| 0 <= i < waiting.len() implies waiting[i] == fresh[i] by {
        let at = i + before.taken().len();
        assert(updates.accepted()[at] == after.taken()[at]);
    }
    assert(received(log, key) + waiting =~= received(later, key).subrange(
        0,
        (received(log, key) + waiting).len() as int,
    ));
}

/// A stop loses no update: if the stream thread hands the writing end back, every listener has
/// received, after the stop, all that the ring accepted and that was not delivered before, in order
/// and nothing else.
pub proof fn law_stop_delivers_what_is_left<U, F>(
    before: UpdateReceiver<U>,
    sender: UpdateSender<U>,
    after: UpdateReceiver<U>,
    log: Seq<Delivery<U, F>>,
    later: Seq<Delivery<U, F>>,
    callbacks: Map<u64, F>,
    key: u64,
)
    requires
        sender.ring() == before.ring(),
        drained(before, Some(sender), after),
        delivered(log, newly_taken(before, after), callbacks, later),
        callbacks.contains_key(key),
    ensures
        received(later, key) == received(log, key) + sender.accepted().skip(
            before.taken().len() as int,
        ),
{
    lemma_delivered(log, newly_taken(before, after), callbacks, later, key);
}

/// The commands of two stretches of messages are those of the first and then of the second.
proof fn lemma_commands_concat<C>(
    a: Seq<StreamThreadMessage<C>>,
    b: Seq<StreamThreadMessage<C>>,
)
    ensures
        commands_of(a + b) == commands_of(a) + commands_of(b),
    decreases a.len(),
{
    if a.len() == 0 {
        assert(a + b =~= b);
        assert(commands_of(a) + commands_of(b) =~= commands_of(b));
    } else {
        lemma_commands_concat(a.skip(1), b);
        assert((a + b).skip(1) =~= a.skip(1) + b);
        assert((a + b)[0] == a[0]);
        assert(commands_of(a + b) =~= commands_of(a) + commands_of(b));
    }
}

/// The commands of a single message.
proof fn lemma_commands_single<C>(message: StreamThreadMessage<C>)
    ensures
        commands_of(seq![message]) == match message {
            StreamThreadMessage::Command(command) => seq![command],
            StreamThreadMessage::Stop => Seq::empty(),
        },
{
    let messages = seq![message];
    assert(messages.skip(1) =~= Seq::empty());
    assert(commands_of(messages.skip(1)) =~= Seq::<C>::empty());
    assert(commands_of(messages) =~= match message {
        StreamThreadMessage::Command(command) => seq![command],
        StreamThreadMessage::Stop => Seq::empty(),
    });
}

/// A thread forwards a beginning of the commands that come in.
proof fn lemma_forwarded_prefix<C>(thread: StreamThread, messages: Seq<StreamThreadMessage<C>>)
    ensures
        forwarded(thread, messages).is_prefix_of(commands_of(messages)),
    decreases messages.len(),
{
    if thread == StreamThread::Forwarding && messages.len() > 0 {
        let (next, action) = thread.after(StreamThreadEvent::Received(Some(messages[0])));
        lemma_forwarded_prefix(next, messages.skip(1));
        let rest = forwarded(next, messages.skip(1));
        let all = commands_of(messages.skip(1));
        assert(rest =~= all.subrange(0, rest.len() as int));
        let whole = forwarded(thread, messages);
        assert(whole =~= commands_of(messages).subrange(0, whole.len() as int));
    } else {
        assert(forwarded(thread, messages) =~= commands_of(messages).subrange(0, 0));
    }
}

/// The commands handled in two stretches of actions are those of the first and then of the second.
proof fn lemma_handled_concat<C>(a: Seq<CallbackAction<C>>, b: Seq<CallbackAction<C>>)
    ensures
        handled(a + b) == handled(a) + handled(b),
    decreases a.len(),
{
    if a.len() == 0 {
        assert(a + b =~= b);
        assert(handled(a) + handled(b) =~= handled(b));
    } else {
        lemma_handled_concat(a.skip(1), b);
        assert((a + b).skip(1) =~= a.skip(1) + b);
        assert((a + b)[0] == a[0]);
        assert(handled(a + b) =~= handled(a) + handled(b));
    }
}

/// A callback that handles commands and then runs the runner handles those commands.
proof fn lemma_handled_in_call<C>(waiting: Seq<C>, run: CallbackAction<C>)
    requires
        run is Run,
    ensures
        handled(
            waiting.map_values(|command: C| CallbackAction::Handle(command)).push(run),
        ) == waiting,
    decreases waiting.len(),
{
    let actions = waiting.map_values(|command: C| CallbackAction::Handle(command)).push(run);
    if waiting.len() == 0 {
        assert(actions[0] == run);
        assert(actions.skip(1) =~= Seq::empty());
        assert(handled(actions.skip(1)) =~= Seq::<C>::empty());
        assert(waiting =~= Seq::empty());
    } else {
        lemma_handled_in_call(waiting.skip(1), run);
        assert(actions[0] == CallbackAction::Handle(waiting[0]));
        assert(actions.skip(1) =~= waiting.skip(1).map_values(
            |command: C| CallbackAction::Handle(command),
        ).push(run));
        assert(seq![waiting[0]] + waiting.skip(1) =~= waiting);
    }
}

/// Over all calls of the callback, the runner handles what the callback finds.
proof fn lemma_found_is_handled<C>(requests: Seq<BufferRequest<C>>, channels: usize)
    requires
        channels > 0,
    ensures
        handled(callback_history(requests, channels)) == found(requests),
    decreases requests.len(),
{
    if requests.len() > 0 {
        let request = requests[0];
        lemma_found_is_handled(requests.skip(1), channels);
        law_commands_are_handled_before_the_run(
            request.waiting,
            Seq::empty(),
            request.samples,
            channels,
        );
        assert(polls_of(request.waiting) + Seq::empty() =~= polls_of(request.waiting));
        lemma_handled_in_call(
            request.waiting,
            CallbackAction::Run {
                layout: crate::backend::Layout::Interleaved,
                frames: request.samples / channels,
            },
        );
        lemma_handled_concat(
            callback_actions(polls_of(request.waiting), request.samples, channels),
            callback_history(requests.skip(1), channels),
        );
    }
}

/// The runner handles a beginning of the commands that were sent in this run of the loop, in order
/// and each at most once: of those that the sender's log shows as accepted. All commands that wait
/// when the device asks for a buffer are handled then.
///
/// `log` is that of the sender that the run was started with. The stream thread has received a
/// beginning of what the channel accepted, and the callback has found a beginning of what the
/// stream thread forwarded.
pub proof fn law_commands_reach_the_runner_in_order<C>(
    log: Seq<Sending<C>>,
    arrived: Seq<StreamThreadMessage<C>>,
    requests: Seq<BufferRequest<C>>,
    channels: usize,
)
    requires
        arrived.is_prefix_of(accepted_messages(log)),
        found(requests).is_prefix_of(forwarded(StreamThread::Forwarding, arrived)),
        channels > 0,
    ensures
        handled(callback_history(requests, channels)) == found(requests),
        handled(callback_history(requests, channels)).is_prefix_of(
            commands_of(accepted_messages(log)),
        ),
{
    lemma_found_is_handled(requests, channels);
    lemma_forwarded_prefix(StreamThread::Forwarding, arrived);
    let sent = accepted_messages(log);
    let rest = sent.skip(arrived.len() as int);
    assert(sent =~= arrived + rest);
    lemma_commands_concat(arrived, rest);
    let done = found(requests);
    let passed = forwarded(StreamThread::Forwarding, arrived);
    assert forall|i: int| 0 <= i < done.len() implies done[i] == commands_of(sent)[i] by {
        assert(done[i] == passed[i]);
        assert(passed[i] == commands_of(arrived)[i]);
    }
    assert(done =~= commands_of(sent).subrange(0, done.len() as int));
}

/// The accepted commands of a log are those whose sending succeeded, in order: none to begin with,
/// and one more for each command that the channel accepts. A stop message adds none.
pub proof fn law_accepted_commands_are_those_sent<C>(
    log: Seq<Sending<C>>,
    command: C,
    accepted: bool,
)
    ensures
        commands_of(accepted_messages(Seq::<Sending<C>>::empty())) == Seq::<C>::empty(),
        commands_of(
            accepted_messages(
                log.push(Sending { message: StreamThreadMessage::Command(command), accepted }),
            ),
        ) == if accepted {
            commands_of(accepted_messages(log)).push(command)
        } else {
            commands_of(accepted_messages(log))
        },
        commands_of(
            accepted_messages(log.push(Sending { message: StreamThreadMessage::Stop, accepted })),
        ) == commands_of(accepted_messages(log)),
{
    let with_command = log.push(
        Sending { message: StreamThreadMessage::Command(command), accepted },
    );
    let with_stop = log.push(Sending { message: StreamThreadMessage::Stop, accepted });
    assert(with_command.drop_last() =~= log);
    assert(with_stop.drop_last() =~= log);
    let sent = accepted_messages(log);
    if accepted {
        lemma_commands_concat(sent, seq![StreamThreadMessage::Command(command)]);
        lemma_commands_single(StreamThreadMessage::Command(command));
        assert(sent.push(StreamThreadMessage::Command(command)) =~= sent
            + seq![StreamThreadMessage::Command(command)]);
        assert(commands_of(sent).push(command) =~= commands_of(sent) + seq![command]);
        lemma_commands_concat(sent, seq![StreamThreadMessage::Stop]);
        lemma_commands_single(StreamThreadMessage::<C>::Stop);
        assert(sent.push(StreamThreadMessage::Stop) =~= sent + seq![StreamThreadMessage::Stop]);
        assert(commands_of(sent) + Seq::empty() =~= commands_of(sent));
    }
}

/// A thread that is sent a stop message last is finished once all messages have come in.
proof fn lemma_stop_finishes<C>(messages: Seq<StreamThreadMessage<C>>)
    requires
        messages.len() > 0,
        messages.last() == StreamThreadMessage::<C>::Stop,
    ensures
        stands_after(StreamThread::Forwarding, messages) == StreamThread::Finished,
    decreases messages.len(),
{
    let next = StreamThread::Forwarding.after(StreamThreadEvent::Received(Some(messages[0]))).0;
    if messages.len() > 1 && messages[0] is Command {
        assert(messages.skip(1).last() == messages.last());
        lemma_stop_finishes(messages.skip(1));
    } else {
        assert(next == StreamThread::Finished);
        assert(stands_after(next, messages.skip(1)) == next);
    }
}

/// A loop that is ended is over. The stream is given up. The stream thread is finished once it has
/// received what the channel accepted; it forwards nothing after that. The update thread delivers
/// nothing and does not park any more, and at its second look at the latest it is finished.
///
/// `spent` is the sender as it was handed out. A channel that did not accept the stop message has
/// no stream thread left at its other end.
pub proof fn law_ended_loop_is_over<C, U, H>(
    before: StreamState<C, U, H>,
    spent: Option<CommandSender<C>>,
    late: Seq<StreamThreadMessage<C>>,
    update_thread: UpdateThread,
)
    requires
        stop_signalled(before.sender, spent),
    ensures
        ({
            let over = before.halted().ended();
            &&& !over.active
            &&& over.sender is None
            &&& over.thread is None
            &&& !(update_thread.after(over.alive).1 is Deliver)
            &&& !(update_thread.after(over.alive).1 is Park)
            &&& update_thread.after(over.alive).0.after(over.alive) == (
                UpdateThread::Finished,
                UpdateThreadAction::Finish,
            )
        }),
        before.sender matches Some(_) ==> spent matches Some(sender) && (
        sender.log().last().accepted ==> stands_after(
            StreamThread::Forwarding,
            accepted_messages(sender.log()),
        ) == StreamThread::Finished),
        StreamThread::Forwarding.after(StreamThreadEvent::<C>::Received(None)) == (
            StreamThread::Finished,
            StreamThreadAction::<C>::Finish,
        ),
        forwarded(StreamThread::Finished, late) == Seq::<C>::empty(),
{
    if let Some(used) = before.sender {
        let sender = spent.unwrap();
        let accepted = choose|accepted: bool|
            sender.log() == #[trigger] used.log().push(
                Sending { message: StreamThreadMessage::Stop, accepted },
            );
        if accepted {
            lemma_stop_finishes(accepted_messages(sender.log()));
        }
    }
}

/// How far one of several calls of start and stop has come.
pub enum LoopCall {
    /// A start that has not begun.
    StartWaiting,
    /// A start that has made a ring.
    StartPrepared,
    /// A start whose stream plays.
    StartPlaying,
    /// A start that has succeeded.
    Started,
    /// A start that has failed.
    StartFailed,
    /// A start that was refused, because the loop is already running.
    StartRefused,
    /// A stop that has not begun.
    StopWaiting,
    /// A stop that has given up the stream.
    StopBegun,
    /// A stop that has stopped the loop.
    Stopped,
    /// A stop that found nothing to stop.
    StopIdle,
}

impl LoopCall {
    /// Whether the call has not begun.
    pub open spec fn waits(self) -> bool {
        self is StartWaiting || self is StopWaiting
    }

    /// Whether the call has begun and is not over.
    pub open spec fn under_way(self) -> bool {
        self is StartPrepared || self is StartPlaying || self is StopBegun
    }

    /// Whether the call is a start.
    pub open spec fn is_start(self) -> bool {
        ||| self is StartWaiting
        ||| self is StartPrepared
        ||| self is StartPlaying
        ||| self is Started
        ||| self is StartFailed
        ||| self is StartRefused
    }
}

/// Several calls of start and stop on one loop, at the same time.
#[verifier::reject_recursive_types(C)]
#[verifier::reject_recursive_types(U)]
pub struct Race<C, U, H> {
    pub state: StreamState<C, U, H>,
    pub calls: Seq<LoopCall>,
}

/// Whether `after` follows from `before` by the next step of a call that stands at `call` and
/// stands at `next` then. A call that has to wait takes no step.
pub open spec fn call_step<C, U, H>(
    before: StreamState<C, U, H>,
    call: LoopCall,
    after: StreamState<C, U, H>,
    next: LoopCall,
) -> bool {
    match call {
        LoopCall::StartWaiting => if before.active {
            next is StartRefused && after == before
        } else {
            &&& !before.busy()
            &&& next is StartPrepared
            &&& after.receiver matches Some(receiver)
            &&& after == before.prepared(receiver)
        },
        LoopCall::StartPrepared => {
            ||| next is StartPlaying && after == before.playing()
            ||| next is StartFailed && after == before.failed()
        },
        LoopCall::StartPlaying => {
            &&& next is Started
            &&& after.config matches Some(config)
            &&& after.sender matches Some(sender)
            &&& after.thread matches Some(thread)
            &&& after == before.started(config, sender, thread)
        },
        LoopCall::StopWaiting => if before.active {
            &&& !before.starting
            &&& next is StopBegun
            &&& after == before.halted()
        } else {
            next is StopIdle && after == before
        },
        LoopCall::StopBegun => next is Stopped && after == before.stopped(),
        _ => false,
    }
}

/// Whether `after` follows from `before` by the next step of call `i`.
pub open spec fn race_step<C, U, H>(before: Race<C, U, H>, after: Race<C, U, H>, i: int) -> bool {
    &&& 0 <= i < before.calls.len()
    &&& after.calls.len() == before.calls.len()
    &&& after.calls == before.calls.update(i, after.calls[i])
    &&& call_step(before.state, before.calls[i], after.state, after.calls[i])
}

/// Whether `after` follows from `before` by something that is no start and no stop: commands are
/// sent, or updates collected.
pub open spec fn other_step<C, U, H>(before: Race<C, U, H>, after: Race<C, U, H>) -> bool {
    &&& after.calls == before.calls
    &&& after.state.sender is Some <==> before.state.sender is Some
    &&& after.state.receiver is Some <==> before.state.receiver is Some
    &&& after.state == StreamState {
        sender: after.state.sender,
        receiver: after.state.receiver,
        ..before.state
    }
}

/// Whether `trace` is a course of several calls, step by step in any order, that begins with all
/// calls waiting and the loop settled.
pub open spec fn is_race<C, U, H>(trace: Seq<Race<C, U, H>>) -> bool
    decreases trace.len(),
{
    if trace.len() <= 1 {
        &&& trace.len() == 1
        &&& trace[0].state.settled()
        &&& forall|i: int| 0 <= i < trace[0].calls.len() ==> (#[trigger] trace[0].calls[i]).waits()
    } else {
        let before = trace.drop_last().last();
        &&& is_race(trace.drop_last())
        &&& other_step(before, trace.last()) || exists|i: int| #[trigger]
            race_step(before, trace.last(), i)
    }
}

/// Whether the loop stands as the call leaves it that is under way.
spec fn fits<C, U, H>(state: StreamState<C, U, H>, call: LoopCall) -> bool {
    match call {
        LoopCall::StartPrepared => state.starting && !state.active,
        LoopCall::StartPlaying => state.starting && state.active,
        LoopCall::StopBegun => state.stopping,
        _ => false,
    }
}

/// Whether call `i` is under way, no other is, and the loop stands as that call leaves it.
spec fn has_turn<C, U, H>(race: Race<C, U, H>, i: int) -> bool {
    &&& 0 <= i < race.calls.len()
    &&& fits(race.state, race.calls[i])
    &&& forall|j: int|
        0 <= j < race.calls.len() && j != i ==> !(#[trigger] race.calls[j]).under_way()
}

/// Whether no call is under way.
spec fn at_rest<C, U, H>(race: Race<C, U, H>) -> bool {
    &&& race.state.settled()
    &&& forall|j: int| 0 <= j < race.calls.len() ==> !(#[trigger] race.calls[j]).under_way()
}

/// One step of a race keeps the calls apart.
proof fn lemma_turns_step<C, U, H>(before: Race<C, U, H>, after: Race<C, U, H>, i: int)
    requires
        before.state.coherent(),
        at_rest(before) || exists|w: int| #[trigger] has_turn(before, w),
        race_step(before, after, i),
    ensures
        after.state.coherent(),
        at_rest(after) || exists|w: int| #[trigger] has_turn(after, w),
{
    assert forall|j: int| 0 <= j < after.calls.len() && j != i implies #[trigger] after.calls[j]
        == before.calls[j] by {}
    if after.calls[i].under_way() {
        if !at_rest(before) {
            let w = choose|w: int| #[trigger] has_turn(before, w);
            assert(w == i);
        }
        assert(has_turn(after, i));
    } else if before.calls[i].under_way() {
        if !at_rest(before) {
            let w = choose|w: int| #[trigger] has_turn(before, w);
            assert(w == i);
        }
        assert(at_rest(after));
    } else {
        if at_rest(before) {
            assert(at_rest(after));
        } else {
            let w = choose|w: int| #[trigger] has_turn(before, w);
            assert(has_turn(after, w));
        }
    }
}

/// At every point of a race, nothing is under way, or one call is.
proof fn lemma_turns<C, U, H>(trace: Seq<Race<C, U, H>>)
    requires
        is_race(trace),
    ensures
        trace.last().state.coherent(),
        at_rest(trace.last()) || exists|w: int| #[trigger] has_turn(trace.last(), w),
    decreases trace.len(),
{
    if trace.len() > 1 {
        lemma_turns(trace.drop_last());
        let before = trace.drop_last().last();
        let after = trace.last();
        if other_step(before, after) {
            if !at_rest(before) {
                let w = choose|w: int| #[trigger] has_turn(before, w);
                assert(has_turn(after, w));
            }
        } else {
            let i = choose|i: int| #[trigger] race_step(before, after, i);
            lemma_turns_step(before, after, i);
        }
    } else {
        assert(at_rest(trace.last()));
    }
}

/// Starts and stops that are called at the same time are kept apart: at every point at most one of
/// them is under way, and whenever none is, the loop is settled, so it has a configuration, a
/// sender, a thread and a ring if it runs, and no configuration, sender or thread if it does not.
pub proof fn law_starts_and_stops_are_kept_apart<C, U, H>(
    trace: Seq<Race<C, U, H>>,
    i: int,
    j: int,
)
    requires
        is_race(trace),
        0 <= i < trace.last().calls.len(),
        0 <= j < trace.last().calls.len(),
    ensures
        trace.last().calls[i].under_way() && trace.last().calls[j].under_way() ==> i == j,
        trace.last().state.coherent(),
        (forall|k: int|
            0 <= k < trace.last().calls.len() ==> !(#[trigger] trace.last().calls[k]).under_way())
            ==> trace.last().state.settled(),
{
    lemma_turns(trace);
    let race = trace.last();
    if !at_rest(race) {
        let w = choose|w: int| #[trigger] has_turn(race, w);
        assert(race.calls[w].under_way());
    }
}

/// Whether call `w` is the one whose stream plays.
spec fn won<C, U, H>(race: Race<C, U, H>, w: int) -> bool {
    &&& 0 <= w < race.calls.len()
    &&& race.calls[w] is StartPlaying || race.calls[w] is Started
    &&& forall|j: int|
        0 <= j < race.calls.len() && j != w ==> (#[trigger] race.calls[j] is StartWaiting
            || race.calls[j] is StartRefused || race.calls[j] is StartFailed)
}

/// Whether no call has got a stream to play, and none was refused.
spec fn undecided<C, U, H>(race: Race<C, U, H>) -> bool {
    forall|j: int|
        0 <= j < race.calls.len() ==> (#[trigger] race.calls[j] is StartWaiting
            || race.calls[j] is StartPrepared || race.calls[j] is StartFailed)
}

/// In a race of starts alone, the loop runs once a call has got its stream to play.
proof fn lemma_starts<C, U, H>(trace: Seq<Race<C, U, H>>)
    requires
        is_race(trace),
        !trace[0].state.active,
        forall|i: int| 0 <= i < trace[0].calls.len() ==> (#[trigger] trace[0].calls[i]).is_start(),
    ensures
        trace.last().calls.len() == trace[0].calls.len(),
        if trace.last().state.active {
            exists|w: int| #[trigger] won(trace.last(), w)
        } else {
            undecided(trace.last())
        },
    decreases trace.len(),
{
    if trace.len() > 1 {
        let earlier = trace.drop_last();
        assert(earlier[0] == trace[0]);
        lemma_starts(earlier);
        lemma_turns(earlier);
        let before = earlier.last();
        let after = trace.last();
        if other_step(before, after) {
            if before.state.active {
                let w = choose|w: int| #[trigger] won(before, w);
                assert(won(after, w));
            }
        } else {
            let i = choose|i: int| #[trigger] race_step(before, after, i);
            assert forall|j: int| 0 <= j < after.calls.len() && j != i implies
                #[trigger] after.calls[j] == before.calls[j] by {}
            if before.state.active {
                let w = choose|w: int| #[trigger] won(before, w);
                assert(before.calls[i].is_start());
                assert(won(after, w));
            } else {
                assert(before.calls[i].is_start());
                if before.calls[i] is StartPrepared {
                    assert(before.calls[i].under_way());
                    let turn = choose|turn: int| #[trigger] has_turn(before, turn);
                    assert(turn == i);
                    if after.calls[i] is StartPlaying {
                        assert forall|j: int| 0 <= j < after.calls.len() && j != i implies (
                        #[trigger] after.calls[j] is StartWaiting || after.calls[j] is StartRefused
                            || after.calls[j] is StartFailed) by {
                            assert(!before.calls[j].under_way());
                        }
                        assert(won(after, i));
                    }
                }
            }
        }
    } else {
        assert forall|j: int| 0 <= j < trace.last().calls.len() implies (
        #[trigger] trace.last().calls[j] is StartWaiting || trace.last().calls[j] is StartPrepared
            || trace.last().calls[j] is StartFailed) by {
            assert(trace[0].calls[j].waits());
            assert(trace[0].calls[j].is_start());
        }
    }
}

/// Of several starts of a stopped loop at the same time, at most one succeeds, and a start is
/// refused only if another one succeeds. So if none fails, exactly one succeeds and all others are
/// refused; and if some fail, the others do not suffer for it.
///
/// All calls are over at the end of `trace`.
pub proof fn law_one_of_several_starts_succeeds<C, U, H>(trace: Seq<Race<C, U, H>>)
    requires
        is_race(trace),
        !trace[0].state.active,
        forall|i: int| 0 <= i < trace[0].calls.len() ==> (#[trigger] trace[0].calls[i]).is_start(),
        forall|i: int|
            0 <= i < trace.last().calls.len() ==> !(#[trigger] trace.last().calls[i]).waits()
                && !trace.last().calls[i].under_way(),
    ensures
        trace.last().calls.len() == trace[0].calls.len(),
        if trace.last().state.active {
            exists|w: int|
                0 <= w < trace.last().calls.len() && (#[trigger] trace.last().calls[w]) is Started
                    && forall|j: int|
                    0 <= j < trace.last().calls.len() && j != w ==> (
                    #[trigger] trace.last().calls[j] is StartRefused
                        || trace.last().calls[j] is StartFailed)
        } else {
            forall|j: int|
                0 <= j < trace.last().calls.len() ==> (
                #[trigger] trace.last().calls[j]) is StartFailed
        },
{
    lemma_starts(trace);
    let race = trace.last();
    if race.state.active {
        let w = choose|w: int| #[trigger] won(race, w);
        assert(!race.calls[w].under_way());
        assert(race.calls[w] is Started);
        assert forall|j: int| 0 <= j < race.calls.len() && j != w implies (
        #[trigger] race.calls[j] is StartRefused || race.calls[j] is StartFailed) by {
            assert(!race.calls[j].waits());
        }
    }
}

} // verus!
