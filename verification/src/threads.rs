//! What the threads of an audio loop do, step by step.
//!
//! Each thread alternates work that only it can do (building a stream, waiting for a message,
//! running the runner) with decisions. The decisions are here: from where a thread stands and
//! what its work came to, where it stands next and what it does.
use crate::backend::Layout;
use crate::channel::StreamThreadMessage;
use crate::control::StreamFailure;
use crate::ring::{pushed, ring_push, UpdateSender};
use vstd::prelude::*;

verus! {

/// Where the stream owner thread stands.
#[derive(Debug, Clone, Copy, PartialEq, Eq, Structural)]
pub enum StreamThread {
    /// It builds the stream.
    Building,
    /// It starts the stream.
    Starting,
    /// It keeps the stream alive and forwards commands to the audio callback.
    Forwarding,
    /// It ends, and the stream with it.
    Finished,
}

/// What the work of the stream owner thread came to.
pub enum StreamThreadEvent<C> {
    /// The stream was built, or the reason why not.
    Built(Result<(), String>),
    /// The stream plays, or the reason why not.
    Played(Result<(), String>),
    /// A message came in, or none ever will, because nobody is left to send one.
    Received(Option<StreamThreadMessage<C>>),
}

/// What the stream owner thread does next.
pub enum StreamThreadAction<C> {
    /// Start the stream.
    Play,
    /// Report that the start failed, and end.
    Fail(StreamFailure),
    /// Take note that the stream plays, report success, and wait for a message.
    Announce,
    /// Forward a command to the audio callback, and wait for the next message.
    Forward(C),
    /// End.
    Finish,
}

impl StreamThread {
    /// Whether the event is one that the thread waits for.
    pub open spec fn expects<C>(self, event: StreamThreadEvent<C>) -> bool {
        match self {
            StreamThread::Building => event is Built,
            StreamThread::Starting => event is Played,
            StreamThread::Forwarding => event is Received,
            StreamThread::Finished => false,
        }
    }

    /// Where the thread stands after an event, and what it does.
    pub open spec fn after<C>(self, event: StreamThreadEvent<C>) -> (
        StreamThread,
        StreamThreadAction<C>,
    ) {
        match event {
            StreamThreadEvent::Built(Ok(())) => (StreamThread::Starting, StreamThreadAction::Play),
            StreamThreadEvent::Built(Err(cause)) => (
                StreamThread::Finished,
                StreamThreadAction::Fail(StreamFailure::Build(cause)),
            ),
            StreamThreadEvent::Played(Ok(())) => (
                StreamThread::Forwarding,
                StreamThreadAction::Announce,
            ),
            StreamThreadEvent::Played(Err(cause)) => (
                StreamThread::Finished,
                StreamThreadAction::Fail(StreamFailure::Play(cause)),
            ),
            StreamThreadEvent::Received(Some(StreamThreadMessage::Command(command))) => (
                StreamThread::Forwarding,
                StreamThreadAction::Forward(command),
            ),
            StreamThreadEvent::Received(_) => (StreamThread::Finished, StreamThreadAction::Finish),
        }
    }

    /// Decides what the thread does after an event.
    pub fn next<C>(self, event: StreamThreadEvent<C>) -> (r: (StreamThread, StreamThreadAction<C>))
        requires
            self.expects(event),
        ensures
            r == self.after(event),
    {
        match event {
            StreamThreadEvent::Built(Ok(())) => (StreamThread::Starting, StreamThreadAction::Play),
            StreamThreadEvent::Built(Err(cause)) => (
                StreamThread::Finished,
                StreamThreadAction::Fail(StreamFailure::Build(cause)),
            ),
            StreamThreadEvent::Played(Ok(())) => (
                StreamThread::Forwarding,
                StreamThreadAction::Announce,
            ),
            StreamThreadEvent::Played(Err(cause)) => (
                StreamThread::Finished,
                StreamThreadAction::Fail(StreamFailure::Play(cause)),
            ),
            StreamThreadEvent::Received(Some(StreamThreadMessage::Command(command))) => (
                StreamThread::Forwarding,
                StreamThreadAction::Forward(command),
            ),
            StreamThreadEvent::Received(Some(StreamThreadMessage::Stop)) => (
                StreamThread::Finished,
                StreamThreadAction::Finish,
            ),
            StreamThreadEvent::Received(None) => (
                StreamThread::Finished,
                StreamThreadAction::Finish,
            ),
        }
    }
}

/// The commands that a thread forwards while `messages` come in.
pub open spec fn forwarded<C>(thread: StreamThread, messages: Seq<StreamThreadMessage<C>>) -> Seq<C>
    decreases messages.len(),
{
    if thread != StreamThread::Forwarding || messages.len() == 0 {
        Seq::empty()
    } else {
        let (next, action) = thread.after(StreamThreadEvent::Received(Some(messages[0])));
        let rest = forwarded(next, messages.skip(1));
        match action {
            StreamThreadAction::Forward(command) => seq![command] + rest,
            _ => rest,
        }
    }
}

/// Where a thread stands once `messages` have come in.
pub open spec fn stands_after<C>(
    thread: StreamThread,
    messages: Seq<StreamThreadMessage<C>>,
) -> StreamThread
    decreases messages.len(),
{
    if thread != StreamThread::Forwarding || messages.len() == 0 {
        thread
    } else {
        stands_after(
            thread.after(StreamThreadEvent::Received(Some(messages[0]))).0,
            messages.skip(1),
        )
    }
}

/// The messages that carry `commands`.
pub open spec fn command_messages<C>(commands: Seq<C>) -> Seq<StreamThreadMessage<C>> {
    commands.map_values(|command: C| StreamThreadMessage::Command(command))
}

/// Every command that is sent before the stop message is forwarded, once and in order, and none
/// that is sent after it.
pub proof fn law_commands_are_forwarded_until_stop<C>(
    commands: Seq<C>,
    late: Seq<StreamThreadMessage<C>>,
)
    ensures
        forwarded(
            StreamThread::Forwarding,
            command_messages(commands).push(StreamThreadMessage::Stop) + late,
        ) == commands,
    decreases commands.len(),
{
    let messages = command_messages(commands).push(StreamThreadMessage::Stop) + late;
    if commands.len() == 0 {
        assert(messages[0] == StreamThreadMessage::<C>::Stop);
        assert(forwarded(StreamThread::Finished, messages.skip(1)) =~= Seq::<C>::empty());
        assert(commands =~= Seq::empty());
    } else {
        law_commands_are_forwarded_until_stop(commands.skip(1), late);
        assert(messages[0] == StreamThreadMessage::Command(commands[0]));
        assert(messages.skip(1) =~= command_messages(commands.skip(1)).push(
            StreamThreadMessage::Stop,
        ) + late);
        assert(seq![commands[0]] + commands.skip(1) =~= commands);
    }
}

/// A start is reported exactly once: the first two events lead to a report of failure, after
/// which the thread ends, or to the announcement of success.
pub proof fn law_start_is_reported_once<C>(
    built: Result<(), String>,
    played: Result<(), String>,
)
    ensures
        ({
            let (first, report) = StreamThread::Building.after(
                StreamThreadEvent::<C>::Built(built),
            );
            let (second, later) = first.after(StreamThreadEvent::<C>::Played(played));
            match built {
                Err(cause) => first is Finished && report == StreamThreadAction::<C>::Fail(
                    StreamFailure::Build(cause),
                ),
                Ok(()) => first is Starting && report is Play && match played {
                    Err(cause) => second is Finished && later == StreamThreadAction::<C>::Fail(
                        StreamFailure::Play(cause),
                    ),
                    Ok(()) => second is Forwarding && later is Announce,
                },
            }
        }),
{
}

/// What the audio callback does next.
pub enum CallbackAction<C> {
    /// Let the runner handle a command, and look for the next one.
    Handle(C),
    /// Let the runner fill the buffer, wake the update thread, and return.
    Run { layout: Layout, frames: usize },
}

/// What the audio callback does for a poll of its command channel, with a buffer of `samples`
/// samples.
pub open spec fn callback_action<C>(
    polled: Option<C>,
    samples: usize,
    channels: usize,
) -> CallbackAction<C> {
    match polled {
        Some(command) => CallbackAction::Handle(command),
        None => CallbackAction::Run { layout: Layout::Interleaved, frames: samples / channels },
    }
}

/// Decides what the audio callback does after it has polled its command channel.
pub fn next_callback_action<C>(polled: Option<C>, samples: usize, channels: usize) -> (r:
    CallbackAction<C>)
    requires
        polled is None ==> channels > 0,
    ensures
        r == callback_action(polled, samples, channels),
{
    match polled {
        Some(command) => CallbackAction::Handle(command),
        None => CallbackAction::Run { layout: Layout::Interleaved, frames: samples / channels },
    }
}

/// What the audio callback does in all while its polls give `polls`: it returns after its first
/// run of the runner.
pub open spec fn callback_actions<C>(
    polls: Seq<Option<C>>,
    samples: usize,
    channels: usize,
) -> Seq<CallbackAction<C>>
    decreases polls.len(),
{
    if polls.len() == 0 {
        Seq::empty()
    } else {
        let action = callback_action(polls[0], samples, channels);
        match action {
            CallbackAction::Handle(_) => seq![action] + callback_actions(
                polls.skip(1),
                samples,
                channels,
            ),
            CallbackAction::Run { .. } => seq![action],
        }
    }
}

/// The polls of a callback that finds the commands `waiting`: one for each of them, and one that
/// finds nothing more.
pub open spec fn polls_of<C>(waiting: Seq<C>) -> Seq<Option<C>> {
    waiting.map_values(|command: C| Some(command)).push(None)
}

/// One call of the audio callback, as the device makes it: the commands that wait by then, and the
/// number of samples of the buffer.
pub struct BufferRequest<C> {
    pub waiting: Seq<C>,
    pub samples: usize,
}

/// What the audio callback does over all its calls.
pub open spec fn callback_history<C>(
    requests: Seq<BufferRequest<C>>,
    channels: usize,
) -> Seq<CallbackAction<C>>
    decreases requests.len(),
{
    if requests.len() == 0 {
        Seq::empty()
    } else {
        callback_actions(polls_of(requests[0].waiting), requests[0].samples, channels)
            + callback_history(requests.skip(1), channels)
    }
}

/// The commands that the audio callback finds over all its calls.
pub open spec fn found<C>(requests: Seq<BufferRequest<C>>) -> Seq<C>
    decreases requests.len(),
{
    if requests.len() == 0 {
        Seq::empty()
    } else {
        requests[0].waiting + found(requests.skip(1))
    }
}

/// The commands that the runner handles in `actions`, in order.
pub open spec fn handled<C>(actions: Seq<CallbackAction<C>>) -> Seq<C>
    decreases actions.len(),
{
    if actions.len() == 0 {
        Seq::empty()
    } else {
        let rest = handled(actions.skip(1));
        match actions[0] {
            CallbackAction::Handle(command) => seq![command] + rest,
            CallbackAction::Run { .. } => rest,
        }
    }
}

/// The audio callback lets the runner handle all pending commands, in order, and then run once,
/// over interleaved samples.
pub proof fn law_commands_are_handled_before_the_run<C>(
    commands: Seq<C>,
    later: Seq<Option<C>>,
    samples: usize,
    channels: usize,
)
    requires
        channels > 0,
    ensures
        callback_actions(polls_of(commands) + later, samples, channels) == commands.map_values(
            |command: C| CallbackAction::Handle(command),
        ).push(CallbackAction::Run { layout: Layout::Interleaved, frames: samples / channels }),
    decreases commands.len(),
{
    let polls = polls_of(commands) + later;
    let run = CallbackAction::<C>::Run { layout: Layout::Interleaved, frames: samples / channels };
    let handled = commands.map_values(|command: C| CallbackAction::Handle(command));
    if commands.len() == 0 {
        assert(polls[0] == None::<C>);
        assert(seq![run] =~= handled.push(run));
    } else {
        law_commands_are_handled_before_the_run(commands.skip(1), later, samples, channels);
        assert(polls[0] == Some(commands[0]));
        assert(polls.skip(1) =~= polls_of(commands.skip(1)) + later);
        assert(seq![CallbackAction::Handle(commands[0])] + commands.skip(1).map_values(
            |command: C| CallbackAction::Handle(command),
        ).push(run) =~= handled.push(run));
    }
}

impl<T> UpdateSender<T> {
    /// Sends an update, or drops it where the ring is full; tells whether it was sent.
    ///
    /// A ring that is known to have room always takes the update. Past that, whether there is room
    /// depends on how far the update thread has come.
    pub fn send(&mut self, update: T) -> (r: bool)
        ensures
            pushed(*old(self), *final(self), update, r),
    {
        match ring_push(self, update) {
            Ok(()) => true,
            Err(_) => false,
        }
    }
}

/// Where the update thread stands.
#[derive(Debug, Clone, Copy, PartialEq, Eq, Structural)]
pub enum UpdateThread {
    /// It is about to deliver updates.
    Checking,
    /// It has delivered all updates that were there.
    Delivered,
    /// It ends.
    Finished,
}

/// What the update thread does next.
#[derive(Debug, Clone, Copy, PartialEq, Eq, Structural)]
pub enum UpdateThreadAction {
    /// Collect the updates that are there and deliver them to the listeners.
    Deliver,
    /// Park until woken by the audio callback, by a stop, or to end.
    Park,
    /// Look again whether to go on.
    Recheck,
    /// End.
    Finish,
}

impl UpdateThread {
    /// Where the thread stands after looking whether it is to go on, and what it does.
    pub open spec fn after(self, alive: bool) -> (UpdateThread, UpdateThreadAction) {
        match (self, alive) {
            (UpdateThread::Checking, true) => (UpdateThread::Delivered, UpdateThreadAction::Deliver),
            (UpdateThread::Delivered, true) => (UpdateThread::Checking, UpdateThreadAction::Park),
            (UpdateThread::Delivered, false) => (
                UpdateThread::Checking,
                UpdateThreadAction::Recheck,
            ),
            (_, _) => (UpdateThread::Finished, UpdateThreadAction::Finish),
        }
    }

    /// Decides what the thread does after looking whether it is to go on.
    pub fn next(self, alive: bool) -> (r: (UpdateThread, UpdateThreadAction))
        ensures
            r == self.after(alive),
    {
        match self {
            UpdateThread::Checking => {
                if alive {
                    (UpdateThread::Delivered, UpdateThreadAction::Deliver)
                } else {
                    (UpdateThread::Finished, UpdateThreadAction::Finish)
                }
            },
            UpdateThread::Delivered => {
                if alive {
                    (UpdateThread::Checking, UpdateThreadAction::Park)
                } else {
                    (UpdateThread::Checking, UpdateThreadAction::Recheck)
                }
            },
            UpdateThread::Finished => (UpdateThread::Finished, UpdateThreadAction::Finish),
        }
    }
}

/// While the loop lives, the update thread delivers, parks, and delivers again when it is woken.
pub proof fn law_update_thread_delivers_when_woken()
    ensures
        UpdateThread::Checking.after(true).1 is Deliver,
        UpdateThread::Checking.after(true).0.after(true).1 is Park,
        UpdateThread::Checking.after(true).0.after(true).0 is Checking,
{
}

/// Once the loop ends, the update thread ends too, wherever it stands: it does not park again,
/// and at the second look at the latest it is finished.
pub proof fn law_update_thread_ends(thread: UpdateThread)
    ensures
        !(thread.after(false).1 is Park),
        !(thread.after(false).1 is Deliver),
        thread.after(false).0.after(false) == (UpdateThread::Finished, UpdateThreadAction::Finish),
{
}

/// The stream thread forwards each command that it receives, as it is, and waits for the next
/// message; it ends when it is told to stop, and when nobody is left to tell it anything.
pub proof fn law_stream_thread_forwards_what_it_receives<C>(command: C)
    ensures
        StreamThread::Forwarding.after(
            StreamThreadEvent::Received(Some(StreamThreadMessage::Command(command))),
        ) == (StreamThread::Forwarding, StreamThreadAction::Forward(command)),
        StreamThread::Forwarding.after(
            StreamThreadEvent::<C>::Received(Some(StreamThreadMessage::Stop)),
        ) == (StreamThread::Finished, StreamThreadAction::<C>::Finish),
        StreamThread::Forwarding.after(StreamThreadEvent::<C>::Received(None)) == (
            StreamThread::Finished,
            StreamThreadAction::<C>::Finish,
        ),
{
}

/// The stream thread takes whatever its work comes to: building, starting and waiting each have
/// the events that they can end with, and a thread that has ended has none.
pub proof fn law_stream_thread_expects_what_its_work_comes_to<C>(
    built: Result<(), String>,
    played: Result<(), String>,
    received: Option<StreamThreadMessage<C>>,
    thread: StreamThread,
)
    ensures
        thread.expects(StreamThreadEvent::<C>::Built(built)) <==> thread is Building,
        thread.expects(StreamThreadEvent::<C>::Played(played)) <==> thread is Starting,
        thread.expects(StreamThreadEvent::Received(received)) <==> thread is Forwarding,
{
}

/// The audio callback hands on a command that it finds, as it is. Where it finds none, the runner
/// gets interleaved samples, and as many frames as are whole.
pub proof fn law_callback_counts_whole_frames<C>(command: C, samples: usize, channels: usize)
    requires
        channels > 0,
    ensures
        callback_action(Some(command), samples, channels) == CallbackAction::Handle(command),
        callback_action(None::<C>, samples, channels) matches CallbackAction::Run { layout, frames }
            && layout is Interleaved && frames * channels <= samples && samples < (frames + 1)
            * channels,
{
    vstd::arithmetic::div_mod::lemma_fundamental_div_mod(samples as int, channels as int);
    let frames = samples as int / channels as int;
    assert(channels * frames == frames * channels) by (nonlinear_arith);
    assert((frames + 1) * channels == frames * channels + channels) by (nonlinear_arith);
}

/// The update thread ends at once when it looks whether to go on before a delivery and is not to;
/// after a delivery it looks again. Once it has ended it does nothing more.
pub proof fn law_update_thread_looks_before_it_delivers(alive: bool)
    ensures
        UpdateThread::Checking.after(true) == (UpdateThread::Delivered, UpdateThreadAction::Deliver),
        UpdateThread::Checking.after(false) == (UpdateThread::Finished, UpdateThreadAction::Finish),
        UpdateThread::Delivered.after(true) == (UpdateThread::Checking, UpdateThreadAction::Park),
        UpdateThread::Delivered.after(false) == (
            UpdateThread::Checking,
            UpdateThreadAction::Recheck,
        ),
        UpdateThread::Finished.after(alive) == (UpdateThread::Finished, UpdateThreadAction::Finish),
{
}

} // verus!
