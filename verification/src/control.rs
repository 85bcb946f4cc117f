//! The state of an audio loop's stream, and the decisions on it.
//!
//! Starting and stopping a stream alternate decisions with work on other threads. A decision is a
//! method here: it changes the state and says what to do next.
use crate::channel::{channel_send, CommandSender, Sending, StreamThreadMessage};
use crate::device::StreamConfig;
use crate::ring::{
    advanced, compared, drained, newly_taken, ring_fits, ring_new, ring_read, ring_same,
    UpdateReceiver, UpdateSender,
};
use vstd::prelude::*;

verus! {

/// An error that can occur when starting the audio loop.
#[derive(Debug)]
pub enum AudioLoopStartError {
    AlreadyRunning,
    BuildStream(String),
    PlayStream(String),
}

impl AudioLoopStartError {
    /// The error in words.
    pub fn message(&self) -> (r: String)
        ensures
            r@ == match *self {
                AudioLoopStartError::AlreadyRunning => "Audio loop is already running"@,
                AudioLoopStartError::BuildStream(cause) => "Failed to build audio stream: "@
                    + cause@,
                AudioLoopStartError::PlayStream(cause) => "Failed to start audio stream: "@
                    + cause@,
            },
    {
        match self {
            AudioLoopStartError::AlreadyRunning => "Audio loop is already running".to_owned(),
            AudioLoopStartError::BuildStream(cause) => {
                "Failed to build audio stream: ".to_owned().concat(cause.as_str())
            },
            AudioLoopStartError::PlayStream(cause) => {
                "Failed to start audio stream: ".to_owned().concat(cause.as_str())
            },
        }
    }
}

/// Why a stream thread could not start its stream.
#[derive(Debug)]
pub enum StreamFailure {
    /// The stream could not be built.
    Build(String),
    /// The stream could not be played.
    Play(String),
}

impl StreamFailure {
    /// The error of a start that failed for this reason.
    pub open spec fn as_error(self) -> AudioLoopStartError {
        match self {
            StreamFailure::Build(cause) => AudioLoopStartError::BuildStream(cause),
            StreamFailure::Play(cause) => AudioLoopStartError::PlayStream(cause),
        }
    }

    /// The error of a start that failed for this reason.
    pub fn into_error(self) -> (r: AudioLoopStartError)
        ensures
            r == self.as_error(),
    {
        match self {
            StreamFailure::Build(cause) => AudioLoopStartError::BuildStream(cause),
            StreamFailure::Play(cause) => AudioLoopStartError::PlayStream(cause),
        }
    }
}

/// An error that can occur when sending a command; it hands the command back.
#[derive(Debug)]
pub enum CommandError<C> {
    NotRunning(C),
    SendFailed(C),
}

impl<C> CommandError<C> {
    /// The error in words.
    pub fn message(&self) -> (r: String)
        ensures
            r@ == match *self {
                CommandError::NotRunning(_) => "Audio loop is not running"@,
                CommandError::SendFailed(_) => "Failed to send command"@,
            },
    {
        match self {
            CommandError::NotRunning(_) => "Audio loop is not running".to_owned(),
            CommandError::SendFailed(_) => "Failed to send command".to_owned(),
        }
    }
}

/// A start that failed: the error, and the stream thread where it has to be joined first.
pub struct FailedStart<H> {
    pub error: AudioLoopStartError,
    pub join: Option<H>,
}

/// What is left to do for a stream that ends: the sender, once the stop message went through it,
/// and the stream thread to join.
#[verifier::reject_recursive_types(C)]
pub struct StopWork<C, H> {
    pub sender: Option<CommandSender<C>>,
    pub thread: Option<H>,
}

/// What becomes of a start that is not refused.
#[verifier::reject_recursive_types(U)]
pub enum StartDecision<U> {
    /// It begins: the writing end of a new ring, for the stream thread.
    Begin(UpdateSender<U>),
    /// Another start or a stop is under way: ask again once it is over.
    Wait,
}

/// What becomes of a stop.
#[verifier::reject_recursive_types(C)]
pub enum StopDecision<C, H> {
    /// It begins: what is left to do for the stream.
    Begin(StopWork<C, H>),
    /// A start is under way whose stream plays already: ask again once it is over.
    Wait,
    /// There is nothing to stop.
    NotRunning,
}

/// The state of a stream: what [`StreamControl`] keeps.
#[verifier::reject_recursive_types(C)]
#[verifier::reject_recursive_types(U)]
pub struct StreamState<C, U, H> {
    /// Whether the audio stream is currently running.
    pub active: bool,
    /// Whether a start is under way.
    pub starting: bool,
    /// Whether a stop is under way.
    pub stopping: bool,
    /// Whether the update thread is to go on.
    pub alive: bool,
    /// The sender to the stream thread, while there is one.
    pub sender: Option<CommandSender<C>>,
    /// The stream thread, while there is one.
    pub thread: Option<H>,
    /// The ring that updates are received from, once a start made one.
    pub receiver: Option<UpdateReceiver<U>>,
    /// The configuration of the running stream.
    pub config: Option<StreamConfig>,
    /// How many updates a ring is made for.
    pub capacity: nat,
}

impl<C, U, H> StreamState<C, U, H> {
    /// The state of a loop that was never started.
    pub open spec fn fresh(capacity: nat) -> Self {
        StreamState {
            active: false,
            starting: false,
            stopping: false,
            alive: true,
            sender: None,
            thread: None,
            receiver: None,
            config: None,
            capacity,
        }
    }

    /// What always holds: rings can be made, and the one that is there was made for `capacity`
    /// updates; and starts and stops are kept apart.
    pub open spec fn wf(self) -> bool {
        &&& ring_fits::<U>(self.capacity)
        &&& self.receiver matches Some(receiver) ==> receiver.capacity() == self.capacity
        &&& self.coherent()
    }

    /// While a start is under way there is a ring, and no stream is stored yet. While a stop is
    /// under way, the stream is given up. At other times the stream is settled.
    pub open spec fn coherent(self) -> bool {
        if self.starting {
            &&& !self.stopping
            &&& self.config is None
            &&& self.sender is None
            &&& self.thread is None
            &&& self.receiver is Some
        } else if self.stopping {
            &&& !self.active
            &&& self.sender is None
            &&& self.thread is None
        } else {
            self.settled()
        }
    }

    /// No start or stop is under way: the stream has a configuration, a sender, a thread and a
    /// ring if it runs, and none but perhaps the ring of a failed start if it does not.
    pub open spec fn settled(self) -> bool {
        &&& !self.starting
        &&& !self.stopping
        &&& self.config is Some <==> self.active
        &&& self.sender is Some <==> self.active
        &&& self.thread is Some <==> self.active
        &&& self.active ==> self.receiver is Some
    }

    /// Whether a start or a stop is under way.
    pub open spec fn busy(self) -> bool {
        self.starting || self.stopping
    }

    /// A start is under way, with a new ring in place.
    pub open spec fn prepared(self, receiver: UpdateReceiver<U>) -> Self {
        StreamState { starting: true, receiver: Some(receiver), ..self }
    }

    /// The stream plays.
    pub open spec fn playing(self) -> Self {
        StreamState { active: true, ..self }
    }

    /// The start is complete.
    pub open spec fn started(self, config: StreamConfig, sender: CommandSender<C>, thread: H) -> Self {
        StreamState {
            starting: false,
            config: Some(config),
            sender: Some(sender),
            thread: Some(thread),
            ..self
        }
    }

    /// The start came to nothing.
    pub open spec fn failed(self) -> Self {
        StreamState { starting: false, ..self }
    }

    /// A stop is under way, with the stream given up.
    pub open spec fn halted(self) -> Self {
        StreamState { active: false, stopping: true, sender: None, thread: None, ..self }
    }

    /// The stop is complete.
    pub open spec fn stopped(self) -> Self {
        StreamState { stopping: false, receiver: None, config: None, ..self }
    }

    /// The update thread is told to end.
    pub open spec fn ended(self) -> Self {
        StreamState { alive: false, ..self }
    }
}

/// Whether `after` is `before` with one more message handed to the channel: `Stop`.
pub open spec fn stop_signalled<C>(
    before: Option<CommandSender<C>>,
    after: Option<CommandSender<C>>,
) -> bool {
    match before {
        None => after is None,
        Some(sender) => after matches Some(spent) && exists|accepted: bool|
            spent.log() == #[trigger] sender.log().push(
                Sending { message: StreamThreadMessage::Stop, accepted },
            ),
    }
}

/// Whether the two are the ends of one ring for `capacity` updates, with nothing sent yet.
pub open spec fn fresh_ring<U>(
    updates: UpdateSender<U>,
    receiver: UpdateReceiver<U>,
    capacity: nat,
) -> bool {
    &&& updates.ring() == receiver.ring()
    &&& updates.capacity() == capacity
    &&& receiver.capacity() == capacity
    &&& updates.accepted() == Seq::<U>::empty()
    &&& updates.offered() == Seq::<U>::empty()
    &&& updates.freed() == 0
    &&& receiver.taken() == Seq::<U>::empty()
    &&& receiver.known() == Seq::<U>::empty()
}

/// Sequences that each begin the other are equal.
proof fn lemma_prefix_both_ways<T>(a: Seq<T>, b: Seq<T>)
    requires
        a.is_prefix_of(b),
        b.is_prefix_of(a),
    ensures
        a == b,
{
    assert(b.subrange(0, a.len() as int) =~= b);
}

/// The stream side of an audio loop, with commands of type `C`, updates of type `U`, and threads
/// that are joined through a value of type `H`.
#[verifier::reject_recursive_types(C)]
#[verifier::reject_recursive_types(U)]
pub struct StreamControl<C, U, H> {
    stream_active: bool,
    start_under_way: bool,
    stop_under_way: bool,
    thread_alive: bool,
    command_sender: Option<CommandSender<C>>,
    stream_thread: Option<H>,
    update_receiver: Option<UpdateReceiver<U>>,
    config: Option<StreamConfig>,
    update_buffer_capacity: usize,
}

impl<C, U, H> View for StreamControl<C, U, H> {
    type V = StreamState<C, U, H>;

    closed spec fn view(&self) -> StreamState<C, U, H> {
        StreamState {
            active: self.stream_active,
            starting: self.start_under_way,
            stopping: self.stop_under_way,
            alive: self.thread_alive,
            sender: self.command_sender,
            thread: self.stream_thread,
            receiver: self.update_receiver,
            config: self.config,
            capacity: self.update_buffer_capacity as nat,
        }
    }
}

impl<C, U, H> StreamControl<C, U, H> {
    /// A stream that is not running, whose rings hold `update_buffer_capacity` updates.
    pub fn new(update_buffer_capacity: usize) -> (r: Self)
        requires
            ring_fits::<U>(update_buffer_capacity as nat),
        ensures
            r@ == StreamState::<C, U, H>::fresh(update_buffer_capacity as nat),
            r@.wf(),
    {
        StreamControl {
            stream_active: false,
            start_under_way: false,
            stop_under_way: false,
            thread_alive: true,
            command_sender: None,
            stream_thread: None,
            update_receiver: None,
            config: None,
            update_buffer_capacity,
        }
    }

    /// Begins a start: refuses where the stream is running, has it wait where another start or a
    /// stop is under way, and otherwise puts a new ring in place and hands out its writing end,
    /// for the stream thread.
    pub fn prepare_start(&mut self) -> (r: Result<StartDecision<U>, AudioLoopStartError>)
        requires
            old(self)@.wf(),
        ensures
            final(self)@.wf(),
            match r {
                Err(error) => {
                    &&& old(self)@.active
                    &&& error == AudioLoopStartError::AlreadyRunning
                    &&& final(self)@ == old(self)@
                },
                Ok(StartDecision::Wait) => {
                    &&& !old(self)@.active
                    &&& old(self)@.busy()
                    &&& final(self)@ == old(self)@
                },
                Ok(StartDecision::Begin(updates)) => {
                    &&& !old(self)@.active
                    &&& !old(self)@.busy()
                    &&& final(self)@.receiver matches Some(receiver)
                    &&& final(self)@ == old(self)@.prepared(receiver)
                    &&& fresh_ring(updates, receiver, old(self)@.capacity)
                },
            },
    {
        if self.stream_active {
            return Err(AudioLoopStartError::AlreadyRunning);
        }
        if self.start_under_way || self.stop_under_way {
            return Ok(StartDecision::Wait);
        }
        self.start_under_way = true;
        let (sender, receiver) = ring_new(self.update_buffer_capacity);
        self.update_receiver = Some(receiver);
        Ok(StartDecision::Begin(sender))
    }

    /// Takes note that the stream plays.
    pub fn stream_playing(&mut self)
        requires
            old(self)@.wf(),
            old(self)@.starting,
        ensures
            final(self)@.wf(),
            final(self)@ == old(self)@.playing(),
    {
        self.stream_active = true;
    }

    /// Gives up a start before there is a stream thread.
    pub fn abandon_start(&mut self)
        requires
            old(self)@.wf(),
            old(self)@.starting,
            !old(self)@.active,
        ensures
            final(self)@.wf(),
            final(self)@ == old(self)@.failed(),
    {
        self.start_under_way = false;
    }

    /// Completes a start with what the stream thread reported; `None` stands for a thread that
    /// ended without a report.
    pub fn finish_start(
        &mut self,
        config: StreamConfig,
        sender: CommandSender<C>,
        thread: H,
        report: Option<Result<(), StreamFailure>>,
    ) -> (r: Result<(), FailedStart<H>>)
        requires
            old(self)@.wf(),
            old(self)@.starting,
            old(self)@.active == (report matches Some(Ok(()))),
        ensures
            final(self)@.wf(),
            match report {
                Some(Ok(())) => {
                    &&& r is Ok
                    &&& final(self)@ == old(self)@.started(config, sender, thread)
                },
                Some(Err(failure)) => {
                    &&& r == Err::<(), FailedStart<H>>(
                        FailedStart { error: failure.as_error(), join: Some(thread) },
                    )
                    &&& final(self)@ == old(self)@.failed()
                },
                None => {
                    &&& r matches Err(failed)
                    &&& failed.error matches AudioLoopStartError::BuildStream(cause)
                    &&& cause@ == "Stream thread died"@
                    &&& failed.join is None
                    &&& final(self)@ == old(self)@.failed()
                },
            },
    {
        self.start_under_way = false;
        match report {
            None => Err(
                FailedStart {
                    error: AudioLoopStartError::BuildStream("Stream thread died".to_owned()),
                    join: None,
                },
            ),
            Some(Err(failure)) => Err(
                FailedStart { error: failure.into_error(), join: Some(thread) },
            ),
            Some(Ok(())) => {
                self.config = Some(config);
                self.command_sender = Some(sender);
                self.stream_thread = Some(thread);
                Ok(())
            },
        }
    }

    /// Gives up the stream: sends the stop message where there is a sender, and hands out the
    /// sender and the stream thread.
    pub fn halt(&mut self) -> (r: StopWork<C, H>)
        requires
            old(self)@.wf(),
            !old(self)@.busy(),
        ensures
            final(self)@.wf(),
            final(self)@ == old(self)@.halted(),
            stop_signalled(old(self)@.sender, r.sender),
            r.thread == old(self)@.thread,
    {
        self.stream_active = false;
        self.stop_under_way = true;
        let mut sender = self.command_sender.take();
        if let Some(spent) = &mut sender {
            let _ = channel_send(spent, StreamThreadMessage::Stop);
        }
        StopWork { sender, thread: self.stream_thread.take() }
    }

    /// Begins a stop: gives up the stream where it is running. Has the stop wait where the start
    /// of that stream is not over.
    pub fn begin_stop(&mut self) -> (r: StopDecision<C, H>)
        requires
            old(self)@.wf(),
        ensures
            final(self)@.wf(),
            match r {
                StopDecision::NotRunning => {
                    &&& !old(self)@.active
                    &&& final(self)@ == old(self)@
                },
                StopDecision::Wait => {
                    &&& old(self)@.active
                    &&& old(self)@.starting
                    &&& final(self)@ == old(self)@
                },
                StopDecision::Begin(work) => {
                    &&& old(self)@.active
                    &&& !old(self)@.starting
                    &&& final(self)@ == old(self)@.halted()
                    &&& stop_signalled(old(self)@.sender, work.sender)
                    &&& work.thread == old(self)@.thread
                },
            },
    {
        if !self.stream_active {
            return StopDecision::NotRunning;
        }
        if self.start_under_way {
            return StopDecision::Wait;
        }
        StopDecision::Begin(self.halt())
    }

    /// Completes a stop, once the stream thread has ended: reads the updates that are left, where
    /// there is a ring, and appends them to `updates`; then forgets the ring and the configuration.
    ///
    /// `returned` is the writing end of the ring, where the stream thread handed it back.
    pub fn finish_stop(&mut self, returned: Option<UpdateSender<U>>, updates: &mut Vec<U>)
        requires
            old(self)@.wf(),
            old(self)@.stopping,
        ensures
            final(self)@.wf(),
            final(self)@ == old(self)@.stopped(),
            match old(self)@.receiver {
                None => final(updates)@ == old(updates)@,
                Some(before) => exists|after: UpdateReceiver<U>| #[trigger]
                    drained(before, returned, after) && final(updates)@ == old(updates)@
                        + newly_taken(before, after),
            },
    {
        if let Some(mut receiver) = self.update_receiver.take() {
            let ghost before = receiver;
            let mut writer = returned;
            if let Some(sender) = &mut writer {
                ring_same(sender, &mut receiver);
            }
            let mut chunk = ring_read(&mut receiver);
            let ghost after = receiver;
            assert(chunk@ =~= newly_taken(before, after));
            if let Some(sender) = &mut writer {
                ring_same(sender, &mut receiver);
            }
            proof {
                if returned is Some && returned->0.ring() == before.ring() {
                    lemma_prefix_both_ways(returned->0.accepted(), after.taken());
                }
                assert(drained(before, returned, after));
            }
            updates.append(&mut chunk);
        }
        self.stop_under_way = false;
        self.config = None;
    }

    /// Tells the update thread to end.
    pub fn end_updates(&mut self)
        requires
            old(self)@.wf(),
        ensures
            final(self)@.wf(),
            final(self)@ == old(self)@.ended(),
    {
        self.thread_alive = false;
    }

    /// Whether the update thread is to go on.
    pub fn is_alive(&self) -> (r: bool)
        ensures
            r == self@.alive,
    {
        self.thread_alive
    }

    /// Check if the stream is currently running.
    pub fn is_running(&self) -> (r: bool)
        ensures
            r == self@.active,
    {
        self.stream_active
    }

    /// Get the sample rate if the loop is running.
    pub fn sample_rate(&self) -> (r: Option<u32>)
        ensures
            r == match self@.config {
                Some(config) => Some(config.sample_rate),
                None => None,
            },
    {
        match &self.config {
            Some(config) => Some(config.sample_rate),
            None => None,
        }
    }

    /// Get the channel count if the loop is running.
    pub fn channel_count(&self) -> (r: Option<usize>)
        ensures
            r == match self@.config {
                Some(config) => Some(config.channels as usize),
                None => None,
            },
    {
        match &self.config {
            Some(config) => Some(config.channels as usize),
            None => None,
        }
    }

    /// Send a command to the runner in the audio loop.
    ///
    /// Where there is a stream, whether the send succeeds is up to the stream thread.
    pub fn send_command(&mut self, command: C) -> (r: Result<(), CommandError<C>>)
        requires
            old(self)@.wf(),
        ensures
            final(self)@.wf(),
            final(self)@ == (StreamState { sender: final(self)@.sender, ..old(self)@ }),
            match old(self)@.sender {
                None => {
                    &&& r == Err::<(), CommandError<C>>(CommandError::NotRunning(command))
                    &&& final(self)@.sender is None
                },
                Some(sender) => {
                    &&& final(self)@.sender matches Some(used)
                    &&& used.log() == sender.log().push(
                        Sending {
                            message: StreamThreadMessage::Command(command),
                            accepted: r is Ok,
                        },
                    )
                    &&& r is Err ==> r == Err::<(), CommandError<C>>(
                        CommandError::SendFailed(command),
                    )
                },
            },
    {
        match &mut self.command_sender {
            Some(sender) => send_result(
                channel_send(sender, StreamThreadMessage::Command(command)),
            ),
            None => Err(CommandError::NotRunning(command)),
        }
    }

    /// Reads all available updates, where there is a ring, and appends them to `updates`.
    pub fn collect_updates(&mut self, updates: &mut Vec<U>)
        requires
            old(self)@.wf(),
        ensures
            final(self)@.wf(),
            final(self)@ == (StreamState { receiver: final(self)@.receiver, ..old(self)@ }),
            match old(self)@.receiver {
                None => final(self)@.receiver is None && final(updates)@ == old(updates)@,
                Some(before) => {
                    &&& final(self)@.receiver matches Some(after)
                    &&& advanced(before, after)
                    &&& final(updates)@ == old(updates)@ + newly_taken(before, after)
                },
            },
    {
        if let Some(receiver) = &mut self.update_receiver {
            let ghost before = *receiver;
            let mut chunk = ring_read(receiver);
            assert(chunk@ =~= newly_taken(before, *receiver));
            updates.append(&mut chunk);
        }
    }

    /// Whether what is sent through `updates` is received here. If so, each end knows from now on
    /// what has happened at the other: the next read takes all that was accepted so far, and a
    /// send succeeds if there is room.
    pub fn receives_from(&mut self, updates: &mut UpdateSender<U>) -> (r: bool)
        requires
            old(self)@.wf(),
        ensures
            final(self)@.wf(),
            final(self)@ == (StreamState { receiver: final(self)@.receiver, ..old(self)@ }),
            match old(self)@.receiver {
                None => {
                    &&& !r
                    &&& final(self)@.receiver is None
                    &&& *final(updates) == *old(updates)
                },
                Some(before) => {
                    &&& final(self)@.receiver matches Some(after)
                    &&& r == (old(updates).ring() == before.ring())
                    &&& compared(*old(updates), before, *final(updates), after, r)
                },
            },
    {
        match &mut self.update_receiver {
            Some(receiver) => ring_same(updates, receiver),
            None => false,
        }
    }
}

/// What a command that was handed to the channel comes to: the channel hands it back where the
/// stream thread is gone.
pub fn send_result<C>(reply: Result<(), StreamThreadMessage<C>>) -> (r: Result<
    (),
    CommandError<C>,
>)
    requires
        reply matches Err(back) ==> back is Command,
    ensures
        match reply {
            Ok(()) => r is Ok,
            Err(StreamThreadMessage::Command(command)) => r == Err::<(), CommandError<C>>(
                CommandError::SendFailed(command),
            ),
            Err(StreamThreadMessage::Stop) => false,
        },
{
    match reply {
        Ok(()) => Ok(()),
        Err(StreamThreadMessage::Command(command)) => Err(CommandError::SendFailed(command)),
        Err(StreamThreadMessage::Stop) => vstd::pervasive::unreached(),
    }
}

/// What each stage of a start does to the state, field by field: a start that begins is marked and
/// has a new ring; a stream that plays makes the loop active; a start that succeeds stores the
/// configuration, the sender and the thread that it was given; a start that ends is no longer
/// marked. Nothing else changes.
pub proof fn law_stages_of_a_start<C, U, H>(
    before: StreamState<C, U, H>,
    receiver: UpdateReceiver<U>,
    config: StreamConfig,
    sender: CommandSender<C>,
    thread: H,
)
    ensures
        ({
            let after = before.prepared(receiver);
            &&& after.starting && after.receiver == Some(receiver)
            &&& after.active == before.active && after.stopping == before.stopping
            &&& after.alive == before.alive && after.sender == before.sender
            &&& after.thread == before.thread && after.config == before.config
            &&& after.capacity == before.capacity
        }),
        ({
            let after = before.playing();
            &&& after.active
            &&& after.starting == before.starting && after.stopping == before.stopping
            &&& after.alive == before.alive && after.sender == before.sender
            &&& after.thread == before.thread && after.config == before.config
            &&& after.receiver == before.receiver && after.capacity == before.capacity
        }),
        ({
            let after = before.started(config, sender, thread);
            &&& !after.starting && after.config == Some(config)
            &&& after.sender == Some(sender) && after.thread == Some(thread)
            &&& after.active == before.active && after.stopping == before.stopping
            &&& after.alive == before.alive && after.receiver == before.receiver
            &&& after.capacity == before.capacity
        }),
        ({
            let after = before.failed();
            &&& !after.starting
            &&& after.active == before.active && after.stopping == before.stopping
            &&& after.alive == before.alive && after.sender == before.sender
            &&& after.thread == before.thread && after.config == before.config
            &&& after.receiver == before.receiver && after.capacity == before.capacity
        }),
{
}

/// What each stage of a stop does to the state, field by field: a stop that begins makes the loop
/// inactive, is marked, and gives up the sender and the thread; a stop that ends is no longer
/// marked, and has given up the ring and the configuration. The end of a loop tells the update
/// thread not to go on. Nothing else changes.
pub proof fn law_stages_of_a_stop<C, U, H>(before: StreamState<C, U, H>)
    ensures
        ({
            let after = before.halted();
            &&& !after.active && after.stopping && after.sender is None && after.thread is None
            &&& after.starting == before.starting && after.alive == before.alive
            &&& after.config == before.config && after.receiver == before.receiver
            &&& after.capacity == before.capacity
        }),
        ({
            let after = before.stopped();
            &&& !after.stopping && after.receiver is None && after.config is None
            &&& after.active == before.active && after.starting == before.starting
            &&& after.alive == before.alive && after.sender == before.sender
            &&& after.thread == before.thread && after.capacity == before.capacity
        }),
        ({
            let after = before.ended();
            &&& !after.alive
            &&& after.active == before.active && after.starting == before.starting
            &&& after.stopping == before.stopping && after.sender == before.sender
            &&& after.thread == before.thread && after.config == before.config
            &&& after.receiver == before.receiver && after.capacity == before.capacity
        }),
{
}

/// A new loop is stopped, has nothing, and is to go on; and it has the capacity it was made for.
pub proof fn law_new_loop_has_nothing<C, U, H>(capacity: nat)
    ensures
        ({
            let fresh = StreamState::<C, U, H>::fresh(capacity);
            &&& !fresh.active && !fresh.starting && !fresh.stopping && fresh.alive
            &&& fresh.sender is None && fresh.thread is None
            &&& fresh.receiver is None && fresh.config is None
            &&& fresh.capacity == capacity
        }),
{
}

/// A loop is busy exactly while a start or a stop is marked. A loop that is not busy is settled,
/// which means that it has a configuration, a sender and a thread exactly if it is active, and a
/// ring if it is.
pub proof fn law_loop_is_busy_or_settled<C, U, H>(state: StreamState<C, U, H>)
    ensures
        state.busy() <==> state.starting || state.stopping,
        state.settled() <==> {
            &&& !state.starting && !state.stopping
            &&& (state.config is Some) == state.active
            &&& (state.sender is Some) == state.active
            &&& (state.thread is Some) == state.active
            &&& state.active ==> state.receiver is Some
        },
        state.wf() && !state.busy() ==> state.settled(),
        state.settled() && ring_fits::<U>(state.capacity) && (state.receiver matches Some(receiver)
            ==> receiver.capacity() == state.capacity) ==> state.wf(),
{
}

/// A stop message that is signalled is one more message behind all earlier ones, and it is the stop
/// message. Where there is no sender, none is signalled.
pub proof fn law_stop_is_signalled_last<C>(
    before: Option<CommandSender<C>>,
    after: Option<CommandSender<C>>,
)
    requires
        stop_signalled(before, after),
    ensures
        before is None <==> after is None,
        before matches Some(sender) ==> after matches Some(spent) && {
            &&& spent.log().len() == sender.log().len() + 1
            &&& spent.log().last().message is Stop
            &&& spent.log().drop_last() == sender.log()
        },
{
    if let Some(sender) = before {
        let spent = after.unwrap();
        assert(spent.log().drop_last() =~= sender.log());
    }
}

/// The ends of a new ring belong together, were made for the capacity, and have seen nothing.
pub proof fn law_fresh_ring_is_empty<U>(
    updates: UpdateSender<U>,
    receiver: UpdateReceiver<U>,
    capacity: nat,
)
    requires
        fresh_ring(updates, receiver, capacity),
    ensures
        updates.ring() == receiver.ring(),
        updates.capacity() == capacity,
        receiver.capacity() == capacity,
        updates.accepted().len() == 0,
        updates.offered().len() == 0,
        updates.freed() == 0,
        receiver.taken().len() == 0,
{
}

/// A stream that could not be built or played gives the error that says so, with the same cause.
pub proof fn law_failure_keeps_its_cause(cause: String)
    ensures
        StreamFailure::Build(cause).as_error() == AudioLoopStartError::BuildStream(cause),
        StreamFailure::Play(cause).as_error() == AudioLoopStartError::PlayStream(cause),
{
}

} // verus!
