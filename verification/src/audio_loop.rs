//! An audio loop that can be started and stopped, and that listeners can be attached to.
use crate::channel::{CommandSender, Sending, StreamThreadMessage};
use crate::control::{
    fresh_ring, stop_signalled, AudioLoopStartError, CommandError, FailedStart, StartDecision,
    StopDecision, StopWork, StreamControl, StreamFailure, StreamState,
};
use crate::device::StreamConfig;
use crate::ring::{advanced, drained, newly_taken, ring_fits, UpdateReceiver, UpdateSender};
use crate::subscription::{
    accepts_updates, is_order_of, rounds, Delivery, Subscription, SubscriptionMap,
};
use vstd::prelude::*;

verus! {

/// A stream thread that was started: the sender that reaches it, the thread, and its report on
/// the stream. `None` stands for a thread that ended without a report.
#[verifier::reject_recursive_types(C)]
pub struct Launch<C, H> {
    pub sender: CommandSender<C>,
    pub thread: H,
    pub report: Option<Result<(), StreamFailure>>,
}

/// What a start comes to that found the loop stopped, `before`, and started a stream thread: the
/// loop runs if the stream plays. A new ring is in place in any case.
pub open spec fn start_outcome<C, U, H>(
    before: StreamState<C, U, H>,
    config: StreamConfig,
    updates: UpdateSender<U>,
    launched: Launch<C, H>,
    after: StreamState<C, U, H>,
    result: Result<(), FailedStart<H>>,
) -> bool {
    &&& after.receiver matches Some(receiver)
    &&& fresh_ring(updates, receiver, before.capacity)
    &&& match launched.report {
        Some(Ok(())) => {
            &&& result is Ok
            &&& after == before.prepared(receiver).playing().started(
                config,
                launched.sender,
                launched.thread,
            )
        },
        Some(Err(failure)) => {
            &&& result == Err::<(), FailedStart<H>>(
                FailedStart { error: failure.as_error(), join: Some(launched.thread) },
            )
            &&& after == before.prepared(receiver).failed()
        },
        None => {
            &&& result matches Err(failed)
            &&& failed.error matches AudioLoopStartError::BuildStream(cause)
            &&& cause@ == "Stream thread died"@
            &&& failed.join is None
            &&& after == before.prepared(receiver).failed()
        },
    }
}

/// Whether `log` grew to `after` by the delivery of `updates` to all of `callbacks`.
pub open spec fn delivered<U, F>(
    log: Seq<Delivery<U, F>>,
    updates: Seq<U>,
    callbacks: Map<u64, F>,
    after: Seq<Delivery<U, F>>,
) -> bool {
    exists|order: Seq<u64>| #[trigger]
        is_order_of(order, callbacks) && after == log + rounds(updates, order, callbacks)
}

/// Whether every callback of `before` was called with each of `updates`, once and in order, and is
/// as it was otherwise.
pub open spec fn all_heard<U, F: FnMut(&U)>(
    before: SubscriptionMap<U, F>,
    updates: Seq<U>,
    after: SubscriptionMap<U, F>,
) -> bool {
    forall|key: u64| #[trigger]
        before.callbacks().contains_key(key) ==> after.heard(key) == before.heard(key) + updates
}

/// A handle to an audio loop that can be started and stopped.
///
/// The audio stream is made by a start and given up by a stop. Subscriptions persist across
/// start/stop cycles.
///
/// The two parts do not touch each other. Threads that share a loop put each part behind a lock
/// of its own, so that a listener may use everything but the subscriptions.
#[verifier::reject_recursive_types(C)]
#[verifier::reject_recursive_types(U)]
pub struct AudioLoopHandle<C, U, F, H> {
    /// The stream.
    pub control: StreamControl<C, U, H>,
    /// The listeners.
    pub subscribers: SubscriptionMap<U, F>,
}

impl<C, U, F: FnMut(&U), H> AudioLoopHandle<C, U, F, H> {
    /// Both parts keep what they have to keep, and no start or stop is under way.
    pub open spec fn wf(self) -> bool {
        &&& self.control@.wf()
        &&& self.control@.settled()
        &&& self.subscribers.wf()
    }

    /// Create a new inactive audio loop handle.
    ///
    /// `update_buffer_capacity` is the maximum number of updates that can be buffered.
    pub fn new(update_buffer_capacity: usize) -> (r: Self)
        requires
            ring_fits::<U>(update_buffer_capacity as nat),
        ensures
            r.wf(),
            r.control@ == StreamState::<C, U, H>::fresh(update_buffer_capacity as nat),
            r.subscribers.callbacks() == Map::<u64, F>::empty(),
            r.subscribers.next_key() == 0,
            r.subscribers.log().len() == 0,
    {
        AudioLoopHandle {
            control: StreamControl::new(update_buffer_capacity),
            subscribers: SubscriptionMap::new(),
        }
    }

    /// Start the audio loop with the given configuration.
    ///
    /// `launch` is called unless the loop is running already. It is given the sender for updates,
    /// starts the stream thread, and waits for its report.
    pub fn start<L: FnOnce(UpdateSender<U>) -> Launch<C, H>>(
        &mut self,
        config: StreamConfig,
        launch: L,
    ) -> (r: Result<(), FailedStart<H>>)
        requires
            old(self).wf(),
            !old(self).control@.active ==> forall|updates: UpdateSender<U>| #[trigger]
                call_requires(launch, (updates,)),
        ensures
            final(self).wf(),
            final(self).subscribers == old(self).subscribers,
            r is Ok ==> {
                &&& !old(self).control@.active
                &&& final(self).control@.active
                &&& final(self).control@.config == Some(config)
            },
            r is Err ==> {
                &&& final(self).control@.active == old(self).control@.active
                &&& final(self).control@.config == old(self).control@.config
                &&& final(self).control@.sender == old(self).control@.sender
                &&& final(self).control@.thread == old(self).control@.thread
            },
            if old(self).control@.active {
                &&& r == Err::<(), FailedStart<H>>(
                    FailedStart { error: AudioLoopStartError::AlreadyRunning, join: None },
                )
                &&& final(self).control@ == old(self).control@
            } else {
                exists|updates: UpdateSender<U>, launched: Launch<C, H>| #[trigger]
                    call_ensures(launch, (updates,), launched) && start_outcome(
                        old(self).control@,
                        config,
                        updates,
                        launched,
                        final(self).control@,
                        r,
                    )
            },
    {
        match self.control.prepare_start() {
            Err(error) => Err(FailedStart { error, join: None }),
            Ok(StartDecision::Wait) => vstd::pervasive::unreached(),
            Ok(StartDecision::Begin(updates)) => {
                let launched = launch(updates);
                if let Some(Ok(())) = &launched.report {
                    self.control.stream_playing();
                }
                let ghost reported = launched;
                let outcome = self.control.finish_start(
                    config,
                    launched.sender,
                    launched.thread,
                    launched.report,
                );
                assert(start_outcome(
                    old(self).control@,
                    config,
                    updates,
                    reported,
                    self.control@,
                    outcome,
                ));
                outcome
            },
        }
    }

    /// Stop the audio loop.
    ///
    /// `join` is called if the loop is running, with the stream thread to wait for; the stop
    /// message has been sent by then. It may return the writing end of the ring, as the stream
    /// thread left it. The updates that are left are delivered after that: with the writing end
    /// returned, all that the ring ever accepted have been delivered.
    /// Subscribers are preserved and will continue receiving updates when the loop is started
    /// again.
    ///
    /// Returns `true` if the loop was running and is now stopped, `false` if already stopped.
    pub fn stop<J: FnOnce(StopWork<C, H>) -> Option<UpdateSender<U>>>(&mut self, join: J) -> (r:
        bool)
        requires
            old(self).wf(),
            old(self).control@.active ==> forall|work: StopWork<C, H>| #[trigger]
                call_requires(join, (work,)),
        ensures
            final(self).wf(),
            final(self).subscribers.callbacks() == old(self).subscribers.callbacks(),
            final(self).subscribers.next_key() == old(self).subscribers.next_key(),
            r == old(self).control@.active,
            if old(self).control@.active {
                &&& final(self).control@ == old(self).control@.halted().stopped()
                &&& old(self).control@.receiver matches Some(before)
                &&& exists|
                    work: StopWork<C, H>,
                    returned: Option<UpdateSender<U>>,
                    after: UpdateReceiver<U>,
                |
                    {
                        &&& #[trigger] call_ensures(join, (work,), returned)
                        &&& stop_signalled(old(self).control@.sender, work.sender)
                        &&& work.thread == old(self).control@.thread
                        &&& #[trigger] drained(before, returned, after)
                        &&& delivered(
                            old(self).subscribers.log(),
                            newly_taken(before, after),
                            old(self).subscribers.callbacks(),
                            final(self).subscribers.log(),
                        )
                        &&& all_heard(
                            old(self).subscribers,
                            newly_taken(before, after),
                            final(self).subscribers,
                        )
                    }
            } else {
                &&& final(self).control@ == old(self).control@
                &&& final(self).subscribers == old(self).subscribers
            },
    {
        match self.control.begin_stop() {
            StopDecision::NotRunning => false,
            StopDecision::Wait => vstd::pervasive::unreached(),
            StopDecision::Begin(work) => {
                let returned = join(work);
                let mut updates: Vec<U> = Vec::new();
                self.control.finish_stop(returned, &mut updates);
                let ghost left = updates@;
                proof {
                    let before = old(self).control@.receiver.unwrap();
                    let after = choose|after: UpdateReceiver<U>| #[trigger]
                        drained(before, returned, after) && left == Seq::<U>::empty()
                            + newly_taken(before, after);
                    assert(left =~= newly_taken(before, after));
                }
                self.subscribers.dispatch(&mut updates);
                true
            },
        }
    }

    /// Ends the audio loop: what dropping the last handle to it does.
    ///
    /// The stream is given up first. `join` is called with the stream thread to wait for; the stop
    /// message has been sent by then. The update thread is told to end after that, and
    /// `join_updates` is called to wait for it, with the state that it looks at and with what
    /// `join` returned. No listener is called.
    pub fn end<T, J: FnOnce(StopWork<C, H>) -> T, K: FnOnce(StreamControl<C, U, H>, T)>(
        self,
        join: J,
        join_updates: K,
    )
        requires
            self.wf(),
            forall|work: StopWork<C, H>| #[trigger] call_requires(join, (work,)),
            forall|control: StreamControl<C, U, H>, joined: T| #[trigger]
                call_requires(join_updates, (control, joined)),
        ensures
            exists|work: StopWork<C, H>, joined: T, control: StreamControl<C, U, H>|
                {
                    &&& #[trigger] call_ensures(join, (work,), joined)
                    &&& stop_signalled(self.control@.sender, work.sender)
                    &&& work.thread == self.control@.thread
                    &&& #[trigger] call_ensures(join_updates, (control, joined), ())
                    &&& control@ == self.control@.halted().ended()
                },
    {
        let mut control = self.control;
        let work = control.halt();
        let joined = join(work);
        control.end_updates();
        join_updates(control, joined);
    }

    /// Check if the audio loop is currently running.
    pub fn is_running(&self) -> (r: bool)
        ensures
            r == self.control@.active,
    {
        self.control.is_running()
    }

    /// Get the sample rate if the loop is running.
    pub fn sample_rate(&self) -> (r: Option<u32>)
        ensures
            self.wf() ==> (r is Some <==> self.control@.active),
            r == match self.control@.config {
                Some(config) => Some(config.sample_rate),
                None => None,
            },
    {
        self.control.sample_rate()
    }

    /// Get the channel count if the loop is running.
    pub fn channel_count(&self) -> (r: Option<usize>)
        ensures
            self.wf() ==> (r is Some <==> self.control@.active),
            r == match self.control@.config {
                Some(config) => Some(config.channels as usize),
                None => None,
            },
    {
        self.control.channel_count()
    }

    /// Send a command to the runner in the audio loop.
    ///
    /// Returns an error if the loop is not running or if the send fails.
    pub fn send_command(&mut self, command: C) -> (r: Result<(), CommandError<C>>)
        requires
            old(self).wf(),
        ensures
            final(self).wf(),
            final(self).subscribers == old(self).subscribers,
            final(self).control@ == (StreamState {
                sender: final(self).control@.sender,
                ..old(self).control@
            }),
            match old(self).control@.sender {
                None => {
                    &&& r == Err::<(), CommandError<C>>(CommandError::NotRunning(command))
                    &&& final(self).control@.sender is None
                },
                Some(sender) => {
                    &&& final(self).control@.sender matches Some(used)
                    &&& used.log() == sender.log().push(
                        Sending {
                            message: StreamThreadMessage::Command(command),
                            accepted: r is Ok,
                        },
                    )
                    &&& r is Err ==> r == Err::<(), CommandError<C>>(
                        CommandError::SendFailed(command),
                    )
                },
            },
    {
        self.control.send_command(command)
    }

    /// Register a listener for updates coming from the audio loop.
    pub fn subscribe(&mut self, callback: F) -> (r: Subscription)
        requires
            old(self).wf(),
            old(self).subscribers.next_key() < u64::MAX,
            accepts_updates::<U, F>(callback),
        ensures
            final(self).wf(),
            final(self).control == old(self).control,
            r.key() == old(self).subscribers.next_key(),
            !old(self).subscribers.callbacks().contains_key(r.key()),
            final(self).subscribers.callbacks() == old(self).subscribers.callbacks().insert(
                r.key(),
                callback,
            ),
            final(self).subscribers.next_key() == old(self).subscribers.next_key() + 1,
            final(self).subscribers.log() == old(self).subscribers.log(),
            final(self).subscribers.heard(r.key()) == Seq::<U>::empty(),
            forall|other: u64| #[trigger]
                old(self).subscribers.callbacks().contains_key(other)
                    ==> final(self).subscribers.heard(other) == old(self).subscribers.heard(other),
    {
        self.subscribers.subscribe(callback)
    }

    /// Unregister a listener for updates coming from the audio loop.
    pub fn unsubscribe(&mut self, subscription: Subscription) -> (r: bool)
        requires
            old(self).wf(),
        ensures
            final(self).wf(),
            final(self).control == old(self).control,
            r == old(self).subscribers.callbacks().contains_key(subscription.key()),
            final(self).subscribers.callbacks() == old(self).subscribers.callbacks().remove(
                subscription.key(),
            ),
            final(self).subscribers.next_key() == old(self).subscribers.next_key(),
            final(self).subscribers.log() == old(self).subscribers.log(),
            forall|other: u64| #[trigger]
                final(self).subscribers.callbacks().contains_key(other)
                    ==> final(self).subscribers.heard(other) == old(self).subscribers.heard(other),
    {
        self.subscribers.unsubscribe(subscription)
    }

    /// Delivers the updates that are there to every listener: what the update thread does each
    /// time it is woken.
    pub fn deliver_updates(&mut self)
        requires
            old(self).wf(),
        ensures
            final(self).wf(),
            final(self).control@ == (StreamState {
                receiver: final(self).control@.receiver,
                ..old(self).control@
            }),
            final(self).subscribers.callbacks() == old(self).subscribers.callbacks(),
            final(self).subscribers.next_key() == old(self).subscribers.next_key(),
            match old(self).control@.receiver {
                None => {
                    &&& final(self).control@.receiver is None
                    &&& final(self).subscribers.log() == old(self).subscribers.log()
                },
                Some(before) => {
                    &&& final(self).control@.receiver matches Some(after)
                    &&& advanced(before, after)
                    &&& delivered(
                        old(self).subscribers.log(),
                        newly_taken(before, after),
                        old(self).subscribers.callbacks(),
                        final(self).subscribers.log(),
                    )
                    &&& all_heard(
                        old(self).subscribers,
                        newly_taken(before, after),
                        final(self).subscribers,
                    )
                },
            },
    {
        let mut updates: Vec<U> = Vec::new();
        self.control.collect_updates(&mut updates);
        let ghost fresh = updates@;
        proof {
            match old(self).control@.receiver {
                None => {},
                Some(before) => {
                    let after = self.control@.receiver.unwrap();
                    assert(fresh =~= newly_taken(before, after));
                },
            }
        }
        self.subscribers.dispatch(&mut updates);
        proof {
            if old(self).control@.receiver is None {
                let order = choose|order: Seq<u64>| #[trigger]
                    is_order_of(order, old(self).subscribers.callbacks())
                        && self.subscribers.log() == old(self).subscribers.log() + rounds(
                        fresh,
                        order,
                        old(self).subscribers.callbacks(),
                    );
                assert(rounds(fresh, order, old(self).subscribers.callbacks()) =~= Seq::empty());
                assert(self.subscribers.log() =~= old(self).subscribers.log());
            }
        }
    }
}

/// A loop that is started and stopped again is as before, but for the ring of an earlier start
/// that failed; and while it ran it told its configuration.
pub proof fn law_stop_undoes_start<C, U, H>(
    before: StreamState<C, U, H>,
    receiver: UpdateReceiver<U>,
    config: StreamConfig,
    sender: CommandSender<C>,
    thread: H,
)
    requires
        before.settled(),
        !before.active,
    ensures
        ({
            let running = before.prepared(receiver).playing().started(config, sender, thread);
            &&& running.active
            &&& running.config == Some(config)
            &&& running.settled()
            &&& running.halted().stopped() == (StreamState { receiver: None, ..before })
            &&& running.halted().stopped().settled()
        }),
{
}

/// A loop is settled from the beginning, and whatever its methods do to it, it is settled again:
/// it has a configuration to tell and a sender for commands exactly while it is running. A start
/// that fails leaves it stopped.
pub proof fn law_loop_stays_settled<C, U, H>(
    before: StreamState<C, U, H>,
    receiver: UpdateReceiver<U>,
    config: StreamConfig,
    sender: CommandSender<C>,
    thread: H,
    capacity: nat,
)
    requires
        before.settled(),
    ensures
        StreamState::<C, U, H>::fresh(capacity).settled(),
        before.prepared(receiver).failed().settled(),
        before.prepared(receiver).failed().active == before.active,
        before.prepared(receiver).playing().started(config, sender, thread).settled(),
        before.halted().stopped().settled(),
        !before.halted().stopped().active,
        before.sender is Some ==> (StreamState { sender: Some(sender), ..before }).settled(),
        before.receiver is Some ==> (StreamState { receiver: Some(receiver), ..before }).settled(),
{
}

/// A loop that was started runs with the configuration, the sender and the thread of that start,
/// and nothing else about it has changed but the ring.
pub proof fn law_started_loop_has_what_it_was_started_with<C, U, H>(
    before: StreamState<C, U, H>,
    config: StreamConfig,
    updates: UpdateSender<U>,
    launched: Launch<C, H>,
    after: StreamState<C, U, H>,
    result: Result<(), FailedStart<H>>,
)
    requires
        before.settled(),
        !before.active,
        start_outcome(before, config, updates, launched, after, result),
    ensures
        result is Ok <==> launched.report is Some && launched.report->0 is Ok,
        result is Ok <==> after.active,
        result is Ok ==> {
            &&& after.config == Some(config)
            &&& after.sender == Some(launched.sender)
            &&& after.thread == Some(launched.thread)
        },
        result is Err ==> after.config is None && after.sender is None && after.thread is None,
        !after.starting,
        !after.stopping,
        after.alive == before.alive,
        after.capacity == before.capacity,
        after.receiver matches Some(receiver) && receiver.ring() == updates.ring()
            && receiver.taken().len() == 0 && updates.accepted().len() == 0 && updates.capacity()
            == before.capacity,
{
}

/// A start that fails tells why, in the words of the stream thread, and has its thread joined; a
/// stream thread that ends without a report counts as a stream that could not be built.
pub proof fn law_failed_start_tells_why<C, U, H>(
    before: StreamState<C, U, H>,
    config: StreamConfig,
    updates: UpdateSender<U>,
    launched: Launch<C, H>,
    after: StreamState<C, U, H>,
    failed: FailedStart<H>,
)
    requires
        start_outcome(before, config, updates, launched, after, Err(failed)),
    ensures
        launched.report matches Some(Err(StreamFailure::Build(cause))) ==> failed.error
            == AudioLoopStartError::BuildStream(cause) && failed.join == Some(launched.thread),
        launched.report matches Some(Err(StreamFailure::Play(cause))) ==> failed.error
            == AudioLoopStartError::PlayStream(cause) && failed.join == Some(launched.thread),
        launched.report is None ==> failed.join is None && (
        failed.error matches AudioLoopStartError::BuildStream(cause) && cause@
            == "Stream thread died"@),
        !(failed.error is AlreadyRunning),
{
}

} // verus!
