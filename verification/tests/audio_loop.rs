use audio_loop::audio_loop::{AudioLoopHandle, Launch};
use audio_loop::channel::{CommandSender, StreamThreadMessage};
use audio_loop::control::{
    send_result, AudioLoopStartError, CommandError, FailedStart, StartDecision, StopDecision,
    StopWork, StreamControl, StreamFailure,
};
use audio_loop::device::{BufferSize, StreamConfig};
use audio_loop::ring::UpdateSender;
use audio_loop::subscription::SubscriptionMap;
use std::cell::RefCell;
use std::rc::Rc;
use std::sync::mpsc::{channel, Receiver};

type Listener = Box<dyn FnMut(&u64)>;
type Handle = AudioLoopHandle<u32, u64, Listener, &'static str>;
type Log = Rc<RefCell<Vec<u64>>>;

fn config() -> StreamConfig {
    StreamConfig { channels: 2, sample_rate: 48000, buffer_size: BufferSize::Fixed(256) }
}

fn listener(log: &Log) -> Listener {
    let log = Rc::clone(log);
    Box::new(move |update| log.borrow_mut().push(*update))
}

fn start(handle: &mut Handle) -> (UpdateSender<u64>, Receiver<StreamThreadMessage<u32>>) {
    let (tx, rx) = channel();
    let mut updates = None;
    let started = handle.start(config(), |sender| {
        updates = Some(sender);
        Launch { sender: CommandSender::new(tx), thread: "stream", report: Some(Ok(())) }
    });
    assert!(started.is_ok());
    (updates.unwrap(), rx)
}

fn prepare<H>(control: &mut StreamControl<u32, u64, H>) -> UpdateSender<u64> {
    match control.prepare_start() {
        Ok(StartDecision::Begin(updates)) => updates,
        _ => panic!("not begun"),
    }
}

fn begun<H>(control: &mut StreamControl<u32, u64, H>) -> StopWork<u32, H> {
    match control.begin_stop() {
        StopDecision::Begin(work) => work,
        _ => panic!("not begun"),
    }
}

fn failed(outcome: Result<(), FailedStart<&'static str>>) -> FailedStart<&'static str> {
    match outcome {
        Ok(()) => panic!("started"),
        Err(failed) => failed,
    }
}

#[test]
fn new_loop_is_stopped() {
    let mut handle: Handle = AudioLoopHandle::new(4);
    assert!(!handle.is_running());
    assert_eq!(handle.sample_rate(), None);
    assert_eq!(handle.channel_count(), None);
    assert!(!handle.stop(|_| panic!("nothing to join")));
}

#[test]
fn started_loop_tells_its_configuration() {
    let mut handle: Handle = AudioLoopHandle::new(4);
    let _stream = start(&mut handle);
    assert!(handle.is_running());
    assert_eq!(handle.sample_rate(), Some(48000));
    assert_eq!(handle.channel_count(), Some(2));
}

#[test]
fn running_loop_is_not_started_again() {
    let mut handle: Handle = AudioLoopHandle::new(4);
    let _stream = start(&mut handle);
    let again = failed(handle.start(config(), |_| panic!("launched twice")));
    assert!(matches!(again.error, AudioLoopStartError::AlreadyRunning));
    assert!(again.join.is_none());
    assert!(handle.is_running());
}

#[test]
fn failed_start_leaves_the_loop_stopped() {
    for (failure, words) in [
        (
            StreamFailure::Build("no device".to_string()),
            "Failed to build audio stream: no device",
        ),
        (StreamFailure::Play("busy".to_string()), "Failed to start audio stream: busy"),
    ] {
        let mut handle: Handle = AudioLoopHandle::new(4);
        let (tx, _rx) = channel();
        let outcome = failed(handle.start(config(), |_| Launch {
            sender: CommandSender::new(tx),
            thread: "stream",
            report: Some(Err(failure)),
        }));
        assert_eq!(outcome.error.message(), words);
        assert_eq!(outcome.join, Some("stream"));
        assert!(!handle.is_running());
        assert_eq!(handle.sample_rate(), None);
        let _stream = start(&mut handle);
        assert!(handle.is_running());
    }
}

#[test]
fn stream_thread_that_dies_fails_the_start() {
    let mut handle: Handle = AudioLoopHandle::new(4);
    let (tx, _rx) = channel();
    let outcome = failed(handle.start(config(), |_| Launch {
        sender: CommandSender::new(tx),
        thread: "stream",
        report: None,
    }));
    assert_eq!(outcome.error.message(), "Failed to build audio stream: Stream thread died");
    assert!(outcome.join.is_none());
    assert!(!handle.is_running());
}

#[test]
fn stop_sends_the_stop_message_and_joins() {
    let mut handle: Handle = AudioLoopHandle::new(4);
    let (_updates, rx) = start(&mut handle);
    let mut joined = None;
    let mut spent = false;
    assert!(handle.stop(|work| {
        spent = work.sender.is_some();
        joined = work.thread;
        None
    }));
    assert_eq!(joined, Some("stream"));
    assert!(spent);
    assert!(matches!(rx.try_recv(), Ok(StreamThreadMessage::Stop)));
    assert!(rx.try_recv().is_err());
    assert!(!handle.is_running());
    assert_eq!(handle.sample_rate(), None);
    assert_eq!(handle.channel_count(), None);
    assert!(!handle.stop(|_| panic!("nothing to join")));
}

#[test]
fn commands_reach_the_stream_thread() {
    let mut handle: Handle = AudioLoopHandle::new(4);
    let (_updates, rx) = start(&mut handle);
    assert!(handle.send_command(7).is_ok());
    assert!(handle.send_command(8).is_ok());
    assert!(matches!(rx.try_recv(), Ok(StreamThreadMessage::Command(7))));
    assert!(matches!(rx.try_recv(), Ok(StreamThreadMessage::Command(8))));
    assert!(rx.try_recv().is_err());
}

#[test]
fn command_is_handed_back_where_nothing_runs() {
    let mut handle: Handle = AudioLoopHandle::new(4);
    assert!(matches!(handle.send_command(7), Err(CommandError::NotRunning(7))));
    let (_updates, rx) = start(&mut handle);
    drop(rx);
    assert!(matches!(handle.send_command(9), Err(CommandError::SendFailed(9))));
    handle.stop(|_| None);
    assert!(matches!(handle.send_command(11), Err(CommandError::NotRunning(11))));
}

#[test]
fn reply_of_the_channel_becomes_a_result() {
    assert!(send_result::<u32>(Ok(())).is_ok());
    let refused = send_result(Err(StreamThreadMessage::Command(3)));
    assert!(matches!(refused, Err(CommandError::SendFailed(3))));
}

#[test]
fn updates_are_delivered_in_order() {
    let log: Log = Rc::default();
    let mut handle: Handle = AudioLoopHandle::new(3);
    handle.subscribe(listener(&log));
    handle.deliver_updates();
    let (mut updates, _rx) = start(&mut handle);
    handle.deliver_updates();
    assert!(log.borrow().is_empty());
    assert!(updates.send(1));
    assert!(updates.send(2));
    handle.deliver_updates();
    assert!(updates.send(3));
    assert!(updates.send(4));
    assert!(updates.send(5));
    handle.deliver_updates();
    assert_eq!(*log.borrow(), [1, 2, 3, 4, 5]);
}

#[test]
fn update_is_dropped_where_the_ring_is_full() {
    let log: Log = Rc::default();
    let mut handle: Handle = AudioLoopHandle::new(2);
    handle.subscribe(listener(&log));
    let (mut updates, _rx) = start(&mut handle);
    assert!(updates.send(1));
    assert!(updates.send(2));
    assert!(!updates.send(3));
    handle.deliver_updates();
    assert!(updates.send(4));
    handle.deliver_updates();
    assert_eq!(*log.borrow(), [1, 2, 4]);
}

#[test]
fn ring_without_room_drops_everything() {
    let log: Log = Rc::default();
    let mut handle: Handle = AudioLoopHandle::new(0);
    handle.subscribe(listener(&log));
    let (mut updates, _rx) = start(&mut handle);
    assert!(!updates.send(1));
    handle.deliver_updates();
    assert!(log.borrow().is_empty());
}

#[test]
fn subscriptions_persist_across_cycles() {
    let log: Log = Rc::default();
    let mut handle: Handle = AudioLoopHandle::new(4);
    let subscription = handle.subscribe(listener(&log));
    for update in [10, 20, 30] {
        let (mut updates, _rx) = start(&mut handle);
        updates.send(update);
        handle.deliver_updates();
        assert!(handle.stop(|_| None));
    }
    assert_eq!(*log.borrow(), [10, 20, 30]);
    assert!(handle.unsubscribe(subscription));
    let (mut updates, _rx) = start(&mut handle);
    updates.send(40);
    handle.deliver_updates();
    assert_eq!(*log.borrow(), [10, 20, 30]);
}

#[test]
fn updates_left_at_a_stop_are_delivered() {
    let log: Log = Rc::default();
    let mut handle: Handle = AudioLoopHandle::new(4);
    handle.subscribe(listener(&log));
    let (mut updates, _rx) = start(&mut handle);
    updates.send(1);
    handle.deliver_updates();
    updates.send(2);
    updates.send(3);
    assert!(handle.stop(|_| {
        assert!(updates.send(4));
        Some(updates)
    }));
    assert_eq!(*log.borrow(), [1, 2, 3, 4]);
    handle.deliver_updates();
    assert!(!handle.stop(|_| None));
    assert_eq!(*log.borrow(), [1, 2, 3, 4]);
}

#[test]
fn waiting_updates_never_exceed_the_capacity() {
    let log: Log = Rc::default();
    let mut handle: Handle = AudioLoopHandle::new(2);
    handle.subscribe(listener(&log));
    let (mut updates, _rx) = start(&mut handle);
    let mut sent = Vec::new();
    for update in 0..10 {
        if updates.send(update) {
            sent.push(update);
        }
        if update % 4 == 3 {
            handle.deliver_updates();
        }
    }
    assert_eq!(sent, [0, 1, 4, 5, 8, 9]);
    assert!(handle.stop(|_| None));
    assert_eq!(*log.borrow(), sent);
}

#[test]
fn loop_receives_from_its_own_ring() {
    let mut first: StreamControl<u32, u64, u8> = StreamControl::new(4);
    let mut second: StreamControl<u32, u64, u8> = StreamControl::new(4);
    let mut updates = prepare(&mut first);
    assert!(first.receives_from(&mut updates));
    assert!(!second.receives_from(&mut updates));
    let mut others = prepare(&mut second);
    assert!(second.receives_from(&mut others));
    assert!(!second.receives_from(&mut updates));
    assert!(!first.receives_from(&mut others));
}

#[test]
fn ring_accepts_again_once_it_has_room() {
    let mut control: StreamControl<u32, u64, u8> = StreamControl::new(1);
    let mut updates = prepare(&mut control);
    let mut collected = Vec::new();
    for update in 0..5 {
        assert!(control.receives_from(&mut updates));
        assert!(updates.send(update));
        assert!(!updates.send(100));
        control.collect_updates(&mut collected);
    }
    assert_eq!(collected, [0, 1, 2, 3, 4]);
}

#[test]
fn start_waits_for_one_under_way() {
    let mut control: StreamControl<u32, u64, u8> = StreamControl::new(4);
    let _updates = prepare(&mut control);
    assert!(matches!(control.prepare_start(), Ok(StartDecision::Wait)));
    control.stream_playing();
    assert!(matches!(control.prepare_start(), Err(AudioLoopStartError::AlreadyRunning)));
    let (tx, _rx) = channel();
    assert!(control.finish_start(config(), CommandSender::new(tx), 1, Some(Ok(()))).is_ok());
    assert!(matches!(control.prepare_start(), Err(AudioLoopStartError::AlreadyRunning)));
}

#[test]
fn start_goes_on_after_one_that_failed() {
    let mut control: StreamControl<u32, u64, u8> = StreamControl::new(4);
    let _updates = prepare(&mut control);
    assert!(matches!(control.prepare_start(), Ok(StartDecision::Wait)));
    let (tx, _rx) = channel();
    let failure = Some(Err(StreamFailure::Play("busy".to_string())));
    assert!(control.finish_start(config(), CommandSender::new(tx), 1, failure).is_err());
    assert!(!control.is_running());
    let _updates = prepare(&mut control);
    control.abandon_start();
    assert!(!control.is_running());
    let _updates = prepare(&mut control);
}

#[test]
fn starts_and_stops_wait_for_each_other() {
    let mut control: StreamControl<u32, u64, u8> = StreamControl::new(4);
    let _updates = prepare(&mut control);
    assert!(matches!(control.begin_stop(), StopDecision::NotRunning));
    control.stream_playing();
    assert!(matches!(control.begin_stop(), StopDecision::Wait));
    let (tx, _rx) = channel();
    assert!(control.finish_start(config(), CommandSender::new(tx), 1, Some(Ok(()))).is_ok());
    let work = begun(&mut control);
    assert_eq!(work.thread, Some(1));
    assert!(matches!(control.prepare_start(), Ok(StartDecision::Wait)));
    assert!(matches!(control.begin_stop(), StopDecision::NotRunning));
    control.finish_stop(None, &mut Vec::new());
    assert_eq!(control.sample_rate(), None);
    let _updates = prepare(&mut control);
}

#[test]
fn end_joins_the_stream_and_then_the_updates() {
    let log: Log = Rc::default();
    let mut handle: Handle = AudioLoopHandle::new(4);
    handle.subscribe(listener(&log));
    let (mut updates, rx) = start(&mut handle);
    updates.send(1);
    let mut over = false;
    handle.end(
        |work| {
            assert!(matches!(rx.try_recv(), Ok(StreamThreadMessage::Stop)));
            work.thread
        },
        |control, joined| {
            assert_eq!(joined, Some("stream"));
            assert!(!control.is_alive());
            assert!(!control.is_running());
            over = true;
        },
    );
    assert!(over);
    assert!(log.borrow().is_empty());
}

#[test]
fn start_and_stop_in_stages() {
    let mut control: StreamControl<u32, u64, u8> = StreamControl::new(4);
    assert!(control.is_alive());
    let mut updates = prepare(&mut control);
    assert!(!control.is_running());
    control.stream_playing();
    assert!(control.is_running());
    assert_eq!(control.sample_rate(), None);
    assert!(matches!(control.send_command(1), Err(CommandError::NotRunning(1))));
    let (tx, rx) = channel();
    assert!(control.finish_start(config(), CommandSender::new(tx), 5, Some(Ok(()))).is_ok());
    assert_eq!(control.channel_count(), Some(2));
    assert!(matches!(control.prepare_start(), Err(AudioLoopStartError::AlreadyRunning)));
    updates.send(9);
    let mut collected = vec![8];
    control.collect_updates(&mut collected);
    assert_eq!(collected, [8, 9]);
    let work = begun(&mut control);
    assert_eq!(work.thread, Some(5));
    assert!(!control.is_running());
    assert_eq!(control.sample_rate(), Some(48000));
    assert!(matches!(rx.try_recv(), Ok(StreamThreadMessage::Stop)));
    updates.send(10);
    control.finish_stop(Some(updates), &mut collected);
    assert_eq!(collected, [8, 9, 10]);
    assert_eq!(control.sample_rate(), None);
    assert!(matches!(control.begin_stop(), StopDecision::NotRunning));
}

#[test]
fn ending_a_loop_gives_up_the_stream() {
    let mut control: StreamControl<u32, u64, u8> = StreamControl::new(4);
    let mut unused: StreamControl<u32, u64, u8> = StreamControl::new(4);
    let idle = unused.halt();
    assert!(idle.sender.is_none());
    assert!(idle.thread.is_none());
    let _updates = prepare(&mut control);
    control.stream_playing();
    let (tx, rx) = channel();
    assert!(control.finish_start(config(), CommandSender::new(tx), 6, Some(Ok(()))).is_ok());
    let work = control.halt();
    assert_eq!(work.thread, Some(6));
    assert!(matches!(rx.try_recv(), Ok(StreamThreadMessage::Stop)));
    assert!(control.is_alive());
    control.end_updates();
    assert!(!control.is_alive());
    assert!(!control.is_running());
}

#[test]
fn loop_errors_in_words() {
    assert_eq!(AudioLoopStartError::AlreadyRunning.message(), "Audio loop is already running");
    assert_eq!(
        AudioLoopStartError::BuildStream("x".to_string()).message(),
        "Failed to build audio stream: x"
    );
    assert_eq!(
        AudioLoopStartError::PlayStream("y".to_string()).message(),
        "Failed to start audio stream: y"
    );
    assert_eq!(CommandError::NotRunning(1).message(), "Audio loop is not running");
    assert_eq!(CommandError::SendFailed(1).message(), "Failed to send command");
}

fn assert_send<T: Send>() {}

#[test]
fn parts_can_be_shared_between_threads() {
    assert_send::<StreamControl<u32, u64, u8>>();
    assert_send::<SubscriptionMap<u64, Box<dyn FnMut(&u64) + Send>>>();
    assert_send::<UpdateSender<u64>>();
}
