use audio_loop::backend::Layout;
use audio_loop::channel::StreamThreadMessage;
use audio_loop::control::StreamFailure;
use audio_loop::threads::{
    next_callback_action, CallbackAction, StreamThread, StreamThreadAction, StreamThreadEvent,
    UpdateThread, UpdateThreadAction,
};

#[test]
fn stream_thread_builds_plays_and_announces() {
    let (thread, action) = StreamThread::Building.next(StreamThreadEvent::<u8>::Built(Ok(())));
    assert_eq!(thread, StreamThread::Starting);
    assert!(matches!(action, StreamThreadAction::Play));
    let (thread, action) = thread.next(StreamThreadEvent::<u8>::Played(Ok(())));
    assert_eq!(thread, StreamThread::Forwarding);
    assert!(matches!(action, StreamThreadAction::Announce));
}

#[test]
fn stream_that_cannot_be_built_is_reported() {
    let cause = "no such device".to_string();
    let (thread, action) = StreamThread::Building.next(StreamThreadEvent::<u8>::Built(Err(cause)));
    assert_eq!(thread, StreamThread::Finished);
    match action {
        StreamThreadAction::Fail(StreamFailure::Build(cause)) => {
            assert_eq!(cause, "no such device")
        }
        _ => panic!("not reported"),
    }
}

#[test]
fn stream_that_does_not_play_is_reported() {
    let cause = "busy".to_string();
    let (thread, action) = StreamThread::Starting.next(StreamThreadEvent::<u8>::Played(Err(cause)));
    assert_eq!(thread, StreamThread::Finished);
    match action {
        StreamThreadAction::Fail(StreamFailure::Play(cause)) => {
            assert_eq!(cause, "busy")
        }
        _ => panic!("not reported"),
    }
}

#[test]
fn commands_are_forwarded_until_stop() {
    let messages = vec![
        StreamThreadMessage::Command('a'),
        StreamThreadMessage::Command('b'),
        StreamThreadMessage::Stop,
        StreamThreadMessage::Command('c'),
    ];
    let mut thread = StreamThread::Forwarding;
    let mut forwarded = Vec::new();
    for message in messages {
        if thread == StreamThread::Finished {
            break;
        }
        let (next, action) = thread.next(StreamThreadEvent::Received(Some(message)));
        thread = next;
        if let StreamThreadAction::Forward(command) = action {
            forwarded.push(command);
        }
    }
    assert_eq!(thread, StreamThread::Finished);
    assert_eq!(forwarded, ['a', 'b']);
}

#[test]
fn stream_thread_ends_when_nobody_can_send() {
    let (thread, action) = StreamThread::Forwarding.next(StreamThreadEvent::<u8>::Received(None));
    assert_eq!(thread, StreamThread::Finished);
    assert!(matches!(action, StreamThreadAction::Finish));
}

#[test]
fn callback_handles_commands_before_it_runs() {
    let mut polls = vec![Some('a'), Some('b'), None].into_iter();
    let mut handled = Vec::new();
    let (layout, frames) = loop {
        match next_callback_action(polls.next().unwrap(), 512, 2) {
            CallbackAction::Handle(command) => handled.push(command),
            CallbackAction::Run { layout, frames } => break (layout, frames),
        }
    };
    assert_eq!(handled, ['a', 'b']);
    assert_eq!(layout, Layout::Interleaved);
    assert_eq!(frames, 256);
}

#[test]
fn callback_runs_whole_frames() {
    match next_callback_action::<u8>(None, 7, 3) {
        CallbackAction::Run { frames, .. } => assert_eq!(frames, 2),
        CallbackAction::Handle(_) => panic!("no command was polled"),
    }
}

#[test]
fn update_thread_delivers_and_parks() {
    let (thread, action) = UpdateThread::Checking.next(true);
    assert_eq!(action, UpdateThreadAction::Deliver);
    let (thread, action) = thread.next(true);
    assert_eq!(action, UpdateThreadAction::Park);
    assert_eq!(thread, UpdateThread::Checking);
}

#[test]
fn update_thread_ends_with_the_loop() {
    let ended = (UpdateThread::Finished, UpdateThreadAction::Finish);
    assert_eq!(UpdateThread::Checking.next(false), ended);
    let (thread, action) = UpdateThread::Delivered.next(false);
    assert_eq!(action, UpdateThreadAction::Recheck);
    assert_eq!(thread.next(false), ended);
}
