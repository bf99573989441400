use merdia::video::{
    find_element, missing_element, relay, BusReply, Factory, Level, MessageKind, RelayStep,
    VideoAction, VideoEvent, VideoProcessor, REMOVAL_QUEUE_LEN,
};

fn ready() -> VideoProcessor {
    let (mut processor, action) = VideoProcessor::init();
    assert_eq!(action, VideoAction::InitLibrary);
    assert_eq!(
        processor.step(VideoEvent::Initialised(true)),
        VideoAction::Find(Factory::Webrtcbin)
    );
    assert_eq!(
        processor.step(VideoEvent::Found),
        VideoAction::Find(Factory::Decodebin)
    );
    assert!(!processor.is_ready());
    assert_eq!(processor.step(VideoEvent::Found), VideoAction::Create(100));
    processor
}

fn start(processor: &mut VideoProcessor) {
    assert_eq!(processor.main_loop(), VideoAction::InstallHandler);
    assert_eq!(
        processor.step(VideoEvent::HandlerInstalled),
        VideoAction::SetPlaying
    );
}

fn running() -> VideoProcessor {
    let mut processor = ready();
    start(&mut processor);
    assert_eq!(processor.step(VideoEvent::Playing(true)), VideoAction::Wait);
    processor
}

#[test]
fn factories_are_named() {
    assert_eq!(Factory::Webrtcbin.name(), "webrtcbin");
    assert_eq!(Factory::Decodebin.name(), "decodebin");
    assert_eq!(REMOVAL_QUEUE_LEN, 100);
}

#[test]
fn missing_element_is_named() {
    assert_eq!(find_element(Some(3)), 3);
    assert_eq!(missing_element("webrtcbin"), "Could not find webrtcbin");
}

#[test]
fn started_processor_is_not_ready() {
    let mut processor = ready();
    assert!(processor.is_ready());
    start(&mut processor);
    assert!(!processor.is_ready());
}

#[test]
fn processor_gives_up_with_the_library() {
    let (mut processor, _) = VideoProcessor::init();
    assert_eq!(
        processor.step(VideoEvent::Initialised(false)),
        VideoAction::Abort
    );
    let mut processor = ready();
    start(&mut processor);
    assert_eq!(processor.step(VideoEvent::Playing(false)), VideoAction::Abort);
}

#[test]
fn failed_start_is_repeated() {
    let mut processor = ready();
    for _ in 0..2 {
        start(&mut processor);
        assert_eq!(processor.step(VideoEvent::Playing(false)), VideoAction::Abort);
        assert!(processor.is_ready());
    }
    start(&mut processor);
    assert_eq!(processor.step(VideoEvent::Playing(true)), VideoAction::Wait);
}

#[test]
fn failed_restart_leaves_the_pipeline_playing() {
    let mut processor = running();
    start(&mut processor);
    assert_eq!(processor.step(VideoEvent::Playing(false)), VideoAction::Abort);
    assert!(!processor.is_ready());
    assert_eq!(
        processor.step(VideoEvent::Message(MessageKind::Warning)),
        VideoAction::Log(Level::Warn)
    );
}

#[test]
fn elements_leave_in_the_order_they_were_asked() {
    let mut processor = running();
    for element in [4, 2, 4] {
        let asked = VideoEvent::RemovalAsked(element);
        assert_eq!(processor.step(asked), VideoAction::Stop(element));
        assert_eq!(processor.step(VideoEvent::Stopped), VideoAction::Remove(element));
        assert_eq!(processor.step(VideoEvent::Removed), VideoAction::Wait);
    }
}

#[test]
fn messages_are_logged_by_kind() {
    let mut processor = running();
    let kinds = [
        (MessageKind::StateChanged, Level::Trace, "gstreamer state changed"),
        (MessageKind::StreamStatus, Level::Trace, "stream status notification"),
        (MessageKind::StreamStart, Level::Debug, "stream started"),
        (MessageKind::Qos, Level::Trace, "qos notification"),
        (MessageKind::Warning, Level::Warn, "gstreamer warning"),
        (MessageKind::Error, Level::Error, "gstreamer error"),
        (MessageKind::Other, Level::Debug, "gstreamer message"),
    ];
    for (kind, level, text) in kinds {
        assert_eq!(
            processor.step(VideoEvent::Message(kind)),
            VideoAction::Log(level)
        );
        assert_eq!(kind.level(), level);
        assert_eq!(kind.text(), text);
    }
}

#[test]
fn element_is_stopped_before_it_leaves() {
    let mut processor = running();
    assert_eq!(processor.step(VideoEvent::RemovalAsked(9)), VideoAction::Stop(9));
    assert_eq!(processor.step(VideoEvent::Stopped), VideoAction::Remove(9));
    assert_eq!(processor.step(VideoEvent::Removed), VideoAction::Wait);
    assert_eq!(
        processor.step(VideoEvent::Message(MessageKind::Qos)),
        VideoAction::Log(Level::Trace)
    );
}

#[test]
fn second_start_is_rejected() {
    let mut processor = running();
    start(&mut processor);
    assert_eq!(processor.step(VideoEvent::Playing(true)), VideoAction::Reject);
    assert_eq!(processor.step(VideoEvent::RemovalAsked(1)), VideoAction::Stop(1));
}

#[test]
fn message_is_handled_before_it_is_queued() {
    let steps = [
        RelayStep::Handle,
        RelayStep::Enqueue,
        RelayStep::Reply(BusReply::Drop),
    ];
    assert_eq!(relay(), steps);
}
