//! The media pipeline: how it is brought up, what is said of its messages, and how elements leave it.
use vstd::prelude::*;
use vstd::string::*;

verus! {

/// The number of elements that can wait for their removal.
pub const REMOVAL_QUEUE_LEN: usize = 100;

/// A factory of elements that has to be there.
#[derive(Clone, Copy, Debug, PartialEq, Eq, Structural)]
pub enum Factory {
    Webrtcbin,
    Decodebin,
}

impl Factory {
    /// The name of the factory.
    pub open spec fn spec_name(self) -> Seq<char> {
        match self {
            Factory::Webrtcbin => "webrtcbin"@,
            Factory::Decodebin => "decodebin"@,
        }
    }

    /// The name of the factory.
    pub fn name(self) -> (r: &'static str)
        ensures
            r@ == self.spec_name(),
    {
        match self {
            Factory::Webrtcbin => "webrtcbin",
            Factory::Decodebin => "decodebin",
        }
    }
}

/// Hands on the factory that was looked up. It has to be there; where it is not, there is nothing
/// to do but to say so, by [`missing_element`].
pub fn find_element<T>(found: Option<T>) -> (r: T)
    requires
        found is Some,
    ensures
        Some(r) == found,
{
    found.unwrap()
}

/// What is said of an element that is not there.
pub fn missing_element(name: &str) -> (r: String)
    ensures
        r@ == "Could not find "@ + name@,
{
    let mut text: String = "Could not find ".to_owned();
    text.append(name);
    text
}

/// What a message of the pipeline is about.
#[derive(Clone, Copy, Debug, PartialEq, Eq, Structural)]
pub enum MessageKind {
    StateChanged,
    StreamStatus,
    StreamStart,
    Qos,
    Warning,
    Error,
    Other,
}

/// How urgent a line of the log is.
#[derive(Clone, Copy, Debug, PartialEq, Eq, Structural)]
pub enum Level {
    Trace,
    Debug,
    Warn,
    Error,
}

impl MessageKind {
    /// How urgent a message is: warnings and errors are passed on as such, what happens all the
    /// time is for tracing only.
    pub open spec fn spec_level(self) -> Level {
        match self {
            MessageKind::StateChanged => Level::Trace,
            MessageKind::StreamStatus => Level::Trace,
            MessageKind::StreamStart => Level::Debug,
            MessageKind::Qos => Level::Trace,
            MessageKind::Warning => Level::Warn,
            MessageKind::Error => Level::Error,
            MessageKind::Other => Level::Debug,
        }
    }

    /// How urgent a message is.
    pub fn level(self) -> (r: Level)
        ensures
            r == self.spec_level(),
    {
        match self {
            MessageKind::StateChanged => Level::Trace,
            MessageKind::StreamStatus => Level::Trace,
            MessageKind::StreamStart => Level::Debug,
            MessageKind::Qos => Level::Trace,
            MessageKind::Warning => Level::Warn,
            MessageKind::Error => Level::Error,
            MessageKind::Other => Level::Debug,
        }
    }

    /// What the log says of a message.
    pub fn text(self) -> (r: &'static str)
        ensures
            r@ == (match self {
                MessageKind::StateChanged => "gstreamer state changed"@,
                MessageKind::StreamStatus => "stream status notification"@,
                MessageKind::StreamStart => "stream started"@,
                MessageKind::Qos => "qos notification"@,
                MessageKind::Warning => "gstreamer warning"@,
                MessageKind::Error => "gstreamer error"@,
                MessageKind::Other => "gstreamer message"@,
            }),
    {
        match self {
            MessageKind::StateChanged => "gstreamer state changed",
            MessageKind::StreamStatus => "stream status notification",
            MessageKind::StreamStart => "stream started",
            MessageKind::Qos => "qos notification",
            MessageKind::Warning => "gstreamer warning",
            MessageKind::Error => "gstreamer error",
            MessageKind::Other => "gstreamer message",
        }
    }
}

/// How far a processor is. Elements of the pipeline go by numbers.
#[derive(Clone, Copy, Debug, PartialEq, Eq, Structural)]
pub enum VideoState {
    /// The media library is being brought up.
    Initialising,
    /// A factory is being looked up.
    Finding(Factory),
    /// The pipeline is there and does not play.
    Ready,
    /// The handler of messages is being installed, on a pipeline that plays or does not.
    Preparing(bool),
    /// The pipeline is being set to play.
    Starting,
    /// The pipeline plays.
    Running,
    /// The pipeline plays and is being set to play again.
    Restarting,
    /// An element is being stopped.
    Stopping(u64),
    /// An element is being taken out.
    Removing(u64),
    /// The processor gave up.
    Failed,
}

/// What happened to a processor.
#[derive(Clone, Copy, Debug, PartialEq, Eq, Structural)]
pub enum VideoEvent {
    /// Whether the media library came up.
    Initialised(bool),
    /// The factory is there.
    Found,
    /// The pipeline is to play.
    StartAsked,
    /// The handler of messages is installed.
    HandlerInstalled,
    /// Whether the pipeline plays.
    Playing(bool),
    /// The pipeline sent a message.
    Message(MessageKind),
    /// An element is to leave the pipeline.
    RemovalAsked(u64),
    /// The element is stopped.
    Stopped,
    /// The element is out.
    Removed,
}

/// What a processor is to do next.
#[derive(Clone, Copy, Debug, PartialEq, Eq, Structural)]
pub enum VideoAction {
    /// Bring the media library up.
    InitLibrary,
    /// Look a factory up and keep it.
    Find(Factory),
    /// Make the pipeline, and a queue of this length for the elements that are to leave it.
    Create(usize),
    /// Install the handler that relays each message, by [`relay`].
    InstallHandler,
    /// Set the pipeline to play.
    SetPlaying,
    /// Wait for a message or a removal.
    Wait,
    /// Write a line about the message, and wait on.
    Log(Level),
    /// Stop the element.
    Stop(u64),
    /// Take the element out of the pipeline.
    Remove(u64),
    /// Give up with the error of the media library.
    Abort,
    /// Panic, as the pipeline was started before.
    Reject,
}

/// Whether an event can happen in a state. While an element leaves, messages wait.
pub open spec fn can_happen(state: VideoState, event: VideoEvent) -> bool {
    match event {
        VideoEvent::Initialised(_) => state is Initialising,
        VideoEvent::Found => state is Finding,
        VideoEvent::StartAsked => state is Ready || state is Running,
        VideoEvent::HandlerInstalled => state is Preparing,
        VideoEvent::Playing(_) => state is Starting || state is Restarting,
        VideoEvent::Message(_) => state is Running,
        VideoEvent::RemovalAsked(_) => state is Running,
        VideoEvent::Stopped => state is Stopping,
        VideoEvent::Removed => state is Removing,
    }
}

/// The state and the action that follow an event that can happen. The handler of messages is
/// installed before the pipeline is set to play. A start that fails leaves the processor as it was
/// before, and a pipeline that plays does not start again.
pub open spec fn after(state: VideoState, event: VideoEvent) -> (VideoState, VideoAction) {
    match (state, event) {
        (VideoState::Initialising, VideoEvent::Initialised(true)) => (
            VideoState::Finding(Factory::Webrtcbin),
            VideoAction::Find(Factory::Webrtcbin),
        ),
        (VideoState::Finding(Factory::Webrtcbin), VideoEvent::Found) => (
            VideoState::Finding(Factory::Decodebin),
            VideoAction::Find(Factory::Decodebin),
        ),
        (VideoState::Finding(Factory::Decodebin), VideoEvent::Found) => (
            VideoState::Ready,
            VideoAction::Create(REMOVAL_QUEUE_LEN),
        ),
        (VideoState::Ready, VideoEvent::StartAsked) => (
            VideoState::Preparing(false),
            VideoAction::InstallHandler,
        ),
        (VideoState::Running, VideoEvent::StartAsked) => (
            VideoState::Preparing(true),
            VideoAction::InstallHandler,
        ),
        (VideoState::Preparing(false), VideoEvent::HandlerInstalled) => (
            VideoState::Starting,
            VideoAction::SetPlaying,
        ),
        (VideoState::Preparing(true), VideoEvent::HandlerInstalled) => (
            VideoState::Restarting,
            VideoAction::SetPlaying,
        ),
        (VideoState::Starting, VideoEvent::Playing(true)) => (
            VideoState::Running,
            VideoAction::Wait,
        ),
        (VideoState::Starting, VideoEvent::Playing(false)) => (
            VideoState::Ready,
            VideoAction::Abort,
        ),
        (VideoState::Restarting, VideoEvent::Playing(true)) => (
            VideoState::Running,
            VideoAction::Reject,
        ),
        (VideoState::Restarting, VideoEvent::Playing(false)) => (
            VideoState::Running,
            VideoAction::Abort,
        ),
        (VideoState::Running, VideoEvent::Message(kind)) => (
            VideoState::Running,
            VideoAction::Log(kind.spec_level()),
        ),
        (VideoState::Running, VideoEvent::RemovalAsked(element)) => (
            VideoState::Stopping(element),
            VideoAction::Stop(element),
        ),
        (VideoState::Stopping(element), VideoEvent::Stopped) => (
            VideoState::Removing(element),
            VideoAction::Remove(element),
        ),
        (VideoState::Removing(_), VideoEvent::Removed) => (VideoState::Running, VideoAction::Wait),
        _ => (VideoState::Failed, VideoAction::Abort),
    }
}

/// The keeper of the media pipeline.
#[derive(Debug)]
pub struct VideoProcessor {
    state: VideoState,
}

impl VideoProcessor {
    /// How far the processor is.
    pub closed spec fn view(self) -> VideoState {
        self.state
    }

    /// A processor that is about to be brought up.
    pub fn init() -> (r: (Self, VideoAction))
        ensures
            r.0@ is Initialising,
            r.1 is InitLibrary,
    {
        (VideoProcessor { state: VideoState::Initialising }, VideoAction::InitLibrary)
    }

    /// Starts the pipeline, for the first time, after starts that failed, or while it plays.
    pub fn main_loop(&mut self) -> (r: VideoAction)
        requires
            can_happen(old(self)@, VideoEvent::StartAsked),
        ensures
            (final(self)@, r) == after(old(self)@, VideoEvent::StartAsked),
            final(self)@ == VideoState::Preparing(old(self)@ is Running),
            r is InstallHandler,
    {
        self.step(VideoEvent::StartAsked)
    }

    /// Whether the pipeline is there and does not play.
    pub fn is_ready(&self) -> (r: bool)
        ensures
            r <==> self@ is Ready,
    {
        match self.state {
            VideoState::Ready => true,
            _ => false,
        }
    }

    /// Takes up what happened to the processor.
    pub fn step(&mut self, event: VideoEvent) -> (r: VideoAction)
        requires
            can_happen(old(self)@, event),
        ensures
            (final(self)@, r) == after(old(self)@, event),
    {
        let (state, action): (VideoState, VideoAction) = match (self.state, event) {
            (VideoState::Initialising, VideoEvent::Initialised(true)) => (
                VideoState::Finding(Factory::Webrtcbin),
                VideoAction::Find(Factory::Webrtcbin),
            ),
            (VideoState::Finding(Factory::Webrtcbin), VideoEvent::Found) => (
                VideoState::Finding(Factory::Decodebin),
                VideoAction::Find(Factory::Decodebin),
            ),
            (VideoState::Finding(Factory::Decodebin), VideoEvent::Found) => (
                VideoState::Ready,
                VideoAction::Create(REMOVAL_QUEUE_LEN),
            ),
            (VideoState::Ready, VideoEvent::StartAsked) => (
                VideoState::Preparing(false),
                VideoAction::InstallHandler,
            ),
            (VideoState::Running, VideoEvent::StartAsked) => (
                VideoState::Preparing(true),
                VideoAction::InstallHandler,
            ),
            (VideoState::Preparing(again), VideoEvent::HandlerInstalled) => if again {
                (VideoState::Restarting, VideoAction::SetPlaying)
            } else {
                (VideoState::Starting, VideoAction::SetPlaying)
            },
            (VideoState::Starting, VideoEvent::Playing(plays)) => if plays {
                (VideoState::Running, VideoAction::Wait)
            } else {
                (VideoState::Ready, VideoAction::Abort)
            },
            (VideoState::Restarting, VideoEvent::Playing(plays)) => if plays {
                (VideoState::Running, VideoAction::Reject)
            } else {
                (VideoState::Running, VideoAction::Abort)
            },
            (VideoState::Running, VideoEvent::Message(kind)) => (
                VideoState::Running,
                VideoAction::Log(kind.level()),
            ),
            (VideoState::Running, VideoEvent::RemovalAsked(element)) => (
                VideoState::Stopping(element),
                VideoAction::Stop(element),
            ),
            (VideoState::Stopping(element), VideoEvent::Stopped) => (
                VideoState::Removing(element),
                VideoAction::Remove(element),
            ),
            (VideoState::Removing(_), VideoEvent::Removed) => (
                VideoState::Running,
                VideoAction::Wait,
            ),
            _ => (VideoState::Failed, VideoAction::Abort),
        };
        self.state = state;
        action
    }
}

/// Whether the pipeline plays, be it that an element is leaving or that it is asked to play again.
pub open spec fn plays(state: VideoState) -> bool {
    ||| state is Running
    ||| state is Restarting
    ||| state == VideoState::Preparing(true)
    ||| state is Stopping
    ||| state is Removing
}

/// The states that a processor goes through.
pub open spec fn run(state: VideoState, events: Seq<VideoEvent>) -> VideoState
    decreases events.len(),
{
    if events.len() == 0 {
        state
    } else {
        after(run(state, events.drop_last()), events.last()).0
    }
}

/// Whether events can happen one after the other, from a state on.
pub open spec fn is_run(state: VideoState, events: Seq<VideoEvent>) -> bool
    decreases events.len(),
{
    events.len() > 0 ==> is_run(state, events.drop_last()) && can_happen(
        run(state, events.drop_last()),
        events.last(),
    )
}

/// A pipeline that plays goes on playing, whatever it reports and whatever leaves it.
pub proof fn playing_goes_on(state: VideoState, events: Seq<VideoEvent>)
    requires
        plays(state),
        is_run(state, events),
    ensures
        plays(run(state, events)),
    decreases events.len(),
{
    if events.len() > 0 {
        playing_goes_on(state, events.drop_last());
    }
}

/// A processor gets past its start once: a pipeline that plays and is set to play again is not
/// waited on a second time, but the start is rejected, and where it fails it has no effect.
pub proof fn pipeline_starts_once(state: VideoState, events: Seq<VideoEvent>)
    requires
        plays(state),
        is_run(state, events),
        events.len() > 0,
        events.last() is Playing,
    ensures
        run(state, events) is Running,
        after(run(state, events.drop_last()), events.last()).1 == (if events.last()
            == VideoEvent::Playing(true) {
            VideoAction::Reject
        } else {
            VideoAction::Abort
        }),
{
    playing_goes_on(state, events.drop_last());
}

/// A start that fails can be repeated: the next one runs as a first one would.
pub proof fn failed_start_can_be_repeated(state: VideoState)
    requires
        state is Starting,
    ensures
        can_happen(state, VideoEvent::Playing(false)),
        after(state, VideoEvent::Playing(false)) == (VideoState::Ready, VideoAction::Abort),
        can_happen(VideoState::Ready, VideoEvent::StartAsked),
        after(VideoState::Ready, VideoEvent::StartAsked) == (
            VideoState::Preparing(false),
            VideoAction::InstallHandler,
        ),
        after(VideoState::Preparing(false), VideoEvent::HandlerInstalled) == (
            state,
            VideoAction::SetPlaying,
        ),
{
}

/// The pipeline is set to play only right after the handler of messages was installed, so that no
/// message of that change is missed; and nothing else happens before it plays or does not.
pub proof fn handler_is_installed_before_playing(state: VideoState, events: Seq<VideoEvent>)
    requires
        state is Ready || state is Running,
        is_run(state, events),
        events.len() > 0,
        events.last() is Playing,
    ensures
        events.len() >= 3,
        events[events.len() - 2] is HandlerInstalled,
        events[events.len() - 3] is StartAsked,
{
    let installed = events.drop_last();
    let started = installed.drop_last();
    assert(is_run(state, installed));
    assert(installed.len() > 0);
    assert(can_happen(run(state, started), installed.last()));
    assert(installed.last() is HandlerInstalled);
    assert(run(state, started) is Preparing);
    assert(is_run(state, started));
    assert(started.len() > 0);
    assert(can_happen(run(state, started.drop_last()), started.last()));
    assert(started.last() is StartAsked);
}

/// What is answered to the one who posted a message.
#[derive(Clone, Copy, Debug, PartialEq, Eq, Structural)]
pub enum BusReply {
    /// The message is used up.
    Drop,
}

/// A step in relaying a message, on the side of the one who posted it.
#[derive(Clone, Copy, Debug, PartialEq, Eq, Structural)]
pub enum RelayStep {
    /// Call the handler with the message.
    Handle,
    /// Put the message into the queue of the loop; where the loop is gone, nothing comes of it.
    Enqueue,
    /// Answer the one who posted the message.
    Reply(BusReply),
}

/// The steps in relaying a message: the handler sees it before the loop does, and whatever the
/// handler did, the message is used up.
pub open spec fn relay_steps() -> Seq<RelayStep> {
    seq![RelayStep::Handle, RelayStep::Enqueue, RelayStep::Reply(BusReply::Drop)]
}

/// The steps in relaying a message.
pub fn relay() -> (r: [RelayStep; 3])
    ensures
        r@ == relay_steps(),
{
    let steps: [RelayStep; 3] = [
        RelayStep::Handle,
        RelayStep::Enqueue,
        RelayStep::Reply(BusReply::Drop),
    ];
    assert(steps@ =~= relay_steps());
    steps
}

/// The steps in relaying messages that are posted one after the other, with the message of each.
pub open spec fn relayed(messages: Seq<u64>) -> Seq<(u64, RelayStep)>
    decreases messages.len(),
{
    if messages.len() == 0 {
        Seq::empty()
    } else {
        relayed(messages.drop_last()) + relay_steps().map_values(
            |step: RelayStep| (messages.last(), step),
        )
    }
}

/// The handler is called once for each message, in the order in which they are posted, before the
/// message is queued; and each is answered in the same way.
pub proof fn messages_are_handled_once(messages: Seq<u64>, i: int)
    requires
        0 <= i < messages.len(),
    ensures
        relayed(messages).len() == 3 * messages.len(),
        relayed(messages)[3 * i] == (messages[i], RelayStep::Handle),
        relayed(messages)[3 * i + 1] == (messages[i], RelayStep::Enqueue),
        relayed(messages)[3 * i + 2] == (messages[i], RelayStep::Reply(BusReply::Drop)),
    decreases messages.len(),
{
    let front = messages.drop_last();
    relayed_len(front);
    if i < front.len() {
        messages_are_handled_once(front, i);
    }
}

proof fn relayed_len(messages: Seq<u64>)
    ensures
        relayed(messages).len() == 3 * messages.len(),
    decreases messages.len(),
{
    if messages.len() > 0 {
        relayed_len(messages.drop_last());
    }
}

/// The elements that were to leave the pipeline, in the order in which they were.
pub open spec fn asked(events: Seq<VideoEvent>) -> Seq<u64>
    decreases events.len(),
{
    if events.len() == 0 {
        Seq::empty()
    } else {
        let before = asked(events.drop_last());
        match events.last() {
            VideoEvent::RemovalAsked(element) => before.push(element),
            _ => before,
        }
    }
}

/// The actions of a run that stop elements and take them out, in their order.
pub open spec fn removal_actions(state: VideoState, events: Seq<VideoEvent>) -> Seq<VideoAction>
    decreases events.len(),
{
    if events.len() == 0 {
        Seq::empty()
    } else {
        let before = removal_actions(state, events.drop_last());
        let action = after(run(state, events.drop_last()), events.last()).1;
        if action is Stop || action is Remove {
            before.push(action)
        } else {
            before
        }
    }
}

/// Stopping and taking out, for one element after the other.
pub open spec fn stop_and_remove(elements: Seq<u64>) -> Seq<VideoAction>
    decreases elements.len(),
{
    if elements.len() == 0 {
        Seq::empty()
    } else {
        stop_and_remove(elements.drop_last()).push(VideoAction::Stop(elements.last())).push(
            VideoAction::Remove(elements.last()),
        )
    }
}

/// Whether the actions are those for the elements, as far as a state has got with the last one.
spec fn got_so_far(state: VideoState, elements: Seq<u64>, actions: Seq<VideoAction>) -> bool {
    match state {
        VideoState::Stopping(element) => {
            &&& elements.len() > 0
            &&& elements.last() == element
            &&& actions == stop_and_remove(elements.drop_last()).push(VideoAction::Stop(element))
        },
        _ => actions == stop_and_remove(elements),
    }
}

proof fn removals_keep_up(state: VideoState, events: Seq<VideoEvent>)
    requires
        !(state is Stopping),
        is_run(state, events),
    ensures
        got_so_far(run(state, events), asked(events), removal_actions(state, events)),
    decreases events.len(),
{
    if events.len() > 0 {
        let before = events.drop_last();
        removals_keep_up(state, before);
        if let VideoEvent::RemovalAsked(element) = events.last() {
            assert(asked(events).drop_last() =~= asked(before));
        }
    }
}

/// Once no element is leaving, each element that was to leave has been stopped and then taken out,
/// once, in the order in which they were asked for; no other element has been touched.
pub proof fn elements_leave_in_order(state: VideoState, events: Seq<VideoEvent>)
    requires
        state is Running,
        is_run(state, events),
        run(state, events) is Running,
    ensures
        removal_actions(state, events) == stop_and_remove(asked(events)),
{
    removals_keep_up(state, events);
}

/// The elements of a pipeline after actions.
pub open spec fn children_after(children: Set<u64>, actions: Seq<VideoAction>) -> Set<u64>
    decreases actions.len(),
{
    if actions.len() == 0 {
        children
    } else {
        let before = children_after(children, actions.drop_last());
        match actions.last() {
            VideoAction::Remove(element) => before.remove(element),
            _ => before,
        }
    }
}

/// The elements that were asked to leave are out, and all others stay.
pub proof fn other_elements_stay(
    state: VideoState,
    events: Seq<VideoEvent>,
    children: Set<u64>,
    element: u64,
)
    requires
        state is Running,
        is_run(state, events),
        run(state, events) is Running,
    ensures
        children_after(children, removal_actions(state, events)).contains(element)
            <==> children.contains(element) && !asked(events).contains(element),
{
    elements_leave_in_order(state, events);
    removal_takes_out(asked(events), children, element);
}

proof fn removal_takes_out(elements: Seq<u64>, children: Set<u64>, element: u64)
    ensures
        children_after(children, stop_and_remove(elements)).contains(element)
            <==> children.contains(element) && !elements.contains(element),
    decreases elements.len(),
{
    if elements.len() > 0 {
        let front = elements.drop_last();
        let last = elements.last();
        let stopped = stop_and_remove(front).push(VideoAction::Stop(last));
        removal_takes_out(front, children, element);
        assert(stop_and_remove(elements) == stopped.push(VideoAction::Remove(last)));
        assert(stop_and_remove(elements).drop_last() =~= stopped);
        assert(stopped.drop_last() =~= stop_and_remove(front));
        assert(children_after(children, stopped) == children_after(
            children,
            stop_and_remove(front),
        ));
        assert(children_after(children, stop_and_remove(elements)) == children_after(
            children,
            stopped,
        ).remove(last));
        assert(elements =~= front.push(last));
        assert(elements.contains(element) <==> front.contains(element) || element == last) by {
            if front.contains(element) {
                let i = choose|i: int| 0 <= i < front.len() && front[i] == element;
                assert(elements[i] == element);
            }
            if element == last {
                assert(elements[elements.len() - 1] == element);
            }
            if elements.contains(element) && element != last {
                let i = choose|i: int| 0 <= i < elements.len() && elements[i] == element;
                assert(front[i] == element);
            }
        }
    }
}

/// An element is taken out of the pipeline only when it was asked for and is stopped.
pub proof fn elements_are_stopped_before_removal(
    state: VideoState,
    events: Seq<VideoEvent>,
    element: u64,
)
    requires
        state is Running,
        is_run(state, events),
        run(state, events) == VideoState::Removing(element),
    ensures
        events.len() >= 2,
        events[events.len() - 2] == VideoEvent::RemovalAsked(element),
        events[events.len() - 1] is Stopped,
{
    stopping_was_asked(state, events.drop_last(), element);
}

proof fn stopping_was_asked(state: VideoState, events: Seq<VideoEvent>, element: u64)
    requires
        state is Running,
        is_run(state, events),
        run(state, events) == VideoState::Stopping(element),
    ensures
        events.len() >= 1,
        events.last() == VideoEvent::RemovalAsked(element),
{
}

/// The events that bring a processor up.
pub open spec fn bring_up() -> Seq<VideoEvent> {
    seq![VideoEvent::Initialised(true), VideoEvent::Found, VideoEvent::Found]
}

/// A processor gets ready, and all that comes after, only after the media library came up and both
/// factories were found.
pub proof fn ready_needs_both_factories(events: Seq<VideoEvent>)
    requires
        is_run(VideoState::Initialising, events),
    ensures
        match run(VideoState::Initialising, events) {
            VideoState::Initialising => events.len() == 0,
            VideoState::Finding(Factory::Webrtcbin) => events == bring_up().take(1),
            VideoState::Finding(Factory::Decodebin) => events == bring_up().take(2),
            VideoState::Failed => events == seq![VideoEvent::Initialised(false)],
            _ => events.len() >= 3 && events.take(3) == bring_up(),
        },
    decreases events.len(),
{
    if events.len() > 0 {
        let before = events.drop_last();
        ready_needs_both_factories(before);
        assert(events =~= before.push(events.last()));
        if events.len() > 3 {
            assert(events.take(3) =~= before.take(3));
        }
    }
}

/// How a processor is brought up: library, first factory, second factory, and then a pipeline with
/// a queue for a hundred elements. It gives up where the library does not come up.
pub proof fn processor_comes_up()
    ensures
        can_happen(VideoState::Initialising, VideoEvent::Initialised(true)),
        can_happen(VideoState::Initialising, VideoEvent::Initialised(false)),
        after(VideoState::Initialising, VideoEvent::Initialised(false)) == (
            VideoState::Failed,
            VideoAction::Abort,
        ),
        ({
            let (first, find) = after(VideoState::Initialising, VideoEvent::Initialised(true));
            let (second, other) = after(first, VideoEvent::Found);
            let (third, make) = after(second, VideoEvent::Found);
            &&& find == VideoAction::Find(Factory::Webrtcbin)
            &&& other == VideoAction::Find(Factory::Decodebin)
            &&& can_happen(first, VideoEvent::Found)
            &&& can_happen(second, VideoEvent::Found)
            &&& third is Ready
            &&& make == VideoAction::Create(100)
        }),
        Factory::Webrtcbin.spec_name() == "webrtcbin"@,
        Factory::Decodebin.spec_name() == "decodebin"@,
{
}

/// How a pipeline is started: the handler is installed, and then the pipeline is set to play. A
/// first start that succeeds leads to waiting for messages; one that fails leaves the processor
/// ready. While the pipeline plays, another start that succeeds is rejected, and one that fails is
/// reported, and either way the pipeline plays on.
pub proof fn pipeline_is_started(again: bool)
    ensures
        ({
            let before = if again {
                VideoState::Running
            } else {
                VideoState::Ready
            };
            let (preparing, install) = after(before, VideoEvent::StartAsked);
            let (starting, play) = after(preparing, VideoEvent::HandlerInstalled);
            let (up, yes) = after(starting, VideoEvent::Playing(true));
            let (down, no) = after(starting, VideoEvent::Playing(false));
            &&& can_happen(before, VideoEvent::StartAsked)
            &&& can_happen(preparing, VideoEvent::HandlerInstalled)
            &&& can_happen(starting, VideoEvent::Playing(true))
            &&& can_happen(starting, VideoEvent::Playing(false))
            &&& install is InstallHandler
            &&& play is SetPlaying
            &&& up is Running
            &&& yes == (if again {
                VideoAction::Reject
            } else {
                VideoAction::Wait
            })
            &&& down == before
            &&& no is Abort
        }),
{
}

/// A pipeline that plays takes any message and any element that is to leave: a message is written
/// down and waited on after; an element is stopped, then taken out, and it is that element that is
/// stopped and taken out.
pub proof fn playing_pipeline_serves(kind: MessageKind, element: u64)
    ensures
        can_happen(VideoState::Running, VideoEvent::Message(kind)),
        after(VideoState::Running, VideoEvent::Message(kind)).0 is Running,
        after(VideoState::Running, VideoEvent::Message(kind)).1 == VideoAction::Log(
            match kind {
                MessageKind::Warning => Level::Warn,
                MessageKind::Error => Level::Error,
                MessageKind::StateChanged => Level::Trace,
                MessageKind::StreamStatus => Level::Trace,
                MessageKind::Qos => Level::Trace,
                MessageKind::StreamStart => Level::Debug,
                MessageKind::Other => Level::Debug,
            },
        ),
        ({
            let (stopping, stop) = after(VideoState::Running, VideoEvent::RemovalAsked(element));
            let (removing, remove) = after(stopping, VideoEvent::Stopped);
            let (done, wait) = after(removing, VideoEvent::Removed);
            &&& can_happen(VideoState::Running, VideoEvent::RemovalAsked(element))
            &&& can_happen(stopping, VideoEvent::Stopped)
            &&& can_happen(removing, VideoEvent::Removed)
            &&& stop == VideoAction::Stop(element)
            &&& remove == VideoAction::Remove(element)
            &&& done is Running
            &&& wait is Wait
        }),
{
}

} // verus!
