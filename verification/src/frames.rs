//! The way of a video frame, from the pipeline that delivers it to the screen that shows it.
use vstd::prelude::*;

use crate::display::DisplayError;

verus! {

/// What the pipeline is told of a sample that it delivered.
#[derive(Clone, Copy, Debug, PartialEq, Eq, Structural)]
pub enum Flow {
    /// The sample was passed on.
    Success,
    /// There are no more samples.
    Eos,
    /// The format of the sample is not known.
    NotNegotiated,
    /// The sample cannot be used.
    Error,
}

/// How far the handling of a sample is.
#[derive(Clone, Copy, Debug, PartialEq, Eq, Structural)]
pub enum SampleState {
    Pulling,
    ReadingInfo,
    ReadingMemory,
    FindingSync,
    SettingSync,
    Sending,
    Finished,
}

/// What came of a step in the handling of a sample.
#[derive(Clone, Copy, Debug, PartialEq, Eq, Structural)]
pub enum SampleEvent {
    /// Whether a sample was there.
    Pulled(bool),
    /// Whether the sample has a format, and one that is understood.
    Info(bool),
    /// The number of memories of the buffer, and whether the first is one of the drawing context.
    Memory(usize, bool),
    /// Whether the buffer has a mark for the drawing commands that fill it.
    Sync(bool),
    /// The mark is set.
    SyncSet,
    /// Whether the frame was taken.
    Sent(bool),
}

/// The next step in the handling of a sample.
#[derive(Clone, Copy, Debug, PartialEq, Eq, Structural)]
pub enum SampleAction {
    /// Pull the sample.
    Pull,
    /// Read its format.
    ReadInfo,
    /// Look at the memory of its buffer.
    ReadMemory,
    /// Look for the mark.
    FindSync,
    /// Set the mark that is there.
    SetSync,
    /// Add a mark, and set it.
    AddSync,
    /// Pass the frame on.
    Send,
    /// Report to the pipeline.
    Finish(Flow),
}

/// Whether an event can happen in a state.
pub open spec fn can_follow(state: SampleState, event: SampleEvent) -> bool {
    match event {
        SampleEvent::Pulled(_) => state is Pulling,
        SampleEvent::Info(_) => state is ReadingInfo,
        SampleEvent::Memory(_, _) => state is ReadingMemory,
        SampleEvent::Sync(_) => state is FindingSync,
        SampleEvent::SyncSet => state is SettingSync,
        SampleEvent::Sent(_) => state is Sending,
    }
}

/// The state and the action that follow an event.
pub open spec fn after_sample_event(event: SampleEvent) -> (SampleState, SampleAction) {
    match event {
        SampleEvent::Pulled(true) => (SampleState::ReadingInfo, SampleAction::ReadInfo),
        SampleEvent::Pulled(false) => (SampleState::Finished, SampleAction::Finish(Flow::Eos)),
        SampleEvent::Info(true) => (SampleState::ReadingMemory, SampleAction::ReadMemory),
        SampleEvent::Info(false) => (
            SampleState::Finished,
            SampleAction::Finish(Flow::NotNegotiated),
        ),
        SampleEvent::Memory(count, drawn) => if count > 0 && drawn {
            (SampleState::FindingSync, SampleAction::FindSync)
        } else {
            (SampleState::Finished, SampleAction::Finish(Flow::Error))
        },
        SampleEvent::Sync(true) => (SampleState::SettingSync, SampleAction::SetSync),
        SampleEvent::Sync(false) => (SampleState::SettingSync, SampleAction::AddSync),
        SampleEvent::SyncSet => (SampleState::Sending, SampleAction::Send),
        SampleEvent::Sent(true) => (SampleState::Finished, SampleAction::Finish(Flow::Success)),
        SampleEvent::Sent(false) => (SampleState::Finished, SampleAction::Finish(Flow::Error)),
    }
}

/// Starts the handling of a sample that the pipeline announced.
pub fn new_sample() -> (r: (SampleState, SampleAction))
    ensures
        r == (SampleState::Pulling, SampleAction::Pull),
{
    (SampleState::Pulling, SampleAction::Pull)
}

/// Takes up what came of a step in the handling of a sample.
pub fn sample_step(state: SampleState, event: SampleEvent) -> (r: (SampleState, SampleAction))
    requires
        can_follow(state, event),
    ensures
        r == after_sample_event(event),
{
    match event {
        SampleEvent::Pulled(pulled) => if pulled {
            (SampleState::ReadingInfo, SampleAction::ReadInfo)
        } else {
            (SampleState::Finished, SampleAction::Finish(Flow::Eos))
        },
        SampleEvent::Info(known) => if known {
            (SampleState::ReadingMemory, SampleAction::ReadMemory)
        } else {
            (SampleState::Finished, SampleAction::Finish(Flow::NotNegotiated))
        },
        SampleEvent::Memory(count, drawn) => if count > 0 && drawn {
            (SampleState::FindingSync, SampleAction::FindSync)
        } else {
            (SampleState::Finished, SampleAction::Finish(Flow::Error))
        },
        SampleEvent::Sync(found) => if found {
            (SampleState::SettingSync, SampleAction::SetSync)
        } else {
            (SampleState::SettingSync, SampleAction::AddSync)
        },
        SampleEvent::SyncSet => (SampleState::Sending, SampleAction::Send),
        SampleEvent::Sent(taken) => if taken {
            (SampleState::Finished, SampleAction::Finish(Flow::Success))
        } else {
            (SampleState::Finished, SampleAction::Finish(Flow::Error))
        },
    }
}

/// The action that a state stands for; a finished handling has none left.
pub open spec fn pending(state: SampleState, action: SampleAction) -> bool {
    match state {
        SampleState::Pulling => action is Pull,
        SampleState::ReadingInfo => action is ReadInfo,
        SampleState::ReadingMemory => action is ReadMemory,
        SampleState::FindingSync => action is FindSync,
        SampleState::SettingSync => action is SetSync || action is AddSync,
        SampleState::Sending => action is Send,
        SampleState::Finished => action is Finish,
    }
}

/// The states from the first one on, with the events that lead from each to the next.
pub open spec fn is_handling(events: Seq<SampleEvent>, states: Seq<SampleState>) -> bool {
    &&& states.len() == events.len() + 1
    &&& states[0] is Pulling
    &&& forall|i: int|
        0 <= i < events.len() ==> can_follow(states[i], #[trigger] events[i]) && states[i + 1]
            == after_sample_event(events[i]).0
}

/// The handling of a sample takes six steps at most: every event moves it forward.
pub proof fn sample_handling_moves_forward(state: SampleState, event: SampleEvent)
    requires
        can_follow(state, event),
    ensures
        sample_stage(state) < sample_stage(after_sample_event(event).0) <= 6,
        pending(after_sample_event(event).0, after_sample_event(event).1),
{
}

/// The place of a state on the way of a sample.
pub open spec fn sample_stage(state: SampleState) -> int {
    match state {
        SampleState::Pulling => 0,
        SampleState::ReadingInfo => 1,
        SampleState::ReadingMemory => 2,
        SampleState::FindingSync => 3,
        SampleState::SettingSync => 4,
        SampleState::Sending => 5,
        SampleState::Finished => 6,
    }
}

/// A frame is passed on only after it was pulled, its format is known, its first memory is one of
/// the drawing context, and its mark is set.
pub proof fn frames_are_marked_before_sending(
    events: Seq<SampleEvent>,
    states: Seq<SampleState>,
)
    requires
        is_handling(events, states),
        states.last() is Sending,
    ensures
        events.len() == 5,
        events[0] == SampleEvent::Pulled(true),
        events[1] == SampleEvent::Info(true),
        events[2] matches SampleEvent::Memory(count, true) && count > 0,
        events[3] is Sync,
        events[4] is SyncSet,
{
    stages_count_events(events, states, events.len() as int);
    assert(events.len() == 5);
    assert(states[0] is Pulling);
    assert(can_follow(states[0], events[0]));
    assert(can_follow(states[1], events[1]));
    assert(can_follow(states[2], events[2]));
    assert(can_follow(states[3], events[3]));
    assert(can_follow(states[4], events[4]));
}

/// Until a handling is finished, its stage is the number of its events.
proof fn stages_count_events(events: Seq<SampleEvent>, states: Seq<SampleState>, i: int)
    requires
        is_handling(events, states),
        0 <= i <= events.len(),
        !(states[i] is Finished),
    ensures
        sample_stage(states[i]) == i,
    decreases i,
{
    if i > 0 {
        assert(can_follow(states[i - 1], events[i - 1]));
        assert(states[i] == after_sample_event(events[i - 1]).0);
        stages_count_events(events, states, i - 1);
    }
}

/// What came of a step in showing a frame.
#[derive(Clone, Copy, Debug, PartialEq, Eq, Structural)]
pub enum FrameEvent {
    /// Whether a frame came; it does not where the pipeline is gone.
    Received(bool),
    /// Whether the frame can be read.
    FrameRead(bool),
    /// The drawing commands that fill the frame are done; its first texture, if it has one.
    Synced(Option<u32>),
    /// The frame is drawn.
    Drawn,
}

/// How far the showing of frames is.
#[derive(Clone, Copy, Debug, PartialEq, Eq, Structural)]
pub enum FrameState {
    Receiving,
    Reading,
    Syncing,
    Drawing,
    Stopped,
}

/// The next step in showing frames.
#[derive(Debug, PartialEq, Eq)]
pub enum FrameAction {
    /// Wait for a frame.
    Receive,
    /// Read the frame.
    ReadFrame,
    /// Wait for the drawing commands that fill it.
    Sync,
    /// Draw this texture.
    Draw(u32),
    /// End, as no frame will come.
    Disconnect,
    /// End with an error.
    Fail(DisplayError),
}

/// Whether an event can happen in a state. No texture has the number zero.
pub open spec fn can_follow_frame(state: FrameState, event: FrameEvent) -> bool {
    match event {
        FrameEvent::Received(_) => state is Receiving,
        FrameEvent::FrameRead(_) => state is Reading,
        FrameEvent::Synced(texture) => state is Syncing && texture != Some(0u32),
        FrameEvent::Drawn => state is Drawing,
    }
}

/// The state and the action that follow an event: a frame is received, read, awaited and drawn,
/// and then the next one is received. A frame without a texture is not drawn.
pub open spec fn after_frame_event(event: FrameEvent) -> (FrameState, FrameAction) {
    match event {
        FrameEvent::Received(true) => (FrameState::Reading, FrameAction::ReadFrame),
        FrameEvent::Received(false) => (FrameState::Stopped, FrameAction::Disconnect),
        FrameEvent::FrameRead(true) => (FrameState::Syncing, FrameAction::Sync),
        FrameEvent::FrameRead(false) => (
            FrameState::Stopped,
            FrameAction::Fail(DisplayError::FrameUnreadable),
        ),
        FrameEvent::Synced(Some(texture)) => (FrameState::Drawing, FrameAction::Draw(texture)),
        FrameEvent::Synced(None) => (FrameState::Receiving, FrameAction::Receive),
        FrameEvent::Drawn => (FrameState::Receiving, FrameAction::Receive),
    }
}

impl crate::display::DisplaySetup {
    /// Starts to show frames.
    pub fn main_loop(self) -> (r: (FrameState, FrameAction))
        ensures
            r == (FrameState::Receiving, FrameAction::Receive),
    {
        (FrameState::Receiving, FrameAction::Receive)
    }

    /// Takes up what came of a step in showing a frame.
    pub fn step(state: FrameState, event: FrameEvent) -> (r: (FrameState, FrameAction))
        requires
            can_follow_frame(state, event),
        ensures
            r == after_frame_event(event),
    {
        match event {
            FrameEvent::Received(received) => if received {
                (FrameState::Reading, FrameAction::ReadFrame)
            } else {
                (FrameState::Stopped, FrameAction::Disconnect)
            },
            FrameEvent::FrameRead(readable) => if readable {
                (FrameState::Syncing, FrameAction::Sync)
            } else {
                (FrameState::Stopped, FrameAction::Fail(DisplayError::FrameUnreadable))
            },
            FrameEvent::Synced(Some(texture)) => (
                FrameState::Drawing,
                FrameAction::Draw(texture),
            ),
            FrameEvent::Synced(None) => (FrameState::Receiving, FrameAction::Receive),
            FrameEvent::Drawn => (FrameState::Receiving, FrameAction::Receive),
        }
    }
}

/// The states that the showing of frames goes through.
pub open spec fn run(state: FrameState, events: Seq<FrameEvent>) -> FrameState
    decreases events.len(),
{
    if events.len() == 0 {
        state
    } else {
        after_frame_event(events.last()).0
    }
}

/// Whether events can happen one after the other, from a state on.
pub open spec fn is_run(state: FrameState, events: Seq<FrameEvent>) -> bool
    decreases events.len(),
{
    events.len() > 0 ==> is_run(state, events.drop_last()) && can_follow_frame(
        run(state, events.drop_last()),
        events.last(),
    )
}

/// The textures that are drawn in the course of events, in their order.
pub open spec fn drawn(events: Seq<FrameEvent>) -> Seq<u32>
    decreases events.len(),
{
    if events.len() == 0 {
        Seq::empty()
    } else {
        let before = drawn(events.drop_last());
        match after_frame_event(events.last()).1 {
            FrameAction::Draw(texture) => before.push(texture),
            _ => before,
        }
    }
}

/// The events in showing one frame: it is received, read and awaited, and drawn where it has a
/// texture.
pub open spec fn showing(texture: Option<u32>) -> Seq<FrameEvent> {
    let awaited = seq![
        FrameEvent::Received(true),
        FrameEvent::FrameRead(true),
        FrameEvent::Synced(texture),
    ];
    if texture is Some {
        awaited.push(FrameEvent::Drawn)
    } else {
        awaited
    }
}

/// The events in showing frames, given by their textures, one after the other.
pub open spec fn showing_all(frames: Seq<Option<u32>>) -> Seq<FrameEvent>
    decreases frames.len(),
{
    if frames.len() == 0 {
        Seq::empty()
    } else {
        showing_all(frames.drop_last()) + showing(frames.last())
    }
}

/// The textures of the frames that have one.
pub open spec fn textures(frames: Seq<Option<u32>>) -> Seq<u32>
    decreases frames.len(),
{
    if frames.len() == 0 {
        Seq::empty()
    } else {
        match frames.last() {
            Some(texture) => textures(frames.drop_last()).push(texture),
            None => textures(frames.drop_last()),
        }
    }
}

/// The frames that were received, read and awaited in the course of events.
pub open spec fn awaited(events: Seq<FrameEvent>) -> Seq<Option<u32>>
    decreases events.len(),
{
    if events.len() == 0 {
        Seq::empty()
    } else {
        match events.last() {
            FrameEvent::Synced(texture) => awaited(events.drop_last()).push(texture),
            _ => awaited(events.drop_last()),
        }
    }
}

/// Whether events show whole frames, up to what the state says of the last one.
spec fn got_so_far(state: FrameState, events: Seq<FrameEvent>) -> bool {
    let frames = awaited(events);
    match state {
        FrameState::Receiving => events == showing_all(frames),
        FrameState::Reading => events == showing_all(frames).push(FrameEvent::Received(true)),
        FrameState::Syncing => events == showing_all(frames).push(
            FrameEvent::Received(true),
        ).push(FrameEvent::FrameRead(true)),
        FrameState::Drawing => {
            &&& frames.len() > 0
            &&& frames.last() is Some
            &&& events.push(FrameEvent::Drawn) == showing_all(frames)
        },
        FrameState::Stopped => events.len() > 0,
    }
}

proof fn frames_keep_up(events: Seq<FrameEvent>)
    requires
        is_run(FrameState::Receiving, events),
    ensures
        got_so_far(run(FrameState::Receiving, events), events),
        drawn(events) == textures(awaited(events)),
    decreases events.len(),
{
    if events.len() > 0 {
        let before = events.drop_last();
        let frames = awaited(events);
        frames_keep_up(before);
        assert(events =~= before.push(events.last()));
        match events.last() {
            FrameEvent::Synced(texture) => {
                assert(frames.drop_last() =~= awaited(before));
                assert(frames.last() == texture);
                assert(showing_all(frames) == showing_all(awaited(before)) + showing(texture));
                if texture is Some {
                    assert(events.push(FrameEvent::Drawn) =~= showing_all(frames));
                } else {
                    assert(events =~= showing_all(frames));
                }
            },
            FrameEvent::Drawn => {
                assert(events == before.push(FrameEvent::Drawn));
                assert(frames == awaited(before));
            },
            FrameEvent::Received(_) => {
                assert(frames == awaited(before));
            },
            FrameEvent::FrameRead(_) => {
                assert(frames == awaited(before));
            },
        }
    } else {
        assert(events =~= showing_all(awaited(events)));
    }
}

/// In showing frames, each frame that is awaited was received and read before, and the textures
/// drawn are those of these frames that have one, in order and once each. Between two frames,
/// nothing is left over.
pub proof fn frames_are_drawn_in_order(events: Seq<FrameEvent>)
    requires
        is_run(FrameState::Receiving, events),
    ensures
        drawn(events) == textures(awaited(events)),
        run(FrameState::Receiving, events) is Receiving ==> events == showing_all(awaited(events)),
{
    frames_keep_up(events);
}

/// Any frames can be shown one after the other, and the textures drawn are then theirs. No texture
/// has the number zero.
pub proof fn frames_can_be_shown(frames: Seq<Option<u32>>)
    requires
        forall|i: int| 0 <= i < frames.len() ==> #[trigger] frames[i] != Some(0u32),
    ensures
        is_run(FrameState::Receiving, showing_all(frames)),
        run(FrameState::Receiving, showing_all(frames)) is Receiving,
        drawn(showing_all(frames)) == textures(frames),
    decreases frames.len(),
{
    if frames.len() > 0 {
        let front = frames.drop_last();
        let texture = frames.last();
        assert forall|i: int| 0 <= i < front.len() implies #[trigger] front[i] != Some(0u32) by {
            assert(front[i] == frames[i]);
        }
        frames_can_be_shown(front);
        assert(frames[frames.len() - 1] != Some(0u32));
        let shown = showing_all(front);
        let received = shown.push(FrameEvent::Received(true));
        let read = received.push(FrameEvent::FrameRead(true));
        let synced = read.push(FrameEvent::Synced(texture));
        assert(received.drop_last() =~= shown);
        assert(is_run(FrameState::Receiving, received));
        assert(drawn(received) == drawn(shown));
        assert(read.drop_last() =~= received);
        assert(is_run(FrameState::Receiving, read));
        assert(drawn(read) == drawn(shown));
        assert(synced.drop_last() =~= read);
        assert(is_run(FrameState::Receiving, synced));
        if texture is Some {
            let done = synced.push(FrameEvent::Drawn);
            assert(done.drop_last() =~= synced);
            assert(is_run(FrameState::Receiving, done));
            assert(drawn(synced) == drawn(shown).push(texture->0));
            assert(drawn(done) == drawn(synced));
            assert(showing_all(frames) =~= done);
        } else {
            assert(drawn(synced) == drawn(shown));
            assert(showing_all(frames) =~= synced);
        }
    }
}

/// Showing frames ends only where no frame comes or a frame cannot be read; a frame without a
/// texture does not end it.
pub proof fn showing_ends_for_want_of_frames(state: FrameState, event: FrameEvent)
    requires
        can_follow_frame(state, event),
    ensures
        after_frame_event(event).0 is Stopped <==> event == FrameEvent::Received(false) || event
            == FrameEvent::FrameRead(false),
        after_frame_event(event).1 matches FrameAction::Draw(texture) ==> texture != 0 && event
            == FrameEvent::Synced(Some(texture)),
{
}

/// What becomes of a sample: one that was pulled, whose format is known, whose buffer has at least
/// one memory, and whose first memory is one of the drawing context, is marked and offered to the
/// display, and the pipeline hears whether it was taken. Any other is dropped, and the pipeline
/// hears that there are no more samples, that the format is not known, or that the sample cannot be
/// used, for the first of these that holds.
pub proof fn fate_of_sample(
    pulled: bool,
    known: bool,
    count: usize,
    drawn: bool,
    found: bool,
    taken: bool,
)
    ensures
        can_follow(SampleState::Pulling, SampleEvent::Pulled(pulled)),
        ({
            let (state, action) = after_sample_event(SampleEvent::Pulled(pulled));
            if pulled {
                action is ReadInfo && can_follow(state, SampleEvent::Info(known))
            } else {
                state is Finished && action == SampleAction::Finish(Flow::Eos)
            }
        }),
        ({
            let (state, action) = after_sample_event(SampleEvent::Info(known));
            if known {
                action is ReadMemory && can_follow(state, SampleEvent::Memory(count, drawn))
            } else {
                state is Finished && action == SampleAction::Finish(Flow::NotNegotiated)
            }
        }),
        ({
            let (state, action) = after_sample_event(SampleEvent::Memory(count, drawn));
            if count >= 1 && drawn {
                action is FindSync && can_follow(state, SampleEvent::Sync(found))
            } else {
                state is Finished && action == SampleAction::Finish(Flow::Error)
            }
        }),
        ({
            let (state, action) = after_sample_event(SampleEvent::Sync(found));
            &&& action is SetSync <==> found
            &&& action is AddSync <==> !found
            &&& can_follow(state, SampleEvent::SyncSet)
        }),
        ({
            let (state, action) = after_sample_event(SampleEvent::SyncSet);
            action is Send && can_follow(state, SampleEvent::Sent(taken))
        }),
        ({
            let (state, action) = after_sample_event(SampleEvent::Sent(taken));
            &&& state is Finished
            &&& action == SampleAction::Finish(Flow::Success) <==> taken
            &&& action == SampleAction::Finish(Flow::Error) <==> !taken
        }),
{
}

/// What becomes of a frame: one that came and can be read is awaited, and its texture, whatever its
/// number, is drawn; then the next one is waited for. Without a frame, and with one that cannot be
/// read, showing ends.
pub proof fn fate_of_frame(received: bool, readable: bool, texture: Option<u32>)
    requires
        texture != Some(0u32),
    ensures
        can_follow_frame(FrameState::Receiving, FrameEvent::Received(received)),
        ({
            let (state, action) = after_frame_event(FrameEvent::Received(received));
            if received {
                action is ReadFrame && can_follow_frame(state, FrameEvent::FrameRead(readable))
            } else {
                state is Stopped && action is Disconnect
            }
        }),
        ({
            let (state, action) = after_frame_event(FrameEvent::FrameRead(readable));
            if readable {
                action is Sync && can_follow_frame(state, FrameEvent::Synced(texture))
            } else {
                state is Stopped && action == FrameAction::Fail(DisplayError::FrameUnreadable)
            }
        }),
        ({
            let (state, action) = after_frame_event(FrameEvent::Synced(texture));
            match texture {
                Some(number) => action == FrameAction::Draw(number) && can_follow_frame(
                    state,
                    FrameEvent::Drawn,
                ),
                None => action is Receive && state is Receiving,
            }
        }),
        ({
            let (state, action) = after_frame_event(FrameEvent::Drawn);
            action is Receive && state is Receiving
        }),
{
}

} // verus!
