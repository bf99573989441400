//! The steps that set a display up.
use vstd::prelude::*;

use crate::display::{ConfigInfo, DisplayError, DisplaySetup, GlApi};
use crate::window::GbmContext;

verus! {

/// The number of frames that the sink of the pipeline holds back.
pub const MAX_BUFFERS: u32 = 1;

/// The kind of texture that the sink takes.
pub const TEXTURE_TARGET: &'static str = "2D";

/// The element that the sink is wrapped in.
pub const SINK_ELEMENT: &'static str = "glsinkbin";

/// Where the frames that a sink takes are kept.
#[derive(Clone, Copy, Debug, PartialEq, Eq, Structural)]
pub enum FrameMemory {
    /// In textures of the drawing library.
    Gl,
}

/// How the pixels of the frames that a sink takes are written.
#[derive(Clone, Copy, Debug, PartialEq, Eq, Structural)]
pub enum PixelFormat {
    /// Red, green, blue and alpha.
    Rgba,
}

/// What the sink of the pipeline is made with.
#[derive(Clone, Copy, Debug, PartialEq, Eq)]
pub struct SinkInfo {
    /// The element that the sink is wrapped in.
    pub element: &'static str,
    /// Where the frames are kept that the sink takes.
    pub memory: FrameMemory,
    /// How their pixels are written.
    pub format: PixelFormat,
    /// The kind of their texture.
    pub texture_target: &'static str,
    /// The number of frames that the sink holds back.
    pub max_buffers: u32,
    /// Whether the sink keeps the last frame.
    pub last_sample: bool,
}

/// The sink of the pipeline: it takes only flat textures of RGBA pixels, one at a time.
pub open spec fn sink_info() -> SinkInfo {
    SinkInfo {
        element: SINK_ELEMENT,
        memory: FrameMemory::Gl,
        format: PixelFormat::Rgba,
        texture_target: TEXTURE_TARGET,
        max_buffers: MAX_BUFFERS,
        last_sample: true,
    }
}

impl SinkInfo {
    /// The sink of the pipeline.
    pub fn new() -> (r: Self)
        ensures
            r == sink_info(),
    {
        SinkInfo {
            element: SINK_ELEMENT,
            memory: FrameMemory::Gl,
            format: PixelFormat::Rgba,
            texture_target: TEXTURE_TARGET,
            max_buffers: MAX_BUFFERS,
            last_sample: true,
        }
    }
}

/// The window system that a drawing context comes from.
#[derive(Clone, Copy, Debug, PartialEq, Eq, Structural)]
pub enum Platform {
    Egl,
}

/// What the drawing context is handed to the pipeline with.
#[derive(Clone, Copy, Debug, PartialEq, Eq, Structural)]
pub struct WrapInfo {
    /// The window system that the context comes from.
    pub platform: Platform,
    /// The interfaces that the context offers.
    pub api: GlApi,
}

impl DisplaySetup {
    /// What the drawing context is handed to the pipeline with.
    pub fn wrap_info(&self) -> (r: WrapInfo)
        ensures
            r == (WrapInfo { platform: Platform::Egl, api: self.api }),
    {
        WrapInfo { platform: Platform::Egl, api: self.api }
    }
}

/// A step of the setup after a configuration is chosen.
#[derive(Clone, Copy, Debug, PartialEq, Eq, Structural)]
pub enum SetupStep {
    /// Make the window surface.
    CreateSurface,
    /// Make the drawing context.
    CreateContext,
    /// Make the drawing context the one that commands go to.
    MakeCurrent,
    /// Hand the display to the pipeline.
    WrapDisplay,
    /// Hand the drawing context to the pipeline.
    WrapContext,
    /// Have the pipeline take the context up.
    Activate,
    /// Have the pipeline find out what the context offers.
    FillInfo,
    /// Set the scene up.
    InitScene,
    /// Let go of the drawing context.
    MakeNotCurrent,
    /// Make the sink of the pipeline.
    CreateSink,
    /// Put the sink into the pipeline.
    AddSink,
}

impl SetupStep {
    /// The place of a step among the steps.
    pub open spec fn number(self) -> int {
        match self {
            SetupStep::CreateSurface => 0,
            SetupStep::CreateContext => 1,
            SetupStep::MakeCurrent => 2,
            SetupStep::WrapDisplay => 3,
            SetupStep::WrapContext => 4,
            SetupStep::Activate => 5,
            SetupStep::FillInfo => 6,
            SetupStep::InitScene => 7,
            SetupStep::MakeNotCurrent => 8,
            SetupStep::CreateSink => 9,
            SetupStep::AddSink => 10,
        }
    }

    /// The step after this one, if it is not the last.
    pub fn next(self) -> (r: Option<SetupStep>)
        ensures
            r is None <==> self is AddSink,
            r matches Some(step) ==> step.number() == self.number() + 1,
    {
        match self {
            SetupStep::CreateSurface => Some(SetupStep::CreateContext),
            SetupStep::CreateContext => Some(SetupStep::MakeCurrent),
            SetupStep::MakeCurrent => Some(SetupStep::WrapDisplay),
            SetupStep::WrapDisplay => Some(SetupStep::WrapContext),
            SetupStep::WrapContext => Some(SetupStep::Activate),
            SetupStep::Activate => Some(SetupStep::FillInfo),
            SetupStep::FillInfo => Some(SetupStep::InitScene),
            SetupStep::InitScene => Some(SetupStep::MakeNotCurrent),
            SetupStep::MakeNotCurrent => Some(SetupStep::CreateSink),
            SetupStep::CreateSink => Some(SetupStep::AddSink),
            SetupStep::AddSink => None,
        }
    }
}

/// How far the setup of a display is.
#[derive(Clone, Copy, Debug, PartialEq, Eq, Structural)]
pub enum SetupState {
    /// The display of this width and height is being opened.
    Opening(u16, u16),
    /// The configurations of the display of this width and height are being listed.
    Listing(u16, u16),
    /// A configuration is chosen, and a step is under way.
    Taking(SetupStep, DisplaySetup),
    /// The display is set up.
    Done(DisplaySetup),
    /// The display cannot be set up.
    Failed,
}

/// What came of a step of the setup.
#[derive(Debug, PartialEq, Eq)]
pub enum SetupEvent {
    /// The step succeeded.
    Succeeded,
    /// The step failed with an error of the library that carried it out.
    Refused,
    /// The configurations that the display offers.
    Listed(Vec<ConfigInfo>),
    /// Whether the pipeline took the drawing context.
    Wrapped(bool),
    /// The scene is set up, or the reason why not.
    SceneSet(Result<(), String>),
}

/// What the setup is to do next.
#[derive(Debug, PartialEq, Eq)]
pub enum SetupAction {
    /// Open the display.
    Open,
    /// List the configurations of the display.
    List,
    /// Take a step that has no action of its own, with what was chosen.
    Take(SetupStep, DisplaySetup),
    /// Hand the drawing context to the pipeline.
    WrapContext(WrapInfo),
    /// Make the sink of the pipeline.
    CreateSink(SinkInfo),
    /// The display is set up.
    Finish(DisplaySetup),
    /// Give up with this error.
    Fail(DisplayError),
    /// Give up with the error of the step.
    Abort,
}

/// Whether an event can happen in a state. A display that offers a configuration has a width and a
/// height.
pub open spec fn can_happen(state: SetupState, event: SetupEvent) -> bool {
    match event {
        SetupEvent::Succeeded => match state {
            SetupState::Opening(_, _) => true,
            SetupState::Taking(step, _) => !(step is WrapContext) && !(step is InitScene),
            _ => false,
        },
        SetupEvent::Refused => match state {
            SetupState::Opening(_, _) => true,
            SetupState::Listing(_, _) => true,
            SetupState::Taking(step, _) => !(step is WrapContext) && !(step is InitScene),
            _ => false,
        },
        SetupEvent::Listed(configs) => state matches SetupState::Listing(width, height) && (
        configs@.len() > 0 ==> width > 0 && height > 0),
        SetupEvent::Wrapped(_) => state matches SetupState::Taking(step, _) && step is WrapContext,
        SetupEvent::SceneSet(_) => state matches SetupState::Taking(step, _) && step is InitScene,
    }
}

/// The action that takes a step.
pub open spec fn taking(step: SetupStep, setup: DisplaySetup) -> SetupAction {
    if step is CreateSink {
        SetupAction::CreateSink(sink_info())
    } else if step is WrapContext {
        SetupAction::WrapContext(WrapInfo { platform: Platform::Egl, api: setup.api })
    } else {
        SetupAction::Take(step, setup)
    }
}

/// Whether the setup goes on from a step to the one after it, or ends after the last.
pub open spec fn goes_on(
    step: SetupStep,
    setup: DisplaySetup,
    state: SetupState,
    action: SetupAction,
) -> bool {
    if step is AddSink {
        state == SetupState::Done(setup) && action == SetupAction::Finish(setup)
    } else {
        &&& state matches SetupState::Taking(next, kept) && next.number() == step.number() + 1
            && kept == setup && action == taking(next, setup)
    }
}

/// Whether a state and an action are what follows an event.
pub open spec fn follows(
    before: SetupState,
    event: SetupEvent,
    state: SetupState,
    action: SetupAction,
) -> bool {
    match (before, event) {
        (_, SetupEvent::Refused) => state is Failed && action is Abort,
        (SetupState::Opening(width, height), _) => state == SetupState::Listing(width, height)
            && action is List,
        (SetupState::Listing(width, height), SetupEvent::Listed(configs)) => if configs@.len()
            == 0 {
            state is Failed && action == SetupAction::Fail(DisplayError::NoDisplayConfig)
        } else {
            let setup = DisplaySetup::of(width, height, configs@);
            &&& crate::display::is_best_config(configs@, setup.config as int)
            &&& state == SetupState::Taking(SetupStep::CreateSurface, setup)
            &&& action == SetupAction::Take(SetupStep::CreateSurface, setup)
        },
        (SetupState::Taking(_, _), SetupEvent::Wrapped(false)) => state is Failed && action
            == SetupAction::Fail(DisplayError::WrapContext),
        (SetupState::Taking(_, _), SetupEvent::SceneSet(Err(cause))) => state is Failed && action
            == SetupAction::Fail(DisplayError::OpenGl(cause)),
        (SetupState::Taking(step, setup), _) => goes_on(step, setup, state, action),
        _ => false,
    }
}

impl DisplaySetup {
    /// Starts to set a display up, on a place to draw on.
    pub fn create(context: &GbmContext) -> (r: (SetupState, SetupAction))
        ensures
            r.0 == SetupState::Opening(context.width, context.height),
            r.1 is Open,
    {
        (SetupState::Opening(context.width, context.height), SetupAction::Open)
    }

    /// Takes up what came of a step of the setup.
    pub fn setup_step(state: SetupState, event: SetupEvent) -> (r: (SetupState, SetupAction))
        requires
            can_happen(state, event),
        ensures
            follows(state, event, r.0, r.1),
    {
        match (state, event) {
            (_, SetupEvent::Refused) => (SetupState::Failed, SetupAction::Abort),
            (SetupState::Opening(width, height), _) => (
                SetupState::Listing(width, height),
                SetupAction::List,
            ),
            (
                SetupState::Listing(width, height),
                SetupEvent::Listed(configs),
            ) => match DisplaySetup::choose_config(width, height, &configs) {
                Err(error) => (SetupState::Failed, SetupAction::Fail(error)),
                Ok(setup) => (
                    SetupState::Taking(SetupStep::CreateSurface, setup),
                    SetupAction::Take(SetupStep::CreateSurface, setup),
                ),
            },
            (SetupState::Taking(step, setup), event) => {
                match event {
                    SetupEvent::Wrapped(wrapped) => {
                        if !wrapped {
                            return (
                                SetupState::Failed,
                                SetupAction::Fail(DisplayError::WrapContext),
                            );
                        }
                    },
                    SetupEvent::SceneSet(Err(cause)) => {
                        return (
                            SetupState::Failed,
                            SetupAction::Fail(DisplayError::OpenGl(cause)),
                        );
                    },
                    _ => {},
                }
                match step.next() {
                    Some(SetupStep::CreateSink) => (
                        SetupState::Taking(SetupStep::CreateSink, setup),
                        SetupAction::CreateSink(SinkInfo::new()),
                    ),
                    Some(SetupStep::WrapContext) => (
                        SetupState::Taking(SetupStep::WrapContext, setup),
                        SetupAction::WrapContext(setup.wrap_info()),
                    ),
                    Some(next) => (
                        SetupState::Taking(next, setup),
                        SetupAction::Take(next, setup),
                    ),
                    None => (SetupState::Done(setup), SetupAction::Finish(setup)),
                }
            },
            _ => (SetupState::Failed, SetupAction::Abort),
        }
    }
}

/// The states of a setup that goes through, with the events that lead from each to the next.
pub open spec fn is_setup(events: Seq<SetupEvent>, states: Seq<SetupState>) -> bool {
    &&& states.len() == events.len() + 1
    &&& states[0] is Opening
    &&& forall|i: int|
        0 <= i < events.len() ==> can_happen(states[i], #[trigger] events[i]) && exists|
            action: SetupAction,
        | #[trigger] follows(states[i], events[i], states[i + 1], action)
}

/// The place of a state on the way of the setup.
pub open spec fn stage(state: SetupState) -> int {
    match state {
        SetupState::Opening(_, _) => 0,
        SetupState::Listing(_, _) => 1,
        SetupState::Taking(step, _) => 2 + step.number(),
        SetupState::Done(_) => 13,
        SetupState::Failed => 14,
    }
}

/// Each event moves the setup on by one, or ends it in failure.
pub proof fn setup_moves_forward(
    before: SetupState,
    event: SetupEvent,
    state: SetupState,
    action: SetupAction,
)
    requires
        can_happen(before, event),
        follows(before, event, state, action),
    ensures
        state is Failed || stage(state) == stage(before) + 1,
        state is Failed <==> action is Fail || action is Abort,
        action is CreateSink ==> action == SetupAction::CreateSink(sink_info()),
        action is CreateSink <==> (state matches SetupState::Taking(step, _) && step is CreateSink),
        (before matches SetupState::Taking(_, setup) ==> match state {
            SetupState::Taking(_, kept) => kept == setup,
            SetupState::Done(kept) => kept == setup,
            _ => true,
        }),
{
}

/// A display that is set up uses the best of the configurations that it offers, and keeps the size
/// that it was opened with. It took every step, in order.
pub proof fn setup_uses_best_config(events: Seq<SetupEvent>, states: Seq<SetupState>)
    requires
        is_setup(events, states),
        states.last() is Done,
    ensures
        events.len() == 13,
        states[0] matches SetupState::Opening(width, height) && events[1] matches SetupEvent::Listed(
            configs,
        ) && states.last() == SetupState::Done(DisplaySetup::of(width, height, configs@))
            && crate::display::is_best_config(
            configs@,
            DisplaySetup::of(width, height, configs@).config as int,
        ),
        forall|i: int|
            2 <= i < 13 ==> (#[trigger] states[i] matches SetupState::Taking(step, setup)
                && step.number() == i - 2 && states.last() == SetupState::Done(setup)),
{
    setup_reaches(events, states, events.len() as int);
    assert(events.len() == 13);
    assert forall|i: int| 2 <= i < 13 implies (#[trigger] states[i] matches SetupState::Taking(
        step,
        setup,
    ) && step.number() == i - 2 && states.last() == SetupState::Done(setup)) by {
        setup_reaches(events, states, i);
        setup_keeps_choice(events, states, i);
    }
    assert(can_happen(states[0], events[0]));
    assert(can_happen(states[1], events[1]));
    setup_reaches(events, states, 0);
    setup_reaches(events, states, 1);
    setup_reaches(events, states, 2);
}

/// A setup that goes through has not failed before.
proof fn setup_reaches(events: Seq<SetupEvent>, states: Seq<SetupState>, i: int)
    requires
        is_setup(events, states),
        states.last() is Done,
        0 <= i <= events.len(),
    ensures
        !(states[i] is Failed),
        stage(states[i]) == i,
        states[i] is Done ==> i == events.len(),
    decreases i,
{
    assert(forall|j: int| 0 <= j < events.len() ==> can_happen(states[j], #[trigger] events[j]));
    if i < events.len() {
        assert(can_happen(states[i], events[i]));
    }
    if i > 0 {
        setup_reaches(events, states, i - 1);
        assert(can_happen(states[i - 1], events[i - 1]));
        let action = choose|action: SetupAction| #[trigger]
            follows(states[i - 1], events[i - 1], states[i], action);
        setup_moves_forward(states[i - 1], events[i - 1], states[i], action);
    }
}

/// What was chosen stays.
proof fn setup_keeps_choice(events: Seq<SetupEvent>, states: Seq<SetupState>, i: int)
    requires
        is_setup(events, states),
        states.last() is Done,
        2 <= i < events.len(),
        states[i] is Taking,
    ensures
        states.last() == SetupState::Done(states[i]->Taking_1),
    decreases events.len() - i,
{
    assert(can_happen(states[i], events[i]));
    let action = choose|action: SetupAction| #[trigger]
        follows(states[i], events[i], states[i + 1], action);
    setup_moves_forward(states[i], events[i], states[i + 1], action);
    setup_reaches(events, states, i + 1);
    if i + 1 < events.len() {
        setup_keeps_choice(events, states, i + 1);
    }
}

/// The pipeline takes the context up and the scene is set up after the drawing context became the
/// one that commands go to, and before the setup lets go of it.
pub proof fn scene_is_set_up_on_current_context(
    events: Seq<SetupEvent>,
    states: Seq<SetupState>,
    i: int,
)
    requires
        is_setup(events, states),
        states.last() is Done,
        0 <= i < events.len(),
        events[i] is SceneSet || events[i] is Wrapped,
    ensures
        exists|before: int, after: int|
            0 <= before < i < after < events.len() && (#[trigger] states[before] matches SetupState::Taking(
            step,
            _,
        ) && step is MakeCurrent) && (#[trigger] states[after] matches SetupState::Taking(step, _)
                && step is MakeNotCurrent),
{
    setup_uses_best_config(events, states);
    setup_reaches(events, states, i);
    assert(can_happen(states[i], events[i]));
    assert(states[4] is Taking);
    assert(states[10] is Taking);
}

/// A display that is opened is asked for its configurations. Where it offers one, the setup goes on
/// to the window surface, with the size of the display, the configuration that has the most samples
/// (the last of those with as many), and the interfaces of that configuration; it fails for want of
/// a configuration where it offers none, and only there.
pub proof fn offered_configs_are_used(
    width: u16,
    height: u16,
    configs: Vec<ConfigInfo>,
    i: int,
    state: SetupState,
    action: SetupAction,
)
    requires
        configs@.len() > 0 ==> width > 0 && height > 0,
        follows(SetupState::Listing(width, height), SetupEvent::Listed(configs), state, action),
    ensures
        can_happen(SetupState::Listing(width, height), SetupEvent::Listed(configs)),
        configs@.len() == 0 <==> state is Failed,
        configs@.len() == 0 ==> action == SetupAction::Fail(DisplayError::NoDisplayConfig),
        0 <= i < configs@.len() ==> (state matches SetupState::Taking(step, d) && {
            let chosen = configs@[d.config as int];
            &&& step is CreateSurface
            &&& action == SetupAction::Take(SetupStep::CreateSurface, d)
            &&& d.width == width
            &&& d.height == height
            &&& d.config < configs@.len()
            &&& configs@[i].num_samples <= chosen.num_samples
            &&& configs@[i].num_samples == chosen.num_samples ==> i <= d.config
            &&& d.api.opengl3 <==> chosen.api & 1 == 1
            &&& d.api.gles1 <==> chosen.api & 2 == 2
            &&& d.api.gles2 <==> chosen.api & 4 == 4
        }),
{
    if configs@.len() > 0 {
        let d = DisplaySetup::of(width, height, configs@);
        crate::display::setup_follows_config(width, height, configs@, d.config as int);
        if 0 <= i < configs@.len() {
            crate::display::best_config_in_numbers(configs@, d.config as int, i);
        }
    }
}

/// A display that could be opened is asked for its configurations, and keeps its size.
pub proof fn opened_display_is_asked(
    width: u16,
    height: u16,
    state: SetupState,
    action: SetupAction,
)
    requires
        follows(SetupState::Opening(width, height), SetupEvent::Succeeded, state, action),
    ensures
        can_happen(SetupState::Opening(width, height), SetupEvent::Succeeded),
        state == SetupState::Listing(width, height),
        action is List,
{
}

/// After a step that succeeds comes the next one, with the same choice: surface, context, making it
/// current, display and context for the pipeline, activation, information, scene, release, sink,
/// adding the sink. The context is handed over as one of EGL with the interfaces that were chosen.
/// The sink is a `glsinkbin` that takes flat RGBA textures, one at a time.
pub proof fn steps_come_in_turn(
    step: SetupStep,
    d: DisplaySetup,
    event: SetupEvent,
    state: SetupState,
    action: SetupAction,
)
    requires
        match step {
            SetupStep::WrapContext => event == SetupEvent::Wrapped(true),
            SetupStep::InitScene => event matches SetupEvent::SceneSet(Ok(_)),
            _ => event is Succeeded,
        },
        follows(SetupState::Taking(step, d), event, state, action),
    ensures
        can_happen(SetupState::Taking(step, d), event),
        match step {
            SetupStep::CreateSurface => state == SetupState::Taking(SetupStep::CreateContext, d)
                && action == SetupAction::Take(SetupStep::CreateContext, d),
            SetupStep::CreateContext => state == SetupState::Taking(SetupStep::MakeCurrent, d)
                && action == SetupAction::Take(SetupStep::MakeCurrent, d),
            SetupStep::MakeCurrent => state == SetupState::Taking(SetupStep::WrapDisplay, d)
                && action == SetupAction::Take(SetupStep::WrapDisplay, d),
            SetupStep::WrapDisplay => state == SetupState::Taking(SetupStep::WrapContext, d) && (
            action matches SetupAction::WrapContext(info) && info.platform is Egl && info.api
                == d.api),
            SetupStep::WrapContext => state == SetupState::Taking(SetupStep::Activate, d)
                && action == SetupAction::Take(SetupStep::Activate, d),
            SetupStep::Activate => state == SetupState::Taking(SetupStep::FillInfo, d) && action
                == SetupAction::Take(SetupStep::FillInfo, d),
            SetupStep::FillInfo => state == SetupState::Taking(SetupStep::InitScene, d) && action
                == SetupAction::Take(SetupStep::InitScene, d),
            SetupStep::InitScene => state == SetupState::Taking(SetupStep::MakeNotCurrent, d)
                && action == SetupAction::Take(SetupStep::MakeNotCurrent, d),
            SetupStep::MakeNotCurrent => state == SetupState::Taking(SetupStep::CreateSink, d) && (
            action matches SetupAction::CreateSink(info) && info.element@ == "glsinkbin"@
                && info.memory is Gl && info.format is Rgba && info.texture_target@ == "2D"@
                && info.max_buffers == 1 && info.last_sample),
            SetupStep::CreateSink => state == SetupState::Taking(SetupStep::AddSink, d) && action
                == SetupAction::Take(SetupStep::AddSink, d),
            SetupStep::AddSink => state == SetupState::Done(d) && action == SetupAction::Finish(d),
        },
{
}

/// A context that the pipeline does not take, and a scene that cannot be set up, end the setup with
/// an error that says so; the reason of the scene is passed on as it is.
pub proof fn setup_says_what_failed(
    d: DisplaySetup,
    cause: String,
    state: SetupState,
    action: SetupAction,
)
    ensures
        can_happen(SetupState::Taking(SetupStep::WrapContext, d), SetupEvent::Wrapped(false)),
        follows(
            SetupState::Taking(SetupStep::WrapContext, d),
            SetupEvent::Wrapped(false),
            state,
            action,
        ) <==> state is Failed && action == SetupAction::Fail(DisplayError::WrapContext),
        can_happen(SetupState::Taking(SetupStep::InitScene, d), SetupEvent::SceneSet(Err(cause))),
        follows(
            SetupState::Taking(SetupStep::InitScene, d),
            SetupEvent::SceneSet(Err(cause)),
            state,
            action,
        ) <==> state is Failed && action == SetupAction::Fail(DisplayError::OpenGl(cause)),
{
}

/// A step that the library refuses ends the setup with the error of that library, whatever the step.
pub proof fn refused_steps_end_setup(
    width: u16,
    height: u16,
    step: SetupStep,
    d: DisplaySetup,
    state: SetupState,
    action: SetupAction,
)
    requires
        !(step is WrapContext),
        !(step is InitScene),
    ensures
        can_happen(SetupState::Opening(width, height), SetupEvent::Refused),
        can_happen(SetupState::Listing(width, height), SetupEvent::Refused),
        can_happen(SetupState::Taking(step, d), SetupEvent::Refused),
        follows(SetupState::Opening(width, height), SetupEvent::Refused, state, action)
            <==> state is Failed && action is Abort,
        follows(SetupState::Listing(width, height), SetupEvent::Refused, state, action)
            <==> state is Failed && action is Abort,
        follows(SetupState::Taking(step, d), SetupEvent::Refused, state, action) <==> state
            is Failed && action is Abort,
{
}

} // verus!
