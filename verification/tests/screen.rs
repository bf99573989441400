use glutin::config::Api;
use merdia::display::{
    gst_gl_api, select_config, ConfigInfo, DisplayError, DisplaySetup, GlApi,
};
use merdia::frames::{
    new_sample, sample_step, Flow, FrameAction, FrameEvent, FrameState, SampleAction, SampleEvent,
    SampleState,
};
use merdia::setup::{
    FrameMemory, PixelFormat, Platform, SetupAction, SetupEvent, SetupState, SetupStep, SinkInfo,
    WrapInfo,
};
use merdia::window::{
    select_mode, ConnectorInfo, GbmAction, GbmContext, GbmEvent, GbmState, ModeInfo,
    SurfaceFormat, SurfaceInfo, WindowError, PREFERRED,
};

fn mode(width: u16, height: u16, mode_type: u32) -> ModeInfo {
    ModeInfo {
        name: b"mode".to_vec(),
        width,
        height,
        mode_type,
    }
}

fn connector(modes: Vec<ModeInfo>) -> ConnectorInfo {
    ConnectorInfo {
        connected: true,
        modes,
        current_encoder: Some(31),
    }
}

fn config(num_samples: u8, api: u8) -> ConfigInfo {
    ConfigInfo { num_samples, api }
}

#[test]
fn preferred_bit_is_that_of_the_kernel() {
    assert_eq!(PREFERRED, drm::control::ModeTypeFlags::PREFERRED.bits());
}

#[test]
fn first_preferred_mode_is_used() {
    let modes = vec![mode(3000, 2000, 0), mode(800, 600, 8), mode(1024, 768, 8)];
    assert_eq!(select_mode(&modes), Some(1));
    let modes = vec![mode(3000, 2000, 0x40), mode(800, 600, 0x48)];
    assert_eq!(select_mode(&modes), Some(1));
}

#[test]
fn largest_mode_is_used_without_preference() {
    let modes = vec![mode(800, 6000, 0x40), mode(1024, 768, 7), mode(1024, 600, 0)];
    assert_eq!(select_mode(&modes), Some(1));
    let modes = vec![mode(1024, 768, 0), mode(1024, 768, 0), mode(640, 480, 0)];
    assert_eq!(select_mode(&modes), Some(1));
    assert_eq!(select_mode(&vec![]), None);
}

#[test]
fn search_passes_over_unusable_connectors() {
    let (state, action) = GbmContext::create(4);
    assert_eq!(action, GbmAction::Probe(0));
    let (state, action) = GbmContext::step(state, GbmEvent::Probed(None));
    assert_eq!(action, GbmAction::Probe(1));
    let mut away = connector(vec![mode(1, 1, 8)]);
    away.connected = false;
    let (state, action) = GbmContext::step(state, GbmEvent::Probed(Some(away)));
    assert_eq!(action, GbmAction::Probe(2));
    let (state, action) = GbmContext::step(state, GbmEvent::Probed(Some(connector(vec![]))));
    assert_eq!(action, GbmAction::Probe(3));
    let found = connector(vec![mode(640, 480, 0), mode(1920, 1080, 0)]);
    let (state, action) = GbmContext::step(state, GbmEvent::Probed(Some(found)));
    assert_eq!(action, GbmAction::ReadEncoder(31));
    let (state, action) = GbmContext::step(state, GbmEvent::EncoderRead(Some(41)));
    let surface = SurfaceInfo {
        width: 1920,
        height: 1080,
        format: SurfaceFormat::Xrgb8888,
        scanout: true,
        rendering: true,
    };
    assert_eq!(action, GbmAction::CreateSurface(surface));
    let context = GbmContext {
        connector: 3,
        mode: 1,
        encoder: 31,
        crtc: 41,
        width: 1920,
        height: 1080,
    };
    assert_eq!(state, GbmState::Done(context));
    assert_eq!(context.surface_info(), surface);
}

#[test]
fn search_fails_without_connector() {
    let failure = GbmAction::Fail(WindowError::NoConnectedConnector);
    assert_eq!(GbmContext::create(0), (GbmState::Failed, failure));
    let (state, _) = GbmContext::create(1);
    assert_eq!(
        GbmContext::step(state, GbmEvent::Probed(None)),
        (GbmState::Failed, failure)
    );
}

#[test]
fn search_fails_on_unreadable_name() {
    let mut unnamed = mode(640, 480, 8);
    unnamed.name = vec![0xff];
    let (state, _) = GbmContext::create(1);
    assert_eq!(
        GbmContext::step(state, GbmEvent::Probed(Some(connector(vec![mode(800, 600, 0), unnamed])))),
        (GbmState::Failed, GbmAction::RejectName(1))
    );
}

#[test]
fn search_fails_without_encoder_or_crtc() {
    let mut bare = connector(vec![mode(640, 480, 0)]);
    bare.current_encoder = None;
    let (state, _) = GbmContext::create(2);
    assert_eq!(
        GbmContext::step(state, GbmEvent::Probed(Some(bare))),
        (
            GbmState::Failed,
            GbmAction::Fail(WindowError::NoCurrentEncoder)
        )
    );
    let whole = connector(vec![mode(640, 480, 0)]);
    let (state, _) = GbmContext::step(state, GbmEvent::Probed(Some(whole)));
    assert_eq!(
        GbmContext::step(state, GbmEvent::EncoderRead(None)),
        (GbmState::Failed, GbmAction::Fail(WindowError::NoCrtc))
    );
}

#[test]
fn search_ends_with_the_error_of_the_encoder() {
    let (state, _) = GbmContext::create(2);
    let whole = connector(vec![mode(640, 480, 0)]);
    let (state, action) = GbmContext::step(state, GbmEvent::Probed(Some(whole)));
    assert_eq!(action, GbmAction::ReadEncoder(31));
    assert_eq!(
        GbmContext::step(state, GbmEvent::EncoderRefused),
        (GbmState::Failed, GbmAction::Abort)
    );
}

#[test]
fn window_errors_have_words() {
    assert_eq!(
        WindowError::NoConnectedConnector.message(),
        "no connected connector found"
    );
    assert_eq!(WindowError::NoCurrentEncoder.message(), "no current encoder");
    assert_eq!(WindowError::NoCrtc.message(), "no crtc on encoder");
}

#[test]
fn last_config_with_most_samples_is_used() {
    let configs = vec![config(4, 1), config(8, 2), config(8, 4), config(0, 8)];
    assert_eq!(select_config(&configs), Some(2));
    assert_eq!(select_config(&vec![]), None);
}

#[test]
fn interfaces_follow_the_config() {
    let offered = |api: Api| gst_gl_api(api.bits());
    let none = GlApi {
        opengl3: false,
        gles1: false,
        gles2: false,
    };
    assert_eq!(offered(Api::GLES3), none);
    assert_eq!(
        offered(Api::OPENGL),
        GlApi {
            opengl3: true,
            ..none
        }
    );
    assert_eq!(offered(Api::GLES1), GlApi { gles1: true, ..none });
    assert_eq!(
        offered(Api::GLES2 | Api::OPENGL),
        GlApi {
            opengl3: true,
            gles1: false,
            gles2: true
        }
    );
    assert_eq!(gst_gl_api(0xf0), none);
}

fn context() -> GbmContext {
    GbmContext {
        connector: 0,
        mode: 0,
        encoder: 1,
        crtc: 2,
        width: 1920,
        height: 1080,
    }
}

fn chosen() -> DisplaySetup {
    DisplaySetup {
        config: 1,
        api: GlApi {
            opengl3: false,
            gles1: false,
            gles2: true,
        },
        width: 1920,
        height: 1080,
    }
}

fn listed() -> SetupState {
    let (state, action) = DisplaySetup::create(&context());
    assert_eq!(action, SetupAction::Open);
    let (state, action) = DisplaySetup::setup_step(state, SetupEvent::Succeeded);
    assert_eq!(action, SetupAction::List);
    let configs = vec![config(0, 1), config(0, 4)];
    let (state, action) = DisplaySetup::setup_step(state, SetupEvent::Listed(configs));
    assert_eq!(action, SetupAction::Take(SetupStep::CreateSurface, chosen()));
    state
}

#[test]
fn display_is_set_up_step_by_step() {
    let steps = [
        (SetupEvent::Succeeded, SetupStep::CreateContext),
        (SetupEvent::Succeeded, SetupStep::MakeCurrent),
        (SetupEvent::Succeeded, SetupStep::WrapDisplay),
        (SetupEvent::Wrapped(true), SetupStep::Activate),
        (SetupEvent::Succeeded, SetupStep::FillInfo),
        (SetupEvent::Succeeded, SetupStep::InitScene),
        (SetupEvent::SceneSet(Ok(())), SetupStep::MakeNotCurrent),
    ];
    let mut state = listed();
    for (event, step) in steps {
        if step == SetupStep::Activate {
            let (next, action) = DisplaySetup::setup_step(state, SetupEvent::Succeeded);
            let wrap = WrapInfo {
                platform: Platform::Egl,
                api: chosen().api,
            };
            assert_eq!(action, SetupAction::WrapContext(wrap));
            assert_eq!(chosen().wrap_info(), wrap);
            state = next;
        }
        let (next, action) = DisplaySetup::setup_step(state, event);
        assert_eq!(action, SetupAction::Take(step, chosen()));
        state = next;
    }
    let (state, action) = DisplaySetup::setup_step(state, SetupEvent::Succeeded);
    assert_eq!(action, SetupAction::CreateSink(SinkInfo::new()));
    let (state, action) = DisplaySetup::setup_step(state, SetupEvent::Succeeded);
    assert_eq!(action, SetupAction::Take(SetupStep::AddSink, chosen()));
    let (state, action) = DisplaySetup::setup_step(state, SetupEvent::Succeeded);
    assert_eq!(state, SetupState::Done(chosen()));
    assert_eq!(action, SetupAction::Finish(chosen()));
    assert_eq!(chosen().size(), (1920, 1080));
    assert_eq!(chosen().surface_size(), (1920, 1080));
}

#[test]
fn display_without_config_fails() {
    let state = SetupState::Listing(0, 0);
    assert_eq!(
        DisplaySetup::setup_step(state, SetupEvent::Listed(vec![])),
        (
            SetupState::Failed,
            SetupAction::Fail(DisplayError::NoDisplayConfig)
        )
    );
}

#[test]
fn display_fails_where_the_pipeline_refuses() {
    let state = SetupState::Taking(SetupStep::WrapContext, chosen());
    assert_eq!(
        DisplaySetup::setup_step(state, SetupEvent::Wrapped(false)),
        (
            SetupState::Failed,
            SetupAction::Fail(DisplayError::WrapContext)
        )
    );
    assert_eq!(
        DisplaySetup::setup_step(listed(), SetupEvent::Refused),
        (SetupState::Failed, SetupAction::Abort)
    );
}

#[test]
fn display_fails_with_the_scene() {
    let state = SetupState::Taking(SetupStep::InitScene, chosen());
    let event = SetupEvent::SceneSet(Err("no shader".to_string()));
    let (state, action) = DisplaySetup::setup_step(state, event);
    assert_eq!(state, SetupState::Failed);
    match action {
        SetupAction::Fail(error) => {
            assert_eq!(error, DisplayError::OpenGl("no shader".to_string()));
            assert_eq!(error.message(), "failed to create OpenGL setup: no shader");
        }
        other => panic!("unexpected {:?}", other),
    }
}

#[test]
fn display_errors_have_words() {
    assert_eq!(
        DisplayError::NoDisplayConfig.message(),
        "no display config found"
    );
    assert_eq!(DisplayError::WrapContext.message(), "failed to wrap context");
    assert_eq!(
        DisplayError::FrameUnreadable.message(),
        "failed to read video frame from buffer"
    );
}

#[test]
fn sample_is_marked_and_sent() {
    let (state, action) = new_sample();
    assert_eq!(action, SampleAction::Pull);
    let (state, action) = sample_step(state, SampleEvent::Pulled(true));
    assert_eq!(action, SampleAction::ReadInfo);
    let (state, action) = sample_step(state, SampleEvent::Info(true));
    assert_eq!(action, SampleAction::ReadMemory);
    let (state, action) = sample_step(state, SampleEvent::Memory(2, true));
    assert_eq!(action, SampleAction::FindSync);
    assert_eq!(
        sample_step(state, SampleEvent::Sync(true)).1,
        SampleAction::SetSync
    );
    let (state, action) = sample_step(state, SampleEvent::Sync(false));
    assert_eq!(action, SampleAction::AddSync);
    let (state, action) = sample_step(state, SampleEvent::SyncSet);
    assert_eq!(action, SampleAction::Send);
    assert_eq!(
        sample_step(state, SampleEvent::Sent(true)),
        (SampleState::Finished, SampleAction::Finish(Flow::Success))
    );
}

#[test]
fn sample_is_dropped_with_a_reason() {
    let cases = [
        (SampleState::Pulling, SampleEvent::Pulled(false), Flow::Eos),
        (
            SampleState::ReadingInfo,
            SampleEvent::Info(false),
            Flow::NotNegotiated,
        ),
        (
            SampleState::ReadingMemory,
            SampleEvent::Memory(0, true),
            Flow::Error,
        ),
        (
            SampleState::ReadingMemory,
            SampleEvent::Memory(1, false),
            Flow::Error,
        ),
        (SampleState::Sending, SampleEvent::Sent(false), Flow::Error),
    ];
    for (state, event, flow) in cases {
        assert_eq!(
            sample_step(state, event),
            (SampleState::Finished, SampleAction::Finish(flow))
        );
    }
}

#[test]
fn frames_are_drawn_one_after_the_other() {
    let (state, action) = chosen().main_loop();
    assert_eq!(action, FrameAction::Receive);
    let (state, action) = DisplaySetup::step(state, FrameEvent::Received(true));
    assert_eq!(action, FrameAction::ReadFrame);
    let (state, action) = DisplaySetup::step(state, FrameEvent::FrameRead(true));
    assert_eq!(action, FrameAction::Sync);
    assert_eq!(
        DisplaySetup::step(state, FrameEvent::Synced(None)),
        (FrameState::Receiving, FrameAction::Receive)
    );
    let (state, action) = DisplaySetup::step(state, FrameEvent::Synced(Some(5)));
    assert_eq!(action, FrameAction::Draw(5));
    assert_eq!(
        DisplaySetup::step(state, FrameEvent::Drawn),
        (FrameState::Receiving, FrameAction::Receive)
    );
}

#[test]
fn frames_end_with_the_pipeline_or_an_unreadable_frame() {
    assert_eq!(
        DisplaySetup::step(FrameState::Receiving, FrameEvent::Received(false)),
        (FrameState::Stopped, FrameAction::Disconnect)
    );
    assert_eq!(
        DisplaySetup::step(FrameState::Reading, FrameEvent::FrameRead(false)),
        (
            FrameState::Stopped,
            FrameAction::Fail(DisplayError::FrameUnreadable)
        )
    );
}

#[test]
fn sink_takes_one_flat_texture_at_a_time() {
    let sink = SinkInfo {
        element: "glsinkbin",
        memory: FrameMemory::Gl,
        format: PixelFormat::Rgba,
        texture_target: "2D",
        max_buffers: 1,
        last_sample: true,
    };
    assert_eq!(SinkInfo::new(), sink);
}

#[test]
fn textures_are_drawn_in_the_order_of_their_frames() {
    let mut drawn = Vec::new();
    let (mut state, mut action) = chosen().main_loop();
    for texture in [Some(3), None, Some(9), Some(3)] {
        assert_eq!(action, FrameAction::Receive);
        state = DisplaySetup::step(state, FrameEvent::Received(true)).0;
        state = DisplaySetup::step(state, FrameEvent::FrameRead(true)).0;
        (state, action) = DisplaySetup::step(state, FrameEvent::Synced(texture));
        if let FrameAction::Draw(number) = action {
            drawn.push(number);
            (state, action) = DisplaySetup::step(state, FrameEvent::Drawn);
        }
    }
    assert_eq!(state, FrameState::Receiving);
    assert_eq!(drawn, [3, 9, 3]);
}
