use dynamic_wallpaper::session::{
    output_dimensions, present_steps, Action, AnchorEdge, Event, KeyboardInteractivity, Phase,
    PixelFormat, PresentStep, SeatCapability, Session, StackLayer,
};

fn presenting(width: u32, height: u32) -> Session {
    let mut s = Session::new(width, height);
    s.begin_negotiation();
    let first = s.handle(Event::Configure);
    assert!(matches!(first, Action::Draw { shift: 0 }));
    s
}

#[test]
fn layer_request_declares_negotiated_parameters() {
    let mut s = Session::new(1920, 10);
    let req = s.begin_negotiation();
    assert_eq!(req.width, 1920);
    assert_eq!(req.height, 10);
    assert_eq!(req.anchor, AnchorEdge::Bottom);
    assert_eq!(req.keyboard_interactivity, KeyboardInteractivity::NoInput);
    assert_eq!(req.layer, StackLayer::Background);
    assert_eq!(s.phase, Phase::AwaitingConfigure);
}

#[test]
fn no_draw_before_first_configure() {
    let mut s = Session::new(8, 8);
    s.begin_negotiation();
    assert_eq!(s.handle(Event::FrameReady), Action::Nothing);
    assert_eq!(s.handle(Event::PointerActivity), Action::Nothing);
    assert_eq!(s.handle(Event::ScaleFactorChanged), Action::Nothing);
    assert_eq!(s.handle(Event::OutputChanged), Action::Nothing);
    assert_eq!(s.handle(Event::FrameReady), Action::Nothing);
    assert_eq!(s.handle(Event::Configure), Action::Draw { shift: 0 });
    assert_eq!(s.phase, Phase::Presenting);
}

#[test]
fn second_configure_draws_nothing() {
    let mut s = presenting(8, 8);
    assert_eq!(s.handle(Event::Configure), Action::Nothing);
    assert_eq!(s.phase, Phase::Presenting);
}

#[test]
fn two_frames_with_width_four_shift_zero_then_one() {
    let s0 = Session {
        phase: Phase::Presenting,
        width: 4,
        height: 1,
        shift: 0,
        pointer_held: false,
    };
    let mut s = s0;
    assert_eq!(s.handle(Event::FrameReady), Action::Draw { shift: 0 });
    assert_eq!(s.handle(Event::FrameReady), Action::Draw { shift: 1 });
}

#[test]
fn shift_is_frame_index_modulo_width() {
    let mut s = Session {
        phase: Phase::Presenting,
        width: 3,
        height: 2,
        shift: 0,
        pointer_held: false,
    };
    for n in 0u32..7 {
        assert_eq!(s.shift, n % 3);
        assert_eq!(s.handle(Event::FrameReady), Action::Draw { shift: n % 3 });
    }
    assert_eq!(s.shift, 7 % 3);
}

#[test]
fn close_stops_all_actions() {
    let mut s = presenting(6, 4);
    assert_eq!(s.handle(Event::CloseRequested), Action::Nothing);
    assert!(s.should_exit());
    assert_eq!(s.handle(Event::FrameReady), Action::Nothing);
    assert_eq!(s.handle(Event::Configure), Action::Nothing);
    assert_eq!(
        s.handle(Event::CapabilityGained(SeatCapability::Pointer)),
        Action::Nothing
    );
    assert!(s.should_exit());
}

#[test]
fn exit_flag_only_set_by_close() {
    let mut s = Session::new(5, 5);
    assert!(!s.should_exit());
    s.begin_negotiation();
    assert!(!s.should_exit());
    s.handle(Event::Configure);
    s.handle(Event::FrameReady);
    assert!(!s.should_exit());
    s.handle(Event::CloseRequested);
    assert!(s.should_exit());
}

#[test]
fn pointer_capability_gained_then_lost() {
    let mut s = presenting(4, 4);
    assert!(!s.pointer_held);
    let mut acquires = 0;
    let mut releases = 0;
    for event in [
        Event::CapabilityGained(SeatCapability::Pointer),
        Event::CapabilityRemoved(SeatCapability::Pointer),
    ] {
        match s.handle(event) {
            Action::AcquirePointer => {
                assert_eq!(releases, 0);
                acquires += 1;
            }
            Action::ReleasePointer => releases += 1,
            other => panic!("unexpected action {:?}", other),
        }
    }
    assert_eq!(acquires, 1);
    assert_eq!(releases, 1);
    assert!(!s.pointer_held);
}

#[test]
fn pointer_capability_held_at_most_once() {
    let mut s = presenting(4, 4);
    assert_eq!(
        s.handle(Event::CapabilityGained(SeatCapability::Pointer)),
        Action::AcquirePointer
    );
    assert_eq!(
        s.handle(Event::CapabilityGained(SeatCapability::Pointer)),
        Action::Nothing
    );
    assert_eq!(
        s.handle(Event::CapabilityRemoved(SeatCapability::Pointer)),
        Action::ReleasePointer
    );
    assert_eq!(
        s.handle(Event::CapabilityRemoved(SeatCapability::Pointer)),
        Action::Nothing
    );
}

#[test]
fn keyboard_capability_is_ignored() {
    let mut s = presenting(4, 4);
    assert_eq!(
        s.handle(Event::CapabilityGained(SeatCapability::Keyboard)),
        Action::Nothing
    );
    assert_eq!(
        s.handle(Event::CapabilityRemoved(SeatCapability::Keyboard)),
        Action::Nothing
    );
    assert!(!s.pointer_held);
}

#[test]
fn buffer_request_has_four_byte_stride() {
    let s = presenting(1920, 1080);
    let b = s.buffer_request();
    assert_eq!(b.width, 1920);
    assert_eq!(b.height, 1080);
    assert_eq!(b.stride, 1920 * 4);
    assert_eq!(b.format, PixelFormat::Argb8888);
}

#[test]
fn damage_covers_whole_surface() {
    let s = presenting(640, 480);
    let d = s.damage_region();
    assert_eq!((d.x, d.y, d.width, d.height), (0, 0, 640, 480));
}

#[test]
fn pool_holds_one_full_frame() {
    let s = Session::new(1920, 1080);
    assert_eq!(s.pool_size(), 1920 * 1080 * 4);
}

#[test]
fn frame_request_precedes_attach() {
    let steps = present_steps();
    assert_eq!(
        steps,
        vec![
            PresentStep::CreateBuffer,
            PresentStep::FillBuffer,
            PresentStep::DamageAll,
            PresentStep::RequestFrame,
            PresentStep::AttachBuffer,
            PresentStep::Commit,
        ]
    );
    let request = steps
        .iter()
        .position(|s| *s == PresentStep::RequestFrame)
        .unwrap();
    let attach = steps
        .iter()
        .position(|s| *s == PresentStep::AttachBuffer)
        .unwrap();
    assert!(request < attach);
}

#[test]
fn output_dimensions_accepts_ordinary_sizes() {
    assert_eq!(output_dimensions(1920, 1080), Some((1920, 1080)));
    assert_eq!(output_dimensions(1, 1), Some((1, 1)));
    assert_eq!(output_dimensions(1920, 10), Some((1920, 10)));
}

#[test]
fn output_dimensions_rejects_degenerate_sizes() {
    assert_eq!(output_dimensions(0, 1080), None);
    assert_eq!(output_dimensions(1920, 0), None);
    assert_eq!(output_dimensions(-1920, 1080), None);
    assert_eq!(output_dimensions(0x1000000, 10), None);
}

#[test]
fn configure_before_negotiation_is_ignored() {
    let mut s = Session::new(4, 4);
    assert_eq!(s.handle(Event::Configure), Action::Nothing);
    assert_eq!(s.phase, Phase::Uninitialized);
}

#[test]
fn width_one_always_draws_shift_zero() {
    let mut s = presenting(1, 1);
    for _ in 0..3 {
        assert_eq!(s.handle(Event::FrameReady), Action::Draw { shift: 0 });
    }
    assert_eq!(s.shift, 0);
}
