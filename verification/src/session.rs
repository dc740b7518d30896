//! The presentation state machine: one session per surface, driven by the
//! events the display server delivers, deciding which protocol action to
//! perform next. The machine enforces the first-configure gate, stops all
//! activity once the server requests closure, keeps the animation shift
//! inside the surface width, and holds at most one pointer handle.

use vstd::prelude::*;

verus! {

use vstd::arithmetic::div_mod::lemma_mod_division_less_than_divisor;
use crate::MAX_DIM;

/// Lifecycle of the layer surface, in the order the phases are entered.
#[derive(Clone, Copy, Debug, PartialEq, Eq, Structural)]
pub enum Phase {
    /// The surface exists but its configuration request has not been sent.
    Uninitialized,
    /// The configuration request is committed; no buffer may be presented
    /// until the server acknowledges it with a configure event.
    AwaitingConfigure,
    /// The first configure event arrived; every frame-ready notification now
    /// triggers a draw.
    Presenting,
    /// The server requested closure; no further action is ever taken.
    Closed,
}

/// An input-device category a seat may advertise.
#[derive(Clone, Copy, Debug, PartialEq, Eq, Structural)]
pub enum SeatCapability {
    Pointer,
    Keyboard,
    Touch,
}

/// One protocol event, as the dispatcher hands it to the session.
#[derive(Clone, Copy, Debug, PartialEq, Eq, Structural)]
pub enum Event {
    /// The server acknowledged the layer-surface configuration.
    Configure,
    /// The server signals that the next frame may be prepared.
    FrameReady,
    /// The server asks the surface to close.
    CloseRequested,
    /// The seat gained an input capability.
    CapabilityGained(SeatCapability),
    /// The seat lost an input capability.
    CapabilityRemoved(SeatCapability),
    /// Pointer motion, button or frame activity on the surface.
    PointerActivity,
    /// The surface's scale factor changed.
    ScaleFactorChanged,
    /// An output appeared, changed or vanished on the long-lived queue.
    OutputChanged,
    /// A seat appeared or vanished.
    SeatChanged,
}

/// What the caller must do in response to one event.
#[derive(Clone, Copy, Debug, PartialEq, Eq, Structural)]
pub enum Action {
    /// Render and present one frame using the given animation shift.
    Draw { shift: u32 },
    /// Obtain a pointer handle for the seat.
    AcquirePointer,
    /// Release the held pointer handle.
    ReleasePointer,
    /// Do nothing.
    Nothing,
}

/// Edge of the output a layer surface is anchored to.
#[derive(Clone, Copy, Debug, PartialEq, Eq, Structural)]
pub enum AnchorEdge {
    Top,
    Bottom,
    Left,
    Right,
}

/// Keyboard-interactivity policy of a layer surface.
#[derive(Clone, Copy, Debug, PartialEq, Eq, Structural)]
pub enum KeyboardInteractivity {
    /// The surface never receives keyboard focus.
    NoInput,
    Exclusive,
    OnDemand,
}

/// Stacking layer a layer surface is placed on.
#[derive(Clone, Copy, Debug, PartialEq, Eq, Structural)]
pub enum StackLayer {
    Background,
    Bottom,
    Top,
    Overlay,
}

/// The pixel format every buffer of this client uses: 32 bits per pixel,
/// alpha-red-green-blue channel order, little-endian packing.
#[derive(Clone, Copy, Debug, PartialEq, Eq, Structural)]
pub enum PixelFormat {
    Argb8888,
}

/// The layer-surface configuration request sent during negotiation.
#[derive(Clone, Copy, Debug, PartialEq, Eq, Structural)]
pub struct LayerRequest {
    pub width: u32,
    pub height: u32,
    pub anchor: AnchorEdge,
    pub keyboard_interactivity: KeyboardInteractivity,
    pub layer: StackLayer,
}

/// The parameters of one buffer drawn from the shared-memory pool.
#[derive(Clone, Copy, Debug, PartialEq, Eq, Structural)]
pub struct BufferRequest {
    pub width: u32,
    pub height: u32,
    /// Bytes per row: always four bytes per pixel.
    pub stride: u32,
    pub format: PixelFormat,
}

/// A rectangle of the surface declared as damaged.
#[derive(Clone, Copy, Debug, PartialEq, Eq, Structural)]
pub struct DamageRegion {
    pub x: i32,
    pub y: i32,
    pub width: i32,
    pub height: i32,
}

/// The configuration request a session of the given size must send: full
/// output size, anchored to the bottom edge, background layer, and no
/// keyboard interactivity.
pub open spec fn layer_request_for(width: u32, height: u32) -> LayerRequest {
    LayerRequest {
        width,
        height,
        anchor: AnchorEdge::Bottom,
        keyboard_interactivity: KeyboardInteractivity::NoInput,
        layer: StackLayer::Background,
    }
}

/// State the session carries between events: the surface size fixed at
/// startup, the lifecycle phase, the animation shift, and whether a pointer
/// handle is held.
#[derive(Clone, Copy, Debug, PartialEq, Eq, Structural)]
pub struct Session {
    pub phase: Phase,
    pub width: u32,
    pub height: u32,
    /// Animation state: the horizontal shift of the next frame, always less
    /// than the surface width.
    pub shift: u32,
    /// Whether a pointer handle is currently held for the seat.
    pub pointer_held: bool,
}

/// One transition of the state machine: the successor state and the action
/// owed for the event. A closed session absorbs every event without acting;
/// a draw is produced only by the first configure event and by frame-ready
/// notifications while presenting, and it advances the shift modulo the
/// width; pointer capability changes acquire or release the single handle.
pub open spec fn step(s: Session, e: Event) -> (Session, Action) {
    if s.phase is Closed {
        (s, Action::Nothing)
    } else {
        match e {
            Event::Configure => {
                if s.phase is AwaitingConfigure {
                    (
                        Session {
                            phase: Phase::Presenting,
                            shift: ((s.shift + 1) % (s.width as int)) as u32,
                            ..s
                        },
                        Action::Draw { shift: s.shift },
                    )
                } else {
                    (s, Action::Nothing)
                }
            },
            Event::FrameReady => {
                if s.phase is Presenting {
                    (
                        Session { shift: ((s.shift + 1) % (s.width as int)) as u32, ..s },
                        Action::Draw { shift: s.shift },
                    )
                } else {
                    (s, Action::Nothing)
                }
            },
            Event::CloseRequested => (Session { phase: Phase::Closed, ..s }, Action::Nothing),
            Event::CapabilityGained(c) => {
                if c is Pointer && !s.pointer_held {
                    (Session { pointer_held: true, ..s }, Action::AcquirePointer)
                } else {
                    (s, Action::Nothing)
                }
            },
            Event::CapabilityRemoved(c) => {
                if c is Pointer && s.pointer_held {
                    (Session { pointer_held: false, ..s }, Action::ReleasePointer)
                } else {
                    (s, Action::Nothing)
                }
            },
            _ => (s, Action::Nothing),
        }
    }
}

impl Session {
    /// The session's internal invariant: a positive size small enough for
    /// the renderer's arithmetic and for a pool allocation, and a shift
    /// inside the width.
    pub open spec fn wf(self) -> bool {
        &&& 1 <= self.width <= MAX_DIM
        &&& 1 <= self.height <= MAX_DIM
        &&& 4 * ((self.width as int) * (self.height as int)) <= usize::MAX
        &&& self.shift < self.width
    }

    /// Create a session for a surface of the given size, before negotiation,
    /// with the animation shift at zero and no pointer handle held.
    pub fn new(width: u32, height: u32) -> (s: Session)
        requires
            1 <= width <= MAX_DIM,
            1 <= height <= MAX_DIM,
            4 * ((width as int) * (height as int)) <= usize::MAX,
        ensures
            s.wf(),
            s == (Session {
                phase: Phase::Uninitialized,
                width,
                height,
                shift: 0u32,
                pointer_held: false,
            }),
    {
        Session { phase: Phase::Uninitialized, width, height, shift: 0, pointer_held: false }
    }

    /// Send the layer-surface configuration request: declares the full
    /// output size, the bottom anchor, the background layer and no keyboard
    /// interactivity, and moves the session to `AwaitingConfigure`, opening
    /// the first-configure gate.
    pub fn begin_negotiation(&mut self) -> (req: LayerRequest)
        requires
            old(self).wf(),
            old(self).phase is Uninitialized,
        ensures
            final(self).wf(),
            *final(self) == (Session { phase: Phase::AwaitingConfigure, ..*old(self) }),
            req == layer_request_for(old(self).width, old(self).height),
    {
        self.phase = Phase::AwaitingConfigure;
        LayerRequest {
            width: self.width,
            height: self.height,
            anchor: AnchorEdge::Bottom,
            keyboard_interactivity: KeyboardInteractivity::NoInput,
            layer: StackLayer::Background,
        }
    }

    /// Present one frame: hand out the current shift for rendering and
    /// advance the animation state by one column, wrapping at the width.
    pub fn draw(&mut self) -> (a: Action)
        requires
            old(self).wf(),
        ensures
            final(self).wf(),
            *final(self) == (Session {
                shift: ((old(self).shift + 1) % (old(self).width as int)) as u32,
                ..*old(self)
            }),
            a == (Action::Draw { shift: old(self).shift }),
    {
        let used = self.shift;
        self.shift = (self.shift + 1) % self.width;
        proof {
            lemma_mod_division_less_than_divisor(old(self).shift + 1, old(self).width as int);
        }
        Action::Draw { shift: used }
    }

    /// Route one event through the state machine and return the action the
    /// caller owes the server for it. The result is exactly `step`.
    pub fn handle(&mut self, e: Event) -> (a: Action)
        requires
            old(self).wf(),
        ensures
            final(self).wf(),
            (*final(self), a) == step(*old(self), e),
    {
        match self.phase {
            Phase::Closed => Action::Nothing,
            _ => {
                match e {
                    Event::Configure => {
                        if matches!(self.phase, Phase::AwaitingConfigure) {
                            self.phase = Phase::Presenting;
                            self.draw()
                        } else {
                            Action::Nothing
                        }
                    },
                    Event::FrameReady => {
                        if matches!(self.phase, Phase::Presenting) {
                            self.draw()
                        } else {
                            Action::Nothing
                        }
                    },
                    Event::CloseRequested => {
                        self.phase = Phase::Closed;
                        Action::Nothing
                    },
                    Event::CapabilityGained(c) => {
                        if matches!(c, SeatCapability::Pointer) && !self.pointer_held {
                            self.pointer_held = true;
                            Action::AcquirePointer
                        } else {
                            Action::Nothing
                        }
                    },
                    Event::CapabilityRemoved(c) => {
                        if matches!(c, SeatCapability::Pointer) && self.pointer_held {
                            self.pointer_held = false;
                            Action::ReleasePointer
                        } else {
                            Action::Nothing
                        }
                    },
                    _ => Action::Nothing,
                }
            },
        }
    }

    /// Whether the render loop must stop: set exactly by a processed close
    /// signal.
    pub fn should_exit(&self) -> (b: bool)
        ensures
            b == (self.phase is Closed),
    {
        matches!(self.phase, Phase::Closed)
    }

    /// The parameters of the buffer each frame is drawn into: the surface
    /// size, a stride of four bytes per pixel, and the fixed pixel format.
    pub fn buffer_request(&self) -> (r: BufferRequest)
        requires
            self.wf(),
        ensures
            r == (BufferRequest {
                width: self.width,
                height: self.height,
                stride: (4 * self.width) as u32,
                format: PixelFormat::Argb8888,
            }),
    {
        BufferRequest {
            width: self.width,
            height: self.height,
            stride: 4 * self.width,
            format: PixelFormat::Argb8888,
        }
    }

    /// The damage declared after each draw: the whole surface, since every
    /// pixel is rewritten each frame.
    pub fn damage_region(&self) -> (r: DamageRegion)
        requires
            self.wf(),
        ensures
            r == (DamageRegion {
                x: 0i32,
                y: 0i32,
                width: self.width as i32,
                height: self.height as i32,
            }),
    {
        DamageRegion { x: 0, y: 0, width: self.width as i32, height: self.height as i32 }
    }

    /// Bytes the shared-memory pool must hold: one full frame of four bytes
    /// per pixel.
    pub fn pool_size(&self) -> (n: usize)
        requires
            self.wf(),
        ensures
            n == 4 * ((self.width as int) * (self.height as int)),
    {
        proof {
            assert((self.width as int) * (self.height as int) >= 0) by (nonlinear_arith);
        }
        4 * ((self.width as usize) * (self.height as usize))
    }
}

/// One protocol step of presenting a frame.
#[derive(Clone, Copy, Debug, PartialEq, Eq, Structural)]
pub enum PresentStep {
    /// Obtain a fresh buffer and pixel view from the shared-memory pool.
    CreateBuffer,
    /// Fill the buffer with the current frame's pixels.
    FillBuffer,
    /// Declare the whole surface damaged.
    DamageAll,
    /// Subscribe to the next frame-ready notification.
    RequestFrame,
    /// Attach the filled buffer to the surface.
    AttachBuffer,
    /// Commit the surface.
    Commit,
}

/// The order in which the steps of one presentation must be performed.
/// The next-frame subscription is requested strictly before the buffer is
/// attached: in the other order the subscription can be lost and no further
/// frame-ready notification ever arrives, silently stalling the animation.
pub fn present_steps() -> (r: Vec<PresentStep>)
    ensures
        r@ == seq![
            PresentStep::CreateBuffer,
            PresentStep::FillBuffer,
            PresentStep::DamageAll,
            PresentStep::RequestFrame,
            PresentStep::AttachBuffer,
            PresentStep::Commit,
        ],
{
    let steps = vec![
        PresentStep::CreateBuffer,
        PresentStep::FillBuffer,
        PresentStep::DamageAll,
        PresentStep::RequestFrame,
        PresentStep::AttachBuffer,
        PresentStep::Commit,
    ];
    proof {
        assert(steps@ =~= seq![
            PresentStep::CreateBuffer,
            PresentStep::FillBuffer,
            PresentStep::DamageAll,
            PresentStep::RequestFrame,
            PresentStep::AttachBuffer,
            PresentStep::Commit,
        ]);
    }
    steps
}

/// Validate an output's advertised logical size: accepted exactly when both
/// dimensions are positive, small enough for the renderer's arithmetic, and
/// a full frame fits in one allocation.
pub fn output_dimensions(logical_width: i32, logical_height: i32) -> (r: Option<(u32, u32)>)
    ensures
        r is Some <==> {
            &&& 1 <= logical_width <= MAX_DIM
            &&& 1 <= logical_height <= MAX_DIM
            &&& 4 * ((logical_width as int) * (logical_height as int)) <= usize::MAX
        },
        r is Some ==> r == Some((logical_width as u32, logical_height as u32)),
{
    if logical_width < 1 || logical_height < 1 {
        return None;
    }
    if logical_width > MAX_DIM as i32 || logical_height > MAX_DIM as i32 {
        return None;
    }
    let w: u64 = logical_width as u64;
    let h: u64 = logical_height as u64;
    proof {
        assert((w as int) * (h as int) <= 0xFFFFFF * 0xFFFFFF) by (nonlinear_arith)
            requires
                0 <= w <= 0xFFFFFF,
                0 <= h <= 0xFFFFFF,
        ;
    }
    if 4 * (w * h) <= usize::MAX as u64 {
        Some((logical_width as u32, logical_height as u32))
    } else {
        None
    }
}

} // verus!
