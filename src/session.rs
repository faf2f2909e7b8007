use vstd::prelude::*;
use crate::control::ControlSignal;
use crate::pointer::{Pointer, normalized};

verus! {

/// Where the render loop stands.
#[derive(Clone, Copy, Debug, PartialEq, Eq, Structural)]
pub enum Phase {
    Running,
    Paused,
    /// Terminal: the loop leaves and nothing more is drawn.
    Closed,
}

/// What the window system reports to the render loop.
#[derive(Clone, Copy, Debug, PartialEq, Eq, Structural)]
pub enum WindowEvent {
    /// The pointer moved to `(x, y)` in raw window coordinates
    /// (origin at the top left, in pixels).
    PointerMoved { x: i64, y: i64 },
    CloseRequested,
}

/// The uniform values of one frame. The shader time is `ticks` times the
/// configured per-frame increment.
#[derive(Clone, Copy, Debug, PartialEq, Eq, Structural)]
pub struct Uniforms {
    pub width: u32,
    pub height: u32,
    pub ticks: u64,
    pub pointer: Pointer,
}

/// What the render loop does after the messages of a frame are applied.
#[derive(Clone, Copy, Debug, PartialEq, Eq, Structural)]
pub enum FrameAction {
    /// Draw the quad once with these uniforms and present it.
    Draw(Uniforms),
    /// Paused: draw nothing, wait a little, and poll the window.
    Idle,
    /// Closed: leave the loop.
    Stop,
}

/// The outcome of one frame: the action to take, and what became of the
/// reload that the frame carried (`Ok(())`: the new program is active;
/// `Err(e)`: it failed to compile and the previous one stays).
pub struct FrameReport<E> {
    pub action: FrameAction,
    pub reload: Option<Result<(), E>>,
}

/// The state that the render loop alone owns. `G` is the compiled program.
pub struct RenderSession<G> {
    pub program: G,
    pub width: u32,
    pub height: u32,
    /// Shader time since the start or the last reload, in per-frame increments.
    pub ticks: u64,
    pub pointer: Pointer,
    pub phase: Phase,
}

/// One more increment of time; it stays at the largest count once there.
pub open spec fn next_tick(t: u64) -> u64 {
    if t < u64::MAX {
        (t + 1) as u64
    } else {
        t
    }
}

pub open spec fn origin() -> Pointer {
    Pointer { x: 0, y: 0 }
}

pub open spec fn after_control<G>(s: RenderSession<G>, c: ControlSignal) -> RenderSession<G> {
    if s.phase == Phase::Closed {
        s
    } else {
        RenderSession {
            phase: match c {
                ControlSignal::Pause => Phase::Paused,
                ControlSignal::Resume => Phase::Running,
                ControlSignal::Exit => Phase::Closed,
            },
            ..s
        }
    }
}

pub open spec fn after_reload<G>(s: RenderSession<G>, p: G) -> RenderSession<G> {
    RenderSession { program: p, ticks: 0, pointer: origin(), ..s }
}

pub open spec fn after_advance<G>(s: RenderSession<G>) -> RenderSession<G> {
    if s.phase == Phase::Running {
        RenderSession { ticks: next_tick(s.ticks), ..s }
    } else {
        s
    }
}

pub open spec fn uniforms_of<G>(s: RenderSession<G>) -> Uniforms {
    Uniforms { width: s.width, height: s.height, ticks: s.ticks, pointer: s.pointer }
}

/// The action for a session whose messages are applied: a running one
/// draws with its time advanced by one increment.
pub open spec fn action_of<G>(s: RenderSession<G>) -> FrameAction {
    match s.phase {
        Phase::Running => FrameAction::Draw(uniforms_of(after_advance(s))),
        Phase::Paused => FrameAction::Idle,
        Phase::Closed => FrameAction::Stop,
    }
}

pub open spec fn after_event<G>(s: RenderSession<G>, e: WindowEvent) -> RenderSession<G> {
    match e {
        WindowEvent::PointerMoved { x, y } => RenderSession {
            pointer: Pointer {
                x: normalized(x as int, s.width as int) as u32,
                y: normalized(s.height as int - y as int, s.height as int) as u32,
            },
            ..s
        },
        WindowEvent::CloseRequested => RenderSession { phase: Phase::Closed, ..s },
    }
}

/// The session once a frame's control message (if any) and reload (if any)
/// are applied, in that order.
pub open spec fn after_messages<G, E>(
    s: RenderSession<G>,
    control: Option<ControlSignal>,
    reload: Option<Result<G, E>>,
) -> RenderSession<G> {
    let s1 = match control {
        Some(c) => after_control(s, c),
        None => s,
    };
    match reload {
        Some(Ok(p)) => after_reload(s1, p),
        _ => s1,
    }
}

/// The session at the end of a frame.
pub open spec fn after_frame<G, E>(
    s: RenderSession<G>,
    control: Option<ControlSignal>,
    reload: Option<Result<G, E>>,
) -> RenderSession<G> {
    after_advance(after_messages(s, control, reload))
}

/// The action that a frame ends in.
pub open spec fn frame_action<G, E>(
    s: RenderSession<G>,
    control: Option<ControlSignal>,
    reload: Option<Result<G, E>>,
) -> FrameAction {
    action_of(after_messages(s, control, reload))
}

/// What a frame reports of its reload.
pub open spec fn reload_report<G, E>(reload: Option<Result<G, E>>) -> Option<Result<(), E>> {
    match reload {
        Some(Ok(_)) => Some(Ok(())),
        Some(Err(e)) => Some(Err(e)),
        None => None,
    }
}

impl<G> RenderSession<G> {
    pub open spec fn well_formed(&self) -> bool {
        self.pointer.well_formed()
    }

    /// A running session on its first program, at time zero, pointing at the
    /// origin.
    pub fn new(program: G, width: u32, height: u32) -> (r: Self)
        ensures
            r.program == program,
            r.width == width,
            r.height == height,
            r.ticks == 0,
            r.pointer == origin(),
            r.phase == Phase::Running,
            r.well_formed(),
    {
        RenderSession { program, width, height, ticks: 0, pointer: Pointer::origin(), phase: Phase::Running }
    }

    pub fn is_closed(&self) -> (r: bool)
        ensures
            r == (self.phase == Phase::Closed),
    {
        self.phase == Phase::Closed
    }

    pub fn is_paused(&self) -> (r: bool)
        ensures
            r == (self.phase == Phase::Paused),
    {
        self.phase == Phase::Paused
    }

    /// Applies a control message: `Pause` and `Resume` set the phase, `Exit`
    /// closes; a closed session stays closed.
    pub fn apply_control(&mut self, signal: ControlSignal)
        requires
            old(self).well_formed(),
        ensures
            *final(self) == after_control(*old(self), signal),
            final(self).well_formed(),
    {
        if self.phase != Phase::Closed {
            self.phase = match signal {
                ControlSignal::Pause => Phase::Paused,
                ControlSignal::Resume => Phase::Running,
                ControlSignal::Exit => Phase::Closed,
            };
        }
    }

    /// Applies the outcome of compiling a new shader source. A program
    /// replaces the active one and resets time and pointer; a compile error
    /// leaves the session as it was and is handed back.
    pub fn apply_reload<E>(&mut self, outcome: Result<G, E>) -> (r: Result<(), E>)
        requires
            old(self).well_formed(),
        ensures
            final(self).well_formed(),
            match outcome {
                Ok(p) => *final(self) == after_reload(*old(self), p) && r == Ok::<(), E>(()),
                Err(e) => *final(self) == *old(self) && r == Err::<(), E>(e),
            },
    {
        match outcome {
            Ok(p) => {
                self.program = p;
                self.ticks = 0;
                self.pointer = Pointer::origin();
                Ok(())
            },
            Err(e) => Err(e),
        }
    }

    /// Decides the frame's action; a running session advances its time by
    /// one increment first.
    pub fn advance(&mut self) -> (r: FrameAction)
        requires
            old(self).well_formed(),
        ensures
            final(self).well_formed(),
            r == action_of(*old(self)),
            *final(self) == after_advance(*old(self)),
    {
        match self.phase {
            Phase::Running => {
                if self.ticks < u64::MAX {
                    self.ticks = self.ticks + 1;
                }
                FrameAction::Draw(
                    Uniforms { width: self.width, height: self.height, ticks: self.ticks, pointer: self.pointer },
                )
            },
            Phase::Paused => FrameAction::Idle,
            Phase::Closed => FrameAction::Stop,
        }
    }

    /// Applies one event of the window system, whatever the phase.
    pub fn apply_event(&mut self, event: WindowEvent)
        requires
            old(self).well_formed(),
        ensures
            *final(self) == after_event(*old(self), event),
            final(self).well_formed(),
    {
        match event {
            WindowEvent::PointerMoved { x, y } => {
                self.pointer = Pointer::from_window(x, y, self.width, self.height);
            },
            WindowEvent::CloseRequested => {
                self.phase = Phase::Closed;
            },
        }
    }

    /// One frame of the render loop: applies the control message and the
    /// compiled reload that were taken from their channels (at most one of
    /// each), then decides what to draw.
    pub fn frame<E>(&mut self, control: Option<ControlSignal>, reload: Option<Result<G, E>>) -> (r:
        FrameReport<E>)
        requires
            old(self).well_formed(),
        ensures
            final(self).well_formed(),
            *final(self) == after_frame(*old(self), control, reload),
            r.action == frame_action(*old(self), control, reload),
            r.reload == reload_report(reload),
    {
        if let Some(c) = control {
            self.apply_control(c);
        }
        let report = match reload {
            Some(outcome) => Some(self.apply_reload(outcome)),
            None => None,
        };
        let action = self.advance();
        FrameReport { action, reload: report }
    }
}

} // verus!
