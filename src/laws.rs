use vstd::prelude::*;
use crate::control::ControlSignal;
use crate::session::{
    RenderSession, Phase, WindowEvent, FrameAction, Uniforms, after_frame, after_messages, after_reload,
    after_event, frame_action, reload_report, next_tick, origin,
};

verus! {

pub open spec fn brings_new_program<G, E>(reload: Option<Result<G, E>>) -> bool {
    match reload {
        Some(Ok(_)) => true,
        _ => false,
    }
}

/// A paused session keeps its time: a frame whose control message is none or
/// another `Pause`, and which brings no new program, leaves the time as it
/// was, stays paused and draws nothing. Window events leave the time alone.
pub proof fn lemma_pause_freezes_time<G, E>(
    s: RenderSession<G>,
    control: Option<ControlSignal>,
    reload: Option<Result<G, E>>,
    event: WindowEvent,
)
    requires
        s.phase == Phase::Paused,
        control == None::<ControlSignal> || control == Some(ControlSignal::Pause),
        !brings_new_program(reload),
    ensures
        after_frame(s, control, reload).ticks == s.ticks,
        after_frame(s, control, reload).phase == Phase::Paused,
        frame_action(s, control, reload) == FrameAction::Idle,
        after_event(s, event).ticks == s.ticks,
{
}

/// After `Resume`, and on each later frame while running, the time advances
/// by exactly one increment and the frame is drawn with it.
pub proof fn lemma_running_advances_time<G, E>(
    s: RenderSession<G>,
    control: Option<ControlSignal>,
    reload: Option<Result<G, E>>,
)
    requires
        (control == Some(ControlSignal::Resume) && s.phase != Phase::Closed) || (control == None::<
            ControlSignal>
            && s.phase == Phase::Running),
        !brings_new_program(reload),
    ensures
        after_frame(s, control, reload).ticks == next_tick(s.ticks),
        after_frame(s, control, reload).phase == Phase::Running,
        frame_action(s, control, reload) == FrameAction::Draw(
            Uniforms { width: s.width, height: s.height, ticks: next_tick(s.ticks), pointer: s.pointer },
        ),
{
}

/// A successful reload makes the new program active and sets time and
/// pointer to zero, whatever they were; the frame then draws (if running)
/// with one increment of time.
pub proof fn lemma_reload_resets_uniforms<G, E>(
    s: RenderSession<G>,
    control: Option<ControlSignal>,
    p: G,
)
    ensures
        after_reload(s, p).program == p,
        after_reload(s, p).ticks == 0,
        after_reload(s, p).pointer == origin(),
        after_messages(s, control, Some(Ok::<G, E>(p))).program == p,
        after_messages(s, control, Some(Ok::<G, E>(p))).ticks == 0,
        after_messages(s, control, Some(Ok::<G, E>(p))).pointer == origin(),
        after_frame(s, control, Some(Ok::<G, E>(p))).ticks == (if after_messages(
            s,
            control,
            Some(Ok::<G, E>(p)),
        ).phase == Phase::Running {
            1u64
        } else {
            0u64
        }),
{
}

/// A reload that fails to compile changes nothing: the frame ends exactly as
/// one without a reload (same program, time, pointer and phase, same
/// action), so a running loop goes on drawing.
pub proof fn lemma_failed_reload_keeps_session<G, E>(
    s: RenderSession<G>,
    control: Option<ControlSignal>,
    e: E,
)
    ensures
        after_frame(s, control, Some(Err::<G, E>(e))) == after_frame(s, control, None::<Result<G, E>>),
        frame_action(s, control, Some(Err::<G, E>(e))) == frame_action(
            s,
            control,
            None::<Result<G, E>>,
        ),
        s.phase == Phase::Running && control == None::<ControlSignal> ==> frame_action(
            s,
            control,
            Some(Err::<G, E>(e)),
        ) is Draw,
        reload_report(Some(Err::<G, E>(e))) == Some(Err::<(), E>(e)),
{
}

/// The session after a run of frames, each with its control message and
/// reload.
pub open spec fn after_frames<G, E>(
    s: RenderSession<G>,
    frames: Seq<(Option<ControlSignal>, Option<Result<G, E>>)>,
) -> RenderSession<G>
    decreases frames.len(),
{
    if frames.len() == 0 {
        s
    } else {
        let last = frames.last();
        after_frame(after_frames(s, frames.drop_last()), last.0, last.1)
    }
}

/// Over any run of frames that bring no `Resume`, no `Exit` and no new
/// program, a paused session stays paused and its time stays where it was.
pub proof fn lemma_paused_run_keeps_time<G, E>(
    s: RenderSession<G>,
    frames: Seq<(Option<ControlSignal>, Option<Result<G, E>>)>,
)
    requires
        s.phase == Phase::Paused,
        forall|i: int|
            0 <= i < frames.len() ==> (#[trigger] frames[i]).0 != Some(ControlSignal::Resume)
                && frames[i].0 != Some(ControlSignal::Exit) && !brings_new_program(frames[i].1),
    ensures
        after_frames(s, frames).phase == Phase::Paused,
        after_frames(s, frames).ticks == s.ticks,
    decreases frames.len(),
{
    if frames.len() > 0 {
        let rest = frames.drop_last();
        assert forall|i: int| 0 <= i < rest.len() implies (#[trigger] rest[i]).0 != Some(
            ControlSignal::Resume,
        ) && rest[i].0 != Some(ControlSignal::Exit) && !brings_new_program(rest[i].1) by {
            assert(rest[i] == frames[i]);
        }
        lemma_paused_run_keeps_time(s, rest);
        let last = frames.last();
        assert(last == frames[frames.len() - 1]);
        let w = WindowEvent::CloseRequested;
        let c = last.0;
        assert(c == None::<ControlSignal> || c == Some(ControlSignal::Pause)) by {
            match c {
                Some(x) => {
                    assert(x != ControlSignal::Resume && x != ControlSignal::Exit);
                },
                None => {},
            }
        }
        lemma_pause_freezes_time(after_frames(s, rest), last.0, last.1, w);
    }
}

/// `Exit` is terminal: the frame that applies it stops the loop, and from
/// then on, whatever arrives, the session stays closed and no frame is drawn.
pub proof fn lemma_exit_is_terminal<G, E>(
    s: RenderSession<G>,
    reload: Option<Result<G, E>>,
    frames: Seq<(Option<ControlSignal>, Option<Result<G, E>>)>,
    control: Option<ControlSignal>,
    next_reload: Option<Result<G, E>>,
    event: WindowEvent,
)
    ensures
        frame_action(s, Some(ControlSignal::Exit), reload) == FrameAction::Stop,
        after_frame(s, Some(ControlSignal::Exit), reload).phase == Phase::Closed,
        s.phase == Phase::Closed ==> after_frames(s, frames).phase == Phase::Closed,
        s.phase == Phase::Closed ==> frame_action(after_frames(s, frames), control, next_reload)
            == FrameAction::Stop,
        s.phase == Phase::Closed ==> after_event(s, event).phase == Phase::Closed,
    decreases frames.len(),
{
    if s.phase == Phase::Closed && frames.len() > 0 {
        lemma_exit_is_terminal(s, reload, frames.drop_last(), control, next_reload, event);
    }
}

/// The phase that a control signal asks for.
pub open spec fn phase_for(c: ControlSignal) -> Phase {
    match c {
        ControlSignal::Pause => Phase::Paused,
        ControlSignal::Resume => Phase::Running,
        ControlSignal::Exit => Phase::Closed,
    }
}

/// Frames that take the queued signals one each, with no reloads.
pub open spec fn one_signal_per_frame<G, E>(signals: Seq<ControlSignal>) -> Seq<
    (Option<ControlSignal>, Option<Result<G, E>>),
> {
    Seq::new(signals.len(), |i: int| (Some(signals[i]), None::<Result<G, E>>))
}

/// Signals queued before any frame are applied one per frame and are not
/// collapsed: after the `k`-th frame the session stands in the phase that the
/// `k`-th signal asks for (as long as none before it closed the session).
pub proof fn lemma_signals_apply_one_per_frame<G, E>(
    s: RenderSession<G>,
    signals: Seq<ControlSignal>,
    k: int,
)
    requires
        s.phase != Phase::Closed,
        0 < k <= signals.len(),
        forall|i: int| 0 <= i < k - 1 ==> signals[i] != ControlSignal::Exit,
    ensures
        after_frames(s, one_signal_per_frame::<G, E>(signals).take(k)).phase == phase_for(
            signals[k - 1],
        ),
    decreases k,
{
    let frames = one_signal_per_frame::<G, E>(signals);
    assert(frames.take(k).drop_last() =~= frames.take(k - 1));
    let prev = after_frames(s, frames.take(k - 1));
    if k > 1 {
        lemma_signals_apply_one_per_frame::<G, E>(s, signals, k - 1);
        assert(prev.phase == phase_for(signals[k - 2]));
    } else {
        assert(frames.take(0) =~= Seq::empty());
    }
    assert(prev.phase != Phase::Closed);
}

} // verus!
