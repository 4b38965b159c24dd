//! Whole runs of the render worker: what holds of every sequence of reports.

use vstd::prelude::*;
use crate::scene::{background, triangle_vertices};
use crate::viewport::Frame;
use crate::worker::{command_of, next_stage, phase_of, CommandView, Phase, RenderEvent, Stage};
use crate::worker::IDLE_MILLIS;

verus! {

/// The stage reached from `stage` after the reports `events`, oldest first.
pub open spec fn stage_after(stage: Stage, events: Seq<RenderEvent>) -> Stage
    decreases events.len(),
{
    if events.len() == 0 {
        stage
    } else {
        next_stage(stage_after(stage, events.drop_last()), events.last())
    }
}

/// The commands issued in answer to `events`, one for each report.
pub open spec fn commands_after(stage: Stage, frame: Frame, events: Seq<RenderEvent>) -> Seq<
    CommandView,
> {
    Seq::new(events.len(), |i: int| command_of(stage_after(stage, events.take(i + 1)), frame))
}

/// Whether the report at position `k` of a run is the completion signal,
/// given in answer to the query.
pub open spec fn signals_finish(stage: Stage, events: Seq<RenderEvent>, k: int) -> bool {
    &&& 0 <= k < events.len()
    &&& stage_after(stage, events.take(k)) == Stage::Checking
    &&& events[k] == RenderEvent::Finish(true)
}

/// How far a phase is along the life cycle.
pub open spec fn phase_rank(phase: Phase) -> int {
    match phase {
        Phase::Uninitialized => 0,
        Phase::Running => 1,
        Phase::Finished => 2,
        Phase::Failed => 2,
    }
}

/// A run is taken one report at a time: the stage after the first `k + 1`
/// reports follows from the stage after the first `k` and the report at `k`.
pub proof fn stage_after_unfolds(stage: Stage, events: Seq<RenderEvent>, k: int)
    requires
        0 <= k < events.len(),
    ensures
        stage_after(stage, events.take(k + 1)) == next_stage(
            stage_after(stage, events.take(k)),
            events[k],
        ),
{
    assert(events.take(k + 1).drop_last() =~= events.take(k));
}

/// A worker that has finished stays finished, and one that failed stays
/// failed, whatever is reported to it.
pub proof fn terminal_stages_are_final(stage: Stage, events: Seq<RenderEvent>)
    requires
        stage == Stage::Finished || stage == Stage::Failed,
    ensures
        stage_after(stage, events) == stage,
    decreases events.len(),
{
    if events.len() > 0 {
        terminal_stages_are_final(stage, events.drop_last());
    }
}

/// Once the completion signal has been given, every later command is `Stop`:
/// the worker clears, draws and presents nothing more.
pub proof fn no_drawing_after_finish(
    stage: Stage,
    frame: Frame,
    events: Seq<RenderEvent>,
    k: int,
    j: int,
)
    requires
        signals_finish(stage, events, k),
        k <= j < events.len(),
    ensures
        stage_after(stage, events.take(j + 1)) == Stage::Finished,
        commands_after(stage, frame, events)[j] == CommandView::Stop,
    decreases j - k,
{
    stage_after_unfolds(stage, events, j);
    if j > k {
        no_drawing_after_finish(stage, frame, events, k, j - 1);
    }
}

/// The worker never goes back to an earlier phase.
pub proof fn phase_never_goes_back(stage: Stage, events: Seq<RenderEvent>)
    ensures
        phase_rank(phase_of(stage)) <= phase_rank(phase_of(stage_after(stage, events))),
    decreases events.len(),
{
    if events.len() > 0 {
        phase_never_goes_back(stage, events.drop_last());
    }
}

/// A running worker leaves the loop on the completion signal and on nothing
/// else. No error report ends the loop, and a running worker never fails.
pub proof fn loop_ends_only_on_signal(stage: Stage, events: Seq<RenderEvent>)
    requires
        phase_of(stage) == Phase::Running,
    ensures
        stage_after(stage, events) == Stage::Finished <==> exists|k: int|
            signals_finish(stage, events, k),
        stage_after(stage, events) != Stage::Finished ==> phase_of(stage_after(stage, events))
            == Phase::Running,
    decreases events.len(),
{
    if events.len() > 0 {
        let n = events.len() - 1;
        let before = events.drop_last();
        loop_ends_only_on_signal(stage, before);
        assert(events.take(n) =~= before);
        assert forall|k: int| 0 <= k < n implies signals_finish(stage, before, k)
            == signals_finish(stage, events, k) by {
            assert(before.take(k) =~= events.take(k));
        }
        if stage_after(stage, before) != Stage::Finished && stage_after(stage, events)
            == Stage::Finished {
            assert(signals_finish(stage, events, n));
        }
    }
}

/// A frame is always the same six commands in the same order, whatever is
/// reported in between: clear to the background, draw, present, report the
/// errors, idle, and ask again whether to finish.
pub proof fn frame_steps_in_order(frame: Frame, events: Seq<RenderEvent>)
    requires
        events.len() == 6,
        events[0] != RenderEvent::Finish(true),
    ensures
        commands_after(Stage::Checking, frame, events) == seq![
            CommandView::Clear(background(), frame),
            CommandView::Draw(frame),
            CommandView::EndFrame,
            CommandView::ReportErrors,
            CommandView::Sleep(IDLE_MILLIS),
            CommandView::QueryFinish,
        ],
        stage_after(Stage::Checking, events) == Stage::Checking,
{
    stage_after_unfolds(Stage::Checking, events, 0);
    stage_after_unfolds(Stage::Checking, events, 1);
    stage_after_unfolds(Stage::Checking, events, 2);
    stage_after_unfolds(Stage::Checking, events, 3);
    stage_after_unfolds(Stage::Checking, events, 4);
    stage_after_unfolds(Stage::Checking, events, 5);
    assert(commands_after(Stage::Checking, frame, events) =~= seq![
        CommandView::Clear(background(), frame),
        CommandView::Draw(frame),
        CommandView::EndFrame,
        CommandView::ReportErrors,
        CommandView::Sleep(IDLE_MILLIS),
        CommandView::QueryFinish,
    ]);
}

/// Whatever the run, a clear is the clear to the background on the worker's
/// own frame, a draw goes to that frame, and a mesh is the triangle with its
/// three vertices.
pub proof fn scene_is_fixed(stage: Stage, frame: Frame, events: Seq<RenderEvent>, i: int)
    requires
        0 <= i < events.len(),
    ensures
        match commands_after(stage, frame, events)[i] {
            CommandView::Clear(clear, target) => clear == background() && target == frame,
            CommandView::Draw(target) => target == frame,
            CommandView::CreateMesh(vertices) => vertices == triangle_vertices()
                && vertices.len() == 3,
            _ => true,
        },
{
}

/// The mesh is built once: after the first report, no command builds it
/// again.
pub proof fn mesh_is_built_once(stage: Stage, frame: Frame, events: Seq<RenderEvent>, i: int)
    requires
        0 <= i < events.len(),
    ensures
        !(commands_after(stage, frame, events)[i] is CreateMesh),
{
    stage_after_unfolds(stage, events, i);
}

} // verus!
