use gfx_triangle::scene::{clear_data, triangle, FRAGMENT_SRC, VERTEX_SRC};
use gfx_triangle::viewport::Frame;
use gfx_triangle::worker::{Phase, RenderCommand, RenderEvent, Stage, Worker, IDLE_MILLIS};

fn running(width: u16, height: u16) -> Worker {
    let (mut worker, _) = Worker::start(width, height);
    worker.advance(RenderEvent::Done);
    worker.advance(RenderEvent::Done);
    worker
}

#[test]
fn start_builds_the_mesh_first() {
    let (worker, command) = Worker::start(640, 480);
    assert_eq!(worker, Worker { stage: Stage::BuildingMesh, frame: Frame { width: 640, height: 480 } });
    assert_eq!(command, RenderCommand::CreateMesh(triangle()));
    assert_eq!(worker.phase(), Phase::Uninitialized);
}

#[test]
fn setup_builds_mesh_then_program_then_asks() {
    let (mut worker, _) = Worker::start(640, 480);
    assert_eq!(
        worker.advance(RenderEvent::Done),
        RenderCommand::CreateProgram { vertex: VERTEX_SRC, fragment: FRAGMENT_SRC }
    );
    assert_eq!(worker.phase(), Phase::Uninitialized);
    assert_eq!(worker.advance(RenderEvent::Done), RenderCommand::QueryFinish);
    assert_eq!(worker.phase(), Phase::Running);
}

#[test]
fn first_frame_shows_the_triangle_on_gray() {
    let (mut worker, first) = Worker::start(640, 480);
    let frame = Frame { width: 640, height: 480 };
    let mut commands = vec![first];
    for event in [
        RenderEvent::Done,
        RenderEvent::Done,
        RenderEvent::Finish(false),
        RenderEvent::Done,
        RenderEvent::Done,
        RenderEvent::Done,
        RenderEvent::Done,
        RenderEvent::Done,
    ] {
        commands.push(worker.advance(event));
    }
    assert_eq!(
        commands,
        vec![
            RenderCommand::CreateMesh(triangle()),
            RenderCommand::CreateProgram { vertex: VERTEX_SRC, fragment: FRAGMENT_SRC },
            RenderCommand::QueryFinish,
            RenderCommand::Clear(clear_data(), frame),
            RenderCommand::Draw(frame),
            RenderCommand::EndFrame,
            RenderCommand::ReportErrors,
            RenderCommand::Sleep(500),
            RenderCommand::QueryFinish,
        ]
    );
}

#[test]
fn idle_is_half_a_second() {
    assert_eq!(IDLE_MILLIS, 500);
}

#[test]
fn renderer_error_does_not_end_the_loop() {
    let mut worker = running(640, 480);
    let frame = worker.frame;
    assert_eq!(worker.advance(RenderEvent::Finish(false)), RenderCommand::Clear(clear_data(), frame));
    assert_eq!(worker.advance(RenderEvent::Done), RenderCommand::Draw(frame));
    assert_eq!(worker.advance(RenderEvent::Failed), RenderCommand::EndFrame);
    assert_eq!(worker.advance(RenderEvent::Done), RenderCommand::ReportErrors);
    assert_eq!(worker.advance(RenderEvent::Failed), RenderCommand::Sleep(500));
    assert_eq!(worker.advance(RenderEvent::Done), RenderCommand::QueryFinish);
    assert_eq!(worker.phase(), Phase::Running);
    assert_eq!(worker.advance(RenderEvent::Finish(false)), RenderCommand::Clear(clear_data(), frame));
    assert_eq!(worker.advance(RenderEvent::Done), RenderCommand::Draw(frame));
}

#[test]
fn errors_at_every_step_of_a_frame_do_not_end_the_loop() {
    let mut worker = running(800, 600);
    for _ in 0..3 {
        for _ in 0..6 {
            worker.advance(RenderEvent::Failed);
            assert_eq!(worker.phase(), Phase::Running);
        }
        assert_eq!(worker.stage, Stage::Checking);
    }
}

#[test]
fn finish_signal_stops_the_worker() {
    let mut worker = running(640, 480);
    assert_eq!(worker.advance(RenderEvent::Finish(true)), RenderCommand::Stop);
    assert_eq!(worker.stage, Stage::Finished);
    assert_eq!(worker.phase(), Phase::Finished);
}

#[test]
fn nothing_is_drawn_after_the_finish_signal() {
    let mut worker = running(640, 480);
    worker.advance(RenderEvent::Finish(true));
    for event in [
        RenderEvent::Done,
        RenderEvent::Failed,
        RenderEvent::Finish(false),
        RenderEvent::Finish(true),
        RenderEvent::Done,
    ] {
        assert_eq!(worker.advance(event), RenderCommand::Stop);
        assert_eq!(worker.stage, Stage::Finished);
    }
}

#[test]
fn finish_signal_counts_only_as_answer_to_the_query() {
    let mut worker = running(640, 480);
    let frame = worker.frame;
    worker.advance(RenderEvent::Finish(false));
    assert_eq!(worker.advance(RenderEvent::Finish(true)), RenderCommand::Draw(frame));
    assert_eq!(worker.advance(RenderEvent::Finish(true)), RenderCommand::EndFrame);
    assert_eq!(worker.advance(RenderEvent::Finish(true)), RenderCommand::ReportErrors);
    assert_eq!(worker.advance(RenderEvent::Finish(true)), RenderCommand::Sleep(500));
    assert_eq!(worker.advance(RenderEvent::Finish(true)), RenderCommand::QueryFinish);
    assert_eq!(worker.advance(RenderEvent::Finish(true)), RenderCommand::Stop);
}

#[test]
fn unanswered_query_goes_on() {
    let mut worker = running(640, 480);
    let frame = worker.frame;
    assert_eq!(worker.advance(RenderEvent::Done), RenderCommand::Clear(clear_data(), frame));
    let mut worker = running(640, 480);
    assert_eq!(worker.advance(RenderEvent::Failed), RenderCommand::Clear(clear_data(), frame));
}

#[test]
fn failed_mesh_is_fatal() {
    let (mut worker, _) = Worker::start(640, 480);
    assert_eq!(worker.advance(RenderEvent::Failed), RenderCommand::Abort);
    assert_eq!(worker.stage, Stage::Failed);
    assert_eq!(worker.phase(), Phase::Failed);
    assert_eq!(worker.advance(RenderEvent::Done), RenderCommand::Abort);
    assert_eq!(worker.advance(RenderEvent::Finish(false)), RenderCommand::Abort);
}

#[test]
fn failed_program_is_fatal() {
    let (mut worker, _) = Worker::start(640, 480);
    worker.advance(RenderEvent::Done);
    assert_eq!(worker.advance(RenderEvent::Failed), RenderCommand::Abort);
    assert_eq!(worker.stage, Stage::Failed);
    assert_eq!(worker.advance(RenderEvent::Done), RenderCommand::Abort);
}

#[test]
fn setup_goes_on_only_when_done() {
    let (mut worker, _) = Worker::start(640, 480);
    assert_eq!(worker.advance(RenderEvent::Finish(false)), RenderCommand::Abort);
    let (mut worker, _) = Worker::start(640, 480);
    worker.advance(RenderEvent::Done);
    assert_eq!(worker.advance(RenderEvent::Finish(true)), RenderCommand::Abort);
}

#[test]
fn frame_never_changes() {
    let (mut worker, _) = Worker::start(1024, 768);
    let frame = Frame { width: 1024, height: 768 };
    for event in [
        RenderEvent::Done,
        RenderEvent::Done,
        RenderEvent::Finish(false),
        RenderEvent::Failed,
        RenderEvent::Done,
        RenderEvent::Done,
        RenderEvent::Done,
        RenderEvent::Done,
        RenderEvent::Finish(true),
        RenderEvent::Done,
    ] {
        worker.advance(event);
        assert_eq!(worker.frame, frame);
    }
}

#[test]
fn command_follows_the_stage() {
    let frame = Frame { width: 3, height: 4 };
    let at = |stage: Stage| Worker { stage, frame }.command();
    assert_eq!(at(Stage::BuildingMesh), RenderCommand::CreateMesh(triangle()));
    assert_eq!(
        at(Stage::BuildingProgram),
        RenderCommand::CreateProgram { vertex: VERTEX_SRC, fragment: FRAGMENT_SRC }
    );
    assert_eq!(at(Stage::Checking), RenderCommand::QueryFinish);
    assert_eq!(at(Stage::Clearing), RenderCommand::Clear(clear_data(), frame));
    assert_eq!(at(Stage::Drawing), RenderCommand::Draw(frame));
    assert_eq!(at(Stage::Presenting), RenderCommand::EndFrame);
    assert_eq!(at(Stage::Reporting), RenderCommand::ReportErrors);
    assert_eq!(at(Stage::Idling), RenderCommand::Sleep(500));
    assert_eq!(at(Stage::Finished), RenderCommand::Stop);
    assert_eq!(at(Stage::Failed), RenderCommand::Abort);
}

#[test]
fn phase_follows_the_stage() {
    let frame = Frame { width: 3, height: 4 };
    let at = |stage: Stage| Worker { stage, frame }.phase();
    assert_eq!(at(Stage::BuildingMesh), Phase::Uninitialized);
    assert_eq!(at(Stage::BuildingProgram), Phase::Uninitialized);
    assert_eq!(at(Stage::Checking), Phase::Running);
    assert_eq!(at(Stage::Clearing), Phase::Running);
    assert_eq!(at(Stage::Drawing), Phase::Running);
    assert_eq!(at(Stage::Presenting), Phase::Running);
    assert_eq!(at(Stage::Reporting), Phase::Running);
    assert_eq!(at(Stage::Idling), Phase::Running);
    assert_eq!(at(Stage::Finished), Phase::Finished);
    assert_eq!(at(Stage::Failed), Phase::Failed);
}
