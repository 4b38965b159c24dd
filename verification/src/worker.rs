//! The render worker as a step machine.
//!
//! The worker owns the rendering handle. It builds the mesh and the program
//! once, then draws frame after frame until it is told that the device is
//! done. The machine decides which command comes next; the caller carries the
//! command out and reports what happened.

use vstd::prelude::*;
use crate::scene::{clear_data, triangle, ClearData, Vertex, FRAGMENT_SRC, VERTEX_SRC};
use crate::scene::{background, triangle_vertices};
use crate::viewport::Frame;

verus! {

/// How long the worker idles after each frame, in milliseconds.
pub const IDLE_MILLIS: u64 = 500;

/// Where the worker stands: the command it has issued and waits on.
#[derive(Clone, Copy, Debug, PartialEq, Eq)]
pub enum Stage {
    BuildingMesh,
    BuildingProgram,
    Checking,
    Clearing,
    Drawing,
    Presenting,
    Reporting,
    Idling,
    Finished,
    Failed,
}

/// The coarse life cycle of the worker.
#[derive(Clone, Copy, Debug, PartialEq, Eq)]
pub enum Phase {
    Uninitialized,
    Running,
    Finished,
    Failed,
}

/// What the caller reports after carrying out a command.
#[derive(Clone, Copy, Debug, PartialEq, Eq)]
pub enum RenderEvent {
    /// The command was carried out.
    Done,
    /// The command ran into an error.
    Failed,
    /// The answer to `QueryFinish`: whether the device is done.
    Finish(bool),
}

/// What the worker asks the caller to do next.
#[derive(Clone, Debug, PartialEq, Eq)]
pub enum RenderCommand {
    CreateMesh(Vec<Vertex>),
    CreateProgram { vertex: &'static str, fragment: &'static str },
    QueryFinish,
    Clear(ClearData, Frame),
    Draw(Frame),
    EndFrame,
    ReportErrors,
    Sleep(u64),
    Stop,
    Abort,
}

/// A command as a mathematical value.
pub enum CommandView {
    CreateMesh(Seq<Vertex>),
    CreateProgram { vertex: Seq<char>, fragment: Seq<char> },
    QueryFinish,
    Clear(ClearData, Frame),
    Draw(Frame),
    EndFrame,
    ReportErrors,
    Sleep(u64),
    Stop,
    Abort,
}

impl View for RenderCommand {
    type V = CommandView;

    open spec fn view(&self) -> CommandView {
        match *self {
            RenderCommand::CreateMesh(vertices) => CommandView::CreateMesh(vertices@),
            RenderCommand::CreateProgram { vertex, fragment } => CommandView::CreateProgram {
                vertex: vertex@,
                fragment: fragment@,
            },
            RenderCommand::QueryFinish => CommandView::QueryFinish,
            RenderCommand::Clear(clear, frame) => CommandView::Clear(clear, frame),
            RenderCommand::Draw(frame) => CommandView::Draw(frame),
            RenderCommand::EndFrame => CommandView::EndFrame,
            RenderCommand::ReportErrors => CommandView::ReportErrors,
            RenderCommand::Sleep(millis) => CommandView::Sleep(millis),
            RenderCommand::Stop => CommandView::Stop,
            RenderCommand::Abort => CommandView::Abort,
        }
    }
}

/// The worker: its stage and the frame it draws into.
#[derive(Clone, Copy, Debug, PartialEq, Eq)]
pub struct Worker {
    pub stage: Stage,
    pub frame: Frame,
}

/// The phase that a stage belongs to.
pub open spec fn phase_of(stage: Stage) -> Phase {
    match stage {
        Stage::BuildingMesh | Stage::BuildingProgram => Phase::Uninitialized,
        Stage::Finished => Phase::Finished,
        Stage::Failed => Phase::Failed,
        _ => Phase::Running,
    }
}

/// The stage that follows `stage` once the caller reports `event`.
///
/// Setup goes on only when a step is reported done; anything else is fatal.
/// Inside the loop only the completion signal, given in answer to the query,
/// ends the run: no other report changes the order of the steps.
pub open spec fn next_stage(stage: Stage, event: RenderEvent) -> Stage {
    match stage {
        Stage::BuildingMesh => if event == RenderEvent::Done {
            Stage::BuildingProgram
        } else {
            Stage::Failed
        },
        Stage::BuildingProgram => if event == RenderEvent::Done {
            Stage::Checking
        } else {
            Stage::Failed
        },
        Stage::Checking => if event == RenderEvent::Finish(true) {
            Stage::Finished
        } else {
            Stage::Clearing
        },
        Stage::Clearing => Stage::Drawing,
        Stage::Drawing => Stage::Presenting,
        Stage::Presenting => Stage::Reporting,
        Stage::Reporting => Stage::Idling,
        Stage::Idling => Stage::Checking,
        Stage::Finished => Stage::Finished,
        Stage::Failed => Stage::Failed,
    }
}

/// The command that a worker in `stage`, drawing into `frame`, waits on.
pub open spec fn command_of(stage: Stage, frame: Frame) -> CommandView {
    match stage {
        Stage::BuildingMesh => CommandView::CreateMesh(triangle_vertices()),
        Stage::BuildingProgram => CommandView::CreateProgram {
            vertex: VERTEX_SRC@,
            fragment: FRAGMENT_SRC@,
        },
        Stage::Checking => CommandView::QueryFinish,
        Stage::Clearing => CommandView::Clear(background(), frame),
        Stage::Drawing => CommandView::Draw(frame),
        Stage::Presenting => CommandView::EndFrame,
        Stage::Reporting => CommandView::ReportErrors,
        Stage::Idling => CommandView::Sleep(IDLE_MILLIS),
        Stage::Finished => CommandView::Stop,
        Stage::Failed => CommandView::Abort,
    }
}

impl Worker {
    /// Starts the worker for a viewport of the given size. Its first command
    /// builds the mesh.
    pub fn start(width: u16, height: u16) -> (out: (Worker, RenderCommand))
        ensures
            out.0 == (Worker { stage: Stage::BuildingMesh, frame: Frame { width, height } }),
            out.1@ == command_of(Stage::BuildingMesh, out.0.frame),
    {
        let worker = Worker { stage: Stage::BuildingMesh, frame: Frame::new(width, height) };
        let command = worker.command();
        (worker, command)
    }

    /// The command that the worker waits on.
    pub fn command(&self) -> (command: RenderCommand)
        ensures
            command@ == command_of(self.stage, self.frame),
    {
        match self.stage {
            Stage::BuildingMesh => RenderCommand::CreateMesh(triangle()),
            Stage::BuildingProgram => RenderCommand::CreateProgram {
                vertex: VERTEX_SRC,
                fragment: FRAGMENT_SRC,
            },
            Stage::Checking => RenderCommand::QueryFinish,
            Stage::Clearing => RenderCommand::Clear(clear_data(), self.frame),
            Stage::Drawing => RenderCommand::Draw(self.frame),
            Stage::Presenting => RenderCommand::EndFrame,
            Stage::Reporting => RenderCommand::ReportErrors,
            Stage::Idling => RenderCommand::Sleep(IDLE_MILLIS),
            Stage::Finished => RenderCommand::Stop,
            Stage::Failed => RenderCommand::Abort,
        }
    }

    /// Takes the caller's report on the command last issued and gives the next
    /// command. The frame never changes.
    pub fn advance(&mut self, event: RenderEvent) -> (command: RenderCommand)
        ensures
            final(self).stage == next_stage(old(self).stage, event),
            final(self).frame == old(self).frame,
            command@ == command_of(final(self).stage, final(self).frame),
    {
        let next = match self.stage {
            Stage::BuildingMesh => match event {
                RenderEvent::Done => Stage::BuildingProgram,
                _ => Stage::Failed,
            },
            Stage::BuildingProgram => match event {
                RenderEvent::Done => Stage::Checking,
                _ => Stage::Failed,
            },
            Stage::Checking => match event {
                RenderEvent::Finish(true) => Stage::Finished,
                _ => Stage::Clearing,
            },
            Stage::Clearing => Stage::Drawing,
            Stage::Drawing => Stage::Presenting,
            Stage::Presenting => Stage::Reporting,
            Stage::Reporting => Stage::Idling,
            Stage::Idling => Stage::Checking,
            Stage::Finished => Stage::Finished,
            Stage::Failed => Stage::Failed,
        };
        self.stage = next;
        self.command()
    }

    /// The phase of the life cycle that the worker is in.
    pub fn phase(&self) -> (phase: Phase)
        ensures
            phase == phase_of(self.stage),
    {
        match self.stage {
            Stage::BuildingMesh | Stage::BuildingProgram => Phase::Uninitialized,
            Stage::Finished => Phase::Finished,
            Stage::Failed => Phase::Failed,
            _ => Phase::Running,
        }
    }
}

} // verus!
