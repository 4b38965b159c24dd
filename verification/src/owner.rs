//! The window owner as a step machine.
//!
//! The owner brings up the windowing layer, the window and the device, in
//! that order, and then polls the window once per tick until it is asked to
//! stop. Any failure during setup is fatal. The machine decides which command
//! comes next; the caller carries the command out and reports what happened.

use vstd::prelude::*;
use crate::input::{input, keeps_running, WindowEvent};
use crate::viewport::{window_frame, Frame};

verus! {

/// The title of the window.
pub const TITLE: &'static str = "[GLFW] Triangle example #gfx-rs!";

/// The width asked for when the window is created.
pub const DEFAULT_WIDTH: u32 = 640;

/// The height asked for when the window is created.
pub const DEFAULT_HEIGHT: u32 = 480;

/// How many frames the device queues between the two threads.
pub const QUEUE_SIZE: usize = 1;

/// The exit status after a normal close.
pub const EXIT_OK: i32 = 0;

/// The exit status after a fatal setup failure.
pub const EXIT_FAILURE: i32 = 101;

/// The step of setup that failed.
#[derive(Clone, Copy, Debug, PartialEq, Eq)]
pub enum SetupFailure {
    Windowing,
    Window,
    Device,
}

/// How the window is to be created.
#[derive(Clone, Copy, Debug, PartialEq, Eq)]
pub struct WindowConfig {
    pub title: &'static str,
    pub width: u32,
    pub height: u32,
    /// Ask for a modern rendering context.
    pub modern_context: bool,
    /// Deliver key events, so that Escape can be seen.
    pub key_polling: bool,
}

/// How the device is to be built. The worker is started on `frame`.
#[derive(Clone, Copy, Debug, PartialEq, Eq)]
pub struct DeviceConfig {
    pub queue_size: usize,
    pub frame: Frame,
}

/// Where the owner stands: the command it has issued and waits on.
#[derive(Clone, Copy, Debug, PartialEq, Eq)]
pub enum OwnerStage {
    StartingWindowing,
    CreatingWindow,
    BuildingDevice(Frame),
    Polling,
    Updating,
    Releasing,
    Finished,
    Failed(SetupFailure),
}

/// What the caller reports after carrying out a command.
#[derive(Clone, Debug, PartialEq, Eq)]
pub enum OwnerEvent {
    /// The command was carried out.
    Done,
    /// The command ran into an error.
    Failed,
    /// The window exists and has this size.
    WindowCreated { width: i32, height: i32 },
    /// The answer to `Poll`: whether the window was asked to close, and the
    /// events it delivered, oldest first.
    Polled { should_close: bool, events: Vec<WindowEvent> },
}

/// What the owner asks the caller to do next.
#[derive(Clone, Copy, Debug, PartialEq, Eq)]
pub enum OwnerCommand {
    InitWindowing,
    CreateWindow(WindowConfig),
    BuildDevice(DeviceConfig),
    Poll,
    UpdateDevice,
    /// Let go of the window, the event source and the device.
    Release,
    /// Leave with the given status.
    Exit(i32),
    /// Print the message of the failure and leave with the given status.
    Abort(SetupFailure, i32),
}

/// The owner.
#[derive(Clone, Copy, Debug, PartialEq, Eq)]
pub struct Owner {
    pub stage: OwnerStage,
}

/// The window that the owner asks for.
pub open spec fn window_config() -> WindowConfig {
    WindowConfig {
        title: TITLE,
        width: DEFAULT_WIDTH,
        height: DEFAULT_HEIGHT,
        modern_context: true,
        key_polling: true,
    }
}

/// Whether `event` tells the owner to stop polling: an answer to `Poll` in
/// which the window was asked to close or Escape was pressed.
pub open spec fn asks_to_stop(event: OwnerEvent) -> bool {
    match event {
        OwnerEvent::Polled { should_close, events } => !keeps_running(should_close, events@),
        _ => false,
    }
}

/// The stage that follows `stage` once the caller reports `event`.
///
/// Each step of setup goes on only on the report that it succeeded; anything
/// else is fatal. Once polling, only a request to stop ends the run.
pub open spec fn owner_next(stage: OwnerStage, event: OwnerEvent) -> OwnerStage {
    match stage {
        OwnerStage::StartingWindowing => match event {
            OwnerEvent::Done => OwnerStage::CreatingWindow,
            _ => OwnerStage::Failed(SetupFailure::Windowing),
        },
        OwnerStage::CreatingWindow => match event {
            OwnerEvent::WindowCreated { width, height } => OwnerStage::BuildingDevice(
                window_frame(width, height),
            ),
            _ => OwnerStage::Failed(SetupFailure::Window),
        },
        OwnerStage::BuildingDevice(_) => match event {
            OwnerEvent::Done => OwnerStage::Polling,
            _ => OwnerStage::Failed(SetupFailure::Device),
        },
        OwnerStage::Polling => if asks_to_stop(event) {
            OwnerStage::Releasing
        } else {
            OwnerStage::Updating
        },
        OwnerStage::Updating => OwnerStage::Polling,
        OwnerStage::Releasing => OwnerStage::Finished,
        OwnerStage::Finished => OwnerStage::Finished,
        OwnerStage::Failed(failure) => OwnerStage::Failed(failure),
    }
}

/// The command that an owner in `stage` waits on.
pub open spec fn owner_command_of(stage: OwnerStage) -> OwnerCommand {
    match stage {
        OwnerStage::StartingWindowing => OwnerCommand::InitWindowing,
        OwnerStage::CreatingWindow => OwnerCommand::CreateWindow(window_config()),
        OwnerStage::BuildingDevice(frame) => OwnerCommand::BuildDevice(
            DeviceConfig { queue_size: QUEUE_SIZE, frame },
        ),
        OwnerStage::Polling => OwnerCommand::Poll,
        OwnerStage::Updating => OwnerCommand::UpdateDevice,
        OwnerStage::Releasing => OwnerCommand::Release,
        OwnerStage::Finished => OwnerCommand::Exit(EXIT_OK),
        OwnerStage::Failed(failure) => OwnerCommand::Abort(failure, EXIT_FAILURE),
    }
}

/// The message that goes with each failure.
pub open spec fn failure_text(failure: SetupFailure) -> Seq<char> {
    match failure {
        SetupFailure::Windowing => "Failed to initialize GLFW."@,
        SetupFailure::Window => "Failed to create GLFW window."@,
        SetupFailure::Device => "Failed to build the device."@,
    }
}

impl SetupFailure {
    /// The message printed before the process leaves.
    pub fn message(&self) -> (text: &'static str)
        ensures
            text@ == failure_text(*self),
    {
        match self {
            SetupFailure::Windowing => "Failed to initialize GLFW.",
            SetupFailure::Window => "Failed to create GLFW window.",
            SetupFailure::Device => "Failed to build the device.",
        }
    }
}

impl Owner {
    /// Starts the owner. Its first command brings up the windowing layer.
    pub fn init() -> (out: (Owner, OwnerCommand))
        ensures
            out.0.stage == OwnerStage::StartingWindowing,
            out.1 == owner_command_of(OwnerStage::StartingWindowing),
    {
        let owner = Owner { stage: OwnerStage::StartingWindowing };
        let command = owner.command();
        (owner, command)
    }

    /// The command that the owner waits on.
    pub fn command(&self) -> (command: OwnerCommand)
        ensures
            command == owner_command_of(self.stage),
    {
        match self.stage {
            OwnerStage::StartingWindowing => OwnerCommand::InitWindowing,
            OwnerStage::CreatingWindow => OwnerCommand::CreateWindow(
                WindowConfig {
                    title: TITLE,
                    width: DEFAULT_WIDTH,
                    height: DEFAULT_HEIGHT,
                    modern_context: true,
                    key_polling: true,
                },
            ),
            OwnerStage::BuildingDevice(frame) => OwnerCommand::BuildDevice(
                DeviceConfig { queue_size: QUEUE_SIZE, frame },
            ),
            OwnerStage::Polling => OwnerCommand::Poll,
            OwnerStage::Updating => OwnerCommand::UpdateDevice,
            OwnerStage::Releasing => OwnerCommand::Release,
            OwnerStage::Finished => OwnerCommand::Exit(EXIT_OK),
            OwnerStage::Failed(failure) => OwnerCommand::Abort(failure, EXIT_FAILURE),
        }
    }

    /// Takes the caller's report on the command last issued and gives the next
    /// command.
    pub fn advance(&mut self, event: &OwnerEvent) -> (command: OwnerCommand)
        ensures
            final(self).stage == owner_next(old(self).stage, *event),
            command == owner_command_of(final(self).stage),
    {
        let next = match self.stage {
            OwnerStage::StartingWindowing => match event {
                OwnerEvent::Done => OwnerStage::CreatingWindow,
                _ => OwnerStage::Failed(SetupFailure::Windowing),
            },
            OwnerStage::CreatingWindow => match event {
                OwnerEvent::WindowCreated { width, height } => OwnerStage::BuildingDevice(
                    Frame::of_window(*width, *height),
                ),
                _ => OwnerStage::Failed(SetupFailure::Window),
            },
            OwnerStage::BuildingDevice(_) => match event {
                OwnerEvent::Done => OwnerStage::Polling,
                _ => OwnerStage::Failed(SetupFailure::Device),
            },
            OwnerStage::Polling => match event {
                OwnerEvent::Polled { should_close, events } => if input(*should_close, events) {
                    OwnerStage::Updating
                } else {
                    OwnerStage::Releasing
                },
                _ => OwnerStage::Updating,
            },
            OwnerStage::Updating => OwnerStage::Polling,
            OwnerStage::Releasing => OwnerStage::Finished,
            OwnerStage::Finished => OwnerStage::Finished,
            OwnerStage::Failed(failure) => OwnerStage::Failed(failure),
        };
        self.stage = next;
        self.command()
    }
}

} // verus!
