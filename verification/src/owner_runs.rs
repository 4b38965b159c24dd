//! Whole runs of the window owner: what holds of every sequence of reports.

use vstd::prelude::*;
use crate::input::{any_quit, is_quit, keeps_running, WindowEvent};
use crate::owner::{asks_to_stop, owner_command_of, owner_next, window_config};
use crate::owner::{DeviceConfig, OwnerCommand, OwnerEvent, OwnerStage};
use crate::owner::{DEFAULT_HEIGHT, DEFAULT_WIDTH, EXIT_FAILURE, EXIT_OK, QUEUE_SIZE, TITLE};
use crate::viewport::{window_frame, Frame};

verus! {

/// The stage reached from `stage` after the reports `events`, oldest first.
pub open spec fn owner_after(stage: OwnerStage, events: Seq<OwnerEvent>) -> OwnerStage
    decreases events.len(),
{
    if events.len() == 0 {
        stage
    } else {
        owner_next(owner_after(stage, events.drop_last()), events.last())
    }
}

/// The commands issued in answer to `events`, one for each report.
pub open spec fn owner_commands_after(stage: OwnerStage, events: Seq<OwnerEvent>) -> Seq<
    OwnerCommand,
> {
    Seq::new(events.len(), |i: int| owner_command_of(owner_after(stage, events.take(i + 1))))
}

/// Whether `stage` is a step of setup.
pub open spec fn in_setup(stage: OwnerStage) -> bool {
    stage == OwnerStage::StartingWindowing || stage == OwnerStage::CreatingWindow
        || stage is BuildingDevice
}

/// Whether `event` reports that the setup step `stage` succeeded.
pub open spec fn confirms(stage: OwnerStage, event: OwnerEvent) -> bool {
    match stage {
        OwnerStage::CreatingWindow => event is WindowCreated,
        _ => event == OwnerEvent::Done,
    }
}

/// A run is taken one report at a time: the stage after the first `k + 1`
/// reports follows from the stage after the first `k` and the report at `k`.
pub proof fn owner_after_unfolds(stage: OwnerStage, events: Seq<OwnerEvent>, k: int)
    requires
        0 <= k < events.len(),
    ensures
        owner_after(stage, events.take(k + 1)) == owner_next(
            owner_after(stage, events.take(k)),
            events[k],
        ),
{
    assert(events.take(k + 1).drop_last() =~= events.take(k));
}

/// Closing the window, or pressing Escape, stops the owner in the very poll
/// that sees it, whatever else that poll delivered.
pub proof fn close_or_escape_stops(should_close: bool, events: Vec<WindowEvent>, i: int)
    requires
        should_close || (0 <= i < events@.len() && is_quit(events@[i])),
    ensures
        !keeps_running(should_close, events@),
        asks_to_stop(OwnerEvent::Polled { should_close, events }),
        owner_next(OwnerStage::Polling, OwnerEvent::Polled { should_close, events })
            == OwnerStage::Releasing,
{
}

/// Once a poll has asked to stop, the owner releases what it holds and then
/// leaves with the status of a normal close. It never polls or updates the
/// device again.
pub proof fn stop_ends_the_run(stage: OwnerStage, events: Seq<OwnerEvent>, k: int, j: int)
    requires
        0 <= k <= j < events.len(),
        owner_after(stage, events.take(k)) == OwnerStage::Polling,
        asks_to_stop(events[k]),
    ensures
        owner_commands_after(stage, events)[j] == if j == k {
            OwnerCommand::Release
        } else {
            OwnerCommand::Exit(EXIT_OK)
        },
    decreases j - k,
{
    owner_after_unfolds(stage, events, j);
    if j > k {
        stop_ends_the_run(stage, events, k, j - 1);
        owner_after_unfolds(stage, events, j - 1);
        if j - 1 > k {
            stop_ends_the_run(stage, events, k, j - 2);
        }
    }
}

/// A step of setup that is not confirmed is fatal: from then on every command
/// is the abort with a non-zero status, so the owner never builds the device
/// after a failed window, and never polls.
pub proof fn setup_failure_is_fatal(stage: OwnerStage, events: Seq<OwnerEvent>, k: int, j: int)
    requires
        0 <= k <= j < events.len(),
        in_setup(owner_after(stage, events.take(k))),
        !confirms(owner_after(stage, events.take(k)), events[k]),
    ensures
        owner_after(stage, events.take(j + 1)) == owner_after(stage, events.take(k + 1)),
        owner_after(stage, events.take(j + 1)) is Failed,
        owner_commands_after(stage, events)[j] is Abort,
        owner_commands_after(stage, events)[j]->Abort_1 == EXIT_FAILURE,
        EXIT_FAILURE != 0,
    decreases j - k,
{
    owner_after_unfolds(stage, events, j);
    if j > k {
        setup_failure_is_fatal(stage, events, k, j - 1);
    }
}

/// The owner polls only after all three steps of setup were confirmed, in
/// their order.
pub proof fn polling_needs_full_setup(events: Seq<OwnerEvent>)
    requires
        owner_after(OwnerStage::StartingWindowing, events) == OwnerStage::Polling,
    ensures
        events.len() >= 3,
        events[0] == OwnerEvent::Done,
        events[1] is WindowCreated,
        events[2] == OwnerEvent::Done,
    decreases events.len(),
{
    let start = OwnerStage::StartingWindowing;
    if events.len() == 1 {
        owner_after_unfolds(start, events, 0);
    } else if events.len() == 2 {
        owner_after_unfolds(start, events, 0);
        owner_after_unfolds(start, events, 1);
    } else if events.len() >= 3 {
        owner_after_unfolds(start, events, 0);
        owner_after_unfolds(start, events, 1);
        owner_after_unfolds(start, events, 2);
        if !confirms(start, events[0]) {
            setup_failure_is_fatal(start, events, 0, events.len() - 1);
        } else if !confirms(owner_after(start, events.take(1)), events[1]) {
            setup_failure_is_fatal(start, events, 1, events.len() - 1);
        } else if !confirms(owner_after(start, events.take(2)), events[2]) {
            setup_failure_is_fatal(start, events, 2, events.len() - 1);
        }
        assert(events.take(events.len() as int) =~= events);
    }
}

/// The device is built for a frame of the window's size at startup, with a
/// queue of one, and the window is asked for with the fixed title, the
/// default size, a modern context and key events switched on. A window that
/// opens at the size asked for gives a frame of that size.
pub proof fn device_matches_window(width: i32, height: i32)
    ensures
        owner_command_of(
            owner_next(OwnerStage::CreatingWindow, OwnerEvent::WindowCreated { width, height }),
        ) == OwnerCommand::BuildDevice(
            DeviceConfig { queue_size: QUEUE_SIZE, frame: window_frame(width, height) },
        ),
        owner_command_of(owner_next(OwnerStage::StartingWindowing, OwnerEvent::Done))
            == OwnerCommand::CreateWindow(window_config()),
        window_config().key_polling,
        window_config().modern_context,
        window_config().title == TITLE,
        window_frame(DEFAULT_WIDTH as i32, DEFAULT_HEIGHT as i32) == (Frame {
            width: DEFAULT_WIDTH as u16,
            height: DEFAULT_HEIGHT as u16,
        }),
{
}

/// While no poll asks to stop, the owner alternates between polling and
/// updating the device, whatever is reported to it.
pub proof fn polling_goes_on(stage: OwnerStage, events: Seq<OwnerEvent>)
    requires
        stage == OwnerStage::Polling || stage == OwnerStage::Updating,
        forall|k: int|
            0 <= k < events.len() ==> !(owner_after(stage, events.take(k)) == OwnerStage::Polling
                && asks_to_stop(#[trigger] events[k])),
    ensures
        owner_after(stage, events) == OwnerStage::Polling || owner_after(stage, events)
            == OwnerStage::Updating,
    decreases events.len(),
{
    if events.len() > 0 {
        let n = events.len() - 1;
        let before = events.drop_last();
        assert(events.take(n) =~= before);
        assert forall|k: int| 0 <= k < before.len() implies !(owner_after(stage, before.take(k))
            == OwnerStage::Polling && asks_to_stop(#[trigger] before[k])) by {
            assert(before.take(k) =~= events.take(k));
        }
        polling_goes_on(stage, before);
        assert(!(owner_after(stage, events.take(n)) == OwnerStage::Polling && asks_to_stop(
            events[n],
        )));
    }
}

} // verus!
