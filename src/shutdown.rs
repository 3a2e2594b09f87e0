use vstd::prelude::*;

verus! {

/// One step taken when the main window is asked to close.
#[derive(PartialEq, Eq, Structural, Clone, Copy, Debug)]
pub enum ShutdownStep {
    /// One-way message asking the UI to persist its timer state; no answer
    /// is awaited.
    NotifyTimerSave,
    /// Persist the main window's geometry.
    SaveGeometry,
    /// End the process.
    Exit,
}

/// The steps taken on a close request, in order.
pub open spec fn shutdown_steps(main_window_present: bool) -> Seq<ShutdownStep> {
    if main_window_present {
        seq![ShutdownStep::NotifyTimerSave, ShutdownStep::SaveGeometry, ShutdownStep::Exit]
    } else {
        seq![ShutdownStep::Exit]
    }
}

/// What a close request on the main window does: when the main window can
/// still be found, the UI is told to save its timer state and the geometry
/// is saved, in that order; the process then exits in every case. Each step
/// is best-effort, and none of them gates the exit.
pub fn on_close_requested(main_window_present: bool) -> (r: Vec<ShutdownStep>)
    ensures
        r@ == shutdown_steps(main_window_present),
{
    let r = if main_window_present {
        vec![ShutdownStep::NotifyTimerSave, ShutdownStep::SaveGeometry, ShutdownStep::Exit]
    } else {
        vec![ShutdownStep::Exit]
    };
    assert(r@ =~= shutdown_steps(main_window_present));
    r
}

} // verus!
