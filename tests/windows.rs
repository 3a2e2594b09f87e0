use lightning_timer::{
    AuxWindow, ShutdownStep, WindowAction, WindowPhase, on_close_requested, timeup_window_config,
};

#[test]
fn opening_a_missing_window_creates_it() {
    let mut w = AuxWindow::absent();
    let actions = w.open();
    assert_eq!(actions, vec![WindowAction::Create, WindowAction::Show, WindowAction::Focus]);
    assert_eq!(w.phase, WindowPhase::Visible);
}

#[test]
fn reopening_reuses_the_existing_window() {
    let mut w = AuxWindow::absent();
    w.open();
    w.close();
    assert_eq!(w.phase, WindowPhase::Hidden);
    let actions = w.open();
    assert_eq!(
        actions,
        vec![WindowAction::ResetClosingFlag, WindowAction::Show, WindowAction::Focus]
    );
    assert!(!actions.contains(&WindowAction::Create));
    assert_eq!(w.phase, WindowPhase::Visible);

    let again = w.open();
    assert!(!again.contains(&WindowAction::Create));
}

#[test]
fn closing_a_fullscreen_window_leaves_fullscreen_first() {
    let mut w = AuxWindow { phase: WindowPhase::Visible, fullscreen: true };
    let actions = w.close();
    assert_eq!(
        actions,
        vec![WindowAction::ResetClosingFlag, WindowAction::ExitFullscreen, WindowAction::Hide]
    );
    assert_eq!(w, AuxWindow { phase: WindowPhase::Hidden, fullscreen: false });
}

#[test]
fn closing_hides_without_destroying() {
    let mut w = AuxWindow { phase: WindowPhase::Visible, fullscreen: false };
    assert_eq!(w.close(), vec![WindowAction::ResetClosingFlag, WindowAction::Hide]);
    assert_eq!(w.phase, WindowPhase::Hidden);
}

#[test]
fn closing_a_missing_window_does_nothing() {
    let mut w = AuxWindow::absent();
    assert_eq!(w.close(), Vec::<WindowAction>::new());
    assert_eq!(w, AuxWindow::absent());
}

#[test]
fn timeup_window_attributes() {
    let c = timeup_window_config();
    assert_eq!(c.label, "timeup");
    assert_eq!(c.page, "timeup.html");
    assert_eq!(c.title, "Time Up!!");
    assert!(!c.resizable && !c.decorations && c.always_on_top && c.visible);
}

#[test]
fn close_request_saves_then_exits() {
    assert_eq!(
        on_close_requested(true),
        vec![ShutdownStep::NotifyTimerSave, ShutdownStep::SaveGeometry, ShutdownStep::Exit]
    );
    assert_eq!(on_close_requested(false), vec![ShutdownStep::Exit]);
}
