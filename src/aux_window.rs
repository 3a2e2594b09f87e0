use vstd::prelude::*;

verus! {

/// Where a named auxiliary window stands. Once created a window is only
/// ever hidden, never destroyed, so it does not return to `Absent`.
#[derive(PartialEq, Eq, Structural, Clone, Copy, Debug)]
pub enum WindowPhase {
    Absent,
    Hidden,
    Visible,
}

/// One call the windowing runtime is asked to make on an auxiliary window.
#[derive(PartialEq, Eq, Structural, Clone, Copy, Debug)]
pub enum WindowAction {
    /// Build the window with its kind's fixed attributes.
    Create,
    /// Best-effort script in the page that clears its "closing" flag.
    ResetClosingFlag,
    Show,
    Focus,
    ExitFullscreen,
    Hide,
}

/// The observed state of one named auxiliary window.
#[derive(PartialEq, Eq, Structural, Clone, Copy, Debug)]
pub struct AuxWindow {
    pub phase: WindowPhase,
    pub fullscreen: bool,
}

/// How many live instances a window in `phase` has.
pub open spec fn instance_count(phase: WindowPhase) -> nat {
    if phase == WindowPhase::Absent {
        0
    } else {
        1
    }
}

/// The calls that opening the window makes: an existing window has its
/// closing flag cleared and is shown and focused; a missing one is created,
/// then shown and focused.
pub open spec fn open_actions(w: AuxWindow) -> Seq<WindowAction> {
    if w.phase == WindowPhase::Absent {
        seq![WindowAction::Create, WindowAction::Show, WindowAction::Focus]
    } else {
        seq![WindowAction::ResetClosingFlag, WindowAction::Show, WindowAction::Focus]
    }
}

/// The calls that closing the window makes: nothing when it does not exist;
/// otherwise its closing flag is cleared, it leaves full screen if it is in
/// it, and it is then hidden.
pub open spec fn close_actions(w: AuxWindow) -> Seq<WindowAction> {
    if w.phase == WindowPhase::Absent {
        seq![]
    } else if w.fullscreen {
        seq![WindowAction::ResetClosingFlag, WindowAction::ExitFullscreen, WindowAction::Hide]
    } else {
        seq![WindowAction::ResetClosingFlag, WindowAction::Hide]
    }
}

/// The fixed attributes an auxiliary window is built with. Its size is not
/// among them: the time-up window takes the logical size of the primary
/// display.
#[derive(PartialEq, Eq, Clone, Copy, Debug)]
pub struct WindowConfig {
    pub label: &'static str,
    pub page: &'static str,
    pub title: &'static str,
    pub resizable: bool,
    pub decorations: bool,
    pub always_on_top: bool,
    pub visible: bool,
}

/// The time-up alert: borderless, not resizable, above other windows and
/// visible as soon as it is built.
pub fn timeup_window_config() -> (r: WindowConfig)
    ensures
        r.label@ == "timeup"@,
        r.page@ == "timeup.html"@,
        r.title@ == "Time Up!!"@,
        !r.resizable,
        !r.decorations,
        r.always_on_top,
        r.visible,
{
    WindowConfig {
        label: "timeup",
        page: "timeup.html",
        title: "Time Up!!",
        resizable: false,
        decorations: false,
        always_on_top: true,
        visible: true,
    }
}

/// The window after it is opened: visible, full screen as before.
pub open spec fn opened(w: AuxWindow) -> AuxWindow {
    AuxWindow { phase: WindowPhase::Visible, fullscreen: w.fullscreen }
}

/// The window after it is closed: hidden and out of full screen, or still
/// absent.
pub open spec fn closed(w: AuxWindow) -> AuxWindow {
    if w.phase == WindowPhase::Absent {
        w
    } else {
        AuxWindow { phase: WindowPhase::Hidden, fullscreen: false }
    }
}

impl AuxWindow {
    /// A window that has not been created yet.
    pub fn absent() -> (r: AuxWindow)
        ensures
            r.phase == WindowPhase::Absent,
            !r.fullscreen,
    {
        AuxWindow { phase: WindowPhase::Absent, fullscreen: false }
    }

    /// Opens the window: returns the calls to make, in order, and records
    /// that the window is now visible. An existing instance is reused.
    pub fn open(&mut self) -> (r: Vec<WindowAction>)
        ensures
            r@ == open_actions(*old(self)),
            *final(self) == opened(*old(self)),
    {
        let first = match self.phase {
            WindowPhase::Absent => WindowAction::Create,
            _ => WindowAction::ResetClosingFlag,
        };
        self.phase = WindowPhase::Visible;
        let r = vec![first, WindowAction::Show, WindowAction::Focus];
        assert(r@ =~= open_actions(*old(self)));
        r
    }

    /// Closes the window by hiding it: returns the calls to make, in order.
    /// A window that does not exist is left alone.
    pub fn close(&mut self) -> (r: Vec<WindowAction>)
        ensures
            r@ == close_actions(*old(self)),
            *final(self) == closed(*old(self)),
    {
        let mut r: Vec<WindowAction> = Vec::new();
        if self.phase != WindowPhase::Absent {
            r.push(WindowAction::ResetClosingFlag);
            if self.fullscreen {
                r.push(WindowAction::ExitFullscreen);
            }
            r.push(WindowAction::Hide);
            self.phase = WindowPhase::Hidden;
            self.fullscreen = false;
        }
        assert(r@ =~= close_actions(*old(self)));
        r
    }
}

/// Opening an auxiliary window that already exists reuses it: no second
/// instance is built, it is shown and focused, and there is still exactly
/// one instance afterwards. A missing window is built exactly once.
pub proof fn lemma_open_keeps_one_instance(w: AuxWindow)
    ensures
        w.phase != WindowPhase::Absent ==> !open_actions(w).contains(WindowAction::Create),
        w.phase == WindowPhase::Absent ==> open_actions(w).filter(
            |a: WindowAction| a == WindowAction::Create,
        ).len() == 1,
        open_actions(w).contains(WindowAction::Show),
        open_actions(w).contains(WindowAction::Focus),
        instance_count(opened(w).phase) == 1,
{
    let a = open_actions(w);
    assert(a[1] == WindowAction::Show && a[2] == WindowAction::Focus);
    if w.phase != WindowPhase::Absent {
        assert(forall|i: int| 0 <= i < a.len() ==> a[i] != WindowAction::Create);
    } else {
        reveal_with_fuel(Seq::filter, 4);
        assert(a.filter(|x: WindowAction| x == WindowAction::Create) =~= seq![
            WindowAction::Create,
        ]) by {
            assert(a =~= seq![WindowAction::Create, WindowAction::Show].push(WindowAction::Focus));
        }
    }
}

/// Closing a window that is in full screen leaves full screen before the
/// hide: every `Hide` is preceded by an `ExitFullscreen`.
pub proof fn lemma_fullscreen_left_before_hide(w: AuxWindow)
    requires
        w.phase != WindowPhase::Absent,
        w.fullscreen,
    ensures
        close_actions(w).contains(WindowAction::Hide),
        forall|i: int|
            0 <= i < close_actions(w).len() && close_actions(w)[i] == WindowAction::Hide ==> exists|
                j: int,
            |
                0 <= j < i && close_actions(w)[j] == WindowAction::ExitFullscreen,
{
    let a = close_actions(w);
    assert(a[0] == WindowAction::ResetClosingFlag);
    assert(a[2] == WindowAction::Hide);
    assert(a[1] == WindowAction::ExitFullscreen);
}

} // verus!
