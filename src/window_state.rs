use vstd::prelude::*;

verus! {

/// Position and size of the main window as last recorded. Each field is
/// independently optional: an absent field means "not recorded", never zero.
#[derive(PartialEq, Eq, Structural, Clone, Copy, Debug)]
pub struct WindowState {
    pub x: Option<i32>,
    pub y: Option<i32>,
    pub width: Option<u32>,
    pub height: Option<u32>,
}

impl Default for WindowState {
    /// A state with nothing recorded.
    fn default() -> (r: WindowState)
        ensures
            r.x is None,
            r.y is None,
            r.width is None,
            r.height is None,
    {
        WindowState { x: None, y: None, width: None, height: None }
    }
}

/// Whether the main window's size is persisted and restored along with its
/// position, or left to the window's own fixed configuration.
#[derive(PartialEq, Eq, Structural, Clone, Copy, Debug)]
pub enum SizePolicy {
    Fixed,
    Persisted,
}

/// Both halves of a pair, or nothing when either half is missing.
pub open spec fn both<A, B>(a: Option<A>, b: Option<B>) -> Option<(A, B)> {
    match (a, b) {
        (Some(u), Some(v)) => Some((u, v)),
        _ => None,
    }
}

impl WindowState {
    /// The recorded position, present only when `x` and `y` both are.
    pub fn position(&self) -> (r: Option<(i32, i32)>)
        ensures
            r == both(self.x, self.y),
    {
        match (self.x, self.y) {
            (Some(x), Some(y)) => Some((x, y)),
            _ => None,
        }
    }

    /// The recorded size, present only when `width` and `height` both are.
    pub fn size(&self) -> (r: Option<(u32, u32)>)
        ensures
            r == both(self.width, self.height),
    {
        match (self.width, self.height) {
            (Some(w), Some(h)) => Some((w, h)),
            _ => None,
        }
    }

    /// The state to persist for a window whose outer position (and outer
    /// size) could or could not be read. Under `SizePolicy::Fixed` the size
    /// is never recorded.
    pub fn from_geometry(
        position: Option<(i32, i32)>,
        size: Option<(u32, u32)>,
        policy: SizePolicy,
    ) -> (r: WindowState)
        ensures
            r.x == (match position { Some(p) => Some(p.0), None => None::<i32> }),
            r.y == (match position { Some(p) => Some(p.1), None => None::<i32> }),
            policy == SizePolicy::Fixed ==> r.width is None && r.height is None,
            policy == SizePolicy::Persisted ==> r.width == (match size {
                Some(d) => Some(d.0),
                None => None::<u32>,
            }) && r.height == (match size { Some(d) => Some(d.1), None => None::<u32> }),
    {
        let (x, y) = match position {
            Some((px, py)) => (Some(px), Some(py)),
            None => (None, None),
        };
        let (width, height) = match (policy, size) {
            (SizePolicy::Persisted, Some((w, h))) => (Some(w), Some(h)),
            _ => (None, None),
        };
        WindowState { x, y, width, height }
    }
}

/// What restoring a saved state does to the main window: move it, resize
/// it, both or neither.
#[derive(PartialEq, Eq, Clone, Copy, Debug)]
pub struct RestorePlan {
    pub position: Option<(i32, i32)>,
    pub size: Option<(u32, u32)>,
}

impl RestorePlan {
    /// The plan that leaves the window as it is.
    pub fn unchanged() -> (r: RestorePlan)
        ensures
            r.position is None,
            r.size is None,
    {
        RestorePlan { position: None, size: None }
    }
}

/// The plan for a saved state: position as a pair, size as a pair and only
/// under `SizePolicy::Persisted`.
pub open spec fn restore_plan_spec(state: WindowState, policy: SizePolicy) -> RestorePlan {
    RestorePlan {
        position: both(state.x, state.y),
        size: if policy == SizePolicy::Persisted {
            both(state.width, state.height)
        } else {
            None
        },
    }
}

/// Decides what a saved state reapplies to the window. Position is applied
/// only when both `x` and `y` were recorded; size only when both `width` and
/// `height` were and the policy tracks size.
pub fn restore_plan(state: &WindowState, policy: SizePolicy) -> (r: RestorePlan)
    ensures
        r == restore_plan_spec(*state, policy),
{
    let size = match policy {
        SizePolicy::Persisted => state.size(),
        SizePolicy::Fixed => None,
    };
    RestorePlan { position: state.position(), size }
}

/// A saved state that records `x` but not `y` (or `y` but not `x`) never
/// moves the window, whatever the size policy.
pub proof fn lemma_half_position_not_applied(state: WindowState, policy: SizePolicy)
    requires
        state.x is None || state.y is None,
    ensures
        restore_plan_spec(state, policy).position is None,
{
}

} // verus!
