//! The road-placement interaction: a left click picks a start point, a
//! translucent preview road follows the cursor, a second left click commits
//! the road and a right click cancels it.
//!
//! Points (`P`) and preview handles (`E`) are whatever the application uses;
//! this module decides what happens to them.

use vstd::prelude::*;

verus! {

/// Placement interaction state.
#[derive(Clone, Copy, Debug, PartialEq, Eq)]
pub enum Placement<P, E> {
    /// Nothing is being placed.
    Neutral,
    /// A start point is chosen; the preview follows the cursor until confirmed.
    Placing { start: P, preview: E },
}

/// What one frame of input asks the application to do.
#[derive(Clone, Copy, Debug, PartialEq, Eq)]
pub enum PlacementStep<P, E> {
    /// Nothing.
    Stay,
    /// Pick a start point (snapped onto an existing road), spawn a preview
    /// from it to the cursor, and enter [`Placement::begin`].
    Begin,
    /// Stretch the preview from `start` to the cursor.
    Track { start: P, preview: E },
    /// Stretch the preview, commit a road from `start` to the cursor, and
    /// remove the preview.
    Commit { start: P, preview: E },
    /// Stretch the preview, then remove it without adding a road.
    Cancel { preview: E },
}

impl<P, E> Default for Placement<P, E> {
    fn default() -> (p: Self)
        ensures
            p is Neutral,
    {
        Placement::Neutral
    }
}

/// The step for the given clicks (`left` and `right`: the buttons were just
/// pressed this frame). The left button wins when both were pressed.
pub open spec fn placement_step<P, E>(
    state: Placement<P, E>,
    left: bool,
    right: bool,
) -> PlacementStep<P, E> {
    match state {
        Placement::Neutral => if left {
            PlacementStep::Begin
        } else {
            PlacementStep::Stay
        },
        Placement::Placing { start, preview } => if left {
            PlacementStep::Commit { start, preview }
        } else if right {
            PlacementStep::Cancel { preview }
        } else {
            PlacementStep::Track { start, preview }
        },
    }
}

/// The state after a step other than `Begin` (which the application completes
/// with [`Placement::begin`] once the preview exists): committing or
/// cancelling returns to neutral, anything else keeps the state.
pub open spec fn placement_after<P, E>(
    state: Placement<P, E>,
    step: PlacementStep<P, E>,
) -> Placement<P, E> {
    match step {
        PlacementStep::Commit { .. } => Placement::Neutral,
        PlacementStep::Cancel { .. } => Placement::Neutral,
        _ => state,
    }
}

/// The preview a state holds.
pub open spec fn held_preview<P, E>(state: Placement<P, E>) -> Option<E> {
    match state {
        Placement::Neutral => None,
        Placement::Placing { preview, .. } => Some(preview),
    }
}

/// The preview a step touches.
pub open spec fn touched_preview<P, E>(step: PlacementStep<P, E>) -> Option<E> {
    match step {
        PlacementStep::Track { preview, .. } => Some(preview),
        PlacementStep::Commit { preview, .. } => Some(preview),
        PlacementStep::Cancel { preview } => Some(preview),
        _ => None,
    }
}

impl<P: Copy, E: Copy> Placement<P, E> {
    /// Decides what this frame's clicks do.
    pub fn step(&self, left: bool, right: bool) -> (s: PlacementStep<P, E>)
        ensures
            s == placement_step(*self, left, right),
    {
        match *self {
            Placement::Neutral => if left {
                PlacementStep::Begin
            } else {
                PlacementStep::Stay
            },
            Placement::Placing { start, preview } => if left {
                PlacementStep::Commit { start, preview }
            } else if right {
                PlacementStep::Cancel { preview }
            } else {
                PlacementStep::Track { start, preview }
            },
        }
    }

    /// The state after `step` (see [`placement_after`]).
    pub fn after(self, step: &PlacementStep<P, E>) -> (next: Self)
        ensures
            next == placement_after(self, *step),
    {
        match step {
            PlacementStep::Commit { .. } => Placement::Neutral,
            PlacementStep::Cancel { .. } => Placement::Neutral,
            _ => self,
        }
    }

    /// The state once a preview from `start` has been spawned.
    pub fn begin(start: P, preview: E) -> (next: Self)
        ensures
            next == (Placement::Placing { start, preview }),
    {
        Placement::Placing { start, preview }
    }
}

/// In the neutral state only a left click does something: it begins a road.
pub proof fn law_neutral_waits_for_left_click<P, E>(left: bool, right: bool)
    ensures
        placement_step(Placement::<P, E>::Neutral, left, right) == (if left {
            PlacementStep::<P, E>::Begin
        } else {
            PlacementStep::<P, E>::Stay
        }),
        !left ==> placement_after(
            Placement::<P, E>::Neutral,
            placement_step(Placement::<P, E>::Neutral, left, right),
        ) == Placement::<P, E>::Neutral,
{
}

/// While placing, any click ends the placement: a left click commits the road
/// from the chosen start, otherwise a right click cancels; either way the
/// preview is removed and the state returns to neutral. Without a click the
/// preview keeps following the cursor from the same start.
pub proof fn law_click_ends_placement<P, E>(start: P, preview: E, left: bool, right: bool)
    ensures
        ({
            let state = Placement::Placing { start, preview };
            let s = placement_step(state, left, right);
            &&& left ==> s == PlacementStep::Commit { start, preview }
            &&& !left && right ==> s == PlacementStep::<P, E>::Cancel { preview }
            &&& (left || right) ==> placement_after(state, s) == Placement::<P, E>::Neutral
            &&& !left && !right ==> s == PlacementStep::Track { start, preview }
                && placement_after(state, s) == state
        }),
{
}

/// A step only ever touches the preview that the state holds, and a state
/// that holds none touches none.
pub proof fn law_only_the_held_preview_is_touched<P, E>(
    state: Placement<P, E>,
    left: bool,
    right: bool,
)
    ensures
        touched_preview(placement_step(state, left, right)) == held_preview(state),
{
}

/// A preview is held exactly while placing: beginning holds the new preview,
/// and after a step the state holds its preview unless the step committed or
/// cancelled it.
pub proof fn law_preview_held_until_removed<P, E>(
    state: Placement<P, E>,
    left: bool,
    right: bool,
    start: P,
    preview: E,
)
    ensures
        held_preview(Placement::Placing { start, preview }) == Some(preview),
        ({
            let s = placement_step(state, left, right);
            held_preview(placement_after(state, s)) == (if s is Commit || s is Cancel {
                None
            } else {
                held_preview(state)
            })
        }),
{
}

} // verus!
