use vstd::prelude::*;
use crate::input::{grabs, ButtonEvent};

verus! {

/// One thing done to the ball during a frame.
#[derive(Clone, Copy, Debug, PartialEq, Eq, Structural)]
pub enum BallStep {
    /// Move the ball to the point of the world under the cursor.
    SnapToCursor,
    /// Shift the ball by the frame's motion event with this index.
    Drag(usize),
}

/// One `SnapToCursor` for each grabbing event, in the order of the events.
pub open spec fn grab_steps(buttons: Seq<ButtonEvent>) -> Seq<BallStep>
    decreases buttons.len(),
{
    if buttons.len() == 0 {
        Seq::empty()
    } else {
        let rest = grab_steps(buttons.drop_last());
        if grabs(buttons.last()) {
            rest.push(BallStep::SnapToCursor)
        } else {
            rest
        }
    }
}

/// One `Drag` for each motion event, by increasing index.
pub open spec fn drag_steps(motions: nat) -> Seq<BallStep> {
    Seq::new(motions, |i: int| BallStep::Drag(i as usize))
}

/// What is done to the ball in a frame that reads the given events: first
/// the button events, then the motion events.
pub open spec fn steps_of(buttons: Seq<ButtonEvent>, motions: nat) -> Seq<BallStep> {
    grab_steps(buttons) + drag_steps(motions)
}

/// Whether a frame takes its mouse events at all. It does only while the
/// cursor is inside the window and some ball exists; otherwise the events
/// are left queued.
pub fn reads_input(cursor_in_window: bool, balls: usize) -> (r: bool)
    ensures
        r == (cursor_in_window && balls > 0),
{
    cursor_in_window && balls > 0
}

/// The steps applied to the first ball in a frame that reads `buttons` and
/// `motions` motion events. The events are used up by that ball, so any other
/// ball is left where it is.
pub fn ball_steps(buttons: &Vec<ButtonEvent>, motions: usize) -> (r: Vec<BallStep>)
    ensures
        r@ == steps_of(buttons@, motions as nat),
{
    let mut r: Vec<BallStep> = Vec::new();
    let mut i: usize = 0;
    while i < buttons.len()
        invariant
            i <= buttons.len(),
            r@ == grab_steps(buttons@.subrange(0, i as int)),
        decreases buttons.len() - i,
    {
        assert(buttons@.subrange(0, i + 1).drop_last() =~= buttons@.subrange(0, i as int));
        if buttons[i].is_grab() {
            r.push(BallStep::SnapToCursor);
        }
        i = i + 1;
    }
    assert(buttons@.subrange(0, buttons.len() as int) =~= buttons@);
    let ghost snaps = r@;
    let mut j: usize = 0;
    while j < motions
        invariant
            j <= motions,
            r@ == snaps + drag_steps(j as nat),
        decreases motions - j,
    {
        r.push(BallStep::Drag(j));
        j = j + 1;
        assert(r@ =~= snaps + drag_steps(j as nat));
    }
    r
}

} // verus!
