//! Which capability a cursor movement uses.
use vstd::prelude::*;

verus! {

/// A direction of cursor movement.
#[derive(Clone, Copy, Debug, PartialEq, Eq, Structural)]
pub enum Direction {
    Up,
    Down,
    Left,
    Right,
}

/// How a movement by some number of cells is emitted.
#[derive(Clone, Copy, Debug, PartialEq, Eq, Structural)]
pub enum CursorStep {
    /// Nothing is written.
    Stay,
    /// The single-step capability of the direction is written.
    Single,
    /// The parameterized capability of the direction is expanded with the count.
    Param(i32),
}

/// The step for moving `n` cells in a direction. Moving down never uses the
/// single-step capability: terminfo defines it as a newline that may scroll.
pub open spec fn move_step(dir: Direction, n: usize) -> CursorStep {
    if n == 0 {
        CursorStep::Stay
    } else if n == 1 && dir != Direction::Down {
        CursorStep::Single
    } else {
        CursorStep::Param(n as i32)
    }
}

/// Chooses how to move the cursor `n` cells in direction `dir`.
pub fn plan_move(dir: Direction, n: usize) -> (r: CursorStep)
    ensures
        r == move_step(dir, n),
        n == 0 ==> r == CursorStep::Stay,
        dir == Direction::Down && n >= 1 ==> r == CursorStep::Param(n as i32),
{
    if n == 0 {
        CursorStep::Stay
    } else if n == 1 && dir != Direction::Down {
        CursorStep::Single
    } else {
        CursorStep::Param(n as i32)
    }
}

/// A zero-cell move writes nothing, in every direction.
pub proof fn lemma_zero_move_is_silent(dir: Direction)
    ensures
        move_step(dir, 0) == CursorStep::Stay,
{
}

/// Moving down by one or more cells always expands the parameterized
/// capability, one cell included.
pub proof fn lemma_down_is_parameterized(n: usize)
    requires
        n >= 1,
    ensures
        move_step(Direction::Down, n) == CursorStep::Param(n as i32),
{
}

} // verus!
