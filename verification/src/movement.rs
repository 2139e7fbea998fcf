use vstd::prelude::*;

verus! {

/// A direction the camera can be moved in, relative to where it looks.
#[derive(Debug, Clone, Copy, PartialEq, Eq, Structural)]
pub enum MoveDirection {
    Forward,
    Backward,
    Left,
    Right,
    Up,
    Down,
}

/// One of the camera's basis vectors.
#[derive(Debug, Clone, Copy, PartialEq, Eq, Structural)]
pub enum CameraAxis {
    Forward,
    Right,
    Up,
}

impl MoveDirection {
    /// The basis vector a move follows, and whether it follows it (+1) or goes against it (-1).
    pub open spec fn spec_axis(self) -> (CameraAxis, i8) {
        match self {
            MoveDirection::Forward => (CameraAxis::Forward, 1i8),
            MoveDirection::Backward => (CameraAxis::Forward, -1i8),
            MoveDirection::Left => (CameraAxis::Right, -1i8),
            MoveDirection::Right => (CameraAxis::Right, 1i8),
            MoveDirection::Up => (CameraAxis::Up, 1i8),
            MoveDirection::Down => (CameraAxis::Up, -1i8),
        }
    }

    /// The basis vector a move follows, and the sign it is scaled by: forward and
    /// backward go along the camera's forward vector, left and right along its
    /// right vector, up and down along its up vector.
    pub fn axis(self) -> (r: (CameraAxis, i8))
        ensures
            r == self.spec_axis(),
    {
        match self {
            MoveDirection::Forward => (CameraAxis::Forward, 1),
            MoveDirection::Backward => (CameraAxis::Forward, -1),
            MoveDirection::Left => (CameraAxis::Right, -1),
            MoveDirection::Right => (CameraAxis::Right, 1),
            MoveDirection::Up => (CameraAxis::Up, 1),
            MoveDirection::Down => (CameraAxis::Up, -1),
        }
    }
}

/// Opposite moves follow the same basis vector in opposite senses.
pub proof fn lemma_opposite_moves_cancel()
    ensures
        MoveDirection::Forward.spec_axis().0 == MoveDirection::Backward.spec_axis().0,
        MoveDirection::Forward.spec_axis().1 == -MoveDirection::Backward.spec_axis().1,
        MoveDirection::Left.spec_axis().0 == MoveDirection::Right.spec_axis().0,
        MoveDirection::Left.spec_axis().1 == -MoveDirection::Right.spec_axis().1,
        MoveDirection::Up.spec_axis().0 == MoveDirection::Down.spec_axis().0,
        MoveDirection::Up.spec_axis().1 == -MoveDirection::Down.spec_axis().1,
{
}


/// Forward, right and up follow the camera's forward, right and up vectors;
/// backward, left and down go against them.
pub proof fn lemma_move_axes()
    ensures
        MoveDirection::Forward.spec_axis() == (CameraAxis::Forward, 1i8),
        MoveDirection::Backward.spec_axis() == (CameraAxis::Forward, -1i8),
        MoveDirection::Right.spec_axis() == (CameraAxis::Right, 1i8),
        MoveDirection::Left.spec_axis() == (CameraAxis::Right, -1i8),
        MoveDirection::Up.spec_axis() == (CameraAxis::Up, 1i8),
        MoveDirection::Down.spec_axis() == (CameraAxis::Up, -1i8),
{
}

} // verus!
