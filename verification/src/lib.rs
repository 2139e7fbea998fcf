//! Panorama viewer library: the cube-face bookkeeping, resource-pack lookup,
//! image preparation, sky-box stitching, recording set-up and input handling
//! of a viewer for Minecraft title-screen panoramas.

use vstd::prelude::*;

pub mod cubemap;
pub mod faces;
pub mod image;
pub mod input;
pub mod movement;
pub mod pack;
pub mod recording;
pub mod skybox;

verus! {

/// Unwrapping of a value that is known to have succeeded.
pub trait ExpectErr<T>: Sized {
    /// The value holds a success.
    spec fn succeeded(&self) -> bool;

    /// The success it holds.
    spec fn success(&self) -> T;

    /// The success held; callers show first that there is one.
    fn expect_else_err(self) -> (t: T)
        requires
            self.succeeded(),
        ensures
            t == self.success(),
    ;
}

impl<T, E> ExpectErr<T> for Result<T, E> {
    open spec fn succeeded(&self) -> bool {
        *self is Ok
    }

    open spec fn success(&self) -> T {
        self->Ok_0
    }

    fn expect_else_err(self) -> (t: T) {
        match self {
            Ok(ok) => ok,
            Err(_) => vstd::pervasive::unreached(),
        }
    }
}

} // verus!
