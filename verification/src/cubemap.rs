use vstd::prelude::*;

use crate::image::{flip_horizontal, in_image, RgbImage};

verus! {

/// Side of the black square uploaded for a face whose image could not be loaded.
pub const MISSING_FACE_SIZE: u32 = 1024;

/// The black square uploaded for a face whose image could not be loaded.
pub fn black_face() -> (face: RgbImage)
    ensures
        face.width == MISSING_FACE_SIZE,
        face.height == MISSING_FACE_SIZE,
        face.wf(),
        forall|x: int, y: int, c: int|
            in_image(MISSING_FACE_SIZE as int, MISSING_FACE_SIZE as int, x, y, c) ==> #[trigger] face.sample(x, y, c)
                == 0,
{
    let face = RgbImage::new(MISSING_FACE_SIZE, MISSING_FACE_SIZE);
    proof {
        assert forall|x: int, y: int, c: int|
            in_image(MISSING_FACE_SIZE as int, MISSING_FACE_SIZE as int, x, y, c) implies #[trigger] face.sample(
                x,
                y,
                c,
            ) == 0 by {
            crate::image::lemma_sample_index_bounds(MISSING_FACE_SIZE as int, MISSING_FACE_SIZE as int, x, y, c);
        }
    }
    face
}

/// The picture uploaded for one cube-map face: the loaded image mirrored left to
/// right (the cube is seen from inside), or a black square when loading failed.
pub fn cubemap_face(loaded: Result<RgbImage, String>) -> (face: RgbImage)
    requires
        loaded matches Ok(img) ==> img.wf(),
    ensures
        face.wf(),
        match loaded {
            Ok(img) => {
                &&& face.width == img.width
                &&& face.height == img.height
                &&& forall|x: int, y: int, c: int|
                    in_image(img.width as int, img.height as int, x, y, c) ==> #[trigger] face.sample(x, y, c)
                        == img.sample(img.width - 1 - x, y, c)
            },
            Err(_) => {
                &&& face.width == 1024 && face.height == 1024
                &&& face.width == MISSING_FACE_SIZE
                &&& face.height == MISSING_FACE_SIZE
                &&& forall|x: int, y: int, c: int|
                    in_image(MISSING_FACE_SIZE as int, MISSING_FACE_SIZE as int, x, y, c) ==> #[trigger] face.sample(
                        x,
                        y,
                        c,
                    ) == 0
            },
        },
{
    match loaded {
        Ok(img) => flip_horizontal(&img),
        Err(_) => black_face(),
    }
}

} // verus!
