use vstd::prelude::*;

use crate::image::{
    decode_png_rgb8, encode_png_rgb8, fits_at, in_image, in_rect, png_rgb8_decoding,
    png_rgb8_encoding, RgbImage,
};

verus! {

/// A face of the sky box, named by where it sits around the viewer.
#[derive(Debug, Clone, Copy, PartialEq, Eq, Structural)]
pub enum SkyboxFace {
    Left,
    Front,
    Right,
    Back,
    Top,
    Bottom,
}

/// The six face images of a sky box.
pub struct SkyboxFaces {
    pub right: RgbImage,
    pub left: RgbImage,
    pub top: RgbImage,
    pub bottom: RgbImage,
    pub back: RgbImage,
    pub front: RgbImage,
}

impl SkyboxFaces {
    /// All six faces are well-formed images.
    pub open spec fn wf(&self) -> bool {
        &&& self.right.wf()
        &&& self.left.wf()
        &&& self.top.wf()
        &&& self.bottom.wf()
        &&& self.back.wf()
        &&& self.front.wf()
    }

    /// The image of a face.
    pub open spec fn face(&self, face: SkyboxFace) -> RgbImage {
        match face {
            SkyboxFace::Left => self.left,
            SkyboxFace::Front => self.front,
            SkyboxFace::Right => self.right,
            SkyboxFace::Back => self.back,
            SkyboxFace::Top => self.top,
            SkyboxFace::Bottom => self.bottom,
        }
    }

    /// Width of a cell of the cross: the width of the front face.
    pub open spec fn cell_width(&self) -> int {
        self.front.width as int
    }

    /// Height of a cell of the cross: the height of the front face.
    pub open spec fn cell_height(&self) -> int {
        self.front.height as int
    }

    /// Top-left corner of the cell a face is copied to: the middle row holds
    /// back, left, front and right; top and bottom sit above and below the back.
    pub open spec fn origin(&self, face: SkyboxFace) -> (int, int) {
        let w = self.cell_width();
        let h = self.cell_height();
        match face {
            SkyboxFace::Left => (w, h),
            SkyboxFace::Front => (2 * w, h),
            SkyboxFace::Right => (3 * w, h),
            SkyboxFace::Back => (0, h),
            SkyboxFace::Top => (0, 0),
            SkyboxFace::Bottom => (0, 2 * h),
        }
    }

    /// The face fits inside the `4 * w` x `3 * h` cross at its cell's corner.
    pub open spec fn fits(&self, face: SkyboxFace) -> bool {
        fits_at(
            4 * self.cell_width(),
            3 * self.cell_height(),
            self.face(face).width as int,
            self.face(face).height as int,
            self.origin(face).0,
            self.origin(face).1,
        )
    }

    /// Pixel `(px, py)` of the cross is covered by the face.
    pub open spec fn covers(&self, face: SkyboxFace, px: int, py: int) -> bool {
        in_rect(
            self.origin(face).0,
            self.origin(face).1,
            self.face(face).width as int,
            self.face(face).height as int,
            px,
            py,
        )
    }

    /// Sample `c` of the face at pixel `(px, py)` of the cross.
    pub open spec fn face_sample(&self, face: SkyboxFace, px: int, py: int, c: int) -> u8 {
        self.face(face).sample(px - self.origin(face).0, py - self.origin(face).1, c)
    }

    /// Sample `c` of pixel `(px, py)` of the stitched cross. The faces are copied
    /// in the order left, front, right, back, top, bottom, so where faces
    /// overlap the one copied last shows; pixels no face covers stay black.
    pub open spec fn cross_sample(&self, px: int, py: int, c: int) -> u8 {
        if self.covers(SkyboxFace::Bottom, px, py) {
            self.face_sample(SkyboxFace::Bottom, px, py, c)
        } else if self.covers(SkyboxFace::Top, px, py) {
            self.face_sample(SkyboxFace::Top, px, py, c)
        } else if self.covers(SkyboxFace::Back, px, py) {
            self.face_sample(SkyboxFace::Back, px, py, c)
        } else if self.covers(SkyboxFace::Right, px, py) {
            self.face_sample(SkyboxFace::Right, px, py, c)
        } else if self.covers(SkyboxFace::Front, px, py) {
            self.face_sample(SkyboxFace::Front, px, py, c)
        } else if self.covers(SkyboxFace::Left, px, py) {
            self.face_sample(SkyboxFace::Left, px, py, c)
        } else {
            0
        }
    }

    /// The first face, in copy order, that does not fit in its cell.
    pub open spec fn first_misfit(&self) -> Option<SkyboxFace> {
        if !self.fits(SkyboxFace::Left) {
            Some(SkyboxFace::Left)
        } else if !self.fits(SkyboxFace::Front) {
            Some(SkyboxFace::Front)
        } else if !self.fits(SkyboxFace::Right) {
            Some(SkyboxFace::Right)
        } else if !self.fits(SkyboxFace::Back) {
            Some(SkyboxFace::Back)
        } else if !self.fits(SkyboxFace::Top) {
            Some(SkyboxFace::Top)
        } else if !self.fits(SkyboxFace::Bottom) {
            Some(SkyboxFace::Bottom)
        } else {
            None
        }
    }

    /// Every face has the size of the front face.
    pub open spec fn same_size(&self) -> bool {
        &&& self.left.width == self.front.width && self.left.height == self.front.height
        &&& self.right.width == self.front.width && self.right.height == self.front.height
        &&& self.back.width == self.front.width && self.back.height == self.front.height
        &&& self.top.width == self.front.width && self.top.height == self.front.height
        &&& self.bottom.width == self.front.width && self.bottom.height == self.front.height
    }

    /// The cross is small enough to be allocated and addressed.
    pub open spec fn cross_size_ok(&self) -> bool {
        &&& 4 * self.cell_width() <= u32::MAX
        &&& 3 * self.cell_height() <= u32::MAX
        &&& (4 * self.cell_width()) * (3 * self.cell_height()) * 3 <= usize::MAX
    }
}

/// Copies one face into the cross at `(x, y)`, naming the face if it does not fit.
fn place_face(cross: &mut RgbImage, face_image: &RgbImage, x: u32, y: u32, face: SkyboxFace) -> (r: Result<(), SkyboxFace>)
    requires
        old(cross).wf(),
        face_image.wf(),
    ensures
        r is Ok <==> fits_at(
            old(cross).width as int,
            old(cross).height as int,
            face_image.width as int,
            face_image.height as int,
            x as int,
            y as int,
        ),
        r matches Err(f) ==> f == face,
        final(cross).width == old(cross).width,
        final(cross).height == old(cross).height,
        final(cross).wf(),
        r is Ok ==> forall|px: int, py: int, c: int|
            in_image(old(cross).width as int, old(cross).height as int, px, py, c)
                ==> #[trigger] final(cross).sample(px, py, c) == if in_rect(
                x as int,
                y as int,
                face_image.width as int,
                face_image.height as int,
                px,
                py,
            ) {
                face_image.sample(px - x, py - y, c)
            } else {
                old(cross).sample(px, py, c)
            },
{
    match cross.copy_from(face_image, x, y) {
        Ok(()) => Ok(()),
        Err(_) => Err(face),
    }
}

/// Lays the six faces out as a cross in a `4 * w` x `3 * h` image, `w` x `h`
/// being the size of the front face; names the first face, in copy order, that
/// does not fit in its cell.
pub fn stitch_skybox(faces: &SkyboxFaces) -> (r: Result<RgbImage, SkyboxFace>)
    requires
        faces.wf(),
        faces.cross_size_ok(),
    ensures
        match r {
            Ok(cross) => {
                &&& faces.first_misfit() is None
                &&& cross.width == 4 * faces.cell_width()
                &&& cross.height == 3 * faces.cell_height()
                &&& cross.wf()
                &&& forall|px: int, py: int, c: int|
                    in_image(cross.width as int, cross.height as int, px, py, c) ==> #[trigger] cross.sample(
                        px,
                        py,
                        c,
                    ) == faces.cross_sample(px, py, c)
            },
            Err(face) => faces.first_misfit() == Some(face),
        },
        faces.same_size() ==> r is Ok,
        faces.same_size() ==> (r matches Ok(cross) ==> {
            let w = faces.front.width as int;
            let h = faces.front.height as int;
            &&& forall|i: int, j: int, c: int|
                in_image(w, h, i, j, c) ==> cross.sample(w + i, h + j, c) == #[trigger] faces.left.sample(i, j, c)
            &&& forall|i: int, j: int, c: int|
                in_image(w, h, i, j, c) ==> cross.sample(2 * w + i, h + j, c) == #[trigger] faces.front.sample(
                    i,
                    j,
                    c,
                )
            &&& forall|i: int, j: int, c: int|
                in_image(w, h, i, j, c) ==> cross.sample(3 * w + i, h + j, c) == #[trigger] faces.right.sample(
                    i,
                    j,
                    c,
                )
            &&& forall|i: int, j: int, c: int|
                in_image(w, h, i, j, c) ==> cross.sample(i, h + j, c) == #[trigger] faces.back.sample(i, j, c)
            &&& forall|i: int, j: int, c: int|
                in_image(w, h, i, j, c) ==> cross.sample(i, j, c) == #[trigger] faces.top.sample(i, j, c)
            &&& forall|i: int, j: int, c: int|
                in_image(w, h, i, j, c) ==> cross.sample(i, 2 * h + j, c) == #[trigger] faces.bottom.sample(
                    i,
                    j,
                    c,
                )
            &&& forall|px: int, py: int, c: int|
                in_image(4 * w, 3 * h, px, py, c) && w <= px && (py < h || 2 * h <= py) ==> #[trigger] cross.sample(
                    px,
                    py,
                    c,
                ) == 0
        }),
{
    proof {
        if faces.same_size() {
            lemma_cross_cells(*faces);
        }
    }
    let w = faces.front.width;
    let h = faces.front.height;
    let mut cross = RgbImage::new(4 * w, 3 * h);
    let ghost c0 = cross;
    place_face(&mut cross, &faces.left, w, h, SkyboxFace::Left)?;
    let ghost c1 = cross;
    place_face(&mut cross, &faces.front, 2 * w, h, SkyboxFace::Front)?;
    let ghost c2 = cross;
    place_face(&mut cross, &faces.right, 3 * w, h, SkyboxFace::Right)?;
    let ghost c3 = cross;
    place_face(&mut cross, &faces.back, 0, h, SkyboxFace::Back)?;
    let ghost c4 = cross;
    place_face(&mut cross, &faces.top, 0, 0, SkyboxFace::Top)?;
    let ghost c5 = cross;
    place_face(&mut cross, &faces.bottom, 0, 2 * h, SkyboxFace::Bottom)?;
    proof {
        assert forall|px: int, py: int, c: int|
            in_image(cross.width as int, cross.height as int, px, py, c) implies #[trigger] cross.sample(px, py, c)
                == faces.cross_sample(px, py, c) by {
            crate::image::lemma_sample_index_bounds(cross.width as int, cross.height as int, px, py, c);
            // each step's postcondition, instantiated at this sample, chains back to the black start
            let _ = (c1.sample(px, py, c), c2.sample(px, py, c), c3.sample(px, py, c), c4.sample(px, py, c), c5.sample(px, py, c));
            assert(c0.sample(px, py, c) == 0);
        }
        if faces.same_size() {
            let wi = w as int;
            let hi = h as int;
            assert forall|i: int, j: int, c: int| in_image(wi, hi, i, j, c) implies {
                &&& cross.sample(wi + i, hi + j, c) == faces.left.sample(i, j, c)
                &&& cross.sample(2 * wi + i, hi + j, c) == faces.front.sample(i, j, c)
                &&& cross.sample(3 * wi + i, hi + j, c) == faces.right.sample(i, j, c)
                &&& cross.sample(i, hi + j, c) == faces.back.sample(i, j, c)
                &&& cross.sample(i, j, c) == faces.top.sample(i, j, c)
                &&& cross.sample(i, 2 * hi + j, c) == faces.bottom.sample(i, j, c)
            } by {
                let _ = (
                    faces.left.sample(i, j, c),
                    faces.front.sample(i, j, c),
                    faces.right.sample(i, j, c),
                    faces.back.sample(i, j, c),
                    faces.top.sample(i, j, c),
                    faces.bottom.sample(i, j, c),
                );
                assert(in_image(4 * wi, 3 * hi, wi + i, hi + j, c));
                assert(in_image(4 * wi, 3 * hi, 2 * wi + i, hi + j, c));
                assert(in_image(4 * wi, 3 * hi, 3 * wi + i, hi + j, c));
                assert(in_image(4 * wi, 3 * hi, i, hi + j, c));
                assert(in_image(4 * wi, 3 * hi, i, j, c));
                assert(in_image(4 * wi, 3 * hi, i, 2 * hi + j, c));
                let _ = (
                    cross.sample(wi + i, hi + j, c),
                    cross.sample(2 * wi + i, hi + j, c),
                    cross.sample(3 * wi + i, hi + j, c),
                    cross.sample(i, hi + j, c),
                    cross.sample(i, j, c),
                    cross.sample(i, 2 * hi + j, c),
                );
            }
        }
    }
    Ok(cross)
}


/// The cross layout: when every face has the size of the front face, every face
/// fits, each cell of the cross shows its face unchanged, and the cells right
/// of the top and bottom faces stay black.
pub proof fn lemma_cross_layout(faces: SkyboxFaces)
    requires
        forall|face: SkyboxFace|
            #![trigger faces.face(face)]
            faces.face(face).width == faces.front.width && faces.face(face).height == faces.front.height,
    ensures
        faces.first_misfit() is None,
        forall|face: SkyboxFace, i: int, j: int, c: int|
            in_image(faces.cell_width(), faces.cell_height(), i, j, c) ==> #[trigger] faces.cross_sample(
                faces.origin(face).0 + i,
                faces.origin(face).1 + j,
                c,
            ) == faces.face(face).sample(i, j, c),
        forall|px: int, py: int, c: int|
            faces.cell_width() <= px && (py < faces.cell_height() || 2 * faces.cell_height() <= py)
                ==> #[trigger] faces.cross_sample(px, py, c) == 0,
{
    assert(faces.face(SkyboxFace::Left).width == faces.front.width);
    assert(faces.face(SkyboxFace::Right).width == faces.front.width);
    assert(faces.face(SkyboxFace::Back).width == faces.front.width);
    assert(faces.face(SkyboxFace::Top).width == faces.front.width);
    assert(faces.face(SkyboxFace::Bottom).width == faces.front.width);
    assert forall|face: SkyboxFace, i: int, j: int, c: int|
        in_image(faces.cell_width(), faces.cell_height(), i, j, c) implies #[trigger] faces.cross_sample(
            faces.origin(face).0 + i,
            faces.origin(face).1 + j,
            c,
        ) == faces.face(face).sample(i, j, c) by {
        assert(faces.face(face).width == faces.front.width);
    }
}

/// The cross, cell by cell: with every face `w` x `h`, the left face shows at
/// `(w, h)`, the front at `(2w, h)`, the right at `(3w, h)`, the back at `(0, h)`,
/// the top at `(0, 0)` and the bottom at `(0, 2h)`, each unchanged; the rest of
/// the top and bottom rows is black.
pub proof fn lemma_cross_cells(faces: SkyboxFaces)
    requires
        faces.same_size(),
    ensures
        faces.first_misfit() is None,
        forall|i: int, j: int, c: int|
            in_image(faces.front.width as int, faces.front.height as int, i, j, c) ==> faces.cross_sample(
                faces.front.width + i,
                faces.front.height + j,
                c,
            ) == #[trigger] faces.left.sample(i, j, c),
        forall|i: int, j: int, c: int|
            in_image(faces.front.width as int, faces.front.height as int, i, j, c) ==> faces.cross_sample(
                2 * faces.front.width + i,
                faces.front.height + j,
                c,
            ) == #[trigger] faces.front.sample(i, j, c),
        forall|i: int, j: int, c: int|
            in_image(faces.front.width as int, faces.front.height as int, i, j, c) ==> faces.cross_sample(
                3 * faces.front.width + i,
                faces.front.height + j,
                c,
            ) == #[trigger] faces.right.sample(i, j, c),
        forall|i: int, j: int, c: int|
            in_image(faces.front.width as int, faces.front.height as int, i, j, c) ==> faces.cross_sample(
                i,
                faces.front.height + j,
                c,
            ) == #[trigger] faces.back.sample(i, j, c),
        forall|i: int, j: int, c: int|
            in_image(faces.front.width as int, faces.front.height as int, i, j, c) ==> faces.cross_sample(i, j, c)
                == #[trigger] faces.top.sample(i, j, c),
        forall|i: int, j: int, c: int|
            in_image(faces.front.width as int, faces.front.height as int, i, j, c) ==> faces.cross_sample(
                i,
                2 * faces.front.height + j,
                c,
            ) == #[trigger] faces.bottom.sample(i, j, c),
        forall|px: int, py: int, c: int|
            faces.front.width <= px && (py < faces.front.height || 2 * faces.front.height <= py)
                ==> #[trigger] faces.cross_sample(px, py, c) == 0,
{
}

/// Faces are copied left, front, right, back, top, bottom, each at its cell's
/// corner `(w, h)`, `(2w, h)`, `(3w, h)`, `(0, h)`, `(0, 0)`, `(0, 2h)` of the
/// `4w` x `3h` cross (`w` x `h` the front face's size): stitching fails on the
/// first face that does not fit there, and where faces overlap the later one shows.
pub proof fn lemma_copy_order(faces: SkyboxFaces)
    ensures
        ({
            let w = faces.front.width as int;
            let h = faces.front.height as int;
            let fit_left = fits_at(4 * w, 3 * h, faces.left.width as int, faces.left.height as int, w, h);
            let fit_front = fits_at(4 * w, 3 * h, faces.front.width as int, faces.front.height as int, 2 * w, h);
            let fit_right = fits_at(4 * w, 3 * h, faces.right.width as int, faces.right.height as int, 3 * w, h);
            let fit_back = fits_at(4 * w, 3 * h, faces.back.width as int, faces.back.height as int, 0, h);
            let fit_top = fits_at(4 * w, 3 * h, faces.top.width as int, faces.top.height as int, 0, 0);
            let fit_bottom = fits_at(4 * w, 3 * h, faces.bottom.width as int, faces.bottom.height as int, 0, 2 * h);
            &&& (faces.first_misfit() == Some(SkyboxFace::Left) <==> !fit_left)
            &&& (faces.first_misfit() == Some(SkyboxFace::Front) <==> fit_left && !fit_front)
            &&& (faces.first_misfit() == Some(SkyboxFace::Right) <==> fit_left && fit_front && !fit_right)
            &&& (faces.first_misfit() == Some(SkyboxFace::Back) <==> fit_left && fit_front && fit_right && !fit_back)
            &&& (faces.first_misfit() == Some(SkyboxFace::Top) <==> fit_left && fit_front && fit_right && fit_back
                && !fit_top)
            &&& (faces.first_misfit() == Some(SkyboxFace::Bottom) <==> fit_left && fit_front && fit_right
                && fit_back && fit_top && !fit_bottom)
            &&& (faces.first_misfit() is None <==> fit_left && fit_front && fit_right && fit_back && fit_top
                && fit_bottom)
        }),
        forall|px: int, py: int, c: int|
            0 <= px < faces.bottom.width && 2 * faces.front.height <= py < 2 * faces.front.height + faces.bottom.height
                ==> #[trigger] faces.cross_sample(px, py, c) == faces.bottom.sample(px, py - 2 * faces.front.height, c),
        forall|px: int, py: int, c: int|
            0 <= px < faces.top.width && 0 <= py < faces.top.height && !(0 <= px < faces.bottom.width && 2
                * faces.front.height <= py < 2 * faces.front.height + faces.bottom.height) ==> #[trigger] faces.cross_sample(
                px,
                py,
                c,
            ) == faces.top.sample(px, py, c),
{
}

/// Decodes a face image from the bytes of a PNG file, as 8-bit RGB.
pub fn load_rgb8(png: &[u8]) -> (r: Result<RgbImage, String>)
    ensures
        match r {
            Ok(img) => img.wf() && png_rgb8_decoding(png@) == Ok::<(u32, u32, Seq<u8>), Seq<char>>(
                (img.width, img.height, img.data@),
            ),
            Err(e) => png_rgb8_decoding(png@) == Err::<(u32, u32, Seq<u8>), Seq<char>>(e@),
        },
{
    decode_png_rgb8(png)
}

/// Why a sky box could not be written.
#[derive(Debug)]
pub enum StitchError {
    /// The face does not fit in its cell of the cross.
    Copy(SkyboxFace),
    /// The PNG encoder failed, with this message.
    Encode(String),
}

/// Stitches the six faces into the cross and encodes it as a PNG file.
pub fn stitch_skybox_png(faces: &SkyboxFaces) -> (r: Result<Vec<u8>, StitchError>)
    requires
        faces.wf(),
        faces.cross_size_ok(),
    ensures
        faces.first_misfit() matches Some(face) ==> r matches Err(StitchError::Copy(f)) && f == face,
        faces.first_misfit() is None ==> exists|cross: RgbImage|
            {
                &&& cross.width == 4 * faces.cell_width()
                &&& cross.height == 3 * faces.cell_height()
                &&& cross.wf()
                &&& (forall|px: int, py: int, c: int|
                    in_image(cross.width as int, cross.height as int, px, py, c) ==> #[trigger] cross.sample(
                        px,
                        py,
                        c,
                    ) == faces.cross_sample(px, py, c))
                &&& match r {
                    Ok(bytes) => png_rgb8_encoding(cross.width, cross.height, cross.data@) == Ok::<
                        Seq<u8>,
                        Seq<char>,
                    >(bytes@),
                    Err(StitchError::Encode(e)) => png_rgb8_encoding(cross.width, cross.height, cross.data@)
                        == Err::<Seq<u8>, Seq<char>>(e@),
                    Err(StitchError::Copy(_)) => false,
                }
            },
{
    match stitch_skybox(faces) {
        Err(face) => Err(StitchError::Copy(face)),
        Ok(cross) => match encode_png_rgb8(&cross) {
            Ok(bytes) => Ok(bytes),
            Err(e) => Err(StitchError::Encode(e)),
        },
    }
}

} // verus!
