use vstd::prelude::*;

verus! {

/// Number of faces of the cube map, and of panorama images.
pub const FACE_COUNT: u8 = 6;

/// Which `panorama_<n>.png` image is drawn on cube-map face `texture_number`
/// (faces in OpenGL order: +x, -x, +y, -y, +z, -z).
pub open spec fn spec_file_number(texture_number: int) -> Option<int> {
    if texture_number == 0 {
        Some(3)
    } else if texture_number == 1 {
        Some(1)
    } else if texture_number == 2 {
        Some(4)
    } else if texture_number == 3 {
        Some(5)
    } else if texture_number == 4 {
        Some(0)
    } else if texture_number == 5 {
        Some(2)
    } else {
        None
    }
}

/// Maps a cube-map face to the panorama image that covers it,
/// e.g. face 0 (the right face, +x) shows `panorama_3.png`.
pub fn map_texture_number_to_file_number(texture_number: u8) -> (file_number: Option<i32>)
    ensures
        file_number matches Some(n) ==> spec_file_number(texture_number as int) == Some(n as int),
        file_number is None <==> spec_file_number(texture_number as int) is None,
{
    match texture_number {
        0 => Some(3),  // right  +x
        1 => Some(1),  // left   -x
        2 => Some(4),  // top    +y
        3 => Some(5),  // bottom -y
        4 => Some(0),  // back   +z
        5 => Some(2),  // front  -z
        _ => None,
    }
}

/// Panorama image `n` is drawn on at least one cube-map face.
pub open spec fn shown_on_some_face(n: int) -> bool {
    exists|t: int| 0 <= t < FACE_COUNT && #[trigger] spec_file_number(t) == Some(n)
}

/// Every cube-map face shows exactly one panorama image, no image is shown
/// twice, and every one of the six images is shown on some face.
pub proof fn lemma_face_mapping_is_bijective()
    ensures
        forall|t: int| #![trigger spec_file_number(t)]
            (0 <= t < FACE_COUNT <==> spec_file_number(t) is Some),
        forall|t: int| #![trigger spec_file_number(t)]
            0 <= t < FACE_COUNT ==> 0 <= spec_file_number(t)->0 < FACE_COUNT,
        forall|t1: int, t2: int|
            #![trigger spec_file_number(t1), spec_file_number(t2)]
            0 <= t1 < FACE_COUNT && 0 <= t2 < FACE_COUNT && t1 != t2
                ==> spec_file_number(t1) != spec_file_number(t2),
        forall|n: int| 0 <= n < FACE_COUNT ==> #[trigger] shown_on_some_face(n),
{
    assert forall|n: int| 0 <= n < FACE_COUNT implies #[trigger] shown_on_some_face(n) by {
        if n == 0 {
            assert(spec_file_number(4) == Some(0int));
        } else if n == 1 {
            assert(spec_file_number(1) == Some(1int));
        } else if n == 2 {
            assert(spec_file_number(5) == Some(2int));
        } else if n == 3 {
            assert(spec_file_number(0) == Some(3int));
        } else if n == 4 {
            assert(spec_file_number(2) == Some(4int));
        } else {
            assert(spec_file_number(3) == Some(5int));
        }
    }
}


/// Which image each face shows: the right face (+x) shows `panorama_3`, the left
/// (-x) `panorama_1`, the top (+y) `panorama_4`, the bottom (-y) `panorama_5`,
/// the back (+z) `panorama_0` and the front (-z) `panorama_2`; there is no
/// seventh face.
pub proof fn lemma_face_images()
    ensures
        spec_file_number(0) == Some(3int),
        spec_file_number(1) == Some(1int),
        spec_file_number(2) == Some(4int),
        spec_file_number(3) == Some(5int),
        spec_file_number(4) == Some(0int),
        spec_file_number(5) == Some(2int),
        forall|t: int| !(0 <= t < FACE_COUNT) ==> #[trigger] spec_file_number(t) is None,
{
}

} // verus!
