use panorama::cubemap::{black_face, cubemap_face, MISSING_FACE_SIZE};
use panorama::image::{flip_horizontal, DimensionMismatch, RgbImage};
use panorama::skybox::{load_rgb8, stitch_skybox, stitch_skybox_png, SkyboxFace, SkyboxFaces, StitchError};

fn solid(width: u32, height: u32, rgb: [u8; 3]) -> RgbImage {
    let mut data = Vec::new();
    for _ in 0..width * height {
        data.extend_from_slice(&rgb);
    }
    RgbImage { width, height, data }
}

fn pixel(img: &RgbImage, x: u32, y: u32) -> [u8; 3] {
    let i = ((y * img.width + x) * 3) as usize;
    [img.data[i], img.data[i + 1], img.data[i + 2]]
}

fn faces(size: u32) -> SkyboxFaces {
    SkyboxFaces {
        right: solid(size, size, [1, 1, 1]),
        left: solid(size, size, [2, 2, 2]),
        top: solid(size, size, [3, 3, 3]),
        bottom: solid(size, size, [4, 4, 4]),
        back: solid(size, size, [5, 5, 5]),
        front: solid(size, size, [6, 6, 6]),
    }
}

#[test]
fn flip_mirrors_each_row() {
    let img = RgbImage {
        width: 3,
        height: 2,
        data: vec![1, 2, 3, 4, 5, 6, 7, 8, 9, 10, 11, 12, 13, 14, 15, 16, 17, 18],
    };
    let out = flip_horizontal(&img);
    assert_eq!((out.width, out.height), (3, 2));
    assert_eq!(out.data, vec![7, 8, 9, 4, 5, 6, 1, 2, 3, 16, 17, 18, 13, 14, 15, 10, 11, 12]);
    assert_eq!(flip_horizontal(&out).data, img.data);
}

#[test]
fn flip_of_an_empty_image_is_empty() {
    let out = flip_horizontal(&RgbImage { width: 0, height: 4, data: vec![] });
    assert_eq!((out.width, out.height, out.data.len()), (0, 4, 0));
}

#[test]
fn new_image_is_black() {
    let img = RgbImage::new(4, 2);
    assert_eq!((img.width, img.height), (4, 2));
    assert_eq!(img.data, vec![0; 24]);
}

#[test]
fn copy_places_the_source_at_the_offset() {
    let mut dst = RgbImage::new(3, 3);
    let src = solid(2, 1, [9, 8, 7]);
    assert_eq!(dst.copy_from(&src, 1, 2), Ok(()));
    for y in 0..3 {
        for x in 0..3 {
            let expected = if y == 2 && x >= 1 { [9, 8, 7] } else { [0, 0, 0] };
            assert_eq!(pixel(&dst, x, y), expected);
        }
    }
}

#[test]
fn copy_out_of_bounds_changes_nothing() {
    let mut dst = solid(3, 3, [1, 2, 3]);
    let before = dst.data.clone();
    assert_eq!(dst.copy_from(&solid(2, 2, [0, 0, 0]), 2, 0), Err(DimensionMismatch));
    assert_eq!(dst.copy_from(&solid(4, 1, [0, 0, 0]), 0, 0), Err(DimensionMismatch));
    assert_eq!(dst.copy_from(&solid(1, 1, [0, 0, 0]), 0, 3), Err(DimensionMismatch));
    assert_eq!(dst.data, before);
    assert_eq!(dst.copy_from(&solid(1, 1, [7, 7, 7]), 2, 2), Ok(()));
    assert_eq!(pixel(&dst, 2, 2), [7, 7, 7]);
}

#[test]
fn stitched_cross_layout() {
    let cross = stitch_skybox(&faces(2)).unwrap();
    assert_eq!((cross.width, cross.height), (8, 6));
    let cell = |col: u32, row: u32| pixel(&cross, col * 2 + 1, row * 2 + 1);
    assert_eq!(cell(0, 1), [5, 5, 5]); // back
    assert_eq!(cell(1, 1), [2, 2, 2]); // left
    assert_eq!(cell(2, 1), [6, 6, 6]); // front
    assert_eq!(cell(3, 1), [1, 1, 1]); // right
    assert_eq!(cell(0, 0), [3, 3, 3]); // top
    assert_eq!(cell(0, 2), [4, 4, 4]); // bottom
    for col in 1..4 {
        assert_eq!(cell(col, 0), [0, 0, 0]);
        assert_eq!(cell(col, 2), [0, 0, 0]);
    }
}

#[test]
fn stitching_names_the_first_face_that_does_not_fit() {
    let mut f = faces(2);
    f.right = solid(3, 2, [1, 1, 1]);
    f.top = solid(2, 3, [3, 3, 3]);
    assert_eq!(stitch_skybox(&f).err(), Some(SkyboxFace::Right));
    let mut f = faces(2);
    f.bottom = solid(2, 3, [4, 4, 4]);
    assert_eq!(stitch_skybox(&f).err(), Some(SkyboxFace::Bottom));
}

#[test]
fn stitched_png_decodes_to_the_cross() {
    let f = faces(1);
    let png = stitch_skybox_png(&f).unwrap();
    let decoded = load_rgb8(&png).unwrap();
    let cross = stitch_skybox(&f).unwrap();
    assert_eq!((decoded.width, decoded.height), (4, 3));
    assert_eq!(decoded.data, cross.data);
    let mut bad = faces(1);
    bad.left = solid(4, 1, [2, 2, 2]);
    assert!(matches!(stitch_skybox_png(&bad), Err(StitchError::Copy(SkyboxFace::Left))));
}

#[test]
fn load_rgb8_rejects_non_png() {
    assert!(load_rgb8(b"GIF89a").is_err());
}

#[test]
fn failed_face_becomes_black_square() {
    let face = cubemap_face(Err("gone".to_string()));
    assert_eq!((face.width, face.height), (MISSING_FACE_SIZE, MISSING_FACE_SIZE));
    assert_eq!(face.data.len(), 1024 * 1024 * 3);
    assert!(face.data.iter().all(|b| *b == 0));
    assert_eq!(black_face().data.len(), 1024 * 1024 * 3);
}

#[test]
fn loaded_face_is_mirrored() {
    let img = RgbImage { width: 2, height: 1, data: vec![1, 2, 3, 4, 5, 6] };
    let face = cubemap_face(Ok(img));
    assert_eq!(face.data, vec![4, 5, 6, 1, 2, 3]);
}
