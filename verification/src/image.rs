use vstd::prelude::*;

verus! {

/// An 8-bit RGB image stored row by row, three samples per pixel.
pub struct RgbImage {
    pub width: u32,
    pub height: u32,
    pub data: Vec<u8>,
}

/// Position of sample `c` (0 = red, 1 = green, 2 = blue) of pixel `(x, y)` in the
/// row-major sample buffer of an image that is `width` pixels wide.
pub open spec fn sample_index(width: int, x: int, y: int, c: int) -> int {
    (y * width + x) * 3 + c
}

/// `(x, y, c)` addresses a sample of a `width` x `height` image.
pub open spec fn in_image(width: int, height: int, x: int, y: int, c: int) -> bool {
    0 <= x < width && 0 <= y < height && 0 <= c < 3
}

impl RgbImage {
    /// The buffer holds exactly three samples for every pixel.
    pub open spec fn wf(&self) -> bool {
        self.data@.len() == self.width * self.height * 3
    }

    /// Sample `c` of pixel `(x, y)`.
    pub open spec fn sample(&self, x: int, y: int, c: int) -> u8 {
        self.data@[sample_index(self.width as int, x, y, c)]
    }
}

/// Samples are laid out in row-major order: a sample that comes earlier in
/// (row, column, channel) order sits at a smaller position.
pub proof fn lemma_sample_index_order(w: int, x1: int, y1: int, c1: int, x2: int, y2: int, c2: int)
    requires
        0 <= x1 < w,
        0 <= x2 < w,
        0 <= c1 < 3,
        0 <= c2 < 3,
        0 <= y1,
        0 <= y2,
        y1 < y2 || (y1 == y2 && x1 < x2) || (y1 == y2 && x1 == x2 && c1 < c2),
    ensures
        sample_index(w, x1, y1, c1) < sample_index(w, x2, y2, c2),
{
    if y1 < y2 {
        assert(y1 * w + x1 < y2 * w) by (nonlinear_arith)
            requires
                y1 < y2,
                0 <= x1 < w,
        {
            assert((y1 + 1) * w <= y2 * w);
        }
    }
}

/// Different samples of an image sit at different positions of its buffer.
pub proof fn lemma_sample_index_injective(w: int, x1: int, y1: int, c1: int, x2: int, y2: int, c2: int)
    requires
        0 <= x1 < w,
        0 <= x2 < w,
        0 <= c1 < 3,
        0 <= c2 < 3,
        0 <= y1,
        0 <= y2,
        sample_index(w, x1, y1, c1) == sample_index(w, x2, y2, c2),
    ensures
        x1 == x2 && y1 == y2 && c1 == c2,
{
    if y1 < y2 || (y1 == y2 && x1 < x2) || (y1 == y2 && x1 == x2 && c1 < c2) {
        lemma_sample_index_order(w, x1, y1, c1, x2, y2, c2);
    } else if y2 < y1 || (y1 == y2 && x2 < x1) || (y1 == y2 && x1 == x2 && c2 < c1) {
        lemma_sample_index_order(w, x2, y2, c2, x1, y1, c1);
    }
}

/// Every sample of a `w` x `h` image lies inside a buffer of `w * h * 3` samples.
pub proof fn lemma_sample_index_bounds(w: int, h: int, x: int, y: int, c: int)
    requires
        in_image(w, h, x, y, c),
    ensures
        0 <= sample_index(w, x, y, c) < w * h * 3,
{
    assert(0 <= y * w) by (nonlinear_arith)
        requires
            0 <= y,
            0 <= x < w,
    ;
    assert(y * w + x < h * w) by (nonlinear_arith)
        requires
            0 <= y < h,
            0 <= x < w,
    {
        assert((y + 1) * w <= h * w);
    }
    assert(w * h * 3 == h * w * 3) by (nonlinear_arith);
}


/// Mirrors an image left to right, as `image::DynamicImage::fliph` does: pixel
/// `(x, y)` of the result is pixel `(width - 1 - x, y)` of the input.
pub fn flip_horizontal(img: &RgbImage) -> (out: RgbImage)
    requires
        img.wf(),
    ensures
        out.width == img.width,
        out.height == img.height,
        out.wf(),
        forall|x: int, y: int, c: int|
            in_image(img.width as int, img.height as int, x, y, c) ==> #[trigger] out.sample(x, y, c)
                == img.sample(img.width - 1 - x, y, c),
{
    let w = img.width;
    let h = img.height;
    let ghost wi = w as int;
    let n = img.data.len();
    let mut out: Vec<u8> = Vec::new();
    let mut y: u32 = 0;
    while y < h
        invariant
            img.wf(),
            n == img.data@.len(),
            w == img.width,
            h == img.height,
            wi == w as int,
            y <= h,
            out@.len() == y * wi * 3,
            forall|xx: int, yy: int, cc: int|
                0 <= xx < wi && 0 <= yy < y && 0 <= cc < 3 ==> #[trigger] out@[sample_index(wi, xx, yy, cc)]
                    == img.data@[sample_index(wi, wi - 1 - xx, yy, cc)],
        decreases h - y,
    {
        let mut x: u32 = 0;
        while x < w
            invariant
                img.wf(),
                n == img.data@.len(),
                w == img.width,
                h == img.height,
                wi == w as int,
                y < h,
                x <= w,
                out@.len() == sample_index(wi, x as int, y as int, 0),
                forall|xx: int, yy: int, cc: int|
                    0 <= xx < wi && 0 <= cc < 3 && (0 <= yy < y || (yy == y && xx < x))
                        ==> #[trigger] out@[sample_index(wi, xx, yy, cc)]
                        == img.data@[sample_index(wi, wi - 1 - xx, yy, cc)],
            decreases w - x,
        {
            proof {
                lemma_sample_index_bounds(wi, h as int, wi - 1 - x, y as int, 2);
                assert(y * wi <= sample_index(wi, wi - 1 - x, y as int, 0)) by (nonlinear_arith)
                    requires
                        0 <= x < wi,
                ;
            }
            let src = ((y as usize) * (w as usize) + (w - 1 - x) as usize) * 3;
            let ghost before = out@;
            out.push(img.data[src]);
            out.push(img.data[src + 1]);
            out.push(img.data[src + 2]);
            proof {
                assert forall|xx: int, yy: int, cc: int|
                    0 <= xx < wi && 0 <= cc < 3 && (0 <= yy < y || (yy == y && xx < x + 1))
                        implies #[trigger] out@[sample_index(wi, xx, yy, cc)]
                        == img.data@[sample_index(wi, wi - 1 - xx, yy, cc)] by {
                    if yy == y && xx == x {
                        assert(sample_index(wi, xx, yy, cc) == before.len() + cc);
                    } else {
                        lemma_sample_index_order(wi, xx, yy, cc, x as int, y as int, 0);
                    }
                }
                assert(out@.len() == sample_index(wi, x + 1, y as int, 0));
            }
            x = x + 1;
        }
        proof {
            assert(sample_index(wi, wi, y as int, 0) == (y + 1) * wi * 3) by (nonlinear_arith);
        }
        y = y + 1;
    }
    proof {
        assert forall|x: int, yy: int, c: int|
            in_image(wi, h as int, x, yy, c) implies #[trigger] out@[sample_index(wi, x, yy, c)]
                == img.data@[sample_index(wi, wi - 1 - x, yy, c)] by {}
        assert(h * wi * 3 == wi * h * 3) by (nonlinear_arith);
    }
    RgbImage { width: w, height: h, data: out }
}


/// `copy_from` refuses a copy whose source would not lie inside the destination.
#[derive(Debug, Clone, Copy, PartialEq, Eq, Structural)]
pub struct DimensionMismatch;

/// A `src_width` x `src_height` image placed with its top-left corner at
/// `(x, y)` lies inside a `dst_width` x `dst_height` image.
pub open spec fn fits_at(dst_width: int, dst_height: int, src_width: int, src_height: int, x: int, y: int) -> bool {
    x + src_width <= dst_width && y + src_height <= dst_height
}

/// Pixel `(px, py)` lies in the `width` x `height` rectangle whose top-left corner is `(x, y)`.
pub open spec fn in_rect(x: int, y: int, width: int, height: int, px: int, py: int) -> bool {
    x <= px < x + width && y <= py < y + height
}

impl RgbImage {
    /// An all-black image, as `image::ImageBuffer::new` makes one.
    pub fn new(width: u32, height: u32) -> (img: RgbImage)
        requires
            width * height * 3 <= usize::MAX,
        ensures
            img.width == width,
            img.height == height,
            img.wf(),
            forall|i: int| 0 <= i < img.data@.len() ==> #[trigger] img.data@[i] == 0,
    {
        let n = (width as usize) * (height as usize) * 3;
        let mut data: Vec<u8> = Vec::new();
        let mut i: usize = 0;
        while i < n
            invariant
                i <= n,
                data@.len() == i,
                forall|k: int| 0 <= k < i ==> #[trigger] data@[k] == 0,
            decreases n - i,
        {
            data.push(0);
            i = i + 1;
        }
        RgbImage { width, height, data }
    }

    /// Copies all of `other` into this image with its top-left corner at `(x, y)`,
    /// as `image::GenericImage::copy_from` does; refuses, changing nothing, when
    /// `other` would not fit.
    pub fn copy_from(&mut self, other: &RgbImage, x: u32, y: u32) -> (r: Result<(), DimensionMismatch>)
        requires
            old(self).wf(),
            other.wf(),
        ensures
            r is Ok <==> fits_at(
                old(self).width as int,
                old(self).height as int,
                other.width as int,
                other.height as int,
                x as int,
                y as int,
            ),
            r is Ok <==> (x + other.width <= old(self).width && y + other.height <= old(self).height),
            r is Err ==> *final(self) == *old(self),
            final(self).width == old(self).width,
            final(self).height == old(self).height,
            final(self).wf(),
            r is Ok ==> forall|px: int, py: int, c: int|
                in_image(old(self).width as int, old(self).height as int, px, py, c)
                    ==> #[trigger] final(self).sample(px, py, c) == if in_rect(
                    x as int,
                    y as int,
                    other.width as int,
                    other.height as int,
                    px,
                    py,
                ) {
                    other.sample(px - x, py - y, c)
                } else {
                    old(self).sample(px, py, c)
                },
    {
        let dw = self.width;
        let dh = self.height;
        let sw = other.width;
        let sh = other.height;
        if !(sw <= dw && x <= dw - sw && sh <= dh && y <= dh - sh) {
            return Err(DimensionMismatch);
        }
        let ghost dwi = dw as int;
        let ghost swi = sw as int;
        let ghost before = self.data@;
        let dn = self.data.len();
        let sn = other.data.len();
        let mut k: u32 = 0;
        while k < sh
            invariant
                self.width == dw,
                self.height == dh,
                other.wf(),
                other.width == sw,
                other.height == sh,
                dwi == dw as int,
                swi == sw as int,
                before.len() == dw * dh * 3,
                dn == before.len(),
                sn == other.data@.len(),
                x + sw <= dw,
                y + sh <= dh,
                k <= sh,
                self.data@.len() == before.len(),
                forall|px: int, py: int, c: int|
                    in_image(dwi, dh as int, px, py, c) ==> #[trigger] self.data@[sample_index(dwi, px, py, c)]
                        == if in_rect(x as int, y as int, swi, k as int, px, py) {
                        other.data@[sample_index(swi, px - x, py - y, c)]
                    } else {
                        before[sample_index(dwi, px, py, c)]
                    },
            decreases sh - k,
        {
            let mut i: u32 = 0;
            while i < sw
                invariant
                    self.width == dw,
                    self.height == dh,
                    other.wf(),
                    other.width == sw,
                    other.height == sh,
                    dwi == dw as int,
                    swi == sw as int,
                    before.len() == dw * dh * 3,
                    dn == before.len(),
                    sn == other.data@.len(),
                    x + sw <= dw,
                    y + sh <= dh,
                    k < sh,
                    i <= sw,
                    self.data@.len() == before.len(),
                    forall|px: int, py: int, c: int|
                        in_image(dwi, dh as int, px, py, c) ==> #[trigger] self.data@[sample_index(dwi, px, py, c)]
                            == if in_rect(x as int, y as int, swi, k as int, px, py) || (py == y + k && x <= px
                            < x + i) {
                            other.data@[sample_index(swi, px - x, py - y, c)]
                        } else {
                            before[sample_index(dwi, px, py, c)]
                        },
                decreases sw - i,
            {
                proof {
                    lemma_sample_index_bounds(swi, sh as int, i as int, k as int, 2);
                    lemma_sample_index_bounds(dwi, dh as int, x + i, y + k, 2);
                    assert(k * swi <= sample_index(swi, i as int, k as int, 0)) by (nonlinear_arith)
                        requires
                            0 <= i,
                            0 <= k,
                            0 <= swi,
                    ;
                    assert((y + k) * dwi <= sample_index(dwi, x + i, y + k, 0)) by (nonlinear_arith)
                        requires
                            0 <= x + i,
                            0 <= y + k,
                            0 <= dwi,
                    ;
                }
                let s = ((k as usize) * (sw as usize) + (i as usize)) * 3;
                let d = (((y + k) as usize) * (dw as usize) + ((x + i) as usize)) * 3;
                let ghost mid = self.data@;
                assert(d as int == sample_index(dwi, x + i, y + k, 0));
                assert(s as int == sample_index(swi, i as int, k as int, 0));
                self.data.set(d, other.data[s]);
                self.data.set(d + 1, other.data[s + 1]);
                self.data.set(d + 2, other.data[s + 2]);
                proof {
                    assert forall|px: int, py: int, c: int|
                        in_image(dwi, dh as int, px, py, c) implies #[trigger] self.data@[sample_index(dwi, px, py, c)]
                            == if in_rect(x as int, y as int, swi, k as int, px, py) || (py == y + k && x
                            <= px < x + i + 1) {
                            other.data@[sample_index(swi, px - x, py - y, c)]
                        } else {
                            before[sample_index(dwi, px, py, c)]
                        } by {
                        if py == y + k && px == x + i {
                            assert(sample_index(dwi, px, py, c) == d + c);
                            assert(sample_index(swi, px - x, py - y, c) == s + c);
                        } else {
                            lemma_sample_index_bounds(dwi, dh as int, px, py, c);
                            assert(mid[sample_index(dwi, px, py, c)] == self.data@[sample_index(dwi, px, py, c)]) by {
                                if sample_index(dwi, px, py, c) == d || sample_index(dwi, px, py, c) == d + 1
                                    || sample_index(dwi, px, py, c) == d + 2 {
                                    lemma_sample_index_injective(
                                        dwi,
                                        px,
                                        py,
                                        c,
                                        x + i,
                                        y + k,
                                        sample_index(dwi, px, py, c) - d,
                                    );
                                }
                            }
                        }
                    }
                }
                i = i + 1;
            }
            k = k + 1;
        }
        proof {
            assert forall|px: int, py: int, c: int|
                in_image(dw as int, dh as int, px, py, c) implies #[trigger] self.sample(px, py, c) == if in_rect(
                    x as int,
                    y as int,
                    sw as int,
                    sh as int,
                    px,
                    py,
                ) {
                    other.sample(px - x, py - y, c)
                } else {
                    before[sample_index(dwi, px, py, c)]
                } by {}
        }
        Ok(())
    }
}


/// What the `image` crate makes of the bytes of a PNG file: the width, the height
/// and the 8-bit RGB samples of the picture, or the text of the decoding error.
pub uninterp spec fn png_rgb8_decoding(bytes: Seq<u8>) -> Result<(u32, u32, Seq<u8>), Seq<char>>;

/// What the `image` crate's PNG encoder writes for an 8-bit RGB picture, or the
/// text of the encoding error.
pub uninterp spec fn png_rgb8_encoding(width: u32, height: u32, samples: Seq<u8>) -> Result<Seq<u8>, Seq<char>>;

/// Decodes PNG bytes with `image::ImageReader::decode` (format set to PNG) and
/// converts the picture with `DynamicImage::to_rgb8`.
/// Trusted: the outcome is the one `png_rgb8_decoding` names for these bytes, the
/// error being the `Display` text of the `image::ImageError`; a decoded buffer
/// holds exactly three samples per pixel (the decoder allocates `width * height *
/// 3` bytes for RGB8, and `to_rgb8` keeps or rebuilds a buffer of that size).
#[verifier::external_body]
pub(crate) fn decode_png_rgb8(bytes: &[u8]) -> (r: Result<RgbImage, String>)
    ensures
        match r {
            Ok(img) => img.wf() && png_rgb8_decoding(bytes@) == Ok::<(u32, u32, Seq<u8>), Seq<char>>(
                (img.width, img.height, img.data@),
            ),
            Err(e) => png_rgb8_decoding(bytes@) == Err::<(u32, u32, Seq<u8>), Seq<char>>(e@),
        },
{
    let mut reader = image::ImageReader::new(std::io::Cursor::new(bytes));
    reader.set_format(image::ImageFormat::Png);
    match reader.decode() {
        Ok(picture) => {
            let rgb = picture.to_rgb8();
            let (width, height) = rgb.dimensions();
            Ok(RgbImage { width, height, data: rgb.into_raw() })
        },
        Err(e) => Err(e.to_string()),
    }
}

/// Encodes an 8-bit RGB picture as PNG with `image::write_buffer_with_format`,
/// what `ImageBuffer::write_to` does with `ImageFormat::Png`.
/// Trusted: the outcome is the one `png_rgb8_encoding` names for this picture, the
/// error being the `Display` text of the `image::ImageError`. The requirement
/// rules out the encoder's panic on a buffer of the wrong length.
#[verifier::external_body]
pub(crate) fn encode_png_rgb8(img: &RgbImage) -> (r: Result<Vec<u8>, String>)
    requires
        img.wf(),
    ensures
        match r {
            Ok(bytes) => png_rgb8_encoding(img.width, img.height, img.data@) == Ok::<Seq<u8>, Seq<char>>(bytes@),
            Err(e) => png_rgb8_encoding(img.width, img.height, img.data@) == Err::<Seq<u8>, Seq<char>>(e@),
        },
{
    let mut out = std::io::Cursor::new(Vec::new());
    match image::write_buffer_with_format(
        &mut out,
        &img.data,
        img.width,
        img.height,
        image::ExtendedColorType::Rgb8,
        image::ImageFormat::Png,
    ) {
        Ok(()) => Ok(out.into_inner()),
        Err(e) => Err(e.to_string()),
    }
}

} // verus!
