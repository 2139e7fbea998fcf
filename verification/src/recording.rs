use vstd::prelude::*;

use crate::pack::{decimal_digit, digit_text};

verus! {

/// The decimal text of a natural number, without leading zeros.
pub open spec fn spec_decimal(n: nat) -> Seq<char>
    decreases n,
{
    if n < 10 {
        seq![decimal_digit(n as int)]
    } else {
        spec_decimal(n / 10) + seq![decimal_digit((n % 10) as int)]
    }
}

/// The decimal text of `n`, as `n.to_string()` writes it.
pub fn decimal_text(n: u32) -> (s: String)
    ensures
        s@ == spec_decimal(n as nat),
    decreases n,
{
    if n < 10 {
        String::from_str(digit_text(n as i32))
    } else {
        let mut s = decimal_text(n / 10);
        s.append(digit_text((n % 10) as i32));
        s
    }
}

/// The largest even number not above `n` (for `n >= 0`).
pub open spec fn even_floor(n: int) -> int {
    n - n % 2
}

/// The size in pixels of the recorded video frames.
#[derive(Debug, Clone, Copy, PartialEq, Eq, Structural)]
pub struct FrameGeometry {
    pub width: i32,
    pub height: i32,
}

/// The frame size recorded for a window of `width` x `height` pixels: each side
/// truncated to an even number, as the `yuv420p` pixel format needs.
pub fn frame_geometry(width: u32, height: u32) -> (g: FrameGeometry)
    requires
        width <= i32::MAX,
        height <= i32::MAX,
    ensures
        g.width == even_floor(width as int),
        g.height == even_floor(height as int),
        g.width % 2 == 0 && g.height % 2 == 0,
        0 <= g.width <= width && width - g.width < 2,
        0 <= g.height <= height && height - g.height < 2,
{
    FrameGeometry { width: (width as i32) / 2 * 2, height: (height as i32) / 2 * 2 }
}

/// The number of bytes of one RGB frame: three per pixel.
pub fn frame_buffer_len(g: FrameGeometry) -> (len: usize)
    requires
        0 <= g.width,
        0 <= g.height,
        g.width * g.height * 3 <= i32::MAX,
    ensures
        len == g.width * g.height * 3,
{
    proof {
        assert(0 <= g.width * g.height) by (nonlinear_arith)
            requires
                0 <= g.width,
                0 <= g.height,
        ;
    }
    (g.width * g.height * 3) as usize
}

/// The arguments `ffmpeg` is started with to turn raw RGB frames read from its
/// standard input into an H.264 video at `output`, overwriting it; `size` is
/// `<width>x<height>` and `rate` the frame rate, both in decimal.
pub open spec fn spec_ffmpeg_args(size: Seq<char>, rate: Seq<char>, output: Seq<char>) -> Seq<Seq<char>> {
    seq![
        "-y"@,
        "-f"@,
        "rawvideo"@,
        "-pix_fmt"@,
        "rgb24"@,
        "-s"@,
        size,
        "-r"@,
        rate,
        "-i"@,
        "-"@,
        "-c:v"@,
        "libx264"@,
        "-preset"@,
        "slow"@,
        "-crf"@,
        "20"@,
        "-pix_fmt"@,
        "yuv420p"@,
        "-vf"@,
        "vflip"@,
        "-r"@,
        rate,
        output,
    ]
}

/// `<width>x<height>` in decimal.
pub open spec fn spec_frame_size_text(g: FrameGeometry) -> Seq<char> {
    spec_decimal(g.width as nat) + "x"@ + spec_decimal(g.height as nat)
}

/// The arguments `ffmpeg` is started with to record frames of this size at `fps`
/// frames per second into `output`.
pub fn ffmpeg_args(g: FrameGeometry, fps: u32, output: &str) -> (args: Vec<String>)
    requires
        0 <= g.width,
        0 <= g.height,
    ensures
        args@.map_values(|a: String| a@) == spec_ffmpeg_args(
            spec_frame_size_text(g),
            spec_decimal(fps as nat),
            output@,
        ),
        args@.len() == 24,
        args@[5]@ == "-s"@ && args@[6]@ == spec_decimal(g.width as nat) + "x"@ + spec_decimal(g.height as nat),
        args@[7]@ == "-r"@ && args@[8]@ == spec_decimal(fps as nat) && args@[9]@ == "-i"@,
        args@[21]@ == "-r"@ && args@[22]@ == spec_decimal(fps as nat),
        args@[23]@ == output@,
{
    proof {
        lemma_ffmpeg_arg_positions(spec_frame_size_text(g), spec_decimal(fps as nat), output@);
    }
    let mut size = decimal_text(g.width as u32);
    size.append("x");
    let h = decimal_text(g.height as u32);
    size.append(h.as_str());
    let rate = decimal_text(fps);
    let mut args: Vec<String> = Vec::new();
    args.push(String::from_str("-y"));
    args.push(String::from_str("-f"));
    args.push(String::from_str("rawvideo"));
    args.push(String::from_str("-pix_fmt"));
    args.push(String::from_str("rgb24"));
    args.push(String::from_str("-s"));
    args.push(size);
    args.push(String::from_str("-r"));
    args.push(rate.clone());
    args.push(String::from_str("-i"));
    args.push(String::from_str("-"));
    args.push(String::from_str("-c:v"));
    args.push(String::from_str("libx264"));
    args.push(String::from_str("-preset"));
    args.push(String::from_str("slow"));
    args.push(String::from_str("-crf"));
    args.push(String::from_str("20"));
    args.push(String::from_str("-pix_fmt"));
    args.push(String::from_str("yuv420p"));
    args.push(String::from_str("-vf"));
    args.push(String::from_str("vflip"));
    args.push(String::from_str("-r"));
    args.push(rate);
    args.push(String::from_str(output));
    proof {
        assert(args@.map_values(|a: String| a@) =~= spec_ffmpeg_args(
            spec_frame_size_text(g),
            spec_decimal(fps as nat),
            output@,
        ));
        let m = args@.map_values(|a: String| a@);
        assert(m[5] == args@[5]@ && m[6] == args@[6]@ && m[7] == args@[7]@ && m[8] == args@[8]@);
        assert(m[9] == args@[9]@ && m[21] == args@[21]@ && m[22] == args@[22]@ && m[23] == args@[23]@);
    }
    args
}

/// How long the render loop sleeps after each frame to aim at `fps` frames per
/// second, in nanoseconds.
pub fn frame_sleep_nanos(fps: u32) -> (nanos: u32)
    requires
        fps > 0,
    ensures
        nanos == 1_000_000_000int / (fps as int),
{
    1_000_000_000u32 / fps
}


/// The `ffmpeg` command line, argument by argument: raw `rgb24` frames from
/// standard input, H.264 in `yuv420p`, flipped upright, output overwritten.
/// `-s` is followed
/// by the size; the input rate (the `-r` before `-i`) and the output rate (the
/// last `-r`) are both the frame rate asked for; the output file comes last.
pub proof fn lemma_ffmpeg_arg_positions(size: Seq<char>, rate: Seq<char>, output: Seq<char>)
    ensures
        spec_ffmpeg_args(size, rate, output).len() == 24,
        spec_ffmpeg_args(size, rate, output)[0] == "-y"@,
        spec_ffmpeg_args(size, rate, output)[1] == "-f"@,
        spec_ffmpeg_args(size, rate, output)[2] == "rawvideo"@,
        spec_ffmpeg_args(size, rate, output)[3] == "-pix_fmt"@,
        spec_ffmpeg_args(size, rate, output)[4] == "rgb24"@,
        spec_ffmpeg_args(size, rate, output)[5] == "-s"@,
        spec_ffmpeg_args(size, rate, output)[6] == size,
        spec_ffmpeg_args(size, rate, output)[7] == "-r"@,
        spec_ffmpeg_args(size, rate, output)[8] == rate,
        spec_ffmpeg_args(size, rate, output)[9] == "-i"@,
        spec_ffmpeg_args(size, rate, output)[10] == "-"@,
        spec_ffmpeg_args(size, rate, output)[11] == "-c:v"@,
        spec_ffmpeg_args(size, rate, output)[12] == "libx264"@,
        spec_ffmpeg_args(size, rate, output)[13] == "-preset"@,
        spec_ffmpeg_args(size, rate, output)[14] == "slow"@,
        spec_ffmpeg_args(size, rate, output)[15] == "-crf"@,
        spec_ffmpeg_args(size, rate, output)[16] == "20"@,
        spec_ffmpeg_args(size, rate, output)[17] == "-pix_fmt"@,
        spec_ffmpeg_args(size, rate, output)[18] == "yuv420p"@,
        spec_ffmpeg_args(size, rate, output)[19] == "-vf"@,
        spec_ffmpeg_args(size, rate, output)[20] == "vflip"@,
        spec_ffmpeg_args(size, rate, output)[21] == "-r"@,
        spec_ffmpeg_args(size, rate, output)[22] == rate,
        spec_ffmpeg_args(size, rate, output)[23] == output,
{
}

/// The number a text of decimal digits stands for.
pub open spec fn decimal_value(text: Seq<char>) -> int
    decreases text.len(),
{
    if text.len() == 0 {
        0
    } else {
        decimal_value(text.drop_last()) * 10 + (text.last() as int - 48)
    }
}

/// The decimal text of `n` reads back as `n`, and is made of digits only.
pub proof fn lemma_decimal_reads_back(n: nat)
    ensures
        decimal_value(spec_decimal(n)) == n,
        spec_decimal(n).len() > 0,
        forall|i: int| 0 <= i < spec_decimal(n).len() ==> '0' <= #[trigger] spec_decimal(n)[i] <= '9',
    decreases n,
{
    if n < 10 {
        assert(decimal_digit(n as int) as int == n + 48);
        assert(spec_decimal(n).drop_last() =~= Seq::<char>::empty());
        assert(spec_decimal(n).last() == decimal_digit(n as int));
        assert(decimal_value(spec_decimal(n)) == decimal_value(Seq::<char>::empty()) * 10 + (n + 48 - 48));
    } else {
        lemma_decimal_reads_back(n / 10);
        assert(decimal_digit((n % 10) as int) as int == n % 10 + 48);
        assert(spec_decimal(n).drop_last() =~= spec_decimal(n / 10));
        assert(spec_decimal(n).last() == decimal_digit((n % 10) as int));
        assert(decimal_value(spec_decimal(n)) == decimal_value(spec_decimal(n / 10)) * 10 + (n % 10) as int);
        assert forall|i: int| 0 <= i < spec_decimal(n).len() implies '0' <= #[trigger] spec_decimal(n)[i] <= '9' by {
            if i < spec_decimal(n / 10).len() {
                assert(spec_decimal(n)[i] == spec_decimal(n / 10)[i]);
            }
        }
    }
}

} // verus!
