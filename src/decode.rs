use vstd::prelude::*;
use vstd::string::*;
use crate::bitmap::{rgba_len, Bitmap};

verus! {

/// Which decoder a file goes to.
#[derive(Clone, Copy, Debug, PartialEq, Eq)]
pub enum FormatKind {
    Standard,
    Raw,
}

/// Why a file could not be turned into a bitmap.
#[derive(Clone, Debug, PartialEq, Eq)]
pub enum DecodeError {
    ZeroDimensions,
    UnsupportedSampleFormat,
    UnsupportedOrCorrupt,
    DecodeFailed(String),
}

/// The sensor samples that a RAW decode hands back. Floating-point data is
/// not supported, so its samples are not carried.
#[derive(Clone, Debug)]
pub enum RawSamples {
    Integer(Vec<u16>),
    Float,
}

/// `c` equals the lower-case ASCII letter or digit `n`, ignoring ASCII case.
pub open spec fn char_matches(c: char, n: char) -> bool {
    c == n || ('A' <= c && c <= 'Z' && c as u32 + 32 == n as u32)
}

/// `ext` spells `name` (lower case) up to ASCII case.
pub open spec fn ext_is(ext: Seq<char>, name: Seq<char>) -> bool {
    ext.len() == name.len() && forall|i: int| 0 <= i < ext.len() ==> char_matches(#[trigger] ext[i], name[i])
}

/// Extensions of the standard image formats.
pub open spec fn is_standard_ext(e: Seq<char>) -> bool {
    ext_is(e, "png"@) || ext_is(e, "jpg"@) || ext_is(e, "jpeg"@) || ext_is(e, "webp"@)
}

/// Extensions of the RAW camera formats.
pub open spec fn is_raw_ext(e: Seq<char>) -> bool {
    ext_is(e, "nef"@) || ext_is(e, "cr2"@) || ext_is(e, "arw"@) || ext_is(e, "dng"@) || ext_is(e, "orf"@)
        || ext_is(e, "rw2"@) || ext_is(e, "raf"@)
}

/// Whether `ext` spells `name`, ignoring ASCII case.
fn ext_equals(ext: &str, name: &str) -> (r: bool)
    ensures
        r == ext_is(ext@, name@),
{
    let n = ext.unicode_len();
    if n != name.unicode_len() {
        return false;
    }
    let mut i: usize = 0;
    while i < n
        invariant
            n == ext@.len(),
            n == name@.len(),
            i <= n,
            forall|k: int| 0 <= k < i ==> char_matches(#[trigger] ext@[k], name@[k]),
        decreases n - i,
    {
        let c = ext.get_char(i);
        let m = name.get_char(i);
        let ok = c == m || ('A' <= c && c <= 'Z' && c as u32 + 32 == m as u32);
        if !ok {
            return false;
        }
        i = i + 1;
    }
    true
}

/// Decoder for a file with extension `ext` (case-insensitive), or `None`
/// where the extension is not accepted.
pub fn classify_extension(ext: &str) -> (r: Option<FormatKind>)
    ensures
        r == Some(FormatKind::Standard) <==> is_standard_ext(ext@),
        r == Some(FormatKind::Raw) <==> (is_raw_ext(ext@) && !is_standard_ext(ext@)),
        r is None <==> !is_standard_ext(ext@) && !is_raw_ext(ext@),
{
    if ext_equals(ext, "png") || ext_equals(ext, "jpg") || ext_equals(ext, "jpeg") || ext_equals(
        ext,
        "webp",
    ) {
        Some(FormatKind::Standard)
    } else if ext_equals(ext, "nef") || ext_equals(ext, "cr2") || ext_equals(ext, "arw")
        || ext_equals(ext, "dng") || ext_equals(ext, "orf") || ext_equals(ext, "rw2") || ext_equals(
        ext,
        "raf",
    ) {
        Some(FormatKind::Raw)
    } else {
        None
    }
}

/// Whether a watermark may be read from a file with extension `ext`.
pub fn is_watermark_extension(ext: &str) -> (r: bool)
    ensures
        r == is_standard_ext(ext@),
{
    match classify_extension(ext) {
        Some(FormatKind::Standard) => true,
        _ => false,
    }
}

/// A 16-bit sample scaled to 8 bits, rounded to nearest:
/// `round(c * 255 / 65535)`.
pub open spec fn u16_to_u8(c: u16) -> u8 {
    ((c as nat + 128) / 257) as u8
}

/// The RGBA8 image of `n` pixels whose colour samples are the 16-bit RGB
/// samples `s` scaled to 8 bits, fully opaque.
pub open spec fn rgb16_to_rgba8(s: Seq<u16>, n: nat) -> Seq<u8> {
    Seq::new(
        4 * n,
        |j: int|
            if j % 4 == 3 {
                255u8
            } else {
                u16_to_u8(s[3 * (j / 4) + j % 4])
            },
    )
}

/// Whether `samples` can hold a `width` by `height` RGB image that fits
/// in memory as RGBA8.
pub open spec fn raw_buffer_fits(width: nat, height: nat, samples: Seq<u16>) -> bool {
    &&& width <= u32::MAX
    &&& height <= u32::MAX
    &&& 3 * (width * height) <= samples.len()
    &&& rgba_len(width, height) <= usize::MAX
}

/// Turns the output of a RAW decode into a bitmap: 16-bit RGB samples,
/// row by row, are scaled to 8 bits with rounding and made opaque.
pub fn raw_to_bitmap(width: usize, height: usize, samples: &RawSamples) -> (r: Result<
    Bitmap,
    DecodeError,
>)
    ensures
        (width == 0 || height == 0) ==> r == Err::<Bitmap, DecodeError>(DecodeError::ZeroDimensions),
        (width != 0 && height != 0 && samples is Float) ==> r == Err::<Bitmap, DecodeError>(
            DecodeError::UnsupportedSampleFormat,
        ),
        (width != 0 && height != 0) ==> match samples {
            RawSamples::Integer(s) => {
                &&& r is Ok <==> raw_buffer_fits(width as nat, height as nat, s@)
                &&& r matches Err(e) ==> e is DecodeFailed
                &&& r matches Ok(b) ==> b.wf() && b.width == width && b.height == height && b.data@
                    == rgb16_to_rgba8(s@, (width * height) as nat)
            },
            RawSamples::Float => true,
        },
{
    if width == 0 || height == 0 {
        return Err(DecodeError::ZeroDimensions);
    }
    let s = match samples {
        RawSamples::Float => {
            return Err(DecodeError::UnsupportedSampleFormat);
        },
        RawSamples::Integer(s) => s,
    };
    if width > u32::MAX as usize || height > u32::MAX as usize {
        return Err(DecodeError::DecodeFailed("image dimensions out of range".to_owned()));
    }
    proof {
        assert((width as u128) * (height as u128) <= 0xffff_ffffu128 * 0xffff_ffffu128)
            by (nonlinear_arith)
            requires
                width <= 0xffff_ffffusize,
                height <= 0xffff_ffffusize,
        ;
    }
    let pixels: u128 = (width as u128) * (height as u128);
    if 3 * pixels > s.len() as u128 {
        return Err(DecodeError::DecodeFailed("sample buffer shorter than the image".to_owned()));
    }
    if 4 * pixels > usize::MAX as u128 {
        return Err(DecodeError::DecodeFailed("image too large".to_owned()));
    }
    let n = pixels as usize;
    let ghost target = rgb16_to_rgba8(s@, n as nat);
    let mut data: Vec<u8> = Vec::with_capacity(4 * n);
    let mut p: usize = 0;
    let mut k: usize = 0;
    while p < n
        invariant
            n == width * height,
            3 * n <= s@.len(),
            4 * n <= usize::MAX,
            p <= n,
            k == 3 * p,
            data@.len() == 4 * p,
            target == rgb16_to_rgba8(s@, n as nat),
            forall|j: int| 0 <= j < 4 * p ==> #[trigger] data@[j] == target[j],
        decreases n - p,
    {
        data.push(((s[k] as u32 + 128) / 257) as u8);
        data.push(((s[k + 1] as u32 + 128) / 257) as u8);
        data.push(((s[k + 2] as u32 + 128) / 257) as u8);
        data.push(255u8);
        p = p + 1;
        k = k + 3;
    }
    assert(data@ =~= target);
    Ok(Bitmap { width: width as u32, height: height as u32, data })
}

} // verus!
