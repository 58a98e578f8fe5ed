use vstd::prelude::*;
use crate::format::PixelFormat;

verus! {

/// The A, R, G, B bytes of `s` reordered pixel by pixel into R, G, B, A.
pub open spec fn straight_of_labeled(s: Seq<u8>) -> Seq<u8> {
    Seq::new(s.len(), |i: int| s[i - i % 4 + (i % 4 + 1) % 4])
}

/// The R, G, B, A bytes of `s` reordered pixel by pixel into A, R, G, B.
pub open spec fn labeled_of_straight(s: Seq<u8>) -> Seq<u8> {
    Seq::new(s.len(), |i: int| s[i - i % 4 + (i % 4 + 3) % 4])
}

/// The bytes `s`, laid out in `from`, laid out in `to`; unchanged where the layouts agree.
pub open spec fn converted(s: Seq<u8>, from: PixelFormat, to: PixelFormat) -> Seq<u8> {
    match (from, to) {
        (PixelFormat::Prgb8, PixelFormat::Rgba8) => straight_of_labeled(s),
        (PixelFormat::Rgba8, PixelFormat::Prgb8) => labeled_of_straight(s),
        _ => s,
    }
}

/// Whether frames in `src_format` must be reordered before a sink in `dst_format` takes them.
pub fn needs_conversion(src_format: PixelFormat, dst_format: PixelFormat) -> (r: bool)
    ensures
        r == (src_format != dst_format),
{
    src_format != dst_format
}

/// Writes into `dst` the pixels of `src`, reordered from `src_format` into `dst_format`.
pub fn convert(src: &[u8], dst: &mut [u8], src_format: PixelFormat, dst_format: PixelFormat)
    requires
        src_format != dst_format,
        src@.len() == old(dst)@.len(),
        src@.len() % 4 == 0,
    ensures
        final(dst)@ == converted(src@, src_format, dst_format),
{
    match (src_format, dst_format) {
        (PixelFormat::Prgb8, PixelFormat::Rgba8) => convert_prgb_to_rgba(src, dst),
        (PixelFormat::Rgba8, PixelFormat::Prgb8) => convert_rgba_to_prgb(src, dst),
        (PixelFormat::Rgba8, PixelFormat::Rgba8) => {},
        (PixelFormat::Prgb8, PixelFormat::Prgb8) => {},
    }
}

/// Reorders each A, R, G, B pixel of `src` into R, G, B, A in `dst`.
pub fn convert_prgb_to_rgba(src: &[u8], dst: &mut [u8])
    requires
        src@.len() == old(dst)@.len(),
        src@.len() % 4 == 0,
    ensures
        final(dst)@ == straight_of_labeled(src@),
{
    let n = src.len();
    let mut i: usize = 0;
    while i < n
        invariant
            i <= n,
            i % 4 == 0,
            n == src@.len(),
            n % 4 == 0,
            dst@.len() == n,
            forall|j: int| 0 <= j < i ==> dst@[j] == #[trigger] straight_of_labeled(src@)[j],
        decreases n - i,
    {
        dst[i] = src[i + 1];
        dst[i + 1] = src[i + 2];
        dst[i + 2] = src[i + 3];
        dst[i + 3] = src[i];
        i = i + 4;
    }
    assert(dst@ =~= straight_of_labeled(src@));
}

/// Reorders each R, G, B, A pixel of `src` into A, R, G, B in `dst`.
pub fn convert_rgba_to_prgb(src: &[u8], dst: &mut [u8])
    requires
        src@.len() == old(dst)@.len(),
        src@.len() % 4 == 0,
    ensures
        final(dst)@ == labeled_of_straight(src@),
{
    let n = src.len();
    let mut i: usize = 0;
    while i < n
        invariant
            i <= n,
            i % 4 == 0,
            n == src@.len(),
            n % 4 == 0,
            dst@.len() == n,
            forall|j: int| 0 <= j < i ==> dst@[j] == #[trigger] labeled_of_straight(src@)[j],
        decreases n - i,
    {
        dst[i] = src[i + 3];
        dst[i + 1] = src[i];
        dst[i + 2] = src[i + 1];
        dst[i + 3] = src[i + 2];
        i = i + 4;
    }
    assert(dst@ =~= labeled_of_straight(src@));
}

/// Converting a frame into the other layout and back gives the original bytes.
pub proof fn lemma_convert_round_trip(s: Seq<u8>, a: PixelFormat, b: PixelFormat)
    requires
        s.len() % 4 == 0,
    ensures
        converted(converted(s, a, b), b, a) == s,
{
    let t = converted(s, a, b);
    assert(converted(t, b, a) =~= s);
}

} // verus!
