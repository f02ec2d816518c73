use vstd::prelude::*;

verus! {

/// Pixel/texture format tags reported by backends and handed through to the
/// host's texture system. Uncompressed frames use one of the 8-bit-per-channel
/// tags; the `Bc*` tags mark GPU-native block-compressed frame data that is
/// passed through without CPU-side decompression.
#[derive(Debug, Copy, Clone, PartialEq, Eq, Structural)]
pub enum PixelFormat {
    Bgra8UnormSrgb,
    Bgra8Unorm,
    Rgb8Unorm,
    Bc1RgbaUnormSrgb,
    Bc2RgbaUnormSrgb,
    Bc3RgbaUnormSrgb,
    Bc7RgbaUnormSrgb,
}

/// Pixel `p` of `out` is the BGRA rendering of pixel `p` of the packed RGB
/// sequence `rgb`: blue and red swap places and a fully opaque alpha byte is
/// appended.
pub open spec fn bgra_pixel_ok(rgb: Seq<u8>, out: Seq<u8>, p: int) -> bool {
    &&& out[4 * p] == rgb[3 * p + 2]
    &&& out[4 * p + 1] == rgb[3 * p + 1]
    &&& out[4 * p + 2] == rgb[3 * p]
    &&& out[4 * p + 3] == 255u8
}

/// Converts a packed 3-bytes-per-pixel RGB frame into a packed
/// 4-bytes-per-pixel BGRA frame with every pixel fully opaque.
pub fn rgb_to_bgra(rgb: &Vec<u8>) -> (out: Vec<u8>)
    requires
        rgb@.len() % 3 == 0,
        rgb@.len() / 3 * 4 <= usize::MAX,
    ensures
        out@.len() == rgb@.len() / 3 * 4,
        forall|p: int| 0 <= p < rgb@.len() / 3 ==> #[trigger] bgra_pixel_ok(rgb@, out@, p),
{
    let n: usize = rgb.len() / 3;
    let mut out: Vec<u8> = Vec::new();
    let mut p: usize = 0;
    while p < n
        invariant
            rgb@.len() % 3 == 0,
            n == rgb@.len() / 3,
            n * 4 <= usize::MAX,
            p <= n,
            out@.len() == 4 * p,
            forall|q: int| 0 <= q < p ==> #[trigger] bgra_pixel_ok(rgb@, out@, q),
        decreases n - p,
    {
        proof {
            assert(rgb@.len() == 3 * n);
            assert(3 * p + 2 < rgb@.len());
        }
        let ghost prev = out@;
        out.push(rgb[3 * p + 2]);
        out.push(rgb[3 * p + 1]);
        out.push(rgb[3 * p]);
        out.push(255);
        p = p + 1;
        proof {
            assert(bgra_pixel_ok(rgb@, out@, p - 1));
            assert forall|q: int| 0 <= q < p implies #[trigger] bgra_pixel_ok(
                rgb@,
                out@,
                q,
            ) by {
                if q < p - 1 {
                    assert(bgra_pixel_ok(rgb@, prev, q));
                    assert(4 * q + 3 < prev.len());
                    assert(out@[4 * q] == prev[4 * q]);
                    assert(out@[4 * q + 1] == prev[4 * q + 1]);
                    assert(out@[4 * q + 2] == prev[4 * q + 2]);
                    assert(out@[4 * q + 3] == prev[4 * q + 3]);
                }
            }
        }
    }
    out
}

} // verus!
