//! Pixel work: composing one surface's overlay buffer, and the channel
//! swizzle a captured frame goes through.
//!
//! A frame is a row-major RGBA byte buffer. Every pixel carries the
//! translucent mid-gray overlay, except those inside a live, nonzero-
//! area selection rectangle, which are fully transparent — the
//! selection appears as a clear window onto the desktop.

use vstd::prelude::*;

use crate::geometry::{Pos, Region};
use crate::selection::{rect_between, Selection};

verus! {

/// The overlay's gray level, per color channel.
pub const OVERLAY_GRAY: u8 = 0x64;

/// The overlay's alpha: about half-opaque.
pub const OVERLAY_ALPHA: u8 = 0x80;

/// Does the selection cut the pixel at global point `p` out of the
/// overlay? Only a selection with a nonzero-area rectangle is painted.
pub open spec fn selection_cuts(sel: Selection, p: Pos) -> bool {
    match sel.data {
        Some(d) => {
            let r = rect_between(d.0, d.1);
            &&& r.width > 0
            &&& r.height > 0
            &&& r.covers(p)
        },
        None => false,
    }
}

/// Byte `k` (RGBA order) of the composed pixel at surface-local
/// `(col, row)` on a surface covering `surface` in global space.
pub open spec fn overlay_byte(sel: Selection, surface: Region, row: int, col: int, k: int) -> u8 {
    if selection_cuts(
        sel,
        Pos { x: (surface.x + col) as i32, y: (surface.y + row) as i32 },
    ) {
        0u8
    } else if k == 3 {
        OVERLAY_ALPHA
    } else {
        OVERLAY_GRAY
    }
}

/// Compose the full overlay buffer for one surface: `width * height`
/// RGBA pixels, row-major, each one either the translucent gray or,
/// inside the selection rectangle, fully transparent.
pub fn compose_overlay(surface: Region, sel: &Selection) -> (buf: Vec<u8>)
    requires
        surface.wf(),
        surface.width * surface.height * 4 <= usize::MAX,
    ensures
        buf@.len() == surface.width * surface.height * 4,
        forall|row: int, col: int, k: int|
            0 <= row < surface.height && 0 <= col < surface.width && 0 <= k < 4
                ==> buf@[(row * surface.width + col) * 4 + k] == #[trigger] overlay_byte(
                *sel,
                surface,
                row,
                col,
                k,
            ),
{
    let width: u32 = surface.width;
    let height: u32 = surface.height;
    let cut: Option<Region> = match sel.to_region() {
        Some(r) => if r.width > 0 && r.height > 0 {
            Some(r)
        } else {
            None
        },
        None => None,
    };
    let mut buf: Vec<u8> = Vec::new();
    let mut row: u32 = 0;
    while row < height
        invariant
            row <= height,
            width == surface.width,
            height == surface.height,
            surface.wf(),
            surface.width * surface.height * 4 <= usize::MAX,
            cut matches Some(r) ==> sel.data matches Some(d) && r == rect_between(d.0, d.1)
                && r.width > 0 && r.height > 0,
            cut is None ==> forall|p: Pos| !selection_cuts(*sel, p),
            buf@.len() == row * width * 4,
            forall|r: int, c: int, k: int|
                0 <= r < row && 0 <= c < width && 0 <= k < 4 ==> buf@[(r * width + c) * 4 + k]
                    == #[trigger] overlay_byte(*sel, surface, r, c, k),
        decreases height - row,
    {
        let mut col: u32 = 0;
        while col < width
            invariant
                col <= width,
                row < height,
                width == surface.width,
                height == surface.height,
                surface.wf(),
                surface.width * surface.height * 4 <= usize::MAX,
                cut matches Some(r) ==> sel.data matches Some(d) && r == rect_between(d.0, d.1)
                    && r.width > 0 && r.height > 0,
                cut is None ==> forall|p: Pos| !selection_cuts(*sel, p),
                buf@.len() == (row * width + col) * 4,
                forall|r: int, c: int, k: int|
                    0 <= r < row && 0 <= c < width && 0 <= k < 4 ==> buf@[(r * width + c) * 4 + k]
                        == #[trigger] overlay_byte(*sel, surface, r, c, k),
                forall|c: int, k: int|
                    0 <= c < col && 0 <= k < 4 ==> buf@[(row * width + c) * 4 + k]
                        == #[trigger] overlay_byte(*sel, surface, row as int, c, k),
            decreases width - col,
        {
            let gx: i64 = surface.x as i64 + col as i64;
            let gy: i64 = surface.y as i64 + row as i64;
            let covered: bool = match cut {
                Some(r) => r.x as i64 <= gx && gx < r.x as i64 + r.width as i64
                    && r.y as i64 <= gy && gy < r.y as i64 + r.height as i64,
                None => false,
            };
            proof {
                assert(i32::MIN <= surface.x + col <= i32::MAX);
                assert(i32::MIN <= surface.y + row <= i32::MAX);
                assert(covered == selection_cuts(
                    *sel,
                    Pos { x: (surface.x + col) as i32, y: (surface.y + row) as i32 },
                ));
            }
            let ghost before = buf@;
            if covered {
                buf.push(0);
                buf.push(0);
                buf.push(0);
                buf.push(0);
            } else {
                buf.push(OVERLAY_GRAY);
                buf.push(OVERLAY_GRAY);
                buf.push(OVERLAY_GRAY);
                buf.push(OVERLAY_ALPHA);
            }
            proof {
                assert(buf@.len() == before.len() + 4);
                assert(forall|j: int| 0 <= j < before.len() ==> buf@[j] == before[j]);
                assert forall|r: int, c: int, k: int|
                    0 <= r < row && 0 <= c < width && 0 <= k < 4 implies buf@[(r * width + c) * 4
                    + k] == overlay_byte(*sel, surface, r, c, k) by {
                    assert(r * width + c + 1 <= row * width) by (nonlinear_arith)
                        requires
                            0 <= r,
                            r + 1 <= row,
                            0 <= c,
                            c + 1 <= width,
                    ;
                    assert((r * width + c) * 4 + k < before.len());
                    assert(buf@[(r * width + c) * 4 + k] == before[(r * width + c) * 4 + k]);
                }
                assert forall|c: int, k: int|
                    0 <= c < col + 1 && 0 <= k < 4 implies buf@[(row * width + c) * 4 + k]
                    == overlay_byte(*sel, surface, row as int, c, k) by {
                    if c < col {
                        assert((row * width + c) * 4 + k < before.len());
                        assert(buf@[(row * width + c) * 4 + k] == before[(row * width + c) * 4
                            + k]);
                    } else {
                        assert((row * width + c) * 4 + k == before.len() + k);
                    }
                }
            }
            col += 1;
        }
        proof {
            assert((row + 1) * width == row * width + width) by (nonlinear_arith);
        }
        row += 1;
    }
    proof {
        assert(height * width * 4 == width * height * 4) by (nonlinear_arith);
    }
    buf
}

/// Reorder a buffer of BGRA pixels into RGBA, chunkwise; a trailing
/// fragment shorter than one pixel is dropped.
pub open spec fn rgba_of_bgra(s: Seq<u8>) -> Seq<u8> {
    Seq::new(
        (s.len() / 4 * 4) as nat,
        |j: int|
            if j % 4 == 0 {
                s[j + 2]
            } else if j % 4 == 2 {
                s[j - 2]
            } else {
                s[j]
            },
    )
}

/// Swap the blue and red channels of every four-byte pixel, turning a
/// BGRA capture into the RGBA layout the rest of the pipeline uses.
pub fn bgra_to_rgba(bgra: &Vec<u8>) -> (rgba: Vec<u8>)
    ensures
        rgba@ == rgba_of_bgra(bgra@),
{
    let n: usize = bgra.len();
    let m: usize = n / 4 * 4;
    let mut rgba: Vec<u8> = Vec::new();
    let mut i: usize = 0;
    while i < m
        invariant
            n == bgra@.len(),
            m == n / 4 * 4,
            i % 4 == 0,
            i <= m,
            rgba@.len() == i,
            forall|j: int| 0 <= j < i ==> rgba@[j] == rgba_of_bgra(bgra@)[j],
        decreases m - i,
    {
        proof {
            assert(m % 4 == 0) by (nonlinear_arith)
                requires
                    m == n / 4 * 4,
                    n >= 0,
            ;
            assert(i + 4 <= m);
            assert(m <= n);
        }
        rgba.push(bgra[i + 2]);
        rgba.push(bgra[i + 1]);
        rgba.push(bgra[i]);
        rgba.push(bgra[i + 3]);
        i += 4;
    }
    proof {
        assert(rgba@ =~= rgba_of_bgra(bgra@));
    }
    rgba
}

} // verus!
