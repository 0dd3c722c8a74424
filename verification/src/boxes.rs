//! Box-drawing cell sets: priming six cells with the corner, horizontal and
//! vertical glyphs needed to draw a box, from a six-cluster source string.
//!
//! Processing order is top-left, top-right, bottom-left, bottom-right,
//! horizontal, vertical. When one prime fails, every cell primed earlier in
//! the same call is released again, in reverse order of priming, so no cell
//! is left holding a live pool reference.

use vstd::prelude::*;

use vstd::utf8::{decode_utf8, encode_scalar, encode_utf8};

use crate::cell::{cell_indirect, inline_bytes, nccell_egc_bytes, nccell_wf, nccell_zero, NcCell};
use crate::egc::{
    all_plain_chars, cp_width, egc_byte_len, egc_bytes, egc_char_count, egc_rest, egc_valid,
    lemma_egc_char_count_bounds, lemma_egc_rest_bytes, lemma_encode_prefix_boundary,
    lemma_plain_rest, lemma_plain_step, nth_egc_rest,
};
use crate::load::{egc_stored_width, load_result_wf, nccell_prime, nccell_release};
use crate::plane::NcPlane;
use crate::types::{NcChannels, NcError, NcStyle, NCSTYLE_MASK};

verus! {

broadcast use vstd::utf8::encode_utf8_decode_utf8;

// ---------------------------------------------------------------------------
// The model of a six-cluster load.
// ---------------------------------------------------------------------------

/// The bytes of the `k`-th grapheme cluster of the glyph string.
pub open spec fn box_egc_bytes(chars: Seq<char>, k: int) -> Seq<u8> {
    egc_bytes(nth_egc_rest(chars, k))
}

/// Does the `k`-th cluster outgrow the inline slot and spill into the pool?
pub open spec fn box_spill(chars: Seq<char>, k: int) -> bool {
    box_egc_bytes(chars, k).len() > 4
}

/// How many bytes the first `k` primes append to the pool.
pub open spec fn box_growth(chars: Seq<char>, k: int) -> int
    decreases k,
{
    if k <= 0 {
        0
    } else {
        box_growth(chars, k - 1) + (if box_spill(chars, k - 1) {
            box_egc_bytes(chars, k - 1).len() + 1
        } else {
            0
        })
    }
}

/// The pool after the first `k` primes.
pub open spec fn box_pool_after(chars: Seq<char>, pool: Seq<u8>, k: int) -> Seq<u8>
    decreases k,
{
    if k <= 0 {
        pool
    } else {
        let prev = box_pool_after(chars, pool, k - 1);
        if box_spill(chars, k - 1) {
            prev + box_egc_bytes(chars, k - 1).push(0)
        } else {
            prev
        }
    }
}

/// Can the `k`-th prime succeed, over a pool that held `pool_len` bytes
/// before the first prime?
pub open spec fn box_step_ok(chars: Seq<char>, k: int, pool_len: int) -> bool {
    egc_valid(nth_egc_rest(chars, k)) && (box_spill(chars, k) ==> pool_len + box_growth(chars, k)
        <= 0xffffff)
}

/// Can all six primes succeed?
pub open spec fn box_ok(chars: Seq<char>, pool_len: int) -> bool {
    forall|k: int| 0 <= k < 6 ==> box_step_ok(chars, k, pool_len)
}

/// The index of the first prime that fails, or 6 when none does.
pub open spec fn box_fail_idx_from(chars: Seq<char>, pool_len: int, k: int) -> int
    decreases 6 - k,
{
    if k >= 6 {
        6
    } else if !box_step_ok(chars, k, pool_len) {
        k
    } else {
        box_fail_idx_from(chars, pool_len, k + 1)
    }
}

/// The index of the first prime that fails.
pub open spec fn box_fail_idx(chars: Seq<char>, pool_len: int) -> int {
    box_fail_idx_from(chars, pool_len, 0)
}

/// Does the glyph string hold at least six grapheme clusters?
pub open spec fn box_has_six(chars: Seq<char>) -> bool {
    forall|k: int| 0 <= k < 6 ==> egc_char_count(#[trigger] nth_egc_rest(chars, k)) >= 1
}

/// What a successful box load leaves in the cell primed `k`-th: the given
/// style and channels, and the `k`-th cluster of the glyph string.
pub open spec fn box_cell_ok(
    cell: NcCell,
    chars: Seq<char>,
    k: int,
    style: NcStyle,
    channels: NcChannels,
    pool: Seq<u8>,
) -> bool {
    &&& cell.stylemask == style & NCSTYLE_MASK
    &&& cell.channels == channels
    &&& cell.backstop == 0
    &&& cell.width == egc_stored_width(nth_egc_rest(chars, k))
    &&& cell_indirect(cell.gcluster) == box_spill(chars, k)
    &&& nccell_wf(cell, pool)
    &&& nccell_egc_bytes(cell, pool) == box_egc_bytes(chars, k)
}

/// What a failed box load leaves in the cell primed `k`-th, when the prime
/// at `j` was the one that failed: released (zeroed) before `j`, style-only
/// overwritten at `j`, untouched after `j`.
pub open spec fn box_err_cell(
    cell: NcCell,
    was: NcCell,
    k: int,
    j: int,
    style: NcStyle,
    channels: NcChannels,
) -> bool {
    if k < j {
        cell == nccell_zero()
    } else if k == j {
        cell.gcluster == was.gcluster && cell.backstop == was.backstop && cell.width == was.width
            && cell.stylemask == (style & NCSTYLE_MASK) && cell.channels == channels
    } else {
        cell == was
    }
}

/// The pool length after `k` primes is the initial length plus the growth.
proof fn lemma_box_pool_len(chars: Seq<char>, pool: Seq<u8>, k: int)
    requires
        k >= 0,
    ensures
        box_growth(chars, k) >= 0,
        box_pool_after(chars, pool, k).len() == pool.len() + box_growth(chars, k),
    decreases k,
{
    if k > 0 {
        lemma_box_pool_len(chars, pool, k - 1);
    }
}

/// Later box pools extend earlier ones.
proof fn lemma_box_pool_extends(chars: Seq<char>, pool: Seq<u8>, i: int, j: int)
    requires
        0 <= i <= j,
    ensures
        exists|ext: Seq<u8>|
            box_pool_after(chars, pool, j) == box_pool_after(chars, pool, i) + ext,
    decreases j - i,
{
    if i == j {
        assert(box_pool_after(chars, pool, i) + Seq::<u8>::empty() =~= box_pool_after(
            chars,
            pool,
            i,
        ));
    } else {
        lemma_box_pool_extends(chars, pool, i, j - 1);
        let ext1 = choose|ext1: Seq<u8>|
            box_pool_after(chars, pool, j - 1) == box_pool_after(chars, pool, i) + ext1;
        if box_spill(chars, j - 1) {
            let ext2 = box_egc_bytes(chars, j - 1).push(0);
            assert(box_pool_after(chars, pool, i) + ext1 + ext2 =~= box_pool_after(chars, pool, i)
                + (ext1 + ext2));
        } else {
            assert(box_pool_after(chars, pool, j) == box_pool_after(chars, pool, i) + ext1);
        }
    }
}

/// A cell well formed against an earlier box pool stays well formed, with
/// the same resolved bytes, against any later one.
proof fn lemma_box_cell_stable(cell: NcCell, chars: Seq<char>, pool: Seq<u8>, i: int, j: int)
    requires
        0 <= i <= j,
        nccell_wf(cell, box_pool_after(chars, pool, i)),
    ensures
        nccell_wf(cell, box_pool_after(chars, pool, j)),
        nccell_egc_bytes(cell, box_pool_after(chars, pool, j)) == nccell_egc_bytes(
            cell,
            box_pool_after(chars, pool, i),
        ),
{
    lemma_box_pool_extends(chars, pool, i, j);
    let ext = choose|ext: Seq<u8>|
        box_pool_after(chars, pool, j) == box_pool_after(chars, pool, i) + ext;
    crate::load::lemma_wf_pool_extend(cell, box_pool_after(chars, pool, i), ext);
}

// ---------------------------------------------------------------------------
// One prime plus the advance past the consumed cluster.
// ---------------------------------------------------------------------------

/// Primes one cell with the first cluster of `text` and returns the rest of
/// `text`.
fn box_step<'a>(
    plane: &mut NcPlane,
    cell: &mut NcCell,
    text: &'a str,
    style: NcStyle,
    channels: NcChannels,
) -> (r: Result<&'a str, NcError>)
    ensures
        final(cell).stylemask == style & NCSTYLE_MASK,
        final(cell).channels == channels,
        match r {
            Ok(rest) => {
                &&& egc_valid(text@)
                &&& rest@ == egc_rest(text@)
                &&& load_result_wf(
                    *final(cell),
                    old(plane).egcpool(),
                    final(plane).egcpool(),
                    text@,
                )
            },
            Err(e) => {
                &&& final(cell).gcluster == old(cell).gcluster
                &&& final(cell).backstop == old(cell).backstop
                &&& final(cell).width == old(cell).width
                &&& final(plane).egcpool() == old(plane).egcpool()
                &&& (e == NcError::InvalidGrapheme <==> !egc_valid(text@))
            },
        },
        r is Err <==> (!egc_valid(text@) || (egc_byte_len(text@) > 4 && old(
            plane,
        ).egcpool().len() > 0xffffff)),
{
    let n = match nccell_prime(plane, cell, text, style, channels) {
        Ok(n) => n,
        Err(e) => {
            return Err(e);
        },
    };
    proof {
        lemma_egc_char_count_bounds(text@);
        lemma_encode_prefix_boundary(text@, egc_char_count(text@));
    }
    let parts = text.split_at(n);
    let rest = parts.1;
    proof {
        lemma_egc_rest_bytes(text@);
        assert(encode_utf8(text@).subrange(n as int, encode_utf8(text@).len() as int)
            =~= encode_utf8(text@).skip(n as int));
        assert(encode_utf8(rest@) == encode_utf8(egc_rest(text@)));
        assert(decode_utf8(encode_utf8(rest@)) == rest@);
        assert(decode_utf8(encode_utf8(egc_rest(text@))) == egc_rest(text@));
    }
    Ok(rest)
}

// ---------------------------------------------------------------------------
// The six-cell loader.
// ---------------------------------------------------------------------------

/// Primes the six cells with the six grapheme clusters of `gcluster`, in
/// the order top-left, top-right, bottom-left, bottom-right, horizontal,
/// vertical, all styled with `style` and `channels`.
///
/// The source string must hold at least six clusters. When one prime fails,
/// the cells primed before it are released again in reverse order and the
/// call fails, with `InvalidGrapheme` when that cluster holds the reserved
/// codepoint U+0001, else `PoolOverflow`.
pub fn nccells_load_box(
    plane: &mut NcPlane,
    style: NcStyle,
    channels: NcChannels,
    ul: &mut NcCell,
    ur: &mut NcCell,
    ll: &mut NcCell,
    lr: &mut NcCell,
    hl: &mut NcCell,
    vl: &mut NcCell,
    gcluster: &str,
) -> (r: Result<(), NcError>)
    requires
        box_has_six(gcluster@),
    ensures
        r is Ok <==> box_ok(gcluster@, old(plane).egcpool().len() as int),
        match r {
            Ok(()) => {
                &&& final(plane).egcpool() == box_pool_after(
                    gcluster@,
                    old(plane).egcpool(),
                    6,
                )
                &&& box_cell_ok(
                    *final(ul),
                    gcluster@,
                    0,
                    style,
                    channels,
                    final(plane).egcpool(),
                )
                &&& box_cell_ok(
                    *final(ur),
                    gcluster@,
                    1,
                    style,
                    channels,
                    final(plane).egcpool(),
                )
                &&& box_cell_ok(
                    *final(ll),
                    gcluster@,
                    2,
                    style,
                    channels,
                    final(plane).egcpool(),
                )
                &&& box_cell_ok(
                    *final(lr),
                    gcluster@,
                    3,
                    style,
                    channels,
                    final(plane).egcpool(),
                )
                &&& box_cell_ok(
                    *final(hl),
                    gcluster@,
                    4,
                    style,
                    channels,
                    final(plane).egcpool(),
                )
                &&& box_cell_ok(
                    *final(vl),
                    gcluster@,
                    5,
                    style,
                    channels,
                    final(plane).egcpool(),
                )
            },
            Err(e) => ({
                let j = box_fail_idx(gcluster@, old(plane).egcpool().len() as int);
                &&& 0 <= j < 6
                &&& final(plane).egcpool() == box_pool_after(
                    gcluster@,
                    old(plane).egcpool(),
                    j,
                )
                &&& (e == NcError::InvalidGrapheme <==> !egc_valid(nth_egc_rest(gcluster@, j)))
                &&& box_err_cell(*final(ul), *old(ul), 0, j, style, channels)
                &&& box_err_cell(*final(ur), *old(ur), 1, j, style, channels)
                &&& box_err_cell(*final(ll), *old(ll), 2, j, style, channels)
                &&& box_err_cell(*final(lr), *old(lr), 3, j, style, channels)
                &&& box_err_cell(*final(hl), *old(hl), 4, j, style, channels)
                &&& box_err_cell(*final(vl), *old(vl), 5, j, style, channels)
            }),
        },
{
    let ghost chars = gcluster@;
    let ghost pool0 = old(plane).egcpool();
    let ghost plen = pool0.len() as int;
    proof {
        lemma_box_pool_len(chars, pool0, 1);
        lemma_box_pool_len(chars, pool0, 2);
        lemma_box_pool_len(chars, pool0, 3);
        lemma_box_pool_len(chars, pool0, 4);
        lemma_box_pool_len(chars, pool0, 5);
        lemma_box_pool_len(chars, pool0, 6);
    }
    let rest1 = match box_step(plane, ul, gcluster, style, channels) {
        Ok(rest) => rest,
        Err(e) => {
            proof {
                assert(nth_egc_rest(chars, 0) == chars);
                assert(box_growth(chars, 0) == 0);
                assert(box_pool_after(chars, pool0, 0) == pool0);
                assert(!box_step_ok(chars, 0, plen));
                assert(box_fail_idx_from(chars, plen, 0) == 0);
            }
            return Err(e);
        },
    };
    proof {
        assert(nth_egc_rest(chars, 0) == chars);
        assert(box_growth(chars, 0) == 0);
        assert(box_pool_after(chars, pool0, 0) == pool0);
        assert(box_step_ok(chars, 0, plen));
        assert(plane.egcpool() == box_pool_after(chars, pool0, 1));
        assert(rest1@ == nth_egc_rest(chars, 1));
    }
    let rest2 = match box_step(plane, ur, rest1, style, channels) {
        Ok(rest) => rest,
        Err(e) => {
            proof {
                assert(!box_step_ok(chars, 1, plen));
                assert(box_fail_idx_from(chars, plen, 1) == 1);
                assert(box_fail_idx_from(chars, plen, 0) == 1);
            }
            nccell_release(plane, ul);
            return Err(e);
        },
    };
    proof {
        assert(box_step_ok(chars, 1, plen));
        assert(plane.egcpool() == box_pool_after(chars, pool0, 2));
        assert(rest2@ == nth_egc_rest(chars, 2));
    }
    let rest3 = match box_step(plane, ll, rest2, style, channels) {
        Ok(rest) => rest,
        Err(e) => {
            proof {
                assert(!box_step_ok(chars, 2, plen));
                assert(box_fail_idx_from(chars, plen, 2) == 2);
                assert(box_fail_idx_from(chars, plen, 1) == 2);
                assert(box_fail_idx_from(chars, plen, 0) == 2);
            }
            nccell_release(plane, ur);
            nccell_release(plane, ul);
            return Err(e);
        },
    };
    proof {
        assert(box_step_ok(chars, 2, plen));
        assert(plane.egcpool() == box_pool_after(chars, pool0, 3));
        assert(rest3@ == nth_egc_rest(chars, 3));
    }
    let rest4 = match box_step(plane, lr, rest3, style, channels) {
        Ok(rest) => rest,
        Err(e) => {
            proof {
                assert(!box_step_ok(chars, 3, plen));
                assert(box_fail_idx_from(chars, plen, 3) == 3);
                assert(box_fail_idx_from(chars, plen, 2) == 3);
                assert(box_fail_idx_from(chars, plen, 1) == 3);
                assert(box_fail_idx_from(chars, plen, 0) == 3);
            }
            nccell_release(plane, ll);
            nccell_release(plane, ur);
            nccell_release(plane, ul);
            return Err(e);
        },
    };
    proof {
        assert(box_step_ok(chars, 3, plen));
        assert(plane.egcpool() == box_pool_after(chars, pool0, 4));
        assert(rest4@ == nth_egc_rest(chars, 4));
    }
    let rest5 = match box_step(plane, hl, rest4, style, channels) {
        Ok(rest) => rest,
        Err(e) => {
            proof {
                assert(!box_step_ok(chars, 4, plen));
                assert(box_fail_idx_from(chars, plen, 4) == 4);
                assert(box_fail_idx_from(chars, plen, 3) == 4);
                assert(box_fail_idx_from(chars, plen, 2) == 4);
                assert(box_fail_idx_from(chars, plen, 1) == 4);
                assert(box_fail_idx_from(chars, plen, 0) == 4);
            }
            nccell_release(plane, lr);
            nccell_release(plane, ll);
            nccell_release(plane, ur);
            nccell_release(plane, ul);
            return Err(e);
        },
    };
    proof {
        assert(box_step_ok(chars, 4, plen));
        assert(plane.egcpool() == box_pool_after(chars, pool0, 5));
        assert(rest5@ == nth_egc_rest(chars, 5));
    }
    match box_step(plane, vl, rest5, style, channels) {
        Ok(_) => {},
        Err(e) => {
            proof {
                assert(!box_step_ok(chars, 5, plen));
                assert(box_fail_idx_from(chars, plen, 5) == 5);
                assert(box_fail_idx_from(chars, plen, 4) == 5);
                assert(box_fail_idx_from(chars, plen, 3) == 5);
                assert(box_fail_idx_from(chars, plen, 2) == 5);
                assert(box_fail_idx_from(chars, plen, 1) == 5);
                assert(box_fail_idx_from(chars, plen, 0) == 5);
            }
            nccell_release(plane, hl);
            nccell_release(plane, lr);
            nccell_release(plane, ll);
            nccell_release(plane, ur);
            nccell_release(plane, ul);
            return Err(e);
        },
    };
    proof {
        assert(box_step_ok(chars, 5, plen));
        assert(plane.egcpool() == box_pool_after(chars, pool0, 6));
        assert(box_ok(chars, plen)) by {
            assert forall|k: int| 0 <= k < 6 implies box_step_ok(chars, k, plen) by {
                if k == 0 {
                    assert(box_step_ok(chars, 0, plen));
                } else if k == 1 {
                    assert(box_step_ok(chars, 1, plen));
                } else if k == 2 {
                    assert(box_step_ok(chars, 2, plen));
                } else if k == 3 {
                    assert(box_step_ok(chars, 3, plen));
                } else if k == 4 {
                    assert(box_step_ok(chars, 4, plen));
                } else {
                    assert(box_step_ok(chars, 5, plen));
                }
            }
        }
        assert(box_egc_bytes(chars, 0) == egc_bytes(nth_egc_rest(chars, 0)));
        assert(box_egc_bytes(chars, 1) == egc_bytes(nth_egc_rest(chars, 1)));
        assert(box_egc_bytes(chars, 2) == egc_bytes(nth_egc_rest(chars, 2)));
        assert(box_egc_bytes(chars, 3) == egc_bytes(nth_egc_rest(chars, 3)));
        assert(box_egc_bytes(chars, 4) == egc_bytes(nth_egc_rest(chars, 4)));
        assert(box_egc_bytes(chars, 5) == egc_bytes(nth_egc_rest(chars, 5)));
        lemma_box_cell_stable(*ul, chars, pool0, 1, 6);
        lemma_box_cell_stable(*ur, chars, pool0, 2, 6);
        lemma_box_cell_stable(*ll, chars, pool0, 3, 6);
        lemma_box_cell_stable(*lr, chars, pool0, 4, 6);
        lemma_box_cell_stable(*hl, chars, pool0, 5, 6);
        lemma_box_cell_stable(*vl, chars, pool0, 6, 6);
    }
    Ok(())
}


// ---------------------------------------------------------------------------
// Preset glyph sets.
// ---------------------------------------------------------------------------

/// What a preset box loader leaves in a cell: the given style and channels,
/// and the one glyph, stored inline in a cell well formed against the
/// plane's pool.
pub open spec fn box_glyph_cell(
    cell: NcCell,
    glyph: char,
    style: NcStyle,
    channels: NcChannels,
    pool: Seq<u8>,
) -> bool {
    &&& cell.stylemask == style & NCSTYLE_MASK
    &&& cell.channels == channels
    &&& cell.backstop == 0
    &&& cell.width == (if cp_width(glyph as u32) <= 1 {
        0u8
    } else {
        cp_width(glyph as u32) as u8
    })
    &&& !cell_indirect(cell.gcluster)
    &&& inline_bytes(cell.gcluster) == encode_scalar(glyph as u32)
    &&& nccell_wf(cell, pool)
}

/// A six-character string of plain glyphs splits into six single-character
/// clusters, none of which can spill into the pool.
proof fn lemma_box_glyph_string(chars: Seq<char>, pool: Seq<u8>)
    requires
        chars.len() == 6,
        all_plain_chars(chars),
    ensures
        box_has_six(chars),
        box_ok(chars, pool.len() as int),
        box_pool_after(chars, pool, 6) == pool,
        forall|k: int|
            0 <= k < 6 ==> #[trigger] box_egc_bytes(chars, k) == encode_scalar(chars[k] as u32),
        forall|k: int| 0 <= k < 6 ==> !(#[trigger] box_spill(chars, k)),
        forall|k: int|
            0 <= k < 6 ==> #[trigger] egc_stored_width(nth_egc_rest(chars, k)) == (if cp_width(
                chars[k] as u32,
            ) <= 1 {
                0u8
            } else {
                cp_width(chars[k] as u32) as u8
            }),
{
    assert forall|k: int| 0 <= k < 6 implies egc_char_count(#[trigger] nth_egc_rest(chars, k)) == 1
        && box_egc_bytes(chars, k) == encode_scalar(chars[k] as u32) && !box_spill(chars, k)
        && egc_stored_width(nth_egc_rest(chars, k)) == (if cp_width(chars[k] as u32) <= 1 {
        0u8
    } else {
        cp_width(chars[k] as u32) as u8
    }) && egc_valid(nth_egc_rest(chars, k)) by {
        lemma_plain_rest(chars, k);
        lemma_plain_step(chars.skip(k));
        assert(chars.skip(k)[0] == chars[k]);
    }
    assert(box_growth(chars, 0) == 0);
    assert(box_growth(chars, 1) == 0);
    assert(box_growth(chars, 2) == 0);
    assert(box_growth(chars, 3) == 0);
    assert(box_growth(chars, 4) == 0);
    assert(box_growth(chars, 5) == 0);
    assert(box_pool_after(chars, pool, 0) == pool);
    assert(box_pool_after(chars, pool, 1) == pool);
    assert(box_pool_after(chars, pool, 2) == pool);
    assert(box_pool_after(chars, pool, 3) == pool);
    assert(box_pool_after(chars, pool, 4) == pool);
    assert(box_pool_after(chars, pool, 5) == pool);
    assert(box_pool_after(chars, pool, 6) == pool);
}

/// Derives the per-cell preset shape from the loader's postcondition.
proof fn lemma_box_glyph_cell(
    cell: NcCell,
    chars: Seq<char>,
    k: int,
    style: NcStyle,
    channels: NcChannels,
    pool: Seq<u8>,
)
    requires
        0 <= k < 6,
        chars.len() == 6,
        all_plain_chars(chars),
        box_cell_ok(cell, chars, k, style, channels, pool),
    ensures
        box_glyph_cell(cell, chars[k], style, channels, pool),
{
    lemma_plain_rest(chars, k);
    lemma_plain_step(chars.skip(k));
    assert(chars.skip(k)[0] == chars[k]);
}


/// Loads the six cells with the ASCII box glyphs. The glyphs all fit the
/// inline slot, so this always succeeds and never touches the pool.
pub fn nccells_ascii_box(
    plane: &mut NcPlane,
    style: NcStyle,
    channels: NcChannels,
    ul: &mut NcCell,
    ur: &mut NcCell,
    ll: &mut NcCell,
    lr: &mut NcCell,
    hl: &mut NcCell,
    vl: &mut NcCell,
) -> (r: Result<(), NcError>)
    ensures
        r is Ok,
        final(plane).egcpool() == old(plane).egcpool(),
        box_glyph_cell(*final(ul), '/', style, channels, final(plane).egcpool()),
        box_glyph_cell(*final(ur), '\\', style, channels, final(plane).egcpool()),
        box_glyph_cell(*final(ll), '\\', style, channels, final(plane).egcpool()),
        box_glyph_cell(*final(lr), '/', style, channels, final(plane).egcpool()),
        box_glyph_cell(*final(hl), '-', style, channels, final(plane).egcpool()),
        box_glyph_cell(*final(vl), '|', style, channels, final(plane).egcpool()),
{
    let glyphs = "/\\\\/-|";
    proof {
        reveal_strlit("/\\\\/-|");
        assert(glyphs@.len() == 6);
        assert(glyphs@[0] == '/' && glyphs@[1] == '\\' && glyphs@[2] == '\\' && glyphs@[3] == '/' && glyphs@[4] == '-' && glyphs@[5] == '|');
        assert(all_plain_chars(glyphs@));
        lemma_box_glyph_string(glyphs@, plane.egcpool());
    }
    let r = nccells_load_box(plane, style, channels, ul, ur, ll, lr, hl, vl, glyphs);
    proof {
        lemma_box_glyph_cell(*ul, glyphs@, 0, style, channels, plane.egcpool());
        lemma_box_glyph_cell(*ur, glyphs@, 1, style, channels, plane.egcpool());
        lemma_box_glyph_cell(*ll, glyphs@, 2, style, channels, plane.egcpool());
        lemma_box_glyph_cell(*lr, glyphs@, 3, style, channels, plane.egcpool());
        lemma_box_glyph_cell(*hl, glyphs@, 4, style, channels, plane.egcpool());
        lemma_box_glyph_cell(*vl, glyphs@, 5, style, channels, plane.egcpool());
    }
    r
}

/// Loads the six cells with the light line box glyphs. The glyphs all fit the
/// inline slot, so this always succeeds and never touches the pool.
pub fn nccells_light_box(
    plane: &mut NcPlane,
    style: NcStyle,
    channels: NcChannels,
    ul: &mut NcCell,
    ur: &mut NcCell,
    ll: &mut NcCell,
    lr: &mut NcCell,
    hl: &mut NcCell,
    vl: &mut NcCell,
) -> (r: Result<(), NcError>)
    ensures
        r is Ok,
        final(plane).egcpool() == old(plane).egcpool(),
        box_glyph_cell(*final(ul), '┌', style, channels, final(plane).egcpool()),
        box_glyph_cell(*final(ur), '┐', style, channels, final(plane).egcpool()),
        box_glyph_cell(*final(ll), '└', style, channels, final(plane).egcpool()),
        box_glyph_cell(*final(lr), '┘', style, channels, final(plane).egcpool()),
        box_glyph_cell(*final(hl), '─', style, channels, final(plane).egcpool()),
        box_glyph_cell(*final(vl), '│', style, channels, final(plane).egcpool()),
{
    let glyphs = "┌┐└┘─│";
    proof {
        reveal_strlit("┌┐└┘─│");
        assert(glyphs@.len() == 6);
        assert(glyphs@[0] == '┌' && glyphs@[1] == '┐' && glyphs@[2] == '└' && glyphs@[3] == '┘' && glyphs@[4] == '─' && glyphs@[5] == '│');
        assert(all_plain_chars(glyphs@));
        lemma_box_glyph_string(glyphs@, plane.egcpool());
    }
    let r = nccells_load_box(plane, style, channels, ul, ur, ll, lr, hl, vl, glyphs);
    proof {
        lemma_box_glyph_cell(*ul, glyphs@, 0, style, channels, plane.egcpool());
        lemma_box_glyph_cell(*ur, glyphs@, 1, style, channels, plane.egcpool());
        lemma_box_glyph_cell(*ll, glyphs@, 2, style, channels, plane.egcpool());
        lemma_box_glyph_cell(*lr, glyphs@, 3, style, channels, plane.egcpool());
        lemma_box_glyph_cell(*hl, glyphs@, 4, style, channels, plane.egcpool());
        lemma_box_glyph_cell(*vl, glyphs@, 5, style, channels, plane.egcpool());
    }
    r
}

/// Loads the six cells with the heavy line box glyphs. The glyphs all fit the
/// inline slot, so this always succeeds and never touches the pool.
pub fn nccells_heavy_box(
    plane: &mut NcPlane,
    style: NcStyle,
    channels: NcChannels,
    ul: &mut NcCell,
    ur: &mut NcCell,
    ll: &mut NcCell,
    lr: &mut NcCell,
    hl: &mut NcCell,
    vl: &mut NcCell,
) -> (r: Result<(), NcError>)
    ensures
        r is Ok,
        final(plane).egcpool() == old(plane).egcpool(),
        box_glyph_cell(*final(ul), '┏', style, channels, final(plane).egcpool()),
        box_glyph_cell(*final(ur), '┓', style, channels, final(plane).egcpool()),
        box_glyph_cell(*final(ll), '┗', style, channels, final(plane).egcpool()),
        box_glyph_cell(*final(lr), '┛', style, channels, final(plane).egcpool()),
        box_glyph_cell(*final(hl), '━', style, channels, final(plane).egcpool()),
        box_glyph_cell(*final(vl), '┃', style, channels, final(plane).egcpool()),
{
    let glyphs = "┏┓┗┛━┃";
    proof {
        reveal_strlit("┏┓┗┛━┃");
        assert(glyphs@.len() == 6);
        assert(glyphs@[0] == '┏' && glyphs@[1] == '┓' && glyphs@[2] == '┗' && glyphs@[3] == '┛' && glyphs@[4] == '━' && glyphs@[5] == '┃');
        assert(all_plain_chars(glyphs@));
        lemma_box_glyph_string(glyphs@, plane.egcpool());
    }
    let r = nccells_load_box(plane, style, channels, ul, ur, ll, lr, hl, vl, glyphs);
    proof {
        lemma_box_glyph_cell(*ul, glyphs@, 0, style, channels, plane.egcpool());
        lemma_box_glyph_cell(*ur, glyphs@, 1, style, channels, plane.egcpool());
        lemma_box_glyph_cell(*ll, glyphs@, 2, style, channels, plane.egcpool());
        lemma_box_glyph_cell(*lr, glyphs@, 3, style, channels, plane.egcpool());
        lemma_box_glyph_cell(*hl, glyphs@, 4, style, channels, plane.egcpool());
        lemma_box_glyph_cell(*vl, glyphs@, 5, style, channels, plane.egcpool());
    }
    r
}

/// Loads the six cells with the rounded corner box glyphs. The glyphs all fit the
/// inline slot, so this always succeeds and never touches the pool.
pub fn nccells_rounded_box(
    plane: &mut NcPlane,
    style: NcStyle,
    channels: NcChannels,
    ul: &mut NcCell,
    ur: &mut NcCell,
    ll: &mut NcCell,
    lr: &mut NcCell,
    hl: &mut NcCell,
    vl: &mut NcCell,
) -> (r: Result<(), NcError>)
    ensures
        r is Ok,
        final(plane).egcpool() == old(plane).egcpool(),
        box_glyph_cell(*final(ul), '╭', style, channels, final(plane).egcpool()),
        box_glyph_cell(*final(ur), '╮', style, channels, final(plane).egcpool()),
        box_glyph_cell(*final(ll), '╰', style, channels, final(plane).egcpool()),
        box_glyph_cell(*final(lr), '╯', style, channels, final(plane).egcpool()),
        box_glyph_cell(*final(hl), '─', style, channels, final(plane).egcpool()),
        box_glyph_cell(*final(vl), '│', style, channels, final(plane).egcpool()),
{
    let glyphs = "╭╮╰╯─│";
    proof {
        reveal_strlit("╭╮╰╯─│");
        assert(glyphs@.len() == 6);
        assert(glyphs@[0] == '╭' && glyphs@[1] == '╮' && glyphs@[2] == '╰' && glyphs@[3] == '╯' && glyphs@[4] == '─' && glyphs@[5] == '│');
        assert(all_plain_chars(glyphs@));
        lemma_box_glyph_string(glyphs@, plane.egcpool());
    }
    let r = nccells_load_box(plane, style, channels, ul, ur, ll, lr, hl, vl, glyphs);
    proof {
        lemma_box_glyph_cell(*ul, glyphs@, 0, style, channels, plane.egcpool());
        lemma_box_glyph_cell(*ur, glyphs@, 1, style, channels, plane.egcpool());
        lemma_box_glyph_cell(*ll, glyphs@, 2, style, channels, plane.egcpool());
        lemma_box_glyph_cell(*lr, glyphs@, 3, style, channels, plane.egcpool());
        lemma_box_glyph_cell(*hl, glyphs@, 4, style, channels, plane.egcpool());
        lemma_box_glyph_cell(*vl, glyphs@, 5, style, channels, plane.egcpool());
    }
    r
}

/// Loads the six cells with the double line box glyphs. The glyphs all fit the
/// inline slot, so this always succeeds and never touches the pool.
pub fn nccells_double_box(
    plane: &mut NcPlane,
    style: NcStyle,
    channels: NcChannels,
    ul: &mut NcCell,
    ur: &mut NcCell,
    ll: &mut NcCell,
    lr: &mut NcCell,
    hl: &mut NcCell,
    vl: &mut NcCell,
) -> (r: Result<(), NcError>)
    ensures
        r is Ok,
        final(plane).egcpool() == old(plane).egcpool(),
        box_glyph_cell(*final(ul), '╔', style, channels, final(plane).egcpool()),
        box_glyph_cell(*final(ur), '╗', style, channels, final(plane).egcpool()),
        box_glyph_cell(*final(ll), '╚', style, channels, final(plane).egcpool()),
        box_glyph_cell(*final(lr), '╝', style, channels, final(plane).egcpool()),
        box_glyph_cell(*final(hl), '═', style, channels, final(plane).egcpool()),
        box_glyph_cell(*final(vl), '║', style, channels, final(plane).egcpool()),
{
    let glyphs = "╔╗╚╝═║";
    proof {
        reveal_strlit("╔╗╚╝═║");
        assert(glyphs@.len() == 6);
        assert(glyphs@[0] == '╔' && glyphs@[1] == '╗' && glyphs@[2] == '╚' && glyphs@[3] == '╝' && glyphs@[4] == '═' && glyphs@[5] == '║');
        assert(all_plain_chars(glyphs@));
        lemma_box_glyph_string(glyphs@, plane.egcpool());
    }
    let r = nccells_load_box(plane, style, channels, ul, ur, ll, lr, hl, vl, glyphs);
    proof {
        lemma_box_glyph_cell(*ul, glyphs@, 0, style, channels, plane.egcpool());
        lemma_box_glyph_cell(*ur, glyphs@, 1, style, channels, plane.egcpool());
        lemma_box_glyph_cell(*ll, glyphs@, 2, style, channels, plane.egcpool());
        lemma_box_glyph_cell(*lr, glyphs@, 3, style, channels, plane.egcpool());
        lemma_box_glyph_cell(*hl, glyphs@, 4, style, channels, plane.egcpool());
        lemma_box_glyph_cell(*vl, glyphs@, 5, style, channels, plane.egcpool());
    }
    r
}

} // verus!
