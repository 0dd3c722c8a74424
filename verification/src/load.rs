//! Loading grapheme clusters into cells, and the operations that resolve a
//! cell's cluster back out of it: duplication, extraction, comparison and
//! release.
//!
//! A load stores the first cluster of its input inline when its encoding
//! fits the 4-byte slot, and otherwise appends it, NUL-terminated, to the
//! owning plane's pool and stores the sentinel-tagged offset. A failed
//! operation mutates nothing.

use vstd::prelude::*;

use vstd::string::StrSliceExecFns;
use vstd::utf8::{decode_utf8, encode_utf8, valid_utf8};

use crate::cell::{
    cell_indirect, cell_pool_offset, gcluster_byte, inline_bytes, inline_len, nccell_egc_bytes,
    nccell_init, nccell_wf, nccell_zero, NcCell,
};
use crate::egc::{
    egc_byte_len, egc_bytes, egc_char_count, egc_scan, egc_take, egc_valid, egc_width,
    lemma_egc_bytes_shape, lemma_egc_char_count_bounds, lemma_encode_utf8_take,
};
use crate::plane::{
    lemma_pool_entry_extend, lemma_pool_entry_fresh, string_from_utf8_bytes, NcPlane,
};
use crate::types::{NcChannels, NcError, NcStyle, NCSTYLE_MASK};

verus! {

broadcast use vstd::utf8::encode_utf8_valid_utf8, vstd::utf8::decode_utf8_encode_utf8, vstd::utf8::encode_utf8_decode_utf8;

/// What a load stores in the cell's width field: 0 for a cluster of at most
/// one column, else the column count.
pub open spec fn egc_stored_width(chars: Seq<char>) -> u8 {
    if egc_width(chars) <= 1 {
        0
    } else {
        egc_width(chars) as u8
    }
}

/// What a successful load leaves behind: the cell resolves to the input's
/// first cluster, indirect exactly when the cluster outgrows the 4-byte
/// slot, and the pool is extended by the new entry alone — or untouched.
pub open spec fn load_result_wf(
    cell: NcCell,
    pool0: Seq<u8>,
    pool1: Seq<u8>,
    chars: Seq<char>,
) -> bool {
    &&& cell.backstop == 0
    &&& cell.width == egc_stored_width(chars)
    &&& cell_indirect(cell.gcluster) == (egc_byte_len(chars) > 4)
    &&& nccell_wf(cell, pool1)
    &&& nccell_egc_bytes(cell, pool1) == egc_bytes(chars)
    &&& (egc_byte_len(chars) <= 4 ==> pool1 == pool0)
    &&& (egc_byte_len(chars) > 4 ==> pool1 == pool0 + egc_bytes(chars).push(0))
    &&& (egc_byte_len(chars) > 4 ==> cell_pool_offset(cell.gcluster) == pool0.len())
}

/// Packs at most four non-NUL bytes into a direct grapheme slot, zero
/// padded.
fn egc_pack_inline(bytes: &Vec<u8>) -> (gcluster: u32)
    requires
        bytes@.len() <= 4,
        forall|k: int| 0 <= k < bytes@.len() ==> bytes@[k] != 0,
    ensures
        inline_len(gcluster) == bytes@.len(),
        inline_bytes(gcluster) == bytes@,
        forall|k: int| inline_len(gcluster) <= k < 4 ==> gcluster_byte(gcluster, k) == 0,
        bytes@.len() == 0 ==> gcluster == 0,
        gcluster & 0xff == (if bytes@.len() == 0 {
            0
        } else {
            bytes@[0] as u32
        }),
{
    let n = bytes.len();
    let b0: u32 = if n > 0 {
        bytes[0] as u32
    } else {
        0
    };
    let b1: u32 = if n > 1 {
        bytes[1] as u32
    } else {
        0
    };
    let b2: u32 = if n > 2 {
        bytes[2] as u32
    } else {
        0
    };
    let b3: u32 = if n > 3 {
        bytes[3] as u32
    } else {
        0
    };
    let g: u32 = b0 | (b1 << 8) | (b2 << 16) | (b3 << 24);
    proof {
        assert(b0 < 256 && b1 < 256 && b2 < 256 && b3 < 256 ==> ((b0 | (b1 << 8) | (b2 << 16) | (
        b3 << 24)) & 0xff == b0 && ((b0 | (b1 << 8) | (b2 << 16) | (b3 << 24)) >> 8) & 0xff == b1
            && ((b0 | (b1 << 8) | (b2 << 16) | (b3 << 24)) >> 16) & 0xff == b2 && ((b0 | (b1 << 8)
            | (b2 << 16) | (b3 << 24)) >> 24) & 0xff == b3)) by (bit_vector);
        assert((0u32 | (0u32 << 8) | (0u32 << 16) | (0u32 << 24)) == 0) by (bit_vector);
        assert(gcluster_byte(g, 0) as u32 == b0 && gcluster_byte(g, 1) as u32 == b1
            && gcluster_byte(g, 2) as u32 == b2 && gcluster_byte(g, 3) as u32 == b3);
        assert(inline_bytes(g) =~= bytes@);
    }
    g
}

/// Reads the bytes of a direct grapheme slot back out.
fn cell_inline_vec(gcluster: u32) -> (bytes: Vec<u8>)
    ensures
        bytes@ == inline_bytes(gcluster),
{
    let g = gcluster;
    proof {
        assert((g & 0xff) < 256 && ((g >> 8) & 0xff) < 256 && ((g >> 16) & 0xff) < 256 && ((g
            >> 24) & 0xff) < 256) by (bit_vector);
    }
    let mut bytes: Vec<u8> = Vec::new();
    let b0 = (g & 0xff) as u8;
    if b0 == 0 {
        proof {
            assert(inline_bytes(g) =~= bytes@);
        }
        return bytes;
    }
    bytes.push(b0);
    let b1 = ((g >> 8) & 0xff) as u8;
    if b1 == 0 {
        proof {
            assert(inline_bytes(g) =~= bytes@);
        }
        return bytes;
    }
    bytes.push(b1);
    let b2 = ((g >> 16) & 0xff) as u8;
    if b2 == 0 {
        proof {
            assert(inline_bytes(g) =~= bytes@);
        }
        return bytes;
    }
    bytes.push(b2);
    let b3 = ((g >> 24) & 0xff) as u8;
    if b3 == 0 {
        proof {
            assert(inline_bytes(g) =~= bytes@);
        }
        return bytes;
    }
    bytes.push(b3);
    proof {
        assert(inline_bytes(g) =~= bytes@);
    }
    bytes
}

/// Loads the first grapheme cluster of `egc` into the cell, leaving style
/// and channels untouched, and returns the number of bytes consumed.
///
/// The cluster is stored inline when its encoding is at most four bytes;
/// otherwise it is appended to the plane's pool, NUL-terminated, and the
/// cell stores the tagged 24-bit offset. The load fails with
/// `InvalidGrapheme` exactly when the cluster holds the reserved codepoint
/// U+0001, and with `PoolOverflow` exactly when a pool entry would be needed
/// and the pool has outgrown the 24-bit offset range; a failed load changes
/// neither the cell nor the pool.
pub fn nccell_load(plane: &mut NcPlane, cell: &mut NcCell, egc: &str) -> (r: Result<usize, NcError>)
    ensures
        match r {
            Ok(n) => {
                &&& egc_valid(egc@)
                &&& n == egc_byte_len(egc@)
                &&& load_result_wf(
                    *final(cell),
                    old(plane).egcpool(),
                    final(plane).egcpool(),
                    egc@,
                )
                &&& final(cell).stylemask == old(cell).stylemask
                &&& final(cell).channels == old(cell).channels
            },
            Err(e) => {
                &&& *final(cell) == *old(cell)
                &&& final(plane).egcpool() == old(plane).egcpool()
                &&& (e == NcError::InvalidGrapheme <==> !egc_valid(egc@))
                &&& (e == NcError::PoolOverflow ==> egc_valid(egc@) && egc_byte_len(egc@) > 4
                    && old(plane).egcpool().len() > 0xffffff)
            },
        },
        r is Err <==> (!egc_valid(egc@) || (egc_byte_len(egc@) > 4 && old(
            plane,
        ).egcpool().len() > 0xffffff)),
{
    let ghost chars = egc@;
    let scanned = match egc_scan(egc) {
        Ok(p) => p,
        Err(e) => {
            return Err(e);
        },
    };
    let nbytes = scanned.0;
    let width = scanned.1;
    proof {
        lemma_egc_char_count_bounds(chars);
        lemma_encode_utf8_take(chars, egc_char_count(chars));
        lemma_egc_bytes_shape(chars);
    }
    let all = egc.as_bytes_vec();
    let mut cluster: Vec<u8> = Vec::new();
    let mut i: usize = 0;
    while i < nbytes
        invariant
            i <= nbytes <= all@.len(),
            all@ == encode_utf8(chars),
            cluster@ == all@.subrange(0, i as int),
        decreases nbytes - i,
    {
        let b = all[i];
        cluster.push(b);
        proof {
            assert(all@.subrange(0, i as int).push(all@[i as int]) =~= all@.subrange(
                0,
                i as int + 1,
            ));
        }
        i = i + 1;
    }
    proof {
        assert(cluster@ =~= egc_bytes(chars));
    }
    let swidth: u8 = if width <= 1 {
        0
    } else {
        width as u8
    };
    if nbytes <= 4 {
        let g = egc_pack_inline(&cluster);
        proof {
            if cluster@.len() > 0 {
                assert(cluster@[0] != 1);
            }
            assert(0u32 & 0xffu32 == 0 && 1u32 != 0u32) by (bit_vector);
        }
        cell.gcluster = g;
        cell.backstop = 0;
        cell.width = swidth;
        Ok(nbytes)
    } else {
        let plen = plane.pool_len();
        if plen > 0xffffff {
            return Err(NcError::PoolOverflow);
        }
        let off = plane.pool_stash(&cluster);
        let offu: u32 = off as u32;
        let g: u32 = 1 | (offu << 8);
        proof {
            assert(offu <= 0xffffff ==> ((1u32 | (offu << 8)) & 0xff == 1 && ((1u32 | (offu
                << 8)) >> 8) == offu)) by (bit_vector);
            lemma_pool_entry_fresh(old(plane).egcpool(), cluster@);
        }
        cell.gcluster = g;
        cell.backstop = 0;
        cell.width = swidth;
        Ok(nbytes)
    }
}

/// Loads like [`nccell_load`], but first unconditionally overwrites the
/// cell's style mask (reserved bits masked off) and channels with the given
/// values. The style and channels are overwritten even when the load itself
/// then fails; the grapheme slot and width are mutated only on success.
pub fn nccell_prime(
    plane: &mut NcPlane,
    cell: &mut NcCell,
    gcluster: &str,
    style: NcStyle,
    channels: NcChannels,
) -> (r: Result<usize, NcError>)
    ensures
        final(cell).stylemask == style & NCSTYLE_MASK,
        final(cell).channels == channels,
        match r {
            Ok(n) => {
                &&& egc_valid(gcluster@)
                &&& n == egc_byte_len(gcluster@)
                &&& load_result_wf(
                    *final(cell),
                    old(plane).egcpool(),
                    final(plane).egcpool(),
                    gcluster@,
                )
            },
            Err(e) => {
                &&& final(cell).gcluster == old(cell).gcluster
                &&& final(cell).backstop == old(cell).backstop
                &&& final(cell).width == old(cell).width
                &&& final(plane).egcpool() == old(plane).egcpool()
                &&& (e == NcError::InvalidGrapheme <==> !egc_valid(gcluster@))
                &&& (e == NcError::PoolOverflow ==> egc_valid(gcluster@) && egc_byte_len(
                    gcluster@,
                ) > 4 && old(plane).egcpool().len() > 0xffffff)
            },
        },
        r is Err <==> (!egc_valid(gcluster@) || (egc_byte_len(gcluster@) > 4 && old(
            plane,
        ).egcpool().len() > 0xffffff)),
{
    cell.stylemask = style & NCSTYLE_MASK;
    cell.channels = channels;
    nccell_load(plane, cell, gcluster)
}

/// Releases the cell: the pool itself is append-only and reclaims nothing,
/// so releasing only zeroes the cell back to its initial state.
pub fn nccell_release(plane: &mut NcPlane, cell: &mut NcCell)
    ensures
        *final(cell) == nccell_zero(),
        final(plane).egcpool() == old(plane).egcpool(),
{
    nccell_init(cell);
}

/// Resolves the cell's full grapheme text — inline or from the pool — into
/// an owned string, independent of the plane's lifetime.
pub fn nccell_strdup(plane: &NcPlane, cell: &NcCell) -> (egc: String)
    requires
        nccell_wf(*cell, plane.egcpool()),
    ensures
        egc@ == decode_utf8(nccell_egc_bytes(*cell, plane.egcpool())),
        encode_utf8(egc@) == nccell_egc_bytes(*cell, plane.egcpool()),
{
    let bytes = if cell.gcluster & 0xff == 1 {
        let off = (cell.gcluster >> 8) as usize;
        plane.pool_read(off)
    } else {
        cell_inline_vec(cell.gcluster)
    };
    assert(bytes@ == nccell_egc_bytes(*cell, plane.egcpool()));
    assert(valid_utf8(bytes@));
    string_from_utf8_bytes(bytes).unwrap()
}

/// What extraction returns: the style mask, the channels, and the resolved
/// grapheme text.
pub open spec fn nccell_extract_spec(cell: NcCell, pool: Seq<u8>) -> (NcStyle, NcChannels, Seq<
    char,
>) {
    (cell.stylemask, cell.channels, decode_utf8(nccell_egc_bytes(cell, pool)))
}

/// Copies the cell's style mask and channels into the given slots and
/// returns the resolved grapheme text; the cell itself is not mutated.
pub fn nccell_extract(
    plane: &NcPlane,
    cell: &NcCell,
    stylemask: &mut NcStyle,
    channels: &mut NcChannels,
) -> (egc: String)
    requires
        nccell_wf(*cell, plane.egcpool()),
    ensures
        *final(stylemask) == nccell_extract_spec(*cell, plane.egcpool()).0,
        *final(channels) == nccell_extract_spec(*cell, plane.egcpool()).1,
        egc@ == nccell_extract_spec(*cell, plane.egcpool()).2,
{
    *stylemask = cell.stylemask;
    *channels = cell.channels;
    nccell_strdup(plane, cell)
}

/// Law: extraction is repeatable — it mutates nothing, and any two results
/// it may return for the same cell and pool are the same triple.
pub proof fn lemma_extract_repeatable(
    cell: NcCell,
    pool: Seq<u8>,
    first: (NcStyle, NcChannels, Seq<char>),
    second: (NcStyle, NcChannels, Seq<char>),
)
    requires
        first == nccell_extract_spec(cell, pool),
        second == nccell_extract_spec(cell, pool),
    ensures
        first == second,
{
}

/// Are two cells different? They are when their style masks differ, their
/// channels differ, or their resolved grapheme bytes differ.
pub open spec fn nccellcmp_spec(c1: NcCell, pool1: Seq<u8>, c2: NcCell, pool2: Seq<u8>) -> bool {
    c1.stylemask != c2.stylemask || c1.channels != c2.channels || nccell_egc_bytes(c1, pool1)
        != nccell_egc_bytes(c2, pool2)
}

/// Byte-for-byte vector equality.
fn bytes_eq(a: &Vec<u8>, b: &Vec<u8>) -> (eq: bool)
    ensures
        eq == (a@ == b@),
{
    if a.len() != b.len() {
        return false;
    }
    let mut i: usize = 0;
    while i < a.len()
        invariant
            i <= a@.len(),
            a@.len() == b@.len(),
            forall|k: int| 0 <= k < i ==> a@[k] == b@[k],
        decreases a@.len() - i,
    {
        if a[i] != b[i] {
            return false;
        }
        i = i + 1;
    }
    proof {
        assert(a@ =~= b@);
    }
    true
}

/// Returns true when the two cells are different in style, channels or
/// resolved grapheme text. The cells may live on different planes and at
/// different pool offsets: only the resolved text is compared.
pub fn nccellcmp(plane1: &NcPlane, cell1: &NcCell, plane2: &NcPlane, cell2: &NcCell) -> (differ:
    bool)
    requires
        nccell_wf(*cell1, plane1.egcpool()),
        nccell_wf(*cell2, plane2.egcpool()),
    ensures
        differ == nccellcmp_spec(*cell1, plane1.egcpool(), *cell2, plane2.egcpool()),
{
    if cell1.stylemask != cell2.stylemask {
        return true;
    }
    if cell1.channels != cell2.channels {
        return true;
    }
    let bytes1 = if cell1.gcluster & 0xff == 1 {
        plane1.pool_read((cell1.gcluster >> 8) as usize)
    } else {
        cell_inline_vec(cell1.gcluster)
    };
    let bytes2 = if cell2.gcluster & 0xff == 1 {
        plane2.pool_read((cell2.gcluster >> 8) as usize)
    } else {
        cell_inline_vec(cell2.gcluster)
    };
    !bytes_eq(&bytes1, &bytes2)
}

/// Duplicates the cell: the copy carries the same style, channels and
/// width, and an independent grapheme representation — an indirect source's
/// text goes into a fresh pool entry, so the duplicate stays valid when the
/// source is later released.
pub fn nccell_duplicate(plane: &mut NcPlane, cell: &NcCell) -> (r: Result<NcCell, NcError>)
    requires
        nccell_wf(*cell, old(plane).egcpool()),
    ensures
        match r {
            Ok(dup) => {
                &&& dup.stylemask == cell.stylemask
                &&& dup.channels == cell.channels
                &&& dup.width == cell.width
                &&& dup.backstop == 0
                &&& cell_indirect(dup.gcluster) == cell_indirect(cell.gcluster)
                &&& (cell_indirect(cell.gcluster) ==> cell_pool_offset(dup.gcluster) == old(
                    plane,
                ).egcpool().len())
                &&& nccell_wf(dup, final(plane).egcpool())
                &&& nccell_egc_bytes(dup, final(plane).egcpool()) == nccell_egc_bytes(
                    *cell,
                    old(plane).egcpool(),
                )
                &&& nccell_wf(*cell, final(plane).egcpool())
                &&& nccell_egc_bytes(*cell, final(plane).egcpool()) == nccell_egc_bytes(
                    *cell,
                    old(plane).egcpool(),
                )
                &&& (!cell_indirect(cell.gcluster) ==> final(plane).egcpool() == old(
                    plane,
                ).egcpool())
                &&& (cell_indirect(cell.gcluster) ==> final(plane).egcpool() == old(
                    plane,
                ).egcpool() + nccell_egc_bytes(*cell, old(plane).egcpool()).push(0))
            },
            Err(e) => {
                &&& e == NcError::PoolOverflow
                &&& cell_indirect(cell.gcluster)
                &&& old(plane).egcpool().len() > 0xffffff
                &&& final(plane).egcpool() == old(plane).egcpool()
            },
        },
        r is Err <==> (cell_indirect(cell.gcluster) && old(plane).egcpool().len() > 0xffffff),
{
    if cell.gcluster & 0xff != 1 {
        return Ok(*cell);
    }
    let plen = plane.pool_len();
    if plen > 0xffffff {
        return Err(NcError::PoolOverflow);
    }
    let text = plane.pool_read((cell.gcluster >> 8) as usize);
    proof {
        crate::plane::lemma_nul_pos(plane.egcpool(), cell_pool_offset(cell.gcluster));
        lemma_pool_entry_fresh(plane.egcpool(), text@);
    }
    let off = plane.pool_stash(&text);
    let offu: u32 = off as u32;
    let g: u32 = 1 | (offu << 8);
    proof {
        assert(offu <= 0xffffff ==> ((1u32 | (offu << 8)) & 0xff == 1 && ((1u32 | (offu << 8))
            >> 8) == offu)) by (bit_vector);
        lemma_pool_entry_extend(old(plane).egcpool(), text@.push(0), cell_pool_offset(
            cell.gcluster,
        ));
    }
    Ok(
        NcCell {
            gcluster: g,
            backstop: 0,
            width: cell.width,
            stylemask: cell.stylemask,
            channels: cell.channels,
        },
    )
}

// ---------------------------------------------------------------------------
// Laws.
// ---------------------------------------------------------------------------

/// Law: a load round-trips. The bytes a load stores for a string decode to
/// exactly the string's first cluster; for a string that is entirely one
/// cluster they decode to the whole string, so resolving the cell afterward
/// returns exactly what was loaded, whether it was stored inline or spilled
/// into the pool.
pub proof fn lemma_egc_roundtrip(chars: Seq<char>)
    ensures
        decode_utf8(egc_bytes(chars)) == egc_take(chars),
        egc_char_count(chars) == chars.len() ==> decode_utf8(egc_bytes(chars)) == chars,
{
    lemma_egc_char_count_bounds(chars);
    if egc_char_count(chars) == chars.len() {
        assert(egc_take(chars) =~= chars);
    }
}

/// Law: appending to the pool invalidates no cell. A well-formed cell stays
/// well formed and resolves to the same bytes after any append, which is
/// why release — which never shrinks the pool — cannot disturb other cells.
pub proof fn lemma_wf_pool_extend(cell: NcCell, pool: Seq<u8>, ext: Seq<u8>)
    requires
        nccell_wf(cell, pool),
    ensures
        nccell_wf(cell, pool + ext),
        nccell_egc_bytes(cell, pool + ext) == nccell_egc_bytes(cell, pool),
{
    if cell_indirect(cell.gcluster) {
        lemma_pool_entry_extend(pool, ext, cell_pool_offset(cell.gcluster));
    }
}

/// Law: a duplicate is compare-equal to its source. A cell whose style,
/// channels and resolved bytes match the source's is not different from it,
/// and stays so however the source's plane and the duplicate's plane later
/// grow — in particular after the source is released, since release leaves
/// every pool untouched.
pub proof fn lemma_duplicate_compare(
    cell: NcCell,
    pool0: Seq<u8>,
    dup: NcCell,
    pool1: Seq<u8>,
)
    requires
        dup.stylemask == cell.stylemask,
        dup.channels == cell.channels,
        nccell_egc_bytes(dup, pool1) == nccell_egc_bytes(cell, pool0),
    ensures
        !nccellcmp_spec(cell, pool0, dup, pool1),
        !nccellcmp_spec(dup, pool1, cell, pool0),
{
}

} // verus!
