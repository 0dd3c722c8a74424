//! The drawing surface that owns the grapheme pool: an append-only byte
//! arena of NUL-terminated UTF-8 entries, addressed by 24-bit offsets.
//!
//! The pool never reclaims: releasing a cell only clears the cell itself.
//! Appending therefore preserves every existing entry, which is what keeps
//! duplicated cells valid when their source is released.

use vstd::prelude::*;

use vstd::utf8::{decode_utf8, valid_utf8};

verus! {

/// The index of the first NUL byte at or after `off`, or the pool's length
/// when there is none.
pub open spec fn nul_pos(pool: Seq<u8>, off: int) -> int
    decreases pool.len() - off,
{
    if off < 0 || off >= pool.len() {
        pool.len() as int
    } else if pool[off] == 0 {
        off
    } else {
        nul_pos(pool, off + 1)
    }
}

/// Does a NUL-terminated entry start at `off`?
pub open spec fn pool_has_entry(pool: Seq<u8>, off: int) -> bool {
    0 <= off <= pool.len() && nul_pos(pool, off) < pool.len()
}

/// The entry starting at `off`: its bytes up to, and excluding, the first
/// NUL.
pub open spec fn pool_entry(pool: Seq<u8>, off: int) -> Seq<u8> {
    pool.subrange(off, nul_pos(pool, off))
}

/// Where the first NUL lies: at or after `off`, at a NUL byte if inside the
/// pool, with nothing but non-NUL bytes before it.
pub proof fn lemma_nul_pos(pool: Seq<u8>, off: int)
    requires
        0 <= off <= pool.len(),
    ensures
        off <= nul_pos(pool, off) <= pool.len(),
        nul_pos(pool, off) < pool.len() ==> pool[nul_pos(pool, off)] == 0,
        forall|k: int| off <= k < nul_pos(pool, off) ==> pool[k] != 0,
    decreases pool.len() - off,
{
    if off < pool.len() && pool[off] != 0 {
        lemma_nul_pos(pool, off + 1);
    }
}

/// Appending to the pool leaves the first NUL after `off` where it was.
proof fn lemma_nul_pos_extend(pool: Seq<u8>, ext: Seq<u8>, off: int)
    requires
        0 <= off <= pool.len(),
        nul_pos(pool, off) < pool.len(),
    ensures
        nul_pos(pool + ext, off) == nul_pos(pool, off),
    decreases pool.len() - off,
{
    assert((pool + ext)[off] == pool[off]);
    if pool[off] != 0 {
        lemma_nul_pos_extend(pool, ext, off + 1);
    }
}

/// Appending to the pool moves no entry: the first NUL after `off` stays
/// where it was, so the entry at `off` resolves to the same bytes.
pub proof fn lemma_pool_entry_extend(pool: Seq<u8>, ext: Seq<u8>, off: int)
    requires
        pool_has_entry(pool, off),
    ensures
        pool_has_entry(pool + ext, off),
        pool_entry(pool + ext, off) == pool_entry(pool, off),
{
    lemma_nul_pos(pool, off);
    lemma_nul_pos_extend(pool, ext, off);
    assert(pool_entry(pool + ext, off) =~= pool_entry(pool, off));
}

/// A freshly appended NUL-terminated entry resolves to exactly the appended
/// bytes, provided none of them is NUL.
pub proof fn lemma_pool_entry_fresh(pool: Seq<u8>, bytes: Seq<u8>)
    requires
        forall|k: int| 0 <= k < bytes.len() ==> bytes[k] != 0,
    ensures
        pool_has_entry(pool + bytes.push(0), pool.len() as int),
        pool_entry(pool + bytes.push(0), pool.len() as int) == bytes,
{
    let stored = pool + bytes.push(0);
    lemma_nul_pos_fresh(stored, pool.len() as int, pool.len() as int);
    assert(nul_pos(stored, pool.len() as int) == pool.len() + bytes.len());
    assert(pool_entry(stored, pool.len() as int) =~= bytes);
}

/// Helper for [`lemma_pool_entry_fresh`]: walking from `i` within the fresh
/// entry finds the terminating NUL at its end.
proof fn lemma_nul_pos_fresh(stored: Seq<u8>, base: int, i: int)
    requires
        0 <= base <= i <= stored.len() - 1,
        stored.len() >= 1,
        stored[stored.len() - 1] == 0,
        forall|k: int| i <= k < stored.len() - 1 ==> stored[k] != 0,
    ensures
        nul_pos(stored, i) == stored.len() - 1,
    decreases stored.len() - i,
{
    if i < stored.len() - 1 {
        assert(stored[i] != 0);
        lemma_nul_pos_fresh(stored, base, i + 1);
        assert(nul_pos(stored, i) == nul_pos(stored, i + 1));
    } else {
        assert(stored[i] == 0);
        assert(nul_pos(stored, i) == i);
    }
}

/// A drawing surface: the owner of the grapheme pool.
///
/// A full drawing surface also carries a matrix of cells; this type keeps
/// only the part the cell encoding depends on, the pool.
pub struct NcPlane {
    pool: Vec<u8>,
}

impl NcPlane {
    /// The pool's bytes.
    pub closed spec fn egcpool(&self) -> Seq<u8> {
        self.pool@
    }

    /// A new surface with an empty grapheme pool.
    pub fn new() -> (plane: NcPlane)
        ensures
            plane.egcpool() == Seq::<u8>::empty(),
    {
        let plane = NcPlane { pool: Vec::new() };
        proof {
            assert(plane.egcpool() =~= Seq::<u8>::empty());
        }
        plane
    }

    /// The pool's current length in bytes.
    pub fn pool_len(&self) -> (len: usize)
        ensures
            len == self.egcpool().len(),
    {
        self.pool.len()
    }

    /// Appends `bytes` and a terminating NUL as a new pool entry, returning
    /// the entry's offset.
    pub fn pool_stash(&mut self, bytes: &Vec<u8>) -> (off: usize)
        ensures
            off == old(self).egcpool().len(),
            final(self).egcpool() == old(self).egcpool() + bytes@.push(0),
    {
        let off = self.pool.len();
        let mut i: usize = 0;
        while i < bytes.len()
            invariant
                i <= bytes@.len(),
                self.pool@ == old(self).pool@ + bytes@.subrange(0, i as int),
            decreases bytes@.len() - i,
        {
            let b = bytes[i];
            self.pool.push(b);
            proof {
                assert(old(self).pool@ + bytes@.subrange(0, i as int) + seq![bytes@[i as int]]
                    =~= old(self).pool@ + bytes@.subrange(0, i as int + 1));
            }
            i = i + 1;
        }
        self.pool.push(0);
        proof {
            assert(bytes@.subrange(0, bytes@.len() as int) =~= bytes@);
            assert(old(self).pool@ + bytes@ + seq![0u8] =~= old(self).pool@ + bytes@.push(0));
        }
        off
    }

    /// Reads the entry at `off`: its bytes up to the first NUL.
    pub fn pool_read(&self, off: usize) -> (bytes: Vec<u8>)
        requires
            pool_has_entry(self.egcpool(), off as int),
        ensures
            bytes@ == pool_entry(self.egcpool(), off as int),
    {
        let ghost pool = self.egcpool();
        let ghost end = nul_pos(pool, off as int);
        proof {
            lemma_nul_pos(pool, off as int);
        }
        let plen = self.pool.len();
        let mut bytes: Vec<u8> = Vec::new();
        let mut i: usize = off;
        loop
            invariant
                off <= i <= end < plen,
                plen == pool.len(),
                pool == self.egcpool(),
                end == nul_pos(pool, off as int),
                pool[end] == 0,
                forall|k: int| off <= k < end ==> pool[k] != 0,
                bytes@ == pool.subrange(off as int, i as int),
            ensures
                bytes@ == pool_entry(pool, off as int),
            decreases end - i,
        {
            let b = self.pool[i];
            if b == 0 {
                assert(i == end);
                break ;
            }
            bytes.push(b);
            proof {
                assert(pool.subrange(off as int, i as int).push(pool[i as int]) =~= pool.subrange(
                    off as int,
                    i as int + 1,
                ));
            }
            i = i + 1;
        }
        bytes
    }
}

/// Relies on `String::from_utf8`: it returns the string whose UTF-8
/// encoding is the given bytes, and fails exactly when they are not valid
/// UTF-8.
#[verifier::external_body]
pub(crate) fn string_from_utf8_bytes(bytes: Vec<u8>) -> (r: Option<String>)
    ensures
        r is Some <==> valid_utf8(bytes@),
        r matches Some(s) ==> s@ == decode_utf8(bytes@),
{
    String::from_utf8(bytes).ok()
}

} // verus!
