//! Extended grapheme clusters: a column-width table and the scanner that
//! finds the first cluster of a UTF-8 string.
//!
//! A cluster is one spacing codepoint followed by the codepoints it absorbs:
//! zero-width codepoints (combining marks, format controls, variation
//! selectors, emoji modifiers), zero-width joiners, and any codepoint that
//! directly follows a zero-width joiner. A NUL codepoint ends the scan, as a
//! C-string terminator would. The reserved codepoint U+0001 tags indirect
//! cells and may never occur inside a cluster.

use vstd::prelude::*;

use vstd::string::StrSliceExecFns;
use vstd::utf8::{decode_utf8, encode_scalar, encode_utf8};

use crate::types::{NcError, NcIntResult};

verus! {

broadcast use vstd::utf8::char_is_scalar;

// ---------------------------------------------------------------------------
// The column-width table.
// ---------------------------------------------------------------------------

/// Is the codepoint zero-width? The table covers the principal combining-mark
/// blocks, format controls, variation selectors and the emoji skin-tone
/// modifiers.
pub open spec fn cp_zero_width(cp: u32) -> bool {
    ||| (0x0300 <= cp <= 0x036f)  // combining diacritical marks
    ||| (0x0483 <= cp <= 0x0489)  // Cyrillic combining marks
    ||| (0x0591 <= cp <= 0x05bd)  // Hebrew points
    ||| (0x0610 <= cp <= 0x061a)  // Arabic signs
    ||| (0x064b <= cp <= 0x065f)  // Arabic points
    ||| cp == 0x0670  // Arabic letter superscript alef
    ||| (0x06d6 <= cp <= 0x06dc)  // Arabic small high ligatures
    ||| (0x0730 <= cp <= 0x074a)  // Syriac points
    ||| (0x07a6 <= cp <= 0x07b0)  // Thaana points
    ||| cp == 0x0e31 || (0x0e34 <= cp <= 0x0e3a) || (0x0e47 <= cp <= 0x0e4e)  // Thai marks
    ||| (0x135d <= cp <= 0x135f)  // Ethiopic combining marks
    ||| (0x1ab0 <= cp <= 0x1aff)  // combining diacritical marks extended
    ||| (0x1dc0 <= cp <= 0x1dff)  // combining diacritical marks supplement
    ||| (0x200b <= cp <= 0x200f)  // zero-width space and joiners, marks
    ||| (0x202a <= cp <= 0x202e)  // bidirectional format controls
    ||| (0x2060 <= cp <= 0x2064)  // word joiner and invisible operators
    ||| (0x20d0 <= cp <= 0x20f0)  // combining marks for symbols
    ||| (0xa66f <= cp <= 0xa672)  // combining Cyrillic marks
    ||| cp == 0xfb1e  // Hebrew point judeo-spanish varika
    ||| (0xfe00 <= cp <= 0xfe0f)  // variation selectors
    ||| (0xfe20 <= cp <= 0xfe2f)  // combining half marks
    ||| cp == 0xfeff  // zero-width no-break space
    ||| (0x1f3fb <= cp <= 0x1f3ff)  // emoji skin-tone modifiers
    ||| (0xe0100 <= cp <= 0xe01ef)  // variation selectors supplement
}

/// Does the codepoint occupy two columns? The table covers the East Asian
/// wide and fullwidth blocks and the common wide emoji blocks.
pub open spec fn cp_wide(cp: u32) -> bool {
    ||| (0x1100 <= cp <= 0x115f)  // Hangul jamo initials
    ||| cp == 0x2329 || cp == 0x232a  // angle brackets
    ||| (0x2e80 <= cp <= 0xa4cf && cp != 0x303f)  // CJK and Yi
    ||| (0xac00 <= cp <= 0xd7a3)  // Hangul syllables
    ||| (0xf900 <= cp <= 0xfaff)  // CJK compatibility ideographs
    ||| (0xfe10 <= cp <= 0xfe19)  // vertical forms
    ||| (0xfe30 <= cp <= 0xfe6f)  // CJK compatibility forms
    ||| (0xff00 <= cp <= 0xff60)  // fullwidth forms
    ||| (0xffe0 <= cp <= 0xffe6)  // fullwidth signs
    ||| (0x1f300 <= cp <= 0x1f64f)  // pictographs and emoticons
    ||| (0x1f680 <= cp <= 0x1f6ff)  // transport symbols
    ||| (0x1f900 <= cp <= 0x1f9ff)  // supplemental symbols
    ||| (0x20000 <= cp <= 0x2fffd)  // CJK extensions
    ||| (0x30000 <= cp <= 0x3fffd)  // CJK extensions
}

/// The column width of one codepoint: 0, 1 or 2.
pub open spec fn cp_width(cp: u32) -> u32 {
    if cp_zero_width(cp) {
        0
    } else if cp_wide(cp) {
        2
    } else {
        1
    }
}

/// Is the codepoint zero-width? (Executable form of [`cp_zero_width`].)
pub fn egc_cp_zero_width(cp: u32) -> (zero: bool)
    ensures
        zero == cp_zero_width(cp),
{
    (0x0300 <= cp && cp <= 0x036f) || (0x0483 <= cp && cp <= 0x0489) || (0x0591 <= cp && cp
        <= 0x05bd) || (0x0610 <= cp && cp <= 0x061a) || (0x064b <= cp && cp <= 0x065f) || cp
        == 0x0670 || (0x06d6 <= cp && cp <= 0x06dc) || (0x0730 <= cp && cp <= 0x074a) || (0x07a6
        <= cp && cp <= 0x07b0) || cp == 0x0e31 || (0x0e34 <= cp && cp <= 0x0e3a) || (0x0e47 <= cp
        && cp <= 0x0e4e) || (0x135d <= cp && cp <= 0x135f) || (0x1ab0 <= cp && cp <= 0x1aff) || (
    0x1dc0 <= cp && cp <= 0x1dff) || (0x200b <= cp && cp <= 0x200f) || (0x202a <= cp && cp
        <= 0x202e) || (0x2060 <= cp && cp <= 0x2064) || (0x20d0 <= cp && cp <= 0x20f0) || (0xa66f
        <= cp && cp <= 0xa672) || cp == 0xfb1e || (0xfe00 <= cp && cp <= 0xfe0f) || (0xfe20 <= cp
        && cp <= 0xfe2f) || cp == 0xfeff || (0x1f3fb <= cp && cp <= 0x1f3ff) || (0xe0100 <= cp
        && cp <= 0xe01ef)
}

/// Does the codepoint occupy two columns? (Executable form of [`cp_wide`].)
pub fn egc_cp_wide(cp: u32) -> (wide: bool)
    ensures
        wide == cp_wide(cp),
{
    (0x1100 <= cp && cp <= 0x115f) || cp == 0x2329 || cp == 0x232a || (0x2e80 <= cp && cp <= 0xa4cf
        && cp != 0x303f) || (0xac00 <= cp && cp <= 0xd7a3) || (0xf900 <= cp && cp <= 0xfaff) || (
    0xfe10 <= cp && cp <= 0xfe19) || (0xfe30 <= cp && cp <= 0xfe6f) || (0xff00 <= cp && cp
        <= 0xff60) || (0xffe0 <= cp && cp <= 0xffe6) || (0x1f300 <= cp && cp <= 0x1f64f) || (
    0x1f680 <= cp && cp <= 0x1f6ff) || (0x1f900 <= cp && cp <= 0x1f9ff) || (0x20000 <= cp && cp
        <= 0x2fffd) || (0x30000 <= cp && cp <= 0x3fffd)
}

/// The column width of one codepoint. (Executable form of [`cp_width`].)
pub fn egc_cp_width(cp: u32) -> (width: u32)
    ensures
        width == cp_width(cp),
{
    if egc_cp_zero_width(cp) {
        0
    } else if egc_cp_wide(cp) {
        2
    } else {
        1
    }
}

// ---------------------------------------------------------------------------
// The cluster scan.
// ---------------------------------------------------------------------------

/// Is the character the zero-width joiner?
pub open spec fn is_zwj(c: char) -> bool {
    c as u32 == 0x200d
}

/// How many of the characters from position `i` on are absorbed into the
/// running cluster. `injoin` records whether the previous character was a
/// zero-width joiner, which exempts the next character from the width test.
pub open spec fn egc_absorb_from(chars: Seq<char>, i: int, injoin: bool) -> int
    decreases chars.len() - i,
{
    if i < 0 || i >= chars.len() {
        0
    } else if chars[i] as u32 == 0 {
        0
    } else if is_zwj(chars[i]) {
        1 + egc_absorb_from(chars, i + 1, true)
    } else if injoin {
        1 + egc_absorb_from(chars, i + 1, false)
    } else if cp_width(chars[i] as u32) == 0 {
        1 + egc_absorb_from(chars, i + 1, false)
    } else {
        0
    }
}

/// The number of characters in the first grapheme cluster of `chars`. A NUL
/// terminates the scan, so it is zero on an empty or NUL-led sequence.
pub open spec fn egc_char_count(chars: Seq<char>) -> int {
    if chars.len() == 0 || chars[0] as u32 == 0 {
        0
    } else {
        1 + egc_absorb_from(chars, 1, is_zwj(chars[0]))
    }
}

/// The characters of the first grapheme cluster.
pub open spec fn egc_take(chars: Seq<char>) -> Seq<char> {
    chars.take(egc_char_count(chars))
}

/// The UTF-8 bytes of the first grapheme cluster.
pub open spec fn egc_bytes(chars: Seq<char>) -> Seq<u8> {
    encode_utf8(egc_take(chars))
}

/// The encoded byte length of the first grapheme cluster.
pub open spec fn egc_byte_len(chars: Seq<char>) -> int {
    egc_bytes(chars).len() as int
}

/// Is the first grapheme cluster loadable, that is, free of the reserved
/// codepoint U+0001?
pub open spec fn egc_valid(chars: Seq<char>) -> bool {
    forall|k: int| 0 <= k < egc_char_count(chars) ==> chars[k] as u32 != 1
}

/// The column width of the first grapheme cluster: the width of its spacing
/// (first) codepoint.
pub open spec fn egc_width(chars: Seq<char>) -> u32 {
    if chars.len() == 0 || chars[0] as u32 == 0 {
        0
    } else {
        cp_width(chars[0] as u32)
    }
}

/// What remains of `chars` after its first grapheme cluster.
pub open spec fn egc_rest(chars: Seq<char>) -> Seq<char> {
    chars.skip(egc_char_count(chars))
}

/// What remains of `chars` after its first `k` grapheme clusters.
pub open spec fn nth_egc_rest(chars: Seq<char>, k: int) -> Seq<char>
    decreases k,
{
    if k <= 0 {
        chars
    } else {
        egc_rest(nth_egc_rest(chars, k - 1))
    }
}

/// The absorbed count is non-negative and within the remaining length.
pub proof fn lemma_egc_absorb_bounds(chars: Seq<char>, i: int, injoin: bool)
    requires
        0 <= i <= chars.len(),
    ensures
        0 <= egc_absorb_from(chars, i, injoin) <= chars.len() - i,
    decreases chars.len() - i,
{
    if i < chars.len() {
        lemma_egc_absorb_bounds(chars, i + 1, true);
        lemma_egc_absorb_bounds(chars, i + 1, false);
    }
}

/// The cluster's character count is non-negative and within the sequence.
pub proof fn lemma_egc_char_count_bounds(chars: Seq<char>)
    ensures
        0 <= egc_char_count(chars) <= chars.len(),
        chars.len() > 0 && chars[0] as u32 != 0 ==> 1 <= egc_char_count(chars),
{
    if chars.len() > 0 && chars[0] as u32 != 0 {
        lemma_egc_absorb_bounds(chars, 1, is_zwj(chars[0]));
    }
}

// ---------------------------------------------------------------------------
// Byte-length bookkeeping for UTF-8 encodings.
// ---------------------------------------------------------------------------

/// The encoded length of one scalar: 1, 2, 3 or 4 bytes.
pub open spec fn scalar_utf8_len(cp: u32) -> int {
    if cp <= 0x7f {
        1
    } else if cp <= 0x7ff {
        2
    } else if cp <= 0xffff {
        3
    } else {
        4
    }
}

/// `encode_scalar` produces exactly `scalar_utf8_len` bytes.
pub proof fn lemma_encode_scalar_len(c: char)
    ensures
        encode_scalar(c as u32).len() == scalar_utf8_len(c as u32),
{
}

/// Encoding distributes over concatenation.
pub proof fn lemma_encode_utf8_concat(a: Seq<char>, b: Seq<char>)
    ensures
        encode_utf8(a + b) == encode_utf8(a) + encode_utf8(b),
    decreases a.len(),
{
    if a.len() == 0 {
        assert(a + b =~= b);
        assert(encode_utf8(a) + encode_utf8(b) =~= encode_utf8(b));
    } else {
        assert((a + b).drop_first() =~= a.drop_first() + b);
        lemma_encode_utf8_concat(a.drop_first(), b);
        assert(encode_utf8(a + b) =~= encode_utf8(a) + encode_utf8(b));
    }
}

/// A one-character sequence encodes to that character's encoding.
pub proof fn lemma_encode_singleton(c: char)
    ensures
        encode_utf8(seq![c]) == encode_scalar(c as u32),
{
    let s1 = seq![c];
    assert(encode_utf8(s1) == encode_scalar(s1[0] as u32) + encode_utf8(s1.drop_first()));
    assert(s1.drop_first() =~= Seq::<char>::empty());
    assert(encode_utf8(Seq::<char>::empty()) =~= Seq::<u8>::empty());
    assert(encode_utf8(s1) =~= encode_scalar(c as u32));
}

/// Encoding one more character appends that character's encoding.
pub proof fn lemma_encode_utf8_push(chars: Seq<char>, c: char)
    ensures
        encode_utf8(chars.push(c)) == encode_utf8(chars) + encode_scalar(c as u32),
{
    lemma_encode_utf8_concat(chars, seq![c]);
    assert(chars.push(c) =~= chars + seq![c]);
    lemma_encode_singleton(c);
}

/// A prefix of the characters encodes to a prefix of the bytes.
pub proof fn lemma_encode_utf8_take(chars: Seq<char>, k: int)
    requires
        0 <= k <= chars.len(),
    ensures
        encode_utf8(chars.take(k)).len() <= encode_utf8(chars).len(),
        encode_utf8(chars) == encode_utf8(chars.take(k)) + encode_utf8(chars.skip(k)),
        encode_utf8(chars).subrange(0, encode_utf8(chars.take(k)).len() as int) == encode_utf8(
            chars.take(k),
        ),
{
    assert(chars =~= chars.take(k) + chars.skip(k));
    lemma_encode_utf8_concat(chars.take(k), chars.skip(k));
    assert(encode_utf8(chars).subrange(0, encode_utf8(chars.take(k)).len() as int) =~= encode_utf8(
        chars.take(k),
    ));
}

/// Taking one more character extends the encoded prefix by that character's
/// encoding.
pub proof fn lemma_encode_utf8_take_succ(chars: Seq<char>, k: int)
    requires
        0 <= k < chars.len(),
    ensures
        encode_utf8(chars.take(k + 1)) == encode_utf8(chars.take(k)) + encode_scalar(
            chars[k] as u32,
        ),
        encode_utf8(chars.take(k + 1)).len() == encode_utf8(chars.take(k)).len() + scalar_utf8_len(
            chars[k] as u32,
        ),
{
    assert(chars.take(k + 1) =~= chars.take(k).push(chars[k]));
    lemma_encode_utf8_push(chars.take(k), chars[k]);
    lemma_encode_scalar_len(chars[k]);
}

/// The executable byte length of one character's UTF-8 encoding.
pub fn char_utf8_len(c: char) -> (len: usize)
    ensures
        len == scalar_utf8_len(c as u32),
        len == encode_scalar(c as u32).len(),
        1 <= len <= 4,
{
    proof {
        lemma_encode_scalar_len(c);
    }
    let cp = c as u32;
    if cp <= 0x7f {
        1
    } else if cp <= 0x7ff {
        2
    } else if cp <= 0xffff {
        3
    } else {
        4
    }
}

/// The rest of a string after its first cluster encodes to the rest of the
/// string's encoding after the cluster's bytes.
pub proof fn lemma_egc_rest_bytes(chars: Seq<char>)
    ensures
        0 <= egc_byte_len(chars) <= encode_utf8(chars).len(),
        encode_utf8(egc_rest(chars)) == encode_utf8(chars).skip(egc_byte_len(chars)),
{
    lemma_egc_char_count_bounds(chars);
    lemma_encode_utf8_take(chars, egc_char_count(chars));
    assert(encode_utf8(chars).skip(egc_byte_len(chars)) =~= encode_utf8(egc_rest(chars)));
}

/// The end of an encoded character prefix is a character boundary of the
/// full encoding.
pub proof fn lemma_encode_prefix_boundary(chars: Seq<char>, k: int)
    requires
        0 <= k <= chars.len(),
    ensures
        vstd::utf8::is_char_boundary(
            encode_utf8(chars),
            encode_utf8(chars.take(k)).len() as int,
        ),
    decreases k,
{
    broadcast use vstd::utf8::encode_utf8_valid_utf8;

    let bytes = encode_utf8(chars);
    let idx = encode_utf8(chars.take(k)).len() as int;
    if k == 0 {
        assert(chars.take(0) =~= Seq::<char>::empty());
        assert(vstd::utf8::is_char_boundary(bytes, 0));
    } else {
        vstd::utf8::encode_utf8_first_scalar(chars);
        let head = encode_scalar(chars[0] as u32);
        let rest = chars.drop_first();
        assert(bytes == head + encode_utf8(rest));
        assert(vstd::utf8::pop_first_scalar(bytes) =~= encode_utf8(rest));
        lemma_encode_singleton(chars[0]);
        lemma_encode_utf8_concat(seq![chars[0]], rest.take(k - 1));
        assert(chars.take(k) =~= seq![chars[0]] + rest.take(k - 1));
        lemma_encode_utf8_take(chars, k);
        lemma_encode_prefix_boundary(rest, k - 1);
        assert(idx - vstd::utf8::length_of_first_scalar(bytes) == encode_utf8(
            rest.take(k - 1),
        ).len());
    }
}

// ---------------------------------------------------------------------------
// Shapes of cluster bytes.
// ---------------------------------------------------------------------------

/// The encoding of a codepoint other than U+0000 and U+0001 contains neither
/// the byte 0x00 nor the byte 0x01: an ASCII codepoint encodes as itself,
/// and every byte of a longer encoding is at least 0x80.
pub proof fn lemma_encode_scalar_bytes(c: char)
    requires
        c as u32 != 0,
        c as u32 != 1,
    ensures
        forall|k: int|
            0 <= k < encode_scalar(c as u32).len() ==> #[trigger] encode_scalar(c as u32)[k] != 0
                && encode_scalar(c as u32)[k] != 1,
{
    let cp = c as u32;
    assert((cp <= 0x7f && cp != 0 && cp != 1 ==> ((cp & 0x7F) as u8 != 0 && (cp & 0x7F) as u8
        != 1)) && (0xC0u8 | (((cp >> 6) & 0x1F) as u8)) >= 0xC0 && (0x80u8 | ((cp & 0x3F) as u8))
        >= 0x80 && (0x80u8 | (((cp >> 6) & 0x3F) as u8)) >= 0x80 && (0x80u8 | (((cp >> 12)
        & 0x3F) as u8)) >= 0x80 && (0xE0u8 | (((cp >> 12) & 0x0F) as u8)) >= 0xE0 && (0xF0u8 | (((
    cp >> 18) & 0x7) as u8)) >= 0xF0) by (bit_vector);
}

/// The encoding of characters free of U+0000 and U+0001 contains neither the
/// byte 0x00 nor the byte 0x01.
pub proof fn lemma_encode_utf8_bytes(cs: Seq<char>)
    requires
        forall|k: int| 0 <= k < cs.len() ==> (#[trigger] cs[k]) as u32 != 0 && cs[k] as u32 != 1,
    ensures
        forall|k: int|
            0 <= k < encode_utf8(cs).len() ==> #[trigger] encode_utf8(cs)[k] != 0 && encode_utf8(
                cs,
            )[k] != 1,
    decreases cs.len(),
{
    if cs.len() > 0 {
        lemma_encode_scalar_bytes(cs[0]);
        lemma_encode_utf8_bytes(cs.drop_first());
        let head = encode_scalar(cs[0] as u32);
        let tail = encode_utf8(cs.drop_first());
        assert(encode_utf8(cs) == head + tail);
        assert forall|k: int| 0 <= k < encode_utf8(cs).len() implies #[trigger] encode_utf8(cs)[k]
            != 0 && encode_utf8(cs)[k] != 1 by {
            if k < head.len() {
                assert(encode_utf8(cs)[k] == head[k]);
            } else {
                assert(encode_utf8(cs)[k] == tail[k - head.len()]);
            }
        }
    }
}

/// Every character absorbed into a cluster is non-NUL.
proof fn lemma_egc_absorb_nonzero(chars: Seq<char>, i: int, injoin: bool)
    requires
        0 <= i <= chars.len(),
    ensures
        forall|k: int|
            i <= k < i + egc_absorb_from(chars, i, injoin) ==> (#[trigger] chars[k]) as u32 != 0,
    decreases chars.len() - i,
{
    if i < chars.len() && chars[i] as u32 != 0 {
        lemma_egc_absorb_bounds(chars, i + 1, true);
        lemma_egc_absorb_bounds(chars, i + 1, false);
        lemma_egc_absorb_nonzero(chars, i + 1, true);
        lemma_egc_absorb_nonzero(chars, i + 1, false);
    }
}

/// Every character of the first cluster is non-NUL.
pub proof fn lemma_egc_chars_nonzero(chars: Seq<char>)
    ensures
        forall|k: int|
            0 <= k < egc_char_count(chars) ==> (#[trigger] chars[k]) as u32 != 0,
{
    if chars.len() > 0 && chars[0] as u32 != 0 {
        lemma_egc_absorb_nonzero(chars, 1, is_zwj(chars[0]));
    }
}

/// The bytes of a loadable cluster are never 0x00 nor the sentinel 0x01.
pub proof fn lemma_egc_bytes_shape(chars: Seq<char>)
    requires
        egc_valid(chars),
    ensures
        forall|k: int|
            0 <= k < egc_bytes(chars).len() ==> #[trigger] egc_bytes(chars)[k] != 0 && egc_bytes(
                chars,
            )[k] != 1,
{
    lemma_egc_char_count_bounds(chars);
    lemma_egc_chars_nonzero(chars);
    let cluster = egc_take(chars);
    assert(forall|k: int|
        0 <= k < cluster.len() ==> (#[trigger] cluster[k]) as u32 != 0 && cluster[k] as u32 != 1);
    lemma_encode_utf8_bytes(cluster);
}

// ---------------------------------------------------------------------------
// Sequences of plain spacing characters.
// ---------------------------------------------------------------------------

/// Are all characters plain: loadable spacing characters of positive width,
/// and not joiners? Box-drawing glyph tables are of this kind.
pub open spec fn all_plain_chars(chars: Seq<char>) -> bool {
    forall|j: int|
        0 <= j < chars.len() ==> (#[trigger] chars[j]) as u32 != 0 && chars[j] as u32 != 1
            && chars[j] as u32 != 0x200d && cp_width(chars[j] as u32) != 0
}

/// In a nonempty sequence of plain characters, the first cluster is exactly
/// the first character.
pub proof fn lemma_plain_step(chars: Seq<char>)
    requires
        all_plain_chars(chars),
        chars.len() > 0,
    ensures
        egc_char_count(chars) == 1,
        egc_take(chars) == seq![chars[0]],
        egc_bytes(chars) == encode_scalar(chars[0] as u32),
        egc_byte_len(chars) == scalar_utf8_len(chars[0] as u32),
        egc_rest(chars) == chars.skip(1),
        egc_valid(chars),
        egc_width(chars) == cp_width(chars[0] as u32),
{
    assert(egc_absorb_from(chars, 1, is_zwj(chars[0])) == 0);
    assert(egc_take(chars) =~= seq![chars[0]]);
    lemma_encode_singleton(chars[0]);
    lemma_encode_scalar_len(chars[0]);
    assert(egc_rest(chars) =~= chars.skip(1));
}

/// In a sequence of plain characters, dropping `k` clusters drops `k`
/// characters.
pub proof fn lemma_plain_rest(chars: Seq<char>, k: int)
    requires
        all_plain_chars(chars),
        0 <= k <= chars.len(),
    ensures
        nth_egc_rest(chars, k) == chars.skip(k),
        all_plain_chars(chars.skip(k)),
    decreases k,
{
    assert(all_plain_chars(chars.skip(k)));
    if k > 0 {
        lemma_plain_rest(chars, k - 1);
        lemma_plain_step(chars.skip(k - 1));
        assert(chars.skip(k - 1).skip(1) =~= chars.skip(k));
    }
}

// ---------------------------------------------------------------------------
// The executable scanner.
// ---------------------------------------------------------------------------

/// Scans the first grapheme cluster of `text`.
///
/// Returns the number of bytes the cluster occupies in `text`'s UTF-8
/// encoding and the cluster's column width; fails when the cluster holds the
/// reserved codepoint U+0001.
pub fn egc_scan(text: &str) -> (r: Result<(usize, u32), NcError>)
    ensures
        match r {
            Ok((nbytes, width)) => nbytes == egc_byte_len(text@) && width == egc_width(text@)
                && egc_valid(text@),
            Err(e) => e == NcError::InvalidGrapheme && !egc_valid(text@),
        },
{
    broadcast use vstd::string::group_string_axioms;

    let ghost chars = text@;
    let total_bytes = text.as_bytes().len();
    let n = text.unicode_len();
    if n == 0 {
        assert(egc_take(chars) =~= Seq::<char>::empty());
        return Ok((0, 0));
    }
    let c0 = text.get_char(0);
    let cp0 = c0 as u32;
    if cp0 == 0 {
        assert(egc_take(chars) =~= Seq::<char>::empty());
        return Ok((0, 0));
    }
    proof {
        lemma_egc_char_count_bounds(chars);
    }
    if cp0 == 1 {
        return Err(NcError::InvalidGrapheme);
    }
    let width = egc_cp_width(cp0);
    let mut count: usize = 1;
    let mut injoin: bool = cp0 == 0x200d;
    let mut nbytes: usize = char_utf8_len(c0);
    proof {
        assert(chars.take(1) =~= seq![chars[0]]);
        lemma_encode_utf8_take_succ(chars, 0);
        assert(chars.take(0) =~= Seq::<char>::empty());
        lemma_encode_utf8_take(chars, 1);
    }
    loop
        invariant
            1 <= count <= n,
            n == chars.len(),
            text@ == chars,
            total_bytes == encode_utf8(chars).len(),
            egc_char_count(chars) == count + egc_absorb_from(chars, count as int, injoin),
            forall|k: int| 0 <= k < count ==> chars[k] as u32 != 1,
            nbytes == encode_utf8(chars.take(count as int)).len(),
            nbytes <= total_bytes,
        ensures
            count as int == egc_char_count(chars),
            nbytes == encode_utf8(chars.take(count as int)).len(),
            forall|k: int| 0 <= k < count ==> chars[k] as u32 != 1,
        decreases n - count,
    {
        if count == n {
            proof {
                assert(egc_absorb_from(chars, count as int, injoin) == 0);
            }
            break ;
        }
        let c = text.get_char(count);
        let cp = c as u32;
        if cp == 0 {
            proof {
                assert(egc_absorb_from(chars, count as int, injoin) == 0);
            }
            break ;
        }
        let zwj = cp == 0x200d;
        let absorbed = zwj || injoin || egc_cp_width(cp) == 0;
        if !absorbed {
            proof {
                assert(egc_absorb_from(chars, count as int, injoin) == 0);
            }
            break ;
        }
        proof {
            assert(egc_absorb_from(chars, count as int, injoin) == 1 + egc_absorb_from(
                chars,
                count as int + 1,
                is_zwj(chars[count as int]),
            ));
            lemma_egc_char_count_bounds(chars);
        }
        if cp == 1 {
            proof {
                lemma_egc_absorb_bounds(chars, count as int + 1, is_zwj(chars[count as int]));
                assert(!egc_valid(chars)) by {
                    assert((count as int) < egc_char_count(chars));
                    assert(chars[count as int] as u32 == 1);
                }
            }
            return Err(NcError::InvalidGrapheme);
        }
        proof {
            lemma_encode_utf8_take_succ(chars, count as int);
            lemma_encode_utf8_take(chars, count as int + 1);
        }
        nbytes = nbytes + char_utf8_len(c);
        injoin = zwj;
        count = count + 1;
    }
    assert(count as int == egc_char_count(chars));
    Ok((nbytes, width))
}


// ---------------------------------------------------------------------------
// Whole-string width.
// ---------------------------------------------------------------------------

/// The total column count of a string: the sum of its clusters' widths,
/// scanning cluster by cluster until the end or a NUL.
pub open spec fn str_cols(chars: Seq<char>) -> int
    decreases chars.len(),
    via str_cols_decreases
{
    if chars.len() == 0 || chars[0] as u32 == 0 {
        0
    } else {
        egc_width(chars) + str_cols(egc_rest(chars))
    }
}

#[via_fn]
proof fn str_cols_decreases(chars: Seq<char>) {
    if !(chars.len() == 0 || chars[0] as u32 == 0) {
        lemma_egc_char_count_bounds(chars);
    }
}

/// Are all the string's clusters loadable, that is, free of the reserved
/// codepoint U+0001?
pub open spec fn str_clusters_valid(chars: Seq<char>) -> bool
    decreases chars.len(),
    via str_clusters_valid_decreases
{
    if chars.len() == 0 || chars[0] as u32 == 0 {
        true
    } else {
        egc_valid(chars) && str_clusters_valid(egc_rest(chars))
    }
}

#[via_fn]
proof fn str_clusters_valid_decreases(chars: Seq<char>) {
    if !(chars.len() == 0 || chars[0] as u32 == 0) {
        lemma_egc_char_count_bounds(chars);
    }
}

/// Returns the number of columns occupied by a string, or -1 when a cluster
/// holds the reserved codepoint U+0001.
pub fn ncstrwidth(string: &str) -> (r: NcIntResult)
    requires
        string@.len() <= 0x3fff_ffff,
    ensures
        r >= 0 ==> str_clusters_valid(string@) && r == str_cols(string@),
        r < 0 ==> r == -1 && !str_clusters_valid(string@),
{
    broadcast use vstd::utf8::encode_utf8_decode_utf8, vstd::utf8::encode_utf8_valid_utf8;

    let mut total: i32 = 0;
    let mut rest: &str = string;
    loop
        invariant
            rest@.len() <= string@.len() <= 0x3fff_ffff,
            str_cols(string@) == total + str_cols(rest@),
            str_clusters_valid(string@) == str_clusters_valid(rest@),
            0 <= total <= 2 * (string@.len() - rest@.len()),
        ensures
            total == str_cols(string@),
            str_clusters_valid(string@),
        decreases rest@.len(),
    {
        let scanned = match egc_scan(rest) {
            Ok(p) => p,
            Err(_) => {
                proof {
                    if rest@.len() == 0 || rest@[0] as u32 == 0 {
                        assert(egc_char_count(rest@) == 0);
                        assert(egc_valid(rest@));
                    }
                    assert(!str_clusters_valid(rest@));
                }
                return -1;
            },
        };
        let nbytes = scanned.0;
        let width = scanned.1;
        if nbytes == 0 {
            proof {
                lemma_egc_char_count_bounds(rest@);
                assert(egc_char_count(rest@) == 0);
                assert(str_cols(rest@) == 0);
                assert(str_clusters_valid(rest@));
            }
            break ;
        }
        proof {
            lemma_egc_char_count_bounds(rest@);
            if rest@.len() == 0 || rest@[0] as u32 == 0 {
                assert(egc_take(rest@) =~= Seq::<char>::empty());
                assert(egc_byte_len(rest@) == 0);
            }
            assert(rest@.len() > 0 && rest@[0] as u32 != 0);
            lemma_encode_prefix_boundary(rest@, egc_char_count(rest@));
        }
        let parts = rest.split_at(nbytes);
        let next = parts.1;
        proof {
            lemma_egc_rest_bytes(rest@);
            assert(encode_utf8(rest@).subrange(nbytes as int, encode_utf8(rest@).len() as int)
                =~= encode_utf8(rest@).skip(nbytes as int));
            assert(encode_utf8(next@) == encode_utf8(egc_rest(rest@)));
            vstd::utf8::encode_utf8_decode_utf8(next@);
            vstd::utf8::encode_utf8_decode_utf8(egc_rest(rest@));
            assert(next@ == egc_rest(rest@));
            assert(str_cols(rest@) == egc_width(rest@) + str_cols(next@));
            assert(str_clusters_valid(rest@) == str_clusters_valid(next@));
            assert(next@.len() == rest@.len() - egc_char_count(rest@));
        }
        total = total + (width as i32);
        rest = next;
    }
    total
}

} // verus!
