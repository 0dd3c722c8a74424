//! Cell lifecycle: loading, priming, duplication, extraction, comparison.

use nccore::ncstrwidth;
use nccore::{
    nccell_bg_alpha, nccell_bg_default_p, nccell_bg_palindex, nccell_bg_rgb, nccell_cols,
    nccell_double_wide_p, nccell_duplicate, nccell_extract, nccell_fg_alpha,
    nccell_fg_default_p, nccell_fg_palindex, nccell_fg_palindex_p, nccell_fg_rgb,
    nccell_fg_rgb8, nccell_init, nccell_load, nccell_off_styles, nccell_on_styles,
    nccell_prime, nccell_release, nccell_set_bg_palindex, nccell_set_bg_rgb,
    nccell_set_fg_alpha, nccell_set_fg_default, nccell_set_fg_rgb8, nccell_set_styles,
    nccell_strdup, nccell_styles, nccell_wide_left_p, nccell_wide_right_p, nccellcmp, NcCell,
    NcChannelsMethods, NcError, NcPlane, NCALPHA_BLEND, NCALPHA_OPAQUE, NCSTYLE_BOLD,
    NCSTYLE_ITALIC, NCSTYLE_MASK, NCSTYLE_UNDERLINE,
};

#[test]
fn constructors() {
    let mut plane = NcPlane::new();
    let mut cell = NcCell::new();

    // duplication
    let mut c1 = NcCell::new();
    nccell_load(&mut plane, &mut c1, "a").unwrap();
    let mut c2 = NcCell::new();
    nccell_load(&mut plane, &mut c2, "b").unwrap();
    assert_ne!(c1, c2);
    let mut c1d = nccell_duplicate(&mut plane, &c1).unwrap();
    assert_eq!(c1d, c1);

    // initialization
    nccell_init(&mut c1d);
    assert_ne!(c1d, c1);
    assert_eq!(c1d, NcCell::new());

    // `load` returns the number of bytes copied
    assert_eq!(1, nccell_load(&mut plane, &mut cell, "e").unwrap());
    assert_eq!(2, nccell_load(&mut plane, &mut cell, "é").unwrap());
    assert_eq!(3, nccell_load(&mut plane, &mut cell, "௵").unwrap());
    assert_eq!(4, nccell_load(&mut plane, &mut cell, "🚀").unwrap());
    // person facepalming emoji
    // + emoji skin-tone modifier
    // + ZERO WIDTH JOINER
    // + male sign + variation selector
    assert_eq!(17, nccell_load(&mut plane, &mut cell, "🤦🏼‍♂️").unwrap());

    // `prime`
    assert_eq!(
        4,
        nccell_prime(
            &mut plane,
            &mut cell,
            "🚀",
            NCSTYLE_UNDERLINE,
            <u64 as NcChannelsMethods>::from_rgb_both(0x112233)
        )
        .unwrap()
    );
    assert_eq!(NCSTYLE_UNDERLINE, nccell_styles(&cell));
    assert_eq!(<u64 as NcChannelsMethods>::from_rgb_both(0x112233), cell.channels);

    // cleanup
    nccell_release(&mut plane, &mut cell);
    assert_eq!(cell, NcCell::new());
}

#[test]
fn short_cluster_loads_inline_and_resolves() {
    let mut plane = NcPlane::new();
    let mut cell = NcCell::new();
    for text in ["e", "é", "௵", "🚀"] {
        let n = nccell_load(&mut plane, &mut cell, text).unwrap();
        assert_eq!(n, text.len());
        // stored inline: the slot's first byte is never the indirect tag
        assert_ne!(cell.gcluster & 0xff, 0x01);
        assert_eq!(nccell_strdup(&plane, &cell), text);
    }
    // nothing spilled into the pool
    assert_eq!(plane.pool_len(), 0);
}

#[test]
fn long_cluster_loads_indirect_and_resolves() {
    let mut plane = NcPlane::new();
    let mut cell = NcCell::new();
    let text = "🤦🏼\u{200d}♂\u{fe0f}";
    assert!(text.len() > 4);
    let n = nccell_load(&mut plane, &mut cell, text).unwrap();
    assert_eq!(n, text.len());
    // stored indirectly: the slot's first byte is the tag
    assert_eq!(cell.gcluster & 0xff, 0x01);
    assert_eq!(nccell_strdup(&plane, &cell), text);
    // a combining sequence also spills
    let accents = "e\u{0301}\u{0302}";
    let n = nccell_load(&mut plane, &mut cell, accents).unwrap();
    assert_eq!(n, 5);
    assert_eq!(cell.gcluster & 0xff, 0x01);
    assert_eq!(nccell_strdup(&plane, &cell), accents);
}

#[test]
fn load_consumes_only_first_cluster() {
    let mut plane = NcPlane::new();
    let mut cell = NcCell::new();
    let n = nccell_load(&mut plane, &mut cell, "abc").unwrap();
    assert_eq!(n, 1);
    assert_eq!(nccell_strdup(&plane, &cell), "a");
    // a combining mark rides along with its base
    let n = nccell_load(&mut plane, &mut cell, "e\u{0301}xyz").unwrap();
    assert_eq!(n, 3);
    assert_eq!(nccell_strdup(&plane, &cell), "e\u{0301}");
}

#[test]
fn empty_load_gives_empty_cell() {
    let mut plane = NcPlane::new();
    let mut cell = NcCell::new();
    let n = nccell_load(&mut plane, &mut cell, "").unwrap();
    assert_eq!(n, 0);
    assert_eq!(cell.gcluster, 0);
    assert_eq!(nccell_strdup(&plane, &cell), "");
}

#[test]
fn extract_returns_cell_parts_and_mutates_nothing() {
    let mut plane = NcPlane::new();
    let mut cell = NcCell::new();
    nccell_prime(&mut plane, &mut cell, "é", NCSTYLE_UNDERLINE, 0x1122334455667788u64).unwrap();
    let before = cell;
    let mut style1 = 0u16;
    let mut channels1 = 0u64;
    let text1 = nccell_extract(&plane, &cell, &mut style1, &mut channels1);
    let mut style2 = 0u16;
    let mut channels2 = 0u64;
    let text2 = nccell_extract(&plane, &cell, &mut style2, &mut channels2);
    assert_eq!(cell, before);
    assert_eq!(style1, cell.stylemask);
    assert_eq!(channels1, cell.channels);
    assert_eq!(text1, "é");
    assert_eq!((style1, channels1, text1), (style2, channels2, text2));
}

#[test]
fn init_is_idempotent() {
    let mut plane = NcPlane::new();
    let mut cell = NcCell::new();
    nccell_load(&mut plane, &mut cell, "🚀").unwrap();
    nccell_init(&mut cell);
    let once = cell;
    nccell_init(&mut cell);
    assert_eq!(cell, once);
    assert_eq!(cell, NcCell::new());
    assert_eq!(cell.gcluster, 0);
    assert_eq!(cell.backstop, 0);
    assert_eq!(cell.width, 0);
    assert_eq!(cell.stylemask, 0);
    assert_eq!(cell.channels, 0);
}

#[test]
fn duplicate_stays_equal_after_source_release() {
    let mut plane = NcPlane::new();
    let mut source = NcCell::new();
    let text = "🤦🏼\u{200d}♂\u{fe0f}";
    nccell_load(&mut plane, &mut source, text).unwrap();
    let dup = nccell_duplicate(&mut plane, &source).unwrap();
    // compare-equal (not different) right after duplication
    assert!(!nccellcmp(&plane, &source, &plane, &dup));
    // the duplicate owns independent storage: releasing the source leaves it
    let frozen = source;
    nccell_release(&mut plane, &mut source);
    assert_eq!(nccell_strdup(&plane, &dup), text);
    assert!(!nccellcmp(&plane, &frozen, &plane, &dup));
}

#[test]
fn compare_sees_style_channel_and_text_differences() {
    let mut plane1 = NcPlane::new();
    let mut plane2 = NcPlane::new();
    let mut a = NcCell::new();
    let mut b = NcCell::new();
    // same resolved text from different planes and offsets is not different
    nccell_load(&mut plane1, &mut a, "e\u{0301}\u{0302}").unwrap();
    let mut filler = NcCell::new();
    nccell_load(&mut plane2, &mut filler, "a\u{0301}\u{0302}").unwrap();
    nccell_load(&mut plane2, &mut b, "e\u{0301}\u{0302}").unwrap();
    assert!(!nccellcmp(&plane1, &a, &plane2, &b));
    // a style difference shows
    let mut styled = b;
    styled.stylemask = NCSTYLE_UNDERLINE;
    assert!(nccellcmp(&plane1, &a, &plane2, &styled));
    // a channel difference shows
    let mut colored = b;
    colored.channels = 0x40112233;
    assert!(nccellcmp(&plane1, &a, &plane2, &colored));
    // a text difference shows
    let mut other = NcCell::new();
    nccell_load(&mut plane2, &mut other, "o\u{0301}\u{0302}").unwrap();
    assert!(nccellcmp(&plane1, &a, &plane2, &other));
}

#[test]
fn cols_and_wideness() {
    let mut plane = NcPlane::new();
    let mut cell = NcCell::new();
    nccell_load(&mut plane, &mut cell, "e").unwrap();
    assert_eq!(cell.width, 0);
    assert_eq!(nccell_cols(&cell), 1);
    assert!(!nccell_double_wide_p(&cell));
    assert!(!nccell_wide_left_p(&cell));
    assert!(!nccell_wide_right_p(&cell));
    nccell_load(&mut plane, &mut cell, "🚀").unwrap();
    assert_eq!(cell.width, 2);
    assert_eq!(nccell_cols(&cell), 2);
    assert!(nccell_double_wide_p(&cell));
    assert!(nccell_wide_left_p(&cell));
    assert!(!nccell_wide_right_p(&cell));
    // a right half carries a zeroed grapheme slot
    let mut right = cell;
    right.gcluster = 0;
    assert!(nccell_wide_right_p(&right));
    assert!(!nccell_wide_left_p(&right));
}

#[test]
fn reserved_byte_fails_and_mutates_nothing() {
    let mut plane = NcPlane::new();
    let mut cell = NcCell::new();
    nccell_load(&mut plane, &mut cell, "é").unwrap();
    let before = cell;
    let pool_before = plane.pool_len();
    let r = nccell_load(&mut plane, &mut cell, "\u{1}");
    assert_eq!(r, Err(NcError::InvalidGrapheme));
    assert_eq!(cell, before);
    assert_eq!(plane.pool_len(), pool_before);
    assert_eq!(nccell_strdup(&plane, &cell), "é");
}

#[test]
fn pool_overflow_fails_and_mutates_nothing() {
    let mut plane = NcPlane::new();
    let mut cell = NcCell::new();
    // one long cluster: a base letter under many combining acute accents
    let mut text = String::from("e");
    for _ in 0..120 {
        text.push('\u{0301}');
    }
    assert!(text.len() > 4);
    let mut last = Ok(0);
    for _ in 0..200_000 {
        last = nccell_load(&mut plane, &mut cell, &text);
        if last.is_err() {
            break;
        }
    }
    assert_eq!(last, Err(NcError::PoolOverflow));
    assert!(plane.pool_len() > 0xffffff);
    // the failing load left the previous contents alone
    assert_eq!(nccell_strdup(&plane, &cell), text);
}

#[test]
fn zero_width_first_char_gives_width_zero() {
    let mut plane = NcPlane::new();
    let mut cell = NcCell::new();
    // a lone combining mark forms its own zero-width cluster
    let n = nccell_load(&mut plane, &mut cell, "\u{0301}").unwrap();
    assert_eq!(n, 2);
    assert_eq!(cell.width, 0);
    assert_eq!(nccell_cols(&cell), 1);
    assert_eq!(nccell_strdup(&plane, &cell), "\u{0301}");
}

#[test]
fn cell_channel_delegates() {
    let mut cell = NcCell::new();
    nccell_set_fg_rgb8(&mut cell, 0x11, 0x22, 0x33);
    nccell_set_bg_rgb(&mut cell, 0x445566);
    assert_eq!(nccell_fg_rgb(&cell), 0x112233);
    assert_eq!(nccell_bg_rgb(&cell), 0x445566);
    assert!(!nccell_fg_default_p(&cell));
    assert!(!nccell_bg_default_p(&cell));
    let mut r = 0u8;
    let mut g = 0u8;
    let mut b = 0u8;
    nccell_fg_rgb8(&cell, &mut r, &mut g, &mut b);
    assert_eq!((r, g, b), (0x11, 0x22, 0x33));
    nccell_set_fg_alpha(&mut cell, NCALPHA_BLEND);
    assert_eq!(nccell_fg_alpha(&cell), NCALPHA_BLEND);
    nccell_set_fg_default(&mut cell);
    assert!(nccell_fg_default_p(&cell));
    assert_eq!(nccell_fg_alpha(&cell), NCALPHA_OPAQUE);
    nccell_set_bg_palindex(&mut cell, 0x2a);
    assert_eq!(nccell_bg_palindex(&cell), 0x2a);
    assert_eq!(nccell_bg_alpha(&cell), NCALPHA_OPAQUE);
    nccell_set_fg_rgb8(&mut cell, 1, 2, 3);
    assert!(!nccell_fg_palindex_p(&cell));
    assert_eq!(nccell_fg_palindex(&cell), 3);
}

#[test]
fn style_bits_mask_reserved() {
    let mut cell = NcCell::new();
    nccell_on_styles(&mut cell, NCSTYLE_BOLD | NCSTYLE_ITALIC);
    assert_eq!(nccell_styles(&cell), NCSTYLE_BOLD | NCSTYLE_ITALIC);
    nccell_off_styles(&mut cell, NCSTYLE_ITALIC);
    assert_eq!(nccell_styles(&cell), NCSTYLE_BOLD);
    // reserved bits are masked off on every write
    nccell_set_styles(&mut cell, 0xffff);
    assert_eq!(nccell_styles(&cell), NCSTYLE_MASK);
    nccell_on_styles(&mut cell, 0x8000);
    assert_eq!(nccell_styles(&cell), NCSTYLE_MASK);
}

#[test]
fn string_width_sums_cluster_widths() {
    assert_eq!(ncstrwidth(""), 0);
    assert_eq!(ncstrwidth("abc"), 3);
    // a combining mark adds no column
    assert_eq!(ncstrwidth("e\u{0301}f"), 2);
    // a wide emoji takes two columns
    assert_eq!(ncstrwidth("a🚀b"), 4);
    // one joined emoji cluster takes its base's two columns
    assert_eq!(ncstrwidth("🤦🏼\u{200d}♂\u{fe0f}"), 2);
    // the reserved codepoint is reported as illegal
    assert_eq!(ncstrwidth("ab\u{1}c"), -1);
    // a NUL ends the C-string view
    assert_eq!(ncstrwidth("ab\u{0}cd"), 2);
}

#[test]
fn indirect_reference_points_at_the_new_entry() {
    let mut plane = NcPlane::new();
    let mut cell = NcCell::new();
    let first = "e\u{0301}\u{0302}";
    let second = "o\u{0301}\u{0302}";
    nccell_load(&mut plane, &mut cell, first).unwrap();
    // the first entry starts at offset 0
    assert_eq!(cell.gcluster >> 8, 0);
    let offset = plane.pool_len() as u32;
    let mut other = NcCell::new();
    nccell_load(&mut plane, &mut other, second).unwrap();
    // the second entry starts where the pool ended before the load
    assert_eq!(other.gcluster >> 8, offset);
    // a duplicate's fresh entry likewise starts at the pool's prior end
    let offset = plane.pool_len() as u32;
    let dup = nccell_duplicate(&mut plane, &cell).unwrap();
    assert_eq!(dup.gcluster >> 8, offset);
}
