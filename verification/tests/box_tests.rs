//! Box-drawing cell sets.

use nccore::{
    nccell_strdup, nccells_ascii_box, nccells_double_box, nccells_heavy_box, nccells_light_box,
    nccells_load_box, nccells_rounded_box, NcCell, NcError, NcPlane, NCSTYLE_BOLD,
};

#[test]
fn ascii_box_glyphs() {
    let mut plane = NcPlane::new();
    let mut ul = NcCell::new();
    let mut ur = NcCell::new();
    let mut ll = NcCell::new();
    let mut lr = NcCell::new();
    let mut hl = NcCell::new();
    let mut vl = NcCell::new();
    let r = nccells_ascii_box(
        &mut plane, 0, 0, &mut ul, &mut ur, &mut ll, &mut lr, &mut hl, &mut vl,
    );
    assert!(r.is_ok());
    assert_eq!(nccell_strdup(&plane, &ul), "/");
    assert_eq!(nccell_strdup(&plane, &ur), "\\");
    assert_eq!(nccell_strdup(&plane, &ll), "\\");
    assert_eq!(nccell_strdup(&plane, &lr), "/");
    assert_eq!(nccell_strdup(&plane, &hl), "-");
    assert_eq!(nccell_strdup(&plane, &vl), "|");
    // style and channels were zero, and nothing went to the pool
    assert_eq!(ul.stylemask, 0);
    assert_eq!(ul.channels, 0);
    assert_eq!(plane.pool_len(), 0);
}

#[test]
fn preset_boxes_resolve_to_their_glyphs() {
    let mut plane = NcPlane::new();
    let mut ul = NcCell::new();
    let mut ur = NcCell::new();
    let mut ll = NcCell::new();
    let mut lr = NcCell::new();
    let mut hl = NcCell::new();
    let mut vl = NcCell::new();
    let presets: [(fn(
        &mut NcPlane,
        u16,
        u64,
        &mut NcCell,
        &mut NcCell,
        &mut NcCell,
        &mut NcCell,
        &mut NcCell,
        &mut NcCell,
    ) -> Result<(), NcError>, &str); 4] = [
        (nccells_light_box, "┌┐└┘─│"),
        (nccells_heavy_box, "┏┓┗┛━┃"),
        (nccells_rounded_box, "╭╮╰╯─│"),
        (nccells_double_box, "╔╗╚╝═║"),
    ];
    for (load, glyphs) in presets {
        let r = load(&mut plane, 0, 0, &mut ul, &mut ur, &mut ll, &mut lr, &mut hl, &mut vl);
        assert!(r.is_ok());
        let want: Vec<&str> = glyphs.split("").filter(|s| !s.is_empty()).collect();
        assert_eq!(nccell_strdup(&plane, &ul), want[0]);
        assert_eq!(nccell_strdup(&plane, &ur), want[1]);
        assert_eq!(nccell_strdup(&plane, &ll), want[2]);
        assert_eq!(nccell_strdup(&plane, &lr), want[3]);
        assert_eq!(nccell_strdup(&plane, &hl), want[4]);
        assert_eq!(nccell_strdup(&plane, &vl), want[5]);
    }
}

#[test]
fn load_box_walks_the_glyph_string() {
    let mut plane = NcPlane::new();
    let mut ul = NcCell::new();
    let mut ur = NcCell::new();
    let mut ll = NcCell::new();
    let mut lr = NcCell::new();
    let mut hl = NcCell::new();
    let mut vl = NcCell::new();
    let r = nccells_load_box(
        &mut plane, NCSTYLE_BOLD, 0x4011_2233_4044_5566, &mut ul, &mut ur, &mut ll, &mut lr,
        &mut hl, &mut vl, "abcdef",
    );
    assert!(r.is_ok());
    assert_eq!(nccell_strdup(&plane, &ul), "a");
    assert_eq!(nccell_strdup(&plane, &ur), "b");
    assert_eq!(nccell_strdup(&plane, &ll), "c");
    assert_eq!(nccell_strdup(&plane, &lr), "d");
    assert_eq!(nccell_strdup(&plane, &hl), "e");
    assert_eq!(nccell_strdup(&plane, &vl), "f");
    assert_eq!(ur.stylemask, NCSTYLE_BOLD);
    assert_eq!(ur.channels, 0x4011_2233_4044_5566);
}

#[test]
fn load_box_failure_releases_primed_cells() {
    let mut plane = NcPlane::new();
    let mut ul = NcCell::new();
    let mut ur = NcCell::new();
    let mut ll = NcCell::new();
    let mut lr = NcCell::new();
    let mut hl = NcCell::new();
    let mut vl = NcCell::new();
    nccell_prime_all(&mut plane, &mut [&mut ul, &mut ur, &mut ll, &mut lr, &mut hl, &mut vl]);
    let before_lr = lr;
    let before_hl = hl;
    let before_vl = vl;
    // the fourth glyph is the reserved codepoint: primes 0..2 are rolled back
    let r = nccells_load_box(
        &mut plane, 0, 0, &mut ul, &mut ur, &mut ll, &mut lr, &mut hl, &mut vl, "abc\u{1}ef",
    );
    assert_eq!(r, Err(NcError::InvalidGrapheme));
    assert_eq!(ul, NcCell::new());
    assert_eq!(ur, NcCell::new());
    assert_eq!(ll, NcCell::new());
    // the failing cell keeps its glyph, with the new style already applied
    assert_eq!(lr.gcluster, before_lr.gcluster);
    // the cells after the failure are untouched
    assert_eq!(hl, before_hl);
    assert_eq!(vl, before_vl);
}

fn nccell_prime_all(plane: &mut NcPlane, cells: &mut [&mut NcCell; 6]) {
    for cell in cells.iter_mut() {
        nccore::nccell_prime(plane, cell, "z", NCSTYLE_BOLD, 7).unwrap();
    }
}
