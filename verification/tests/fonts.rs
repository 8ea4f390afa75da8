use shared_lib::gl_font::{glyph_list_xml, glyph_mapping_xml, pack_glyphs, GlyphBox, GlyphData, ATLAS_CHARACTERS};

fn bx(min_x: i32, min_y: i32, max_x: i32, max_y: i32) -> Option<GlyphBox> {
    Some(GlyphBox { min_x, min_y, max_x, max_y })
}

#[test]
fn glyphs_are_packed_in_one_row() {
    let boxes = vec![bx(0, -10, 8, 0), None, bx(10, -12, 15, 2), bx(-1, 0, 3, 4)];
    let l = pack_glyphs("ABC", &boxes).ok().unwrap();
    assert_eq!(l.width, 8 + 5 + 4 + 4);
    assert_eq!(l.height, 14 + 10);
    assert_eq!(l.offsets, vec![(1, 1), (10, 1), (16, 1)]);
    assert_eq!(
        l.glyphs,
        vec![
            GlyphData { character: 'A', x: 0, y: (-10i32) as u32, width: 8, height: 10 },
            GlyphData { character: 'B', x: 10, y: (-12i32) as u32, width: 5, height: 14 },
            GlyphData { character: 'C', x: (-1i32) as u32, y: 0, width: 4, height: 4 },
        ]
    );
    // every glyph fits and they do not overlap
    for (i, (x, y)) in l.offsets.iter().enumerate() {
        assert!(x + l.glyphs[i].width <= l.width);
        assert!(y + l.glyphs[i].height <= l.height);
        if i + 1 < l.offsets.len() {
            assert!(x + l.glyphs[i].width < l.offsets[i + 1].0);
        }
    }
}

#[test]
fn too_few_characters_are_refused() {
    let boxes = vec![bx(0, 0, 1, 1), bx(0, 0, 1, 1)];
    assert_eq!(pack_glyphs("A", &boxes).err().unwrap(), "Failed to get character by index");
    let empty = pack_glyphs(ATLAS_CHARACTERS, &[]).ok().unwrap();
    assert_eq!((empty.width, empty.height), (0, 10));
    assert!(ATLAS_CHARACTERS.starts_with("ABC") && ATLAS_CHARACTERS.ends_with("[]"));
}

#[test]
fn glyph_mapping_is_sorted_xml() {
    let glyphs = vec![
        GlyphData { character: 'b', x: 5, y: 2, width: 3, height: 4 },
        GlyphData { character: 'a', x: 5, y: 1, width: 3, height: 4 },
        GlyphData { character: '"', x: 0, y: 9, width: 10, height: 11 },
    ];
    assert_eq!(
        glyph_mapping_xml(&glyphs),
        "<?xml version=\"1.0\" encoding=\"UTF-8\"?>\n<GlyphMapping>\n\
         \t<GlyphData character=\"\"\" x=\"0\" y=\"9\" width=\"10\" height=\"11\" />\n\
         \t<GlyphData character=\"a\" x=\"5\" y=\"1\" width=\"3\" height=\"4\" />\n\
         \t<GlyphData character=\"b\" x=\"5\" y=\"2\" width=\"3\" height=\"4\" />\n\
         </GlyphMapping>\n"
    );
    assert_eq!(
        glyph_mapping_xml(&[]),
        "<?xml version=\"1.0\" encoding=\"UTF-8\"?>\n<GlyphMapping>\n</GlyphMapping>\n"
    );
}

#[test]
fn glyph_list_keeps_the_given_order() {
    let glyphs = vec![
        GlyphData { character: 'b', x: 9, y: 0, width: 2, height: 3 },
        GlyphData { character: 'a', x: 1, y: 0, width: 4, height: 5 },
    ];
    assert_eq!(
        glyph_list_xml(&glyphs),
        "<?xml version=\"1.0\" encoding=\"UTF-8\"?>\n<GlyphMapping>\n\t<GlyphData character=\"b\" x=\"9\" y=\"0\" width=\"2\" height=\"3\" />\n\t<GlyphData character=\"a\" x=\"1\" y=\"0\" width=\"4\" height=\"5\" />\n</GlyphMapping>\n"
    );
    assert_eq!(glyph_list_xml(&[]), "<?xml version=\"1.0\" encoding=\"UTF-8\"?>\n<GlyphMapping>\n</GlyphMapping>\n");
}
