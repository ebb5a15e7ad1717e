use genesis::{
    lay_out, CacheKey, Color, FaceHandle, GlyphMetrics, GlyphStep, Gui, Label, Placement, Quad,
    TextError, TextRenderer,
};

const PX: i128 = 65536;

// A TrueType font of 32 units to the em with four glyphs, each one rectangle
// on the pixel grid at 32 pixels:
//   glyph 0           empty, advance 5
//   glyph 1, for 'a'  x 1..11, y 0..12,  advance 12
//   glyph 2, for 'b'  x 0..8,  y -4..10, advance 9
//   glyph 3, for 'c'  x 2..6,  y 0..20,  advance 7
// and one kerning pair: 'a' before 'b', -2 units.

fn be16(out: &mut Vec<u8>, v: u16) {
    out.push((v >> 8) as u8);
    out.push(v as u8);
}

fn bei16(out: &mut Vec<u8>, v: i16) {
    be16(out, v as u16);
}

fn be32(out: &mut Vec<u8>, v: u32) {
    be16(out, (v >> 16) as u16);
    be16(out, v as u16);
}

fn rectangle(x0: i16, y0: i16, x1: i16, y1: i16) -> Vec<u8> {
    let mut g = Vec::new();
    bei16(&mut g, 1); // one contour
    bei16(&mut g, x0);
    bei16(&mut g, y0);
    bei16(&mut g, x1);
    bei16(&mut g, y1);
    be16(&mut g, 3); // last point of the contour
    be16(&mut g, 0); // no instructions
    for _ in 0..4 {
        g.push(0x01); // on the curve, coordinates as words
    }
    for dx in [x0, 0, x1 - x0, 0] {
        bei16(&mut g, dx);
    }
    for dy in [y0, y1 - y0, 0, y0 - y1] {
        bei16(&mut g, dy);
    }
    while g.len() % 4 != 0 {
        g.push(0);
    }
    g
}

fn test_font() -> Vec<u8> {
    let glyphs = vec![
        Vec::new(),
        rectangle(1, 0, 11, 12),
        rectangle(0, -4, 8, 10),
        rectangle(2, 0, 6, 20),
    ];
    let advances: [u16; 4] = [5, 12, 9, 7];
    let bearings: [i16; 4] = [0, 1, 0, 2];

    let mut head = Vec::new();
    be32(&mut head, 0x0001_0000);
    be32(&mut head, 0x0001_0000);
    be32(&mut head, 0);
    be32(&mut head, 0x5F0F_3CF5);
    be16(&mut head, 0);
    be16(&mut head, 32); // units to the em
    be32(&mut head, 0);
    be32(&mut head, 0);
    be32(&mut head, 0);
    be32(&mut head, 0);
    bei16(&mut head, 0);
    bei16(&mut head, -4);
    bei16(&mut head, 11);
    bei16(&mut head, 20);
    be16(&mut head, 0);
    be16(&mut head, 8);
    bei16(&mut head, 2);
    bei16(&mut head, 0); // short offsets in loca
    bei16(&mut head, 0);

    let mut hhea = Vec::new();
    be32(&mut hhea, 0x0001_0000);
    bei16(&mut hhea, 24);
    bei16(&mut hhea, -8);
    bei16(&mut hhea, 0);
    be16(&mut hhea, 12);
    bei16(&mut hhea, 0);
    bei16(&mut hhea, 0);
    bei16(&mut hhea, 11);
    bei16(&mut hhea, 1);
    bei16(&mut hhea, 0);
    bei16(&mut hhea, 0);
    for _ in 0..4 {
        bei16(&mut hhea, 0);
    }
    bei16(&mut hhea, 0);
    be16(&mut hhea, 4); // one metric for each glyph

    let mut maxp = Vec::new();
    be32(&mut maxp, 0x0001_0000);
    be16(&mut maxp, 4); // glyphs
    be16(&mut maxp, 4); // points
    be16(&mut maxp, 1); // contours
    be16(&mut maxp, 0);
    be16(&mut maxp, 0);
    be16(&mut maxp, 2); // zones
    be16(&mut maxp, 0);
    be16(&mut maxp, 0);
    be16(&mut maxp, 0);
    be16(&mut maxp, 0);
    be16(&mut maxp, 64); // stack
    be16(&mut maxp, 16); // instructions: not none, so the outlines are left as they are
    be16(&mut maxp, 0);
    be16(&mut maxp, 0);

    let mut hmtx = Vec::new();
    for i in 0..4 {
        be16(&mut hmtx, advances[i]);
        bei16(&mut hmtx, bearings[i]);
    }

    let mut cmap = Vec::new();
    be16(&mut cmap, 0);
    be16(&mut cmap, 1);
    be16(&mut cmap, 3); // Windows
    be16(&mut cmap, 1); // Unicode
    be32(&mut cmap, 12);
    be16(&mut cmap, 6); // a trimmed table
    be16(&mut cmap, 16);
    be16(&mut cmap, 0);
    be16(&mut cmap, 97); // from 'a'
    be16(&mut cmap, 3);
    be16(&mut cmap, 1);
    be16(&mut cmap, 2);
    be16(&mut cmap, 3);

    let mut glyf = Vec::new();
    let mut loca = Vec::new();
    for g in &glyphs {
        be16(&mut loca, (glyf.len() / 2) as u16);
        glyf.extend_from_slice(g);
    }
    be16(&mut loca, (glyf.len() / 2) as u16);

    let mut kern = Vec::new();
    be16(&mut kern, 0);
    be16(&mut kern, 1);
    be16(&mut kern, 0);
    be16(&mut kern, 14 + 6);
    be16(&mut kern, 0x0001); // horizontal, pairs
    be16(&mut kern, 1);
    be16(&mut kern, 6);
    be16(&mut kern, 0);
    be16(&mut kern, 0);
    be16(&mut kern, 1); // 'a'
    be16(&mut kern, 2); // 'b'
    bei16(&mut kern, -2);

    let tables: Vec<(&[u8; 4], Vec<u8>)> = vec![
        (b"cmap", cmap),
        (b"glyf", glyf),
        (b"head", head),
        (b"hhea", hhea),
        (b"hmtx", hmtx),
        (b"kern", kern),
        (b"loca", loca),
        (b"maxp", maxp),
    ];
    let mut font = Vec::new();
    be32(&mut font, 0x0001_0000);
    be16(&mut font, tables.len() as u16);
    be16(&mut font, 128);
    be16(&mut font, 3);
    be16(&mut font, 0);
    let mut offset = 12 + 16 * tables.len();
    for (tag, data) in &tables {
        font.extend_from_slice(&tag[..]);
        be32(&mut font, 0);
        be32(&mut font, offset as u32);
        be32(&mut font, data.len() as u32);
        offset += (data.len() + 3) / 4 * 4;
    }
    for (_, data) in &tables {
        font.extend_from_slice(data);
        while font.len() % 4 != 0 {
            font.push(0);
        }
    }
    font
}

// A bitmap font with one glyph, for 'a', of 8 by 16 pixels at 16 pixels.
fn bitmap_font() -> Vec<u8> {
    let mut font = String::new();
    font.push_str("STARTFONT 2.1\n");
    font.push_str("FONT -misc-fixed-medium-r-normal--16-160-72-72-c-80-iso10646-1\n");
    font.push_str("SIZE 16 72 72\n");
    font.push_str("FONTBOUNDINGBOX 8 16 0 -2\n");
    font.push_str("STARTPROPERTIES 3\n");
    font.push_str("PIXEL_SIZE 16\n");
    font.push_str("FONT_ASCENT 14\n");
    font.push_str("FONT_DESCENT 2\n");
    font.push_str("ENDPROPERTIES\n");
    font.push_str("CHARS 1\n");
    font.push_str("STARTCHAR a\n");
    font.push_str("ENCODING 97\n");
    font.push_str("SWIDTH 500 0\n");
    font.push_str("DWIDTH 8 0\n");
    font.push_str("BBX 8 16 0 -2\n");
    font.push_str("BITMAP\n");
    for _ in 0..16 {
        font.push_str("FF\n");
    }
    font.push_str("ENDCHAR\n");
    font.push_str("ENDFONT\n");
    font.into_bytes()
}

fn renderer_with_face() -> (TextRenderer, FaceHandle) {
    let mut renderer = TextRenderer::new().unwrap();
    let face = renderer.load_face(test_font()).unwrap();
    (renderer, face)
}

fn metrics_a() -> GlyphMetrics {
    GlyphMetrics {
        width: 10,
        height: 12,
        bearing_left: 1,
        bearing_top: 12,
        advance_x: 12 * 65536,
        advance_y: 0,
        glyph_index: 1,
    }
}

fn metrics_b() -> GlyphMetrics {
    GlyphMetrics {
        width: 8,
        height: 14,
        bearing_left: 0,
        bearing_top: 10,
        advance_x: 9 * 65536,
        advance_y: 0,
        glyph_index: 2,
    }
}

fn metrics_c() -> GlyphMetrics {
    GlyphMetrics {
        width: 4,
        height: 20,
        bearing_left: 2,
        bearing_top: 20,
        advance_x: 7 * 65536,
        advance_y: 0,
        glyph_index: 3,
    }
}

#[test]
fn new_renderer_has_no_face_and_no_glyph() {
    let renderer = TextRenderer::new().unwrap();
    assert!(!renderer.has_face(FaceHandle { index: 0 }));
    assert_eq!(renderer.cache().len(), 0);
}

#[test]
fn load_face_gives_handles_in_order() {
    let mut renderer = TextRenderer::new().unwrap();
    assert_eq!(renderer.load_face(test_font()), Ok(FaceHandle { index: 0 }));
    assert_eq!(renderer.load_face(test_font()), Ok(FaceHandle { index: 1 }));
    assert!(renderer.has_face(FaceHandle { index: 1 }));
    assert!(!renderer.has_face(FaceHandle { index: 2 }));
}

#[test]
fn load_face_refuses_what_is_no_font() {
    let mut renderer = TextRenderer::new().unwrap();
    // FreeType's number for a file in no format that it knows
    let r = renderer.load_face(vec![0x5A; 4096]);
    assert_eq!(r, Err(TextError::Freetype { code: 2 }));
    let r = renderer.load_face(vec![1, 2, 3, 4, 5, 6, 7, 8]);
    assert!(matches!(r, Err(TextError::Freetype { code }) if code != 0));
    assert!(!renderer.has_face(FaceHandle { index: 0 }));
    let r = renderer.load_face(Vec::new());
    assert!(matches!(r, Err(TextError::Freetype { .. })));
}

#[test]
fn glyph_is_rasterized_with_its_metrics() {
    let (mut renderer, face) = renderer_with_face();
    let key = CacheKey::new(face, 32, 'a');
    assert_eq!(renderer.get_cache_entry(key), Ok(0));
    let record = renderer.cache().record(0).unwrap();
    assert_eq!(record.key, key);
    assert_eq!(record.metrics, metrics_a());
    assert_eq!(record.coverage, vec![255u8; 120]);
}

#[test]
fn glyph_below_the_baseline_has_its_bearing() {
    let (mut renderer, face) = renderer_with_face();
    let slot = renderer.get_cache_entry(CacheKey::new(face, 32, 'b')).unwrap();
    let record = renderer.cache().record(slot).unwrap();
    assert_eq!(record.metrics, metrics_b());
    assert_eq!(record.coverage.len(), 8 * 14);
}

#[test]
fn repeated_lookup_gives_the_same_record_and_rasterizes_once() {
    let (mut renderer, face) = renderer_with_face();
    let key = CacheKey::new(face, 32, 'a');
    let first = renderer.get_cache_entry(key).unwrap();
    let count = renderer.cache().len();
    let second = renderer.get_cache_entry(CacheKey::new(face, 32, 'a')).unwrap();
    assert_eq!(first, second);
    assert_eq!(renderer.cache().len(), count);
}

#[test]
fn keys_differing_in_size_or_character_have_their_own_records() {
    let (mut renderer, face) = renderer_with_face();
    let a32 = renderer.get_cache_entry(CacheKey::new(face, 32, 'a')).unwrap();
    let a64 = renderer.get_cache_entry(CacheKey::new(face, 64, 'a')).unwrap();
    let b32 = renderer.get_cache_entry(CacheKey::new(face, 32, 'b')).unwrap();
    assert_ne!(a32, a64);
    assert_ne!(a32, b32);
    assert_ne!(a64, b32);
    assert_eq!(renderer.cache().len(), 3);
    let big = renderer.cache().record(a64).unwrap();
    assert_eq!(big.metrics.width, 20);
    assert_eq!(big.metrics.height, 24);
    assert_eq!(big.metrics.advance_x, 24 * 65536);
    // the size is applied again for the smaller glyph that follows
    let small = renderer.cache().record(b32).unwrap();
    assert_eq!(small.metrics, metrics_b());
}

#[test]
fn same_font_loaded_twice_is_two_faces() {
    let mut renderer = TextRenderer::new().unwrap();
    let one = renderer.load_face(test_font()).unwrap();
    let two = renderer.load_face(test_font()).unwrap();
    let first = renderer.get_cache_entry(CacheKey::new(one, 32, 'a')).unwrap();
    let second = renderer.get_cache_entry(CacheKey::new(two, 32, 'a')).unwrap();
    assert_ne!(first, second);
}

#[test]
fn character_without_glyph_is_the_missing_glyph() {
    let (mut renderer, face) = renderer_with_face();
    let slot = renderer.get_cache_entry(CacheKey::new(face, 32, 'z')).unwrap();
    let record = renderer.cache().record(slot).unwrap();
    assert_eq!(record.metrics.glyph_index, 0);
    assert_eq!(record.metrics.width, 0);
    assert_eq!(record.metrics.height, 0);
    assert_eq!(record.metrics.advance_x, 5 * 65536);
    assert!(record.coverage.is_empty());
}

#[test]
fn glyph_of_a_bitmap_font_is_refused() {
    let mut renderer = TextRenderer::new().unwrap();
    let face = renderer.load_face(bitmap_font()).unwrap();
    let key = CacheKey::new(face, 16, 'a');
    assert_eq!(renderer.get_cache_entry(key), Err(TextError::NotAnOutline));
    assert_eq!(renderer.cache().len(), 0);
    let mut label = renderer.create_label(face);
    label.set_text(String::from("a"));
    assert_eq!(label.update(&mut renderer), Err(TextError::NotAnOutline));
    assert!(!label.is_laid_out());
}

#[test]
fn size_that_a_bitmap_font_lacks_is_refused_by_the_face() {
    let mut renderer = TextRenderer::new().unwrap();
    let face = renderer.load_face(bitmap_font()).unwrap();
    let r = renderer.get_cache_entry(CacheKey::new(face, 40, 'a'));
    assert!(matches!(r, Err(TextError::Freetype { code }) if code != 0));
    assert_eq!(renderer.cache().len(), 0);
}

#[test]
fn unknown_face_is_an_error() {
    let (mut renderer, _) = renderer_with_face();
    let key = CacheKey::new(FaceHandle { index: 7 }, 32, 'a');
    assert_eq!(renderer.get_cache_entry(key), Err(TextError::UnknownFace));
    assert_eq!(renderer.cache().len(), 0);
    assert_eq!(renderer.kerning(FaceHandle { index: 7 }, 1, 2), Err(TextError::UnknownFace));
}

#[test]
fn size_too_large_is_an_error() {
    let (mut renderer, face) = renderer_with_face();
    let key = CacheKey::new(face, isize::MAX / 64 + 1, 'a');
    assert_eq!(renderer.get_cache_entry(key), Err(TextError::SizeOutOfRange));
    assert_eq!(renderer.cache().len(), 0);
}

#[test]
fn kerning_pair_is_read_from_the_face() {
    let (mut renderer, face) = renderer_with_face();
    renderer.get_cache_entry(CacheKey::new(face, 32, 'a')).unwrap();
    assert_eq!(renderer.kerning(face, 1, 2), Ok(-128));
    assert_eq!(renderer.kerning(face, 2, 1), Ok(0));
    assert_eq!(renderer.kerning(face, 1, 3), Ok(0));
}

#[test]
fn resolve_gives_one_step_for_each_character() {
    let (mut renderer, face) = renderer_with_face();
    let steps = renderer.resolve(face, 32, "aba").unwrap();
    assert_eq!(
        steps,
        vec![
            GlyphStep { glyph: 0, kerning_x: 0, metrics: metrics_a() },
            GlyphStep { glyph: 1, kerning_x: -128, metrics: metrics_b() },
            GlyphStep { glyph: 0, kerning_x: 0, metrics: metrics_a() },
        ]
    );
    assert_eq!(renderer.cache().len(), 2);
}

#[test]
fn resolve_glyphs_sets_no_kerning() {
    let (mut renderer, face) = renderer_with_face();
    let steps = renderer.resolve_glyphs(face, 32, "ab").unwrap();
    assert_eq!(
        steps,
        vec![
            GlyphStep { glyph: 0, kerning_x: 0, metrics: metrics_a() },
            GlyphStep { glyph: 1, kerning_x: 0, metrics: metrics_b() },
        ]
    );
    assert_eq!(renderer.cache().len(), 2);
    // all glyphs are cached now: resolving again leaves the cache as it is
    assert_eq!(renderer.resolve_glyphs(face, 32, "abba").unwrap().len(), 4);
    assert_eq!(renderer.cache().len(), 2);
}

#[test]
fn kernings_are_asked_in_the_order_of_the_pairs() {
    let (mut renderer, face) = renderer_with_face();
    renderer.get_cache_entry(CacheKey::new(face, 32, 'a')).unwrap();
    assert_eq!(renderer.kernings(face, &vec![(1, 2), (2, 1), (1, 2)]), Ok(vec![-128, 0, -128]));
    assert_eq!(renderer.kernings(face, &Vec::new()), Ok(Vec::new()));
    assert_eq!(renderer.kernings(FaceHandle { index: 8 }, &Vec::new()), Ok(Vec::new()));
    assert_eq!(
        renderer.kernings(FaceHandle { index: 8 }, &vec![(1, 2)]),
        Err(TextError::UnknownFace)
    );
}

#[test]
fn one_cached_character_is_laid_out_without_the_face() {
    let (mut renderer, face) = renderer_with_face();
    renderer.get_cache_entry(CacheKey::new(face, 32, 'c')).unwrap();
    let layout = renderer.measure(face, 32, "c").unwrap();
    assert_eq!((layout.width, layout.height), (6, 20));
    assert_eq!(renderer.cache().len(), 1);
    let mut label = renderer.create_label(face);
    label.set_font_size(32);
    label.set_text(String::from("c"));
    assert_eq!(label.update(&mut renderer), Ok(()));
    assert_eq!(renderer.cache().len(), 1);
    assert_eq!((label.draw().width, label.draw().height), (6, 20));
}

#[test]
fn kerning_is_asked_at_the_size_of_the_text() {
    let (mut renderer, face) = renderer_with_face();
    let first = renderer.measure(face, 32, "ab").unwrap();
    // a lookup at another size leaves the face at that size
    renderer.get_cache_entry(CacheKey::new(face, 64, 'c')).unwrap();
    let cached = renderer.cache().len();
    let second = renderer.measure(face, 32, "ab").unwrap();
    assert_eq!(renderer.cache().len(), cached);
    assert_eq!(second.placements, first.placements);
    assert_eq!((second.width, second.pen_x), (first.width, first.pen_x));
    assert_eq!(second.placements[1].x, 10 * PX);
    // and at the other size the kerning is that size's
    let big = renderer.measure(face, 64, "ab").unwrap();
    assert_eq!(big.placements[1].x, 20 * PX);
    let steps = renderer.resolve(face, 32, "ab").unwrap();
    assert_eq!(steps[1].kerning_x, -128);
}

#[test]
fn apply_size_refuses_unknown_face_and_unfit_size() {
    let (renderer, face) = renderer_with_face();
    assert_eq!(renderer.apply_size(face, 32), Ok(()));
    assert_eq!(renderer.apply_size(FaceHandle { index: 3 }, 32), Err(TextError::UnknownFace));
    assert_eq!(
        renderer.apply_size(face, isize::MAX / 64 + 1),
        Err(TextError::SizeOutOfRange)
    );
    assert_eq!(
        renderer.apply_size(FaceHandle { index: 3 }, isize::MAX),
        Err(TextError::UnknownFace)
    );
}

#[test]
fn size_out_of_range_fails_every_text_but_the_empty_one() {
    let (mut renderer, face) = renderer_with_face();
    let size = isize::MAX / 64 + 1;
    assert_eq!(renderer.resolve_glyphs(face, size, "a").err(), Some(TextError::SizeOutOfRange));
    assert_eq!(renderer.resolve(face, size, "ab").err(), Some(TextError::SizeOutOfRange));
    assert_eq!(renderer.measure(face, size, "abc").err(), Some(TextError::SizeOutOfRange));
    assert_eq!(renderer.measure(face, isize::MIN, "a").err(), Some(TextError::SizeOutOfRange));
    assert!(renderer.measure(face, size, "").is_ok());
    assert_eq!(renderer.cache().len(), 0);
    // an unknown face is reported before the size
    assert_eq!(
        renderer.measure(FaceHandle { index: 5 }, size, "a").err(),
        Some(TextError::UnknownFace)
    );
    let mut label = renderer.create_label(face);
    label.set_font_size(size);
    label.set_text(String::from("ab"));
    assert_eq!(label.update(&mut renderer), Err(TextError::SizeOutOfRange));
    assert!(!label.is_laid_out());
    // a size in range is never refused as out of range
    label.set_font_size(isize::MAX / 64);
    assert_ne!(label.update(&mut renderer), Err(TextError::SizeOutOfRange));
}

#[test]
fn measure_empty_text_is_a_zero_box() {
    let (mut renderer, face) = renderer_with_face();
    let layout = renderer.measure(face, 32, "").unwrap();
    assert_eq!(layout.width, 0);
    assert_eq!(layout.height, 0);
    assert!(layout.placements.is_empty());
    assert_eq!(renderer.cache().len(), 0);
    // no face is asked for an empty text
    let layout = renderer.measure(FaceHandle { index: 9 }, 32, "").unwrap();
    assert_eq!((layout.width, layout.height), (0, 0));
}

#[test]
fn measure_is_deterministic() {
    let (mut renderer, face) = renderer_with_face();
    let first = renderer.measure(face, 32, "abcab").unwrap();
    let second = renderer.measure(face, 32, "abcab").unwrap();
    assert_eq!(first.placements, second.placements);
    assert_eq!(
        (first.width, first.height, first.above, first.below, first.pen_x, first.pen_y),
        (second.width, second.height, second.above, second.below, second.pen_x, second.pen_y)
    );
}

#[test]
fn measure_applies_kerning_between_a_pair() {
    let (mut renderer, face) = renderer_with_face();
    let a = renderer.measure(face, 32, "a").unwrap();
    let b = renderer.measure(face, 32, "b").unwrap();
    let ab = renderer.measure(face, 32, "ab").unwrap();
    assert_eq!(a.width, 11);
    assert_eq!(b.width, 8);
    assert_eq!(ab.width, 18);
    assert_eq!(ab.pen_x, a.pen_x + b.pen_x - 2 * PX);
    assert_eq!(
        ab.placements,
        vec![
            Placement { glyph: 0, x: PX, y: 0, width: 10, height: 12 },
            Placement { glyph: 1, x: 10 * PX, y: 2 * PX, width: 8, height: 14 },
        ]
    );
    assert_eq!(ab.above, 12 * PX);
    assert_eq!(ab.below, 4 * PX);
    assert_eq!(ab.height, 16);
    // the pair the other way round is not kerned
    let ba = renderer.measure(face, 32, "ba").unwrap();
    assert_eq!(ba.pen_x, a.pen_x + b.pen_x);
}

#[test]
fn measure_matches_layout_of_resolved_steps() {
    let (mut renderer, face) = renderer_with_face();
    let measured = renderer.measure(face, 32, "cab").unwrap();
    let steps = renderer.resolve(face, 32, "cab").unwrap();
    let laid = lay_out(&steps);
    assert_eq!(measured.placements, laid.placements);
    assert_eq!((measured.width, measured.height), (laid.width, laid.height));
}

#[test]
fn measured_placements_lie_within_the_box() {
    let (mut renderer, face) = renderer_with_face();
    let layout = renderer.measure(face, 32, "abcabc").unwrap();
    assert_eq!(layout.placements.len(), 6);
    for p in &layout.placements {
        assert!(p.x >= 0 && p.y >= 0);
        assert!(p.x + p.width as i128 * PX <= layout.width * PX);
        assert!(p.y + p.height as i128 * PX <= layout.height * PX);
    }
}

#[test]
fn measure_fails_whole_on_unknown_face() {
    let (mut renderer, _) = renderer_with_face();
    let r = renderer.measure(FaceHandle { index: 3 }, 32, "ab");
    assert_eq!(r.err(), Some(TextError::UnknownFace));
    assert_eq!(renderer.cache().len(), 0);
}

#[test]
fn new_label_has_defaults() {
    let label = Label::new(FaceHandle { index: 0 });
    assert_eq!(label.text(), "label");
    assert_eq!(label.font_size(), 16);
    assert_eq!(label.face(), FaceHandle { index: 0 });
    assert_eq!(label.color(), Color { red: 255, green: 255, blue: 255, alpha: 255 });
    assert!(!label.is_laid_out());
    assert!(label.layout().placements.is_empty());
    assert_eq!(
        label.draw(),
        Quad {
            width: 16,
            height: 16,
            color: Color { red: 255, green: 255, blue: 255, alpha: 255 }
        }
    );
}

#[test]
fn setters_change_one_thing_and_mark_the_layout_stale() {
    let (mut renderer, face) = renderer_with_face();
    let mut label = renderer.create_label(face);
    label.set_text(String::from("ab"));
    label.set_font_size(32);
    label.update(&mut renderer).unwrap();
    assert!(label.is_laid_out());
    let quad = label.draw();

    label.set_color(1, 2, 3, 4);
    assert!(label.is_laid_out());
    assert_eq!(label.color(), Color { red: 1, green: 2, blue: 3, alpha: 4 });
    assert_eq!(label.draw(), Quad { color: Color { red: 1, green: 2, blue: 3, alpha: 4 }, ..quad });

    label.set_text(String::from("abc"));
    assert!(!label.is_laid_out());
    assert_eq!(label.text(), "abc");
    assert_eq!(label.font_size(), 32);
    // drawing before the next update shows what was computed last
    assert_eq!((label.draw().width, label.draw().height), (quad.width, quad.height));

    label.update(&mut renderer).unwrap();
    label.set_font_size(64);
    assert!(!label.is_laid_out());
    assert_eq!(label.font_size(), 64);
    assert_eq!(label.text(), "abc");

    label.update(&mut renderer).unwrap();
    label.set_face(FaceHandle { index: 5 });
    assert!(!label.is_laid_out());
    assert_eq!(label.face(), FaceHandle { index: 5 });
}

#[test]
fn label_grows_with_its_text() {
    let (mut renderer, face) = renderer_with_face();
    let mut label = renderer.create_label(face);
    label.set_font_size(32);
    label.set_text(String::from("ab"));
    label.update(&mut renderer).unwrap();
    let first = label.draw();
    assert_eq!((first.width, first.height), (18, 16));
    assert_eq!(label.layout().placements.len(), 2);

    label.set_text(String::from("abc"));
    label.update(&mut renderer).unwrap();
    let second = label.draw();
    assert_eq!((second.width, second.height), (25, 24));
    assert_ne!((first.width, first.height), (second.width, second.height));
    assert!(second.width > first.width);
    assert_eq!(label.layout().placements.len(), 3);
    assert_eq!(label.layout().width, 25);
    assert_eq!(
        label.layout().placements[2],
        Placement { glyph: 2, x: 21 * PX, y: 0, width: 4, height: 20 }
    );
    // the glyphs of "ab" were not rasterized again
    assert_eq!(renderer.cache().len(), 3);
}

#[test]
fn update_twice_gives_the_same_layout() {
    let (mut renderer, face) = renderer_with_face();
    let mut label = renderer.create_label(face);
    label.set_font_size(32);
    label.set_text(String::from("cab"));
    label.update(&mut renderer).unwrap();
    let first = label.layout().clone();
    label.update(&mut renderer).unwrap();
    assert_eq!(label.layout().placements, first.placements);
    assert_eq!((label.layout().width, label.layout().height), (first.width, first.height));
}

#[test]
fn update_of_empty_text_is_a_zero_box() {
    let (mut renderer, face) = renderer_with_face();
    let mut label = renderer.create_label(face);
    label.set_text(String::new());
    assert_eq!(label.update(&mut renderer), Ok(()));
    assert!(label.is_laid_out());
    assert_eq!((label.draw().width, label.draw().height), (0, 0));
    assert_eq!(renderer.cache().len(), 0);
}

#[test]
fn failed_update_leaves_the_label_as_it_was() {
    let (mut renderer, face) = renderer_with_face();
    let mut label = renderer.create_label(face);
    label.set_font_size(32);
    label.set_text(String::from("ab"));
    label.update(&mut renderer).unwrap();
    label.set_face(FaceHandle { index: 4 });
    assert_eq!(label.update(&mut renderer), Err(TextError::UnknownFace));
    assert!(!label.is_laid_out());
    assert_eq!((label.draw().width, label.draw().height), (18, 16));
    assert_eq!(label.text(), "ab");
}

#[test]
fn adopt_takes_a_layout() {
    let mut label = Label::new(FaceHandle { index: 0 });
    let run = vec![GlyphStep { glyph: 0, kerning_x: 0, metrics: metrics_c() }];
    label.adopt(lay_out(&run));
    assert!(label.is_laid_out());
    assert_eq!((label.draw().width, label.draw().height), (6, 20));
}

#[test]
fn quad_has_no_negative_extent() {
    let mut label = Label::new(FaceHandle { index: 0 });
    let mut back = metrics_c();
    back.bearing_left = -30;
    label.adopt(lay_out(&vec![GlyphStep { glyph: 0, kerning_x: 0, metrics: back }]));
    assert_eq!(label.layout().width, -26);
    assert_eq!(label.draw().width, 0);
    assert_eq!(label.draw().height, 20);
}

#[test]
fn gui_loads_its_face_and_makes_labels() {
    let mut gui = Gui::new(test_font()).unwrap();
    assert_eq!(gui.face, FaceHandle { index: 0 });
    assert!(gui.text_renderer.has_face(gui.face));
    let mut label = gui.create_label();
    assert_eq!(label.text(), "label");
    assert_eq!(label.face(), gui.face);
    label.set_text(String::from("abc"));
    label.set_font_size(32);
    label.update(&mut gui.text_renderer).unwrap();
    assert_eq!((label.draw().width, label.draw().height), (25, 24));
}

#[test]
fn gui_refuses_what_is_no_font() {
    assert!(matches!(Gui::new(vec![0; 16]), Err(TextError::Freetype { .. })));
}
