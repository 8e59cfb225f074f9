use std::path::PathBuf;
use sugarloaf::cluster::Cluster;
use sugarloaf::context::{first_emoji_ref, first_kept, FontContext, FragmentStyle};
use sugarloaf::font::FontData;
use sugarloaf::fonts::SugarloafFonts;
use sugarloaf::library::{EmbeddedFonts, FontLibrary, FontLibraryData, FontSource};

/// A font file that holds nothing but a character map for the given ranges.
fn resolver_face_bytes(ranges: &[(u32, u32)]) -> Vec<u8> {
    let mut cmap: Vec<u8> = Vec::new();
    cmap.extend(0u16.to_be_bytes());
    cmap.extend(1u16.to_be_bytes());
    cmap.extend(3u16.to_be_bytes());
    cmap.extend(10u16.to_be_bytes());
    cmap.extend(12u32.to_be_bytes());
    let groups = ranges.len() as u32;
    cmap.extend(12u16.to_be_bytes());
    cmap.extend(0u16.to_be_bytes());
    cmap.extend((16 + 12 * groups).to_be_bytes());
    cmap.extend(0u32.to_be_bytes());
    cmap.extend(groups.to_be_bytes());
    let mut glyph = 1u32;
    for (start, end) in ranges {
        cmap.extend(start.to_be_bytes());
        cmap.extend(end.to_be_bytes());
        cmap.extend(glyph.to_be_bytes());
        glyph += end - start + 1;
    }
    let mut data: Vec<u8> = Vec::new();
    data.extend(0x0001_0000u32.to_be_bytes());
    data.extend(1u16.to_be_bytes());
    data.extend(16u16.to_be_bytes());
    data.extend(0u16.to_be_bytes());
    data.extend(0u16.to_be_bytes());
    data.extend(b"cmap");
    data.extend(0u32.to_be_bytes());
    data.extend(28u32.to_be_bytes());
    data.extend((cmap.len() as u32).to_be_bytes());
    data.extend(cmap);
    data
}

fn resolver_face(ranges: &[(u32, u32)]) -> FontData {
    FontData::from_data(resolver_face_bytes(ranges)).unwrap()
}

/// Embedded faces for ASCII, and a symbol face for the private use area.
fn resolver_embedded() -> EmbeddedFonts {
    let ascii = || resolver_face(&[(0x20, 0x7e)]);
    EmbeddedFonts {
        extra_light: ascii(),
        extra_light_italic: ascii(),
        light: ascii(),
        light_italic: ascii(),
        semi_light: ascii(),
        semi_light_italic: ascii(),
        regular: ascii(),
        italic: ascii(),
        semi_bold: ascii(),
        semi_bold_italic: ascii(),
        bold: ascii(),
        bold_italic: ascii(),
        symbols: resolver_face(&[(0xe000, 0xf8ff)]),
    }
}

/// Slots: 0 to 3 the styles (ASCII), 4 a fallback for CJK, 5 the symbols; and, if asked
/// for, one emoji face to load later.
fn resolver_library(with_emoji: bool) -> FontLibrary {
    let fallbacks = vec!["Noto Sans CJK".to_string(), "Noto Color Emoji".to_string()];
    let found = vec![
        FontSource::NotFound,
        FontSource::NotFound,
        FontSource::NotFound,
        FontSource::NotFound,
        FontSource::Data(resolver_face_bytes(&[(0x4e00, 0x9fff)])),
    ];
    let lazy_found = if with_emoji {
        vec![FontSource::Path(PathBuf::from("/fonts/emoji.ttf"))]
    } else {
        Vec::new()
    };
    FontLibrary::new(SugarloafFonts::default(), &fallbacks, &resolver_embedded(), found, lazy_found).0
}

const REGULAR: FragmentStyle = FragmentStyle { weight: 400, italic: false };
const ITALIC: FragmentStyle = FragmentStyle { weight: 400, italic: true };
const BOLD: FragmentStyle = FragmentStyle { weight: 700, italic: false };
const BOLD_ITALIC: FragmentStyle = FragmentStyle { weight: 700, italic: true };

#[test]
fn a_style_maps_to_its_slot() {
    assert_eq!(REGULAR.slot(), None);
    assert_eq!(ITALIC.slot(), Some(1));
    assert_eq!(BOLD.slot(), Some(2));
    assert_eq!(BOLD_ITALIC.slot(), Some(3));
    assert_eq!(FragmentStyle { weight: 800, italic: false }.slot(), None);
    assert_eq!(FragmentStyle { weight: 800, italic: true }.slot(), Some(1));
}

#[test]
fn bold_and_italic_never_fall_back() {
    let library = resolver_library(true);
    let mut context = FontContext::new();
    let mut synth = swash::Synthesis::default();
    for (style, slot) in [(ITALIC, 1), (BOLD, 2), (BOLD_ITALIC, 3)] {
        for ch in ['A', '\u{4f60}', '\u{1f600}', '\u{e0b0}', '\u{10ffff}'] {
            let cluster = Cluster::from_char(ch);
            assert_eq!(context.emoji_to_load(&cluster, &library, &style, 0), None);
            assert_eq!(
                context.map_cluster(&cluster, &mut synth, &library, &style, 0, None),
                Some(slot)
            );
        }
        assert!(*context.get(slot).unwrap() == *library.data().get(slot));
    }
    assert!(context.get(0).is_none());
    assert!(context.get(4).is_none());
}

#[test]
fn the_regular_face_resolves_what_it_covers() {
    let library = resolver_library(false);
    let mut context = FontContext::default();
    let mut synth = swash::Synthesis::default();
    for ch in [' ', 'A', 'z', '~'] {
        let cluster = Cluster::from_char(ch);
        assert_eq!(
            context.map_cluster(&cluster, &mut synth, &library, &REGULAR, 0, None),
            Some(0)
        );
    }
    assert!(*context.get(0).unwrap() == *library.data().get(0));
    assert!(context.get(4).is_none());
}

#[test]
fn what_the_regular_face_lacks_is_scanned_for() {
    let library = resolver_library(false);
    let mut context = FontContext::new();
    let mut synth = swash::Synthesis::default();
    let cjk = Cluster::from_char('\u{4f60}');
    assert_eq!(context.map_cluster(&cjk, &mut synth, &library, &REGULAR, 0, None), Some(4));
    assert!(*context.get(4).unwrap() == *library.data().get(4));
    let symbol = Cluster::from_char('\u{e0b0}');
    assert_eq!(context.map_cluster(&symbol, &mut synth, &library, &REGULAR, 0, None), Some(5));
    assert_eq!(context.lookup_for_best_font(&symbol, &mut synth, library.data()), Some(5));
    assert_eq!(context.lookup_for_best_font(&cjk, &mut synth, library.data()), Some(4));
    assert_eq!(
        context.lookup_for_best_font(&Cluster::from_char('A'), &mut synth, library.data()),
        Some(0)
    );
}

#[test]
fn a_cluster_that_no_face_covers_is_unresolved() {
    let library = resolver_library(false);
    let mut context = FontContext::new();
    let mut synth = swash::Synthesis::default();
    let cluster = Cluster::from_char('\u{0416}');
    assert_eq!(context.map_cluster(&cluster, &mut synth, &library, &REGULAR, 0, None), None);
    assert_eq!(context.lookup_for_best_font(&cluster, &mut synth, library.data()), None);
    assert!(context.get(0).is_none());
}

#[test]
fn the_first_set_flag_is_found() {
    assert_eq!(first_kept(&vec![false, false, true, true]), Some(2));
    assert_eq!(first_kept(&vec![true]), Some(0));
    assert_eq!(first_kept(&vec![false, false]), None);
    assert_eq!(first_kept(&Vec::new()), None);
}

#[test]
fn the_first_emoji_face_is_the_one_to_load() {
    assert_eq!(first_emoji_ref(resolver_library(true).data()), Some(0));
    assert_eq!(first_emoji_ref(resolver_library(false).data()), None);
    assert_eq!(first_emoji_ref(&FontLibraryData::new()), None);
}

#[test]
fn an_emoji_face_is_loaded_once_and_kept_while_in_use() {
    let library = resolver_library(true);
    let mut context = FontContext::new();
    let mut synth = swash::Synthesis::default();
    let grin = Cluster::from_char('\u{1f600}');
    let wink = Cluster::from_char('\u{1f609}');
    assert_eq!(context.emoji_to_load(&grin, &library, &REGULAR, 1000), Some(0));
    assert_eq!(context.emoji_to_load(&Cluster::from_char('A'), &library, &REGULAR, 1000), None);
    let emoji = resolver_face(&[(0x1f600, 0x1f64f)]);
    assert_eq!(
        context.map_cluster(&grin, &mut synth, &library, &REGULAR, 1000, Some(&emoji)),
        Some(6)
    );
    assert!(*context.get(6).unwrap() == emoji);
    assert_eq!(context.emoji_to_load(&grin, &library, &REGULAR, 3000), None);
    assert_eq!(context.map_cluster(&grin, &mut synth, &library, &REGULAR, 3000, None), Some(6));
    assert_eq!(context.emoji_to_load(&wink, &library, &REGULAR, 7000), None);
    assert_eq!(context.map_cluster(&wink, &mut synth, &library, &REGULAR, 7000, None), Some(6));
    assert_eq!(context.emoji_to_load(&grin, &library, &REGULAR, 11000), None);
    assert!(*context.get(6).unwrap() == emoji);
}

#[test]
fn an_idle_emoji_face_is_dropped_whatever_is_resolved() {
    let library = resolver_library(true);
    let emoji = resolver_face(&[(0x1f600, 0x1f64f)]);
    let grin = Cluster::from_char('\u{1f600}');
    let mut synth = swash::Synthesis::default();
    for (cluster, style, slot) in [
        (Cluster::from_char('A'), REGULAR, Some(0)),
        (Cluster::from_char('A'), BOLD, Some(2)),
        (Cluster::from_char('\u{0416}'), REGULAR, None),
    ] {
        let mut context = FontContext::new();
        context.map_cluster(&grin, &mut synth, &library, &REGULAR, 1000, Some(&emoji));
        assert!(context.get(6).is_some());
        assert_eq!(context.map_cluster(&cluster, &mut synth, &library, &style, 5000, None), slot);
        assert!(context.get(6).is_some());
        assert_eq!(context.map_cluster(&cluster, &mut synth, &library, &style, 5001, None), slot);
        assert!(context.get(6).is_none());
        assert_eq!(context.emoji_to_load(&grin, &library, &REGULAR, 5002), Some(0));
        assert_eq!(context.emoji_to_load(&cluster, &library, &style, 5002), None);
    }
}

#[test]
fn an_idle_emoji_face_is_loaded_again_for_an_emoji() {
    let library = resolver_library(true);
    let mut context = FontContext::new();
    let mut synth = swash::Synthesis::default();
    let grin = Cluster::from_char('\u{1f600}');
    let first = resolver_face(&[(0x1f600, 0x1f64f)]);
    let second = resolver_face(&[(0x1f600, 0x1f64f)]);
    context.map_cluster(&grin, &mut synth, &library, &REGULAR, 0, Some(&first));
    assert_eq!(context.emoji_to_load(&grin, &library, &REGULAR, 4000), None);
    assert_eq!(context.emoji_to_load(&grin, &library, &REGULAR, 4001), Some(0));
    assert_eq!(
        context.map_cluster(&grin, &mut synth, &library, &REGULAR, 4001, Some(&second)),
        Some(6)
    );
    assert!(*context.get(6).unwrap() == second);
    assert!(*context.get(6).unwrap() != first);
}

#[test]
fn an_emoji_that_cannot_be_loaded_falls_back() {
    let library = resolver_library(true);
    let mut context = FontContext::new();
    let mut synth = swash::Synthesis::default();
    let grin = Cluster::from_char('\u{1f600}');
    assert_eq!(context.map_cluster(&grin, &mut synth, &library, &REGULAR, 0, None), None);
    assert!(context.get(6).is_none());
    let unregistered = resolver_library(false);
    let emoji = resolver_face(&[(0x1f600, 0x1f64f)]);
    assert_eq!(context.emoji_to_load(&grin, &unregistered, &REGULAR, 0), None);
    assert_eq!(
        context.map_cluster(&grin, &mut synth, &unregistered, &REGULAR, 0, Some(&emoji)),
        None
    );
}

#[test]
fn a_loaded_face_is_ignored_where_none_is_wanted() {
    let library = resolver_library(true);
    let mut context = FontContext::new();
    let mut synth = swash::Synthesis::default();
    let emoji = resolver_face(&[(0x1f600, 0x1f64f)]);
    assert_eq!(
        context.map_cluster(&Cluster::from_char('A'), &mut synth, &library, &REGULAR, 0, Some(&emoji)),
        Some(0)
    );
    assert!(context.get(6).is_none());
}

#[test]
fn a_catalog_of_embedded_faces_resolves_what_they_cover_to_the_regular_slot() {
    let (library, _) = FontLibrary::new(
        SugarloafFonts::default(),
        &Vec::new(),
        &resolver_embedded(),
        Vec::new(),
        Vec::new(),
    );
    let mut context = FontContext::new();
    let mut synth = swash::Synthesis::default();
    for code in 0x20u32..0x7f {
        let cluster = Cluster::from_char(char::from_u32(code).unwrap());
        assert_eq!(
            context.map_cluster(&cluster, &mut synth, &library, &REGULAR, u64::from(code), None),
            Some(0)
        );
    }
    let symbol = Cluster::from_char('\u{e0b0}');
    assert_eq!(context.map_cluster(&symbol, &mut synth, &library, &REGULAR, 0, None), Some(4));
}
