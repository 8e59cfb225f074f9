use sugarloaf::cluster::{accepts, Cluster, MapStatus};
use sugarloaf::font::{FaceParts, FontData, FontError, SharedData};
use sugarloaf::library::load_from_data_ref;

/// A font file that holds nothing but a character map for the given ranges.
fn face_bytes(ranges: &[(u32, u32)]) -> Vec<u8> {
    let mut cmap: Vec<u8> = Vec::new();
    cmap.extend(0u16.to_be_bytes());
    cmap.extend(1u16.to_be_bytes());
    cmap.extend(3u16.to_be_bytes());
    cmap.extend(10u16.to_be_bytes());
    cmap.extend(12u32.to_be_bytes());
    let groups = ranges.len() as u32;
    cmap.extend(12u16.to_be_bytes());
    cmap.extend(0u16.to_be_bytes());
    cmap.extend((16 + 12 * groups).to_be_bytes());
    cmap.extend(0u32.to_be_bytes());
    cmap.extend(groups.to_be_bytes());
    let mut glyph = 1u32;
    for (start, end) in ranges {
        cmap.extend(start.to_be_bytes());
        cmap.extend(end.to_be_bytes());
        cmap.extend(glyph.to_be_bytes());
        glyph += end - start + 1;
    }
    let mut data: Vec<u8> = Vec::new();
    data.extend(0x0001_0000u32.to_be_bytes());
    data.extend(1u16.to_be_bytes());
    data.extend(16u16.to_be_bytes());
    data.extend(0u16.to_be_bytes());
    data.extend(0u16.to_be_bytes());
    data.extend(b"cmap");
    data.extend(0u32.to_be_bytes());
    data.extend(28u32.to_be_bytes());
    data.extend((cmap.len() as u32).to_be_bytes());
    data.extend(cmap);
    data
}

#[test]
fn bytes_that_are_no_font_are_refused() {
    assert!(matches!(FontData::from_data(vec![1, 2, 3]), Err(FontError::FaceLoad)));
    assert!(matches!(FontData::from_data(Vec::new()), Err(FontError::FaceLoad)));
    assert!(matches!(FontData::from_slice(b"not a font at all"), Err(FontError::FaceLoad)));
}

#[test]
fn a_font_file_loads_and_keeps_its_bytes() {
    let bytes = face_bytes(&[(0x41, 0x5a)]);
    let face = FontData::from_data(bytes.clone()).unwrap();
    assert_eq!(face.data(), bytes.as_slice());
    let font = face.as_ref();
    assert_eq!(font.offset, 0);
    assert_eq!(font.data, bytes.as_slice());
}

#[test]
fn from_slice_copies_the_bytes() {
    let bytes = face_bytes(&[(0x41, 0x5a)]);
    let face = FontData::from_slice(&bytes).unwrap();
    assert_eq!(face.data(), bytes.as_slice());
}

#[test]
fn faces_are_equal_by_cache_key() {
    let bytes = face_bytes(&[(0x41, 0x5a)]);
    let first = FontData::from_data(bytes.clone()).unwrap();
    let second = FontData::from_data(bytes).unwrap();
    assert!(first == first.clone());
    assert!(first != second);
    assert_eq!(first.as_ref().key, first.clone().as_ref().key);
}

#[test]
fn shared_data_reads_what_it_was_made_of() {
    let shared = SharedData::new(vec![7, 8, 9]);
    assert_eq!(shared.as_bytes(), &[7, 8, 9]);
    assert_eq!(shared.clone().as_bytes(), &[7, 8, 9]);
    assert_eq!(shared.strong_count(), 1);
    let other = shared.clone();
    assert_eq!(shared.strong_count(), 2);
    assert_eq!(other.strong_count(), 2);
}

#[test]
fn a_face_without_style_tables_has_default_attributes() {
    let face = FontData::from_data(face_bytes(&[(0x41, 0x5a)])).unwrap();
    assert_eq!(face.weight(), swash::Weight::NORMAL);
    assert_eq!(face.style(), swash::Style::Normal);
    assert_eq!(face.stretch(), swash::Stretch::NORMAL);
    assert!(!face.synthesis().any());
    assert!(face.attributes().weight() == swash::Weight::NORMAL);
}

#[test]
fn the_charmap_proxy_finds_the_glyphs() {
    let face = FontData::from_data(face_bytes(&[(0x41, 0x5a)])).unwrap();
    let charmap = face.charmap_proxy().materialize(&face.as_ref());
    assert_eq!(charmap.map('A'), 1);
    assert_eq!(charmap.map('C'), 3);
    assert_eq!(charmap.map('a'), 0);
    assert_eq!(face.charmap().map('B'), 2);
    assert_eq!(face.charmap().map('b'), 0);
}

#[test]
fn a_cluster_maps_to_a_face_that_has_its_glyph() {
    let face = FontData::from_data(face_bytes(&[(0x41, 0x5a)])).unwrap();
    assert!(Cluster::from_char('A').maps_to(&face));
    assert!(Cluster::from_char('Z').maps_to(&face));
    assert!(!Cluster::from_char('a').maps_to(&face));
    assert!(!Cluster::from_char('\u{4f60}').maps_to(&face));
    assert!(Cluster::new(vec!['Q']).unwrap().maps_to(&face));
}

#[test]
fn only_emoji_clusters_are_classified_emoji() {
    assert!(Cluster::from_char('\u{1f600}').is_emoji());
    assert!(!Cluster::from_char('A').is_emoji());
    assert!(!Cluster::from_char(' ').is_emoji());
}

#[test]
fn every_status_but_discard_is_accepted() {
    assert!(!accepts(MapStatus::Discard));
    assert!(accepts(MapStatus::Keep));
    assert!(accepts(MapStatus::Complete));
}

#[test]
fn a_lazy_face_loads_from_bytes_that_were_read() {
    let bytes = face_bytes(&[(0x1f600, 0x1f64f)]);
    let face = load_from_data_ref(Some(bytes.clone())).unwrap();
    assert_eq!(face.data(), bytes.as_slice());
    assert!(load_from_data_ref(None).is_none());
    assert!(load_from_data_ref(Some(vec![0, 1, 2, 3, 4])).is_none());
}

#[test]
fn a_face_is_made_of_what_was_found_in_its_file() {
    assert!(matches!(FontData::from_parts(vec![1, 2, 3], None), Err(FontError::FaceLoad)));
    let bytes = face_bytes(&[(0x41, 0x5a)]);
    let key = swash::CacheKey::new();
    let parts = FaceParts {
        offset: 0,
        key,
        charmap_proxy: swash::proxy::CharmapProxy::default(),
        attributes: swash::Attributes::default(),
    };
    let face = FontData::from_parts(bytes.clone(), Some(parts)).unwrap();
    assert_eq!(face.data(), bytes.as_slice());
    assert_eq!(face.as_ref().offset, 0);
    assert_eq!(face.as_ref().key, key);
    assert!(Cluster::from_char('A').maps_to(&face));
}
