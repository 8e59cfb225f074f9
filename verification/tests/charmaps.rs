use sugarloaf::charmap::{
    charmap_safe, cmap_safe, group_safe, read_u16, read_u32, subtable_safe, CMAP_TAG,
};
use sugarloaf::cluster::{is_composable, pair_is_composable, Cluster};
use sugarloaf::font::{FontData, FontError};

/// A subtable of format 12 with the given groups: first, last, glyph of the first.
fn groups_subtable(groups: &[(u32, u32, u32)]) -> Vec<u8> {
    let mut subtable: Vec<u8> = Vec::new();
    subtable.extend(12u16.to_be_bytes());
    subtable.extend(0u16.to_be_bytes());
    subtable.extend((16 + 12 * groups.len() as u32).to_be_bytes());
    subtable.extend(0u32.to_be_bytes());
    subtable.extend((groups.len() as u32).to_be_bytes());
    for (first, last, glyph) in groups {
        subtable.extend(first.to_be_bytes());
        subtable.extend(last.to_be_bytes());
        subtable.extend(glyph.to_be_bytes());
    }
    subtable
}

/// A subtable of format 4 with one segment for the given characters and the closing one.
fn segments_subtable(first: u16, last: u16) -> Vec<u8> {
    let mut subtable: Vec<u8> = Vec::new();
    for word in [4u16, 32, 0, 4, 4, 1, 0, last, 0xffff, 0, first, 0xffff] {
        subtable.extend(word.to_be_bytes());
    }
    for word in [1u16.wrapping_sub(first), 1, 0, 0] {
        subtable.extend(word.to_be_bytes());
    }
    subtable
}

/// A font file whose only table is a character map table with one encoding.
fn font_of(subtable: &[u8]) -> Vec<u8> {
    let mut data: Vec<u8> = Vec::new();
    data.extend(0x0001_0000u32.to_be_bytes());
    data.extend(1u16.to_be_bytes());
    data.extend(16u16.to_be_bytes());
    data.extend(0u16.to_be_bytes());
    data.extend(0u16.to_be_bytes());
    data.extend(b"cmap");
    data.extend(0u32.to_be_bytes());
    data.extend(28u32.to_be_bytes());
    data.extend((12 + subtable.len() as u32).to_be_bytes());
    data.extend(0u16.to_be_bytes());
    data.extend(1u16.to_be_bytes());
    data.extend(3u16.to_be_bytes());
    data.extend(10u16.to_be_bytes());
    data.extend(12u32.to_be_bytes());
    data.extend(subtable);
    data
}

#[test]
fn numbers_are_read_with_the_highest_byte_first() {
    let data = [0x12u8, 0x34, 0x56, 0x78, 0x9a];
    assert_eq!(read_u16(&data, 0), 0x1234);
    assert_eq!(read_u16(&data, 3), 0x789a);
    assert_eq!(read_u32(&data, 0), 0x1234_5678);
    assert_eq!(read_u32(&data, 1), 0x3456_789a);
    assert_eq!(CMAP_TAG, u32::from_be_bytes(*b"cmap"));
}

#[test]
fn a_group_is_safe_where_its_last_glyph_fits() {
    let fits = groups_subtable(&[(0x41, 0x5a, 1), (0x61, 0x7a, u32::MAX - 25), (9, 3, u32::MAX)]);
    assert!(group_safe(&fits, 0, 0));
    assert!(group_safe(&fits, 0, 1));
    assert!(group_safe(&fits, 0, 2));
    let leaves = groups_subtable(&[(0x61, 0x7a, u32::MAX - 24), (0, u32::MAX, 1)]);
    assert!(!group_safe(&leaves, 0, 0));
    assert!(!group_safe(&leaves, 0, 1));
}

#[test]
fn a_subtable_is_safe_where_all_its_groups_are() {
    assert!(subtable_safe(&groups_subtable(&[(0x41, 0x5a, 1), (0x61, 0x7a, 27)]), 0));
    assert!(subtable_safe(&groups_subtable(&[]), 0));
    assert!(!subtable_safe(&groups_subtable(&[(0x41, 0x5a, 1), (0x61, 0x7a, u32::MAX)]), 0));
    let mut shifted = vec![0u8; 7];
    shifted.extend(groups_subtable(&[(0x41, 0x5a, u32::MAX)]));
    assert!(!subtable_safe(&shifted, 7));
    assert!(subtable_safe(&shifted, 0));
    assert!(subtable_safe(&shifted, 1000));
}

#[test]
fn a_subtable_of_groups_needs_its_header() {
    let whole = groups_subtable(&[]);
    assert!(subtable_safe(&whole[..1], 0));
    for len in 2..16 {
        assert!(!subtable_safe(&whole[..len], 0));
    }
    assert!(subtable_safe(&whole[..16], 0));
    let mut other_format = whole.clone();
    other_format[0] = 1;
    assert!(!subtable_safe(&other_format[..8], 0));
    other_format[1] = 4;
    assert!(subtable_safe(&other_format[..8], 0));
}

#[test]
fn groups_that_do_not_lie_in_the_file_are_not_looked_at() {
    let mut subtable = groups_subtable(&[(0x41, 0x5a, u32::MAX)]);
    subtable[15] = 2;
    assert!(subtable_safe(&subtable, 0));
    subtable[15] = 1;
    assert!(!subtable_safe(&subtable, 0));
}

#[test]
fn a_table_is_safe_where_the_subtables_of_its_encodings_are() {
    let safe = font_of(&groups_subtable(&[(0x41, 0x5a, 1)]));
    assert!(cmap_safe(&safe, 28));
    assert!(charmap_safe(&safe, 0));
    let unsafe_groups = font_of(&groups_subtable(&[(0x41, 0x5a, u32::MAX)]));
    assert!(!cmap_safe(&unsafe_groups, 28));
    assert!(!charmap_safe(&unsafe_groups, 0));
    assert!(cmap_safe(&unsafe_groups, 4000));
    assert!(charmap_safe(&unsafe_groups, 4000));
    assert!(charmap_safe(&[], 0));
    let mut other_tag = unsafe_groups.clone();
    other_tag[12] = b'k';
    assert!(charmap_safe(&other_tag, 0));
    let mut no_tables = unsafe_groups.clone();
    no_tables[5] = 0;
    assert!(charmap_safe(&no_tables, 0));
    let mut no_encodings = unsafe_groups;
    no_encodings[31] = 0;
    assert!(charmap_safe(&no_encodings, 0));
}

#[test]
fn a_font_with_an_unsafe_character_map_is_refused() {
    let overflowing = font_of(&groups_subtable(&[(0x41, 0x5a, u32::MAX)]));
    assert!(matches!(FontData::from_data(overflowing), Err(FontError::FaceLoad)));
    let whole = font_of(&groups_subtable(&[]));
    let cut = whole[..whole.len() - 4].to_vec();
    assert!(matches!(FontData::from_data(cut), Err(FontError::FaceLoad)));
    assert!(FontData::from_data(whole).is_ok());
}

#[test]
fn a_font_with_segments_is_read_as_swash_reads_it() {
    let face = FontData::from_data(font_of(&segments_subtable(0x41, 0x5a))).unwrap();
    assert!(Cluster::from_char('A').maps_to(&face));
    assert!(Cluster::from_char('Z').maps_to(&face));
    assert!(!Cluster::from_char('a').maps_to(&face));
    assert!(!Cluster::from_char('\u{1f600}').maps_to(&face));
}

#[test]
fn a_format_is_taken_as_a_byte() {
    let mut subtable = groups_subtable(&[(0x41, 0x5a, u32::MAX)]);
    subtable[0] = 1;
    assert!(matches!(FontData::from_data(font_of(&subtable)), Err(FontError::FaceLoad)));
    subtable[1] = 13;
    let face = FontData::from_data(font_of(&subtable)).unwrap();
    assert!(!Cluster::from_char('B').maps_to(&face));
}

/// Whatever bytes a face loads from, glyphs can be looked up in it.
#[test]
fn files_that_load_can_be_looked_up_in() {
    let seeds = [
        font_of(&groups_subtable(&[(0x41, 0x5a, 1), (0x61, 0x7a, 27), (0x4e00, 0x9fff, 60)])),
        font_of(&segments_subtable(0x41, 0x5a)),
    ];
    let mut state: u64 = 0x2545_f491_4f6c_dd1d;
    let mut next = move || {
        state ^= state << 13;
        state ^= state >> 7;
        state ^= state << 17;
        state
    };
    let mut loaded = 0;
    for round in 0..6000 {
        let mut data = seeds[round % 2].clone();
        for _ in 0..(1 + next() % 3) {
            let at = (next() % data.len() as u64) as usize;
            data[at] = match next() % 4 {
                0 => 0,
                1 => 0xff,
                2 => 12,
                _ => next() as u8,
            };
        }
        if next() % 5 == 0 {
            data.truncate((next() % data.len() as u64) as usize);
        }
        if let Ok(face) = FontData::from_data(data) {
            loaded += 1;
            for ch in ['A', 'Z', 'a', '\u{ff}', '\u{4e00}', '\u{ffff}', '\u{10ffff}'] {
                let _ = Cluster::from_char(ch).maps_to(&face);
            }
            let _ = face.attributes();
        }
    }
    assert!(loaded > 1000);
}

/// Every character can be classified and looked up on its own.
#[test]
fn every_character_can_be_looked_up() {
    let face = FontData::from_data(font_of(&groups_subtable(&[(0, 0x10ffff, 1)]))).unwrap();
    let mut emoji = 0;
    let mut mapped = 0;
    for code in (0..=0x10ffffu32).step_by(3) {
        if let Some(ch) = char::from_u32(code) {
            let cluster = Cluster::from_char(ch);
            if cluster.is_emoji() {
                emoji += 1;
            }
            if cluster.maps_to(&face) {
                mapped += 1;
            }
        }
    }
    assert!(emoji > 100);
    assert!(mapped > 300_000);
}

/// Clusters of many characters, more than swash keeps in one cluster, can be looked up.
#[test]
fn long_clusters_can_be_looked_up() {
    let face = FontData::from_data(font_of(&groups_subtable(&[(0x41, 0x5a, 1)]))).unwrap();
    let alphabet = [
        'A', 'e', '\u{301}', '\u{200d}', '\u{1f600}', '\u{fe0f}', '\u{1f1e6}', '\u{1100}',
        '\u{1161}', '\u{11a8}', '\r', '\n', '\u{0}', '\u{e01}', '\u{e31}', '\u{1f3fb}',
    ];
    let mut state: u64 = 0x9e37_79b9_7f4a_7c15;
    for _ in 0..4000 {
        let mut chars = Vec::new();
        state = state.wrapping_mul(6364136223846793005).wrapping_add(1442695040888963407);
        let len = (state >> 33) % 48;
        for _ in 0..len {
            state = state.wrapping_mul(6364136223846793005).wrapping_add(1442695040888963407);
            chars.push(alphabet[((state >> 33) % alphabet.len() as u64) as usize]);
        }
        if let Some(cluster) = Cluster::new(chars) {
            let _ = cluster.is_emoji();
            let _ = cluster.maps_to(&face);
        }
    }
    assert!(Cluster::new(Vec::new()).unwrap().maps_to(&face));
    assert!(!Cluster::new(Vec::new()).unwrap().is_emoji());
}

/// A font file with a table of metrics, a character map table and a table of variations.
fn font_with_attributes(subtable: &[u8]) -> Vec<u8> {
    let mut os2: Vec<u8> = Vec::new();
    for word in [4u16, 500, 700, 5, 0, 0, 0, 0, 0, 0, 0, 0, 0, 0, 0, 0] {
        os2.extend(word.to_be_bytes());
    }
    os2.extend([0u8; 30]);
    os2.extend(0x0021u16.to_be_bytes());
    os2.extend([0u8; 32]);
    let mut cmap: Vec<u8> = Vec::new();
    cmap.extend(0u16.to_be_bytes());
    cmap.extend(1u16.to_be_bytes());
    cmap.extend(3u16.to_be_bytes());
    cmap.extend(10u16.to_be_bytes());
    cmap.extend(12u32.to_be_bytes());
    cmap.extend(subtable);
    let mut fvar: Vec<u8> = Vec::new();
    for word in [1u16, 0, 16, 2, 2, 20, 0, 4] {
        fvar.extend(word.to_be_bytes());
    }
    for tag in [b"wght", b"slnt"] {
        fvar.extend(tag);
        fvar.extend(0x0064_0000u32.to_be_bytes());
        fvar.extend(0x0190_0000u32.to_be_bytes());
        fvar.extend(0x0384_0000u32.to_be_bytes());
        fvar.extend(0u16.to_be_bytes());
        fvar.extend(256u16.to_be_bytes());
    }
    let mut data: Vec<u8> = Vec::new();
    data.extend(0x0001_0000u32.to_be_bytes());
    data.extend(3u16.to_be_bytes());
    data.extend(32u16.to_be_bytes());
    data.extend(1u16.to_be_bytes());
    data.extend(16u16.to_be_bytes());
    let mut at = 12 + 3 * 16;
    for (tag, table) in [(b"OS/2", &os2), (b"cmap", &cmap), (b"fvar", &fvar)] {
        data.extend(tag);
        data.extend(0u32.to_be_bytes());
        data.extend((at as u32).to_be_bytes());
        data.extend((table.len() as u32).to_be_bytes());
        at += table.len();
    }
    data.extend(os2);
    data.extend(cmap);
    data.extend(fvar);
    data
}

#[test]
fn the_attributes_of_a_font_are_read() {
    let data = font_with_attributes(&groups_subtable(&[(0x41, 0x5a, 1)]));
    let face = FontData::from_data(data).unwrap();
    assert_eq!(face.weight(), swash::Weight(700));
    assert_eq!(face.style(), swash::Style::Italic);
    assert_eq!(face.stretch(), swash::Stretch::NORMAL);
    assert!(face.attributes().has_weight_variation());
    assert!(face.attributes().has_oblique_variation());
    assert!(!face.synthesis().any());
    assert!(Cluster::from_char('A').maps_to(&face));
}

/// Whatever bytes a face with several tables loads from, it can be read.
#[test]
fn files_with_several_tables_can_be_read() {
    let seed = font_with_attributes(&groups_subtable(&[(0x41, 0x5a, 1), (0x61, 0x7a, 27)]));
    let mut state: u64 = 0x1234_5678_9abc_def1;
    let mut next = move || {
        state ^= state << 13;
        state ^= state >> 7;
        state ^= state << 17;
        state
    };
    let mut loaded = 0;
    for _ in 0..6000 {
        let mut data = seed.clone();
        for _ in 0..(1 + next() % 4) {
            let at = (next() % data.len() as u64) as usize;
            data[at] = match next() % 4 {
                0 => 0,
                1 => 0xff,
                2 => 12,
                _ => next() as u8,
            };
        }
        if next() % 5 == 0 {
            data.truncate((next() % data.len() as u64) as usize);
        }
        if let Ok(face) = FontData::from_data(data) {
            loaded += 1;
            for ch in ['A', 'z', '\u{ff}', '\u{10ffff}'] {
                let _ = Cluster::from_char(ch).maps_to(&face);
            }
            let _ = face.attributes();
            let _ = face.charmap().map('A');
        }
    }
    assert!(loaded > 1000);
}

#[test]
fn a_face_keeps_the_weight_and_style_that_its_font_states() {
    let mut data = font_with_attributes(&groups_subtable(&[(0x41, 0x5a, 1)]));
    let italic = FontData::from_data(data.clone()).unwrap();
    assert_eq!(italic.weight(), italic.attributes().weight());
    assert_eq!(italic.style(), italic.attributes().style());
    assert_eq!(italic.stretch(), italic.attributes().stretch());
    assert_eq!(italic.weight().0, ((italic.attributes().0 >> 9) & 0x3ff) as u16);
    assert_eq!(italic.attributes().0 & 0x1ff, 0b110);
    assert_eq!(italic.clone().weight(), swash::Weight(700));
    data[122] = 0x02;
    data[123] = 0x00;
    data[65] = 0x2c;
    data[64] = 0x01;
    let oblique = FontData::from_data(data.clone()).unwrap();
    assert!(matches!(oblique.style(), swash::Style::Oblique(_)));
    assert_eq!(oblique.attributes().0 & 1, 1);
    assert_eq!(oblique.weight(), swash::Weight(300));
    assert_eq!(oblique.style(), oblique.attributes().style());
    data[122] = 0x00;
    data[123] = 0x40;
    let upright = FontData::from_data(data).unwrap();
    assert_eq!(upright.style(), swash::Style::Normal);
    assert_ne!(upright.attributes().0 & 0x1ff, 0b110);
    assert_eq!(upright.attributes().0 & 1, 0);
}

#[test]
fn hangul_composes_only_in_order() {
    let leading = '\u{1100}';
    let vowel = '\u{1161}';
    let old_vowel = '\u{1176}';
    let trailing = '\u{11a8}';
    let open = '\u{ac00}';
    let closed = '\u{ac01}';
    assert!(pair_is_composable(leading, vowel));
    assert!(pair_is_composable('\u{1112}', '\u{1175}'));
    assert!(!pair_is_composable(leading, old_vowel));
    assert!(!pair_is_composable(leading, '\u{11a6}'));
    assert!(!pair_is_composable(leading, trailing));
    assert!(!pair_is_composable(leading, '\u{11a7}'));
    assert!(!pair_is_composable(open, vowel));
    assert!(!pair_is_composable(closed, vowel));
    assert!(!pair_is_composable(vowel, vowel));
    assert!(!pair_is_composable(trailing, vowel));
    assert!(!pair_is_composable('\u{d7a3}', '\u{11a6}'));
    assert!(pair_is_composable('a', vowel));
    assert!(pair_is_composable('\u{d7a4}', vowel));
    assert!(pair_is_composable('\u{1113}', vowel));
    assert!(pair_is_composable(open, trailing));
    assert!(pair_is_composable(closed, trailing));
    assert!(pair_is_composable(vowel, trailing));
    assert!(pair_is_composable(trailing, '\u{11c2}'));
    assert!(pair_is_composable('a', trailing));
    assert!(pair_is_composable(leading, '\u{11c3}'));
    assert!(pair_is_composable(open, '\u{1160}'));
    assert!(pair_is_composable(open, leading));
    assert!(pair_is_composable(open, open));
    assert!(pair_is_composable(leading, 'a'));
    assert!(is_composable(&Vec::new()));
    assert!(is_composable(&vec![vowel]));
    assert!(is_composable(&vec![leading, vowel, trailing]));
    assert!(is_composable(&vec!['a', leading, vowel, trailing, 'b']));
    assert!(!is_composable(&vec![leading, vowel, vowel]));
    assert!(!is_composable(&vec!['a', 'b', open, vowel]));
    assert!(!is_composable(&vec![leading, trailing, 'a']));
}

#[test]
fn a_cluster_holds_only_what_composes() {
    let face = FontData::from_data(font_of(&groups_subtable(&[(0x41, 0x5a, 1)]))).unwrap();
    assert!(Cluster::new(vec!['\u{ac00}', '\u{1161}']).is_none());
    assert!(Cluster::new(vec!['\u{1100}', '\u{11a8}']).is_none());
    assert!(Cluster::new(vec!['\u{1100}', '\u{1161}', '\u{1162}']).is_none());
    let jamo = Cluster::new(vec!['\u{1100}', '\u{1161}', '\u{11a8}']).unwrap();
    assert!(!jamo.maps_to(&face));
    assert!(!jamo.clone().maps_to(&face));
    let syllable = Cluster::new(vec!['\u{ac00}', '\u{11a8}']).unwrap();
    assert!(!syllable.maps_to(&face));
    let hangul = FontData::from_data(font_of(&groups_subtable(&[(0xac00, 0xd7a3, 1)]))).unwrap();
    assert!(jamo.maps_to(&hangul));
    assert!(syllable.maps_to(&hangul));
    assert!(Cluster::from_char('\u{1161}').maps_to(&hangul) == false);
}

/// Whatever characters a cluster is made of, it can be classified and looked up.
#[test]
fn every_cluster_of_hangul_can_be_looked_up() {
    let latin = FontData::from_data(font_of(&groups_subtable(&[(0x41, 0x5a, 1)]))).unwrap();
    let hangul = FontData::from_data(font_of(&groups_subtable(&[(0xac00, 0xd7a3, 1)]))).unwrap();
    let jamo = FontData::from_data(font_of(&groups_subtable(&[(0x1100, 0x11ff, 1)]))).unwrap();
    let alphabet = [
        '\u{1100}', '\u{1112}', '\u{1161}', '\u{1175}', '\u{1176}', '\u{11a6}', '\u{11a7}',
        '\u{11a8}', '\u{11c2}', '\u{ac00}', '\u{d788}', '\u{ac01}', '\u{d7a3}', 'A',
        '\u{301}', '\u{200d}', '\u{600}', '\u{1160}', '\u{115f}', '\u{11c3}', '\u{d7b0}',
        '\u{a960}',
    ];
    let mut made = 0;
    let mut refused = 0;
    for len in 1..=4usize {
        let mut at = vec![0usize; len];
        loop {
            let chars: Vec<char> = at.iter().map(|index| alphabet[*index]).collect();
            match Cluster::new(chars) {
                Some(cluster) => {
                    made += 1;
                    let _ = cluster.is_emoji();
                    let _ = cluster.maps_to(&latin);
                    let _ = cluster.maps_to(&hangul);
                    let _ = cluster.maps_to(&jamo);
                }
                None => refused += 1,
            }
            let mut place = 0;
            while place < len {
                at[place] += 1;
                if at[place] < alphabet.len() {
                    break;
                }
                at[place] = 0;
                place += 1;
            }
            if place == len {
                break;
            }
        }
    }
    assert!(made > 100_000);
    assert!(refused > 10_000);
}

/// A collection that lists one font, which starts 16 bytes in.
fn collection_of(subtable: &[u8]) -> Vec<u8> {
    let mut font = font_of(subtable);
    font[20..24].copy_from_slice(&44u32.to_be_bytes());
    let mut data: Vec<u8> = Vec::new();
    data.extend(b"ttcf");
    data.extend(0x0001_0000u32.to_be_bytes());
    data.extend(1u32.to_be_bytes());
    data.extend(16u32.to_be_bytes());
    data.extend(font);
    data
}

#[test]
fn the_first_font_of_a_collection_is_loaded_from_its_offset() {
    let data = collection_of(&groups_subtable(&[(0x41, 0x5a, 1)]));
    let face = FontData::from_data(data.clone()).unwrap();
    assert_eq!(face.as_ref().offset, 16);
    assert!(Cluster::from_char('A').maps_to(&face));
    assert!(!Cluster::from_char('a').maps_to(&face));
    let mut none_listed = data.clone();
    none_listed[11] = 0;
    assert!(matches!(FontData::from_data(none_listed), Err(FontError::FaceLoad)));
    let mut no_font_there = data.clone();
    no_font_there[15] = 17;
    assert!(matches!(FontData::from_data(no_font_there), Err(FontError::FaceLoad)));
    let mut beyond = data.clone();
    beyond[12] = 0x7f;
    assert!(matches!(FontData::from_data(beyond), Err(FontError::FaceLoad)));
    assert!(matches!(FontData::from_data(data[..15].to_vec()), Err(FontError::FaceLoad)));
    assert!(matches!(FontData::from_data(data[..11].to_vec()), Err(FontError::FaceLoad)));
    let unsafe_groups = collection_of(&groups_subtable(&[(0x41, 0x5a, u32::MAX)]));
    assert!(matches!(FontData::from_data(unsafe_groups), Err(FontError::FaceLoad)));
}

#[test]
fn a_font_opens_with_one_of_three_tags() {
    let data = font_of(&groups_subtable(&[(0x41, 0x5a, 1)]));
    for tag in [*b"OTTO", *b"true", [0, 1, 0, 0]] {
        let mut tagged = data.clone();
        tagged[..4].copy_from_slice(&tag);
        assert_eq!(FontData::from_data(tagged).unwrap().as_ref().offset, 0);
    }
    for tag in [*b"otto", *b"TRUE", [0, 1, 0, 1], [0, 0, 0, 0]] {
        let mut tagged = data.clone();
        tagged[..4].copy_from_slice(&tag);
        assert!(matches!(FontData::from_data(tagged), Err(FontError::FaceLoad)));
    }
    assert!(matches!(FontData::from_data(data[..3].to_vec()), Err(FontError::FaceLoad)));
    assert!(FontData::from_data(data[..4].to_vec()).is_ok());
}
