use std::hash::{BuildHasher, Hash, Hasher};
use sugarloaf::compositor::{Color, OwnedSection};
use sugarloaf::glyph::DefaultSectionHasher;

fn section_with_text(text: &str) -> OwnedSection {
    OwnedSection {
        column: 0,
        row: 0,
        text: text.to_string(),
        font_id: 0,
        scale: None,
        color: Color { r: 0, g: 0, b: 0, a: 1 },
    }
}

#[test]
fn default_section_hasher() {
    let section_a = section_with_text("Hovered Tile: Some((0, 0))");
    let section_b = section_with_text("Hovered Tile: Some((1, 0))");
    let hash = |s: &OwnedSection| {
        let mut hasher = DefaultSectionHasher::default().build_hasher();
        s.hash(&mut hasher);
        hasher.finish()
    };
    assert_ne!(hash(&section_a), hash(&section_b));
}
