//! The line compositor: turns the cells of a grid line into glyph sections and rectangles.
//!
//! Positions and sizes are counted in cells: a column is the width of one narrow cell, a row
//! is one line. The host scales them to pixels.

use crate::cluster::Cluster;
use crate::context::{emoji_wanted, resolve, ContextState, FontContext, FragmentStyle, WEIGHT_BOLD};
use crate::font::{FontData, FONT_ID_REGULAR};
use crate::fonts::DEFAULT_WEIGHT;
use crate::library::{FontLibrary, FontLibraryData, SlotRole};
use fnv::FnvHashMap;
use unicode_width::UnicodeWidthChar;
use vstd::prelude::*;

verus! {

/// `fnv::FnvHasher`, the hasher of the character cache.
#[verifier::external_type_specification]
#[verifier::external_body]
pub struct ExFnvHasher(fnv::FnvHasher);

/// `std::hash::BuildHasherDefault`, the builder of the FNV hasher.
#[verifier::external_type_specification]
#[verifier::external_body]
#[verifier::reject_recursive_types(H)]
pub struct ExBuildHasherDefault<H>(std::hash::BuildHasherDefault<H>);

/// `String::push`: the character is appended.
pub assume_specification[ String::push ](text: &mut String, ch: char)
    ensures
        final(text)@ == old(text)@.push(ch),
;

/// The width of a character in columns as `unicode_width` tells it; none for a control
/// character.
pub uninterp spec fn char_columns(ch: char) -> Option<usize>;

/// `unicode_width::UnicodeWidthChar::width`: the displayed width of a character in columns,
/// which depends on the character alone.
#[verifier::external_body]
fn unicode_width(ch: char) -> (width: Option<usize>)
    ensures
        width == char_columns(ch),
{
    ch.width()
}

/// `FnvHashMap::default`: a map without entries.
#[verifier::external_body]
fn cache_new() -> (cache: FnvHashMap<char, CachedSugar>)
    ensures
        cache@ == (Map::<char, CachedSugar>::empty()),
{
    FnvHashMap::default()
}

/// `HashMap::get` on a map with the FNV hasher: the entry of the key, if there is one.
#[verifier::external_body]
fn cache_get(cache: &FnvHashMap<char, CachedSugar>, ch: char) -> (entry: Option<CachedSugar>)
    ensures
        entry is Some == cache@.contains_key(ch),
        entry matches Some(found) ==> found == cache@[ch],
{
    cache.get(&ch).copied()
}

/// `HashMap::insert` on a map with the FNV hasher: the key has the new entry, all other
/// keys are as before.
#[verifier::external_body]
fn cache_insert(cache: &mut FnvHashMap<char, CachedSugar>, ch: char, entry: CachedSugar)
    ensures
        final(cache)@ == old(cache)@.insert(ch, entry),
{
    cache.insert(ch, entry);
}

/// `HashMap::clear` on a map with the FNV hasher: no entry is left.
#[verifier::external_body]
fn cache_clear(cache: &mut FnvHashMap<char, CachedSugar>)
    ensures
        final(cache)@ == (Map::<char, CachedSugar>::empty()),
{
    cache.clear();
}

/// A colour: its four channels, as the host encodes them.
#[derive(Clone, Copy, Debug, PartialEq, Eq, Structural, Hash)]
pub struct Color {
    pub r: u32,
    pub g: u32,
    pub b: u32,
    pub a: u32,
}

/// The cursor on a cell, with its colour.
#[derive(Clone, Copy, Debug, PartialEq, Eq, Structural)]
pub enum FragmentCursor {
    Block(Color),
    Caret(Color),
    Underline(Color),
    Disabled,
}

/// The line drawn through or under a cell.
#[derive(Clone, Copy, Debug, PartialEq, Eq, Structural)]
pub enum FragmentDecoration {
    Underline,
    Strikethrough,
    Disabled,
}

/// The emphasis of a cell.
#[derive(Clone, Copy, Debug, PartialEq, Eq, Structural)]
pub struct FragmentStyleFlags {
    pub is_italic: bool,
    pub is_bold: bool,
    pub is_bold_italic: bool,
}

impl FragmentStyleFlags {
    /// The style to ask the resolver for: bold italic before bold before italic.
    pub open spec fn spec_request(&self) -> FragmentStyle {
        if self.is_bold_italic {
            FragmentStyle { weight: WEIGHT_BOLD, italic: true }
        } else if self.is_bold {
            FragmentStyle { weight: WEIGHT_BOLD, italic: false }
        } else if self.is_italic {
            FragmentStyle { weight: DEFAULT_WEIGHT, italic: true }
        } else {
            FragmentStyle { weight: DEFAULT_WEIGHT, italic: false }
        }
    }

    /// The style to ask the resolver for: bold italic before bold before italic.
    #[verifier::when_used_as_spec(spec_request)]
    pub fn request(&self) -> (style: FragmentStyle)
        ensures
            style == self.spec_request(),
    {
        if self.is_bold_italic {
            FragmentStyle { weight: WEIGHT_BOLD, italic: true }
        } else if self.is_bold {
            FragmentStyle { weight: WEIGHT_BOLD, italic: false }
        } else if self.is_italic {
            FragmentStyle { weight: DEFAULT_WEIGHT, italic: true }
        } else {
            FragmentStyle { weight: DEFAULT_WEIGHT, italic: false }
        }
    }
}

/// One entry of a grid line: a character that stands for `repeated + 1` equal cells.
#[derive(Clone, Copy, Debug, PartialEq, Eq, Structural)]
pub struct Fragment {
    pub content: char,
    pub repeated: u32,
    pub foreground_color: Color,
    pub background_color: Color,
    pub style: FragmentStyleFlags,
    pub decoration: FragmentDecoration,
    pub cursor: FragmentCursor,
}

/// A glyph scale other than that of text: the cell's height, by so many columns.
#[derive(Clone, Copy, Debug, PartialEq, Eq, Structural, Hash)]
pub struct PxScale {
    pub columns: u8,
}

/// What the compositor remembers of a character.
#[derive(Clone, Copy, Debug, PartialEq, Eq, Structural)]
pub struct CachedSugar {
    /// The slot that the character resolves to in the regular style.
    pub font_id: usize,
    /// The width of the character: one column or two.
    pub char_width: u8,
    /// The scale of its glyph, where it is not that of text.
    pub px_scale: Option<PxScale>,
}

/// The width of a cell for a character of the given width: two columns for a wide
/// character, one for every other.
pub open spec fn cell_columns(width: Option<usize>) -> u8 {
    match width {
        Some(columns) => if columns > 1 {
            2
        } else {
            1
        },
        None => 1,
    }
}

/// The width of a cell for a character of the given width: two columns for a wide
/// character, one for every other.
pub fn cell_width(width: Option<usize>) -> (columns: u8)
    ensures
        columns == cell_columns(width),
{
    match width {
        Some(columns) => if columns > 1 {
            2
        } else {
            1
        },
        None => 1,
    }
}

/// The glyph scale for a slot's role and a character's width. Text faces have none of their
/// own. An extra face, which holds icons, fills one column; a fallback or symbol face fills
/// the character's width; the emoji face fills two columns.
pub open spec fn scale_override(role: SlotRole, char_width: u8) -> Option<PxScale> {
    match role {
        SlotRole::Extra => Some(PxScale { columns: 1 }),
        SlotRole::Fallback => Some(PxScale { columns: char_width }),
        SlotRole::Symbol => Some(PxScale { columns: char_width }),
        SlotRole::Emoji => Some(PxScale { columns: 2 }),
        _ => None,
    }
}

/// The glyph scale for a slot's role and a character's width.
pub fn scale_for(role: SlotRole, char_width: u8) -> (scale: Option<PxScale>)
    ensures
        scale == scale_override(role, char_width),
{
    match role {
        SlotRole::Extra => Some(PxScale { columns: 1 }),
        SlotRole::Fallback => Some(PxScale { columns: char_width }),
        SlotRole::Symbol => Some(PxScale { columns: char_width }),
        SlotRole::Emoji => Some(PxScale { columns: 2 }),
        _ => None,
    }
}

/// What is remembered of a character that resolved to `font_id` in the regular style, or to
/// no slot: then the regular face renders its missing glyph.
pub open spec fn measured(ch: char, font_id: Option<usize>, library: FontLibraryData) -> CachedSugar {
    let slot = match font_id {
        Some(found) => found,
        None => FONT_ID_REGULAR,
    };
    let char_width = cell_columns(char_columns(ch));
    CachedSugar {
        font_id: slot,
        char_width,
        px_scale: scale_override(library.spec_role(slot), char_width),
    }
}

/// What is remembered of a character, from the slot that it resolved to and its width.
pub fn measure(font_id: Option<usize>, width: Option<usize>, library: &FontLibraryData) -> (sugar:
    CachedSugar)
    ensures
        sugar.font_id == (match font_id {
            Some(found) => found,
            None => FONT_ID_REGULAR,
        }),
        sugar.char_width == cell_columns(width),
        sugar.px_scale == scale_override(library.spec_role(sugar.font_id), sugar.char_width),
{
    let slot = match font_id {
        Some(found) => found,
        None => FONT_ID_REGULAR,
    };
    let char_width = cell_width(width);
    CachedSugar { font_id: slot, char_width, px_scale: scale_for(library.role(slot), char_width) }
}

/// Whether each remembered width is the width of the cell of its character: one column, or
/// two for a wide character.
pub open spec fn widths_measured(cache: Map<char, CachedSugar>) -> bool {
    forall|ch: char| #[trigger]
        cache.contains_key(ch) ==> cache[ch].char_width == cell_columns(char_columns(ch))
}

/// What is remembered of characters. Each remembered width is the width of the cell of its
/// character.
struct SugarCache {
    map: FnvHashMap<char, CachedSugar>,
}

impl View for SugarCache {
    type V = Map<char, CachedSugar>;

    closed spec fn view(&self) -> Map<char, CachedSugar> {
        self.map@
    }
}

impl SugarCache {
    #[verifier::type_invariant]
    spec fn every_width_is_measured(self) -> bool {
        widths_measured(self.map@)
    }

    /// A cache that remembers nothing.
    fn new() -> (cache: Self)
        ensures
            cache@ == Map::<char, CachedSugar>::empty(),
    {
        SugarCache { map: cache_new() }
    }

    /// What is remembered of a character.
    fn get(&self, ch: char) -> (entry: Option<CachedSugar>)
        ensures
            entry is Some == self@.contains_key(ch),
            entry matches Some(found) ==> found == self@[ch] && found.char_width == cell_columns(
                char_columns(ch),
            ),
            widths_measured(self@),
    {
        proof {
            use_type_invariant(self);
        }
        cache_get(&self.map, ch)
    }

    /// The cache that remembers of a character what is given, and all else as before. The
    /// width has to be that of the character's cell, which `measure` sees to.
    fn with(self, ch: char, entry: CachedSugar) -> (cache: Self)
        requires
            entry.char_width == cell_columns(char_columns(ch)),
        ensures
            cache@ == self@.insert(ch, entry),
    {
        proof {
            use_type_invariant(&self);
        }
        let SugarCache { map } = self;
        let mut map = map;
        cache_insert(&mut map, ch, entry);
        SugarCache { map }
    }

    /// The cache with nothing remembered.
    fn cleared(self) -> (cache: Self)
        ensures
            cache@ == Map::<char, CachedSugar>::empty(),
    {
        let SugarCache { map } = self;
        let mut map = map;
        cache_clear(&mut map);
        SugarCache { map }
    }
}

/// The columns that a character of the remembered width takes: two if it is wide, else one.
pub open spec fn wide_columns(sugar: CachedSugar) -> int {
    if sugar.char_width > 1 {
        2
    } else {
        1
    }
}

/// The columns that an entry of a line covers: those of its character, for each of the
/// cells that it stands for.
pub open spec fn cell_span(cell: Fragment, sugar: CachedSugar) -> int {
    wide_columns(sugar) * (cell.repeated + 1)
}

/// The columns that the first `count` entries of a line cover together: the x-cursor after
/// them.
pub open spec fn columns_before(
    cells: Seq<Fragment>,
    cache: Map<char, CachedSugar>,
    count: int,
) -> int
    decreases count,
{
    if count <= 0 {
        0
    } else {
        columns_before(cells, cache, count - 1) + cell_span(
            cells[count - 1],
            cache[cells[count - 1].content],
        )
    }
}

/// The columns that the first `count` entries of a line cover if every character is wide.
pub open spec fn max_columns(cells: Seq<Fragment>, count: int) -> int
    decreases count,
{
    if count <= 0 {
        0
    } else {
        max_columns(cells, count - 1) + 2 * (cells[count - 1].repeated + 1)
    }
}

/// A shorter part of a line covers no more columns.
pub proof fn lemma_max_columns_grow(cells: Seq<Fragment>, shorter: int, longer: int)
    requires
        shorter <= longer,
    ensures
        0 <= max_columns(cells, shorter) <= max_columns(cells, longer),
    decreases longer,
{
    if longer > 0 && shorter < longer {
        lemma_max_columns_grow(cells, shorter, longer - 1);
    } else if longer > 0 {
        lemma_max_columns_grow(cells, shorter - 1, longer - 1);
    }
}

/// The x-cursor never passes the columns that the entries cover if every character is wide.
pub proof fn lemma_columns_bounded(cells: Seq<Fragment>, cache: Map<char, CachedSugar>, count: int)
    ensures
        0 <= columns_before(cells, cache, count) <= max_columns(cells, count),
    decreases count,
{
    if count > 0 {
        lemma_columns_bounded(cells, cache, count - 1);
        let cell = cells[count - 1];
        let sugar = cache[cell.content];
        assert(cell_span(cell, sugar) <= 2 * (cell.repeated + 1)) by (nonlinear_arith)
            requires
                cell_span(cell, sugar) == wide_columns(sugar) * (cell.repeated + 1),
                1 <= wide_columns(sugar) <= 2,
                cell.repeated >= 0,
        ;
        assert(0 <= cell_span(cell, sugar)) by (nonlinear_arith)
            requires
                cell_span(cell, sugar) == wide_columns(sugar) * (cell.repeated + 1),
                1 <= wide_columns(sugar) <= 2,
                cell.repeated >= 0,
        ;
    }
}

/// A grid line: its live cells, in column order. The columns that they can cover fit in a
/// `u64`.
pub struct RenderLine {
    cells: Vec<Fragment>,
    acc: usize,
}

impl View for RenderLine {
    type V = Seq<Fragment>;

    closed spec fn view(&self) -> Seq<Fragment> {
        self.cells@.take(self.acc as int)
    }
}

impl RenderLine {
    #[verifier::type_invariant]
    spec fn live_cells_fit(self) -> bool {
        &&& self.acc <= self.cells@.len()
        &&& max_columns(self.cells@.take(self.acc as int), self.acc as int) <= u64::MAX
    }

    /// The line of the first `acc` of the cells: none where there are fewer cells, or where
    /// the columns that they can cover do not fit in a `u64`.
    pub fn new(cells: Vec<Fragment>, acc: usize) -> (line: Option<Self>)
        ensures
            line is Some == (acc <= cells@.len() && max_columns(cells@.take(acc as int), acc as int)
                <= u64::MAX),
            line matches Some(made) ==> made@ == cells@.take(acc as int),
    {
        if acc > cells.len() {
            return None;
        }
        let ghost live = cells@.take(acc as int);
        let mut total: u64 = 0;
        let mut at: usize = 0;
        while at < acc
            invariant
                at <= acc <= cells@.len(),
                live == cells@.take(acc as int),
                total == max_columns(live, at as int),
            decreases acc - at,
        {
            let span: u64 = 2 * (cells[at].repeated as u64 + 1);
            assert(live[at as int] == cells@[at as int]);
            if span > u64::MAX - total {
                proof {
                    lemma_max_columns_grow(live, at + 1, acc as int);
                }
                return None;
            }
            total += span;
            at += 1;
        }
        Some(RenderLine { cells, acc })
    }

    /// Number of live cells.
    pub fn len(&self) -> (len: usize)
        ensures
            len == self@.len(),
            max_columns(self@, len as int) <= u64::MAX,
    {
        proof {
            use_type_invariant(self);
        }
        self.acc
    }

    /// One of the live cells.
    pub fn get(&self, index: usize) -> (cell: &Fragment)
        requires
            index < self@.len(),
        ensures
            *cell == self@[index as int],
    {
        proof {
            use_type_invariant(self);
        }
        &self.cells[index]
    }
}

/// What a rectangle is drawn for.
#[derive(Clone, Copy, Debug, PartialEq, Eq, Structural)]
pub enum RectKind {
    /// The background of the cells.
    Background,
    /// A block cursor, which covers the cells.
    CursorBlock,
    /// A caret cursor, a thin bar at the left of the cells.
    CursorCaret,
    /// An underline cursor, a bar near the baseline.
    CursorUnderline,
    /// An underline, a thin bar near the baseline.
    Underline,
    /// A strikethrough, a thin bar at half the height.
    Strikethrough,
}

impl RectKind {
    /// The width of a rectangle of this kind, in thousandths of the columns it covers: a
    /// caret takes 2%, an underline cursor 10%, all others the whole.
    pub open spec fn spec_width_permille(&self) -> u16 {
        match self {
            RectKind::CursorCaret => 20,
            RectKind::CursorUnderline => 100,
            _ => 1000,
        }
    }

    /// The width of a rectangle of this kind, in thousandths of the columns it covers.
    #[verifier::when_used_as_spec(spec_width_permille)]
    pub fn width_permille(&self) -> (permille: u16)
        ensures
            permille == self.spec_width_permille(),
    {
        match self {
            RectKind::CursorCaret => 20,
            RectKind::CursorUnderline => 100,
            _ => 1000,
        }
    }

    /// The height of a rectangle of this kind, in thousandths of the height of a cell: an
    /// underline and a strikethrough take 2.5%, all others the whole.
    pub open spec fn spec_height_permille(&self) -> u16 {
        match self {
            RectKind::Underline => 25,
            RectKind::Strikethrough => 25,
            _ => 1000,
        }
    }

    /// The height of a rectangle of this kind, in thousandths of the height of a cell.
    #[verifier::when_used_as_spec(spec_height_permille)]
    pub fn height_permille(&self) -> (permille: u16)
        ensures
            permille == self.spec_height_permille(),
    {
        match self {
            RectKind::Underline => 25,
            RectKind::Strikethrough => 25,
            _ => 1000,
        }
    }
}

/// A rectangle to draw: from `column` in the line `row`, over `columns` columns.
#[derive(Clone, Copy, Debug, PartialEq, Eq, Structural)]
pub struct Rect {
    pub column: u64,
    pub row: u16,
    pub columns: u64,
    pub kind: RectKind,
    pub color: Color,
}

/// A run of glyphs to draw: the text, starting at `column` in the line `row`, in the face of
/// the slot `font_id`, at the scale of text or at the scale given.
#[derive(Clone, Debug, PartialEq, Eq, Hash)]
pub struct OwnedSection {
    pub column: u64,
    pub row: u16,
    pub text: String,
    pub font_id: usize,
    pub scale: Option<PxScale>,
    pub color: Color,
}

/// A run of glyphs to draw, with its text as characters.
pub struct SectionView {
    pub column: u64,
    pub row: u16,
    pub text: Seq<char>,
    pub font_id: usize,
    pub scale: Option<PxScale>,
    pub color: Color,
}

impl View for OwnedSection {
    type V = SectionView;

    open spec fn view(&self) -> SectionView {
        SectionView {
            column: self.column,
            row: self.row,
            text: self.text@,
            font_id: self.font_id,
            scale: self.scale,
            color: self.color,
        }
    }
}

/// A position on the screen, in the host's own units, as the host encodes them.
#[derive(Clone, Copy, Debug, PartialEq, Eq, Structural)]
pub struct Point {
    pub x: u32,
    pub y: u32,
}

/// A free text to draw. Its position and its size are in the host's own units, as the
/// host encodes them.
#[derive(Clone, Debug)]
pub struct Text {
    pub content: String,
    pub font_id: usize,
    pub font_size: u32,
    pub position: Point,
    pub color: Color,
    pub single_line: bool,
}

/// How the lines of a free text are broken.
#[derive(Clone, Copy, Debug, PartialEq, Eq, Structural)]
pub enum TextLayout {
    /// The text stays on one line.
    SingleLine,
    /// The text wraps at the bounds.
    Wrap,
}

/// A section of free text, centered on its position and aligned to the left.
#[derive(Clone, Debug)]
pub struct TextSection {
    pub text: String,
    pub font_id: usize,
    pub scale: u32,
    pub screen_position: Point,
    pub color: Color,
    pub layout: TextLayout,
}

/// A section of free text, with its text as characters.
pub struct TextSectionView {
    pub text: Seq<char>,
    pub font_id: usize,
    pub scale: u32,
    pub screen_position: Point,
    pub color: Color,
    pub layout: TextLayout,
}

impl View for TextSection {
    type V = TextSectionView;

    open spec fn view(&self) -> TextSectionView {
        TextSectionView {
            text: self.text@,
            font_id: self.font_id,
            scale: self.scale,
            screen_position: self.screen_position,
            color: self.color,
            layout: self.layout,
        }
    }
}

/// The section of a free text.
pub open spec fn text_section_of(text: Text) -> TextSectionView {
    TextSectionView {
        text: text.content@,
        font_id: text.font_id,
        scale: text.font_size,
        screen_position: text.position,
        color: text.color,
        layout: if text.single_line {
            TextLayout::SingleLine
        } else {
            TextLayout::Wrap
        },
    }
}

/// The sections of free text with their texts as characters.
pub open spec fn text_section_views(sections: Seq<TextSection>) -> Seq<TextSectionView> {
    Seq::new(sections.len(), |i: int| sections[i]@)
}

/// The sections with their texts as characters.
pub open spec fn section_views(sections: Seq<OwnedSection>) -> Seq<SectionView> {
    Seq::new(sections.len(), |i: int| sections[i]@)
}

/// The text of an entry: its character, once for each cell that it stands for.
pub open spec fn run_text(cell: Fragment) -> Seq<char> {
    Seq::new((cell.repeated + 1) as nat, |i: int| cell.content)
}

/// The slot that an entry is drawn with: that of its style where it is bold or italic, and
/// else the one that its character resolved to.
pub open spec fn section_slot(cell: Fragment, sugar: CachedSugar) -> usize {
    match cell.style.spec_request().spec_slot() {
        Some(font_id) => font_id,
        None => sugar.font_id,
    }
}

/// The section of an entry at a column of a row.
pub open spec fn section_of(cell: Fragment, sugar: CachedSugar, column: u64, row: u16) -> SectionView {
    SectionView {
        column,
        row,
        text: run_text(cell),
        font_id: section_slot(cell, sugar),
        scale: sugar.px_scale,
        color: cell.foreground_color,
    }
}

/// The rectangle of an entry for a purpose.
pub open spec fn rect_of(
    cell: Fragment,
    sugar: CachedSugar,
    column: u64,
    row: u16,
    kind: RectKind,
    color: Color,
) -> Rect {
    Rect { column, row, columns: cell_span(cell, sugar) as u64, kind, color }
}

/// The rectangles of an entry at a column of a row: its background, then its cursor if it has
/// one, then its decoration if it has one.
pub open spec fn cell_rects(cell: Fragment, sugar: CachedSugar, column: u64, row: u16) -> Seq<Rect> {
    let background = seq![
        rect_of(cell, sugar, column, row, RectKind::Background, cell.background_color),
    ];
    let cursor = match cell.cursor {
        FragmentCursor::Block(color) => background.push(
            rect_of(cell, sugar, column, row, RectKind::CursorBlock, color),
        ),
        FragmentCursor::Caret(color) => background.push(
            rect_of(cell, sugar, column, row, RectKind::CursorCaret, color),
        ),
        FragmentCursor::Underline(color) => background.push(
            rect_of(cell, sugar, column, row, RectKind::CursorUnderline, color),
        ),
        FragmentCursor::Disabled => background,
    };
    match cell.decoration {
        FragmentDecoration::Underline => cursor.push(
            rect_of(cell, sugar, column, row, RectKind::Underline, cell.foreground_color),
        ),
        FragmentDecoration::Strikethrough => cursor.push(
            rect_of(cell, sugar, column, row, RectKind::Strikethrough, cell.foreground_color),
        ),
        FragmentDecoration::Disabled => cursor,
    }
}

/// The sections of the first `count` entries of a line in a row, one for each entry.
pub open spec fn line_sections(
    cells: Seq<Fragment>,
    cache: Map<char, CachedSugar>,
    row: u16,
    count: int,
) -> Seq<SectionView>
    decreases count,
{
    if count <= 0 {
        Seq::empty()
    } else {
        line_sections(cells, cache, row, count - 1).push(
            section_of(
                cells[count - 1],
                cache[cells[count - 1].content],
                columns_before(cells, cache, count - 1) as u64,
                row,
            ),
        )
    }
}

/// The rectangles of the first `count` entries of a line in a row.
pub open spec fn line_rects(
    cells: Seq<Fragment>,
    cache: Map<char, CachedSugar>,
    row: u16,
    count: int,
) -> Seq<Rect>
    decreases count,
{
    if count <= 0 {
        Seq::empty()
    } else {
        line_rects(cells, cache, row, count - 1) + cell_rects(
            cells[count - 1],
            cache[cells[count - 1].content],
            columns_before(cells, cache, count - 1) as u64,
            row,
        )
    }
}

/// The text of an entry: its character, once for each cell that it stands for.
pub fn repeat_content(cell: &Fragment) -> (text: String)
    ensures
        text@ == run_text(*cell),
{
    let mut text = String::new();
    let mut written: u64 = 0;
    let count: u64 = cell.repeated as u64 + 1;
    while written < count
        invariant
            written <= count,
            count == cell.repeated + 1,
            text@ == Seq::new(written as nat, |i: int| cell.content),
        decreases count - written,
    {
        text.push(cell.content);
        written += 1;
        assert(text@ =~= Seq::new(written as nat, |i: int| cell.content));
    }
    text
}

/// `swash::Synthesis`'s `Default`: a synthesis to start from. Nothing is claimed of it.
pub assume_specification[ <swash::Synthesis as Default>::default ]() -> swash::Synthesis;

/// What the host has done about the emoji face that a line asked for.
pub enum EmojiFace {
    /// The host was not asked yet: where the face is wanted, the compositor asks.
    NotAsked,
    /// The host could not load the face.
    Failed,
    /// The face that the host loaded.
    Loaded(FontData),
}

impl EmojiFace {
    /// The face, where the host loaded it.
    pub open spec fn spec_face(&self) -> Option<FontData> {
        match self {
            EmojiFace::Loaded(face) => Some(*face),
            _ => None,
        }
    }

    /// The face, where the host loaded it.
    pub fn face(&self) -> (face: Option<&FontData>)
        ensures
            crate::context::deref_face(face) == self.spec_face(),
    {
        match self {
            EmojiFace::Loaded(face) => Some(face),
            _ => None,
        }
    }
}

/// The style of a cell without emphasis.
pub open spec fn regular_style() -> FragmentStyle {
    FragmentStyle { weight: DEFAULT_WEIGHT, italic: false }
}

/// What preparing a line changes: what is remembered of characters, and the resolver.
pub struct CacheRun {
    pub cache: Map<char, CachedSugar>,
    pub context: ContextState,
}

/// How far preparing a line came: the state reached, and the face to load later that the
/// host is asked to load before the line can be prepared further, if there is one.
pub struct Prepared {
    pub run: CacheRun,
    pub wanted: Option<usize>,
}

/// Looking up a character. What is remembered of it stays. Else the character is resolved
/// in the regular style and what comes of it is remembered; but where that wants the emoji
/// face and the host was not asked yet, nothing changes and the host is asked.
pub open spec fn looked_up(
    run: CacheRun,
    ch: char,
    library: FontLibraryData,
    now: u64,
    emoji: EmojiFace,
) -> Prepared {
    if run.cache.contains_key(ch) {
        Prepared { run, wanted: None }
    } else if emoji is NotAsked && emoji_wanted(run.context, seq![ch], regular_style(), library, now)
        is Some {
        Prepared {
            run,
            wanted: emoji_wanted(run.context, seq![ch], regular_style(), library, now),
        }
    } else {
        let resolution = resolve(
            run.context,
            seq![ch],
            regular_style(),
            library,
            now,
            emoji.spec_face(),
        );
        Prepared {
            run: CacheRun {
                cache: run.cache.insert(ch, measured(ch, resolution.font_id, library)),
                context: resolution.state,
            },
            wanted: None,
        }
    }
}

/// Preparing one entry of a line: its character is looked up, and where the entry is bold
/// or italic, it is resolved in that style as well.
pub open spec fn prepared_cell(
    run: CacheRun,
    cell: Fragment,
    library: FontLibraryData,
    now: u64,
    emoji: EmojiFace,
) -> Prepared {
    let first = looked_up(run, cell.content, library, now, emoji);
    if first.wanted is None && cell.style.spec_request().spec_slot() is Some {
        Prepared {
            run: CacheRun {
                cache: first.run.cache,
                context: resolve(
                    first.run.context,
                    seq![cell.content],
                    cell.style.spec_request(),
                    library,
                    now,
                    emoji.spec_face(),
                ).state,
            },
            wanted: None,
        }
    } else {
        first
    }
}

/// Preparing the first `count` entries of a line, in their order, up to the first that asks
/// the host for the emoji face.
pub open spec fn prepared(
    run: CacheRun,
    cells: Seq<Fragment>,
    count: int,
    library: FontLibraryData,
    now: u64,
    emoji: EmojiFace,
) -> Prepared
    decreases count,
{
    if count <= 0 {
        Prepared { run, wanted: None }
    } else {
        let earlier = prepared(run, cells, count - 1, library, now, emoji);
        if earlier.wanted is Some {
            earlier
        } else {
            prepared_cell(earlier.run, cells[count - 1], library, now, emoji)
        }
    }
}

/// Whether something is remembered of the character of each of the first `count` entries.
pub open spec fn all_cached(cache: Map<char, CachedSugar>, cells: Seq<Fragment>, count: int) -> bool {
    forall|at: int| 0 <= at < count ==> cache.contains_key(#[trigger] cells[at].content)
}

/// Preparing stops at the first entry that asks the host for the emoji face.
pub proof fn lemma_prepared_stops(
    run: CacheRun,
    cells: Seq<Fragment>,
    stop: int,
    count: int,
    library: FontLibraryData,
    now: u64,
    emoji: EmojiFace,
)
    requires
        0 <= stop <= count,
        prepared(run, cells, stop, library, now, emoji).wanted is Some,
    ensures
        prepared(run, cells, count, library, now, emoji) == prepared(
            run,
            cells,
            stop,
            library,
            now,
            emoji,
        ),
    decreases count,
{
    if stop < count {
        lemma_prepared_stops(run, cells, stop, count - 1, library, now, emoji);
    }
}

/// What came of looking up a character.
pub enum Measured {
    /// What is remembered of the character.
    Ready(CachedSugar),
    /// The face to load later that the host is to load first.
    NeedEmoji(usize),
}

/// What came of laying out a line.
#[derive(Clone, Copy, Debug, PartialEq, Eq, Structural)]
pub enum LineStatus {
    /// The line is laid out; it covers so many columns.
    Done(u64),
    /// Nothing is laid out: the host is to load this one of the faces to load later, and
    /// to lay the line out again with it.
    NeedEmoji(usize),
}

/// The line compositor.
pub struct Elementary {
    sugar_cache: SugarCache,
    rects: Vec<Rect>,
    sections: Vec<OwnedSection>,
    text_sections: Vec<TextSection>,
    should_resize: bool,
    current_row: u16,
}

impl Elementary {
    /// What is remembered of characters.
    pub closed spec fn cache(&self) -> Map<char, CachedSugar> {
        self.sugar_cache@
    }

    /// The rectangles laid out since the last reset.
    pub closed spec fn spec_rects(&self) -> Seq<Rect> {
        self.rects@
    }

    /// The sections laid out since the last reset.
    pub closed spec fn spec_sections(&self) -> Seq<SectionView> {
        section_views(self.sections@)
    }

    /// The sections of free text.
    pub closed spec fn spec_text_sections(&self) -> Seq<TextSectionView> {
        text_section_views(self.text_sections@)
    }

    /// Whether a resize is due.
    pub closed spec fn spec_should_resize(&self) -> bool {
        self.should_resize
    }

    /// The row of the next line.
    pub closed spec fn row(&self) -> u16 {
        self.current_row
    }

    /// Each remembered width is the width of the cell of its character.
    fn widths_are_measured(&self)
        ensures
            widths_measured(self.cache()),
    {
        proof {
            use_type_invariant(&self.sugar_cache);
        }
    }

    /// A compositor that remembers nothing and has laid out nothing.
    pub fn new() -> (compositor: Self)
        ensures
            compositor.cache() == Map::<char, CachedSugar>::empty(),
            compositor.spec_rects().len() == 0,
            compositor.spec_sections().len() == 0,
            compositor.spec_text_sections().len() == 0,
            !compositor.spec_should_resize(),
            compositor.row() == 0,
    {
        Elementary {
            sugar_cache: SugarCache::new(),
            rects: Vec::new(),
            sections: Vec::new(),
            text_sections: Vec::new(),
            should_resize: false,
            current_row: 0,
        }
    }

    /// The rectangles laid out since the last reset.
    pub fn rects(&self) -> (rects: &Vec<Rect>)
        ensures
            rects@ == self.spec_rects(),
    {
        &self.rects
    }

    /// The sections laid out since the last reset.
    pub fn sections(&self) -> (sections: &Vec<OwnedSection>)
        ensures
            section_views(sections@) == self.spec_sections(),
    {
        &self.sections
    }

    /// The sections of free text.
    pub fn text_sections(&self) -> (sections: &Vec<TextSection>)
        ensures
            text_section_views(sections@) == self.spec_text_sections(),
    {
        &self.text_sections
    }

    /// Appends the section of a free text and returns it.
    pub fn create_section_from_text(&mut self, text: &Text) -> (section: &TextSection)
        ensures
            section@ == text_section_of(*text),
            final(self).spec_text_sections() == old(self).spec_text_sections().push(
                text_section_of(*text),
            ),
            final(self).cache() == old(self).cache(),
            final(self).spec_rects() == old(self).spec_rects(),
            final(self).spec_sections() == old(self).spec_sections(),
            final(self).spec_should_resize() == old(self).spec_should_resize(),
            final(self).row() == old(self).row(),
    {
        let layout = if text.single_line {
            TextLayout::SingleLine
        } else {
            TextLayout::Wrap
        };
        let section = TextSection {
            text: text.content.clone(),
            font_id: text.font_id,
            scale: text.font_size,
            screen_position: text.position,
            color: text.color,
            layout,
        };
        let ghost before = self.text_sections@;
        self.text_sections.push(section);
        assert(text_section_views(self.text_sections@) =~= text_section_views(before).push(
            text_section_of(*text),
        ));
        let last = self.text_sections.len() - 1;
        &self.text_sections[last]
    }

    /// Whether a resize is due.
    #[verifier::when_used_as_spec(spec_should_resize)]
    pub fn should_resize(&self) -> (due: bool)
        ensures
            due == self.spec_should_resize(),
    {
        self.should_resize
    }

    /// The row of the next line.
    pub fn current_row(&self) -> (row: u16)
        ensures
            row == self.row(),
    {
        self.current_row
    }

    /// Discards the sections of free text.
    pub fn clean_blocks(&mut self)
        ensures
            final(self).spec_text_sections().len() == 0,
            final(self).cache() == old(self).cache(),
            final(self).spec_rects() == old(self).spec_rects(),
            final(self).spec_sections() == old(self).spec_sections(),
            final(self).spec_should_resize() == old(self).spec_should_resize(),
            final(self).row() == old(self).row(),
    {
        self.text_sections.clear();
    }

    /// Notes that a resize is due.
    pub fn set_should_resize(&mut self)
        ensures
            final(self).spec_should_resize(),
            final(self).cache() == old(self).cache(),
            final(self).spec_rects() == old(self).spec_rects(),
            final(self).spec_sections() == old(self).spec_sections(),
            final(self).spec_text_sections() == old(self).spec_text_sections(),
            final(self).row() == old(self).row(),
    {
        self.should_resize = true;
    }

    /// Discards the rectangles and sections that are laid out and starts again at the first
    /// row. What is remembered of characters stays: it is forgotten on its own, by
    /// `forget_characters`.
    pub fn reset(&mut self)
        ensures
            final(self).spec_rects().len() == 0,
            final(self).spec_sections().len() == 0,
            final(self).row() == 0,
            !final(self).spec_should_resize(),
            final(self).cache() == old(self).cache(),
            final(self).spec_text_sections() == old(self).spec_text_sections(),
    {
        self.clean();
    }

    /// Forgets what is remembered of characters, as is due when fonts or the configuration
    /// change. What is laid out stays.
    pub fn forget_characters(&mut self)
        ensures
            final(self).cache() == Map::<char, CachedSugar>::empty(),
            final(self).spec_rects() == old(self).spec_rects(),
            final(self).spec_sections() == old(self).spec_sections(),
            final(self).spec_text_sections() == old(self).spec_text_sections(),
            final(self).spec_should_resize() == old(self).spec_should_resize(),
            final(self).row() == old(self).row(),
    {
        let mut remembered = SugarCache::new();
        core::mem::swap(&mut self.sugar_cache, &mut remembered);
        self.sugar_cache = remembered.cleared();
    }

    /// Discards the rectangles and sections that are laid out and starts again at the first
    /// row. What is remembered of characters stays.
    pub fn clean(&mut self)
        ensures
            final(self).spec_rects().len() == 0,
            final(self).spec_sections().len() == 0,
            final(self).row() == 0,
            !final(self).spec_should_resize(),
            final(self).cache() == old(self).cache(),
            final(self).spec_text_sections() == old(self).spec_text_sections(),
    {
        self.rects.clear();
        self.sections.clear();
        self.current_row = 0;
        self.should_resize = false;
    }

    /// Looks a character up: see `looked_up`.
    pub fn get_font_id(
        &mut self,
        sugar: &Fragment,
        context: &mut FontContext,
        library: &FontLibrary,
        now: u64,
        emoji: &EmojiFace,
    ) -> (measured: Measured)
        ensures
            ({
                let came = looked_up(
                    CacheRun { cache: old(self).cache(), context: old(context)@ },
                    sugar.content,
                    library.spec_data(),
                    now,
                    *emoji,
                );
                &&& final(self).cache() == came.run.cache
                &&& final(context)@ == came.run.context
                &&& measured == (match came.wanted {
                    Some(index) => Measured::NeedEmoji(index),
                    None => Measured::Ready(came.run.cache[sugar.content]),
                })
            }),
            widths_measured(old(self).cache()),
            widths_measured(final(self).cache()),
            measured matches Measured::Ready(remembered) ==> remembered.char_width == cell_columns(
                char_columns(sugar.content),
            ),
            final(self).spec_rects() == old(self).spec_rects(),
            final(self).spec_sections() == old(self).spec_sections(),
            final(self).spec_text_sections() == old(self).spec_text_sections(),
            final(self).spec_should_resize() == old(self).spec_should_resize(),
            final(self).row() == old(self).row(),
    {
        self.widths_are_measured();
        if let Some(cached_sugar) = self.sugar_cache.get(sugar.content) {
            return Measured::Ready(cached_sugar);
        }
        let cluster = Cluster::from_char(sugar.content);
        let regular = FragmentStyle { weight: DEFAULT_WEIGHT, italic: false };
        if let EmojiFace::NotAsked = emoji {
            if let Some(index) = context.emoji_to_load(&cluster, library, &regular, now) {
                return Measured::NeedEmoji(index);
            }
        }
        let mut synth = swash::Synthesis::default();
        let font_id = context.map_cluster(
            &cluster,
            &mut synth,
            library,
            &regular,
            now,
            emoji.face(),
        );
        let cached_sugar = measure(font_id, unicode_width(sugar.content), library.data());
        let mut remembered = SugarCache::new();
        core::mem::swap(&mut self.sugar_cache, &mut remembered);
        self.sugar_cache = remembered.with(sugar.content, cached_sugar);
        self.widths_are_measured();
        Measured::Ready(cached_sugar)
    }

    /// Prepares a line: looks up the character of each entry and resolves the bold and
    /// italic ones in their style, up to the first entry that asks the host for the emoji
    /// face. Returned is that face, if the host is asked.
    fn prepare(
        &mut self,
        line: &RenderLine,
        context: &mut FontContext,
        library: &FontLibrary,
        now: u64,
        emoji: &EmojiFace,
    ) -> (wanted: Option<usize>)
        ensures
            ({
                let came = prepared(
                    CacheRun { cache: old(self).cache(), context: old(context)@ },
                    line@,
                    line@.len() as int,
                    library.spec_data(),
                    now,
                    *emoji,
                );
                &&& final(self).cache() == came.run.cache
                &&& final(context)@ == came.run.context
                &&& wanted == came.wanted
            }),
            wanted is None ==> all_cached(final(self).cache(), line@, line@.len() as int),
            widths_measured(final(self).cache()),
            final(self).spec_rects() == old(self).spec_rects(),
            final(self).spec_sections() == old(self).spec_sections(),
            final(self).spec_text_sections() == old(self).spec_text_sections(),
            final(self).spec_should_resize() == old(self).spec_should_resize(),
            final(self).row() == old(self).row(),
    {
        self.widths_are_measured();
        let ghost start = CacheRun { cache: self.cache(), context: context@ };
        let count = line.len();
        let mut at: usize = 0;
        while at < count
            invariant
                at <= count,
                count == line@.len(),
                start == (CacheRun { cache: old(self).cache(), context: old(context)@ }),
                prepared(start, line@, at as int, library.spec_data(), now, *emoji) == (Prepared {
                    run: CacheRun { cache: self.cache(), context: context@ },
                    wanted: None,
                }),
                all_cached(self.cache(), line@, at as int),
                widths_measured(self.cache()),
                self.spec_rects() == old(self).spec_rects(),
                self.spec_sections() == old(self).spec_sections(),
                self.spec_text_sections() == old(self).spec_text_sections(),
                self.spec_should_resize() == old(self).spec_should_resize(),
                self.row() == old(self).row(),
            decreases count - at,
        {
            let cell = line.get(at);
            let ghost before = CacheRun { cache: self.cache(), context: context@ };
            match self.get_font_id(cell, context, library, now, emoji) {
                Measured::NeedEmoji(index) => {
                    proof {
                        let stopped = looked_up(
                            before,
                            cell.content,
                            library.spec_data(),
                            now,
                            *emoji,
                        );
                        assert(stopped.wanted == Some(index));
                        assert(prepared_cell(before, *cell, library.spec_data(), now, *emoji)
                            == stopped);
                        assert(prepared(
                            start,
                            line@,
                            at as int,
                            library.spec_data(),
                            now,
                            *emoji,
                        ).run == before);
                        assert(prepared(
                            start,
                            line@,
                            at + 1,
                            library.spec_data(),
                            now,
                            *emoji,
                        ) == stopped);
                        lemma_prepared_stops(
                            start,
                            line@,
                            at + 1,
                            count as int,
                            library.spec_data(),
                            now,
                            *emoji,
                        );
                    }
                    return Some(index);
                },
                Measured::Ready(_) => {},
            }
            let style = cell.style.request();
            if style.slot().is_some() {
                let cluster = Cluster::from_char(cell.content);
                let mut synth = swash::Synthesis::default();
                let _ = context.map_cluster(&cluster, &mut synth, library, &style, now, emoji.face());
            }
            proof {
                assert forall|earlier: int| 0 <= earlier < at + 1 implies self.cache().contains_key(
                    #[trigger] line@[earlier].content,
                ) by {
                    if earlier < at {
                        assert(before.cache.contains_key(line@[earlier].content));
                    }
                }
            }
            at += 1;
        }
        None
    }

    /// Lays out a prepared line in the next row and returns the columns that it covers.
    fn emit(&mut self, line: &RenderLine) -> (width: u64)
        requires
            all_cached(old(self).cache(), line@, line@.len() as int),
            old(self).row() < u16::MAX,
        ensures
            width == columns_before(line@, old(self).cache(), line@.len() as int),
            final(self).spec_sections() == old(self).spec_sections() + line_sections(
                line@,
                old(self).cache(),
                old(self).row(),
                line@.len() as int,
            ),
            final(self).spec_rects() == old(self).spec_rects() + line_rects(
                line@,
                old(self).cache(),
                old(self).row(),
                line@.len() as int,
            ),
            final(self).row() == old(self).row() + 1,
            final(self).cache() == old(self).cache(),
            final(self).spec_text_sections() == old(self).spec_text_sections(),
            final(self).spec_should_resize() == old(self).spec_should_resize(),
    {
        let count = line.len();
        let row = self.current_row;
        let ghost cache = self.cache();
        let mut x: u64 = 0;
        let mut at: usize = 0;
        while at < count
            invariant
                at <= count,
                count == line@.len(),
                max_columns(line@, count as int) <= u64::MAX,
                cache == old(self).cache(),
                self.cache() == cache,
                row == old(self).row(),
                self.row() == row,
                all_cached(cache, line@, count as int),
                x == columns_before(line@, cache, at as int),
                self.spec_sections() == old(self).spec_sections() + line_sections(
                    line@,
                    cache,
                    row,
                    at as int,
                ),
                self.spec_rects() == old(self).spec_rects() + line_rects(line@, cache, row, at as int),
                self.spec_text_sections() == old(self).spec_text_sections(),
                self.spec_should_resize() == old(self).spec_should_resize(),
            decreases count - at,
        {
            let cell = line.get(at);
            assert(cache.contains_key(line@[at as int].content));
            let sugar = match self.sugar_cache.get(cell.content) {
                Some(found) => found,
                None => CachedSugar { font_id: FONT_ID_REGULAR, char_width: 1, px_scale: None },
            };
            let wide: u64 = if sugar.char_width > 1 {
                2
            } else {
                1
            };
            proof {
                lemma_columns_bounded(line@, cache, at + 1);
                lemma_max_columns_grow(line@, at + 1, count as int);
                assert(wide * (cell.repeated + 1) == cell_span(*cell, sugar));
                assert(0 <= wide * (cell.repeated + 1) <= 2 * (cell.repeated + 1)) by (nonlinear_arith)
                    requires
                        1 <= wide <= 2,
                        cell.repeated >= 0,
                ;
            }
            let span: u64 = wide * (cell.repeated as u64 + 1);
            let font_id = match cell.style.request().slot() {
                Some(styled) => styled,
                None => sugar.font_id,
            };
            let ghost sections_before = self.sections@;
            let section = OwnedSection {
                column: x,
                row,
                text: repeat_content(cell),
                font_id,
                scale: sugar.px_scale,
                color: cell.foreground_color,
            };
            assert(section@ == section_of(*cell, sugar, x, row));
            self.sections.push(section);
            assert(section_views(self.sections@) =~= section_views(sections_before).push(section@));
            let ghost rects_before = self.rects@;
            self.rects.push(
                Rect {
                    column: x,
                    row,
                    columns: span,
                    kind: RectKind::Background,
                    color: cell.background_color,
                },
            );
            match cell.cursor {
                FragmentCursor::Block(cursor_color) => {
                    self.rects.push(
                        Rect {
                            column: x,
                            row,
                            columns: span,
                            kind: RectKind::CursorBlock,
                            color: cursor_color,
                        },
                    );
                },
                FragmentCursor::Caret(cursor_color) => {
                    self.rects.push(
                        Rect {
                            column: x,
                            row,
                            columns: span,
                            kind: RectKind::CursorCaret,
                            color: cursor_color,
                        },
                    );
                },
                FragmentCursor::Underline(cursor_color) => {
                    self.rects.push(
                        Rect {
                            column: x,
                            row,
                            columns: span,
                            kind: RectKind::CursorUnderline,
                            color: cursor_color,
                        },
                    );
                },
                FragmentCursor::Disabled => {},
            }
            match cell.decoration {
                FragmentDecoration::Underline => {
                    self.rects.push(
                        Rect {
                            column: x,
                            row,
                            columns: span,
                            kind: RectKind::Underline,
                            color: cell.foreground_color,
                        },
                    );
                },
                FragmentDecoration::Strikethrough => {
                    self.rects.push(
                        Rect {
                            column: x,
                            row,
                            columns: span,
                            kind: RectKind::Strikethrough,
                            color: cell.foreground_color,
                        },
                    );
                },
                FragmentDecoration::Disabled => {},
            }
            assert(self.rects@ =~= rects_before + cell_rects(*cell, sugar, x, row));
            x += span;
            at += 1;
        }
        self.current_row += 1;
        x
    }

    /// Lays out a line in the next row.
    ///
    /// The line is first prepared, entry by entry: what the compositor does not remember of
    /// a character it finds out through the resolver, in the regular style, and remembers;
    /// a bold or italic entry is resolved in its style as well. Where the resolver wants
    /// the emoji face and the host was not asked yet, nothing is laid out and the host is
    /// asked to load the face and to call again. Else one section is appended for each
    /// entry, and its rectangles: the background, the cursor, the decoration.
    pub fn update(
        &mut self,
        line: &RenderLine,
        context: &mut FontContext,
        library: &FontLibrary,
        now: u64,
        emoji: &EmojiFace,
    ) -> (status: LineStatus)
        requires
            old(self).row() < u16::MAX,
        ensures
            ({
                let came = prepared(
                    CacheRun { cache: old(self).cache(), context: old(context)@ },
                    line@,
                    line@.len() as int,
                    library.spec_data(),
                    now,
                    *emoji,
                );
                &&& final(self).cache() == came.run.cache
                &&& final(context)@ == came.run.context
                &&& laid_out(
                    old(self).spec_sections(),
                    old(self).spec_rects(),
                    old(self).row(),
                    line@,
                    came,
                    final(self).spec_sections(),
                    final(self).spec_rects(),
                    final(self).row(),
                    status,
                )
            }),
            widths_measured(final(self).cache()),
            final(self).spec_text_sections() == old(self).spec_text_sections(),
            final(self).spec_should_resize() == old(self).spec_should_resize(),
    {
        match self.prepare(line, context, library, now, emoji) {
            Some(index) => LineStatus::NeedEmoji(index),
            None => LineStatus::Done(self.emit(line)),
        }
    }
}

impl Default for Elementary {
    fn default() -> (compositor: Self)
        ensures
            compositor.cache() == Map::<char, CachedSugar>::empty(),
            compositor.spec_rects().len() == 0,
            compositor.spec_sections().len() == 0,
            compositor.spec_text_sections().len() == 0,
            !compositor.spec_should_resize(),
            compositor.row() == 0,
    {
        Elementary::new()
    }
}

/// What `update` owes once a line is prepared. Where the host is asked for the emoji face,
/// nothing is laid out. Else the sections and rectangles of the line are appended, as they
/// follow from what is remembered of its characters, the next row is the row after, and
/// the status tells the columns that the line covers.
pub open spec fn laid_out(
    sections_before: Seq<SectionView>,
    rects_before: Seq<Rect>,
    row_before: u16,
    cells: Seq<Fragment>,
    came: Prepared,
    sections: Seq<SectionView>,
    rects: Seq<Rect>,
    row: u16,
    status: LineStatus,
) -> bool {
    match came.wanted {
        Some(index) => {
            &&& status == LineStatus::NeedEmoji(index)
            &&& sections == sections_before
            &&& rects == rects_before
            &&& row == row_before
        },
        None => {
            &&& status == LineStatus::Done(
                columns_before(cells, came.run.cache, cells.len() as int) as u64,
            )
            &&& sections == sections_before + line_sections(
                cells,
                came.run.cache,
                row_before,
                cells.len() as int,
            )
            &&& rects == rects_before + line_rects(
                cells,
                came.run.cache,
                row_before,
                cells.len() as int,
            )
            &&& row == row_before + 1
        },
    }
}

/// A line of `count` entries is laid out as exactly `count` sections and at least `count`
/// rectangles.
pub proof fn lemma_line_counts(
    cells: Seq<Fragment>,
    cache: Map<char, CachedSugar>,
    row: u16,
    count: int,
)
    requires
        0 <= count,
    ensures
        line_sections(cells, cache, row, count).len() == count,
        line_rects(cells, cache, row, count).len() >= count,
    decreases count,
{
    if count > 0 {
        lemma_line_counts(cells, cache, row, count - 1);
    }
}

/// The sum of the widths of the characters of the first `count` entries.
pub open spec fn width_sum(cells: Seq<Fragment>, cache: Map<char, CachedSugar>, count: int) -> int
    decreases count,
{
    if count <= 0 {
        0
    } else {
        width_sum(cells, cache, count - 1) + wide_columns(cache[cells[count - 1].content])
    }
}

/// After a line without repeats the x-cursor is the sum of the widths of its cells.
pub proof fn lemma_cursor_is_width_sum(
    cells: Seq<Fragment>,
    cache: Map<char, CachedSugar>,
    count: int,
)
    requires
        0 <= count <= cells.len(),
        forall|at: int| 0 <= at < count ==> (#[trigger] cells[at]).repeated == 0,
    ensures
        columns_before(cells, cache, count) == width_sum(cells, cache, count),
    decreases count,
{
    if count > 0 {
        lemma_cursor_is_width_sum(cells, cache, count - 1);
        assert(cells[count - 1].repeated == 0);
    }
}

/// An entry that stands for `k + 1` cells is laid out as one section, whose text holds its
/// character `k + 1` times, and a background rectangle, which like all its rectangles
/// covers `k + 1` times the columns of one cell; the x-cursor advances by as much.
pub proof fn lemma_repeat_multiplies(cell: Fragment, sugar: CachedSugar, column: u64, row: u16)
    ensures
        section_of(cell, sugar, column, row).text.len() == cell.repeated + 1,
        forall|at: int|
            0 <= at < cell.repeated + 1 ==> section_of(cell, sugar, column, row).text[at]
                == cell.content,
        cell_span(cell, sugar) == (cell.repeated + 1) * wide_columns(sugar),
        cell_span(cell, sugar) <= u64::MAX,
        1 <= cell_rects(cell, sugar, column, row).len() <= 3,
        cell_rects(cell, sugar, column, row)[0] == rect_of(
            cell,
            sugar,
            column,
            row,
            RectKind::Background,
            cell.background_color,
        ),
        forall|at: int|
            0 <= at < cell_rects(cell, sugar, column, row).len() ==> (#[trigger] cell_rects(
                cell,
                sugar,
                column,
                row,
            )[at]).columns == (cell.repeated + 1) * wide_columns(sugar),
{
    assert(cell_span(cell, sugar) == (cell.repeated + 1) * wide_columns(sugar)) by (nonlinear_arith)
        requires
            cell_span(cell, sugar) == wide_columns(sugar) * (cell.repeated + 1),
    ;
    assert(cell_span(cell, sugar) <= 2 * (cell.repeated + 1)) by (nonlinear_arith)
        requires
            cell_span(cell, sugar) == wide_columns(sugar) * (cell.repeated + 1),
            1 <= wide_columns(sugar) <= 2,
            cell.repeated >= 0,
    ;
    assert(0 <= cell_span(cell, sugar)) by (nonlinear_arith)
        requires
            cell_span(cell, sugar) == wide_columns(sugar) * (cell.repeated + 1),
            1 <= wide_columns(sugar) <= 2,
            cell.repeated >= 0,
    ;
}

/// A line of one entry is laid out as one section and, first of its rectangles, its
/// background, both at the first column.
pub proof fn lemma_single_entry(cell: Fragment, cache: Map<char, CachedSugar>, row: u16)
    ensures
        line_sections(seq![cell], cache, row, 1) == seq![
            section_of(cell, cache[cell.content], 0, row),
        ],
        line_rects(seq![cell], cache, row, 1) == cell_rects(cell, cache[cell.content], 0, row),
        columns_before(seq![cell], cache, 1) == cell_span(cell, cache[cell.content]),
{
    let cells = seq![cell];
    assert(columns_before(cells, cache, 0) == 0);
    assert(line_sections(cells, cache, row, 0) =~= Seq::empty());
    assert(line_rects(cells, cache, row, 0) =~= Seq::empty());
    assert(line_sections(cells, cache, row, 1) =~= seq![
        section_of(cell, cache[cell.content], 0, row),
    ]);
    assert(line_rects(cells, cache, row, 1) =~= cell_rects(cell, cache[cell.content], 0, row));
}

/// A character that is two columns wide is remembered as such, advances the x-cursor by
/// twice the columns of a narrow character, and where its face has a scale of its own, that
/// scale is the one of its role for two columns.
pub proof fn lemma_wide_character(
    cell: Fragment,
    font_id: Option<usize>,
    library: FontLibraryData,
    narrow: CachedSugar,
)
    requires
        char_columns(cell.content) == Some(2usize),
        narrow.char_width == 1,
    ensures
        ({
            let sugar = measured(cell.content, font_id, library);
            &&& sugar.char_width == 2
            &&& cell_span(cell, sugar) == 2 * cell_span(cell, narrow)
            &&& sugar.px_scale == scale_override(library.spec_role(sugar.font_id), 2)
        }),
{
    let sugar = measured(cell.content, font_id, library);
    assert(cell_span(cell, sugar) == 2 * cell_span(cell, narrow)) by (nonlinear_arith)
        requires
            cell_span(cell, sugar) == 2 * (cell.repeated + 1),
            cell_span(cell, narrow) == 1 * (cell.repeated + 1),
    ;
}

/// Preparing a line never forgets what is remembered of a character, and where it does not
/// end in asking the host, something is remembered of the character of each entry.
pub proof fn lemma_prepared_caches(
    run: CacheRun,
    cells: Seq<Fragment>,
    count: int,
    library: FontLibraryData,
    now: u64,
    emoji: EmojiFace,
)
    requires
        0 <= count <= cells.len(),
    ensures
        ({
            let came = prepared(run, cells, count, library, now, emoji);
            &&& forall|ch: char| #[trigger]
                run.cache.contains_key(ch) ==> came.run.cache.contains_key(ch)
                    && came.run.cache[ch] == run.cache[ch]
            &&& came.wanted is None ==> all_cached(came.run.cache, cells, count)
        }),
    decreases count,
{
    if count > 0 {
        lemma_prepared_caches(run, cells, count - 1, library, now, emoji);
        let earlier = prepared(run, cells, count - 1, library, now, emoji);
        let came = prepared(run, cells, count, library, now, emoji);
        if came.wanted is None {
            assert forall|at: int| 0 <= at < count implies came.run.cache.contains_key(
                #[trigger] cells[at].content,
            ) by {
                if at < count - 1 {
                    assert(earlier.run.cache.contains_key(cells[at].content));
                }
            }
        }
    }
}

/// Where something is remembered of the character of each entry, preparing the line
/// changes nothing of what is remembered and does not ask the host, whatever the resolver
/// holds and whatever the time.
pub proof fn lemma_prepared_again(
    run: CacheRun,
    cells: Seq<Fragment>,
    count: int,
    library: FontLibraryData,
    now: u64,
    emoji: EmojiFace,
)
    requires
        0 <= count <= cells.len(),
        all_cached(run.cache, cells, count),
    ensures
        prepared(run, cells, count, library, now, emoji).run.cache == run.cache,
        prepared(run, cells, count, library, now, emoji).wanted is None,
    decreases count,
{
    if count > 0 {
        lemma_prepared_again(run, cells, count - 1, library, now, emoji);
        assert(run.cache.contains_key(cells[count - 1].content));
    }
}

/// Laying the same line out twice, each time after discarding what was laid out, gives the
/// same sections and rectangles: the second time, what is remembered of the characters is
/// what the first time left, whatever the resolver holds then and whatever the time.
pub proof fn lemma_layout_repeats(
    run: CacheRun,
    cells: Seq<Fragment>,
    library: FontLibraryData,
    now: u64,
    emoji: EmojiFace,
    later_context: ContextState,
    later: u64,
    later_emoji: EmojiFace,
    row: u16,
)
    requires
        prepared(run, cells, cells.len() as int, library, now, emoji).wanted is None,
    ensures
        ({
            let first = prepared(run, cells, cells.len() as int, library, now, emoji);
            let second = prepared(
                CacheRun { cache: first.run.cache, context: later_context },
                cells,
                cells.len() as int,
                library,
                later,
                later_emoji,
            );
            &&& second.wanted is None
            &&& second.run.cache == first.run.cache
            &&& line_sections(cells, second.run.cache, row, cells.len() as int) == line_sections(
                cells,
                first.run.cache,
                row,
                cells.len() as int,
            )
            &&& line_rects(cells, second.run.cache, row, cells.len() as int) == line_rects(
                cells,
                first.run.cache,
                row,
                cells.len() as int,
            )
            &&& columns_before(cells, second.run.cache, cells.len() as int) == columns_before(
                cells,
                first.run.cache,
                cells.len() as int,
            )
        }),
{
    let first = prepared(run, cells, cells.len() as int, library, now, emoji);
    lemma_prepared_caches(run, cells, cells.len() as int, library, now, emoji);
    lemma_prepared_again(
        CacheRun { cache: first.run.cache, context: later_context },
        cells,
        cells.len() as int,
        library,
        later,
        later_emoji,
    );
}

/// Once the host has answered, be it that it could not load the face, a line is laid out
/// without asking again.
pub proof fn lemma_asked_once(
    run: CacheRun,
    cells: Seq<Fragment>,
    count: int,
    library: FontLibraryData,
    now: u64,
    emoji: EmojiFace,
)
    requires
        !(emoji is NotAsked),
    ensures
        prepared(run, cells, count, library, now, emoji).wanted is None,
    decreases count,
{
    if count > 0 {
        lemma_asked_once(run, cells, count - 1, library, now, emoji);
    }
}

/// Whether each remembered scale is that of the role of the remembered slot in a catalog,
/// for the remembered width.
pub open spec fn scales_follow_roles(
    cache: Map<char, CachedSugar>,
    library: FontLibraryData,
) -> bool {
    forall|ch: char| #[trigger]
        cache.contains_key(ch) ==> cache[ch].px_scale == scale_override(
            library.spec_role(cache[ch].font_id),
            cache[ch].char_width,
        )
}

/// What is remembered after preparing a line follows the catalog as what was remembered
/// before did: the widths are those of the characters' cells, and the scales those of the
/// slots' roles. Nothing remembered, as in a new compositor or after
/// `forget_characters`, follows every catalog.
pub proof fn lemma_prepared_follows_catalog(
    run: CacheRun,
    cells: Seq<Fragment>,
    count: int,
    library: FontLibraryData,
    now: u64,
    emoji: EmojiFace,
)
    requires
        widths_measured(run.cache),
        scales_follow_roles(run.cache, library),
    ensures
        widths_measured(prepared(run, cells, count, library, now, emoji).run.cache),
        scales_follow_roles(prepared(run, cells, count, library, now, emoji).run.cache, library),
    decreases count,
{
    if count > 0 {
        lemma_prepared_follows_catalog(run, cells, count - 1, library, now, emoji);
        let earlier = prepared(run, cells, count - 1, library, now, emoji);
        let came = prepared(run, cells, count, library, now, emoji);
        if earlier.wanted is None {
            let cell = cells[count - 1];
            let first = looked_up(earlier.run, cell.content, library, now, emoji);
            assert(came.run.cache == first.run.cache);
            assert forall|ch: char| #[trigger] first.run.cache.contains_key(ch) implies {
                &&& first.run.cache[ch].char_width == cell_columns(char_columns(ch))
                &&& first.run.cache[ch].px_scale == scale_override(
                    library.spec_role(first.run.cache[ch].font_id),
                    first.run.cache[ch].char_width,
                )
            } by {
                if ch != cell.content || earlier.run.cache.contains_key(ch) {
                    assert(earlier.run.cache.contains_key(ch));
                }
            }
        }
    }
}

/// A cell whose character is two columns wide, whenever it was remembered: its rectangles
/// cover twice the columns of a narrow cell with as many repeats, the x-cursor advances by
/// as much, and its section has the scale of its slot's role for two columns: two columns
/// wide for the face of a fallback family, the symbol face and the emoji face.
pub proof fn lemma_wide_cell(
    cell: Fragment,
    cache: Map<char, CachedSugar>,
    library: FontLibraryData,
    column: u64,
    row: u16,
)
    requires
        cache.contains_key(cell.content),
        widths_measured(cache),
        scales_follow_roles(cache, library),
        char_columns(cell.content) matches Some(columns) && columns > 1,
    ensures
        ({
            let sugar = cache[cell.content];
            let role = library.spec_role(sugar.font_id);
            &&& sugar.char_width == 2
            &&& cell_span(cell, sugar) == 2 * (cell.repeated + 1)
            &&& cell_rects(cell, sugar, column, row)[0].columns == 2 * (cell.repeated + 1)
            &&& section_of(cell, sugar, column, row).scale == scale_override(role, 2)
            &&& (role == SlotRole::Fallback || role == SlotRole::Symbol || role == SlotRole::Emoji)
                ==> section_of(cell, sugar, column, row).scale == Some(PxScale { columns: 2 })
            &&& (role == SlotRole::Regular || role == SlotRole::Italic || role == SlotRole::Bold
                || role == SlotRole::BoldItalic) ==> section_of(cell, sugar, column, row).scale
                is None
        }),
{
    let sugar = cache[cell.content];
    lemma_repeat_multiplies(cell, sugar, column, row);
    assert(cell_span(cell, sugar) == 2 * (cell.repeated + 1)) by (nonlinear_arith)
        requires
            cell_span(cell, sugar) == (cell.repeated + 1) * 2,
    ;
}

/// In a whole catalog the slots of the four styles have no scale of their own, whatever
/// the width.
pub proof fn lemma_text_slots_have_no_scale(library: FontLibraryData, font_id: usize, width: u8)
    requires
        crate::library::has_style_slots(library),
        font_id <= crate::font::FONT_ID_BOLD_ITALIC,
    ensures
        scale_override(library.spec_role(font_id), width) is None,
{
}

} // verus!
