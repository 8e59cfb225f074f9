//! Loaded font faces: shared font bytes together with what was read from them once at load.
//!
//! A face is loaded only from bytes in which swash finds a font and whose character map
//! tables are safe to look glyphs up in, so that every later lookup comes back.

use crate::charmap::{be32, charmap_is_safe, charmap_safe};
use std::sync::Arc;
use vstd::prelude::*;

verus! {

/// Slot of the regular face.
pub const FONT_ID_REGULAR: usize = 0;

/// Slot of the italic face.
pub const FONT_ID_ITALIC: usize = 1;

/// Slot of the bold face.
pub const FONT_ID_BOLD: usize = 2;

/// Slot of the bold italic face.
pub const FONT_ID_BOLD_ITALIC: usize = 3;

/// `swash::CacheKey`, an identifier that swash hands out once per parsed font.
#[verifier::external_type_specification]
#[verifier::external_body]
pub struct ExCacheKey(swash::CacheKey);

/// `swash::Synthesis`, swash's suggestion of how to fake a missing weight or slant.
#[verifier::external_type_specification]
#[verifier::external_body]
pub struct ExSynthesis(swash::Synthesis);

/// `swash::proxy::CharmapProxy`, the location of a font's character map.
#[verifier::external_type_specification]
#[verifier::external_body]
pub struct ExCharmapProxy(swash::proxy::CharmapProxy);

/// `swash::Attributes`, the stretch, weight and style of a font, packed in 32 bits.
#[verifier::external_type_specification]
pub struct ExAttributes(swash::Attributes);

/// `swash::Weight`, the weight class of a font, a number.
#[verifier::external_type_specification]
pub struct ExWeight(swash::Weight);

/// `swash::ObliqueAngle`, the angle of an oblique style.
#[verifier::external_type_specification]
#[verifier::external_body]
pub struct ExObliqueAngle(swash::ObliqueAngle);

/// `swash::Style`, the slant of a font: normal, italic, or oblique at an angle.
#[verifier::external_type_specification]
pub struct ExStyle(swash::Style);

/// `swash::Stretch`, the width class of a font.
#[verifier::external_type_specification]
#[verifier::external_body]
pub struct ExStretch(swash::Stretch);

/// `swash::Charmap`, the character map of a borrowed font.
#[verifier::external_type_specification]
#[verifier::external_body]
pub struct ExCharmap<'a>(swash::Charmap<'a>);

/// `swash::FontRef`, a borrowed font: the file's bytes, the offset of the font's table
/// directory in them, and the cache key.
#[verifier::external_type_specification]
pub struct ExFontRef<'a>(swash::FontRef<'a>);

/// The tag that opens a font with TrueType outlines.
pub const TAG_TRUETYPE: u32 = 0x0001_0000;

/// The tag that opens a font with PostScript outlines: `OTTO`.
pub const TAG_OPENTYPE: u32 = 0x4F54_544F;

/// The tag that opens a font of Apple's: `true`.
pub const TAG_APPLE: u32 = 0x7472_7565;

/// The tag that opens a collection of fonts: `ttcf`.
pub const TAG_COLLECTION: u32 = 0x7474_6366;

/// Whether a font's table directory stands at an offset in a file: one of the three tags
/// that open a font does.
pub open spec fn is_font_at(data: Seq<u8>, offset: int) -> bool {
    &&& 0 <= offset
    &&& offset + 4 <= data.len()
    &&& (be32(data, offset) == TAG_TRUETYPE as int || be32(data, offset) == TAG_OPENTYPE as int
        || be32(data, offset) == TAG_APPLE as int)
}

/// Whether a file is a collection of fonts.
pub open spec fn is_collection(data: Seq<u8>) -> bool {
    4 <= data.len() && be32(data, 0) == TAG_COLLECTION as int
}

/// The number of fonts in a file: as many as a collection states 8 bytes in, one in a font
/// file, and none in any other.
pub open spec fn font_count(data: Seq<u8>) -> int {
    if is_collection(data) {
        if 12 <= data.len() {
            be32(data, 8)
        } else {
            0
        }
    } else if is_font_at(data, 0) {
        1
    } else {
        0
    }
}

/// Offset of the table directory of the font with the given index in a file; none where the
/// file holds no such font. A font file holds its one font at its start. A collection lists
/// the offsets of its fonts from 12 bytes in, 4 bytes each.
pub open spec fn font_offset(data: Seq<u8>, index: usize) -> Option<u32> {
    let listed = be32(data, 12 + 4 * index);
    if index >= font_count(data) {
        None
    } else if is_font_at(data, 0) {
        Some(0u32)
    } else if 16 + 4 * index <= data.len() && is_font_at(data, listed) {
        Some(listed as u32)
    } else {
        None
    }
}

/// `swash::FontRef::from_index`: the font with the given index in a file, where the file
/// holds one: a reference to the bytes given, with the offset of the font's table directory.
/// Swash finds the offset of a font of a collection at four times its index, which it
/// computes unchecked: the index has to stay below 2^30.
pub assume_specification<'a>[ swash::FontRef::<'a>::from_index ](
    data: &'a [u8],
    index: usize,
) -> (font: Option<swash::FontRef<'a>>)
    requires
        index < 0x4000_0000,
    ensures
        font is Some == font_offset(data@, index) is Some,
        font matches Some(f) ==> f.data@ == data@ && font_offset(data@, index) == Some(f.offset),
;

/// The attributes that the font at `offset` in the file `data` states, packed as swash
/// packs them.
pub uninterp spec fn font_attributes(data: Seq<u8>, offset: u32) -> u32;

/// The weight among packed attributes: the ten bits from the ninth on.
pub open spec fn packed_weight(attributes: u32) -> u16 {
    ((attributes >> 9) & 0x3FF) as u16
}

/// Whether `style` is the style among packed attributes. The style takes the lowest nine
/// bits: the lowest is set for an oblique style, whose angle the others give; `0b110`
/// stands for italic; anything else for normal.
pub open spec fn is_packed_style(attributes: u32, style: swash::Style) -> bool {
    let bits = attributes & 0x1FF;
    if bits & 1 != 0 {
        style is Oblique
    } else if bits == 0b110 {
        style == swash::Style::Italic
    } else {
        style == swash::Style::Normal
    }
}

/// `swash::FontRef::attributes`: the attributes that the font states, which depend on the
/// bytes of the file and on the font's offset in them alone.
pub assume_specification<'a>[ swash::FontRef::<'a>::attributes ](
    font: &swash::FontRef<'a>,
) -> (attributes: swash::Attributes)
    ensures
        attributes.0 == font_attributes(font.data@, font.offset),
;

/// `swash::FontRef::charmap`: the character map of the font. Nothing is claimed of it.
pub assume_specification<'a>[ swash::FontRef::<'a>::charmap ](
    font: &swash::FontRef<'a>,
) -> swash::Charmap<'a>;

/// `swash::proxy::CharmapProxy::from_font`: the location of the font's character map.
/// Nothing is claimed of it.
pub assume_specification[ swash::proxy::CharmapProxy::from_font ](
    font: &swash::FontRef,
) -> swash::proxy::CharmapProxy;

/// `swash::Attributes::stretch`: the stretch among the attributes. Nothing is claimed of it.
pub assume_specification[ swash::Attributes::stretch ](
    attributes: &swash::Attributes,
) -> swash::Stretch;

/// `swash::Attributes::weight`: the weight among the attributes, which swash keeps in the
/// ten bits from the ninth on.
pub assume_specification[ swash::Attributes::weight ](attributes: &swash::Attributes) -> (weight:
    swash::Weight)
    ensures
        weight.0 == packed_weight(attributes.0),
;

/// `swash::Attributes::style`: the style among the attributes, which swash unpacks from the
/// lowest nine bits. Of an oblique style the angle is not claimed.
pub assume_specification[ swash::Attributes::style ](attributes: &swash::Attributes) -> (style:
    swash::Style)
    ensures
        is_packed_style(attributes.0, style),
;

/// `swash::Attributes::synthesize`: what to synthesize so that a font of these attributes
/// looks like one of the requested attributes. Nothing is claimed of it.
pub assume_specification[ swash::Attributes::synthesize ](
    attributes: &swash::Attributes,
    requested: swash::Attributes,
) -> swash::Synthesis;

/// `swash::CacheKey`'s `==`: two keys are equal where they are the same key.
#[verifier::external_body]
fn same_key(left: &swash::CacheKey, right: &swash::CacheKey) -> (same: bool)
    ensures
        same == (*left == *right),
{
    left == right
}

/// `Arc::clone`: the new handle points at the same value.
#[verifier::external_body]
pub(crate) fn share<T>(handle: &Arc<T>) -> (shared: Arc<T>)
    ensures
        shared == *handle,
{
    Arc::clone(handle)
}

/// Reference counted, immutable font file contents.
pub struct SharedData {
    inner: Arc<Vec<u8>>,
}

impl View for SharedData {
    type V = Seq<u8>;

    closed spec fn view(&self) -> Seq<u8> {
        (*self.inner)@
    }
}

impl SharedData {
    /// Creates shared data from the specified bytes.
    pub fn new(data: Vec<u8>) -> (shared: Self)
        ensures
            shared@ == data@,
    {
        Self { inner: Arc::new(data) }
    }

    /// Returns the number of strong references to the data: `Arc::strong_count`, which
    /// depends on who else holds the data.
    #[verifier::external_body]
    pub fn strong_count(&self) -> usize {
        Arc::strong_count(&self.inner)
    }

    /// Returns the underlying bytes of the data.
    pub fn as_bytes(&self) -> (bytes: &[u8])
        ensures
            bytes@ == self@,
    {
        self.inner.as_slice()
    }
}

impl Clone for SharedData {
    fn clone(&self) -> (copy: Self)
        ensures
            copy == *self,
    {
        Self { inner: share(&self.inner) }
    }
}

/// Why a face could not be loaded.
#[derive(Clone, Copy, Debug, PartialEq, Eq, Structural)]
pub enum FontError {
    /// The bytes are no font file, or one whose character map tables are not safe to look
    /// glyphs up in.
    FaceLoad,
}

/// What swash finds of a font in a file: the offset of its table directory, a fresh cache
/// key, the location of its character map and its attributes.
pub struct FaceParts {
    pub offset: u32,
    pub key: swash::CacheKey,
    pub charmap_proxy: swash::proxy::CharmapProxy,
    pub attributes: swash::Attributes,
}

/// Whether a face loads from the bytes of a file: swash finds a first font in them, and the
/// character map tables of that font are safe to look glyphs up in.
pub open spec fn loadable(data: Seq<u8>) -> bool {
    font_offset(data, 0) matches Some(offset) && charmap_is_safe(data, offset)
}

/// A loaded face. Its character map tables are safe to look glyphs up in.
pub struct FontData {
    // Full content of the font file
    data: SharedData,
    // Offset to the table directory
    offset: u32,
    // Cache key
    key: swash::CacheKey,
    charmap_proxy: swash::proxy::CharmapProxy,
    weight: swash::Weight,
    style: swash::Style,
    stretch: swash::Stretch,
    synth: swash::Synthesis,
}

impl Clone for FontData {
    fn clone(&self) -> (copy: Self)
        ensures
            copy == *self,
    {
        proof {
            use_type_invariant(self);
        }
        Self {
            data: self.data.clone(),
            offset: self.offset,
            key: self.key,
            charmap_proxy: self.charmap_proxy,
            weight: self.weight,
            style: self.style,
            stretch: self.stretch,
            synth: self.synth,
        }
    }
}

impl FontData {
    #[verifier::type_invariant]
    spec fn charmap_can_be_read(self) -> bool {
        charmap_is_safe(self.data@, self.offset)
    }

    /// The bytes of the font file.
    pub closed spec fn bytes(&self) -> Seq<u8> {
        self.data@
    }

    /// Offset of the face's table directory in its file.
    pub closed spec fn table_offset(&self) -> u32 {
        self.offset
    }

    /// The face's cache key.
    pub closed spec fn cache_key(&self) -> swash::CacheKey {
        self.key
    }

    /// The weight of the face, as read when it was loaded.
    pub closed spec fn spec_weight(&self) -> swash::Weight {
        self.weight
    }

    /// The style of the face, as read when it was loaded.
    pub closed spec fn spec_style(&self) -> swash::Style {
        self.style
    }

    /// The stretch of the face, as read when it was loaded.
    pub closed spec fn spec_stretch(&self) -> swash::Stretch {
        self.stretch
    }

    /// Whether the weight and the style of the face are those among the packed attributes.
    pub open spec fn has_attributes(&self, attributes: u32) -> bool {
        &&& self.spec_weight().0 == packed_weight(attributes)
        &&& is_packed_style(attributes, self.spec_style())
    }

    /// The location of the font's character map.
    pub closed spec fn spec_charmap_proxy(&self) -> swash::proxy::CharmapProxy {
        self.charmap_proxy
    }

    /// What swash suggests to synthesize for the face.
    pub closed spec fn spec_synthesis(&self) -> swash::Synthesis {
        self.synth
    }

    /// What swash suggests to synthesize for the face.
    #[verifier::when_used_as_spec(spec_synthesis)]
    pub fn synthesis(&self) -> (synth: swash::Synthesis)
        ensures
            synth == self.spec_synthesis(),
    {
        self.synth
    }

    /// A face that was loaded from its file is the first font of the file, and its weight
    /// and style are those that the font states.
    pub open spec fn wf(&self) -> bool {
        &&& font_offset(self.bytes(), 0) == Some(self.table_offset())
        &&& self.has_attributes(font_attributes(self.bytes(), self.table_offset()))
    }

    /// Loads the first font of a file from the file's bytes.
    pub fn from_data(data: Vec<u8>) -> (loaded: Result<Self, FontError>)
        ensures
            loaded is Ok == loadable(data@),
            loaded matches Ok(face) ==> face.wf() && face.bytes() == data@,
            loaded matches Err(e) ==> e == FontError::FaceLoad,
    {
        let parts = match swash::FontRef::from_index(data.as_slice(), 0) {
            Some(font) => Some(
                FaceParts {
                    offset: font.offset,
                    key: font.key,
                    charmap_proxy: swash::proxy::CharmapProxy::from_font(&font),
                    attributes: font.attributes(),
                },
            ),
            None => None,
        };
        Self::from_parts(data, parts)
    }

    /// The face of a file's bytes and of what swash found of a font in them; an error
    /// where it found no font, or one whose character map tables are not safe.
    pub fn from_parts(data: Vec<u8>, parts: Option<FaceParts>) -> (loaded: Result<Self, FontError>)
        ensures
            loaded is Ok == (parts matches Some(found) && charmap_is_safe(data@, found.offset)),
            loaded matches Ok(face) ==> {
                &&& face.bytes() == data@
                &&& face.table_offset() == parts->0.offset
                &&& face.cache_key() == parts->0.key
                &&& face.spec_charmap_proxy() == parts->0.charmap_proxy
                &&& face.has_attributes(parts->0.attributes.0)
            },
            loaded matches Err(e) ==> e == FontError::FaceLoad,
    {
        match parts {
            Some(parts) => if charmap_safe(data.as_slice(), parts.offset) {
                Ok(
                    Self {
                        data: SharedData::new(data),
                        offset: parts.offset,
                        key: parts.key,
                        charmap_proxy: parts.charmap_proxy,
                        synth: parts.attributes.synthesize(parts.attributes),
                        style: parts.attributes.style(),
                        weight: parts.attributes.weight(),
                        stretch: parts.attributes.stretch(),
                    },
                )
            } else {
                Err(FontError::FaceLoad)
            },
            None => Err(FontError::FaceLoad),
        }
    }

    /// Loads the first font of a file from a copy of the file's bytes.
    pub fn from_slice(data: &[u8]) -> (loaded: Result<Self, FontError>)
        ensures
            loaded is Ok == loadable(data@),
            loaded matches Ok(face) ==> face.wf() && face.bytes() == data@,
            loaded matches Err(e) ==> e == FontError::FaceLoad,
    {
        Self::from_data(vstd::slice::slice_to_vec(data))
    }

    /// The bytes of the font file.
    pub fn data(&self) -> (bytes: &[u8])
        ensures
            bytes@ == self.bytes(),
    {
        self.data.as_bytes()
    }

    /// The weight that the font states, as read when the face was loaded.
    #[verifier::when_used_as_spec(spec_weight)]
    pub fn weight(&self) -> (weight: swash::Weight)
        ensures
            weight == self.spec_weight(),
    {
        self.weight
    }

    /// The style that the font states, as read when the face was loaded.
    #[verifier::when_used_as_spec(spec_style)]
    pub fn style(&self) -> (style: swash::Style)
        ensures
            style == self.spec_style(),
    {
        self.style
    }

    /// The stretch that the font states, as read when the face was loaded.
    #[verifier::when_used_as_spec(spec_stretch)]
    pub fn stretch(&self) -> (stretch: swash::Stretch)
        ensures
            stretch == self.spec_stretch(),
    {
        self.stretch
    }

    /// The stretch, weight and style that the font states, read from it anew.
    pub fn attributes(&self) -> (attributes: swash::Attributes)
        ensures
            attributes.0 == font_attributes(self.bytes(), self.table_offset()),
    {
        self.as_ref().attributes()
    }

    /// The character map of the font, located anew.
    pub fn charmap(&self) -> swash::Charmap<'_> {
        self.as_ref().charmap()
    }

    /// The location of the font's character map, as found when the face was loaded.
    #[verifier::when_used_as_spec(spec_charmap_proxy)]
    pub fn charmap_proxy(&self) -> (proxy: swash::proxy::CharmapProxy)
        ensures
            proxy == self.spec_charmap_proxy(),
    {
        self.charmap_proxy
    }

    /// Create the transient font reference that swash works on.
    pub fn as_ref(&self) -> (font: swash::FontRef<'_>)
        ensures
            font.data@ == self.bytes(),
            font.offset == self.table_offset(),
            font.key == self.cache_key(),
            charmap_is_safe(font.data@, font.offset),
    {
        proof {
            use_type_invariant(self);
        }
        swash::FontRef { data: self.data.as_bytes(), offset: self.offset, key: self.key }
    }
}

impl PartialEq for FontData {
    /// Two faces are equal where they have the same cache key.
    fn eq(&self, other: &Self) -> (equal: bool) {
        same_key(&self.key, &other.key)
    }
}

impl vstd::std_specs::cmp::PartialEqSpecImpl for FontData {
    open spec fn obeys_eq_spec() -> bool {
        true
    }

    open spec fn eq_spec(&self, other: &Self) -> bool {
        self.cache_key() == other.cache_key()
    }
}

} // verus!
