//! The font catalog: the loaded faces in slot order, and the faces that are loaded only when
//! first needed.

use crate::font::{loadable, share, FontData};
use crate::fonts::{
    emoji_fallbacks, lazy_requests, plain_fallbacks, QueryStyle, SugarloafFont, SugarloafFonts,
};
use std::path::PathBuf;
use std::sync::Arc;
use vstd::prelude::*;

verus! {

/// `std::path::PathBuf`, the path of a file.
#[verifier::external_type_specification]
#[verifier::external_body]
pub struct ExPathBuf(PathBuf);

/// `PathBuf`'s `Clone`: the copy is the same path.
pub assume_specification[ <PathBuf as Clone>::clone ](path: &PathBuf) -> (copy: PathBuf)
    ensures
        copy == *path,
;

/// One of the embedded monospace faces.
#[derive(Clone, Copy, Debug, PartialEq, Eq, Structural)]
pub enum EmbeddedFace {
    ExtraLight,
    ExtraLightItalic,
    Light,
    LightItalic,
    SemiLight,
    SemiLightItalic,
    Regular,
    Italic,
    SemiBold,
    SemiBoldItalic,
    Bold,
    BoldItalic,
}

/// The embedded face that stands in for a face of the given weight and slant.
pub open spec fn embedded_choice(weight: u16, style: QueryStyle) -> EmbeddedFace {
    if style == QueryStyle::Italic {
        if weight == 100 {
            EmbeddedFace::ExtraLightItalic
        } else if weight == 200 {
            EmbeddedFace::LightItalic
        } else if weight == 300 {
            EmbeddedFace::SemiLightItalic
        } else if weight == 600 || weight == 700 {
            EmbeddedFace::SemiBoldItalic
        } else if weight == 800 || weight == 900 {
            EmbeddedFace::BoldItalic
        } else {
            EmbeddedFace::Italic
        }
    } else {
        if weight == 100 {
            EmbeddedFace::ExtraLight
        } else if weight == 200 {
            EmbeddedFace::Light
        } else if weight == 300 {
            EmbeddedFace::SemiLight
        } else if weight == 600 || weight == 700 {
            EmbeddedFace::SemiBold
        } else if weight == 800 || weight == 900 {
            EmbeddedFace::Bold
        } else {
            EmbeddedFace::Regular
        }
    }
}

/// The embedded face that stands in for a face of the given weight and slant.
pub fn embedded_for(weight: u16, style: QueryStyle) -> (face: EmbeddedFace)
    ensures
        face == embedded_choice(weight, style),
{
    match (weight, style) {
        (100, QueryStyle::Italic) => EmbeddedFace::ExtraLightItalic,
        (200, QueryStyle::Italic) => EmbeddedFace::LightItalic,
        (300, QueryStyle::Italic) => EmbeddedFace::SemiLightItalic,
        (400, QueryStyle::Italic) => EmbeddedFace::Italic,
        (500, QueryStyle::Italic) => EmbeddedFace::Italic,
        (600, QueryStyle::Italic) => EmbeddedFace::SemiBoldItalic,
        (700, QueryStyle::Italic) => EmbeddedFace::SemiBoldItalic,
        (800, QueryStyle::Italic) => EmbeddedFace::BoldItalic,
        (900, QueryStyle::Italic) => EmbeddedFace::BoldItalic,
        (_, QueryStyle::Italic) => EmbeddedFace::Italic,
        (100, _) => EmbeddedFace::ExtraLight,
        (200, _) => EmbeddedFace::Light,
        (300, _) => EmbeddedFace::SemiLight,
        (400, _) => EmbeddedFace::Regular,
        (500, _) => EmbeddedFace::Regular,
        (600, _) => EmbeddedFace::SemiBold,
        (700, _) => EmbeddedFace::SemiBold,
        (800, _) => EmbeddedFace::Bold,
        (900, _) => EmbeddedFace::Bold,
        (_, _) => EmbeddedFace::Regular,
    }
}

/// The faces that are compiled into the host: the monospace family that stands in for what
/// the font index lacks, and the symbol face that closes every catalog.
pub struct EmbeddedFonts {
    pub extra_light: FontData,
    pub extra_light_italic: FontData,
    pub light: FontData,
    pub light_italic: FontData,
    pub semi_light: FontData,
    pub semi_light_italic: FontData,
    pub regular: FontData,
    pub italic: FontData,
    pub semi_bold: FontData,
    pub semi_bold_italic: FontData,
    pub bold: FontData,
    pub bold_italic: FontData,
    pub symbols: FontData,
}

impl EmbeddedFonts {
    /// The embedded face of the given name.
    pub open spec fn spec_face(&self, face: EmbeddedFace) -> FontData {
        match face {
            EmbeddedFace::ExtraLight => self.extra_light,
            EmbeddedFace::ExtraLightItalic => self.extra_light_italic,
            EmbeddedFace::Light => self.light,
            EmbeddedFace::LightItalic => self.light_italic,
            EmbeddedFace::SemiLight => self.semi_light,
            EmbeddedFace::SemiLightItalic => self.semi_light_italic,
            EmbeddedFace::Regular => self.regular,
            EmbeddedFace::Italic => self.italic,
            EmbeddedFace::SemiBold => self.semi_bold,
            EmbeddedFace::SemiBoldItalic => self.semi_bold_italic,
            EmbeddedFace::Bold => self.bold,
            EmbeddedFace::BoldItalic => self.bold_italic,
        }
    }

    /// The embedded face of the given name.
    pub fn face(&self, face: EmbeddedFace) -> (font: &FontData)
        ensures
            *font == self.spec_face(face),
    {
        match face {
            EmbeddedFace::ExtraLight => &self.extra_light,
            EmbeddedFace::ExtraLightItalic => &self.extra_light_italic,
            EmbeddedFace::Light => &self.light,
            EmbeddedFace::LightItalic => &self.light_italic,
            EmbeddedFace::SemiLight => &self.semi_light,
            EmbeddedFace::SemiLightItalic => &self.semi_light_italic,
            EmbeddedFace::Regular => &self.regular,
            EmbeddedFace::Italic => &self.italic,
            EmbeddedFace::SemiBold => &self.semi_bold,
            EmbeddedFace::SemiBoldItalic => &self.semi_bold_italic,
            EmbeddedFace::Bold => &self.bold,
            EmbeddedFace::BoldItalic => &self.bold_italic,
        }
    }

    /// The embedded face that stands in for a request.
    pub open spec fn stand_in(&self, font: &SugarloafFont) -> FontData {
        self.spec_face(embedded_choice(font.spec_query_weight(), font.spec_query_style()))
    }
}

/// What the host's font index and file system gave for one request.
pub enum FontSource {
    /// The index knows no face for the request.
    NotFound,
    /// The index knows a face, but it is no file or the file could not be read.
    Unreadable,
    /// The index knows a face in this file, which was not read.
    Path(PathBuf),
    /// The index knows a face in a file with these bytes.
    Data(Vec<u8>),
}

/// Whether the face for a request comes from the file that the host found: the request
/// names another family than the embedded one, and the host read a file that a face loads
/// from.
pub open spec fn from_file(font_spec: SugarloafFont, found: FontSource) -> bool {
    &&& !font_spec.spec_is_default_family()
    &&& found matches FontSource::Data(bytes)
    &&& loadable(bytes@)
}

/// Whether a request is reported as not met: it names another family than the embedded one,
/// and no file of the host's gave its face.
pub open spec fn unmet(font_spec: SugarloafFont, found: FontSource) -> bool {
    !font_spec.spec_is_default_family() && !from_file(font_spec, found)
}

/// Whether `face` is the face that a request is owed, given what the host found for it.
pub open spec fn settles(
    font_spec: SugarloafFont,
    found: FontSource,
    embedded: &EmbeddedFonts,
    face: FontData,
) -> bool {
    if from_file(font_spec, found) {
        face.wf() && face.bytes() == found->Data_0@
    } else if !font_spec.spec_is_default_family() && found is Data {
        face == embedded.regular
    } else {
        face == embedded.stand_in(&font_spec)
    }
}

/// What `find_font` owes for a request and what the host found for it: the face, whether it
/// is an embedded stand-in, and the request itself where it could not be met.
pub open spec fn found_font(
    font_spec: SugarloafFont,
    found: FontSource,
    embedded: &EmbeddedFonts,
    result: (FontData, bool, Option<SugarloafFont>),
) -> bool {
    &&& settles(font_spec, found, embedded, result.0)
    &&& result.1 == !from_file(font_spec, found)
    &&& result.2 == (if unmet(font_spec, found) {
        Some(font_spec)
    } else {
        None
    })
}

/// Settles one request. A request for the embedded family is met from the embedded faces
/// without a word to the host. For any other family the host has asked its font index: a
/// file that a face loads from gives the face; any other file gives the embedded regular
/// face; where nothing was found or read, the embedded face of the weight and slant asked
/// for stands in. The request comes back as not met, unless it was met from the embedded
/// family or from a file.
pub fn find_font(font_spec: SugarloafFont, found: FontSource, embedded: &EmbeddedFonts) -> (result:
    (FontData, bool, Option<SugarloafFont>))
    ensures
        found_font(font_spec, found, embedded, result),
{
    let weight = font_spec.query_weight();
    let style = font_spec.query_style();
    if font_spec.is_default_family() {
        return (embedded.face(embedded_for(weight, style)).clone(), true, None);
    }
    match found {
        FontSource::Data(bytes) => match FontData::from_data(bytes) {
            Ok(face) => (face, false, None),
            Err(_) => (embedded.regular.clone(), true, Some(font_spec)),
        },
        _ => (embedded.face(embedded_for(weight, style)).clone(), true, Some(font_spec)),
    }
}

/// The file of a face that is to be loaded later: the path that the host's font index gave
/// for the family, if it gave one.
pub fn find_font_path(found: FontSource) -> (path: Option<PathBuf>)
    ensures
        path == (match found {
            FontSource::Path(file) => Some(file),
            _ => None,
        }),
{
    match found {
        FontSource::Path(file) => Some(file),
        _ => None,
    }
}

/// A face that is not loaded when the catalog is built, but from its file when it is first
/// needed.
#[derive(Clone)]
pub struct FontDataRef {
    path: PathBuf,
    is_emoji: bool,
}

impl FontDataRef {
    /// The file of the face.
    pub closed spec fn spec_path(&self) -> PathBuf {
        self.path
    }

    /// Whether the face is an emoji face.
    pub closed spec fn spec_is_emoji(&self) -> bool {
        self.is_emoji
    }

    /// A face in the given file.
    pub fn new(path: PathBuf, is_emoji: bool) -> (face: Self)
        ensures
            face.spec_path() == path,
            face.spec_is_emoji() == is_emoji,
    {
        FontDataRef { path, is_emoji }
    }

    /// The file of the face.
    pub fn path(&self) -> (path: &PathBuf)
        ensures
            *path == self.spec_path(),
    {
        &self.path
    }

    /// Whether the face is an emoji face.
    #[verifier::when_used_as_spec(spec_is_emoji)]
    pub fn is_emoji(&self) -> (emoji: bool)
        ensures
            emoji == self.spec_is_emoji(),
    {
        self.is_emoji
    }
}

/// The part that a slot plays.
#[derive(Clone, Copy, Debug, PartialEq, Eq, Structural)]
pub enum SlotRole {
    Regular,
    Italic,
    Bold,
    BoldItalic,
    /// A face of one of the fallback families.
    Fallback,
    /// A face that the host configured or inserted.
    Extra,
    /// The embedded symbol face.
    Symbol,
    /// The emoji face, which has the slot after the catalog's last.
    Emoji,
}

/// A loaded face with its role.
struct Slot {
    face: FontData,
    role: SlotRole,
}

/// The catalog: loaded faces by slot, and the faces to load later.
pub struct FontLibraryData {
    inner: Vec<Slot>,
    lazy_inner: Vec<FontDataRef>,
}

impl FontLibraryData {
    /// The loaded faces, by slot.
    pub closed spec fn faces(&self) -> Seq<FontData> {
        Seq::new(self.inner@.len(), |i: int| self.inner@[i].face)
    }

    /// The roles of the loaded faces, by slot.
    pub closed spec fn roles(&self) -> Seq<SlotRole> {
        Seq::new(self.inner@.len(), |i: int| self.inner@[i].role)
    }

    /// The faces to load later.
    pub closed spec fn lazy_faces(&self) -> Seq<FontDataRef> {
        self.lazy_inner@
    }

    /// The role of a slot: that of its face, and `Emoji` for a slot after the last.
    pub open spec fn spec_role(&self, font_id: usize) -> SlotRole {
        if font_id < self.roles().len() {
            self.roles()[font_id as int]
        } else {
            SlotRole::Emoji
        }
    }

    /// Every face has a role.
    pub proof fn lemma_roles_len(&self)
        ensures
            self.roles().len() == self.faces().len(),
    {
    }

    /// The slots and the faces to load later can be counted in a `usize`.
    pub proof fn lemma_countable(&self)
        ensures
            self.faces().len() <= usize::MAX,
            self.lazy_faces().len() <= usize::MAX,
    {
        assert(self.inner.len() == self.inner@.len());
        assert(self.lazy_inner.len() == self.lazy_inner@.len());
    }

    /// A catalog without faces.
    pub fn new() -> (library: Self)
        ensures
            library.faces().len() == 0,
            library.lazy_faces().len() == 0,
    {
        FontLibraryData { inner: Vec::new(), lazy_inner: Vec::new() }
    }

    /// Appends a face in a role.
    fn push(&mut self, face: FontData, role: SlotRole)
        ensures
            final(self).faces() == old(self).faces().push(face),
            final(self).roles() == old(self).roles().push(role),
            final(self).lazy_faces() == old(self).lazy_faces(),
    {
        self.inner.push(Slot { face, role });
        assert(self.faces() =~= old(self).faces().push(face));
        assert(self.roles() =~= old(self).roles().push(role));
    }

    /// Appends a face in the role `Extra` and returns its slot.
    pub fn insert(&mut self, font_data: FontData) -> (font_id: usize)
        ensures
            font_id == old(self).faces().len(),
            final(self).faces() == old(self).faces().push(font_data),
            final(self).roles() == old(self).roles().push(SlotRole::Extra),
            final(self).lazy_faces() == old(self).lazy_faces(),
    {
        self.push(font_data, SlotRole::Extra);
        assert(self.faces().len() == self.inner@.len());
        self.inner.len() - 1
    }

    /// Number of loaded faces.
    pub fn len(&self) -> (len: usize)
        ensures
            len == self.faces().len(),
            len == self.roles().len(),
    {
        self.inner.len()
    }

    /// Whether no face is loaded.
    pub fn is_empty(&self) -> (empty: bool)
        ensures
            empty == (self.faces().len() == 0),
    {
        self.inner.is_empty()
    }

    /// The face in a slot.
    pub fn get(&self, font_id: usize) -> (face: &FontData)
        requires
            font_id < self.faces().len(),
        ensures
            *face == self.faces()[font_id as int],
    {
        &self.inner[font_id].face
    }

    /// The face in a slot, as swash reads it.
    pub fn font_by_id(&self, font_id: usize) -> (font: swash::FontRef<'_>)
        requires
            font_id < self.faces().len(),
        ensures
            font.data@ == self.faces()[font_id as int].bytes(),
            font.offset == self.faces()[font_id as int].table_offset(),
            font.key == self.faces()[font_id as int].cache_key(),
    {
        self.inner[font_id].face.as_ref()
    }

    /// The role of a slot: that of its face, and `Emoji` for a slot after the last.
    #[verifier::when_used_as_spec(spec_role)]
    pub fn role(&self, font_id: usize) -> (role: SlotRole)
        ensures
            role == self.spec_role(font_id),
    {
        if font_id < self.inner.len() {
            self.inner[font_id].role
        } else {
            SlotRole::Emoji
        }
    }

    /// Number of faces to load later.
    pub fn lazy_len(&self) -> (len: usize)
        ensures
            len == self.lazy_faces().len(),
    {
        self.lazy_inner.len()
    }

    /// One of the faces to load later.
    pub fn lazy(&self, index: usize) -> (face: &FontDataRef)
        requires
            index < self.lazy_faces().len(),
        ensures
            *face == self.lazy_faces()[index as int],
    {
        &self.lazy_inner[index]
    }
}

impl Default for FontLibraryData {
    fn default() -> (library: Self)
        ensures
            library.faces().len() == 0,
            library.lazy_faces().len() == 0,
    {
        FontLibraryData::new()
    }
}

/// What the host found for the request at a position; nothing, where it gave no answer.
pub open spec fn source_at(found: Seq<FontSource>, position: int) -> FontSource {
    if 0 <= position < found.len() {
        found[position]
    } else {
        FontSource::NotFound
    }
}

/// The requests that are reported as not met, in their order.
pub open spec fn unmet_requests(requests: Seq<SugarloafFont>, found: Seq<FontSource>) -> Seq<
    SugarloafFont,
>
    decreases requests.len(),
{
    if requests.len() == 0 {
        Seq::empty()
    } else if unmet(requests.last(), source_at(found, requests.len() - 1)) {
        unmet_requests(requests.drop_last(), found).push(requests.last())
    } else {
        unmet_requests(requests.drop_last(), found)
    }
}

/// The files among what the host found, in their order.
pub open spec fn found_paths(found: Seq<FontSource>) -> Seq<PathBuf>
    decreases found.len(),
{
    if found.len() == 0 {
        Seq::empty()
    } else {
        match found.last() {
            FontSource::Path(file) => found_paths(found.drop_last()).push(file),
            _ => found_paths(found.drop_last()),
        }
    }
}

/// The role of the face for the request at a position, where `plain` fallback families are
/// loaded at once.
pub open spec fn request_role(position: int, plain: int) -> SlotRole {
    if position == 0 {
        SlotRole::Regular
    } else if position == 1 {
        SlotRole::Italic
    } else if position == 2 {
        SlotRole::Bold
    } else if position == 3 {
        SlotRole::BoldItalic
    } else if position < 4 + plain {
        SlotRole::Fallback
    } else {
        SlotRole::Extra
    }
}

/// The role of the face for the request at a position, where `plain` fallback families are
/// loaded at once.
pub fn role_of_request(position: usize, plain: usize) -> (role: SlotRole)
    ensures
        role == request_role(position as int, plain as int),
{
    if position == 0 {
        SlotRole::Regular
    } else if position == 1 {
        SlotRole::Italic
    } else if position == 2 {
        SlotRole::Bold
    } else if position == 3 {
        SlotRole::BoldItalic
    } else if position - 4 < plain {
        SlotRole::Fallback
    } else {
        SlotRole::Extra
    }
}

impl FontLibraryData {
    /// Settles one request and appends its face in the given role; the request joins
    /// `not_found` where it was not met.
    fn push_found(
        &mut self,
        font_spec: SugarloafFont,
        found: FontSource,
        embedded: &EmbeddedFonts,
        role: SlotRole,
        not_found: &mut Vec<SugarloafFont>,
    )
        ensures
            final(self).faces().len() == old(self).faces().len() + 1,
            final(self).faces().drop_last() == old(self).faces(),
            settles(font_spec, found, embedded, final(self).faces().last()),
            final(self).roles() == old(self).roles().push(role),
            final(self).lazy_faces() == old(self).lazy_faces(),
            final(not_found)@ == (if unmet(font_spec, found) {
                old(not_found)@.push(font_spec)
            } else {
                old(not_found)@
            }),
    {
        let (face, _stand_in, missing) = find_font(font_spec, found, embedded);
        self.push(face, role);
        assert(self.faces().drop_last() =~= old(self).faces());
        match missing {
            Some(font) => {
                not_found.push(font);
            },
            None => {},
        }
    }

    /// Registers the files that the host found for the emoji families as faces to load
    /// later; of what the host found, only as many answers count as there are families.
    fn push_lazy(&mut self, families: usize, lazy_found: Vec<FontSource>)
        ensures
            final(self).faces() == old(self).faces(),
            final(self).roles() == old(self).roles(),
            registered(
                old(self).lazy_faces(),
                final(self).lazy_faces(),
                found_paths(clip(lazy_found@, families as int)),
            ),
    {
        let ghost before = self.lazy_inner@;
        let ghost answers = clip(lazy_found@, families as int);
        let mut position: usize = 0;
        for source in it: lazy_found.into_iter()
            invariant
                self.inner@ == old(self).inner@,
                it.seq() == lazy_found@,
                position == (if it.index() <= families {
                    it.index()
                } else {
                    families as int
                }),
                answers == clip(lazy_found@, families as int),
                before == old(self).lazy_inner@,
                registered(before, self.lazy_inner@, found_paths(answers.take(position as int))),
        {
            if position < families {
                let ghost earlier = self.lazy_inner@;
                proof {
                    assert(answers.take(position + 1).drop_last() =~= answers.take(position as int));
                    assert(answers.take(position + 1).last() == source);
                }
                match find_font_path(source) {
                    Some(file) => {
                        self.lazy_inner.push(FontDataRef::new(file, true));
                    },
                    None => {},
                }
                proof {
                    assert(self.lazy_inner@.take(before.len() as int) =~= earlier.take(
                        before.len() as int,
                    ));
                }
                position += 1;
            }
        }
        proof {
            assert(answers.take(position as int) =~= answers);
        }
    }

    /// Builds the catalog. `found` holds what the host found for each of
    /// `spec.face_requests(fallbacks)`, `lazy_found` what it found for each of
    /// `lazy_requests(fallbacks)`; a request without an answer counts as not found. Appended
    /// are, in this order: the faces of the four styles, those of the fallback families that
    /// are no emoji families, the extra faces, and the embedded symbol face. The files found
    /// for the emoji families are registered to be loaded later. Returned are the requests
    /// that were not met.
    pub fn load(
        &mut self,
        spec: SugarloafFonts,
        fallbacks: &Vec<String>,
        embedded: &EmbeddedFonts,
        found: Vec<FontSource>,
        lazy_found: Vec<FontSource>,
    ) -> (not_found: Vec<SugarloafFont>)
        ensures
            loaded_from(
                old(self).faces(),
                old(self).roles(),
                *final(self),
                spec,
                fallbacks@,
                embedded,
                found@,
            ),
            registered(
                old(self).lazy_faces(),
                final(self).lazy_faces(),
                found_paths(clip(lazy_found@, emoji_fallbacks(fallbacks@).len() as int)),
            ),
            not_found@ == unmet_requests(spec.spec_face_requests(fallbacks@), found@),
    {
        let requests = spec.face_requests(fallbacks);
        let families = lazy_requests(fallbacks);
        let plain = requests.len() - 4 - spec.extras.len();
        let ghost before = *self;
        let mut not_found: Vec<SugarloafFont> = Vec::new();
        let mut position: usize = 0;
        proof {
            before.lemma_roles_len();
            assert(before.faces().take(before.faces().len() as int) =~= before.faces());
            assert(before.roles().take(before.faces().len() as int) =~= before.roles());
            assert(plain == plain_fallbacks(fallbacks@).len());
        }
        for source in it: found.into_iter()
            invariant
                it.seq() == found@,
                position == (if it.index() <= requests@.len() {
                    it.index()
                } else {
                    requests@.len() as int
                }),
                filled_to(before, *self, requests@, found@, embedded, plain as int, position as int),
                not_found@ == unmet_requests(requests@.take(position as int), found@),
        {
            if position < requests.len() {
                let ghost earlier = *self;
                self.push_found(
                    requests[position].clone(),
                    source,
                    embedded,
                    role_of_request(position, plain),
                    &mut not_found,
                );
                proof {
                    lemma_fill_step(
                        before,
                        earlier,
                        *self,
                        requests@,
                        found@,
                        embedded,
                        plain as int,
                        position as int,
                    );
                    assert(requests@.take(position + 1).drop_last() =~= requests@.take(
                        position as int,
                    ));
                }
                position += 1;
            }
        }
        while position < requests.len()
            invariant
                position <= requests@.len(),
                position < requests@.len() ==> found@.len() <= position,
                filled_to(before, *self, requests@, found@, embedded, plain as int, position as int),
                not_found@ == unmet_requests(requests@.take(position as int), found@),
            decreases requests@.len() - position,
        {
            let ghost earlier = *self;
            self.push_found(
                requests[position].clone(),
                FontSource::NotFound,
                embedded,
                role_of_request(position, plain),
                &mut not_found,
            );
            proof {
                lemma_fill_step(
                    before,
                    earlier,
                    *self,
                    requests@,
                    found@,
                    embedded,
                    plain as int,
                    position as int,
                );
                assert(requests@.take(position + 1).drop_last() =~= requests@.take(position as int));
            }
            position += 1;
        }
        let ghost filled = *self;
        proof {
            assert(requests@.take(position as int) =~= requests@);
        }
        self.push(embedded.symbols.clone(), SlotRole::Symbol);
        self.push_lazy(families.len(), lazy_found);
        proof {
            lemma_fill_close(
                before,
                filled,
                *self,
                spec,
                fallbacks@,
                found@,
                embedded,
            );
        }
        not_found
    }
}

/// Whether the catalog `current` is the catalog `before` with one face appended for each of
/// the first `position` requests.
pub open spec fn filled_to(
    before: FontLibraryData,
    current: FontLibraryData,
    requests: Seq<SugarloafFont>,
    found: Seq<FontSource>,
    embedded: &EmbeddedFonts,
    plain: int,
    position: int,
) -> bool {
    let base = before.faces().len() as int;
    &&& 0 <= position <= requests.len()
    &&& current.faces().len() == base + position
    &&& current.roles().len() == base + position
    &&& current.faces().take(base) =~= before.faces()
    &&& current.roles().take(base) =~= before.roles()
    &&& current.lazy_faces() == before.lazy_faces()
    &&& forall|slot: int|
        base <= slot < base + position ==> #[trigger] slot_settled(
            current,
            base,
            requests,
            found,
            embedded,
            plain,
            slot,
        )
}

/// Whether a slot of the catalog holds the face that its request is owed, in the role of
/// the request. The requests start at the slot `base`.
pub open spec fn slot_settled(
    current: FontLibraryData,
    base: int,
    requests: Seq<SugarloafFont>,
    found: Seq<FontSource>,
    embedded: &EmbeddedFonts,
    plain: int,
    slot: int,
) -> bool {
    &&& settles(requests[slot - base], source_at(found, slot - base), embedded, current.faces()[slot])
    &&& current.roles()[slot] == request_role(slot - base, plain)
}

/// One more request settled keeps the catalog filled.
proof fn lemma_fill_step(
    before: FontLibraryData,
    earlier: FontLibraryData,
    current: FontLibraryData,
    requests: Seq<SugarloafFont>,
    found: Seq<FontSource>,
    embedded: &EmbeddedFonts,
    plain: int,
    position: int,
)
    requires
        filled_to(before, earlier, requests, found, embedded, plain, position),
        position < requests.len(),
        current.faces().len() == earlier.faces().len() + 1,
        current.faces().drop_last() == earlier.faces(),
        settles(requests[position], source_at(found, position), embedded, current.faces().last()),
        current.roles() == earlier.roles().push(request_role(position, plain)),
        current.lazy_faces() == earlier.lazy_faces(),
    ensures
        filled_to(before, current, requests, found, embedded, plain, position + 1),
{
    let base = before.faces().len() as int;
    assert(current.faces().len() == base + position + 1);
    assert(current.roles().len() == base + position + 1);
    assert(current.faces().take(base) =~= earlier.faces().take(base));
    assert(current.roles().take(base) =~= earlier.roles().take(base));
    assert(current.faces().take(base) =~= before.faces());
    assert(current.roles().take(base) =~= before.roles());
    assert forall|slot: int| base <= slot < base + position + 1 implies #[trigger] slot_settled(
        current,
        base,
        requests,
        found,
        embedded,
        plain,
        slot,
    ) by {
        if slot < base + position {
            assert(slot_settled(earlier, base, requests, found, embedded, plain, slot));
            assert(current.faces().drop_last()[slot] == current.faces()[slot]);
            assert(earlier.faces()[slot] == current.faces()[slot]);
            assert(earlier.roles()[slot] == current.roles()[slot]);
        } else {
            assert(slot == base + position);
            assert(earlier.roles().len() == base + position);
            assert(current.faces().last() == current.faces()[slot]);
            assert(current.roles()[slot] == request_role(position, plain));
        }
    }
    assert(0 <= position + 1 <= requests.len());
    assert(current.lazy_faces() == before.lazy_faces());
}

/// The symbol face closes a catalog that is filled for every request.
proof fn lemma_fill_close(
    before: FontLibraryData,
    filled: FontLibraryData,
    after: FontLibraryData,
    spec: SugarloafFonts,
    fallbacks: Seq<String>,
    found: Seq<FontSource>,
    embedded: &EmbeddedFonts,
)
    requires
        filled_to(
            before,
            filled,
            spec.spec_face_requests(fallbacks),
            found,
            embedded,
            plain_fallbacks(fallbacks).len() as int,
            spec.spec_face_requests(fallbacks).len() as int,
        ),
        after.faces() == filled.faces().push(embedded.symbols),
        after.roles() == filled.roles().push(SlotRole::Symbol),
    ensures
        loaded_from(before.faces(), before.roles(), after, spec, fallbacks, embedded, found),
{
    let requests = spec.spec_face_requests(fallbacks);
    let base = before.faces().len() as int;
    assert(after.faces().take(base) =~= filled.faces().take(base));
    assert(after.roles().take(base) =~= filled.roles().take(base));
    assert forall|slot: int| base <= slot < base + requests.len() implies #[trigger] slot_settled(
        after,
        base,
        requests,
        found,
        embedded,
        plain_fallbacks(fallbacks).len() as int,
        slot,
    ) by {
        assert(slot_settled(
            filled,
            base,
            requests,
            found,
            embedded,
            plain_fallbacks(fallbacks).len() as int,
            slot,
        ));
        assert(after.faces()[slot] == filled.faces()[slot]);
        assert(after.roles()[slot] == filled.roles()[slot]);
    }
    assert(after.faces().len() == base + requests.len() + 1);
    assert(after.roles().len() == after.faces().len());
    assert(after.faces().last() == embedded.symbols);
    assert(after.roles().last() == SlotRole::Symbol);
}

/// The first `count` of the host's answers, or all of them where there are fewer.
pub open spec fn clip(found: Seq<FontSource>, count: int) -> Seq<FontSource> {
    if 0 <= count < found.len() {
        found.take(count)
    } else {
        found
    }
}

/// Whether `after` is `before` with one emoji face to load later appended for each of
/// `files`, in their order.
pub open spec fn registered(before: Seq<FontDataRef>, after: Seq<FontDataRef>, files: Seq<PathBuf>) -> bool {
    &&& after.len() == before.len() + files.len()
    &&& after.take(before.len() as int) =~= before
    &&& forall|at: int|
        before.len() <= at < after.len() ==> {
            &&& (#[trigger] after[at]).spec_path() == files[at - before.len()]
            &&& after[at].spec_is_emoji()
        }
}

/// Whether the catalog `after` is the catalog `before` with the faces appended that `spec`
/// and the fallback families ask for, given what the host found for the requests: one face
/// per request in its role, then the embedded symbol face.
pub open spec fn loaded_from(
    faces_before: Seq<FontData>,
    roles_before: Seq<SlotRole>,
    after: FontLibraryData,
    spec: SugarloafFonts,
    fallbacks: Seq<String>,
    embedded: &EmbeddedFonts,
    found: Seq<FontSource>,
) -> bool {
    let requests = spec.spec_face_requests(fallbacks);
    let base = faces_before.len() as int;
    &&& after.faces().len() == base + requests.len() + 1
    &&& after.roles().len() == after.faces().len()
    &&& after.faces().take(base) =~= faces_before
    &&& after.roles().take(base) =~= roles_before
    &&& forall|slot: int|
        base <= slot < base + requests.len() ==> #[trigger] slot_settled(
            after,
            base,
            requests,
            found,
            embedded,
            plain_fallbacks(fallbacks).len() as int,
            slot,
        )
    &&& after.faces().last() == embedded.symbols
    &&& after.roles().last() == SlotRole::Symbol
}

/// Loads a face whose file the host has read: the face, where the file was read and its
/// bytes are a font.
pub fn load_from_data_ref(read: Option<Vec<u8>>) -> (face: Option<FontData>)
    ensures
        face is Some == (read matches Some(bytes) && loadable(bytes@)),
        face matches Some(loaded) ==> loaded.wf() && loaded.bytes() == read->0@,
{
    match read {
        Some(bytes) => match FontData::from_data(bytes) {
            Ok(loaded) => Some(loaded),
            Err(_) => None,
        },
        None => None,
    }
}

/// A shared catalog that is built once and never changed: a reload builds another.
pub struct FontLibrary {
    inner: Arc<FontLibraryData>,
}

/// Whether a catalog is whole: its first four slots are those of the four styles, regular,
/// italic, bold and bold italic, and its last is that of the symbol face.
pub open spec fn has_style_slots(library: FontLibraryData) -> bool {
    &&& library.faces().len() >= 5
    &&& library.roles().len() == library.faces().len()
    &&& library.roles()[0] == SlotRole::Regular
    &&& library.roles()[1] == SlotRole::Italic
    &&& library.roles()[2] == SlotRole::Bold
    &&& library.roles()[3] == SlotRole::BoldItalic
    &&& library.roles().last() == SlotRole::Symbol
}

/// A catalog that is loaded from none is whole.
pub proof fn lemma_loaded_is_whole(
    library: FontLibraryData,
    spec: SugarloafFonts,
    fallbacks: Seq<String>,
    embedded: &EmbeddedFonts,
    found: Seq<FontSource>,
)
    requires
        loaded_from(Seq::empty(), Seq::empty(), library, spec, fallbacks, embedded, found),
    ensures
        has_style_slots(library),
{
    let requests = spec.spec_face_requests(fallbacks);
    let plain = plain_fallbacks(fallbacks).len() as int;
    assert(spec.style_requests().len() == 4);
    assert(requests.len() >= 4);
    assert(slot_settled(library, 0, requests, found, embedded, plain, 0));
    assert(slot_settled(library, 0, requests, found, embedded, plain, 1));
    assert(slot_settled(library, 0, requests, found, embedded, plain, 2));
    assert(slot_settled(library, 0, requests, found, embedded, plain, 3));
}

impl FontLibrary {
    #[verifier::type_invariant]
    spec fn styles_are_loaded(self) -> bool {
        has_style_slots(*self.inner)
    }

    /// The catalog.
    pub closed spec fn spec_data(&self) -> FontLibraryData {
        *self.inner
    }

    /// Builds the catalog for what the host asks for, from what it found: see
    /// `FontLibraryData::load`. Returned with the catalog are the requests that were not met.
    pub fn new(
        spec: SugarloafFonts,
        fallbacks: &Vec<String>,
        embedded: &EmbeddedFonts,
        found: Vec<FontSource>,
        lazy_found: Vec<FontSource>,
    ) -> (built: (Self, Vec<SugarloafFont>))
        ensures
            loaded_from(
                Seq::empty(),
                Seq::empty(),
                built.0.spec_data(),
                spec,
                fallbacks@,
                embedded,
                found@,
            ),
            registered(
                Seq::empty(),
                built.0.spec_data().lazy_faces(),
                found_paths(clip(lazy_found@, emoji_fallbacks(fallbacks@).len() as int)),
            ),
            built.1@ == unmet_requests(spec.spec_face_requests(fallbacks@), found@),
    {
        let mut font_library = FontLibraryData::new();
        let ghost empty = font_library;
        let not_found = font_library.load(spec, fallbacks, embedded, found, lazy_found);
        proof {
            empty.lemma_roles_len();
            assert(empty.faces() =~= Seq::empty());
            assert(empty.roles() =~= Seq::empty());
            assert(empty.lazy_faces() =~= Seq::empty());
            lemma_loaded_is_whole(font_library, spec, fallbacks@, embedded, found@);
        }
        (FontLibrary { inner: Arc::new(font_library) }, not_found)
    }

    /// The catalog. It is whole: the slots of the four styles come first, that of the
    /// symbol face last.
    pub fn data(&self) -> (data: &FontLibraryData)
        ensures
            *data == self.spec_data(),
            has_style_slots(*data),
    {
        proof {
            use_type_invariant(self);
        }
        &*self.inner
    }
}

impl Clone for FontLibrary {
    fn clone(&self) -> (copy: Self)
        ensures
            copy == *self,
    {
        proof {
            use_type_invariant(self);
        }
        FontLibrary { inner: share(&self.inner) }
    }
}

} // verus!
