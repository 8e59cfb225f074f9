//! The font resolver: which slot renders a cluster in a requested style. It keeps the faces
//! it has used, and holds at most one emoji face, which it drops once idle.

use crate::cluster::{charmap_accepts, emoji_presentation, Cluster};
use crate::font::{FontData, FONT_ID_BOLD, FONT_ID_BOLD_ITALIC, FONT_ID_ITALIC, FONT_ID_REGULAR};
use crate::library::{FontDataRef, FontLibrary, FontLibraryData};
use std::collections::HashMap;
use swash::Synthesis;
use vstd::prelude::*;
use vstd::std_specs::hash::*;

verus! {

/// Milliseconds after which an emoji face that was not used is dropped.
pub const EMOJI_IDLE_MILLIS: u64 = 4000;

/// Weight that counts as bold.
pub const WEIGHT_BOLD: u16 = 700;

/// The style that a cluster is to be rendered in.
#[derive(Clone, Copy, Debug, PartialEq, Eq, Structural)]
pub struct FragmentStyle {
    pub weight: u16,
    pub italic: bool,
}

impl FragmentStyle {
    /// The slot that a bold or italic style maps to; none for any other style.
    pub open spec fn spec_slot(&self) -> Option<usize> {
        if self.weight == WEIGHT_BOLD && self.italic {
            Some(FONT_ID_BOLD_ITALIC)
        } else if self.weight == WEIGHT_BOLD {
            Some(FONT_ID_BOLD)
        } else if self.italic {
            Some(FONT_ID_ITALIC)
        } else {
            None
        }
    }

    /// The slot that a bold or italic style maps to; none for any other style.
    #[verifier::when_used_as_spec(spec_slot)]
    pub fn slot(&self) -> (font_id: Option<usize>)
        ensures
            font_id == self.spec_slot(),
    {
        let is_bold = self.weight == WEIGHT_BOLD;
        if is_bold && self.italic {
            Some(FONT_ID_BOLD_ITALIC)
        } else if is_bold {
            Some(FONT_ID_BOLD)
        } else if self.italic {
            Some(FONT_ID_ITALIC)
        } else {
            None
        }
    }
}

/// What a resolver holds: the faces it has used, by slot; the slot of the emoji face, if one
/// is held; and when that face was last used, in milliseconds.
pub struct ContextState {
    pub cached: Map<usize, FontData>,
    pub emoji: Option<usize>,
    pub emoji_last_usage: Option<u64>,
}

impl ContextState {
    /// Whether the emoji face has been idle for more than four seconds at `now`.
    pub open spec fn idle(self, now: u64) -> bool {
        &&& self.emoji is Some
        &&& self.emoji_last_usage matches Some(last)
        &&& now - last > EMOJI_IDLE_MILLIS
    }

    /// The state once an idle emoji face is dropped.
    pub open spec fn evicted(self, now: u64) -> ContextState {
        if self.idle(now) {
            ContextState {
                cached: self.cached.remove(self.emoji->0),
                emoji: None,
                emoji_last_usage: None,
            }
        } else {
            self
        }
    }

    /// The slot of the emoji face, where one is held.
    pub open spec fn live_emoji(self) -> Option<usize> {
        match self.emoji {
            Some(font_id) => if self.cached.contains_key(font_id) {
                Some(font_id)
            } else {
                None
            },
            None => None,
        }
    }

    /// The face of a slot as the resolver sees it: its own copy, where it has one.
    pub open spec fn face_for(self, font_id: usize, faces: Seq<FontData>) -> FontData {
        if self.cached.contains_key(font_id) {
            self.cached[font_id]
        } else {
            faces[font_id as int]
        }
    }

    /// The state once the catalog's face of a slot is kept, unless one is kept already.
    pub open spec fn pulled(self, font_id: usize, faces: Seq<FontData>) -> ContextState {
        if self.cached.contains_key(font_id) {
            self
        } else {
            ContextState {
                cached: self.cached.insert(font_id, faces[font_id as int]),
                emoji: self.emoji,
                emoji_last_usage: self.emoji_last_usage,
            }
        }
    }

    /// The state once `face` is held as the emoji face in a slot, used at `now`.
    pub open spec fn installed(self, font_id: usize, face: FontData, now: u64) -> ContextState {
        ContextState {
            cached: self.cached.insert(font_id, face),
            emoji: Some(font_id),
            emoji_last_usage: Some(now),
        }
    }

    /// The state once the emoji face is used at `now`.
    pub open spec fn refreshed(self, now: u64) -> ContextState {
        ContextState { cached: self.cached, emoji: self.emoji, emoji_last_usage: Some(now) }
    }
}

/// The first slot from `start` on whose face has a glyph for the cluster.
pub open spec fn first_match(cluster: Seq<char>, faces: Seq<FontData>, start: int) -> Option<usize>
    decreases faces.len() - start,
{
    if start < 0 || start >= faces.len() {
        None
    } else if charmap_accepts(cluster, faces[start]) {
        Some(start as usize)
    } else {
        first_match(cluster, faces, start + 1)
    }
}

/// The first of the faces to load later, from `start` on, that is an emoji face.
pub open spec fn first_emoji(lazy: Seq<FontDataRef>, start: int) -> Option<usize>
    decreases lazy.len() - start,
{
    if start < 0 || start >= lazy.len() {
        None
    } else if lazy[start].spec_is_emoji() {
        Some(start as usize)
    } else {
        first_emoji(lazy, start + 1)
    }
}

/// The first slot that a flag is set for: what the scan over the catalog returns, given
/// for each face whether it has a glyph for the cluster.
pub open spec fn first_set(flags: Seq<bool>, start: int) -> Option<usize>
    decreases flags.len() - start,
{
    if start < 0 || start >= flags.len() {
        None
    } else if flags[start] {
        Some(start as usize)
    } else {
        first_set(flags, start + 1)
    }
}

/// The first slot that a flag is set for.
pub fn first_kept(flags: &Vec<bool>) -> (font_id: Option<usize>)
    ensures
        font_id == first_set(flags@, 0),
{
    let mut at: usize = flags.len();
    let mut found: Option<usize> = None;
    while at > 0
        invariant
            at <= flags.len(),
            found == first_set(flags@, at as int),
        decreases at,
    {
        at -= 1;
        if flags[at] {
            found = Some(at);
        }
    }
    found
}

/// What resolving a cluster comes to.
pub struct Resolution {
    /// What the resolver holds afterwards.
    pub state: ContextState,
    /// The slot, if there is one.
    pub font_id: Option<usize>,
    /// The face whose synthesis is to be applied: the one that was tested, where it has a
    /// glyph for the cluster.
    pub tested: Option<FontData>,
}

/// The face, where it has a glyph for the cluster.
pub open spec fn if_mapped(cluster: Seq<char>, face: FontData) -> Option<FontData> {
    if charmap_accepts(cluster, face) {
        Some(face)
    } else {
        None
    }
}

/// Whether resolving a cluster in a style asks for the emoji face to be loaded, and if so,
/// which of the catalog's faces to load later it is.
pub open spec fn emoji_wanted(
    state: ContextState,
    cluster: Seq<char>,
    style: FragmentStyle,
    library: FontLibraryData,
    now: u64,
) -> Option<usize> {
    if style.spec_slot() is None && emoji_presentation(cluster) && state.evicted(now).live_emoji()
        is None {
        first_emoji(library.lazy_faces(), 0)
    } else {
        None
    }
}

/// Whether resolving a cluster reaches the scan over all faces of the catalog.
pub open spec fn reaches_scan(
    state: ContextState,
    cluster: Seq<char>,
    style: FragmentStyle,
    library: FontLibraryData,
    now: u64,
    loaded: Option<FontData>,
) -> bool {
    &&& style.spec_slot() is None
    &&& !(emoji_presentation(cluster) && state.evicted(now).live_emoji() is Some)
    &&& !(emoji_wanted(state, cluster, style, library, now) is Some && loaded is Some)
    &&& !charmap_accepts(cluster, library.faces()[FONT_ID_REGULAR as int])
}

/// What resolving a cluster in a style comes to, at the time `now`, where `loaded` is the
/// emoji face that the host loaded for this call, if it loaded one.
///
/// First an emoji face that has been idle for more than four seconds is dropped. Then: a
/// bold or italic style gives its slot, whatever the face holds. An emoji cluster gives the
/// slot of the emoji face: the one held, or else the one loaded, which is then held in the
/// slot after the catalog's last. Anything else gives the regular slot where the regular
/// face has a glyph for the cluster, and else the first slot whose face has one.
pub open spec fn resolve(
    state: ContextState,
    cluster: Seq<char>,
    style: FragmentStyle,
    library: FontLibraryData,
    now: u64,
    loaded: Option<FontData>,
) -> Resolution {
    let state = state.evicted(now);
    let faces = library.faces();
    if style.spec_slot() is Some {
        let font_id = style.spec_slot()->0;
        Resolution {
            state: state.pulled(font_id, faces),
            font_id: Some(font_id),
            tested: if_mapped(cluster, state.face_for(font_id, faces)),
        }
    } else if emoji_presentation(cluster) && state.live_emoji() is Some {
        Resolution {
            state: state.refreshed(now),
            font_id: state.emoji,
            tested: if_mapped(cluster, state.cached[state.emoji->0]),
        }
    } else if emoji_presentation(cluster) && first_emoji(library.lazy_faces(), 0) is Some
        && loaded is Some {
        Resolution {
            state: state.installed(faces.len() as usize, loaded->0, now),
            font_id: Some(faces.len() as usize),
            tested: if_mapped(cluster, loaded->0),
        }
    } else if charmap_accepts(cluster, faces[FONT_ID_REGULAR as int]) {
        Resolution {
            state: state.pulled(FONT_ID_REGULAR, faces),
            font_id: Some(FONT_ID_REGULAR),
            tested: Some(faces[FONT_ID_REGULAR as int]),
        }
    } else {
        match first_match(cluster, faces, 0) {
            Some(font_id) => Resolution {
                state: state.pulled(font_id, faces),
                font_id: Some(font_id),
                tested: Some(faces[font_id as int]),
            },
            None => Resolution { state, font_id: None, tested: None },
        }
    }
}

/// The synthesis after a resolution: that of the tested face, where there is one.
pub open spec fn synthesis_after(before: Synthesis, tested: Option<FontData>) -> Synthesis {
    match tested {
        Some(face) => face.spec_synthesis(),
        None => before,
    }
}

/// The font resolver of one consumer.
pub struct FontContext {
    cached: HashMap<usize, FontData>,
    emoji: Option<usize>,
    emoji_last_usage: Option<u64>,
}

impl View for FontContext {
    type V = ContextState;

    closed spec fn view(&self) -> ContextState {
        ContextState {
            cached: self.cached@,
            emoji: self.emoji,
            emoji_last_usage: self.emoji_last_usage,
        }
    }
}

impl FontContext {
    /// A resolver that holds nothing.
    pub fn new() -> (context: Self)
        ensures
            context@.cached == Map::<usize, FontData>::empty(),
            context@.emoji is None,
            context@.emoji_last_usage is None,
    {
        FontContext { cached: HashMap::new(), emoji: None, emoji_last_usage: None }
    }

    /// The face that the resolver holds for a slot.
    pub fn get(&self, id: usize) -> (face: Option<&FontData>)
        ensures
            face is Some == self@.cached.contains_key(id),
            face matches Some(held) ==> *held == self@.cached[id],
    {
        broadcast use group_hash_axioms;

        self.cached.get(&id)
    }

    /// Scans the catalog in slot order for the first face that has a glyph for the cluster,
    /// and takes over that face's synthesis.
    pub fn lookup_for_best_font(
        &self,
        cluster: &Cluster,
        synth: &mut Synthesis,
        library: &FontLibraryData,
    ) -> (font_id: Option<usize>)
        ensures
            font_id == first_match(cluster@, library.faces(), 0),
            *final(synth) == (match font_id {
                Some(found) => library.faces()[found as int].spec_synthesis(),
                None => *old(synth),
            }),
            font_id matches Some(found) ==> found < library.faces().len(),
    {
        let mut current_font_id: usize = 0;
        while current_font_id < library.len()
            invariant
                current_font_id <= library.faces().len(),
                first_match(cluster@, library.faces(), 0) == first_match(
                    cluster@,
                    library.faces(),
                    current_font_id as int,
                ),
                *synth == *old(synth),
            decreases library.faces().len() - current_font_id,
        {
            let font = library.get(current_font_id);
            if cluster.maps_to(font) {
                *synth = font.synthesis();
                return Some(current_font_id);
            }
            current_font_id += 1;
        }
        None
    }

    /// Drops the emoji face where it has been idle for more than four seconds.
    fn evict_idle(&mut self, now: u64)
        ensures
            final(self)@ == old(self)@.evicted(now),
    {
        broadcast use group_hash_axioms;

        if let Some(emoji_last_usage) = self.emoji_last_usage {
            if now > emoji_last_usage && now - emoji_last_usage > EMOJI_IDLE_MILLIS {
                if let Some(emoji_id) = self.emoji {
                    self.cached.remove(&emoji_id);
                    self.emoji = None;
                    self.emoji_last_usage = None;
                }
            }
        }
    }

    /// Keeps the catalog's face of a slot, unless one is kept already.
    fn pull(&mut self, font_id: usize, library: &FontLibraryData)
        requires
            font_id < library.faces().len(),
        ensures
            final(self)@ == old(self)@.pulled(font_id, library.faces()),
    {
        broadcast use group_hash_axioms;

        if !self.cached.contains_key(&font_id) {
            self.cached.insert(font_id, library.get(font_id).clone());
        }
    }

    /// The slot of the emoji face, where one is held.
    fn held_emoji(&self) -> (font_id: Option<usize>)
        ensures
            font_id == self@.live_emoji(),
    {
        broadcast use group_hash_axioms;

        match self.emoji {
            Some(emoji_id) => if self.cached.contains_key(&emoji_id) {
                Some(emoji_id)
            } else {
                None
            },
            None => None,
        }
    }

    /// Whether `map_cluster`, called with the same arguments, asks for the emoji face, and
    /// which of the catalog's faces to load later it is. The host then loads it and hands
    /// it to `map_cluster`.
    pub fn emoji_to_load(
        &self,
        cluster: &Cluster,
        library: &FontLibrary,
        style: &FragmentStyle,
        now: u64,
    ) -> (wanted: Option<usize>)
        ensures
            wanted == emoji_wanted(self@, cluster@, *style, library.spec_data(), now),
            wanted matches Some(index) ==> index < library.spec_data().lazy_faces().len(),
    {
        if style.slot().is_some() || !cluster.is_emoji() {
            return None;
        }
        let idle = match self.emoji_last_usage {
            Some(last) => self.emoji.is_some() && now > last && now - last > EMOJI_IDLE_MILLIS,
            None => false,
        };
        if !idle && self.held_emoji().is_some() {
            return None;
        }
        first_emoji_ref(library.data())
    }

    /// Resolves a cluster in a style to a slot: see `resolve`. `now` is the time in
    /// milliseconds. `loaded` is the emoji face that the host loaded because
    /// `emoji_to_load` asked for it; without it the call goes on as if the face could not
    /// be loaded. Where a face was tested and has a glyph for the cluster, `synth` becomes
    /// that face's synthesis.
    pub fn map_cluster(
        &mut self,
        cluster: &Cluster,
        synth: &mut Synthesis,
        library: &FontLibrary,
        style: &FragmentStyle,
        now: u64,
        loaded: Option<&FontData>,
    ) -> (font_id: Option<usize>)
        ensures
            final(self)@ == resolve(
                old(self)@,
                cluster@,
                *style,
                library.spec_data(),
                now,
                deref_face(loaded),
            ).state,
            font_id == resolve(
                old(self)@,
                cluster@,
                *style,
                library.spec_data(),
                now,
                deref_face(loaded),
            ).font_id,
            *final(synth) == synthesis_after(
                *old(synth),
                resolve(
                    old(self)@,
                    cluster@,
                    *style,
                    library.spec_data(),
                    now,
                    deref_face(loaded),
                ).tested,
            ),
    {
        broadcast use group_hash_axioms;

        let data = library.data();
        self.evict_idle(now);
        if let Some(font_id) = style.slot() {
            match self.cached.get(&font_id) {
                Some(font_data) => {
                    if cluster.maps_to(font_data) {
                        *synth = font_data.synthesis();
                    }
                },
                None => {
                    let font_data = data.get(font_id);
                    if cluster.maps_to(font_data) {
                        *synth = font_data.synthesis();
                    }
                    self.cached.insert(font_id, font_data.clone());
                },
            }
            return Some(font_id);
        }
        if cluster.is_emoji() {
            if let Some(emoji_id) = self.emoji {
                if let Some(font_data) = self.cached.get(&emoji_id) {
                    if cluster.maps_to(font_data) {
                        *synth = font_data.synthesis();
                    }
                    self.emoji_last_usage = Some(now);
                    return Some(emoji_id);
                }
            }
            if first_emoji_ref(data).is_some() {
                if let Some(font_data) = loaded {
                    let font_id = data.len();
                    if cluster.maps_to(font_data) {
                        *synth = font_data.synthesis();
                    }
                    self.cached.insert(font_id, font_data.clone());
                    self.emoji = Some(font_id);
                    self.emoji_last_usage = Some(now);
                    return Some(font_id);
                }
            }
        }
        let regular = data.get(FONT_ID_REGULAR);
        let font_id = if cluster.maps_to(regular) {
            *synth = regular.synthesis();
            FONT_ID_REGULAR
        } else {
            match self.lookup_for_best_font(cluster, synth, data) {
                Some(found_font_id) => found_font_id,
                None => {
                    return None;
                },
            }
        };
        self.pull(font_id, data);
        Some(font_id)
    }
}

impl Default for FontContext {
    fn default() -> (context: Self)
        ensures
            context@.cached == Map::<usize, FontData>::empty(),
            context@.emoji is None,
            context@.emoji_last_usage is None,
    {
        FontContext::new()
    }
}

/// The flags that the scan sees: for each face of the catalog, whether it has a glyph for
/// the cluster.
pub open spec fn scan_flags(cluster: Seq<char>, faces: Seq<FontData>) -> Seq<bool> {
    Seq::new(faces.len(), |slot: int| charmap_accepts(cluster, faces[slot]))
}

/// The scan over the catalog finds the first slot whose flag is set.
pub proof fn lemma_scan_is_first_set(cluster: Seq<char>, faces: Seq<FontData>, start: int)
    ensures
        first_match(cluster, faces, start) == first_set(scan_flags(cluster, faces), start),
    decreases faces.len() - start,
{
    if 0 <= start < faces.len() && !charmap_accepts(cluster, faces[start]) {
        lemma_scan_is_first_set(cluster, faces, start + 1);
    }
}

/// The face behind an optional reference.
pub open spec fn deref_face(face: Option<&FontData>) -> Option<FontData> {
    match face {
        Some(face) => Some(*face),
        None => None,
    }
}

/// The first of the catalog's faces to load later that is an emoji face.
pub fn first_emoji_ref(library: &FontLibraryData) -> (index: Option<usize>)
    ensures
        index == first_emoji(library.lazy_faces(), 0),
        index matches Some(found) ==> found < library.lazy_faces().len(),
{
    let mut at: usize = 0;
    while at < library.lazy_len()
        invariant
            at <= library.lazy_faces().len(),
            first_emoji(library.lazy_faces(), 0) == first_emoji(library.lazy_faces(), at as int),
        decreases library.lazy_faces().len() - at,
    {
        if library.lazy(at).is_emoji() {
            return Some(at);
        }
        at += 1;
    }
    None
}

/// A bold or italic style resolves to its own slot, whatever the faces hold, and never
/// reaches the scan over the catalog. Neither does any other style, where the regular
/// face has a glyph for the cluster. Whenever the scan is not reached there is a slot.
pub proof fn lemma_direct_slot(
    state: ContextState,
    cluster: Seq<char>,
    style: FragmentStyle,
    library: FontLibraryData,
    now: u64,
    loaded: Option<FontData>,
)
    requires
        style.spec_slot() is Some || charmap_accepts(cluster, library.faces()[FONT_ID_REGULAR as int]),
    ensures
        !reaches_scan(state, cluster, style, library, now, loaded),
        resolve(state, cluster, style, library, now, loaded).font_id is Some,
        style.spec_slot() is Some ==> resolve(state, cluster, style, library, now, loaded).font_id
            == style.spec_slot(),
{
}

/// Resolution reaches the scan over the catalog exactly where it returns what the scan
/// finds, having found no slot before it.
pub proof fn lemma_scan_decides(
    state: ContextState,
    cluster: Seq<char>,
    style: FragmentStyle,
    library: FontLibraryData,
    now: u64,
    loaded: Option<FontData>,
)
    ensures
        reaches_scan(state, cluster, style, library, now, loaded) ==> resolve(
            state,
            cluster,
            style,
            library,
            now,
            loaded,
        ).font_id == first_match(cluster, library.faces(), 0),
        !reaches_scan(state, cluster, style, library, now, loaded) ==> resolve(
            state,
            cluster,
            style,
            library,
            now,
            loaded,
        ).font_id is Some,
{
}

/// With a catalog that has no faces to load later and a resolver that holds no emoji
/// face, a cluster that the regular face has a glyph for resolves, in the regular style,
/// to the regular slot.
pub proof fn lemma_regular_face_covers(
    state: ContextState,
    cluster: Seq<char>,
    style: FragmentStyle,
    library: FontLibraryData,
    now: u64,
    loaded: Option<FontData>,
)
    requires
        style.spec_slot() is None,
        library.lazy_faces().len() == 0,
        state.emoji is None,
        charmap_accepts(cluster, library.faces()[FONT_ID_REGULAR as int]),
    ensures
        resolve(state, cluster, style, library, now, loaded).font_id == Some(FONT_ID_REGULAR),
{
}

/// Once the host has loaded the emoji face for an emoji cluster, the resolver holds it in
/// the slot after the catalog's last, used at that time.
pub proof fn lemma_emoji_installed(
    state: ContextState,
    cluster: Seq<char>,
    style: FragmentStyle,
    library: FontLibraryData,
    now: u64,
    loaded: FontData,
)
    requires
        emoji_wanted(state, cluster, style, library, now) is Some,
    ensures
        ({
            let after = resolve(state, cluster, style, library, now, Some(loaded));
            &&& after.font_id == Some(library.faces().len() as usize)
            &&& after.state.live_emoji() == after.font_id
            &&& after.state.cached[library.faces().len() as usize] == loaded
            &&& after.state.emoji_last_usage == Some(now)
        }),
{
}

/// While the emoji face is held and was used no more than four seconds ago, an emoji
/// cluster resolves to its slot without the face being asked for again, and the face
/// stays the same.
pub proof fn lemma_emoji_kept_within_window(
    state: ContextState,
    cluster: Seq<char>,
    style: FragmentStyle,
    library: FontLibraryData,
    now: u64,
    loaded: Option<FontData>,
)
    requires
        style.spec_slot() is None,
        emoji_presentation(cluster),
        state.live_emoji() is Some,
        state.emoji_last_usage matches Some(last) && now - last <= EMOJI_IDLE_MILLIS,
    ensures
        emoji_wanted(state, cluster, style, library, now) is None,
        ({
            let after = resolve(state, cluster, style, library, now, loaded);
            &&& after.font_id == state.emoji
            &&& after.state.live_emoji() == state.emoji
            &&& after.state.cached[state.emoji->0] == state.cached[state.emoji->0]
            &&& after.state.emoji_last_usage == Some(now)
        }),
{
}

/// Once the emoji face has been idle for more than four seconds, any resolution drops it,
/// whatever is resolved; the face is asked for again only for an emoji cluster in a style
/// that is neither bold nor italic, and only then is an emoji face held afterwards.
pub proof fn lemma_emoji_dropped_after_window(
    state: ContextState,
    cluster: Seq<char>,
    style: FragmentStyle,
    library: FontLibraryData,
    now: u64,
    loaded: Option<FontData>,
)
    requires
        library.faces().len() > FONT_ID_BOLD_ITALIC,
        state.emoji matches Some(font_id) && font_id >= library.faces().len(),
        state.emoji_last_usage matches Some(last) && now - last > EMOJI_IDLE_MILLIS,
    ensures
        state.evicted(now).emoji is None,
        !state.evicted(now).cached.contains_key(state.emoji->0),
        emoji_wanted(state, cluster, style, library, now) == (if style.spec_slot() is None
            && emoji_presentation(cluster) {
            first_emoji(library.lazy_faces(), 0)
        } else {
            None
        }),
        ({
            let after = resolve(state, cluster, style, library, now, loaded);
            if emoji_wanted(state, cluster, style, library, now) is Some && loaded is Some {
                after.state.live_emoji() == Some(library.faces().len() as usize)
                    && after.state.cached[library.faces().len() as usize] == loaded->0
            } else {
                after.state.emoji is None && !after.state.cached.contains_key(state.emoji->0)
            }
        }),
{
    library.lemma_countable();
    lemma_first_match_in_range(cluster, library.faces(), 0);
}

/// What the scan finds is a slot of the catalog.
pub proof fn lemma_first_match_in_range(cluster: Seq<char>, faces: Seq<FontData>, start: int)
    requires
        faces.len() <= usize::MAX,
    ensures
        first_match(cluster, faces, start) matches Some(font_id) ==> start <= font_id < faces.len()
            && charmap_accepts(cluster, faces[font_id as int]),
    decreases faces.len() - start,
{
    if 0 <= start < faces.len() && !charmap_accepts(cluster, faces[start]) {
        lemma_first_match_in_range(cluster, faces, start + 1);
    }
}

/// Whether the resolver holds no face beyond the catalog's slots but its emoji face.
pub open spec fn holds_one_emoji(state: ContextState, library: FontLibraryData) -> bool {
    forall|font_id: usize| #[trigger]
        state.cached.contains_key(font_id) && font_id >= library.faces().len() ==> state.emoji
            == Some(font_id)
}

/// A resolver that holds at most one emoji face holds at most one after any resolution
/// against the same catalog.
pub proof fn lemma_one_emoji_face(
    state: ContextState,
    cluster: Seq<char>,
    style: FragmentStyle,
    library: FontLibraryData,
    now: u64,
    loaded: Option<FontData>,
)
    requires
        library.faces().len() > FONT_ID_BOLD_ITALIC,
        holds_one_emoji(state, library),
    ensures
        holds_one_emoji(resolve(state, cluster, style, library, now, loaded).state, library),
{
    library.lemma_countable();
    lemma_first_match_in_range(cluster, library.faces(), 0);
    let dropped = state.evicted(now);
    assert(holds_one_emoji(dropped, library)) by {
        assert forall|font_id: usize| #[trigger]
            dropped.cached.contains_key(font_id) && font_id >= library.faces().len()
                implies dropped.emoji == Some(font_id) by {
            assert(state.cached.contains_key(font_id));
        }
    }
    let after = resolve(state, cluster, style, library, now, loaded).state;
    assert forall|font_id: usize| #[trigger]
        after.cached.contains_key(font_id) && font_id >= library.faces().len()
            implies after.emoji == Some(font_id) by {
        if !dropped.cached.contains_key(font_id) {
            assert(font_id == library.faces().len());
        }
    }
}

/// The slot that a cluster resolves to does not depend on the faces that the resolver
/// keeps of the catalog: two resolvers that hold the same emoji face, or none, give the
/// same slot.
pub proof fn lemma_slot_ignores_cache(
    state: ContextState,
    other: ContextState,
    cluster: Seq<char>,
    style: FragmentStyle,
    library: FontLibraryData,
    now: u64,
    loaded: Option<FontData>,
)
    requires
        state.evicted(now).live_emoji() == other.evicted(now).live_emoji(),
    ensures
        resolve(state, cluster, style, library, now, loaded).font_id == resolve(
            other,
            cluster,
            style,
            library,
            now,
            loaded,
        ).font_id,
        emoji_wanted(state, cluster, style, library, now) == emoji_wanted(
            other,
            cluster,
            style,
            library,
            now,
        ),
{
}

/// Whether each face that the resolver keeps of a slot of the catalog is the catalog's
/// face of that slot. A resolver that holds nothing does; one that was used with another
/// catalog may not.
pub open spec fn keeps_catalog_faces(state: ContextState, library: FontLibraryData) -> bool {
    forall|font_id: usize| #[trigger]
        state.cached.contains_key(font_id) && font_id < library.faces().len()
            ==> state.cached[font_id] == library.faces()[font_id as int]
}

/// A resolver whose faces are the catalog's keeps only the catalog's faces of its slots,
/// whatever it resolves against that catalog.
pub proof fn lemma_catalog_faces_kept(
    state: ContextState,
    cluster: Seq<char>,
    style: FragmentStyle,
    library: FontLibraryData,
    now: u64,
    loaded: Option<FontData>,
)
    requires
        library.faces().len() > FONT_ID_BOLD_ITALIC,
        keeps_catalog_faces(state, library),
    ensures
        keeps_catalog_faces(resolve(state, cluster, style, library, now, loaded).state, library),
{
    library.lemma_countable();
    lemma_first_match_in_range(cluster, library.faces(), 0);
    let dropped = state.evicted(now);
    assert(keeps_catalog_faces(dropped, library)) by {
        assert forall|font_id: usize| #[trigger]
            dropped.cached.contains_key(font_id) && font_id < library.faces().len()
                implies dropped.cached[font_id] == library.faces()[font_id as int] by {
            assert(state.cached.contains_key(font_id));
        }
    }
    let after = resolve(state, cluster, style, library, now, loaded).state;
    assert forall|font_id: usize| #[trigger]
        after.cached.contains_key(font_id) && font_id < library.faces().len()
            implies after.cached[font_id] == library.faces()[font_id as int] by {
        if dropped.cached.contains_key(font_id) {
            assert(dropped.cached[font_id] == library.faces()[font_id as int]);
        }
    }
}

/// With a resolver whose faces are the catalog's, a bold or italic style resolves to its
/// slot, without the scan, and the one face that is tested is the catalog's face of that
/// slot: where it lacks the cluster, the synthesis stays as it was.
pub proof fn lemma_styled_synthesis(
    state: ContextState,
    cluster: Seq<char>,
    style: FragmentStyle,
    library: FontLibraryData,
    now: u64,
    loaded: Option<FontData>,
    synth: Synthesis,
)
    requires
        library.faces().len() > FONT_ID_BOLD_ITALIC,
        keeps_catalog_faces(state, library),
        style.spec_slot() is Some,
    ensures
        ({
            let after = resolve(state, cluster, style, library, now, loaded);
            let face = library.faces()[style.spec_slot()->0 as int];
            &&& after.font_id == style.spec_slot()
            &&& !reaches_scan(state, cluster, style, library, now, loaded)
            &&& after.tested == if_mapped(cluster, face)
            &&& synthesis_after(synth, after.tested) == (if charmap_accepts(cluster, face) {
                face.spec_synthesis()
            } else {
                synth
            })
        }),
{
    let dropped = state.evicted(now);
    let font_id = style.spec_slot()->0;
    if dropped.cached.contains_key(font_id) {
        assert(state.cached.contains_key(font_id));
    }
}

} // verus!
