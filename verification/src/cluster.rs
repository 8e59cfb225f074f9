//! Character clusters and the test of a cluster against a face's character map.

use crate::charmap::charmap_is_safe;
use crate::font::FontData;
use swash::text::cluster::{CharCluster, Parser, Status, Token};
use swash::text::Script;
use vstd::prelude::*;

verus! {

/// What mapping a cluster through a face's character map gave.
#[derive(Clone, Copy, Debug, PartialEq, Eq, Structural)]
pub enum MapStatus {
    /// The face has nothing for the cluster.
    Discard,
    /// The face maps part of the cluster.
    Keep,
    /// The face maps the whole cluster.
    Complete,
}

/// Whether swash classifies the first cluster of `chars` as an emoji.
pub uninterp spec fn emoji_presentation(chars: Seq<char>) -> bool;

/// Status of mapping the first cluster of `chars` through the character map of the font at
/// `offset` in the file `data`.
pub uninterp spec fn charmap_status(chars: Seq<char>, data: Seq<u8>, offset: u32) -> MapStatus;

/// Whether the face has a glyph for the cluster: mapping it does not end in `Discard`.
pub open spec fn charmap_accepts(chars: Seq<char>, face: FontData) -> bool {
    charmap_status(chars, face.bytes(), face.table_offset()) != MapStatus::Discard
}

/// Whether a character is a leading consonant of Hangul, from U+1100 to U+1112.
pub open spec fn is_leading(ch: char) -> bool {
    0x1100 <= (ch as u32) < 0x1113
}

/// Whether a character is a vowel of Hangul, from U+1161 to U+11A6.
pub open spec fn is_vowel(ch: char) -> bool {
    0x1161 <= (ch as u32) < 0x11A7
}

/// Whether a character is a trailing consonant of Hangul, from U+11A7 to U+11C2.
pub open spec fn is_trailing(ch: char) -> bool {
    0x11A7 <= (ch as u32) < 0x11C3
}

/// Whether a character is a syllable of Hangul, from U+AC00 to U+D7A3.
pub open spec fn is_syllable(ch: char) -> bool {
    0xAC00 <= (ch as u32) < 0xD7A4
}

/// Whether a character belongs to Hangul as swash composes it.
pub open spec fn is_hangul(ch: char) -> bool {
    is_leading(ch) || is_vowel(ch) || is_trailing(ch) || is_syllable(ch)
}

/// Whether a character can follow another where swash composes Hangul. A vowel follows a
/// leading consonant, and is then one of the first 21, or a character that is no Hangul. A
/// trailing consonant follows anything but a leading consonant. Swash computes the
/// syllable of any other pair unchecked.
pub open spec fn pair_composes(first: char, second: char) -> bool {
    &&& is_vowel(second) ==> (is_leading(first) && (second as u32) < 0x1176) || !is_hangul(first)
    &&& is_trailing(second) ==> !is_leading(first)
}

/// Whether the character at a position can follow the one before it.
pub open spec fn composes_at(chars: Seq<char>, at: int) -> bool {
    pair_composes(chars[at - 1], chars[at])
}

/// Whether every character can follow the one before it where swash composes Hangul.
pub open spec fn composes_safely(chars: Seq<char>) -> bool {
    forall|at: int| 1 <= at < chars.len() ==> #[trigger] composes_at(chars, at)
}

/// Whether a character can follow another where swash composes Hangul.
pub fn pair_is_composable(first: char, second: char) -> (safe: bool)
    ensures
        safe == pair_composes(first, second),
{
    let a = first as u32;
    let b = second as u32;
    let leading = 0x1100 <= a && a < 0x1113;
    let hangul = leading || (0x1161 <= a && a < 0x11C3) || (0xAC00 <= a && a < 0xD7A4);
    if 0x1161 <= b && b < 0x11A7 {
        (leading && b < 0x1176) || !hangul
    } else if 0x11A7 <= b && b < 0x11C3 {
        !leading
    } else {
        true
    }
}

/// Whether every character can follow the one before it where swash composes Hangul.
pub fn is_composable(chars: &Vec<char>) -> (safe: bool)
    ensures
        safe == composes_safely(chars@),
{
    let mut at: usize = 1;
    while at < chars.len()
        invariant
            1 <= at,
            forall|earlier: int| 1 <= earlier < at ==> #[trigger] composes_at(chars@, earlier),
        decreases chars.len() - at,
    {
        if !pair_is_composable(chars[at - 1], chars[at]) {
            assert(!composes_at(chars@, at as int));
            return false;
        }
        at += 1;
    }
    true
}

/// `swash::text::cluster::ClusterInfo::is_emoji`, asked of the first cluster that swash's
/// parser forms from the characters. The answer depends on the characters alone.
#[verifier::external_body]
fn parsed_is_emoji(chars: &Vec<char>) -> (emoji: bool)
    ensures
        emoji == emoji_presentation(chars@),
{
    let tokens = chars.iter().map(|ch| Token { ch: *ch, info: (*ch).into(), ..Token::default() });
    let mut cluster = CharCluster::new();
    Parser::new(Script::Latin, tokens).next(&mut cluster);
    cluster.info().is_emoji()
}

/// `swash::text::cluster::CharCluster::map`, called on the first cluster that swash's parser
/// forms from the characters, with the character map of the font. The cluster is fresh, so
/// the status depends on the characters and on the font alone. The character map tables
/// have to be safe: swash adds up the glyph of a character of a group unchecked. So have the
/// characters: where a face lacks part of the cluster, swash composes its characters anew,
/// and computes the syllables of Hangul unchecked.
#[verifier::external_body]
fn parsed_map(chars: &Vec<char>, font: &swash::FontRef) -> (status: MapStatus)
    requires
        charmap_is_safe(font.data@, font.offset),
        composes_safely(chars@),
    ensures
        status == charmap_status(chars@, font.data@, font.offset),
{
    let tokens = chars.iter().map(|ch| Token { ch: *ch, info: (*ch).into(), ..Token::default() });
    let mut cluster = CharCluster::new();
    Parser::new(Script::Latin, tokens).next(&mut cluster);
    let charmap = font.charmap();
    match cluster.map(|ch| charmap.map(ch)) {
        Status::Discard => MapStatus::Discard,
        Status::Keep => MapStatus::Keep,
        Status::Complete => MapStatus::Complete,
    }
}

/// One or more characters that are looked up in a font together. Of several characters, those
/// count that swash's parser takes into the first cluster. Each character can follow the one
/// before it where swash composes Hangul.
#[derive(Debug)]
pub struct Cluster {
    chars: Vec<char>,
}

impl Clone for Cluster {
    fn clone(&self) -> (copy: Self)
        ensures
            copy@ == self@,
    {
        proof {
            use_type_invariant(self);
        }
        let chars = self.chars.clone();
        assert(chars@ =~= self.chars@);
        Cluster { chars }
    }
}

impl View for Cluster {
    type V = Seq<char>;

    closed spec fn view(&self) -> Seq<char> {
        self.chars@
    }
}

impl Cluster {
    #[verifier::type_invariant]
    spec fn characters_compose(self) -> bool {
        composes_safely(self.chars@)
    }

    /// A cluster of the given characters; none where one of them cannot follow the one
    /// before it.
    pub fn new(chars: Vec<char>) -> (cluster: Option<Self>)
        ensures
            cluster is Some == composes_safely(chars@),
            cluster matches Some(made) ==> made@ == chars@,
    {
        if is_composable(&chars) {
            Some(Cluster { chars })
        } else {
            None
        }
    }

    /// The cluster of a single character.
    pub fn from_char(ch: char) -> (cluster: Self)
        ensures
            cluster@ == seq![ch],
    {
        let mut chars: Vec<char> = Vec::new();
        chars.push(ch);
        assert(chars@.len() == 1);
        Cluster { chars }
    }

    /// Whether the cluster is shown as an emoji.
    pub open spec fn spec_is_emoji(&self) -> bool {
        emoji_presentation(self@)
    }

    /// Whether the cluster is shown as an emoji.
    #[verifier::when_used_as_spec(spec_is_emoji)]
    pub fn is_emoji(&self) -> (emoji: bool)
        ensures
            emoji == self.spec_is_emoji(),
    {
        parsed_is_emoji(&self.chars)
    }

    /// Whether the face has a glyph for the cluster: mapping it does not end in `Discard`.
    pub open spec fn spec_maps_to(&self, face: &FontData) -> bool {
        charmap_accepts(self@, *face)
    }

    /// Tests the cluster against the face's character map.
    #[verifier::when_used_as_spec(spec_maps_to)]
    pub fn maps_to(&self, face: &FontData) -> (kept: bool)
        ensures
            kept == self.spec_maps_to(face),
    {
        proof {
            use_type_invariant(self);
        }
        let font = face.as_ref();
        accepts(parsed_map(&self.chars, &font))
    }
}

/// Whether a mapping status lets the face be used for the cluster: any status but `Discard`.
pub fn accepts(status: MapStatus) -> (kept: bool)
    ensures
        kept == (status != MapStatus::Discard),
{
    match status {
        MapStatus::Discard => false,
        MapStatus::Keep => true,
        MapStatus::Complete => true,
    }
}

} // verus!
