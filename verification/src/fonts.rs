//! What a host asks for: the faces of the four styles, by family, weight and style.

use vstd::prelude::*;
use vstd::string::*;

verus! {

/// `str::to_lowercase`, as a function of the text.
pub uninterp spec fn lowercase_of(text: Seq<char>) -> Seq<char>;

/// `str::to_lowercase`: the lower case form of a text, which depends on the text alone.
#[verifier::external_body]
fn lowercase(text: &str) -> (lower: String)
    ensures
        lower@ == lowercase_of(text@),
{
    text.to_lowercase()
}

/// Weight that is asked for where the request names none.
pub const DEFAULT_WEIGHT: u16 = 400;

/// Family name of the embedded monospace face.
pub open spec fn default_family_name() -> Seq<char> {
    "cascadiamono"@
}

/// Family name of the embedded monospace face.
pub fn default_font_family() -> (family: String)
    ensures
        family@ == default_family_name(),
{
    "cascadiamono".to_owned()
}

/// Slant that a query to the font index asks for.
#[derive(Clone, Copy, Debug, PartialEq, Eq, Structural)]
pub enum QueryStyle {
    Normal,
    Italic,
}

/// Whether a style name that is already in lower case asks for italics.
pub open spec fn names_italic(lowered: Seq<char>) -> bool {
    lowered == "italic"@
}

/// Slant that a style name in lower case asks for: italic for `italic`, normal for all else.
pub fn style_of_name(lowered: &String) -> (style: QueryStyle)
    ensures
        style == (if names_italic(lowered@) {
            QueryStyle::Italic
        } else {
            QueryStyle::Normal
        }),
{
    let italic = "italic".to_owned();
    if *lowered == italic {
        QueryStyle::Italic
    } else {
        QueryStyle::Normal
    }
}

/// One face that the host asks for.
#[derive(Debug)]
pub struct SugarloafFont {
    pub family: String,
    pub weight: Option<u16>,
    pub style: Option<String>,
}

impl SugarloafFont {
    /// Whether the request names the embedded family, for which no font index is asked.
    pub open spec fn spec_is_default_family(&self) -> bool {
        self.family@ == default_family_name()
    }

    /// Whether the request names the embedded family, for which no font index is asked.
    #[verifier::when_used_as_spec(spec_is_default_family)]
    pub fn is_default_family(&self) -> (default: bool)
        ensures
            default == self.spec_is_default_family(),
    {
        self.family == default_font_family()
    }

    /// Weight to look for: the one asked for, or 400.
    pub open spec fn spec_query_weight(&self) -> u16 {
        match self.weight {
            Some(weight) => weight,
            None => DEFAULT_WEIGHT,
        }
    }

    /// Weight to look for: the one asked for, or 400.
    #[verifier::when_used_as_spec(spec_query_weight)]
    pub fn query_weight(&self) -> (weight: u16)
        ensures
            weight == self.spec_query_weight(),
    {
        match self.weight {
            Some(weight) => weight,
            None => DEFAULT_WEIGHT,
        }
    }

    /// Slant to look for: italic where the style, in lower case, reads `italic`.
    pub open spec fn spec_query_style(&self) -> QueryStyle {
        match self.style {
            Some(name) => if names_italic(lowercase_of(name@)) {
                QueryStyle::Italic
            } else {
                QueryStyle::Normal
            },
            None => QueryStyle::Normal,
        }
    }

    /// Slant to look for: italic where the style, in lower case, reads `italic`.
    #[verifier::when_used_as_spec(spec_query_style)]
    pub fn query_style(&self) -> (style: QueryStyle)
        ensures
            style == self.spec_query_style(),
    {
        match &self.style {
            Some(name) => {
                let lowered = lowercase(name.as_str());
                style_of_name(&lowered)
            },
            None => QueryStyle::Normal,
        }
    }

    /// A request for a family at the default weight and style.
    pub open spec fn spec_of_family(family: String) -> Self {
        SugarloafFont { family, weight: None, style: None }
    }

    /// The request with another family, where one is given.
    pub open spec fn spec_with_family(self, family: Option<String>) -> Self {
        match family {
            Some(family) => SugarloafFont { family, weight: self.weight, style: self.style },
            None => self,
        }
    }

    /// The request with another family, where one is given.
    pub fn with_family(self, family: &Option<String>) -> (font: Self)
        ensures
            font == self.spec_with_family(*family),
    {
        match family {
            Some(family) => SugarloafFont {
                family: family.clone(),
                weight: self.weight,
                style: self.style,
            },
            None => self,
        }
    }

    /// A request for a family at the default weight and style.
    #[verifier::when_used_as_spec(spec_of_family)]
    pub fn of_family(family: String) -> (font: Self)
        ensures
            font == Self::spec_of_family(family),
    {
        SugarloafFont { family, weight: None, style: None }
    }
}

impl Clone for SugarloafFont {
    fn clone(&self) -> (copy: Self)
        ensures
            copy == *self,
    {
        SugarloafFont {
            family: self.family.clone(),
            weight: self.weight,
            style: match &self.style {
                Some(name) => Some(name.clone()),
                None => None,
            },
        }
    }
}

impl Default for SugarloafFont {
    fn default() -> (font: Self)
        ensures
            font.spec_is_default_family(),
            font.weight is None,
            font.style is None,
    {
        SugarloafFont { family: default_font_family(), weight: None, style: None }
    }
}

/// The faces that the host asks for.
#[derive(Clone, Debug)]
pub struct SugarloafFonts {
    /// Where set, the family of all four styles.
    pub family: Option<String>,
    pub regular: SugarloafFont,
    pub bold: SugarloafFont,
    pub bold_italic: SugarloafFont,
    pub italic: SugarloafFont,
    /// Further faces, searched after the fallback families.
    pub extras: Vec<SugarloafFont>,
}

/// The embedded family at a weight and style.
fn default_face(weight: u16, style: &str) -> (font: SugarloafFont)
    ensures
        font.spec_is_default_family(),
        font.weight == Some(weight),
        font.style matches Some(name) && name@ == style@,
{
    SugarloafFont {
        family: default_font_family(),
        weight: Some(weight),
        style: Some(style.to_owned()),
    }
}

impl Default for SugarloafFonts {
    fn default() -> (fonts: Self)
        ensures
            fonts.family is None,
            fonts.extras@.len() == 0,
            fonts.regular.spec_is_default_family() && fonts.regular.weight == Some(400u16),
            fonts.italic.spec_is_default_family() && fonts.italic.weight == Some(400u16),
            fonts.bold.spec_is_default_family() && fonts.bold.weight == Some(800u16),
            fonts.bold_italic.spec_is_default_family() && fonts.bold_italic.weight == Some(800u16),
            fonts.regular.style matches Some(name) && name@ == "normal"@,
            fonts.bold.style matches Some(name) && name@ == "normal"@,
            fonts.italic.style matches Some(name) && name@ == "italic"@,
            fonts.bold_italic.style matches Some(name) && name@ == "italic"@,
    {
        SugarloafFonts {
            family: None,
            regular: default_face(400, "normal"),
            bold: default_face(800, "normal"),
            bold_italic: default_face(800, "italic"),
            italic: default_face(400, "italic"),
            extras: Vec::new(),
        }
    }
}

/// Whether a family name holds the word `Emoji`, by which emoji families are told.
pub open spec fn has_emoji_word(name: Seq<char>) -> bool {
    exists|i: int| 0 <= i && i + 5 <= name.len() && #[trigger] name.subrange(i, i + 5) == "Emoji"@
}

/// Whether a family name holds the word `Emoji`, by which emoji families are told.
pub fn names_emoji(name: &str) -> (emoji: bool)
    ensures
        emoji == has_emoji_word(name@),
{
    proof {
        reveal_strlit("Emoji");
    }
    let len = name.unicode_len();
    if len < 5 {
        return false;
    }
    let mut start: usize = 0;
    while start <= len - 5
        invariant
            len == name@.len(),
            5 <= len,
            start <= len - 4,
            "Emoji"@.len() == 5,
            "Emoji"@[0] == 'E',
            "Emoji"@[1] == 'm',
            "Emoji"@[2] == 'o',
            "Emoji"@[3] == 'j',
            "Emoji"@[4] == 'i',
            forall|i: int| 0 <= i < start ==> #[trigger] name@.subrange(i, i + 5) != "Emoji"@,
        decreases len - start,
    {
        if name.get_char(start) == 'E' && name.get_char(start + 1) == 'm' && name.get_char(
            start + 2,
        ) == 'o' && name.get_char(start + 3) == 'j' && name.get_char(start + 4) == 'i' {
            assert(name@.subrange(start as int, start + 5) =~= "Emoji"@);
            return true;
        }
        proof {
            let window = name@.subrange(start as int, start + 5);
            assert(window[0] == name@[start as int]);
            assert(window[1] == name@[start + 1]);
            assert(window[2] == name@[start + 2]);
            assert(window[3] == name@[start + 3]);
            assert(window[4] == name@[start + 4]);
        }
        start += 1;
    }
    false
}

/// The requests for the fallback families that are loaded at once: those that are no emoji
/// families, in their order.
pub open spec fn plain_fallbacks(fallbacks: Seq<String>) -> Seq<SugarloafFont>
    decreases fallbacks.len(),
{
    if fallbacks.len() == 0 {
        Seq::empty()
    } else if has_emoji_word(fallbacks.last()@) {
        plain_fallbacks(fallbacks.drop_last())
    } else {
        plain_fallbacks(fallbacks.drop_last()).push(SugarloafFont::spec_of_family(fallbacks.last()))
    }
}

/// The fallback families that are emoji families, in their order.
pub open spec fn emoji_fallbacks(fallbacks: Seq<String>) -> Seq<String>
    decreases fallbacks.len(),
{
    if fallbacks.len() == 0 {
        Seq::empty()
    } else if has_emoji_word(fallbacks.last()@) {
        emoji_fallbacks(fallbacks.drop_last()).push(fallbacks.last())
    } else {
        emoji_fallbacks(fallbacks.drop_last())
    }
}

/// The emoji families among the fallback families, in their order. The host asks its font
/// index for the file of each.
pub fn lazy_requests(fallbacks: &Vec<String>) -> (families: Vec<String>)
    ensures
        families@ == emoji_fallbacks(fallbacks@),
{
    let mut families: Vec<String> = Vec::new();
    let mut next: usize = 0;
    while next < fallbacks.len()
        invariant
            next <= fallbacks.len(),
            families@ == emoji_fallbacks(fallbacks@.take(next as int)),
        decreases fallbacks.len() - next,
    {
        proof {
            assert(fallbacks@.take(next + 1).drop_last() =~= fallbacks@.take(next as int));
        }
        if names_emoji(fallbacks[next].as_str()) {
            families.push(fallbacks[next].clone());
        }
        next += 1;
    }
    proof {
        assert(fallbacks@.take(next as int) =~= fallbacks@);
    }
    families
}

impl SugarloafFonts {
    /// The requests for the four styles, in slot order, each with the family that overrides
    /// them all where one is set.
    pub open spec fn style_requests(&self) -> Seq<SugarloafFont> {
        seq![
            self.regular.spec_with_family(self.family),
            self.italic.spec_with_family(self.family),
            self.bold.spec_with_family(self.family),
            self.bold_italic.spec_with_family(self.family),
        ]
    }

    /// The requests for the faces that are loaded at once, in slot order: the four styles,
    /// the fallback families that are no emoji families, and the extra faces.
    pub open spec fn spec_face_requests(&self, fallbacks: Seq<String>) -> Seq<SugarloafFont> {
        self.style_requests() + plain_fallbacks(fallbacks) + self.extras@
    }

    /// The requests for the faces that are loaded at once, in slot order. The host asks its
    /// font index for each that does not name the embedded family.
    pub fn face_requests(&self, fallbacks: &Vec<String>) -> (requests: Vec<SugarloafFont>)
        ensures
            requests@ == self.spec_face_requests(fallbacks@),
    {
        let mut requests: Vec<SugarloafFont> = Vec::new();
        requests.push(self.regular.clone().with_family(&self.family));
        requests.push(self.italic.clone().with_family(&self.family));
        requests.push(self.bold.clone().with_family(&self.family));
        requests.push(self.bold_italic.clone().with_family(&self.family));
        assert(requests@ =~= self.style_requests());
        let mut next: usize = 0;
        while next < fallbacks.len()
            invariant
                next <= fallbacks.len(),
                requests@ == self.style_requests() + plain_fallbacks(fallbacks@.take(next as int)),
            decreases fallbacks.len() - next,
        {
            proof {
                assert(fallbacks@.take(next + 1).drop_last() =~= fallbacks@.take(next as int));
            }
            if !names_emoji(fallbacks[next].as_str()) {
                requests.push(SugarloafFont::of_family(fallbacks[next].clone()));
            }
            next += 1;
        }
        proof {
            assert(fallbacks@.take(next as int) =~= fallbacks@);
        }
        let mut extra: usize = 0;
        while extra < self.extras.len()
            invariant
                extra <= self.extras.len(),
                requests@ == self.style_requests() + plain_fallbacks(fallbacks@)
                    + self.extras@.take(extra as int),
            decreases self.extras.len() - extra,
        {
            requests.push(self.extras[extra].clone());
            extra += 1;
        }
        proof {
            assert(self.extras@.take(extra as int) =~= self.extras@);
        }
        requests
    }
}

} // verus!
