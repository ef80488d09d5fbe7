//! The closed set of colour schemes, their slugs and their classification.

use vstd::prelude::*;

verus! {

/// A colour scheme of the interface.
#[derive(Clone, Copy, Debug, PartialEq, Eq, Structural, Hash)]
pub enum ColorScheme {
    Archlinux,
    Zenburn,
    Monokai,
    Squirrel,
}

/// Text that names no colour scheme.
#[derive(Clone, Copy, Debug, PartialEq, Eq, Structural)]
pub struct InvalidSchemeSelector;

/// Every scheme, in declaration order.
pub open spec fn scheme_order() -> Seq<ColorScheme> {
    seq![ColorScheme::Archlinux, ColorScheme::Zenburn, ColorScheme::Monokai, ColorScheme::Squirrel]
}

/// The URL slug of a scheme: its name in lower case.
pub open spec fn slug_of(s: ColorScheme) -> Seq<char> {
    match s {
        ColorScheme::Archlinux => "archlinux"@,
        ColorScheme::Zenburn => "zenburn"@,
        ColorScheme::Monokai => "monokai"@,
        ColorScheme::Squirrel => "squirrel"@,
    }
}

/// The name of a scheme as it is declared.
pub open spec fn variant_name(s: ColorScheme) -> Seq<char> {
    match s {
        ColorScheme::Archlinux => "Archlinux"@,
        ColorScheme::Zenburn => "Zenburn"@,
        ColorScheme::Monokai => "Monokai"@,
        ColorScheme::Squirrel => "Squirrel"@,
    }
}

/// Whether a scheme is meant for a dark background.
pub open spec fn is_dark_scheme(s: ColorScheme) -> bool {
    match s {
        ColorScheme::Archlinux => true,
        ColorScheme::Zenburn => true,
        ColorScheme::Monokai => true,
        ColorScheme::Squirrel => false,
    }
}

/// The code point of `c`, with ASCII capitals mapped to their lower-case letter.
pub open spec fn ascii_fold(c: char) -> u32 {
    if 'A' as u32 <= c as u32 <= 'Z' as u32 {
        (c as u32 + 32) as u32
    } else {
        c as u32
    }
}

/// Two texts are equal once ASCII letters are folded to lower case.
pub open spec fn same_ignoring_ascii_case(a: Seq<char>, b: Seq<char>) -> bool {
    &&& a.len() == b.len()
    &&& forall|i: int| 0 <= i < a.len() ==> ascii_fold(#[trigger] a[i]) == ascii_fold(b[i])
}

/// `text` names scheme `s`, in any ASCII case.
pub open spec fn names_scheme(text: Seq<char>, s: ColorScheme) -> bool {
    same_ignoring_ascii_case(text, slug_of(s))
}

/// The scheme that `text` names, if any.
pub open spec fn scheme_named(text: Seq<char>) -> Option<ColorScheme> {
    if exists|s: ColorScheme| names_scheme(text, s) {
        Some(choose|s: ColorScheme| names_scheme(text, s))
    } else {
        None
    }
}

/// Every scheme appears in the listing exactly once, and the listing holds
/// nothing else: listing the schemes always gives these four, in this order.
pub proof fn lemma_scheme_order_complete()
    ensures
        scheme_order().len() == 4,
        scheme_order().no_duplicates(),
        forall|s: ColorScheme| scheme_order().contains(s),
{
    let order = scheme_order();
    assert(order[0] == ColorScheme::Archlinux);
    assert(order[1] == ColorScheme::Zenburn);
    assert(order[2] == ColorScheme::Monokai);
    assert(order[3] == ColorScheme::Squirrel);
    assert forall|s: ColorScheme| order.contains(s) by {
        match s {
            ColorScheme::Archlinux => assert(order[0] == s),
            ColorScheme::Zenburn => assert(order[1] == s),
            ColorScheme::Monokai => assert(order[2] == s),
            ColorScheme::Squirrel => assert(order[3] == s),
        }
    }
}

/// No text names two schemes, whatever the case of its letters.
pub proof fn lemma_names_at_most_one(text: Seq<char>, s1: ColorScheme, s2: ColorScheme)
    requires
        names_scheme(text, s1),
        names_scheme(text, s2),
    ensures
        s1 == s2,
{
    reveal_strlit("archlinux");
    reveal_strlit("zenburn");
    reveal_strlit("monokai");
    reveal_strlit("squirrel");
    assert(ascii_fold(text[0]) == ascii_fold(slug_of(s1)[0]));
    assert(ascii_fold(text[0]) == ascii_fold(slug_of(s2)[0]));
}

/// Two different schemes have different slugs.
pub proof fn lemma_slugs_distinct(s1: ColorScheme, s2: ColorScheme)
    requires
        s1 != s2,
    ensures
        slug_of(s1) != slug_of(s2),
{
    if slug_of(s1) == slug_of(s2) {
        lemma_slug_names_its_scheme(s1);
        lemma_names_at_most_one(slug_of(s1), s1, s2);
    }
}

/// A slug names its own scheme.
proof fn lemma_slug_names_its_scheme(s: ColorScheme)
    ensures
        names_scheme(slug_of(s), s),
{
}

/// Parsing the slug of a scheme gives that scheme back.
pub proof fn lemma_slug_round_trip(s: ColorScheme)
    ensures
        scheme_named(slug_of(s)) == Some(s),
{
    lemma_slug_names_its_scheme(s);
    let t = choose|t: ColorScheme| names_scheme(slug_of(s), t);
    lemma_names_at_most_one(slug_of(s), s, t);
}

fn fold_char(c: char) -> (r: u32)
    ensures
        r == ascii_fold(c),
{
    let code = c as u32;
    if 'A' as u32 <= code && code <= 'Z' as u32 {
        code + 32
    } else {
        code
    }
}

/// Compares two texts, ignoring the case of ASCII letters.
fn eq_ignore_ascii_case(a: &str, b: &str) -> (r: bool)
    ensures
        r == same_ignoring_ascii_case(a@, b@),
{
    let n = a.unicode_len();
    if n != b.unicode_len() {
        return false;
    }
    let mut i: usize = 0;
    while i < n
        invariant
            n == a@.len(),
            n == b@.len(),
            i <= n,
            forall|j: int| 0 <= j < i ==> ascii_fold(#[trigger] a@[j]) == ascii_fold(b@[j]),
        decreases n - i,
    {
        if fold_char(a.get_char(i)) != fold_char(b.get_char(i)) {
            return false;
        }
        i += 1;
    }
    true
}

impl ColorScheme {
    /// Returns the URL-compatible name of the scheme, its name in lower case.
    pub fn to_slug(&self) -> (r: String)
        ensures
            r@ == slug_of(*self),
    {
        match self {
            ColorScheme::Archlinux => "archlinux",
            ColorScheme::Zenburn => "zenburn",
            ColorScheme::Monokai => "monokai",
            ColorScheme::Squirrel => "squirrel",
        }.to_string()
    }

    /// Returns whether the scheme is dark.
    pub fn is_dark(&self) -> (r: bool)
        ensures
            r == is_dark_scheme(*self),
    {
        match self {
            ColorScheme::Archlinux => true,
            ColorScheme::Zenburn => true,
            ColorScheme::Monokai => true,
            ColorScheme::Squirrel => false,
        }
    }

    /// Every scheme, in declaration order.
    pub fn all_schemes() -> (r: Vec<ColorScheme>)
        ensures
            r@ == scheme_order(),
    {
        vec![ColorScheme::Archlinux, ColorScheme::Zenburn, ColorScheme::Monokai, ColorScheme::Squirrel]
    }

    /// The declared names of all schemes, in declaration order.
    pub fn variants() -> (r: [&'static str; 4])
        ensures
            r@.len() == scheme_order().len(),
            forall|i: int| 0 <= i < r@.len() ==> #[trigger] r@[i]@ == variant_name(scheme_order()[i]),
    {
        ["Archlinux", "Zenburn", "Monokai", "Squirrel"]
    }

    /// Reads a scheme from its slug, in any ASCII case; `None` where the
    /// text names no scheme.
    pub fn parse_slug(text: &str) -> (r: Option<ColorScheme>)
        ensures
            r == scheme_named(text@),
    {
        let schemes = ColorScheme::all_schemes();
        let mut i: usize = 0;
        while i < schemes.len()
            invariant
                schemes@ == scheme_order(),
                i <= schemes@.len(),
                forall|j: int| 0 <= j < i ==> !names_scheme(text@, #[trigger] schemes@[j]),
            decreases schemes@.len() - i,
        {
            let s = schemes[i];
            let slug = s.to_slug();
            if eq_ignore_ascii_case(text, slug.as_str()) {
                proof {
                    let t = choose|t: ColorScheme| names_scheme(text@, t);
                    lemma_names_at_most_one(text@, s, t);
                }
                return Some(s);
            }
            i += 1;
        }
        proof {
            lemma_scheme_order_complete();
            assert forall|s: ColorScheme| !names_scheme(text@, s) by {
                let j = scheme_order().index_of(s);
                assert(schemes@[j] == s);
            }
        }
        None
    }
}

/// Reads a scheme from its slug in any ASCII case, as a command-line value
/// is read.
impl std::str::FromStr for ColorScheme {
    type Err = InvalidSchemeSelector;

    fn from_str(text: &str) -> (r: Result<ColorScheme, InvalidSchemeSelector>)
        ensures
            r == match scheme_named(text@) {
                Some(s) => Ok::<ColorScheme, InvalidSchemeSelector>(s),
                None => Err(InvalidSchemeSelector),
            },
    {
        match ColorScheme::parse_slug(text) {
            Some(s) => Ok(s),
            None => Err(InvalidSchemeSelector),
        }
    }
}

} // verus!
