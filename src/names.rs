use convert_case::{Case, Casing};
use vstd::prelude::*;
use vstd::string::StringExecFns;

use crate::model::{Component, ComponentSet, NodeCommon};
use crate::text::{chars_of, contains_chars, find_char, first_index, occurs_at, slice_chars, string_of_chars};

verus! {

/// The kebab-case form of a text: its words, lower case, joined by `-`.
pub uninterp spec fn kebab_of(s: Seq<char>) -> Seq<char>;

/// Relies on convert_case's `to_case(Case::Kebab)`, whose result depends on
/// the text alone.
#[verifier::external_body]
pub(crate) fn kebab(s: &str) -> (r: String)
    ensures
        r@ == kebab_of(s@),
{
    s.to_case(Case::Kebab)
}

/// A character that separates the parts of a style or node name.
pub open spec fn is_name_separator(c: char) -> bool {
    c == '/' || c == '.' || c == ':' || c == '\u{a0}'
}

/// `s` starts at `i` with the three characters that a bullet shows as when its
/// UTF-8 bytes are read as Windows-1252.
pub open spec fn mangled_bullet_at(s: Seq<char>, i: int) -> bool {
    0 <= i && i + 3 <= s.len() && s[i] == '\u{e2}' && s[i + 1] == '\u{20ac}' && s[i + 2] == '\u{a2}'
}

/// `s` with each separator, and each mangled bullet, turned into one space.
pub open spec fn spaced_separators(s: Seq<char>) -> Seq<char>
    decreases s.len(),
{
    if s.len() == 0 {
        Seq::empty()
    } else if mangled_bullet_at(s, 0) {
        seq![' '] + spaced_separators(s.subrange(3, s.len() as int))
    } else if is_name_separator(s[0]) {
        seq![' '] + spaced_separators(s.drop_first())
    } else {
        seq![s[0]] + spaced_separators(s.drop_first())
    }
}

/// The kebab-case name of a component, set, node or token.
pub open spec fn parse_name_of(s: Seq<char>) -> Seq<char> {
    kebab_of(spaced_separators(s))
}

fn spaced_separator_chars(v: &Vec<char>) -> (r: Vec<char>)
    ensures
        r@ == spaced_separators(v@),
{
    let n = v.len();
    let mut out: Vec<char> = Vec::new();
    let mut i: usize = 0;
    assert(v@.subrange(0, n as int) == v@);
    while i < n
        invariant
            n == v@.len(),
            i <= n,
            out@ + spaced_separators(v@.subrange(i as int, n as int)) == spaced_separators(v@),
        decreases n - i,
    {
        let ghost rest = v@.subrange(i as int, n as int);
        if n - i >= 3 && v[i] == '\u{e2}' && v[i + 1] == '\u{20ac}' && v[i + 2] == '\u{a2}' {
            assert(mangled_bullet_at(rest, 0));
            assert(rest.subrange(3, rest.len() as int) == v@.subrange(i + 3, n as int));
            out.push(' ');
            i = i + 3;
        } else {
            assert(!mangled_bullet_at(rest, 0));
            assert(rest.drop_first() == v@.subrange(i + 1, n as int));
            let c = v[i];
            if c == '/' || c == '.' || c == ':' || c == '\u{a0}' {
                out.push(' ');
            } else {
                out.push(c);
            }
            i = i + 1;
        }
    }
    assert(v@.subrange(n as int, n as int) == Seq::<char>::empty());
    out
}

/// Name in kebab case after each `/`, `.`, `:`, no-break space and mangled
/// bullet has become a space.
pub fn parse_name(name: &String) -> (r: String)
    ensures
        r@ == parse_name_of(name@),
{
    let spaced = string_of_chars(spaced_separator_chars(&chars_of(name.as_str())));
    kebab(spaced.as_str())
}

/// `s` with each `/` turned into `-`.
pub open spec fn slashes_dashed(s: Seq<char>) -> Seq<char> {
    s.map_values(|c: char| if c == '/' { '-' } else { c })
}

fn slashes_dashed_chars(v: &Vec<char>) -> (r: Vec<char>)
    ensures
        r@ == slashes_dashed(v@),
{
    let mut out: Vec<char> = Vec::new();
    let mut i: usize = 0;
    while i < v.len()
        invariant
            i <= v@.len(),
            out@ == slashes_dashed(v@.subrange(0, i as int)),
        decreases v@.len() - i,
    {
        let c = v[i];
        out.push(if c == '/' { '-' } else { c });
        i = i + 1;
        assert(out@ =~= slashes_dashed(v@.subrange(0, i as int)));
    }
    assert(v@.subrange(0, i as int) == v@);
    out
}

/// `s` holds the word `theme`.
pub open spec fn names_theme(s: Seq<char>) -> bool {
    exists|k: int| occurs_at(s, "theme"@, k)
}

/// CSS variable name and theme scope of a style name. A name without `/`
/// gives `--name` in `:root`. A name whose first `/`-segment holds `theme`
/// gives that segment as the scope and the other segments as the variable;
/// any other name gives all its segments as the variable, in `:root`.
pub open spec fn token_values_of(name: Seq<char>) -> (Seq<char>, Seq<char>) {
    let i = first_index(name, '/');
    if i < 0 {
        ("--"@ + parse_name_of(name), ":root"@)
    } else if names_theme(name.subrange(0, i)) {
        ("--"@ + parse_name_of(slashes_dashed(name.subrange(i + 1, name.len() as int))), parse_name_of(name.subrange(0, i)))
    } else {
        ("--"@ + parse_name_of(slashes_dashed(name)), ":root"@)
    }
}

/// CSS variable name and theme scope of a style name, see `token_values_of`.
pub fn token_values(name: String) -> (r: (String, String))
    ensures
        r.0@ == token_values_of(name@).0,
        r.1@ == token_values_of(name@).1,
{
    let v = chars_of(name.as_str());
    match find_char(&v, '/') {
        None => (String::from_str("--").concat(parse_name(&name).as_str()), String::from_str(":root")),
        Some(i) => {
            let n = v.len();
            assert(i < n);
            let head = slice_chars(&v, 0, i);
            if contains_chars(&head, &chars_of("theme")) {
                let tail = slice_chars(&v, i + 1, n);
                let variable = parse_name(&string_of_chars(slashes_dashed_chars(&tail)));
                let theme = parse_name(&string_of_chars(head));
                (String::from_str("--").concat(variable.as_str()), theme)
            } else {
                let variable = parse_name(&string_of_chars(slashes_dashed_chars(&v)));
                (String::from_str("--").concat(variable.as_str()), String::from_str(":root"))
            }
        },
    }
}

impl Component {
    pub fn get_name(&self) -> (r: String)
        ensures
            r@ == parse_name_of(self.name@),
    {
        parse_name(&self.name)
    }
}

impl ComponentSet {
    pub fn get_name(&self) -> (r: String)
        ensures
            r@ == parse_name_of(self.name@),
    {
        parse_name(&self.name)
    }
}

impl NodeCommon {
    pub fn get_name(&self) -> (r: String)
        ensures
            r@ == parse_name_of(self.name@),
    {
        parse_name(&self.name)
    }
}

} // verus!
