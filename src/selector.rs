use vstd::prelude::*;
use vstd::string::StringExecFns;

use crate::model::Frame;
use crate::names::{kebab, kebab_of};
use crate::text::{chars_are, chars_of, find_char, first_index, push_chars, push_str, slice_chars, string_of_chars};

verus! {

/// A user-action pseudo-class: `hover`, `active`, `focus`, `focus-visible`, `focus-within`.
pub open spec fn is_pseudo(v: Seq<char>) -> bool {
    v == "hover"@ || v == "active"@ || v == "focus"@ || v == "focus-visible"@ || v == "focus-within"@
}

/// Attribute and class fragment of one variant segment `property=value`.
/// `value` may be `primary;secondary`: the primary value gives the attribute,
/// the secondary a class unless it is a pseudo-class. A value of `default`, or
/// one that is a pseudo-class, gives no attribute.
pub open spec fn variant_attr(seg: Seq<char>) -> Seq<char> {
    let e = first_index(seg, '=');
    if e < 0 {
        Seq::empty()
    } else {
        let attribute = kebab_of(seg.subrange(0, e));
        let value = kebab_of(seg.subrange(e + 1, seg.len() as int));
        let sc = first_index(value, ';');
        if sc >= 0 {
            let second = value.subrange(sc + 1, value.len() as int);
            "["@ + attribute + "=\""@ + kebab_of(value.subrange(0, sc)) + "\"]"@ + (if is_pseudo(second) {
                Seq::empty()
            } else {
                "."@ + kebab_of(second)
            })
        } else if value != "default"@ && !is_pseudo(value) {
            "["@ + attribute + "=\""@ + value + "\"]"@
        } else {
            Seq::empty()
        }
    }
}

/// Pseudo-class fragment of one variant segment: `:hover` where the value, or
/// its secondary part, is a pseudo-class.
pub open spec fn variant_pseudo(seg: Seq<char>) -> Seq<char> {
    let e = first_index(seg, '=');
    if e < 0 {
        Seq::empty()
    } else {
        let value = kebab_of(seg.subrange(e + 1, seg.len() as int));
        let sc = first_index(value, ';');
        if sc >= 0 {
            let second = value.subrange(sc + 1, value.len() as int);
            if is_pseudo(second) {
                ":"@ + kebab_of(second)
            } else {
                Seq::empty()
            }
        } else if is_pseudo(value) {
            ":"@ + value
        } else {
            Seq::empty()
        }
    }
}

/// Markup attribute of one variant segment: ` property="value"` where the
/// segment gives an attribute selector.
pub open spec fn variant_markup_attr(seg: Seq<char>) -> Seq<char> {
    let e = first_index(seg, '=');
    if e < 0 {
        Seq::empty()
    } else {
        let attribute = kebab_of(seg.subrange(0, e));
        let value = kebab_of(seg.subrange(e + 1, seg.len() as int));
        let sc = first_index(value, ';');
        if sc >= 0 {
            " "@ + attribute + "=\""@ + kebab_of(value.subrange(0, sc)) + "\""@
        } else if value != "default"@ && !is_pseudo(value) {
            " "@ + attribute + "=\""@ + value + "\""@
        } else {
            Seq::empty()
        }
    }
}

/// `s` holds the segment separator `, ` at `j`.
pub open spec fn sep_at(s: Seq<char>, j: int) -> bool {
    0 <= j && j + 1 < s.len() && s[j] == ',' && s[j + 1] == ' '
}

/// `k` is the first position of the segment separator `, ` in `s`.
pub open spec fn is_first_sep(s: Seq<char>, k: int) -> bool {
    sep_at(s, k) && forall|j: int| 0 <= j < k ==> !#[trigger] sep_at(s, j)
}

/// Position of the first `, ` in `s`, or -1.
pub open spec fn first_sep(s: Seq<char>) -> int {
    if exists|k: int| is_first_sep(s, k) {
        choose|k: int| is_first_sep(s, k)
    } else {
        -1
    }
}

/// The segments of `s` separated by `, `, each mapped by `f`, concatenated.
pub open spec fn over_segments(s: Seq<char>, f: spec_fn(Seq<char>) -> Seq<char>) -> Seq<char>
    decreases s.len(),
{
    let i = first_sep(s);
    if i < 0 || i + 2 > s.len() {
        f(s)
    } else {
        f(s.subrange(0, i)) + over_segments(s.subrange(i + 2, s.len() as int), f)
    }
}

/// Selector fragment of a node name. A name without `=` gives the class
/// ` .kebab-name`. A variant name (`property=value, property=value`) gives the
/// attribute fragments of all its segments, then their pseudo-class fragments.
pub open spec fn classes_of(name: Seq<char>) -> Seq<char> {
    if first_index(name, '=') < 0 {
        " ."@ + kebab_of(name)
    } else {
        attrs_of(name) + pseudos_of(name)
    }
}

/// Attribute fragments of all segments of a variant name.
pub open spec fn attrs_of(name: Seq<char>) -> Seq<char> {
    over_segments(name, |seg: Seq<char>| variant_attr(seg))
}

/// Pseudo-class fragments of all segments of a variant name.
pub open spec fn pseudos_of(name: Seq<char>) -> Seq<char> {
    over_segments(name, |seg: Seq<char>| variant_pseudo(seg))
}

/// Markup attributes of all segments of a variant name.
pub open spec fn markup_attrs_of(name: Seq<char>) -> Seq<char> {
    over_segments(name, |seg: Seq<char>| variant_markup_attr(seg))
}

fn first_sep_exec(v: &Vec<char>) -> (r: Option<usize>)
    ensures
        match r {
            Some(i) => first_sep(v@) == i,
            None => first_sep(v@) == -1,
        },
{
    let n = v.len();
    if n < 2 {
        assert(!exists|k: int| is_first_sep(v@, k));
        return None;
    }
    let mut i: usize = 0;
    while i + 1 < n
        invariant
            n == v@.len(),
            n >= 2,
            i + 1 <= n,
            forall|j: int| 0 <= j < i ==> !#[trigger] sep_at(v@, j),
        decreases n - i,
    {
        if v[i] == ',' && v[i + 1] == ' ' {
            assert(is_first_sep(v@, i as int));
            let ghost k = choose|k: int| is_first_sep(v@, k);
            assert(k == i) by {
                if k < i {
                    assert(!sep_at(v@, k));
                }
                if k > i {
                    assert(!sep_at(v@, i as int));
                }
            }
            return Some(i);
        }
        i = i + 1;
    }
    assert(!exists|k: int| is_first_sep(v@, k)) by {
        if exists|k: int| is_first_sep(v@, k) {
            let k = choose|k: int| is_first_sep(v@, k);
            assert(k < i);
        }
    }
    None
}

/// Kebab case of the characters `v`.
fn kebab_chars(v: &Vec<char>) -> (r: Vec<char>)
    ensures
        r@ == kebab_of(v@),
{
    let s = string_of_chars(slice_chars(v, 0, v.len()));
    assert(v@.subrange(0, v@.len() as int) == v@);
    chars_of(kebab(s.as_str()).as_str())
}

fn is_pseudo_exec(v: &Vec<char>) -> (r: bool)
    ensures
        r == is_pseudo(v@),
{
    chars_are(v, "hover") || chars_are(v, "active") || chars_are(v, "focus") || chars_are(v, "focus-visible")
        || chars_are(v, "focus-within")
}

/// The three fragments of one variant segment: attribute, pseudo-class, markup attribute.
fn segment_fragments(seg: &Vec<char>) -> (r: (Vec<char>, Vec<char>, Vec<char>))
    ensures
        r.0@ == variant_attr(seg@),
        r.1@ == variant_pseudo(seg@),
        r.2@ == variant_markup_attr(seg@),
{
    let mut attr: Vec<char> = Vec::new();
    let mut pseudo: Vec<char> = Vec::new();
    let mut markup: Vec<char> = Vec::new();
    match find_char(seg, '=') {
        None => {},
        Some(e) => {
            let n = seg.len();
            assert(e < n);
            let attribute = kebab_chars(&slice_chars(seg, 0, e));
            let value = kebab_chars(&slice_chars(seg, e + 1, n));
            match find_char(&value, ';') {
                Some(sc) => {
                    let vn = value.len();
                    assert(sc < vn);
                    let primary = kebab_chars(&slice_chars(&value, 0, sc));
                    let second = slice_chars(&value, sc + 1, vn);
                    push_str(&mut attr, "[");
                    push_chars(&mut attr, &attribute);
                    push_str(&mut attr, "=\"");
                    push_chars(&mut attr, &primary);
                    push_str(&mut attr, "\"]");
                    push_str(&mut markup, " ");
                    push_chars(&mut markup, &attribute);
                    push_str(&mut markup, "=\"");
                    push_chars(&mut markup, &primary);
                    push_str(&mut markup, "\"");
                    if is_pseudo_exec(&second) {
                        push_str(&mut pseudo, ":");
                        push_chars(&mut pseudo, &kebab_chars(&second));
                    } else {
                        push_str(&mut attr, ".");
                        push_chars(&mut attr, &kebab_chars(&second));
                    }
                },
                None => {
                    if is_pseudo_exec(&value) {
                        push_str(&mut pseudo, ":");
                        push_chars(&mut pseudo, &value);
                    } else if !chars_are(&value, "default") {
                        push_str(&mut attr, "[");
                        push_chars(&mut attr, &attribute);
                        push_str(&mut attr, "=\"");
                        push_chars(&mut attr, &value);
                        push_str(&mut attr, "\"]");
                        push_str(&mut markup, " ");
                        push_chars(&mut markup, &attribute);
                        push_str(&mut markup, "=\"");
                        push_chars(&mut markup, &value);
                        push_str(&mut markup, "\"");
                    }
                },
            }
        },
    }
    (attr, pseudo, markup)
}

/// Attribute, pseudo-class and markup-attribute fragments of all segments of `s`.
fn variant_parts(s: &Vec<char>) -> (r: (Vec<char>, Vec<char>, Vec<char>))
    ensures
        r.0@ == attrs_of(s@),
        r.1@ == pseudos_of(s@),
        r.2@ == markup_attrs_of(s@),
    decreases s@.len(),
{
    let n = s.len();
    match first_sep_exec(s) {
        None => segment_fragments(s),
        Some(i) => {
            assert(sep_at(s@, i as int)) by {
                let k = choose|k: int| is_first_sep(s@, k);
            }
            let head = slice_chars(s, 0, i);
            let tail = slice_chars(s, i + 2, n);
            let (mut a, mut p, mut m) = segment_fragments(&head);
            let (ta, tp, tm) = variant_parts(&tail);
            push_chars(&mut a, &ta);
            push_chars(&mut p, &tp);
            push_chars(&mut m, &tm);
            (a, p, m)
        },
    }
}

impl Frame {
    /// Kebab case of the node's name.
    pub fn get_name(&self) -> (r: String)
        ensures
            r@ == kebab_of(self.node.name@),
    {
        kebab(self.node.name.as_str())
    }

    /// Whether the name encodes variant properties (`property=value`).
    pub fn is_variant(&self) -> (r: bool)
        ensures
            r == (first_index(self.node.name@, '=') >= 0),
    {
        find_char(&chars_of(self.node.name.as_str()), '=').is_some()
    }

    /// Selector fragment of the node: ` .name` for a plain name; for a variant
    /// name such as `Size=Large, State=Hover`, `[size="large"]:hover`.
    pub fn get_classes(&self) -> (r: String)
        ensures
            r@ == classes_of(self.node.name@),
    {
        get_classes_of(&self.node.name)
    }
}

/// Selector fragment of a node name, see `classes_of`.
pub fn get_classes_of(name: &String) -> (r: String)
    ensures
        r@ == classes_of(name@),
{
    let v = chars_of(name.as_str());
    match find_char(&v, '=') {
        None => String::from_str(" .").concat(kebab(name.as_str()).as_str()),
        Some(_) => {
            let (mut a, p, _m) = variant_parts(&v);
            push_chars(&mut a, &p);
            string_of_chars(a)
        },
    }
}

/// Markup attributes of a variant name (` size="large"`); empty for a plain name.
pub fn markup_attributes_of(name: &String) -> (r: String)
    ensures
        r@ == (if first_index(name@, '=') < 0 { Seq::empty() } else { markup_attrs_of(name@) }),
{
    let v = chars_of(name.as_str());
    match find_char(&v, '=') {
        None => String::new(),
        Some(_) => {
            let (_a, _p, m) = variant_parts(&v);
            string_of_chars(m)
        },
    }
}

} // verus!
