use vstd::prelude::*;

use crate::frame_css::box_shadow_text;
use crate::model::{common_of, frame_of, vector_of, Node, Style, StyleProperty};
use crate::names::{token_values, token_values_of};
use crate::paint::solid_text;
use crate::tables::{find_key, lookup};

verus! {

/// A design token: a named, theme-scoped CSS custom property.
#[derive(Debug)]
pub struct Token {
    /// Name of the style it comes from.
    pub name: String,
    /// CSS custom property name (`--brand-primary`).
    pub variable: String,
    pub value: String,
    /// Selector that scopes it (`:root`, or a theme's name).
    pub theme: String,
}

/// A token as (name, variable, value, theme).
pub type TokenView = (Seq<char>, Seq<char>, Seq<char>, Seq<char>);

/// Tokens keyed by style id, in the order they were found.
pub type TokenTable = Seq<(Seq<char>, TokenView)>;

impl View for Token {
    type V = TokenView;

    open spec fn view(&self) -> TokenView {
        (self.name@, self.variable@, self.value@, self.theme@)
    }
}

/// The abstract table of a table of tokens.
pub open spec fn table_view(t: Seq<(String, Token)>) -> TokenTable {
    t.map_values(|e: (String, Token)| (e.0@, e.1@))
}

/// The table holds a token for style id `id`.
pub open spec fn has_key(t: TokenTable, id: Seq<char>) -> bool {
    exists|i: int| 0 <= i < t.len() && #[trigger] t[i].0 == id
}

/// Named styles that a node uses.
pub open spec fn node_styles(n: &Node) -> Seq<(StyleProperty, String)> {
    match frame_of(n) {
        Some(f) => f.styles@,
        None => match vector_of(n) {
            Some(v) => v.styles@,
            None => Seq::empty(),
        },
    }
}

/// The value a node gives to a style of property `p`: its fill or stroke
/// colour, or its shadows; grids and text give none.
pub open spec fn style_value(n: &Node, p: StyleProperty) -> Seq<char> {
    match frame_of(n) {
        Some(f) => match p {
            StyleProperty::Fills => solid_text(f.fills@),
            StyleProperty::Strokes => solid_text(f.strokes@),
            StyleProperty::Effect => box_shadow_text(f.effects@),
            _ => Seq::empty(),
        },
        None => match vector_of(n) {
            Some(v) => match p {
                StyleProperty::Fills => solid_text(v.fills@),
                StyleProperty::Strokes => solid_text(v.strokes@),
                StyleProperty::Effect => box_shadow_text(v.effects@),
                _ => Seq::empty(),
            },
            None => Seq::empty(),
        },
    }
}

/// The token that style `s` with value `v` gives.
pub open spec fn token_of(s: Style, v: Seq<char>) -> TokenView {
    (s.name@, token_values_of(s.name@).0, v, token_values_of(s.name@).1)
}

/// Node `n`'s use of style `id` for property `p` gives a token: the style
/// exists and the node gives it a value.
pub open spec fn yields(n: &Node, p: StyleProperty, id: Seq<char>, styles: Seq<(String, Style)>) -> bool {
    lookup(styles, id).is_some() && style_value(n, p).len() > 0
}

/// One style use of a node: a token is added for a style id not yet in the table.
pub open spec fn take_style(t: TokenTable, n: &Node, e: (StyleProperty, String), styles: Seq<(String, Style)>) -> TokenTable {
    if has_key(t, e.1@) || !yields(n, e.0, e.1@, styles) {
        t
    } else {
        t.push((e.1@, token_of(lookup(styles, e.1@).unwrap(), style_value(n, e.0))))
    }
}

/// The style uses `es` of node `n`, taken in order.
pub open spec fn take_styles(t: TokenTable, n: &Node, es: Seq<(StyleProperty, String)>, styles: Seq<(String, Style)>) -> TokenTable
    decreases es.len(),
{
    if es.len() == 0 {
        t
    } else {
        take_style(take_styles(t, n, es.drop_last(), styles), n, es.last(), styles)
    }
}

/// Token extraction over the tree rooted at `n`: the node's own style uses,
/// then each child's subtree in order; the first token for a style id wins.
pub open spec fn extract(n: &Node, t: TokenTable, styles: Seq<(String, Style)>) -> TokenTable
    decreases n, 1nat,
{
    extract_all(common_of(n).children@, take_styles(t, n, node_styles(n), styles), styles)
}

/// Token extraction over the trees `cs`, in order.
pub open spec fn extract_all(cs: Seq<Node>, t: TokenTable, styles: Seq<(String, Style)>) -> TokenTable
    decreases cs, 0nat,
{
    if cs.len() == 0 {
        t
    } else {
        extract(&cs[cs.len() - 1], extract_all(cs.subrange(0, cs.len() - 1), t, styles), styles)
    }
}

/// Whether the table holds a token for style id `id`.
fn table_has(tokens: &Vec<(String, Token)>, id: &String) -> (r: bool)
    ensures
        r == has_key(table_view(tokens@), id@),
{
    let mut i: usize = 0;
    while i < tokens.len()
        invariant
            i <= tokens@.len(),
            forall|j: int| 0 <= j < i ==> table_view(tokens@)[j].0 != id@,
        decreases tokens@.len() - i,
    {
        if tokens[i].0 == *id {
            assert(table_view(tokens@)[i as int].0 == id@);
            return true;
        }
        i = i + 1;
    }
    false
}

/// The value a node gives to a style of property `p`.
fn node_style_value(node: &Node, p: StyleProperty) -> (r: String)
    ensures
        r@ == style_value(node, p),
{
    match node.is_frame() {
        Some(f) => match p {
            StyleProperty::Fills => f.background(),
            StyleProperty::Strokes => f.border_colour(),
            StyleProperty::Effect => f.box_shadow(),
            _ => String::new(),
        },
        None => match node.is_vector() {
            Some(v) => match p {
                StyleProperty::Fills => v.text_colour(),
                StyleProperty::Strokes => v.border_colour(),
                StyleProperty::Effect => v.box_shadow(),
                _ => String::new(),
            },
            None => String::new(),
        },
    }
}

/// Adds a token for each style that the tree rooted at `node` uses, in
/// depth-first order, to `tokens`; a style id already in the table keeps its
/// token, and a style that is missing or gives no value adds nothing.
pub fn generate_tokens(node: &Node, styles: &Vec<(String, Style)>, tokens: &mut Vec<(String, Token)>)
    ensures
        table_view(final(tokens)@) == extract(node, table_view(old(tokens)@), styles@),
    decreases node,
{
    let none: Vec<(StyleProperty, String)> = Vec::new();
    let uses = match node.is_frame() {
        Some(f) => &f.styles,
        None => match node.is_vector() {
            Some(v) => &v.styles,
            None => &none,
        },
    };
    let ghost t0 = table_view(tokens@);
    let mut i: usize = 0;
    while i < uses.len()
        invariant
            i <= uses@.len(),
            uses@ == node_styles(node),
            table_view(tokens@) == take_styles(t0, node, uses@.subrange(0, i as int), styles@),
        decreases uses@.len() - i,
    {
        assert(uses@.subrange(0, i + 1).drop_last() == uses@.subrange(0, i as int));
        let id = &uses[i].1;
        let p = uses[i].0;
        if !table_has(tokens, id) {
            match find_key(styles, id) {
                Some(k) => {
                    let value = node_style_value(node, p);
                    if !value.as_str().is_empty() {
                        let (variable, theme) = token_values(styles[k].1.name.clone());
                        let token = Token { name: styles[k].1.name.clone(), variable, value, theme };
                        let ghost before = tokens@;
                        tokens.push((id.clone(), token));
                        assert(table_view(tokens@) == table_view(before).push((id@, token@)));
                    }
                },
                None => {},
            }
        }
        i = i + 1;
    }
    assert(uses@.subrange(0, i as int) == uses@);
    let children = &node.common().children;
    let ghost t1 = table_view(tokens@);
    let mut j: usize = 0;
    assert(children@.subrange(0, 0) == Seq::<Node>::empty());
    while j < children.len()
        invariant
            j <= children@.len(),
            children@ == common_of(node).children@,
            table_view(tokens@) == extract_all(children@.subrange(0, j as int), t1, styles@),
        decreases children@.len() - j,
    {
        assert(children@.subrange(0, j + 1).subrange(0, j as int) == children@.subrange(0, j as int));
        assert(children@.subrange(0, j + 1)[j as int] == children@[j as int]);
        generate_tokens(&children[j], styles, tokens);
        j = j + 1;
    }
    assert(children@.subrange(0, j as int) == children@);
}

/// `t` is the start of `u`.
pub open spec fn is_prefix(t: TokenTable, u: TokenTable) -> bool {
    t.len() <= u.len() && u.subrange(0, t.len() as int) == t
}

/// Each style use of `es` either has its token in `t` or gives none.
pub open spec fn covers(t: TokenTable, n: &Node, es: Seq<(StyleProperty, String)>, styles: Seq<(String, Style)>) -> bool {
    forall|i: int| 0 <= i < es.len() ==> has_key(t, (#[trigger] es[i]).1@) || !yields(n, es[i].0, es[i].1@, styles)
}

/// Every style use in the tree rooted at `n` has its token in `t` or gives none.
pub open spec fn tree_covered(n: &Node, t: TokenTable, styles: Seq<(String, Style)>) -> bool
    decreases n,
{
    covers(t, n, node_styles(n), styles) && forall|i: int|
        0 <= i < common_of(n).children@.len() ==> tree_covered(&#[trigger] common_of(n).children@[i], t, styles)
}

proof fn lemma_prefix_has_key(t: TokenTable, u: TokenTable, id: Seq<char>)
    requires
        is_prefix(t, u),
        has_key(t, id),
    ensures
        has_key(u, id),
{
    let i = choose|i: int| 0 <= i < t.len() && #[trigger] t[i].0 == id;
    assert(u[i] == u.subrange(0, t.len() as int)[i]);
}

proof fn lemma_prefix_trans(a: TokenTable, b: TokenTable, c: TokenTable)
    requires
        is_prefix(a, b),
        is_prefix(b, c),
    ensures
        is_prefix(a, c),
{
    assert(c.subrange(0, a.len() as int) == c.subrange(0, b.len() as int).subrange(0, a.len() as int));
}

proof fn lemma_covers_mono(t: TokenTable, u: TokenTable, n: &Node, es: Seq<(StyleProperty, String)>, styles: Seq<(String, Style)>)
    requires
        covers(t, n, es, styles),
        is_prefix(t, u),
    ensures
        covers(u, n, es, styles),
{
    assert forall|i: int| 0 <= i < es.len() implies has_key(u, (#[trigger] es[i]).1@) || !yields(n, es[i].0, es[i].1@, styles) by {
        if has_key(t, es[i].1@) {
            lemma_prefix_has_key(t, u, es[i].1@);
        }
    }
}

proof fn lemma_take_styles(t: TokenTable, n: &Node, es: Seq<(StyleProperty, String)>, styles: Seq<(String, Style)>)
    ensures
        is_prefix(t, take_styles(t, n, es, styles)),
        covers(take_styles(t, n, es, styles), n, es, styles),
        covers(t, n, es, styles) ==> take_styles(t, n, es, styles) == t,
    decreases es.len(),
{
    if es.len() > 0 {
        let front = es.drop_last();
        lemma_take_styles(t, n, front, styles);
        let m = take_styles(t, n, front, styles);
        let r = take_styles(t, n, es, styles);
        assert(r == take_style(m, n, es.last(), styles));
        assert(is_prefix(m, r)) by {
            if r != m {
                assert(r.subrange(0, m.len() as int) =~= m);
            } else {
                assert(m.subrange(0, m.len() as int) =~= m);
            }
        }
        lemma_prefix_trans(t, m, r);
        assert(is_prefix(t, r));
        lemma_covers_mono(m, r, n, front, styles);
        assert(covers(r, n, es, styles)) by {
            assert forall|i: int| 0 <= i < es.len() implies has_key(r, (#[trigger] es[i]).1@) || !yields(n, es[i].0, es[i].1@, styles) by {
                if i < es.len() - 1 {
                    assert(es[i] == front[i]);
                } else if r != m {
                    assert(r[m.len() as int].0 == es[i].1@);
                }
            }
        }
        if covers(t, n, es, styles) {
            assert forall|i: int| 0 <= i < front.len() implies has_key(t, (#[trigger] front[i]).1@) || !yields(n, front[i].0, front[i].1@, styles) by {
                assert(front[i] == es[i]);
            }
            assert(es.last() == es[es.len() - 1]);
        }
    } else {
        assert(t.subrange(0, t.len() as int) =~= t);
    }
}

proof fn lemma_extract_prefix(n: &Node, t: TokenTable, styles: Seq<(String, Style)>)
    ensures
        is_prefix(t, extract(n, t, styles)),
    decreases n, 1nat,
{
    let t1 = take_styles(t, n, node_styles(n), styles);
    lemma_take_styles(t, n, node_styles(n), styles);
    lemma_extract_all_prefix(common_of(n).children@, t1, styles);
    lemma_prefix_trans(t, t1, extract(n, t, styles));
}

proof fn lemma_extract_all_prefix(cs: Seq<Node>, t: TokenTable, styles: Seq<(String, Style)>)
    ensures
        is_prefix(t, extract_all(cs, t, styles)),
    decreases cs, 0nat,
{
    if cs.len() > 0 {
        let front = cs.subrange(0, cs.len() - 1);
        lemma_extract_all_prefix(front, t, styles);
        let m = extract_all(front, t, styles);
        lemma_extract_prefix(&cs[cs.len() - 1], m, styles);
        lemma_prefix_trans(t, m, extract_all(cs, t, styles));
    } else {
        assert(t.subrange(0, t.len() as int) == t);
    }
}

proof fn lemma_covered_mono(n: &Node, t: TokenTable, u: TokenTable, styles: Seq<(String, Style)>)
    requires
        tree_covered(n, t, styles),
        is_prefix(t, u),
    ensures
        tree_covered(n, u, styles),
    decreases n,
{
    lemma_covers_mono(t, u, n, node_styles(n), styles);
    let cs = common_of(n).children@;
    assert forall|i: int| 0 <= i < cs.len() implies tree_covered(&#[trigger] cs[i], u, styles) by {
        lemma_covered_mono(&cs[i], t, u, styles);
    }
}

proof fn lemma_extract_covers(n: &Node, t: TokenTable, styles: Seq<(String, Style)>)
    ensures
        tree_covered(n, extract(n, t, styles), styles),
    decreases n, 1nat,
{
    let t1 = take_styles(t, n, node_styles(n), styles);
    let cs = common_of(n).children@;
    let r = extract(n, t, styles);
    lemma_take_styles(t, n, node_styles(n), styles);
    lemma_extract_all_prefix(cs, t1, styles);
    lemma_covers_mono(t1, r, n, node_styles(n), styles);
    lemma_extract_all_covers(cs, t1, styles);
}

proof fn lemma_extract_all_covers(cs: Seq<Node>, t: TokenTable, styles: Seq<(String, Style)>)
    ensures
        forall|i: int| 0 <= i < cs.len() ==> tree_covered(&#[trigger] cs[i], extract_all(cs, t, styles), styles),
    decreases cs, 0nat,
{
    if cs.len() > 0 {
        let front = cs.subrange(0, cs.len() - 1);
        let m = extract_all(front, t, styles);
        let r = extract_all(cs, t, styles);
        lemma_extract_all_covers(front, t, styles);
        lemma_extract_covers(&cs[cs.len() - 1], m, styles);
        lemma_extract_prefix(&cs[cs.len() - 1], m, styles);
        assert forall|i: int| 0 <= i < cs.len() implies tree_covered(&#[trigger] cs[i], r, styles) by {
            if i < cs.len() - 1 {
                assert(cs[i] == front[i]);
                lemma_covered_mono(&front[i], m, r, styles);
            }
        }
    }
}

proof fn lemma_extract_fixed(n: &Node, t: TokenTable, styles: Seq<(String, Style)>)
    requires
        tree_covered(n, t, styles),
    ensures
        extract(n, t, styles) == t,
    decreases n, 1nat,
{
    lemma_take_styles(t, n, node_styles(n), styles);
    lemma_extract_all_fixed(common_of(n).children@, t, styles);
}

proof fn lemma_extract_all_fixed(cs: Seq<Node>, t: TokenTable, styles: Seq<(String, Style)>)
    requires
        forall|i: int| 0 <= i < cs.len() ==> tree_covered(&#[trigger] cs[i], t, styles),
    ensures
        extract_all(cs, t, styles) == t,
    decreases cs, 0nat,
{
    if cs.len() > 0 {
        let front = cs.subrange(0, cs.len() - 1);
        assert forall|i: int| 0 <= i < front.len() implies tree_covered(&#[trigger] front[i], t, styles) by {
            assert(front[i] == cs[i]);
        }
        lemma_extract_all_fixed(front, t, styles);
        lemma_extract_fixed(&cs[cs.len() - 1], t, styles);
    }
}

/// Extraction keeps every token already in the table, unchanged and in
/// place: a style id already present is never overwritten.
pub proof fn lemma_extract_keeps(n: &Node, t: TokenTable, styles: Seq<(String, Style)>)
    ensures
        extract(n, t, styles).len() >= t.len(),
        extract(n, t, styles).subrange(0, t.len() as int) == t,
{
    lemma_extract_prefix(n, t, styles);
}

/// Extracting the tokens of a tree a second time, into the table that the
/// first extraction built, changes nothing.
pub proof fn lemma_extract_idempotent(n: &Node, t: TokenTable, styles: Seq<(String, Style)>)
    ensures
        extract(n, extract(n, t, styles), styles) == extract(n, t, styles),
{
    lemma_extract_covers(n, t, styles);
    lemma_extract_fixed(n, extract(n, t, styles), styles);
}

} // verus!
