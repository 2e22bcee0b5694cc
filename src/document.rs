use vstd::prelude::*;

use crate::emit::{create_markup, generate, rule_views, state_of, string_views, walk, Rule, WalkState};
use crate::layout::{LayoutAlign, LayoutAlignContent, LayoutAlignItems, LayoutMode, LayoutSizingMode, LayoutWrap};
use crate::markup::{dedup_views, markup_view, markup_views, Markup, MarkupView};
use crate::model::{common_of, frame_of, Component, ComponentSet, Frame, Node, NodeCommon, Style};
use crate::names::parse_name_of;
use crate::num::Num;
use crate::tokens::{extract, generate_tokens, table_view, Token, TokenTable};

verus! {

impl Default for Frame {
    /// A visible frame with no name, no children, no paints or effects, no
    /// auto-layout and every optional field absent.
    fn default() -> (r: Frame)
        ensures
            r.node.id@.len() == 0,
            r.node.name@.len() == 0,
            r.node.visible,
            r.node.children@.len() == 0,
            r.fills@.len() == 0,
            r.strokes@.len() == 0,
            r.effects@.len() == 0,
            r.styles@.len() == 0,
            r.stroke_weight is None,
            r.stroke_dashes is None,
            r.individual_stroke_weights is None,
            r.corner_radius is None,
            r.rectangle_corner_radii is None,
            r.rotation is None,
            r.absolute_bounding_box is None,
            r.min_width is None && r.max_width is None && r.min_height is None && r.max_height is None,
            r.item_spacing is None,
            !r.clips_content,
            r.layout_mode == LayoutMode::NoLayout,
            r.layout_align == LayoutAlign::Inherit,
            r.layout_grow.micros == 0,
            r.layout_sizing_horizontal == LayoutSizingMode::Fixed,
            r.layout_sizing_vertical == LayoutSizingMode::Fixed,
            r.layout_wrap == LayoutWrap::NoWrap,
            r.primary_axis_align_items == LayoutAlignItems::Min,
            r.counter_axis_align_items == LayoutAlignItems::Min,
            r.counter_axis_align_content == LayoutAlignContent::Auto,
            r.padding_left.micros == 0 && r.padding_right.micros == 0,
            r.padding_top.micros == 0 && r.padding_bottom.micros == 0,
    {
        Frame {
            node: NodeCommon { id: String::new(), name: String::new(), visible: true, children: Vec::new() },
            fills: Vec::new(),
            strokes: Vec::new(),
            stroke_weight: None,
            stroke_dashes: None,
            individual_stroke_weights: None,
            corner_radius: None,
            rectangle_corner_radii: None,
            rotation: None,
            layout_align: LayoutAlign::Inherit,
            layout_grow: Num { micros: 0 },
            absolute_bounding_box: None,
            min_width: None,
            max_width: None,
            min_height: None,
            max_height: None,
            clips_content: false,
            layout_mode: LayoutMode::NoLayout,
            layout_sizing_horizontal: LayoutSizingMode::Fixed,
            layout_sizing_vertical: LayoutSizingMode::Fixed,
            layout_wrap: LayoutWrap::NoWrap,
            primary_axis_align_items: LayoutAlignItems::Min,
            counter_axis_align_items: LayoutAlignItems::Min,
            counter_axis_align_content: LayoutAlignContent::Auto,
            padding_left: Num { micros: 0 },
            padding_right: Num { micros: 0 },
            padding_top: Num { micros: 0 },
            padding_bottom: Num { micros: 0 },
            item_spacing: None,
            effects: Vec::new(),
            styles: Vec::new(),
        }
    }
}

/// A frame that gives its children nothing: no auto-layout and no name.
pub open spec fn is_blank(f: &Frame) -> bool {
    f.layout_mode == LayoutMode::NoLayout && f.node.name@.len() == 0
}

/// The parent that a top-level component is laid out in.
pub open spec fn top_parent() -> Frame {
    choose|f: Frame| is_blank(&f)
}

/// The walk of a top-level component, from an empty state.
pub open spec fn top_walk(
    n: &Node,
    components: Seq<(String, Component)>,
    component_sets: Seq<(String, ComponentSet)>,
) -> (WalkState, Seq<MarkupView>) {
    walk(n, &top_parent(), Seq::empty(), false, components, component_sets, WalkState { rules: Seq::empty(), includes: Seq::empty() })
}

proof fn lemma_walk_parent(
    n: &Node,
    p: &Frame,
    q: &Frame,
    components: Seq<(String, Component)>,
    component_sets: Seq<(String, ComponentSet)>,
    st: WalkState,
)
    requires
        p.layout_mode == q.layout_mode,
        p.node.name@ == q.node.name@,
    ensures
        walk(n, p, Seq::empty(), false, components, component_sets, st) == walk(n, q, Seq::empty(), false, components, component_sets, st),
{
}

/// `s` without the elements equal to the one before them.
pub open spec fn dedup_consecutive(s: Seq<Seq<char>>) -> Seq<Seq<char>>
    decreases s.len(),
{
    if s.len() == 0 {
        s
    } else {
        let d = dedup_consecutive(s.drop_last());
        if d.len() > 0 && d.last() == s.last() {
            d
        } else {
            d.push(s.last())
        }
    }
}

/// Removes each element equal to the one before it.
pub fn dedup_strings(v: Vec<String>) -> (r: Vec<String>)
    ensures
        string_views(r@) == dedup_consecutive(string_views(v@)),
{
    let mut out: Vec<String> = Vec::new();
    let mut i: usize = 0;
    while i < v.len()
        invariant
            i <= v@.len(),
            string_views(out@) == dedup_consecutive(string_views(v@.subrange(0, i as int))),
        decreases v@.len() - i,
    {
        let ghost before = out@;
        assert(string_views(v@.subrange(0, i + 1)).drop_last() == string_views(v@.subrange(0, i as int)));
        assert(string_views(v@.subrange(0, i + 1)).last() == v@[i as int]@);
        let n = out.len();
        if n > 0 && out[n - 1] == v[i] {
        } else {
            out.push(v[i].clone());
            assert(string_views(out@) =~= string_views(before).push(v@[i as int]@));
        }
        i = i + 1;
    }
    assert(v@.subrange(0, i as int) == v@);
    out
}

/// What the walk of one top-level component or component set yields.
#[derive(Debug)]
pub struct ComponentOutput {
    pub id: String,
    pub name: String,
    pub rules: Vec<Rule>,
    pub markup: Vec<Markup>,
    /// Ids of the components and sets whose stylesheet this one needs.
    pub includes: Vec<String>,
}

/// A component or a component set.
pub open spec fn is_component_node(n: &Node) -> bool {
    n is Component || n is ComponentSet
}

/// `o` is what top-level component `n` yields: its id and name, its rules,
/// its includes without consecutive repeats, and its markup (for a set, the
/// markup of its variants without repeats).
pub open spec fn output_of(
    o: &ComponentOutput,
    n: &Node,
    components: Seq<(String, Component)>,
    component_sets: Seq<(String, ComponentSet)>,
) -> bool {
    let w = top_walk(n, components, component_sets);
    &&& o.id@ == common_of(n).id@
    &&& o.name@ == parse_name_of(common_of(n).name@)
    &&& rule_views(o.rules@) == w.0.rules
    &&& string_views(o.includes@) == dedup_consecutive(w.0.includes)
    &&& markup_views(o.markup@) == (if n is ComponentSet {
        dedup_views(w.1[0].children)
    } else {
        w.1
    })
}

/// Walks one top-level component or component set.
pub fn component_output(
    node: &Node,
    components: &Vec<(String, Component)>,
    component_sets: &Vec<(String, ComponentSet)>,
) -> (r: ComponentOutput)
    requires
        is_component_node(node),
    ensures
        output_of(&r, node, components@, component_sets@),
{
    let parent = Frame::default();
    let mut element: Vec<Markup> = Vec::new();
    let mut css: Vec<Rule> = Vec::new();
    let mut includes: Vec<String> = Vec::new();
    proof {
        let t = top_parent();
        assert(is_blank(&parent));
        assert(exists|f: Frame| is_blank(&f));
        assert(is_blank(&t));
        assert(t.node.name@ =~= parent.node.name@);
        assert(rule_views(css@) =~= Seq::empty());
        assert(string_views(includes@) =~= Seq::empty());
        lemma_walk_parent(node, &parent, &t, components@, component_sets@, state_of(css@, includes@));
        assert(state_of(css@, includes@) == WalkState { rules: Seq::empty(), includes: Seq::empty() });
    }
    generate(node, &parent, &String::new(), &mut element, &mut css, &mut includes, false, components, component_sets);
    let ghost w = top_walk(node, components@, component_sets@);
    proof {
        crate::markup::lemma_markup_views_len(element@);
        assert(markup_views(Seq::<Markup>::empty()) == Seq::<MarkupView>::empty());
        assert(markup_views(element@) =~= w.1);
        assert(w.1[0] == markup_view(&element@[0]));
        assert(w.1[0].children == markup_views(element@[0].children@));
    }
    let markup = create_markup(element, node.is_component_set().is_some());
    ComponentOutput {
        id: node.common().id.clone(),
        name: node.common().get_name(),
        rules: css,
        markup,
        includes: dedup_strings(includes),
    }
}

/// The components and component sets among `ns`, in order.
pub open spec fn components_among(ns: Seq<Node>) -> Seq<Node>
    decreases ns.len(),
{
    if ns.len() == 0 {
        Seq::empty()
    } else if is_component_node(&ns.last()) {
        components_among(ns.drop_last()).push(ns.last())
    } else {
        components_among(ns.drop_last())
    }
}

/// The top-level components and component sets of the pages `ps`, in order.
pub open spec fn page_components(ps: Seq<Node>) -> Seq<Node>
    decreases ps.len(),
{
    if ps.len() == 0 {
        Seq::empty()
    } else {
        page_components(ps.drop_last()) + components_among(common_of(&ps.last()).children@)
    }
}

/// Token extraction over the frame-like nodes among `ns`, in order.
pub open spec fn frames_tokens(ns: Seq<Node>, t: TokenTable, styles: Seq<(String, Style)>) -> TokenTable
    decreases ns.len(),
{
    if ns.len() == 0 {
        t
    } else {
        let prev = frames_tokens(ns.drop_last(), t, styles);
        if frame_of(&ns.last()).is_some() {
            extract(&ns.last(), prev, styles)
        } else {
            prev
        }
    }
}

/// Token extraction over the top-level frames of the pages `ps`, in order.
pub open spec fn pages_tokens(ps: Seq<Node>, t: TokenTable, styles: Seq<(String, Style)>) -> TokenTable
    decreases ps.len(),
{
    if ps.len() == 0 {
        t
    } else {
        frames_tokens(common_of(&ps.last()).children@, pages_tokens(ps.drop_last(), t, styles), styles)
    }
}

/// Adds the tokens of the top-level frames of `page` to `tokens`.
fn page_tokens(page: &Node, styles: &Vec<(String, Style)>, tokens: &mut Vec<(String, Token)>)
    ensures
        table_view(final(tokens)@) == frames_tokens(common_of(page).children@, table_view(old(tokens)@), styles@),
{
    let nodes = &page.common().children;
    let ghost t0 = table_view(tokens@);
    let mut j: usize = 0;
    while j < nodes.len()
        invariant
            j <= nodes@.len(),
            nodes@ == common_of(page).children@,
            table_view(tokens@) == frames_tokens(nodes@.subrange(0, j as int), t0, styles@),
        decreases nodes@.len() - j,
    {
        assert(nodes@.subrange(0, j + 1).drop_last() == nodes@.subrange(0, j as int));
        if nodes[j].is_frame().is_some() {
            generate_tokens(&nodes[j], styles, tokens);
        }
        j = j + 1;
    }
    assert(nodes@.subrange(0, j as int) == nodes@);
}

/// Appends what each top-level component and component set of `page` yields.
fn page_outputs(
    page: &Node,
    components: &Vec<(String, Component)>,
    component_sets: &Vec<(String, ComponentSet)>,
    outputs: &mut Vec<ComponentOutput>,
)
    ensures
        final(outputs)@.len() == old(outputs)@.len() + components_among(common_of(page).children@).len(),
        forall|k: int| 0 <= k < old(outputs)@.len() ==> final(outputs)@[k] == old(outputs)@[k],
        forall|k: int|
            0 <= k < components_among(common_of(page).children@).len() ==> output_of(
                #[trigger] &final(outputs)@[old(outputs)@.len() + k],
                &components_among(common_of(page).children@)[k],
                components@,
                component_sets@,
            ),
{
    let nodes = &page.common().children;
    let ghost start = outputs@;
    let mut j: usize = 0;
    while j < nodes.len()
        invariant
            j <= nodes@.len(),
            nodes@ == common_of(page).children@,
            outputs@.len() == start.len() + components_among(nodes@.subrange(0, j as int)).len(),
            forall|k: int| 0 <= k < start.len() ==> outputs@[k] == start[k],
            forall|k: int|
                0 <= k < components_among(nodes@.subrange(0, j as int)).len() ==> output_of(
                    #[trigger] &outputs@[start.len() + k],
                    &components_among(nodes@.subrange(0, j as int))[k],
                    components@,
                    component_sets@,
                ),
        decreases nodes@.len() - j,
    {
        let ghost front = nodes@.subrange(0, j as int);
        assert(nodes@.subrange(0, j + 1).drop_last() == front);
        assert(nodes@.subrange(0, j + 1).last() == nodes@[j as int]);
        let node = &nodes[j];
        if node.is_component().is_some() || node.is_component_set().is_some() {
            let out = component_output(node, components, component_sets);
            outputs.push(out);
        }
        j = j + 1;
    }
    assert(nodes@.subrange(0, j as int) == nodes@);
}

/// The transduction of a document: the tokens of the frames of every page
/// (the first token for a style id wins), and what each top-level component
/// and component set of every page yields, in page order.
pub fn parse(
    document: &Node,
    components: &Vec<(String, Component)>,
    component_sets: &Vec<(String, ComponentSet)>,
    styles: &Vec<(String, Style)>,
) -> (r: (Vec<ComponentOutput>, Vec<(String, Token)>))
    ensures
        table_view(r.1@) == pages_tokens(common_of(document).children@, Seq::empty(), styles@),
        r.0@.len() == page_components(common_of(document).children@).len(),
        forall|k: int|
            0 <= k < r.0@.len() ==> output_of(
                #[trigger] &r.0@[k],
                &page_components(common_of(document).children@)[k],
                components@,
                component_sets@,
            ),
{
    let pages = &document.common().children;
    let mut tokens: Vec<(String, Token)> = Vec::new();
    let mut outputs: Vec<ComponentOutput> = Vec::new();
    let mut i: usize = 0;
    assert(table_view(tokens@) =~= Seq::empty());
    while i < pages.len()
        invariant
            i <= pages@.len(),
            pages@ == common_of(document).children@,
            table_view(tokens@) == pages_tokens(pages@.subrange(0, i as int), Seq::empty(), styles@),
            outputs@.len() == page_components(pages@.subrange(0, i as int)).len(),
            forall|k: int|
                0 <= k < outputs@.len() ==> output_of(
                    #[trigger] &outputs@[k],
                    &page_components(pages@.subrange(0, i as int))[k],
                    components@,
                    component_sets@,
                ),
        decreases pages@.len() - i,
    {
        let ghost front = pages@.subrange(0, i as int);
        let ghost before = outputs@;
        assert(pages@.subrange(0, i + 1).drop_last() == front);
        assert(pages@.subrange(0, i + 1).last() == pages@[i as int]);
        page_tokens(&pages[i], styles, &mut tokens);
        page_outputs(&pages[i], components, component_sets, &mut outputs);
        proof {
            let added = components_among(common_of(&pages@[i as int]).children@);
            let all = page_components(pages@.subrange(0, i + 1));
            assert(all == page_components(front) + added);
            assert forall|k: int| 0 <= k < outputs@.len() implies output_of(
                #[trigger] &outputs@[k],
                &all[k],
                components@,
                component_sets@,
            ) by {
                if k < before.len() {
                    assert(outputs@[k] == before[k]);
                } else {
                    let kk = k - before.len();
                    assert(outputs@[before.len() + kk] == outputs@[k]);
                }
            }
        }
        i = i + 1;
    }
    assert(pages@.subrange(0, i as int) == pages@);
    (outputs, tokens)
}

/// Output `x` is one that output `i` includes: its id is among the includes of `i`.
pub open spec fn includes_output(outputs: Seq<ComponentOutput>, i: int, x: int) -> bool {
    exists|m: int| 0 <= m < outputs[i].includes@.len() && outputs[x].id@ == #[trigger] outputs[i].includes@[m]@
}

/// Positions, in `outputs`, of the stylesheets that make up the stylesheet of
/// `outputs[i]`: for each of its includes that some output has as id, the
/// first such output, in the order of the includes; then `i` itself.
pub fn stylesheet_parts(outputs: &Vec<ComponentOutput>, i: usize) -> (r: Vec<usize>)
    requires
        i < outputs@.len(),
    ensures
        r@.len() >= 1,
        r@.last() == i,
        forall|k: int| 0 <= k < r@.len() ==> #[trigger] r@[k] < outputs@.len(),
        forall|k: int| 0 <= k < r@.len() - 1 ==> includes_output(outputs@, i as int, #[trigger] r@[k] as int),
{
    let mut parts: Vec<usize> = Vec::new();
    let includes = &outputs[i].includes;
    let mut m: usize = 0;
    while m < includes.len()
        invariant
            i < outputs@.len(),
            m <= includes@.len(),
            includes@ == outputs@[i as int].includes@,
            forall|k: int| 0 <= k < parts@.len() ==> #[trigger] parts@[k] < outputs@.len(),
            forall|k: int| 0 <= k < parts@.len() ==> includes_output(outputs@, i as int, #[trigger] parts@[k] as int),
        decreases includes@.len() - m,
    {
        let mut x: usize = 0;
        let mut found = false;
        while x < outputs.len() && !found
            invariant
                x <= outputs@.len(),
                m < includes@.len(),
                found ==> x < outputs@.len() && outputs@[x as int].id@ == includes@[m as int]@,
            decreases outputs@.len() - x + (if found { 0int } else { 1int }),
        {
            if outputs[x].id == includes[m] {
                found = true;
            } else {
                x = x + 1;
            }
        }
        if found {
            assert(includes_output(outputs@, i as int, x as int));
            parts.push(x);
        }
        m = m + 1;
    }
    let ghost before = parts@;
    parts.push(i);
    assert(forall|k: int| 0 <= k < parts@.len() - 1 ==> parts@[k] == before[k]);
    parts
}

} // verus!
