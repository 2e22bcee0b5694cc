use vstd::prelude::*;
use vstd::string::StringExecFns;

use crate::decls::{DeclSeq, Declarations};
use crate::frame_css::frame_css_of;
use crate::markup::{dedup_markup, dedup_views, lemma_markup_views_push, markup_view, markup_views, Markup, MarkupView};
use crate::model::{frame_of, Component, ComponentSet, Frame, Node};
use crate::names::{kebab, kebab_of, parse_name_of};
use crate::selector::{classes_of, markup_attributes_of, markup_attrs_of};
use crate::tables::{find_key, lookup};
use crate::text::{chars_of, find_char, first_index};
use crate::text_css::text_css_of;

verus! {

/// A stylesheet rule: a selector and its declarations.
#[derive(Debug)]
pub struct Rule {
    pub selector: String,
    pub declarations: Declarations,
}

/// A rule as (selector, declarations).
pub type RuleView = (Seq<char>, DeclSeq);

/// The abstract values of `rs`.
pub open spec fn rule_views(rs: Seq<Rule>) -> Seq<RuleView> {
    rs.map_values(|r: Rule| (r.selector@, r.declarations@))
}

/// The abstract values of `ss`.
pub open spec fn string_views(ss: Seq<String>) -> Seq<Seq<char>> {
    ss.map_values(|s: String| s@)
}

/// A rule for `selector` with `declarations`.
pub fn get_styles(selector: &String, declarations: Declarations) -> (r: Rule)
    ensures
        r.selector@ == selector@,
        r.declarations@ == declarations@,
{
    Rule { selector: selector.clone(), declarations }
}

/// What a walk has emitted so far: rules, and the ids of the components that
/// instances refer to.
pub struct WalkState {
    pub rules: Seq<RuleView>,
    pub includes: Seq<Seq<char>>,
}

/// Name and classes of an instance, from the component it refers to: the
/// component's name, and the classes of its set (set name and component name,
/// or one name where the two agree). Where the component is missing, the
/// instance's own name and `classes`. Also the id that the instance brings in: the set's where
/// it resolves, else the component's, none where the component is missing.
pub open spec fn identity_of(
    component_id: Seq<char>,
    own_name: Seq<char>,
    classes: Seq<char>,
    components: Seq<(String, Component)>,
    component_sets: Seq<(String, ComponentSet)>,
) -> (Seq<char>, Seq<char>, Option<Seq<char>>) {
    match lookup(components, component_id) {
        None => (own_name, classes, None),
        Some(c) => {
            if c.component_set_id@.len() > 0 && lookup(component_sets, c.component_set_id@).is_some() {
                let set = lookup(component_sets, c.component_set_id@).unwrap();
                let set_classes = if set.name@ == c.name@ {
                    parse_name_of(set.name@)
                } else {
                    parse_name_of(set.name@) + " "@ + parse_name_of(c.name@)
                };
                (c.name@, set_classes, Some(c.component_set_id@))
            } else {
                (c.name@, classes, Some(component_id))
            }
        },
    }
}

/// Resolves the name, classes and included id of an instance, see `identity_of`.
pub fn resolve_identity(
    component_id: &String,
    own_name: &String,
    classes: String,
    components: &Vec<(String, Component)>,
    component_sets: &Vec<(String, ComponentSet)>,
) -> (r: (String, String, Option<String>))
    ensures
        r.0@ == identity_of(component_id@, own_name@, classes@, components@, component_sets@).0,
        r.1@ == identity_of(component_id@, own_name@, classes@, components@, component_sets@).1,
        r.2 matches Some(s) ==> identity_of(component_id@, own_name@, classes@, components@, component_sets@).2 == Some(s@),
        r.2 is None ==> identity_of(component_id@, own_name@, classes@, components@, component_sets@).2 is None,
{
    match find_key(components, component_id) {
        None => (own_name.clone(), classes, None),
        Some(ci) => {
            let c = &components[ci].1;
            let set_index = if c.component_set_id.as_str().is_empty() {
                None
            } else {
                find_key(component_sets, &c.component_set_id)
            };
            match set_index {
                Some(si) => {
                    let set = &component_sets[si].1;
                    let set_classes = if set.name == c.name {
                        set.get_name()
                    } else {
                        set.get_name().concat(" ").concat(c.get_name().as_str())
                    };
                    (c.name.clone(), set_classes, Some(c.component_set_id.clone()))
                },
                None => (c.name.clone(), classes, Some(component_id.clone())),
            }
        },
    }
}

/// Class list of an element: for a plain name, its kebab case after
/// `classes`; for a variant name, `classes` alone.
pub open spec fn class_list(classes: Seq<char>, name: Seq<char>) -> Seq<char> {
    if first_index(name, '=') >= 0 {
        classes
    } else if classes.len() == 0 {
        kebab_of(name)
    } else {
        classes + " "@ + kebab_of(name)
    }
}

/// Attribute text of an element: its class attribute, then one attribute for
/// each variant property of its name.
pub open spec fn markup_classes_of(classes: Seq<char>, name: Seq<char>) -> Seq<char> {
    " class=\""@ + class_list(classes, name) + "\""@ + (if first_index(name, '=') < 0 {
        Seq::empty()
    } else {
        markup_attrs_of(name)
    })
}

/// Attribute text of an element, see `markup_classes_of`.
pub fn get_markup_attributes(classes: String, name: &String) -> (r: String)
    ensures
        r@ == markup_classes_of(classes@, name@),
{
    let variant = find_char(&chars_of(name.as_str()), '=').is_some();
    let list = if variant {
        classes
    } else if classes.as_str().is_empty() {
        kebab(name.as_str())
    } else {
        classes.concat(" ").concat(kebab(name.as_str()).as_str())
    };
    String::from_str(" class=\"").concat(list.as_str()).concat("\"").concat(markup_attributes_of(name).as_str())
}

pub open spec fn is_instance_node(n: &Node) -> bool {
    n is Instance
}

pub open spec fn is_set_node(n: &Node) -> bool {
    n is ComponentSet
}

/// Name, classes and included id of a frame-like node whose parent is `parent`.
pub open spec fn frame_identity(
    n: &Node,
    f: &Frame,
    parent: &Frame,
    components: Seq<(String, Component)>,
    component_sets: Seq<(String, ComponentSet)>,
) -> (Seq<char>, Seq<char>, Option<Seq<char>>) {
    let classes = if first_index(f.node.name@, '=') >= 0 { kebab_of(parent.node.name@) } else { Seq::empty() };
    match n {
        Node::Instance { component_id, .. } => identity_of(component_id@, f.node.name@, classes, components, component_sets),
        _ => (f.node.name@, classes, None),
    }
}

/// The walk of the tree rooted at `n`, laid out in `parent`, under selector
/// `prefix`: the rules and includes it adds to `st`, and its markup (one
/// element for a frame-like node, none for others). A frame-like node gets the
/// rule `prefix + its selector fragment`, unless it is a component set or
/// lies in an instance (`inst`); its text children get rules of their own
/// under it, and its other children are walked in order.
pub open spec fn walk(
    n: &Node,
    parent: &Frame,
    prefix: Seq<char>,
    inst: bool,
    components: Seq<(String, Component)>,
    component_sets: Seq<(String, ComponentSet)>,
    st: WalkState,
) -> (WalkState, Seq<MarkupView>)
    decreases n, 1nat,
{
    match frame_of(n) {
        None => (st, Seq::empty()),
        Some(f) => {
            let sel = prefix + classes_of(f.node.name@);
            let id = frame_identity(n, f, parent, components, component_sets);
            let st1 = match id.2 {
                Some(inc) => WalkState { rules: st.rules, includes: st.includes.push(inc) },
                None => st,
            };
            let st2 = if !is_set_node(n) && !inst {
                WalkState { rules: st1.rules.push((sel, frame_css_of(f, parent))), includes: st1.includes }
            } else {
                st1
            };
            let (st3, kids) = walk_children(f.node.children@, f, sel, inst, components, component_sets, st2);
            (st3, seq![MarkupView { tag: "div"@, classes: markup_classes_of(id.1, id.0), characters: Seq::empty(), children: kids }])
        },
    }
}

/// The walk of the children `cs` of frame `f` with selector `sel`, in order.
pub open spec fn walk_children(
    cs: Seq<Node>,
    f: &Frame,
    sel: Seq<char>,
    inst: bool,
    components: Seq<(String, Component)>,
    component_sets: Seq<(String, ComponentSet)>,
    st: WalkState,
) -> (WalkState, Seq<MarkupView>)
    decreases cs, 0nat,
{
    if cs.len() == 0 {
        (st, Seq::empty())
    } else {
        let (st1, ms) = walk_children(cs.subrange(0, cs.len() - 1), f, sel, inst, components, component_sets, st);
        let c = &cs[cs.len() - 1];
        match c {
            Node::Text { vector, style, characters } => {
                let st2 = if !inst {
                    WalkState {
                        rules: st1.rules.push((sel + " ."@ + kebab_of(vector.node.name@), text_css_of(vector, style))),
                        includes: st1.includes,
                    }
                } else {
                    st1
                };
                let span = MarkupView {
                    tag: "span"@,
                    classes: " class=\""@ + kebab_of(vector.node.name@) + "\""@,
                    characters: characters@,
                    children: Seq::empty(),
                };
                (st2, ms.push(span))
            },
            _ => {
                let (st2, m) = walk(c, f, sel, inst || is_instance_node(c), components, component_sets, st1);
                (st2, ms + m)
            },
        }
    }
}

/// The state of a walk that starts from the rules `css` and includes `includes`.
pub open spec fn state_of(css: Seq<Rule>, includes: Seq<String>) -> WalkState {
    WalkState { rules: rule_views(css), includes: string_views(includes) }
}

/// Walks the tree rooted at `node`, laid out in `parent_frame`, under the
/// selector `parent_classes`: appends its rules to `css`, the ids of the
/// components that its instances use to `includes`, and its markup to
/// `element`. No rule is emitted inside an instance (`is_instance`).
pub fn generate(
    node: &Node,
    parent_frame: &Frame,
    parent_classes: &String,
    element: &mut Vec<Markup>,
    css: &mut Vec<Rule>,
    includes: &mut Vec<String>,
    is_instance: bool,
    components: &Vec<(String, Component)>,
    component_sets: &Vec<(String, ComponentSet)>,
)
    ensures
        state_of(final(css)@, final(includes)@) == walk(
            node,
            parent_frame,
            parent_classes@,
            is_instance,
            components@,
            component_sets@,
            state_of(old(css)@, old(includes)@),
        ).0,
        markup_views(final(element)@) == markup_views(old(element)@) + walk(
            node,
            parent_frame,
            parent_classes@,
            is_instance,
            components@,
            component_sets@,
            state_of(old(css)@, old(includes)@),
        ).1,
    decreases node,
{
    let ghost st0 = state_of(css@, includes@);
    match node.is_frame() {
        None => {
            assert(markup_views(element@) + Seq::<MarkupView>::empty() == markup_views(element@));
        },
        Some(frame) => {
            let classes = parent_classes.clone().concat(frame.get_classes().as_str());
            let own_classes = if frame.is_variant() {
                parent_frame.get_name()
            } else {
                String::new()
            };
            let (name, variant_classes, included) = match node.is_instance() {
                Some((_, component_id)) => resolve_identity(
                    component_id,
                    &frame.node.name,
                    own_classes,
                    components,
                    component_sets,
                ),
                None => (frame.node.name.clone(), own_classes, None),
            };
            let ghost id = frame_identity(node, frame, parent_frame, components@, component_sets@);
            assert(name@ == id.0 && variant_classes@ == id.1);
            match included {
                Some(inc) => {
                    includes.push(inc);
                    assert(string_views(includes@) =~= st0.includes.push(id.2.unwrap()));
                },
                None => {},
            }
            let ghost st1 = state_of(css@, includes@);
            let mut element_markup = Markup {
                tag: String::from_str("div"),
                classes: get_markup_attributes(variant_classes, &name),
                characters: String::new(),
                children: Vec::new(),
            };
            if node.is_component_set().is_none() && !is_instance {
                let rule = get_styles(&classes, frame.css(parent_frame));
                css.push(rule);
                assert(rule_views(css@) =~= st1.rules.push((classes@, frame_css_of(frame, parent_frame))));
            }
            let ghost st2 = state_of(css@, includes@);
            let children = &frame.node.children;
            let mut j: usize = 0;
            assert(children@.subrange(0, 0) == Seq::<Node>::empty());
            assert(markup_views(element_markup.children@) == Seq::<MarkupView>::empty());
            while j < children.len()
                invariant
                    j <= children@.len(),
                    children@ == frame.node.children@,
                    frame_of(node) == Some(frame),
                    state_of(css@, includes@) == walk_children(
                        children@.subrange(0, j as int),
                        frame,
                        classes@,
                        is_instance,
                        components@,
                        component_sets@,
                        st2,
                    ).0,
                    markup_views(element_markup.children@) == walk_children(
                        children@.subrange(0, j as int),
                        frame,
                        classes@,
                        is_instance,
                        components@,
                        component_sets@,
                        st2,
                    ).1,
                    element_markup.tag@ == "div"@,
                    element_markup.classes@ == markup_classes_of(id.1, id.0),
                    element_markup.characters@ == Seq::<char>::empty(),
                decreases children@.len() - j,
            {
                let ghost front = children@.subrange(0, j as int);
                assert(children@.subrange(0, j + 1).subrange(0, j as int) == front);
                assert(children@.subrange(0, j + 1)[j as int] == children@[j as int]);
                let child = &children[j];
                match child.is_text() {
                    Some((vector, style, characters)) => {
                        let text_classes = classes.clone().concat(" .").concat(vector.get_name().as_str());
                        if !is_instance {
                            let rule = get_styles(&text_classes, vector.css(style));
                            let ghost before = css@;
                            css.push(rule);
                            assert(rule_views(css@) =~= rule_views(before).push((text_classes@, rule.declarations@)));
                        }
                        let span = Markup {
                            tag: String::from_str("span"),
                            classes: String::from_str(" class=\"").concat(vector.get_name().as_str()).concat("\""),
                            characters: characters.clone(),
                            children: Vec::new(),
                        };
                        let ghost kids = element_markup.children@;
                        assert(markup_views(span.children@) == Seq::<MarkupView>::empty());
                        element_markup.children.push(span);
                        proof {
                            lemma_markup_views_push(kids, span);
                        }
                    },
                    None => {
                        let condition = child.is_instance().is_some() || is_instance;
                        let ghost kids = element_markup.children@;
                        generate(
                            child,
                            frame,
                            &classes,
                            &mut element_markup.children,
                            css,
                            includes,
                            condition,
                            components,
                            component_sets,
                        );
                    },
                }
                j = j + 1;
            }
            assert(children@.subrange(0, j as int) == children@);
            let ghost before = element@;
            let ghost m = element_markup;
            element.push(element_markup);
            proof {
                lemma_markup_views_push(before, m);
            }
        },
    }
}

/// The markup of a component: its element, or for a component set the
/// elements of its variants with repeats removed (first occurrences kept, in order).
pub fn create_markup(values: Vec<Markup>, is_set: bool) -> (r: Vec<Markup>)
    requires
        values@.len() > 0,
    ensures
        is_set ==> markup_views(r@) == dedup_views(markup_views(values@[0].children@)),
        !is_set ==> markup_views(r@) == seq![markup_view(&values@[0])],
{
    let mut values = values;
    let first = values.remove(0);
    if is_set {
        dedup_markup(first.children)
    } else {
        let ghost m = first;
        let mut out: Vec<Markup> = Vec::new();
        out.push(first);
        proof {
            lemma_markup_views_push(Seq::empty(), m);
            assert(Seq::<Markup>::empty().push(m) == out@);
        }
        out
    }
}

/// Inside an instance no rule is emitted: walking a subtree whose root lies in
/// an instance leaves the rules as they were, whatever the nodes hold.
pub proof fn lemma_instance_suppression(
    n: &Node,
    parent: &Frame,
    prefix: Seq<char>,
    components: Seq<(String, Component)>,
    component_sets: Seq<(String, ComponentSet)>,
    st: WalkState,
)
    ensures
        walk(n, parent, prefix, true, components, component_sets, st).0.rules == st.rules,
    decreases n, 1nat,
{
    match frame_of(n) {
        None => {},
        Some(f) => {
            let sel = prefix + classes_of(f.node.name@);
            let id = frame_identity(n, f, parent, components, component_sets);
            let st1 = match id.2 {
                Some(inc) => WalkState { rules: st.rules, includes: st.includes.push(inc) },
                None => st,
            };
            lemma_children_suppression(f.node.children@, f, sel, components, component_sets, st1);
        },
    }
}

proof fn lemma_children_suppression(
    cs: Seq<Node>,
    f: &Frame,
    sel: Seq<char>,
    components: Seq<(String, Component)>,
    component_sets: Seq<(String, ComponentSet)>,
    st: WalkState,
)
    ensures
        walk_children(cs, f, sel, true, components, component_sets, st).0.rules == st.rules,
    decreases cs, 0nat,
{
    if cs.len() > 0 {
        let front = cs.subrange(0, cs.len() - 1);
        lemma_children_suppression(front, f, sel, components, component_sets, st);
        let st1 = walk_children(front, f, sel, true, components, component_sets, st).0;
        let c = &cs[cs.len() - 1];
        lemma_instance_suppression(c, f, sel, components, component_sets, st1);
    }
}

} // verus!
