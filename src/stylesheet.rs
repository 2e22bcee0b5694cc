use lightningcss::printer::PrinterOptions;
use lightningcss::stylesheet::{MinifyOptions, ParserOptions, StyleSheet};
use vstd::prelude::*;
use vstd::string::StringExecFns;

use crate::decls::DeclSeq;
use crate::emit::{rule_views, Rule, RuleView};

verus! {

/// The minified form of a stylesheet's text.
pub uninterp spec fn minified_of(css: Seq<char>) -> Seq<char>;

/// Relies on lightningcss's `StyleSheet::parse`, `minify` and `to_css` with
/// default options: where all three succeed, the text they print depends on
/// the input text alone. Any of their errors gives `None`.
#[verifier::external_body]
fn minify(css: &str) -> (r: Option<String>)
    ensures
        r matches Some(t) ==> t@ == minified_of(css@),
{
    let mut sheet = match StyleSheet::parse(css, ParserOptions::default()) {
        Ok(sheet) => sheet,
        Err(_) => return None,
    };
    if sheet.minify(MinifyOptions::default()).is_err() {
        return None;
    }
    sheet.to_css(PrinterOptions::default()).ok().map(|res| res.code)
}

/// Declarations as CSS text: ` property: value;` for each, in order.
pub open spec fn decls_text(d: DeclSeq) -> Seq<char>
    decreases d.len(),
{
    if d.len() == 0 {
        Seq::empty()
    } else {
        decls_text(d.drop_last()) + " "@ + d.last().0 + ": "@ + d.last().1 + ";"@
    }
}

/// A rule as CSS text: `selector { property: value; }`.
pub open spec fn rule_text(r: RuleView) -> Seq<char> {
    r.0 + " {"@ + decls_text(r.1) + " }"@
}

/// Rules as CSS text, one line each.
pub open spec fn rules_text(rs: Seq<RuleView>) -> Seq<char>
    decreases rs.len(),
{
    if rs.len() == 0 {
        Seq::empty()
    } else {
        rules_text(rs.drop_last()) + rule_text(rs.last()) + "\n"@
    }
}

/// A rule as CSS text, see `rule_text`.
pub fn rule_css(rule: &Rule) -> (r: String)
    ensures
        r@ == rule_text((rule.selector@, rule.declarations@)),
{
    let entries = &rule.declarations.entries;
    let mut body = String::new();
    let mut i: usize = 0;
    while i < entries.len()
        invariant
            i <= entries@.len(),
            entries@ == rule.declarations.entries@,
            body@ == decls_text(rule.declarations@.subrange(0, i as int)),
        decreases entries@.len() - i,
    {
        assert(rule.declarations@.subrange(0, i + 1).drop_last() == rule.declarations@.subrange(0, i as int));
        body = body.concat(" ").concat(entries[i].0.as_str()).concat(": ").concat(entries[i].1.as_str()).concat(";");
        i = i + 1;
    }
    assert(rule.declarations@.subrange(0, i as int) == rule.declarations@);
    rule.selector.clone().concat(" {").concat(body.as_str()).concat(" }")
}

/// Rules as CSS text, see `rules_text`.
pub fn stylesheet_text(rules: &Vec<Rule>) -> (r: String)
    ensures
        r@ == rules_text(rule_views(rules@)),
{
    let mut out = String::new();
    let mut i: usize = 0;
    while i < rules.len()
        invariant
            i <= rules@.len(),
            out@ == rules_text(rule_views(rules@.subrange(0, i as int))),
        decreases rules@.len() - i,
    {
        assert(rule_views(rules@.subrange(0, i + 1)).drop_last() == rule_views(rules@.subrange(0, i as int)));
        out = out.concat(rule_css(&rules[i]).as_str()).concat("\n");
        i = i + 1;
    }
    assert(rules@.subrange(0, i as int) == rules@);
    out
}

/// The minified stylesheet of `rules`; `None` where it cannot be minified.
pub fn create_css(rules: &Vec<Rule>) -> (r: Option<String>)
    ensures
        r matches Some(t) ==> t@ == minified_of(rules_text(rule_views(rules@))),
{
    let text = stylesheet_text(rules);
    minify(text.as_str())
}

} // verus!
