//! General properties of the grammar, stated and proved once for all
//! inputs. The concrete scenarios of single inputs live in the test suite.

use vstd::prelude::*;
use crate::ast::ParseNodeView;
use crate::grammar;

verus! {

/// A run of identifier characters that ends at `e` scans exactly to `e`.
proof fn lemma_ident_end_run(s: Seq<char>, i: int, e: int)
    requires
        0 <= i <= e <= s.len(),
        forall|k: int| i <= k < e ==> grammar::is_ident_char(s[k]),
        e == s.len() || !grammar::is_ident_char(s[e]),
    ensures
        grammar::ident_end(s, i) == e,
    decreases e - i,
{
    if i < e {
        lemma_ident_end_run(s, i + 1, e);
    }
}

/// Every input of the shape `#define <ident>\n` — the keyword, one space,
/// any identifier, a line break — parses as a define that captures the
/// identifier as its name and no value.
pub proof fn lemma_define_without_value(s: Seq<char>, id: Seq<char>)
    requires
        id.len() > 0,
        grammar::is_ident_start(id[0]),
        forall|k: int| 0 <= k < id.len() ==> grammar::is_ident_char(id[k]),
        s.len() == id.len() + 9,
        s[0] == '#',
        s[1] == 'd',
        s[2] == 'e',
        s[3] == 'f',
        s[4] == 'i',
        s[5] == 'n',
        s[6] == 'e',
        s[7] == ' ',
        forall|k: int| 0 <= k < id.len() ==> s[8 + k] == id[k],
        s[s.len() - 1] == '\n',
    ensures
        grammar::define_at(s, 0) == Some((id, None::<Seq<char>>, s.len() - 1)),
{
    assert(grammar::at_kw_define(s, 0));
    assert(s[8 + 0int] == id[0int]);
    assert(!grammar::is_inline_ws(s[8]));
    assert(grammar::inline_ws_end(s, 8) == 8);
    assert(grammar::inline_ws_end(s, 7) == 8);
    assert forall|k: int| 8 <= k < 8 + id.len() implies grammar::is_ident_char(s[k]) by {
        assert(s[8 + (k - 8)] == id[k - 8]);
    }
    lemma_ident_end_run(s, 8, 8 + id.len() as int);
    assert(s.subrange(8, 8 + id.len() as int) =~= id);
    assert(grammar::inline_ws_end(s, 8 + id.len() as int) == 8 + id.len() as int);
    assert(s[8 + id.len() as int] == '\n');
}

/// An input of the shape `#define<ident>\n`, with no whitespace between the
/// keyword and the identifier, is not a define.
pub proof fn lemma_define_needs_separator(s: Seq<char>, id: Seq<char>)
    requires
        id.len() > 0,
        grammar::is_ident_start(id[0]),
        forall|k: int| 0 <= k < id.len() ==> grammar::is_ident_char(id[k]),
        s.len() == id.len() + 8,
        s[0] == '#',
        s[1] == 'd',
        s[2] == 'e',
        s[3] == 'f',
        s[4] == 'i',
        s[5] == 'n',
        s[6] == 'e',
        forall|k: int| 0 <= k < id.len() ==> s[7 + k] == id[k],
        s[s.len() - 1] == '\n',
    ensures
        grammar::define_at(s, 0) is None,
{
    assert(s[7] == id[0]);
    assert(!grammar::is_inline_ws(s[7]));
}

/// A block comment is terminated at the nearest `*/`: where the scan
/// reports a closer, it is a real `*/` and no earlier position holds one —
/// any `/*` inside the span has no effect — and where it reports none, the
/// rest of the text holds no `*/` at all, so an unterminated block comment
/// fails the comment rule.
pub proof fn lemma_block_close_nearest(s: Seq<char>, i: int)
    requires
        0 <= i <= s.len(),
    ensures
        match grammar::block_close_from(s, i) {
            Some(j) => {
                &&& i + 2 <= j <= s.len()
                &&& s[j - 2] == '*'
                &&& s[j - 1] == '/'
                &&& forall|k: int| i <= k < j - 2 ==> !(#[trigger] s[k] == '*' && s[k + 1] == '/')
            },
            None => forall|k: int| i <= k && k + 2 <= s.len() ==> !(#[trigger] s[k] == '*' && s[k + 1] == '/'),
        },
    decreases s.len() - i,
{
    if i + 2 <= s.len() && s[i] == '*' && s[i + 1] == '/' {
    } else if i < s.len() {
        lemma_block_close_nearest(s, i + 1);
    }
}

/// A line comment spans exactly to the end of the line (or of the input):
/// the span holds no line break, whatever else — `/*` or `*/` included —
/// stands in it.
pub proof fn lemma_line_comment_spans_line(s: Seq<char>, i: int)
    requires
        0 <= i,
        i + 2 <= s.len(),
        s[i] == '/',
        s[i + 1] == '/',
    ensures
        grammar::comment_end(s, i) matches Some(j) && {
            &&& i + 2 <= j <= s.len()
            &&& forall|k: int| i + 2 <= k < j ==> s[k] != '\n'
            &&& j == s.len() || s[j] == '\n'
        },
{
    lemma_eol_first_break(s, i + 2);
}

/// `eol_at` finds the first line break at or after `i`.
proof fn lemma_eol_first_break(s: Seq<char>, i: int)
    requires
        0 <= i <= s.len(),
    ensures
        i <= grammar::eol_at(s, i) <= s.len(),
        forall|k: int| i <= k < grammar::eol_at(s, i) ==> s[k] != '\n',
        grammar::eol_at(s, i) == s.len() || s[grammar::eol_at(s, i)] == '\n',
    decreases s.len() - i,
{
    if i < s.len() && s[i] != '\n' {
        lemma_eol_first_break(s, i + 1);
    }
}

/// The classification rule, at the level of one parsed typedef: it
/// contributes its new name exactly when its right-hand side is directly a
/// struct or union definition. What its fields hold — nested anonymous
/// definitions included — plays no part, and no other name is emitted.
pub proof fn lemma_classification_rule(td: crate::ast::TypedefNodeView)
    ensures
        grammar::complex_names(seq![ParseNodeView::Typedef(td)]) == (if td.old_type.is_complex() {
            seq![td.new_name]
        } else {
            Seq::<Seq<char>>::empty()
        }),
{
    let nodes = seq![ParseNodeView::Typedef(td)];
    assert(nodes.len() == 1);
    assert(nodes[0] == ParseNodeView::Typedef(td));
    assert(nodes.drop_first() =~= Seq::<ParseNodeView>::empty());
    assert(grammar::complex_names(nodes.drop_first()) =~= Seq::<Seq<char>>::empty());
    if td.old_type.is_complex() {
        assert(seq![td.new_name] + Seq::<Seq<char>>::empty() =~= seq![td.new_name]);
    }
}

/// Extraction preserves declaration order: the names drawn from a
/// concatenation of items are the names of the first part followed by the
/// names of the second.
pub proof fn lemma_complex_names_append(a: Seq<ParseNodeView>, b: Seq<ParseNodeView>)
    ensures
        grammar::complex_names(a + b) == grammar::complex_names(a) + grammar::complex_names(b),
    decreases a.len(),
{
    if a.len() == 0 {
        assert(a + b =~= b);
        assert(grammar::complex_names(a) + grammar::complex_names(b) =~= grammar::complex_names(
            b,
        ));
    } else {
        lemma_complex_names_append(a.drop_first(), b);
        assert((a + b).drop_first() =~= a.drop_first() + b);
        assert((a + b)[0] == a[0]);
        match a[0] {
            ParseNodeView::Typedef(td) => {
                if td.old_type.is_complex() {
                    assert(seq![td.new_name] + (grammar::complex_names(a.drop_first())
                        + grammar::complex_names(b)) =~= (seq![td.new_name]
                        + grammar::complex_names(a.drop_first())) + grammar::complex_names(b));
                }
            },
            _ => {},
        }
    }
}

/// Parsing is a pure function of the text: any two results that the parse
/// of one and the same text admits are identical, trees and name lists
/// alike. Together with the parser's contract — its result equals the
/// grammar's — this is the statement that parsing twice changes nothing.
pub proof fn lemma_parse_deterministic(
    s: Seq<char>,
    r1: Option<Seq<ParseNodeView>>,
    r2: Option<Seq<ParseNodeView>>,
)
    requires
        r1 == grammar::file_items(s),
        r2 == grammar::file_items(s),
    ensures
        r1 == r2,
        (match (r1, r2) {
            (Some(n1), Some(n2)) => grammar::complex_names(n1) == grammar::complex_names(n2),
            _ => true,
        }),
{
}

} // verus!
