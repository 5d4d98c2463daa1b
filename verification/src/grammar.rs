//! The grammar, as ghost recursive-descent functions over `Seq<char>`.
//!
//! Every function takes the whole text and a start position and returns
//! `None` where the construct does not match there, or the parsed view
//! together with the position just past the matched span. These functions
//! are the reference the executable parser (`crate::parser`) is proved
//! against; they are deterministic, so parsing is a pure function of the
//! text alone.
//!
//! Positions handed onward are guarded (`i < j <= s.len()`) so that each
//! recursion visibly advances; the guards never fail on the values the
//! scanning helpers actually return.

use vstd::prelude::*;
use crate::ast::{ArrayIndexView, FieldDeclView, ParseNodeView, TypeDescriptorView,
    TypedefNodeView};

verus! {

/// Horizontal whitespace, legal between the tokens of one directive line.
pub open spec fn is_inline_ws(c: char) -> bool {
    c == ' ' || c == '\t' || c == '\r'
}

/// Whitespace anywhere between top-level tokens.
pub open spec fn is_ws(c: char) -> bool {
    is_inline_ws(c) || c == '\n'
}

pub open spec fn is_digit(c: char) -> bool {
    '0' <= c && c <= '9'
}

pub open spec fn is_ident_start(c: char) -> bool {
    ('a' <= c && c <= 'z') || ('A' <= c && c <= 'Z') || c == '_'
}

pub open spec fn is_ident_char(c: char) -> bool {
    is_ident_start(c) || is_digit(c)
}

/// The single trailing letter a numeric array bound may carry.
pub open spec fn is_suffix_letter(c: char) -> bool {
    c == 'u' || c == 'U' || c == 'l' || c == 'L'
}

/// End of the run of identifier characters starting at `i`.
pub open spec fn ident_end(s: Seq<char>, i: int) -> int
    decreases s.len() - i,
{
    if 0 <= i < s.len() && is_ident_char(s[i]) {
        ident_end(s, i + 1)
    } else {
        i
    }
}

/// End of the run of decimal digits starting at `i`.
pub open spec fn digits_end(s: Seq<char>, i: int) -> int
    decreases s.len() - i,
{
    if 0 <= i < s.len() && is_digit(s[i]) {
        digits_end(s, i + 1)
    } else {
        i
    }
}

/// End of the run of horizontal whitespace starting at `i`.
pub open spec fn inline_ws_end(s: Seq<char>, i: int) -> int
    decreases s.len() - i,
{
    if 0 <= i < s.len() && is_inline_ws(s[i]) {
        inline_ws_end(s, i + 1)
    } else {
        i
    }
}

/// Position of the next line break at or after `i`, or the end of input.
pub open spec fn eol_at(s: Seq<char>, i: int) -> int
    decreases s.len() - i,
{
    if 0 <= i < s.len() && s[i] != '\n' {
        eol_at(s, i + 1)
    } else {
        i
    }
}

/// Characters allowed inside a filename: anything but a quote or a line
/// break (escaped path separators pass through unchanged).
pub open spec fn is_filename_char(c: char) -> bool {
    c != '"' && c != '\n' && c != '\r'
}

/// End of the run of filename characters starting at `i`.
pub open spec fn filename_end(s: Seq<char>, i: int) -> int
    decreases s.len() - i,
{
    if 0 <= i < s.len() && is_filename_char(s[i]) {
        filename_end(s, i + 1)
    } else {
        i
    }
}

/// Position just past the nearest `*/` at or after `i`, or `None` if the
/// text ends first. Taking the nearest closer is what makes block comments
/// non-nesting.
pub open spec fn block_close_from(s: Seq<char>, i: int) -> Option<int>
    decreases s.len() - i,
{
    if 0 <= i && i + 2 <= s.len() && s[i] == '*' && s[i + 1] == '/' {
        Some(i + 2)
    } else if 0 <= i < s.len() {
        block_close_from(s, i + 1)
    } else {
        None
    }
}

/// A single comment starting at `i`: a block comment `/* ... */` closed at
/// the nearest `*/` (it must be closed), or a line comment `//` running to
/// the end of the line or of the input. Returns the position just past it.
pub open spec fn comment_end(s: Seq<char>, i: int) -> Option<int> {
    if 0 <= i && i + 2 <= s.len() && s[i] == '/' && s[i + 1] == '*' {
        block_close_from(s, i + 2)
    } else if 0 <= i && i + 2 <= s.len() && s[i] == '/' && s[i + 1] == '/' {
        Some(eol_at(s, i + 2))
    } else {
        None
    }
}

/// End of the run of insignificant text (whitespace and comments) starting
/// at `i`. `None` exactly where an unterminated block comment begins there.
pub open spec fn trivia_end(s: Seq<char>, i: int) -> Option<int>
    decreases s.len() - i,
{
    if 0 <= i < s.len() && is_ws(s[i]) {
        trivia_end(s, i + 1)
    } else if 0 <= i && i + 2 <= s.len() && s[i] == '/' && (s[i + 1] == '*' || s[i + 1] == '/') {
        match comment_end(s, i) {
            Some(j) => if i < j <= s.len() {
                trivia_end(s, j)
            } else {
                None
            },
            None => None,
        }
    } else {
        Some(i)
    }
}

/// `#define` spelled out at `i`.
pub open spec fn at_kw_define(s: Seq<char>, i: int) -> bool {
    &&& 0 <= i
    &&& i + 7 <= s.len()
    &&& s[i] == '#'
    &&& s[i + 1] == 'd'
    &&& s[i + 2] == 'e'
    &&& s[i + 3] == 'f'
    &&& s[i + 4] == 'i'
    &&& s[i + 5] == 'n'
    &&& s[i + 6] == 'e'
}

/// `#line` spelled out at `i`.
pub open spec fn at_kw_line(s: Seq<char>, i: int) -> bool {
    &&& 0 <= i
    &&& i + 5 <= s.len()
    &&& s[i] == '#'
    &&& s[i + 1] == 'l'
    &&& s[i + 2] == 'i'
    &&& s[i + 3] == 'n'
    &&& s[i + 4] == 'e'
}

/// `#pragma` spelled out at `i`.
pub open spec fn at_kw_pragma(s: Seq<char>, i: int) -> bool {
    &&& 0 <= i
    &&& i + 7 <= s.len()
    &&& s[i] == '#'
    &&& s[i + 1] == 'p'
    &&& s[i + 2] == 'r'
    &&& s[i + 3] == 'a'
    &&& s[i + 4] == 'g'
    &&& s[i + 5] == 'm'
    &&& s[i + 6] == 'a'
}

/// `typedef` spelled out at `i`, with no identifier character following.
pub open spec fn at_kw_typedef(s: Seq<char>, i: int) -> bool {
    &&& 0 <= i
    &&& i + 7 <= s.len()
    &&& s[i] == 't'
    &&& s[i + 1] == 'y'
    &&& s[i + 2] == 'p'
    &&& s[i + 3] == 'e'
    &&& s[i + 4] == 'd'
    &&& s[i + 5] == 'e'
    &&& s[i + 6] == 'f'
    &&& (i + 7 == s.len() || !is_ident_char(s[i + 7]))
}

/// `struct` spelled out at `i`, with no identifier character following.
pub open spec fn at_kw_struct(s: Seq<char>, i: int) -> bool {
    &&& 0 <= i
    &&& i + 6 <= s.len()
    &&& s[i] == 's'
    &&& s[i + 1] == 't'
    &&& s[i + 2] == 'r'
    &&& s[i + 3] == 'u'
    &&& s[i + 4] == 'c'
    &&& s[i + 5] == 't'
    &&& (i + 6 == s.len() || !is_ident_char(s[i + 6]))
}

/// `union` spelled out at `i`, with no identifier character following.
pub open spec fn at_kw_union(s: Seq<char>, i: int) -> bool {
    &&& 0 <= i
    &&& i + 5 <= s.len()
    &&& s[i] == 'u'
    &&& s[i + 1] == 'n'
    &&& s[i + 2] == 'i'
    &&& s[i + 3] == 'o'
    &&& s[i + 4] == 'n'
    &&& (i + 5 == s.len() || !is_ident_char(s[i + 5]))
}

/// The keyword that opens a C-linkage wrapper, spelled out at `i`, with no
/// identifier character following.
pub open spec fn at_kw_linkage(s: Seq<char>, i: int) -> bool {
    &&& 0 <= i
    &&& i + 6 <= s.len()
    &&& s[i] == 'e'
    &&& s[i + 1] == 'x'
    &&& s[i + 2] == 't'
    &&& s[i + 3] == 'e'
    &&& s[i + 4] == 'r'
    &&& s[i + 5] == 'n'
    &&& (i + 6 == s.len() || !is_ident_char(s[i + 6]))
}

/// An identifier starting at `i`: its characters and the position past it.
pub open spec fn ident_at(s: Seq<char>, i: int) -> Option<(Seq<char>, int)> {
    if 0 <= i < s.len() && is_ident_start(s[i]) {
        Some((s.subrange(i, ident_end(s, i)), ident_end(s, i)))
    } else {
        None
    }
}

/// `#define <name> [<value>]` at `i`. At least one horizontal whitespace
/// character must separate the keyword from the name. The value, when the
/// rest of the line is not blank, is the raw text up to the line break
/// (exclusive), which is also where the match ends; a blank rest of line
/// captures no value and the match ends before the line break. The
/// boundary is deliberately the line break alone: a value absorbs
/// everything else on its line, even text that looks like a further
/// declaration.
pub open spec fn define_at(s: Seq<char>, i: int) -> Option<(Seq<char>, Option<Seq<char>>, int)> {
    if at_kw_define(s, i) && i + 7 < s.len() && is_inline_ws(s[i + 7]) {
        let b = inline_ws_end(s, i + 7);
        match ident_at(s, b) {
            Some((name, e)) => {
                let v = inline_ws_end(s, e);
                if v == s.len() || s[v] == '\n' {
                    Some((name, None, v))
                } else {
                    Some((name, Some(s.subrange(v, eol_at(s, v))), eol_at(s, v)))
                }
            },
            None => None,
        }
    } else {
        None
    }
}

/// `#line <number> "<filename>"` at `i`: the digits, the quoted filename,
/// and the position past the closing quote.
pub open spec fn line_marker_at(s: Seq<char>, i: int) -> Option<(Seq<char>, Seq<char>, int)> {
    if at_kw_line(s, i) && i + 5 < s.len() && is_inline_ws(s[i + 5]) {
        let b = inline_ws_end(s, i + 5);
        if b < s.len() && is_digit(s[b]) {
            let d = digits_end(s, b);
            let q = inline_ws_end(s, d);
            if q < s.len() && s[q] == '"' {
                let fe = filename_end(s, q + 1);
                if fe > q + 1 && fe < s.len() && s[fe] == '"' {
                    Some((s.subrange(b, d), s.subrange(q + 1, fe), fe + 1))
                } else {
                    None
                }
            } else {
                None
            }
        } else {
            None
        }
    } else {
        None
    }
}

/// `#pragma <raw text>` at `i`, recognised and skipped to the end of the
/// line (exclusive) or of the input.
pub open spec fn pragma_at(s: Seq<char>, i: int) -> Option<int> {
    if at_kw_pragma(s, i) {
        if i + 7 == s.len() {
            Some(i + 7)
        } else if is_inline_ws(s[i + 7]) || s[i + 7] == '\n' {
            Some(eol_at(s, i + 7))
        } else {
            None
        }
    } else {
        None
    }
}

/// The opener of a C-linkage wrapper block at `i`: the linkage keyword, the
/// quoted language name `"C"`, and `{`. The matching closer is not part of
/// the construct: the wrapper is a transparent container and a stray `}` is
/// skipped at top level instead.
pub open spec fn block_wrapper_at(s: Seq<char>, i: int) -> Option<int> {
    if at_kw_linkage(s, i) {
        match trivia_end(s, i + 6) {
            Some(t) => if 0 <= t && t + 3 <= s.len() && s[t] == '"' && s[t + 1] == 'C' && s[t + 2]
                == '"' {
                match trivia_end(s, t + 3) {
                    Some(u) => if u < s.len() && s[u] == '{' {
                        Some(u + 1)
                    } else {
                        None
                    },
                    None => None,
                }
            } else {
                None
            },
            None => None,
        }
    } else {
        None
    }
}

/// An array bound at `i`: a digit run with an optional single suffix
/// letter, the same wrapped in one layer of parentheses, or a bare
/// identifier standing for a `#define`d constant.
pub open spec fn array_index_at(s: Seq<char>, i: int) -> Option<(ArrayIndexView, int)> {
    if 0 <= i < s.len() && is_digit(s[i]) {
        let d = digits_end(s, i);
        if d < s.len() && is_suffix_letter(s[d]) {
            Some((ArrayIndexView::Numeric {
                digits: s.subrange(i, d),
                suffix: Some(s[d]),
                parenthesized: false,
            }, d + 1))
        } else {
            Some((ArrayIndexView::Numeric {
                digits: s.subrange(i, d),
                suffix: None,
                parenthesized: false,
            }, d))
        }
    } else if 0 <= i < s.len() && s[i] == '(' {
        match trivia_end(s, i + 1) {
            Some(b) => if b < s.len() && is_digit(s[b]) {
                let d = digits_end(s, b);
                let p = if d < s.len() && is_suffix_letter(s[d]) {
                    d + 1
                } else {
                    d
                };
                let sfx = if d < s.len() && is_suffix_letter(s[d]) {
                    Some(s[d])
                } else {
                    None
                };
                match trivia_end(s, p) {
                    Some(c) => if c < s.len() && s[c] == ')' {
                        Some((ArrayIndexView::Numeric {
                            digits: s.subrange(b, d),
                            suffix: sfx,
                            parenthesized: true,
                        }, c + 1))
                    } else {
                        None
                    },
                    None => None,
                }
            } else {
                None
            },
            None => None,
        }
    } else {
        match ident_at(s, i) {
            Some((name, e)) => Some((ArrayIndexView::MacroRef { name }, e)),
            None => None,
        }
    }
}

/// `[ <array_index> ]` at `i`.
pub open spec fn array_suffix_at(s: Seq<char>, i: int) -> Option<(ArrayIndexView, int)> {
    if 0 <= i < s.len() && s[i] == '[' {
        match trivia_end(s, i + 1) {
            Some(b) => match array_index_at(s, b) {
                Some((idx, e)) => match trivia_end(s, e) {
                    Some(c) => if c < s.len() && s[c] == ']' {
                        Some((idx, c + 1))
                    } else {
                        None
                    },
                    None => None,
                },
                None => None,
            },
            None => None,
        }
    } else {
        None
    }
}

/// A struct or union definition at `i`: the keyword, an optional tag, and a
/// braced, non-empty field list. Returns the descriptor and the position
/// past the closing `}`.
pub open spec fn complex_at(s: Seq<char>, i: int) -> Option<(TypeDescriptorView, int)>
    decreases s.len() - i, 0int,
{
    let kind = if at_kw_struct(s, i) {
        Some((true, i + 6))
    } else if at_kw_union(s, i) {
        Some((false, i + 5))
    } else {
        None
    };
    match kind {
        Some((is_struct, k)) => match trivia_end(s, k) {
            Some(t) => {
                let tagged = match ident_at(s, t) {
                    Some((tg, e)) => match trivia_end(s, e) {
                        Some(t2) => Some((Some(tg), t2)),
                        None => None,
                    },
                    None => Some((None::<Seq<char>>, t)),
                };
                match tagged {
                    Some((tag, t2)) => if t2 < s.len() && s[t2] == '{' {
                        match trivia_end(s, t2 + 1) {
                            Some(b) => if i < b <= s.len() {
                                match fields_at(s, b) {
                                    Some((fields, e)) => Some((
                                        if is_struct {
                                            TypeDescriptorView::StructDef { tag, fields }
                                        } else {
                                            TypeDescriptorView::UnionDef { tag, fields }
                                        },
                                        e,
                                    )),
                                    None => None,
                                }
                            } else {
                                None
                            },
                            None => None,
                        }
                    } else {
                        None
                    },
                    None => None,
                }
            },
            None => None,
        },
        None => None,
    }
}

/// One or more field declarations followed by the closing `}` of the
/// enclosing body, starting at `i` (which must already sit on the first
/// field). Returns the fields and the position past the `}`.
pub open spec fn fields_at(s: Seq<char>, i: int) -> Option<(Seq<FieldDeclView>, int)>
    decreases s.len() - i, 2int,
{
    match field_at(s, i) {
        Some((f, j)) => match trivia_end(s, j) {
            Some(t) => if t < s.len() && s[t] == '}' {
                Some((seq![f], t + 1))
            } else if i < t <= s.len() {
                match fields_at(s, t) {
                    Some((rest, e)) => Some((seq![f] + rest, e)),
                    None => None,
                }
            } else {
                None
            },
            None => None,
        },
        None => None,
    }
}

/// One field declaration at `i`: a nested struct/union definition or a
/// plain type reference, the field name, an optional array suffix, and the
/// terminating `;`. Returns the field and the position past the `;`.
pub open spec fn field_at(s: Seq<char>, i: int) -> Option<(FieldDeclView, int)>
    decreases s.len() - i, 1int,
{
    let ty = match complex_at(s, i) {
        Some((td, j)) => Some((td, j)),
        None => match ident_at(s, i) {
            Some((name, j)) => Some((TypeDescriptorView::SimpleRef { name }, j)),
            None => None,
        },
    };
    match ty {
        Some((field_type, j)) => match trivia_end(s, j) {
            Some(t) => match ident_at(s, t) {
                Some((field_name, k)) => match trivia_end(s, k) {
                    Some(t2) => {
                        let suffixed = if t2 < s.len() && s[t2] == '[' {
                            match array_suffix_at(s, t2) {
                                Some((idx, m)) => match trivia_end(s, m) {
                                    Some(t3) => Some((Some(idx), t3)),
                                    None => None,
                                },
                                None => None,
                            }
                        } else {
                            Some((None::<ArrayIndexView>, t2))
                        };
                        match suffixed {
                            Some((array_suffix, t3)) => if t3 < s.len() && s[t3] == ';' {
                                Some((FieldDeclView { field_type, field_name, array_suffix },
                                    t3 + 1))
                            } else {
                                None
                            },
                            None => None,
                        }
                    },
                    None => None,
                },
                None => None,
            },
            None => None,
        },
        None => None,
    }
}

/// A whole `typedef` declaration at `i`, in one of the shapes
/// `typedef struct [tag] { fields } name ;`,
/// `typedef union [tag] { fields } name ;`, or
/// `typedef <type> <name> [bound]? ;`. Returns the node and the position
/// past the `;`.
pub open spec fn typedef_at(s: Seq<char>, i: int) -> Option<(TypedefNodeView, int)> {
    if at_kw_typedef(s, i) {
        match trivia_end(s, i + 7) {
            Some(t) => match complex_at(s, t) {
                Some((old_type, j)) => match trivia_end(s, j) {
                    Some(t2) => match ident_at(s, t2) {
                        Some((new_name, k)) => match trivia_end(s, k) {
                            Some(t3) => if t3 < s.len() && s[t3] == ';' {
                                Some((TypedefNodeView { old_type, new_name }, t3 + 1))
                            } else {
                                None
                            },
                            None => None,
                        },
                        None => None,
                    },
                    None => None,
                },
                None => simple_typedef_at(s, t),
            },
            None => None,
        }
    } else {
        None
    }
}

/// The simple-alias and array-alias typedef shapes, after the `typedef`
/// keyword and its trailing trivia.
pub open spec fn simple_typedef_at(s: Seq<char>, t: int) -> Option<(TypedefNodeView, int)> {
    match ident_at(s, t) {
        Some((ty_name, j)) => match trivia_end(s, j) {
            Some(t2) => match ident_at(s, t2) {
                Some((new_name, k)) => match trivia_end(s, k) {
                    Some(t3) => if t3 < s.len() && s[t3] == '[' {
                        match array_suffix_at(s, t3) {
                            Some((idx, m)) => match trivia_end(s, m) {
                                Some(t4) => if t4 < s.len() && s[t4] == ';' {
                                    Some((TypedefNodeView {
                                        old_type: TypeDescriptorView::ArrayOf {
                                            element_name: ty_name,
                                            index: idx,
                                        },
                                        new_name,
                                    }, t4 + 1))
                                } else {
                                    None
                                },
                                None => None,
                            },
                            None => None,
                        }
                    } else if t3 < s.len() && s[t3] == ';' {
                        Some((TypedefNodeView {
                            old_type: TypeDescriptorView::SimpleRef { name: ty_name },
                            new_name,
                        }, t3 + 1))
                    } else {
                        None
                    },
                    None => None,
                },
                None => None,
            },
            None => None,
        },
        None => None,
    }
}

/// A `#line` marker or a `#pragma` at `i`: one directive-line rule covers
/// both, as both are recognised and skipped.
pub open spec fn p_line_at(s: Seq<char>, i: int) -> Option<(ParseNodeView, int)> {
    match line_marker_at(s, i) {
        Some((number, filename, j)) => Some((ParseNodeView::Line { number, filename }, j)),
        None => match pragma_at(s, i) {
            Some(j) => Some((ParseNodeView::Pragma, j)),
            None => None,
        },
    }
}

/// One top-level item at `i` (which must sit on a token). A stray `}` — the
/// closer of a wrapper block — is consumed without yielding a node.
pub open spec fn item_at(s: Seq<char>, i: int) -> Option<(Option<ParseNodeView>, int)> {
    match typedef_at(s, i) {
        Some((td, j)) => Some((Some(ParseNodeView::Typedef(td)), j)),
        None => match define_at(s, i) {
            Some((name, value, j)) => Some((Some(ParseNodeView::Define { name, value }), j)),
            None => match p_line_at(s, i) {
                Some((node, j)) => Some((Some(node), j)),
                None => match block_wrapper_at(s, i) {
                    Some(j) => Some((Some(ParseNodeView::BlockWrapper), j)),
                    None => if 0 <= i < s.len() && s[i] == '}' {
                        Some((None, i + 1))
                    } else {
                        None
                    },
                },
            },
        },
    }
}

/// The items of the whole text from `i` to the end of input. `None` if any
/// item fails: the file parse is all-or-nothing.
pub open spec fn items_from(s: Seq<char>, i: int) -> Option<Seq<ParseNodeView>>
    decreases s.len() - i,
{
    match trivia_end(s, i) {
        Some(t) => if t == s.len() {
            Some(Seq::empty())
        } else {
            match item_at(s, t) {
                Some((node, j)) => if i < j <= s.len() {
                    match items_from(s, j) {
                        Some(rest) => match node {
                            Some(n) => Some(seq![n] + rest),
                            None => Some(rest),
                        },
                        None => None,
                    }
                } else {
                    None
                },
                None => None,
            }
        },
        None => None,
    }
}

/// The parse of a whole header text: its top-level items, or `None` where
/// any part fails to match.
pub open spec fn file_items(s: Seq<char>) -> Option<Seq<ParseNodeView>> {
    items_from(s, 0)
}

/// The position the item loop reports when it gives up: the start of the
/// first failing item (after its leading trivia), or, where an
/// unterminated block comment stops the trivia scan itself, the position
/// that scan started from. Meaningful only where `items_from` is `None`.
pub open spec fn give_up_pos(s: Seq<char>, i: int) -> int
    decreases s.len() - i,
{
    match trivia_end(s, i) {
        Some(t) => if t == s.len() {
            t
        } else {
            match item_at(s, t) {
                Some((node, j)) => if i < j <= s.len() {
                    give_up_pos(s, j)
                } else {
                    t
                },
                None => t,
            }
        },
        None => i,
    }
}

/// The names of the typedefs among `nodes` whose right-hand side is
/// directly a struct or union definition, in order.
pub open spec fn complex_names(nodes: Seq<ParseNodeView>) -> Seq<Seq<char>>
    decreases nodes.len(),
{
    if nodes.len() == 0 {
        Seq::empty()
    } else {
        let rest = complex_names(nodes.drop_first());
        match nodes[0] {
            ParseNodeView::Typedef(td) => if td.old_type.is_complex() {
                seq![td.new_name] + rest
            } else {
                rest
            },
            _ => rest,
        }
    }
}

/// The whole pipeline on a text: the ordered complex-type names, or `None`
/// where the file does not parse.
pub open spec fn complex_names_of(s: Seq<char>) -> Option<Seq<Seq<char>>> {
    match file_items(s) {
        Some(nodes) => Some(complex_names(nodes)),
        None => None,
    }
}

} // verus!
