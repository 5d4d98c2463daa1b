//! The executable recursive-descent parser, proved to return exactly what
//! the grammar (`crate::grammar`) defines.
//!
//! Internally the text is held as a `Vec<char>`; each function mirrors its
//! grammar counterpart one branch for one branch, so every `ensures` is the
//! statement that the two agree at every position.

use vstd::prelude::*;
use vstd::string::StrSliceExecFns;
use crate::ast::{ArrayIndex, FieldDecl, ParseError, ParseNode, TypeDescriptor, TypedefNode};
use crate::grammar;

verus! {

/// An executable optional position agrees with a ghost one.
spec fn pos_matches(r: Option<usize>, g: Option<int>) -> bool {
    match r {
        Some(j) => g == Some(j as int),
        None => g is None,
    }
}

/// The characters of `s`, in order.
fn to_chars(s: &str) -> (v: Vec<char>)
    ensures
        v@ == s@,
{
    let n: usize = s.unicode_len();
    let mut v: Vec<char> = Vec::new();
    let mut k: usize = 0;
    while k < n
        invariant
            k <= n,
            n == s@.len(),
            v@ == s@.subrange(0, k as int),
        decreases n - k,
    {
        v.push(s.get_char(k));
        k = k + 1;
        proof {
            assert(v@ =~= s@.subrange(0, k as int));
        }
    }
    proof {
        assert(v@ =~= s@);
    }
    v
}

/// The characters of `s` from `from` to `to`, as a `String`.
fn chars_to_string(s: &Vec<char>, from: usize, to: usize) -> (r: String)
    requires
        from <= to <= s.len(),
    ensures
        r@ == s@.subrange(from as int, to as int),
{
    let mut r = String::new();
    let mut k: usize = from;
    while k < to
        invariant
            from <= k <= to <= s.len(),
            r@ == s@.subrange(from as int, k as int),
        decreases to - k,
    {
        r.push(s[k]);
        k = k + 1;
        proof {
            assert(r@ =~= s@.subrange(from as int, k as int));
        }
    }
    r
}

fn ch_is_inline_ws(c: char) -> (b: bool)
    ensures
        b == grammar::is_inline_ws(c),
{
    c == ' ' || c == '\t' || c == '\r'
}

fn ch_is_ws(c: char) -> (b: bool)
    ensures
        b == grammar::is_ws(c),
{
    ch_is_inline_ws(c) || c == '\n'
}

fn ch_is_digit(c: char) -> (b: bool)
    ensures
        b == grammar::is_digit(c),
{
    '0' <= c && c <= '9'
}

fn ch_is_ident_start(c: char) -> (b: bool)
    ensures
        b == grammar::is_ident_start(c),
{
    ('a' <= c && c <= 'z') || ('A' <= c && c <= 'Z') || c == '_'
}

fn ch_is_ident_char(c: char) -> (b: bool)
    ensures
        b == grammar::is_ident_char(c),
{
    ch_is_ident_start(c) || ch_is_digit(c)
}

fn ch_is_suffix_letter(c: char) -> (b: bool)
    ensures
        b == grammar::is_suffix_letter(c),
{
    c == 'u' || c == 'U' || c == 'l' || c == 'L'
}

fn ch_is_filename_char(c: char) -> (b: bool)
    ensures
        b == grammar::is_filename_char(c),
{
    c != '"' && c != '\n' && c != '\r'
}

fn scan_ident_end(s: &Vec<char>, i: usize) -> (r: usize)
    requires
        i <= s.len(),
    ensures
        r as int == grammar::ident_end(s@, i as int),
        i <= r <= s.len(),
    decreases s.len() - i,
{
    if i < s.len() && ch_is_ident_char(s[i]) {
        scan_ident_end(s, i + 1)
    } else {
        i
    }
}

fn scan_digits_end(s: &Vec<char>, i: usize) -> (r: usize)
    requires
        i <= s.len(),
    ensures
        r as int == grammar::digits_end(s@, i as int),
        i <= r <= s.len(),
    decreases s.len() - i,
{
    if i < s.len() && ch_is_digit(s[i]) {
        scan_digits_end(s, i + 1)
    } else {
        i
    }
}

fn scan_inline_ws_end(s: &Vec<char>, i: usize) -> (r: usize)
    requires
        i <= s.len(),
    ensures
        r as int == grammar::inline_ws_end(s@, i as int),
        i <= r <= s.len(),
    decreases s.len() - i,
{
    if i < s.len() && ch_is_inline_ws(s[i]) {
        scan_inline_ws_end(s, i + 1)
    } else {
        i
    }
}

fn scan_eol(s: &Vec<char>, i: usize) -> (r: usize)
    requires
        i <= s.len(),
    ensures
        r as int == grammar::eol_at(s@, i as int),
        i <= r <= s.len(),
    decreases s.len() - i,
{
    if i < s.len() && s[i] != '\n' {
        scan_eol(s, i + 1)
    } else {
        i
    }
}

fn scan_filename_end(s: &Vec<char>, i: usize) -> (r: usize)
    requires
        i <= s.len(),
    ensures
        r as int == grammar::filename_end(s@, i as int),
        i <= r <= s.len(),
    decreases s.len() - i,
{
    if i < s.len() && ch_is_filename_char(s[i]) {
        scan_filename_end(s, i + 1)
    } else {
        i
    }
}

fn scan_block_close(s: &Vec<char>, i: usize) -> (r: Option<usize>)
    requires
        i <= s.len(),
    ensures
        pos_matches(r, grammar::block_close_from(s@, i as int)),
        r matches Some(j) ==> i <= j <= s.len(),
    decreases s.len() - i,
{
    if s.len() - i >= 2 && s[i] == '*' && s[i + 1] == '/' {
        Some(i + 2)
    } else if i < s.len() {
        scan_block_close(s, i + 1)
    } else {
        None
    }
}

fn scan_comment_end(s: &Vec<char>, i: usize) -> (r: Option<usize>)
    requires
        i <= s.len(),
    ensures
        pos_matches(r, grammar::comment_end(s@, i as int)),
        r matches Some(j) ==> i <= j <= s.len(),
{
    if s.len() - i >= 2 && s[i] == '/' && s[i + 1] == '*' {
        scan_block_close(s, i + 2)
    } else if s.len() - i >= 2 && s[i] == '/' && s[i + 1] == '/' {
        Some(scan_eol(s, i + 2))
    } else {
        None
    }
}

fn scan_trivia(s: &Vec<char>, i: usize) -> (r: Option<usize>)
    requires
        i <= s.len(),
    ensures
        pos_matches(r, grammar::trivia_end(s@, i as int)),
        r matches Some(j) ==> i <= j <= s.len(),
    decreases s.len() - i,
{
    if i < s.len() && ch_is_ws(s[i]) {
        scan_trivia(s, i + 1)
    } else if s.len() - i >= 2 && s[i] == '/' && (s[i + 1] == '*' || s[i + 1] == '/') {
        match scan_comment_end(s, i) {
            Some(j) => if i < j && j <= s.len() {
                scan_trivia(s, j)
            } else {
                None
            },
            None => None,
        }
    } else {
        Some(i)
    }
}

/// An identifier at `i`, as an owned `String`, with the position past it.
fn take_ident(s: &Vec<char>, i: usize) -> (r: Option<(String, usize)>)
    requires
        i <= s.len(),
    ensures
        match r {
            Some((name, e)) => {
                &&& grammar::ident_at(s@, i as int) == Some((name@, e as int))
                &&& i <= e <= s.len()
            },
            None => grammar::ident_at(s@, i as int) is None,
        },
{
    if i < s.len() && ch_is_ident_start(s[i]) {
        let e = scan_ident_end(s, i);
        Some((chars_to_string(s, i, e), e))
    } else {
        None
    }
}

fn has_kw_define(s: &Vec<char>, i: usize) -> (b: bool)
    requires
        i <= s.len(),
    ensures
        b == grammar::at_kw_define(s@, i as int),
{
    s.len() - i >= 7 && s[i] == '#' && s[i + 1] == 'd' && s[i + 2] == 'e' && s[i + 3] == 'f'
        && s[i + 4] == 'i' && s[i + 5] == 'n' && s[i + 6] == 'e'
}

fn has_kw_line(s: &Vec<char>, i: usize) -> (b: bool)
    requires
        i <= s.len(),
    ensures
        b == grammar::at_kw_line(s@, i as int),
{
    s.len() - i >= 5 && s[i] == '#' && s[i + 1] == 'l' && s[i + 2] == 'i' && s[i + 3] == 'n'
        && s[i + 4] == 'e'
}

fn has_kw_pragma(s: &Vec<char>, i: usize) -> (b: bool)
    requires
        i <= s.len(),
    ensures
        b == grammar::at_kw_pragma(s@, i as int),
{
    s.len() - i >= 7 && s[i] == '#' && s[i + 1] == 'p' && s[i + 2] == 'r' && s[i + 3] == 'a'
        && s[i + 4] == 'g' && s[i + 5] == 'm' && s[i + 6] == 'a'
}

fn has_kw_typedef(s: &Vec<char>, i: usize) -> (b: bool)
    requires
        i <= s.len(),
    ensures
        b == grammar::at_kw_typedef(s@, i as int),
{
    s.len() - i >= 7 && s[i] == 't' && s[i + 1] == 'y' && s[i + 2] == 'p' && s[i + 3] == 'e'
        && s[i + 4] == 'd' && s[i + 5] == 'e' && s[i + 6] == 'f' && (s.len() - i == 7
        || !ch_is_ident_char(s[i + 7]))
}

fn has_kw_struct(s: &Vec<char>, i: usize) -> (b: bool)
    requires
        i <= s.len(),
    ensures
        b == grammar::at_kw_struct(s@, i as int),
{
    s.len() - i >= 6 && s[i] == 's' && s[i + 1] == 't' && s[i + 2] == 'r' && s[i + 3] == 'u'
        && s[i + 4] == 'c' && s[i + 5] == 't' && (s.len() - i == 6 || !ch_is_ident_char(
        s[i + 6],
    ))
}

fn has_kw_union(s: &Vec<char>, i: usize) -> (b: bool)
    requires
        i <= s.len(),
    ensures
        b == grammar::at_kw_union(s@, i as int),
{
    s.len() - i >= 5 && s[i] == 'u' && s[i + 1] == 'n' && s[i + 2] == 'i' && s[i + 3] == 'o'
        && s[i + 4] == 'n' && (s.len() - i == 5 || !ch_is_ident_char(s[i + 5]))
}

fn has_kw_linkage(s: &Vec<char>, i: usize) -> (b: bool)
    requires
        i <= s.len(),
    ensures
        b == grammar::at_kw_linkage(s@, i as int),
{
    s.len() - i >= 6 && s[i] == 'e' && s[i + 1] == 'x' && s[i + 2] == 't' && s[i + 3] == 'e'
        && s[i + 4] == 'r' && s[i + 5] == 'n' && (s.len() - i == 6 || !ch_is_ident_char(
        s[i + 6],
    ))
}

/// A `#define` at `i`: its name, its optional raw value, the end position.
fn take_define(s: &Vec<char>, i: usize) -> (r: Option<(String, Option<String>, usize)>)
    requires
        i <= s.len(),
    ensures
        match r {
            Some((name, value, e)) => {
                &&& grammar::define_at(s@, i as int) matches Some((gn, gv, ge))
                &&& gn == name@
                &&& match (value, grammar::define_at(s@, i as int).unwrap().1) {
                    (Some(v), Some(gv2)) => v@ == gv2,
                    (None, gv2) => gv2 is None,
                    _ => false,
                }
                &&& ge == e as int
                &&& i <= e <= s.len()
            },
            None => grammar::define_at(s@, i as int) is None,
        },
{
    if has_kw_define(s, i) && s.len() - i > 7 && ch_is_inline_ws(s[i + 7]) {
        let b = scan_inline_ws_end(s, i + 7);
        match take_ident(s, b) {
            Some((name, e)) => {
                let v = scan_inline_ws_end(s, e);
                if v == s.len() || s[v] == '\n' {
                    Some((name, None, v))
                } else {
                    let le = scan_eol(s, v);
                    Some((name, Some(chars_to_string(s, v, le)), le))
                }
            },
            None => None,
        }
    } else {
        None
    }
}

/// A `#line` marker at `i`: the digits, the filename, the end position.
fn take_line_marker(s: &Vec<char>, i: usize) -> (r: Option<(String, String, usize)>)
    requires
        i <= s.len(),
    ensures
        match r {
            Some((number, filename, e)) => {
                &&& grammar::line_marker_at(s@, i as int) == Some(
                    (number@, filename@, e as int),
                )
                &&& i <= e <= s.len()
            },
            None => grammar::line_marker_at(s@, i as int) is None,
        },
{
    if has_kw_line(s, i) && s.len() - i > 5 && ch_is_inline_ws(s[i + 5]) {
        let b = scan_inline_ws_end(s, i + 5);
        if b < s.len() && ch_is_digit(s[b]) {
            let d = scan_digits_end(s, b);
            let q = scan_inline_ws_end(s, d);
            if q < s.len() && s[q] == '"' {
                let fe = scan_filename_end(s, q + 1);
                if fe > q + 1 && fe < s.len() && s[fe] == '"' {
                    Some((chars_to_string(s, b, d), chars_to_string(s, q + 1, fe), fe + 1))
                } else {
                    None
                }
            } else {
                None
            }
        } else {
            None
        }
    } else {
        None
    }
}

/// A `#pragma` at `i`: the position past the skipped line.
fn take_pragma(s: &Vec<char>, i: usize) -> (r: Option<usize>)
    requires
        i <= s.len(),
    ensures
        pos_matches(r, grammar::pragma_at(s@, i as int)),
        r matches Some(j) ==> i <= j <= s.len(),
{
    if has_kw_pragma(s, i) {
        if s.len() - i == 7 {
            Some(i + 7)
        } else if ch_is_inline_ws(s[i + 7]) || s[i + 7] == '\n' {
            Some(scan_eol(s, i + 7))
        } else {
            None
        }
    } else {
        None
    }
}

/// A C-linkage wrapper opener at `i`: the position past its `{`.
fn take_block_wrapper(s: &Vec<char>, i: usize) -> (r: Option<usize>)
    requires
        i <= s.len(),
    ensures
        pos_matches(r, grammar::block_wrapper_at(s@, i as int)),
        r matches Some(j) ==> i <= j <= s.len(),
{
    if has_kw_linkage(s, i) {
        match scan_trivia(s, i + 6) {
            Some(t) => if s.len() - t >= 3 && s[t] == '"' && s[t + 1] == 'C' && s[t + 2] == '"' {
                match scan_trivia(s, t + 3) {
                    Some(u) => if u < s.len() && s[u] == '{' {
                        Some(u + 1)
                    } else {
                        None
                    },
                    None => None,
                }
            } else {
                None
            },
            None => None,
        }
    } else {
        None
    }
}

/// An array bound at `i`, with the position past it.
fn take_array_index(s: &Vec<char>, i: usize) -> (r: Option<(ArrayIndex, usize)>)
    requires
        i <= s.len(),
    ensures
        match r {
            Some((idx, e)) => {
                &&& grammar::array_index_at(s@, i as int) == Some((idx.deep_view(), e as int))
                &&& i <= e <= s.len()
            },
            None => grammar::array_index_at(s@, i as int) is None,
        },
{
    if i < s.len() && ch_is_digit(s[i]) {
        let d = scan_digits_end(s, i);
        if d < s.len() && ch_is_suffix_letter(s[d]) {
            Some((
                ArrayIndex::Numeric {
                    digits: chars_to_string(s, i, d),
                    suffix: Some(s[d]),
                    parenthesized: false,
                },
                d + 1,
            ))
        } else {
            Some((
                ArrayIndex::Numeric {
                    digits: chars_to_string(s, i, d),
                    suffix: None,
                    parenthesized: false,
                },
                d,
            ))
        }
    } else if i < s.len() && s[i] == '(' {
        match scan_trivia(s, i + 1) {
            Some(b) => if b < s.len() && ch_is_digit(s[b]) {
                let d = scan_digits_end(s, b);
                let has_sfx = d < s.len() && ch_is_suffix_letter(s[d]);
                let p = if has_sfx {
                    d + 1
                } else {
                    d
                };
                let sfx = if has_sfx {
                    Some(s[d])
                } else {
                    None
                };
                match scan_trivia(s, p) {
                    Some(c) => if c < s.len() && s[c] == ')' {
                        Some((
                            ArrayIndex::Numeric {
                                digits: chars_to_string(s, b, d),
                                suffix: sfx,
                                parenthesized: true,
                            },
                            c + 1,
                        ))
                    } else {
                        None
                    },
                    None => None,
                }
            } else {
                None
            },
            None => None,
        }
    } else {
        match take_ident(s, i) {
            Some((name, e)) => Some((ArrayIndex::MacroRef { name }, e)),
            None => None,
        }
    }
}

/// `[ <array_index> ]` at `i`, with the position past the `]`.
fn take_array_suffix(s: &Vec<char>, i: usize) -> (r: Option<(ArrayIndex, usize)>)
    requires
        i <= s.len(),
    ensures
        match r {
            Some((idx, e)) => {
                &&& grammar::array_suffix_at(s@, i as int) == Some((idx.deep_view(), e as int))
                &&& i <= e <= s.len()
            },
            None => grammar::array_suffix_at(s@, i as int) is None,
        },
{
    if i < s.len() && s[i] == '[' {
        match scan_trivia(s, i + 1) {
            Some(b) => match take_array_index(s, b) {
                Some((idx, e)) => match scan_trivia(s, e) {
                    Some(c) => if c < s.len() && s[c] == ']' {
                        Some((idx, c + 1))
                    } else {
                        None
                    },
                    None => None,
                },
                None => None,
            },
            None => None,
        }
    } else {
        None
    }
}

/// A struct or union definition at `i`, with the position past its `}`.
fn take_complex(s: &Vec<char>, i: usize) -> (r: Option<(TypeDescriptor, usize)>)
    requires
        i <= s.len(),
    ensures
        match r {
            Some((td, e)) => {
                &&& grammar::complex_at(s@, i as int) == Some((td.deep_view(), e as int))
                &&& i <= e <= s.len()
            },
            None => grammar::complex_at(s@, i as int) is None,
        },
    decreases s.len() - i, 0int,
{
    let kind: Option<(bool, usize)> = if has_kw_struct(s, i) {
        Some((true, i + 6))
    } else if has_kw_union(s, i) {
        Some((false, i + 5))
    } else {
        None
    };
    match kind {
        Some((is_struct, k)) => match scan_trivia(s, k) {
            Some(t) => {
                let tagged: Option<(Option<String>, usize)> = match take_ident(s, t) {
                    Some((tg, e)) => match scan_trivia(s, e) {
                        Some(t2) => Some((Some(tg), t2)),
                        None => None,
                    },
                    None => Some((None, t)),
                };
                match tagged {
                    Some((tag, t2)) => if t2 < s.len() && s[t2] == '{' {
                        match scan_trivia(s, t2 + 1) {
                            Some(b) => if i < b && b <= s.len() {
                                match take_fields(s, b) {
                                    Some((fields, e)) => {
                                        let td = if is_struct {
                                            TypeDescriptor::StructDef { tag, fields }
                                        } else {
                                            TypeDescriptor::UnionDef { tag, fields }
                                        };
                                        Some((td, e))
                                    },
                                    None => None,
                                }
                            } else {
                                None
                            },
                            None => None,
                        }
                    } else {
                        None
                    },
                    None => None,
                }
            },
            None => None,
        },
        None => None,
    }
}

/// One or more fields and the closing `}`, with the position past the `}`.
fn take_fields(s: &Vec<char>, i: usize) -> (r: Option<(Vec<FieldDecl>, usize)>)
    requires
        i <= s.len(),
    ensures
        match r {
            Some((fields, e)) => {
                &&& grammar::fields_at(s@, i as int) matches Some((gf, ge))
                &&& gf == crate::ast::fields_view_from(fields, 0)
                &&& ge == e as int
                &&& i <= e <= s.len()
            },
            None => grammar::fields_at(s@, i as int) is None,
        },
    decreases s.len() - i, 2int,
{
    match take_field(s, i) {
        Some((f, j)) => {
            let ghost gf = f;
            match scan_trivia(s, j) {
                Some(t) => if t < s.len() && s[t] == '}' {
                    let mut fields: Vec<FieldDecl> = Vec::new();
                    fields.push(f);
                    proof {
                        assert(fields@ =~= seq![gf]);
                        crate::ast::lemma_fields_view_singleton(fields, gf);
                    }
                    Some((fields, t + 1))
                } else if i < t && t <= s.len() {
                    match take_fields(s, t) {
                        Some((mut rest, e)) => {
                            let ghost pre = rest;
                            rest.insert(0, f);
                            proof {
                                crate::ast::lemma_fields_view_insert_front(pre, rest, gf);
                            }
                            Some((rest, e))
                        },
                        None => None,
                    }
                } else {
                    None
                },
                None => None,
            }
        },
        None => None,
    }
}

/// One field declaration, with the position past its `;`.
fn take_field(s: &Vec<char>, i: usize) -> (r: Option<(FieldDecl, usize)>)
    requires
        i <= s.len(),
    ensures
        match r {
            Some((f, e)) => {
                &&& grammar::field_at(s@, i as int) == Some(
                    (crate::ast::field_decl_view(f), e as int),
                )
                &&& i <= e <= s.len()
            },
            None => grammar::field_at(s@, i as int) is None,
        },
    decreases s.len() - i, 1int,
{
    let ty: Option<(TypeDescriptor, usize)> = match take_complex(s, i) {
        Some((td, j)) => Some((td, j)),
        None => match take_ident(s, i) {
            Some((name, j)) => Some((TypeDescriptor::SimpleRef { name }, j)),
            None => None,
        },
    };
    match ty {
        Some((field_type, j)) => match scan_trivia(s, j) {
            Some(t) => match take_ident(s, t) {
                Some((field_name, k)) => match scan_trivia(s, k) {
                    Some(t2) => {
                        let suffixed: Option<(Option<ArrayIndex>, usize)> = if t2 < s.len() && s[t2]
                            == '[' {
                            match take_array_suffix(s, t2) {
                                Some((idx, m)) => match scan_trivia(s, m) {
                                    Some(t3) => Some((Some(idx), t3)),
                                    None => None,
                                },
                                None => None,
                            }
                        } else {
                            Some((None, t2))
                        };
                        match suffixed {
                            Some((array_suffix, t3)) => if t3 < s.len() && s[t3] == ';' {
                                Some((FieldDecl { field_type, field_name, array_suffix }, t3 + 1))
                            } else {
                                None
                            },
                            None => None,
                        }
                    },
                    None => None,
                },
                None => None,
            },
            None => None,
        },
        None => None,
    }
}

/// A whole `typedef` declaration at `i`, with the position past its `;`.
fn take_typedef(s: &Vec<char>, i: usize) -> (r: Option<(TypedefNode, usize)>)
    requires
        i <= s.len(),
    ensures
        match r {
            Some((td, e)) => {
                &&& grammar::typedef_at(s@, i as int) == Some((td.deep_view(), e as int))
                &&& i <= e <= s.len()
            },
            None => grammar::typedef_at(s@, i as int) is None,
        },
{
    if has_kw_typedef(s, i) {
        match scan_trivia(s, i + 7) {
            Some(t) => match take_complex(s, t) {
                Some((old_type, j)) => match scan_trivia(s, j) {
                    Some(t2) => match take_ident(s, t2) {
                        Some((new_name, k)) => match scan_trivia(s, k) {
                            Some(t3) => if t3 < s.len() && s[t3] == ';' {
                                Some((TypedefNode { old_type, new_name }, t3 + 1))
                            } else {
                                None
                            },
                            None => None,
                        },
                        None => None,
                    },
                    None => None,
                },
                None => take_simple_typedef(s, t),
            },
            None => None,
        }
    } else {
        None
    }
}

/// The simple-alias and array-alias shapes, after the keyword's trivia.
fn take_simple_typedef(s: &Vec<char>, t: usize) -> (r: Option<(TypedefNode, usize)>)
    requires
        t <= s.len(),
    ensures
        match r {
            Some((td, e)) => {
                &&& grammar::simple_typedef_at(s@, t as int) == Some((td.deep_view(), e as int))
                &&& t <= e <= s.len()
            },
            None => grammar::simple_typedef_at(s@, t as int) is None,
        },
{
    match take_ident(s, t) {
        Some((ty_name, j)) => match scan_trivia(s, j) {
            Some(t2) => match take_ident(s, t2) {
                Some((new_name, k)) => match scan_trivia(s, k) {
                    Some(t3) => if t3 < s.len() && s[t3] == '[' {
                        match take_array_suffix(s, t3) {
                            Some((idx, m)) => match scan_trivia(s, m) {
                                Some(t4) => if t4 < s.len() && s[t4] == ';' {
                                    Some((
                                        TypedefNode {
                                            old_type: TypeDescriptor::ArrayOf {
                                                element_name: ty_name,
                                                index: idx,
                                            },
                                            new_name,
                                        },
                                        t4 + 1,
                                    ))
                                } else {
                                    None
                                },
                                None => None,
                            },
                            None => None,
                        }
                    } else if t3 < s.len() && s[t3] == ';' {
                        Some((
                            TypedefNode {
                                old_type: TypeDescriptor::SimpleRef { name: ty_name },
                                new_name,
                            },
                            t3 + 1,
                        ))
                    } else {
                        None
                    },
                    None => None,
                },
                None => None,
            },
            None => None,
        },
        None => None,
    }
}

/// A `#line` marker or a `#pragma` at `i`, as one node.
fn take_p_line(s: &Vec<char>, i: usize) -> (r: Option<(ParseNode, usize)>)
    requires
        i <= s.len(),
    ensures
        match r {
            Some((node, e)) => {
                &&& grammar::p_line_at(s@, i as int) == Some((node.deep_view(), e as int))
                &&& i <= e <= s.len()
            },
            None => grammar::p_line_at(s@, i as int) is None,
        },
{
    match take_line_marker(s, i) {
        Some((number, filename, e)) => Some((ParseNode::Line { number, filename }, e)),
        None => match take_pragma(s, i) {
            Some(e) => Some((ParseNode::Pragma, e)),
            None => None,
        },
    }
}

/// One top-level item at `i`; a consumed stray `}` yields no node.
fn take_item(s: &Vec<char>, i: usize) -> (r: Option<(Option<ParseNode>, usize)>)
    requires
        i <= s.len(),
    ensures
        match r {
            Some((node, e)) => {
                &&& grammar::item_at(s@, i as int) == Some((node.deep_view(), e as int))
                &&& i <= e <= s.len()
            },
            None => grammar::item_at(s@, i as int) is None,
        },
{
    match take_typedef(s, i) {
        Some((td, j)) => Some((Some(ParseNode::Typedef(td)), j)),
        None => match take_define(s, i) {
            Some((name, value, j)) => Some((Some(ParseNode::Define { name, value }), j)),
            None => match take_p_line(s, i) {
                Some((node, j)) => Some((Some(node), j)),
                None => match take_block_wrapper(s, i) {
                    Some(j) => Some((Some(ParseNode::BlockWrapper), j)),
                    None => if i < s.len() && s[i] == '}' {
                        Some((None, i + 1))
                    } else {
                        None
                    },
                },
            },
        },
    }
}

/// Inserting a node at the front prepends its view.
proof fn lemma_nodes_insert_front(v1: Vec<ParseNode>, v2: Vec<ParseNode>, n: ParseNode)
    requires
        v2@ == v1@.insert(0, n),
    ensures
        v2.deep_view() == seq![n.deep_view()] + v1.deep_view(),
{
    assert(v2.deep_view() =~= seq![n.deep_view()] + v1.deep_view());
}

/// All top-level items from `i` to the end of input, or the position where
/// matching gave up.
fn take_items(s: &Vec<char>, i: usize) -> (r: Result<Vec<ParseNode>, usize>)
    requires
        i <= s.len(),
    ensures
        match r {
            Ok(nodes) => grammar::items_from(s@, i as int) == Some(nodes.deep_view()),
            Err(p) => grammar::items_from(s@, i as int) is None && p as int == grammar::give_up_pos(
                s@,
                i as int,
            ) && p <= s.len(),
        },
    decreases s.len() - i,
{
    match scan_trivia(s, i) {
        Some(t) => if t == s.len() {
            let nodes: Vec<ParseNode> = Vec::new();
            proof {
                assert(nodes.deep_view() =~= Seq::<crate::ast::ParseNodeView>::empty());
            }
            Ok(nodes)
        } else {
            match take_item(s, t) {
                Some((node, j)) => if i < j && j <= s.len() {
                    match take_items(s, j) {
                        Ok(mut rest) => match node {
                            Some(n) => {
                                let ghost pre = rest;
                                let ghost gn = n;
                                rest.insert(0, n);
                                proof {
                                    lemma_nodes_insert_front(pre, rest, gn);
                                }
                                Ok(rest)
                            },
                            None => Ok(rest),
                        },
                        Err(p) => Err(p),
                    }
                } else {
                    Err(t)
                },
                None => Err(t),
            }
        },
        None => Err(i),
    }
}

/// A short owned message for a [`ParseError`].
fn msg(m: &str) -> (r: String)
    ensures
        r@ == m@,
{
    let mut r = String::new();
    r.push_str(m);
    r
}

/// The parser: each method matches one grammar rule against the start of
/// the given text (trailing text is allowed, as each contract states by
/// leaving the end position free) and returns the parsed node, or a
/// [`ParseError`] exactly when the rule does not match there.
pub struct ApiParser;

impl ApiParser {
    /// `#define <name> [<value>]`, with the number of characters matched.
    pub fn parse_define(input: &str) -> (r: Result<(ParseNode, usize), ParseError>)
        ensures
            match r {
                Ok((node, e)) => grammar::define_at(input@, 0) matches Some((n, v, ge)) && ge == e
                    as int && node.deep_view() == (crate::ast::ParseNodeView::Define {
                    name: n,
                    value: v,
                }),
                Err(e) => grammar::define_at(input@, 0) is None && e.pos == 0,
            },
    {
        let s = to_chars(input);
        match take_define(&s, 0) {
            Some((name, value, e)) => Ok((ParseNode::Define { name, value }, e)),
            None => Err(ParseError { pos: 0, expected: msg("a #define directive") }),
        }
    }

    /// `#line <number> "<filename>"` or `#pragma <raw text>`, with the
    /// number of characters matched.
    pub fn parse_line_directive(input: &str) -> (r: Result<(ParseNode, usize), ParseError>)
        ensures
            match r {
                Ok((node, e)) => grammar::p_line_at(input@, 0) == Some((node.deep_view(), e as int)),
                Err(e) => grammar::p_line_at(input@, 0) is None && e.pos == 0,
            },
    {
        let s = to_chars(input);
        match take_p_line(&s, 0) {
            Some((node, e)) => Ok((node, e)),
            None => Err(ParseError { pos: 0, expected: msg("a #line or #pragma directive") }),
        }
    }

    /// A block or line comment, with the number of characters matched: a
    /// block comment ends just past the nearest `*/`, a line comment at the
    /// line break or the end of input.
    pub fn parse_comment(input: &str) -> (r: Result<(ParseNode, usize), ParseError>)
        ensures
            match r {
                Ok((node, e)) => grammar::comment_end(input@, 0) == Some(e as int)
                    && node.deep_view() == crate::ast::ParseNodeView::Comment,
                Err(e) => grammar::comment_end(input@, 0) is None && e.pos == 0,
            },
    {
        let s = to_chars(input);
        match scan_comment_end(&s, 0) {
            Some(e) => Ok((ParseNode::Comment, e)),
            None => Err(ParseError { pos: 0, expected: msg("a comment") }),
        }
    }

    /// The opener of a C-linkage wrapper block, with the number of
    /// characters matched (up to and including its `{`).
    pub fn parse_block_wrapper(input: &str) -> (r: Result<(ParseNode, usize), ParseError>)
        ensures
            match r {
                Ok((node, e)) => grammar::block_wrapper_at(input@, 0) == Some(e as int)
                    && node.deep_view() == crate::ast::ParseNodeView::BlockWrapper,
                Err(e) => grammar::block_wrapper_at(input@, 0) is None && e.pos == 0,
            },
    {
        let s = to_chars(input);
        match take_block_wrapper(&s, 0) {
            Some(e) => Ok((ParseNode::BlockWrapper, e)),
            None => Err(ParseError { pos: 0, expected: msg("a C-linkage wrapper opener") }),
        }
    }

    /// A whole `typedef` declaration, with the number of characters
    /// matched (up to and including its `;`).
    pub fn parse_typedef(input: &str) -> (r: Result<(TypedefNode, usize), ParseError>)
        ensures
            match r {
                Ok((node, e)) => grammar::typedef_at(input@, 0) == Some(
                    (node.deep_view(), e as int),
                ),
                Err(e) => grammar::typedef_at(input@, 0) is None && e.pos == 0,
            },
    {
        let s = to_chars(input);
        match take_typedef(&s, 0) {
            Some((node, e)) => Ok((node, e)),
            None => Err(ParseError { pos: 0, expected: msg("a typedef declaration") }),
        }
    }

    /// A bare array bound, with the number of characters matched.
    pub fn parse_array_index(input: &str) -> (r: Result<(ArrayIndex, usize), ParseError>)
        ensures
            match r {
                Ok((idx, e)) => grammar::array_index_at(input@, 0) == Some(
                    (idx.deep_view(), e as int),
                ),
                Err(e) => grammar::array_index_at(input@, 0) is None && e.pos == 0,
            },
    {
        let s = to_chars(input);
        match take_array_index(&s, 0) {
            Some((idx, e)) => Ok((idx, e)),
            None => Err(ParseError { pos: 0, expected: msg("an array bound") }),
        }
    }

    /// A bracketed array bound `[ ... ]`, with the number of characters
    /// matched (up to and including the `]`).
    pub fn parse_array_suffix(input: &str) -> (r: Result<(ArrayIndex, usize), ParseError>)
        ensures
            match r {
                Ok((idx, e)) => grammar::array_suffix_at(input@, 0) == Some(
                    (idx.deep_view(), e as int),
                ),
                Err(e) => grammar::array_suffix_at(input@, 0) is None && e.pos == 0,
            },
    {
        let s = to_chars(input);
        match take_array_suffix(&s, 0) {
            Some((idx, e)) => Ok((idx, e)),
            None => Err(ParseError { pos: 0, expected: msg("a bracketed array bound") }),
        }
    }

    /// A filename: one or more characters other than a quote or a line
    /// break.
    pub fn parse_filename(input: &str) -> (r: Result<String, ParseError>)
        ensures
            match r {
                Ok(f) => grammar::filename_end(input@, 0) > 0 && f@ == input@.subrange(
                    0,
                    grammar::filename_end(input@, 0),
                ),
                Err(e) => grammar::filename_end(input@, 0) == 0 && e.pos == 0,
            },
    {
        let s = to_chars(input);
        let fe = scan_filename_end(&s, 0);
        if fe > 0 {
            Ok(chars_to_string(&s, 0, fe))
        } else {
            Err(ParseError { pos: 0, expected: msg("a filename") })
        }
    }

    /// A whole header text, as its ordered top-level items. All-or-nothing:
    /// any item that fails to match fails the whole file.
    pub fn parse_file(input: &str) -> (r: Result<Vec<ParseNode>, ParseError>)
        ensures
            match r {
                Ok(nodes) => grammar::file_items(input@) == Some(nodes.deep_view()),
                Err(e) => grammar::file_items(input@) is None && e.pos as int
                    == grammar::give_up_pos(input@, 0) && e.pos <= input@.len(),
            },
    {
        let s = to_chars(input);
        match take_items(&s, 0) {
            Ok(nodes) => Ok(nodes),
            Err(p) => Err(ParseError { pos: p, expected: msg("a top-level item") }),
        }
    }
}

} // verus!
