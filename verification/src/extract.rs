//! The typedef classifier and extractor: walks a parsed file and collects,
//! in declaration order, the names introduced by typedefs whose right-hand
//! side is directly a struct or union definition.

use vstd::prelude::*;
use crate::ast::{ParseError, ParseNode, TypeDescriptor};
use crate::grammar;
use crate::parser;

verus! {

/// Prepending a name prepends its characters.
proof fn lemma_names_insert_front(v1: Vec<String>, v2: Vec<String>, n: String)
    requires
        v2@ == v1@.insert(0, n),
    ensures
        v2.deep_view() == seq![n@] + v1.deep_view(),
{
    assert(v2.deep_view() =~= seq![n@] + v1.deep_view());
}

/// The complex-typedef names among `nodes[k..]`, in order.
fn collect_complex(nodes: &Vec<ParseNode>, k: usize) -> (r: Vec<String>)
    requires
        k <= nodes.len(),
    ensures
        r.deep_view() == grammar::complex_names(nodes.deep_view().skip(k as int)),
    decreases nodes.len() - k,
{
    if k == nodes.len() {
        let r: Vec<String> = Vec::new();
        proof {
            assert(nodes.deep_view().skip(k as int) =~= Seq::empty());
            assert(r.deep_view() =~= Seq::<Seq<char>>::empty());
        }
        r
    } else {
        let rest = collect_complex(nodes, k + 1);
        proof {
            assert(nodes.deep_view().skip(k as int).drop_first() =~= nodes.deep_view().skip(
                k as int + 1,
            ));
            assert(nodes.deep_view().skip(k as int)[0] == nodes.deep_view()[k as int]);
        }
        match &nodes[k] {
            ParseNode::Typedef(td) => {
                let complex = match &td.old_type {
                    TypeDescriptor::StructDef { .. } => true,
                    TypeDescriptor::UnionDef { .. } => true,
                    _ => false,
                };
                if complex {
                    let name = td.new_name.clone();
                    let ghost gname = name;
                    let ghost pre = rest;
                    let mut out = rest;
                    out.insert(0, name);
                    proof {
                        lemma_names_insert_front(pre, out, gname);
                    }
                    out
                } else {
                    rest
                }
            },
            _ => rest,
        }
    }
}

/// The single entry point of the pipeline: parse the whole header text and
/// hand back the ordered names of its complex typedefs, or the parse error.
/// No partial list is ever returned: any failing item fails the whole call.
pub fn get_complex_type_names(input: &str) -> (r: Result<Vec<String>, ParseError>)
    ensures
        match r {
            Ok(names) => grammar::complex_names_of(input@) == Some(names.deep_view()),
            Err(e) => grammar::complex_names_of(input@) is None && e.pos as int
                == grammar::give_up_pos(input@, 0) && e.pos <= input@.len(),
        },
{
    match parser::ApiParser::parse_file(input) {
        Ok(nodes) => {
            let names = collect_complex(&nodes, 0);
            proof {
                assert(nodes.deep_view().skip(0) =~= nodes.deep_view());
            }
            Ok(names)
        },
        Err(e) => Err(e),
    }
}

} // verus!
