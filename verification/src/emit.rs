//! Building the C harness source that measures `sizeof` for each complex
//! type. Only the text itself is built here; writing it anywhere is the
//! caller's business.

use vstd::prelude::*;

verus! {

/// The member declaration the harness emits for one complex type.
pub open spec fn member_decl_line(t: Seq<char>) -> Seq<char> {
    "   "@ + t + " "@ + t + "_m;\n"@
}

/// The member declarations for `names[k..]`, in order.
pub open spec fn member_lines_from(names: Seq<Seq<char>>, k: int) -> Seq<char>
    decreases names.len() - k,
{
    if 0 <= k < names.len() {
        member_decl_line(names[k]) + member_lines_from(names, k + 1)
    } else {
        Seq::empty()
    }
}

/// The `sizeof` probe the harness emits for one complex type.
pub open spec fn probe_line(t: Seq<char>) -> Seq<char> {
    "    printf(\""@ + t + "\t | %d\\n\", sizeof("@ + t + "));\n"@
}

/// The `sizeof` probes for `names[k..]`, in order.
pub open spec fn probe_lines_from(names: Seq<Seq<char>>, k: int) -> Seq<char>
    decreases names.len() - k,
{
    if 0 <= k < names.len() {
        probe_line(names[k]) + probe_lines_from(names, k + 1)
    } else {
        Seq::empty()
    }
}

/// The whole harness source for the given complex-type names and header
/// filename: an include of the header, one aggregate struct holding a
/// member of each complex type, a probe of the aggregate's size and one of
/// each type's size.
pub open spec fn harness_source(names: Seq<Seq<char>>, header: Seq<char>) -> Seq<char> {
    "#include \""@ + header + "\"\n\n        int main() {\n            struct {\n        "@
        + member_lines_from(names, 0) + "} members_t;\n"@
        + "\n\n    printf(\"\\nTOTAL\t | %d\\n\", sizeof(members_t));\n\n"@
        + probe_lines_from(names, 0) + "}"@
}

/// The C harness source for the given complex-type names, with the header
/// included under the given name.
pub fn test_file(complex_types: Vec<String>, input_h: &str) -> (r: String)
    ensures
        r@ == harness_source(complex_types.deep_view(), input_h@),
{
    let ghost names = complex_types.deep_view();
    let mut out = String::new();
    out.push_str("#include \"");
    out.push_str(input_h);
    out.push_str("\"\n\n        int main() {\n            struct {\n        ");
    let ghost head = "#include \""@ + input_h@
        + "\"\n\n        int main() {\n            struct {\n        "@;
    proof {
        assert(out@ =~= head);
    }
    let mut k: usize = 0;
    while k < complex_types.len()
        invariant
            k <= complex_types.len(),
            names == complex_types.deep_view(),
            head == "#include \""@ + input_h@
                + "\"\n\n        int main() {\n            struct {\n        "@,
            out@ + member_lines_from(names, k as int) == head + member_lines_from(names, 0),
        decreases complex_types.len() - k,
    {
        let ghost before = out@;
        out.push_str("   ");
        out.push_str(complex_types[k].as_str());
        out.push_str(" ");
        out.push_str(complex_types[k].as_str());
        out.push_str("_m;\n");
        proof {
            assert(names[k as int] == complex_types@[k as int]@);
            assert(out@ =~= before + member_decl_line(names[k as int]));
            assert(out@ + member_lines_from(names, k as int + 1) =~= before + member_lines_from(
                names,
                k as int,
            ));
        }
        k = k + 1;
    }
    proof {
        assert(member_lines_from(names, k as int) =~= Seq::<char>::empty());
        assert(out@ =~= head + member_lines_from(names, 0));
    }
    out.push_str("} members_t;\n");
    out.push_str("\n\n    printf(\"\\nTOTAL\t | %d\\n\", sizeof(members_t));\n\n");
    let ghost mid = head + member_lines_from(names, 0) + "} members_t;\n"@
        + "\n\n    printf(\"\\nTOTAL\t | %d\\n\", sizeof(members_t));\n\n"@;
    proof {
        assert(out@ =~= mid);
    }
    let mut k2: usize = 0;
    while k2 < complex_types.len()
        invariant
            k2 <= complex_types.len(),
            names == complex_types.deep_view(),
            out@ + probe_lines_from(names, k2 as int) == mid + probe_lines_from(names, 0),
        decreases complex_types.len() - k2,
    {
        let ghost before = out@;
        out.push_str("    printf(\"");
        out.push_str(complex_types[k2].as_str());
        out.push_str("\t | %d\\n\", sizeof(");
        out.push_str(complex_types[k2].as_str());
        out.push_str("));\n");
        proof {
            assert(names[k2 as int] == complex_types@[k2 as int]@);
            assert(out@ =~= before + probe_line(names[k2 as int]));
            assert(out@ + probe_lines_from(names, k2 as int + 1) =~= before + probe_lines_from(
                names,
                k2 as int,
            ));
        }
        k2 = k2 + 1;
    }
    proof {
        assert(probe_lines_from(names, k2 as int) =~= Seq::<char>::empty());
        assert(out@ =~= mid + probe_lines_from(names, 0));
    }
    out.push_str("}");
    proof {
        assert(out@ =~= harness_source(names, input_h@));
    }
    out
}

} // verus!
