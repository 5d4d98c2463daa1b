//! End-to-end behaviour: classification, extraction order, comment
//! semantics, the `#define` value boundary, and the emitted harness text.

use c_api_parser::{get_complex_type_names, test_file, ApiParser};
use c_api_parser::{ArrayIndex, ParseNode, TypeDescriptor, TypedefNode};

#[test]
fn define_no_value_captured() {
    let (node, _) = ApiParser::parse_define("#define Foo\n").unwrap();
    assert_eq!(
        node,
        ParseNode::Define { name: "Foo".to_string(), value: None }
    );
}

#[test]
fn define_value_captured_raw() {
    let (node, _) = ApiParser::parse_define("#define FOO ((123) + 4) \n").unwrap();
    assert_eq!(
        node,
        ParseNode::Define {
            name: "FOO".to_string(),
            value: Some("((123) + 4) ".to_string()),
        }
    );
}

#[test]
fn define_absorbs_same_line_typedef() {
    let names = get_complex_type_names("#define FOO typedef struct { uint8_t a; } outer;\n")
        .unwrap();
    assert!(names.is_empty());
}

#[test]
fn block_comment_ends_at_first_closer() {
    let names =
        get_complex_type_names("/* foo /* bar */ typedef struct { uint8_t a; } outer;").unwrap();
    assert_eq!(names, vec!["outer".to_string()]);
}

#[test]
fn line_comment_spans_whole_line() {
    let names = get_complex_type_names(
        "//* foo /* bar */ baz \ntypedef struct { uint8_t a; } outer;",
    )
    .unwrap();
    assert_eq!(names, vec!["outer".to_string()]);
}

#[test]
fn unterminated_block_comment_fails() {
    assert!(ApiParser::parse_comment("/* foo").is_err());
    assert!(get_complex_type_names("/* foo").is_err());
}

#[test]
fn typedef_simple_classifies_simple() {
    let names = get_complex_type_names("typedef uint32_t myType;").unwrap();
    assert!(names.is_empty());
}

#[test]
fn typedef_union_classifies_complex() {
    let names = get_complex_type_names("typedef union tag { uint32_t u32_var1; } myunion;")
        .unwrap();
    assert_eq!(names, vec!["myunion".to_string()]);
}

#[test]
fn typedef_struct_classifies_complex() {
    let names = get_complex_type_names("typedef struct tag { uint32_t u32_var1; } mystruct;")
        .unwrap();
    assert_eq!(names, vec!["mystruct".to_string()]);
}

#[test]
fn array_aliases_classify_simple() {
    let inputs = [
        "typedef uint8_t byte[4];",
        "typedef uint8_t byte[4U];",
        "typedef uint8_t byte[(4U)];",
        "typedef uint8_t byte[VAL];",
    ];
    for input in inputs {
        assert!(ApiParser::parse_typedef(input).is_ok());
        let names = get_complex_type_names(input).unwrap();
        assert!(names.is_empty());
    }
}

#[test]
fn nested_struct_yields_only_outer_name() {
    let input = "typedef struct {
            struct {
                uint8_t foo;
                uint32_t bar;
            } subfield;
            int8_t baz;
        } outer;";
    assert!(ApiParser::parse_typedef(input).is_ok());
    let names = get_complex_type_names(input).unwrap();
    assert_eq!(names, vec!["outer".to_string()]);
}

#[test]
fn simple_h_extracts_outer() {
    let input = "
        #define FOO
        #define BAZ FOO
        #define VAL 3

        typedef uint8_t byte;

        typedef uint16_t array16_val[VAL];

        typedef struct {
            struct {
                uint8_t foo;
                uint32_t bar;
            } subfield;
            int8_t baz;
        } outer;

        typedef uint8_t arr_u8_3[3];";
    let names = get_complex_type_names(input).unwrap();
    assert_eq!(names, vec!["outer".to_string()]);
}

#[test]
fn parse_twice_identical() {
    let input = "#pragma once\ntypedef struct { uint8_t a; } s1;\ntypedef uint8_t b;\n";
    let first = ApiParser::parse_file(input).unwrap();
    let second = ApiParser::parse_file(input).unwrap();
    assert_eq!(first, second);
    let names_first = get_complex_type_names(input).unwrap();
    let names_second = get_complex_type_names(input).unwrap();
    assert_eq!(names_first, names_second);
    assert_eq!(names_first, vec!["s1".to_string()]);
}

#[test]
fn wrapper_block_contents_are_top_level() {
    let input = "extern \"C\" {\ntypedef struct tag { uint8_t a; } s1;\n}\n";
    let names = get_complex_type_names(input).unwrap();
    assert_eq!(names, vec!["s1".to_string()]);
}

#[test]
fn extraction_keeps_declaration_order() {
    let input = "typedef struct { uint8_t a; } first_t;
        typedef uint8_t plain_t;
        typedef union { uint8_t a; uint32_t b; } second_t;
        typedef struct { struct { uint8_t x; } inner; } third_t;";
    let names = get_complex_type_names(input).unwrap();
    assert_eq!(
        names,
        vec![
            "first_t".to_string(),
            "second_t".to_string(),
            "third_t".to_string()
        ]
    );
}

#[test]
fn array_index_exact_forms() {
    assert_eq!(
        ApiParser::parse_array_index("34").unwrap().0,
        ArrayIndex::Numeric { digits: "34".to_string(), suffix: None, parenthesized: false }
    );
    assert_eq!(
        ApiParser::parse_array_index("4U").unwrap().0,
        ArrayIndex::Numeric { digits: "4".to_string(), suffix: Some('U'), parenthesized: false }
    );
    assert_eq!(
        ApiParser::parse_array_index("(4U)").unwrap().0,
        ArrayIndex::Numeric { digits: "4".to_string(), suffix: Some('U'), parenthesized: true }
    );
    assert_eq!(
        ApiParser::parse_array_index("FOO").unwrap().0,
        ArrayIndex::MacroRef { name: "FOO".to_string() }
    );
}

#[test]
fn typedef_simple_exact_node() {
    let (node, _) = ApiParser::parse_typedef("typedef uint32_t myType;").unwrap();
    assert_eq!(
        node,
        TypedefNode {
            old_type: TypeDescriptor::SimpleRef { name: "uint32_t".to_string() },
            new_name: "myType".to_string(),
        }
    );
}

#[test]
fn typedef_missing_semicolon_fails() {
    assert!(ApiParser::parse_typedef("typedef uint8_t x").is_err());
}

#[test]
fn typedef_bad_keyword_spacing_fails() {
    assert!(ApiParser::parse_typedef("typedefuint8_t x;").is_err());
}

#[test]
fn line_marker_exact_fields() {
    let (node, _) = ApiParser::parse_line_directive("#line 1 \"..\\\\..\\\\minimal_api_user.c\"")
        .unwrap();
    assert_eq!(
        node,
        ParseNode::Line {
            number: "1".to_string(),
            filename: "..\\\\..\\\\minimal_api_user.c".to_string(),
        }
    );
}

#[test]
fn pragma_yields_pragma_node() {
    assert_eq!(
        ApiParser::parse_line_directive("#pragma foo bar\n").unwrap().0,
        ParseNode::Pragma
    );
}

#[test]
fn filename_exact_value() {
    assert_eq!(ApiParser::parse_filename("foo\\bar.h").unwrap(), "foo\\bar.h");
}

#[test]
fn harness_for_one_type() {
    let out = test_file(vec!["outer".to_string()], "simple.h");
    let expected = "#include \"simple.h\"\n\n        int main() {\n            struct {\n           outer outer_m;\n} members_t;\n\n\n    printf(\"\\nTOTAL\t | %d\\n\", sizeof(members_t));\n\n    printf(\"outer\t | %d\\n\", sizeof(outer));\n}";
    assert_eq!(out, expected);
}

#[test]
fn harness_for_no_types() {
    let out = test_file(Vec::new(), "x.h");
    let expected = "#include \"x.h\"\n\n        int main() {\n            struct {\n        } members_t;\n\n\n    printf(\"\\nTOTAL\t | %d\\n\", sizeof(members_t));\n\n}";
    assert_eq!(out, expected);
}

#[test]
fn filename_must_not_start_with_quote() {
    assert!(ApiParser::parse_filename("\"quoted.h\"").is_err());
    assert!(ApiParser::parse_filename("").is_err());
}

#[test]
fn array_index_rejects_punctuation() {
    assert!(ApiParser::parse_array_index("]").is_err());
    assert!(ApiParser::parse_array_suffix("4]").is_err());
}

#[test]
fn wrapper_block_needs_language_name() {
    assert!(ApiParser::parse_block_wrapper("external \"C\" {").is_err());
}

#[test]
fn line_directive_needs_quoted_filename() {
    assert!(ApiParser::parse_line_directive("#line 1 nofile.c").is_err());
}

#[test]
fn block_comment_span_ends_at_first_closer() {
    let (_, consumed) = ApiParser::parse_comment("/* foo /* bar */ baz \n").unwrap();
    assert_eq!(consumed, 16);
}

#[test]
fn line_comment_span_runs_to_line_break() {
    let input = "//* foo /* bar */ baz \n";
    let (_, consumed) = ApiParser::parse_comment(input).unwrap();
    assert_eq!(consumed, input.len() - 1);
}

#[test]
fn error_position_reports_failing_item() {
    let err = ApiParser::parse_file("#define FOO\n@@@").unwrap_err();
    assert_eq!(err.pos, 12);
    let err2 = get_complex_type_names("#define FOO\n@@@").unwrap_err();
    assert_eq!(err2.pos, 12);
}

#[test]
fn error_position_for_unterminated_comment() {
    let err = get_complex_type_names("  /* foo").unwrap_err();
    assert_eq!(err.pos, 0);
}
