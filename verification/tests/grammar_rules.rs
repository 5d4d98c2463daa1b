//! The rule-level checks: each grammar rule accepts and rejects what it
//! should, matched against the start of the given text.

use c_api_parser::ApiParser;

#[test]
fn define_no_val() {
    let parse = ApiParser::parse_define("#define Foo\n");
    assert!(parse.is_ok());
}

#[test]
fn define_no_space_no_val() {
    let parse = ApiParser::parse_define("#defineFoo\n");
    assert!(parse.is_err());
}

#[test]
fn extern_c_is_ok() {
    let parse = ApiParser::parse_block_wrapper("extern \"C\" { \n");
    assert!(parse.is_ok());
}

#[test]
fn define_foo_no_val_is_ok() {
    let parse = ApiParser::parse_define("#define FOO\n");
    assert!(parse.is_ok());
}

#[test]
fn define_multiline() {
    let test_input = "#define FOO \
        typedef struct { \
            struct { \
                uint8_t foo; \
                uint32_t bar; \
            } subfield; \
            int8_t baz; \
        } outer;
        ";
    let parse = ApiParser::parse_define(test_input);
    assert!(parse.is_ok());
}

#[test]
fn define_foo_with_val_is_ok() {
    let parse = ApiParser::parse_define("#define FOO ((123) + 4) \n");
    assert!(parse.is_ok());
}

#[test]
fn c_style_comments_simple() {
    let parse = ApiParser::parse_comment("/* foo /* bar */ baz \n");
    assert!(parse.is_ok());
}

#[test]
fn cpp_style_comments_simple() {
    let parse = ApiParser::parse_comment("//* foo /* bar */ baz \n");
    assert!(parse.is_ok());
}

#[test]
fn typedef_simple() {
    let parse = ApiParser::parse_typedef("typedef uint32_t myType;");
    assert!(parse.is_ok());
}

#[test]
fn typedef_union() {
    let parse = ApiParser::parse_typedef("typedef union tag { uint32_t u32_var1; } myunion;");
    assert!(parse.is_ok());
}

#[test]
fn typedef_struct() {
    let parse = ApiParser::parse_typedef("typedef struct tag { uint32_t u32_var1; } mystruct;");
    assert!(parse.is_ok());
}

#[test]
fn typedef_array_u8_numeric_index() {
    let test_input = "typedef uint8_t byte[4];";
    let parse = ApiParser::parse_typedef(test_input);
    assert!(parse.is_ok());
}

#[test]
fn typedef_array_u8_numeric_index_suf() {
    let test_input = "typedef uint8_t byte[4U];";
    let parse = ApiParser::parse_typedef(test_input);
    assert!(parse.is_ok());
}

#[test]
fn typedef_array_u8_numeric_index_suf_parens() {
    let test_input = "typedef uint8_t byte[(4U)];";
    let parse = ApiParser::parse_typedef(test_input);
    assert!(parse.is_ok());
}

#[test]
fn array_index_numeric() {
    let parse = ApiParser::parse_array_index("34");
    assert!(parse.is_ok());
}

#[test]
fn array_index_define() {
    let parse = ApiParser::parse_array_index("FOO");
    assert!(parse.is_ok());
}

#[test]
fn array_alpha_index() {
    let test_input = "[ VAL ]   ; ";
    let parse = ApiParser::parse_array_suffix(test_input);
    assert!(parse.is_ok());
}

#[test]
fn typedef_array_u8_define_index() {
    let test_input = "typedef uint8_t byte[VAL];";
    let parse = ApiParser::parse_typedef(test_input);
    assert!(parse.is_ok());
}

#[test]
fn typedef_struct_multifield_no_tag() {
    let parse = ApiParser::parse_typedef(
        "typedef struct { \n uint32_t u32_var1; \n uint8_t bla; \n float f; \n } \n mystruct ;",
    );
    assert!(parse.is_ok());
}

#[test]
fn typedef_struct_in_struct() {
    let test_input = "typedef struct {
            struct {
                uint8_t foo;
                uint32_t bar;
            } subfield;
            int8_t baz;
        } outer;";
    let parse = ApiParser::parse_typedef(test_input);
    assert!(parse.is_ok());
}

#[test]
fn simple_h() {
    let test_input = "
        #define FOO
        #define BAZ FOO
        #define VAL 3

        typedef uint8_t byte;

        typedef uint16_t array16_val[VAL];

        typedef struct {
            struct {
                uint8_t foo;
                uint32_t bar;
            } subfield;
            int8_t baz;
        } outer;

        typedef uint8_t arr_u8_3[3];";
    let parse = ApiParser::parse_file(test_input);
    assert!(parse.is_ok());
}

#[test]
fn filename() {
    let test_input = "foo\\bar.h";
    let parse = ApiParser::parse_filename(test_input);
    assert!(parse.is_ok());
}

#[test]
fn preproc_line() {
    let test_input = "#line 1 \"..\\\\..\\\\minimal_api_user.c\"";
    let parse = ApiParser::parse_line_directive(test_input);
    assert!(parse.is_ok());
}

#[test]
fn pragma_line() {
    let test_input = "#pragma foo bar\n";
    let parse = ApiParser::parse_line_directive(test_input);
    assert!(parse.is_ok());
}
