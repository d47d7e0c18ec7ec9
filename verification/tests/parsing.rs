use lang_c::ast::{BlockItem, Declaration, Declarator, ExternalDecl, List, Stmt, TypeSpecifier};
use lang_c::driver::{parse_preprocessed, Config, Error, Flavor, Parse, SyntaxError};

fn cfg(flavor: Flavor) -> Config {
    let mut c = Config::with_gcc();
    c.flavor = flavor;
    c
}

fn parse(flavor: Flavor, text: &str) -> Result<Parse, SyntaxError> {
    parse_preprocessed(&cfg(flavor), text.to_string())
}

fn items(p: &Parse) -> Vec<&ExternalDecl> {
    let mut v = Vec::new();
    let mut l = &p.unit.items;
    while let List::Cons(x, tail) = l {
        v.push(x);
        l = tail;
    }
    v
}

fn name_of<'a>(p: &'a Parse, d: &Declarator) -> &'a str {
    let sp = d.name.as_ref().expect("declarator has a name");
    &p.source[sp.start..sp.end]
}

#[test]
fn simple_function_definition() {
    let p = parse(Flavor::StdC11, "int main(void) { return 0; }").expect("parses");
    let its = items(&p);
    assert_eq!(its.len(), 1);
    match its[0] {
        ExternalDecl::FunctionDef(_, d, body, _) => {
            assert_eq!(name_of(&p, d), "main");
            match body {
                Stmt::Compound(_, _) => {}
                other => panic!("body is not a compound statement: {:?}", other),
            }
        }
        other => panic!("not a function definition: {:?}", other),
    }
}

#[test]
fn missing_semicolon_expects_terminator() {
    let e = parse(Flavor::StdC11, "int main(void) { return 0 }").expect_err("fails");
    assert!(e.expected.iter().any(|t| t == ";"), "expected set {:?}", e.expected);
    // the failure is reported at the token after the `0`
    assert_eq!(e.offset, "int main(void) { return 0 ".len());
    let rendered = e.format_expected();
    assert!(rendered.contains("';'"), "rendered: {}", rendered);
}

#[test]
fn typedef_visible_left_to_right() {
    let p = parse(Flavor::StdC11, "typedef int T; T x;").expect("parses");
    let its = items(&p);
    assert_eq!(its.len(), 2);
    match its[1] {
        ExternalDecl::Declaration(Declaration { is_typedef, specifiers, declarators, .. }) => {
            assert!(!is_typedef);
            match specifiers {
                List::Cons(TypeSpecifier::Named(sp), _) => {
                    assert_eq!(&p.source[sp.start..sp.end], "T");
                }
                other => panic!("specifier not a typedef name: {:?}", other),
            }
            match declarators {
                List::Cons(id, _) => {
                    assert_eq!(name_of(&p, &id.declarator), "x");
                }
                List::Nil => panic!("no declarator"),
            }
        }
        other => panic!("not a declaration: {:?}", other),
    }
}

#[test]
fn typedef_is_not_retroactive() {
    assert!(parse(Flavor::StdC11, "T x; typedef int T;").is_err());
}

#[test]
fn typedef_shadowed_by_parameter() {
    let text = "typedef int T; void f(int T) { T = 3; } T y;";
    let p = parse(Flavor::StdC11, text).expect("parses");
    assert_eq!(items(&p).len(), 3);
}

#[test]
fn scope_reverts_after_function() {
    // with the parameter shadowing T, `T x;` in the body is no
    // longer a declaration and does not parse ...
    assert!(parse(Flavor::StdC11, "typedef int T; void f(int T) { T x; }").is_err());
    // ... while without the shadowing parameter it is one.
    assert!(parse(Flavor::StdC11, "typedef int T; void f(int u) { T x; }").is_ok());
}

#[test]
fn furthest_failure_unions_alternatives() {
    let e = parse(Flavor::StdC11, "int main(void) { + }").expect_err("fails");
    // both a declaration and a statement were possible: the expected
    // set holds tokens of both alternatives.
    assert!(e.expected.iter().any(|t| t == "identifier"), "{:?}", e.expected);
    assert!(e.expected.iter().any(|t| t == "int"), "{:?}", e.expected);
    assert!(e.expected.iter().any(|t| t == "}"), "{:?}", e.expected);
}

#[test]
fn expected_list_is_sorted_and_deduplicated() {
    let e = parse(Flavor::StdC11, "int main(void) { + }").expect_err("fails");
    let mut sorted = e.expected.clone();
    sorted.sort();
    sorted.dedup();
    assert_eq!(e.expected, sorted);
}

#[test]
fn flavor_monotonicity_on_standard_inputs() {
    for text in [
        "int main(void) { return 0; }",
        "typedef int T; T x;",
        "enum E { A, B } e;",
        "typedef int T; int y = (T)1;",
        "int x = 1 + 2 * 3;",
        "void f(void) { if (1) { ; } else { return; } }",
    ] {
        let std = parse(Flavor::StdC11, text).expect("accepted under the standard flavor");
        let gnu = parse(Flavor::GnuC11, text).expect("accepted under GNU");
        let clang = parse(Flavor::ClangC11, text).expect("accepted under Clang");
        assert_eq!(std.unit, gnu.unit, "GNU tree differs for {}", text);
        assert_eq!(std.unit, clang.unit, "Clang tree differs for {}", text);
    }
}

#[test]
fn idempotent_reparse() {
    let text = "typedef int T; T f(void) { return (T)0; }";
    let a = parse(Flavor::GnuC11, text).expect("parses");
    let b = parse(Flavor::GnuC11, text).expect("parses");
    assert_eq!(a.unit, b.unit);
}

#[test]
fn typeof_gated_by_flavor() {
    let text = "int x = 0; typeof(x) y;";
    assert!(parse(Flavor::GnuC11, text).is_ok());
    assert!(parse(Flavor::ClangC11, text).is_ok());
    assert!(parse(Flavor::StdC11, text).is_err());
}

#[test]
fn nullable_gated_by_clang() {
    let text = "int *_Nullable p;";
    assert!(parse(Flavor::ClangC11, text).is_ok());
    assert!(parse(Flavor::GnuC11, text).is_err());
    assert!(parse(Flavor::StdC11, text).is_err());
}

#[test]
fn extension_prefix_gated() {
    let text = "__extension__ typedef int T;";
    assert!(parse(Flavor::GnuC11, text).is_ok());
    assert!(parse(Flavor::StdC11, text).is_err());
}

#[test]
fn enum_constants_are_declared() {
    let p = parse(Flavor::StdC11, "enum E { A, B, } e; int x = A;").expect("parses");
    assert_eq!(items(&p).len(), 2);
}

#[test]
fn unterminated_string_fails() {
    let e = parse(Flavor::StdC11, "char *s = \"abc;").expect_err("fails");
    assert!(e.expected.iter().any(|t| t == "string terminator"), "{:?}", e.expected);
}

#[test]
fn unknown_byte_fails() {
    let e = parse(Flavor::StdC11, "int x; \u{1}").expect_err("fails");
    assert!(e.expected.iter().any(|t| t == "token"), "{:?}", e.expected);
}

#[test]
fn trailing_garbage_fails() {
    assert!(parse(Flavor::StdC11, "int x; )").is_err());
}

#[test]
fn error_carries_naive_line_and_column() {
    let e = parse(Flavor::StdC11, "int x;\nint y\nint z;").expect_err("fails");
    // failure at the `int` on line 3, column 1
    assert_eq!(e.line, 3);
    assert_eq!(e.column, 1);
    assert_eq!(e.offset, "int x;\nint y\n".len());
}

#[test]
fn syntax_error_converts_into_error() {
    let e = parse(Flavor::StdC11, "int").expect_err("fails");
    match Error::from(e) {
        Error::SyntaxError(_) => {}
        other => panic!("wrong variant: {:?}", other),
    }
}

#[test]
fn preprocessor_error_is_distinct() {
    let e = Error::PreprocessorError("exited with code 1".to_string());
    match e {
        Error::PreprocessorError(msg) => assert_eq!(msg, "exited with code 1"),
        other => panic!("wrong variant: {:?}", other),
    }
}

#[test]
fn config_constructors() {
    let g = Config::with_gcc();
    assert_eq!(g.cpp_command, "gcc");
    assert_eq!(g.cpp_options, vec!["-E".to_string()]);
    assert_eq!(g.flavor, Flavor::GnuC11);
    let c = Config::with_clang();
    assert_eq!(c.cpp_command, "clang");
    assert_eq!(c.flavor, Flavor::ClangC11);
    let d = Config::default();
    assert_eq!(d.flavor, Flavor::GnuC11);
}
