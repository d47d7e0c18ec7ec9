use lang_c::driver::{parse_preprocessed, Config, Flavor};
use lang_c::loc::get_location_for_offset;

#[test]
fn no_markers_is_line_one_onward() {
    let text = "int a;\nint b;\n";
    let (loc, chain) = get_location_for_offset(text, text.find("int b").unwrap());
    assert_eq!(loc.file, "");
    assert_eq!(loc.line, 2);
    assert!(chain.is_empty());
}

#[test]
fn marker_sets_file_and_line() {
    // a marker stating line 7 of foo.h, then two more physical lines
    let text = "# 7 \"foo.h\"\nab\ncd\n";
    let (loc, _) = get_location_for_offset(text, text.find("ab").unwrap());
    assert_eq!(loc.file, "foo.h");
    assert_eq!(loc.line, 7);
    let (loc2, _) = get_location_for_offset(text, text.find("cd").unwrap());
    assert_eq!(loc2.file, "foo.h");
    assert_eq!(loc2.line, 8);
}

#[test]
fn include_chain_is_tracked() {
    let text = "# 1 \"main.c\"\nint a;\n# 1 \"foo.h\" 1\nint b;\n# 3 \"main.c\" 2\nint c;\n";
    let (loc, chain) = get_location_for_offset(text, text.find("int b").unwrap());
    assert_eq!(loc.file, "foo.h");
    assert_eq!(loc.line, 1);
    assert_eq!(chain.len(), 1);
    assert_eq!(chain[0].file, "main.c");
    assert_eq!(chain[0].line, 2);
    // after returning, the chain is empty again
    let (loc2, chain2) = get_location_for_offset(text, text.find("int c").unwrap());
    assert_eq!(loc2.file, "main.c");
    assert_eq!(loc2.line, 3);
    assert!(chain2.is_empty());
}

#[test]
fn malformed_marker_is_ordinary_text() {
    let text = "# not a marker\nint a;\n";
    let (loc, chain) = get_location_for_offset(text, text.find("int a").unwrap());
    assert_eq!(loc.file, "");
    assert_eq!(loc.line, 2);
    assert!(chain.is_empty());
}

#[test]
fn error_location_resolves_through_markers() {
    let text = "# 41 \"header.h\"\nint x\n";
    let cfg = {
        let mut c = Config::with_gcc();
        c.flavor = Flavor::StdC11;
        c
    };
    let e = parse_preprocessed(&cfg, text.to_string()).expect_err("fails");
    let (loc, chain) = e.get_location();
    assert_eq!(loc.file, "header.h");
    assert_eq!(loc.line, 42);
    assert!(chain.is_empty());
}
