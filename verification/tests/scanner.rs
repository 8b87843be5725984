use ng_core::lint::{BuildError, LintMsg};
use ng_core::module::{ModuleData, ModuleInfo, PathProbe};
use ng_core::parser::{
    get_function_name, protected_static_from, ModuleParser, C_NAME, PROTECTED_STATIC_PATTERN,
};

fn info(name: &str) -> ModuleInfo {
    ModuleInfo {
        name: name.to_string(),
        path: format!("src/{}.rs", name),
        file_name: format!("{}.rs", name),
    }
}

fn lines(text: &[&str]) -> Vec<String> {
    text.iter().map(|l| l.to_string()).collect()
}

fn scan(name: &str, text: &[&str]) -> Result<ModuleData, BuildError> {
    let info = info(name);
    let mut parser = ModuleParser::new(&info);
    parser.run(&lines(text), None)
}

fn export(cfg: Option<&str>, func: &str) -> (Option<String>, String) {
    (cfg.map(|c| c.to_string()), func.to_string())
}

fn lint_of(r: Result<ModuleData, BuildError>) -> (String, u32, String) {
    match r {
        Err(BuildError::Lint(m)) => (m.modname().to_string(), m.lineno(), m.msg().to_string()),
        other => panic!("expected a lint error, got {:?}", other),
    }
}

#[test]
fn lint_msg_keeps_its_parts() {
    let m = LintMsg::new("buffers", 12, "no good".to_string());
    assert_eq!(m.modname(), "buffers");
    assert_eq!(m.lineno(), 12);
    assert_eq!(m.msg(), "no good");
}

#[test]
fn fail_reports_place_and_complaint() {
    let f = LintMsg::new("buffers", 12, "no good".to_string()).fail(3);
    assert_eq!(f.code, 3);
    assert_eq!(f.text, "In buffers on line 12\nno good\n");
    let g = LintMsg::new("", 0, String::new()).fail(-1);
    assert_eq!(g.code, -1);
    assert_eq!(g.text, "In  on line 0\n\n");
    let h = LintMsg::new("m", u32::MAX, "x\ny".to_string()).fail(i32::MAX);
    assert_eq!(h.text, "In m on line 4294967295\nx\ny\n");
}

#[test]
fn build_error_from_its_causes() {
    let io = std::io::Error::new(std::io::ErrorKind::NotFound, "gone");
    match BuildError::from(io) {
        BuildError::IOError(e) => assert_eq!(e.kind(), std::io::ErrorKind::NotFound),
        other => panic!("unexpected {:?}", other),
    }
    match BuildError::from(LintMsg::new("m", 1, "x".to_string())) {
        BuildError::Lint(m) => assert_eq!(m.msg(), "x"),
        other => panic!("unexpected {:?}", other),
    }
}

#[test]
fn from_path_takes_a_source_file() {
    let probe = PathProbe {
        path: "crates/x/src/frames.rs".to_string(),
        is_dir: false,
        file_name: Some("frames.rs".to_string()),
        file_stem: Some("frames".to_string()),
        extension: Some("rs".to_string()),
        mod_rs: None,
    };
    let info = ModuleInfo::from_path(&probe).unwrap();
    assert_eq!(info.name, "frames");
    assert_eq!(info.path, "crates/x/src/frames.rs");
    assert_eq!(info.file_name, "frames.rs");
    let copy = info.clone();
    assert_eq!(copy.name, info.name);
    assert_eq!(copy.path, info.path);
    assert_eq!(copy.file_name, info.file_name);
}

#[test]
fn from_path_takes_a_directory_with_mod_rs() {
    let probe = PathProbe {
        path: "crates/x/src/remacs".to_string(),
        is_dir: true,
        file_name: Some("remacs".to_string()),
        file_stem: Some("remacs".to_string()),
        extension: None,
        mod_rs: Some("crates/x/src/remacs/mod.rs".to_string()),
    };
    let info = ModuleInfo::from_path(&probe).unwrap();
    assert_eq!(info.name, "remacs");
    assert_eq!(info.path, "crates/x/src/remacs/mod.rs");
    assert_eq!(info.file_name, "mod.rs");
}

#[test]
fn from_path_passes_over_the_rest() {
    let dir = PathProbe {
        path: "src/data".to_string(),
        is_dir: true,
        file_name: Some("data".to_string()),
        file_stem: Some("data".to_string()),
        extension: None,
        mod_rs: None,
    };
    assert!(ModuleInfo::from_path(&dir).is_none());
    let dir_named_rs = PathProbe {
        path: "src/odd.rs".to_string(),
        is_dir: true,
        file_name: Some("odd.rs".to_string()),
        file_stem: Some("odd".to_string()),
        extension: Some("rs".to_string()),
        mod_rs: None,
    };
    assert!(ModuleInfo::from_path(&dir_named_rs).is_none());
    let text = PathProbe {
        path: "src/notes.txt".to_string(),
        is_dir: false,
        file_name: Some("notes.txt".to_string()),
        file_stem: Some("notes".to_string()),
        extension: Some("txt".to_string()),
        mod_rs: None,
    };
    assert!(ModuleInfo::from_path(&text).is_none());
    let bare = PathProbe {
        path: "src/Makefile".to_string(),
        is_dir: false,
        file_name: Some("Makefile".to_string()),
        file_stem: Some("Makefile".to_string()),
        extension: None,
        mod_rs: None,
    };
    assert!(ModuleInfo::from_path(&bare).is_none());
}

#[test]
fn module_data_starts_empty() {
    let d = ModuleData::new(info("m"));
    assert_eq!(d.info.name, "m");
    assert!(d.c_exports.is_empty());
    assert!(d.lisp_fns.is_empty());
    assert!(d.protected_statics.is_empty());
}

#[test]
fn function_name_stands_between_fn_and_paren() {
    assert_eq!(get_function_name("pub fn foo(x: i32) -> i32 {"), Some("foo".to_string()));
    assert_eq!(get_function_name("pub extern \"C\" fn   bar  ()"), Some("bar".to_string()));
    assert_eq!(get_function_name("fn baz<T>(t: T)"), Some("baz<T>".to_string()));
    assert_eq!(get_function_name("fn (x)"), Some("".to_string()));
    assert_eq!(get_function_name("pub fn foo"), None);
    assert_eq!(get_function_name("call(x)"), None);
    assert_eq!(get_function_name(""), None);
    assert_eq!(get_function_name("pub fn é(ü: fn (i32))"), Some("é".to_string()));
}

#[test]
fn constants_of_the_scanner() {
    assert_eq!(C_NAME, "c_name = \"");
    assert_eq!(PROTECTED_STATIC_PATTERN, "GC_protected_static!\\((.+), .+\\);");
}

#[test]
fn new_parser_stands_before_the_first_line() {
    let info = info("m");
    let parser = ModuleParser::new(&info);
    assert_eq!(parser.lineno(), 0);
}

#[test]
fn parser_fail_asks_for_an_exit() {
    let info = info("keyboard");
    let parser = ModuleParser::new(&info);
    match parser.fail(7, "broken") {
        BuildError::Exit(code, m) => {
            assert_eq!(code, 7);
            assert_eq!(m.modname(), "keyboard");
            assert_eq!(m.lineno(), 0);
            assert_eq!(m.msg(), "broken");
        },
        other => panic!("unexpected {:?}", other),
    }
}

#[test]
fn protected_static_is_the_first_group() {
    let info = info("m");
    let parser = ModuleParser::new(&info);
    let name = parser.parse_gc_protected_static("declare_GC_protected_static!(Vfoo, Qnil);");
    assert_eq!(name.unwrap(), "Vfoo");
    let greedy = parser.parse_gc_protected_static("declare_GC_protected_static!(a, b, c);");
    assert_eq!(greedy.unwrap(), "a, b");
    let bad = parser.parse_gc_protected_static("declare_GC_protected_static!(Vfoo)").unwrap_err();
    assert_eq!(bad.modname(), "m");
    assert_eq!(bad.lineno(), 0);
    assert_eq!(bad.msg(), "could not parse protected static");
}

#[test]
fn protected_static_from_a_capture() {
    assert_eq!(protected_static_from(Ok(Some("V".to_string())), "m", 3).unwrap(), "V");
    let none = protected_static_from(Ok(None), "m", 3).unwrap_err();
    assert_eq!((none.modname(), none.lineno(), none.msg()), ("m", 3, "could not parse protected static"));
    let rejected = regex::Regex::new("(").unwrap_err();
    let bad = protected_static_from(Err(rejected), "n", 4).unwrap_err();
    assert_eq!((bad.modname(), bad.lineno(), bad.msg()), ("n", 4, "could not parse protected static"));
}

#[test]
fn parse_c_export_wants_a_public_function() {
    let info = info("m");
    let parser = ModuleParser::new(&info);
    assert_eq!(parser.parse_c_export("pub fn foo() {", None).unwrap(), Some("foo".to_string()));
    assert_eq!(
        parser.parse_c_export("pub fn foo() {", Some("Fbar".to_string())).unwrap(),
        Some("Fbar".to_string())
    );
    assert_eq!(parser.parse_c_export("pub static X: i32 = 1;", None).unwrap(), None);
    match parser.parse_c_export("fn foo() {", None) {
        Err(BuildError::Lint(m)) => {
            assert_eq!(m.msg(), "\n`foo` is not public.\nfunction must be public.")
        },
        other => panic!("unexpected {:?}", other),
    }
    match parser.parse_c_export("async fn foo() {", None) {
        Err(BuildError::Unhandled(m)) => assert_eq!(m.msg(), "Unhandled code"),
        other => panic!("unexpected {:?}", other),
    }
    match parser.parse_c_export("pub static F: Option<(fn (i32))> = None;", None) {
        Err(BuildError::Unhandled(m)) => {
            assert_eq!(m.msg(), "Unhandled code: no function name before `(`")
        },
        other => panic!("unexpected {:?}", other),
    }
    assert_eq!(
        parser
            .parse_c_export("pub static F: Option<(fn (i32))> = None;", Some("n".to_string()))
            .unwrap(),
        Some("n".to_string())
    );
}

#[test]
fn validate_uses_the_given_message() {
    let info = info("m");
    let parser = ModuleParser::new(&info);
    match parser.validate_exported_function(None, "fn  spaced () {", "make it pub") {
        Err(BuildError::Lint(m)) => assert_eq!(m.msg(), "\n`spaced` is not public.\nmake it pub"),
        other => panic!("unexpected {:?}", other),
    }
}

#[test]
fn lint_nomangle_wants_extern_c() {
    let info = info("m");
    let parser = ModuleParser::new(&info);
    assert!(parser.lint_nomangle("pub extern \"C\" fn f() {").is_ok());
    assert!(parser.lint_nomangle("pub unsafe extern \"C\" fn f() {").is_ok());
    let bad = parser.lint_nomangle("pub fn f() {").unwrap_err();
    assert_eq!(bad.msg(), "'no_mangle' functions exported for C need 'extern \"C\"' too.");
    assert!(parser.lint_nomangle("pub extern \"C\"").is_err());
}

#[test]
fn scan_of_an_empty_module() {
    let d = scan("m", &[]).unwrap();
    assert!(d.c_exports.is_empty() && d.lisp_fns.is_empty() && d.protected_statics.is_empty());
    assert_eq!(d.info.name, "m");
}

#[test]
fn scan_finds_all_kinds_of_exports() {
    let text = [
        "//! A module.",
        "include!(concat!(env!(\"OUT_DIR\"), \"/m_exports.rs\"));",
        "",
        "#[cfg(feature = \"x\")]",
        "#[no_mangle]",
        "pub extern \"C\" fn first(a: i32) -> i32 {",
        "    a",
        "}",
        "#[no_mangle]",
        "pub unsafe extern \"C\" fn second() {}",
        "#[cfg(unix)]",
        "#[lisp_fn]",
        "pub fn third(x: LispObject) -> LispObject {",
        "    x",
        "}",
        "#[lisp_fn(c_name = \"fourth_c\", min = \"1\")]",
        "pub fn fourth(x: LispObject) -> LispObject {",
        "#[lisp_fn(",
        "    min = \"2\",",
        "    c_name = \"fifth_c\"",
        ")]",
        "pub fn fifth() {}",
        "#[cfg(windows)]",
        "#[async_stream]",
        "pub async fn sixth(s: Stream) {",
        "declare_GC_protected_static!(Vstatic, Qnil);",
        "/* a comment",
        "#[no_mangle]",
        "that ends here */",
        "#[no_mangle]",
        "pub static mut COUNTER: i32 = 0;",
    ];
    let d = scan("m", &text).unwrap();
    assert_eq!(
        d.c_exports,
        vec![export(Some("#[cfg(feature = \"x\")]"), "first"), export(None, "second")]
    );
    assert_eq!(
        d.lisp_fns,
        vec![
            export(Some("#[cfg(unix)]"), "third"),
            export(None, "fourth_c"),
            export(None, "fifth_c"),
            export(Some("#[cfg(windows)]"), "call_sixth"),
        ]
    );
    assert_eq!(d.protected_statics, vec!["Vstatic".to_string()]);
}

#[test]
fn indented_lines_are_passed_over() {
    let text = [
        "include!(concat!(",
        "#[cfg(a)]",
        "    #[cfg(b)]",
        " #[no_mangle]",
        "#[lisp_fn]",
        "pub fn f() {}",
    ];
    let d = scan("m", &text).unwrap();
    assert_eq!(d.lisp_fns, vec![export(Some("#[cfg(a)]"), "f")]);
}

#[test]
fn any_other_line_forgets_the_cfg() {
    let text = ["include!(concat!(", "#[cfg(a)]", "#[derive(Debug)]", "#[lisp_fn]", "pub fn f() {}"];
    let d = scan("m", &text).unwrap();
    assert_eq!(d.lisp_fns, vec![export(None, "f")]);
}

#[test]
fn static_include_and_comment_keep_the_cfg() {
    let text = [
        "#[cfg(a)]",
        "declare_GC_protected_static!(V, Qnil);",
        "include!(concat!(",
        "/* one",
        "two */",
        "#[lisp_fn]",
        "pub fn f() {}",
    ];
    let d = scan("m", &text).unwrap();
    assert_eq!(d.lisp_fns, vec![export(Some("#[cfg(a)]"), "f")]);
    assert_eq!(d.protected_statics, vec!["V".to_string()]);
}

#[test]
fn macro_c_names_are_passed_over() {
    let text = [
        "include!(concat!(",
        "#[cfg(a)]",
        "#[lisp_fn(c_name = \"$name\")]",
        "#[lisp_fn]",
        "pub fn real() {}",
    ];
    let d = scan("m", &text).unwrap();
    assert_eq!(d.lisp_fns, vec![export(Some("#[cfg(a)]"), "real")]);
}

#[test]
fn export_line_that_is_no_function_clears_the_cfg() {
    let text = ["#[cfg(a)]", "#[no_mangle]", "pub static X: u8 = 0;", "#[no_mangle]", "pub extern \"C\" fn f() {}"];
    let d = scan("m", &text).unwrap();
    assert_eq!(d.c_exports, vec![export(None, "f")]);
}

#[test]
fn one_line_comment_is_an_ordinary_line() {
    let text = ["/* short */", "#[no_mangle]", "pub extern \"C\" fn f() {}"];
    let d = scan("m", &text).unwrap();
    assert_eq!(d.c_exports, vec![export(None, "f")]);
}

#[test]
fn unfinished_comment_runs_to_the_end() {
    let text = ["/* never closed", "#[no_mangle]", "pub extern \"C\" fn f() {}"];
    let d = scan("m", &text).unwrap();
    assert!(d.c_exports.is_empty());
}

#[test]
fn private_export_is_a_lint_error() {
    let text = ["// one", "// two", "#[no_mangle]", "fn hidden() {}"];
    let (modname, lineno, msg) = lint_of(scan("keyboard", &text));
    assert_eq!(modname, "keyboard");
    assert_eq!(lineno, 3);
    assert_eq!(msg, "\n`hidden` is not public.\nfunction must be public.");
}

#[test]
fn no_mangle_without_extern_is_a_lint_error() {
    let text = ["#[no_mangle]", "pub fn plain() {}"];
    let (_, lineno, msg) = lint_of(scan("m", &text));
    assert_eq!(lineno, 1);
    assert_eq!(msg, "'no_mangle' functions exported for C need 'extern \"C\"' too.");
}

#[test]
fn bad_protected_static_is_a_lint_error() {
    let text = ["", "declare_GC_protected_static!(broken"];
    let (_, lineno, msg) = lint_of(scan("m", &text));
    assert_eq!(lineno, 2);
    assert_eq!(msg, "could not parse protected static");
}

#[test]
fn line_numbers_count_passes_not_lines() {
    let text = [
        "include!(concat!(",
        "#[lisp_fn(",
        "  min = \"1\"",
        ")]",
        "pub fn a() {}",
        "#[no_mangle]",
        "fn hidden() {}",
    ];
    let (_, lineno, _) = lint_of(scan("m", &text));
    assert_eq!(lineno, 3);
}

#[test]
fn export_cut_off_by_the_end_of_the_file() {
    for (text, msg) in [
        (vec!["#[no_mangle]"], "unexpected end of file"),
        (vec!["#[lisp_fn]"], "unexpected end of file"),
        (vec!["#[lisp_fn(", "min = \"1\""], "unexpected end of file"),
        (vec!["#[async_stream]"], "Unexpected end of file"),
    ] {
        match scan("m", &text) {
            Err(BuildError::Exit(code, m)) => {
                assert_eq!(code, 1);
                assert_eq!(m.msg(), msg);
                assert_eq!(m.lineno(), 1);
                assert_eq!(m.modname(), "m");
            },
            other => panic!("unexpected {:?}", other),
        }
    }
}

#[test]
fn missing_include_stops_the_build() {
    for text in [vec!["#[lisp_fn]", "pub fn f() {}"], vec!["declare_GC_protected_static!(V, Qnil);"]] {
        match scan("frames", &text) {
            Err(BuildError::Exit(code, m)) => {
                assert_eq!(code, 2);
                assert_eq!(
                    m.msg(),
                    "frames.rs is missing the required include for protected statics or lisp_fn exports."
                );
                assert_eq!(m.lineno(), text.len() as u32 - (text.len() as u32 - 1));
            },
            other => panic!("unexpected {:?}", other),
        }
    }
    let only_c = scan("frames", &["#[no_mangle]", "pub extern \"C\" fn f() {}"]).unwrap();
    assert_eq!(only_c.c_exports.len(), 1);
}

#[test]
fn shapes_without_a_rule_are_unhandled() {
    match scan("m", &["#[no_mangle]", "async fn f() {}"]) {
        Err(BuildError::Unhandled(m)) => {
            assert_eq!(m.msg(), "Unhandled code");
            assert_eq!(m.lineno(), 1);
        },
        other => panic!("unexpected {:?}", other),
    }
    match scan("m", &["#[lisp_fn(c_name = \"open)]", "pub fn f() {}"]) {
        Err(BuildError::Unhandled(m)) => {
            assert_eq!(m.msg(), "Unhandled code: `c_name` is not closed")
        },
        other => panic!("unexpected {:?}", other),
    }
    match scan("m", &["#[no_mangle]", "pub static F: (fn (i32)) = g;"]) {
        Err(BuildError::Unhandled(m)) => {
            assert_eq!(m.msg(), "Unhandled code: no function name before `(`")
        },
        other => panic!("unexpected {:?}", other),
    }
}

#[test]
fn read_error_comes_where_the_input_ends() {
    let info = info("m");
    for text in [
        vec![],
        vec!["// fine"],
        vec!["#[no_mangle]"],
        vec!["#[lisp_fn(", "min = \"1\""],
        vec!["#[lisp_fn]"],
        vec!["#[async_stream]"],
        vec!["/* open"],
        vec!["#[lisp_fn]", "pub fn f() {}"],
    ] {
        let mut parser = ModuleParser::new(&info);
        let broken = std::io::Error::new(std::io::ErrorKind::InvalidData, "bad bytes");
        match parser.run(&lines(&text), Some(broken)) {
            Err(BuildError::IOError(e)) => assert_eq!(e.kind(), std::io::ErrorKind::InvalidData),
            other => panic!("unexpected {:?} for {:?}", other, text),
        }
    }
}

#[test]
fn earlier_failure_wins_over_a_read_error() {
    let info = info("m");
    let mut parser = ModuleParser::new(&info);
    let broken = std::io::Error::new(std::io::ErrorKind::InvalidData, "bad bytes");
    let r = parser.run(&lines(&["#[no_mangle]", "fn hidden() {}", "// more"]), Some(broken));
    assert!(matches!(r, Err(BuildError::Lint(_))));
    assert_eq!(parser.lineno(), 1);
}

#[test]
fn parser_counts_on_from_where_it_stood() {
    let info = info("m");
    let mut parser = ModuleParser::new(&info);
    parser.run(&lines(&["a", "b", "/* c", "d */", "e"]), None).unwrap();
    assert_eq!(parser.lineno(), 4);
    let r = parser.run(&lines(&["x", "#[no_mangle]", "fn hidden() {}"]), None);
    let (_, lineno, _) = lint_of(r);
    assert_eq!(lineno, 6);
    assert_eq!(parser.lineno(), 6);
}
