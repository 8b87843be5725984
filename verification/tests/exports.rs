use ng_core::exports::{
    build_ignored_crates, crate_name_from, generate_crate_c_export_file, generate_crate_exports,
    generate_include_files, get_crate_name, ignore, join_texts, write_lisp_fns, CrateDir, Features,
};
use ng_core::lint::BuildError;
use ng_core::module::{ModuleData, ModuleInfo};

fn module(
    name: &str,
    c_exports: &[(Option<&str>, &str)],
    lisp_fns: &[(Option<&str>, &str)],
    statics: &[&str],
) -> ModuleData {
    let own = |list: &[(Option<&str>, &str)]| -> Vec<(Option<String>, String)> {
        list.iter().map(|(c, f)| (c.map(|c| c.to_string()), f.to_string())).collect()
    };
    ModuleData {
        info: ModuleInfo {
            name: name.to_string(),
            path: format!("src/{}.rs", name),
            file_name: format!("{}.rs", name),
        },
        c_exports: own(c_exports),
        lisp_fns: own(lisp_fns),
        protected_statics: statics.iter().map(|s| s.to_string()).collect(),
    }
}

const ALL: Features =
    Features { libgit: true, javascript: true, ng_module: true, window_system_webrender: true };
const NONE: Features =
    Features { libgit: false, javascript: false, ng_module: false, window_system_webrender: false };

#[test]
fn ignore_passes_over_hidden_and_listed_entries() {
    let extra = vec!["lib.rs", "skip.rs"];
    assert!(ignore("", &extra));
    assert!(ignore(".git", &extra));
    assert!(ignore(".", &extra));
    assert!(ignore("lib.rs", &vec![]));
    assert!(ignore("skip.rs", &extra));
    assert!(!ignore("skip.rs", &vec![]));
    assert!(!ignore("frames.rs", &extra));
    assert!(!ignore("lib.rs.bak", &extra));
    assert!(!ignore("a.b", &extra));
}

#[test]
fn ignored_crates_follow_the_features() {
    for name in ["lisp_util", "lisp_macros", "emacs"] {
        assert!(build_ignored_crates(name, &ALL));
        assert!(build_ignored_crates(name, &NONE));
    }
    for name in ["git", "js", "ng_module", "webrender"] {
        assert!(!build_ignored_crates(name, &ALL));
        assert!(build_ignored_crates(name, &NONE));
    }
    let only_git = Features { libgit: true, ..NONE };
    assert!(!build_ignored_crates("git", &only_git));
    assert!(build_ignored_crates("js", &only_git));
    let only_wr = Features { window_system_webrender: true, ..NONE };
    assert!(!build_ignored_crates("webrender", &only_wr));
    assert!(build_ignored_crates("ng_module", &only_wr));
    assert!(!build_ignored_crates("clipboard", &NONE));
    assert!(!build_ignored_crates("", &NONE));
    assert!(!build_ignored_crates("gi", &NONE));
}

#[test]
fn crate_name_prefers_the_package() {
    assert_eq!(crate_name_from(Some("pkg".to_string()), "dir"), "pkg");
    assert_eq!(crate_name_from(None, "dir"), "dir");
}

#[test]
fn crate_name_is_read_from_the_manifest() {
    let manifest = "[package]\nname = \"ng_async\"\nversion = \"0.1.0\"\n";
    assert_eq!(get_crate_name(manifest, "async-dir").unwrap(), "ng_async");
    let workspace = "[workspace]\nmembers = [\"a\"]\n";
    assert_eq!(get_crate_name(workspace, "root-dir").unwrap(), "root-dir");
    assert_eq!(get_crate_name("", "empty").unwrap(), "empty");
    assert!(matches!(get_crate_name("[package", "broken"), Err(BuildError::Manifest(_))));
}

#[test]
fn join_puts_the_separator_between() {
    let own = |l: &[&str]| -> Vec<String> { l.iter().map(|s| s.to_string()).collect() };
    assert_eq!(join_texts(&own(&[]), ", "), "");
    assert_eq!(join_texts(&own(&["a"]), ", "), "a");
    assert_eq!(join_texts(&own(&["a", "b", "c"]), ", "), "a, b, c");
    assert_eq!(join_texts(&own(&["", ""]), "-"), "-");
    assert_eq!(join_texts(&own(&["a", "b"]), ""), "ab");
}

#[test]
fn c_export_file_re_exports_in_order() {
    let modules = vec![
        module("alpha", &[(Some("#[cfg(unix)]"), "one"), (None, "two")], &[(None, "lisp")], &[]),
        module("beta", &[], &[(Some("#[cfg(x)]"), "call_me")], &["V"]),
        module("gamma", &[], &[], &[]),
    ];
    assert_eq!(
        generate_crate_c_export_file(&modules),
        "#[cfg(unix)]\npub use crate::alpha::one;\npub use crate::alpha::two;\n\
         pub use crate::alpha::Flisp;\n#[cfg(x)]\npub use crate::beta::Fcall_me;\n\n"
    );
    assert_eq!(generate_crate_c_export_file(&vec![]), "\n");
}

#[test]
fn exports_files_list_lisp_functions_and_statics() {
    let modules = vec![
        module("alpha", &[(None, "c")], &[(Some("#[cfg(unix)]"), "one"), (None, "two")], &["Va", "Vb"]),
        module("beta", &[], &[(None, "solo")], &[]),
        module("gamma", &[], &[], &["Vc"]),
        module("delta", &[(None, "c")], &[], &[]),
    ];
    let (files, calls) = write_lisp_fns(&modules);
    assert_eq!(files.len(), 4);
    assert_eq!(files[0].name, "alpha_exports.rs");
    assert_eq!(
        files[0].content.as_deref(),
        Some(
            "export_lisp_fns! {\n    #[cfg(unix)] one,\n    two\n}\n\
             protect_statics_from_GC! { Va, Vb }\n"
        )
    );
    assert_eq!(files[1].name, "beta_exports.rs");
    assert_eq!(files[1].content.as_deref(), Some("export_lisp_fns! {\n    solo\n}\n"));
    assert_eq!(files[2].name, "gamma_exports.rs");
    assert_eq!(files[2].content.as_deref(), Some("protect_statics_from_GC! { Vc }\n"));
    assert_eq!(files[3].name, "delta_exports.rs");
    assert_eq!(files[3].content, None);
    assert_eq!(
        calls,
        "    alpha::rust_init_syms();\n    alpha::rust_static_syms();\n    \
         beta::rust_init_syms();\n    gamma::rust_static_syms();\n"
    );
}

#[test]
fn crate_exports_hold_re_exports_and_the_init_function() {
    let modules = vec![module("alpha", &[(None, "c")], &[(None, "l")], &["V"])];
    let (files, text) = generate_crate_exports(&modules, "webrender");
    assert_eq!(files.len(), 1);
    assert_eq!(files[0].name, "alpha_exports.rs");
    assert_eq!(
        text,
        "pub use crate::alpha::c;\npub use crate::alpha::Fl;\n\n\
         #[no_mangle]\npub extern \"C\" fn webrender_init_syms() {\n    \
         alpha::rust_init_syms();\n    alpha::rust_static_syms();\n}\n"
    );
    let (no_files, empty) = generate_crate_exports(&vec![], "x");
    assert!(no_files.is_empty());
    assert_eq!(empty, "\n#[no_mangle]\npub extern \"C\" fn x_init_syms() {\n}\n");
}

#[test]
fn include_file_initialises_the_crates_that_take_part() {
    let dir = |name: &str, manifest: &str| CrateDir {
        dir_name: name.to_string(),
        manifest: manifest.to_string(),
    };
    let crates = vec![
        dir("emacs", "this is never read ["),
        dir("clipboard", "[package]\nname = \"clipboard\"\nversion = \"0.1.0\"\n"),
        dir("git", "[package]\nname = \"ng_git\"\nversion = \"0.1.0\"\n"),
        dir("plain", "[workspace]\n"),
    ];
    assert_eq!(
        generate_include_files(&crates, &ALL).unwrap(),
        "#[no_mangle]\npub extern \"C\" fn rust_init_syms() {\n\
         clipboard::clipboard_init_syms();\nng_git::ng_git_init_syms();\n\
         plain::plain_init_syms();\n}\n"
    );
    assert_eq!(
        generate_include_files(&crates, &NONE).unwrap(),
        "#[no_mangle]\npub extern \"C\" fn rust_init_syms() {\n\
         clipboard::clipboard_init_syms();\nplain::plain_init_syms();\n}\n"
    );
    assert_eq!(
        generate_include_files(&vec![], &ALL).unwrap(),
        "#[no_mangle]\npub extern \"C\" fn rust_init_syms() {\n}\n"
    );
    let broken = vec![dir("clipboard", "[package"), dir("plain", "")];
    assert!(matches!(generate_include_files(&broken, &ALL), Err(BuildError::Manifest(_))));
}
