//! The glue files that make a crate's exports visible to the host, as texts.
use vstd::prelude::*;
use crate::lint::{BuildError, BuildErrorView};
use crate::module::{Export, ModuleData, ModuleDataView};
use crate::outside::{manifest_package_name, package_name};
use crate::text::{chars_of, has_prefix, same_text, starts_with};

verus! {

/// The features that the host is built with, as far as they decide which
/// crates take part.
#[derive(Clone, Copy, Debug, PartialEq, Eq, Structural)]
pub struct Features {
    pub libgit: bool,
    pub javascript: bool,
    pub ng_module: bool,
    pub window_system_webrender: bool,
}

/// A crate directory: its name and the text of the manifest in it.
#[derive(Debug)]
pub struct CrateDir {
    pub dir_name: String,
    pub manifest: String,
}

/// The file that holds the exports of one module to Lisp. Whatever was
/// there before is removed; `content` is what the file is then made with,
/// and `None` leaves the module without such a file.
#[derive(Debug)]
pub struct ExportsFile {
    pub name: String,
    pub content: Option<String>,
}

/// Whether a directory entry is passed over when a crate's sources are
/// walked: one without a name, a hidden one, `lib.rs`, and those of
/// `additional`.
pub open spec fn spec_ignore(path: Seq<char>, additional: Seq<Seq<char>>) -> bool {
    path.len() == 0 || starts_with(path, "."@) || path == "lib.rs"@ || additional.contains(path)
}

/// The crates that take no part with the features `features`: three that
/// never do, and each optional one whose feature is off.
pub open spec fn spec_ignored_crates(features: Features) -> Seq<Seq<char>> {
    seq!["lisp_util"@, "lisp_macros"@, "emacs"@] + (if features.libgit {
        Seq::<Seq<char>>::empty()
    } else {
        seq!["git"@]
    }) + (if features.javascript {
        Seq::<Seq<char>>::empty()
    } else {
        seq!["js"@]
    }) + (if features.ng_module {
        Seq::<Seq<char>>::empty()
    } else {
        seq!["ng_module"@]
    }) + (if features.window_system_webrender {
        Seq::<Seq<char>>::empty()
    } else {
        seq!["webrender"@]
    })
}

/// The name of a crate: the package name of its manifest, else the name of
/// its directory.
pub open spec fn spec_crate_name(package: Option<Seq<char>>, dir_name: Seq<char>) -> Seq<char> {
    match package {
        Some(name) => name,
        None => dir_name,
    }
}

/// The items of `items`, with `sep` between every two.
pub open spec fn join(items: Seq<Seq<char>>, sep: Seq<char>) -> Seq<char>
    decreases items.len(),
{
    if items.len() == 0 {
        Seq::empty()
    } else if items.len() == 1 {
        items[0]
    } else {
        join(items.drop_last(), sep) + sep + items.last()
    }
}

/// The line that re-exports one function of the module `modname`, below
/// the `#[cfg(..)]` line that goes with it. `prefix` stands before the
/// function's name.
pub open spec fn use_line(modname: Seq<char>, prefix: Seq<char>, export: (
    Option<Seq<char>>,
    Seq<char>,
)) -> Seq<char> {
    (match export.0 {
        Some(cfg) => cfg + "\n"@,
        None => Seq::empty(),
    }) + "pub use crate::"@ + modname + "::"@ + prefix + export.1 + ";\n"@
}

/// The lines that re-export the functions of `exports`, in order.
pub open spec fn use_lines(
    modname: Seq<char>,
    prefix: Seq<char>,
    exports: Seq<(Option<Seq<char>>, Seq<char>)>,
) -> Seq<char>
    decreases exports.len(),
{
    if exports.len() == 0 {
        Seq::empty()
    } else {
        use_lines(modname, prefix, exports.drop_last()) + use_line(modname, prefix, exports.last())
    }
}

/// The lines that re-export what the modules of `modules` export: for each
/// module its C exports under their own names, then its Lisp functions
/// under `F` and their names.
pub open spec fn modules_use_lines(modules: Seq<ModuleDataView>) -> Seq<char>
    decreases modules.len(),
{
    if modules.len() == 0 {
        Seq::empty()
    } else {
        let m = modules.last();
        modules_use_lines(modules.drop_last()) + use_lines(m.info.name, Seq::empty(), m.c_exports)
            + use_lines(m.info.name, "F"@, m.lisp_fns)
    }
}

/// The text of a crate's file of re-exports.
pub open spec fn spec_c_export_file(modules: Seq<ModuleDataView>) -> Seq<char> {
    modules_use_lines(modules) + "\n"@
}

/// How a Lisp function is named in the list of a module's exports.
pub open spec fn lisp_item(export: (Option<Seq<char>>, Seq<char>)) -> Seq<char> {
    match export.0 {
        Some(cfg) => cfg + " "@ + export.1,
        None => export.1,
    }
}

/// How the Lisp functions of `exports` are named in the list of a module's
/// exports, in order.
pub open spec fn lisp_items(exports: Seq<(Option<Seq<char>>, Seq<char>)>) -> Seq<Seq<char>> {
    Seq::new(exports.len(), |i: int| lisp_item(exports[i]))
}

/// The part of a module's exports file that lists its Lisp functions;
/// empty where it has none.
pub open spec fn lisp_part(m: ModuleDataView) -> Seq<char> {
    if m.lisp_fns.len() == 0 {
        Seq::empty()
    } else {
        "export_lisp_fns! {\n    "@ + join(lisp_items(m.lisp_fns), ",\n    "@) + "\n}\n"@
    }
}

/// The part of a module's exports file that lists its protected statics;
/// empty where it has none.
pub open spec fn statics_part(m: ModuleDataView) -> Seq<char> {
    if m.protected_statics.len() == 0 {
        Seq::empty()
    } else {
        "protect_statics_from_GC! { "@ + join(m.protected_statics, ", "@) + " }\n"@
    }
}

/// The exports file of a module: named after the module, and holding its
/// Lisp functions and then its protected statics; no file where it has
/// neither.
pub open spec fn spec_exports_file(m: ModuleDataView) -> (Seq<char>, Option<Seq<char>>) {
    (
        m.info.name + "_exports.rs"@,
        if m.lisp_fns.len() == 0 && m.protected_statics.len() == 0 {
            None
        } else {
            Some(lisp_part(m) + statics_part(m))
        },
    )
}

/// The calls that initialise a module: one for its Lisp functions and one
/// for its protected statics, each only where the module has any.
pub open spec fn init_calls(m: ModuleDataView) -> Seq<char> {
    (if m.lisp_fns.len() == 0 {
        Seq::empty()
    } else {
        "    "@ + m.info.name + "::rust_init_syms();\n"@
    }) + (if m.protected_statics.len() == 0 {
        Seq::empty()
    } else {
        "    "@ + m.info.name + "::rust_static_syms();\n"@
    })
}

/// The calls that initialise the modules of `modules`, in order.
pub open spec fn modules_init_calls(modules: Seq<ModuleDataView>) -> Seq<char>
    decreases modules.len(),
{
    if modules.len() == 0 {
        Seq::empty()
    } else {
        modules_init_calls(modules.drop_last()) + init_calls(modules.last())
    }
}

/// The text of a crate's generated bindings: the re-exports, and the
/// function that initialises the crate's modules.
pub open spec fn spec_crate_exports(modules: Seq<ModuleDataView>, crate_name: Seq<char>) -> Seq<
    char,
> {
    spec_c_export_file(modules) + "#[no_mangle]\npub extern \"C\" fn "@ + crate_name
        + "_init_syms() {\n"@ + modules_init_calls(modules) + "}\n"@
}

/// The views of the modules of `modules`.
pub open spec fn modules_view(modules: Seq<ModuleData>) -> Seq<ModuleDataView> {
    Seq::new(modules.len(), |i: int| modules[i]@)
}

/// The call that initialises a crate.
pub open spec fn crate_init_call(crate_name: Seq<char>) -> Seq<char> {
    crate_name + "::"@ + crate_name + "_init_syms();\n"@
}

/// The calls that initialise the crates of `crates` that take part with
/// `features`, in order; `None` where the manifest of one of them cannot be
/// read as one.
pub open spec fn crates_init_calls(crates: Seq<CrateDir>, features: Features) -> Option<Seq<char>>
    decreases crates.len(),
{
    if crates.len() == 0 {
        Some(Seq::empty())
    } else {
        let c = crates.last();
        match crates_init_calls(crates.drop_last(), features) {
            None => None,
            Some(before) => if spec_ignored_crates(features).contains(c.dir_name@) {
                Some(before)
            } else {
                match manifest_package_name(c.manifest@) {
                    None => None,
                    Some(package) => Some(
                        before + crate_init_call(spec_crate_name(package, c.dir_name@)),
                    ),
                }
            },
        }
    }
}

/// The text of the host's own include file: the function that initialises
/// every crate that takes part.
pub open spec fn spec_include_file(crates: Seq<CrateDir>, features: Features) -> Option<Seq<char>> {
    match crates_init_calls(crates, features) {
        Some(calls) => Some("#[no_mangle]\npub extern \"C\" fn rust_init_syms() {\n"@ + calls + "}\n"@),
        None => None,
    }
}

/// Whether `wanted` is one of the texts of `list`.
fn contains_text(list: &Vec<&str>, wanted: &Vec<char>) -> (r: bool)
    ensures
        r == list.deep_view().contains(wanted@),
{
    let mut i: usize = 0;
    while i < list.len()
        invariant
            i <= list.len(),
            forall|j: int| 0 <= j < i ==> list.deep_view()[j] != wanted@,
        decreases list.len() - i,
    {
        if same_text(wanted, list[i]) {
            assert(list.deep_view()[i as int] == wanted@);
            return true;
        }
        i = i + 1;
    }
    false
}

/// Says what to pass over when walking the files of a crate: an entry
/// without a name, a hidden one, `lib.rs`, and those of
/// `additional_ignored_paths`.
pub fn ignore(path: &str, additional_ignored_paths: &Vec<&str>) -> (r: bool)
    ensures
        r == spec_ignore(path@, additional_ignored_paths.deep_view()),
{
    let chars = chars_of(path);
    chars.len() == 0 || has_prefix(&chars, ".") || same_text(&chars, "lib.rs") || contains_text(
        additional_ignored_paths,
        &chars,
    )
}

/// Whether the crate in the directory `crate_dir` takes no part with the
/// features `features`.
pub fn build_ignored_crates(crate_dir: &str, features: &Features) -> (r: bool)
    ensures
        r == spec_ignored_crates(*features).contains(crate_dir@),
{
    let mut ignored: Vec<&str> = Vec::new();
    ignored.push("lisp_util");
    ignored.push("lisp_macros");
    ignored.push("emacs");
    if !features.libgit {
        ignored.push("git");
    }
    if !features.javascript {
        ignored.push("js");
    }
    if !features.ng_module {
        ignored.push("ng_module");
    }
    if !features.window_system_webrender {
        ignored.push("webrender");
    }
    assert(ignored.deep_view() =~= spec_ignored_crates(*features));
    let wanted = chars_of(crate_dir);
    contains_text(&ignored, &wanted)
}

/// The name of a crate, given the package name that its manifest holds, if
/// it holds one: that name, else the name of the crate's directory.
pub fn crate_name_from(package: Option<String>, dir_name: &str) -> (r: String)
    ensures
        r@ == spec_crate_name(package.deep_view(), dir_name@),
{
    match package {
        Some(name) => name,
        None => dir_name.to_owned(),
    }
}

/// The name of the crate in the directory `dir_name` whose manifest has the
/// text `manifest`. A text that is no manifest is an error.
pub fn get_crate_name(manifest: &str, dir_name: &str) -> (r: Result<String, BuildError>)
    ensures
        match manifest_package_name(manifest@) {
            Some(package) => r matches Ok(name) && name@ == spec_crate_name(package, dir_name@),
            None => r matches Err(e) && e is Manifest,
        },
{
    match package_name(manifest) {
        Ok(package) => Ok(crate_name_from(package, dir_name)),
        Err(e) => Err(BuildError::Manifest(e)),
    }
}

/// Appends to `text` the lines that re-export the functions of `exports`.
fn push_use_lines(text: &mut String, modname: &str, prefix: &str, exports: &Vec<Export>)
    ensures
        final(text)@ == old(text)@ + use_lines(modname@, prefix@, exports.deep_view()),
{
    let ghost all = exports.deep_view();
    let mut i: usize = 0;
    assert(all.take(0) =~= Seq::empty());
    assert(old(text)@ + Seq::<char>::empty() =~= old(text)@);
    while i < exports.len()
        invariant
            i <= exports.len(),
            all == exports.deep_view(),
            text@ == old(text)@ + use_lines(modname@, prefix@, all.take(i as int)),
        decreases exports.len() - i,
    {
        let ghost before = text@;
        let export = &exports[i];
        match &export.0 {
            Some(cfg) => {
                text.append(cfg.as_str());
                text.append("\n");
            },
            None => {},
        }
        text.append("pub use crate::");
        text.append(modname);
        text.append("::");
        text.append(prefix);
        text.append(export.1.as_str());
        text.append(";\n");
        proof {
            let done = all.take(i + 1);
            assert(done.drop_last() =~= all.take(i as int));
            assert(done.last() == all[i as int]);
            assert(all[i as int] == (export.0.deep_view(), export.1@));
            assert(text@ =~= before + use_line(modname@, prefix@, all[i as int]));
            assert(text@ =~= old(text)@ + use_lines(modname@, prefix@, done));
        }
        i = i + 1;
    }
    assert(all.take(i as int) =~= all);
}

/// Looks up the exported functions of a crate's modules and composes the
/// text of the crate's file of re-exports.
pub fn generate_crate_c_export_file(modules: &Vec<ModuleData>) -> (text: String)
    ensures
        text@ == spec_c_export_file(modules_view(modules@)),
{
    let ghost all = modules_view(modules@);
    let mut text = String::new();
    let mut i: usize = 0;
    assert(all.take(0) =~= Seq::empty());
    while i < modules.len()
        invariant
            i <= modules.len(),
            all == modules_view(modules@),
            text@ == modules_use_lines(all.take(i as int)),
        decreases modules.len() - i,
    {
        let ghost before = text@;
        let m = &modules[i];
        push_use_lines(&mut text, m.info.name.as_str(), "", &m.c_exports);
        push_use_lines(&mut text, m.info.name.as_str(), "F", &m.lisp_fns);
        proof {
            reveal_strlit("");
            let done = all.take(i + 1);
            assert(done.drop_last() =~= all.take(i as int));
            assert(done.last() == m@);
            assert(""@ =~= Seq::<char>::empty());
            assert(text@ =~= modules_use_lines(done));
        }
        i = i + 1;
    }
    assert(all.take(i as int) =~= all);
    text.append("\n");
    text
}

/// How the Lisp functions of `exports` are named in a list of exports.
fn lisp_item_texts(exports: &Vec<Export>) -> (items: Vec<String>)
    ensures
        items.deep_view() == lisp_items(exports.deep_view()),
{
    let mut items: Vec<String> = Vec::new();
    let mut i: usize = 0;
    while i < exports.len()
        invariant
            i <= exports.len(),
            items.len() == i,
            forall|j: int| 0 <= j < i ==> items@[j]@ == lisp_item(#[trigger] exports.deep_view()[j]),
        decreases exports.len() - i,
    {
        let export = &exports[i];
        let item = match &export.0 {
            Some(cfg) => {
                let mut item = cfg.clone();
                item.append(" ");
                item.append(export.1.as_str());
                item
            },
            None => export.1.clone(),
        };
        assert(exports.deep_view()[i as int] == (export.0.deep_view(), export.1@));
        assert(item@ =~= lisp_item(exports.deep_view()[i as int]));
        items.push(item);
        i = i + 1;
    }
    assert(items.deep_view() =~= lisp_items(exports.deep_view()));
    items
}

/// The texts of `items`, with `sep` between every two.
pub fn join_texts(items: &Vec<String>, sep: &str) -> (text: String)
    ensures
        text@ == join(items.deep_view(), sep@),
{
    let ghost all = items.deep_view();
    let mut text = String::new();
    let mut i: usize = 0;
    assert(all.take(0) =~= Seq::empty());
    while i < items.len()
        invariant
            i <= items.len(),
            all == items.deep_view(),
            text@ == join(all.take(i as int), sep@),
        decreases items.len() - i,
    {
        let ghost before = text@;
        if i > 0 {
            text.append(sep);
        }
        text.append(items[i].as_str());
        proof {
            let done = all.take(i + 1);
            assert(done.drop_last() =~= all.take(i as int));
            assert(done.last() == items@[i as int]@);
            if i == 0 {
                assert(done[0] == items@[0]@);
                assert(text@ =~= items@[0]@);
            } else {
                assert(text@ =~= before + sep@ + items@[i as int]@);
            }
        }
        i = i + 1;
    }
    assert(all.take(i as int) =~= all);
    text
}

/// Composes, for each module, the file that exports its Lisp functions and
/// protects its statics, and the calls that initialise the modules, which
/// go into the crate's own file.
pub fn write_lisp_fns(modules: &Vec<ModuleData>) -> (r: (Vec<ExportsFile>, String))
    ensures
        r.0@.len() == modules@.len(),
        forall|i: int|
            0 <= i < modules@.len() ==> (r.0@[i].name@, r.0@[i].content.deep_view())
                == spec_exports_file(#[trigger] modules@[i]@),
        r.1@ == modules_init_calls(modules_view(modules@)),
{
    let ghost all = modules_view(modules@);
    let mut files: Vec<ExportsFile> = Vec::new();
    let mut calls = String::new();
    let mut i: usize = 0;
    assert(all.take(0) =~= Seq::empty());
    while i < modules.len()
        invariant
            i <= modules.len(),
            all == modules_view(modules@),
            files@.len() == i,
            forall|j: int|
                0 <= j < i ==> (files@[j].name@, files@[j].content.deep_view())
                    == spec_exports_file(#[trigger] modules@[j]@),
            calls@ == modules_init_calls(all.take(i as int)),
        decreases modules.len() - i,
    {
        let ghost before = calls@;
        let m = &modules[i];
        let mut name = m.info.name.clone();
        name.append("_exports.rs");
        let mut content = String::new();
        if m.lisp_fns.len() > 0 {
            let items = lisp_item_texts(&m.lisp_fns);
            let list = join_texts(&items, ",\n    ");
            content.append("export_lisp_fns! {\n    ");
            content.append(list.as_str());
            content.append("\n}\n");
            calls.append("    ");
            calls.append(m.info.name.as_str());
            calls.append("::rust_init_syms();\n");
        }
        assert(content@ =~= lisp_part(m@));
        if m.protected_statics.len() > 0 {
            let list = join_texts(&m.protected_statics, ", ");
            content.append("protect_statics_from_GC! { ");
            content.append(list.as_str());
            content.append(" }\n");
            calls.append("    ");
            calls.append(m.info.name.as_str());
            calls.append("::rust_static_syms();\n");
        }
        assert(content@ =~= lisp_part(m@) + statics_part(m@));
        let content = if m.lisp_fns.len() == 0 && m.protected_statics.len() == 0 {
            None
        } else {
            Some(content)
        };
        files.push(ExportsFile { name, content });
        proof {
            let done = all.take(i + 1);
            assert(done.drop_last() =~= all.take(i as int));
            assert(done.last() == m@);
            assert(calls@ =~= before + init_calls(m@));
        }
        i = i + 1;
    }
    assert(all.take(i as int) =~= all);
    (files, calls)
}

/// Composes the text of a crate's generated bindings: the re-exports of
/// what its modules export, and the function that initialises them.
/// `init_calls` is the second part of what `write_lisp_fns` gives.
pub fn generate_crate_exports(modules: &Vec<ModuleData>, crate_name: &str) -> (r: (
    Vec<ExportsFile>,
    String,
))
    ensures
        r.0@.len() == modules@.len(),
        forall|i: int|
            0 <= i < modules@.len() ==> (r.0@[i].name@, r.0@[i].content.deep_view())
                == spec_exports_file(#[trigger] modules@[i]@),
        r.1@ == spec_crate_exports(modules_view(modules@), crate_name@),
{
    let mut text = generate_crate_c_export_file(modules);
    text.append("#[no_mangle]\npub extern \"C\" fn ");
    text.append(crate_name);
    text.append("_init_syms() {\n");
    let (files, calls) = write_lisp_fns(modules);
    text.append(calls.as_str());
    text.append("}\n");
    (files, text)
}

/// Composes the text of the host's own include file: the function that
/// initialises every crate of `crates` that takes part with `features`. The
/// manifest of a crate that takes no part is not looked at.
pub fn generate_include_files(crates: &Vec<CrateDir>, features: &Features) -> (r: Result<
    String,
    BuildError,
>)
    ensures
        match spec_include_file(crates@, *features) {
            Some(text) => r matches Ok(t) && t@ == text,
            None => r matches Err(e) && e is Manifest,
        },
{
    let mut text = "#[no_mangle]\npub extern \"C\" fn rust_init_syms() {\n".to_owned();
    let ghost head = text@;
    let mut i: usize = 0;
    assert(crates@.take(0) =~= Seq::empty());
    assert(head + Seq::<char>::empty() =~= head);
    while i < crates.len()
        invariant
            i <= crates.len(),
            head == "#[no_mangle]\npub extern \"C\" fn rust_init_syms() {\n"@,
            crates_init_calls(crates@.take(i as int), *features) matches Some(calls) && text@
                == head + calls,
        decreases crates.len() - i,
    {
        let ghost before = text@;
        let ghost done = crates@.take(i + 1);
        assert(done.drop_last() =~= crates@.take(i as int));
        assert(done.last() == crates@[i as int]);
        let c = &crates[i];
        if !build_ignored_crates(c.dir_name.as_str(), features) {
            match get_crate_name(c.manifest.as_str(), c.dir_name.as_str()) {
                Ok(name) => {
                    text.append(name.as_str());
                    text.append("::");
                    text.append(name.as_str());
                    text.append("_init_syms();\n");
                    assert(text@ =~= before + crate_init_call(name@));
                },
                Err(e) => {
                    proof {
                        lemma_bad_manifest_spoils(crates@, *features, i + 1);
                    }
                    return Err(e);
                },
            }
        }
        assert(crates_init_calls(done, *features) matches Some(calls) && text@ =~= head + calls);
        i = i + 1;
    }
    assert(crates@.take(i as int) =~= crates@);
    text.append("}\n");
    Ok(text)
}

/// Once the manifest of one crate cannot be read, no include file comes of
/// the crates, however many follow.
pub proof fn lemma_bad_manifest_spoils(crates: Seq<CrateDir>, features: Features, upto: int)
    requires
        0 <= upto <= crates.len(),
        crates_init_calls(crates.take(upto), features) is None,
    ensures
        crates_init_calls(crates, features) is None,
    decreases crates.len() - upto,
{
    if upto < crates.len() {
        let next = crates.take(upto + 1);
        assert(next.drop_last() =~= crates.take(upto));
        lemma_bad_manifest_spoils(crates, features, upto + 1);
    } else {
        assert(crates.take(upto) =~= crates);
    }
}

} // verus!
