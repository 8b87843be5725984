//! The modules of a crate and what the scanner found in them.
use vstd::prelude::*;
use crate::text::{chars_of, same_text};

verus! {

/// What the file system and the path itself tell about a path that may hold
/// a module: the answers that the scanner needs, gathered before it is
/// asked.
#[derive(Debug)]
pub struct PathProbe {
    /// The path.
    pub path: String,
    /// Whether the path names a directory.
    pub is_dir: bool,
    /// The last component of the path, if it has one.
    pub file_name: Option<String>,
    /// The last component without its extension.
    pub file_stem: Option<String>,
    /// The extension of the last component, without the dot.
    pub extension: Option<String>,
    /// The path of `mod.rs` below the path, where that is a file.
    pub mod_rs: Option<String>,
}

impl PathProbe {
    /// The answers hang together: a directory has a name, and a Rust source
    /// file has a name and a stem.
    pub open spec fn wf(&self) -> bool {
        &&& self.is_dir ==> self.file_name is Some
        &&& !self.is_dir && self.extension.deep_view() == Some("rs"@) ==> self.file_name is Some
            && self.file_stem is Some
    }
}

/// A module: its name and the file that holds its code.
#[derive(Debug)]
pub struct ModuleInfo {
    pub name: String,
    pub path: String,
    /// The last component of `path`.
    pub file_name: String,
}

/// What a [`ModuleInfo`] holds.
pub struct ModuleInfoView {
    pub name: Seq<char>,
    pub path: Seq<char>,
    pub file_name: Seq<char>,
}

impl View for ModuleInfo {
    type V = ModuleInfoView;

    open spec fn view(&self) -> ModuleInfoView {
        ModuleInfoView { name: self.name@, path: self.path@, file_name: self.file_name@ }
    }
}

impl Clone for ModuleInfo {
    fn clone(&self) -> (r: ModuleInfo)
        ensures
            r@ == self@,
    {
        ModuleInfo {
            name: self.name.clone(),
            path: self.path.clone(),
            file_name: self.file_name.clone(),
        }
    }
}

impl ModuleInfo {
    /// The module that a path holds, if it holds one: a directory with a
    /// `mod.rs` in it is the module of the directory's name, with its code
    /// in that `mod.rs`; any other path with the extension `rs` is the
    /// module of its stem.
    pub open spec fn spec_from_path(probe: &PathProbe) -> Option<ModuleInfoView> {
        if probe.is_dir {
            match probe.mod_rs {
                Some(mod_rs) => Some(
                    ModuleInfoView {
                        name: probe.file_name->0@,
                        path: mod_rs@,
                        file_name: "mod.rs"@,
                    },
                ),
                None => None,
            }
        } else if probe.extension.deep_view() == Some("rs"@) {
            Some(
                ModuleInfoView {
                    name: probe.file_stem->0@,
                    path: probe.path@,
                    file_name: probe.file_name->0@,
                },
            )
        } else {
            None
        }
    }

    /// Finds where the code of the module at `mod_path` lives. For a
    /// submodule that is the `mod.rs` in its directory.
    pub fn from_path(mod_path: &PathProbe) -> (r: Option<ModuleInfo>)
        requires
            mod_path.wf(),
        ensures
            r is Some <==> ModuleInfo::spec_from_path(mod_path) is Some,
            r matches Some(m) ==> ModuleInfo::spec_from_path(mod_path) == Some(m@),
    {
        if mod_path.is_dir {
            match (&mod_path.mod_rs, &mod_path.file_name) {
                (Some(mod_rs), Some(dir_name)) => Some(
                    ModuleInfo {
                        name: dir_name.clone(),
                        path: mod_rs.clone(),
                        file_name: "mod.rs".to_owned(),
                    },
                ),
                _ => None,
            }
        } else {
            match (&mod_path.extension, &mod_path.file_stem, &mod_path.file_name) {
                (Some(ext), Some(stem), Some(file_name)) => {
                    let ext = chars_of(ext.as_str());
                    if same_text(&ext, "rs") {
                        Some(
                            ModuleInfo {
                                name: stem.clone(),
                                path: mod_path.path.clone(),
                                file_name: file_name.clone(),
                            },
                        )
                    } else {
                        None
                    }
                },
                (Some(ext), _, _) => {
                    let ext = chars_of(ext.as_str());
                    proof {
                        if ext@ == "rs"@ {
                            assert(mod_path.extension.deep_view() == Some("rs"@));
                        }
                    }
                    None
                },
                _ => None,
            }
        }
    }
}

/// An exported function: the `#[cfg(..)]` line that stood above it, if one
/// did, and its name.
pub type Export = (Option<String>, String);

/// What the scanner found in one module.
#[derive(Debug)]
pub struct ModuleData {
    pub info: ModuleInfo,
    /// The functions exported for C, in the order of the source.
    pub c_exports: Vec<Export>,
    /// The functions exported to Lisp, in the order of the source.
    pub lisp_fns: Vec<Export>,
    /// The statics to protect from garbage collection.
    pub protected_statics: Vec<String>,
}

/// What a [`ModuleData`] holds.
pub struct ModuleDataView {
    pub info: ModuleInfoView,
    pub c_exports: Seq<(Option<Seq<char>>, Seq<char>)>,
    pub lisp_fns: Seq<(Option<Seq<char>>, Seq<char>)>,
    pub protected_statics: Seq<Seq<char>>,
}

impl View for ModuleData {
    type V = ModuleDataView;

    open spec fn view(&self) -> ModuleDataView {
        ModuleDataView {
            info: self.info@,
            c_exports: self.c_exports.deep_view(),
            lisp_fns: self.lisp_fns.deep_view(),
            protected_statics: self.protected_statics.deep_view(),
        }
    }
}

impl ModuleData {
    /// The record of a module in which nothing has been found yet.
    pub fn new(info: ModuleInfo) -> (d: ModuleData)
        ensures
            d@ == (ModuleDataView {
                info: info@,
                c_exports: Seq::empty(),
                lisp_fns: Seq::empty(),
                protected_statics: Seq::empty(),
            }),
    {
        let d = ModuleData {
            info,
            c_exports: Vec::new(),
            lisp_fns: Vec::new(),
            protected_statics: Vec::new(),
        };
        assert(d.c_exports.deep_view() =~= Seq::empty());
        assert(d.lisp_fns.deep_view() =~= Seq::empty());
        assert(d.protected_statics.deep_view() =~= Seq::empty());
        d
    }
}

} // verus!
