//! What the scanner reports when a source file is not as it should be.
use vstd::prelude::*;
use crate::text::{decimal, decimal_text};

verus! {

/// An error of the operating system while a file was read or written.
#[verifier::external_type_specification]
#[verifier::external_body]
pub struct ExIoError(std::io::Error);

/// A complaint about one line of one module.
#[derive(Debug)]
pub struct LintMsg {
    modname: String,
    lineno: u32,
    msg: String,
}

/// What a [`LintMsg`] holds.
pub struct LintMsgView {
    pub modname: Seq<char>,
    pub lineno: u32,
    pub msg: Seq<char>,
}

/// A request to stop the process: print `text` on standard error and leave
/// with the status `code`.
#[derive(Debug)]
pub struct Failure {
    pub code: i32,
    pub text: String,
}

impl View for LintMsg {
    type V = LintMsgView;

    closed spec fn view(&self) -> LintMsgView {
        LintMsgView { modname: self.modname@, lineno: self.lineno, msg: self.msg@ }
    }
}

impl LintMsgView {
    /// The two lines that report the complaint: where it is, and what it is.
    pub open spec fn report(self) -> Seq<char> {
        "In "@ + self.modname + " on line "@ + decimal(self.lineno as nat) + "\n"@ + self.msg
            + "\n"@
    }
}

impl LintMsg {
    /// A complaint about line `lineno` of the module `modname`.
    pub fn new(modname: &str, lineno: u32, msg: String) -> (m: LintMsg)
        ensures
            m@ == (LintMsgView { modname: modname@, lineno, msg: msg@ }),
    {
        LintMsg { modname: modname.to_owned(), lineno, msg }
    }

    /// The module that the complaint is about.
    pub fn modname(&self) -> (r: &str)
        ensures
            r@ == self@.modname,
    {
        self.modname.as_str()
    }

    /// The line that the complaint is about.
    pub fn lineno(&self) -> (r: u32)
        ensures
            r == self@.lineno,
    {
        self.lineno
    }

    /// What is wrong.
    pub fn msg(&self) -> (r: &str)
        ensures
            r@ == self@.msg,
    {
        self.msg.as_str()
    }

    /// Turns the complaint into the request to stop the process with the
    /// status `code`, after printing where the complaint is and what it is.
    pub fn fail(self, code: i32) -> (f: Failure)
        ensures
            f.code == code,
            f.text@ == self@.report(),
    {
        let mut text = "In ".to_owned();
        text.append(self.modname.as_str());
        text.append(" on line ");
        let number = decimal_text(self.lineno);
        text.append(number.as_str());
        text.append("\n");
        text.append(self.msg.as_str());
        text.append("\n");
        Failure { code, text }
    }
}

/// Why a crate's sources could not be turned into export files.
#[derive(Debug)]
pub enum BuildError {
    /// Reading or writing a file failed.
    IOError(std::io::Error),
    /// A source line breaks a rule for exported items.
    Lint(LintMsg),
    /// The scan cannot go on: the process is to report the complaint and
    /// exit with the given status.
    Exit(i32, LintMsg),
    /// A source line has a shape for which the scanner has no rule: the
    /// process is to report the complaint and abort.
    Unhandled(LintMsg),
    /// A crate's manifest could not be read as one.
    Manifest(cargo_toml::Error),
}

/// What a [`BuildError`] holds.
pub enum BuildErrorView {
    IOError(std::io::Error),
    Lint(LintMsgView),
    Exit(i32, LintMsgView),
    Unhandled(LintMsgView),
    Manifest(cargo_toml::Error),
}

impl View for BuildError {
    type V = BuildErrorView;

    open spec fn view(&self) -> BuildErrorView {
        match self {
            BuildError::IOError(e) => BuildErrorView::IOError(*e),
            BuildError::Lint(m) => BuildErrorView::Lint(m@),
            BuildError::Exit(code, m) => BuildErrorView::Exit(*code, m@),
            BuildError::Unhandled(m) => BuildErrorView::Unhandled(m@),
            BuildError::Manifest(e) => BuildErrorView::Manifest(*e),
        }
    }
}

impl From<std::io::Error> for BuildError {
    fn from(e: std::io::Error) -> (r: BuildError) {
        BuildError::IOError(e)
    }
}

impl vstd::std_specs::convert::FromSpecImpl<std::io::Error> for BuildError {
    open spec fn obeys_from_spec() -> bool {
        true
    }

    open spec fn from_spec(e: std::io::Error) -> BuildError {
        BuildError::IOError(e)
    }
}

impl From<LintMsg> for BuildError {
    fn from(e: LintMsg) -> (r: BuildError) {
        BuildError::Lint(e)
    }
}

impl vstd::std_specs::convert::FromSpecImpl<LintMsg> for BuildError {
    open spec fn obeys_from_spec() -> bool {
        true
    }

    open spec fn from_spec(e: LintMsg) -> BuildError {
        BuildError::Lint(e)
    }
}

} // verus!
