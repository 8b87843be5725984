//! The scanner that finds, line by line, what a module exports.
use vstd::prelude::*;
use crate::lint::{BuildError, BuildErrorView, LintMsg, LintMsgView};
use crate::module::{ModuleData, ModuleDataView, ModuleInfo, ModuleInfoView};
use crate::outside::{capture_group, regex_capture};
use crate::text::{
    chars_of, cut, ends_with, find, find_from, find_in, has_prefix, has_suffix, starts_with, trim,
    trim_bounds,
};

verus! {

/// What introduces the C name in a `#[lisp_fn(..)]` attribute.
pub const C_NAME: &'static str = "c_name = \"";

/// The shape of a line that declares a protected static; the first group is
/// the static's name.
pub const PROTECTED_STATIC_PATTERN: &'static str = r#"GC_protected_static!\((.+), .+\);"#;

/// The complaint about line `lineno` of the module `modname`.
pub open spec fn complaint(modname: Seq<char>, lineno: u32, msg: Seq<char>) -> LintMsgView {
    LintMsgView { modname, lineno, msg }
}

/// Where the name of the function is that a line declares: from behind the
/// first `fn ` up to the first `(`. `None` where the line lacks either.
pub open spec fn function_name_span(line: Seq<char>) -> Option<(int, int)> {
    match (find(line, "("@), find(line, "fn "@)) {
        (Some(paren), Some(keyword)) => Some((keyword + 3, paren)),
        _ => None,
    }
}

/// Whether the first `fn ` of the line comes only after its first `(`, so
/// that no name stands between them.
pub open spec fn function_name_is_lost(line: Seq<char>) -> bool {
    function_name_span(line) matches Some((from, to)) && from > to
}

/// The name of the function that a line declares, if it declares one.
pub open spec fn spec_function_name(line: Seq<char>) -> Option<Seq<char>> {
    match function_name_span(line) {
        Some((from, to)) => Some(trim(line.subrange(from, to))),
        None => None,
    }
}

/// The name of an exported function, or why the line that declares it is
/// not accepted. `name` is the name that an attribute gave, if one did;
/// else the name is read from the line. A line without a name exports
/// nothing. With a name, the line must begin with `pub `; one that begins
/// with `fn ` is not public, and any other is beyond the scanner.
pub open spec fn spec_validate(
    modname: Seq<char>,
    lineno: u32,
    name: Option<Seq<char>>,
    line: Seq<char>,
    msg: Seq<char>,
) -> Result<Option<Seq<char>>, BuildErrorView> {
    if name is None && function_name_is_lost(line) {
        Err(
            BuildErrorView::Unhandled(
                complaint(modname, lineno, "Unhandled code: no function name before `(`"@),
            ),
        )
    } else {
        let resolved = if name is Some {
            name
        } else {
            spec_function_name(line)
        };
        match resolved {
            Some(n) => if starts_with(line, "pub "@) {
                Ok(Some(n))
            } else if starts_with(line, "fn "@) {
                Err(
                    BuildErrorView::Lint(
                        complaint(modname, lineno, "\n`"@ + n + "` is not public.\n"@ + msg),
                    ),
                )
            } else {
                Err(BuildErrorView::Unhandled(complaint(modname, lineno, "Unhandled code"@)))
            },
            None => Ok(None),
        }
    }
}

/// What `spec_validate` says of a `#[no_mangle]` or `#[lisp_fn]` function.
pub open spec fn spec_parse_c_export(
    modname: Seq<char>,
    lineno: u32,
    line: Seq<char>,
    name: Option<Seq<char>>,
) -> Result<Option<Seq<char>>, BuildErrorView> {
    spec_validate(modname, lineno, name, line, "function must be public."@)
}

/// Whether a `#[no_mangle]` function is declared `extern "C"`.
pub open spec fn spec_lint_nomangle(modname: Seq<char>, lineno: u32, line: Seq<char>) -> Result<
    (),
    LintMsgView,
> {
    if starts_with(line, "pub extern \"C\" "@) || starts_with(line, "pub unsafe extern \"C\" "@) {
        Ok(())
    } else {
        Err(
            complaint(
                modname,
                lineno,
                "'no_mangle' functions exported for C need 'extern \"C\"' too."@,
            ),
        )
    }
}

/// The name of a protected static, given what the pattern captured in the
/// line that declares it.
pub open spec fn spec_protected_static(
    capture: Option<Option<Seq<char>>>,
    modname: Seq<char>,
    lineno: u32,
) -> Result<Seq<char>, LintMsgView> {
    match capture {
        Some(Some(name)) => Ok(name),
        _ => Err(complaint(modname, lineno, "could not parse protected static"@)),
    }
}

/// What the scanner has gathered, and what it remembers, between two lines.
pub struct ScanState {
    /// Whether the module includes its generated exports.
    pub has_include: bool,
    /// The `#[cfg(..)]` line that applies to the next export, if one does.
    pub preceding_cfg: Option<Seq<char>>,
    /// What was found so far.
    pub data: ModuleDataView,
}

impl ScanState {
    /// The state before the first line.
    pub open spec fn start(info: ModuleInfoView) -> ScanState {
        ScanState {
            has_include: false,
            preceding_cfg: None,
            data: ModuleDataView {
                info,
                c_exports: Seq::empty(),
                lisp_fns: Seq::empty(),
                protected_statics: Seq::empty(),
            },
        }
    }

    /// The state with `cfg` as the remembered `#[cfg(..)]` line.
    pub open spec fn with_cfg(self, cfg: Option<Seq<char>>) -> ScanState {
        ScanState { preceding_cfg: cfg, ..self }
    }

    /// The state once the include of the generated exports was seen.
    pub open spec fn with_include(self) -> ScanState {
        ScanState { has_include: true, ..self }
    }

    /// The state with one more protected static.
    pub open spec fn with_static(self, name: Seq<char>) -> ScanState {
        ScanState {
            data: ModuleDataView {
                protected_statics: self.data.protected_statics.push(name),
                ..self.data
            },
            ..self
        }
    }

    /// The state with one more function exported for C, under the
    /// remembered `#[cfg(..)]` line.
    pub open spec fn with_c_export(self, func: Seq<char>) -> ScanState {
        ScanState {
            data: ModuleDataView {
                c_exports: self.data.c_exports.push((self.preceding_cfg, func)),
                ..self.data
            },
            ..self
        }
    }

    /// The state with one more function exported to Lisp, under the
    /// remembered `#[cfg(..)]` line.
    pub open spec fn with_lisp_fn(self, func: Seq<char>) -> ScanState {
        ScanState {
            data: ModuleDataView {
                lisp_fns: self.data.lisp_fns.push((self.preceding_cfg, func)),
                ..self.data
            },
            ..self
        }
    }
}

/// Why a scan ends before the end of the input.
pub enum Stop {
    /// The input ended because reading it failed.
    ReadFailed,
    /// The scan itself failed.
    Failed(BuildErrorView),
}

/// How a scan ended: the number of the line that it looked at last, and
/// what it found or why it stopped.
pub struct ScanEnd {
    pub lineno: u32,
    pub outcome: Result<ModuleDataView, Stop>,
}

/// The error that stops the process with the status `code`.
pub open spec fn exit_error(modname: Seq<char>, lineno: u32, code: i32, msg: Seq<char>) -> Stop {
    Stop::Failed(BuildErrorView::Exit(code, complaint(modname, lineno, msg)))
}

/// The function that the line at `at` exports, if it exports one. The line
/// must be there: that the input ends before it stops the process, with
/// `eof_msg` as the complaint.
pub open spec fn spec_export_at(
    modname: Seq<char>,
    lineno: u32,
    lines: Seq<Seq<char>>,
    read_failed: bool,
    at: int,
    name: Option<Seq<char>>,
    eof_msg: Seq<char>,
) -> Result<Option<Seq<char>>, Stop> {
    if 0 <= at < lines.len() {
        match spec_parse_c_export(modname, lineno, lines[at], name) {
            Ok(func) => Ok(func),
            Err(e) => Err(Stop::Failed(e)),
        }
    } else if read_failed {
        Err(Stop::ReadFailed)
    } else {
        Err(exit_error(modname, lineno, 1, eof_msg))
    }
}

/// The position behind a block comment whose lines start at `at`: behind
/// the first line that ends with `*/`, or the end of the input.
pub open spec fn spec_skip_comment(lines: Seq<Seq<char>>, read_failed: bool, at: int) -> Result<
    int,
    Stop,
>
    decreases lines.len() - at,
{
    if !(0 <= at < lines.len()) {
        if read_failed {
            Err(Stop::ReadFailed)
        } else {
            Ok(at)
        }
    } else if ends_with(lines[at], "*/"@) {
        Ok(at + 1)
    } else {
        spec_skip_comment(lines, read_failed, at + 1)
    }
}

/// An attribute that runs over several lines, as one text, and the position
/// behind it: `acc` and the lines from `at` up to and including the first
/// that ends with `)]`, or up to the end of the input.
pub open spec fn spec_join_attr(
    lines: Seq<Seq<char>>,
    read_failed: bool,
    at: int,
    acc: Seq<char>,
) -> Result<(Seq<char>, int), Stop>
    decreases lines.len() - at,
{
    if !(0 <= at < lines.len()) {
        if read_failed {
            Err(Stop::ReadFailed)
        } else {
            Ok((acc, at))
        }
    } else if ends_with(lines[at], ")]"@) {
        Ok((acc + lines[at], at + 1))
    } else {
        spec_join_attr(lines, read_failed, at + 1, acc + lines[at])
    }
}

/// The C name that a `#[lisp_fn(..)]` attribute gives: what stands between
/// `c_name = "` and the next `"`. `Some(None)` where the attribute gives
/// none, and `None` where the name is not closed.
pub open spec fn spec_c_name(attr: Seq<char>) -> Option<Option<Seq<char>>> {
    match find(attr, C_NAME@) {
        None => Some(None),
        Some(begin) => {
            let start = begin + C_NAME@.len();
            match find_from(attr, "\""@, start) {
                None => None,
                Some(end) => Some(Some(attr.subrange(start, end))),
            }
        },
    }
}

/// What follows `#[no_mangle]`: the line at `at` must be there, and where
/// it exports a function that function must be `extern "C"`.
pub open spec fn spec_no_mangle(
    modname: Seq<char>,
    lineno: u32,
    lines: Seq<Seq<char>>,
    read_failed: bool,
    at: int,
    st: ScanState,
) -> Result<(int, ScanState), Stop> {
    match spec_export_at(modname, lineno, lines, read_failed, at, None, "unexpected end of file"@) {
        Err(stop) => Err(stop),
        Ok(None) => Ok((at + 1, st.with_cfg(None))),
        Ok(Some(func)) => match spec_lint_nomangle(modname, lineno, lines[at]) {
            Err(m) => Err(Stop::Failed(BuildErrorView::Lint(m))),
            Ok(_) => Ok((at + 1, st.with_c_export(func).with_cfg(None))),
        },
    }
}

/// What follows `#[async_stream`: the line at `at` must be there, and the
/// function that it exports is called through `call_` and its name.
pub open spec fn spec_async_stream(
    modname: Seq<char>,
    lineno: u32,
    lines: Seq<Seq<char>>,
    read_failed: bool,
    at: int,
    st: ScanState,
) -> Result<(int, ScanState), Stop> {
    match spec_export_at(modname, lineno, lines, read_failed, at, None, "Unexpected end of file"@) {
        Err(stop) => Err(stop),
        Ok(None) => Ok((at + 1, st.with_cfg(None))),
        Ok(Some(func)) => Ok((at + 1, st.with_lisp_fn("call_"@ + func).with_cfg(None))),
    }
}

/// A `#[lisp_fn` attribute that begins at `pos`, and the function below it.
/// The attribute ends on its first line where that ends with `]`, else with
/// the first later line that ends with `)]`. A C name that begins with `$`
/// belongs to a macro: the attribute is then passed over, and the line
/// below it is scanned like any other.
pub open spec fn spec_lisp_fn(
    modname: Seq<char>,
    lineno: u32,
    lines: Seq<Seq<char>>,
    read_failed: bool,
    pos: int,
    st: ScanState,
) -> Result<(int, ScanState), Stop> {
    let joined = if ends_with(lines[pos], "]"@) {
        Ok((lines[pos], pos + 1))
    } else {
        spec_join_attr(lines, read_failed, pos + 1, lines[pos])
    };
    match joined {
        Err(stop) => Err(stop),
        Ok((attr, at)) => match spec_c_name(attr) {
            None => Err(
                Stop::Failed(
                    BuildErrorView::Unhandled(
                        complaint(modname, lineno, "Unhandled code: `c_name` is not closed"@),
                    ),
                ),
            ),
            Some(name) => if name is Some && starts_with(name->0, "$"@) {
                Ok((at, st))
            } else {
                match spec_export_at(
                    modname,
                    lineno,
                    lines,
                    read_failed,
                    at,
                    name,
                    "unexpected end of file"@,
                ) {
                    Err(stop) => Err(stop),
                    Ok(None) => Ok((at + 1, st.with_cfg(None))),
                    Ok(Some(func)) => Ok((at + 1, st.with_lisp_fn(func).with_cfg(None))),
                }
            },
        },
    }
}

/// What the scanner does with the line at `pos`: the position of the next
/// line to look at and the state there, or why the scan stops.
///
/// A line that begins with a blank is passed over. A protected static is
/// recorded. `#[no_mangle]`, `#[lisp_fn` and `#[async_stream` announce an
/// export on the line below. A `#[cfg` line is remembered for the next
/// export. The include of the generated exports is noted. A block comment
/// that does not end on its first line is skipped up to its end. Any other
/// line makes the scanner forget the remembered `#[cfg` line.
pub open spec fn spec_scan_line(
    modname: Seq<char>,
    lineno: u32,
    lines: Seq<Seq<char>>,
    read_failed: bool,
    pos: int,
    st: ScanState,
) -> Result<(int, ScanState), Stop> {
    let line = lines[pos];
    if starts_with(line, " "@) {
        Ok((pos + 1, st))
    } else if starts_with(line, "declare_GC_protected_static!"@) {
        match spec_protected_static(
            regex_capture(PROTECTED_STATIC_PATTERN@, line, 1),
            modname,
            lineno,
        ) {
            Ok(name) => Ok((pos + 1, st.with_static(name))),
            Err(m) => Err(Stop::Failed(BuildErrorView::Lint(m))),
        }
    } else if starts_with(line, "#[no_mangle]"@) {
        spec_no_mangle(modname, lineno, lines, read_failed, pos + 1, st)
    } else if starts_with(line, "#[cfg"@) {
        Ok((pos + 1, st.with_cfg(Some(line))))
    } else if starts_with(line, "#[lisp_fn"@) {
        spec_lisp_fn(modname, lineno, lines, read_failed, pos, st)
    } else if starts_with(line, "#[async_stream"@) {
        spec_async_stream(modname, lineno, lines, read_failed, pos + 1, st)
    } else if starts_with(line, "include!(concat!("@) {
        Ok((pos + 1, st.with_include()))
    } else if starts_with(line, "/*"@) && !ends_with(line, "*/"@) {
        match spec_skip_comment(lines, read_failed, pos + 1) {
            Ok(next) => Ok((next, st)),
            Err(stop) => Err(stop),
        }
    } else {
        Ok((pos + 1, st.with_cfg(None)))
    }
}

/// The scan of the lines from `pos` on: the number of the line that was
/// looked at last, and the state at the end of the input or why the scan
/// stopped. Each pass counts one line, however many lines it takes in.
pub open spec fn spec_scan(
    modname: Seq<char>,
    lineno: u32,
    lines: Seq<Seq<char>>,
    read_failed: bool,
    pos: int,
    st: ScanState,
) -> (u32, Result<ScanState, Stop>)
    decreases lines.len() - pos,
{
    if !(0 <= pos < lines.len()) {
        (
            lineno,
            if read_failed {
                Err(Stop::ReadFailed)
            } else {
                Ok(st)
            },
        )
    } else {
        let lineno = (lineno + 1) as u32;
        match spec_scan_line(modname, lineno, lines, read_failed, pos, st) {
            Ok((next, after)) => {
                proof {
                    lemma_scan_line_advances(modname, lineno, lines, read_failed, pos, st);
                }
                spec_scan(modname, lineno, lines, read_failed, next, after)
            },
            Err(stop) => (lineno, Err(stop)),
        }
    }
}

/// What a whole scan comes to. A module that exports to Lisp or protects
/// statics must include its generated exports: where it does not, the
/// process is stopped with the status 2.
pub open spec fn spec_run(
    info: ModuleInfoView,
    lineno: u32,
    lines: Seq<Seq<char>>,
    read_failed: bool,
) -> ScanEnd {
    let end = spec_scan(info.name, lineno, lines, read_failed, 0, ScanState::start(info));
    ScanEnd {
        lineno: end.0,
        outcome: match end.1 {
            Ok(st) => if !st.has_include && !(st.data.lisp_fns.len() == 0
                && st.data.protected_statics.len() == 0) {
                Err(
                    exit_error(
                        info.name,
                        end.0,
                        2,
                        info.file_name
                            + " is missing the required include for protected statics or lisp_fn exports."@,
                    ),
                )
            } else {
                Ok(st.data)
            },
            Err(stop) => Err(stop),
        },
    }
}

/// The position behind a block comment lies behind its first line and
/// within the input.
pub proof fn lemma_skip_comment_advances(lines: Seq<Seq<char>>, read_failed: bool, at: int)
    requires
        0 <= at <= lines.len(),
    ensures
        spec_skip_comment(lines, read_failed, at) matches Ok(next) ==> at <= next <= lines.len(),
    decreases lines.len() - at,
{
    if at < lines.len() && !ends_with(lines[at], "*/"@) {
        lemma_skip_comment_advances(lines, read_failed, at + 1);
    }
}

/// The position behind a joined attribute lies within the input.
pub proof fn lemma_join_attr_advances(
    lines: Seq<Seq<char>>,
    read_failed: bool,
    at: int,
    acc: Seq<char>,
)
    requires
        0 <= at <= lines.len(),
    ensures
        spec_join_attr(lines, read_failed, at, acc) matches Ok((_, next)) ==> at <= next
            <= lines.len(),
    decreases lines.len() - at,
{
    if at < lines.len() && !ends_with(lines[at], ")]"@) {
        lemma_join_attr_advances(lines, read_failed, at + 1, acc + lines[at]);
    }
}

/// Every pass of the scanner takes in at least the line that it looks at,
/// and never more than there is.
pub proof fn lemma_scan_line_advances(
    modname: Seq<char>,
    lineno: u32,
    lines: Seq<Seq<char>>,
    read_failed: bool,
    pos: int,
    st: ScanState,
)
    requires
        0 <= pos < lines.len(),
    ensures
        spec_scan_line(modname, lineno, lines, read_failed, pos, st) matches Ok((next, _)) ==> pos
            < next <= lines.len(),
{
    lemma_skip_comment_advances(lines, read_failed, pos + 1);
    lemma_join_attr_advances(lines, read_failed, pos + 1, lines[pos]);
}

/// A scan stops for a failed read only where reading did fail.
pub proof fn lemma_read_failure_is_real(
    modname: Seq<char>,
    lineno: u32,
    lines: Seq<Seq<char>>,
    read_failed: bool,
    pos: int,
    st: ScanState,
)
    requires
        0 <= pos < lines.len(),
    ensures
        spec_scan_line(modname, lineno, lines, read_failed, pos, st) == Err::<
            (int, ScanState),
            Stop,
        >(Stop::ReadFailed) ==> read_failed,
{
    lemma_skip_comment_failure(lines, read_failed, pos + 1);
    lemma_join_attr_failure(lines, read_failed, pos + 1, lines[pos]);
}

/// Skipping a comment fails only where reading failed.
proof fn lemma_skip_comment_failure(lines: Seq<Seq<char>>, read_failed: bool, at: int)
    ensures
        spec_skip_comment(lines, read_failed, at) matches Err(stop) ==> read_failed && stop
            == Stop::ReadFailed,
    decreases lines.len() - at,
{
    if 0 <= at < lines.len() && !ends_with(lines[at], "*/"@) {
        lemma_skip_comment_failure(lines, read_failed, at + 1);
    }
}

/// Joining an attribute fails only where reading failed.
proof fn lemma_join_attr_failure(lines: Seq<Seq<char>>, read_failed: bool, at: int, acc: Seq<char>)
    ensures
        spec_join_attr(lines, read_failed, at, acc) matches Err(stop) ==> read_failed && stop
            == Stop::ReadFailed,
    decreases lines.len() - at,
{
    if 0 <= at < lines.len() && !ends_with(lines[at], ")]"@) {
        lemma_join_attr_failure(lines, read_failed, at + 1, acc + lines[at]);
    }
}

/// The name of the function that `line` declares: what stands between the
/// first `fn ` and the first `(`, without the white space around it; `None`
/// where the line lacks either.
pub fn get_function_name(line: &str) -> (r: Option<String>)
    requires
        !function_name_is_lost(line@),
    ensures
        r.deep_view() == spec_function_name(line@),
{
    let chars = chars_of(line);
    match find_function_name(line, &chars) {
        Ok(name) => name,
        Err(_) => unreached(),
    }
}

/// As `get_function_name`, for any line: `Err` where the name is lost.
fn find_function_name(line: &str, chars: &Vec<char>) -> (r: Result<Option<String>, ()>)
    requires
        chars@ == line@,
    ensures
        r is Err <==> function_name_is_lost(line@),
        r matches Ok(name) ==> name.deep_view() == spec_function_name(line@),
{
    let paren = find_in(chars, "(", 0);
    let keyword = find_in(chars, "fn ", 0);
    proof {
        reveal_strlit("fn ");
    }
    match (paren, keyword) {
        (Some(paren), Some(keyword)) => {
            if paren >= 3 && keyword <= paren - 3 {
                let (from, to) = trim_bounds(chars, keyword + 3, paren);
                Ok(Some(cut(line, from, to)))
            } else {
                Err(())
            }
        },
        _ => Ok(None),
    }
}

/// The name of a protected static, given what the pattern captured in the
/// line that declares it: the captured text, or the complaint that the line
/// could not be parsed where nothing was captured or the pattern was
/// rejected.
pub fn protected_static_from(
    capture: Result<Option<String>, regex::Error>,
    modname: &str,
    lineno: u32,
) -> (r: Result<String, LintMsg>)
    ensures
        lint_result_view(r) == spec_protected_static(
            match capture {
                Ok(Some(text)) => Some(Some(text@)),
                Ok(None) => Some(None),
                Err(_) => None,
            },
            modname@,
            lineno,
        ),
{
    match capture {
        Ok(Some(name)) => Ok(name),
        _ => Err(LintMsg::new(modname, lineno, "could not parse protected static".to_owned())),
    }
}

/// A result with a text or a complaint, as plain values.
pub open spec fn lint_result_view(r: Result<String, LintMsg>) -> Result<Seq<char>, LintMsgView> {
    match r {
        Ok(text) => Ok(text@),
        Err(m) => Err(m@),
    }
}

/// A result with an optional text or an error, as plain values.
pub open spec fn export_result_view(r: Result<Option<String>, BuildError>) -> Result<
    Option<Seq<char>>,
    BuildErrorView,
> {
    match r {
        Ok(name) => Ok(name.deep_view()),
        Err(e) => Err(e@),
    }
}

/// A result with what was found or an error, as plain values; a scan that
/// stopped because reading failed ends in the error that reading gave.
pub open spec fn run_result_view(r: Result<ModuleData, BuildError>) -> Result<
    ModuleDataView,
    BuildErrorView,
> {
    match r {
        Ok(data) => Ok(data@),
        Err(e) => Err(e@),
    }
}

/// The scanner's own record between two lines.
struct Scan {
    has_include: bool,
    preceding_cfg: Option<String>,
    data: ModuleData,
}

impl View for Scan {
    type V = ScanState;

    closed spec fn view(&self) -> ScanState {
        ScanState {
            has_include: self.has_include,
            preceding_cfg: self.preceding_cfg.deep_view(),
            data: self.data@,
        }
    }
}

impl Scan {
    /// Forgets the remembered `#[cfg(..)]` line.
    fn forget_cfg(&mut self)
        ensures
            final(self)@ == old(self)@.with_cfg(None),
    {
        self.preceding_cfg = None;
    }

    /// Records a function exported for C and forgets the remembered line.
    fn push_c_export(&mut self, func: String)
        ensures
            final(self)@ == old(self)@.with_c_export(func@).with_cfg(None),
    {
        let mut cfg: Option<String> = None;
        std::mem::swap(&mut cfg, &mut self.preceding_cfg);
        self.data.c_exports.push((cfg, func));
        assert(self.data.c_exports.deep_view() =~= old(self).data.c_exports.deep_view().push(
            (old(self).preceding_cfg.deep_view(), func@),
        ));
    }

    /// Records a function exported to Lisp and forgets the remembered line.
    fn push_lisp_fn(&mut self, func: String)
        ensures
            final(self)@ == old(self)@.with_lisp_fn(func@).with_cfg(None),
    {
        let mut cfg: Option<String> = None;
        std::mem::swap(&mut cfg, &mut self.preceding_cfg);
        self.data.lisp_fns.push((cfg, func));
        assert(self.data.lisp_fns.deep_view() =~= old(self).data.lisp_fns.deep_view().push(
            (old(self).preceding_cfg.deep_view(), func@),
        ));
    }

    /// Records a protected static.
    fn push_static(&mut self, name: String)
        ensures
            final(self)@ == old(self)@.with_static(name@),
    {
        self.data.protected_statics.push(name);
        assert(self.data.protected_statics.deep_view() =~= old(
            self,
        ).data.protected_statics.deep_view().push(name@));
    }
}

/// Why the scanner stops before the end of the input.
enum Halt {
    ReadFailed,
    Failed(BuildError),
}

impl View for Halt {
    type V = Stop;

    closed spec fn view(&self) -> Stop {
        match self {
            Halt::ReadFailed => Stop::ReadFailed,
            Halt::Failed(e) => Stop::Failed(e@),
        }
    }
}

/// Skips the lines of a block comment from `from` on.
fn skip_comment(lines: &Vec<String>, read_failed: bool, from: usize) -> (r: Result<usize, Halt>)
    requires
        from <= lines.len(),
    ensures
        (match r {
            Ok(next) => Ok(next as int),
            Err(h) => Err(h@),
        }) == spec_skip_comment(lines.deep_view(), read_failed, from as int),
        r matches Ok(next) ==> from <= next <= lines.len(),
{
    let mut at: usize = from;
    while at < lines.len()
        invariant
            from <= at <= lines.len(),
            spec_skip_comment(lines.deep_view(), read_failed, from as int) == spec_skip_comment(
                lines.deep_view(),
                read_failed,
                at as int,
            ),
        decreases lines.len() - at,
    {
        let chars = chars_of(lines[at].as_str());
        assert(lines.deep_view()[at as int] == chars@);
        if has_suffix(&chars, "*/") {
            return Ok(at + 1);
        }
        at = at + 1;
    }
    if read_failed {
        Err(Halt::ReadFailed)
    } else {
        Ok(at)
    }
}

/// Joins to `acc` the lines of an attribute from `from` on.
fn join_attr(lines: &Vec<String>, read_failed: bool, from: usize, acc: String) -> (r: Result<
    (String, usize),
    Halt,
>)
    requires
        from <= lines.len(),
    ensures
        (match r {
            Ok((text, next)) => Ok((text@, next as int)),
            Err(h) => Err(h@),
        }) == spec_join_attr(lines.deep_view(), read_failed, from as int, acc@),
        r matches Ok((_, next)) ==> from <= next <= lines.len(),
{
    let mut text = acc;
    let mut at: usize = from;
    while at < lines.len()
        invariant
            from <= at <= lines.len(),
            spec_join_attr(lines.deep_view(), read_failed, from as int, acc@) == spec_join_attr(
                lines.deep_view(),
                read_failed,
                at as int,
                text@,
            ),
        decreases lines.len() - at,
    {
        let ghost before = text@;
        let line = lines[at].as_str();
        let chars = chars_of(line);
        assert(lines.deep_view()[at as int] == chars@);
        text.append(line);
        assert(text@ == before + lines.deep_view()[at as int]);
        if has_suffix(&chars, ")]") {
            return Ok((text, at + 1));
        }
        at = at + 1;
    }
    if read_failed {
        Err(Halt::ReadFailed)
    } else {
        Ok((text, at))
    }
}

/// The C name that a `#[lisp_fn(..)]` attribute gives; the outer `None`
/// says that the name is not closed.
fn c_name(attr: &str) -> (r: Option<Option<String>>)
    ensures
        r.deep_view() == spec_c_name(attr@),
{
    let chars = chars_of(attr);
    let intro = chars_of(C_NAME);
    let total = chars.len();
    match find_in(&chars, C_NAME, 0) {
        None => Some(None),
        Some(begin) => {
            let start = begin + intro.len();
            match find_in(&chars, "\"", start) {
                None => None,
                Some(end) => Some(Some(cut(attr, start, end))),
            }
        },
    }
}

/// The scanner for one module.
pub struct ModuleParser<'a> {
    info: &'a ModuleInfo,
    lineno: u32,
}

impl<'a> ModuleParser<'a> {
    /// The module that is scanned.
    pub closed spec fn info(&self) -> ModuleInfo {
        *self.info
    }

    /// The number of the line that the scanner looked at last.
    pub closed spec fn spec_lineno(&self) -> u32 {
        self.lineno
    }

    /// A scanner for the module `mod_info`, before its first line.
    pub fn new(mod_info: &'a ModuleInfo) -> (p: Self)
        ensures
            p.info() == *mod_info,
            p.spec_lineno() == 0,
    {
        ModuleParser { info: mod_info, lineno: 0 }
    }

    /// The number of the line that the scanner looked at last.
    #[verifier::when_used_as_spec(spec_lineno)]
    pub fn lineno(&self) -> (n: u32)
        ensures
            n == self.spec_lineno(),
    {
        self.lineno
    }

    /// The error that stops the process with the status `code` and the
    /// complaint `msg` about the current line.
    pub fn fail(&self, code: i32, msg: &str) -> (e: BuildError)
        ensures
            e@ == BuildErrorView::Exit(
                code,
                complaint(self.info()@.name, self.spec_lineno(), msg@),
            ),
    {
        BuildError::Exit(code, LintMsg::new(self.info.name.as_str(), self.lineno, msg.to_owned()))
    }

    /// Handles the line below `#[no_mangle]` or `#[lisp_fn]`: the name of
    /// the function that it exports, if it exports one.
    pub fn parse_c_export(&self, line: &str, name: Option<String>) -> (r: Result<
        Option<String>,
        BuildError,
    >)
        ensures
            export_result_view(r) == spec_parse_c_export(
                self.info()@.name,
                self.spec_lineno(),
                line@,
                name.deep_view(),
            ),
    {
        self.validate_exported_function(name, line, "function must be public.")
    }

    /// Reads the name of a protected static out of the line that declares
    /// it.
    pub fn parse_gc_protected_static(&self, line: &str) -> (r: Result<String, LintMsg>)
        ensures
            lint_result_view(r) == spec_protected_static(
                regex_capture(PROTECTED_STATIC_PATTERN@, line@, 1),
                self.info()@.name,
                self.spec_lineno(),
            ),
    {
        let capture = capture_group(PROTECTED_STATIC_PATTERN, line, 1);
        protected_static_from(capture, self.info.name.as_str(), self.lineno)
    }

    /// Determines whether a function is exported correctly, and gives its
    /// name, or `None` where the line declares no function.
    pub fn validate_exported_function(&self, name: Option<String>, line: &str, msg: &str) -> (r:
        Result<Option<String>, BuildError>)
        ensures
            export_result_view(r) == spec_validate(
                self.info()@.name,
                self.spec_lineno(),
                name.deep_view(),
                line@,
                msg@,
            ),
    {
        let chars = chars_of(line);
        let resolved = match name {
            Some(n) => Some(n),
            None => match find_function_name(line, &chars) {
                Ok(found) => found,
                Err(_) => {
                    return Err(
                        BuildError::Unhandled(
                            LintMsg::new(
                                self.info.name.as_str(),
                                self.lineno,
                                "Unhandled code: no function name before `(`".to_owned(),
                            ),
                        ),
                    );
                },
            },
        };
        match resolved {
            Some(n) => {
                if has_prefix(&chars, "pub ") {
                    Ok(Some(n))
                } else if has_prefix(&chars, "fn ") {
                    let mut text = "\n`".to_owned();
                    text.append(n.as_str());
                    text.append("` is not public.\n");
                    text.append(msg);
                    Err(BuildError::Lint(LintMsg::new(self.info.name.as_str(), self.lineno, text)))
                } else {
                    Err(
                        BuildError::Unhandled(
                            LintMsg::new(
                                self.info.name.as_str(),
                                self.lineno,
                                "Unhandled code".to_owned(),
                            ),
                        ),
                    )
                }
            },
            None => Ok(None),
        }
    }

    /// Checks that a `#[no_mangle]` function is declared `extern "C"`.
    pub fn lint_nomangle(&self, line: &str) -> (r: Result<(), LintMsg>)
        ensures
            (match r {
                Ok(_) => Ok(()),
                Err(m) => Err(m@),
            }) == spec_lint_nomangle(self.info()@.name, self.spec_lineno(), line@),
    {
        let chars = chars_of(line);
        if !(has_prefix(&chars, "pub extern \"C\" ") || has_prefix(
            &chars,
            "pub unsafe extern \"C\" ",
        )) {
            Err(
                LintMsg::new(
                    self.info.name.as_str(),
                    self.lineno,
                    "'no_mangle' functions exported for C need 'extern \"C\"' too.".to_owned(),
                ),
            )
        } else {
            Ok(())
        }
    }
    /// The function that the line at `at` exports, if there is such a line.
    fn export_at(
        &self,
        lines: &Vec<String>,
        read_failed: bool,
        at: usize,
        name: Option<String>,
        eof_msg: &str,
    ) -> (r: Result<Option<String>, Halt>)
        ensures
            (match r {
                Ok(func) => Ok(func.deep_view()),
                Err(h) => Err(h@),
            }) == spec_export_at(
                self.info()@.name,
                self.spec_lineno(),
                lines.deep_view(),
                read_failed,
                at as int,
                name.deep_view(),
                eof_msg@,
            ),
    {
        if at < lines.len() {
            assert(lines.deep_view()[at as int] == lines@[at as int]@);
            match self.parse_c_export(lines[at].as_str(), name) {
                Ok(func) => Ok(func),
                Err(e) => Err(Halt::Failed(e)),
            }
        } else if read_failed {
            Err(Halt::ReadFailed)
        } else {
            Err(Halt::Failed(self.fail(1, eof_msg)))
        }
    }

    /// Handles what follows `#[no_mangle]`.
    fn no_mangle_at(&self, lines: &Vec<String>, read_failed: bool, at: usize, scan: &mut Scan) -> (r:
        Result<usize, Halt>)
        requires
            at <= lines.len(),
        ensures
            scan_step_matches(
                r,
                final(scan)@,
                spec_no_mangle(
                    self.info()@.name,
                    self.spec_lineno(),
                    lines.deep_view(),
                    read_failed,
                    at as int,
                    old(scan)@,
                ),
            ),
    {
        match self.export_at(lines, read_failed, at, None, "unexpected end of file") {
            Err(h) => Err(h),
            Ok(None) => {
                scan.forget_cfg();
                Ok(at + 1)
            },
            Ok(Some(func)) => {
                assert(lines.deep_view()[at as int] == lines@[at as int]@);
                match self.lint_nomangle(lines[at].as_str()) {
                    Err(m) => Err(Halt::Failed(BuildError::Lint(m))),
                    Ok(_) => {
                        scan.push_c_export(func);
                        Ok(at + 1)
                    },
                }
            },
        }
    }

    /// Handles what follows `#[async_stream`.
    fn async_stream_at(&self, lines: &Vec<String>, read_failed: bool, at: usize, scan: &mut Scan) -> (r:
        Result<usize, Halt>)
        requires
            at <= lines.len(),
        ensures
            scan_step_matches(
                r,
                final(scan)@,
                spec_async_stream(
                    self.info()@.name,
                    self.spec_lineno(),
                    lines.deep_view(),
                    read_failed,
                    at as int,
                    old(scan)@,
                ),
            ),
    {
        match self.export_at(lines, read_failed, at, None, "Unexpected end of file") {
            Err(h) => Err(h),
            Ok(None) => {
                scan.forget_cfg();
                Ok(at + 1)
            },
            Ok(Some(func)) => {
                let mut call = "call_".to_owned();
                call.append(func.as_str());
                scan.push_lisp_fn(call);
                Ok(at + 1)
            },
        }
    }

    /// Handles a `#[lisp_fn` attribute that begins at `pos`.
    fn lisp_fn_at(&self, lines: &Vec<String>, read_failed: bool, pos: usize, scan: &mut Scan) -> (r:
        Result<usize, Halt>)
        requires
            pos < lines.len(),
        ensures
            scan_step_matches(
                r,
                final(scan)@,
                spec_lisp_fn(
                    self.info()@.name,
                    self.spec_lineno(),
                    lines.deep_view(),
                    read_failed,
                    pos as int,
                    old(scan)@,
                ),
            ),
    {
        let first = lines[pos].clone();
        let chars = chars_of(first.as_str());
        assert(lines.deep_view()[pos as int] == chars@);
        let joined = if has_suffix(&chars, "]") {
            Ok((first, pos + 1))
        } else {
            join_attr(lines, read_failed, pos + 1, first)
        };
        match joined {
            Err(h) => Err(h),
            Ok((attr, at)) => match c_name(attr.as_str()) {
                None => Err(
                    Halt::Failed(
                        BuildError::Unhandled(
                            LintMsg::new(
                                self.info.name.as_str(),
                                self.lineno,
                                "Unhandled code: `c_name` is not closed".to_owned(),
                            ),
                        ),
                    ),
                ),
                Some(name) => {
                    let skip = match &name {
                        Some(n) => {
                            let n = chars_of(n.as_str());
                            has_prefix(&n, "$")
                        },
                        None => false,
                    };
                    if skip {
                        Ok(at)
                    } else {
                        match self.export_at(lines, read_failed, at, name, "unexpected end of file") {
                            Err(h) => Err(h),
                            Ok(None) => {
                                scan.forget_cfg();
                                Ok(at + 1)
                            },
                            Ok(Some(func)) => {
                                scan.push_lisp_fn(func);
                                Ok(at + 1)
                            },
                        }
                    }
                },
            },
        }
    }

    /// Handles the line at `pos` and says where the scan goes on.
    fn scan_line(&self, lines: &Vec<String>, read_failed: bool, pos: usize, scan: &mut Scan) -> (r:
        Result<usize, Halt>)
        requires
            pos < lines.len(),
        ensures
            scan_step_matches(
                r,
                final(scan)@,
                spec_scan_line(
                    self.info()@.name,
                    self.spec_lineno(),
                    lines.deep_view(),
                    read_failed,
                    pos as int,
                    old(scan)@,
                ),
            ),
    {
        let line = lines[pos].as_str();
        let chars = chars_of(line);
        assert(lines.deep_view()[pos as int] == chars@);
        if has_prefix(&chars, " ") {
            Ok(pos + 1)
        } else if has_prefix(&chars, "declare_GC_protected_static!") {
            match self.parse_gc_protected_static(line) {
                Ok(name) => {
                    scan.push_static(name);
                    Ok(pos + 1)
                },
                Err(m) => Err(Halt::Failed(BuildError::Lint(m))),
            }
        } else if has_prefix(&chars, "#[no_mangle]") {
            self.no_mangle_at(lines, read_failed, pos + 1, scan)
        } else if has_prefix(&chars, "#[cfg") {
            scan.preceding_cfg = Some(lines[pos].clone());
            Ok(pos + 1)
        } else if has_prefix(&chars, "#[lisp_fn") {
            self.lisp_fn_at(lines, read_failed, pos, scan)
        } else if has_prefix(&chars, "#[async_stream") {
            self.async_stream_at(lines, read_failed, pos + 1, scan)
        } else if has_prefix(&chars, "include!(concat!(") {
            scan.has_include = true;
            Ok(pos + 1)
        } else if has_prefix(&chars, "/*") && !has_suffix(&chars, "*/") {
            skip_comment(lines, read_failed, pos + 1)
        } else {
            scan.forget_cfg();
            Ok(pos + 1)
        }
    }

    /// Scans the lines of the module. `lines` is what could be read of the
    /// file, and `read_error` the error that ended the reading, if one did.
    ///
    /// The result is what the module exports, or the first thing that went
    /// wrong, in the order of the lines: a line that breaks a rule, an
    /// export that the input ends before, a shape of code that the scanner
    /// has no rule for, or, where the scan reaches the end of `lines`, the
    /// error that ended the reading.
    pub fn run(&mut self, lines: &Vec<String>, read_error: Option<std::io::Error>) -> (r: Result<
        ModuleData,
        BuildError,
    >)
        requires
            old(self).spec_lineno() + lines.len() <= u32::MAX,
        ensures
            final(self).info() == old(self).info(),
            final(self).spec_lineno() == spec_run(
                old(self).info()@,
                old(self).spec_lineno(),
                lines.deep_view(),
                read_error is Some,
            ).lineno,
            run_result_view(r) == (match spec_run(
                old(self).info()@,
                old(self).spec_lineno(),
                lines.deep_view(),
                read_error is Some,
            ).outcome {
                Ok(data) => Ok(data),
                Err(Stop::ReadFailed) => Err(BuildErrorView::IOError(read_error->0)),
                Err(Stop::Failed(e)) => Err(e),
            }),
    {
        let read_failed = read_error.is_some();
        let mut scan = Scan {
            has_include: false,
            preceding_cfg: None,
            data: ModuleData::new(self.info.clone()),
        };
        let ghost first_lineno = self.lineno;
        let ghost modname = self.info@.name;
        let mut pos: usize = 0;
        while pos < lines.len()
            invariant
                pos <= lines.len(),
                self.info() == old(self).info(),
                modname == self.info()@.name,
                scan@.data.info == self.info()@,
                read_failed == (read_error is Some),
                first_lineno == old(self).spec_lineno(),
                first_lineno + lines.len() <= u32::MAX,
                self.spec_lineno() <= first_lineno + pos,
                spec_scan(
                    modname,
                    first_lineno,
                    lines.deep_view(),
                    read_failed,
                    0,
                    ScanState::start(self.info()@),
                ) == spec_scan(
                    modname,
                    self.spec_lineno(),
                    lines.deep_view(),
                    read_failed,
                    pos as int,
                    scan@,
                ),
            decreases lines.len() - pos,
        {
            self.lineno = self.lineno + 1;
            proof {
                lemma_scan_line_advances(
                    modname,
                    self.lineno,
                    lines.deep_view(),
                    read_failed,
                    pos as int,
                    scan@,
                );
                lemma_read_failure_is_real(
                    modname,
                    self.lineno,
                    lines.deep_view(),
                    read_failed,
                    pos as int,
                    scan@,
                );
            }
            match self.scan_line(lines, read_failed, pos, &mut scan) {
                Ok(next) => {
                    pos = next;
                },
                Err(halt) => {
                    return Err(
                        match halt {
                            Halt::Failed(e) => e,
                            Halt::ReadFailed => match read_error {
                                Some(e) => BuildError::IOError(e),
                                None => unreached(),
                            },
                        },
                    );
                },
            }
        }
        match read_error {
            Some(e) => Err(BuildError::IOError(e)),
            None => {
                if !scan.has_include && !(scan.data.lisp_fns.len() == 0
                    && scan.data.protected_statics.len() == 0) {
                    let mut msg = self.info.file_name.clone();
                    msg.append(
                        " is missing the required include for protected statics or lisp_fn exports.",
                    );
                    Err(self.fail(2, msg.as_str()))
                } else {
                    Ok(scan.data)
                }
            },
        }
    }
}

/// Whether the scanner did in one pass what `expected` says: it goes on at
/// the same line in the same state, or stops for the same reason.
spec fn scan_step_matches(
    r: Result<usize, Halt>,
    after: ScanState,
    expected: Result<(int, ScanState), Stop>,
) -> bool {
    match expected {
        Ok((next, st)) => r matches Ok(n) && n == next && after == st,
        Err(stop) => r matches Err(h) && h@ == stop,
    }
}

} // verus!
