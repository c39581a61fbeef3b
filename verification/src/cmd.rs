use vstd::prelude::*;

verus! {

use crate::error::Error;
use crate::matches::{Matches, eval};
use vstd::string::StrSliceExecFns;
use vstd::string::StringExecFns;
use crate::value::{Val, Vm, vals_of, lemma_vals_of};
use crate::strings::{str_chars, chars_string};

/// How a captured output stream is reported: a log level for line-wise
/// logging, and whether it is printed verbatim.
pub enum LogLevel {
    Off,
    Error,
    Warn,
    Info,
    Debug,
    Trace,
}

pub struct CmdOutput {
    pub log: LogLevel,
    pub print: bool,
}

impl CmdOutput {
    /// Reporting switched off entirely.
    pub fn quiet() -> (r: CmdOutput)
        ensures
            r.log is Off,
            !r.print,
    {
        CmdOutput { log: LogLevel::Off, print: false }
    }
}

/// A finished sub-process: captured outputs, the exit code (absent when
/// the child was ended by a signal), the codes counted as success, and
/// whether the success predicate matched.
pub struct CmdOut {
    pub stdout: String,
    pub stderr: String,
    pub code: Option<i32>,
    pub success_codes: Vec<i32>,
    pub matched: bool,
}

/// Success: the exit code is one of the success codes; an empty list
/// accepts anything, a signal death nothing.
pub open spec fn out_success(out: CmdOut) -> bool {
    if out.success_codes@.len() == 0 {
        true
    } else {
        match out.code {
            Some(c) => out.success_codes@.contains(c),
            None => false,
        }
    }
}

/// True iff `code` is one of the listed success codes.
pub fn code_is_success(code: i32, success_codes: &Vec<i32>) -> (r: bool)
    ensures
        r == success_codes@.contains(code),
{
    let mut i: usize = 0;
    while i < success_codes.len()
        invariant
            i <= success_codes@.len(),
            forall|j: int| 0 <= j < i ==> success_codes@[j] != code,
        decreases success_codes@.len() - i,
    {
        if success_codes[i] == code {
            return true;
        }
        i += 1;
    }
    false
}

impl CmdOut {
    pub fn success(&self) -> (r: bool)
        ensures
            r == out_success(*self),
    {
        if self.success_codes.len() == 0 {
            return true;
        }
        match self.code {
            Some(c) => code_is_success(c, &self.success_codes),
            None => false,
        }
    }
}

/// ASCII whitespace, as stripped from the end of captured output.
pub open spec fn is_space(c: char) -> bool {
    c == ' ' || c == '\t' || c == '\n' || c == '\r'
}

/// `s` without its trailing whitespace.
pub open spec fn strip_end(s: Seq<char>) -> Seq<char>
    decreases s.len(),
{
    if s.len() > 0 && is_space(s.last()) {
        strip_end(s.drop_last())
    } else {
        s
    }
}

/// Index of the first newline in `s`, or its length.
pub open spec fn line_end(s: Seq<char>) -> int
    decreases s.len(),
{
    if s.len() == 0 {
        0
    } else if s[0] == '\n' {
        0
    } else {
        1 + line_end(s.drop_first())
    }
}

proof fn lemma_line_end(s: Seq<char>)
    ensures
        0 <= line_end(s) <= s.len(),
        forall|i: int| 0 <= i < line_end(s) ==> s[i] != '\n',
        line_end(s) < s.len() ==> s[line_end(s)] == '\n',
    decreases s.len(),
{
    if s.len() > 0 && s[0] != '\n' {
        lemma_line_end(s.drop_first());
        assert forall|i: int| 0 <= i < line_end(s) implies s[i] != '\n' by {
            if i > 0 {
                assert(s.drop_first()[i - 1] != '\n');
            }
        }
    }
}

/// A line with a single trailing carriage return removed.
pub open spec fn chomp(s: Seq<char>) -> Seq<char> {
    if s.len() > 0 && s.last() == '\r' {
        s.drop_last()
    } else {
        s
    }
}

/// The lines of `s`: split at newlines, each line stripped of one
/// trailing carriage return, with no final empty line for a trailing
/// newline.
pub open spec fn split_lines(s: Seq<char>) -> Seq<Seq<char>>
    decreases s.len(),
    via split_lines_dec
{
    if s.len() == 0 {
        Seq::empty()
    } else {
        let e = line_end(s);
        let rest = if e < s.len() {
            s.skip(e + 1)
        } else {
            Seq::empty()
        };
        seq![chomp(s.take(e))] + split_lines(rest)
    }
}

#[via_fn]
proof fn split_lines_dec(s: Seq<char>) {
    if s.len() > 0 {
        lemma_line_end(s);
    }
}

fn find_strip_end(cs: &Vec<char>) -> (e: usize)
    ensures
        e <= cs@.len(),
        strip_end(cs@) == cs@.take(e as int),
{
    let mut e: usize = cs.len();
    proof {
        assert(cs@.take(cs@.len() as int) =~= cs@);
    }
    loop
        invariant
            e <= cs@.len(),
            strip_end(cs@) == strip_end(cs@.take(e as int)),
        decreases e,
    {
        if e == 0 {
            proof {
                assert(cs@.take(0).len() == 0);
            }
            return 0;
        }
        let c = cs[e - 1];
        if !(c == ' ' || c == '\t' || c == '\n' || c == '\r') {
            proof {
                assert(cs@.take(e as int).last() == c);
                assert(strip_end(cs@.take(e as int)) == cs@.take(e as int));
            }
            return e;
        }
        proof {
            assert(cs@.take(e as int).last() == c);
            assert(cs@.take(e as int).drop_last() =~= cs@.take(e - 1));
        }
        e -= 1;
    }
}

/// Strips trailing whitespace.
pub fn strip_end_exec(s: &str) -> (r: String)
    ensures
        r@ == strip_end(s@),
{
    let cs = str_chars(s);
    let e = find_strip_end(&cs);
    let mut out: Vec<char> = Vec::new();
    let mut i: usize = 0;
    while i < e
        invariant
            i <= e <= cs@.len(),
            cs@ == s@,
            e <= cs@.len(),
            out@ =~= s@.take(e as int).take(i as int),
        decreases e - i,
    {
        out.push(cs[i]);
        proof {
            assert(out@ =~= s@.take(e as int).take(i + 1));
        }
        i += 1;
    }
    proof {
        assert(out@ =~= s@.take(e as int));
    }
    chars_string(&out)
}

fn collect_lines(cs: &Vec<char>, from: usize, out: &mut Vec<String>)
    requires
        from <= cs@.len(),
    ensures
        final(out)@.len() >= old(out)@.len(),
        crate::tsort::vviews(final(out)@) =~= crate::tsort::vviews(old(out)@) + split_lines(
            cs@.skip(from as int),
        ),
    decreases cs@.len() - from,
{
    if from >= cs.len() {
        proof {
            assert(crate::tsort::vviews(out@) + split_lines(cs@.skip(from as int)) =~= crate::tsort::vviews(out@));
        }
        return;
    }
    let ghost s = cs@.skip(from as int);
    let mut e: usize = from;
    while e < cs.len() && cs[e] != '\n'
        invariant
            from <= e <= cs@.len(),
            forall|i: int| from <= i < e ==> cs@[i] != '\n',
        decreases cs@.len() - e,
    {
        e += 1;
    }
    proof {
        lemma_line_end(s);
        assert forall|i: int| 0 <= i < e - from implies s[i] != '\n' by {
            assert(s[i] == cs@[from + i]);
        }
        if e < cs@.len() {
            assert(s[e - from] == '\n');
        }
        // line_end is pinned by its characterization
        if line_end(s) < e - from {
            assert(s[line_end(s)] != '\n');
        }
        if line_end(s) > e - from && e < cs@.len() {
            assert(s[e - from] != '\n');
        }
        assert(line_end(s) == e - from);
    }
    let mut line: Vec<char> = Vec::new();
    let mut i: usize = from;
    let stop = if e > from && cs[e - 1] == '\r' {
        e - 1
    } else {
        e
    };
    proof {
        assert(s.take(line_end(s)) =~= cs@.subrange(from as int, e as int));
        if e > from && cs@[e - 1] == '\r' {
            assert(chomp(s.take(line_end(s))) =~= cs@.subrange(from as int, stop as int));
        } else {
            assert(chomp(s.take(line_end(s))) =~= cs@.subrange(from as int, stop as int));
        }
    }
    while i < stop
        invariant
            from <= i <= stop <= cs@.len(),
            line@ =~= cs@.subrange(from as int, i as int),
        decreases stop - i,
    {
        line.push(cs[i]);
        proof {
            assert(line@ =~= cs@.subrange(from as int, i + 1));
        }
        i += 1;
    }
    let lstring = chars_string(&line);
    out.push(lstring);
    let ghost mid = out@;
    if e < cs.len() {
        collect_lines(cs, e + 1, out);
        proof {
            assert(cs@.skip(e + 1) =~= s.skip(line_end(s) + 1));
            assert(crate::tsort::vviews(mid) =~= crate::tsort::vviews(old(out)@) + seq![
                chomp(s.take(line_end(s))),
            ]);
        }
    } else {
        proof {
            assert(seq![chomp(s.take(line_end(s)))] + split_lines(Seq::<char>::empty()) =~= seq![
                chomp(s.take(line_end(s))),
            ]);
            assert(crate::tsort::vviews(out@) =~= crate::tsort::vviews(old(out)@) + seq![
                chomp(s.take(line_end(s))),
            ]);
            assert(split_lines(s) =~= seq![chomp(s.take(line_end(s)))]);
        }
    }
}

/// The lines of `s`, as `str::lines` reads them.
pub fn lines_of(s: &str) -> (r: Vec<String>)
    ensures
        crate::tsort::vviews(r@) == split_lines(s@),
{
    let cs = str_chars(s);
    let mut out: Vec<String> = Vec::new();
    collect_lines(&cs, 0, &mut out);
    proof {
        assert(cs@.skip(0) =~= s@);
        assert(crate::tsort::vviews(out@) =~= split_lines(s@));
    }
    out
}

/// Which captured stream the result is shaped from.
pub enum CmdStream {
    Stdout,
    Stderr,
}

/// How a finished command is turned into a task result value.
pub struct CmdParamsResult {
    pub lines: bool,
    pub matched: bool,
    pub return_code: bool,
    pub stream: CmdStream,
    pub strip: bool,
}

impl CmdParamsResult {
    /// The defaults: stripped standard output, split into lines.
    pub fn new_default() -> (r: CmdParamsResult)
        ensures
            r.lines && !r.matched && !r.return_code && r.stream is Stdout && r.strip,
    {
        CmdParamsResult {
            lines: true,
            matched: false,
            return_code: false,
            stream: CmdStream::Stdout,
            strip: true,
        }
    }
}

/// The shaped result: the return code when `return_code` is set, else the
/// match verdict when `matched` is set, else the chosen stream, stripped
/// and line-split as asked.
pub open spec fn result_spec(p: CmdParamsResult, out: CmdOut) -> Vm {
    if p.return_code {
        match out.code {
            Some(c) => Vm::Int(c as i64),
            None => Vm::Null,
        }
    } else if p.matched {
        Vm::Bool(out.matched)
    } else {
        let raw = match p.stream {
            CmdStream::Stdout => out.stdout@,
            CmdStream::Stderr => out.stderr@,
        };
        let stripped = if p.strip {
            strip_end(raw)
        } else {
            raw
        };
        if p.lines {
            Vm::Arr(Seq::new(split_lines(stripped).len(), |i: int| Vm::Str(split_lines(stripped)[i])))
        } else {
            Vm::Str(stripped)
        }
    }
}

impl CmdParamsResult {
    /// Shapes the finished command into its result value.
    pub fn get(&self, out: &CmdOut) -> (r: Val)
        ensures
            r.deep_view() == result_spec(*self, *out),
    {
        if self.return_code {
            return match out.code {
                Some(c) => Val::Int(c as i64),
                None => Val::Null,
            };
        }
        if self.matched {
            return Val::Bool(out.matched);
        }
        let raw = match self.stream {
            CmdStream::Stdout => out.stdout.as_str(),
            CmdStream::Stderr => out.stderr.as_str(),
        };
        let stripped = if self.strip {
            strip_end_exec(raw)
        } else {
            let cs = str_chars(raw);
            chars_string(&cs)
        };
        if self.lines {
            let ls = lines_of(stripped.as_str());
            let mut arr: Vec<Val> = Vec::new();
            let mut i: usize = 0;
            while i < ls.len()
                invariant
                    i <= ls@.len(),
                    arr@.len() == i,
                    forall|j: int| 0 <= j < i ==> arr@[j].deep_view() == Vm::Str(ls@[j]@),
                decreases ls@.len() - i,
            {
                let piece = str_chars(ls[i].as_str());
                arr.push(Val::Str(chars_string(&piece)));
                i += 1;
            }
            let r = Val::Arr(arr);
            proof {
                lemma_vals_of(arr@);
                let target = split_lines(stripped@);
                assert(crate::tsort::vviews(ls@) == target);
                assert forall|j: int| 0 <= j < target.len() implies vals_of(arr@)[j] == Vm::Str(
                    target[j],
                ) by {
                    assert(crate::tsort::vviews(ls@)[j] == ls@[j]@);
                }
                assert(vals_of(arr@) =~= Seq::new(target.len(), |i: int| Vm::Str(target[i])));
            }
            r
        } else {
            Val::Str(stripped)
        }
    }
}

/// Everything that governs one command invocation.
pub struct CmdParams {
    pub check: Option<bool>,
    pub result: CmdParamsResult,
    pub stdin: Option<String>,
    pub stdout: CmdOutput,
    pub stderr: CmdOutput,
    pub success_codes: Vec<i32>,
    pub success_matches: Option<Matches>,
    pub failure_matches: Option<Matches>,
}

impl CmdParams {
    /// The defaults, under the configured reporting for the two streams.
    pub fn new_default(stdout: CmdOutput, stderr: CmdOutput) -> (r: CmdParams)
        ensures
            r.check is None,
            r.stdin is None,
            r.success_codes@ =~= seq![0i32],
            r.success_matches is None,
            r.failure_matches is None,
            r.result.lines && !r.result.matched && !r.result.return_code && r.result.stream
                is Stdout && r.result.strip,
            r.stdout == stdout,
            r.stderr == stderr,
    {
        let mut codes: Vec<i32> = Vec::new();
        codes.push(0);
        CmdParams {
            check: None,
            result: CmdParamsResult::new_default(),
            stdin: None,
            stdout,
            stderr,
            success_codes: codes,
            success_matches: None,
            failure_matches: None,
        }
    }

    /// The defaults with both streams silenced.
    pub fn quiet() -> (r: CmdParams)
        ensures
            r.check is None,
            r.stdin is None,
            r.success_codes@ =~= seq![0i32],
            r.success_matches is None,
            r.failure_matches is None,
            r.stdout.log is Off && !r.stdout.print,
            r.stderr.log is Off && !r.stderr.print,
            r.result.lines && !r.result.matched && !r.result.return_code && r.result.stream
                is Stdout && r.result.strip,
    {
        CmdParams::new_default(CmdOutput::quiet(), CmdOutput::quiet())
    }
}

/// A failure with its structured context bag, rendered for the user when
/// the run aborts.
#[derive(Debug)]
pub struct Failure {
    pub error: Error,
    pub context: Vec<(String, String)>,
}

/// How a finished command is judged, in order: a disallowed exit code
/// under `check` fails first, then a matching failure predicate, then a
/// set but unmatched success predicate; otherwise the command passed. A
/// predicate whose pattern does not compile stops the judgement.
pub enum Verdict {
    Passed,
    ExitCode,
    FailureMatched,
    SuccessUnmatched,
    BadPattern,
}

/// The judgement of spec of a finished command.
pub open spec fn verdict_spec(
    check: bool,
    codes_ok: bool,
    fm: Option<Option<bool>>,
    sm: Option<Option<bool>>,
) -> Verdict {
    if check && !codes_ok {
        Verdict::ExitCode
    } else {
        match fm {
            Some(None) => Verdict::BadPattern,
            Some(Some(true)) => Verdict::FailureMatched,
            _ => match sm {
                Some(None) => Verdict::BadPattern,
                Some(Some(false)) => Verdict::SuccessUnmatched,
                _ => Verdict::Passed,
            },
        }
    }
}

/// The verdict a command's `check` setting defaults to when unset.
pub open spec fn effective_check(check: Option<bool>, default_check: bool) -> bool {
    match check {
        Some(b) => b,
        None => default_check,
    }
}

/// The evaluation of an optional predicate against the outputs.
pub open spec fn opt_eval(m: Option<Matches>, out: Seq<char>, err: Seq<char>) -> Option<
    Option<bool>,
> {
    match m {
        Some(mm) => Some(eval(mm, out, err)),
        None => None,
    }
}

/// Under `check == false`, the judgement is never `ExitCode`, whatever the
/// exit code and codes list were.
pub proof fn lemma_no_check_no_exit_code(
    codes_ok: bool,
    fm: Option<Option<bool>>,
    sm: Option<Option<bool>>,
)
    ensures
        !(verdict_spec(false, codes_ok, fm, sm) is ExitCode),
{
}


/// Whether the exit code is accepted by the codes list.
pub open spec fn codes_ok_spec(code: Option<i32>, codes: Seq<i32>) -> bool {
    if codes.len() == 0 {
        true
    } else {
        match code {
            Some(c) => codes.contains(c),
            None => false,
        }
    }
}

/// A predicate rendered as a value, for the error context bag.
pub open spec fn matches_val(m: Matches) -> Vm
    decreases m,
    via matches_val_dec
{
    match m {
        Matches::And(ms) => Vm::Obj(seq![("and"@, Vm::Arr(matches_vals(ms@)))]),
        Matches::Or(ms) => Vm::Obj(seq![("or"@, Vm::Arr(matches_vals(ms@)))]),
        Matches::AnyRe(s) => Vm::Obj(seq![("any-re"@, Vm::Str(s@))]),
        Matches::ErrRe(s) => Vm::Obj(seq![("err-re"@, Vm::Str(s@))]),
        Matches::OutRe(s) => Vm::Obj(seq![("out-re"@, Vm::Str(s@))]),
    }
}

pub open spec fn matches_vals(ms: Seq<Matches>) -> Seq<Vm>
    decreases ms,
    via matches_vals_dec
{
    if ms.len() == 0 {
        Seq::empty()
    } else {
        seq![matches_val(ms[0])] + matches_vals(ms.drop_first())
    }
}

#[via_fn]
proof fn matches_val_dec(m: Matches) {
    match m {
        Matches::And(ms) => {
            assert(decreases_to!(m => ms));
            assert(decreases_to!(ms => ms@));
        }
        Matches::Or(ms) => {
            assert(decreases_to!(m => ms));
            assert(decreases_to!(ms => ms@));
        }
        _ => {}
    }
}

#[via_fn]
proof fn matches_vals_dec(ms: Seq<Matches>) {
    if ms.len() > 0 {
        assert(decreases_to!(ms => ms[0]));
        assert(decreases_to!(ms => ms.drop_first()));
    }
}

/// Renders a predicate as a value for the error context bag.
pub fn matches_to_value(m: &Matches) -> (r: Val)
    ensures
        r.deep_view() == matches_val(*m),
    decreases *m,
{
    match m {
        Matches::And(ms) => {
            proof {
                assert(decreases_to!(*m => *ms));
                assert(decreases_to!(*ms => ms@));
            }
            let arr = matches_to_values(ms);
            let mut obj: Vec<(String, Val)> = Vec::new();
            obj.push(("and".to_owned(), Val::Arr(arr)));
            let r = Val::Obj(obj);
            proof {
                reveal_strlit("and");
                crate::value::lemma_kvals_of(obj@);
                assert(r.deep_view() matches Vm::Obj(o) && o =~= seq![
                    ("and"@, Vm::Arr(matches_vals(ms@))),
                ]);
            }
            r
        }
        Matches::Or(ms) => {
            proof {
                assert(decreases_to!(*m => *ms));
                assert(decreases_to!(*ms => ms@));
            }
            let arr = matches_to_values(ms);
            let mut obj: Vec<(String, Val)> = Vec::new();
            obj.push(("or".to_owned(), Val::Arr(arr)));
            let r = Val::Obj(obj);
            proof {
                reveal_strlit("or");
                crate::value::lemma_kvals_of(obj@);
                assert(r.deep_view() matches Vm::Obj(o) && o =~= seq![
                    ("or"@, Vm::Arr(matches_vals(ms@))),
                ]);
            }
            r
        }
        Matches::AnyRe(s) => {
            let mut obj: Vec<(String, Val)> = Vec::new();
            obj.push(("any-re".to_owned(), Val::Str(s.clone())));
            let r = Val::Obj(obj);
            proof {
                reveal_strlit("any-re");
                crate::value::lemma_kvals_of(obj@);
                assert(r.deep_view() matches Vm::Obj(o) && o =~= seq![("any-re"@, Vm::Str(s@))]);
            }
            r
        }
        Matches::ErrRe(s) => {
            let mut obj: Vec<(String, Val)> = Vec::new();
            obj.push(("err-re".to_owned(), Val::Str(s.clone())));
            let r = Val::Obj(obj);
            proof {
                reveal_strlit("err-re");
                crate::value::lemma_kvals_of(obj@);
                assert(r.deep_view() matches Vm::Obj(o) && o =~= seq![("err-re"@, Vm::Str(s@))]);
            }
            r
        }
        Matches::OutRe(s) => {
            let mut obj: Vec<(String, Val)> = Vec::new();
            obj.push(("out-re".to_owned(), Val::Str(s.clone())));
            let r = Val::Obj(obj);
            proof {
                reveal_strlit("out-re");
                crate::value::lemma_kvals_of(obj@);
                assert(r.deep_view() matches Vm::Obj(o) && o =~= seq![("out-re"@, Vm::Str(s@))]);
            }
            r
        }
    }
}

fn matches_to_values(ms: &Vec<Matches>) -> (r: Vec<Val>)
    ensures
        crate::value::vals_of(r@) == matches_vals(ms@),
    decreases ms@,
{
    let mut out: Vec<Val> = Vec::new();
    let mut i: usize = 0;
    while i < ms.len()
        invariant
            i <= ms@.len(),
            forall|j: int| 0 <= j < i ==> j < out@.len() && out@[j].deep_view() == matches_val(
                #[trigger] ms@[j],
            ),
            out@.len() == i,
        decreases ms@.len() - i,
    {
        proof {
            assert(decreases_to!(ms@ => ms@[i as int]));
        }
        let v = matches_to_value(&ms[i]);
        out.push(v);
        i += 1;
    }
    proof {
        crate::value::lemma_vals_of(out@);
        lemma_matches_vals_index(ms@);
        assert(crate::value::vals_of(out@) =~= matches_vals(ms@));
    }
    out
}

proof fn lemma_matches_vals_index(ms: Seq<Matches>)
    ensures
        matches_vals(ms).len() == ms.len(),
        forall|i: int| 0 <= i < ms.len() ==> matches_vals(ms)[i] == matches_val(ms[i]),
    decreases ms.len(),
{
    if ms.len() > 0 {
        assert(decreases_to!(ms => ms.drop_first()));
        lemma_matches_vals_index(ms.drop_first());
    }
}

/// Judges a finished command in order: exit code under `check`, then the
/// failure predicate, then the success predicate. On failure the error
/// carries the command text, and the context bag carries the captured
/// evidence: stdin, the stripped outputs, the predicate as JSON, the exit
/// code, and the accepted codes when they are not the single zero.
pub fn run_decision(
    command_text: &str,
    params: &CmdParams,
    raw: crate::effects::RawOut,
    default_check: bool,
) -> (r: Result<CmdOut, Failure>)
    ensures
        ({
            let check = effective_check(params.check, default_check);
            let ok = codes_ok_spec(raw.code, params.success_codes@);
            let fm = opt_eval(params.failure_matches, raw.stdout@, raw.stderr@);
            let sm = opt_eval(params.success_matches, raw.stdout@, raw.stderr@);
            let v = verdict_spec(check, ok, fm, sm);
            match r {
                Ok(out) => v is Passed && out.stdout@ == raw.stdout@ && out.stderr@
                    == raw.stderr@ && out.code == raw.code && out.success_codes@
                    == params.success_codes@ && out.matched == (sm == Some(Some(true))),
                Err(f) => match v {
                    Verdict::Passed => false,
                    Verdict::ExitCode => f.error matches Error::CommandFailedExitCode(c) && c@
                        == command_text@,
                    Verdict::FailureMatched => f.error matches Error::CommandFailedFailureMatches(
                        c,
                    ) && c@ == command_text@,
                    Verdict::SuccessUnmatched => f.error matches
                        Error::CommandFailedSuccessMatches(c) && c@ == command_text@,
                    Verdict::BadPattern => f.error is BadRegex,
                },
            }
        }),
{
    let check = match params.check {
        Some(b) => b,
        None => default_check,
    };
    let codes_ok = if params.success_codes.len() == 0 {
        true
    } else {
        match raw.code {
            Some(c) => code_is_success(c, &params.success_codes),
            None => false,
        }
    };
    if check && !codes_ok {
        let bag = decision_bag(params, &raw, None);
        return Err(
            Failure { error: Error::CommandFailedExitCode(command_text.to_owned()), context: bag },
        );
    }
    match &params.failure_matches {
        Some(m) => {
            match m.is_match(raw.stdout.as_str(), raw.stderr.as_str()) {
                Err(e) => {
                    return Err(Failure { error: e, context: Vec::new() });
                }
                Ok(true) => {
                    let bag = decision_bag(params, &raw, Some(m));
                    return Err(
                        Failure {
                            error: Error::CommandFailedFailureMatches(command_text.to_owned()),
                            context: bag,
                        },
                    );
                }
                Ok(false) => {},
            }
        }
        None => {},
    }
    let mut matched = false;
    match &params.success_matches {
        Some(m) => {
            match m.is_match(raw.stdout.as_str(), raw.stderr.as_str()) {
                Err(e) => {
                    return Err(Failure { error: e, context: Vec::new() });
                }
                Ok(false) => {
                    let bag = decision_bag(params, &raw, Some(m));
                    return Err(
                        Failure {
                            error: Error::CommandFailedSuccessMatches(command_text.to_owned()),
                            context: bag,
                        },
                    );
                }
                Ok(true) => {
                    matched = true;
                }
            }
        }
        None => {},
    }
    Ok(
        CmdOut {
            stdout: raw.stdout,
            stderr: raw.stderr,
            code: raw.code,
            success_codes: dup_codes_list(&params.success_codes),
            matched,
        },
    )
}

fn dup_codes_list(codes: &Vec<i32>) -> (r: Vec<i32>)
    ensures
        r@ == codes@,
{
    let mut out: Vec<i32> = Vec::new();
    let mut i: usize = 0;
    while i < codes.len()
        invariant
            i <= codes@.len(),
            out@ =~= codes@.take(i as int),
        decreases codes@.len() - i,
    {
        out.push(codes[i]);
        proof {
            assert(out@ =~= codes@.take(i + 1));
        }
        i += 1;
    }
    proof {
        assert(out@ =~= codes@);
    }
    out
}

/// The context bag attached to a failed command.
fn decision_bag(params: &CmdParams, raw: &crate::effects::RawOut, m: Option<&Matches>) -> (r: Vec<
    (String, String),
>) {
    let mut bag: Vec<(String, String)> = Vec::new();
    match &params.stdin {
        Some(s) => {
            bag.push(("stdin".to_owned(), s.clone()));
        }
        None => {},
    }
    let out_stripped = strip_end_exec(raw.stdout.as_str());
    if out_stripped.as_str().unicode_len() > 0 || matches!(m, Some(_)) {
        bag.push(("stdout".to_owned(), out_stripped));
    }
    let err_stripped = strip_end_exec(raw.stderr.as_str());
    if err_stripped.as_str().unicode_len() > 0 || matches!(m, Some(_)) {
        bag.push(("stderr".to_owned(), err_stripped));
    }
    match m {
        Some(mm) => {
            let v = matches_to_value(mm);
            bag.push(("matches".to_owned(), crate::json::json_encode(&v)));
        }
        None => {},
    }
    match raw.code {
        Some(rc) => {
            let plain_zero = params.success_codes.len() == 1 && params.success_codes[0] == 0;
            if !plain_zero {
                bag.push(("rc".to_owned(), crate::strings::i64_string(rc as i64)));
                let mut codes: Vec<Val> = Vec::new();
                let mut i: usize = 0;
                while i < params.success_codes.len()
                    decreases params.success_codes@.len() - i,
                {
                    codes.push(Val::Int(params.success_codes[i] as i64));
                    i += 1;
                }
                bag.push(
                    ("success codes".to_owned(), crate::json::json_encode(&Val::Arr(codes))),
                );
            } else if rc != 0 {
                bag.push(("rc".to_owned(), crate::strings::i64_string(rc as i64)));
            }
        }
        None => {},
    }
    bag
}

/// A duration in friendly text: milliseconds below two seconds, whole
/// seconds above.
pub fn show_duration(ms: u64) -> (r: String)
    ensures
        ms < 2000 ==> r@ == crate::strings::dec_str(ms as nat) + " ms"@,
        ms >= 2000 ==> r@ == crate::strings::dec_str((ms / 1000) as nat) + " s"@,
{
    if ms < 2000 {
        let mut s = crate::strings::u64_string(ms);
        s.append(" ms");
        s
    } else {
        let mut s = crate::strings::u64_string(ms / 1000);
        s.append(" s");
        s
    }
}

} // verus!
