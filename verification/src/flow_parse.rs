//! The flow file format.
//!
//! A flow file starts with a header line `Name` or `Name: Effector, Effector, ...`. Each state
//! starts with a line `- Name` or `- Trigger => Name` (the trigger is a parking state that
//! allows the state); the lines that follow it, indented by a space, are its commands:
//! `: data` sends data, `"message"` shows a message, `> "prompt"` or `> "prompt" (low..high)`
//! asks the operator for a string or an integer, `stop [services]` and
//! `start service[/data] ...` stop and start services.
use vstd::prelude::*;
use crate::park::{ParkState, spec_from_name};
use crate::text::{
    trim, trim_end, find, rfind_char, split, spec_parse_i32, chars_eq_str, find_char, find_chars,
    rfind_char_chars, subvec, trim_chars, split_chars, parse_i32, pattern1, pattern2,
    string_from_chars, lemma_find_bounds, lemma_rfind_bounds, lemma_split_nonempty, replace,
    replace_chars, count_chars, count_char,
};
use crate::flow::{
    CmdView, FlowCmd, FlowState, Flow, StateView, FlowView, Stamp, fresh_state, fresh_flow,
    entry_view, FlowError,
};

verus! {

/// Why a flow file was rejected.
#[derive(Copy, Clone, Debug, PartialEq, Eq, Structural)]
pub enum ParseFlowKind {
    IoError,
    EmptyFile,
    InvalidEndEffector,
    BadHeader,
    TooManyArrows,
    CommandOutsideOfState,
    UnindentedLine,
    BadTrigger,
    ExpectedQuotedString,
    UnterminatedString,
    TooManyStrings,
    RangeNotInParentheses,
    NotEnoughDots,
    BadStartOfRange,
    BadEndOfRange,
    EmptyCommand,
    InvalidCommand,
}

/// The description of each kind of syntax error.
pub open spec fn kind_message(k: ParseFlowKind) -> Seq<char> {
    match k {
        ParseFlowKind::IoError => "I/O error"@,
        ParseFlowKind::EmptyFile => "Empty file"@,
        ParseFlowKind::InvalidEndEffector => "invalid end-effector specifier"@,
        ParseFlowKind::BadHeader => "bad header"@,
        ParseFlowKind::TooManyArrows => "too many arrows"@,
        ParseFlowKind::CommandOutsideOfState => "command outside of state"@,
        ParseFlowKind::UnindentedLine => "unindented line"@,
        ParseFlowKind::BadTrigger => "bad trigger"@,
        ParseFlowKind::ExpectedQuotedString => "expected quoted string"@,
        ParseFlowKind::UnterminatedString => "unterminated string"@,
        ParseFlowKind::TooManyStrings => "too many strings"@,
        ParseFlowKind::RangeNotInParentheses => "range not in parentheses"@,
        ParseFlowKind::NotEnoughDots => "not enough dots in range"@,
        ParseFlowKind::BadStartOfRange => "bad start of range"@,
        ParseFlowKind::BadEndOfRange => "bad end of range"@,
        ParseFlowKind::EmptyCommand => "empty command"@,
        ParseFlowKind::InvalidCommand => "invalid command"@,
    }
}

impl ParseFlowKind {
    /// Human-readable description of the problem.
    pub fn message(&self) -> (r: &'static str)
        ensures
            r@ == kind_message(*self),
    {
        match *self {
            ParseFlowKind::IoError => "I/O error",
            ParseFlowKind::EmptyFile => "Empty file",
            ParseFlowKind::InvalidEndEffector => "invalid end-effector specifier",
            ParseFlowKind::BadHeader => "bad header",
            ParseFlowKind::TooManyArrows => "too many arrows",
            ParseFlowKind::CommandOutsideOfState => "command outside of state",
            ParseFlowKind::UnindentedLine => "unindented line",
            ParseFlowKind::BadTrigger => "bad trigger",
            ParseFlowKind::ExpectedQuotedString => "expected quoted string",
            ParseFlowKind::UnterminatedString => "unterminated string",
            ParseFlowKind::TooManyStrings => "too many strings",
            ParseFlowKind::RangeNotInParentheses => "range not in parentheses",
            ParseFlowKind::NotEnoughDots => "not enough dots in range",
            ParseFlowKind::BadStartOfRange => "bad start of range",
            ParseFlowKind::BadEndOfRange => "bad end of range",
            ParseFlowKind::EmptyCommand => "empty command",
            ParseFlowKind::InvalidCommand => "invalid command",
        }
    }
}

/// Outcome of reading (part of) a flow file: a value, a syntax error at a line (counted from
/// the header, which is line 0), or an input on which the reader would panic.
pub enum Parsed<T> {
    Done(T),
    Fails(int, ParseFlowKind),
    Panics,
}

/// The flow file formats. They differ in the header line (the back end reads end effectors
/// after a colon, the web front ends take the whole line as the name), in prompt lines (the web
/// front ends count the quotes that are not escaped by a backslash) and in `start` words (the
/// plain web front end keeps each word whole, the others split off `/data`).
#[derive(Copy, Clone, Debug, PartialEq, Eq, Structural)]
pub enum Dialect {
    Backend,
    Web,
    WebPlain,
}

/// Outcome of reading one command line.
pub enum CmdParse {
    Cmds(Seq<CmdView>),
    Error(ParseFlowKind),
    Panics,
}

/// A `start` word: `service` or `service/data`.
pub open spec fn spec_start_cmd(w: Seq<char>) -> CmdView {
    match find(w, seq!['/']) {
        Some(i) => CmdView::Start(w.subrange(0, i), Some(w.subrange(i + 1, w.len() as int))),
        None => CmdView::Start(w, None),
    }
}

/// A `start` word in a dialect: whole in the plain web dialect, else as `spec_start_cmd`.
pub open spec fn spec_start_word(w: Seq<char>, d: Dialect) -> CmdView {
    if d == Dialect::WebPlain {
        CmdView::Start(w, None)
    } else {
        spec_start_cmd(w)
    }
}

/// A `stop` word.
pub open spec fn spec_stop_cmd(w: Seq<char>) -> CmdView {
    CmdView::Stop(w)
}

/// The commands of a line of space-separated (and then trimmed) words.
pub open spec fn spec_parse_words(ws: Seq<Seq<char>>, d: Dialect) -> CmdParse {
    if ws.len() == 0 || ws[0].len() == 0 {
        CmdParse::Error(ParseFlowKind::EmptyCommand)
    } else if ws[0] == "stop"@ {
        if ws.len() > 1 {
            CmdParse::Cmds(ws.drop_first().map_values(|w: Seq<char>| spec_stop_cmd(w)))
        } else {
            CmdParse::Cmds(seq![CmdView::StopSensors])
        }
    } else if ws[0] == "start"@ {
        CmdParse::Cmds(ws.drop_first().map_values(|w: Seq<char>| spec_start_word(w, d)))
    } else {
        CmdParse::Error(ParseFlowKind::InvalidCommand)
    }
}

/// The command of a prompt line whose prompt lies between the quotes at `q1` and `q2`: a
/// string prompt, or an integer prompt when a range `(low..high)` follows.
pub open spec fn spec_prompt_body(t: Seq<char>, q1: int, q2: int) -> CmdParse {
    let s = trim(t.subrange(q1 + 1, q2));
    let range = trim(t.subrange(q2 + 1, t.len() as int));
    if range.len() == 0 {
        CmdParse::Cmds(seq![CmdView::Str { prompt: s, data: None }])
    } else if !(range[0] == '(' && range.last() == ')') {
        CmdParse::Error(ParseFlowKind::RangeNotInParentheses)
    } else {
        match find(range, seq!['.', '.']) {
            None => CmdParse::Error(ParseFlowKind::NotEnoughDots),
            Some(d) => match spec_parse_i32(range.subrange(1, d)) {
                None => CmdParse::Error(ParseFlowKind::BadStartOfRange),
                Some(low) => match spec_parse_i32(range.subrange(d + 2, range.len() - 1)) {
                    None => CmdParse::Error(ParseFlowKind::BadEndOfRange),
                    Some(high) => CmdParse::Cmds(
                        seq![CmdView::Int { prompt: s, limits: (low, high), data: None }],
                    ),
                },
            },
        }
    }
}

/// The command of a prompt line `> "prompt"` or `> "prompt" (low..high)`. The prompt lies
/// between the first and the last quote; a line with a single quote makes the reader panic.
pub open spec fn spec_parse_prompt(t: Seq<char>) -> CmdParse {
    match find(t, seq!['"']) {
        None => CmdParse::Error(ParseFlowKind::ExpectedQuotedString),
        Some(q1) => match rfind_char(t, '"') {
            None => CmdParse::Error(ParseFlowKind::UnterminatedString),
            Some(q2) => if q2 < q1 + 1 {
                CmdParse::Panics
            } else {
                spec_prompt_body(t, q1, q2)
            },
        },
    }
}

/// The quotes of a line that are not escaped by a backslash.
pub open spec fn bare_quotes(t: Seq<char>) -> nat {
    count_char(replace(t, seq!['\\', '"'], seq![]), '"')
}

/// The command of a prompt line as the web front end reads it: one bare quote leaves the string
/// unterminated and more than two are too many; otherwise the prompt lies between the first and
/// the last quote, and the reader panics when there are not two of them.
pub open spec fn spec_parse_web_prompt(t: Seq<char>) -> CmdParse {
    let n = bare_quotes(t);
    if n == 1 {
        CmdParse::Error(ParseFlowKind::UnterminatedString)
    } else if n > 2 {
        CmdParse::Error(ParseFlowKind::TooManyStrings)
    } else {
        match find(t, seq!['"']) {
            None => CmdParse::Panics,
            Some(q1) => match rfind_char(t, '"') {
                None => CmdParse::Panics,
                Some(q2) => if q2 < q1 + 1 {
                    CmdParse::Panics
                } else {
                    spec_prompt_body(t, q1, q2)
                },
            },
        }
    }
}

/// The commands of one (trimmed) command line. A message line `"..."` loses its first and last
/// character; the reader panics when that last character is not ASCII or the line is a lone
/// quote.
pub open spec fn spec_parse_command(t: Seq<char>, d: Dialect) -> CmdParse {
    if t.len() > 0 && t[0] == ':' {
        CmdParse::Cmds(seq![CmdView::Send(trim(t.drop_first()))])
    } else if t.len() > 0 && t[0] == '"' {
        if t.len() >= 2 && (t.last() as u32) < 128 {
            CmdParse::Cmds(seq![CmdView::Message(t.subrange(1, t.len() - 1))])
        } else {
            CmdParse::Panics
        }
    } else if t.len() > 0 && t[0] == '>' {
        match d {
            Dialect::Backend => spec_parse_prompt(t),
            _ => spec_parse_web_prompt(t),
        }
    } else {
        spec_parse_words(split(t, seq![' ']).map_values(|w: Seq<char>| trim(w)), d)
    }
}

/// The parking state named by a state's trigger.
pub open spec fn spec_trigger(t: Seq<char>) -> Option<ParkState> {
    if t.len() == 0 {
        Some(ParkState::AllParked)
    } else if t == "BioTac"@ {
        Some(ParkState::BioTac)
    } else if t == "OptoForce"@ {
        Some(ParkState::OptoForce)
    } else if t == "Stick"@ {
        Some(ParkState::Stick)
    } else {
        None
    }
}

/// Name and trigger of a state header line `- Name` or `- Trigger => Name`.
pub open spec fn spec_state_header(l: Seq<char>) -> Result<(Seq<char>, Option<ParkState>), ParseFlowKind> {
    let parts = split(l, seq!['=', '>']);
    if parts.len() > 2 {
        Err(ParseFlowKind::TooManyArrows)
    } else if !(parts[0].len() > 0 && parts[0][0] == '-') {
        if parts[0].len() > 0 && parts[0][0] == ' ' {
            Err(ParseFlowKind::CommandOutsideOfState)
        } else {
            Err(ParseFlowKind::UnindentedLine)
        }
    } else if parts.len() == 1 {
        Ok((trim(parts[0].drop_first()), None))
    } else {
        match spec_trigger(trim(parts[0].drop_first())) {
            Some(p) => Ok((trim(parts[1]), Some(p))),
            None => Err(ParseFlowKind::BadTrigger),
        }
    }
}

/// The parking states named by a list of words, if every word names one.
pub open spec fn spec_park_names(ws: Seq<Seq<char>>) -> Option<Seq<ParkState>>
    decreases ws.len(),
{
    if ws.len() == 0 {
        Some(seq![])
    } else {
        match (spec_from_name(ws[0]), spec_park_names(ws.drop_first())) {
            (Some(p), Some(rest)) => Some(seq![p] + rest),
            _ => None,
        }
    }
}

/// Name and end effectors of the flow header line.
pub open spec fn spec_flow_header(l: Seq<char>) -> Result<(Seq<char>, Seq<ParkState>), ParseFlowKind> {
    let parts = split(l, seq![':']);
    if parts.len() == 1 {
        Ok((trim(parts[0]), seq![]))
    } else if parts.len() == 2 {
        match spec_park_names(split(trim(parts[1]), seq![',']).map_values(|w: Seq<char>| trim(w))) {
            Some(es) => Ok((trim(parts[0]), es)),
            None => Err(ParseFlowKind::InvalidEndEffector),
        }
    } else {
        Err(ParseFlowKind::BadHeader)
    }
}

/// Whether line `j` is a command line (indented by a space).
pub open spec fn is_command_line(ls: Seq<Seq<char>>, j: int) -> bool {
    0 <= j < ls.len() && ls[j].len() > 0 && ls[j][0] == ' '
}

/// The commands of the command lines from line `j` on, and the line where they stop; `h` is the
/// line of the flow header.
pub open spec fn spec_script(ls: Seq<Seq<char>>, j: int, h: int, d: Dialect) -> Parsed<(Seq<CmdView>, int)>
    decreases ls.len() - j,
{
    if is_command_line(ls, j) {
        match spec_parse_command(trim(ls[j]), d) {
            CmdParse::Panics => Parsed::Panics,
            CmdParse::Error(k) => Parsed::Fails(j - h, k),
            CmdParse::Cmds(c) => match spec_script(ls, j + 1, h, d) {
                Parsed::Done((rest, e)) => Parsed::Done((c + rest, e)),
                Parsed::Fails(l, k) => Parsed::Fails(l, k),
                Parsed::Panics => Parsed::Panics,
            },
        }
    } else {
        Parsed::Done((seq![], j))
    }
}

/// The commands of a script stop at or after the line they start from, and within the file.
pub proof fn lemma_script_end(ls: Seq<Seq<char>>, j: int, h: int, d: Dialect)
    requires
        0 <= j <= ls.len(),
    ensures
        spec_script(ls, j, h, d) matches Parsed::Done((_, e)) ==> j <= e <= ls.len(),
    decreases ls.len() - j,
{
    if is_command_line(ls, j) {
        lemma_script_end(ls, j + 1, h, d);
    }
}

/// The script entries of freshly read commands (not yet run).
pub open spec fn unstamped(c: Seq<CmdView>) -> Seq<(CmdView, Option<Stamp>)> {
    c.map_values(|x: CmdView| (x, None::<Stamp>))
}

/// The states from line `k` on; `h` is the line of the flow header.
pub open spec fn spec_states(ls: Seq<Seq<char>>, k: int, h: int, d: Dialect) -> Parsed<Seq<StateView>>
    decreases ls.len() - k,
{
    if k < 0 || k >= ls.len() {
        Parsed::Done(seq![])
    } else if ls[k].len() == 0 {
        spec_states(ls, k + 1, h, d)
    } else {
        match spec_state_header(ls[k]) {
            Err(kd) => Parsed::Fails(k - h, kd),
            Ok((name, park)) => match spec_script(ls, k + 1, h, d) {
                Parsed::Panics => Parsed::Panics,
                Parsed::Fails(l, kd) => Parsed::Fails(l, kd),
                Parsed::Done((cmds, j)) => {
                    proof {
                        lemma_script_end(ls, k + 1, h, d);
                    }
                    match spec_states(ls, j, h, d) {
                        Parsed::Done(rest) => Parsed::Done(
                            seq![fresh_state(name, park, unstamped(cmds))] + rest,
                        ),
                        Parsed::Fails(l, kd) => Parsed::Fails(l, kd),
                        Parsed::Panics => Parsed::Panics,
                    }
                },
            },
        }
    }
}

/// The first non-empty line at or after `k`.
pub open spec fn first_nonempty(ls: Seq<Seq<char>>, k: int) -> Option<int>
    decreases ls.len() - k,
{
    if k < 0 || k >= ls.len() {
        None
    } else if ls[k].len() > 0 {
        Some(k)
    } else {
        first_nonempty(ls, k + 1)
    }
}

/// The lines of a file with their trailing whitespace removed.
pub open spec fn trimmed_lines(lines: Seq<Seq<char>>) -> Seq<Seq<char>> {
    lines.map_values(|l: Seq<char>| trim_end(l))
}

/// Name and end effectors of the header line of a flow file in a dialect.
pub open spec fn spec_header(l: Seq<char>, d: Dialect) -> Result<(Seq<char>, Seq<ParkState>), ParseFlowKind> {
    match d {
        Dialect::Backend => spec_flow_header(l),
        _ => Ok((l, seq![])),
    }
}

/// The flow that the lines of a flow file in a dialect describe.
pub open spec fn spec_read_flow(shortname: Seq<char>, lines: Seq<Seq<char>>, d: Dialect) -> Parsed<FlowView> {
    let ls = trimmed_lines(lines);
    match first_nonempty(ls, 0) {
        None => Parsed::Fails(0, ParseFlowKind::EmptyFile),
        Some(h) => match spec_header(ls[h], d) {
            Err(kd) => Parsed::Fails(0, kd),
            Ok((name, endeffs)) => match spec_states(ls, h + 1, h, d) {
                Parsed::Done(states) => Parsed::Done(fresh_flow(name, shortname, endeffs, states)),
                Parsed::Fails(l, kd) => Parsed::Fails(l, kd),
                Parsed::Panics => Parsed::Panics,
            },
        },
    }
}

/// The flow that the lines of a flow file describe, as the back end reads them.
pub open spec fn spec_parse_flow(shortname: Seq<char>, lines: Seq<Seq<char>>) -> Parsed<FlowView> {
    spec_read_flow(shortname, lines, Dialect::Backend)
}

/// The models of a list of commands.
pub open spec fn cmds_view(v: Seq<FlowCmd>) -> Seq<CmdView> {
    v.map_values(|c: FlowCmd| c@)
}


/// Outcome of reading a flow file, or a part of it.
#[derive(Debug, PartialEq, Eq)]
pub enum Reading<T> {
    /// The value read.
    Read(T),
    /// A syntax error at a line, counted from the header line (line 0).
    Rejected(usize, ParseFlowKind),
    /// The file holds a line on which the reader would panic.
    Unreadable,
}

/// Outcome of reading one command line.
enum LineRead {
    Cmds(Vec<FlowCmd>),
    Rejected(ParseFlowKind),
    Unreadable,
}

/// Whether an executable reading of a command line agrees with its model.
spec fn cmd_agrees(r: LineRead, p: CmdParse) -> bool {
    match p {
        CmdParse::Cmds(c) => r matches LineRead::Cmds(v) && cmds_view(v@) == c,
        CmdParse::Error(k) => r matches LineRead::Rejected(e) && e == k,
        CmdParse::Panics => r is Unreadable,
    }
}

/// A list of one command.
fn one_cmd(c: FlowCmd) -> (r: Vec<FlowCmd>)
    ensures
        cmds_view(r@) == seq![c@],
{
    let mut v: Vec<FlowCmd> = Vec::new();
    v.push(c);
    assert(cmds_view(v@) =~= seq![c@]);
    v
}

/// The command of one `start` word.
fn start_cmd(w: &Vec<char>) -> (r: FlowCmd)
    ensures
        r@ == spec_start_cmd(w@),
{
    match find_char(w, '/') {
        Some(i) => {
            proof {
                lemma_find_bounds(w@, seq!['/'], 0);
            }
            let a = string_from_chars(&subvec(w, 0, i));
            let b = string_from_chars(&subvec(w, i + 1, w.len()));
            FlowCmd::Start(a, Some(b))
        },
        None => FlowCmd::Start(string_from_chars(w), None),
    }
}

/// The trimmed space-separated words of a line.
fn words_of(t: &Vec<char>) -> (r: Vec<Vec<char>>)
    ensures
        r@.map_values(|v: Vec<char>| v@) == split(t@, seq![' ']).map_values(|w: Seq<char>| trim(w)),
{
    let pieces = split_chars(t, &pattern1(' '));
    let ghost sp = split(t@, seq![' ']);
    let mut out: Vec<Vec<char>> = Vec::new();
    let mut i: usize = 0;
    while i < pieces.len()
        invariant
            i <= pieces.len(),
            pieces@.map_values(|v: Vec<char>| v@) == sp,
            out@.map_values(|v: Vec<char>| v@) == sp.subrange(0, i as int).map_values(
                |w: Seq<char>| trim(w),
            ),
        decreases pieces.len() - i,
    {
        let w = trim_chars(&pieces[i]);
        let ghost before = out@.map_values(|v: Vec<char>| v@);
        out.push(w);
        assert(pieces@.map_values(|v: Vec<char>| v@)[i as int] == pieces@[i as int]@);
        assert(out@.map_values(|v: Vec<char>| v@) =~= before.push(w@));
        assert(out@.map_values(|v: Vec<char>| v@) =~= sp.subrange(0, i + 1).map_values(
            |w: Seq<char>| trim(w),
        ));
        i = i + 1;
    }
    assert(sp.subrange(0, i as int) =~= sp);
    out
}

/// The commands of a line of words.
fn parse_words(ws: &Vec<Vec<char>>, d: Dialect) -> (r: LineRead)
    ensures
        cmd_agrees(r, spec_parse_words(ws@.map_values(|v: Vec<char>| v@), d)),
{
    let ghost wv = ws@.map_values(|v: Vec<char>| v@);
    if ws.len() == 0 || ws[0].len() == 0 {
        return LineRead::Rejected(ParseFlowKind::EmptyCommand);
    }
    assert(wv[0] == ws@[0]@);
    let is_stop = chars_eq_str(&ws[0], "stop");
    let is_start = chars_eq_str(&ws[0], "start");
    if !is_stop && !is_start {
        return LineRead::Rejected(ParseFlowKind::InvalidCommand);
    }
    if is_stop && ws.len() == 1 {
        return LineRead::Cmds(one_cmd(FlowCmd::StopSensors));
    }
    let mut out: Vec<FlowCmd> = Vec::new();
    let mut i: usize = 1;
    while i < ws.len()
        invariant
            1 <= i <= ws.len(),
            wv == ws@.map_values(|v: Vec<char>| v@),
            is_stop ==> cmds_view(out@) == wv.subrange(1, i as int).map_values(
                |w: Seq<char>| spec_stop_cmd(w),
            ),
            !is_stop ==> cmds_view(out@) == wv.subrange(1, i as int).map_values(
                |w: Seq<char>| spec_start_word(w, d),
            ),
        decreases ws.len() - i,
    {
        assert(wv[i as int] == ws@[i as int]@);
        let c = if is_stop {
            FlowCmd::Stop(string_from_chars(&ws[i]))
        } else {
            match d {
                Dialect::WebPlain => FlowCmd::Start(string_from_chars(&ws[i]), None),
                _ => start_cmd(&ws[i]),
            }
        };
        let ghost before = cmds_view(out@);
        out.push(c);
        assert(cmds_view(out@) =~= before.push(c@));
        if is_stop {
            assert(wv.subrange(1, i + 1).map_values(|w: Seq<char>| spec_stop_cmd(w)) =~= wv.subrange(
                1,
                i as int,
            ).map_values(|w: Seq<char>| spec_stop_cmd(w)).push(spec_stop_cmd(wv[i as int])));
        } else {
            assert(wv.subrange(1, i + 1).map_values(|w: Seq<char>| spec_start_word(w, d)) =~= wv.subrange(
                1,
                i as int,
            ).map_values(|w: Seq<char>| spec_start_word(w, d)).push(spec_start_word(wv[i as int], d)));
        }
        i = i + 1;
    }
    assert(wv.subrange(1, i as int) =~= wv.drop_first());
    LineRead::Cmds(out)
}

/// The command of a prompt line whose prompt lies between the quotes at `q1` and `q2`.
fn parse_prompt_body(t: &Vec<char>, q1: usize, q2: usize) -> (r: LineRead)
    requires
        q1 < q2 < t.len(),
    ensures
        cmd_agrees(r, spec_prompt_body(t@, q1 as int, q2 as int)),
{
    let s = trim_chars(&subvec(t, q1 + 1, q2));
    let range = trim_chars(&subvec(t, q2 + 1, t.len()));
    if range.len() == 0 {
        return LineRead::Cmds(one_cmd(FlowCmd::str(string_from_chars(&s))));
    }
    if !(range[0] == '(' && range[range.len() - 1] == ')') {
        return LineRead::Rejected(ParseFlowKind::RangeNotInParentheses);
    }
    let d = match find_chars(&range, &pattern2('.', '.')) {
        None => {
            return LineRead::Rejected(ParseFlowKind::NotEnoughDots);
        },
        Some(d) => d,
    };
    proof {
        lemma_find_bounds(range@, seq!['.', '.'], 0);
        assert(range@.subrange(d as int, d + 2)[0] == '.');
        assert(range@.subrange(d as int, d + 2)[1] == '.');
    }
    let low = match parse_i32(&subvec(&range, 1, d)) {
        None => {
            return LineRead::Rejected(ParseFlowKind::BadStartOfRange);
        },
        Some(v) => v,
    };
    let high = match parse_i32(&subvec(&range, d + 2, range.len() - 1)) {
        None => {
            return LineRead::Rejected(ParseFlowKind::BadEndOfRange);
        },
        Some(v) => v,
    };
    LineRead::Cmds(one_cmd(FlowCmd::integer(string_from_chars(&s), (low, high))))
}

/// The model of a prompt line in a dialect.
pub open spec fn spec_dialect_prompt(t: Seq<char>, d: Dialect) -> CmdParse {
    match d {
        Dialect::Backend => spec_parse_prompt(t),
        _ => spec_parse_web_prompt(t),
    }
}

/// The command of a prompt line.
fn parse_prompt(t: &Vec<char>, d: Dialect) -> (r: LineRead)
    ensures
        cmd_agrees(r, spec_dialect_prompt(t@, d)),
{
    let web = match d {
        Dialect::Backend => false,
        _ => true,
    };
    if web {
        let bare = replace_chars(t, &pattern2('\\', '"'), &Vec::new());
        let n = count_chars(&bare, '"');
        if n == 1 {
            return LineRead::Rejected(ParseFlowKind::UnterminatedString);
        }
        if n > 2 {
            return LineRead::Rejected(ParseFlowKind::TooManyStrings);
        }
    }
    let q1 = match find_char(t, '"') {
        None => {
            return if web {
                LineRead::Unreadable
            } else {
                LineRead::Rejected(ParseFlowKind::ExpectedQuotedString)
            };
        },
        Some(q) => q,
    };
    let q2 = match rfind_char_chars(t, '"') {
        None => {
            return if web {
                LineRead::Unreadable
            } else {
                LineRead::Rejected(ParseFlowKind::UnterminatedString)
            };
        },
        Some(q) => q,
    };
    proof {
        lemma_find_bounds(t@, seq!['"'], 0);
        lemma_rfind_bounds(t@, '"');
    }
    if q2 <= q1 {
        return LineRead::Unreadable;
    }
    parse_prompt_body(t, q1, q2)
}

/// The commands of one trimmed command line.
fn parse_command(t: &Vec<char>, d: Dialect) -> (r: LineRead)
    ensures
        cmd_agrees(r, spec_parse_command(t@, d)),
{
    if t.len() > 0 && t[0] == ':' {
        let rest = trim_chars(&subvec(t, 1, t.len()));
        assert(t@.subrange(1, t@.len() as int) =~= t@.drop_first());
        LineRead::Cmds(one_cmd(FlowCmd::Send(string_from_chars(&rest))))
    } else if t.len() > 0 && t[0] == '"' {
        if t.len() >= 2 && (t[t.len() - 1] as u32) < 128 {
            let m = subvec(t, 1, t.len() - 1);
            LineRead::Cmds(one_cmd(FlowCmd::Message(string_from_chars(&m))))
        } else {
            LineRead::Unreadable
        }
    } else if t.len() > 0 && t[0] == '>' {
        parse_prompt(t, d)
    } else {
        parse_words(&words_of(t), d)
    }
}


/// Whether an executable reading of a header agrees with its model.
pub open spec fn header_agrees<T, U>(
    r: Result<(String, T), ParseFlowKind>,
    m: Result<(Seq<char>, U), ParseFlowKind>,
    f: spec_fn(T) -> U,
) -> bool {
    match m {
        Ok((n, x)) => r matches Ok((s, y)) && s@ == n && f(y) == x,
        Err(k) => r matches Err(e) && e == k,
    }
}

/// The trigger of a state header.
fn parse_trigger(t: &Vec<char>) -> (r: Option<ParkState>)
    ensures
        r == spec_trigger(t@),
{
    if t.len() == 0 {
        Some(ParkState::AllParked)
    } else if chars_eq_str(t, "BioTac") {
        Some(ParkState::BioTac)
    } else if chars_eq_str(t, "OptoForce") {
        Some(ParkState::OptoForce)
    } else if chars_eq_str(t, "Stick") {
        Some(ParkState::Stick)
    } else {
        None
    }
}

/// Reads a state header line.
fn parse_state_header(l: &Vec<char>) -> (r: Result<(String, Option<ParkState>), ParseFlowKind>)
    ensures
        header_agrees(r, spec_state_header(l@), |p: Option<ParkState>| p),
{
    let parts = split_chars(l, &pattern2('=', '>'));
    let ghost pv = parts@.map_values(|v: Vec<char>| v@);
    proof {
        lemma_split_nonempty(l@, seq!['=', '>']);
    }
    if parts.len() > 2 {
        return Err(ParseFlowKind::TooManyArrows);
    }
    assert(pv[0] == parts@[0]@);
    if !(parts[0].len() > 0 && parts[0][0] == '-') {
        if parts[0].len() > 0 && parts[0][0] == ' ' {
            return Err(ParseFlowKind::CommandOutsideOfState);
        } else {
            return Err(ParseFlowKind::UnindentedLine);
        }
    }
    let after_dash = subvec(&parts[0], 1, parts[0].len());
    assert(after_dash@ =~= pv[0].drop_first());
    if parts.len() == 1 {
        let name = trim_chars(&after_dash);
        return Ok((string_from_chars(&name), None));
    }
    assert(pv[1] == parts@[1]@);
    match parse_trigger(&trim_chars(&after_dash)) {
        Some(p) => {
            let name = trim_chars(&parts[1]);
            Ok((string_from_chars(&name), Some(p)))
        },
        None => Err(ParseFlowKind::BadTrigger),
    }
}

/// `o` with `acc` in front of the states it holds.
pub open spec fn opt_prepend(acc: Seq<ParkState>, o: Option<Seq<ParkState>>) -> Option<Seq<ParkState>> {
    match o {
        Some(r) => Some(acc + r),
        None => None,
    }
}

/// Reads a list of parking-state names.
fn parse_park_names(ws: &Vec<Vec<char>>) -> (r: Option<Vec<ParkState>>)
    ensures
        match spec_park_names(ws@.map_values(|v: Vec<char>| v@)) {
            Some(ps) => r matches Some(v) && v@ == ps,
            None => r is None,
        },
{
    let ghost wv = ws@.map_values(|v: Vec<char>| v@);
    let mut out: Vec<ParkState> = Vec::new();
    let mut i: usize = 0;
    assert(wv.subrange(0, wv.len() as int) =~= wv);
    while i < ws.len()
        invariant
            i <= ws.len(),
            wv == ws@.map_values(|v: Vec<char>| v@),
            spec_park_names(wv) == opt_prepend(out@, spec_park_names(wv.subrange(i as int, wv.len() as int))),
        decreases ws.len() - i,
    {
        let ghost rest = wv.subrange(i as int, wv.len() as int);
        assert(rest[0] == ws@[i as int]@);
        assert(rest.drop_first() =~= wv.subrange(i + 1, wv.len() as int));
        match ParkState::from_name(&ws[i]) {
            Some(p) => {
                let ghost before = out@;
                out.push(p);
                proof {
                    match spec_park_names(wv.subrange(i + 1, wv.len() as int)) {
                        Some(r) => {
                            assert(before + (seq![p] + r) =~= out@ + r);
                        },
                        None => {},
                    }
                }
            },
            None => {
                return None;
            },
        }
        i = i + 1;
    }
    assert(out@ + seq![] =~= out@);
    Some(out)
}

/// Reads the flow header line.
fn parse_flow_header(l: &Vec<char>) -> (r: Result<(String, Vec<ParkState>), ParseFlowKind>)
    ensures
        header_agrees(r, spec_flow_header(l@), |v: Vec<ParkState>| v@),
{
    let parts = split_chars(l, &pattern1(':'));
    let ghost pv = parts@.map_values(|v: Vec<char>| v@);
    proof {
        lemma_split_nonempty(l@, seq![':']);
    }
    assert(pv[0] == parts@[0]@);
    if parts.len() == 1 {
        let name = trim_chars(&parts[0]);
        return Ok((string_from_chars(&name), Vec::new()));
    }
    if parts.len() != 2 {
        return Err(ParseFlowKind::BadHeader);
    }
    assert(pv[1] == parts@[1]@);
    let effs = trim_chars(&parts[1]);
    let pieces = split_chars(&effs, &pattern1(','));
    let ghost sp = split(effs@, seq![',']);
    let mut words: Vec<Vec<char>> = Vec::new();
    let mut i: usize = 0;
    while i < pieces.len()
        invariant
            i <= pieces.len(),
            pieces@.map_values(|v: Vec<char>| v@) == sp,
            words@.map_values(|v: Vec<char>| v@) == sp.subrange(0, i as int).map_values(
                |w: Seq<char>| trim(w),
            ),
        decreases pieces.len() - i,
    {
        let w = trim_chars(&pieces[i]);
        let ghost before = words@.map_values(|v: Vec<char>| v@);
        words.push(w);
        assert(pieces@.map_values(|v: Vec<char>| v@)[i as int] == pieces@[i as int]@);
        assert(words@.map_values(|v: Vec<char>| v@) =~= before.push(w@));
        assert(words@.map_values(|v: Vec<char>| v@) =~= sp.subrange(0, i + 1).map_values(
            |w: Seq<char>| trim(w),
        ));
        i = i + 1;
    }
    assert(sp.subrange(0, i as int) =~= sp);
    match parse_park_names(&words) {
        Some(es) => {
            let name = trim_chars(&parts[0]);
            Ok((string_from_chars(&name), es))
        },
        None => Err(ParseFlowKind::InvalidEndEffector),
    }
}


/// `p` with `acc` in front of the commands it holds.
pub open spec fn script_prepend(acc: Seq<CmdView>, p: Parsed<(Seq<CmdView>, int)>) -> Parsed<(Seq<CmdView>, int)> {
    match p {
        Parsed::Done((r, e)) => Parsed::Done((acc + r, e)),
        Parsed::Fails(l, k) => Parsed::Fails(l, k),
        Parsed::Panics => Parsed::Panics,
    }
}

/// `p` with `acc` in front of the states it holds.
pub open spec fn states_prepend(acc: Seq<StateView>, p: Parsed<Seq<StateView>>) -> Parsed<Seq<StateView>> {
    match p {
        Parsed::Done(r) => Parsed::Done(acc + r),
        Parsed::Fails(l, k) => Parsed::Fails(l, k),
        Parsed::Panics => Parsed::Panics,
    }
}

/// The models of a list of lines.
pub open spec fn lines_view(ls: Seq<Vec<char>>) -> Seq<Seq<char>> {
    ls.map_values(|v: Vec<char>| v@)
}

/// Whether an executable reading agrees with its model, for values related by `f`.
pub open spec fn reading_agrees<T, U>(r: Reading<T>, p: Parsed<U>, f: spec_fn(T) -> U) -> bool {
    match p {
        Parsed::Done(x) => r matches Reading::Read(v) && f(v) == x,
        Parsed::Fails(l, k) => r matches Reading::Rejected(n, kd) && n == l && kd == k,
        Parsed::Panics => r is Unreadable,
    }
}

/// Reads the command lines from line `start` on.
fn read_script(ls: &Vec<Vec<char>>, start: usize, h: usize, d: Dialect) -> (r: Reading<(Vec<FlowCmd>, usize)>)
    requires
        h < start <= ls.len(),
    ensures
        reading_agrees(
            r,
            spec_script(lines_view(ls@), start as int, h as int, d),
            |x: (Vec<FlowCmd>, usize)| (cmds_view(x.0@), x.1 as int),
        ),
{
    let ghost lv = lines_view(ls@);
    let mut cmds: Vec<FlowCmd> = Vec::new();
    let mut j = start;
    assert(cmds_view(cmds@) =~= seq![]);
    assert(script_prepend(seq![], spec_script(lv, start as int, h as int, d)) =~~= spec_script(lv, start as int, h as int, d)) by {
        match spec_script(lv, start as int, h as int, d) {
            Parsed::Done((c, e)) => { assert(seq![] + c =~= c); },
            _ => {},
        }
    }
    while j < ls.len() && ls[j].len() > 0 && ls[j][0] == ' '
        invariant
            h < start <= j <= ls.len(),
            lv == lines_view(ls@),
            spec_script(lv, start as int, h as int, d) == script_prepend(cmds_view(cmds@), spec_script(lv, j as int, h as int, d)),
        decreases ls.len() - j,
    {
        assert(lv[j as int] == ls@[j as int]@);
        let t = trim_chars(&ls[j]);
        match parse_command(&t, d) {
            LineRead::Cmds(c) => {
                let ghost before = cmds_view(cmds@);
                let mut c = c;
                let ghost cv = cmds_view(c@);
                cmds.append(&mut c);
                assert(cmds_view(cmds@) =~= before + cv);
                proof {
                    match spec_script(lv, j + 1, h as int, d) {
                        Parsed::Done((rest, e)) => {
                            assert(before + (cv + rest) =~= (before + cv) + rest);
                        },
                        _ => {},
                    }
                }
            },
            LineRead::Rejected(kind) => {
                return Reading::Rejected(j - h, kind);
            },
            LineRead::Unreadable => {
                return Reading::Unreadable;
            },
        }
        j = j + 1;
    }
    Reading::Read((cmds, j))
}


/// Freshly read commands as script entries (not yet run).
fn entries_of(cmds: Vec<FlowCmd>) -> (r: Vec<(FlowCmd, Option<Stamp>)>)
    ensures
        r@.map_values(|e: (FlowCmd, Option<Stamp>)| entry_view(e)) == unstamped(cmds_view(cmds@)),
{
    let ghost cv = cmds_view(cmds@);
    let mut cmds = cmds;
    let mut out: Vec<(FlowCmd, Option<Stamp>)> = Vec::new();
    assert(out@.map_values(|e: (FlowCmd, Option<Stamp>)| entry_view(e)) + unstamped(cmds_view(cmds@)) =~= unstamped(cv));
    while cmds.len() > 0
        invariant
            out@.map_values(|e: (FlowCmd, Option<Stamp>)| entry_view(e)) + unstamped(cmds_view(cmds@)) == unstamped(cv),
        decreases cmds.len(),
    {
        let ghost before_out = out@.map_values(|e: (FlowCmd, Option<Stamp>)| entry_view(e));
        let ghost before_cmds = cmds_view(cmds@);
        let c = cmds.remove(0);
        assert(c@ == before_cmds[0]);
        assert(cmds_view(cmds@) =~= before_cmds.drop_first());
        out.push((c, None));
        assert(out@.map_values(|e: (FlowCmd, Option<Stamp>)| entry_view(e)) =~= before_out.push((c@, None)));
        assert(unstamped(before_cmds) =~= seq![(c@, None::<Stamp>)] + unstamped(cmds_view(cmds@)));
        assert(before_out.push((c@, None)) + unstamped(cmds_view(cmds@)) =~= before_out + unstamped(before_cmds));
    }
    assert(out@.map_values(|e: (FlowCmd, Option<Stamp>)| entry_view(e)) + unstamped(cmds_view(cmds@)) =~= out@.map_values(|e: (FlowCmd, Option<Stamp>)| entry_view(e)));
    out
}

/// Reads the states from line `start` on.
fn read_states(ls: &Vec<Vec<char>>, start: usize, h: usize, d: Dialect) -> (r: Reading<Vec<FlowState>>)
    requires
        h < start <= ls.len(),
    ensures
        reading_agrees(
            r,
            spec_states(lines_view(ls@), start as int, h as int, d),
            |v: Vec<FlowState>| v@.map_values(|s: FlowState| s@),
        ),
{
    let ghost lv = lines_view(ls@);
    let mut states: Vec<FlowState> = Vec::new();
    let mut k = start;
    assert(states_prepend(seq![], spec_states(lv, start as int, h as int, d)) =~~= spec_states(lv, start as int, h as int, d)) by {
        match spec_states(lv, start as int, h as int, d) {
            Parsed::Done(st) => { assert(seq![] + st =~= st); },
            _ => {},
        }
    }
    assert(states@.map_values(|s: FlowState| s@) =~= seq![]);
    while k < ls.len()
        invariant
            h < start <= k <= ls.len(),
            lv == lines_view(ls@),
            spec_states(lv, start as int, h as int, d) == states_prepend(states@.map_values(|s: FlowState| s@), spec_states(lv, k as int, h as int, d)),
        decreases ls.len() - k,
    {
        assert(lv[k as int] == ls@[k as int]@);
        if ls[k].len() == 0 {
            k = k + 1;
        } else {
            let (name, park) = match parse_state_header(&ls[k]) {
                Ok(x) => x,
                Err(kind) => {
                    return Reading::Rejected(k - h, kind);
                },
            };
            proof {
                lemma_script_end(lv, k + 1, h as int, d);
            }
            let (cmds, j) = match read_script(ls, k + 1, h, d) {
                Reading::Read(x) => x,
                Reading::Rejected(n, kind) => {
                    return Reading::Rejected(n, kind);
                },
                Reading::Unreadable => {
                    return Reading::Unreadable;
                },
            };
            let ghost cv = cmds_view(cmds@);
            let st = FlowState::new(name, park, entries_of(cmds));
            let ghost before = states@.map_values(|s: FlowState| s@);
            states.push(st);
            assert(states@.map_values(|s: FlowState| s@) =~= before.push(st@));
            proof {
                match spec_states(lv, j as int, h as int, d) {
                    Parsed::Done(rest) => {
                        assert(before + (seq![st@] + rest) =~= before.push(st@) + rest);
                    },
                    _ => {},
                }
            }
            k = j;
        }
    }
    assert(states@.map_values(|s: FlowState| s@) + seq![] =~= states@.map_values(|s: FlowState| s@));
    Reading::Read(states)
}


/// The models of the lines of a file.
pub open spec fn text_lines(lines: Seq<String>) -> Seq<Seq<char>> {
    lines.map_values(|l: String| l@)
}

/// The lines of a file with trailing whitespace removed.
fn trim_lines(lines: &Vec<String>) -> (r: Vec<Vec<char>>)
    ensures
        lines_view(r@) == trimmed_lines(text_lines(lines@)),
{
    let ghost tv = text_lines(lines@);
    let mut out: Vec<Vec<char>> = Vec::new();
    let mut i: usize = 0;
    while i < lines.len()
        invariant
            i <= lines.len(),
            tv == text_lines(lines@),
            lines_view(out@) == trimmed_lines(tv.subrange(0, i as int)),
        decreases lines.len() - i,
    {
        let t = crate::text::trim_end_chars(&crate::text::chars_of(lines[i].as_str()));
        let ghost before = lines_view(out@);
        out.push(t);
        assert(tv[i as int] == lines@[i as int]@);
        assert(lines_view(out@) =~= before.push(t@));
        assert(trimmed_lines(tv.subrange(0, i + 1)) =~= trimmed_lines(tv.subrange(0, i as int)).push(trim_end(tv[i as int])));
        i = i + 1;
    }
    assert(tv.subrange(0, i as int) =~= tv);
    out
}

/// Reads the header line of a flow file in a dialect.
fn parse_header(l: &Vec<char>, d: Dialect) -> (r: Result<(String, Vec<ParkState>), ParseFlowKind>)
    ensures
        header_agrees(r, spec_header(l@, d), |v: Vec<ParkState>| v@),
{
    match d {
        Dialect::Backend => parse_flow_header(l),
        _ => Ok((string_from_chars(l), Vec::new())),
    }
}

/// Reads a flow from the lines of its file, in either dialect; `shortname` is the file's stem.
/// The reading tells apart a file with a syntax error from one holding a line on which the
/// reader panics.
pub fn read_flow(shortname: String, lines: &Vec<String>, d: Dialect) -> (r: Reading<Flow>)
    ensures
        reading_agrees(r, spec_read_flow(shortname@, text_lines(lines@), d), |f: Flow| f@),
{
    let ls = trim_lines(lines);
    let ghost lv = lines_view(ls@);
    let mut h: usize = 0;
    while h < ls.len() && ls[h].len() == 0
        invariant
            h <= ls.len(),
            lv == lines_view(ls@),
            first_nonempty(lv, 0) == first_nonempty(lv, h as int),
        decreases ls.len() - h,
    {
        assert(lv[h as int] == ls@[h as int]@);
        h = h + 1;
    }
    if h == ls.len() {
        return Reading::Rejected(0, ParseFlowKind::EmptyFile);
    }
    assert(lv[h as int] == ls@[h as int]@);
    let (name, endeffs) = match parse_header(&ls[h], d) {
        Ok(x) => x,
        Err(kind) => {
            return Reading::Rejected(0, kind);
        },
    };
    let states = match read_states(&ls, h + 1, h, d) {
        Reading::Read(st) => st,
        Reading::Rejected(n, kind) => {
            return Reading::Rejected(n, kind);
        },
        Reading::Unreadable => {
            return Reading::Unreadable;
        },
    };
    Reading::Read(Flow::new(name, shortname, endeffs, states))
}

impl Flow {
    /// Reads a flow from the lines of its file, as the back end reads them; `shortname` is the
    /// file's stem.
    ///
    /// The file must not hold a line on which the reader would panic (see `read_flow`, which
    /// tells such a file apart).
    pub fn parse(shortname: String, lines: &Vec<String>) -> (r: Result<Flow, FlowError>)
        requires
            !(spec_parse_flow(shortname@, text_lines(lines@)) is Panics),
        ensures
            match spec_parse_flow(shortname@, text_lines(lines@)) {
                Parsed::Done(f) => r matches Ok(flow) && flow@ == f,
                Parsed::Fails(l, k) => r matches Err(FlowError::ParseFlow(n, kd)) && n == l && kd == k,
                Parsed::Panics => false,
            },
    {
        match read_flow(shortname, lines, Dialect::Backend) {
            Reading::Read(f) => Ok(f),
            Reading::Rejected(n, kind) => Err(FlowError::ParseFlow(n, kind)),
            Reading::Unreadable => Err(FlowError::ParseFlow(0, ParseFlowKind::IoError)),
        }
    }
}

} // verus!
