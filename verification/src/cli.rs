//! The command-line interface: what a line that the operator types asks for, and the requests
//! that the interface makes of the supervisor.
use vstd::prelude::*;
use std::sync::mpsc::Sender;
use crate::comms::{CmdFrom, Power};
use crate::mpmc::recv_on;
use crate::channel::{new_channel, send_on};
use crate::text::{
    trim, split, spec_parse_u64, chars_of, trim_chars, split_chars, pattern1, subvec,
    string_from_chars, parse_u64, chars_eq_str, lemma_split_nonempty, find, lemma_trim_idempotent, decimal,
    lemma_decimal_digits,
};

verus! {

/// One thing that a typed line asks for.
#[derive(Debug, PartialEq, Eq)]
pub enum CliAction {
    /// Run the rest of the line in a shell.
    Shell(String),
    /// Pause for this many milliseconds.
    Sleep(u32),
    /// A `sleep` whose value is not a number of milliseconds.
    BadSleep,
    /// A `sleep` without a value.
    NoSleep,
    /// Ask the supervisor to start the service.
    Start(String),
    /// Ask the supervisor to stop the service.
    Stop(String),
    /// Show the parking state.
    Status,
    /// Ask the supervisor to shut everything down.
    Quit,
    /// Ask the supervisor to panic.
    Panic,
    /// Ask the supervisor to power the machine down.
    Power(Power),
    /// Send test data to the supervisor.
    WebSend,
    /// Not a known command.
    Unknown,
}

/// Model of a typed line's action.
pub enum CliView {
    Shell(Seq<char>),
    Sleep(u32),
    BadSleep,
    NoSleep,
    Start(Seq<char>),
    Stop(Seq<char>),
    Status,
    Quit,
    Panic,
    Power(Power),
    WebSend,
    Unknown,
}

impl View for CliAction {
    type V = CliView;

    open spec fn view(&self) -> CliView {
        match self {
            CliAction::Shell(s) => CliView::Shell(s@),
            CliAction::Sleep(ms) => CliView::Sleep(*ms),
            CliAction::BadSleep => CliView::BadSleep,
            CliAction::NoSleep => CliView::NoSleep,
            CliAction::Start(s) => CliView::Start(s@),
            CliAction::Stop(s) => CliView::Stop(s@),
            CliAction::Status => CliView::Status,
            CliAction::Quit => CliView::Quit,
            CliAction::Panic => CliView::Panic,
            CliAction::Power(p) => CliView::Power(*p),
            CliAction::WebSend => CliView::WebSend,
            CliAction::Unknown => CliView::Unknown,
        }
    }
}

/// The models of a list of actions.
pub open spec fn actions_view(v: Seq<CliAction>) -> Seq<CliView> {
    v.map_values(|a: CliAction| a@)
}

/// The integer that `s` spells, as `u32::from_str` reads it.
pub open spec fn spec_parse_u32(s: Seq<char>) -> Option<u32> {
    match spec_parse_u64(s) {
        Some(v) => if v <= u32::MAX {
            Some(v as u32)
        } else {
            None
        },
        None => None,
    }
}

/// What one `;`-separated command asks for. Its words are separated by single spaces (so two
/// spaces make an empty word); the first word is the command.
pub open spec fn spec_cli_command(c: Seq<char>) -> Seq<CliView> {
    let ws = split(trim(c), seq![' ']);
    let w = ws[0];
    if w.len() == 0 {
        seq![]
    } else if w == "sleep"@ {
        if ws.len() > 1 {
            match spec_parse_u32(ws[1]) {
                Some(ms) => seq![CliView::Sleep(ms)],
                None => seq![CliView::BadSleep],
            }
        } else {
            seq![CliView::NoSleep]
        }
    } else if w == "start"@ {
        ws.drop_first().map_values(|d: Seq<char>| CliView::Start(d))
    } else if w == "stop"@ {
        ws.drop_first().map_values(|d: Seq<char>| CliView::Stop(d))
    } else if w == "status"@ {
        seq![CliView::Status]
    } else if w == "quit"@ {
        seq![CliView::Quit]
    } else if w == "panic"@ {
        seq![CliView::Panic]
    } else if w == "reboot"@ {
        seq![CliView::Power(Power::Reboot)]
    } else if w == "poweroff"@ {
        seq![CliView::Power(Power::PowerOff)]
    } else if w == "websend"@ {
        seq![CliView::WebSend]
    } else {
        seq![CliView::Unknown]
    }
}

/// What a list of commands asks for, in order.
pub open spec fn spec_cli_commands(cs: Seq<Seq<char>>) -> Seq<CliView>
    decreases cs.len(),
{
    if cs.len() == 0 {
        seq![]
    } else {
        spec_cli_commands(cs.drop_last()) + spec_cli_command(cs.last())
    }
}

/// What a typed line asks for: once trimmed, a line starting with `!` runs the rest in a shell;
/// any other line is a list of commands separated by `;`.
pub open spec fn spec_cli_line(l: Seq<char>) -> Seq<CliView> {
    let t = trim(l);
    if t.len() > 0 && t[0] == '!' {
        seq![CliView::Shell(t.drop_first())]
    } else {
        spec_cli_commands(split(t, seq![';']))
    }
}

/// The actions of one command of a line.
fn cli_command(c: &Vec<char>) -> (r: Vec<CliAction>)
    ensures
        actions_view(r@) == spec_cli_command(c@),
{
    let t = trim_chars(c);
    let ws = split_chars(&t, &pattern1(' '));
    let ghost wv = ws@.map_values(|v: Vec<char>| v@);
    proof {
        lemma_split_nonempty(t@, seq![' ']);
    }
    assert(wv[0] == ws@[0]@);
    let mut out: Vec<CliAction> = Vec::new();
    let w = &ws[0];
    if w.len() == 0 {
        assert(actions_view(out@) =~= seq![]);
        return out;
    }
    let is_start = chars_eq_str(w, "start");
    let is_stop = chars_eq_str(w, "stop");
    proof {
        reveal_strlit("sleep");
        reveal_strlit("start");
        reveal_strlit("stop");
        assert("start"@ != "sleep"@) by {
            assert("start"@[1] != "sleep"@[1]);
        }
    }
    if is_start || is_stop {
        let mut i: usize = 1;
        while i < ws.len()
            invariant
                1 <= i <= ws.len(),
                wv == ws@.map_values(|v: Vec<char>| v@),
                is_start == (wv[0] == "start"@),
                is_stop == (wv[0] == "stop"@),
                is_start || is_stop,
                "start"@ != "sleep"@,
                is_start ==> actions_view(out@) == wv.subrange(1, i as int).map_values(|d: Seq<char>| CliView::Start(d)),
                !is_start ==> actions_view(out@) == wv.subrange(1, i as int).map_values(|d: Seq<char>| CliView::Stop(d)),
            decreases ws.len() - i,
        {
            assert(wv[i as int] == ws@[i as int]@);
            let d = string_from_chars(&ws[i]);
            let a = if is_start { CliAction::Start(d) } else { CliAction::Stop(d) };
            let ghost before = actions_view(out@);
            out.push(a);
            assert(actions_view(out@) =~= before.push(a@));
            if is_start {
                assert(wv.subrange(1, i + 1).map_values(|d: Seq<char>| CliView::Start(d)) =~= wv.subrange(1, i as int).map_values(|d: Seq<char>| CliView::Start(d)).push(CliView::Start(wv[i as int])));
            } else {
                assert(wv.subrange(1, i + 1).map_values(|d: Seq<char>| CliView::Stop(d)) =~= wv.subrange(1, i as int).map_values(|d: Seq<char>| CliView::Stop(d)).push(CliView::Stop(wv[i as int])));
            }
            i = i + 1;
        }
        assert(wv.subrange(1, i as int) =~= wv.drop_first());
        return out;
    }
    let a = if chars_eq_str(w, "sleep") {
        if ws.len() > 1 {
            assert(wv[1] == ws@[1]@);
            match parse_u64(&ws[1]) {
                Some(v) => if v <= 4294967295u64 {
                    CliAction::Sleep(v as u32)
                } else {
                    CliAction::BadSleep
                },
                None => CliAction::BadSleep,
            }
        } else {
            CliAction::NoSleep
        }
    } else if chars_eq_str(w, "status") {
        CliAction::Status
    } else if chars_eq_str(w, "quit") {
        CliAction::Quit
    } else if chars_eq_str(w, "panic") {
        CliAction::Panic
    } else if chars_eq_str(w, "reboot") {
        CliAction::Power(Power::Reboot)
    } else if chars_eq_str(w, "poweroff") {
        CliAction::Power(Power::PowerOff)
    } else if chars_eq_str(w, "websend") {
        CliAction::WebSend
    } else {
        CliAction::Unknown
    };
    out.push(a);
    assert(actions_view(out@) =~= seq![a@]);
    out
}

/// What a typed line asks for, in order.
pub fn cli_line(line: &str) -> (r: Vec<CliAction>)
    ensures
        actions_view(r@) == spec_cli_line(line@),
{
    let t = trim_chars(&chars_of(line));
    if t.len() > 0 && t[0] == '!' {
        let rest = subvec(&t, 1, t.len());
        assert(rest@ =~= t@.drop_first());
        let mut out: Vec<CliAction> = Vec::new();
        out.push(CliAction::Shell(string_from_chars(&rest)));
        assert(actions_view(out@) =~= seq![CliView::Shell(t@.drop_first())]);
        return out;
    }
    let cs = split_chars(&t, &pattern1(';'));
    let ghost cv = cs@.map_values(|v: Vec<char>| v@);
    let mut out: Vec<CliAction> = Vec::new();
    let mut i: usize = 0;
    assert(actions_view(out@) =~= spec_cli_commands(cv.subrange(0, 0)));
    while i < cs.len()
        invariant
            i <= cs.len(),
            cv == cs@.map_values(|v: Vec<char>| v@),
            actions_view(out@) == spec_cli_commands(cv.subrange(0, i as int)),
        decreases cs.len() - i,
    {
        assert(cv[i as int] == cs@[i as int]@);
        let mut more = cli_command(&cs[i]);
        let ghost before = actions_view(out@);
        let ghost mv = actions_view(more@);
        out.append(&mut more);
        assert(actions_view(out@) =~= before + mv);
        assert(cv.subrange(0, i + 1).drop_last() =~= cv.subrange(0, i as int));
        i = i + 1;
    }
    assert(cv.subrange(0, i as int) =~= cv);
    out
}

/// The request to the supervisor to start (`start` set, with no setup data) or stop a service,
/// with the sending end on which the answer comes back.
pub fn request_cmd(start: bool, service: String, reply: Sender<bool>) -> (r: CmdFrom)
    ensures
        start ==> (r matches CmdFrom::Start(s, d, t) && s@ == service@ && d is None && t == reply),
        !start ==> (r matches CmdFrom::Stop(s, t) && s@ == service@ && t == reply),
{
    if start {
        CmdFrom::Start(service, None, reply)
    } else {
        CmdFrom::Stop(service, reply)
    }
}

/// The command-line interface service: it passes on to the supervisor what the operator asks.
pub struct CLI {
    tx: Sender<CmdFrom>,
}

impl CLI {
    /// The sending end through which the interface reaches the supervisor.
    pub closed spec fn sender(&self) -> Sender<CmdFrom> {
        self.tx
    }

    /// The interface, sending to the supervisor through `tx`.
    pub fn setup(tx: Sender<CmdFrom>) -> (r: CLI)
        ensures
            r.sender() == tx,
    {
        CLI { tx: tx }
    }

    /// Sends a command to the supervisor; `false` when the supervisor is gone.
    pub fn tell(&self, cmd: CmdFrom) -> bool {
        send_on(&self.tx, cmd).0.is_ok()
    }

    /// Asks the supervisor to start (`start` set) or stop a service and waits for the answer:
    /// whether the supervisor knows the service, or `None` when the supervisor is gone. The
    /// answer is the supervisor's, so nothing is claimed of it.
    pub fn request(&self, start: bool, service: String) -> Option<bool> {
        let (reply_tx, reply_rx) = new_channel::<bool>().into_ends();
        let cmd = request_cmd(start, service, reply_tx);
        if send_on(&self.tx, cmd).0.is_err() {
            return None;
        }
        recv_on(&reply_rx)
    }
}

/// A `start` or `stop` command names one service per word after the first: its actions are
/// exactly one start (or stop) per following word, in order. For a typed line that is one
/// command (no `;`, no leading `!`), that is all the line does.
pub proof fn law_start_stop_every_word(l: Seq<char>)
    ensures
        ({
            let ws = split(trim(l), seq![' ']);
            let acts = spec_cli_command(l);
            &&& ws[0] == "stop"@ ==> acts.len() == ws.len() - 1
                && forall|k: int| 0 <= k < acts.len() ==> #[trigger] acts[k] == CliView::Stop(ws[k + 1])
            &&& ws[0] == "start"@ ==> acts.len() == ws.len() - 1
                && forall|k: int| 0 <= k < acts.len() ==> #[trigger] acts[k] == CliView::Start(ws[k + 1])
        }),
        ({
            let t = trim(l);
            !(t.len() > 0 && t[0] == '!') && find(t, seq![';']) is None ==> spec_cli_line(l) == spec_cli_command(t)
                && split(trim(t), seq![' ']) == split(t, seq![' '])
        }),
{
    lemma_split_nonempty(trim(l), seq![' ']);
    reveal_strlit("stop");
    reveal_strlit("start");
    reveal_strlit("sleep");
    assert("stop"@ != "sleep"@) by {
        assert("stop"@.len() != "sleep"@.len());
    }
    assert("start"@ != "sleep"@) by {
        assert("start"@[1] != "sleep"@[1]);
    }
    assert("start"@ != "stop"@) by {
        assert("start"@.len() != "stop"@.len());
    }
    let t = trim(l);
    lemma_trim_idempotent(l);
    if find(t, seq![';']) is None {
        assert(split(t, seq![';']) == seq![t]);
        assert(seq![t].drop_last() =~= Seq::<Seq<char>>::empty());
        assert(spec_cli_commands(Seq::<Seq<char>>::empty()) == Seq::<CliView>::empty());
        assert(spec_cli_commands(seq![t]) == spec_cli_commands(seq![t].drop_last()) + spec_cli_command(t));
        assert(spec_cli_commands(seq![t]) =~= spec_cli_command(t));
    }
}

/// A `sleep` command sleeps for the number of milliseconds its second word spells: the decimal
/// text of any `u32` gives exactly that many; a second word that is no such number is refused,
/// and a missing one is reported; nothing else comes of the command.
pub proof fn law_sleep_for_the_number(l: Seq<char>, ms: u32)
    ensures
        ({
            let ws = split(trim(l), seq![' ']);
            let acts = spec_cli_command(l);
            &&& ws[0] == "sleep"@ && ws.len() > 1 && ws[1] == decimal(ms as nat) ==> acts == seq![CliView::Sleep(ms)]
            &&& ws[0] == "sleep"@ && ws.len() > 1 && spec_parse_u32(ws[1]) is None ==> acts == seq![CliView::BadSleep]
            &&& ws[0] == "sleep"@ && ws.len() == 1 ==> acts == seq![CliView::NoSleep]
        }),
{
    lemma_split_nonempty(trim(l), seq![' ']);
    reveal_strlit("sleep");
    lemma_decimal_digits(ms as nat);
    let d = decimal(ms as nat);
    assert('0' <= d[0] <= '9');
    assert(spec_parse_u64(d) == Some(ms as u64));
}

} // verus!
