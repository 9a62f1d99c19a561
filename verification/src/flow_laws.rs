//! Properties that relate reading, running and resetting flows.
use vstd::prelude::*;
use crate::flow::{CmdView, StateView, cmd_cleared, fresh_state};
use crate::flow_parse::{
    Parsed, CmdParse, spec_parse_command, spec_script,
    spec_states, spec_read_flow, Dialect, unstamped, spec_stop_cmd, is_command_line,
    lemma_script_end, trimmed_lines, spec_start_word,
};
use crate::flow_run::{finalized_state, first_undone, spec_next_step, FlowStep, last_done, settled, spec_validate_int, spec_validate_str,
    spec_next_episode};
use crate::park::ParkState;
use crate::text::{spec_parse_u64, trim, int_text, spec_parse_i32, lemma_int_text_parses, split, lemma_split_nonempty};

verus! {

/// Whether a command holds no answer.
pub open spec fn unanswered(c: CmdView) -> bool {
    cmd_cleared(c) == c
}

/// Whether every command of a list holds no answer.
pub open spec fn all_unanswered(c: Seq<CmdView>) -> bool {
    forall|i: int| 0 <= i < c.len() ==> unanswered(#[trigger] c[i])
}

/// The commands read from a line hold no answers.
proof fn lemma_command_unanswered(t: Seq<char>, d: Dialect)
    ensures
        spec_parse_command(t, d) matches CmdParse::Cmds(c) ==> all_unanswered(c),
{
    if let CmdParse::Cmds(c) = spec_parse_command(t, d) {
        assert forall|i: int| 0 <= i < c.len() implies unanswered(#[trigger] c[i]) by {
            let ws = crate::text::split(t, seq![' ']).map_values(|w: Seq<char>| trim(w));
            if t.len() > 0 && (t[0] == ':' || t[0] == '"' || t[0] == '>') {
            } else if ws.len() == 0 || ws[0].len() == 0 {
            } else if ws[0] == "stop"@ {
                if ws.len() > 1 {
                    assert(c[i] == spec_stop_cmd(ws.drop_first()[i]));
                }
            } else if ws[0] == "start"@ {
                assert(c[i] == crate::flow_parse::spec_start_word(ws.drop_first()[i], d));
                let w = ws.drop_first()[i];
                match crate::text::find(w, seq!['/']) {
                    Some(k) => {},
                    None => {},
                }
            }
        }
    }
}

/// The commands read from a script hold no answers.
proof fn lemma_script_unanswered(ls: Seq<Seq<char>>, j: int, h: int, d: Dialect)
    ensures
        spec_script(ls, j, h, d) matches Parsed::Done((c, _)) ==> all_unanswered(c),
    decreases ls.len() - j,
{
    if is_command_line(ls, j) {
        lemma_command_unanswered(trim(ls[j]), d);
        lemma_script_unanswered(ls, j + 1, h, d);
        if let CmdParse::Cmds(c) = spec_parse_command(trim(ls[j]), d) {
            if let Parsed::Done((rest, e)) = spec_script(ls, j + 1, h, d) {
                assert forall|i: int| 0 <= i < (c + rest).len() implies unanswered(#[trigger] (c + rest)[i]) by {
                    if i < c.len() {
                        assert((c + rest)[i] == c[i]);
                    } else {
                        assert((c + rest)[i] == rest[i - c.len()]);
                    }
                }
            }
        }
    }
}

/// A state read from a file with unanswered commands is unchanged by forgetting a run.
proof fn lemma_fresh_state_settled(name: Seq<char>, park: Option<ParkState>, c: Seq<CmdView>)
    requires
        all_unanswered(c),
    ensures
        finalized_state(fresh_state(name, park, unstamped(c))) == fresh_state(name, park, unstamped(c)),
{
    let s = fresh_state(name, park, unstamped(c));
    assert(finalized_state(s).script =~= s.script) by {
        assert forall|i: int| 0 <= i < s.script.len() implies #[trigger] finalized_state(s).script[i] == s.script[i] by {
            assert(unanswered(c[i]));
        }
    }
}

/// The states read from a file are unchanged by forgetting a run.
proof fn lemma_states_settled(ls: Seq<Seq<char>>, k: int, h: int, d: Dialect)
    ensures
        spec_states(ls, k, h, d) matches Parsed::Done(st) ==> st.map_values(|s: StateView| finalized_state(s)) == st,
    decreases ls.len() - k,
{
    if k < 0 || k >= ls.len() {
        if let Parsed::Done(st) = spec_states(ls, k, h, d) {
            assert(st.map_values(|s: StateView| finalized_state(s)) =~= st);
        }
    } else if ls[k].len() == 0 {
        lemma_states_settled(ls, k + 1, h, d);
    } else {
        lemma_script_end(ls, k + 1, h, d);
        lemma_script_unanswered(ls, k + 1, h, d);
        if let Parsed::Done(st) = spec_states(ls, k, h, d) {
            if let Ok((name, park)) = crate::flow_parse::spec_state_header(ls[k]) {
                if let Parsed::Done((cmds, j)) = spec_script(ls, k + 1, h, d) {
                    lemma_states_settled(ls, j, h, d);
                    lemma_fresh_state_settled(name, park, cmds);
                    if let Parsed::Done(rest) = spec_states(ls, j, h, d) {
                        let first = fresh_state(name, park, unstamped(cmds));
                        assert(st == seq![first] + rest);
                        let fst = st.map_values(|s: StateView| finalized_state(s));
                        let frest = rest.map_values(|s: StateView| finalized_state(s));
                        assert(fst =~= st) by {
                            assert forall|i: int| 0 <= i < st.len() implies #[trigger] fst[i] == st[i] by {
                                if i > 0 {
                                    assert(st[i] == rest[i - 1]);
                                    assert(frest[i - 1] == rest[i - 1]);
                                }
                            }
                        }
                    }
                }
            }
        }
    }
}

/// A flow as read from its file (in either dialect) holds nothing that a run records: ending a
/// run (which forgets every state's answers, times and completion) brings its states back to
/// exactly how they were read.
pub proof fn lemma_parsed_flow_is_settled(shortname: Seq<char>, lines: Seq<Seq<char>>, d: Dialect)
    ensures
        spec_read_flow(shortname, lines, d) matches Parsed::Done(f) ==> f.states.map_values(
            |s: StateView| finalized_state(s),
        ) == f.states && !f.active && !f.almostdone,
{
    let ls = trimmed_lines(lines);
    match crate::flow_parse::first_nonempty(ls, 0) {
        Some(h) => {
            lemma_states_settled(ls, h + 1, h, d);
        },
        None => {},
    }
}

/// Forgetting a run twice is the same as forgetting it once.
pub proof fn lemma_finalize_idempotent(s: StateView)
    ensures
        finalized_state(finalized_state(s)) == finalized_state(s),
{
    let f = finalized_state(s);
    assert(finalized_state(f).script =~= f.script);
}

/// The state that the next step executes is the first one that is not done.
pub proof fn lemma_next_step_first_undone(f: crate::flow::FlowView, park: ParkState, i: usize)
    requires
        spec_next_step(f, park) == FlowStep::Execute(i),
        f.states.len() <= usize::MAX,
    ensures
        i < f.states.len(),
        !f.states[i as int].done,
        forall|j: int| 0 <= j < i ==> f.states[j].done,
        f.states[i as int].park is None || f.states[i as int].park == Some(park),
{
    lemma_first_undone(f.states, 0);
}

/// `first_undone` finds a state that is not done, with every earlier one done.
proof fn lemma_first_undone(states: Seq<StateView>, k: int)
    requires
        0 <= k,
    ensures
        first_undone(states, k) matches Some(i) ==> k <= i < states.len() && !states[i].done && forall|j: int| k <= j < i ==> states[j].done,
        first_undone(states, k) is None ==> forall|j: int| k <= j < states.len() ==> states[j].done,
    decreases states.len() - k,
{
    if k < states.len() && states[k].done {
        lemma_first_undone(states, k + 1);
    }
}

/// When every state is done, the next step finds nothing to run.
pub proof fn lemma_all_done_no_step(f: crate::flow::FlowView, park: ParkState)
    requires
        forall|j: int| 0 <= j < f.states.len() ==> f.states[j].done,
    ensures
        spec_next_step(f, park) == FlowStep::NoApplicable,
{
    lemma_first_undone_none(f.states, 0);
}

/// `first_undone` finds nothing when every state from `k` on is done.
proof fn lemma_first_undone_none(states: Seq<StateView>, k: int)
    requires
        0 <= k,
        forall|j: int| k <= j < states.len() ==> states[j].done,
    ensures
        first_undone(states, k) is None,
    decreases states.len() - k,
{
    if k < states.len() {
        lemma_first_undone_none(states, k + 1);
    }
}

/// The flow as an abort leaves it: inactive, with every state forgetting what the run recorded
/// in it.
pub open spec fn aborted(f: crate::flow::FlowView) -> crate::flow::FlowView {
    crate::flow::FlowView {
        active: false,
        almostdone: false,
        states: f.states.map_values(|s: StateView| finalized_state(s)),
        ..f
    }
}

/// After an abort the flow starts over: its next step is its first state (when the parking lot
/// allows it), whatever had been done before.
pub proof fn lemma_abort_restarts(f: crate::flow::FlowView, park: ParkState)
    requires
        f.states.len() > 0,
    ensures
        spec_next_step(aborted(f), park) == (match f.states[0].park {
            None => FlowStep::Execute(0),
            Some(p) => if p == park { FlowStep::Execute(0) } else { FlowStep::WaitFor(p) },
        }),
{
    let g = aborted(f);
    assert(!g.states[0].done);
    assert(first_undone(g.states, 0) == Some(0int));
}

/// After an abort every state is not done and untimed, and every command of it is untimed with
/// its prompt unanswered, so that the flow can run again from the start.
pub proof fn law_abort_clears_run(f: crate::flow::FlowView)
    ensures
        aborted(f).states.len() == f.states.len(),
        forall|i: int| 0 <= i < f.states.len() ==> {
            let s = #[trigger] aborted(f).states[i];
            &&& !s.done
            &&& s.stamp is None
            &&& s.name == f.states[i].name
            &&& s.park == f.states[i].park
            &&& s.script.len() == f.states[i].script.len()
            &&& forall|j: int| 0 <= j < s.script.len() ==> {
                &&& (#[trigger] s.script[j]).1 is None
                &&& s.script[j].0 == cmd_cleared(f.states[i].script[j].0)
                &&& !(s.script[j].0 matches CmdView::Str { data: Some(_), .. })
                &&& !(s.script[j].0 matches CmdView::Int { data: Some(_), .. })
            }
        },
{
}

/// A flow ends one step after its last state is done: the settling after the step that does the
/// last state only marks it almost done and leaves it active; the settling after the next step
/// ends it, inactive, with every state and command forgotten (as `law_abort_clears_run` says of
/// an abort).
pub proof fn law_flow_finishes(f: crate::flow::FlowView)
    requires
        last_done(f),
        !f.almostdone,
    ensures
        !settled(f).0,
        settled(f).1.active == f.active,
        settled(f).1.almostdone,
        settled(f).1.states == f.states,
        settled(settled(f).1).0,
        settled(settled(f).1).1 == aborted(f),
{
}

/// The operator's answer to an integer prompt is accepted exactly when it is an integer within
/// the limits, both included: the decimal text of every integer from `low` to `high` (with
/// surrounding whitespace or not) gives that integer, and an accepted answer always lies within
/// the limits and is what the text spells.
pub proof fn law_validate_int_limits(i: i32, low: i32, high: i32, x: Seq<char>)
    ensures
        low <= i <= high ==> spec_validate_int(int_text(i as int), low, high) == Ok::<i32, Seq<char>>(i),
        !(low <= i <= high) ==> spec_validate_int(int_text(i as int), low, high) is Err,
        spec_validate_int(x, low, high) matches Ok(v) ==> low <= v <= high && spec_parse_i32(trim(x)) == Some(v),
{
    lemma_int_text_parses(i);
}

/// A command line names one command per word after its first: `stop w1 ... wn` (n >= 1) reads
/// as exactly n commands stopping the services the words name (trimmed), in order, and a bare
/// `stop` stops every sensor service; `start w1 ... wn` reads as exactly n commands, one for
/// each word, in order.
pub proof fn law_stop_start_every_word(t: Seq<char>, d: Dialect)
    requires
        !(t.len() > 0 && (t[0] == ':' || t[0] == '"' || t[0] == '>')),
    ensures
        ({
            let ws = split(t, seq![' ']);
            &&& trim(ws[0]) == "stop"@ && ws.len() > 1 ==> (spec_parse_command(t, d) matches CmdParse::Cmds(cs)
                && cs.len() == ws.len() - 1
                && forall|k: int| 0 <= k < cs.len() ==> #[trigger] cs[k] == CmdView::Stop(trim(ws[k + 1])))
            &&& trim(ws[0]) == "stop"@ && ws.len() == 1 ==> spec_parse_command(t, d) == CmdParse::Cmds(seq![CmdView::StopSensors])
            &&& trim(ws[0]) == "start"@ ==> (spec_parse_command(t, d) matches CmdParse::Cmds(cs)
                && cs.len() == ws.len() - 1
                && forall|k: int| 0 <= k < cs.len() ==> #[trigger] cs[k] == spec_start_word(trim(ws[k + 1]), d))
        }),
{
    lemma_split_nonempty(t, seq![' ']);
    reveal_strlit("stop");
    reveal_strlit("start");
    assert("start"@ != "stop"@) by {
        assert("start"@.len() != "stop"@.len());
    }
    let ws = split(t, seq![' ']);
    let tw = ws.map_values(|w: Seq<char>| trim(w));
    assert(tw[0] == trim(ws[0]));
    assert forall|k: int| 0 <= k < tw.len() - 1 implies #[trigger] tw.drop_first()[k] == trim(ws[k + 1]) by {
        assert(tw[k + 1] == trim(ws[k + 1]));
    }
}

/// The operator's answer to a string prompt is taken as it is, exactly when it is not empty.
pub proof fn law_validate_str_keeps_answer(x: Seq<char>)
    ensures
        spec_validate_str(x) is Ok <==> x.len() > 0,
        spec_validate_str(x) matches Ok(v) ==> v == x,
{
}

/// The episode numbering from `acc` on: a number past every name and at least `acc`, which is
/// `acc` or one past some name; or the first name that is not a number.
proof fn lemma_next_episode(names: Seq<Seq<char>>, acc: u64)
    requires
        forall|i: int| 0 <= i < names.len() ==> spec_parse_u64(#[trigger] names[i]) != Some(u64::MAX),
    ensures
        spec_next_episode(names, acc) matches Ok(n) ==> {
            &&& n >= acc
            &&& forall|i: int| 0 <= i < names.len() ==> (spec_parse_u64(#[trigger] names[i]) matches Some(v) && v < n)
            &&& n == acc || exists|i: int| 0 <= i < names.len() && spec_parse_u64(#[trigger] names[i]) == Some((n - 1) as u64)
        },
        spec_next_episode(names, acc) matches Err(bad) ==> exists|i: int|
            0 <= i < names.len() && names[i] == bad && #[trigger] spec_parse_u64(names[i]) is None
                && forall|j: int| 0 <= j < i ==> spec_parse_u64(#[trigger] names[j]) is Some,
    decreases names.len(),
{
    if names.len() > 0 {
        let rest = names.drop_first();
        assert forall|i: int| 0 <= i < rest.len() implies spec_parse_u64(#[trigger] rest[i]) != Some(u64::MAX) by {
            assert(rest[i] == names[i + 1]);
        }
        match spec_parse_u64(names[0]) {
            None => {},
            Some(v) => {
                let acc2: u64 = if v + 1 > acc { (v + 1) as u64 } else { acc };
                lemma_next_episode(rest, acc2);
                match spec_next_episode(rest, acc2) {
                    Ok(n) => {
                        assert forall|i: int| 0 <= i < names.len() implies (spec_parse_u64(#[trigger] names[i]) matches Some(w) && w < n) by {
                            if i > 0 {
                                assert(names[i] == rest[i - 1]);
                            }
                        }
                        if n != acc2 {
                            let i = choose|i: int| 0 <= i < rest.len() && spec_parse_u64(#[trigger] rest[i]) == Some((n - 1) as u64);
                            assert(names[i + 1] == rest[i]);
                        } else if n != acc {
                            assert(spec_parse_u64(names[0]) == Some((n - 1) as u64));
                        }
                    },
                    Err(bad) => {
                        let i = choose|i: int|
                            0 <= i < rest.len() && rest[i] == bad && #[trigger] spec_parse_u64(rest[i]) is None
                                && forall|j: int| 0 <= j < i ==> spec_parse_u64(#[trigger] rest[j]) is Some;
                        assert(names[i + 1] == rest[i]);
                        assert forall|j: int| 0 <= j < i + 1 implies spec_parse_u64(#[trigger] names[j]) is Some by {
                            if j > 0 {
                                assert(names[j] == rest[j - 1]);
                            }
                        }
                    },
                }
            },
        }
    }
}

/// A new episode gets the number one past the largest numbered episode, and 1 when there is
/// none: a number greater than every existing one, which is 1 or one more than an existing one.
/// A name that is not a number stops the numbering, and the first such name is reported.
pub proof fn law_next_episode(names: Seq<Seq<char>>)
    requires
        forall|i: int| 0 <= i < names.len() ==> spec_parse_u64(#[trigger] names[i]) != Some(u64::MAX),
    ensures
        spec_next_episode(names, 1) matches Ok(n) ==> {
            &&& n >= 1
            &&& forall|i: int| 0 <= i < names.len() ==> (spec_parse_u64(#[trigger] names[i]) matches Some(v) && v < n)
            &&& n == 1 || exists|i: int| 0 <= i < names.len() && spec_parse_u64(#[trigger] names[i]) == Some((n - 1) as u64)
        },
        spec_next_episode(names, 1) matches Err(bad) ==> exists|i: int|
            0 <= i < names.len() && names[i] == bad && #[trigger] spec_parse_u64(names[i]) is None
                && forall|j: int| 0 <= j < i ==> spec_parse_u64(#[trigger] names[j]) is Some,
{
    lemma_next_episode(names, 1);
}

/// A state's trigger names the end effector that must be out for it, by the parking state's own
/// name: every end effector's name gives that end effector, an empty trigger means all parked,
/// and nothing else (not even `Multiple` or `None`) is a trigger.
pub proof fn law_trigger_names(t: Seq<char>, p: ParkState)
    ensures
        p != ParkState::AllParked && p != ParkState::Multiple ==> crate::flow_parse::spec_trigger(crate::park::variant_name(p)) == Some(p),
        crate::flow_parse::spec_trigger(t) matches Some(q) ==> (t.len() == 0 && q == ParkState::AllParked)
            || (t == crate::park::variant_name(q) && q != ParkState::AllParked && q != ParkState::Multiple),
{
    reveal_strlit("BioTac");
    reveal_strlit("OptoForce");
    reveal_strlit("Stick");
    assert("BioTac"@.len() == 6);
    assert("OptoForce"@.len() == 9);
    assert("Stick"@.len() == 5);
    assert("Stick"@ != "BioTac"@) by {
        assert("Stick"@.len() != "BioTac"@.len());
    }
}

} // verus!
