//! The decisions of running a flow: which state comes next, what undoing a command takes,
//! what the operator is asked, and how a flow is reset when it ends.
use vstd::prelude::*;
use crate::park::ParkState;
use crate::text::{
    find, replace, int_text, trim, spec_parse_i32, chars_of, find_chars, replace_chars,
    concat_chars, i32_chars, string_from_chars, trim_chars, parse_i32, spec_parse_u64, parse_u64,
};
use crate::flow::{
    CmdView, FlowCmd, FlowState, Flow, StateView, FlowView, Stamp, entry_view, cmd_cleared,
    fresh_state, EventContour,
};

verus! {

/// What undoing a command takes.
#[derive(Debug, PartialEq, Eq)]
pub enum CleanupAction {
    /// Ask the supervisor to stop the named service.
    StopService(String),
    /// Send the data to the supervisor.
    SendData(String),
}

/// Model of a cleanup action.
pub enum CleanupView {
    StopService(Seq<char>),
    SendData(Seq<char>),
}

impl View for CleanupAction {
    type V = CleanupView;

    open spec fn view(&self) -> CleanupView {
        match self {
            CleanupAction::StopService(s) => CleanupView::StopService(s@),
            CleanupAction::SendData(s) => CleanupView::SendData(s@),
        }
    }
}

/// What undoing a command takes: a started service is stopped, and data that started a disk
/// recording (containing `disk start`) is followed by the same data with `disk stop` in place
/// of every `disk start`.
pub open spec fn spec_cleanup(c: CmdView) -> Option<CleanupView> {
    match c {
        CmdView::Start(service, _) => Some(CleanupView::StopService(service)),
        CmdView::Send(s) => if find(s, "disk start"@) is Some {
            Some(CleanupView::SendData("to "@ + replace(s, "disk start"@, "disk stop"@)))
        } else {
            None
        },
        _ => None,
    }
}

/// What undoing each entry of a script takes, last entry first.
pub open spec fn spec_cleanups(script: Seq<(CmdView, Option<Stamp>)>) -> Seq<Option<CleanupView>> {
    Seq::new(script.len(), |k: int| spec_cleanup(script[script.len() - 1 - k].0))
}

/// The model of what undoing a command takes.
pub open spec fn cleanup_view(o: Option<CleanupAction>) -> Option<CleanupView> {
    match o {
        Some(a) => Some(a@),
        None => None,
    }
}

/// The operator's answer to a string prompt: anything but the empty string.
pub open spec fn spec_validate_str(x: Seq<char>) -> Result<Seq<char>, Seq<char>> {
    if x.len() == 0 {
        Err("prompt That's an empty string!"@)
    } else {
        Ok(x)
    }
}

/// The operator's answer to an integer prompt: an integer (surrounding whitespace allowed)
/// within the limits.
pub open spec fn spec_validate_int(x: Seq<char>, low: i32, high: i32) -> Result<i32, Seq<char>> {
    match spec_parse_i32(trim(x)) {
        Some(i) => if low <= i && i <= high {
            Ok(i)
        } else {
            Err("prompt Out of range!"@)
        },
        None => Err("prompt Not an integer!"@),
    }
}

/// The question that a command asks the operator, if it asks one.
pub open spec fn spec_prompt(c: CmdView) -> Option<Seq<char>> {
    match c {
        CmdView::Str { prompt, .. } => Some("prompt Please enter "@ + prompt),
        CmdView::Int { prompt, limits, .. } => Some(
            "prompt Please select "@ + prompt + " ("@ + int_text(limits.0 as int) + "-"@
                + int_text(limits.1 as int) + " scale)"@,
        ),
        _ => None,
    }
}

/// What running a command asks of the world outside the flow.
#[derive(Debug, PartialEq, Eq)]
pub enum CmdAction {
    /// Send this text to the operator's page.
    Show(String),
    /// Ask the operator this question; the answer is a non-empty string.
    AskStr(String),
    /// Ask the operator this question; the answer is an integer within the limits.
    AskInt(String, i32, i32),
    /// Ask the supervisor to start the service (with the data, if any), then wait for it.
    Start(String, Option<String>),
    /// Ask the supervisor to stop the service.
    Stop(String),
    /// Send the data to the supervisor.
    SendData(String),
    /// Ask the supervisor to stop each of these services, in order.
    StopAll(Vec<String>),
}

/// Model of a command's action.
pub enum ActionView {
    Show(Seq<char>),
    AskStr(Seq<char>),
    AskInt(Seq<char>, i32, i32),
    Start(Seq<char>, Option<Seq<char>>),
    Stop(Seq<char>),
    SendData(Seq<char>),
    StopAll(Seq<Seq<char>>),
}

impl View for CmdAction {
    type V = ActionView;

    open spec fn view(&self) -> ActionView {
        match self {
            CmdAction::Show(s) => ActionView::Show(s@),
            CmdAction::AskStr(s) => ActionView::AskStr(s@),
            CmdAction::AskInt(s, l, h) => ActionView::AskInt(s@, *l, *h),
            CmdAction::Start(s, d) => ActionView::Start(s@, crate::flow::opt_view(*d)),
            CmdAction::Stop(s) => ActionView::Stop(s@),
            CmdAction::SendData(s) => ActionView::SendData(s@),
            CmdAction::StopAll(v) => ActionView::StopAll(v@.map_values(|x: String| x@)),
        }
    }
}

/// The services that a `stop` without names stops, in order.
pub open spec fn sensor_services() -> Seq<Seq<char>> {
    seq!["bluefox"@, "structure"@, "biotac"@, "optoforce"@, "teensy"@]
}

/// What running a command asks for: a message goes to the operator's page after `msg `, a
/// prompt asks its question, data goes to the supervisor after `to `, and a bare `stop` stops
/// every sensor service.
pub open spec fn spec_run(c: CmdView) -> ActionView {
    match c {
        CmdView::Message(m) => ActionView::Show("msg "@ + m),
        CmdView::Str { prompt, .. } => ActionView::AskStr(spec_prompt(c).unwrap()),
        CmdView::Int { prompt, limits, .. } => ActionView::AskInt(spec_prompt(c).unwrap(), limits.0, limits.1),
        CmdView::Start(s, d) => ActionView::Start(s, d),
        CmdView::Stop(s) => ActionView::Stop(s),
        CmdView::Send(s) => ActionView::SendData("to "@ + s),
        CmdView::StopSensors => ActionView::StopAll(sensor_services()),
    }
}

/// A state with everything a run recorded in it forgotten.
pub open spec fn finalized_state(s: StateView) -> StateView {
    StateView {
        name: s.name,
        park: s.park,
        script: s.script.map_values(|e: (CmdView, Option<Stamp>)| (cmd_cleared(e.0), None::<Stamp>)),
        done: false,
        stamp: None,
    }
}

/// The first state at or after `k` that is not done.
pub open spec fn first_undone(states: Seq<StateView>, k: int) -> Option<int>
    decreases states.len() - k,
{
    if k < 0 || k >= states.len() {
        None
    } else if !states[k].done {
        Some(k)
    } else {
        first_undone(states, k + 1)
    }
}

/// What the next step of a flow does.
#[derive(Copy, Clone, Debug, PartialEq, Eq, Structural)]
pub enum FlowStep {
    /// Run the state at this index.
    Execute(usize),
    /// The next state needs this end effector to be out first.
    WaitFor(ParkState),
    /// Every state is done.
    NoApplicable,
}

/// The next step of a flow when the parking lot is in state `park`: the first state that is not
/// done runs if it has no trigger or its trigger is `park`.
pub open spec fn spec_next_step(f: FlowView, park: ParkState) -> FlowStep {
    match first_undone(f.states, 0) {
        None => FlowStep::NoApplicable,
        Some(i) => match f.states[i].park {
            None => FlowStep::Execute(i as usize),
            Some(p) => if p == park {
                FlowStep::Execute(i as usize)
            } else {
                FlowStep::WaitFor(p)
            },
        },
    }
}

/// Whether the last state of a flow is done.
pub open spec fn last_done(f: FlowView) -> bool {
    f.states.len() > 0 && f.states.last().done
}

/// What settling the flow after a step gives: whether it ended, and the flow afterwards (see
/// `Flow::settle`).
pub open spec fn settled(f: FlowView) -> (bool, FlowView) {
    if !last_done(f) {
        (false, f)
    } else if !f.almostdone {
        (false, FlowView { almostdone: true, ..f })
    } else {
        (true, FlowView {
            active: false,
            almostdone: false,
            states: f.states.map_values(|s: StateView| finalized_state(s)),
            ..f
        })
    }
}

/// The next episode number for a flow, given the names of the episode directories that already
/// exist: one more than the largest, and at least 1; fails with the first name that is not a
/// number.
pub open spec fn spec_next_episode(names: Seq<Seq<char>>, acc: u64) -> Result<u64, Seq<char>>
    decreases names.len(),
{
    if names.len() == 0 {
        Ok(acc)
    } else {
        match spec_parse_u64(names[0]) {
            None => Err(names[0]),
            Some(v) => spec_next_episode(
                names.drop_first(),
                if v + 1 > acc { (v + 1) as u64 } else { acc },
            ),
        }
    }
}

impl FlowCmd {
    /// What undoing this command takes, if anything.
    pub fn cleanup(&self) -> (r: Option<CleanupAction>)
        ensures
            match spec_cleanup(self@) {
                Some(a) => r matches Some(x) && x@ == a,
                None => r is None,
            },
    {
        match self {
            FlowCmd::Start(service, _) => Some(CleanupAction::StopService(service.clone())),
            FlowCmd::Send(s) => {
                let v = chars_of(s.as_str());
                let from = chars_of("disk start");
                proof {
                    reveal_strlit("disk start");
                }
                if find_chars(&v, &from).is_some() {
                    let replaced = replace_chars(&v, &from, &chars_of("disk stop"));
                    let data = concat_chars(&chars_of("to "), &replaced);
                    Some(CleanupAction::SendData(string_from_chars(&data)))
                } else {
                    None
                }
            },
            _ => None,
        }
    }

    /// What running this command asks of the world outside the flow, as the back end runs it
    /// (see `run_plain` for the plain web front end). A prompt must not have been answered yet.
    pub fn run(&self) -> (r: CmdAction)
        requires
            self@ matches CmdView::Str { data, .. } ==> data is None,
            self@ matches CmdView::Int { data, .. } ==> data is None,
        ensures
            r@ == spec_run(self@),
    {
        match self {
            FlowCmd::Message(m) => {
                let t = concat_chars(&chars_of("msg "), &chars_of(m.as_str()));
                CmdAction::Show(string_from_chars(&t))
            },
            FlowCmd::Str { .. } => {
                let p = self.prompt();
                match p {
                    Some(q) => CmdAction::AskStr(q),
                    None => CmdAction::AskStr(String::new()),
                }
            },
            FlowCmd::Int { limits, .. } => {
                let p = self.prompt();
                match p {
                    Some(q) => CmdAction::AskInt(q, limits.0, limits.1),
                    None => CmdAction::AskInt(String::new(), limits.0, limits.1),
                }
            },
            FlowCmd::Start(s, d) => CmdAction::Start(s.clone(), d.clone()),
            FlowCmd::Stop(s) => CmdAction::Stop(s.clone()),
            FlowCmd::Send(s) => {
                let t = concat_chars(&chars_of("to "), &chars_of(s.as_str()));
                CmdAction::SendData(string_from_chars(&t))
            },
            FlowCmd::StopSensors => {
                let mut v: Vec<String> = Vec::new();
                v.push(String::from_str("bluefox"));
                v.push(String::from_str("structure"));
                v.push(String::from_str("biotac"));
                v.push(String::from_str("optoforce"));
                v.push(String::from_str("teensy"));
                assert(v@.map_values(|x: String| x@) =~= sensor_services());
                CmdAction::StopAll(v)
            },
        }
    }

    /// The question this command asks the operator, if it asks one.
    pub fn prompt(&self) -> (r: Option<String>)
        ensures
            match spec_prompt(self@) {
                Some(p) => r matches Some(s) && s@ == p,
                None => r is None,
            },
    {
        match self {
            FlowCmd::Str { prompt, .. } => {
                let t = concat_chars(&chars_of("prompt Please enter "), &chars_of(prompt.as_str()));
                Some(string_from_chars(&t))
            },
            FlowCmd::Int { prompt, limits, .. } => {
                let mut t = concat_chars(&chars_of("prompt Please select "), &chars_of(prompt.as_str()));
                t = concat_chars(&t, &chars_of(" ("));
                t = concat_chars(&t, &i32_chars(limits.0));
                t = concat_chars(&t, &chars_of("-"));
                t = concat_chars(&t, &i32_chars(limits.1));
                t = concat_chars(&t, &chars_of(" scale)"));
                Some(string_from_chars(&t))
            },
            _ => None,
        }
    }
}

/// Checks the operator's answer to a string prompt.
pub fn validate_str(x: String) -> (r: Result<String, String>)
    ensures
        match spec_validate_str(x@) {
            Ok(v) => r matches Ok(s) && s@ == v,
            Err(m) => r matches Err(s) && s@ == m,
        },
{
    if x.as_str().is_empty() {
        Err(String::from_str("prompt That's an empty string!"))
    } else {
        Ok(x)
    }
}

/// Checks the operator's answer to an integer prompt with the given limits.
pub fn validate_int(x: &str, low: i32, high: i32) -> (r: Result<i32, String>)
    ensures
        match spec_validate_int(x@, low, high) {
            Ok(v) => r == Ok::<i32, String>(v),
            Err(m) => r matches Err(s) && s@ == m,
        },
{
    match parse_i32(&trim_chars(&chars_of(x))) {
        Some(i) => if low <= i && i <= high {
            Ok(i)
        } else {
            Err(String::from_str("prompt Out of range!"))
        },
        None => Err(String::from_str("prompt Not an integer!")),
    }
}

/// The question asked again after the operator's answer was refused with `admonish`.
pub fn reprompt(admonish: &str, prompt: &str) -> (r: String)
    ensures
        r@ == admonish@ + " "@ + prompt@,
{
    let mut s = String::from_str(admonish);
    s.append(" ");
    s.append(prompt);
    s
}


impl FlowState {
    /// What undoing this state takes: the cleanup of each command (if any), last command first.
    pub fn cleanup(&self) -> (r: Vec<Option<CleanupAction>>)
        ensures
            r@.map_values(|o: Option<CleanupAction>| cleanup_view(o)) == spec_cleanups(self@.script),
    {
        let ghost sv = self@.script;
        let n = self.script.len();
        let mut out: Vec<Option<CleanupAction>> = Vec::new();
        let mut i = n;
        while i > 0
            invariant
                i <= n,
                n == self.script.len(),
                sv == self@.script,
                out@.len() == n - i,
                forall|k: int| 0 <= k < out@.len() ==> cleanup_view(#[trigger] out@[k]) == spec_cleanup(sv[n - 1 - k].0),
            decreases i,
        {
            assert(sv[i - 1] == entry_view(self.script@[i - 1]));
            let c = self.script[i - 1].0.cleanup();
            proof {
                assert(cleanup_view(c) == spec_cleanup(sv[i - 1].0));
            }
            out.push(c);
            i = i - 1;
        }
        assert(out@.map_values(|o: Option<CleanupAction>| cleanup_view(o)) =~= spec_cleanups(sv));
        out
    }

    /// Forgets everything a run recorded in this state: the answers and times of its commands,
    /// its own time, and that it was done.
    pub fn finalize(&mut self)
        ensures
            final(self)@ == finalized_state(old(self)@),
    {
        let ghost sv = old(self)@.script;
        let mut i: usize = 0;
        while i < self.script.len()
            invariant
                i <= self.script.len(),
                sv.len() == self.script.len(),
                self.name@ == old(self)@.name,
                self.park == old(self)@.park,
                forall|k: int| 0 <= k < i ==> #[trigger] entry_view(self.script@[k]) == (cmd_cleared(sv[k].0), None::<Stamp>),
                forall|k: int| i <= k < sv.len() ==> #[trigger] entry_view(self.script@[k]) == sv[k],
            decreases self.script.len() - i,
        {
            let ghost before = self.script@;
            let mut entry = self.script.remove(i);
            assert(entry_view(entry) == sv[i as int]);
            entry.0.finalize();
            entry.1 = None;
            let ghost ev = entry_view(entry);
            assert(ev == (cmd_cleared(sv[i as int].0), None::<Stamp>));
            self.script.insert(i, entry);
            assert(self.script@ =~= before.update(i as int, entry));
            assert(entry_view(self.script@[i as int]) == ev);
            i = i + 1;
        }
        self.done = false;
        self.stamp = None;
        assert(self@.script =~= finalized_state(old(self)@).script);
    }
}


impl FlowCmd {
    /// Records the operator's answer to a string prompt that has not been answered yet.
    pub fn answer_str(&mut self, a: String)
        requires
            old(self)@ matches CmdView::Str { data: None, .. },
        ensures
            final(self)@ == (CmdView::Str { prompt: old(self)@->Str_prompt, data: Some(a@) }),
    {
        match self {
            FlowCmd::Str { prompt: _, data } => {
                *data = Some(a);
            },
            _ => {},
        }
    }

    /// Records the operator's answer to an integer prompt that has not been answered yet.
    pub fn answer_int(&mut self, a: i32)
        requires
            old(self)@ matches CmdView::Int { data: None, .. },
        ensures
            final(self)@ == (CmdView::Int {
                prompt: old(self)@->Int_prompt,
                limits: old(self)@->Int_limits,
                data: Some(a),
            }),
    {
        match self {
            FlowCmd::Int { prompt: _, limits: _, data } => {
                *data = Some(a);
            },
            _ => {},
        }
    }
}

impl FlowState {
    /// Notes when the state began to run.
    pub fn begin(&mut self, stamp: Stamp)
        ensures
            final(self)@ == (StateView { stamp: Some(stamp), ..old(self)@ }),
    {
        self.stamp = Some(stamp);
    }

    /// Notes when the command at index `i` was run.
    pub fn stamp_command(&mut self, i: usize, stamp: Stamp)
        requires
            i < old(self)@.script.len(),
        ensures
            final(self)@ == (StateView {
                script: old(self)@.script.update(i as int, (old(self)@.script[i as int].0, Some(stamp))),
                ..old(self)@
            }),
    {
        let ghost before = self.script@;
        let mut entry = self.script.remove(i);
        entry.1 = Some(stamp);
        self.script.insert(i, entry);
        assert(self.script@ =~= before.update(i as int, entry));
        assert(self@.script =~= old(self)@.script.update(i as int, (old(self)@.script[i as int].0, Some(stamp))));
    }

    /// Marks the state as done.
    pub fn complete(&mut self)
        ensures
            final(self)@ == (StateView { done: true, ..old(self)@ }),
    {
        self.done = true;
    }
}

impl Flow {
    /// Begins a run of the flow at time `stamp` with run identifier `id`, unless it is already
    /// active; says whether it began.
    pub fn begin(&mut self, stamp: Stamp, id: u128) -> (r: bool)
        ensures
            r == !old(self).active,
            r ==> final(self)@ == (FlowView { active: true, stamp: Some(stamp), id: Some(id), ..old(self)@ }),
            !r ==> final(self)@ == old(self)@,
    {
        if self.active {
            return false;
        }
        self.stamp = Some(stamp);
        self.id = Some(id);
        self.active = true;
        true
    }

    /// The next step of the flow when the parking lot is in state `park`.
    pub fn next_step(&self, park: ParkState) -> (r: FlowStep)
        ensures
            r == spec_next_step(self@, park),
    {
        let ghost sv = self@.states;
        let mut i: usize = 0;
        while i < self.states.len() && self.states[i].done
            invariant
                i <= self.states.len(),
                sv == self@.states,
                first_undone(sv, 0) == first_undone(sv, i as int),
            decreases self.states.len() - i,
        {
            assert(sv[i as int] == self.states@[i as int]@);
            i = i + 1;
        }
        if i == self.states.len() {
            return FlowStep::NoApplicable;
        }
        assert(sv[i as int] == self.states@[i as int]@);
        match self.states[i].park {
            None => FlowStep::Execute(i),
            Some(p) => if p == park {
                FlowStep::Execute(i)
            } else {
                FlowStep::WaitFor(p)
            },
        }
    }

    /// Settles the flow after a step: once the last state is done the flow is almost done, and at
    /// the step after that it ends, with every state forgotten (see `finalized_state`). Says
    /// whether the flow ended.
    pub fn settle(&mut self) -> (finished: bool)
        ensures
            finished == (last_done(old(self)@) && old(self).almostdone),
            finished ==> final(self)@ == (FlowView {
                active: false,
                almostdone: false,
                states: old(self)@.states.map_values(|s: StateView| finalized_state(s)),
                ..old(self)@
            }),
            !finished && last_done(old(self)@) ==> final(self)@ == (FlowView { almostdone: true, ..old(self)@ }),
            !last_done(old(self)@) ==> final(self)@ == old(self)@,
            (finished, final(self)@) == settled(old(self)@),
    {
        let n = self.states.len();
        if n == 0 || !self.states[n - 1].done {
            assert(n > 0 ==> self@.states.last() == self.states@[n - 1]@);
            return false;
        }
        assert(self@.states.last() == self.states@[n - 1]@);
        if !self.almostdone {
            self.almostdone = true;
            return false;
        }
        self.active = false;
        self.almostdone = false;
        let ghost sv = old(self)@.states;
        let mut i: usize = 0;
        while i < self.states.len()
            invariant
                i <= self.states.len(),
                sv.len() == self.states.len(),
                self.name@ == old(self)@.name,
                self.shortname@ == old(self)@.shortname,
                self.endeffs@ == old(self)@.endeffs,
                self.stamp == old(self).stamp,
                self.id == old(self).id,
                !self.active,
                !self.almostdone,
                forall|k: int| 0 <= k < i ==> #[trigger] self.states@[k]@ == finalized_state(sv[k]),
                forall|k: int| i <= k < sv.len() ==> #[trigger] self.states@[k]@ == sv[k],
            decreases self.states.len() - i,
        {
            let ghost before = self.states@;
            let mut st = self.states.remove(i);
            assert(st@ == sv[i as int]);
            st.finalize();
            let ghost sv2 = st@;
            self.states.insert(i, st);
            assert(self.states@ =~= before.update(i as int, st));
            assert(self.states@[i as int]@ == sv2);
            i = i + 1;
        }
        assert(self@.states =~= sv.map_values(|s: StateView| finalized_state(s)));
        true
    }

    /// Resets the flow after the operator canceled it: it is no longer active, and every state
    /// forgets what the run recorded in it (see `finalized_state`), so the flow can run again.
    pub fn reset_after_abort(&mut self)
        ensures
            final(self)@ == (FlowView {
                active: false,
                almostdone: false,
                states: old(self)@.states.map_values(|s: StateView| finalized_state(s)),
                ..old(self)@
            }),
    {
        self.active = false;
        self.almostdone = false;
        let ghost sv = old(self)@.states;
        let mut i: usize = 0;
        while i < self.states.len()
            invariant
                i <= self.states.len(),
                sv.len() == self.states.len(),
                self.name@ == old(self)@.name,
                self.shortname@ == old(self)@.shortname,
                self.endeffs@ == old(self)@.endeffs,
                self.stamp == old(self).stamp,
                self.id == old(self).id,
                !self.active,
                !self.almostdone,
                forall|k: int| 0 <= k < i ==> #[trigger] self.states@[k]@ == finalized_state(sv[k]),
                forall|k: int| i <= k < sv.len() ==> #[trigger] self.states@[k]@ == sv[k],
            decreases self.states.len() - i,
        {
            let ghost before = self.states@;
            let mut st = self.states.remove(i);
            assert(st@ == sv[i as int]);
            st.finalize();
            let ghost sv2 = st@;
            self.states.insert(i, st);
            assert(self.states@ =~= before.update(i as int, st));
            assert(self.states@[i as int]@ == sv2);
            i = i + 1;
        }
        assert(self@.states =~= sv.map_values(|s: StateView| finalized_state(s)));
    }

    /// The indices of the states that are done, last first: the order in which canceling the flow
    /// undoes them.
    pub fn done_states_rev(&self) -> (r: Vec<usize>)
        ensures
            forall|k: int| 0 <= k < r@.len() ==> (#[trigger] r@[k]) < self@.states.len() && self@.states[r@[k] as int].done,
            forall|k: int, m: int| 0 <= k < m < r@.len() ==> r@[k] > r@[m],
            forall|i: int| 0 <= i < self@.states.len() && #[trigger] self@.states[i].done ==> r@.contains(i as usize),
    {
        let mut out: Vec<usize> = Vec::new();
        let mut i = self.states.len();
        while i > 0
            invariant
                i <= self.states.len(),
                forall|k: int| 0 <= k < out@.len() ==> i <= #[trigger] out@[k] < self@.states.len() && self@.states[out@[k] as int].done,
                forall|k: int, m: int| 0 <= k < m < out@.len() ==> out@[k] > out@[m],
                forall|j: int| i <= j < self@.states.len() && #[trigger] self@.states[j].done ==> out@.contains(j as usize),
            decreases i,
        {
            i = i - 1;
            assert(self@.states[i as int] == self.states@[i as int]@);
            if self.states[i].done {
                let ghost before = out@;
                out.push(i);
                assert(out@[out@.len() - 1] == i);
                assert forall|j: int| i <= j < self@.states.len() && #[trigger] self@.states[j].done implies out@.contains(j as usize) by {
                    if j == i {
                        assert(out@[out@.len() - 1] == i);
                    } else {
                        assert(before.contains(j as usize));
                        let w = choose|w: int| 0 <= w < before.len() && before[w] == j as usize;
                        assert(out@[w] == j as usize);
                    }
                }
            }
        }
        out
    }
}

/// Where a step of a flow leaves it: ended (finished, or aborted) wins, then having executed a
/// state, then having just begun; otherwise the flow is still in progress.
pub fn step_contour(began: bool, executed: bool, ended: bool) -> (r: EventContour)
    ensures
        ended ==> r == EventContour::Finishing,
        !ended && executed ==> r == EventContour::Continuing,
        !ended && !executed && began ==> r == EventContour::Starting,
        !ended && !executed && !began ==> r == EventContour::In,
{
    if ended {
        EventContour::Finishing
    } else if executed {
        EventContour::Continuing
    } else if began {
        EventContour::Starting
    } else {
        EventContour::In
    }
}

/// The next episode number, given the names of the episode directories that exist.
pub fn next_episode(names: &Vec<String>) -> (r: Result<u64, String>)
    requires
        forall|i: int| 0 <= i < names@.len() ==> spec_parse_u64(#[trigger] names@[i]@) != Some(u64::MAX),
    ensures
        match spec_next_episode(names@.map_values(|s: String| s@), 1) {
            Ok(n) => r == Ok::<u64, String>(n),
            Err(bad) => r matches Err(s) && s@ == bad,
        },
{
    let ghost nv = names@.map_values(|s: String| s@);
    let mut acc: u64 = 1;
    let mut i: usize = 0;
    assert(nv.subrange(0, nv.len() as int) =~= nv);
    while i < names.len()
        invariant
            i <= names.len(),
            nv == names@.map_values(|s: String| s@),
            forall|k: int| 0 <= k < names@.len() ==> spec_parse_u64(#[trigger] names@[k]@) != Some(u64::MAX),
            spec_next_episode(nv, 1) == spec_next_episode(nv.subrange(i as int, nv.len() as int), acc),
        decreases names.len() - i,
    {
        let ghost rest = nv.subrange(i as int, nv.len() as int);
        assert(rest[0] == names@[i as int]@);
        assert(rest.drop_first() =~= nv.subrange(i + 1, nv.len() as int));
        match parse_u64(&chars_of(names[i].as_str())) {
            None => {
                return Err(names[i].clone());
            },
            Some(v) => {
                let num = v + 1;
                if num > acc {
                    acc = num;
                }
            },
        }
        i = i + 1;
    }
    Ok(acc)
}

} // verus!
