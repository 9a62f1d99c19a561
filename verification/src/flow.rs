//! Data-collection flows: a named sequence of states, each a script of commands that the
//! operator steps through.
use vstd::prelude::*;
use crate::park::ParkState;
use crate::flow_parse::ParseFlowKind;

verus! {

/// A point in (local) time, as whole seconds and nanoseconds since the epoch.
#[derive(Copy, Clone, Debug, PartialEq, Eq, Structural)]
pub struct Stamp {
    pub secs: i64,
    pub nanos: u32,
}

/// What can go wrong with a flow.
#[derive(Debug, PartialEq, Eq)]
pub enum FlowError {
    /// An I/O operation (named by the string) failed.
    Io(String),
    /// The flow file has a syntax error at the given line (the header is line 0).
    ParseFlow(usize, ParseFlowKind),
    /// A request to the supervisor (named by the string) failed.
    Rpc(String),
    /// The operator canceled the flow.
    FlowCanceled,
    /// Talking to the operator failed.
    Comms,
}

/// Where a step of a flow left it.
#[derive(Copy, Clone, Debug, PartialEq, Eq, Structural)]
pub enum EventContour {
    /// The flow was not active and has just begun.
    Starting,
    /// A state of the flow was executed.
    Continuing,
    /// The flow has ended (completed or aborted).
    Finishing,
    /// The flow is active but nothing was executed.
    In,
}

/// Different actions that a flow can perform at each state.
#[derive(Debug, PartialEq, Eq)]
pub enum FlowCmd {
    /// Show a message to the operator.
    Message(String),
    /// Ask the operator for a string.
    Str { prompt: String, data: Option<String> },
    /// Ask the operator for an integer within limits.
    Int { prompt: String, limits: (i32, i32), data: Option<i32> },
    /// Start a service, with optional data.
    Start(String, Option<String>),
    /// Stop a service.
    Stop(String),
    /// Send data to a service.
    Send(String),
    /// Stop all sensor services.
    StopSensors,
}

/// Mathematical model of a command.
pub enum CmdView {
    Message(Seq<char>),
    Str { prompt: Seq<char>, data: Option<Seq<char>> },
    Int { prompt: Seq<char>, limits: (i32, i32), data: Option<i32> },
    Start(Seq<char>, Option<Seq<char>>),
    Stop(Seq<char>),
    Send(Seq<char>),
    StopSensors,
}

/// The view of an optional string.
pub open spec fn opt_view(o: Option<String>) -> Option<Seq<char>> {
    match o {
        Some(s) => Some(s@),
        None => None,
    }
}

impl View for FlowCmd {
    type V = CmdView;

    open spec fn view(&self) -> CmdView {
        match self {
            FlowCmd::Message(m) => CmdView::Message(m@),
            FlowCmd::Str { prompt, data } => CmdView::Str { prompt: prompt@, data: opt_view(*data) },
            FlowCmd::Int { prompt, limits, data } => CmdView::Int {
                prompt: prompt@,
                limits: *limits,
                data: *data,
            },
            FlowCmd::Start(s, d) => CmdView::Start(s@, opt_view(*d)),
            FlowCmd::Stop(s) => CmdView::Stop(s@),
            FlowCmd::Send(s) => CmdView::Send(s@),
            FlowCmd::StopSensors => CmdView::StopSensors,
        }
    }
}

/// A command with the answer it collected forgotten.
pub open spec fn cmd_cleared(c: CmdView) -> CmdView {
    match c {
        CmdView::Str { prompt, data } => CmdView::Str { prompt, data: None },
        CmdView::Int { prompt, limits, data } => CmdView::Int { prompt, limits, data: None },
        _ => c,
    }
}

/// One state in a data collection flow.
#[derive(Debug, PartialEq, Eq)]
pub struct FlowState {
    /// Name of the flow state
    pub name: String,
    /// State of parking lot that allows this state (if applicable)
    pub park: Option<ParkState>,
    /// Commands to run for this state, each with the time it was run
    pub script: Vec<(FlowCmd, Option<Stamp>)>,
    /// Has this state been completed?
    pub done: bool,
    /// When this state was run
    pub stamp: Option<Stamp>,
}

/// Mathematical model of a flow state.
pub struct StateView {
    pub name: Seq<char>,
    pub park: Option<ParkState>,
    pub script: Seq<(CmdView, Option<Stamp>)>,
    pub done: bool,
    pub stamp: Option<Stamp>,
}

/// The model of a script entry.
pub open spec fn entry_view(e: (FlowCmd, Option<Stamp>)) -> (CmdView, Option<Stamp>) {
    (e.0@, e.1)
}

impl View for FlowState {
    type V = StateView;

    open spec fn view(&self) -> StateView {
        StateView {
            name: self.name@,
            park: self.park,
            script: self.script@.map_values(|e: (FlowCmd, Option<Stamp>)| entry_view(e)),
            done: self.done,
            stamp: self.stamp,
        }
    }
}

/// Descriptor of a data collection flow.
#[derive(Debug, PartialEq, Eq)]
pub struct Flow {
    /// Name of the flow
    pub name: String,
    /// Short name of the flow (its file stem)
    pub shortname: String,
    /// End effectors that the flow uses
    pub endeffs: Vec<ParkState>,
    /// States in the flow
    pub states: Vec<FlowState>,
    /// Is this the active flow?
    pub active: bool,
    /// All states done but one?
    pub almostdone: bool,
    /// When the current run began
    pub stamp: Option<Stamp>,
    /// Identifier of the current run
    pub id: Option<u128>,
}

/// Mathematical model of a flow.
pub struct FlowView {
    pub name: Seq<char>,
    pub shortname: Seq<char>,
    pub endeffs: Seq<ParkState>,
    pub states: Seq<StateView>,
    pub active: bool,
    pub almostdone: bool,
    pub stamp: Option<Stamp>,
    pub id: Option<u128>,
}

impl View for Flow {
    type V = FlowView;

    open spec fn view(&self) -> FlowView {
        FlowView {
            name: self.name@,
            shortname: self.shortname@,
            endeffs: self.endeffs@,
            states: self.states@.map_values(|s: FlowState| s@),
            active: self.active,
            almostdone: self.almostdone,
            stamp: self.stamp,
            id: self.id,
        }
    }
}

/// A fresh (not yet run) state with the given contents.
pub open spec fn fresh_state(
    name: Seq<char>,
    park: Option<ParkState>,
    script: Seq<(CmdView, Option<Stamp>)>,
) -> StateView {
    StateView { name, park, script, done: false, stamp: None }
}

/// A fresh (inactive) flow with the given contents.
pub open spec fn fresh_flow(
    name: Seq<char>,
    shortname: Seq<char>,
    endeffs: Seq<ParkState>,
    states: Seq<StateView>,
) -> FlowView {
    FlowView { name, shortname, endeffs, states, active: false, almostdone: false, stamp: None, id: None }
}

impl FlowCmd {
    /// A prompt for a string, not yet answered.
    pub fn str(prompt: String) -> (r: FlowCmd)
        ensures
            r@ == (CmdView::Str { prompt: prompt@, data: None }),
    {
        FlowCmd::Str { prompt, data: None }
    }

    /// A prompt for an integer within `limits`, not yet answered.
    pub fn integer(prompt: String, limits: (i32, i32)) -> (r: FlowCmd)
        ensures
            r@ == (CmdView::Int { prompt: prompt@, limits, data: None }),
    {
        FlowCmd::Int { prompt, limits, data: None }
    }

    /// Forgets the answer that the command collected, ready for the next run.
    pub fn finalize(&mut self)
        ensures
            final(self)@ == cmd_cleared(old(self)@),
    {
        match self {
            FlowCmd::Str { prompt: _, data } => {
                *data = None;
            },
            FlowCmd::Int { prompt: _, limits: _, data } => {
                *data = None;
            },
            _ => {},
        }
    }
}

impl FlowState {
    /// A fresh state.
    pub fn new(name: String, park: Option<ParkState>, script: Vec<(FlowCmd, Option<Stamp>)>) -> (r: FlowState)
        ensures
            r@ == fresh_state(
                name@,
                park,
                script@.map_values(|e: (FlowCmd, Option<Stamp>)| entry_view(e)),
            ),
    {
        FlowState { name, park, script, done: false, stamp: None }
    }
}

impl Flow {
    /// A fresh flow.
    pub fn new(name: String, shortname: String, endeffs: Vec<ParkState>, states: Vec<FlowState>) -> (r: Flow)
        ensures
            r@ == fresh_flow(name@, shortname@, endeffs@, states@.map_values(|s: FlowState| s@)),
    {
        Flow { name, shortname, endeffs, states, active: false, almostdone: false, stamp: None, id: None }
    }
}

/// A copy of an optional string.
fn clone_opt(o: &Option<String>) -> (r: Option<String>)
    ensures
        opt_view(r) == opt_view(*o),
{
    match o {
        Some(s) => Some(s.clone()),
        None => None,
    }
}

impl Clone for FlowCmd {
    /// A copy of the command, with its answer.
    fn clone(&self) -> (r: FlowCmd)
        ensures
            r@ == self@,
    {
        match self {
            FlowCmd::Message(m) => FlowCmd::Message(m.clone()),
            FlowCmd::Str { prompt, data } => FlowCmd::Str { prompt: prompt.clone(), data: clone_opt(data) },
            FlowCmd::Int { prompt, limits, data } => FlowCmd::Int { prompt: prompt.clone(), limits: *limits, data: *data },
            FlowCmd::Start(s, d) => FlowCmd::Start(s.clone(), clone_opt(d)),
            FlowCmd::Stop(s) => FlowCmd::Stop(s.clone()),
            FlowCmd::Send(s) => FlowCmd::Send(s.clone()),
            FlowCmd::StopSensors => FlowCmd::StopSensors,
        }
    }
}

impl Clone for FlowState {
    /// A copy of the state, with what its run recorded.
    fn clone(&self) -> (r: FlowState)
        ensures
            r@ == self@,
    {
        let mut script: Vec<(FlowCmd, Option<Stamp>)> = Vec::new();
        let ghost sv = self@.script;
        let mut i: usize = 0;
        while i < self.script.len()
            invariant
                i <= self.script.len(),
                sv == self@.script,
                script@.map_values(|e: (FlowCmd, Option<Stamp>)| entry_view(e)) == sv.subrange(0, i as int),
            decreases self.script.len() - i,
        {
            let c = self.script[i].0.clone();
            let st = self.script[i].1;
            let ghost before = script@.map_values(|e: (FlowCmd, Option<Stamp>)| entry_view(e));
            assert(c@ == self.script@[i as int].0@);
            script.push((c, st));
            assert(sv[i as int] == entry_view(self.script@[i as int]));
            assert(script@.map_values(|e: (FlowCmd, Option<Stamp>)| entry_view(e)) =~= before.push(entry_view((c, st))));
            assert(script@.map_values(|e: (FlowCmd, Option<Stamp>)| entry_view(e)) =~= sv.subrange(0, i + 1));
            i = i + 1;
        }
        assert(sv.subrange(0, i as int) =~= sv);
        FlowState {
            name: self.name.clone(),
            park: self.park,
            script: script,
            done: self.done,
            stamp: self.stamp,
        }
    }
}

impl Clone for Flow {
    /// A copy of the flow, including where its current run stands.
    fn clone(&self) -> (r: Flow)
        ensures
            r@ == self@,
    {
        let mut states: Vec<FlowState> = Vec::new();
        let ghost sv = self@.states;
        let mut i: usize = 0;
        while i < self.states.len()
            invariant
                i <= self.states.len(),
                sv == self@.states,
                states@.map_values(|s: FlowState| s@) == sv.subrange(0, i as int),
            decreases self.states.len() - i,
        {
            let st = self.states[i].clone();
            let ghost before = states@.map_values(|s: FlowState| s@);
            assert(st@ == self.states@[i as int]@);
            states.push(st);
            assert(states@.map_values(|s: FlowState| s@) =~= before.push(st@));
            assert(states@.map_values(|s: FlowState| s@) =~= sv.subrange(0, i + 1));
            i = i + 1;
        }
        assert(sv.subrange(0, i as int) =~= sv);
        let mut endeffs: Vec<ParkState> = Vec::new();
        let mut k: usize = 0;
        while k < self.endeffs.len()
            invariant
                k <= self.endeffs.len(),
                endeffs@ == self.endeffs@.subrange(0, k as int),
            decreases self.endeffs.len() - k,
        {
            endeffs.push(self.endeffs[k]);
            assert(endeffs@ =~= self.endeffs@.subrange(0, k + 1));
            k = k + 1;
        }
        assert(self.endeffs@.subrange(0, k as int) =~= self.endeffs@);
        Flow {
            name: self.name.clone(),
            shortname: self.shortname.clone(),
            endeffs: endeffs,
            states: states,
            active: self.active,
            almostdone: self.almostdone,
            stamp: self.stamp,
            id: self.id,
        }
    }
}

} // verus!
