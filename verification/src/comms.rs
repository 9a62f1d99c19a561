//! Communication between the supervisor and the services: commands each way, and what a
//! service does with a command.
use vstd::prelude::*;
use std::sync::mpsc::{Sender, Receiver};

verus! {

/// Commands sent from the supervisor thread to services.
pub enum CmdTo {
    /// Start the service, with optional data for its setup
    Start(Option<String>),
    /// Stop the service (but keep the thread running)
    Stop,
    /// Stop the service and kill the thread
    Quit,
    /// Some data
    Data(String),
}

/// Ways to power the machine down.
#[derive(Copy, Clone, Debug, PartialEq, Eq, Structural)]
pub enum Power {
    PowerOff,
    Reboot,
    /// Restart the wireless network
    RebootWifi,
}

/// Commands sent from services up to the supervisor thread.
pub enum CmdFrom {
    /// Start another service, with optional data for its setup (the supervisor answers
    /// whether it could)
    Start(String, Option<String>, Sender<bool>),
    /// Stop another service (the supervisor answers whether it could)
    Stop(String, Sender<bool>),
    /// Some data
    Data(String),
    /// Shut down everything
    Quit,
    /// Abort the main thread immediately (never do this)
    Panic,
    /// Power the machine down
    Power(Power),
    /// Schedule the sending thread to be killed in x ms
    Timeout(&'static str, u32),
    /// Cancel a killing scheduled with Timeout
    Timein(&'static str),
    /// The named service panicked, for the given reason
    Panicked(&'static str, String),
}

/// Desired blocking mode for a service: what the driving loop does between calls to `step`.
#[derive(Copy, Clone, Debug, PartialEq, Eq, Structural)]
pub enum Block {
    /// Do not call step() again until there is a command from on high.
    Infinite,
    /// No delay -- call step() again immediately.
    Immediate,
    /// Request a period N (in nanoseconds) between calls to step().
    Period(i64),
}

/// Which of the two loops of the driving function to leave.
#[derive(Copy, Clone, Debug, PartialEq, Eq, Structural)]
pub enum Break {
    /// Stop running the service (it may be started again)
    Running,
    /// Stop the service thread
    Alive,
}

/// A service that can be set up and torn down based on commands from a higher power.
pub trait Controllable: Sized {
    /// Human-readable name of the service.
    fn name() -> &'static str;

    /// Desired blocking mode.
    fn block() -> Block;

    /// Sets up the service.
    fn setup(tx: Sender<CmdFrom>, data: Option<String>) -> Self;

    /// Runs one step (one frame or sample of data for a device driver).
    fn step(&mut self, data: Option<String>);

    /// Tears down the service.
    fn teardown(&mut self);
}

/// What a service that waits to be started does with a command from the supervisor.
#[derive(Debug, PartialEq, Eq)]
pub enum Hatch {
    /// Set the service up, with the data, and run it.
    Begin(Option<String>),
    /// Ignore the command and keep waiting.
    Wait,
    /// Leave without ever starting.
    Leave,
}

/// What a service waiting to be started does with a command: a start begins it (with the
/// start's data), data is not listened to yet, and a stop or quit ends the thread.
pub fn hatch(cmd: CmdTo) -> (r: Hatch)
    ensures
        match cmd {
            CmdTo::Start(d) => r == Hatch::Begin(d),
            CmdTo::Data(_) => r == Hatch::Wait,
            CmdTo::Stop | CmdTo::Quit => r == Hatch::Leave,
        },
{
    match cmd {
        CmdTo::Start(d) => Hatch::Begin(d),
        CmdTo::Data(_) => Hatch::Wait,
        CmdTo::Stop | CmdTo::Quit => Hatch::Leave,
    }
}

/// The period (in nanoseconds) that a service's blocking mode asks for: none for `Immediate`,
/// `-1` for `Infinite`.
pub fn actual_period(b: Block) -> (r: i64)
    ensures
        match b {
            Block::Immediate => r == 0,
            Block::Infinite => r == -1,
            Block::Period(p) => r == p,
        },
{
    match b {
        Block::Immediate => 0,
        Block::Infinite => -1,
        Block::Period(p) => p,
    }
}

/// How long (in nanoseconds) a periodic service sleeps after a step that took `elapsed`: the
/// rest of the desired period, or nothing when the step took the whole period.
pub fn rest_of_period(desired: i64, elapsed: i64) -> (r: Option<i64>)
    requires
        elapsed < desired ==> desired - elapsed <= i64::MAX,
    ensures
        elapsed < desired ==> r == Some((desired - elapsed) as i64),
        elapsed >= desired ==> r is None,
{
    if elapsed < desired {
        Some(desired - elapsed)
    } else {
        None
    }
}

/// What a running service does after a command or a look at its command channel: which of the
/// driving loops it leaves, if any, and whether it tears itself down first.
#[derive(Copy, Clone, Debug, PartialEq, Eq)]
pub struct Handled {
    /// The loop to leave, if any.
    pub leave: Option<Break>,
    /// Whether to tear the service down before leaving.
    pub teardown: bool,
}

/// Carry on running.
pub open spec fn carry_on() -> Handled {
    Handled { leave: None, teardown: false }
}

/// Tear the service down and end the thread.
pub open spec fn shut_down() -> Handled {
    Handled { leave: Some(Break::Alive), teardown: true }
}

/// What a running service does with a command from the supervisor: a repeated start changes
/// nothing, data is kept for the next step, a stop leaves the running loop (the driving loop
/// tears the service down after it), and a quit tears the service down and ends the thread.
pub fn handle_ok(cmd: CmdTo, data: &mut Option<String>) -> (r: Handled)
    ensures
        match cmd {
            CmdTo::Start(_) => r == carry_on() && *final(data) == *old(data),
            CmdTo::Stop => r == (Handled { leave: Some(Break::Running), teardown: false }) && *final(data) == *old(data),
            CmdTo::Quit => r == shut_down() && *final(data) == *old(data),
            CmdTo::Data(d) => r == carry_on() && *final(data) == Some(d),
        },
{
    match cmd {
        CmdTo::Start(_) => {},
        CmdTo::Stop => {
            return Handled { leave: Some(Break::Running), teardown: false };
        },
        CmdTo::Quit => {
            return handle_err();
        },
        CmdTo::Data(d) => {
            *data = Some(d);
        },
    }
    Handled { leave: None, teardown: false }
}

/// What a service does when the supervisor is gone or sent a shutdown: tear down and leave.
pub fn handle_err() -> (r: Handled)
    ensures
        r == shut_down(),
{
    Handled { leave: Some(Break::Alive), teardown: true }
}

/// Outcome of looking for a command without waiting.
pub enum TryRecv {
    /// A command arrived.
    Got(CmdTo),
    /// No command is waiting.
    Empty,
    /// The supervisor is gone.
    Disconnected,
}

/// `Receiver::try_recv`: a waiting command, if any. Which one depends on the supervisor, so
/// nothing is claimed of it.
#[verifier::external_body]
fn try_recv_cmd(rx: &Receiver<CmdTo>) -> TryRecv {
    match rx.try_recv() {
        Ok(cmd) => TryRecv::Got(cmd),
        Err(std::sync::mpsc::TryRecvError::Empty) => TryRecv::Empty,
        Err(std::sync::mpsc::TryRecvError::Disconnected) => TryRecv::Disconnected,
    }
}

/// What a running service does with what it found on its command channel: a command is handled
/// as `handle_ok` does, an empty channel changes nothing, and a gone supervisor tears the
/// service down and ends the thread.
pub fn react(t: TryRecv, data: &mut Option<String>) -> (r: Handled)
    ensures
        match t {
            TryRecv::Got(CmdTo::Start(_)) => r == carry_on() && *final(data) == *old(data),
            TryRecv::Got(CmdTo::Stop) => r == (Handled { leave: Some(Break::Running), teardown: false })
                && *final(data) == *old(data),
            TryRecv::Got(CmdTo::Quit) => r == shut_down() && *final(data) == *old(data),
            TryRecv::Got(CmdTo::Data(d)) => r == carry_on() && *final(data) == Some(d),
            TryRecv::Empty => r == carry_on() && *final(data) == *old(data),
            TryRecv::Disconnected => r == shut_down() && *final(data) == *old(data),
        },
{
    match t {
        TryRecv::Got(cmd) => handle_ok(cmd, data),
        TryRecv::Empty => Handled { leave: None, teardown: false },
        TryRecv::Disconnected => handle_err(),
    }
}

/// What waiting for a command gives: the command, or a gone supervisor.
pub fn waited(cmd: Option<CmdTo>) -> (r: TryRecv)
    ensures
        match cmd {
            Some(c) => r == TryRecv::Got(c),
            None => r == TryRecv::Disconnected,
        },
{
    match cmd {
        Some(c) => TryRecv::Got(c),
        None => TryRecv::Disconnected,
    }
}

/// Handles communications from the supervisor: waits for a command when `block` is set,
/// otherwise looks for a waiting command; what it finds is decided by `react` (when waiting, a
/// gone supervisor is found and never an empty channel). Which command comes depends on the
/// supervisor; whatever comes, the service is torn down only when it is also told to end the
/// thread, and data is kept only when the service carries on.
pub fn handle(block: bool, rx: &Receiver<CmdTo>, data: &mut Option<String>) -> (r: Handled)
    ensures
        r.teardown <==> r == shut_down(),
        r.leave is Some ==> *final(data) == *old(data),
        r.leave is None ==> !r.teardown && (*final(data) == *old(data) || *final(data) is Some),
{
    let found = if block {
        waited(crate::mpmc::recv_on(rx))
    } else {
        try_recv_cmd(rx)
    };
    react(found, data)
}

/// Where the driving loop of a service stands.
#[derive(Copy, Clone, Debug, PartialEq, Eq, Structural)]
pub enum Phase {
    /// Waiting to be started.
    Hatching,
    /// Set up, and stepped after each look at the command channel.
    Running,
    /// The thread is over.
    Done,
}

/// What the driving loop does next.
#[derive(Debug, PartialEq, Eq)]
pub enum Act {
    /// Nothing.
    Nothing,
    /// Set the service up with the data, between a `Timeout` of a second and a `Timein` sent to
    /// the supervisor.
    Setup(Option<String>),
    /// Run one step of the service with the data that came.
    Step(Option<String>),
    /// Tear the service down.
    Teardown,
}

/// The driving loop's decision on what it found on the command channel (while hatching it
/// waits, so it finds a command or a gone supervisor): the phase that follows and what to do.
/// A waiting service starts on `Start` and ignores data; a running one steps with the data that
/// came (none for a repeated `Start` or an empty channel), is torn down and waits again on
/// `Stop`, and is torn down for good on `Quit` or when the supervisor is gone.
pub open spec fn spec_next(p: Phase, t: TryRecv) -> (Phase, Act) {
    match p {
        Phase::Hatching => match t {
            TryRecv::Got(CmdTo::Start(d)) => (Phase::Running, Act::Setup(d)),
            TryRecv::Got(CmdTo::Data(_)) => (Phase::Hatching, Act::Nothing),
            TryRecv::Empty => (Phase::Hatching, Act::Nothing),
            TryRecv::Got(CmdTo::Stop) => (Phase::Done, Act::Nothing),
            TryRecv::Got(CmdTo::Quit) => (Phase::Done, Act::Nothing),
            TryRecv::Disconnected => (Phase::Done, Act::Nothing),
        },
        Phase::Running => match t {
            TryRecv::Got(CmdTo::Start(_)) => (Phase::Running, Act::Step(None)),
            TryRecv::Got(CmdTo::Data(d)) => (Phase::Running, Act::Step(Some(d))),
            TryRecv::Empty => (Phase::Running, Act::Step(None)),
            TryRecv::Got(CmdTo::Stop) => (Phase::Hatching, Act::Teardown),
            TryRecv::Got(CmdTo::Quit) => (Phase::Done, Act::Teardown),
            TryRecv::Disconnected => (Phase::Done, Act::Teardown),
        },
        Phase::Done => (Phase::Done, Act::Nothing),
    }
}

/// The driving loop's decision on what it found on the command channel.
pub fn next(p: Phase, t: TryRecv) -> (r: (Phase, Act))
    ensures
        r == spec_next(p, t),
{
    match p {
        Phase::Hatching => match t {
            TryRecv::Got(cmd) => match hatch(cmd) {
                Hatch::Begin(d) => (Phase::Running, Act::Setup(d)),
                Hatch::Wait => (Phase::Hatching, Act::Nothing),
                Hatch::Leave => (Phase::Done, Act::Nothing),
            },
            TryRecv::Empty => (Phase::Hatching, Act::Nothing),
            TryRecv::Disconnected => (Phase::Done, Act::Nothing),
        },
        Phase::Running => match t {
            TryRecv::Got(CmdTo::Start(_)) => (Phase::Running, Act::Step(None)),
            TryRecv::Got(CmdTo::Data(d)) => (Phase::Running, Act::Step(Some(d))),
            TryRecv::Empty => (Phase::Running, Act::Step(None)),
            TryRecv::Got(CmdTo::Stop) => (Phase::Hatching, Act::Teardown),
            TryRecv::Got(CmdTo::Quit) => (Phase::Done, Act::Teardown),
            TryRecv::Disconnected => (Phase::Done, Act::Teardown),
        },
        Phase::Done => (Phase::Done, Act::Nothing),
    }
}

/// The phase that the driving loop ends in, and what it does, over what it finds on its command
/// channel in turn.
pub open spec fn run_loop(p: Phase, ts: Seq<TryRecv>) -> (Phase, Seq<Act>)
    decreases ts.len(),
{
    if ts.len() == 0 {
        (p, seq![])
    } else {
        let (q, a) = spec_next(p, ts[0]);
        let (f, acts) = run_loop(q, ts.drop_first());
        (f, seq![a] + acts)
    }
}

/// How many of the acts are set-ups.
pub open spec fn setups(acts: Seq<Act>) -> nat
    decreases acts.len(),
{
    if acts.len() == 0 {
        0
    } else {
        (if acts[0] is Setup { 1nat } else { 0nat }) + setups(acts.drop_first())
    }
}

/// How many of the acts are tear-downs.
pub open spec fn teardowns(acts: Seq<Act>) -> nat
    decreases acts.len(),
{
    if acts.len() == 0 {
        0
    } else {
        (if acts[0] is Teardown { 1nat } else { 0nat }) + teardowns(acts.drop_first())
    }
}

/// Whether what was found is a request to start.
pub open spec fn is_start(t: TryRecv) -> bool {
    t matches TryRecv::Got(CmdTo::Start(_))
}

/// Whether the supervisor asked to start the service among what was found.
pub open spec fn asked_to_start(ts: Seq<TryRecv>) -> bool {
    exists|i: int| 0 <= i < ts.len() && #[trigger] is_start(ts[i])
}

/// One for a running service.
pub open spec fn live(p: Phase) -> nat {
    if p is Running { 1 } else { 0 }
}

/// Set-ups and tear-downs balance over any run, counting a running service at either end.
proof fn lemma_balance(p: Phase, ts: Seq<TryRecv>)
    ensures
        setups(run_loop(p, ts).1) + live(p) == teardowns(run_loop(p, ts).1) + live(run_loop(p, ts).0),
    decreases ts.len(),
{
    if ts.len() > 0 {
        lemma_balance(spec_next(p, ts[0]).0, ts.drop_first());
        let acts = run_loop(p, ts).1;
        assert(acts.drop_first() =~= run_loop(spec_next(p, ts[0]).0, ts.drop_first()).1);
    }
}

/// A service that was never asked to start does nothing but wait or leave.
proof fn lemma_never_started(p: Phase, ts: Seq<TryRecv>)
    requires
        p != Phase::Running,
        !asked_to_start(ts),
    ensures
        run_loop(p, ts).0 != Phase::Running,
        forall|i: int| 0 <= i < run_loop(p, ts).1.len() ==> run_loop(p, ts).1[i] == Act::Nothing,
    decreases ts.len(),
{
    if ts.len() > 0 {
        assert(!asked_to_start(ts.drop_first())) by {
            if asked_to_start(ts.drop_first()) {
                let i = choose|i: int| 0 <= i < ts.drop_first().len() && #[trigger] is_start(ts.drop_first()[i]);
                assert(ts[i + 1] == ts.drop_first()[i]);
                assert(is_start(ts[i + 1]));
            }
        }
        assert(!is_start(ts[0]));
        lemma_never_started(spec_next(p, ts[0]).0, ts.drop_first());
        let acts = run_loop(p, ts).1;
        assert forall|i: int| 0 <= i < acts.len() implies acts[i] == Act::Nothing by {
            if i > 0 {
                assert(acts[i] == run_loop(spec_next(p, ts[0]).0, ts.drop_first()).1[i - 1]);
            }
        }
    }
}

/// A service thread sets its service up only when asked to start it: before any `Start` it
/// does nothing but wait or leave. Each set-up is torn down exactly once: a waiting or finished
/// thread has torn down as often as it set up, and a running one has one set-up more.
pub proof fn law_service_loop(ts: Seq<TryRecv>)
    ensures
        !asked_to_start(ts) ==> forall|i: int|
            0 <= i < run_loop(Phase::Hatching, ts).1.len() ==> run_loop(Phase::Hatching, ts).1[i] == Act::Nothing,
        run_loop(Phase::Hatching, ts).0 == Phase::Running ==> setups(run_loop(Phase::Hatching, ts).1) == teardowns(
            run_loop(Phase::Hatching, ts).1,
        ) + 1,
        run_loop(Phase::Hatching, ts).0 != Phase::Running ==> setups(run_loop(Phase::Hatching, ts).1) == teardowns(
            run_loop(Phase::Hatching, ts).1,
        ),
{
    lemma_balance(Phase::Hatching, ts);
    if !asked_to_start(ts) {
        lemma_never_started(Phase::Hatching, ts);
    }
}

/// A finished service thread does nothing more, whatever it finds.
pub proof fn law_done_stays_done(ts: Seq<TryRecv>)
    ensures
        run_loop(Phase::Done, ts).0 == Phase::Done,
        forall|i: int| 0 <= i < run_loop(Phase::Done, ts).1.len() ==> run_loop(Phase::Done, ts).1[i] == Act::Nothing,
    decreases ts.len(),
{
    if ts.len() > 0 {
        law_done_stays_done(ts.drop_first());
        let acts = run_loop(Phase::Done, ts).1;
        assert forall|i: int| 0 <= i < acts.len() implies acts[i] == Act::Nothing by {
            if i > 0 {
                assert(acts[i] == run_loop(Phase::Done, ts.drop_first()).1[i - 1]);
            }
        }
    }
}

} // verus!
