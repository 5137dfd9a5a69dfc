//! Bring-up and teardown of the checking service.
//!
//! The decisions form a small state machine: probe a running instance, else
//! spawn a local executable, else try an ordered list of container runtimes,
//! else fail for good.  The embedding binary performs the probe and the
//! spawns and feeds the outcome of each action back as an event; exactly one
//! acquisition strategy is recorded, and teardown is fully determined by it.

use vstd::prelude::*;
use vstd::string::StringExecFns;

use crate::error::LtlspError;
use crate::languagetool::{dec_chars, u16_decimal, LanguageToolRequest};

verus! {

/// The container runtimes that can host the service, in the order they are
/// tried.
#[derive(Clone, Copy, Debug, PartialEq, Eq, Structural)]
pub enum ContainerType {
    PodMan,
    Docker,
    Incus,
}

pub const CONTAINER_RUNTIME_COUNT: usize = 3;

/// The runtime tried at position `i` of the candidate list.
pub open spec fn runtime_at(i: int) -> ContainerType {
    if i == 0 {
        ContainerType::PodMan
    } else if i == 1 {
        ContainerType::Docker
    } else {
        ContainerType::Incus
    }
}

pub fn container_runtime(i: usize) -> (r: ContainerType)
    requires
        i < CONTAINER_RUNTIME_COUNT,
    ensures
        r == runtime_at(i as int),
{
    if i == 0 {
        ContainerType::PodMan
    } else if i == 1 {
        ContainerType::Docker
    } else {
        ContainerType::Incus
    }
}

/// How the service was acquired; teardown is decided by this record alone.
#[derive(Clone, Copy, Debug, PartialEq, Eq, Structural)]
pub enum LanguageToolInitialisation {
    AlreadyRunning,
    LocalExecutable,
    Container(ContainerType),
}

/// Where the bring-up stands.
#[derive(Clone, Copy, Debug, PartialEq, Eq, Structural)]
pub enum StartupState {
    Probing,
    LocallySpawning,
    ContainerTrying(usize),
    Running(LanguageToolInitialisation),
    Failed,
}

/// What the embedding binary reports back about the last action.
#[derive(Clone, Copy, Debug, PartialEq, Eq, Structural)]
pub enum StartupEvent {
    ProbeSucceeded,
    ProbeFailed,
    SpawnSucceeded,
    SpawnNotFound,
    SpawnFailedOther,
}

/// What the embedding binary is asked to do next.
#[derive(Clone, Copy, Debug, PartialEq, Eq, Structural)]
pub enum StartupAction {
    Probe,
    SpawnLocal,
    SpawnContainer(ContainerType),
}

/// A container index never runs past the candidate list.
pub open spec fn state_wf(s: StartupState) -> bool {
    match s {
        StartupState::ContainerTrying(i) => i < CONTAINER_RUNTIME_COUNT,
        _ => true,
    }
}

/// The event answers the state's pending action.
pub open spec fn event_fits(s: StartupState, e: StartupEvent) -> bool {
    match s {
        StartupState::Probing => e is ProbeSucceeded || e is ProbeFailed,
        StartupState::LocallySpawning => e is SpawnSucceeded || e is SpawnNotFound
            || e is SpawnFailedOther,
        StartupState::ContainerTrying(_) => e is SpawnSucceeded || e is SpawnNotFound
            || e is SpawnFailedOther,
        _ => false,
    }
}

/// The transition relation of the bring-up machine.  A successful probe
/// records `AlreadyRunning`; a spawn that fails (the executable or runtime is
/// missing, or the spawn errs otherwise) falls through to the next strategy;
/// running out of container runtimes fails for good.  Terminal states absorb.
pub open spec fn spec_step(s: StartupState, e: StartupEvent) -> StartupState {
    match s {
        StartupState::Probing => match e {
            StartupEvent::ProbeSucceeded => StartupState::Running(
                LanguageToolInitialisation::AlreadyRunning,
            ),
            StartupEvent::ProbeFailed => StartupState::LocallySpawning,
            _ => s,
        },
        StartupState::LocallySpawning => match e {
            StartupEvent::SpawnSucceeded => StartupState::Running(
                LanguageToolInitialisation::LocalExecutable,
            ),
            StartupEvent::SpawnNotFound => StartupState::ContainerTrying(0),
            StartupEvent::SpawnFailedOther => StartupState::ContainerTrying(0),
            _ => s,
        },
        StartupState::ContainerTrying(i) => match e {
            StartupEvent::SpawnSucceeded => StartupState::Running(
                LanguageToolInitialisation::Container(runtime_at(i as int)),
            ),
            StartupEvent::SpawnNotFound | StartupEvent::SpawnFailedOther => if i + 1
                < CONTAINER_RUNTIME_COUNT {
                StartupState::ContainerTrying((i + 1) as usize)
            } else {
                StartupState::Failed
            },
            _ => s,
        },
        _ => s,
    }
}

/// How far the machine still has to go; each fitting event strictly shrinks
/// it until a terminal state is reached, so bring-up cannot hang.
pub open spec fn state_measure(s: StartupState) -> int {
    match s {
        StartupState::Probing => 2 + CONTAINER_RUNTIME_COUNT,
        StartupState::LocallySpawning => 1 + CONTAINER_RUNTIME_COUNT,
        StartupState::ContainerTrying(i) => CONTAINER_RUNTIME_COUNT - i,
        StartupState::Running(_) => 0,
        StartupState::Failed => 0,
    }
}

/// Take one step of the bring-up machine.
pub fn step(s: StartupState, e: StartupEvent) -> (r: StartupState)
    requires
        state_wf(s),
    ensures
        r == spec_step(s, e),
        state_wf(r),
        event_fits(s, e) ==> (r is Running || r is Failed || state_measure(r) < state_measure(s)),
{
    match s {
        StartupState::Probing => match e {
            StartupEvent::ProbeSucceeded => StartupState::Running(
                LanguageToolInitialisation::AlreadyRunning,
            ),
            StartupEvent::ProbeFailed => StartupState::LocallySpawning,
            _ => s,
        },
        StartupState::LocallySpawning => match e {
            StartupEvent::SpawnSucceeded => StartupState::Running(
                LanguageToolInitialisation::LocalExecutable,
            ),
            StartupEvent::SpawnNotFound => StartupState::ContainerTrying(0),
            StartupEvent::SpawnFailedOther => StartupState::ContainerTrying(0),
            _ => s,
        },
        StartupState::ContainerTrying(i) => match e {
            StartupEvent::SpawnSucceeded => StartupState::Running(
                LanguageToolInitialisation::Container(container_runtime(i)),
            ),
            StartupEvent::SpawnNotFound | StartupEvent::SpawnFailedOther => if i + 1
                < CONTAINER_RUNTIME_COUNT {
                StartupState::ContainerTrying(i + 1)
            } else {
                StartupState::Failed
            },
            _ => s,
        },
        _ => s,
    }
}

/// The action a state waits on; terminal states ask for nothing.
pub fn pending_action(s: &StartupState) -> (r: Option<StartupAction>)
    requires
        state_wf(*s),
    ensures
        *s is Probing ==> r == Some(StartupAction::Probe),
        *s is LocallySpawning ==> r == Some(StartupAction::SpawnLocal),
        forall|i: usize|
            *s == StartupState::ContainerTrying(i) ==> r == Some(
                StartupAction::SpawnContainer(runtime_at(i as int)),
            ),
        *s is Running ==> r is None,
        *s is Failed ==> r is None,
{
    match s {
        StartupState::Probing => Some(StartupAction::Probe),
        StartupState::LocallySpawning => Some(StartupAction::SpawnLocal),
        StartupState::ContainerTrying(i) => Some(StartupAction::SpawnContainer(container_runtime(*i))),
        StartupState::Running(_) => None,
        StartupState::Failed => None,
    }
}

/// Read the machine off once it is terminal: the recorded acquisition
/// strategy, or the fatal exhaustion error.
pub fn startup_result(s: &StartupState) -> (r: Result<LanguageToolInitialisation, LtlspError>)
    requires
        *s is Running || *s is Failed,
    ensures
        forall|h: LanguageToolInitialisation|
            *s == StartupState::Running(h) ==> r == Result::<
                LanguageToolInitialisation,
                LtlspError,
            >::Ok(h),
        *s is Failed ==> r matches Err(LtlspError::StartupExhausted),
{
    match s {
        StartupState::Running(h) => Ok(*h),
        _ => Err(LtlspError::StartupExhausted),
    }
}

/// The machine run over a whole event sequence.
pub open spec fn run_from(s: StartupState, events: Seq<StartupEvent>) -> StartupState
    decreases events.len(),
{
    if events.len() == 0 {
        s
    } else {
        run_from(spec_step(s, events.first()), events.drop_first())
    }
}

/// A running machine stays where it is, whatever else arrives.
pub proof fn lemma_running_absorbs(h: LanguageToolInitialisation, events: Seq<StartupEvent>)
    ensures
        run_from(StartupState::Running(h), events) == StartupState::Running(h),
    decreases events.len(),
{
    if events.len() > 0 {
        lemma_running_absorbs(h, events.drop_first());
    }
}

/// Law: probing an already-running service never spawns a local process or a
/// container.  After a successful probe the machine stands in
/// `Running(AlreadyRunning)` after every prefix of whatever else arrives, and
/// `pending_action` of a running state asks for nothing, so no spawn action
/// is ever issued.
pub proof fn lemma_probe_success_spawns_nothing(events: Seq<StartupEvent>)
    requires
        events.len() > 0,
        events.first() is ProbeSucceeded,
    ensures
        forall|k: int|
            1 <= k <= events.len() ==> run_from(StartupState::Probing, events.take(k))
                == StartupState::Running(LanguageToolInitialisation::AlreadyRunning),
{
    assert forall|k: int|
        1 <= k <= events.len() implies run_from(StartupState::Probing, events.take(k))
        == StartupState::Running(LanguageToolInitialisation::AlreadyRunning) by {
        let taken = events.take(k);
        assert(taken.first() == events.first());
        assert(spec_step(StartupState::Probing, taken.first()) == StartupState::Running(
            LanguageToolInitialisation::AlreadyRunning,
        ));
        lemma_running_absorbs(LanguageToolInitialisation::AlreadyRunning, taken.drop_first());
    }
}

/// An event that reports a spawn attempt which did not produce a process.
pub open spec fn is_spawn_failure(e: StartupEvent) -> bool {
    e is SpawnNotFound || e is SpawnFailedOther
}

/// Law: with no instance running, no local executable and no workable
/// container runtime, bring-up exhausts every strategy and ends in `Failed`
/// — the state [`startup_result`] maps to the fatal startup error — after
/// exactly one probe, one local spawn attempt and one attempt per container
/// runtime, rather than hanging or panicking.
pub proof fn lemma_exhaustion_fails(
    e1: StartupEvent,
    e2: StartupEvent,
    e3: StartupEvent,
    e4: StartupEvent,
)
    requires
        is_spawn_failure(e1),
        is_spawn_failure(e2),
        is_spawn_failure(e3),
        is_spawn_failure(e4),
    ensures
        run_from(
            StartupState::Probing,
            seq![StartupEvent::ProbeFailed, e1, e2, e3, e4],
        ) == StartupState::Failed,
{
    let events = seq![StartupEvent::ProbeFailed, e1, e2, e3, e4];
    assert(events.first() == StartupEvent::ProbeFailed);
    assert(events.drop_first() =~= seq![e1, e2, e3, e4]);
    assert(seq![e1, e2, e3, e4].drop_first() =~= seq![e2, e3, e4]);
    assert(seq![e2, e3, e4].drop_first() =~= seq![e3, e4]);
    assert(seq![e3, e4].drop_first() =~= seq![e4]);
    assert(seq![e4].drop_first() =~= Seq::<StartupEvent>::empty());
    assert(run_from(StartupState::Probing, events) == run_from(
        StartupState::LocallySpawning,
        seq![e1, e2, e3, e4],
    ));
    assert(run_from(StartupState::LocallySpawning, seq![e1, e2, e3, e4]) == run_from(
        StartupState::ContainerTrying(0),
        seq![e2, e3, e4],
    ));
    assert(run_from(StartupState::ContainerTrying(0), seq![e2, e3, e4]) == run_from(
        StartupState::ContainerTrying(1),
        seq![e3, e4],
    ));
    assert(run_from(StartupState::ContainerTrying(1), seq![e3, e4]) == run_from(
        StartupState::ContainerTrying(2),
        seq![e4],
    ));
    assert(run_from(StartupState::ContainerTrying(2), seq![e4]) == run_from(
        StartupState::Failed,
        Seq::<StartupEvent>::empty(),
    ));
    assert(run_from(StartupState::Failed, Seq::<StartupEvent>::empty()) == StartupState::Failed);
}

// ---------------------------------------------------------------------------
// The commands behind the actions, and the teardown rule.
// ---------------------------------------------------------------------------

/// The program each container runtime is invoked as.
pub fn runtime_program(kind: ContainerType) -> (r: &'static str)
    ensures
        kind is PodMan ==> r@ == "podman"@,
        kind is Docker ==> r@ == "docker"@,
        kind is Incus ==> r@ == "incus"@,
{
    match kind {
        ContainerType::PodMan => "podman",
        ContainerType::Docker => "docker",
        ContainerType::Incus => "incus",
    }
}

/// The local service executable.
pub fn local_spawn_program() -> (r: &'static str)
    ensures
        r@ == "languagetool"@,
{
    "languagetool"
}

/// Arguments of the local spawn: serve HTTP on the given port.
pub fn local_spawn_args(port: u16) -> (r: Vec<String>)
    ensures
        r@.len() == 3,
        r@[0]@ == "--http"@,
        r@[1]@ == "--port"@,
        r@[2]@ == dec_chars(port as int),
{
    let mut r: Vec<String> = Vec::new();
    r.push("--http".to_owned());
    r.push("--port".to_owned());
    r.push(u16_decimal(port));
    r
}

/// Arguments that start the named service container from the known image.
pub fn container_run_args() -> (r: Vec<String>)
    ensures
        r@.len() == 3,
        r@[0]@ == "run"@,
        r@[1]@ == "--name=lt"@,
        r@[2]@ == "ghcr.io/garrickwelsh/languagetool:latest"@,
{
    let mut r: Vec<String> = Vec::new();
    r.push("run".to_owned());
    r.push("--name=lt".to_owned());
    r.push("ghcr.io/garrickwelsh/languagetool:latest".to_owned());
    r
}

/// Arguments that forcibly remove the named service container.
pub fn container_remove_args() -> (r: Vec<String>)
    ensures
        r@.len() == 3,
        r@[0]@ == "rm"@,
        r@[1]@ == "-f"@,
        r@[2]@ == "lt"@,
{
    let mut r: Vec<String> = Vec::new();
    r.push("rm".to_owned());
    r.push("-f".to_owned());
    r.push("lt".to_owned());
    r
}

/// What teardown owes each acquisition strategy: nothing for a service that
/// was already running (the caller does not own it), nothing beyond the
/// kill-on-drop already requested at spawn time for a local process, and the
/// matching runtime's forced container removal for a container.
pub fn teardown_action(init: &LanguageToolInitialisation) -> (r: Option<ContainerType>)
    ensures
        *init is AlreadyRunning ==> r is None,
        *init is LocalExecutable ==> r is None,
        forall|kind: ContainerType|
            *init == LanguageToolInitialisation::Container(kind) ==> r == Some(kind),
{
    match init {
        LanguageToolInitialisation::AlreadyRunning => None,
        LanguageToolInitialisation::LocalExecutable => None,
        LanguageToolInitialisation::Container(kind) => Some(*kind),
    }
}

// ---------------------------------------------------------------------------
// The runners handed to the rest of the pipeline once the service is up.
// ---------------------------------------------------------------------------

/// A service instance reached over the network at an arbitrary host.
#[derive(Debug)]
pub struct LanguageToolRunnerRemote {
    pub server: String,
    pub port: u16,
    pub language: String,
}

impl LanguageToolRunnerRemote {
    pub fn server(&self) -> (r: &str)
        ensures
            r@ == self.server@,
    {
        self.server.as_str()
    }

    pub fn port(&self) -> (r: u16)
        ensures
            r == self.port,
    {
        self.port
    }

    pub fn language(&self) -> (r: &str)
        ensures
            r@ == self.language@,
    {
        self.language.as_str()
    }

    /// A fresh, empty request against this instance.
    pub fn new_request(&self) -> (r: LanguageToolRequest)
        ensures
            r.server@ == self.server@,
            r.port == self.port,
            r.language@ == self.language@,
            r.document_data.annotation@.len() == 0,
    {
        LanguageToolRequest::new(self.server.as_str(), self.port, self.language.as_str())
    }
}

/// A service instance this process brought up on the local host.
#[derive(Debug)]
pub struct LanguageToolRunnerLocal {
    pub port: u16,
    pub language: String,
    pub initialisation: LanguageToolInitialisation,
}

impl LanguageToolRunnerLocal {
    /// Record the acquisition strategy the bring-up machine ended in.
    pub fn new(port: u16, language: &str, initialisation: LanguageToolInitialisation) -> (r:
        LanguageToolRunnerLocal)
        ensures
            r.port == port,
            r.language@ == language@,
            r.initialisation == initialisation,
    {
        LanguageToolRunnerLocal { port, language: language.to_owned(), initialisation }
    }

    pub fn server(&self) -> (r: &'static str)
        ensures
            r@ == "localhost"@,
    {
        "localhost"
    }

    pub fn port(&self) -> (r: u16)
        ensures
            r == self.port,
    {
        self.port
    }

    pub fn language(&self) -> (r: &str)
        ensures
            r@ == self.language@,
    {
        self.language.as_str()
    }

    /// A fresh, empty request against the local instance.
    pub fn new_request(&self) -> (r: LanguageToolRequest)
        ensures
            r.server@ == "localhost"@,
            r.port == self.port,
            r.language@ == self.language@,
            r.document_data.annotation@.len() == 0,
    {
        LanguageToolRequest::new(self.server(), self.port, self.language.as_str())
    }
}

} // verus!
