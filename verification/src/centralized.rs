//! The two-tier topology: a centralized broker aggregating one first-tier
//! broker island, with one main and many secondary workers.
//!
//! The session duplicates the process once, unconditionally, for the
//! centralized broker, pauses briefly so it can bind, then creates one
//! worker per core exactly as the single-tier session does.  The first
//! worker in spawn order is classified main — it feeds the aggregation tier
//! with authority — and every other worker is secondary; authority is thus
//! assigned deterministically by spawn order, with no consensus protocol.
//! The first-tier broker's exit signals every recorded handle, the
//! centralized broker's included.

use vstd::prelude::*;

use crate::core_set::CoreSet;
use crate::error::LaunchError;
use crate::redirect::{opt_str_view, resolve_redirection, targets_ok, ChildStdio, StreamTargets};
use crate::role::{EndpointSpec, Role, StatePersistence};
use crate::session::{client_endpoint_ok, clone_opt_string, BrokerTask, SpawnStep};

verus! {

/// The default second-tier (centralized) broker port.
pub const DEFAULT_CENTRALIZED_BROKER_PORT: u16 = 1338;

/// How long the parent pauses after spawning the centralized broker, so it
/// can finish binding before a first-tier broker attaches.
pub const CENTRAL_BIND_PAUSE_MS: u64 = 10;

/// The centralized broker's outer loop interval while waiting for attached
/// brokers to disconnect.
pub const CENTRAL_LOOP_INTERVAL_SECS: u64 = 30;

/// The centralized broker's short internal poll timeout.
pub const CENTRAL_POLL_TIMEOUT_MS: u64 = 5;

/// Launches a fuzzing run on a specified list of cores, with a single main
/// worker, multiple secondary workers, and an aggregation tier above the
/// first-tier broker.
#[derive(Debug)]
pub struct CentralizedLauncher<CF, MF> {
    /// The one-shot callback each secondary worker runs.
    pub secondary_run_client: Option<CF>,
    /// The one-shot callback the main worker runs.
    pub main_run_client: Option<MF>,
    /// Consider every test case interesting, unconditionally.
    pub always_interesting: bool,
    /// The first-tier broker port.
    pub broker_port: u16,
    /// The centralized broker port.
    pub centralized_broker_port: u16,
    /// The cores to bind one worker each to.
    pub cores: CoreSet,
    /// A file all worker standard output is redirected to.
    pub stdout_file: Option<String>,
    /// The delay, in milliseconds, between two child launches.
    pub launch_delay: u64,
    /// A file all worker standard error is redirected to; when unset, worker
    /// standard error goes to `stdout_file`.
    pub stderr_file: Option<String>,
    /// The address of another broker to connect the new broker to.
    pub remote_broker_addr: Option<String>,
    /// Whether this invocation runs the first-tier broker.
    pub spawn_broker: bool,
    /// When worker state is serialized across restarts.
    pub serialize_state: StatePersistence,
}

/// The phase a two-tier launch session is in.
#[derive(Debug, Clone, Copy, PartialEq, Eq, Structural)]
pub enum CentralPhase {
    /// Duplicating once for the centralized broker.
    SpawnCentral,
    /// Pausing so the centralized broker can bind.
    CentralPause,
    /// Creating one worker per core, in increasing core order.
    Spawning,
    /// Running the first-tier broker endpoint.
    Brokering,
    /// The broker finished: interrupting every recorded handle, each once.
    Signaling,
    /// No broker was requested: waiting for every recorded handle to exit.
    Waiting,
    /// The topology reached its terminal state.
    Done,
}

/// What the duplicated process must run to be the centralized broker: an
/// aggregation endpoint on the dedicated port, looping with a bounded wait
/// until every attached first-tier broker has disconnected, then exiting
/// with a shutting-down result.
pub struct CentralBrokerTask {
    /// The port the aggregation endpoint binds.
    pub port: u16,
    /// The outer loop interval, in seconds.
    pub loop_interval_secs: u64,
    /// The short internal poll timeout, in milliseconds.
    pub poll_timeout_ms: u64,
}

/// The callback a two-tier worker runs: the main worker's or a secondary's.
pub enum CentralDuty<CF, MF> {
    /// The authoritative main worker's callback.
    Main(MF),
    /// A contributing secondary worker's callback.
    Secondary(CF),
}

/// Everything a two-tier worker must do: sleep its stagger delay, apply the
/// redirection, build the inner client endpoint, wrap it in an aggregation
/// adapter toward the centralized broker (authoritative exactly for the main
/// worker), and run the matching callback — then exit with its result.
pub struct CentralWorkerRun<CF, MF> {
    /// The callback to run, main or secondary.
    pub duty: CentralDuty<CF, MF>,
    /// Whether this worker holds decision authority in the adapter.
    pub is_main: bool,
    /// The worker's classification and bound core.
    pub role: Role,
    /// The core this worker is bound to.
    pub core: usize,
    /// The worker's position in spawn order, starting at 1.
    pub stagger_index: usize,
    /// How long to sleep before connecting to the broker.
    pub delay_ms: u64,
    /// Where this worker's standard streams go.
    pub redirect: StreamTargets,
    /// The inner client endpoint the adapter wraps.
    pub inner_endpoint: EndpointSpec,
    /// The centralized broker port the adapter forwards to.
    pub centralized_port: u16,
    /// Consider every test case interesting, unconditionally.
    pub always_interesting: bool,
}

/// A validated, running two-tier launch: the parent's step-by-step account
/// of the topology.
pub struct CentralizedSession<CF, MF> {
    /// Whether the debug-output override disables all redirection.
    pub debug_output: bool,
    /// The secondary callback, unconsumed on the parent's side.
    pub secondary_run_client: Option<CF>,
    /// The main callback, unconsumed on the parent's side.
    pub main_run_client: Option<MF>,
    /// Consider every test case interesting, unconditionally.
    pub always_interesting: bool,
    /// The first-tier broker port.
    pub broker_port: u16,
    /// The centralized broker port.
    pub centralized_broker_port: u16,
    /// The cores to bind one worker each to.
    pub cores: CoreSet,
    /// The configured worker standard-output file.
    pub stdout_file: Option<String>,
    /// The configured worker standard-error file.
    pub stderr_file: Option<String>,
    /// The delay, in milliseconds, between two child launches.
    pub launch_delay: u64,
    /// The remote broker to join, if any.
    pub remote_broker_addr: Option<String>,
    /// Whether this invocation runs the first-tier broker.
    pub spawn_broker: bool,
    /// When worker state is serialized across restarts.
    pub serialize_state: StatePersistence,
    /// The current phase.
    pub phase: CentralPhase,
    /// How many workers have been created so far.
    pub spawned: usize,
    /// The recorded handles: the centralized broker's first, then one per
    /// created worker, in spawn order.
    pub handles: Vec<u64>,
    /// How many recorded handles have been signaled during teardown.
    pub signaled: usize,
    /// How many recorded handles have been waited on.
    pub waited: usize,
    /// The handles signaled so far, in order: always a prefix of `handles`.
    pub signal_log: Ghost<Seq<u64>>,
    /// How many times the first-tier broker endpoint has been run.
    pub broker_runs: Ghost<nat>,
    /// How many centralized-broker processes have been created.
    pub central_spawns: Ghost<nat>,
}

/// The full contract of `CentralizedLauncher::launch` and
/// `CentralizedLauncher::launch_generic`.
pub open spec fn central_launch_post<CF, MF>(
    pre: CentralizedLauncher<CF, MF>,
    post: CentralizedLauncher<CF, MF>,
    debug_output: bool,
    r: Result<CentralizedSession<CF, MF>, LaunchError>,
) -> bool {
    match r {
        Result::Err(e) => {
            &&& post == pre
            &&& if pre.cores@.len() == 0 {
                e == LaunchError::EmptyCoreSet
            } else {
                &&& e == LaunchError::MissingClientCallback
                &&& (pre.secondary_run_client is None || pre.main_run_client is None)
            }
        },
        Result::Ok(s) => {
            &&& pre.cores@.len() > 0
            &&& pre.secondary_run_client is Some
            &&& pre.main_run_client is Some
            &&& post == (CentralizedLauncher {
                secondary_run_client: None::<CF>,
                main_run_client: None::<MF>,
                ..pre
            })
            &&& s.wf()
            &&& s.debug_output == debug_output
            &&& s.secondary_run_client == pre.secondary_run_client
            &&& s.main_run_client == pre.main_run_client
            &&& s.always_interesting == pre.always_interesting
            &&& s.broker_port == pre.broker_port
            &&& s.centralized_broker_port == pre.centralized_broker_port
            &&& s.cores@ == pre.cores@
            &&& opt_str_view(s.stdout_file) == opt_str_view(pre.stdout_file)
            &&& opt_str_view(s.stderr_file) == opt_str_view(pre.stderr_file)
            &&& s.launch_delay == pre.launch_delay
            &&& opt_str_view(s.remote_broker_addr) == opt_str_view(pre.remote_broker_addr)
            &&& s.spawn_broker == pre.spawn_broker
            &&& s.serialize_state == pre.serialize_state
            &&& s.phase is SpawnCentral
            &&& s.spawned == 0
            &&& s.handles@ == Seq::<u64>::empty()
            &&& s.signaled == 0
            &&& s.waited == 0
            &&& s.broker_runs@ == 0
            &&& s.central_spawns@ == 0
        },
    }
}

impl<CF, MF> CentralizedLauncher<CF, MF> {
    /// A two-tier launcher for `cores` with the given callbacks and the
    /// default ports, delay, broker and serialization settings.
    pub fn new(
        cores: CoreSet,
        secondary_run_client: Option<CF>,
        main_run_client: Option<MF>,
    ) -> (l: CentralizedLauncher<CF, MF>)
        ensures
            l.secondary_run_client == secondary_run_client,
            l.main_run_client == main_run_client,
            !l.always_interesting,
            l.broker_port == crate::session::DEFAULT_BROKER_PORT,
            l.centralized_broker_port == DEFAULT_CENTRALIZED_BROKER_PORT,
            l.cores@ == cores@,
            l.stdout_file is None,
            l.launch_delay == crate::session::DEFAULT_LAUNCH_DELAY_MS,
            l.stderr_file is None,
            l.remote_broker_addr is None,
            l.spawn_broker,
            l.serialize_state is OnRestart,
    {
        CentralizedLauncher {
            secondary_run_client,
            main_run_client,
            always_interesting: false,
            broker_port: crate::session::DEFAULT_BROKER_PORT,
            centralized_broker_port: DEFAULT_CENTRALIZED_BROKER_PORT,
            cores,
            stdout_file: None,
            launch_delay: crate::session::DEFAULT_LAUNCH_DELAY_MS,
            stderr_file: None,
            remote_broker_addr: None,
            spawn_broker: true,
            serialize_state: StatePersistence::OnRestart,
        }
    }

    /// Launch a standard two-tier fuzzer: validate, then open the session
    /// that stands the aggregation tier and the workers up.
    pub fn launch(&mut self, debug_output: bool) -> (r: Result<
        CentralizedSession<CF, MF>,
        LaunchError,
    >)
        requires
            old(self).cores.wf(),
            old(self).cores@.len() * old(self).launch_delay <= u64::MAX,
        ensures
            central_launch_post(*old(self), *final(self), debug_output, r),
    {
        self.launch_generic(debug_output)
    }

    /// Launch a two-tier fuzzer.  Validation comes first: an empty core set
    /// or a missing callback — secondary or main — is a configuration error,
    /// returned before any process is created.
    pub fn launch_generic(&mut self, debug_output: bool) -> (r: Result<
        CentralizedSession<CF, MF>,
        LaunchError,
    >)
        requires
            old(self).cores.wf(),
            old(self).cores@.len() * old(self).launch_delay <= u64::MAX,
        ensures
            central_launch_post(*old(self), *final(self), debug_output, r),
    {
        if self.cores.is_empty() {
            return Err(LaunchError::EmptyCoreSet);
        }
        if self.secondary_run_client.is_none() {
            return Err(LaunchError::MissingClientCallback);
        }
        if self.main_run_client.is_none() {
            return Err(LaunchError::MissingClientCallback);
        }
        let secondary = self.secondary_run_client.take();
        let main = self.main_run_client.take();
        let session = CentralizedSession {
            debug_output,
            secondary_run_client: secondary,
            main_run_client: main,
            always_interesting: self.always_interesting,
            broker_port: self.broker_port,
            centralized_broker_port: self.centralized_broker_port,
            cores: self.cores.duplicate(),
            stdout_file: clone_opt_string(&self.stdout_file),
            stderr_file: clone_opt_string(&self.stderr_file),
            launch_delay: self.launch_delay,
            remote_broker_addr: clone_opt_string(&self.remote_broker_addr),
            spawn_broker: self.spawn_broker,
            serialize_state: self.serialize_state,
            phase: CentralPhase::SpawnCentral,
            spawned: 0,
            handles: Vec::new(),
            signaled: 0,
            waited: 0,
            signal_log: Ghost(Seq::empty()),
            broker_runs: Ghost(0),
            central_spawns: Ghost(0),
        };
        proof {
            assert(session.handles@.take(0) =~= Seq::<u64>::empty());
        }
        Ok(session)
    }
}

impl<CF, MF> CentralizedSession<CF, MF> {
    /// The session invariant: phase-consistent counters, the centralized
    /// broker's handle recorded first, one worker handle per completed
    /// spawn, and the signal log a prefix of the handles.
    pub open spec fn wf(&self) -> bool {
        &&& self.cores.wf()
        &&& self.cores@.len() > 0
        &&& self.cores@.len() * self.launch_delay <= u64::MAX
        &&& self.spawned <= self.cores@.len()
        &&& self.signaled <= self.handles@.len()
        &&& self.waited <= self.handles@.len()
        &&& self.signal_log@ == self.handles@.take(self.signaled as int)
        &&& match self.phase {
            CentralPhase::SpawnCentral => {
                &&& self.spawned == 0
                &&& self.handles@.len() == 0
                &&& self.signaled == 0
                &&& self.waited == 0
                &&& self.secondary_run_client is Some
                &&& self.main_run_client is Some
                &&& self.broker_runs@ == 0
                &&& self.central_spawns@ == 0
            },
            CentralPhase::CentralPause => {
                &&& self.spawned == 0
                &&& self.handles@.len() == 1
                &&& self.signaled == 0
                &&& self.waited == 0
                &&& self.secondary_run_client is Some
                &&& self.main_run_client is Some
                &&& self.broker_runs@ == 0
                &&& self.central_spawns@ == 1
            },
            CentralPhase::Spawning => {
                &&& self.handles@.len() == self.spawned + 1
                &&& self.signaled == 0
                &&& self.waited == 0
                &&& self.secondary_run_client is Some
                &&& self.main_run_client is Some
                &&& self.broker_runs@ == 0
                &&& self.central_spawns@ == 1
            },
            CentralPhase::Brokering => {
                &&& self.spawn_broker
                &&& self.spawned == self.cores@.len()
                &&& self.handles@.len() == self.spawned + 1
                &&& self.signaled == 0
                &&& self.waited == 0
                &&& self.broker_runs@ == 0
                &&& self.central_spawns@ == 1
            },
            CentralPhase::Signaling => {
                &&& self.spawn_broker
                &&& self.spawned == self.cores@.len()
                &&& self.handles@.len() == self.spawned + 1
                &&& self.signaled < self.handles@.len()
                &&& self.waited == 0
                &&& self.broker_runs@ == 1
                &&& self.central_spawns@ == 1
            },
            CentralPhase::Waiting => {
                &&& !self.spawn_broker
                &&& self.spawned == self.cores@.len()
                &&& self.handles@.len() == self.spawned + 1
                &&& self.waited < self.handles@.len()
                &&& self.signaled == 0
                &&& self.broker_runs@ == 0
                &&& self.central_spawns@ == 1
            },
            CentralPhase::Done => {
                &&& self.spawned == self.cores@.len()
                &&& self.handles@.len() == self.spawned + 1
                &&& self.central_spawns@ == 1
                &&& (self.spawn_broker ==> self.broker_runs@ == 1 && self.signaled
                    == self.handles@.len() && self.signal_log@ == self.handles@ && self.waited
                    == 0)
                &&& (!self.spawn_broker ==> self.broker_runs@ == 0 && self.waited
                    == self.handles@.len() && self.signaled == 0)
            },
        }
    }

    /// The configuration half of the session never changes after launch.
    pub open spec fn same_config(a: Self, b: Self) -> bool {
        &&& b.debug_output == a.debug_output
        &&& b.secondary_run_client == a.secondary_run_client
        &&& b.main_run_client == a.main_run_client
        &&& b.always_interesting == a.always_interesting
        &&& b.broker_port == a.broker_port
        &&& b.centralized_broker_port == a.centralized_broker_port
        &&& b.cores@ == a.cores@
        &&& opt_str_view(b.stdout_file) == opt_str_view(a.stdout_file)
        &&& opt_str_view(b.stderr_file) == opt_str_view(a.stderr_file)
        &&& b.launch_delay == a.launch_delay
        &&& opt_str_view(b.remote_broker_addr) == opt_str_view(a.remote_broker_addr)
        &&& b.spawn_broker == a.spawn_broker
        &&& b.serialize_state == a.serialize_state
    }

    /// Whether the topology has reached its terminal state.
    pub fn is_done(&self) -> (b: bool)
        ensures
            b == (self.phase is Done),
    {
        match self.phase {
            CentralPhase::Done => true,
            _ => false,
        }
    }

    /// Records the centralized broker's spawn in the surviving parent: its
    /// handle is the first on the teardown list, so the broker-exit cascade
    /// reaches it too.
    pub fn record_central_spawned(&mut self, handle: u64)
        requires
            old(self).wf(),
            old(self).phase is SpawnCentral,
        ensures
            final(self).wf(),
            Self::same_config(*old(self), *final(self)),
            final(self).phase is CentralPause,
            final(self).spawned == 0,
            final(self).handles@ == old(self).handles@.push(handle),
            final(self).signaled == 0,
            final(self).waited == 0,
            final(self).broker_runs@ == 0,
            final(self).central_spawns@ == old(self).central_spawns@ + 1,
    {
        self.handles.push(handle);
        self.phase = CentralPhase::CentralPause;
        proof {
            self.central_spawns@ = self.central_spawns@ + 1;
            assert(old(self).handles@.take(0) =~= Seq::<u64>::empty());
            assert(self.handles@.take(0) =~= Seq::<u64>::empty());
        }
    }

    /// The duplicated process takes the session apart and becomes the
    /// centralized broker; this control flow never rejoins the topology.
    pub fn into_central_broker(self) -> (t: CentralBrokerTask)
        requires
            self.wf(),
            self.phase is SpawnCentral,
        ensures
            t.port == self.centralized_broker_port,
            t.loop_interval_secs == CENTRAL_LOOP_INTERVAL_SECS,
            t.poll_timeout_ms == CENTRAL_POLL_TIMEOUT_MS,
    {
        CentralBrokerTask {
            port: self.centralized_broker_port,
            loop_interval_secs: CENTRAL_LOOP_INTERVAL_SECS,
            poll_timeout_ms: CENTRAL_POLL_TIMEOUT_MS,
        }
    }

    /// How long the parent pauses before spawning workers, so the
    /// centralized broker can finish binding.
    pub fn pause_step(&self) -> (ms: u64)
        requires
            self.wf(),
            self.phase is CentralPause,
        ensures
            ms == CENTRAL_BIND_PAUSE_MS,
    {
        CENTRAL_BIND_PAUSE_MS
    }

    /// Records that the bind pause elapsed; worker creation begins.
    pub fn record_paused(&mut self)
        requires
            old(self).wf(),
            old(self).phase is CentralPause,
        ensures
            final(self).wf(),
            Self::same_config(*old(self), *final(self)),
            final(self).phase is Spawning,
            final(self).spawned == 0,
            final(self).handles@ == old(self).handles@,
            final(self).signaled == 0,
            final(self).waited == 0,
            final(self).broker_runs@ == 0,
            final(self).central_spawns@ == 1,
    {
        self.phase = CentralPhase::Spawning;
    }

    /// The next worker-creation step: which core, at which spawn position,
    /// with which stagger delay.
    pub fn spawn_step(&self) -> (st: SpawnStep)
        requires
            self.wf(),
            self.phase is Spawning,
            self.spawned < self.cores@.len(),
        ensures
            st.core == self.cores@[self.spawned as int],
            st.stagger_index == self.spawned + 1,
            st.delay_ms == (self.spawned + 1) * self.launch_delay,
            st.marker_value is None,
    {
        let n = self.cores.len();
        let core = self.cores.get(self.spawned);
        let stagger_index = self.spawned + 1;
        proof {
            assert(self.spawned < n);
            vstd::arithmetic::mul::lemma_mul_inequality(
                stagger_index as int,
                self.cores@.len() as int,
                self.launch_delay as int,
            );
        }
        let delay_ms = (stagger_index as u64) * self.launch_delay;
        SpawnStep {
            core,
            stagger_index,
            delay_ms,
            marker_value: None,
            child_stdio: ChildStdio::Inherit,
        }
    }

    /// Records a successful worker spawn in the surviving parent.
    pub fn record_spawned(&mut self, handle: u64)
        requires
            old(self).wf(),
            old(self).phase is Spawning,
            old(self).spawned < old(self).cores@.len(),
        ensures
            final(self).wf(),
            Self::same_config(*old(self), *final(self)),
            final(self).spawned == old(self).spawned + 1,
            final(self).handles@ == old(self).handles@.push(handle),
            final(self).signaled == 0,
            final(self).waited == 0,
            final(self).broker_runs@ == 0,
            final(self).central_spawns@ == 1,
            final(self).phase == (if old(self).spawned + 1 < old(self).cores@.len() {
                CentralPhase::Spawning
            } else if old(self).spawn_broker {
                CentralPhase::Brokering
            } else {
                CentralPhase::Waiting
            }),
    {
        let n = self.cores.len();
        self.handles.push(handle);
        self.spawned = self.spawned + 1;
        if self.spawned == n {
            if self.spawn_broker {
                self.phase = CentralPhase::Brokering;
            } else {
                self.phase = CentralPhase::Waiting;
            }
        }
        proof {
            assert(old(self).handles@.take(0) =~= Seq::<u64>::empty());
            assert(self.handles@.take(0) =~= Seq::<u64>::empty());
        }
    }

    /// The duplicated process takes the session apart and becomes the worker
    /// for the core the parent was spawning.  The first worker in spawn
    /// order — and only it — is classified main and holds authority in the
    /// aggregation adapter; every later worker is secondary.  The matching
    /// callback is moved out, so it can never run twice; this control flow
    /// never rejoins the topology.
    pub fn into_worker(self) -> (w: CentralWorkerRun<CF, MF>)
        requires
            self.wf(),
            self.phase is Spawning,
            self.spawned < self.cores@.len(),
        ensures
            w.is_main <==> self.spawned == 0,
            w.is_main ==> (w.duty matches CentralDuty::Main(m) && m
                == self.main_run_client->Some_0),
            !w.is_main ==> (w.duty matches CentralDuty::Secondary(c) && c
                == self.secondary_run_client->Some_0),
            w.role == (if self.spawned == 0 {
                Role::MainClient { core: w.core }
            } else {
                Role::SecondaryClient { core: w.core }
            }),
            w.core == self.cores@[self.spawned as int],
            w.stagger_index == self.spawned + 1,
            w.delay_ms == (self.spawned + 1) * self.launch_delay,
            targets_ok(
                w.redirect,
                self.debug_output,
                opt_str_view(self.stdout_file),
                opt_str_view(self.stderr_file),
            ),
            client_endpoint_ok(w.inner_endpoint, w.core, self.broker_port, self.serialize_state),
            w.centralized_port == self.centralized_broker_port,
            w.always_interesting == self.always_interesting,
    {
        let n = self.cores.len();
        let core = self.cores.get(self.spawned);
        let stagger_index = self.spawned + 1;
        proof {
            assert(self.spawned < n);
            vstd::arithmetic::mul::lemma_mul_inequality(
                stagger_index as int,
                self.cores@.len() as int,
                self.launch_delay as int,
            );
        }
        let delay_ms = (stagger_index as u64) * self.launch_delay;
        let redirect = resolve_redirection(self.debug_output, &self.stdout_file, &self.stderr_file);
        let inner_endpoint = EndpointSpec {
            role: Role::Client { core },
            port: self.broker_port,
            exit_after_clients: None,
            remote_broker_addr: None,
            serialize_state: self.serialize_state,
        };
        let is_main = self.spawned == 0;
        let (duty, role) = if is_main {
            (CentralDuty::Main(self.main_run_client.unwrap()), Role::MainClient { core })
        } else {
            (
                CentralDuty::Secondary(self.secondary_run_client.unwrap()),
                Role::SecondaryClient { core },
            )
        };
        CentralWorkerRun {
            duty,
            is_main,
            role,
            core,
            stagger_index,
            delay_ms,
            redirect,
            inner_endpoint,
            centralized_port: self.centralized_broker_port,
            always_interesting: self.always_interesting,
        }
    }

    /// The first-tier broker endpoint to run, configured to terminate on its
    /// own once exactly one client per requested core has disconnected.
    pub fn broker_step(&self) -> (b: BrokerTask<()>)
        requires
            self.wf(),
            self.phase is Brokering,
        ensures
            b.endpoint.role is Broker,
            b.endpoint.port == self.broker_port,
            b.endpoint.exit_after_clients == Some(self.cores@.len() as usize),
            opt_str_view(b.endpoint.remote_broker_addr) == opt_str_view(self.remote_broker_addr),
            b.endpoint.serialize_state == self.serialize_state,
    {
        let endpoint = EndpointSpec {
            role: Role::Broker,
            port: self.broker_port,
            exit_after_clients: Some(self.cores.len()),
            remote_broker_addr: clone_opt_string(&self.remote_broker_addr),
            serialize_state: self.serialize_state,
        };
        BrokerTask { endpoint, hooks: () }
    }

    /// The first-tier broker exited: the session turns to signaling every
    /// recorded handle, the centralized broker's included.
    pub fn broker_finished(&mut self)
        requires
            old(self).wf(),
            old(self).phase is Brokering,
        ensures
            final(self).wf(),
            Self::same_config(*old(self), *final(self)),
            final(self).phase is Signaling,
            final(self).spawned == old(self).spawned,
            final(self).handles@ == old(self).handles@,
            final(self).signaled == 0,
            final(self).waited == 0,
            final(self).broker_runs@ == old(self).broker_runs@ + 1,
            final(self).central_spawns@ == 1,
    {
        self.phase = CentralPhase::Signaling;
        proof {
            self.broker_runs@ = self.broker_runs@ + 1;
        }
    }

    /// The next still-recorded handle to interrupt.
    pub fn signal_step(&self) -> (h: u64)
        requires
            self.wf(),
            self.phase is Signaling,
        ensures
            h == self.handles@[self.signaled as int],
    {
        self.handles[self.signaled]
    }

    /// Records that the current handle was signaled; no handle is ever
    /// signaled twice, and a per-handle failure does not abort the others.
    pub fn record_signaled(&mut self)
        requires
            old(self).wf(),
            old(self).phase is Signaling,
        ensures
            final(self).wf(),
            Self::same_config(*old(self), *final(self)),
            final(self).spawned == old(self).spawned,
            final(self).handles@ == old(self).handles@,
            final(self).signaled == old(self).signaled + 1,
            final(self).waited == 0,
            final(self).broker_runs@ == 1,
            final(self).central_spawns@ == 1,
            final(self).signal_log@ == old(self).signal_log@.push(
                old(self).handles@[old(self).signaled as int],
            ),
            final(self).phase == (if old(self).signaled + 1 == old(self).handles@.len() {
                CentralPhase::Done
            } else {
                CentralPhase::Signaling
            }),
    {
        proof {
            assert(self.handles@.take(self.signaled + 1) =~= self.handles@.take(
                self.signaled as int,
            ).push(self.handles@[self.signaled as int]));
        }
        let n = self.handles.len();
        self.signal_log = Ghost(self.signal_log@.push(self.handles@[self.signaled as int]));
        self.signaled = self.signaled + 1;
        if self.signaled == n {
            self.phase = CentralPhase::Done;
            proof {
                assert(self.handles@.take(self.handles@.len() as int) =~= self.handles@);
            }
        }
    }

    /// The next recorded handle to wait on, when no first-tier broker was
    /// requested.
    pub fn wait_step(&self) -> (h: u64)
        requires
            self.wf(),
            self.phase is Waiting,
        ensures
            h == self.handles@[self.waited as int],
    {
        self.handles[self.waited]
    }

    /// Records that the current handle exited with `status`.  A non-zero
    /// status is reported, never treated as fatal.
    pub fn record_waited(&mut self, status: i32) -> (report: bool)
        requires
            old(self).wf(),
            old(self).phase is Waiting,
        ensures
            report == (status != 0),
            final(self).wf(),
            Self::same_config(*old(self), *final(self)),
            final(self).spawned == old(self).spawned,
            final(self).handles@ == old(self).handles@,
            final(self).signaled == 0,
            final(self).waited == old(self).waited + 1,
            final(self).broker_runs@ == 0,
            final(self).central_spawns@ == 1,
            final(self).phase == (if old(self).waited + 1 == old(self).handles@.len() {
                CentralPhase::Done
            } else {
                CentralPhase::Waiting
            }),
    {
        let n = self.handles.len();
        self.waited = self.waited + 1;
        if self.waited == n {
            self.phase = CentralPhase::Done;
        }
        status != 0
    }
}

/// In a finished two-tier launch with a first-tier broker, exactly one
/// centralized-broker process and one first-tier broker endpoint existed in
/// addition to the one worker per core, and the broker-exit cascade signaled
/// every recorded handle — the centralized broker's included — exactly once,
/// in recording order.
pub proof fn lemma_two_tier_topology<CF, MF>(s: CentralizedSession<CF, MF>)
    requires
        s.wf(),
        s.phase is Done,
        s.spawn_broker,
    ensures
        s.central_spawns@ == 1,
        s.broker_runs@ == 1,
        s.spawned == s.cores@.len(),
        s.handles@.len() == s.cores@.len() + 1,
        s.signaled == s.handles@.len(),
        s.signal_log@ == s.handles@,
{
}

} // verus!
