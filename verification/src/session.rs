//! The single-tier topology: one broker and one worker per requested core.
//!
//! `Launcher::launch` validates the configuration and opens a
//! [`LaunchSession`]: a step-by-step account of the whole topology.  An
//! unverified driver performs each process-level action the session calls
//! for — duplicating the process or re-launching the executable, sleeping,
//! redirecting streams, running transport endpoints, signaling and reaping
//! children — and reports every outcome back, so that every decision (what
//! to spawn, in which order, with which delay, and how the cluster is torn
//! down) is taken here, under contract.
//!
//! The point where the running process is duplicated is a first-class branch:
//! in the surviving parent the driver records the child's handle with
//! [`LaunchSession::record_spawned`]; in the new child it consumes the
//! session with [`LaunchSession::into_worker`] and never returns to the
//! topology's control flow.

use vstd::prelude::*;

use crate::core_set::CoreSet;
use crate::error::LaunchError;
use crate::marker::{core_marker_value, dec_rep, dec_value, is_core_marker, parse_core_marker};
use crate::redirect::{
    child_stdio, opt_str_view, resolve_redirection, targets_ok, ChildStdio, StreamTargets,
};
use crate::role::{EndpointSpec, Role, SpawnStrategy, StatePersistence};

verus! {

/// The default first-tier broker port.
pub const DEFAULT_BROKER_PORT: u16 = 1337;

/// The default delay, in milliseconds, between two child launches.
pub const DEFAULT_LAUNCH_DELAY_MS: u64 = 10;

/// What the launching process found in its environment.
pub struct EnvReport {
    /// Whether the debug-output override variable is set.
    pub debug_output: bool,
    /// The value of the core-marker variable, if it is set.
    pub client_marker: Option<String>,
}

/// Launches a fuzzing run on a specified list of cores: a broker process and
/// one worker process per core, wired through a message transport.
///
/// `C` is the one-shot client callback the driver runs in each worker; the
/// library moves it out of the configuration exactly once.
#[derive(Debug)]
pub struct Launcher<C> {
    /// The one-shot callback each worker runs; consumed when a process
    /// resolves that it is a worker.
    pub run_client: Option<C>,
    /// The broker port to use, or to attach to when `spawn_broker` is false.
    pub broker_port: u16,
    /// The cores to bind one worker each to.
    pub cores: CoreSet,
    /// A file all worker standard output is redirected to.
    pub stdout_file: Option<String>,
    /// The delay, in milliseconds, between two child launches.
    pub launch_delay: u64,
    /// A file all worker standard error is redirected to; when unset, worker
    /// standard error goes to `stdout_file`.
    pub stderr_file: Option<String>,
    /// The address of another broker to connect the new broker to, for
    /// multi-machine clusters.
    pub remote_broker_addr: Option<String>,
    /// Whether this invocation spawns the broker; opt out when another
    /// launcher on this machine already runs one.
    pub spawn_broker: bool,
    /// When worker state is serialized across restarts.
    pub serialize_state: StatePersistence,
}

/// The phase a parent-side launch session is in.
#[derive(Debug, Clone, Copy, PartialEq, Eq, Structural)]
pub enum Phase {
    /// Re-exec parent, before anything else: redirect our own streams so
    /// children can inherit them.
    ParentRedirect,
    /// Creating one worker per core, in increasing core order.
    Spawning,
    /// Running the broker endpoint; blocks for the campaign's duration.
    Brokering,
    /// The broker finished: interrupting every recorded handle, each once.
    Signaling,
    /// No broker was requested: waiting for every recorded handle to exit.
    Waiting,
    /// The topology reached its terminal state.
    Done,
}

/// One worker-creation step, as the driver must perform it.
pub struct SpawnStep {
    /// The core the new worker is bound to.
    pub core: usize,
    /// The worker's position in spawn order, starting at 1.
    pub stagger_index: usize,
    /// The stagger delay for this worker: `stagger_index × launch_delay`.
    /// Under native duplication the child sleeps this long before
    /// connecting; under re-exec the parent sleeps before spawning.
    pub delay_ms: u64,
    /// Re-exec only: the marker value to set in the child's environment.
    pub marker_value: Option<String>,
    /// Re-exec only: how the child's standard streams are set up.
    pub child_stdio: ChildStdio,
}

/// Everything a worker process must do once its role is resolved: sleep its
/// stagger delay, apply the redirection, build the client endpoint, and run
/// the callback with the endpoint and restored state — then exit with the
/// callback's result, never returning to the topology's control flow.
pub struct WorkerRun<C, H> {
    /// The one-shot callback to run.
    pub callback: C,
    /// The event-manager hooks to install on the endpoint.
    pub hooks: H,
    /// The core this worker is bound to.
    pub core: usize,
    /// The worker's position in spawn order, starting at 1; 0 for a
    /// re-executed worker, whose launch the parent already staggered.
    pub stagger_index: usize,
    /// How long to sleep before connecting to the broker.
    pub delay_ms: u64,
    /// Where this worker's standard streams go.
    pub redirect: StreamTargets,
    /// The client endpoint to build.
    pub endpoint: EndpointSpec,
}

/// The broker endpoint the parent runs; the call blocks until the broker
/// exits, which is the authoritative shutdown trigger for the topology.
pub struct BrokerTask<H> {
    /// The broker endpoint to build, with its auto-termination quota.
    pub endpoint: EndpointSpec,
    /// The event-manager hooks to install on the endpoint.
    pub hooks: H,
}

/// What a launch invocation resolved this process to be.
pub enum LaunchOutcome<C, H> {
    /// This process orchestrates the topology.
    Parent(LaunchSession<C, H>),
    /// This process is a re-executed worker: run the duty and exit.
    Worker(WorkerRun<C, H>),
}

/// A validated, running launch: the parent's step-by-step account of the
/// topology.  The driver asks for the next step, performs it, and records
/// the outcome; the phase and the recorded handles evolve under `wf`.
pub struct LaunchSession<C, H> {
    /// How workers are created.
    pub strategy: SpawnStrategy,
    /// Whether the debug-output override disables all redirection.
    pub debug_output: bool,
    /// The client callback, still unconsumed on the parent's side.
    pub run_client: Option<C>,
    /// The event-manager hooks handed to every endpoint.
    pub hooks: H,
    /// The broker port.
    pub broker_port: u16,
    /// The cores to bind one worker each to.
    pub cores: CoreSet,
    /// The configured worker standard-output file.
    pub stdout_file: Option<String>,
    /// The configured worker standard-error file.
    pub stderr_file: Option<String>,
    /// The delay, in milliseconds, between two child launches.
    pub launch_delay: u64,
    /// The remote broker to join, if any.
    pub remote_broker_addr: Option<String>,
    /// Whether this invocation runs the broker.
    pub spawn_broker: bool,
    /// When worker state is serialized across restarts.
    pub serialize_state: StatePersistence,
    /// The current phase.
    pub phase: Phase,
    /// How many workers have been created so far.
    pub spawned: usize,
    /// The recorded handles of the created children, in spawn order.
    pub handles: Vec<u64>,
    /// How many recorded handles have been signaled during teardown.
    pub signaled: usize,
    /// How many recorded handles have been waited on.
    pub waited: usize,
    /// The handles signaled so far, in order: always a prefix of `handles`.
    pub signal_log: Ghost<Seq<u64>>,
    /// How many times the broker endpoint has been run: never more than once.
    pub broker_runs: Ghost<nat>,
}

/// What a correctly built client endpoint looks like.
pub open spec fn client_endpoint_ok(
    e: EndpointSpec,
    core: usize,
    port: u16,
    serialize_state: StatePersistence,
) -> bool {
    &&& e.role == (Role::Client { core })
    &&& e.port == port
    &&& e.exit_after_clients is None
    &&& e.remote_broker_addr is None
    &&& e.serialize_state == serialize_state
}

/// The full contract of `Launcher::launch` and `Launcher::launch_with_hooks`:
/// how the configuration, the chosen strategy and the environment determine
/// the error or the outcome.
pub open spec fn launch_post<C, H>(
    pre: Launcher<C>,
    post: Launcher<C>,
    hooks: H,
    strategy: SpawnStrategy,
    env: EnvReport,
    r: Result<LaunchOutcome<C, H>, LaunchError>,
) -> bool {
    match r {
        Result::Err(e) => {
            &&& post == pre
            &&& if pre.cores@.len() == 0 {
                e == LaunchError::EmptyCoreSet
            } else if pre.run_client is None {
                e == LaunchError::MissingClientCallback
            } else {
                &&& e == LaunchError::MalformedEnvMarker
                &&& strategy is ReExec
                &&& env.client_marker matches Some(m) && !is_core_marker(m@)
            }
        },
        Result::Ok(outcome) => {
            &&& pre.cores@.len() > 0
            &&& pre.run_client is Some
            &&& post == (Launcher { run_client: None::<C>, ..pre })
            &&& match outcome {
                LaunchOutcome::Worker(w) => {
                    &&& strategy is ReExec
                    &&& env.client_marker matches Some(m) && is_core_marker(m@) && w.core
                        == dec_value(m@)
                    &&& w.callback == pre.run_client->Some_0
                    &&& w.hooks == hooks
                    &&& w.stagger_index == 0
                    &&& w.delay_ms == 0
                    &&& w.redirect is Untouched
                    &&& client_endpoint_ok(w.endpoint, w.core, pre.broker_port, pre.serialize_state)
                },
                LaunchOutcome::Parent(s) => {
                    &&& (strategy is ReExec ==> env.client_marker is None)
                    &&& s.wf()
                    &&& s.strategy == strategy
                    &&& s.debug_output == env.debug_output
                    &&& s.run_client == pre.run_client
                    &&& s.hooks == hooks
                    &&& s.broker_port == pre.broker_port
                    &&& s.cores@ == pre.cores@
                    &&& opt_str_view(s.stdout_file) == opt_str_view(pre.stdout_file)
                    &&& opt_str_view(s.stderr_file) == opt_str_view(pre.stderr_file)
                    &&& s.launch_delay == pre.launch_delay
                    &&& opt_str_view(s.remote_broker_addr) == opt_str_view(pre.remote_broker_addr)
                    &&& s.spawn_broker == pre.spawn_broker
                    &&& s.serialize_state == pre.serialize_state
                    &&& s.phase == (if strategy is ReExec {
                        Phase::ParentRedirect
                    } else {
                        Phase::Spawning
                    })
                    &&& s.spawned == 0
                    &&& s.handles@ == Seq::<u64>::empty()
                    &&& s.signaled == 0
                    &&& s.waited == 0
                    &&& s.broker_runs@ == 0
                },
            }
        },
    }
}

/// Copies an optional path.
pub(crate) fn clone_opt_string(o: &Option<String>) -> (r: Option<String>)
    ensures
        opt_str_view(r) == opt_str_view(*o),
{
    match o {
        Some(s) => Some(s.clone()),
        None => None,
    }
}

impl<C> Launcher<C> {
    /// A launcher for `cores` with the given client callback and the default
    /// port, delay, broker and serialization settings.
    pub fn new(cores: CoreSet, run_client: Option<C>) -> (l: Launcher<C>)
        ensures
            l.run_client == run_client,
            l.broker_port == DEFAULT_BROKER_PORT,
            l.cores@ == cores@,
            l.stdout_file is None,
            l.launch_delay == DEFAULT_LAUNCH_DELAY_MS,
            l.stderr_file is None,
            l.remote_broker_addr is None,
            l.spawn_broker,
            l.serialize_state is OnRestart,
    {
        Launcher {
            run_client,
            broker_port: DEFAULT_BROKER_PORT,
            cores,
            stdout_file: None,
            launch_delay: DEFAULT_LAUNCH_DELAY_MS,
            stderr_file: None,
            remote_broker_addr: None,
            spawn_broker: true,
            serialize_state: StatePersistence::OnRestart,
        }
    }

    /// Launch the broker and the clients, with no extra hooks.
    pub fn launch(&mut self, strategy: SpawnStrategy, env: EnvReport) -> (r: Result<
        LaunchOutcome<C, ()>,
        LaunchError,
    >)
        requires
            old(self).cores.wf(),
            old(self).cores@.len() * old(self).launch_delay <= u64::MAX,
        ensures
            launch_post(*old(self), *final(self), (), strategy, env, r),
    {
        self.launch_with_hooks((), strategy, env)
    }

    /// Launch the broker and the clients, installing `hooks` on every
    /// endpoint.
    ///
    /// Validation comes first: an empty core set or a missing callback is a
    /// configuration error, returned before any process is created.  Under
    /// the re-exec strategy a present environment marker resolves this very
    /// process into a worker (a malformed marker is fatal); otherwise the
    /// caller receives the parent-side session to drive.
    pub fn launch_with_hooks<H>(
        &mut self,
        hooks: H,
        strategy: SpawnStrategy,
        env: EnvReport,
    ) -> (r: Result<LaunchOutcome<C, H>, LaunchError>)
        requires
            old(self).cores.wf(),
            old(self).cores@.len() * old(self).launch_delay <= u64::MAX,
        ensures
            launch_post(*old(self), *final(self), hooks, strategy, env, r),
    {
        if self.cores.is_empty() {
            return Err(LaunchError::EmptyCoreSet);
        }
        if self.run_client.is_none() {
            return Err(LaunchError::MissingClientCallback);
        }
        let is_reexec = match strategy {
            SpawnStrategy::ReExec => true,
            SpawnStrategy::NativeDuplication => false,
        };
        if is_reexec {
            if let Some(m) = &env.client_marker {
                let core = match parse_core_marker(m.as_str()) {
                    Ok(core) => core,
                    Err(e) => {
                        return Err(e);
                    },
                };
                let callback = self.run_client.take().unwrap();
                let endpoint = EndpointSpec {
                    role: Role::Client { core },
                    port: self.broker_port,
                    exit_after_clients: None,
                    remote_broker_addr: None,
                    serialize_state: self.serialize_state,
                };
                return Ok(
                    LaunchOutcome::Worker(
                        WorkerRun {
                            callback,
                            hooks,
                            core,
                            stagger_index: 0,
                            delay_ms: 0,
                            redirect: StreamTargets::Untouched,
                            endpoint,
                        },
                    ),
                );
            }
        }
        let callback = self.run_client.take();
        let session = LaunchSession {
            strategy,
            debug_output: env.debug_output,
            run_client: callback,
            hooks,
            broker_port: self.broker_port,
            cores: self.cores.duplicate(),
            stdout_file: clone_opt_string(&self.stdout_file),
            stderr_file: clone_opt_string(&self.stderr_file),
            launch_delay: self.launch_delay,
            remote_broker_addr: clone_opt_string(&self.remote_broker_addr),
            spawn_broker: self.spawn_broker,
            serialize_state: self.serialize_state,
            phase: if is_reexec {
                Phase::ParentRedirect
            } else {
                Phase::Spawning
            },
            spawned: 0,
            handles: Vec::new(),
            signaled: 0,
            waited: 0,
            signal_log: Ghost(Seq::empty()),
            broker_runs: Ghost(0),
        };
        proof {
            assert(session.handles@.take(0) =~= Seq::<u64>::empty());
        }
        Ok(LaunchOutcome::Parent(session))
    }
}

impl<C, H> LaunchSession<C, H> {
    /// The session invariant: phase-consistent counters, handles recorded
    /// one per completed spawn, and the signal log a prefix of the handles.
    pub open spec fn wf(&self) -> bool {
        &&& self.cores.wf()
        &&& self.cores@.len() > 0
        &&& self.cores@.len() * self.launch_delay <= u64::MAX
        &&& self.spawned <= self.cores@.len()
        &&& self.handles@.len() == self.spawned
        &&& self.signaled <= self.handles@.len()
        &&& self.waited <= self.handles@.len()
        &&& self.signal_log@ == self.handles@.take(self.signaled as int)
        &&& match self.phase {
            Phase::ParentRedirect => {
                &&& self.strategy is ReExec
                &&& self.spawned == 0
                &&& self.signaled == 0
                &&& self.waited == 0
                &&& self.run_client is Some
                &&& self.broker_runs@ == 0
            },
            Phase::Spawning => {
                &&& self.run_client is Some
                &&& self.signaled == 0
                &&& self.waited == 0
                &&& self.broker_runs@ == 0
            },
            Phase::Brokering => {
                &&& self.spawn_broker
                &&& self.spawned == self.cores@.len()
                &&& self.signaled == 0
                &&& self.waited == 0
                &&& self.broker_runs@ == 0
            },
            Phase::Signaling => {
                &&& self.spawn_broker
                &&& self.spawned == self.cores@.len()
                &&& self.signaled < self.handles@.len()
                &&& self.waited == 0
                &&& self.broker_runs@ == 1
            },
            Phase::Waiting => {
                &&& !self.spawn_broker
                &&& self.spawned == self.cores@.len()
                &&& self.waited < self.handles@.len()
                &&& self.signaled == 0
                &&& self.broker_runs@ == 0
            },
            Phase::Done => {
                &&& self.spawned == self.cores@.len()
                &&& (self.spawn_broker ==> self.broker_runs@ == 1 && self.signaled
                    == self.handles@.len() && self.signal_log@ == self.handles@ && self.waited
                    == 0)
                &&& (!self.spawn_broker ==> self.broker_runs@ == 0 && self.waited
                    == self.handles@.len() && self.signaled == 0)
            },
        }
    }

    /// The configuration half of the session never changes after launch.
    pub open spec fn same_config(a: Self, b: Self) -> bool {
        &&& b.strategy == a.strategy
        &&& b.debug_output == a.debug_output
        &&& b.run_client == a.run_client
        &&& b.hooks == a.hooks
        &&& b.broker_port == a.broker_port
        &&& b.cores@ == a.cores@
        &&& opt_str_view(b.stdout_file) == opt_str_view(a.stdout_file)
        &&& opt_str_view(b.stderr_file) == opt_str_view(a.stderr_file)
        &&& b.launch_delay == a.launch_delay
        &&& opt_str_view(b.remote_broker_addr) == opt_str_view(a.remote_broker_addr)
        &&& b.spawn_broker == a.spawn_broker
        &&& b.serialize_state == a.serialize_state
    }

    /// Whether the topology has reached its terminal state.
    pub fn is_done(&self) -> (b: bool)
        ensures
            b == (self.phase is Done),
    {
        match self.phase {
            Phase::Done => true,
            _ => false,
        }
    }

    /// Re-exec parent only: how to redirect this very process's streams, so
    /// that children spawned afterwards can inherit them.  Performing the
    /// returned redirection moves the session on to spawning.
    pub fn parent_redirect(&mut self) -> (t: StreamTargets)
        requires
            old(self).wf(),
            old(self).phase is ParentRedirect,
        ensures
            final(self).wf(),
            Self::same_config(*old(self), *final(self)),
            final(self).phase is Spawning,
            final(self).spawned == 0,
            final(self).handles@ == old(self).handles@,
            final(self).signaled == 0,
            final(self).waited == 0,
            final(self).broker_runs@ == 0,
            targets_ok(
                t,
                old(self).debug_output,
                opt_str_view(old(self).stdout_file),
                opt_str_view(old(self).stderr_file),
            ),
    {
        let t = resolve_redirection(self.debug_output, &self.stdout_file, &self.stderr_file);
        self.phase = Phase::Spawning;
        t
    }

    /// The next worker-creation step: which core, at which spawn position,
    /// with which stagger delay, and — under re-exec — with which marker
    /// value and child stream setup.
    pub fn spawn_step(&self) -> (st: SpawnStep)
        requires
            self.wf(),
            self.phase is Spawning,
            self.spawned < self.cores@.len(),
        ensures
            st.core == self.cores@[self.spawned as int],
            st.stagger_index == self.spawned + 1,
            st.delay_ms == (self.spawned + 1) * self.launch_delay,
            self.strategy is NativeDuplication ==> st.marker_value is None,
            self.strategy is ReExec ==> (st.marker_value matches Some(m) && m@ == dec_rep(
                st.core as nat,
            )),
            self.strategy is ReExec ==> (st.child_stdio is Inherit <==> (self.debug_output
                || self.stdout_file is Some || self.stderr_file is Some)),
    {
        let n = self.cores.len();
        let core = self.cores.get(self.spawned);
        let stagger_index = self.spawned + 1;
        proof {
            assert(self.spawned < n);
            vstd::arithmetic::mul::lemma_mul_inequality(
                stagger_index as int,
                self.cores@.len() as int,
                self.launch_delay as int,
            );
        }
        let delay_ms = (stagger_index as u64) * self.launch_delay;
        let (marker_value, stdio) = match self.strategy {
            SpawnStrategy::NativeDuplication => (None, ChildStdio::Inherit),
            SpawnStrategy::ReExec => (
                Some(core_marker_value(core)),
                child_stdio(self.debug_output, &self.stdout_file, &self.stderr_file),
            ),
        };
        SpawnStep { core, stagger_index, delay_ms, marker_value, child_stdio: stdio }
    }

    /// Records a successful spawn in the surviving parent: the handle joins
    /// the teardown list, and once every core has its worker the session
    /// moves on to the broker or to waiting.
    pub fn record_spawned(&mut self, handle: u64)
        requires
            old(self).wf(),
            old(self).phase is Spawning,
            old(self).spawned < old(self).cores@.len(),
        ensures
            final(self).wf(),
            Self::same_config(*old(self), *final(self)),
            final(self).spawned == old(self).spawned + 1,
            final(self).handles@ == old(self).handles@.push(handle),
            final(self).signaled == 0,
            final(self).waited == 0,
            final(self).broker_runs@ == 0,
            final(self).phase == (if old(self).spawned + 1 < old(self).cores@.len() {
                Phase::Spawning
            } else if old(self).spawn_broker {
                Phase::Brokering
            } else {
                Phase::Waiting
            }),
    {
        let n = self.cores.len();
        self.handles.push(handle);
        self.spawned = self.spawned + 1;
        if self.spawned == n {
            if self.spawn_broker {
                self.phase = Phase::Brokering;
            } else {
                self.phase = Phase::Waiting;
            }
        }
        proof {
            assert(old(self).handles@.take(0) =~= Seq::<u64>::empty());
            assert(self.handles@.take(0) =~= Seq::<u64>::empty());
        }
    }

    /// Native duplication only: the duplicated process takes the session
    /// apart and becomes the worker for the core the parent was spawning.
    /// The callback is moved out, so it can never run twice; the duty's
    /// result is the process's exit — this control flow never rejoins the
    /// topology.
    pub fn into_worker(self) -> (w: WorkerRun<C, H>)
        requires
            self.wf(),
            self.phase is Spawning,
            self.spawned < self.cores@.len(),
            self.strategy is NativeDuplication,
        ensures
            w.core == self.cores@[self.spawned as int],
            w.stagger_index == self.spawned + 1,
            w.delay_ms == (self.spawned + 1) * self.launch_delay,
            targets_ok(
                w.redirect,
                self.debug_output,
                opt_str_view(self.stdout_file),
                opt_str_view(self.stderr_file),
            ),
            client_endpoint_ok(w.endpoint, w.core, self.broker_port, self.serialize_state),
            w.callback == self.run_client->Some_0,
            w.hooks == self.hooks,
    {
        let n = self.cores.len();
        let core = self.cores.get(self.spawned);
        let stagger_index = self.spawned + 1;
        proof {
            assert(self.spawned < n);
            vstd::arithmetic::mul::lemma_mul_inequality(
                stagger_index as int,
                self.cores@.len() as int,
                self.launch_delay as int,
            );
        }
        let delay_ms = (stagger_index as u64) * self.launch_delay;
        let redirect = resolve_redirection(self.debug_output, &self.stdout_file, &self.stderr_file);
        let endpoint = EndpointSpec {
            role: Role::Client { core },
            port: self.broker_port,
            exit_after_clients: None,
            remote_broker_addr: None,
            serialize_state: self.serialize_state,
        };
        let callback = self.run_client.unwrap();
        WorkerRun {
            callback,
            hooks: self.hooks,
            core,
            stagger_index,
            delay_ms,
            redirect,
            endpoint,
        }
    }

    /// The broker endpoint to run, configured to terminate on its own once
    /// exactly one client per requested core has disconnected.  The call
    /// blocks for the life of the campaign; report its return with
    /// [`LaunchSession::broker_finished`].
    pub fn broker_step(&self) -> (b: BrokerTask<H>) where H: Copy
        requires
            self.wf(),
            self.phase is Brokering,
        ensures
            b.endpoint.role is Broker,
            b.endpoint.port == self.broker_port,
            b.endpoint.exit_after_clients == Some(self.cores@.len() as usize),
            opt_str_view(b.endpoint.remote_broker_addr) == opt_str_view(self.remote_broker_addr),
            b.endpoint.serialize_state == self.serialize_state,
            b.hooks == self.hooks,
    {
        let endpoint = EndpointSpec {
            role: Role::Broker,
            port: self.broker_port,
            exit_after_clients: Some(self.cores.len()),
            remote_broker_addr: clone_opt_string(&self.remote_broker_addr),
            serialize_state: self.serialize_state,
        };
        BrokerTask { endpoint, hooks: self.hooks }
    }

    /// The broker exited: its completion is the authoritative shutdown
    /// trigger, so the session turns to signaling every recorded handle.
    pub fn broker_finished(&mut self)
        requires
            old(self).wf(),
            old(self).phase is Brokering,
        ensures
            final(self).wf(),
            Self::same_config(*old(self), *final(self)),
            final(self).phase is Signaling,
            final(self).spawned == old(self).spawned,
            final(self).handles@ == old(self).handles@,
            final(self).signaled == 0,
            final(self).waited == 0,
            final(self).broker_runs@ == old(self).broker_runs@ + 1,
    {
        self.phase = Phase::Signaling;
        proof {
            self.broker_runs@ = self.broker_runs@ + 1;
        }
    }

    /// The next still-recorded handle to interrupt.
    pub fn signal_step(&self) -> (h: u64)
        requires
            self.wf(),
            self.phase is Signaling,
        ensures
            h == self.handles@[self.signaled as int],
    {
        self.handles[self.signaled]
    }

    /// Records that the current handle was signaled.  Failure to signal one
    /// child is reported by the driver per handle and does not abort the
    /// shutdown of the others, so the session advances either way; no handle
    /// is ever signaled twice.
    pub fn record_signaled(&mut self)
        requires
            old(self).wf(),
            old(self).phase is Signaling,
        ensures
            final(self).wf(),
            Self::same_config(*old(self), *final(self)),
            final(self).spawned == old(self).spawned,
            final(self).handles@ == old(self).handles@,
            final(self).signaled == old(self).signaled + 1,
            final(self).waited == 0,
            final(self).broker_runs@ == 1,
            final(self).signal_log@ == old(self).signal_log@.push(
                old(self).handles@[old(self).signaled as int],
            ),
            final(self).phase == (if old(self).signaled + 1 == old(self).handles@.len() {
                Phase::Done
            } else {
                Phase::Signaling
            }),
    {
        proof {
            assert(self.handles@.take(self.signaled + 1) =~= self.handles@.take(
                self.signaled as int,
            ).push(self.handles@[self.signaled as int]));
        }
        self.signal_log = Ghost(self.signal_log@.push(self.handles@[self.signaled as int]));
        self.signaled = self.signaled + 1;
        if self.signaled == self.handles.len() {
            self.phase = Phase::Done;
            proof {
                assert(self.handles@.take(self.handles@.len() as int) =~= self.handles@);
            }
        }
    }

    /// The next recorded handle to wait on, when no broker was requested.
    pub fn wait_step(&self) -> (h: u64)
        requires
            self.wf(),
            self.phase is Waiting,
        ensures
            h == self.handles@[self.waited as int],
    {
        self.handles[self.waited]
    }

    /// Records that the current handle exited with `status`.  A non-zero
    /// status is reported, never treated as fatal: the result says whether
    /// the driver should report it, and the session advances regardless.
    pub fn record_waited(&mut self, status: i32) -> (report: bool)
        requires
            old(self).wf(),
            old(self).phase is Waiting,
        ensures
            report == (status != 0),
            final(self).wf(),
            Self::same_config(*old(self), *final(self)),
            final(self).spawned == old(self).spawned,
            final(self).handles@ == old(self).handles@,
            final(self).signaled == 0,
            final(self).waited == old(self).waited + 1,
            final(self).broker_runs@ == 0,
            final(self).phase == (if old(self).waited + 1 == old(self).handles@.len() {
                Phase::Done
            } else {
                Phase::Waiting
            }),
    {
        self.waited = self.waited + 1;
        if self.waited == self.handles.len() {
            self.phase = Phase::Done;
        }
        status != 0
    }
}

/// With a broker requested, a finished launch ran the broker endpoint
/// exactly once, created exactly one worker per requested core, and — the
/// broker's completion being the shutdown trigger — signaled every recorded
/// handle exactly once, in recording order, with none missed and none
/// signaled twice.
pub proof fn lemma_broker_shutdown_cascade<C, H>(s: LaunchSession<C, H>)
    requires
        s.wf(),
        s.phase is Done,
        s.spawn_broker,
    ensures
        s.broker_runs@ == 1,
        s.spawned == s.cores@.len(),
        s.handles@.len() == s.cores@.len(),
        s.signaled == s.handles@.len(),
        s.signal_log@ == s.handles@,
{
}

/// With the broker opted out, a finished launch never ran a broker endpoint
/// and waited on every recorded handle, whatever each exit status was.
pub proof fn lemma_opt_out_waits_for_all<C, H>(s: LaunchSession<C, H>)
    requires
        s.wf(),
        s.phase is Done,
        !s.spawn_broker,
    ensures
        s.broker_runs@ == 0,
        s.signaled == 0,
        s.waited == s.handles@.len(),
        s.handles@.len() == s.cores@.len(),
{
}

/// Broker completion strictly precedes client termination signaling: a
/// session that is signaling has already run the broker — exactly once —
/// and had created every worker before the broker ran.
pub proof fn lemma_signaling_follows_broker<C, H>(s: LaunchSession<C, H>)
    requires
        s.wf(),
        s.phase is Signaling,
    ensures
        s.broker_runs@ == 1,
        s.spawned == s.cores@.len(),
        s.waited == 0,
{
}

/// Workers are spawned in increasing core-identifier order: the core of an
/// earlier spawn position is always smaller.
pub proof fn lemma_spawn_order<C, H>(s: LaunchSession<C, H>, i: int, j: int)
    requires
        s.wf(),
        0 <= i < j < s.cores@.len(),
    ensures
        s.cores@[i] < s.cores@[j],
{
}

} // verus!
