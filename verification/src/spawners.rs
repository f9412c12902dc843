//! Presets of the shared runtimes, each tuned for one kind of work.

use vstd::prelude::*;
use tokio::runtime::Builder;

verus! {

#[verifier::external_type_specification]
#[verifier::external_body]
pub struct ExBuilder(tokio::runtime::Builder);

/// The kinds of work that the shared runtimes are tuned for.
#[derive(Clone, Copy, Debug, PartialEq, Eq, Structural)]
pub enum RuntimeKind {
    /// Network requests, async file I/O, timers: many lightweight workers.
    AsyncIo,
    /// Pure computation: exactly one worker per available CPU.
    Compute,
    /// Blocking I/O: a small worker pool and a large elastic blocking pool.
    SyncIo,
}

/// How a shared multi-threaded runtime is to be built.
#[derive(Clone, Copy, Debug, PartialEq, Eq, Structural)]
pub struct RuntimeConfig {
    pub kind: RuntimeKind,
    pub worker_threads: usize,
    pub enable_io: bool,
    pub enable_time: bool,
    /// `None` leaves Tokio's own limit on blocking threads in place.
    pub max_blocking_threads: Option<usize>,
}

impl RuntimeConfig {
    /// A configuration that the runtime builder accepts without panicking.
    pub open spec fn wf(self) -> bool {
        &&& self.worker_threads > 0
        &&& self.max_blocking_threads matches Some(n) ==> n > 0
    }
}

/// Workers of the async I/O runtime: the CPU count, but never fewer than four.
pub open spec fn async_io_workers(cpus: int) -> int {
    if cpus < 4 { 4 } else { cpus }
}

/// Workers of the sync I/O runtime.
pub const SYNC_IO_WORKERS: usize = 2;

/// Limit on the blocking threads of the sync I/O runtime.
pub const SYNC_IO_MAX_BLOCKING: usize = 512;

pub open spec fn spec_thread_name(kind: RuntimeKind) -> Seq<char> {
    match kind {
        RuntimeKind::AsyncIo => "multiruntime-streams-async-io"@,
        RuntimeKind::Compute => "multiruntime-streams-compute"@,
        RuntimeKind::SyncIo => "multiruntime-streams-sync-io"@,
    }
}

/// The name given to the worker threads of the runtime of `kind`.
pub fn thread_name(kind: RuntimeKind) -> (name: &'static str)
    ensures
        name@ == spec_thread_name(kind),
{
    match kind {
        RuntimeKind::AsyncIo => "multiruntime-streams-async-io",
        RuntimeKind::Compute => "multiruntime-streams-compute",
        RuntimeKind::SyncIo => "multiruntime-streams-sync-io",
    }
}

/// The preset of the runtime of `kind` on a machine with `cpus` CPUs.
pub open spec fn spec_preset(kind: RuntimeKind, cpus: usize) -> RuntimeConfig {
    match kind {
        RuntimeKind::AsyncIo => RuntimeConfig {
            kind,
            worker_threads: async_io_workers(cpus as int) as usize,
            enable_io: true,
            enable_time: true,
            max_blocking_threads: None,
        },
        RuntimeKind::Compute => RuntimeConfig {
            kind,
            worker_threads: cpus,
            enable_io: false,
            enable_time: false,
            max_blocking_threads: None,
        },
        RuntimeKind::SyncIo => RuntimeConfig {
            kind,
            worker_threads: SYNC_IO_WORKERS,
            enable_io: false,
            enable_time: false,
            max_blocking_threads: Some(SYNC_IO_MAX_BLOCKING),
        },
    }
}

/// The preset of the runtime of `kind` on a machine with `cpus` CPUs.
pub fn preset_config(kind: RuntimeKind, cpus: usize) -> (c: RuntimeConfig)
    ensures
        c == spec_preset(kind, cpus),
        c.kind == kind,
        kind == RuntimeKind::AsyncIo ==> {
            &&& c.worker_threads >= 4
            &&& c.worker_threads >= cpus
            &&& (c.worker_threads == 4 || c.worker_threads == cpus)
        },
        kind == RuntimeKind::Compute ==> c.worker_threads == cpus,
        kind == RuntimeKind::SyncIo ==> c.worker_threads == 2 && c.max_blocking_threads
            == Some(512usize),
{
    match kind {
        RuntimeKind::AsyncIo => {
            let workers: usize = if cpus < 4 { 4 } else { cpus };
            RuntimeConfig {
                kind,
                worker_threads: workers,
                enable_io: true,
                enable_time: true,
                max_blocking_threads: None,
            }
        },
        RuntimeKind::Compute => RuntimeConfig {
            kind,
            worker_threads: cpus,
            enable_io: false,
            enable_time: false,
            max_blocking_threads: None,
        },
        RuntimeKind::SyncIo => RuntimeConfig {
            kind,
            worker_threads: SYNC_IO_WORKERS,
            enable_io: false,
            enable_time: false,
            max_blocking_threads: Some(SYNC_IO_MAX_BLOCKING),
        },
    }
}

/// Wraps `num_cpus::get`, which reports the CPUs that this process may use
/// (scheduler affinity and cgroup quotas included). Its documentation promises
/// a result of at least one; which number comes back depends on the machine.
#[verifier::external_body]
fn available_cpus() -> (n: usize)
    ensures
        n >= 1,
{
    num_cpus::get()
}

/// The preset of the runtime of `kind` for this machine. The CPU count is
/// read from the machine, so the contract says only that some count of at
/// least one was used.
pub fn preset(kind: RuntimeKind) -> (c: RuntimeConfig)
    ensures
        exists|cpus: usize| cpus >= 1 && c == spec_preset(kind, cpus),
        c.wf(),
        c.kind == kind,
        kind == RuntimeKind::AsyncIo ==> c.worker_threads >= 4 && c.enable_io && c.enable_time,
        kind == RuntimeKind::SyncIo ==> c.worker_threads == 2 && c.max_blocking_threads
            == Some(512usize),
{
    let cpus = available_cpus();
    let c = preset_config(kind, cpus);
    proof {
        lemma_presets_well_formed(kind, cpus);
    }
    c
}

/// Every preset, on a machine with at least one CPU, is accepted by the
/// runtime builder.
pub proof fn lemma_presets_well_formed(kind: RuntimeKind, cpus: usize)
    requires
        cpus >= 1,
    ensures
        spec_preset(kind, cpus).wf(),
{
}

/// The async I/O runtime has at least four workers and at least one per CPU,
/// and no more than the larger of the two; the compute runtime has exactly one worker per CPU; the sync I/O runtime
/// has a small worker pool and a large blocking pool.
pub proof fn lemma_worker_counts(cpus: usize)
    ensures
        spec_preset(RuntimeKind::AsyncIo, cpus).worker_threads >= 4,
        spec_preset(RuntimeKind::AsyncIo, cpus).worker_threads >= cpus,
        spec_preset(RuntimeKind::AsyncIo, cpus).worker_threads == 4
            || spec_preset(RuntimeKind::AsyncIo, cpus).worker_threads == cpus,
        spec_preset(RuntimeKind::AsyncIo, cpus).worker_threads
            >= spec_preset(RuntimeKind::Compute, cpus).worker_threads,
        spec_preset(RuntimeKind::Compute, cpus).worker_threads == cpus,
        spec_preset(RuntimeKind::SyncIo, cpus).worker_threads == 2,
        spec_preset(RuntimeKind::SyncIo, cpus).max_blocking_threads == Some(512usize),
{
}

/// On any machine, the async I/O runtime has exactly as many workers as the
/// compute runtime, but at least four: with fewer than four CPUs it has four,
/// otherwise one per CPU.
pub proof fn lemma_async_io_workers_from_compute(cpus: usize)
    ensures
        cpus < 4 ==> spec_preset(RuntimeKind::AsyncIo, cpus).worker_threads == 4,
        cpus >= 4 ==> spec_preset(RuntimeKind::AsyncIo, cpus).worker_threads
            == spec_preset(RuntimeKind::Compute, cpus).worker_threads,
{
}

/// The async I/O runtime's worker count is the least count that is at least
/// four and at least one per CPU: any such count `w` is no smaller.
pub proof fn lemma_async_io_workers_least(cpus: usize, w: int)
    requires
        w >= 4,
        w >= cpus,
    ensures
        spec_preset(RuntimeKind::AsyncIo, cpus).worker_threads <= w,
{
}

/// Only the async I/O runtime drives I/O and timers.
pub proof fn lemma_only_async_io_has_drivers(kind: RuntimeKind, cpus: usize)
    ensures
        spec_preset(kind, cpus).enable_io <==> kind == RuntimeKind::AsyncIo,
        spec_preset(kind, cpus).enable_time <==> kind == RuntimeKind::AsyncIo,
{
}

/// The runtimes of different kinds name their threads differently.
pub proof fn lemma_thread_names_distinct(a: RuntimeKind, b: RuntimeKind)
    requires
        a != b,
    ensures
        spec_thread_name(a) != spec_thread_name(b),
{
    reveal_strlit("multiruntime-streams-async-io");
    reveal_strlit("multiruntime-streams-compute");
    reveal_strlit("multiruntime-streams-sync-io");
    assert(spec_thread_name(RuntimeKind::AsyncIo)[21] != spec_thread_name(RuntimeKind::Compute)[21]);
    assert(spec_thread_name(RuntimeKind::AsyncIo)[21] != spec_thread_name(RuntimeKind::SyncIo)[21]);
    assert(spec_thread_name(RuntimeKind::Compute)[21] != spec_thread_name(RuntimeKind::SyncIo)[21]);
}

/// What a Tokio runtime builder has been told, as far as the shared runtimes
/// use it.
pub struct BuilderSettings {
    /// The multi-threaded scheduler is selected.
    pub multi_thread: bool,
    /// `None` leaves Tokio's default (one worker per core).
    pub worker_threads: Option<usize>,
    pub thread_name: Seq<char>,
    pub enable_io: bool,
    pub enable_time: bool,
    pub max_blocking_threads: usize,
}

/// The settings of a fresh multi-threaded builder: Tokio's defaults.
pub open spec fn fresh_multi_thread_settings() -> BuilderSettings {
    BuilderSettings {
        multi_thread: true,
        worker_threads: None,
        thread_name: "tokio-rt-worker"@,
        enable_io: false,
        enable_time: false,
        max_blocking_threads: DEFAULT_MAX_BLOCKING,
    }
}

/// Tokio's limit on blocking threads where none is set.
pub const DEFAULT_MAX_BLOCKING: usize = 512;

/// The settings that a builder set up from `config` holds.
pub open spec fn expected_settings(config: RuntimeConfig) -> BuilderSettings {
    BuilderSettings {
        multi_thread: true,
        worker_threads: Some(config.worker_threads),
        thread_name: spec_thread_name(config.kind),
        enable_io: config.enable_io,
        enable_time: config.enable_time,
        max_blocking_threads: match config.max_blocking_threads {
            Some(n) => n,
            None => DEFAULT_MAX_BLOCKING,
        },
    }
}

/// A Tokio runtime builder together with what it has been told.
pub struct RuntimeBuilder {
    builder: Builder,
    settings: Ghost<BuilderSettings>,
}

impl RuntimeBuilder {
    /// What the builder has been told.
    pub closed spec fn settings(self) -> BuilderSettings {
        self.settings@
    }

    /// The Tokio builder that `settings` describes.
    pub closed spec fn builder(self) -> Builder {
        self.builder
    }

    /// The Tokio builder, ready to build the runtime. Building starts the
    /// runtime's threads and is left to the caller.
    pub fn into_builder(self) -> (b: Builder)
        ensures
            b == self.builder(),
    {
        self.builder
    }
}

/// Wraps `Builder::new_multi_thread`: a fresh builder of a multi-threaded
/// runtime, holding Tokio's defaults (no worker count set, threads named
/// "tokio-rt-worker", no I/O or time driver, at most 512 blocking threads).
#[verifier::external_body]
fn new_multi_thread_builder() -> (b: RuntimeBuilder)
    ensures
        b.settings() == fresh_multi_thread_settings(),
{
    RuntimeBuilder { builder: Builder::new_multi_thread(), settings: Ghost(arbitrary()) }
}

/// Wraps `Builder::worker_threads`, which panics on zero and otherwise sets
/// the worker count to `n`.
#[verifier::external_body]
fn set_worker_threads(b: &mut RuntimeBuilder, n: usize)
    requires
        n > 0,
    ensures
        final(b).settings() == (BuilderSettings { worker_threads: Some(n), ..old(b).settings() }),
{
    b.builder.worker_threads(n);
}

/// Wraps `Builder::max_blocking_threads`, which panics on zero and otherwise
/// sets the limit on blocking threads to `n`.
#[verifier::external_body]
fn set_max_blocking_threads(b: &mut RuntimeBuilder, n: usize)
    requires
        n > 0,
    ensures
        final(b).settings() == (BuilderSettings { max_blocking_threads: n, ..old(b).settings() }),
{
    b.builder.max_blocking_threads(n);
}

/// Wraps `Builder::thread_name`, which names the worker threads `name`.
#[verifier::external_body]
fn set_thread_name(b: &mut RuntimeBuilder, name: &str)
    ensures
        final(b).settings() == (BuilderSettings { thread_name: name@, ..old(b).settings() }),
{
    b.builder.thread_name(name);
}

/// Wraps `Builder::enable_io`, which turns the I/O driver on.
#[verifier::external_body]
fn set_enable_io(b: &mut RuntimeBuilder)
    ensures
        final(b).settings() == (BuilderSettings { enable_io: true, ..old(b).settings() }),
{
    b.builder.enable_io();
}

/// Wraps `Builder::enable_time`, which turns the time driver on.
#[verifier::external_body]
fn set_enable_time(b: &mut RuntimeBuilder)
    ensures
        final(b).settings() == (BuilderSettings { enable_time: true, ..old(b).settings() }),
{
    b.builder.enable_time();
}

/// A Tokio builder set up as `config` says: a multi-threaded runtime with the
/// configured worker count, the thread name of its kind, the configured
/// drivers, and the configured limit on blocking threads (Tokio's 512 where
/// none is configured).
pub fn runtime_builder(config: &RuntimeConfig) -> (b: RuntimeBuilder)
    requires
        config.wf(),
    ensures
        b.settings() == expected_settings(*config),
{
    let mut b = new_multi_thread_builder();
    set_worker_threads(&mut b, config.worker_threads);
    set_thread_name(&mut b, thread_name(config.kind));
    if config.enable_io {
        set_enable_io(&mut b);
    }
    if config.enable_time {
        set_enable_time(&mut b);
    }
    match config.max_blocking_threads {
        Some(n) => set_max_blocking_threads(&mut b, n),
        None => {},
    }
    b
}

/// The shared runtime of `kind` is built with the preset's worker count, the
/// thread name of its kind, the I/O and time drivers only for async I/O, and
/// a limit of 512 blocking threads.
pub proof fn lemma_preset_builder_settings(kind: RuntimeKind, cpus: usize)
    ensures
        expected_settings(spec_preset(kind, cpus)).multi_thread,
        expected_settings(spec_preset(kind, cpus)).worker_threads
            == Some(spec_preset(kind, cpus).worker_threads),
        expected_settings(spec_preset(kind, cpus)).thread_name == spec_thread_name(kind),
        expected_settings(spec_preset(kind, cpus)).enable_io <==> kind == RuntimeKind::AsyncIo,
        expected_settings(spec_preset(kind, cpus)).enable_time <==> kind == RuntimeKind::AsyncIo,
        expected_settings(spec_preset(kind, cpus)).max_blocking_threads == 512,
{
}

} // verus!
