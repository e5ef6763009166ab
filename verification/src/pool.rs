use vstd::prelude::*;

use crate::config::{available_cpus, opt_text, Config, ConfigView, ExecutorConfigView, GlobalExecutorConfig};

verus! {

/// What a [`ThreadPool`] holds: the sealed configuration, once there is one;
/// the current number of executor threads, some of which may be shutting
/// down; and the number expected once every shutdown is complete.
pub struct PoolView {
    pub config: Option<ConfigView>,
    pub threads_number: usize,
    pub expected_threads_number: usize,
}

impl PoolView {
    /// A pool without configuration has no threads; no more threads run
    /// than the configured maximum; every thread that is expected runs.
    pub open spec fn wf(self) -> bool {
        &&& self.expected_threads_number <= self.threads_number
        &&& match self.config {
            None => self.threads_number == 0,
            Some(c) => c.wf() && self.threads_number <= c.max_threads,
        }
    }

    /// The configuration is set once: a later one is dropped.
    pub open spec fn with_config(self, c: ConfigView) -> PoolView {
        match self.config {
            Some(_) => self,
            None => PoolView { config: Some(c), ..self },
        }
    }

    /// How many threads a request for `count` more threads starts: as many
    /// as the configured maximum leaves room for, counting the threads that
    /// are shutting down.
    pub open spec fn spawn_count(self, count: usize) -> usize {
        let room = (self.config.unwrap().max_threads - self.threads_number) as usize;
        if count < room {
            count
        } else {
            room
        }
    }

    /// The pool once one more thread has started, if there is room for it.
    pub open spec fn after_spawn(self) -> PoolView {
        match self.config {
            Some(c) => if self.threads_number < c.max_threads {
                PoolView {
                    threads_number: (self.threads_number + 1) as usize,
                    expected_threads_number: (self.expected_threads_number + 1) as usize,
                    ..self
                }
            } else {
                self
            },
            None => self,
        }
    }

    /// The pool once `k` more threads have started one by one.
    pub open spec fn after_spawns(self, k: nat) -> PoolView
        decreases k,
    {
        if k == 0 {
            self
        } else {
            self.after_spawns((k - 1) as nat).after_spawn()
        }
    }

    /// A thread may be asked to stop only while more threads are expected
    /// than the configured minimum.
    pub open spec fn stop_allowed(self) -> bool {
        match self.config {
            Some(c) => self.expected_threads_number > c.min_threads,
            None => false,
        }
    }

    /// The pool once a thread has been asked to stop: one thread less is
    /// expected, though it still runs.
    pub open spec fn after_stop_request(self) -> PoolView {
        if self.stop_allowed() {
            PoolView {
                expected_threads_number: (self.expected_threads_number - 1) as usize,
                ..self
            }
        } else {
            self
        }
    }

    /// The pool once a thread that was asked to stop has shut down.
    pub open spec fn after_thread_stopped(self) -> PoolView {
        if self.expected_threads_number < self.threads_number {
            PoolView { threads_number: (self.threads_number - 1) as usize, ..self }
        } else {
            self
        }
    }

    /// How many threads initialization starts: the configured minimum when
    /// no thread runs yet, none otherwise.
    pub open spec fn init_count(self) -> usize {
        if self.threads_number == 0 {
            self.spawn_count(self.config.unwrap().min_threads)
        } else {
            0
        }
    }

    /// Initialization with `fallback` as the configuration to seal when none
    /// is set yet: the number of threads to start, or none when sealing
    /// fails, and the pool afterwards.
    pub open spec fn init_model(self, fallback: Option<ConfigView>) -> (Option<usize>, PoolView) {
        match self.config {
            Some(_) => (Some(self.init_count()), self),
            None => match fallback {
                None => (None, self),
                Some(c) => {
                    let p = self.with_config(c);
                    (Some(p.init_count()), p)
                },
            },
        }
    }

    /// Initialization with a configuration of its own: the configuration is
    /// sealed, kept if none was set before, and the pool initialized.
    pub open spec fn init_with_config_model(self, sealed: Option<ConfigView>) -> (
        Option<usize>,
        PoolView,
    ) {
        match sealed {
            None => (None, self),
            Some(c) => {
                let p = self.with_config(c);
                (Some(p.init_count()), p)
            },
        }
    }
}

/// The bookkeeping of the executor threads of the global executor.
pub struct ThreadPool {
    config: Option<Config>,
    threads_number: usize,
    expected_threads_number: usize,
}

impl View for ThreadPool {
    type V = PoolView;

    closed spec fn view(&self) -> PoolView {
        PoolView {
            config: match self.config {
                Some(c) => Some(c@),
                None => None,
            },
            threads_number: self.threads_number,
            expected_threads_number: self.expected_threads_number,
        }
    }
}

impl ThreadPool {
    #[verifier::type_invariant]
    closed spec fn inv(self) -> bool {
        self@.wf()
    }

    /// A pool with no configuration and no thread.
    pub fn new() -> (r: Self)
        ensures
            r@ == (PoolView { config: None, threads_number: 0, expected_threads_number: 0 }),
            r@.wf(),
    {
        ThreadPool { config: None, threads_number: 0, expected_threads_number: 0 }
    }

    /// Sets the configuration unless one is set already; returns whether it
    /// was set.
    pub fn set_config(&mut self, config: Config) -> (r: bool)
        ensures
            r == (old(self)@.config is None),
            final(self)@ == old(self)@.with_config(config@),
            final(self)@.wf(),
    {
        proof {
            use_type_invariant(&*self);
            use_type_invariant(&config);
            config.lemma_inv_wf();
        }
        if self.config.is_none() {
            self.config = Some(config);
            true
        } else {
            false
        }
    }

    /// The sealed configuration, once there is one.
    pub fn config(&self) -> (r: Option<&Config>)
        ensures
            match r {
                Some(c) => self@.config == Some(c@),
                None => self@.config is None,
            },
            self@.wf(),
    {
        proof {
            use_type_invariant(self);
        }
        match &self.config {
            Some(c) => Some(c),
            None => None,
        }
    }

    /// The current number of threads, some of which may be shutting down.
    pub fn current_threads_number(&self) -> (r: usize)
        ensures
            r == self@.threads_number,
            self@.wf(),
    {
        proof {
            use_type_invariant(self);
        }
        self.threads_number
    }

    /// The number of threads expected once every shutdown is complete.
    pub fn expected_threads_number(&self) -> (r: usize)
        ensures
            r == self@.expected_threads_number,
            self@.wf(),
    {
        proof {
            use_type_invariant(self);
        }
        self.expected_threads_number
    }

    /// Whether a thread may be asked to stop now: while more threads are
    /// expected than the configured minimum.
    pub fn stop_allowed(&self) -> (r: bool)
        ensures
            r == self@.stop_allowed(),
            self@.wf(),
    {
        proof {
            use_type_invariant(self);
        }
        match &self.config {
            Some(c) => self.expected_threads_number > c.min_threads(),
            None => false,
        }
    }

    /// How many threads to start on a request for `count` more, up to the
    /// configured maximum, counting the threads that are shutting down.
    pub fn threads_to_spawn(&self, count: usize) -> (r: usize)
        requires
            self@.config is Some,
        ensures
            r == self@.spawn_count(count),
            self@.threads_number + r <= self@.config.unwrap().max_threads,
            r <= count,
    {
        proof {
            use_type_invariant(self);
        }
        let max_threads = match &self.config {
            Some(c) => c.max_threads(),
            None => 0,
        };
        let room = max_threads - self.threads_number;
        if count < room {
            count
        } else {
            room
        }
    }

    /// Records that one more thread has started; returns whether there was
    /// room for it.
    pub fn thread_spawned(&mut self) -> (r: bool)
        ensures
            final(self)@ == old(self)@.after_spawn(),
            final(self)@.wf(),
            r == (final(self)@ != old(self)@),
    {
        proof {
            use_type_invariant(&*self);
        }
        let max_threads = match &self.config {
            Some(c) => c.max_threads(),
            None => 0,
        };
        if self.threads_number < max_threads {
            self.threads_number = self.threads_number + 1;
            self.expected_threads_number = self.expected_threads_number + 1;
            true
        } else {
            false
        }
    }

    /// Decides whether a thread may stop: it may while more threads are
    /// expected than the configured minimum, and then one thread less is
    /// expected from now on.
    pub fn request_stop(&mut self) -> (r: bool)
        requires
            old(self)@.config is Some,
        ensures
            r == old(self)@.stop_allowed(),
            final(self)@ == old(self)@.after_stop_request(),
            final(self)@.wf(),
    {
        proof {
            use_type_invariant(&*self);
        }
        let min_threads = match &self.config {
            Some(c) => c.min_threads(),
            None => 0,
        };
        if self.expected_threads_number > min_threads {
            self.expected_threads_number = self.expected_threads_number - 1;
            true
        } else {
            false
        }
    }

    /// Records that a thread asked to stop has shut down; returns whether a
    /// thread was shutting down.
    pub fn thread_stopped(&mut self) -> (r: bool)
        ensures
            final(self)@ == old(self)@.after_thread_stopped(),
            final(self)@.wf(),
            r == (old(self)@.expected_threads_number < old(self)@.threads_number),
    {
        proof {
            use_type_invariant(&*self);
        }
        if self.expected_threads_number < self.threads_number {
            self.threads_number = self.threads_number - 1;
            true
        } else {
            false
        }
    }

    /// The number of threads initialization starts, once the configuration is set.
    fn init_configured(&self) -> (r: usize)
        requires
            self@.config is Some,
        ensures
            r == self@.init_count(),
    {
        proof {
            use_type_invariant(self);
        }
        if self.threads_number == 0 {
            let min_threads = match &self.config {
                Some(c) => c.min_threads(),
                None => 0,
            };
            self.threads_to_spawn(min_threads)
        } else {
            0
        }
    }

    /// Initializes the pool, sealing the default configuration with the
    /// value of its environment variable and `cpus` when no configuration is
    /// set yet. Returns how many threads to start, or none when sealing fails.
    pub fn init_with_cpus(&mut self, env_value: Option<&str>, cpus: usize) -> (r: Option<usize>)
        ensures
            (r, final(self)@) == old(self)@.init_model(
                ExecutorConfigView::unconfigured().sealed(opt_text(env_value), cpus),
            ),
            final(self)@.wf(),
    {
        proof {
            use_type_invariant(&*self);
        }
        if self.config.is_none() {
            let default_config = GlobalExecutorConfig::default();
            match default_config.seal_with(env_value, cpus) {
                None => return None,
                Some(c) => {
                    self.set_config(c);
                },
            }
        }
        Some(self.init_configured())
    }

    /// Initializes the pool, sealing the default configuration with the
    /// value of its environment variable and the number of CPUs of this
    /// machine when no configuration is set yet. Returns how many threads to
    /// start, or none when sealing fails.
    pub fn init(&mut self, env_value: Option<&str>) -> (r: Option<usize>)
        ensures
            exists|cpus: usize|
                cpus >= 1 && (r, final(self)@) == old(self)@.init_model(
                    ExecutorConfigView::unconfigured().sealed(opt_text(env_value), cpus),
                ),
            final(self)@.wf(),
    {
        proof {
            use_type_invariant(&*self);
        }
        if self.config.is_none() {
            let cpus = available_cpus();
            self.init_with_cpus(env_value, cpus)
        } else {
            assert(old(self)@.init_model(
                ExecutorConfigView::unconfigured().sealed(opt_text(env_value), 1),
            ).1 == old(self)@);
            Some(self.init_configured())
        }
    }

    /// Makes sure a configuration is set before more threads are requested:
    /// when none is set, initializes the pool as [`ThreadPool::init`] does
    /// and returns how many threads to start first; when one is set, changes
    /// nothing and returns zero. Returns none when sealing fails.
    pub fn ensure_initialized(&mut self, env_value: Option<&str>) -> (r: Option<usize>)
        ensures
            old(self)@.config is Some ==> r == Some(0usize) && final(self)@ == old(self)@,
            old(self)@.config is None ==> exists|cpus: usize|
                cpus >= 1 && (r, final(self)@) == old(self)@.init_model(
                    ExecutorConfigView::unconfigured().sealed(opt_text(env_value), cpus),
                ),
            r is Some ==> final(self)@.config is Some,
            final(self)@.wf(),
    {
        proof {
            use_type_invariant(&*self);
        }
        if self.config.is_none() {
            self.init(env_value)
        } else {
            Some(0)
        }
    }
}

/// Initializes the pool with the given configuration, sealed with the value
/// of its environment variable and the number of CPUs of this machine. The
/// configuration is kept only if none was set before. Returns how many
/// threads to start, or none when sealing fails.
pub fn init_with_config(
    pool: &mut ThreadPool,
    config: GlobalExecutorConfig,
    env_value: Option<&str>,
) -> (r: Option<usize>)
    ensures
        exists|cpus: usize|
            cpus >= 1 && (r, final(pool)@) == old(pool)@.init_with_config_model(
                config@.sealed(opt_text(env_value), cpus),
            ),
        final(pool)@.wf(),
{
    proof {
        use_type_invariant(&*pool);
    }
    match config.seal(env_value) {
        None => None,
        Some(c) => {
            pool.set_config(c);
            Some(pool.init_configured())
        },
    }
}

// ---------------------------------------------------------------------------
// Laws of the pool
// ---------------------------------------------------------------------------

/// Every step of the pool keeps it well formed: never more threads than the
/// configured maximum, and never more threads expected than running.
pub proof fn lemma_steps_preserve_wf(v: PoolView, c: ConfigView, k: nat)
    requires
        v.wf(),
        c.wf(),
    ensures
        v.with_config(c).wf(),
        v.after_spawn().wf(),
        v.after_spawns(k).wf(),
        v.after_stop_request().wf(),
        v.after_thread_stopped().wf(),
    decreases k,
{
    if k > 0 {
        lemma_steps_preserve_wf(v, c, (k - 1) as nat);
        lemma_steps_preserve_wf(v.after_spawns((k - 1) as nat), c, 0);
    }
}

/// A request for more threads starts no more than asked and no more than
/// the configured maximum leaves room for.
pub proof fn lemma_spawn_count_fits(v: PoolView, count: usize)
    requires
        v.wf(),
        v.config is Some,
    ensures
        v.spawn_count(count) <= count,
        v.threads_number + v.spawn_count(count) <= v.config.unwrap().max_threads,
        v.spawn_count(count) == count || v.threads_number + v.spawn_count(count)
            == v.config.unwrap().max_threads,
{
}

/// Every thread that a request plans to start is counted once it has
/// started: after `k` of them both counts have grown by exactly `k`.
pub proof fn lemma_planned_spawns_counted(v: PoolView, count: usize, k: nat)
    requires
        v.wf(),
        v.config is Some,
        k <= v.spawn_count(count),
    ensures
        v.after_spawns(k).threads_number == v.threads_number + k,
        v.after_spawns(k).expected_threads_number == v.expected_threads_number + k,
        v.after_spawns(k).config == v.config,
    decreases k,
{
    if k > 0 {
        lemma_planned_spawns_counted(v, count, (k - 1) as nat);
    }
}

/// Stopping a thread never brings the expected number of threads below the
/// configured minimum, and is refused exactly when it would.
pub proof fn lemma_stop_respects_minimum(v: PoolView)
    requires
        v.wf(),
        v.config is Some,
    ensures
        v.stop_allowed() ==> v.after_stop_request().expected_threads_number
            >= v.config.unwrap().min_threads,
        v.stop_allowed() ==> v.after_stop_request().expected_threads_number + 1
            == v.expected_threads_number,
        !v.stop_allowed() ==> v.after_stop_request() == v && v.expected_threads_number
            <= v.config.unwrap().min_threads,
{
}

/// The threads asked to stop but not yet shut down are the difference of
/// the two counts: a stop request adds one, a completed shutdown removes
/// one, and starting a thread leaves it unchanged.
pub proof fn lemma_pending_shutdowns(v: PoolView)
    requires
        v.wf(),
    ensures
        v.stop_allowed() ==> v.after_stop_request().threads_number
            - v.after_stop_request().expected_threads_number == v.threads_number
            - v.expected_threads_number + 1,
        v.expected_threads_number < v.threads_number ==> v.after_thread_stopped().threads_number
            - v.after_thread_stopped().expected_threads_number == v.threads_number
            - v.expected_threads_number - 1,
        v.after_spawn().threads_number - v.after_spawn().expected_threads_number
            == v.threads_number - v.expected_threads_number,
{
}

/// Stopping a thread that was just started, once its shutdown completes,
/// gives back the pool as it was, as long as the minimum allowed the stop.
pub proof fn lemma_spawn_then_stop_restores(v: PoolView)
    requires
        v.wf(),
        v.config is Some,
        v.threads_number < v.config.unwrap().max_threads,
        v.expected_threads_number >= v.config.unwrap().min_threads,
    ensures
        v.after_spawn().stop_allowed(),
        v.after_spawn().after_stop_request().after_thread_stopped() == v,
{
}

/// The first configuration set is kept: setting another leaves the pool
/// unchanged.
pub proof fn lemma_config_set_once(v: PoolView, c1: ConfigView, c2: ConfigView)
    ensures
        v.config is None ==> v.with_config(c1).config == Some(c1),
        v.with_config(c1).with_config(c2) == v.with_config(c1),
{
}

/// Initialization starts the configured minimum of threads on a pool
/// without threads, and none on a pool that already has threads; so a
/// second initialization after the first one's threads started does nothing.
pub proof fn lemma_init_starts_minimum_once(v: PoolView)
    requires
        v.wf(),
        v.config is Some,
    ensures
        v.threads_number == 0 ==> v.init_count() == v.config.unwrap().min_threads,
        v.threads_number > 0 ==> v.init_count() == 0,
        v.threads_number == 0 ==> v.after_spawns(v.init_count() as nat).init_count() == 0,
{
    if v.threads_number == 0 {
        lemma_planned_spawns_counted(v, v.config.unwrap().min_threads, v.init_count() as nat);
    }
}

} // verus!
