//! The service: its start, and how the outcome of a read is answered.

use vstd::prelude::*;
use crate::config::Config;
use crate::server::error::ServerError;
use crate::text::joined;

pub mod error;
pub mod routes;

verus! {

/// The message for a second start.
pub const ALREADY_RUNNING: &'static str = "Server already running";

/// The message for a store that could not be reached; the cause follows.
pub const STORE_CREATION_FAILED: &'static str = "Store creation failed: ";

/// The message for a failed migration; the cause follows.
pub const MIGRATION_FAILED: &'static str = "Failed to migrate one ore more tables: ";

/// The message for an address that cannot be read; the cause follows.
pub const ADDRESS_FAILED: &'static str = "Failed to parse socket address: ";

/// The steps of a start that can fail, in the order they are taken.
#[derive(Clone, Copy, Debug, PartialEq, Eq, Structural)]
pub enum StartupStep {
    /// The store is connected to.
    Connect,
    /// The schema is brought up to date.
    Migrate,
    /// The address to listen on is read.
    Bind,
}

impl StartupStep {
    /// The words that introduce the failure of the step.
    pub open spec fn spec_prefix(self) -> Seq<char> {
        match self {
            StartupStep::Connect => STORE_CREATION_FAILED@,
            StartupStep::Migrate => MIGRATION_FAILED@,
            StartupStep::Bind => ADDRESS_FAILED@,
        }
    }

    /// The step that follows this one once it has succeeded; none after the
    /// last.
    pub open spec fn spec_next(self) -> Option<StartupStep> {
        match self {
            StartupStep::Connect => Some(StartupStep::Migrate),
            StartupStep::Migrate => Some(StartupStep::Bind),
            StartupStep::Bind => None,
        }
    }

    /// What follows from the outcome of the step.
    pub open spec fn spec_after(self, outcome: Result<(), String>) -> StartupView {
        match outcome {
            Ok(_) => match self.spec_next() {
                Some(step) => StartupView::Take(step),
                None => StartupView::Serve,
            },
            Err(cause) => StartupView::Fail { message: self.spec_prefix() + cause@ },
        }
    }

    /// Says what follows from the outcome of the step, which is `Err` with
    /// the cause where the step failed.
    ///
    /// After a success the next step is taken, and after the last step the
    /// service serves. The first failure ends the start: no later step is
    /// taken, and nothing that an earlier step did is undone.
    pub fn after(self, outcome: Result<(), String>) -> (next: Startup)
        ensures
            next@ == self.spec_after(outcome),
    {
        match outcome {
            Ok(_) => match self {
                StartupStep::Connect => Startup::Take(StartupStep::Migrate),
                StartupStep::Migrate => Startup::Take(StartupStep::Bind),
                StartupStep::Bind => Startup::Serve,
            },
            Err(cause) => Startup::Fail(self.failure(cause.as_str())),
        }
    }

    /// The failure of the step: the words that introduce it, then the cause.
    pub fn failure(self, cause: &str) -> (error: ServerError)
        ensures
            error.spec_message() == self.spec_prefix() + cause@,
    {
        let prefix = match self {
            StartupStep::Connect => STORE_CREATION_FAILED,
            StartupStep::Migrate => MIGRATION_FAILED,
            StartupStep::Bind => ADDRESS_FAILED,
        };
        let message = joined(prefix, cause);
        ServerError::new(message.as_str())
    }
}

/// What the starter of the service does next.
#[derive(Debug)]
pub enum Startup {
    /// Take the step and hand its outcome to [`StartupStep::after`].
    Take(StartupStep),
    /// Every step is done: serve the routes.
    Serve,
    /// The start has failed.
    Fail(ServerError),
}

/// What a [`Startup`] holds, as plain values.
pub ghost enum StartupView {
    Take(StartupStep),
    Serve,
    Fail { message: Seq<char> },
}

impl View for Startup {
    type V = StartupView;

    open spec fn view(&self) -> StartupView {
        match self {
            Startup::Take(step) => StartupView::Take(*step),
            Startup::Serve => StartupView::Serve,
            Startup::Fail(error) => StartupView::Fail { message: error.spec_message() },
        }
    }
}

/// The steps that a start takes, from `step` on, as the outcomes of its steps
/// come in: `true` for a success. A start stops at its first failure and
/// after its last step, whatever outcomes are left.
pub open spec fn steps_taken(step: StartupStep, succeeded: Seq<bool>) -> Seq<StartupStep>
    decreases succeeded.len(),
{
    if succeeded.len() == 0 {
        seq![step]
    } else if !succeeded[0] {
        seq![step]
    } else {
        match step.spec_next() {
            Some(next) => seq![step] + steps_taken(next, succeeded.drop_first()),
            None => seq![step],
        }
    }
}

/// A start takes its steps in one order: it connects, then migrates, then
/// binds, each step only after the one before has succeeded. What it takes is
/// the beginning of that list up to its first failure.
pub proof fn lemma_startup_order(succeeded: Seq<bool>)
    ensures
        ({
            let taken = steps_taken(StartupStep::Connect, succeeded);
            let order = seq![StartupStep::Connect, StartupStep::Migrate, StartupStep::Bind];
            &&& 1 <= taken.len() <= 3
            &&& taken == order.take(taken.len() as int)
            &&& forall|i: int| 0 <= i < taken.len() - 1 ==> #[trigger] succeeded[i]
            &&& taken.len() < 3 && taken.len() <= succeeded.len() ==> !succeeded[taken.len() - 1]
        }),
{
    reveal_with_fuel(steps_taken, 4);
    let order = seq![StartupStep::Connect, StartupStep::Migrate, StartupStep::Bind];
    let taken = steps_taken(StartupStep::Connect, succeeded);
    if succeeded.len() > 0 && succeeded[0] {
        let rest = succeeded.drop_first();
        if rest.len() > 0 && rest[0] {
            let last = rest.drop_first();
            assert(steps_taken(StartupStep::Bind, last) =~= seq![StartupStep::Bind]);
            assert(taken =~= order);
            assert(order.take(3) =~= order);
            assert(succeeded[1] == rest[0]);
        } else {
            assert(taken =~= seq![StartupStep::Connect, StartupStep::Migrate]);
            assert(order.take(2) =~= seq![StartupStep::Connect, StartupStep::Migrate]);
            if rest.len() > 0 {
                assert(succeeded[1] == rest[0]);
            }
        }
    } else {
        assert(taken =~= seq![StartupStep::Connect]);
        assert(order.take(1) =~= seq![StartupStep::Connect]);
    }
}

/// The service: its configuration, and whether it has been started.
#[derive(Debug)]
pub struct Server {
    is_running: bool,
    config: Config,
}

impl Server {
    /// Whether the service has been started.
    pub closed spec fn spec_is_running(&self) -> bool {
        self.is_running
    }

    /// The configuration of the service.
    pub closed spec fn spec_config(&self) -> Config {
        self.config
    }

    /// A service with the given configuration that has not been started.
    pub fn new(cfg: Config) -> (server: Self)
        ensures
            !server.spec_is_running(),
            server.spec_config() == cfg,
    {
        Server { is_running: false, config: cfg }
    }

    /// Whether the service has been started.
    pub fn is_running(&self) -> (running: bool)
        ensures
            running == self.spec_is_running(),
    {
        self.is_running
    }

    /// The configuration of the service.
    pub fn config(&self) -> (config: &Config)
        ensures
            *config == self.spec_config(),
    {
        &self.config
    }

    /// Marks the service as started. A service starts once: a second start
    /// is refused and changes nothing.
    pub fn start(&mut self) -> (started: Result<(), ServerError>)
        ensures
            started.is_ok() == !old(self).spec_is_running(),
            started.is_err() ==> started.unwrap_err().spec_message() == ALREADY_RUNNING@,
            final(self).spec_is_running(),
            final(self).spec_config() == old(self).spec_config(),
    {
        if self.is_running {
            return Err(ServerError::new(ALREADY_RUNNING));
        }
        self.is_running = true;
        Ok(())
    }

    /// Begins the start of the service: marks it as started and names the
    /// first step. A service that has been started before fails at once, with
    /// no step taken.
    pub fn begin(&mut self) -> (next: Startup)
        ensures
            next@ == if old(self).spec_is_running() {
                StartupView::Fail { message: ALREADY_RUNNING@ }
            } else {
                StartupView::Take(StartupStep::Connect)
            },
            final(self).spec_is_running(),
            final(self).spec_config() == old(self).spec_config(),
    {
        match self.start() {
            Ok(_) => Startup::Take(StartupStep::Connect),
            Err(error) => Startup::Fail(error),
        }
    }
}

} // verus!
