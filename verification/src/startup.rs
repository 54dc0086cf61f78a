//! The order in which a server comes up.
//!
//! Coming up is a fixed run of outside work: read the database address,
//! open the pool, migrate the schema, bind the listener, serve. The caller
//! does the work; this module decides what is due next and what a failure
//! means. A failed step ends the run: nothing is tried twice and nothing
//! that comes later is attempted.

use vstd::prelude::*;

verus! {

/// One piece of outside work on the way to a serving process.
#[derive(Clone, Copy, Debug, PartialEq, Eq, Structural)]
pub enum Step {
    /// Read the database address from `DATABASE_URL`.
    ReadDatabaseUrl,
    /// Open the connection pool on that address.
    Connect,
    /// Apply the pending schema migrations.
    Migrate,
    /// Bind the listening socket.
    Bind,
    /// Serve requests until the server stops.
    Serve,
}

/// Why a process gave up.
#[derive(Clone, Copy, Debug, PartialEq, Eq, Structural)]
pub enum StartupError {
    DatabaseUrlMissing,
    ConnectFailed,
    MigrationFailed,
    BindFailed,
    ServeFailed,
}

/// Where a process stands on its way up.
#[derive(Clone, Copy, Debug, PartialEq, Eq, Structural)]
pub enum Phase {
    /// The step is due and has not been tried.
    Due(Step),
    /// A step failed; the process must end.
    Failed(StartupError),
    /// The server ran and stopped without a fault.
    Finished,
}

/// What the caller has to do in a phase.
#[derive(Clone, Copy, Debug, PartialEq, Eq, Structural)]
pub enum Directive {
    /// Do the step and report whether it succeeded.
    Perform(Step),
    /// End the process with this fault.
    Abort(StartupError),
    /// End the process normally.
    Exit,
}

impl Step {
    /// How many steps come before this one.
    pub open spec fn position(self) -> nat {
        match self {
            Step::ReadDatabaseUrl => 0,
            Step::Connect => 1,
            Step::Migrate => 2,
            Step::Bind => 3,
            Step::Serve => 4,
        }
    }

    /// The step that follows this one, if any.
    pub open spec fn spec_successor(self) -> Option<Step> {
        match self {
            Step::ReadDatabaseUrl => Some(Step::Connect),
            Step::Connect => Some(Step::Migrate),
            Step::Migrate => Some(Step::Bind),
            Step::Bind => Some(Step::Serve),
            Step::Serve => None,
        }
    }

    /// The fault that a failure of this step stands for.
    pub open spec fn spec_failure(self) -> StartupError {
        match self {
            Step::ReadDatabaseUrl => StartupError::DatabaseUrlMissing,
            Step::Connect => StartupError::ConnectFailed,
            Step::Migrate => StartupError::MigrationFailed,
            Step::Bind => StartupError::BindFailed,
            Step::Serve => StartupError::ServeFailed,
        }
    }

    /// The step that follows this one; `None` after the last.
    pub fn successor(self) -> (next: Option<Step>)
        ensures
            next == self.spec_successor(),
            next matches Some(s) ==> s.position() == self.position() + 1,
            next is None <==> self == Step::Serve,
    {
        match self {
            Step::ReadDatabaseUrl => Some(Step::Connect),
            Step::Connect => Some(Step::Migrate),
            Step::Migrate => Some(Step::Bind),
            Step::Bind => Some(Step::Serve),
            Step::Serve => None,
        }
    }

    /// The fault to report when this step fails.
    pub fn failure(self) -> (fault: StartupError)
        ensures
            fault == self.spec_failure(),
    {
        match self {
            Step::ReadDatabaseUrl => StartupError::DatabaseUrlMissing,
            Step::Connect => StartupError::ConnectFailed,
            Step::Migrate => StartupError::MigrationFailed,
            Step::Bind => StartupError::BindFailed,
            Step::Serve => StartupError::ServeFailed,
        }
    }
}

impl StartupError {
    /// The diagnostic that goes with this fault, where one is worded.
    pub open spec fn spec_message(self) -> Option<Seq<char>> {
        match self {
            StartupError::DatabaseUrlMissing => Some("DATABASE_URL must be set"@),
            StartupError::ConnectFailed => Some("DB接続に失敗しました"@),
            StartupError::MigrationFailed => Some("マイグレーションに失敗しました"@),
            StartupError::BindFailed => None,
            StartupError::ServeFailed => None,
        }
    }

    /// The diagnostic to end the process with. The faults of binding and
    /// serving have no wording of their own: the caller shows what the
    /// runtime reported.
    pub fn message(self) -> (text: Option<&'static str>)
        ensures
            text is Some <==> self.spec_message() is Some,
            text matches Some(t) ==> Some(t@) == self.spec_message(),
    {
        match self {
            StartupError::DatabaseUrlMissing => Some("DATABASE_URL must be set"),
            StartupError::ConnectFailed => Some("DB接続に失敗しました"),
            StartupError::MigrationFailed => Some("マイグレーションに失敗しました"),
            StartupError::BindFailed => None,
            StartupError::ServeFailed => None,
        }
    }
}

impl Phase {
    /// The phase of a process that has done nothing yet.
    pub open spec fn spec_initial() -> Phase {
        Phase::Due(Step::ReadDatabaseUrl)
    }

    /// What the caller has to do in this phase.
    pub open spec fn spec_directive(self) -> Directive {
        match self {
            Phase::Due(step) => Directive::Perform(step),
            Phase::Failed(fault) => Directive::Abort(fault),
            Phase::Finished => Directive::Exit,
        }
    }

    /// The phase that follows once the due step has succeeded or failed.
    /// A phase with nothing due stays as it is.
    pub open spec fn spec_advance(self, succeeded: bool) -> Phase {
        match self {
            Phase::Due(step) => if !succeeded {
                Phase::Failed(step.spec_failure())
            } else {
                match step.spec_successor() {
                    Some(next) => Phase::Due(next),
                    None => Phase::Finished,
                }
            },
            Phase::Failed(fault) => Phase::Failed(fault),
            Phase::Finished => Phase::Finished,
        }
    }

    /// The phase of a process that has done nothing yet: the database
    /// address is due.
    pub fn initial() -> (phase: Phase)
        ensures
            phase == Phase::spec_initial(),
    {
        Phase::Due(Step::ReadDatabaseUrl)
    }

    /// What the caller has to do now.
    pub fn directive(self) -> (order: Directive)
        ensures
            order == self.spec_directive(),
    {
        match self {
            Phase::Due(step) => Directive::Perform(step),
            Phase::Failed(fault) => Directive::Abort(fault),
            Phase::Finished => Directive::Exit,
        }
    }

    /// Takes in how the due step ended and gives the next phase.
    pub fn advance(self, succeeded: bool) -> (next: Phase)
        ensures
            next == self.spec_advance(succeeded),
    {
        match self {
            Phase::Due(step) => {
                if !succeeded {
                    Phase::Failed(step.failure())
                } else {
                    match step.successor() {
                        Some(following) => Phase::Due(following),
                        None => Phase::Finished,
                    }
                }
            },
            Phase::Failed(fault) => Phase::Failed(fault),
            Phase::Finished => Phase::Finished,
        }
    }
}

/// The phase reached from the start after the given outcomes, one for each
/// step that was reported, oldest first.
pub open spec fn phase_after(outcomes: Seq<bool>) -> Phase
    decreases outcomes.len(),
{
    if outcomes.len() == 0 {
        Phase::spec_initial()
    } else {
        phase_after(outcomes.drop_last()).spec_advance(outcomes.last())
    }
}

/// A step is due only when every step before it has been reported, in
/// order, and each of them succeeded.
pub proof fn due_step_follows_successes(outcomes: Seq<bool>, step: Step)
    requires
        phase_after(outcomes) == Phase::Due(step),
    ensures
        outcomes.len() == step.position(),
        forall|i: int| 0 <= i < outcomes.len() ==> outcomes[i],
    decreases outcomes.len(),
{
    if outcomes.len() > 0 {
        let earlier = outcomes.drop_last();
        match phase_after(earlier) {
            Phase::Due(previous) => {
                due_step_follows_successes(earlier, previous);
                assert forall|i: int| 0 <= i < outcomes.len() implies outcomes[i] by {
                    if i < earlier.len() {
                        assert(earlier[i] == outcomes[i]);
                    }
                }
            },
            Phase::Failed(_) => {},
            Phase::Finished => {},
        }
    }
}

/// When every step before `step` has been reported with success, and
/// nothing else, `step` is due.
pub proof fn successes_make_step_due(outcomes: Seq<bool>, step: Step)
    requires
        outcomes.len() == step.position(),
        forall|i: int| 0 <= i < outcomes.len() ==> outcomes[i],
    ensures
        phase_after(outcomes) == Phase::Due(step),
    decreases outcomes.len(),
{
    if outcomes.len() > 0 {
        let earlier = outcomes.drop_last();
        let previous = match step {
            Step::ReadDatabaseUrl => Step::ReadDatabaseUrl,
            Step::Connect => Step::ReadDatabaseUrl,
            Step::Migrate => Step::Connect,
            Step::Bind => Step::Migrate,
            Step::Serve => Step::Bind,
        };
        assert forall|i: int| 0 <= i < earlier.len() implies earlier[i] by {
            assert(earlier[i] == outcomes[i]);
        }
        successes_make_step_due(earlier, previous);
        assert(outcomes.last());
    }
}

/// A failed step ends the run. If `step` is the first to fail, the phase is
/// that step's fault, whatever is reported afterwards: nothing is retried
/// and no later step becomes due.
pub proof fn failure_is_final(outcomes: Seq<bool>, step: Step)
    requires
        step.position() < outcomes.len(),
        !outcomes[step.position() as int],
        forall|i: int| 0 <= i < step.position() ==> outcomes[i],
    ensures
        phase_after(outcomes) == Phase::Failed(step.spec_failure()),
    decreases outcomes.len(),
{
    let earlier = outcomes.drop_last();
    if earlier.len() == step.position() {
        assert forall|i: int| 0 <= i < earlier.len() implies earlier[i] by {
            assert(earlier[i] == outcomes[i]);
        }
        successes_make_step_due(earlier, step);
    } else {
        assert(earlier[step.position() as int] == outcomes[step.position() as int]);
        assert forall|i: int| 0 <= i < step.position() implies earlier[i] by {
            assert(earlier[i] == outcomes[i]);
        }
        failure_is_final(earlier, step);
    }
}

/// No step is tried twice: of two moments in one run at which a step is
/// due, the later one asks for a later step.
pub proof fn no_step_is_tried_twice(outcomes: Seq<bool>, sooner: int, later: int)
    requires
        0 <= sooner < later <= outcomes.len(),
        phase_after(outcomes.take(sooner)) is Due,
        phase_after(outcomes.take(later)) is Due,
    ensures
        phase_after(outcomes.take(sooner))->Due_0.position() < phase_after(
            outcomes.take(later),
        )->Due_0.position(),
{
    due_step_follows_successes(outcomes.take(sooner), phase_after(outcomes.take(sooner))->Due_0);
    due_step_follows_successes(outcomes.take(later), phase_after(outcomes.take(later))->Due_0);
}

/// A process whose database address is not set never binds a port: until
/// the address has been read with success, no phase asks for the listener,
/// and after the failed read every phase asks to end the process.
pub proof fn unset_database_url_never_binds(outcomes: Seq<bool>)
    requires
        outcomes.len() == 0 || !outcomes[0],
    ensures
        phase_after(outcomes).spec_directive() != Directive::Perform(Step::Bind),
        outcomes.len() > 0 ==> phase_after(outcomes).spec_directive() == Directive::Abort(
            StartupError::DatabaseUrlMissing,
        ),
{
    if outcomes.len() > 0 {
        failure_is_final(outcomes, Step::ReadDatabaseUrl);
    }
}

/// The listener is asked for exactly when the address was read, the pool
/// opened and the schema migrated, each with success, and nothing else was
/// reported.
pub proof fn bind_is_due_after_three_successes(outcomes: Seq<bool>)
    ensures
        phase_after(outcomes).spec_directive() == Directive::Perform(Step::Bind) <==> outcomes
            =~= seq![true, true, true],
{
    if phase_after(outcomes).spec_directive() == Directive::Perform(Step::Bind) {
        due_step_follows_successes(outcomes, Step::Bind);
    }
    if outcomes =~= seq![true, true, true] {
        let two = outcomes.drop_last();
        let one = two.drop_last();
        let none = one.drop_last();
        assert(none.len() == 0);
        assert(phase_after(none) == Phase::Due(Step::ReadDatabaseUrl));
        assert(phase_after(one) == Phase::Due(Step::Connect));
        assert(phase_after(two) == Phase::Due(Step::Migrate));
    }
}

} // verus!
