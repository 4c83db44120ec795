//! The spawn policy: how the result of one attempt to start the target decides
//! between keeping the new child, trying again, and giving up.
use vstd::prelude::*;

verus! {

/// The most spawn attempts made for one launch.
pub const MAX_SPAWN_ATTEMPTS: u32 = 1000;

/// Why an attempt to start the target failed.
#[derive(Clone, Copy, Debug, PartialEq, Eq, Structural)]
pub enum SpawnError {
    /// The executable is still open for writing by another process.
    Busy,
    /// Any other failure, with the operating system's error code if it gave one.
    Other(Option<i32>),
}

/// The result of one attempt to start the target.
#[derive(Clone, Copy, Debug, PartialEq, Eq, Structural)]
pub enum SpawnOutcome {
    /// A child was started with this process identifier.
    Started(u32),
    Failed(SpawnError),
}

/// Why a launch failed for good.
#[derive(Clone, Copy, Debug, PartialEq, Eq, Structural)]
pub enum LaunchError {
    /// A failure that is not retried, with the operating system's error code.
    Spawn(Option<i32>),
    /// Every allowed attempt found the executable busy.
    RetriesExhausted,
}

/// What to do after one attempt.
#[derive(Clone, Copy, Debug, PartialEq, Eq, Structural)]
pub enum LaunchStep {
    /// The child with this process identifier runs: the launch is over.
    Launched(u32),
    /// Try to start the target again, at once.
    Retry,
    /// The launch failed; the supervisor cannot go on.
    Fatal(LaunchError),
}

/// Classifies a spawn failure by its operating system error code, given the
/// code that stands for a busy executable.
pub open spec fn spawn_error_of(raw: Option<i32>, busy_code: i32) -> SpawnError {
    if raw == Some(busy_code) {
        SpawnError::Busy
    } else {
        SpawnError::Other(raw)
    }
}

/// The attempt count after one more attempt, and what follows from its outcome.
pub open spec fn launch_step_spec(attempts: nat, outcome: SpawnOutcome) -> (nat, LaunchStep) {
    let made = attempts + 1;
    match outcome {
        SpawnOutcome::Started(pid) => (made, LaunchStep::Launched(pid)),
        SpawnOutcome::Failed(SpawnError::Busy) => if made < MAX_SPAWN_ATTEMPTS {
            (made, LaunchStep::Retry)
        } else {
            (made, LaunchStep::Fatal(LaunchError::RetriesExhausted))
        },
        SpawnOutcome::Failed(SpawnError::Other(raw)) => (
            made,
            LaunchStep::Fatal(LaunchError::Spawn(raw)),
        ),
    }
}

/// Feeds `outcomes` to a launcher that has made `attempts` attempts, until a
/// step other than `Retry` comes or the outcomes run out: the attempts made by
/// then and the last step (`Retry` when the outcomes ran out first).
pub open spec fn run_launch(attempts: nat, outcomes: Seq<SpawnOutcome>) -> (nat, LaunchStep)
    decreases outcomes.len(),
{
    if outcomes.len() == 0 {
        (attempts, LaunchStep::Retry)
    } else {
        let (made, step) = launch_step_spec(attempts, outcomes[0]);
        if step == LaunchStep::Retry {
            run_launch(made, outcomes.drop_first())
        } else {
            (made, step)
        }
    }
}

proof fn lemma_run_all_busy(attempts: nat, outcomes: Seq<SpawnOutcome>)
    requires
        attempts < MAX_SPAWN_ATTEMPTS,
        outcomes.len() >= MAX_SPAWN_ATTEMPTS - attempts,
        forall|i: int|
            0 <= i < MAX_SPAWN_ATTEMPTS - attempts ==> #[trigger] outcomes[i] == SpawnOutcome::Failed(
                SpawnError::Busy,
            ),
    ensures
        run_launch(attempts, outcomes) == (
            MAX_SPAWN_ATTEMPTS as nat,
            LaunchStep::Fatal(LaunchError::RetriesExhausted),
        ),
    decreases MAX_SPAWN_ATTEMPTS - attempts,
{
    assert(outcomes[0] == SpawnOutcome::Failed(SpawnError::Busy));
    if attempts + 1 < MAX_SPAWN_ATTEMPTS {
        let rest = outcomes.drop_first();
        assert forall|i: int| 0 <= i < MAX_SPAWN_ATTEMPTS - (attempts + 1) implies #[trigger] rest[i]
            == SpawnOutcome::Failed(SpawnError::Busy) by {
            assert(rest[i] == outcomes[i + 1]);
        }
        lemma_run_all_busy(attempts + 1, rest);
    }
}

/// A launch whose every attempt finds the executable busy makes exactly
/// `MAX_SPAWN_ATTEMPTS` attempts and then fails for good.
pub proof fn lemma_busy_retry_bound(outcomes: Seq<SpawnOutcome>)
    requires
        outcomes.len() >= MAX_SPAWN_ATTEMPTS,
        forall|i: int|
            0 <= i < outcomes.len() ==> #[trigger] outcomes[i] == SpawnOutcome::Failed(
                SpawnError::Busy,
            ),
    ensures
        run_launch(0, outcomes) == (
            MAX_SPAWN_ATTEMPTS as nat,
            LaunchStep::Fatal(LaunchError::RetriesExhausted),
        ),
{
    lemma_run_all_busy(0, outcomes);
}

proof fn lemma_run_started_at(attempts: nat, outcomes: Seq<SpawnOutcome>, k: nat, pid: u32)
    requires
        1 <= k,
        attempts + k <= MAX_SPAWN_ATTEMPTS,
        k <= outcomes.len(),
        forall|i: int|
            0 <= i < k - 1 ==> #[trigger] outcomes[i] == SpawnOutcome::Failed(SpawnError::Busy),
        outcomes[k - 1] == SpawnOutcome::Started(pid),
    ensures
        run_launch(attempts, outcomes) == (attempts + k, LaunchStep::Launched(pid)),
    decreases k,
{
    if k > 1 {
        assert(outcomes[0] == SpawnOutcome::Failed(SpawnError::Busy));
        let rest = outcomes.drop_first();
        assert forall|i: int| 0 <= i < (k - 1) - 1 implies #[trigger] rest[i]
            == SpawnOutcome::Failed(SpawnError::Busy) by {
            assert(rest[i] == outcomes[i + 1]);
        }
        assert(rest[k - 2] == outcomes[k - 1]);
        lemma_run_started_at(attempts + 1, rest, (k - 1) as nat, pid);
    }
}

/// A launch whose attempts find the executable busy until attempt `k`, at most
/// `MAX_SPAWN_ATTEMPTS`, starts a child: it makes exactly `k` attempts and
/// keeps that child.
pub proof fn lemma_launch_succeeds_at(outcomes: Seq<SpawnOutcome>, k: nat, pid: u32)
    requires
        1 <= k <= MAX_SPAWN_ATTEMPTS,
        k <= outcomes.len(),
        forall|i: int|
            0 <= i < k - 1 ==> #[trigger] outcomes[i] == SpawnOutcome::Failed(SpawnError::Busy),
        outcomes[k - 1] == SpawnOutcome::Started(pid),
    ensures
        run_launch(0, outcomes) == (k, LaunchStep::Launched(pid)),
{
    lemma_run_started_at(0, outcomes, k, pid);
}

/// Relies on libc::ETXTBSY, the error code of the platform for an executable
/// that is open for writing. Its value differs between platforms, so nothing
/// is stated of it.
#[verifier::external_body]
fn text_file_busy_code() -> (r: i32) {
    libc::ETXTBSY
}

/// Classifies a spawn failure by its operating system error code, where
/// `busy_code` is the code that stands for a busy executable.
pub fn spawn_error_kind(raw_os_error: Option<i32>, busy_code: i32) -> (r: SpawnError)
    ensures
        r == spawn_error_of(raw_os_error, busy_code),
{
    match raw_os_error {
        Some(code) => if code == busy_code {
            SpawnError::Busy
        } else {
            SpawnError::Other(raw_os_error)
        },
        None => SpawnError::Other(None),
    }
}

/// Classifies a spawn failure by its operating system error code, against this
/// platform's code for a busy executable.
pub fn classify_spawn_error(raw_os_error: Option<i32>) -> (r: SpawnError)
    ensures
        exists|busy_code: i32| r == spawn_error_of(raw_os_error, busy_code),
        raw_os_error is None ==> r == SpawnError::Other(None),
        r is Other ==> r == SpawnError::Other(raw_os_error),
{
    let busy_code = text_file_busy_code();
    spawn_error_kind(raw_os_error, busy_code)
}

/// The retry state of one launch: how many attempts to start the target have
/// been made.
pub struct Launcher {
    attempts: u32,
}

impl Launcher {
    /// The number of attempts made so far.
    pub closed spec fn attempts_spec(&self) -> nat {
        self.attempts as nat
    }

    /// Whether another attempt may still be recorded.
    pub open spec fn wf(&self) -> bool {
        self.attempts_spec() < MAX_SPAWN_ATTEMPTS
    }

    /// A launch with no attempt made yet.
    pub fn new() -> (r: Launcher)
        ensures
            r.attempts_spec() == 0,
            r.wf(),
    {
        Launcher { attempts: 0 }
    }

    /// The number of attempts made so far.
    pub fn attempts(&self) -> (r: u32)
        ensures
            r == self.attempts_spec(),
    {
        self.attempts
    }

    /// Records the outcome of one more attempt and says what comes next. After
    /// `Retry` another attempt may be recorded; after any other step the launch
    /// is over.
    pub fn record(&mut self, outcome: SpawnOutcome) -> (r: LaunchStep)
        requires
            old(self).wf(),
        ensures
            (final(self).attempts_spec(), r) == launch_step_spec(
                old(self).attempts_spec(),
                outcome,
            ),
            r == LaunchStep::Retry ==> final(self).wf(),
    {
        self.attempts = self.attempts + 1;
        match outcome {
            SpawnOutcome::Started(pid) => LaunchStep::Launched(pid),
            SpawnOutcome::Failed(SpawnError::Busy) => {
                if self.attempts < MAX_SPAWN_ATTEMPTS {
                    LaunchStep::Retry
                } else {
                    LaunchStep::Fatal(LaunchError::RetriesExhausted)
                }
            },
            SpawnOutcome::Failed(SpawnError::Other(raw)) => LaunchStep::Fatal(
                LaunchError::Spawn(raw),
            ),
        }
    }
}

} // verus!
