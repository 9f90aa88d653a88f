//! The confirmation state machine for submitted bundles and transactions:
//! classification of the relay's status vocabulary, the per-attempt
//! transition rules of the two polling phases, and bounded drivers that run
//! a phase over a sequence of observations to a terminal outcome.

use vstd::prelude::*;

verus! {

/// The relay's in-flight status vocabulary, one variant per recognized
/// status string plus explicit variants for an unrecognized string and for
/// a response that carried no status string at all.
#[derive(Debug, Clone, Copy, PartialEq, Eq, Structural)]
pub enum InFlightStatus {
    Pending,
    Landed,
    Failed,
    Invalid,
    Unrecognized,
    Missing,
}

/// Maps the raw status string of one in-flight poll response (None when the
/// response carried none) onto the fixed vocabulary.
pub open spec fn spec_classify_in_flight(raw: Option<Seq<char>>) -> InFlightStatus {
    match raw {
        Option::None => InFlightStatus::Missing,
        Option::Some(s) => if s == "Landed"@ {
            InFlightStatus::Landed
        } else if s == "Pending"@ {
            InFlightStatus::Pending
        } else if s == "Failed"@ {
            InFlightStatus::Failed
        } else if s == "Invalid"@ {
            InFlightStatus::Invalid
        } else {
            InFlightStatus::Unrecognized
        },
    }
}

/// Classifies the raw in-flight status string of one poll response.
pub fn classify_in_flight(raw: &Option<String>) -> (r: InFlightStatus)
    ensures
        r == spec_classify_in_flight(match *raw {
            Option::Some(s) => Option::Some(s@),
            Option::None => Option::None,
        }),
{
    match raw {
        Option::None => InFlightStatus::Missing,
        Option::Some(s) => {
            if *s == "Landed".to_owned() {
                InFlightStatus::Landed
            } else if *s == "Pending".to_owned() {
                InFlightStatus::Pending
            } else if *s == "Failed".to_owned() {
                InFlightStatus::Failed
            } else if *s == "Invalid".to_owned() {
                InFlightStatus::Invalid
            } else {
                InFlightStatus::Unrecognized
            }
        },
    }
}

/// One observation made by one in-flight polling attempt: a classified
/// status, a response that carried an error object, a response that lacked
/// the expected fields, or a network-layer failure. All but an explicit
/// Landed or Failed status are transient.
#[derive(Debug, Clone, Copy, PartialEq, Eq, Structural)]
pub enum PollEvent {
    Observed(InFlightStatus),
    RelayError,
    MalformedResponse,
    TransportFailure,
}

/// What the in-flight state machine does with one observation: advance to
/// the finalization phase, abort at once, or count the attempt and retry.
#[derive(Debug, Clone, Copy, PartialEq, Eq, Structural)]
pub enum PhaseOneAction {
    EnterFinalization,
    AbortFailed,
    Retry,
}

/// The in-flight transition rule: Landed advances the phase, Failed aborts
/// immediately, and every other observation (Pending, Invalid, an
/// unrecognized or missing status, a relay-reported error, a malformed
/// response, a transport failure) is transient.
pub open spec fn spec_phase_one_action(ev: PollEvent) -> PhaseOneAction {
    match ev {
        PollEvent::Observed(InFlightStatus::Landed) => PhaseOneAction::EnterFinalization,
        PollEvent::Observed(InFlightStatus::Failed) => PhaseOneAction::AbortFailed,
        _ => PhaseOneAction::Retry,
    }
}

/// Applies the in-flight transition rule to one observation.
pub fn phase_one_action(ev: &PollEvent) -> (a: PhaseOneAction)
    ensures
        a == spec_phase_one_action(*ev),
{
    match ev {
        PollEvent::Observed(InFlightStatus::Landed) => PhaseOneAction::EnterFinalization,
        PollEvent::Observed(InFlightStatus::Failed) => PhaseOneAction::AbortFailed,
        _ => PhaseOneAction::Retry,
    }
}

/// The terminal outcome of the in-flight phase, with the number of attempts
/// it took.
#[derive(Debug, Clone, Copy, PartialEq, Eq, Structural)]
pub enum InFlightOutcome {
    Landed { attempts: usize },
    Failed { attempts: usize },
    Exhausted { attempts: usize },
}

/// The in-flight outcome when polling starts at attempt index `attempt` (one
/// observation per attempt) under a total budget of `budget` attempts.
pub open spec fn spec_in_flight_from(
    events: Seq<PollEvent>,
    budget: usize,
    attempt: usize,
) -> InFlightOutcome
    decreases budget - attempt,
{
    if attempt >= budget {
        InFlightOutcome::Exhausted { attempts: budget }
    } else {
        match spec_phase_one_action(events[attempt as int]) {
            PhaseOneAction::EnterFinalization => InFlightOutcome::Landed {
                attempts: (attempt + 1) as usize,
            },
            PhaseOneAction::AbortFailed => InFlightOutcome::Failed {
                attempts: (attempt + 1) as usize,
            },
            PhaseOneAction::Retry => spec_in_flight_from(events, budget, (attempt + 1) as usize),
        }
    }
}

/// The in-flight outcome of a whole phase: the first Landed or Failed within
/// the budget decides it at its position; otherwise the budget is exhausted.
pub open spec fn spec_in_flight_outcome(events: Seq<PollEvent>, budget: usize) -> InFlightOutcome {
    spec_in_flight_from(events, budget, 0)
}

/// Runs the in-flight phase over one observation per attempt, stopping at
/// the first decisive observation or when the budget is exhausted.
pub fn run_in_flight_phase(events: &Vec<PollEvent>, budget: usize) -> (r: InFlightOutcome)
    requires
        events@.len() >= budget,
    ensures
        r == spec_in_flight_outcome(events@, budget),
{
    let mut attempt: usize = 0;
    while attempt < budget
        invariant
            attempt <= budget,
            events@.len() >= budget,
            spec_in_flight_from(events@, budget, attempt) == spec_in_flight_outcome(
                events@,
                budget,
            ),
        decreases budget - attempt,
    {
        let ev = events[attempt];
        match phase_one_action(&ev) {
            PhaseOneAction::EnterFinalization => {
                return InFlightOutcome::Landed { attempts: attempt + 1 };
            },
            PhaseOneAction::AbortFailed => {
                return InFlightOutcome::Failed { attempts: attempt + 1 };
            },
            PhaseOneAction::Retry => {},
        }
        attempt = attempt + 1;
    }
    InFlightOutcome::Exhausted { attempts: budget }
}

/// The ledger-level confirmation tier reported by one finalization poll,
/// with explicit variants for an unrecognized tier string and for a
/// response that carried none.
#[derive(Debug, Clone, Copy, PartialEq, Eq, Structural)]
pub enum ConfirmationTier {
    Confirmed,
    Finalized,
    OtherTier,
    MissingTier,
}

/// Maps the raw confirmation-status string of one finalization poll (None
/// when the response carried none) onto the tier vocabulary.
pub open spec fn spec_classify_confirmation(raw: Option<Seq<char>>) -> ConfirmationTier {
    match raw {
        Option::None => ConfirmationTier::MissingTier,
        Option::Some(s) => if s == "confirmed"@ {
            ConfirmationTier::Confirmed
        } else if s == "finalized"@ {
            ConfirmationTier::Finalized
        } else {
            ConfirmationTier::OtherTier
        },
    }
}

/// Classifies the raw confirmation-status string of one finalization poll.
pub fn classify_confirmation(raw: &Option<String>) -> (r: ConfirmationTier)
    ensures
        r == spec_classify_confirmation(match *raw {
            Option::Some(s) => Option::Some(s@),
            Option::None => Option::None,
        }),
{
    match raw {
        Option::None => ConfirmationTier::MissingTier,
        Option::Some(s) => {
            if *s == "confirmed".to_owned() {
                ConfirmationTier::Confirmed
            } else if *s == "finalized".to_owned() {
                ConfirmationTier::Finalized
            } else {
                ConfirmationTier::OtherTier
            }
        },
    }
}

/// The execution-error payload attached to a finalization status, reduced to
/// what the transition rule reads: no payload, a payload that reports clean
/// execution, or a real execution error with its rendered payload.
#[derive(Debug, Clone, PartialEq, Eq)]
pub enum ExecutionPayload {
    Absent,
    Clean,
    Faulty(String),
}

/// One snapshot decoded from one finalization poll response: the raw
/// confirmation tier string, the execution-error payload, and the
/// constituent transaction signatures, when present.
#[derive(Debug, Clone, PartialEq, Eq)]
pub struct BundleStatus {
    pub confirmation_status: Option<String>,
    pub err: ExecutionPayload,
    pub transactions: Option<Vec<String>>,
}

/// The tier a decoded snapshot reports.
pub open spec fn spec_status_tier(s: BundleStatus) -> ConfirmationTier {
    spec_classify_confirmation(
        match s.confirmation_status {
            Option::Some(t) => Option::Some(t@),
            Option::None => Option::None,
        },
    )
}

/// The primary transaction signature of a snapshot: the first constituent
/// signature, when any was reported.
pub open spec fn spec_primary_signature(s: BundleStatus) -> Option<String> {
    match s.transactions {
        Option::Some(txs) => if txs@.len() > 0 {
            Option::Some(txs@[0])
        } else {
            Option::None
        },
        Option::None => Option::None,
    }
}

/// Extracts the primary transaction signature of a snapshot.
pub fn primary_signature(s: &BundleStatus) -> (r: Option<String>)
    ensures
        r == spec_primary_signature(*s),
{
    match &s.transactions {
        Option::Some(txs) => {
            if txs.len() > 0 {
                Option::Some(txs[0].clone())
            } else {
                Option::None
            }
        },
        Option::None => Option::None,
    }
}

/// Checks the execution-error payload of a snapshot: an error if and only if
/// the payload reports a real execution error, carrying that payload.
pub fn check_transaction_error(s: &BundleStatus) -> (r: Result<(), String>)
    ensures
        r is Ok <==> !(s.err is Faulty),
        r matches Err(m) ==> s.err == ExecutionPayload::Faulty(m),
{
    match &s.err {
        ExecutionPayload::Faulty(m) => Result::Err(m.clone()),
        _ => Result::Ok(()),
    }
}

/// What the finalization state machine does with one snapshot: finish with
/// success, abort with a fatal execution error, or retry.
#[derive(Debug, Clone, Copy, PartialEq, Eq, Structural)]
pub enum PhaseTwoAction {
    CompleteSuccess,
    AbortExecution,
    Retry,
}

/// The finalization transition rule: on Confirmed or Finalized a real
/// execution-error payload is fatal; Confirmed with a clean or absent
/// payload is not yet terminal; Finalized with a clean or absent payload is
/// the terminal success; any other tier is transient.
pub open spec fn spec_phase_two_action(
    tier: ConfirmationTier,
    err: ExecutionPayload,
) -> PhaseTwoAction {
    match tier {
        ConfirmationTier::Confirmed => if err is Faulty {
            PhaseTwoAction::AbortExecution
        } else {
            PhaseTwoAction::Retry
        },
        ConfirmationTier::Finalized => if err is Faulty {
            PhaseTwoAction::AbortExecution
        } else {
            PhaseTwoAction::CompleteSuccess
        },
        _ => PhaseTwoAction::Retry,
    }
}

/// Applies the finalization transition rule to one decoded snapshot.
pub fn phase_two_action(s: &BundleStatus) -> (a: PhaseTwoAction)
    ensures
        a == spec_phase_two_action(spec_status_tier(*s), s.err),
{
    let tier = classify_confirmation(&s.confirmation_status);
    let faulty = match &s.err {
        ExecutionPayload::Faulty(_) => true,
        _ => false,
    };
    match tier {
        ConfirmationTier::Confirmed => {
            if faulty {
                PhaseTwoAction::AbortExecution
            } else {
                PhaseTwoAction::Retry
            }
        },
        ConfirmationTier::Finalized => {
            if faulty {
                PhaseTwoAction::AbortExecution
            } else {
                PhaseTwoAction::CompleteSuccess
            }
        },
        _ => PhaseTwoAction::Retry,
    }
}

/// The terminal outcome of the finalization phase.
#[derive(Debug, Clone, PartialEq, Eq)]
pub enum FinalizationOutcome {
    /// The bundle finalized cleanly; the primary transaction signature is
    /// surfaced for display.
    Finalized { attempts: usize, signature: Option<String> },
    /// The instructions executed but the chain rejected them.
    ExecutionFailed { attempts: usize, error: String },
    /// The budget ran out before a Finalized snapshot was seen.
    Exhausted { attempts: usize },
}

/// The execution-error payload's message; read only where the payload is
/// known to be a real error.
pub open spec fn spec_fault_message(err: ExecutionPayload) -> String {
    match err {
        ExecutionPayload::Faulty(m) => m,
        _ => vstd::pervasive::arbitrary(),
    }
}

/// The finalization outcome when polling starts at attempt index `attempt`
/// under a total budget of `budget` attempts.
pub open spec fn spec_finalization_from(
    statuses: Seq<BundleStatus>,
    budget: usize,
    attempt: usize,
) -> FinalizationOutcome
    decreases budget - attempt,
{
    if attempt >= budget {
        FinalizationOutcome::Exhausted { attempts: budget }
    } else {
        let s = statuses[attempt as int];
        match spec_phase_two_action(spec_status_tier(s), s.err) {
            PhaseTwoAction::CompleteSuccess => FinalizationOutcome::Finalized {
                attempts: (attempt + 1) as usize,
                signature: spec_primary_signature(s),
            },
            PhaseTwoAction::AbortExecution => FinalizationOutcome::ExecutionFailed {
                attempts: (attempt + 1) as usize,
                error: spec_fault_message(s.err),
            },
            PhaseTwoAction::Retry => spec_finalization_from(
                statuses,
                budget,
                (attempt + 1) as usize,
            ),
        }
    }
}

/// The finalization outcome of a whole phase.
pub open spec fn spec_finalization_outcome(
    statuses: Seq<BundleStatus>,
    budget: usize,
) -> FinalizationOutcome {
    spec_finalization_from(statuses, budget, 0)
}

/// Runs the finalization phase over one decoded snapshot per attempt,
/// stopping at the first decisive snapshot or when the budget is exhausted.
pub fn run_finalization_phase(statuses: &Vec<BundleStatus>, budget: usize) -> (r:
    FinalizationOutcome)
    requires
        statuses@.len() >= budget,
    ensures
        r == spec_finalization_outcome(statuses@, budget),
{
    let mut attempt: usize = 0;
    while attempt < budget
        invariant
            attempt <= budget,
            statuses@.len() >= budget,
            spec_finalization_from(statuses@, budget, attempt) == spec_finalization_outcome(
                statuses@,
                budget,
            ),
        decreases budget - attempt,
    {
        let s = &statuses[attempt];
        match phase_two_action(s) {
            PhaseTwoAction::CompleteSuccess => {
                return FinalizationOutcome::Finalized {
                    attempts: attempt + 1,
                    signature: primary_signature(s),
                };
            },
            PhaseTwoAction::AbortExecution => {
                match check_transaction_error(s) {
                    Result::Err(m) => {
                        return FinalizationOutcome::ExecutionFailed {
                            attempts: attempt + 1,
                            error: m,
                        };
                    },
                    Result::Ok(_) => {
                        proof {
                            assert(false);
                        }
                    },
                }
            },
            PhaseTwoAction::Retry => {},
        }
        attempt = attempt + 1;
    }
    FinalizationOutcome::Exhausted { attempts: budget }
}

/// Why a polling session failed: the relay reported the bundle Failed while
/// in flight, or the chain reported an execution error at finalization.
#[derive(Debug, Clone, PartialEq, Eq)]
pub enum FailureReason {
    RelayReportedFailure { attempts: usize },
    ExecutionError { attempts: usize, error: String },
}

/// The terminal result of one polling session: exactly one of success (with
/// the primary transaction signature for display), typed failure, or
/// budget exhaustion with the attempts made.
#[derive(Debug, Clone, PartialEq, Eq)]
pub enum PollOutcome {
    Success { signature: Option<String> },
    Failure { reason: FailureReason },
    Exhausted { attempts: usize },
}

/// The outcome of a whole session: the in-flight phase runs first; only a
/// Landed outcome enters the finalization phase.
pub open spec fn spec_polling_session(
    events: Seq<PollEvent>,
    statuses: Seq<BundleStatus>,
    in_flight_budget: usize,
    finalization_budget: usize,
) -> PollOutcome {
    match spec_in_flight_outcome(events, in_flight_budget) {
        InFlightOutcome::Landed { attempts: _ } => match spec_finalization_outcome(
            statuses,
            finalization_budget,
        ) {
            FinalizationOutcome::Finalized { attempts: _, signature } => PollOutcome::Success {
                signature,
            },
            FinalizationOutcome::ExecutionFailed { attempts, error } => PollOutcome::Failure {
                reason: FailureReason::ExecutionError { attempts, error },
            },
            FinalizationOutcome::Exhausted { attempts } => PollOutcome::Exhausted { attempts },
        },
        InFlightOutcome::Failed { attempts } => PollOutcome::Failure {
            reason: FailureReason::RelayReportedFailure { attempts },
        },
        InFlightOutcome::Exhausted { attempts } => PollOutcome::Exhausted { attempts },
    }
}

/// Runs one full polling session: the in-flight phase over its observations,
/// then, only after a Landed outcome, the finalization phase over its
/// snapshots.
pub fn run_polling_session(
    events: &Vec<PollEvent>,
    statuses: &Vec<BundleStatus>,
    in_flight_budget: usize,
    finalization_budget: usize,
) -> (r: PollOutcome)
    requires
        events@.len() >= in_flight_budget,
        statuses@.len() >= finalization_budget,
    ensures
        r == spec_polling_session(events@, statuses@, in_flight_budget, finalization_budget),
{
    match run_in_flight_phase(events, in_flight_budget) {
        InFlightOutcome::Landed { attempts: _ } => {
            match run_finalization_phase(statuses, finalization_budget) {
                FinalizationOutcome::Finalized { attempts: _, signature } => PollOutcome::Success {
                    signature,
                },
                FinalizationOutcome::ExecutionFailed { attempts, error } => PollOutcome::Failure {
                    reason: FailureReason::ExecutionError { attempts, error },
                },
                FinalizationOutcome::Exhausted { attempts } => PollOutcome::Exhausted { attempts },
            }
        },
        InFlightOutcome::Failed { attempts } => PollOutcome::Failure {
            reason: FailureReason::RelayReportedFailure { attempts },
        },
        InFlightOutcome::Exhausted { attempts } => PollOutcome::Exhausted { attempts },
    }
}

proof fn lemma_in_flight_skips_transient(
    events: Seq<PollEvent>,
    budget: usize,
    from: usize,
    upto: usize,
)
    requires
        from <= upto <= budget,
        forall|j: int|
            from <= j < upto ==> #[trigger] spec_phase_one_action(events[j])
                == PhaseOneAction::Retry,
    ensures
        spec_in_flight_from(events, budget, from) == spec_in_flight_from(events, budget, upto),
    decreases upto - from,
{
    if from < upto {
        lemma_in_flight_skips_transient(events, budget, (from + 1) as usize, upto);
    }
}

/// A Failed in-flight status aborts at its own position, whatever budget
/// remains: if every earlier observation is transient and the observation at
/// position k is decisive as Failed, the phase ends as Failed after exactly
/// k + 1 attempts.
pub proof fn lemma_failed_aborts_immediately(events: Seq<PollEvent>, budget: usize, k: usize)
    requires
        (k as int) < budget,
        spec_phase_one_action(events[k as int]) == PhaseOneAction::AbortFailed,
        forall|j: int|
            0 <= j < k ==> #[trigger] spec_phase_one_action(events[j]) == PhaseOneAction::Retry,
    ensures
        spec_in_flight_outcome(events, budget) == (InFlightOutcome::Failed {
            attempts: (k + 1) as usize,
        }),
{
    lemma_in_flight_skips_transient(events, budget, 0, k);
}

/// A Landed in-flight status advances to the finalization phase at its own
/// position: if every earlier observation is transient and the observation
/// at position k is Landed, the phase ends as Landed after exactly k + 1
/// attempts.
pub proof fn lemma_landed_advances(events: Seq<PollEvent>, budget: usize, k: usize)
    requires
        (k as int) < budget,
        spec_phase_one_action(events[k as int]) == PhaseOneAction::EnterFinalization,
        forall|j: int|
            0 <= j < k ==> #[trigger] spec_phase_one_action(events[j]) == PhaseOneAction::Retry,
    ensures
        spec_in_flight_outcome(events, budget) == (InFlightOutcome::Landed {
            attempts: (k + 1) as usize,
        }),
{
    lemma_in_flight_skips_transient(events, budget, 0, k);
}

/// A full budget of transient observations (all Pending, for instance)
/// exhausts the in-flight phase: the outcome is timeout-exhaustion carrying
/// the whole budget, never a fatal failure.
pub proof fn lemma_all_transient_exhausts(events: Seq<PollEvent>, budget: usize)
    requires
        forall|j: int|
            0 <= j < budget ==> #[trigger] spec_phase_one_action(events[j])
                == PhaseOneAction::Retry,
    ensures
        spec_in_flight_outcome(events, budget) == (InFlightOutcome::Exhausted { attempts: budget }),
{
    lemma_in_flight_skips_transient(events, budget, 0, budget);
}

/// The finalization termination rules, for every snapshot: Confirmed with a
/// clean or absent error payload never terminates the phase; Finalized with
/// a clean or absent payload is the only transition to success; a real
/// execution error on either tier aborts fatally, never succeeds.
pub proof fn lemma_finalization_rules(s: BundleStatus)
    ensures
        spec_status_tier(s) == ConfirmationTier::Confirmed && !(s.err is Faulty)
            ==> spec_phase_two_action(spec_status_tier(s), s.err) == PhaseTwoAction::Retry,
        spec_status_tier(s) == ConfirmationTier::Finalized && !(s.err is Faulty)
            ==> spec_phase_two_action(spec_status_tier(s), s.err)
            == PhaseTwoAction::CompleteSuccess,
        s.err is Faulty && (spec_status_tier(s) == ConfirmationTier::Confirmed
            || spec_status_tier(s) == ConfirmationTier::Finalized) ==> spec_phase_two_action(
            spec_status_tier(s),
            s.err,
        ) == PhaseTwoAction::AbortExecution,
        spec_phase_two_action(spec_status_tier(s), s.err) == PhaseTwoAction::CompleteSuccess
            ==> spec_status_tier(s) == ConfirmationTier::Finalized && !(s.err is Faulty),
{
}

} // verus!
