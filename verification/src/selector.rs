//! The v1 transport selector as a state machine: `QUIC` first, `WSS` after a
//! fallback-eligible `QUIC` failure, cached posture honoured, every attempt
//! traced. The driver performs each step the machine asks for (connecting a
//! carrier, reaching `Secure Ready`) and hands the outcome back.

use vstd::prelude::*;

use crate::descriptor::{ServiceDescriptor, snapshot_of};
use crate::error::{ApiError, ApiResult};
use crate::session::{CacheDisposition, SecureReadyReport};
use crate::transport::{
    CandidateSource, CarrierKind, FallbackReason, TransportCacheSnapshot, TransportCandidate,
};

verus! {

/// One recorded selector attempt for observability and tests.
#[derive(Debug, Clone, Copy, PartialEq, Eq)]
pub struct TransportAttemptTrace {
    /// Carrier that was attempted.
    pub carrier: CarrierKind,
    /// Why the candidate appeared in this position.
    pub source: CandidateSource,
    /// Terminal or successful outcome for the candidate.
    pub outcome: TransportAttemptOutcome,
}

/// Outcome of one selector attempt.
#[derive(Debug, Clone, Copy, PartialEq, Eq)]
pub enum TransportAttemptOutcome {
    /// The carrier reached `Secure Ready`.
    SecureReady,
    /// The attempt failed with a fallback-eligible `QUIC` reason.
    Fallback(FallbackReason),
    /// The attempt failed and must stop transport selection.
    Failed(ApiError),
}

/// Selector failure with the attempt trace preserved.
#[derive(Debug, PartialEq, Eq)]
pub struct TransportSelectionError {
    /// Terminal selector cause.
    pub cause: ApiError,
    /// Attempt trace collected before the failure.
    pub attempts: Vec<TransportAttemptTrace>,
}

/// What a successful selection reports, beside the transport itself.
#[derive(Debug, PartialEq, Eq)]
pub struct SelectionSuccess {
    /// Higher-layer report describing the selected carrier and cache posture.
    pub report: SecureReadyReport,
    /// Updated coarse cache posture for later selection attempts.
    pub cache_snapshot: TransportCacheSnapshot,
    /// Attempt trace for observability and tests.
    pub attempts: Vec<TransportAttemptTrace>,
}

/// How one attempt ended, as far as selection goes on.
#[derive(Debug, Clone, Copy, PartialEq, Eq)]
pub enum AttemptState {
    /// The attempt failed with a fallback-eligible reason; try the next candidate.
    Continue(FallbackReason),
    /// The attempt succeeded.
    Ready,
}

/// A copy of an attempt trace.
pub fn clone_attempts(attempts: &Vec<TransportAttemptTrace>) -> (r: Vec<TransportAttemptTrace>)
    ensures
        r@ == attempts@,
{
    let mut out: Vec<TransportAttemptTrace> = Vec::new();
    let mut i: usize = 0;
    while i < attempts.len()
        invariant
            i <= attempts@.len(),
            out@ == attempts@.subrange(0, i as int),
        decreases attempts@.len() - i,
    {
        out.push(attempts[i]);
        i = i + 1;
        assert(out@ =~= attempts@.subrange(0, i as int));
    }
    assert(attempts@.subrange(0, attempts@.len() as int) =~= attempts@);
    out
}

impl Clone for TransportSelectionError {
    fn clone(&self) -> (r: Self)
        ensures
            r.cause == self.cause,
            r.attempts@ == self.attempts@,
    {
        TransportSelectionError { cause: self.cause, attempts: clone_attempts(&self.attempts) }
    }
}

impl TransportSelectionError {
    /// How this error reads: its cause, after `transport selection failed: `.
    pub fn message(&self) -> (s: String)
        ensures
            s@ == "transport selection failed: "@ + crate::error::api_error_message(self.cause),
    {
        let cause = self.cause.message();
        crate::text::concat_str("transport selection failed: ", cause.as_str())
    }

    /// A selection error raised before any attempt.
    pub fn without_attempts(cause: ApiError) -> (r: Self)
        ensures
            r.cause == cause,
            r.attempts@ == Seq::<TransportAttemptTrace>::empty(),
    {
        TransportSelectionError { cause, attempts: Vec::new() }
    }

    /// A selection error carrying a copy of the attempts so far.
    pub fn with_attempts(cause: ApiError, attempts: &Vec<TransportAttemptTrace>) -> (r: Self)
        ensures
            r.cause == cause,
            r.attempts@ == attempts@,
    {
        TransportSelectionError { cause, attempts: clone_attempts(attempts) }
    }
}

/// The record of an attempt that stops selection.
pub open spec fn failed_trace(
    source: CandidateSource,
    carrier: CarrierKind,
    cause: ApiError,
) -> TransportAttemptTrace {
    TransportAttemptTrace { carrier, source, outcome: TransportAttemptOutcome::Failed(cause) }
}

/// The record of an attempt that stops selection.
pub fn failed_attempt(source: CandidateSource, carrier: CarrierKind, cause: ApiError) -> (r:
    TransportAttemptTrace)
    ensures
        r == failed_trace(source, carrier, cause),
{
    TransportAttemptTrace { carrier, source, outcome: TransportAttemptOutcome::Failed(cause) }
}

/// The cache disposition a plan's first candidate implies.
pub open spec fn cache_disposition_spec(source: Option<CandidateSource>) -> CacheDisposition {
    match source {
        Some(CandidateSource::CachedQuicBadNetwork) => CacheDisposition::CachedFallback,
        Some(CandidateSource::QuicReprobeAfterCachedFallback) => CacheDisposition::Reprobe,
        _ => CacheDisposition::LiveProbe,
    }
}

/// The cache disposition a plan's first candidate implies.
pub fn cache_disposition(source: Option<CandidateSource>) -> (d: CacheDisposition)
    ensures
        d == cache_disposition_spec(source),
{
    match source {
        Some(CandidateSource::CachedQuicBadNetwork) => CacheDisposition::CachedFallback,
        Some(CandidateSource::QuicReprobeAfterCachedFallback) => CacheDisposition::Reprobe,
        _ => CacheDisposition::LiveProbe,
    }
}

/// The fallback reason a selection starts with: the cached one when cached
/// posture skipped `QUIC`, none otherwise.
pub open spec fn initial_fallback_reason_spec(
    cache_state: CacheDisposition,
    cached_reason: Option<FallbackReason>,
) -> Option<FallbackReason> {
    match cache_state {
        CacheDisposition::CachedFallback => cached_reason,
        _ => None,
    }
}

/// The fallback reason a selection starts with.
pub fn initial_fallback_reason(
    cache_state: CacheDisposition,
    cached_reason: Option<FallbackReason>,
) -> (r: Option<FallbackReason>)
    ensures
        r == initial_fallback_reason_spec(cache_state, cached_reason),
{
    match cache_state {
        CacheDisposition::CachedFallback => cached_reason,
        CacheDisposition::LiveProbe | CacheDisposition::Reprobe => None,
    }
}

/// `a + b`, or `u64::MAX` when that overflows.
pub open spec fn saturating_add_spec(a: u64, b: u64) -> u64 {
    if a + b > u64::MAX {
        u64::MAX
    } else {
        (a + b) as u64
    }
}

/// The highest descriptor serial accepted once `serial` is accepted.
pub open spec fn highest_serial_spec(previous: Option<TransportCacheSnapshot>, serial: u64) -> u64 {
    match previous {
        Some(c) => match c.highest_descriptor_serial {
            Some(h) => if h > serial {
                h
            } else {
                serial
            },
            None => serial,
        },
        None => serial,
    }
}

/// The cache posture a successful selection leaves behind.
///
/// `QUIC` success forgets any `QUIC` failure and reprobe deadline. `WSS`
/// success under cached posture keeps the cached failure and deadline, so it
/// never extends the deadline. `WSS` success after a live `QUIC` fallback
/// records the fallback reason and a reprobe deadline `delay` seconds from now.
/// The highest accepted descriptor serial never decreases.
pub open spec fn updated_cache_snapshot_spec(
    carrier: CarrierKind,
    cache_state: CacheDisposition,
    fallback_reason: Option<FallbackReason>,
    previous: Option<TransportCacheSnapshot>,
    now: u64,
    delay: u64,
    serial: u64,
) -> TransportCacheSnapshot {
    let highest = Some(highest_serial_spec(previous, serial));
    match carrier {
        CarrierKind::Quic => TransportCacheSnapshot {
            last_successful_carrier: Some(CarrierKind::Quic),
            last_quic_failure: None,
            next_quic_probe_after_unix_seconds: None,
            highest_descriptor_serial: highest,
        },
        CarrierKind::Wss => match cache_state {
            CacheDisposition::CachedFallback => TransportCacheSnapshot {
                last_successful_carrier: Some(CarrierKind::Wss),
                last_quic_failure: if fallback_reason is Some {
                    fallback_reason
                } else {
                    match previous {
                        Some(c) => c.last_quic_failure,
                        None => None,
                    }
                },
                next_quic_probe_after_unix_seconds: match previous {
                    Some(c) => c.next_quic_probe_after_unix_seconds,
                    None => None,
                },
                highest_descriptor_serial: highest,
            },
            _ => TransportCacheSnapshot {
                last_successful_carrier: Some(CarrierKind::Wss),
                last_quic_failure: fallback_reason,
                next_quic_probe_after_unix_seconds: if fallback_reason is Some {
                    Some(saturating_add_spec(now, delay))
                } else {
                    None
                },
                highest_descriptor_serial: highest,
            },
        },
    }
}

/// The cache posture a successful selection leaves behind.
pub fn updated_cache_snapshot(
    carrier: CarrierKind,
    cache_state: CacheDisposition,
    fallback_reason: Option<FallbackReason>,
    previous_cache: Option<&TransportCacheSnapshot>,
    now_unix_seconds: u64,
    quic_reprobe_delay_seconds: u64,
    descriptor_serial: u64,
) -> (r: TransportCacheSnapshot)
    ensures
        r == updated_cache_snapshot_spec(
            carrier,
            cache_state,
            fallback_reason,
            snapshot_of(previous_cache),
            now_unix_seconds,
            quic_reprobe_delay_seconds,
            descriptor_serial,
        ),
{
    let highest = match previous_cache {
        Some(snapshot) => match snapshot.highest_descriptor_serial {
            Some(h) => if h > descriptor_serial {
                h
            } else {
                descriptor_serial
            },
            None => descriptor_serial,
        },
        None => descriptor_serial,
    };
    match carrier {
        CarrierKind::Quic => TransportCacheSnapshot {
            last_successful_carrier: Some(CarrierKind::Quic),
            last_quic_failure: None,
            next_quic_probe_after_unix_seconds: None,
            highest_descriptor_serial: Some(highest),
        },
        CarrierKind::Wss => match cache_state {
            CacheDisposition::CachedFallback => TransportCacheSnapshot {
                last_successful_carrier: Some(CarrierKind::Wss),
                last_quic_failure: match fallback_reason {
                    Some(reason) => Some(reason),
                    None => match previous_cache {
                        Some(snapshot) => snapshot.last_quic_failure,
                        None => None,
                    },
                },
                next_quic_probe_after_unix_seconds: match previous_cache {
                    Some(snapshot) => snapshot.next_quic_probe_after_unix_seconds,
                    None => None,
                },
                highest_descriptor_serial: Some(highest),
            },
            CacheDisposition::LiveProbe | CacheDisposition::Reprobe => TransportCacheSnapshot {
                last_successful_carrier: Some(CarrierKind::Wss),
                last_quic_failure: fallback_reason,
                next_quic_probe_after_unix_seconds: match fallback_reason {
                    Some(_) => Some(now_unix_seconds.saturating_add(quic_reprobe_delay_seconds)),
                    None => None,
                },
                highest_descriptor_serial: Some(highest),
            },
        },
    }
}

/// Checks the connector configured for `carrier`, given the carrier that
/// connector reports (`None` when no connector is configured).
pub fn connector_for(carrier: CarrierKind, connector_carrier: Option<CarrierKind>) -> (r: ApiResult<
    CarrierKind,
>)
    ensures
        connector_carrier is None ==> r == Err::<CarrierKind, ApiError>(
            ApiError::MissingCarrierConnector(carrier),
        ),
        connector_carrier matches Some(c) && c != carrier ==> r == Err::<CarrierKind, ApiError>(
            ApiError::TransportSelectorInvariant(
                "connector carrier does not match the requested target",
            ),
        ),
        connector_carrier == Some(carrier) ==> r == Ok::<CarrierKind, ApiError>(carrier),
{
    let connector = match connector_carrier {
        Some(c) => c,
        None => {
            return Err(ApiError::MissingCarrierConnector(carrier));
        },
    };
    if !connector.same_as(&carrier) {
        return Err(
            ApiError::TransportSelectorInvariant(
                "connector carrier does not match the requested target",
            ),
        );
    }
    Ok(connector)
}

/// The trace entry an attempt result leaves, if any: none for success, a
/// fallback entry for a `QUIC` fallback, a failure entry otherwise.
pub open spec fn attempt_trace_spec(
    source: CandidateSource,
    carrier: CarrierKind,
    result: ApiResult<CarrierKind>,
) -> Option<TransportAttemptTrace> {
    match result {
        Ok(returned) => if returned == carrier {
            None
        } else {
            Some(failed_trace(source, carrier, wrong_carrier_error()))
        },
        Err(ApiError::TransportFallback(reason)) => if carrier == CarrierKind::Quic {
            Some(
                TransportAttemptTrace {
                    carrier,
                    source,
                    outcome: TransportAttemptOutcome::Fallback(reason),
                },
            )
        } else {
            Some(failed_trace(source, carrier, wss_fallback_error()))
        },
        Err(cause) => Some(failed_trace(source, carrier, cause)),
    }
}

/// How an attempt result lets selection go on, or the error that stops it.
pub open spec fn attempt_outcome_spec(carrier: CarrierKind, result: ApiResult<CarrierKind>) -> Result<
    AttemptState,
    ApiError,
> {
    match result {
        Ok(returned) => if returned == carrier {
            Ok(AttemptState::Ready)
        } else {
            Err(wrong_carrier_error())
        },
        Err(ApiError::TransportFallback(reason)) => if carrier == CarrierKind::Quic {
            Ok(AttemptState::Continue(reason))
        } else {
            Err(wss_fallback_error())
        },
        Err(cause) => Err(cause),
    }
}

/// The error for a transport that came back on the wrong carrier.
pub open spec fn wrong_carrier_error() -> ApiError {
    ApiError::TransportSelectorInvariant("attempt returned a framed transport for the wrong carrier")
}

/// The error for a fallback request from a non-`QUIC` attempt.
pub open spec fn wss_fallback_error() -> ApiError {
    ApiError::TransportSelectorInvariant("only QUIC attempts may request WSS fallback")
}

/// The attempt trace after an attempt result is recorded.
pub open spec fn traced(
    attempts: Seq<TransportAttemptTrace>,
    source: CandidateSource,
    carrier: CarrierKind,
    result: ApiResult<CarrierKind>,
) -> Seq<TransportAttemptTrace> {
    match attempt_trace_spec(source, carrier, result) {
        Some(t) => attempts.push(t),
        None => attempts,
    }
}

/// Classifies the result of one attempt on `candidate`: records it in
/// `attempts` and says whether selection may go on.
///
/// `result` is the carrier of the transport the attempt returned, or its
/// error. A transport on another carrier, a fallback request from a non-`QUIC`
/// attempt, and any other error stop selection with the attempts so far.
pub fn classify_attempt(
    candidate: &TransportCandidate,
    attempts: &mut Vec<TransportAttemptTrace>,
    result: ApiResult<CarrierKind>,
) -> (r: Result<AttemptState, TransportSelectionError>)
    ensures
        final(attempts)@ == traced(
            old(attempts)@,
            candidate.source,
            candidate.target.carrier_spec(),
            result,
        ),
        attempt_outcome_spec(candidate.target.carrier_spec(), result) matches Ok(s) ==> r == Ok::<
            AttemptState,
            TransportSelectionError,
        >(s),
        attempt_outcome_spec(candidate.target.carrier_spec(), result) matches Err(cause) ==> (
        r matches Err(e) && e.cause == cause && e.attempts@ == final(attempts)@),
{
    let carrier = candidate.target.carrier();
    match result {
        Ok(returned) => {
            if !returned.same_as(&carrier) {
                let cause = ApiError::TransportSelectorInvariant(
                    "attempt returned a framed transport for the wrong carrier",
                );
                attempts.push(failed_attempt(candidate.source, carrier, cause));
                return Err(TransportSelectionError::with_attempts(cause, attempts));
            }
            Ok(AttemptState::Ready)
        },
        Err(ApiError::TransportFallback(reason)) => {
            match carrier {
                CarrierKind::Quic => {
                    attempts.push(
                        TransportAttemptTrace {
                            carrier,
                            source: candidate.source,
                            outcome: TransportAttemptOutcome::Fallback(reason),
                        },
                    );
                    Ok(AttemptState::Continue(reason))
                },
                CarrierKind::Wss => {
                    let cause = ApiError::TransportSelectorInvariant(
                        "only QUIC attempts may request WSS fallback",
                    );
                    attempts.push(failed_attempt(candidate.source, carrier, cause));
                    Err(TransportSelectionError::with_attempts(cause, attempts))
                },
            }
        },
        Err(cause) => {
            attempts.push(failed_attempt(candidate.source, carrier, cause));
            Err(TransportSelectionError::with_attempts(cause, attempts))
        },
    }
}

/// The cause a selection that ran out of candidates reports.
pub open spec fn exhausted_cause_spec(fallback_reason: Option<FallbackReason>) -> ApiError {
    match fallback_reason {
        Some(reason) => ApiError::TransportSelectionExhaustedWithFallback(reason),
        None => ApiError::TransportSelectionExhausted,
    }
}

/// Selection progress: the cache disposition, the fallback reason so far,
/// the attempt trace and the length of the plan.
#[derive(Debug)]
pub struct SelectionState {
    /// Whether cached posture shaped the plan.
    pub cache_state: CacheDisposition,
    /// The most recent fallback-eligible `QUIC` failure.
    pub fallback_reason: Option<FallbackReason>,
    /// Attempts so far.
    pub attempts: Vec<TransportAttemptTrace>,
    /// Number of candidates in the plan.
    pub plan_len: usize,
}

impl SelectionState {
    /// Starts selection over a plan of `plan_len` candidates whose first
    /// candidate has `first_candidate_source`.
    pub fn new(
        plan_len: usize,
        first_candidate_source: Option<CandidateSource>,
        cache: Option<&TransportCacheSnapshot>,
    ) -> (s: Self)
        ensures
            s.cache_state == cache_disposition_spec(first_candidate_source),
            s.fallback_reason == initial_fallback_reason_spec(
                s.cache_state,
                match snapshot_of(cache) {
                    Some(c) => c.last_quic_failure,
                    None => None,
                },
            ),
            s.attempts@ == Seq::<TransportAttemptTrace>::empty(),
            s.plan_len == plan_len,
    {
        let cache_state = cache_disposition(first_candidate_source);
        let cached_reason = match cache {
            Some(snapshot) => snapshot.last_quic_failure,
            None => None,
        };
        SelectionState {
            cache_state,
            fallback_reason: initial_fallback_reason(cache_state, cached_reason),
            attempts: Vec::new(),
            plan_len,
        }
    }

    /// The cause to report when no candidate is left.
    pub fn exhausted_cause(&self) -> (cause: ApiError)
        ensures
            cause == exhausted_cause_spec(self.fallback_reason),
    {
        match self.fallback_reason {
            Some(reason) => ApiError::TransportSelectionExhaustedWithFallback(reason),
            None => ApiError::TransportSelectionExhausted,
        }
    }

    /// A selection error with `cause` and a copy of the attempts so far.
    pub fn clone_attempts_error(&self, cause: ApiError) -> (e: TransportSelectionError)
        ensures
            e.cause == cause,
            e.attempts@ == self.attempts@,
    {
        TransportSelectionError::with_attempts(cause, &self.attempts)
    }

    /// Records a fallback-eligible failure of candidate `index`; fails with
    /// the exhausted cause when it was the last candidate.
    pub fn handle_fallback(&mut self, index: usize, reason: FallbackReason) -> (r: Result<
        (),
        TransportSelectionError,
    >)
        requires
            index < old(self).plan_len,
        ensures
            final(self).fallback_reason == Some(reason),
            final(self).cache_state == old(self).cache_state,
            final(self).attempts@ == old(self).attempts@,
            final(self).plan_len == old(self).plan_len,
            index + 1 < old(self).plan_len ==> r is Ok,
            index + 1 >= old(self).plan_len ==> (r matches Err(e) && e.cause
                == ApiError::TransportSelectionExhaustedWithFallback(reason) && e.attempts@
                == old(self).attempts@),
    {
        self.fallback_reason = Some(reason);
        if index + 1 < self.plan_len {
            return Ok(());
        }
        let cause = self.exhausted_cause();
        Err(self.clone_attempts_error(cause))
    }

    /// The selection error for a plan that ran out of candidates.
    pub fn into_exhausted_error(self) -> (e: TransportSelectionError)
        ensures
            e.cause == exhausted_cause_spec(self.fallback_reason),
            e.attempts@ == self.attempts@,
    {
        let cause = self.exhausted_cause();
        TransportSelectionError { cause, attempts: self.attempts }
    }

    /// The report, cache posture and trace of a selection that reached
    /// `Secure Ready` on `carrier`.
    pub fn finish_success(
        self,
        carrier: CarrierKind,
        previous_cache: Option<&TransportCacheSnapshot>,
        now_unix_seconds: u64,
        quic_reprobe_delay_seconds: u64,
        descriptor_serial: u64,
    ) -> (r: SelectionSuccess)
        ensures
            r.report == (SecureReadyReport {
                carrier,
                cache_state: self.cache_state,
                fallback_reason: self.fallback_reason,
            }),
            r.cache_snapshot == updated_cache_snapshot_spec(
                carrier,
                self.cache_state,
                self.fallback_reason,
                snapshot_of(previous_cache),
                now_unix_seconds,
                quic_reprobe_delay_seconds,
                descriptor_serial,
            ),
            r.attempts@ == self.attempts@,
    {
        let report = SecureReadyReport {
            carrier,
            cache_state: self.cache_state,
            fallback_reason: self.fallback_reason,
        };
        let cache_snapshot = updated_cache_snapshot(
            carrier,
            self.cache_state,
            self.fallback_reason,
            previous_cache,
            now_unix_seconds,
            quic_reprobe_delay_seconds,
            descriptor_serial,
        );
        SelectionSuccess { report, cache_snapshot, attempts: self.attempts }
    }
}

/// Where a selection run stands.
pub struct RunView {
    /// The connect plan.
    pub plan: Seq<TransportCandidate>,
    /// The candidate being attempted.
    pub index: int,
    /// Whether cached posture shaped the plan.
    pub cache_state: CacheDisposition,
    /// The most recent fallback-eligible `QUIC` failure.
    pub fallback_reason: Option<FallbackReason>,
    /// Attempts so far.
    pub attempts: Seq<TransportAttemptTrace>,
    /// The cache snapshot selection started from.
    pub previous_cache: Option<TransportCacheSnapshot>,
    /// The time selection runs at.
    pub now: u64,
    /// Seconds after a live fallback before `QUIC` is tried again.
    pub delay: u64,
    /// Serial of the descriptor selection runs for.
    pub serial: u64,
}

/// A selection in progress over a non-empty connect plan.
pub struct SelectorRun {
    plan: Vec<TransportCandidate>,
    state: SelectionState,
    index: usize,
    previous_cache: Option<TransportCacheSnapshot>,
    now_unix_seconds: u64,
    quic_reprobe_delay_seconds: u64,
    descriptor_serial: u64,
}

impl View for SelectorRun {
    type V = RunView;

    closed spec fn view(&self) -> RunView {
        RunView {
            plan: self.plan@,
            index: self.index as int,
            cache_state: self.state.cache_state,
            fallback_reason: self.state.fallback_reason,
            attempts: self.state.attempts@,
            previous_cache: self.previous_cache,
            now: self.now_unix_seconds,
            delay: self.quic_reprobe_delay_seconds,
            serial: self.descriptor_serial,
        }
    }
}

/// What the selector asks for next, or how selection ended.
pub enum SelectorStep {
    /// Establish the outer carrier of the run's current candidate.
    Connect(SelectorRun),
    /// Drive the established transport of the current candidate to `Secure Ready`.
    ReachSecureReady(SelectorRun),
    /// Selection reached `Secure Ready`.
    Selected(SelectionSuccess),
    /// Selection stopped.
    Failed(TransportSelectionError),
}

/// What a selector step says.
pub enum StepView {
    /// Connect the current candidate of this run.
    Connect(RunView),
    /// Reach `Secure Ready` on the current candidate of this run.
    ReachSecureReady(RunView),
    /// Selection succeeded with this report, cache posture and trace.
    Selected(SecureReadyReport, TransportCacheSnapshot, Seq<TransportAttemptTrace>),
    /// Selection failed with this cause and trace.
    Failed(ApiError, Seq<TransportAttemptTrace>),
}

impl View for SelectorStep {
    type V = StepView;

    open spec fn view(&self) -> StepView {
        match self {
            SelectorStep::Connect(run) => StepView::Connect(run@),
            SelectorStep::ReachSecureReady(run) => StepView::ReachSecureReady(run@),
            SelectorStep::Selected(s) => StepView::Selected(
                s.report,
                s.cache_snapshot,
                s.attempts@,
            ),
            SelectorStep::Failed(e) => StepView::Failed(e.cause, e.attempts@),
        }
    }
}

/// The step after a fallback-eligible failure: the next candidate, or the
/// exhausted cause when none is left.
pub open spec fn fallback_step(
    v: RunView,
    attempts: Seq<TransportAttemptTrace>,
    reason: FallbackReason,
) -> StepView {
    if v.index + 1 < v.plan.len() {
        StepView::Connect(
            RunView { index: v.index + 1, attempts, fallback_reason: Some(reason), ..v },
        )
    } else {
        StepView::Failed(ApiError::TransportSelectionExhaustedWithFallback(reason), attempts)
    }
}

/// The step after the current candidate's connection attempt returned `result`.
pub open spec fn connected_step(v: RunView, result: ApiResult<CarrierKind>) -> StepView {
    let candidate = v.plan[v.index];
    let carrier = candidate.target.carrier_spec();
    let attempts = traced(v.attempts, candidate.source, carrier, result);
    match attempt_outcome_spec(carrier, result) {
        Ok(AttemptState::Ready) => StepView::ReachSecureReady(v),
        Ok(AttemptState::Continue(reason)) => fallback_step(v, attempts, reason),
        Err(cause) => StepView::Failed(cause, attempts),
    }
}

/// The step after driving the current candidate to `Secure Ready` returned `result`.
pub open spec fn secure_ready_step(v: RunView, result: ApiResult<CarrierKind>) -> StepView {
    let candidate = v.plan[v.index];
    let carrier = candidate.target.carrier_spec();
    let attempts = traced(v.attempts, candidate.source, carrier, result);
    match attempt_outcome_spec(carrier, result) {
        Ok(AttemptState::Ready) => StepView::Selected(
            SecureReadyReport {
                carrier,
                cache_state: v.cache_state,
                fallback_reason: v.fallback_reason,
            },
            updated_cache_snapshot_spec(
                carrier,
                v.cache_state,
                v.fallback_reason,
                v.previous_cache,
                v.now,
                v.delay,
                v.serial,
            ),
            v.attempts.push(
                TransportAttemptTrace {
                    carrier,
                    source: candidate.source,
                    outcome: TransportAttemptOutcome::SecureReady,
                },
            ),
        ),
        Ok(AttemptState::Continue(reason)) => fallback_step(v, attempts, reason),
        Err(cause) => StepView::Failed(cause, attempts),
    }
}

/// The step after the connector check for the current candidate.
pub open spec fn connector_step(v: RunView, connector_carrier: Option<CarrierKind>) -> StepView {
    let carrier = v.plan[v.index].target.carrier_spec();
    match connector_carrier {
        None => StepView::Failed(ApiError::MissingCarrierConnector(carrier), v.attempts),
        Some(c) => if c == carrier {
            StepView::Connect(v)
        } else {
            StepView::Failed(
                ApiError::TransportSelectorInvariant(
                    "connector carrier does not match the requested target",
                ),
                v.attempts,
            )
        },
    }
}

impl SelectorRun {
    #[verifier::type_invariant]
    spec fn well_formed(self) -> bool {
        &&& self.plan@.len() > 0
        &&& self.index < self.plan@.len()
        &&& self.state.plan_len == self.plan@.len()
    }

    /// Whether a run is positioned on one of its plan's candidates.
    pub closed spec fn positioned(&self) -> bool {
        self.index < self.plan@.len()
    }

    /// The candidate being attempted.
    pub fn candidate(&self) -> (c: &TransportCandidate)
        ensures
            *c == self@.plan[self@.index],
            0 <= self@.index < self@.plan.len(),
    {
        proof {
            use_type_invariant(self);
        }
        &self.plan[self.index]
    }

    /// Attempts so far.
    pub fn attempts(&self) -> (a: &Vec<TransportAttemptTrace>)
        ensures
            a@ == self@.attempts,
    {
        &self.state.attempts
    }

    /// Checks the connector configured for the current candidate's carrier,
    /// given the carrier that connector reports (`None` when none is
    /// configured). `Connect` means: go ahead and connect.
    pub fn check_connector(self, connector_carrier: Option<CarrierKind>) -> (step: SelectorStep)
        ensures
            step@ == connector_step(self@, connector_carrier),
    {
        proof {
            use_type_invariant(&self);
        }
        let carrier = self.plan[self.index].target.carrier();
        match connector_for(carrier, connector_carrier) {
            Ok(_) => SelectorStep::Connect(self),
            Err(cause) => SelectorStep::Failed(self.state.clone_attempts_error(cause)),
        }
    }

    fn advance(self, reason: FallbackReason, attempts: Vec<TransportAttemptTrace>) -> (step: SelectorStep)
        ensures
            step@ == fallback_step(self@, attempts@, reason),
    {
        proof {
            use_type_invariant(&self);
        }
        let SelectorRun {
            plan,
            state,
            index,
            previous_cache,
            now_unix_seconds,
            quic_reprobe_delay_seconds,
            descriptor_serial,
        } = self;
        let mut state = SelectionState {
            cache_state: state.cache_state,
            fallback_reason: state.fallback_reason,
            attempts,
            plan_len: state.plan_len,
        };
        match state.handle_fallback(index, reason) {
            Ok(()) => SelectorStep::Connect(
                SelectorRun {
                    plan,
                    state,
                    index: index + 1,
                    previous_cache,
                    now_unix_seconds,
                    quic_reprobe_delay_seconds,
                    descriptor_serial,
                },
            ),
            Err(e) => SelectorStep::Failed(e),
        }
    }

    /// Takes the result of connecting the current candidate: the carrier of
    /// the framed transport it returned, or its error.
    pub fn on_connected(self, result: ApiResult<CarrierKind>) -> (step: SelectorStep)
        ensures
            step@ == connected_step(self@, result),
    {
        proof {
            use_type_invariant(&self);
        }
        let mut attempts = clone_attempts(&self.state.attempts);
        let candidate = &self.plan[self.index];
        match classify_attempt(candidate, &mut attempts, result) {
            Ok(AttemptState::Ready) => SelectorStep::ReachSecureReady(self),
            Ok(AttemptState::Continue(reason)) => self.advance(reason, attempts),
            Err(e) => SelectorStep::Failed(e),
        }
    }

    /// Takes the result of driving the current candidate to `Secure Ready`:
    /// the carrier of the secure transport, or its error.
    pub fn on_secure_ready(self, result: ApiResult<CarrierKind>) -> (step: SelectorStep)
        ensures
            step@ == secure_ready_step(self@, result),
    {
        proof {
            use_type_invariant(&self);
        }
        let mut attempts = clone_attempts(&self.state.attempts);
        let candidate = &self.plan[self.index];
        let carrier = candidate.target.carrier();
        let source = candidate.source;
        match classify_attempt(candidate, &mut attempts, result) {
            Ok(AttemptState::Ready) => {
                let SelectorRun {
                    plan,
                    state,
                    index,
                    previous_cache,
                    now_unix_seconds,
                    quic_reprobe_delay_seconds,
                    descriptor_serial,
                } = self;
                let mut state = state;
                state.attempts.push(
                    TransportAttemptTrace {
                        carrier,
                        source,
                        outcome: TransportAttemptOutcome::SecureReady,
                    },
                );
                let previous = match &previous_cache {
                    Some(c) => Some(c),
                    None => None,
                };
                SelectorStep::Selected(
                    state.finish_success(
                        carrier,
                        previous,
                        now_unix_seconds,
                        quic_reprobe_delay_seconds,
                        descriptor_serial,
                    ),
                )
            },
            Ok(AttemptState::Continue(reason)) => self.advance(reason, attempts),
            Err(e) => SelectorStep::Failed(e),
        }
    }
}

/// Minimal transport-selector configuration for the v1 selection flow.
#[derive(Debug, Clone, Copy, PartialEq, Eq)]
pub struct TransportSelector {
    quic_reprobe_delay_seconds: u64,
}

impl TransportSelector {
    /// Seconds after a live fallback before `QUIC` is tried again.
    pub closed spec fn delay(&self) -> u64 {
        self.quic_reprobe_delay_seconds
    }

    /// Creates a selector with a caller-supplied `QUIC` reprobe delay.
    pub fn new(quic_reprobe_delay_seconds: u64) -> (s: Self)
        ensures
            s.delay() == quic_reprobe_delay_seconds,
    {
        TransportSelector { quic_reprobe_delay_seconds }
    }

    /// Starts the v1 `QUIC`-first selection flow for a descriptor.
    ///
    /// Fails, with no attempts, when the descriptor yields no connect plan;
    /// otherwise asks to connect the plan's first candidate.
    pub fn start(
        &self,
        descriptor: &ServiceDescriptor,
        cache: Option<&TransportCacheSnapshot>,
        now_unix_seconds: u64,
    ) -> (step: SelectorStep)
        ensures
            descriptor.plan_result(snapshot_of(cache), now_unix_seconds) matches Err(e) ==> step@
                == StepView::Failed(e, Seq::<TransportAttemptTrace>::empty()),
            descriptor.plan_result(snapshot_of(cache), now_unix_seconds) matches Ok(plan) ==> step@
                == StepView::Connect(
                RunView {
                    plan,
                    index: 0,
                    cache_state: cache_disposition_spec(Some(plan[0].source)),
                    fallback_reason: initial_fallback_reason_spec(
                        cache_disposition_spec(Some(plan[0].source)),
                        match snapshot_of(cache) {
                            Some(c) => c.last_quic_failure,
                            None => None,
                        },
                    ),
                    attempts: Seq::empty(),
                    previous_cache: snapshot_of(cache),
                    now: now_unix_seconds,
                    delay: self.delay(),
                    serial: descriptor.descriptor_serial,
                },
            ),
    {
        let plan = match descriptor.connect_plan(cache, now_unix_seconds) {
            Ok(plan) => plan,
            Err(cause) => {
                return SelectorStep::Failed(TransportSelectionError::without_attempts(cause));
            },
        };
        if plan.len() == 0 {
            return SelectorStep::Failed(
                TransportSelectionError::without_attempts(ApiError::TransportSelectionExhausted),
            );
        }
        let first_source = plan[0].source;
        let state = SelectionState::new(plan.len(), Some(first_source), cache);
        let previous_cache = match cache {
            Some(c) => Some(*c),
            None => None,
        };
        SelectorStep::Connect(
            SelectorRun {
                plan,
                state,
                index: 0,
                previous_cache,
                now_unix_seconds,
                quic_reprobe_delay_seconds: self.quic_reprobe_delay_seconds,
                descriptor_serial: descriptor.descriptor_serial,
            },
        )
    }
}

/// A successful `QUIC` selection forgets any cached `QUIC` failure and
/// reprobe deadline.
pub proof fn lemma_quic_success_clears_quic_failure(
    cache_state: CacheDisposition,
    fallback_reason: Option<FallbackReason>,
    previous: Option<TransportCacheSnapshot>,
    now: u64,
    delay: u64,
    serial: u64,
)
    ensures
        ({
            let s = updated_cache_snapshot_spec(
                CarrierKind::Quic,
                cache_state,
                fallback_reason,
                previous,
                now,
                delay,
                serial,
            );
            &&& s.last_successful_carrier == Some(CarrierKind::Quic)
            &&& s.last_quic_failure is None
            &&& s.next_quic_probe_after_unix_seconds is None
        }),
{
}

/// A `WSS` success under cached QUIC-bad posture keeps the cached reprobe
/// deadline: it never extends it.
pub proof fn lemma_cached_fallback_keeps_deadline(
    fallback_reason: Option<FallbackReason>,
    previous: TransportCacheSnapshot,
    now: u64,
    delay: u64,
    serial: u64,
)
    ensures
        updated_cache_snapshot_spec(
            CarrierKind::Wss,
            CacheDisposition::CachedFallback,
            fallback_reason,
            Some(previous),
            now,
            delay,
            serial,
        ).next_quic_probe_after_unix_seconds == previous.next_quic_probe_after_unix_seconds,
{
}

/// A `WSS` success after a live `QUIC` fallback records the reason and a
/// reprobe deadline `delay` seconds after `now` (saturating).
pub proof fn lemma_live_fallback_sets_deadline(
    cache_state: CacheDisposition,
    reason: FallbackReason,
    previous: Option<TransportCacheSnapshot>,
    now: u64,
    delay: u64,
    serial: u64,
)
    requires
        cache_state != CacheDisposition::CachedFallback,
    ensures
        ({
            let s = updated_cache_snapshot_spec(
                CarrierKind::Wss,
                cache_state,
                Some(reason),
                previous,
                now,
                delay,
                serial,
            );
            &&& s.last_quic_failure == Some(reason)
            &&& s.next_quic_probe_after_unix_seconds == Some(saturating_add_spec(now, delay))
            &&& s.next_quic_probe_after_unix_seconds->0 >= now
        }),
{
}

/// The highest accepted descriptor serial never decreases, and covers the
/// descriptor just selected for.
pub proof fn lemma_highest_serial_never_decreases(
    carrier: CarrierKind,
    cache_state: CacheDisposition,
    fallback_reason: Option<FallbackReason>,
    previous: Option<TransportCacheSnapshot>,
    now: u64,
    delay: u64,
    serial: u64,
)
    ensures
        updated_cache_snapshot_spec(
            carrier,
            cache_state,
            fallback_reason,
            previous,
            now,
            delay,
            serial,
        ).highest_descriptor_serial == Some(highest_serial_spec(previous, serial)),
        highest_serial_spec(previous, serial) >= serial,
        previous is Some && previous->0.highest_descriptor_serial is Some ==> highest_serial_spec(
            previous,
            serial,
        ) >= previous->0.highest_descriptor_serial->0,
{
    let s = updated_cache_snapshot_spec(
        carrier,
        cache_state,
        fallback_reason,
        previous,
        now,
        delay,
        serial,
    );
    assert(s.highest_descriptor_serial == Some(highest_serial_spec(previous, serial)));
}

/// An error that is not a fallback request stops selection at once, with
/// the failed attempt recorded last, whether it came from connecting or
/// from reaching `Secure Ready`.
pub proof fn lemma_non_fallback_error_stops_selection(v: RunView, cause: ApiError)
    requires
        !(cause is TransportFallback),
    ensures
        ({
            let candidate = v.plan[v.index];
            let carrier = candidate.target.carrier_spec();
            let expected = StepView::Failed(
                cause,
                v.attempts.push(failed_trace(candidate.source, carrier, cause)),
            );
            &&& connected_step(v, Err(cause)) == expected
            &&& secure_ready_step(v, Err(cause)) == expected
        }),
{
}

/// Only `QUIC` attempts may fall back: a fallback request from a `WSS`
/// attempt stops selection with a selector invariant error.
pub proof fn lemma_only_quic_falls_back(v: RunView, reason: FallbackReason)
    requires
        v.plan[v.index].target.carrier_spec() == CarrierKind::Wss,
    ensures
        ({
            let candidate = v.plan[v.index];
            let expected = StepView::Failed(
                wss_fallback_error(),
                v.attempts.push(failed_trace(candidate.source, CarrierKind::Wss, wss_fallback_error())),
            );
            &&& connected_step(v, Err(ApiError::TransportFallback(reason))) == expected
            &&& secure_ready_step(v, Err(ApiError::TransportFallback(reason))) == expected
        }),
{
}

/// A `QUIC` fallback moves on to the next candidate, remembering the reason,
/// and on the last candidate ends with the reason in the exhausted cause.
pub proof fn lemma_quic_fallback_moves_on(v: RunView, reason: FallbackReason)
    requires
        v.plan[v.index].target.carrier_spec() == CarrierKind::Quic,
    ensures
        ({
            let candidate = v.plan[v.index];
            let attempts = v.attempts.push(
                TransportAttemptTrace {
                    carrier: CarrierKind::Quic,
                    source: candidate.source,
                    outcome: TransportAttemptOutcome::Fallback(reason),
                },
            );
            let step = connected_step(v, Err(ApiError::TransportFallback(reason)));
            &&& v.index + 1 < v.plan.len() ==> step == StepView::Connect(
                RunView { index: v.index + 1, attempts, fallback_reason: Some(reason), ..v },
            )
            &&& v.index + 1 >= v.plan.len() ==> step == StepView::Failed(
                ApiError::TransportSelectionExhaustedWithFallback(reason),
                attempts,
            )
        }),
{
}

/// Every attempt result adds at most one entry to the trace, and only a
/// clean connection adds none.
pub proof fn lemma_trace_grows_by_at_most_one(
    attempts: Seq<TransportAttemptTrace>,
    source: CandidateSource,
    carrier: CarrierKind,
    result: ApiResult<CarrierKind>,
)
    ensures
        traced(attempts, source, carrier, result).len() == attempts.len() + if result == Ok::<
            CarrierKind,
            ApiError,
        >(carrier) {
            0int
        } else {
            1int
        },
        traced(attempts, source, carrier, result).subrange(0, attempts.len() as int) == attempts,
{
    assert(attempts.push(TransportAttemptTrace {
        carrier,
        source,
        outcome: TransportAttemptOutcome::SecureReady,
    }).subrange(0, attempts.len() as int) =~= attempts);
    match attempt_trace_spec(source, carrier, result) {
        Some(t) => {
            assert(attempts.push(t).subrange(0, attempts.len() as int) =~= attempts);
        },
        None => {
            assert(attempts.subrange(0, attempts.len() as int) =~= attempts);
        },
    }
}

/// Whether the first `n` attempts are `QUIC` fallbacks on the first `n`
/// candidates of `plan`, in plan order.
pub open spec fn fallbacks_in_order(
    plan: Seq<TransportCandidate>,
    attempts: Seq<TransportAttemptTrace>,
    n: int,
) -> bool {
    forall|i: int|
        0 <= i < n ==> {
            &&& (#[trigger] attempts[i]).carrier == CarrierKind::Quic
            &&& plan[i].target.carrier_spec() == CarrierKind::Quic
            &&& attempts[i].source == plan[i].source
            &&& attempts[i].outcome is Fallback
        }
}

/// Whether a run stands on a candidate of its plan having tried exactly the
/// candidates before it, each ending in a `QUIC` fallback.
pub open spec fn run_in_order(v: RunView) -> bool {
    &&& 0 <= v.index < v.plan.len()
    &&& v.attempts.len() == v.index
    &&& fallbacks_in_order(v.plan, v.attempts, v.index)
}

/// Whether a finished trace tried candidates of `plan` in plan order: no more
/// attempts than candidates, every attempt but the last a `QUIC` fallback,
/// and the last on the candidate after them.
pub open spec fn trace_in_order(plan: Seq<TransportCandidate>, attempts: Seq<TransportAttemptTrace>) -> bool {
    &&& attempts.len() <= plan.len()
    &&& fallbacks_in_order(plan, attempts, attempts.len() - 1)
    &&& attempts.len() > 0 ==> {
        let last = attempts[attempts.len() - 1];
        &&& last.source == plan[attempts.len() - 1].source
        &&& last.carrier == plan[attempts.len() - 1].target.carrier_spec()
    }
}

/// Whether a step keeps a selection over `plan` in plan order.
pub open spec fn step_in_order(plan: Seq<TransportCandidate>, step: StepView) -> bool {
    match step {
        StepView::Connect(w) => w.plan == plan && run_in_order(w),
        StepView::ReachSecureReady(w) => w.plan == plan && run_in_order(w),
        StepView::Selected(_, _, attempts) => trace_in_order(plan, attempts),
        StepView::Failed(_, attempts) => trace_in_order(plan, attempts),
    }
}

/// A selection starts in plan order: on the first candidate of its
/// non-empty plan, with no attempts.
pub proof fn lemma_selection_starts_in_order(
    d: ServiceDescriptor,
    cache: Option<TransportCacheSnapshot>,
    now: u64,
    v: RunView,
)
    requires
        d.plan_result(cache, now) == Ok::<Seq<TransportCandidate>, ApiError>(v.plan),
        v.index == 0,
        v.attempts == Seq::<TransportAttemptTrace>::empty(),
    ensures
        run_in_order(v),
{
    crate::descriptor::lemma_connect_plan_shape(d, cache, now);
}

/// Every step of a selection keeps it in plan order: candidates are tried
/// one after another as the plan lists them, every attempt but the last is
/// a `QUIC` fallback, and a finished selection has made no more attempts
/// than its plan has candidates.
pub proof fn lemma_steps_keep_plan_order(
    v: RunView,
    connector_carrier: Option<CarrierKind>,
    result: ApiResult<CarrierKind>,
)
    requires
        run_in_order(v),
    ensures
        step_in_order(v.plan, connector_step(v, connector_carrier)),
        step_in_order(v.plan, connected_step(v, result)),
        step_in_order(v.plan, secure_ready_step(v, result)),
{
    let candidate = v.plan[v.index];
    let carrier = candidate.target.carrier_spec();
    let attempts = traced(v.attempts, candidate.source, carrier, result);
    lemma_trace_grows_by_at_most_one(v.attempts, candidate.source, carrier, result);
    if result != Ok::<CarrierKind, ApiError>(carrier) {
        assert(attempts.len() == v.index + 1);
        assert(attempts[v.index as int] == attempt_trace_spec(candidate.source, carrier, result)->0);
        assert forall|i: int| 0 <= i < v.index implies attempts[i] == v.attempts[i] by {
            assert(attempts.subrange(0, v.attempts.len() as int)[i] == attempts[i]);
        }
        assert(fallbacks_in_order(v.plan, attempts, v.index as int));
        match attempt_outcome_spec(carrier, result) {
            Ok(AttemptState::Continue(reason)) => {
                assert(fallbacks_in_order(v.plan, attempts, v.index + 1));
            },
            _ => {},
        }
    }
    let ready = v.attempts.push(
        TransportAttemptTrace {
            carrier,
            source: candidate.source,
            outcome: TransportAttemptOutcome::SecureReady,
        },
    );
    assert forall|i: int| 0 <= i < v.index implies ready[i] == v.attempts[i] by {}
    assert(fallbacks_in_order(v.plan, ready, v.index as int));
}

/// Whether `next` is a step the selector can take from `step`, for some
/// connector answer or attempt result the driver hands back.
pub open spec fn step_follows(step: StepView, next: StepView) -> bool {
    match step {
        StepView::Connect(v) => (exists|c: Option<CarrierKind>| next == connector_step(v, c))
            || (exists|r: ApiResult<CarrierKind>| next == connected_step(v, r)),
        StepView::ReachSecureReady(v) => exists|r: ApiResult<CarrierKind>|
            next == secure_ready_step(v, r),
        _ => false,
    }
}

/// A whole selection run stays in plan order: from a first step that is,
/// every step the selector takes keeps to it, so whatever trace the run
/// ends with tried the candidates as the plan lists them, each attempt but
/// the last a `QUIC` fallback, and no more attempts than candidates.
pub proof fn lemma_selection_run_in_order(plan: Seq<TransportCandidate>, steps: Seq<StepView>)
    requires
        steps.len() > 0,
        step_in_order(plan, steps[0]),
        forall|i: int| 0 <= i < steps.len() - 1 ==> step_follows(#[trigger] steps[i], steps[i + 1]),
    ensures
        forall|i: int| 0 <= i < steps.len() ==> step_in_order(plan, #[trigger] steps[i]),
    decreases steps.len(),
{
    if steps.len() > 1 {
        let init = steps.drop_last();
        assert forall|i: int| 0 <= i < init.len() - 1 implies step_follows(
            #[trigger] init[i],
            init[i + 1],
        ) by {
            assert(init[i] == steps[i] && init[i + 1] == steps[i + 1]);
        }
        lemma_selection_run_in_order(plan, init);
        let k = steps.len() - 2;
        assert(init[k] == steps[k]);
        assert(step_in_order(plan, steps[k]));
        assert(step_follows(steps[k], steps[k + 1]));
        match steps[k] {
            StepView::Connect(v) => {
                if exists|c: Option<CarrierKind>| steps[k + 1] == connector_step(v, c) {
                    let c = choose|c: Option<CarrierKind>| steps[k + 1] == connector_step(v, c);
                    lemma_steps_keep_plan_order(v, c, Err(ApiError::TransportClosed));
                } else {
                    let r = choose|r: ApiResult<CarrierKind>| steps[k + 1] == connected_step(v, r);
                    lemma_steps_keep_plan_order(v, None, r);
                }
            },
            StepView::ReachSecureReady(v) => {
                let r = choose|r: ApiResult<CarrierKind>| steps[k + 1] == secure_ready_step(v, r);
                lemma_steps_keep_plan_order(v, None, r);
            },
            _ => {},
        }
        assert forall|i: int| 0 <= i < steps.len() implies step_in_order(plan, #[trigger] steps[i]) by {
            if i < steps.len() - 1 {
                assert(init[i] == steps[i]);
            }
        }
    }
}

/// A `WSS` success under the cached QUIC-bad posture leaves that posture in
/// place. The cache it writes still records a `QUIC` failure (the new reason
/// if the run saw one, else the cached one), and at every time it makes any
/// descriptor plan exactly as the cache selection started from, so `QUIC`
/// is not probed again before the kept deadline.
pub proof fn lemma_cached_fallback_keeps_posture(
    d: ServiceDescriptor,
    fallback_reason: Option<FallbackReason>,
    previous: TransportCacheSnapshot,
    now: u64,
    delay: u64,
    t: u64,
)
    requires
        previous.last_quic_failure is Some,
    ensures
        ({
            let s = updated_cache_snapshot_spec(
                CarrierKind::Wss,
                CacheDisposition::CachedFallback,
                fallback_reason,
                Some(previous),
                now,
                delay,
                d.descriptor_serial,
            );
            &&& s.last_quic_failure is Some
            &&& fallback_reason matches Some(r) ==> s.last_quic_failure == Some(r)
            &&& fallback_reason is None ==> s.last_quic_failure == previous.last_quic_failure
            &&& s.next_quic_probe_after_unix_seconds == previous.next_quic_probe_after_unix_seconds
            &&& d.plan_result(Some(s), t) == d.plan_result(Some(previous), t)
        }),
{
}

} // verus!
