use vstd::prelude::*;

use crate::clock::now_epoch_seconds;

verus! {

/// Where a scan cycle stands. Each cycle starts from `Idle` on a tick and
/// carries the cutoff it computed then until it ends.
#[derive(Debug, Clone, Copy, PartialEq, Eq, Structural)]
pub enum ScanState {
    Idle,
    /// Waiting for the store's list of entities stale at `cutoff`.
    Querying { cutoff: i64 },
    /// Waiting for the reporting endpoint's answer.
    Reporting { cutoff: i64 },
    /// Waiting for the store to evict the records at or below `cutoff`.
    Evicting { cutoff: i64 },
}

/// What happened since the last step: a timer tick, or the outcome of the
/// action the last step asked for.
#[derive(Debug)]
pub enum ScanEvent {
    Tick { now: i64 },
    Queried { stale: Vec<String> },
    QueryFailed,
    /// The reporting endpoint answered with this HTTP status.
    Reported { status: u16 },
    /// The report did not reach the endpoint.
    ReportFailed,
    Evicted,
    EvictFailed,
}

/// How a cycle ended well.
#[derive(Debug, Clone, Copy, PartialEq, Eq, Structural)]
pub enum CycleOutcome {
    NothingStale,
    ReportedAndEvicted,
}

/// Why a cycle ended early. None of these stops the scanner: the next tick
/// starts a new cycle.
#[derive(Debug, Clone, Copy, PartialEq, Eq, Structural)]
pub enum ScanError {
    /// The cutoff `now - threshold` does not fit in a timestamp.
    CutoffOutOfRange,
    Store,
    Report,
    Evict,
}

/// What the driver of the scanner is to do next.
#[derive(Debug)]
pub enum ScanAction {
    /// List the entities whose last heartbeat is at or before `cutoff`.
    Query { cutoff: i64 },
    /// Send this batch of stale entities to the reporting endpoint.
    Report { batch: Vec<String> },
    /// Remove every record at or before `cutoff`.
    Evict { cutoff: i64 },
    /// The cycle is over.
    Finish { result: Result<CycleOutcome, ScanError> },
    /// The event does not belong to the current step: nothing to do.
    Wait,
}

/// An HTTP status of the success class.
pub open spec fn is_success_spec(status: u16) -> bool {
    200 <= status < 300
}

/// Whether an HTTP status counts as a delivered report.
pub fn is_success_status(status: u16) -> (r: bool)
    ensures
        r == is_success_spec(status),
{
    200 <= status && status < 300
}

/// The cutoff of a scan at `now`: entities last seen at or before it are stale.
pub open spec fn cutoff_spec(now: int, stale_threshold_seconds: int) -> int {
    now - stale_threshold_seconds
}

/// `now - stale_threshold_seconds`, or `None` where that is below the
/// smallest timestamp.
pub fn stale_cutoff(now: i64, stale_threshold_seconds: u64) -> (r: Option<i64>)
    ensures
        r == (if cutoff_spec(now as int, stale_threshold_seconds as int) >= i64::MIN {
            Some(cutoff_spec(now as int, stale_threshold_seconds as int) as i64)
        } else {
            None::<i64>
        }),
{
    now.checked_sub_unsigned(stale_threshold_seconds)
}

pub open spec fn finish(result: Result<CycleOutcome, ScanError>) -> (ScanState, ScanAction) {
    (ScanState::Idle, ScanAction::Finish { result })
}

/// One step of a scan cycle: query, then report a non-empty batch, then evict
/// with the cutoff of the query only once the report was delivered.
pub open spec fn transition(state: ScanState, event: ScanEvent, stale_threshold_seconds: u64) -> (
    ScanState,
    ScanAction,
) {
    match (state, event) {
        (ScanState::Idle, ScanEvent::Tick { now }) => {
            let c = cutoff_spec(now as int, stale_threshold_seconds as int);
            if c >= i64::MIN {
                (ScanState::Querying { cutoff: c as i64 }, ScanAction::Query { cutoff: c as i64 })
            } else {
                finish(Err(ScanError::CutoffOutOfRange))
            }
        },
        (ScanState::Querying { cutoff }, ScanEvent::Queried { stale }) => {
            if stale@.len() == 0 {
                finish(Ok(CycleOutcome::NothingStale))
            } else {
                (ScanState::Reporting { cutoff }, ScanAction::Report { batch: stale })
            }
        },
        (ScanState::Querying { .. }, ScanEvent::QueryFailed) => finish(Err(ScanError::Store)),
        (ScanState::Reporting { cutoff }, ScanEvent::Reported { status }) => {
            if is_success_spec(status) {
                (ScanState::Evicting { cutoff }, ScanAction::Evict { cutoff })
            } else {
                finish(Err(ScanError::Report))
            }
        },
        (ScanState::Reporting { .. }, ScanEvent::ReportFailed) => finish(Err(ScanError::Report)),
        (ScanState::Evicting { .. }, ScanEvent::Evicted) => finish(
            Ok(CycleOutcome::ReportedAndEvicted),
        ),
        (ScanState::Evicting { .. }, ScanEvent::EvictFailed) => finish(Err(ScanError::Evict)),
        (s, _) => (s, ScanAction::Wait),
    }
}

impl ScanState {
    /// The state and action that follow `event` in state `self`, for a scanner
    /// that treats entities silent for `stale_threshold_seconds` as stale.
    pub fn step(self, event: ScanEvent, stale_threshold_seconds: u64) -> (r: (ScanState, ScanAction))
        ensures
            r == transition(self, event, stale_threshold_seconds),
    {
        match (self, event) {
            (ScanState::Idle, ScanEvent::Tick { now }) => {
                match stale_cutoff(now, stale_threshold_seconds) {
                    Some(cutoff) => (ScanState::Querying { cutoff }, ScanAction::Query { cutoff }),
                    None => (
                        ScanState::Idle,
                        ScanAction::Finish { result: Err(ScanError::CutoffOutOfRange) },
                    ),
                }
            },
            (ScanState::Querying { cutoff }, ScanEvent::Queried { stale }) => {
                if stale.len() == 0 {
                    (ScanState::Idle, ScanAction::Finish { result: Ok(CycleOutcome::NothingStale) })
                } else {
                    (ScanState::Reporting { cutoff }, ScanAction::Report { batch: stale })
                }
            },
            (ScanState::Querying { .. }, ScanEvent::QueryFailed) => (
                ScanState::Idle,
                ScanAction::Finish { result: Err(ScanError::Store) },
            ),
            (ScanState::Reporting { cutoff }, ScanEvent::Reported { status }) => {
                if is_success_status(status) {
                    (ScanState::Evicting { cutoff }, ScanAction::Evict { cutoff })
                } else {
                    (ScanState::Idle, ScanAction::Finish { result: Err(ScanError::Report) })
                }
            },
            (ScanState::Reporting { .. }, ScanEvent::ReportFailed) => (
                ScanState::Idle,
                ScanAction::Finish { result: Err(ScanError::Report) },
            ),
            (ScanState::Evicting { .. }, ScanEvent::Evicted) => (
                ScanState::Idle,
                ScanAction::Finish { result: Ok(CycleOutcome::ReportedAndEvicted) },
            ),
            (ScanState::Evicting { .. }, ScanEvent::EvictFailed) => (
                ScanState::Idle,
                ScanAction::Finish { result: Err(ScanError::Evict) },
            ),
            (s, _) => (s, ScanAction::Wait),
        }
    }

    /// Takes a timer tick at the current wall-clock time.
    pub fn tick(self, stale_threshold_seconds: u64) -> (r: (ScanState, ScanAction))
        ensures
            exists|now: i64|
                now >= 0 && r == transition(self, ScanEvent::Tick { now }, stale_threshold_seconds),
    {
        let now = now_epoch_seconds();
        self.step(ScanEvent::Tick { now }, stale_threshold_seconds)
    }
}


/// A cycle whose query finds stale entities and whose report is delivered
/// evicts with the very cutoff it queried with, computed once at the tick.
pub proof fn eviction_uses_query_cutoff(now: i64, stale_threshold_seconds: u64, stale: Vec<String>, status: u16)
    requires
        cutoff_spec(now as int, stale_threshold_seconds as int) >= i64::MIN,
        stale@.len() > 0,
        is_success_spec(status),
    ensures
        ({
            let c = cutoff_spec(now as int, stale_threshold_seconds as int) as i64;
            let (s1, a1) = transition(ScanState::Idle, ScanEvent::Tick { now }, stale_threshold_seconds);
            let (s2, a2) = transition(s1, ScanEvent::Queried { stale }, stale_threshold_seconds);
            let (s3, a3) = transition(s2, ScanEvent::Reported { status }, stale_threshold_seconds);
            &&& a1 == ScanAction::Query { cutoff: c }
            &&& a2 == ScanAction::Report { batch: stale }
            &&& a3 == ScanAction::Evict { cutoff: c }
            &&& s3 == ScanState::Evicting { cutoff: c }
        }),
{
}

/// When nothing is stale the cycle ends at once: no report and no eviction.
pub proof fn empty_batch_ends_cycle(cutoff: i64, stale: Vec<String>, stale_threshold_seconds: u64)
    requires
        stale@.len() == 0,
    ensures
        transition(ScanState::Querying { cutoff }, ScanEvent::Queried { stale }, stale_threshold_seconds)
            == finish(Ok(CycleOutcome::NothingStale)),
{
}

/// A report that was not delivered, by status or by transport, ends the cycle
/// without eviction, so the records stay for the next cycle.
pub proof fn undelivered_report_evicts_nothing(cutoff: i64, status: u16, stale_threshold_seconds: u64)
    requires
        !is_success_spec(status),
    ensures
        transition(ScanState::Reporting { cutoff }, ScanEvent::Reported { status }, stale_threshold_seconds)
            == finish(Err(ScanError::Report)),
        transition(ScanState::Reporting { cutoff }, ScanEvent::ReportFailed, stale_threshold_seconds)
            == finish(Err(ScanError::Report)),
{
}

/// Whatever step fails, the cycle returns to `Idle`, ready for the next tick.
pub proof fn failures_return_to_idle(cutoff: i64, stale_threshold_seconds: u64)
    ensures
        transition(ScanState::Querying { cutoff }, ScanEvent::QueryFailed, stale_threshold_seconds)
            == finish(Err(ScanError::Store)),
        transition(ScanState::Evicting { cutoff }, ScanEvent::EvictFailed, stale_threshold_seconds)
            == finish(Err(ScanError::Evict)),
{
}

} // verus!
