//! The cache-or-fetch resolver for one partition of a dataset.
//!
//! Resolving a partition key proceeds in phases: read the dataset's
//! freshness marker; if it is stale, run a full bulk refresh; then read
//! the partition's file from the cache; if the bulk dataset does not
//! cover the key, fall back to a direct per-partition fetch. The
//! decisions are captured here as a pure state machine: each state
//! names the one outside operation the caller must perform next, and
//! [`resolve_step`] maps the observed outcome to the following state.
//! The caller (which owns all file, network and clock access) loops
//! until it reaches [`ResolveState::Done`].
//!
//! A direct per-partition fetch never touches the freshness marker:
//! only a completed bulk refresh does, through [`marker_after_refresh`].

use vstd::prelude::*;

use crate::freshness::spec_is_stale;
use crate::freshness::is_stale;

verus! {

/// The errors a resolve can end in, tagged so that callers can tell
/// "nothing exists for this key" from "the network failed" from
/// "local data is corrupt" from "the bulk refresh failed".
#[derive(Clone, Copy, Debug, PartialEq, Eq, Structural)]
pub enum DataError {
    /// The remote side was unreachable or answered with failure.
    Transport,
    /// A payload (cached or remote) did not deserialize into records.
    Malformed,
    /// The partition exists neither in the bulk cache nor remotely.
    NotFound,
    /// The bulk refresh could not complete; the marker stays unset.
    RefreshFailed,
}

/// What reading the freshness marker file revealed.
#[derive(Clone, Copy, Debug, PartialEq, Eq, Structural)]
pub enum MarkerState {
    /// No marker file exists.
    Absent,
    /// A marker file exists but does not parse as a timestamp.
    Unreadable,
    /// The marker holds this Unix timestamp.
    Present(i64),
}

impl MarkerState {
    /// The timestamp the marker provides; an unreadable marker
    /// provides none, exactly like an absent one.
    pub open spec fn spec_time(self) -> Option<i64> {
        match self {
            MarkerState::Present(t) => Some(t),
            _ => None,
        }
    }

    pub fn time(&self) -> (r: Option<i64>)
        ensures
            r == self.spec_time(),
    {
        match self {
            MarkerState::Present(t) => Some(*t),
            _ => None,
        }
    }
}

/// A marker is stale when it yields no timestamp or a timestamp more
/// than one day before `now`.
pub open spec fn spec_marker_stale(m: MarkerState, now: i64) -> bool {
    spec_is_stale(m.spec_time(), now)
}

/// Staleness of a read marker, as the resolver judges it.
pub fn marker_is_stale(m: &MarkerState, now: i64) -> (r: bool)
    ensures
        r == spec_marker_stale(*m, now),
{
    is_stale(m.time(), now)
}

/// What reading the partition's file from the bulk cache revealed.
#[derive(Debug, PartialEq, Eq)]
pub enum PartitionReadOutcome<T> {
    /// The bulk dataset has no file for this partition.
    Missing,
    /// The file exists but its contents do not deserialize.
    Malformed,
    /// The file deserialized into these records (possibly zero).
    Loaded(Vec<T>),
}

/// What the direct per-partition remote fetch revealed.
#[derive(Debug, PartialEq, Eq)]
pub enum FetchOutcome<T> {
    /// The remote endpoint answered with these records.
    Fetched(Vec<T>),
    /// The remote endpoint has no such partition.
    Missing,
    /// The remote endpoint was unreachable or answered with failure.
    TransportFailed,
    /// The remote payload did not deserialize.
    Malformed,
}

/// How a full bulk refresh of the dataset ended.
#[derive(Clone, Copy, Debug, PartialEq, Eq, Structural)]
pub enum RefreshOutcome {
    /// The partition tree was fully replaced from the bulk source.
    Completed,
    /// The bulk source could not be (fully) retrieved.
    TransportFailed,
}

/// The resolver's phases. Every state but `Done` names the outside
/// operation whose outcome the caller must feed to [`resolve_step`].
#[derive(Debug, PartialEq, Eq)]
pub enum ResolveState<T> {
    /// Read the marker file and report a [`MarkerState`].
    CheckingMarker,
    /// Run the full bulk refresh and report a [`RefreshOutcome`].
    Refreshing,
    /// Read the partition file and report a [`PartitionReadOutcome`].
    ReadingLocal,
    /// Fetch the partition directly and report a [`FetchOutcome`].
    FetchingDirect,
    /// The resolve is finished with this result.
    Done(Result<Vec<T>, DataError>),
}

/// The outcome of one outside operation, fed back into the machine.
#[derive(Debug, PartialEq, Eq)]
pub enum ResolveEvent<T> {
    MarkerRead(MarkerState),
    RefreshFinished(RefreshOutcome),
    PartitionRead(PartitionReadOutcome<T>),
    FetchFinished(FetchOutcome<T>),
}

/// Whether `e` reports the operation that state `s` asked for.
pub open spec fn event_fits<T>(s: ResolveState<T>, e: ResolveEvent<T>) -> bool {
    match (s, e) {
        (ResolveState::CheckingMarker, ResolveEvent::MarkerRead(_)) => true,
        (ResolveState::Refreshing, ResolveEvent::RefreshFinished(_)) => true,
        (ResolveState::ReadingLocal, ResolveEvent::PartitionRead(_)) => true,
        (ResolveState::FetchingDirect, ResolveEvent::FetchFinished(_)) => true,
        _ => false,
    }
}

/// The full transition relation of the resolver, one case per
/// state/outcome pair. For pairs that [`event_fits`] rules out it
/// leaves the state unchanged.
pub open spec fn spec_resolve_step<T>(
    s: ResolveState<T>,
    e: ResolveEvent<T>,
    now: i64,
) -> ResolveState<T> {
    match (s, e) {
        (ResolveState::CheckingMarker, ResolveEvent::MarkerRead(m)) => {
            if spec_marker_stale(m, now) {
                ResolveState::Refreshing
            } else {
                ResolveState::ReadingLocal
            }
        },
        (ResolveState::Refreshing, ResolveEvent::RefreshFinished(o)) => {
            match o {
                RefreshOutcome::Completed => ResolveState::ReadingLocal,
                RefreshOutcome::TransportFailed => ResolveState::Done(
                    Err(DataError::RefreshFailed),
                ),
            }
        },
        (ResolveState::ReadingLocal, ResolveEvent::PartitionRead(o)) => {
            match o {
                PartitionReadOutcome::Missing => ResolveState::FetchingDirect,
                PartitionReadOutcome::Malformed => ResolveState::Done(
                    Err(DataError::Malformed),
                ),
                PartitionReadOutcome::Loaded(records) => ResolveState::Done(Ok(records)),
            }
        },
        (ResolveState::FetchingDirect, ResolveEvent::FetchFinished(o)) => {
            match o {
                FetchOutcome::Fetched(records) => ResolveState::Done(Ok(records)),
                FetchOutcome::Missing => ResolveState::Done(Err(DataError::NotFound)),
                FetchOutcome::TransportFailed => ResolveState::Done(
                    Err(DataError::Transport),
                ),
                FetchOutcome::Malformed => ResolveState::Done(Err(DataError::Malformed)),
            }
        },
        (other, _) => other,
    }
}

/// Every resolve begins by consulting the freshness marker.
pub fn resolve_start<T>() -> (r: ResolveState<T>)
    ensures
        r == ResolveState::<T>::CheckingMarker,
{
    ResolveState::CheckingMarker
}

/// Advances the resolver by one observed outcome. `now` is the Unix
/// time at which the marker is judged; it only matters for the
/// marker-reading step.
pub fn resolve_step<T>(s: ResolveState<T>, e: ResolveEvent<T>, now: i64) -> (r: ResolveState<
    T,
>)
    requires
        event_fits(s, e),
    ensures
        r == spec_resolve_step(s, e, now),
{
    match (s, e) {
        (ResolveState::CheckingMarker, ResolveEvent::MarkerRead(m)) => {
            if marker_is_stale(&m, now) {
                ResolveState::Refreshing
            } else {
                ResolveState::ReadingLocal
            }
        },
        (ResolveState::Refreshing, ResolveEvent::RefreshFinished(o)) => {
            match o {
                RefreshOutcome::Completed => ResolveState::ReadingLocal,
                RefreshOutcome::TransportFailed => ResolveState::Done(
                    Err(DataError::RefreshFailed),
                ),
            }
        },
        (ResolveState::ReadingLocal, ResolveEvent::PartitionRead(o)) => {
            match o {
                PartitionReadOutcome::Missing => ResolveState::FetchingDirect,
                PartitionReadOutcome::Malformed => ResolveState::Done(
                    Err(DataError::Malformed),
                ),
                PartitionReadOutcome::Loaded(records) => ResolveState::Done(Ok(records)),
            }
        },
        (ResolveState::FetchingDirect, ResolveEvent::FetchFinished(o)) => {
            match o {
                FetchOutcome::Fetched(records) => ResolveState::Done(Ok(records)),
                FetchOutcome::Missing => ResolveState::Done(Err(DataError::NotFound)),
                FetchOutcome::TransportFailed => ResolveState::Done(
                    Err(DataError::Transport),
                ),
                FetchOutcome::Malformed => ResolveState::Done(Err(DataError::Malformed)),
            }
        },
        (other, _) => other,
    }
}

/// The marker after a bulk refresh: a completed refresh stamps the
/// current time; an interrupted one leaves the marker untouched, so
/// that the next resolve still sees the old (or absent) marker.
pub fn marker_after_refresh(outcome: &RefreshOutcome, marker: MarkerState, now: i64) -> (r:
    MarkerState)
    ensures
        *outcome == RefreshOutcome::Completed ==> r == MarkerState::Present(now),
        *outcome == RefreshOutcome::TransportFailed ==> r == marker,
{
    match outcome {
        RefreshOutcome::Completed => MarkerState::Present(now),
        RefreshOutcome::TransportFailed => marker,
    }
}

/// A resolve that finds no usable marker always turns to the bulk
/// refresh before it reads any cached data.
pub proof fn lemma_missing_marker_forces_refresh<T>(m: MarkerState, now: i64)
    requires
        m is Absent || m is Unreadable,
    ensures
        spec_resolve_step(
            ResolveState::<T>::CheckingMarker,
            ResolveEvent::MarkerRead(m),
            now,
        ) == ResolveState::<T>::Refreshing,
{
}

/// An interrupted bulk refresh leaves the marker exactly as it was,
/// and the resolve that triggered it fails with `RefreshFailed`;
/// since a stale marker only grows older, any later resolve still
/// finds the cache stale and turns to the refresh again.
pub proof fn lemma_interrupted_refresh_stays_stale<T>(m: MarkerState, now: i64, later: i64)
    requires
        spec_marker_stale(m, now),
        now <= later,
    ensures
        marker_after_refresh_spec(RefreshOutcome::TransportFailed, m, now) == m,
        spec_resolve_step(
            ResolveState::<T>::Refreshing,
            ResolveEvent::RefreshFinished(RefreshOutcome::TransportFailed),
            now,
        ) == ResolveState::<T>::Done(Err::<Vec<T>, DataError>(DataError::RefreshFailed)),
        spec_marker_stale(m, later),
        spec_resolve_step(
            ResolveState::<T>::CheckingMarker,
            ResolveEvent::MarkerRead(m),
            later,
        ) == ResolveState::<T>::Refreshing,
{
}

/// Spec-level companion of [`marker_after_refresh`].
pub open spec fn marker_after_refresh_spec(
    outcome: RefreshOutcome,
    marker: MarkerState,
    now: i64,
) -> MarkerState {
    match outcome {
        RefreshOutcome::Completed => MarkerState::Present(now),
        RefreshOutcome::TransportFailed => marker,
    }
}

/// When the (fresh) bulk cache lacks the partition's file, the resolve
/// returns exactly what the direct per-partition fetch produced, and
/// passes through no refreshing phase on the way, so the freshness
/// marker is not altered.
pub proof fn lemma_partition_fallback<T>(records: Vec<T>, now: i64)
    ensures
        spec_resolve_step(
            ResolveState::<T>::ReadingLocal,
            ResolveEvent::PartitionRead(PartitionReadOutcome::Missing),
            now,
        ) == ResolveState::<T>::FetchingDirect,
        spec_resolve_step(
            ResolveState::<T>::FetchingDirect,
            ResolveEvent::FetchFinished(FetchOutcome::Fetched(records)),
            now,
        ) == ResolveState::<T>::Done(Ok::<Vec<T>, DataError>(records)),
{
}

/// A partition file that is present but holds zero records resolves
/// to a successful empty batch, never to `NotFound`.
pub proof fn lemma_empty_partition_is_success<T>(records: Vec<T>, now: i64)
    requires
        records@.len() == 0,
    ensures
        spec_resolve_step(
            ResolveState::<T>::ReadingLocal,
            ResolveEvent::PartitionRead(PartitionReadOutcome::Loaded(records)),
            now,
        ) == ResolveState::<T>::Done(Ok::<Vec<T>, DataError>(records)),
{
}

} // verus!
