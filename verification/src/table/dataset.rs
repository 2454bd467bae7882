//! The handle of a table on its dataset, and when it is brought up to date.
//!
//! A handle either follows the latest version of the dataset, and is then
//! refreshed as its read consistency interval says, or is pinned to one
//! version. Points in time and spans of time are given in nanoseconds; the
//! points are read by the caller from a clock that never runs backwards.

use vstd::prelude::*;

verus! {

/// The dataset that a table reads, and the version of it that the table is
/// to see.
#[derive(Clone, Debug, PartialEq, Eq)]
pub enum DatasetRef<D> {
    /// The table follows the latest version.
    Latest {
        dataset: D,
        /// How long a view may be served before the dataset is looked at
        /// again. `None`: it is never looked at again. Zero: before every
        /// read.
        read_consistency_interval: Option<u128>,
        /// When the dataset was last loaded or refreshed.
        last_consistency_check: u128,
    },
    /// The table is pinned to one version, which cannot be changed.
    TimeTravel { dataset: D, version: u64 },
}

/// The handle of a table on its dataset.
#[derive(Clone, Debug, PartialEq, Eq)]
pub struct DatasetConsistencyWrapper<D> {
    pub state: DatasetRef<D>,
}

/// The time that has passed at `now` since `last`.
pub open spec fn elapsed(last: u128, now: u128) -> nat {
    if now >= last {
        (now - last) as nat
    } else {
        0
    }
}

/// Whether a read at `now` is to refresh the dataset first: never where the
/// handle is pinned to a version or has no interval, always where the
/// interval is zero, and else where more time than the interval has passed
/// since the last refresh.
pub open spec fn spec_needs_refresh<D>(state: DatasetRef<D>, now: u128) -> bool {
    match state {
        DatasetRef::TimeTravel { .. } => false,
        DatasetRef::Latest { read_consistency_interval, last_consistency_check, .. } => {
            match read_consistency_interval {
                None => false,
                Some(interval) => interval == 0 || elapsed(last_consistency_check, now)
                    > interval,
            }
        },
    }
}

impl<D> DatasetRef<D> {
    /// The dataset, at the version that was last loaded.
    pub open spec fn spec_dataset(self) -> D {
        match self {
            DatasetRef::Latest { dataset, .. } => dataset,
            DatasetRef::TimeTravel { dataset, .. } => dataset,
        }
    }
}

impl<D> DatasetConsistencyWrapper<D> {
    /// Whether the handle follows the latest version.
    pub open spec fn spec_is_latest(&self) -> bool {
        self.state is Latest
    }

    /// A handle that follows the latest version, on a dataset that was
    /// loaded at `now`.
    pub fn new_latest(dataset: D, read_consistency_interval: Option<u128>, now: u128) -> (r: Self)
        ensures
            r.state == (DatasetRef::Latest {
                dataset,
                read_consistency_interval,
                last_consistency_check: now,
            }),
    {
        DatasetConsistencyWrapper {
            state: DatasetRef::Latest {
                dataset,
                read_consistency_interval,
                last_consistency_check: now,
            },
        }
    }

    /// A handle that is pinned to the version `version`, which `dataset` is
    /// at.
    pub fn new_time_travel(dataset: D, version: u64) -> (r: Self)
        ensures
            r.state == (DatasetRef::TimeTravel { dataset, version }),
    {
        DatasetConsistencyWrapper { state: DatasetRef::TimeTravel { dataset, version } }
    }

    /// Whether the handle follows the latest version.
    #[verifier::when_used_as_spec(spec_is_latest)]
    pub fn is_latest(&self) -> (b: bool)
        ensures
            b == self.spec_is_latest(),
    {
        match &self.state {
            DatasetRef::Latest { .. } => true,
            DatasetRef::TimeTravel { .. } => false,
        }
    }

    /// The version that the handle is pinned to, where it is pinned.
    pub fn pinned_version(&self) -> (v: Option<u64>)
        ensures
            v == (match self.state {
                DatasetRef::Latest { .. } => None,
                DatasetRef::TimeTravel { version, .. } => Some(version),
            }),
    {
        match &self.state {
            DatasetRef::Latest { .. } => None,
            DatasetRef::TimeTravel { version, .. } => Some(*version),
        }
    }

    /// Whether a read at `now` is to refresh the dataset first. Where it is,
    /// the caller loads the newest version and hands it to
    /// [`Self::refreshed`] before it reads.
    pub fn needs_refresh(&self, now: u128) -> (b: bool)
        ensures
            b == spec_needs_refresh(self.state, now),
            b ==> self.spec_is_latest(),
    {
        match &self.state {
            DatasetRef::TimeTravel { .. } => false,
            DatasetRef::Latest { read_consistency_interval, last_consistency_check, .. } => {
                match read_consistency_interval {
                    None => false,
                    Some(interval) => {
                        if *interval == 0 {
                            true
                        } else if now >= *last_consistency_check {
                            now - *last_consistency_check > *interval
                        } else {
                            false
                        }
                    },
                }
            },
        }
    }

    /// Takes in the newest version, loaded at `now`.
    pub fn refreshed(&mut self, newest: D, now: u128)
        requires
            old(self).spec_is_latest(),
        ensures
            final(self).state == (DatasetRef::Latest {
                dataset: newest,
                read_consistency_interval: old(self).state->read_consistency_interval,
                last_consistency_check: now,
            }),
    {
        let interval = match &self.state {
            DatasetRef::Latest { read_consistency_interval, .. } => *read_consistency_interval,
            DatasetRef::TimeTravel { .. } => None,
        };
        self.state = DatasetRef::Latest {
            dataset: newest,
            read_consistency_interval: interval,
            last_consistency_check: now,
        };
    }

    /// Replaces the dataset by the version that a write of this table has
    /// just made. This is no refresh: the time of the last one stays.
    pub fn set_latest(&mut self, dataset: D)
        requires
            old(self).spec_is_latest(),
        ensures
            final(self).state == (DatasetRef::Latest {
                dataset,
                read_consistency_interval: old(self).state->read_consistency_interval,
                last_consistency_check: old(self).state->last_consistency_check,
            }),
    {
        let (interval, last) = match &self.state {
            DatasetRef::Latest { read_consistency_interval, last_consistency_check, .. } => (
                *read_consistency_interval,
                *last_consistency_check,
            ),
            DatasetRef::TimeTravel { .. } => (None, 0),
        };
        self.state = DatasetRef::Latest {
            dataset,
            read_consistency_interval: interval,
            last_consistency_check: last,
        };
    }

    /// A handle that follows the latest version: this one where it does
    /// so already, else one on `newest`, the newest version as it was loaded
    /// at `now`, with the interval given.
    pub fn as_latest(self, newest: D, read_consistency_interval: Option<u128>, now: u128) -> (r:
        Self)
        ensures
            self.spec_is_latest() ==> r == self,
            !self.spec_is_latest() ==> r.state == (DatasetRef::Latest {
                dataset: newest,
                read_consistency_interval,
                last_consistency_check: now,
            }),
    {
        match &self.state {
            DatasetRef::Latest { .. } => self,
            DatasetRef::TimeTravel { .. } => Self::new_latest(
                newest,
                read_consistency_interval,
                now,
            ),
        }
    }

    /// The dataset, for a change. What the caller leaves in it is what the
    /// handle holds from then on; nothing else of the handle changes.
    pub fn get_mut(&mut self) -> (dataset: &mut D)
        ensures
            *dataset == old(self).state.spec_dataset(),
            final(self).state == (match old(self).state {
                DatasetRef::Latest {
                    read_consistency_interval,
                    last_consistency_check,
                    ..
                } => DatasetRef::Latest {
                    dataset: *final(dataset),
                    read_consistency_interval,
                    last_consistency_check,
                },
                DatasetRef::TimeTravel { version, .. } => DatasetRef::TimeTravel {
                    dataset: *final(dataset),
                    version,
                },
            }),
    {
        match &mut self.state {
            DatasetRef::Latest { dataset, .. } => dataset,
            DatasetRef::TimeTravel { dataset, .. } => dataset,
        }
    }

    /// The dataset, for reading.
    pub fn get(&self) -> (dataset: &D)
        ensures
            *dataset == self.state.spec_dataset(),
    {
        match &self.state {
            DatasetRef::Latest { dataset, .. } => dataset,
            DatasetRef::TimeTravel { dataset, .. } => dataset,
        }
    }
}

impl<D: Clone> DatasetConsistencyWrapper<D> {
    /// A second handle on the same dataset, in the same state. The dataset
    /// itself is cloned as its type clones, which for a dataset copies no
    /// rows.
    pub fn duplicate(&self) -> (r: Self)
        ensures
            cloned(self.state.spec_dataset(), r.state.spec_dataset()),
            r.state is Latest <==> self.state is Latest,
            self.state is Latest ==> r.state->read_consistency_interval
                == self.state->read_consistency_interval && r.state->last_consistency_check
                == self.state->last_consistency_check,
            self.state is TimeTravel ==> r.state->version == self.state->version,
    {
        match &self.state {
            DatasetRef::Latest { dataset, read_consistency_interval, last_consistency_check } => {
                DatasetConsistencyWrapper {
                    state: DatasetRef::Latest {
                        dataset: dataset.clone(),
                        read_consistency_interval: *read_consistency_interval,
                        last_consistency_check: *last_consistency_check,
                    },
                }
            },
            DatasetRef::TimeTravel { dataset, version } => DatasetConsistencyWrapper {
                state: DatasetRef::TimeTravel { dataset: dataset.clone(), version: *version },
            },
        }
    }
}

/// A handle that is pinned to a version is never refreshed, and neither is
/// one without a read consistency interval.
pub proof fn lemma_pinned_or_unchecked_never_refreshes<D>(state: DatasetRef<D>, now: u128)
    requires
        state is TimeTravel || state->read_consistency_interval is None,
    ensures
        !spec_needs_refresh(state, now),
{
}

/// With an interval of zero every read refreshes.
pub proof fn lemma_zero_interval_always_refreshes<D>(state: DatasetRef<D>, now: u128)
    requires
        state is Latest,
        state->read_consistency_interval == Some(0u128),
    ensures
        spec_needs_refresh(state, now),
{
}

/// With an interval above zero a read refreshes exactly where more time than
/// the interval has passed since the last refresh; so a read does not
/// refresh right after a refresh.
pub proof fn lemma_interval_refreshes_when_exceeded<D>(state: DatasetRef<D>, now: u128)
    requires
        state is Latest,
        state->read_consistency_interval matches Some(interval) && interval > 0,
    ensures
        spec_needs_refresh(state, now) <==> now - state->last_consistency_check
            > state->read_consistency_interval->0,
        now == state->last_consistency_check ==> !spec_needs_refresh(state, now),
{
}

} // verus!
