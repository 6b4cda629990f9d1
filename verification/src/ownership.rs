//! The per-chain authority record: super owners, weighted regular owners,
//! the multi-leader round count, and the timeout configuration, together
//! with the round-escalation state machine built on them.
//!
//! Everything here is a pure function of its explicit arguments: every
//! validator evaluating the same record and round computes the same answer,
//! which is what makes cross-validator agreement possible. Owner collections
//! are kept in canonical (ascending identifier) order, so iteration order is
//! part of the deterministic behavior.

use vstd::prelude::*;

use crate::round::Round;
use crate::time_delta::{sat_add, sat_mul, TimeDelta};

verus! {

/// Identifier of an account that can own a chain.
///
/// The value is an opaque, canonical, key-derived representation; its
/// numeric order is the canonical order in which owner collections are kept
/// and enumerated.
#[derive(Clone, Copy, PartialEq, Eq, Structural, PartialOrd, Ord, Hash, Debug)]
pub struct AccountOwner {
    /// The canonical numeric representation of the owner's identity.
    pub id: u64,
}

/// The timeout configuration: how long fast, multi-leader and single-leader
/// rounds last.
#[derive(Clone, Copy, PartialEq, Eq, Hash, Debug)]
pub struct TimeoutConfig {
    /// The duration of the fast round, if a fast round is offered.
    pub fast_round_duration: Option<TimeDelta>,
    /// The duration of the last multi-leader round and the first
    /// single-leader or validator round.
    pub base_timeout: TimeDelta,
    /// The duration by which the timeout increases after each single-leader
    /// or validator round.
    pub timeout_increment: TimeDelta,
    /// The age an incoming tracked or protected message may reach before the
    /// validators start transitioning the chain to fallback mode.
    pub fallback_duration: TimeDelta,
}

/// The timeout configuration used when none is supplied: no fast round, a
/// ten-second base timeout, a one-second increment, and a fallback duration
/// of "never".
pub open spec fn spec_default_timeout_config() -> TimeoutConfig {
    TimeoutConfig {
        fast_round_duration: None,
        base_timeout: TimeDelta { micros: 10_000_000u64 },
        timeout_increment: TimeDelta { micros: 1_000_000u64 },
        fallback_duration: TimeDelta { micros: u64::MAX },
    }
}

impl Default for TimeoutConfig {
    /// No fast round; ten seconds base timeout; one second increment; the
    /// fallback duration is "never", because validators are not expected to
    /// start clients for every chain with an old tracked message in the
    /// inbox.
    fn default() -> (r: TimeoutConfig)
        ensures
            r == spec_default_timeout_config(),
    {
        TimeoutConfig {
            fast_round_duration: None,
            base_timeout: TimeDelta::from_secs(10),
            timeout_increment: TimeDelta::from_secs(1),
            fallback_duration: TimeDelta::max_value(),
        }
    }
}

/// The super owners stand in strictly increasing canonical order (which also
/// means no owner appears twice).
pub open spec fn sorted_owner_seq(s: Seq<AccountOwner>) -> bool {
    forall|i: int, j: int| 0 <= i < j < s.len() ==> s[i].id < s[j].id
}

/// The weighted owners stand in strictly increasing canonical order of their
/// identifier (which also means no owner appears twice).
pub open spec fn sorted_weighted_seq(s: Seq<(AccountOwner, u64)>) -> bool {
    forall|i: int, j: int| 0 <= i < j < s.len() ==> s[i].0.id < s[j].0.id
}

/// The owner-to-weight mapping described by a weighted-owner sequence; a
/// later entry for the same owner overrides an earlier one.
pub open spec fn weights_of(s: Seq<(AccountOwner, u64)>) -> Map<AccountOwner, u64>
    decreases s.len(),
{
    if s.len() == 0 {
        Map::empty()
    } else {
        weights_of(s.drop_last()).insert(s.last().0, s.last().1)
    }
}

/// An owner is a key of the weight mapping exactly when some entry of the
/// sequence carries it.
pub proof fn lemma_weights_contains(s: Seq<(AccountOwner, u64)>, o: AccountOwner)
    ensures
        weights_of(s).contains_key(o) <==> exists|i: int| 0 <= i < s.len() && s[i].0 == o,
    decreases s.len(),
{
    if s.len() == 0 {
    } else {
        lemma_weights_contains(s.drop_last(), o);
        if s.last().0 == o {
            assert(s[s.len() - 1].0 == o);
        } else {
            if weights_of(s).contains_key(o) {
                let i = choose|i: int|
                    0 <= i < s.drop_last().len() && s.drop_last()[i].0 == o;
                assert(s[i].0 == o);
            }
            if exists|i: int| 0 <= i < s.len() && s[i].0 == o {
                let i = choose|i: int| 0 <= i < s.len() && s[i].0 == o;
                assert(i < s.len() - 1);
                assert(s.drop_last()[i].0 == o);
            }
        }
    }
}

/// Replacing the entry at position `i` by one with the same owner and
/// weight `w`, when that owner occurs nowhere after `i`, updates the
/// mapping at that owner alone.
proof fn lemma_weights_update(s: Seq<(AccountOwner, u64)>, i: int, w: u64)
    requires
        0 <= i < s.len(),
        forall|j: int| i < j < s.len() ==> s[j].0 != s[i].0,
    ensures
        weights_of(s.update(i, (s[i].0, w))) == weights_of(s).insert(s[i].0, w),
    decreases s.len(),
{
    let k = s[i].0;
    let t = s.update(i, (k, w));
    if i == s.len() - 1 {
        assert(t.drop_last() =~= s.drop_last());
        assert(t.last() == (k, w));
        assert(weights_of(t) =~= weights_of(s).insert(k, w));
    } else {
        assert(t.drop_last() =~= s.drop_last().update(i, (k, w)));
        assert(s.drop_last()[i] == s[i]);
        assert(forall|j: int|
            i < j < s.drop_last().len() ==> s.drop_last()[j].0 != s.drop_last()[i].0);
        lemma_weights_update(s.drop_last(), i, w);
        assert(t.last() == s.last());
        assert(s.last().0 != k);
        assert(weights_of(t) =~= weights_of(s).insert(k, w));
    }
}

/// Inserting an entry whose owner occurs nowhere in the sequence extends the
/// mapping by that owner alone.
proof fn lemma_weights_insert_new(s: Seq<(AccountOwner, u64)>, i: int, p: (AccountOwner, u64))
    requires
        0 <= i <= s.len(),
        forall|j: int| 0 <= j < s.len() ==> s[j].0 != p.0,
    ensures
        weights_of(s.insert(i, p)) == weights_of(s).insert(p.0, p.1),
    decreases s.len(),
{
    let t = s.insert(i, p);
    s.insert_ensures(i, p);
    if i == s.len() {
        assert(t.drop_last() =~= s);
        assert(t.last() == p);
        assert(weights_of(t) == weights_of(s).insert(p.0, p.1));
    } else {
        assert(t[s.len() as int] == s[s.len() - 1]);
        assert(t.last() == s.last());
        assert(t.drop_last() =~= s.drop_last().insert(i, p)) by {
            s.drop_last().insert_ensures(i, p);
            assert forall|j: int|
                0 <= j < t.drop_last().len() implies t.drop_last()[j] == s.drop_last().insert(
                i,
                p,
            )[j] by {
                if j < i {
                    assert(t[j] == s[j]);
                    assert(s.drop_last().insert(i, p)[j] == s.drop_last()[j]);
                } else if j == i {
                    assert(t[j] == p);
                    assert(s.drop_last().insert(i, p)[j] == p);
                } else {
                    assert(t[(j - 1) + 1] == s[j - 1]);
                    assert(s.drop_last().insert(i, p)[(j - 1) + 1] == s.drop_last()[j - 1]);
                }
            }
        }
        assert(forall|j: int| 0 <= j < s.drop_last().len() ==> s.drop_last()[j].0 != p.0);
        lemma_weights_insert_new(s.drop_last(), i, p);
        assert(s.last().0 != p.0);
        assert(weights_of(t) =~= weights_of(s).insert(p.0, p.1));
    }
}

/// Inserts `owner` with `weight` into a canonically ordered weighted-owner
/// vector, replacing the weight if the owner is already present.
fn insert_weighted(owners: Vec<(AccountOwner, u64)>, owner: AccountOwner, weight: u64) -> (r: Vec<
    (AccountOwner, u64),
>)
    requires
        sorted_weighted_seq(owners@),
    ensures
        sorted_weighted_seq(r@),
        weights_of(r@) == weights_of(owners@).insert(owner, weight),
{
    let mut v = owners;
    let ghost orig = v@;
    let mut i: usize = 0;
    while i < v.len() && v[i].0.id < owner.id
        invariant
            v@ == orig,
            sorted_weighted_seq(orig),
            i <= v@.len(),
            forall|j: int| 0 <= j < i ==> orig[j].0.id < owner.id,
        decreases v@.len() - i,
    {
        i += 1;
    }
    if i < v.len() && v[i].0.id == owner.id {
        proof {
            assert(orig[i as int].0 == owner);
        }
        v[i] = (owner, weight);
        proof {
            assert(v@ == orig.update(i as int, (owner, weight)));
            lemma_weights_update(orig, i as int, weight);
            assert forall|a: int| 0 <= a < v@.len() implies v@[a].0 == orig[a].0 by {
                if a != i {
                    assert(v@[a] == orig[a]);
                }
            }
        }
    } else {
        proof {
            assert forall|j: int| 0 <= j < orig.len() implies orig[j].0 != owner by {
                if j < i {
                    assert(orig[j].0.id < owner.id);
                } else if j == i {
                    assert(orig[j].0.id != owner.id);
                } else {
                    assert(orig[i as int].0.id < orig[j].0.id);
                }
            }
            orig.insert_ensures(i as int, (owner, weight));
        }
        v.insert(i, (owner, weight));
        proof {
            lemma_weights_insert_new(orig, i as int, (owner, weight));
            assert forall|a: int, b: int|
                0 <= a < b < v@.len() implies v@[a].0.id < v@[b].0.id by {
                if a < i {
                    assert(v@[a] == orig[a]);
                } else if a == i {
                    assert(v@[a] == (owner, weight));
                } else {
                    assert(v@[(a - 1) + 1] == orig[a - 1]);
                }
                if b < i {
                    assert(v@[b] == orig[b]);
                } else if b == i {
                    assert(v@[b] == (owner, weight));
                } else {
                    assert(v@[(b - 1) + 1] == orig[b - 1]);
                }
            }
        }
    }
    v
}

/// Represents the owner(s) of a chain.
///
/// The record is immutable: every modification returns a new record, so a
/// reader holding the old one keeps observing the old values.
#[derive(Clone, PartialEq, Eq, Hash, Debug)]
pub struct ChainOwnership {
    /// Super owners can propose fast blocks in the first round, and regular
    /// blocks in any round. Kept in canonical ascending order.
    pub super_owners: Vec<AccountOwner>,
    /// The regular owners, with the weights that determine how often they
    /// are round leader. Kept in canonical ascending order of the owner.
    pub owners: Vec<(AccountOwner, u64)>,
    /// The number of rounds in which all owners are allowed to propose
    /// blocks.
    pub multi_leader_rounds: u32,
    /// Whether the multi-leader rounds are unrestricted, i.e. not limited to
    /// chain owners.
    pub open_multi_leader_rounds: bool,
    /// The timeout configuration: how long fast, multi-leader and
    /// single-leader rounds last.
    pub timeout_config: TimeoutConfig,
}

impl Default for ChainOwnership {
    /// A record with no owners of either kind, no multi-leader rounds,
    /// closed multi-leader rounds, and the default timeout configuration.
    fn default() -> (r: ChainOwnership)
        ensures
            r.well_formed(),
            r.super_owners@.len() == 0,
            r.owners@.len() == 0,
            r.multi_leader_rounds == 0,
            r.open_multi_leader_rounds == false,
            r.timeout_config == spec_default_timeout_config(),
    {
        ChainOwnership {
            super_owners: Vec::new(),
            owners: Vec::new(),
            multi_leader_rounds: 0,
            open_multi_leader_rounds: false,
            timeout_config: TimeoutConfig::default(),
        }
    }
}

impl ChainOwnership {
    /// Both owner collections stand in canonical order.
    pub open spec fn well_formed(self) -> bool {
        &&& sorted_owner_seq(self.super_owners@)
        &&& sorted_weighted_seq(self.owners@)
    }

    /// The regular owners as an owner-to-weight mapping.
    pub open spec fn weights(self) -> Map<AccountOwner, u64> {
        weights_of(self.owners@)
    }

    /// Whether `owner` is a super owner of this chain.
    pub open spec fn spec_is_super_owner(self, owner: AccountOwner) -> bool {
        self.super_owners@.contains(owner)
    }

    /// Whether `owner` is a regular owner of this chain.
    pub open spec fn spec_is_regular_owner(self, owner: AccountOwner) -> bool {
        self.weights().contains_key(owner)
    }

    /// Whether `owner` is a super owner or a regular owner.
    pub open spec fn spec_verify_owner(self, owner: AccountOwner) -> bool {
        self.spec_is_super_owner(owner) || self.spec_is_regular_owner(owner)
    }

    /// Whether the chain has an owner of either kind, or is explicitly
    /// configured to always fall back (fallback duration zero).
    pub open spec fn spec_is_active(self) -> bool {
        ||| self.super_owners@.len() > 0
        ||| self.owners@.len() > 0
        ||| self.timeout_config.fallback_duration.micros == 0
    }

    /// The clamped microsecond timeout of single-leader or validator round
    /// `r`: the base timeout plus `r` times the increment.
    pub open spec fn spec_escalation_micros(self, r: u32) -> u64 {
        sat_add(
            self.timeout_config.base_timeout.micros,
            sat_mul(self.timeout_config.timeout_increment.micros, r as u64),
        )
    }

    /// Whether multi-leader round `r` is the last one configured, under the
    /// clamped increment the implementation applies to the index.
    pub open spec fn spec_is_last_multi_leader(self, r: u32) -> bool {
        if r == u32::MAX {
            self.multi_leader_rounds == u32::MAX
        } else {
            r + 1 == self.multi_leader_rounds
        }
    }

    /// The duration round `round` remains valid, or `None` if it is not
    /// time-bounded: the fast round's configured duration; the base timeout
    /// for the last multi-leader round and no bound for the earlier ones;
    /// and a linearly growing, clamped timeout for single-leader and
    /// validator rounds.
    pub open spec fn spec_round_timeout(self, round: Round) -> Option<TimeDelta> {
        match round {
            Round::Fast => self.timeout_config.fast_round_duration,
            Round::MultiLeader(r) => if self.spec_is_last_multi_leader(r) {
                Some(self.timeout_config.base_timeout)
            } else {
                None
            },
            Round::SingleLeader(r) => Some(TimeDelta { micros: self.spec_escalation_micros(r) }),
            Round::Validator(r) => Some(TimeDelta { micros: self.spec_escalation_micros(r) }),
        }
    }

    /// The round a fresh chain starts in: `Fast` if any super owner exists;
    /// else `Validator(0)` if there are no regular owners; else
    /// `MultiLeader(0)` if any multi-leader round is configured; else
    /// `SingleLeader(0)`.
    pub open spec fn spec_first_round(self) -> Round {
        if self.super_owners@.len() > 0 {
            Round::Fast
        } else if self.owners@.len() == 0 {
            Round::Validator(0)
        } else if self.multi_leader_rounds > 0 {
            Round::MultiLeader(0)
        } else {
            Round::SingleLeader(0)
        }
    }

    /// The escalation transition: the round following `round`, or `None`
    /// once even the validator round index is exhausted.
    pub open spec fn spec_next_round(self, round: Round) -> Option<Round> {
        match round {
            Round::Fast => if self.multi_leader_rounds == 0 {
                Some(Round::SingleLeader(0))
            } else {
                Some(Round::MultiLeader(0))
            },
            Round::MultiLeader(r) => if r < u32::MAX && r + 1 < self.multi_leader_rounds {
                Some(Round::MultiLeader((r + 1) as u32))
            } else {
                Some(Round::SingleLeader(0))
            },
            Round::SingleLeader(r) => if r < u32::MAX {
                Some(Round::SingleLeader((r + 1) as u32))
            } else {
                Some(Round::Validator(0))
            },
            Round::Validator(r) => if r < u32::MAX {
                Some(Round::Validator((r + 1) as u32))
            } else {
                None
            },
        }
    }

    /// Creates a `ChainOwnership` with a single super owner: two default
    /// multi-leader rounds, closed multi-leader rounds, and the default
    /// timeout configuration.
    pub fn single_super(owner: AccountOwner) -> (r: ChainOwnership)
        ensures
            r.well_formed(),
            r.super_owners@ == seq![owner],
            r.owners@.len() == 0,
            r.multi_leader_rounds == 2,
            r.open_multi_leader_rounds == false,
            r.timeout_config == spec_default_timeout_config(),
    {
        let mut super_owners: Vec<AccountOwner> = Vec::new();
        super_owners.push(owner);
        proof {
            assert(super_owners@ =~= seq![owner]);
        }
        ChainOwnership {
            super_owners,
            owners: Vec::new(),
            multi_leader_rounds: 2,
            open_multi_leader_rounds: false,
            timeout_config: TimeoutConfig::default(),
        }
    }

    /// Creates a `ChainOwnership` with a single regular owner of weight 100:
    /// two default multi-leader rounds, closed multi-leader rounds, and the
    /// default timeout configuration.
    pub fn single(owner: AccountOwner) -> (r: ChainOwnership)
        ensures
            r.well_formed(),
            r.super_owners@.len() == 0,
            r.owners@ == seq![(owner, 100u64)],
            r.multi_leader_rounds == 2,
            r.open_multi_leader_rounds == false,
            r.timeout_config == spec_default_timeout_config(),
    {
        let mut owners: Vec<(AccountOwner, u64)> = Vec::new();
        owners.push((owner, 100));
        proof {
            assert(owners@ =~= seq![(owner, 100u64)]);
        }
        ChainOwnership {
            super_owners: Vec::new(),
            owners,
            multi_leader_rounds: 2,
            open_multi_leader_rounds: false,
            timeout_config: TimeoutConfig::default(),
        }
    }

    /// Creates a `ChainOwnership` with the specified regular owners, no
    /// super owners, and closed multi-leader rounds. A later entry for an
    /// owner overrides an earlier one, as when collecting into a map.
    pub fn multiple(
        owners_and_weights: Vec<(AccountOwner, u64)>,
        multi_leader_rounds: u32,
        timeout_config: TimeoutConfig,
    ) -> (r: ChainOwnership)
        ensures
            r.well_formed(),
            r.super_owners@.len() == 0,
            r.weights() == weights_of(owners_and_weights@),
            r.multi_leader_rounds == multi_leader_rounds,
            r.open_multi_leader_rounds == false,
            r.timeout_config == timeout_config,
    {
        let ghost input = owners_and_weights@;
        let mut owners: Vec<(AccountOwner, u64)> = Vec::new();
        let mut i: usize = 0;
        while i < owners_and_weights.len()
            invariant
                i <= input.len(),
                owners_and_weights@ == input,
                sorted_weighted_seq(owners@),
                weights_of(owners@) == weights_of(input.take(i as int)),
            decreases input.len() - i,
        {
            let p = owners_and_weights[i];
            owners = insert_weighted(owners, p.0, p.1);
            proof {
                assert(input.take(i + 1).drop_last() =~= input.take(i as int));
                assert(input.take(i + 1).last() == input[i as int]);
            }
            i += 1;
        }
        proof {
            assert(input.take(input.len() as int) =~= input);
        }
        ChainOwnership {
            super_owners: Vec::new(),
            owners,
            multi_leader_rounds,
            open_multi_leader_rounds: false,
            timeout_config,
        }
    }

    /// Adds a regular owner, or replaces that owner's weight if it is
    /// already one; everything else is unchanged.
    pub fn with_regular_owner(self, owner: AccountOwner, weight: u64) -> (r: ChainOwnership)
        requires
            self.well_formed(),
        ensures
            r.well_formed(),
            r.super_owners@ == self.super_owners@,
            r.weights() == self.weights().insert(owner, weight),
            r.multi_leader_rounds == self.multi_leader_rounds,
            r.open_multi_leader_rounds == self.open_multi_leader_rounds,
            r.timeout_config == self.timeout_config,
    {
        let ChainOwnership {
            super_owners,
            owners,
            multi_leader_rounds,
            open_multi_leader_rounds,
            timeout_config,
        } = self;
        let owners = insert_weighted(owners, owner, weight);
        ChainOwnership {
            super_owners,
            owners,
            multi_leader_rounds,
            open_multi_leader_rounds,
            timeout_config,
        }
    }

    /// Returns whether there are any owners or super owners or it is a
    /// public chain.
    pub fn is_active(&self) -> (r: bool)
        ensures
            r == self.spec_is_active(),
    {
        self.super_owners.len() > 0 || self.owners.len() > 0
            || self.timeout_config.fallback_duration.micros == 0
    }

    /// Returns the duration of the given round.
    pub fn round_timeout(&self, round: Round) -> (r: Option<TimeDelta>)
        ensures
            r == self.spec_round_timeout(round),
    {
        let tc = &self.timeout_config;
        match round {
            Round::Fast => tc.fast_round_duration,
            Round::MultiLeader(r) => {
                if r.saturating_add(1) == self.multi_leader_rounds {
                    Some(tc.base_timeout)
                } else {
                    None
                }
            },
            Round::SingleLeader(r) => {
                let increment = tc.timeout_increment.saturating_mul(r as u64);
                Some(tc.base_timeout.saturating_add(increment))
            },
            Round::Validator(r) => {
                let increment = tc.timeout_increment.saturating_mul(r as u64);
                Some(tc.base_timeout.saturating_add(increment))
            },
        }
    }

    /// Returns the first consensus round for this configuration.
    pub fn first_round(&self) -> (r: Round)
        ensures
            r == self.spec_first_round(),
    {
        if self.super_owners.len() > 0 {
            Round::Fast
        } else if self.owners.len() == 0 {
            Round::Validator(0)
        } else if self.multi_leader_rounds > 0 {
            Round::MultiLeader(0)
        } else {
            Round::SingleLeader(0)
        }
    }

    /// Returns the round following the specified one, if any.
    pub fn next_round(&self, round: Round) -> (r: Option<Round>)
        ensures
            r == self.spec_next_round(round),
    {
        match round {
            Round::Fast => {
                if self.multi_leader_rounds == 0 {
                    Some(Round::SingleLeader(0))
                } else {
                    Some(Round::MultiLeader(0))
                }
            },
            Round::MultiLeader(r) => {
                match r.checked_add(1) {
                    Some(next) => {
                        if next < self.multi_leader_rounds {
                            Some(Round::MultiLeader(next))
                        } else {
                            Some(Round::SingleLeader(0))
                        }
                    },
                    None => Some(Round::SingleLeader(0)),
                }
            },
            Round::SingleLeader(r) => {
                match r.checked_add(1) {
                    Some(next) => Some(Round::SingleLeader(next)),
                    None => Some(Round::Validator(0)),
                }
            },
            Round::Validator(r) => {
                match r.checked_add(1) {
                    Some(next) => Some(Round::Validator(next)),
                    None => None,
                }
            },
        }
    }

    /// Returns `true` if this is an owner or super owner.
    pub fn verify_owner(&self, owner: &AccountOwner) -> (r: bool)
        ensures
            r == self.spec_verify_owner(*owner),
    {
        let mut i: usize = 0;
        while i < self.super_owners.len()
            invariant
                i <= self.super_owners@.len(),
                forall|j: int| 0 <= j < i ==> self.super_owners@[j] != *owner,
            decreases self.super_owners@.len() - i,
        {
            if self.super_owners[i].id == owner.id {
                assert(self.super_owners@[i as int] == *owner);
                return true;
            }
            i += 1;
        }
        assert(!self.super_owners@.contains(*owner));
        let mut i: usize = 0;
        while i < self.owners.len()
            invariant
                i <= self.owners@.len(),
                forall|j: int| 0 <= j < i ==> self.owners@[j].0 != *owner,
            decreases self.owners@.len() - i,
        {
            if self.owners[i].0.id == owner.id {
                assert(self.owners@[i as int].0 == *owner);
                proof {
                    lemma_weights_contains(self.owners@, *owner);
                }
                return true;
            }
            i += 1;
        }
        proof {
            lemma_weights_contains(self.owners@, *owner);
        }
        false
    }

    /// Returns all super owners, followed by all regular owners, each group
    /// in canonical order.
    pub fn all_owners(&self) -> (r: Vec<AccountOwner>)
        ensures
            r@ == self.super_owners@ + self.owners@.map_values(|p: (AccountOwner, u64)| p.0),
    {
        let mut out: Vec<AccountOwner> = Vec::new();
        let mut i: usize = 0;
        while i < self.super_owners.len()
            invariant
                i <= self.super_owners@.len(),
                out@ == self.super_owners@.take(i as int),
            decreases self.super_owners@.len() - i,
        {
            out.push(self.super_owners[i]);
            proof {
                assert(out@ =~= self.super_owners@.take(i + 1));
            }
            i += 1;
        }
        let mut i: usize = 0;
        while i < self.owners.len()
            invariant
                i <= self.owners@.len(),
                out@ == self.super_owners@ + self.owners@.map_values(
                    |p: (AccountOwner, u64)| p.0,
                ).take(i as int),
            decreases self.owners@.len() - i,
        {
            out.push(self.owners[i].0);
            proof {
                assert(out@ =~= self.super_owners@ + self.owners@.map_values(
                    |p: (AccountOwner, u64)| p.0,
                ).take(i + 1));
            }
            i += 1;
        }
        proof {
            assert(self.super_owners@.take(self.super_owners@.len() as int)
                =~= self.super_owners@);
            assert(self.owners@.map_values(|p: (AccountOwner, u64)| p.0).take(
                self.owners@.len() as int,
            ) =~= self.owners@.map_values(|p: (AccountOwner, u64)| p.0));
        }
        out
    }
}

/// Errors that can happen when attempting to close a chain.
#[derive(Clone, Copy, PartialEq, Eq, Structural, Debug)]
pub enum CloseChainError {
    /// The application wasn't allowed to close the chain.
    NotPermitted,
}

/// Errors that can happen when attempting to change the application
/// permissions.
#[derive(Clone, Copy, PartialEq, Eq, Structural, Debug)]
pub enum ChangeApplicationPermissionsError {
    /// The application wasn't allowed to change the application permissions.
    NotPermitted,
}

/// Errors that can happen when verifying the authentication of an operation
/// over an account.
#[derive(Clone, Copy, PartialEq, Eq, Structural, Debug)]
pub enum AccountPermissionError {
    /// Operations on the account owned by the carried owner are not
    /// permitted in the current execution context.
    NotPermitted(AccountOwner),
}

/// The model is deterministic: round timeouts, the first round and the
/// escalation transition are functions of the authority record and the round
/// alone, so equal records give identical answers, independent of any other
/// state or of how often they are evaluated.
pub proof fn lemma_deterministic(a: ChainOwnership, b: ChainOwnership, round: Round)
    requires
        a == b,
    ensures
        a.spec_round_timeout(round) == b.spec_round_timeout(round),
        a.spec_next_round(round) == b.spec_next_round(round),
        a.spec_first_round() == b.spec_first_round(),
{
}

impl ChainOwnership {
    /// The rounds the escalation sequence can visit: every round except a
    /// multi-leader round at or past the configured count.
    pub open spec fn spec_valid_round(self, round: Round) -> bool {
        match round {
            Round::MultiLeader(r) => (r as int) < (self.multi_leader_rounds as int),
            _ => true,
        }
    }

    /// The position of a round in the escalation order: `Fast` first, then
    /// the `multi_leader_rounds` multi-leader rounds in index order, then
    /// every single-leader round, then every validator round.
    pub open spec fn spec_round_position(self, round: Round) -> int {
        let n = self.multi_leader_rounds as int;
        match round {
            Round::Fast => 0,
            Round::MultiLeader(r) => 1 + r as int,
            Round::SingleLeader(r) => 1 + n + r as int,
            Round::Validator(r) => 2 + n + u32::MAX as int + r as int,
        }
    }
}

/// Escalation is strictly monotone and never returns to `Fast`: from any
/// valid round the next round, when there is one, is the valid round exactly
/// one position later in the escalation order, and no next round exists
/// precisely at the last validator round. Together with
/// `lemma_multi_leader_positions`, this pins the sequence obtained by
/// repeatedly applying the transition from `Fast`: the configured number of
/// multi-leader rounds in index order (if any), then the single-leader
/// rounds, then the validator rounds, never revisiting `Fast`.
pub proof fn lemma_escalation_step(o: ChainOwnership, round: Round)
    requires
        o.spec_valid_round(round),
    ensures
        o.spec_next_round(round) is None <==> round == Round::Validator(u32::MAX),
        o.spec_next_round(round) matches Some(next) ==> {
            &&& next != Round::Fast
            &&& o.spec_valid_round(next)
            &&& o.spec_round_position(next) == o.spec_round_position(round) + 1
        },
{
}

/// The multi-leader segment of the escalation order has length exactly
/// `multi_leader_rounds`: among valid rounds, the ones at positions
/// `1 ..= multi_leader_rounds` are exactly the multi-leader rounds.
pub proof fn lemma_multi_leader_positions(o: ChainOwnership, round: Round)
    requires
        o.spec_valid_round(round),
    ensures
        (1 <= o.spec_round_position(round) <= o.multi_leader_rounds as int) <==> (round matches Round::MultiLeader(_)),
{
}

/// For single-leader and validator rounds the timeout never decreases as
/// the round index grows; it saturates at the maximum duration instead of
/// wrapping.
pub proof fn lemma_timeout_non_decreasing(o: ChainOwnership, r1: u32, r2: u32)
    requires
        r1 <= r2,
    ensures
        o.spec_round_timeout(Round::SingleLeader(r1)) is Some,
        o.spec_round_timeout(Round::SingleLeader(r2)) is Some,
        o.spec_round_timeout(Round::SingleLeader(r1)).unwrap().micros
            <= o.spec_round_timeout(Round::SingleLeader(r2)).unwrap().micros,
        o.spec_round_timeout(Round::Validator(r1)) is Some,
        o.spec_round_timeout(Round::Validator(r2)) is Some,
        o.spec_round_timeout(Round::Validator(r1)).unwrap().micros
            <= o.spec_round_timeout(Round::Validator(r2)).unwrap().micros,
{
    let inc = o.timeout_config.timeout_increment.micros;
    let base = o.timeout_config.base_timeout.micros;
    crate::time_delta::lemma_sat_mul_monotone(inc, r1 as u64, r2 as u64);
    crate::time_delta::lemma_sat_add_monotone(base, sat_mul(inc, r1 as u64), sat_mul(inc, r2 as u64));
}

/// Only the final multi-leader round is time-boxed: with
/// `multi_leader_rounds == n`, every earlier multi-leader round has no
/// timeout, and round `n - 1` times out after exactly the base timeout.
pub proof fn lemma_multi_leader_timeout(o: ChainOwnership, k: u32)
    ensures
        (k as int) + 1 < (o.multi_leader_rounds as int) ==> o.spec_round_timeout(
            Round::MultiLeader(k),
        ) is None,
        (k as int) + 1 == (o.multi_leader_rounds as int) ==> o.spec_round_timeout(
            Round::MultiLeader(k),
        ) == Some(o.timeout_config.base_timeout),
{
}

/// Owner authority is symmetric with membership: an owner passes
/// `verify_owner` exactly when it is a super owner or a key of the regular
/// owner mapping, and adding a regular owner authorizes that owner while
/// leaving every other owner's verification result unchanged.
pub proof fn lemma_owner_authority(
    before: ChainOwnership,
    after: ChainOwnership,
    owner: AccountOwner,
    weight: u64,
    other: AccountOwner,
)
    requires
        after.super_owners@ == before.super_owners@,
        after.weights() == before.weights().insert(owner, weight),
    ensures
        before.spec_verify_owner(other) == (before.spec_is_super_owner(other)
            || before.spec_is_regular_owner(other)),
        after.spec_verify_owner(owner),
        other != owner ==> after.spec_verify_owner(other) == before.spec_verify_owner(other),
{
}

/// The activity invariant: a record with no owners of either kind and a
/// nonzero fallback duration is inactive; an owner of either kind, or a
/// fallback duration of exactly zero, makes the record active.
pub proof fn lemma_activity(o: ChainOwnership)
    ensures
        (o.super_owners@.len() == 0 && o.owners@.len() == 0
            && o.timeout_config.fallback_duration.micros != 0) ==> !o.spec_is_active(),
        o.super_owners@.len() > 0 ==> o.spec_is_active(),
        o.owners@.len() > 0 ==> o.spec_is_active(),
        o.timeout_config.fallback_duration.micros == 0 ==> o.spec_is_active(),
{
}

} // verus!
