use chain_ownership::ownership::{
    AccountOwner, AccountPermissionError, ChainOwnership, ChangeApplicationPermissionsError,
    CloseChainError, TimeoutConfig,
};
use chain_ownership::round::Round;
use chain_ownership::time_delta::TimeDelta;

#[test]
fn test_ownership_round_timeouts() {
    let super_owner = AccountOwner { id: 1 };
    let owner = AccountOwner { id: 2 };

    let ownership = ChainOwnership {
        super_owners: vec![super_owner],
        owners: vec![(owner, 100)],
        multi_leader_rounds: 10,
        open_multi_leader_rounds: false,
        timeout_config: TimeoutConfig {
            fast_round_duration: Some(TimeDelta::from_secs(5)),
            base_timeout: TimeDelta::from_secs(10),
            timeout_increment: TimeDelta::from_secs(1),
            fallback_duration: TimeDelta::from_secs(60 * 60),
        },
    };

    assert_eq!(
        ownership.round_timeout(Round::Fast),
        Some(TimeDelta::from_secs(5))
    );
    assert_eq!(ownership.round_timeout(Round::MultiLeader(8)), None);
    assert_eq!(
        ownership.round_timeout(Round::MultiLeader(9)),
        Some(TimeDelta::from_secs(10))
    );
    assert_eq!(
        ownership.round_timeout(Round::SingleLeader(0)),
        Some(TimeDelta::from_secs(10))
    );
    assert_eq!(
        ownership.round_timeout(Round::SingleLeader(1)),
        Some(TimeDelta::from_secs(11))
    );
    assert_eq!(
        ownership.round_timeout(Round::SingleLeader(8)),
        Some(TimeDelta::from_secs(18))
    );
}

#[test]
fn first_round_selection() {
    let super_owner = AccountOwner { id: 10 };
    let owner = AccountOwner { id: 20 };

    let with_super = ChainOwnership::single_super(super_owner);
    assert_eq!(with_super.first_round(), Round::Fast);

    let with_regular = ChainOwnership::single(owner);
    assert_eq!(with_regular.multi_leader_rounds, 2);
    assert_eq!(with_regular.first_round(), Round::MultiLeader(0));

    let unowned = ChainOwnership::multiple(vec![], 2, TimeoutConfig::default());
    assert_eq!(unowned.first_round(), Round::Validator(0));

    let no_multi_leader = ChainOwnership::multiple(vec![(owner, 100)], 0, TimeoutConfig::default());
    assert_eq!(no_multi_leader.first_round(), Round::SingleLeader(0));
}

#[test]
fn escalation_from_fast() {
    let ownership = ChainOwnership::single_super(AccountOwner { id: 3 });
    assert_eq!(ownership.multi_leader_rounds, 2);

    let mut round = Round::Fast;
    let mut visited = Vec::new();
    for _ in 0..4 {
        round = ownership.next_round(round).unwrap();
        visited.push(round);
    }
    assert_eq!(
        visited,
        vec![
            Round::MultiLeader(0),
            Round::MultiLeader(1),
            Round::SingleLeader(0),
            Round::SingleLeader(1),
        ]
    );
}

#[test]
fn escalation_edges() {
    let no_multi = ChainOwnership::multiple(vec![], 0, TimeoutConfig::default());
    assert_eq!(no_multi.next_round(Round::Fast), Some(Round::SingleLeader(0)));

    let ownership = ChainOwnership::single(AccountOwner { id: 4 });
    assert_eq!(
        ownership.next_round(Round::MultiLeader(u32::MAX)),
        Some(Round::SingleLeader(0))
    );
    assert_eq!(
        ownership.next_round(Round::SingleLeader(u32::MAX)),
        Some(Round::Validator(0))
    );
    assert_eq!(
        ownership.next_round(Round::Validator(7)),
        Some(Round::Validator(8))
    );
    assert_eq!(ownership.next_round(Round::Validator(u32::MAX)), None);
}

#[test]
fn verify_owner_membership() {
    let super_owner = AccountOwner { id: 1 };
    let owner = AccountOwner { id: 2 };
    let stranger = AccountOwner { id: 3 };

    let ownership = ChainOwnership::single_super(super_owner);
    assert!(ownership.verify_owner(&super_owner));
    assert!(!ownership.verify_owner(&owner));

    let extended = ownership.with_regular_owner(owner, 100);
    assert!(extended.verify_owner(&super_owner));
    assert!(extended.verify_owner(&owner));
    assert!(!extended.verify_owner(&stranger));
}

#[test]
fn with_regular_owner_replaces_weight() {
    let owner = AccountOwner { id: 9 };
    let ownership = ChainOwnership::single(owner).with_regular_owner(owner, 42);
    assert_eq!(ownership.owners, vec![(owner, 42)]);
}

#[test]
fn owners_kept_in_canonical_order() {
    let a = AccountOwner { id: 1 };
    let b = AccountOwner { id: 2 };
    let c = AccountOwner { id: 3 };

    let ownership =
        ChainOwnership::multiple(vec![(c, 30), (a, 10), (b, 20)], 2, TimeoutConfig::default());
    assert_eq!(ownership.owners, vec![(a, 10), (b, 20), (c, 30)]);

    let duplicated =
        ChainOwnership::multiple(vec![(b, 1), (a, 2), (b, 3)], 2, TimeoutConfig::default());
    assert_eq!(duplicated.owners, vec![(a, 2), (b, 3)]);
}

#[test]
fn all_owners_lists_super_owners_first() {
    let s1 = AccountOwner { id: 5 };
    let r1 = AccountOwner { id: 1 };
    let r2 = AccountOwner { id: 8 };

    let ownership = ChainOwnership {
        super_owners: vec![s1],
        owners: vec![(r1, 1), (r2, 2)],
        multi_leader_rounds: 2,
        open_multi_leader_rounds: false,
        timeout_config: TimeoutConfig::default(),
    };
    assert_eq!(ownership.all_owners(), vec![s1, r1, r2]);
}

#[test]
fn activity_invariant() {
    let empty = ChainOwnership::multiple(vec![], 2, TimeoutConfig::default());
    assert!(!empty.is_active());

    let with_super = ChainOwnership::single_super(AccountOwner { id: 1 });
    assert!(with_super.is_active());

    let with_regular = ChainOwnership::single(AccountOwner { id: 1 });
    assert!(with_regular.is_active());

    let always_fallback = ChainOwnership::multiple(
        vec![],
        2,
        TimeoutConfig {
            fast_round_duration: None,
            base_timeout: TimeDelta::from_secs(10),
            timeout_increment: TimeDelta::from_secs(1),
            fallback_duration: TimeDelta::zero(),
        },
    );
    assert!(always_fallback.is_active());
}

#[test]
fn default_timeout_config() {
    let config = TimeoutConfig::default();
    assert_eq!(config.fast_round_duration, None);
    assert_eq!(config.base_timeout, TimeDelta::from_secs(10));
    assert_eq!(config.timeout_increment, TimeDelta::from_secs(1));
    assert_eq!(config.fallback_duration, TimeDelta::max_value());
}

#[test]
fn default_ownership_is_inactive() {
    let ownership = ChainOwnership::default();
    assert!(ownership.super_owners.is_empty());
    assert!(ownership.owners.is_empty());
    assert_eq!(ownership.multi_leader_rounds, 0);
    assert!(!ownership.open_multi_leader_rounds);
    assert!(!ownership.is_active());
    assert_eq!(ownership.first_round(), Round::Validator(0));
}

#[test]
fn saturating_round_timeouts() {
    let ownership = ChainOwnership::multiple(
        vec![(AccountOwner { id: 1 }, 100)],
        2,
        TimeoutConfig {
            fast_round_duration: None,
            base_timeout: TimeDelta::from_secs(10),
            timeout_increment: TimeDelta::max_value(),
            fallback_duration: TimeDelta::max_value(),
        },
    );
    assert_eq!(
        ownership.round_timeout(Round::SingleLeader(0)),
        Some(TimeDelta::from_secs(10))
    );
    assert_eq!(
        ownership.round_timeout(Round::Validator(u32::MAX)),
        Some(TimeDelta::max_value())
    );
}

#[test]
fn round_precedence_order() {
    assert!(Round::Fast < Round::MultiLeader(0));
    assert!(Round::MultiLeader(1) < Round::MultiLeader(2));
    assert!(Round::MultiLeader(u32::MAX) < Round::SingleLeader(0));
    assert!(Round::SingleLeader(5) < Round::Validator(0));
    assert!(Round::Validator(0) < Round::Validator(1));
}

#[test]
fn permission_errors_carry_their_context() {
    let close = CloseChainError::NotPermitted;
    assert!(matches!(close, CloseChainError::NotPermitted));

    let change = ChangeApplicationPermissionsError::NotPermitted;
    assert!(matches!(
        change,
        ChangeApplicationPermissionsError::NotPermitted
    ));

    let offender = AccountOwner { id: 77 };
    let account = AccountPermissionError::NotPermitted(offender);
    assert_eq!(account, AccountPermissionError::NotPermitted(offender));
}
