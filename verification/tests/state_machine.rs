use subscription_vault::state_machine::{
    can_transition, get_allowed_transitions, transition_to, validate_status_transition,
};
use subscription_vault::SubscriptionStatus::{
    Active, Archived, Cancelled, Expired, GracePeriod, InsufficientBalance, Paused,
};
use subscription_vault::{DataKey, Error, SubscriptionStatus};

const ALL: [SubscriptionStatus; 7] = [
    SubscriptionStatus::Active,
    SubscriptionStatus::Paused,
    SubscriptionStatus::Cancelled,
    SubscriptionStatus::InsufficientBalance,
    SubscriptionStatus::GracePeriod,
    SubscriptionStatus::Expired,
    SubscriptionStatus::Archived,
];

#[test]
fn same_status_is_always_allowed() {
    for s in ALL {
        assert!(can_transition(&s, &s));
    }
}

#[test]
fn matrix_examples() {
    assert!(can_transition(&Active, &Paused));
    assert!(can_transition(&GracePeriod, &InsufficientBalance));
    assert!(can_transition(&Expired, &Archived));
    assert!(!can_transition(&Paused, &InsufficientBalance));
    assert!(!can_transition(&Archived, &Active));
    assert!(!can_transition(&Cancelled, &Active));
    assert!(!can_transition(&Active, &Archived));
}

#[test]
fn allowed_transitions_lists() {
    assert_eq!(
        get_allowed_transitions(&Active),
        vec![Paused, Cancelled, InsufficientBalance, GracePeriod, Expired]
    );
    assert_eq!(get_allowed_transitions(&Paused), vec![Active, Cancelled, Expired]);
    assert_eq!(get_allowed_transitions(&Cancelled), vec![Archived]);
    assert_eq!(get_allowed_transitions(&InsufficientBalance), vec![Active, Cancelled, Expired]);
    assert_eq!(
        get_allowed_transitions(&GracePeriod),
        vec![Active, Cancelled, InsufficientBalance, Expired]
    );
    assert_eq!(get_allowed_transitions(&Expired), vec![Archived]);
    assert_eq!(get_allowed_transitions(&Archived), vec![]);
}

#[test]
fn allowed_transitions_enumerate_the_matrix() {
    for from in ALL {
        let listed = get_allowed_transitions(&from);
        for to in ALL {
            assert_eq!(listed.contains(&to), to != from && can_transition(&from, &to));
        }
    }
}

#[test]
fn validate_reports_invalid_transition() {
    assert_eq!(validate_status_transition(&Active, &Paused), Ok(()));
    assert_eq!(validate_status_transition(&Archived, &Paused), Err(Error::InvalidStatusTransition));
}

#[test]
fn transition_to_applies_only_on_success() {
    let mut s = Active;
    assert_eq!(transition_to(&mut s, Paused), Ok(()));
    assert_eq!(s, Paused);
    assert_eq!(transition_to(&mut s, InsufficientBalance), Err(Error::InvalidStatusTransition));
    assert_eq!(s, Paused);
    assert_eq!(transition_to(&mut s, Cancelled), Ok(()));
    assert_eq!(transition_to(&mut s, Archived), Ok(()));
    assert_eq!(transition_to(&mut s, Archived), Ok(()));
    assert_eq!(s, Archived);
    for to in ALL {
        if to != Archived {
            assert_eq!(transition_to(&mut s, to), Err(Error::InvalidStatusTransition));
            assert_eq!(s, Archived);
        }
    }
}

#[test]
fn data_key_symbols() {
    assert_eq!(DataKey::Admin.to_symbol(), "admin");
    assert_eq!(DataKey::Token.to_symbol(), "token");
    assert_eq!(DataKey::MinTopup.to_symbol(), "min_topup");
}
