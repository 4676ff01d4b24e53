use soro_susu::{Circle, Error, MAX_MEMBERS};
use soroban_sdk::testutils::Address as _;
use soroban_sdk::{Address, Env};

fn open_circle(env: &Env, contribution: i128) -> (Circle, Address) {
    let admin = Address::generate(env);
    (Circle::new(admin.clone(), contribution, false), admin)
}

#[test]
fn the_limit_is_fifty_members() {
    assert_eq!(MAX_MEMBERS, 50);
}

#[test]
fn joining_appends_the_member_with_their_stake() {
    let env = Env::default();
    let (mut circle, _) = open_circle(&env, 30);
    let a = Address::generate(&env);
    let b = Address::generate(&env);

    assert_eq!(circle.join(&a), Ok(()));
    assert_eq!(circle.join(&b), Ok(()));

    let parts = circle.to_parts();
    assert_eq!(parts.members, vec![a.clone(), b.clone()]);
    assert_eq!(parts.has_received_payout, vec![false, false]);
    assert_eq!(parts.contributions_paid, vec![30, 30]);
    assert_eq!(circle.position_of(&a), Some(0));
    assert_eq!(circle.position_of(&b), Some(1));
    assert_eq!(circle.position_of(&Address::generate(&env)), None);
}

#[test]
fn the_fiftieth_member_joins_and_the_next_is_refused() {
    let env = Env::default();
    let (mut circle, _) = open_circle(&env, 10);
    for _ in 0..49 {
        assert_eq!(circle.join(&Address::generate(&env)), Ok(()));
    }
    assert_eq!(circle.members().len(), 49);

    assert_eq!(circle.join(&Address::generate(&env)), Ok(()));
    assert_eq!(circle.members().len(), 50);

    let before = circle.to_parts();
    assert_eq!(
        circle.join(&Address::generate(&env)),
        Err(Error::MaxMembersReached)
    );
    assert_eq!(circle.to_parts(), before);
    assert_eq!(circle.has_received_payout().len(), 50);
    assert_eq!(circle.contributions_paid().len(), 50);
}

#[test]
fn a_member_of_a_full_circle_is_told_they_have_joined() {
    let env = Env::default();
    let (mut circle, _) = open_circle(&env, 10);
    let first = Address::generate(&env);
    assert_eq!(circle.join(&first), Ok(()));
    for _ in 0..49 {
        assert_eq!(circle.join(&Address::generate(&env)), Ok(()));
    }
    assert_eq!(circle.join(&first), Err(Error::AlreadyJoined));
}

#[test]
fn a_second_join_is_refused_and_changes_nothing() {
    let env = Env::default();
    let (mut circle, _) = open_circle(&env, 10);
    let a = Address::generate(&env);
    let b = Address::generate(&env);
    assert_eq!(circle.join(&a), Ok(()));
    assert_eq!(circle.join(&b), Ok(()));

    let before = circle.to_parts();
    assert_eq!(circle.join(&a), Err(Error::AlreadyJoined));
    assert_eq!(circle.join(&b), Err(Error::AlreadyJoined));
    assert_eq!(circle.to_parts(), before);
    assert_eq!(before.members, vec![a, b]);
}

#[test]
fn the_admin_is_no_member_until_they_join() {
    let env = Env::default();
    let (mut circle, admin) = open_circle(&env, 10);
    assert_eq!(circle.position_of(&admin), None);
    assert_eq!(circle.join(&admin), Ok(()));
    assert_eq!(circle.position_of(&admin), Some(0));
}

#[test]
fn nobody_joins_a_dissolved_circle() {
    let env = Env::default();
    let (mut circle, _) = open_circle(&env, 10);
    let a = Address::generate(&env);
    assert_eq!(circle.join(&a), Ok(()));
    assert_eq!(circle.vote_dissolve(&a), Ok(()));
    assert!(circle.is_dissolved());

    let before = circle.to_parts();
    assert_eq!(
        circle.join(&Address::generate(&env)),
        Err(Error::AlreadyDissolved)
    );
    assert_eq!(circle.join(&a), Err(Error::AlreadyDissolved));
    assert_eq!(circle.to_parts(), before);
}
