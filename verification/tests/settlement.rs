use soro_susu::{Circle, Error};
use soroban_sdk::testutils::Address as _;
use soroban_sdk::{Address, Env};

/// A circle of three in which the first member was paid, dissolved by the
/// votes of the first two.
fn dissolved_circle(env: &Env, contribution: i128) -> (Circle, Address, Vec<Address>) {
    let admin = Address::generate(env);
    let mut circle = Circle::new(admin.clone(), contribution, false);
    let members: Vec<Address> = (0..3).map(|_| Address::generate(env)).collect();
    for member in &members {
        assert_eq!(circle.join(member), Ok(()));
    }
    assert_eq!(circle.process_payout(&admin, &members[0]), Ok(()));
    assert_eq!(circle.vote_dissolve(&members[0]), Ok(()));
    assert_eq!(circle.vote_dissolve(&members[1]), Ok(()));
    assert!(circle.is_dissolved());
    (circle, admin, members)
}

#[test]
fn an_unpaid_member_takes_back_one_contribution() {
    let env = Env::default();
    let (mut circle, _, members) = dissolved_circle(&env, 100);

    assert_eq!(circle.withdraw_pro_rata(&members[1]), Ok(100));
    let parts = circle.to_parts();
    assert_eq!(parts.contributions_paid, vec![100, 0, 100]);
    assert_eq!(parts.has_received_payout, vec![true, false, false]);
    assert_eq!(parts.total_volume_distributed, 100);
    assert_eq!(parts.current_payout_index, 1);
}

#[test]
fn a_paid_member_takes_back_nothing() {
    let env = Env::default();
    let (mut circle, _, members) = dissolved_circle(&env, 100);

    let before = circle.to_parts();
    assert_eq!(circle.withdraw_pro_rata(&members[0]), Ok(0));
    assert_eq!(circle.to_parts(), before);
    assert_eq!(before.contributions_paid, vec![100, 100, 100]);
}

#[test]
fn a_second_withdrawal_returns_zero_and_changes_nothing() {
    let env = Env::default();
    let (mut circle, _, members) = dissolved_circle(&env, 100);

    assert_eq!(circle.withdraw_pro_rata(&members[2]), Ok(100));
    let after_first = circle.to_parts();
    assert_eq!(circle.withdraw_pro_rata(&members[2]), Ok(0));
    assert_eq!(circle.to_parts(), after_first);
    assert_eq!(circle.withdraw_pro_rata(&members[2]), Ok(0));
    assert_eq!(circle.to_parts(), after_first);
}

#[test]
fn nothing_is_withdrawn_before_dissolution() {
    let env = Env::default();
    let admin = Address::generate(&env);
    let mut circle = Circle::new(admin.clone(), 100, false);
    let a = Address::generate(&env);
    assert_eq!(circle.join(&a), Ok(()));

    let before = circle.to_parts();
    assert_eq!(circle.withdraw_pro_rata(&a), Err(Error::NotDissolved));
    assert_eq!(
        circle.withdraw_pro_rata(&Address::generate(&env)),
        Err(Error::NotDissolved)
    );
    assert_eq!(circle.to_parts(), before);
}

#[test]
fn only_members_withdraw() {
    let env = Env::default();
    let (mut circle, admin, _) = dissolved_circle(&env, 100);

    let before = circle.to_parts();
    assert_eq!(circle.withdraw_pro_rata(&admin), Err(Error::NotMember));
    assert_eq!(
        circle.withdraw_pro_rata(&Address::generate(&env)),
        Err(Error::NotMember)
    );
    assert_eq!(circle.to_parts(), before);
}

#[test]
fn a_contribution_of_zero_returns_zero_and_changes_nothing() {
    let env = Env::default();
    let (mut circle, _, members) = dissolved_circle(&env, 0);

    let before = circle.to_parts();
    assert_eq!(circle.withdraw_pro_rata(&members[0]), Ok(0));
    assert_eq!(circle.withdraw_pro_rata(&members[1]), Ok(0));
    assert_eq!(circle.to_parts(), before);
}

#[test]
fn a_negative_amount_is_returned_as_it_is() {
    let env = Env::default();
    let (mut circle, _, members) = dissolved_circle(&env, -40);

    let before = circle.to_parts();
    assert_eq!(circle.withdraw_pro_rata(&members[1]), Ok(-40));
    assert_eq!(circle.withdraw_pro_rata(&members[1]), Ok(-40));
    assert_eq!(circle.withdraw_pro_rata(&members[0]), Ok(0));
    assert_eq!(circle.to_parts(), before);
    assert_eq!(before.contributions_paid, vec![-40, -40, -40]);
}

#[test]
fn the_largest_contribution_is_paid_back_whole() {
    let env = Env::default();
    let admin = Address::generate(&env);
    let mut circle = Circle::new(admin, i128::MAX, false);
    let a = Address::generate(&env);
    assert_eq!(circle.join(&a), Ok(()));
    assert_eq!(circle.vote_dissolve(&a), Ok(()));

    assert_eq!(circle.withdraw_pro_rata(&a), Ok(i128::MAX));
    assert_eq!(circle.withdraw_pro_rata(&a), Ok(0));
}

#[test]
fn the_smallest_contribution_is_returned_without_overflow() {
    let env = Env::default();
    let admin = Address::generate(&env);
    let mut circle = Circle::new(admin.clone(), i128::MIN, false);
    let a = Address::generate(&env);
    let b = Address::generate(&env);
    assert_eq!(circle.join(&a), Ok(()));
    assert_eq!(circle.join(&b), Ok(()));
    assert_eq!(circle.process_payout(&admin, &a), Ok(()));
    assert_eq!(circle.vote_dissolve(&a), Ok(()));
    assert_eq!(circle.vote_dissolve(&b), Ok(()));

    assert_eq!(circle.withdraw_pro_rata(&a), Ok(0));
    assert_eq!(circle.withdraw_pro_rata(&b), Ok(i128::MIN));
}
