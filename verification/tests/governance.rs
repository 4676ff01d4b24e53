use soro_susu::{Circle, Error};
use soroban_sdk::testutils::Address as _;
use soroban_sdk::{Address, Env};

fn voters(env: &Env, count: usize) -> (Circle, Address, Vec<Address>) {
    let admin = Address::generate(env);
    let mut circle = Circle::new(admin.clone(), 100, false);
    let members: Vec<Address> = (0..count).map(|_| Address::generate(env)).collect();
    for member in &members {
        assert_eq!(circle.join(member), Ok(()));
    }
    (circle, admin, members)
}

#[test]
fn four_members_dissolve_at_the_third_vote() {
    let env = Env::default();
    let (mut circle, _, members) = voters(&env, 4);

    assert_eq!(circle.vote_dissolve(&members[0]), Ok(()));
    assert!(!circle.is_dissolved());
    assert_eq!(circle.vote_dissolve(&members[1]), Ok(()));
    assert!(!circle.is_dissolved());
    assert_eq!(circle.vote_dissolve(&members[2]), Ok(()));
    assert!(circle.is_dissolved());
    assert_eq!(
        circle.to_parts().dissolution_votes,
        vec![members[0].clone(), members[1].clone(), members[2].clone()]
    );
}

#[test]
fn five_members_dissolve_at_the_third_vote() {
    let env = Env::default();
    let (mut circle, _, members) = voters(&env, 5);

    assert_eq!(circle.vote_dissolve(&members[4]), Ok(()));
    assert!(!circle.is_dissolved());
    assert_eq!(circle.vote_dissolve(&members[3]), Ok(()));
    assert!(!circle.is_dissolved());
    assert_eq!(circle.vote_dissolve(&members[2]), Ok(()));
    assert!(circle.is_dissolved());
}

#[test]
fn a_single_member_dissolves_alone() {
    let env = Env::default();
    let (mut circle, _, members) = voters(&env, 1);
    assert_eq!(circle.vote_dissolve(&members[0]), Ok(()));
    assert!(circle.is_dissolved());
}

#[test]
fn two_members_need_both_votes() {
    let env = Env::default();
    let (mut circle, _, members) = voters(&env, 2);
    assert_eq!(circle.vote_dissolve(&members[0]), Ok(()));
    assert!(!circle.is_dissolved());
    assert_eq!(circle.vote_dissolve(&members[1]), Ok(()));
    assert!(circle.is_dissolved());
}

#[test]
fn a_second_vote_is_refused() {
    let env = Env::default();
    let (mut circle, _, members) = voters(&env, 4);
    assert_eq!(circle.vote_dissolve(&members[0]), Ok(()));

    let before = circle.to_parts();
    assert_eq!(circle.vote_dissolve(&members[0]), Err(Error::AlreadyVoted));
    assert_eq!(circle.to_parts(), before);
    assert_eq!(before.dissolution_votes, vec![members[0].clone()]);
}

#[test]
fn only_members_vote() {
    let env = Env::default();
    let (mut circle, admin, _) = voters(&env, 3);

    let before = circle.to_parts();
    assert_eq!(circle.vote_dissolve(&admin), Err(Error::NotMember));
    assert_eq!(
        circle.vote_dissolve(&Address::generate(&env)),
        Err(Error::NotMember)
    );
    assert_eq!(circle.propose_dissolution(&admin), Err(Error::NotMember));
    assert_eq!(circle.to_parts(), before);
    assert_eq!(before.dissolution_votes, vec![]);
}

#[test]
fn no_vote_is_taken_after_dissolution() {
    let env = Env::default();
    let (mut circle, _, members) = voters(&env, 3);
    assert_eq!(circle.vote_dissolve(&members[0]), Ok(()));
    assert_eq!(circle.vote_dissolve(&members[1]), Ok(()));
    assert!(circle.is_dissolved());

    let before = circle.to_parts();
    assert_eq!(
        circle.vote_dissolve(&members[2]),
        Err(Error::AlreadyDissolved)
    );
    assert_eq!(
        circle.vote_dissolve(&members[0]),
        Err(Error::AlreadyDissolved)
    );
    assert_eq!(
        circle.propose_dissolution(&members[2]),
        Err(Error::AlreadyDissolved)
    );
    assert_eq!(circle.to_parts(), before);
}

#[test]
fn a_proposal_counts_once_and_never_dissolves() {
    let env = Env::default();
    let (mut circle, _, members) = voters(&env, 1);

    assert_eq!(circle.propose_dissolution(&members[0]), Ok(()));
    assert_eq!(circle.propose_dissolution(&members[0]), Ok(()));
    assert_eq!(circle.propose_dissolution(&members[0]), Ok(()));

    let parts = circle.to_parts();
    assert_eq!(parts.dissolution_votes, vec![members[0].clone()]);
    assert!(!parts.is_dissolved);
}

#[test]
fn whoever_proposed_has_voted() {
    let env = Env::default();
    let (mut circle, _, members) = voters(&env, 3);
    assert_eq!(circle.propose_dissolution(&members[0]), Ok(()));
    assert_eq!(circle.vote_dissolve(&members[0]), Err(Error::AlreadyVoted));
    assert!(!circle.is_dissolved());
}

#[test]
fn proposals_count_toward_the_majority_of_a_later_vote() {
    let env = Env::default();
    let (mut circle, _, members) = voters(&env, 4);
    assert_eq!(circle.propose_dissolution(&members[0]), Ok(()));
    assert_eq!(circle.propose_dissolution(&members[1]), Ok(()));
    assert!(!circle.is_dissolved());
    assert_eq!(circle.vote_dissolve(&members[2]), Ok(()));
    assert!(circle.is_dissolved());
}

#[test]
fn a_tie_does_not_dissolve() {
    let env = Env::default();
    let (mut circle, _, members) = voters(&env, 6);
    for member in &members[..3] {
        assert_eq!(circle.vote_dissolve(member), Ok(()));
    }
    assert!(!circle.is_dissolved());
    assert_eq!(circle.vote_dissolve(&members[3]), Ok(()));
    assert!(circle.is_dissolved());
}

#[test]
fn a_full_circle_dissolves_at_the_twenty_sixth_vote() {
    let env = Env::default();
    let (mut circle, _, members) = voters(&env, 50);
    for member in &members[..25] {
        assert_eq!(circle.vote_dissolve(member), Ok(()));
    }
    assert!(!circle.is_dissolved());
    assert_eq!(circle.vote_dissolve(&members[25]), Ok(()));
    assert!(circle.is_dissolved());
    assert_eq!(circle.dissolution_votes().len(), 26);
}
