use soro_susu::{identifier_after, DataKey, Error, SoroSusu};
use soroban_sdk::testutils::Address as _;
use soroban_sdk::{Address, Env};

#[test]
fn identifiers_start_at_one_and_go_up_by_one() {
    let env = Env::default();
    let creator = Address::generate(&env);
    let mut susu = SoroSusu::new();
    assert_eq!(susu.circle_count(), 0);

    assert_eq!(susu.create_circle(&creator, 10, false), 1);
    assert_eq!(susu.create_circle(&creator, 20, true), 2);
    assert_eq!(susu.create_circle(&Address::generate(&env), 30, false), 3);
    assert_eq!(susu.circle_count(), 3);

    assert_eq!(susu.get_circle(1).unwrap().contribution(), 10);
    assert_eq!(susu.get_circle(2).unwrap().contribution(), 20);
    assert_eq!(susu.get_circle(3).unwrap().contribution(), 30);
    assert!(susu.get_circle(2).unwrap().is_random_queue());
    assert_eq!(susu.get_circle(1).unwrap().admin(), &creator);
}

#[test]
fn the_registry_knows_its_keys() {
    let env = Env::default();
    let creator = Address::generate(&env);
    let mut susu = SoroSusu::new();
    assert!(!susu.has(&DataKey::CircleCount));
    assert!(!susu.has(&DataKey::Circle(0)));
    assert!(!susu.has(&DataKey::Circle(1)));

    susu.create_circle(&creator, 10, false);
    susu.create_circle(&creator, 10, false);
    assert!(susu.has(&DataKey::CircleCount));
    assert!(!susu.has(&DataKey::Circle(0)));
    assert!(susu.has(&DataKey::Circle(1)));
    assert!(susu.has(&DataKey::Circle(2)));
    assert!(!susu.has(&DataKey::Circle(3)));
    assert!(!susu.has(&DataKey::Circle(u32::MAX)));
}

#[test]
fn an_unknown_circle_is_not_found() {
    let env = Env::default();
    let who = Address::generate(&env);
    let mut susu = SoroSusu::new();
    susu.create_circle(&who, 10, false);

    for id in [0, 2, 7, u32::MAX] {
        assert_eq!(susu.get_circle(id).err(), Some(Error::CircleNotFound));
        assert_eq!(susu.join_circle(&who, id), Err(Error::CircleNotFound));
        assert_eq!(
            susu.finalize_circle(&who, id, &Vec::new()),
            Err(Error::CircleNotFound)
        );
        assert_eq!(
            susu.process_payout(&who, id, &who),
            Err(Error::CircleNotFound)
        );
        assert_eq!(
            susu.propose_dissolution(&who, id),
            Err(Error::CircleNotFound)
        );
        assert_eq!(susu.vote_dissolve(&who, id), Err(Error::CircleNotFound));
        assert_eq!(
            susu.withdraw_pro_rata(&who, id),
            Err(Error::CircleNotFound)
        );
    }
    assert_eq!(susu.get_circle(1).unwrap().members().len(), 0);
}

#[test]
fn circles_do_not_touch_each_other() {
    let env = Env::default();
    let admin = Address::generate(&env);
    let a = Address::generate(&env);
    let b = Address::generate(&env);
    let mut susu = SoroSusu::new();
    let first = susu.create_circle(&admin, 10, false);
    let second = susu.create_circle(&admin, 20, false);

    assert_eq!(susu.join_circle(&a, first), Ok(()));
    assert_eq!(susu.join_circle(&a, second), Ok(()));
    assert_eq!(susu.join_circle(&b, second), Ok(()));
    assert_eq!(susu.process_payout(&admin, second, &b), Ok(()));
    assert_eq!(susu.vote_dissolve(&a, first), Ok(()));

    let one = susu.get_circle(first).unwrap().to_parts();
    assert_eq!(one.members, vec![a.clone()]);
    assert!(one.is_dissolved);
    assert_eq!(one.total_volume_distributed, 0);

    let two = susu.get_circle(second).unwrap().to_parts();
    assert_eq!(two.members, vec![a.clone(), b.clone()]);
    assert!(!two.is_dissolved);
    assert_eq!(two.total_volume_distributed, 20);
    assert_eq!(two.has_received_payout, vec![false, true]);
}

#[test]
fn a_refused_call_leaves_the_registry_as_it_was() {
    let env = Env::default();
    let admin = Address::generate(&env);
    let a = Address::generate(&env);
    let stranger = Address::generate(&env);
    let mut susu = SoroSusu::new();
    let id = susu.create_circle(&admin, 10, false);
    assert_eq!(susu.join_circle(&a, id), Ok(()));
    let before = susu.get_circle(id).unwrap().to_parts();

    assert_eq!(susu.join_circle(&a, id), Err(Error::AlreadyJoined));
    assert_eq!(
        susu.finalize_circle(&a, id, &Vec::new()),
        Err(Error::Unauthorized)
    );
    assert_eq!(
        susu.process_payout(&a, id, &a),
        Err(Error::Unauthorized)
    );
    assert_eq!(
        susu.process_payout(&admin, id, &stranger),
        Err(Error::NotMember)
    );
    assert_eq!(
        susu.propose_dissolution(&stranger, id),
        Err(Error::NotMember)
    );
    assert_eq!(susu.vote_dissolve(&stranger, id), Err(Error::NotMember));
    assert_eq!(susu.withdraw_pro_rata(&a, id), Err(Error::NotDissolved));

    assert_eq!(susu.get_circle(id).unwrap().to_parts(), before);
    assert_eq!(susu.circle_count(), 1);
}

#[test]
fn a_copy_handed_out_does_not_follow_the_registry() {
    let env = Env::default();
    let admin = Address::generate(&env);
    let a = Address::generate(&env);
    let mut susu = SoroSusu::new();
    let id = susu.create_circle(&admin, 10, false);

    let mut copy = susu.get_circle(id).unwrap();
    assert_eq!(susu.join_circle(&a, id), Ok(()));
    assert_eq!(copy.members().len(), 0);

    assert_eq!(copy.join(&admin), Ok(()));
    assert_eq!(
        susu.get_circle(id).unwrap().to_parts().members,
        vec![a.clone()]
    );
    let again = copy.clone();
    assert_eq!(again.to_parts(), copy.to_parts());
}

#[test]
fn the_registry_carries_every_operation_through() {
    let env = Env::default();
    let admin = Address::generate(&env);
    let a = Address::generate(&env);
    let b = Address::generate(&env);
    let mut susu = SoroSusu::new();
    let id = susu.create_circle(&admin, 100, false);

    assert_eq!(susu.join_circle(&a, id), Ok(()));
    assert_eq!(susu.join_circle(&b, id), Ok(()));
    assert_eq!(susu.finalize_circle(&admin, id, &Vec::new()), Ok(()));
    assert_eq!(susu.propose_dissolution(&a, id), Ok(()));
    assert_eq!(susu.process_payout(&admin, id, &b), Ok(()));
    assert_eq!(susu.vote_dissolve(&b, id), Ok(()));
    assert_eq!(susu.withdraw_pro_rata(&a, id), Ok(100));
    assert_eq!(susu.withdraw_pro_rata(&a, id), Ok(0));
    assert_eq!(susu.withdraw_pro_rata(&b, id), Ok(0));

    let parts = susu.get_circle(id).unwrap().to_parts();
    assert_eq!(parts.admin, admin);
    assert_eq!(parts.contribution, 100);
    assert_eq!(parts.members, vec![a.clone(), b.clone()]);
    assert!(!parts.is_random_queue);
    assert_eq!(parts.payout_queue, vec![a.clone(), b.clone()]);
    assert_eq!(parts.has_received_payout, vec![false, true]);
    assert_eq!(parts.cycle_number, 1);
    assert_eq!(parts.current_payout_index, 1);
    assert_eq!(parts.total_volume_distributed, 100);
    assert!(parts.is_dissolved);
    assert_eq!(parts.dissolution_votes, vec![a.clone(), b.clone()]);
    assert_eq!(parts.contributions_paid, vec![0, 100]);
}

#[test]
fn every_error_has_its_number() {
    assert_eq!(Error::CircleNotFound.code(), 1001);
    assert_eq!(Error::Unauthorized.code(), 1002);
    assert_eq!(Error::AlreadyJoined.code(), 1003);
    assert_eq!(Error::MaxMembersReached.code(), 1004);
    assert_eq!(Error::AlreadyVoted.code(), 1005);
    assert_eq!(Error::NotMember.code(), 1006);
    assert_eq!(Error::AlreadyDissolved.code(), 1007);
    assert_eq!(Error::NotDissolved.code(), 1008);
}

#[test]
fn the_registry_finalizes_a_random_circle_with_the_order_handed_in() {
    let env = Env::default();
    let admin = Address::generate(&env);
    let a = Address::generate(&env);
    let b = Address::generate(&env);
    let c = Address::generate(&env);
    let mut susu = SoroSusu::new();
    let id = susu.create_circle(&admin, 10, true);
    for member in [&a, &b, &c] {
        assert_eq!(susu.join_circle(member, id), Ok(()));
    }

    let circle = susu.get_circle(id).unwrap();
    assert!(circle.wants_draw(&admin));
    let drawn = vec![b.clone(), c.clone(), a.clone()];
    assert!(circle.holds_members(&drawn));

    assert_eq!(
        susu.finalize_circle(&a, id, &drawn),
        Err(Error::Unauthorized)
    );
    assert_eq!(susu.get_circle(id).unwrap().payout_queue().len(), 0);

    assert_eq!(susu.finalize_circle(&admin, id, &drawn), Ok(()));
    assert_eq!(susu.get_circle(id).unwrap().to_parts().payout_queue, drawn);

    let other = vec![a.clone(), b.clone(), c.clone()];
    assert_eq!(susu.finalize_circle(&admin, id, &other), Ok(()));
    assert_eq!(susu.get_circle(id).unwrap().to_parts().payout_queue, drawn);
    assert!(!susu.get_circle(id).unwrap().wants_draw(&admin));
}

#[test]
fn the_next_identifier_is_one_more_until_they_are_used_up() {
    assert_eq!(identifier_after(0), Some(1));
    assert_eq!(identifier_after(1), Some(2));
    assert_eq!(identifier_after(41), Some(42));
    assert_eq!(identifier_after(u32::MAX - 1), Some(u32::MAX));
    assert_eq!(identifier_after(u32::MAX), None);
}

#[test]
fn the_registry_turns_down_an_order_that_cannot_be_used() {
    let env = Env::default();
    let admin = Address::generate(&env);
    let a = Address::generate(&env);
    let b = Address::generate(&env);
    let mut susu = SoroSusu::new();
    let id = susu.create_circle(&admin, 10, true);
    assert_eq!(susu.join_circle(&a, id), Ok(()));
    assert_eq!(susu.join_circle(&b, id), Ok(()));
    let before = susu.get_circle(id).unwrap().to_parts();

    assert_eq!(
        susu.try_finalize_circle(&admin, id + 1, &vec![]),
        Some(Err(Error::CircleNotFound))
    );
    assert_eq!(susu.try_finalize_circle(&admin, id, &vec![a.clone()]), None);
    assert_eq!(
        susu.try_finalize_circle(&admin, id, &vec![a.clone(), a.clone()]),
        None
    );
    assert_eq!(
        susu.try_finalize_circle(&a, id, &vec![a.clone()]),
        Some(Err(Error::Unauthorized))
    );
    assert_eq!(susu.get_circle(id).unwrap().to_parts(), before);

    let drawn = vec![b.clone(), a.clone()];
    assert_eq!(susu.try_finalize_circle(&admin, id, &drawn), Some(Ok(())));
    assert_eq!(susu.get_circle(id).unwrap().to_parts().payout_queue, drawn);
    assert_eq!(
        susu.try_finalize_circle(&admin, id, &vec![a.clone()]),
        Some(Ok(()))
    );
    assert_eq!(susu.get_circle(id).unwrap().to_parts().payout_queue, drawn);
}
