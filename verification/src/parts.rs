//! A circle's record as plain values, for whoever stores it.
//!
//! `CircleParts` holds the fields of a record as they are written to and read
//! from storage. Anybody can fill one in, so a record is rebuilt from parts
//! only after the parts have been checked: `Circle::from_parts` returns a
//! record exactly for the parts whose addresses live in one host and that are
//! valid in the sense of the model.
use crate::circle::Circle;
use crate::convert::{
    addresses_from_host, addresses_to_host, amounts_from_host, amounts_to_host, flags_from_host,
    flags_to_host,
};
use crate::host::{address_host, addresses_len, clone_address};
use crate::lists::{all_occur_before, all_share_host, is_distinct};
use crate::model::{as_ints, on_host, paid_count, CircleView, MAX_MEMBERS};
use crate::seq_facts::{
    lemma_arrangement, lemma_arrangement_of_distinct, lemma_distinct_within,
    lemma_paid_count_push,
};
use soroban_sdk::Address;
use vstd::prelude::*;

verus! {

/// The fields of a circle's record, as plain values.
#[derive(Debug, PartialEq, Eq)]
pub struct CircleParts {
    /// Who created the circle.
    pub admin: Address,
    /// What each member pays, and receives, per cycle.
    pub contribution: i128,
    /// The members in the order they joined.
    pub members: Vec<Address>,
    /// Whether the payout order is drawn at random.
    pub is_random_queue: bool,
    /// The payout order; empty until the circle is scheduled.
    pub payout_queue: Vec<Address>,
    /// For each member, whether the payout was made.
    pub has_received_payout: Vec<bool>,
    /// The current cycle.
    pub cycle_number: u32,
    /// How many payouts were made.
    pub current_payout_index: u32,
    /// The sum of all payouts made.
    pub total_volume_distributed: i128,
    /// Whether the members have dissolved the circle.
    pub is_dissolved: bool,
    /// The members who voted to dissolve, in the order they voted.
    pub dissolution_votes: Vec<Address>,
    /// For each member, the stake still held for them.
    pub contributions_paid: Vec<i128>,
}

impl View for CircleParts {
    type V = CircleView;

    open spec fn view(&self) -> CircleView {
        CircleView {
            host: address_host(self.admin),
            admin: self.admin,
            contribution: self.contribution as int,
            members: self.members@,
            is_random_queue: self.is_random_queue,
            payout_queue: self.payout_queue@,
            has_received_payout: self.has_received_payout@,
            cycle_number: self.cycle_number as nat,
            current_payout_index: self.current_payout_index as nat,
            total_volume_distributed: self.total_volume_distributed as int,
            is_dissolved: self.is_dissolved,
            dissolution_votes: self.dissolution_votes@,
            contributions_paid: as_ints(self.contributions_paid@),
        }
    }
}

/// How many of `flags` are set.
fn count_set(flags: &Vec<bool>) -> (r: usize)
    ensures
        r == paid_count(flags@),
{
    let mut count: usize = 0;
    let mut i: usize = 0;
    while i < flags.len()
        invariant
            i <= flags.len(),
            count == paid_count(flags@.take(i as int)),
            count <= i,
        decreases flags.len() - i,
    {
        proof {
            lemma_paid_count_push(flags@.take(i as int), flags@[i as int]);
            assert(flags@.take(i as int).push(flags@[i as int]) =~= flags@.take(i + 1));
        }
        if flags[i] {
            count += 1;
        }
        i += 1;
    }
    proof {
        assert(flags@.take(flags.len() as int) =~= flags@);
    }
    count
}

/// Whether every stake is one contribution or, in a dissolved circle and for
/// a member who was not paid, zero.
fn stakes_are_sound(
    stakes: &Vec<i128>,
    flags: &Vec<bool>,
    contribution: i128,
    is_dissolved: bool,
) -> (r: bool)
    requires
        stakes.len() == flags.len(),
    ensures
        r == forall|i: int|
            0 <= i < stakes.len() ==> {
                ||| #[trigger] stakes@[i] == contribution
                ||| (is_dissolved && !flags@[i] && stakes@[i] == 0)
            },
{
    let mut i: usize = 0;
    while i < stakes.len()
        invariant
            i <= stakes.len() == flags.len(),
            forall|k: int|
                0 <= k < i ==> {
                    ||| #[trigger] stakes@[k] == contribution
                    ||| (is_dissolved && !flags@[k] && stakes@[k] == 0)
                },
        decreases stakes.len() - i,
    {
        let withdrawn = is_dissolved && !flags[i] && stakes[i] == 0;
        if stakes[i] != contribution && !withdrawn {
            return false;
        }
        i += 1;
    }
    true
}

impl CircleParts {
    /// Whether all addresses of the parts live in one host, that of the
    /// admin.
    pub open spec fn on_one_host(&self) -> bool {
        &&& on_host(self.members@, address_host(self.admin))
        &&& on_host(self.payout_queue@, address_host(self.admin))
        &&& on_host(self.dissolution_votes@, address_host(self.admin))
    }

    /// Whether the parts make up a valid record: all their addresses live in
    /// one host, and together they are valid in the sense of the model.
    pub fn is_valid(&self) -> (r: bool)
        ensures
            r == (self.on_one_host() && self@.valid()),
    {
        if !all_share_host(&self.members, &self.admin) || !all_share_host(
            &self.payout_queue,
            &self.admin,
        ) || !all_share_host(&self.dissolution_votes, &self.admin) {
            return false;
        }
        let n = self.members.len();
        let scheduled = self.payout_queue.len();
        if n > MAX_MEMBERS as usize || self.has_received_payout.len() != n
            || self.contributions_paid.len() != n || scheduled > n || self.cycle_number != 1 {
            return false;
        }
        if !is_distinct(&self.members, &self.admin) {
            return false;
        }
        if !is_distinct(&self.payout_queue, &self.admin) || !all_occur_before(
            &self.payout_queue,
            &self.members,
            scheduled,
            &self.admin,
        ) {
            proof {
                if self@.payout_queue.to_multiset() =~= self@.members.take(
                    scheduled as int,
                ).to_multiset() {
                    lemma_arrangement_of_distinct(
                        self@.payout_queue,
                        self@.members.take(scheduled as int),
                    );
                }
            }
            return false;
        }
        proof {
            lemma_arrangement(self@.payout_queue, self@.members.take(scheduled as int));
        }
        if !is_distinct(&self.dissolution_votes, &self.admin) || !all_occur_before(
            &self.dissolution_votes,
            &self.members,
            n,
            &self.admin,
        ) {
            proof {
                assert(self@.members.take(n as int) =~= self@.members);
            }
            return false;
        }
        proof {
            lemma_distinct_within(self@.dissolution_votes, self@.members);
        }
        let paid = count_set(&self.has_received_payout);
        if self.current_payout_index as usize != paid {
            return false;
        }
        match self.contribution.checked_mul(self.current_payout_index as i128) {
            Some(volume) => {
                assert(volume == self@.current_payout_index * self@.contribution)
                    by (nonlinear_arith)
                    requires
                        volume == self@.contribution * self@.current_payout_index,
                ;
                if volume != self.total_volume_distributed {
                    return false;
                }
            },
            None => {
                assert(self@.contribution * self@.current_payout_index
                    == self@.current_payout_index * self@.contribution) by (nonlinear_arith);
                return false;
            },
        }
        proof {
            assert forall|i: int| 0 <= i < n implies #[trigger] self@.contributions_paid[i]
                == self.contributions_paid@[i] by {}
        }
        if !stakes_are_sound(
            &self.contributions_paid,
            &self.has_received_payout,
            self.contribution,
            self.is_dissolved,
        ) {
            proof {
                let i = choose|i: int|
                    0 <= i < n && !({
                        ||| #[trigger] self.contributions_paid@[i] == self.contribution
                        ||| (self.is_dissolved && !self.has_received_payout@[i]
                            && self.contributions_paid@[i] == 0)
                    });
                assert(self@.contributions_paid[i] == self.contributions_paid@[i]);
            }
            return false;
        }
        if self.is_dissolved && 2 * self.dissolution_votes.len() <= n {
            return false;
        }
        true
    }
}

impl Circle {
    /// The record made up of `parts`, in the host of their admin, if they make
    /// up a valid record; `None` if they do not.
    pub fn from_parts(parts: &CircleParts) -> (r: Option<Circle>)
        ensures
            match r {
                Some(circle) => circle.wf() && circle@ == parts@,
                None => !(parts.on_one_host() && parts@.valid()),
            },
    {
        if !parts.is_valid() {
            return None;
        }
        proof {
            lemma_distinct_within(parts@.dissolution_votes, parts@.members);
        }
        Some(
            Circle::assemble(
                clone_address(&parts.admin),
                parts.contribution,
                addresses_to_host(&parts.admin, &parts.members),
                parts.is_random_queue,
                addresses_to_host(&parts.admin, &parts.payout_queue),
                flags_to_host(&parts.admin, &parts.has_received_payout),
                parts.cycle_number,
                parts.current_payout_index,
                parts.total_volume_distributed,
                parts.is_dissolved,
                addresses_to_host(&parts.admin, &parts.dissolution_votes),
                amounts_to_host(&parts.admin, &parts.contributions_paid),
            ),
        )
    }

    /// The fields of the record as plain values.
    pub fn to_parts(&self) -> (r: CircleParts)
        requires
            self.wf(),
        ensures
            r@ == self@,
            r.on_one_host(),
    {
        let n = addresses_len(self.members());
        CircleParts {
            admin: clone_address(self.admin()),
            contribution: self.contribution(),
            members: addresses_from_host(self.members()),
            is_random_queue: self.is_random_queue(),
            payout_queue: addresses_from_host(self.payout_queue()),
            has_received_payout: flags_from_host(self.has_received_payout(), n),
            cycle_number: self.cycle_number(),
            current_payout_index: self.current_payout_index(),
            total_volume_distributed: self.total_volume_distributed(),
            is_dissolved: self.is_dissolved(),
            dissolution_votes: addresses_from_host(self.dissolution_votes()),
            contributions_paid: amounts_from_host(self.contributions_paid(), n),
        }
    }
}

} // verus!
