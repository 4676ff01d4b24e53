//! The record of one circle and the operations on it.
//!
//! A `Circle` keeps its lists in host vectors. Its view is the mathematical
//! record of `model`; every operation is proved to do to the view exactly
//! what the function of the same name in `model` says, and to leave the record
//! untouched when it refuses.
//!
//! A record lives in the host of its admin, and an address of another host
//! means nothing to it. So every operation asks that whoever it is told of
//! lives in that host, which `reaches` tells.
use crate::convert::addresses_to_host;
use crate::error::Error;
use crate::host::{
    address_at, address_host, address_items, addresses_contain, addresses_host, addresses_len,
    amount_at, amount_items, clone_address, clone_vec, flag_at, flag_items, holds_addresses,
    holds_amounts, holds_flags, new_addresses, new_amounts, new_flags, push_address, push_amount,
    push_flag, same_address, set_amount, set_flag, share_host,
};
use crate::lists::{all_share_host, is_distinct};
use crate::laws::{law_created_is_valid, law_join_keeps_valid, law_process_payout_keeps_valid};
use crate::model::{as_ints, on_host, Call, CircleView, MAX_MEMBERS};
use crate::seq_facts::{
    lemma_arrangement, lemma_arrangement_of_distinct, lemma_distinct_within,
    lemma_paid_count_mark,
};
use soroban_sdk::Address;
use vstd::prelude::*;

verus! {

/// One rotating savings circle.
pub struct Circle {
    admin: Address,
    contribution: i128,
    members: soroban_sdk::Vec<Address>,
    is_random_queue: bool,
    payout_queue: soroban_sdk::Vec<Address>,
    has_received_payout: soroban_sdk::Vec<bool>,
    cycle_number: u32,
    current_payout_index: u32,
    total_volume_distributed: i128,
    is_dissolved: bool,
    dissolution_votes: soroban_sdk::Vec<Address>,
    contributions_paid: soroban_sdk::Vec<i128>,
}

impl View for Circle {
    type V = CircleView;

    closed spec fn view(&self) -> CircleView {
        CircleView {
            host: address_host(self.admin),
            admin: self.admin,
            contribution: self.contribution as int,
            members: address_items(self.members),
            is_random_queue: self.is_random_queue,
            payout_queue: address_items(self.payout_queue),
            has_received_payout: flag_items(self.has_received_payout),
            cycle_number: self.cycle_number as nat,
            current_payout_index: self.current_payout_index as nat,
            total_volume_distributed: self.total_volume_distributed as int,
            is_dissolved: self.is_dissolved,
            dissolution_votes: address_items(self.dissolution_votes),
            contributions_paid: as_ints(amount_items(self.contributions_paid)),
        }
    }
}

impl Clone for Circle {
    /// A copy of the record. Copying a host vector copies the handle; the
    /// host never changes a vector behind a handle.
    fn clone(&self) -> (r: Circle)
        ensures
            r == *self,
    {
        Circle {
            admin: clone_address(&self.admin),
            contribution: self.contribution,
            members: clone_vec(&self.members),
            is_random_queue: self.is_random_queue,
            payout_queue: clone_vec(&self.payout_queue),
            has_received_payout: clone_vec(&self.has_received_payout),
            cycle_number: self.cycle_number,
            current_payout_index: self.current_payout_index,
            total_volume_distributed: self.total_volume_distributed,
            is_dissolved: self.is_dissolved,
            dissolution_votes: clone_vec(&self.dissolution_votes),
            contributions_paid: clone_vec(&self.contributions_paid),
        }
    }
}

impl Circle {
    /// Whether every host vector of the record holds items of its own type,
    /// and the vectors of addresses live in the host of the admin.
    pub closed spec fn well_typed(&self) -> bool {
        &&& holds_addresses(self.members)
        &&& holds_addresses(self.payout_queue)
        &&& holds_addresses(self.dissolution_votes)
        &&& holds_flags(self.has_received_payout)
        &&& holds_amounts(self.contributions_paid)
        &&& addresses_host(self.members) == address_host(self.admin)
        &&& addresses_host(self.payout_queue) == address_host(self.admin)
        &&& addresses_host(self.dissolution_votes) == address_host(self.admin)
    }

    /// Whether the record is one that the operations can have produced.
    pub open spec fn wf(&self) -> bool {
        &&& self.well_typed()
        &&& self@.valid()
        &&& i128::MIN <= self@.contribution <= i128::MAX
        &&& i128::MIN <= self@.total_volume_distributed <= i128::MAX
    }

    /// A new circle, in the host of its admin: no members, no payout order, no
    /// votes.
    pub fn new(admin: Address, contribution: i128, is_random_queue: bool) -> (r: Circle)
        ensures
            r.wf(),
            r@ == CircleView::created(admin, contribution as int, is_random_queue),
    {
        let members = new_addresses(&admin);
        let payout_queue = new_addresses(&admin);
        let has_received_payout = new_flags(&admin);
        let dissolution_votes = new_addresses(&admin);
        let contributions_paid = new_amounts(&admin);
        let r = Circle {
            admin,
            contribution,
            members,
            is_random_queue,
            payout_queue,
            has_received_payout,
            cycle_number: 1,
            current_payout_index: 0,
            total_volume_distributed: 0,
            is_dissolved: false,
            dissolution_votes,
            contributions_paid,
        };
        proof {
            assert(r@.contributions_paid =~= Seq::<int>::empty());
            law_created_is_valid(admin, contribution as int, is_random_queue);
        }
        r
    }

    /// The record with the given fields.
    pub(crate) fn assemble(
        admin: Address,
        contribution: i128,
        members: soroban_sdk::Vec<Address>,
        is_random_queue: bool,
        payout_queue: soroban_sdk::Vec<Address>,
        has_received_payout: soroban_sdk::Vec<bool>,
        cycle_number: u32,
        current_payout_index: u32,
        total_volume_distributed: i128,
        is_dissolved: bool,
        dissolution_votes: soroban_sdk::Vec<Address>,
        contributions_paid: soroban_sdk::Vec<i128>,
    ) -> (r: Circle)
        requires
            holds_addresses(members),
            holds_addresses(payout_queue),
            holds_addresses(dissolution_votes),
            holds_flags(has_received_payout),
            holds_amounts(contributions_paid),
            addresses_host(members) == address_host(admin),
            addresses_host(payout_queue) == address_host(admin),
            addresses_host(dissolution_votes) == address_host(admin),
        ensures
            r.well_typed(),
            r@ == (CircleView {
                host: address_host(admin),
                admin,
                contribution: contribution as int,
                members: address_items(members),
                is_random_queue,
                payout_queue: address_items(payout_queue),
                has_received_payout: flag_items(has_received_payout),
                cycle_number: cycle_number as nat,
                current_payout_index: current_payout_index as nat,
                total_volume_distributed: total_volume_distributed as int,
                is_dissolved,
                dissolution_votes: address_items(dissolution_votes),
                contributions_paid: as_ints(amount_items(contributions_paid)),
            }),
    {
        Circle {
            admin,
            contribution,
            members,
            is_random_queue,
            payout_queue,
            has_received_payout,
            cycle_number,
            current_payout_index,
            total_volume_distributed,
            is_dissolved,
            dissolution_votes,
            contributions_paid,
        }
    }

    /// Who created the circle.
    pub fn admin(&self) -> (r: &Address)
        ensures
            *r == self@.admin,
            self@.reaches(*r),
    {
        &self.admin
    }

    /// What each member pays, and receives, per cycle.
    pub fn contribution(&self) -> (r: i128)
        ensures
            r == self@.contribution,
    {
        self.contribution
    }

    /// The members in the order they joined.
    pub fn members(&self) -> (r: &soroban_sdk::Vec<Address>)
        ensures
            address_items(*r) == self@.members,
            self.wf() ==> holds_addresses(*r) && addresses_host(*r) == self@.host,
    {
        &self.members
    }

    /// Whether the payout order is drawn at random.
    pub fn is_random_queue(&self) -> (r: bool)
        ensures
            r == self@.is_random_queue,
    {
        self.is_random_queue
    }

    /// The payout order; empty until the circle is scheduled.
    pub fn payout_queue(&self) -> (r: &soroban_sdk::Vec<Address>)
        ensures
            address_items(*r) == self@.payout_queue,
            self.wf() ==> holds_addresses(*r) && addresses_host(*r) == self@.host,
    {
        &self.payout_queue
    }

    /// For each member, in join order, whether the payout was made.
    pub fn has_received_payout(&self) -> (r: &soroban_sdk::Vec<bool>)
        ensures
            flag_items(*r) == self@.has_received_payout,
            self.wf() ==> holds_flags(*r),
    {
        &self.has_received_payout
    }

    /// The current cycle.
    pub fn cycle_number(&self) -> (r: u32)
        ensures
            r == self@.cycle_number,
    {
        self.cycle_number
    }

    /// How many payouts were made.
    pub fn current_payout_index(&self) -> (r: u32)
        ensures
            r == self@.current_payout_index,
    {
        self.current_payout_index
    }

    /// The sum of all payouts made.
    pub fn total_volume_distributed(&self) -> (r: i128)
        ensures
            r == self@.total_volume_distributed,
    {
        self.total_volume_distributed
    }

    /// Whether the members have dissolved the circle.
    pub fn is_dissolved(&self) -> (r: bool)
        ensures
            r == self@.is_dissolved,
    {
        self.is_dissolved
    }

    /// The members who voted to dissolve, in the order they voted.
    pub fn dissolution_votes(&self) -> (r: &soroban_sdk::Vec<Address>)
        ensures
            address_items(*r) == self@.dissolution_votes,
            self.wf() ==> holds_addresses(*r) && addresses_host(*r) == self@.host,
    {
        &self.dissolution_votes
    }

    /// For each member, in join order, the stake still held for them.
    pub fn contributions_paid(&self) -> (r: &soroban_sdk::Vec<i128>)
        ensures
            as_ints(amount_items(*r)) == self@.contributions_paid,
            self.wf() ==> holds_amounts(*r),
    {
        &self.contributions_paid
    }

    /// Whether `who` lives in the host of the record. An address of another
    /// host means nothing to this one, so every operation asks that whoever
    /// it is told of lives here.
    pub fn reaches(&self, who: &Address) -> (r: bool)
        ensures
            r == self@.reaches(*who),
    {
        share_host(who, &self.admin)
    }

    /// Whether every address of `list` lives in the host of the record.
    pub fn reaches_all(&self, list: &Vec<Address>) -> (r: bool)
        ensures
            r == on_host(list@, self@.host),
    {
        all_share_host(list, &self.admin)
    }

    /// The position of `who` among the members, in join order, or `None` for
    /// somebody who is no member.
    pub fn position_of(&self, who: &Address) -> (r: Option<u32>)
        requires
            self.wf(),
            self@.reaches(*who),
        ensures
            match r {
                Some(i) => self@.is_member(*who) && i == self@.position(*who),
                None => !self@.is_member(*who),
            },
    {
        let n = addresses_len(&self.members);
        let mut i: u32 = 0;
        while i < n
            invariant
                i <= n,
                n == address_items(self.members).len(),
                holds_addresses(self.members),
                addresses_host(self.members) == address_host(*who),
                address_items(self.members).no_duplicates(),
                self@.members == address_items(self.members),
                forall|k: int| 0 <= k < i ==> address_items(self.members)[k] != *who,
            decreases n - i,
        {
            let member = address_at(&self.members, i).unwrap();
            if same_address(&member, who) {
                return Some(i);
            }
            i += 1;
        }
        None
    }

    /// Decides whether the admin may pay `recipient` now, without paying.
    /// Returns the recipient's position among the members, or the reason
    /// `process_payout` would refuse with.
    pub fn check_payout(&self, caller: &Address, recipient: &Address) -> (r: Result<u32, Error>)
        requires
            self.wf(),
            self@.reaches(*caller),
            self@.reaches(*recipient),
        ensures
            match r {
                Ok(i) => self@.process_payout(*caller, *recipient) is Ok && i == self@.position(
                    *recipient,
                ),
                Err(e) => self@.process_payout(*caller, *recipient) == Err::<CircleView, Error>(e),
            },
    {
        if !same_address(caller, &self.admin) {
            return Err(Error::Unauthorized);
        }
        if self.is_dissolved {
            return Err(Error::AlreadyDissolved);
        }
        let i = match self.position_of(recipient) {
            Some(i) => i,
            None => {
                return Err(Error::NotMember);
            },
        };
        if flag_at(&self.has_received_payout, i).unwrap() {
            return Err(Error::Unauthorized);
        }
        Ok(i)
    }

    /// The admin pays `recipient` their turn: the member is marked as paid,
    /// the count of payouts goes up by one and the volume by one contribution.
    /// Whether `recipient` is next in the payout order is not looked at.
    ///
    /// Refused with `Unauthorized` for a caller who is not the admin, with
    /// `AlreadyDissolved` once the circle is dissolved, with `NotMember` for a
    /// recipient who is no member, and with `Unauthorized` again for a
    /// recipient who was already paid. Where the payout is due, the new
    /// volume must fit the ledger's 128 bits.
    pub fn process_payout(&mut self, caller: &Address, recipient: &Address) -> (r: Result<
        (),
        Error,
    >)
        requires
            old(self).wf(),
            old(self)@.reaches(*caller),
            old(self)@.reaches(*recipient),
            old(self)@.process_payout(*caller, *recipient) is Ok ==> old(self)@.payout_fits(),
        ensures
            final(self).wf(),
            match r {
                Ok(()) => old(self)@.process_payout(*caller, *recipient) == Ok::<CircleView, Error>(
                    final(self)@,
                ),
                Err(e) => old(self)@.process_payout(*caller, *recipient) == Err::<CircleView, Error>(
                    e,
                ) && final(self)@ == old(self)@,
            },
    {
        let i = match self.check_payout(caller, recipient) {
            Ok(i) => i,
            Err(e) => {
                return Err(e);
            },
        };
        proof {
            law_process_payout_keeps_valid(self@, *caller, *recipient);
            lemma_paid_count_mark(self@.has_received_payout, i as int);
        }
        set_flag(&mut self.has_received_payout, i, true);
        self.current_payout_index += 1;
        self.total_volume_distributed += self.contribution;
        Ok(())
    }

    /// Decides how far a call of `finalize` by `caller` goes: `Ok(true)` where
    /// the payout order is to be fixed now, `Ok(false)` where the circle has
    /// one already, else the reason for refusing.
    fn check_finalize(&self, caller: &Address) -> (r: Result<bool, Error>)
        requires
            self.wf(),
            self@.reaches(*caller),
        ensures
            match r {
                Ok(go) => go == self@.schedules(*caller) && forall|drawn: Seq<Address>|
                    (#[trigger] self@.finalize(*caller, drawn)) is Ok,
                Err(e) => !self@.schedules(*caller) && forall|drawn: Seq<Address>|
                    #[trigger] self@.finalize(*caller, drawn) == Err::<CircleView, Error>(e),
            },
    {
        if !same_address(caller, &self.admin) {
            return Err(Error::Unauthorized);
        }
        if self.is_dissolved {
            return Err(Error::AlreadyDissolved);
        }
        Ok(addresses_len(&self.payout_queue) == 0)
    }

    /// Whether a call of `finalize` by `caller` needs an order drawn at random:
    /// the caller is the admin, the circle is not dissolved, has no payout
    /// order yet, and was created with a random queue. Whoever calls
    /// `finalize` draws the order then, and only then.
    pub fn wants_draw(&self, caller: &Address) -> (r: bool)
        requires
            self.wf(),
            self@.reaches(*caller),
        ensures
            r == self@.wants_draw(*caller),
    {
        match self.check_finalize(caller) {
            Ok(go) => go && self.is_random_queue,
            Err(_) => false,
        }
    }

    /// Whether `drawn` holds the members, each once: an order that `finalize`
    /// can make the payout order.
    pub fn holds_members(&self, drawn: &Vec<Address>) -> (r: bool)
        requires
            self.wf(),
            on_host(drawn@, self@.host),
        ensures
            r == (drawn@.to_multiset() =~= self@.members.to_multiset()),
    {
        let n = addresses_len(&self.members);
        proof {
            vstd::seq_lib::to_multiset_len(drawn@);
            vstd::seq_lib::to_multiset_len(self@.members);
            if drawn@.to_multiset() =~= self@.members.to_multiset() {
                lemma_arrangement_of_distinct(drawn@, self@.members);
            }
        }
        if drawn.len() != n as usize || !is_distinct(drawn, &self.admin) {
            return false;
        }
        let mut i: usize = 0;
        while i < drawn.len()
            invariant
                i <= drawn.len(),
                holds_addresses(self.members),
                on_host(drawn@, addresses_host(self.members)),
                self@.members == address_items(self.members),
                self@.members.no_duplicates(),
                forall|k: int| 0 <= k < i ==> self@.members.contains(#[trigger] drawn@[k]),
            decreases drawn.len() - i,
        {
            if !addresses_contain(&self.members, &drawn[i]) {
                proof {
                    if drawn@.to_multiset() =~= self@.members.to_multiset() {
                        lemma_arrangement_of_distinct(drawn@, self@.members);
                    }
                }
                return false;
            }
            i += 1;
        }
        proof {
            lemma_arrangement(drawn@, self@.members);
        }
        true
    }

    /// The admin fixes the payout order. A circle that has an order keeps it,
    /// and the call succeeds without changing anything. Otherwise the order
    /// is the members' join order or, where the circle was created with a
    /// random queue, `drawn`. Members who join later are not added to it.
    ///
    /// The random order is drawn by the caller of this function, from
    /// whatever source of chance they have, and handed in. It is looked at
    /// only where `wants_draw` says so, and must then live in the host of the
    /// record and hold the members, each once, as `reaches_all` and
    /// `holds_members` tell. `try_finalize` asks both and calls this function
    /// where it can.
    ///
    /// Refused with `Unauthorized` for a caller who is not the admin and with
    /// `AlreadyDissolved` once the circle is dissolved.
    pub fn finalize(&mut self, caller: &Address, drawn: &Vec<Address>) -> (r: Result<(), Error>)
        requires
            old(self).wf(),
            old(self)@.reaches(*caller),
            old(self)@.wants_draw(*caller) ==> on_host(drawn@, old(self)@.host),
            old(self)@.admits(Call::Finalize { caller: *caller, drawn: drawn@ }),
        ensures
            final(self).wf(),
            match r {
                Ok(()) => old(self)@.finalize(*caller, drawn@) == Ok::<CircleView, Error>(
                    final(self)@,
                ),
                Err(e) => old(self)@.finalize(*caller, drawn@) == Err::<CircleView, Error>(e)
                    && final(self)@ == old(self)@,
            },
    {
        match self.check_finalize(caller) {
            Err(e) => Err(e),
            Ok(false) => Ok(()),
            Ok(true) => {
                if self.is_random_queue {
                    proof {
                        vstd::seq_lib::to_multiset_len(drawn@);
                        vstd::seq_lib::to_multiset_len(self@.members);
                    }
                    let queue = addresses_to_host(&self.admin, drawn);
                    self.install_queue(queue);
                } else {
                    let queue = clone_vec(&self.members);
                    self.install_queue(queue);
                }
                Ok(())
            },
        }
    }

    /// `finalize` for an order that nothing is known of. Where an order is
    /// wanted and `drawn` is none that `finalize` can use, because it does not
    /// hold the members, each once, or holds an address of another host, the
    /// answer is `None` and the record stays as it is. In every other case
    /// the answer is what `finalize` answers, and the record is what it
    /// leaves.
    ///
    /// So whatever is handed in: where the call fixes the payout order, the
    /// order holds the members of that moment, each once.
    pub fn try_finalize(&mut self, caller: &Address, drawn: &Vec<Address>) -> (r: Option<
        Result<(), Error>,
    >)
        requires
            old(self).wf(),
            old(self)@.reaches(*caller),
        ensures
            final(self).wf(),
            r is None <==> old(self)@.wants_draw(*caller) && !(on_host(drawn@, old(self)@.host)
                && old(self)@.admits(Call::Finalize { caller: *caller, drawn: drawn@ })),
            match r {
                None => final(self)@ == old(self)@,
                Some(Ok(())) => old(self)@.finalize(*caller, drawn@) == Ok::<CircleView, Error>(
                    final(self)@,
                ),
                Some(Err(e)) => old(self)@.finalize(*caller, drawn@) == Err::<CircleView, Error>(
                    e,
                ) && final(self)@ == old(self)@,
            },
            r == Some(Ok::<(), Error>(())) && old(self)@.schedules(*caller)
                ==> final(self)@.payout_queue.to_multiset() =~= old(self)@.members.to_multiset(),
    {
        if self.wants_draw(caller) {
            if !self.reaches_all(drawn) {
                return None;
            }
            if !self.holds_members(drawn) {
                return None;
            }
        }
        Some(self.finalize(caller, drawn))
    }

    /// Makes `queue`, an order of all current members, the payout order.
    fn install_queue(&mut self, queue: soroban_sdk::Vec<Address>)
        requires
            old(self).wf(),
            holds_addresses(queue),
            addresses_host(queue) == old(self)@.host,
            address_items(queue).to_multiset() == old(self)@.members.to_multiset(),
        ensures
            final(self).wf(),
            final(self)@ == (CircleView { payout_queue: address_items(queue), ..old(self)@ }),
    {
        proof {
            let members = self@.members;
            vstd::seq_lib::to_multiset_len(address_items(queue));
            vstd::seq_lib::to_multiset_len(members);
            assert(members.take(members.len() as int) =~= members);
        }
        self.payout_queue = queue;
    }

    /// `caller` becomes a member: last in join order, not yet paid, with one
    /// contribution as stake.
    ///
    /// Refused with `AlreadyDissolved` once the circle is dissolved, with
    /// `AlreadyJoined` for a caller who is a member, and with
    /// `MaxMembersReached` where the circle has `MAX_MEMBERS` members.
    pub fn join(&mut self, caller: &Address) -> (r: Result<(), Error>)
        requires
            old(self).wf(),
            old(self)@.reaches(*caller),
        ensures
            final(self).wf(),
            match r {
                Ok(()) => old(self)@.join(*caller) == Ok::<CircleView, Error>(final(self)@),
                Err(e) => old(self)@.join(*caller) == Err::<CircleView, Error>(e) && final(self)@
                    == old(self)@,
            },
    {
        if self.is_dissolved {
            return Err(Error::AlreadyDissolved);
        }
        if addresses_contain(&self.members, caller) {
            return Err(Error::AlreadyJoined);
        }
        if addresses_len(&self.members) >= MAX_MEMBERS {
            return Err(Error::MaxMembersReached);
        }
        proof {
            law_join_keeps_valid(self@, *caller);
            assert(as_ints(amount_items(self.contributions_paid).push(self.contribution))
                =~= self@.contributions_paid.push(self@.contribution));
        }
        push_address(&mut self.members, clone_address(caller));
        push_flag(&mut self.has_received_payout, false);
        push_amount(&mut self.contributions_paid, self.contribution);
        Ok(())
    }

    /// A member asks for the circle to be dissolved. The caller is counted
    /// among the votes, once however often they ask; the circle is not
    /// dissolved by this call, whatever the count.
    ///
    /// Refused with `AlreadyDissolved` once the circle is dissolved and with
    /// `NotMember` for a caller who is no member.
    pub fn propose_dissolution(&mut self, caller: &Address) -> (r: Result<(), Error>)
        requires
            old(self).wf(),
            old(self)@.reaches(*caller),
        ensures
            final(self).wf(),
            match r {
                Ok(()) => old(self)@.propose_dissolution(*caller) == Ok::<CircleView, Error>(
                    final(self)@,
                ),
                Err(e) => old(self)@.propose_dissolution(*caller) == Err::<CircleView, Error>(e)
                    && final(self)@ == old(self)@,
            },
    {
        if self.is_dissolved {
            return Err(Error::AlreadyDissolved);
        }
        if !addresses_contain(&self.members, caller) {
            return Err(Error::NotMember);
        }
        if !addresses_contain(&self.dissolution_votes, caller) {
            proof {
                lemma_distinct_within(self@.dissolution_votes, self@.members);
            }
            push_address(&mut self.dissolution_votes, clone_address(caller));
        }
        Ok(())
    }

    /// A member votes to dissolve the circle. The circle is dissolved by the
    /// vote that makes the votes a strict majority of the members: more than
    /// half of them. A tie does not dissolve.
    ///
    /// Refused with `AlreadyDissolved` once the circle is dissolved, with
    /// `NotMember` for a caller who is no member, and with `AlreadyVoted` for
    /// one who is counted among the votes.
    pub fn vote_dissolve(&mut self, caller: &Address) -> (r: Result<(), Error>)
        requires
            old(self).wf(),
            old(self)@.reaches(*caller),
        ensures
            final(self).wf(),
            match r {
                Ok(()) => old(self)@.vote_dissolve(*caller) == Ok::<CircleView, Error>(
                    final(self)@,
                ),
                Err(e) => old(self)@.vote_dissolve(*caller) == Err::<CircleView, Error>(e)
                    && final(self)@ == old(self)@,
            },
    {
        if self.is_dissolved {
            return Err(Error::AlreadyDissolved);
        }
        if !addresses_contain(&self.members, caller) {
            return Err(Error::NotMember);
        }
        if addresses_contain(&self.dissolution_votes, caller) {
            return Err(Error::AlreadyVoted);
        }
        proof {
            lemma_distinct_within(self@.dissolution_votes.push(*caller), self@.members);
        }
        push_address(&mut self.dissolution_votes, clone_address(caller));
        let total_members = addresses_len(&self.members);
        let votes = addresses_len(&self.dissolution_votes);
        if votes * 2 > total_members {
            self.is_dissolved = true;
        }
        Ok(())
    }

    /// A member of a dissolved circle takes back the stake held for them, less
    /// the payout they received. Returns the amount. A positive amount is
    /// handed out once: the stake held drops to zero. An amount that is not
    /// positive is returned as it is, and the record stays as it was.
    ///
    /// Refused with `NotDissolved` while the circle is not dissolved, and
    /// with `NotMember` for a caller who is no member.
    pub fn withdraw_pro_rata(&mut self, caller: &Address) -> (r: Result<i128, Error>)
        requires
            old(self).wf(),
            old(self)@.reaches(*caller),
        ensures
            final(self).wf(),
            match r {
                Ok(amount) => old(self)@.withdraw_pro_rata(*caller) == Ok::<(CircleView, int), Error>(
                    (final(self)@, amount as int),
                ),
                Err(e) => old(self)@.withdraw_pro_rata(*caller) == Err::<(CircleView, int), Error>(e)
                    && final(self)@ == old(self)@,
            },
    {
        if !self.is_dissolved {
            return Err(Error::NotDissolved);
        }
        let i = match self.position_of(caller) {
            Some(i) => i,
            None => {
                return Err(Error::NotMember);
            },
        };
        let contributed = amount_at(&self.contributions_paid, i).unwrap();
        let received = if flag_at(&self.has_received_payout, i).unwrap() {
            self.contribution
        } else {
            0
        };
        let refundable = contributed - received;
        if refundable > 0 {
            set_amount(&mut self.contributions_paid, i, 0);
            proof {
                assert(self@.contributions_paid =~= old(self)@.contributions_paid.update(i as int, 0));
            }
        }
        Ok(refundable)
    }
}

} // verus!
