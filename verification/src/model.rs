//! The mathematical model of a circle: what a record holds, when it is
//! valid, and what each operation makes of it.
//!
//! Every operation is a function from the record before the call to either
//! the record after it or the reason for refusing. The executable code in
//! `circle` is proved to compute exactly these functions.
use crate::error::Error;
use crate::host::address_host;
use soroban_sdk::Address;
use vstd::prelude::*;

verus! {

/// The most members a circle can have.
pub const MAX_MEMBERS: u32 = 50;

/// How many members have been paid: the number of `true` entries.
pub open spec fn paid_count(flags: Seq<bool>) -> nat
    decreases flags.len(),
{
    if flags.len() == 0 {
        0
    } else {
        paid_count(flags.drop_last()) + if flags.last() {
            1nat
        } else {
            0nat
        }
    }
}

/// Machine amounts as mathematical integers.
pub open spec fn as_ints(amounts: Seq<i128>) -> Seq<int> {
    amounts.map_values(|x: i128| x as int)
}

/// Whether every address of `list` lives in `host`.
pub open spec fn on_host(list: Seq<Address>, host: int) -> bool {
    forall|k: int| 0 <= k < list.len() ==> address_host(#[trigger] list[k]) == host
}

/// A circle as a mathematical value.
pub struct CircleView {
    /// The host that the record lives in: that of its admin.
    pub host: int,
    /// Who created the circle; the only one who may schedule and pay out.
    pub admin: Address,
    /// What each member pays, and receives, per cycle.
    pub contribution: int,
    /// The members in the order they joined.
    pub members: Seq<Address>,
    /// Whether the payout order is drawn at random.
    pub is_random_queue: bool,
    /// The payout order; empty until the circle is scheduled.
    pub payout_queue: Seq<Address>,
    /// For each member, whether the payout was made.
    pub has_received_payout: Seq<bool>,
    /// The current cycle.
    pub cycle_number: nat,
    /// How many payouts were made.
    pub current_payout_index: nat,
    /// The sum of all payouts made.
    pub total_volume_distributed: int,
    /// Whether the members have dissolved the circle.
    pub is_dissolved: bool,
    /// The members who voted to dissolve, in the order they voted.
    pub dissolution_votes: Seq<Address>,
    /// For each member, the stake still held for them.
    pub contributions_paid: Seq<int>,
}

impl CircleView {
    /// The record of a circle that was just created.
    pub open spec fn created(admin: Address, contribution: int, is_random_queue: bool) -> CircleView {
        CircleView {
            host: address_host(admin),
            admin,
            contribution,
            members: Seq::empty(),
            is_random_queue,
            payout_queue: Seq::empty(),
            has_received_payout: Seq::empty(),
            cycle_number: 1,
            current_payout_index: 0,
            total_volume_distributed: 0,
            is_dissolved: false,
            dissolution_votes: Seq::empty(),
            contributions_paid: Seq::empty(),
        }
    }

    /// What holds of every record that the operations can produce.
    pub open spec fn valid(self) -> bool {
        &&& self.members.len() <= MAX_MEMBERS
        &&& self.has_received_payout.len() == self.members.len()
        &&& self.contributions_paid.len() == self.members.len()
        &&& self.members.no_duplicates()
        &&& self.payout_queue.len() <= self.members.len()
        &&& self.payout_queue.to_multiset() =~= self.members.take(
            self.payout_queue.len() as int,
        ).to_multiset()
        &&& self.dissolution_votes.no_duplicates()
        &&& forall|k: int|
            0 <= k < self.dissolution_votes.len() ==> self.members.contains(
                #[trigger] self.dissolution_votes[k],
            )
        &&& self.cycle_number == 1
        &&& self.current_payout_index == paid_count(self.has_received_payout)
        &&& self.total_volume_distributed == self.current_payout_index * self.contribution
        &&& forall|i: int|
            0 <= i < self.members.len() ==> {
                ||| #[trigger] self.contributions_paid[i] == self.contribution
                ||| (self.is_dissolved && !self.has_received_payout[i]
                    && self.contributions_paid[i] == 0)
            }
        &&& self.is_dissolved ==> 2 * self.dissolution_votes.len() > self.members.len()
    }

    /// Whether `who` lives in the host of the record, so that the record can
    /// tell who it is.
    pub open spec fn reaches(self, who: Address) -> bool {
        address_host(who) == self.host
    }

    /// Whether `who` is a member.
    pub open spec fn is_member(self, who: Address) -> bool {
        self.members.contains(who)
    }

    /// The position of the member `who` in join order.
    pub open spec fn position(self, who: Address) -> int
        recommends
            self.is_member(who),
    {
        self.members.index_of(who)
    }

    /// Whether the member `who` has been paid.
    pub open spec fn was_paid(self, who: Address) -> bool
        recommends
            self.is_member(who),
    {
        self.has_received_payout[self.position(who)]
    }

    /// What the member at position `i` may take back after dissolution: the
    /// stake held for them, less the payout they received.
    pub open spec fn refundable(self, i: int) -> int
        recommends
            0 <= i < self.members.len(),
    {
        self.contributions_paid[i] - if self.has_received_payout[i] {
            self.contribution
        } else {
            0
        }
    }

    /// `caller` joins: appended to the members, unpaid, with one contribution
    /// as stake.
    pub open spec fn join(self, caller: Address) -> Result<CircleView, Error> {
        if self.is_dissolved {
            Err(Error::AlreadyDissolved)
        } else if self.is_member(caller) {
            Err(Error::AlreadyJoined)
        } else if self.members.len() >= MAX_MEMBERS {
            Err(Error::MaxMembersReached)
        } else {
            Ok(
                CircleView {
                    members: self.members.push(caller),
                    has_received_payout: self.has_received_payout.push(false),
                    contributions_paid: self.contributions_paid.push(self.contribution),
                    ..self
                },
            )
        }
    }

    /// Whether a call of `finalize` by `caller` gets as far as fixing the
    /// payout order.
    pub open spec fn schedules(self, caller: Address) -> bool {
        caller == self.admin && !self.is_dissolved && self.payout_queue.len() == 0
    }

    /// Whether a call of `finalize` by `caller` needs an order drawn at random:
    /// it fixes the payout order, and the circle asks for a random one.
    pub open spec fn wants_draw(self, caller: Address) -> bool {
        self.schedules(caller) && self.is_random_queue
    }

    /// The admin fixes the payout order. A circle that has an order keeps it.
    /// Otherwise the order is join order, or `drawn` where the circle asks for
    /// a random one.
    pub open spec fn finalize(self, caller: Address, drawn: Seq<Address>) -> Result<
        CircleView,
        Error,
    > {
        if caller != self.admin {
            Err(Error::Unauthorized)
        } else if self.is_dissolved {
            Err(Error::AlreadyDissolved)
        } else if self.payout_queue.len() > 0 {
            Ok(self)
        } else {
            Ok(
                CircleView {
                    payout_queue: if self.is_random_queue {
                        drawn
                    } else {
                        self.members
                    },
                    ..self
                },
            )
        }
    }

    /// Whether the volume after one more payout fits the 128 bits it is kept
    /// in.
    pub open spec fn payout_fits(self) -> bool {
        i128::MIN <= self.total_volume_distributed + self.contribution <= i128::MAX
    }

    /// The admin pays `recipient`, who must be a member not yet paid.
    pub open spec fn process_payout(self, caller: Address, recipient: Address) -> Result<
        CircleView,
        Error,
    > {
        if caller != self.admin {
            Err(Error::Unauthorized)
        } else if self.is_dissolved {
            Err(Error::AlreadyDissolved)
        } else if !self.is_member(recipient) {
            Err(Error::NotMember)
        } else if self.was_paid(recipient) {
            Err(Error::Unauthorized)
        } else {
            Ok(
                CircleView {
                    has_received_payout: self.has_received_payout.update(
                        self.position(recipient),
                        true,
                    ),
                    current_payout_index: self.current_payout_index + 1,
                    total_volume_distributed: self.total_volume_distributed + self.contribution,
                    ..self
                },
            )
        }
    }

    /// The votes after `caller` has been counted among them.
    pub open spec fn votes_with(self, caller: Address) -> Seq<Address> {
        if self.dissolution_votes.contains(caller) {
            self.dissolution_votes
        } else {
            self.dissolution_votes.push(caller)
        }
    }

    /// A member asks for dissolution: counted as a vote, once, but the circle
    /// is not dissolved by it.
    pub open spec fn propose_dissolution(self, caller: Address) -> Result<CircleView, Error> {
        if self.is_dissolved {
            Err(Error::AlreadyDissolved)
        } else if !self.is_member(caller) {
            Err(Error::NotMember)
        } else {
            Ok(CircleView { dissolution_votes: self.votes_with(caller), ..self })
        }
    }

    /// Whether `votes` votes are a strict majority of `members` members.
    pub open spec fn is_majority(votes: nat, members: nat) -> bool {
        votes * 2 > members
    }

    /// A member votes to dissolve. The circle is dissolved as soon as the
    /// votes are a strict majority of the members.
    pub open spec fn vote_dissolve(self, caller: Address) -> Result<CircleView, Error> {
        if self.is_dissolved {
            Err(Error::AlreadyDissolved)
        } else if !self.is_member(caller) {
            Err(Error::NotMember)
        } else if self.dissolution_votes.contains(caller) {
            Err(Error::AlreadyVoted)
        } else {
            Ok(
                CircleView {
                    dissolution_votes: self.dissolution_votes.push(caller),
                    is_dissolved: Self::is_majority(
                        self.dissolution_votes.len() + 1,
                        self.members.len(),
                    ),
                    ..self
                },
            )
        }
    }

    /// A member of a dissolved circle takes back what is refundable to them.
    /// A positive amount is paid out once: the stake held for the member
    /// drops to zero. Any other amount is reported and nothing changes.
    pub open spec fn withdraw_pro_rata(self, caller: Address) -> Result<(CircleView, int), Error> {
        if !self.is_dissolved {
            Err(Error::NotDissolved)
        } else if !self.is_member(caller) {
            Err(Error::NotMember)
        } else {
            let i = self.position(caller);
            let amount = self.refundable(i);
            if amount > 0 {
                Ok((CircleView { contributions_paid: self.contributions_paid.update(i, 0), ..self }, amount))
            } else {
                Ok((self, amount))
            }
        }
    }
}

/// One call of an operation on a circle, with everything that is handed in:
/// what the caller names and, for `Finalize`, the order drawn at random.
pub enum Call {
    /// `caller` joins.
    Join { caller: Address },
    /// `caller` fixes the payout order; `drawn` is the order drawn at random.
    Finalize { caller: Address, drawn: Seq<Address> },
    /// `caller` pays `recipient`.
    ProcessPayout { caller: Address, recipient: Address },
    /// `caller` asks for dissolution.
    ProposeDissolution { caller: Address },
    /// `caller` votes to dissolve.
    VoteDissolve { caller: Address },
    /// `caller` takes back what is refundable.
    WithdrawProRata { caller: Address },
}

impl CircleView {
    /// Whether `call` can be made of this record. Everybody may call
    /// anything; the one condition is on the order handed to `finalize`:
    /// where it is needed, it holds the members, each once.
    pub open spec fn admits(self, call: Call) -> bool {
        match call {
            Call::Finalize { caller, drawn } => self.wants_draw(caller)
                ==> drawn.to_multiset() =~= self.members.to_multiset(),
            _ => true,
        }
    }

    /// What `call` makes of the record, or why it is refused.
    pub open spec fn outcome(self, call: Call) -> Result<CircleView, Error> {
        match call {
            Call::Join { caller } => self.join(caller),
            Call::Finalize { caller, drawn } => self.finalize(caller, drawn),
            Call::ProcessPayout { caller, recipient } => self.process_payout(caller, recipient),
            Call::ProposeDissolution { caller } => self.propose_dissolution(caller),
            Call::VoteDissolve { caller } => self.vote_dissolve(caller),
            Call::WithdrawProRata { caller } => match self.withdraw_pro_rata(caller) {
                Ok((next, _)) => Ok(next),
                Err(e) => Err(e),
            },
        }
    }

    /// The record after `call`: a refused call leaves it as it was.
    pub open spec fn after(self, call: Call) -> CircleView {
        match self.outcome(call) {
            Ok(next) => next,
            Err(_) => self,
        }
    }

    /// The record after all of `calls`, made in order.
    pub open spec fn after_all(self, calls: Seq<Call>) -> CircleView
        decreases calls.len(),
    {
        if calls.len() == 0 {
            self
        } else {
            self.after_all(calls.drop_last()).after(calls.last())
        }
    }

    /// Whether each of `calls`, made in order, can be made of the record it
    /// meets.
    pub open spec fn admits_all(self, calls: Seq<Call>) -> bool
        decreases calls.len(),
    {
        calls.len() == 0 || (self.admits_all(calls.drop_last()) && self.after_all(
            calls.drop_last(),
        ).admits(calls.last()))
    }
}

} // verus!
