//! What holds of circles whatever is done to them.
//!
//! The laws are stated about the mathematical records of `model`, which the
//! executable operations are proved to follow step by step.
use crate::error::Error;
use crate::model::{Call, CircleView, MAX_MEMBERS};
use crate::seq_facts::{lemma_paid_count_mark, lemma_paid_count_push, lemma_position_unique};
use soroban_sdk::Address;
use vstd::prelude::*;

verus! {

/// A circle that was just created is valid.
pub proof fn law_created_is_valid(admin: Address, contribution: int, is_random_queue: bool)
    ensures
        CircleView::created(admin, contribution, is_random_queue).valid(),
{
    let c = CircleView::created(admin, contribution, is_random_queue);
    assert(c.members.take(0) =~= c.payout_queue);
}

/// A valid circle is valid after a member has joined.
pub proof fn law_join_keeps_valid(c: CircleView, caller: Address)
    requires
        c.valid(),
    ensures
        c.after(Call::Join { caller }).valid(),
{
    if let Ok(next) = c.join(caller) {
        let scheduled = c.payout_queue.len() as int;
        lemma_paid_count_push(c.has_received_payout, false);
        assert(next.members.take(scheduled) =~= c.members.take(scheduled));
        assert forall|k: int| 0 <= k < c.dissolution_votes.len() implies next.members.contains(
            #[trigger] c.dissolution_votes[k],
        ) by {
            let j = c.members.index_of(c.dissolution_votes[k]);
            assert(next.members[j] == c.dissolution_votes[k]);
        }
    }
}

/// A valid circle is valid after its payout order has been fixed, whatever
/// order of the members was drawn.
pub proof fn law_finalize_keeps_valid(c: CircleView, caller: Address, drawn: Seq<Address>)
    requires
        c.valid(),
        c.admits(Call::Finalize { caller, drawn }),
    ensures
        c.after(Call::Finalize { caller, drawn }).valid(),
{
    if c.schedules(caller) {
        vstd::seq_lib::to_multiset_len(drawn);
        vstd::seq_lib::to_multiset_len(c.members);
        assert(c.members.take(c.members.len() as int) =~= c.members);
    }
}

/// A valid circle is valid after a payout: in particular the volume is the
/// number of payouts times the contribution.
pub proof fn law_process_payout_keeps_valid(c: CircleView, caller: Address, recipient: Address)
    requires
        c.valid(),
    ensures
        c.after(Call::ProcessPayout { caller, recipient }).valid(),
{
    if let Ok(next) = c.process_payout(caller, recipient) {
        let i = c.position(recipient);
        lemma_paid_count_mark(c.has_received_payout, i);
        assert((c.current_payout_index + 1) * c.contribution == c.current_payout_index
            * c.contribution + c.contribution) by (nonlinear_arith);
    }
}

/// A valid circle is valid after a member has asked for dissolution.
pub proof fn law_propose_dissolution_keeps_valid(c: CircleView, caller: Address)
    requires
        c.valid(),
    ensures
        c.after(Call::ProposeDissolution { caller }).valid(),
{
}

/// A valid circle is valid after a vote.
pub proof fn law_vote_dissolve_keeps_valid(c: CircleView, caller: Address)
    requires
        c.valid(),
    ensures
        c.after(Call::VoteDissolve { caller }).valid(),
{
}

/// A valid circle is valid after a withdrawal.
pub proof fn law_withdraw_keeps_valid(c: CircleView, caller: Address)
    requires
        c.valid(),
    ensures
        c.after(Call::WithdrawProRata { caller }).valid(),
{
}

/// Every call leaves a valid circle valid.
pub proof fn law_call_keeps_valid(c: CircleView, call: Call)
    requires
        c.valid(),
        c.admits(call),
    ensures
        c.after(call).valid(),
{
    match call {
        Call::Join { caller } => law_join_keeps_valid(c, caller),
        Call::Finalize { caller, drawn } => law_finalize_keeps_valid(c, caller, drawn),
        Call::ProcessPayout { caller, recipient } => law_process_payout_keeps_valid(
            c,
            caller,
            recipient,
        ),
        Call::ProposeDissolution { caller } => law_propose_dissolution_keeps_valid(c, caller),
        Call::VoteDissolve { caller } => law_vote_dissolve_keeps_valid(c, caller),
        Call::WithdrawProRata { caller } => law_withdraw_keeps_valid(c, caller),
    }
}

/// Whatever calls are made of a valid circle, in whatever order, the circle
/// stays valid: the three lists about the members have one length, at most
/// `MAX_MEMBERS`; nobody is a member twice or votes twice; the payout order
/// holds the members that the circle had when it was fixed, each once; the
/// count of payouts is the number of members paid and the volume is that
/// count times the contribution.
pub proof fn law_valid_in_every_state(c: CircleView, calls: Seq<Call>)
    requires
        c.valid(),
        c.admits_all(calls),
    ensures
        c.after_all(calls).valid(),
    decreases calls.len(),
{
    if calls.len() > 0 {
        law_valid_in_every_state(c, calls.drop_last());
        law_call_keeps_valid(c.after_all(calls.drop_last()), calls.last());
    }
}

/// Capacity. A circle with `MAX_MEMBERS` members takes nobody: a call of
/// `join` is refused, and with `MaxMembersReached` unless the circle is
/// dissolved or the caller is a member, which are looked at first. Below
/// that number, and so for the member who fills the circle, anybody who is no
/// member joins a circle that is not dissolved.
pub proof fn law_capacity(c: CircleView, caller: Address)
    requires
        c.valid(),
    ensures
        c.members.len() == MAX_MEMBERS ==> c.join(caller) is Err,
        c.members.len() == MAX_MEMBERS && !c.is_dissolved && !c.is_member(caller) ==> c.join(
            caller,
        ) == Err::<CircleView, Error>(Error::MaxMembersReached),
        c.members.len() < MAX_MEMBERS && !c.is_dissolved && !c.is_member(caller) ==> c.join(
            caller,
        ) is Ok && c.after(Call::Join { caller }).members.len() == c.members.len() + 1,
{
}

/// No double join. A member who calls `join` is refused and the record stays
/// as it is; the reason is `AlreadyJoined` unless the circle is dissolved,
/// which is looked at first. So whoever has joined is refused when they
/// call `join` again.
pub proof fn law_no_double_join(c: CircleView, caller: Address)
    requires
        c.valid(),
    ensures
        c.is_member(caller) ==> c.join(caller) is Err && c.after(Call::Join { caller }) == c,
        c.is_member(caller) && !c.is_dissolved ==> c.join(caller) == Err::<CircleView, Error>(
            Error::AlreadyJoined,
        ),
        c.join(caller) is Ok ==> c.after(Call::Join { caller }).join(caller) == Err::<
            CircleView,
            Error,
        >(Error::AlreadyJoined),
{
    if let Ok(next) = c.join(caller) {
        assert(next.members[c.members.len() as int] == caller);
    }
}

/// The queue is an arrangement of the members. When the admin fixes the
/// payout order of a circle that has none, the order holds exactly the
/// members of that moment, each once, under both policies: join order, or
/// whatever was drawn.
pub proof fn law_queue_holds_members(c: CircleView, caller: Address, drawn: Seq<Address>)
    requires
        c.valid(),
        c.admits(Call::Finalize { caller, drawn }),
        c.schedules(caller),
    ensures
        c.finalize(caller, drawn) is Ok,
        c.after(Call::Finalize { caller, drawn }).payout_queue.to_multiset()
            =~= c.members.to_multiset(),
        !c.is_random_queue ==> c.after(Call::Finalize { caller, drawn }).payout_queue == c.members,
{
}

/// Fixing the payout order twice is fixing it once: the second call changes
/// nothing, whatever order is drawn for it.
pub proof fn law_finalize_twice(
    c: CircleView,
    caller: Address,
    first: Seq<Address>,
    second: Seq<Address>,
)
    requires
        c.valid(),
        c.admits(Call::Finalize { caller, drawn: first }),
        c.after(Call::Finalize { caller, drawn: first }).admits(
            Call::Finalize { caller, drawn: second },
        ),
    ensures
        c.after(Call::Finalize { caller, drawn: first }).after(
            Call::Finalize { caller, drawn: second },
        ) == c.after(Call::Finalize { caller, drawn: first }),
{
    let once = c.after(Call::Finalize { caller, drawn: first });
    let twice = once.after(Call::Finalize { caller, drawn: second });
    if once.schedules(caller) {
        vstd::seq_lib::to_multiset_len(first);
        vstd::seq_lib::to_multiset_len(second);
        assert(twice.payout_queue =~= once.payout_queue);
    }
}

/// A payout is made once. After a payout to a member, another payout to the
/// same member is refused with `Unauthorized`, whoever asks. The payout
/// raises the count of payouts by one and the volume by one contribution.
pub proof fn law_paid_once(c: CircleView, caller: Address, recipient: Address, again: Address)
    requires
        c.valid(),
        c.process_payout(caller, recipient) is Ok,
    ensures
        ({
            let next = c.after(Call::ProcessPayout { caller, recipient });
            &&& next.process_payout(again, recipient) == Err::<CircleView, Error>(
                Error::Unauthorized,
            )
            &&& next.current_payout_index == c.current_payout_index + 1
            &&& next.total_volume_distributed == c.total_volume_distributed + c.contribution
            &&& next.total_volume_distributed == next.current_payout_index * next.contribution
        }),
{
    law_process_payout_keeps_valid(c, caller, recipient);
}

/// Members stay, each in their place, and a member who was paid stays paid,
/// whatever call is made.
pub proof fn law_call_keeps_members(c: CircleView, call: Call, member: Address)
    requires
        c.valid(),
        c.admits(call),
        c.is_member(member),
    ensures
        c.after(call).is_member(member),
        c.after(call).position(member) == c.position(member),
        c.was_paid(member) ==> c.after(call).was_paid(member),
{
    let next = c.after(call);
    let i = c.position(member);
    lemma_position_unique(next.members, i);
}

/// Exactly-once payout. A member who was paid stays a member and stays paid
/// through every history of calls, and a payout to them is refused in every
/// state that follows: no member is paid twice.
pub proof fn law_never_paid_twice(
    c: CircleView,
    calls: Seq<Call>,
    member: Address,
    caller: Address,
)
    requires
        c.valid(),
        c.admits_all(calls),
        c.is_member(member),
        c.was_paid(member),
    ensures
        c.after_all(calls).is_member(member),
        c.after_all(calls).position(member) == c.position(member),
        c.after_all(calls).was_paid(member),
        c.after_all(calls).process_payout(caller, member) is Err,
    decreases calls.len(),
{
    if calls.len() > 0 {
        law_never_paid_twice(c, calls.drop_last(), member, caller);
        law_valid_in_every_state(c, calls.drop_last());
        law_call_keeps_members(c.after_all(calls.drop_last()), calls.last(), member);
    }
}

/// What a call leaves alone. Whatever call is made, the host, the admin, the
/// contribution, the queue policy and the cycle stay as they are; members
/// and votes are only added, at the end; a payout order, once fixed, is never
/// fixed anew; the count of payouts does not fall; a dissolved circle stays
/// dissolved.
pub proof fn law_call_only_adds(c: CircleView, call: Call)
    requires
        c.valid(),
        c.admits(call),
    ensures
        ({
            let next = c.after(call);
            &&& next.host == c.host
            &&& next.admin == c.admin
            &&& next.contribution == c.contribution
            &&& next.is_random_queue == c.is_random_queue
            &&& next.cycle_number == c.cycle_number
            &&& c.members.is_prefix_of(next.members)
            &&& c.dissolution_votes.is_prefix_of(next.dissolution_votes)
            &&& c.payout_queue.len() > 0 ==> next.payout_queue == c.payout_queue
            &&& next.current_payout_index >= c.current_payout_index
            &&& c.is_dissolved ==> next.is_dissolved
        }),
{
}

/// What a history leaves alone: `law_call_only_adds`, for any number of
/// calls.
pub proof fn law_history_only_adds(c: CircleView, calls: Seq<Call>)
    requires
        c.valid(),
        c.admits_all(calls),
    ensures
        ({
            let last = c.after_all(calls);
            &&& last.host == c.host
            &&& last.admin == c.admin
            &&& last.contribution == c.contribution
            &&& last.is_random_queue == c.is_random_queue
            &&& last.cycle_number == c.cycle_number
            &&& c.members.is_prefix_of(last.members)
            &&& c.dissolution_votes.is_prefix_of(last.dissolution_votes)
            &&& c.payout_queue.len() > 0 ==> last.payout_queue == c.payout_queue
            &&& last.current_payout_index >= c.current_payout_index
            &&& c.is_dissolved ==> last.is_dissolved
        }),
    decreases calls.len(),
{
    if calls.len() > 0 {
        let before = c.after_all(calls.drop_last());
        law_history_only_adds(c, calls.drop_last());
        law_valid_in_every_state(c, calls.drop_last());
        law_call_only_adds(before, calls.last());
    }
}

/// Majority dissolution. A vote that is counted dissolves the circle exactly
/// when the votes, this one included, are more than half the members: with
/// four members the third vote, with five members the third vote. No other
/// call dissolves a circle.
pub proof fn law_majority(c: CircleView, call: Call)
    requires
        c.valid(),
        c.admits(call),
    ensures
        call matches Call::VoteDissolve { caller } && c.vote_dissolve(caller) is Ok ==> {
            let next = c.after(call);
            &&& next.members == c.members
            &&& next.dissolution_votes.len() == c.dissolution_votes.len() + 1
            &&& next.is_dissolved <==> 2 * next.dissolution_votes.len() > next.members.len()
        },
        !(call is VoteDissolve) ==> c.after(call).is_dissolved == c.is_dissolved,
{
}

/// Dissolution is final. Once a circle is dissolved it stays dissolved, and
/// nobody joins, no order is fixed and no payout is made: whatever calls
/// follow, nothing changes but the stakes that members take back.
pub proof fn law_dissolved_for_good(c: CircleView, calls: Seq<Call>)
    requires
        c.valid(),
        c.admits_all(calls),
        c.is_dissolved,
    ensures
        c.after_all(calls) == (CircleView {
            contributions_paid: c.after_all(calls).contributions_paid,
            ..c
        }),
    decreases calls.len(),
{
    if calls.len() > 0 {
        law_dissolved_for_good(c, calls.drop_last());
    }
}

/// Pro-rata settlement. In a dissolved circle a member whose stake is still
/// held takes back one contribution if they were never paid, and nothing if
/// they were; whoever was paid leaves the record as it is. A member who
/// withdraws again is handed the same amount if the first was not positive,
/// and zero if it was; the second call changes nothing. So where the
/// contribution is not negative, the second call returns zero.
pub proof fn law_pro_rata(c: CircleView, caller: Address)
    requires
        c.valid(),
        c.is_dissolved,
        c.is_member(caller),
    ensures
        ({
            let i = c.position(caller);
            &&& c.withdraw_pro_rata(caller) matches Ok((next, amount))
            &&& !c.was_paid(caller) && c.contributions_paid[i] == c.contribution ==> amount
                == c.contribution
            &&& c.was_paid(caller) ==> amount == 0 && next == c
            &&& next.withdraw_pro_rata(caller) matches Ok((last, again))
            &&& last == next
            &&& again == if amount > 0 {
                0
            } else {
                amount
            }
            &&& c.contribution >= 0 ==> again == 0
        }),
{
}

} // verus!
