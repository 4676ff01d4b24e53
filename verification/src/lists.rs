//! Questions about lists of addresses.
use crate::host::{address_host, same_address, share_host};
use crate::model::on_host;
use soroban_sdk::Address;
use vstd::prelude::*;

verus! {

/// Whether every address of `list` lives in the host of `beside`.
pub(crate) fn all_share_host(list: &Vec<Address>, beside: &Address) -> (r: bool)
    ensures
        r == on_host(list@, address_host(*beside)),
{
    let mut i: usize = 0;
    while i < list.len()
        invariant
            i <= list.len(),
            forall|k: int| 0 <= k < i ==> address_host(#[trigger] list@[k]) == address_host(*beside),
        decreases list.len() - i,
    {
        if !share_host(&list[i], beside) {
            return false;
        }
        i += 1;
    }
    true
}

/// Whether `who` is among the first `upto` items of `list`, a list of
/// addresses from the host of `who`.
pub(crate) fn occurs_before(list: &Vec<Address>, upto: usize, who: &Address) -> (r: bool)
    requires
        upto <= list.len(),
        on_host(list@, address_host(*who)),
    ensures
        r == list@.take(upto as int).contains(*who),
{
    let mut i: usize = 0;
    while i < upto
        invariant
            i <= upto <= list.len(),
            on_host(list@, address_host(*who)),
            forall|k: int| 0 <= k < i ==> list@[k] != *who,
        decreases upto - i,
    {
        if same_address(&list[i], who) {
            assert(list@.take(upto as int)[i as int] == *who);
            return true;
        }
        i += 1;
    }
    false
}

/// Whether no address occurs twice in `list`, a list of addresses from the
/// host of `beside`.
pub(crate) fn is_distinct(list: &Vec<Address>, beside: &Address) -> (r: bool)
    requires
        on_host(list@, address_host(*beside)),
    ensures
        r == list@.no_duplicates(),
{
    let mut i: usize = 0;
    while i < list.len()
        invariant
            i <= list.len(),
            on_host(list@, address_host(*beside)),
            list@.take(i as int).no_duplicates(),
        decreases list.len() - i,
    {
        if occurs_before(list, i, &list[i]) {
            proof {
                let k = list@.take(i as int).index_of(list@[i as int]);
                assert(list@[k] == list@[i as int] && k != i);
            }
            return false;
        }
        proof {
            let shorter = list@.take(i as int);
            let longer = list@.take(i + 1);
            assert forall|a: int, b: int|
                0 <= a < longer.len() && 0 <= b < longer.len() && a != b implies longer[a]
                != longer[b] by {
                if a < i && b < i {
                    assert(shorter[a] != shorter[b]);
                } else if a < i {
                    assert(shorter.contains(shorter[a]));
                } else {
                    assert(shorter.contains(shorter[b]));
                }
            }
        }
        i += 1;
    }
    proof {
        assert(list@.take(list.len() as int) =~= list@);
    }
    true
}

/// Whether every item of `items` is among the first `upto` items of `list`,
/// both lists of addresses from the host of `beside`.
pub(crate) fn all_occur_before(
    items: &Vec<Address>,
    list: &Vec<Address>,
    upto: usize,
    beside: &Address,
) -> (r: bool)
    requires
        upto <= list.len(),
        on_host(items@, address_host(*beside)),
        on_host(list@, address_host(*beside)),
    ensures
        r == forall|k: int|
            0 <= k < items.len() ==> list@.take(upto as int).contains(#[trigger] items@[k]),
{
    let mut i: usize = 0;
    while i < items.len()
        invariant
            i <= items.len(),
            upto <= list.len(),
            on_host(items@, address_host(*beside)),
            on_host(list@, address_host(*beside)),
            forall|k: int| 0 <= k < i ==> list@.take(upto as int).contains(#[trigger] items@[k]),
        decreases items.len() - i,
    {
        if !occurs_before(list, upto, &items[i]) {
            return false;
        }
        i += 1;
    }
    true
}

} // verus!
