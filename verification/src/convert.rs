//! Copying lists between host vectors and ordinary vectors.
use crate::host::{
    address_at, address_host, address_items, addresses_host, addresses_len, amount_at, amount_items, clone_address, flag_at,
    flag_items, holds_addresses, holds_amounts, holds_flags, new_addresses, new_amounts,
    new_flags, push_address, push_amount, push_flag,
};
use crate::model::on_host;
use soroban_sdk::Address;
use vstd::prelude::*;

verus! {

/// A host vector with the addresses of `list`, in order, in the host of
/// `beside`, where they all live.
pub(crate) fn addresses_to_host(beside: &Address, list: &Vec<Address>) -> (r: soroban_sdk::Vec<
    Address,
>)
    requires
        list.len() <= u32::MAX,
        on_host(list@, address_host(*beside)),
    ensures
        address_items(r) == list@,
        holds_addresses(r),
        addresses_host(r) == address_host(*beside),
{
    let mut r = new_addresses(beside);
    let mut i: usize = 0;
    while i < list.len()
        invariant
            i <= list.len() <= u32::MAX,
            on_host(list@, address_host(*beside)),
            address_items(r) == list@.take(i as int),
            holds_addresses(r),
            addresses_host(r) == address_host(*beside),
        decreases list.len() - i,
    {
        push_address(&mut r, clone_address(&list[i]));
        i += 1;
    }
    r
}

/// A host vector with the booleans of `list`, in order, in the host of
/// `beside`.
pub(crate) fn flags_to_host(beside: &Address, list: &Vec<bool>) -> (r: soroban_sdk::Vec<bool>)
    requires
        list.len() <= u32::MAX,
    ensures
        flag_items(r) == list@,
        holds_flags(r),
{
    let mut r = new_flags(beside);
    let mut i: usize = 0;
    while i < list.len()
        invariant
            i <= list.len() <= u32::MAX,
            flag_items(r) == list@.take(i as int),
            holds_flags(r),
        decreases list.len() - i,
    {
        push_flag(&mut r, list[i]);
        i += 1;
    }
    r
}

/// A host vector with the amounts of `list`, in order, in the host of
/// `beside`.
pub(crate) fn amounts_to_host(beside: &Address, list: &Vec<i128>) -> (r: soroban_sdk::Vec<i128>)
    requires
        list.len() <= u32::MAX,
    ensures
        amount_items(r) == list@,
        holds_amounts(r),
{
    let mut r = new_amounts(beside);
    let mut i: usize = 0;
    while i < list.len()
        invariant
            i <= list.len() <= u32::MAX,
            amount_items(r) == list@.take(i as int),
            holds_amounts(r),
        decreases list.len() - i,
    {
        push_amount(&mut r, list[i]);
        i += 1;
    }
    r
}

/// The addresses of a host vector, in order, as addresses of its host.
pub(crate) fn addresses_from_host(v: &soroban_sdk::Vec<Address>) -> (r: Vec<Address>)
    requires
        holds_addresses(*v),
    ensures
        r@ == address_items(*v),
        on_host(r@, addresses_host(*v)),
{
    let n = addresses_len(v);
    let mut r: Vec<Address> = Vec::new();
    let mut i: u32 = 0;
    while i < n
        invariant
            i <= n,
            n == address_items(*v).len(),
            holds_addresses(*v),
            r@ == address_items(*v).take(i as int),
            on_host(r@, addresses_host(*v)),
        decreases n - i,
    {
        r.push(address_at(v, i).unwrap());
        proof {
            assert(address_items(*v).take(i as int).push(address_items(*v)[i as int])
                =~= address_items(*v).take(i + 1));
        }
        i += 1;
    }
    r
}

/// The booleans of a host vector that holds `n` of them, in order.
pub(crate) fn flags_from_host(v: &soroban_sdk::Vec<bool>, n: u32) -> (r: Vec<bool>)
    requires
        holds_flags(*v),
        n == flag_items(*v).len(),
    ensures
        r@ == flag_items(*v),
{
    let mut r: Vec<bool> = Vec::new();
    let mut i: u32 = 0;
    while i < n
        invariant
            i <= n,
            n == flag_items(*v).len(),
            holds_flags(*v),
            r@ == flag_items(*v).take(i as int),
        decreases n - i,
    {
        r.push(flag_at(v, i).unwrap());
        proof {
            assert(flag_items(*v).take(i as int).push(flag_items(*v)[i as int])
                =~= flag_items(*v).take(i + 1));
        }
        i += 1;
    }
    r
}

/// The amounts of a host vector that holds `n` of them, in order.
pub(crate) fn amounts_from_host(v: &soroban_sdk::Vec<i128>, n: u32) -> (r: Vec<i128>)
    requires
        holds_amounts(*v),
        n == amount_items(*v).len(),
    ensures
        r@ == amount_items(*v),
{
    let mut r: Vec<i128> = Vec::new();
    let mut i: u32 = 0;
    while i < n
        invariant
            i <= n,
            n == amount_items(*v).len(),
            holds_amounts(*v),
            r@ == amount_items(*v).take(i as int),
        decreases n - i,
    {
        r.push(amount_at(v, i).unwrap());
        proof {
            assert(amount_items(*v).take(i as int).push(amount_items(*v)[i as int])
                =~= amount_items(*v).take(i + 1));
        }
        i += 1;
    }
    r
}

} // verus!
