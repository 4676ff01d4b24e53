//! The Soroban host values the ledger is built from, and everything this
//! crate takes on trust about them.
//!
//! A `soroban_sdk::Vec` is a handle to a vector that lives in the host. Every
//! operation on it is a host call; the host never changes a vector in place
//! but hands back a handle to a new one. The handles are opaque to the
//! verifier, so each vector type used by the ledger gets two names: one for the
//! sequence of items it holds, and one that says whether every value stored in
//! it really is of the item type (the SDK does not promise that, and reading
//! an item of the wrong type aborts).
//!
//! An address, too, is a handle, and means something only to the host that
//! made it. A program can hold more than one host, so two more names say
//! which host an address and a vector of addresses live in, and the calls
//! that hand one to the other ask for the same host. Booleans and amounts
//! are handed over as they are, and go with any host.
//!
//! Equality of two `Address` values in specifications stands for the host's
//! own comparison of the accounts or contracts they denote.
//!
//! Nothing below is proved. Each function states what the SDK call in its body
//! does, as far as the SDK's source shows it. Host calls are metered: a call
//! made with an exhausted budget aborts the invocation, which no contract here
//! can rule out.
use soroban_sdk::Address;
use vstd::prelude::*;

verus! {

/// `soroban_sdk::Address`, the identity of an account or a contract. Opaque;
/// two addresses are equal exactly when the host compares them equal.
#[verifier::external_type_specification]
#[verifier::external_body]
pub struct ExAddress(soroban_sdk::Address);

/// `soroban_sdk::Vec<T>`, a handle to a host vector. Opaque.
#[verifier::external_type_specification]
#[verifier::external_body]
#[verifier::reject_recursive_types(T)]
pub struct ExHostVec<T>(soroban_sdk::Vec<T>);

/// The host that an address lives in.
pub uninterp spec fn address_host(a: Address) -> int;

/// The host that a vector of addresses lives in.
pub uninterp spec fn addresses_host(v: soroban_sdk::Vec<Address>) -> int;

/// The addresses held by a host vector, in order.
pub uninterp spec fn address_items(v: soroban_sdk::Vec<Address>) -> Seq<Address>;

/// Whether every value stored in the host vector is an address.
pub uninterp spec fn holds_addresses(v: soroban_sdk::Vec<Address>) -> bool;

/// The booleans held by a host vector, in order.
pub uninterp spec fn flag_items(v: soroban_sdk::Vec<bool>) -> Seq<bool>;

/// Whether every value stored in the host vector is a boolean.
pub uninterp spec fn holds_flags(v: soroban_sdk::Vec<bool>) -> bool;

/// The amounts held by a host vector, in order.
pub uninterp spec fn amount_items(v: soroban_sdk::Vec<i128>) -> Seq<i128>;

/// Whether every value stored in the host vector is a 128-bit integer.
pub uninterp spec fn holds_amounts(v: soroban_sdk::Vec<i128>) -> bool;

/// `Host::is_same` on the hosts of two addresses: whether they live in one
/// host.
#[verifier::external_body]
pub(crate) fn share_host(a: &Address, b: &Address) -> (r: bool)
    ensures
        r == (address_host(*a) == address_host(*b)),
{
    a.env().host().is_same(b.env().host())
}

/// `Address == Address`: the host's comparison of the two identities.
#[verifier::external_body]
pub(crate) fn same_address(a: &Address, b: &Address) -> (r: bool)
    requires
        address_host(*a) == address_host(*b),
    ensures
        r == (*a == *b),
{
    a == b
}

/// `Address::clone`: another handle to the same identity.
#[verifier::external_body]
pub(crate) fn clone_address(a: &Address) -> (r: Address)
    ensures
        r == *a,
{
    a.clone()
}

/// `Vec::<T>::clone`: another handle to the same host vector.
#[verifier::external_body]
pub(crate) fn clone_vec<T>(v: &soroban_sdk::Vec<T>) -> (r: soroban_sdk::Vec<T>)
    ensures
        r == *v,
{
    v.clone()
}

/// `Vec::<Address>::new`, in the host of `beside`: a fresh empty vector.
#[verifier::external_body]
pub(crate) fn new_addresses(beside: &Address) -> (r: soroban_sdk::Vec<Address>)
    ensures
        address_items(r) == Seq::<Address>::empty(),
        holds_addresses(r),
        addresses_host(r) == address_host(*beside),
{
    soroban_sdk::Vec::new(beside.env())
}

/// `Vec::<Address>::len`: the number of items.
#[verifier::external_body]
pub(crate) fn addresses_len(v: &soroban_sdk::Vec<Address>) -> (r: u32)
    ensures
        r == address_items(*v).len(),
{
    v.len()
}

/// `Vec::<Address>::contains`: whether some item compares equal to `a`.
#[verifier::external_body]
pub(crate) fn addresses_contain(v: &soroban_sdk::Vec<Address>, a: &Address) -> (r: bool)
    requires
        holds_addresses(*v),
        address_host(*a) == addresses_host(*v),
    ensures
        r == address_items(*v).contains(*a),
{
    v.contains(a)
}

/// `Vec::<Address>::get`: the item at position `i`, or `None` past the end.
/// The item is handed out as an address of the vector's host. The SDK aborts
/// when the stored value is no address; `requires` rules that out.
#[verifier::external_body]
pub(crate) fn address_at(v: &soroban_sdk::Vec<Address>, i: u32) -> (r: Option<Address>)
    requires
        holds_addresses(*v),
    ensures
        r == if i < address_items(*v).len() {
            Some(address_items(*v)[i as int])
        } else {
            None
        },
        r matches Some(a) ==> address_host(a) == addresses_host(*v),
{
    v.get(i)
}

/// `Vec::<Address>::push_back`: the vector grows by `a` at its end, and
/// stays in its host.
#[verifier::external_body]
pub(crate) fn push_address(v: &mut soroban_sdk::Vec<Address>, a: Address)
    requires
        address_items(*old(v)).len() < u32::MAX,
        address_host(a) == addresses_host(*old(v)),
    ensures
        address_items(*final(v)) == address_items(*old(v)).push(a),
        holds_addresses(*old(v)) ==> holds_addresses(*final(v)),
        addresses_host(*final(v)) == addresses_host(*old(v)),
{
    v.push_back(a)
}

/// `Vec::<bool>::new`, in the host of `beside`: a fresh empty vector.
#[verifier::external_body]
pub(crate) fn new_flags(beside: &Address) -> (r: soroban_sdk::Vec<bool>)
    ensures
        flag_items(r) == Seq::<bool>::empty(),
        holds_flags(r),
{
    soroban_sdk::Vec::new(beside.env())
}

/// `Vec::<bool>::get`: the item at position `i`, or `None` past the end.
/// The SDK aborts when the stored value is no boolean; `requires` rules that
/// out.
#[verifier::external_body]
pub(crate) fn flag_at(v: &soroban_sdk::Vec<bool>, i: u32) -> (r: Option<bool>)
    requires
        holds_flags(*v),
    ensures
        r == if i < flag_items(*v).len() {
            Some(flag_items(*v)[i as int])
        } else {
            None
        },
{
    v.get(i)
}

/// `Vec::<bool>::set`: the item at position `i` is replaced. The SDK aborts
/// when `i` is past the end; `requires` rules that out.
#[verifier::external_body]
pub(crate) fn set_flag(v: &mut soroban_sdk::Vec<bool>, i: u32, x: bool)
    requires
        i < flag_items(*old(v)).len(),
    ensures
        flag_items(*final(v)) == flag_items(*old(v)).update(i as int, x),
        holds_flags(*old(v)) ==> holds_flags(*final(v)),
{
    v.set(i, x)
}

/// `Vec::<bool>::push_back`: the vector grows by `x` at its end.
#[verifier::external_body]
pub(crate) fn push_flag(v: &mut soroban_sdk::Vec<bool>, x: bool)
    requires
        flag_items(*old(v)).len() < u32::MAX,
    ensures
        flag_items(*final(v)) == flag_items(*old(v)).push(x),
        holds_flags(*old(v)) ==> holds_flags(*final(v)),
{
    v.push_back(x)
}

/// `Vec::<i128>::new`, in the host of `beside`: a fresh empty vector.
#[verifier::external_body]
pub(crate) fn new_amounts(beside: &Address) -> (r: soroban_sdk::Vec<i128>)
    ensures
        amount_items(r) == Seq::<i128>::empty(),
        holds_amounts(r),
{
    soroban_sdk::Vec::new(beside.env())
}

/// `Vec::<i128>::get`: the item at position `i`, or `None` past the end.
/// The SDK aborts when the stored value is no 128-bit integer; `requires`
/// rules that out.
#[verifier::external_body]
pub(crate) fn amount_at(v: &soroban_sdk::Vec<i128>, i: u32) -> (r: Option<i128>)
    requires
        holds_amounts(*v),
    ensures
        r == if i < amount_items(*v).len() {
            Some(amount_items(*v)[i as int])
        } else {
            None
        },
{
    v.get(i)
}

/// `Vec::<i128>::set`: the item at position `i` is replaced. The SDK aborts
/// when `i` is past the end; `requires` rules that out.
#[verifier::external_body]
pub(crate) fn set_amount(v: &mut soroban_sdk::Vec<i128>, i: u32, x: i128)
    requires
        i < amount_items(*old(v)).len(),
    ensures
        amount_items(*final(v)) == amount_items(*old(v)).update(i as int, x),
        holds_amounts(*old(v)) ==> holds_amounts(*final(v)),
{
    v.set(i, x)
}

/// `Vec::<i128>::push_back`: the vector grows by `x` at its end.
#[verifier::external_body]
pub(crate) fn push_amount(v: &mut soroban_sdk::Vec<i128>, x: i128)
    requires
        amount_items(*old(v)).len() < u32::MAX,
    ensures
        amount_items(*final(v)) == amount_items(*old(v)).push(x),
        holds_amounts(*old(v)) ==> holds_amounts(*final(v)),
{
    v.push_back(x)
}

} // verus!
