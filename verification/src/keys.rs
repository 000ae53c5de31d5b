use anchor_lang::prelude::Pubkey;
use vstd::prelude::*;

verus! {

/// `Pubkey`, the account address of `solana_program` that `anchor_lang`
/// hands on: thirty-two bytes that name a party, a mint or a stored record.
/// Its contents stay hidden here. Two addresses are the same value exactly
/// when they hold the same bytes.
#[verifier::external_type_specification]
#[verifier::external_body]
pub struct ExPubkey(Pubkey);

/// `Pubkey`'s `==`, the `PartialEq::eq` that is derived over its thirty-two
/// bytes: the answer is `true` exactly when both are the same address. This is
/// taken on trust from `Pubkey`'s definition; nothing here proves it.
#[verifier::external_body]
pub(crate) fn same_key(a: &Pubkey, b: &Pubkey) -> (same: bool)
    ensures
        same == (*a == *b),
{
    a == b
}

/// Whether an optional address is present and names `key`.
pub(crate) fn names_key(slot: &Option<Pubkey>, key: &Pubkey) -> (named: bool)
    ensures
        named == (*slot == Some(*key)),
{
    match slot {
        Some(held) => same_key(held, key),
        None => false,
    }
}

} // verus!
