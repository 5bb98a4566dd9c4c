//! Account keys. A key is an opaque 32-byte identity supplied by the host;
//! the ledger only compares keys and recognises the all-zero key that marks a
//! record nobody has written yet.

use anchor_lang::prelude::Pubkey;
use vstd::prelude::*;

verus! {

/// `Pubkey`, the account key of the chain, taken as it is. Nothing of its
/// inside is visible to the proofs.
#[verifier::external_type_specification]
#[verifier::external_body]
pub struct ExPubkey(Pubkey);

/// The 32 bytes that `key` holds. Trusted: a `Pubkey` is a newtype over
/// `[u8; 32]` and nothing else, so that its bytes say all there is to a key.
pub uninterp spec fn key_bytes(key: Pubkey) -> Seq<u8>;

/// The bytes of the key that a freshly allocated record carries: 32 zeros.
pub open spec fn unset_key_bytes() -> Seq<u8> {
    Seq::new(32, |i: int| 0u8)
}

/// True when `key` is the all-zero key of a record that was never written.
pub open spec fn is_unset(key: Pubkey) -> bool {
    key_bytes(key) == unset_key_bytes()
}

/// True when the two keys name the same account.
pub open spec fn same_key(a: Pubkey, b: Pubkey) -> bool {
    key_bytes(a) == key_bytes(b)
}

/// `Pubkey`'s `clone`. Trusted: a key is `Copy`, and its clone is the key
/// itself.
pub assume_specification[ <Pubkey as Clone>::clone ](key: &Pubkey) -> (copy: Pubkey)
    ensures
        copy == *key,
;

/// `Pubkey::default()`. Trusted: the derived `Default` of the 32-byte
/// newtype yields the key whose bytes are all zero.
#[verifier::external_body]
pub(crate) fn default_key() -> (key: Pubkey)
    ensures
        key_bytes(key) == unset_key_bytes(),
{
    Pubkey::default()
}

/// `Pubkey`'s `==`. Trusted: the derived `PartialEq` of the 32-byte newtype
/// holds exactly when the two keys have the same bytes.
#[verifier::external_body]
pub(crate) fn keys_equal(a: &Pubkey, b: &Pubkey) -> (same: bool)
    ensures
        same == same_key(*a, *b),
{
    a == b
}

/// Whether `key` is the all-zero key.
pub fn key_is_unset(key: &Pubkey) -> (unset: bool)
    ensures
        unset == is_unset(*key),
{
    let zero = default_key();
    keys_equal(key, &zero)
}

} // verus!
