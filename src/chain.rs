//! The host computations that the program relies on: address text, derived
//! addresses, and the token account layout.
use crate::error::ProcessError;
use crate::le::u64_from_le;
use solana_program::program_error::ProgramError;
use solana_program::program_pack::Pack;
use solana_program::pubkey::{Pubkey, PubkeyError};
use spl_token::state::Account as TokenAccount;
use vstd::prelude::*;
use vstd::string::StringSliceAdditionalSpecFns;

verus! {

/// The base58 text of an address.
pub uninterp spec fn address_text(key: Seq<u8>) -> Seq<char>;

/// The address derived from a base address, a text seed (its UTF-8 bytes) and
/// an owner program.
pub uninterp spec fn seeded_address(base: Seq<u8>, seed: Seq<u8>, owner: Seq<u8>) -> Seq<u8>;

/// The program authority address derived from one seed and a program, with its
/// bump nonce, or `None` where no bump gives one.
pub uninterp spec fn program_authority(seed: Seq<u8>, program_id: Seq<u8>) -> Option<(Seq<u8>, u8)>;

/// The longest seed that a seeded derivation accepts.
pub open spec fn max_seed_len() -> nat {
    32
}

/// The bytes of "ProgramDerivedAddress", which no seeded derivation accepts at
/// the end of an owner.
pub open spec fn pda_marker() -> Seq<u8> {
    seq![
        80u8, 114, 111, 103, 114, 97, 109, 68, 101, 114, 105, 118, 101, 100, 65, 100, 100, 114,
        101, 115, 115,
    ]
}

pub open spec fn ends_with_pda_marker(owner: Seq<u8>) -> bool {
    owner.subrange(11, 32) == pda_marker()
}

/// Relies on `Pubkey`'s `Display`: the base58 text of the 32 bytes, which
/// depends on the bytes alone.
#[verifier::external_body]
pub(crate) fn key_text(key: &[u8; 32]) -> (r: String)
    ensures
        r@ == address_text(key@),
{
    Pubkey::new_from_array(*key).to_string()
}

/// Relies on `Pubkey::create_with_seed`: a seed of more than 32 bytes is
/// refused, then an owner that ends with the derived-address marker; otherwise
/// the result is a hash of base, seed and owner.
#[verifier::external_body]
pub(crate) fn create_with_seed(base: &[u8; 32], seed: &str, owner: &[u8; 32]) -> (r: Result<[u8; 32], ProcessError>)
    ensures
        seed.spec_bytes().len() > max_seed_len() ==> (r is Err && r->Err_0 == ProcessError::MaxSeedLengthExceeded),
        seed.spec_bytes().len() <= max_seed_len() && ends_with_pda_marker(owner@) ==> (r is Err && r->Err_0 == ProcessError::IllegalOwner),
        seed.spec_bytes().len() <= max_seed_len() && !ends_with_pda_marker(owner@) ==> r is Ok,
        r matches Ok(a) ==> a@ == seeded_address(base@, seed.spec_bytes(), owner@),
{
    let base = Pubkey::new_from_array(*base);
    let owner = Pubkey::new_from_array(*owner);
    match Pubkey::create_with_seed(&base, seed, &owner) {
        Ok(key) => Ok(key.to_bytes()),
        Err(PubkeyError::MaxSeedLengthExceeded) => Err(ProcessError::MaxSeedLengthExceeded),
        Err(PubkeyError::InvalidSeeds) => Err(ProcessError::InvalidSeeds),
        Err(PubkeyError::IllegalOwner) => Err(ProcessError::IllegalOwner),
    }
}

/// Relies on `Pubkey::try_find_program_address`, the search behind
/// `find_program_address`: its result depends on the seed and the program alone.
#[verifier::external_body]
pub(crate) fn find_authority(seed: &[u8], program_id: &[u8; 32]) -> (r: Option<([u8; 32], u8)>)
    ensures
        r is Some <==> program_authority(seed@, program_id@) is Some,
        r matches Some(p) ==> program_authority(seed@, program_id@) == Some((p.0@, p.1)),
{
    let program_id = Pubkey::new_from_array(*program_id);
    Pubkey::try_find_program_address(&[seed], &program_id).map(|(key, nonce)| (key.to_bytes(), nonce))
}

/// The four-byte tag of an optional field at `at` is 0 (absent) or 1 (present).
pub open spec fn option_tag_ok(d: Seq<u8>, at: int) -> bool {
    (d[at] == 0 || d[at] == 1) && d[at + 1] == 0 && d[at + 2] == 0 && d[at + 3] == 0
}

/// The 165 bytes `d` decode as a token account: the tags of its delegate,
/// native amount and close authority are valid, and its state byte is 0, 1 or 2.
pub open spec fn token_account_decodable(d: Seq<u8>) -> bool {
    &&& d.len() == 165
    &&& option_tag_ok(d, 72)
    &&& d[108] <= 2
    &&& option_tag_ok(d, 109)
    &&& option_tag_ok(d, 129)
}

/// Relies on spl-token's `Account` unpack (`Pack::unpack`): a record of exactly
/// 165 bytes, strictly decoded, whose state byte is not 0 (uninitialized); the
/// amount is the little-endian `u64` at bytes 64..72.
#[verifier::external_body]
pub(crate) fn token_amount(data: &[u8]) -> (r: Result<u64, ProcessError>)
    ensures
        !token_account_decodable(data@) ==> (r is Err && r->Err_0 == ProcessError::InvalidAccountData),
        token_account_decodable(data@) && data@[108] == 0 ==> (r is Err && r->Err_0 == ProcessError::UninitializedAccount),
        token_account_decodable(data@) && data@[108] != 0 ==> (r is Ok && r->Ok_0
            == u64_from_le(data@.subrange(64, 72))),
{
    match TokenAccount::unpack(data) {
        Ok(account) => Ok(account.amount),
        Err(ProgramError::UninitializedAccount) => Err(ProcessError::UninitializedAccount),
        Err(_) => Err(ProcessError::InvalidAccountData),
    }
}

} // verus!
