use vstd::prelude::*;
use crate::error::ErrorKind;
use crate::payload::le_bytes_to_u64;

verus! {

/// A four-byte optional-field marker as the token ledger's account layout
/// writes it: exactly 0,0,0,0 (absent) or 1,0,0,0 (present).
pub open spec fn coption_tag_valid(data: Seq<u8>, at: int) -> bool {
    &&& (data[at] == 0 || data[at] == 1)
    &&& data[at + 1] == 0
    &&& data[at + 2] == 0
    &&& data[at + 3] == 0
}

/// When a byte region decodes as an initialized balance record of the token
/// ledger's fixed 165-byte layout: the three optional-field markers (the
/// delegate at offset 72, the native marker at offset 109, the close
/// authority at offset 129) must be well formed, and the state byte at
/// offset 108 must mark the account initialized (1) or frozen (2).
pub open spec fn balance_record_decodes(data: Seq<u8>) -> bool {
    &&& data.len() == 165
    &&& coption_tag_valid(data, 72)
    &&& (data[108] == 1 || data[108] == 2)
    &&& coption_tag_valid(data, 109)
    &&& coption_tag_valid(data, 129)
}

/// The balance a well-formed record holds: the little-endian unsigned
/// 64-bit amount field at offsets 64 through 71.
pub open spec fn balance_record_amount(data: Seq<u8>) -> int
    recommends
        balance_record_decodes(data),
{
    le_bytes_to_u64(data.subrange(64, 72))
}

/// Relies on `spl_token::state::Account::unpack`, the token ledger's
/// fixed-layout balance-record decoder: it succeeds exactly on a 165-byte
/// buffer whose three optional-field markers are well formed and whose
/// state byte marks the account initialized or frozen, and then returns
/// the little-endian amount field at offset 64.
#[verifier::external_body]
fn unpack_balance(data: &[u8]) -> (r: Option<u64>)
    ensures
        r is Some <==> balance_record_decodes(data@),
        r is Some ==> r == Some::<u64>(balance_record_amount(data@) as u64),
{
    match <spl_token::state::Account as spl_token::solana_program::program_pack::Pack>::unpack(
        data,
    ) {
        Ok(account) => Some(account.amount),
        Err(_) => None,
    }
}

/// Reads the token balance held in an account's data region, or reports the
/// region as invalid account data when it is not a decodable, initialized
/// balance record.
pub fn read_token_balance(data: &[u8]) -> (r: Result<u64, ErrorKind>)
    ensures
        balance_record_decodes(data@)
            ==> r == Ok::<u64, ErrorKind>(balance_record_amount(data@) as u64),
        !balance_record_decodes(data@)
            ==> r == Err::<u64, ErrorKind>(ErrorKind::InvalidAccountData),
{
    match unpack_balance(data) {
        Some(amount) => Ok(amount),
        None => Err(ErrorKind::InvalidAccountData),
    }
}

} // verus!
