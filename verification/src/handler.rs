use vstd::prelude::*;
use crate::error::ErrorKind;
use crate::fees::{FeeSplit, spec_fee_split, compute_fee_split};
use crate::identity::{Identity, dev_wallet_bytes, get_dev_wallet};
use crate::payload::{le_bytes_to_u64, parse_transfer_amount};
use crate::token::{balance_record_decodes, read_token_balance};

verus! {

/// One ledger account as the handler sees it: its identity, whether its key
/// signed the current call, and a borrowed copy of its data region. Roles
/// are positional: the handler expects the accounts in the fixed order
/// source, destination, treasury, developer, token mint, authority.
pub struct AccountRef {
    pub key: Identity,
    pub is_signer: bool,
    pub data: Vec<u8>,
}

/// What the handler returns for a given account list and payload: the first
/// violated precondition's error, in the fixed validation order, or the fee
/// split of the decoded amount.
pub open spec fn spec_process(accounts: Seq<AccountRef>, payload: Seq<u8>) -> Result<
    FeeSplit,
    ErrorKind,
> {
    if accounts.len() < 6 {
        Err(ErrorKind::NotEnoughAccounts)
    } else if !accounts[5].is_signer {
        Err(ErrorKind::MissingRequiredSignature)
    } else if accounts[3].key@ != dev_wallet_bytes() {
        Err(ErrorKind::InvalidAccountData)
    } else if !balance_record_decodes(accounts[0].data@) {
        Err(ErrorKind::InvalidAccountData)
    } else if !balance_record_decodes(accounts[1].data@) {
        Err(ErrorKind::InvalidAccountData)
    } else if payload.len() != 8 {
        Err(ErrorKind::InvalidInstructionData)
    } else {
        Ok(spec_fee_split(le_bytes_to_u64(payload) as u64))
    }
}

/// Processes one taxed-transfer instruction.
///
/// Validation runs fail-fast in a fixed order: enough accounts, authority
/// signed, developer account pinned to the fixed wallet, source and
/// destination balance records decodable, payload exactly eight bytes.
/// On success the decoded amount's fee split is returned for the caller to
/// apply; the handler moves no value itself.
pub fn process_instruction(
    _program_id: &Identity,
    accounts: &[AccountRef],
    payload: &[u8],
) -> (r: Result<FeeSplit, ErrorKind>)
    ensures
        r == spec_process(accounts@, payload@),
{
    if accounts.len() < 6 {
        return Err(ErrorKind::NotEnoughAccounts);
    }
    let source_account = &accounts[0];
    let destination_account = &accounts[1];
    let _treasury_account = &accounts[2];
    let developer_account = &accounts[3];
    let _token_mint = &accounts[4];
    let authority = &accounts[5];

    if !authority.is_signer {
        return Err(ErrorKind::MissingRequiredSignature);
    }
    let dev_wallet = get_dev_wallet();
    if !developer_account.key.matches(&dev_wallet) {
        return Err(ErrorKind::InvalidAccountData);
    }
    let _source_balance = match read_token_balance(source_account.data.as_slice()) {
        Ok(balance) => balance,
        Err(e) => { return Err(e) },
    };
    let _destination_balance = match read_token_balance(destination_account.data.as_slice()) {
        Ok(balance) => balance,
        Err(e) => { return Err(e) },
    };
    let transfer_amount = match parse_transfer_amount(payload) {
        Ok(amount) => amount,
        Err(e) => { return Err(e) },
    };
    Ok(compute_fee_split(transfer_amount))
}

} // verus!
