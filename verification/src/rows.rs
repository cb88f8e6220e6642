//! Storage rows: accounts and transactions in the plain form in which a
//! storage engine keeps them, and back.
//!
//! Keys and signatures are kept as base58 text, payloads as base64 text, and
//! unsigned 64-bit numbers in signed 64-bit columns, bit for bit.

use vstd::prelude::*;
use crate::codec::{
    address_of_text, address_text, base64_bytes, base64_decode, base64_encode, base64_text,
    signature_of_text, signature_text,
};
use crate::error::IndexerError;
use crate::text::labelled;
use crate::models::{AccountInfo, Address, Signature, TransactionInfo};

verus! {

/// An account as a storage row. The row's key is `pubkey`.
#[derive(Clone, Debug, PartialEq, Eq)]
pub struct AccountRow {
    pub pubkey: String,
    pub lamports: i64,
    pub owner: String,
    pub executable: bool,
    pub rent_epoch: i64,
    pub data: String,
}

/// A transaction as a storage row. The row's key is `signature`.
#[derive(Clone, Debug, PartialEq, Eq)]
pub struct TransactionRow {
    pub signature: String,
    pub status: String,
}

/// The signed number with the bits of `u`.
pub open spec fn as_signed(u: u64) -> i64 {
    if u <= i64::MAX {
        u as i64
    } else {
        (u - 0x1_0000_0000_0000_0000) as i64
    }
}

/// The unsigned number with the bits of `v`.
pub open spec fn as_unsigned(v: i64) -> u64 {
    if v >= 0 {
        v as u64
    } else {
        (v + 0x1_0000_0000_0000_0000) as u64
    }
}

/// Going to a signed column and back gives the number that went in, and so
/// does the other way round.
pub proof fn law_column_round_trip(u: u64, v: i64)
    ensures
        as_unsigned(as_signed(u)) == u,
        as_signed(as_unsigned(v)) == v,
{
}

/// The signed number with the bits of `u`.
pub fn to_signed(u: u64) -> (r: i64)
    ensures
        r == as_signed(u),
{
    if u <= 0x7fff_ffff_ffff_ffff {
        u as i64
    } else {
        ((u - 0x8000_0000_0000_0000) as i64) + i64::MIN
    }
}

/// The unsigned number with the bits of `v`.
pub fn to_unsigned(v: i64) -> (r: u64)
    ensures
        r == as_unsigned(v),
{
    if v >= 0 {
        v as u64
    } else {
        ((v - i64::MIN) as u64) + 0x8000_0000_0000_0000
    }
}

/// The row that holds an account.
pub fn account_row(account: &AccountInfo) -> (row: AccountRow)
    ensures
        row.pubkey@ == address_text(account.pubkey@),
        row.lamports == as_signed(account.lamports),
        row.owner@ == address_text(account.owner@),
        row.executable == account.executable,
        row.rent_epoch == as_signed(account.rent_epoch),
        row.data@ == base64_text(account.data@),
{
    AccountRow {
        pubkey: account.pubkey.to_string(),
        lamports: to_signed(account.lamports),
        owner: account.owner.to_string(),
        executable: account.executable,
        rent_epoch: to_signed(account.rent_epoch),
        data: base64_encode(account.data.as_slice()),
    }
}

/// What is wrong with an account row, if anything: the first of its key,
/// its owner and its payload that does not read back.
pub open spec fn account_row_fault(row: AccountRow) -> Option<Seq<char>> {
    if address_of_text(row.pubkey@) is None {
        Some("invalid pubkey: "@ + row.pubkey@)
    } else if address_of_text(row.owner@) is None {
        Some("invalid owner: "@ + row.owner@)
    } else if base64_bytes(row.data@) is None {
        Some("invalid data for account: "@ + row.pubkey@)
    } else {
        None
    }
}

/// The account that a row holds. A row whose key, owner or payload does not
/// read back is a storage error that says which.
pub fn account_from_row(row: &AccountRow) -> (r: Result<AccountInfo, IndexerError>)
    ensures
        match r {
            Ok(account) => {
                &&& account_row_fault(*row) is None
                &&& address_of_text(row.pubkey@) == Some(account.pubkey@)
                &&& account.lamports == as_unsigned(row.lamports)
                &&& address_of_text(row.owner@) == Some(account.owner@)
                &&& account.executable == row.executable
                &&& account.rent_epoch == as_unsigned(row.rent_epoch)
                &&& base64_bytes(row.data@) == Some(account.data@)
            },
            Err(e) => {
                &&& e matches IndexerError::StorageError(m)
                &&& account_row_fault(*row) == Some(m@)
            },
        },
{
    let pubkey = match Address::from_str(row.pubkey.as_str()) {
        Some(pubkey) => pubkey,
        None => {
            return Err(
                IndexerError::StorageError(labelled("invalid pubkey: ", row.pubkey.as_str())),
            );
        },
    };
    let owner = match Address::from_str(row.owner.as_str()) {
        Some(owner) => owner,
        None => {
            return Err(IndexerError::StorageError(labelled("invalid owner: ", row.owner.as_str())));
        },
    };
    let data = match base64_decode(row.data.as_str()) {
        Some(data) => data,
        None => {
            return Err(
                IndexerError::StorageError(
                    labelled("invalid data for account: ", row.pubkey.as_str()),
                ),
            );
        },
    };
    Ok(
        AccountInfo {
            pubkey,
            lamports: to_unsigned(row.lamports),
            owner,
            executable: row.executable,
            rent_epoch: to_unsigned(row.rent_epoch),
            data,
        },
    )
}

/// The row that holds a transaction.
pub fn transaction_row(transaction: &TransactionInfo) -> (row: TransactionRow)
    ensures
        row.signature@ == signature_text(transaction.signature@),
        row.status@ == transaction.status@,
{
    TransactionRow {
        signature: transaction.signature.to_string(),
        status: transaction.status.clone(),
    }
}

/// The transaction that a row holds. A row whose signature does not read
/// back is a storage error that names it.
pub fn transaction_from_row(row: &TransactionRow) -> (r: Result<TransactionInfo, IndexerError>)
    ensures
        match r {
            Ok(transaction) => {
                &&& signature_of_text(row.signature@) == Some(transaction.signature@)
                &&& transaction.status@ == row.status@
            },
            Err(e) => {
                &&& signature_of_text(row.signature@) is None
                &&& e matches IndexerError::StorageError(m)
                &&& m@ == "invalid signature: "@ + row.signature@
            },
        },
{
    match Signature::from_str(row.signature.as_str()) {
        Some(signature) => Ok(TransactionInfo { signature, status: row.status.clone() }),
        None => Err(
            IndexerError::StorageError(labelled("invalid signature: ", row.signature.as_str())),
        ),
    }
}

} // verus!
