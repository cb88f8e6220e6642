//! The values that flow through the indexer: addresses, account snapshots,
//! transaction records and the events that carry them.

use vstd::prelude::*;
use crate::codec::{
    address_of_text, address_text, pubkey_from_str, pubkey_to_string, signature_from_str,
    signature_of_text, signature_text, signature_to_string,
};

verus! {

/// The address of an account or of a program.
///
/// Two addresses are the same address exactly when their bytes agree, so the
/// view of an address is its byte sequence.
#[derive(Clone, Copy, Debug, Eq)]
pub struct Address {
    pub bytes: [u8; 32],
}

impl View for Address {
    type V = Seq<u8>;

    open spec fn view(&self) -> Seq<u8> {
        self.bytes@
    }
}

impl PartialEq for Address {
    fn eq(&self, other: &Address) -> (r: bool) {
        let mut i: usize = 0;
        while i < 32
            invariant
                i <= 32,
                forall|j: int| 0 <= j < i ==> self.bytes@[j] == other.bytes@[j],
            decreases 32 - i,
        {
            if self.bytes[i] != other.bytes[i] {
                return false;
            }
            i += 1;
        }
        assert(self.bytes@ =~= other.bytes@);
        true
    }
}

impl vstd::std_specs::cmp::PartialEqSpecImpl for Address {
    open spec fn obeys_eq_spec() -> bool {
        true
    }

    open spec fn eq_spec(&self, other: &Address) -> bool {
        self@ == other@
    }
}

impl Address {
    /// Wraps 32 bytes as an address.
    pub fn new_from_array(bytes: [u8; 32]) -> (r: Address)
        ensures
            r@ == bytes@,
            r.bytes == bytes,
    {
        Address { bytes }
    }

    /// The 32 bytes of the address.
    pub fn to_bytes(&self) -> (r: [u8; 32])
        ensures
            r@ == self@,
            r == self.bytes,
    {
        self.bytes
    }

    /// The address as text, in base58.
    pub fn to_string(&self) -> (r: String)
        ensures
            r@ == address_text(self@),
    {
        pubkey_to_string(self.bytes)
    }

    /// Reads an address from its text; nothing where the text is not the
    /// text of an address.
    pub fn from_str(text: &str) -> (r: Option<Address>)
        ensures
            match r {
                Some(a) => address_of_text(text@) == Some(a@),
                None => address_of_text(text@) is None,
            },
    {
        match pubkey_from_str(text) {
            Some(bytes) => Some(Address { bytes }),
            None => None,
        }
    }
}

/// The signature that identifies a transaction.
#[derive(Clone, Copy, Debug, Eq)]
pub struct Signature {
    pub bytes: [u8; 64],
}

impl View for Signature {
    type V = Seq<u8>;

    open spec fn view(&self) -> Seq<u8> {
        self.bytes@
    }
}

impl PartialEq for Signature {
    fn eq(&self, other: &Signature) -> (r: bool) {
        let mut i: usize = 0;
        while i < 64
            invariant
                i <= 64,
                forall|j: int| 0 <= j < i ==> self.bytes@[j] == other.bytes@[j],
            decreases 64 - i,
        {
            if self.bytes[i] != other.bytes[i] {
                return false;
            }
            i += 1;
        }
        assert(self.bytes@ =~= other.bytes@);
        true
    }
}

impl vstd::std_specs::cmp::PartialEqSpecImpl for Signature {
    open spec fn obeys_eq_spec() -> bool {
        true
    }

    open spec fn eq_spec(&self, other: &Signature) -> bool {
        self@ == other@
    }
}

impl Signature {
    /// Wraps 64 bytes as a signature.
    pub fn new_from_array(bytes: [u8; 64]) -> (r: Signature)
        ensures
            r@ == bytes@,
            r.bytes == bytes,
    {
        Signature { bytes }
    }

    /// The signature as text, in base58.
    pub fn to_string(&self) -> (r: String)
        ensures
            r@ == signature_text(self@),
    {
        signature_to_string(self.bytes)
    }

    /// Reads a signature from its text; nothing where the text is not the
    /// text of a signature.
    pub fn from_str(text: &str) -> (r: Option<Signature>)
        ensures
            match r {
                Some(s) => signature_of_text(text@) == Some(s@),
                None => signature_of_text(text@) is None,
            },
    {
        match signature_from_str(text) {
            Some(bytes) => Some(Signature { bytes }),
            None => None,
        }
    }
}

/// The state of one account at one moment. A later snapshot of the same
/// address supersedes an earlier one; a snapshot itself is never changed.
#[derive(Clone, Debug, PartialEq, Eq)]
pub struct AccountInfo {
    pub pubkey: Address,
    pub lamports: u64,
    pub owner: Address,
    pub executable: bool,
    pub rent_epoch: u64,
    pub data: Vec<u8>,
}

/// A transaction as a provider reported it: its signature and the status
/// document that came with it, carried through unread.
#[derive(Clone, Debug, PartialEq, Eq)]
pub struct TransactionInfo {
    pub signature: Signature,
    pub status: String,
}

/// What a provider hands to the pipeline.
#[derive(Clone, Debug, PartialEq, Eq)]
pub enum UpdateEvent {
    AccountUpdate(AccountInfo),
    TransactionUpdate(TransactionInfo),
}

} // verus!
