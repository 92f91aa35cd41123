//! Transfer records and the values they are built from.
use vstd::prelude::*;

verus! {

/// Identifies an external ledger that a transfer can come from or go to.
#[derive(Clone, Copy, Debug, PartialEq, Eq, Structural)]
pub enum ChainKind {
    Eth,
    Near,
    Sol,
    Arb,
    Base,
    Bnb,
    Btc,
    Zcash,
    Dcr,
}

/// Whether addresses of this chain are spent from unspent transaction outputs.
pub open spec fn is_utxo_chain(c: ChainKind) -> bool {
    c == ChainKind::Btc || c == ChainKind::Zcash || c == ChainKind::Dcr
}

/// An address tagged with the chain it belongs to.
#[derive(Clone, Debug)]
pub enum OmniAddress {
    Eth(String),
    Near(String),
    Sol(String),
    Arb(String),
    Base(String),
    Bnb(String),
    Btc(String),
    Zcash(String),
    Dcr(String),
}

impl View for OmniAddress {
    /// The chain and the characters of the address.
    type V = (ChainKind, Seq<char>);

    open spec fn view(&self) -> (ChainKind, Seq<char>) {
        match self {
            OmniAddress::Eth(a) => (ChainKind::Eth, a@),
            OmniAddress::Near(a) => (ChainKind::Near, a@),
            OmniAddress::Sol(a) => (ChainKind::Sol, a@),
            OmniAddress::Arb(a) => (ChainKind::Arb, a@),
            OmniAddress::Base(a) => (ChainKind::Base, a@),
            OmniAddress::Bnb(a) => (ChainKind::Bnb, a@),
            OmniAddress::Btc(a) => (ChainKind::Btc, a@),
            OmniAddress::Zcash(a) => (ChainKind::Zcash, a@),
            OmniAddress::Dcr(a) => (ChainKind::Dcr, a@),
        }
    }
}

impl OmniAddress {
    /// The address text, whatever the chain.
    fn address(&self) -> (r: &String)
        ensures
            r@ == self@.1,
    {
        match self {
            OmniAddress::Eth(a) => a,
            OmniAddress::Near(a) => a,
            OmniAddress::Sol(a) => a,
            OmniAddress::Arb(a) => a,
            OmniAddress::Base(a) => a,
            OmniAddress::Bnb(a) => a,
            OmniAddress::Btc(a) => a,
            OmniAddress::Zcash(a) => a,
            OmniAddress::Dcr(a) => a,
        }
    }

    pub fn get_chain(&self) -> (r: ChainKind)
        ensures
            r == self@.0,
    {
        match self {
            OmniAddress::Eth(_) => ChainKind::Eth,
            OmniAddress::Near(_) => ChainKind::Near,
            OmniAddress::Sol(_) => ChainKind::Sol,
            OmniAddress::Arb(_) => ChainKind::Arb,
            OmniAddress::Base(_) => ChainKind::Base,
            OmniAddress::Bnb(_) => ChainKind::Bnb,
            OmniAddress::Btc(_) => ChainKind::Btc,
            OmniAddress::Zcash(_) => ChainKind::Zcash,
            OmniAddress::Dcr(_) => ChainKind::Dcr,
        }
    }

    /// The address text when the address belongs to a UTXO chain.
    pub fn get_utxo_address(&self) -> (r: Option<String>)
        ensures
            r.is_some() == is_utxo_chain(self@.0),
            r matches Some(a) ==> a@ == self@.1,
    {
        match self {
            OmniAddress::Btc(a) => Some(a.clone()),
            OmniAddress::Zcash(a) => Some(a.clone()),
            OmniAddress::Dcr(a) => Some(a.clone()),
            _ => None,
        }
    }

    /// Whether both addresses name the same chain and the same text.
    pub fn same_as(&self, other: &OmniAddress) -> (r: bool)
        ensures
            r == (self@ == other@),
    {
        let c = self.get_chain() == other.get_chain();
        let a = self.address().eq(other.address());
        proof {
            if c && a {
                assert(self@ == other@);
            }
        }
        c && a
    }
}

/// The protocol fee of a transfer: a share of the token amount and a native-token part.
#[derive(Clone, Copy, Debug, PartialEq, Eq, Structural)]
pub struct Fee {
    pub fee: u128,
    pub native_fee: u128,
}

/// Identifies a transfer by the chain it started on and its nonce there.
#[derive(Clone, Copy, Debug, PartialEq, Eq, Structural)]
pub struct TransferId {
    pub origin_chain: ChainKind,
    pub origin_nonce: u64,
}

/// The authoritative record of a cross-chain transfer.
#[derive(Debug)]
pub struct TransferMessage {
    pub origin_nonce: u64,
    pub token: OmniAddress,
    pub amount: u128,
    pub recipient: OmniAddress,
    pub fee: Fee,
    pub sender: OmniAddress,
    /// Free-form metadata; for a UTXO chain it may bind a maximum fee rate.
    pub msg: String,
    pub destination_nonce: u64,
}

impl TransferMessage {
    /// The identifier under which the record is kept.
    pub open spec fn transfer_id_spec(&self) -> TransferId {
        TransferId { origin_chain: self.sender@.0, origin_nonce: self.origin_nonce }
    }

    pub fn get_transfer_id(&self) -> (r: TransferId)
        ensures
            r == self.transfer_id_spec(),
    {
        TransferId { origin_chain: self.sender.get_chain(), origin_nonce: self.origin_nonce }
    }

    pub fn get_destination_chain(&self) -> (r: ChainKind)
        ensures
            r == self.recipient@.0,
    {
        self.recipient.get_chain()
    }
}

} // verus!
