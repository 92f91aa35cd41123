//! The registry of pending transfers and the token configuration of the bridge.
use vstd::prelude::*;
use crate::types::{ChainKind, OmniAddress, TransferId, TransferMessage};

verus! {

/// A pending transfer together with the account that owns its storage.
#[derive(Debug)]
pub struct PendingTransfer {
    pub message: TransferMessage,
    pub owner: String,
}

/// Binds a token address on some chain to its token account on the host ledger.
#[derive(Debug)]
pub struct TokenRegistration {
    pub token: OmniAddress,
    pub token_id: String,
}

/// The wrapped native token of a UTXO chain and the connector that settles it.
#[derive(Debug)]
pub struct UtxoChainConfig {
    pub chain: ChainKind,
    pub token_id: String,
    pub connector: String,
}

/// The newest registration of `token`, if any.
pub open spec fn lookup_token(s: Seq<TokenRegistration>, token: (ChainKind, Seq<char>)) -> Option<String>
    decreases s.len(),
{
    if s.len() == 0 {
        None
    } else if s.last().token@ == token {
        Some(s.last().token_id)
    } else {
        lookup_token(s.drop_last(), token)
    }
}

/// The newest configuration of `chain`, if any.
pub open spec fn lookup_utxo_chain(s: Seq<UtxoChainConfig>, chain: ChainKind) -> Option<UtxoChainConfig>
    decreases s.len(),
{
    if s.len() == 0 {
        None
    } else if s.last().chain == chain {
        Some(s.last())
    } else {
        lookup_utxo_chain(s.drop_last(), chain)
    }
}

/// `pending` with `message` put back under its own identifier.
pub open spec fn reinstate(
    pending: Map<TransferId, PendingTransfer>,
    message: TransferMessage,
    owner: String,
) -> Map<TransferId, PendingTransfer> {
    pending.insert(message.transfer_id_spec(), PendingTransfer { message, owner })
}

/// Pending transfers by identifier, and the configuration that withdrawals are checked against.
pub struct Bridge {
    pending: Vec<PendingTransfer>,
    pending_view: Ghost<Map<TransferId, PendingTransfer>>,
    tokens: Vec<TokenRegistration>,
    utxo_chains: Vec<UtxoChainConfig>,
    transfer_call_gas: u64,
}

impl Bridge {
    /// The pending transfers, each under its own identifier.
    pub closed spec fn pending_map(&self) -> Map<TransferId, PendingTransfer> {
        self.pending_view@
    }

    /// The host account of the token at `token`, if it has one.
    pub open spec fn token_id_spec(&self, token: OmniAddress) -> Option<String> {
        match token {
            OmniAddress::Near(a) => Some(a),
            _ => lookup_token(self.token_registrations(), token@),
        }
    }

    pub closed spec fn token_registrations(&self) -> Seq<TokenRegistration> {
        self.tokens@
    }

    pub closed spec fn utxo_chain_configs(&self) -> Seq<UtxoChainConfig> {
        self.utxo_chains@
    }

    pub open spec fn utxo_chain_spec(&self, chain: ChainKind) -> Option<UtxoChainConfig> {
        lookup_utxo_chain(self.utxo_chain_configs(), chain)
    }

    /// Gas that the call into the settlement contract is given.
    pub closed spec fn transfer_call_gas_spec(&self) -> u64 {
        self.transfer_call_gas
    }

    /// Everything but the pending transfers.
    pub open spec fn same_config(&self, other: Bridge) -> bool {
        &&& self.token_registrations() == other.token_registrations()
        &&& self.utxo_chain_configs() == other.utxo_chain_configs()
        &&& self.transfer_call_gas_spec() == other.transfer_call_gas_spec()
    }

    /// The vector holds each pending transfer once, under its own identifier.
    pub closed spec fn wf(&self) -> bool {
        let s = self.pending@;
        let m = self.pending_view@;
        &&& forall|i: int|
            0 <= i < s.len() ==> m.contains_key(#[trigger] s[i].message.transfer_id_spec())
                && m[s[i].message.transfer_id_spec()] == s[i]
        &&& forall|id: TransferId|
            #[trigger] m.contains_key(id) ==> exists|i: int|
                0 <= i < s.len() && #[trigger] s[i].message.transfer_id_spec() == id
        &&& forall|i: int, j: int|
            0 <= i < s.len() && 0 <= j < s.len() && i != j ==> #[trigger] s[i].message.transfer_id_spec()
                != #[trigger] s[j].message.transfer_id_spec()
    }

    /// Each pending transfer is kept under its own identifier.
    pub proof fn lemma_kept_under_own_id(&self, id: TransferId)
        requires
            self.wf(),
            self.pending_map().contains_key(id),
        ensures
            self.pending_map()[id].message.transfer_id_spec() == id,
    {
        let s = self.pending@;
        let i = choose|i: int| 0 <= i < s.len() && #[trigger] s[i].message.transfer_id_spec() == id;
        assert(self.pending_view@.contains_key(s[i].message.transfer_id_spec()));
    }

    /// A bridge with no pending transfer and no token configured.
    pub fn new(transfer_call_gas: u64) -> (r: Bridge)
        ensures
            r.wf(),
            r.pending_map() == Map::<TransferId, PendingTransfer>::empty(),
            r.token_registrations() == Seq::<TokenRegistration>::empty(),
            r.utxo_chain_configs() == Seq::<UtxoChainConfig>::empty(),
            r.transfer_call_gas_spec() == transfer_call_gas,
    {
        Bridge {
            pending: Vec::new(),
            pending_view: Ghost(Map::empty()),
            tokens: Vec::new(),
            utxo_chains: Vec::new(),
            transfer_call_gas,
        }
    }

    pub fn transfer_call_gas(&self) -> (r: u64)
        ensures
            r == self.transfer_call_gas_spec(),
    {
        self.transfer_call_gas
    }

    /// Binds `token` to `token_id`; a later registration of the same address wins.
    pub fn register_token(&mut self, token: OmniAddress, token_id: String)
        requires
            old(self).wf(),
        ensures
            final(self).wf(),
            final(self).pending_map() == old(self).pending_map(),
            final(self).utxo_chain_configs() == old(self).utxo_chain_configs(),
            final(self).transfer_call_gas_spec() == old(self).transfer_call_gas_spec(),
            final(self).token_registrations() == old(self).token_registrations().push(
                TokenRegistration { token, token_id },
            ),
    {
        self.tokens.push(TokenRegistration { token, token_id });
    }

    /// Sets the wrapped token and the connector of a UTXO chain; a later call for the same chain wins.
    pub fn set_utxo_chain(&mut self, chain: ChainKind, token_id: String, connector: String)
        requires
            old(self).wf(),
        ensures
            final(self).wf(),
            final(self).pending_map() == old(self).pending_map(),
            final(self).token_registrations() == old(self).token_registrations(),
            final(self).transfer_call_gas_spec() == old(self).transfer_call_gas_spec(),
            final(self).utxo_chain_configs() == old(self).utxo_chain_configs().push(
                UtxoChainConfig { chain, token_id, connector },
            ),
    {
        self.utxo_chains.push(UtxoChainConfig { chain, token_id, connector });
    }

    /// The host account of the token at `token`: the account itself for a host address,
    /// else the newest registration.
    pub fn get_token_id(&self, token: &OmniAddress) -> (r: Option<String>)
        ensures
            r == self.token_id_spec(*token),
    {
        match token {
            OmniAddress::Near(a) => {
                return Some(a.clone());
            },
            _ => {},
        }
        let mut i: usize = self.tokens.len();
        assert(self.tokens@.subrange(0, i as int) =~= self.tokens@);
        while i > 0
            invariant
                i <= self.tokens@.len(),
                self.token_id_spec(*token) == lookup_token(self.tokens@, token@),
                lookup_token(self.tokens@, token@) == lookup_token(self.tokens@.subrange(0, i as int), token@),
            decreases i,
        {
            let ghost prefix = self.tokens@.subrange(0, i as int);
            assert(prefix.drop_last() =~= self.tokens@.subrange(0, i - 1));
            assert(prefix.last() == self.tokens@[i - 1]);
            if self.tokens[i - 1].token.same_as(token) {
                return Some(self.tokens[i - 1].token_id.clone());
            }
            i = i - 1;
        }
        None
    }

    /// The configuration of `chain`, if it has one.
    pub fn get_utxo_chain(&self, chain: ChainKind) -> (r: Option<&UtxoChainConfig>)
        ensures
            r matches Some(c) ==> self.utxo_chain_spec(chain) == Some(*c),
            r is None ==> self.utxo_chain_spec(chain) is None,
    {
        let mut i: usize = self.utxo_chains.len();
        assert(self.utxo_chains@.subrange(0, i as int) =~= self.utxo_chains@);
        while i > 0
            invariant
                i <= self.utxo_chains@.len(),
                lookup_utxo_chain(self.utxo_chains@, chain) == lookup_utxo_chain(
                    self.utxo_chains@.subrange(0, i as int),
                    chain,
                ),
            decreases i,
        {
            let ghost prefix = self.utxo_chains@.subrange(0, i as int);
            assert(prefix.drop_last() =~= self.utxo_chains@.subrange(0, i - 1));
            assert(prefix.last() == self.utxo_chains@[i - 1]);
            if self.utxo_chains[i - 1].chain == chain {
                return Some(&self.utxo_chains[i - 1]);
            }
            i = i - 1;
        }
        None
    }

    pub closed spec fn pending_len(&self) -> nat {
        self.pending@.len()
    }

    pub closed spec fn pending_entry(&self, i: int) -> PendingTransfer {
        self.pending@[i]
    }

    /// The pending transfer at position `i`.
    pub(crate) fn pending_at(&self, i: usize) -> (r: &PendingTransfer)
        requires
            i < self.pending_len(),
        ensures
            *r == self.pending_entry(i as int),
    {
        &self.pending[i]
    }

    /// The position of the pending transfer `id`.
    pub(crate) fn find_pending(&self, id: TransferId) -> (r: Option<usize>)
        requires
            self.wf(),
        ensures
            r matches Some(i) ==> i < self.pending_len() && self.pending_map().contains_key(id)
                && self.pending_entry(i as int) == self.pending_map()[id]
                && self.pending_entry(i as int).message.transfer_id_spec() == id,
            r is None ==> !self.pending_map().contains_key(id),
    {
        let mut i: usize = 0;
        while i < self.pending.len()
            invariant
                i <= self.pending@.len(),
                self.wf(),
                forall|j: int| 0 <= j < i ==> #[trigger] self.pending@[j].message.transfer_id_spec() != id,
            decreases self.pending@.len() - i,
        {
            if self.pending[i].message.get_transfer_id() == id {
                assert(self.pending_view@.contains_key(self.pending@[i as int].message.transfer_id_spec()));
                return Some(i);
            }
            i = i + 1;
        }
        None
    }

    /// Whether a transfer is pending under `id`.
    pub fn is_pending(&self, id: TransferId) -> (r: bool)
        requires
            self.wf(),
        ensures
            r == self.pending_map().contains_key(id),
    {
        match self.find_pending(id) {
            Some(_) => true,
            None => false,
        }
    }

    /// The pending transfer under `id`, if any.
    pub fn get_transfer(&self, id: TransferId) -> (r: Option<&PendingTransfer>)
        requires
            self.wf(),
        ensures
            r is Some == self.pending_map().contains_key(id),
            r matches Some(p) ==> *p == self.pending_map()[id],
    {
        match self.find_pending(id) {
            Some(i) => Some(&self.pending[i]),
            None => None,
        }
    }

    /// Takes the transfer at position `i` out of the registry.
    pub(crate) fn take_pending(&mut self, i: usize) -> (r: PendingTransfer)
        requires
            old(self).wf(),
            i < old(self).pending_len(),
        ensures
            final(self).wf(),
            final(self).same_config(*old(self)),
            r == old(self).pending_entry(i as int),
            old(self).pending_map().contains_key(r.message.transfer_id_spec()),
            r == old(self).pending_map()[r.message.transfer_id_spec()],
            final(self).pending_map() == old(self).pending_map().remove(r.message.transfer_id_spec()),
    {
        let ghost s = self.pending@;
        let ghost m = self.pending_view@;
        let ghost id = s[i as int].message.transfer_id_spec();
        let r = self.pending.remove(i);
        self.pending_view = Ghost(m.remove(id));
        proof {
            let s2 = self.pending@;
            let m2 = self.pending_view@;
            assert forall|j: int| 0 <= j < s2.len() implies m2.contains_key(
                #[trigger] s2[j].message.transfer_id_spec(),
            ) && m2[s2[j].message.transfer_id_spec()] == s2[j] by {
                if j < i {
                    assert(s2[j] == s[j]);
                } else {
                    assert(s2[j] == s[j + 1]);
                }
            }
            assert forall|id2: TransferId| #[trigger] m2.contains_key(id2) implies exists|j: int|
                0 <= j < s2.len() && #[trigger] s2[j].message.transfer_id_spec() == id2 by {
                let k = choose|k: int| 0 <= k < s.len() && #[trigger] s[k].message.transfer_id_spec() == id2;
                if k < i {
                    assert(s2[k] == s[k]);
                } else {
                    assert(s2[k - 1] == s[k]);
                }
            }
            assert forall|a: int, b: int|
                0 <= a < s2.len() && 0 <= b < s2.len() && a != b implies #[trigger] s2[a].message.transfer_id_spec()
                != #[trigger] s2[b].message.transfer_id_spec() by {
                let a0 = if a < i { a } else { a + 1 };
                let b0 = if b < i { b } else { b + 1 };
                assert(s2[a] == s[a0]);
                assert(s2[b] == s[b0]);
            }
        }
        r
    }

    /// Adds a transfer under its own identifier; refused when one is already pending there.
    pub fn insert_raw_transfer(&mut self, message: TransferMessage, owner: String) -> (r: Result<(), crate::DcrError>)
        requires
            old(self).wf(),
        ensures
            final(self).wf(),
            final(self).same_config(*old(self)),
            old(self).pending_map().contains_key(message.transfer_id_spec()) ==> r == Err::<(), crate::DcrError>(
                crate::DcrError::TransferAlreadyPending,
            ) && *final(self) == *old(self),
            !old(self).pending_map().contains_key(message.transfer_id_spec()) ==> r is Ok
                && final(self).pending_map() == reinstate(old(self).pending_map(), message, owner),
    {
        let id = message.get_transfer_id();
        if self.find_pending(id).is_some() {
            return Err(crate::DcrError::TransferAlreadyPending);
        }
        let ghost s = self.pending@;
        let ghost m = self.pending_view@;
        let p = PendingTransfer { message, owner };
        let ghost pv = p;
        self.pending.push(p);
        self.pending_view = Ghost(m.insert(id, pv));
        proof {
            let s2 = self.pending@;
            let m2 = self.pending_view@;
            assert forall|j: int| 0 <= j < s2.len() implies m2.contains_key(
                #[trigger] s2[j].message.transfer_id_spec(),
            ) && m2[s2[j].message.transfer_id_spec()] == s2[j] by {
                if j < s.len() {
                    assert(s2[j] == s[j]);
                }
            }
            assert forall|id2: TransferId| #[trigger] m2.contains_key(id2) implies exists|j: int|
                0 <= j < s2.len() && #[trigger] s2[j].message.transfer_id_spec() == id2 by {
                if id2 != id {
                    let k = choose|k: int| 0 <= k < s.len() && #[trigger] s[k].message.transfer_id_spec() == id2;
                    assert(s2[k] == s[k]);
                } else {
                    assert(s2[s.len() as int] == pv);
                    assert(s2[s.len() as int].message.transfer_id_spec() == id2);
                }
            }
            assert forall|a: int, b: int|
                0 <= a < s2.len() && 0 <= b < s2.len() && a != b implies #[trigger] s2[a].message.transfer_id_spec()
                != #[trigger] s2[b].message.transfer_id_spec() by {
                if a < s.len() {
                    assert(s2[a] == s[a]);
                }
                if b < s.len() {
                    assert(s2[b] == s[b]);
                }
            }
        }
        Ok(())
    }
}

} // verus!
