//! Plain data types shared by the contract entry points.

use vstd::prelude::*;

verus! {

/// Errors returned by the contract entry points.
#[derive(Copy, Clone, Debug, PartialEq, Eq, PartialOrd, Ord, Structural)]
pub enum ContractError {
    AlreadyInitialized,
    NotInitialized,
    NotAdmin,
    NoPendingUpgrade,
    UpgradeTimelockNotSatisfied,
    InvalidHeartbeatInterval,
    InvalidNonce,
    AlreadyRegistered,
    NotRegistered,
    InvalidStakeAmount,
    Overflow,
    Unauthorized,
    TargetNotAdmin,
    ProposalAlreadyActive,
    NoActiveProposal,
    AlreadyVoted,
    ThresholdNotReached,
    SignatureExpired,
}

/// The kind of ledger entity an address designates.
#[derive(Copy, Clone, Debug, PartialEq, Eq, Structural)]
pub enum AddressKind {
    /// An account, identified by its Ed25519 public key.
    Account,
    /// A contract, identified by its contract id hash.
    Contract,
}

/// A ledger address: its kind and its 256-bit key (public key or contract
/// id), split into the high and low 128 bits of the big-endian key.
#[derive(Copy, Clone, Debug, PartialEq, Eq, Structural)]
pub struct Address {
    pub kind: AddressKind,
    pub key_hi: u128,
    pub key_lo: u128,
}

impl View for Address {
    type V = Address;

    open spec fn view(&self) -> Address {
        *self
    }
}

/// An asset symbol: its characters (`a-zA-Z0-9_`) as bytes.
#[derive(Clone, Debug, PartialEq, Eq)]
pub struct Symbol {
    pub chars: Vec<u8>,
}

impl View for Symbol {
    type V = Seq<u8>;

    open spec fn view(&self) -> Seq<u8> {
        self.chars@
    }
}

impl Symbol {
    /// The symbol spelled by `chars`.
    pub fn from_chars(chars: Vec<u8>) -> (s: Symbol)
        ensures
            s@ == chars@,
    {
        Symbol { chars }
    }

    /// Same-symbol test: the two symbols spell the same characters.
    pub fn same_symbol(&self, other: &Symbol) -> (r: bool)
        ensures
            r == (self@ == other@),
    {
        let n = self.chars.len();
        if n != other.chars.len() {
            return false;
        }
        let mut i: usize = 0;
        while i < n
            invariant
                n == self.chars@.len(),
                n == other.chars@.len(),
                i <= n,
                forall|j: int| 0 <= j < i ==> self.chars@[j] == other.chars@[j],
            decreases n - i,
        {
            if self.chars[i] != other.chars[i] {
                return false;
            }
            i = i + 1;
        }
        assert(self.chars@ =~= other.chars@);
        true
    }
}

/// A 32-byte hash of contract code.
pub type WasmHash = [u8; 32];

/// The stored contract configuration.
#[derive(Copy, Clone, Debug, PartialEq, Eq)]
pub struct ContractData {
    pub admin: Address,
    pub value: u64,
}

/// An upgrade waiting for its timelock to pass.
#[derive(Copy, Clone, Debug, PartialEq, Eq)]
pub struct PendingUpgrade {
    pub new_wasm_hash: WasmHash,
    pub proposed_at: u64,
    pub proposer: Address,
}

/// The receipt of a successful stake registration.
#[derive(Copy, Clone, Debug, PartialEq, Eq)]
pub struct StakeRecord {
    pub node: Address,
    pub amount: u64,
    pub registered_at: u64,
}

/// An active proposal to revoke the admin key.
#[derive(Clone, Debug, PartialEq, Eq)]
pub struct RevocationProposal {
    /// The compromised admin key to be stripped.
    pub target: Address,
    /// Replacement admin address (takes over after revocation).
    pub replacement: Address,
    /// Signer who opened the proposal.
    pub proposer: Address,
    /// Ledger timestamp when the proposal was created.
    pub proposed_at: u64,
    /// Addresses that have already voted in favour, in voting order.
    pub votes: Vec<Address>,
}

/// The mathematical value of a [`RevocationProposal`].
#[verifier::ext_equal]
pub struct ProposalModel {
    pub target: Address,
    pub replacement: Address,
    pub proposer: Address,
    pub proposed_at: u64,
    pub votes: Seq<Address>,
}

impl View for RevocationProposal {
    type V = ProposalModel;

    open spec fn view(&self) -> ProposalModel {
        ProposalModel {
            target: self.target,
            replacement: self.replacement,
            proposer: self.proposer,
            proposed_at: self.proposed_at,
            votes: self.votes@,
        }
    }
}

/// A copy of a list of addresses.
pub fn copy_addresses(v: &Vec<Address>) -> (r: Vec<Address>)
    ensures
        r@ == v@,
{
    let mut r: Vec<Address> = Vec::new();
    let n = v.len();
    let mut i: usize = 0;
    while i < n
        invariant
            n == v@.len(),
            i <= n,
            r@ == v@.subrange(0, i as int),
        decreases n - i,
    {
        r.push(v[i]);
        i = i + 1;
        proof {
            assert(r@ =~= v@.subrange(0, i as int));
        }
    }
    proof {
        assert(v@.subrange(0, n as int) =~= v@);
    }
    r
}

impl RevocationProposal {
    /// A copy of the proposal.
    pub fn copy(&self) -> (r: RevocationProposal)
        ensures
            r@ == self@,
    {
        RevocationProposal {
            target: self.target,
            replacement: self.replacement,
            proposer: self.proposer,
            proposed_at: self.proposed_at,
            votes: copy_addresses(&self.votes),
        }
    }
}

} // verus!
