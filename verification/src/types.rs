//! The plain values the policy works on: identities, allowances, and the
//! description of a requested action.

use vstd::prelude::*;

verus! {

/// The minimum distance, in ledger sequence numbers, between two accepted
/// deposits of one delegate: thirty days of ledgers closing every five seconds.
pub const MONTH_IN_LEDGERS: u32 = 518400;

/// The 32-byte public key that identifies a delegate.
pub type DelegateKey = [u8; 32];

/// The identity of an account or a contract, held as its textual key.
#[derive(Debug, PartialEq, Eq)]
pub struct Address {
    pub strkey: String,
}

impl View for Address {
    type V = Seq<char>;

    open spec fn view(&self) -> Seq<char> {
        self.strkey@
    }
}

impl Clone for Address {
    fn clone(&self) -> (copy: Self)
        ensures
            copy@ == self@,
    {
        Address { strkey: self.strkey.clone() }
    }
}

impl Address {
    /// The identity with the given textual key.
    pub fn new(strkey: &str) -> (address: Address)
        ensures
            address@ == strkey@,
    {
        Address { strkey: strkey.to_owned() }
    }

    /// Whether two identities are the same.
    pub fn same(&self, other: &Address) -> (equal: bool)
        ensures
            equal == (self@ == other@),
    {
        self.strkey == other.strkey
    }
}

/// What a delegate may do: deposit into `vault`, at most `amount` at a time.
#[derive(Debug, PartialEq, Eq)]
pub struct VaultAllowance {
    pub vault: Address,
    pub amount: i128,
}

/// The mathematical value of a `VaultAllowance`.
pub struct AllowanceView {
    pub vault: Seq<char>,
    pub amount: i128,
}

impl View for VaultAllowance {
    type V = AllowanceView;

    open spec fn view(&self) -> AllowanceView {
        AllowanceView { vault: self.vault@, amount: self.amount }
    }
}

impl Clone for VaultAllowance {
    fn clone(&self) -> (copy: Self)
        ensures
            copy@ == self@,
    {
        VaultAllowance { vault: self.vault.clone(), amount: self.amount }
    }
}

/// The slots of persisted state: the administrator, and per delegate the
/// sequence of the last accepted deposit and the allowance.
#[derive(Clone, Debug, PartialEq, Eq)]
pub enum StorageKey {
    Admin,
    Previous(DelegateKey),
    VaultAllowance(DelegateKey),
}

/// Who signed a request. Only Ed25519 keys can be delegates.
#[derive(Clone, Debug, PartialEq, Eq)]
pub enum SignerKey {
    Policy(Address),
    Ed25519(DelegateKey),
    Secp256r1(Vec<u8>),
}

/// One argument of a requested call, as far as the policy tells values apart.
#[derive(Debug, PartialEq, Eq)]
pub enum Val {
    Void,
    Bool(bool),
    U32(u32),
    I128(i128),
    Address(Address),
    Symbol(String),
    List(Vec<Val>),
}

/// A call of the function `fn_name` of `contract` with positional arguments.
#[derive(Debug, PartialEq, Eq)]
pub struct ContractContext {
    pub contract: Address,
    pub fn_name: String,
    pub args: Vec<Val>,
}

/// One requested action. Only contract calls carry anything the policy reads.
#[derive(Debug, PartialEq, Eq)]
pub enum Context {
    Contract(ContractContext),
    CreateContractHostFn,
    CreateContractWithCtorHostFn,
}

/// Whether two delegate keys are the same, byte for byte.
pub fn same_key(a: &DelegateKey, b: &DelegateKey) -> (equal: bool)
    ensures
        equal == (a@ == b@),
{
    let mut i: usize = 0;
    while i < 32
        invariant
            i <= 32,
            forall|j: int| 0 <= j < i ==> a@[j] == b@[j],
        decreases 32 - i,
    {
        if a[i] != b[i] {
            return false;
        }
        i += 1;
    }
    assert(a@ =~= b@);
    true
}

} // verus!
