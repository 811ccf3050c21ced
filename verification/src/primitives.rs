//! Plain value types shared by the whole core: spec revisions, account
//! addresses and the transaction environment.

use vstd::prelude::*;

verus! {

/// Revision of the economic rule set.  The gas ledger's refund cap is the
/// only logic in this core that branches on it.
#[derive(Clone, Copy, PartialEq, Eq, Structural, Debug)]
pub enum SpecId {
    Frontier,
    Homestead,
    Berlin,
    London,
    Shanghai,
    Cancun,
}

impl SpecId {
    /// Revisions from London onward cap refunds at a fifth of the gas
    /// spent; earlier revisions at half.
    pub open spec fn spec_is_london_or_later(self) -> bool {
        match self {
            SpecId::London | SpecId::Shanghai | SpecId::Cancun => true,
            _ => false,
        }
    }

    pub fn is_london_or_later(&self) -> (r: bool)
        ensures
            r == self.spec_is_london_or_later(),
    {
        match self {
            SpecId::London | SpecId::Shanghai | SpecId::Cancun => true,
            _ => false,
        }
    }
}

/// Copies a byte buffer element by element, so that the copy's contents
/// are known exactly.
pub fn clone_bytes(v: &Vec<u8>) -> (r: Vec<u8>)
    ensures
        r@ == v@,
{
    let mut r: Vec<u8> = Vec::new();
    let mut i: usize = 0;
    while i < v.len()
        invariant
            i <= v.len(),
            r@ == v@.subrange(0, i as int),
        decreases v.len() - i,
    {
        r.push(v[i]);
        proof {
            assert(v@.subrange(0, i + 1) =~= v@.subrange(0, i as int).push(v@[i as int]));
        }
        i = i + 1;
    }
    proof {
        assert(v@.subrange(0, v@.len() as int) =~= v@);
    }
    r
}

/// An account address.  The core never looks inside one: it is an opaque
/// token handed through frames, outcomes and observer callbacks.
pub struct Address {
    pub bytes: Vec<u8>,
}

impl View for Address {
    type V = Seq<u8>;

    open spec fn view(&self) -> Seq<u8> {
        self.bytes@
    }
}

impl DeepView for Address {
    type V = Seq<u8>;

    open spec fn deep_view(&self) -> Seq<u8> {
        self.bytes@
    }
}

impl Address {
    pub fn new(bytes: Vec<u8>) -> (r: Address)
        ensures
            r@ == bytes@,
    {
        Address { bytes }
    }
}

impl Clone for Address {
    fn clone(&self) -> (r: Self)
        ensures
            r@ == self@,
    {
        Address { bytes: clone_bytes(&self.bytes) }
    }
}

/// The transaction part of the execution environment.
#[derive(Clone, Copy, PartialEq, Eq, Structural, Debug)]
pub struct TxEnv {
    pub gas_limit: u64,
}

/// The execution environment a transaction runs under.
#[derive(Clone, Copy, PartialEq, Eq, Structural, Debug)]
pub struct Env {
    pub tx: TxEnv,
}

impl Default for Env {
    fn default() -> (r: Env)
        ensures
            r == (Env { tx: TxEnv { gas_limit: 0u64 } }),
    {
        Env { tx: TxEnv { gas_limit: 0 } }
    }
}

} // verus!
