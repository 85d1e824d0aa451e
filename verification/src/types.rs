//! Semantic wrappers for the fixed-width hashes, addresses, big unsigned
//! integers, log blooms and opaque byte strings of the output schema. Each is
//! a plain big-endian byte string with a well-formedness predicate on its view.

use vstd::prelude::*;

verus! {

/// A 256-bit hash, 32 big-endian bytes.
#[derive(Debug)]
pub struct Hash256 {
    pub bytes: Vec<u8>,
}

/// A 160-bit account address, 20 big-endian bytes.
#[derive(Debug)]
pub struct Address {
    pub bytes: Vec<u8>,
}

/// A 256-bit big unsigned integer, 32 big-endian bytes.
#[derive(Debug)]
pub struct U256 {
    pub bytes: Vec<u8>,
}

/// A 2048-bit log bloom, 256 bytes.
#[derive(Debug)]
pub struct Bloom {
    pub bytes: Vec<u8>,
}

/// An opaque byte string of any length.
#[derive(Debug)]
pub struct Bytes {
    pub bytes: Vec<u8>,
}

pub open spec fn hash256_wf(s: Seq<u8>) -> bool {
    s.len() == 32
}

pub open spec fn address_wf(s: Seq<u8>) -> bool {
    s.len() == 20
}

pub open spec fn u256_wf(s: Seq<u8>) -> bool {
    s.len() == 32
}

pub open spec fn bloom_wf(s: Seq<u8>) -> bool {
    s.len() == 256
}

impl View for Hash256 {
    type V = Seq<u8>;

    open spec fn view(&self) -> Seq<u8> {
        self.bytes@
    }
}

impl DeepView for Hash256 {
    type V = Seq<u8>;

    open spec fn deep_view(&self) -> Seq<u8> {
        self.bytes@
    }
}

impl View for Address {
    type V = Seq<u8>;

    open spec fn view(&self) -> Seq<u8> {
        self.bytes@
    }
}

impl DeepView for Address {
    type V = Seq<u8>;

    open spec fn deep_view(&self) -> Seq<u8> {
        self.bytes@
    }
}

impl View for U256 {
    type V = Seq<u8>;

    open spec fn view(&self) -> Seq<u8> {
        self.bytes@
    }
}

impl DeepView for U256 {
    type V = Seq<u8>;

    open spec fn deep_view(&self) -> Seq<u8> {
        self.bytes@
    }
}

impl View for Bloom {
    type V = Seq<u8>;

    open spec fn view(&self) -> Seq<u8> {
        self.bytes@
    }
}

impl DeepView for Bloom {
    type V = Seq<u8>;

    open spec fn deep_view(&self) -> Seq<u8> {
        self.bytes@
    }
}

impl View for Bytes {
    type V = Seq<u8>;

    open spec fn view(&self) -> Seq<u8> {
        self.bytes@
    }
}

impl DeepView for Bytes {
    type V = Seq<u8>;

    open spec fn deep_view(&self) -> Seq<u8> {
        self.bytes@
    }
}

impl Hash256 {
    /// Wraps 32 bytes as a hash; rejects any other length.
    pub fn new(bytes: Vec<u8>) -> (r: Option<Hash256>)
        ensures
            match r {
                Some(h) => h@ == bytes@ && hash256_wf(h@),
                None => !hash256_wf(bytes@),
            },
    {
        if bytes.len() == 32 {
            Some(Hash256 { bytes })
        } else {
            None
        }
    }

    pub fn duplicate(&self) -> (r: Hash256)
        ensures
            r@ == self@,
    {
        Hash256 { bytes: self.bytes.clone() }
    }
}

impl Address {
    /// Wraps 20 bytes as an address; rejects any other length.
    pub fn new(bytes: Vec<u8>) -> (r: Option<Address>)
        ensures
            match r {
                Some(a) => a@ == bytes@ && address_wf(a@),
                None => !address_wf(bytes@),
            },
    {
        if bytes.len() == 20 {
            Some(Address { bytes })
        } else {
            None
        }
    }

    pub fn duplicate(&self) -> (r: Address)
        ensures
            r@ == self@,
    {
        Address { bytes: self.bytes.clone() }
    }
}

impl U256 {
    /// Wraps 32 big-endian bytes as a big unsigned integer; rejects any other length.
    pub fn new(bytes: Vec<u8>) -> (r: Option<U256>)
        ensures
            match r {
                Some(u) => u@ == bytes@ && u256_wf(u@),
                None => !u256_wf(bytes@),
            },
    {
        if bytes.len() == 32 {
            Some(U256 { bytes })
        } else {
            None
        }
    }

    pub fn duplicate(&self) -> (r: U256)
        ensures
            r@ == self@,
    {
        U256 { bytes: self.bytes.clone() }
    }
}

impl Bloom {
    /// Wraps 256 bytes as a log bloom; rejects any other length.
    pub fn new(bytes: Vec<u8>) -> (r: Option<Bloom>)
        ensures
            match r {
                Some(b) => b@ == bytes@ && bloom_wf(b@),
                None => !bloom_wf(bytes@),
            },
    {
        if bytes.len() == 256 {
            Some(Bloom { bytes })
        } else {
            None
        }
    }

    pub fn duplicate(&self) -> (r: Bloom)
        ensures
            r@ == self@,
    {
        Bloom { bytes: self.bytes.clone() }
    }
}

impl Bytes {
    pub fn new(bytes: Vec<u8>) -> (r: Bytes)
        ensures
            r@ == bytes@,
    {
        Bytes { bytes }
    }

    pub fn duplicate(&self) -> (r: Bytes)
        ensures
            r@ == self@,
    {
        Bytes { bytes: self.bytes.clone() }
    }
}

/// Copy of an optional hash.
pub fn duplicate_opt_hash(o: &Option<Hash256>) -> (r: Option<Hash256>)
    ensures
        r.deep_view() == o.deep_view(),
{
    match o {
        Some(h) => Some(h.duplicate()),
        None => None,
    }
}

/// Copy of an optional address.
pub fn duplicate_opt_address(o: &Option<Address>) -> (r: Option<Address>)
    ensures
        r.deep_view() == o.deep_view(),
{
    match o {
        Some(a) => Some(a.duplicate()),
        None => None,
    }
}

} // verus!
