//! Immutable data blocks, their content-derived addresses, and the typed
//! store keys the vault indexes by.
//!
//! A block's address is determined by its content alone (published data) or
//! by its content together with its embedded owner key (unpublished data), so
//! distinct blocks never collide.

use vstd::prelude::*;

use crate::keys::PublicKey;

verus! {

/// A published immutable block: globally readable, no owner check.
#[derive(Clone, PartialEq, Eq, Debug)]
pub struct PubImmutableData {
    pub value: Vec<u8>,
}

/// An unpublished immutable block: readable and deletable only by the
/// embedded owner.
#[derive(Clone, PartialEq, Eq, Debug)]
pub struct UnpubImmutableData {
    pub value: Vec<u8>,
    pub owner: PublicKey,
}

/// An immutable data block in either publication state.
#[derive(Clone, PartialEq, Eq, Debug)]
pub enum IData {
    Pub(PubImmutableData),
    Unpub(UnpubImmutableData),
}

/// Mathematical model of an immutable data block.
pub enum IDataV {
    Pub { value: Seq<u8> },
    Unpub { value: Seq<u8>, owner: PublicKey },
}

impl View for IData {
    type V = IDataV;

    open spec fn view(&self) -> IDataV {
        match self {
            IData::Pub(d) => IDataV::Pub { value: d.value@ },
            IData::Unpub(d) => IDataV::Unpub { value: d.value@, owner: d.owner },
        }
    }
}

/// The address of an immutable data block: its content, plus the embedded
/// owner for unpublished data.
#[derive(Clone, PartialEq, Eq, Debug)]
pub enum IDataAddress {
    Pub { name: Vec<u8> },
    Unpub { name: Vec<u8>, owner: PublicKey },
}

/// Mathematical model of an immutable-data address.
pub enum AddressV {
    Pub { name: Seq<u8> },
    Unpub { name: Seq<u8>, owner: PublicKey },
}

impl View for IDataAddress {
    type V = AddressV;

    open spec fn view(&self) -> AddressV {
        match self {
            IDataAddress::Pub { name } => AddressV::Pub { name: name@ },
            IDataAddress::Unpub { name, owner } => AddressV::Unpub { name: name@, owner: *owner },
        }
    }
}

/// The address that a block's model determines.
pub open spec fn spec_address_of(d: IDataV) -> AddressV {
    match d {
        IDataV::Pub { value } => AddressV::Pub { name: value },
        IDataV::Unpub { value, owner } => AddressV::Unpub { name: value, owner },
    }
}

/// Distinct blocks have distinct addresses: the address determines the block.
pub proof fn lemma_address_injective(d1: IDataV, d2: IDataV)
    requires
        spec_address_of(d1) == spec_address_of(d2),
    ensures
        d1 == d2,
{
}

impl IData {
    /// The block's content bytes.
    pub fn value(&self) -> (r: &Vec<u8>)
        ensures
            r@ == self.spec_value(),
    {
        match self {
            IData::Pub(d) => &d.value,
            IData::Unpub(d) => &d.value,
        }
    }

    /// The content bytes of the block's model.
    pub open spec fn spec_value(&self) -> Seq<u8> {
        match self@ {
            IDataV::Pub { value } => value,
            IDataV::Unpub { value, .. } => value,
        }
    }

    /// Whether the block is published.
    pub fn is_pub(&self) -> (r: bool)
        ensures
            r == (self@ is Pub),
    {
        match self {
            IData::Pub(_) => true,
            IData::Unpub(_) => false,
        }
    }

    /// The content-derived address of the block.
    pub fn address(&self) -> (r: IDataAddress)
        ensures
            r@ == spec_address_of(self@),
    {
        match self {
            IData::Pub(d) => IDataAddress::Pub { name: clone_bytes(&d.value) },
            IData::Unpub(d) => IDataAddress::Unpub { name: clone_bytes(&d.value), owner: d.owner },
        }
    }

    /// A copy of the block with equal content and owner.
    pub fn duplicate(&self) -> (r: IData)
        ensures
            r@ == self@,
    {
        match self {
            IData::Pub(d) => IData::Pub(PubImmutableData { value: clone_bytes(&d.value) }),
            IData::Unpub(d) => IData::Unpub(
                UnpubImmutableData { value: clone_bytes(&d.value), owner: d.owner },
            ),
        }
    }
}

/// A byte-for-byte copy of a byte vector.
pub fn clone_bytes(v: &Vec<u8>) -> (r: Vec<u8>)
    ensures
        r@ == v@,
{
    let r = v.clone();
    proof {
        assert(r@ =~= v@);
    }
    r
}

/// Byte-for-byte equality of two byte vectors.
pub fn bytes_eq(a: &Vec<u8>, b: &Vec<u8>) -> (r: bool)
    ensures
        r == (a@ == b@),
{
    if a.len() != b.len() {
        proof {
            assert(a@ != b@);
        }
        return false;
    }
    let n = a.len();
    let mut i: usize = 0;
    while i < n
        invariant
            n == a.len() == b.len(),
            0 <= i <= n,
            forall|j: int| 0 <= j < i ==> a@[j] == b@[j],
        decreases n - i,
    {
        if a[i] != b[i] {
            return false;
        }
        i += 1;
    }
    proof {
        assert(a@ =~= b@);
    }
    true
}

impl IDataAddress {
    /// Equality of two addresses, by publication state, content and owner.
    pub fn equals(&self, other: &IDataAddress) -> (r: bool)
        ensures
            r == (self@ == other@),
    {
        match (self, other) {
            (IDataAddress::Pub { name: n1 }, IDataAddress::Pub { name: n2 }) => bytes_eq(n1, n2),
            (
                IDataAddress::Unpub { name: n1, owner: o1 },
                IDataAddress::Unpub { name: n2, owner: o2 },
            ) => {
                let r = bytes_eq(n1, n2) && o1.value == o2.value;
                proof {
                    if r {
                        assert(self@ =~= other@);
                    }
                }
                r
            },
            _ => false,
        }
    }

    /// A copy of the address.
    pub fn duplicate(&self) -> (r: IDataAddress)
        ensures
            r@ == self@,
    {
        match self {
            IDataAddress::Pub { name } => IDataAddress::Pub { name: clone_bytes(name) },
            IDataAddress::Unpub { name, owner } => IDataAddress::Unpub {
                name: clone_bytes(name),
                owner: *owner,
            },
        }
    }
}

/// A typed store key: the kind of data plus its address.
#[derive(Clone, Debug)]
pub enum DataId {
    Immutable(IDataAddress),
}

/// Mathematical model of a store key.
pub enum DataIdV {
    Immutable(AddressV),
}

impl View for DataId {
    type V = DataIdV;

    open spec fn view(&self) -> DataIdV {
        match self {
            DataId::Immutable(a) => DataIdV::Immutable(a@),
        }
    }
}

impl DataId {
    /// Equality of two store keys.
    pub fn equals(&self, other: &DataId) -> (r: bool)
        ensures
            r == (self@ == other@),
    {
        match (self, other) {
            (DataId::Immutable(a1), DataId::Immutable(a2)) => a1.equals(a2),
        }
    }

}

/// A stored datum; the vault holds immutable data.
#[derive(Clone, Debug)]
pub enum Data {
    Immutable(IData),
}

/// Mathematical model of a stored datum.
pub enum DataV {
    Immutable(IDataV),
}

impl View for Data {
    type V = DataV;

    open spec fn view(&self) -> DataV {
        match self {
            Data::Immutable(d) => DataV::Immutable(d@),
        }
    }
}

impl Data {
    /// A copy of the datum.
    pub fn duplicate(&self) -> (r: Data)
        ensures
            r@ == self@,
    {
        match self {
            Data::Immutable(d) => Data::Immutable(d.duplicate()),
        }
    }
}

} // verus!
