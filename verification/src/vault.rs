//! The vault's request processor: the access-control state machine over
//! immutable-data requests.
//!
//! Every operation is specified against the store's map model. A published
//! block is readable by anyone; an unpublished block is readable and
//! deletable only by the requester whose public key equals the embedded
//! owner key; a put of an unpublished block whose embedded owner differs
//! from the claimed owner is rejected with no mutation.

use vstd::prelude::*;

use crate::data::{
    spec_address_of, AddressV, Data, DataId, DataIdV, DataV, IData, IDataAddress, IDataV,
};
use crate::errors::Error;
use crate::keys::{PublicId, PublicKey};
use crate::store::VaultStore;

verus! {

/// A request against immutable data.
#[derive(Clone, Debug)]
pub enum IDataRequest {
    Get(IDataAddress),
    Put(IData),
    DeleteUnpub(IDataAddress),
}

/// Mathematical model of an immutable-data request.
pub enum IDataRequestV {
    Get(AddressV),
    Put(IDataV),
    DeleteUnpub(AddressV),
}

impl View for IDataRequest {
    type V = IDataRequestV;

    open spec fn view(&self) -> IDataRequestV {
        match self {
            IDataRequest::Get(a) => IDataRequestV::Get(a@),
            IDataRequest::Put(d) => IDataRequestV::Put(d@),
            IDataRequest::DeleteUnpub(a) => IDataRequestV::DeleteUnpub(a@),
        }
    }
}

/// The vault's answer: a fetched block or a mutation outcome.
#[derive(Debug)]
pub enum Response {
    GetIData(Result<IData, Error>),
    Mutation(Result<(), Error>),
}

/// Mathematical model of a response.
pub enum ResponseV {
    GetIData(Result<IDataV, Error>),
    Mutation(Result<(), Error>),
}

/// The model of a fetched-block result.
pub open spec fn idata_result_view(r: Result<IData, Error>) -> Result<IDataV, Error> {
    match r {
        Ok(d) => Ok(d@),
        Err(e) => Err(e),
    }
}

impl View for Response {
    type V = ResponseV;

    open spec fn view(&self) -> ResponseV {
        match self {
            Response::GetIData(r) => ResponseV::GetIData(idata_result_view(*r)),
            Response::Mutation(r) => ResponseV::Mutation(*r),
        }
    }
}

/// The store key under which a datum is filed: its content-derived address.
pub open spec fn data_id_of(d: DataV) -> DataIdV {
    match d {
        DataV::Immutable(idata) => DataIdV::Immutable(spec_address_of(idata)),
    }
}

/// Every entry is filed under the address its content derives.
pub open spec fn store_consistent(m: Map<DataIdV, DataV>) -> bool {
    forall|id: DataIdV| #[trigger] m.dom().contains(id) ==> id == data_id_of(m[id])
}

/// Looking a block up by address: the stored block, or `NoSuchData`.
pub open spec fn spec_lookup_idata(m: Map<DataIdV, DataV>, address: AddressV) -> Result<
    IDataV,
    Error,
> {
    let id = DataIdV::Immutable(address);
    if m.dom().contains(id) {
        match m[id] {
            DataV::Immutable(data) => Ok(data),
        }
    } else {
        Err(Error::NoSuchData)
    }
}

/// The outcome of `Get`: the looked-up block, gated for unpublished data by
/// equality of the requester's key with the embedded owner key.
pub open spec fn spec_get_result(
    m: Map<DataIdV, DataV>,
    address: AddressV,
    requester_pk: PublicKey,
) -> Result<IDataV, Error> {
    match spec_lookup_idata(m, address) {
        Ok(data) => match data {
            IDataV::Pub { .. } => Ok(data),
            IDataV::Unpub { owner, .. } => if owner == requester_pk {
                Ok(data)
            } else {
                Err(Error::AccessDenied)
            },
        },
        Err(e) => Err(e),
    }
}

/// The outcome of `Put`: rejected with `InvalidOwners` when an unpublished
/// block's embedded owner differs from the claimed owner, else success.
pub open spec fn spec_put_result(data: IDataV, owner_pk: PublicKey) -> Result<(), Error> {
    match data {
        IDataV::Unpub { owner, .. } => if owner == owner_pk {
            Ok(())
        } else {
            Err(Error::InvalidOwners)
        },
        IDataV::Pub { .. } => Ok(()),
    }
}

/// The store after `Put`: unchanged on rejection, else the block inserted
/// under its content-derived address.
pub open spec fn spec_put_next(
    m: Map<DataIdV, DataV>,
    data: IDataV,
    owner_pk: PublicKey,
) -> Map<DataIdV, DataV> {
    if spec_put_result(data, owner_pk) is Ok {
        m.insert(DataIdV::Immutable(spec_address_of(data)), DataV::Immutable(data))
    } else {
        m
    }
}

/// The outcome of `DeleteUnpub`: `NoSuchData` for an absent address,
/// `InvalidOperation` for a published block, `AccessDenied` for a requester
/// other than the owner, else success.
pub open spec fn spec_delete_result(
    m: Map<DataIdV, DataV>,
    address: AddressV,
    requester_pk: PublicKey,
) -> Result<(), Error> {
    let id = DataIdV::Immutable(address);
    if m.dom().contains(id) {
        match m[id] {
            DataV::Immutable(data) => match data {
                IDataV::Unpub { owner, .. } => if owner == requester_pk {
                    Ok(())
                } else {
                    Err(Error::AccessDenied)
                },
                IDataV::Pub { .. } => Err(Error::InvalidOperation),
            },
        }
    } else {
        Err(Error::NoSuchData)
    }
}

/// The store after `DeleteUnpub`: the entry removed on success, else
/// unchanged.
pub open spec fn spec_delete_next(
    m: Map<DataIdV, DataV>,
    address: AddressV,
    requester_pk: PublicKey,
) -> Map<DataIdV, DataV> {
    if spec_delete_result(m, address, requester_pk) is Ok {
        m.remove(DataIdV::Immutable(address))
    } else {
        m
    }
}

/// The response that processing a request yields.
pub open spec fn spec_process(
    m: Map<DataIdV, DataV>,
    request: IDataRequestV,
    requester_pk: PublicKey,
    owner_pk: PublicKey,
) -> ResponseV {
    match request {
        IDataRequestV::Get(address) => ResponseV::GetIData(
            spec_get_result(m, address, requester_pk),
        ),
        IDataRequestV::Put(data) => ResponseV::Mutation(spec_put_result(data, owner_pk)),
        IDataRequestV::DeleteUnpub(address) => ResponseV::Mutation(
            spec_delete_result(m, address, requester_pk),
        ),
    }
}

/// The store after processing a request.
pub open spec fn spec_process_next(
    m: Map<DataIdV, DataV>,
    request: IDataRequestV,
    requester_pk: PublicKey,
    owner_pk: PublicKey,
) -> Map<DataIdV, DataV> {
    match request {
        IDataRequestV::Get(_) => m,
        IDataRequestV::Put(data) => spec_put_next(m, data, owner_pk),
        IDataRequestV::DeleteUnpub(address) => spec_delete_next(m, address, requester_pk),
    }
}

/// A storage node holding immutable-data blocks and enforcing the access
/// rules on every request.
#[derive(Clone, Debug)]
pub struct Vault {
    store: VaultStore,
}

impl View for Vault {
    type V = Map<DataIdV, DataV>;

    closed spec fn view(&self) -> Map<DataIdV, DataV> {
        self.store@
    }
}

impl Vault {
    /// The store's keys are unique and every entry sits under its
    /// content-derived address.
    pub closed spec fn wf(&self) -> bool {
        &&& self.store.wf()
        &&& store_consistent(self@)
    }

    /// An empty vault.
    pub fn new() -> (r: Vault)
        ensures
            r.wf(),
            r@ == Map::<DataIdV, DataV>::empty(),
    {
        let store = VaultStore::new();
        proof {
            assert(store_consistent(store@));
        }
        Vault { store }
    }

    /// The stored datum under a key, if any.
    fn get_data(&self, id: &DataId) -> (r: Option<&Data>)
        requires
            self.wf(),
        ensures
            match r {
                Some(d) => self@.dom().contains(id@) && d@ == self@[id@],
                None => !self@.dom().contains(id@),
            },
    {
        self.store.get(id)
    }

    /// Files a datum under a key.
    fn put_data(&mut self, id: DataId, data: Data, _requester: PublicId) -> (r: Result<(), Error>)
        requires
            old(self).store.wf(),
        ensures
            final(self).store.wf(),
            final(self)@ == old(self)@.insert(id@, data@),
            r == Ok::<(), Error>(()),
    {
        self.store.put(id, data);
        Ok(())
    }

    /// Unfiles a key.
    fn delete_data(&mut self, id: &DataId)
        requires
            old(self).store.wf(),
        ensures
            final(self).store.wf(),
            final(self)@ == old(self)@.remove(id@),
    {
        self.store.remove(id);
    }

    /// Fetches the block stored under an address, with no permission check.
    pub fn get_idata(&mut self, address: IDataAddress) -> (r: Result<IData, Error>)
        requires
            old(self).wf(),
        ensures
            *final(self) == *old(self),
            idata_result_view(r) == spec_lookup_idata(old(self)@, address@),
    {
        let data_name = DataId::Immutable(address);
        match self.get_data(&data_name) {
            Some(data_type) => match data_type {
                Data::Immutable(data) => Ok(data.duplicate()),
            },
            None => Err(Error::NoSuchData),
        }
    }

    /// Deletes the unpublished block stored under an address, when the
    /// requester's public key equals the embedded owner key.
    pub fn delete_idata(&mut self, address: IDataAddress, requester_pk: PublicKey) -> (r: Result<
        (),
        Error,
    >)
        requires
            old(self).wf(),
        ensures
            final(self).wf(),
            r == spec_delete_result(old(self)@, address@, requester_pk),
            final(self)@ == spec_delete_next(old(self)@, address@, requester_pk),
    {
        let data_id = DataId::Immutable(address);
        let decision: Result<(), Error> = match self.get_data(&data_id) {
            Some(Data::Immutable(IData::Unpub(unpub_idata))) => {
                if unpub_idata.owner == requester_pk {
                    Ok(())
                } else {
                    Err(Error::AccessDenied)
                }
            },
            Some(Data::Immutable(IData::Pub(_))) => Err(Error::InvalidOperation),
            None => Err(Error::NoSuchData),
        };
        match decision {
            Ok(()) => {
                self.delete_data(&data_id);
                proof {
                    lemma_remove_preserves_consistency(old(self)@, data_id@);
                }
                Ok(())
            },
            Err(e) => Err(e),
        }
    }

    /// Processes one immutable-data request for a requester acting under a
    /// claimed owner key, and returns the response.
    pub fn process_idata_req(
        &mut self,
        request: &IDataRequest,
        requester: PublicId,
        requester_pk: PublicKey,
        owner_pk: PublicKey,
    ) -> (resp: Response)
        requires
            old(self).wf(),
        ensures
            final(self).wf(),
            resp@ == spec_process(old(self)@, request@, requester_pk, owner_pk),
            final(self)@ == spec_process_next(old(self)@, request@, requester_pk, owner_pk),
    {
        match request {
            IDataRequest::Get(address) => {
                let result = match self.get_idata(address.duplicate()) {
                    Ok(idata) => {
                        let allowed = match &idata {
                            IData::Unpub(data) => data.owner == requester_pk,
                            IData::Pub(_) => true,
                        };
                        if allowed {
                            Ok(idata)
                        } else {
                            Err(Error::AccessDenied)
                        }
                    },
                    Err(e) => Err(e),
                };
                Response::GetIData(result)
            },
            IDataRequest::Put(idata) => {
                let errored = match idata {
                    IData::Unpub(data) => data.owner != owner_pk,
                    IData::Pub(_) => false,
                };
                let result = if errored {
                    Err(Error::InvalidOwners)
                } else {
                    let r = self.put_data(
                        DataId::Immutable(idata.address()),
                        Data::Immutable(idata.duplicate()),
                        requester,
                    );
                    proof {
                        lemma_put_preserves_consistency(old(self)@, idata@);
                    }
                    r
                };
                Response::Mutation(result)
            },
            IDataRequest::DeleteUnpub(address) => {
                let result = self.delete_idata(address.duplicate(), requester_pk);
                Response::Mutation(result)
            },
        }
    }
}

/// Law: a published block is returned to any requester, whatever the
/// requester's relationship to the block.
pub proof fn lemma_get_published_any_requester(
    m: Map<DataIdV, DataV>,
    name: Seq<u8>,
    requester_pk: PublicKey,
)
    requires
        store_consistent(m),
        m.dom().contains(DataIdV::Immutable(AddressV::Pub { name })),
    ensures
        spec_get_result(m, AddressV::Pub { name }, requester_pk) == Ok::<IDataV, Error>(
            IDataV::Pub { value: name },
        ),
{
    let id = DataIdV::Immutable(AddressV::Pub { name });
    assert(id == data_id_of(m[id]));
}

/// Law: an unpublished block with owner `owner` is returned exactly to the
/// requester whose public key equals `owner`; any other requester is denied.
pub proof fn lemma_get_unpublished_owner_only(
    m: Map<DataIdV, DataV>,
    name: Seq<u8>,
    owner: PublicKey,
    requester_pk: PublicKey,
)
    requires
        store_consistent(m),
        m.dom().contains(DataIdV::Immutable(AddressV::Unpub { name, owner })),
    ensures
        requester_pk == owner ==> spec_get_result(m, AddressV::Unpub { name, owner }, requester_pk)
            == Ok::<IDataV, Error>(IDataV::Unpub { value: name, owner }),
        requester_pk != owner ==> spec_get_result(m, AddressV::Unpub { name, owner }, requester_pk)
            == Err::<IDataV, Error>(Error::AccessDenied),
{
    let id = DataIdV::Immutable(AddressV::Unpub { name, owner });
    assert(id == data_id_of(m[id]));
}

/// Law: putting an unpublished block whose embedded owner differs from the
/// claimed owner yields `InvalidOwners` and leaves the store unchanged, so
/// a subsequent `Get` of a previously absent address still finds nothing.
pub proof fn lemma_put_owner_mismatch_rejected(
    m: Map<DataIdV, DataV>,
    data: IDataV,
    requester_pk: PublicKey,
    owner_pk: PublicKey,
    probe_pk: PublicKey,
)
    requires
        data matches IDataV::Unpub { owner, .. } && owner != owner_pk,
    ensures
        spec_process(m, IDataRequestV::Put(data), requester_pk, owner_pk) == ResponseV::Mutation(
            Err(Error::InvalidOwners),
        ),
        spec_process_next(m, IDataRequestV::Put(data), requester_pk, owner_pk) == m,
        !m.dom().contains(DataIdV::Immutable(spec_address_of(data))) ==> spec_get_result(
            spec_process_next(m, IDataRequestV::Put(data), requester_pk, owner_pk),
            spec_address_of(data),
            probe_pk,
        ) == Err::<IDataV, Error>(Error::NoSuchData),
{
}

/// Law: putting the same block twice leaves the store in the same state as
/// putting it once, with the same response both times.
pub proof fn lemma_put_idempotent(
    m: Map<DataIdV, DataV>,
    data: IDataV,
    requester_pk: PublicKey,
    owner_pk: PublicKey,
)
    ensures
        spec_process_next(
            spec_process_next(m, IDataRequestV::Put(data), requester_pk, owner_pk),
            IDataRequestV::Put(data),
            requester_pk,
            owner_pk,
        ) == spec_process_next(m, IDataRequestV::Put(data), requester_pk, owner_pk),
        spec_process(
            spec_process_next(m, IDataRequestV::Put(data), requester_pk, owner_pk),
            IDataRequestV::Put(data),
            requester_pk,
            owner_pk,
        ) == spec_process(m, IDataRequestV::Put(data), requester_pk, owner_pk),
{
    let once = spec_process_next(m, IDataRequestV::Put(data), requester_pk, owner_pk);
    let twice = spec_process_next(once, IDataRequestV::Put(data), requester_pk, owner_pk);
    assert(twice =~= once);
}

/// Law: deleting at an address holding a published block yields
/// `InvalidOperation` and removes nothing.
pub proof fn lemma_delete_published_rejected(
    m: Map<DataIdV, DataV>,
    name: Seq<u8>,
    requester_pk: PublicKey,
)
    requires
        store_consistent(m),
        m.dom().contains(DataIdV::Immutable(AddressV::Pub { name })),
    ensures
        spec_delete_result(m, AddressV::Pub { name }, requester_pk) == Err::<(), Error>(
            Error::InvalidOperation,
        ),
        spec_delete_next(m, AddressV::Pub { name }, requester_pk) == m,
{
    let id = DataIdV::Immutable(AddressV::Pub { name });
    assert(id == data_id_of(m[id]));
}

/// Law: deleting an unpublished block is denied to any requester other than
/// the owner; the owner's delete removes the entry, so a following `Get`
/// yields `NoSuchData`.
pub proof fn lemma_delete_unpublished_owner_only(
    m: Map<DataIdV, DataV>,
    name: Seq<u8>,
    owner: PublicKey,
    requester_pk: PublicKey,
)
    requires
        store_consistent(m),
        m.dom().contains(DataIdV::Immutable(AddressV::Unpub { name, owner })),
    ensures
        requester_pk != owner ==> spec_delete_result(m, AddressV::Unpub { name, owner },
            requester_pk,
        ) == Err::<(), Error>(Error::AccessDenied) && spec_delete_next(
            m,
            AddressV::Unpub { name, owner },
            requester_pk,
        ) == m,
        requester_pk == owner ==> spec_delete_result(m, AddressV::Unpub { name, owner },
            requester_pk,
        ) == Ok::<(), Error>(()) && spec_get_result(
            spec_delete_next(m, AddressV::Unpub { name, owner }, requester_pk),
            AddressV::Unpub { name, owner },
            requester_pk,
        ) == Err::<IDataV, Error>(Error::NoSuchData),
{
    let id = DataIdV::Immutable(AddressV::Unpub { name, owner });
    assert(id == data_id_of(m[id]));
}

/// Inserting a block under its own content-derived address keeps every
/// entry filed under the address its content derives.
pub proof fn lemma_put_preserves_consistency(m: Map<DataIdV, DataV>, data: IDataV)
    requires
        store_consistent(m),
    ensures
        store_consistent(
            m.insert(DataIdV::Immutable(spec_address_of(data)), DataV::Immutable(data)),
        ),
{
}

/// Removing an entry keeps every remaining entry filed under the address
/// its content derives.
pub proof fn lemma_remove_preserves_consistency(m: Map<DataIdV, DataV>, id: DataIdV)
    requires
        store_consistent(m),
    ensures
        store_consistent(m.remove(id)),
{
}

} // verus!
