use safe_client::data::{IData, IDataAddress, PubImmutableData, UnpubImmutableData};
use safe_client::errors::Error;
use safe_client::keys::{PublicId, PublicKey};
use safe_client::vault::{IDataRequest, Response, Vault};

fn pk(value: u64) -> PublicKey {
    PublicKey { value }
}

fn requester(value: u64) -> PublicId {
    PublicId { public_key: pk(value) }
}

fn pub_block(content: &[u8]) -> IData {
    IData::Pub(PubImmutableData { value: content.to_vec() })
}

fn unpub_block(content: &[u8], owner: PublicKey) -> IData {
    IData::Unpub(UnpubImmutableData { value: content.to_vec(), owner })
}

fn put(vault: &mut Vault, block: &IData, owner: PublicKey) -> Result<(), Error> {
    let response = vault.process_idata_req(
        &IDataRequest::Put(block.duplicate()),
        requester(owner.value),
        owner,
        owner,
    );
    match response {
        Response::Mutation(result) => result,
        other => panic!("expected a mutation response, got {:?}", other),
    }
}

fn get(vault: &mut Vault, address: &IDataAddress, requester_pk: PublicKey) -> Result<IData, Error> {
    let response = vault.process_idata_req(
        &IDataRequest::Get(address.duplicate()),
        requester(requester_pk.value),
        requester_pk,
        requester_pk,
    );
    match response {
        Response::GetIData(result) => result,
        other => panic!("expected a get response, got {:?}", other),
    }
}

fn delete(vault: &mut Vault, address: &IDataAddress, requester_pk: PublicKey) -> Result<(), Error> {
    let response = vault.process_idata_req(
        &IDataRequest::DeleteUnpub(address.duplicate()),
        requester(requester_pk.value),
        requester_pk,
        requester_pk,
    );
    match response {
        Response::Mutation(result) => result,
        other => panic!("expected a mutation response, got {:?}", other),
    }
}

#[test]
fn get_published_succeeds_for_any_requester() {
    let mut vault = Vault::new();
    let block = pub_block(b"article");
    assert!(block.is_pub());
    assert!(!unpub_block(b"article", pk(1)).is_pub());
    let address = block.address();
    assert_eq!(put(&mut vault, &block, pk(1)), Ok(()));

    for stranger in [1u64, 2, 99] {
        let fetched = get(&mut vault, &address, pk(stranger)).expect("published data is public");
        assert_eq!(fetched.value(), &b"article".to_vec());
    }
}

#[test]
fn get_unpublished_succeeds_only_for_owner() {
    let mut vault = Vault::new();
    let owner = pk(7);
    let block = unpub_block(b"private", owner);
    let address = block.address();
    assert_eq!(put(&mut vault, &block, owner), Ok(()));

    let fetched = get(&mut vault, &address, owner).expect("owner may read");
    assert_eq!(fetched.value(), &b"private".to_vec());
    assert_eq!(get(&mut vault, &address, pk(8)), Err(Error::AccessDenied));
}

#[test]
fn put_with_mismatched_owner_is_rejected_and_writes_nothing() {
    let mut vault = Vault::new();
    let embedded_owner = pk(1);
    let claimed_owner = pk(2);
    let block = unpub_block(b"data", embedded_owner);
    let address = block.address();

    let response = vault.process_idata_req(
        &IDataRequest::Put(block.duplicate()),
        requester(2),
        claimed_owner,
        claimed_owner,
    );
    match response {
        Response::Mutation(result) => assert_eq!(result, Err(Error::InvalidOwners)),
        other => panic!("expected a mutation response, got {:?}", other),
    }
    assert_eq!(get(&mut vault, &address, embedded_owner), Err(Error::NoSuchData));
}

#[test]
fn put_is_idempotent() {
    let mut vault = Vault::new();
    let owner = pk(3);
    let block = unpub_block(b"twice", owner);
    let address = block.address();

    assert_eq!(put(&mut vault, &block, owner), Ok(()));
    assert_eq!(put(&mut vault, &block, owner), Ok(()));

    let fetched = get(&mut vault, &address, owner).expect("block is stored once");
    assert_eq!(fetched.value(), &b"twice".to_vec());
    // One delete empties the address: the second put added no second entry.
    assert_eq!(delete(&mut vault, &address, owner), Ok(()));
    assert_eq!(get(&mut vault, &address, owner), Err(Error::NoSuchData));
}

#[test]
fn delete_on_published_address_is_invalid_operation() {
    let mut vault = Vault::new();
    let block = pub_block(b"keep");
    let address = block.address();
    assert_eq!(put(&mut vault, &block, pk(1)), Ok(()));

    assert_eq!(delete(&mut vault, &address, pk(1)), Err(Error::InvalidOperation));
    let fetched = get(&mut vault, &address, pk(4)).expect("nothing was removed");
    assert_eq!(fetched.value(), &b"keep".to_vec());
}

#[test]
fn delete_unpublished_requires_owner() {
    let mut vault = Vault::new();
    let owner = pk(5);
    let block = unpub_block(b"mine", owner);
    let address = block.address();
    assert_eq!(put(&mut vault, &block, owner), Ok(()));

    assert_eq!(delete(&mut vault, &address, pk(6)), Err(Error::AccessDenied));
    let fetched = get(&mut vault, &address, owner).expect("a denied delete removes nothing");
    assert_eq!(fetched.value(), &b"mine".to_vec());

    assert_eq!(delete(&mut vault, &address, owner), Ok(()));
    assert_eq!(get(&mut vault, &address, owner), Err(Error::NoSuchData));
}

#[test]
fn delete_on_absent_address_is_no_such_data() {
    let mut vault = Vault::new();
    let address = unpub_block(b"ghost", pk(1)).address();
    assert_eq!(delete(&mut vault, &address, pk(1)), Err(Error::NoSuchData));
}

#[test]
fn owner_lifecycle_scenario() {
    // Owner o1 stores an unpublished secret; o2 is denied; o1 reads it,
    // deletes it, and then finds it gone.
    let mut vault = Vault::new();
    let o1 = pk(11);
    let o2 = pk(22);
    let block = unpub_block(b"secret", o1);
    let a1 = block.address();

    assert_eq!(put(&mut vault, &block, o1), Ok(()));
    assert_eq!(get(&mut vault, &a1, o2), Err(Error::AccessDenied));
    let fetched = get(&mut vault, &a1, o1).expect("owner reads the secret");
    assert_eq!(fetched.value(), &b"secret".to_vec());
    assert_eq!(delete(&mut vault, &a1, o1), Ok(()));
    assert_eq!(get(&mut vault, &a1, o1), Err(Error::NoSuchData));
}

#[test]
fn published_and_unpublished_with_same_content_coexist() {
    let mut vault = Vault::new();
    let owner = pk(9);
    let published = pub_block(b"shared");
    let unpublished = unpub_block(b"shared", owner);
    assert_eq!(put(&mut vault, &published, owner), Ok(()));
    assert_eq!(put(&mut vault, &unpublished, owner), Ok(()));

    assert!(get(&mut vault, &published.address(), pk(1)).is_ok());
    assert!(get(&mut vault, &unpublished.address(), owner).is_ok());
    assert_eq!(delete(&mut vault, &unpublished.address(), owner), Ok(()));
    assert!(get(&mut vault, &published.address(), pk(1)).is_ok());
}
