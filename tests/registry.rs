use nft_registry::allocator::IdAllocator;
use nft_registry::error::RegistryError;
use nft_registry::registry::{ensure_signed, AccountId, Event, Module, Origin};

const CREATOR: AccountId = AccountId(1);
const VALIDATOR: AccountId = AccountId(7);
const OTHER: AccountId = AccountId(8);

fn state_a() -> Module {
    let mut m = Module::new();
    assert_eq!(m.new_registry(Origin::Signed(CREATOR), VALIDATOR), Ok(0));
    m
}

#[test]
fn scenario_a_first_registry_gets_uid_zero() {
    let m = state_a();
    assert_eq!(m.validator_of(0), Some(VALIDATOR));
    assert_eq!(m.registry_nonce(0), Some(0));
    assert_eq!(m.next_uid(), 1);
    assert_eq!(m.events(), &vec![Event::NewRegistry { creator: CREATOR, uid: 0 }]);
}

#[test]
fn scenario_b_validator_finishes_first_mint() {
    let mut m = state_a();
    assert_eq!(m.finish_mint(Origin::Signed(VALIDATOR), 0), Ok(0));
    assert_eq!(m.registry_nonce(0), Some(1));
    assert_eq!(m.events().last(), Some(&Event::MintNft { uid: 0, asset_id: 0 }));
}

#[test]
fn scenario_c_repeated_finish_is_not_idempotent() {
    let mut m = state_a();
    assert_eq!(m.finish_mint(Origin::Signed(VALIDATOR), 0), Ok(0));
    assert_eq!(m.finish_mint(Origin::Signed(VALIDATOR), 0), Ok(1));
    assert_eq!(m.registry_nonce(0), Some(2));
    assert_eq!(m.events().len(), 3);
}

#[test]
fn scenario_d_other_caller_is_refused() {
    let mut m = state_a();
    assert_eq!(m.finish_mint(Origin::Signed(OTHER), 0), Err(RegistryError::Authorization));
    assert_eq!(m.registry_nonce(0), Some(0));
    assert_eq!(m.events().len(), 1);
}

#[test]
fn scenario_e_unknown_uid_is_not_found() {
    let mut m = state_a();
    assert_eq!(m.finish_mint(Origin::Signed(VALIDATOR), 99), Err(RegistryError::NotFound));
    assert_eq!(m.registry_nonce(99), None);
    assert_eq!(m.events().len(), 1);
}

#[test]
fn uids_increase_in_creation_order() {
    let mut m = Module::new();
    let a = m.new_registry(Origin::Signed(CREATOR), VALIDATOR).unwrap();
    let b = m.new_registry(Origin::Signed(OTHER), OTHER).unwrap();
    let c = m.new_registry(Origin::Signed(CREATOR), VALIDATOR).unwrap();
    assert_eq!((a, b, c), (0, 1, 2));
    assert_eq!(m.validator_of(1), Some(OTHER));
    assert_eq!(m.validator_of(3), None);
}

#[test]
fn registries_keep_separate_nonces() {
    let mut m = Module::new();
    m.new_registry(Origin::Signed(CREATOR), VALIDATOR).unwrap();
    m.new_registry(Origin::Signed(CREATOR), OTHER).unwrap();
    assert_eq!(m.finish_mint(Origin::Signed(VALIDATOR), 0), Ok(0));
    assert_eq!(m.finish_mint(Origin::Signed(VALIDATOR), 0), Ok(1));
    assert_eq!(m.finish_mint(Origin::Signed(OTHER), 1), Ok(0));
    assert_eq!(m.finish_mint(Origin::Signed(OTHER), 0), Err(RegistryError::Authorization));
    assert_eq!(m.registry_nonce(0), Some(2));
    assert_eq!(m.registry_nonce(1), Some(1));
}

#[test]
fn unsigned_origins_are_refused() {
    let mut m = state_a();
    assert_eq!(m.new_registry(Origin::Unsigned, VALIDATOR), Err(RegistryError::Authentication));
    assert_eq!(m.new_registry(Origin::Root, VALIDATOR), Err(RegistryError::Authentication));
    assert_eq!(m.finish_mint(Origin::Root, 0), Err(RegistryError::Authentication));
    assert_eq!(m.mint(Origin::Unsigned, 0, vec![1], 0, 0), Err(RegistryError::Authentication));
    assert_eq!(m.next_uid(), 1);
    assert_eq!(m.events().len(), 1);
}

#[test]
fn ensure_signed_returns_the_signer() {
    assert_eq!(ensure_signed(Origin::Signed(OTHER)), Ok(OTHER));
    assert_eq!(ensure_signed(Origin::Root), Err(RegistryError::Authentication));
}

#[test]
fn mint_delegates_to_the_recorded_validator() {
    let m = state_a();
    let call = m.mint(Origin::Signed(OTHER), 0, vec![4, 5, 6], 250, 10_000).unwrap();
    assert_eq!(call.caller, OTHER);
    assert_eq!(call.target, VALIDATOR);
    assert_eq!(call.payload, vec![4, 5, 6]);
    assert_eq!(call.value, 250);
    assert_eq!(call.gas_limit, 10_000);
    assert_eq!(m.registry_nonce(0), Some(0));
    assert_eq!(m.events().len(), 1);
}

#[test]
fn mint_on_unknown_uid_is_not_found() {
    let m = state_a();
    assert_eq!(m.mint(Origin::Signed(OTHER), 5, vec![], 0, 0), Err(RegistryError::NotFound));
}

#[test]
fn validate_proofs_accepts() {
    Module::validate_proofs();
}

#[test]
fn allocator_counts_up() {
    let mut a = IdAllocator::new();
    assert_eq!(a.allocate_next(), Ok(0));
    assert_eq!(a.allocate_next(), Ok(1));
    assert_eq!(a.peek(), 2);
}

#[test]
fn allocator_overflows_only_at_max() {
    let mut a = IdAllocator::starting_at(u64::MAX - 1);
    assert_eq!(a.allocate_next(), Ok(u64::MAX - 1));
    assert_eq!(a.peek(), u64::MAX);
    assert_eq!(a.allocate_next(), Err(RegistryError::Overflow));
    assert_eq!(a.peek(), u64::MAX);
    assert_eq!(a.allocate_next(), Err(RegistryError::Overflow));
}
