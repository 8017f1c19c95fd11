use airdrop::bytes::{array_eq, is_zero};
use airdrop::emitter::{EmitterRegistry, ForeignEmitter, RegisterError, HOME_CHAIN};

#[test]
fn emitter_verifies_its_own_address_only() {
    let emitter = ForeignEmitter { chain: 2, address: [0xAA; 32] };
    assert!(emitter.verify(&[0xAA; 32]));
    let mut other = [0xAA; 32];
    other[31] = 0xAB;
    assert!(!emitter.verify(&other));
    assert!(!emitter.verify(&[0; 32]));
}

#[test]
fn empty_registry_verifies_nothing() {
    let registry = EmitterRegistry::new();
    assert!(!registry.verify(2, &[0xAA; 32]));
    assert!(!registry.verify(0, &[0; 32]));
    assert_eq!(registry.get(2), None);
}

#[test]
fn registered_emitter_is_verified_byte_for_byte() {
    let mut registry = EmitterRegistry::new();
    assert_eq!(registry.register(2, [0xAA; 32]), Ok(()));
    assert_eq!(registry.register(5, [0xBB; 32]), Ok(()));
    assert!(registry.verify(2, &[0xAA; 32]));
    assert!(registry.verify(5, &[0xBB; 32]));
    assert!(!registry.verify(2, &[0xBB; 32]));
    assert!(!registry.verify(5, &[0xAA; 32]));
    assert!(!registry.verify(3, &[0xAA; 32]));
    let mut near = [0xAA; 32];
    near[0] = 0;
    assert!(!registry.verify(2, &near));
    assert_eq!(registry.get(2), Some(ForeignEmitter { chain: 2, address: [0xAA; 32] }));
    assert_eq!(registry.get(3), None);
}

#[test]
fn home_chain_is_never_registered() {
    let mut registry = EmitterRegistry::new();
    assert_eq!(HOME_CHAIN, 1);
    assert_eq!(registry.register(HOME_CHAIN, [0xAA; 32]), Err(RegisterError::HomeChain));
    assert!(!registry.verify(HOME_CHAIN, &[0xAA; 32]));
}

#[test]
fn zero_address_is_never_registered() {
    let mut registry = EmitterRegistry::new();
    assert_eq!(registry.register(2, [0; 32]), Err(RegisterError::ZeroAddress));
    assert!(!registry.verify(2, &[0; 32]));
    let mut almost = [0u8; 32];
    almost[17] = 1;
    assert_eq!(registry.register(2, almost), Ok(()));
}

#[test]
fn a_chain_is_registered_once() {
    let mut registry = EmitterRegistry::new();
    assert_eq!(registry.register(2, [0xAA; 32]), Ok(()));
    assert_eq!(registry.register(2, [0xBB; 32]), Err(RegisterError::AlreadyRegistered));
    assert_eq!(registry.register(2, [0xAA; 32]), Err(RegisterError::AlreadyRegistered));
    assert!(registry.verify(2, &[0xAA; 32]));
    assert!(!registry.verify(2, &[0xBB; 32]));
}

#[test]
fn byte_strings_compare_in_every_position() {
    assert!(array_eq(&[1u8, 2, 3], &[1u8, 2, 3]));
    assert!(!array_eq(&[1u8, 2, 3], &[1u8, 2, 4]));
    assert!(!array_eq(&[0u8, 2, 3], &[1u8, 2, 3]));
    assert!(is_zero(&[0u8; 32]));
    assert!(!is_zero(&[0u8, 0, 1, 0]));
    assert!(is_zero::<0>(&[]));
}

#[test]
fn default_emitter_cannot_be_registered() {
    let record = ForeignEmitter::default();
    assert_eq!(record.chain, 0);
    assert_eq!(record.address, [0u8; 32]);
    let mut registry = EmitterRegistry::new();
    assert_eq!(registry.register(record.chain, record.address), Err(RegisterError::ZeroAddress));
}
