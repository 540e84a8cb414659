//! Tests of the pre-shared-key fold over key-exchange shared secrets.

use tunnel_state_machine::psk::combine_shared_secrets;

#[test]
fn fold_of_no_secrets_is_the_zero_key() {
    let secrets: Vec<Vec<u8>> = Vec::new();
    assert_eq!(combine_shared_secrets(&secrets, 3), vec![0u8, 0, 0]);
}

#[test]
fn fold_of_one_secret_is_that_secret() {
    let secrets = vec![vec![1u8, 2, 3, 4]];
    assert_eq!(combine_shared_secrets(&secrets, 4), vec![1u8, 2, 3, 4]);
}

#[test]
fn fold_of_two_secrets_is_their_xor() {
    let a = vec![1u8, 2, 3, 4];
    let b = vec![255u8, 0, 15, 240];
    let secrets = vec![a.clone(), b.clone()];
    assert_eq!(combine_shared_secrets(&secrets, 4), vec![254u8, 2, 12, 244]);
}

#[test]
fn fold_order_does_not_matter_for_two_secrets() {
    let a = vec![0x13u8, 0x37, 0x00, 0xFF];
    let b = vec![0xA5u8, 0x5A, 0xC3, 0x3C];
    let forward = combine_shared_secrets(&vec![a.clone(), b.clone()], 4);
    let backward = combine_shared_secrets(&vec![b, a], 4);
    assert_eq!(forward, backward);
}
