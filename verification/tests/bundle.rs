use banking_bridge::bundle::{
    derive_bundle_id_from_sanitized_transactions, digest_to_hex, id_from_signature_texts,
    BundleExecutionError, LoadAndExecuteBundleError, SanitizedBundle, SanitizedTransaction,
};
use banking_bridge::transaction_error::TransactionError;

fn transaction(signatures: Vec<[u8; 64]>) -> SanitizedTransaction {
    SanitizedTransaction { signatures }
}

fn counting() -> [u8; 64] {
    let mut bytes = [0u8; 64];
    for (i, byte) in bytes.iter_mut().enumerate() {
        *byte = i as u8;
    }
    bytes
}

#[test]
fn the_id_is_the_digest_of_the_joined_signatures() {
    let id = |count: usize| {
        let transactions: Vec<SanitizedTransaction> = vec![[0u8; 64], [1u8; 64], counting()]
            .into_iter()
            .take(count)
            .map(|signature| transaction(vec![signature]))
            .collect();
        derive_bundle_id_from_sanitized_transactions(&transactions)
    };
    assert_eq!(id(0), "e3b0c44298fc1c149afbf4c8996fb92427ae41e4649b934ca495991b7852b855");
    assert_eq!(id(1), "3138bb9bc78df27c473ecfd1410f7bd45ebac1f59cf3ff9cfe4db77aab7aedd3");
    assert_eq!(id(2), "ff84e3fba81c45dfd5cd2ae50c19524a1360d7a818c33e44f0bd3725346bca74");
    assert_eq!(id(3), "eccbe910f1002a0fdbbdb98e34ceb765bb71d694b24f11fcc8e99a2ab44f50aa");
}

#[test]
fn signatures_are_written_in_base_58() {
    let check = |signature: [u8; 64], text: &str| {
        assert_eq!(
            derive_bundle_id_from_sanitized_transactions(&[transaction(vec![signature])]),
            id_from_signature_texts(&vec![text.to_string()])
        );
    };
    let ones = |count: usize| "1".repeat(count);
    let mut signature = [0u8; 64];
    check(signature, &ones(64));
    signature[63] = 1;
    check(signature, &format!("{}2", ones(63)));
    signature[63] = 57;
    check(signature, &format!("{}z", ones(63)));
    signature[63] = 58;
    check(signature, &format!("{}21", ones(63)));
    signature[63] = 1;
    signature[62] = 1;
    check(signature, &format!("{}5S", ones(62)));
    check(
        [255u8; 64],
        "67rpwLCuS5DGA8KGZXKsVQ7dnPb9goRLoKfgGbLfQg9WoLUgNY77E2jT11fem3coV9nAkguBACzrU1iyZM4B8roQ",
    );
}

#[test]
fn every_digit_of_base_58_has_its_character() {
    let alphabet = "123456789ABCDEFGHJKLMNPQRSTUVWXYZabcdefghijkmnopqrstuvwxyz";
    for (digit, character) in alphabet.chars().enumerate().skip(1) {
        let mut signature = [0u8; 64];
        signature[63] = digit as u8;
        assert_eq!(
            derive_bundle_id_from_sanitized_transactions(&[transaction(vec![signature])]),
            id_from_signature_texts(&vec![format!("{}{character}", "1".repeat(63))])
        );
    }
}

#[test]
fn the_order_of_transactions_changes_the_id() {
    assert_eq!(
        derive_bundle_id_from_sanitized_transactions(&[
            transaction(vec![[1u8; 64]]),
            transaction(vec![[0u8; 64]]),
        ]),
        "ba81637f60f7e3e3ca82992836b28aa74435517a778b0d56c79ca60f5d7a06b0"
    );
}

#[test]
fn only_the_first_signature_counts() {
    assert_eq!(
        derive_bundle_id_from_sanitized_transactions(&[transaction(vec![[3u8; 64]])]),
        derive_bundle_id_from_sanitized_transactions(&[transaction(vec![[3u8; 64], [4u8; 64]])])
    );
    assert_eq!(*transaction(vec![[3u8; 64], [4u8; 64]]).signature(), [3u8; 64]);
}

#[test]
fn texts_are_joined_by_commas() {
    assert_eq!(
        id_from_signature_texts(&vec!["a".to_string(), "b".to_string()]),
        "1eb7c54d52831bbfe8942af0b1c56b7409523a59ed6ca99c1174fef7eb32c1b5"
    );
}

#[test]
fn a_digest_is_written_in_lowercase_hexadecimal() {
    let mut digest = [0u8; 32];
    for (i, byte) in digest.iter_mut().enumerate() {
        *byte = 17 * (i as u8 % 16);
    }
    assert_eq!(
        digest_to_hex(&digest),
        "00112233445566778899aabbccddeeff00112233445566778899aabbccddeeff"
    );
    digest[0] = 0x0f;
    digest[31] = 0xf0;
    assert!(digest_to_hex(&digest).starts_with("0f1122"));
    assert!(digest_to_hex(&digest).ends_with("ddeef0"));
}

#[test]
fn different_digests_have_different_texts() {
    assert_ne!(digest_to_hex(&[0x10; 32]), digest_to_hex(&[0x01; 32]));
}

#[test]
fn a_bundle_carries_its_id() {
    let transactions = vec![transaction(vec![[0u8; 64]])];
    let bundle_id = derive_bundle_id_from_sanitized_transactions(&transactions);
    let bundle = SanitizedBundle { transactions, bundle_id };
    assert_eq!(bundle.transactions.len(), 1);
    assert_eq!(bundle.bundle_id.len(), 64);
}

#[test]
fn errors_have_messages() {
    assert_eq!(
        BundleExecutionError::BankProcessingTimeLimitReached.message("ignored"),
        "The bank has hit the max allotted time for processing transactions"
    );
    let failure = LoadAndExecuteBundleError::TransactionError {
        index: 1,
        execution_result: Err(TransactionError::AccountInUse),
    };
    let err = BundleExecutionError::from(failure);
    assert_eq!(err, BundleExecutionError::TransactionFailure(failure));
    assert_eq!(err.message("no luck"), "Runtime error while executing the bundle: no luck");
}
