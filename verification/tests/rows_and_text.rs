use vista::error::IndexerError;
use vista::models::{AccountInfo, Address, Signature, TransactionInfo};
use vista::rows::{
    account_from_row, account_row, to_signed, to_unsigned, transaction_from_row, transaction_row,
    AccountRow, TransactionRow,
};

const ZERO_ADDRESS: &str = "11111111111111111111111111111111";
const SYSVAR_CLOCK: &str = "SysvarC1ock11111111111111111111111111111111";

#[test]
fn an_address_prints_as_base58() {
    assert_eq!(Address::new_from_array([0; 32]).to_string(), ZERO_ADDRESS);
    let key = solana_sdk::pubkey::Pubkey::new_from_array([7; 32]);
    assert_eq!(Address::new_from_array([7; 32]).to_string(), key.to_string());
    assert_ne!(Address::new_from_array([7; 32]).to_string(), Address::new_from_array([8; 32]).to_string());
}

#[test]
fn an_address_reads_back_from_its_text() {
    assert_eq!(Address::from_str(ZERO_ADDRESS), Some(Address::new_from_array([0; 32])));
    let clock = Address::from_str(SYSVAR_CLOCK).unwrap();
    assert_eq!(clock.to_string(), SYSVAR_CLOCK);
    for n in [1u8, 77, 255] {
        let a = Address::new_from_array([n; 32]);
        assert_eq!(Address::from_str(&a.to_string()), Some(a));
        assert_eq!(a.to_bytes(), [n; 32]);
    }
}

#[test]
fn a_text_that_is_no_address_is_refused() {
    assert_eq!(Address::from_str(""), None);
    assert_eq!(Address::from_str("1111"), None);
    assert_eq!(Address::from_str("0OIl"), None);
    assert_eq!(Address::from_str("not an address"), None);
    assert_eq!(Address::from_str(&"1".repeat(45)), None);
}

#[test]
fn a_signature_prints_and_reads_back() {
    let s = Signature::new_from_array([9; 64]);
    let text = s.to_string();
    assert_eq!(text, solana_sdk::signature::Signature::from([9u8; 64]).to_string());
    assert_eq!(Signature::from_str(&text), Some(s));
    assert_eq!(Signature::new_from_array([0; 64]).to_string(), "1".repeat(64));
    assert_eq!(Signature::from_str("abc"), None);
    assert!(s != Signature::new_from_array([8; 64]));
}

#[test]
fn unsigned_numbers_keep_their_bits_in_signed_columns() {
    assert_eq!(to_signed(0), 0);
    assert_eq!(to_signed(5), 5);
    assert_eq!(to_signed(i64::MAX as u64), i64::MAX);
    assert_eq!(to_signed(1 << 63), i64::MIN);
    assert_eq!(to_signed(u64::MAX), -1);
    assert_eq!(to_unsigned(-1), u64::MAX);
    assert_eq!(to_unsigned(i64::MIN), 1 << 63);
    assert_eq!(to_unsigned(42), 42);
    for u in [0u64, 1, 1 << 62, (1 << 63) - 1, 1 << 63, u64::MAX - 1, u64::MAX] {
        assert_eq!(to_unsigned(to_signed(u)), u);
        assert_eq!(to_signed(u), u as i64);
    }
}

#[test]
fn an_account_goes_to_a_row_and_back() {
    let account = AccountInfo {
        pubkey: Address::new_from_array([0; 32]),
        lamports: u64::MAX,
        owner: Address::new_from_array([3; 32]),
        executable: true,
        rent_epoch: 361,
        data: b"hello".to_vec(),
    };
    let row = account_row(&account);
    assert_eq!(
        row,
        AccountRow {
            pubkey: ZERO_ADDRESS.to_string(),
            lamports: -1,
            owner: Address::new_from_array([3; 32]).to_string(),
            executable: true,
            rent_epoch: 361,
            data: "aGVsbG8=".to_string(),
        }
    );
    assert_eq!(account_from_row(&row), Ok(account));
}

#[test]
fn a_row_that_does_not_read_back_is_a_storage_error() {
    let good = AccountRow {
        pubkey: ZERO_ADDRESS.to_string(),
        lamports: 1,
        owner: SYSVAR_CLOCK.to_string(),
        executable: false,
        rent_epoch: 0,
        data: "".to_string(),
    };
    assert_eq!(account_from_row(&good).map(|a| a.data), Ok(Vec::new()));
    let bad_key = AccountRow { pubkey: "???".to_string(), ..good.clone() };
    assert_eq!(
        account_from_row(&bad_key),
        Err(IndexerError::StorageError("invalid pubkey: ???".to_string()))
    );
    let bad_owner = AccountRow { owner: "x".to_string(), data: "%%".to_string(), ..good.clone() };
    assert_eq!(
        account_from_row(&bad_owner),
        Err(IndexerError::StorageError("invalid owner: x".to_string()))
    );
    let bad_data = AccountRow { data: "%%".to_string(), ..good.clone() };
    assert_eq!(
        account_from_row(&bad_data),
        Err(IndexerError::StorageError(format!("invalid data for account: {}", ZERO_ADDRESS)))
    );
}

#[test]
fn a_transaction_goes_to_a_row_and_back() {
    let transaction = TransactionInfo {
        signature: Signature::new_from_array([5; 64]),
        status: r#"{"slot": 9}"#.to_string(),
    };
    let row = transaction_row(&transaction);
    assert_eq!(row.signature, transaction.signature.to_string());
    assert_eq!(row.status, r#"{"slot": 9}"#);
    assert_eq!(transaction_from_row(&row), Ok(transaction));
    let bad = TransactionRow { signature: "sig".to_string(), status: String::new() };
    assert_eq!(
        transaction_from_row(&bad),
        Err(IndexerError::StorageError("invalid signature: sig".to_string()))
    );
}
