use tx_admission::{
    calculate_base_deposit_fee, decimal_string, hex_string, readyz, sha256, Address, Denom,
    Deposit,
};

#[test]
fn decimal_rendering_matches_std() {
    assert_eq!(decimal_string(0), "0");
    assert_eq!(decimal_string(7), "7");
    assert_eq!(decimal_string(300_000), "300000");
    assert_eq!(decimal_string(256_000), "256000");
    assert_eq!(decimal_string(usize::MAX), usize::MAX.to_string());
}

#[test]
fn hex_rendering_matches_std() {
    assert_eq!(hex_string(&vec![]), "");
    assert_eq!(hex_string(&vec![0x00, 0x0f, 0xa5, 0xff]), "000fa5ff");
}

#[test]
fn sha256_matches_the_reference_implementation() {
    let input = b"other".to_vec();
    let ours = sha256(&input);
    let theirs = <sha2::Sha256 as sha2::Digest>::digest(b"other");
    assert_eq!(ours.as_slice(), theirs.as_slice());
    assert_eq!(ours.len(), 32);
}

#[test]
fn trace_denom_normalizes_to_the_digest_of_its_text() {
    let denom = Denom::TracePrefixed(b"other".to_vec());
    let id = denom.to_ibc_prefixed();
    let expected = <sha2::Sha256 as sha2::Digest>::digest(b"other");
    assert_eq!(id.as_bytes().as_slice(), expected.as_slice());
}

#[test]
fn already_prefixed_denom_is_its_own_normal_form() {
    let bytes: Vec<u8> = (0u8..32).collect();
    let id0 = tx_admission::AssetId::from_bytes(bytes.clone());
    let denom = Denom::IbcPrefixed(id0);
    assert_eq!(denom.to_ibc_prefixed().as_bytes(), &bytes);
}

#[test]
fn ibc_display_is_prefix_and_hex() {
    let bytes: Vec<u8> = vec![0xab; 32];
    let id = tx_admission::AssetId::from_bytes(bytes);
    let shown = id.display_string();
    assert!(shown.starts_with("ibc/"));
    assert_eq!(&shown[4..], "ab".repeat(32));
}

#[test]
fn deposit_wire_size_is_exact() {
    let deposit = Deposit {
        bridge_address: Address { prefix: b"astria".to_vec(), bytes: vec![0u8; 20] },
        rollup_id: vec![0u8; 32],
        amount: 100,
        asset: Denom::TracePrefixed(b"nria".to_vec()),
        destination_chain_address: b"ethereum-addr".to_vec(),
        source_transaction_id: vec![0u8; 32],
        source_action_index: 0,
    };
    // bridge address: bech32 text of 6 + 1 + 32 + 6 = 45 bytes, as a string
    // inside a message: (1 + 1 + (1 + 1 + 45)) = 49; rollup id: 36; amount
    // with one non-zero limb: 4; asset "nria": 6; destination: 15; source
    // transaction id as 64 hex chars in a message: 68; index zero: 0.
    assert_eq!(calculate_base_deposit_fee(&deposit), 49 + 36 + 4 + 6 + 15 + 68);
}

fn deposit_with_index(source_action_index: u64) -> Deposit {
    Deposit {
        bridge_address: Address { prefix: b"astria".to_vec(), bytes: vec![0u8; 20] },
        rollup_id: vec![0u8; 32],
        amount: 0,
        asset: Denom::TracePrefixed(b"nria".to_vec()),
        destination_chain_address: b"d".to_vec(),
        source_transaction_id: vec![0u8; 32],
        source_action_index,
    }
}

#[test]
fn deposit_wire_size_counts_the_action_index() {
    // index 300 takes a two-byte varint where index 1 takes one byte.
    assert_eq!(
        calculate_base_deposit_fee(&deposit_with_index(300)),
        calculate_base_deposit_fee(&deposit_with_index(1)) + 1
    );
}

#[test]
fn readyz_reflects_the_composer_status() {
    let (status, body) = readyz(true).into_response();
    assert_eq!(status, 200);
    assert_eq!(body, "{\"status\":\"ok\"}");
    let (status, body) = readyz(false).into_response();
    assert_eq!(status, 503);
    assert_eq!(body, "{\"status\":\"not ready\"}");
}
