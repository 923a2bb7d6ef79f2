use pump_raydium::codec::{
    decode_config, decode_curve, encode_config, encode_curve, CONFIG_RECORD_LEN, CURVE_RECORD_LEN,
};
use pump_raydium::config::Config;
use pump_raydium::configure::{Configure, StorageSlot, VAULT_BOOTSTRAP_LAMPORTS};
use pump_raydium::curve::BondingCurve;
use pump_raydium::errors::ContractError;
use pump_raydium::range::AmountConfig;

fn sample_config(authority: u64) -> Config {
    Config {
        authority,
        team_wallet: 2,
        lamport_amount_config: AmountConfig { min: 1, max: 1_000_000_000 },
        token_supply_config: AmountConfig { min: 1, max: 1_000_000_000 },
        token_decimals_config: AmountConfig { min: 0, max: 9 },
        initial_virtual_sol_reserves_config: 30_000_000_000,
        initial_virtual_token_reserves_config: 1_000_000_000_000_000,
        initial_real_token_reserves_config: 793_100_000_000_000,
    }
}

fn fresh_state(payer_key: u64) -> Configure {
    Configure {
        payer_key,
        payer_lamports: 100_000_000,
        config: StorageSlot { owned: false, lamports: 0, data: Vec::new() },
        global_vault_lamports: 0,
        rent_base: 1_000,
        rent_per_byte: 10,
    }
}

#[test]
fn first_configure_records_caller_as_authority() {
    let mut st = fresh_state(5);
    let proposed = sample_config(99);
    let r = st.handler(proposed);
    assert_eq!(r, Ok(()));
    assert!(st.config.owned);
    let stored = decode_config(&st.config.data).expect("fresh record must decode");
    assert_eq!(stored.authority, 5);
    assert_eq!(stored.team_wallet, proposed.team_wallet);
    assert_eq!(stored.lamport_amount_config, proposed.lamport_amount_config);
    assert_eq!(stored.token_supply_config, proposed.token_supply_config);
    assert_eq!(stored.token_decimals_config, proposed.token_decimals_config);
}

#[test]
fn first_configure_funds_deposit_and_vault() {
    let mut st = fresh_state(5);
    let r = st.handler(sample_config(5));
    assert_eq!(r, Ok(()));
    let cost = 1_000 + 10 * CONFIG_RECORD_LEN as u64;
    assert_eq!(st.config.lamports, cost);
    assert_eq!(st.config.data.len(), CONFIG_RECORD_LEN);
    assert_eq!(st.global_vault_lamports, VAULT_BOOTSTRAP_LAMPORTS);
    assert_eq!(st.payer_lamports, 100_000_000 - cost - VAULT_BOOTSTRAP_LAMPORTS);
}

#[test]
fn second_configure_by_same_caller_updates_fields() {
    let mut st = fresh_state(5);
    assert_eq!(st.handler(sample_config(5)), Ok(()));
    let mut updated = sample_config(5);
    updated.team_wallet = 42;
    updated.token_decimals_config = AmountConfig { min: 2, max: 6 };
    assert_eq!(st.handler(updated), Ok(()));
    let stored = decode_config(&st.config.data).expect("updated record must decode");
    assert_eq!(stored, updated);
}

#[test]
fn second_configure_by_other_caller_fails_and_changes_nothing() {
    let mut st = fresh_state(5);
    assert_eq!(st.handler(sample_config(5)), Ok(()));
    let before_data = st.config.data.clone();
    let before_lamports = st.config.lamports;
    st.payer_key = 6;
    let r = st.handler(sample_config(6));
    assert_eq!(r, Err(ContractError::IncorrectAuthority));
    assert_eq!(st.config.data, before_data);
    assert_eq!(st.config.lamports, before_lamports);
    assert_eq!(st.payer_lamports, 100_000_000 - before_lamports - VAULT_BOOTSTRAP_LAMPORTS);
}

#[test]
fn foreign_slot_data_is_rejected() {
    let mut st = fresh_state(5);
    st.config.owned = true;
    st.config.lamports = 10_000;
    st.config.data = vec![0u8; CONFIG_RECORD_LEN];
    let r = st.handler(sample_config(5));
    assert_eq!(r, Err(ContractError::IncorrectConfigAccount));
    assert_eq!(st.config.data, vec![0u8; CONFIG_RECORD_LEN]);
}

#[test]
fn truncated_slot_data_is_rejected() {
    let mut st = fresh_state(5);
    let mut bytes = encode_config(&sample_config(5));
    bytes.truncate(CONFIG_RECORD_LEN - 1);
    st.config.owned = true;
    st.config.lamports = 10_000;
    st.config.data = bytes;
    assert_eq!(st.handler(sample_config(5)), Err(ContractError::IncorrectConfigAccount));
}

#[test]
fn poor_caller_fails_with_no_side_effects() {
    let mut st = fresh_state(5);
    st.payer_lamports = 100;
    let r = st.handler(sample_config(5));
    assert_eq!(r, Err(ContractError::CollaboratorFailure));
    assert!(!st.config.owned);
    assert_eq!(st.payer_lamports, 100);
    assert_eq!(st.global_vault_lamports, 0);
}

#[test]
fn caller_covering_deposit_but_not_bootstrap_fails() {
    let mut st = fresh_state(5);
    let cost = 1_000 + 10 * CONFIG_RECORD_LEN as u64;
    st.payer_lamports = cost + VAULT_BOOTSTRAP_LAMPORTS - 1;
    assert_eq!(st.handler(sample_config(5)), Err(ContractError::CollaboratorFailure));
    assert!(!st.config.owned);
    assert_eq!(st.payer_lamports, cost + VAULT_BOOTSTRAP_LAMPORTS - 1);
}

#[test]
fn vault_bootstrap_happens_once() {
    let mut st = fresh_state(5);
    assert_eq!(st.handler(sample_config(5)), Ok(()));
    assert_eq!(st.global_vault_lamports, VAULT_BOOTSTRAP_LAMPORTS);
    let payer_after_first = st.payer_lamports;
    assert_eq!(st.handler(sample_config(5)), Ok(()));
    // Same size, same schedule: no deposit delta, and no second bootstrap.
    assert_eq!(st.global_vault_lamports, VAULT_BOOTSTRAP_LAMPORTS);
    assert_eq!(st.payer_lamports, payer_after_first);
}

#[test]
fn update_tops_up_deposit_when_required_grows() {
    let mut st = fresh_state(5);
    assert_eq!(st.handler(sample_config(5)), Ok(()));
    let old_cost = 1_000 + 10 * CONFIG_RECORD_LEN as u64;
    assert_eq!(st.config.lamports, old_cost);
    // The host's deposit schedule rises; the next rewrite must fund the delta
    // before writing.
    st.rent_per_byte = 25;
    let payer_before = st.payer_lamports;
    assert_eq!(st.handler(sample_config(5)), Ok(()));
    let new_cost = 1_000 + 25 * CONFIG_RECORD_LEN as u64;
    assert_eq!(st.config.lamports, new_cost);
    assert_eq!(st.payer_lamports, payer_before - (new_cost - old_cost));
    assert_eq!(st.config.data.len(), CONFIG_RECORD_LEN);
}

#[test]
fn update_shrinks_oversized_slot_to_payload() {
    // A record written under a longer, older layout still decodes (trailing
    // bytes are ignored) and the rewrite re-synchronizes capacity.
    let mut st = fresh_state(5);
    let mut oversized = encode_config(&sample_config(5));
    oversized.extend_from_slice(&[7u8; 24]);
    st.config.owned = true;
    st.config.lamports = 1_000_000;
    st.config.data = oversized;
    assert_eq!(st.handler(sample_config(5)), Ok(()));
    assert_eq!(st.config.data.len(), CONFIG_RECORD_LEN);
    // Deposit already exceeded the requirement: no top-up, no refund.
    assert_eq!(st.config.lamports, 1_000_000);
}

#[test]
fn config_record_bytes_are_tag_then_fields() {
    let cfg = sample_config(0x1122_3344_5566_7788);
    let bytes = encode_config(&cfg);
    assert_eq!(bytes.len(), CONFIG_RECORD_LEN);
    assert_eq!(&bytes[0..8], b"config_1");
    assert_eq!(
        &bytes[8..16],
        &[0x88, 0x77, 0x66, 0x55, 0x44, 0x33, 0x22, 0x11],
        "authority is stored little-endian right after the tag"
    );
    assert_eq!(decode_config(&bytes), Some(cfg));
}

#[test]
fn config_decode_rejects_wrong_tag() {
    let mut bytes = encode_config(&sample_config(5));
    bytes[0] ^= 0xff;
    assert_eq!(decode_config(&bytes), None);
    assert_eq!(decode_config(&Vec::new()), None);
}

#[test]
fn curve_record_round_trips() {
    let bc = BondingCurve {
        token_mint: 9,
        creator: 7,
        init_lamport: 1_000_000,
        token_total_supply: 1_000_000_000_000,
        virtual_sol_reserves: 30_000_000_000,
        virtual_token_reserves: 1_000_000_000_000_000,
        real_sol_reserves: 0,
        real_token_reserves: 793_100_000_000_000,
        is_completed: false,
    };
    let bytes = encode_curve(&bc);
    assert_eq!(bytes.len(), CURVE_RECORD_LEN);
    assert_eq!(&bytes[0..8], b"curve__1");
    assert_eq!(bytes[72], 0, "completion flag is the last byte");
    assert_eq!(decode_curve(&bytes), Some(bc));
    let mut completed = bc;
    completed.is_completed = true;
    assert_eq!(decode_curve(&encode_curve(&completed)), Some(completed));
    let mut with_trailing = bytes.clone();
    with_trailing.extend_from_slice(&[9u8; 16]);
    assert_eq!(decode_curve(&with_trailing), Some(bc), "trailing bytes are ignored");
}

#[test]
fn curve_decode_rejects_bad_flag_and_tag() {
    let bc = BondingCurve {
        token_mint: 1,
        creator: 2,
        init_lamport: 3,
        token_total_supply: 4,
        virtual_sol_reserves: 5,
        virtual_token_reserves: 6,
        real_sol_reserves: 7,
        real_token_reserves: 8,
        is_completed: true,
    };
    let mut bytes = encode_curve(&bc);
    bytes[72] = 2;
    assert_eq!(decode_curve(&bytes), None);
    let mut wrong_tag = encode_curve(&bc);
    wrong_tag[7] = b'2';
    assert_eq!(decode_curve(&wrong_tag), None);
}
