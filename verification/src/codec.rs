//! Tagged byte layout of the persisted records.
//!
//! Each record is stored as `[type tag][serialized fields]`: an 8-byte tag
//! that distinguishes record kinds (and uninitialized storage), followed by
//! the fields as little-endian 64-bit words. A decoder validates the tag
//! before interpreting any field and ignores trailing bytes, so a record
//! written under a longer, older layout can still be read back and shrunk.

use vstd::prelude::*;
use vstd::bytes::{
    lemma_auto_spec_u64_to_from_le_bytes, spec_u64_from_le_bytes, spec_u64_to_le_bytes,
    u64_from_le_bytes, u64_to_le_bytes,
};
use vstd::slice::slice_subrange;
use crate::config::Config;
use crate::curve::BondingCurve;
use crate::range::AmountConfig;

verus! {

/// Type tag of the configuration record ("config_1" as a little-endian word).
pub const CONFIG_RECORD_TAG: u64 = 0x315f_6769_666e_6f63;

/// Type tag of the bonding-curve record ("curve__1" as a little-endian word).
pub const CURVE_RECORD_TAG: u64 = 0x315f_5f65_7672_7563;

/// Serialized size of a configuration record: tag plus eleven 64-bit fields.
pub const CONFIG_RECORD_LEN: usize = 96;

/// Serialized size of a bonding-curve record: tag, eight 64-bit fields, and
/// one completion-flag byte.
pub const CURVE_RECORD_LEN: usize = 73;

/// The exact bytes a configuration record occupies on the ledger.
pub open spec fn spec_encode_config(c: Config) -> Seq<u8> {
    spec_u64_to_le_bytes(CONFIG_RECORD_TAG) + spec_u64_to_le_bytes(c.authority)
        + spec_u64_to_le_bytes(c.team_wallet) + spec_u64_to_le_bytes(c.lamport_amount_config.min)
        + spec_u64_to_le_bytes(c.lamport_amount_config.max)
        + spec_u64_to_le_bytes(c.token_supply_config.min)
        + spec_u64_to_le_bytes(c.token_supply_config.max)
        + spec_u64_to_le_bytes(c.token_decimals_config.min)
        + spec_u64_to_le_bytes(c.token_decimals_config.max)
        + spec_u64_to_le_bytes(c.initial_virtual_sol_reserves_config)
        + spec_u64_to_le_bytes(c.initial_virtual_token_reserves_config)
        + spec_u64_to_le_bytes(c.initial_real_token_reserves_config)
}

/// What stored bytes mean: `Some` configuration exactly when the tag matches
/// and every field is present; trailing bytes are ignored.
pub open spec fn spec_decode_config(d: Seq<u8>) -> Option<Config> {
    if d.len() < CONFIG_RECORD_LEN {
        Option::<Config>::None
    } else if spec_u64_from_le_bytes(d.subrange(0, 8)) != CONFIG_RECORD_TAG {
        Option::<Config>::None
    } else {
        Some(
            Config {
                authority: spec_u64_from_le_bytes(d.subrange(8, 16)),
                team_wallet: spec_u64_from_le_bytes(d.subrange(16, 24)),
                lamport_amount_config: AmountConfig {
                    min: spec_u64_from_le_bytes(d.subrange(24, 32)),
                    max: spec_u64_from_le_bytes(d.subrange(32, 40)),
                },
                token_supply_config: AmountConfig {
                    min: spec_u64_from_le_bytes(d.subrange(40, 48)),
                    max: spec_u64_from_le_bytes(d.subrange(48, 56)),
                },
                token_decimals_config: AmountConfig {
                    min: spec_u64_from_le_bytes(d.subrange(56, 64)),
                    max: spec_u64_from_le_bytes(d.subrange(64, 72)),
                },
                initial_virtual_sol_reserves_config: spec_u64_from_le_bytes(d.subrange(72, 80)),
                initial_virtual_token_reserves_config: spec_u64_from_le_bytes(d.subrange(80, 88)),
                initial_real_token_reserves_config: spec_u64_from_le_bytes(d.subrange(88, 96)),
            },
        )
    }
}

/// Serializes a configuration record: type tag, then every field in
/// declaration order as little-endian words.
pub fn encode_config(c: &Config) -> (v: Vec<u8>)
    ensures
        v@ == spec_encode_config(*c),
        v@.len() == CONFIG_RECORD_LEN,
{
    proof {
        lemma_auto_spec_u64_to_from_le_bytes();
    }
    let mut v = u64_to_le_bytes(CONFIG_RECORD_TAG);
    let mut b = u64_to_le_bytes(c.authority);
    v.append(&mut b);
    let mut b = u64_to_le_bytes(c.team_wallet);
    v.append(&mut b);
    let mut b = u64_to_le_bytes(c.lamport_amount_config.min);
    v.append(&mut b);
    let mut b = u64_to_le_bytes(c.lamport_amount_config.max);
    v.append(&mut b);
    let mut b = u64_to_le_bytes(c.token_supply_config.min);
    v.append(&mut b);
    let mut b = u64_to_le_bytes(c.token_supply_config.max);
    v.append(&mut b);
    let mut b = u64_to_le_bytes(c.token_decimals_config.min);
    v.append(&mut b);
    let mut b = u64_to_le_bytes(c.token_decimals_config.max);
    v.append(&mut b);
    let mut b = u64_to_le_bytes(c.initial_virtual_sol_reserves_config);
    v.append(&mut b);
    let mut b = u64_to_le_bytes(c.initial_virtual_token_reserves_config);
    v.append(&mut b);
    let mut b = u64_to_le_bytes(c.initial_real_token_reserves_config);
    v.append(&mut b);
    v
}

/// Reads a configuration record back from stored bytes, validating the type
/// tag before interpreting any field.
pub fn decode_config(data: &Vec<u8>) -> (r: Option<Config>)
    ensures
        r == spec_decode_config(data@),
{
    if data.len() < CONFIG_RECORD_LEN {
        return None;
    }
    let s = data.as_slice();
    let tag = u64_from_le_bytes(slice_subrange(s, 0, 8));
    if tag != CONFIG_RECORD_TAG {
        return None;
    }
    Some(
        Config {
            authority: u64_from_le_bytes(slice_subrange(s, 8, 16)),
            team_wallet: u64_from_le_bytes(slice_subrange(s, 16, 24)),
            lamport_amount_config: AmountConfig {
                min: u64_from_le_bytes(slice_subrange(s, 24, 32)),
                max: u64_from_le_bytes(slice_subrange(s, 32, 40)),
            },
            token_supply_config: AmountConfig {
                min: u64_from_le_bytes(slice_subrange(s, 40, 48)),
                max: u64_from_le_bytes(slice_subrange(s, 48, 56)),
            },
            token_decimals_config: AmountConfig {
                min: u64_from_le_bytes(slice_subrange(s, 56, 64)),
                max: u64_from_le_bytes(slice_subrange(s, 64, 72)),
            },
            initial_virtual_sol_reserves_config: u64_from_le_bytes(slice_subrange(s, 72, 80)),
            initial_virtual_token_reserves_config: u64_from_le_bytes(slice_subrange(s, 80, 88)),
            initial_real_token_reserves_config: u64_from_le_bytes(slice_subrange(s, 88, 96)),
        },
    )
}

/// Decoding inverts encoding: a freshly written configuration record always
/// reads back as the value that was stored, even with trailing bytes left
/// over from a longer, older layout.
pub proof fn lemma_config_round_trip(c: Config, extra: Seq<u8>)
    ensures
        spec_encode_config(c).len() == CONFIG_RECORD_LEN,
        spec_decode_config(spec_encode_config(c)) == Some(c),
        spec_decode_config(spec_encode_config(c) + extra) == Some(c),
{
    lemma_auto_spec_u64_to_from_le_bytes();
    let e = spec_encode_config(c);
    let f = e + extra;
    assert(e.subrange(0, 8) =~= spec_u64_to_le_bytes(CONFIG_RECORD_TAG));
    assert(e.subrange(8, 16) =~= spec_u64_to_le_bytes(c.authority));
    assert(e.subrange(16, 24) =~= spec_u64_to_le_bytes(c.team_wallet));
    assert(e.subrange(24, 32) =~= spec_u64_to_le_bytes(c.lamport_amount_config.min));
    assert(e.subrange(32, 40) =~= spec_u64_to_le_bytes(c.lamport_amount_config.max));
    assert(e.subrange(40, 48) =~= spec_u64_to_le_bytes(c.token_supply_config.min));
    assert(e.subrange(48, 56) =~= spec_u64_to_le_bytes(c.token_supply_config.max));
    assert(e.subrange(56, 64) =~= spec_u64_to_le_bytes(c.token_decimals_config.min));
    assert(e.subrange(64, 72) =~= spec_u64_to_le_bytes(c.token_decimals_config.max));
    assert(e.subrange(72, 80) =~= spec_u64_to_le_bytes(c.initial_virtual_sol_reserves_config));
    assert(e.subrange(80, 88) =~= spec_u64_to_le_bytes(c.initial_virtual_token_reserves_config));
    assert(e.subrange(88, 96) =~= spec_u64_to_le_bytes(c.initial_real_token_reserves_config));
    assert(spec_decode_config(e) == Some(c));
    assert forall|i: int, j: int| 0 <= i <= j <= e.len() implies f.subrange(i, j) =~= e.subrange(
        i,
        j,
    ) by {
    }
    assert(spec_decode_config(f) == Some(c));
}

/// The exact bytes a bonding-curve record occupies on the ledger.
pub open spec fn spec_encode_curve(bc: BondingCurve) -> Seq<u8> {
    spec_u64_to_le_bytes(CURVE_RECORD_TAG) + spec_u64_to_le_bytes(bc.token_mint)
        + spec_u64_to_le_bytes(bc.creator) + spec_u64_to_le_bytes(bc.init_lamport)
        + spec_u64_to_le_bytes(bc.token_total_supply) + spec_u64_to_le_bytes(
        bc.virtual_sol_reserves,
    ) + spec_u64_to_le_bytes(bc.virtual_token_reserves) + spec_u64_to_le_bytes(
        bc.real_sol_reserves,
    ) + spec_u64_to_le_bytes(bc.real_token_reserves) + seq![
        if bc.is_completed {
            1u8
        } else {
            0u8
        },
    ]
}

/// What stored bytes mean as a bonding-curve record: tag validated first,
/// completion flag restricted to the two encoded values, trailing bytes
/// ignored.
pub open spec fn spec_decode_curve(d: Seq<u8>) -> Option<BondingCurve> {
    if d.len() < CURVE_RECORD_LEN {
        Option::<BondingCurve>::None
    } else if spec_u64_from_le_bytes(d.subrange(0, 8)) != CURVE_RECORD_TAG {
        Option::<BondingCurve>::None
    } else if d[72] != 0 && d[72] != 1 {
        Option::<BondingCurve>::None
    } else {
        Some(
            BondingCurve {
                token_mint: spec_u64_from_le_bytes(d.subrange(8, 16)),
                creator: spec_u64_from_le_bytes(d.subrange(16, 24)),
                init_lamport: spec_u64_from_le_bytes(d.subrange(24, 32)),
                token_total_supply: spec_u64_from_le_bytes(d.subrange(32, 40)),
                virtual_sol_reserves: spec_u64_from_le_bytes(d.subrange(40, 48)),
                virtual_token_reserves: spec_u64_from_le_bytes(d.subrange(48, 56)),
                real_sol_reserves: spec_u64_from_le_bytes(d.subrange(56, 64)),
                real_token_reserves: spec_u64_from_le_bytes(d.subrange(64, 72)),
                is_completed: d[72] == 1,
            },
        )
    }
}

/// Serializes a bonding-curve record: type tag, the eight 64-bit fields in
/// declaration order, then the completion flag as one byte.
pub fn encode_curve(bc: &BondingCurve) -> (v: Vec<u8>)
    ensures
        v@ == spec_encode_curve(*bc),
        v@.len() == CURVE_RECORD_LEN,
{
    proof {
        lemma_auto_spec_u64_to_from_le_bytes();
    }
    let mut v = u64_to_le_bytes(CURVE_RECORD_TAG);
    let mut b = u64_to_le_bytes(bc.token_mint);
    v.append(&mut b);
    let mut b = u64_to_le_bytes(bc.creator);
    v.append(&mut b);
    let mut b = u64_to_le_bytes(bc.init_lamport);
    v.append(&mut b);
    let mut b = u64_to_le_bytes(bc.token_total_supply);
    v.append(&mut b);
    let mut b = u64_to_le_bytes(bc.virtual_sol_reserves);
    v.append(&mut b);
    let mut b = u64_to_le_bytes(bc.virtual_token_reserves);
    v.append(&mut b);
    let mut b = u64_to_le_bytes(bc.real_sol_reserves);
    v.append(&mut b);
    let mut b = u64_to_le_bytes(bc.real_token_reserves);
    v.append(&mut b);
    v.push(if bc.is_completed {
        1u8
    } else {
        0u8
    });
    proof {
        assert(v@ =~= spec_encode_curve(*bc));
    }
    v
}

/// Reads a bonding-curve record back from stored bytes, validating the type
/// tag before interpreting any field.
pub fn decode_curve(data: &Vec<u8>) -> (r: Option<BondingCurve>)
    ensures
        r == spec_decode_curve(data@),
{
    if data.len() < CURVE_RECORD_LEN {
        return None;
    }
    let s = data.as_slice();
    let tag = u64_from_le_bytes(slice_subrange(s, 0, 8));
    if tag != CURVE_RECORD_TAG {
        return None;
    }
    let flag = *vstd::slice::slice_index_get(s, 72);
    if flag != 0 && flag != 1 {
        return None;
    }
    Some(
        BondingCurve {
            token_mint: u64_from_le_bytes(slice_subrange(s, 8, 16)),
            creator: u64_from_le_bytes(slice_subrange(s, 16, 24)),
            init_lamport: u64_from_le_bytes(slice_subrange(s, 24, 32)),
            token_total_supply: u64_from_le_bytes(slice_subrange(s, 32, 40)),
            virtual_sol_reserves: u64_from_le_bytes(slice_subrange(s, 40, 48)),
            virtual_token_reserves: u64_from_le_bytes(slice_subrange(s, 48, 56)),
            real_sol_reserves: u64_from_le_bytes(slice_subrange(s, 56, 64)),
            real_token_reserves: u64_from_le_bytes(slice_subrange(s, 64, 72)),
            is_completed: flag == 1,
        },
    )
}

/// Decoding inverts encoding for bonding-curve records.
pub proof fn lemma_curve_round_trip(bc: BondingCurve)
    ensures
        spec_encode_curve(bc).len() == CURVE_RECORD_LEN,
        spec_decode_curve(spec_encode_curve(bc)) == Some(bc),
{
    lemma_auto_spec_u64_to_from_le_bytes();
    let e = spec_encode_curve(bc);
    assert(e.subrange(0, 8) =~= spec_u64_to_le_bytes(CURVE_RECORD_TAG));
    assert(e.subrange(8, 16) =~= spec_u64_to_le_bytes(bc.token_mint));
    assert(e.subrange(16, 24) =~= spec_u64_to_le_bytes(bc.creator));
    assert(e.subrange(24, 32) =~= spec_u64_to_le_bytes(bc.init_lamport));
    assert(e.subrange(32, 40) =~= spec_u64_to_le_bytes(bc.token_total_supply));
    assert(e.subrange(40, 48) =~= spec_u64_to_le_bytes(bc.virtual_sol_reserves));
    assert(e.subrange(48, 56) =~= spec_u64_to_le_bytes(bc.virtual_token_reserves));
    assert(e.subrange(56, 64) =~= spec_u64_to_le_bytes(bc.real_sol_reserves));
    assert(e.subrange(64, 72) =~= spec_u64_to_le_bytes(bc.real_token_reserves));
    assert(e[72] == if bc.is_completed {
        1u8
    } else {
        0u8
    });
    assert(spec_decode_curve(e) == Some(bc));
}

} // verus!
