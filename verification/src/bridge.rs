use vstd::prelude::*;

use crate::assets::Denom;
use crate::transaction::{spec_bech32_len, Address};

verus! {

/// Byte length of a protobuf base-128 varint encoding of `n`.
pub open spec fn spec_varint_len(n: nat) -> nat
    decreases n,
{
    if n < 0x80 {
        1
    } else if n < 0x4000 {
        2
    } else if n < 0x200000 {
        3
    } else if n < 0x10000000 {
        4
    } else if n < 0x800000000 {
        5
    } else if n < 0x40000000000 {
        6
    } else if n < 0x2000000000000 {
        7
    } else if n < 0x100000000000000 {
        8
    } else if n < 0x8000000000000000 {
        9
    } else if n < 0x400000000000000000 {
        10
    } else {
        1 + spec_varint_len(n / 0x80)
    }
}

fn varint_len(n: u64) -> (r: u64)
    ensures
        r == spec_varint_len(n as nat),
        1 <= r <= 10,
{
    if n < 0x80 {
        1
    } else if n < 0x4000 {
        2
    } else if n < 0x200000 {
        3
    } else if n < 0x10000000 {
        4
    } else if n < 0x800000000 {
        5
    } else if n < 0x40000000000 {
        6
    } else if n < 0x2000000000000 {
        7
    } else if n < 0x100000000000000 {
        8
    } else if n < 0x8000000000000000 {
        9
    } else {
        10
    }
}

fn varint_len_u128(n: u128) -> (r: u128)
    requires
        n < 0x400000000000000000,
    ensures
        r == spec_varint_len(n as nat),
        1 <= r <= 10,
{
    if n < 0x80 {
        1
    } else if n < 0x4000 {
        2
    } else if n < 0x200000 {
        3
    } else if n < 0x10000000 {
        4
    } else if n < 0x800000000 {
        5
    } else if n < 0x40000000000 {
        6
    } else if n < 0x2000000000000 {
        7
    } else if n < 0x100000000000000 {
        8
    } else if n < 0x8000000000000000 {
        9
    } else {
        10
    }
}

/// Wire size of a length-delimited field with a one-byte tag holding `len`
/// content bytes; an empty field is omitted altogether.
pub open spec fn spec_len_field(len: nat) -> nat {
    if len == 0 {
        0
    } else {
        1 + spec_varint_len(len) + len
    }
}

/// Wire size of an embedded message field with a one-byte tag whose body
/// is `inner` bytes long; present even when the body is empty.
pub open spec fn spec_embedded_field(inner: nat) -> nat {
    1 + spec_varint_len(inner) + inner
}

/// Body size of the two-limb message that carries a 128-bit amount as a
/// low and a high 64-bit varint field, zero limbs omitted.
pub open spec fn spec_uint128_body(v: u128) -> nat {
    (if v as nat % 0x10000000000000000 != 0 {
        1 + spec_varint_len(v as nat % 0x10000000000000000)
    } else {
        0nat
    }) + (if v as nat / 0x10000000000000000 != 0 {
        1 + spec_varint_len(v as nat / 0x10000000000000000)
    } else {
        0nat
    })
}

/// A deposit record as block execution would emit it for a bridge lock.
/// Only its canonical wire size matters to admission: the byte fee of a
/// bridge lock is proportional to it.
pub struct Deposit {
    pub bridge_address: Address,
    pub rollup_id: Vec<u8>,
    pub amount: u128,
    pub asset: Denom,
    pub destination_chain_address: Vec<u8>,
    pub source_transaction_id: Vec<u8>,
    pub source_action_index: u64,
}

/// Canonical wire size of a deposit record: the bridge address as an
/// embedded message holding its bech32m text, the rollup identifier as an
/// embedded message of raw bytes, the amount as a two-limb message, the
/// asset and destination as text fields, the source transaction identifier
/// as an embedded message holding its hex text, and the action index as a
/// varint field.
pub open spec fn spec_deposit_byte_len(d: Deposit) -> nat {
    spec_embedded_field(spec_len_field(spec_bech32_len(d.bridge_address)))
        + spec_embedded_field(spec_len_field(d.rollup_id@.len()))
        + spec_embedded_field(spec_uint128_body(d.amount))
        + spec_len_field(d.asset.spec_display_len())
        + spec_len_field(d.destination_chain_address@.len())
        + spec_embedded_field(spec_len_field(2 * d.source_transaction_id@.len()))
        + (if d.source_action_index == 0 {
            0nat
        } else {
            1 + spec_varint_len(d.source_action_index as nat)
        })
}

fn len_field(len: u128) -> (r: u128)
    requires
        len < 0x400000000000000000,
    ensures
        r == spec_len_field(len as nat),
        r <= 11 + len,
{
    if len == 0 {
        0
    } else {
        1 + varint_len_u128(len) + len
    }
}

fn embedded_field(inner: u128) -> (r: u128)
    requires
        inner < 0x400000000000000000,
    ensures
        r == spec_embedded_field(inner as nat),
        r <= 11 + inner,
{
    1 + varint_len_u128(inner) + inner
}

/// The byte-proportional base fee of the deposit a bridge lock would
/// create: the canonical wire size of the record.
#[verifier::rlimit(60)]
pub fn calculate_base_deposit_fee(deposit: &Deposit) -> (r: u128)
    ensures
        r as nat == spec_deposit_byte_len(*deposit),
{
    let bech32_len: u128 = deposit.bridge_address.prefix.len() as u128 + 1
        + ((deposit.bridge_address.bytes.len() as u128) * 8 + 4) / 5 + 6;
    let address_field = embedded_field(len_field(bech32_len));
    let rollup_field = embedded_field(len_field(deposit.rollup_id.len() as u128));
    let lo: u64 = (deposit.amount % 0x10000000000000000) as u64;
    let hi: u64 = (deposit.amount / 0x10000000000000000) as u64;
    let amount_body: u128 = (if lo != 0 {
        1 + varint_len(lo)
    } else {
        0
    }) as u128 + (if hi != 0 {
        1 + varint_len(hi)
    } else {
        0
    }) as u128;
    let amount_field = embedded_field(amount_body);
    let asset_len: u128 = match &deposit.asset {
        Denom::IbcPrefixed(_) => 68,
        Denom::TracePrefixed(t) => t.len() as u128,
    };
    let asset_field = len_field(asset_len);
    let destination_field = len_field(deposit.destination_chain_address.len() as u128);
    let source_id_field = embedded_field(len_field(
        2 * deposit.source_transaction_id.len() as u128,
    ));
    let index_field: u128 = if deposit.source_action_index == 0 {
        0
    } else {
        1 + varint_len(deposit.source_action_index) as u128
    };
    address_field + rollup_field + amount_field + asset_field + destination_field + source_id_field
        + index_field
}

} // verus!
