//! Pool configuration bit-packed into two machine words.
//!
//! Rate word (`u128`): five 16-bit basis-point fields at bits 0, 16, 32, 48
//! and 64 (LTV, liquidation threshold, reserve factor, close factor,
//! liquidation incentive). Status word (`u64`): a 40-bit timestamp in the low
//! bits and an 8-bit flag byte at bit 40.
use vstd::prelude::*;

verus! {

const BPS_FIELD_BITS: u32 = 16;
const BPS_FIELD_MASK: u128 = 0xFFFF;
const TS_MASK: u64 = 0xFF_FFFF_FFFF;
const FLAGS_SHIFT: u64 = 40;
const FLAGS_MASK: u64 = 0xFF;

/// Pool is paused.
pub const FLAG_PAUSED: u8 = 1;
/// Borrowing is enabled.
pub const FLAG_BORROWING_ENABLED: u8 = 2;
/// Collateral usage is enabled.
pub const FLAG_COLLATERAL_ENABLED: u8 = 4;
/// Pool is deprecated (wind-down only).
pub const FLAG_DEPRECATED: u8 = 8;

/// Failures of packing.
#[derive(Copy, Clone, Debug, PartialEq, Eq, Structural)]
pub enum PackError {
    /// A basis-point value does not fit its 16-bit field.
    BpsFieldOverflow,
    /// The timestamp does not fit its 40-bit field.
    TimestampOverflow,
}

/// Logical (unpacked) pool configuration.
#[derive(Clone, Debug, PartialEq, Eq, Structural)]
pub struct PoolConfig {
    pub ltv_bps: i128,
    pub liquidation_threshold_bps: i128,
    pub reserve_factor_bps: i128,
    pub close_factor_bps: i128,
    pub liquidation_incentive_bps: i128,
    pub last_update: u64,
    /// Status-flag byte (see `FLAG_*`).
    pub flags: u8,
}

/// The two packed words as persisted.
#[derive(Clone, Debug, PartialEq, Eq, Structural)]
pub struct PackedConfig {
    pub rate_word: u128,
    pub status_word: u64,
}

/// Does a basis-point value fit a 16-bit field?
pub open spec fn bps_fits(v: i128) -> bool {
    0 <= v <= 0xFFFF
}

/// Places a 16-bit value at field `slot` of the rate word.
pub open spec fn field_at(v: i128, slot: u32) -> u128 {
    (v as u128) << ((slot * 16) as u128)
}

/// Places a basis-point value in its 16-bit field; values outside [0, 0xFFFF] are refused.
pub fn pack_bps_field(value: i128, slot: u32) -> (r: Result<u128, PackError>)
    requires
        bps_fits(value) ==> slot <= 7,
    ensures
        bps_fits(value) ==> r == Ok::<u128, PackError>(field_at(value, slot)),
        !bps_fits(value) ==> r == Err::<u128, PackError>(PackError::BpsFieldOverflow),
{
    if value < 0 || value > 0xFFFF {
        return Err(PackError::BpsFieldOverflow);
    }
    let shift = slot * BPS_FIELD_BITS;
    Ok((value as u128) << shift)
}

/// The 16-bit field `slot` of a rate word.
pub open spec fn field_of(word: u128, slot: u32) -> i128 {
    ((word >> ((slot * 16) as u128)) & 0xFFFF) as i128
}

/// Reads the 16-bit field `slot` of a rate word.
pub fn unpack_bps_field(word: u128, slot: u32) -> (r: i128)
    requires
        slot <= 7,
    ensures
        r == field_of(word, slot),
        0 <= r <= 0xFFFF,
{
    let shift = slot * BPS_FIELD_BITS;
    let v = (word >> shift) & BPS_FIELD_MASK;
    assert(v <= 0xFFFF) by (bit_vector)
        requires v == (word >> shift) & 0xFFFFu128;
    v as i128
}

/// The rate word holding five 16-bit fields.
pub open spec fn rate_word_spec(c: PoolConfig) -> u128 {
    field_at(c.ltv_bps, 0) | field_at(c.liquidation_threshold_bps, 1) | field_at(c.reserve_factor_bps, 2)
        | field_at(c.close_factor_bps, 3) | field_at(c.liquidation_incentive_bps, 4)
}

/// The status word: timestamp in the low 40 bits, flags at bit 40.
pub open spec fn status_word_spec(c: PoolConfig) -> u64 {
    (c.last_update & 0xFF_FFFF_FFFFu64) | (((c.flags as u64) & 0xFFu64) << 40u64)
}

/// Packing outcome: every field must fit its width.
pub open spec fn pack_spec(c: PoolConfig) -> Result<PackedConfig, PackError> {
    if !(bps_fits(c.ltv_bps) && bps_fits(c.liquidation_threshold_bps) && bps_fits(c.reserve_factor_bps)
        && bps_fits(c.close_factor_bps) && bps_fits(c.liquidation_incentive_bps)) {
        Err(PackError::BpsFieldOverflow)
    } else if c.last_update > 0xFF_FFFF_FFFF {
        Err(PackError::TimestampOverflow)
    } else {
        Ok(PackedConfig { rate_word: rate_word_spec(c), status_word: status_word_spec(c) })
    }
}

/// Packs a configuration into its two-word form.
pub fn pack(config: &PoolConfig) -> (r: Result<PackedConfig, PackError>)
    ensures
        r == pack_spec(*config),
{
    let a = pack_bps_field(config.ltv_bps, 0)?;
    let b = pack_bps_field(config.liquidation_threshold_bps, 1)?;
    let c = pack_bps_field(config.reserve_factor_bps, 2)?;
    let d = pack_bps_field(config.close_factor_bps, 3)?;
    let e = pack_bps_field(config.liquidation_incentive_bps, 4)?;
    let rate_word = a | b | c | d | e;
    if config.last_update > TS_MASK {
        return Err(PackError::TimestampOverflow);
    }
    let status_word = (config.last_update & TS_MASK) | (((config.flags as u64) & FLAGS_MASK) << FLAGS_SHIFT);
    Ok(PackedConfig { rate_word, status_word })
}

/// Unpacking of a two-word form.
pub open spec fn unpack_spec(p: PackedConfig) -> PoolConfig {
    PoolConfig {
        ltv_bps: field_of(p.rate_word, 0),
        liquidation_threshold_bps: field_of(p.rate_word, 1),
        reserve_factor_bps: field_of(p.rate_word, 2),
        close_factor_bps: field_of(p.rate_word, 3),
        liquidation_incentive_bps: field_of(p.rate_word, 4),
        last_update: p.status_word & 0xFF_FFFF_FFFFu64,
        flags: ((p.status_word >> 40u64) & 0xFFu64) as u8,
    }
}

/// Unpacks the two-word form into a configuration.
pub fn unpack(packed: &PackedConfig) -> (r: PoolConfig)
    ensures
        r == unpack_spec(*packed),
{
    let sw = packed.status_word;
    let f = (sw >> FLAGS_SHIFT) & FLAGS_MASK;
    assert(f <= 0xFF) by (bit_vector)
        requires f == (sw >> 40u64) & 0xFFu64;
    PoolConfig {
        ltv_bps: unpack_bps_field(packed.rate_word, 0),
        liquidation_threshold_bps: unpack_bps_field(packed.rate_word, 1),
        reserve_factor_bps: unpack_bps_field(packed.rate_word, 2),
        close_factor_bps: unpack_bps_field(packed.rate_word, 3),
        liquidation_incentive_bps: unpack_bps_field(packed.rate_word, 4),
        last_update: packed.status_word & TS_MASK,
        flags: f as u8,
    }
}

/// Whether `flag` is set in a flag byte.
pub fn flag_is_set(flags: u8, flag: u8) -> (r: bool)
    ensures
        r == (flags & flag != 0),
{
    flags & flag != 0
}

/// Sets or clears `flag`, returning the new flag byte.
pub fn flag_with(flags: u8, flag: u8, on: bool) -> (r: u8)
    ensures
        r == (if on { flags | flag } else { flags & !flag }),
{
    if on { flags | flag } else { flags & !flag }
}

proof fn lemma_rate_fields(a: u128, b: u128, c: u128, d: u128, e: u128)
    requires
        a <= 0xFFFF, b <= 0xFFFF, c <= 0xFFFF, d <= 0xFFFF, e <= 0xFFFF,
    ensures
        ({
            let w = a | (b << 16u128) | (c << 32u128) | (d << 48u128) | (e << 64u128);
            &&& (w >> 0u128) & 0xFFFF == a
            &&& (w >> 16u128) & 0xFFFF == b
            &&& (w >> 32u128) & 0xFFFF == c
            &&& (w >> 48u128) & 0xFFFF == d
            &&& (w >> 64u128) & 0xFFFF == e
            &&& w >> 80u128 == 0
        }),
{
    let w = a | (b << 16u128) | (c << 32u128) | (d << 48u128) | (e << 64u128);
    assert((w >> 0u128) & 0xFFFF == a) by (bit_vector)
        requires a <= 0xFFFF, b <= 0xFFFF, c <= 0xFFFF, d <= 0xFFFF, e <= 0xFFFF,
            w == a | (b << 16u128) | (c << 32u128) | (d << 48u128) | (e << 64u128);
    assert((w >> 16u128) & 0xFFFF == b) by (bit_vector)
        requires a <= 0xFFFF, b <= 0xFFFF, c <= 0xFFFF, d <= 0xFFFF, e <= 0xFFFF,
            w == a | (b << 16u128) | (c << 32u128) | (d << 48u128) | (e << 64u128);
    assert((w >> 32u128) & 0xFFFF == c) by (bit_vector)
        requires a <= 0xFFFF, b <= 0xFFFF, c <= 0xFFFF, d <= 0xFFFF, e <= 0xFFFF,
            w == a | (b << 16u128) | (c << 32u128) | (d << 48u128) | (e << 64u128);
    assert((w >> 48u128) & 0xFFFF == d) by (bit_vector)
        requires a <= 0xFFFF, b <= 0xFFFF, c <= 0xFFFF, d <= 0xFFFF, e <= 0xFFFF,
            w == a | (b << 16u128) | (c << 32u128) | (d << 48u128) | (e << 64u128);
    assert((w >> 64u128) & 0xFFFF == e) by (bit_vector)
        requires a <= 0xFFFF, b <= 0xFFFF, c <= 0xFFFF, d <= 0xFFFF, e <= 0xFFFF,
            w == a | (b << 16u128) | (c << 32u128) | (d << 48u128) | (e << 64u128);
    assert(w >> 80u128 == 0) by (bit_vector)
        requires a <= 0xFFFF, b <= 0xFFFF, c <= 0xFFFF, d <= 0xFFFF, e <= 0xFFFF,
            w == a | (b << 16u128) | (c << 32u128) | (d << 48u128) | (e << 64u128);
}

proof fn lemma_status_fields(t: u64, f: u64)
    requires
        t <= 0xFF_FFFF_FFFF,
        f <= 0xFF,
    ensures
        ({
            let w = (t & 0xFF_FFFF_FFFFu64) | ((f & 0xFFu64) << 40u64);
            &&& w & 0xFF_FFFF_FFFFu64 == t
            &&& (w >> 40u64) & 0xFFu64 == f
        }),
{
    let w = (t & 0xFF_FFFF_FFFFu64) | ((f & 0xFFu64) << 40u64);
    assert(w & 0xFF_FFFF_FFFFu64 == t && (w >> 40u64) & 0xFFu64 == f) by (bit_vector)
        requires t <= 0xFF_FFFF_FFFF, f <= 0xFF, w == (t & 0xFF_FFFF_FFFFu64) | ((f & 0xFFu64) << 40u64);
}

/// Packing then unpacking gives back the configuration; all five fields sit
/// in the low 80 bits of the rate word.
pub proof fn lemma_pack_round_trip(c: PoolConfig)
    requires
        pack_spec(c) is Ok,
    ensures
        unpack_spec(pack_spec(c).unwrap()) == c,
        pack_spec(c).unwrap().rate_word >> 80u128 == 0,
{
    let a = c.ltv_bps as u128;
    let b = c.liquidation_threshold_bps as u128;
    let cc = c.reserve_factor_bps as u128;
    let d = c.close_factor_bps as u128;
    let e = c.liquidation_incentive_bps as u128;
    lemma_rate_fields(a, b, cc, d, e);
    assert(a << 0u128 == a) by (bit_vector);
    assert(field_at(c.ltv_bps, 0) == a);
    assert(field_at(c.liquidation_threshold_bps, 1) == b << 16u128);
    assert(field_at(c.reserve_factor_bps, 2) == cc << 32u128);
    assert(field_at(c.close_factor_bps, 3) == d << 48u128);
    assert(field_at(c.liquidation_incentive_bps, 4) == e << 64u128);
    let w = rate_word_spec(c);
    assert(w == a | (b << 16u128) | (cc << 32u128) | (d << 48u128) | (e << 64u128));
    assert(field_of(w, 0) == c.ltv_bps);
    assert(field_of(w, 1) == c.liquidation_threshold_bps);
    assert(field_of(w, 2) == c.reserve_factor_bps);
    assert(field_of(w, 3) == c.close_factor_bps);
    assert(field_of(w, 4) == c.liquidation_incentive_bps);
    lemma_status_fields(c.last_update, c.flags as u64);
    let f = c.flags as u64;
    assert((f as u8) == c.flags);
}

/// The stored configuration, unpacked.
pub fn load(stored: &Option<PackedConfig>) -> (r: Option<PoolConfig>)
    ensures
        r == (match *stored { Some(p) => Some(unpack_spec(p)), None => None }),
{
    match stored {
        Some(p) => Some(unpack(p)),
        None => None,
    }
}

/// Packs and stores a configuration; nothing is stored when it does not pack.
pub fn store(stored: &mut Option<PackedConfig>, config: &PoolConfig) -> (r: Result<(), PackError>)
    ensures
        r == (match pack_spec(*config) { Ok(_) => Ok(()), Err(e) => Err(e) }),
        *final(stored) == (match pack_spec(*config) { Ok(p) => Some(p), Err(_) => *old(stored) }),
{
    let packed = pack(config)?;
    *stored = Some(packed);
    Ok(())
}

/// The configuration a migration from the loose legacy values produces: LTV
/// and liquidation threshold both from the legacy threshold, no reserve
/// factor, the legacy close factor and incentive, borrowing and collateral enabled.
pub open spec fn legacy_config(liquidation_threshold_bps: i128, close_factor_bps: i128, liquidation_incentive_bps: i128,
    now: u64) -> PoolConfig
{
    PoolConfig {
        ltv_bps: liquidation_threshold_bps,
        liquidation_threshold_bps,
        reserve_factor_bps: 0,
        close_factor_bps,
        liquidation_incentive_bps,
        last_update: now,
        flags: 6,
    }
}

/// Migrates the legacy values into the packed entry; idempotent: an existing
/// packed entry is returned untouched.
pub fn migrate_from_legacy(stored: &mut Option<PackedConfig>, liquidation_threshold_bps: i128, close_factor_bps: i128,
    liquidation_incentive_bps: i128, now: u64) -> (r: Result<PoolConfig, PackError>)
    ensures
        match *old(stored) {
            Some(p) => r == Ok::<PoolConfig, PackError>(unpack_spec(p)) && *final(stored) == *old(stored),
            None => {
                let c = legacy_config(liquidation_threshold_bps, close_factor_bps, liquidation_incentive_bps, now);
                &&& r == (match pack_spec(c) { Ok(_) => Ok(c), Err(e) => Err(e) })
                &&& *final(stored) == (match pack_spec(c) { Ok(p) => Some(p), Err(_) => None })
            },
        },
{
    if let Some(existing) = load(stored) {
        return Ok(existing);
    }
    let config = PoolConfig {
        ltv_bps: liquidation_threshold_bps,
        liquidation_threshold_bps,
        reserve_factor_bps: 0,
        close_factor_bps,
        liquidation_incentive_bps,
        last_update: now,
        flags: FLAG_BORROWING_ENABLED | FLAG_COLLATERAL_ENABLED,
    };
    assert(FLAG_BORROWING_ENABLED | FLAG_COLLATERAL_ENABLED == 6u8) by (bit_vector);
    store(stored, &config)?;
    Ok(config)
}

} // verus!
