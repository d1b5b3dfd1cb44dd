//! The persistent record of one conversion market, and its byte layout.

use vstd::prelude::*;
use vstd::arithmetic::div_mod::{lemma_basic_div, lemma_div_is_ordered, lemma_div_multiples_vanish};
use vstd::arithmetic::mul::{lemma_mul_inequality, lemma_mul_nonnegative};
use vstd::bytes::{spec_u64_from_le_bytes, spec_u64_to_le_bytes, u64_from_le_bytes, u64_to_le_bytes,
    lemma_auto_spec_u64_to_from_le_bytes};
use vstd::slice::{slice_index_get, slice_subrange};
use crate::constants::MAX_INGOT_SUPPLY;
use crate::constants::UNSMELT_FEE_PERCENTAGE;
use crate::error::SmeltingError;
use crate::identity::{Identity, spec_identity_bytes, spec_identity_from_bytes,
    lemma_identity_bytes_roundtrip};

verus! {

/// One conversion market's persistent record: its identities, operating
/// parameters, running totals and non-reentrancy latch.
#[derive(Clone, Copy, Debug, PartialEq, Eq, Structural)]
pub struct SmeltingState {
    /// Whether this record has been written by an `initialize` operation.
    pub is_initialized: bool,
    /// Identity permitted to mint directly and to sign nested ledger calls.
    pub authority: Identity,
    /// Disambiguation byte of the derived signing authority.
    pub authority_bump: u8,
    /// Token identifier of the ore token.
    pub ore_mint: Identity,
    /// Token identifier of the ingot token.
    pub ingot_mint: Identity,
    /// Token identifier of the coal token.
    pub coal_mint: Identity,
    /// Account holding the ore collected by the market.
    pub ore_vault: Identity,
    /// Running total of ingots minted, in base ingot units.
    pub total_ingots_minted: u64,
    /// Running total of ore locked in the vault, in base ore units.
    pub total_ore_locked: u64,
    /// Fixed-point scale of the ore token.
    pub ore_decimals: u8,
    /// Fixed-point scale of the ingot token.
    pub ingot_decimals: u8,
    /// Fixed-point scale of the coal token.
    pub coal_decimals: u8,
    /// Integer percentage (0..=100) chance that a smelt attempt succeeds.
    pub success_rate: u8,
    /// Minimum coal a smelt attempt must burn.
    pub minimum_coal_amount: u64,
    /// Minimum seconds between accepted smelts.
    pub cooldown_period: u64,
    /// Timestamp of the last accepted smelt.
    pub last_operation_time: u64,
    /// Non-reentrancy latch: observable as true only by a nested call.
    pub is_processing: bool,
    /// Identity of the multi-signature roster governing this market.
    pub multi_sig_authority: Identity,
}

/// Length in bytes of a packed record.
pub const PACKED_LEN: usize = 239;

/// Saturating addition of two quantities capped at `u64::MAX`.
pub open spec fn sat_add_u64(a: int, b: int) -> int {
    if a + b > u64::MAX {
        u64::MAX as int
    } else {
        a + b
    }
}

/// Subtraction of two quantities floored at zero.
pub open spec fn sat_sub_u64(a: int, b: int) -> int {
    if a - b < 0 {
        0
    } else {
        a - b
    }
}

/// Ten to the `n`th power.
pub open spec fn pow10(n: nat) -> nat
    decreases n,
{
    if n == 0 {
        1
    } else {
        10 * pow10((n - 1) as nat)
    }
}

pub proof fn lemma_pow10_pos(n: nat)
    ensures
        pow10(n) >= 1,
    decreases n,
{
    if n > 0 {
        lemma_pow10_pos((n - 1) as nat);
    }
}

pub proof fn lemma_pow10_monotonic(i: nat, j: nat)
    requires
        i <= j,
    ensures
        pow10(i) <= pow10(j),
    decreases j,
{
    if i < j {
        lemma_pow10_monotonic(i, (j - 1) as nat);
        lemma_pow10_pos((j - 1) as nat);
    }
}

pub proof fn lemma_pow10_19()
    ensures
        pow10(19) == 10_000_000_000_000_000_000,
{
    reveal_with_fuel(pow10, 21);
}

/// Computes ten to the `n`th power, for exponents a `u64` can hold.
pub fn pow10_u64(n: u8) -> (r: u64)
    requires
        n <= 19,
    ensures
        r == pow10(n as nat),
{
    let mut i: u8 = 0;
    let mut acc: u64 = 1;
    while i < n
        invariant
            i <= n <= 19,
            acc == pow10(i as nat),
        decreases n - i,
    {
        proof {
            lemma_pow10_monotonic((i + 1) as nat, 19);
            lemma_pow10_19();
            assert(pow10((i + 1) as nat) == 10 * pow10(i as nat));
        }
        acc = acc * 10;
        i = i + 1;
    }
    acc
}

/// Converts a raw amount from one token's fixed-point scale to another's:
/// multiply or divide by ten to the difference, truncating when scaling down.
pub open spec fn spec_convert(amount: u64, from_decimals: u8, to_decimals: u8) -> int {
    if from_decimals >= to_decimals {
        amount as int / (pow10((from_decimals - to_decimals) as nat) as int)
    } else {
        amount as int * (pow10((to_decimals - from_decimals) as nat) as int)
    }
}

/// Fee on an unsmelt: `UNSMELT_FEE_PERCENTAGE` percent of the amount,
/// truncated; the scaled amount saturates at `u64::MAX` first.
pub open spec fn spec_unsmelt_fee(amount: u64) -> int {
    if amount * (UNSMELT_FEE_PERCENTAGE as int) <= u64::MAX {
        amount * (UNSMELT_FEE_PERCENTAGE as int) / 100
    } else {
        (u64::MAX as int) / 100
    }
}

/// The byte image a record's fields are read from, in order: initialized
/// flag, authority, authority bump, ore mint, ingot mint, coal mint, ore
/// vault, the two running totals (little-endian), the three decimals, the
/// success rate, minimum coal, cooldown and last-operation time
/// (little-endian), the processing latch, and the multi-signature roster
/// identity.
pub open spec fn spec_unpack_fields(b: Seq<u8>) -> SmeltingState {
    SmeltingState {
        is_initialized: b[0] != 0,
        authority: spec_identity_from_bytes(b.subrange(1, 33)),
        authority_bump: b[33],
        ore_mint: spec_identity_from_bytes(b.subrange(34, 66)),
        ingot_mint: spec_identity_from_bytes(b.subrange(66, 98)),
        coal_mint: spec_identity_from_bytes(b.subrange(98, 130)),
        ore_vault: spec_identity_from_bytes(b.subrange(130, 162)),
        total_ingots_minted: spec_u64_from_le_bytes(b.subrange(162, 170)),
        total_ore_locked: spec_u64_from_le_bytes(b.subrange(170, 178)),
        ore_decimals: b[178],
        ingot_decimals: b[179],
        coal_decimals: b[180],
        success_rate: b[181],
        minimum_coal_amount: spec_u64_from_le_bytes(b.subrange(182, 190)),
        cooldown_period: spec_u64_from_le_bytes(b.subrange(190, 198)),
        last_operation_time: spec_u64_from_le_bytes(b.subrange(198, 206)),
        is_processing: b[206] != 0,
        multi_sig_authority: spec_identity_from_bytes(b.subrange(207, 239)),
    }
}

impl SmeltingState {
    /// A record is well formed when its success rate is a percentage, its
    /// minted total respects the supply cap, and its latch is clear.
    pub open spec fn wf(self) -> bool {
        &&& self.success_rate <= 100
        &&& self.total_ingots_minted <= MAX_INGOT_SUPPLY
        &&& !self.is_processing
    }

    /// The record every field of which is zero, false, or the zero identity.
    pub open spec fn spec_default() -> SmeltingState {
        SmeltingState {
            is_initialized: false,
            authority: Identity { w0: 0, w1: 0, w2: 0, w3: 0 },
            authority_bump: 0,
            ore_mint: Identity { w0: 0, w1: 0, w2: 0, w3: 0 },
            ingot_mint: Identity { w0: 0, w1: 0, w2: 0, w3: 0 },
            coal_mint: Identity { w0: 0, w1: 0, w2: 0, w3: 0 },
            ore_vault: Identity { w0: 0, w1: 0, w2: 0, w3: 0 },
            total_ingots_minted: 0,
            total_ore_locked: 0,
            ore_decimals: 0,
            ingot_decimals: 0,
            coal_decimals: 0,
            success_rate: 0,
            minimum_coal_amount: 0,
            cooldown_period: 0,
            last_operation_time: 0,
            is_processing: false,
            multi_sig_authority: Identity { w0: 0, w1: 0, w2: 0, w3: 0 },
        }
    }

    /// Whether this record has been initialized.
    pub fn is_initialized(&self) -> (r: bool)
        ensures
            r == self.is_initialized,
    {
        self.is_initialized
    }

    /// The byte image of this record; `spec_unpack_fields` reads it back.
    pub open spec fn spec_pack(self) -> Seq<u8> {
        seq![if self.is_initialized { 1u8 } else { 0u8 }] + spec_identity_bytes(self.authority)
            + seq![self.authority_bump] + spec_identity_bytes(self.ore_mint)
            + spec_identity_bytes(self.ingot_mint) + spec_identity_bytes(self.coal_mint)
            + spec_identity_bytes(self.ore_vault) + spec_u64_to_le_bytes(self.total_ingots_minted)
            + spec_u64_to_le_bytes(self.total_ore_locked)
            + seq![self.ore_decimals, self.ingot_decimals, self.coal_decimals, self.success_rate]
            + spec_u64_to_le_bytes(self.minimum_coal_amount)
            + spec_u64_to_le_bytes(self.cooldown_period)
            + spec_u64_to_le_bytes(self.last_operation_time)
            + seq![if self.is_processing { 1u8 } else { 0u8 }]
            + spec_identity_bytes(self.multi_sig_authority)
    }

    /// Packs this record into its fixed-width byte image.
    pub fn pack(&self) -> (r: Vec<u8>)
        ensures
            r@ == self.spec_pack(),
            r@.len() == PACKED_LEN,
    {
        proof {
            lemma_auto_spec_u64_to_from_le_bytes();
            lemma_identity_bytes_roundtrip(self.authority);
            lemma_identity_bytes_roundtrip(self.ore_mint);
            lemma_identity_bytes_roundtrip(self.ingot_mint);
            lemma_identity_bytes_roundtrip(self.coal_mint);
            lemma_identity_bytes_roundtrip(self.ore_vault);
            lemma_identity_bytes_roundtrip(self.multi_sig_authority);
        }
        let mut out: Vec<u8> = Vec::new();
        out.push(if self.is_initialized { 1 } else { 0 });
        self.authority.pack_into(&mut out);
        out.push(self.authority_bump);
        self.ore_mint.pack_into(&mut out);
        self.ingot_mint.pack_into(&mut out);
        self.coal_mint.pack_into(&mut out);
        self.ore_vault.pack_into(&mut out);
        let mut piece = u64_to_le_bytes(self.total_ingots_minted);
        out.append(&mut piece);
        let mut piece = u64_to_le_bytes(self.total_ore_locked);
        out.append(&mut piece);
        out.push(self.ore_decimals);
        out.push(self.ingot_decimals);
        out.push(self.coal_decimals);
        out.push(self.success_rate);
        let mut piece = u64_to_le_bytes(self.minimum_coal_amount);
        out.append(&mut piece);
        let mut piece = u64_to_le_bytes(self.cooldown_period);
        out.append(&mut piece);
        let mut piece = u64_to_le_bytes(self.last_operation_time);
        out.append(&mut piece);
        out.push(if self.is_processing { 1 } else { 0 });
        self.multi_sig_authority.pack_into(&mut out);
        proof {
            assert(out@ =~= self.spec_pack());
        }
        out
    }

    /// Reads a record from its byte image, initialized or not.
    pub fn unpack_from_slice(src: &[u8]) -> (r: Result<SmeltingState, SmeltingError>)
        ensures
            match r {
                Ok(st) => src@.len() == PACKED_LEN && st == spec_unpack_fields(src@),
                Err(e) => e == SmeltingError::InvalidAccountData && src@.len() != PACKED_LEN,
            },
    {
        if src.len() != PACKED_LEN {
            return Err(SmeltingError::InvalidAccountData);
        }
        let is_initialized = *slice_index_get(src, 0) != 0;
        let authority = Identity::unpack_from(slice_subrange(src, 1, 33));
        let authority_bump = *slice_index_get(src, 33);
        let ore_mint = Identity::unpack_from(slice_subrange(src, 34, 66));
        let ingot_mint = Identity::unpack_from(slice_subrange(src, 66, 98));
        let coal_mint = Identity::unpack_from(slice_subrange(src, 98, 130));
        let ore_vault = Identity::unpack_from(slice_subrange(src, 130, 162));
        let total_ingots_minted = u64_from_le_bytes(slice_subrange(src, 162, 170));
        let total_ore_locked = u64_from_le_bytes(slice_subrange(src, 170, 178));
        let ore_decimals = *slice_index_get(src, 178);
        let ingot_decimals = *slice_index_get(src, 179);
        let coal_decimals = *slice_index_get(src, 180);
        let success_rate = *slice_index_get(src, 181);
        let minimum_coal_amount = u64_from_le_bytes(slice_subrange(src, 182, 190));
        let cooldown_period = u64_from_le_bytes(slice_subrange(src, 190, 198));
        let last_operation_time = u64_from_le_bytes(slice_subrange(src, 198, 206));
        let is_processing = *slice_index_get(src, 206) != 0;
        let multi_sig_authority = Identity::unpack_from(slice_subrange(src, 207, 239));
        Ok(
            SmeltingState {
                is_initialized,
                authority,
                authority_bump,
                ore_mint,
                ingot_mint,
                coal_mint,
                ore_vault,
                total_ingots_minted,
                total_ore_locked,
                ore_decimals,
                ingot_decimals,
                coal_decimals,
                success_rate,
                minimum_coal_amount,
                cooldown_period,
                last_operation_time,
                is_processing,
                multi_sig_authority,
            },
        )
    }

    /// Reads a record from its byte image and insists that it is initialized.
    pub fn unpack(src: &[u8]) -> (r: Result<SmeltingState, SmeltingError>)
        ensures
            match r {
                Ok(st) => src@.len() == PACKED_LEN && st == spec_unpack_fields(src@)
                    && st.is_initialized,
                Err(e) => (e == SmeltingError::InvalidAccountData && src@.len() != PACKED_LEN) || (
                e == SmeltingError::UninitializedAccount && src@.len() == PACKED_LEN
                    && !spec_unpack_fields(src@).is_initialized),
            },
    {
        let st = SmeltingState::unpack_from_slice(src)?;
        if !st.is_initialized {
            return Err(SmeltingError::UninitializedAccount);
        }
        Ok(st)
    }

    /// Fee retained when `amount` ingots are unsmelted.
    pub fn calculate_unsmelt_fee(amount: u64) -> (r: u64)
        ensures
            r == spec_unsmelt_fee(amount),
            r <= amount,
    {
        let scaled = match amount.checked_mul(UNSMELT_FEE_PERCENTAGE as u64) {
            Some(v) => v,
            None => u64::MAX,
        };
        proof {
            if amount * (UNSMELT_FEE_PERCENTAGE as int) <= u64::MAX {
                assert(amount as int * (UNSMELT_FEE_PERCENTAGE as int) <= amount as int * 100)
                    by (nonlinear_arith);
                lemma_div_is_ordered(
                    amount as int * (UNSMELT_FEE_PERCENTAGE as int),
                    amount as int * 100,
                    100,
                );
                lemma_div_multiples_vanish(amount as int, 100);
                assert(amount as int * 100 == 100 * amount as int) by (nonlinear_arith);
            } else {
                if amount <= u64::MAX / 100 {
                    lemma_mul_inequality(
                        amount as int,
                        (u64::MAX as int) / 100,
                        UNSMELT_FEE_PERCENTAGE as int,
                    );
                }
            }
        }
        scaled / 100
    }

    /// Whether `amount` more ingots can be minted without passing the cap.
    pub fn can_mint_ingot(&self, amount: u64) -> (r: bool)
        ensures
            r == (self.total_ingots_minted + amount <= MAX_INGOT_SUPPLY),
    {
        self.total_ingots_minted.saturating_add(amount) <= MAX_INGOT_SUPPLY
    }

    /// Books a successful smelt of `amount` ore: the minted total grows by
    /// the decimals-adjusted ingot amount, the locked total by the ore
    /// amount, both saturating; the supply cap is then re-checked.
    pub fn update_on_successful_smelt(&mut self, amount: u64) -> (r: Result<(), SmeltingError>)
        requires
            spec_convert(amount, old(self).ore_decimals, old(self).ingot_decimals) <= u64::MAX,
        ensures
            final(self).total_ingots_minted == sat_add_u64(
                old(self).total_ingots_minted as int,
                spec_convert(amount, old(self).ore_decimals, old(self).ingot_decimals),
            ),
            final(self).total_ore_locked == sat_add_u64(
                old(self).total_ore_locked as int,
                amount as int,
            ),
            *final(self) == (SmeltingState {
                total_ingots_minted: final(self).total_ingots_minted,
                total_ore_locked: final(self).total_ore_locked,
                ..*old(self)
            }),
            r is Ok <==> final(self).total_ingots_minted <= MAX_INGOT_SUPPLY,
            r is Err ==> r == Err::<(), SmeltingError>(SmeltingError::MaxSupplyExceeded),
    {
        let ingot_amount = match checked_convert(amount, self.ore_decimals, self.ingot_decimals) {
            Some(v) => v,
            None => {
                proof {
                    assert(false);
                }
                0
            },
        };
        self.total_ingots_minted = self.total_ingots_minted.saturating_add(ingot_amount);
        self.total_ore_locked = self.total_ore_locked.saturating_add(amount);
        if self.total_ingots_minted > MAX_INGOT_SUPPLY {
            return Err(SmeltingError::MaxSupplyExceeded);
        }
        Ok(())
    }

    /// Books an unsmelt of `amount` ingots with `fee` retained: the minted
    /// total shrinks by the amount, floored at zero; the locked total shrinks
    /// the same way and then grows by the fee, saturating.
    pub fn update_on_unsmelt(&mut self, amount: u64, fee: u64)
        ensures
            final(self).total_ingots_minted == sat_sub_u64(
                old(self).total_ingots_minted as int,
                amount as int,
            ),
            final(self).total_ore_locked == sat_add_u64(
                sat_sub_u64(old(self).total_ore_locked as int, amount as int),
                fee as int,
            ),
            *final(self) == (SmeltingState {
                total_ingots_minted: final(self).total_ingots_minted,
                total_ore_locked: final(self).total_ore_locked,
                ..*old(self)
            }),
    {
        self.total_ingots_minted = self.total_ingots_minted.saturating_sub(amount);
        self.total_ore_locked = self.total_ore_locked.saturating_sub(amount).saturating_add(fee);
    }
}

/// Converts `amount` between fixed-point scales, reporting `None` when the
/// scaled-up value does not fit in a `u64`.
pub fn checked_convert(amount: u64, from_decimals: u8, to_decimals: u8) -> (r: Option<u64>)
    ensures
        match r {
            Some(v) => v == spec_convert(amount, from_decimals, to_decimals),
            None => spec_convert(amount, from_decimals, to_decimals) > u64::MAX,
        },
{
    if from_decimals >= to_decimals {
        let d = from_decimals - to_decimals;
        if d > 19 {
            proof {
                lemma_pow10_19();
                lemma_pow10_monotonic(20, d as nat);
                lemma_basic_div(amount as int, pow10(d as nat) as int);
            }
            Some(0)
        } else {
            let p = pow10_u64(d);
            proof {
                lemma_pow10_pos(d as nat);
            }
            Some(amount / p)
        }
    } else {
        let d = to_decimals - from_decimals;
        if amount == 0 {
            proof {
                lemma_pow10_pos(d as nat);
                assert(0int * (pow10(d as nat) as int) == 0) by (nonlinear_arith);
            }
            Some(0)
        } else if d > 19 {
            proof {
                lemma_pow10_19();
                lemma_pow10_monotonic(20, d as nat);
                lemma_mul_inequality(1, amount as int, pow10(d as nat) as int);
            }
            None
        } else {
            let p = pow10_u64(d);
            match amount.checked_mul(p) {
                Some(v) => Some(v),
                None => None,
            }
        }
    }
}

/// A converted amount is never negative.
pub proof fn lemma_spec_convert_nonneg(amount: u64, from_decimals: u8, to_decimals: u8)
    ensures
        spec_convert(amount, from_decimals, to_decimals) >= 0,
{
    if from_decimals >= to_decimals {
        let p = pow10((from_decimals - to_decimals) as nat) as int;
        lemma_pow10_pos((from_decimals - to_decimals) as nat);
        lemma_basic_div(0, p);
        lemma_div_is_ordered(0, amount as int, p);
    } else {
        lemma_mul_nonnegative(amount as int, pow10((to_decimals - from_decimals) as nat) as int);
    }
}

/// Packing a record and reading the image back yields the record,
/// field for field.
pub proof fn lemma_pack_roundtrip(st: SmeltingState)
    ensures
        st.spec_pack().len() == PACKED_LEN,
        spec_unpack_fields(st.spec_pack()) == st,
{
    lemma_auto_spec_u64_to_from_le_bytes();
    lemma_identity_bytes_roundtrip(st.authority);
    lemma_identity_bytes_roundtrip(st.ore_mint);
    lemma_identity_bytes_roundtrip(st.ingot_mint);
    lemma_identity_bytes_roundtrip(st.coal_mint);
    lemma_identity_bytes_roundtrip(st.ore_vault);
    lemma_identity_bytes_roundtrip(st.multi_sig_authority);
    let b = st.spec_pack();
    assert(b.len() == PACKED_LEN);
    assert(b.subrange(1, 33) =~= spec_identity_bytes(st.authority));
    assert(b.subrange(34, 66) =~= spec_identity_bytes(st.ore_mint));
    assert(b.subrange(66, 98) =~= spec_identity_bytes(st.ingot_mint));
    assert(b.subrange(98, 130) =~= spec_identity_bytes(st.coal_mint));
    assert(b.subrange(130, 162) =~= spec_identity_bytes(st.ore_vault));
    assert(b.subrange(162, 170) =~= spec_u64_to_le_bytes(st.total_ingots_minted));
    assert(b.subrange(170, 178) =~= spec_u64_to_le_bytes(st.total_ore_locked));
    assert(b.subrange(182, 190) =~= spec_u64_to_le_bytes(st.minimum_coal_amount));
    assert(b.subrange(190, 198) =~= spec_u64_to_le_bytes(st.cooldown_period));
    assert(b.subrange(198, 206) =~= spec_u64_to_le_bytes(st.last_operation_time));
    assert(b.subrange(207, 239) =~= spec_identity_bytes(st.multi_sig_authority));
}

/// An uninitialized default record.
impl Default for SmeltingState {
    fn default() -> (r: SmeltingState)
        ensures
            r == SmeltingState::spec_default(),
    {
        SmeltingState {
            is_initialized: false,
            authority: Identity::zero(),
            authority_bump: 0,
            ore_mint: Identity::zero(),
            ingot_mint: Identity::zero(),
            coal_mint: Identity::zero(),
            ore_vault: Identity::zero(),
            total_ingots_minted: 0,
            total_ore_locked: 0,
            ore_decimals: 0,
            ingot_decimals: 0,
            coal_decimals: 0,
            success_rate: 0,
            minimum_coal_amount: 0,
            cooldown_period: 0,
            last_operation_time: 0,
            is_processing: false,
            multi_sig_authority: Identity::zero(),
        }
    }
}

} // verus!
