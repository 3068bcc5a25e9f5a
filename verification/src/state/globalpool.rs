use vstd::prelude::*;
use crate::bytes::{le_bytes_u16, u16_to_le_bytes};
use crate::errors::ErrorCode;
use crate::math::constants::{MAX_FEE_RATE, MAX_PROTOCOL_FEE_RATE};
use crate::math::liquidity_math::{
    add_liquidity_delta, interest_fee_per_liquidity, interest_fee_per_liquidity_spec,
};
use crate::math::tick_math::{
    tick_contains_price, tick_index_from_sqrt_price, tick_index_from_sqrt_price_spec,
};
use crate::math::tick_price::{MAX_SQRT_PRICE_X64, MIN_SQRT_PRICE_X64};
use crate::pubkey::{pubkey_lt, pubkey_lt_spec, Pubkey};

verus! {

/// The ledger of one market: a pair of token mints at one fee tier and tick
/// spacing, with its price, its available and borrowed liquidity, and the
/// fees it has accrued.
///
/// A pool whose price and inception time are both zero has not been
/// initialised yet. Once initialised it stays so.
#[derive(Clone, Copy, Debug, PartialEq, Eq)]
pub struct Globalpool {
    /// Bump byte of the pool's derived address.
    pub bump: [u8; 1],
    /// Distance between two usable ticks.
    pub tick_spacing: u16,
    /// `tick_spacing` as the two bytes that go into the pool's address.
    pub tick_spacing_seed: [u8; 2],
    /// Fee charged on a swap, in hundredths of a basis point.
    pub fee_rate: u16,
    /// `fee_rate` as the two bytes that go into the pool's address.
    pub fee_rate_seed: [u8; 2],
    /// Share of the fee kept by the protocol, in basis points.
    pub protocol_fee_rate: u16,
    /// Liquidity active at the current tick.
    pub liquidity_available: u128,
    /// Liquidity currently lent out.
    pub liquidity_borrowed: u128,
    /// Current square-root price in Q64.64.
    pub sqrt_price: u128,
    /// Tick whose price range contains `sqrt_price`.
    pub tick_current_index: i32,
    /// Protocol fees in token A that await collection.
    pub protocol_fee_owed_a: u64,
    /// Protocol fees in token B that await collection.
    pub protocol_fee_owed_b: u64,
    /// Mint of token A; sorts before the mint of token B.
    pub token_mint_a: Pubkey,
    /// Vault that holds the pool's token A.
    pub token_vault_a: Pubkey,
    /// Fees in token A accrued per unit of liquidity, in Q64.64.
    pub fee_growth_global_a: u128,
    /// Mint of token B.
    pub token_mint_b: Pubkey,
    /// Vault that holds the pool's token B.
    pub token_vault_b: Pubkey,
    /// Fees in token B accrued per unit of liquidity, in Q64.64.
    pub fee_growth_global_b: u128,
    /// Wall-clock time, in seconds since the epoch, at which the pool was initialised.
    pub inception_time: u64,
    /// Address allowed to change the fee parameters.
    pub fee_authority: Pubkey,
}

/// The stage of a pool's life. A pool starts out uninitialised, becomes
/// active when it is initialised, and stays active.
#[derive(Clone, Copy, Debug, PartialEq, Eq, Structural)]
pub enum Lifecycle {
    /// Price and inception time are both zero.
    Uninitialized,
    /// The pool has been initialised.
    Active,
}

/// The bytes of the text `globalpool`, the first seed of every pool address.
pub open spec fn globalpool_seed_prefix() -> Seq<u8> {
    seq![103u8, 108u8, 111u8, 98u8, 97u8, 108u8, 112u8, 111u8, 111u8, 108u8]
}

/// The text `globalpool` as bytes.
pub const GLOBALPOOL_SEED_PREFIX: [u8; 10] = [103, 108, 111, 98, 97, 108, 112, 111, 111, 108];

impl Globalpool {
    /// Number of bytes kept free behind the stored fields for later additions.
    pub const RESERVED_LEN: usize = 384;

    /// Tells whether the pool has been initialised.
    pub open spec fn is_initialized(&self) -> bool {
        self.inception_time != 0 || self.sqrt_price != 0
    }

    /// The stage of the pool's life, read off its price and inception time.
    pub fn lifecycle(&self) -> (stage: Lifecycle)
        ensures
            stage == if self.is_initialized() {
                Lifecycle::Active
            } else {
                Lifecycle::Uninitialized
            },
    {
        if self.inception_time != 0 || self.sqrt_price != 0 {
            Lifecycle::Active
        } else {
            Lifecycle::Uninitialized
        }
    }

    /// What holds of every initialised pool that only this module has
    /// written to, given that each swap reported a price together with the
    /// tick that contains it.
    pub open spec fn well_formed(&self) -> bool {
        self.is_initialized() ==> {
            &&& MIN_SQRT_PRICE_X64 <= self.sqrt_price <= MAX_SQRT_PRICE_X64
            &&& tick_contains_price(self.tick_current_index as int, self.sqrt_price as nat)
            &&& self.fee_rate <= MAX_FEE_RATE
            &&& self.protocol_fee_rate <= MAX_PROTOCOL_FEE_RATE
            &&& pubkey_lt_spec(self.token_mint_a@, self.token_mint_b@)
            &&& self.fee_rate_seed@ == le_bytes_u16(self.fee_rate)
            &&& self.tick_spacing_seed@ == le_bytes_u16(self.tick_spacing)
        }
    }

    /// The reason, if any, for which `initialize` rejects its arguments on
    /// this pool. The checks come in a fixed order, and the first that
    /// fails decides.
    pub open spec fn initialize_error(
        &self,
        sqrt_price: u128,
        fee_rate: u16,
        protocol_fee_rate: u16,
        token_mint_a: Pubkey,
        token_mint_b: Pubkey,
        unix_timestamp: i64,
    ) -> Option<ErrorCode> {
        if !pubkey_lt_spec(token_mint_a@, token_mint_b@) {
            Some(ErrorCode::InvalidTokenMintOrder)
        } else if sqrt_price < MIN_SQRT_PRICE_X64 || sqrt_price > MAX_SQRT_PRICE_X64 {
            Some(ErrorCode::SqrtPriceOutOfBounds)
        } else if self.is_initialized() {
            Some(ErrorCode::AccountAlreadyInitialized)
        } else if fee_rate > MAX_FEE_RATE {
            Some(ErrorCode::FeeRateMaxExceeded)
        } else if protocol_fee_rate > MAX_PROTOCOL_FEE_RATE {
            Some(ErrorCode::ProtocolFeeRateMaxExceeded)
        } else if unix_timestamp < 0 {
            Some(ErrorCode::InvalidTimestampConversion)
        } else {
            None
        }
    }

    /// The pool that a successful `initialize` leaves behind: the arguments
    /// stored as given, the tick derived from the price, and every counter
    /// at zero.
    pub open spec fn initialized(
        globalpool_bump: u8,
        tick_spacing: u16,
        sqrt_price: u128,
        fee_rate: u16,
        protocol_fee_rate: u16,
        fee_authority: Pubkey,
        token_mint_a: Pubkey,
        token_vault_a: Pubkey,
        token_mint_b: Pubkey,
        token_vault_b: Pubkey,
        unix_timestamp: i64,
    ) -> Globalpool {
        Globalpool {
            bump: [globalpool_bump],
            tick_spacing,
            tick_spacing_seed: [(tick_spacing % 256) as u8, (tick_spacing / 256) as u8],
            fee_rate,
            fee_rate_seed: [(fee_rate % 256) as u8, (fee_rate / 256) as u8],
            protocol_fee_rate,
            liquidity_available: 0,
            liquidity_borrowed: 0,
            sqrt_price,
            tick_current_index: tick_index_from_sqrt_price_spec(sqrt_price as nat) as i32,
            protocol_fee_owed_a: 0,
            protocol_fee_owed_b: 0,
            token_mint_a,
            token_vault_a,
            fee_growth_global_a: 0,
            token_mint_b,
            token_vault_b,
            fee_growth_global_b: 0,
            inception_time: unix_timestamp as u64,
            fee_authority,
        }
    }

    /// Turns an empty pool into an active one.
    ///
    /// `unix_timestamp` is the current wall-clock time as the caller read it.
    /// All arguments are checked before anything is written, so a rejected
    /// call leaves the pool as it was.
    pub fn initialize(
        &mut self,
        globalpool_bump: u8,
        tick_spacing: u16,
        sqrt_price: u128,
        fee_rate: u16,
        protocol_fee_rate: u16,
        fee_authority: Pubkey,
        token_mint_a: Pubkey,
        token_vault_a: Pubkey,
        token_mint_b: Pubkey,
        token_vault_b: Pubkey,
        unix_timestamp: i64,
    ) -> (result: Result<(), ErrorCode>)
        ensures
            match result {
                Ok(()) => {
                    &&& old(self).initialize_error(
                        sqrt_price,
                        fee_rate,
                        protocol_fee_rate,
                        token_mint_a,
                        token_mint_b,
                        unix_timestamp,
                    ) is None
                    &&& *final(self) == Globalpool::initialized(
                        globalpool_bump,
                        tick_spacing,
                        sqrt_price,
                        fee_rate,
                        protocol_fee_rate,
                        fee_authority,
                        token_mint_a,
                        token_vault_a,
                        token_mint_b,
                        token_vault_b,
                        unix_timestamp,
                    )
                    &&& final(self).is_initialized()
                    &&& final(self).well_formed()
                },
                Err(e) => {
                    &&& old(self).initialize_error(
                        sqrt_price,
                        fee_rate,
                        protocol_fee_rate,
                        token_mint_a,
                        token_mint_b,
                        unix_timestamp,
                    ) == Some(e)
                    &&& *final(self) == *old(self)
                },
            },
    {
        if !pubkey_lt(&token_mint_a, &token_mint_b) {
            return Err(ErrorCode::InvalidTokenMintOrder);
        }
        if sqrt_price < MIN_SQRT_PRICE_X64 || sqrt_price > MAX_SQRT_PRICE_X64 {
            return Err(ErrorCode::SqrtPriceOutOfBounds);
        }
        if self.inception_time != 0 || self.sqrt_price != 0 {
            return Err(ErrorCode::AccountAlreadyInitialized);
        }
        if fee_rate > MAX_FEE_RATE {
            return Err(ErrorCode::FeeRateMaxExceeded);
        }
        if protocol_fee_rate > MAX_PROTOCOL_FEE_RATE {
            return Err(ErrorCode::ProtocolFeeRateMaxExceeded);
        }
        if unix_timestamp < 0 {
            return Err(ErrorCode::InvalidTimestampConversion);
        }
        self.bump = [globalpool_bump];

        self.tick_spacing = tick_spacing;
        self.tick_spacing_seed = u16_to_le_bytes(tick_spacing);

        self.fee_rate = fee_rate;
        self.fee_rate_seed = u16_to_le_bytes(fee_rate);

        self.protocol_fee_rate = protocol_fee_rate;

        self.liquidity_available = 0;
        self.liquidity_borrowed = 0;

        self.sqrt_price = sqrt_price;
        self.tick_current_index = tick_index_from_sqrt_price(&sqrt_price);

        self.protocol_fee_owed_a = 0;
        self.protocol_fee_owed_b = 0;

        self.token_mint_a = token_mint_a;
        self.token_vault_a = token_vault_a;
        self.fee_growth_global_a = 0;
        self.fee_authority = fee_authority;

        self.token_mint_b = token_mint_b;
        self.token_vault_b = token_vault_b;
        self.fee_growth_global_b = 0;

        self.inception_time = unix_timestamp as u64;
        proof {
            let model: Globalpool = Globalpool::initialized(
                globalpool_bump,
                tick_spacing,
                sqrt_price,
                fee_rate,
                protocol_fee_rate,
                fee_authority,
                token_mint_a,
                token_vault_a,
                token_mint_b,
                token_vault_b,
                unix_timestamp,
            );
            assert(self.bump =~= model.bump);
            assert(self.tick_spacing_seed =~= model.tick_spacing_seed);
            assert(self.fee_rate_seed =~= model.fee_rate_seed);
        }
        Ok(())
    }

    /// The six byte strings from which the pool's address is derived, in
    /// order: the text `globalpool`, the two mints, the fee rate and the tick
    /// spacing as stored in their seed fields, and the bump.
    pub fn seeds(&self) -> (seeds: [&[u8]; 6])
        ensures
            seeds@[0]@ == globalpool_seed_prefix(),
            seeds@[1]@ == self.token_mint_a@,
            seeds@[2]@ == self.token_mint_b@,
            seeds@[3]@ == self.fee_rate_seed@,
            seeds@[4]@ == self.tick_spacing_seed@,
            seeds@[5]@ == self.bump@,
    {
        [
            GLOBALPOOL_SEED_PREFIX.as_slice(),
            self.token_mint_a.as_slice(),
            self.token_mint_b.as_slice(),
            self.fee_rate_seed.as_slice(),
            self.tick_spacing_seed.as_slice(),
            self.bump.as_slice(),
        ]
    }

    /// Overwrites the available liquidity, as a position opened or closed at
    /// the current tick requires. The caller has done the tick-range math.
    pub fn update_liquidity(&mut self, liquidity: u128)
        ensures
            *final(self) == (Globalpool { liquidity_available: liquidity, ..*old(self) }),
            old(self).well_formed() ==> final(self).well_formed(),
    {
        self.liquidity_available = liquidity;
    }

    /// Tells whether the owed fee on the side that a swap paid its fee in
    /// still has room for `protocol_fee`.
    pub open spec fn swap_fee_fits(&self, protocol_fee: u64, is_token_fee_in_a: bool) -> bool {
        if is_token_fee_in_a {
            self.protocol_fee_owed_a + protocol_fee <= u64::MAX
        } else {
            self.protocol_fee_owed_b + protocol_fee <= u64::MAX
        }
    }

    /// The pool as a swap leaves it: price, tick and available liquidity
    /// replaced, and, on the side that the fee was paid in alone, the
    /// fee-growth accumulator replaced and the protocol fee added to what is
    /// owed.
    pub open spec fn after_swap(
        &self,
        liquidity_available: u128,
        tick_index: i32,
        sqrt_price: u128,
        fee_growth_global: u128,
        protocol_fee: u64,
        is_token_fee_in_a: bool,
    ) -> Globalpool {
        if is_token_fee_in_a {
            Globalpool {
                tick_current_index: tick_index,
                sqrt_price,
                liquidity_available,
                fee_growth_global_a: fee_growth_global,
                protocol_fee_owed_a: (self.protocol_fee_owed_a + protocol_fee) as u64,
                ..*self
            }
        } else {
            Globalpool {
                tick_current_index: tick_index,
                sqrt_price,
                liquidity_available,
                fee_growth_global_b: fee_growth_global,
                protocol_fee_owed_b: (self.protocol_fee_owed_b + protocol_fee) as u64,
                ..*self
            }
        }
    }

    /// Checks at run time that `update_after_swap` may be called.
    pub fn can_update_after_swap(&self, protocol_fee: u64, is_token_fee_in_a: bool) -> (fits: bool)
        ensures
            fits == self.swap_fee_fits(protocol_fee, is_token_fee_in_a),
    {
        if is_token_fee_in_a {
            protocol_fee <= u64::MAX - self.protocol_fee_owed_a
        } else {
            protocol_fee <= u64::MAX - self.protocol_fee_owed_b
        }
    }

    /// Records the outcome of a swap.
    ///
    /// `fee_growth_global` is the accumulated value that the swap computed
    /// for the side its fee was paid in, not an increment. The other side's
    /// accumulator and owed fee stay as they are.
    pub fn update_after_swap(
        &mut self,
        liquidity_available: u128,
        tick_index: i32,
        sqrt_price: u128,
        fee_growth_global: u128,
        protocol_fee: u64,
        is_token_fee_in_a: bool,
    )
        requires
            old(self).swap_fee_fits(protocol_fee, is_token_fee_in_a),
        ensures
            *final(self) == old(self).after_swap(
                liquidity_available,
                tick_index,
                sqrt_price,
                fee_growth_global,
                protocol_fee,
                is_token_fee_in_a,
            ),
            is_token_fee_in_a ==> final(self).fee_growth_global_b == old(self).fee_growth_global_b
                && final(self).protocol_fee_owed_b == old(self).protocol_fee_owed_b
                && final(self).protocol_fee_owed_a == old(self).protocol_fee_owed_a + protocol_fee,
            !is_token_fee_in_a ==> final(self).fee_growth_global_a == old(self).fee_growth_global_a
                && final(self).protocol_fee_owed_a == old(self).protocol_fee_owed_a
                && final(self).protocol_fee_owed_b == old(self).protocol_fee_owed_b + protocol_fee,
            old(self).is_initialized() && old(self).well_formed() && MIN_SQRT_PRICE_X64
                <= sqrt_price <= MAX_SQRT_PRICE_X64 && tick_contains_price(
                tick_index as int,
                sqrt_price as nat,
            ) ==> final(self).is_initialized() && final(self).well_formed(),
    {
        self.tick_current_index = tick_index;
        self.sqrt_price = sqrt_price;
        self.liquidity_available = liquidity_available;
        if is_token_fee_in_a {
            self.fee_growth_global_a = fee_growth_global;
            self.protocol_fee_owed_a = self.protocol_fee_owed_a + protocol_fee;
        } else {
            self.fee_growth_global_b = fee_growth_global;
            self.protocol_fee_owed_b = self.protocol_fee_owed_b + protocol_fee;
        }
    }

    /// The fee-growth accumulator of one side after an interest payment has
    /// accrued to it. A payment of zero accrues nothing.
    pub open spec fn fee_growth_after_interest(&self, fee_growth: u128, interest_amount: u64) -> int {
        if interest_amount > 0 {
            fee_growth + interest_fee_per_liquidity_spec(interest_amount, self.liquidity_available)
        } else {
            fee_growth as int
        }
    }

    /// Tells whether a loan update stays within the 128-bit figures: the
    /// accumulator of the side that interest is paid in has room for the
    /// accrued fee, the delta can be negated, the available liquidity covers
    /// what is borrowed, and the borrowed liquidity covers what is repaid.
    pub open spec fn loan_fits(
        &self,
        liquidity_delta: i128,
        interest_amount: u64,
        is_token_fee_in_a: bool,
    ) -> bool {
        &&& if is_token_fee_in_a {
            self.fee_growth_after_interest(self.fee_growth_global_a, interest_amount) <= u128::MAX
        } else {
            self.fee_growth_after_interest(self.fee_growth_global_b, interest_amount) <= u128::MAX
        }
        &&& liquidity_delta > i128::MIN
        &&& 0 <= self.liquidity_available - liquidity_delta <= u128::MAX
        &&& 0 <= self.liquidity_borrowed + liquidity_delta <= u128::MAX
    }

    /// The pool as a loan update leaves it: interest accrued to the
    /// accumulator of the side it was paid in, over the liquidity available
    /// before the loan, then `liquidity_delta` moved from available to
    /// borrowed. A positive delta borrows, a negative one repays.
    pub open spec fn after_loan(
        &self,
        liquidity_delta: i128,
        interest_amount: u64,
        is_token_fee_in_a: bool,
    ) -> Globalpool {
        Globalpool {
            fee_growth_global_a: if is_token_fee_in_a {
                self.fee_growth_after_interest(self.fee_growth_global_a, interest_amount) as u128
            } else {
                self.fee_growth_global_a
            },
            fee_growth_global_b: if is_token_fee_in_a {
                self.fee_growth_global_b
            } else {
                self.fee_growth_after_interest(self.fee_growth_global_b, interest_amount) as u128
            },
            liquidity_available: (self.liquidity_available - liquidity_delta) as u128,
            liquidity_borrowed: (self.liquidity_borrowed + liquidity_delta) as u128,
            ..*self
        }
    }

    /// Checks at run time that `update_after_loan` may be called.
    pub fn can_update_after_loan(
        &self,
        liquidity_delta: i128,
        interest_amount: u64,
        is_token_fee_in_a: bool,
    ) -> (fits: bool)
        ensures
            fits == self.loan_fits(liquidity_delta, interest_amount, is_token_fee_in_a),
    {
        let fee_growth: u128 = if is_token_fee_in_a {
            self.fee_growth_global_a
        } else {
            self.fee_growth_global_b
        };
        if interest_amount > 0 {
            let fee: u128 = interest_fee_per_liquidity(interest_amount, self.liquidity_available);
            if fee_growth.checked_add(fee).is_none() {
                return false;
            }
        }
        if liquidity_delta == i128::MIN {
            return false;
        }
        add_liquidity_delta(self.liquidity_available, -liquidity_delta).is_ok()
            && add_liquidity_delta(self.liquidity_borrowed, liquidity_delta).is_ok()
    }

    /// Records a loan being opened, repaid or charged interest.
    ///
    /// Interest accrues first, spread over the liquidity that was available
    /// before the loan changed it; then `liquidity_delta` moves from the
    /// available to the borrowed liquidity.
    pub fn update_after_loan(
        &mut self,
        liquidity_delta: i128,
        interest_amount: u64,
        is_token_fee_in_a: bool,
    )
        requires
            old(self).loan_fits(liquidity_delta, interest_amount, is_token_fee_in_a),
        ensures
            *final(self) == old(self).after_loan(liquidity_delta, interest_amount, is_token_fee_in_a),
            final(self).fee_growth_global_a >= old(self).fee_growth_global_a,
            final(self).fee_growth_global_b >= old(self).fee_growth_global_b,
            final(self).liquidity_available + final(self).liquidity_borrowed == old(self).liquidity_available + old(self).liquidity_borrowed,
            old(self).well_formed() ==> final(self).well_formed(),
    {
        if interest_amount > 0 {
            let accrued_interest_fee: u128 = interest_fee_per_liquidity(
                interest_amount,
                self.liquidity_available,
            );
            if is_token_fee_in_a {
                self.fee_growth_global_a = self.fee_growth_global_a + accrued_interest_fee;
            } else {
                self.fee_growth_global_b = self.fee_growth_global_b + accrued_interest_fee;
            }
        }
        let available: Result<u128, ErrorCode> = add_liquidity_delta(
            self.liquidity_available,
            -liquidity_delta,
        );
        let borrowed: Result<u128, ErrorCode> = add_liquidity_delta(
            self.liquidity_borrowed,
            liquidity_delta,
        );
        self.liquidity_available = available.unwrap();
        self.liquidity_borrowed = borrowed.unwrap();
    }

    /// Sets both owed protocol fees to zero, once they have been swept to a
    /// vault.
    pub fn reset_protocol_fees_owed(&mut self)
        ensures
            *final(self) == (Globalpool {
                protocol_fee_owed_a: 0,
                protocol_fee_owed_b: 0,
                ..*old(self)
            }),
            old(self).well_formed() ==> final(self).well_formed(),
    {
        self.protocol_fee_owed_a = 0;
        self.protocol_fee_owed_b = 0;
    }
}

/// An empty pool accepts its first valid initialisation, and the pool that
/// this leaves behind rejects every later one. Where the later call names
/// ordered mints and a supported price, the reason is that the pool is
/// already initialised.
pub proof fn lemma_initialize_succeeds_exactly_once(
    pool: Globalpool,
    globalpool_bump: u8,
    tick_spacing: u16,
    sqrt_price: u128,
    fee_rate: u16,
    protocol_fee_rate: u16,
    fee_authority: Pubkey,
    token_mint_a: Pubkey,
    token_vault_a: Pubkey,
    token_mint_b: Pubkey,
    token_vault_b: Pubkey,
    unix_timestamp: i64,
    later_sqrt_price: u128,
    later_fee_rate: u16,
    later_protocol_fee_rate: u16,
    later_token_mint_a: Pubkey,
    later_token_mint_b: Pubkey,
    later_unix_timestamp: i64,
)
    requires
        !pool.is_initialized(),
        pubkey_lt_spec(token_mint_a@, token_mint_b@),
        MIN_SQRT_PRICE_X64 <= sqrt_price <= MAX_SQRT_PRICE_X64,
        fee_rate <= MAX_FEE_RATE,
        protocol_fee_rate <= MAX_PROTOCOL_FEE_RATE,
        unix_timestamp >= 0,
    ensures
        pool.initialize_error(
            sqrt_price,
            fee_rate,
            protocol_fee_rate,
            token_mint_a,
            token_mint_b,
            unix_timestamp,
        ) is None,
        Globalpool::initialized(
            globalpool_bump,
            tick_spacing,
            sqrt_price,
            fee_rate,
            protocol_fee_rate,
            fee_authority,
            token_mint_a,
            token_vault_a,
            token_mint_b,
            token_vault_b,
            unix_timestamp,
        ).initialize_error(
            later_sqrt_price,
            later_fee_rate,
            later_protocol_fee_rate,
            later_token_mint_a,
            later_token_mint_b,
            later_unix_timestamp,
        ) is Some,
        pubkey_lt_spec(later_token_mint_a@, later_token_mint_b@) && MIN_SQRT_PRICE_X64
            <= later_sqrt_price <= MAX_SQRT_PRICE_X64 ==> Globalpool::initialized(
            globalpool_bump,
            tick_spacing,
            sqrt_price,
            fee_rate,
            protocol_fee_rate,
            fee_authority,
            token_mint_a,
            token_vault_a,
            token_mint_b,
            token_vault_b,
            unix_timestamp,
        ).initialize_error(
            later_sqrt_price,
            later_fee_rate,
            later_protocol_fee_rate,
            later_token_mint_a,
            later_token_mint_b,
            later_unix_timestamp,
        ) == Some(ErrorCode::AccountAlreadyInitialized),
{
}

/// A price outside the supported range is rejected whatever the pool's
/// state and the other arguments, for that reason unless the mints are
/// out of order.
pub proof fn lemma_initialize_rejects_unsupported_price(
    pool: Globalpool,
    sqrt_price: u128,
    fee_rate: u16,
    protocol_fee_rate: u16,
    token_mint_a: Pubkey,
    token_mint_b: Pubkey,
    unix_timestamp: i64,
)
    requires
        sqrt_price < MIN_SQRT_PRICE_X64 || sqrt_price > MAX_SQRT_PRICE_X64,
    ensures
        pool.initialize_error(
            sqrt_price,
            fee_rate,
            protocol_fee_rate,
            token_mint_a,
            token_mint_b,
            unix_timestamp,
        ) is Some,
        pubkey_lt_spec(token_mint_a@, token_mint_b@) ==> pool.initialize_error(
            sqrt_price,
            fee_rate,
            protocol_fee_rate,
            token_mint_a,
            token_mint_b,
            unix_timestamp,
        ) == Some(ErrorCode::SqrtPriceOutOfBounds),
{
}

impl Default for Globalpool {
    /// The empty pool: every field zero.
    fn default() -> (pool: Globalpool)
        ensures
            !pool.is_initialized(),
            pool.well_formed(),
            pool.liquidity_available == 0,
            pool.liquidity_borrowed == 0,
            pool.sqrt_price == 0,
            pool.tick_current_index == 0,
            pool.tick_spacing == 0,
            pool.fee_rate == 0,
            pool.protocol_fee_rate == 0,
            pool.protocol_fee_owed_a == 0,
            pool.protocol_fee_owed_b == 0,
            pool.fee_growth_global_a == 0,
            pool.fee_growth_global_b == 0,
            pool.inception_time == 0,
    {
        Globalpool {
            bump: [0u8; 1],
            tick_spacing: 0,
            tick_spacing_seed: [0u8; 2],
            fee_rate: 0,
            fee_rate_seed: [0u8; 2],
            protocol_fee_rate: 0,
            liquidity_available: 0,
            liquidity_borrowed: 0,
            sqrt_price: 0,
            tick_current_index: 0,
            protocol_fee_owed_a: 0,
            protocol_fee_owed_b: 0,
            token_mint_a: [0u8; 32],
            token_vault_a: [0u8; 32],
            fee_growth_global_a: 0,
            token_mint_b: [0u8; 32],
            token_vault_b: [0u8; 32],
            fee_growth_global_b: 0,
            inception_time: 0,
            fee_authority: [0u8; 32],
        }
    }
}

} // verus!
