use vstd::prelude::*;
use crate::bytes::{
    append_bytes, i32_to_le_bytes, le_bytes_i32, le_bytes_u128, le_bytes_u16, le_bytes_u64,
    lemma_concat_is_injective, lemma_le_bytes_i32_is_injective, lemma_le_bytes_lengths,
    lemma_le_bytes_u128_is_injective, lemma_le_bytes_u16_is_injective,
    lemma_le_bytes_u64_is_injective, read_array, read_i32,
    read_u128, read_u16, read_u64, u128_to_le_bytes, u16_to_le_bytes, u64_to_le_bytes,
};
use crate::state::globalpool::Globalpool;

verus! {

impl Globalpool {
    /// Number of bytes that the fields of a pool take in its account.
    pub const ENCODED_LEN: usize = 279;

    /// Bytes 0 to 11 of a stored pool: the bump, then tick spacing, fee rate
    /// and protocol fee rate, the first two each followed by its seed.
    pub open spec fn encoded_identity(&self) -> Seq<u8> {
        self.bump@ + le_bytes_u16(self.tick_spacing) + self.tick_spacing_seed@ + le_bytes_u16(
            self.fee_rate,
        ) + self.fee_rate_seed@ + le_bytes_u16(self.protocol_fee_rate)
    }

    /// Bytes 11 to 43: available liquidity, then borrowed liquidity.
    pub open spec fn encoded_liquidity(&self) -> Seq<u8> {
        le_bytes_u128(self.liquidity_available) + le_bytes_u128(self.liquidity_borrowed)
    }

    /// Bytes 43 to 63: the square-root price, then the current tick.
    pub open spec fn encoded_price(&self) -> Seq<u8> {
        le_bytes_u128(self.sqrt_price) + le_bytes_i32(self.tick_current_index)
    }

    /// Bytes 63 to 79: the protocol fee owed in token A, then in token B.
    pub open spec fn encoded_fees_owed(&self) -> Seq<u8> {
        le_bytes_u64(self.protocol_fee_owed_a) + le_bytes_u64(self.protocol_fee_owed_b)
    }

    /// Bytes 79 to 159: mint, vault and fee growth of token A.
    pub open spec fn encoded_side_a(&self) -> Seq<u8> {
        self.token_mint_a@ + self.token_vault_a@ + le_bytes_u128(self.fee_growth_global_a)
    }

    /// Bytes 159 to 239: mint, vault and fee growth of token B.
    pub open spec fn encoded_side_b(&self) -> Seq<u8> {
        self.token_mint_b@ + self.token_vault_b@ + le_bytes_u128(self.fee_growth_global_b)
    }

    /// Bytes 239 to 279: the inception time, then the fee authority.
    pub open spec fn encoded_tail(&self) -> Seq<u8> {
        le_bytes_u64(self.inception_time) + self.fee_authority@
    }

    /// The bytes of a stored pool: every field in the order of its
    /// declaration, integers lowest byte first, with nothing in between.
    pub open spec fn encoding(&self) -> Seq<u8> {
        self.encoded_identity() + self.encoded_liquidity() + self.encoded_price()
            + self.encoded_fees_owed() + self.encoded_side_a() + self.encoded_side_b()
            + self.encoded_tail()
    }

    /// Writes the pool as it is stored.
    pub fn to_bytes(&self) -> (bytes: Vec<u8>)
        ensures
            bytes@ == self.encoding(),
            bytes@.len() == Globalpool::ENCODED_LEN,
    {
        let mut bytes: Vec<u8> = Vec::new();
        append_bytes(&mut bytes, self.bump.as_slice());
        append_bytes(&mut bytes, u16_to_le_bytes(self.tick_spacing).as_slice());
        append_bytes(&mut bytes, self.tick_spacing_seed.as_slice());
        append_bytes(&mut bytes, u16_to_le_bytes(self.fee_rate).as_slice());
        append_bytes(&mut bytes, self.fee_rate_seed.as_slice());
        append_bytes(&mut bytes, u16_to_le_bytes(self.protocol_fee_rate).as_slice());
        assert(bytes@ =~= self.encoded_identity());
        let ghost identity: Seq<u8> = bytes@;

        append_bytes(&mut bytes, u128_to_le_bytes(self.liquidity_available).as_slice());
        append_bytes(&mut bytes, u128_to_le_bytes(self.liquidity_borrowed).as_slice());
        assert(bytes@ =~= identity + self.encoded_liquidity());
        let ghost liquidity: Seq<u8> = bytes@;

        append_bytes(&mut bytes, u128_to_le_bytes(self.sqrt_price).as_slice());
        append_bytes(&mut bytes, i32_to_le_bytes(self.tick_current_index).as_slice());
        assert(bytes@ =~= liquidity + self.encoded_price());
        let ghost price: Seq<u8> = bytes@;

        append_bytes(&mut bytes, u64_to_le_bytes(self.protocol_fee_owed_a).as_slice());
        append_bytes(&mut bytes, u64_to_le_bytes(self.protocol_fee_owed_b).as_slice());
        assert(bytes@ =~= price + self.encoded_fees_owed());
        let ghost fees_owed: Seq<u8> = bytes@;

        append_bytes(&mut bytes, self.token_mint_a.as_slice());
        append_bytes(&mut bytes, self.token_vault_a.as_slice());
        append_bytes(&mut bytes, u128_to_le_bytes(self.fee_growth_global_a).as_slice());
        assert(bytes@ =~= fees_owed + self.encoded_side_a());
        let ghost side_a: Seq<u8> = bytes@;

        append_bytes(&mut bytes, self.token_mint_b.as_slice());
        append_bytes(&mut bytes, self.token_vault_b.as_slice());
        append_bytes(&mut bytes, u128_to_le_bytes(self.fee_growth_global_b).as_slice());
        assert(bytes@ =~= side_a + self.encoded_side_b());
        let ghost side_b: Seq<u8> = bytes@;

        append_bytes(&mut bytes, u64_to_le_bytes(self.inception_time).as_slice());
        append_bytes(&mut bytes, self.fee_authority.as_slice());
        assert(bytes@ =~= side_b + self.encoded_tail());
        bytes
    }

    /// Reads a pool from the start of `data`, as `to_bytes` wrote it. Bytes
    /// behind the pool are ignored; fewer bytes than a pool takes hold none.
    pub fn from_bytes(data: &[u8]) -> (result: Option<Globalpool>)
        ensures
            result is Some <==> data@.len() >= Globalpool::ENCODED_LEN,
            result is Some ==> result->Some_0.encoding() == data@.subrange(
                0,
                Globalpool::ENCODED_LEN as int,
            ),
            forall|pool: Globalpool|
                data@.len() >= Globalpool::ENCODED_LEN && #[trigger] pool.encoding()
                    == data@.subrange(0, Globalpool::ENCODED_LEN as int) ==> result == Some(pool),
            forall|pool: Globalpool| #[trigger] pool.encoding() == data@ ==> result == Some(pool),
    {
        if data.len() < Globalpool::ENCODED_LEN {
            proof {
                assert forall|other: Globalpool| #[trigger]
                    other.encoding() == data@ implies false by {
                    lemma_encoded_lengths(other);
                }
            }
            return None;
        }
        let pool: Globalpool = Globalpool {
            bump: read_array::<1>(data, 0),
            tick_spacing: read_u16(data, 1),
            tick_spacing_seed: read_array::<2>(data, 3),
            fee_rate: read_u16(data, 5),
            fee_rate_seed: read_array::<2>(data, 7),
            protocol_fee_rate: read_u16(data, 9),
            liquidity_available: read_u128(data, 11),
            liquidity_borrowed: read_u128(data, 27),
            sqrt_price: read_u128(data, 43),
            tick_current_index: read_i32(data, 59),
            protocol_fee_owed_a: read_u64(data, 63),
            protocol_fee_owed_b: read_u64(data, 71),
            token_mint_a: read_array::<32>(data, 79),
            token_vault_a: read_array::<32>(data, 111),
            fee_growth_global_a: read_u128(data, 143),
            token_mint_b: read_array::<32>(data, 159),
            token_vault_b: read_array::<32>(data, 191),
            fee_growth_global_b: read_u128(data, 223),
            inception_time: read_u64(data, 239),
            fee_authority: read_array::<32>(data, 247),
        };
        proof {
            assert(pool.encoded_identity() =~= data@.subrange(0, 11));
            assert(pool.encoded_liquidity() =~= data@.subrange(11, 43));
            assert(pool.encoded_price() =~= data@.subrange(43, 63));
            assert(pool.encoded_fees_owed() =~= data@.subrange(63, 79));
            assert(pool.encoded_side_a() =~= data@.subrange(79, 159));
            assert(pool.encoded_side_b() =~= data@.subrange(159, 239));
            assert(pool.encoded_tail() =~= data@.subrange(239, 279));
            assert(pool.encoding() =~= data@.subrange(0, 279));
            assert forall|other: Globalpool| #[trigger]
                other.encoding() == data@.subrange(0, 279) implies other == pool by {
                lemma_encoding_is_injective(other, pool);
            }
            assert forall|other: Globalpool| #[trigger] other.encoding() == data@ implies other
                == pool by {
                lemma_encoded_lengths(other);
                assert(data@.subrange(0, 279) =~= data@);
                lemma_encoding_is_injective(other, pool);
            }
        }
        Some(pool)
    }
}

/// The seven parts of a stored pool take 11, 32, 20, 16, 80, 80 and 40
/// bytes.
pub proof fn lemma_encoded_lengths(pool: Globalpool)
    ensures
        pool.encoded_identity().len() == 11,
        pool.encoded_liquidity().len() == 32,
        pool.encoded_price().len() == 20,
        pool.encoded_fees_owed().len() == 16,
        pool.encoded_side_a().len() == 80,
        pool.encoded_side_b().len() == 80,
        pool.encoded_tail().len() == 40,
        pool.encoding().len() == Globalpool::ENCODED_LEN,
{
    lemma_le_bytes_lengths(pool.liquidity_available);
    lemma_le_bytes_lengths(pool.liquidity_borrowed);
    lemma_le_bytes_lengths(pool.sqrt_price);
    lemma_le_bytes_lengths(pool.fee_growth_global_a);
    lemma_le_bytes_lengths(pool.fee_growth_global_b);
    lemma_le_bytes_lengths(pool.protocol_fee_owed_a as u128);
    lemma_le_bytes_lengths(pool.protocol_fee_owed_b as u128);
    lemma_le_bytes_lengths(pool.inception_time as u128);
    assert(le_bytes_i32(pool.tick_current_index).len() == 4) by {
        lemma_le_bytes_lengths(crate::bytes::twos_complement(pool.tick_current_index) as u128);
    }
}

/// Two pools that are stored as the same bytes are the same pool. So reading
/// back what was written gives the pool that was written.
pub proof fn lemma_encoding_is_injective(first: Globalpool, second: Globalpool)
    requires
        first.encoding() == second.encoding(),
    ensures
        first == second,
{
    let p: Globalpool = first;
    let q: Globalpool = second;
    lemma_encoded_lengths(p);
    lemma_encoded_lengths(q);
    lemma_concat_is_injective(
        p.encoded_identity() + p.encoded_liquidity() + p.encoded_price() + p.encoded_fees_owed()
            + p.encoded_side_a() + p.encoded_side_b(),
        p.encoded_tail(),
        q.encoded_identity() + q.encoded_liquidity() + q.encoded_price() + q.encoded_fees_owed()
            + q.encoded_side_a() + q.encoded_side_b(),
        q.encoded_tail(),
    );
    lemma_concat_is_injective(
        p.encoded_identity() + p.encoded_liquidity() + p.encoded_price() + p.encoded_fees_owed()
            + p.encoded_side_a(),
        p.encoded_side_b(),
        q.encoded_identity() + q.encoded_liquidity() + q.encoded_price() + q.encoded_fees_owed()
            + q.encoded_side_a(),
        q.encoded_side_b(),
    );
    lemma_concat_is_injective(
        p.encoded_identity() + p.encoded_liquidity() + p.encoded_price() + p.encoded_fees_owed(),
        p.encoded_side_a(),
        q.encoded_identity() + q.encoded_liquidity() + q.encoded_price() + q.encoded_fees_owed(),
        q.encoded_side_a(),
    );
    lemma_concat_is_injective(
        p.encoded_identity() + p.encoded_liquidity() + p.encoded_price(),
        p.encoded_fees_owed(),
        q.encoded_identity() + q.encoded_liquidity() + q.encoded_price(),
        q.encoded_fees_owed(),
    );
    lemma_concat_is_injective(
        p.encoded_identity() + p.encoded_liquidity(),
        p.encoded_price(),
        q.encoded_identity() + q.encoded_liquidity(),
        q.encoded_price(),
    );
    lemma_concat_is_injective(
        p.encoded_identity(),
        p.encoded_liquidity(),
        q.encoded_identity(),
        q.encoded_liquidity(),
    );
    lemma_identity_is_injective(p, q);
    lemma_figures_are_injective(p, q);
    lemma_sides_are_injective(p, q);
}

/// Pools whose first eleven bytes agree have the same bump, tick spacing,
/// fee rate, protocol fee rate and seeds.
proof fn lemma_identity_is_injective(p: Globalpool, q: Globalpool)
    requires
        p.encoded_identity() == q.encoded_identity(),
    ensures
        p.bump == q.bump,
        p.tick_spacing == q.tick_spacing,
        p.tick_spacing_seed == q.tick_spacing_seed,
        p.fee_rate == q.fee_rate,
        p.fee_rate_seed == q.fee_rate_seed,
        p.protocol_fee_rate == q.protocol_fee_rate,
{
    lemma_concat_is_injective(
        p.bump@ + le_bytes_u16(p.tick_spacing) + p.tick_spacing_seed@ + le_bytes_u16(p.fee_rate)
            + p.fee_rate_seed@,
        le_bytes_u16(p.protocol_fee_rate),
        q.bump@ + le_bytes_u16(q.tick_spacing) + q.tick_spacing_seed@ + le_bytes_u16(q.fee_rate)
            + q.fee_rate_seed@,
        le_bytes_u16(q.protocol_fee_rate),
    );
    lemma_concat_is_injective(
        p.bump@ + le_bytes_u16(p.tick_spacing) + p.tick_spacing_seed@ + le_bytes_u16(p.fee_rate),
        p.fee_rate_seed@,
        q.bump@ + le_bytes_u16(q.tick_spacing) + q.tick_spacing_seed@ + le_bytes_u16(q.fee_rate),
        q.fee_rate_seed@,
    );
    lemma_concat_is_injective(
        p.bump@ + le_bytes_u16(p.tick_spacing) + p.tick_spacing_seed@,
        le_bytes_u16(p.fee_rate),
        q.bump@ + le_bytes_u16(q.tick_spacing) + q.tick_spacing_seed@,
        le_bytes_u16(q.fee_rate),
    );
    lemma_concat_is_injective(
        p.bump@ + le_bytes_u16(p.tick_spacing),
        p.tick_spacing_seed@,
        q.bump@ + le_bytes_u16(q.tick_spacing),
        q.tick_spacing_seed@,
    );
    lemma_concat_is_injective(
        p.bump@,
        le_bytes_u16(p.tick_spacing),
        q.bump@,
        le_bytes_u16(q.tick_spacing),
    );
    lemma_le_bytes_u16_is_injective(p.tick_spacing, q.tick_spacing);
    lemma_le_bytes_u16_is_injective(p.fee_rate, q.fee_rate);
    lemma_le_bytes_u16_is_injective(p.protocol_fee_rate, q.protocol_fee_rate);
    assert(p.bump =~= q.bump);
    assert(p.tick_spacing_seed =~= q.tick_spacing_seed);
    assert(p.fee_rate_seed =~= q.fee_rate_seed);
}

/// Pools whose liquidity, price, owed fees and closing bytes agree have the
/// same figures, tick, inception time and fee authority.
proof fn lemma_figures_are_injective(p: Globalpool, q: Globalpool)
    requires
        p.encoded_liquidity() == q.encoded_liquidity(),
        p.encoded_price() == q.encoded_price(),
        p.encoded_fees_owed() == q.encoded_fees_owed(),
        p.encoded_tail() == q.encoded_tail(),
    ensures
        p.liquidity_available == q.liquidity_available,
        p.liquidity_borrowed == q.liquidity_borrowed,
        p.sqrt_price == q.sqrt_price,
        p.tick_current_index == q.tick_current_index,
        p.protocol_fee_owed_a == q.protocol_fee_owed_a,
        p.protocol_fee_owed_b == q.protocol_fee_owed_b,
        p.inception_time == q.inception_time,
        p.fee_authority == q.fee_authority,
{
    lemma_encoded_lengths(p);
    lemma_encoded_lengths(q);
    lemma_le_bytes_lengths(p.liquidity_available);
    lemma_le_bytes_lengths(q.liquidity_available);
    lemma_le_bytes_lengths(p.sqrt_price);
    lemma_le_bytes_lengths(q.sqrt_price);
    lemma_le_bytes_lengths(p.protocol_fee_owed_a as u128);
    lemma_le_bytes_lengths(q.protocol_fee_owed_a as u128);
    lemma_le_bytes_lengths(p.inception_time as u128);
    lemma_le_bytes_lengths(q.inception_time as u128);
    lemma_concat_is_injective(
        le_bytes_u128(p.liquidity_available),
        le_bytes_u128(p.liquidity_borrowed),
        le_bytes_u128(q.liquidity_available),
        le_bytes_u128(q.liquidity_borrowed),
    );
    lemma_le_bytes_u128_is_injective(p.liquidity_available, q.liquidity_available);
    lemma_le_bytes_u128_is_injective(p.liquidity_borrowed, q.liquidity_borrowed);
    lemma_concat_is_injective(
        le_bytes_u128(p.sqrt_price),
        le_bytes_i32(p.tick_current_index),
        le_bytes_u128(q.sqrt_price),
        le_bytes_i32(q.tick_current_index),
    );
    lemma_le_bytes_u128_is_injective(p.sqrt_price, q.sqrt_price);
    lemma_le_bytes_i32_is_injective(p.tick_current_index, q.tick_current_index);
    lemma_concat_is_injective(
        le_bytes_u64(p.protocol_fee_owed_a),
        le_bytes_u64(p.protocol_fee_owed_b),
        le_bytes_u64(q.protocol_fee_owed_a),
        le_bytes_u64(q.protocol_fee_owed_b),
    );
    lemma_le_bytes_u64_is_injective(p.protocol_fee_owed_a, q.protocol_fee_owed_a);
    lemma_le_bytes_u64_is_injective(p.protocol_fee_owed_b, q.protocol_fee_owed_b);
    lemma_concat_is_injective(
        le_bytes_u64(p.inception_time),
        p.fee_authority@,
        le_bytes_u64(q.inception_time),
        q.fee_authority@,
    );
    lemma_le_bytes_u64_is_injective(p.inception_time, q.inception_time);
    assert(p.fee_authority =~= q.fee_authority);
}

/// Pools whose bytes for the two tokens agree have the same mints, vaults
/// and fee growth.
proof fn lemma_sides_are_injective(p: Globalpool, q: Globalpool)
    requires
        p.encoded_side_a() == q.encoded_side_a(),
        p.encoded_side_b() == q.encoded_side_b(),
    ensures
        p.token_mint_a == q.token_mint_a,
        p.token_vault_a == q.token_vault_a,
        p.fee_growth_global_a == q.fee_growth_global_a,
        p.token_mint_b == q.token_mint_b,
        p.token_vault_b == q.token_vault_b,
        p.fee_growth_global_b == q.fee_growth_global_b,
{
    lemma_concat_is_injective(
        p.token_mint_a@ + p.token_vault_a@,
        le_bytes_u128(p.fee_growth_global_a),
        q.token_mint_a@ + q.token_vault_a@,
        le_bytes_u128(q.fee_growth_global_a),
    );
    lemma_concat_is_injective(
        p.token_mint_a@,
        p.token_vault_a@,
        q.token_mint_a@,
        q.token_vault_a@,
    );
    lemma_le_bytes_u128_is_injective(p.fee_growth_global_a, q.fee_growth_global_a);
    assert(p.token_mint_a =~= q.token_mint_a);
    assert(p.token_vault_a =~= q.token_vault_a);
    lemma_concat_is_injective(
        p.token_mint_b@ + p.token_vault_b@,
        le_bytes_u128(p.fee_growth_global_b),
        q.token_mint_b@ + q.token_vault_b@,
        le_bytes_u128(q.fee_growth_global_b),
    );
    lemma_concat_is_injective(
        p.token_mint_b@,
        p.token_vault_b@,
        q.token_mint_b@,
        q.token_vault_b@,
    );
    lemma_le_bytes_u128_is_injective(p.fee_growth_global_b, q.fee_growth_global_b);
    assert(p.token_mint_b =~= q.token_mint_b);
    assert(p.token_vault_b =~= q.token_vault_b);
}

} // verus!
