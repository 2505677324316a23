//! Snapshots of a pool and of personal positions, as read from the chain.

use crate::address::Address;
use crate::position::PositionNftTokenInfo;
use vstd::prelude::*;

verus! {

/// How many reward slots a pool has.
pub const REWARD_NUM: usize = 3;

/// One reward slot of a pool. A slot whose mint is the zero address is
/// empty.
#[derive(Clone, Copy, Debug, PartialEq, Eq)]
pub struct RewardInfo {
    pub token_mint: Address,
    pub token_vault: Address,
}

/// What a transaction plan reads of a pool.
#[derive(Clone, Copy, Debug, PartialEq, Eq)]
pub struct PoolState {
    pub tick_current: i32,
    pub sqrt_price_x64: u128,
    pub tick_spacing: u16,
    pub token_mint_0: Address,
    pub token_mint_1: Address,
    pub mint_decimals_0: u8,
    pub mint_decimals_1: u8,
    pub token_vault_0: Address,
    pub token_vault_1: Address,
    pub reward_infos: [RewardInfo; 3],
}

/// An owner's claim on liquidity of a pool in a tick range.
#[derive(Clone, Copy, Debug, PartialEq, Eq)]
pub struct PersonalPosition {
    pub nft_mint: Address,
    pub pool_id: Address,
    pub tick_lower_index: i32,
    pub tick_upper_index: i32,
    pub liquidity: u128,
}

/// Whether a position is the one of a pool and a tick range.
pub open spec fn covers(position: PersonalPosition, pool_id: Address, lower: i32, upper: i32)
    -> bool {
    &&& position.pool_id == pool_id
    &&& position.tick_lower_index == lower
    &&& position.tick_upper_index == upper
}

/// The place of the first position of a pool and a tick range, if there is
/// one.
pub open spec fn first_covering(
    positions: Seq<PersonalPosition>,
    pool_id: Address,
    lower: i32,
    upper: i32,
) -> Option<int> {
    if exists|i: int| 0 <= i < positions.len() && covers(positions[i], pool_id, lower, upper) {
        Some(
            choose|i: int|
                0 <= i < positions.len() && covers(positions[i], pool_id, lower, upper) && forall|
                    j: int,
                |
                    0 <= j < i ==> !covers(positions[j], pool_id, lower, upper),
        )
    } else {
        None
    }
}

/// The first position of a pool and a tick range, if there is one.
pub open spec fn find_position_spec(
    positions: Seq<PersonalPosition>,
    pool_id: Address,
    lower: i32,
    upper: i32,
) -> Option<PersonalPosition> {
    match first_covering(positions, pool_id, lower, upper) {
        Some(i) => Some(positions[i]),
        None => None,
    }
}

/// The owner's position in a pool and a tick range: the first of the
/// positions that covers both, `None` where none does.
pub fn find_position(
    positions: &Vec<PersonalPosition>,
    pool_id: &Address,
    tick_lower_index: i32,
    tick_upper_index: i32,
) -> (r: Option<PersonalPosition>)
    ensures
        r == find_position_spec(positions@, *pool_id, tick_lower_index, tick_upper_index),
        r is None <==> forall|i: int|
            0 <= i < positions.len() ==> !covers(
                positions[i],
                *pool_id,
                tick_lower_index,
                tick_upper_index,
            ),
        r is Some ==> exists|i: int|
            0 <= i < positions.len() && positions[i] == r->0 && covers(
                positions[i],
                *pool_id,
                tick_lower_index,
                tick_upper_index,
            ) && forall|j: int|
                0 <= j < i ==> !covers(positions[j], *pool_id, tick_lower_index, tick_upper_index),
{
    let mut i: usize = 0;
    while i < positions.len()
        invariant
            0 <= i <= positions.len(),
            forall|j: int|
                0 <= j < i ==> !covers(positions[j], *pool_id, tick_lower_index, tick_upper_index),
        decreases positions.len() - i,
    {
        let position = positions[i];
        if position.pool_id.equals(pool_id) && position.tick_lower_index == tick_lower_index
            && position.tick_upper_index == tick_upper_index {
            proof {
                let found = i as int;
                assert(0 <= found < positions.len() && covers(
                    positions[found],
                    *pool_id,
                    tick_lower_index,
                    tick_upper_index,
                ) && forall|j: int|
                    0 <= j < found ==> !covers(
                        positions[j],
                        *pool_id,
                        tick_lower_index,
                        tick_upper_index,
                    ));
                let chosen = first_covering(
                    positions@,
                    *pool_id,
                    tick_lower_index,
                    tick_upper_index,
                )->0;
                if chosen < found {
                    assert(!covers(positions[chosen], *pool_id, tick_lower_index, tick_upper_index));
                } else if found < chosen {
                    assert(!covers(positions[found], *pool_id, tick_lower_index, tick_upper_index));
                }
            }
            return Some(position);
        }
        i += 1;
    }
    None
}

/// The first token account of a mint among an owner's position tokens.
pub open spec fn find_token_spec(infos: Seq<PositionNftTokenInfo>, mint: Address) -> Option<
    PositionNftTokenInfo,
>
    decreases infos.len(),
{
    if infos.len() == 0 {
        None
    } else if infos[0].mint == mint {
        Some(infos[0])
    } else {
        find_token_spec(infos.drop_first(), mint)
    }
}

/// The first token account of a mint among an owner's position tokens.
pub fn find_token(infos: &Vec<PositionNftTokenInfo>, mint: &Address) -> (r: Option<
    PositionNftTokenInfo,
>)
    ensures
        r == find_token_spec(infos@, *mint),
{
    let mut i: usize = 0;
    assert(infos@.skip(0) =~= infos@);
    while i < infos.len()
        invariant
            0 <= i <= infos.len(),
            find_token_spec(infos@, *mint) == find_token_spec(infos@.skip(i as int), *mint),
        decreases infos.len() - i,
    {
        let info = infos[i];
        assert(infos@.skip(i as int)[0] == infos@[i as int]);
        if info.mint.equals(mint) {
            return Some(info);
        }
        assert(infos@.skip(i as int).drop_first() =~= infos@.skip(i + 1));
        i += 1;
    }
    None
}

} // verus!
