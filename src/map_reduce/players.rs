use crate::latency::{block_for_ms, incurs_latency, random_below};
use crate::Probability;
use vstd::prelude::*;

verus! {

/// A player's ID and estimated score.
pub type Player = (usize, i32);

/// The neutral element of `reduce_classic`: no player.
pub const IDENTITY: Player = (usize::MAX, i32::MAX);

/// The score estimated for a player ID.
pub open spec fn spec_score(id: usize) -> int {
    2 * id
}

/// What combining two players gives: the one that is not `IDENTITY` if the
/// other is, else the higher score, the first player on a tie.
pub open spec fn spec_reduce_players(player_1: Player, player_2: Player) -> Player {
    if player_1 == IDENTITY {
        player_2
    } else if player_2 == IDENTITY {
        player_1
    } else if player_2.1 > player_1.1 {
        player_2
    } else {
        player_1
    }
}

/// Whether the estimated score of `id` fits in an `i32`.
pub fn score_fits(id: usize) -> (r: bool)
    ensures
        r == (spec_score(id) <= i32::MAX),
{
    id <= (i32::MAX as usize) / 2
}

/// The player with its estimated score.
pub fn predict(id: usize) -> (r: Player)
    requires
        spec_score(id) <= i32::MAX,
    ensures
        r == (id, spec_score(id) as i32),
{
    (id, (2 * id) as i32)
}

fn is_identity(p: Player) -> (r: bool)
    ensures
        r == (p == IDENTITY),
{
    p.0 == usize::MAX && p.1 == i32::MAX
}

/// The result of combining two players when one of them is `IDENTITY`, which
/// needs no comparison; `None` when neither is.
pub fn identity_shortcut(player_1: Player, player_2: Player) -> (r: Option<Player>)
    ensures
        r is Some <==> player_1 == IDENTITY || player_2 == IDENTITY,
        r matches Some(p) ==> p == spec_reduce_players(player_1, player_2),
{
    if is_identity(player_1) {
        Some(player_2)
    } else if is_identity(player_2) {
        Some(player_1)
    } else {
        None
    }
}

/// The player with the higher score, the first one on a tie.
pub fn stronger(player_1: Player, player_2: Player) -> (r: Player)
    ensures
        r == (if player_2.1 > player_1.1 {
            player_2
        } else {
            player_1
        }),
{
    if player_2.1 > player_1.1 {
        player_2
    } else {
        player_1
    }
}

/// Estimates the score of player `id`, first incurring `latency_ms` of
/// blocking latency with probability `latency_p`.
pub fn map_classic(id: &usize, latency_ms: u64, latency_p: Probability) -> (r: Player)
    requires
        spec_score(*id) <= i32::MAX,
    ensures
        r == (*id, spec_score(*id) as i32),
{
    if incurs_latency(latency_p) {
        block_for_ms(latency_ms);
    }
    predict(*id)
}

/// Combines two players, which must not both be `IDENTITY`. When neither is,
/// the comparison first incurs `latency_ms` of blocking latency with
/// probability `latency_p`.
pub fn reduce_classic(
    player_1: Player,
    player_2: Player,
    latency_ms: u64,
    latency_p: Probability,
) -> (r: Player)
    requires
        !(player_1 == IDENTITY && player_2 == IDENTITY),
    ensures
        r == spec_reduce_players(player_1, player_2),
{
    if let Some(p) = identity_shortcut(player_1, player_2) {
        return p;
    }
    if incurs_latency(latency_p) {
        block_for_ms(latency_ms);
    }
    stronger(player_1, player_2)
}

pub fn identity_classic() -> (r: Player)
    ensures
        r == IDENTITY,
{
    IDENTITY
}

/// `len` player IDs drawn uniformly from `0..=100`.
pub fn generate_random_ids(len: usize) -> (r: Vec<usize>)
    ensures
        r@.len() == len,
        forall|i: int| 0 <= i < len ==> r@[i] <= 100,
{
    let mut ids: Vec<usize> = Vec::new();
    let mut k: usize = 0;
    while k < len
        invariant
            k <= len,
            ids@.len() == k,
            forall|i: int| 0 <= i < k ==> ids@[i] <= 100,
        decreases len - k,
    {
        ids.push(random_below(101) as usize);
        k += 1;
    }
    ids
}

} // verus!
