//! Score keeping for a game and its players.
//!
//! A game has an authority that may close it; each player record belongs to
//! an authority that may post scores to it while the game is open.

use crate::clock::unix_timestamp;
use crate::keys::same_key;
use anchor_lang::prelude::ProgramError;
use anchor_lang::prelude::Pubkey;
use vstd::prelude::*;

verus! {

/// Why a score-keeping request was rejected.
#[derive(Clone, Copy, Debug, PartialEq, Eq, Structural)]
pub enum CustomError {
    /// An account of the wrong kind was provided.
    InvalidAccount,
    /// The funds do not cover the request.
    InsufficientFunds,
    /// The caller is not the authority of the record.
    Unauthorized,
    /// The game is closed.
    InvalidOperation,
}

/// A game and its running totals.
#[derive(Clone, Copy, Debug, PartialEq, Eq)]
pub struct GameState {
    /// Identity allowed to close the game.
    pub authority: Pubkey,
    /// Number of players.
    pub players: u64,
    /// Sum of all scores posted.
    pub total_score: u64,
    /// Whether scores may be posted.
    pub is_active: bool,
    /// Time the game was created.
    pub created_at: i64,
}

impl GameState {
    /// Bytes the record occupies in storage.
    pub const LEN: usize = 8 + 32 + 8 + 8 + 1 + 8;
}

/// A player and their running totals.
#[derive(Clone, Copy, Debug, PartialEq, Eq)]
pub struct Player {
    /// Identity allowed to post scores for the player.
    pub authority: Pubkey,
    /// Sum of the scores posted for the player.
    pub score: u64,
    /// Number of scores posted for the player.
    pub games_played: u64,
    /// Time the player joined.
    pub joined_at: i64,
}

impl Player {
    /// Bytes the record occupies in storage.
    pub const LEN: usize = 8 + 32 + 8 + 8 + 8;
}

/// A game created at time `now`: open, with no players and no score.
pub fn initialize_game_at(authority: Pubkey, now: i64) -> (game: GameState)
    ensures
        game == (GameState {
            authority,
            players: 0,
            total_score: 0,
            is_active: true,
            created_at: now,
        }),
{
    GameState { authority, players: 0, total_score: 0, is_active: true, created_at: now }
}

/// A game created at the time the clock shows, or the clock's error.
pub fn initialize_game(authority: Pubkey) -> (r: Result<GameState, ProgramError>)
    ensures
        r matches Ok(game) ==> game == (GameState {
            authority,
            players: 0,
            total_score: 0,
            is_active: true,
            created_at: game.created_at,
        }),
{
    match unix_timestamp() {
        Ok(now) => Ok(initialize_game_at(authority, now)),
        Err(e) => Err(e),
    }
}

/// A player who joined at time `now`, with no score.
pub fn initialize_player_at(authority: Pubkey, now: i64) -> (player: Player)
    ensures
        player == (Player { authority, score: 0, games_played: 0, joined_at: now }),
{
    Player { authority, score: 0, games_played: 0, joined_at: now }
}

/// A player who joined at the time the clock shows, or the clock's error.
pub fn initialize_player(authority: Pubkey) -> (r: Result<Player, ProgramError>)
    ensures
        r matches Ok(player) ==> player == (Player {
            authority,
            score: 0,
            games_played: 0,
            joined_at: player.joined_at,
        }),
{
    match unix_timestamp() {
        Ok(now) => Ok(initialize_player_at(authority, now)),
        Err(e) => Err(e),
    }
}

/// Posts `new_score` for a player on behalf of `authority`.
///
/// The game must be open and `authority` must be the player's authority; the
/// first of the two that fails is reported and nothing changes. Otherwise the
/// score is added to the player's total and to the game's, and the player has
/// played one more game. Where the score is added, the totals must have room
/// for it; a request that is rejected may carry any score.
pub fn update_score(
    player: &mut Player,
    game_state: &mut GameState,
    authority: Pubkey,
    new_score: u64,
) -> (r: Result<(), CustomError>)
    requires
        old(game_state).is_active && old(player).authority == authority ==> {
            &&& old(player).score + new_score <= u64::MAX
            &&& old(player).games_played < u64::MAX
            &&& old(game_state).total_score + new_score <= u64::MAX
        },
    ensures
        !old(game_state).is_active ==> r == Err::<(), CustomError>(CustomError::InvalidOperation),
        old(game_state).is_active && old(player).authority != authority ==> r == Err::<
            (),
            CustomError,
        >(CustomError::Unauthorized),
        old(game_state).is_active && old(player).authority == authority ==> r == Ok::<
            (),
            CustomError,
        >(()),
        r is Err ==> *final(player) == *old(player) && *final(game_state) == *old(game_state),
        r is Ok ==> *final(player) == (Player {
            score: (old(player).score + new_score) as u64,
            games_played: (old(player).games_played + 1) as u64,
            ..*old(player)
        }) && *final(game_state) == (GameState {
            total_score: (old(game_state).total_score + new_score) as u64,
            ..*old(game_state)
        }),
{
    if !game_state.is_active {
        return Err(CustomError::InvalidOperation);
    }
    if !same_key(&player.authority, &authority) {
        return Err(CustomError::Unauthorized);
    }
    player.score = player.score + new_score;
    player.games_played = player.games_played + 1;
    game_state.total_score = game_state.total_score + new_score;
    Ok(())
}

/// Closes the game on behalf of `authority`.
///
/// Only the game's authority may close it; for anyone else nothing changes.
pub fn deactivate_game(game_state: &mut GameState, authority: Pubkey) -> (r: Result<
    (),
    CustomError,
>)
    ensures
        old(game_state).authority == authority ==> r == Ok::<(), CustomError>(())
            && *final(game_state) == (GameState { is_active: false, ..*old(game_state) }),
        old(game_state).authority != authority ==> r == Err::<(), CustomError>(
            CustomError::Unauthorized,
        ) && *final(game_state) == *old(game_state),
{
    if !same_key(&game_state.authority, &authority) {
        return Err(CustomError::Unauthorized);
    }
    game_state.is_active = false;
    Ok(())
}

} // verus!
