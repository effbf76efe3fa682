//! Game state (pause), and the roster of playable characters with switching
//! between them.

use vstd::prelude::*;
use crate::lists::position_of_entity;

verus! {

/// The state of the game.
#[derive(Debug, Clone, Copy, PartialEq, Eq, Structural, Hash)]
pub enum GameState {
    Loading,
    Playing,
    Paused,
    MainMenu,
}

/// The state the pause key leads to: playing and paused swap; in any other
/// state the key does nothing.
pub open spec fn spec_pause_toggled(state: GameState) -> Option<GameState> {
    match state {
        GameState::Playing => Some(GameState::Paused),
        GameState::Paused => Some(GameState::Playing),
        _ => None,
    }
}

/// The state to switch to when the pause key is pressed, if any.
pub fn toggle_pause(current: GameState) -> (next: Option<GameState>)
    ensures
        next == spec_pause_toggled(current),
{
    match current {
        GameState::Playing => Some(GameState::Paused),
        GameState::Paused => Some(GameState::Playing),
        _ => None,
    }
}

/// The playable characters and which one is controlled.
#[derive(Debug, Clone)]
pub struct PlayerManager {
    /// Bits of the player entities, in switching order.
    pub players: Vec<u64>,
    pub current_player_index: usize,
    /// Inactive characters follow the active one under AI control.
    pub enable_ai_on_inactive: bool,
}

/// A request to change the controlled character, by entity or by index.
#[derive(Debug, Clone, Copy, PartialEq, Eq)]
pub struct SwitchPlayerEvent {
    pub target_index: Option<usize>,
    /// Bits of the target entity; takes precedence over the index.
    pub target_entity: Option<u64>,
}

/// What a switch does: control leaves `old_player` (which gets a follower AI
/// when `follow_new_player`) and goes to `new_player`.
#[derive(Debug, Clone, Copy, PartialEq, Eq)]
pub struct PlayerSwitch {
    pub old_player: Option<u64>,
    pub new_player: u64,
    pub follow_new_player: bool,
}

/// The character at the current index, if the index is in range.
pub open spec fn spec_current_player(players: Seq<u64>, index: int) -> Option<u64> {
    if 0 <= index < players.len() { Some(players[index]) } else { None }
}

/// The character a request designates: its entity, else the roster entry at
/// its index.
pub open spec fn spec_switch_target(players: Seq<u64>, ev: SwitchPlayerEvent) -> Option<u64> {
    match ev.target_entity {
        Some(e) => Some(e),
        None => match ev.target_index {
            Some(i) => if i < players.len() { Some(players[i as int]) } else { None },
            None => None,
        },
    }
}

impl PlayerManager {
    /// The controlled character, if the index is in range.
    pub fn get_current_player(&self) -> (r: Option<u64>)
        ensures
            r == spec_current_player(self.players@, self.current_player_index as int),
    {
        if self.current_player_index < self.players.len() {
            Some(self.players[self.current_player_index])
        } else {
            None
        }
    }

    /// The index the switch key moves to: the next one, wrapping around;
    /// `None` with an empty roster.
    pub fn next_player_index(&self) -> (r: Option<usize>)
        ensures
            self.players@.len() == 0 ==> r.is_none(),
            self.players@.len() > 0 ==> r == Some(((self.current_player_index + 1) % (self.players@.len() as int)) as usize),
    {
        if self.players.len() == 0 {
            return None;
        }
        if self.current_player_index == usize::MAX {
            assert(((self.current_player_index + 1) % (self.players@.len() as int)) == (usize::MAX as int + 1) % (self.players@.len() as int));
            let r: usize = ((self.current_player_index % self.players.len()) + 1) % self.players.len();
            assert((((usize::MAX as int) % (self.players@.len() as int)) + 1) % (self.players@.len() as int)
                == (usize::MAX as int + 1) % (self.players@.len() as int)) by (nonlinear_arith)
                requires self.players@.len() > 0;
            return Some(r);
        }
        Some((self.current_player_index + 1) % self.players.len())
    }

    /// Handles a switch request. `fallback` is the character currently
    /// marked as player, used when the index designates nobody. Nothing
    /// happens with an empty roster, an unknown target, or a target already
    /// in control; otherwise the index moves to the target's first place in
    /// the roster (if it is there) and the switch is returned.
    pub fn switch_player(&mut self, ev: SwitchPlayerEvent, fallback: Option<u64>) -> (r: Option<PlayerSwitch>)
        ensures
            final(self).players@ == old(self).players@,
            final(self).enable_ai_on_inactive == old(self).enable_ai_on_inactive,
            ({
                let players = old(self).players@;
                let current = match spec_current_player(players, old(self).current_player_index as int) {
                    Some(p) => Some(p),
                    None => fallback,
                };
                if players.len() == 0 || spec_switch_target(players, ev).is_none()
                    || current == spec_switch_target(players, ev) {
                    &&& r.is_none()
                    &&& final(self).current_player_index == old(self).current_player_index
                } else {
                    let new_player = spec_switch_target(players, ev).unwrap();
                    &&& r == Some(PlayerSwitch {
                        old_player: current,
                        new_player,
                        follow_new_player: old(self).enable_ai_on_inactive,
                    })
                    &&& (players.contains(new_player) ==> {
                        &&& final(self).current_player_index < players.len()
                        &&& players[final(self).current_player_index as int] == new_player
                        &&& forall|j: int| 0 <= j < final(self).current_player_index ==> players[j] != new_player
                    })
                    &&& (!players.contains(new_player) ==> final(self).current_player_index == old(self).current_player_index)
                }
            }),
    {
        if self.players.len() == 0 {
            return None;
        }
        let target = match ev.target_entity {
            Some(e) => Some(e),
            None => match ev.target_index {
                Some(i) => if i < self.players.len() { Some(self.players[i]) } else { None },
                None => None,
            },
        };
        let new_player = match target {
            Some(p) => p,
            None => { return None; },
        };
        let current = match self.get_current_player() {
            Some(p) => Some(p),
            None => fallback,
        };
        if current == Some(new_player) {
            return None;
        }
        match position_of_entity(&self.players, new_player) {
            Some(i) => { self.current_player_index = i; },
            None => {},
        }
        Some(PlayerSwitch { old_player: current, new_player, follow_new_player: self.enable_ai_on_inactive })
    }
}

/// Pausing and resuming undo each other.
pub proof fn law_pause_toggle_round_trip(state: GameState)
    requires
        state == GameState::Playing || state == GameState::Paused,
    ensures
        spec_pause_toggled(spec_pause_toggled(state).unwrap()) == Some(state),
{
}

/// A switch to a character of the roster makes it the current player.
pub proof fn law_switch_makes_target_current(players: Seq<u64>, new_index: int, new_player: u64)
    requires
        0 <= new_index < players.len(),
        players[new_index] == new_player,
    ensures
        spec_current_player(players, new_index) == Some(new_player),
{
}

/// Pressing the switch key as many times as there are characters comes back
/// to the starting index.
pub proof fn law_switch_key_cycles(len: int, start: int)
    requires
        len > 0,
        0 <= start < len,
    ensures
        cycle_index(len, start, len as nat) == start,
    decreases len,
{
    lemma_cycle_index(len, start, len as nat);
    assert((start + len) % len == start) by (nonlinear_arith)
        requires 0 <= start < len;
}

/// The index reached from `start` after `n` presses of the switch key.
pub open spec fn cycle_index(len: int, start: int, n: nat) -> int
    decreases n,
{
    if n == 0 { start } else { (cycle_index(len, start, (n - 1) as nat) + 1) % len }
}

/// After `n` presses the index is `(start + n) mod len`.
pub proof fn lemma_cycle_index(len: int, start: int, n: nat)
    requires
        len > 0,
        0 <= start < len,
    ensures
        cycle_index(len, start, n) == (start + n) % len,
    decreases n,
{
    if n == 0 {
        assert(start % len == start) by (nonlinear_arith)
            requires 0 <= start < len;
    } else {
        lemma_cycle_index(len, start, (n - 1) as nat);
        let a = start + n - 1;
        assert(((a % len) + 1) % len == (a + 1) % len) by (nonlinear_arith)
            requires len > 0, a >= 0;
    }
}

} // verus!
