use vstd::prelude::*;

verus! {

/// Where the game is: being played, paused by the player, or lost.
#[derive(Clone, Copy, Debug, PartialEq, Eq, Structural, Hash)]
pub enum GameState {
    Playing,
    Paused,
    GameOver,
}

impl Default for GameState {
    /// A game starts in play.
    fn default() -> (s: Self)
        ensures
            s == GameState::Playing,
    {
        GameState::Playing
    }
}

/// The state that the pause key leads to from `state`: play and pause swap,
/// and a lost game stays lost.
pub open spec fn spec_toggled(state: GameState) -> GameState {
    match state {
        GameState::Playing => GameState::Paused,
        GameState::Paused => GameState::Playing,
        GameState::GameOver => GameState::GameOver,
    }
}

/// The pause key: when Escape was just pressed, the next state is the
/// toggled one; otherwise no transition is requested.
pub fn toggle_pause(state: GameState, escape_just_pressed: bool) -> (next: Option<GameState>)
    ensures
        next == (if escape_just_pressed {
            Some(spec_toggled(state))
        } else {
            None
        }),
{
    if escape_just_pressed {
        Some(
            match state {
                GameState::Playing => GameState::Paused,
                GameState::Paused => GameState::Playing,
                GameState::GameOver => GameState::GameOver,
            },
        )
    } else {
        None
    }
}

/// Pressing the pause key twice returns to the state the game was in.
pub proof fn lemma_pause_twice_is_identity(state: GameState)
    ensures
        spec_toggled(spec_toggled(state)) == state,
{
}

/// The pause key never ends a game nor brings a lost game back.
pub proof fn lemma_pause_keeps_game_over(state: GameState)
    ensures
        (spec_toggled(state) == GameState::GameOver) <==> (state == GameState::GameOver),
{
}

/// The restart key: in a lost game, Space starts a new game in play; in any
/// other state, or without Space, nothing happens.
pub fn restart_game(state: GameState, space_just_pressed: bool) -> (next: Option<GameState>)
    ensures
        next == (if state == GameState::GameOver && space_just_pressed {
            Some(GameState::Playing)
        } else {
            None
        }),
{
    if state == GameState::GameOver && space_just_pressed {
        Some(GameState::Playing)
    } else {
        None
    }
}

/// What the physics-pause key sets: whether the simulation clock is paused,
/// and whether the physics debug drawing is shown (it is shown exactly while
/// the simulation is paused).
#[derive(Clone, Copy, Debug, PartialEq, Eq, Structural)]
pub struct PhysicsPause {
    pub paused: bool,
    pub gizmos_enabled: bool,
}

/// The physics-pause key: when P was just pressed, the simulation clock flips
/// between paused and running and the debug drawing follows it; otherwise
/// nothing changes.
pub fn toggle_physics_pause(paused: bool, p_just_pressed: bool) -> (next: Option<PhysicsPause>)
    ensures
        next == (if p_just_pressed {
            Some(PhysicsPause { paused: !paused, gizmos_enabled: !paused })
        } else {
            None
        }),
{
    if p_just_pressed {
        let pause = !paused;
        Some(PhysicsPause { paused: pause, gizmos_enabled: pause })
    } else {
        None
    }
}

} // verus!
