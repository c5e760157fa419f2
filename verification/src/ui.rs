use vstd::prelude::*;

use crate::state::GameState;

verus! {

/// What the mouse cursor does.
#[derive(Clone, Copy, Debug, PartialEq, Eq, Structural)]
pub enum CursorMode {
    /// Locked to the window and hidden, for mouse look.
    Locked,
    /// Free and visible, for menus.
    Free,
}

/// The cursor mode set on entering `state`: locked in play, free when
/// paused; entering a lost game leaves the cursor as it is.
pub fn cursor_on_enter(state: GameState) -> (mode: Option<CursorMode>)
    ensures
        mode == (match state {
            GameState::Playing => Some(CursorMode::Locked),
            GameState::Paused => Some(CursorMode::Free),
            GameState::GameOver => None::<CursorMode>,
        }),
{
    match state {
        GameState::Playing => Some(CursorMode::Locked),
        GameState::Paused => Some(CursorMode::Free),
        GameState::GameOver => None,
    }
}

/// The crosshair and the gun show only in play.
pub fn crosshair_and_gun_visible(state: GameState) -> (visible: bool)
    ensures
        visible == (state == GameState::Playing),
{
    state == GameState::Playing
}

/// The menu shown in `state`: a pause menu, a game-over menu, or none.
#[derive(Clone, Copy, Debug, PartialEq, Eq, Structural)]
pub enum Menu {
    Pause,
    GameOver,
}

/// The menu on screen in `state`.
pub fn menu_for(state: GameState) -> (menu: Option<Menu>)
    ensures
        menu == (match state {
            GameState::Playing => None::<Menu>,
            GameState::Paused => Some(Menu::Pause),
            GameState::GameOver => Some(Menu::GameOver),
        }),
{
    match state {
        GameState::Playing => None,
        GameState::Paused => Some(Menu::Pause),
        GameState::GameOver => Some(Menu::GameOver),
    }
}

} // verus!
