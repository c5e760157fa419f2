use cathedral::state::{restart_game, toggle_pause, toggle_physics_pause, GameState, PhysicsPause};
use cathedral::ui::{crosshair_and_gun_visible, cursor_on_enter, menu_for, CursorMode, Menu};

#[test]
fn escape_pauses_and_resumes() {
    assert_eq!(toggle_pause(GameState::Playing, true), Some(GameState::Paused));
    assert_eq!(toggle_pause(GameState::Paused, true), Some(GameState::Playing));
    assert_eq!(toggle_pause(GameState::GameOver, true), Some(GameState::GameOver));
}

#[test]
fn no_escape_no_transition() {
    assert_eq!(toggle_pause(GameState::Playing, false), None);
    assert_eq!(toggle_pause(GameState::Paused, false), None);
    assert_eq!(toggle_pause(GameState::GameOver, false), None);
}

#[test]
fn pausing_twice_returns_to_play() {
    let paused = toggle_pause(GameState::Playing, true).unwrap();
    assert_eq!(toggle_pause(paused, true), Some(GameState::Playing));
}

#[test]
fn space_restarts_only_a_lost_game() {
    assert_eq!(restart_game(GameState::GameOver, true), Some(GameState::Playing));
    assert_eq!(restart_game(GameState::GameOver, false), None);
    assert_eq!(restart_game(GameState::Playing, true), None);
    assert_eq!(restart_game(GameState::Paused, true), None);
}

#[test]
fn game_starts_in_play() {
    assert_eq!(GameState::default(), GameState::Playing);
}

#[test]
fn p_flips_physics_pause_and_debug_drawing() {
    assert_eq!(
        toggle_physics_pause(false, true),
        Some(PhysicsPause { paused: true, gizmos_enabled: true })
    );
    assert_eq!(
        toggle_physics_pause(true, true),
        Some(PhysicsPause { paused: false, gizmos_enabled: false })
    );
    assert_eq!(toggle_physics_pause(true, false), None);
}

#[test]
fn cursor_and_crosshair_follow_the_state() {
    assert_eq!(cursor_on_enter(GameState::Playing), Some(CursorMode::Locked));
    assert_eq!(cursor_on_enter(GameState::Paused), Some(CursorMode::Free));
    assert_eq!(cursor_on_enter(GameState::GameOver), None);
    assert!(crosshair_and_gun_visible(GameState::Playing));
    assert!(!crosshair_and_gun_visible(GameState::Paused));
    assert!(!crosshair_and_gun_visible(GameState::GameOver));
    assert_eq!(menu_for(GameState::Playing), None);
    assert_eq!(menu_for(GameState::Paused), Some(Menu::Pause));
    assert_eq!(menu_for(GameState::GameOver), Some(Menu::GameOver));
}
