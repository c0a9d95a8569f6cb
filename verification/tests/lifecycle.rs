use client_lifecycle::{ConnectionAddr, GamePlugin, GameState, GameWorld, PlayState, TickInput};

fn quiet_input() -> TickInput {
    TickInput {
        outer_request: None,
        toggle_key_down: false,
        transport_connected: false,
        health: None,
        transport_errors: Vec::new(),
    }
}

fn new_world() -> GameWorld {
    GamePlugin.build(ConnectionAddr::new(String::from("example"), 7777))
}

#[test]
fn play_state_defaults_to_disabled() {
    assert_eq!(PlayState::default(), PlayState::Disabled);
    let w = new_world();
    assert_eq!(w.play_state(), PlayState::Disabled);
    assert_eq!(w.outer_state(), GameState::Menu);
    assert!(!w.has_session());
    assert_eq!(w.ambient_brightness_milli(), None);
    assert_eq!(w.lobby_player_count(), None);
    assert_eq!(w.sample_count(), 0);
}

#[test]
fn disabled_before_bootstrap_across_ticks() {
    let mut w = new_world();
    for _ in 0..25 {
        let out = w.tick(quiet_input());
        assert_eq!(w.play_state(), PlayState::Disabled);
        assert!(!out.run_gated);
        assert!(!out.draw_crosshair);
    }
    // a request that never names Game changes nothing about the play state
    let mut input = quiet_input();
    input.outer_request = Some(GameState::Menu);
    w.tick(input);
    assert_eq!(w.play_state(), PlayState::Disabled);
}

#[test]
fn bootstrap_scenario_enters_main_with_installs() {
    let mut w = new_world();
    let mut input = quiet_input();
    input.outer_request = Some(GameState::Game);
    let out = w.tick(input);
    assert_eq!(w.outer_state(), GameState::Game);
    assert_eq!(w.play_state(), PlayState::Main);
    assert!(w.has_session());
    assert_eq!(w.ambient_brightness_milli(), Some(1060));
    assert_eq!(w.lobby_player_count(), Some(0));
    // the entering tick itself is not yet connected, so it stays gated off
    assert!(!out.run_gated);
    // once in Main the crosshair is drawn on the next quiet tick
    let out2 = w.tick(quiet_input());
    assert!(out2.draw_crosshair);
}

#[test]
fn reentering_game_is_edge_triggered() {
    let mut w = new_world();
    let mut enter = quiet_input();
    enter.outer_request = Some(GameState::Game);
    w.tick(enter);
    assert_eq!(w.play_state(), PlayState::Main);
    // a request for the state already held does not re-run the bootstrap
    let mut again = quiet_input();
    again.outer_request = Some(GameState::Game);
    w.tick(again);
    assert_eq!(w.play_state(), PlayState::Main);
    assert!(w.has_session());
}

#[test]
fn leaving_game_resets_play_state_and_session() {
    let mut w = new_world();
    let mut enter = quiet_input();
    enter.outer_request = Some(GameState::Game);
    w.tick(enter);
    assert!(w.has_session());
    let mut leave = quiet_input();
    leave.outer_request = Some(GameState::Menu);
    w.tick(leave);
    assert_eq!(w.outer_state(), GameState::Menu);
    assert_eq!(w.play_state(), PlayState::Disabled);
    assert!(!w.has_session());
    assert_eq!(w.lobby_player_count(), None);
}

#[test]
fn gate_opens_only_in_game_and_connected() {
    let mut w = new_world();
    // not in Game: connected transport alone opens nothing
    let mut input = quiet_input();
    input.transport_connected = true;
    let out = w.tick(input);
    assert!(!out.run_gated);
    // enter Game, still disconnected: gate stays closed
    let mut enter = quiet_input();
    enter.outer_request = Some(GameState::Game);
    let out = w.tick(enter);
    assert!(!out.run_gated);
    // in Game and connected: gate opens
    let mut input = quiet_input();
    input.transport_connected = true;
    let out = w.tick(input);
    assert!(out.run_gated);
}

#[test]
fn disconnected_ticks_never_gate_but_still_sample() {
    let mut w = new_world();
    let mut enter = quiet_input();
    enter.outer_request = Some(GameState::Game);
    w.tick(enter);
    let before = w.sample_count();
    let mut gated_runs = 0;
    for _ in 0..10 {
        let out = w.tick(quiet_input());
        if out.run_gated {
            gated_runs += 1;
        }
    }
    assert_eq!(gated_runs, 0);
    assert_eq!(w.sample_count(), before + 10);
}

#[test]
fn transport_error_terminates_before_remaining_systems() {
    let mut w = new_world();
    let mut enter = quiet_input();
    enter.outer_request = Some(GameState::Game);
    w.tick(enter);
    // connected, so only the injected error can keep the connection gate closed
    let mut input = quiet_input();
    input.transport_connected = true;
    input.transport_errors = vec![
        String::from("forged packet rejected"),
        String::from("later error"),
    ];
    let out = w.tick(input);
    assert!(!out.run_gated);
    assert!(!out.draw_visualizer);
    assert!(!out.draw_crosshair);
    assert_eq!(out.terminate, Some(String::from("forged packet rejected")));
    assert_eq!(
        w.terminated_message(),
        Some(String::from("forged packet rejected"))
    );
}

#[test]
fn reserved_state_variant_is_representable() {
    // the status-bar mode exists but nothing in this core enters it
    let reserved = PlayState::State;
    assert_ne!(reserved, PlayState::Main);
    assert_ne!(reserved, PlayState::Disabled);
}

#[test]
fn error_sink_runs_even_outside_game() {
    let mut w = new_world();
    let mut input = quiet_input();
    input.transport_errors = vec![String::from("decode failure")];
    let out = w.tick(input);
    assert_eq!(out.terminate, Some(String::from("decode failure")));
    assert_eq!(w.terminated_message(), Some(String::from("decode failure")));
}
