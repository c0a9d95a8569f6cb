use client_lifecycle::{
    ConnectionAddr, GamePlugin, GameWorld, NetworkSample, TickInput, VisualizerBuffer,
};

fn sample(tag: u64) -> NetworkSample {
    NetworkSample {
        rtt_micros: tag,
        packet_loss_ppm: 15000,
        bytes_sent_per_sec: 4096,
        bytes_received_per_sec: 8192,
        real: true,
    }
}

fn quiet_input() -> TickInput {
    TickInput {
        outer_request: None,
        toggle_key_down: false,
        transport_connected: false,
        health: None,
        transport_errors: Vec::new(),
    }
}

fn new_world() -> GameWorld {
    GamePlugin.build(ConnectionAddr::new(String::from("example"), 7777))
}

#[test]
fn buffer_keeps_the_200_most_recent_in_order() {
    let mut b = VisualizerBuffer::new();
    for i in 0..205u64 {
        b.add_sample(sample(i));
        assert!(b.len() <= 200);
    }
    assert_eq!(b.len(), 200);
    // the five oldest were evicted first; order of the rest is kept
    for i in 0..200usize {
        assert_eq!(b.get(i), sample(i as u64 + 5));
    }
}

#[test]
fn buffer_below_capacity_keeps_everything() {
    let mut b = VisualizerBuffer::new();
    for i in 0..17u64 {
        b.add_sample(sample(i));
    }
    assert_eq!(b.len(), 17);
    for i in 0..17usize {
        assert_eq!(b.get(i), sample(i as u64));
    }
}

#[test]
fn sentinel_recorded_when_health_is_missing() {
    let mut w = new_world();
    let mut with_health = quiet_input();
    with_health.health = Some(sample(42));
    w.tick(with_health);
    w.tick(quiet_input());
    assert_eq!(w.sample_count(), 2);
    assert_eq!(w.sample_at(0), sample(42));
    let sentinel = w.sample_at(1);
    assert!(!sentinel.real);
    assert_eq!(sentinel.rtt_micros, 0);
    assert_eq!(sentinel, NetworkSample::sentinel());
}

#[test]
fn world_buffer_evicts_oldest_after_capacity() {
    let mut w = new_world();
    for i in 0..203u64 {
        let mut input = quiet_input();
        input.health = Some(sample(i));
        w.tick(input);
    }
    assert_eq!(w.sample_count(), 200);
    assert_eq!(w.sample_at(0), sample(3));
    assert_eq!(w.sample_at(199), sample(202));
}

#[test]
fn holding_the_toggle_key_flips_only_once() {
    let mut w = new_world();
    assert!(!w.show_visualizer());
    for _ in 0..6 {
        let mut input = quiet_input();
        input.toggle_key_down = true;
        w.tick(input);
        assert!(w.show_visualizer());
    }
    // releasing re-arms the edge detector without flipping
    w.tick(quiet_input());
    assert!(w.show_visualizer());
    // a fresh press flips it back
    let mut input = quiet_input();
    input.toggle_key_down = true;
    let out = w.tick(input);
    assert!(!w.show_visualizer());
    assert!(!out.draw_visualizer);
}

#[test]
fn overlay_drawn_only_while_flag_is_set() {
    let mut w = new_world();
    let mut press = quiet_input();
    press.toggle_key_down = true;
    let out = w.tick(press);
    assert!(out.draw_visualizer);
    let mut held = quiet_input();
    held.toggle_key_down = true;
    let out = w.tick(held);
    assert!(out.draw_visualizer);
}
