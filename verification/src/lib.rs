//! Client-side connection and play-state lifecycle core for a real-time
//! multiplayer game: session bootstrap on entry into the game state,
//! connection-gated per-tick scheduling, fixed-capacity network-health
//! diagnostics with a debounced overlay toggle, a fail-fast transport
//! error policy, and the centered crosshair overlay's geometry.

use vstd::prelude::*;

mod crosshair;
mod session;
mod state;
mod visualizer;
mod world;

pub use world::GameWorld;
pub use world::InputView;
pub use world::OutputView;
pub use world::TickInput;
pub use world::TickOutput;
pub use world::WorldView;
pub use world::first_error;
pub use world::gate_spec;
pub use world::initial_world;
pub use world::lemma_bootstrap_installs_then_main;
pub use world::lemma_disabled_before_bootstrap;
pub use world::lemma_error_terminates;
pub use world::lemma_gate;
pub use world::lemma_tick_always_samples;
pub use world::lemma_tick_preserves_wf;
pub use world::lemma_toggle_flips_once_while_held;
pub use world::lemma_toggle_release;
pub use world::lemma_run_samples;
pub use world::outer_step;
pub use world::play_queue_step;
pub use world::recorded_samples;
pub use world::run_spec;
pub use world::sample_of;
pub use world::sample_step;
pub use world::sink_step;
pub use world::tick_out_spec;
pub use world::tick_spec;
pub use world::toggle_step;
pub use world::wf_view;
pub use world::bootstrap_step;


pub use crosshair::CrosshairLayout;
pub use crosshair::HalfUnitRect;
pub use crosshair::CROSSHAIR_LINE_WIDTH;
pub use crosshair::CROSSHAIR_SIZE;
pub use crosshair::crosshair_layout;

pub use session::AmbientLightConfig;
pub use session::ClientLobby;
pub use session::ConnectionAddr;
pub use session::Session;
pub use session::new_session;
pub use session::AMBIENT_BRIGHTNESS_MILLI;
pub use state::GameState;
pub use state::PlayState;
pub use visualizer::NetworkSample;
pub use visualizer::VisualizerBuffer;
pub use visualizer::VISUALIZER_CAPACITY;
pub use visualizer::fold_push;
pub use visualizer::just_pressed;
pub use visualizer::lemma_buffer_recent_window;
pub use visualizer::lemma_fold_push_snoc;
pub use visualizer::push_spec;
pub use visualizer::sentinel_sample;
pub use visualizer::toggle_spec;

verus! {

/// Install-time entry point of the lifecycle core. Building it assembles
/// the freshly installed world: play state defaulted to `Disabled`, the
/// empty fixed-capacity diagnostics buffer, the overlay hidden, and no
/// session until the bootstrap runs on entry into `GameState::Game`.
pub struct GamePlugin;

impl GamePlugin {
    pub fn build(&self, addr: ConnectionAddr) -> (w: GameWorld)
        ensures
            w.wf(),
            w@ == initial_world(addr.host@, addr.port),
    {
        GameWorld::new(addr)
    }
}

} // verus!
