use vstd::prelude::*;

use crate::session::AmbientLightConfig;
use crate::session::ClientLobby;
use crate::session::ConnectionAddr;
use crate::session::Session;
use crate::session::new_session;
use crate::session::AMBIENT_BRIGHTNESS_MILLI;
use crate::state::GameState;
use crate::state::PlayState;
use crate::visualizer::NetworkSample;
use crate::visualizer::VisualizerBuffer;
use crate::visualizer::VISUALIZER_CAPACITY;
use crate::visualizer::fold_push;
use crate::visualizer::lemma_fold_push_snoc;
use crate::visualizer::push_spec;
use crate::visualizer::sentinel_sample;
use crate::visualizer::toggle_spec;

verus! {

/// Spec-level image of the whole lifecycle state, over mathematical
/// values only; every contract of the tick speaks in terms of it.
#[verifier::ext_equal]
pub ghost struct WorldView {
    /// Outer lifecycle state.
    pub outer: GameState,
    /// Current play state.
    pub play: PlayState,
    /// Pending play-state transition request, consumed once per tick.
    pub play_next: Option<PlayState>,
    /// Configured endpoint: host name and port.
    pub host: Seq<char>,
    pub port: u16,
    /// The installed session singleton, as the endpoint it was made for.
    pub session: Option<(Seq<char>, u16)>,
    /// The installed ambient-light singleton, brightness in thousandths.
    pub ambient_milli: Option<u32>,
    /// The installed player roster, as remote/local identifier pairs.
    pub lobby: Option<Seq<(u64, u64)>>,
    /// Buffered network-health history, oldest first.
    pub samples: Seq<NetworkSample>,
    /// Whether the diagnostics overlay is currently shown.
    pub show_visualizer: bool,
    /// Whether the toggle key was down on the previous tick.
    pub key_down_prev: bool,
    /// The fatal transport error this client terminated on, if any.
    pub terminated: Option<Seq<char>>,
}

/// Spec-level image of one tick's inputs.
#[verifier::ext_equal]
pub ghost struct InputView {
    pub outer_request: Option<GameState>,
    pub toggle_key_down: bool,
    pub transport_connected: bool,
    pub health: Option<NetworkSample>,
    pub transport_errors: Seq<Seq<char>>,
}

/// Spec-level image of what one tick tells the frame loop to do.
#[verifier::ext_equal]
pub ghost struct OutputView {
    pub run_gated: bool,
    pub draw_visualizer: bool,
    pub draw_crosshair: bool,
    pub terminate: Option<Seq<char>>,
}

/// Everything the surrounding frame loop hands the core on one tick: an
/// optional outer-state transition request, the raw state of the toggle
/// key, the transport's connectivity report, its health report (absent
/// mid-handshake), and the transport errors drained since the last tick,
/// in arrival order.
pub struct TickInput {
    pub outer_request: Option<GameState>,
    pub toggle_key_down: bool,
    pub transport_connected: bool,
    pub health: Option<NetworkSample>,
    pub transport_errors: Vec<String>,
}

impl View for TickInput {
    type V = InputView;

    open spec fn view(&self) -> InputView {
        InputView {
            outer_request: self.outer_request,
            toggle_key_down: self.toggle_key_down,
            transport_connected: self.transport_connected,
            health: self.health,
            transport_errors: self.transport_errors@.map_values(|e: String| e@),
        }
    }
}

/// What one tick decided: whether the gated gameplay-sync systems may
/// run, which overlays to draw, and the fatal error to terminate on, if
/// one was drained.
pub struct TickOutput {
    pub run_gated: bool,
    pub draw_visualizer: bool,
    pub draw_crosshair: bool,
    pub terminate: Option<String>,
}

impl View for TickOutput {
    type V = OutputView;

    open spec fn view(&self) -> OutputView {
        OutputView {
            run_gated: self.run_gated,
            draw_visualizer: self.draw_visualizer,
            draw_crosshair: self.draw_crosshair,
            terminate: match self.terminate {
                Some(ref m) => Some(m@),
                None => None,
            },
        }
    }
}

/// The connection gate: gameplay-sync and look-input systems may run on a
/// tick exactly when the outer state is `Game` and the transport reports
/// an established connection.
pub open spec fn gate_spec(outer: GameState, connected: bool) -> bool {
    outer == GameState::Game && connected
}

/// The sample a tick records: the transport's report when there is one,
/// the sentinel otherwise, so sampling never skips a tick.
pub open spec fn sample_of(health: Option<NetworkSample>) -> NetworkSample {
    match health {
        Some(s) => s,
        None => sentinel_sample(),
    }
}

/// The error the fail-fast sink escalates: the first drained transport
/// error, in arrival order.
pub open spec fn first_error(errs: Seq<Seq<char>>) -> Option<Seq<char>> {
    if errs.len() == 0 {
        None
    } else {
        Some(errs[0])
    }
}

/// The lifecycle bootstrap: create the session for the configured
/// endpoint, install the session, ambient-light and lobby singletons,
/// and only after every install request the `Main` play state.
pub open spec fn bootstrap_step(w: WorldView) -> WorldView {
    WorldView {
        outer: GameState::Game,
        session: Some((w.host, w.port)),
        ambient_milli: Some(AMBIENT_BRIGHTNESS_MILLI),
        lobby: Some(Seq::<(u64, u64)>::empty()),
        play_next: Some(PlayState::Main),
        ..w
    }
}

/// The on-enter hook table for outer-state transitions: entering `Game`
/// runs the bootstrap, edge-triggered (a request for the state already
/// held does nothing); leaving `Game` tears the session-scoped singletons
/// down and resets the play state to `Disabled`.
pub open spec fn outer_step(w: WorldView, request: Option<GameState>) -> WorldView {
    match request {
        Some(next) => if next == w.outer {
            w
        } else if next == GameState::Game {
            bootstrap_step(w)
        } else {
            WorldView {
                outer: next,
                play: PlayState::Disabled,
                play_next: None,
                session: None,
                lobby: None,
                ..w
            }
        },
        None => w,
    }
}

/// The play-state transition queue, consumed once per tick by its single
/// owner; readers never mutate the play state directly.
pub open spec fn play_queue_step(w: WorldView) -> WorldView {
    match w.play_next {
        Some(p) => WorldView { play: p, play_next: None, ..w },
        None => w,
    }
}

/// Diagnostics sampling: every tick, gated or not, appends exactly one
/// sample to the history.
pub open spec fn sample_step(w: WorldView, health: Option<NetworkSample>) -> WorldView {
    WorldView { samples: push_spec(w.samples, sample_of(health)), ..w }
}

/// The debounced overlay toggle: flip on a fresh press, remember the
/// key's state for the next tick's edge detection.
pub open spec fn toggle_step(w: WorldView, down: bool) -> WorldView {
    WorldView {
        show_visualizer: toggle_spec(w.show_visualizer, w.key_down_prev, down),
        key_down_prev: down,
        ..w
    }
}

/// The fail-fast error sink: the first drained transport error becomes
/// the unrecoverable termination message; with none, nothing changes.
pub open spec fn sink_step(w: WorldView, errs: Seq<Seq<char>>) -> WorldView {
    match first_error(errs) {
        Some(m) => WorldView { terminated: Some(m), ..w },
        None => w,
    }
}

/// One whole tick of the lifecycle core, in order: outer transition and
/// its on-enter bootstrap, the play-state queue, diagnostics sampling,
/// the overlay toggle, and the fail-fast error sink.
pub open spec fn tick_spec(w: WorldView, i: InputView) -> WorldView {
    sink_step(
        toggle_step(
            sample_step(play_queue_step(outer_step(w, i.outer_request)), i.health),
            i.toggle_key_down,
        ),
        i.transport_errors,
    )
}

/// What the tick tells the frame loop: a drained transport error closes
/// the connection gate and withholds both overlays on its own tick —
/// termination comes before the tick's remaining systems — and
/// otherwise the connection gate combines the outer state with the
/// transport's report, the diagnostics overlay follows the toggled
/// display flag, and the crosshair follows the play state reached this
/// tick.
pub open spec fn tick_out_spec(w: WorldView, i: InputView) -> OutputView {
    let w2 = play_queue_step(outer_step(w, i.outer_request));
    let fatal = i.transport_errors.len() > 0;
    OutputView {
        run_gated: !fatal && gate_spec(w2.outer, i.transport_connected),
        draw_visualizer: !fatal && toggle_spec(
            w.show_visualizer,
            w.key_down_prev,
            i.toggle_key_down,
        ),
        draw_crosshair: !fatal && w2.play == PlayState::Main,
        terminate: first_error(i.transport_errors),
    }
}

/// A world several ticks later: the ticks' inputs applied in order.
pub open spec fn run_spec(w: WorldView, inputs: Seq<InputView>) -> WorldView
    decreases inputs.len(),
{
    if inputs.len() == 0 {
        w
    } else {
        run_spec(tick_spec(w, inputs[0]), inputs.drop_first())
    }
}

/// The freshly installed world: play state `Disabled`, no session, lobby
/// or ambient light until the bootstrap runs, an empty diagnostics
/// history, the overlay hidden and its key unpressed.
pub open spec fn initial_world(host: Seq<char>, port: u16) -> WorldView {
    WorldView {
        outer: GameState::Menu,
        play: PlayState::Disabled,
        play_next: None,
        host: host,
        port: port,
        session: None,
        ambient_milli: None,
        lobby: None,
        samples: Seq::empty(),
        show_visualizer: false,
        key_down_prev: false,
        terminated: None,
    }
}

/// Well-formedness of a world: the history respects its capacity, and the
/// `Main` play state — reached or merely requested — is never observable
/// without the session, ambient-light and lobby singletons installed.
pub open spec fn wf_view(w: WorldView) -> bool {
    &&& w.samples.len() <= VISUALIZER_CAPACITY
    &&& (w.play == PlayState::Main || w.play_next == Some(PlayState::Main)) ==> {
        &&& w.session is Some
        &&& w.ambient_milli is Some
        &&& w.lobby is Some
    }
}

/// The lifecycle core's entire state, owned by the single-threaded frame
/// loop: exactly one writer per tick and no mid-tick preemption.
pub struct GameWorld {
    outer: GameState,
    play: PlayState,
    play_next: Option<PlayState>,
    addr: ConnectionAddr,
    session: Option<Session>,
    ambient: Option<AmbientLightConfig>,
    lobby: Option<ClientLobby>,
    visualizer: VisualizerBuffer,
    show_visualizer: bool,
    key_down_prev: bool,
    terminated: Option<String>,
}

impl View for GameWorld {
    type V = WorldView;

    closed spec fn view(&self) -> WorldView {
        WorldView {
            outer: self.outer,
            play: self.play,
            play_next: self.play_next,
            host: self.addr.host@,
            port: self.addr.port,
            session: match self.session {
                Some(ref s) => Some((s.addr.host@, s.addr.port)),
                None => None,
            },
            ambient_milli: match self.ambient {
                Some(ref a) => Some(a.brightness_milli),
                None => None,
            },
            lobby: match self.lobby {
                Some(ref l) => Some(l.players@),
                None => None,
            },
            samples: self.visualizer.samples(),
            show_visualizer: self.show_visualizer,
            key_down_prev: self.key_down_prev,
            terminated: match self.terminated {
                Some(ref m) => Some(m@),
                None => None,
            },
        }
    }
}

impl GameWorld {
    /// The ring buffer's own invariant, together with the world's.
    pub closed spec fn wf(&self) -> bool {
        &&& self.visualizer.wf()
        &&& wf_view(self@)
    }

    /// A freshly installed world for the given endpoint.
    pub fn new(addr: ConnectionAddr) -> (w: GameWorld)
        ensures
            w.wf(),
            w@ == initial_world(addr.host@, addr.port),
    {
        let w = GameWorld {
            outer: GameState::Menu,
            play: PlayState::default(),
            play_next: None,
            addr,
            session: None,
            ambient: None,
            lobby: None,
            visualizer: VisualizerBuffer::new(),
            show_visualizer: false,
            key_down_prev: false,
            terminated: None,
        };
        proof {
            assert(w@ =~= initial_world(w.addr.host@, w.addr.port));
        }
        w
    }

    /// The lifecycle bootstrap, run exactly once per entry into `Game`:
    /// create the session from the configured endpoint, install the
    /// session, ambient-light and lobby singletons, and only after every
    /// install request the `Main` play state, so no gated system can
    /// observe `Main` with a resource absent.
    fn setup(&mut self)
        ensures
            final(self)@ == bootstrap_step(old(self)@),
            final(self).visualizer == old(self).visualizer,
    {
        let session = new_session(&self.addr);
        self.session = Some(session);
        self.ambient = Some(AmbientLightConfig::bootstrap_default());
        self.lobby = Some(ClientLobby::default());
        self.play_next = Some(PlayState::Main);
        self.outer = GameState::Game;
        proof {
            assert(self@ =~= bootstrap_step(old(self)@));
        }
    }

    pub fn play_state(&self) -> (p: PlayState)
        ensures
            p == self@.play,
    {
        self.play
    }

    pub fn outer_state(&self) -> (o: GameState)
        ensures
            o == self@.outer,
    {
        self.outer
    }

    pub fn show_visualizer(&self) -> (b: bool)
        ensures
            b == self@.show_visualizer,
    {
        self.show_visualizer
    }

    pub fn has_session(&self) -> (b: bool)
        ensures
            b == (self@.session is Some),
    {
        match self.session {
            Some(_) => true,
            None => false,
        }
    }

    /// The brightness of the installed ambient-light singleton, in
    /// thousandths, if the bootstrap has installed one.
    pub fn ambient_brightness_milli(&self) -> (r: Option<u32>)
        ensures
            r == self@.ambient_milli,
    {
        match self.ambient {
            Some(ref a) => Some(a.brightness_milli),
            None => None,
        }
    }

    /// How many players the installed roster holds, if one is installed.
    pub fn lobby_player_count(&self) -> (r: Option<usize>)
        ensures
            match self@.lobby {
                Some(l) => r == Some(l.len() as usize),
                None => r is None,
            },
    {
        match self.lobby {
            Some(ref l) => Some(l.player_count()),
            None => None,
        }
    }

    pub fn sample_count(&self) -> (n: usize)
        requires
            self.wf(),
        ensures
            n == self@.samples.len(),
    {
        self.visualizer.len()
    }

    /// The `i`-th buffered health sample, oldest first.
    pub fn sample_at(&self, i: usize) -> (s: NetworkSample)
        requires
            self.wf(),
            i < self@.samples.len(),
        ensures
            s == self@.samples[i as int],
    {
        self.visualizer.get(i)
    }

    /// The fatal transport error this world terminated on, if any.
    pub fn terminated_message(&self) -> (r: Option<String>)
        ensures
            match self@.terminated {
                Some(m) => r is Some && r->Some_0@ == m,
                None => r is None,
            },
    {
        match self.terminated {
            Some(ref m) => Some(m.clone()),
            None => None,
        }
    }

    /// One tick of the frame loop. In order: the outer transition request
    /// with its on-enter bootstrap, the play-state queue, diagnostics
    /// sampling (every tick, gated or not), the debounced overlay toggle,
    /// the fail-fast error sink, and the connection gate's say on this tick's
    /// gameplay-sync systems. A terminated world ticks no further: the
    /// fail-fast abort is unconditional and immediate.
    pub fn tick(&mut self, input: TickInput) -> (out: TickOutput)
        requires
            old(self).wf(),
            old(self)@.terminated is None,
        ensures
            final(self).wf(),
            final(self)@ == tick_spec(old(self)@, input@),
            out@ == tick_out_spec(old(self)@, input@),
    {
        let ghost w0 = self@;
        let ghost iv = input@;

        // outer-state transition request and its on-enter hooks
        match input.outer_request {
            Some(next) => {
                if next != self.outer {
                    if next == GameState::Game {
                        self.setup();
                    } else {
                        self.outer = next;
                        self.play = PlayState::Disabled;
                        self.play_next = None;
                        self.session = None;
                        self.lobby = None;
                    }
                }
            },
            None => {},
        }
        proof {
            assert(self@ =~= outer_step(w0, iv.outer_request));
        }
        let ghost w1 = self@;

        // the play-state transition queue, consumed by its single owner
        match self.play_next {
            Some(p) => {
                self.play = p;
                self.play_next = None;
            },
            None => {},
        }
        proof {
            assert(self@ =~= play_queue_step(w1));
        }
        let ghost w2 = self@;

        // diagnostics sampling, every tick, sentinel when no report came
        let s = match input.health {
            Some(s) => s,
            None => NetworkSample::sentinel(),
        };
        self.visualizer.add_sample(s);
        proof {
            assert(self@ =~= sample_step(w2, iv.health));
        }
        let ghost w3 = self@;

        // debounced overlay toggle
        let just = input.toggle_key_down && !self.key_down_prev;
        if just {
            self.show_visualizer = !self.show_visualizer;
        }
        self.key_down_prev = input.toggle_key_down;
        proof {
            assert(self@ =~= toggle_step(w3, iv.toggle_key_down));
        }
        let ghost w4 = self@;

        // fail-fast error sink: the first drained error is fatal
        let mut errs = input.transport_errors;
        let fatal = errs.len() > 0;
        let mut terminate: Option<String> = None;
        if fatal {
            let m = errs.remove(0);
            self.terminated = Some(m.clone());
            terminate = Some(m);
        }
        proof {
            assert(self@ =~= sink_step(w4, iv.transport_errors));
        }

        let run_gated = !fatal && self.outer == GameState::Game && input.transport_connected;
        let draw_visualizer = !fatal && self.show_visualizer;
        let draw_crosshair = !fatal && self.play == PlayState::Main;
        let out = TickOutput { run_gated, draw_visualizer, draw_crosshair, terminate };
        proof {
            assert(self@ =~= tick_spec(w0, iv));
            assert(out@ =~= tick_out_spec(w0, iv));
            lemma_tick_preserves_wf(w0, iv);
        }
        out
    }
}

/// Law: the connection gate is false whenever the outer state is not
/// `Game`, regardless of what the transport reports, and true exactly
/// when the outer state is `Game` and the transport reports connected.
pub proof fn lemma_gate(outer: GameState, connected: bool)
    ensures
        outer != GameState::Game ==> !gate_spec(outer, connected),
        gate_spec(outer, connected) <==> (outer == GameState::Game && connected),
{
}

/// Law: well-formedness is preserved by every tick; in particular a world
/// whose play state is `Main` always carries the installed session,
/// ambient-light and lobby singletons, so no gated system observes `Main`
/// without them, and the diagnostics history never exceeds its capacity.
pub proof fn lemma_tick_preserves_wf(w: WorldView, i: InputView)
    requires
        wf_view(w),
    ensures
        wf_view(tick_spec(w, i)),
{
}

/// Law: before the lifecycle bootstrap has run — that is, along any
/// sequence of ticks on which entry into `GameState::Game` is never
/// requested — the play state stays `Disabled`, and nothing is queued to
/// change it.
pub proof fn lemma_disabled_before_bootstrap(w: WorldView, inputs: Seq<InputView>)
    requires
        w.play == PlayState::Disabled,
        w.play_next is None,
        forall|k: int|
            0 <= k < inputs.len() ==> (#[trigger] inputs[k].outer_request) != Some(
                GameState::Game,
            ),
    ensures
        run_spec(w, inputs).play == PlayState::Disabled,
        run_spec(w, inputs).play_next is None,
    decreases inputs.len(),
{
    if inputs.len() > 0 {
        let w1 = tick_spec(w, inputs[0]);
        assert(w1.play == PlayState::Disabled && w1.play_next is None);
        lemma_disabled_before_bootstrap(w1, inputs.drop_first());
    }
}

/// Law: the bootstrap, once triggered by a tick that enters the outer
/// `Game` state, installs the session made for the configured endpoint, the
/// ambient-light configuration and the freshly emptied lobby, and the
/// very same tick transitions the play state to `Main` — installation
/// always succeeds here, and the transition is never observable without
/// every install in place.
pub proof fn lemma_bootstrap_installs_then_main(w: WorldView, i: InputView)
    requires
        w.outer != GameState::Game,
        i.outer_request == Some(GameState::Game),
    ensures
        tick_spec(w, i).play == PlayState::Main,
        tick_spec(w, i).session == Some((w.host, w.port)),
        tick_spec(w, i).ambient_milli == Some(AMBIENT_BRIGHTNESS_MILLI),
        tick_spec(w, i).lobby == Some(Seq::<(u64, u64)>::empty()),
{
}

/// Law: every tick appends exactly one entry to the diagnostics history —
/// the transport's health report, or the sentinel when none came — gated
/// or not, connected or not, whatever else the tick does.
pub proof fn lemma_tick_always_samples(w: WorldView, i: InputView)
    ensures
        tick_spec(w, i).samples == push_spec(w.samples, sample_of(i.health)),
{
}

/// Law: any tick whose drained transport-error queue is non-empty records
/// the first error, in arrival order, as the termination message, and on
/// that same tick the connection gate stays closed and both overlays
/// are withheld: termination comes before the tick's remaining systems.
pub proof fn lemma_error_terminates(w: WorldView, i: InputView)
    requires
        i.transport_errors.len() > 0,
    ensures
        tick_spec(w, i).terminated == Some(i.transport_errors[0]),
        !tick_out_spec(w, i).run_gated,
        !tick_out_spec(w, i).draw_visualizer,
        !tick_out_spec(w, i).draw_crosshair,
        tick_out_spec(w, i).terminate == Some(i.transport_errors[0]),
{
}

/// The samples a run of ticks records, in arrival order: the transport's
/// report where one came, the sentinel elsewhere.
pub open spec fn recorded_samples(inputs: Seq<InputView>) -> Seq<NetworkSample> {
    inputs.map_values(|i: InputView| sample_of(i.health))
}

/// Helper for the history law, generalized over the samples already
/// folded into the buffer.
proof fn lemma_run_samples_fold(w: WorldView, inputs: Seq<InputView>, h: Seq<NetworkSample>)
    requires
        w.samples == fold_push(h),
    ensures
        run_spec(w, inputs).samples == fold_push(h + recorded_samples(inputs)),
    decreases inputs.len(),
{
    if inputs.len() == 0 {
        assert(h + recorded_samples(inputs) =~= h);
    } else {
        let s0 = sample_of(inputs[0].health);
        let w1 = tick_spec(w, inputs[0]);
        lemma_fold_push_snoc(h, s0);
        assert(w1.samples == fold_push(h.push(s0)));
        lemma_run_samples_fold(w1, inputs.drop_first(), h.push(s0));
        assert(h.push(s0) + recorded_samples(inputs.drop_first()) =~= h + recorded_samples(
            inputs,
        ));
    }
}

/// Law: along any run of ticks from a world whose history is empty, the
/// buffered history is exactly the recorded samples folded through the
/// capacity bound — with the window law, after more than 200 sampling
/// ticks that is precisely the 200 most recent samples, in arrival
/// order, the oldest evicted first.
pub proof fn lemma_run_samples(w: WorldView, inputs: Seq<InputView>)
    requires
        w.samples == Seq::<NetworkSample>::empty(),
    ensures
        run_spec(w, inputs).samples == fold_push(recorded_samples(inputs)),
{
    assert(w.samples == fold_push(Seq::<NetworkSample>::empty()));
    lemma_run_samples_fold(w, inputs, Seq::<NetworkSample>::empty());
    assert(Seq::<NetworkSample>::empty() + recorded_samples(inputs) =~= recorded_samples(
        inputs,
    ));
}

/// Helper for the toggle law: while the key stays held down after a tick
/// that already saw it down, the display flag never moves again.
proof fn lemma_toggle_stable_while_held(w: WorldView, inputs: Seq<InputView>)
    requires
        w.key_down_prev,
        forall|k: int| 0 <= k < inputs.len() ==> #[trigger] inputs[k].toggle_key_down,
    ensures
        run_spec(w, inputs).show_visualizer == w.show_visualizer,
        run_spec(w, inputs).key_down_prev,
    decreases inputs.len(),
{
    if inputs.len() > 0 {
        let w1 = tick_spec(w, inputs[0]);
        assert(w1.show_visualizer == w.show_visualizer && w1.key_down_prev);
        lemma_toggle_stable_while_held(w1, inputs.drop_first());
    }
}

/// Law: pressing the toggle key and holding it across any number of
/// consecutive ticks flips the display flag exactly once — it flips on
/// the first tick that sees the key down and stays put for as long as the
/// key is not released.
pub proof fn lemma_toggle_flips_once_while_held(w: WorldView, inputs: Seq<InputView>)
    requires
        inputs.len() >= 1,
        !w.key_down_prev,
        forall|k: int| 0 <= k < inputs.len() ==> #[trigger] inputs[k].toggle_key_down,
    ensures
        run_spec(w, inputs).show_visualizer == !w.show_visualizer,
        run_spec(w, inputs).key_down_prev,
{
    let w1 = tick_spec(w, inputs[0]);
    assert(w1.show_visualizer == !w.show_visualizer && w1.key_down_prev);
    lemma_toggle_stable_while_held(w1, inputs.drop_first());
}

/// Law: a tick that sees the toggle key up never changes the display flag
/// and re-arms the edge detector, so a release followed by a fresh press
/// flips the flag back.
pub proof fn lemma_toggle_release(w: WorldView, i: InputView)
    requires
        !i.toggle_key_down,
    ensures
        tick_spec(w, i).show_visualizer == w.show_visualizer,
        !tick_spec(w, i).key_down_prev,
{
}

} // verus!
