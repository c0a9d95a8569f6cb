use vstd::prelude::*;

verus! {

/// One sample of session health, in integer units: round-trip time in
/// microseconds, packet loss in parts per million, throughput in bytes
/// per second. `real` is false for the sentinel recorded on ticks where
/// the transport cannot report health (e.g. mid-handshake), which keeps
/// the buffer's tick-to-sample correspondence exact.
#[derive(Clone, Copy, PartialEq, Eq, Structural, Debug)]
pub struct NetworkSample {
    pub rtt_micros: u64,
    pub packet_loss_ppm: u32,
    pub bytes_sent_per_sec: u64,
    pub bytes_received_per_sec: u64,
    pub real: bool,
}

/// The placeholder entry recorded when no health report is available.
pub open spec fn sentinel_sample() -> NetworkSample {
    NetworkSample {
        rtt_micros: 0,
        packet_loss_ppm: 0,
        bytes_sent_per_sec: 0,
        bytes_received_per_sec: 0,
        real: false,
    }
}

impl NetworkSample {
    pub fn sentinel() -> (s: NetworkSample)
        ensures
            s == sentinel_sample(),
    {
        NetworkSample {
            rtt_micros: 0,
            packet_loss_ppm: 0,
            bytes_sent_per_sec: 0,
            bytes_received_per_sec: 0,
            real: false,
        }
    }
}

/// Hard compile-time capacity of the diagnostics history.
pub const VISUALIZER_CAPACITY: usize = 200;

/// What one sampling tick does to the buffered history: append the new
/// sample, evicting the oldest entry once the capacity is reached.
pub open spec fn push_spec(s: Seq<NetworkSample>, x: NetworkSample) -> Seq<NetworkSample> {
    if s.len() < VISUALIZER_CAPACITY {
        s.push(x)
    } else {
        s.drop_first().push(x)
    }
}

/// The history an entire run of sampling ticks leaves behind, starting
/// from an empty buffer; `h` is every sample ever recorded, oldest first.
pub open spec fn fold_push(h: Seq<NetworkSample>) -> Seq<NetworkSample>
    decreases h.len(),
{
    if h.len() == 0 {
        Seq::empty()
    } else {
        push_spec(fold_push(h.drop_last()), h.last())
    }
}

/// Fixed-capacity ring buffer of historical network-health samples: an
/// index-addressed circular array with a write cursor, so an append costs
/// no reallocation. Installed once, process-wide, independent of the
/// session's lifecycle.
pub struct VisualizerBuffer {
    data: Vec<NetworkSample>,
    next: usize,
}

impl VisualizerBuffer {
    /// The buffered samples, oldest first.
    pub closed spec fn samples(&self) -> Seq<NetworkSample> {
        if self.data@.len() < VISUALIZER_CAPACITY {
            self.data@
        } else {
            self.data@.subrange(self.next as int, VISUALIZER_CAPACITY as int)
                + self.data@.subrange(0, self.next as int)
        }
    }

    /// The cursor always points at the slot the next sample goes to: the
    /// end while the buffer is still filling, the oldest slot once full.
    pub closed spec fn wf(&self) -> bool {
        &&& self.data@.len() <= VISUALIZER_CAPACITY
        &&& self.data@.len() < VISUALIZER_CAPACITY ==> self.next == self.data@.len()
        &&& self.data@.len() == VISUALIZER_CAPACITY ==> self.next < VISUALIZER_CAPACITY
    }

    pub fn new() -> (b: VisualizerBuffer)
        ensures
            b.wf(),
            b.samples() == Seq::<NetworkSample>::empty(),
    {
        VisualizerBuffer { data: Vec::new(), next: 0 }
    }

    pub fn len(&self) -> (n: usize)
        requires
            self.wf(),
        ensures
            n == self.samples().len(),
    {
        self.data.len()
    }

    /// Appends one sample, evicting the oldest entry when at capacity.
    pub fn add_sample(&mut self, s: NetworkSample)
        requires
            old(self).wf(),
        ensures
            final(self).wf(),
            final(self).samples() == push_spec(old(self).samples(), s),
    {
        if self.data.len() < VISUALIZER_CAPACITY {
            self.data.push(s);
            if self.next < VISUALIZER_CAPACITY - 1 {
                self.next = self.next + 1;
            } else {
                self.next = 0;
            }
            assert(self.samples() =~= push_spec(old(self).samples(), s));
        } else {
            let i = self.next;
            self.data[i] = s;
            if self.next < VISUALIZER_CAPACITY - 1 {
                self.next = self.next + 1;
            } else {
                self.next = 0;
            }
            assert(self.samples() =~= push_spec(old(self).samples(), s));
        }
    }

    /// The `i`-th buffered sample, oldest first.
    pub fn get(&self, i: usize) -> (s: NetworkSample)
        requires
            self.wf(),
            i < self.samples().len(),
        ensures
            s == self.samples()[i as int],
    {
        if self.data.len() < VISUALIZER_CAPACITY {
            self.data[i]
        } else {
            let wrapped = if i < VISUALIZER_CAPACITY - self.next {
                self.next + i
            } else {
                i - (VISUALIZER_CAPACITY - self.next)
            };
            self.data[wrapped]
        }
    }
}

/// Law: the buffer never exceeds its capacity, and after any run of
/// sampling ticks it holds exactly the most recent samples, in arrival
/// order, the oldest evicted first.
pub proof fn lemma_buffer_recent_window(h: Seq<NetworkSample>)
    ensures
        fold_push(h).len() == if h.len() <= VISUALIZER_CAPACITY {
            h.len() as int
        } else {
            VISUALIZER_CAPACITY as int
        },
        fold_push(h) == h.subrange(
            if h.len() <= VISUALIZER_CAPACITY {
                0int
            } else {
                h.len() - VISUALIZER_CAPACITY
            },
            h.len() as int,
        ),
    decreases h.len(),
{
    if h.len() == 0 {
        assert(fold_push(h) =~= h.subrange(0, 0));
    } else {
        let h0 = h.drop_last();
        lemma_buffer_recent_window(h0);
        if h0.len() < VISUALIZER_CAPACITY {
            assert(fold_push(h0) =~= h0);
            assert(fold_push(h) =~= h.subrange(0, h.len() as int));
        } else {
            assert(fold_push(h) =~= h.subrange(
                h.len() - VISUALIZER_CAPACITY,
                h.len() as int,
            ));
        }
    }
}

/// One more recorded sample extends the folded history by one append.
pub proof fn lemma_fold_push_snoc(h: Seq<NetworkSample>, x: NetworkSample)
    ensures
        fold_push(h.push(x)) == push_spec(fold_push(h), x),
{
    assert(h.push(x).drop_last() =~= h);
    assert(h.push(x).last() == x);
}

/// Debounced "just pressed": the toggle key is down this tick and was not
/// down on the previous one.
pub open spec fn just_pressed(prev_down: bool, down: bool) -> bool {
    down && !prev_down
}

/// What one tick does to the overlay's display flag: flip it exactly on a
/// fresh press, leave it alone while the key is held or up.
pub open spec fn toggle_spec(show: bool, prev_down: bool, down: bool) -> bool {
    if just_pressed(prev_down, down) {
        !show
    } else {
        show
    }
}

} // verus!
