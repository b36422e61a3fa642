//! The output-routing layer: descriptors for candidate output targets,
//! optional backend providers, and the orchestrator that owns exactly one
//! active (descriptor, sink) route at a time.

use vstd::prelude::*;

verus! {

/// Identity of a physical or virtual device output port, captured at
/// enumeration time. Two ports are the same output iff their names agree.
#[derive(Debug, Clone)]
pub struct MidiPortInfo {
    pub name: String,
}

impl MidiPortInfo {
    /// The identity the port carries, as the contracts speak of it.
    pub open spec fn matches(self, other: MidiPortInfo) -> bool {
        self.name@ == other.name@
    }
}

impl PartialEq for MidiPortInfo {
    fn eq(&self, other: &Self) -> bool {
        self.name == other.name
    }
}

impl vstd::std_specs::cmp::PartialEqSpecImpl for MidiPortInfo {
    open spec fn obeys_eq_spec() -> bool {
        true
    }

    open spec fn eq_spec(&self, other: &Self) -> bool {
        self.name@ == other.name@
    }
}

/// An inert identifier for a candidate output target, produced by
/// enumeration and consumed by `connect`.
#[derive(Debug, Clone)]
pub enum OutputDescriptor {
    /// In-process software instrument, with an optional sound-bank path;
    /// with `None` the orchestrator falls back to the provider's default bank.
    Synth(Option<String>),
    /// OS-level device output, identified by a port snapshot.
    MidiOut(MidiPortInfo),
    /// The always-available fallback that discards everything.
    DummyOutput,
}

impl OutputDescriptor {
    /// Descriptor equality: same variant, same payload (paths and port names
    /// compared by content).
    pub open spec fn matches(self, other: OutputDescriptor) -> bool {
        match (self, other) {
            (OutputDescriptor::Synth(a), OutputDescriptor::Synth(b)) => match (a, b) {
                (Some(x), Some(y)) => x@ == y@,
                (None, None) => true,
                _ => false,
            },
            (OutputDescriptor::MidiOut(a), OutputDescriptor::MidiOut(b)) => a.matches(b),
            (OutputDescriptor::DummyOutput, OutputDescriptor::DummyOutput) => true,
            _ => false,
        }
    }
}

impl PartialEq for OutputDescriptor {
    fn eq(&self, other: &Self) -> bool {
        match (self, other) {
            (OutputDescriptor::Synth(a), OutputDescriptor::Synth(b)) => match (a, b) {
                (Some(x), Some(y)) => *x == *y,
                (None, None) => true,
                _ => false,
            },
            (OutputDescriptor::MidiOut(a), OutputDescriptor::MidiOut(b)) => *a == *b,
            (OutputDescriptor::DummyOutput, OutputDescriptor::DummyOutput) => true,
            _ => false,
        }
    }
}

impl vstd::std_specs::cmp::PartialEqSpecImpl for OutputDescriptor {
    open spec fn obeys_eq_spec() -> bool {
        true
    }

    open spec fn eq_spec(&self, other: &Self) -> bool {
        self.matches(*other)
    }
}

impl OutputDescriptor {
    /// Human-readable label for UI presentation: a fixed name for the
    /// software instrument, the port identity for a device, and an explicit
    /// "no output" label for the fallback.
    pub fn label(&self) -> (r: String)
        ensures
            r@ == match *self {
                OutputDescriptor::Synth(_) => "Buildin Synth"@,
                OutputDescriptor::MidiOut(info) => info.name@,
                OutputDescriptor::DummyOutput => "No Output"@,
            },
    {
        match self {
            OutputDescriptor::Synth(_) => String::from_str("Buildin Synth"),
            OutputDescriptor::MidiOut(info) => info.name.clone(),
            OutputDescriptor::DummyOutput => String::from_str("No Output"),
        }
    }
}

/// A channel-scoped performance message, held as plain values. The routing
/// layer never inspects a message: it only forwards it to the active sink.
#[derive(Debug, Clone, Copy, PartialEq, Eq, Structural)]
pub enum MidiMessage {
    NoteOff { key: u8, vel: u8 },
    NoteOn { key: u8, vel: u8 },
    Aftertouch { key: u8, vel: u8 },
    Controller { controller: u8, value: u8 },
    ProgramChange { program: u8 },
    ChannelAftertouch { vel: u8 },
    PitchBend { bend: u16 },
}

/// A live output connection. Exactly one sink is active at any time; it is
/// exclusively owned by the orchestrator. A live sink carries a ghost
/// identity so that contracts can tell an existing connection from a freshly
/// opened one.
pub enum Sink {
    /// Discards every event and every flush.
    Dummy,
    /// An open connection into the in-process software instrument, with the
    /// sound bank it was opened from.
    Synth { id: Ghost<nat>, bank: String },
    /// An open connection into an OS device output.
    MidiOut { id: Ghost<nat>, port: MidiPortInfo },
}

impl Sink {
    /// The ghost identity of a live sink; the fallback has none.
    pub open spec fn sink_id(self) -> nat
        recommends !(self is Dummy),
    {
        match self {
            Sink::Dummy => 0,
            Sink::Synth { id, .. } => id@,
            Sink::MidiOut { id, .. } => id@,
        }
    }
}

/// One observable interaction with a live sink, recorded (ghost) in the order
/// in which the orchestrator performs them. The fallback sink discards
/// everything, so nothing is ever recorded for it.
pub ghost enum SinkEffect {
    /// An event was forwarded to a live sink.
    Delivered { sink: Sink, channel: u8, msg: MidiMessage },
    /// A live sink was told to stop all sounding notes.
    Stopped { sink: Sink },
    /// A live sink was opened.
    Opened { sink: Sink },
}

/// What delivering one event to `s` adds to the trace.
pub open spec fn deliver_trace(s: Sink, channel: u8, msg: MidiMessage) -> Seq<SinkEffect> {
    if s is Dummy {
        Seq::empty()
    } else {
        seq![SinkEffect::Delivered { sink: s, channel, msg }]
    }
}

/// What flushing `s` adds to the trace.
pub open spec fn stop_trace(s: Sink) -> Seq<SinkEffect> {
    if s is Dummy {
        Seq::empty()
    } else {
        seq![SinkEffect::Stopped { sink: s }]
    }
}

/// What installing the freshly opened sink `s` adds to the trace.
pub open spec fn open_trace(s: Sink) -> Seq<SinkEffect> {
    if s is Dummy {
        Seq::empty()
    } else {
        seq![SinkEffect::Opened { sink: s }]
    }
}

/// Provider for the in-process software instrument. The default sound-bank
/// location is resolved by the host when the provider is built: `None` means
/// no default bank is present on disk, so a `Synth(None)` descriptor cannot
/// be opened.
pub struct SynthBackend {
    pub default_bank: Option<String>,
}

impl SynthBackend {
    /// The candidate descriptors this provider contributes to enumeration:
    /// always exactly one, the software instrument with its default bank.
    pub fn get_outputs(&self) -> (r: Vec<OutputDescriptor>)
        ensures
            r@ == seq![OutputDescriptor::Synth(None::<String>)],
    {
        let mut outs: Vec<OutputDescriptor> = Vec::new();
        outs.push(OutputDescriptor::Synth(None));
        outs
    }

    /// Opens a connection into the software instrument from the given bank.
    /// Loading an explicitly supplied bank does not fail.
    pub fn new_output_connection(&self, bank: &String, id: Ghost<nat>) -> (r: Sink)
        ensures
            r == (Sink::Synth { id, bank: *bank }),
    {
        Sink::Synth { id, bank: bank.clone() }
    }
}

/// Provider for OS-level device outputs, holding the ports seen at the most
/// recent scan.
pub struct MidiBackend {
    pub ports: Vec<MidiPortInfo>,
}

impl MidiBackend {
    /// True iff a port with this identity is currently known to the provider.
    pub open spec fn has_port(self, p: MidiPortInfo) -> bool {
        exists|j: int| 0 <= j < self.ports@.len() && self.ports@[j].name@ == p.name@
    }

    /// The candidate descriptors this provider contributes to enumeration:
    /// one per known port, in scan order.
    pub fn get_outputs(&self) -> (r: Vec<OutputDescriptor>)
        ensures
            r@ == self.ports@.map_values(|p: MidiPortInfo| OutputDescriptor::MidiOut(p)),
    {
        let mut outs: Vec<OutputDescriptor> = Vec::new();
        let mut i: usize = 0;
        while i < self.ports.len()
            invariant
                i <= self.ports@.len(),
                outs@ == self.ports@.take(i as int).map_values(
                    |p: MidiPortInfo| OutputDescriptor::MidiOut(p),
                ),
            decreases self.ports@.len() - i,
        {
            let port = MidiPortInfo { name: self.ports[i].name.clone() };
            outs.push(OutputDescriptor::MidiOut(port));
            i += 1;
            proof {
                assert(self.ports@.take(i as int) =~= self.ports@.take(i - 1).push(
                    self.ports@[i - 1],
                ));
                assert(outs@ =~= self.ports@.take(i as int).map_values(
                    |p: MidiPortInfo| OutputDescriptor::MidiOut(p),
                ));
            }
        }
        proof {
            assert(self.ports@.take(i as int) =~= self.ports@);
        }
        outs
    }

    /// Attempts to open the device behind `port`. Fails, returning `None`,
    /// exactly when no port with that identity is present any more (a stale
    /// descriptor).
    pub fn new_output_connection(&self, port: &MidiPortInfo, id: Ghost<nat>) -> (r: Option<Sink>)
        ensures
            match r {
                Some(s) => self.has_port(*port) && s == (Sink::MidiOut { id, port: *port }),
                None => !self.has_port(*port),
            },
    {
        let mut i: usize = 0;
        while i < self.ports.len()
            invariant
                i <= self.ports@.len(),
                forall|j: int| 0 <= j < i ==> self.ports@[j].name@ != port.name@,
            decreases self.ports@.len() - i,
        {
            if self.ports[i].name == port.name {
                return Some(Sink::MidiOut { id, port: MidiPortInfo { name: port.name.clone() } });
            }
            i += 1;
        }
        None
    }
}

/// A resolved route for a connect attempt: what would have to be opened.
/// Computed before the outgoing sink is flushed, so a rejected attempt
/// disturbs nothing.
enum Plan {
    InstallDummy,
    OpenSynth(String),
    OpenMidi,
}

/// The orchestrator. It owns the optional backend providers and exactly one
/// active (descriptor, sink) route; the route defaults to the fallback and is
/// only ever replaced as a whole.
pub struct OutputManager {
    pub synth_backend: Option<SynthBackend>,
    pub midi_backend: Option<MidiBackend>,
    /// The active route: the descriptor the user selected and the live sink
    /// opened from it.
    pub output_connection: (OutputDescriptor, Sink),
    /// Ghost allocator for sink identities: every sink ever opened got an
    /// identity below this bound.
    pub next_sink_id: Ghost<nat>,
    /// Ghost record of every interaction with live sinks, oldest first.
    pub history: Ghost<Seq<SinkEffect>>,
}

impl OutputManager {
    /// The active-route invariant: the live sink corresponds to the
    /// descriptor it was opened from, and its identity was allocated.
    pub open spec fn wf(self) -> bool {
        &&& match (self.output_connection.1, self.output_connection.0) {
            (Sink::Dummy, OutputDescriptor::DummyOutput) => true,
            (Sink::Synth { bank, .. }, OutputDescriptor::Synth(b)) => match b {
                Some(p) => bank@ == p@,
                None => true,
            },
            (Sink::MidiOut { port, .. }, OutputDescriptor::MidiOut(p)) => port.matches(p),
            _ => false,
        }
        &&& !(self.output_connection.1 is Dummy) ==> self.output_connection.1.sink_id()
            < self.next_sink_id@
    }

    /// The descriptor of the active route.
    pub open spec fn active_descriptor(self) -> OutputDescriptor {
        self.output_connection.0
    }

    /// The live sink of the active route.
    pub open spec fn active_sink(self) -> Sink {
        self.output_connection.1
    }

    /// True iff the provider owning descriptors of `d`'s variant is present.
    /// The fallback needs no provider.
    pub open spec fn provider_present(self, d: OutputDescriptor) -> bool {
        match d {
            OutputDescriptor::Synth(_) => self.synth_backend is Some,
            OutputDescriptor::MidiOut(_) => self.midi_backend is Some,
            OutputDescriptor::DummyOutput => true,
        }
    }

    /// True iff a sound bank can be resolved for `d`: either `d` carries one,
    /// or the synth provider is present with a default bank on disk. Vacuous
    /// for the other variants.
    pub open spec fn bank_resolvable(self, d: OutputDescriptor) -> bool {
        match d {
            OutputDescriptor::Synth(b) => match b {
                Some(_) => true,
                None => match self.synth_backend {
                    Some(sb) => sb.default_bank is Some,
                    None => false,
                },
            },
            _ => true,
        }
    }

    /// A connect attempt for `d` gets as far as an open attempt iff the
    /// descriptor is not redundant, its provider is present, and a bank is
    /// resolvable.
    pub open spec fn connect_reaches_open(self, d: OutputDescriptor) -> bool {
        &&& !d.matches(self.active_descriptor())
        &&& self.provider_present(d)
        &&& self.bank_resolvable(d)
    }

    /// Whether the open attempt for `d` succeeds: opening the fallback or the
    /// software instrument always does; opening a device fails exactly on a
    /// stale port.
    pub open spec fn open_succeeds(self, d: OutputDescriptor) -> bool {
        match d {
            OutputDescriptor::DummyOutput => true,
            OutputDescriptor::Synth(_) => true,
            OutputDescriptor::MidiOut(p) => match self.midi_backend {
                Some(mb) => mb.has_port(p),
                None => false,
            },
        }
    }

    /// The bank a successful synth open uses: the descriptor's own, else the
    /// provider's default.
    pub open spec fn resolved_bank(self, d: OutputDescriptor) -> Seq<char>
        recommends d is Synth, self.bank_resolvable(d), self.provider_present(d),
    {
        match d {
            OutputDescriptor::Synth(b) => match b {
                Some(p) => p@,
                None => match self.synth_backend {
                    Some(sb) => match sb.default_bank {
                        Some(q) => q@,
                        None => Seq::empty(),
                    },
                    None => Seq::empty(),
                },
            },
            _ => Seq::empty(),
        }
    }

    /// The sink a successful open of `d` installs, up to the value of the
    /// strings it carries.
    pub open spec fn installs_sink_for(self, d: OutputDescriptor, s: Sink) -> bool {
        match d {
            OutputDescriptor::DummyOutput => s is Dummy,
            OutputDescriptor::Synth(_) => s matches Sink::Synth { id, bank }
                && id@ == self.next_sink_id@ && bank@ == self.resolved_bank(d),
            OutputDescriptor::MidiOut(p) => s matches Sink::MidiOut { id, port }
                && id@ == self.next_sink_id@ && port.matches(p),
        }
    }

    /// Builds an orchestrator over the given providers; a provider whose
    /// subsystem failed to initialize is passed as `None` and stays absent
    /// for the orchestrator's lifetime. The route starts on the fallback.
    pub fn new(synth_backend: Option<SynthBackend>, midi_backend: Option<MidiBackend>) -> (r:
        OutputManager)
        ensures
            r.wf(),
            r.synth_backend == synth_backend,
            r.midi_backend == midi_backend,
            r.active_descriptor() is DummyOutput,
            r.active_sink() is Dummy,
            r.history@ == Seq::<SinkEffect>::empty(),
    {
        OutputManager {
            synth_backend,
            midi_backend,
            output_connection: (OutputDescriptor::DummyOutput, Sink::Dummy),
            next_sink_id: Ghost(0),
            history: Ghost(Seq::empty()),
        }
    }

    /// The descriptor the active route was opened from.
    pub fn connected_output(&self) -> (r: &OutputDescriptor)
        ensures
            *r == self.active_descriptor(),
    {
        &self.output_connection.0
    }

    /// Enumerates the candidate targets: every present provider's
    /// descriptors in order, then the fallback. The result is never empty and
    /// the fallback is always last, so a caller can always select a
    /// disruption-free output.
    pub fn outputs(&self) -> (r: Vec<OutputDescriptor>)
        ensures
            r@ == self.enumerated(),
            r@.len() > 0,
            r@.last() is DummyOutput,
    {
        let mut outs: Vec<OutputDescriptor> = Vec::new();

        if let Some(synth) = &self.synth_backend {
            let mut s = synth.get_outputs();
            outs.append(&mut s);
        }
        if let Some(midi) = &self.midi_backend {
            let mut m = midi.get_outputs();
            outs.append(&mut m);
        }

        outs.push(OutputDescriptor::DummyOutput);

        outs
    }

    /// What enumeration returns, as a sequence.
    pub open spec fn enumerated(self) -> Seq<OutputDescriptor> {
        (match self.synth_backend {
            Some(_) => seq![OutputDescriptor::Synth(None::<String>)],
            None => Seq::<OutputDescriptor>::empty(),
        }) + (match self.midi_backend {
            Some(mb) => mb.ports@.map_values(|p: MidiPortInfo| OutputDescriptor::MidiOut(p)),
            None => Seq::<OutputDescriptor>::empty(),
        }) + seq![OutputDescriptor::DummyOutput]
    }

    /// Forwards one channel-scoped event to the active sink. Hot path: never
    /// fails, touches nothing but the active sink, and delivers nothing
    /// observable when the fallback is active.
    pub fn midi_event(&mut self, channel: u8, msg: MidiMessage)
        requires
            channel < 16,
        ensures
            final(self).synth_backend == old(self).synth_backend,
            final(self).midi_backend == old(self).midi_backend,
            final(self).output_connection == old(self).output_connection,
            final(self).next_sink_id == old(self).next_sink_id,
            final(self).history@ == old(self).history@ + deliver_trace(
                old(self).active_sink(),
                channel,
                msg,
            ),
    {
        match &self.output_connection.1 {
            Sink::Dummy => {
                proof {
                    assert(self.history@ =~= self.history@ + deliver_trace(
                        self.active_sink(),
                        channel,
                        msg,
                    ));
                }
            },
            _ => {
                self.history = Ghost(
                    self.history@.push(
                        SinkEffect::Delivered { sink: self.output_connection.1, channel, msg },
                    ),
                );
                proof {
                    assert(self.history@ =~= old(self).history@ + deliver_trace(
                        old(self).active_sink(),
                        channel,
                        msg,
                    ));
                }
            },
        }
    }

    /// Flushes all sounding notes on the active sink. Hot and lifecycle path:
    /// never fails, and must be called by the playback engine on every pause,
    /// seek or stop, independent of any connect.
    pub fn stop_all(&mut self)
        ensures
            final(self).synth_backend == old(self).synth_backend,
            final(self).midi_backend == old(self).midi_backend,
            final(self).output_connection == old(self).output_connection,
            final(self).next_sink_id == old(self).next_sink_id,
            final(self).history@ == old(self).history@ + stop_trace(old(self).active_sink()),
    {
        match &self.output_connection.1 {
            Sink::Dummy => {
                proof {
                    assert(self.history@ =~= self.history@ + stop_trace(self.active_sink()));
                }
            },
            _ => {
                self.history = Ghost(
                    self.history@.push(SinkEffect::Stopped { sink: self.output_connection.1 }),
                );
                proof {
                    assert(self.history@ =~= old(self).history@ + stop_trace(
                        old(self).active_sink(),
                    ));
                }
            },
        }
    }

    /// Switches the active route to `desc`.
    ///
    /// Idempotent: a descriptor equal to the active one returns at once and
    /// changes nothing. An attempt whose provider is absent, or whose bank
    /// cannot be resolved, is rejected before the outgoing sink is touched.
    /// Otherwise the outgoing sink is flushed first; then, if the open
    /// succeeds, the route is replaced as a whole, and if it fails, the
    /// already-silenced previous route stays installed.
    pub fn connect(&mut self, desc: OutputDescriptor)
        requires
            old(self).wf(),
        ensures
            final(self).wf(),
            final(self).synth_backend == old(self).synth_backend,
            final(self).midi_backend == old(self).midi_backend,
            desc.matches(old(self).active_descriptor()) ==> *final(self) == *old(self),
            !desc.matches(old(self).active_descriptor()) && !(old(self).provider_present(desc)
                && old(self).bank_resolvable(desc)) ==> *final(self) == *old(self),
            old(self).connect_reaches_open(desc) && old(self).open_succeeds(desc) ==> {
                &&& final(self).active_descriptor() == desc
                &&& old(self).installs_sink_for(desc, final(self).active_sink())
                &&& final(self).next_sink_id@ == old(self).next_sink_id@ + (
                if desc is DummyOutput {
                    0int
                } else {
                    1int
                })
                &&& final(self).history@ == old(self).history@ + stop_trace(
                    old(self).active_sink(),
                ) + open_trace(final(self).active_sink())
            },
            old(self).connect_reaches_open(desc) && !old(self).open_succeeds(desc) ==> {
                &&& final(self).output_connection == old(self).output_connection
                &&& final(self).next_sink_id == old(self).next_sink_id
                &&& final(self).history@ == old(self).history@ + stop_trace(
                    old(self).active_sink(),
                )
            },
    {
        if desc == self.output_connection.0 {
            return ;
        }

        let plan: Option<Plan> = match &desc {
            OutputDescriptor::Synth(font) => match &self.synth_backend {
                Some(sb) => match font {
                    Some(f) => Some(Plan::OpenSynth(f.clone())),
                    None => match &sb.default_bank {
                        Some(d) => Some(Plan::OpenSynth(d.clone())),
                        None => None,
                    },
                },
                None => None,
            },
            OutputDescriptor::MidiOut(_) => {
                if self.midi_backend.is_some() {
                    Some(Plan::OpenMidi)
                } else {
                    None
                }
            },
            OutputDescriptor::DummyOutput => Some(Plan::InstallDummy),
        };

        let plan = match plan {
            Some(p) => p,
            None => {
                return ;
            },
        };

        // Flush the outgoing sink before attempting to open the new one, so
        // no note keeps sounding across the swap.
        self.stop_all();

        let id: Ghost<nat> = Ghost(self.next_sink_id@);
        match plan {
            Plan::InstallDummy => {
                self.output_connection = (desc, Sink::Dummy);
                proof {
                    assert(self.history@ =~= old(self).history@ + stop_trace(
                        old(self).active_sink(),
                    ) + open_trace(self.output_connection.1));
                }
            },
            Plan::OpenSynth(bank) => {
                let sink = match &self.synth_backend {
                    Some(sb) => sb.new_output_connection(&bank, id),
                    None => Sink::Dummy,  // unreachable: the plan implies the provider
                };
                self.output_connection = (desc, sink);
                self.next_sink_id = Ghost(self.next_sink_id@ + 1);
                self.history = Ghost(
                    self.history@.push(SinkEffect::Opened { sink: self.output_connection.1 }),
                );
                proof {
                    assert(self.history@ =~= old(self).history@ + stop_trace(
                        old(self).active_sink(),
                    ) + open_trace(self.output_connection.1));
                }
            },
            Plan::OpenMidi => {
                let opened: Option<Sink> = match (&desc, &self.midi_backend) {
                    (OutputDescriptor::MidiOut(port), Some(mb)) => mb.new_output_connection(
                        port,
                        id,
                    ),
                    _ => None,  // unreachable: the plan implies the variant and the provider
                };
                match opened {
                    Some(sink) => {
                        self.output_connection = (desc, sink);
                        self.next_sink_id = Ghost(self.next_sink_id@ + 1);
                        self.history = Ghost(
                            self.history@.push(
                                SinkEffect::Opened { sink: self.output_connection.1 },
                            ),
                        );
                        proof {
                            assert(self.history@ =~= old(self).history@ + stop_trace(
                                old(self).active_sink(),
                            ) + open_trace(self.output_connection.1));
                        }
                    },
                    None => {},
                }
            },
        }
    }
}

/// After any finite sequence of connect calls exactly one sink is active:
/// the single route slot is never empty and never partially updated: its
/// live sink always corresponds, variant for variant and payload for
/// payload, to the descriptor it was opened from.
pub proof fn lemma_single_active_route(m: OutputManager)
    requires
        m.wf(),
    ensures
        m.active_sink() is Dummy <==> m.active_descriptor() is DummyOutput,
        m.active_sink() matches Sink::Synth { bank, .. } ==> (m.active_descriptor()
            matches OutputDescriptor::Synth(Some(p)) ==> bank@ == p@),
        m.active_sink() matches Sink::Synth { .. } <==> m.active_descriptor()
            matches OutputDescriptor::Synth(_),
        m.active_sink() matches Sink::MidiOut { port, .. } ==> (m.active_descriptor()
            matches OutputDescriptor::MidiOut(p) && port.matches(p)),
        m.active_sink() matches Sink::MidiOut { .. } <==> m.active_descriptor()
            matches OutputDescriptor::MidiOut(_),
{
}

impl Default for OutputManager {
    /// An orchestrator with every provider absent: enumeration offers only
    /// the fallback, which is active.
    fn default() -> (r: Self)
        ensures
            r.wf(),
            r.synth_backend is None,
            r.midi_backend is None,
            r.active_descriptor() is DummyOutput,
            r.active_sink() is Dummy,
            r.history@ == Seq::<SinkEffect>::empty(),
    {
        Self::new(None, None)
    }
}

} // verus!
