use neothesia::output_manager::{
    MidiBackend, MidiMessage, MidiPortInfo, OutputDescriptor, OutputManager, SynthBackend,
};

fn port(name: &str) -> MidiPortInfo {
    MidiPortInfo { name: String::from(name) }
}

fn manager_with_midi(names: &[&str]) -> OutputManager {
    let ports: Vec<MidiPortInfo> = names.iter().map(|n| port(n)).collect();
    OutputManager::new(None, Some(MidiBackend { ports }))
}

#[test]
fn outputs_all_providers_absent_is_exactly_dummy() {
    let m = OutputManager::new(None, None);
    let outs = m.outputs();
    assert_eq!(outs.len(), 1);
    assert_eq!(outs[0], OutputDescriptor::DummyOutput);
}

#[test]
fn outputs_never_empty_and_dummy_always_last() {
    let managers = vec![
        OutputManager::new(None, None),
        OutputManager::new(Some(SynthBackend { default_bank: None }), None),
        manager_with_midi(&["Port A", "Port B"]),
        OutputManager::new(
            Some(SynthBackend { default_bank: Some(String::from("default.sf2")) }),
            Some(MidiBackend { ports: vec![port("Port A")] }),
        ),
    ];
    for m in &managers {
        let outs = m.outputs();
        assert!(!outs.is_empty());
        assert_eq!(outs[outs.len() - 1], OutputDescriptor::DummyOutput);
    }
}

#[test]
fn outputs_lists_synth_then_ports_then_dummy() {
    let m = OutputManager::new(
        Some(SynthBackend { default_bank: Some(String::from("default.sf2")) }),
        Some(MidiBackend { ports: vec![port("Port A"), port("Port B")] }),
    );
    let outs = m.outputs();
    assert_eq!(
        outs,
        vec![
            OutputDescriptor::Synth(None),
            OutputDescriptor::MidiOut(port("Port A")),
            OutputDescriptor::MidiOut(port("Port B")),
            OutputDescriptor::DummyOutput,
        ]
    );
}

#[test]
fn initial_route_is_dummy() {
    let m = OutputManager::new(None, None);
    assert_eq!(*m.connected_output(), OutputDescriptor::DummyOutput);
}

#[test]
fn connect_redundant_descriptor_changes_nothing() {
    let mut m = manager_with_midi(&["Port A"]);
    m.connect(OutputDescriptor::MidiOut(port("Port A")));
    assert_eq!(*m.connected_output(), OutputDescriptor::MidiOut(port("Port A")));
    // the same descriptor again: idempotent
    m.connect(OutputDescriptor::MidiOut(port("Port A")));
    assert_eq!(*m.connected_output(), OutputDescriptor::MidiOut(port("Port A")));
}

#[test]
fn connect_to_absent_provider_keeps_route() {
    let mut m = OutputManager::new(None, None);
    m.connect(OutputDescriptor::Synth(Some(String::from("bank.sf2"))));
    assert_eq!(*m.connected_output(), OutputDescriptor::DummyOutput);
    m.connect(OutputDescriptor::MidiOut(port("Port A")));
    assert_eq!(*m.connected_output(), OutputDescriptor::DummyOutput);
}

#[test]
fn connect_synth_default_bank_missing_keeps_route() {
    // Scenario: the provider is present but no default bank is on disk.
    let mut m = OutputManager::new(Some(SynthBackend { default_bank: None }), None);
    m.connect(OutputDescriptor::Synth(None));
    assert_eq!(*m.connected_output(), OutputDescriptor::DummyOutput);
}

#[test]
fn connect_synth_default_bank_present_swaps() {
    let mut m = OutputManager::new(
        Some(SynthBackend { default_bank: Some(String::from("default.sf2")) }),
        None,
    );
    m.connect(OutputDescriptor::Synth(None));
    assert_eq!(*m.connected_output(), OutputDescriptor::Synth(None));
}

#[test]
fn connect_synth_explicit_bank_swaps() {
    let mut m = OutputManager::new(Some(SynthBackend { default_bank: None }), None);
    m.connect(OutputDescriptor::Synth(Some(String::from("bank.sf2"))));
    assert_eq!(
        *m.connected_output(),
        OutputDescriptor::Synth(Some(String::from("bank.sf2")))
    );
}

#[test]
fn connect_valid_port_then_dummy() {
    let mut m = manager_with_midi(&["Port A", "Port B"]);
    m.connect(OutputDescriptor::MidiOut(port("Port B")));
    assert_eq!(*m.connected_output(), OutputDescriptor::MidiOut(port("Port B")));
    // switching back to the fallback always succeeds
    m.connect(OutputDescriptor::DummyOutput);
    assert_eq!(*m.connected_output(), OutputDescriptor::DummyOutput);
}

#[test]
fn connect_stale_port_keeps_route() {
    let mut m = manager_with_midi(&["Port A"]);
    m.connect(OutputDescriptor::MidiOut(port("Port A")));
    m.connect(OutputDescriptor::MidiOut(port("Gone")));
    assert_eq!(*m.connected_output(), OutputDescriptor::MidiOut(port("Port A")));
}

#[test]
fn dispatch_and_stop_all_never_fail_on_any_variant() {
    let msg = MidiMessage::NoteOn { key: 60, vel: 100 };

    // before any successful connect: the fallback
    let mut m = OutputManager::new(None, None);
    m.midi_event(0, msg);
    m.stop_all();

    // a device sink
    let mut m = manager_with_midi(&["Port A"]);
    m.connect(OutputDescriptor::MidiOut(port("Port A")));
    m.midi_event(15, msg);
    m.midi_event(3, MidiMessage::PitchBend { bend: 8192 });
    m.stop_all();

    // a software-instrument sink
    let mut m = OutputManager::new(
        Some(SynthBackend { default_bank: Some(String::from("default.sf2")) }),
        None,
    );
    m.connect(OutputDescriptor::Synth(None));
    m.midi_event(9, MidiMessage::NoteOff { key: 60, vel: 0 });
    m.stop_all();
}

#[test]
fn scenario_all_absent_connect_dummy_noop_dispatch() {
    let mut m = OutputManager::new(None, None);
    let outs = m.outputs();
    assert_eq!(outs, vec![OutputDescriptor::DummyOutput]);
    m.connect(OutputDescriptor::DummyOutput);
    assert_eq!(*m.connected_output(), OutputDescriptor::DummyOutput);
    m.midi_event(0, MidiMessage::Controller { controller: 64, value: 0 });
    m.stop_all();
    assert_eq!(*m.connected_output(), OutputDescriptor::DummyOutput);
}

#[test]
fn default_manager_has_no_providers() {
    let m = OutputManager::default();
    assert_eq!(m.outputs(), vec![OutputDescriptor::DummyOutput]);
    assert_eq!(*m.connected_output(), OutputDescriptor::DummyOutput);
}

#[test]
fn descriptor_equality_compares_variant_and_payload() {
    assert_eq!(OutputDescriptor::DummyOutput, OutputDescriptor::DummyOutput);
    assert_eq!(
        OutputDescriptor::Synth(Some(String::from("a.sf2"))),
        OutputDescriptor::Synth(Some(String::from("a.sf2")))
    );
    assert_ne!(
        OutputDescriptor::Synth(Some(String::from("a.sf2"))),
        OutputDescriptor::Synth(None)
    );
    assert_eq!(
        OutputDescriptor::MidiOut(port("Port A")),
        OutputDescriptor::MidiOut(port("Port A"))
    );
    assert_ne!(
        OutputDescriptor::MidiOut(port("Port A")),
        OutputDescriptor::MidiOut(port("Port B"))
    );
    assert_ne!(OutputDescriptor::Synth(None), OutputDescriptor::DummyOutput);
}

#[test]
fn labels_render_for_ui() {
    assert_eq!(OutputDescriptor::Synth(None).label(), "Buildin Synth");
    assert_eq!(
        OutputDescriptor::Synth(Some(String::from("a.sf2"))).label(),
        "Buildin Synth"
    );
    assert_eq!(OutputDescriptor::MidiOut(port("Port A")).label(), "Port A");
    assert_eq!(OutputDescriptor::DummyOutput.label(), "No Output");
}

#[test]
fn provider_backends_list_their_outputs() {
    let sb = SynthBackend { default_bank: None };
    assert_eq!(sb.get_outputs(), vec![OutputDescriptor::Synth(None)]);

    let mb = MidiBackend { ports: vec![port("X"), port("Y")] };
    assert_eq!(
        mb.get_outputs(),
        vec![
            OutputDescriptor::MidiOut(port("X")),
            OutputDescriptor::MidiOut(port("Y")),
        ]
    );
}
