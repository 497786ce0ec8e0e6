use clack_boundary::event_io::{InputEvents, OutputEvents, TryPushError};
use clack_boundary::events::{
    EventHeader, Midi2Event, MidiEvent, MidiSysExEvent, UnknownEvent, CORE_EVENT_SPACE_ID, EVENT_IS_LIVE,
    EVENT_TYPE_MIDI, EVENT_TYPE_MIDI2, EVENT_TYPE_MIDI_SYSEX, MIDI_EVENT_SIZE,
};
use clack_boundary::events::Event;

fn midi_at(time: u32, data: [u8; 3]) -> MidiEvent {
    MidiEvent::new(EventHeader::new_core::<MidiEvent>(time, 0), 0, data)
}

#[test]
fn header_for_midi_event_is_fixed_by_type() {
    let header = EventHeader::new_core::<MidiEvent>(42, EVENT_IS_LIVE);
    assert_eq!(header.type_id(), EVENT_TYPE_MIDI);
    assert_eq!(header.space_id(), CORE_EVENT_SPACE_ID);
    assert_eq!(header.size(), MIDI_EVENT_SIZE);
    assert_eq!(header.time(), 42);
    assert_eq!(header.flags(), EVENT_IS_LIVE);
}

#[test]
fn constructor_keeps_only_time_and_flags_of_header() {
    let foreign = EventHeader { size: 999, time: 7, space_id: 3, type_id: 77, flags: 2 };
    let e = MidiEvent::new(foreign, 1, [0x90, 60, 100]);
    let h = e.header();
    assert_eq!(h.type_id, EVENT_TYPE_MIDI);
    assert_eq!(h.space_id, CORE_EVENT_SPACE_ID);
    assert_eq!(h.size, MIDI_EVENT_SIZE);
    assert_eq!(h.time, 7);
    assert_eq!(h.flags, 2);
}

#[test]
fn downcast_of_widened_midi_gives_it_back() {
    let e = MidiEvent::new(EventHeader::new_core::<MidiEvent>(5, 0), 2, [0x80, 64, 0]);
    let u = e.as_unknown();
    let back = u.as_event::<MidiEvent>().expect("same type");
    assert_eq!(back, e);
    assert_eq!(back.port_index(), 2);
    assert_eq!(back.data(), [0x80, 64, 0]);
    assert!(u.as_event::<Midi2Event>().is_none());
    assert!(u.as_event::<MidiSysExEvent>().is_none());
}

#[test]
fn downcast_of_widened_midi2_gives_it_back() {
    let e = Midi2Event::new(EventHeader::new_core::<Midi2Event>(9, 0), 1, [1, 2, 3, 4]);
    let u = e.as_unknown();
    assert_eq!(u.get_header().type_id, EVENT_TYPE_MIDI2);
    assert_eq!(u.as_event::<Midi2Event>(), Some(e));
    assert!(u.as_event::<MidiEvent>().is_none());
    assert!(u.as_event::<MidiSysExEvent>().is_none());
}

#[test]
fn downcast_of_widened_sysex_gives_it_back() {
    let bytes = [0xF0u8, 0x7E, 0x00, 0xF7];
    let e = MidiSysExEvent::new(EventHeader::new_core::<MidiSysExEvent>(3, 0), 4, &bytes);
    let u = e.as_unknown();
    assert_eq!(u.get_header().type_id, EVENT_TYPE_MIDI_SYSEX);
    let back = u.as_event::<MidiSysExEvent>().expect("same type");
    assert_eq!(back.data(), &bytes[..]);
    assert_eq!(back.buffer_size(), 4);
    assert_eq!(back.port_index(), 4);
    assert!(u.as_event::<MidiEvent>().is_none());
    assert!(u.as_event::<Midi2Event>().is_none());
}

#[test]
fn midi_equality_ignores_header() {
    let a = MidiEvent::new(EventHeader::new_core::<MidiEvent>(1, 0), 0, [1, 2, 3]);
    let b = MidiEvent::new(EventHeader::new_core::<MidiEvent>(500, EVENT_IS_LIVE), 0, [1, 2, 3]);
    let c = MidiEvent::new(EventHeader::new_core::<MidiEvent>(1, 0), 1, [1, 2, 3]);
    assert_eq!(a, b);
    assert_ne!(a, c);
}

#[test]
fn sysex_equality_compares_port_and_bytes() {
    let x = [1u8, 2, 3];
    let y = [1u8, 2, 3];
    let z = [1u8, 2, 4];
    let h = EventHeader::new_core::<MidiSysExEvent>(0, 0);
    assert_eq!(MidiSysExEvent::new(h, 0, &x), MidiSysExEvent::new(h, 0, &y));
    assert_ne!(MidiSysExEvent::new(h, 0, &x), MidiSysExEvent::new(h, 0, &z));
    assert_ne!(MidiSysExEvent::new(h, 0, &x), MidiSysExEvent::new(h, 1, &x));
}

#[test]
fn setters_change_only_their_field() {
    let mut e = midi_at(10, [1, 2, 3]);
    e.set_data([4, 5, 6]);
    e.set_port_index(9);
    assert_eq!(e.data(), [4, 5, 6]);
    assert_eq!(e.port_index(), 9);
    assert_eq!(e.header().time, 10);
    let mut m = Midi2Event::new(EventHeader::new_core::<Midi2Event>(0, 0), 0, [0; 4]);
    m.set_data([9, 8, 7, 6]);
    m.set_port_index(3);
    assert_eq!(m.data(), [9, 8, 7, 6]);
    assert_eq!(m.port_index(), 3);
}

#[test]
fn output_queue_reads_back_in_push_order() {
    let mut out = OutputEvents::new();
    let times = [0u32, 0, 5, 12, 12, 31];
    for (i, t) in times.iter().enumerate() {
        out.try_push(midi_at(*t, [i as u8, 0, 0]).as_unknown()).unwrap();
    }
    assert_eq!(out.len(), times.len());
    let mut previous = 0;
    for (i, t) in times.iter().enumerate() {
        let e = out.get(i).unwrap();
        assert_eq!(e.time(), *t);
        assert!(e.time() >= previous);
        previous = e.time();
        assert_eq!(e.as_event::<MidiEvent>().unwrap().data()[0], i as u8);
    }
    assert!(out.get(times.len()).is_none());
    let input = InputEvents::from_buffer(out.as_slice());
    assert_eq!(input.len(), times.len());
    assert_eq!(input.get(3).unwrap().time(), 12);
    assert!(input.get(6).is_none());
}

#[test]
fn bounded_output_queue_refuses_when_full() {
    let mut out = OutputEvents::with_capacity_limit(2);
    assert_eq!(out.try_push(midi_at(0, [0; 3]).as_unknown()), Ok(()));
    assert_eq!(out.try_push(midi_at(1, [0; 3]).as_unknown()), Ok(()));
    assert_eq!(out.try_push(midi_at(2, [0; 3]).as_unknown()), Err(TryPushError));
    assert_eq!(out.len(), 2);
}

#[test]
fn empty_input_queue() {
    let input = InputEvents::empty();
    assert!(input.is_empty());
    assert!(input.get(0).is_none());
    let list: [UnknownEvent; 0] = [];
    assert_eq!(InputEvents::from_buffer(&list).len(), 0);
}
