use clack_boundary::events::{
    midi_sysex_event_size, CORE_EVENT_SPACE_ID, EVENT_DONT_RECORD, EVENT_HEADER_SIZE, EVENT_IS_LIVE,
    EVENT_TYPE_MIDI, EVENT_TYPE_MIDI2, EVENT_TYPE_MIDI_SYSEX, MIDI2_EVENT_SIZE, MIDI_EVENT_SIZE,
};
use clack_boundary::process::{
    PROCESS_CONTINUE, PROCESS_CONTINUE_IF_NOT_QUIET, PROCESS_ERROR, PROCESS_SLEEP, PROCESS_TAIL,
};
use clap_sys::events::{
    clap_event_header, clap_event_midi, clap_event_midi2, clap_event_midi_sysex, CLAP_CORE_EVENT_SPACE_ID,
    CLAP_EVENT_DONT_RECORD, CLAP_EVENT_IS_LIVE, CLAP_EVENT_MIDI, CLAP_EVENT_MIDI2, CLAP_EVENT_MIDI_SYSEX,
};
use clap_sys::process::{
    CLAP_PROCESS_CONTINUE, CLAP_PROCESS_CONTINUE_IF_NOT_QUIET, CLAP_PROCESS_ERROR, CLAP_PROCESS_SLEEP,
    CLAP_PROCESS_TAIL,
};

#[test]
fn event_identifiers_match_the_abi() {
    assert_eq!(CORE_EVENT_SPACE_ID, CLAP_CORE_EVENT_SPACE_ID);
    assert_eq!(EVENT_TYPE_MIDI, CLAP_EVENT_MIDI);
    assert_eq!(EVENT_TYPE_MIDI_SYSEX, CLAP_EVENT_MIDI_SYSEX);
    assert_eq!(EVENT_TYPE_MIDI2, CLAP_EVENT_MIDI2);
    assert_eq!(EVENT_IS_LIVE, CLAP_EVENT_IS_LIVE);
    assert_eq!(EVENT_DONT_RECORD, CLAP_EVENT_DONT_RECORD);
}

#[test]
fn event_sizes_match_the_abi() {
    assert_eq!(EVENT_HEADER_SIZE as usize, core::mem::size_of::<clap_event_header>());
    assert_eq!(MIDI_EVENT_SIZE as usize, core::mem::size_of::<clap_event_midi>());
    assert_eq!(MIDI2_EVENT_SIZE as usize, core::mem::size_of::<clap_event_midi2>());
    assert_eq!(midi_sysex_event_size() as usize, core::mem::size_of::<clap_event_midi_sysex>());
}

#[test]
fn process_statuses_match_the_abi() {
    assert_eq!(PROCESS_ERROR, CLAP_PROCESS_ERROR);
    assert_eq!(PROCESS_CONTINUE, CLAP_PROCESS_CONTINUE);
    assert_eq!(PROCESS_CONTINUE_IF_NOT_QUIET, CLAP_PROCESS_CONTINUE_IF_NOT_QUIET);
    assert_eq!(PROCESS_TAIL, CLAP_PROCESS_TAIL);
    assert_eq!(PROCESS_SLEEP, CLAP_PROCESS_SLEEP);
}
