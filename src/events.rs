//! Typed events of the plugin ABI, their type-erased form, and the checked
//! downcast between the two.
use vstd::prelude::*;

verus! {

/// Identifier of the core event space, the one every event type below lives in.
pub const CORE_EVENT_SPACE_ID: u16 = 0;

/// Type identifier of a MIDI 1.0 event in the core event space.
pub const EVENT_TYPE_MIDI: u16 = 10;

/// Type identifier of a MIDI system-exclusive event in the core event space.
pub const EVENT_TYPE_MIDI_SYSEX: u16 = 11;

/// Type identifier of a MIDI 2.0 event in the core event space.
pub const EVENT_TYPE_MIDI2: u16 = 12;

/// Byte size of the common event header record.
pub const EVENT_HEADER_SIZE: u32 = 16;

/// Byte size of the MIDI 1.0 event record: header, port index, three data bytes, padding.
pub const MIDI_EVENT_SIZE: u32 = 24;

/// Byte size of the MIDI 2.0 event record: header, port index, padding, four words.
pub const MIDI2_EVENT_SIZE: u32 = 36;

/// Flag set on events that were produced live rather than played back.
pub const EVENT_IS_LIVE: u32 = 1;

/// Flag set on events that a sequencer should not record.
pub const EVENT_DONT_RECORD: u32 = 2;

/// Byte size of the system-exclusive record: header, port index, a buffer
/// address and a 32-bit length, laid out at pointer alignment.
pub open spec fn spec_midi_sysex_event_size() -> u32 {
    (16 + 3 * (usize::BITS / 8)) as u32
}

pub fn midi_sysex_event_size() -> (r: u32)
    ensures
        r == spec_midi_sysex_event_size(),
        r == 28 || r == 40,
{
    (16 + 3 * (usize::BITS / 8)) as u32
}

/// The fixed-layout header that starts every event record.
#[derive(Clone, Copy, Debug, PartialEq, Eq, Structural)]
pub struct EventHeader {
    pub size: u32,
    pub time: u32,
    pub space_id: u16,
    pub type_id: u16,
    pub flags: u32,
}

impl EventHeader {
    /// A header for an event of type `E` in the core event space. The size and
    /// type fields come from `E`; the time and flags from the caller.
    pub fn new_core<'a, E: Event<'a>>(time: u32, flags: u32) -> (r: EventHeader)
        ensures
            r == core_header_of::<E>(time, flags),
    {
        EventHeader { size: E::size(), time, space_id: CORE_EVENT_SPACE_ID, type_id: E::type_id(), flags }
    }

    pub fn time(&self) -> (r: u32)
        ensures
            r == self.time,
    {
        self.time
    }

    pub fn flags(&self) -> (r: u32)
        ensures
            r == self.flags,
    {
        self.flags
    }

    pub fn type_id(&self) -> (r: u16)
        ensures
            r == self.type_id,
    {
        self.type_id
    }

    pub fn space_id(&self) -> (r: u16)
        ensures
            r == self.space_id,
    {
        self.space_id
    }

    pub fn size(&self) -> (r: u32)
        ensures
            r == self.size,
    {
        self.size
    }
}

/// The header that `EventHeader::new_core` gives events of type `E`.
pub open spec fn core_header_of<'a, E: Event<'a>>(time: u32, flags: u32) -> EventHeader {
    EventHeader {
        size: E::spec_size(),
        time,
        space_id: CORE_EVENT_SPACE_ID,
        type_id: E::spec_type_id(),
        flags,
    }
}

/// A concrete event type: a payload with a declared `(type identifier, core
/// space)` pair, which can be widened into an [`UnknownEvent`] and recovered
/// from one.
pub trait Event<'a>: Sized {
    /// The type identifier this event type declares.
    spec fn spec_type_id() -> u16;

    /// The byte size of this event type's record.
    spec fn spec_size() -> u32;

    /// The type-erased form of an event.
    spec fn spec_widen(self) -> UnknownEvent<'a>;

    /// The event held by a type-erased event whose variant is this type.
    spec fn spec_from_variant(u: UnknownEvent<'a>) -> Option<Self>;

    fn type_id() -> (r: u16)
        ensures
            r == Self::spec_type_id(),
    ;

    fn size() -> (r: u32)
        ensures
            r == Self::spec_size(),
    ;

    /// Widens the event into its type-erased form; this never fails.
    fn as_unknown(&self) -> (r: UnknownEvent<'a>)
        ensures
            r == self.spec_widen(),
    ;

    /// The event held by `u` when `u` holds this type, else `None`.
    fn from_variant(u: &UnknownEvent<'a>) -> (r: Option<Self>)
        ensures
            r == Self::spec_from_variant(*u),
    ;

    /// Widening keeps the declared tag in the header.
    proof fn lemma_widen_tag(self)
        ensures
            self.spec_widen().header().type_id == Self::spec_type_id(),
            self.spec_widen().header().space_id == CORE_EVENT_SPACE_ID,
            self.spec_widen().header().size == Self::spec_size(),
    ;

    /// Widening then recovering gives the event back.
    proof fn lemma_variant_of_widen(self)
        ensures
            Self::spec_from_variant(self.spec_widen()) == Some(self),
    ;
}

/// A MIDI 1.0 message for one port.
#[derive(Clone, Copy, Debug)]
pub struct MidiEvent {
    pub time: u32,
    pub flags: u32,
    pub port_index: u16,
    pub data: [u8; 3],
}

impl MidiEvent {
    pub open spec fn spec_data(&self) -> Seq<u8> {
        self.data@
    }

    pub open spec fn spec_header(&self) -> EventHeader {
        EventHeader {
            size: MIDI_EVENT_SIZE,
            time: self.time,
            space_id: CORE_EVENT_SPACE_ID,
            type_id: EVENT_TYPE_MIDI,
            flags: self.flags,
        }
    }

    /// Builds the event; only the time and flags of `header` are kept, the
    /// type and size being fixed by this type.
    pub fn new(header: EventHeader, port_index: u16, data: [u8; 3]) -> (r: MidiEvent)
        ensures
            r.time == header.time,
            r.flags == header.flags,
            r.port_index == port_index,
            r.spec_data() == data@,
    {
        MidiEvent { time: header.time, flags: header.flags, port_index, data }
    }

    pub fn header(&self) -> (r: EventHeader)
        ensures
            r == self.spec_header(),
    {
        EventHeader {
            size: MIDI_EVENT_SIZE,
            time: self.time,
            space_id: CORE_EVENT_SPACE_ID,
            type_id: EVENT_TYPE_MIDI,
            flags: self.flags,
        }
    }

    pub fn data(&self) -> (r: [u8; 3])
        ensures
            r@ == self.spec_data(),
    {
        self.data
    }

    pub fn set_data(&mut self, data: [u8; 3])
        ensures
            final(self).spec_data() == data@,
            final(self).port_index == old(self).port_index,
            final(self).time == old(self).time,
            final(self).flags == old(self).flags,
    {
        self.data = data;
    }

    pub fn port_index(&self) -> (r: u16)
        ensures
            r == self.port_index,
    {
        self.port_index
    }

    pub fn set_port_index(&mut self, port_index: u16)
        ensures
            final(self).port_index == port_index,
            final(self).spec_data() == old(self).spec_data(),
            final(self).time == old(self).time,
            final(self).flags == old(self).flags,
    {
        self.port_index = port_index;
    }
}

/// Two MIDI events are equal when their ports and data bytes are; the header
/// takes no part.
impl PartialEq for MidiEvent {
    fn eq(&self, other: &MidiEvent) -> (r: bool) {
        let r = self.port_index == other.port_index && self.data[0] == other.data[0]
            && self.data[1] == other.data[1] && self.data[2] == other.data[2];
        proof {
            if r {
                assert(self.data@ =~= other.data@);
            }
        }
        r
    }
}

impl vstd::std_specs::cmp::PartialEqSpecImpl for MidiEvent {
    open spec fn obeys_eq_spec() -> bool {
        true
    }

    open spec fn eq_spec(&self, other: &MidiEvent) -> bool {
        self.port_index == other.port_index && self.data@ == other.data@
    }
}

impl Eq for MidiEvent {
}

impl<'a> Event<'a> for MidiEvent {
    open spec fn spec_type_id() -> u16 {
        EVENT_TYPE_MIDI
    }

    open spec fn spec_size() -> u32 {
        MIDI_EVENT_SIZE
    }

    open spec fn spec_widen(self) -> UnknownEvent<'a> {
        UnknownEvent::Midi(self)
    }

    open spec fn spec_from_variant(u: UnknownEvent<'a>) -> Option<MidiEvent> {
        match u {
            UnknownEvent::Midi(e) => Some(e),
            _ => None,
        }
    }

    fn type_id() -> (r: u16) {
        EVENT_TYPE_MIDI
    }

    fn size() -> (r: u32) {
        MIDI_EVENT_SIZE
    }

    fn as_unknown(&self) -> (r: UnknownEvent<'a>) {
        UnknownEvent::Midi(*self)
    }

    fn from_variant(u: &UnknownEvent<'a>) -> (r: Option<MidiEvent>) {
        match u {
            UnknownEvent::Midi(e) => Some(*e),
            _ => None,
        }
    }

    proof fn lemma_widen_tag(self) {
    }

    proof fn lemma_variant_of_widen(self) {
    }
}

/// A MIDI 2.0 message (four 32-bit words) for one port.
#[derive(Clone, Copy, Debug)]
pub struct Midi2Event {
    pub time: u32,
    pub flags: u32,
    pub port_index: u16,
    pub data: [u32; 4],
}

impl Midi2Event {
    pub open spec fn spec_data(&self) -> Seq<u32> {
        self.data@
    }

    pub open spec fn spec_header(&self) -> EventHeader {
        EventHeader {
            size: MIDI2_EVENT_SIZE,
            time: self.time,
            space_id: CORE_EVENT_SPACE_ID,
            type_id: EVENT_TYPE_MIDI2,
            flags: self.flags,
        }
    }

    /// Builds the event; only the time and flags of `header` are kept.
    pub fn new(header: EventHeader, port_index: u16, data: [u32; 4]) -> (r: Midi2Event)
        ensures
            r.time == header.time,
            r.flags == header.flags,
            r.port_index == port_index,
            r.spec_data() == data@,
    {
        Midi2Event { time: header.time, flags: header.flags, port_index, data }
    }

    pub fn header(&self) -> (r: EventHeader)
        ensures
            r == self.spec_header(),
    {
        EventHeader {
            size: MIDI2_EVENT_SIZE,
            time: self.time,
            space_id: CORE_EVENT_SPACE_ID,
            type_id: EVENT_TYPE_MIDI2,
            flags: self.flags,
        }
    }

    pub fn data(&self) -> (r: [u32; 4])
        ensures
            r@ == self.spec_data(),
    {
        self.data
    }

    pub fn set_data(&mut self, data: [u32; 4])
        ensures
            final(self).spec_data() == data@,
            final(self).port_index == old(self).port_index,
            final(self).time == old(self).time,
            final(self).flags == old(self).flags,
    {
        self.data = data;
    }

    pub fn port_index(&self) -> (r: u16)
        ensures
            r == self.port_index,
    {
        self.port_index
    }

    pub fn set_port_index(&mut self, port_index: u16)
        ensures
            final(self).port_index == port_index,
            final(self).spec_data() == old(self).spec_data(),
            final(self).time == old(self).time,
            final(self).flags == old(self).flags,
    {
        self.port_index = port_index;
    }
}

/// Two MIDI 2.0 events are equal when their ports and data words are.
impl PartialEq for Midi2Event {
    fn eq(&self, other: &Midi2Event) -> (r: bool) {
        let r = self.port_index == other.port_index && self.data[0] == other.data[0]
            && self.data[1] == other.data[1] && self.data[2] == other.data[2]
            && self.data[3] == other.data[3];
        proof {
            if r {
                assert(self.data@ =~= other.data@);
            }
        }
        r
    }
}

impl vstd::std_specs::cmp::PartialEqSpecImpl for Midi2Event {
    open spec fn obeys_eq_spec() -> bool {
        true
    }

    open spec fn eq_spec(&self, other: &Midi2Event) -> bool {
        self.port_index == other.port_index && self.data@ == other.data@
    }
}

impl Eq for Midi2Event {
}

impl<'a> Event<'a> for Midi2Event {
    open spec fn spec_type_id() -> u16 {
        EVENT_TYPE_MIDI2
    }

    open spec fn spec_size() -> u32 {
        MIDI2_EVENT_SIZE
    }

    open spec fn spec_widen(self) -> UnknownEvent<'a> {
        UnknownEvent::Midi2(self)
    }

    open spec fn spec_from_variant(u: UnknownEvent<'a>) -> Option<Midi2Event> {
        match u {
            UnknownEvent::Midi2(e) => Some(e),
            _ => None,
        }
    }

    fn type_id() -> (r: u16) {
        EVENT_TYPE_MIDI2
    }

    fn size() -> (r: u32) {
        MIDI2_EVENT_SIZE
    }

    fn as_unknown(&self) -> (r: UnknownEvent<'a>) {
        UnknownEvent::Midi2(*self)
    }

    fn from_variant(u: &UnknownEvent<'a>) -> (r: Option<Midi2Event>) {
        match u {
            UnknownEvent::Midi2(e) => Some(*e),
            _ => None,
        }
    }

    proof fn lemma_widen_tag(self) {
    }

    proof fn lemma_variant_of_widen(self) {
    }
}

/// A MIDI system-exclusive message. Its bytes are borrowed, never owned: the
/// borrow ties the event to the call that produced the buffer (for a plugin,
/// the current host call; for a host, the plugin call that pushed it).
#[derive(Clone, Copy, Debug)]
pub struct MidiSysExEvent<'a> {
    pub time: u32,
    pub flags: u32,
    pub port_index: u16,
    pub buffer: &'a [u8],
}

impl<'a> MidiSysExEvent<'a> {
    pub open spec fn spec_data(&self) -> Seq<u8> {
        self.buffer@
    }

    pub open spec fn spec_header(&self) -> EventHeader {
        EventHeader {
            size: spec_midi_sysex_event_size(),
            time: self.time,
            space_id: CORE_EVENT_SPACE_ID,
            type_id: EVENT_TYPE_MIDI_SYSEX,
            flags: self.flags,
        }
    }

    /// Builds the event over `buffer`, whose length the record carries as a
    /// 32-bit count.
    pub fn new(header: EventHeader, port_index: u16, buffer: &'a [u8]) -> (r: MidiSysExEvent<'a>)
        requires
            buffer@.len() <= u32::MAX,
        ensures
            r.time == header.time,
            r.flags == header.flags,
            r.port_index == port_index,
            r.spec_data() == buffer@,
    {
        MidiSysExEvent { time: header.time, flags: header.flags, port_index, buffer }
    }

    pub fn header(&self) -> (r: EventHeader)
        ensures
            r == self.spec_header(),
    {
        EventHeader {
            size: midi_sysex_event_size(),
            time: self.time,
            space_id: CORE_EVENT_SPACE_ID,
            type_id: EVENT_TYPE_MIDI_SYSEX,
            flags: self.flags,
        }
    }

    pub fn port_index(&self) -> (r: u16)
        ensures
            r == self.port_index,
    {
        self.port_index
    }

    pub fn set_port_index(&mut self, port_index: u16)
        ensures
            final(self).port_index == port_index,
            final(self).spec_data() == old(self).spec_data(),
            final(self).time == old(self).time,
            final(self).flags == old(self).flags,
    {
        self.port_index = port_index;
    }

    /// The number of bytes in the message.
    pub fn buffer_size(&self) -> (r: u32)
        requires
            self.spec_data().len() <= u32::MAX,
        ensures
            r == self.spec_data().len(),
    {
        self.buffer.len() as u32
    }

    /// The message bytes, valid for as long as the producer's buffer is.
    pub fn data(&self) -> (r: &'a [u8])
        ensures
            r@ == self.spec_data(),
    {
        self.buffer
    }
}

/// Two system-exclusive events are equal when their ports and message bytes are.
impl<'a> PartialEq for MidiSysExEvent<'a> {
    fn eq(&self, other: &MidiSysExEvent<'a>) -> (r: bool) {
        if self.port_index != other.port_index || self.buffer.len() != other.buffer.len() {
            return false;
        }
        let mut i: usize = 0;
        while i < self.buffer.len()
            invariant
                self.buffer@.len() == other.buffer@.len(),
                i <= self.buffer@.len(),
                forall|j: int| 0 <= j < i ==> self.buffer@[j] == other.buffer@[j],
            decreases self.buffer@.len() - i,
        {
            if self.buffer[i] != other.buffer[i] {
                return false;
            }
            i = i + 1;
        }
        proof {
            assert(self.buffer@ =~= other.buffer@);
        }
        true
    }
}

impl<'a> vstd::std_specs::cmp::PartialEqSpecImpl for MidiSysExEvent<'a> {
    open spec fn obeys_eq_spec() -> bool {
        true
    }

    open spec fn eq_spec(&self, other: &MidiSysExEvent<'a>) -> bool {
        self.port_index == other.port_index && self.buffer@ == other.buffer@
    }
}

impl<'a> Eq for MidiSysExEvent<'a> {
}

impl<'a> Event<'a> for MidiSysExEvent<'a> {
    open spec fn spec_type_id() -> u16 {
        EVENT_TYPE_MIDI_SYSEX
    }

    open spec fn spec_size() -> u32 {
        spec_midi_sysex_event_size()
    }

    open spec fn spec_widen(self) -> UnknownEvent<'a> {
        UnknownEvent::MidiSysEx(self)
    }

    open spec fn spec_from_variant(u: UnknownEvent<'a>) -> Option<MidiSysExEvent<'a>> {
        match u {
            UnknownEvent::MidiSysEx(e) => Some(e),
            _ => None,
        }
    }

    fn type_id() -> (r: u16) {
        EVENT_TYPE_MIDI_SYSEX
    }

    fn size() -> (r: u32) {
        midi_sysex_event_size()
    }

    fn as_unknown(&self) -> (r: UnknownEvent<'a>) {
        UnknownEvent::MidiSysEx(*self)
    }

    fn from_variant(u: &UnknownEvent<'a>) -> (r: Option<MidiSysExEvent<'a>>) {
        match u {
            UnknownEvent::MidiSysEx(e) => Some(*e),
            _ => None,
        }
    }

    proof fn lemma_widen_tag(self) {
    }

    proof fn lemma_variant_of_widen(self) {
    }
}

/// The type-erased form every event can be viewed as. The tag in its header
/// says which concrete type it holds; [`UnknownEvent::as_event`] compares that
/// tag before handing the concrete event out.
#[derive(Clone, Copy, Debug)]
pub enum UnknownEvent<'a> {
    Midi(MidiEvent),
    MidiSysEx(MidiSysExEvent<'a>),
    Midi2(Midi2Event),
}

impl<'a> UnknownEvent<'a> {
    pub open spec fn header(&self) -> EventHeader {
        match self {
            UnknownEvent::Midi(e) => e.spec_header(),
            UnknownEvent::MidiSysEx(e) => e.spec_header(),
            UnknownEvent::Midi2(e) => e.spec_header(),
        }
    }

    /// The result of the checked downcast to `E`.
    pub open spec fn spec_as_event<E: Event<'a>>(self) -> Option<E> {
        if self.header().type_id == E::spec_type_id() && self.header().space_id == CORE_EVENT_SPACE_ID {
            E::spec_from_variant(self)
        } else {
            None
        }
    }

    pub fn get_header(&self) -> (r: EventHeader)
        ensures
            r == self.header(),
    {
        match self {
            UnknownEvent::Midi(e) => e.header(),
            UnknownEvent::MidiSysEx(e) => e.header(),
            UnknownEvent::Midi2(e) => e.header(),
        }
    }

    /// The event's time, in frames from the start of the processed block.
    pub fn time(&self) -> (r: u32)
        ensures
            r == self.header().time,
    {
        self.get_header().time
    }

    /// The concrete event, when the header's type identifier and space match
    /// the ones `E` declares; `None` otherwise.
    pub fn as_event<E: Event<'a>>(&self) -> (r: Option<E>)
        ensures
            r == self.spec_as_event::<E>(),
    {
        let header = self.get_header();
        if header.type_id == E::type_id() && header.space_id == CORE_EVENT_SPACE_ID {
            E::from_variant(self)
        } else {
            None
        }
    }
}

/// Widening any event and downcasting it to its own type gives it back.
pub proof fn lemma_as_event_of_widened<'a, T: Event<'a>>(e: T)
    ensures
        e.spec_widen().spec_as_event::<T>() == Some(e),
{
    e.lemma_widen_tag();
    e.lemma_variant_of_widen();
}

/// Downcasting a widened event to a type with another type identifier gives
/// nothing.
pub proof fn lemma_as_event_of_other_type<'a, T: Event<'a>, U: Event<'a>>(e: T)
    requires
        U::spec_type_id() != T::spec_type_id(),
    ensures
        e.spec_widen().spec_as_event::<U>() is None,
{
    e.lemma_widen_tag();
}

/// The event types of this module declare pairwise distinct type identifiers,
/// so a widened event downcasts to its own type only.
pub proof fn lemma_event_type_ids_distinct<'a>()
    ensures
        <MidiEvent as Event<'a>>::spec_type_id() != <Midi2Event as Event<'a>>::spec_type_id(),
        <MidiEvent as Event<'a>>::spec_type_id() != <MidiSysExEvent<'a> as Event<'a>>::spec_type_id(),
        <Midi2Event as Event<'a>>::spec_type_id() != <MidiSysExEvent<'a> as Event<'a>>::spec_type_id(),
{
}

} // verus!
