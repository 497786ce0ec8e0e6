//! Audio buffers: per-port channel arrays on the host side, and the views a
//! plugin gets of them for one process call. A channel may be marked
//! constant, in which case its first sample stands for every frame.
use vstd::prelude::*;

verus! {

/// Whether bit `c` of `mask` is set; channels from the 64th on have no bit.
pub open spec fn bit_set(mask: u64, c: int) -> bool {
    0 <= c < 64 && (mask >> (c as u64)) & 1u64 == 1u64
}

fn is_bit_set(mask: u64, c: usize) -> (r: bool)
    ensures
        r == bit_set(mask, c as int),
{
    c < 64 && (mask >> (c as u64)) & 1u64 == 1u64
}

proof fn lemma_set_bit(mask: u64, c: u64, d: u64)
    requires
        c < 64,
        d < 64,
    ensures
        ((mask | (1u64 << c)) >> d) & 1u64 == 1u64 <==> (d == c || (mask >> d) & 1u64 == 1u64),
{
    assert(((mask | (1u64 << c)) >> d) & 1u64 == 1u64 <==> (d == c || (mask >> d) & 1u64 == 1u64))
        by (bit_vector)
        requires
            c < 64,
            d < 64,
    ;
}

proof fn lemma_clear_bit(mask: u64, c: u64, d: u64)
    requires
        c < 64,
        d < 64,
    ensures
        ((mask & !(1u64 << c)) >> d) & 1u64 == 1u64 <==> (d != c && (mask >> d) & 1u64 == 1u64),
{
    assert(((mask & !(1u64 << c)) >> d) & 1u64 == 1u64 <==> (d != c && (mask >> d) & 1u64 == 1u64))
        by (bit_vector)
        requires
            c < 64,
            d < 64,
    ;
}

/// The mask with bit `c` set when `constant`, cleared otherwise.
pub(crate) fn with_bit(mask: u64, c: usize, constant: bool) -> (r: u64)
    ensures
        forall|d: int| #![trigger bit_set(r, d)] d != c ==> bit_set(r, d) == bit_set(mask, d),
        c < 64 ==> bit_set(r, c as int) == constant,
{
    if c >= 64 {
        return mask;
    }
    let r = if constant {
        mask | (1u64 << (c as u64))
    } else {
        mask & !(1u64 << (c as u64))
    };
    proof {
        assert forall|d: int| #![trigger bit_set(r, d)] 0 <= d < 64 implies bit_set(r, d) == (if d == c {
            constant
        } else {
            bit_set(mask, d)
        }) by {
            if constant {
                lemma_set_bit(mask, c as u64, d as u64);
            } else {
                lemma_clear_bit(mask, c as u64, d as u64);
            }
        }
    }
    r
}

/// One port's buffer: one sample array per channel, the constant-channel
/// mask, and the port's latency in frames.
pub struct AudioPortBuffer<S> {
    pub channels: Vec<Vec<S>>,
    pub constant_mask: u64,
    pub latency: u32,
}

impl<S: Copy> AudioPortBuffer<S> {
    pub open spec fn channel_len(&self, c: int) -> nat {
        self.channels@[c]@.len()
    }

    pub open spec fn is_constant(&self, c: int) -> bool {
        bit_set(self.constant_mask, c)
    }

    /// The sample a reader sees at frame `j` of channel `c`.
    pub open spec fn sample_at(&self, c: int, j: int) -> S {
        if self.is_constant(c) {
            self.channels@[c]@[0]
        } else {
            self.channels@[c]@[j]
        }
    }

    /// Every channel holds at least `frames` samples.
    pub open spec fn holds_frames(&self, frames: nat) -> bool {
        forall|c: int| 0 <= c < self.channels@.len() ==> #[trigger] self.channel_len(c) >= frames
    }

    /// A port whose channels are all plain sample arrays.
    pub fn new(channels: Vec<Vec<S>>, latency: u32) -> (r: AudioPortBuffer<S>)
        ensures
            r.channels@ == channels@,
            r.constant_mask == 0,
            r.latency == latency,
    {
        AudioPortBuffer { channels, constant_mask: 0, latency }
    }

    pub fn channel_count(&self) -> (r: usize)
        ensures
            r == self.channels@.len(),
    {
        self.channels.len()
    }

    pub fn is_channel_constant(&self, c: usize) -> (r: bool)
        ensures
            r == self.is_constant(c as int),
    {
        is_bit_set(self.constant_mask, c)
    }

    /// The sample array of channel `c`, or `None` past the last channel.
    pub fn channel(&self, c: usize) -> (r: Option<&[S]>)
        ensures
            c < self.channels@.len() ==> r is Some && r.unwrap()@ == self.channels@[c as int]@,
            c >= self.channels@.len() ==> r is None,
    {
        if c < self.channels.len() {
            Some(self.channels[c].as_slice())
        } else {
            None
        }
    }

    /// The shortest channel length, or `None` for a port without channels.
    pub fn min_channel_length(&self) -> (r: Option<usize>)
        ensures
            r is None <==> self.channels@.len() == 0,
            r matches Some(m) ==> self.holds_frames(m as nat) && exists|c: int|
                0 <= c < self.channels@.len() && #[trigger] self.channel_len(c) == m,
    {
        let mut min: Option<usize> = None;
        let mut c: usize = 0;
        while c < self.channels.len()
            invariant
                c <= self.channels@.len(),
                min is None <==> c == 0,
                min matches Some(m) ==> (forall|k: int| 0 <= k < c ==> #[trigger] self.channel_len(k) >= m)
                    && exists|k: int| 0 <= k < c && #[trigger] self.channel_len(k) == m,
            decreases self.channels@.len() - c,
        {
            let len = self.channels[c].len();
            let ghost before = min;
            min = match min {
                Some(m) => if len < m {
                    Some(len)
                } else {
                    Some(m)
                },
                None => Some(len),
            };
            proof {
                let m = min.unwrap();
                if before is Some && m == before.unwrap() {
                    let k = choose|k: int| 0 <= k < c && #[trigger] self.channel_len(k) == m;
                    assert(self.channel_len(k) == m);
                } else {
                    assert(self.channel_len(c as int) == m);
                }
            }
            c = c + 1;
        }
        min
    }
}

/// Every channel of every port holds at least `frames` samples.
pub open spec fn ports_hold_frames<S: Copy>(ports: Seq<AudioPortBuffer<S>>, frames: nat) -> bool {
    forall|p: int| 0 <= p < ports.len() ==> #[trigger] ports[p].holds_frames(frames)
}

/// Some port has a channel of exactly `len` samples.
pub open spec fn some_channel_of_length<S: Copy>(ports: Seq<AudioPortBuffer<S>>, len: nat) -> bool {
    exists|p: int, c: int|
        0 <= p < ports.len() && 0 <= c < ports[p].channels@.len() && #[trigger] ports[p].channel_len(c) == len
}

/// Some port has at least one channel.
pub open spec fn has_channels<S: Copy>(ports: Seq<AudioPortBuffer<S>>) -> bool {
    exists|p: int| 0 <= p < ports.len() && #[trigger] ports[p].channels@.len() > 0
}

/// The shortest channel over all ports, `None` when there is no channel.
fn min_over_ports<S: Copy>(ports: &Vec<AudioPortBuffer<S>>) -> (r: Option<usize>)
    ensures
        r is None <==> !has_channels(ports@),
        r matches Some(m) ==> ports_hold_frames(ports@, m as nat) && some_channel_of_length(ports@, m as nat),
{
    let mut min: Option<usize> = None;
    let mut p: usize = 0;
    while p < ports.len()
        invariant
            p <= ports@.len(),
            min is None <==> !has_channels(ports@.subrange(0, p as int)),
            min matches Some(m) ==> ports_hold_frames(ports@.subrange(0, p as int), m as nat)
                && some_channel_of_length(ports@.subrange(0, p as int), m as nat),
        decreases ports@.len() - p,
    {
        let port_min = ports[p].min_channel_length();
        let ghost before = ports@.subrange(0, p as int);
        let ghost after = ports@.subrange(0, p + 1);
        proof {
            assert forall|q: int| 0 <= q < before.len() implies #[trigger] after[q] == before[q] by {}
            assert(after[p as int] == ports@[p as int]);
        }
        let next = match (min, port_min) {
            (Some(m), Some(n)) => if n < m {
                Some(n)
            } else {
                Some(m)
            },
            (Some(m), None) => Some(m),
            (None, n) => n,
        };
        proof {
            if has_channels(after) {
                let q = choose|q: int| 0 <= q < after.len() && #[trigger] after[q].channels@.len() > 0;
                if q < p {
                    assert(has_channels(before));
                }
            }
            if has_channels(before) {
                let q = choose|q: int| 0 <= q < before.len() && #[trigger] before[q].channels@.len() > 0;
                assert(after[q].channels@.len() > 0);
            }
            if port_min is Some {
                assert(after[p as int].channels@.len() > 0);
            }
            match next {
                Some(m) => {
                    assert forall|q: int| 0 <= q < after.len() implies #[trigger] after[q].holds_frames(m as nat) by {
                        if q < p {
                            assert(before[q].holds_frames(min.unwrap() as nat));
                        }
                    }
                    if min is Some && m == min.unwrap() {
                        let (q, c) = choose|q: int, c: int|
                            0 <= q < before.len() && 0 <= c < before[q].channels@.len()
                                && #[trigger] before[q].channel_len(c) == m;
                        assert(after[q].channel_len(c) == m);
                    } else {
                        let c = choose|c: int|
                            0 <= c < ports@[p as int].channels@.len() && #[trigger] ports@[p as int].channel_len(c)
                                == m;
                        assert(after[p as int].channel_len(c) == m);
                    }
                },
                None => {},
            }
        }
        min = next;
        p = p + 1;
    }
    proof {
        assert(ports@.subrange(0, ports@.len() as int) =~= ports@);
    }
    min
}

/// The audio inputs a host hands to one process call.
pub struct InputAudioBuffers<S> {
    ports: Vec<AudioPortBuffer<S>>,
}

impl<S: Copy> View for InputAudioBuffers<S> {
    type V = Seq<AudioPortBuffer<S>>;

    closed spec fn view(&self) -> Seq<AudioPortBuffer<S>> {
        self.ports@
    }
}

impl<S: Copy> InputAudioBuffers<S> {
    pub fn new(ports: Vec<AudioPortBuffer<S>>) -> (r: InputAudioBuffers<S>)
        ensures
            r@ == ports@,
    {
        InputAudioBuffers { ports }
    }

    pub fn port_count(&self) -> (r: usize)
        ensures
            r == self@.len(),
    {
        self.ports.len()
    }

    pub fn port(&self, index: usize) -> (r: Option<&AudioPortBuffer<S>>)
        ensures
            index < self@.len() ==> r == Some(&self@[index as int]),
            index >= self@.len() ==> r is None,
    {
        if index < self.ports.len() {
            Some(&self.ports[index])
        } else {
            None
        }
    }

    pub fn as_ports(&self) -> (r: &[AudioPortBuffer<S>])
        ensures
            r@ == self@,
    {
        self.ports.as_slice()
    }

    /// The shortest channel over all ports, `None` when no port has a channel.
    pub fn min_channel_buffer_length(&self) -> (r: Option<usize>)
        ensures
            r is None <==> !has_channels(self@),
            r matches Some(m) ==> ports_hold_frames(self@, m as nat) && some_channel_of_length(self@, m as nat),
    {
        min_over_ports(&self.ports)
    }
}

/// The audio outputs a host hands to one process call, read back afterwards.
pub struct OutputAudioBuffers<S> {
    ports: Vec<AudioPortBuffer<S>>,
}

impl<S: Copy> View for OutputAudioBuffers<S> {
    type V = Seq<AudioPortBuffer<S>>;

    closed spec fn view(&self) -> Seq<AudioPortBuffer<S>> {
        self.ports@
    }
}

impl<S: Copy> OutputAudioBuffers<S> {
    pub fn new(ports: Vec<AudioPortBuffer<S>>) -> (r: OutputAudioBuffers<S>)
        ensures
            r@ == ports@,
    {
        OutputAudioBuffers { ports }
    }

    pub fn port_count(&self) -> (r: usize)
        ensures
            r == self@.len(),
    {
        self.ports.len()
    }

    pub fn port(&self, index: usize) -> (r: Option<&AudioPortBuffer<S>>)
        ensures
            index < self@.len() ==> r == Some(&self@[index as int]),
            index >= self@.len() ==> r is None,
    {
        if index < self.ports.len() {
            Some(&self.ports[index])
        } else {
            None
        }
    }

    pub fn as_ports(&self) -> (r: &[AudioPortBuffer<S>])
        ensures
            r@ == self@,
    {
        self.ports.as_slice()
    }

    /// The port buffers, for the plugin to write into.
    pub fn as_ports_mut(&mut self) -> (r: &mut [AudioPortBuffer<S>])
        ensures
            r@ == old(self)@,
            final(self)@ == final(r)@,
    {
        self.ports.as_mut_slice()
    }

    /// The shortest channel over all ports, `None` when no port has a channel.
    pub fn min_channel_buffer_length(&self) -> (r: Option<usize>)
        ensures
            r is None <==> !has_channels(self@),
            r matches Some(m) ==> ports_hold_frames(self@, m as nat) && some_channel_of_length(self@, m as nat),
    {
        min_over_ports(&self.ports)
    }
}

} // verus!
