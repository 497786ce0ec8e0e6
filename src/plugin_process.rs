//! What a plugin sees of one process call: its timing, and views of the
//! host's audio ports, borrowed for the duration of the call.
use vstd::prelude::*;
use crate::audio::{AudioPortBuffer, ports_hold_frames, with_bit};
use crate::event_io::{InputEvents, OutputEvents};

verus! {

/// The timing of one process call: the steady frame counter at its start, the
/// number of frames to process, and the transport state when the host has one.
pub struct Process<T> {
    steady_time: i64,
    frames_count: u32,
    transport: Option<T>,
}

impl<T> Process<T> {
    pub closed spec fn spec_steady_time(&self) -> i64 {
        self.steady_time
    }

    pub closed spec fn spec_frames_count(&self) -> u32 {
        self.frames_count
    }

    pub closed spec fn spec_transport(&self) -> Option<T> {
        self.transport
    }

    pub fn new(steady_time: i64, frames_count: u32, transport: Option<T>) -> (r: Process<T>)
        ensures
            r.spec_steady_time() == steady_time,
            r.spec_frames_count() == frames_count,
            r.spec_transport() == transport,
    {
        Process { steady_time, frames_count, transport }
    }

    pub fn frames_count(&self) -> (r: u32)
        ensures
            r == self.spec_frames_count(),
    {
        self.frames_count
    }

    pub fn steady_time(&self) -> (r: i64)
        ensures
            r == self.spec_steady_time(),
    {
        self.steady_time
    }

    /// The transport state, or `None` when the host passed none.
    pub fn transport(&self) -> (r: Option<&T>)
        ensures
            r matches Some(t) ==> self.spec_transport() == Some(*t),
            r is None <==> self.spec_transport() is None,
    {
        match &self.transport {
            Some(t) => Some(t),
            None => None,
        }
    }
}

/// The event queues of one process call: the events the host sends, and the
/// queue the plugin's output events go to.
pub struct Events<'a, 'e> {
    pub input: &'a InputEvents<'e>,
    pub output: &'a mut OutputEvents<'e>,
}

impl<'a, 'e> Events<'a, 'e> {
    pub fn new(input: &'a InputEvents<'e>, output: &'a mut OutputEvents<'e>) -> (r: Events<'a, 'e>)
        ensures
            r.input == input,
            *r.output == *old(output),
            *final(output) == *final(r.output),
    {
        Events { input, output }
    }
}

/// Whether every channel of `port` holds at least `frames` samples.
fn port_holds_frames<S: Copy>(port: &AudioPortBuffer<S>, frames: u32) -> (r: bool)
    ensures
        r == port.holds_frames(frames as nat),
{
    let mut c: usize = 0;
    while c < port.channels.len()
        invariant
            c <= port.channels@.len(),
            forall|k: int| 0 <= k < c ==> #[trigger] port.channel_len(k) >= frames,
        decreases port.channels@.len() - c,
    {
        if port.channels[c].len() < frames as usize {
            assert(port.channel_len(c as int) < frames);
            return false;
        }
        c = c + 1;
    }
    true
}

/// Whether every channel of every port holds at least `frames` samples.
fn ports_hold<S: Copy>(ports: &[AudioPortBuffer<S>], frames: u32) -> (r: bool)
    ensures
        r == ports_hold_frames(ports@, frames as nat),
{
    let mut p: usize = 0;
    while p < ports.len()
        invariant
            p <= ports@.len(),
            forall|k: int| 0 <= k < p ==> #[trigger] ports@[k].holds_frames(frames as nat),
        decreases ports@.len() - p,
    {
        if !port_holds_frames(&ports[p], frames) {
            return false;
        }
        p = p + 1;
    }
    true
}

/// The audio ports of one process call, borrowed from the host's buffers.
pub struct Audio<'a, S> {
    inputs: &'a [AudioPortBuffer<S>],
    outputs: &'a mut [AudioPortBuffer<S>],
    frames_count: u32,
}

impl<'a, S: Copy> Audio<'a, S> {
    pub closed spec fn spec_inputs(&self) -> Seq<AudioPortBuffer<S>> {
        self.inputs@
    }

    pub closed spec fn spec_outputs(&self) -> Seq<AudioPortBuffer<S>> {
        self.outputs@
    }

    pub closed spec fn spec_frames_count(&self) -> u32 {
        self.frames_count
    }

    /// Every channel of every port covers the frames of the call.
    pub open spec fn wf(&self) -> bool {
        ports_hold_frames(self.spec_inputs(), self.spec_frames_count() as nat) && ports_hold_frames(
            self.spec_outputs(),
            self.spec_frames_count() as nat,
        )
    }

    /// Views over the given ports for `frames_count` frames; `None` when a
    /// channel is shorter than that.
    pub fn from_buffers(
        inputs: &'a [AudioPortBuffer<S>],
        outputs: &'a mut [AudioPortBuffer<S>],
        frames_count: u32,
    ) -> (r: Option<Audio<'a, S>>)
        ensures
            r is Some <==> ports_hold_frames(inputs@, frames_count as nat) && ports_hold_frames(
                old(outputs)@,
                frames_count as nat,
            ),
            r matches Some(a) ==> a.wf() && a.spec_inputs() == inputs@ && a.spec_outputs() == old(outputs)@
                && a.spec_frames_count() == frames_count,
    {
        if ports_hold(inputs, frames_count) && ports_hold(outputs, frames_count) {
            Some(Audio { inputs, outputs, frames_count })
        } else {
            None
        }
    }

    pub fn frames_count(&self) -> (r: u32)
        ensures
            r == self.spec_frames_count(),
    {
        self.frames_count
    }

    pub fn input_count(&self) -> (r: usize)
        ensures
            r == self.spec_inputs().len(),
    {
        self.inputs.len()
    }

    pub fn output_count(&self) -> (r: usize)
        ensures
            r == self.spec_outputs().len(),
    {
        self.outputs.len()
    }

    /// The input port at `index`, or `None` past the last one.
    pub fn input(&self, index: usize) -> (r: Option<InputPort<'_, S>>)
        requires
            self.wf(),
        ensures
            index < self.spec_inputs().len() ==> (r matches Some(p) && p.wf() && p.spec_buffer()
                == self.spec_inputs()[index as int] && p.spec_frames_count() == self.spec_frames_count()),
            index >= self.spec_inputs().len() ==> r is None,
    {
        if index < self.inputs.len() {
            Some(InputPort { buffer: &self.inputs[index], frames_count: self.frames_count })
        } else {
            None
        }
    }

    /// The output port at `index`, or `None` past the last one. Writes through
    /// the port land in this call's output buffers.
    pub fn output(&mut self, index: usize) -> (r: Option<OutputPort<'_, S>>)
        requires
            old(self).wf(),
        ensures
            index < old(self).spec_outputs().len() ==> (r matches Some(p) && p.wf() && p.spec_buffer()
                == old(self).spec_outputs()[index as int] && p.spec_frames_count()
                == old(self).spec_frames_count()),
            index < old(self).spec_outputs().len() ==> final(self).spec_outputs() == old(self).spec_outputs().update(
                index as int,
                *final(r->Some_0.buffer),
            ),
            index >= old(self).spec_outputs().len() ==> r is None && final(self).spec_outputs() == old(
                self,
            ).spec_outputs(),
            final(self).spec_inputs() == old(self).spec_inputs(),
            final(self).spec_frames_count() == old(self).spec_frames_count(),
    {
        if index < self.outputs.len() {
            let frames_count = self.frames_count;
            Some(OutputPort { buffer: &mut self.outputs[index], frames_count })
        } else {
            None
        }
    }

    /// The input and output ports paired by index, one pair per index below
    /// the larger port count; a side without a port at that index is `None`.
    pub fn port_pairs(&mut self) -> (r: Vec<PortPair<'_, S>>)
        requires
            old(self).wf(),
        ensures
            r@.len() == if old(self).spec_inputs().len() > old(self).spec_outputs().len() {
                old(self).spec_inputs().len()
            } else {
                old(self).spec_outputs().len()
            },
            forall|i: int|
                0 <= i < r@.len() ==> (#[trigger] r@[i]).input is Some == (i < old(self).spec_inputs().len()),
            forall|i: int|
                0 <= i < r@.len() ==> (#[trigger] r@[i]).output is Some == (i < old(self).spec_outputs().len()),
            forall|i: int|
                0 <= i < r@.len() && (#[trigger] r@[i]).input is Some ==> r@[i].input.unwrap().wf()
                    && r@[i].input.unwrap().spec_buffer() == old(self).spec_inputs()[i],
            forall|i: int|
                0 <= i < r@.len() && (#[trigger] r@[i]).output is Some ==> r@[i].output.unwrap().wf()
                    && r@[i].output.unwrap().spec_buffer() == old(self).spec_outputs()[i],
            final(self).spec_inputs() == old(self).spec_inputs(),
            final(self).spec_frames_count() == old(self).spec_frames_count(),
            final(self).spec_outputs().len() == old(self).spec_outputs().len(),
            forall|i: int|
                0 <= i < old(self).spec_outputs().len() ==> final(self).spec_outputs()[i] == *final(
                    (#[trigger] r@[i]).output.unwrap().buffer)
                ,
    {
        let frames_count = self.frames_count;
        let inputs: &[AudioPortBuffer<S>] = self.inputs;
        let n_in = inputs.len();
        let n_out = self.outputs.len();
        let ghost outs0 = self.outputs@;
        let mut rest: &mut [AudioPortBuffer<S>] = &mut *self.outputs;
        let ghost f0 = final(rest)@;
        let mut pairs: Vec<PortPair<'_, S>> = Vec::new();
        let mut i: usize = 0;
        while i < n_in || i < n_out
            invariant
                n_in == inputs@.len(),
                n_out == outs0.len(),
                inputs@ == old(self).spec_inputs(),
                outs0 == old(self).spec_outputs(),
                ports_hold_frames(inputs@, frames_count as nat),
                ports_hold_frames(outs0, frames_count as nat),
                frames_count == old(self).spec_frames_count(),
                i <= n_in || i <= n_out,
                pairs@.len() == i,
                i <= n_out ==> rest@ == outs0.subrange(i as int, n_out as int),
                i > n_out ==> rest@.len() == 0,
                i <= n_out ==> f0.len() == i + final(rest)@.len(),
                i > n_out ==> f0.len() == n_out + final(rest)@.len(),
                i <= n_out ==> forall|k: int| 0 <= k < final(rest)@.len() ==> f0[i + k] == #[trigger] final(rest)@[k],
                forall|k: int|
                    0 <= k < i && k < n_out ==> f0[k] == *final((#[trigger] pairs@[k]).output.unwrap().buffer),
                forall|k: int| 0 <= k < i ==> (#[trigger] pairs@[k]).input is Some == (k < n_in),
                forall|k: int| 0 <= k < i ==> (#[trigger] pairs@[k]).output is Some == (k < n_out),
                forall|k: int|
                    0 <= k < i && (#[trigger] pairs@[k]).input is Some ==> pairs@[k].input.unwrap().wf()
                        && pairs@[k].input.unwrap().spec_buffer() == inputs@[k],
                forall|k: int|
                    0 <= k < i && (#[trigger] pairs@[k]).output is Some ==> pairs@[k].output.unwrap().wf()
                        && pairs@[k].output.unwrap().spec_buffer() == outs0[k],
            decreases (if n_in > n_out { n_in } else { n_out }) - i,
        {
            let input = if i < n_in {
                assert(inputs@[i as int].holds_frames(frames_count as nat));
                Some(InputPort { buffer: &inputs[i], frames_count })
            } else {
                None
            };
            let ghost prev = final(rest)@;
            let output = if i < n_out {
                let current = rest;
                assert(final(current)@ == prev);
                let (first, tail) = current.split_at_mut(1);
                rest = tail;
                let ghost fl = final(first)@;
                assert(outs0[i as int].holds_frames(frames_count as nat));
                let out = match first.first_mut() {
                    Some(buffer) => {
                        assert(fl.len() == 1 && fl[0] == *final(buffer));
                        assert(prev == fl + final(rest)@);
                        assert(prev[0] == *final(buffer));
                        Some(OutputPort { buffer, frames_count })
                    },
                    None => None,
                };
                assert forall|k: int| 0 <= k < final(rest)@.len() implies f0[i + 1 + k]
                    == #[trigger] final(rest)@[k] by {
                    assert(prev == fl + final(rest)@);
                    assert(prev[k + 1] == final(rest)@[k]);
                }
                out
            } else {
                None
            };
            pairs.push(PortPair { input, output });
            i = i + 1;
        }
        pairs
    }
}

/// An input port for one process call.
pub struct InputPort<'b, S> {
    buffer: &'b AudioPortBuffer<S>,
    frames_count: u32,
}

/// What a channel holds for the frames of one call: one value standing for
/// every frame, or the samples themselves.
pub enum ChannelData<'b, S> {
    Constant(S),
    Samples(&'b [S]),
}

impl<'b, S: Copy> InputPort<'b, S> {
    pub closed spec fn spec_buffer(&self) -> AudioPortBuffer<S> {
        *self.buffer
    }

    pub closed spec fn spec_frames_count(&self) -> u32 {
        self.frames_count
    }

    pub open spec fn wf(&self) -> bool {
        self.spec_buffer().holds_frames(self.spec_frames_count() as nat)
    }

    pub fn frames_count(&self) -> (r: u32)
        ensures
            r == self.spec_frames_count(),
    {
        self.frames_count
    }

    pub fn channel_count(&self) -> (r: usize)
        ensures
            r == self.spec_buffer().channels@.len(),
    {
        self.buffer.channels.len()
    }

    pub fn is_channel_constant(&self, c: usize) -> (r: bool)
        ensures
            r == self.spec_buffer().is_constant(c as int),
    {
        self.buffer.is_channel_constant(c)
    }

    /// The sample at frame `j` of channel `c`, reading a constant channel's
    /// value for every frame.
    pub fn sample(&self, c: usize, j: usize) -> (r: S)
        requires
            self.wf(),
            c < self.spec_buffer().channels@.len(),
            j < self.spec_frames_count(),
        ensures
            r == self.spec_buffer().sample_at(c as int, j as int),
    {
        assert(self.spec_buffer().channel_len(c as int) >= self.spec_frames_count());
        if self.buffer.is_channel_constant(c) {
            self.buffer.channels[c][0]
        } else {
            self.buffer.channels[c][j]
        }
    }

    /// The contents of channel `c` over the frames of the call, or `None` past
    /// the last channel.
    pub fn channel(&self, c: usize) -> (r: Option<ChannelData<'b, S>>)
        requires
            self.wf(),
        ensures
            c >= self.spec_buffer().channels@.len() ==> r is None,
            c < self.spec_buffer().channels@.len() ==> r is Some,
            r matches Some(ChannelData::Constant(v)) ==> self.spec_buffer().is_constant(c as int)
                && self.spec_frames_count() > 0 && v == self.spec_buffer().sample_at(c as int, 0),
            r matches Some(ChannelData::Samples(s)) ==> s@ == self.spec_buffer().channels@[c as int]@.subrange(
                0,
                self.spec_frames_count() as int,
            ) && (self.spec_buffer().is_constant(c as int) ==> self.spec_frames_count() == 0),
    {
        let buffer: &'b AudioPortBuffer<S> = self.buffer;
        if c >= buffer.channels.len() {
            return None;
        }
        assert(self.spec_buffer().channel_len(c as int) >= self.spec_frames_count());
        let channel: &'b Vec<S> = &buffer.channels[c];
        if buffer.is_channel_constant(c) && self.frames_count > 0 {
            Some(ChannelData::Constant(channel[0]))
        } else {
            Some(ChannelData::Samples(vstd::slice::slice_subrange(channel.as_slice(), 0, self.frames_count as usize)))
        }
    }
}

/// An output port for one process call; writes go to the host's buffer.
pub struct OutputPort<'b, S> {
    pub buffer: &'b mut AudioPortBuffer<S>,
    pub frames_count: u32,
}

impl<'b, S: Copy> OutputPort<'b, S> {
    pub closed spec fn spec_buffer(&self) -> AudioPortBuffer<S> {
        *self.buffer
    }

    pub closed spec fn spec_frames_count(&self) -> u32 {
        self.frames_count
    }

    pub open spec fn wf(&self) -> bool {
        self.spec_buffer().holds_frames(self.spec_frames_count() as nat)
    }

    pub fn frames_count(&self) -> (r: u32)
        ensures
            r == self.spec_frames_count(),
    {
        self.frames_count
    }

    pub fn channel_count(&self) -> (r: usize)
        ensures
            r == self.spec_buffer().channels@.len(),
    {
        self.buffer.channels.len()
    }

    pub fn is_channel_constant(&self, c: usize) -> (r: bool)
        ensures
            r == self.spec_buffer().is_constant(c as int),
    {
        self.buffer.is_channel_constant(c)
    }

    /// The sample at frame `j` of channel `c`, as a reader sees it.
    pub fn sample(&self, c: usize, j: usize) -> (r: S)
        requires
            self.wf(),
            c < self.spec_buffer().channels@.len(),
            j < self.spec_frames_count(),
        ensures
            r == self.spec_buffer().sample_at(c as int, j as int),
    {
        assert(self.spec_buffer().channel_len(c as int) >= self.spec_frames_count());
        if self.buffer.is_channel_constant(c) {
            self.buffer.channels[c][0]
        } else {
            self.buffer.channels[c][j]
        }
    }

    /// Copies the frames of channel `c` of `input` into channel `c`, and marks
    /// the channel constant when `constant` is set (the input channel then
    /// being constant too). Other channels and the latency are left alone.
    fn write_channel(&mut self, c: usize, input: &InputPort<'_, S>, constant: bool)
        requires
            old(self).wf(),
            input.wf(),
            c < old(self).spec_buffer().channels@.len(),
            c < input.spec_buffer().channels@.len(),
            old(self).spec_frames_count() == input.spec_frames_count(),
            constant ==> c < 64 && input.spec_buffer().is_constant(c as int),
            !constant ==> !input.spec_buffer().is_constant(c as int) || c >= 64,
        ensures
            final(self).wf(),
            final(self).spec_frames_count() == old(self).spec_frames_count(),
            final(self).spec_buffer().latency == old(self).spec_buffer().latency,
            final(self).spec_buffer().channels@.len() == old(self).spec_buffer().channels@.len(),
            final(self).spec_buffer().channel_len(c as int) == old(self).spec_buffer().channel_len(c as int),
            forall|k: int|
                #![trigger final(self).spec_buffer().channels@[k]]
                0 <= k < old(self).spec_buffer().channels@.len() && k != c ==> final(self).spec_buffer().channels@[k]
                    == old(self).spec_buffer().channels@[k] && final(self).spec_buffer().is_constant(k)
                    == old(self).spec_buffer().is_constant(k),
            forall|j: int|
                0 <= j < old(self).spec_frames_count() ==> #[trigger] final(self).spec_buffer().sample_at(c as int, j)
                    == input.spec_buffer().sample_at(c as int, j),
            forall|j: int|
                0 <= j < old(self).spec_frames_count() ==> #[trigger] final(self).spec_buffer().channels@[c as int]@[j]
                    == input.spec_buffer().sample_at(c as int, j),
    {
        let frames = self.frames_count as usize;
        assert(self.spec_buffer().channel_len(c as int) >= frames);
        assert(input.spec_buffer().channel_len(c as int) >= frames);
        let ghost old_channels = self.buffer.channels@;
        let channel = &mut self.buffer.channels[c];
        let mut j: usize = 0;
        while j < frames
            invariant
                frames == input.spec_frames_count(),
                input.wf(),
                c < input.spec_buffer().channels@.len(),
                input.spec_buffer().channel_len(c as int) >= frames,
                channel@.len() == old_channels[c as int]@.len(),
                channel@.len() >= frames,
                j <= frames,
                forall|k: int| 0 <= k < j ==> channel@[k] == input.spec_buffer().sample_at(c as int, k),
            decreases frames - j,
        {
            let v = input.sample(c, j);
            channel[j] = v;
            j = j + 1;
        }
        self.buffer.constant_mask = with_bit(self.buffer.constant_mask, c, constant);
        proof {
            assert forall|k: int| 0 <= k < self.spec_buffer().channels@.len() implies #[trigger]
                self.spec_buffer().channel_len(k) >= self.spec_frames_count() by {
                if k != c {
                    assert(old(self).spec_buffer().channel_len(k) >= self.spec_frames_count());
                }
            }
            assert forall|j: int| 0 <= j < frames implies #[trigger] self.spec_buffer().sample_at(c as int, j)
                == input.spec_buffer().sample_at(c as int, j) by {
                if constant {
                    assert(self.spec_buffer().is_constant(c as int));
                }
            }
        }
    }

    /// Copies `input` into this port over the frames of the call, channel by
    /// channel up to the smaller channel count. A constant input channel stays
    /// constant in the output; every other written channel is a plain array.
    /// Afterwards every written frame reads as the input's frame.
    pub fn copy_from(&mut self, input: &InputPort<'_, S>)
        requires
            old(self).wf(),
            input.wf(),
            old(self).spec_frames_count() == input.spec_frames_count(),
        ensures
            final(self).wf(),
            final(self).spec_frames_count() == old(self).spec_frames_count(),
            final(self).spec_buffer().channels@.len() == old(self).spec_buffer().channels@.len(),
            final(self).spec_buffer().latency == old(self).spec_buffer().latency,
            forall|c: int, j: int|
                0 <= c < old(self).spec_buffer().channels@.len() && 0 <= c < input.spec_buffer().channels@.len() && 0
                    <= j < old(self).spec_frames_count() ==> #[trigger] final(self).spec_buffer().sample_at(c, j)
                    == input.spec_buffer().sample_at(c, j),
            forall|c: int, j: int|
                0 <= c < old(self).spec_buffer().channels@.len() && 0 <= c < input.spec_buffer().channels@.len() && 0
                    <= j < old(self).spec_frames_count() ==> #[trigger] final(self).spec_buffer().channels@[c]@[j]
                    == input.spec_buffer().sample_at(c, j),
            forall|c: int|
                input.spec_buffer().channels@.len() <= c < old(self).spec_buffer().channels@.len()
                    ==> #[trigger] final(self).spec_buffer().channels@[c] == old(self).spec_buffer().channels@[c],
    {
        let n_out = self.buffer.channels.len();
        let n_in = input.buffer.channels.len();
        let count = if n_in < n_out {
            n_in
        } else {
            n_out
        };
        let mut c: usize = 0;
        while c < count
            invariant
                count <= n_out,
                count <= n_in,
                n_out == old(self).spec_buffer().channels@.len(),
                n_in == input.spec_buffer().channels@.len(),
                input.wf(),
                self.wf(),
                self.spec_frames_count() == old(self).spec_frames_count(),
                self.spec_frames_count() == input.spec_frames_count(),
                self.spec_buffer().channels@.len() == n_out,
                self.spec_buffer().latency == old(self).spec_buffer().latency,
                c <= count,
                forall|k: int, j: int|
                    0 <= k < c && 0 <= j < self.spec_frames_count() ==> #[trigger] self.spec_buffer().sample_at(k, j)
                        == input.spec_buffer().sample_at(k, j),
                forall|k: int, j: int|
                    0 <= k < c && 0 <= j < self.spec_frames_count() ==> #[trigger] self.spec_buffer().channels@[k]@[j]
                        == input.spec_buffer().sample_at(k, j),
                forall|k: int| c <= k < n_out ==> #[trigger] self.spec_buffer().channels@[k] == old(self).spec_buffer().channels@[k],
            decreases count - c,
        {
            let constant = input.is_channel_constant(c);
            let ghost before = self.spec_buffer();
            self.write_channel(c, input, constant);
            proof {
                assert forall|k: int, j: int|
                    0 <= k <= c && 0 <= j < self.spec_frames_count() implies #[trigger] self.spec_buffer().sample_at(
                    k,
                    j,
                ) == input.spec_buffer().sample_at(k, j) by {
                    if k < c {
                        assert(self.spec_buffer().channels@[k] == before.channels@[k]);
                        assert(before.sample_at(k, j) == input.spec_buffer().sample_at(k, j));
                    }
                }
                assert forall|k: int, j: int|
                    0 <= k <= c && 0 <= j < self.spec_frames_count() implies #[trigger] self.spec_buffer().channels@[k]@[j]
                    == input.spec_buffer().sample_at(k, j) by {
                    if k < c {
                        assert(self.spec_buffer().channels@[k] == before.channels@[k]);
                        assert(before.channels@[k]@[j] == input.spec_buffer().sample_at(k, j));
                    }
                }
                assert forall|k: int| c + 1 <= k < n_out implies #[trigger] self.spec_buffer().channels@[k]
                    == old(self).spec_buffer().channels@[k] by {
                    assert(self.spec_buffer().channels@[k] == before.channels@[k]);
                }
            }
            c = c + 1;
        }
    }

    /// Sets every frame of channel `c` to `value` and marks the channel
    /// constant when it has a mask bit.
    pub fn fill_constant(&mut self, c: usize, value: S)
        requires
            old(self).wf(),
            c < old(self).spec_buffer().channels@.len(),
        ensures
            final(self).wf(),
            final(self).spec_frames_count() == old(self).spec_frames_count(),
            final(self).spec_buffer().channels@.len() == old(self).spec_buffer().channels@.len(),
            forall|j: int|
                0 <= j < old(self).spec_frames_count() ==> #[trigger] final(self).spec_buffer().sample_at(c as int, j)
                    == value,
            forall|k: int|
                #![trigger final(self).spec_buffer().channels@[k]]
                0 <= k < old(self).spec_buffer().channels@.len() && k != c ==> final(self).spec_buffer().channels@[k]
                    == old(self).spec_buffer().channels@[k] && final(self).spec_buffer().is_constant(k)
                    == old(self).spec_buffer().is_constant(k),
    {
        let frames = self.frames_count as usize;
        assert(self.spec_buffer().channel_len(c as int) >= frames);
        let ghost old_channels = self.buffer.channels@;
        let channel = &mut self.buffer.channels[c];
        let mut j: usize = 0;
        while j < frames
            invariant
                channel@.len() == old_channels[c as int]@.len(),
                channel@.len() >= frames,
                j <= frames,
                forall|k: int| 0 <= k < j ==> channel@[k] == value,
            decreases frames - j,
        {
            channel[j] = value;
            j = j + 1;
        }
        self.buffer.constant_mask = with_bit(self.buffer.constant_mask, c, true);
        proof {
            assert forall|k: int| 0 <= k < self.spec_buffer().channels@.len() implies #[trigger]
                self.spec_buffer().channel_len(k) >= self.spec_frames_count() by {
                if k != c {
                    assert(old(self).spec_buffer().channel_len(k) >= self.spec_frames_count());
                }
            }
        }
    }

    /// Sets frame `j` of a plain (non-constant) channel `c` to `value`.
    pub fn set_sample(&mut self, c: usize, j: usize, value: S)
        requires
            old(self).wf(),
            c < old(self).spec_buffer().channels@.len(),
            j < old(self).spec_frames_count(),
            !old(self).spec_buffer().is_constant(c as int),
        ensures
            final(self).wf(),
            final(self).spec_frames_count() == old(self).spec_frames_count(),
            final(self).spec_buffer().constant_mask == old(self).spec_buffer().constant_mask,
            final(self).spec_buffer().channels@.len() == old(self).spec_buffer().channels@.len(),
            final(self).spec_buffer().channels@[c as int]@ == old(self).spec_buffer().channels@[c as int]@.update(
                j as int,
                value,
            ),
            forall|k: int|
                #![trigger final(self).spec_buffer().channels@[k]]
                0 <= k < old(self).spec_buffer().channels@.len() && k != c ==> final(self).spec_buffer().channels@[k]
                    == old(self).spec_buffer().channels@[k],
    {
        assert(self.spec_buffer().channel_len(c as int) >= self.spec_frames_count());
        let channel = &mut self.buffer.channels[c];
        channel[j] = value;
        proof {
            assert forall|k: int| 0 <= k < self.spec_buffer().channels@.len() implies #[trigger]
                self.spec_buffer().channel_len(k) >= self.spec_frames_count() by {
                if k != c {
                    assert(old(self).spec_buffer().channel_len(k) >= self.spec_frames_count());
                }
            }
        }
    }
}

/// The input and output ports that share one index.
pub struct PortPair<'b, S> {
    pub input: Option<InputPort<'b, S>>,
    pub output: Option<OutputPort<'b, S>>,
}

/// Copying a constant input channel of value `v` into an output port, as
/// [`OutputPort::copy_from`] does, leaves every written frame of that channel
/// equal to `v`, both as a reader sees it and in the sample array itself.
pub proof fn lemma_constant_input_copies_to_value<S: Copy>(
    input: AudioPortBuffer<S>,
    output: AudioPortBuffer<S>,
    frames: nat,
    c: int,
    v: S,
)
    requires
        0 <= c < input.channels@.len(),
        0 <= c < output.channels@.len(),
        input.is_constant(c),
        input.channels@[c]@.len() > 0,
        input.channels@[c]@[0] == v,
        forall|j: int| 0 <= j < frames ==> #[trigger] output.sample_at(c, j) == input.sample_at(c, j),
        forall|j: int| 0 <= j < frames ==> #[trigger] output.channels@[c]@[j] == input.sample_at(c, j),
    ensures
        forall|j: int| 0 <= j < frames ==> #[trigger] output.sample_at(c, j) == v,
        forall|j: int| 0 <= j < frames ==> #[trigger] output.channels@[c]@[j] == v,
{
    assert forall|j: int| 0 <= j < frames implies #[trigger] output.sample_at(c, j) == v by {
        assert(output.sample_at(c, j) == input.sample_at(c, j));
    }
    assert forall|j: int| 0 <= j < frames implies #[trigger] output.channels@[c]@[j] == v by {
        assert(output.channels@[c]@[j] == input.sample_at(c, j));
    }
}

} // verus!
