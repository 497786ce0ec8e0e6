use clack_boundary::audio::{AudioPortBuffer, InputAudioBuffers, OutputAudioBuffers};
use clack_boundary::plugin_process::{Audio, ChannelData, Process};

fn port(channels: Vec<Vec<f32>>, constant_mask: u64) -> AudioPortBuffer<f32> {
    AudioPortBuffer { channels, constant_mask, latency: 0 }
}

#[test]
fn can_get_all_outputs() {
    let ins = [port(vec![vec![0f32; 4], vec![0f32; 4]], 0)];
    let mut outs = [port(vec![vec![0f32; 4], vec![0f32; 4]], 0)];

    let mut audio = Audio::from_buffers(&ins, &mut outs, 4).unwrap();

    let pairs = audio.port_pairs();
    assert_eq!(pairs.len(), 1);
    assert!(pairs[0].input.is_some());
    assert!(pairs[0].output.is_some());
}

#[test]
fn port_pairs_cover_the_larger_side() {
    let ins = [port(vec![vec![0f32; 4]], 0), port(vec![vec![0f32; 4]], 0)];
    let mut outs = [port(vec![vec![0f32; 4]], 0)];
    let mut audio = Audio::from_buffers(&ins, &mut outs, 4).unwrap();
    assert_eq!(audio.input_count(), 2);
    assert_eq!(audio.output_count(), 1);
    let pairs = audio.port_pairs();
    assert_eq!(pairs.len(), 2);
    assert!(pairs[1].input.is_some());
    assert!(pairs[1].output.is_none());
}

#[test]
fn constant_input_copies_to_every_output_sample() {
    let v = 0.75f32;
    let ins = [port(vec![vec![v, 0.0, 0.0, 0.0, 0.0, 0.0]], 1)];
    let mut outs = [port(vec![vec![0.1f32, 0.2, 0.3, 0.4, 0.5, 0.6]], 0)];
    {
        let mut audio = Audio::from_buffers(&ins, &mut outs, 6).unwrap();
        let mut pairs = audio.port_pairs();
        let pair = &mut pairs[0];
        let input = pair.input.as_ref().unwrap();
        let output = pair.output.as_mut().unwrap();
        output.copy_from(input);
        for j in 0..6 {
            assert_eq!(output.sample(0, j), v);
        }
    }
    assert!(outs[0].channels[0].iter().all(|s| *s == v));
    assert!(outs[0].is_channel_constant(0));
}

#[test]
fn plain_input_copies_sample_by_sample() {
    let ins = [port(vec![vec![1.0f32, 2.0, 3.0, 4.0], vec![5.0, 6.0, 7.0, 8.0]], 0)];
    let mut outs = [port(vec![vec![0f32; 4], vec![0f32; 4], vec![9f32; 4]], 0b100)];
    {
        let mut audio = Audio::from_buffers(&ins, &mut outs, 3).unwrap();
        let input = audio.input(0).unwrap();
        assert_eq!(input.sample(1, 2), 7.0);
        let copy = [ins[0].channels[0].clone(), ins[0].channels[1].clone()];
        let mut output = audio.output(0).unwrap();
        let own_input = [port(copy.to_vec(), 0)];
        let mut scratch: [AudioPortBuffer<f32>; 0] = [];
        let other = Audio::from_buffers(&own_input, &mut scratch, 3).unwrap();
        output.copy_from(&other.input(0).unwrap());
    }
    assert_eq!(outs[0].channels[0], vec![1.0, 2.0, 3.0, 0.0]);
    assert_eq!(outs[0].channels[1], vec![5.0, 6.0, 7.0, 0.0]);
    assert_eq!(outs[0].channels[2], vec![9.0; 4]);
    assert!(!outs[0].is_channel_constant(0));
    assert!(outs[0].is_channel_constant(2));
}

#[test]
fn input_channel_reports_constant_or_samples() {
    let ins = [port(vec![vec![0.5f32, 9.0, 9.0], vec![1.0, 2.0, 3.0]], 1)];
    let mut outs: [AudioPortBuffer<f32>; 0] = [];
    let audio = Audio::from_buffers(&ins, &mut outs, 2).unwrap();
    let input = audio.input(0).unwrap();
    assert_eq!(input.channel_count(), 2);
    match input.channel(0) {
        Some(ChannelData::Constant(v)) => assert_eq!(v, 0.5),
        _ => panic!("constant channel expected"),
    }
    match input.channel(1) {
        Some(ChannelData::Samples(s)) => assert_eq!(s, &[1.0, 2.0][..]),
        _ => panic!("sample channel expected"),
    }
    assert!(input.channel(2).is_none());
    assert!(audio.input(1).is_none());
}

#[test]
fn short_channel_is_refused() {
    let ins = [port(vec![vec![0f32; 2]], 0)];
    let mut outs = [port(vec![vec![0f32; 8]], 0)];
    assert!(Audio::from_buffers(&ins, &mut outs, 4).is_none());
}

#[test]
fn output_writes_reach_host_buffers() {
    let mut outputs = OutputAudioBuffers::new(vec![port(vec![vec![0f32; 4], vec![0f32; 4]], 0)]);
    let ins: [AudioPortBuffer<f32>; 0] = [];
    {
        let mut audio = Audio::from_buffers(&ins, outputs.as_ports_mut(), 4).unwrap();
        let mut out = audio.output(0).unwrap();
        out.set_sample(0, 1, 0.5);
        out.fill_constant(1, 0.25);
        assert_eq!(out.frames_count(), 4);
    }
    let p = outputs.port(0).unwrap();
    assert_eq!(p.channel(0).unwrap(), &[0.0, 0.5, 0.0, 0.0][..]);
    assert!(p.is_channel_constant(1));
    assert_eq!(p.channel(1).unwrap(), &[0.25; 4][..]);
}

#[test]
fn min_channel_length_over_ports() {
    let inputs = InputAudioBuffers::new(vec![
        port(vec![vec![0f32; 32], vec![0f32; 40]], 0),
        port(vec![], 0),
        port(vec![vec![0f32; 33]], 0),
    ]);
    assert_eq!(inputs.min_channel_buffer_length(), Some(32));
    let none = InputAudioBuffers::<f32>::new(vec![port(vec![], 0)]);
    assert_eq!(none.min_channel_buffer_length(), None);
}

#[test]
fn process_timing_accessors() {
    let p = Process::new(480, 64, Some(7u8));
    assert_eq!(p.steady_time(), 480);
    assert_eq!(p.frames_count(), 64);
    assert_eq!(p.transport(), Some(&7));
    let q: Process<u8> = Process::new(0, 0, None);
    assert!(q.transport().is_none());
}
