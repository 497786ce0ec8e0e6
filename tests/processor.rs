use clack_boundary::audio::{AudioPortBuffer, InputAudioBuffers, OutputAudioBuffers};
use clack_boundary::event_io::{InputEvents, OutputEvents};
use clack_boundary::process::{
    effective_frame_count, process_outcome, HostError, PluginAudioProcessor, PluginCall, ProcessError,
    ProcessStatus, StoppedPluginAudioProcessor,
};

type Processor = PluginAudioProcessor<String, Vec<u32>, u64>;

fn stopped() -> Processor {
    PluginAudioProcessor::from_stopped(StoppedPluginAudioProcessor::new("shared".to_string(), vec![1, 2], 77))
}

fn stereo(frames: usize, value: f32) -> AudioPortBuffer<f32> {
    AudioPortBuffer::new(vec![vec![value; frames], vec![value; frames]], 0)
}

#[test]
fn effective_frame_count_takes_the_cap() {
    let inputs = InputAudioBuffers::new(vec![stereo(32, 0.5)]);
    let outputs = OutputAudioBuffers::new(vec![stereo(64, 0.0)]);
    assert_eq!(inputs.min_channel_buffer_length(), Some(32));
    assert_eq!(outputs.min_channel_buffer_length(), Some(64));
    assert_eq!(effective_frame_count(Some(32), Some(64), Some(16)), 16);
}

#[test]
fn effective_frame_count_without_cap_or_channels() {
    assert_eq!(effective_frame_count(Some(32), Some(64), None), 32);
    assert_eq!(effective_frame_count(None, Some(64), None), 64);
    assert_eq!(effective_frame_count(None, None, Some(8)), 8);
    assert_eq!(effective_frame_count(None, None, None), 0);
    assert_eq!(effective_frame_count(Some(usize::MAX), None, None), u32::MAX);
}

#[test]
fn process_record_uses_effective_frame_count() {
    let mut p = stopped();
    assert!(p.start_processing(PluginCall::Succeeded).is_ok());
    let inputs = InputAudioBuffers::new(vec![stereo(32, 0.5)]);
    let mut outputs = OutputAudioBuffers::new(vec![stereo(64, 0.0)]);
    let events_in = InputEvents::empty();
    let mut events_out = OutputEvents::new();
    let transport: Option<&()> = None;
    let record = p
        .process(&inputs, &mut outputs, &events_in, &mut events_out, 1024, Some(16), transport)
        .expect("started");
    assert_eq!(record.frames_count, 16);
    assert_eq!(record.steady_time, 1024);
    assert!(record.transport.is_none());
    assert_eq!(record.audio_inputs.port_count(), 1);
    assert_eq!(record.audio_outputs.port_count(), 1);
}

#[test]
fn start_then_stop_restores_stopped_handle() {
    let mut p = stopped();
    assert!(!p.is_started());
    {
        let started = p.start_processing(PluginCall::Succeeded).expect("start");
        assert_eq!(started.shared_host_data(), "shared");
    }
    assert!(p.is_started());
    {
        let s = p.stop_processing(PluginCall::Succeeded).expect("stop");
        assert_eq!(s.shared_host_data(), "shared");
        assert_eq!(s.audio_processor_host_data(), &vec![1, 2]);
        assert_eq!(*s.shared_plugin_data(), 77);
    }
    assert!(!p.is_started());
    assert!(!p.is_poisoned());
    assert_eq!(p.shared_host_data().unwrap(), "shared");
    assert_eq!(p.audio_processor_host_data().unwrap(), &vec![1, 2]);
}

#[test]
fn refused_start_keeps_handle_stopped() {
    let mut p = stopped();
    assert_eq!(p.start_processing(PluginCall::Failed).err(), Some(HostError::StartProcessingFailed));
    assert!(p.as_stopped().is_ok());
    assert_eq!(p.shared_host_data().unwrap(), "shared");
}

#[test]
fn wrong_state_requests_are_refused() {
    let mut p = stopped();
    assert_eq!(p.stop_processing(PluginCall::Succeeded).err(), Some(HostError::ProcessingStopped));
    assert_eq!(p.as_started().err(), Some(HostError::ProcessingStopped));
    p.start_processing(PluginCall::Succeeded).unwrap();
    assert_eq!(p.start_processing(PluginCall::Succeeded).err(), Some(HostError::ProcessingStarted));
    assert_eq!(p.as_stopped().err(), Some(HostError::ProcessingStarted));
    assert!(p.is_started());
}

#[test]
fn ensure_helpers_are_idempotent() {
    let mut p = stopped();
    assert!(p.ensure_processing_started(PluginCall::Succeeded).is_ok());
    assert!(p.ensure_processing_started(PluginCall::Failed).is_ok());
    assert!(p.is_started());
    assert!(p.ensure_processing_stopped(PluginCall::Succeeded).is_ok());
    assert!(p.ensure_processing_stopped(PluginCall::Panicked).is_ok());
    assert!(p.as_stopped().is_ok());
}

#[test]
fn process_on_stopped_handle_is_rejected_without_writes() {
    let mut p = stopped();
    let inputs = InputAudioBuffers::new(vec![stereo(8, 1.0)]);
    let mut outputs = OutputAudioBuffers::new(vec![stereo(8, 0.25)]);
    let events_in = InputEvents::empty();
    let mut events_out = OutputEvents::new();
    let transport: Option<&()> = None;
    let r = p.process(&inputs, &mut outputs, &events_in, &mut events_out, 0, None, transport);
    assert_eq!(r.err(), Some(HostError::ProcessingStopped));
    for c in 0..2 {
        assert!(outputs.port(0).unwrap().channel(c).unwrap().iter().all(|s| *s == 0.25));
    }
    assert!(events_out.is_empty());
    assert!(p.as_stopped().is_ok());
}

#[test]
fn panic_during_start_poisons_the_handle() {
    let mut p = stopped();
    assert_eq!(p.start_processing(PluginCall::Panicked).err(), Some(HostError::ProcessorHandlePoisoned));
    assert!(p.is_poisoned());
    assert!(!p.is_started());
    assert_eq!(p.shared_host_data().err(), Some(HostError::ProcessorHandlePoisoned));
    assert_eq!(p.audio_processor_host_data().err(), Some(HostError::ProcessorHandlePoisoned));
    assert_eq!(p.audio_processor_host_data_mut().err(), Some(HostError::ProcessorHandlePoisoned));
    assert_eq!(p.as_started().err(), Some(HostError::ProcessorHandlePoisoned));
    assert_eq!(p.as_stopped().err(), Some(HostError::ProcessorHandlePoisoned));
    assert_eq!(p.as_started_mut().err(), Some(HostError::ProcessorHandlePoisoned));
    assert_eq!(p.as_stopped_mut().err(), Some(HostError::ProcessorHandlePoisoned));
    assert_eq!(p.start_processing(PluginCall::Succeeded).err(), Some(HostError::ProcessorHandlePoisoned));
    assert_eq!(p.stop_processing(PluginCall::Succeeded).err(), Some(HostError::ProcessorHandlePoisoned));
    assert_eq!(p.ensure_processing_started(PluginCall::Succeeded).err(), Some(HostError::ProcessorHandlePoisoned));
    assert_eq!(p.ensure_processing_stopped(PluginCall::Succeeded).err(), Some(HostError::ProcessorHandlePoisoned));
    let inputs = InputAudioBuffers::new(vec![stereo(4, 1.0)]);
    let mut outputs = OutputAudioBuffers::new(vec![stereo(4, 0.0)]);
    let events_in = InputEvents::empty();
    let mut events_out = OutputEvents::new();
    let transport: Option<&()> = None;
    let r = p.process(&inputs, &mut outputs, &events_in, &mut events_out, 0, None, transport);
    assert_eq!(r.err(), Some(HostError::ProcessorHandlePoisoned));
    assert!(p.is_poisoned());
}

#[test]
fn handles_convert_into_the_state_enum() {
    let p: Processor = StoppedPluginAudioProcessor::new("s".to_string(), vec![], 0).into();
    assert!(p.as_stopped().is_ok());
    let started = match StoppedPluginAudioProcessor::new("s".to_string(), vec![9u32], 0u64).start_processing(true) {
        Ok(s) => s,
        Err(_) => panic!("start must succeed"),
    };
    let q: Processor = started.into();
    assert!(q.is_started());
    assert_eq!(q.audio_processor_host_data().unwrap(), &vec![9]);
}

#[test]
fn panic_during_stop_poisons_the_handle() {
    let mut p = stopped();
    p.start_processing(PluginCall::Succeeded).unwrap();
    assert_eq!(p.stop_processing(PluginCall::Panicked).err(), Some(HostError::ProcessorHandlePoisoned));
    assert!(p.is_poisoned());
}

#[test]
fn audio_processor_data_can_be_changed_in_place() {
    let mut p = stopped();
    p.audio_processor_host_data_mut().unwrap().push(3);
    assert_eq!(p.audio_processor_host_data().unwrap(), &vec![1, 2, 3]);
    p.start_processing(PluginCall::Succeeded).unwrap();
    p.audio_processor_host_data_mut().unwrap().push(4);
    assert_eq!(p.audio_processor_host_data().unwrap(), &vec![1, 2, 3, 4]);
    assert!(p.is_started());
}

#[test]
fn struct_level_start_error_hands_processor_back() {
    let s = StoppedPluginAudioProcessor::new(1u8, 2u8, 3u8);
    let e = match s.start_processing(false) {
        Err(e) => e,
        Ok(_) => panic!("start must be refused"),
    };
    assert_eq!(e.message(), "Failed to start plugin processing");
    let back = e.into_stopped_processor();
    assert_eq!(*back.shared_host_data(), 1);
    let started = match back.start_processing(true) {
        Ok(s) => s,
        Err(_) => panic!("start must succeed"),
    };
    assert_eq!(*started.audio_processor_host_data(), 2);
    let stopped = started.stop_processing();
    let data = stopped.into_data();
    assert_eq!((data.shared, data.audio_processor, data.plugin), (1, 2, 3));
}

#[test]
fn raw_process_statuses_decode() {
    assert_eq!(ProcessStatus::from_raw(0), Some(Err(ProcessError)));
    assert_eq!(ProcessStatus::from_raw(1), Some(Ok(ProcessStatus::Continue)));
    assert_eq!(ProcessStatus::from_raw(2), Some(Ok(ProcessStatus::ContinueIfNotQuiet)));
    assert_eq!(ProcessStatus::from_raw(3), Some(Ok(ProcessStatus::Tail)));
    assert_eq!(ProcessStatus::from_raw(4), Some(Ok(ProcessStatus::Sleep)));
    assert_eq!(ProcessStatus::from_raw(5), None);
    assert_eq!(ProcessStatus::from_raw(-1), None);
    assert_eq!(ProcessStatus::Tail.to_raw(), 3);
}

#[test]
fn process_outcomes_map_to_host_errors() {
    assert_eq!(process_outcome(None), Err(HostError::NullProcessFunction));
    assert_eq!(process_outcome(Some(0)), Err(HostError::ProcessingFailed));
    assert_eq!(process_outcome(Some(42)), Err(HostError::ProcessingFailed));
    assert_eq!(process_outcome(Some(4)), Ok(ProcessStatus::Sleep));
    assert_eq!(process_outcome(Some(1)), Ok(ProcessStatus::Continue));
}
