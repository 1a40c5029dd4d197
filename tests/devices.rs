use std::time::Duration;

use audio_bridge::run::RunState;
use audio_bridge::select::{first_with_id, has_configs, keep_marked};
use audio_bridge::traits::{DeviceTrait, HostTrait, StreamTrait};
use audio_bridge::types::{
    BuildStreamError, Data, DefaultStreamConfigError, DeviceId, DeviceIdError, DeviceNameError,
    DevicesError, InputCallbackInfo, OutputCallbackInfo, PauseStreamError, PlayStreamError,
    SampleFormat, StreamConfig, StreamError, SupportedBufferSize, SupportedStreamConfig,
    SupportedStreamConfigRange, SupportedStreamConfigsError,
};

fn range() -> SupportedStreamConfigRange {
    SupportedStreamConfigRange {
        channels: 2,
        min_sample_rate: 44100,
        max_sample_rate: 48000,
        buffer_size: SupportedBufferSize::Range { min: 128, max: 2048 },
        sample_format: SampleFormat::I16,
    }
}

struct MockStream {
    state: std::cell::Cell<RunState>,
}

impl StreamTrait for MockStream {
    fn play(&self) -> Result<(), PlayStreamError> {
        let mut s = self.state.get();
        s.request_play();
        self.state.set(s);
        Ok(())
    }

    fn pause(&self) -> Result<(), PauseStreamError> {
        let mut s = self.state.get();
        s.request_pause();
        self.state.set(s);
        Ok(())
    }
}

#[derive(Clone, Debug)]
struct MockDevice {
    id: Option<&'static str>,
    inputs: Option<usize>,
    outputs: Option<usize>,
}

impl DeviceTrait for MockDevice {
    type Stream = MockStream;

    fn id_view(&self) -> Result<DeviceId, DeviceIdError> {
        self.id()
    }

    fn input_configs_view(&self) -> Result<Vec<SupportedStreamConfigRange>, SupportedStreamConfigsError> {
        self.supported_input_configs()
    }

    fn output_configs_view(&self) -> Result<Vec<SupportedStreamConfigRange>, SupportedStreamConfigsError> {
        self.supported_output_configs()
    }

    fn name(&self) -> Result<String, DeviceNameError> {
        Ok(self.id.unwrap_or("unnamed").to_string())
    }

    fn id(&self) -> Result<DeviceId, DeviceIdError> {
        self.id.map(|s| DeviceId(s.to_string())).ok_or(DeviceIdError::UnsupportedPlatform)
    }

    fn supported_input_configs(&self) -> Result<Vec<SupportedStreamConfigRange>, SupportedStreamConfigsError> {
        self.inputs.map(|n| vec![range(); n]).ok_or(SupportedStreamConfigsError::DeviceNotAvailable)
    }

    fn supported_output_configs(&self) -> Result<Vec<SupportedStreamConfigRange>, SupportedStreamConfigsError> {
        self.outputs.map(|n| vec![range(); n]).ok_or(SupportedStreamConfigsError::DeviceNotAvailable)
    }

    fn default_input_config(&self) -> Result<SupportedStreamConfig, DefaultStreamConfigError> {
        Err(DefaultStreamConfigError::StreamTypeNotSupported)
    }

    fn default_output_config(&self) -> Result<SupportedStreamConfig, DefaultStreamConfigError> {
        Err(DefaultStreamConfigError::StreamTypeNotSupported)
    }

    fn build_input_stream_raw<D, E>(
        &self,
        _config: &StreamConfig,
        _sample_format: SampleFormat,
        _data_callback: D,
        _error_callback: E,
        _timeout: Option<Duration>,
    ) -> Result<MockStream, BuildStreamError>
    where
        D: FnMut(&Data, &InputCallbackInfo) + Send + 'static,
        E: FnMut(StreamError) + Send + 'static,
    {
        Ok(MockStream { state: std::cell::Cell::new(RunState::new()) })
    }

    fn build_output_stream_raw<D, E>(
        &self,
        _config: &StreamConfig,
        _sample_format: SampleFormat,
        _data_callback: D,
        _error_callback: E,
        _timeout: Option<Duration>,
    ) -> Result<MockStream, BuildStreamError>
    where
        D: FnMut(&mut Data, &OutputCallbackInfo) + Send + 'static,
        E: FnMut(StreamError) + Send + 'static,
    {
        Err(BuildStreamError::StreamConfigNotSupported)
    }
}

struct MockHost {
    devices: Option<Vec<MockDevice>>,
}

impl HostTrait for MockHost {
    type Device = MockDevice;

    fn devices_view(&self) -> Result<Vec<MockDevice>, DevicesError> {
        self.devices()
    }

    fn is_available() -> bool {
        true
    }

    fn devices(&self) -> Result<Vec<MockDevice>, DevicesError> {
        self.devices.clone().ok_or(DevicesError::BackendSpecific(
            audio_bridge::types::BackendSpecificError { description: "no host".to_string() },
        ))
    }

    fn default_input_device(&self) -> Option<MockDevice> {
        None
    }

    fn default_output_device(&self) -> Option<MockDevice> {
        None
    }
}

fn host() -> MockHost {
    MockHost {
        devices: Some(vec![
            MockDevice { id: Some("mic"), inputs: Some(2), outputs: Some(0) },
            MockDevice { id: None, inputs: Some(1), outputs: Some(1) },
            MockDevice { id: Some("speakers"), inputs: None, outputs: Some(3) },
            MockDevice { id: Some("headset"), inputs: Some(1), outputs: Some(1) },
        ]),
    }
}

fn ids(v: &[MockDevice]) -> Vec<Option<&'static str>> {
    v.iter().map(|d| d.id).collect()
}

#[test]
fn input_devices_are_exactly_those_supporting_input() {
    let h = host();
    let all = h.devices().unwrap();
    let inputs = h.input_devices().unwrap();
    assert_eq!(ids(&inputs), vec![Some("mic"), None, Some("headset")]);
    for d in &all {
        assert_eq!(inputs.iter().any(|x| x.id == d.id), d.supports_input());
    }
}

#[test]
fn output_devices_are_exactly_those_supporting_output() {
    let h = host();
    let outputs = h.output_devices().unwrap();
    assert_eq!(ids(&outputs), vec![None, Some("speakers"), Some("headset")]);
}

#[test]
fn failed_config_query_means_no_support() {
    let d = MockDevice { id: None, inputs: None, outputs: Some(0) };
    assert!(!d.supports_input());
    assert!(!d.supports_output());
    assert!(has_configs(&Ok(vec![range()])));
    assert!(!has_configs(&Err(SupportedStreamConfigsError::InvalidArgument)));
}

#[test]
fn device_by_id_finds_the_first_match() {
    let h = host();
    let d = h.device_by_id(&DeviceId("speakers".to_string())).unwrap();
    assert_eq!(d.id, Some("speakers"));
    assert!(h.device_by_id(&DeviceId("missing".to_string())).is_none());
    let broken = MockHost { devices: None };
    assert!(broken.device_by_id(&DeviceId("mic".to_string())).is_none());
    assert!(broken.input_devices().is_err());
}

#[test]
fn first_with_id_skips_failed_queries() {
    let q = vec![None, Some(DeviceId("a".to_string())), Some(DeviceId("b".to_string())), Some(DeviceId("b".to_string()))];
    assert_eq!(first_with_id(&q, &DeviceId("b".to_string())), Some(2));
    assert_eq!(first_with_id(&q, &DeviceId("c".to_string())), None);
}

#[test]
fn keep_marked_keeps_order() {
    assert_eq!(keep_marked(vec![1, 2, 3, 4], &vec![true, false, false, true]), vec![1, 4]);
    assert_eq!(keep_marked(Vec::<u8>::new(), &Vec::new()), Vec::<u8>::new());
}

#[test]
fn stream_play_and_pause_repeat_without_error() {
    let d = MockDevice { id: Some("mic"), inputs: Some(1), outputs: None };
    let cfg = StreamConfig { channels: 2, sample_rate: 48000, buffer_size: audio_bridge::types::BufferSize::Default };
    let s = d
        .build_input_stream_raw(&cfg, SampleFormat::I16, |_d: &Data, _i: &InputCallbackInfo| {}, |_e: StreamError| {}, None)
        .unwrap();
    assert!(s.play().is_ok());
    assert!(s.play().is_ok());
    assert!(s.pause().is_ok());
    assert!(s.pause().is_ok());
    assert!(!s.state.get().playing);
}
