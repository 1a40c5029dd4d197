use vstd::prelude::*;

verus! {

/// A backend-specific identifier of a device, unique within its host.
#[derive(Clone, Debug)]
pub struct DeviceId(pub String);

impl PartialEq for DeviceId {
    fn eq(&self, o: &DeviceId) -> (r: bool)
        ensures
            r == (self.0@ == o.0@),
    {
        self.0 == o.0
    }
}

impl vstd::std_specs::cmp::PartialEqSpecImpl for DeviceId {
    open spec fn obeys_eq_spec() -> bool {
        true
    }

    open spec fn eq_spec(&self, o: &DeviceId) -> bool {
        self.0@ == o.0@
    }
}

/// The encoding of one sample.
#[derive(Clone, Copy, Debug, PartialEq, Eq, Structural)]
pub enum SampleFormat {
    I8,
    I16,
    I32,
    I64,
    U8,
    U16,
    U32,
    U64,
    F32,
    F64,
}

/// The buffer size that a stream asks for.
#[derive(Clone, Copy, Debug, PartialEq, Eq, Structural)]
pub enum BufferSize {
    Default,
    Fixed(u32),
}

/// The buffer sizes that a device supports.
#[derive(Clone, Copy, Debug, PartialEq, Eq, Structural)]
pub enum SupportedBufferSize {
    Range { min: u32, max: u32 },
    Unknown,
}

/// Channel count, sample rate and buffer size that a stream is built with.
#[derive(Clone, Copy, Debug, PartialEq, Eq, Structural)]
pub struct StreamConfig {
    pub channels: u16,
    pub sample_rate: u32,
    pub buffer_size: BufferSize,
}

/// A range of configurations that a device supports.
#[derive(Clone, Copy, Debug, PartialEq, Eq, Structural)]
pub struct SupportedStreamConfigRange {
    pub channels: u16,
    pub min_sample_rate: u32,
    pub max_sample_rate: u32,
    pub buffer_size: SupportedBufferSize,
    pub sample_format: SampleFormat,
}

/// One configuration that a device supports.
#[derive(Clone, Copy, Debug, PartialEq, Eq, Structural)]
pub struct SupportedStreamConfig {
    pub channels: u16,
    pub sample_rate: u32,
    pub buffer_size: SupportedBufferSize,
    pub sample_format: SampleFormat,
}

/// The samples of one callback of a dynamically typed stream.
#[derive(Clone, Debug)]
pub struct Data {
    pub sample_format: SampleFormat,
    pub bytes: Vec<u8>,
}

/// Timing of an input callback, in nanoseconds of the stream's clock.
#[derive(Clone, Copy, Debug, PartialEq, Eq, Structural)]
pub struct InputCallbackInfo {
    pub callback_ns: u64,
    pub capture_ns: u64,
}

/// Timing of an output callback, in nanoseconds of the stream's clock.
#[derive(Clone, Copy, Debug, PartialEq, Eq, Structural)]
pub struct OutputCallbackInfo {
    pub callback_ns: u64,
    pub playback_ns: u64,
}

/// An error that a backend reports in its own words.
#[derive(Clone, Debug, PartialEq, Eq)]
pub struct BackendSpecificError {
    pub description: String,
}

/// An error raised by a capture or render closure.
#[derive(Clone, Debug, PartialEq, Eq)]
pub struct AnyError {
    pub description: String,
}

/// The devices of a host could not be listed.
#[derive(Clone, Debug, PartialEq, Eq)]
pub enum DevicesError {
    BackendSpecific(BackendSpecificError),
}

/// The name of a device could not be read.
#[derive(Clone, Debug, PartialEq, Eq)]
pub enum DeviceNameError {
    BackendSpecific(BackendSpecificError),
}

/// The identifier of a device could not be read.
#[derive(Clone, Debug, PartialEq, Eq)]
pub enum DeviceIdError {
    UnsupportedPlatform,
    BackendSpecific(BackendSpecificError),
}

/// The supported configurations of a device could not be listed.
#[derive(Clone, Debug, PartialEq, Eq)]
pub enum SupportedStreamConfigsError {
    DeviceNotAvailable,
    InvalidArgument,
    BackendSpecific(BackendSpecificError),
}

/// A device has no default configuration to offer.
#[derive(Clone, Debug, PartialEq, Eq)]
pub enum DefaultStreamConfigError {
    DeviceNotAvailable,
    StreamTypeNotSupported,
    BackendSpecific(BackendSpecificError),
}

/// A stream could not be built.
#[derive(Clone, Debug, PartialEq, Eq)]
pub enum BuildStreamError {
    DeviceNotAvailable,
    StreamConfigNotSupported,
    InvalidArgument,
    StreamIdOverflow,
    BackendSpecific(BackendSpecificError),
}

/// A stream could not be started.
#[derive(Clone, Debug, PartialEq, Eq)]
pub enum PlayStreamError {
    DeviceNotAvailable,
    BackendSpecific(BackendSpecificError),
}

/// A stream could not be paused.
#[derive(Clone, Debug, PartialEq, Eq)]
pub enum PauseStreamError {
    DeviceNotAvailable,
    /// The device cannot suspend a stream.
    Unsupported,
    BackendSpecific(BackendSpecificError),
}

/// The buffer periods of a configuration could not be queried.
#[derive(Clone, Debug, PartialEq, Eq)]
pub enum GetPeriodsError {
    DeviceNotAvailable,
    BackendSpecific(BackendSpecificError),
}

/// An error that a running stream reports to its error callback.
#[derive(Clone, Debug, PartialEq, Eq)]
pub enum StreamError {
    DeviceNotAvailable,
    BackendSpecific(BackendSpecificError),
}

/// A capture or render pass failed.
#[derive(Clone, Debug, PartialEq, Eq)]
pub enum SyncStreamError {
    DeviceNotAvailable,
    /// The closure reported more frames than the buffer holds.
    FrameCountOverflow { returned: usize, capacity: usize },
    /// The closure itself failed.
    Callback(AnyError),
    BackendSpecific(BackendSpecificError),
}

} // verus!
