//! The traits through which hosts, devices, streams and pull-style
//! sources and sinks are abstracted over.
use vstd::prelude::*;
use std::time::Duration;
use crate::event::EventHandle;
use crate::select::{first_with_id, has_configs, id_matches, keep_marked, kept};
use crate::types::{
    AnyError, BuildStreamError, Data, DefaultStreamConfigError, DeviceId, DeviceIdError,
    DeviceNameError, DevicesError, GetPeriodsError, InputCallbackInfo, OutputCallbackInfo,
    PauseStreamError, PlayStreamError, SampleFormat, StreamConfig, StreamError,
    SupportedStreamConfig, SupportedStreamConfigRange, SupportedStreamConfigsError,
    SyncStreamError,
};

verus! {

/// The contents of a listing, or its error.
pub open spec fn listed<T, E>(r: Result<Vec<T>, E>) -> Result<Seq<T>, E> {
    match r {
        Ok(v) => Ok(v@),
        Err(e) => Err(e),
    }
}

/// Whether a configuration listing holds at least one configuration; a
/// failed listing holds none.
pub open spec fn offers_any(r: Result<Vec<SupportedStreamConfigRange>, SupportedStreamConfigsError>) -> bool {
    r matches Ok(v) && v@.len() > 0
}

/// Whether an identifier answer is `id`; a failed answer is no identifier.
pub open spec fn answers_id(r: Result<DeviceId, DeviceIdError>, id: DeviceId) -> bool {
    r matches Ok(d) && d.0@ == id.0@
}

/// `r` is the first device of `ds` whose identifier is `id`, or `None`
/// when no device's is.
pub open spec fn first_answering<D: DeviceTrait>(ds: Seq<D>, id: DeviceId, r: Option<D>) -> bool {
    match r {
        Some(d) => exists|k: int|
            0 <= k < ds.len() && ds[k] == d && answers_id(ds[k].id_view(), id) && forall|j: int|
                0 <= j < k ==> !answers_id(#[trigger] ds[j].id_view(), id),
        None => forall|j: int| 0 <= j < ds.len() ==> !answers_id(#[trigger] ds[j].id_view(), id),
    }
}

/// For each device, whether it supports input.
pub open spec fn input_marks<D: DeviceTrait>(ds: Seq<D>) -> Seq<bool> {
    Seq::new(ds.len(), |i: int| offers_any(ds[i].input_configs_view()))
}

/// For each device, whether it supports output.
pub open spec fn output_marks<D: DeviceTrait>(ds: Seq<D>) -> Seq<bool> {
    Seq::new(ds.len(), |i: int| offers_any(ds[i].output_configs_view()))
}

/// The devices of a listing that support input, in their order; a failed
/// listing is handed on.
pub open spec fn input_subset<D: DeviceTrait>(l: Result<Vec<D>, DevicesError>) -> Result<Seq<D>, DevicesError> {
    match l {
        Ok(ds) => Ok(kept(ds@, input_marks(ds@))),
        Err(e) => Err(e),
    }
}

/// The devices of a listing that support output, in their order; a failed
/// listing is handed on.
pub open spec fn output_subset<D: DeviceTrait>(l: Result<Vec<D>, DevicesError>) -> Result<Seq<D>, DevicesError> {
    match l {
        Ok(ds) => Ok(kept(ds@, output_marks(ds@))),
        Err(e) => Err(e),
    }
}

/// A platform's audio subsystem: the entry point to its devices.
pub trait HostTrait {
    /// The device type of this host.
    type Device: DeviceTrait;

    /// Whether the host is available on this system; a probe without I/O.
    fn is_available() -> bool;

    /// The host's listing of its devices, as `devices` gives it. A backend
    /// answers alike on every call.
    spec fn devices_view(&self) -> Result<Vec<Self::Device>, DevicesError>;

    /// All devices currently available to the host; empty where the system
    /// has no audio at all.
    fn devices(&self) -> (r: Result<Vec<Self::Device>, DevicesError>)
        ensures
            r == self.devices_view(),
    ;

    /// The first device whose identifier equals `id`, or `None` when the
    /// devices cannot be listed or none matches.
    fn device_by_id(&self, id: &DeviceId) -> (r: Option<Self::Device>)
        ensures
            match self.devices_view() {
                Err(_) => r is None,
                Ok(ds) => first_answering(ds@, *id, r),
            },
    {
        match self.devices() {
            Err(_) => None,
            Ok(devices) => {
                let mut devices = devices;
                let ghost ds = devices@;
                let mut ids: Vec<Option<DeviceId>> = Vec::new();
                let mut i: usize = 0;
                while i < devices.len()
                    invariant
                        devices@ == ds,
                        i <= devices.len(),
                        ids.len() == i,
                        forall|j: int| 0 <= j < i ==> id_matches(#[trigger] ids@[j], *id) == answers_id(ds[j].id_view(), *id),
                    decreases devices.len() - i,
                {
                    ids.push(devices[i].id().ok());
                    i = i + 1;
                }
                assert(ids@.len() == ds.len());
                match first_with_id(&ids, id) {
                    Some(k) => {
                        proof {
                            assert forall|j: int| 0 <= j < k implies !answers_id(#[trigger] ds[j].id_view(), *id) by {
                                assert(!id_matches(ids@[j], *id));
                            }
                            assert(id_matches(ids@[k as int], *id));
                        }
                        let d = devices.remove(k);
                        proof {
                            assert(ds[k as int] == d);
                            assert(answers_id(ds[k as int].id_view(), *id));
                            assert(first_answering(ds, *id, Some(d)));
                        }
                        Some(d)
                    },
                    None => {
                        proof {
                            assert forall|j: int| 0 <= j < ds.len() implies !answers_id(#[trigger] ds[j].id_view(), *id) by {
                                assert(!id_matches(ids@[j], *id));
                            }
                        }
                        assert(first_answering(ds, *id, None));
                        None
                    },
                }
            },
        }
    }

    /// The system's default input device, if there is one.
    fn default_input_device(&self) -> Option<Self::Device>;

    /// The system's default output device, if there is one.
    fn default_output_device(&self) -> Option<Self::Device>;

    /// The available devices that support at least one input configuration.
    fn input_devices(&self) -> (r: Result<Vec<Self::Device>, DevicesError>)
        ensures
            listed(r) == input_subset(self.devices_view()),
    {
        let devices = match self.devices() {
            Ok(v) => v,
            Err(e) => {
                return Err(e);
            },
        };
        let ghost ds = devices@;
        let mut marks: Vec<bool> = Vec::new();
        let mut i: usize = 0;
        while i < devices.len()
            invariant
                devices@ == ds,
                i <= devices.len(),
                marks.len() == i,
                forall|j: int| 0 <= j < i ==> #[trigger] marks@[j] == input_marks(ds)[j],
            decreases devices.len() - i,
        {
            marks.push(devices[i].supports_input());
            i = i + 1;
        }
        proof {
            assert(marks@ =~= input_marks(ds));
        }
        Ok(keep_marked(devices, &marks))
    }

    /// The available devices that support at least one output configuration.
    fn output_devices(&self) -> (r: Result<Vec<Self::Device>, DevicesError>)
        ensures
            listed(r) == output_subset(self.devices_view()),
    {
        let devices = match self.devices() {
            Ok(v) => v,
            Err(e) => {
                return Err(e);
            },
        };
        let ghost ds = devices@;
        let mut marks: Vec<bool> = Vec::new();
        let mut i: usize = 0;
        while i < devices.len()
            invariant
                devices@ == ds,
                i <= devices.len(),
                marks.len() == i,
                forall|j: int| 0 <= j < i ==> #[trigger] marks@[j] == output_marks(ds)[j],
            decreases devices.len() - i,
        {
            marks.push(devices[i].supports_output());
            i = i + 1;
        }
        proof {
            assert(marks@ =~= output_marks(ds));
        }
        Ok(keep_marked(devices, &marks))
    }
}

/// An audio endpoint capable of input, output or both. A device may become
/// invalid when it is disconnected, so each query may fail.
pub trait DeviceTrait {
    /// The stream type that the builders create.
    type Stream: StreamTrait;

    /// The human-readable name of the device.
    fn name(&self) -> Result<String, DeviceNameError>;

    /// The device's answer to an identifier query, as `id` gives it. A
    /// backend answers alike on every call.
    spec fn id_view(&self) -> Result<DeviceId, DeviceIdError>;

    /// The device's listing of its input configurations, as
    /// `supported_input_configs` gives it.
    spec fn input_configs_view(&self) -> Result<Vec<SupportedStreamConfigRange>, SupportedStreamConfigsError>;

    /// The device's listing of its output configurations, as
    /// `supported_output_configs` gives it.
    spec fn output_configs_view(&self) -> Result<Vec<SupportedStreamConfigRange>, SupportedStreamConfigsError>;

    /// The identifier of the device.
    fn id(&self) -> (r: Result<DeviceId, DeviceIdError>)
        ensures
            r == self.id_view(),
    ;

    /// Whether the device offers at least one input configuration; a failed
    /// query counts as no support.
    fn supports_input(&self) -> (r: bool)
        ensures
            r == offers_any(self.input_configs_view()),
    {
        has_configs(&self.supported_input_configs())
    }

    /// Whether the device offers at least one output configuration; a failed
    /// query counts as no support.
    fn supports_output(&self) -> (r: bool)
        ensures
            r == offers_any(self.output_configs_view()),
    {
        has_configs(&self.supported_output_configs())
    }

    /// The input configurations that the device supports.
    fn supported_input_configs(&self) -> (r: Result<
        Vec<SupportedStreamConfigRange>,
        SupportedStreamConfigsError,
    >)
        ensures
            r == self.input_configs_view(),
    ;

    /// The output configurations that the device supports.
    fn supported_output_configs(&self) -> (r: Result<
        Vec<SupportedStreamConfigRange>,
        SupportedStreamConfigsError,
    >)
        ensures
            r == self.output_configs_view(),
    ;

    /// The default input configuration of the device.
    fn default_input_config(&self) -> Result<SupportedStreamConfig, DefaultStreamConfigError>;

    /// The default output configuration of the device.
    fn default_output_config(&self) -> Result<SupportedStreamConfig, DefaultStreamConfigError>;

    /// Builds a dynamically typed input stream.
    fn build_input_stream_raw<D, E>(
        &self,
        config: &StreamConfig,
        sample_format: SampleFormat,
        data_callback: D,
        error_callback: E,
        timeout: Option<Duration>,
    ) -> Result<Self::Stream, BuildStreamError> where
        D: FnMut(&Data, &InputCallbackInfo) + Send + 'static,
        E: FnMut(StreamError) + Send + 'static,
    ;

    /// Builds a dynamically typed output stream.
    fn build_output_stream_raw<D, E>(
        &self,
        config: &StreamConfig,
        sample_format: SampleFormat,
        data_callback: D,
        error_callback: E,
        timeout: Option<Duration>,
    ) -> Result<Self::Stream, BuildStreamError> where
        D: FnMut(&mut Data, &OutputCallbackInfo) + Send + 'static,
        E: FnMut(StreamError) + Send + 'static,
    ;
}

/// A live stream of a device, with playback control.
pub trait StreamTrait {
    /// Runs the stream; on a running stream this does nothing.
    fn play(&self) -> Result<(), PlayStreamError>;

    /// Suspends the stream; on a paused stream this does nothing. A device
    /// that cannot suspend reports `PauseStreamError::Unsupported`.
    fn pause(&self) -> Result<(), PauseStreamError>;
}

/// The read-only buffer of one capture pass, valid for that pass alone.
pub struct Captures<'a> {
    pub data: &'a [u8],
}

/// What a capture pass knows of the data that follows it.
#[derive(Clone, Copy, Debug, Default, PartialEq, Eq, Structural)]
pub struct AfterCapture {
    /// `Some(n)`: `n` more frames can be captured without waiting on the
    /// event; `None`: the backend cannot tell, and the caller waits.
    pub available_next: Option<usize>,
}

/// A pull-style capture primitive: each call hands one buffer to `f` and
/// takes `f`'s result as the number of frames consumed.
pub trait Source {
    fn capture<F>(&mut self, f: &mut F) -> Result<AfterCapture, SyncStreamError> where
        F: FnMut(Captures<'_>) -> Result<usize, AnyError>,
    ;
}

/// What a render pass knows of the room that follows it.
#[derive(Clone, Copy, Debug, Default, PartialEq, Eq, Structural)]
pub struct AfterRender {
    /// `Some(n)`: `n` more frames can be rendered without waiting on the
    /// event; `None`: the backend cannot tell, and the caller waits.
    pub available_next: Option<usize>,
}

/// The writable buffer of one render pass, valid for that pass alone.
pub struct Renders<'a> {
    pub data: &'a mut [u8],
}

/// A pull-style render primitive: each call hands one buffer to `f` to
/// fill and takes `f`'s result as the number of frames produced.
pub trait Sink {
    fn render<F>(&mut self, f: &mut F) -> Result<AfterRender, SyncStreamError> where
        F: FnMut(Renders<'_>) -> Result<usize, AnyError>,
    ;
}

/// Builds a source bound to a configuration, a period and an event.
pub trait BuildSource {
    type Output: Source;

    fn build_source(
        &mut self,
        cfg: StreamConfig,
        fmt: SampleFormat,
        period: usize,
        ev: EventHandle,
    ) -> Result<Self::Output, BuildStreamError>;
}

/// Builds a sink bound to a configuration, a period and an event.
pub trait BuildSink {
    type Output: Sink;

    fn build_sink(
        &mut self,
        cfg: StreamConfig,
        fmt: SampleFormat,
        period: usize,
        ev: EventHandle,
    ) -> Result<Self::Output, BuildStreamError>;
}

/// Queries the buffer periods that a configuration allows.
pub trait Periodcity {
    fn get_periods(&self, cfg: &SupportedStreamConfig) -> Result<crate::period::Period, GetPeriodsError>;
}

} // verus!
