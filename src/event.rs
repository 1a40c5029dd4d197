use vstd::prelude::*;

verus! {

/// The value of a Windows kernel `HANDLE`, kept as the integer it holds.
#[derive(Clone, Copy, Debug, PartialEq, Eq, Structural)]
pub struct WinHandle(pub usize);

/// A platform-tagged handle to a kernel synchronization primitive that a
/// backend signals when a new buffer is ready.
///
/// It identifies the primitive and never owns audio data.
#[derive(Clone, Copy, Debug, PartialEq, Eq, Structural)]
pub enum EventHandle {
    WASAPI(WinHandle),
}

impl EventHandle {
    /// The Windows kernel handle, when this is a Windows event.
    pub fn inner(&self) -> (r: Option<&WinHandle>)
        ensures
            match *self {
                EventHandle::WASAPI(h) => r == Some(&h),
            },
    {
        match self {
            EventHandle::WASAPI(h) => Some(h),
        }
    }
}

impl From<WinHandle> for EventHandle {
    fn from(value: WinHandle) -> (r: Self)
        ensures
            r == EventHandle::WASAPI(value),
    {
        EventHandle::WASAPI(value)
    }
}

impl vstd::std_specs::convert::FromSpecImpl<WinHandle> for EventHandle {
    open spec fn obeys_from_spec() -> bool {
        true
    }

    open spec fn from_spec(v: WinHandle) -> EventHandle {
        EventHandle::WASAPI(v)
    }
}

} // verus!
