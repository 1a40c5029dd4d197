use audio_bridge::pass::{settle_capture, settle_render};
use audio_bridge::traits::{AfterCapture, AfterRender, Captures, Renders, Sink, Source};
use audio_bridge::types::{AnyError, SyncStreamError};

/// An in-memory source of one-byte frames, delivered `period` at a time.
struct MemSource {
    frames: Vec<u8>,
    period: usize,
}

impl Source for MemSource {
    fn capture<F>(&mut self, f: &mut F) -> Result<AfterCapture, SyncStreamError>
    where
        F: FnMut(Captures<'_>) -> Result<usize, AnyError>,
    {
        let capacity = self.period.min(self.frames.len());
        let outcome = f(Captures { data: &self.frames[..capacity] });
        let (consumed, after) = settle_capture(capacity, Some(self.frames.len() - capacity), outcome)?;
        self.frames.drain(..consumed);
        Ok(after)
    }
}

/// An in-memory sink that keeps what it was given.
struct MemSink {
    out: Vec<u8>,
    period: usize,
}

impl Sink for MemSink {
    fn render<F>(&mut self, f: &mut F) -> Result<AfterRender, SyncStreamError>
    where
        F: FnMut(Renders<'_>) -> Result<usize, AnyError>,
    {
        let mut buf = vec![0u8; self.period];
        let outcome = f(Renders { data: &mut buf });
        let (produced, after) = settle_render(self.period, None, outcome)?;
        self.out.extend_from_slice(&buf[..produced]);
        Ok(after)
    }
}

#[test]
fn overlong_count_is_rejected() {
    let r = settle_capture(4, Some(0), Ok(5));
    assert_eq!(r, Err(SyncStreamError::FrameCountOverflow { returned: 5, capacity: 4 }));
    let r = settle_render(4, None, Ok(9));
    assert_eq!(r, Err(SyncStreamError::FrameCountOverflow { returned: 9, capacity: 4 }));
}

#[test]
fn overlong_count_through_a_source_is_rejected() {
    let mut src = MemSource { frames: vec![1, 2, 3], period: 2 };
    let r = src.capture(&mut |c: Captures<'_>| Ok(c.data.len() + 1));
    assert_eq!(r, Err(SyncStreamError::FrameCountOverflow { returned: 3, capacity: 2 }));
    assert_eq!(src.frames, vec![1, 2, 3]);
}

#[test]
fn empty_passes_report_a_steady_count() {
    let mut src = MemSource { frames: vec![0; 10], period: 4 };
    for _ in 0..5 {
        let after = src.capture(&mut |_c: Captures<'_>| Ok(0)).unwrap();
        assert_eq!(after, AfterCapture { available_next: Some(10) });
    }
    assert_eq!(src.frames.len(), 10);
}

#[test]
fn capture_counts_what_remains() {
    let mut src = MemSource { frames: vec![5, 6, 7, 8, 9], period: 2 };
    let mut seen = Vec::new();
    let after = src
        .capture(&mut |c: Captures<'_>| {
            seen.extend_from_slice(c.data);
            Ok(1)
        })
        .unwrap();
    assert_eq!(seen, vec![5, 6]);
    assert_eq!(after.available_next, Some(4));
    assert_eq!(settle_capture(3, Some(usize::MAX), Ok(0)).unwrap().1.available_next, None);
    assert_eq!(settle_capture(3, None, Ok(2)), Ok((2, AfterCapture { available_next: None })));
}

#[test]
fn closure_error_is_passed_on() {
    let e = AnyError { description: "device lost".to_string() };
    assert_eq!(settle_capture(4, None, Err(e.clone())), Err(SyncStreamError::Callback(e.clone())));
    assert_eq!(settle_render(4, Some(1), Err(e.clone())), Err(SyncStreamError::Callback(e)));
}

#[test]
fn render_keeps_what_was_produced() {
    let mut sink = MemSink { out: Vec::new(), period: 4 };
    let after = sink
        .render(&mut |r: Renders<'_>| {
            r.data[0] = 3;
            r.data[1] = 4;
            Ok(2)
        })
        .unwrap();
    assert_eq!(after, AfterRender { available_next: None });
    assert_eq!(sink.out, vec![3, 4]);
    assert_eq!(settle_render(4, Some(8), Ok(4)), Ok((4, AfterRender { available_next: Some(8) })));
}

#[test]
fn empty_passes_never_report_fewer_frames() {
    let mut src = MemSource { frames: vec![0; 3], period: 4 };
    let first = src.capture(&mut |_c: Captures<'_>| Ok(0)).unwrap();
    src.frames.extend_from_slice(&[1, 2, 3]);
    let second = src.capture(&mut |_c: Captures<'_>| Ok(0)).unwrap();
    assert_eq!(first.available_next, Some(3));
    assert_eq!(second.available_next, Some(6));
}
