//! Reads: the view over the caller's slice, and the count that is reported.

use fut_compat::poll::Polled;
use fut_compat::read::poll_read;
use fut_compat::read::start_read;
use fut_compat::read::try_poll_read;
use std::io::Error;
use std::io::ErrorKind;
use std::pin::Pin;
use std::task::Context;
use std::task::Poll;
use std::task::Waker;
use tokio::io::AsyncRead;
use tokio::io::ReadBuf;

fn polled_read<T>(poll: Poll<T>) -> Polled<T> {
    match poll {
        Poll::Pending => Polled::Pending,
        Poll::Ready(value) => Polled::Ready(value),
    }
}

/// One read through the adapter's steps, as a caller of the library makes it.
fn read_once<R: AsyncRead + Unpin>(inner: &mut R, buf: &mut [u8]) -> Polled<Result<usize, Error>> {
    let mut cx = Context::from_waker(Waker::noop());
    let (mut view, filled_before) = start_read(buf);
    let polled = polled_read(AsyncRead::poll_read(Pin::new(inner), &mut cx, &mut view));
    try_poll_read(&view, filled_before, polled).expect("the filled region shrank")
}

/// Stalls at the first poll, then gives its bytes.
struct StallsOnce {
    stalled: bool,
    bytes: Vec<u8>,
}

impl AsyncRead for StallsOnce {
    fn poll_read(self: Pin<&mut Self>, _cx: &mut Context<'_>, buf: &mut ReadBuf<'_>) -> Poll<std::io::Result<()>> {
        let this = Pin::into_inner(self);
        if !this.stalled {
            this.stalled = true;
            return Poll::Ready(Err(Error::from(ErrorKind::WouldBlock)));
        }
        buf.put_slice(&this.bytes);
        Poll::Ready(Ok(()))
    }
}

/// Answers every poll with the same kind of failure.
struct Fails(ErrorKind, &'static str);

impl AsyncRead for Fails {
    fn poll_read(self: Pin<&mut Self>, _cx: &mut Context<'_>, _buf: &mut ReadBuf<'_>) -> Poll<std::io::Result<()>> {
        Poll::Ready(Err(Error::new(self.0, self.1)))
    }
}

/// Is never ready.
struct Never;

impl AsyncRead for Never {
    fn poll_read(self: Pin<&mut Self>, _cx: &mut Context<'_>, _buf: &mut ReadBuf<'_>) -> Poll<std::io::Result<()>> {
        Poll::Pending
    }
}

#[test]
fn a_new_view_has_nothing_filled() {
    let mut buf = [9u8; 8];
    let (view, filled_before) = start_read(&mut buf);
    assert_eq!(filled_before, 0);
    assert!(view.filled().is_empty());
    assert_eq!(view.capacity(), 8);
}

#[test]
fn a_view_over_an_empty_slice_has_nothing_filled() {
    let mut buf = [0u8; 0];
    let (view, filled_before) = start_read(&mut buf);
    assert_eq!(filled_before, 0);
    assert_eq!(view.capacity(), 0);
}

#[test]
fn a_read_reports_the_bytes_that_were_filled() {
    let mut source: &[u8] = &[10, 20, 30, 40, 50];
    let mut buf = [0u8; 3];
    let out = read_once(&mut source, &mut buf);
    assert!(matches!(out, Polled::Ready(Ok(3))));
    assert_eq!(buf, [10, 20, 30]);
    let out = read_once(&mut source, &mut buf);
    assert!(matches!(out, Polled::Ready(Ok(2))));
    assert_eq!(&buf[..2], &[40, 50]);
}

#[test]
fn a_read_at_the_end_reports_zero() {
    let mut source: &[u8] = &[];
    let mut buf = [7u8; 4];
    let out = read_once(&mut source, &mut buf);
    assert!(matches!(out, Polled::Ready(Ok(0))));
    assert_eq!(buf, [7, 7, 7, 7]);
}

#[test]
fn a_read_reports_the_growth_and_not_the_whole_filled_length() {
    let mut buf = [0u8; 8];
    let (mut view, _) = start_read(&mut buf);
    view.put_slice(&[1, 2]);
    let filled_before = view.filled().len();
    view.put_slice(&[3, 4, 5]);
    let out = poll_read(&view, filled_before, Polled::Ready(Ok(())));
    assert!(matches!(out, Polled::Ready(Ok(3))));
}

#[test]
fn a_read_that_is_not_ready_stays_not_ready() {
    let mut buf = [0u8; 4];
    let out = read_once(&mut Never, &mut buf);
    assert!(matches!(out, Polled::Pending));
}

#[test]
fn a_read_that_stalls_is_not_ready() {
    let mut buf = [0u8; 4];
    let out = read_once(&mut Fails(ErrorKind::WouldBlock, "later"), &mut buf);
    assert!(matches!(out, Polled::Pending));
}

#[test]
fn a_read_that_is_interrupted_fails_with_the_fixed_text() {
    let mut buf = [0u8; 4];
    match read_once(&mut Fails(ErrorKind::Interrupted, "signal"), &mut buf) {
        Polled::Ready(Err(err)) => {
            assert_eq!(err.kind(), ErrorKind::Other);
            assert_eq!(err.to_string(), "Interrupted.");
        }
        other => panic!("unexpected report: {:?}", other),
    }
}

#[test]
fn a_read_that_fails_reports_the_failure_as_it_came() {
    let mut buf = [0u8; 4];
    match read_once(&mut Fails(ErrorKind::ConnectionReset, "peer left"), &mut buf) {
        Polled::Ready(Err(err)) => {
            assert_eq!(err.kind(), ErrorKind::ConnectionReset);
            assert_eq!(err.to_string(), "peer left");
        }
        other => panic!("unexpected report: {:?}", other),
    }
}

#[test]
fn a_read_that_stalls_once_is_not_ready_and_then_reports_three() {
    let mut inner = StallsOnce { stalled: false, bytes: vec![7, 8, 9] };
    let mut buf = [0u8; 16];
    let first = read_once(&mut inner, &mut buf);
    assert!(matches!(first, Polled::Pending));
    let second = read_once(&mut inner, &mut buf);
    assert!(matches!(second, Polled::Ready(Ok(3))));
    assert_eq!(&buf[..3], &[7, 8, 9]);
}

#[test]
fn a_filled_region_that_shrank_is_told_apart() {
    let mut buf = [0u8; 4];
    let (view, _) = start_read(&mut buf);
    let out = try_poll_read(&view, 2, Polled::Ready(Ok(())));
    assert!(out.is_none());
}

#[test]
fn a_filled_region_that_shrank_does_not_matter_without_success() {
    let mut buf = [0u8; 4];
    let (view, _) = start_read(&mut buf);
    let out = try_poll_read(&view, 2, Polled::Pending);
    assert!(matches!(out, Some(Polled::Pending)));
    let out = try_poll_read(&view, 2, Polled::Ready(Err(Error::from(ErrorKind::WouldBlock))));
    assert!(matches!(out, Some(Polled::Pending)));
    match try_poll_read(&view, 2, Polled::Ready(Err(Error::new(ErrorKind::InvalidData, "bad")))) {
        Some(Polled::Ready(Err(err))) => {
            assert_eq!(err.kind(), ErrorKind::InvalidData);
            assert_eq!(err.to_string(), "bad");
        }
        other => panic!("unexpected report: {:?}", other),
    }
}
