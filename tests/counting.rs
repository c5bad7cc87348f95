use lzma_rust::CountingWriter;
use std::io::Write;

/// Accepts at most `room` bytes per call, then fails once `fail_after` calls were made.
struct Limited {
    data: Vec<u8>,
    room: usize,
    calls: usize,
    fail_after: usize,
}

impl Write for Limited {
    fn write(&mut self, buf: &[u8]) -> std::io::Result<usize> {
        if self.calls >= self.fail_after {
            return Err(std::io::Error::new(std::io::ErrorKind::BrokenPipe, "closed"));
        }
        self.calls += 1;
        let n = buf.len().min(self.room);
        self.data.extend_from_slice(&buf[..n]);
        Ok(n)
    }

    fn flush(&mut self) -> std::io::Result<()> {
        Ok(())
    }
}

fn write<W: Write>(w: &mut CountingWriter<W>, buf: &[u8]) -> std::io::Result<usize> {
    let outcome = w.inner.write(buf);
    w.record_write(outcome)
}

#[test]
fn in_memory_sink_counts_and_forwards() {
    let mut w = CountingWriter::new(Vec::new());
    let counter = w.counting();
    assert_eq!(write(&mut w, b"abc").unwrap(), 3);
    assert_eq!(write(&mut w, b"de").unwrap(), 2);
    w.inner.flush().unwrap();
    assert_eq!(w.written_bytes(), 5);
    assert_eq!(counter.get(), 5);
    assert_eq!(w.inner().as_slice(), b"abcde");
}

#[test]
fn successful_writes_total_payload_size() {
    let payloads: [&[u8]; 4] = [b"", b"x", b"hello", b"0123456789"];
    let mut w = CountingWriter::new(Vec::new());
    let reader = w.counting();
    let mut total = 0;
    for p in payloads.iter() {
        write(&mut w, p).unwrap();
        total += p.len();
        assert_eq!(w.written_bytes(), total);
        assert_eq!(reader.get(), total);
    }
    assert_eq!(total, 16);
    assert_eq!(w.written_bytes(), 16);
    assert_eq!(reader.get(), 16);
}

#[test]
fn partial_write_counts_only_delivered_bytes() {
    let sink = Limited { data: Vec::new(), room: 2, calls: 0, fail_after: 10 };
    let mut w = CountingWriter::new(sink);
    assert_eq!(write(&mut w, b"abcdef").unwrap(), 2);
    assert_eq!(w.written_bytes(), 2);
    assert_eq!(w.counting().get(), 2);
    assert_eq!(w.inner().data, b"ab".to_vec());
}

#[test]
fn failed_write_leaves_count_unchanged() {
    let sink = Limited { data: Vec::new(), room: 100, calls: 0, fail_after: 1 };
    let mut w = CountingWriter::new(sink);
    assert_eq!(write(&mut w, b"abc").unwrap(), 3);
    let err = write(&mut w, b"defg").unwrap_err();
    assert_eq!(err.kind(), std::io::ErrorKind::BrokenPipe);
    assert_eq!(w.written_bytes(), 3);
    assert_eq!(w.counting().get(), 3);
}

#[test]
fn record_write_passes_outcome_through() {
    let mut w = CountingWriter::new(());
    assert_eq!(w.record_write::<u8>(Ok(7)), Ok(7));
    assert_eq!(w.record_write::<u8>(Err(4)), Err(4));
    assert_eq!(w.record_write::<u8>(Ok(0)), Ok(0));
    assert_eq!(w.written_bytes(), 7);
}

#[test]
fn new_writer_starts_at_zero() {
    let w = CountingWriter::new(Vec::<u8>::new());
    assert_eq!(w.written_bytes(), 0);
    assert_eq!(w.counting().get(), 0);
    assert!(w.inner().is_empty());
}

#[test]
fn counting_handles_share_one_total() {
    let mut w = CountingWriter::new(Vec::new());
    let a = w.counting();
    let b = w.counting();
    write(&mut w, b"xyz").unwrap();
    assert_eq!(a.get(), 3);
    assert_eq!(b.get(), 3);
}
