use deferred::write_all::{Progress, WriteAll, WriteError, WriteEvent};

/// Takes at most `chunk` bytes per write and keeps what it took.
struct ChunkWriter {
    chunk: usize,
    taken: Vec<u8>,
    writes: usize,
}

impl ChunkWriter {
    fn write(&mut self, buf: &[u8]) -> WriteEvent<&'static str> {
        self.writes += 1;
        let n = if buf.len() < self.chunk { buf.len() } else { self.chunk };
        self.taken.extend_from_slice(&buf[..n]);
        WriteEvent::Wrote(n)
    }
}

fn drive(w: &mut WriteAll, writer: &mut ChunkWriter) -> Result<(), WriteError<&'static str>> {
    poll(w, writer)
}

/// One poll of the work: it starts over and writes until the work is decided.
fn poll(w: &mut WriteAll, writer: &mut ChunkWriter) -> Result<(), WriteError<&'static str>> {
    let mut progress: Progress<&'static str> = w.begin();
    loop {
        match progress {
            Progress::Write => {
                let event = writer.write(w.remaining());
                progress = w.advance(event);
            }
            Progress::Pending => panic!("the writer is never pending"),
            Progress::Done(result) => return result,
        }
    }
}

#[test]
fn eight_bytes_in_chunks_of_three_take_three_writes() {
    let data = [1u8, 2, 3, 4, 5, 6, 7, 8];
    let mut writer = ChunkWriter { chunk: 3, taken: Vec::new(), writes: 0 };
    let mut w = WriteAll::new(&data);
    assert_eq!(drive(&mut w, &mut writer), Ok(()));
    assert_eq!(writer.writes, 3);
    assert_eq!(writer.taken, data.to_vec());
    assert_eq!(w.remaining().len(), 0);
}

#[test]
fn a_writer_that_takes_nothing_is_a_write_zero_error_after_one_write() {
    let data = [1u8, 2, 3];
    let mut writer = ChunkWriter { chunk: 0, taken: Vec::new(), writes: 0 };
    let mut w = WriteAll::new(&data);
    assert_eq!(drive(&mut w, &mut writer), Err(WriteError::WriteZero));
    assert_eq!(writer.writes, 1);
    assert_eq!(w.remaining(), &data[..]);
}

#[test]
fn an_empty_buffer_needs_no_write() {
    let data: [u8; 0] = [];
    let mut writer = ChunkWriter { chunk: 3, taken: Vec::new(), writes: 0 };
    let mut w = WriteAll::new(&data);
    assert_eq!(drive(&mut w, &mut writer), Ok(()));
    assert_eq!(writer.writes, 0);
}

#[test]
fn the_cursor_moves_by_what_was_written() {
    let data = [10u8, 20, 30, 40, 50];
    let mut w = WriteAll::new(&data);
    assert_eq!(w.begin::<()>(), Progress::Write);
    assert_eq!(w.advance::<()>(WriteEvent::Wrote(2)), Progress::Write);
    assert_eq!(w.remaining(), &[30u8, 40, 50][..]);
    assert_eq!(w.advance::<()>(WriteEvent::Pending), Progress::Pending);
    assert_eq!(w.remaining(), &[30u8, 40, 50][..]);
    assert_eq!(w.advance::<()>(WriteEvent::Wrote(3)), Progress::Done(Ok(())));
    assert_eq!(w.remaining().len(), 0);
}

#[test]
fn a_failure_of_the_writer_ends_the_work() {
    let data = [1u8, 2];
    let mut w = WriteAll::new(&data);
    assert_eq!(
        w.advance(WriteEvent::Failed("broken pipe")),
        Progress::Done(Err(WriteError::Other("broken pipe")))
    );
    assert_eq!(w.remaining(), &data[..]);
}

#[test]
fn a_poll_after_success_is_a_reuse_and_writes_nothing() {
    let data = [1u8, 2, 3, 4, 5, 6, 7, 8];
    let mut writer = ChunkWriter { chunk: 3, taken: Vec::new(), writes: 0 };
    let mut w = WriteAll::new(&data);
    assert_eq!(poll(&mut w, &mut writer), Ok(()));
    assert_eq!(writer.writes, 3);
    assert_eq!(poll(&mut w, &mut writer), Err(WriteError::Reused));
    assert_eq!(poll(&mut w, &mut writer), Err(WriteError::Reused));
    assert_eq!(writer.writes, 3);
    assert_eq!(writer.taken, data.to_vec());
}

#[test]
fn a_poll_after_a_write_zero_error_is_a_reuse_and_writes_nothing() {
    let data = [1u8, 2, 3];
    let mut writer = ChunkWriter { chunk: 0, taken: Vec::new(), writes: 0 };
    let mut w = WriteAll::new(&data);
    assert_eq!(poll(&mut w, &mut writer), Err(WriteError::WriteZero));
    assert_eq!(poll(&mut w, &mut writer), Err(WriteError::Reused));
    assert_eq!(writer.writes, 1);
}

#[test]
fn a_poll_after_the_empty_buffer_was_done_is_a_reuse() {
    let data: [u8; 0] = [];
    let mut w = WriteAll::new(&data);
    assert_eq!(w.begin::<()>(), Progress::Done(Ok(())));
    assert_eq!(w.begin::<()>(), Progress::Done(Err(WriteError::Reused)));
    assert_eq!(w.advance::<()>(WriteEvent::Wrote(0)), Progress::Done(Err(WriteError::Reused)));
}

#[test]
fn a_poll_after_a_failure_is_a_reuse() {
    let data = [1u8, 2];
    let mut w = WriteAll::new(&data);
    assert_eq!(w.begin::<&'static str>(), Progress::Write);
    assert_eq!(
        w.advance(WriteEvent::Failed("broken pipe")),
        Progress::Done(Err(WriteError::Other("broken pipe")))
    );
    assert_eq!(w.begin::<&'static str>(), Progress::Done(Err(WriteError::Reused)));
    assert_eq!(w.remaining(), &data[..]);
}

#[test]
fn a_pending_write_is_offered_the_same_bytes_again() {
    let data = [1u8, 2, 3];
    let mut w = WriteAll::new(&data);
    assert_eq!(w.begin::<()>(), Progress::Write);
    assert_eq!(w.advance::<()>(WriteEvent::Wrote(1)), Progress::Write);
    assert_eq!(w.advance::<()>(WriteEvent::Pending), Progress::Pending);
    assert_eq!(w.begin::<()>(), Progress::Write);
    assert_eq!(w.remaining(), &data[1..]);
}
