use mfx_pipeline::bitstream::{check_write, mfxBitstream, BitstreamSink};
use mfx_pipeline::error::PipelineError;

#[test]
fn new_bitstream_is_empty() {
    let bs = mfxBitstream::new();
    assert_eq!(bs.DataOffset, 0);
    assert_eq!(bs.DataLength, 0);
    assert_eq!(bs.MaxLength, 0);
    assert_eq!(bs.Data.len(), 0);
}

#[test]
fn with_capacity_allocates_the_declared_maximum() {
    let bs = mfxBitstream::with_capacity(1000);
    assert_eq!(bs.MaxLength, 1000);
    assert_eq!(bs.Data.len(), 1000);
    assert_eq!(bs.DataLength, 0);
}

#[test]
fn drain_appends_exactly_the_window_and_resets_length() {
    let mut bs = mfxBitstream::with_capacity(8);
    bs.fill_payload(5, 0x7F);
    assert_eq!(bs.DataLength, 5);
    let mut sink = BitstreamSink::new();
    sink.drain(&mut bs);
    assert_eq!(sink.out, vec![0x7F; 5]);
    assert_eq!(bs.DataLength, 0);
}

#[test]
fn second_drain_without_completion_is_a_no_op() {
    let mut bs = mfxBitstream::with_capacity(8);
    bs.fill_payload(5, 0x11);
    let mut sink = BitstreamSink::new();
    sink.drain(&mut bs);
    assert_eq!(sink.out.len(), 5);
    sink.drain(&mut bs);
    assert_eq!(sink.out.len(), 5);
    assert_eq!(bs.DataLength, 0);
}

#[test]
fn drain_respects_the_window_offset() {
    let mut bs = mfxBitstream::with_capacity(6);
    for i in 0..6 {
        bs.Data[i] = i as u8;
    }
    bs.DataOffset = 2;
    bs.DataLength = 3;
    let mut sink = BitstreamSink::new();
    sink.drain(&mut bs);
    assert_eq!(sink.out, vec![2, 3, 4]);
    assert_eq!(bs.DataOffset, 2);
    assert_eq!(bs.DataLength, 0);
}

#[test]
fn drained_payloads_concatenate_in_order() {
    let mut bs = mfxBitstream::with_capacity(4);
    let mut sink = BitstreamSink::new();
    bs.fill_payload(2, 0xAA);
    sink.drain(&mut bs);
    bs.fill_payload(3, 0xBB);
    sink.drain(&mut bs);
    assert_eq!(sink.out, vec![0xAA, 0xAA, 0xBB, 0xBB, 0xBB]);
}

#[test]
fn short_write_is_the_fatal_condition() {
    assert_eq!(check_write(10, 9).unwrap_err(), PipelineError::OutputWriteFailure);
    assert!(check_write(10, 10).is_ok());
    assert!(check_write(0, 0).is_ok());
}
