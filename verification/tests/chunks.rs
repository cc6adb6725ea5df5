use bytes::Bytes;
use tether::chunks::{chunk_frame, FrameReassembler, CHUNK_PAYLOAD};

#[test]
fn chunk_header_matches_ts_format() {
    // u32 LE seq, u16 LE idx, u16 LE count.
    let chunks = chunk_frame(0x01020304, &[0xAA; 100]);
    assert_eq!(chunks.len(), 1);
    assert_eq!(&chunks[0][..8], &[0x04, 0x03, 0x02, 0x01, 0, 0, 1, 0]);
    assert_eq!(&chunks[0][8..], &[0xAA; 100]);
}

#[test]
fn chunk_and_reassemble_round_trip() {
    let wire: Vec<u8> = (0..(CHUNK_PAYLOAD * 2 + 500)).map(|i| (i % 251) as u8).collect();
    let chunks = chunk_frame(7, &wire);
    assert_eq!(chunks.len(), 3);
    let mut r = FrameReassembler::default();
    assert!(r.on_chunk(&chunks[0]).is_none());
    assert!(r.on_chunk(&chunks[2]).is_none()); // out of order
    assert_eq!(r.on_chunk(&chunks[1]).unwrap(), Bytes::from(wire));
}

#[test]
fn newer_frame_discards_partial_older() {
    let old = chunk_frame(1, &[1u8; CHUNK_PAYLOAD + 1]);
    let new_wire = vec![9u8; 100];
    let mut r = FrameReassembler::default();
    assert!(r.on_chunk(&old[0]).is_none());
    assert_eq!(r.on_chunk(&chunk_frame(2, &new_wire)[0]).unwrap(), Bytes::from(new_wire));
    assert!(r.on_chunk(&old[1]).is_none(), "straggler must not resurrect old frame");
}

#[test]
fn an_empty_message_takes_one_chunk_and_exact_multiples_no_extra() {
    assert_eq!(chunk_frame(1, &[]).len(), 1);
    assert_eq!(chunk_frame(1, &[0; CHUNK_PAYLOAD]).len(), 1);
    assert_eq!(chunk_frame(1, &[0; CHUNK_PAYLOAD + 1]).len(), 2);
    let mut r = FrameReassembler::default();
    assert_eq!(r.on_chunk(&chunk_frame(1, &[])[0]).unwrap(), Bytes::new());
}

#[test]
fn malformed_duplicate_and_older_chunks_are_ignored() {
    let mut r = FrameReassembler::default();
    assert!(r.on_chunk(&[0; 7]).is_none());
    assert!(r.on_chunk(&[1, 0, 0, 0, 0, 0, 0, 0]).is_none()); // count 0
    assert!(r.on_chunk(&[1, 0, 0, 0, 2, 0, 2, 0]).is_none()); // idx past count
    let wire = vec![5u8; CHUNK_PAYLOAD + 10];
    let chunks = chunk_frame(10, &wire);
    assert!(r.on_chunk(&chunks[0]).is_none());
    assert!(r.on_chunk(&chunks[0]).is_none());
    assert!(r.on_chunk(&chunk_frame(9, &[1])[0]).is_none()); // older
    assert!(r.on_chunk(&[10, 0, 0, 0, 0, 0, 3, 0]).is_none()); // other count
    assert_eq!(r.on_chunk(&chunks[1]).unwrap(), Bytes::from(wire));
}

#[test]
fn sequence_numbers_wrap_around() {
    let mut r = FrameReassembler::default();
    let last = chunk_frame(u32::MAX, &[1u8; CHUNK_PAYLOAD + 1]);
    assert!(r.on_chunk(&last[0]).is_none());
    assert_eq!(r.on_chunk(&chunk_frame(0, &[2])[0]).unwrap(), Bytes::from_static(&[2]));
}

#[test]
fn an_older_frame_does_not_come_out_after_a_newer_one() {
    let mut r = FrameReassembler::default();
    assert_eq!(r.on_chunk(&chunk_frame(2, &[9])[0]).unwrap(), Bytes::from_static(&[9]));
    assert!(r.on_chunk(&chunk_frame(1, &[1])[0]).is_none());
    assert!(r.on_chunk(&chunk_frame(2, &[9])[0]).is_none());
    assert_eq!(r.on_chunk(&chunk_frame(3, &[3])[0]).unwrap(), Bytes::from_static(&[3]));
}

#[test]
fn repeats_and_malformed_buffers_between_chunks_change_nothing() {
    let wire: Vec<u8> = (0..(CHUNK_PAYLOAD * 2 + 1)).map(|i| (i % 7) as u8).collect();
    let chunks = chunk_frame(5, &wire);
    let mut r = FrameReassembler::default();
    let short: &[u8] = &[1, 2, 3];
    let past: &[u8] = &[5, 0, 0, 0, 3, 0, 3, 0, 1];
    for buf in [short, &chunks[2], past, &chunks[2], &chunks[0], short, &chunks[0], past] {
        assert!(r.on_chunk(buf).is_none());
    }
    assert_eq!(r.on_chunk(&chunks[1]).unwrap(), Bytes::from(wire));
}
