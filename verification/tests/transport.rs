use frame_transport::connection::SplitConnection;
use frame_transport::error::Error;
use frame_transport::frame::{Frame, FRAME_END};
use frame_transport::reader::BufReader;
use frame_transport::writer::BufWriter;

fn encode(channel: u16, frame_type: u8, payload: Vec<u8>) -> Vec<u8> {
    let mut w = BufWriter::new();
    w.stage_frame(channel, &Frame { frame_type, payload });
    let out = w.staged();
    w.drain_all();
    out
}

#[test]
fn write_frame_empty_payload_exact_bytes() {
    let mut w = BufWriter::new();
    assert!(w.is_empty());
    w.stage_frame(1, &Frame { frame_type: 1, payload: vec![] });
    assert_eq!(w.staged(), vec![1, 0x00, 0x01, 0x00, 0x00, 0x00, 0x00, FRAME_END]);
    assert_eq!(w.len(), 8);
    let sent = w.drain_all();
    assert_eq!(sent, 8);
    assert!(w.is_empty());
}

#[test]
fn length_field_is_big_endian_payload_length() {
    for n in [0usize, 1, 255, 256, 65535, 65536, 1 << 24] {
        let bytes = encode(9, 3, vec![0xAB; n]);
        assert_eq!(bytes.len(), 8 + n);
        assert_eq!(&bytes[3..7], (n as u32).to_be_bytes());
        assert_eq!(bytes[7 + n], FRAME_END);
    }
}

#[test]
fn header_layout() {
    let bytes = encode(0x1234, 8, vec![0xEE; 3]);
    assert_eq!(bytes[0], 8);
    assert_eq!(&bytes[1..3], [0x12, 0x34]);
    assert_eq!(&bytes[3..7], [0, 0, 0, 3]);
    assert_eq!(&bytes[7..10], [0xEE, 0xEE, 0xEE]);
    assert_eq!(bytes[10], FRAME_END);
}

#[test]
fn round_trip_one_frame() {
    let payload = vec![10, 20, 30, 40, 50];
    let bytes = encode(7, 2, payload.clone());
    let mut r = BufReader::new();
    r.feed(&bytes);
    let (channel, frame) = r.decode().unwrap().unwrap();
    assert_eq!(channel, 7);
    assert_eq!(frame.frame_type, 2);
    assert_eq!(frame.payload, payload);
    assert!(r.is_empty());
}

#[test]
fn round_trip_empty_payload_high_channel() {
    let bytes = encode(u16::MAX, 1, vec![]);
    let mut r = BufReader::new();
    r.feed(&bytes);
    let (channel, frame) = r.decode().unwrap().unwrap();
    assert_eq!(channel, u16::MAX);
    assert_eq!(frame.frame_type, 1);
    assert!(frame.payload.is_empty());
    assert!(r.is_empty());
}

#[test]
fn partial_frame_left_unconsumed() {
    let whole = encode(1, 1, vec![]);
    let five: Vec<u8> = whole[..5].to_vec();
    let mut r = BufReader::new();
    r.feed(&five);
    assert!(r.decode().unwrap().is_none());
    assert_eq!(r.buffered(), five);
    assert_eq!(r.len(), 5);
}

#[test]
fn partial_payload_left_unconsumed() {
    // complete header declaring 4 payload bytes, but only 2 of them present
    let whole = encode(2, 3, vec![1, 2, 3, 4]);
    let part: Vec<u8> = whole[..9].to_vec();
    let mut r = BufReader::new();
    r.feed(&part);
    assert!(r.decode().unwrap().is_none());
    assert_eq!(r.buffered(), part);
}

#[test]
fn fragmentation_equivalence() {
    let payload: Vec<u8> = (0u8..32).collect();
    let bytes = encode(3, 2, payload.clone());

    // one read
    let mut whole = BufReader::new();
    whole.feed(&bytes);
    let (c1, f1) = whole.decode().unwrap().unwrap();

    // two reads
    let mut two = BufReader::new();
    two.feed(&bytes[..11].to_vec());
    assert!(two.decode().unwrap().is_none());
    two.feed(&bytes[11..].to_vec());
    let (c2, f2) = two.decode().unwrap().unwrap();

    // one read per byte
    let mut many = BufReader::new();
    for b in &bytes {
        assert!(many.decode().unwrap().is_none());
        many.feed(&vec![*b]);
    }
    let (c3, f3) = many.decode().unwrap().unwrap();

    assert_eq!((c1, f1.frame_type, &f1.payload), (3, 2, &payload));
    assert_eq!((c2, f2.frame_type, f2.payload), (c1, f1.frame_type, payload.clone()));
    assert_eq!((c3, f3.frame_type, f3.payload), (c1, f1.frame_type, payload));
    assert!(whole.is_empty() && two.is_empty() && many.is_empty());
}

#[test]
fn clean_close_on_empty_buffer() {
    let mut r = BufReader::new();
    let eof: Vec<u8> = vec![];
    assert_eq!(r.read_step(&eof).unwrap_err(), Error::Closed);
}

#[test]
fn interrupted_close_on_pending_bytes() {
    let mut r = BufReader::new();
    r.feed(&vec![1]);
    let eof: Vec<u8> = vec![];
    assert_eq!(r.read_step(&eof).unwrap_err(), Error::Interrupted);
    // the pending bytes are kept
    assert_eq!(r.buffered(), vec![1]);
}

#[test]
fn read_step_decodes_after_feeding() {
    let bytes = encode(5, 1, vec![9, 9]);
    let mut r = BufReader::new();
    let (channel, frame) = r.read_step(&bytes).unwrap().unwrap();
    assert_eq!(channel, 5);
    assert_eq!(frame.frame_type, 1);
    assert_eq!(frame.payload, vec![9, 9]);
}

#[test]
fn bad_end_marker_is_corruption() {
    let mut bytes = encode(1, 2, vec![5, 6]);
    let last = bytes.len() - 1;
    bytes[last] = FRAME_END.wrapping_add(1);
    let mut r = BufReader::new();
    r.feed(&bytes);
    assert_eq!(r.decode().unwrap_err(), Error::Corrupted);
    // nothing was consumed
    assert_eq!(r.buffered(), bytes);
}

#[test]
fn two_frames_in_one_read() {
    let mut bytes = encode(1, 2, vec![1]);
    bytes.extend_from_slice(&encode(2, 3, vec![7, 8]));
    let mut r = BufReader::new();
    r.feed(&bytes);

    let (c1, f1) = r.decode().unwrap().unwrap();
    assert_eq!((c1, f1.frame_type, f1.payload), (1, 2, vec![1]));
    // exactly the second frame's bytes remain
    assert_eq!(r.buffered(), encode(2, 3, vec![7, 8]));

    let (c2, f2) = r.decode().unwrap().unwrap();
    assert_eq!((c2, f2.frame_type, f2.payload), (2, 3, vec![7, 8]));
    assert!(r.is_empty());
}

#[test]
fn raw_bytes_staged_verbatim() {
    let mut w = BufWriter::new();
    let hello = vec![b'A', b'M', b'Q', b'P', 0, 0, 9, 1];
    w.stage_bytes(&hello);
    assert_eq!(w.staged(), hello);
    assert_eq!(w.drain_all(), 8);
    assert!(w.is_empty());
}

#[test]
fn connection_same_interface_before_split() {
    let mut c = SplitConnection::new();
    c.stage_frame(4, &Frame { frame_type: 1, payload: vec![2] });
    let wire = c.staged();
    assert_eq!(c.drain_all(), wire.len());

    let reply = encode(4, 2, vec![3, 3]);
    let (channel, frame) = c.read_step(&reply).unwrap().unwrap();
    assert_eq!(channel, 4);
    assert_eq!(frame.frame_type, 2);
    assert_eq!(frame.payload, vec![3, 3]);
}

#[test]
fn split_halves_are_independent() {
    let mut c = SplitConnection::new();
    // leave a partial frame pending on the read side
    let whole = encode(1, 1, vec![]);
    assert!(c.read_step(&whole[..5].to_vec()).unwrap().is_none());

    let (mut reader, mut writer) = c.into_split();
    let pending = reader.buffered();
    assert_eq!(pending, whole[..5].to_vec());

    // drive the writer; the reader half keeps its bytes untouched
    writer.stage_frame(2, &Frame { frame_type: 3, payload: vec![9] });
    let out = writer.staged();
    writer.drain_all();
    assert!(writer.is_empty());
    assert_eq!(reader.buffered(), pending);

    // drive the reader; the writer half stays drained
    reader.feed(&whole[5..].to_vec());
    let (channel, frame) = reader.decode().unwrap().unwrap();
    assert_eq!((channel, frame.frame_type), (1, 1));
    assert!(frame.payload.is_empty());
    assert!(writer.is_empty());
    assert_eq!(out.len(), 9);
}
