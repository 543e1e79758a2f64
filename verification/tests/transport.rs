//! Tests for the wire framing codec and the multi-buffer cursor.

use mpc_core::func_net::{decode_frame, encode_frame, frame_len};
use mpc_core::multibuf::MultiBuf;

#[test]
fn framing_round_trip() {
    let data: Vec<u8> = vec![10, 20, 30, 40, 50];
    let framed = encode_frame(&data);
    assert_eq!(framed.len(), 4 + data.len());
    assert_eq!(frame_len(&framed[0..4]), data.len() as u32);
    let back = decode_frame(&framed).expect("a complete frame decodes");
    assert_eq!(back, data);
}

#[test]
fn framing_round_trip_empty() {
    let data: Vec<u8> = vec![];
    let framed = encode_frame(&data);
    assert_eq!(framed, vec![0, 0, 0, 0]);
    let back = decode_frame(&framed).expect("an empty frame decodes");
    assert!(back.is_empty());
}

#[test]
fn framing_length_prefix_is_little_endian() {
    let data: Vec<u8> = vec![7; 258];
    let framed = encode_frame(&data);
    assert_eq!(&framed[0..4], &[2, 1, 0, 0]);
}

#[test]
fn truncated_frame_is_rejected() {
    let data: Vec<u8> = vec![1, 2, 3, 4];
    let mut framed = encode_frame(&data);
    framed.pop();
    assert!(decode_frame(&framed).is_none());
    assert!(decode_frame(&[1, 0]).is_none());
}

#[test]
fn multibuf_cursor_walks_buffers_in_order() {
    let mut mb = MultiBuf::new(vec![vec![1, 2], vec![3, 4, 5], vec![]]);
    assert_eq!(mb.total_size(), 5);
    assert_eq!(mb.next_size(), Some(2));
    {
        let first = mb.next_buf_mut().expect("first buffer");
        assert_eq!(first, &vec![1, 2]);
        first[0] = 9;
    }
    assert_eq!(mb.next_size(), Some(3));
    assert!(mb.next_buf_mut().is_some());
    assert!(mb.next_buf_mut().is_some());
    assert!(mb.next_buf_mut().is_none());
    assert_eq!(mb.next_size(), None);

    mb.reset_pos();
    assert_eq!(mb.next_size(), Some(2));
    let bufs = mb.iter();
    assert_eq!(bufs[0], vec![9, 2]);
    assert_eq!(bufs.len(), 3);
}
