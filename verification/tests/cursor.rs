use virtfs_pipe::{ByteSink, ByteSource, Cursor};

#[test]
fn a_new_cursor_stands_at_the_front() {
    let cursor = Cursor::new(vec![1, 2, 3]);
    assert_eq!(cursor.position(), 0);
    assert_eq!(cursor.get_ref(), &vec![1u8, 2, 3]);
    assert_eq!(cursor.into_inner(), vec![1u8, 2, 3]);
}

#[test]
fn cursor_read_takes_what_is_left() {
    let mut cursor = Cursor::new(b"hello".to_vec());
    let mut bufs = vec![vec![0u8; 2], vec![0u8; 2]];
    assert_eq!(cursor.read_vectored(&mut bufs).unwrap(), 4);
    assert_eq!(bufs, vec![b"he".to_vec(), b"ll".to_vec()]);
    assert_eq!(cursor.position(), 4);
    assert_eq!(cursor.read_vectored(&mut bufs).unwrap(), 1);
    assert_eq!(bufs, vec![b"oe".to_vec(), b"ll".to_vec()]);
    assert_eq!(cursor.position(), 5);
    assert_eq!(cursor.read_vectored(&mut bufs).unwrap(), 0);
    assert_eq!(bufs, vec![b"oe".to_vec(), b"ll".to_vec()]);
    assert_eq!(cursor.get_ref(), &b"hello".to_vec());
}

#[test]
fn cursor_read_stops_inside_a_buffer() {
    let mut cursor = Cursor::new(b"abc".to_vec());
    let mut bufs = vec![vec![0u8; 2], vec![7u8; 3], vec![8u8; 1]];
    assert_eq!(cursor.read_vectored(&mut bufs).unwrap(), 3);
    assert_eq!(bufs, vec![b"ab".to_vec(), vec![b'c', 7, 7], vec![8u8]]);
}

#[test]
fn cursor_write_replaces_then_appends() {
    let mut cursor = Cursor::new(b"abcd".to_vec());
    assert_eq!(cursor.write_vectored(&vec![b"X".to_vec(), b"Y".to_vec()]).unwrap(), 2);
    assert_eq!(cursor.get_ref(), &b"XYcd".to_vec());
    assert_eq!(cursor.position(), 2);
    assert_eq!(cursor.write_vectored(&vec![b"123".to_vec()]).unwrap(), 3);
    assert_eq!(cursor.get_ref(), &b"XY123".to_vec());
    assert_eq!(cursor.position(), 5);
    assert_eq!(cursor.write_vectored(&vec![Vec::new()]).unwrap(), 0);
    assert_eq!(cursor.position(), 5);
}

#[test]
fn cursor_reads_what_was_not_written_over() {
    let mut cursor = Cursor::new(b"abcd".to_vec());
    assert_eq!(cursor.write_vectored(&vec![b"Z".to_vec()]).unwrap(), 1);
    let mut bufs = vec![vec![0u8; 8]];
    assert_eq!(cursor.read_vectored(&mut bufs).unwrap(), 3);
    assert_eq!(&bufs[0][..3], b"bcd");
    assert_eq!(cursor.write_vectored(&vec![b"!".to_vec()]).unwrap(), 1);
    assert_eq!(cursor.into_inner(), b"Zbcd!".to_vec());
}
