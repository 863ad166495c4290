use std::io::SeekFrom;
use virtfs_pipe::{
    Advice, ByteSource, Cursor, Errno, Fdflags, Filetype, Handle, HandleRights, Oflags, ReadPipe,
    Right, Rights, Store,
};

const ALL_RIGHTS: [Right; 29] = [
    Right::FdDatasync,
    Right::FdRead,
    Right::FdSeek,
    Right::FdFdstatSetFlags,
    Right::FdSync,
    Right::FdTell,
    Right::FdWrite,
    Right::FdAdvise,
    Right::FdAllocate,
    Right::PathCreateDirectory,
    Right::PathCreateFile,
    Right::PathLinkSource,
    Right::PathLinkTarget,
    Right::PathOpen,
    Right::FdReaddir,
    Right::PathReadlink,
    Right::PathRenameSource,
    Right::PathRenameTarget,
    Right::PathFilestatGet,
    Right::PathFilestatSetSize,
    Right::PathFilestatSetTimes,
    Right::FdFilestatGet,
    Right::FdFilestatSetSize,
    Right::FdFilestatSetTimes,
    Right::PathSymlink,
    Right::PathRemoveDirectory,
    Right::PathUnlinkFile,
    Right::PollFdReadwrite,
    Right::SockShutdown,
];

fn xyz_pipe(store: &mut Store<Cursor>) -> ReadPipe<Cursor> {
    ReadPipe::from_bytes(store, b"xyz".to_vec())
}

/// A source that fails on every read.
struct BrokenSource;

impl ByteSource for BrokenSource {
    fn read_vectored(&mut self, _bufs: &mut Vec<Vec<u8>>) -> std::io::Result<usize> {
        Err(std::io::Error::new(std::io::ErrorKind::BrokenPipe, "the other end is gone"))
    }
}

#[test]
fn read_in_pieces_until_the_end() {
    let mut store = Store::new();
    let pipe = xyz_pipe(&mut store);
    let mut bufs = vec![vec![0u8; 2]];
    assert!(matches!(pipe.read_vectored(&mut store, &mut bufs), Ok(2)));
    assert_eq!(bufs, vec![b"xy".to_vec()]);
    assert!(matches!(pipe.read_vectored(&mut store, &mut bufs), Ok(1)));
    assert_eq!(bufs, vec![b"zy".to_vec()]);
    assert!(matches!(pipe.read_vectored(&mut store, &mut bufs), Ok(0)));
    assert_eq!(bufs, vec![b"zy".to_vec()]);
}

#[test]
fn read_fills_buffers_in_order() {
    let mut store = Store::new();
    let pipe = ReadPipe::from_bytes(&mut store, b"abcdefg".to_vec());
    let mut bufs = vec![vec![0u8; 3], vec![], vec![0u8; 2], vec![9u8; 4]];
    assert!(matches!(pipe.read_vectored(&mut store, &mut bufs), Ok(7)));
    assert_eq!(bufs, vec![b"abc".to_vec(), vec![], b"de".to_vec(), vec![b'f', b'g', 9, 9]]);
}

#[test]
fn read_without_room_reads_nothing() {
    let mut store = Store::new();
    let pipe = xyz_pipe(&mut store);
    let mut none: Vec<Vec<u8>> = Vec::new();
    assert!(matches!(pipe.read_vectored(&mut store, &mut none), Ok(0)));
    let mut empty = vec![Vec::new(), Vec::new()];
    assert!(matches!(pipe.read_vectored(&mut store, &mut empty), Ok(0)));
    let mut bufs = vec![vec![0u8; 8]];
    assert!(matches!(pipe.read_vectored(&mut store, &mut bufs), Ok(3)));
    assert_eq!(&bufs[0][..3], b"xyz");
}

#[test]
fn preadv_at_zero_is_a_read() {
    let mut store = Store::new();
    let pipe = xyz_pipe(&mut store);
    let mut bufs = vec![vec![0u8; 2]];
    assert!(matches!(pipe.preadv(&mut store, &mut bufs, 0), Ok(2)));
    assert_eq!(bufs, vec![b"xy".to_vec()]);
    assert!(matches!(pipe.preadv(&mut store, &mut bufs, 0), Ok(1)));
    assert_eq!(bufs[0][0], b'z');
}

#[test]
fn preadv_at_an_offset_is_not_seekable() {
    let mut store = Store::new();
    let pipe = xyz_pipe(&mut store);
    for offset in [1u64, 2, 3, 4096, u64::MAX] {
        let mut bufs = vec![vec![7u8; 2]];
        assert!(matches!(pipe.preadv(&mut store, &mut bufs, offset), Err(Errno::Spipe)));
        assert_eq!(bufs, vec![vec![7u8; 2]]);
    }
    let mut bufs = vec![vec![0u8; 3]];
    assert!(matches!(pipe.read_vectored(&mut store, &mut bufs), Ok(3)));
    assert_eq!(bufs, vec![b"xyz".to_vec()]);
}

#[test]
fn preadv_at_an_offset_is_not_seekable_on_an_empty_source() {
    let mut store = Store::new();
    let pipe = ReadPipe::from_bytes(&mut store, Vec::new());
    let mut bufs = vec![vec![0u8; 1]];
    assert!(matches!(pipe.preadv(&mut store, &mut bufs, 1), Err(Errno::Spipe)));
    assert!(matches!(pipe.preadv(&mut store, &mut bufs, 0), Ok(0)));
}

#[test]
fn preadv_at_an_offset_does_not_reach_the_source() {
    let mut store = Store::new();
    let pipe = ReadPipe::new(&mut store, BrokenSource);
    let mut bufs = vec![vec![0u8; 1]];
    assert!(matches!(pipe.preadv(&mut store, &mut bufs, 5), Err(Errno::Spipe)));
}

#[test]
fn a_failing_source_is_an_io_failure_with_its_cause() {
    let mut store = Store::new();
    let pipe = ReadPipe::new(&mut store, BrokenSource);
    let mut bufs = vec![vec![0u8; 4]];
    match pipe.read_vectored(&mut store, &mut bufs) {
        Err(Errno::Io(cause)) => {
            assert_eq!(cause.kind(), std::io::ErrorKind::BrokenPipe);
            assert_eq!(cause.to_string(), "the other end is gone");
        },
        other => panic!("expected an I/O failure, got {:?}", other),
    }
    match pipe.preadv(&mut store, &mut bufs, 0) {
        Err(Errno::Io(cause)) => assert_eq!(cause.kind(), std::io::ErrorKind::BrokenPipe),
        other => panic!("expected an I/O failure, got {:?}", other),
    }
    assert!(pipe.is_open(&store));
}

#[test]
fn stat_of_a_read_pipe_is_blank() {
    let mut store = Store::new();
    let pipe = xyz_pipe(&mut store);
    let stat = pipe.filestat_get().unwrap();
    assert_eq!(stat.dev, 0);
    assert_eq!(stat.ino, 0);
    assert_eq!(stat.nlink, 0);
    assert_eq!(stat.size, 0);
    assert_eq!(stat.atim, 0);
    assert_eq!(stat.mtim, 0);
    assert_eq!(stat.ctim, 0);
    assert_eq!(stat.filetype, Filetype::Unknown);
    assert_eq!(pipe.get_file_type(), Filetype::Unknown);
}

#[test]
fn read_pipe_refuses_what_needs_a_position() {
    let mut store = Store::new();
    let pipe = xyz_pipe(&mut store);
    assert!(matches!(pipe.seek(SeekFrom::Start(0)), Err(Errno::Spipe)));
    assert!(matches!(pipe.seek(SeekFrom::Current(-1)), Err(Errno::Spipe)));
    assert!(matches!(pipe.seek(SeekFrom::End(0)), Err(Errno::Spipe)));
    assert!(matches!(pipe.advise(Advice::Sequential, 0, 16), Err(Errno::Spipe)));
    assert!(matches!(pipe.advise(Advice::Normal, 0, 0), Err(Errno::Spipe)));
    assert!(matches!(pipe.allocate(0, 1), Err(Errno::Spipe)));
    assert!(matches!(pipe.filestat_set_size(0), Err(Errno::Spipe)));
    assert!(matches!(pipe.filestat_set_size(3), Err(Errno::Spipe)));
    let mut bufs = vec![vec![0u8; 3]];
    assert!(matches!(pipe.read_vectored(&mut store, &mut bufs), Ok(3)));
    assert_eq!(bufs, vec![b"xyz".to_vec()]);
}

#[test]
fn read_pipe_accepts_flags_and_ignores_them() {
    let mut store = Store::new();
    let pipe = xyz_pipe(&mut store);
    let before = pipe.get_rights(&store);
    assert!(matches!(pipe.fdstat_set_flags(Fdflags { bits: 0 }), Ok(())));
    assert!(matches!(pipe.fdstat_set_flags(Fdflags { bits: 0xffff }), Ok(())));
    assert_eq!(pipe.get_rights(&store), before);
    let mut bufs = vec![vec![0u8; 3]];
    assert!(matches!(pipe.read_vectored(&mut store, &mut bufs), Ok(3)));
}

#[test]
fn read_pipe_is_not_a_directory() {
    let mut store = Store::new();
    let pipe = xyz_pipe(&mut store);
    let other = xyz_pipe(&mut store);
    assert!(matches!(pipe.create_directory("d"), Err(Errno::Notdir)));
    assert!(matches!(pipe.create_directory(""), Err(Errno::Notdir)));
    assert!(matches!(
        pipe.openat("f", true, false, Oflags { bits: 0 }, Fdflags { bits: 0 }),
        Err(Errno::Notdir)
    ));
    assert!(matches!(
        pipe.openat("", false, true, Oflags { bits: 1 }, Fdflags { bits: 4 }),
        Err(Errno::Notdir)
    ));
    assert!(matches!(pipe.link("a", &other, "b", false), Err(Errno::Notdir)));
    assert!(matches!(pipe.link("a", &other, "b", true), Err(Errno::Notdir)));
    let mut target = vec![1u8, 2, 3];
    assert!(matches!(pipe.readlink("l", &mut target), Err(Errno::Notdir)));
    assert_eq!(target, vec![1u8, 2, 3]);
    assert!(matches!(pipe.readlinkat("l"), Err(Errno::Notdir)));
    assert!(matches!(pipe.rename("a", &other, "b"), Err(Errno::Notdir)));
    assert!(matches!(pipe.remove_directory("d"), Err(Errno::Notdir)));
    assert!(matches!(pipe.symlink("a", "b"), Err(Errno::Notdir)));
    assert!(matches!(pipe.unlink_file("f"), Err(Errno::Notdir)));
    let mut bufs = vec![vec![0u8; 3]];
    assert!(matches!(pipe.read_vectored(&mut store, &mut bufs), Ok(3)));
    assert!(matches!(other.read_vectored(&mut store, &mut bufs), Ok(3)));
}

#[test]
fn read_pipe_starts_with_the_rights_of_a_read_end() {
    let mut store = Store::new();
    let pipe = xyz_pipe(&mut store);
    let rights = pipe.get_rights(&store);
    let granted = [
        Right::FdDatasync,
        Right::FdFdstatSetFlags,
        Right::FdRead,
        Right::FdSync,
        Right::FdFilestatGet,
        Right::PollFdReadwrite,
    ];
    for right in ALL_RIGHTS {
        assert_eq!(rights.base().has(right), granted.contains(&right), "{:?}", right);
        assert!(!rights.inheriting().has(right), "{:?}", right);
    }
    assert!(rights.inheriting().is_empty());
    assert_eq!(rights.base().bits(), 0x0820_001b);
}

#[test]
fn rights_set_through_a_read_pipe_show_through_its_clone() {
    let mut store = Store::new();
    let pipe = xyz_pipe(&mut store);
    let clone = pipe.try_clone(&mut store);
    let narrowed = HandleRights::from_base(Rights::only(Right::FdRead));
    pipe.set_rights(&mut store, narrowed);
    assert_eq!(clone.get_rights(&store), narrowed);
    assert_eq!(pipe.get_rights(&store), narrowed);
    let widened = HandleRights::new(
        Rights::only(Right::FdRead).with(Right::FdSeek),
        Rights::only(Right::PathOpen),
    );
    clone.set_rights(&mut store, widened);
    assert_eq!(pipe.get_rights(&store), widened);
    let second = clone.try_clone(&mut store);
    assert_eq!(second.get_rights(&store), widened);
}

#[test]
fn rights_of_another_read_pipe_stay() {
    let mut store = Store::new();
    let pipe = xyz_pipe(&mut store);
    let other = xyz_pipe(&mut store);
    let before = other.get_rights(&store);
    pipe.set_rights(&mut store, HandleRights::empty());
    assert_eq!(other.get_rights(&store), before);
    assert!(pipe.get_rights(&store).base().is_empty());
}

#[test]
fn a_read_through_a_clone_moves_the_stream_for_all() {
    let mut store = Store::new();
    let pipe = xyz_pipe(&mut store);
    let clone = pipe.try_clone(&mut store);
    let mut bufs = vec![vec![0u8; 1]];
    assert!(matches!(clone.read_vectored(&mut store, &mut bufs), Ok(1)));
    assert_eq!(bufs[0], b"x");
    assert!(matches!(pipe.read_vectored(&mut store, &mut bufs), Ok(1)));
    assert_eq!(bufs[0], b"y");
    assert!(matches!(clone.read_vectored(&mut store, &mut bufs), Ok(1)));
    assert_eq!(bufs[0], b"z");
    assert!(matches!(pipe.read_vectored(&mut store, &mut bufs), Ok(0)));
    assert!(matches!(clone.read_vectored(&mut store, &mut bufs), Ok(0)));
}

#[test]
fn read_pipes_over_their_own_streams_do_not_meet() {
    let mut store = Store::new();
    let pipe = xyz_pipe(&mut store);
    let other = xyz_pipe(&mut store);
    let mut bufs = vec![vec![0u8; 2]];
    assert!(matches!(pipe.read_vectored(&mut store, &mut bufs), Ok(2)));
    assert!(matches!(other.read_vectored(&mut store, &mut bufs), Ok(2)));
    assert_eq!(bufs[0], b"xy");
}

#[test]
fn a_read_pipe_with_a_clone_keeps_its_stream() {
    let mut store = Store::new();
    let pipe = xyz_pipe(&mut store);
    let clone = pipe.try_clone(&mut store);
    assert_eq!(pipe.sharers(&store), 2);
    let rights = pipe.get_rights(&store);
    let pipe = match pipe.try_into_inner(&mut store) {
        Ok(_) => panic!("the stream was taken while a clone had it"),
        Err(pipe) => pipe,
    };
    assert!(pipe.is_open(&store));
    assert!(clone.is_open(&store));
    assert_eq!(pipe.sharers(&store), 2);
    assert_eq!(pipe.get_rights(&store), rights);
    assert_eq!(clone.get_rights(&store), rights);
    let clone = match clone.try_into_inner(&mut store) {
        Ok(_) => panic!("the stream was taken while a clone had it"),
        Err(clone) => clone,
    };
    let mut bufs = vec![vec![0u8; 2]];
    assert!(matches!(pipe.read_vectored(&mut store, &mut bufs), Ok(2)));
    assert_eq!(bufs[0], b"xy");
    assert!(matches!(clone.read_vectored(&mut store, &mut bufs), Ok(1)));
    assert_eq!(bufs[0][0], b'z');
}

#[test]
fn the_last_read_pipe_gets_its_stream_back() {
    let mut store = Store::new();
    let pipe = xyz_pipe(&mut store);
    let clone = pipe.try_clone(&mut store);
    let mut bufs = vec![vec![0u8; 2]];
    assert!(matches!(clone.read_vectored(&mut store, &mut bufs), Ok(2)));
    clone.close(&mut store);
    assert_eq!(pipe.sharers(&store), 1);
    let cursor = match pipe.try_into_inner(&mut store) {
        Ok(cursor) => cursor,
        Err(_) => panic!("the last handle could not take the stream"),
    };
    assert_eq!(cursor.position(), 2);
    assert_eq!(cursor.get_ref(), &b"xyz".to_vec());
    assert_eq!(cursor.into_inner(), b"xyz".to_vec());
}

#[test]
fn a_single_read_pipe_gets_its_stream_back_at_once() {
    let mut store = Store::new();
    let pipe = ReadPipe::new(&mut store, Cursor::new(vec![1, 2, 3, 4]));
    let cursor = pipe.try_into_inner(&mut store).unwrap();
    assert_eq!(cursor.position(), 0);
    assert_eq!(cursor.into_inner(), vec![1, 2, 3, 4]);
}

#[test]
fn closing_the_last_read_pipe_frees_its_cells() {
    let mut store = Store::new();
    let pipe = xyz_pipe(&mut store);
    let clone = pipe.try_clone(&mut store);
    pipe.close(&mut store);
    assert!(clone.is_open(&store));
    assert_eq!(clone.sharers(&store), 1);
    let last = clone.try_clone(&mut store);
    clone.close(&mut store);
    assert!(last.is_open(&store));
    let probe = last.try_clone(&mut store);
    last.close(&mut store);
    probe.close(&mut store);
    let fresh = xyz_pipe(&mut store);
    assert!(fresh.is_open(&store));
    assert_eq!(fresh.sharers(&store), 1);
}

#[test]
fn read_pipes_from_one_shared_stream_have_rights_of_their_own() {
    let mut store: Store<Cursor> = Store::new();
    let first_key = store.streams.share(Cursor::new(b"xyz".to_vec()));
    let second_key = store.streams.retain(&first_key);
    let first = ReadPipe::from_shared(&mut store, first_key);
    let second = ReadPipe::from_shared(&mut store, second_key);
    assert_eq!(first.sharers(&store), 2);
    assert_eq!(first.get_rights(&store), second.get_rights(&store));
    first.set_rights(&mut store, HandleRights::empty());
    assert!(first.get_rights(&store).base().is_empty());
    assert!(second.get_rights(&store).base().has(Right::FdRead));
    let mut bufs = vec![vec![0u8; 2]];
    assert!(matches!(first.read_vectored(&mut store, &mut bufs), Ok(2)));
    assert!(matches!(second.read_vectored(&mut store, &mut bufs), Ok(1)));
    assert_eq!(bufs[0][0], b'z');
    let second = match second.try_into_inner(&mut store) {
        Ok(_) => panic!("the stream was taken while another handle had it"),
        Err(second) => second,
    };
    first.close(&mut store);
    let cursor = second.try_into_inner(&mut store).unwrap();
    assert_eq!(cursor.position(), 3);
}

#[test]
fn can_clone_tells_open_handles() {
    let mut store = Store::new();
    let pipe = xyz_pipe(&mut store);
    assert!(pipe.can_clone(&store));
    let other: Store<Cursor> = Store::new();
    assert!(!pipe.is_open(&other));
    assert!(!pipe.can_clone(&other));
}

#[test]
fn read_pipe_over_a_slice_copies_it() {
    let mut store = Store::new();
    let bytes = [10u8, 20, 30];
    let pipe = ReadPipe::from_slice(&mut store, &bytes);
    let mut bufs = vec![vec![0u8; 4]];
    assert!(matches!(pipe.read_vectored(&mut store, &mut bufs), Ok(3)));
    assert_eq!(bufs[0], vec![10u8, 20, 30, 0]);
}

#[test]
fn read_pipe_over_text_reads_its_bytes() {
    let mut store = Store::new();
    let pipe = ReadPipe::from_text(&mut store, "h\u{e9}!");
    let mut bufs = vec![vec![0u8; 8]];
    assert!(matches!(pipe.read_vectored(&mut store, &mut bufs), Ok(4)));
    assert_eq!(&bufs[0][..4], &[b'h', 0xc3, 0xa9, b'!']);
    let owned = ReadPipe::from_string(&mut store, String::from("ok"));
    assert!(matches!(owned.read_vectored(&mut store, &mut bufs), Ok(2)));
    assert_eq!(&bufs[0][..2], b"ok");
}

fn refused_by_any_handle<H: Handle>(handle: &H) -> bool {
    matches!(handle.seek(SeekFrom::Start(1)), Err(Errno::Spipe))
        && matches!(handle.allocate(1, 1), Err(Errno::Spipe))
        && matches!(handle.unlink_file("f"), Err(Errno::Notdir))
        && matches!(handle.symlink("a", "b"), Err(Errno::Notdir))
        && handle.get_file_type() == Filetype::Unknown
}

#[test]
fn both_ends_refuse_alike() {
    let mut readers = Store::new();
    let mut writers = Store::new();
    let reader = xyz_pipe(&mut readers);
    let writer = virtfs_pipe::WritePipe::new_in_memory(&mut writers);
    assert!(refused_by_any_handle(&reader));
    assert!(refused_by_any_handle(&writer));
}
