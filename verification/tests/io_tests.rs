use mediabox::io::{Io, IoError, SeekFrom};
use mediabox::span::Span;

#[test]
fn io_write() {
    let cases: &[&[&[u8]]] = &[&[b"abc"], &[b"a", b"b", b"c"]];
    for spans in cases {
        let buf: Vec<u8> = Vec::new();
        let mut io = Io::from_stream(buf);
        for span in *spans {
            io.write(span).unwrap();
        }
        let buf = io.into_writer().unwrap();
        assert_eq!(b"abc".to_vec(), buf);
    }
}

#[test]
fn span_round_trip_single_buffer() {
    let mut io = Io::from_stream(Vec::new());
    let span = Span::from_bytes(b"abc".to_vec());
    io.write_span(&span).unwrap();
    assert_eq!(io.into_writer().unwrap(), b"abc".to_vec());
}

#[test]
fn span_round_trip_fragmented() {
    let mut io = Io::from_stream(Vec::new());
    let span = Span::from_parts(vec![b"a".to_vec(), b"b".to_vec(), b"c".to_vec()]);
    io.write_span(&span).unwrap();
    assert_eq!(io.into_writer().unwrap(), b"abc".to_vec());
}

#[test]
fn span_exposes_parts_in_order() {
    let span = Span::from_parts(vec![b"ab".to_vec(), b"c".to_vec()]);
    let parts = span.spans();
    assert_eq!(parts.len(), 2);
    assert_eq!(parts[0], b"ab".to_vec());
    assert_eq!(parts[1], b"c".to_vec());
}

#[test]
fn write_without_writer_is_not_writeable() {
    let mut io = Io::null();
    assert!(matches!(io.write(b"x"), Err(IoError::NotWriteable)));
    let span = Span::from_bytes(b"x".to_vec());
    assert!(matches!(io.write_span(&span), Err(IoError::NotWriteable)));
    assert!(matches!(io.into_writer(), Err(IoError::NotWriteable)));
}

#[test]
fn seek_on_stream_is_not_seekable() {
    let mut io = Io::from_stream(Vec::new());
    assert!(!io.seekable());
    assert!(matches!(io.seek(SeekFrom::Start(0)), Err(IoError::NotSeekable)));
}

#[test]
fn seek_on_seekable_sink_returns_new_offset() {
    let mut io = Io::from_seekable_sink(Vec::new());
    assert!(io.seekable());
    io.write(b"hello").unwrap();
    assert_eq!(io.seek(SeekFrom::Start(3)).unwrap(), 3);
    assert_eq!(io.seek(SeekFrom::Current(-2)).unwrap(), 1);
    assert_eq!(io.seek(SeekFrom::End(-1)).unwrap(), 4);
    assert!(matches!(
        io.seek(SeekFrom::Current(-10)),
        Err(IoError::UnderlyingIoFailure)
    ));
}

#[test]
fn seek_without_writer_is_not_writeable() {
    let mut io = Io::null();
    assert!(matches!(io.seek(SeekFrom::Start(0)), Err(IoError::NotWriteable)));
}

#[test]
fn seekable_write_overwrites_at_cursor() {
    let mut io = Io::from_seekable_sink(Vec::new());
    io.write(b"abcdef").unwrap();
    io.seek(SeekFrom::Start(2)).unwrap();
    io.write(b"XY").unwrap();
    assert_eq!(io.into_writer().unwrap(), b"abXYef".to_vec());
}

#[test]
fn seekable_write_past_end_zero_fills() {
    let mut io = Io::from_seekable_sink(Vec::new());
    io.seek(SeekFrom::Start(2)).unwrap();
    io.write(b"z").unwrap();
    assert_eq!(io.into_writer().unwrap(), vec![0u8, 0u8, b'z']);
}

#[test]
fn read_exact_fills_and_advances() {
    let mut io = Io::from_reader(vec![1, 2, 3, 4, 5]);
    let mut buf = vec![0u8; 2];
    io.read_exact(&mut buf).unwrap();
    assert_eq!(buf, vec![1, 2]);
    io.read_exact(&mut buf).unwrap();
    assert_eq!(buf, vec![3, 4]);
}

#[test]
fn read_exact_past_end_fails() {
    let mut io = Io::from_reader(vec![1, 2]);
    let mut buf = vec![0u8; 3];
    assert!(matches!(
        io.read_exact(&mut buf),
        Err(IoError::UnderlyingIoFailure)
    ));
}

#[test]
fn read_without_reader_is_not_readable() {
    let mut io = Io::null();
    let mut buf = vec![0u8; 1];
    assert!(matches!(io.read_exact(&mut buf), Err(IoError::NotReadable)));
    assert!(matches!(io.read_probe(), Err(IoError::NotReadable)));
    assert!(matches!(io.skip(1), Err(IoError::NotReadable)));
}

#[test]
fn read_probe_does_not_consume() {
    let mut io = Io::from_reader(vec![9, 8, 7]);
    assert_eq!(io.read_probe().unwrap(), vec![9, 8, 7]);
    assert_eq!(io.read_probe().unwrap(), vec![9, 8, 7]);
    let mut buf = vec![0u8; 1];
    io.read_exact(&mut buf).unwrap();
    assert_eq!(io.read_probe().unwrap(), vec![8, 7]);
}

#[test]
fn skip_discards_on_stream_and_stops_at_end() {
    let mut io = Io::from_reader(vec![1, 2, 3]);
    io.skip(2).unwrap();
    assert_eq!(io.read_probe().unwrap(), vec![3]);
    io.skip(10).unwrap();
    assert_eq!(io.read_probe().unwrap(), Vec::<u8>::new());
}

#[test]
fn skip_on_seekable_source_is_relative_seek() {
    let mut io = Io::from_seekable_source(vec![1, 2, 3]);
    io.skip(1).unwrap();
    assert_eq!(io.read_probe().unwrap(), vec![2, 3]);
    io.skip(5).unwrap();
    assert_eq!(io.read_probe().unwrap(), Vec::<u8>::new());
}

#[test]
fn uri_from_path_accepts_plain_paths() {
    assert!(mediabox::io::uri_from_path("../test/foo").is_ok());
    assert!(mediabox::io::uri_from_path("/tmp/out.mkv").is_ok());
}

#[test]
fn uri_from_path_rejects_invalid_encoding() {
    assert!(matches!(
        mediabox::io::uri_from_path("a b"),
        Err(IoError::UriParseFailure)
    ));
}

#[test]
fn open_check_accepts_file_scheme_and_relative() {
    assert!(mediabox::io::open_check("file:///tmp/x.mkv").is_ok());
    assert!(mediabox::io::open_check("media/input.mkv").is_ok());
}

#[test]
fn open_check_rejects_other_schemes() {
    match mediabox::io::open_check("http://example.com/a.mkv") {
        Err(IoError::UnsupportedScheme(s)) => assert_eq!(s, "http"),
        other => panic!("expected UnsupportedScheme, got {:?}", other),
    }
}

#[test]
fn open_check_rejects_unparsable_uri() {
    assert!(matches!(
        mediabox::io::open_check("http://exa mple/"),
        Err(IoError::UriParseFailure)
    ));
}

#[test]
fn writer_can_be_taken_exactly_once() {
    let mut io = Io::from_stream(b"x".to_vec());
    assert_eq!(io.into_writer().unwrap(), b"x".to_vec());
    assert!(matches!(io.into_writer(), Err(IoError::NotWriteable)));
    assert!(matches!(io.write(b"y"), Err(IoError::NotWriteable)));
}
