//! The unified I/O abstraction: an in-memory resource that hides whether a
//! byte sink or source supports random-access seeking or is forward-only,
//! while supporting non-consuming content sniffing.
use vstd::prelude::*;

verus! {

/// The error taxonomy at the I/O boundary. All conditions are recoverable
/// from the caller's perspective.
#[derive(Clone, Debug)]
pub enum IoError {
    /// No reader is attached, so a read-path operation cannot proceed.
    NotReadable,
    /// No writer is attached, so a write-path operation cannot proceed.
    NotWriteable,
    /// The resource is forward-only; random-access seeking is unsupported.
    NotSeekable,
    /// The URI names a scheme other than a local file.
    UnsupportedScheme(String),
    /// The URI reference could not be parsed.
    UriParseFailure,
    /// The underlying resource failed or was exhausted.
    UnderlyingIoFailure,
    /// Anything else.
    Other,
}

/// A seek request, relative to the start, the end, or the current position.
#[derive(Clone, Copy, Debug, PartialEq, Eq, Structural)]
pub enum SeekFrom {
    Start(usize),
    End(isize),
    Current(isize),
}

/// The contents of a byte range after writing `bytes` at offset `pos`:
/// the written range, the untouched remainder of the old contents, and
/// zero fill for any gap a seek past the end left behind.
pub open spec fn write_at(content: Seq<u8>, pos: int, bytes: Seq<u8>) -> Seq<u8>
    recommends
        0 <= pos,
{
    if bytes.len() == 0 {
        content
    } else {
        write_at_nonempty(content, pos, bytes)
    }
}

/// The byte range a non-empty write at `pos` produces.
pub open spec fn write_at_nonempty(content: Seq<u8>, pos: int, bytes: Seq<u8>) -> Seq<u8>
    recommends
        0 <= pos,
{
    let end = pos + bytes.len();
    let len = if end > content.len() {
        end
    } else {
        content.len() as int
    };
    Seq::new(
        len as nat,
        |k: int|
            if pos <= k < end {
                bytes[k - pos]
            } else if k < content.len() {
                content[k]
            } else {
                0u8
            },
    )
}

/// Writing two byte ranges back to back is one write of their concatenation.
pub proof fn lemma_write_at_concat(content: Seq<u8>, pos: int, a: Seq<u8>, b: Seq<u8>)
    requires
        0 <= pos,
    ensures
        write_at(write_at(content, pos, a), pos + a.len(), b) == write_at(content, pos, a + b),
{
    assert(write_at(write_at(content, pos, a), pos + a.len(), b) =~= write_at(
        content,
        pos,
        a + b,
    ));
}

/// Writing at the very end of a byte range appends, whatever the content:
/// the sole reachable case for a forward-only sink.
pub proof fn lemma_write_at_end_appends(content: Seq<u8>, bytes: Seq<u8>)
    ensures
        write_at(content, content.len() as int, bytes) == content + bytes,
{
    assert(write_at(content, content.len() as int, bytes) =~= content + bytes);
}

/// Writes `bytes` into `buf` at offset `pos`, padding with zeros if `pos`
/// lies past the end, and reports the position just after the written range.
fn overwrite_at(buf: &mut Vec<u8>, pos: usize, bytes: &[u8]) -> (newpos: usize)
    ensures
        final(buf)@ == write_at(old(buf)@, pos as int, bytes@),
        newpos == pos + bytes@.len(),
{
    if bytes.len() == 0 {
        return pos;
    }
    while buf.len() < pos
        invariant
            buf@.len() >= old(buf)@.len(),
            buf@.len() > pos ==> buf@ == old(buf)@,
            forall|k: int| 0 <= k < old(buf)@.len() && k < buf@.len() ==> buf@[k] == old(buf)@[k],
            forall|k: int| old(buf)@.len() <= k < buf@.len() ==> buf@[k] == 0u8,
        decreases pos - buf.len(),
    {
        buf.push(0u8);
    }
    let mut p = pos;
    let mut i: usize = 0;
    while i < bytes.len()
        invariant
            i <= bytes@.len(),
            p == pos + i,
            p <= buf@.len(),
            pos <= buf@.len(),
            buf@.len() == if pos + i > old(buf)@.len() {
                pos + i
            } else {
                old(buf)@.len() as int
            },
            forall|k: int|
                0 <= k < buf@.len() ==> buf@[k] == (if pos <= k < pos + i {
                    bytes@[k - pos]
                } else if k < old(buf)@.len() {
                    old(buf)@[k]
                } else {
                    0u8
                }),
        decreases bytes@.len() - i,
    {
        if p < buf.len() {
            buf.set(p, bytes[i]);
            p = p + 1;
        } else {
            buf.push(bytes[i]);
            p = buf.len();
        }
        i = i + 1;
    }
    proof {
        assert(buf@ =~= write_at(old(buf)@, pos as int, bytes@));
    }
    p
}

/// Fills the whole buffer from the cursor into `data`, advancing the cursor,
/// or fails with `UnderlyingIoFailure` when fewer bytes remain than the
/// buffer asks for (the cursor and the buffer stay untouched then).
fn read_exact_from(data: &Vec<u8>, pos: &mut usize, buf: &mut Vec<u8>) -> (r: Result<
    (),
    IoError,
>)
    ensures
        if *old(pos) + old(buf)@.len() <= data@.len() {
            r is Ok && *final(pos) == *old(pos) + old(buf)@.len() && final(buf)@ == data@.subrange(
                *old(pos) as int,
                *old(pos) + old(buf)@.len(),
            )
        } else {
            (r matches Err(e) && e is UnderlyingIoFailure) && *final(pos) == *old(pos)
                && *final(buf) == *old(buf)
        },
{
    let n = buf.len();
    if *pos > data.len() || n > data.len() - *pos {
        return Err(IoError::UnderlyingIoFailure);
    }
    let start = *pos;
    let mut i: usize = 0;
    while i < n
        invariant
            i <= n,
            start + n <= data@.len(),
            start + n <= usize::MAX,
            buf@.len() == n,
            forall|k: int| 0 <= k < i ==> buf@[k] == data@[start + k],
        decreases n - i,
    {
        let b = data[start + i];
        buf.set(i, b);
        i += 1;
    }
    *pos = start + n;
    proof {
        assert(buf@ =~= data@.subrange(start as int, start + n));
    }
    Ok(())
}

/// An attached byte sink, either random-access or forward-only. The
/// in-memory buffer stands for whatever resource ultimately receives the
/// bytes.
pub enum Writer {
    Seekable { buf: Vec<u8>, pos: usize },
    Stream { buf: Vec<u8> },
}

impl Writer {
    /// The bytes the sink holds.
    pub open spec fn bytes(&self) -> Seq<u8> {
        match self {
            Writer::Seekable { buf, .. } => buf@,
            Writer::Stream { buf } => buf@,
        }
    }

    /// The write cursor; a forward-only sink always writes at its end.
    pub open spec fn position(&self) -> int {
        match self {
            Writer::Seekable { pos, .. } => *pos as int,
            Writer::Stream { buf } => buf@.len() as int,
        }
    }

    pub open spec fn is_seekable(&self) -> bool {
        self is Seekable
    }

    /// Write-all: the whole payload lands at the write cursor.
    fn write(&mut self, bytes: &[u8])
        ensures
            final(self).bytes() == write_at(old(self).bytes(), old(self).position(), bytes@),
            final(self).position() == old(self).position() + bytes@.len(),
            final(self).is_seekable() == old(self).is_seekable(),
    {
        match self {
            Writer::Seekable { buf, pos } => {
                let newpos = overwrite_at(buf, *pos, bytes);
                *pos = newpos;
            },
            Writer::Stream { buf } => {
                let n = buf.len();
                let _ = overwrite_at(buf, n, bytes);
            },
        }
    }
}

/// An attached byte source, either random-access or forward-only, with its
/// read cursor. The in-memory buffer stands for the resource's contents.
pub enum Reader {
    Seekable { data: Vec<u8>, pos: usize },
    Stream { data: Vec<u8>, pos: usize },
}

impl Reader {
    /// The bytes the source holds.
    pub open spec fn bytes(&self) -> Seq<u8> {
        match self {
            Reader::Seekable { data, .. } => data@,
            Reader::Stream { data, .. } => data@,
        }
    }

    /// The read cursor.
    pub open spec fn position(&self) -> int {
        match self {
            Reader::Seekable { pos, .. } => *pos as int,
            Reader::Stream { pos, .. } => *pos as int,
        }
    }

    pub open spec fn is_seekable(&self) -> bool {
        self is Seekable
    }
}

/// A unified I/O resource: at most one attached reader and at most one
/// attached writer, each fixed for the resource's lifetime in one of two
/// mutually exclusive modes, `Seekable` or `Stream`.
pub struct Io {
    pub writer: Option<Writer>,
    pub reader: Option<Reader>,
}

impl Io {
    /// A resource with nothing attached.
    pub fn null() -> (r: Self)
        ensures
            r.writer is None,
            r.reader is None,
    {
        Io { writer: None, reader: None }
    }

    /// Wraps a forward-only byte sink; writes append to it, and no seek
    /// support exists.
    pub fn from_stream(sink: Vec<u8>) -> (r: Self)
        ensures
            r.writer matches Some(w) && w.bytes() == sink@ && !w.is_seekable(),
            r.reader is None,
    {
        Io { writer: Some(Writer::Stream { buf: sink }), reader: None }
    }

    /// Wraps a forward-only byte source; reading starts at its beginning,
    /// and no seek support exists.
    pub fn from_reader(source: Vec<u8>) -> (r: Self)
        ensures
            r.reader matches Some(rd) && rd.bytes() == source@ && rd.position() == 0
                && !rd.is_seekable(),
            r.writer is None,
    {
        Io { writer: None, reader: Some(Reader::Stream { data: source, pos: 0 }) }
    }

    /// Wraps a random-access byte sink, the write path a created local file
    /// yields; the write cursor starts at the beginning.
    pub fn from_seekable_sink(sink: Vec<u8>) -> (r: Self)
        ensures
            r.writer matches Some(w) && w.bytes() == sink@ && w.position() == 0
                && w.is_seekable(),
            r.reader is None,
    {
        Io { writer: Some(Writer::Seekable { buf: sink, pos: 0 }), reader: None }
    }

    /// Wraps a random-access byte source, the read path an opened local file
    /// yields; the read cursor starts at the beginning.
    pub fn from_seekable_source(source: Vec<u8>) -> (r: Self)
        ensures
            r.reader matches Some(rd) && rd.bytes() == source@ && rd.position() == 0
                && rd.is_seekable(),
            r.writer is None,
    {
        Io { writer: None, reader: Some(Reader::Seekable { data: source, pos: 0 }) }
    }

    /// Write-all: suspends the caller's world until the whole payload is
    /// durable in the sink, or fails with `NotWriteable` when no writer is
    /// attached.
    pub fn write(&mut self, bytes: &[u8]) -> (r: Result<(), IoError>)
        ensures
            old(self).writer is None ==> (r matches Err(e) && e is NotWriteable) && *final(self)
                == *old(self),
            old(self).writer matches Some(w) ==> r is Ok && final(self).reader == old(self).reader
                && (final(self).writer matches Some(w2) && w2.bytes() == write_at(
                w.bytes(),
                w.position(),
                bytes@,
            ) && w2.position() == w.position() + bytes@.len() && w2.is_seekable()
                == w.is_seekable()),
    {
        match &mut self.writer {
            None => Err(IoError::NotWriteable),
            Some(w) => {
                w.write(bytes);
                Ok(())
            },
        }
    }

    /// Writes every buffer of the span in order: the sink receives exactly
    /// the span's logical byte range, however it is fragmented.
    pub fn write_span(&mut self, span: &crate::span::Span) -> (r: Result<(), IoError>)
        ensures
            old(self).writer is None ==> (r matches Err(e) && e is NotWriteable) && *final(self)
                == *old(self),
            old(self).writer matches Some(w) ==> r is Ok && final(self).reader == old(self).reader
                && (final(self).writer matches Some(w2) && w2.bytes() == write_at(
                w.bytes(),
                w.position(),
                span@,
            ) && w2.position() == w.position() + span@.len() && w2.is_seekable()
                == w.is_seekable()),
    {
        if self.writer.is_none() {
            return Err(IoError::NotWriteable);
        }
        let ghost w0 = old(self).writer->Some_0;
        let parts = span.spans();
        let ghost all = span.parts_view();
        let mut i: usize = 0;
        proof {
            assert(all.take(0int).flatten() =~= Seq::<u8>::empty());
        }
        while i < parts.len()
            invariant
                i <= parts@.len(),
                all == parts.deep_view(),
                all.len() == parts@.len(),
                self.writer matches Some(w) && w.bytes() == write_at(
                    w0.bytes(),
                    w0.position(),
                    all.take(i as int).flatten(),
                ) && w.position() == w0.position() + all.take(i as int).flatten().len()
                    && w.is_seekable() == w0.is_seekable(),
                self.reader == old(self).reader,
            decreases parts@.len() - i,
        {
            let ghost done = all.take(i as int).flatten();
            let _ = self.write(parts[i].as_slice());
            proof {
                assert(all[i as int] =~= parts@[i as int]@);
                assert(all.take(i as int).push(all[i as int]) =~= all.take(i as int + 1));
                all.take(i as int).lemma_flatten_push(all[i as int]);
                lemma_write_at_concat(w0.bytes(), w0.position(), done, all[i as int]);
            }
            i += 1;
        }
        proof {
            assert(all.take(all.len() as int) =~= all);
            span.lemma_view_is_flattened_parts();
        }
        Ok(())
    }

    /// Fills the whole buffer from the read cursor, or fails: with
    /// `NotReadable` when no reader is attached, with `UnderlyingIoFailure`
    /// when the source is exhausted before the buffer is full (nothing is
    /// consumed then).
    pub fn read_exact(&mut self, buf: &mut Vec<u8>) -> (r: Result<(), IoError>)
        ensures
            old(self).reader is None ==> (r matches Err(e) && e is NotReadable) && *final(self)
                == *old(self) && *final(buf) == *old(buf),
            old(self).reader matches Some(rd) ==> final(self).writer == old(self).writer && (if 0
                <= rd.position() && rd.position() + old(buf)@.len() <= rd.bytes().len() {
                r is Ok && (final(self).reader matches Some(rd2) && rd2.bytes() == rd.bytes()
                    && rd2.position() == rd.position() + old(buf)@.len() && rd2.is_seekable()
                    == rd.is_seekable()) && final(buf)@ == rd.bytes().subrange(
                    rd.position(),
                    rd.position() + old(buf)@.len(),
                )
            } else {
                (r matches Err(e) && e is UnderlyingIoFailure) && *final(self) == *old(self) && *final(buf) == *old(buf)
            }),
    {
        match &mut self.reader {
            None => Err(IoError::NotReadable),
            Some(rd) => {
                match rd {
                    Reader::Seekable { data, pos } => read_exact_from(data, pos, buf),
                    Reader::Stream { data, pos } => read_exact_from(data, pos, buf),
                }
            },
        }
    }

    /// A borrowed-then-copied view of the buffered-but-unconsumed bytes,
    /// without advancing the read cursor: the content-sniffing read. Fails
    /// with `NotReadable` when no reader is attached.
    pub fn read_probe(&self) -> (r: Result<Vec<u8>, IoError>)
        ensures
            self.reader is None ==> (r matches Err(e) && e is NotReadable),
            self.reader matches Some(rd) ==> (r matches Ok(v) && v@ == (if rd.position()
                <= rd.bytes().len() {
                rd.bytes().subrange(rd.position(), rd.bytes().len() as int)
            } else {
                Seq::<u8>::empty()
            })),
    {
        match &self.reader {
            None => Err(IoError::NotReadable),
            Some(rd) => {
                match rd {
                    Reader::Seekable { data, pos } | Reader::Stream { data, pos } => {
                        let mut out: Vec<u8> = Vec::new();
                        if *pos > data.len() {
                            proof {
                                assert(out@ =~= Seq::<u8>::empty());
                            }
                            return Ok(out);
                        }
                        let mut i: usize = *pos;
                        while i < data.len()
                            invariant
                                *pos <= i <= data@.len(),
                                out@.len() == i - *pos,
                                forall|k: int|
                                    0 <= k < out@.len() ==> out@[k] == data@[*pos + k],
                            decreases data@.len() - i,
                        {
                            let b = data[i];
                            out.push(b);
                            i += 1;
                        }
                        proof {
                            assert(out@ =~= data@.subrange(*pos as int, data@.len() as int));
                        }
                        Ok(out)
                    },
                }
            },
        }
    }

    /// Advances the read cursor by `amt` bytes. On a random-access source
    /// this is a relative seek, which may pass the end; a forward-only
    /// source discards exactly the bytes it still holds, stopping at the
    /// end. Fails with `NotReadable` when no reader is attached.
    pub fn skip(&mut self, amt: usize) -> (r: Result<(), IoError>)
        ensures
            old(self).reader is None ==> (r matches Err(e) && e is NotReadable) && *final(self)
                == *old(self),
            old(self).reader matches Some(rd) ==> final(self).writer == old(self).writer && (
            final(self).reader matches Some(rd2) && rd2.bytes() == rd.bytes() && rd2.is_seekable()
                == rd.is_seekable()) && (if rd.is_seekable() {
                if rd.position() + amt <= usize::MAX {
                    r is Ok && (final(self).reader matches Some(rd2) && rd2.position()
                        == rd.position() + amt)
                } else {
                    (r matches Err(e) && e is UnderlyingIoFailure) && *final(self) == *old(self)
                }
            } else {
                r is Ok && (final(self).reader matches Some(rd2) && rd2.position() == (if
                rd.position() + amt <= rd.bytes().len() {
                    rd.position() + amt
                } else if rd.position() <= rd.bytes().len() {
                    rd.bytes().len() as int
                } else {
                    rd.position()
                }))
            }),
    {
        match &mut self.reader {
            None => Err(IoError::NotReadable),
            Some(rd) => {
                match rd {
                    Reader::Seekable { data: _, pos } => {
                        match pos.checked_add(amt) {
                            Some(p) => {
                                *pos = p;
                                Ok(())
                            },
                            None => Err(IoError::UnderlyingIoFailure),
                        }
                    },
                    Reader::Stream { data, pos } => {
                        let remaining = if *pos <= data.len() {
                            data.len() - *pos
                        } else {
                            0
                        };
                        if amt < remaining {
                            *pos = *pos + amt;
                        } else {
                            *pos = *pos + remaining;
                        }
                        Ok(())
                    },
                }
            },
        }
    }

    /// Repositions the write cursor. Fails with `NotWriteable` when no
    /// writer is attached and with `NotSeekable` when the writer is
    /// forward-only; on a random-access writer it returns the new offset,
    /// failing with `UnderlyingIoFailure` on a target before the start or
    /// past the machine's addressable range.
    pub fn seek(&mut self, from: SeekFrom) -> (r: Result<usize, IoError>)
        ensures
            old(self).writer is None ==> (r matches Err(e) && e is NotWriteable) && *final(self)
                == *old(self),
            old(self).writer matches Some(w) ==> (if !w.is_seekable() {
                (r matches Err(e) && e is NotSeekable) && *final(self) == *old(self)
            } else {
                final(self).reader == old(self).reader && {
                    let target = seek_target(w.position(), w.bytes().len() as int, from);
                    if 0 <= target <= usize::MAX {
                        (r matches Ok(p) && p == target) && (final(self).writer matches Some(w2)
                            && w2.bytes() == w.bytes() && w2.position() == target
                            && w2.is_seekable())
                    } else {
                        (r matches Err(e) && e is UnderlyingIoFailure) && *final(self) == *old(self)
                    }
                }
            }),
    {
        match &mut self.writer {
            None => Err(IoError::NotWriteable),
            Some(Writer::Stream { .. }) => Err(IoError::NotSeekable),
            Some(Writer::Seekable { buf, pos }) => {
                let target: Option<usize> = match from {
                    SeekFrom::Start(p) => Some(p),
                    SeekFrom::End(d) => buf.len().checked_add_signed(d),
                    SeekFrom::Current(d) => pos.checked_add_signed(d),
                };
                match target {
                    Some(t) => {
                        *pos = t;
                        Ok(t)
                    },
                    None => Err(IoError::UnderlyingIoFailure),
                }
            },
        }
    }

    /// True exactly when a writer is attached and supports random access.
    pub fn seekable(&self) -> (r: bool)
        ensures
            r == (self.writer matches Some(w) && w.is_seekable()),
    {
        match &self.writer {
            Some(Writer::Seekable { .. }) => true,
            _ => false,
        }
    }

    /// Takes ownership of the underlying sink, detaching the writer: the
    /// capability a finished muxer uses to hand the produced bytes onward.
    /// Fails with `NotWriteable` when no writer is attached (or it was
    /// already taken).
    pub fn into_writer(&mut self) -> (r: Result<Vec<u8>, IoError>)
        ensures
            old(self).writer is None ==> (r matches Err(e) && e is NotWriteable) && *final(self)
                == *old(self),
            old(self).writer matches Some(w) ==> (r matches Ok(v) && v@ == w.bytes()) && final(self).writer is None && final(self).reader == old(self).reader,
    {
        match self.writer.take() {
            None => Err(IoError::NotWriteable),
            Some(Writer::Seekable { buf, .. }) => Ok(buf),
            Some(Writer::Stream { buf }) => Ok(buf),
        }
    }
}

/// Where a seek request points, given the current cursor and content length.
pub open spec fn seek_target(pos: int, len: int, from: SeekFrom) -> int {
    match from {
        SeekFrom::Start(p) => p as int,
        SeekFrom::End(d) => len + d,
        SeekFrom::Current(d) => pos + d,
    }
}

/// Whether a text is a well-formed URI reference; what the URI parser
/// accepts takes pages to state, so the result only carries a name.
pub uninterp spec fn uri_well_formed(s: Seq<char>) -> bool;

/// The scheme component of a URI reference, a function of the text alone:
/// `None` for a relative reference.
pub uninterp spec fn uri_scheme_of(s: Seq<char>) -> Option<Seq<char>>;

/// fluent_uri's parse error, declared opaquely so the parsing call can
/// return it; verified code maps it to `UriParseFailure`.
#[verifier::external_type_specification]
#[verifier::external_body]
pub struct ExParseError(fluent_uri::ParseError);

/// Relies on fluent_uri::Uri::parse_from, which strictly validates a URI
/// reference against RFC 3986, and on Uri::scheme / Scheme::as_str, which
/// yield its scheme component: both are functions of the text alone.
#[verifier::external_body]
fn parse_uri_scheme(s: &str) -> (r: Result<Option<String>, fluent_uri::ParseError>)
    requires
        s.len() <= 0x7fff_ffff,
    ensures
        r is Ok <==> uri_well_formed(s@),
        r matches Ok(sch) ==> match sch {
            Some(found) => uri_scheme_of(s@) == Some(found@),
            None => uri_scheme_of(s@) is None,
        },
{
    match fluent_uri::Uri::parse_from(String::from(s)) {
        Ok(uri) => Ok(
            match uri.scheme() {
                Some(scheme) => Some(String::from(scheme.as_str())),
                None => None,
            },
        ),
        Err((_, e)) => Err(e),
    }
}

/// Derives a URI from a local path, the step `create_file` and `open_file`
/// take before touching the file system: the path text must parse as a URI
/// reference, or the operation fails with `UriParseFailure`. A text too
/// large for the parser is rejected the same way rather than handed on.
pub fn uri_from_path(path: &str) -> (r: Result<(), IoError>)
    ensures
        path.len() > 0x7fff_ffff ==> (r matches Err(e) && e is UriParseFailure),
        path.len() <= 0x7fff_ffff && uri_well_formed(path@) ==> r is Ok,
        path.len() <= 0x7fff_ffff && !uri_well_formed(path@) ==> (r matches Err(e)
            && e is UriParseFailure),
{
    if path.len() > 0x7fff_ffff {
        return Err(IoError::UriParseFailure);
    }
    match parse_uri_scheme(path) {
        Ok(_) => Ok(()),
        Err(_) => Err(IoError::UriParseFailure),
    }
}

/// Accepts a resource's scheme exactly when it names a local file or names
/// nothing; any other scheme is surfaced as `UnsupportedScheme` with the
/// offending text.
pub fn check_scheme(scheme: Option<String>) -> (r: Result<(), IoError>)
    ensures
        match scheme {
            None => r is Ok,
            Some(s) => if s@ == "file"@ {
                r is Ok
            } else {
                r matches Err(IoError::UnsupportedScheme(t)) && t == s
            },
        },
{
    match scheme {
        None => Ok(()),
        Some(s) => {
            if s.eq(&String::from_str("file")) {
                Ok(())
            } else {
                Err(IoError::UnsupportedScheme(s))
            }
        },
    }
}

/// The validation `open` performs before touching any resource: the URI must
/// parse, and its scheme, if it has one, must name a local file. A text too
/// large for the parser is rejected as unparsable rather than handed on.
pub fn open_check(uri: &str) -> (r: Result<(), IoError>)
    ensures
        uri.len() > 0x7fff_ffff ==> (r matches Err(e) && e is UriParseFailure),
        uri.len() <= 0x7fff_ffff && !uri_well_formed(uri@) ==> (r matches Err(e)
            && e is UriParseFailure),
        uri.len() <= 0x7fff_ffff && uri_well_formed(uri@) ==> match uri_scheme_of(uri@) {
            None => r is Ok,
            Some(sch) => if sch == "file"@ {
                r is Ok
            } else {
                r matches Err(IoError::UnsupportedScheme(t)) && t@ == sch
            },
        },
{
    if uri.len() > 0x7fff_ffff {
        return Err(IoError::UriParseFailure);
    }
    match parse_uri_scheme(uri) {
        Ok(scheme) => check_scheme(scheme),
        Err(_) => Err(IoError::UriParseFailure),
    }
}

} // verus!
