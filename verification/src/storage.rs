//! File-stream abstraction over the Flipper Zero's storage service.
//!
//! The firmware's filesystem is reached through a fixed set of native calls
//! (open, read, write, seek, tell, size, close), all of which are `unsafe`
//! FFI and therefore live outside this library.  What lives here, verified,
//! is everything those calls are wrapped in: the error taxonomy with its
//! bidirectional code mapping, the `OpenOptions` bitflag builder, the
//! `SeekFrom` offset resolution, and the `Read`/`Write`/`Seek` capability
//! traits with their derived operations.

use vstd::prelude::*;

verus! {

use vstd::slice::{slice_index_get, slice_subrange};

/// Read access bit of the native access mode (the firmware's `FSAM_READ`).
pub const ACCESS_READ: u8 = 1;
/// Write access bit of the native access mode (the firmware's `FSAM_WRITE`).
pub const ACCESS_WRITE: u8 = 2;

/// Open-existing bit of the native open mode (the firmware's `FSOM_OPEN_EXISTING`).
pub const OPEN_EXISTING: u8 = 1;
/// Open-always bit of the native open mode (the firmware's `FSOM_OPEN_ALWAYS`).
pub const OPEN_ALWAYS: u8 = 2;
/// Open-append bit of the native open mode (the firmware's `FSOM_OPEN_APPEND`).
pub const OPEN_APPEND: u8 = 4;
/// Create-new bit of the native open mode (the firmware's `FSOM_CREATE_NEW`).
pub const CREATE_NEW: u8 = 8;
/// Create-always bit of the native open mode (the firmware's `FSOM_CREATE_ALWAYS`).
pub const CREATE_ALWAYS: u8 = 16;

/// Stream and file system related error type.
///
/// The variants are exactly the firmware's filesystem status codes
/// (`FS_Error`); [`Error::to_sys`] and [`Error::from_sys`] convert between
/// the two representations.
#[derive(Debug, Clone, Copy, PartialEq, Eq, Structural)]
pub enum Error {
    Okay,
    NotReady,
    Exists,
    NotExists,
    InvalidParameter,
    Denied,
    InvalidName,
    Internal,
    NotImplemented,
    AlreadyOpen,
}

impl Error {
    /// The native status code that stands for this variant.
    pub open spec fn spec_code(self) -> u8 {
        match self {
            Error::Okay => 0,
            Error::NotReady => 1,
            Error::Exists => 2,
            Error::NotExists => 3,
            Error::InvalidParameter => 4,
            Error::Denied => 5,
            Error::InvalidName => 6,
            Error::Internal => 7,
            Error::NotImplemented => 8,
            Error::AlreadyOpen => 9,
        }
    }

    /// The variant that a native status code stands for, or `None` for a
    /// code outside the known code space.
    pub open spec fn spec_from_code(code: u8) -> Option<Error> {
        if code == 0 {
            Some(Error::Okay)
        } else if code == 1 {
            Some(Error::NotReady)
        } else if code == 2 {
            Some(Error::Exists)
        } else if code == 3 {
            Some(Error::NotExists)
        } else if code == 4 {
            Some(Error::InvalidParameter)
        } else if code == 5 {
            Some(Error::Denied)
        } else if code == 6 {
            Some(Error::InvalidName)
        } else if code == 7 {
            Some(Error::Internal)
        } else if code == 8 {
            Some(Error::NotImplemented)
        } else if code == 9 {
            Some(Error::AlreadyOpen)
        } else {
            None
        }
    }

    /// Whether a native status code belongs to the known code space.
    pub open spec fn known_code(code: u8) -> bool {
        Error::spec_from_code(code) is Some
    }

    /// Total, pure mapping from a variant to its native status code.
    pub fn to_sys(&self) -> (r: u8)
        ensures
            r == self.spec_code(),
    {
        match self {
            Error::Okay => 0,
            Error::NotReady => 1,
            Error::Exists => 2,
            Error::NotExists => 3,
            Error::InvalidParameter => 4,
            Error::Denied => 5,
            Error::InvalidName => 6,
            Error::Internal => 7,
            Error::NotImplemented => 8,
            Error::AlreadyOpen => 9,
        }
    }

    /// Mapping from a native status code back to its variant.
    ///
    /// A code outside the known code space is a contract violation of the
    /// native layer, not a representable error, so it is excluded by
    /// precondition rather than given a catch-all variant.
    pub fn from_sys(code: u8) -> (r: Error)
        requires
            Error::known_code(code),
        ensures
            Some(r) == Error::spec_from_code(code),
    {
        if code == 0 {
            Error::Okay
        } else if code == 1 {
            Error::NotReady
        } else if code == 2 {
            Error::Exists
        } else if code == 3 {
            Error::NotExists
        } else if code == 4 {
            Error::InvalidParameter
        } else if code == 5 {
            Error::Denied
        } else if code == 6 {
            Error::InvalidName
        } else if code == 7 {
            Error::Internal
        } else if code == 8 {
            Error::NotImplemented
        } else {
            Error::AlreadyOpen
        }
    }
}

/// The lowercase hexadecimal digit for a value below 16.
pub open spec fn spec_hex_digit(n: u8) -> u8 {
    if n < 10 {
        (48 + n) as u8
    } else {
        (87 + n) as u8
    }
}

/// How one byte of a native message buffer is rendered: tab, carriage
/// return, newline, backslash and both quotes as two-character backslash
/// escapes, printable ASCII as itself, and every other byte as `\xNN`
/// with lowercase hexadecimal digits.
pub open spec fn spec_escape_byte(b: u8) -> Seq<u8> {
    if b == 9 {
        seq![92u8, 116u8]
    } else if b == 13 {
        seq![92u8, 114u8]
    } else if b == 10 {
        seq![92u8, 110u8]
    } else if b == 92 {
        seq![92u8, 92u8]
    } else if b == 39 {
        seq![92u8, 39u8]
    } else if b == 34 {
        seq![92u8, 34u8]
    } else if 32 <= b <= 126 {
        seq![b]
    } else {
        seq![92u8, 120u8, spec_hex_digit(b / 16), spec_hex_digit(b % 16)]
    }
}

/// How a whole native message buffer is rendered, byte for byte.
pub open spec fn spec_escape_bytes(s: Seq<u8>) -> Seq<u8>
    decreases s.len(),
{
    if s.len() == 0 {
        Seq::empty()
    } else {
        spec_escape_byte(s[0]) + spec_escape_bytes(s.subrange(1, s.len() as int))
    }
}

/// Law: the rendering of two buffers one after the other is the rendering
/// of the first followed by the rendering of the second.
pub proof fn lemma_escape_bytes_concat(a: Seq<u8>, b: Seq<u8>)
    ensures
        spec_escape_bytes(a + b) == spec_escape_bytes(a) + spec_escape_bytes(b),
    decreases a.len(),
{
    if a.len() == 0 {
        assert(a + b =~= b);
        assert(spec_escape_bytes(a) + spec_escape_bytes(b) =~= spec_escape_bytes(b));
    } else {
        let a1 = a.subrange(1, a.len() as int);
        assert((a + b).subrange(1, (a + b).len() as int) =~= a1 + b);
        lemma_escape_bytes_concat(a1, b);
        assert(spec_escape_byte(a[0]) + (spec_escape_bytes(a1) + spec_escape_bytes(b)) =~= (
        spec_escape_byte(a[0]) + spec_escape_bytes(a1)) + spec_escape_bytes(b));
    }
}

/// Law: one rendered byte is clean printable ASCII, whatever the byte was.
pub proof fn lemma_escape_byte_printable(b: u8)
    ensures
        forall|i: int|
            0 <= i < spec_escape_byte(b).len() ==> 32 <= #[trigger] spec_escape_byte(b)[i]
                <= 126,
{
    assert(b / 16 < 16 && b % 16 < 16) by (bit_vector);
}

/// Law: a rendered message is clean printable ASCII from end to end,
/// whatever bytes the native buffer held.
pub proof fn lemma_escape_bytes_printable(s: Seq<u8>)
    ensures
        forall|i: int|
            0 <= i < spec_escape_bytes(s).len() ==> 32 <= #[trigger] spec_escape_bytes(s)[i]
                <= 126,
    decreases s.len(),
{
    if s.len() > 0 {
        let head = spec_escape_byte(s[0]);
        let tail = spec_escape_bytes(s.subrange(1, s.len() as int));
        lemma_escape_byte_printable(s[0]);
        lemma_escape_bytes_printable(s.subrange(1, s.len() as int));
        assert forall|i: int| 0 <= i < spec_escape_bytes(s).len() implies 32 <= #[trigger] spec_escape_bytes(s)[i] <= 126 by {
            if i < head.len() {
                assert(spec_escape_bytes(s)[i] == head[i]);
            } else {
                assert(spec_escape_bytes(s)[i] == tail[i - head.len()]);
            }
        }
    }
}

/// The lowercase hexadecimal digit for a value below 16, as an ASCII byte.
fn hex_digit(n: u8) -> (r: u8)
    requires
        n < 16,
    ensures
        r == spec_hex_digit(n),
{
    if n < 10 {
        48 + n
    } else {
        87 + n
    }
}

/// Renders a native message buffer defensively, byte for byte: printable
/// ASCII stands as itself and every other byte becomes a backslash escape,
/// so the result is always clean printable ASCII whatever the native layer
/// put in the buffer.
pub fn escape_message(raw: &[u8]) -> (out: Vec<u8>)
    ensures
        out@ == spec_escape_bytes(raw@),
{
    let mut out: Vec<u8> = Vec::new();
    let mut i: usize = 0;
    while i < raw.len()
        invariant
            i <= raw@.len(),
            out@ == spec_escape_bytes(raw@.subrange(0, i as int)),
        decreases raw@.len() - i,
    {
        let b = *slice_index_get(raw, i);
        let ghost prev = out@;
        if b == 9 {
            out.push(92);
            out.push(116);
        } else if b == 13 {
            out.push(92);
            out.push(114);
        } else if b == 10 {
            out.push(92);
            out.push(110);
        } else if b == 92 {
            out.push(92);
            out.push(92);
        } else if b == 39 {
            out.push(92);
            out.push(39);
        } else if b == 34 {
            out.push(92);
            out.push(34);
        } else if 32 <= b && b <= 126 {
            out.push(b);
        } else {
            out.push(92);
            out.push(120);
            out.push(hex_digit(b / 16));
            out.push(hex_digit(b % 16));
        }
        proof {
            assert(out@ =~= prev + spec_escape_byte(b));
            assert(raw@.subrange(0, i + 1) =~= raw@.subrange(0, i as int) + seq![b]);
            lemma_escape_bytes_concat(raw@.subrange(0, i as int), seq![b]);
            assert(seq![b].subrange(1, 1) =~= Seq::<u8>::empty());
            assert(spec_escape_bytes(Seq::<u8>::empty()) == Seq::<u8>::empty());
            assert(spec_escape_bytes(seq![b]) == spec_escape_byte(b) + spec_escape_bytes(
                Seq::<u8>::empty(),
            ));
            assert(spec_escape_byte(b) + Seq::<u8>::empty() =~= spec_escape_byte(b));
        }
        i = i + 1;
    }
    proof {
        assert(raw@.subrange(0, i as int) =~= raw@);
    }
    out
}

/// Trait comparable to `std::io::Read` for the Flipper stream API.
pub trait Read {
    /// Fills `buf` with up to `buf.len()` bytes from the stream and
    /// returns how many bytes were read.  A return of `Ok(0)` signals
    /// end-of-stream, not an error; a short read with more data remaining
    /// is legal.
    fn read(&mut self, buf: &mut [u8]) -> (r: Result<usize, Error>)
        ensures
            final(buf)@.len() == old(buf)@.len(),
            r matches Ok(n) ==> n <= old(buf)@.len(),
    ;
}

/// Enumeration of possible methods to seek within an I/O object.
///
/// It is used by the [`Seek`] trait.  Absolute offsets are unsigned;
/// offsets relative to the end or to the current position are signed.
#[derive(Debug, Clone, Copy, PartialEq, Eq, Structural)]
pub enum SeekFrom {
    Start(u64),
    End(i64),
    Current(i64),
}

impl SeekFrom {
    /// The `(offset, from_start)` pair that the native seek call takes for
    /// this position, or `None` when the offset does not fit the native
    /// width.  `Start` seeks absolutely; the native layer knows no
    /// end-relative mode, so an `End` offset handed to it directly is
    /// taken relative to the current position, like `Current` — a seek
    /// that should land relative to the end goes through
    /// [`SeekFrom::resolve_end`] first.  The native unsigned offset width
    /// admits no negative relative offset.
    pub open spec fn spec_native_args(self) -> Option<(u32, bool)> {
        match self {
            SeekFrom::Start(n) => if n <= u32::MAX as u64 {
                Some((n as u32, true))
            } else {
                None
            },
            SeekFrom::End(d) => if 0 <= d <= u32::MAX as i64 {
                Some((d as u32, false))
            } else {
                None
            },
            SeekFrom::Current(d) => if 0 <= d <= u32::MAX as i64 {
                Some((d as u32, false))
            } else {
                None
            },
        }
    }

    /// Range-checked translation of this position into the native
    /// `(offset, from_start)` pair; an offset that does not fit the native
    /// integer width fails with [`Error::InvalidParameter`].
    pub fn to_native_args(self) -> (r: Result<(u32, bool), Error>)
        ensures
            match r {
                Result::Ok(args) => self.spec_native_args() == Some(args),
                Result::Err(e) => self.spec_native_args() is None && e
                    == Error::InvalidParameter,
            },
    {
        match self {
            SeekFrom::Start(n) => if n <= u32::MAX as u64 {
                Ok(((n as u32), true))
            } else {
                Err(Error::InvalidParameter)
            },
            SeekFrom::End(d) => if 0 <= d && d <= u32::MAX as i64 {
                Ok(((d as u32), false))
            } else {
                Err(Error::InvalidParameter)
            },
            SeekFrom::Current(d) => if 0 <= d && d <= u32::MAX as i64 {
                Ok(((d as u32), false))
            } else {
                Err(Error::InvalidParameter)
            },
        }
    }

    /// Resolves an end-relative position into the absolute one for a
    /// stream of the given length, for a native layer that can seek only
    /// from the start or from the current position.  `Start` and
    /// `Current` positions pass through unchanged; an `End` offset whose
    /// target would lie before the start of the stream or beyond the
    /// native 64-bit width fails with [`Error::InvalidParameter`].
    pub fn resolve_end(self, len: u64) -> (r: Result<SeekFrom, Error>)
        ensures
            match r {
                Result::Ok(p) => match self {
                    SeekFrom::End(d) => 0 <= len + d <= u64::MAX && (p matches SeekFrom::Start(t)
                        && t == len + d),
                    _ => p == self,
                },
                Result::Err(e) => e == Error::InvalidParameter && (match self {
                    SeekFrom::End(d) => len + d < 0 || len + d > u64::MAX,
                    _ => false,
                }),
            },
    {
        match self {
            SeekFrom::End(d) => {
                if d >= 0 {
                    let dd = d as u64;
                    if len <= u64::MAX - dd {
                        Ok(SeekFrom::Start(len + dd))
                    } else {
                        Err(Error::InvalidParameter)
                    }
                } else {
                    let mag = ((-(d + 1)) as u64) + 1;
                    if len >= mag {
                        Ok(SeekFrom::Start(len - mag))
                    } else {
                        Err(Error::InvalidParameter)
                    }
                }
            },
            _ => Ok(self),
        }
    }
}

/// Trait comparable to `std::io::Seek` for the Flipper stream API.
///
/// A seekable stream is modelled by two quantities: its current position
/// [`Seek::spec_position`] and its length [`Seek::spec_len`], both in
/// bytes.  The single primitive operation is [`Seek::seek`]; `rewind`,
/// `stream_len` and `stream_position` are derived from it.
pub trait Seek: Sized {
    /// The stream's current position, in bytes from its start.  The
    /// default is an arbitrary, unconstrained model: an implementation
    /// that is itself verified overrides it with its real position.
    open spec fn spec_position(&self) -> nat {
        arbitrary()
    }

    /// The stream's length, in bytes.  The default is an arbitrary,
    /// unconstrained model: an implementation that is itself verified
    /// overrides it with its real length.
    open spec fn spec_len(&self) -> nat {
        arbitrary()
    }

    /// Moves the position as `pos` directs and returns the new absolute
    /// position.  On success the position is exactly the one asked for and
    /// the length is unchanged; a zero-distance seek from the current
    /// position succeeds without any effect at all.  A seek the stream
    /// cannot perform fails with the native layer's error, and no target
    /// before the start of the stream can ever succeed.
    fn seek(&mut self, pos: SeekFrom) -> (r: Result<usize, Error>)
        ensures
            r matches Ok(p) ==> {
                &&& p as nat == final(self).spec_position()
                &&& final(self).spec_len() == old(self).spec_len()
                &&& match pos {
                    SeekFrom::Start(n) => final(self).spec_position() == n,
                    SeekFrom::End(d) => final(self).spec_position() == old(self).spec_len() + d,
                    SeekFrom::Current(d) => final(self).spec_position() == old(self).spec_position() + d,
                }
            },
            pos == SeekFrom::Current(0i64) && (r matches Ok(p)) ==> *final(self) == *old(self),
    ;

    /// Returns to the start of the stream: on success the position is 0.
    fn rewind(&mut self) -> (r: Result<(), Error>)
        ensures
            r matches Ok(u) ==> final(self).spec_position() == 0 && final(self).spec_len() == old(self).spec_len(),
    {
        self.seek(SeekFrom::Start(0))?;
        Ok(())
    }

    /// The length of the stream, learned by seeking to its end; on success
    /// the position is back where it was before the call.  When the
    /// position was already at end-of-stream the restoring seek is skipped:
    /// the branch is far cheaper than a redundant seek operation.
    fn stream_len(&mut self) -> (r: Result<usize, Error>)
        ensures
            r matches Ok(n) ==> {
                &&& n as nat == old(self).spec_len()
                &&& final(self).spec_len() == old(self).spec_len()
                &&& final(self).spec_position() == old(self).spec_position()
            },
    {
        let old_pos = self.stream_position()?;
        let len = self.seek(SeekFrom::End(0))?;
        if old_pos != len {
            self.seek(SeekFrom::Start(old_pos as u64))?;
        }
        Ok(len)
    }

    /// The current position, queried by a zero-distance seek: on success
    /// the stream is left exactly as it was.
    fn stream_position(&mut self) -> (r: Result<usize, Error>)
        ensures
            r matches Ok(p) ==> p as nat == old(self).spec_position() && *final(self)
                == *old(self),
    {
        self.seek(SeekFrom::Current(0))
    }
}

/// Trait comparable to `std::io::Write` for the Flipper stream API.
///
/// A sink is modelled by [`Write::spec_written`], the sequence of bytes it
/// has accepted so far.
pub trait Write {
    /// The bytes this sink has accepted so far, in order.  The default is
    /// an arbitrary, unconstrained model: an implementation that is itself
    /// verified overrides it with its real contents.
    open spec fn spec_written(&self) -> Seq<u8> {
        arbitrary()
    }

    /// Hands the sink up to `buf.len()` bytes and returns how many it
    /// accepted; a short write is legal.  A failed write accepts nothing.
    fn write(&mut self, buf: &[u8]) -> (r: Result<usize, Error>)
        ensures
            match r {
                Ok(n) => n <= buf@.len() && final(self).spec_written() == old(self).spec_written() + buf@.subrange(0, n as int),
                Err(_) => final(self).spec_written() == old(self).spec_written(),
            },
    ;

    /// Pushes any buffered bytes on to the underlying resource; the bytes
    /// accepted so far are unchanged.
    fn flush(&mut self) -> (r: Result<(), Error>)
        ensures
            final(self).spec_written() == old(self).spec_written(),
    ;

    /// Writes the whole of `buf`, looping over partial writes and failing
    /// on the first write error.  A write that accepts zero bytes while
    /// data remains would make no progress, so it is reported as
    /// [`Error::Internal`] rather than retried forever.  Whatever the
    /// outcome, what the sink accepted is a prefix of `buf`, all of it on
    /// success.
    fn write_all(&mut self, buf: &[u8]) -> (r: Result<(), Error>)
        ensures
            match r {
                Ok(u) => final(self).spec_written() == old(self).spec_written() + buf@,
                Err(_) => exists|k: int|
                    0 <= k <= buf@.len() && final(self).spec_written() == old(self).spec_written() + buf@.subrange(0, k),
            },
            buf@.len() == 0 ==> (r matches Ok(_)),
    {
        let mut written: usize = 0;
        while written < buf.len()
            invariant
                written <= buf@.len(),
                self.spec_written() == old(self).spec_written() + buf@.subrange(
                    0,
                    written as int,
                ),
            decreases buf@.len() - written,
        {
            let rest = slice_subrange(buf, written, buf.len());
            match self.write(rest) {
                Ok(n) => {
                    if n == 0 {
                        proof {
                            assert(self.spec_written() == old(self).spec_written()
                                + buf@.subrange(0, written as int));
                        }
                        return Err(Error::Internal);
                    }
                    proof {
                        assert(old(self).spec_written() + buf@.subrange(0, written as int)
                            + buf@.subrange(written as int, written + n) =~= old(self).spec_written() + buf@.subrange(0, written + n));
                        assert(rest@.subrange(0, n as int) =~= buf@.subrange(
                            written as int,
                            written + n,
                        ));
                    }
                    written = written + n;
                }
                Err(e) => {
                    return Err(e);
                }
            }
        }
        proof {
            assert(buf@.subrange(0, written as int) =~= buf@);
        }
        Ok(())
    }
}

/// An immutable builder accumulating the access-mode and open-mode bitflags
/// that a native open call takes.
///
/// Each setter returns a new configuration with exactly one flag set or
/// cleared and every other bit unchanged.  No flag combination is validated
/// here: the native layer is authoritative and reports a status such as
/// `InvalidParameter` through the open call's error channel.
#[derive(Debug, Clone, Copy, PartialEq, Eq, Structural)]
pub struct OpenOptions {
    access_mode: u8,
    open_mode: u8,
}

impl Default for OpenOptions {
    /// An empty configuration: no access and no open-mode flag set.
    fn default() -> (r: Self)
        ensures
            r.spec_access_mode() == 0,
            r.spec_open_mode() == 0,
    {
        OpenOptions { access_mode: 0, open_mode: 0 }
    }
}

impl OpenOptions {
    /// The accumulated native access-mode bitfield.
    pub closed spec fn spec_access_mode(self) -> u8 {
        self.access_mode
    }

    /// The accumulated native open-mode bitfield.
    pub closed spec fn spec_open_mode(self) -> u8 {
        self.open_mode
    }

    /// An empty configuration: no access and no open-mode flag set.
    pub fn new() -> (r: Self)
        ensures
            r.spec_access_mode() == 0,
            r.spec_open_mode() == 0,
    {
        Self::default()
    }

    /// A configuration holding exactly the two given bitfields.
    pub fn from_parts(access_mode: u8, open_mode: u8) -> (r: Self)
        ensures
            r.spec_access_mode() == access_mode,
            r.spec_open_mode() == open_mode,
    {
        OpenOptions { access_mode, open_mode }
    }

    /// The accumulated native access-mode bitfield.
    pub fn access_mode(&self) -> (r: u8)
        ensures
            r == self.spec_access_mode(),
    {
        self.access_mode
    }

    /// The accumulated native open-mode bitfield.
    pub fn open_mode(&self) -> (r: u8)
        ensures
            r == self.spec_open_mode(),
    {
        self.open_mode
    }

    /// Read access
    pub fn read(self, set: bool) -> (r: Self)
        ensures
            r.spec_access_mode() == (if set {
                self.spec_access_mode() | ACCESS_READ
            } else {
                self.spec_access_mode() & !ACCESS_READ
            }),
            r.spec_open_mode() == self.spec_open_mode(),
    {
        OpenOptions::from_parts(
            if set {
                self.access_mode | ACCESS_READ
            } else {
                self.access_mode & !ACCESS_READ
            },
            self.open_mode,
        )
    }

    /// Write access
    pub fn write(self, set: bool) -> (r: Self)
        ensures
            r.spec_access_mode() == (if set {
                self.spec_access_mode() | ACCESS_WRITE
            } else {
                self.spec_access_mode() & !ACCESS_WRITE
            }),
            r.spec_open_mode() == self.spec_open_mode(),
    {
        OpenOptions::from_parts(
            if set {
                self.access_mode | ACCESS_WRITE
            } else {
                self.access_mode & !ACCESS_WRITE
            },
            self.open_mode,
        )
    }

    /// Open file, fail if file doesn't exist
    pub fn open_existing(self, set: bool) -> (r: Self)
        ensures
            r.spec_open_mode() == (if set {
                self.spec_open_mode() | OPEN_EXISTING
            } else {
                self.spec_open_mode() & !OPEN_EXISTING
            }),
            r.spec_access_mode() == self.spec_access_mode(),
    {
        OpenOptions::from_parts(
            self.access_mode,
            if set {
                self.open_mode | OPEN_EXISTING
            } else {
                self.open_mode & !OPEN_EXISTING
            },
        )
    }

    /// Open file. Create new file if not exist
    pub fn open_always(self, set: bool) -> (r: Self)
        ensures
            r.spec_open_mode() == (if set {
                self.spec_open_mode() | OPEN_ALWAYS
            } else {
                self.spec_open_mode() & !OPEN_ALWAYS
            }),
            r.spec_access_mode() == self.spec_access_mode(),
    {
        OpenOptions::from_parts(
            self.access_mode,
            if set {
                self.open_mode | OPEN_ALWAYS
            } else {
                self.open_mode & !OPEN_ALWAYS
            },
        )
    }

    /// Open file. Create new file if not exist. Set R/W pointer to EOF
    pub fn open_append(self, set: bool) -> (r: Self)
        ensures
            r.spec_open_mode() == (if set {
                self.spec_open_mode() | OPEN_APPEND
            } else {
                self.spec_open_mode() & !OPEN_APPEND
            }),
            r.spec_access_mode() == self.spec_access_mode(),
    {
        OpenOptions::from_parts(
            self.access_mode,
            if set {
                self.open_mode | OPEN_APPEND
            } else {
                self.open_mode & !OPEN_APPEND
            },
        )
    }

    /// Creates a new file. Fails if the file is exist
    pub fn create_new(self, set: bool) -> (r: Self)
        ensures
            r.spec_open_mode() == (if set {
                self.spec_open_mode() | CREATE_NEW
            } else {
                self.spec_open_mode() & !CREATE_NEW
            }),
            r.spec_access_mode() == self.spec_access_mode(),
    {
        OpenOptions::from_parts(
            self.access_mode,
            if set {
                self.open_mode | CREATE_NEW
            } else {
                self.open_mode & !CREATE_NEW
            },
        )
    }

    /// Creates a new file. If file exist, truncate to zero size
    pub fn create_always(self, set: bool) -> (r: Self)
        ensures
            r.spec_open_mode() == (if set {
                self.spec_open_mode() | CREATE_ALWAYS
            } else {
                self.spec_open_mode() & !CREATE_ALWAYS
            }),
            r.spec_access_mode() == self.spec_access_mode(),
    {
        OpenOptions::from_parts(
            self.access_mode,
            if set {
                self.open_mode | CREATE_ALWAYS
            } else {
                self.open_mode & !CREATE_ALWAYS
            },
        )
    }
}

/// Law: converting a variant to its native code and back yields the same
/// variant, for every variant.
pub proof fn lemma_error_round_trip(e: Error)
    ensures
        Error::spec_from_code(e.spec_code()) == Some(e),
{
}

/// Law: converting a known native code to its variant and back yields the
/// same code, so the two mappings are mutually inverse over the known code
/// space.
pub proof fn lemma_code_round_trip(code: u8)
    requires
        Error::known_code(code),
    ensures
        Error::spec_from_code(code)->Some_0.spec_code() == code,
{
}

} // verus!
