use vstd::prelude::*;

verus! {

/// An error code reported by the operating system (an `errno` value).
#[derive(Clone, Copy, Debug, PartialEq, Eq, Structural)]
pub struct RawOsError(pub i32);

/// Turns an io_uring completion value into a result: non-negative values
/// are successes (a descriptor or a count), negative ones carry the negated
/// `errno`.
pub fn convert_error(descriptor: i32) -> (r: Result<i32, RawOsError>)
    requires
        descriptor > i32::MIN,
    ensures
        descriptor >= 0 ==> r == Ok::<i32, RawOsError>(descriptor),
        descriptor < 0 ==> r == Err::<i32, RawOsError>(RawOsError(-descriptor as i32)),
{
    if descriptor < 0 {
        Err(RawOsError(-descriptor))
    } else {
        Ok(descriptor)
    }
}

/// Turns the completion value of a transfer or an open into a result: only
/// positive values are successes; zero and negative values are errors whose
/// code is the negated value (so an empty transfer reports code 0).
pub fn convert_transfer(submission: i32) -> (r: Result<i32, RawOsError>)
    requires
        submission > i32::MIN,
    ensures
        submission > 0 ==> r == Ok::<i32, RawOsError>(submission),
        submission <= 0 ==> r == Err::<i32, RawOsError>(RawOsError(-submission as i32)),
{
    if submission <= 0 {
        Err(RawOsError(-submission))
    } else {
        Ok(submission)
    }
}

/// How a file is opened, as decided from the requested options.
#[derive(Clone, Copy, Debug, PartialEq, Eq, Structural)]
pub enum OpenMode {
    /// Create the file (no access mode is added).
    Create,
    ReadWrite,
    ReadOnly,
    WriteOnly,
    Append,
    /// No option was requested.
    Plain,
}

/// The open mode for the given options.
pub open spec fn open_mode_spec(read: bool, write: bool, append: bool, create: bool) -> OpenMode {
    if create {
        OpenMode::Create
    } else if read && write {
        OpenMode::ReadWrite
    } else if read {
        OpenMode::ReadOnly
    } else if write {
        OpenMode::WriteOnly
    } else if append {
        OpenMode::Append
    } else {
        OpenMode::Plain
    }
}

/// The open mode chosen for the options: creation wins over everything,
/// then read-write, read, write and append, in that order. The file is
/// always opened non-blocking and close-on-exec as well.
pub fn open_mode(read: bool, write: bool, append: bool, create: bool) -> (r: OpenMode)
    ensures
        r == open_mode_spec(read, write, append, create),
{
    if create {
        OpenMode::Create
    } else if read && write {
        OpenMode::ReadWrite
    } else if read {
        OpenMode::ReadOnly
    } else if write {
        OpenMode::WriteOnly
    } else if append {
        OpenMode::Append
    } else {
        OpenMode::Plain
    }
}

/// Whether the running kernel supports an io_uring operation, as learned
/// from probing it on an invalid descriptor.
#[derive(Clone, Copy, Debug, PartialEq, Eq, Structural)]
pub enum RingSupport {
    /// Not probed yet.
    Unknown,
    /// The kernel rejected the opcode itself.
    Unsupported,
    /// The kernel knows the opcode.
    Supported,
}

/// Reads a probe: the kernel answers `-EINVAL` (`invalid` is `EINVAL`) for
/// an opcode it does not know; any other answer (such as a bad descriptor)
/// shows that it knows the opcode.
pub fn support_from_probe(result: i32, invalid: i32) -> (r: RingSupport)
    requires
        invalid > i32::MIN,
    ensures
        result == -invalid ==> r == RingSupport::Unsupported,
        result != -invalid ==> r == RingSupport::Supported,
{
    if result == -invalid {
        RingSupport::Unsupported
    } else {
        RingSupport::Supported
    }
}

/// The byte an answer is cached as (0 unknown, 1 unsupported, 2 supported).
pub open spec fn support_byte(s: RingSupport) -> u8 {
    match s {
        RingSupport::Unknown => 0,
        RingSupport::Unsupported => 1,
        RingSupport::Supported => 2,
    }
}

/// The answer a cached byte stands for; bytes other than 1 and 2 mean not
/// probed.
pub open spec fn support_of_byte(byte: u8) -> RingSupport {
    if byte == 1 {
        RingSupport::Unsupported
    } else if byte == 2 {
        RingSupport::Supported
    } else {
        RingSupport::Unknown
    }
}

impl RingSupport {
    /// The cached byte of this answer (0 unknown, 1 unsupported, 2 supported).
    pub fn to_byte(&self) -> (r: u8)
        ensures
            r == support_byte(*self),
    {
        match self {
            RingSupport::Unknown => 0,
            RingSupport::Unsupported => 1,
            RingSupport::Supported => 2,
        }
    }

    /// Reads a cached byte back; bytes other than 1 and 2 mean not probed.
    pub fn from_byte(byte: u8) -> (r: RingSupport)
        ensures
            r == support_of_byte(byte),
    {
        if byte == 1 {
            RingSupport::Unsupported
        } else if byte == 2 {
            RingSupport::Supported
        } else {
            RingSupport::Unknown
        }
    }

    /// Whether the operation can go through the ring.
    pub fn is_supported(&self) -> (r: bool)
        ensures
            r == (*self == RingSupport::Supported),
    {
        match self {
            RingSupport::Supported => true,
            _ => false,
        }
    }
}

/// Caching an answer and reading it back gives the same answer.
pub proof fn law_support_byte_round_trip(s: RingSupport)
    ensures
        support_of_byte(support_byte(s)) == s,
{
}

/// The options a file is opened with. Every option starts unset.
#[derive(Clone, Copy, Debug, PartialEq, Eq, Structural)]
pub struct OpenOptions {
    pub read: bool,
    pub write: bool,
    pub append: bool,
    pub create: bool,
    pub truncate: bool,
}

impl OpenOptions {
    /// Options with nothing set.
    pub fn new() -> (r: Self)
        ensures
            r == (OpenOptions {
                read: false,
                write: false,
                append: false,
                create: false,
                truncate: false,
            }),
    {
        OpenOptions { read: false, write: false, append: false, create: false, truncate: false }
    }

    /// Sets read access.
    pub fn read(self, value: bool) -> (r: Self)
        ensures
            r == (OpenOptions { read: value, ..self }),
    {
        OpenOptions { read: value, ..self }
    }

    /// Sets write access.
    pub fn write(self, value: bool) -> (r: Self)
        ensures
            r == (OpenOptions { write: value, ..self }),
    {
        OpenOptions { write: value, ..self }
    }

    /// Sets appending.
    pub fn append(self, value: bool) -> (r: Self)
        ensures
            r == (OpenOptions { append: value, ..self }),
    {
        OpenOptions { append: value, ..self }
    }

    /// Sets creation of a missing file.
    pub fn create(self, value: bool) -> (r: Self)
        ensures
            r == (OpenOptions { create: value, ..self }),
    {
        OpenOptions { create: value, ..self }
    }

    /// Sets truncation. It is recorded but does not change how the file is
    /// opened.
    pub fn truncate(self, value: bool) -> (r: Self)
        ensures
            r == (OpenOptions { truncate: value, ..self }),
    {
        OpenOptions { truncate: value, ..self }
    }

    /// The mode these options open a file with.
    pub fn mode(&self) -> (r: OpenMode)
        ensures
            r == open_mode_spec(self.read, self.write, self.append, self.create),
    {
        open_mode(self.read, self.write, self.append, self.create)
    }
}

/// One step of writing a whole buffer of `to_write` bytes of which
/// `written` are done: an error ends the loop with that error, otherwise
/// the count grows by what was written and the loop goes on while it is
/// below `to_write`. Answers the new count and whether to go on.
pub fn write_all_step<E>(written: usize, to_write: usize, outcome: Result<usize, E>) -> (r: Result<
    (usize, bool),
    E,
>)
    requires
        outcome is Ok ==> written + outcome->Ok_0 <= usize::MAX,
    ensures
        match outcome {
            Ok(n) => r == Ok::<(usize, bool), E>(
                ((written + n) as usize, written + n < to_write),
            ),
            Err(e) => r == Err::<(usize, bool), E>(e),
        },
{
    match outcome {
        Ok(n) => {
            let total = written + n;
            Ok((total, total < to_write))
        },
        Err(e) => Err(e),
    }
}

/// The family of a socket address the kernel wrote back.
#[derive(Clone, Copy, Debug, PartialEq, Eq, Structural)]
pub enum AddressKind {
    V4,
    V6,
}

/// Which family an address of `len` bytes belongs to, where an IPv4 address
/// takes `v4_len` bytes and an IPv6 one `v6_len`; `None` for any other
/// length, which is an unsupported family.
pub fn address_kind(len: usize, v4_len: usize, v6_len: usize) -> (r: Option<AddressKind>)
    ensures
        len == v4_len ==> r == Some(AddressKind::V4),
        len != v4_len && len == v6_len ==> r == Some(AddressKind::V6),
        len != v4_len && len != v6_len ==> r is None,
{
    if len == v4_len {
        Some(AddressKind::V4)
    } else if len == v6_len {
        Some(AddressKind::V6)
    } else {
        None
    }
}

/// Which access the chosen mode asks for, in terms of the options: when
/// creation is not requested, read and write together give read-write
/// access, read alone read-only access, write without read write-only
/// access (whether or not append is requested as well), append alone
/// append mode, and nothing at all the plain mode; creation, when
/// requested, decides alone. Append matters only when neither read nor
/// write is requested.
pub proof fn law_open_mode_access(read: bool, write: bool, append: bool, create: bool)
    ensures
        create ==> open_mode_spec(read, write, append, create) == OpenMode::Create,
        !create ==> ((open_mode_spec(read, write, append, create) == OpenMode::ReadWrite) <==> (
        read && write)),
        !create ==> ((open_mode_spec(read, write, append, create) == OpenMode::ReadOnly) <==> (read
            && !write)),
        !create ==> ((open_mode_spec(read, write, append, create) == OpenMode::WriteOnly) <==> (
        !read && write)),
        !create ==> ((open_mode_spec(read, write, append, create) == OpenMode::Append) <==> (!read
            && !write && append)),
        !create ==> ((open_mode_spec(read, write, append, create) == OpenMode::Plain) <==> (!read
            && !write && !append)),
        (read || write || create) ==> open_mode_spec(read, write, append, create)
            == open_mode_spec(read, write, !append, create),
{
}

} // verus!
