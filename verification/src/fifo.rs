//! The life of a FIFO: made at a free path, opened once a reader is there,
//! unlinked by whoever holds its guard.
use vstd::prelude::*;

use crate::error::{Error, ErrorView};
use crate::text;

verus! {

/// The permissions of a new FIFO: its owner may read and write it.
pub const FIFO_MODE: u32 = 0o600;

/// How long to wait for a reader between two attempts to open a FIFO.
pub const POLL_MILLIS: u64 = 50;

/// A FIFO that is on disk and has to be unlinked. There is one guard for one
/// FIFO: it cannot be copied.
#[derive(Debug)]
pub struct FifoGuard {
    path: Vec<u8>,
}

impl View for FifoGuard {
    type V = Seq<u8>;

    closed spec fn view(&self) -> Seq<u8> {
        self.path@
    }
}

impl FifoGuard {
    /// The path of the FIFO.
    pub fn path(&self) -> (r: &Vec<u8>)
        ensures
            r@ == self@,
    {
        &self.path
    }
}

/// A FIFO to be made.
#[derive(Debug)]
pub struct NewFifo {
    pub path: Vec<u8>,
    pub mode: u32,
}

/// The first half of making a FIFO, once it is known whether any filesystem
/// entry exists at `path` (a regular file, a directory, a symbolic link or a
/// FIFO): what to make, unless the path is occupied.
pub fn create_fifo(path: &Vec<u8>, occupied: bool) -> (r: Result<NewFifo, Error>)
    ensures
        r is Ok <==> !occupied,
        r matches Ok(fifo) ==> fifo.path@ == path@ && fifo.mode == FIFO_MODE,
        r matches Ok(fifo) ==> fifo.mode == 0o600,
        r matches Err(e) ==> (e matches Error::FifoAlreadyExists(occupant) && occupant@ == path@),
        r matches Err(e) ==> e@ == ErrorView::FifoAlreadyExists(path@),
{
    if occupied {
        Err(Error::FifoAlreadyExists(text::copy_bytes(path)))
    } else {
        Ok(NewFifo { path: text::copy_bytes(path), mode: FIFO_MODE })
    }
}

/// The second half of making a FIFO, once the operating system has answered:
/// the guard of the FIFO at `path`, unless it could not be made.
pub fn fifo_created(path: &Vec<u8>, made: Result<(), String>) -> (r: Result<FifoGuard, Error>)
    ensures
        r is Ok <==> made is Ok,
        r matches Ok(guard) ==> guard@ == path@,
        r matches Err(e) ==> e@ == ErrorView::FifoCreate(made->Err_0@),
        r matches Err(e) ==> (e matches Error::FifoCreate(said) && said@ == made->Err_0@),
{
    match made {
        Ok(()) => Ok(FifoGuard { path: text::copy_bytes(path) }),
        Err(detail) => Err(Error::FifoCreate(detail)),
    }
}

/// What came of an attempt to open the write end without blocking.
#[derive(Debug)]
pub enum OpenOutcome {
    /// The write end is open: a reader is there.
    Opened,
    /// No reader has opened the FIFO yet.
    NoReader,
    /// The attempt failed for any other reason.
    Failed(String),
}

/// The mathematical value of an [`OpenOutcome`].
pub enum OpenOutcomeView {
    Opened,
    NoReader,
    Failed(Seq<char>),
}

impl View for OpenOutcome {
    type V = OpenOutcomeView;

    open spec fn view(&self) -> OpenOutcomeView {
        match self {
            OpenOutcome::Opened => OpenOutcomeView::Opened,
            OpenOutcome::NoReader => OpenOutcomeView::NoReader,
            OpenOutcome::Failed(detail) => OpenOutcomeView::Failed(detail@),
        }
    }
}

/// The error numbers that mean on some platform that a FIFO has no reader
/// (`ENXIO`): 6 on Linux, Android, the BSDs, macOS, illumos and most others, 60 on
/// WASI and Emscripten, 30 on HelenOS, and the last two on the Hurd and on Haiku.
pub open spec fn may_mean_no_reader(code: i32) -> bool {
    code == 6 || code == 60 || code == 30 || code == 1073741830 || code == -2147454965
}

/// The error number `rustix::io::Errno::NXIO`, which a non-blocking open of a
/// FIFO without a reader fails with. It is the platform's `ENXIO`: one of the few
/// values that platforms give it, and which one is left unsaid.
#[verifier::external_body]
fn no_reader_code() -> (r: i32)
    ensures
        may_mean_no_reader(r),
{
    rustix::io::Errno::NXIO.raw_os_error()
}

/// The meaning of a failed open with error number `code`, where `no_reader` is
/// the platform's number for a FIFO without a reader.
pub fn classify_open_failure(code: i32, no_reader: i32, detail: String) -> (r: OpenOutcome)
    ensures
        code == no_reader ==> r is NoReader,
        code != no_reader ==> r@ == OpenOutcomeView::Failed(detail@),
{
    if code == no_reader {
        OpenOutcome::NoReader
    } else {
        OpenOutcome::Failed(detail)
    }
}

/// The meaning of a failed open with error number `code` on this platform. A
/// number that means on no platform that there is no reader is a failure; which of
/// the others stands for a FIFO without a reader is the platform's choice.
pub fn open_failed(code: i32, detail: String) -> (r: OpenOutcome)
    ensures
        !may_mean_no_reader(code) ==> r@ == OpenOutcomeView::Failed(detail@),
        r is NoReader || r@ == OpenOutcomeView::Failed(detail@),
{
    classify_open_failure(code, no_reader_code(), detail)
}

/// Whether an attempt to open has found a reader, or the error that ends the
/// search for one.
pub fn open_fifo_write(attempt: OpenOutcome) -> (r: Result<bool, Error>)
    ensures
        match attempt@ {
            OpenOutcomeView::Opened => r == Ok::<bool, Error>(true),
            OpenOutcomeView::NoReader => r == Ok::<bool, Error>(false),
            OpenOutcomeView::Failed(detail) => r is Err && r->Err_0@ == ErrorView::Io(detail),
        },
{
    match attempt {
        OpenOutcome::Opened => Ok(true),
        OpenOutcome::NoReader => Ok(false),
        OpenOutcome::Failed(detail) => Err(Error::Io(detail)),
    }
}

/// How many milliseconds to sleep before the next attempt to open a FIFO that
/// has no reader, unless the mount has been cancelled.
pub fn wait_for_reader(cancelled: bool) -> (r: Result<u64, Error>)
    ensures
        r is Ok <==> !cancelled,
        r matches Ok(millis) ==> millis == POLL_MILLIS,
        r matches Ok(millis) ==> millis == 50,
        r matches Err(e) ==> e is Cancelled,
        r matches Err(e) ==> e@ == ErrorView::Cancelled,
{
    if cancelled {
        Err(Error::Cancelled)
    } else {
        Ok(POLL_MILLIS)
    }
}

/// The values that platforms give the status flag `O_NONBLOCK`: 2048 on Linux on
/// most machines and on Android, 128 and 16384 on Linux on MIPS and SPARC and on
/// some other systems, 4 on the BSDs, macOS, AIX and WASI, 8 on the Hurd, 16 on
/// Fuchsia and 0x40000 on Redox.
pub open spec fn may_be_nonblock(mask: u32) -> bool {
    mask == 2048 || mask == 128 || mask == 16384 || mask == 4 || mask == 8 || mask == 16 || mask
        == 0x40000
}

/// The bits of `rustix::fs::OFlags::NONBLOCK`. They are the platform's
/// `O_NONBLOCK`: one of the few values that platforms give it, and which one is
/// left unsaid.
#[verifier::external_body]
fn nonblock_bits() -> (r: u32)
    ensures
        may_be_nonblock(r),
{
    rustix::fs::OFlags::NONBLOCK.bits()
}

/// The status flags `flags` without those of `mask`: a flag is set in the result
/// if and only if it was set and is not one of the mask.
pub fn clear_flags(flags: u32, mask: u32) -> (r: u32)
    ensures
        r == flags & !mask,
        r & mask == 0,
        r | (flags & mask) == flags,
{
    assert((flags & !mask) & mask == 0) by (bit_vector);
    assert((flags & !mask) | (flags & mask) == flags) by (bit_vector);
    flags & !mask
}

/// The status flags `flags` without the one that makes writes return at once
/// when the FIFO is full, so that writes wait for the reader. Which of the values
/// of that flag is this platform's is the platform's choice; no flag that was
/// clear is set.
pub fn blocking_flags(flags: u32) -> (r: u32)
    ensures
        exists|mask: u32| #[trigger] may_be_nonblock(mask) && r == flags & !mask,
        r & flags == r,
{
    let mask = nonblock_bits();
    assert((flags & !mask) & flags == flags & !mask) by (bit_vector);
    clear_flags(flags, mask)
}

} // verus!
