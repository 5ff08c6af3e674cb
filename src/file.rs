use crate::chance::one_in;
use crate::text::{decode_lossy, lossy_text};
use rand::rngs::StdRng;
use vstd::prelude::*;
use vstd::utf8::{decode_utf8, valid_utf8};

verus! {

/// The two states a file can be in.
#[derive(Debug, PartialEq, Eq, Structural, Clone, Copy)]
pub enum FileState {
    Open,
    Closed,
}

impl FileState {
    /// The state's name in capitals, as a listing shows it.
    pub fn label(&self) -> (r: &'static str)
        ensures
            *self == FileState::Open ==> r@ == "OPEN"@,
            *self == FileState::Closed ==> r@ == "CLOSED"@,
    {
        match self {
            FileState::Open => "OPEN",
            FileState::Closed => "CLOSED",
        }
    }
}

/// Why a transition failed.
#[derive(Debug, PartialEq, Eq, Structural, Clone, Copy)]
pub enum FileError {
    /// `open` was refused.
    PermissionDenied,
    /// `close` was cut short.
    Interrupted,
}

impl FileError {
    /// A short description of the failure.
    pub fn message(&self) -> (r: &'static str)
        ensures
            *self == FileError::PermissionDenied ==> r@ == "Permission denied"@,
            *self == FileError::Interrupted ==> r@ == "Interrupted by signal!"@,
    {
        match self {
            FileError::PermissionDenied => "Permission denied",
            FileError::Interrupted => "Interrupted by signal!",
        }
    }
}

/// A file as a mathematical value: its name, its bytes and its state.
pub struct FileModel {
    pub name: Seq<char>,
    pub data: Seq<u8>,
    pub state: FileState,
}

impl FileModel {
    /// The same file, in state `s`.
    pub open spec fn with_state(self, s: FileState) -> FileModel {
        FileModel { name: self.name, data: self.data, state: s }
    }
}

/// A named byte buffer with an explicit lifecycle.
#[derive(Debug)]
pub struct File {
    name: String,
    data: Vec<u8>,
    state: FileState,
}

/// The buffer `buf` after `d` has been appended to it.
pub open spec fn appended(buf: Seq<u8>, d: Seq<u8>) -> Seq<u8> {
    buf + d
}

impl View for File {
    type V = FileModel;

    closed spec fn view(&self) -> FileModel {
        FileModel { name: self.name@, data: self.data@, state: self.state }
    }
}

impl File {
    /// Creates an empty, closed file called `name`.
    pub fn new(name: &str) -> (f: File)
        ensures
            f@.name == name@,
            f@.data.len() == 0,
            f@.state == FileState::Closed,
    {
        File { name: name.to_owned(), data: Vec::new(), state: FileState::Closed }
    }

    /// Creates a closed file called `name` that holds a copy of `data`.
    pub fn new_with_data(name: &str, data: &Vec<u8>) -> (f: File)
        ensures
            f@.name == name@,
            f@.data == data@,
            f@.state == FileState::Closed,
    {
        let mut f = File::new(name);
        f.data = data.clone();
        proof {
            assert(f.data@ =~= data@);
        }
        f
    }

    /// The number of bytes the file holds.
    pub fn len(&self) -> (r: usize)
        ensures
            r == self@.data.len(),
    {
        self.data.len()
    }

    /// A copy of the file's name.
    pub fn name(&self) -> (r: String)
        ensures
            r@ == self@.name,
    {
        self.name.clone()
    }

    /// The file's current state.
    pub fn state(&self) -> (r: FileState)
        ensures
            r == self@.state,
    {
        self.state
    }

    /// Appends a copy of the file's whole contents to `save_to` and returns
    /// how many bytes were appended. The file need not be open.
    pub fn read(&self, save_to: &mut Vec<u8>) -> (r: Result<usize, FileError>)
        ensures
            final(save_to)@ == appended(old(save_to)@, self@.data),
            r == Ok::<usize, FileError>(self@.data.len() as usize),
    {
        let mut tmp = self.data.clone();
        proof {
            assert(tmp@ =~= self.data@);
        }
        let read_length = tmp.len();
        save_to.reserve(read_length);
        save_to.append(&mut tmp);
        Ok(read_length)
    }

    /// The file's contents as text. Bytes that are not valid UTF-8 are
    /// replaced by U+FFFD, one per maximal invalid sequence; this never fails.
    pub fn to_string(&self) -> (r: String)
        ensures
            r@ == lossy_text(self@.data),
            valid_utf8(self@.data) ==> r@ == decode_utf8(self@.data),
            !valid_utf8(self@.data) ==> r@.contains('\u{FFFD}'),
    {
        decode_lossy(&self.data)
    }
}

/// Reading twice into one buffer appends the file's contents twice, one
/// copy after the other: nothing is truncated or merged.
pub proof fn lemma_read_twice(buf: Seq<u8>, d: Seq<u8>)
    ensures
        appended(appended(buf, d), d) == buf + d + d,
        appended(appended(buf, d), d).len() == buf.len() + 2 * d.len(),
        appended(appended(buf, d), d).subrange(buf.len() as int, (buf.len() + d.len()) as int) == d,
        appended(appended(buf, d), d).subrange((buf.len() + d.len()) as int, (buf.len() + 2 * d.len()) as int) == d,
{
    let r = appended(appended(buf, d), d);
    assert(r.subrange(buf.len() as int, (buf.len() + d.len()) as int) =~= d);
    assert(r.subrange((buf.len() + d.len()) as int, (buf.len() + 2 * d.len()) as int) =~= d);
}

/// A successful open followed by a successful close leaves the file closed,
/// with its name and its contents as they were.
pub proof fn lemma_open_then_close(m: FileModel)
    ensures
        m.with_state(FileState::Open).with_state(FileState::Closed).state == FileState::Closed,
        m.with_state(FileState::Open).with_state(FileState::Closed).data == m.data,
        m.with_state(FileState::Open).with_state(FileState::Closed).name == m.name,
{
}

/// Opens `f`, given whether the open is to fail. On failure `f` is left as
/// it was and `PermissionDenied` is returned.
pub fn open_with(f: &mut File, fails: bool) -> (r: Result<(), FileError>)
    ensures
        fails ==> r == Err::<(), FileError>(FileError::PermissionDenied) && final(f)@ == old(f)@,
        !fails ==> r == Ok::<(), FileError>(()) && final(f)@ == old(f)@.with_state(FileState::Open),
{
    if fails {
        return Err(FileError::PermissionDenied);
    }
    f.state = FileState::Open;
    Ok(())
}

/// Closes `f`, given whether the close is to fail. On failure `f` is left
/// as it was and `Interrupted` is returned.
pub fn close_with(f: &mut File, fails: bool) -> (r: Result<(), FileError>)
    ensures
        fails ==> r == Err::<(), FileError>(FileError::Interrupted) && final(f)@ == old(f)@,
        !fails ==> r == Ok::<(), FileError>(()) && final(f)@ == old(f)@.with_state(FileState::Closed),
{
    if fails {
        return Err(FileError::Interrupted);
    }
    f.state = FileState::Closed;
    Ok(())
}

/// Opens `f`; this fails with probability `1/n` (always when `n <= 1`),
/// drawn from `rng`. Opening an open file keeps it open.
pub fn open(f: &mut File, rng: &mut StdRng, n: u32) -> (r: Result<(), FileError>)
    ensures
        r is Ok ==> final(f)@ == old(f)@.with_state(FileState::Open),
        r is Err ==> r == Err::<(), FileError>(FileError::PermissionDenied) && final(f)@ == old(f)@,
        n <= 1 ==> r is Err,
{
    let fails = one_in(rng, n);
    open_with(f, fails)
}

/// Closes `f`; this fails with probability `1/n` (always when `n <= 1`),
/// drawn from `rng`. Closing a closed file keeps it closed.
pub fn close(f: &mut File, rng: &mut StdRng, n: u32) -> (r: Result<(), FileError>)
    ensures
        r is Ok ==> final(f)@ == old(f)@.with_state(FileState::Closed),
        r is Err ==> r == Err::<(), FileError>(FileError::Interrupted) && final(f)@ == old(f)@,
        n <= 1 ==> r is Err,
{
    let fails = one_in(rng, n);
    close_with(f, fails)
}

} // verus!
