//! The reader handle and the sector cursor.
//!
//! A reader is made from an open drive and owns it. A cursor walks a
//! range of sectors one native read at a time: `pending` says whether a
//! read is to be made, and `next_sector` takes in what the read
//! returned.

use vstd::prelude::*;
use vstd::slice::slice_to_vec;
use crate::drive::{sector_of, Drive, DriveState, DriveView};
use crate::error::Error;

verus! {

/// The number of 16-bit samples in the buffer of one sector.
pub const CD_FRAMEWORDS: usize = 1176;

/// The number of re-reads that the native library may make for one
/// sector where the caller names none.
pub const DEFAULT_MAX_RETRIES: i32 = 20;

/// A reader handle as contracts see it.
pub struct ParanoiaView {
    /// The address of the native reader.
    pub handle: usize,
    /// Whether the native reader has been named for release.
    pub released: bool,
    /// The drive that the reader owns.
    pub drive: DriveView,
}

/// Reads audio data from the disc in a drive.
#[derive(Debug)]
pub struct Paranoia {
    ptr: usize,
    released: bool,
    drive: Drive,
}

/// The native resources to release, in this order: the reader, then the
/// drive. `None` stands for one that was released before.
#[derive(Debug, Clone, Copy, PartialEq, Eq, Structural)]
pub struct Release {
    /// The native reader to free.
    pub paranoia: Option<usize>,
    /// The native drive handle to close.
    pub drive: Option<usize>,
}

/// One native read to make.
#[derive(Debug, Clone, Copy, PartialEq, Eq, Structural)]
pub struct ReadRequest {
    /// The address of the native reader to read from.
    pub paranoia: usize,
    /// How many re-reads the native library may make for the sector.
    pub max_retries: i32,
}

/// A sector cursor as contracts see it.
pub struct ReaderView {
    /// The address of the native reader that the cursor reads from.
    pub paranoia: usize,
    /// The sector that the next read returns.
    pub current_lsn: u32,
    /// The sector at which the cursor is exhausted.
    pub last_lsn: u32,
    /// How many re-reads the native library may make for one sector.
    pub max_retries: i32,
}

/// A cursor over the sectors from a first one up to, and without, a last
/// one.
#[derive(Debug)]
pub struct DiscReader {
    paranoia: usize,
    last_lsn: u32,
    current_lsn: u32,
    max_retries: i32,
}

impl View for Paranoia {
    type V = ParanoiaView;

    closed spec fn view(&self) -> ParanoiaView {
        ParanoiaView { handle: self.ptr, released: self.released, drive: self.drive@ }
    }
}

impl View for DiscReader {
    type V = ReaderView;

    closed spec fn view(&self) -> ReaderView {
        ReaderView {
            paranoia: self.paranoia,
            current_lsn: self.current_lsn,
            last_lsn: self.last_lsn,
            max_retries: self.max_retries,
        }
    }
}

impl ParanoiaView {
    /// The native reader that `release` asks to free: the reader's own,
    /// unless it was released already.
    pub open spec fn to_release(self) -> Option<usize> {
        if self.released {
            None
        } else {
            Some(self.handle)
        }
    }

    /// The reader after `release`.
    pub open spec fn after_release(self) -> ParanoiaView {
        ParanoiaView { handle: self.handle, released: true, drive: self.drive.closed() }
    }

    /// The cursor that a track read starts with, from what the native
    /// queries for the track's first and last sector returned. The
    /// failure of the first query comes before that of the second.
    pub open spec fn track_reader(self, first_code: i32, last_code: i32, max_retries: i32) -> Result<
        ReaderView,
        Error,
    > {
        match (sector_of(first_code), sector_of(last_code)) {
            (Err(e), _) => Err(e),
            (Ok(_), Err(e)) => Err(e),
            (Ok(first_lsn), Ok(last_lsn)) => Ok(
                ReaderView { paranoia: self.handle, current_lsn: first_lsn, last_lsn, max_retries },
            ),
        }
    }
}

impl ReaderView {
    /// Whether the cursor has reached its last sector.
    pub open spec fn exhausted(self) -> bool {
        self.current_lsn == self.last_lsn
    }

    /// The number of sectors between the cursor and its last sector.
    pub open spec fn remaining(self) -> int {
        self.last_lsn - self.current_lsn
    }

    /// The cursor moved on by `n` sectors.
    pub open spec fn moved(self, n: int) -> ReaderView
        recommends
            0 <= self.current_lsn + n <= u32::MAX,
    {
        ReaderView {
            paranoia: self.paranoia,
            current_lsn: (self.current_lsn + n) as u32,
            last_lsn: self.last_lsn,
            max_retries: self.max_retries,
        }
    }

    /// The cursor after one step: unchanged where it is exhausted, else
    /// one sector on, whatever the read returned.
    pub open spec fn stepped(self) -> ReaderView {
        if self.exhausted() {
            self
        } else {
            self.moved(1)
        }
    }

    /// The cursor after `n` steps.
    pub open spec fn after(self, n: nat) -> ReaderView
        decreases n,
    {
        if n == 0 {
            self
        } else {
            self.stepped().after((n - 1) as nat)
        }
    }

    /// The read to make before the next step, if any.
    pub open spec fn request(self) -> Option<ReadRequest> {
        if self.exhausted() {
            None
        } else {
            Some(ReadRequest { paranoia: self.paranoia, max_retries: self.max_retries })
        }
    }
}

/// What one step yields: nothing where the cursor is exhausted; else the
/// buffer that the native read returned, or a read failure where it
/// returned none.
pub open spec fn step_outcome<'a>(reader: ReaderView, data: Option<&'a [i16]>) -> Option<
    Result<&'a [i16], Error>,
> {
    if reader.exhausted() {
        None
    } else {
        match data {
            Some(samples) => Some(Ok(samples)),
            None => Some(Err(Error::Read)),
        }
    }
}

impl Paranoia {
    #[verifier::type_invariant]
    spec fn is_consistent(self) -> bool {
        &&& self.ptr != 0
        &&& !self.released ==> self.drive@.state == DriveState::Open
    }

    /// The reader over `drive`, from the address that the native reader
    /// initialisation returned.
    pub(crate) fn new(drive: Drive, ptr: usize) -> (r: Paranoia)
        requires
            drive@.state == DriveState::Open,
            ptr != 0,
        ensures
            r@ == (ParanoiaView { handle: ptr, released: false, drive: drive@ }),
    {
        Paranoia { ptr, released: false, drive }
    }

    /// The drive that the reader owns.
    pub fn drive(&self) -> (r: &Drive)
        ensures
            r@ == self@.drive,
    {
        &self.drive
    }

    /// The address of the native reader, which is never zero.
    pub fn as_ptr(&self) -> (r: usize)
        ensures
            r == self@.handle,
            r != 0,
    {
        proof {
            use_type_invariant(self);
        }
        self.ptr
    }

    /// Whether the reader has been released.
    pub fn is_released(&self) -> (r: bool)
        ensures
            r == self@.released,
            !r ==> self@.drive.state == DriveState::Open,
    {
        proof {
            use_type_invariant(self);
        }
        self.released
    }

    /// A cursor over a track with the default number of re-reads, from
    /// what the native queries for the track's first and last sector
    /// returned.
    pub fn read_track(&self, first_code: i32, last_code: i32) -> (r: Result<DiscReader, Error>)
        requires
            !self@.released,
        ensures
            match self@.track_reader(first_code, last_code, DEFAULT_MAX_RETRIES) {
                Ok(reader) => r is Ok && r->Ok_0@ == reader,
                Err(e) => r is Err && r->Err_0 == e,
            },
    {
        self.read_track_limited(first_code, last_code, DEFAULT_MAX_RETRIES)
    }

    /// A cursor over a track, from what the native queries for the
    /// track's first and last sector returned. A failure of either query
    /// is returned, that of the first before that of the second.
    pub fn read_track_limited(&self, first_code: i32, last_code: i32, max_retries: i32) -> (r:
        Result<DiscReader, Error>)
        requires
            !self@.released,
        ensures
            match self@.track_reader(first_code, last_code, max_retries) {
                Ok(reader) => r is Ok && r->Ok_0@ == reader,
                Err(e) => r is Err && r->Err_0 == e,
            },
    {
        proof {
            use_type_invariant(self);
        }
        let first_lsn = match self.drive.track_first_sector(first_code) {
            Ok(lsn) => lsn,
            Err(e) => {
                return Err(e);
            },
        };
        let last_lsn = match self.drive.track_last_sector(last_code) {
            Ok(lsn) => lsn,
            Err(e) => {
                return Err(e);
            },
        };
        Ok(self.read_sectors_limited(first_lsn, last_lsn, max_retries))
    }

    /// A cursor over the sectors from `first_lsn` up to, and without,
    /// `last_lsn`, with the default number of re-reads.
    pub fn read_sectors(&self, first_lsn: u32, last_lsn: u32) -> (r: DiscReader)
        requires
            !self@.released,
        ensures
            r@ == (ReaderView {
                paranoia: self@.handle,
                current_lsn: first_lsn,
                last_lsn,
                max_retries: DEFAULT_MAX_RETRIES,
            }),
    {
        self.read_sectors_limited(first_lsn, last_lsn, DEFAULT_MAX_RETRIES)
    }

    /// A cursor over the sectors from `first_lsn` up to, and without,
    /// `last_lsn`.
    pub fn read_sectors_limited(&self, first_lsn: u32, last_lsn: u32, max_retries: i32) -> (r:
        DiscReader)
        requires
            !self@.released,
        ensures
            r@ == (ReaderView {
                paranoia: self@.handle,
                current_lsn: first_lsn,
                last_lsn,
                max_retries,
            }),
    {
        DiscReader::new(self, first_lsn, last_lsn, max_retries)
    }

    /// Ends the reader's life and that of its drive. Names the native
    /// resources to release, the reader before the drive, each only the
    /// first time.
    pub fn release(&mut self) -> (r: Release)
        ensures
            r.paranoia == old(self)@.to_release(),
            r.drive == old(self)@.drive.to_release(),
            final(self)@ == old(self)@.after_release(),
    {
        proof {
            use_type_invariant(&*self);
        }
        let paranoia = if self.released {
            None
        } else {
            Some(self.ptr)
        };
        self.released = true;
        let drive = self.drive.close();
        Release { paranoia, drive }
    }

    /// A reader and its drive are each released exactly once: the first
    /// `release` of a live reader names both, the reader first, and a
    /// second one names neither.
    pub proof fn lemma_release_once(reader: ParanoiaView)
        ensures
            !reader.released ==> reader.to_release() == Some(reader.handle),
            reader.drive.state != DriveState::Closed ==> reader.drive.to_release() == Some(
                reader.drive.handle,
            ),
            reader.after_release().to_release() is None,
            reader.after_release().drive.to_release() is None,
            reader.after_release().after_release() == reader.after_release(),
    {
    }
}

impl DiscReader {
    pub(crate) fn new(paranoia: &Paranoia, first_lsn: u32, last_lsn: u32, max_retries: i32) -> (r:
        DiscReader)
        ensures
            r@ == (ReaderView {
                paranoia: paranoia@.handle,
                current_lsn: first_lsn,
                last_lsn,
                max_retries,
            }),
    {
        DiscReader { paranoia: paranoia.as_ptr(), last_lsn, current_lsn: first_lsn, max_retries }
    }

    /// The sector that the next read returns.
    pub fn current_lsn(&self) -> (r: u32)
        ensures
            r == self@.current_lsn,
    {
        self.current_lsn
    }

    /// The sector at which the cursor is exhausted.
    pub fn last_lsn(&self) -> (r: u32)
        ensures
            r == self@.last_lsn,
    {
        self.last_lsn
    }

    /// The read to make before the next step: `None` where the cursor is
    /// exhausted, and then no native read is to be made.
    pub fn pending(&self) -> (r: Option<ReadRequest>)
        ensures
            r == self@.request(),
    {
        if self.current_lsn == self.last_lsn {
            None
        } else {
            Some(ReadRequest { paranoia: self.paranoia, max_retries: self.max_retries })
        }
    }

    /// Takes one step. `data` is what the native read returned: the
    /// sector's samples, or `None` where it returned no buffer. An
    /// exhausted cursor yields `None` and stays as it is. Any other
    /// moves on by one sector and yields the samples, or a read failure
    /// where there are none.
    pub fn next_sector<'a>(&mut self, data: Option<&'a [i16]>) -> (r: Option<
        Result<&'a [i16], Error>,
    >)
        requires
            !old(self)@.exhausted() ==> old(self)@.current_lsn < u32::MAX,
            data matches Some(samples) ==> samples@.len() == CD_FRAMEWORDS,
        ensures
            r == step_outcome(old(self)@, data),
            final(self)@ == old(self)@.stepped(),
            r matches Some(Ok(samples)) ==> samples@.len() == CD_FRAMEWORDS,
    {
        if self.current_lsn == self.last_lsn {
            return None;
        }
        self.current_lsn += 1;
        match data {
            Some(samples) => Some(Ok(samples)),
            None => Some(Err(Error::Read)),
        }
    }

    /// Takes one step as `next_sector` does, and yields the samples as a
    /// buffer of their own.
    pub fn next(&mut self, data: Option<&[i16]>) -> (r: Option<Result<Vec<i16>, Error>>)
        requires
            !old(self)@.exhausted() ==> old(self)@.current_lsn < u32::MAX,
            data matches Some(samples) ==> samples@.len() == CD_FRAMEWORDS,
        ensures
            final(self)@ == old(self)@.stepped(),
            match step_outcome(old(self)@, data) {
                None => r is None,
                Some(Err(e)) => r == Some(Err::<Vec<i16>, Error>(e)),
                Some(Ok(samples)) => r matches Some(Ok(copy)) && copy@ == samples@,
            },
    {
        match self.next_sector(data) {
            None => None,
            Some(Err(e)) => Some(Err(e)),
            Some(Ok(samples)) => Some(Ok(slice_to_vec(samples))),
        }
    }

    /// A cursor that starts at or before its last sector takes exactly
    /// as many steps as the range has sectors: as long as each read
    /// returns samples, each of these steps yields them; after them the
    /// cursor is exhausted, yields nothing and stays where it is. No
    /// step overflows on the way.
    pub proof fn lemma_reader_covers_range(reader: ReaderView, steps: nat, samples: &[i16])
        requires
            reader.current_lsn <= reader.last_lsn,
        ensures
            steps < reader.remaining() ==> step_outcome(reader.after(steps), Some(samples))
                == Some(Ok::<&[i16], Error>(samples)),
            steps >= reader.remaining() ==> step_outcome(reader.after(steps), Some(samples))
                is None,
            steps < reader.remaining() ==> !reader.after(steps).exhausted(),
            steps < reader.remaining() ==> reader.after(steps).current_lsn < u32::MAX,
            steps <= reader.remaining() ==> reader.after(steps) == reader.moved(steps as int),
            steps >= reader.remaining() ==> reader.after(steps).exhausted(),
            steps >= reader.remaining() ==> reader.after(steps) == reader.moved(reader.remaining()),
        decreases steps,
    {
        if steps == 0 {
            assert(reader.moved(0) == reader);
        } else {
            let next = reader.stepped();
            Self::lemma_reader_covers_range(next, (steps - 1) as nat, samples);
            if reader.exhausted() {
                assert(reader.moved(0) == reader);
            } else {
                assert(next.remaining() == reader.remaining() - 1);
                if steps <= reader.remaining() {
                    assert(next.moved(steps - 1) == reader.moved(steps as int));
                }
                assert(next.moved(next.remaining()) == reader.moved(reader.remaining()));
            }
        }
    }
}

} // verus!
