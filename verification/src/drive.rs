//! The drive handle: how it is looked up, opened, queried and closed.
//!
//! A handle is the address that the native library returned for a
//! drive. It starts out unopened, is opened by one successful native
//! call, and is closed once: `close` names the handle to release the
//! first time it is called and nothing after that.

use vstd::prelude::*;
use vstd::slice::slice_to_vec;
use crate::error::{Error, ParanoiaError};
use crate::messages::{append_lines, buffer_lines, diagnostics_view, tagged, Diagnostic, Level};
use crate::read::{Paranoia, ParanoiaView};

verus! {

/// What the native library reports for a sector that lies in no track;
/// track numbers lie below it.
pub const INVALID_TRACK: i32 = 255;

/// Where the native library sends its messages.
#[derive(Debug, Clone, Copy, PartialEq, Eq, Structural)]
pub enum MessageDest {
    /// Messages are thrown away.
    Forget,
    /// Messages are printed as they arise.
    Print,
    /// Messages are collected, to be read out of the drive's buffers.
    Log,
}

/// Where a drive handle stands in its life.
#[derive(Debug, Clone, Copy, PartialEq, Eq, Structural)]
pub enum DriveState {
    /// Located, and not opened yet.
    Unopened,
    /// Opened: queries and reads are answered.
    Open,
    /// Released: the end of its life.
    Closed,
}

/// The lookup to ask of the native library.
#[derive(Debug)]
pub struct Lookup {
    /// The device to identify, as a path that ends in a zero byte; `None`
    /// asks for any drive with an audio disc in it.
    pub path: Option<Vec<u8>>,
    /// The native number of the message destination.
    pub message_dest: i32,
}

/// A drive handle as contracts see it.
pub struct DriveView {
    /// The address of the native handle.
    pub handle: usize,
    /// Where the handle stands in its life.
    pub state: DriveState,
}

/// A physical or virtual CD-ROM drive, as a native handle and its state.
#[derive(Debug)]
pub struct Drive {
    ptr: usize,
    state: DriveState,
}

impl View for Drive {
    type V = DriveView;

    closed spec fn view(&self) -> DriveView {
        DriveView { handle: self.ptr, state: self.state }
    }
}

impl MessageDest {
    /// The number by which the native library knows this destination.
    pub open spec fn spec_native(self) -> i32 {
        match self {
            MessageDest::Forget => 0,
            MessageDest::Print => 1,
            MessageDest::Log => 2,
        }
    }

    /// The number by which the native library knows this destination.
    pub fn native(self) -> (r: i32)
        ensures
            r == self.spec_native(),
    {
        match self {
            MessageDest::Forget => 0,
            MessageDest::Print => 1,
            MessageDest::Log => 2,
        }
    }
}

impl DriveView {
    /// The handle after the native open call returned `code`: open where
    /// the code is not negative, else as before.
    pub open spec fn opened(self, code: i32) -> DriveView {
        if code >= 0 {
            DriveView { handle: self.handle, state: DriveState::Open }
        } else {
            self
        }
    }

    /// The handle after `close`.
    pub open spec fn closed(self) -> DriveView {
        DriveView { handle: self.handle, state: DriveState::Closed }
    }

    /// The native handle that `close` asks to release: the handle's own,
    /// unless it is closed already.
    pub open spec fn to_release(self) -> Option<usize> {
        if self.state == DriveState::Closed {
            None
        } else {
            Some(self.handle)
        }
    }
}

/// What a native sector query returned: the sector, or the failure that
/// a negative code stands for.
pub open spec fn sector_of(code: i32) -> Result<u32, Error> {
    match ParanoiaError::spec_check_result(code) {
        Ok(lsn) => Ok(lsn as u32),
        Err(e) => Err(Error::Paranoia(e)),
    }
}

/// What the native track lookup returned for a sector: the track, an
/// invalid track number where the code is the mark of no track or
/// greater than any track number, or the failure that a negative code
/// stands for.
pub open spec fn track_of(code: i32) -> Result<u8, Error> {
    match ParanoiaError::spec_check_result(code) {
        Ok(track) => if track >= INVALID_TRACK {
            Err(Error::Paranoia(ParanoiaError::InvalidTrackNumber))
        } else {
            Ok(track as u8)
        },
        Err(e) => Err(Error::Paranoia(e)),
    }
}

/// What a native flag query returned: whether the flag is set, which is
/// what 1 stands for, or the failure that a negative code stands for.
pub open spec fn flag_of(code: i32) -> Result<bool, Error> {
    match ParanoiaError::spec_check_result(code) {
        Ok(flag) => Ok(flag == 1),
        Err(e) => Err(Error::Paranoia(e)),
    }
}

/// What the native channel query returned: the number of channels,
/// nothing where the number does not fit in a byte, or the failure that
/// a negative code stands for.
pub open spec fn channels_of(code: i32) -> Result<Option<u8>, Error> {
    match ParanoiaError::spec_check_result(code) {
        Ok(channels) => if channels <= u8::MAX {
            Ok(Some(channels as u8))
        } else {
            Ok(None)
        },
        Err(e) => Err(Error::Paranoia(e)),
    }
}

/// The sector as the native library takes it: the number itself where
/// the native signed type holds it, else an unaddressable sector.
pub open spec fn native_sector_of(lsn: u32) -> Result<i32, Error> {
    if lsn <= i32::MAX {
        Ok(lsn as i32)
    } else {
        Err(Error::Paranoia(ParanoiaError::UnaddressableSector))
    }
}

/// What the native open call returned: nothing, or the failure that a
/// negative code stands for.
pub open spec fn open_outcome(code: i32) -> Result<(), Error> {
    match ParanoiaError::spec_check_result(code) {
        Ok(_) => Ok(()),
        Err(e) => Err(Error::Paranoia(e)),
    }
}

/// Whether `at` is the index of the first zero byte of `path`.
pub open spec fn is_first_nul(path: Seq<u8>, at: int) -> bool {
    &&& 0 <= at < path.len()
    &&& path[at] == 0
    &&& forall|j: int| 0 <= j < at ==> path[j] != 0
}

fn decode_sector(code: i32) -> (r: Result<u32, Error>)
    ensures
        r == sector_of(code),
{
    match ParanoiaError::check_result(code) {
        Ok(lsn) => Ok(lsn as u32),
        Err(e) => Err(Error::from(e)),
    }
}

fn decode_flag(code: i32) -> (r: Result<bool, Error>)
    ensures
        r == flag_of(code),
{
    match ParanoiaError::check_result(code) {
        Ok(flag) => Ok(flag == 1),
        Err(e) => Err(Error::from(e)),
    }
}

impl Drive {
    #[verifier::type_invariant]
    spec fn has_handle(self) -> bool {
        self.ptr != 0
    }

    /// The lookup of any drive with an audio disc in it.
    pub fn find(dest: MessageDest) -> (r: Lookup)
        ensures
            r.path is None,
            r.message_dest == dest.spec_native(),
    {
        Lookup { path: None, message_dest: dest.native() }
    }

    /// The lookup of the drive at `path`. A path with a zero byte in it
    /// cannot be handed to the native library: it is refused with the
    /// index of its first zero byte, and no lookup is to be made.
    pub fn open(path: &[u8], dest: MessageDest) -> (r: Result<Lookup, Error>)
        ensures
            match r {
                Ok(lookup) => {
                    &&& !path@.contains(0)
                    &&& lookup.path matches Some(bytes) && bytes@ == path@.push(0)
                    &&& lookup.message_dest == dest.spec_native()
                },
                Err(Error::InvalidString(at)) => is_first_nul(path@, at as int),
                Err(_) => false,
            },
    {
        let mut at: usize = 0;
        while at < path.len()
            invariant
                at <= path.len(),
                forall|j: int| 0 <= j < at ==> path@[j] != 0,
            decreases path.len() - at,
        {
            if path[at] == 0 {
                return Err(Error::InvalidString(at));
            }
            at += 1;
        }
        let mut bytes = slice_to_vec(path);
        bytes.push(0);
        Ok(Lookup { path: Some(bytes), message_dest: dest.native() })
    }

    /// The drive that a lookup found. `ptr` is the address that the
    /// native lookup returned; zero means that it found no drive.
    pub fn located(ptr: usize) -> (r: Result<Drive, Error>)
        ensures
            ptr == 0 ==> r == Err::<Drive, Error>(Error::CantOpenDrive),
            ptr != 0 ==> r is Ok && r->Ok_0@ == (DriveView {
                handle: ptr,
                state: DriveState::Unopened,
            }),
    {
        if ptr == 0 {
            Err(Error::CantOpenDrive)
        } else {
            Ok(Drive { ptr, state: DriveState::Unopened })
        }
    }

    /// Takes in what the native open call returned for this handle. A
    /// code that is not negative opens the drive. A negative one is
    /// returned as its failure and leaves the handle unopened, so that
    /// `close` still names it for release.
    pub fn opened(&mut self, code: i32) -> (r: Result<(), Error>)
        requires
            old(self)@.state == DriveState::Unopened,
        ensures
            r == open_outcome(code),
            final(self)@ == old(self)@.opened(code),
    {
        proof {
            use_type_invariant(&*self);
        }
        match ParanoiaError::check_result(code) {
            Ok(_) => {
                self.state = DriveState::Open;
                Ok(())
            },
            Err(e) => Err(Error::from(e)),
        }
    }

    /// Ends the handle's life. Returns the native handle to release, the
    /// first time; a closed drive names nothing.
    pub fn close(&mut self) -> (r: Option<usize>)
        ensures
            r == old(self)@.to_release(),
            final(self)@ == old(self)@.closed(),
        no_unwind
    {
        proof {
            use_type_invariant(&*self);
        }
        let r = match self.state {
            DriveState::Closed => None,
            _ => Some(self.ptr),
        };
        self.state = DriveState::Closed;
        r
    }

    /// Where the handle stands in its life.
    pub fn state(&self) -> (r: DriveState)
        ensures
            r == self@.state,
    {
        self.state
    }

    /// The address of the native handle, which is never zero.
    pub fn as_ptr(&self) -> (r: usize)
        ensures
            r == self@.handle,
            r != 0,
    {
        proof {
            use_type_invariant(self);
        }
        self.ptr
    }

    /// The reader over this drive. `ptr` is the address that the native
    /// reader initialisation returned for the open drive, which the
    /// native library promises not to be zero. The reader owns the drive
    /// from here on.
    pub fn paranoia(self, ptr: usize) -> (r: Paranoia)
        requires
            self@.state == DriveState::Open,
            ptr != 0,
        ensures
            r@ == (ParanoiaView { handle: ptr, released: false, drive: self@ }),
    {
        Paranoia::new(self, ptr)
    }

    /// The first sector of a track, from what the native query returned.
    pub fn track_first_sector(&self, code: i32) -> (r: Result<u32, Error>)
        requires
            self@.state == DriveState::Open,
        ensures
            r == sector_of(code),
    {
        decode_sector(code)
    }

    /// The last sector of a track, from what the native query returned.
    pub fn track_last_sector(&self, code: i32) -> (r: Result<u32, Error>)
        requires
            self@.state == DriveState::Open,
        ensures
            r == sector_of(code),
    {
        decode_sector(code)
    }

    /// The number of tracks on the disc, which the native library
    /// reports as it is.
    pub fn tracks(&self, count: u8) -> (r: u8)
        requires
            self@.state == DriveState::Open,
        ensures
            r == count,
    {
        count
    }

    /// The sector number to hand to the native track lookup. A sector
    /// beyond what the native signed type holds is unaddressable, and no
    /// lookup is to be made for it.
    pub fn native_sector(lsn: u32) -> (r: Result<i32, Error>)
        ensures
            r == native_sector_of(lsn),
    {
        if lsn <= 0x7fff_ffff {
            Ok(lsn as i32)
        } else {
            Err(Error::from(ParanoiaError::UnaddressableSector))
        }
    }

    /// The track that holds a sector, from what the native lookup
    /// returned. A sector before the first track is in track 0. A code
    /// that is no track number is an invalid track number.
    pub fn sector_track(&self, code: i32) -> (r: Result<u8, Error>)
        requires
            self@.state == DriveState::Open,
        ensures
            r == track_of(code),
    {
        match ParanoiaError::check_result(code) {
            Ok(track) => {
                if track >= INVALID_TRACK {
                    Err(Error::from(ParanoiaError::InvalidTrackNumber))
                } else {
                    Ok(track as u8)
                }
            },
            Err(e) => Err(Error::from(e)),
        }
    }

    /// The number of channels of a track, from what the native query
    /// returned: the number itself, nothing where it does not fit in a
    /// byte, or the failure that a negative code stands for.
    pub fn track_channels(&self, code: i32) -> (r: Result<Option<u8>, Error>)
        requires
            self@.state == DriveState::Open,
        ensures
            r == channels_of(code),
    {
        match ParanoiaError::check_result(code) {
            Ok(channels) => {
                if channels <= 255 {
                    Ok(Some(channels as u8))
                } else {
                    Ok(None)
                }
            },
            Err(e) => Err(Error::from(e)),
        }
    }

    /// Whether a track holds audio, from what the native query returned:
    /// 1 says that it does, a negative code is returned as its failure.
    pub fn track_audio(&self, code: i32) -> (r: Result<bool, Error>)
        requires
            self@.state == DriveState::Open,
        ensures
            r == flag_of(code),
    {
        decode_flag(code)
    }

    /// Whether a track may be copied, from what the native query
    /// returned: 1 says that it may, a negative code is returned as its
    /// failure.
    pub fn track_copy_permitted(&self, code: i32) -> (r: Result<bool, Error>)
        requires
            self@.state == DriveState::Open,
        ensures
            r == flag_of(code),
    {
        decode_flag(code)
    }

    /// Whether a track has linear pre-emphasis, from what the native
    /// query returned: 1 says that it has, a negative code is returned
    /// as its failure.
    pub fn track_linear_preemphasis(&self, code: i32) -> (r: Result<bool, Error>)
        requires
            self@.state == DriveState::Open,
        ensures
            r == flag_of(code),
    {
        decode_flag(code)
    }

    /// The first sector of the first audio track, from what the native
    /// query returned.
    pub fn disc_first_sector(&self, code: i32) -> (r: Result<u32, Error>)
        requires
            self@.state == DriveState::Open,
        ensures
            r == sector_of(code),
    {
        decode_sector(code)
    }

    /// The last sector of the last audio track, from what the native
    /// query returned.
    pub fn disc_last_sector(&self, code: i32) -> (r: Result<u32, Error>)
        requires
            self@.state == DriveState::Open,
        ensures
            r == sector_of(code),
    {
        decode_sector(code)
    }

    /// The lines of the drive's pending messages: those of the error
    /// buffer first, then those of the message buffer. A buffer that the
    /// native library did not hand out is `None` and gives no line.
    pub fn check_messages(&self, errors: Option<&[u8]>, messages: Option<&[u8]>) -> (r: Vec<
        Diagnostic,
    >)
        ensures
            diagnostics_view(r@) == tagged(Level::Error, buffer_lines(errors)) + tagged(
                Level::Info,
                buffer_lines(messages),
            ),
    {
        let mut out: Vec<Diagnostic> = Vec::new();
        assert(diagnostics_view(out@) =~= Seq::empty());
        if let Some(text) = errors {
            append_lines(text, Level::Error, &mut out);
        }
        assert(diagnostics_view(out@) =~= tagged(Level::Error, buffer_lines(errors)));
        if let Some(text) = messages {
            append_lines(text, Level::Info, &mut out);
        }
        assert(diagnostics_view(out@) =~= tagged(Level::Error, buffer_lines(errors)) + tagged(
            Level::Info,
            buffer_lines(messages),
        ));
        out
    }

    /// A drive whose open call failed is still to be released: `close`
    /// names its handle.
    pub proof fn lemma_failed_open_is_released(drive: DriveView, code: i32)
        requires
            drive.state == DriveState::Unopened,
            code < 0,
        ensures
            open_outcome(code) is Err,
            drive.opened(code).to_release() == Some(drive.handle),
    {
    }

    /// A drive is released exactly once: whatever state it is in, a
    /// second `close` names nothing, and the first names the handle of a
    /// drive that was not closed before.
    pub proof fn lemma_close_releases_once(drive: DriveView)
        ensures
            drive.state != DriveState::Closed ==> drive.to_release() == Some(drive.handle),
            drive.closed().to_release() is None,
            drive.closed().closed() == drive.closed(),
    {
    }
}

} // verus!
