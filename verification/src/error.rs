//! Typed errors, and the decoding of native return codes.

use vstd::prelude::*;

verus! {

/// A failure that the native library reports through a negative return
/// code. Each named variant stands for one documented code; `Other`
/// carries a code that the documentation does not list.
#[derive(Debug, Clone, Copy, PartialEq, Eq, Structural)]
pub enum ParanoiaError {
    /// Unable to set CDROM to read audio mode (1).
    SetToReadAudioMode,
    /// Unable to read table of contents lead-out (2).
    ReadTocLeadOut,
    /// CDROM reporting illegal number of tracks (3).
    IllegalNumberOfTracks,
    /// Unable to read table of contents header (4).
    ReadTocHeader,
    /// Unable to read table of contents entry (5).
    ReadTocEntry,
    /// Could not read any data from drive (6).
    ReadAnyData,
    /// Unknown, unrecoverable error reading data (7).
    Unknown,
    /// Unable to identify CDROM model (8).
    IdentifyModel,
    /// CDROM reporting illegal table of contents (9).
    IllegalToc,
    /// Unaddressable sector (10).
    UnaddressableSector,
    /// Interface not supported (100).
    InterfaceNotSupported,
    /// Drive is neither a CDROM nor a WORM device (101).
    InvalidDrive,
    /// Permission denied on cdrom (ioctl) device (102).
    PermissionDeniedIoctl,
    /// Permission denied on cdrom (data) device (103).
    PermissionDeniedData,
    /// Kernel memory error (300).
    KernelMemoryError,
    /// Device not open (400).
    DeviceNotOpen,
    /// Invalid track number (401).
    InvalidTrackNumber,
    /// Track not audio data (402).
    TrackNotAudioData,
    /// No audio tracks on disc (403).
    NoAudioTracks,
    /// No medium present (404).
    NoMedium,
    /// Option not supported by drive (405).
    NotSupported,
    /// A code that the documentation does not list.
    Other(u16),
}

/// The error type of every fallible operation of the library.
#[derive(Debug, Clone, Copy, PartialEq, Eq, Structural)]
pub enum Error {
    /// The native library found no drive, or could not identify it.
    CantOpenDrive,
    /// The native library returned no buffer for a sector.
    Read,
    /// A device path holds a zero byte; the field is the index of the
    /// first one.
    InvalidString(usize),
    /// The native library returned a failure code.
    Paranoia(ParanoiaError),
}

impl From<ParanoiaError> for Error {
    /// A failure code of the native library as an error of the library.
    fn from(e: ParanoiaError) -> (r: Error) {
        Error::Paranoia(e)
    }
}

impl vstd::std_specs::convert::FromSpecImpl<ParanoiaError> for Error {
    open spec fn obeys_from_spec() -> bool {
        true
    }

    open spec fn from_spec(e: ParanoiaError) -> Error {
        Error::Paranoia(e)
    }
}

/// Whether the native library documents `code` as a failure code.
pub open spec fn is_documented(code: int) -> bool {
    ||| 1 <= code <= 10
    ||| 100 <= code <= 103
    ||| code == 300
    ||| 400 <= code <= 405
}

/// The number that stands for the magnitude of a negative return code:
/// the magnitude itself where sixteen bits hold it, else the greatest
/// number that they hold, which is no documented code.
pub open spec fn carried_magnitude(code: i32) -> u16 {
    if -(code as int) > u16::MAX {
        u16::MAX
    } else {
        (-(code as int)) as u16
    }
}

/// `Signed::is_negative` of num-traits on an `i32`: whether the value is
/// below zero.
#[verifier::external_body]
fn is_negative(value: i32) -> (r: bool)
    ensures
        r == (value < 0),
{
    num_traits::Signed::is_negative(&value)
}

/// `AsPrimitive::<u16>::as_` of num-traits on an `i32`: the value's low
/// sixteen bits, which is what the `as` operator keeps.
#[verifier::external_body]
fn low_word(value: i32) -> (r: u16)
    ensures
        r as int == (value as int) % 0x1_0000,
{
    num_traits::AsPrimitive::<u16>::as_(value)
}

impl ParanoiaError {
    /// The number that stands for this failure: the documented code of a
    /// named variant, the carried code of `Other`.
    pub open spec fn spec_code(self) -> u16 {
        match self {
            ParanoiaError::SetToReadAudioMode => 1,
            ParanoiaError::ReadTocLeadOut => 2,
            ParanoiaError::IllegalNumberOfTracks => 3,
            ParanoiaError::ReadTocHeader => 4,
            ParanoiaError::ReadTocEntry => 5,
            ParanoiaError::ReadAnyData => 6,
            ParanoiaError::Unknown => 7,
            ParanoiaError::IdentifyModel => 8,
            ParanoiaError::IllegalToc => 9,
            ParanoiaError::UnaddressableSector => 10,
            ParanoiaError::InterfaceNotSupported => 100,
            ParanoiaError::InvalidDrive => 101,
            ParanoiaError::PermissionDeniedIoctl => 102,
            ParanoiaError::PermissionDeniedData => 103,
            ParanoiaError::KernelMemoryError => 300,
            ParanoiaError::DeviceNotOpen => 400,
            ParanoiaError::InvalidTrackNumber => 401,
            ParanoiaError::TrackNotAudioData => 402,
            ParanoiaError::NoAudioTracks => 403,
            ParanoiaError::NoMedium => 404,
            ParanoiaError::NotSupported => 405,
            ParanoiaError::Other(code) => code,
        }
    }

    /// Whether this is a value that decoding can produce: `Other` never
    /// carries a documented code.
    pub open spec fn is_canonical(self) -> bool {
        self matches ParanoiaError::Other(code) ==> !is_documented(code as int)
    }

    /// The failure that a code stands for: the variant documented under
    /// that number, or `Other` with the number.
    pub open spec fn spec_from_primitive(code: u16) -> ParanoiaError {
        if code == 1 {
            ParanoiaError::SetToReadAudioMode
        } else if code == 2 {
            ParanoiaError::ReadTocLeadOut
        } else if code == 3 {
            ParanoiaError::IllegalNumberOfTracks
        } else if code == 4 {
            ParanoiaError::ReadTocHeader
        } else if code == 5 {
            ParanoiaError::ReadTocEntry
        } else if code == 6 {
            ParanoiaError::ReadAnyData
        } else if code == 7 {
            ParanoiaError::Unknown
        } else if code == 8 {
            ParanoiaError::IdentifyModel
        } else if code == 9 {
            ParanoiaError::IllegalToc
        } else if code == 10 {
            ParanoiaError::UnaddressableSector
        } else if code == 100 {
            ParanoiaError::InterfaceNotSupported
        } else if code == 101 {
            ParanoiaError::InvalidDrive
        } else if code == 102 {
            ParanoiaError::PermissionDeniedIoctl
        } else if code == 103 {
            ParanoiaError::PermissionDeniedData
        } else if code == 300 {
            ParanoiaError::KernelMemoryError
        } else if code == 400 {
            ParanoiaError::DeviceNotOpen
        } else if code == 401 {
            ParanoiaError::InvalidTrackNumber
        } else if code == 402 {
            ParanoiaError::TrackNotAudioData
        } else if code == 403 {
            ParanoiaError::NoAudioTracks
        } else if code == 404 {
            ParanoiaError::NoMedium
        } else if code == 405 {
            ParanoiaError::NotSupported
        } else {
            ParanoiaError::Other(code)
        }
    }

    /// What a native return code means: itself where it is not negative,
    /// else the failure that its magnitude stands for. A magnitude that
    /// is no documented code gives `Other`, which carries the magnitude
    /// up to the greatest number it can hold.
    pub open spec fn spec_check_result(code: i32) -> Result<i32, ParanoiaError> {
        if code >= 0 {
            Ok(code)
        } else {
            Err(Self::spec_from_primitive(carried_magnitude(code)))
        }
    }

    /// The number that stands for this failure.
    pub fn code(&self) -> (r: u16)
        ensures
            r == self.spec_code(),
    {
        match self {
            ParanoiaError::SetToReadAudioMode => 1,
            ParanoiaError::ReadTocLeadOut => 2,
            ParanoiaError::IllegalNumberOfTracks => 3,
            ParanoiaError::ReadTocHeader => 4,
            ParanoiaError::ReadTocEntry => 5,
            ParanoiaError::ReadAnyData => 6,
            ParanoiaError::Unknown => 7,
            ParanoiaError::IdentifyModel => 8,
            ParanoiaError::IllegalToc => 9,
            ParanoiaError::UnaddressableSector => 10,
            ParanoiaError::InterfaceNotSupported => 100,
            ParanoiaError::InvalidDrive => 101,
            ParanoiaError::PermissionDeniedIoctl => 102,
            ParanoiaError::PermissionDeniedData => 103,
            ParanoiaError::KernelMemoryError => 300,
            ParanoiaError::DeviceNotOpen => 400,
            ParanoiaError::InvalidTrackNumber => 401,
            ParanoiaError::TrackNotAudioData => 402,
            ParanoiaError::NoAudioTracks => 403,
            ParanoiaError::NoMedium => 404,
            ParanoiaError::NotSupported => 405,
            ParanoiaError::Other(code) => *code,
        }
    }

    /// Decodes the magnitude of a failure code. Never fails: a number
    /// that the documentation does not list comes back inside `Other`.
    pub fn from_primitive(code: u16) -> (r: ParanoiaError)
        ensures
            r == Self::spec_from_primitive(code),
            r.spec_code() == code,
            r.is_canonical(),
            (r is Other) <==> !is_documented(code as int),
    {
        match code {
            1 => ParanoiaError::SetToReadAudioMode,
            2 => ParanoiaError::ReadTocLeadOut,
            3 => ParanoiaError::IllegalNumberOfTracks,
            4 => ParanoiaError::ReadTocHeader,
            5 => ParanoiaError::ReadTocEntry,
            6 => ParanoiaError::ReadAnyData,
            7 => ParanoiaError::Unknown,
            8 => ParanoiaError::IdentifyModel,
            9 => ParanoiaError::IllegalToc,
            10 => ParanoiaError::UnaddressableSector,
            100 => ParanoiaError::InterfaceNotSupported,
            101 => ParanoiaError::InvalidDrive,
            102 => ParanoiaError::PermissionDeniedIoctl,
            103 => ParanoiaError::PermissionDeniedData,
            300 => ParanoiaError::KernelMemoryError,
            400 => ParanoiaError::DeviceNotOpen,
            401 => ParanoiaError::InvalidTrackNumber,
            402 => ParanoiaError::TrackNotAudioData,
            403 => ParanoiaError::NoAudioTracks,
            404 => ParanoiaError::NoMedium,
            405 => ParanoiaError::NotSupported,
            _ => ParanoiaError::Other(code),
        }
    }

    /// Decodes a native return code. A code that is not negative is a
    /// success and comes back unchanged. A negative one is a failure: the
    /// named variant where its magnitude is a documented code, and
    /// `Other` for every other magnitude. `Other` carries the magnitude,
    /// or 65535 where the magnitude is greater than that.
    pub fn check_result(code: i32) -> (r: Result<i32, ParanoiaError>)
        ensures
            r == Self::spec_check_result(code),
            code >= 0 ==> r == Ok::<i32, ParanoiaError>(code),
            code < 0 ==> r is Err,
            code < 0 ==> ((r->Err_0 is Other) <==> !is_documented(-code)),
    {
        if is_negative(code) {
            let word: u16 = if code < -65535 {
                u16::MAX
            } else {
                low_word(-code)
            };
            Err(Self::from_primitive(word))
        } else {
            Ok(code)
        }
    }

    /// Each named variant is what its own documented code decodes to,
    /// and its code is a documented one.
    pub proof fn lemma_named_variant_is_decoded(e: ParanoiaError)
        requires
            !(e is Other),
        ensures
            is_documented(e.spec_code() as int),
            Self::spec_from_primitive(e.spec_code()) == e,
    {
    }

    /// Decoding and then taking the code gives the number back, and
    /// decoding gives a named variant exactly for the documented codes.
    pub proof fn lemma_code_round_trip(code: u16)
        ensures
            Self::spec_from_primitive(code).spec_code() == code,
            Self::spec_from_primitive(code).is_canonical(),
            (Self::spec_from_primitive(code) is Other) <==> !is_documented(code as int),
    {
    }

    /// Taking the code of a value that decoding can produce and decoding
    /// it gives the value back.
    pub proof fn lemma_variant_round_trip(e: ParanoiaError)
        requires
            e.is_canonical(),
        ensures
            Self::spec_from_primitive(e.spec_code()) == e,
    {
        if !(e is Other) {
            Self::lemma_named_variant_is_decoded(e);
        }
    }

    /// A return code that is not negative decodes to success with the
    /// value unchanged.
    pub proof fn lemma_success_keeps_value(code: i32)
        requires
            code >= 0,
        ensures
            Self::spec_check_result(code) == Ok::<i32, ParanoiaError>(code),
    {
    }

    /// A negative return code whose magnitude is the documented code of
    /// a named variant decodes to that variant.
    pub proof fn lemma_documented_code_is_named(code: i32, e: ParanoiaError)
        requires
            code < 0,
            !(e is Other),
            -code == e.spec_code(),
        ensures
            Self::spec_check_result(code) == Err::<i32, ParanoiaError>(e),
    {
        Self::lemma_named_variant_is_decoded(e);
    }

    /// A negative return code whose magnitude is no documented code
    /// decodes to `Other`, whatever the magnitude. `Other` carries the
    /// magnitude where sixteen bits hold it, and 65535 where they do
    /// not.
    pub proof fn lemma_undocumented_code_is_carried(code: i32)
        requires
            code < 0,
            !is_documented(-code),
        ensures
            -code <= u16::MAX ==> Self::spec_check_result(code) == Err::<i32, ParanoiaError>(
                ParanoiaError::Other((-code) as u16),
            ),
            -code > u16::MAX ==> Self::spec_check_result(code) == Err::<i32, ParanoiaError>(
                ParanoiaError::Other(u16::MAX),
            ),
    {
    }

    /// A negative return code decodes to a named variant exactly when
    /// its magnitude is a documented code, and what it decodes to is a
    /// value that carries no documented code inside `Other`.
    pub proof fn lemma_failure_is_named_iff_documented(code: i32)
        requires
            code < 0,
        ensures
            Self::spec_check_result(code) is Err,
            (Self::spec_check_result(code)->Err_0 is Other) <==> !is_documented(-code),
            Self::spec_check_result(code)->Err_0.is_canonical(),
            -code <= u16::MAX ==> Self::spec_check_result(code)->Err_0.spec_code() == -code,
    {
    }
}

} // verus!
