use cdparanoia::{Drive, DriveState, Error, MessageDest, ParanoiaError};

fn open_drive(ptr: usize) -> Drive {
    let mut drive = Drive::located(ptr).unwrap();
    assert_eq!(drive.opened(0), Ok(()));
    drive
}

#[test]
fn message_destinations_have_their_native_numbers() {
    assert_eq!(MessageDest::Forget.native(), 0);
    assert_eq!(MessageDest::Print.native(), 1);
    assert_eq!(MessageDest::Log.native(), 2);
}

#[test]
fn find_asks_for_any_drive() {
    let lookup = Drive::find(MessageDest::Print);
    assert_eq!(lookup.path, None);
    assert_eq!(lookup.message_dest, 1);
}

#[test]
fn open_ends_the_path_with_a_zero_byte() {
    let lookup = Drive::open(b"/dev/sr0", MessageDest::Log).unwrap();
    assert_eq!(lookup.path, Some(b"/dev/sr0\0".to_vec()));
    assert_eq!(lookup.message_dest, 2);
    let empty = Drive::open(b"", MessageDest::Forget).unwrap();
    assert_eq!(empty.path, Some(vec![0u8]));
    assert_eq!(empty.message_dest, 0);
}

#[test]
fn open_refuses_a_path_with_a_zero_byte() {
    assert_eq!(
        Drive::open(b"/dev/\0sr0", MessageDest::Print).unwrap_err(),
        Error::InvalidString(5)
    );
    assert_eq!(
        Drive::open(b"\0", MessageDest::Print).unwrap_err(),
        Error::InvalidString(0)
    );
    assert_eq!(
        Drive::open(b"a\0b\0", MessageDest::Print).unwrap_err(),
        Error::InvalidString(1)
    );
    assert_eq!(
        Drive::open(b"/dev/sr0\0", MessageDest::Print).unwrap_err(),
        Error::InvalidString(8)
    );
}

#[test]
fn a_null_handle_is_no_drive() {
    assert_eq!(Drive::located(0).unwrap_err(), Error::CantOpenDrive);
}

#[test]
fn a_located_drive_is_unopened() {
    let drive = Drive::located(0xdead0).unwrap();
    assert_eq!(drive.as_ptr(), 0xdead0);
    assert_eq!(drive.state(), DriveState::Unopened);
}

#[test]
fn a_successful_open_call_opens_the_drive() {
    let mut drive = Drive::located(8).unwrap();
    assert_eq!(drive.opened(0), Ok(()));
    assert_eq!(drive.state(), DriveState::Open);
    assert_eq!(drive.as_ptr(), 8);
    let mut other = Drive::located(16).unwrap();
    assert_eq!(other.opened(3), Ok(()));
    assert_eq!(other.state(), DriveState::Open);
}

#[test]
fn a_failed_open_call_leaves_the_handle_to_release() {
    let mut drive = Drive::located(0x40).unwrap();
    assert_eq!(
        drive.opened(-404),
        Err(Error::Paranoia(ParanoiaError::NoMedium))
    );
    assert_eq!(drive.state(), DriveState::Unopened);
    assert_eq!(drive.close(), Some(0x40));
    assert_eq!(drive.state(), DriveState::Closed);
    assert_eq!(drive.close(), None);
}

#[test]
fn an_undocumented_open_failure_is_carried() {
    let mut drive = Drive::located(0x40).unwrap();
    assert_eq!(
        drive.opened(-77),
        Err(Error::Paranoia(ParanoiaError::Other(77)))
    );
}

#[test]
fn close_names_the_handle_once() {
    let mut drive = open_drive(0x1234);
    let mut released = 0;
    for _ in 0..5 {
        if let Some(ptr) = drive.close() {
            assert_eq!(ptr, 0x1234);
            released += 1;
        }
        assert_eq!(drive.state(), DriveState::Closed);
    }
    assert_eq!(released, 1);
    assert_eq!(drive.as_ptr(), 0x1234);
}

#[test]
fn sector_queries_decode_their_codes() {
    let drive = open_drive(1);
    assert_eq!(drive.track_first_sector(0), Ok(0));
    assert_eq!(drive.track_first_sector(16_340), Ok(16_340));
    assert_eq!(drive.track_last_sector(i32::MAX), Ok(2_147_483_647));
    assert_eq!(drive.disc_first_sector(150), Ok(150));
    assert_eq!(drive.disc_last_sector(333_000), Ok(333_000));
    assert_eq!(
        drive.track_first_sector(-401),
        Err(Error::Paranoia(ParanoiaError::InvalidTrackNumber))
    );
    assert_eq!(
        drive.track_last_sector(-400),
        Err(Error::Paranoia(ParanoiaError::DeviceNotOpen))
    );
    assert_eq!(
        drive.disc_first_sector(-403),
        Err(Error::Paranoia(ParanoiaError::NoAudioTracks))
    );
    assert_eq!(
        drive.disc_last_sector(-12),
        Err(Error::Paranoia(ParanoiaError::Other(12)))
    );
}

#[test]
fn track_count_is_reported_as_it_is() {
    let drive = open_drive(1);
    assert_eq!(drive.tracks(0), 0);
    assert_eq!(drive.tracks(13), 13);
    assert_eq!(drive.tracks(255), 255);
}

#[test]
fn sector_track_decodes_its_code() {
    let drive = open_drive(1);
    assert_eq!(drive.sector_track(0), Ok(0));
    assert_eq!(drive.sector_track(7), Ok(7));
    assert_eq!(drive.sector_track(254), Ok(254));
    assert_eq!(
        drive.sector_track(255),
        Err(Error::Paranoia(ParanoiaError::InvalidTrackNumber))
    );
    assert_eq!(
        drive.sector_track(-400),
        Err(Error::Paranoia(ParanoiaError::DeviceNotOpen))
    );
    assert_eq!(
        drive.sector_track(-255),
        Err(Error::Paranoia(ParanoiaError::Other(255)))
    );
}

#[test]
fn sector_track_takes_every_code() {
    let drive = open_drive(1);
    for code in [256, 257, 1000, 65_536, i32::MAX] {
        assert_eq!(
            drive.sector_track(code),
            Err(Error::Paranoia(ParanoiaError::InvalidTrackNumber))
        );
    }
    assert_eq!(
        drive.sector_track(i32::MIN),
        Err(Error::Paranoia(ParanoiaError::Other(65_535)))
    );
}

#[test]
fn native_sector_numbers_are_signed() {
    assert_eq!(Drive::native_sector(0), Ok(0));
    assert_eq!(Drive::native_sector(333_000), Ok(333_000));
    assert_eq!(Drive::native_sector(2_147_483_647), Ok(i32::MAX));
    assert_eq!(
        Drive::native_sector(2_147_483_648),
        Err(Error::Paranoia(ParanoiaError::UnaddressableSector))
    );
    assert_eq!(
        Drive::native_sector(u32::MAX),
        Err(Error::Paranoia(ParanoiaError::UnaddressableSector))
    );
}

#[test]
fn track_channels_fit_in_a_byte_or_are_absent() {
    let drive = open_drive(1);
    assert_eq!(drive.track_channels(2), Ok(Some(2)));
    assert_eq!(drive.track_channels(4), Ok(Some(4)));
    assert_eq!(drive.track_channels(0), Ok(Some(0)));
    assert_eq!(drive.track_channels(255), Ok(Some(255)));
    assert_eq!(drive.track_channels(256), Ok(None));
    assert_eq!(drive.track_channels(i32::MAX), Ok(None));
}

#[test]
fn a_failed_channel_query_is_an_error() {
    let drive = open_drive(1);
    assert_eq!(
        drive.track_channels(-1),
        Err(Error::Paranoia(ParanoiaError::SetToReadAudioMode))
    );
    assert_eq!(
        drive.track_channels(-401),
        Err(Error::Paranoia(ParanoiaError::InvalidTrackNumber))
    );
}

#[test]
fn track_flags_are_set_by_one() {
    let drive = open_drive(1);
    assert_eq!(drive.track_audio(1), Ok(true));
    assert_eq!(drive.track_audio(0), Ok(false));
    assert_eq!(drive.track_audio(2), Ok(false));
    assert_eq!(drive.track_copy_permitted(1), Ok(true));
    assert_eq!(drive.track_copy_permitted(0), Ok(false));
    assert_eq!(drive.track_copy_permitted(i32::MAX), Ok(false));
    assert_eq!(drive.track_linear_preemphasis(1), Ok(true));
    assert_eq!(drive.track_linear_preemphasis(0), Ok(false));
}

#[test]
fn a_failed_flag_query_is_an_error() {
    let drive = open_drive(1);
    assert_eq!(
        drive.track_audio(-401),
        Err(Error::Paranoia(ParanoiaError::InvalidTrackNumber))
    );
    assert_eq!(
        drive.track_audio(-400),
        Err(Error::Paranoia(ParanoiaError::DeviceNotOpen))
    );
    assert_eq!(
        drive.track_copy_permitted(-1),
        Err(Error::Paranoia(ParanoiaError::SetToReadAudioMode))
    );
    assert_eq!(
        drive.track_copy_permitted(-77),
        Err(Error::Paranoia(ParanoiaError::Other(77)))
    );
    assert_eq!(
        drive.track_linear_preemphasis(-402),
        Err(Error::Paranoia(ParanoiaError::TrackNotAudioData))
    );
    assert_eq!(
        drive.track_linear_preemphasis(-100_000),
        Err(Error::Paranoia(ParanoiaError::Other(65_535)))
    );
}
