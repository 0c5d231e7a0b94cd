use flipperzero::storage::{Error, OpenOptions, SeekFrom};
use flipperzero::storage::{
    ACCESS_READ, ACCESS_WRITE, CREATE_ALWAYS, CREATE_NEW, OPEN_ALWAYS, OPEN_APPEND, OPEN_EXISTING,
};

fn all_errors() -> Vec<Error> {
    vec![
        Error::Okay,
        Error::NotReady,
        Error::Exists,
        Error::NotExists,
        Error::InvalidParameter,
        Error::Denied,
        Error::InvalidName,
        Error::Internal,
        Error::NotImplemented,
        Error::AlreadyOpen,
    ]
}

#[test]
fn error_codes_are_the_native_ones() {
    assert_eq!(Error::Okay.to_sys(), 0);
    assert_eq!(Error::NotReady.to_sys(), 1);
    assert_eq!(Error::Exists.to_sys(), 2);
    assert_eq!(Error::NotExists.to_sys(), 3);
    assert_eq!(Error::InvalidParameter.to_sys(), 4);
    assert_eq!(Error::Denied.to_sys(), 5);
    assert_eq!(Error::InvalidName.to_sys(), 6);
    assert_eq!(Error::Internal.to_sys(), 7);
    assert_eq!(Error::NotImplemented.to_sys(), 8);
    assert_eq!(Error::AlreadyOpen.to_sys(), 9);
}

#[test]
fn error_from_each_known_code() {
    assert_eq!(Error::from_sys(0), Error::Okay);
    assert_eq!(Error::from_sys(1), Error::NotReady);
    assert_eq!(Error::from_sys(2), Error::Exists);
    assert_eq!(Error::from_sys(3), Error::NotExists);
    assert_eq!(Error::from_sys(4), Error::InvalidParameter);
    assert_eq!(Error::from_sys(5), Error::Denied);
    assert_eq!(Error::from_sys(6), Error::InvalidName);
    assert_eq!(Error::from_sys(7), Error::Internal);
    assert_eq!(Error::from_sys(8), Error::NotImplemented);
    assert_eq!(Error::from_sys(9), Error::AlreadyOpen);
}

#[test]
fn error_round_trip_every_variant() {
    for e in all_errors() {
        assert_eq!(Error::from_sys(e.to_sys()), e);
    }
}

#[test]
fn code_round_trip_every_known_code() {
    for code in 0u8..=9 {
        assert_eq!(Error::from_sys(code).to_sys(), code);
    }
}

#[test]
fn open_options_new_is_empty() {
    assert_eq!(OpenOptions::new(), OpenOptions::from_parts(0, 0));
    assert_eq!(OpenOptions::new().access_mode(), 0);
    assert_eq!(OpenOptions::new().open_mode(), 0);
}

#[test]
fn open_options_setters_set_their_bit() {
    assert_eq!(
        OpenOptions::new().read(true),
        OpenOptions::from_parts(ACCESS_READ, 0)
    );
    assert_eq!(
        OpenOptions::new().write(true),
        OpenOptions::from_parts(ACCESS_WRITE, 0)
    );
    assert_eq!(
        OpenOptions::new().open_existing(true),
        OpenOptions::from_parts(0, OPEN_EXISTING)
    );
    assert_eq!(
        OpenOptions::new().open_always(true),
        OpenOptions::from_parts(0, OPEN_ALWAYS)
    );
    assert_eq!(
        OpenOptions::new().open_append(true),
        OpenOptions::from_parts(0, OPEN_APPEND)
    );
    assert_eq!(
        OpenOptions::new().create_new(true),
        OpenOptions::from_parts(0, CREATE_NEW)
    );
    assert_eq!(
        OpenOptions::new().create_always(true),
        OpenOptions::from_parts(0, CREATE_ALWAYS)
    );
}

#[test]
fn open_options_setters_clear_their_bit_only() {
    let full = OpenOptions::from_parts(
        ACCESS_READ | ACCESS_WRITE,
        OPEN_EXISTING | OPEN_ALWAYS | OPEN_APPEND | CREATE_NEW | CREATE_ALWAYS,
    );
    assert_eq!(
        full.read(false),
        OpenOptions::from_parts(ACCESS_WRITE, 31)
    );
    assert_eq!(
        full.write(false),
        OpenOptions::from_parts(ACCESS_READ, 31)
    );
    assert_eq!(
        full.open_existing(false),
        OpenOptions::from_parts(3, 31 & !OPEN_EXISTING)
    );
    assert_eq!(
        full.open_always(false),
        OpenOptions::from_parts(3, 31 & !OPEN_ALWAYS)
    );
    assert_eq!(
        full.open_append(false),
        OpenOptions::from_parts(3, 31 & !OPEN_APPEND)
    );
    assert_eq!(
        full.create_new(false),
        OpenOptions::from_parts(3, 31 & !CREATE_NEW)
    );
    assert_eq!(
        full.create_always(false),
        OpenOptions::from_parts(3, 31 & !CREATE_ALWAYS)
    );
}

#[test]
fn open_options_chain_accumulates() {
    let o = OpenOptions::new().read(true).write(true).create_always(true);
    assert_eq!(o.access_mode(), ACCESS_READ | ACCESS_WRITE);
    assert_eq!(o.open_mode(), CREATE_ALWAYS);
    let o = o.write(false);
    assert_eq!(o.access_mode(), ACCESS_READ);
    assert_eq!(o.open_mode(), CREATE_ALWAYS);
}

#[test]
fn open_options_setting_twice_is_idempotent() {
    let once = OpenOptions::new().open_append(true);
    let twice = once.open_append(true);
    assert_eq!(once, twice);
}

#[test]
fn seek_from_start_is_absolute() {
    assert_eq!(SeekFrom::Start(0).to_native_args(), Ok((0, true)));
    assert_eq!(SeekFrom::Start(7).to_native_args(), Ok((7, true)));
    assert_eq!(
        SeekFrom::Start(u32::MAX as u64).to_native_args(),
        Ok((u32::MAX, true))
    );
}

#[test]
fn seek_from_start_too_wide_is_invalid_parameter() {
    assert_eq!(
        SeekFrom::Start(u32::MAX as u64 + 1).to_native_args(),
        Err(Error::InvalidParameter)
    );
    assert_eq!(
        SeekFrom::Start(u64::MAX).to_native_args(),
        Err(Error::InvalidParameter)
    );
}

#[test]
fn seek_from_end_and_current_are_relative() {
    assert_eq!(SeekFrom::End(0).to_native_args(), Ok((0, false)));
    assert_eq!(SeekFrom::End(12).to_native_args(), Ok((12, false)));
    assert_eq!(SeekFrom::Current(0).to_native_args(), Ok((0, false)));
    assert_eq!(SeekFrom::Current(5).to_native_args(), Ok((5, false)));
}

#[test]
fn resolve_end_makes_end_absolute() {
    assert_eq!(SeekFrom::End(0).resolve_end(10), Ok(SeekFrom::Start(10)));
    assert_eq!(SeekFrom::End(5).resolve_end(10), Ok(SeekFrom::Start(15)));
    assert_eq!(SeekFrom::End(-3).resolve_end(10), Ok(SeekFrom::Start(7)));
    assert_eq!(SeekFrom::End(-10).resolve_end(10), Ok(SeekFrom::Start(0)));
    assert_eq!(SeekFrom::End(0).resolve_end(0), Ok(SeekFrom::Start(0)));
}

#[test]
fn resolve_end_rejects_targets_outside_the_stream() {
    assert_eq!(
        SeekFrom::End(-11).resolve_end(10),
        Err(Error::InvalidParameter)
    );
    assert_eq!(
        SeekFrom::End(-1).resolve_end(0),
        Err(Error::InvalidParameter)
    );
    assert_eq!(
        SeekFrom::End(i64::MIN).resolve_end(10),
        Err(Error::InvalidParameter)
    );
    assert_eq!(
        SeekFrom::End(1).resolve_end(u64::MAX),
        Err(Error::InvalidParameter)
    );
}

#[test]
fn resolve_end_passes_other_positions_through() {
    assert_eq!(SeekFrom::Start(4).resolve_end(10), Ok(SeekFrom::Start(4)));
    assert_eq!(
        SeekFrom::Current(-2).resolve_end(10),
        Ok(SeekFrom::Current(-2))
    );
    assert_eq!(SeekFrom::Current(0).resolve_end(0), Ok(SeekFrom::Current(0)));
}

#[test]
fn seek_relative_out_of_native_range_is_invalid_parameter() {
    assert_eq!(
        SeekFrom::End(-1).to_native_args(),
        Err(Error::InvalidParameter)
    );
    assert_eq!(
        SeekFrom::Current(-3).to_native_args(),
        Err(Error::InvalidParameter)
    );
    assert_eq!(
        SeekFrom::Current(u32::MAX as i64 + 1).to_native_args(),
        Err(Error::InvalidParameter)
    );
    assert_eq!(
        SeekFrom::End(i64::MIN).to_native_args(),
        Err(Error::InvalidParameter)
    );
}
