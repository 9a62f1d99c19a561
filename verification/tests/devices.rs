use nri::bluefox::{dmr_status, MVError, PixelFormat, TDMR_ERROR, HOBJ, HLIST};
use nri::optoforce::{ConnectOptions, Filter, Mode, Settings, Speed, State, Version};
use nri::park::ParkState;
use nri::structure::{check_status, OniErrorCode, OniPixelFormat, OniStatus};

#[test]
fn default_settings_byte() {
    let s = Settings::new();
    assert_eq!(s.encode(), 183);
    assert_eq!(Settings::decode(183), Some(s));
}

#[test]
fn settings_round_trip() {
    let s = Settings::new()
        .set_speed(Speed::Hz1000)
        .set_filter(Filter::Off)
        .set_mode(Mode::Raw)
        .set_state(State::ConnectionFailure);
    assert_eq!(s.encode(), 6 << 5);
    assert_eq!(Settings::decode(s.encode()), Some(s));
    assert_eq!(Settings::decode(0b1110_0000), None);
}

#[test]
fn settings_fields() {
    assert_eq!(Speed::from_hz(333), Some(Speed::Hz333));
    assert_eq!(Speed::Hz30.to_hz(), Some(30));
    assert_eq!(Filter::from_hz(50), Some(Filter::Hz50));
    assert_eq!(Filter::Off.to_hz(), None);
    assert_eq!(Mode::from_hz("force"), Some(Mode::Force));
    assert_eq!(Mode::from_device(2), None);
}

#[test]
fn connect_defaults() {
    let o = ConnectOptions::default();
    assert_eq!(o.path, "/dev/ttyACM0");
    assert_eq!(o.baud, -1);
    let v = Version { major: 1, minor: 2, revision: 3 };
    assert_eq!(v.minor, 2);
}

#[test]
fn parking_states() {
    assert_eq!(ParkState::AllParked.short(), "center");
    assert_eq!(ParkState::BioTac.short(), "bio");
    assert_eq!(ParkState::metermaid(), Some(ParkState::Stick));
    assert_eq!(ParkState::try_from_u8(16), Some(ParkState::BioTac));
    assert_eq!(ParkState::try_from_u8(255), Some(ParkState::Multiple));
    assert_eq!(ParkState::try_from_u8(3), None);
    let name: Vec<char> = "OptoForce".chars().collect();
    assert_eq!(ParkState::from_name(&name), Some(ParkState::OptoForce));
    let bad: Vec<char> = "optoforce".chars().collect();
    assert_eq!(ParkState::from_name(&bad), None);
}

#[test]
fn parking_status_bytes() {
    // active-low switches: all released means all parked
    assert_eq!(ParkState::from_status(0xFF), ParkState::AllParked);
    assert_eq!(ParkState::from_status(!0x01), ParkState::OptoForce);
    assert_eq!(ParkState::from_status(!0x02), ParkState::Stick);
    assert_eq!(ParkState::from_status(!0x10), ParkState::BioTac);
    assert_eq!(ParkState::from_status(!0x03), ParkState::Multiple);
}

#[test]
fn openni_statuses() {
    assert_eq!(OniStatus::from_code(102), Some(OniStatus::TimeOut));
    assert_eq!(OniStatus::TimeOut.code(), 102);
    assert!(check_status(0, String::new()).is_ok());
    let e = check_status(6, "no device".to_string()).unwrap_err();
    assert_eq!(e.code(), OniErrorCode::NoDevice);
    assert_eq!(e.extended(), "no device");
    assert_eq!(check_status(77, String::new()).unwrap_err().code(), OniErrorCode::Error);
    assert_eq!(OniPixelFormat::from_code(100), Some(OniPixelFormat::Depth1mm));
}

#[test]
fn bluefox_codes() {
    assert_eq!(dmr_status(0), Ok(()));
    assert!(dmr_status(-2100).is_err());
    assert_eq!(PixelFormat::to_prop(PixelFormat::Mono8), Ok(2));
    assert_eq!(PixelFormat::to_prop(PixelFormat::Unknown), Err(PixelFormat::Unknown));
    assert_eq!(PixelFormat::from_prop(22), Ok(PixelFormat::BGR888Packed));
    assert_eq!(PixelFormat::from_prop(99), Err(99));
    assert_eq!(PixelFormat::from_code(-1), Some(PixelFormat::Auto));
    assert_eq!(HOBJ(5).into_hlist(), HLIST(5));
    let e = TDMR_ERROR::from_code(-2100).unwrap();
    assert_eq!(MVError::from_dmr(e), MVError::Dmr(e));
}

#[test]
fn frame_numbers_from_file_stems() {
    assert_eq!(nri::bluefox::frame_number("bluefox42"), 42);
    assert_eq!(nri::bluefox::frame_number("bluefox0"), 0);
    assert_eq!(nri::bluefox::frame_number("bluefox+7"), 7);
}
