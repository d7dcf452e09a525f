use wemo::error::WemoError;
use wemo::state::WemoState;

#[test]
fn known_codes_map_to_known_states() {
    assert_eq!(WemoState::from_u64(0), Some(WemoState::Off));
    assert_eq!(WemoState::from_u64(1), Some(WemoState::On));
    assert_eq!(WemoState::from_u64(8), Some(WemoState::OnWithoutLoad));
    assert_eq!(WemoState::from_i64(0), Some(WemoState::Off));
    assert_eq!(WemoState::from_i64(1), Some(WemoState::On));
    assert_eq!(WemoState::from_i64(8), Some(WemoState::OnWithoutLoad));
}

#[test]
fn other_codes_in_range_are_unknown() {
    assert_eq!(WemoState::from_u64(2), Some(WemoState::Unknown(2)));
    assert_eq!(WemoState::from_u64(7), Some(WemoState::Unknown(7)));
    assert_eq!(WemoState::from_u64(9), Some(WemoState::Unknown(9)));
    assert_eq!(WemoState::from_u64(65535), Some(WemoState::Unknown(65535)));
    assert_eq!(WemoState::from_i64(65535), Some(WemoState::Unknown(65535)));
}

#[test]
fn codes_out_of_range_are_rejected() {
    assert_eq!(WemoState::from_u64(65536), None);
    assert_eq!(WemoState::from_u64(u64::MAX), None);
    assert_eq!(WemoState::from_i64(-1), None);
    assert_eq!(WemoState::from_i64(i64::MIN), None);
    assert_eq!(WemoState::from_i64(65536), None);
    assert_eq!(WemoState::from_i64(i64::MAX), None);
}

#[test]
fn every_code_in_range_maps_to_one_state() {
    for n in 0u64..=65535 {
        let expected = match n {
            0 => WemoState::Off,
            1 => WemoState::On,
            8 => WemoState::OnWithoutLoad,
            _ => WemoState::Unknown(n as u16),
        };
        assert_eq!(WemoState::from_u64(n), Some(expected));
        assert_eq!(WemoState::from_i64(n as i64), Some(expected));
        assert_eq!(expected.is_on(), n == 1 || n == 8);
    }
}

#[test]
fn is_on_only_for_on_states() {
    assert!(WemoState::On.is_on());
    assert!(WemoState::OnWithoutLoad.is_on());
    assert!(!WemoState::Off.is_on());
    assert!(!WemoState::Unknown(1).is_on());
    assert!(!WemoState::Unknown(0).is_on());
}

#[test]
fn descriptions() {
    assert_eq!(WemoState::Off.description(), "off");
    assert_eq!(WemoState::On.description(), "on");
    assert_eq!(WemoState::OnWithoutLoad.description(), "on without load");
    assert_eq!(WemoState::Unknown(3).description(), "unknown state");
}

#[test]
fn variant_names() {
    assert_eq!(WemoState::Off.to_string(), "WemoState::Off");
    assert_eq!(WemoState::On.to_string(), "WemoState::On");
    assert_eq!(WemoState::OnWithoutLoad.to_string(), "WemoState::OnWithoutLoad");
    assert_eq!(WemoState::Unknown(77).to_string(), "WemoState::Unknown");
}

#[test]
fn wire_values() {
    assert_eq!(WemoState::Off.to_i8(), 0);
    assert_eq!(WemoState::On.to_i8(), 1);
    assert_eq!(WemoState::OnWithoutLoad.to_i8(), 8);
    assert_eq!(WemoState::Unknown(5).to_i8(), -1);
}

#[test]
fn known_states_round_trip_through_the_wire_value() {
    for s in [WemoState::Off, WemoState::On, WemoState::OnWithoutLoad] {
        assert_eq!(WemoState::from_i64(s.to_i8() as i64), Some(s));
    }
    assert_eq!(WemoState::from_i64(WemoState::Unknown(4).to_i8() as i64), None);
}

#[test]
fn io_errors_are_wrapped() {
    let cause = std::io::Error::new(std::io::ErrorKind::Other, "boom");
    let e = WemoError::from(cause);
    assert!(matches!(e, WemoError::IoError { .. }));
    assert_eq!(e.to_string(), "WemoError");
    assert_eq!(WemoError::TimeoutError.to_string(), "WemoError");
}
