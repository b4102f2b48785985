use hmf::enums::{
    AckStatus, AlarmSeverity, DeathReason, DeliveryProfile, Health, MsgClass, ObservationType,
    Quality, ResultStatus, SigAlg,
};

#[test]
fn msg_class_named_codes() {
    assert_eq!(MsgClass::from_i32(0), MsgClass::Unspecified);
    assert_eq!(MsgClass::from_i32(1), MsgClass::Telemetry);
    assert_eq!(MsgClass::from_i32(2), MsgClass::Command);
    assert_eq!(MsgClass::from_i32(3), MsgClass::Config);
    assert_eq!(MsgClass::from_i32(4), MsgClass::Engineering);
    assert_eq!(MsgClass::Engineering.to_i32(), 4);
}

#[test]
fn msg_class_unknown_code_is_kept() {
    let m = MsgClass::from_i32(99);
    assert_eq!(m, MsgClass::Unknown(99));
    assert_eq!(m.to_i32(), 99);
    assert_eq!(MsgClass::from_i32(-7).to_i32(), -7);
}

#[test]
fn every_enum_round_trips_codes() {
    for v in [-1, 0, 1, 2, 3, 4, 5, 99, i32::MAX, i32::MIN] {
        assert_eq!(MsgClass::from_i32(v).to_i32(), v);
        assert_eq!(DeliveryProfile::from_i32(v).to_i32(), v);
        assert_eq!(SigAlg::from_i32(v).to_i32(), v);
        assert_eq!(AckStatus::from_i32(v).to_i32(), v);
        assert_eq!(ResultStatus::from_i32(v).to_i32(), v);
        assert_eq!(DeathReason::from_i32(v).to_i32(), v);
        assert_eq!(Health::from_i32(v).to_i32(), v);
        assert_eq!(Quality::from_i32(v).to_i32(), v);
        assert_eq!(AlarmSeverity::from_i32(v).to_i32(), v);
        assert_eq!(ObservationType::from_i32(v).to_i32(), v);
    }
}

#[test]
fn named_values_of_small_enums() {
    assert_eq!(SigAlg::from_i32(1), SigAlg::Ed25519);
    assert_eq!(SigAlg::from_i32(2), SigAlg::Unknown(2));
    assert_eq!(Health::from_i32(1), Health::Healthy);
    assert_eq!(Health::Faulted.to_i32(), 3);
    assert_eq!(AckStatus::from_i32(2), AckStatus::Rejected);
    assert_eq!(AckStatus::from_i32(3), AckStatus::Unknown(3));
    assert_eq!(ResultStatus::Failed.to_i32(), 4);
    assert_eq!(DeathReason::from_i32(3), DeathReason::WatchdogReset);
    assert_eq!(Quality::from_i32(2), Quality::Uncertain);
    assert_eq!(AlarmSeverity::from_i32(3), AlarmSeverity::Critical);
    assert_eq!(ObservationType::from_i32(4), ObservationType::Unknown(4));
    assert_eq!(DeliveryProfile::from_i32(4), DeliveryProfile::CriticalExec);
}
