use base_defense::classify::{Allegiance, BehaviorMode, ThreatTarget, UnitKind};

#[test]
fn unit_kind_documented_codes() {
    assert_eq!(UnitKind::from_u16(1), UnitKind::Hero(Allegiance::Mine));
    assert_eq!(UnitKind::from_u16(2), UnitKind::Hero(Allegiance::Opponent));
    assert_eq!(UnitKind::from_u16(0), UnitKind::Neutral);
}

#[test]
fn unit_kind_defaults_to_neutral() {
    assert_eq!(UnitKind::from_u16(3), UnitKind::Neutral);
    assert_eq!(UnitKind::from_u16(7), UnitKind::Neutral);
    assert_eq!(UnitKind::from_u16(u16::MAX), UnitKind::Neutral);
}

#[test]
fn threat_target_documented_codes() {
    assert_eq!(ThreatTarget::from_u16(1), ThreatTarget::Base(Allegiance::Mine));
    assert_eq!(ThreatTarget::from_u16(2), ThreatTarget::Base(Allegiance::Opponent));
    assert_eq!(ThreatTarget::from_u16(0), ThreatTarget::Neither);
}

#[test]
fn threat_target_defaults_to_neither() {
    assert_eq!(ThreatTarget::from_u16(3), ThreatTarget::Neither);
    assert_eq!(ThreatTarget::from_u16(100), ThreatTarget::Neither);
    assert_eq!(ThreatTarget::from_u16(u16::MAX), ThreatTarget::Neither);
}

#[test]
fn behavior_mode_targeting_iff_nonzero() {
    assert_eq!(BehaviorMode::from_u16(0), BehaviorMode::Moving);
    assert_eq!(BehaviorMode::from_u16(1), BehaviorMode::Targeting);
    assert_eq!(BehaviorMode::from_u16(2), BehaviorMode::Targeting);
    assert_eq!(BehaviorMode::from_u16(u16::MAX), BehaviorMode::Targeting);
}

#[test]
fn canonical_codes_round_trip_documented_domain() {
    for code in 0..=2u16 {
        assert_eq!(UnitKind::from_u16(code).code(), code);
        assert_eq!(ThreatTarget::from_u16(code).code(), code);
    }
    for code in 0..=1u16 {
        assert_eq!(BehaviorMode::from_u16(code).code(), code);
    }
}
