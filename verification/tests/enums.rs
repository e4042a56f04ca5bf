use hearthstone::enums::{GameTag, PlayReq};

#[test]
fn game_tag_codes_of_well_known_tags() {
    assert_eq!(GameTag::from_i32(380), Some(GameTag::HeroPower));
    assert_eq!(GameTag::from_i32(48), Some(GameTag::Cost));
    assert_eq!(GameTag::from_i32(47), Some(GameTag::Attack));
    assert_eq!(GameTag::from_i32(45), Some(GameTag::Health));
    assert_eq!(GameTag::from_i32(1), Some(GameTag::IgnoreDamage));
    assert_eq!(GameTag::from_i32(548), Some(GameTag::ExtraTurnsTakenThisGame));
    assert_eq!(GameTag::HeroPower.code(), 380);
    assert_eq!(GameTag::Cost.code(), 48);
    assert_eq!(GameTag::Attack.code(), 47);
}

#[test]
fn game_tag_lookup_of_unknown_codes_is_none() {
    assert_eq!(GameTag::from_i32(0), None);
    assert_eq!(GameTag::from_i32(-1), None);
    assert_eq!(GameTag::from_i32(10), None);
    assert_eq!(GameTag::from_i32(46), None);
    assert_eq!(GameTag::from_i32(549), None);
    assert_eq!(GameTag::from_i32(999_999), None);
    assert_eq!(GameTag::from_i32(i32::MIN), None);
    assert_eq!(GameTag::from_i32(i32::MAX), None);
}

#[test]
fn game_tag_lookup_inverts_code() {
    let mut known = 0;
    for code in -100..5000 {
        match GameTag::from_i32(code) {
            Some(tag) => {
                assert_eq!(tag.code(), code);
                known += 1;
            }
            None => {}
        }
    }
    assert_eq!(known, 286);
}

#[test]
fn play_req_codes_of_well_known_requirements() {
    assert_eq!(PlayReq::from_i32(1), Some(PlayReq::MinionTarget));
    assert_eq!(PlayReq::from_i32(11), Some(PlayReq::TargetToPlay));
    assert_eq!(PlayReq::from_i32(22), Some(PlayReq::TargetIfAvailable));
    assert_eq!(PlayReq::from_i32(71), Some(PlayReq::DragToPlay));
    assert_eq!(PlayReq::MinionTarget.code(), 1);
    assert_eq!(PlayReq::TargetToPlay.code(), 11);
}

#[test]
fn play_req_lookup_of_unknown_codes_is_none() {
    assert_eq!(PlayReq::from_i32(0), None);
    assert_eq!(PlayReq::from_i32(-1), None);
    assert_eq!(PlayReq::from_i32(72), None);
    assert_eq!(PlayReq::from_i32(i32::MAX), None);
}

#[test]
fn play_req_lookup_inverts_code() {
    let mut known = 0;
    for code in -100..1000 {
        if let Some(req) = PlayReq::from_i32(code) {
            assert_eq!(req.code(), code);
            known += 1;
        }
    }
    assert_eq!(known, 71);
}
