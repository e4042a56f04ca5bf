use hearthstone::cardxml::{load, unpack, Card, Powered, Tagged, UnknownTagCode};
use hearthstone::enums::{GameTag, PlayReq};
use hearthstone::integrity::{check_requirement_code, check_tag_code, UnknownCode};
use hearthstone::raw::{
    CardDefs, Entity, EntourageCard, PlayRequirement, Power, ReferencedTag, Tag,
    TriggeredPowerHistoryInfo,
};

const HERO_POWER: i32 = 380;
const COST: i32 = 48;
const ATTACK: i32 = 47;
const HEALTH: i32 = 45;
const UNKNOWN_TAG: i32 = 100_000;
const UNKNOWN_REQUIREMENT: i32 = 5_000;

fn text(s: &str) -> String {
    String::from(s)
}

fn tag(enum_id: i32, value: Option<i32>, card_id: Option<&str>) -> Tag {
    Tag {
        enum_id,
        card_id: card_id.map(text),
        value_type: text("Int"),
        value,
        de_de: String::new(),
        en_us: String::new(),
        es_es: String::new(),
        es_mx: String::new(),
        fr_fr: String::new(),
        it_it: String::new(),
        ja_jp: String::new(),
        ko_kr: String::new(),
        pl_pl: String::new(),
        pt_br: String::new(),
        ru_ru: String::new(),
        th_th: String::new(),
        zh_cn: String::new(),
        zh_tw: String::new(),
    }
}

fn referenced(enum_id: i32, value: Option<i32>, card_id: Option<&str>) -> ReferencedTag {
    ReferencedTag { enum_id, card_id: card_id.map(text), value_type: text("Int"), value }
}

fn requirement(req_id: i32, param: &str) -> PlayRequirement {
    PlayRequirement { req_id, param: text(param) }
}

fn power(definition: &str, play_requirements: Vec<PlayRequirement>) -> Power {
    Power { definition: text(definition), play_requirements }
}

fn entity(card_id: &str, id: i32) -> Entity {
    Entity {
        card_id: text(card_id),
        id,
        master_power: None,
        tags: Vec::new(),
        referenced_tags: Vec::new(),
        entourage_cards: Vec::new(),
        powers: Vec::new(),
        triggered_power_history_info: Vec::new(),
    }
}

fn fireball() -> Entity {
    let mut e = entity("CS2_029", 7);
    e.tags.push(tag(HERO_POWER, None, Some("HERO_02")));
    e.powers.push(power("CS2_029e", vec![requirement(11, "1")]));
    e
}

fn document(entities: Vec<Entity>) -> CardDefs {
    CardDefs { entities }
}

fn same_tagged(a: &Tagged, b: &Tagged) -> bool {
    a.0 == b.0 && a.1 == b.1
}

fn same_powered(a: &Powered, b: &Powered) -> bool {
    a.definition == b.definition && a.requirements.entries() == b.requirements.entries()
}

fn same_card(a: &Card, b: &Card) -> bool {
    let tags_agree = a.tags().len() == b.tags().len()
        && a.tags().entries().iter().all(|(k, v)| match b.tags().get(k) {
            Some(w) => same_tagged(v, w),
            None => false,
        });
    let referenced_agree = a.referenced_tags().len() == b.referenced_tags().len()
        && a.referenced_tags().entries().iter().all(|(k, v)| match b.referenced_tags().get(k) {
            Some(w) => same_tagged(v, w),
            None => false,
        });
    let powers_agree = a.powers().len() == b.powers().len()
        && a.powers().iter().zip(b.powers().iter()).all(|(p, q)| same_powered(p, q));
    a.id() == b.id()
        && a.dbf_id() == b.dbf_id()
        && a.master_power() == b.master_power()
        && a.hero_power() == b.hero_power()
        && tags_agree
        && referenced_agree
        && powers_agree
        && a.entourage() == b.entourage()
}

#[test]
fn cardxml_load() {
    let cards = load(document(vec![fireball()]));
    assert!(cards.len() != 0);
}

#[test]
fn load_of_an_empty_document_is_empty() {
    let cards = load(document(vec![]));
    assert_eq!(cards.len(), 0);
}

#[test]
fn end_to_end_one_entity() {
    let defs = document(vec![fireball()]);
    assert_eq!(defs.unknown_code(), None);
    let cards = load(defs);
    assert_eq!(cards.len(), 1);
    let card = cards.get(&text("CS2_029")).unwrap();
    assert_eq!(card.id(), "CS2_029");
    assert_eq!(card.dbf_id(), 7);
    assert_eq!(card.hero_power(), &Some(text("HERO_02")));
    assert_eq!(card.master_power(), &None);
    assert_eq!(card.powers().len(), 1);
    assert_eq!(card.powers()[0].definition, "CS2_029e");
    assert_eq!(card.powers()[0].requirements.len(), 1);
    assert_eq!(card.powers()[0].requirements.get(&PlayReq::TargetToPlay), Some(&1));
    assert_eq!(card.powers()[0].requirements.entries().len(), 1);
    assert_eq!(card.powers()[0].requirements.entries()[0], (PlayReq::TargetToPlay, 1));
    assert!(card.entourage().is_empty());
    assert_eq!(card.tags().len(), 1);
    let hero_power = card.tags().get(&GameTag::HeroPower).unwrap();
    assert_eq!(hero_power.0, 0);
    assert_eq!(hero_power.1, Some(text("HERO_02")));
    assert_eq!(card.referenced_tags().len(), 0);
}

#[test]
fn unknown_tag_code_is_found_before_any_catalog_is_built() {
    let mut e = fireball();
    e.tags.push(tag(UNKNOWN_TAG, Some(1), None));
    let defs = document(vec![entity("EX1_001", 1), e]);
    assert_eq!(defs.unknown_code(), Some(UnknownCode::Tag(UNKNOWN_TAG)));
    assert_eq!(defs.entities[0].unknown_code(), None);
    assert_eq!(defs.entities[1].unknown_code(), Some(UnknownCode::Tag(UNKNOWN_TAG)));
    match defs.entities[1].tags[1].unpack() {
        Ok(_) => panic!("a tag without a kind was unpacked"),
        Err(e) => assert_eq!(e, UnknownTagCode { code: UNKNOWN_TAG }),
    }
}

#[test]
fn unknown_referenced_tag_code_is_found() {
    let mut e = fireball();
    e.referenced_tags.push(referenced(UNKNOWN_TAG + 1, None, None));
    assert_eq!(e.unknown_code(), Some(UnknownCode::Tag(UNKNOWN_TAG + 1)));
    match e.referenced_tags[0].unpack() {
        Ok(_) => panic!("a tag without a kind was unpacked"),
        Err(err) => assert_eq!(err.code, UNKNOWN_TAG + 1),
    }
}

#[test]
fn unknown_requirement_code_is_found() {
    let p = power("X", vec![requirement(1, "0"), requirement(UNKNOWN_REQUIREMENT, "0")]);
    assert_eq!(p.unknown_code(), Some(UnknownCode::Requirement(UNKNOWN_REQUIREMENT)));
    let mut e = fireball();
    e.powers.push(p);
    assert_eq!(e.unknown_code(), Some(UnknownCode::Requirement(UNKNOWN_REQUIREMENT)));
    let defs = document(vec![fireball(), e]);
    assert_eq!(defs.unknown_code(), Some(UnknownCode::Requirement(UNKNOWN_REQUIREMENT)));
}

#[test]
fn first_unknown_code_follows_the_order_of_the_document() {
    let mut e = entity("A", 1);
    e.powers.push(power("P", vec![requirement(UNKNOWN_REQUIREMENT, "")]));
    e.referenced_tags.push(referenced(UNKNOWN_TAG + 2, None, None));
    e.referenced_tags.push(referenced(UNKNOWN_TAG + 3, None, None));
    assert_eq!(e.unknown_code(), Some(UnknownCode::Tag(UNKNOWN_TAG + 2)));
    e.tags.push(tag(COST, Some(4), None));
    e.tags.push(tag(UNKNOWN_TAG + 1, None, None));
    e.tags.push(tag(UNKNOWN_TAG, None, None));
    assert_eq!(e.unknown_code(), Some(UnknownCode::Tag(UNKNOWN_TAG + 1)));

    let mut later = entity("B", 2);
    later.tags.push(tag(UNKNOWN_TAG + 9, None, None));
    let mut earlier = entity("C", 3);
    earlier.powers.push(power("Q", vec![requirement(2, "x"), requirement(-7, "1")]));
    let defs = document(vec![entity("D", 4), earlier, later]);
    assert_eq!(defs.unknown_code(), Some(UnknownCode::Requirement(-7)));
}

#[test]
fn single_codes_are_checked_against_the_tables() {
    assert_eq!(check_tag_code(HERO_POWER), None);
    assert_eq!(check_tag_code(0), Some(UnknownCode::Tag(0)));
    assert_eq!(check_requirement_code(1), None);
    assert_eq!(check_requirement_code(0), Some(UnknownCode::Requirement(0)));
}

#[test]
fn unpack_gives_kind_value_and_reference() {
    let (kind, value) = unpack(COST, Some(4), None).unwrap();
    assert_eq!(kind, GameTag::Cost);
    assert_eq!(value.0, 4);
    assert_eq!(value.1, None);

    let (kind, value) = unpack(HERO_POWER, None, Some(text("HERO_02"))).unwrap();
    assert_eq!(kind, GameTag::HeroPower);
    assert_eq!(value.0, 0);
    assert_eq!(value.1, Some(text("HERO_02")));

    let (kind, value) = unpack(ATTACK, Some(-3), Some(text(""))).unwrap();
    assert_eq!(kind, GameTag::Attack);
    assert_eq!(value.0, -3);
    assert_eq!(value.1, Some(String::new()));
}

#[test]
fn unpack_fails_on_a_code_without_a_tag() {
    assert_eq!(unpack(UNKNOWN_TAG, Some(4), None).err(), Some(UnknownTagCode { code: UNKNOWN_TAG }));
    assert_eq!(unpack(0, None, Some(text("X"))).err(), Some(UnknownTagCode { code: 0 }));
    assert_eq!(unpack(-1, None, None).err(), Some(UnknownTagCode { code: -1 }));
}

#[test]
fn tag_and_referenced_tag_unpack_alike() {
    let t = tag(HEALTH, Some(30), Some("HERO_01"));
    let r = referenced(HEALTH, Some(30), Some("HERO_01"));
    let (tk, tv) = t.unpack().unwrap();
    let (rk, rv) = r.unpack().unwrap();
    assert_eq!(tk, GameTag::Health);
    assert_eq!(rk, GameTag::Health);
    assert!(same_tagged(&tv, &rv));
    assert_eq!(tv.0, 30);
    assert_eq!(tv.1, Some(text("HERO_01")));
}

#[test]
fn tag_accessors_give_the_fields() {
    let t = tag(COST, None, Some("A"));
    assert_eq!(t.enum_id(), COST);
    assert_eq!(t.card_id(), Some(text("A")));
    assert_eq!(t.tag_type(), "Int");
    assert_eq!(t.tag_value(), 0);
    let t = tag(COST, Some(9), None);
    assert_eq!(t.card_id(), None);
    assert_eq!(t.tag_value(), 9);

    let r = referenced(ATTACK, None, Some("B"));
    assert_eq!(r.enum_id(), ATTACK);
    assert_eq!(r.card_id(), Some(text("B")));
    assert_eq!(r.tag_type(), "Int");
    assert_eq!(r.tag_value(), 0);
    let r = referenced(ATTACK, Some(-2), None);
    assert_eq!(r.card_id(), None);
    assert_eq!(r.tag_value(), -2);
}

#[test]
fn requirement_parameter_defaults_to_zero() {
    let p = Powered::new(power(
        "P",
        vec![
            requirement(1, "3"),
            requirement(2, ""),
            requirement(3, "none"),
            requirement(4, "-12"),
            requirement(5, "2147483648"),
            requirement(6, " 4"),
            requirement(7, "+8"),
        ],
    ));
    assert_eq!(p.definition, "P");
    assert_eq!(p.requirements.len(), 7);
    assert_eq!(p.requirements.get(&PlayReq::MinionTarget), Some(&3));
    assert_eq!(p.requirements.get(&PlayReq::FriendlyTarget), Some(&0));
    assert_eq!(p.requirements.get(&PlayReq::EnemyTarget), Some(&0));
    assert_eq!(p.requirements.get(&PlayReq::DamagedTarget), Some(&-12));
    assert_eq!(p.requirements.get(&PlayReq::MaxSecrets), Some(&0));
    assert_eq!(p.requirements.get(&PlayReq::FrozenTarget), Some(&0));
    assert_eq!(p.requirements.get(&PlayReq::ChargeTarget), Some(&8));
    assert_eq!(p.requirements.get(&PlayReq::TargetMaxAttack), None);
}

#[test]
fn later_requirement_of_a_kind_replaces_the_earlier() {
    let p = Powered::new(power(
        "P",
        vec![requirement(8, "3"), requirement(1, "0"), requirement(8, "x"), requirement(8, "5")],
    ));
    assert_eq!(p.requirements.len(), 2);
    assert_eq!(p.requirements.get(&PlayReq::TargetMaxAttack), Some(&5));
    assert_eq!(p.requirements.get(&PlayReq::MinionTarget), Some(&0));
}

#[test]
fn power_without_requirements() {
    let p = Powered::new(power("CS2_101", vec![]));
    assert_eq!(p.definition, "CS2_101");
    assert_eq!(p.requirements.len(), 0);
}

#[test]
fn hero_power_is_the_reference_of_the_hero_power_tag() {
    let mut e = entity("HERO_01", 1);
    e.tags.push(tag(HEALTH, Some(30), None));
    e.tags.push(tag(HERO_POWER, Some(725), Some("CS2_102")));
    let card = Card::new(e);
    assert_eq!(card.hero_power(), &Some(text("CS2_102")));
    assert_eq!(card.tags().get(&GameTag::HeroPower).unwrap().0, 725);
}

#[test]
fn hero_power_is_absent_without_a_hero_power_tag() {
    let mut e = entity("CS2_101", 2);
    e.tags.push(tag(COST, Some(2), Some("NOT_A_HERO_POWER")));
    e.referenced_tags.push(referenced(HERO_POWER, None, Some("CS2_102")));
    let card = Card::new(e);
    assert_eq!(card.hero_power(), &None);
}

#[test]
fn hero_power_is_absent_where_the_tag_points_to_no_card() {
    let mut e = entity("HERO_02", 3);
    e.tags.push(tag(HERO_POWER, Some(1), None));
    let card = Card::new(e);
    assert_eq!(card.hero_power(), &None);
    assert!(card.tags().contains_key(&GameTag::HeroPower));
}

#[test]
fn hero_power_follows_the_last_hero_power_tag() {
    let mut e = entity("HERO_03", 4);
    e.tags.push(tag(HERO_POWER, None, Some("FIRST")));
    e.tags.push(tag(HERO_POWER, None, Some("SECOND")));
    let card = Card::new(e);
    assert_eq!(card.hero_power(), &Some(text("SECOND")));

    let mut e = entity("HERO_04", 5);
    e.tags.push(tag(HERO_POWER, None, Some("FIRST")));
    e.tags.push(tag(HERO_POWER, None, None));
    let card = Card::new(e);
    assert_eq!(card.hero_power(), &None);
}

#[test]
fn card_copies_scalars_powers_and_entourage_in_order() {
    let mut e = entity("EX1_116", 559);
    e.master_power = Some(text("b2aa6a0f"));
    e.entourage_cards.push(EntourageCard { card_id: text("NEW1_032") });
    e.entourage_cards.push(EntourageCard { card_id: text("NEW1_033") });
    e.entourage_cards.push(EntourageCard { card_id: text("NEW1_032") });
    e.powers.push(power("first", vec![requirement(1, "0")]));
    e.powers.push(power("second", vec![]));
    e.powers.push(power("first", vec![requirement(2, "2")]));
    e.triggered_power_history_info.push(TriggeredPowerHistoryInfo {});
    let card = Card::new(e);
    assert_eq!(card.id(), "EX1_116");
    assert_eq!(card.dbf_id(), 559);
    assert_eq!(card.master_power(), &Some(text("b2aa6a0f")));
    assert_eq!(card.hero_power(), &None);
    assert_eq!(card.entourage(), &vec![text("NEW1_032"), text("NEW1_033"), text("NEW1_032")]);
    assert_eq!(card.powers().len(), 3);
    assert_eq!(card.powers()[0].definition, "first");
    assert_eq!(card.powers()[0].requirements.get(&PlayReq::MinionTarget), Some(&0));
    assert_eq!(card.powers()[1].definition, "second");
    assert_eq!(card.powers()[1].requirements.len(), 0);
    assert_eq!(card.powers()[2].definition, "first");
    assert_eq!(card.powers()[2].requirements.get(&PlayReq::FriendlyTarget), Some(&2));
    assert_eq!(card.tags().len(), 0);
    assert_eq!(card.referenced_tags().len(), 0);
}

#[test]
fn tags_and_referenced_tags_are_two_maps() {
    let mut e = entity("X", 1);
    e.tags.push(tag(COST, Some(1), None));
    e.tags.push(tag(ATTACK, Some(2), None));
    e.tags.push(tag(COST, Some(3), None));
    e.referenced_tags.push(referenced(COST, Some(10), Some("Y")));
    e.referenced_tags.push(referenced(HEALTH, None, None));
    let card = Card::new(e);
    assert_eq!(card.tags().len(), 2);
    assert_eq!(card.tags().get(&GameTag::Cost).unwrap().0, 3);
    assert_eq!(card.tags().get(&GameTag::Attack).unwrap().0, 2);
    assert!(card.tags().get(&GameTag::Health).is_none());
    assert_eq!(card.referenced_tags().len(), 2);
    assert_eq!(card.referenced_tags().get(&GameTag::Cost).unwrap().0, 10);
    assert_eq!(card.referenced_tags().get(&GameTag::Cost).unwrap().1, Some(text("Y")));
    assert_eq!(card.referenced_tags().get(&GameTag::Health).unwrap().0, 0);
    assert!(card.referenced_tags().get(&GameTag::Attack).is_none());
}

#[test]
fn keys_of_a_loaded_catalog_are_symbols_of_the_tables() {
    let mut a = fireball();
    a.tags.push(tag(COST, Some(4), None));
    a.referenced_tags.push(referenced(ATTACK, Some(1), None));
    a.powers.push(power("other", vec![requirement(22, "0"), requirement(1, "0")]));
    let codes_of_tags = [HERO_POWER, COST];
    let codes_of_referenced = [ATTACK];
    let cards = load(document(vec![a]));
    for (_, card) in cards.entries().iter() {
        for (kind, _) in card.tags().entries().iter() {
            assert_eq!(GameTag::from_i32(kind.code()), Some(*kind));
            assert!(codes_of_tags.contains(&kind.code()));
        }
        for (kind, _) in card.referenced_tags().entries().iter() {
            assert_eq!(GameTag::from_i32(kind.code()), Some(*kind));
            assert!(codes_of_referenced.contains(&kind.code()));
        }
        for p in card.powers().iter() {
            for (kind, _) in p.requirements.entries().iter() {
                assert_eq!(PlayReq::from_i32(kind.code()), Some(*kind));
                assert!([11, 22, 1].contains(&kind.code()));
            }
        }
    }
}

#[test]
fn loading_twice_gives_equal_catalogs() {
    let build = || {
        let mut a = fireball();
        a.master_power = Some(text("m"));
        a.entourage_cards.push(EntourageCard { card_id: text("E1") });
        let mut b = entity("EX1_001", 12);
        b.tags.push(tag(COST, Some(1), None));
        b.referenced_tags.push(referenced(HEALTH, Some(2), Some("Z")));
        document(vec![a, b, fireball()])
    };
    let first = load(build());
    let second = load(build());
    assert_eq!(first.len(), second.len());
    assert_eq!(first.len(), 2);
    for (id, card) in first.entries().iter() {
        let other = second.get(id).unwrap();
        assert!(same_card(card, other));
    }
    for (id, _) in second.entries().iter() {
        assert!(first.contains_key(id));
    }
}

#[test]
fn catalog_holds_one_card_per_identifier_and_the_last_one() {
    let mut first = entity("DUP", 1);
    first.tags.push(tag(COST, Some(1), None));
    let middle = entity("OTHER", 2);
    let mut last = entity("DUP", 3);
    last.tags.push(tag(COST, Some(9), None));
    last.tags.push(tag(HERO_POWER, None, Some("HP")));
    let cards = load(document(vec![first, middle, last]));
    assert_eq!(cards.len(), 2);
    let dup = cards.get(&text("DUP")).unwrap();
    assert_eq!(dup.dbf_id(), 3);
    assert_eq!(dup.tags().get(&GameTag::Cost).unwrap().0, 9);
    assert_eq!(dup.hero_power(), &Some(text("HP")));
    assert_eq!(cards.get(&text("OTHER")).unwrap().dbf_id(), 2);
    assert!(cards.get(&text("MISSING")).is_none());
    let ids: Vec<&String> = cards.entries().iter().map(|(id, _)| id).collect();
    assert_eq!(ids, vec!["DUP", "OTHER"]);
}

#[test]
fn references_to_cards_are_not_checked() {
    let mut e = entity("LONELY", 1);
    e.master_power = Some(text("NO_SUCH_POWER"));
    e.tags.push(tag(HERO_POWER, None, Some("NO_SUCH_CARD")));
    e.entourage_cards.push(EntourageCard { card_id: text("NO_SUCH_CARD_EITHER") });
    let cards = load(document(vec![e]));
    let card = cards.get(&text("LONELY")).unwrap();
    assert_eq!(card.hero_power(), &Some(text("NO_SUCH_CARD")));
    assert_eq!(card.master_power(), &Some(text("NO_SUCH_POWER")));
    assert_eq!(card.entourage(), &vec![text("NO_SUCH_CARD_EITHER")]);
    assert!(!cards.contains_key(&text("NO_SUCH_CARD")));
}
