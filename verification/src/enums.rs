//! The two closed tables of integer codes that card data is written in: the
//! kinds of tag and the kinds of play requirement.
//!
//! Each table gives every symbol one code, and no code to two symbols. A code
//! that the table does not hold stands for nothing: the lookup returns `None`
//! and decides nothing else.

use crate::assoc::Key;
use vstd::prelude::*;

verus! {

/// A kind of tag: an attribute that a card, or a card that it refers to, can
/// carry.
#[derive(Clone, Copy, Debug, PartialEq, Eq, Hash, Structural)]
pub enum GameTag {
    IgnoreDamage,
    TagScriptDataNum1,
    TagScriptDataNum2,
    TagScriptDataEnt1,
    TagScriptDataEnt2,
    MissionEvent,
    Timeout,
    TurnStart,
    TurnTimerSlush,
    Premium,
    GoldRewardState,
    Playstate,
    LastAffectedBy,
    Step,
    Turn,
    Fatigue,
    CurrentPlayer,
    FirstPlayer,
    ResourcesUsed,
    Resources,
    HeroEntity,
    Maxhandsize,
    Starthandsize,
    PlayerId,
    TeamId,
    TriggerVisual,
    RecentlyArrived,
    Protected,
    Protecting,
    Defending,
    ProposedDefender,
    Attacking,
    ProposedAttacker,
    Attached,
    Exhausted,
    Damage,
    Health,
    Attack,
    Cost,
    Zone,
    Controller,
    Owner,
    Definition,
    EntityId,
    HistoryProxy,
    CopyDeathrattle,
    CopyDeathrattleIndex,
    Elite,
    Maxresources,
    CardSet,
    CardtextInhand,
    Cardname,
    CardId,
    Durability,
    Silenced,
    Windfury,
    Taunt,
    Stealth,
    Spellpower,
    DivineShield,
    Charge,
    NextStep,
    Class,
    Cardrace,
    Faction,
    Cardtype,
    Rarity,
    State,
    Summoned,
    Freeze,
    Enraged,
    Overload,
    Loyalty,
    Deathrattle,
    Battlecry,
    Secret,
    Combo,
    CantHeal,
    CantDamage,
    CantSetAside,
    CantRemoveFromGame,
    CantReady,
    CantExhaust,
    CantAttack,
    CantTarget,
    CantDestroy,
    CantDiscard,
    CantPlay,
    CantDraw,
    IncomingHealingMultiplier,
    IncomingHealingAdjustment,
    IncomingHealingCap,
    IncomingDamageMultiplier,
    IncomingDamageAdjustment,
    IncomingDamageCap,
    CantBeHealed,
    CantBeDamaged,
    CantBeSetAside,
    CantBeRemovedFromGame,
    CantBeReadied,
    CantBeExhausted,
    CantBeAttacked,
    CantBeTargeted,
    CantBeDestroyed,
    AttackVisualType,
    CardTextInPlay,
    CantBeSummoningSick,
    Frozen,
    JustPlayed,
    LinkedEntity,
    ZonePosition,
    CantBeFrozen,
    ComboActive,
    CardTarget,
    DevState,
    NumCardsPlayedThisTurn,
    CantBeTargetedByOpponents,
    NumTurnsInPlay,
    NumTurnsLeft,
    OutgoingDamageCap,
    OutgoingDamageAdjustment,
    OutgoingDamageMultiplier,
    OutgoingHealingCap,
    OutgoingHealingAdjustment,
    OutgoingHealingMultiplier,
    IncomingAbilityDamageAdjustment,
    IncomingCombatDamageAdjustment,
    OutgoingAbilityDamageAdjustment,
    OutgoingCombatDamageAdjustment,
    OutgoingAbilityDamageMultiplier,
    OutgoingAbilityDamageCap,
    IncomingAbilityDamageMultiplier,
    IncomingAbilityDamageCap,
    OutgoingCombatDamageMultiplier,
    OutgoingCombatDamageCap,
    IncomingCombatDamageMultiplier,
    IncomingCombatDamageCap,
    CurrentSpellpower,
    Armor,
    Morph,
    IsMorphed,
    TempResources,
    OverloadOwed,
    NumAttacksThisTurn,
    NextAllyBuff,
    Magnet,
    FirstCardPlayedThisTurn,
    MulliganState,
    TauntReady,
    StealthReady,
    ChargeReady,
    CantBeTargetedBySpells,
    ShouldExitCombat,
    Creator,
    CantBeSilenced,
    ParentCard,
    NumMinionsPlayedThisTurn,
    Predamage,
    Collectible,
    TargetingArrowText,
    EnchantmentBirthVisual,
    EnchantmentIdleVisual,
    CantBeTargetedByHeroPowers,
    InvisibleDeathrattle,
    HealthMinimum,
    TagOneTurnEffect,
    Silence,
    Counter,
    ArtistName,
    LocalizationNotes,
    HandRevealed,
    ImmuneToSpellpower,
    AdjacentBuff,
    FlavorText,
    ForcedPlay,
    LowHealthThreshold,
    IgnoreDamageOff,
    GrantCharge,
    SpellpowerDouble,
    HealingDouble,
    NumOptionsPlayedThisTurn,
    NumOptions,
    ToBeDestroyed,
    HealTarget,
    Aura,
    Poisonous,
    HowToEarn,
    HowToEarnGolden,
    HeroPowerDouble,
    AiMustPlay,
    NumMinionsPlayerKilledThisTurn,
    NumMinionsKilledThisTurn,
    AffectedBySpellPower,
    ExtraDeathrattles,
    StartWith1Health,
    ImmuneWhileAttacking,
    MultiplyHeroDamage,
    MultiplyBuffValue,
    CustomKeywordEffect,
    Topdeck,
    CantBeTargetedByBattlecries,
    HeroPower,
    DeathrattleReturnZone,
    SteadyShotCanTarget,
    DisplayedCreator,
    PoweredUp,
    SparePart,
    Forgetful,
    CanSummonMaxplusoneMinion,
    Obfuscated,
    Burning,
    OverloadLocked,
    NumTimesHeroPowerUsedThisGame,
    CurrentHeropowerDamageBonus,
    HeropowerDamage,
    LastCardPlayed,
    NumFriendlyMinionsThatDiedThisTurn,
    NumCardsDrawnThisTurn,
    AiOneShotKill,
    EvilGlow,
    HideStats,
    Inspire,
    ReceivesDoubleSpelldamageBonus,
    HeropowerAdditionalActivations,
    HeropowerActivationsThisTurn,
    Revealed,
    NumFriendlyMinionsThatDiedThisGame,
    CannotAttackHeroes,
    LockAndLoad,
    Discover,
    Shadowform,
    NumFriendlyMinionsThatAttackedThisTurn,
    NumResourcesSpentThisGame,
    ChooseBoth,
    ElectricChargeLevel,
    HeavilyArmored,
    DontShowImmune,
    Ritual,
    Prehealing,
    AppearFunctionallyDead,
    OverloadThisGame,
    SpellsCostHealth,
    HistoryProxyNoBigCard,
    ProxyCthun,
    TransformedFromCard,
    Cthun,
    CastRandomSpells,
    Shifting,
    JadeGolem,
    EmbraceTheShadow,
    ChooseOne,
    ExtraAttacksThisTurn,
    SeenCthun,
    MinionTypeReference,
    Untouchable,
    RedManaCrystals,
    ScoreLabelid1,
    ScoreValue1,
    ScoreLabelid2,
    ScoreValue2,
    ScoreLabelid3,
    ScoreValue3,
    CantBeFatigued,
    AutoAttack,
    ArmsDealing,
    PendingEvolutions,
    Quest,
    TagLastKnownCostInHand,
    DefiningEnchantment,
    FinishAttackSpellOnDamage,
    MultipleClasses,
    AllTargetsRandom,
    MultiClassGroup,
    CardCostsHealth,
    GrimyGoons,
    JadeLotus,
    Kabal,
    AdditionalPlayReqs1,
    AdditionalPlayReqs2,
    ElementalPoweredUp,
    QuestProgress,
    QuestProgressTotal,
    QuestContributor,
    Adapt,
    IsCurrentTurnAnExtraTurn,
    ExtraTurnsTakenThisGame,
}

impl GameTag {
    /// The integer code that card data uses for this tag.
    pub open spec fn spec_code(self) -> i32 {
        match self {
            GameTag::IgnoreDamage => 1,
            GameTag::TagScriptDataNum1 => 2,
            GameTag::TagScriptDataNum2 => 3,
            GameTag::TagScriptDataEnt1 => 4,
            GameTag::TagScriptDataEnt2 => 5,
            GameTag::MissionEvent => 6,
            GameTag::Timeout => 7,
            GameTag::TurnStart => 8,
            GameTag::TurnTimerSlush => 9,
            GameTag::Premium => 12,
            GameTag::GoldRewardState => 13,
            GameTag::Playstate => 17,
            GameTag::LastAffectedBy => 18,
            GameTag::Step => 19,
            GameTag::Turn => 20,
            GameTag::Fatigue => 22,
            GameTag::CurrentPlayer => 23,
            GameTag::FirstPlayer => 24,
            GameTag::ResourcesUsed => 25,
            GameTag::Resources => 26,
            GameTag::HeroEntity => 27,
            GameTag::Maxhandsize => 28,
            GameTag::Starthandsize => 29,
            GameTag::PlayerId => 30,
            GameTag::TeamId => 31,
            GameTag::TriggerVisual => 32,
            GameTag::RecentlyArrived => 33,
            GameTag::Protected => 34,
            GameTag::Protecting => 35,
            GameTag::Defending => 36,
            GameTag::ProposedDefender => 37,
            GameTag::Attacking => 38,
            GameTag::ProposedAttacker => 39,
            GameTag::Attached => 40,
            GameTag::Exhausted => 43,
            GameTag::Damage => 44,
            GameTag::Health => 45,
            GameTag::Attack => 47,
            GameTag::Cost => 48,
            GameTag::Zone => 49,
            GameTag::Controller => 50,
            GameTag::Owner => 51,
            GameTag::Definition => 52,
            GameTag::EntityId => 53,
            GameTag::HistoryProxy => 54,
            GameTag::CopyDeathrattle => 55,
            GameTag::CopyDeathrattleIndex => 56,
            GameTag::Elite => 114,
            GameTag::Maxresources => 176,
            GameTag::CardSet => 183,
            GameTag::CardtextInhand => 184,
            GameTag::Cardname => 185,
            GameTag::CardId => 186,
            GameTag::Durability => 187,
            GameTag::Silenced => 188,
            GameTag::Windfury => 189,
            GameTag::Taunt => 190,
            GameTag::Stealth => 191,
            GameTag::Spellpower => 192,
            GameTag::DivineShield => 194,
            GameTag::Charge => 197,
            GameTag::NextStep => 198,
            GameTag::Class => 199,
            GameTag::Cardrace => 200,
            GameTag::Faction => 201,
            GameTag::Cardtype => 202,
            GameTag::Rarity => 203,
            GameTag::State => 204,
            GameTag::Summoned => 205,
            GameTag::Freeze => 208,
            GameTag::Enraged => 212,
            GameTag::Overload => 215,
            GameTag::Loyalty => 216,
            GameTag::Deathrattle => 217,
            GameTag::Battlecry => 218,
            GameTag::Secret => 219,
            GameTag::Combo => 220,
            GameTag::CantHeal => 221,
            GameTag::CantDamage => 222,
            GameTag::CantSetAside => 223,
            GameTag::CantRemoveFromGame => 224,
            GameTag::CantReady => 225,
            GameTag::CantExhaust => 226,
            GameTag::CantAttack => 227,
            GameTag::CantTarget => 228,
            GameTag::CantDestroy => 229,
            GameTag::CantDiscard => 230,
            GameTag::CantPlay => 231,
            GameTag::CantDraw => 232,
            GameTag::IncomingHealingMultiplier => 233,
            GameTag::IncomingHealingAdjustment => 234,
            GameTag::IncomingHealingCap => 235,
            GameTag::IncomingDamageMultiplier => 236,
            GameTag::IncomingDamageAdjustment => 237,
            GameTag::IncomingDamageCap => 238,
            GameTag::CantBeHealed => 239,
            GameTag::CantBeDamaged => 240,
            GameTag::CantBeSetAside => 241,
            GameTag::CantBeRemovedFromGame => 242,
            GameTag::CantBeReadied => 243,
            GameTag::CantBeExhausted => 244,
            GameTag::CantBeAttacked => 245,
            GameTag::CantBeTargeted => 246,
            GameTag::CantBeDestroyed => 247,
            GameTag::AttackVisualType => 251,
            GameTag::CardTextInPlay => 252,
            GameTag::CantBeSummoningSick => 253,
            GameTag::Frozen => 260,
            GameTag::JustPlayed => 261,
            GameTag::LinkedEntity => 262,
            GameTag::ZonePosition => 263,
            GameTag::CantBeFrozen => 264,
            GameTag::ComboActive => 266,
            GameTag::CardTarget => 267,
            GameTag::DevState => 268,
            GameTag::NumCardsPlayedThisTurn => 269,
            GameTag::CantBeTargetedByOpponents => 270,
            GameTag::NumTurnsInPlay => 271,
            GameTag::NumTurnsLeft => 272,
            GameTag::OutgoingDamageCap => 273,
            GameTag::OutgoingDamageAdjustment => 274,
            GameTag::OutgoingDamageMultiplier => 275,
            GameTag::OutgoingHealingCap => 276,
            GameTag::OutgoingHealingAdjustment => 277,
            GameTag::OutgoingHealingMultiplier => 278,
            GameTag::IncomingAbilityDamageAdjustment => 279,
            GameTag::IncomingCombatDamageAdjustment => 280,
            GameTag::OutgoingAbilityDamageAdjustment => 281,
            GameTag::OutgoingCombatDamageAdjustment => 282,
            GameTag::OutgoingAbilityDamageMultiplier => 283,
            GameTag::OutgoingAbilityDamageCap => 284,
            GameTag::IncomingAbilityDamageMultiplier => 285,
            GameTag::IncomingAbilityDamageCap => 286,
            GameTag::OutgoingCombatDamageMultiplier => 287,
            GameTag::OutgoingCombatDamageCap => 288,
            GameTag::IncomingCombatDamageMultiplier => 289,
            GameTag::IncomingCombatDamageCap => 290,
            GameTag::CurrentSpellpower => 291,
            GameTag::Armor => 292,
            GameTag::Morph => 293,
            GameTag::IsMorphed => 294,
            GameTag::TempResources => 295,
            GameTag::OverloadOwed => 296,
            GameTag::NumAttacksThisTurn => 297,
            GameTag::NextAllyBuff => 302,
            GameTag::Magnet => 303,
            GameTag::FirstCardPlayedThisTurn => 304,
            GameTag::MulliganState => 305,
            GameTag::TauntReady => 306,
            GameTag::StealthReady => 307,
            GameTag::ChargeReady => 308,
            GameTag::CantBeTargetedBySpells => 311,
            GameTag::ShouldExitCombat => 312,
            GameTag::Creator => 313,
            GameTag::CantBeSilenced => 314,
            GameTag::ParentCard => 316,
            GameTag::NumMinionsPlayedThisTurn => 317,
            GameTag::Predamage => 318,
            GameTag::Collectible => 321,
            GameTag::TargetingArrowText => 325,
            GameTag::EnchantmentBirthVisual => 330,
            GameTag::EnchantmentIdleVisual => 331,
            GameTag::CantBeTargetedByHeroPowers => 332,
            GameTag::InvisibleDeathrattle => 335,
            GameTag::HealthMinimum => 337,
            GameTag::TagOneTurnEffect => 338,
            GameTag::Silence => 339,
            GameTag::Counter => 340,
            GameTag::ArtistName => 342,
            GameTag::LocalizationNotes => 344,
            GameTag::HandRevealed => 348,
            GameTag::ImmuneToSpellpower => 349,
            GameTag::AdjacentBuff => 350,
            GameTag::FlavorText => 351,
            GameTag::ForcedPlay => 352,
            GameTag::LowHealthThreshold => 353,
            GameTag::IgnoreDamageOff => 354,
            GameTag::GrantCharge => 355,
            GameTag::SpellpowerDouble => 356,
            GameTag::HealingDouble => 357,
            GameTag::NumOptionsPlayedThisTurn => 358,
            GameTag::NumOptions => 359,
            GameTag::ToBeDestroyed => 360,
            GameTag::HealTarget => 361,
            GameTag::Aura => 362,
            GameTag::Poisonous => 363,
            GameTag::HowToEarn => 364,
            GameTag::HowToEarnGolden => 365,
            GameTag::HeroPowerDouble => 366,
            GameTag::AiMustPlay => 367,
            GameTag::NumMinionsPlayerKilledThisTurn => 368,
            GameTag::NumMinionsKilledThisTurn => 369,
            GameTag::AffectedBySpellPower => 370,
            GameTag::ExtraDeathrattles => 371,
            GameTag::StartWith1Health => 372,
            GameTag::ImmuneWhileAttacking => 373,
            GameTag::MultiplyHeroDamage => 374,
            GameTag::MultiplyBuffValue => 375,
            GameTag::CustomKeywordEffect => 376,
            GameTag::Topdeck => 377,
            GameTag::CantBeTargetedByBattlecries => 379,
            GameTag::HeroPower => 380,
            GameTag::DeathrattleReturnZone => 382,
            GameTag::SteadyShotCanTarget => 383,
            GameTag::DisplayedCreator => 385,
            GameTag::PoweredUp => 386,
            GameTag::SparePart => 388,
            GameTag::Forgetful => 389,
            GameTag::CanSummonMaxplusoneMinion => 390,
            GameTag::Obfuscated => 391,
            GameTag::Burning => 392,
            GameTag::OverloadLocked => 393,
            GameTag::NumTimesHeroPowerUsedThisGame => 394,
            GameTag::CurrentHeropowerDamageBonus => 395,
            GameTag::HeropowerDamage => 396,
            GameTag::LastCardPlayed => 397,
            GameTag::NumFriendlyMinionsThatDiedThisTurn => 398,
            GameTag::NumCardsDrawnThisTurn => 399,
            GameTag::AiOneShotKill => 400,
            GameTag::EvilGlow => 401,
            GameTag::HideStats => 402,
            GameTag::Inspire => 403,
            GameTag::ReceivesDoubleSpelldamageBonus => 404,
            GameTag::HeropowerAdditionalActivations => 405,
            GameTag::HeropowerActivationsThisTurn => 406,
            GameTag::Revealed => 410,
            GameTag::NumFriendlyMinionsThatDiedThisGame => 412,
            GameTag::CannotAttackHeroes => 413,
            GameTag::LockAndLoad => 414,
            GameTag::Discover => 415,
            GameTag::Shadowform => 416,
            GameTag::NumFriendlyMinionsThatAttackedThisTurn => 417,
            GameTag::NumResourcesSpentThisGame => 418,
            GameTag::ChooseBoth => 419,
            GameTag::ElectricChargeLevel => 420,
            GameTag::HeavilyArmored => 421,
            GameTag::DontShowImmune => 422,
            GameTag::Ritual => 424,
            GameTag::Prehealing => 425,
            GameTag::AppearFunctionallyDead => 426,
            GameTag::OverloadThisGame => 427,
            GameTag::SpellsCostHealth => 431,
            GameTag::HistoryProxyNoBigCard => 432,
            GameTag::ProxyCthun => 434,
            GameTag::TransformedFromCard => 435,
            GameTag::Cthun => 436,
            GameTag::CastRandomSpells => 437,
            GameTag::Shifting => 438,
            GameTag::JadeGolem => 441,
            GameTag::EmbraceTheShadow => 442,
            GameTag::ChooseOne => 443,
            GameTag::ExtraAttacksThisTurn => 444,
            GameTag::SeenCthun => 445,
            GameTag::MinionTypeReference => 447,
            GameTag::Untouchable => 448,
            GameTag::RedManaCrystals => 449,
            GameTag::ScoreLabelid1 => 450,
            GameTag::ScoreValue1 => 451,
            GameTag::ScoreLabelid2 => 452,
            GameTag::ScoreValue2 => 453,
            GameTag::ScoreLabelid3 => 454,
            GameTag::ScoreValue3 => 455,
            GameTag::CantBeFatigued => 456,
            GameTag::AutoAttack => 457,
            GameTag::ArmsDealing => 458,
            GameTag::PendingEvolutions => 461,
            GameTag::Quest => 462,
            GameTag::TagLastKnownCostInHand => 466,
            GameTag::DefiningEnchantment => 469,
            GameTag::FinishAttackSpellOnDamage => 470,
            GameTag::MultipleClasses => 476,
            GameTag::AllTargetsRandom => 477,
            GameTag::MultiClassGroup => 480,
            GameTag::CardCostsHealth => 481,
            GameTag::GrimyGoons => 482,
            GameTag::JadeLotus => 483,
            GameTag::Kabal => 484,
            GameTag::AdditionalPlayReqs1 => 515,
            GameTag::AdditionalPlayReqs2 => 516,
            GameTag::ElementalPoweredUp => 532,
            GameTag::QuestProgress => 534,
            GameTag::QuestProgressTotal => 535,
            GameTag::QuestContributor => 541,
            GameTag::Adapt => 546,
            GameTag::IsCurrentTurnAnExtraTurn => 547,
            GameTag::ExtraTurnsTakenThisGame => 548,
        }
    }

    /// Whether `code` is the code of some tag.
    pub open spec fn is_known(code: i32) -> bool {
        exists|t: GameTag| #[trigger] t.spec_code() == code
    }

    /// The tag whose code is `code`, if there is one.
    pub open spec fn spec_from_i32(code: i32) -> Option<GameTag> {
        if Self::is_known(code) {
            Some(choose|t: GameTag| #[trigger] t.spec_code() == code)
        } else {
            None
        }
    }

    /// No two tags share a code.
    pub proof fn lemma_code_injective(a: GameTag, b: GameTag)
        requires
            a.spec_code() == b.spec_code(),
        ensures
            a == b,
    {
    }

    /// Looking up the code of a tag gives that tag back.
    pub proof fn lemma_from_code(t: GameTag)
        ensures
            Self::spec_from_i32(t.spec_code()) == Some(t),
    {
        let found = choose|u: GameTag| #[trigger] u.spec_code() == t.spec_code();
        Self::lemma_code_injective(found, t);
    }

    /// A lookup that succeeds gives a tag with the code that was asked for.
    pub proof fn lemma_from_i32_code(code: i32)
        ensures
            Self::spec_from_i32(code) matches Some(t) ==> t.spec_code() == code,
    {
    }

    /// A tag with the code asked for is what the lookup gives, and where no
    /// tag has that code it gives `None`.
    pub proof fn lemma_lookup(code: i32, r: Option<GameTag>)
        requires
            r matches Some(t) ==> t.spec_code() == code,
            r is None ==> forall|t: GameTag| #[trigger] t.spec_code() != code,
        ensures
            r == Self::spec_from_i32(code),
    {
        if let Some(t) = r {
            Self::lemma_from_code(t);
        }
    }

    /// The integer code that card data uses for this tag.
    #[verifier::when_used_as_spec(spec_code)]
    pub fn code(self) -> (c: i32)
        ensures
            c == self.spec_code(),
    {
        match self {
            GameTag::IgnoreDamage => 1,
            GameTag::TagScriptDataNum1 => 2,
            GameTag::TagScriptDataNum2 => 3,
            GameTag::TagScriptDataEnt1 => 4,
            GameTag::TagScriptDataEnt2 => 5,
            GameTag::MissionEvent => 6,
            GameTag::Timeout => 7,
            GameTag::TurnStart => 8,
            GameTag::TurnTimerSlush => 9,
            GameTag::Premium => 12,
            GameTag::GoldRewardState => 13,
            GameTag::Playstate => 17,
            GameTag::LastAffectedBy => 18,
            GameTag::Step => 19,
            GameTag::Turn => 20,
            GameTag::Fatigue => 22,
            GameTag::CurrentPlayer => 23,
            GameTag::FirstPlayer => 24,
            GameTag::ResourcesUsed => 25,
            GameTag::Resources => 26,
            GameTag::HeroEntity => 27,
            GameTag::Maxhandsize => 28,
            GameTag::Starthandsize => 29,
            GameTag::PlayerId => 30,
            GameTag::TeamId => 31,
            GameTag::TriggerVisual => 32,
            GameTag::RecentlyArrived => 33,
            GameTag::Protected => 34,
            GameTag::Protecting => 35,
            GameTag::Defending => 36,
            GameTag::ProposedDefender => 37,
            GameTag::Attacking => 38,
            GameTag::ProposedAttacker => 39,
            GameTag::Attached => 40,
            GameTag::Exhausted => 43,
            GameTag::Damage => 44,
            GameTag::Health => 45,
            GameTag::Attack => 47,
            GameTag::Cost => 48,
            GameTag::Zone => 49,
            GameTag::Controller => 50,
            GameTag::Owner => 51,
            GameTag::Definition => 52,
            GameTag::EntityId => 53,
            GameTag::HistoryProxy => 54,
            GameTag::CopyDeathrattle => 55,
            GameTag::CopyDeathrattleIndex => 56,
            GameTag::Elite => 114,
            GameTag::Maxresources => 176,
            GameTag::CardSet => 183,
            GameTag::CardtextInhand => 184,
            GameTag::Cardname => 185,
            GameTag::CardId => 186,
            GameTag::Durability => 187,
            GameTag::Silenced => 188,
            GameTag::Windfury => 189,
            GameTag::Taunt => 190,
            GameTag::Stealth => 191,
            GameTag::Spellpower => 192,
            GameTag::DivineShield => 194,
            GameTag::Charge => 197,
            GameTag::NextStep => 198,
            GameTag::Class => 199,
            GameTag::Cardrace => 200,
            GameTag::Faction => 201,
            GameTag::Cardtype => 202,
            GameTag::Rarity => 203,
            GameTag::State => 204,
            GameTag::Summoned => 205,
            GameTag::Freeze => 208,
            GameTag::Enraged => 212,
            GameTag::Overload => 215,
            GameTag::Loyalty => 216,
            GameTag::Deathrattle => 217,
            GameTag::Battlecry => 218,
            GameTag::Secret => 219,
            GameTag::Combo => 220,
            GameTag::CantHeal => 221,
            GameTag::CantDamage => 222,
            GameTag::CantSetAside => 223,
            GameTag::CantRemoveFromGame => 224,
            GameTag::CantReady => 225,
            GameTag::CantExhaust => 226,
            GameTag::CantAttack => 227,
            GameTag::CantTarget => 228,
            GameTag::CantDestroy => 229,
            GameTag::CantDiscard => 230,
            GameTag::CantPlay => 231,
            GameTag::CantDraw => 232,
            GameTag::IncomingHealingMultiplier => 233,
            GameTag::IncomingHealingAdjustment => 234,
            GameTag::IncomingHealingCap => 235,
            GameTag::IncomingDamageMultiplier => 236,
            GameTag::IncomingDamageAdjustment => 237,
            GameTag::IncomingDamageCap => 238,
            GameTag::CantBeHealed => 239,
            GameTag::CantBeDamaged => 240,
            GameTag::CantBeSetAside => 241,
            GameTag::CantBeRemovedFromGame => 242,
            GameTag::CantBeReadied => 243,
            GameTag::CantBeExhausted => 244,
            GameTag::CantBeAttacked => 245,
            GameTag::CantBeTargeted => 246,
            GameTag::CantBeDestroyed => 247,
            GameTag::AttackVisualType => 251,
            GameTag::CardTextInPlay => 252,
            GameTag::CantBeSummoningSick => 253,
            GameTag::Frozen => 260,
            GameTag::JustPlayed => 261,
            GameTag::LinkedEntity => 262,
            GameTag::ZonePosition => 263,
            GameTag::CantBeFrozen => 264,
            GameTag::ComboActive => 266,
            GameTag::CardTarget => 267,
            GameTag::DevState => 268,
            GameTag::NumCardsPlayedThisTurn => 269,
            GameTag::CantBeTargetedByOpponents => 270,
            GameTag::NumTurnsInPlay => 271,
            GameTag::NumTurnsLeft => 272,
            GameTag::OutgoingDamageCap => 273,
            GameTag::OutgoingDamageAdjustment => 274,
            GameTag::OutgoingDamageMultiplier => 275,
            GameTag::OutgoingHealingCap => 276,
            GameTag::OutgoingHealingAdjustment => 277,
            GameTag::OutgoingHealingMultiplier => 278,
            GameTag::IncomingAbilityDamageAdjustment => 279,
            GameTag::IncomingCombatDamageAdjustment => 280,
            GameTag::OutgoingAbilityDamageAdjustment => 281,
            GameTag::OutgoingCombatDamageAdjustment => 282,
            GameTag::OutgoingAbilityDamageMultiplier => 283,
            GameTag::OutgoingAbilityDamageCap => 284,
            GameTag::IncomingAbilityDamageMultiplier => 285,
            GameTag::IncomingAbilityDamageCap => 286,
            GameTag::OutgoingCombatDamageMultiplier => 287,
            GameTag::OutgoingCombatDamageCap => 288,
            GameTag::IncomingCombatDamageMultiplier => 289,
            GameTag::IncomingCombatDamageCap => 290,
            GameTag::CurrentSpellpower => 291,
            GameTag::Armor => 292,
            GameTag::Morph => 293,
            GameTag::IsMorphed => 294,
            GameTag::TempResources => 295,
            GameTag::OverloadOwed => 296,
            GameTag::NumAttacksThisTurn => 297,
            GameTag::NextAllyBuff => 302,
            GameTag::Magnet => 303,
            GameTag::FirstCardPlayedThisTurn => 304,
            GameTag::MulliganState => 305,
            GameTag::TauntReady => 306,
            GameTag::StealthReady => 307,
            GameTag::ChargeReady => 308,
            GameTag::CantBeTargetedBySpells => 311,
            GameTag::ShouldExitCombat => 312,
            GameTag::Creator => 313,
            GameTag::CantBeSilenced => 314,
            GameTag::ParentCard => 316,
            GameTag::NumMinionsPlayedThisTurn => 317,
            GameTag::Predamage => 318,
            GameTag::Collectible => 321,
            GameTag::TargetingArrowText => 325,
            GameTag::EnchantmentBirthVisual => 330,
            GameTag::EnchantmentIdleVisual => 331,
            GameTag::CantBeTargetedByHeroPowers => 332,
            GameTag::InvisibleDeathrattle => 335,
            GameTag::HealthMinimum => 337,
            GameTag::TagOneTurnEffect => 338,
            GameTag::Silence => 339,
            GameTag::Counter => 340,
            GameTag::ArtistName => 342,
            GameTag::LocalizationNotes => 344,
            GameTag::HandRevealed => 348,
            GameTag::ImmuneToSpellpower => 349,
            GameTag::AdjacentBuff => 350,
            GameTag::FlavorText => 351,
            GameTag::ForcedPlay => 352,
            GameTag::LowHealthThreshold => 353,
            GameTag::IgnoreDamageOff => 354,
            GameTag::GrantCharge => 355,
            GameTag::SpellpowerDouble => 356,
            GameTag::HealingDouble => 357,
            GameTag::NumOptionsPlayedThisTurn => 358,
            GameTag::NumOptions => 359,
            GameTag::ToBeDestroyed => 360,
            GameTag::HealTarget => 361,
            GameTag::Aura => 362,
            GameTag::Poisonous => 363,
            GameTag::HowToEarn => 364,
            GameTag::HowToEarnGolden => 365,
            GameTag::HeroPowerDouble => 366,
            GameTag::AiMustPlay => 367,
            GameTag::NumMinionsPlayerKilledThisTurn => 368,
            GameTag::NumMinionsKilledThisTurn => 369,
            GameTag::AffectedBySpellPower => 370,
            GameTag::ExtraDeathrattles => 371,
            GameTag::StartWith1Health => 372,
            GameTag::ImmuneWhileAttacking => 373,
            GameTag::MultiplyHeroDamage => 374,
            GameTag::MultiplyBuffValue => 375,
            GameTag::CustomKeywordEffect => 376,
            GameTag::Topdeck => 377,
            GameTag::CantBeTargetedByBattlecries => 379,
            GameTag::HeroPower => 380,
            GameTag::DeathrattleReturnZone => 382,
            GameTag::SteadyShotCanTarget => 383,
            GameTag::DisplayedCreator => 385,
            GameTag::PoweredUp => 386,
            GameTag::SparePart => 388,
            GameTag::Forgetful => 389,
            GameTag::CanSummonMaxplusoneMinion => 390,
            GameTag::Obfuscated => 391,
            GameTag::Burning => 392,
            GameTag::OverloadLocked => 393,
            GameTag::NumTimesHeroPowerUsedThisGame => 394,
            GameTag::CurrentHeropowerDamageBonus => 395,
            GameTag::HeropowerDamage => 396,
            GameTag::LastCardPlayed => 397,
            GameTag::NumFriendlyMinionsThatDiedThisTurn => 398,
            GameTag::NumCardsDrawnThisTurn => 399,
            GameTag::AiOneShotKill => 400,
            GameTag::EvilGlow => 401,
            GameTag::HideStats => 402,
            GameTag::Inspire => 403,
            GameTag::ReceivesDoubleSpelldamageBonus => 404,
            GameTag::HeropowerAdditionalActivations => 405,
            GameTag::HeropowerActivationsThisTurn => 406,
            GameTag::Revealed => 410,
            GameTag::NumFriendlyMinionsThatDiedThisGame => 412,
            GameTag::CannotAttackHeroes => 413,
            GameTag::LockAndLoad => 414,
            GameTag::Discover => 415,
            GameTag::Shadowform => 416,
            GameTag::NumFriendlyMinionsThatAttackedThisTurn => 417,
            GameTag::NumResourcesSpentThisGame => 418,
            GameTag::ChooseBoth => 419,
            GameTag::ElectricChargeLevel => 420,
            GameTag::HeavilyArmored => 421,
            GameTag::DontShowImmune => 422,
            GameTag::Ritual => 424,
            GameTag::Prehealing => 425,
            GameTag::AppearFunctionallyDead => 426,
            GameTag::OverloadThisGame => 427,
            GameTag::SpellsCostHealth => 431,
            GameTag::HistoryProxyNoBigCard => 432,
            GameTag::ProxyCthun => 434,
            GameTag::TransformedFromCard => 435,
            GameTag::Cthun => 436,
            GameTag::CastRandomSpells => 437,
            GameTag::Shifting => 438,
            GameTag::JadeGolem => 441,
            GameTag::EmbraceTheShadow => 442,
            GameTag::ChooseOne => 443,
            GameTag::ExtraAttacksThisTurn => 444,
            GameTag::SeenCthun => 445,
            GameTag::MinionTypeReference => 447,
            GameTag::Untouchable => 448,
            GameTag::RedManaCrystals => 449,
            GameTag::ScoreLabelid1 => 450,
            GameTag::ScoreValue1 => 451,
            GameTag::ScoreLabelid2 => 452,
            GameTag::ScoreValue2 => 453,
            GameTag::ScoreLabelid3 => 454,
            GameTag::ScoreValue3 => 455,
            GameTag::CantBeFatigued => 456,
            GameTag::AutoAttack => 457,
            GameTag::ArmsDealing => 458,
            GameTag::PendingEvolutions => 461,
            GameTag::Quest => 462,
            GameTag::TagLastKnownCostInHand => 466,
            GameTag::DefiningEnchantment => 469,
            GameTag::FinishAttackSpellOnDamage => 470,
            GameTag::MultipleClasses => 476,
            GameTag::AllTargetsRandom => 477,
            GameTag::MultiClassGroup => 480,
            GameTag::CardCostsHealth => 481,
            GameTag::GrimyGoons => 482,
            GameTag::JadeLotus => 483,
            GameTag::Kabal => 484,
            GameTag::AdditionalPlayReqs1 => 515,
            GameTag::AdditionalPlayReqs2 => 516,
            GameTag::ElementalPoweredUp => 532,
            GameTag::QuestProgress => 534,
            GameTag::QuestProgressTotal => 535,
            GameTag::QuestContributor => 541,
            GameTag::Adapt => 546,
            GameTag::IsCurrentTurnAnExtraTurn => 547,
            GameTag::ExtraTurnsTakenThisGame => 548,
        }
    }

    /// Looks a code up in the table: the tag with that code, or `None`
    /// where the table has none.
    #[verifier::rlimit(100)]
    pub fn from_i32(code: i32) -> (r: Option<GameTag>)
        ensures
            r == Self::spec_from_i32(code),
    {
        let r = match code {
            1 => Some(GameTag::IgnoreDamage),
            2 => Some(GameTag::TagScriptDataNum1),
            3 => Some(GameTag::TagScriptDataNum2),
            4 => Some(GameTag::TagScriptDataEnt1),
            5 => Some(GameTag::TagScriptDataEnt2),
            6 => Some(GameTag::MissionEvent),
            7 => Some(GameTag::Timeout),
            8 => Some(GameTag::TurnStart),
            9 => Some(GameTag::TurnTimerSlush),
            12 => Some(GameTag::Premium),
            13 => Some(GameTag::GoldRewardState),
            17 => Some(GameTag::Playstate),
            18 => Some(GameTag::LastAffectedBy),
            19 => Some(GameTag::Step),
            20 => Some(GameTag::Turn),
            22 => Some(GameTag::Fatigue),
            23 => Some(GameTag::CurrentPlayer),
            24 => Some(GameTag::FirstPlayer),
            25 => Some(GameTag::ResourcesUsed),
            26 => Some(GameTag::Resources),
            27 => Some(GameTag::HeroEntity),
            28 => Some(GameTag::Maxhandsize),
            29 => Some(GameTag::Starthandsize),
            30 => Some(GameTag::PlayerId),
            31 => Some(GameTag::TeamId),
            32 => Some(GameTag::TriggerVisual),
            33 => Some(GameTag::RecentlyArrived),
            34 => Some(GameTag::Protected),
            35 => Some(GameTag::Protecting),
            36 => Some(GameTag::Defending),
            37 => Some(GameTag::ProposedDefender),
            38 => Some(GameTag::Attacking),
            39 => Some(GameTag::ProposedAttacker),
            40 => Some(GameTag::Attached),
            43 => Some(GameTag::Exhausted),
            44 => Some(GameTag::Damage),
            45 => Some(GameTag::Health),
            47 => Some(GameTag::Attack),
            48 => Some(GameTag::Cost),
            49 => Some(GameTag::Zone),
            50 => Some(GameTag::Controller),
            51 => Some(GameTag::Owner),
            52 => Some(GameTag::Definition),
            53 => Some(GameTag::EntityId),
            54 => Some(GameTag::HistoryProxy),
            55 => Some(GameTag::CopyDeathrattle),
            56 => Some(GameTag::CopyDeathrattleIndex),
            114 => Some(GameTag::Elite),
            176 => Some(GameTag::Maxresources),
            183 => Some(GameTag::CardSet),
            184 => Some(GameTag::CardtextInhand),
            185 => Some(GameTag::Cardname),
            186 => Some(GameTag::CardId),
            187 => Some(GameTag::Durability),
            188 => Some(GameTag::Silenced),
            189 => Some(GameTag::Windfury),
            190 => Some(GameTag::Taunt),
            191 => Some(GameTag::Stealth),
            192 => Some(GameTag::Spellpower),
            194 => Some(GameTag::DivineShield),
            197 => Some(GameTag::Charge),
            198 => Some(GameTag::NextStep),
            199 => Some(GameTag::Class),
            200 => Some(GameTag::Cardrace),
            201 => Some(GameTag::Faction),
            202 => Some(GameTag::Cardtype),
            203 => Some(GameTag::Rarity),
            204 => Some(GameTag::State),
            205 => Some(GameTag::Summoned),
            208 => Some(GameTag::Freeze),
            212 => Some(GameTag::Enraged),
            215 => Some(GameTag::Overload),
            216 => Some(GameTag::Loyalty),
            217 => Some(GameTag::Deathrattle),
            218 => Some(GameTag::Battlecry),
            219 => Some(GameTag::Secret),
            220 => Some(GameTag::Combo),
            221 => Some(GameTag::CantHeal),
            222 => Some(GameTag::CantDamage),
            223 => Some(GameTag::CantSetAside),
            224 => Some(GameTag::CantRemoveFromGame),
            225 => Some(GameTag::CantReady),
            226 => Some(GameTag::CantExhaust),
            227 => Some(GameTag::CantAttack),
            228 => Some(GameTag::CantTarget),
            229 => Some(GameTag::CantDestroy),
            230 => Some(GameTag::CantDiscard),
            231 => Some(GameTag::CantPlay),
            232 => Some(GameTag::CantDraw),
            233 => Some(GameTag::IncomingHealingMultiplier),
            234 => Some(GameTag::IncomingHealingAdjustment),
            235 => Some(GameTag::IncomingHealingCap),
            236 => Some(GameTag::IncomingDamageMultiplier),
            237 => Some(GameTag::IncomingDamageAdjustment),
            238 => Some(GameTag::IncomingDamageCap),
            239 => Some(GameTag::CantBeHealed),
            240 => Some(GameTag::CantBeDamaged),
            241 => Some(GameTag::CantBeSetAside),
            242 => Some(GameTag::CantBeRemovedFromGame),
            243 => Some(GameTag::CantBeReadied),
            244 => Some(GameTag::CantBeExhausted),
            245 => Some(GameTag::CantBeAttacked),
            246 => Some(GameTag::CantBeTargeted),
            247 => Some(GameTag::CantBeDestroyed),
            251 => Some(GameTag::AttackVisualType),
            252 => Some(GameTag::CardTextInPlay),
            253 => Some(GameTag::CantBeSummoningSick),
            260 => Some(GameTag::Frozen),
            261 => Some(GameTag::JustPlayed),
            262 => Some(GameTag::LinkedEntity),
            263 => Some(GameTag::ZonePosition),
            264 => Some(GameTag::CantBeFrozen),
            266 => Some(GameTag::ComboActive),
            267 => Some(GameTag::CardTarget),
            268 => Some(GameTag::DevState),
            269 => Some(GameTag::NumCardsPlayedThisTurn),
            270 => Some(GameTag::CantBeTargetedByOpponents),
            271 => Some(GameTag::NumTurnsInPlay),
            272 => Some(GameTag::NumTurnsLeft),
            273 => Some(GameTag::OutgoingDamageCap),
            274 => Some(GameTag::OutgoingDamageAdjustment),
            275 => Some(GameTag::OutgoingDamageMultiplier),
            276 => Some(GameTag::OutgoingHealingCap),
            277 => Some(GameTag::OutgoingHealingAdjustment),
            278 => Some(GameTag::OutgoingHealingMultiplier),
            279 => Some(GameTag::IncomingAbilityDamageAdjustment),
            280 => Some(GameTag::IncomingCombatDamageAdjustment),
            281 => Some(GameTag::OutgoingAbilityDamageAdjustment),
            282 => Some(GameTag::OutgoingCombatDamageAdjustment),
            283 => Some(GameTag::OutgoingAbilityDamageMultiplier),
            284 => Some(GameTag::OutgoingAbilityDamageCap),
            285 => Some(GameTag::IncomingAbilityDamageMultiplier),
            286 => Some(GameTag::IncomingAbilityDamageCap),
            287 => Some(GameTag::OutgoingCombatDamageMultiplier),
            288 => Some(GameTag::OutgoingCombatDamageCap),
            289 => Some(GameTag::IncomingCombatDamageMultiplier),
            290 => Some(GameTag::IncomingCombatDamageCap),
            291 => Some(GameTag::CurrentSpellpower),
            292 => Some(GameTag::Armor),
            293 => Some(GameTag::Morph),
            294 => Some(GameTag::IsMorphed),
            295 => Some(GameTag::TempResources),
            296 => Some(GameTag::OverloadOwed),
            297 => Some(GameTag::NumAttacksThisTurn),
            302 => Some(GameTag::NextAllyBuff),
            303 => Some(GameTag::Magnet),
            304 => Some(GameTag::FirstCardPlayedThisTurn),
            305 => Some(GameTag::MulliganState),
            306 => Some(GameTag::TauntReady),
            307 => Some(GameTag::StealthReady),
            308 => Some(GameTag::ChargeReady),
            311 => Some(GameTag::CantBeTargetedBySpells),
            312 => Some(GameTag::ShouldExitCombat),
            313 => Some(GameTag::Creator),
            314 => Some(GameTag::CantBeSilenced),
            316 => Some(GameTag::ParentCard),
            317 => Some(GameTag::NumMinionsPlayedThisTurn),
            318 => Some(GameTag::Predamage),
            321 => Some(GameTag::Collectible),
            325 => Some(GameTag::TargetingArrowText),
            330 => Some(GameTag::EnchantmentBirthVisual),
            331 => Some(GameTag::EnchantmentIdleVisual),
            332 => Some(GameTag::CantBeTargetedByHeroPowers),
            335 => Some(GameTag::InvisibleDeathrattle),
            337 => Some(GameTag::HealthMinimum),
            338 => Some(GameTag::TagOneTurnEffect),
            339 => Some(GameTag::Silence),
            340 => Some(GameTag::Counter),
            342 => Some(GameTag::ArtistName),
            344 => Some(GameTag::LocalizationNotes),
            348 => Some(GameTag::HandRevealed),
            349 => Some(GameTag::ImmuneToSpellpower),
            350 => Some(GameTag::AdjacentBuff),
            351 => Some(GameTag::FlavorText),
            352 => Some(GameTag::ForcedPlay),
            353 => Some(GameTag::LowHealthThreshold),
            354 => Some(GameTag::IgnoreDamageOff),
            355 => Some(GameTag::GrantCharge),
            356 => Some(GameTag::SpellpowerDouble),
            357 => Some(GameTag::HealingDouble),
            358 => Some(GameTag::NumOptionsPlayedThisTurn),
            359 => Some(GameTag::NumOptions),
            360 => Some(GameTag::ToBeDestroyed),
            361 => Some(GameTag::HealTarget),
            362 => Some(GameTag::Aura),
            363 => Some(GameTag::Poisonous),
            364 => Some(GameTag::HowToEarn),
            365 => Some(GameTag::HowToEarnGolden),
            366 => Some(GameTag::HeroPowerDouble),
            367 => Some(GameTag::AiMustPlay),
            368 => Some(GameTag::NumMinionsPlayerKilledThisTurn),
            369 => Some(GameTag::NumMinionsKilledThisTurn),
            370 => Some(GameTag::AffectedBySpellPower),
            371 => Some(GameTag::ExtraDeathrattles),
            372 => Some(GameTag::StartWith1Health),
            373 => Some(GameTag::ImmuneWhileAttacking),
            374 => Some(GameTag::MultiplyHeroDamage),
            375 => Some(GameTag::MultiplyBuffValue),
            376 => Some(GameTag::CustomKeywordEffect),
            377 => Some(GameTag::Topdeck),
            379 => Some(GameTag::CantBeTargetedByBattlecries),
            380 => Some(GameTag::HeroPower),
            382 => Some(GameTag::DeathrattleReturnZone),
            383 => Some(GameTag::SteadyShotCanTarget),
            385 => Some(GameTag::DisplayedCreator),
            386 => Some(GameTag::PoweredUp),
            388 => Some(GameTag::SparePart),
            389 => Some(GameTag::Forgetful),
            390 => Some(GameTag::CanSummonMaxplusoneMinion),
            391 => Some(GameTag::Obfuscated),
            392 => Some(GameTag::Burning),
            393 => Some(GameTag::OverloadLocked),
            394 => Some(GameTag::NumTimesHeroPowerUsedThisGame),
            395 => Some(GameTag::CurrentHeropowerDamageBonus),
            396 => Some(GameTag::HeropowerDamage),
            397 => Some(GameTag::LastCardPlayed),
            398 => Some(GameTag::NumFriendlyMinionsThatDiedThisTurn),
            399 => Some(GameTag::NumCardsDrawnThisTurn),
            400 => Some(GameTag::AiOneShotKill),
            401 => Some(GameTag::EvilGlow),
            402 => Some(GameTag::HideStats),
            403 => Some(GameTag::Inspire),
            404 => Some(GameTag::ReceivesDoubleSpelldamageBonus),
            405 => Some(GameTag::HeropowerAdditionalActivations),
            406 => Some(GameTag::HeropowerActivationsThisTurn),
            410 => Some(GameTag::Revealed),
            412 => Some(GameTag::NumFriendlyMinionsThatDiedThisGame),
            413 => Some(GameTag::CannotAttackHeroes),
            414 => Some(GameTag::LockAndLoad),
            415 => Some(GameTag::Discover),
            416 => Some(GameTag::Shadowform),
            417 => Some(GameTag::NumFriendlyMinionsThatAttackedThisTurn),
            418 => Some(GameTag::NumResourcesSpentThisGame),
            419 => Some(GameTag::ChooseBoth),
            420 => Some(GameTag::ElectricChargeLevel),
            421 => Some(GameTag::HeavilyArmored),
            422 => Some(GameTag::DontShowImmune),
            424 => Some(GameTag::Ritual),
            425 => Some(GameTag::Prehealing),
            426 => Some(GameTag::AppearFunctionallyDead),
            427 => Some(GameTag::OverloadThisGame),
            431 => Some(GameTag::SpellsCostHealth),
            432 => Some(GameTag::HistoryProxyNoBigCard),
            434 => Some(GameTag::ProxyCthun),
            435 => Some(GameTag::TransformedFromCard),
            436 => Some(GameTag::Cthun),
            437 => Some(GameTag::CastRandomSpells),
            438 => Some(GameTag::Shifting),
            441 => Some(GameTag::JadeGolem),
            442 => Some(GameTag::EmbraceTheShadow),
            443 => Some(GameTag::ChooseOne),
            444 => Some(GameTag::ExtraAttacksThisTurn),
            445 => Some(GameTag::SeenCthun),
            447 => Some(GameTag::MinionTypeReference),
            448 => Some(GameTag::Untouchable),
            449 => Some(GameTag::RedManaCrystals),
            450 => Some(GameTag::ScoreLabelid1),
            451 => Some(GameTag::ScoreValue1),
            452 => Some(GameTag::ScoreLabelid2),
            453 => Some(GameTag::ScoreValue2),
            454 => Some(GameTag::ScoreLabelid3),
            455 => Some(GameTag::ScoreValue3),
            456 => Some(GameTag::CantBeFatigued),
            457 => Some(GameTag::AutoAttack),
            458 => Some(GameTag::ArmsDealing),
            461 => Some(GameTag::PendingEvolutions),
            462 => Some(GameTag::Quest),
            466 => Some(GameTag::TagLastKnownCostInHand),
            469 => Some(GameTag::DefiningEnchantment),
            470 => Some(GameTag::FinishAttackSpellOnDamage),
            476 => Some(GameTag::MultipleClasses),
            477 => Some(GameTag::AllTargetsRandom),
            480 => Some(GameTag::MultiClassGroup),
            481 => Some(GameTag::CardCostsHealth),
            482 => Some(GameTag::GrimyGoons),
            483 => Some(GameTag::JadeLotus),
            484 => Some(GameTag::Kabal),
            515 => Some(GameTag::AdditionalPlayReqs1),
            516 => Some(GameTag::AdditionalPlayReqs2),
            532 => Some(GameTag::ElementalPoweredUp),
            534 => Some(GameTag::QuestProgress),
            535 => Some(GameTag::QuestProgressTotal),
            541 => Some(GameTag::QuestContributor),
            546 => Some(GameTag::Adapt),
            547 => Some(GameTag::IsCurrentTurnAnExtraTurn),
            548 => Some(GameTag::ExtraTurnsTakenThisGame),
            _ => None,
        };
        proof {
            Self::lemma_lookup(code, r);
        }
        r
    }
}

impl Key for GameTag {
    type Id = GameTag;

    open spec fn id(&self) -> GameTag {
        *self
    }

    fn same(&self, other: &Self) -> (b: bool) {
        *self == *other
    }
}

/// A kind of play requirement: a condition on when or how a power may be
/// used.
#[derive(Clone, Copy, Debug, PartialEq, Eq, Hash, Structural)]
pub enum PlayReq {
    MinionTarget,
    FriendlyTarget,
    EnemyTarget,
    DamagedTarget,
    MaxSecrets,
    FrozenTarget,
    ChargeTarget,
    TargetMaxAttack,
    NonselfTarget,
    TargetWithRace,
    TargetToPlay,
    NumMinionSlots,
    WeaponEquipped,
    EnoughMana,
    YourTurn,
    NonstealthEnemyTarget,
    HeroTarget,
    SecretZoneCap,
    MinionCapIfTargetAvailable,
    MinionCap,
    TargetAttackedThisTurn,
    TargetIfAvailable,
    MinimumEnemyMinions,
    TargetForCombo,
    NotExhaustedActivate,
    UniqueSecretOrQuest,
    TargetTaunter,
    CanBeAttacked,
    ActionPwrIsMasterPwr,
    TargetMagnet,
    AttackGreaterThan0,
    AttackerNotFrozen,
    HeroOrMinionTarget,
    CanBeTargetedBySpells,
    SubcardIsPlayable,
    TargetForNoCombo,
    NotMinionJustPlayed,
    NotExhaustedHeroPower,
    CanBeTargetedByOpponents,
    AttackerCanAttack,
    TargetMinAttack,
    CanBeTargetedByHeroPowers,
    EnemyTargetNotImmune,
    EntireEntourageNotInPlay,
    MinimumTotalMinions,
    MustTargetTaunter,
    UndamagedTarget,
    CanBeTargetedByBattlecries,
    SteadyShot,
    MinionOrEnemyHero,
    TargetIfAvailableAndDragonInHand,
    LegendaryTarget,
    FriendlyMinionDiedThisTurn,
    FriendlyMinionDiedThisGame,
    EnemyWeaponEquipped,
    TargetIfAvailableAndMinimumFriendlyMinions,
    TargetWithBattlecry,
    TargetWithDeathrattle,
    TargetIfAvailableAndMinimumFriendlySecrets,
    SecretZoneCapForNonSecret,
    TargetExactCost,
    StealthedTarget,
    MinionSlotOrManaCrystalSlot,
    MaxQuests,
    TargetIfAvailableAndElementalPlayedLastTurn,
    TargetNotVampire,
    TargetNotDamageableOnlyByWeapons,
    NotDisabledHeroPower,
    MustPlayOtherCardFirst,
    HandNotFull,
    DragToPlay,
}

impl PlayReq {
    /// The integer code that card data uses for this requirement.
    pub open spec fn spec_code(self) -> i32 {
        match self {
            PlayReq::MinionTarget => 1,
            PlayReq::FriendlyTarget => 2,
            PlayReq::EnemyTarget => 3,
            PlayReq::DamagedTarget => 4,
            PlayReq::MaxSecrets => 5,
            PlayReq::FrozenTarget => 6,
            PlayReq::ChargeTarget => 7,
            PlayReq::TargetMaxAttack => 8,
            PlayReq::NonselfTarget => 9,
            PlayReq::TargetWithRace => 10,
            PlayReq::TargetToPlay => 11,
            PlayReq::NumMinionSlots => 12,
            PlayReq::WeaponEquipped => 13,
            PlayReq::EnoughMana => 14,
            PlayReq::YourTurn => 15,
            PlayReq::NonstealthEnemyTarget => 16,
            PlayReq::HeroTarget => 17,
            PlayReq::SecretZoneCap => 18,
            PlayReq::MinionCapIfTargetAvailable => 19,
            PlayReq::MinionCap => 20,
            PlayReq::TargetAttackedThisTurn => 21,
            PlayReq::TargetIfAvailable => 22,
            PlayReq::MinimumEnemyMinions => 23,
            PlayReq::TargetForCombo => 24,
            PlayReq::NotExhaustedActivate => 25,
            PlayReq::UniqueSecretOrQuest => 26,
            PlayReq::TargetTaunter => 27,
            PlayReq::CanBeAttacked => 28,
            PlayReq::ActionPwrIsMasterPwr => 29,
            PlayReq::TargetMagnet => 30,
            PlayReq::AttackGreaterThan0 => 31,
            PlayReq::AttackerNotFrozen => 32,
            PlayReq::HeroOrMinionTarget => 33,
            PlayReq::CanBeTargetedBySpells => 34,
            PlayReq::SubcardIsPlayable => 35,
            PlayReq::TargetForNoCombo => 36,
            PlayReq::NotMinionJustPlayed => 37,
            PlayReq::NotExhaustedHeroPower => 38,
            PlayReq::CanBeTargetedByOpponents => 39,
            PlayReq::AttackerCanAttack => 40,
            PlayReq::TargetMinAttack => 41,
            PlayReq::CanBeTargetedByHeroPowers => 42,
            PlayReq::EnemyTargetNotImmune => 43,
            PlayReq::EntireEntourageNotInPlay => 44,
            PlayReq::MinimumTotalMinions => 45,
            PlayReq::MustTargetTaunter => 46,
            PlayReq::UndamagedTarget => 47,
            PlayReq::CanBeTargetedByBattlecries => 48,
            PlayReq::SteadyShot => 49,
            PlayReq::MinionOrEnemyHero => 50,
            PlayReq::TargetIfAvailableAndDragonInHand => 51,
            PlayReq::LegendaryTarget => 52,
            PlayReq::FriendlyMinionDiedThisTurn => 53,
            PlayReq::FriendlyMinionDiedThisGame => 54,
            PlayReq::EnemyWeaponEquipped => 55,
            PlayReq::TargetIfAvailableAndMinimumFriendlyMinions => 56,
            PlayReq::TargetWithBattlecry => 57,
            PlayReq::TargetWithDeathrattle => 58,
            PlayReq::TargetIfAvailableAndMinimumFriendlySecrets => 59,
            PlayReq::SecretZoneCapForNonSecret => 60,
            PlayReq::TargetExactCost => 61,
            PlayReq::StealthedTarget => 62,
            PlayReq::MinionSlotOrManaCrystalSlot => 63,
            PlayReq::MaxQuests => 64,
            PlayReq::TargetIfAvailableAndElementalPlayedLastTurn => 65,
            PlayReq::TargetNotVampire => 66,
            PlayReq::TargetNotDamageableOnlyByWeapons => 67,
            PlayReq::NotDisabledHeroPower => 68,
            PlayReq::MustPlayOtherCardFirst => 69,
            PlayReq::HandNotFull => 70,
            PlayReq::DragToPlay => 71,
        }
    }

    /// Whether `code` is the code of some requirement.
    pub open spec fn is_known(code: i32) -> bool {
        exists|t: PlayReq| #[trigger] t.spec_code() == code
    }

    /// The requirement whose code is `code`, if there is one.
    pub open spec fn spec_from_i32(code: i32) -> Option<PlayReq> {
        if Self::is_known(code) {
            Some(choose|t: PlayReq| #[trigger] t.spec_code() == code)
        } else {
            None
        }
    }

    /// No two requirements share a code.
    pub proof fn lemma_code_injective(a: PlayReq, b: PlayReq)
        requires
            a.spec_code() == b.spec_code(),
        ensures
            a == b,
    {
    }

    /// Looking up the code of a requirement gives that requirement back.
    pub proof fn lemma_from_code(t: PlayReq)
        ensures
            Self::spec_from_i32(t.spec_code()) == Some(t),
    {
        let found = choose|u: PlayReq| #[trigger] u.spec_code() == t.spec_code();
        Self::lemma_code_injective(found, t);
    }

    /// A lookup that succeeds gives a requirement with the code that was asked for.
    pub proof fn lemma_from_i32_code(code: i32)
        ensures
            Self::spec_from_i32(code) matches Some(t) ==> t.spec_code() == code,
    {
    }

    /// A requirement with the code asked for is what the lookup gives, and where no
    /// requirement has that code it gives `None`.
    pub proof fn lemma_lookup(code: i32, r: Option<PlayReq>)
        requires
            r matches Some(t) ==> t.spec_code() == code,
            r is None ==> forall|t: PlayReq| #[trigger] t.spec_code() != code,
        ensures
            r == Self::spec_from_i32(code),
    {
        if let Some(t) = r {
            Self::lemma_from_code(t);
        }
    }

    /// The integer code that card data uses for this requirement.
    #[verifier::when_used_as_spec(spec_code)]
    pub fn code(self) -> (c: i32)
        ensures
            c == self.spec_code(),
    {
        match self {
            PlayReq::MinionTarget => 1,
            PlayReq::FriendlyTarget => 2,
            PlayReq::EnemyTarget => 3,
            PlayReq::DamagedTarget => 4,
            PlayReq::MaxSecrets => 5,
            PlayReq::FrozenTarget => 6,
            PlayReq::ChargeTarget => 7,
            PlayReq::TargetMaxAttack => 8,
            PlayReq::NonselfTarget => 9,
            PlayReq::TargetWithRace => 10,
            PlayReq::TargetToPlay => 11,
            PlayReq::NumMinionSlots => 12,
            PlayReq::WeaponEquipped => 13,
            PlayReq::EnoughMana => 14,
            PlayReq::YourTurn => 15,
            PlayReq::NonstealthEnemyTarget => 16,
            PlayReq::HeroTarget => 17,
            PlayReq::SecretZoneCap => 18,
            PlayReq::MinionCapIfTargetAvailable => 19,
            PlayReq::MinionCap => 20,
            PlayReq::TargetAttackedThisTurn => 21,
            PlayReq::TargetIfAvailable => 22,
            PlayReq::MinimumEnemyMinions => 23,
            PlayReq::TargetForCombo => 24,
            PlayReq::NotExhaustedActivate => 25,
            PlayReq::UniqueSecretOrQuest => 26,
            PlayReq::TargetTaunter => 27,
            PlayReq::CanBeAttacked => 28,
            PlayReq::ActionPwrIsMasterPwr => 29,
            PlayReq::TargetMagnet => 30,
            PlayReq::AttackGreaterThan0 => 31,
            PlayReq::AttackerNotFrozen => 32,
            PlayReq::HeroOrMinionTarget => 33,
            PlayReq::CanBeTargetedBySpells => 34,
            PlayReq::SubcardIsPlayable => 35,
            PlayReq::TargetForNoCombo => 36,
            PlayReq::NotMinionJustPlayed => 37,
            PlayReq::NotExhaustedHeroPower => 38,
            PlayReq::CanBeTargetedByOpponents => 39,
            PlayReq::AttackerCanAttack => 40,
            PlayReq::TargetMinAttack => 41,
            PlayReq::CanBeTargetedByHeroPowers => 42,
            PlayReq::EnemyTargetNotImmune => 43,
            PlayReq::EntireEntourageNotInPlay => 44,
            PlayReq::MinimumTotalMinions => 45,
            PlayReq::MustTargetTaunter => 46,
            PlayReq::UndamagedTarget => 47,
            PlayReq::CanBeTargetedByBattlecries => 48,
            PlayReq::SteadyShot => 49,
            PlayReq::MinionOrEnemyHero => 50,
            PlayReq::TargetIfAvailableAndDragonInHand => 51,
            PlayReq::LegendaryTarget => 52,
            PlayReq::FriendlyMinionDiedThisTurn => 53,
            PlayReq::FriendlyMinionDiedThisGame => 54,
            PlayReq::EnemyWeaponEquipped => 55,
            PlayReq::TargetIfAvailableAndMinimumFriendlyMinions => 56,
            PlayReq::TargetWithBattlecry => 57,
            PlayReq::TargetWithDeathrattle => 58,
            PlayReq::TargetIfAvailableAndMinimumFriendlySecrets => 59,
            PlayReq::SecretZoneCapForNonSecret => 60,
            PlayReq::TargetExactCost => 61,
            PlayReq::StealthedTarget => 62,
            PlayReq::MinionSlotOrManaCrystalSlot => 63,
            PlayReq::MaxQuests => 64,
            PlayReq::TargetIfAvailableAndElementalPlayedLastTurn => 65,
            PlayReq::TargetNotVampire => 66,
            PlayReq::TargetNotDamageableOnlyByWeapons => 67,
            PlayReq::NotDisabledHeroPower => 68,
            PlayReq::MustPlayOtherCardFirst => 69,
            PlayReq::HandNotFull => 70,
            PlayReq::DragToPlay => 71,
        }
    }

    /// Looks a code up in the table: the requirement with that code, or `None`
    /// where the table has none.
    pub fn from_i32(code: i32) -> (r: Option<PlayReq>)
        ensures
            r == Self::spec_from_i32(code),
    {
        let r = match code {
            1 => Some(PlayReq::MinionTarget),
            2 => Some(PlayReq::FriendlyTarget),
            3 => Some(PlayReq::EnemyTarget),
            4 => Some(PlayReq::DamagedTarget),
            5 => Some(PlayReq::MaxSecrets),
            6 => Some(PlayReq::FrozenTarget),
            7 => Some(PlayReq::ChargeTarget),
            8 => Some(PlayReq::TargetMaxAttack),
            9 => Some(PlayReq::NonselfTarget),
            10 => Some(PlayReq::TargetWithRace),
            11 => Some(PlayReq::TargetToPlay),
            12 => Some(PlayReq::NumMinionSlots),
            13 => Some(PlayReq::WeaponEquipped),
            14 => Some(PlayReq::EnoughMana),
            15 => Some(PlayReq::YourTurn),
            16 => Some(PlayReq::NonstealthEnemyTarget),
            17 => Some(PlayReq::HeroTarget),
            18 => Some(PlayReq::SecretZoneCap),
            19 => Some(PlayReq::MinionCapIfTargetAvailable),
            20 => Some(PlayReq::MinionCap),
            21 => Some(PlayReq::TargetAttackedThisTurn),
            22 => Some(PlayReq::TargetIfAvailable),
            23 => Some(PlayReq::MinimumEnemyMinions),
            24 => Some(PlayReq::TargetForCombo),
            25 => Some(PlayReq::NotExhaustedActivate),
            26 => Some(PlayReq::UniqueSecretOrQuest),
            27 => Some(PlayReq::TargetTaunter),
            28 => Some(PlayReq::CanBeAttacked),
            29 => Some(PlayReq::ActionPwrIsMasterPwr),
            30 => Some(PlayReq::TargetMagnet),
            31 => Some(PlayReq::AttackGreaterThan0),
            32 => Some(PlayReq::AttackerNotFrozen),
            33 => Some(PlayReq::HeroOrMinionTarget),
            34 => Some(PlayReq::CanBeTargetedBySpells),
            35 => Some(PlayReq::SubcardIsPlayable),
            36 => Some(PlayReq::TargetForNoCombo),
            37 => Some(PlayReq::NotMinionJustPlayed),
            38 => Some(PlayReq::NotExhaustedHeroPower),
            39 => Some(PlayReq::CanBeTargetedByOpponents),
            40 => Some(PlayReq::AttackerCanAttack),
            41 => Some(PlayReq::TargetMinAttack),
            42 => Some(PlayReq::CanBeTargetedByHeroPowers),
            43 => Some(PlayReq::EnemyTargetNotImmune),
            44 => Some(PlayReq::EntireEntourageNotInPlay),
            45 => Some(PlayReq::MinimumTotalMinions),
            46 => Some(PlayReq::MustTargetTaunter),
            47 => Some(PlayReq::UndamagedTarget),
            48 => Some(PlayReq::CanBeTargetedByBattlecries),
            49 => Some(PlayReq::SteadyShot),
            50 => Some(PlayReq::MinionOrEnemyHero),
            51 => Some(PlayReq::TargetIfAvailableAndDragonInHand),
            52 => Some(PlayReq::LegendaryTarget),
            53 => Some(PlayReq::FriendlyMinionDiedThisTurn),
            54 => Some(PlayReq::FriendlyMinionDiedThisGame),
            55 => Some(PlayReq::EnemyWeaponEquipped),
            56 => Some(PlayReq::TargetIfAvailableAndMinimumFriendlyMinions),
            57 => Some(PlayReq::TargetWithBattlecry),
            58 => Some(PlayReq::TargetWithDeathrattle),
            59 => Some(PlayReq::TargetIfAvailableAndMinimumFriendlySecrets),
            60 => Some(PlayReq::SecretZoneCapForNonSecret),
            61 => Some(PlayReq::TargetExactCost),
            62 => Some(PlayReq::StealthedTarget),
            63 => Some(PlayReq::MinionSlotOrManaCrystalSlot),
            64 => Some(PlayReq::MaxQuests),
            65 => Some(PlayReq::TargetIfAvailableAndElementalPlayedLastTurn),
            66 => Some(PlayReq::TargetNotVampire),
            67 => Some(PlayReq::TargetNotDamageableOnlyByWeapons),
            68 => Some(PlayReq::NotDisabledHeroPower),
            69 => Some(PlayReq::MustPlayOtherCardFirst),
            70 => Some(PlayReq::HandNotFull),
            71 => Some(PlayReq::DragToPlay),
            _ => None,
        };
        proof {
            Self::lemma_lookup(code, r);
        }
        r
    }
}

impl Key for PlayReq {
    type Id = PlayReq;

    open spec fn id(&self) -> PlayReq {
        *self
    }

    fn same(&self, other: &Self) -> (b: bool) {
        *self == *other
    }
}

} // verus!
