//! The cards, in the order in which the game keeps them: for each
//! character the common, the uncommon and the rare ones, and the colorless
//! cards at the end.

pub mod pandoras_box;
pub mod pool;
pub mod reward;

use vstd::prelude::*;
use vstd::slice::slice_subrange;

verus! {

/// How rare a card is.
#[derive(Debug, PartialEq, Eq, Clone, Copy, Structural)]
pub enum Rarity {
    Common,
    Uncommon,
    Rare,
}

/// A card.
#[derive(Debug, PartialEq, Eq, Clone, Copy, Structural)]
pub enum Card {
    Invalid,
    // Ironclad
    // Common
    SwordBoomerang,
    PerfectedStrike,
    HeavyBlade,
    WildStrike,
    Headbutt,
    Havoc,
    Armaments,
    Clothesline,
    TwinStrike,
    PommelStrike,
    Thunderclap,
    Clash,
    ShrugItOff,
    TrueGrit,
    BodySlam,
    IronWave,
    Flex,
    Warcry,
    Cleave,
    Anger,
    // Uncommon
    Evolve,
    Uppercut,
    GhostlyArmor,
    FireBreathing,
    Dropkick,
    Carnage,
    Bloodletting,
    Rupture,
    SecondWind,
    SearingBlow,
    BattleTrance,
    Sentinel,
    Entrench,
    Rage,
    FeelNoPain,
    Disarm,
    SeeingRed,
    DarkEmbrace,
    Combust,
    Whirlwind,
    SeverSoul,
    Rampage,
    Shockwave,
    Metallicize,
    BurningPact,
    Pummel,
    FlameBarrier,
    BloodForBlood,
    Intimidate,
    Hemokinesis,
    RecklessCharge,
    InfernalBlade,
    DualWield,
    PowerThrough,
    Inflame,
    SpotWeakness,
    // Rare
    DoubleTap,
    DemonForm,
    Bludgeon,
    Feed,
    LimitBreak,
    Corruption,
    Barricade,
    FiendFire,
    Berserk,
    Impervious,
    Juggernaut,
    Brutality,
    Reaper,
    Exhume,
    Offering,
    Immolate,
    // Silent
    // Common
    FlyingKnee,
    DodgeAndRoll,
    SuckerPunch,
    PiercingWail,
    Prepared,
    Outmaneuver,
    Backflip,
    Slice,
    QuickSlash,
    Acrobatics,
    PoisonedStab,
    DaggerThrow,
    Deflect,
    BladeDance,
    Bane,
    DaggerSpray,
    DeadlyPoison,
    SneakyStrike,
    CloakAndDagger,
    // Uncommon
    Predator,
    AllOutAttack,
    Distraction,
    Footwork,
    Accuracy,
    MasterfulStab,
    Flechettes,
    Concentrate,
    BouncingFlask,
    Backstab,
    Dash,
    Eviscerate,
    Reflex,
    InfiniteBlades,
    NoxiousFumes,
    HeelHook,
    Terror,
    WellLaidPlans,
    Finisher,
    EscapePlan,
    CalculatedGamble,
    Skewer,
    RiddleWithHoles,
    EndlessAgony,
    Setup,
    Blur,
    Caltrops,
    Choke,
    Expertise,
    Tactician,
    Catalyst,
    LegSweep,
    CripplingCloud,
    // Rare
    Alchemize,
    CorpseExplosion,
    Malaise,
    PhantasmalKiller,
    DieDieDie,
    Adrenaline,
    Envenom,
    Doppelganger,
    Burst,
    WraithForm,
    ToolsOfTheTrade,
    Nightmare,
    Unload,
    AfterImage,
    BulletTime,
    StormOfSteel,
    GlassKnife,
    AThousandCuts,
    GrandFinale,
    // Defect
    // Common
    SteamBarrier,
    ColdSnap,
    Leap,
    BeamCell,
    Hologram,
    ChargeBattery,
    SweepingBeam,
    Turbo,
    Coolheaded,
    Claw,
    Rebound,
    Stack,
    Barrage,
    CompileDriver,
    Recursion,
    Streamline,
    BallLightning,
    GoForTheEyes,
    // Uncommon
    DoomAndGloom,
    Defragment,
    Capacitor,
    WhiteNoise,
    Skim,
    Recycle,
    Scrape,
    Bullseye,
    Reprogram,
    AutoShields,
    ReinforcedBody,
    DoubleEnergy,
    Darkness,
    RipAndTear,
    Ftl,
    ForceField,
    Equilibrium,
    Tempest,
    Heatsinks,
    StaticDischarge,
    BootSequence,
    Chill,
    Loop,
    SelfRepair,
    Melter,
    Chaos,
    Blizzard,
    Aggregate,
    Fusion,
    Consume,
    Glacier,
    Sunder,
    HelloWorld,
    Overclock,
    GeneticAlgorithm,
    Storm,
    // Rare
    MultiCast,
    Hyperbeam,
    ThunderStrike,
    BiasedCognition,
    MachineLearning,
    Electrodynamics,
    Buffer,
    Rainbow,
    Seek,
    MeteorStrike,
    EchoForm,
    AllForOne,
    Reboot,
    Amplify,
    CreativeAi,
    Fission,
    CoreSurge,
    // Watcher
    // Common
    EmptyFist,
    Prostrate,
    Evaluate,
    CrushJoints,
    PressurePoints,
    FollowUp,
    CutThroughFate,
    SashWhip,
    EmptyBody,
    Tranquility,
    Crescendo,
    ThirdEye,
    Protect,
    FlurryOfBlows,
    JustLucky,
    Halt,
    FlyingSleeves,
    BowlingBash,
    Consecrate,
    // Uncommon
    Pray,
    SignatureMove,
    Weave,
    EmptyMind,
    Nirvana,
    Tantrum,
    Conclude,
    Worship,
    Swivel,
    Perseverance,
    Meditate,
    Study,
    WaveOfTheHand,
    SandsOfTime,
    FearNoEvil,
    ReachHeaven,
    MentalFortress,
    DeceiveReality,
    Rushdown,
    InnerPeace,
    Collect,
    WreathOfFlame,
    Wallop,
    CarveReality,
    Fasting,
    LikeWater,
    ForeignInfluence,
    WindmillStrike,
    Indignation,
    BattleHymn,
    TalkToTheHand,
    Sanctity,
    Foresight,
    SimmeringFury,
    WheelKick,
    // Rare
    Judgment,
    ConjureBlade,
    MasterReality,
    Brilliance,
    Devotion,
    Blasphemy,
    Ragnarok,
    LessonLearned,
    Scrawl,
    Vault,
    Alpha,
    Wish,
    Omniscience,
    Establishment,
    SpiritShield,
    DevaForm,
    DeusExMachina,
    // Colorless
    // Uncommon
    BandageUp,
    Blind,
    DarkShackles,
    DeepBreath,
    Discovery,
    DramaticEntrance,
    Enlightenment,
    Finesse,
    FlashOfSteel,
    Forethought,
    GoodInstincts,
    Impatience,
    JackOfAllTrades,
    Madness,
    MindBlast,
    Panacea,
    PanicButton,
    Purity,
    SwiftStrike,
    Trip,
    // Rare
    Apotheosis,
    Chrysalis,
    HandOfGreed,
    Magnetism,
    MasterOfStrategy,
    Mayhem,
    Metamorphosis,
    Panache,
    SadisticNature,
    SecretTechnique,
    SecretWeapon,
    TheBomb,
    ThinkingAhead,
    Transmutation,
    Violence,
}

impl Default for Card {
    fn default() -> (card: Self)
        ensures
            card == Card::Invalid,
    {
        Card::Invalid
    }
}

/// Number of cards, the invalid card counted.
pub const CARD_COUNT: usize = 321;

/// Every card, by index.
pub const CARDS: [Card; 321] = [
    Card::Invalid, Card::SwordBoomerang, Card::PerfectedStrike, Card::HeavyBlade,
    Card::WildStrike, Card::Headbutt, Card::Havoc, Card::Armaments,
    Card::Clothesline, Card::TwinStrike, Card::PommelStrike, Card::Thunderclap,
    Card::Clash, Card::ShrugItOff, Card::TrueGrit, Card::BodySlam,
    Card::IronWave, Card::Flex, Card::Warcry, Card::Cleave,
    Card::Anger, Card::Evolve, Card::Uppercut, Card::GhostlyArmor,
    Card::FireBreathing, Card::Dropkick, Card::Carnage, Card::Bloodletting,
    Card::Rupture, Card::SecondWind, Card::SearingBlow, Card::BattleTrance,
    Card::Sentinel, Card::Entrench, Card::Rage, Card::FeelNoPain,
    Card::Disarm, Card::SeeingRed, Card::DarkEmbrace, Card::Combust,
    Card::Whirlwind, Card::SeverSoul, Card::Rampage, Card::Shockwave,
    Card::Metallicize, Card::BurningPact, Card::Pummel, Card::FlameBarrier,
    Card::BloodForBlood, Card::Intimidate, Card::Hemokinesis, Card::RecklessCharge,
    Card::InfernalBlade, Card::DualWield, Card::PowerThrough, Card::Inflame,
    Card::SpotWeakness, Card::DoubleTap, Card::DemonForm, Card::Bludgeon,
    Card::Feed, Card::LimitBreak, Card::Corruption, Card::Barricade,
    Card::FiendFire, Card::Berserk, Card::Impervious, Card::Juggernaut,
    Card::Brutality, Card::Reaper, Card::Exhume, Card::Offering,
    Card::Immolate, Card::FlyingKnee, Card::DodgeAndRoll, Card::SuckerPunch,
    Card::PiercingWail, Card::Prepared, Card::Outmaneuver, Card::Backflip,
    Card::Slice, Card::QuickSlash, Card::Acrobatics, Card::PoisonedStab,
    Card::DaggerThrow, Card::Deflect, Card::BladeDance, Card::Bane,
    Card::DaggerSpray, Card::DeadlyPoison, Card::SneakyStrike, Card::CloakAndDagger,
    Card::Predator, Card::AllOutAttack, Card::Distraction, Card::Footwork,
    Card::Accuracy, Card::MasterfulStab, Card::Flechettes, Card::Concentrate,
    Card::BouncingFlask, Card::Backstab, Card::Dash, Card::Eviscerate,
    Card::Reflex, Card::InfiniteBlades, Card::NoxiousFumes, Card::HeelHook,
    Card::Terror, Card::WellLaidPlans, Card::Finisher, Card::EscapePlan,
    Card::CalculatedGamble, Card::Skewer, Card::RiddleWithHoles, Card::EndlessAgony,
    Card::Setup, Card::Blur, Card::Caltrops, Card::Choke,
    Card::Expertise, Card::Tactician, Card::Catalyst, Card::LegSweep,
    Card::CripplingCloud, Card::Alchemize, Card::CorpseExplosion, Card::Malaise,
    Card::PhantasmalKiller, Card::DieDieDie, Card::Adrenaline, Card::Envenom,
    Card::Doppelganger, Card::Burst, Card::WraithForm, Card::ToolsOfTheTrade,
    Card::Nightmare, Card::Unload, Card::AfterImage, Card::BulletTime,
    Card::StormOfSteel, Card::GlassKnife, Card::AThousandCuts, Card::GrandFinale,
    Card::SteamBarrier, Card::ColdSnap, Card::Leap, Card::BeamCell,
    Card::Hologram, Card::ChargeBattery, Card::SweepingBeam, Card::Turbo,
    Card::Coolheaded, Card::Claw, Card::Rebound, Card::Stack,
    Card::Barrage, Card::CompileDriver, Card::Recursion, Card::Streamline,
    Card::BallLightning, Card::GoForTheEyes, Card::DoomAndGloom, Card::Defragment,
    Card::Capacitor, Card::WhiteNoise, Card::Skim, Card::Recycle,
    Card::Scrape, Card::Bullseye, Card::Reprogram, Card::AutoShields,
    Card::ReinforcedBody, Card::DoubleEnergy, Card::Darkness, Card::RipAndTear,
    Card::Ftl, Card::ForceField, Card::Equilibrium, Card::Tempest,
    Card::Heatsinks, Card::StaticDischarge, Card::BootSequence, Card::Chill,
    Card::Loop, Card::SelfRepair, Card::Melter, Card::Chaos,
    Card::Blizzard, Card::Aggregate, Card::Fusion, Card::Consume,
    Card::Glacier, Card::Sunder, Card::HelloWorld, Card::Overclock,
    Card::GeneticAlgorithm, Card::Storm, Card::MultiCast, Card::Hyperbeam,
    Card::ThunderStrike, Card::BiasedCognition, Card::MachineLearning, Card::Electrodynamics,
    Card::Buffer, Card::Rainbow, Card::Seek, Card::MeteorStrike,
    Card::EchoForm, Card::AllForOne, Card::Reboot, Card::Amplify,
    Card::CreativeAi, Card::Fission, Card::CoreSurge, Card::EmptyFist,
    Card::Prostrate, Card::Evaluate, Card::CrushJoints, Card::PressurePoints,
    Card::FollowUp, Card::CutThroughFate, Card::SashWhip, Card::EmptyBody,
    Card::Tranquility, Card::Crescendo, Card::ThirdEye, Card::Protect,
    Card::FlurryOfBlows, Card::JustLucky, Card::Halt, Card::FlyingSleeves,
    Card::BowlingBash, Card::Consecrate, Card::Pray, Card::SignatureMove,
    Card::Weave, Card::EmptyMind, Card::Nirvana, Card::Tantrum,
    Card::Conclude, Card::Worship, Card::Swivel, Card::Perseverance,
    Card::Meditate, Card::Study, Card::WaveOfTheHand, Card::SandsOfTime,
    Card::FearNoEvil, Card::ReachHeaven, Card::MentalFortress, Card::DeceiveReality,
    Card::Rushdown, Card::InnerPeace, Card::Collect, Card::WreathOfFlame,
    Card::Wallop, Card::CarveReality, Card::Fasting, Card::LikeWater,
    Card::ForeignInfluence, Card::WindmillStrike, Card::Indignation, Card::BattleHymn,
    Card::TalkToTheHand, Card::Sanctity, Card::Foresight, Card::SimmeringFury,
    Card::WheelKick, Card::Judgment, Card::ConjureBlade, Card::MasterReality,
    Card::Brilliance, Card::Devotion, Card::Blasphemy, Card::Ragnarok,
    Card::LessonLearned, Card::Scrawl, Card::Vault, Card::Alpha,
    Card::Wish, Card::Omniscience, Card::Establishment, Card::SpiritShield,
    Card::DevaForm, Card::DeusExMachina, Card::BandageUp, Card::Blind,
    Card::DarkShackles, Card::DeepBreath, Card::Discovery, Card::DramaticEntrance,
    Card::Enlightenment, Card::Finesse, Card::FlashOfSteel, Card::Forethought,
    Card::GoodInstincts, Card::Impatience, Card::JackOfAllTrades, Card::Madness,
    Card::MindBlast, Card::Panacea, Card::PanicButton, Card::Purity,
    Card::SwiftStrike, Card::Trip, Card::Apotheosis, Card::Chrysalis,
    Card::HandOfGreed, Card::Magnetism, Card::MasterOfStrategy, Card::Mayhem,
    Card::Metamorphosis, Card::Panache, Card::SadisticNature, Card::SecretTechnique,
    Card::SecretWeapon, Card::TheBomb, Card::ThinkingAhead, Card::Transmutation,
    Card::Violence,
];

/// Every card, the last one first.
pub const REV_CARDS: [Card; 321] = [
    Card::Violence, Card::Transmutation, Card::ThinkingAhead, Card::TheBomb,
    Card::SecretWeapon, Card::SecretTechnique, Card::SadisticNature, Card::Panache,
    Card::Metamorphosis, Card::Mayhem, Card::MasterOfStrategy, Card::Magnetism,
    Card::HandOfGreed, Card::Chrysalis, Card::Apotheosis, Card::Trip,
    Card::SwiftStrike, Card::Purity, Card::PanicButton, Card::Panacea,
    Card::MindBlast, Card::Madness, Card::JackOfAllTrades, Card::Impatience,
    Card::GoodInstincts, Card::Forethought, Card::FlashOfSteel, Card::Finesse,
    Card::Enlightenment, Card::DramaticEntrance, Card::Discovery, Card::DeepBreath,
    Card::DarkShackles, Card::Blind, Card::BandageUp, Card::DeusExMachina,
    Card::DevaForm, Card::SpiritShield, Card::Establishment, Card::Omniscience,
    Card::Wish, Card::Alpha, Card::Vault, Card::Scrawl,
    Card::LessonLearned, Card::Ragnarok, Card::Blasphemy, Card::Devotion,
    Card::Brilliance, Card::MasterReality, Card::ConjureBlade, Card::Judgment,
    Card::WheelKick, Card::SimmeringFury, Card::Foresight, Card::Sanctity,
    Card::TalkToTheHand, Card::BattleHymn, Card::Indignation, Card::WindmillStrike,
    Card::ForeignInfluence, Card::LikeWater, Card::Fasting, Card::CarveReality,
    Card::Wallop, Card::WreathOfFlame, Card::Collect, Card::InnerPeace,
    Card::Rushdown, Card::DeceiveReality, Card::MentalFortress, Card::ReachHeaven,
    Card::FearNoEvil, Card::SandsOfTime, Card::WaveOfTheHand, Card::Study,
    Card::Meditate, Card::Perseverance, Card::Swivel, Card::Worship,
    Card::Conclude, Card::Tantrum, Card::Nirvana, Card::EmptyMind,
    Card::Weave, Card::SignatureMove, Card::Pray, Card::Consecrate,
    Card::BowlingBash, Card::FlyingSleeves, Card::Halt, Card::JustLucky,
    Card::FlurryOfBlows, Card::Protect, Card::ThirdEye, Card::Crescendo,
    Card::Tranquility, Card::EmptyBody, Card::SashWhip, Card::CutThroughFate,
    Card::FollowUp, Card::PressurePoints, Card::CrushJoints, Card::Evaluate,
    Card::Prostrate, Card::EmptyFist, Card::CoreSurge, Card::Fission,
    Card::CreativeAi, Card::Amplify, Card::Reboot, Card::AllForOne,
    Card::EchoForm, Card::MeteorStrike, Card::Seek, Card::Rainbow,
    Card::Buffer, Card::Electrodynamics, Card::MachineLearning, Card::BiasedCognition,
    Card::ThunderStrike, Card::Hyperbeam, Card::MultiCast, Card::Storm,
    Card::GeneticAlgorithm, Card::Overclock, Card::HelloWorld, Card::Sunder,
    Card::Glacier, Card::Consume, Card::Fusion, Card::Aggregate,
    Card::Blizzard, Card::Chaos, Card::Melter, Card::SelfRepair,
    Card::Loop, Card::Chill, Card::BootSequence, Card::StaticDischarge,
    Card::Heatsinks, Card::Tempest, Card::Equilibrium, Card::ForceField,
    Card::Ftl, Card::RipAndTear, Card::Darkness, Card::DoubleEnergy,
    Card::ReinforcedBody, Card::AutoShields, Card::Reprogram, Card::Bullseye,
    Card::Scrape, Card::Recycle, Card::Skim, Card::WhiteNoise,
    Card::Capacitor, Card::Defragment, Card::DoomAndGloom, Card::GoForTheEyes,
    Card::BallLightning, Card::Streamline, Card::Recursion, Card::CompileDriver,
    Card::Barrage, Card::Stack, Card::Rebound, Card::Claw,
    Card::Coolheaded, Card::Turbo, Card::SweepingBeam, Card::ChargeBattery,
    Card::Hologram, Card::BeamCell, Card::Leap, Card::ColdSnap,
    Card::SteamBarrier, Card::GrandFinale, Card::AThousandCuts, Card::GlassKnife,
    Card::StormOfSteel, Card::BulletTime, Card::AfterImage, Card::Unload,
    Card::Nightmare, Card::ToolsOfTheTrade, Card::WraithForm, Card::Burst,
    Card::Doppelganger, Card::Envenom, Card::Adrenaline, Card::DieDieDie,
    Card::PhantasmalKiller, Card::Malaise, Card::CorpseExplosion, Card::Alchemize,
    Card::CripplingCloud, Card::LegSweep, Card::Catalyst, Card::Tactician,
    Card::Expertise, Card::Choke, Card::Caltrops, Card::Blur,
    Card::Setup, Card::EndlessAgony, Card::RiddleWithHoles, Card::Skewer,
    Card::CalculatedGamble, Card::EscapePlan, Card::Finisher, Card::WellLaidPlans,
    Card::Terror, Card::HeelHook, Card::NoxiousFumes, Card::InfiniteBlades,
    Card::Reflex, Card::Eviscerate, Card::Dash, Card::Backstab,
    Card::BouncingFlask, Card::Concentrate, Card::Flechettes, Card::MasterfulStab,
    Card::Accuracy, Card::Footwork, Card::Distraction, Card::AllOutAttack,
    Card::Predator, Card::CloakAndDagger, Card::SneakyStrike, Card::DeadlyPoison,
    Card::DaggerSpray, Card::Bane, Card::BladeDance, Card::Deflect,
    Card::DaggerThrow, Card::PoisonedStab, Card::Acrobatics, Card::QuickSlash,
    Card::Slice, Card::Backflip, Card::Outmaneuver, Card::Prepared,
    Card::PiercingWail, Card::SuckerPunch, Card::DodgeAndRoll, Card::FlyingKnee,
    Card::Immolate, Card::Offering, Card::Exhume, Card::Reaper,
    Card::Brutality, Card::Juggernaut, Card::Impervious, Card::Berserk,
    Card::FiendFire, Card::Barricade, Card::Corruption, Card::LimitBreak,
    Card::Feed, Card::Bludgeon, Card::DemonForm, Card::DoubleTap,
    Card::SpotWeakness, Card::Inflame, Card::PowerThrough, Card::DualWield,
    Card::InfernalBlade, Card::RecklessCharge, Card::Hemokinesis, Card::Intimidate,
    Card::BloodForBlood, Card::FlameBarrier, Card::Pummel, Card::BurningPact,
    Card::Metallicize, Card::Shockwave, Card::Rampage, Card::SeverSoul,
    Card::Whirlwind, Card::Combust, Card::DarkEmbrace, Card::SeeingRed,
    Card::Disarm, Card::FeelNoPain, Card::Rage, Card::Entrench,
    Card::Sentinel, Card::BattleTrance, Card::SearingBlow, Card::SecondWind,
    Card::Rupture, Card::Bloodletting, Card::Carnage, Card::Dropkick,
    Card::FireBreathing, Card::GhostlyArmor, Card::Uppercut, Card::Evolve,
    Card::Anger, Card::Cleave, Card::Warcry, Card::Flex,
    Card::IronWave, Card::BodySlam, Card::TrueGrit, Card::ShrugItOff,
    Card::Clash, Card::Thunderclap, Card::PommelStrike, Card::TwinStrike,
    Card::Clothesline, Card::Armaments, Card::Havoc, Card::Headbutt,
    Card::WildStrike, Card::HeavyBlade, Card::PerfectedStrike, Card::SwordBoomerang,
    Card::Invalid,
];

/// The index of a card.
pub open spec fn card_index(card: Card) -> int {
    match card {
        Card::Invalid => 0,
        Card::SwordBoomerang => 1,
        Card::PerfectedStrike => 2,
        Card::HeavyBlade => 3,
        Card::WildStrike => 4,
        Card::Headbutt => 5,
        Card::Havoc => 6,
        Card::Armaments => 7,
        Card::Clothesline => 8,
        Card::TwinStrike => 9,
        Card::PommelStrike => 10,
        Card::Thunderclap => 11,
        Card::Clash => 12,
        Card::ShrugItOff => 13,
        Card::TrueGrit => 14,
        Card::BodySlam => 15,
        Card::IronWave => 16,
        Card::Flex => 17,
        Card::Warcry => 18,
        Card::Cleave => 19,
        Card::Anger => 20,
        Card::Evolve => 21,
        Card::Uppercut => 22,
        Card::GhostlyArmor => 23,
        Card::FireBreathing => 24,
        Card::Dropkick => 25,
        Card::Carnage => 26,
        Card::Bloodletting => 27,
        Card::Rupture => 28,
        Card::SecondWind => 29,
        Card::SearingBlow => 30,
        Card::BattleTrance => 31,
        Card::Sentinel => 32,
        Card::Entrench => 33,
        Card::Rage => 34,
        Card::FeelNoPain => 35,
        Card::Disarm => 36,
        Card::SeeingRed => 37,
        Card::DarkEmbrace => 38,
        Card::Combust => 39,
        Card::Whirlwind => 40,
        Card::SeverSoul => 41,
        Card::Rampage => 42,
        Card::Shockwave => 43,
        Card::Metallicize => 44,
        Card::BurningPact => 45,
        Card::Pummel => 46,
        Card::FlameBarrier => 47,
        Card::BloodForBlood => 48,
        Card::Intimidate => 49,
        Card::Hemokinesis => 50,
        Card::RecklessCharge => 51,
        Card::InfernalBlade => 52,
        Card::DualWield => 53,
        Card::PowerThrough => 54,
        Card::Inflame => 55,
        Card::SpotWeakness => 56,
        Card::DoubleTap => 57,
        Card::DemonForm => 58,
        Card::Bludgeon => 59,
        Card::Feed => 60,
        Card::LimitBreak => 61,
        Card::Corruption => 62,
        Card::Barricade => 63,
        Card::FiendFire => 64,
        Card::Berserk => 65,
        Card::Impervious => 66,
        Card::Juggernaut => 67,
        Card::Brutality => 68,
        Card::Reaper => 69,
        Card::Exhume => 70,
        Card::Offering => 71,
        Card::Immolate => 72,
        Card::FlyingKnee => 73,
        Card::DodgeAndRoll => 74,
        Card::SuckerPunch => 75,
        Card::PiercingWail => 76,
        Card::Prepared => 77,
        Card::Outmaneuver => 78,
        Card::Backflip => 79,
        Card::Slice => 80,
        Card::QuickSlash => 81,
        Card::Acrobatics => 82,
        Card::PoisonedStab => 83,
        Card::DaggerThrow => 84,
        Card::Deflect => 85,
        Card::BladeDance => 86,
        Card::Bane => 87,
        Card::DaggerSpray => 88,
        Card::DeadlyPoison => 89,
        Card::SneakyStrike => 90,
        Card::CloakAndDagger => 91,
        Card::Predator => 92,
        Card::AllOutAttack => 93,
        Card::Distraction => 94,
        Card::Footwork => 95,
        Card::Accuracy => 96,
        Card::MasterfulStab => 97,
        Card::Flechettes => 98,
        Card::Concentrate => 99,
        Card::BouncingFlask => 100,
        Card::Backstab => 101,
        Card::Dash => 102,
        Card::Eviscerate => 103,
        Card::Reflex => 104,
        Card::InfiniteBlades => 105,
        Card::NoxiousFumes => 106,
        Card::HeelHook => 107,
        Card::Terror => 108,
        Card::WellLaidPlans => 109,
        Card::Finisher => 110,
        Card::EscapePlan => 111,
        Card::CalculatedGamble => 112,
        Card::Skewer => 113,
        Card::RiddleWithHoles => 114,
        Card::EndlessAgony => 115,
        Card::Setup => 116,
        Card::Blur => 117,
        Card::Caltrops => 118,
        Card::Choke => 119,
        Card::Expertise => 120,
        Card::Tactician => 121,
        Card::Catalyst => 122,
        Card::LegSweep => 123,
        Card::CripplingCloud => 124,
        Card::Alchemize => 125,
        Card::CorpseExplosion => 126,
        Card::Malaise => 127,
        Card::PhantasmalKiller => 128,
        Card::DieDieDie => 129,
        Card::Adrenaline => 130,
        Card::Envenom => 131,
        Card::Doppelganger => 132,
        Card::Burst => 133,
        Card::WraithForm => 134,
        Card::ToolsOfTheTrade => 135,
        Card::Nightmare => 136,
        Card::Unload => 137,
        Card::AfterImage => 138,
        Card::BulletTime => 139,
        Card::StormOfSteel => 140,
        Card::GlassKnife => 141,
        Card::AThousandCuts => 142,
        Card::GrandFinale => 143,
        Card::SteamBarrier => 144,
        Card::ColdSnap => 145,
        Card::Leap => 146,
        Card::BeamCell => 147,
        Card::Hologram => 148,
        Card::ChargeBattery => 149,
        Card::SweepingBeam => 150,
        Card::Turbo => 151,
        Card::Coolheaded => 152,
        Card::Claw => 153,
        Card::Rebound => 154,
        Card::Stack => 155,
        Card::Barrage => 156,
        Card::CompileDriver => 157,
        Card::Recursion => 158,
        Card::Streamline => 159,
        Card::BallLightning => 160,
        Card::GoForTheEyes => 161,
        Card::DoomAndGloom => 162,
        Card::Defragment => 163,
        Card::Capacitor => 164,
        Card::WhiteNoise => 165,
        Card::Skim => 166,
        Card::Recycle => 167,
        Card::Scrape => 168,
        Card::Bullseye => 169,
        Card::Reprogram => 170,
        Card::AutoShields => 171,
        Card::ReinforcedBody => 172,
        Card::DoubleEnergy => 173,
        Card::Darkness => 174,
        Card::RipAndTear => 175,
        Card::Ftl => 176,
        Card::ForceField => 177,
        Card::Equilibrium => 178,
        Card::Tempest => 179,
        Card::Heatsinks => 180,
        Card::StaticDischarge => 181,
        Card::BootSequence => 182,
        Card::Chill => 183,
        Card::Loop => 184,
        Card::SelfRepair => 185,
        Card::Melter => 186,
        Card::Chaos => 187,
        Card::Blizzard => 188,
        Card::Aggregate => 189,
        Card::Fusion => 190,
        Card::Consume => 191,
        Card::Glacier => 192,
        Card::Sunder => 193,
        Card::HelloWorld => 194,
        Card::Overclock => 195,
        Card::GeneticAlgorithm => 196,
        Card::Storm => 197,
        Card::MultiCast => 198,
        Card::Hyperbeam => 199,
        Card::ThunderStrike => 200,
        Card::BiasedCognition => 201,
        Card::MachineLearning => 202,
        Card::Electrodynamics => 203,
        Card::Buffer => 204,
        Card::Rainbow => 205,
        Card::Seek => 206,
        Card::MeteorStrike => 207,
        Card::EchoForm => 208,
        Card::AllForOne => 209,
        Card::Reboot => 210,
        Card::Amplify => 211,
        Card::CreativeAi => 212,
        Card::Fission => 213,
        Card::CoreSurge => 214,
        Card::EmptyFist => 215,
        Card::Prostrate => 216,
        Card::Evaluate => 217,
        Card::CrushJoints => 218,
        Card::PressurePoints => 219,
        Card::FollowUp => 220,
        Card::CutThroughFate => 221,
        Card::SashWhip => 222,
        Card::EmptyBody => 223,
        Card::Tranquility => 224,
        Card::Crescendo => 225,
        Card::ThirdEye => 226,
        Card::Protect => 227,
        Card::FlurryOfBlows => 228,
        Card::JustLucky => 229,
        Card::Halt => 230,
        Card::FlyingSleeves => 231,
        Card::BowlingBash => 232,
        Card::Consecrate => 233,
        Card::Pray => 234,
        Card::SignatureMove => 235,
        Card::Weave => 236,
        Card::EmptyMind => 237,
        Card::Nirvana => 238,
        Card::Tantrum => 239,
        Card::Conclude => 240,
        Card::Worship => 241,
        Card::Swivel => 242,
        Card::Perseverance => 243,
        Card::Meditate => 244,
        Card::Study => 245,
        Card::WaveOfTheHand => 246,
        Card::SandsOfTime => 247,
        Card::FearNoEvil => 248,
        Card::ReachHeaven => 249,
        Card::MentalFortress => 250,
        Card::DeceiveReality => 251,
        Card::Rushdown => 252,
        Card::InnerPeace => 253,
        Card::Collect => 254,
        Card::WreathOfFlame => 255,
        Card::Wallop => 256,
        Card::CarveReality => 257,
        Card::Fasting => 258,
        Card::LikeWater => 259,
        Card::ForeignInfluence => 260,
        Card::WindmillStrike => 261,
        Card::Indignation => 262,
        Card::BattleHymn => 263,
        Card::TalkToTheHand => 264,
        Card::Sanctity => 265,
        Card::Foresight => 266,
        Card::SimmeringFury => 267,
        Card::WheelKick => 268,
        Card::Judgment => 269,
        Card::ConjureBlade => 270,
        Card::MasterReality => 271,
        Card::Brilliance => 272,
        Card::Devotion => 273,
        Card::Blasphemy => 274,
        Card::Ragnarok => 275,
        Card::LessonLearned => 276,
        Card::Scrawl => 277,
        Card::Vault => 278,
        Card::Alpha => 279,
        Card::Wish => 280,
        Card::Omniscience => 281,
        Card::Establishment => 282,
        Card::SpiritShield => 283,
        Card::DevaForm => 284,
        Card::DeusExMachina => 285,
        Card::BandageUp => 286,
        Card::Blind => 287,
        Card::DarkShackles => 288,
        Card::DeepBreath => 289,
        Card::Discovery => 290,
        Card::DramaticEntrance => 291,
        Card::Enlightenment => 292,
        Card::Finesse => 293,
        Card::FlashOfSteel => 294,
        Card::Forethought => 295,
        Card::GoodInstincts => 296,
        Card::Impatience => 297,
        Card::JackOfAllTrades => 298,
        Card::Madness => 299,
        Card::MindBlast => 300,
        Card::Panacea => 301,
        Card::PanicButton => 302,
        Card::Purity => 303,
        Card::SwiftStrike => 304,
        Card::Trip => 305,
        Card::Apotheosis => 306,
        Card::Chrysalis => 307,
        Card::HandOfGreed => 308,
        Card::Magnetism => 309,
        Card::MasterOfStrategy => 310,
        Card::Mayhem => 311,
        Card::Metamorphosis => 312,
        Card::Panache => 313,
        Card::SadisticNature => 314,
        Card::SecretTechnique => 315,
        Card::SecretWeapon => 316,
        Card::TheBomb => 317,
        Card::ThinkingAhead => 318,
        Card::Transmutation => 319,
        Card::Violence => 320,
    }
}

impl Card {
    /// The index of the card.
    pub fn index(self) -> (index: usize)
        ensures
            index == card_index(self),
            index < CARD_COUNT,
    {
        match self {
            Card::Invalid => 0,
            Card::SwordBoomerang => 1,
            Card::PerfectedStrike => 2,
            Card::HeavyBlade => 3,
            Card::WildStrike => 4,
            Card::Headbutt => 5,
            Card::Havoc => 6,
            Card::Armaments => 7,
            Card::Clothesline => 8,
            Card::TwinStrike => 9,
            Card::PommelStrike => 10,
            Card::Thunderclap => 11,
            Card::Clash => 12,
            Card::ShrugItOff => 13,
            Card::TrueGrit => 14,
            Card::BodySlam => 15,
            Card::IronWave => 16,
            Card::Flex => 17,
            Card::Warcry => 18,
            Card::Cleave => 19,
            Card::Anger => 20,
            Card::Evolve => 21,
            Card::Uppercut => 22,
            Card::GhostlyArmor => 23,
            Card::FireBreathing => 24,
            Card::Dropkick => 25,
            Card::Carnage => 26,
            Card::Bloodletting => 27,
            Card::Rupture => 28,
            Card::SecondWind => 29,
            Card::SearingBlow => 30,
            Card::BattleTrance => 31,
            Card::Sentinel => 32,
            Card::Entrench => 33,
            Card::Rage => 34,
            Card::FeelNoPain => 35,
            Card::Disarm => 36,
            Card::SeeingRed => 37,
            Card::DarkEmbrace => 38,
            Card::Combust => 39,
            Card::Whirlwind => 40,
            Card::SeverSoul => 41,
            Card::Rampage => 42,
            Card::Shockwave => 43,
            Card::Metallicize => 44,
            Card::BurningPact => 45,
            Card::Pummel => 46,
            Card::FlameBarrier => 47,
            Card::BloodForBlood => 48,
            Card::Intimidate => 49,
            Card::Hemokinesis => 50,
            Card::RecklessCharge => 51,
            Card::InfernalBlade => 52,
            Card::DualWield => 53,
            Card::PowerThrough => 54,
            Card::Inflame => 55,
            Card::SpotWeakness => 56,
            Card::DoubleTap => 57,
            Card::DemonForm => 58,
            Card::Bludgeon => 59,
            Card::Feed => 60,
            Card::LimitBreak => 61,
            Card::Corruption => 62,
            Card::Barricade => 63,
            Card::FiendFire => 64,
            Card::Berserk => 65,
            Card::Impervious => 66,
            Card::Juggernaut => 67,
            Card::Brutality => 68,
            Card::Reaper => 69,
            Card::Exhume => 70,
            Card::Offering => 71,
            Card::Immolate => 72,
            Card::FlyingKnee => 73,
            Card::DodgeAndRoll => 74,
            Card::SuckerPunch => 75,
            Card::PiercingWail => 76,
            Card::Prepared => 77,
            Card::Outmaneuver => 78,
            Card::Backflip => 79,
            Card::Slice => 80,
            Card::QuickSlash => 81,
            Card::Acrobatics => 82,
            Card::PoisonedStab => 83,
            Card::DaggerThrow => 84,
            Card::Deflect => 85,
            Card::BladeDance => 86,
            Card::Bane => 87,
            Card::DaggerSpray => 88,
            Card::DeadlyPoison => 89,
            Card::SneakyStrike => 90,
            Card::CloakAndDagger => 91,
            Card::Predator => 92,
            Card::AllOutAttack => 93,
            Card::Distraction => 94,
            Card::Footwork => 95,
            Card::Accuracy => 96,
            Card::MasterfulStab => 97,
            Card::Flechettes => 98,
            Card::Concentrate => 99,
            Card::BouncingFlask => 100,
            Card::Backstab => 101,
            Card::Dash => 102,
            Card::Eviscerate => 103,
            Card::Reflex => 104,
            Card::InfiniteBlades => 105,
            Card::NoxiousFumes => 106,
            Card::HeelHook => 107,
            Card::Terror => 108,
            Card::WellLaidPlans => 109,
            Card::Finisher => 110,
            Card::EscapePlan => 111,
            Card::CalculatedGamble => 112,
            Card::Skewer => 113,
            Card::RiddleWithHoles => 114,
            Card::EndlessAgony => 115,
            Card::Setup => 116,
            Card::Blur => 117,
            Card::Caltrops => 118,
            Card::Choke => 119,
            Card::Expertise => 120,
            Card::Tactician => 121,
            Card::Catalyst => 122,
            Card::LegSweep => 123,
            Card::CripplingCloud => 124,
            Card::Alchemize => 125,
            Card::CorpseExplosion => 126,
            Card::Malaise => 127,
            Card::PhantasmalKiller => 128,
            Card::DieDieDie => 129,
            Card::Adrenaline => 130,
            Card::Envenom => 131,
            Card::Doppelganger => 132,
            Card::Burst => 133,
            Card::WraithForm => 134,
            Card::ToolsOfTheTrade => 135,
            Card::Nightmare => 136,
            Card::Unload => 137,
            Card::AfterImage => 138,
            Card::BulletTime => 139,
            Card::StormOfSteel => 140,
            Card::GlassKnife => 141,
            Card::AThousandCuts => 142,
            Card::GrandFinale => 143,
            Card::SteamBarrier => 144,
            Card::ColdSnap => 145,
            Card::Leap => 146,
            Card::BeamCell => 147,
            Card::Hologram => 148,
            Card::ChargeBattery => 149,
            Card::SweepingBeam => 150,
            Card::Turbo => 151,
            Card::Coolheaded => 152,
            Card::Claw => 153,
            Card::Rebound => 154,
            Card::Stack => 155,
            Card::Barrage => 156,
            Card::CompileDriver => 157,
            Card::Recursion => 158,
            Card::Streamline => 159,
            Card::BallLightning => 160,
            Card::GoForTheEyes => 161,
            Card::DoomAndGloom => 162,
            Card::Defragment => 163,
            Card::Capacitor => 164,
            Card::WhiteNoise => 165,
            Card::Skim => 166,
            Card::Recycle => 167,
            Card::Scrape => 168,
            Card::Bullseye => 169,
            Card::Reprogram => 170,
            Card::AutoShields => 171,
            Card::ReinforcedBody => 172,
            Card::DoubleEnergy => 173,
            Card::Darkness => 174,
            Card::RipAndTear => 175,
            Card::Ftl => 176,
            Card::ForceField => 177,
            Card::Equilibrium => 178,
            Card::Tempest => 179,
            Card::Heatsinks => 180,
            Card::StaticDischarge => 181,
            Card::BootSequence => 182,
            Card::Chill => 183,
            Card::Loop => 184,
            Card::SelfRepair => 185,
            Card::Melter => 186,
            Card::Chaos => 187,
            Card::Blizzard => 188,
            Card::Aggregate => 189,
            Card::Fusion => 190,
            Card::Consume => 191,
            Card::Glacier => 192,
            Card::Sunder => 193,
            Card::HelloWorld => 194,
            Card::Overclock => 195,
            Card::GeneticAlgorithm => 196,
            Card::Storm => 197,
            Card::MultiCast => 198,
            Card::Hyperbeam => 199,
            Card::ThunderStrike => 200,
            Card::BiasedCognition => 201,
            Card::MachineLearning => 202,
            Card::Electrodynamics => 203,
            Card::Buffer => 204,
            Card::Rainbow => 205,
            Card::Seek => 206,
            Card::MeteorStrike => 207,
            Card::EchoForm => 208,
            Card::AllForOne => 209,
            Card::Reboot => 210,
            Card::Amplify => 211,
            Card::CreativeAi => 212,
            Card::Fission => 213,
            Card::CoreSurge => 214,
            Card::EmptyFist => 215,
            Card::Prostrate => 216,
            Card::Evaluate => 217,
            Card::CrushJoints => 218,
            Card::PressurePoints => 219,
            Card::FollowUp => 220,
            Card::CutThroughFate => 221,
            Card::SashWhip => 222,
            Card::EmptyBody => 223,
            Card::Tranquility => 224,
            Card::Crescendo => 225,
            Card::ThirdEye => 226,
            Card::Protect => 227,
            Card::FlurryOfBlows => 228,
            Card::JustLucky => 229,
            Card::Halt => 230,
            Card::FlyingSleeves => 231,
            Card::BowlingBash => 232,
            Card::Consecrate => 233,
            Card::Pray => 234,
            Card::SignatureMove => 235,
            Card::Weave => 236,
            Card::EmptyMind => 237,
            Card::Nirvana => 238,
            Card::Tantrum => 239,
            Card::Conclude => 240,
            Card::Worship => 241,
            Card::Swivel => 242,
            Card::Perseverance => 243,
            Card::Meditate => 244,
            Card::Study => 245,
            Card::WaveOfTheHand => 246,
            Card::SandsOfTime => 247,
            Card::FearNoEvil => 248,
            Card::ReachHeaven => 249,
            Card::MentalFortress => 250,
            Card::DeceiveReality => 251,
            Card::Rushdown => 252,
            Card::InnerPeace => 253,
            Card::Collect => 254,
            Card::WreathOfFlame => 255,
            Card::Wallop => 256,
            Card::CarveReality => 257,
            Card::Fasting => 258,
            Card::LikeWater => 259,
            Card::ForeignInfluence => 260,
            Card::WindmillStrike => 261,
            Card::Indignation => 262,
            Card::BattleHymn => 263,
            Card::TalkToTheHand => 264,
            Card::Sanctity => 265,
            Card::Foresight => 266,
            Card::SimmeringFury => 267,
            Card::WheelKick => 268,
            Card::Judgment => 269,
            Card::ConjureBlade => 270,
            Card::MasterReality => 271,
            Card::Brilliance => 272,
            Card::Devotion => 273,
            Card::Blasphemy => 274,
            Card::Ragnarok => 275,
            Card::LessonLearned => 276,
            Card::Scrawl => 277,
            Card::Vault => 278,
            Card::Alpha => 279,
            Card::Wish => 280,
            Card::Omniscience => 281,
            Card::Establishment => 282,
            Card::SpiritShield => 283,
            Card::DevaForm => 284,
            Card::DeusExMachina => 285,
            Card::BandageUp => 286,
            Card::Blind => 287,
            Card::DarkShackles => 288,
            Card::DeepBreath => 289,
            Card::Discovery => 290,
            Card::DramaticEntrance => 291,
            Card::Enlightenment => 292,
            Card::Finesse => 293,
            Card::FlashOfSteel => 294,
            Card::Forethought => 295,
            Card::GoodInstincts => 296,
            Card::Impatience => 297,
            Card::JackOfAllTrades => 298,
            Card::Madness => 299,
            Card::MindBlast => 300,
            Card::Panacea => 301,
            Card::PanicButton => 302,
            Card::Purity => 303,
            Card::SwiftStrike => 304,
            Card::Trip => 305,
            Card::Apotheosis => 306,
            Card::Chrysalis => 307,
            Card::HandOfGreed => 308,
            Card::Magnetism => 309,
            Card::MasterOfStrategy => 310,
            Card::Mayhem => 311,
            Card::Metamorphosis => 312,
            Card::Panache => 313,
            Card::SadisticNature => 314,
            Card::SecretTechnique => 315,
            Card::SecretWeapon => 316,
            Card::TheBomb => 317,
            Card::ThinkingAhead => 318,
            Card::Transmutation => 319,
            Card::Violence => 320,
        }
    }

    /// The card with index `index`, if there is one.
    pub fn from_repr(index: usize) -> (card: Option<Self>)
        ensures
            match card {
                Some(c) => index < CARD_COUNT && card_index(c) == index,
                None => index >= CARD_COUNT,
            },
    {
        match index {
            0 => Some(Card::Invalid),
            1 => Some(Card::SwordBoomerang),
            2 => Some(Card::PerfectedStrike),
            3 => Some(Card::HeavyBlade),
            4 => Some(Card::WildStrike),
            5 => Some(Card::Headbutt),
            6 => Some(Card::Havoc),
            7 => Some(Card::Armaments),
            8 => Some(Card::Clothesline),
            9 => Some(Card::TwinStrike),
            10 => Some(Card::PommelStrike),
            11 => Some(Card::Thunderclap),
            12 => Some(Card::Clash),
            13 => Some(Card::ShrugItOff),
            14 => Some(Card::TrueGrit),
            15 => Some(Card::BodySlam),
            16 => Some(Card::IronWave),
            17 => Some(Card::Flex),
            18 => Some(Card::Warcry),
            19 => Some(Card::Cleave),
            20 => Some(Card::Anger),
            21 => Some(Card::Evolve),
            22 => Some(Card::Uppercut),
            23 => Some(Card::GhostlyArmor),
            24 => Some(Card::FireBreathing),
            25 => Some(Card::Dropkick),
            26 => Some(Card::Carnage),
            27 => Some(Card::Bloodletting),
            28 => Some(Card::Rupture),
            29 => Some(Card::SecondWind),
            30 => Some(Card::SearingBlow),
            31 => Some(Card::BattleTrance),
            32 => Some(Card::Sentinel),
            33 => Some(Card::Entrench),
            34 => Some(Card::Rage),
            35 => Some(Card::FeelNoPain),
            36 => Some(Card::Disarm),
            37 => Some(Card::SeeingRed),
            38 => Some(Card::DarkEmbrace),
            39 => Some(Card::Combust),
            40 => Some(Card::Whirlwind),
            41 => Some(Card::SeverSoul),
            42 => Some(Card::Rampage),
            43 => Some(Card::Shockwave),
            44 => Some(Card::Metallicize),
            45 => Some(Card::BurningPact),
            46 => Some(Card::Pummel),
            47 => Some(Card::FlameBarrier),
            48 => Some(Card::BloodForBlood),
            49 => Some(Card::Intimidate),
            50 => Some(Card::Hemokinesis),
            51 => Some(Card::RecklessCharge),
            52 => Some(Card::InfernalBlade),
            53 => Some(Card::DualWield),
            54 => Some(Card::PowerThrough),
            55 => Some(Card::Inflame),
            56 => Some(Card::SpotWeakness),
            57 => Some(Card::DoubleTap),
            58 => Some(Card::DemonForm),
            59 => Some(Card::Bludgeon),
            60 => Some(Card::Feed),
            61 => Some(Card::LimitBreak),
            62 => Some(Card::Corruption),
            63 => Some(Card::Barricade),
            64 => Some(Card::FiendFire),
            65 => Some(Card::Berserk),
            66 => Some(Card::Impervious),
            67 => Some(Card::Juggernaut),
            68 => Some(Card::Brutality),
            69 => Some(Card::Reaper),
            70 => Some(Card::Exhume),
            71 => Some(Card::Offering),
            72 => Some(Card::Immolate),
            73 => Some(Card::FlyingKnee),
            74 => Some(Card::DodgeAndRoll),
            75 => Some(Card::SuckerPunch),
            76 => Some(Card::PiercingWail),
            77 => Some(Card::Prepared),
            78 => Some(Card::Outmaneuver),
            79 => Some(Card::Backflip),
            80 => Some(Card::Slice),
            81 => Some(Card::QuickSlash),
            82 => Some(Card::Acrobatics),
            83 => Some(Card::PoisonedStab),
            84 => Some(Card::DaggerThrow),
            85 => Some(Card::Deflect),
            86 => Some(Card::BladeDance),
            87 => Some(Card::Bane),
            88 => Some(Card::DaggerSpray),
            89 => Some(Card::DeadlyPoison),
            90 => Some(Card::SneakyStrike),
            91 => Some(Card::CloakAndDagger),
            92 => Some(Card::Predator),
            93 => Some(Card::AllOutAttack),
            94 => Some(Card::Distraction),
            95 => Some(Card::Footwork),
            96 => Some(Card::Accuracy),
            97 => Some(Card::MasterfulStab),
            98 => Some(Card::Flechettes),
            99 => Some(Card::Concentrate),
            100 => Some(Card::BouncingFlask),
            101 => Some(Card::Backstab),
            102 => Some(Card::Dash),
            103 => Some(Card::Eviscerate),
            104 => Some(Card::Reflex),
            105 => Some(Card::InfiniteBlades),
            106 => Some(Card::NoxiousFumes),
            107 => Some(Card::HeelHook),
            108 => Some(Card::Terror),
            109 => Some(Card::WellLaidPlans),
            110 => Some(Card::Finisher),
            111 => Some(Card::EscapePlan),
            112 => Some(Card::CalculatedGamble),
            113 => Some(Card::Skewer),
            114 => Some(Card::RiddleWithHoles),
            115 => Some(Card::EndlessAgony),
            116 => Some(Card::Setup),
            117 => Some(Card::Blur),
            118 => Some(Card::Caltrops),
            119 => Some(Card::Choke),
            120 => Some(Card::Expertise),
            121 => Some(Card::Tactician),
            122 => Some(Card::Catalyst),
            123 => Some(Card::LegSweep),
            124 => Some(Card::CripplingCloud),
            125 => Some(Card::Alchemize),
            126 => Some(Card::CorpseExplosion),
            127 => Some(Card::Malaise),
            128 => Some(Card::PhantasmalKiller),
            129 => Some(Card::DieDieDie),
            130 => Some(Card::Adrenaline),
            131 => Some(Card::Envenom),
            132 => Some(Card::Doppelganger),
            133 => Some(Card::Burst),
            134 => Some(Card::WraithForm),
            135 => Some(Card::ToolsOfTheTrade),
            136 => Some(Card::Nightmare),
            137 => Some(Card::Unload),
            138 => Some(Card::AfterImage),
            139 => Some(Card::BulletTime),
            140 => Some(Card::StormOfSteel),
            141 => Some(Card::GlassKnife),
            142 => Some(Card::AThousandCuts),
            143 => Some(Card::GrandFinale),
            144 => Some(Card::SteamBarrier),
            145 => Some(Card::ColdSnap),
            146 => Some(Card::Leap),
            147 => Some(Card::BeamCell),
            148 => Some(Card::Hologram),
            149 => Some(Card::ChargeBattery),
            150 => Some(Card::SweepingBeam),
            151 => Some(Card::Turbo),
            152 => Some(Card::Coolheaded),
            153 => Some(Card::Claw),
            154 => Some(Card::Rebound),
            155 => Some(Card::Stack),
            156 => Some(Card::Barrage),
            157 => Some(Card::CompileDriver),
            158 => Some(Card::Recursion),
            159 => Some(Card::Streamline),
            160 => Some(Card::BallLightning),
            161 => Some(Card::GoForTheEyes),
            162 => Some(Card::DoomAndGloom),
            163 => Some(Card::Defragment),
            164 => Some(Card::Capacitor),
            165 => Some(Card::WhiteNoise),
            166 => Some(Card::Skim),
            167 => Some(Card::Recycle),
            168 => Some(Card::Scrape),
            169 => Some(Card::Bullseye),
            170 => Some(Card::Reprogram),
            171 => Some(Card::AutoShields),
            172 => Some(Card::ReinforcedBody),
            173 => Some(Card::DoubleEnergy),
            174 => Some(Card::Darkness),
            175 => Some(Card::RipAndTear),
            176 => Some(Card::Ftl),
            177 => Some(Card::ForceField),
            178 => Some(Card::Equilibrium),
            179 => Some(Card::Tempest),
            180 => Some(Card::Heatsinks),
            181 => Some(Card::StaticDischarge),
            182 => Some(Card::BootSequence),
            183 => Some(Card::Chill),
            184 => Some(Card::Loop),
            185 => Some(Card::SelfRepair),
            186 => Some(Card::Melter),
            187 => Some(Card::Chaos),
            188 => Some(Card::Blizzard),
            189 => Some(Card::Aggregate),
            190 => Some(Card::Fusion),
            191 => Some(Card::Consume),
            192 => Some(Card::Glacier),
            193 => Some(Card::Sunder),
            194 => Some(Card::HelloWorld),
            195 => Some(Card::Overclock),
            196 => Some(Card::GeneticAlgorithm),
            197 => Some(Card::Storm),
            198 => Some(Card::MultiCast),
            199 => Some(Card::Hyperbeam),
            200 => Some(Card::ThunderStrike),
            201 => Some(Card::BiasedCognition),
            202 => Some(Card::MachineLearning),
            203 => Some(Card::Electrodynamics),
            204 => Some(Card::Buffer),
            205 => Some(Card::Rainbow),
            206 => Some(Card::Seek),
            207 => Some(Card::MeteorStrike),
            208 => Some(Card::EchoForm),
            209 => Some(Card::AllForOne),
            210 => Some(Card::Reboot),
            211 => Some(Card::Amplify),
            212 => Some(Card::CreativeAi),
            213 => Some(Card::Fission),
            214 => Some(Card::CoreSurge),
            215 => Some(Card::EmptyFist),
            216 => Some(Card::Prostrate),
            217 => Some(Card::Evaluate),
            218 => Some(Card::CrushJoints),
            219 => Some(Card::PressurePoints),
            220 => Some(Card::FollowUp),
            221 => Some(Card::CutThroughFate),
            222 => Some(Card::SashWhip),
            223 => Some(Card::EmptyBody),
            224 => Some(Card::Tranquility),
            225 => Some(Card::Crescendo),
            226 => Some(Card::ThirdEye),
            227 => Some(Card::Protect),
            228 => Some(Card::FlurryOfBlows),
            229 => Some(Card::JustLucky),
            230 => Some(Card::Halt),
            231 => Some(Card::FlyingSleeves),
            232 => Some(Card::BowlingBash),
            233 => Some(Card::Consecrate),
            234 => Some(Card::Pray),
            235 => Some(Card::SignatureMove),
            236 => Some(Card::Weave),
            237 => Some(Card::EmptyMind),
            238 => Some(Card::Nirvana),
            239 => Some(Card::Tantrum),
            240 => Some(Card::Conclude),
            241 => Some(Card::Worship),
            242 => Some(Card::Swivel),
            243 => Some(Card::Perseverance),
            244 => Some(Card::Meditate),
            245 => Some(Card::Study),
            246 => Some(Card::WaveOfTheHand),
            247 => Some(Card::SandsOfTime),
            248 => Some(Card::FearNoEvil),
            249 => Some(Card::ReachHeaven),
            250 => Some(Card::MentalFortress),
            251 => Some(Card::DeceiveReality),
            252 => Some(Card::Rushdown),
            253 => Some(Card::InnerPeace),
            254 => Some(Card::Collect),
            255 => Some(Card::WreathOfFlame),
            256 => Some(Card::Wallop),
            257 => Some(Card::CarveReality),
            258 => Some(Card::Fasting),
            259 => Some(Card::LikeWater),
            260 => Some(Card::ForeignInfluence),
            261 => Some(Card::WindmillStrike),
            262 => Some(Card::Indignation),
            263 => Some(Card::BattleHymn),
            264 => Some(Card::TalkToTheHand),
            265 => Some(Card::Sanctity),
            266 => Some(Card::Foresight),
            267 => Some(Card::SimmeringFury),
            268 => Some(Card::WheelKick),
            269 => Some(Card::Judgment),
            270 => Some(Card::ConjureBlade),
            271 => Some(Card::MasterReality),
            272 => Some(Card::Brilliance),
            273 => Some(Card::Devotion),
            274 => Some(Card::Blasphemy),
            275 => Some(Card::Ragnarok),
            276 => Some(Card::LessonLearned),
            277 => Some(Card::Scrawl),
            278 => Some(Card::Vault),
            279 => Some(Card::Alpha),
            280 => Some(Card::Wish),
            281 => Some(Card::Omniscience),
            282 => Some(Card::Establishment),
            283 => Some(Card::SpiritShield),
            284 => Some(Card::DevaForm),
            285 => Some(Card::DeusExMachina),
            286 => Some(Card::BandageUp),
            287 => Some(Card::Blind),
            288 => Some(Card::DarkShackles),
            289 => Some(Card::DeepBreath),
            290 => Some(Card::Discovery),
            291 => Some(Card::DramaticEntrance),
            292 => Some(Card::Enlightenment),
            293 => Some(Card::Finesse),
            294 => Some(Card::FlashOfSteel),
            295 => Some(Card::Forethought),
            296 => Some(Card::GoodInstincts),
            297 => Some(Card::Impatience),
            298 => Some(Card::JackOfAllTrades),
            299 => Some(Card::Madness),
            300 => Some(Card::MindBlast),
            301 => Some(Card::Panacea),
            302 => Some(Card::PanicButton),
            303 => Some(Card::Purity),
            304 => Some(Card::SwiftStrike),
            305 => Some(Card::Trip),
            306 => Some(Card::Apotheosis),
            307 => Some(Card::Chrysalis),
            308 => Some(Card::HandOfGreed),
            309 => Some(Card::Magnetism),
            310 => Some(Card::MasterOfStrategy),
            311 => Some(Card::Mayhem),
            312 => Some(Card::Metamorphosis),
            313 => Some(Card::Panache),
            314 => Some(Card::SadisticNature),
            315 => Some(Card::SecretTechnique),
            316 => Some(Card::SecretWeapon),
            317 => Some(Card::TheBomb),
            318 => Some(Card::ThinkingAhead),
            319 => Some(Card::Transmutation),
            320 => Some(Card::Violence),
            _ => None,
        }
    }

    /// Whether the two cards have the same index, that is, are the same
    /// card.
    pub fn equal_as_usize(self, other: &Card) -> (same: bool)
        ensures
            same == (self == *other),
    {
        proof {
            lemma_card_index_is_injective(self, *other);
        }
        self.index() == other.index()
    }
}

/// Two cards with the same index are the same card.
pub proof fn lemma_card_index_is_injective(a: Card, b: Card)
    ensures
        card_index(a) == card_index(b) ==> a == b,
{
}

/// A run of cards out of a list.
#[derive(Clone, Copy)]
pub struct CardSlice<'a> {
    pub slice: &'a [Card],
}

/// The index of the first occurrence of `card` from index `from` on; the
/// length of the list if there is none.
pub open spec fn first_index(cards: Seq<Card>, card: Card, from: int) -> int
    decreases cards.len() - from,
{
    if from >= cards.len() || from < 0 {
        cards.len() as int
    } else if cards[from] == card {
        from
    } else {
        first_index(cards, card, from + 1)
    }
}

/// The length of the shortest beginning of the first `upto` cards that
/// ends with the last occurrence of `card` among them; 0 if there is
/// none.
pub open spec fn last_end(cards: Seq<Card>, card: Card, upto: int) -> int
    decreases upto,
{
    if upto <= 0 || upto > cards.len() {
        0
    } else if cards[upto - 1] == card {
        upto
    } else {
        last_end(cards, card, upto - 1)
    }
}

/// The list from the first occurrence of `card` on; empty if there is
/// none.
pub open spec fn trimmed_before(cards: Seq<Card>, card: Card) -> Seq<Card> {
    cards.subrange(first_index(cards, card, 0), cards.len() as int)
}

/// The list up to the last occurrence of `card`; empty if there is none.
pub open spec fn trimmed_after(cards: Seq<Card>, card: Card) -> Seq<Card> {
    cards.subrange(0, last_end(cards, card, cards.len() as int))
}

/// The list from the first occurrence of `first` up to the last occurrence
/// of `last` after it.
pub open spec fn trimmed(cards: Seq<Card>, first: Card, last: Card) -> Seq<Card> {
    trimmed_after(trimmed_before(cards, first), last)
}

/// The first occurrence of a card lies in the list or at its end, and not
/// after any occurrence.
pub proof fn lemma_first_index(cards: Seq<Card>, card: Card, from: int, at: int)
    requires
        0 <= from <= cards.len(),
    ensures
        from <= first_index(cards, card, from) <= cards.len(),
        from <= at < cards.len() && cards[at] == card ==> first_index(cards, card, from) <= at,
    decreases cards.len() - from,
{
    if from < cards.len() && cards[from] != card {
        lemma_first_index(cards, card, from + 1, at);
    }
}

/// The end of the last occurrence of a card lies in the list, and not
/// before any occurrence.
pub proof fn lemma_last_end(cards: Seq<Card>, card: Card, upto: int, at: int)
    requires
        0 <= upto <= cards.len(),
    ensures
        0 <= last_end(cards, card, upto) <= upto,
        0 <= at < upto && cards[at] == card ==> last_end(cards, card, upto) > at,
    decreases upto,
{
    if upto > 0 && cards[upto - 1] != card {
        lemma_last_end(cards, card, upto - 1, at);
    }
}

/// A list in which `first` occurs at index `a` and `last` at index `b`,
/// not before `a`, keeps at least the cards from `a` to `b` when it is
/// trimmed to the run from `first` to `last`: the run is not empty.
pub proof fn lemma_trimmed_is_not_empty(cards: Seq<Card>, first: Card, last: Card, a: int, b: int)
    requires
        0 <= a <= b < cards.len(),
        cards[a] == first,
        cards[b] == last,
    ensures
        0 < trimmed(cards, first, last).len() <= cards.len(),
{
    lemma_first_index(cards, first, 0, a);
    let from = first_index(cards, first, 0);
    let rest = trimmed_before(cards, first);
    assert(rest[b - from] == last);
    lemma_last_end(rest, last, rest.len() as int, b - from);
}

impl<'a> CardSlice<'a> {
    /// The whole list as a run.
    pub fn new(slice: &'a [Card]) -> (r: Self)
        ensures
            r.slice@ == slice@,
    {
        CardSlice { slice }
    }

    /// The run from the first occurrence of `card` on; the empty run if
    /// there is none.
    pub fn trim_before(self, card: Card) -> (r: Self)
        ensures
            r.slice@ == trimmed_before(self.slice@, card),
    {
        let mut from: usize = 0;
        while from < self.slice.len() && !card.equal_as_usize(&self.slice[from])
            invariant
                from <= self.slice@.len(),
                first_index(self.slice@, card, from as int) == first_index(self.slice@, card, 0),
            decreases self.slice@.len() - from,
        {
            from = from + 1;
        }
        assert(first_index(self.slice@, card, 0) == from);
        CardSlice { slice: slice_subrange(self.slice, from, self.slice.len()) }
    }

    /// The run up to the last occurrence of `card`; the empty run if there
    /// is none.
    pub fn trim_after(self, card: Card) -> (r: Self)
        ensures
            r.slice@ == trimmed_after(self.slice@, card),
    {
        let mut upto: usize = self.slice.len();
        while upto > 0 && !card.equal_as_usize(&self.slice[upto - 1])
            invariant
                upto <= self.slice@.len(),
                last_end(self.slice@, card, upto as int) == last_end(
                    self.slice@,
                    card,
                    self.slice@.len() as int,
                ),
            decreases upto,
        {
            upto = upto - 1;
        }
        assert(last_end(self.slice@, card, self.slice@.len() as int) == upto);
        CardSlice { slice: slice_subrange(self.slice, 0, upto) }
    }

    /// The run from the first occurrence of `first` up to the last
    /// occurrence of `last` after it.
    pub fn trim_inclusive(self, first: Card, last: Card) -> (r: Self)
        ensures
            r.slice@ == trimmed(self.slice@, first, last),
    {
        self.trim_before(first).trim_after(last)
    }
}

/// Every card, by index.
pub fn all_cards() -> (cards: [Card; 321])
    ensures
        cards == CARDS,
{
    CARDS
}

/// Every card, the last one first.
pub fn rev_cards() -> (cards: [Card; 321])
    ensures
        cards == REV_CARDS,
{
    REV_CARDS
}

} // verus!
