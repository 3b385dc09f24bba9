//! The identifiers of the cards in the catalog, with what the catalog records
//! of each: its number at the marketplace, its two names, its faction and its
//! colour.

use crate::nft::{NftCardCategory, NftCardColor};
use crate::text::str_eq;
use vstd::prelude::*;
use vstd::string::*;

verus! {

/// How many cards the catalog holds.
pub const CARD_COUNT: usize = 222;

/// A card of the catalog. The gold variant of a card is a card of its own.
#[derive(Debug, Clone, Copy, PartialEq, Eq, Hash, Structural)]
pub enum NftCardId {
    AlarmBot,
    AlarmBotGold,
    AmmoCrate,
    AmmoCrateGold,
    AngryBull,
    AngryBullGold,
    Apple,
    AppleGold,
    ArrogantBoar,
    ArrogantBoarGold,
    AvengerD0,
    AvengerD0Gold,
    Avocado,
    AvocadoGold,
    Axe,
    AxeGold,
    BarrelZombie,
    BarrelZombieGold,
    BombZombie,
    BombZombieGold,
    BoxingGloves,
    BoxingGlovesGold,
    BraveBeaver,
    BraveBeaverGold,
    Broom,
    BroomGold,
    Cabbage,
    CabbageGold,
    Cactus,
    CactusGold,
    Cannon,
    CannonGold,
    Chainsaw,
    ChainsawGold,
    ChargeBot,
    ChargeBotGold,
    CheerleaderZombie,
    CheerleaderZombieGold,
    ClownZombie,
    ClownZombieGold,
    Coconut,
    CoconutGold,
    CrazyDoctorZombie,
    CrazyDoctorZombieGold,
    CrystalDragon,
    CrystalDragonGold,
    CunningFox,
    CunningFoxGold,
    DancerZombie,
    DancerZombieGold,
    DeathKnight,
    DeathKnightGold,
    DeceptionDragon,
    DeceptionDragonGold,
    DeterrentBot,
    DeterrentBotGold,
    DoggyBot,
    DoggyBotGold,
    DragonEgg,
    DragonEggGold,
    DurianAgent,
    DurianAgentGold,
    DurianCommander,
    DurianCommanderGold,
    ES67,
    ES67Gold,
    EpicMiracleEgg,
    EpicMiracleEggGold,
    FarmerZombie,
    FarmerZombieGold,
    FriendlyHen,
    FriendlyHenGold,
    Frog,
    FrogGold,
    FrostDragon,
    FrostDragonGold,
    FryingPan,
    FryingPanGold,
    FuriousTiger,
    FuriousTigerGold,
    GT130,
    GT130Gold,
    Garlic,
    GarlicGold,
    GrandpaBroccoli,
    GrandpaBroccoliGold,
    GreedyShark,
    GreedySharkGold,
    GuardianBot,
    GuardianBotGold,
    HardshellNut,
    HardshellNutGold,
    HelperBot,
    HelperBotGold,
    InfernoDragon,
    InfernoDragonGold,
    InflatableHammer,
    InflatableHammerGold,
    IronHelmet,
    IronHelmetGold,
    JoyfulLamb,
    JoyfulLambGold,
    KittyBot,
    KittyBotGold,
    LavaDragon,
    LavaDragonGold,
    LegendaryMiracleEgg,
    LegendaryMiracleEggGold,
    LionKing,
    LionKingGold,
    Lobster,
    LobsterGold,
    MadRabbit,
    MadRabbitGold,
    MasterPanda,
    MasterPandaGold,
    MechHatchery,
    MechHatcheryGold,
    MechanicKnight,
    MechanicKnightGold,
    MinerZombie,
    MinerZombieGold,
    MiniRobot,
    MiniRobotGold,
    MrCorn,
    MrCornGold,
    MrTomato,
    MrTomatoGold,
    NatureDragon,
    NatureDragonGold,
    NaughtyDragon,
    NaughtyDragonGold,
    ObsidianDragon,
    ObsidianDragonGold,
    OceanDragon,
    OceanDragonGold,
    PartyZombie,
    PartyZombieGold,
    Pineapple,
    PineappleGold,
    PirateZombie,
    PirateZombieGold,
    Poison,
    PoisonMushroom,
    PoisonMushroomGold,
    PoisonGold,
    PrinceZombie,
    PrinceZombieGold,
    Pumpkin,
    PumpkinGold,
    RadiantDragon,
    RadiantDragonGold,
    Radish,
    RadishGold,
    RagingShield,
    RagingShieldGold,
    RedChili,
    RedChiliGold,
    RiotShield,
    RiotShieldGold,
    RoadblockZombie,
    RoadblockZombieGold,
    RobotDuke,
    RobotDukeGold,
    RockDragon,
    RockDragonGold,
    Rocket,
    RocketGold,
    SailorZombie,
    SailorZombieGold,
    ScoutBot,
    ScoutBotGold,
    ShadowDragon,
    ShadowDragonGold,
    Shotgun,
    ShotgunGold,
    Snail,
    SnailGold,
    Snake,
    SnakeGold,
    SpikedBat,
    SpikedBatGold,
    StarZombie,
    StarZombieGold,
    StarvingMimic,
    StarvingMimicGold,
    SteelDragon,
    SteelDragonGold,
    Stone,
    StoneGold,
    StormDragon,
    StormDragonGold,
    SturdyBot,
    SturdyBotGold,
    SuperZombie,
    SuperZombieGold,
    SupportBot,
    SupportBotGold,
    TerraDragon,
    TerraDragonGold,
    ThunderDragon,
    ThunderDragonGold,
    TortoiseBro,
    TortoiseBroGold,
    Trumpet,
    TrumpetGold,
    Turner,
    TurnerGold,
    UFO,
    UFOGold,
    UncleElk,
    UncleElkGold,
    Watermelon,
    WatermelonGold,
    WindDragon,
    WindDragonGold,
    WolfKing,
    WolfKingGold,
    ZombieBaby,
    ZombieBabyGold,
    ZombieBride,
    ZombieBrideGold,
}

impl NftCardId {
    /// The number the marketplace uses for this card.
    #[verifier::opaque]
    pub open spec fn wire_code(self) -> u32
    {
        match self {
            NftCardId::AlarmBot => 500,
            NftCardId::AlarmBotGold => 537,
            NftCardId::AmmoCrate => 320,
            NftCardId::AmmoCrateGold => 437,
            NftCardId::AngryBull => 415,
            NftCardId::AngryBullGold => 440,
            NftCardId::Apple => 393,
            NftCardId::AppleGold => 402,
            NftCardId::ArrogantBoar => 370,
            NftCardId::ArrogantBoarGold => 372,
            NftCardId::AvengerD0 => 544,
            NftCardId::AvengerD0Gold => 561,
            NftCardId::Avocado => 373,
            NftCardId::AvocadoGold => 436,
            NftCardId::Axe => 369,
            NftCardId::AxeGold => 371,
            NftCardId::BarrelZombie => 455,
            NftCardId::BarrelZombieGold => 460,
            NftCardId::BombZombie => 361,
            NftCardId::BombZombieGold => 338,
            NftCardId::BoxingGloves => 427,
            NftCardId::BoxingGlovesGold => 317,
            NftCardId::BraveBeaver => 375,
            NftCardId::BraveBeaverGold => 383,
            NftCardId::Broom => 390,
            NftCardId::BroomGold => 331,
            NftCardId::Cabbage => 382,
            NftCardId::CabbageGold => 442,
            NftCardId::Cactus => 348,
            NftCardId::CactusGold => 351,
            NftCardId::Cannon => 342,
            NftCardId::CannonGold => 344,
            NftCardId::Chainsaw => 345,
            NftCardId::ChainsawGold => 349,
            NftCardId::ChargeBot => 553,
            NftCardId::ChargeBotGold => 509,
            NftCardId::CheerleaderZombie => 332,
            NftCardId::CheerleaderZombieGold => 410,
            NftCardId::ClownZombie => 334,
            NftCardId::ClownZombieGold => 439,
            NftCardId::Coconut => 409,
            NftCardId::CoconutGold => 411,
            NftCardId::CrazyDoctorZombie => 459,
            NftCardId::CrazyDoctorZombieGold => 452,
            NftCardId::CrystalDragon => 521,
            NftCardId::CrystalDragonGold => 531,
            NftCardId::CunningFox => 380,
            NftCardId::CunningFoxGold => 449,
            NftCardId::DancerZombie => 352,
            NftCardId::DancerZombieGold => 354,
            NftCardId::DeathKnight => 310,
            NftCardId::DeathKnightGold => 374,
            NftCardId::DeceptionDragon => 498,
            NftCardId::DeceptionDragonGold => 545,
            NftCardId::DeterrentBot => 505,
            NftCardId::DeterrentBotGold => 546,
            NftCardId::DoggyBot => 519,
            NftCardId::DoggyBotGold => 556,
            NftCardId::DragonEgg => 523,
            NftCardId::DragonEggGold => 535,
            NftCardId::DurianAgent => 443,
            NftCardId::DurianAgentGold => 458,
            NftCardId::DurianCommander => 453,
            NftCardId::DurianCommanderGold => 463,
            NftCardId::ES67 => 529,
            NftCardId::ES67Gold => 536,
            NftCardId::EpicMiracleEgg => 474,
            NftCardId::EpicMiracleEggGold => 487,
            NftCardId::FarmerZombie => 377,
            NftCardId::FarmerZombieGold => 389,
            NftCardId::FriendlyHen => 401,
            NftCardId::FriendlyHenGold => 315,
            NftCardId::Frog => 451,
            NftCardId::FrogGold => 461,
            NftCardId::FrostDragon => 524,
            NftCardId::FrostDragonGold => 550,
            NftCardId::FryingPan => 398,
            NftCardId::FryingPanGold => 399,
            NftCardId::FuriousTiger => 419,
            NftCardId::FuriousTigerGold => 396,
            NftCardId::GT130 => 547,
            NftCardId::GT130Gold => 565,
            NftCardId::Garlic => 441,
            NftCardId::GarlicGold => 435,
            NftCardId::GrandpaBroccoli => 404,
            NftCardId::GrandpaBroccoliGold => 429,
            NftCardId::GreedyShark => 379,
            NftCardId::GreedySharkGold => 387,
            NftCardId::GuardianBot => 557,
            NftCardId::GuardianBotGold => 560,
            NftCardId::HardshellNut => 394,
            NftCardId::HardshellNutGold => 425,
            NftCardId::HelperBot => 526,
            NftCardId::HelperBotGold => 540,
            NftCardId::InfernoDragon => 510,
            NftCardId::InfernoDragonGold => 520,
            NftCardId::InflatableHammer => 385,
            NftCardId::InflatableHammerGold => 403,
            NftCardId::IronHelmet => 346,
            NftCardId::IronHelmetGold => 347,
            NftCardId::JoyfulLamb => 366,
            NftCardId::JoyfulLambGold => 367,
            NftCardId::KittyBot => 502,
            NftCardId::KittyBotGold => 542,
            NftCardId::LavaDragon => 507,
            NftCardId::LavaDragonGold => 527,
            NftCardId::LegendaryMiracleEgg => 476,
            NftCardId::LegendaryMiracleEggGold => 486,
            NftCardId::LionKing => 324,
            NftCardId::LionKingGold => 330,
            NftCardId::Lobster => 391,
            NftCardId::LobsterGold => 397,
            NftCardId::MadRabbit => 318,
            NftCardId::MadRabbitGold => 335,
            NftCardId::MasterPanda => 424,
            NftCardId::MasterPandaGold => 432,
            NftCardId::MechHatchery => 518,
            NftCardId::MechHatcheryGold => 558,
            NftCardId::MechanicKnight => 532,
            NftCardId::MechanicKnightGold => 543,
            NftCardId::MinerZombie => 384,
            NftCardId::MinerZombieGold => 388,
            NftCardId::MiniRobot => 503,
            NftCardId::MiniRobotGold => 492,
            NftCardId::MrCorn => 413,
            NftCardId::MrCornGold => 395,
            NftCardId::MrTomato => 418,
            NftCardId::MrTomatoGold => 333,
            NftCardId::NatureDragon => 517,
            NftCardId::NatureDragonGold => 554,
            NftCardId::NaughtyDragon => 495,
            NftCardId::NaughtyDragonGold => 513,
            NftCardId::ObsidianDragon => 512,
            NftCardId::ObsidianDragonGold => 534,
            NftCardId::OceanDragon => 551,
            NftCardId::OceanDragonGold => 555,
            NftCardId::PartyZombie => 423,
            NftCardId::PartyZombieGold => 446,
            NftCardId::Pineapple => 355,
            NftCardId::PineappleGold => 357,
            NftCardId::PirateZombie => 339,
            NftCardId::PirateZombieGold => 448,
            NftCardId::Poison => 422,
            NftCardId::PoisonMushroom => 392,
            NftCardId::PoisonMushroomGold => 406,
            NftCardId::PoisonGold => 447,
            NftCardId::PrinceZombie => 323,
            NftCardId::PrinceZombieGold => 311,
            NftCardId::Pumpkin => 326,
            NftCardId::PumpkinGold => 341,
            NftCardId::RadiantDragon => 548,
            NftCardId::RadiantDragonGold => 549,
            NftCardId::Radish => 328,
            NftCardId::RadishGold => 386,
            NftCardId::RagingShield => 356,
            NftCardId::RagingShieldGold => 336,
            NftCardId::RedChili => 358,
            NftCardId::RedChiliGold => 360,
            NftCardId::RiotShield => 450,
            NftCardId::RiotShieldGold => 457,
            NftCardId::RoadblockZombie => 363,
            NftCardId::RoadblockZombieGold => 365,
            NftCardId::RobotDuke => 516,
            NftCardId::RobotDukeGold => 511,
            NftCardId::RockDragon => 559,
            NftCardId::RockDragonGold => 562,
            NftCardId::Rocket => 414,
            NftCardId::RocketGold => 417,
            NftCardId::SailorZombie => 405,
            NftCardId::SailorZombieGold => 325,
            NftCardId::ScoutBot => 515,
            NftCardId::ScoutBotGold => 508,
            NftCardId::ShadowDragon => 514,
            NftCardId::ShadowDragonGold => 506,
            NftCardId::Shotgun => 353,
            NftCardId::ShotgunGold => 319,
            NftCardId::Snail => 407,
            NftCardId::SnailGold => 322,
            NftCardId::Snake => 416,
            NftCardId::SnakeGold => 434,
            NftCardId::SpikedBat => 301,
            NftCardId::SpikedBatGold => 400,
            NftCardId::StarZombie => 421,
            NftCardId::StarZombieGold => 438,
            NftCardId::StarvingMimic => 420,
            NftCardId::StarvingMimicGold => 428,
            NftCardId::SteelDragon => 504,
            NftCardId::SteelDragonGold => 538,
            NftCardId::Stone => 499,
            NftCardId::StoneGold => 525,
            NftCardId::StormDragon => 552,
            NftCardId::StormDragonGold => 563,
            NftCardId::SturdyBot => 494,
            NftCardId::SturdyBotGold => 528,
            NftCardId::SuperZombie => 378,
            NftCardId::SuperZombieGold => 431,
            NftCardId::SupportBot => 533,
            NftCardId::SupportBotGold => 539,
            NftCardId::TerraDragon => 497,
            NftCardId::TerraDragonGold => 541,
            NftCardId::ThunderDragon => 530,
            NftCardId::ThunderDragonGold => 564,
            NftCardId::TortoiseBro => 350,
            NftCardId::TortoiseBroGold => 445,
            NftCardId::Trumpet => 359,
            NftCardId::TrumpetGold => 362,
            NftCardId::Turner => 364,
            NftCardId::TurnerGold => 368,
            NftCardId::UFO => 337,
            NftCardId::UFOGold => 343,
            NftCardId::UncleElk => 376,
            NftCardId::UncleElkGold => 408,
            NftCardId::Watermelon => 426,
            NftCardId::WatermelonGold => 433,
            NftCardId::WindDragon => 501,
            NftCardId::WindDragonGold => 522,
            NftCardId::WolfKing => 454,
            NftCardId::WolfKingGold => 462,
            NftCardId::ZombieBaby => 307,
            NftCardId::ZombieBabyGold => 412,
            NftCardId::ZombieBride => 381,
            NftCardId::ZombieBrideGold => 430,
        }
    }

    /// Gives the number the marketplace uses for this card.
    pub fn to_wire_code(self) -> (code: u32)
        ensures
            code == self.wire_code(),
    {
        proof {
            reveal(NftCardId::wire_code);
        }
        match self {
            NftCardId::AlarmBot => 500,
            NftCardId::AlarmBotGold => 537,
            NftCardId::AmmoCrate => 320,
            NftCardId::AmmoCrateGold => 437,
            NftCardId::AngryBull => 415,
            NftCardId::AngryBullGold => 440,
            NftCardId::Apple => 393,
            NftCardId::AppleGold => 402,
            NftCardId::ArrogantBoar => 370,
            NftCardId::ArrogantBoarGold => 372,
            NftCardId::AvengerD0 => 544,
            NftCardId::AvengerD0Gold => 561,
            NftCardId::Avocado => 373,
            NftCardId::AvocadoGold => 436,
            NftCardId::Axe => 369,
            NftCardId::AxeGold => 371,
            NftCardId::BarrelZombie => 455,
            NftCardId::BarrelZombieGold => 460,
            NftCardId::BombZombie => 361,
            NftCardId::BombZombieGold => 338,
            NftCardId::BoxingGloves => 427,
            NftCardId::BoxingGlovesGold => 317,
            NftCardId::BraveBeaver => 375,
            NftCardId::BraveBeaverGold => 383,
            NftCardId::Broom => 390,
            NftCardId::BroomGold => 331,
            NftCardId::Cabbage => 382,
            NftCardId::CabbageGold => 442,
            NftCardId::Cactus => 348,
            NftCardId::CactusGold => 351,
            NftCardId::Cannon => 342,
            NftCardId::CannonGold => 344,
            NftCardId::Chainsaw => 345,
            NftCardId::ChainsawGold => 349,
            NftCardId::ChargeBot => 553,
            NftCardId::ChargeBotGold => 509,
            NftCardId::CheerleaderZombie => 332,
            NftCardId::CheerleaderZombieGold => 410,
            NftCardId::ClownZombie => 334,
            NftCardId::ClownZombieGold => 439,
            NftCardId::Coconut => 409,
            NftCardId::CoconutGold => 411,
            NftCardId::CrazyDoctorZombie => 459,
            NftCardId::CrazyDoctorZombieGold => 452,
            NftCardId::CrystalDragon => 521,
            NftCardId::CrystalDragonGold => 531,
            NftCardId::CunningFox => 380,
            NftCardId::CunningFoxGold => 449,
            NftCardId::DancerZombie => 352,
            NftCardId::DancerZombieGold => 354,
            NftCardId::DeathKnight => 310,
            NftCardId::DeathKnightGold => 374,
            NftCardId::DeceptionDragon => 498,
            NftCardId::DeceptionDragonGold => 545,
            NftCardId::DeterrentBot => 505,
            NftCardId::DeterrentBotGold => 546,
            NftCardId::DoggyBot => 519,
            NftCardId::DoggyBotGold => 556,
            NftCardId::DragonEgg => 523,
            NftCardId::DragonEggGold => 535,
            NftCardId::DurianAgent => 443,
            NftCardId::DurianAgentGold => 458,
            NftCardId::DurianCommander => 453,
            NftCardId::DurianCommanderGold => 463,
            NftCardId::ES67 => 529,
            NftCardId::ES67Gold => 536,
            NftCardId::EpicMiracleEgg => 474,
            NftCardId::EpicMiracleEggGold => 487,
            NftCardId::FarmerZombie => 377,
            NftCardId::FarmerZombieGold => 389,
            NftCardId::FriendlyHen => 401,
            NftCardId::FriendlyHenGold => 315,
            NftCardId::Frog => 451,
            NftCardId::FrogGold => 461,
            NftCardId::FrostDragon => 524,
            NftCardId::FrostDragonGold => 550,
            NftCardId::FryingPan => 398,
            NftCardId::FryingPanGold => 399,
            NftCardId::FuriousTiger => 419,
            NftCardId::FuriousTigerGold => 396,
            NftCardId::GT130 => 547,
            NftCardId::GT130Gold => 565,
            NftCardId::Garlic => 441,
            NftCardId::GarlicGold => 435,
            NftCardId::GrandpaBroccoli => 404,
            NftCardId::GrandpaBroccoliGold => 429,
            NftCardId::GreedyShark => 379,
            NftCardId::GreedySharkGold => 387,
            NftCardId::GuardianBot => 557,
            NftCardId::GuardianBotGold => 560,
            NftCardId::HardshellNut => 394,
            NftCardId::HardshellNutGold => 425,
            NftCardId::HelperBot => 526,
            NftCardId::HelperBotGold => 540,
            NftCardId::InfernoDragon => 510,
            NftCardId::InfernoDragonGold => 520,
            NftCardId::InflatableHammer => 385,
            NftCardId::InflatableHammerGold => 403,
            NftCardId::IronHelmet => 346,
            NftCardId::IronHelmetGold => 347,
            NftCardId::JoyfulLamb => 366,
            NftCardId::JoyfulLambGold => 367,
            NftCardId::KittyBot => 502,
            NftCardId::KittyBotGold => 542,
            NftCardId::LavaDragon => 507,
            NftCardId::LavaDragonGold => 527,
            NftCardId::LegendaryMiracleEgg => 476,
            NftCardId::LegendaryMiracleEggGold => 486,
            NftCardId::LionKing => 324,
            NftCardId::LionKingGold => 330,
            NftCardId::Lobster => 391,
            NftCardId::LobsterGold => 397,
            NftCardId::MadRabbit => 318,
            NftCardId::MadRabbitGold => 335,
            NftCardId::MasterPanda => 424,
            NftCardId::MasterPandaGold => 432,
            NftCardId::MechHatchery => 518,
            NftCardId::MechHatcheryGold => 558,
            NftCardId::MechanicKnight => 532,
            NftCardId::MechanicKnightGold => 543,
            NftCardId::MinerZombie => 384,
            NftCardId::MinerZombieGold => 388,
            NftCardId::MiniRobot => 503,
            NftCardId::MiniRobotGold => 492,
            NftCardId::MrCorn => 413,
            NftCardId::MrCornGold => 395,
            NftCardId::MrTomato => 418,
            NftCardId::MrTomatoGold => 333,
            NftCardId::NatureDragon => 517,
            NftCardId::NatureDragonGold => 554,
            NftCardId::NaughtyDragon => 495,
            NftCardId::NaughtyDragonGold => 513,
            NftCardId::ObsidianDragon => 512,
            NftCardId::ObsidianDragonGold => 534,
            NftCardId::OceanDragon => 551,
            NftCardId::OceanDragonGold => 555,
            NftCardId::PartyZombie => 423,
            NftCardId::PartyZombieGold => 446,
            NftCardId::Pineapple => 355,
            NftCardId::PineappleGold => 357,
            NftCardId::PirateZombie => 339,
            NftCardId::PirateZombieGold => 448,
            NftCardId::Poison => 422,
            NftCardId::PoisonMushroom => 392,
            NftCardId::PoisonMushroomGold => 406,
            NftCardId::PoisonGold => 447,
            NftCardId::PrinceZombie => 323,
            NftCardId::PrinceZombieGold => 311,
            NftCardId::Pumpkin => 326,
            NftCardId::PumpkinGold => 341,
            NftCardId::RadiantDragon => 548,
            NftCardId::RadiantDragonGold => 549,
            NftCardId::Radish => 328,
            NftCardId::RadishGold => 386,
            NftCardId::RagingShield => 356,
            NftCardId::RagingShieldGold => 336,
            NftCardId::RedChili => 358,
            NftCardId::RedChiliGold => 360,
            NftCardId::RiotShield => 450,
            NftCardId::RiotShieldGold => 457,
            NftCardId::RoadblockZombie => 363,
            NftCardId::RoadblockZombieGold => 365,
            NftCardId::RobotDuke => 516,
            NftCardId::RobotDukeGold => 511,
            NftCardId::RockDragon => 559,
            NftCardId::RockDragonGold => 562,
            NftCardId::Rocket => 414,
            NftCardId::RocketGold => 417,
            NftCardId::SailorZombie => 405,
            NftCardId::SailorZombieGold => 325,
            NftCardId::ScoutBot => 515,
            NftCardId::ScoutBotGold => 508,
            NftCardId::ShadowDragon => 514,
            NftCardId::ShadowDragonGold => 506,
            NftCardId::Shotgun => 353,
            NftCardId::ShotgunGold => 319,
            NftCardId::Snail => 407,
            NftCardId::SnailGold => 322,
            NftCardId::Snake => 416,
            NftCardId::SnakeGold => 434,
            NftCardId::SpikedBat => 301,
            NftCardId::SpikedBatGold => 400,
            NftCardId::StarZombie => 421,
            NftCardId::StarZombieGold => 438,
            NftCardId::StarvingMimic => 420,
            NftCardId::StarvingMimicGold => 428,
            NftCardId::SteelDragon => 504,
            NftCardId::SteelDragonGold => 538,
            NftCardId::Stone => 499,
            NftCardId::StoneGold => 525,
            NftCardId::StormDragon => 552,
            NftCardId::StormDragonGold => 563,
            NftCardId::SturdyBot => 494,
            NftCardId::SturdyBotGold => 528,
            NftCardId::SuperZombie => 378,
            NftCardId::SuperZombieGold => 431,
            NftCardId::SupportBot => 533,
            NftCardId::SupportBotGold => 539,
            NftCardId::TerraDragon => 497,
            NftCardId::TerraDragonGold => 541,
            NftCardId::ThunderDragon => 530,
            NftCardId::ThunderDragonGold => 564,
            NftCardId::TortoiseBro => 350,
            NftCardId::TortoiseBroGold => 445,
            NftCardId::Trumpet => 359,
            NftCardId::TrumpetGold => 362,
            NftCardId::Turner => 364,
            NftCardId::TurnerGold => 368,
            NftCardId::UFO => 337,
            NftCardId::UFOGold => 343,
            NftCardId::UncleElk => 376,
            NftCardId::UncleElkGold => 408,
            NftCardId::Watermelon => 426,
            NftCardId::WatermelonGold => 433,
            NftCardId::WindDragon => 501,
            NftCardId::WindDragonGold => 522,
            NftCardId::WolfKing => 454,
            NftCardId::WolfKingGold => 462,
            NftCardId::ZombieBaby => 307,
            NftCardId::ZombieBabyGold => 412,
            NftCardId::ZombieBride => 381,
            NftCardId::ZombieBrideGold => 430,
        }
    }

    /// The place of this card in the catalog, counted from zero.
    #[verifier::opaque]
    pub open spec fn ordinal(self) -> int
    {
        match self {
            NftCardId::AlarmBot => 0,
            NftCardId::AlarmBotGold => 1,
            NftCardId::AmmoCrate => 2,
            NftCardId::AmmoCrateGold => 3,
            NftCardId::AngryBull => 4,
            NftCardId::AngryBullGold => 5,
            NftCardId::Apple => 6,
            NftCardId::AppleGold => 7,
            NftCardId::ArrogantBoar => 8,
            NftCardId::ArrogantBoarGold => 9,
            NftCardId::AvengerD0 => 10,
            NftCardId::AvengerD0Gold => 11,
            NftCardId::Avocado => 12,
            NftCardId::AvocadoGold => 13,
            NftCardId::Axe => 14,
            NftCardId::AxeGold => 15,
            NftCardId::BarrelZombie => 16,
            NftCardId::BarrelZombieGold => 17,
            NftCardId::BombZombie => 18,
            NftCardId::BombZombieGold => 19,
            NftCardId::BoxingGloves => 20,
            NftCardId::BoxingGlovesGold => 21,
            NftCardId::BraveBeaver => 22,
            NftCardId::BraveBeaverGold => 23,
            NftCardId::Broom => 24,
            NftCardId::BroomGold => 25,
            NftCardId::Cabbage => 26,
            NftCardId::CabbageGold => 27,
            NftCardId::Cactus => 28,
            NftCardId::CactusGold => 29,
            NftCardId::Cannon => 30,
            NftCardId::CannonGold => 31,
            NftCardId::Chainsaw => 32,
            NftCardId::ChainsawGold => 33,
            NftCardId::ChargeBot => 34,
            NftCardId::ChargeBotGold => 35,
            NftCardId::CheerleaderZombie => 36,
            NftCardId::CheerleaderZombieGold => 37,
            NftCardId::ClownZombie => 38,
            NftCardId::ClownZombieGold => 39,
            NftCardId::Coconut => 40,
            NftCardId::CoconutGold => 41,
            NftCardId::CrazyDoctorZombie => 42,
            NftCardId::CrazyDoctorZombieGold => 43,
            NftCardId::CrystalDragon => 44,
            NftCardId::CrystalDragonGold => 45,
            NftCardId::CunningFox => 46,
            NftCardId::CunningFoxGold => 47,
            NftCardId::DancerZombie => 48,
            NftCardId::DancerZombieGold => 49,
            NftCardId::DeathKnight => 50,
            NftCardId::DeathKnightGold => 51,
            NftCardId::DeceptionDragon => 52,
            NftCardId::DeceptionDragonGold => 53,
            NftCardId::DeterrentBot => 54,
            NftCardId::DeterrentBotGold => 55,
            NftCardId::DoggyBot => 56,
            NftCardId::DoggyBotGold => 57,
            NftCardId::DragonEgg => 58,
            NftCardId::DragonEggGold => 59,
            NftCardId::DurianAgent => 60,
            NftCardId::DurianAgentGold => 61,
            NftCardId::DurianCommander => 62,
            NftCardId::DurianCommanderGold => 63,
            NftCardId::ES67 => 64,
            NftCardId::ES67Gold => 65,
            NftCardId::EpicMiracleEgg => 66,
            NftCardId::EpicMiracleEggGold => 67,
            NftCardId::FarmerZombie => 68,
            NftCardId::FarmerZombieGold => 69,
            NftCardId::FriendlyHen => 70,
            NftCardId::FriendlyHenGold => 71,
            NftCardId::Frog => 72,
            NftCardId::FrogGold => 73,
            NftCardId::FrostDragon => 74,
            NftCardId::FrostDragonGold => 75,
            NftCardId::FryingPan => 76,
            NftCardId::FryingPanGold => 77,
            NftCardId::FuriousTiger => 78,
            NftCardId::FuriousTigerGold => 79,
            NftCardId::GT130 => 80,
            NftCardId::GT130Gold => 81,
            NftCardId::Garlic => 82,
            NftCardId::GarlicGold => 83,
            NftCardId::GrandpaBroccoli => 84,
            NftCardId::GrandpaBroccoliGold => 85,
            NftCardId::GreedyShark => 86,
            NftCardId::GreedySharkGold => 87,
            NftCardId::GuardianBot => 88,
            NftCardId::GuardianBotGold => 89,
            NftCardId::HardshellNut => 90,
            NftCardId::HardshellNutGold => 91,
            NftCardId::HelperBot => 92,
            NftCardId::HelperBotGold => 93,
            NftCardId::InfernoDragon => 94,
            NftCardId::InfernoDragonGold => 95,
            NftCardId::InflatableHammer => 96,
            NftCardId::InflatableHammerGold => 97,
            NftCardId::IronHelmet => 98,
            NftCardId::IronHelmetGold => 99,
            NftCardId::JoyfulLamb => 100,
            NftCardId::JoyfulLambGold => 101,
            NftCardId::KittyBot => 102,
            NftCardId::KittyBotGold => 103,
            NftCardId::LavaDragon => 104,
            NftCardId::LavaDragonGold => 105,
            NftCardId::LegendaryMiracleEgg => 106,
            NftCardId::LegendaryMiracleEggGold => 107,
            NftCardId::LionKing => 108,
            NftCardId::LionKingGold => 109,
            NftCardId::Lobster => 110,
            NftCardId::LobsterGold => 111,
            NftCardId::MadRabbit => 112,
            NftCardId::MadRabbitGold => 113,
            NftCardId::MasterPanda => 114,
            NftCardId::MasterPandaGold => 115,
            NftCardId::MechHatchery => 116,
            NftCardId::MechHatcheryGold => 117,
            NftCardId::MechanicKnight => 118,
            NftCardId::MechanicKnightGold => 119,
            NftCardId::MinerZombie => 120,
            NftCardId::MinerZombieGold => 121,
            NftCardId::MiniRobot => 122,
            NftCardId::MiniRobotGold => 123,
            NftCardId::MrCorn => 124,
            NftCardId::MrCornGold => 125,
            NftCardId::MrTomato => 126,
            NftCardId::MrTomatoGold => 127,
            NftCardId::NatureDragon => 128,
            NftCardId::NatureDragonGold => 129,
            NftCardId::NaughtyDragon => 130,
            NftCardId::NaughtyDragonGold => 131,
            NftCardId::ObsidianDragon => 132,
            NftCardId::ObsidianDragonGold => 133,
            NftCardId::OceanDragon => 134,
            NftCardId::OceanDragonGold => 135,
            NftCardId::PartyZombie => 136,
            NftCardId::PartyZombieGold => 137,
            NftCardId::Pineapple => 138,
            NftCardId::PineappleGold => 139,
            NftCardId::PirateZombie => 140,
            NftCardId::PirateZombieGold => 141,
            NftCardId::Poison => 142,
            NftCardId::PoisonMushroom => 143,
            NftCardId::PoisonMushroomGold => 144,
            NftCardId::PoisonGold => 145,
            NftCardId::PrinceZombie => 146,
            NftCardId::PrinceZombieGold => 147,
            NftCardId::Pumpkin => 148,
            NftCardId::PumpkinGold => 149,
            NftCardId::RadiantDragon => 150,
            NftCardId::RadiantDragonGold => 151,
            NftCardId::Radish => 152,
            NftCardId::RadishGold => 153,
            NftCardId::RagingShield => 154,
            NftCardId::RagingShieldGold => 155,
            NftCardId::RedChili => 156,
            NftCardId::RedChiliGold => 157,
            NftCardId::RiotShield => 158,
            NftCardId::RiotShieldGold => 159,
            NftCardId::RoadblockZombie => 160,
            NftCardId::RoadblockZombieGold => 161,
            NftCardId::RobotDuke => 162,
            NftCardId::RobotDukeGold => 163,
            NftCardId::RockDragon => 164,
            NftCardId::RockDragonGold => 165,
            NftCardId::Rocket => 166,
            NftCardId::RocketGold => 167,
            NftCardId::SailorZombie => 168,
            NftCardId::SailorZombieGold => 169,
            NftCardId::ScoutBot => 170,
            NftCardId::ScoutBotGold => 171,
            NftCardId::ShadowDragon => 172,
            NftCardId::ShadowDragonGold => 173,
            NftCardId::Shotgun => 174,
            NftCardId::ShotgunGold => 175,
            NftCardId::Snail => 176,
            NftCardId::SnailGold => 177,
            NftCardId::Snake => 178,
            NftCardId::SnakeGold => 179,
            NftCardId::SpikedBat => 180,
            NftCardId::SpikedBatGold => 181,
            NftCardId::StarZombie => 182,
            NftCardId::StarZombieGold => 183,
            NftCardId::StarvingMimic => 184,
            NftCardId::StarvingMimicGold => 185,
            NftCardId::SteelDragon => 186,
            NftCardId::SteelDragonGold => 187,
            NftCardId::Stone => 188,
            NftCardId::StoneGold => 189,
            NftCardId::StormDragon => 190,
            NftCardId::StormDragonGold => 191,
            NftCardId::SturdyBot => 192,
            NftCardId::SturdyBotGold => 193,
            NftCardId::SuperZombie => 194,
            NftCardId::SuperZombieGold => 195,
            NftCardId::SupportBot => 196,
            NftCardId::SupportBotGold => 197,
            NftCardId::TerraDragon => 198,
            NftCardId::TerraDragonGold => 199,
            NftCardId::ThunderDragon => 200,
            NftCardId::ThunderDragonGold => 201,
            NftCardId::TortoiseBro => 202,
            NftCardId::TortoiseBroGold => 203,
            NftCardId::Trumpet => 204,
            NftCardId::TrumpetGold => 205,
            NftCardId::Turner => 206,
            NftCardId::TurnerGold => 207,
            NftCardId::UFO => 208,
            NftCardId::UFOGold => 209,
            NftCardId::UncleElk => 210,
            NftCardId::UncleElkGold => 211,
            NftCardId::Watermelon => 212,
            NftCardId::WatermelonGold => 213,
            NftCardId::WindDragon => 214,
            NftCardId::WindDragonGold => 215,
            NftCardId::WolfKing => 216,
            NftCardId::WolfKingGold => 217,
            NftCardId::ZombieBaby => 218,
            NftCardId::ZombieBabyGold => 219,
            NftCardId::ZombieBride => 220,
            NftCardId::ZombieBrideGold => 221,
        }
    }

    /// Gives the place of this card in the catalog, counted from zero.
    pub fn to_ordinal(self) -> (place: usize)
        ensures
            place == self.ordinal(),
    {
        proof {
            reveal(NftCardId::ordinal);
        }
        match self {
            NftCardId::AlarmBot => 0,
            NftCardId::AlarmBotGold => 1,
            NftCardId::AmmoCrate => 2,
            NftCardId::AmmoCrateGold => 3,
            NftCardId::AngryBull => 4,
            NftCardId::AngryBullGold => 5,
            NftCardId::Apple => 6,
            NftCardId::AppleGold => 7,
            NftCardId::ArrogantBoar => 8,
            NftCardId::ArrogantBoarGold => 9,
            NftCardId::AvengerD0 => 10,
            NftCardId::AvengerD0Gold => 11,
            NftCardId::Avocado => 12,
            NftCardId::AvocadoGold => 13,
            NftCardId::Axe => 14,
            NftCardId::AxeGold => 15,
            NftCardId::BarrelZombie => 16,
            NftCardId::BarrelZombieGold => 17,
            NftCardId::BombZombie => 18,
            NftCardId::BombZombieGold => 19,
            NftCardId::BoxingGloves => 20,
            NftCardId::BoxingGlovesGold => 21,
            NftCardId::BraveBeaver => 22,
            NftCardId::BraveBeaverGold => 23,
            NftCardId::Broom => 24,
            NftCardId::BroomGold => 25,
            NftCardId::Cabbage => 26,
            NftCardId::CabbageGold => 27,
            NftCardId::Cactus => 28,
            NftCardId::CactusGold => 29,
            NftCardId::Cannon => 30,
            NftCardId::CannonGold => 31,
            NftCardId::Chainsaw => 32,
            NftCardId::ChainsawGold => 33,
            NftCardId::ChargeBot => 34,
            NftCardId::ChargeBotGold => 35,
            NftCardId::CheerleaderZombie => 36,
            NftCardId::CheerleaderZombieGold => 37,
            NftCardId::ClownZombie => 38,
            NftCardId::ClownZombieGold => 39,
            NftCardId::Coconut => 40,
            NftCardId::CoconutGold => 41,
            NftCardId::CrazyDoctorZombie => 42,
            NftCardId::CrazyDoctorZombieGold => 43,
            NftCardId::CrystalDragon => 44,
            NftCardId::CrystalDragonGold => 45,
            NftCardId::CunningFox => 46,
            NftCardId::CunningFoxGold => 47,
            NftCardId::DancerZombie => 48,
            NftCardId::DancerZombieGold => 49,
            NftCardId::DeathKnight => 50,
            NftCardId::DeathKnightGold => 51,
            NftCardId::DeceptionDragon => 52,
            NftCardId::DeceptionDragonGold => 53,
            NftCardId::DeterrentBot => 54,
            NftCardId::DeterrentBotGold => 55,
            NftCardId::DoggyBot => 56,
            NftCardId::DoggyBotGold => 57,
            NftCardId::DragonEgg => 58,
            NftCardId::DragonEggGold => 59,
            NftCardId::DurianAgent => 60,
            NftCardId::DurianAgentGold => 61,
            NftCardId::DurianCommander => 62,
            NftCardId::DurianCommanderGold => 63,
            NftCardId::ES67 => 64,
            NftCardId::ES67Gold => 65,
            NftCardId::EpicMiracleEgg => 66,
            NftCardId::EpicMiracleEggGold => 67,
            NftCardId::FarmerZombie => 68,
            NftCardId::FarmerZombieGold => 69,
            NftCardId::FriendlyHen => 70,
            NftCardId::FriendlyHenGold => 71,
            NftCardId::Frog => 72,
            NftCardId::FrogGold => 73,
            NftCardId::FrostDragon => 74,
            NftCardId::FrostDragonGold => 75,
            NftCardId::FryingPan => 76,
            NftCardId::FryingPanGold => 77,
            NftCardId::FuriousTiger => 78,
            NftCardId::FuriousTigerGold => 79,
            NftCardId::GT130 => 80,
            NftCardId::GT130Gold => 81,
            NftCardId::Garlic => 82,
            NftCardId::GarlicGold => 83,
            NftCardId::GrandpaBroccoli => 84,
            NftCardId::GrandpaBroccoliGold => 85,
            NftCardId::GreedyShark => 86,
            NftCardId::GreedySharkGold => 87,
            NftCardId::GuardianBot => 88,
            NftCardId::GuardianBotGold => 89,
            NftCardId::HardshellNut => 90,
            NftCardId::HardshellNutGold => 91,
            NftCardId::HelperBot => 92,
            NftCardId::HelperBotGold => 93,
            NftCardId::InfernoDragon => 94,
            NftCardId::InfernoDragonGold => 95,
            NftCardId::InflatableHammer => 96,
            NftCardId::InflatableHammerGold => 97,
            NftCardId::IronHelmet => 98,
            NftCardId::IronHelmetGold => 99,
            NftCardId::JoyfulLamb => 100,
            NftCardId::JoyfulLambGold => 101,
            NftCardId::KittyBot => 102,
            NftCardId::KittyBotGold => 103,
            NftCardId::LavaDragon => 104,
            NftCardId::LavaDragonGold => 105,
            NftCardId::LegendaryMiracleEgg => 106,
            NftCardId::LegendaryMiracleEggGold => 107,
            NftCardId::LionKing => 108,
            NftCardId::LionKingGold => 109,
            NftCardId::Lobster => 110,
            NftCardId::LobsterGold => 111,
            NftCardId::MadRabbit => 112,
            NftCardId::MadRabbitGold => 113,
            NftCardId::MasterPanda => 114,
            NftCardId::MasterPandaGold => 115,
            NftCardId::MechHatchery => 116,
            NftCardId::MechHatcheryGold => 117,
            NftCardId::MechanicKnight => 118,
            NftCardId::MechanicKnightGold => 119,
            NftCardId::MinerZombie => 120,
            NftCardId::MinerZombieGold => 121,
            NftCardId::MiniRobot => 122,
            NftCardId::MiniRobotGold => 123,
            NftCardId::MrCorn => 124,
            NftCardId::MrCornGold => 125,
            NftCardId::MrTomato => 126,
            NftCardId::MrTomatoGold => 127,
            NftCardId::NatureDragon => 128,
            NftCardId::NatureDragonGold => 129,
            NftCardId::NaughtyDragon => 130,
            NftCardId::NaughtyDragonGold => 131,
            NftCardId::ObsidianDragon => 132,
            NftCardId::ObsidianDragonGold => 133,
            NftCardId::OceanDragon => 134,
            NftCardId::OceanDragonGold => 135,
            NftCardId::PartyZombie => 136,
            NftCardId::PartyZombieGold => 137,
            NftCardId::Pineapple => 138,
            NftCardId::PineappleGold => 139,
            NftCardId::PirateZombie => 140,
            NftCardId::PirateZombieGold => 141,
            NftCardId::Poison => 142,
            NftCardId::PoisonMushroom => 143,
            NftCardId::PoisonMushroomGold => 144,
            NftCardId::PoisonGold => 145,
            NftCardId::PrinceZombie => 146,
            NftCardId::PrinceZombieGold => 147,
            NftCardId::Pumpkin => 148,
            NftCardId::PumpkinGold => 149,
            NftCardId::RadiantDragon => 150,
            NftCardId::RadiantDragonGold => 151,
            NftCardId::Radish => 152,
            NftCardId::RadishGold => 153,
            NftCardId::RagingShield => 154,
            NftCardId::RagingShieldGold => 155,
            NftCardId::RedChili => 156,
            NftCardId::RedChiliGold => 157,
            NftCardId::RiotShield => 158,
            NftCardId::RiotShieldGold => 159,
            NftCardId::RoadblockZombie => 160,
            NftCardId::RoadblockZombieGold => 161,
            NftCardId::RobotDuke => 162,
            NftCardId::RobotDukeGold => 163,
            NftCardId::RockDragon => 164,
            NftCardId::RockDragonGold => 165,
            NftCardId::Rocket => 166,
            NftCardId::RocketGold => 167,
            NftCardId::SailorZombie => 168,
            NftCardId::SailorZombieGold => 169,
            NftCardId::ScoutBot => 170,
            NftCardId::ScoutBotGold => 171,
            NftCardId::ShadowDragon => 172,
            NftCardId::ShadowDragonGold => 173,
            NftCardId::Shotgun => 174,
            NftCardId::ShotgunGold => 175,
            NftCardId::Snail => 176,
            NftCardId::SnailGold => 177,
            NftCardId::Snake => 178,
            NftCardId::SnakeGold => 179,
            NftCardId::SpikedBat => 180,
            NftCardId::SpikedBatGold => 181,
            NftCardId::StarZombie => 182,
            NftCardId::StarZombieGold => 183,
            NftCardId::StarvingMimic => 184,
            NftCardId::StarvingMimicGold => 185,
            NftCardId::SteelDragon => 186,
            NftCardId::SteelDragonGold => 187,
            NftCardId::Stone => 188,
            NftCardId::StoneGold => 189,
            NftCardId::StormDragon => 190,
            NftCardId::StormDragonGold => 191,
            NftCardId::SturdyBot => 192,
            NftCardId::SturdyBotGold => 193,
            NftCardId::SuperZombie => 194,
            NftCardId::SuperZombieGold => 195,
            NftCardId::SupportBot => 196,
            NftCardId::SupportBotGold => 197,
            NftCardId::TerraDragon => 198,
            NftCardId::TerraDragonGold => 199,
            NftCardId::ThunderDragon => 200,
            NftCardId::ThunderDragonGold => 201,
            NftCardId::TortoiseBro => 202,
            NftCardId::TortoiseBroGold => 203,
            NftCardId::Trumpet => 204,
            NftCardId::TrumpetGold => 205,
            NftCardId::Turner => 206,
            NftCardId::TurnerGold => 207,
            NftCardId::UFO => 208,
            NftCardId::UFOGold => 209,
            NftCardId::UncleElk => 210,
            NftCardId::UncleElkGold => 211,
            NftCardId::Watermelon => 212,
            NftCardId::WatermelonGold => 213,
            NftCardId::WindDragon => 214,
            NftCardId::WindDragonGold => 215,
            NftCardId::WolfKing => 216,
            NftCardId::WolfKingGold => 217,
            NftCardId::ZombieBaby => 218,
            NftCardId::ZombieBabyGold => 219,
            NftCardId::ZombieBride => 220,
            NftCardId::ZombieBrideGold => 221,
        }
    }

    /// The card at place `place` of the catalog.
    #[verifier::opaque]
    pub open spec fn card_at(place: usize) -> NftCardId
    {
        match place {
            0 => NftCardId::AlarmBot,
            1 => NftCardId::AlarmBotGold,
            2 => NftCardId::AmmoCrate,
            3 => NftCardId::AmmoCrateGold,
            4 => NftCardId::AngryBull,
            5 => NftCardId::AngryBullGold,
            6 => NftCardId::Apple,
            7 => NftCardId::AppleGold,
            8 => NftCardId::ArrogantBoar,
            9 => NftCardId::ArrogantBoarGold,
            10 => NftCardId::AvengerD0,
            11 => NftCardId::AvengerD0Gold,
            12 => NftCardId::Avocado,
            13 => NftCardId::AvocadoGold,
            14 => NftCardId::Axe,
            15 => NftCardId::AxeGold,
            16 => NftCardId::BarrelZombie,
            17 => NftCardId::BarrelZombieGold,
            18 => NftCardId::BombZombie,
            19 => NftCardId::BombZombieGold,
            20 => NftCardId::BoxingGloves,
            21 => NftCardId::BoxingGlovesGold,
            22 => NftCardId::BraveBeaver,
            23 => NftCardId::BraveBeaverGold,
            24 => NftCardId::Broom,
            25 => NftCardId::BroomGold,
            26 => NftCardId::Cabbage,
            27 => NftCardId::CabbageGold,
            28 => NftCardId::Cactus,
            29 => NftCardId::CactusGold,
            30 => NftCardId::Cannon,
            31 => NftCardId::CannonGold,
            32 => NftCardId::Chainsaw,
            33 => NftCardId::ChainsawGold,
            34 => NftCardId::ChargeBot,
            35 => NftCardId::ChargeBotGold,
            36 => NftCardId::CheerleaderZombie,
            37 => NftCardId::CheerleaderZombieGold,
            38 => NftCardId::ClownZombie,
            39 => NftCardId::ClownZombieGold,
            40 => NftCardId::Coconut,
            41 => NftCardId::CoconutGold,
            42 => NftCardId::CrazyDoctorZombie,
            43 => NftCardId::CrazyDoctorZombieGold,
            44 => NftCardId::CrystalDragon,
            45 => NftCardId::CrystalDragonGold,
            46 => NftCardId::CunningFox,
            47 => NftCardId::CunningFoxGold,
            48 => NftCardId::DancerZombie,
            49 => NftCardId::DancerZombieGold,
            50 => NftCardId::DeathKnight,
            51 => NftCardId::DeathKnightGold,
            52 => NftCardId::DeceptionDragon,
            53 => NftCardId::DeceptionDragonGold,
            54 => NftCardId::DeterrentBot,
            55 => NftCardId::DeterrentBotGold,
            56 => NftCardId::DoggyBot,
            57 => NftCardId::DoggyBotGold,
            58 => NftCardId::DragonEgg,
            59 => NftCardId::DragonEggGold,
            60 => NftCardId::DurianAgent,
            61 => NftCardId::DurianAgentGold,
            62 => NftCardId::DurianCommander,
            63 => NftCardId::DurianCommanderGold,
            64 => NftCardId::ES67,
            65 => NftCardId::ES67Gold,
            66 => NftCardId::EpicMiracleEgg,
            67 => NftCardId::EpicMiracleEggGold,
            68 => NftCardId::FarmerZombie,
            69 => NftCardId::FarmerZombieGold,
            70 => NftCardId::FriendlyHen,
            71 => NftCardId::FriendlyHenGold,
            72 => NftCardId::Frog,
            73 => NftCardId::FrogGold,
            74 => NftCardId::FrostDragon,
            75 => NftCardId::FrostDragonGold,
            76 => NftCardId::FryingPan,
            77 => NftCardId::FryingPanGold,
            78 => NftCardId::FuriousTiger,
            79 => NftCardId::FuriousTigerGold,
            80 => NftCardId::GT130,
            81 => NftCardId::GT130Gold,
            82 => NftCardId::Garlic,
            83 => NftCardId::GarlicGold,
            84 => NftCardId::GrandpaBroccoli,
            85 => NftCardId::GrandpaBroccoliGold,
            86 => NftCardId::GreedyShark,
            87 => NftCardId::GreedySharkGold,
            88 => NftCardId::GuardianBot,
            89 => NftCardId::GuardianBotGold,
            90 => NftCardId::HardshellNut,
            91 => NftCardId::HardshellNutGold,
            92 => NftCardId::HelperBot,
            93 => NftCardId::HelperBotGold,
            94 => NftCardId::InfernoDragon,
            95 => NftCardId::InfernoDragonGold,
            96 => NftCardId::InflatableHammer,
            97 => NftCardId::InflatableHammerGold,
            98 => NftCardId::IronHelmet,
            99 => NftCardId::IronHelmetGold,
            100 => NftCardId::JoyfulLamb,
            101 => NftCardId::JoyfulLambGold,
            102 => NftCardId::KittyBot,
            103 => NftCardId::KittyBotGold,
            104 => NftCardId::LavaDragon,
            105 => NftCardId::LavaDragonGold,
            106 => NftCardId::LegendaryMiracleEgg,
            107 => NftCardId::LegendaryMiracleEggGold,
            108 => NftCardId::LionKing,
            109 => NftCardId::LionKingGold,
            110 => NftCardId::Lobster,
            111 => NftCardId::LobsterGold,
            112 => NftCardId::MadRabbit,
            113 => NftCardId::MadRabbitGold,
            114 => NftCardId::MasterPanda,
            115 => NftCardId::MasterPandaGold,
            116 => NftCardId::MechHatchery,
            117 => NftCardId::MechHatcheryGold,
            118 => NftCardId::MechanicKnight,
            119 => NftCardId::MechanicKnightGold,
            120 => NftCardId::MinerZombie,
            121 => NftCardId::MinerZombieGold,
            122 => NftCardId::MiniRobot,
            123 => NftCardId::MiniRobotGold,
            124 => NftCardId::MrCorn,
            125 => NftCardId::MrCornGold,
            126 => NftCardId::MrTomato,
            127 => NftCardId::MrTomatoGold,
            128 => NftCardId::NatureDragon,
            129 => NftCardId::NatureDragonGold,
            130 => NftCardId::NaughtyDragon,
            131 => NftCardId::NaughtyDragonGold,
            132 => NftCardId::ObsidianDragon,
            133 => NftCardId::ObsidianDragonGold,
            134 => NftCardId::OceanDragon,
            135 => NftCardId::OceanDragonGold,
            136 => NftCardId::PartyZombie,
            137 => NftCardId::PartyZombieGold,
            138 => NftCardId::Pineapple,
            139 => NftCardId::PineappleGold,
            140 => NftCardId::PirateZombie,
            141 => NftCardId::PirateZombieGold,
            142 => NftCardId::Poison,
            143 => NftCardId::PoisonMushroom,
            144 => NftCardId::PoisonMushroomGold,
            145 => NftCardId::PoisonGold,
            146 => NftCardId::PrinceZombie,
            147 => NftCardId::PrinceZombieGold,
            148 => NftCardId::Pumpkin,
            149 => NftCardId::PumpkinGold,
            150 => NftCardId::RadiantDragon,
            151 => NftCardId::RadiantDragonGold,
            152 => NftCardId::Radish,
            153 => NftCardId::RadishGold,
            154 => NftCardId::RagingShield,
            155 => NftCardId::RagingShieldGold,
            156 => NftCardId::RedChili,
            157 => NftCardId::RedChiliGold,
            158 => NftCardId::RiotShield,
            159 => NftCardId::RiotShieldGold,
            160 => NftCardId::RoadblockZombie,
            161 => NftCardId::RoadblockZombieGold,
            162 => NftCardId::RobotDuke,
            163 => NftCardId::RobotDukeGold,
            164 => NftCardId::RockDragon,
            165 => NftCardId::RockDragonGold,
            166 => NftCardId::Rocket,
            167 => NftCardId::RocketGold,
            168 => NftCardId::SailorZombie,
            169 => NftCardId::SailorZombieGold,
            170 => NftCardId::ScoutBot,
            171 => NftCardId::ScoutBotGold,
            172 => NftCardId::ShadowDragon,
            173 => NftCardId::ShadowDragonGold,
            174 => NftCardId::Shotgun,
            175 => NftCardId::ShotgunGold,
            176 => NftCardId::Snail,
            177 => NftCardId::SnailGold,
            178 => NftCardId::Snake,
            179 => NftCardId::SnakeGold,
            180 => NftCardId::SpikedBat,
            181 => NftCardId::SpikedBatGold,
            182 => NftCardId::StarZombie,
            183 => NftCardId::StarZombieGold,
            184 => NftCardId::StarvingMimic,
            185 => NftCardId::StarvingMimicGold,
            186 => NftCardId::SteelDragon,
            187 => NftCardId::SteelDragonGold,
            188 => NftCardId::Stone,
            189 => NftCardId::StoneGold,
            190 => NftCardId::StormDragon,
            191 => NftCardId::StormDragonGold,
            192 => NftCardId::SturdyBot,
            193 => NftCardId::SturdyBotGold,
            194 => NftCardId::SuperZombie,
            195 => NftCardId::SuperZombieGold,
            196 => NftCardId::SupportBot,
            197 => NftCardId::SupportBotGold,
            198 => NftCardId::TerraDragon,
            199 => NftCardId::TerraDragonGold,
            200 => NftCardId::ThunderDragon,
            201 => NftCardId::ThunderDragonGold,
            202 => NftCardId::TortoiseBro,
            203 => NftCardId::TortoiseBroGold,
            204 => NftCardId::Trumpet,
            205 => NftCardId::TrumpetGold,
            206 => NftCardId::Turner,
            207 => NftCardId::TurnerGold,
            208 => NftCardId::UFO,
            209 => NftCardId::UFOGold,
            210 => NftCardId::UncleElk,
            211 => NftCardId::UncleElkGold,
            212 => NftCardId::Watermelon,
            213 => NftCardId::WatermelonGold,
            214 => NftCardId::WindDragon,
            215 => NftCardId::WindDragonGold,
            216 => NftCardId::WolfKing,
            217 => NftCardId::WolfKingGold,
            218 => NftCardId::ZombieBaby,
            219 => NftCardId::ZombieBabyGold,
            220 => NftCardId::ZombieBride,
            221 => NftCardId::ZombieBrideGold,
            _ => NftCardId::ZombieBrideGold,
        }
    }

    /// The card at place `i` of the catalog.
    pub open spec fn nth(i: int) -> NftCardId {
        NftCardId::card_at(i as usize)
    }

    /// Gives the card at place `i` of the catalog.
    pub(crate) fn at(i: usize) -> (card: NftCardId)
        requires
            i < CARD_COUNT,
        ensures
            card == NftCardId::nth(i as int),
    {
        proof {
            reveal(NftCardId::card_at);
        }
        match i {
            0 => NftCardId::AlarmBot,
            1 => NftCardId::AlarmBotGold,
            2 => NftCardId::AmmoCrate,
            3 => NftCardId::AmmoCrateGold,
            4 => NftCardId::AngryBull,
            5 => NftCardId::AngryBullGold,
            6 => NftCardId::Apple,
            7 => NftCardId::AppleGold,
            8 => NftCardId::ArrogantBoar,
            9 => NftCardId::ArrogantBoarGold,
            10 => NftCardId::AvengerD0,
            11 => NftCardId::AvengerD0Gold,
            12 => NftCardId::Avocado,
            13 => NftCardId::AvocadoGold,
            14 => NftCardId::Axe,
            15 => NftCardId::AxeGold,
            16 => NftCardId::BarrelZombie,
            17 => NftCardId::BarrelZombieGold,
            18 => NftCardId::BombZombie,
            19 => NftCardId::BombZombieGold,
            20 => NftCardId::BoxingGloves,
            21 => NftCardId::BoxingGlovesGold,
            22 => NftCardId::BraveBeaver,
            23 => NftCardId::BraveBeaverGold,
            24 => NftCardId::Broom,
            25 => NftCardId::BroomGold,
            26 => NftCardId::Cabbage,
            27 => NftCardId::CabbageGold,
            28 => NftCardId::Cactus,
            29 => NftCardId::CactusGold,
            30 => NftCardId::Cannon,
            31 => NftCardId::CannonGold,
            32 => NftCardId::Chainsaw,
            33 => NftCardId::ChainsawGold,
            34 => NftCardId::ChargeBot,
            35 => NftCardId::ChargeBotGold,
            36 => NftCardId::CheerleaderZombie,
            37 => NftCardId::CheerleaderZombieGold,
            38 => NftCardId::ClownZombie,
            39 => NftCardId::ClownZombieGold,
            40 => NftCardId::Coconut,
            41 => NftCardId::CoconutGold,
            42 => NftCardId::CrazyDoctorZombie,
            43 => NftCardId::CrazyDoctorZombieGold,
            44 => NftCardId::CrystalDragon,
            45 => NftCardId::CrystalDragonGold,
            46 => NftCardId::CunningFox,
            47 => NftCardId::CunningFoxGold,
            48 => NftCardId::DancerZombie,
            49 => NftCardId::DancerZombieGold,
            50 => NftCardId::DeathKnight,
            51 => NftCardId::DeathKnightGold,
            52 => NftCardId::DeceptionDragon,
            53 => NftCardId::DeceptionDragonGold,
            54 => NftCardId::DeterrentBot,
            55 => NftCardId::DeterrentBotGold,
            56 => NftCardId::DoggyBot,
            57 => NftCardId::DoggyBotGold,
            58 => NftCardId::DragonEgg,
            59 => NftCardId::DragonEggGold,
            60 => NftCardId::DurianAgent,
            61 => NftCardId::DurianAgentGold,
            62 => NftCardId::DurianCommander,
            63 => NftCardId::DurianCommanderGold,
            64 => NftCardId::ES67,
            65 => NftCardId::ES67Gold,
            66 => NftCardId::EpicMiracleEgg,
            67 => NftCardId::EpicMiracleEggGold,
            68 => NftCardId::FarmerZombie,
            69 => NftCardId::FarmerZombieGold,
            70 => NftCardId::FriendlyHen,
            71 => NftCardId::FriendlyHenGold,
            72 => NftCardId::Frog,
            73 => NftCardId::FrogGold,
            74 => NftCardId::FrostDragon,
            75 => NftCardId::FrostDragonGold,
            76 => NftCardId::FryingPan,
            77 => NftCardId::FryingPanGold,
            78 => NftCardId::FuriousTiger,
            79 => NftCardId::FuriousTigerGold,
            80 => NftCardId::GT130,
            81 => NftCardId::GT130Gold,
            82 => NftCardId::Garlic,
            83 => NftCardId::GarlicGold,
            84 => NftCardId::GrandpaBroccoli,
            85 => NftCardId::GrandpaBroccoliGold,
            86 => NftCardId::GreedyShark,
            87 => NftCardId::GreedySharkGold,
            88 => NftCardId::GuardianBot,
            89 => NftCardId::GuardianBotGold,
            90 => NftCardId::HardshellNut,
            91 => NftCardId::HardshellNutGold,
            92 => NftCardId::HelperBot,
            93 => NftCardId::HelperBotGold,
            94 => NftCardId::InfernoDragon,
            95 => NftCardId::InfernoDragonGold,
            96 => NftCardId::InflatableHammer,
            97 => NftCardId::InflatableHammerGold,
            98 => NftCardId::IronHelmet,
            99 => NftCardId::IronHelmetGold,
            100 => NftCardId::JoyfulLamb,
            101 => NftCardId::JoyfulLambGold,
            102 => NftCardId::KittyBot,
            103 => NftCardId::KittyBotGold,
            104 => NftCardId::LavaDragon,
            105 => NftCardId::LavaDragonGold,
            106 => NftCardId::LegendaryMiracleEgg,
            107 => NftCardId::LegendaryMiracleEggGold,
            108 => NftCardId::LionKing,
            109 => NftCardId::LionKingGold,
            110 => NftCardId::Lobster,
            111 => NftCardId::LobsterGold,
            112 => NftCardId::MadRabbit,
            113 => NftCardId::MadRabbitGold,
            114 => NftCardId::MasterPanda,
            115 => NftCardId::MasterPandaGold,
            116 => NftCardId::MechHatchery,
            117 => NftCardId::MechHatcheryGold,
            118 => NftCardId::MechanicKnight,
            119 => NftCardId::MechanicKnightGold,
            120 => NftCardId::MinerZombie,
            121 => NftCardId::MinerZombieGold,
            122 => NftCardId::MiniRobot,
            123 => NftCardId::MiniRobotGold,
            124 => NftCardId::MrCorn,
            125 => NftCardId::MrCornGold,
            126 => NftCardId::MrTomato,
            127 => NftCardId::MrTomatoGold,
            128 => NftCardId::NatureDragon,
            129 => NftCardId::NatureDragonGold,
            130 => NftCardId::NaughtyDragon,
            131 => NftCardId::NaughtyDragonGold,
            132 => NftCardId::ObsidianDragon,
            133 => NftCardId::ObsidianDragonGold,
            134 => NftCardId::OceanDragon,
            135 => NftCardId::OceanDragonGold,
            136 => NftCardId::PartyZombie,
            137 => NftCardId::PartyZombieGold,
            138 => NftCardId::Pineapple,
            139 => NftCardId::PineappleGold,
            140 => NftCardId::PirateZombie,
            141 => NftCardId::PirateZombieGold,
            142 => NftCardId::Poison,
            143 => NftCardId::PoisonMushroom,
            144 => NftCardId::PoisonMushroomGold,
            145 => NftCardId::PoisonGold,
            146 => NftCardId::PrinceZombie,
            147 => NftCardId::PrinceZombieGold,
            148 => NftCardId::Pumpkin,
            149 => NftCardId::PumpkinGold,
            150 => NftCardId::RadiantDragon,
            151 => NftCardId::RadiantDragonGold,
            152 => NftCardId::Radish,
            153 => NftCardId::RadishGold,
            154 => NftCardId::RagingShield,
            155 => NftCardId::RagingShieldGold,
            156 => NftCardId::RedChili,
            157 => NftCardId::RedChiliGold,
            158 => NftCardId::RiotShield,
            159 => NftCardId::RiotShieldGold,
            160 => NftCardId::RoadblockZombie,
            161 => NftCardId::RoadblockZombieGold,
            162 => NftCardId::RobotDuke,
            163 => NftCardId::RobotDukeGold,
            164 => NftCardId::RockDragon,
            165 => NftCardId::RockDragonGold,
            166 => NftCardId::Rocket,
            167 => NftCardId::RocketGold,
            168 => NftCardId::SailorZombie,
            169 => NftCardId::SailorZombieGold,
            170 => NftCardId::ScoutBot,
            171 => NftCardId::ScoutBotGold,
            172 => NftCardId::ShadowDragon,
            173 => NftCardId::ShadowDragonGold,
            174 => NftCardId::Shotgun,
            175 => NftCardId::ShotgunGold,
            176 => NftCardId::Snail,
            177 => NftCardId::SnailGold,
            178 => NftCardId::Snake,
            179 => NftCardId::SnakeGold,
            180 => NftCardId::SpikedBat,
            181 => NftCardId::SpikedBatGold,
            182 => NftCardId::StarZombie,
            183 => NftCardId::StarZombieGold,
            184 => NftCardId::StarvingMimic,
            185 => NftCardId::StarvingMimicGold,
            186 => NftCardId::SteelDragon,
            187 => NftCardId::SteelDragonGold,
            188 => NftCardId::Stone,
            189 => NftCardId::StoneGold,
            190 => NftCardId::StormDragon,
            191 => NftCardId::StormDragonGold,
            192 => NftCardId::SturdyBot,
            193 => NftCardId::SturdyBotGold,
            194 => NftCardId::SuperZombie,
            195 => NftCardId::SuperZombieGold,
            196 => NftCardId::SupportBot,
            197 => NftCardId::SupportBotGold,
            198 => NftCardId::TerraDragon,
            199 => NftCardId::TerraDragonGold,
            200 => NftCardId::ThunderDragon,
            201 => NftCardId::ThunderDragonGold,
            202 => NftCardId::TortoiseBro,
            203 => NftCardId::TortoiseBroGold,
            204 => NftCardId::Trumpet,
            205 => NftCardId::TrumpetGold,
            206 => NftCardId::Turner,
            207 => NftCardId::TurnerGold,
            208 => NftCardId::UFO,
            209 => NftCardId::UFOGold,
            210 => NftCardId::UncleElk,
            211 => NftCardId::UncleElkGold,
            212 => NftCardId::Watermelon,
            213 => NftCardId::WatermelonGold,
            214 => NftCardId::WindDragon,
            215 => NftCardId::WindDragonGold,
            216 => NftCardId::WolfKing,
            217 => NftCardId::WolfKingGold,
            218 => NftCardId::ZombieBaby,
            219 => NftCardId::ZombieBabyGold,
            220 => NftCardId::ZombieBride,
            221 => NftCardId::ZombieBrideGold,
            _ => NftCardId::ZombieBrideGold,
        }
    }

    /// The English name of this card.
    #[verifier::opaque]
    pub open spec fn name_en(self) -> Seq<char>
    {
        match self {
            NftCardId::AlarmBot => "Alarm Bot"@,
            NftCardId::AlarmBotGold => "Alarm Bot (Gold)"@,
            NftCardId::AmmoCrate => "Ammo Crate"@,
            NftCardId::AmmoCrateGold => "Ammo Crate (Gold)"@,
            NftCardId::AngryBull => "Angry Bull"@,
            NftCardId::AngryBullGold => "Angry Bull (Gold)"@,
            NftCardId::Apple => "Apple"@,
            NftCardId::AppleGold => "Apple (Gold)"@,
            NftCardId::ArrogantBoar => "Arrogant Boar"@,
            NftCardId::ArrogantBoarGold => "Arrogant Boar (Gold)"@,
            NftCardId::AvengerD0 => "Avenger D0"@,
            NftCardId::AvengerD0Gold => "Avenger D0 (Gold)"@,
            NftCardId::Avocado => "Avocado"@,
            NftCardId::AvocadoGold => "Avocado (Gold)"@,
            NftCardId::Axe => "Axe"@,
            NftCardId::AxeGold => "Axe (Gold)"@,
            NftCardId::BarrelZombie => "Barrel Zombie"@,
            NftCardId::BarrelZombieGold => "Barrel Zombie (Gold)"@,
            NftCardId::BombZombie => "Bomb Zombie"@,
            NftCardId::BombZombieGold => "Bomb Zombie (Gold)"@,
            NftCardId::BoxingGloves => "Boxing Gloves"@,
            NftCardId::BoxingGlovesGold => "Boxing Gloves (Gold)"@,
            NftCardId::BraveBeaver => "Brave Beaver"@,
            NftCardId::BraveBeaverGold => "Brave Beaver (Gold)"@,
            NftCardId::Broom => "Broom"@,
            NftCardId::BroomGold => "Broom (Gold)"@,
            NftCardId::Cabbage => "Cabbage"@,
            NftCardId::CabbageGold => "Cabbage (Gold)"@,
            NftCardId::Cactus => "Cactus"@,
            NftCardId::CactusGold => "Cactus (Gold)"@,
            NftCardId::Cannon => "Cannon"@,
            NftCardId::CannonGold => "Cannon (Gold)"@,
            NftCardId::Chainsaw => "Chainsaw"@,
            NftCardId::ChainsawGold => "Chainsaw (Gold)"@,
            NftCardId::ChargeBot => "Charge Bot"@,
            NftCardId::ChargeBotGold => "Charge Bot (Gold)"@,
            NftCardId::CheerleaderZombie => "Cheerleader Zombie"@,
            NftCardId::CheerleaderZombieGold => "Cheerleader Zombie (Gold)"@,
            NftCardId::ClownZombie => "Clown Zombie"@,
            NftCardId::ClownZombieGold => "Clown Zombie (Gold)"@,
            NftCardId::Coconut => "Coconut"@,
            NftCardId::CoconutGold => "Coconut (Gold)"@,
            NftCardId::CrazyDoctorZombie => "Crazy Doctor Zombie"@,
            NftCardId::CrazyDoctorZombieGold => "Crazy Doctor Zombie (Gold)"@,
            NftCardId::CrystalDragon => "Crystal Dragon"@,
            NftCardId::CrystalDragonGold => "Crystal Dragon (Gold)"@,
            NftCardId::CunningFox => "Cunning Fox"@,
            NftCardId::CunningFoxGold => "Cunning Fox (Gold)"@,
            NftCardId::DancerZombie => "Dancer Zombie"@,
            NftCardId::DancerZombieGold => "Dancer Zombie (Gold)"@,
            NftCardId::DeathKnight => "Death Knight"@,
            NftCardId::DeathKnightGold => "Death Knight (Gold)"@,
            NftCardId::DeceptionDragon => "Deception Dragon"@,
            NftCardId::DeceptionDragonGold => "Deception Dragon (Gold)"@,
            NftCardId::DeterrentBot => "Deterrent Bot"@,
            NftCardId::DeterrentBotGold => "Deterrent Bot (Gold)"@,
            NftCardId::DoggyBot => "Doggy Bot"@,
            NftCardId::DoggyBotGold => "Doggy Bot (Gold)"@,
            NftCardId::DragonEgg => "Dragon Egg"@,
            NftCardId::DragonEggGold => "Dragon Egg (Gold)"@,
            NftCardId::DurianAgent => "Durian Agent"@,
            NftCardId::DurianAgentGold => "Durian Agent (Gold)"@,
            NftCardId::DurianCommander => "Durian Commander"@,
            NftCardId::DurianCommanderGold => "Durian Commander (Gold)"@,
            NftCardId::ES67 => "ES67"@,
            NftCardId::ES67Gold => "ES67 (Gold)"@,
            NftCardId::EpicMiracleEgg => "Epic Miracle Egg"@,
            NftCardId::EpicMiracleEggGold => "Epic Miracle Egg (Gold)"@,
            NftCardId::FarmerZombie => "Farmer Zombie"@,
            NftCardId::FarmerZombieGold => "Farmer Zombie (Gold)"@,
            NftCardId::FriendlyHen => "Friendly Hen"@,
            NftCardId::FriendlyHenGold => "Friendly Hen (Gold)"@,
            NftCardId::Frog => "Frog"@,
            NftCardId::FrogGold => "Frog (Gold)"@,
            NftCardId::FrostDragon => "Frost Dragon"@,
            NftCardId::FrostDragonGold => "Frost Dragon (Gold)"@,
            NftCardId::FryingPan => "Frying Pan"@,
            NftCardId::FryingPanGold => "Frying Pan (Gold)"@,
            NftCardId::FuriousTiger => "Furious Tiger"@,
            NftCardId::FuriousTigerGold => "Furious Tiger (Gold)"@,
            NftCardId::GT130 => "GT130"@,
            NftCardId::GT130Gold => "GT130 (Gold)"@,
            NftCardId::Garlic => "Garlic"@,
            NftCardId::GarlicGold => "Garlic (Gold)"@,
            NftCardId::GrandpaBroccoli => "Grandpa Broccoli"@,
            NftCardId::GrandpaBroccoliGold => "Grandpa Broccoli (Gold)"@,
            NftCardId::GreedyShark => "Greedy Shark"@,
            NftCardId::GreedySharkGold => "Greedy Shark (Gold)"@,
            NftCardId::GuardianBot => "Guardian Bot"@,
            NftCardId::GuardianBotGold => "Guardian Bot (Gold)"@,
            NftCardId::HardshellNut => "Hardshell Nut"@,
            NftCardId::HardshellNutGold => "Hardshell Nut (Gold)"@,
            NftCardId::HelperBot => "Helper Bot"@,
            NftCardId::HelperBotGold => "Helper Bot (Gold)"@,
            NftCardId::InfernoDragon => "Inferno Dragon"@,
            NftCardId::InfernoDragonGold => "Inferno Dragon (Gold)"@,
            NftCardId::InflatableHammer => "Inflatable Hammer"@,
            NftCardId::InflatableHammerGold => "Inflatable Hammer (Gold)"@,
            NftCardId::IronHelmet => "Iron Helmet"@,
            NftCardId::IronHelmetGold => "Iron Helmet (Gold)"@,
            NftCardId::JoyfulLamb => "Joyful Lamb"@,
            NftCardId::JoyfulLambGold => "Joyful Lamb (Gold)"@,
            NftCardId::KittyBot => "Kitty Bot"@,
            NftCardId::KittyBotGold => "Kitty Bot (Gold)"@,
            NftCardId::LavaDragon => "Lava Dragon"@,
            NftCardId::LavaDragonGold => "Lava Dragon (Gold)"@,
            NftCardId::LegendaryMiracleEgg => "Legendary Miracle Egg"@,
            NftCardId::LegendaryMiracleEggGold => "Legendary Miracle Egg (Gold)"@,
            NftCardId::LionKing => "Lion King"@,
            NftCardId::LionKingGold => "Lion King (Gold)"@,
            NftCardId::Lobster => "Lobster"@,
            NftCardId::LobsterGold => "Lobster (Gold)"@,
            NftCardId::MadRabbit => "Mad Rabbit"@,
            NftCardId::MadRabbitGold => "Mad Rabbit (Gold)"@,
            NftCardId::MasterPanda => "Master Panda"@,
            NftCardId::MasterPandaGold => "Master Panda (Gold)"@,
            NftCardId::MechHatchery => "Mech Hatchery"@,
            NftCardId::MechHatcheryGold => "Mech Hatchery (Gold)"@,
            NftCardId::MechanicKnight => "Mechanic Knight"@,
            NftCardId::MechanicKnightGold => "Mechanic Knight (Gold)"@,
            NftCardId::MinerZombie => "Miner Zombie"@,
            NftCardId::MinerZombieGold => "Miner Zombie (Gold)"@,
            NftCardId::MiniRobot => "Mini Robot"@,
            NftCardId::MiniRobotGold => "Mini Robot (Gold)"@,
            NftCardId::MrCorn => "Mr. Corn"@,
            NftCardId::MrCornGold => "Mr. Corn (Gold)"@,
            NftCardId::MrTomato => "Mr. Tomato"@,
            NftCardId::MrTomatoGold => "Mr. Tomato (Gold)"@,
            NftCardId::NatureDragon => "Nature Dragon"@,
            NftCardId::NatureDragonGold => "Nature Dragon (Gold)"@,
            NftCardId::NaughtyDragon => "Naughty Dragon"@,
            NftCardId::NaughtyDragonGold => "Naughty Dragon (Gold)"@,
            NftCardId::ObsidianDragon => "Obsidian Dragon"@,
            NftCardId::ObsidianDragonGold => "Obsidian Dragon (Gold)"@,
            NftCardId::OceanDragon => "Ocean Dragon"@,
            NftCardId::OceanDragonGold => "Ocean Dragon (Gold)"@,
            NftCardId::PartyZombie => "Party Zombie"@,
            NftCardId::PartyZombieGold => "Party Zombie (Gold)"@,
            NftCardId::Pineapple => "Pineapple"@,
            NftCardId::PineappleGold => "Pineapple (Gold)"@,
            NftCardId::PirateZombie => "Pirate Zombie"@,
            NftCardId::PirateZombieGold => "Pirate Zombie (Gold)"@,
            NftCardId::Poison => "Poison"@,
            NftCardId::PoisonMushroom => "Poison Mushroom"@,
            NftCardId::PoisonMushroomGold => "Poison Mushroom (Gold)"@,
            NftCardId::PoisonGold => "Poison (Gold)"@,
            NftCardId::PrinceZombie => "Prince Zombie"@,
            NftCardId::PrinceZombieGold => "Prince Zombie (Gold)"@,
            NftCardId::Pumpkin => "Pumpkin"@,
            NftCardId::PumpkinGold => "Pumpkin (Gold)"@,
            NftCardId::RadiantDragon => "Radiant Dragon"@,
            NftCardId::RadiantDragonGold => "Radiant Dragon (Gold)"@,
            NftCardId::Radish => "Radish"@,
            NftCardId::RadishGold => "Radish (Gold)"@,
            NftCardId::RagingShield => "Raging Shield"@,
            NftCardId::RagingShieldGold => "Raging Shield (Gold)"@,
            NftCardId::RedChili => "Red Chili"@,
            NftCardId::RedChiliGold => "Red Chili (Gold)"@,
            NftCardId::RiotShield => "Riot Shield"@,
            NftCardId::RiotShieldGold => "Riot Shield (Gold)"@,
            NftCardId::RoadblockZombie => "Roadblock Zombie"@,
            NftCardId::RoadblockZombieGold => "Roadblock Zombie (Gold)"@,
            NftCardId::RobotDuke => "Robot Duke"@,
            NftCardId::RobotDukeGold => "Robot Duke (Gold)"@,
            NftCardId::RockDragon => "Rock Dragon"@,
            NftCardId::RockDragonGold => "Rock Dragon (Gold)"@,
            NftCardId::Rocket => "Rocket"@,
            NftCardId::RocketGold => "Rocket (Gold)"@,
            NftCardId::SailorZombie => "Sailor Zombie"@,
            NftCardId::SailorZombieGold => "Sailor Zombie (Gold)"@,
            NftCardId::ScoutBot => "Scout Bot"@,
            NftCardId::ScoutBotGold => "Scout Bot (Gold)"@,
            NftCardId::ShadowDragon => "Shadow Dragon"@,
            NftCardId::ShadowDragonGold => "Shadow Dragon (Gold)"@,
            NftCardId::Shotgun => "Shotgun"@,
            NftCardId::ShotgunGold => "Shotgun (Gold)"@,
            NftCardId::Snail => "Snail"@,
            NftCardId::SnailGold => "Snail (Gold)"@,
            NftCardId::Snake => "Snake"@,
            NftCardId::SnakeGold => "Snake (Gold)"@,
            NftCardId::SpikedBat => "Spiked Bat"@,
            NftCardId::SpikedBatGold => "Spiked Bat (Gold)"@,
            NftCardId::StarZombie => "Star Zombie"@,
            NftCardId::StarZombieGold => "Star Zombie (Gold)"@,
            NftCardId::StarvingMimic => "Starving Mimic"@,
            NftCardId::StarvingMimicGold => "Starving Mimic (Gold)"@,
            NftCardId::SteelDragon => "Steel Dragon"@,
            NftCardId::SteelDragonGold => "Steel Dragon (Gold)"@,
            NftCardId::Stone => "Stone"@,
            NftCardId::StoneGold => "Stone (Gold)"@,
            NftCardId::StormDragon => "Storm Dragon"@,
            NftCardId::StormDragonGold => "Storm Dragon (Gold)"@,
            NftCardId::SturdyBot => "Sturdy Bot"@,
            NftCardId::SturdyBotGold => "Sturdy Bot (Gold)"@,
            NftCardId::SuperZombie => "Super Zombie"@,
            NftCardId::SuperZombieGold => "Super Zombie (Gold)"@,
            NftCardId::SupportBot => "Support Bot"@,
            NftCardId::SupportBotGold => "Support Bot (Gold)"@,
            NftCardId::TerraDragon => "Terra Dragon"@,
            NftCardId::TerraDragonGold => "Terra Dragon (Gold)"@,
            NftCardId::ThunderDragon => "Thunder Dragon"@,
            NftCardId::ThunderDragonGold => "Thunder Dragon (Gold)"@,
            NftCardId::TortoiseBro => "Tortoise Bro"@,
            NftCardId::TortoiseBroGold => "Tortoise Bro (Gold)"@,
            NftCardId::Trumpet => "Trumpet"@,
            NftCardId::TrumpetGold => "Trumpet (Gold)"@,
            NftCardId::Turner => "Turner"@,
            NftCardId::TurnerGold => "Turner (Gold)"@,
            NftCardId::UFO => "UFO"@,
            NftCardId::UFOGold => "UFO (Gold)"@,
            NftCardId::UncleElk => "Uncle Elk"@,
            NftCardId::UncleElkGold => "Uncle Elk (Gold)"@,
            NftCardId::Watermelon => "Watermelon"@,
            NftCardId::WatermelonGold => "Watermelon (Gold)"@,
            NftCardId::WindDragon => "Wind Dragon"@,
            NftCardId::WindDragonGold => "Wind Dragon (Gold)"@,
            NftCardId::WolfKing => "Wolf King"@,
            NftCardId::WolfKingGold => "Wolf King (Gold)"@,
            NftCardId::ZombieBaby => "Zombie Baby"@,
            NftCardId::ZombieBabyGold => "Zombie Baby (Gold)"@,
            NftCardId::ZombieBride => "Zombie Bride"@,
            NftCardId::ZombieBrideGold => "Zombie Bride (Gold)"@,
        }
    }

    /// Gives the English name of this card.
    pub fn to_english(&self) -> (name: &'static str)
        ensures
            name@ == self.name_en(),
    {
        proof {
            reveal(NftCardId::name_en);
        }
        match self {
            NftCardId::AlarmBot => "Alarm Bot",
            NftCardId::AlarmBotGold => "Alarm Bot (Gold)",
            NftCardId::AmmoCrate => "Ammo Crate",
            NftCardId::AmmoCrateGold => "Ammo Crate (Gold)",
            NftCardId::AngryBull => "Angry Bull",
            NftCardId::AngryBullGold => "Angry Bull (Gold)",
            NftCardId::Apple => "Apple",
            NftCardId::AppleGold => "Apple (Gold)",
            NftCardId::ArrogantBoar => "Arrogant Boar",
            NftCardId::ArrogantBoarGold => "Arrogant Boar (Gold)",
            NftCardId::AvengerD0 => "Avenger D0",
            NftCardId::AvengerD0Gold => "Avenger D0 (Gold)",
            NftCardId::Avocado => "Avocado",
            NftCardId::AvocadoGold => "Avocado (Gold)",
            NftCardId::Axe => "Axe",
            NftCardId::AxeGold => "Axe (Gold)",
            NftCardId::BarrelZombie => "Barrel Zombie",
            NftCardId::BarrelZombieGold => "Barrel Zombie (Gold)",
            NftCardId::BombZombie => "Bomb Zombie",
            NftCardId::BombZombieGold => "Bomb Zombie (Gold)",
            NftCardId::BoxingGloves => "Boxing Gloves",
            NftCardId::BoxingGlovesGold => "Boxing Gloves (Gold)",
            NftCardId::BraveBeaver => "Brave Beaver",
            NftCardId::BraveBeaverGold => "Brave Beaver (Gold)",
            NftCardId::Broom => "Broom",
            NftCardId::BroomGold => "Broom (Gold)",
            NftCardId::Cabbage => "Cabbage",
            NftCardId::CabbageGold => "Cabbage (Gold)",
            NftCardId::Cactus => "Cactus",
            NftCardId::CactusGold => "Cactus (Gold)",
            NftCardId::Cannon => "Cannon",
            NftCardId::CannonGold => "Cannon (Gold)",
            NftCardId::Chainsaw => "Chainsaw",
            NftCardId::ChainsawGold => "Chainsaw (Gold)",
            NftCardId::ChargeBot => "Charge Bot",
            NftCardId::ChargeBotGold => "Charge Bot (Gold)",
            NftCardId::CheerleaderZombie => "Cheerleader Zombie",
            NftCardId::CheerleaderZombieGold => "Cheerleader Zombie (Gold)",
            NftCardId::ClownZombie => "Clown Zombie",
            NftCardId::ClownZombieGold => "Clown Zombie (Gold)",
            NftCardId::Coconut => "Coconut",
            NftCardId::CoconutGold => "Coconut (Gold)",
            NftCardId::CrazyDoctorZombie => "Crazy Doctor Zombie",
            NftCardId::CrazyDoctorZombieGold => "Crazy Doctor Zombie (Gold)",
            NftCardId::CrystalDragon => "Crystal Dragon",
            NftCardId::CrystalDragonGold => "Crystal Dragon (Gold)",
            NftCardId::CunningFox => "Cunning Fox",
            NftCardId::CunningFoxGold => "Cunning Fox (Gold)",
            NftCardId::DancerZombie => "Dancer Zombie",
            NftCardId::DancerZombieGold => "Dancer Zombie (Gold)",
            NftCardId::DeathKnight => "Death Knight",
            NftCardId::DeathKnightGold => "Death Knight (Gold)",
            NftCardId::DeceptionDragon => "Deception Dragon",
            NftCardId::DeceptionDragonGold => "Deception Dragon (Gold)",
            NftCardId::DeterrentBot => "Deterrent Bot",
            NftCardId::DeterrentBotGold => "Deterrent Bot (Gold)",
            NftCardId::DoggyBot => "Doggy Bot",
            NftCardId::DoggyBotGold => "Doggy Bot (Gold)",
            NftCardId::DragonEgg => "Dragon Egg",
            NftCardId::DragonEggGold => "Dragon Egg (Gold)",
            NftCardId::DurianAgent => "Durian Agent",
            NftCardId::DurianAgentGold => "Durian Agent (Gold)",
            NftCardId::DurianCommander => "Durian Commander",
            NftCardId::DurianCommanderGold => "Durian Commander (Gold)",
            NftCardId::ES67 => "ES67",
            NftCardId::ES67Gold => "ES67 (Gold)",
            NftCardId::EpicMiracleEgg => "Epic Miracle Egg",
            NftCardId::EpicMiracleEggGold => "Epic Miracle Egg (Gold)",
            NftCardId::FarmerZombie => "Farmer Zombie",
            NftCardId::FarmerZombieGold => "Farmer Zombie (Gold)",
            NftCardId::FriendlyHen => "Friendly Hen",
            NftCardId::FriendlyHenGold => "Friendly Hen (Gold)",
            NftCardId::Frog => "Frog",
            NftCardId::FrogGold => "Frog (Gold)",
            NftCardId::FrostDragon => "Frost Dragon",
            NftCardId::FrostDragonGold => "Frost Dragon (Gold)",
            NftCardId::FryingPan => "Frying Pan",
            NftCardId::FryingPanGold => "Frying Pan (Gold)",
            NftCardId::FuriousTiger => "Furious Tiger",
            NftCardId::FuriousTigerGold => "Furious Tiger (Gold)",
            NftCardId::GT130 => "GT130",
            NftCardId::GT130Gold => "GT130 (Gold)",
            NftCardId::Garlic => "Garlic",
            NftCardId::GarlicGold => "Garlic (Gold)",
            NftCardId::GrandpaBroccoli => "Grandpa Broccoli",
            NftCardId::GrandpaBroccoliGold => "Grandpa Broccoli (Gold)",
            NftCardId::GreedyShark => "Greedy Shark",
            NftCardId::GreedySharkGold => "Greedy Shark (Gold)",
            NftCardId::GuardianBot => "Guardian Bot",
            NftCardId::GuardianBotGold => "Guardian Bot (Gold)",
            NftCardId::HardshellNut => "Hardshell Nut",
            NftCardId::HardshellNutGold => "Hardshell Nut (Gold)",
            NftCardId::HelperBot => "Helper Bot",
            NftCardId::HelperBotGold => "Helper Bot (Gold)",
            NftCardId::InfernoDragon => "Inferno Dragon",
            NftCardId::InfernoDragonGold => "Inferno Dragon (Gold)",
            NftCardId::InflatableHammer => "Inflatable Hammer",
            NftCardId::InflatableHammerGold => "Inflatable Hammer (Gold)",
            NftCardId::IronHelmet => "Iron Helmet",
            NftCardId::IronHelmetGold => "Iron Helmet (Gold)",
            NftCardId::JoyfulLamb => "Joyful Lamb",
            NftCardId::JoyfulLambGold => "Joyful Lamb (Gold)",
            NftCardId::KittyBot => "Kitty Bot",
            NftCardId::KittyBotGold => "Kitty Bot (Gold)",
            NftCardId::LavaDragon => "Lava Dragon",
            NftCardId::LavaDragonGold => "Lava Dragon (Gold)",
            NftCardId::LegendaryMiracleEgg => "Legendary Miracle Egg",
            NftCardId::LegendaryMiracleEggGold => "Legendary Miracle Egg (Gold)",
            NftCardId::LionKing => "Lion King",
            NftCardId::LionKingGold => "Lion King (Gold)",
            NftCardId::Lobster => "Lobster",
            NftCardId::LobsterGold => "Lobster (Gold)",
            NftCardId::MadRabbit => "Mad Rabbit",
            NftCardId::MadRabbitGold => "Mad Rabbit (Gold)",
            NftCardId::MasterPanda => "Master Panda",
            NftCardId::MasterPandaGold => "Master Panda (Gold)",
            NftCardId::MechHatchery => "Mech Hatchery",
            NftCardId::MechHatcheryGold => "Mech Hatchery (Gold)",
            NftCardId::MechanicKnight => "Mechanic Knight",
            NftCardId::MechanicKnightGold => "Mechanic Knight (Gold)",
            NftCardId::MinerZombie => "Miner Zombie",
            NftCardId::MinerZombieGold => "Miner Zombie (Gold)",
            NftCardId::MiniRobot => "Mini Robot",
            NftCardId::MiniRobotGold => "Mini Robot (Gold)",
            NftCardId::MrCorn => "Mr. Corn",
            NftCardId::MrCornGold => "Mr. Corn (Gold)",
            NftCardId::MrTomato => "Mr. Tomato",
            NftCardId::MrTomatoGold => "Mr. Tomato (Gold)",
            NftCardId::NatureDragon => "Nature Dragon",
            NftCardId::NatureDragonGold => "Nature Dragon (Gold)",
            NftCardId::NaughtyDragon => "Naughty Dragon",
            NftCardId::NaughtyDragonGold => "Naughty Dragon (Gold)",
            NftCardId::ObsidianDragon => "Obsidian Dragon",
            NftCardId::ObsidianDragonGold => "Obsidian Dragon (Gold)",
            NftCardId::OceanDragon => "Ocean Dragon",
            NftCardId::OceanDragonGold => "Ocean Dragon (Gold)",
            NftCardId::PartyZombie => "Party Zombie",
            NftCardId::PartyZombieGold => "Party Zombie (Gold)",
            NftCardId::Pineapple => "Pineapple",
            NftCardId::PineappleGold => "Pineapple (Gold)",
            NftCardId::PirateZombie => "Pirate Zombie",
            NftCardId::PirateZombieGold => "Pirate Zombie (Gold)",
            NftCardId::Poison => "Poison",
            NftCardId::PoisonMushroom => "Poison Mushroom",
            NftCardId::PoisonMushroomGold => "Poison Mushroom (Gold)",
            NftCardId::PoisonGold => "Poison (Gold)",
            NftCardId::PrinceZombie => "Prince Zombie",
            NftCardId::PrinceZombieGold => "Prince Zombie (Gold)",
            NftCardId::Pumpkin => "Pumpkin",
            NftCardId::PumpkinGold => "Pumpkin (Gold)",
            NftCardId::RadiantDragon => "Radiant Dragon",
            NftCardId::RadiantDragonGold => "Radiant Dragon (Gold)",
            NftCardId::Radish => "Radish",
            NftCardId::RadishGold => "Radish (Gold)",
            NftCardId::RagingShield => "Raging Shield",
            NftCardId::RagingShieldGold => "Raging Shield (Gold)",
            NftCardId::RedChili => "Red Chili",
            NftCardId::RedChiliGold => "Red Chili (Gold)",
            NftCardId::RiotShield => "Riot Shield",
            NftCardId::RiotShieldGold => "Riot Shield (Gold)",
            NftCardId::RoadblockZombie => "Roadblock Zombie",
            NftCardId::RoadblockZombieGold => "Roadblock Zombie (Gold)",
            NftCardId::RobotDuke => "Robot Duke",
            NftCardId::RobotDukeGold => "Robot Duke (Gold)",
            NftCardId::RockDragon => "Rock Dragon",
            NftCardId::RockDragonGold => "Rock Dragon (Gold)",
            NftCardId::Rocket => "Rocket",
            NftCardId::RocketGold => "Rocket (Gold)",
            NftCardId::SailorZombie => "Sailor Zombie",
            NftCardId::SailorZombieGold => "Sailor Zombie (Gold)",
            NftCardId::ScoutBot => "Scout Bot",
            NftCardId::ScoutBotGold => "Scout Bot (Gold)",
            NftCardId::ShadowDragon => "Shadow Dragon",
            NftCardId::ShadowDragonGold => "Shadow Dragon (Gold)",
            NftCardId::Shotgun => "Shotgun",
            NftCardId::ShotgunGold => "Shotgun (Gold)",
            NftCardId::Snail => "Snail",
            NftCardId::SnailGold => "Snail (Gold)",
            NftCardId::Snake => "Snake",
            NftCardId::SnakeGold => "Snake (Gold)",
            NftCardId::SpikedBat => "Spiked Bat",
            NftCardId::SpikedBatGold => "Spiked Bat (Gold)",
            NftCardId::StarZombie => "Star Zombie",
            NftCardId::StarZombieGold => "Star Zombie (Gold)",
            NftCardId::StarvingMimic => "Starving Mimic",
            NftCardId::StarvingMimicGold => "Starving Mimic (Gold)",
            NftCardId::SteelDragon => "Steel Dragon",
            NftCardId::SteelDragonGold => "Steel Dragon (Gold)",
            NftCardId::Stone => "Stone",
            NftCardId::StoneGold => "Stone (Gold)",
            NftCardId::StormDragon => "Storm Dragon",
            NftCardId::StormDragonGold => "Storm Dragon (Gold)",
            NftCardId::SturdyBot => "Sturdy Bot",
            NftCardId::SturdyBotGold => "Sturdy Bot (Gold)",
            NftCardId::SuperZombie => "Super Zombie",
            NftCardId::SuperZombieGold => "Super Zombie (Gold)",
            NftCardId::SupportBot => "Support Bot",
            NftCardId::SupportBotGold => "Support Bot (Gold)",
            NftCardId::TerraDragon => "Terra Dragon",
            NftCardId::TerraDragonGold => "Terra Dragon (Gold)",
            NftCardId::ThunderDragon => "Thunder Dragon",
            NftCardId::ThunderDragonGold => "Thunder Dragon (Gold)",
            NftCardId::TortoiseBro => "Tortoise Bro",
            NftCardId::TortoiseBroGold => "Tortoise Bro (Gold)",
            NftCardId::Trumpet => "Trumpet",
            NftCardId::TrumpetGold => "Trumpet (Gold)",
            NftCardId::Turner => "Turner",
            NftCardId::TurnerGold => "Turner (Gold)",
            NftCardId::UFO => "UFO",
            NftCardId::UFOGold => "UFO (Gold)",
            NftCardId::UncleElk => "Uncle Elk",
            NftCardId::UncleElkGold => "Uncle Elk (Gold)",
            NftCardId::Watermelon => "Watermelon",
            NftCardId::WatermelonGold => "Watermelon (Gold)",
            NftCardId::WindDragon => "Wind Dragon",
            NftCardId::WindDragonGold => "Wind Dragon (Gold)",
            NftCardId::WolfKing => "Wolf King",
            NftCardId::WolfKingGold => "Wolf King (Gold)",
            NftCardId::ZombieBaby => "Zombie Baby",
            NftCardId::ZombieBabyGold => "Zombie Baby (Gold)",
            NftCardId::ZombieBride => "Zombie Bride",
            NftCardId::ZombieBrideGold => "Zombie Bride (Gold)",
        }
    }

    /// The Chinese name of this card.
    #[verifier::opaque]
    pub open spec fn name_cn(self) -> Seq<char>
    {
        match self {
            NftCardId::AlarmBot => "警报机器人"@,
            NftCardId::AlarmBotGold => "警报机器人 (金)"@,
            NftCardId::AmmoCrate => "弹药箱"@,
            NftCardId::AmmoCrateGold => "弹药箱 (金)"@,
            NftCardId::AngryBull => "愤怒的公牛"@,
            NftCardId::AngryBullGold => "愤怒的公牛 (金)"@,
            NftCardId::Apple => "苹果"@,
            NftCardId::AppleGold => "苹果 (金)"@,
            NftCardId::ArrogantBoar => "傲慢野猪"@,
            NftCardId::ArrogantBoarGold => "傲慢野猪 (金)"@,
            NftCardId::AvengerD0 => "复仇者 D0"@,
            NftCardId::AvengerD0Gold => "复仇者 D0 (金)"@,
            NftCardId::Avocado => "鳄梨"@,
            NftCardId::AvocadoGold => "鳄梨 (金)"@,
            NftCardId::Axe => "斧头"@,
            NftCardId::AxeGold => "斧头 (金)"@,
            NftCardId::BarrelZombie => "桶装僵尸"@,
            NftCardId::BarrelZombieGold => "桶装僵尸 (金)"@,
            NftCardId::BombZombie => "炸弹僵尸"@,
            NftCardId::BombZombieGold => "炸弹僵尸 (金)"@,
            NftCardId::BoxingGloves => "拳击手套"@,
            NftCardId::BoxingGlovesGold => "拳击手套 (金)"@,
            NftCardId::BraveBeaver => "勇敢的海狸"@,
            NftCardId::BraveBeaverGold => "勇敢的海狸 (金)"@,
            NftCardId::Broom => "扫帚"@,
            NftCardId::BroomGold => "扫帚 (金)"@,
            NftCardId::Cabbage => "卷心菜"@,
            NftCardId::CabbageGold => "卷心菜 (金)"@,
            NftCardId::Cactus => "仙人掌"@,
            NftCardId::CactusGold => "仙人掌 (金)"@,
            NftCardId::Cannon => "大炮"@,
            NftCardId::CannonGold => "大炮 (金)"@,
            NftCardId::Chainsaw => "电锯"@,
            NftCardId::ChainsawGold => "电锯 (金)"@,
            NftCardId::ChargeBot => "充能机器人"@,
            NftCardId::ChargeBotGold => "充能机器人 (金)"@,
            NftCardId::CheerleaderZombie => "啦啦队僵尸"@,
            NftCardId::CheerleaderZombieGold => "啦啦队僵尸 (金)"@,
            NftCardId::ClownZombie => "小丑僵尸"@,
            NftCardId::ClownZombieGold => "小丑僵尸 (金)"@,
            NftCardId::Coconut => "椰子"@,
            NftCardId::CoconutGold => "椰子 (金)"@,
            NftCardId::CrazyDoctorZombie => "疯狂医生僵尸"@,
            NftCardId::CrazyDoctorZombieGold => "疯狂医生僵尸 (金)"@,
            NftCardId::CrystalDragon => "水晶龙"@,
            NftCardId::CrystalDragonGold => "水晶龙 (金)"@,
            NftCardId::CunningFox => "狡猾的狐狸"@,
            NftCardId::CunningFoxGold => "狡猾的狐狸 (金)"@,
            NftCardId::DancerZombie => "舞者僵尸"@,
            NftCardId::DancerZombieGold => "舞者僵尸 (金)"@,
            NftCardId::DeathKnight => "死亡骑士"@,
            NftCardId::DeathKnightGold => "死亡骑士 (金)"@,
            NftCardId::DeceptionDragon => "欺诈之龙"@,
            NftCardId::DeceptionDragonGold => "欺诈之龙 (金)"@,
            NftCardId::DeterrentBot => "威慑机器人"@,
            NftCardId::DeterrentBotGold => "威慑机器人 (金)"@,
            NftCardId::DoggyBot => "狗狗机器人"@,
            NftCardId::DoggyBotGold => "狗狗机器人 (金)"@,
            NftCardId::DragonEgg => "龙蛋"@,
            NftCardId::DragonEggGold => "龙蛋 (金)"@,
            NftCardId::DurianAgent => "榴莲特工"@,
            NftCardId::DurianAgentGold => "榴莲特工 (金)"@,
            NftCardId::DurianCommander => "榴莲指挥官"@,
            NftCardId::DurianCommanderGold => "榴莲指挥官 (金)"@,
            NftCardId::ES67 => "ES67"@,
            NftCardId::ES67Gold => "ES67 (金)"@,
            NftCardId::EpicMiracleEgg => "史诗奇迹蛋"@,
            NftCardId::EpicMiracleEggGold => "史诗奇迹蛋 (金)"@,
            NftCardId::FarmerZombie => "农夫僵尸"@,
            NftCardId::FarmerZombieGold => "农夫僵尸 (金)"@,
            NftCardId::FriendlyHen => "友好母鸡"@,
            NftCardId::FriendlyHenGold => "友好母鸡 (金)"@,
            NftCardId::Frog => "青蛙"@,
            NftCardId::FrogGold => "青蛙 (金)"@,
            NftCardId::FrostDragon => "冰霜龙"@,
            NftCardId::FrostDragonGold => "冰霜龙 (金)"@,
            NftCardId::FryingPan => "煎锅"@,
            NftCardId::FryingPanGold => "煎锅 (金)"@,
            NftCardId::FuriousTiger => "愤怒的老虎"@,
            NftCardId::FuriousTigerGold => "愤怒的老虎 (金)"@,
            NftCardId::GT130 => "GT130"@,
            NftCardId::GT130Gold => "GT130 (金)"@,
            NftCardId::Garlic => "大蒜"@,
            NftCardId::GarlicGold => "大蒜 (金)"@,
            NftCardId::GrandpaBroccoli => "爷爷花椰菜"@,
            NftCardId::GrandpaBroccoliGold => "爷爷花椰菜 (金)"@,
            NftCardId::GreedyShark => "贪婪的鲨鱼"@,
            NftCardId::GreedySharkGold => "贪婪的鲨鱼 (金)"@,
            NftCardId::GuardianBot => "守护机器人"@,
            NftCardId::GuardianBotGold => "守护机器人 (金)"@,
            NftCardId::HardshellNut => "硬壳坚果"@,
            NftCardId::HardshellNutGold => "硬壳坚果 (金)"@,
            NftCardId::HelperBot => "辅助机器人"@,
            NftCardId::HelperBotGold => "辅助机器人 (金)"@,
            NftCardId::InfernoDragon => "地狱火龙"@,
            NftCardId::InfernoDragonGold => "地狱火龙 (金)"@,
            NftCardId::InflatableHammer => "充气锤子"@,
            NftCardId::InflatableHammerGold => "充气锤子 (金)"@,
            NftCardId::IronHelmet => "铁头盔"@,
            NftCardId::IronHelmetGold => "铁头盔 (金)"@,
            NftCardId::JoyfulLamb => "快乐小羊"@,
            NftCardId::JoyfulLambGold => "快乐小羊 (金)"@,
            NftCardId::KittyBot => "小猫机器人"@,
            NftCardId::KittyBotGold => "小猫机器人 (金)"@,
            NftCardId::LavaDragon => "熔岩龙"@,
            NftCardId::LavaDragonGold => "熔岩龙 (金)"@,
            NftCardId::LegendaryMiracleEgg => "传奇奇迹蛋"@,
            NftCardId::LegendaryMiracleEggGold => "传奇奇迹蛋 (金)"@,
            NftCardId::LionKing => "狮子王"@,
            NftCardId::LionKingGold => "狮子王 (金)"@,
            NftCardId::Lobster => "龙虾"@,
            NftCardId::LobsterGold => "龙虾 (金)"@,
            NftCardId::MadRabbit => "疯狂兔子"@,
            NftCardId::MadRabbitGold => "疯狂兔子 (金)"@,
            NftCardId::MasterPanda => "熊猫大师"@,
            NftCardId::MasterPandaGold => "熊猫大师 (金)"@,
            NftCardId::MechHatchery => "机械孵化场"@,
            NftCardId::MechHatcheryGold => "机械孵化场 (金)"@,
            NftCardId::MechanicKnight => "机械骑士"@,
            NftCardId::MechanicKnightGold => "机械骑士 (金)"@,
            NftCardId::MinerZombie => "矿工僵尸"@,
            NftCardId::MinerZombieGold => "矿工僵尸 (金)"@,
            NftCardId::MiniRobot => "迷你机器人"@,
            NftCardId::MiniRobotGold => "迷你机器人 (金)"@,
            NftCardId::MrCorn => "玉米先生"@,
            NftCardId::MrCornGold => "玉米先生 (金)"@,
            NftCardId::MrTomato => "番茄先生"@,
            NftCardId::MrTomatoGold => "番茄先生 (金)"@,
            NftCardId::NatureDragon => "自然龙"@,
            NftCardId::NatureDragonGold => "自然龙 (金)"@,
            NftCardId::NaughtyDragon => "顽皮龙"@,
            NftCardId::NaughtyDragonGold => "顽皮龙 (金)"@,
            NftCardId::ObsidianDragon => "黑曜石龙"@,
            NftCardId::ObsidianDragonGold => "黑曜石龙 (金)"@,
            NftCardId::OceanDragon => "海洋龙"@,
            NftCardId::OceanDragonGold => "海洋龙 (金)"@,
            NftCardId::PartyZombie => "派对僵尸"@,
            NftCardId::PartyZombieGold => "派对僵尸 (金)"@,
            NftCardId::Pineapple => "菠萝"@,
            NftCardId::PineappleGold => "菠萝 (金)"@,
            NftCardId::PirateZombie => "海盗僵尸"@,
            NftCardId::PirateZombieGold => "海盗僵尸 (金)"@,
            NftCardId::Poison => "毒药"@,
            NftCardId::PoisonMushroom => "毒蘑菇"@,
            NftCardId::PoisonMushroomGold => "毒蘑菇 (金)"@,
            NftCardId::PoisonGold => "毒药 (金)"@,
            NftCardId::PrinceZombie => "僵尸王子"@,
            NftCardId::PrinceZombieGold => "僵尸王子 (金)"@,
            NftCardId::Pumpkin => "南瓜"@,
            NftCardId::PumpkinGold => "南瓜 (金)"@,
            NftCardId::RadiantDragon => "光辉龙"@,
            NftCardId::RadiantDragonGold => "光辉龙 (金)"@,
            NftCardId::Radish => "萝卜"@,
            NftCardId::RadishGold => "萝卜 (金)"@,
            NftCardId::RagingShield => "暴怒之盾"@,
            NftCardId::RagingShieldGold => "暴怒之盾 (金)"@,
            NftCardId::RedChili => "红辣椒"@,
            NftCardId::RedChiliGold => "红辣椒 (金)"@,
            NftCardId::RiotShield => "防暴盾牌"@,
            NftCardId::RiotShieldGold => "防暴盾牌 (金)"@,
            NftCardId::RoadblockZombie => "路障僵尸"@,
            NftCardId::RoadblockZombieGold => "路障僵尸 (金)"@,
            NftCardId::RobotDuke => "机器人公爵"@,
            NftCardId::RobotDukeGold => "机器人公爵 (金)"@,
            NftCardId::RockDragon => "岩石龙"@,
            NftCardId::RockDragonGold => "岩石龙 (金)"@,
            NftCardId::Rocket => "火箭"@,
            NftCardId::RocketGold => "火箭 (金)"@,
            NftCardId::SailorZombie => "水手僵尸"@,
            NftCardId::SailorZombieGold => "水手僵尸 (金)"@,
            NftCardId::ScoutBot => "侦察机器人"@,
            NftCardId::ScoutBotGold => "侦察机器人 (金)"@,
            NftCardId::ShadowDragon => "暗影龙"@,
            NftCardId::ShadowDragonGold => "暗影龙 (金)"@,
            NftCardId::Shotgun => "霰弹枪"@,
            NftCardId::ShotgunGold => "霰弹枪 (金)"@,
            NftCardId::Snail => "蜗牛"@,
            NftCardId::SnailGold => "蜗牛 (金)"@,
            NftCardId::Snake => "蛇"@,
            NftCardId::SnakeGold => "蛇 (金)"@,
            NftCardId::SpikedBat => "尖刺球棒"@,
            NftCardId::SpikedBatGold => "尖刺球棒 (金)"@,
            NftCardId::StarZombie => "星星僵尸"@,
            NftCardId::StarZombieGold => "星星僵尸 (金)"@,
            NftCardId::StarvingMimic => "饥饿的拟态怪"@,
            NftCardId::StarvingMimicGold => "饥饿的拟态怪 (金)"@,
            NftCardId::SteelDragon => "钢铁龙"@,
            NftCardId::SteelDragonGold => "钢铁龙 (金)"@,
            NftCardId::Stone => "石头"@,
            NftCardId::StoneGold => "石头 (金)"@,
            NftCardId::StormDragon => "风暴龙"@,
            NftCardId::StormDragonGold => "风暴龙 (金)"@,
            NftCardId::SturdyBot => "坚固机器人"@,
            NftCardId::SturdyBotGold => "坚固机器人 (金)"@,
            NftCardId::SuperZombie => "超能僵尸"@,
            NftCardId::SuperZombieGold => "超能僵尸 (金)"@,
            NftCardId::SupportBot => "支援机器人"@,
            NftCardId::SupportBotGold => "支援机器人 (金)"@,
            NftCardId::TerraDragon => "泰拉龙"@,
            NftCardId::TerraDragonGold => "泰拉龙 (金)"@,
            NftCardId::ThunderDragon => "雷电龙"@,
            NftCardId::ThunderDragonGold => "雷电龙 (金)"@,
            NftCardId::TortoiseBro => "乌龟"@,
            NftCardId::TortoiseBroGold => "乌龟 (金)"@,
            NftCardId::Trumpet => "小号"@,
            NftCardId::TrumpetGold => "小号 (金)"@,
            NftCardId::Turner => "转盘"@,
            NftCardId::TurnerGold => "转盘 (金)"@,
            NftCardId::UFO => "UFO"@,
            NftCardId::UFOGold => "UFO (金)"@,
            NftCardId::UncleElk => "麋鹿叔叔"@,
            NftCardId::UncleElkGold => "麋鹿叔叔 (金)"@,
            NftCardId::Watermelon => "西瓜"@,
            NftCardId::WatermelonGold => "西瓜 (金)"@,
            NftCardId::WindDragon => "风之龙"@,
            NftCardId::WindDragonGold => "风之龙 (金)"@,
            NftCardId::WolfKing => "狼王"@,
            NftCardId::WolfKingGold => "狼王 (金)"@,
            NftCardId::ZombieBaby => "僵尸宝宝"@,
            NftCardId::ZombieBabyGold => "僵尸宝宝 (金)"@,
            NftCardId::ZombieBride => "僵尸新娘"@,
            NftCardId::ZombieBrideGold => "僵尸新娘 (金)"@,
        }
    }

    /// Gives the Chinese name of this card.
    pub fn to_chinese(&self) -> (name: &'static str)
        ensures
            name@ == self.name_cn(),
    {
        proof {
            reveal(NftCardId::name_cn);
        }
        match self {
            NftCardId::AlarmBot => "警报机器人",
            NftCardId::AlarmBotGold => "警报机器人 (金)",
            NftCardId::AmmoCrate => "弹药箱",
            NftCardId::AmmoCrateGold => "弹药箱 (金)",
            NftCardId::AngryBull => "愤怒的公牛",
            NftCardId::AngryBullGold => "愤怒的公牛 (金)",
            NftCardId::Apple => "苹果",
            NftCardId::AppleGold => "苹果 (金)",
            NftCardId::ArrogantBoar => "傲慢野猪",
            NftCardId::ArrogantBoarGold => "傲慢野猪 (金)",
            NftCardId::AvengerD0 => "复仇者 D0",
            NftCardId::AvengerD0Gold => "复仇者 D0 (金)",
            NftCardId::Avocado => "鳄梨",
            NftCardId::AvocadoGold => "鳄梨 (金)",
            NftCardId::Axe => "斧头",
            NftCardId::AxeGold => "斧头 (金)",
            NftCardId::BarrelZombie => "桶装僵尸",
            NftCardId::BarrelZombieGold => "桶装僵尸 (金)",
            NftCardId::BombZombie => "炸弹僵尸",
            NftCardId::BombZombieGold => "炸弹僵尸 (金)",
            NftCardId::BoxingGloves => "拳击手套",
            NftCardId::BoxingGlovesGold => "拳击手套 (金)",
            NftCardId::BraveBeaver => "勇敢的海狸",
            NftCardId::BraveBeaverGold => "勇敢的海狸 (金)",
            NftCardId::Broom => "扫帚",
            NftCardId::BroomGold => "扫帚 (金)",
            NftCardId::Cabbage => "卷心菜",
            NftCardId::CabbageGold => "卷心菜 (金)",
            NftCardId::Cactus => "仙人掌",
            NftCardId::CactusGold => "仙人掌 (金)",
            NftCardId::Cannon => "大炮",
            NftCardId::CannonGold => "大炮 (金)",
            NftCardId::Chainsaw => "电锯",
            NftCardId::ChainsawGold => "电锯 (金)",
            NftCardId::ChargeBot => "充能机器人",
            NftCardId::ChargeBotGold => "充能机器人 (金)",
            NftCardId::CheerleaderZombie => "啦啦队僵尸",
            NftCardId::CheerleaderZombieGold => "啦啦队僵尸 (金)",
            NftCardId::ClownZombie => "小丑僵尸",
            NftCardId::ClownZombieGold => "小丑僵尸 (金)",
            NftCardId::Coconut => "椰子",
            NftCardId::CoconutGold => "椰子 (金)",
            NftCardId::CrazyDoctorZombie => "疯狂医生僵尸",
            NftCardId::CrazyDoctorZombieGold => "疯狂医生僵尸 (金)",
            NftCardId::CrystalDragon => "水晶龙",
            NftCardId::CrystalDragonGold => "水晶龙 (金)",
            NftCardId::CunningFox => "狡猾的狐狸",
            NftCardId::CunningFoxGold => "狡猾的狐狸 (金)",
            NftCardId::DancerZombie => "舞者僵尸",
            NftCardId::DancerZombieGold => "舞者僵尸 (金)",
            NftCardId::DeathKnight => "死亡骑士",
            NftCardId::DeathKnightGold => "死亡骑士 (金)",
            NftCardId::DeceptionDragon => "欺诈之龙",
            NftCardId::DeceptionDragonGold => "欺诈之龙 (金)",
            NftCardId::DeterrentBot => "威慑机器人",
            NftCardId::DeterrentBotGold => "威慑机器人 (金)",
            NftCardId::DoggyBot => "狗狗机器人",
            NftCardId::DoggyBotGold => "狗狗机器人 (金)",
            NftCardId::DragonEgg => "龙蛋",
            NftCardId::DragonEggGold => "龙蛋 (金)",
            NftCardId::DurianAgent => "榴莲特工",
            NftCardId::DurianAgentGold => "榴莲特工 (金)",
            NftCardId::DurianCommander => "榴莲指挥官",
            NftCardId::DurianCommanderGold => "榴莲指挥官 (金)",
            NftCardId::ES67 => "ES67",
            NftCardId::ES67Gold => "ES67 (金)",
            NftCardId::EpicMiracleEgg => "史诗奇迹蛋",
            NftCardId::EpicMiracleEggGold => "史诗奇迹蛋 (金)",
            NftCardId::FarmerZombie => "农夫僵尸",
            NftCardId::FarmerZombieGold => "农夫僵尸 (金)",
            NftCardId::FriendlyHen => "友好母鸡",
            NftCardId::FriendlyHenGold => "友好母鸡 (金)",
            NftCardId::Frog => "青蛙",
            NftCardId::FrogGold => "青蛙 (金)",
            NftCardId::FrostDragon => "冰霜龙",
            NftCardId::FrostDragonGold => "冰霜龙 (金)",
            NftCardId::FryingPan => "煎锅",
            NftCardId::FryingPanGold => "煎锅 (金)",
            NftCardId::FuriousTiger => "愤怒的老虎",
            NftCardId::FuriousTigerGold => "愤怒的老虎 (金)",
            NftCardId::GT130 => "GT130",
            NftCardId::GT130Gold => "GT130 (金)",
            NftCardId::Garlic => "大蒜",
            NftCardId::GarlicGold => "大蒜 (金)",
            NftCardId::GrandpaBroccoli => "爷爷花椰菜",
            NftCardId::GrandpaBroccoliGold => "爷爷花椰菜 (金)",
            NftCardId::GreedyShark => "贪婪的鲨鱼",
            NftCardId::GreedySharkGold => "贪婪的鲨鱼 (金)",
            NftCardId::GuardianBot => "守护机器人",
            NftCardId::GuardianBotGold => "守护机器人 (金)",
            NftCardId::HardshellNut => "硬壳坚果",
            NftCardId::HardshellNutGold => "硬壳坚果 (金)",
            NftCardId::HelperBot => "辅助机器人",
            NftCardId::HelperBotGold => "辅助机器人 (金)",
            NftCardId::InfernoDragon => "地狱火龙",
            NftCardId::InfernoDragonGold => "地狱火龙 (金)",
            NftCardId::InflatableHammer => "充气锤子",
            NftCardId::InflatableHammerGold => "充气锤子 (金)",
            NftCardId::IronHelmet => "铁头盔",
            NftCardId::IronHelmetGold => "铁头盔 (金)",
            NftCardId::JoyfulLamb => "快乐小羊",
            NftCardId::JoyfulLambGold => "快乐小羊 (金)",
            NftCardId::KittyBot => "小猫机器人",
            NftCardId::KittyBotGold => "小猫机器人 (金)",
            NftCardId::LavaDragon => "熔岩龙",
            NftCardId::LavaDragonGold => "熔岩龙 (金)",
            NftCardId::LegendaryMiracleEgg => "传奇奇迹蛋",
            NftCardId::LegendaryMiracleEggGold => "传奇奇迹蛋 (金)",
            NftCardId::LionKing => "狮子王",
            NftCardId::LionKingGold => "狮子王 (金)",
            NftCardId::Lobster => "龙虾",
            NftCardId::LobsterGold => "龙虾 (金)",
            NftCardId::MadRabbit => "疯狂兔子",
            NftCardId::MadRabbitGold => "疯狂兔子 (金)",
            NftCardId::MasterPanda => "熊猫大师",
            NftCardId::MasterPandaGold => "熊猫大师 (金)",
            NftCardId::MechHatchery => "机械孵化场",
            NftCardId::MechHatcheryGold => "机械孵化场 (金)",
            NftCardId::MechanicKnight => "机械骑士",
            NftCardId::MechanicKnightGold => "机械骑士 (金)",
            NftCardId::MinerZombie => "矿工僵尸",
            NftCardId::MinerZombieGold => "矿工僵尸 (金)",
            NftCardId::MiniRobot => "迷你机器人",
            NftCardId::MiniRobotGold => "迷你机器人 (金)",
            NftCardId::MrCorn => "玉米先生",
            NftCardId::MrCornGold => "玉米先生 (金)",
            NftCardId::MrTomato => "番茄先生",
            NftCardId::MrTomatoGold => "番茄先生 (金)",
            NftCardId::NatureDragon => "自然龙",
            NftCardId::NatureDragonGold => "自然龙 (金)",
            NftCardId::NaughtyDragon => "顽皮龙",
            NftCardId::NaughtyDragonGold => "顽皮龙 (金)",
            NftCardId::ObsidianDragon => "黑曜石龙",
            NftCardId::ObsidianDragonGold => "黑曜石龙 (金)",
            NftCardId::OceanDragon => "海洋龙",
            NftCardId::OceanDragonGold => "海洋龙 (金)",
            NftCardId::PartyZombie => "派对僵尸",
            NftCardId::PartyZombieGold => "派对僵尸 (金)",
            NftCardId::Pineapple => "菠萝",
            NftCardId::PineappleGold => "菠萝 (金)",
            NftCardId::PirateZombie => "海盗僵尸",
            NftCardId::PirateZombieGold => "海盗僵尸 (金)",
            NftCardId::Poison => "毒药",
            NftCardId::PoisonMushroom => "毒蘑菇",
            NftCardId::PoisonMushroomGold => "毒蘑菇 (金)",
            NftCardId::PoisonGold => "毒药 (金)",
            NftCardId::PrinceZombie => "僵尸王子",
            NftCardId::PrinceZombieGold => "僵尸王子 (金)",
            NftCardId::Pumpkin => "南瓜",
            NftCardId::PumpkinGold => "南瓜 (金)",
            NftCardId::RadiantDragon => "光辉龙",
            NftCardId::RadiantDragonGold => "光辉龙 (金)",
            NftCardId::Radish => "萝卜",
            NftCardId::RadishGold => "萝卜 (金)",
            NftCardId::RagingShield => "暴怒之盾",
            NftCardId::RagingShieldGold => "暴怒之盾 (金)",
            NftCardId::RedChili => "红辣椒",
            NftCardId::RedChiliGold => "红辣椒 (金)",
            NftCardId::RiotShield => "防暴盾牌",
            NftCardId::RiotShieldGold => "防暴盾牌 (金)",
            NftCardId::RoadblockZombie => "路障僵尸",
            NftCardId::RoadblockZombieGold => "路障僵尸 (金)",
            NftCardId::RobotDuke => "机器人公爵",
            NftCardId::RobotDukeGold => "机器人公爵 (金)",
            NftCardId::RockDragon => "岩石龙",
            NftCardId::RockDragonGold => "岩石龙 (金)",
            NftCardId::Rocket => "火箭",
            NftCardId::RocketGold => "火箭 (金)",
            NftCardId::SailorZombie => "水手僵尸",
            NftCardId::SailorZombieGold => "水手僵尸 (金)",
            NftCardId::ScoutBot => "侦察机器人",
            NftCardId::ScoutBotGold => "侦察机器人 (金)",
            NftCardId::ShadowDragon => "暗影龙",
            NftCardId::ShadowDragonGold => "暗影龙 (金)",
            NftCardId::Shotgun => "霰弹枪",
            NftCardId::ShotgunGold => "霰弹枪 (金)",
            NftCardId::Snail => "蜗牛",
            NftCardId::SnailGold => "蜗牛 (金)",
            NftCardId::Snake => "蛇",
            NftCardId::SnakeGold => "蛇 (金)",
            NftCardId::SpikedBat => "尖刺球棒",
            NftCardId::SpikedBatGold => "尖刺球棒 (金)",
            NftCardId::StarZombie => "星星僵尸",
            NftCardId::StarZombieGold => "星星僵尸 (金)",
            NftCardId::StarvingMimic => "饥饿的拟态怪",
            NftCardId::StarvingMimicGold => "饥饿的拟态怪 (金)",
            NftCardId::SteelDragon => "钢铁龙",
            NftCardId::SteelDragonGold => "钢铁龙 (金)",
            NftCardId::Stone => "石头",
            NftCardId::StoneGold => "石头 (金)",
            NftCardId::StormDragon => "风暴龙",
            NftCardId::StormDragonGold => "风暴龙 (金)",
            NftCardId::SturdyBot => "坚固机器人",
            NftCardId::SturdyBotGold => "坚固机器人 (金)",
            NftCardId::SuperZombie => "超能僵尸",
            NftCardId::SuperZombieGold => "超能僵尸 (金)",
            NftCardId::SupportBot => "支援机器人",
            NftCardId::SupportBotGold => "支援机器人 (金)",
            NftCardId::TerraDragon => "泰拉龙",
            NftCardId::TerraDragonGold => "泰拉龙 (金)",
            NftCardId::ThunderDragon => "雷电龙",
            NftCardId::ThunderDragonGold => "雷电龙 (金)",
            NftCardId::TortoiseBro => "乌龟",
            NftCardId::TortoiseBroGold => "乌龟 (金)",
            NftCardId::Trumpet => "小号",
            NftCardId::TrumpetGold => "小号 (金)",
            NftCardId::Turner => "转盘",
            NftCardId::TurnerGold => "转盘 (金)",
            NftCardId::UFO => "UFO",
            NftCardId::UFOGold => "UFO (金)",
            NftCardId::UncleElk => "麋鹿叔叔",
            NftCardId::UncleElkGold => "麋鹿叔叔 (金)",
            NftCardId::Watermelon => "西瓜",
            NftCardId::WatermelonGold => "西瓜 (金)",
            NftCardId::WindDragon => "风之龙",
            NftCardId::WindDragonGold => "风之龙 (金)",
            NftCardId::WolfKing => "狼王",
            NftCardId::WolfKingGold => "狼王 (金)",
            NftCardId::ZombieBaby => "僵尸宝宝",
            NftCardId::ZombieBabyGold => "僵尸宝宝 (金)",
            NftCardId::ZombieBride => "僵尸新娘",
            NftCardId::ZombieBrideGold => "僵尸新娘 (金)",
        }
    }

    /// The faction this card belongs to.
    #[verifier::opaque]
    pub open spec fn category(self) -> NftCardCategory
    {
        match self {
            NftCardId::AlarmBot => NftCardCategory::Mech,
            NftCardId::AlarmBotGold => NftCardCategory::Mech,
            NftCardId::AmmoCrate => NftCardCategory::Neutral,
            NftCardId::AmmoCrateGold => NftCardCategory::Neutral,
            NftCardId::AngryBull => NftCardCategory::Animal,
            NftCardId::AngryBullGold => NftCardCategory::Animal,
            NftCardId::Apple => NftCardCategory::Plant,
            NftCardId::AppleGold => NftCardCategory::Plant,
            NftCardId::ArrogantBoar => NftCardCategory::Animal,
            NftCardId::ArrogantBoarGold => NftCardCategory::Animal,
            NftCardId::AvengerD0 => NftCardCategory::Mech,
            NftCardId::AvengerD0Gold => NftCardCategory::Mech,
            NftCardId::Avocado => NftCardCategory::Plant,
            NftCardId::AvocadoGold => NftCardCategory::Plant,
            NftCardId::Axe => NftCardCategory::Neutral,
            NftCardId::AxeGold => NftCardCategory::Neutral,
            NftCardId::BarrelZombie => NftCardCategory::Zombie,
            NftCardId::BarrelZombieGold => NftCardCategory::Zombie,
            NftCardId::BombZombie => NftCardCategory::Zombie,
            NftCardId::BombZombieGold => NftCardCategory::Zombie,
            NftCardId::BoxingGloves => NftCardCategory::Neutral,
            NftCardId::BoxingGlovesGold => NftCardCategory::Neutral,
            NftCardId::BraveBeaver => NftCardCategory::Animal,
            NftCardId::BraveBeaverGold => NftCardCategory::Animal,
            NftCardId::Broom => NftCardCategory::Neutral,
            NftCardId::BroomGold => NftCardCategory::Neutral,
            NftCardId::Cabbage => NftCardCategory::Plant,
            NftCardId::CabbageGold => NftCardCategory::Plant,
            NftCardId::Cactus => NftCardCategory::Plant,
            NftCardId::CactusGold => NftCardCategory::Plant,
            NftCardId::Cannon => NftCardCategory::Neutral,
            NftCardId::CannonGold => NftCardCategory::Neutral,
            NftCardId::Chainsaw => NftCardCategory::Neutral,
            NftCardId::ChainsawGold => NftCardCategory::Neutral,
            NftCardId::ChargeBot => NftCardCategory::Mech,
            NftCardId::ChargeBotGold => NftCardCategory::Mech,
            NftCardId::CheerleaderZombie => NftCardCategory::Zombie,
            NftCardId::CheerleaderZombieGold => NftCardCategory::Zombie,
            NftCardId::ClownZombie => NftCardCategory::Zombie,
            NftCardId::ClownZombieGold => NftCardCategory::Zombie,
            NftCardId::Coconut => NftCardCategory::Plant,
            NftCardId::CoconutGold => NftCardCategory::Plant,
            NftCardId::CrazyDoctorZombie => NftCardCategory::Zombie,
            NftCardId::CrazyDoctorZombieGold => NftCardCategory::Zombie,
            NftCardId::CrystalDragon => NftCardCategory::Dragon,
            NftCardId::CrystalDragonGold => NftCardCategory::Dragon,
            NftCardId::CunningFox => NftCardCategory::Animal,
            NftCardId::CunningFoxGold => NftCardCategory::Animal,
            NftCardId::DancerZombie => NftCardCategory::Zombie,
            NftCardId::DancerZombieGold => NftCardCategory::Zombie,
            NftCardId::DeathKnight => NftCardCategory::Zombie,
            NftCardId::DeathKnightGold => NftCardCategory::Zombie,
            NftCardId::DeceptionDragon => NftCardCategory::Dragon,
            NftCardId::DeceptionDragonGold => NftCardCategory::Dragon,
            NftCardId::DeterrentBot => NftCardCategory::Mech,
            NftCardId::DeterrentBotGold => NftCardCategory::Mech,
            NftCardId::DoggyBot => NftCardCategory::Mech,
            NftCardId::DoggyBotGold => NftCardCategory::Mech,
            NftCardId::DragonEgg => NftCardCategory::Dragon,
            NftCardId::DragonEggGold => NftCardCategory::Dragon,
            NftCardId::DurianAgent => NftCardCategory::Plant,
            NftCardId::DurianAgentGold => NftCardCategory::Plant,
            NftCardId::DurianCommander => NftCardCategory::Plant,
            NftCardId::DurianCommanderGold => NftCardCategory::Plant,
            NftCardId::ES67 => NftCardCategory::Mech,
            NftCardId::ES67Gold => NftCardCategory::Mech,
            NftCardId::EpicMiracleEgg => NftCardCategory::Neutral,
            NftCardId::EpicMiracleEggGold => NftCardCategory::Neutral,
            NftCardId::FarmerZombie => NftCardCategory::Zombie,
            NftCardId::FarmerZombieGold => NftCardCategory::Zombie,
            NftCardId::FriendlyHen => NftCardCategory::Animal,
            NftCardId::FriendlyHenGold => NftCardCategory::Animal,
            NftCardId::Frog => NftCardCategory::Animal,
            NftCardId::FrogGold => NftCardCategory::Animal,
            NftCardId::FrostDragon => NftCardCategory::Dragon,
            NftCardId::FrostDragonGold => NftCardCategory::Dragon,
            NftCardId::FryingPan => NftCardCategory::Neutral,
            NftCardId::FryingPanGold => NftCardCategory::Neutral,
            NftCardId::FuriousTiger => NftCardCategory::Animal,
            NftCardId::FuriousTigerGold => NftCardCategory::Animal,
            NftCardId::GT130 => NftCardCategory::Mech,
            NftCardId::GT130Gold => NftCardCategory::Mech,
            NftCardId::Garlic => NftCardCategory::Plant,
            NftCardId::GarlicGold => NftCardCategory::Plant,
            NftCardId::GrandpaBroccoli => NftCardCategory::Plant,
            NftCardId::GrandpaBroccoliGold => NftCardCategory::Plant,
            NftCardId::GreedyShark => NftCardCategory::Animal,
            NftCardId::GreedySharkGold => NftCardCategory::Animal,
            NftCardId::GuardianBot => NftCardCategory::Mech,
            NftCardId::GuardianBotGold => NftCardCategory::Mech,
            NftCardId::HardshellNut => NftCardCategory::Plant,
            NftCardId::HardshellNutGold => NftCardCategory::Plant,
            NftCardId::HelperBot => NftCardCategory::Mech,
            NftCardId::HelperBotGold => NftCardCategory::Mech,
            NftCardId::InfernoDragon => NftCardCategory::Dragon,
            NftCardId::InfernoDragonGold => NftCardCategory::Dragon,
            NftCardId::InflatableHammer => NftCardCategory::Neutral,
            NftCardId::InflatableHammerGold => NftCardCategory::Neutral,
            NftCardId::IronHelmet => NftCardCategory::Neutral,
            NftCardId::IronHelmetGold => NftCardCategory::Neutral,
            NftCardId::JoyfulLamb => NftCardCategory::Animal,
            NftCardId::JoyfulLambGold => NftCardCategory::Animal,
            NftCardId::KittyBot => NftCardCategory::Mech,
            NftCardId::KittyBotGold => NftCardCategory::Mech,
            NftCardId::LavaDragon => NftCardCategory::Dragon,
            NftCardId::LavaDragonGold => NftCardCategory::Dragon,
            NftCardId::LegendaryMiracleEgg => NftCardCategory::Neutral,
            NftCardId::LegendaryMiracleEggGold => NftCardCategory::Neutral,
            NftCardId::LionKing => NftCardCategory::Animal,
            NftCardId::LionKingGold => NftCardCategory::Animal,
            NftCardId::Lobster => NftCardCategory::Animal,
            NftCardId::LobsterGold => NftCardCategory::Animal,
            NftCardId::MadRabbit => NftCardCategory::Animal,
            NftCardId::MadRabbitGold => NftCardCategory::Animal,
            NftCardId::MasterPanda => NftCardCategory::Animal,
            NftCardId::MasterPandaGold => NftCardCategory::Animal,
            NftCardId::MechHatchery => NftCardCategory::Mech,
            NftCardId::MechHatcheryGold => NftCardCategory::Mech,
            NftCardId::MechanicKnight => NftCardCategory::Mech,
            NftCardId::MechanicKnightGold => NftCardCategory::Mech,
            NftCardId::MinerZombie => NftCardCategory::Zombie,
            NftCardId::MinerZombieGold => NftCardCategory::Zombie,
            NftCardId::MiniRobot => NftCardCategory::Mech,
            NftCardId::MiniRobotGold => NftCardCategory::Mech,
            NftCardId::MrCorn => NftCardCategory::Plant,
            NftCardId::MrCornGold => NftCardCategory::Plant,
            NftCardId::MrTomato => NftCardCategory::Plant,
            NftCardId::MrTomatoGold => NftCardCategory::Plant,
            NftCardId::NatureDragon => NftCardCategory::Dragon,
            NftCardId::NatureDragonGold => NftCardCategory::Dragon,
            NftCardId::NaughtyDragon => NftCardCategory::Dragon,
            NftCardId::NaughtyDragonGold => NftCardCategory::Dragon,
            NftCardId::ObsidianDragon => NftCardCategory::Dragon,
            NftCardId::ObsidianDragonGold => NftCardCategory::Dragon,
            NftCardId::OceanDragon => NftCardCategory::Dragon,
            NftCardId::OceanDragonGold => NftCardCategory::Dragon,
            NftCardId::PartyZombie => NftCardCategory::Zombie,
            NftCardId::PartyZombieGold => NftCardCategory::Zombie,
            NftCardId::Pineapple => NftCardCategory::Plant,
            NftCardId::PineappleGold => NftCardCategory::Plant,
            NftCardId::PirateZombie => NftCardCategory::Zombie,
            NftCardId::PirateZombieGold => NftCardCategory::Zombie,
            NftCardId::Poison => NftCardCategory::Neutral,
            NftCardId::PoisonMushroom => NftCardCategory::Plant,
            NftCardId::PoisonMushroomGold => NftCardCategory::Plant,
            NftCardId::PoisonGold => NftCardCategory::Neutral,
            NftCardId::PrinceZombie => NftCardCategory::Zombie,
            NftCardId::PrinceZombieGold => NftCardCategory::Zombie,
            NftCardId::Pumpkin => NftCardCategory::Plant,
            NftCardId::PumpkinGold => NftCardCategory::Plant,
            NftCardId::RadiantDragon => NftCardCategory::Dragon,
            NftCardId::RadiantDragonGold => NftCardCategory::Dragon,
            NftCardId::Radish => NftCardCategory::Plant,
            NftCardId::RadishGold => NftCardCategory::Plant,
            NftCardId::RagingShield => NftCardCategory::Neutral,
            NftCardId::RagingShieldGold => NftCardCategory::Neutral,
            NftCardId::RedChili => NftCardCategory::Plant,
            NftCardId::RedChiliGold => NftCardCategory::Plant,
            NftCardId::RiotShield => NftCardCategory::Neutral,
            NftCardId::RiotShieldGold => NftCardCategory::Neutral,
            NftCardId::RoadblockZombie => NftCardCategory::Zombie,
            NftCardId::RoadblockZombieGold => NftCardCategory::Zombie,
            NftCardId::RobotDuke => NftCardCategory::Mech,
            NftCardId::RobotDukeGold => NftCardCategory::Mech,
            NftCardId::RockDragon => NftCardCategory::Dragon,
            NftCardId::RockDragonGold => NftCardCategory::Dragon,
            NftCardId::Rocket => NftCardCategory::Neutral,
            NftCardId::RocketGold => NftCardCategory::Neutral,
            NftCardId::SailorZombie => NftCardCategory::Zombie,
            NftCardId::SailorZombieGold => NftCardCategory::Zombie,
            NftCardId::ScoutBot => NftCardCategory::Mech,
            NftCardId::ScoutBotGold => NftCardCategory::Mech,
            NftCardId::ShadowDragon => NftCardCategory::Dragon,
            NftCardId::ShadowDragonGold => NftCardCategory::Dragon,
            NftCardId::Shotgun => NftCardCategory::Neutral,
            NftCardId::ShotgunGold => NftCardCategory::Neutral,
            NftCardId::Snail => NftCardCategory::Animal,
            NftCardId::SnailGold => NftCardCategory::Animal,
            NftCardId::Snake => NftCardCategory::Animal,
            NftCardId::SnakeGold => NftCardCategory::Animal,
            NftCardId::SpikedBat => NftCardCategory::Neutral,
            NftCardId::SpikedBatGold => NftCardCategory::Neutral,
            NftCardId::StarZombie => NftCardCategory::Zombie,
            NftCardId::StarZombieGold => NftCardCategory::Zombie,
            NftCardId::StarvingMimic => NftCardCategory::Neutral,
            NftCardId::StarvingMimicGold => NftCardCategory::Neutral,
            NftCardId::SteelDragon => NftCardCategory::Dragon,
            NftCardId::SteelDragonGold => NftCardCategory::Dragon,
            NftCardId::Stone => NftCardCategory::Mech,
            NftCardId::StoneGold => NftCardCategory::Mech,
            NftCardId::StormDragon => NftCardCategory::Dragon,
            NftCardId::StormDragonGold => NftCardCategory::Dragon,
            NftCardId::SturdyBot => NftCardCategory::Mech,
            NftCardId::SturdyBotGold => NftCardCategory::Mech,
            NftCardId::SuperZombie => NftCardCategory::Zombie,
            NftCardId::SuperZombieGold => NftCardCategory::Zombie,
            NftCardId::SupportBot => NftCardCategory::Mech,
            NftCardId::SupportBotGold => NftCardCategory::Mech,
            NftCardId::TerraDragon => NftCardCategory::Dragon,
            NftCardId::TerraDragonGold => NftCardCategory::Dragon,
            NftCardId::ThunderDragon => NftCardCategory::Dragon,
            NftCardId::ThunderDragonGold => NftCardCategory::Dragon,
            NftCardId::TortoiseBro => NftCardCategory::Animal,
            NftCardId::TortoiseBroGold => NftCardCategory::Animal,
            NftCardId::Trumpet => NftCardCategory::Neutral,
            NftCardId::TrumpetGold => NftCardCategory::Neutral,
            NftCardId::Turner => NftCardCategory::Neutral,
            NftCardId::TurnerGold => NftCardCategory::Neutral,
            NftCardId::UFO => NftCardCategory::Neutral,
            NftCardId::UFOGold => NftCardCategory::Neutral,
            NftCardId::UncleElk => NftCardCategory::Animal,
            NftCardId::UncleElkGold => NftCardCategory::Animal,
            NftCardId::Watermelon => NftCardCategory::Plant,
            NftCardId::WatermelonGold => NftCardCategory::Plant,
            NftCardId::WindDragon => NftCardCategory::Dragon,
            NftCardId::WindDragonGold => NftCardCategory::Dragon,
            NftCardId::WolfKing => NftCardCategory::Animal,
            NftCardId::WolfKingGold => NftCardCategory::Animal,
            NftCardId::ZombieBaby => NftCardCategory::Zombie,
            NftCardId::ZombieBabyGold => NftCardCategory::Zombie,
            NftCardId::ZombieBride => NftCardCategory::Zombie,
            NftCardId::ZombieBrideGold => NftCardCategory::Zombie,
        }
    }

    /// The colour of this card: its rarity, and whether it is a gold card.
    #[verifier::opaque]
    pub open spec fn color(self) -> NftCardColor
    {
        match self {
            NftCardId::AlarmBot => NftCardColor::Purple,
            NftCardId::AlarmBotGold => NftCardColor::PurpleGold,
            NftCardId::AmmoCrate => NftCardColor::Purple,
            NftCardId::AmmoCrateGold => NftCardColor::PurpleGold,
            NftCardId::AngryBull => NftCardColor::Purple,
            NftCardId::AngryBullGold => NftCardColor::PurpleGold,
            NftCardId::Apple => NftCardColor::White,
            NftCardId::AppleGold => NftCardColor::WhiteGold,
            NftCardId::ArrogantBoar => NftCardColor::White,
            NftCardId::ArrogantBoarGold => NftCardColor::WhiteGold,
            NftCardId::AvengerD0 => NftCardColor::Purple,
            NftCardId::AvengerD0Gold => NftCardColor::PurpleGold,
            NftCardId::Avocado => NftCardColor::Purple,
            NftCardId::AvocadoGold => NftCardColor::PurpleGold,
            NftCardId::Axe => NftCardColor::White,
            NftCardId::AxeGold => NftCardColor::WhiteGold,
            NftCardId::BarrelZombie => NftCardColor::Purple,
            NftCardId::BarrelZombieGold => NftCardColor::PurpleGold,
            NftCardId::BombZombie => NftCardColor::Blue,
            NftCardId::BombZombieGold => NftCardColor::BlueGold,
            NftCardId::BoxingGloves => NftCardColor::White,
            NftCardId::BoxingGlovesGold => NftCardColor::WhiteGold,
            NftCardId::BraveBeaver => NftCardColor::Blue,
            NftCardId::BraveBeaverGold => NftCardColor::BlueGold,
            NftCardId::Broom => NftCardColor::White,
            NftCardId::BroomGold => NftCardColor::WhiteGold,
            NftCardId::Cabbage => NftCardColor::Purple,
            NftCardId::CabbageGold => NftCardColor::PurpleGold,
            NftCardId::Cactus => NftCardColor::Blue,
            NftCardId::CactusGold => NftCardColor::BlueGold,
            NftCardId::Cannon => NftCardColor::White,
            NftCardId::CannonGold => NftCardColor::WhiteGold,
            NftCardId::Chainsaw => NftCardColor::White,
            NftCardId::ChainsawGold => NftCardColor::WhiteGold,
            NftCardId::ChargeBot => NftCardColor::Orange,
            NftCardId::ChargeBotGold => NftCardColor::OrangeGold,
            NftCardId::CheerleaderZombie => NftCardColor::Blue,
            NftCardId::CheerleaderZombieGold => NftCardColor::BlueGold,
            NftCardId::ClownZombie => NftCardColor::Purple,
            NftCardId::ClownZombieGold => NftCardColor::PurpleGold,
            NftCardId::Coconut => NftCardColor::Blue,
            NftCardId::CoconutGold => NftCardColor::BlueGold,
            NftCardId::CrazyDoctorZombie => NftCardColor::Orange,
            NftCardId::CrazyDoctorZombieGold => NftCardColor::OrangeGold,
            NftCardId::CrystalDragon => NftCardColor::Purple,
            NftCardId::CrystalDragonGold => NftCardColor::PurpleGold,
            NftCardId::CunningFox => NftCardColor::Purple,
            NftCardId::CunningFoxGold => NftCardColor::PurpleGold,
            NftCardId::DancerZombie => NftCardColor::Blue,
            NftCardId::DancerZombieGold => NftCardColor::BlueGold,
            NftCardId::DeathKnight => NftCardColor::White,
            NftCardId::DeathKnightGold => NftCardColor::WhiteGold,
            NftCardId::DeceptionDragon => NftCardColor::Purple,
            NftCardId::DeceptionDragonGold => NftCardColor::PurpleGold,
            NftCardId::DeterrentBot => NftCardColor::Orange,
            NftCardId::DeterrentBotGold => NftCardColor::OrangeGold,
            NftCardId::DoggyBot => NftCardColor::Purple,
            NftCardId::DoggyBotGold => NftCardColor::PurpleGold,
            NftCardId::DragonEgg => NftCardColor::Purple,
            NftCardId::DragonEggGold => NftCardColor::PurpleGold,
            NftCardId::DurianAgent => NftCardColor::Purple,
            NftCardId::DurianAgentGold => NftCardColor::PurpleGold,
            NftCardId::DurianCommander => NftCardColor::Orange,
            NftCardId::DurianCommanderGold => NftCardColor::OrangeGold,
            NftCardId::ES67 => NftCardColor::Blue,
            NftCardId::ES67Gold => NftCardColor::BlueGold,
            NftCardId::EpicMiracleEgg => NftCardColor::Purple,
            NftCardId::EpicMiracleEggGold => NftCardColor::PurpleGold,
            NftCardId::FarmerZombie => NftCardColor::White,
            NftCardId::FarmerZombieGold => NftCardColor::WhiteGold,
            NftCardId::FriendlyHen => NftCardColor::White,
            NftCardId::FriendlyHenGold => NftCardColor::WhiteGold,
            NftCardId::Frog => NftCardColor::Purple,
            NftCardId::FrogGold => NftCardColor::PurpleGold,
            NftCardId::FrostDragon => NftCardColor::Purple,
            NftCardId::FrostDragonGold => NftCardColor::PurpleGold,
            NftCardId::FryingPan => NftCardColor::Blue,
            NftCardId::FryingPanGold => NftCardColor::BlueGold,
            NftCardId::FuriousTiger => NftCardColor::Purple,
            NftCardId::FuriousTigerGold => NftCardColor::PurpleGold,
            NftCardId::GT130 => NftCardColor::Orange,
            NftCardId::GT130Gold => NftCardColor::OrangeGold,
            NftCardId::Garlic => NftCardColor::Orange,
            NftCardId::GarlicGold => NftCardColor::OrangeGold,
            NftCardId::GrandpaBroccoli => NftCardColor::Purple,
            NftCardId::GrandpaBroccoliGold => NftCardColor::PurpleGold,
            NftCardId::GreedyShark => NftCardColor::Blue,
            NftCardId::GreedySharkGold => NftCardColor::BlueGold,
            NftCardId::GuardianBot => NftCardColor::Orange,
            NftCardId::GuardianBotGold => NftCardColor::OrangeGold,
            NftCardId::HardshellNut => NftCardColor::White,
            NftCardId::HardshellNutGold => NftCardColor::WhiteGold,
            NftCardId::HelperBot => NftCardColor::Blue,
            NftCardId::HelperBotGold => NftCardColor::BlueGold,
            NftCardId::InfernoDragon => NftCardColor::Blue,
            NftCardId::InfernoDragonGold => NftCardColor::BlueGold,
            NftCardId::InflatableHammer => NftCardColor::Blue,
            NftCardId::InflatableHammerGold => NftCardColor::BlueGold,
            NftCardId::IronHelmet => NftCardColor::Blue,
            NftCardId::IronHelmetGold => NftCardColor::BlueGold,
            NftCardId::JoyfulLamb => NftCardColor::Blue,
            NftCardId::JoyfulLambGold => NftCardColor::BlueGold,
            NftCardId::KittyBot => NftCardColor::Purple,
            NftCardId::KittyBotGold => NftCardColor::PurpleGold,
            NftCardId::LavaDragon => NftCardColor::White,
            NftCardId::LavaDragonGold => NftCardColor::WhiteGold,
            NftCardId::LegendaryMiracleEgg => NftCardColor::Orange,
            NftCardId::LegendaryMiracleEggGold => NftCardColor::OrangeGold,
            NftCardId::LionKing => NftCardColor::Orange,
            NftCardId::LionKingGold => NftCardColor::OrangeGold,
            NftCardId::Lobster => NftCardColor::Blue,
            NftCardId::LobsterGold => NftCardColor::BlueGold,
            NftCardId::MadRabbit => NftCardColor::White,
            NftCardId::MadRabbitGold => NftCardColor::WhiteGold,
            NftCardId::MasterPanda => NftCardColor::Orange,
            NftCardId::MasterPandaGold => NftCardColor::OrangeGold,
            NftCardId::MechHatchery => NftCardColor::Purple,
            NftCardId::MechHatcheryGold => NftCardColor::PurpleGold,
            NftCardId::MechanicKnight => NftCardColor::Purple,
            NftCardId::MechanicKnightGold => NftCardColor::PurpleGold,
            NftCardId::MinerZombie => NftCardColor::Blue,
            NftCardId::MinerZombieGold => NftCardColor::BlueGold,
            NftCardId::MiniRobot => NftCardColor::White,
            NftCardId::MiniRobotGold => NftCardColor::WhiteGold,
            NftCardId::MrCorn => NftCardColor::White,
            NftCardId::MrCornGold => NftCardColor::WhiteGold,
            NftCardId::MrTomato => NftCardColor::Purple,
            NftCardId::MrTomatoGold => NftCardColor::PurpleGold,
            NftCardId::NatureDragon => NftCardColor::Purple,
            NftCardId::NatureDragonGold => NftCardColor::PurpleGold,
            NftCardId::NaughtyDragon => NftCardColor::White,
            NftCardId::NaughtyDragonGold => NftCardColor::WhiteGold,
            NftCardId::ObsidianDragon => NftCardColor::Blue,
            NftCardId::ObsidianDragonGold => NftCardColor::BlueGold,
            NftCardId::OceanDragon => NftCardColor::Orange,
            NftCardId::OceanDragonGold => NftCardColor::OrangeGold,
            NftCardId::PartyZombie => NftCardColor::Purple,
            NftCardId::PartyZombieGold => NftCardColor::PurpleGold,
            NftCardId::Pineapple => NftCardColor::Blue,
            NftCardId::PineappleGold => NftCardColor::BlueGold,
            NftCardId::PirateZombie => NftCardColor::Purple,
            NftCardId::PirateZombieGold => NftCardColor::PurpleGold,
            NftCardId::Poison => NftCardColor::Purple,
            NftCardId::PoisonMushroom => NftCardColor::White,
            NftCardId::PoisonMushroomGold => NftCardColor::WhiteGold,
            NftCardId::PoisonGold => NftCardColor::PurpleGold,
            NftCardId::PrinceZombie => NftCardColor::Orange,
            NftCardId::PrinceZombieGold => NftCardColor::OrangeGold,
            NftCardId::Pumpkin => NftCardColor::Orange,
            NftCardId::PumpkinGold => NftCardColor::OrangeGold,
            NftCardId::RadiantDragon => NftCardColor::Orange,
            NftCardId::RadiantDragonGold => NftCardColor::OrangeGold,
            NftCardId::Radish => NftCardColor::Blue,
            NftCardId::RadishGold => NftCardColor::BlueGold,
            NftCardId::RagingShield => NftCardColor::Blue,
            NftCardId::RagingShieldGold => NftCardColor::BlueGold,
            NftCardId::RedChili => NftCardColor::Blue,
            NftCardId::RedChiliGold => NftCardColor::BlueGold,
            NftCardId::RiotShield => NftCardColor::Purple,
            NftCardId::RiotShieldGold => NftCardColor::PurpleGold,
            NftCardId::RoadblockZombie => NftCardColor::Blue,
            NftCardId::RoadblockZombieGold => NftCardColor::BlueGold,
            NftCardId::RobotDuke => NftCardColor::Blue,
            NftCardId::RobotDukeGold => NftCardColor::BlueGold,
            NftCardId::RockDragon => NftCardColor::Purple,
            NftCardId::RockDragonGold => NftCardColor::PurpleGold,
            NftCardId::Rocket => NftCardColor::Purple,
            NftCardId::RocketGold => NftCardColor::PurpleGold,
            NftCardId::SailorZombie => NftCardColor::White,
            NftCardId::SailorZombieGold => NftCardColor::WhiteGold,
            NftCardId::ScoutBot => NftCardColor::Purple,
            NftCardId::ScoutBotGold => NftCardColor::PurpleGold,
            NftCardId::ShadowDragon => NftCardColor::Purple,
            NftCardId::ShadowDragonGold => NftCardColor::PurpleGold,
            NftCardId::Shotgun => NftCardColor::White,
            NftCardId::ShotgunGold => NftCardColor::WhiteGold,
            NftCardId::Snail => NftCardColor::White,
            NftCardId::SnailGold => NftCardColor::WhiteGold,
            NftCardId::Snake => NftCardColor::Purple,
            NftCardId::SnakeGold => NftCardColor::PurpleGold,
            NftCardId::SpikedBat => NftCardColor::White,
            NftCardId::SpikedBatGold => NftCardColor::WhiteGold,
            NftCardId::StarZombie => NftCardColor::Purple,
            NftCardId::StarZombieGold => NftCardColor::PurpleGold,
            NftCardId::StarvingMimic => NftCardColor::Purple,
            NftCardId::StarvingMimicGold => NftCardColor::PurpleGold,
            NftCardId::SteelDragon => NftCardColor::Blue,
            NftCardId::SteelDragonGold => NftCardColor::BlueGold,
            NftCardId::Stone => NftCardColor::Blue,
            NftCardId::StoneGold => NftCardColor::BlueGold,
            NftCardId::StormDragon => NftCardColor::Purple,
            NftCardId::StormDragonGold => NftCardColor::PurpleGold,
            NftCardId::SturdyBot => NftCardColor::White,
            NftCardId::SturdyBotGold => NftCardColor::WhiteGold,
            NftCardId::SuperZombie => NftCardColor::Orange,
            NftCardId::SuperZombieGold => NftCardColor::OrangeGold,
            NftCardId::SupportBot => NftCardColor::Purple,
            NftCardId::SupportBotGold => NftCardColor::PurpleGold,
            NftCardId::TerraDragon => NftCardColor::Orange,
            NftCardId::TerraDragonGold => NftCardColor::OrangeGold,
            NftCardId::ThunderDragon => NftCardColor::Orange,
            NftCardId::ThunderDragonGold => NftCardColor::OrangeGold,
            NftCardId::TortoiseBro => NftCardColor::Blue,
            NftCardId::TortoiseBroGold => NftCardColor::BlueGold,
            NftCardId::Trumpet => NftCardColor::Blue,
            NftCardId::TrumpetGold => NftCardColor::BlueGold,
            NftCardId::Turner => NftCardColor::Blue,
            NftCardId::TurnerGold => NftCardColor::BlueGold,
            NftCardId::UFO => NftCardColor::Blue,
            NftCardId::UFOGold => NftCardColor::BlueGold,
            NftCardId::UncleElk => NftCardColor::Blue,
            NftCardId::UncleElkGold => NftCardColor::BlueGold,
            NftCardId::Watermelon => NftCardColor::Purple,
            NftCardId::WatermelonGold => NftCardColor::PurpleGold,
            NftCardId::WindDragon => NftCardColor::Blue,
            NftCardId::WindDragonGold => NftCardColor::BlueGold,
            NftCardId::WolfKing => NftCardColor::Orange,
            NftCardId::WolfKingGold => NftCardColor::OrangeGold,
            NftCardId::ZombieBaby => NftCardColor::White,
            NftCardId::ZombieBabyGold => NftCardColor::WhiteGold,
            NftCardId::ZombieBride => NftCardColor::Purple,
            NftCardId::ZombieBrideGold => NftCardColor::PurpleGold,
        }
    }

    /// Finds the card that the marketplace calls `id`.
    pub fn from_id(id: u32) -> (found: Option<Self>)
        ensures
            match found {
                Some(card) => card.wire_code() == id,
                None => forall|card: NftCardId| #[trigger] card.wire_code() != id,
            },
    {
        proof {
            reveal(NftCardId::wire_code);
        }
        match id {
            500 => Some(NftCardId::AlarmBot),
            537 => Some(NftCardId::AlarmBotGold),
            320 => Some(NftCardId::AmmoCrate),
            437 => Some(NftCardId::AmmoCrateGold),
            415 => Some(NftCardId::AngryBull),
            440 => Some(NftCardId::AngryBullGold),
            393 => Some(NftCardId::Apple),
            402 => Some(NftCardId::AppleGold),
            370 => Some(NftCardId::ArrogantBoar),
            372 => Some(NftCardId::ArrogantBoarGold),
            544 => Some(NftCardId::AvengerD0),
            561 => Some(NftCardId::AvengerD0Gold),
            373 => Some(NftCardId::Avocado),
            436 => Some(NftCardId::AvocadoGold),
            369 => Some(NftCardId::Axe),
            371 => Some(NftCardId::AxeGold),
            455 => Some(NftCardId::BarrelZombie),
            460 => Some(NftCardId::BarrelZombieGold),
            361 => Some(NftCardId::BombZombie),
            338 => Some(NftCardId::BombZombieGold),
            427 => Some(NftCardId::BoxingGloves),
            317 => Some(NftCardId::BoxingGlovesGold),
            375 => Some(NftCardId::BraveBeaver),
            383 => Some(NftCardId::BraveBeaverGold),
            390 => Some(NftCardId::Broom),
            331 => Some(NftCardId::BroomGold),
            382 => Some(NftCardId::Cabbage),
            442 => Some(NftCardId::CabbageGold),
            348 => Some(NftCardId::Cactus),
            351 => Some(NftCardId::CactusGold),
            342 => Some(NftCardId::Cannon),
            344 => Some(NftCardId::CannonGold),
            345 => Some(NftCardId::Chainsaw),
            349 => Some(NftCardId::ChainsawGold),
            553 => Some(NftCardId::ChargeBot),
            509 => Some(NftCardId::ChargeBotGold),
            332 => Some(NftCardId::CheerleaderZombie),
            410 => Some(NftCardId::CheerleaderZombieGold),
            334 => Some(NftCardId::ClownZombie),
            439 => Some(NftCardId::ClownZombieGold),
            409 => Some(NftCardId::Coconut),
            411 => Some(NftCardId::CoconutGold),
            459 => Some(NftCardId::CrazyDoctorZombie),
            452 => Some(NftCardId::CrazyDoctorZombieGold),
            521 => Some(NftCardId::CrystalDragon),
            531 => Some(NftCardId::CrystalDragonGold),
            380 => Some(NftCardId::CunningFox),
            449 => Some(NftCardId::CunningFoxGold),
            352 => Some(NftCardId::DancerZombie),
            354 => Some(NftCardId::DancerZombieGold),
            310 => Some(NftCardId::DeathKnight),
            374 => Some(NftCardId::DeathKnightGold),
            498 => Some(NftCardId::DeceptionDragon),
            545 => Some(NftCardId::DeceptionDragonGold),
            505 => Some(NftCardId::DeterrentBot),
            546 => Some(NftCardId::DeterrentBotGold),
            519 => Some(NftCardId::DoggyBot),
            556 => Some(NftCardId::DoggyBotGold),
            523 => Some(NftCardId::DragonEgg),
            535 => Some(NftCardId::DragonEggGold),
            443 => Some(NftCardId::DurianAgent),
            458 => Some(NftCardId::DurianAgentGold),
            453 => Some(NftCardId::DurianCommander),
            463 => Some(NftCardId::DurianCommanderGold),
            529 => Some(NftCardId::ES67),
            536 => Some(NftCardId::ES67Gold),
            474 => Some(NftCardId::EpicMiracleEgg),
            487 => Some(NftCardId::EpicMiracleEggGold),
            377 => Some(NftCardId::FarmerZombie),
            389 => Some(NftCardId::FarmerZombieGold),
            401 => Some(NftCardId::FriendlyHen),
            315 => Some(NftCardId::FriendlyHenGold),
            451 => Some(NftCardId::Frog),
            461 => Some(NftCardId::FrogGold),
            524 => Some(NftCardId::FrostDragon),
            550 => Some(NftCardId::FrostDragonGold),
            398 => Some(NftCardId::FryingPan),
            399 => Some(NftCardId::FryingPanGold),
            419 => Some(NftCardId::FuriousTiger),
            396 => Some(NftCardId::FuriousTigerGold),
            547 => Some(NftCardId::GT130),
            565 => Some(NftCardId::GT130Gold),
            441 => Some(NftCardId::Garlic),
            435 => Some(NftCardId::GarlicGold),
            404 => Some(NftCardId::GrandpaBroccoli),
            429 => Some(NftCardId::GrandpaBroccoliGold),
            379 => Some(NftCardId::GreedyShark),
            387 => Some(NftCardId::GreedySharkGold),
            557 => Some(NftCardId::GuardianBot),
            560 => Some(NftCardId::GuardianBotGold),
            394 => Some(NftCardId::HardshellNut),
            425 => Some(NftCardId::HardshellNutGold),
            526 => Some(NftCardId::HelperBot),
            540 => Some(NftCardId::HelperBotGold),
            510 => Some(NftCardId::InfernoDragon),
            520 => Some(NftCardId::InfernoDragonGold),
            385 => Some(NftCardId::InflatableHammer),
            403 => Some(NftCardId::InflatableHammerGold),
            346 => Some(NftCardId::IronHelmet),
            347 => Some(NftCardId::IronHelmetGold),
            366 => Some(NftCardId::JoyfulLamb),
            367 => Some(NftCardId::JoyfulLambGold),
            502 => Some(NftCardId::KittyBot),
            542 => Some(NftCardId::KittyBotGold),
            507 => Some(NftCardId::LavaDragon),
            527 => Some(NftCardId::LavaDragonGold),
            476 => Some(NftCardId::LegendaryMiracleEgg),
            486 => Some(NftCardId::LegendaryMiracleEggGold),
            324 => Some(NftCardId::LionKing),
            330 => Some(NftCardId::LionKingGold),
            391 => Some(NftCardId::Lobster),
            397 => Some(NftCardId::LobsterGold),
            318 => Some(NftCardId::MadRabbit),
            335 => Some(NftCardId::MadRabbitGold),
            424 => Some(NftCardId::MasterPanda),
            432 => Some(NftCardId::MasterPandaGold),
            518 => Some(NftCardId::MechHatchery),
            558 => Some(NftCardId::MechHatcheryGold),
            532 => Some(NftCardId::MechanicKnight),
            543 => Some(NftCardId::MechanicKnightGold),
            384 => Some(NftCardId::MinerZombie),
            388 => Some(NftCardId::MinerZombieGold),
            503 => Some(NftCardId::MiniRobot),
            492 => Some(NftCardId::MiniRobotGold),
            413 => Some(NftCardId::MrCorn),
            395 => Some(NftCardId::MrCornGold),
            418 => Some(NftCardId::MrTomato),
            333 => Some(NftCardId::MrTomatoGold),
            517 => Some(NftCardId::NatureDragon),
            554 => Some(NftCardId::NatureDragonGold),
            495 => Some(NftCardId::NaughtyDragon),
            513 => Some(NftCardId::NaughtyDragonGold),
            512 => Some(NftCardId::ObsidianDragon),
            534 => Some(NftCardId::ObsidianDragonGold),
            551 => Some(NftCardId::OceanDragon),
            555 => Some(NftCardId::OceanDragonGold),
            423 => Some(NftCardId::PartyZombie),
            446 => Some(NftCardId::PartyZombieGold),
            355 => Some(NftCardId::Pineapple),
            357 => Some(NftCardId::PineappleGold),
            339 => Some(NftCardId::PirateZombie),
            448 => Some(NftCardId::PirateZombieGold),
            422 => Some(NftCardId::Poison),
            392 => Some(NftCardId::PoisonMushroom),
            406 => Some(NftCardId::PoisonMushroomGold),
            447 => Some(NftCardId::PoisonGold),
            323 => Some(NftCardId::PrinceZombie),
            311 => Some(NftCardId::PrinceZombieGold),
            326 => Some(NftCardId::Pumpkin),
            341 => Some(NftCardId::PumpkinGold),
            548 => Some(NftCardId::RadiantDragon),
            549 => Some(NftCardId::RadiantDragonGold),
            328 => Some(NftCardId::Radish),
            386 => Some(NftCardId::RadishGold),
            356 => Some(NftCardId::RagingShield),
            336 => Some(NftCardId::RagingShieldGold),
            358 => Some(NftCardId::RedChili),
            360 => Some(NftCardId::RedChiliGold),
            450 => Some(NftCardId::RiotShield),
            457 => Some(NftCardId::RiotShieldGold),
            363 => Some(NftCardId::RoadblockZombie),
            365 => Some(NftCardId::RoadblockZombieGold),
            516 => Some(NftCardId::RobotDuke),
            511 => Some(NftCardId::RobotDukeGold),
            559 => Some(NftCardId::RockDragon),
            562 => Some(NftCardId::RockDragonGold),
            414 => Some(NftCardId::Rocket),
            417 => Some(NftCardId::RocketGold),
            405 => Some(NftCardId::SailorZombie),
            325 => Some(NftCardId::SailorZombieGold),
            515 => Some(NftCardId::ScoutBot),
            508 => Some(NftCardId::ScoutBotGold),
            514 => Some(NftCardId::ShadowDragon),
            506 => Some(NftCardId::ShadowDragonGold),
            353 => Some(NftCardId::Shotgun),
            319 => Some(NftCardId::ShotgunGold),
            407 => Some(NftCardId::Snail),
            322 => Some(NftCardId::SnailGold),
            416 => Some(NftCardId::Snake),
            434 => Some(NftCardId::SnakeGold),
            301 => Some(NftCardId::SpikedBat),
            400 => Some(NftCardId::SpikedBatGold),
            421 => Some(NftCardId::StarZombie),
            438 => Some(NftCardId::StarZombieGold),
            420 => Some(NftCardId::StarvingMimic),
            428 => Some(NftCardId::StarvingMimicGold),
            504 => Some(NftCardId::SteelDragon),
            538 => Some(NftCardId::SteelDragonGold),
            499 => Some(NftCardId::Stone),
            525 => Some(NftCardId::StoneGold),
            552 => Some(NftCardId::StormDragon),
            563 => Some(NftCardId::StormDragonGold),
            494 => Some(NftCardId::SturdyBot),
            528 => Some(NftCardId::SturdyBotGold),
            378 => Some(NftCardId::SuperZombie),
            431 => Some(NftCardId::SuperZombieGold),
            533 => Some(NftCardId::SupportBot),
            539 => Some(NftCardId::SupportBotGold),
            497 => Some(NftCardId::TerraDragon),
            541 => Some(NftCardId::TerraDragonGold),
            530 => Some(NftCardId::ThunderDragon),
            564 => Some(NftCardId::ThunderDragonGold),
            350 => Some(NftCardId::TortoiseBro),
            445 => Some(NftCardId::TortoiseBroGold),
            359 => Some(NftCardId::Trumpet),
            362 => Some(NftCardId::TrumpetGold),
            364 => Some(NftCardId::Turner),
            368 => Some(NftCardId::TurnerGold),
            337 => Some(NftCardId::UFO),
            343 => Some(NftCardId::UFOGold),
            376 => Some(NftCardId::UncleElk),
            408 => Some(NftCardId::UncleElkGold),
            426 => Some(NftCardId::Watermelon),
            433 => Some(NftCardId::WatermelonGold),
            501 => Some(NftCardId::WindDragon),
            522 => Some(NftCardId::WindDragonGold),
            454 => Some(NftCardId::WolfKing),
            462 => Some(NftCardId::WolfKingGold),
            307 => Some(NftCardId::ZombieBaby),
            412 => Some(NftCardId::ZombieBabyGold),
            381 => Some(NftCardId::ZombieBride),
            430 => Some(NftCardId::ZombieBrideGold),
            _ => None,
        }
    }

    /// The English name of this card, as text of its own.
    pub fn to_string(&self) -> (name: String)
        ensures
            name@ == self.name_en(),
    {
        self.to_english().to_string()
    }

    /// The name of this card in the language `lang`.
    pub open spec fn name_in(self, lang: Seq<char>) -> Seq<char> {
        if is_chinese(lang) {
            self.name_cn()
        } else {
            self.name_en()
        }
    }

    /// Gives the name of card `id` in the language `lang`: the Chinese name
    /// where `lang` asks for Chinese, the English name for every other `lang`.
    pub fn get_name_by_id(id: NftCardId, lang: &str) -> (name: String)
        ensures
            name@ == id.name_in(lang@),
    {
        if str_eq(lang, "cn") || str_eq(lang, "zh") {
            id.to_chinese().to_string()
        } else {
            id.to_string()
        }
    }

    /// Gives the name, in the language `lang`, of the card that the
    /// marketplace calls `value`; `None` exactly when the catalog has no such
    /// card.
    pub fn get_name_by_value(value: u32, lang: &str) -> (name: Option<String>)
        ensures
            match name {
                Some(text) => exists|card: NftCardId|
                    card.wire_code() == value && text@ == #[trigger] card.name_in(lang@),
                None => forall|card: NftCardId| #[trigger] card.wire_code() != value,
            },
    {
        match NftCardId::from_id(value) {
            Some(card) => Some(NftCardId::get_name_by_id(card, lang)),
            None => None,
        }
    }

    /// All cards, in the order of the catalog.
    pub fn all() -> (cards: Vec<NftCardId>)
        ensures
            cards@.len() == CARD_COUNT,
            forall|i: int| 0 <= i < CARD_COUNT ==> cards@[i] == NftCardId::nth(i),
    {
        let mut cards: Vec<NftCardId> = Vec::new();
        let mut i: usize = 0;
        while i < CARD_COUNT
            invariant
                i <= CARD_COUNT,
                cards@.len() == i,
                forall|j: int| 0 <= j < i ==> cards@[j] == NftCardId::nth(j),
            decreases CARD_COUNT - i,
        {
            cards.push(NftCardId::at(i));
            i += 1;
        }
        cards
    }

    /// The numbers that the marketplace uses for the cards, in the order of
    /// the catalog.
    pub fn to_vec_u32() -> (codes: Vec<u32>)
        ensures
            codes@.len() == CARD_COUNT,
            forall|i: int| 0 <= i < CARD_COUNT ==> codes@[i] == NftCardId::nth(i).wire_code(),
    {
        let mut codes: Vec<u32> = Vec::new();
        let mut i: usize = 0;
        while i < CARD_COUNT
            invariant
                i <= CARD_COUNT,
                codes@.len() == i,
                forall|j: int| 0 <= j < i ==> codes@[j] == NftCardId::nth(j).wire_code(),
            decreases CARD_COUNT - i,
        {
            codes.push(NftCardId::at(i).to_wire_code());
            i += 1;
        }
        codes
    }

    /// Every card stands at its own place in the catalog, so the catalog
    /// holds each card exactly once.
    pub proof fn lemma_ordinal_nth(self)
        ensures
            0 <= self.ordinal() < CARD_COUNT,
            NftCardId::nth(self.ordinal()) == self,
    {
        reveal(NftCardId::ordinal);
        reveal(NftCardId::card_at);
    }

    /// Counting a place of the catalog gives that place back.
    #[verifier::rlimit(80)]
    pub proof fn lemma_nth_ordinal(i: int)
        requires
            0 <= i < CARD_COUNT,
        ensures
            NftCardId::nth(i).ordinal() == i,
    {
        reveal(NftCardId::ordinal);
        reveal(NftCardId::card_at);
    }

    /// No two cards share a number at the marketplace.
    pub proof fn lemma_wire_code_unique(self, other: NftCardId)
        requires
            self.wire_code() == other.wire_code(),
        ensures
            self == other,
    {
        reveal(NftCardId::wire_code);
    }

    /// Looking a card up by its own number finds that card.
    pub proof fn lemma_from_id_round_trip(self, found: Option<NftCardId>)
        requires
            match found {
                Some(card) => card.wire_code() == self.wire_code(),
                None => forall|card: NftCardId| #[trigger] card.wire_code() != self.wire_code(),
            },
        ensures
            found == Some(self),
    {
        if found is Some {
            found->0.lemma_wire_code_unique(self);
        } else {
            let code = self.wire_code();
            assert(self.wire_code() == code);
        }
    }
}

/// Whether `lang` asks for Chinese names.
pub open spec fn is_chinese(lang: Seq<char>) -> bool {
    lang == "cn"@ || lang == "zh"@
}

/// Gives the faction that card `id` belongs to.
pub fn get_nft_card_category(id: NftCardId) -> (category: NftCardCategory)
    ensures
        category == id.category(),
{
    proof {
        reveal(NftCardId::category);
    }
    match id {
        NftCardId::AlarmBot => NftCardCategory::Mech,
        NftCardId::AlarmBotGold => NftCardCategory::Mech,
        NftCardId::AmmoCrate => NftCardCategory::Neutral,
        NftCardId::AmmoCrateGold => NftCardCategory::Neutral,
        NftCardId::AngryBull => NftCardCategory::Animal,
        NftCardId::AngryBullGold => NftCardCategory::Animal,
        NftCardId::Apple => NftCardCategory::Plant,
        NftCardId::AppleGold => NftCardCategory::Plant,
        NftCardId::ArrogantBoar => NftCardCategory::Animal,
        NftCardId::ArrogantBoarGold => NftCardCategory::Animal,
        NftCardId::AvengerD0 => NftCardCategory::Mech,
        NftCardId::AvengerD0Gold => NftCardCategory::Mech,
        NftCardId::Avocado => NftCardCategory::Plant,
        NftCardId::AvocadoGold => NftCardCategory::Plant,
        NftCardId::Axe => NftCardCategory::Neutral,
        NftCardId::AxeGold => NftCardCategory::Neutral,
        NftCardId::BarrelZombie => NftCardCategory::Zombie,
        NftCardId::BarrelZombieGold => NftCardCategory::Zombie,
        NftCardId::BombZombie => NftCardCategory::Zombie,
        NftCardId::BombZombieGold => NftCardCategory::Zombie,
        NftCardId::BoxingGloves => NftCardCategory::Neutral,
        NftCardId::BoxingGlovesGold => NftCardCategory::Neutral,
        NftCardId::BraveBeaver => NftCardCategory::Animal,
        NftCardId::BraveBeaverGold => NftCardCategory::Animal,
        NftCardId::Broom => NftCardCategory::Neutral,
        NftCardId::BroomGold => NftCardCategory::Neutral,
        NftCardId::Cabbage => NftCardCategory::Plant,
        NftCardId::CabbageGold => NftCardCategory::Plant,
        NftCardId::Cactus => NftCardCategory::Plant,
        NftCardId::CactusGold => NftCardCategory::Plant,
        NftCardId::Cannon => NftCardCategory::Neutral,
        NftCardId::CannonGold => NftCardCategory::Neutral,
        NftCardId::Chainsaw => NftCardCategory::Neutral,
        NftCardId::ChainsawGold => NftCardCategory::Neutral,
        NftCardId::ChargeBot => NftCardCategory::Mech,
        NftCardId::ChargeBotGold => NftCardCategory::Mech,
        NftCardId::CheerleaderZombie => NftCardCategory::Zombie,
        NftCardId::CheerleaderZombieGold => NftCardCategory::Zombie,
        NftCardId::ClownZombie => NftCardCategory::Zombie,
        NftCardId::ClownZombieGold => NftCardCategory::Zombie,
        NftCardId::Coconut => NftCardCategory::Plant,
        NftCardId::CoconutGold => NftCardCategory::Plant,
        NftCardId::CrazyDoctorZombie => NftCardCategory::Zombie,
        NftCardId::CrazyDoctorZombieGold => NftCardCategory::Zombie,
        NftCardId::CrystalDragon => NftCardCategory::Dragon,
        NftCardId::CrystalDragonGold => NftCardCategory::Dragon,
        NftCardId::CunningFox => NftCardCategory::Animal,
        NftCardId::CunningFoxGold => NftCardCategory::Animal,
        NftCardId::DancerZombie => NftCardCategory::Zombie,
        NftCardId::DancerZombieGold => NftCardCategory::Zombie,
        NftCardId::DeathKnight => NftCardCategory::Zombie,
        NftCardId::DeathKnightGold => NftCardCategory::Zombie,
        NftCardId::DeceptionDragon => NftCardCategory::Dragon,
        NftCardId::DeceptionDragonGold => NftCardCategory::Dragon,
        NftCardId::DeterrentBot => NftCardCategory::Mech,
        NftCardId::DeterrentBotGold => NftCardCategory::Mech,
        NftCardId::DoggyBot => NftCardCategory::Mech,
        NftCardId::DoggyBotGold => NftCardCategory::Mech,
        NftCardId::DragonEgg => NftCardCategory::Dragon,
        NftCardId::DragonEggGold => NftCardCategory::Dragon,
        NftCardId::DurianAgent => NftCardCategory::Plant,
        NftCardId::DurianAgentGold => NftCardCategory::Plant,
        NftCardId::DurianCommander => NftCardCategory::Plant,
        NftCardId::DurianCommanderGold => NftCardCategory::Plant,
        NftCardId::ES67 => NftCardCategory::Mech,
        NftCardId::ES67Gold => NftCardCategory::Mech,
        NftCardId::EpicMiracleEgg => NftCardCategory::Neutral,
        NftCardId::EpicMiracleEggGold => NftCardCategory::Neutral,
        NftCardId::FarmerZombie => NftCardCategory::Zombie,
        NftCardId::FarmerZombieGold => NftCardCategory::Zombie,
        NftCardId::FriendlyHen => NftCardCategory::Animal,
        NftCardId::FriendlyHenGold => NftCardCategory::Animal,
        NftCardId::Frog => NftCardCategory::Animal,
        NftCardId::FrogGold => NftCardCategory::Animal,
        NftCardId::FrostDragon => NftCardCategory::Dragon,
        NftCardId::FrostDragonGold => NftCardCategory::Dragon,
        NftCardId::FryingPan => NftCardCategory::Neutral,
        NftCardId::FryingPanGold => NftCardCategory::Neutral,
        NftCardId::FuriousTiger => NftCardCategory::Animal,
        NftCardId::FuriousTigerGold => NftCardCategory::Animal,
        NftCardId::GT130 => NftCardCategory::Mech,
        NftCardId::GT130Gold => NftCardCategory::Mech,
        NftCardId::Garlic => NftCardCategory::Plant,
        NftCardId::GarlicGold => NftCardCategory::Plant,
        NftCardId::GrandpaBroccoli => NftCardCategory::Plant,
        NftCardId::GrandpaBroccoliGold => NftCardCategory::Plant,
        NftCardId::GreedyShark => NftCardCategory::Animal,
        NftCardId::GreedySharkGold => NftCardCategory::Animal,
        NftCardId::GuardianBot => NftCardCategory::Mech,
        NftCardId::GuardianBotGold => NftCardCategory::Mech,
        NftCardId::HardshellNut => NftCardCategory::Plant,
        NftCardId::HardshellNutGold => NftCardCategory::Plant,
        NftCardId::HelperBot => NftCardCategory::Mech,
        NftCardId::HelperBotGold => NftCardCategory::Mech,
        NftCardId::InfernoDragon => NftCardCategory::Dragon,
        NftCardId::InfernoDragonGold => NftCardCategory::Dragon,
        NftCardId::InflatableHammer => NftCardCategory::Neutral,
        NftCardId::InflatableHammerGold => NftCardCategory::Neutral,
        NftCardId::IronHelmet => NftCardCategory::Neutral,
        NftCardId::IronHelmetGold => NftCardCategory::Neutral,
        NftCardId::JoyfulLamb => NftCardCategory::Animal,
        NftCardId::JoyfulLambGold => NftCardCategory::Animal,
        NftCardId::KittyBot => NftCardCategory::Mech,
        NftCardId::KittyBotGold => NftCardCategory::Mech,
        NftCardId::LavaDragon => NftCardCategory::Dragon,
        NftCardId::LavaDragonGold => NftCardCategory::Dragon,
        NftCardId::LegendaryMiracleEgg => NftCardCategory::Neutral,
        NftCardId::LegendaryMiracleEggGold => NftCardCategory::Neutral,
        NftCardId::LionKing => NftCardCategory::Animal,
        NftCardId::LionKingGold => NftCardCategory::Animal,
        NftCardId::Lobster => NftCardCategory::Animal,
        NftCardId::LobsterGold => NftCardCategory::Animal,
        NftCardId::MadRabbit => NftCardCategory::Animal,
        NftCardId::MadRabbitGold => NftCardCategory::Animal,
        NftCardId::MasterPanda => NftCardCategory::Animal,
        NftCardId::MasterPandaGold => NftCardCategory::Animal,
        NftCardId::MechHatchery => NftCardCategory::Mech,
        NftCardId::MechHatcheryGold => NftCardCategory::Mech,
        NftCardId::MechanicKnight => NftCardCategory::Mech,
        NftCardId::MechanicKnightGold => NftCardCategory::Mech,
        NftCardId::MinerZombie => NftCardCategory::Zombie,
        NftCardId::MinerZombieGold => NftCardCategory::Zombie,
        NftCardId::MiniRobot => NftCardCategory::Mech,
        NftCardId::MiniRobotGold => NftCardCategory::Mech,
        NftCardId::MrCorn => NftCardCategory::Plant,
        NftCardId::MrCornGold => NftCardCategory::Plant,
        NftCardId::MrTomato => NftCardCategory::Plant,
        NftCardId::MrTomatoGold => NftCardCategory::Plant,
        NftCardId::NatureDragon => NftCardCategory::Dragon,
        NftCardId::NatureDragonGold => NftCardCategory::Dragon,
        NftCardId::NaughtyDragon => NftCardCategory::Dragon,
        NftCardId::NaughtyDragonGold => NftCardCategory::Dragon,
        NftCardId::ObsidianDragon => NftCardCategory::Dragon,
        NftCardId::ObsidianDragonGold => NftCardCategory::Dragon,
        NftCardId::OceanDragon => NftCardCategory::Dragon,
        NftCardId::OceanDragonGold => NftCardCategory::Dragon,
        NftCardId::PartyZombie => NftCardCategory::Zombie,
        NftCardId::PartyZombieGold => NftCardCategory::Zombie,
        NftCardId::Pineapple => NftCardCategory::Plant,
        NftCardId::PineappleGold => NftCardCategory::Plant,
        NftCardId::PirateZombie => NftCardCategory::Zombie,
        NftCardId::PirateZombieGold => NftCardCategory::Zombie,
        NftCardId::Poison => NftCardCategory::Neutral,
        NftCardId::PoisonMushroom => NftCardCategory::Plant,
        NftCardId::PoisonMushroomGold => NftCardCategory::Plant,
        NftCardId::PoisonGold => NftCardCategory::Neutral,
        NftCardId::PrinceZombie => NftCardCategory::Zombie,
        NftCardId::PrinceZombieGold => NftCardCategory::Zombie,
        NftCardId::Pumpkin => NftCardCategory::Plant,
        NftCardId::PumpkinGold => NftCardCategory::Plant,
        NftCardId::RadiantDragon => NftCardCategory::Dragon,
        NftCardId::RadiantDragonGold => NftCardCategory::Dragon,
        NftCardId::Radish => NftCardCategory::Plant,
        NftCardId::RadishGold => NftCardCategory::Plant,
        NftCardId::RagingShield => NftCardCategory::Neutral,
        NftCardId::RagingShieldGold => NftCardCategory::Neutral,
        NftCardId::RedChili => NftCardCategory::Plant,
        NftCardId::RedChiliGold => NftCardCategory::Plant,
        NftCardId::RiotShield => NftCardCategory::Neutral,
        NftCardId::RiotShieldGold => NftCardCategory::Neutral,
        NftCardId::RoadblockZombie => NftCardCategory::Zombie,
        NftCardId::RoadblockZombieGold => NftCardCategory::Zombie,
        NftCardId::RobotDuke => NftCardCategory::Mech,
        NftCardId::RobotDukeGold => NftCardCategory::Mech,
        NftCardId::RockDragon => NftCardCategory::Dragon,
        NftCardId::RockDragonGold => NftCardCategory::Dragon,
        NftCardId::Rocket => NftCardCategory::Neutral,
        NftCardId::RocketGold => NftCardCategory::Neutral,
        NftCardId::SailorZombie => NftCardCategory::Zombie,
        NftCardId::SailorZombieGold => NftCardCategory::Zombie,
        NftCardId::ScoutBot => NftCardCategory::Mech,
        NftCardId::ScoutBotGold => NftCardCategory::Mech,
        NftCardId::ShadowDragon => NftCardCategory::Dragon,
        NftCardId::ShadowDragonGold => NftCardCategory::Dragon,
        NftCardId::Shotgun => NftCardCategory::Neutral,
        NftCardId::ShotgunGold => NftCardCategory::Neutral,
        NftCardId::Snail => NftCardCategory::Animal,
        NftCardId::SnailGold => NftCardCategory::Animal,
        NftCardId::Snake => NftCardCategory::Animal,
        NftCardId::SnakeGold => NftCardCategory::Animal,
        NftCardId::SpikedBat => NftCardCategory::Neutral,
        NftCardId::SpikedBatGold => NftCardCategory::Neutral,
        NftCardId::StarZombie => NftCardCategory::Zombie,
        NftCardId::StarZombieGold => NftCardCategory::Zombie,
        NftCardId::StarvingMimic => NftCardCategory::Neutral,
        NftCardId::StarvingMimicGold => NftCardCategory::Neutral,
        NftCardId::SteelDragon => NftCardCategory::Dragon,
        NftCardId::SteelDragonGold => NftCardCategory::Dragon,
        NftCardId::Stone => NftCardCategory::Mech,
        NftCardId::StoneGold => NftCardCategory::Mech,
        NftCardId::StormDragon => NftCardCategory::Dragon,
        NftCardId::StormDragonGold => NftCardCategory::Dragon,
        NftCardId::SturdyBot => NftCardCategory::Mech,
        NftCardId::SturdyBotGold => NftCardCategory::Mech,
        NftCardId::SuperZombie => NftCardCategory::Zombie,
        NftCardId::SuperZombieGold => NftCardCategory::Zombie,
        NftCardId::SupportBot => NftCardCategory::Mech,
        NftCardId::SupportBotGold => NftCardCategory::Mech,
        NftCardId::TerraDragon => NftCardCategory::Dragon,
        NftCardId::TerraDragonGold => NftCardCategory::Dragon,
        NftCardId::ThunderDragon => NftCardCategory::Dragon,
        NftCardId::ThunderDragonGold => NftCardCategory::Dragon,
        NftCardId::TortoiseBro => NftCardCategory::Animal,
        NftCardId::TortoiseBroGold => NftCardCategory::Animal,
        NftCardId::Trumpet => NftCardCategory::Neutral,
        NftCardId::TrumpetGold => NftCardCategory::Neutral,
        NftCardId::Turner => NftCardCategory::Neutral,
        NftCardId::TurnerGold => NftCardCategory::Neutral,
        NftCardId::UFO => NftCardCategory::Neutral,
        NftCardId::UFOGold => NftCardCategory::Neutral,
        NftCardId::UncleElk => NftCardCategory::Animal,
        NftCardId::UncleElkGold => NftCardCategory::Animal,
        NftCardId::Watermelon => NftCardCategory::Plant,
        NftCardId::WatermelonGold => NftCardCategory::Plant,
        NftCardId::WindDragon => NftCardCategory::Dragon,
        NftCardId::WindDragonGold => NftCardCategory::Dragon,
        NftCardId::WolfKing => NftCardCategory::Animal,
        NftCardId::WolfKingGold => NftCardCategory::Animal,
        NftCardId::ZombieBaby => NftCardCategory::Zombie,
        NftCardId::ZombieBabyGold => NftCardCategory::Zombie,
        NftCardId::ZombieBride => NftCardCategory::Zombie,
        NftCardId::ZombieBrideGold => NftCardCategory::Zombie,
    }
}

/// Gives the colour of card `id`.
pub fn get_nft_card_color(id: NftCardId) -> (color: NftCardColor)
    ensures
        color == id.color(),
{
    proof {
        reveal(NftCardId::color);
    }
    match id {
        NftCardId::AlarmBot => NftCardColor::Purple,
        NftCardId::AlarmBotGold => NftCardColor::PurpleGold,
        NftCardId::AmmoCrate => NftCardColor::Purple,
        NftCardId::AmmoCrateGold => NftCardColor::PurpleGold,
        NftCardId::AngryBull => NftCardColor::Purple,
        NftCardId::AngryBullGold => NftCardColor::PurpleGold,
        NftCardId::Apple => NftCardColor::White,
        NftCardId::AppleGold => NftCardColor::WhiteGold,
        NftCardId::ArrogantBoar => NftCardColor::White,
        NftCardId::ArrogantBoarGold => NftCardColor::WhiteGold,
        NftCardId::AvengerD0 => NftCardColor::Purple,
        NftCardId::AvengerD0Gold => NftCardColor::PurpleGold,
        NftCardId::Avocado => NftCardColor::Purple,
        NftCardId::AvocadoGold => NftCardColor::PurpleGold,
        NftCardId::Axe => NftCardColor::White,
        NftCardId::AxeGold => NftCardColor::WhiteGold,
        NftCardId::BarrelZombie => NftCardColor::Purple,
        NftCardId::BarrelZombieGold => NftCardColor::PurpleGold,
        NftCardId::BombZombie => NftCardColor::Blue,
        NftCardId::BombZombieGold => NftCardColor::BlueGold,
        NftCardId::BoxingGloves => NftCardColor::White,
        NftCardId::BoxingGlovesGold => NftCardColor::WhiteGold,
        NftCardId::BraveBeaver => NftCardColor::Blue,
        NftCardId::BraveBeaverGold => NftCardColor::BlueGold,
        NftCardId::Broom => NftCardColor::White,
        NftCardId::BroomGold => NftCardColor::WhiteGold,
        NftCardId::Cabbage => NftCardColor::Purple,
        NftCardId::CabbageGold => NftCardColor::PurpleGold,
        NftCardId::Cactus => NftCardColor::Blue,
        NftCardId::CactusGold => NftCardColor::BlueGold,
        NftCardId::Cannon => NftCardColor::White,
        NftCardId::CannonGold => NftCardColor::WhiteGold,
        NftCardId::Chainsaw => NftCardColor::White,
        NftCardId::ChainsawGold => NftCardColor::WhiteGold,
        NftCardId::ChargeBot => NftCardColor::Orange,
        NftCardId::ChargeBotGold => NftCardColor::OrangeGold,
        NftCardId::CheerleaderZombie => NftCardColor::Blue,
        NftCardId::CheerleaderZombieGold => NftCardColor::BlueGold,
        NftCardId::ClownZombie => NftCardColor::Purple,
        NftCardId::ClownZombieGold => NftCardColor::PurpleGold,
        NftCardId::Coconut => NftCardColor::Blue,
        NftCardId::CoconutGold => NftCardColor::BlueGold,
        NftCardId::CrazyDoctorZombie => NftCardColor::Orange,
        NftCardId::CrazyDoctorZombieGold => NftCardColor::OrangeGold,
        NftCardId::CrystalDragon => NftCardColor::Purple,
        NftCardId::CrystalDragonGold => NftCardColor::PurpleGold,
        NftCardId::CunningFox => NftCardColor::Purple,
        NftCardId::CunningFoxGold => NftCardColor::PurpleGold,
        NftCardId::DancerZombie => NftCardColor::Blue,
        NftCardId::DancerZombieGold => NftCardColor::BlueGold,
        NftCardId::DeathKnight => NftCardColor::White,
        NftCardId::DeathKnightGold => NftCardColor::WhiteGold,
        NftCardId::DeceptionDragon => NftCardColor::Purple,
        NftCardId::DeceptionDragonGold => NftCardColor::PurpleGold,
        NftCardId::DeterrentBot => NftCardColor::Orange,
        NftCardId::DeterrentBotGold => NftCardColor::OrangeGold,
        NftCardId::DoggyBot => NftCardColor::Purple,
        NftCardId::DoggyBotGold => NftCardColor::PurpleGold,
        NftCardId::DragonEgg => NftCardColor::Purple,
        NftCardId::DragonEggGold => NftCardColor::PurpleGold,
        NftCardId::DurianAgent => NftCardColor::Purple,
        NftCardId::DurianAgentGold => NftCardColor::PurpleGold,
        NftCardId::DurianCommander => NftCardColor::Orange,
        NftCardId::DurianCommanderGold => NftCardColor::OrangeGold,
        NftCardId::ES67 => NftCardColor::Blue,
        NftCardId::ES67Gold => NftCardColor::BlueGold,
        NftCardId::EpicMiracleEgg => NftCardColor::Purple,
        NftCardId::EpicMiracleEggGold => NftCardColor::PurpleGold,
        NftCardId::FarmerZombie => NftCardColor::White,
        NftCardId::FarmerZombieGold => NftCardColor::WhiteGold,
        NftCardId::FriendlyHen => NftCardColor::White,
        NftCardId::FriendlyHenGold => NftCardColor::WhiteGold,
        NftCardId::Frog => NftCardColor::Purple,
        NftCardId::FrogGold => NftCardColor::PurpleGold,
        NftCardId::FrostDragon => NftCardColor::Purple,
        NftCardId::FrostDragonGold => NftCardColor::PurpleGold,
        NftCardId::FryingPan => NftCardColor::Blue,
        NftCardId::FryingPanGold => NftCardColor::BlueGold,
        NftCardId::FuriousTiger => NftCardColor::Purple,
        NftCardId::FuriousTigerGold => NftCardColor::PurpleGold,
        NftCardId::GT130 => NftCardColor::Orange,
        NftCardId::GT130Gold => NftCardColor::OrangeGold,
        NftCardId::Garlic => NftCardColor::Orange,
        NftCardId::GarlicGold => NftCardColor::OrangeGold,
        NftCardId::GrandpaBroccoli => NftCardColor::Purple,
        NftCardId::GrandpaBroccoliGold => NftCardColor::PurpleGold,
        NftCardId::GreedyShark => NftCardColor::Blue,
        NftCardId::GreedySharkGold => NftCardColor::BlueGold,
        NftCardId::GuardianBot => NftCardColor::Orange,
        NftCardId::GuardianBotGold => NftCardColor::OrangeGold,
        NftCardId::HardshellNut => NftCardColor::White,
        NftCardId::HardshellNutGold => NftCardColor::WhiteGold,
        NftCardId::HelperBot => NftCardColor::Blue,
        NftCardId::HelperBotGold => NftCardColor::BlueGold,
        NftCardId::InfernoDragon => NftCardColor::Blue,
        NftCardId::InfernoDragonGold => NftCardColor::BlueGold,
        NftCardId::InflatableHammer => NftCardColor::Blue,
        NftCardId::InflatableHammerGold => NftCardColor::BlueGold,
        NftCardId::IronHelmet => NftCardColor::Blue,
        NftCardId::IronHelmetGold => NftCardColor::BlueGold,
        NftCardId::JoyfulLamb => NftCardColor::Blue,
        NftCardId::JoyfulLambGold => NftCardColor::BlueGold,
        NftCardId::KittyBot => NftCardColor::Purple,
        NftCardId::KittyBotGold => NftCardColor::PurpleGold,
        NftCardId::LavaDragon => NftCardColor::White,
        NftCardId::LavaDragonGold => NftCardColor::WhiteGold,
        NftCardId::LegendaryMiracleEgg => NftCardColor::Orange,
        NftCardId::LegendaryMiracleEggGold => NftCardColor::OrangeGold,
        NftCardId::LionKing => NftCardColor::Orange,
        NftCardId::LionKingGold => NftCardColor::OrangeGold,
        NftCardId::Lobster => NftCardColor::Blue,
        NftCardId::LobsterGold => NftCardColor::BlueGold,
        NftCardId::MadRabbit => NftCardColor::White,
        NftCardId::MadRabbitGold => NftCardColor::WhiteGold,
        NftCardId::MasterPanda => NftCardColor::Orange,
        NftCardId::MasterPandaGold => NftCardColor::OrangeGold,
        NftCardId::MechHatchery => NftCardColor::Purple,
        NftCardId::MechHatcheryGold => NftCardColor::PurpleGold,
        NftCardId::MechanicKnight => NftCardColor::Purple,
        NftCardId::MechanicKnightGold => NftCardColor::PurpleGold,
        NftCardId::MinerZombie => NftCardColor::Blue,
        NftCardId::MinerZombieGold => NftCardColor::BlueGold,
        NftCardId::MiniRobot => NftCardColor::White,
        NftCardId::MiniRobotGold => NftCardColor::WhiteGold,
        NftCardId::MrCorn => NftCardColor::White,
        NftCardId::MrCornGold => NftCardColor::WhiteGold,
        NftCardId::MrTomato => NftCardColor::Purple,
        NftCardId::MrTomatoGold => NftCardColor::PurpleGold,
        NftCardId::NatureDragon => NftCardColor::Purple,
        NftCardId::NatureDragonGold => NftCardColor::PurpleGold,
        NftCardId::NaughtyDragon => NftCardColor::White,
        NftCardId::NaughtyDragonGold => NftCardColor::WhiteGold,
        NftCardId::ObsidianDragon => NftCardColor::Blue,
        NftCardId::ObsidianDragonGold => NftCardColor::BlueGold,
        NftCardId::OceanDragon => NftCardColor::Orange,
        NftCardId::OceanDragonGold => NftCardColor::OrangeGold,
        NftCardId::PartyZombie => NftCardColor::Purple,
        NftCardId::PartyZombieGold => NftCardColor::PurpleGold,
        NftCardId::Pineapple => NftCardColor::Blue,
        NftCardId::PineappleGold => NftCardColor::BlueGold,
        NftCardId::PirateZombie => NftCardColor::Purple,
        NftCardId::PirateZombieGold => NftCardColor::PurpleGold,
        NftCardId::Poison => NftCardColor::Purple,
        NftCardId::PoisonMushroom => NftCardColor::White,
        NftCardId::PoisonMushroomGold => NftCardColor::WhiteGold,
        NftCardId::PoisonGold => NftCardColor::PurpleGold,
        NftCardId::PrinceZombie => NftCardColor::Orange,
        NftCardId::PrinceZombieGold => NftCardColor::OrangeGold,
        NftCardId::Pumpkin => NftCardColor::Orange,
        NftCardId::PumpkinGold => NftCardColor::OrangeGold,
        NftCardId::RadiantDragon => NftCardColor::Orange,
        NftCardId::RadiantDragonGold => NftCardColor::OrangeGold,
        NftCardId::Radish => NftCardColor::Blue,
        NftCardId::RadishGold => NftCardColor::BlueGold,
        NftCardId::RagingShield => NftCardColor::Blue,
        NftCardId::RagingShieldGold => NftCardColor::BlueGold,
        NftCardId::RedChili => NftCardColor::Blue,
        NftCardId::RedChiliGold => NftCardColor::BlueGold,
        NftCardId::RiotShield => NftCardColor::Purple,
        NftCardId::RiotShieldGold => NftCardColor::PurpleGold,
        NftCardId::RoadblockZombie => NftCardColor::Blue,
        NftCardId::RoadblockZombieGold => NftCardColor::BlueGold,
        NftCardId::RobotDuke => NftCardColor::Blue,
        NftCardId::RobotDukeGold => NftCardColor::BlueGold,
        NftCardId::RockDragon => NftCardColor::Purple,
        NftCardId::RockDragonGold => NftCardColor::PurpleGold,
        NftCardId::Rocket => NftCardColor::Purple,
        NftCardId::RocketGold => NftCardColor::PurpleGold,
        NftCardId::SailorZombie => NftCardColor::White,
        NftCardId::SailorZombieGold => NftCardColor::WhiteGold,
        NftCardId::ScoutBot => NftCardColor::Purple,
        NftCardId::ScoutBotGold => NftCardColor::PurpleGold,
        NftCardId::ShadowDragon => NftCardColor::Purple,
        NftCardId::ShadowDragonGold => NftCardColor::PurpleGold,
        NftCardId::Shotgun => NftCardColor::White,
        NftCardId::ShotgunGold => NftCardColor::WhiteGold,
        NftCardId::Snail => NftCardColor::White,
        NftCardId::SnailGold => NftCardColor::WhiteGold,
        NftCardId::Snake => NftCardColor::Purple,
        NftCardId::SnakeGold => NftCardColor::PurpleGold,
        NftCardId::SpikedBat => NftCardColor::White,
        NftCardId::SpikedBatGold => NftCardColor::WhiteGold,
        NftCardId::StarZombie => NftCardColor::Purple,
        NftCardId::StarZombieGold => NftCardColor::PurpleGold,
        NftCardId::StarvingMimic => NftCardColor::Purple,
        NftCardId::StarvingMimicGold => NftCardColor::PurpleGold,
        NftCardId::SteelDragon => NftCardColor::Blue,
        NftCardId::SteelDragonGold => NftCardColor::BlueGold,
        NftCardId::Stone => NftCardColor::Blue,
        NftCardId::StoneGold => NftCardColor::BlueGold,
        NftCardId::StormDragon => NftCardColor::Purple,
        NftCardId::StormDragonGold => NftCardColor::PurpleGold,
        NftCardId::SturdyBot => NftCardColor::White,
        NftCardId::SturdyBotGold => NftCardColor::WhiteGold,
        NftCardId::SuperZombie => NftCardColor::Orange,
        NftCardId::SuperZombieGold => NftCardColor::OrangeGold,
        NftCardId::SupportBot => NftCardColor::Purple,
        NftCardId::SupportBotGold => NftCardColor::PurpleGold,
        NftCardId::TerraDragon => NftCardColor::Orange,
        NftCardId::TerraDragonGold => NftCardColor::OrangeGold,
        NftCardId::ThunderDragon => NftCardColor::Orange,
        NftCardId::ThunderDragonGold => NftCardColor::OrangeGold,
        NftCardId::TortoiseBro => NftCardColor::Blue,
        NftCardId::TortoiseBroGold => NftCardColor::BlueGold,
        NftCardId::Trumpet => NftCardColor::Blue,
        NftCardId::TrumpetGold => NftCardColor::BlueGold,
        NftCardId::Turner => NftCardColor::Blue,
        NftCardId::TurnerGold => NftCardColor::BlueGold,
        NftCardId::UFO => NftCardColor::Blue,
        NftCardId::UFOGold => NftCardColor::BlueGold,
        NftCardId::UncleElk => NftCardColor::Blue,
        NftCardId::UncleElkGold => NftCardColor::BlueGold,
        NftCardId::Watermelon => NftCardColor::Purple,
        NftCardId::WatermelonGold => NftCardColor::PurpleGold,
        NftCardId::WindDragon => NftCardColor::Blue,
        NftCardId::WindDragonGold => NftCardColor::BlueGold,
        NftCardId::WolfKing => NftCardColor::Orange,
        NftCardId::WolfKingGold => NftCardColor::OrangeGold,
        NftCardId::ZombieBaby => NftCardColor::White,
        NftCardId::ZombieBabyGold => NftCardColor::WhiteGold,
        NftCardId::ZombieBride => NftCardColor::Purple,
        NftCardId::ZombieBrideGold => NftCardColor::PurpleGold,
    }
}

} // verus!
