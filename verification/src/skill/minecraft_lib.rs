//! The kinds of entity that a configuration can describe.

use vstd::prelude::*;
use vstd::string::StringExecFns;
use crate::text::Render;

verus! {

/// The kind of a configuration entity: a mob type, or a meta-skill.
#[derive(Clone, Copy, Debug, PartialEq, Eq)]
pub enum MinecraftMob {
    MetaSkill,
    AcaciaBoat,
    AcaciaChestBoat,
    Allay,
    AreaEffectCloud,
    Armadillo,
    ArmorStand,
    Arrow,
    Axolotl,
    BambooChestRaft,
    BambooRaft,
    Bat,
    Bee,
    BirchBoat,
    BirchChestBoat,
    Blaze,
    BlockDisplay,
    Bogged,
    Breeze,
    BreezeWindCharge,
    Camel,
    Cat,
    CaveSpider,
    CherryBoat,
    CherryChestBoat,
    ChestMinecart,
    Chicken,
    Cod,
    CommandBlockMinecart,
    Cow,
    Creaking,
    Creeper,
    DarkOakBoat,
    DarkOakChestBoat,
    Dolphin,
    Donkey,
    DragonFireball,
    Drowned,
    Egg,
    ElderGuardian,
    EndCrystal,
    EnderDragon,
    EnderPearl,
    Enderman,
    Endermite,
    Evoker,
    EvokerFangs,
    ExperienceBottle,
    ExperienceOrb,
    EyeOfEnder,
    FallingBlock,
    Fireball,
    FireworkRocket,
    FishingBobber,
    Fox,
    Frog,
    FurnaceMinecart,
    Ghast,
    Giant,
    GlowItemFrame,
    GlowSquid,
    Goat,
    Guardian,
    HappyGhast,
    Hoglin,
    HopperMinecart,
    Horse,
    Husk,
    Illusioner,
    Interaction,
    IronGolem,
    Item,
    ItemDisplay,
    ItemFrame,
    JungleBoat,
    JungleChestBoat,
    LeashKnot,
    LightningBolt,
    LingeringPotion,
    Llama,
    LlamaSpit,
    MagmaCube,
    MangroveBoat,
    MangroveChestBoat,
    Marker,
    Minecart,
    Mooshroom,
    Mule,
    OakBoat,
    OakChestBoat,
    Ocelot,
    OminousItemSpawner,
    Painting,
    PaleOakBoat,
    PaleOakChestBoat,
    Panda,
    Parrot,
    Phantom,
    Pig,
    Piglin,
    PiglinBrute,
    Pillager,
    Player,
    PolarBear,
    Pufferfish,
    Rabbit,
    Ravager,
    Salmon,
    Sheep,
    Shulker,
    ShulkerBullet,
    Silverfish,
    Skeleton,
    SkeletonHorse,
    Slime,
    SmallFireball,
    Sniffer,
    SnowGolem,
    Snowball,
    SpawnerMinecart,
    SpectralArrow,
    Spider,
    SplashPotion,
    SpruceBoat,
    SpruceChestBoat,
    Squid,
    Stray,
    Strider,
    Tadpole,
    TextDisplay,
    Tnt,
    TntMinecart,
    TraderLlama,
    Trident,
    TropicalFish,
    Turtle,
    Unknown,
    Vex,
    Villager,
    Vindicator,
    WanderingTrader,
    Warden,
    WindCharge,
    Witch,
    Wither,
    WitherSkeleton,
    WitherSkull,
    Wolf,
    Zoglin,
    Zombie,
    ZombieHorse,
    ZombieVillager,
    ZombifiedPiglin,
}

impl MinecraftMob {
    /// The number of variants.
    pub open spec fn count() -> int {
        153
    }

    /// The variant at place `i` of the catalogue.
    pub open spec fn at(i: int) -> MinecraftMob {
        if i == 0 {
            MinecraftMob::MetaSkill
        } else if i == 1 {
            MinecraftMob::AcaciaBoat
        } else if i == 2 {
            MinecraftMob::AcaciaChestBoat
        } else if i == 3 {
            MinecraftMob::Allay
        } else if i == 4 {
            MinecraftMob::AreaEffectCloud
        } else if i == 5 {
            MinecraftMob::Armadillo
        } else if i == 6 {
            MinecraftMob::ArmorStand
        } else if i == 7 {
            MinecraftMob::Arrow
        } else if i == 8 {
            MinecraftMob::Axolotl
        } else if i == 9 {
            MinecraftMob::BambooChestRaft
        } else if i == 10 {
            MinecraftMob::BambooRaft
        } else if i == 11 {
            MinecraftMob::Bat
        } else if i == 12 {
            MinecraftMob::Bee
        } else if i == 13 {
            MinecraftMob::BirchBoat
        } else if i == 14 {
            MinecraftMob::BirchChestBoat
        } else if i == 15 {
            MinecraftMob::Blaze
        } else if i == 16 {
            MinecraftMob::BlockDisplay
        } else if i == 17 {
            MinecraftMob::Bogged
        } else if i == 18 {
            MinecraftMob::Breeze
        } else if i == 19 {
            MinecraftMob::BreezeWindCharge
        } else if i == 20 {
            MinecraftMob::Camel
        } else if i == 21 {
            MinecraftMob::Cat
        } else if i == 22 {
            MinecraftMob::CaveSpider
        } else if i == 23 {
            MinecraftMob::CherryBoat
        } else if i == 24 {
            MinecraftMob::CherryChestBoat
        } else if i == 25 {
            MinecraftMob::ChestMinecart
        } else if i == 26 {
            MinecraftMob::Chicken
        } else if i == 27 {
            MinecraftMob::Cod
        } else if i == 28 {
            MinecraftMob::CommandBlockMinecart
        } else if i == 29 {
            MinecraftMob::Cow
        } else if i == 30 {
            MinecraftMob::Creaking
        } else if i == 31 {
            MinecraftMob::Creeper
        } else if i == 32 {
            MinecraftMob::DarkOakBoat
        } else if i == 33 {
            MinecraftMob::DarkOakChestBoat
        } else if i == 34 {
            MinecraftMob::Dolphin
        } else if i == 35 {
            MinecraftMob::Donkey
        } else if i == 36 {
            MinecraftMob::DragonFireball
        } else if i == 37 {
            MinecraftMob::Drowned
        } else if i == 38 {
            MinecraftMob::Egg
        } else if i == 39 {
            MinecraftMob::ElderGuardian
        } else if i == 40 {
            MinecraftMob::EndCrystal
        } else if i == 41 {
            MinecraftMob::EnderDragon
        } else if i == 42 {
            MinecraftMob::EnderPearl
        } else if i == 43 {
            MinecraftMob::Enderman
        } else if i == 44 {
            MinecraftMob::Endermite
        } else if i == 45 {
            MinecraftMob::Evoker
        } else if i == 46 {
            MinecraftMob::EvokerFangs
        } else if i == 47 {
            MinecraftMob::ExperienceBottle
        } else if i == 48 {
            MinecraftMob::ExperienceOrb
        } else if i == 49 {
            MinecraftMob::EyeOfEnder
        } else if i == 50 {
            MinecraftMob::FallingBlock
        } else if i == 51 {
            MinecraftMob::Fireball
        } else if i == 52 {
            MinecraftMob::FireworkRocket
        } else if i == 53 {
            MinecraftMob::FishingBobber
        } else if i == 54 {
            MinecraftMob::Fox
        } else if i == 55 {
            MinecraftMob::Frog
        } else if i == 56 {
            MinecraftMob::FurnaceMinecart
        } else if i == 57 {
            MinecraftMob::Ghast
        } else if i == 58 {
            MinecraftMob::Giant
        } else if i == 59 {
            MinecraftMob::GlowItemFrame
        } else if i == 60 {
            MinecraftMob::GlowSquid
        } else if i == 61 {
            MinecraftMob::Goat
        } else if i == 62 {
            MinecraftMob::Guardian
        } else if i == 63 {
            MinecraftMob::HappyGhast
        } else if i == 64 {
            MinecraftMob::Hoglin
        } else if i == 65 {
            MinecraftMob::HopperMinecart
        } else if i == 66 {
            MinecraftMob::Horse
        } else if i == 67 {
            MinecraftMob::Husk
        } else if i == 68 {
            MinecraftMob::Illusioner
        } else if i == 69 {
            MinecraftMob::Interaction
        } else if i == 70 {
            MinecraftMob::IronGolem
        } else if i == 71 {
            MinecraftMob::Item
        } else if i == 72 {
            MinecraftMob::ItemDisplay
        } else if i == 73 {
            MinecraftMob::ItemFrame
        } else if i == 74 {
            MinecraftMob::JungleBoat
        } else if i == 75 {
            MinecraftMob::JungleChestBoat
        } else if i == 76 {
            MinecraftMob::LeashKnot
        } else if i == 77 {
            MinecraftMob::LightningBolt
        } else if i == 78 {
            MinecraftMob::LingeringPotion
        } else if i == 79 {
            MinecraftMob::Llama
        } else if i == 80 {
            MinecraftMob::LlamaSpit
        } else if i == 81 {
            MinecraftMob::MagmaCube
        } else if i == 82 {
            MinecraftMob::MangroveBoat
        } else if i == 83 {
            MinecraftMob::MangroveChestBoat
        } else if i == 84 {
            MinecraftMob::Marker
        } else if i == 85 {
            MinecraftMob::Minecart
        } else if i == 86 {
            MinecraftMob::Mooshroom
        } else if i == 87 {
            MinecraftMob::Mule
        } else if i == 88 {
            MinecraftMob::OakBoat
        } else if i == 89 {
            MinecraftMob::OakChestBoat
        } else if i == 90 {
            MinecraftMob::Ocelot
        } else if i == 91 {
            MinecraftMob::OminousItemSpawner
        } else if i == 92 {
            MinecraftMob::Painting
        } else if i == 93 {
            MinecraftMob::PaleOakBoat
        } else if i == 94 {
            MinecraftMob::PaleOakChestBoat
        } else if i == 95 {
            MinecraftMob::Panda
        } else if i == 96 {
            MinecraftMob::Parrot
        } else if i == 97 {
            MinecraftMob::Phantom
        } else if i == 98 {
            MinecraftMob::Pig
        } else if i == 99 {
            MinecraftMob::Piglin
        } else if i == 100 {
            MinecraftMob::PiglinBrute
        } else if i == 101 {
            MinecraftMob::Pillager
        } else if i == 102 {
            MinecraftMob::Player
        } else if i == 103 {
            MinecraftMob::PolarBear
        } else if i == 104 {
            MinecraftMob::Pufferfish
        } else if i == 105 {
            MinecraftMob::Rabbit
        } else if i == 106 {
            MinecraftMob::Ravager
        } else if i == 107 {
            MinecraftMob::Salmon
        } else if i == 108 {
            MinecraftMob::Sheep
        } else if i == 109 {
            MinecraftMob::Shulker
        } else if i == 110 {
            MinecraftMob::ShulkerBullet
        } else if i == 111 {
            MinecraftMob::Silverfish
        } else if i == 112 {
            MinecraftMob::Skeleton
        } else if i == 113 {
            MinecraftMob::SkeletonHorse
        } else if i == 114 {
            MinecraftMob::Slime
        } else if i == 115 {
            MinecraftMob::SmallFireball
        } else if i == 116 {
            MinecraftMob::Sniffer
        } else if i == 117 {
            MinecraftMob::SnowGolem
        } else if i == 118 {
            MinecraftMob::Snowball
        } else if i == 119 {
            MinecraftMob::SpawnerMinecart
        } else if i == 120 {
            MinecraftMob::SpectralArrow
        } else if i == 121 {
            MinecraftMob::Spider
        } else if i == 122 {
            MinecraftMob::SplashPotion
        } else if i == 123 {
            MinecraftMob::SpruceBoat
        } else if i == 124 {
            MinecraftMob::SpruceChestBoat
        } else if i == 125 {
            MinecraftMob::Squid
        } else if i == 126 {
            MinecraftMob::Stray
        } else if i == 127 {
            MinecraftMob::Strider
        } else if i == 128 {
            MinecraftMob::Tadpole
        } else if i == 129 {
            MinecraftMob::TextDisplay
        } else if i == 130 {
            MinecraftMob::Tnt
        } else if i == 131 {
            MinecraftMob::TntMinecart
        } else if i == 132 {
            MinecraftMob::TraderLlama
        } else if i == 133 {
            MinecraftMob::Trident
        } else if i == 134 {
            MinecraftMob::TropicalFish
        } else if i == 135 {
            MinecraftMob::Turtle
        } else if i == 136 {
            MinecraftMob::Unknown
        } else if i == 137 {
            MinecraftMob::Vex
        } else if i == 138 {
            MinecraftMob::Villager
        } else if i == 139 {
            MinecraftMob::Vindicator
        } else if i == 140 {
            MinecraftMob::WanderingTrader
        } else if i == 141 {
            MinecraftMob::Warden
        } else if i == 142 {
            MinecraftMob::WindCharge
        } else if i == 143 {
            MinecraftMob::Witch
        } else if i == 144 {
            MinecraftMob::Wither
        } else if i == 145 {
            MinecraftMob::WitherSkeleton
        } else if i == 146 {
            MinecraftMob::WitherSkull
        } else if i == 147 {
            MinecraftMob::Wolf
        } else if i == 148 {
            MinecraftMob::Zoglin
        } else if i == 149 {
            MinecraftMob::Zombie
        } else if i == 150 {
            MinecraftMob::ZombieHorse
        } else if i == 151 {
            MinecraftMob::ZombieVillager
        } else {
            MinecraftMob::ZombifiedPiglin
        }
    }

    /// The place of the variant in the catalogue.
    pub open spec fn ordinal(self) -> int {
        match self {
            MinecraftMob::MetaSkill => 0,
            MinecraftMob::AcaciaBoat => 1,
            MinecraftMob::AcaciaChestBoat => 2,
            MinecraftMob::Allay => 3,
            MinecraftMob::AreaEffectCloud => 4,
            MinecraftMob::Armadillo => 5,
            MinecraftMob::ArmorStand => 6,
            MinecraftMob::Arrow => 7,
            MinecraftMob::Axolotl => 8,
            MinecraftMob::BambooChestRaft => 9,
            MinecraftMob::BambooRaft => 10,
            MinecraftMob::Bat => 11,
            MinecraftMob::Bee => 12,
            MinecraftMob::BirchBoat => 13,
            MinecraftMob::BirchChestBoat => 14,
            MinecraftMob::Blaze => 15,
            MinecraftMob::BlockDisplay => 16,
            MinecraftMob::Bogged => 17,
            MinecraftMob::Breeze => 18,
            MinecraftMob::BreezeWindCharge => 19,
            MinecraftMob::Camel => 20,
            MinecraftMob::Cat => 21,
            MinecraftMob::CaveSpider => 22,
            MinecraftMob::CherryBoat => 23,
            MinecraftMob::CherryChestBoat => 24,
            MinecraftMob::ChestMinecart => 25,
            MinecraftMob::Chicken => 26,
            MinecraftMob::Cod => 27,
            MinecraftMob::CommandBlockMinecart => 28,
            MinecraftMob::Cow => 29,
            MinecraftMob::Creaking => 30,
            MinecraftMob::Creeper => 31,
            MinecraftMob::DarkOakBoat => 32,
            MinecraftMob::DarkOakChestBoat => 33,
            MinecraftMob::Dolphin => 34,
            MinecraftMob::Donkey => 35,
            MinecraftMob::DragonFireball => 36,
            MinecraftMob::Drowned => 37,
            MinecraftMob::Egg => 38,
            MinecraftMob::ElderGuardian => 39,
            MinecraftMob::EndCrystal => 40,
            MinecraftMob::EnderDragon => 41,
            MinecraftMob::EnderPearl => 42,
            MinecraftMob::Enderman => 43,
            MinecraftMob::Endermite => 44,
            MinecraftMob::Evoker => 45,
            MinecraftMob::EvokerFangs => 46,
            MinecraftMob::ExperienceBottle => 47,
            MinecraftMob::ExperienceOrb => 48,
            MinecraftMob::EyeOfEnder => 49,
            MinecraftMob::FallingBlock => 50,
            MinecraftMob::Fireball => 51,
            MinecraftMob::FireworkRocket => 52,
            MinecraftMob::FishingBobber => 53,
            MinecraftMob::Fox => 54,
            MinecraftMob::Frog => 55,
            MinecraftMob::FurnaceMinecart => 56,
            MinecraftMob::Ghast => 57,
            MinecraftMob::Giant => 58,
            MinecraftMob::GlowItemFrame => 59,
            MinecraftMob::GlowSquid => 60,
            MinecraftMob::Goat => 61,
            MinecraftMob::Guardian => 62,
            MinecraftMob::HappyGhast => 63,
            MinecraftMob::Hoglin => 64,
            MinecraftMob::HopperMinecart => 65,
            MinecraftMob::Horse => 66,
            MinecraftMob::Husk => 67,
            MinecraftMob::Illusioner => 68,
            MinecraftMob::Interaction => 69,
            MinecraftMob::IronGolem => 70,
            MinecraftMob::Item => 71,
            MinecraftMob::ItemDisplay => 72,
            MinecraftMob::ItemFrame => 73,
            MinecraftMob::JungleBoat => 74,
            MinecraftMob::JungleChestBoat => 75,
            MinecraftMob::LeashKnot => 76,
            MinecraftMob::LightningBolt => 77,
            MinecraftMob::LingeringPotion => 78,
            MinecraftMob::Llama => 79,
            MinecraftMob::LlamaSpit => 80,
            MinecraftMob::MagmaCube => 81,
            MinecraftMob::MangroveBoat => 82,
            MinecraftMob::MangroveChestBoat => 83,
            MinecraftMob::Marker => 84,
            MinecraftMob::Minecart => 85,
            MinecraftMob::Mooshroom => 86,
            MinecraftMob::Mule => 87,
            MinecraftMob::OakBoat => 88,
            MinecraftMob::OakChestBoat => 89,
            MinecraftMob::Ocelot => 90,
            MinecraftMob::OminousItemSpawner => 91,
            MinecraftMob::Painting => 92,
            MinecraftMob::PaleOakBoat => 93,
            MinecraftMob::PaleOakChestBoat => 94,
            MinecraftMob::Panda => 95,
            MinecraftMob::Parrot => 96,
            MinecraftMob::Phantom => 97,
            MinecraftMob::Pig => 98,
            MinecraftMob::Piglin => 99,
            MinecraftMob::PiglinBrute => 100,
            MinecraftMob::Pillager => 101,
            MinecraftMob::Player => 102,
            MinecraftMob::PolarBear => 103,
            MinecraftMob::Pufferfish => 104,
            MinecraftMob::Rabbit => 105,
            MinecraftMob::Ravager => 106,
            MinecraftMob::Salmon => 107,
            MinecraftMob::Sheep => 108,
            MinecraftMob::Shulker => 109,
            MinecraftMob::ShulkerBullet => 110,
            MinecraftMob::Silverfish => 111,
            MinecraftMob::Skeleton => 112,
            MinecraftMob::SkeletonHorse => 113,
            MinecraftMob::Slime => 114,
            MinecraftMob::SmallFireball => 115,
            MinecraftMob::Sniffer => 116,
            MinecraftMob::SnowGolem => 117,
            MinecraftMob::Snowball => 118,
            MinecraftMob::SpawnerMinecart => 119,
            MinecraftMob::SpectralArrow => 120,
            MinecraftMob::Spider => 121,
            MinecraftMob::SplashPotion => 122,
            MinecraftMob::SpruceBoat => 123,
            MinecraftMob::SpruceChestBoat => 124,
            MinecraftMob::Squid => 125,
            MinecraftMob::Stray => 126,
            MinecraftMob::Strider => 127,
            MinecraftMob::Tadpole => 128,
            MinecraftMob::TextDisplay => 129,
            MinecraftMob::Tnt => 130,
            MinecraftMob::TntMinecart => 131,
            MinecraftMob::TraderLlama => 132,
            MinecraftMob::Trident => 133,
            MinecraftMob::TropicalFish => 134,
            MinecraftMob::Turtle => 135,
            MinecraftMob::Unknown => 136,
            MinecraftMob::Vex => 137,
            MinecraftMob::Villager => 138,
            MinecraftMob::Vindicator => 139,
            MinecraftMob::WanderingTrader => 140,
            MinecraftMob::Warden => 141,
            MinecraftMob::WindCharge => 142,
            MinecraftMob::Witch => 143,
            MinecraftMob::Wither => 144,
            MinecraftMob::WitherSkeleton => 145,
            MinecraftMob::WitherSkull => 146,
            MinecraftMob::Wolf => 147,
            MinecraftMob::Zoglin => 148,
            MinecraftMob::Zombie => 149,
            MinecraftMob::ZombieHorse => 150,
            MinecraftMob::ZombieVillager => 151,
            MinecraftMob::ZombifiedPiglin => 152,
        }
    }

    /// Every variant, in catalogue order.
    pub open spec fn all() -> Seq<MinecraftMob> {
        Seq::new(MinecraftMob::count() as nat, |i: int| MinecraftMob::at(i))
    }

    /// Every variant has one place in the catalogue.
    pub proof fn lemma_ordinal(v: MinecraftMob)
        ensures
            0 <= v.ordinal() < MinecraftMob::count(),
            MinecraftMob::at(v.ordinal()) == v,
            MinecraftMob::all()[v.ordinal()] == v,
    {
    }

    /// Every place of the catalogue holds another variant.
    pub proof fn lemma_at(i: int)
        requires
            0 <= i < MinecraftMob::count(),
        ensures
            MinecraftMob::at(i).ordinal() == i,
    {
    }

    /// Returns the variant at place `i` of the catalogue.
    pub fn from_ordinal(i: usize) -> (v: MinecraftMob)
        requires
            i < MinecraftMob::count(),
        ensures
            v == MinecraftMob::at(i as int),
    {
        match i {
            0 => MinecraftMob::MetaSkill,
            1 => MinecraftMob::AcaciaBoat,
            2 => MinecraftMob::AcaciaChestBoat,
            3 => MinecraftMob::Allay,
            4 => MinecraftMob::AreaEffectCloud,
            5 => MinecraftMob::Armadillo,
            6 => MinecraftMob::ArmorStand,
            7 => MinecraftMob::Arrow,
            8 => MinecraftMob::Axolotl,
            9 => MinecraftMob::BambooChestRaft,
            10 => MinecraftMob::BambooRaft,
            11 => MinecraftMob::Bat,
            12 => MinecraftMob::Bee,
            13 => MinecraftMob::BirchBoat,
            14 => MinecraftMob::BirchChestBoat,
            15 => MinecraftMob::Blaze,
            16 => MinecraftMob::BlockDisplay,
            17 => MinecraftMob::Bogged,
            18 => MinecraftMob::Breeze,
            19 => MinecraftMob::BreezeWindCharge,
            20 => MinecraftMob::Camel,
            21 => MinecraftMob::Cat,
            22 => MinecraftMob::CaveSpider,
            23 => MinecraftMob::CherryBoat,
            24 => MinecraftMob::CherryChestBoat,
            25 => MinecraftMob::ChestMinecart,
            26 => MinecraftMob::Chicken,
            27 => MinecraftMob::Cod,
            28 => MinecraftMob::CommandBlockMinecart,
            29 => MinecraftMob::Cow,
            30 => MinecraftMob::Creaking,
            31 => MinecraftMob::Creeper,
            32 => MinecraftMob::DarkOakBoat,
            33 => MinecraftMob::DarkOakChestBoat,
            34 => MinecraftMob::Dolphin,
            35 => MinecraftMob::Donkey,
            36 => MinecraftMob::DragonFireball,
            37 => MinecraftMob::Drowned,
            38 => MinecraftMob::Egg,
            39 => MinecraftMob::ElderGuardian,
            40 => MinecraftMob::EndCrystal,
            41 => MinecraftMob::EnderDragon,
            42 => MinecraftMob::EnderPearl,
            43 => MinecraftMob::Enderman,
            44 => MinecraftMob::Endermite,
            45 => MinecraftMob::Evoker,
            46 => MinecraftMob::EvokerFangs,
            47 => MinecraftMob::ExperienceBottle,
            48 => MinecraftMob::ExperienceOrb,
            49 => MinecraftMob::EyeOfEnder,
            50 => MinecraftMob::FallingBlock,
            51 => MinecraftMob::Fireball,
            52 => MinecraftMob::FireworkRocket,
            53 => MinecraftMob::FishingBobber,
            54 => MinecraftMob::Fox,
            55 => MinecraftMob::Frog,
            56 => MinecraftMob::FurnaceMinecart,
            57 => MinecraftMob::Ghast,
            58 => MinecraftMob::Giant,
            59 => MinecraftMob::GlowItemFrame,
            60 => MinecraftMob::GlowSquid,
            61 => MinecraftMob::Goat,
            62 => MinecraftMob::Guardian,
            63 => MinecraftMob::HappyGhast,
            64 => MinecraftMob::Hoglin,
            65 => MinecraftMob::HopperMinecart,
            66 => MinecraftMob::Horse,
            67 => MinecraftMob::Husk,
            68 => MinecraftMob::Illusioner,
            69 => MinecraftMob::Interaction,
            70 => MinecraftMob::IronGolem,
            71 => MinecraftMob::Item,
            72 => MinecraftMob::ItemDisplay,
            73 => MinecraftMob::ItemFrame,
            74 => MinecraftMob::JungleBoat,
            75 => MinecraftMob::JungleChestBoat,
            76 => MinecraftMob::LeashKnot,
            77 => MinecraftMob::LightningBolt,
            78 => MinecraftMob::LingeringPotion,
            79 => MinecraftMob::Llama,
            80 => MinecraftMob::LlamaSpit,
            81 => MinecraftMob::MagmaCube,
            82 => MinecraftMob::MangroveBoat,
            83 => MinecraftMob::MangroveChestBoat,
            84 => MinecraftMob::Marker,
            85 => MinecraftMob::Minecart,
            86 => MinecraftMob::Mooshroom,
            87 => MinecraftMob::Mule,
            88 => MinecraftMob::OakBoat,
            89 => MinecraftMob::OakChestBoat,
            90 => MinecraftMob::Ocelot,
            91 => MinecraftMob::OminousItemSpawner,
            92 => MinecraftMob::Painting,
            93 => MinecraftMob::PaleOakBoat,
            94 => MinecraftMob::PaleOakChestBoat,
            95 => MinecraftMob::Panda,
            96 => MinecraftMob::Parrot,
            97 => MinecraftMob::Phantom,
            98 => MinecraftMob::Pig,
            99 => MinecraftMob::Piglin,
            100 => MinecraftMob::PiglinBrute,
            101 => MinecraftMob::Pillager,
            102 => MinecraftMob::Player,
            103 => MinecraftMob::PolarBear,
            104 => MinecraftMob::Pufferfish,
            105 => MinecraftMob::Rabbit,
            106 => MinecraftMob::Ravager,
            107 => MinecraftMob::Salmon,
            108 => MinecraftMob::Sheep,
            109 => MinecraftMob::Shulker,
            110 => MinecraftMob::ShulkerBullet,
            111 => MinecraftMob::Silverfish,
            112 => MinecraftMob::Skeleton,
            113 => MinecraftMob::SkeletonHorse,
            114 => MinecraftMob::Slime,
            115 => MinecraftMob::SmallFireball,
            116 => MinecraftMob::Sniffer,
            117 => MinecraftMob::SnowGolem,
            118 => MinecraftMob::Snowball,
            119 => MinecraftMob::SpawnerMinecart,
            120 => MinecraftMob::SpectralArrow,
            121 => MinecraftMob::Spider,
            122 => MinecraftMob::SplashPotion,
            123 => MinecraftMob::SpruceBoat,
            124 => MinecraftMob::SpruceChestBoat,
            125 => MinecraftMob::Squid,
            126 => MinecraftMob::Stray,
            127 => MinecraftMob::Strider,
            128 => MinecraftMob::Tadpole,
            129 => MinecraftMob::TextDisplay,
            130 => MinecraftMob::Tnt,
            131 => MinecraftMob::TntMinecart,
            132 => MinecraftMob::TraderLlama,
            133 => MinecraftMob::Trident,
            134 => MinecraftMob::TropicalFish,
            135 => MinecraftMob::Turtle,
            136 => MinecraftMob::Unknown,
            137 => MinecraftMob::Vex,
            138 => MinecraftMob::Villager,
            139 => MinecraftMob::Vindicator,
            140 => MinecraftMob::WanderingTrader,
            141 => MinecraftMob::Warden,
            142 => MinecraftMob::WindCharge,
            143 => MinecraftMob::Witch,
            144 => MinecraftMob::Wither,
            145 => MinecraftMob::WitherSkeleton,
            146 => MinecraftMob::WitherSkull,
            147 => MinecraftMob::Wolf,
            148 => MinecraftMob::Zoglin,
            149 => MinecraftMob::Zombie,
            150 => MinecraftMob::ZombieHorse,
            151 => MinecraftMob::ZombieVillager,
            _ => MinecraftMob::ZombifiedPiglin,
        }
    }

    /// Lists every variant, in catalogue order.
    pub fn variants() -> (all: Vec<MinecraftMob>)
        ensures
            all@ == MinecraftMob::all(),
    {
        let mut all: Vec<MinecraftMob> = Vec::new();
        let mut i: usize = 0;
        while i < 153
            invariant
                i <= MinecraftMob::count(),
                all@.len() == i,
                forall|j: int| 0 <= j < i ==> all@[j] == MinecraftMob::at(j),
            decreases MinecraftMob::count() - i,
        {
            all.push(MinecraftMob::from_ordinal(i));
            i = i + 1;
        }
        assert(all@ =~= MinecraftMob::all());
        all
    }
}

impl Render for MinecraftMob {
    open spec fn text(&self) -> Seq<char> {
        match self {
            MinecraftMob::MetaSkill => "MetaSkill"@,
            MinecraftMob::AcaciaBoat => "AcaciaBoat"@,
            MinecraftMob::AcaciaChestBoat => "AcaciaChestBoat"@,
            MinecraftMob::Allay => "Allay"@,
            MinecraftMob::AreaEffectCloud => "AreaEffectCloud"@,
            MinecraftMob::Armadillo => "Armadillo"@,
            MinecraftMob::ArmorStand => "ArmorStand"@,
            MinecraftMob::Arrow => "Arrow"@,
            MinecraftMob::Axolotl => "Axolotl"@,
            MinecraftMob::BambooChestRaft => "BambooChestRaft"@,
            MinecraftMob::BambooRaft => "BambooRaft"@,
            MinecraftMob::Bat => "Bat"@,
            MinecraftMob::Bee => "Bee"@,
            MinecraftMob::BirchBoat => "BirchBoat"@,
            MinecraftMob::BirchChestBoat => "BirchChestBoat"@,
            MinecraftMob::Blaze => "Blaze"@,
            MinecraftMob::BlockDisplay => "BlockDisplay"@,
            MinecraftMob::Bogged => "Bogged"@,
            MinecraftMob::Breeze => "Breeze"@,
            MinecraftMob::BreezeWindCharge => "BreezeWindCharge"@,
            MinecraftMob::Camel => "Camel"@,
            MinecraftMob::Cat => "Cat"@,
            MinecraftMob::CaveSpider => "CaveSpider"@,
            MinecraftMob::CherryBoat => "CherryBoat"@,
            MinecraftMob::CherryChestBoat => "CherryChestBoat"@,
            MinecraftMob::ChestMinecart => "ChestMinecart"@,
            MinecraftMob::Chicken => "Chicken"@,
            MinecraftMob::Cod => "Cod"@,
            MinecraftMob::CommandBlockMinecart => "CommandBlockMinecart"@,
            MinecraftMob::Cow => "Cow"@,
            MinecraftMob::Creaking => "Creaking"@,
            MinecraftMob::Creeper => "Creeper"@,
            MinecraftMob::DarkOakBoat => "DarkOakBoat"@,
            MinecraftMob::DarkOakChestBoat => "DarkOakChestBoat"@,
            MinecraftMob::Dolphin => "Dolphin"@,
            MinecraftMob::Donkey => "Donkey"@,
            MinecraftMob::DragonFireball => "DragonFireball"@,
            MinecraftMob::Drowned => "Drowned"@,
            MinecraftMob::Egg => "Egg"@,
            MinecraftMob::ElderGuardian => "ElderGuardian"@,
            MinecraftMob::EndCrystal => "EndCrystal"@,
            MinecraftMob::EnderDragon => "EnderDragon"@,
            MinecraftMob::EnderPearl => "EnderPearl"@,
            MinecraftMob::Enderman => "Enderman"@,
            MinecraftMob::Endermite => "Endermite"@,
            MinecraftMob::Evoker => "Evoker"@,
            MinecraftMob::EvokerFangs => "EvokerFangs"@,
            MinecraftMob::ExperienceBottle => "ExperienceBottle"@,
            MinecraftMob::ExperienceOrb => "ExperienceOrb"@,
            MinecraftMob::EyeOfEnder => "EyeOfEnder"@,
            MinecraftMob::FallingBlock => "FallingBlock"@,
            MinecraftMob::Fireball => "Fireball"@,
            MinecraftMob::FireworkRocket => "FireworkRocket"@,
            MinecraftMob::FishingBobber => "FishingBobber"@,
            MinecraftMob::Fox => "Fox"@,
            MinecraftMob::Frog => "Frog"@,
            MinecraftMob::FurnaceMinecart => "FurnaceMinecart"@,
            MinecraftMob::Ghast => "Ghast"@,
            MinecraftMob::Giant => "Giant"@,
            MinecraftMob::GlowItemFrame => "GlowItemFrame"@,
            MinecraftMob::GlowSquid => "GlowSquid"@,
            MinecraftMob::Goat => "Goat"@,
            MinecraftMob::Guardian => "Guardian"@,
            MinecraftMob::HappyGhast => "HappyGhast"@,
            MinecraftMob::Hoglin => "Hoglin"@,
            MinecraftMob::HopperMinecart => "HopperMinecart"@,
            MinecraftMob::Horse => "Horse"@,
            MinecraftMob::Husk => "Husk"@,
            MinecraftMob::Illusioner => "Illusioner"@,
            MinecraftMob::Interaction => "Interaction"@,
            MinecraftMob::IronGolem => "IronGolem"@,
            MinecraftMob::Item => "Item"@,
            MinecraftMob::ItemDisplay => "ItemDisplay"@,
            MinecraftMob::ItemFrame => "ItemFrame"@,
            MinecraftMob::JungleBoat => "JungleBoat"@,
            MinecraftMob::JungleChestBoat => "JungleChestBoat"@,
            MinecraftMob::LeashKnot => "LeashKnot"@,
            MinecraftMob::LightningBolt => "LightningBolt"@,
            MinecraftMob::LingeringPotion => "LingeringPotion"@,
            MinecraftMob::Llama => "Llama"@,
            MinecraftMob::LlamaSpit => "LlamaSpit"@,
            MinecraftMob::MagmaCube => "MagmaCube"@,
            MinecraftMob::MangroveBoat => "MangroveBoat"@,
            MinecraftMob::MangroveChestBoat => "MangroveChestBoat"@,
            MinecraftMob::Marker => "Marker"@,
            MinecraftMob::Minecart => "Minecart"@,
            MinecraftMob::Mooshroom => "Mooshroom"@,
            MinecraftMob::Mule => "Mule"@,
            MinecraftMob::OakBoat => "OakBoat"@,
            MinecraftMob::OakChestBoat => "OakChestBoat"@,
            MinecraftMob::Ocelot => "Ocelot"@,
            MinecraftMob::OminousItemSpawner => "OminousItemSpawner"@,
            MinecraftMob::Painting => "Painting"@,
            MinecraftMob::PaleOakBoat => "PaleOakBoat"@,
            MinecraftMob::PaleOakChestBoat => "PaleOakChestBoat"@,
            MinecraftMob::Panda => "Panda"@,
            MinecraftMob::Parrot => "Parrot"@,
            MinecraftMob::Phantom => "Phantom"@,
            MinecraftMob::Pig => "Pig"@,
            MinecraftMob::Piglin => "Piglin"@,
            MinecraftMob::PiglinBrute => "PiglinBrute"@,
            MinecraftMob::Pillager => "Pillager"@,
            MinecraftMob::Player => "Player"@,
            MinecraftMob::PolarBear => "PolarBear"@,
            MinecraftMob::Pufferfish => "Pufferfish"@,
            MinecraftMob::Rabbit => "Rabbit"@,
            MinecraftMob::Ravager => "Ravager"@,
            MinecraftMob::Salmon => "Salmon"@,
            MinecraftMob::Sheep => "Sheep"@,
            MinecraftMob::Shulker => "Shulker"@,
            MinecraftMob::ShulkerBullet => "ShulkerBullet"@,
            MinecraftMob::Silverfish => "Silverfish"@,
            MinecraftMob::Skeleton => "Skeleton"@,
            MinecraftMob::SkeletonHorse => "SkeletonHorse"@,
            MinecraftMob::Slime => "Slime"@,
            MinecraftMob::SmallFireball => "SmallFireball"@,
            MinecraftMob::Sniffer => "Sniffer"@,
            MinecraftMob::SnowGolem => "SnowGolem"@,
            MinecraftMob::Snowball => "Snowball"@,
            MinecraftMob::SpawnerMinecart => "SpawnerMinecart"@,
            MinecraftMob::SpectralArrow => "SpectralArrow"@,
            MinecraftMob::Spider => "Spider"@,
            MinecraftMob::SplashPotion => "SplashPotion"@,
            MinecraftMob::SpruceBoat => "SpruceBoat"@,
            MinecraftMob::SpruceChestBoat => "SpruceChestBoat"@,
            MinecraftMob::Squid => "Squid"@,
            MinecraftMob::Stray => "Stray"@,
            MinecraftMob::Strider => "Strider"@,
            MinecraftMob::Tadpole => "Tadpole"@,
            MinecraftMob::TextDisplay => "TextDisplay"@,
            MinecraftMob::Tnt => "Tnt"@,
            MinecraftMob::TntMinecart => "TntMinecart"@,
            MinecraftMob::TraderLlama => "TraderLlama"@,
            MinecraftMob::Trident => "Trident"@,
            MinecraftMob::TropicalFish => "TropicalFish"@,
            MinecraftMob::Turtle => "Turtle"@,
            MinecraftMob::Unknown => "Unknown"@,
            MinecraftMob::Vex => "Vex"@,
            MinecraftMob::Villager => "Villager"@,
            MinecraftMob::Vindicator => "Vindicator"@,
            MinecraftMob::WanderingTrader => "WanderingTrader"@,
            MinecraftMob::Warden => "Warden"@,
            MinecraftMob::WindCharge => "WindCharge"@,
            MinecraftMob::Witch => "Witch"@,
            MinecraftMob::Wither => "Wither"@,
            MinecraftMob::WitherSkeleton => "WitherSkeleton"@,
            MinecraftMob::WitherSkull => "WitherSkull"@,
            MinecraftMob::Wolf => "Wolf"@,
            MinecraftMob::Zoglin => "Zoglin"@,
            MinecraftMob::Zombie => "Zombie"@,
            MinecraftMob::ZombieHorse => "ZombieHorse"@,
            MinecraftMob::ZombieVillager => "ZombieVillager"@,
            MinecraftMob::ZombifiedPiglin => "ZombifiedPiglin"@,
        }
    }

    fn render(&self) -> (out: String) {
        match self {
            MinecraftMob::MetaSkill => String::from_str("MetaSkill"),
            MinecraftMob::AcaciaBoat => String::from_str("AcaciaBoat"),
            MinecraftMob::AcaciaChestBoat => String::from_str("AcaciaChestBoat"),
            MinecraftMob::Allay => String::from_str("Allay"),
            MinecraftMob::AreaEffectCloud => String::from_str("AreaEffectCloud"),
            MinecraftMob::Armadillo => String::from_str("Armadillo"),
            MinecraftMob::ArmorStand => String::from_str("ArmorStand"),
            MinecraftMob::Arrow => String::from_str("Arrow"),
            MinecraftMob::Axolotl => String::from_str("Axolotl"),
            MinecraftMob::BambooChestRaft => String::from_str("BambooChestRaft"),
            MinecraftMob::BambooRaft => String::from_str("BambooRaft"),
            MinecraftMob::Bat => String::from_str("Bat"),
            MinecraftMob::Bee => String::from_str("Bee"),
            MinecraftMob::BirchBoat => String::from_str("BirchBoat"),
            MinecraftMob::BirchChestBoat => String::from_str("BirchChestBoat"),
            MinecraftMob::Blaze => String::from_str("Blaze"),
            MinecraftMob::BlockDisplay => String::from_str("BlockDisplay"),
            MinecraftMob::Bogged => String::from_str("Bogged"),
            MinecraftMob::Breeze => String::from_str("Breeze"),
            MinecraftMob::BreezeWindCharge => String::from_str("BreezeWindCharge"),
            MinecraftMob::Camel => String::from_str("Camel"),
            MinecraftMob::Cat => String::from_str("Cat"),
            MinecraftMob::CaveSpider => String::from_str("CaveSpider"),
            MinecraftMob::CherryBoat => String::from_str("CherryBoat"),
            MinecraftMob::CherryChestBoat => String::from_str("CherryChestBoat"),
            MinecraftMob::ChestMinecart => String::from_str("ChestMinecart"),
            MinecraftMob::Chicken => String::from_str("Chicken"),
            MinecraftMob::Cod => String::from_str("Cod"),
            MinecraftMob::CommandBlockMinecart => String::from_str("CommandBlockMinecart"),
            MinecraftMob::Cow => String::from_str("Cow"),
            MinecraftMob::Creaking => String::from_str("Creaking"),
            MinecraftMob::Creeper => String::from_str("Creeper"),
            MinecraftMob::DarkOakBoat => String::from_str("DarkOakBoat"),
            MinecraftMob::DarkOakChestBoat => String::from_str("DarkOakChestBoat"),
            MinecraftMob::Dolphin => String::from_str("Dolphin"),
            MinecraftMob::Donkey => String::from_str("Donkey"),
            MinecraftMob::DragonFireball => String::from_str("DragonFireball"),
            MinecraftMob::Drowned => String::from_str("Drowned"),
            MinecraftMob::Egg => String::from_str("Egg"),
            MinecraftMob::ElderGuardian => String::from_str("ElderGuardian"),
            MinecraftMob::EndCrystal => String::from_str("EndCrystal"),
            MinecraftMob::EnderDragon => String::from_str("EnderDragon"),
            MinecraftMob::EnderPearl => String::from_str("EnderPearl"),
            MinecraftMob::Enderman => String::from_str("Enderman"),
            MinecraftMob::Endermite => String::from_str("Endermite"),
            MinecraftMob::Evoker => String::from_str("Evoker"),
            MinecraftMob::EvokerFangs => String::from_str("EvokerFangs"),
            MinecraftMob::ExperienceBottle => String::from_str("ExperienceBottle"),
            MinecraftMob::ExperienceOrb => String::from_str("ExperienceOrb"),
            MinecraftMob::EyeOfEnder => String::from_str("EyeOfEnder"),
            MinecraftMob::FallingBlock => String::from_str("FallingBlock"),
            MinecraftMob::Fireball => String::from_str("Fireball"),
            MinecraftMob::FireworkRocket => String::from_str("FireworkRocket"),
            MinecraftMob::FishingBobber => String::from_str("FishingBobber"),
            MinecraftMob::Fox => String::from_str("Fox"),
            MinecraftMob::Frog => String::from_str("Frog"),
            MinecraftMob::FurnaceMinecart => String::from_str("FurnaceMinecart"),
            MinecraftMob::Ghast => String::from_str("Ghast"),
            MinecraftMob::Giant => String::from_str("Giant"),
            MinecraftMob::GlowItemFrame => String::from_str("GlowItemFrame"),
            MinecraftMob::GlowSquid => String::from_str("GlowSquid"),
            MinecraftMob::Goat => String::from_str("Goat"),
            MinecraftMob::Guardian => String::from_str("Guardian"),
            MinecraftMob::HappyGhast => String::from_str("HappyGhast"),
            MinecraftMob::Hoglin => String::from_str("Hoglin"),
            MinecraftMob::HopperMinecart => String::from_str("HopperMinecart"),
            MinecraftMob::Horse => String::from_str("Horse"),
            MinecraftMob::Husk => String::from_str("Husk"),
            MinecraftMob::Illusioner => String::from_str("Illusioner"),
            MinecraftMob::Interaction => String::from_str("Interaction"),
            MinecraftMob::IronGolem => String::from_str("IronGolem"),
            MinecraftMob::Item => String::from_str("Item"),
            MinecraftMob::ItemDisplay => String::from_str("ItemDisplay"),
            MinecraftMob::ItemFrame => String::from_str("ItemFrame"),
            MinecraftMob::JungleBoat => String::from_str("JungleBoat"),
            MinecraftMob::JungleChestBoat => String::from_str("JungleChestBoat"),
            MinecraftMob::LeashKnot => String::from_str("LeashKnot"),
            MinecraftMob::LightningBolt => String::from_str("LightningBolt"),
            MinecraftMob::LingeringPotion => String::from_str("LingeringPotion"),
            MinecraftMob::Llama => String::from_str("Llama"),
            MinecraftMob::LlamaSpit => String::from_str("LlamaSpit"),
            MinecraftMob::MagmaCube => String::from_str("MagmaCube"),
            MinecraftMob::MangroveBoat => String::from_str("MangroveBoat"),
            MinecraftMob::MangroveChestBoat => String::from_str("MangroveChestBoat"),
            MinecraftMob::Marker => String::from_str("Marker"),
            MinecraftMob::Minecart => String::from_str("Minecart"),
            MinecraftMob::Mooshroom => String::from_str("Mooshroom"),
            MinecraftMob::Mule => String::from_str("Mule"),
            MinecraftMob::OakBoat => String::from_str("OakBoat"),
            MinecraftMob::OakChestBoat => String::from_str("OakChestBoat"),
            MinecraftMob::Ocelot => String::from_str("Ocelot"),
            MinecraftMob::OminousItemSpawner => String::from_str("OminousItemSpawner"),
            MinecraftMob::Painting => String::from_str("Painting"),
            MinecraftMob::PaleOakBoat => String::from_str("PaleOakBoat"),
            MinecraftMob::PaleOakChestBoat => String::from_str("PaleOakChestBoat"),
            MinecraftMob::Panda => String::from_str("Panda"),
            MinecraftMob::Parrot => String::from_str("Parrot"),
            MinecraftMob::Phantom => String::from_str("Phantom"),
            MinecraftMob::Pig => String::from_str("Pig"),
            MinecraftMob::Piglin => String::from_str("Piglin"),
            MinecraftMob::PiglinBrute => String::from_str("PiglinBrute"),
            MinecraftMob::Pillager => String::from_str("Pillager"),
            MinecraftMob::Player => String::from_str("Player"),
            MinecraftMob::PolarBear => String::from_str("PolarBear"),
            MinecraftMob::Pufferfish => String::from_str("Pufferfish"),
            MinecraftMob::Rabbit => String::from_str("Rabbit"),
            MinecraftMob::Ravager => String::from_str("Ravager"),
            MinecraftMob::Salmon => String::from_str("Salmon"),
            MinecraftMob::Sheep => String::from_str("Sheep"),
            MinecraftMob::Shulker => String::from_str("Shulker"),
            MinecraftMob::ShulkerBullet => String::from_str("ShulkerBullet"),
            MinecraftMob::Silverfish => String::from_str("Silverfish"),
            MinecraftMob::Skeleton => String::from_str("Skeleton"),
            MinecraftMob::SkeletonHorse => String::from_str("SkeletonHorse"),
            MinecraftMob::Slime => String::from_str("Slime"),
            MinecraftMob::SmallFireball => String::from_str("SmallFireball"),
            MinecraftMob::Sniffer => String::from_str("Sniffer"),
            MinecraftMob::SnowGolem => String::from_str("SnowGolem"),
            MinecraftMob::Snowball => String::from_str("Snowball"),
            MinecraftMob::SpawnerMinecart => String::from_str("SpawnerMinecart"),
            MinecraftMob::SpectralArrow => String::from_str("SpectralArrow"),
            MinecraftMob::Spider => String::from_str("Spider"),
            MinecraftMob::SplashPotion => String::from_str("SplashPotion"),
            MinecraftMob::SpruceBoat => String::from_str("SpruceBoat"),
            MinecraftMob::SpruceChestBoat => String::from_str("SpruceChestBoat"),
            MinecraftMob::Squid => String::from_str("Squid"),
            MinecraftMob::Stray => String::from_str("Stray"),
            MinecraftMob::Strider => String::from_str("Strider"),
            MinecraftMob::Tadpole => String::from_str("Tadpole"),
            MinecraftMob::TextDisplay => String::from_str("TextDisplay"),
            MinecraftMob::Tnt => String::from_str("Tnt"),
            MinecraftMob::TntMinecart => String::from_str("TntMinecart"),
            MinecraftMob::TraderLlama => String::from_str("TraderLlama"),
            MinecraftMob::Trident => String::from_str("Trident"),
            MinecraftMob::TropicalFish => String::from_str("TropicalFish"),
            MinecraftMob::Turtle => String::from_str("Turtle"),
            MinecraftMob::Unknown => String::from_str("Unknown"),
            MinecraftMob::Vex => String::from_str("Vex"),
            MinecraftMob::Villager => String::from_str("Villager"),
            MinecraftMob::Vindicator => String::from_str("Vindicator"),
            MinecraftMob::WanderingTrader => String::from_str("WanderingTrader"),
            MinecraftMob::Warden => String::from_str("Warden"),
            MinecraftMob::WindCharge => String::from_str("WindCharge"),
            MinecraftMob::Witch => String::from_str("Witch"),
            MinecraftMob::Wither => String::from_str("Wither"),
            MinecraftMob::WitherSkeleton => String::from_str("WitherSkeleton"),
            MinecraftMob::WitherSkull => String::from_str("WitherSkull"),
            MinecraftMob::Wolf => String::from_str("Wolf"),
            MinecraftMob::Zoglin => String::from_str("Zoglin"),
            MinecraftMob::Zombie => String::from_str("Zombie"),
            MinecraftMob::ZombieHorse => String::from_str("ZombieHorse"),
            MinecraftMob::ZombieVillager => String::from_str("ZombieVillager"),
            MinecraftMob::ZombifiedPiglin => String::from_str("ZombifiedPiglin"),
        }
    }
}

impl Default for MinecraftMob {
    fn default() -> (r: MinecraftMob)
        ensures
            r == MinecraftMob::Zombie,
    {
        MinecraftMob::Zombie
    }
}

} // verus!
