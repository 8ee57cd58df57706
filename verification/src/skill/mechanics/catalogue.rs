//! The catalogue in order: every mechanic once, with blank parameters.

use vstd::prelude::*;
use crate::decimal::Decimal;
use crate::skill::mechanics::Mechanic;
use crate::skill::model_engine::MechanicType;
use crate::skill::option::MythicOption;
use crate::skill::params::ActionMode;
use crate::skill::params::AddSetReset;
use crate::skill::params::ArmorStandPose;
use crate::skill::params::AuraMechanic;
use crate::skill::params::EquipmentItem;
use crate::skill::params::ItemArray;
use crate::skill::params::Percentage;
use crate::skill::params::RandomMessages;
use crate::skill::params::Shape;
use crate::skill::params::SoundCategory;
use crate::skill::params::SpawnerSelect;
use crate::skill::params::SpringType;
use crate::skill::params::Tags;
use crate::skill::params::ThunderLevel;
use crate::skill::params::TradeIngredient;
use crate::skill::params::VelocityMode;
use crate::skill::params::WeatherType;
use crate::skill::params::Xyz;

verus! {

impl Mechanic {
    /// The number of mechanics in the catalogue.
    pub open spec fn count() -> int {
        235
    }

    /// The place of the mechanic in the catalogue, whatever its parameters hold.
    pub open spec fn ordinal(self) -> int {
        match self {
            Mechanic::ActivateSpawner { .. } => 0,
            Mechanic::AddTrade { .. } => 1,
            Mechanic::AnimateArmorStand { .. } => 2,
            Mechanic::ArmAnimation => 3,
            Mechanic::ArrowVolley { .. } => 4,
            Mechanic::AuraRemove { .. } => 5,
            Mechanic::BlackScreen { .. } => 6,
            Mechanic::BlockDestabilize => 7,
            Mechanic::BlockMask { .. } => 8,
            Mechanic::BlockUnmask { .. } => 9,
            Mechanic::BlockPhysics => 10,
            Mechanic::BlockWave { .. } => 11,
            Mechanic::BloodyScreen { .. } => 12,
            Mechanic::BoneMeal { .. } => 13,
            Mechanic::BossBorder { .. } => 14,
            Mechanic::Bouncy { .. } => 15,
            Mechanic::BreakBlock { .. } => 16,
            Mechanic::BreakBlockAndGiveItem { .. } => 17,
            Mechanic::ClearExperience => 18,
            Mechanic::ClearExperienceLevels => 19,
            Mechanic::GiveExperienceLevels { .. } => 20,
            Mechanic::TakeExperienceLevels { .. } => 21,
            Mechanic::CloseInventory => 22,
            Mechanic::Command { .. } => 23,
            Mechanic::Consume { .. } => 24,
            Mechanic::ConsumeSlot { .. } => 25,
            Mechanic::DirectionalVelocity { .. } => 26,
            Mechanic::Disengage { .. } => 27,
            Mechanic::Disguise { .. } => 28,
            Mechanic::DisguiseModify { .. } => 29,
            Mechanic::DisguiseTarget { .. } => 30,
            Mechanic::Undisguise => 31,
            Mechanic::Dismount => 32,
            Mechanic::DisplayTransformation { .. } => 33,
            Mechanic::ClearThreat => 34,
            Mechanic::CurrencyGive { .. } => 35,
            Mechanic::CurrencyTake { .. } => 36,
            Mechanic::Damage { .. } => 37,
            Mechanic::BaseDamage { .. } => 38,
            Mechanic::PercentDamage { .. } => 39,
            Mechanic::Decapitate => 40,
            Mechanic::Doppleganger { .. } => 41,
            Mechanic::DropItem { .. } => 42,
            Mechanic::EjectPassenger => 43,
            Mechanic::Ender => 44,
            Mechanic::EnderBeam { .. } => 45,
            Mechanic::EnderDragonResetCrystals => 46,
            Mechanic::EnderDragonSetPhase { .. } => 47,
            Mechanic::EnderDragonSetRespawnPhase { .. } => 48,
            Mechanic::EnderDragonSpawnPortal { .. } => 49,
            Mechanic::Equip { .. } => 50,
            Mechanic::EquipCopy { .. } => 51,
            Mechanic::Explosion { .. } => 52,
            Mechanic::FakeExplosion => 53,
            Mechanic::Extinguish => 54,
            Mechanic::FawePaste { .. } => 55,
            Mechanic::Feed { .. } => 56,
            Mechanic::FillChest { .. } => 57,
            Mechanic::Firework { .. } => 58,
            Mechanic::Flames => 59,
            Mechanic::Fly => 60,
            Mechanic::ForcePull { .. } => 61,
            Mechanic::Freeze { .. } => 62,
            Mechanic::Geyser { .. } => 63,
            Mechanic::GiveItem { .. } => 64,
            Mechanic::GiveItemFromSlot { .. } => 65,
            Mechanic::GiveItemFromTarget { .. } => 66,
            Mechanic::Glow { .. } => 67,
            Mechanic::GoatRam => 68,
            Mechanic::GoTo { .. } => 69,
            Mechanic::GuardianBeam { .. } => 70,
            Mechanic::Heal { .. } => 71,
            Mechanic::HealPercent { .. } => 72,
            Mechanic::Hide { .. } => 73,
            Mechanic::Hit { .. } => 74,
            Mechanic::Hologram { .. } => 75,
            Mechanic::Ignite { .. } => 76,
            Mechanic::ItemSpray { .. } => 77,
            Mechanic::JSONMessage { .. } => 78,
            Mechanic::Jump { .. } => 79,
            Mechanic::Leap { .. } => 80,
            Mechanic::Lightning { .. } => 81,
            Mechanic::FakeLightning { .. } => 82,
            Mechanic::Log { .. } => 83,
            Mechanic::Look { .. } => 84,
            Mechanic::Lunge { .. } => 85,
            Mechanic::MatchRotation { .. } => 86,
            Mechanic::Message { .. } => 87,
            Mechanic::ModifyDamage { .. } => 88,
            Mechanic::ModifyGlobalScore { .. } => 89,
            Mechanic::ModifyTargetScore { .. } => 90,
            Mechanic::ModifyMobScore { .. } => 91,
            Mechanic::ModifyScore { .. } => 92,
            Mechanic::Mount { .. } => 93,
            Mechanic::MountMe { .. } => 94,
            Mechanic::MountTarget { .. } => 95,
            Mechanic::MovePin { .. } => 96,
            Mechanic::OpenTrades => 97,
            Mechanic::Oxygen { .. } => 98,
            Mechanic::Particle { .. } => 99,
            Mechanic::ParticleBox { .. } => 100,
            Mechanic::ParticleEquation { .. } => 101,
            Mechanic::ParticleLine { .. } => 102,
            Mechanic::ParticleLineHelix { .. } => 103,
            Mechanic::ParticleLineRing { .. } => 104,
            Mechanic::ParticleOrbital { .. } => 105,
            Mechanic::ParticleRing { .. } => 106,
            Mechanic::ParticleSphere { .. } => 107,
            Mechanic::ParticleTornado { .. } => 108,
            Mechanic::Atom { .. } => 109,
            Mechanic::PickUpItem { .. } => 110,
            Mechanic::PlayAnimation { .. } => 111,
            Mechanic::PlayBlockBreakSound { .. } => 112,
            Mechanic::PlayBlockFallSound { .. } => 113,
            Mechanic::PlayBlockHitSound { .. } => 114,
            Mechanic::PlayBlockPlaceSound { .. } => 115,
            Mechanic::PlayBlockStepSound { .. } => 116,
            Mechanic::PoseArmorStand { .. } => 117,
            Mechanic::Potion { .. } => 118,
            Mechanic::PotionClear => 119,
            Mechanic::Prison => 120,
            Mechanic::PrintParentTree => 121,
            Mechanic::Propel { .. } => 122,
            Mechanic::Pull { .. } => 123,
            Mechanic::PushBlock { .. } => 124,
            Mechanic::PushButton => 125,
            Mechanic::RayTrace => 126,
            Mechanic::RayTraceTo => 127,
            Mechanic::Rally { .. } => 128,
            Mechanic::RandomMessage { .. } => 129,
            Mechanic::Recoil { .. } => 130,
            Mechanic::Remount => 131,
            Mechanic::Remove => 132,
            Mechanic::RemoveHeldItem => 133,
            Mechanic::RemoveOwner => 134,
            Mechanic::ResetAI => 135,
            Mechanic::RotateTowards { .. } => 136,
            Mechanic::RunAIGoalSelector => 137,
            Mechanic::RunAITargetSelector => 138,
            Mechanic::Saddle => 139,
            Mechanic::SendActionMessage { .. } => 140,
            Mechanic::SendResourcePack { .. } => 141,
            Mechanic::SendTitle { .. } => 142,
            Mechanic::SendToast { .. } => 143,
            Mechanic::SetAI { .. } => 144,
            Mechanic::SetBlockOpen { .. } => 145,
            Mechanic::SetBlockType { .. } => 146,
            Mechanic::SetChunkForceLoaded { .. } => 147,
            Mechanic::SetCollidable { .. } => 148,
            Mechanic::SetDragonPodium { .. } => 149,
            Mechanic::SetGameMode { .. } => 150,
            Mechanic::SetGliding { .. } => 151,
            Mechanic::SetGlobalScore { .. } => 152,
            Mechanic::SetGravity { .. } => 153,
            Mechanic::SetHealth { .. } => 154,
            Mechanic::SetInteractionSize { .. } => 155,
            Mechanic::SetItemGroupCooldown { .. } => 156,
            Mechanic::SetDisplayEntityItem { .. } => 157,
            Mechanic::SetLeashHolder { .. } => 158,
            Mechanic::SetLevel { .. } => 159,
            Mechanic::SetMaterialCooldown { .. } => 160,
            Mechanic::SetMaxHealth { .. } => 161,
            Mechanic::SetMobColor { .. } => 162,
            Mechanic::SetMobScore { .. } => 163,
            Mechanic::SetName { .. } => 164,
            Mechanic::SetRaiderCanJoinRaid { .. } => 165,
            Mechanic::SetRaiderPatrolBlock { .. } => 166,
            Mechanic::SetRaiderPatrolLeader { .. } => 167,
            Mechanic::SetFaction { .. } => 168,
            Mechanic::SetFlying { .. } => 169,
            Mechanic::SetNoDamageTicks { .. } => 170,
            Mechanic::SetOwner { .. } => 171,
            Mechanic::SetParent { .. } => 172,
            Mechanic::SetPathfindingMalus { .. } => 173,
            Mechanic::SetPitch { .. } => 174,
            Mechanic::SetPose { .. } => 175,
            Mechanic::SetRotation { .. } => 176,
            Mechanic::SetTarget { .. } => 177,
            Mechanic::SetTargetScore { .. } => 178,
            Mechanic::SetTextDisplay { .. } => 179,
            Mechanic::SetTongueTarget { .. } => 180,
            Mechanic::SetScore { .. } => 181,
            Mechanic::SetSpeed { .. } => 182,
            Mechanic::SetStance { .. } => 183,
            Mechanic::Shield => 184,
            Mechanic::ShieldBreak => 185,
            Mechanic::ShieldPercent { .. } => 186,
            Mechanic::ShootFireball { .. } => 187,
            Mechanic::ShootPotion { .. } => 188,
            Mechanic::ShootSkull { .. } => 189,
            Mechanic::ShootShulkerBullet { .. } => 190,
            Mechanic::ShowEntity { .. } => 191,
            Mechanic::Signal { .. } => 192,
            Mechanic::Skybox { .. } => 193,
            Mechanic::Smoke => 194,
            Mechanic::SmokeSwirl => 195,
            Mechanic::Sound { .. } => 196,
            Mechanic::StealItem { .. } => 197,
            Mechanic::StopSound { .. } => 198,
            Mechanic::StopSoundWithCategory { .. } => 199,
            Mechanic::Speak { .. } => 200,
            Mechanic::Spin { .. } => 201,
            Mechanic::Spring { .. } => 202,
            Mechanic::Stun { .. } => 203,
            Mechanic::StopUsingItem => 204,
            Mechanic::Suicide => 205,
            Mechanic::Summon { .. } => 206,
            Mechanic::SummonAreaEffectCloud { .. } => 207,
            Mechanic::SummonFallingBlock { .. } => 208,
            Mechanic::SummonPassenger { .. } => 209,
            Mechanic::Swap => 210,
            Mechanic::SwingOffHand => 211,
            Mechanic::AddTag(_) => 212,
            Mechanic::RemoveTag(_) => 213,
            Mechanic::TakeItem { .. } => 214,
            Mechanic::Taunt => 215,
            Mechanic::Teleport { .. } => 216,
            Mechanic::TeleportY { .. } => 217,
            Mechanic::TeleportIn { .. } => 218,
            Mechanic::TeleportTo { .. } => 219,
            Mechanic::Time { .. } => 220,
            Mechanic::Threat { .. } => 221,
            Mechanic::Throw { .. } => 222,
            Mechanic::ThunderLevel { .. } => 223,
            Mechanic::ToggleLever { .. } => 224,
            Mechanic::TogglePiston => 225,
            Mechanic::ToggleSitting(_) => 226,
            Mechanic::TotemOfUndying { .. } => 227,
            Mechanic::TrackLocation => 228,
            Mechanic::UndoPaste { .. } => 229,
            Mechanic::Velocity { .. } => 230,
            Mechanic::WolfSit(_) => 231,
            Mechanic::WorldEditReplace { .. } => 232,
            Mechanic::Weather { .. } => 233,
            Mechanic::AdditionalMecanics { .. } => 234,
        }
    }

    /// Whether every parameter of the mechanic holds what it starts with:
    /// texts and lists are empty, numbers are zero, switches are off, optional
    /// keys are absent, and a choice is at the variant that it defaults to.
    pub open spec fn is_blank(self) -> bool {
        match self {
            Mechanic::ActivateSpawner { spawner } => spawner.is_blank(),
            Mechanic::AddTrade {
                action,
                slot,
                ingredient,
                ingredient_2,
                result,
                max_uses,
                experience_reward,
                villager_exp,
                price_multiplier,
                demand,
                special_price,
                ignore_discounts,
            } => {
                &&& action == ActionMode::Add
                &&& slot == 0
                &&& ingredient.is_blank()
                &&& ingredient_2 is Absent
                &&& result@.len() == 0
                &&& max_uses is Absent
                &&& experience_reward is Absent
                &&& villager_exp is Absent
                &&& price_multiplier is Absent
                &&& demand is Absent
                &&& special_price is Absent
                &&& ignore_discounts is Absent
            },
            Mechanic::AnimateArmorStand { pose, speed, duration, ignore_empty, smart } => {
                &&& pose.is_blank()
                &&& speed == Decimal::zero_value()
                &&& duration == 0
                &&& !ignore_empty
                &&& !smart
            },
            Mechanic::ArmAnimation => true,
            Mechanic::ArrowVolley {
                amount,
                spread,
                velocity,
                fire_ticks,
                remove_delay,
                can_pickup,
            } => {
                &&& amount == 0
                &&& spread == Decimal::zero_value()
                &&& velocity == Decimal::zero_value()
                &&& fire_ticks == 0
                &&& remove_delay == 0
                &&& !can_pickup
            },
            Mechanic::AuraRemove { aura_name, stacks } => aura_name@.len() == 0 && stacks == 0,
            Mechanic::BlackScreen { duration } => duration == 0,
            Mechanic::BlockDestabilize => true,
            Mechanic::BlockMask {
                material,
                radius,
                radius_y,
                noise,
                duration,
                shape,
                no_air,
                only_air,
                occlude,
            } => {
                &&& material@.len() == 0
                &&& radius == 0
                &&& radius_y == 0
                &&& noise == 0
                &&& duration == 0
                &&& shape == Shape::Cube
                &&& !no_air
                &&& !only_air
                &&& !occlude
            },
            Mechanic::BlockUnmask { radius, shape } => radius == 0 && shape == Shape::Cube,
            Mechanic::BlockPhysics => true,
            Mechanic::BlockWave {
                material,
                radius,
                radius_y,
                duration,
                shape,
                velocity,
                horizontal_velocity,
                specific_velocities,
                velocity_x,
                velocity_y,
                velocity_z,
                noise,
                hide_source_block,
                ignore_air,
            } => {
                &&& material@.len() == 0
                &&& radius == 0
                &&& radius_y == 0
                &&& duration == 0
                &&& shape == Shape::Cube
                &&& velocity == Decimal::zero_value()
                &&& horizontal_velocity == Decimal::zero_value()
                &&& !specific_velocities
                &&& velocity_x == Decimal::zero_value()
                &&& velocity_y == Decimal::zero_value()
                &&& velocity_z == Decimal::zero_value()
                &&& noise == 0
                &&& !hide_source_block
                &&& !ignore_air
            },
            Mechanic::BloodyScreen { duration, cancel } => duration == 0 && !cancel,
            Mechanic::BoneMeal { block_face } => block_face@.len() == 0,
            Mechanic::BossBorder { radius } => radius == 0,
            Mechanic::Bouncy { aura_name, on_bounce_skill, cancel_event } => {
                &&& aura_name@.len() == 0
                &&& on_bounce_skill@.len() == 0
                &&& !cancel_event
            },
            Mechanic::BreakBlock { do_drops, do_effect, use_tool } => {
                &&& !do_drops
                &&& !do_effect
                &&& !use_tool
            },
            Mechanic::BreakBlockAndGiveItem {
                do_drops,
                do_effect,
                use_tool,
                do_fake_looting,
                items,
            } => {
                &&& !do_drops
                &&& !do_effect
                &&& !use_tool
                &&& !do_fake_looting
                &&& items.is_blank()
            },
            Mechanic::ClearExperience => true,
            Mechanic::ClearExperienceLevels => true,
            Mechanic::GiveExperienceLevels { amount } => amount == 0,
            Mechanic::TakeExperienceLevels { amount } => amount == 0,
            Mechanic::CloseInventory => true,
            Mechanic::Command { command, as_caster, as_op, as_target, require_target } => {
                &&& command@.len() == 0
                &&& !as_caster
                &&& !as_op
                &&& !as_target
                &&& !require_target
            },
            Mechanic::Consume { damage, heal } => {
                &&& damage == Decimal::zero_value()
                &&& heal == Decimal::zero_value()
            },
            Mechanic::ConsumeSlot { slot, amount } => slot@.len() == 0 && amount == 0,
            Mechanic::DirectionalVelocity { yaw, pitch, velocity, mode } => {
                &&& yaw == Decimal::zero_value()
                &&& pitch == Decimal::zero_value()
                &&& velocity == Decimal::zero_value()
                &&& mode@.len() == 0
            },
            Mechanic::Disengage { velocity, velocity_y } => {
                &&& velocity == Decimal::zero_value()
                &&& velocity_y == Decimal::zero_value()
            },
            Mechanic::Disguise { disguise } => disguise@.len() == 0,
            Mechanic::DisguiseModify { disguise } => disguise@.len() == 0,
            Mechanic::DisguiseTarget { disguise } => disguise@.len() == 0,
            Mechanic::Undisguise => true,
            Mechanic::Dismount => true,
            Mechanic::DisplayTransformation { action, transformation_type, value } => {
                &&& action@.len() == 0
                &&& transformation_type@.len() == 0
                &&& value@.len() == 0
            },
            Mechanic::ClearThreat => true,
            Mechanic::CurrencyGive { amount } => amount == Decimal::zero_value(),
            Mechanic::CurrencyTake { amount } => amount == Decimal::zero_value(),
            Mechanic::Damage {
                amount,
                ignore_armor,
                prevent_knockback,
                prevent_immunity,
                damage_cause,
                ignore_enchantments,
                no_anger,
                ignore_invulnerability,
                ignore_shield,
                damage_helmet,
                ignore_effects,
                ignore_resistance,
                power_affects_damage,
                tags,
                raw_tags,
                element,
                trigger_skills,
            } => {
                &&& amount == Decimal::zero_value()
                &&& !ignore_armor
                &&& !prevent_knockback
                &&& !prevent_immunity
                &&& damage_cause@.len() == 0
                &&& !ignore_enchantments
                &&& !no_anger
                &&& !ignore_invulnerability
                &&& !ignore_shield
                &&& !damage_helmet
                &&& !ignore_effects
                &&& !ignore_resistance
                &&& !power_affects_damage
                &&& tags.is_blank()
                &&& raw_tags.is_blank()
                &&& element@.len() == 0
                &&& !trigger_skills
            },
            Mechanic::BaseDamage { multiplier, use_attribute } => {
                &&& multiplier == Decimal::zero_value()
                &&& !use_attribute
            },
            Mechanic::PercentDamage { percent, current_health } => {
                &&& percent == Decimal::zero_value()
                &&& !current_health
            },
            Mechanic::Decapitate => true,
            Mechanic::Doppleganger { has_nameplate, use_player_name } => {
                &&& !has_nameplate
                &&& use_player_name is Absent
            },
            Mechanic::DropItem { items, naturally, on_drop_skill } => {
                &&& items@.len() == 0
                &&& !naturally
                &&& on_drop_skill is Absent
            },
            Mechanic::EjectPassenger => true,
            Mechanic::Ender => true,
            Mechanic::EnderBeam { duration, y_offset } => {
                &&& duration == 0
                &&& y_offset == Decimal::zero_value()
            },
            Mechanic::EnderDragonResetCrystals => true,
            Mechanic::EnderDragonSetPhase { phase } => phase@.len() == 0,
            Mechanic::EnderDragonSetRespawnPhase { phase } => phase@.len() == 0,
            Mechanic::EnderDragonSpawnPortal { with_portals } => !with_portals,
            Mechanic::Equip { item } => item.is_blank(),
            Mechanic::EquipCopy { slots } => slots@.len() == 0,
            Mechanic::Explosion { power_explosion, block_damage, fire } => {
                &&& power_explosion == Decimal::zero_value()
                &&& !block_damage
                &&& !fire
            },
            Mechanic::FakeExplosion => true,
            Mechanic::Extinguish => true,
            Mechanic::FawePaste {
                schematic,
                paste_id,
                paste_air,
                x_offset,
                y_offset,
                z_offset,
                rotation,
                center,
                chest_drop_table,
                trap_chest_drop_table,
                blocks_per_tick,
                duration,
            } => {
                &&& schematic@.len() == 0
                &&& paste_id is Absent
                &&& !paste_air
                &&& x_offset == 0
                &&& y_offset == 0
                &&& z_offset == 0
                &&& rotation == Decimal::zero_value()
                &&& !center
                &&& chest_drop_table is Absent
                &&& trap_chest_drop_table is Absent
                &&& blocks_per_tick == 0
                &&& duration == 0
            },
            Mechanic::Feed { amount, saturation, overfeed } => {
                &&& amount == 0
                &&& saturation == Decimal::zero_value()
                &&& !overfeed
            },
            Mechanic::FillChest { items, should_stack, should_empty } => {
                &&& items@.len() == 0
                &&& should_stack is Absent
                &&& should_empty is Absent
            },
            Mechanic::Firework { firework_type, power, flicker, trail, colors, fade_colors } => {
                &&& firework_type@.len() == 0
                &&& power == 0
                &&& !flicker
                &&& !trail
                &&& colors@.len() == 0
                &&& fade_colors@.len() == 0
            },
            Mechanic::Flames => true,
            Mechanic::Fly => true,
            Mechanic::ForcePull { spread, v_spread } => spread == 0 && v_spread is Absent,
            Mechanic::Freeze { ticks } => ticks == 0,
            Mechanic::Geyser { liquid_type, height, interval } => {
                &&& liquid_type@.len() == 0
                &&& height == 0
                &&& interval == 0
            },
            Mechanic::GiveItem { item, fake_looting } => item@.len() == 0 && !fake_looting,
            Mechanic::GiveItemFromSlot { slot, fake_looting } => slot@.len() == 0 && !fake_looting,
            Mechanic::GiveItemFromTarget { item, fake_looting } => {
                &&& item@.len() == 0
                &&& !fake_looting
            },
            Mechanic::Glow { color } => color@.len() == 0,
            Mechanic::GoatRam => true,
            Mechanic::GoTo { speed, spread_h, spread_v } => {
                &&& speed == Decimal::zero_value()
                &&& spread_h == 0
                &&& spread_v == 0
            },
            Mechanic::GuardianBeam {
                duration,
                interval,
                start_y_offset,
                target_y_offset,
                from_origin,
                on_start_skill,
                on_tick_skill,
                on_end_skill,
            } => {
                &&& duration == 0
                &&& interval == 0
                &&& start_y_offset == Decimal::zero_value()
                &&& target_y_offset == Decimal::zero_value()
                &&& !from_origin
                &&& on_start_skill is Absent
                &&& on_tick_skill is Absent
                &&& on_end_skill is Absent
            },
            Mechanic::Heal { amount, overheal, max_overheal } => {
                &&& amount == Decimal::zero_value()
                &&& !overheal
                &&& max_overheal == Decimal::zero_value()
            },
            Mechanic::HealPercent { multiplier, overheal, max_overheal } => {
                &&& multiplier.value() == Decimal::zero_value()
                &&& !overheal
                &&& max_overheal == Decimal::zero_value()
            },
            Mechanic::Hide { ignore_aura_options } => !ignore_aura_options,
            Mechanic::Hit { multiplier, forced_damage, trigger_skills, scale_by_attack_cooldown } => {
                &&& multiplier == Decimal::zero_value()
                &&& forced_damage is Absent
                &&& !trigger_skills
                &&& !scale_by_attack_cooldown
            },
            Mechanic::Hologram { text, stay } => text@.len() == 0 && stay == 0,
            Mechanic::Ignite { ticks } => ticks == 0,
            Mechanic::ItemSpray {
                items,
                amount,
                duration,
                radius,
                velocity,
                y_velocity,
                y_offset,
                allow_pickup,
                gravity,
            } => {
                &&& items@.len() == 0
                &&& amount == 0
                &&& duration == 0
                &&& radius == 0
                &&& velocity == Decimal::zero_value()
                &&& y_velocity is Absent
                &&& y_offset == Decimal::zero_value()
                &&& !allow_pickup
                &&& !gravity
            },
            Mechanic::JSONMessage { message } => message@.len() == 0,
            Mechanic::Jump { velocity } => velocity == Decimal::zero_value(),
            Mechanic::Leap { velocity, noise } => {
                &&& velocity == Decimal::zero_value()
                &&& noise == Decimal::zero_value()
            },
            Mechanic::Lightning { damage } => damage == Decimal::zero_value(),
            Mechanic::FakeLightning { localized, localized_radius } => {
                &&& !localized
                &&& localized_radius == 0
            },
            Mechanic::Log { message } => message@.len() == 0,
            Mechanic::Look { head_only, force, force_paper, immediately } => {
                &&& !head_only
                &&& !force
                &&& !force_paper
                &&& !immediately
            },
            Mechanic::Lunge { velocity, velocity_y, old_math } => {
                &&& velocity == Decimal::zero_value()
                &&& velocity_y == Decimal::zero_value()
                &&& !old_math
            },
            Mechanic::MatchRotation { target } => target@.len() == 0,
            Mechanic::Message { message, audience } => message@.len() == 0 && audience@.len() == 0,
            Mechanic::ModifyDamage { amount, damage_type, action } => {
                &&& amount == Decimal::zero_value()
                &&& damage_type@.len() == 0
                &&& action@.len() == 0
            },
            Mechanic::ModifyGlobalScore { objective, action, value } => {
                &&& objective@.len() == 0
                &&& action@.len() == 0
                &&& value == Decimal::zero_value()
            },
            Mechanic::ModifyTargetScore { objective, action, value } => {
                &&& objective@.len() == 0
                &&& action@.len() == 0
                &&& value == Decimal::zero_value()
            },
            Mechanic::ModifyMobScore { objective, action, value } => {
                &&& objective@.len() == 0
                &&& action@.len() == 0
                &&& value == Decimal::zero_value()
            },
            Mechanic::ModifyScore { objective, action, value } => {
                &&& objective@.len() == 0
                &&& action@.len() == 0
                &&& value == Decimal::zero_value()
            },
            Mechanic::Mount { entity } => entity@.len() == 0,
            Mechanic::MountMe { entity } => entity@.len() == 0,
            Mechanic::MountTarget { entity } => entity@.len() == 0,
            Mechanic::MovePin { x, y, z } => {
                &&& x == Decimal::zero_value()
                &&& y == Decimal::zero_value()
                &&& z == Decimal::zero_value()
            },
            Mechanic::OpenTrades => true,
            Mechanic::Oxygen { amount } => amount == 0,
            Mechanic::Particle { particle, amount, speed, x, y, z } => {
                &&& particle@.len() == 0
                &&& amount == 0
                &&& speed == Decimal::zero_value()
                &&& x == Decimal::zero_value()
                &&& y == Decimal::zero_value()
                &&& z == Decimal::zero_value()
            },
            Mechanic::ParticleBox { particle, amount, speed, x, y, z, width, height } => {
                &&& particle@.len() == 0
                &&& amount == 0
                &&& speed == Decimal::zero_value()
                &&& x == Decimal::zero_value()
                &&& y == Decimal::zero_value()
                &&& z == Decimal::zero_value()
                &&& width == Decimal::zero_value()
                &&& height == Decimal::zero_value()
            },
            Mechanic::ParticleEquation { particle, amount, speed, x, y, z, equation } => {
                &&& particle@.len() == 0
                &&& amount == 0
                &&& speed == Decimal::zero_value()
                &&& x == Decimal::zero_value()
                &&& y == Decimal::zero_value()
                &&& z == Decimal::zero_value()
                &&& equation@.len() == 0
            },
            Mechanic::ParticleLine { particle, amount, speed, x, y, z, length } => {
                &&& particle@.len() == 0
                &&& amount == 0
                &&& speed == Decimal::zero_value()
                &&& x == Decimal::zero_value()
                &&& y == Decimal::zero_value()
                &&& z == Decimal::zero_value()
                &&& length == Decimal::zero_value()
            },
            Mechanic::ParticleLineHelix { particle, amount, speed, x, y, z, length, radius } => {
                &&& particle@.len() == 0
                &&& amount == 0
                &&& speed == Decimal::zero_value()
                &&& x == Decimal::zero_value()
                &&& y == Decimal::zero_value()
                &&& z == Decimal::zero_value()
                &&& length == Decimal::zero_value()
                &&& radius == Decimal::zero_value()
            },
            Mechanic::ParticleLineRing { particle, amount, speed, x, y, z, radius } => {
                &&& particle@.len() == 0
                &&& amount == 0
                &&& speed == Decimal::zero_value()
                &&& x == Decimal::zero_value()
                &&& y == Decimal::zero_value()
                &&& z == Decimal::zero_value()
                &&& radius == Decimal::zero_value()
            },
            Mechanic::ParticleOrbital { particle, amount, speed, x, y, z, radius } => {
                &&& particle@.len() == 0
                &&& amount == 0
                &&& speed == Decimal::zero_value()
                &&& x == Decimal::zero_value()
                &&& y == Decimal::zero_value()
                &&& z == Decimal::zero_value()
                &&& radius == Decimal::zero_value()
            },
            Mechanic::ParticleRing { particle, amount, speed, x, y, z, radius } => {
                &&& particle@.len() == 0
                &&& amount == 0
                &&& speed == Decimal::zero_value()
                &&& x == Decimal::zero_value()
                &&& y == Decimal::zero_value()
                &&& z == Decimal::zero_value()
                &&& radius == Decimal::zero_value()
            },
            Mechanic::ParticleSphere { particle, amount, speed, x, y, z, radius } => {
                &&& particle@.len() == 0
                &&& amount == 0
                &&& speed == Decimal::zero_value()
                &&& x == Decimal::zero_value()
                &&& y == Decimal::zero_value()
                &&& z == Decimal::zero_value()
                &&& radius == Decimal::zero_value()
            },
            Mechanic::ParticleTornado { particle, amount, speed, x, y, z, height, radius } => {
                &&& particle@.len() == 0
                &&& amount == 0
                &&& speed == Decimal::zero_value()
                &&& x == Decimal::zero_value()
                &&& y == Decimal::zero_value()
                &&& z == Decimal::zero_value()
                &&& height == Decimal::zero_value()
                &&& radius == Decimal::zero_value()
            },
            Mechanic::Atom { particle, amount, speed, x, y, z, radius } => {
                &&& particle@.len() == 0
                &&& amount == 0
                &&& speed == Decimal::zero_value()
                &&& x == Decimal::zero_value()
                &&& y == Decimal::zero_value()
                &&& z == Decimal::zero_value()
                &&& radius == Decimal::zero_value()
            },
            Mechanic::PickUpItem { item } => item@.len() == 0,
            Mechanic::PlayAnimation { animation } => animation@.len() == 0,
            Mechanic::PlayBlockBreakSound { block } => block@.len() == 0,
            Mechanic::PlayBlockFallSound { block } => block@.len() == 0,
            Mechanic::PlayBlockHitSound { block } => block@.len() == 0,
            Mechanic::PlayBlockPlaceSound { block } => block@.len() == 0,
            Mechanic::PlayBlockStepSound { block } => block@.len() == 0,
            Mechanic::PoseArmorStand { pose } => pose@.len() == 0,
            Mechanic::Potion { potion, duration, level } => {
                &&& potion@.len() == 0
                &&& duration == 0
                &&& level == 0
            },
            Mechanic::PotionClear => true,
            Mechanic::Prison => true,
            Mechanic::PrintParentTree => true,
            Mechanic::Propel { velocity } => velocity == Decimal::zero_value(),
            Mechanic::Pull { velocity } => velocity == Decimal::zero_value(),
            Mechanic::PushBlock { velocity } => velocity == Decimal::zero_value(),
            Mechanic::PushButton => true,
            Mechanic::RayTrace => true,
            Mechanic::RayTraceTo => true,
            Mechanic::Rally { radius } => radius == Decimal::zero_value(),
            Mechanic::RandomMessage { messages } => messages.is_blank(),
            Mechanic::Recoil { velocity } => velocity == Decimal::zero_value(),
            Mechanic::Remount => true,
            Mechanic::Remove => true,
            Mechanic::RemoveHeldItem => true,
            Mechanic::RemoveOwner => true,
            Mechanic::ResetAI => true,
            Mechanic::RotateTowards { target } => target@.len() == 0,
            Mechanic::RunAIGoalSelector => true,
            Mechanic::RunAITargetSelector => true,
            Mechanic::Saddle => true,
            Mechanic::SendActionMessage { message } => message@.len() == 0,
            Mechanic::SendResourcePack { url } => url@.len() == 0,
            Mechanic::SendTitle { title, subtitle, fade_in, stay, fade_out } => {
                &&& title@.len() == 0
                &&& subtitle@.len() == 0
                &&& fade_in == 0
                &&& stay == 0
                &&& fade_out == 0
            },
            Mechanic::SendToast { title, message } => title@.len() == 0 && message@.len() == 0,
            Mechanic::SetAI { ai } => ai@.len() == 0,
            Mechanic::SetBlockOpen { open } => !open,
            Mechanic::SetBlockType { block } => block@.len() == 0,
            Mechanic::SetChunkForceLoaded { loaded } => !loaded,
            Mechanic::SetCollidable { collidable } => !collidable,
            Mechanic::SetDragonPodium { podium } => !podium,
            Mechanic::SetGameMode { gamemode } => gamemode@.len() == 0,
            Mechanic::SetGliding { gliding } => !gliding,
            Mechanic::SetGlobalScore { objective, action, value } => {
                &&& objective@.len() == 0
                &&& action@.len() == 0
                &&& value == Decimal::zero_value()
            },
            Mechanic::SetGravity { gravity } => gravity == Decimal::zero_value(),
            Mechanic::SetHealth { health } => health == Decimal::zero_value(),
            Mechanic::SetInteractionSize { width, height } => {
                &&& width == Decimal::zero_value()
                &&& height == Decimal::zero_value()
            },
            Mechanic::SetItemGroupCooldown { group, cooldown } => {
                &&& group@.len() == 0
                &&& cooldown == 0
            },
            Mechanic::SetDisplayEntityItem { item } => item@.len() == 0,
            Mechanic::SetLeashHolder { holder } => holder@.len() == 0,
            Mechanic::SetLevel { level } => level == 0,
            Mechanic::SetMaterialCooldown { material, cooldown } => {
                &&& material@.len() == 0
                &&& cooldown == 0
            },
            Mechanic::SetMaxHealth { health } => health == Decimal::zero_value(),
            Mechanic::SetMobColor { color } => color@.len() == 0,
            Mechanic::SetMobScore { objective, score } => objective@.len() == 0 && score == 0,
            Mechanic::SetName { name } => name@.len() == 0,
            Mechanic::SetRaiderCanJoinRaid { can_join } => !can_join,
            Mechanic::SetRaiderPatrolBlock { block } => block@.len() == 0,
            Mechanic::SetRaiderPatrolLeader { leader } => leader@.len() == 0,
            Mechanic::SetFaction { faction } => faction@.len() == 0,
            Mechanic::SetFlying { flying } => !flying,
            Mechanic::SetNoDamageTicks { ticks } => ticks == 0,
            Mechanic::SetOwner { owner } => owner@.len() == 0,
            Mechanic::SetParent { parent } => parent@.len() == 0,
            Mechanic::SetPathfindingMalus { malus } => malus == Decimal::zero_value(),
            Mechanic::SetPitch { pitch } => pitch == Decimal::zero_value(),
            Mechanic::SetPose { pose } => pose@.len() == 0,
            Mechanic::SetRotation { yaw, pitch } => {
                &&& yaw == Decimal::zero_value()
                &&& pitch == Decimal::zero_value()
            },
            Mechanic::SetTarget { target } => target@.len() == 0,
            Mechanic::SetTargetScore { objective, score } => objective@.len() == 0 && score == 0,
            Mechanic::SetTextDisplay { text } => text@.len() == 0,
            Mechanic::SetTongueTarget { target } => target@.len() == 0,
            Mechanic::SetScore { objective, score } => objective@.len() == 0 && score == 0,
            Mechanic::SetSpeed { speed } => speed == Decimal::zero_value(),
            Mechanic::SetStance { stance } => stance@.len() == 0,
            Mechanic::Shield => true,
            Mechanic::ShieldBreak => true,
            Mechanic::ShieldPercent { percent } => percent == Decimal::zero_value(),
            Mechanic::ShootFireball { velocity } => velocity == Decimal::zero_value(),
            Mechanic::ShootPotion { potion, velocity } => {
                &&& potion@.len() == 0
                &&& velocity == Decimal::zero_value()
            },
            Mechanic::ShootSkull { velocity } => velocity == Decimal::zero_value(),
            Mechanic::ShootShulkerBullet { velocity } => velocity == Decimal::zero_value(),
            Mechanic::ShowEntity { entity } => entity@.len() == 0,
            Mechanic::Signal { signal } => signal@.len() == 0,
            Mechanic::Skybox { skybox } => skybox@.len() == 0,
            Mechanic::Smoke => true,
            Mechanic::SmokeSwirl => true,
            Mechanic::Sound { sound, volume, pitch } => {
                &&& sound@.len() == 0
                &&& volume == Decimal::zero_value()
                &&& pitch == Decimal::zero_value()
            },
            Mechanic::StealItem { item } => item@.len() == 0,
            Mechanic::StopSound { sound } => sound@.len() == 0,
            Mechanic::StopSoundWithCategory { sound, sound_category } => {
                &&& sound@.len() == 0
                &&& sound_category == SoundCategory::Master
            },
            Mechanic::Speak {
                offset,
                radius,
                max_line_lenght,
                line_prefix,
                message,
                chat_prefix,
                duration,
                send_chat_message,
            } => {
                &&& offset == Decimal::zero_value()
                &&& radius == 0
                &&& max_line_lenght == 0
                &&& line_prefix@.len() == 0
                &&& message@.len() == 0
                &&& chat_prefix@.len() == 0
                &&& duration == 0
                &&& !send_chat_message
            },
            Mechanic::Spin { velocity, aura } => velocity == 0 && aura.is_blank(),
            Mechanic::Spring { spring_type, duration } => {
                &&& spring_type == SpringType::Water
                &&& duration == 0
            },
            Mechanic::Stun { duration } => duration == 0,
            Mechanic::StopUsingItem => true,
            Mechanic::Suicide => true,
            Mechanic::Summon { mob, location } => mob@.len() == 0 && location@.len() == 0,
            Mechanic::SummonAreaEffectCloud {
                particle,
                effect_type,
                potion_duration,
                level,
                duration,
                duration_reduction_on_use,
                radius,
                radius_reduction_on_use,
                radius_reduction_on_tick,
            } => {
                &&& particle is Absent
                &&& effect_type is Absent
                &&& potion_duration is Absent
                &&& level is Absent
                &&& duration is Absent
                &&& duration_reduction_on_use is Absent
                &&& radius is Absent
                &&& radius_reduction_on_use is Absent
                &&& radius_reduction_on_tick is Absent
            },
            Mechanic::SummonFallingBlock { material } => material@.len() == 0,
            Mechanic::SummonPassenger { passenger, stack } => {
                &&& passenger@.len() == 0
                &&& stack is Absent
            },
            Mechanic::Swap => true,
            Mechanic::SwingOffHand => true,
            Mechanic::AddTag(tag) => tag@.len() == 0,
            Mechanic::RemoveTag(tag) => tag@.len() == 0,
            Mechanic::TakeItem { item, amount, exact, vanilla_only } => {
                &&& item@.len() == 0
                &&& amount == 0
                &&& exact is Absent
                &&& vanilla_only is Absent
            },
            Mechanic::Taunt => true,
            Mechanic::Teleport { spreadh, spreadv, preserve_pitch, preserve_yaw, safe_teleport } => {
                &&& spreadh is Absent
                &&& spreadv is Absent
                &&& preserve_pitch is Absent
                &&& preserve_yaw is Absent
                &&& safe_teleport is Absent
            },
            Mechanic::TeleportY { y } => y == 0,
            Mechanic::TeleportIn { vector, yaw, target_as_origin } => {
                &&& vector is Absent
                &&& yaw is Absent
                &&& target_as_origin is Absent
            },
            Mechanic::TeleportTo { location, world, yaw, pitch, relative, target_as_origin } => {
                &&& location == (Xyz { x: 0, y: 0, z: 0 })
                &&& world@.len() == 0
                &&& yaw is Absent
                &&& pitch is Absent
                &&& relative is Absent
                &&& target_as_origin is Absent
            },
            Mechanic::Time { mode, amount, personal, relative } => {
                &&& mode == AddSetReset::Add
                &&& amount == 0
                &&& personal is Absent
                &&& relative is Absent
            },
            Mechanic::Threat { amount, mode } => amount == 0 && mode is Absent,
            Mechanic::Throw { velocity, velocity_y, from_origin } => {
                &&& velocity == 0
                &&& velocity_y == 0
                &&& from_origin is Absent
            },
            Mechanic::ThunderLevel { level } => level == ThunderLevel::Level0,
            Mechanic::ToggleLever { location, duration, x, y, z } => {
                &&& location is Absent
                &&& duration == 0
                &&& x is Absent
                &&& y is Absent
                &&& z is Absent
            },
            Mechanic::TogglePiston => true,
            Mechanic::ToggleSitting(state) => !state,
            Mechanic::TotemOfUndying { model } => model@.len() == 0,
            Mechanic::TrackLocation => true,
            Mechanic::UndoPaste { paste_id } => paste_id@.len() == 0,
            Mechanic::Velocity { mode, velocity_x, velocity_y, velocity_z, relative } => {
                &&& mode == VelocityMode::SetTo
                &&& velocity_x == 0
                &&& velocity_y == 0
                &&& velocity_z == 0
                &&& relative is Absent
            },
            Mechanic::WolfSit(state) => !state,
            Mechanic::WorldEditReplace { from, to } => from@.len() == 0 && to@.len() == 0,
            Mechanic::Weather { weather_type, duration } => {
                &&& weather_type == WeatherType::Sunny
                &&& duration == 0
            },
            Mechanic::AdditionalMecanics { mechanic_type } => mechanic_type.is_blank(),
        }
    }

    /// Every mechanic has a place in the catalogue.
    pub proof fn lemma_ordinal_in_range(self)
        ensures
            0 <= self.ordinal() < Mechanic::count(),
    {
    }

    /// Returns the mechanic at place `i` of the catalogue, with blank
    /// parameters.
    #[verifier::rlimit(60)]
    pub fn from_ordinal(i: usize) -> (m: Mechanic)
        requires
            i < Mechanic::count(),
        ensures
            m.ordinal() == i,
            m.is_blank(),
    {
        match i {
            0 => Mechanic::ActivateSpawner { spawner: SpawnerSelect::default() },
            1 => Mechanic::AddTrade {
                action: ActionMode::Add,
                slot: 0,
                ingredient: TradeIngredient::default(),
                ingredient_2: MythicOption::Absent,
                result: String::new(),
                max_uses: MythicOption::Absent,
                experience_reward: MythicOption::Absent,
                villager_exp: MythicOption::Absent,
                price_multiplier: MythicOption::Absent,
                demand: MythicOption::Absent,
                special_price: MythicOption::Absent,
                ignore_discounts: MythicOption::Absent,
            },
            2 => Mechanic::AnimateArmorStand {
                pose: ArmorStandPose::default(),
                speed: Decimal::zero(),
                duration: 0,
                ignore_empty: false,
                smart: false,
            },
            3 => Mechanic::ArmAnimation,
            4 => Mechanic::ArrowVolley {
                amount: 0,
                spread: Decimal::zero(),
                velocity: Decimal::zero(),
                fire_ticks: 0,
                remove_delay: 0,
                can_pickup: false,
            },
            5 => Mechanic::AuraRemove { aura_name: String::new(), stacks: 0 },
            6 => Mechanic::BlackScreen { duration: 0 },
            7 => Mechanic::BlockDestabilize,
            8 => Mechanic::BlockMask {
                material: String::new(),
                radius: 0,
                radius_y: 0,
                noise: 0,
                duration: 0,
                shape: Shape::Cube,
                no_air: false,
                only_air: false,
                occlude: false,
            },
            9 => Mechanic::BlockUnmask { radius: 0, shape: Shape::Cube },
            10 => Mechanic::BlockPhysics,
            11 => Mechanic::BlockWave {
                material: String::new(),
                radius: 0,
                radius_y: 0,
                duration: 0,
                shape: Shape::Cube,
                velocity: Decimal::zero(),
                horizontal_velocity: Decimal::zero(),
                specific_velocities: false,
                velocity_x: Decimal::zero(),
                velocity_y: Decimal::zero(),
                velocity_z: Decimal::zero(),
                noise: 0,
                hide_source_block: false,
                ignore_air: false,
            },
            12 => Mechanic::BloodyScreen { duration: 0, cancel: false },
            13 => Mechanic::BoneMeal { block_face: String::new() },
            14 => Mechanic::BossBorder { radius: 0 },
            15 => Mechanic::Bouncy {
                aura_name: String::new(),
                on_bounce_skill: String::new(),
                cancel_event: false,
            },
            16 => Mechanic::BreakBlock { do_drops: false, do_effect: false, use_tool: false },
            17 => Mechanic::BreakBlockAndGiveItem {
                do_drops: false,
                do_effect: false,
                use_tool: false,
                do_fake_looting: false,
                items: ItemArray::default(),
            },
            18 => Mechanic::ClearExperience,
            19 => Mechanic::ClearExperienceLevels,
            20 => Mechanic::GiveExperienceLevels { amount: 0 },
            21 => Mechanic::TakeExperienceLevels { amount: 0 },
            22 => Mechanic::CloseInventory,
            23 => Mechanic::Command {
                command: String::new(),
                as_caster: false,
                as_op: false,
                as_target: false,
                require_target: false,
            },
            24 => Mechanic::Consume { damage: Decimal::zero(), heal: Decimal::zero() },
            25 => Mechanic::ConsumeSlot { slot: String::new(), amount: 0 },
            26 => Mechanic::DirectionalVelocity {
                yaw: Decimal::zero(),
                pitch: Decimal::zero(),
                velocity: Decimal::zero(),
                mode: String::new(),
            },
            27 => Mechanic::Disengage { velocity: Decimal::zero(), velocity_y: Decimal::zero() },
            28 => Mechanic::Disguise { disguise: String::new() },
            29 => Mechanic::DisguiseModify { disguise: String::new() },
            30 => Mechanic::DisguiseTarget { disguise: String::new() },
            31 => Mechanic::Undisguise,
            32 => Mechanic::Dismount,
            33 => Mechanic::DisplayTransformation {
                action: String::new(),
                transformation_type: String::new(),
                value: String::new(),
            },
            34 => Mechanic::ClearThreat,
            35 => Mechanic::CurrencyGive { amount: Decimal::zero() },
            36 => Mechanic::CurrencyTake { amount: Decimal::zero() },
            37 => Mechanic::Damage {
                amount: Decimal::zero(),
                ignore_armor: false,
                prevent_knockback: false,
                prevent_immunity: false,
                damage_cause: String::new(),
                ignore_enchantments: false,
                no_anger: false,
                ignore_invulnerability: false,
                ignore_shield: false,
                damage_helmet: false,
                ignore_effects: false,
                ignore_resistance: false,
                power_affects_damage: false,
                tags: Tags::default(),
                raw_tags: Tags::default(),
                element: String::new(),
                trigger_skills: false,
            },
            38 => Mechanic::BaseDamage { multiplier: Decimal::zero(), use_attribute: false },
            39 => Mechanic::PercentDamage { percent: Decimal::zero(), current_health: false },
            40 => Mechanic::Decapitate,
            41 => Mechanic::Doppleganger {
                has_nameplate: false,
                use_player_name: MythicOption::Absent,
            },
            42 => Mechanic::DropItem {
                items: String::new(),
                naturally: false,
                on_drop_skill: MythicOption::Absent,
            },
            43 => Mechanic::EjectPassenger,
            44 => Mechanic::Ender,
            45 => Mechanic::EnderBeam { duration: 0, y_offset: Decimal::zero() },
            46 => Mechanic::EnderDragonResetCrystals,
            47 => Mechanic::EnderDragonSetPhase { phase: String::new() },
            48 => Mechanic::EnderDragonSetRespawnPhase { phase: String::new() },
            49 => Mechanic::EnderDragonSpawnPortal { with_portals: false },
            50 => Mechanic::Equip { item: EquipmentItem::default() },
            51 => Mechanic::EquipCopy { slots: String::new() },
            52 => Mechanic::Explosion {
                power_explosion: Decimal::zero(),
                block_damage: false,
                fire: false,
            },
            53 => Mechanic::FakeExplosion,
            54 => Mechanic::Extinguish,
            55 => Mechanic::FawePaste {
                schematic: String::new(),
                paste_id: MythicOption::Absent,
                paste_air: false,
                x_offset: 0,
                y_offset: 0,
                z_offset: 0,
                rotation: Decimal::zero(),
                center: false,
                chest_drop_table: MythicOption::Absent,
                trap_chest_drop_table: MythicOption::Absent,
                blocks_per_tick: 0,
                duration: 0,
            },
            56 => Mechanic::Feed { amount: 0, saturation: Decimal::zero(), overfeed: false },
            57 => Mechanic::FillChest {
                items: String::new(),
                should_stack: MythicOption::Absent,
                should_empty: MythicOption::Absent,
            },
            58 => Mechanic::Firework {
                firework_type: String::new(),
                power: 0,
                flicker: false,
                trail: false,
                colors: String::new(),
                fade_colors: String::new(),
            },
            59 => Mechanic::Flames,
            60 => Mechanic::Fly,
            61 => Mechanic::ForcePull { spread: 0, v_spread: MythicOption::Absent },
            62 => Mechanic::Freeze { ticks: 0 },
            63 => Mechanic::Geyser { liquid_type: String::new(), height: 0, interval: 0 },
            64 => Mechanic::GiveItem { item: String::new(), fake_looting: false },
            65 => Mechanic::GiveItemFromSlot { slot: String::new(), fake_looting: false },
            66 => Mechanic::GiveItemFromTarget { item: String::new(), fake_looting: false },
            67 => Mechanic::Glow { color: String::new() },
            68 => Mechanic::GoatRam,
            69 => Mechanic::GoTo { speed: Decimal::zero(), spread_h: 0, spread_v: 0 },
            70 => Mechanic::GuardianBeam {
                duration: 0,
                interval: 0,
                start_y_offset: Decimal::zero(),
                target_y_offset: Decimal::zero(),
                from_origin: false,
                on_start_skill: MythicOption::Absent,
                on_tick_skill: MythicOption::Absent,
                on_end_skill: MythicOption::Absent,
            },
            71 => Mechanic::Heal {
                amount: Decimal::zero(),
                overheal: false,
                max_overheal: Decimal::zero(),
            },
            72 => Mechanic::HealPercent {
                multiplier: Percentage::default(),
                overheal: false,
                max_overheal: Decimal::zero(),
            },
            73 => Mechanic::Hide { ignore_aura_options: false },
            74 => Mechanic::Hit {
                multiplier: Decimal::zero(),
                forced_damage: MythicOption::Absent,
                trigger_skills: false,
                scale_by_attack_cooldown: false,
            },
            75 => Mechanic::Hologram { text: String::new(), stay: 0 },
            76 => Mechanic::Ignite { ticks: 0 },
            77 => Mechanic::ItemSpray {
                items: String::new(),
                amount: 0,
                duration: 0,
                radius: 0,
                velocity: Decimal::zero(),
                y_velocity: MythicOption::Absent,
                y_offset: Decimal::zero(),
                allow_pickup: false,
                gravity: false,
            },
            78 => Mechanic::JSONMessage { message: String::new() },
            79 => Mechanic::Jump { velocity: Decimal::zero() },
            80 => Mechanic::Leap { velocity: Decimal::zero(), noise: Decimal::zero() },
            81 => Mechanic::Lightning { damage: Decimal::zero() },
            82 => Mechanic::FakeLightning { localized: false, localized_radius: 0 },
            83 => Mechanic::Log { message: String::new() },
            84 => Mechanic::Look {
                head_only: false,
                force: false,
                force_paper: false,
                immediately: false,
            },
            85 => Mechanic::Lunge {
                velocity: Decimal::zero(),
                velocity_y: Decimal::zero(),
                old_math: false,
            },
            86 => Mechanic::MatchRotation { target: String::new() },
            87 => Mechanic::Message { message: String::new(), audience: String::new() },
            88 => Mechanic::ModifyDamage {
                amount: Decimal::zero(),
                damage_type: String::new(),
                action: String::new(),
            },
            89 => Mechanic::ModifyGlobalScore {
                objective: String::new(),
                action: String::new(),
                value: Decimal::zero(),
            },
            90 => Mechanic::ModifyTargetScore {
                objective: String::new(),
                action: String::new(),
                value: Decimal::zero(),
            },
            91 => Mechanic::ModifyMobScore {
                objective: String::new(),
                action: String::new(),
                value: Decimal::zero(),
            },
            92 => Mechanic::ModifyScore {
                objective: String::new(),
                action: String::new(),
                value: Decimal::zero(),
            },
            93 => Mechanic::Mount { entity: String::new() },
            94 => Mechanic::MountMe { entity: String::new() },
            95 => Mechanic::MountTarget { entity: String::new() },
            96 => Mechanic::MovePin { x: Decimal::zero(), y: Decimal::zero(), z: Decimal::zero() },
            97 => Mechanic::OpenTrades,
            98 => Mechanic::Oxygen { amount: 0 },
            99 => Mechanic::Particle {
                particle: String::new(),
                amount: 0,
                speed: Decimal::zero(),
                x: Decimal::zero(),
                y: Decimal::zero(),
                z: Decimal::zero(),
            },
            100 => Mechanic::ParticleBox {
                particle: String::new(),
                amount: 0,
                speed: Decimal::zero(),
                x: Decimal::zero(),
                y: Decimal::zero(),
                z: Decimal::zero(),
                width: Decimal::zero(),
                height: Decimal::zero(),
            },
            101 => Mechanic::ParticleEquation {
                particle: String::new(),
                amount: 0,
                speed: Decimal::zero(),
                x: Decimal::zero(),
                y: Decimal::zero(),
                z: Decimal::zero(),
                equation: String::new(),
            },
            102 => Mechanic::ParticleLine {
                particle: String::new(),
                amount: 0,
                speed: Decimal::zero(),
                x: Decimal::zero(),
                y: Decimal::zero(),
                z: Decimal::zero(),
                length: Decimal::zero(),
            },
            103 => Mechanic::ParticleLineHelix {
                particle: String::new(),
                amount: 0,
                speed: Decimal::zero(),
                x: Decimal::zero(),
                y: Decimal::zero(),
                z: Decimal::zero(),
                length: Decimal::zero(),
                radius: Decimal::zero(),
            },
            104 => Mechanic::ParticleLineRing {
                particle: String::new(),
                amount: 0,
                speed: Decimal::zero(),
                x: Decimal::zero(),
                y: Decimal::zero(),
                z: Decimal::zero(),
                radius: Decimal::zero(),
            },
            105 => Mechanic::ParticleOrbital {
                particle: String::new(),
                amount: 0,
                speed: Decimal::zero(),
                x: Decimal::zero(),
                y: Decimal::zero(),
                z: Decimal::zero(),
                radius: Decimal::zero(),
            },
            106 => Mechanic::ParticleRing {
                particle: String::new(),
                amount: 0,
                speed: Decimal::zero(),
                x: Decimal::zero(),
                y: Decimal::zero(),
                z: Decimal::zero(),
                radius: Decimal::zero(),
            },
            107 => Mechanic::ParticleSphere {
                particle: String::new(),
                amount: 0,
                speed: Decimal::zero(),
                x: Decimal::zero(),
                y: Decimal::zero(),
                z: Decimal::zero(),
                radius: Decimal::zero(),
            },
            108 => Mechanic::ParticleTornado {
                particle: String::new(),
                amount: 0,
                speed: Decimal::zero(),
                x: Decimal::zero(),
                y: Decimal::zero(),
                z: Decimal::zero(),
                height: Decimal::zero(),
                radius: Decimal::zero(),
            },
            109 => Mechanic::Atom {
                particle: String::new(),
                amount: 0,
                speed: Decimal::zero(),
                x: Decimal::zero(),
                y: Decimal::zero(),
                z: Decimal::zero(),
                radius: Decimal::zero(),
            },
            110 => Mechanic::PickUpItem { item: String::new() },
            111 => Mechanic::PlayAnimation { animation: String::new() },
            112 => Mechanic::PlayBlockBreakSound { block: String::new() },
            113 => Mechanic::PlayBlockFallSound { block: String::new() },
            114 => Mechanic::PlayBlockHitSound { block: String::new() },
            115 => Mechanic::PlayBlockPlaceSound { block: String::new() },
            116 => Mechanic::PlayBlockStepSound { block: String::new() },
            117 => Mechanic::PoseArmorStand { pose: String::new() },
            118 => Mechanic::Potion { potion: String::new(), duration: 0, level: 0 },
            119 => Mechanic::PotionClear,
            120 => Mechanic::Prison,
            121 => Mechanic::PrintParentTree,
            122 => Mechanic::Propel { velocity: Decimal::zero() },
            123 => Mechanic::Pull { velocity: Decimal::zero() },
            124 => Mechanic::PushBlock { velocity: Decimal::zero() },
            125 => Mechanic::PushButton,
            126 => Mechanic::RayTrace,
            127 => Mechanic::RayTraceTo,
            128 => Mechanic::Rally { radius: Decimal::zero() },
            129 => Mechanic::RandomMessage { messages: RandomMessages::default() },
            130 => Mechanic::Recoil { velocity: Decimal::zero() },
            131 => Mechanic::Remount,
            132 => Mechanic::Remove,
            133 => Mechanic::RemoveHeldItem,
            134 => Mechanic::RemoveOwner,
            135 => Mechanic::ResetAI,
            136 => Mechanic::RotateTowards { target: String::new() },
            137 => Mechanic::RunAIGoalSelector,
            138 => Mechanic::RunAITargetSelector,
            139 => Mechanic::Saddle,
            140 => Mechanic::SendActionMessage { message: String::new() },
            141 => Mechanic::SendResourcePack { url: String::new() },
            142 => Mechanic::SendTitle {
                title: String::new(),
                subtitle: String::new(),
                fade_in: 0,
                stay: 0,
                fade_out: 0,
            },
            143 => Mechanic::SendToast { title: String::new(), message: String::new() },
            144 => Mechanic::SetAI { ai: String::new() },
            145 => Mechanic::SetBlockOpen { open: false },
            146 => Mechanic::SetBlockType { block: String::new() },
            147 => Mechanic::SetChunkForceLoaded { loaded: false },
            148 => Mechanic::SetCollidable { collidable: false },
            149 => Mechanic::SetDragonPodium { podium: false },
            150 => Mechanic::SetGameMode { gamemode: String::new() },
            151 => Mechanic::SetGliding { gliding: false },
            152 => Mechanic::SetGlobalScore {
                objective: String::new(),
                action: String::new(),
                value: Decimal::zero(),
            },
            153 => Mechanic::SetGravity { gravity: Decimal::zero() },
            154 => Mechanic::SetHealth { health: Decimal::zero() },
            155 => Mechanic::SetInteractionSize { width: Decimal::zero(), height: Decimal::zero() },
            156 => Mechanic::SetItemGroupCooldown { group: String::new(), cooldown: 0 },
            157 => Mechanic::SetDisplayEntityItem { item: String::new() },
            158 => Mechanic::SetLeashHolder { holder: String::new() },
            159 => Mechanic::SetLevel { level: 0 },
            160 => Mechanic::SetMaterialCooldown { material: String::new(), cooldown: 0 },
            161 => Mechanic::SetMaxHealth { health: Decimal::zero() },
            162 => Mechanic::SetMobColor { color: String::new() },
            163 => Mechanic::SetMobScore { objective: String::new(), score: 0 },
            164 => Mechanic::SetName { name: String::new() },
            165 => Mechanic::SetRaiderCanJoinRaid { can_join: false },
            166 => Mechanic::SetRaiderPatrolBlock { block: String::new() },
            167 => Mechanic::SetRaiderPatrolLeader { leader: String::new() },
            168 => Mechanic::SetFaction { faction: String::new() },
            169 => Mechanic::SetFlying { flying: false },
            170 => Mechanic::SetNoDamageTicks { ticks: 0 },
            171 => Mechanic::SetOwner { owner: String::new() },
            172 => Mechanic::SetParent { parent: String::new() },
            173 => Mechanic::SetPathfindingMalus { malus: Decimal::zero() },
            174 => Mechanic::SetPitch { pitch: Decimal::zero() },
            175 => Mechanic::SetPose { pose: String::new() },
            176 => Mechanic::SetRotation { yaw: Decimal::zero(), pitch: Decimal::zero() },
            177 => Mechanic::SetTarget { target: String::new() },
            178 => Mechanic::SetTargetScore { objective: String::new(), score: 0 },
            179 => Mechanic::SetTextDisplay { text: String::new() },
            180 => Mechanic::SetTongueTarget { target: String::new() },
            181 => Mechanic::SetScore { objective: String::new(), score: 0 },
            182 => Mechanic::SetSpeed { speed: Decimal::zero() },
            183 => Mechanic::SetStance { stance: String::new() },
            184 => Mechanic::Shield,
            185 => Mechanic::ShieldBreak,
            186 => Mechanic::ShieldPercent { percent: Decimal::zero() },
            187 => Mechanic::ShootFireball { velocity: Decimal::zero() },
            188 => Mechanic::ShootPotion { potion: String::new(), velocity: Decimal::zero() },
            189 => Mechanic::ShootSkull { velocity: Decimal::zero() },
            190 => Mechanic::ShootShulkerBullet { velocity: Decimal::zero() },
            191 => Mechanic::ShowEntity { entity: String::new() },
            192 => Mechanic::Signal { signal: String::new() },
            193 => Mechanic::Skybox { skybox: String::new() },
            194 => Mechanic::Smoke,
            195 => Mechanic::SmokeSwirl,
            196 => Mechanic::Sound {
                sound: String::new(),
                volume: Decimal::zero(),
                pitch: Decimal::zero(),
            },
            197 => Mechanic::StealItem { item: String::new() },
            198 => Mechanic::StopSound { sound: String::new() },
            199 => Mechanic::StopSoundWithCategory {
                sound: String::new(),
                sound_category: SoundCategory::Master,
            },
            200 => Mechanic::Speak {
                offset: Decimal::zero(),
                radius: 0,
                max_line_lenght: 0,
                line_prefix: String::new(),
                message: String::new(),
                chat_prefix: String::new(),
                duration: 0,
                send_chat_message: false,
            },
            201 => Mechanic::Spin { velocity: 0, aura: AuraMechanic::default() },
            202 => Mechanic::Spring { spring_type: SpringType::Water, duration: 0 },
            203 => Mechanic::Stun { duration: 0 },
            204 => Mechanic::StopUsingItem,
            205 => Mechanic::Suicide,
            206 => Mechanic::Summon { mob: String::new(), location: String::new() },
            207 => Mechanic::SummonAreaEffectCloud {
                particle: MythicOption::Absent,
                effect_type: MythicOption::Absent,
                potion_duration: MythicOption::Absent,
                level: MythicOption::Absent,
                duration: MythicOption::Absent,
                duration_reduction_on_use: MythicOption::Absent,
                radius: MythicOption::Absent,
                radius_reduction_on_use: MythicOption::Absent,
                radius_reduction_on_tick: MythicOption::Absent,
            },
            208 => Mechanic::SummonFallingBlock { material: String::new() },
            209 => Mechanic::SummonPassenger {
                passenger: String::new(),
                stack: MythicOption::Absent,
            },
            210 => Mechanic::Swap,
            211 => Mechanic::SwingOffHand,
            212 => Mechanic::AddTag(String::new()),
            213 => Mechanic::RemoveTag(String::new()),
            214 => Mechanic::TakeItem {
                item: String::new(),
                amount: 0,
                exact: MythicOption::Absent,
                vanilla_only: MythicOption::Absent,
            },
            215 => Mechanic::Taunt,
            216 => Mechanic::Teleport {
                spreadh: MythicOption::Absent,
                spreadv: MythicOption::Absent,
                preserve_pitch: MythicOption::Absent,
                preserve_yaw: MythicOption::Absent,
                safe_teleport: MythicOption::Absent,
            },
            217 => Mechanic::TeleportY { y: 0 },
            218 => Mechanic::TeleportIn {
                vector: MythicOption::Absent,
                yaw: MythicOption::Absent,
                target_as_origin: MythicOption::Absent,
            },
            219 => Mechanic::TeleportTo {
                location: Xyz::default(),
                world: String::new(),
                yaw: MythicOption::Absent,
                pitch: MythicOption::Absent,
                relative: MythicOption::Absent,
                target_as_origin: MythicOption::Absent,
            },
            220 => Mechanic::Time {
                mode: AddSetReset::Add,
                amount: 0,
                personal: MythicOption::Absent,
                relative: MythicOption::Absent,
            },
            221 => Mechanic::Threat { amount: 0, mode: MythicOption::Absent },
            222 => Mechanic::Throw {
                velocity: 0,
                velocity_y: 0,
                from_origin: MythicOption::Absent,
            },
            223 => Mechanic::ThunderLevel { level: ThunderLevel::Level0 },
            224 => Mechanic::ToggleLever {
                location: MythicOption::Absent,
                duration: 0,
                x: MythicOption::Absent,
                y: MythicOption::Absent,
                z: MythicOption::Absent,
            },
            225 => Mechanic::TogglePiston,
            226 => Mechanic::ToggleSitting(false),
            227 => Mechanic::TotemOfUndying { model: String::new() },
            228 => Mechanic::TrackLocation,
            229 => Mechanic::UndoPaste { paste_id: String::new() },
            230 => Mechanic::Velocity {
                mode: VelocityMode::SetTo,
                velocity_x: 0,
                velocity_y: 0,
                velocity_z: 0,
                relative: MythicOption::Absent,
            },
            231 => Mechanic::WolfSit(false),
            232 => Mechanic::WorldEditReplace { from: String::new(), to: String::new() },
            233 => Mechanic::Weather { weather_type: WeatherType::Sunny, duration: 0 },
            _ => Mechanic::AdditionalMecanics { mechanic_type: MechanicType::default() },
        }
    }

    /// Lists every mechanic once, in catalogue order, each with blank
    /// parameters.
    pub fn variants() -> (all: Vec<Mechanic>)
        ensures
            all@.len() == Mechanic::count(),
            forall|i: int|
                0 <= i < Mechanic::count() ==> (#[trigger] all@[i]).ordinal() == i
                    && all@[i].is_blank(),
    {
        let mut all: Vec<Mechanic> = Vec::new();
        let mut i: usize = 0;
        while i < 235
            invariant
                i <= Mechanic::count(),
                all@.len() == i,
                forall|j: int| 0 <= j < i ==> (#[trigger] all@[j]).ordinal() == j && all@[j].is_blank(),
            decreases Mechanic::count() - i,
        {
            all.push(Mechanic::from_ordinal(i));
            i = i + 1;
        }
        all
    }
}

} // verus!
