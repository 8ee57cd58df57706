//! The text of a mechanic.

use vstd::prelude::*;
use vstd::string::StringExecFns;
use crate::decimal::parse::lemma_value_of_decimal_text;
use crate::skill::mechanics::Mechanic;
use crate::text::decimal_text;
use crate::text::write_value;
use crate::text::Render;

verus! {

impl Mechanic {
    /// The keyword of the mechanic and, where it has one, its parameter
    /// block: the line without the dash in front.
    ///
    /// The block of a mechanic with parameters stands between single braces
    /// and holds every parameter once. Some mechanics without parameters carry
    /// an empty block, which is written with its braces doubled, as `{{}}`.
    pub open spec fn body_text(self) -> Seq<char> {
        match self {
            Mechanic::ActivateSpawner { spawner } => {
                "activatespawner{spawner="@ + spawner.text() + "}"@
            },
            Mechanic::AddTrade {
                action,
                slot,
                ingredient,
                ingredient_2,
                result,
                max_uses,
                experience_reward,
                villager_exp,
                price_multiplier,
                demand,
                special_price,
                ignore_discounts,
            } => {
                "addTrade{action="@ + action.text() + ";slot="@ + slot.text() + ";item1="@
                    + ingredient.text() + ingredient_2.text() + ";result="@ + result.text()
                    + max_uses.text() + experience_reward.text() + villager_exp.text()
                    + price_multiplier.text() + demand.text() + special_price.text()
                    + ignore_discounts.text() + "}"@
            },
            Mechanic::AnimateArmorStand { pose, speed, duration, ignore_empty, smart } => {
                "animateArmorStand{pose="@ + pose.text() + ";speed="@ + speed.text() + ";duration="@
                    + duration.text() + ";ignoreempty="@ + ignore_empty.text() + ";smart="@
                    + smart.text() + "}"@
            },
            Mechanic::ArmAnimation => "armAnimation @self"@,
            Mechanic::ArrowVolley {
                amount,
                spread,
                velocity,
                fire_ticks,
                remove_delay,
                can_pickup,
            } => {
                "arrowvolley{a="@ + amount.text() + ";s="@ + spread.text() + ";v="@
                    + velocity.text() + ";f="@ + fire_ticks.text() + ";rd="@ + remove_delay.text()
                    + ";pickup="@ + can_pickup.text() + "}"@
            },
            Mechanic::AuraRemove { aura_name, stacks } => {
                "auraremove{aura="@ + aura_name.text() + ";stacks="@ + stacks.text() + "}"@
            },
            Mechanic::BlackScreen { duration } => "blackscreen{d="@ + duration.text() + "}"@,
            Mechanic::BlockDestabilize => "blockdestabilize"@,
            Mechanic::BlockMask {
                material,
                radius,
                radius_y,
                noise,
                duration,
                shape,
                no_air,
                only_air,
                occlude,
            } => {
                "effect:blockmask{m="@ + material.text() + ";r="@ + radius.text() + ";ry="@
                    + radius_y.text() + ";n="@ + noise.text() + ";d="@ + duration.text() + ";s="@
                    + shape.text() + ";na="@ + no_air.text() + ";oa="@ + only_air.text() + ";occ="@
                    + occlude.text() + "}"@
            },
            Mechanic::BlockUnmask { radius, shape } => {
                "effect:blockunmask{r="@ + radius.text() + ";s="@ + shape.text() + "}"@
            },
            Mechanic::BlockPhysics => "blockphysics"@,
            Mechanic::BlockWave {
                material,
                radius,
                radius_y,
                duration,
                shape,
                velocity,
                horizontal_velocity,
                specific_velocities,
                velocity_x,
                velocity_y,
                velocity_z,
                noise,
                hide_source_block,
                ignore_air,
            } => {
                "blockwave{m="@ + material.text() + ";r="@ + radius.text() + ";ry="@
                    + radius_y.text() + ";d="@ + duration.text() + ";s="@ + shape.text() + ";v="@
                    + velocity.text() + ";vh="@ + horizontal_velocity.text() + ";sv="@
                    + specific_velocities.text() + ";vx="@ + velocity_x.text() + ";vy="@
                    + velocity_y.text() + ";vz="@ + velocity_z.text() + ";n="@ + noise.text()
                    + ";hsb="@ + hide_source_block.text() + ";ia="@ + ignore_air.text() + "}"@
            },
            Mechanic::BloodyScreen { duration, cancel } => {
                "effect:bloodyScreen{d="@ + duration.text() + ";c="@ + cancel.text() + "}"@
            },
            Mechanic::BoneMeal { block_face } => "bonemeal{bf="@ + block_face.text() + "}"@,
            Mechanic::BossBorder { radius } => "bossBorder{r="@ + radius.text() + "}"@,
            Mechanic::Bouncy { aura_name, on_bounce_skill, cancel_event } => {
                "bouncy{auraName="@ + aura_name.text() + ";onBounceSkill="@ + on_bounce_skill.text()
                    + ";ce="@ + cancel_event.text() + "}"@
            },
            Mechanic::BreakBlock { do_drops, do_effect, use_tool } => {
                "breakblock{d="@ + do_drops.text() + ";e="@ + do_effect.text() + ";t="@
                    + use_tool.text() + "}"@
            },
            Mechanic::BreakBlockAndGiveItem {
                do_drops,
                do_effect,
                use_tool,
                do_fake_looting,
                items,
            } => {
                "breakBlockAndGiveItem{d="@ + do_drops.text() + ";e="@ + do_effect.text() + ";t="@
                    + use_tool.text() + ";fl="@ + do_fake_looting.text() + ";i="@ + items.text()
                    + "}"@
            },
            Mechanic::ClearExperience => "clearexperience"@,
            Mechanic::ClearExperienceLevels => "clearexperiencelevels"@,
            Mechanic::GiveExperienceLevels { amount } => {
                "giveexperiencelevels{a="@ + amount.text() + "}"@
            },
            Mechanic::TakeExperienceLevels { amount } => {
                "takeexperiencelevels{a="@ + amount.text() + "}"@
            },
            Mechanic::CloseInventory => "closeinventory"@,
            Mechanic::Command { command, as_caster, as_op, as_target, require_target } => {
                "command{c="@ + command.text() + ";ac="@ + as_caster.text() + ";op="@ + as_op.text()
                    + ";at="@ + as_target.text() + ";rt="@ + require_target.text() + "}"@
            },
            Mechanic::Consume { damage, heal } => {
                "consume{d="@ + damage.text() + ";h="@ + heal.text() + "}"@
            },
            Mechanic::ConsumeSlot { slot, amount } => {
                "consumeslot{s="@ + slot.text() + ";a="@ + amount.text() + "}"@
            },
            Mechanic::DirectionalVelocity { yaw, pitch, velocity, mode } => {
                "directionalvelocity{yaw="@ + yaw.text() + ";pitch="@ + pitch.text() + ";v="@
                    + velocity.text() + ";m="@ + mode.text() + "}"@
            },
            Mechanic::Disengage { velocity, velocity_y } => {
                "disengage{v="@ + velocity.text() + ";vy="@ + velocity_y.text() + "}"@
            },
            Mechanic::Disguise { disguise } => "disguise{d="@ + disguise.text() + "}"@,
            Mechanic::DisguiseModify { disguise } => "disguisemodify{d="@ + disguise.text() + "}"@,
            Mechanic::DisguiseTarget { disguise } => "disguisetarget{d="@ + disguise.text() + "}"@,
            Mechanic::Undisguise => "undisguise"@,
            Mechanic::Dismount => "dismount"@,
            Mechanic::DisplayTransformation { action, transformation_type, value } => {
                "displaytransformation{a="@ + action.text() + ";tt="@ + transformation_type.text()
                    + ";val="@ + value.text() + "}"@
            },
            Mechanic::ClearThreat => "clearThreat"@,
            Mechanic::CurrencyGive { amount } => "currencygive{a="@ + amount.text() + "}"@,
            Mechanic::CurrencyTake { amount } => "currencytake{a="@ + amount.text() + "}"@,
            Mechanic::Damage {
                amount,
                ignore_armor,
                prevent_knockback,
                prevent_immunity,
                damage_cause,
                ignore_enchantments,
                no_anger,
                ignore_invulnerability,
                ignore_shield,
                damage_helmet,
                ignore_effects,
                ignore_resistance,
                power_affects_damage,
                tags,
                raw_tags,
                element,
                trigger_skills,
            } => {
                "damage{a="@ + amount.text() + ";ia="@ + ignore_armor.text() + ";pkb="@
                    + prevent_knockback.text() + ";pi="@ + prevent_immunity.text() + ";dc="@
                    + damage_cause.text() + ";ie="@ + ignore_enchantments.text() + ";na="@
                    + no_anger.text() + ";ii="@ + ignore_invulnerability.text() + ";is="@
                    + ignore_shield.text() + ";dh="@ + damage_helmet.text() + ";ieff="@
                    + ignore_effects.text() + ";ir="@ + ignore_resistance.text() + ";pad="@
                    + power_affects_damage.text() + ";tags="@ + tags.text() + ";rtag="@
                    + raw_tags.text() + ";e="@ + element.text() + ";ts="@ + trigger_skills.text()
                    + "}"@
            },
            Mechanic::BaseDamage { multiplier, use_attribute } => {
                "basedamage{m="@ + multiplier.text() + ";attr="@ + use_attribute.text() + "}"@
            },
            Mechanic::PercentDamage { percent, current_health } => {
                "percentdamage{p="@ + percent.text() + ";c="@ + current_health.text() + "}"@
            },
            Mechanic::Decapitate => "decapitate"@,
            Mechanic::Doppleganger { has_nameplate, use_player_name } => {
                "doppleganger{nameplate="@ + has_nameplate.text() + ";upn="@
                    + use_player_name.text() + "}"@
            },
            Mechanic::DropItem { items, naturally, on_drop_skill } => {
                "dropitem{i="@ + items.text() + ";n="@ + naturally.text() + ";onDrop="@
                    + on_drop_skill.text() + "}"@
            },
            Mechanic::EjectPassenger => "ejectpassenger"@,
            Mechanic::Ender => "ender"@,
            Mechanic::EnderBeam { duration, y_offset } => {
                "effect:enderbeam{d="@ + duration.text() + ";y="@ + y_offset.text() + "}"@
            },
            Mechanic::EnderDragonResetCrystals => "enderDragonResetCrystals"@,
            Mechanic::EnderDragonSetPhase { phase } => {
                "enderDragonSetPhase{p="@ + phase.text() + "}"@
            },
            Mechanic::EnderDragonSetRespawnPhase { phase } => {
                "enderDragonSetRespawnPhase{p="@ + phase.text() + "}"@
            },
            Mechanic::EnderDragonSpawnPortal { with_portals } => {
                "enderDragonSpawnPortal{wp="@ + with_portals.text() + "}"@
            },
            Mechanic::Equip { item } => "equip{item="@ + item.text() + "}"@,
            Mechanic::EquipCopy { slots } => "equipcopy{s="@ + slots.text() + "}"@,
            Mechanic::Explosion { power_explosion, block_damage, fire } => {
                "explosion{y="@ + power_explosion.text() + ";bd="@ + block_damage.text() + ";f="@
                    + fire.text() + "}"@
            },
            Mechanic::FakeExplosion => "fakeexplosion"@,
            Mechanic::Extinguish => "extinguish"@,
            Mechanic::FawePaste {
                schematic,
                paste_id,
                paste_air,
                x_offset,
                y_offset,
                z_offset,
                rotation,
                center,
                chest_drop_table,
                trap_chest_drop_table,
                blocks_per_tick,
                duration,
            } => {
                "fawePaste{s="@ + schematic.text() + ";pid="@ + paste_id.text() + ";a="@
                    + paste_air.text() + ";x="@ + x_offset.text() + ";y="@ + y_offset.text()
                    + ";z="@ + z_offset.text() + ";rot="@ + rotation.text() + ";c="@ + center.text()
                    + ";cdt="@ + chest_drop_table.text() + ";tcdt="@ + trap_chest_drop_table.text()
                    + ";bpt="@ + blocks_per_tick.text() + ";d="@ + duration.text() + "}"@
            },
            Mechanic::Feed { amount, saturation, overfeed } => {
                "feed{a="@ + amount.text() + ";s="@ + saturation.text() + ";o="@ + overfeed.text()
                    + "}"@
            },
            Mechanic::FillChest { items, should_stack, should_empty } => {
                "fillchest{i="@ + items.text() + ";stack="@ + should_stack.text() + ";empty="@
                    + should_empty.text() + "}"@
            },
            Mechanic::Firework { firework_type, power, flicker, trail, colors, fade_colors } => {
                "effect:firework{t="@ + firework_type.text() + ";p="@ + power.text() + ";f="@
                    + flicker.text() + ";tr="@ + trail.text() + ";c="@ + colors.text() + ";fc="@
                    + fade_colors.text() + "}"@
            },
            Mechanic::Flames => "flames"@,
            Mechanic::Fly => "fly"@,
            Mechanic::ForcePull { spread, v_spread } => {
                "forcepull{s="@ + spread.text() + ";vs="@ + v_spread.text() + "}"@
            },
            Mechanic::Freeze { ticks } => "freeze{t="@ + ticks.text() + "}"@,
            Mechanic::Geyser { liquid_type, height, interval } => {
                "geyser{t="@ + liquid_type.text() + ";h="@ + height.text() + ";i="@
                    + interval.text() + "}"@
            },
            Mechanic::GiveItem { item, fake_looting } => {
                "giveitem{i="@ + item.text() + ";fl="@ + fake_looting.text() + "}"@
            },
            Mechanic::GiveItemFromSlot { slot, fake_looting } => {
                "giveitemfromslot{s="@ + slot.text() + ";fl="@ + fake_looting.text() + "}"@
            },
            Mechanic::GiveItemFromTarget { item, fake_looting } => {
                "giveitemfromtarget{i="@ + item.text() + ";fl="@ + fake_looting.text() + "}"@
            },
            Mechanic::Glow { color } => "effect:glow{color="@ + color.text() + "}"@,
            Mechanic::GoatRam => "goatram"@,
            Mechanic::GoTo { speed, spread_h, spread_v } => {
                "goto{s="@ + speed.text() + ";sh="@ + spread_h.text() + ";sv="@ + spread_v.text()
                    + "}"@
            },
            Mechanic::GuardianBeam {
                duration,
                interval,
                start_y_offset,
                target_y_offset,
                from_origin,
                on_start_skill,
                on_tick_skill,
                on_end_skill,
            } => {
                "guardianbeam{d="@ + duration.text() + ";i="@ + interval.text() + ";syo="@
                    + start_y_offset.text() + ";tyo="@ + target_y_offset.text() + ";fo="@
                    + from_origin.text() + ";oS="@ + on_start_skill.text() + ";oT="@
                    + on_tick_skill.text() + ";oE="@ + on_end_skill.text() + "}"@
            },
            Mechanic::Heal { amount, overheal, max_overheal } => {
                "heal{a="@ + amount.text() + ";oh="@ + overheal.text() + ";mo="@
                    + max_overheal.text() + "}"@
            },
            Mechanic::HealPercent { multiplier, overheal, max_overheal } => {
                "healpercent{m="@ + multiplier.text() + ";oh="@ + overheal.text() + ";mo="@
                    + max_overheal.text() + "}"@
            },
            Mechanic::Hide { ignore_aura_options } => {
                "hide{ignoreAuraOptions="@ + ignore_aura_options.text() + "}"@
            },
            Mechanic::Hit { multiplier, forced_damage, trigger_skills, scale_by_attack_cooldown } => {
                "hit{m="@ + multiplier.text() + ";fd="@ + forced_damage.text() + ";ts="@
                    + trigger_skills.text() + ";sbac="@ + scale_by_attack_cooldown.text() + "}"@
            },
            Mechanic::Hologram { text, stay } => {
                "holo{text="@ + text.text() + ";time="@ + stay.text() + "}"@
            },
            Mechanic::Ignite { ticks } => "ignite{t="@ + ticks.text() + "}"@,
            Mechanic::ItemSpray {
                items,
                amount,
                duration,
                radius,
                velocity,
                y_velocity,
                y_offset,
                allow_pickup,
                gravity,
            } => {
                "itemspray{i="@ + items.text() + ";a="@ + amount.text() + ";d="@ + duration.text()
                    + ";r="@ + radius.text() + ";v="@ + velocity.text() + ";yv="@
                    + y_velocity.text() + ";yo="@ + y_offset.text() + ";ap="@ + allow_pickup.text()
                    + ";g="@ + gravity.text() + "}"@
            },
            Mechanic::JSONMessage { message } => "jsonmessage{m="@ + message.text() + "}"@,
            Mechanic::Jump { velocity } => "jump{v="@ + velocity.text() + "}"@,
            Mechanic::Leap { velocity, noise } => {
                "leap{v="@ + velocity.text() + ";n="@ + noise.text() + "}"@
            },
            Mechanic::Lightning { damage } => "lightning{damage="@ + damage.text() + "}"@,
            Mechanic::FakeLightning { localized, localized_radius } => {
                "fakelightning{localized="@ + localized.text() + ";localizedradius="@
                    + localized_radius.text() + "}"@
            },
            Mechanic::Log { message } => "log{message="@ + message.text() + "}"@,
            Mechanic::Look { head_only, force, force_paper, immediately } => {
                "look{headOnly="@ + head_only.text() + ";force="@ + force.text() + ";forcepaper="@
                    + force_paper.text() + ";immediately="@ + immediately.text() + "}"@
            },
            Mechanic::Lunge { velocity, velocity_y, old_math } => {
                "lunge{velocity="@ + velocity.text() + ";velocityY="@ + velocity_y.text()
                    + ";oldmath="@ + old_math.text() + "}"@
            },
            Mechanic::MatchRotation { target } => "matchrotation{target="@ + target.text() + "}"@,
            Mechanic::Message { message, audience } => {
                "message{message="@ + message.text() + ";audience="@ + audience.text() + "}"@
            },
            Mechanic::ModifyDamage { amount, damage_type, action } => {
                "modifyDamage{amount="@ + amount.text() + ";damagetype="@ + damage_type.text()
                    + ";action="@ + action.text() + "}"@
            },
            Mechanic::ModifyGlobalScore { objective, action, value } => {
                "modifyglobalscore{objective="@ + objective.text() + ";action="@ + action.text()
                    + ";value="@ + value.text() + "}"@
            },
            Mechanic::ModifyTargetScore { objective, action, value } => {
                "modifytargetscore{objective="@ + objective.text() + ";action="@ + action.text()
                    + ";value="@ + value.text() + "}"@
            },
            Mechanic::ModifyMobScore { objective, action, value } => {
                "modifymobscore{objective="@ + objective.text() + ";action="@ + action.text()
                    + ";value="@ + value.text() + "}"@
            },
            Mechanic::ModifyScore { objective, action, value } => {
                "modifyscore{objective="@ + objective.text() + ";action="@ + action.text()
                    + ";value="@ + value.text() + "}"@
            },
            Mechanic::Mount { entity } => "mount{entity="@ + entity.text() + "}"@,
            Mechanic::MountMe { entity } => "mountme{entity="@ + entity.text() + "}"@,
            Mechanic::MountTarget { entity } => "mounttarget{entity="@ + entity.text() + "}"@,
            Mechanic::MovePin { x, y, z } => {
                "movepin{x="@ + x.text() + ";y="@ + y.text() + ";z="@ + z.text() + "}"@
            },
            Mechanic::OpenTrades => "opentrades{{}}"@,
            Mechanic::Oxygen { amount } => "oxygen{amount="@ + amount.text() + "}"@,
            Mechanic::Particle { particle, amount, speed, x, y, z } => {
                "particle{particle="@ + particle.text() + ";amount="@ + amount.text() + ";speed="@
                    + speed.text() + ";x="@ + x.text() + ";y="@ + y.text() + ";z="@ + z.text()
                    + "}"@
            },
            Mechanic::ParticleBox { particle, amount, speed, x, y, z, width, height } => {
                "particlebox{particle="@ + particle.text() + ";amount="@ + amount.text()
                    + ";speed="@ + speed.text() + ";x="@ + x.text() + ";y="@ + y.text() + ";z="@
                    + z.text() + ";width="@ + width.text() + ";height="@ + height.text() + "}"@
            },
            Mechanic::ParticleEquation { particle, amount, speed, x, y, z, equation } => {
                "particleequation{particle="@ + particle.text() + ";amount="@ + amount.text()
                    + ";speed="@ + speed.text() + ";x="@ + x.text() + ";y="@ + y.text() + ";z="@
                    + z.text() + ";equation="@ + equation.text() + "}"@
            },
            Mechanic::ParticleLine { particle, amount, speed, x, y, z, length } => {
                "particleline{particle="@ + particle.text() + ";amount="@ + amount.text()
                    + ";speed="@ + speed.text() + ";x="@ + x.text() + ";y="@ + y.text() + ";z="@
                    + z.text() + ";length="@ + length.text() + "}"@
            },
            Mechanic::ParticleLineHelix { particle, amount, speed, x, y, z, length, radius } => {
                "particlelinehelix{particle="@ + particle.text() + ";amount="@ + amount.text()
                    + ";speed="@ + speed.text() + ";x="@ + x.text() + ";y="@ + y.text() + ";z="@
                    + z.text() + ";length="@ + length.text() + ";radius="@ + radius.text() + "}"@
            },
            Mechanic::ParticleLineRing { particle, amount, speed, x, y, z, radius } => {
                "particlelinering{particle="@ + particle.text() + ";amount="@ + amount.text()
                    + ";speed="@ + speed.text() + ";x="@ + x.text() + ";y="@ + y.text() + ";z="@
                    + z.text() + ";radius="@ + radius.text() + "}"@
            },
            Mechanic::ParticleOrbital { particle, amount, speed, x, y, z, radius } => {
                "particleorbital{particle="@ + particle.text() + ";amount="@ + amount.text()
                    + ";speed="@ + speed.text() + ";x="@ + x.text() + ";y="@ + y.text() + ";z="@
                    + z.text() + ";radius="@ + radius.text() + "}"@
            },
            Mechanic::ParticleRing { particle, amount, speed, x, y, z, radius } => {
                "particlering{particle="@ + particle.text() + ";amount="@ + amount.text()
                    + ";speed="@ + speed.text() + ";x="@ + x.text() + ";y="@ + y.text() + ";z="@
                    + z.text() + ";radius="@ + radius.text() + "}"@
            },
            Mechanic::ParticleSphere { particle, amount, speed, x, y, z, radius } => {
                "particlesphere{particle="@ + particle.text() + ";amount="@ + amount.text()
                    + ";speed="@ + speed.text() + ";x="@ + x.text() + ";y="@ + y.text() + ";z="@
                    + z.text() + ";radius="@ + radius.text() + "}"@
            },
            Mechanic::ParticleTornado { particle, amount, speed, x, y, z, height, radius } => {
                "particletornado{particle="@ + particle.text() + ";amount="@ + amount.text()
                    + ";speed="@ + speed.text() + ";x="@ + x.text() + ";y="@ + y.text() + ";z="@
                    + z.text() + ";height="@ + height.text() + ";radius="@ + radius.text() + "}"@
            },
            Mechanic::Atom { particle, amount, speed, x, y, z, radius } => {
                "atom{particle="@ + particle.text() + ";amount="@ + amount.text() + ";speed="@
                    + speed.text() + ";x="@ + x.text() + ";y="@ + y.text() + ";z="@ + z.text()
                    + ";radius="@ + radius.text() + "}"@
            },
            Mechanic::PickUpItem { item } => "pickupitem{item="@ + item.text() + "}"@,
            Mechanic::PlayAnimation { animation } => {
                "playanimation{animation="@ + animation.text() + "}"@
            },
            Mechanic::PlayBlockBreakSound { block } => {
                "playblockbreaksound{block="@ + block.text() + "}"@
            },
            Mechanic::PlayBlockFallSound { block } => {
                "playblockfallsound{block="@ + block.text() + "}"@
            },
            Mechanic::PlayBlockHitSound { block } => {
                "playblockhitsound{block="@ + block.text() + "}"@
            },
            Mechanic::PlayBlockPlaceSound { block } => {
                "playblockplacesound{block="@ + block.text() + "}"@
            },
            Mechanic::PlayBlockStepSound { block } => {
                "playblockstepsound{block="@ + block.text() + "}"@
            },
            Mechanic::PoseArmorStand { pose } => "posearmorstand{pose="@ + pose.text() + "}"@,
            Mechanic::Potion { potion, duration, level } => {
                "potion{potion="@ + potion.text() + ";duration="@ + duration.text() + ";level="@
                    + level.text() + "}"@
            },
            Mechanic::PotionClear => "potionclear{{}}"@,
            Mechanic::Prison => "prison{{}}"@,
            Mechanic::PrintParentTree => "printparenttree{{}}"@,
            Mechanic::Propel { velocity } => "propel{velocity="@ + velocity.text() + "}"@,
            Mechanic::Pull { velocity } => "pull{velocity="@ + velocity.text() + "}"@,
            Mechanic::PushBlock { velocity } => "pushblock{velocity="@ + velocity.text() + "}"@,
            Mechanic::PushButton => "pushbutton{{}}"@,
            Mechanic::RayTrace => "raytrace{{}}"@,
            Mechanic::RayTraceTo => "raytraceto{{}}"@,
            Mechanic::Rally { radius } => "rally{radius="@ + radius.text() + "}"@,
            Mechanic::RandomMessage { messages } => {
                "randommessage{messages="@ + messages.text() + "}"@
            },
            Mechanic::Recoil { velocity } => "recoil{velocity="@ + velocity.text() + "}"@,
            Mechanic::Remount => "remount{{}}"@,
            Mechanic::Remove => "remove{{}}"@,
            Mechanic::RemoveHeldItem => "removehelditem{{}}"@,
            Mechanic::RemoveOwner => "removeowner{{}}"@,
            Mechanic::ResetAI => "resetai{{}}"@,
            Mechanic::RotateTowards { target } => "rotatetowards{target="@ + target.text() + "}"@,
            Mechanic::RunAIGoalSelector => "runaigoalselector{{}}"@,
            Mechanic::RunAITargetSelector => "runaitargetselector{{}}"@,
            Mechanic::Saddle => "saddle{{}}"@,
            Mechanic::SendActionMessage { message } => {
                "sendactionmessage{message="@ + message.text() + "}"@
            },
            Mechanic::SendResourcePack { url } => "sendresourcepack{url="@ + url.text() + "}"@,
            Mechanic::SendTitle { title, subtitle, fade_in, stay, fade_out } => {
                "sendtitle{title="@ + title.text() + ";subtitle="@ + subtitle.text() + ";fadein="@
                    + fade_in.text() + ";stay="@ + stay.text() + ";fadeout="@ + fade_out.text()
                    + "}"@
            },
            Mechanic::SendToast { title, message } => {
                "sendtoast{title="@ + title.text() + ";message="@ + message.text() + "}"@
            },
            Mechanic::SetAI { ai } => "setai{ai="@ + ai.text() + "}"@,
            Mechanic::SetBlockOpen { open } => "setblockopen{open="@ + open.text() + "}"@,
            Mechanic::SetBlockType { block } => "setblocktype{block="@ + block.text() + "}"@,
            Mechanic::SetChunkForceLoaded { loaded } => {
                "setchunkforceloaded{loaded="@ + loaded.text() + "}"@
            },
            Mechanic::SetCollidable { collidable } => {
                "setcollidable{collidable="@ + collidable.text() + "}"@
            },
            Mechanic::SetDragonPodium { podium } => {
                "setdragonpodium{podium="@ + podium.text() + "}"@
            },
            Mechanic::SetGameMode { gamemode } => "setgamemode{gamemode="@ + gamemode.text() + "}"@,
            Mechanic::SetGliding { gliding } => "setgliding{gliding="@ + gliding.text() + "}"@,
            Mechanic::SetGlobalScore { objective, action, value } => {
                "setglobalscore{objective="@ + objective.text() + ";action="@ + action.text()
                    + ";value="@ + value.text() + "}"@
            },
            Mechanic::SetGravity { gravity } => "setgravity{gravity="@ + gravity.text() + "}"@,
            Mechanic::SetHealth { health } => "sethealth{health="@ + health.text() + "}"@,
            Mechanic::SetInteractionSize { width, height } => {
                "setinteractionsize{width="@ + width.text() + ";height="@ + height.text() + "}"@
            },
            Mechanic::SetItemGroupCooldown { group, cooldown } => {
                "setitemgroupcooldown{group="@ + group.text() + ";cooldown="@ + cooldown.text()
                    + "}"@
            },
            Mechanic::SetDisplayEntityItem { item } => {
                "setdisplayentityitem{item="@ + item.text() + "}"@
            },
            Mechanic::SetLeashHolder { holder } => "setleashholder{holder="@ + holder.text() + "}"@,
            Mechanic::SetLevel { level } => "setlevel{level="@ + level.text() + "}"@,
            Mechanic::SetMaterialCooldown { material, cooldown } => {
                "setmaterialcooldown{material="@ + material.text() + ";cooldown="@ + cooldown.text()
                    + "}"@
            },
            Mechanic::SetMaxHealth { health } => "setmaxhealth{health="@ + health.text() + "}"@,
            Mechanic::SetMobColor { color } => "setmobcolor{color="@ + color.text() + "}"@,
            Mechanic::SetMobScore { objective, score } => {
                "setmobscore{objective="@ + objective.text() + ";score="@ + score.text() + "}"@
            },
            Mechanic::SetName { name } => "setname{name="@ + name.text() + "}"@,
            Mechanic::SetRaiderCanJoinRaid { can_join } => {
                "setraidercanjoinraid{can_join="@ + can_join.text() + "}"@
            },
            Mechanic::SetRaiderPatrolBlock { block } => {
                "setraiderpatrolblock{block="@ + block.text() + "}"@
            },
            Mechanic::SetRaiderPatrolLeader { leader } => {
                "setraiderpatrolleader{leader="@ + leader.text() + "}"@
            },
            Mechanic::SetFaction { faction } => "setfaction{faction="@ + faction.text() + "}"@,
            Mechanic::SetFlying { flying } => "setflying{flying="@ + flying.text() + "}"@,
            Mechanic::SetNoDamageTicks { ticks } => {
                "setnodamageticks{ticks="@ + ticks.text() + "}"@
            },
            Mechanic::SetOwner { owner } => "setowner{owner="@ + owner.text() + "}"@,
            Mechanic::SetParent { parent } => "setparent{parent="@ + parent.text() + "}"@,
            Mechanic::SetPathfindingMalus { malus } => {
                "setpathfindingmalus{malus="@ + malus.text() + "}"@
            },
            Mechanic::SetPitch { pitch } => "setpitch{pitch="@ + pitch.text() + "}"@,
            Mechanic::SetPose { pose } => "setpose{pose="@ + pose.text() + "}"@,
            Mechanic::SetRotation { yaw, pitch } => {
                "setrotation{yaw="@ + yaw.text() + ";pitch="@ + pitch.text() + "}"@
            },
            Mechanic::SetTarget { target } => "settarget{target="@ + target.text() + "}"@,
            Mechanic::SetTargetScore { objective, score } => {
                "settargetscore{objective="@ + objective.text() + ";score="@ + score.text() + "}"@
            },
            Mechanic::SetTextDisplay { text } => "settextdisplay{text="@ + text.text() + "}"@,
            Mechanic::SetTongueTarget { target } => {
                "settonguetarget{target="@ + target.text() + "}"@
            },
            Mechanic::SetScore { objective, score } => {
                "setscore{objective="@ + objective.text() + ";score="@ + score.text() + "}"@
            },
            Mechanic::SetSpeed { speed } => "setspeed{speed="@ + speed.text() + "}"@,
            Mechanic::SetStance { stance } => "setstance{stance="@ + stance.text() + "}"@,
            Mechanic::Shield => "shield{{}}"@,
            Mechanic::ShieldBreak => "shieldbreak{{}}"@,
            Mechanic::ShieldPercent { percent } => {
                "shieldpercent{percent="@ + percent.text() + "}"@
            },
            Mechanic::ShootFireball { velocity } => {
                "shootfireball{velocity="@ + velocity.text() + "}"@
            },
            Mechanic::ShootPotion { potion, velocity } => {
                "shootpotion{potion="@ + potion.text() + ";velocity="@ + velocity.text() + "}"@
            },
            Mechanic::ShootSkull { velocity } => "shootskull{velocity="@ + velocity.text() + "}"@,
            Mechanic::ShootShulkerBullet { velocity } => {
                "shootshulkerbullet{velocity="@ + velocity.text() + "}"@
            },
            Mechanic::ShowEntity { entity } => "showentity{entity="@ + entity.text() + "}"@,
            Mechanic::Signal { signal } => "signal{signal="@ + signal.text() + "}"@,
            Mechanic::Skybox { skybox } => "skybox{skybox="@ + skybox.text() + "}"@,
            Mechanic::Smoke => "smoke{{}}"@,
            Mechanic::SmokeSwirl => "smokeswirl{{}}"@,
            Mechanic::Sound { sound, volume, pitch } => {
                "sound{sound="@ + sound.text() + ";volume="@ + volume.text() + ";pitch="@
                    + pitch.text() + "}"@
            },
            Mechanic::StealItem { item } => "stealitem{item="@ + item.text() + "}"@,
            Mechanic::StopSound { sound } => "stopsound{s="@ + sound.text() + "}"@,
            Mechanic::StopSoundWithCategory { sound, sound_category } => {
                "stopsound{s="@ + sound.text() + ";source="@ + sound_category.text() + "}"@
            },
            Mechanic::Speak {
                offset,
                radius,
                max_line_lenght,
                line_prefix,
                message,
                chat_prefix,
                duration,
                send_chat_message,
            } => {
                "speak{offset="@ + offset.text() + ";radius="@ + radius.text() + ";maxlinelength="@
                    + max_line_lenght.text() + ";lineprefix="@ + line_prefix.text() + ";message="@
                    + message.text() + ";chatprefix="@ + chat_prefix.text() + ";duration="@
                    + duration.text() + ";sendchatmessage="@ + send_chat_message.text() + "}"@
            },
            Mechanic::Spin { velocity, aura } => {
                "spin{velocity="@ + velocity.text() + ";"@ + aura.text() + "}"@
            },
            Mechanic::Spring { spring_type, duration } => {
                "spring{type="@ + spring_type.text() + ";duration="@ + duration.text() + "}"@
            },
            Mechanic::Stun { duration } => "stun{duration="@ + duration.text() + "}"@,
            Mechanic::StopUsingItem => "stopusingitem"@,
            Mechanic::Suicide => "suicide"@,
            Mechanic::Summon { mob, location } => {
                "summon{mob="@ + mob.text() + ";location="@ + location.text() + "}"@
            },
            Mechanic::SummonAreaEffectCloud {
                particle,
                effect_type,
                potion_duration,
                level,
                duration,
                duration_reduction_on_use,
                radius,
                radius_reduction_on_use,
                radius_reduction_on_tick,
            } => {
                "summonareaeffectcloud{"@ + particle.text() + effect_type.text()
                    + potion_duration.text() + level.text() + duration.text()
                    + duration_reduction_on_use.text() + radius.text()
                    + radius_reduction_on_use.text() + radius_reduction_on_tick.text() + "}"@
            },
            Mechanic::SummonFallingBlock { material } => {
                "summonfallingblock{m="@ + material.text() + "}"@
            },
            Mechanic::SummonPassenger { passenger, stack } => {
                "summonpassenger{type="@ + passenger.text() + stack.text() + "}"@
            },
            Mechanic::Swap => "swap"@,
            Mechanic::SwingOffHand => "swingoffhand"@,
            Mechanic::AddTag(tag) => "addtag{t="@ + tag.text() + "}"@,
            Mechanic::RemoveTag(tag) => "removetag{t="@ + tag.text() + "}"@,
            Mechanic::TakeItem { item, amount, exact, vanilla_only } => {
                "takeitem{i="@ + item.text() + ";a="@ + amount.text() + exact.text()
                    + vanilla_only.text() + "}"@
            },
            Mechanic::Taunt => "taunt"@,
            Mechanic::Teleport { spreadh, spreadv, preserve_pitch, preserve_yaw, safe_teleport } => {
                "teleport{"@ + spreadh.text() + spreadv.text() + preserve_pitch.text()
                    + preserve_yaw.text() + safe_teleport.text() + "}"@
            },
            Mechanic::TeleportY { y } => "teleport{y="@ + y.text() + "}"@,
            Mechanic::TeleportIn { vector, yaw, target_as_origin } => {
                "teleportin{"@ + vector.text() + yaw.text() + target_as_origin.text() + "}"@
            },
            Mechanic::TeleportTo { location, world, yaw, pitch, relative, target_as_origin } => {
                "teleportto{loc="@ + location.text() + ";w="@ + world.text() + yaw.text()
                    + pitch.text() + relative.text() + target_as_origin.text() + "}"@
            },
            Mechanic::Time { mode, amount, personal, relative } => {
                "time{mode="@ + mode.text() + ";amount="@ + amount.text() + personal.text()
                    + relative.text() + "}"@
            },
            Mechanic::Threat { amount, mode } => {
                "threat{amount="@ + amount.text() + mode.text() + "}"@
            },
            Mechanic::Throw { velocity, velocity_y, from_origin } => {
                "throw{v="@ + velocity.text() + ";vy="@ + velocity_y.text() + from_origin.text()
                    + "}"@
            },
            Mechanic::ThunderLevel { level } => "thunderlevel{l="@ + level.text() + "}"@,
            Mechanic::ToggleLever { location, duration, x, y, z } => {
                "togglelever{duration="@ + duration.text() + ";"@ + location.text() + x.text()
                    + y.text() + z.text() + "}"@
            },
            Mechanic::TogglePiston => "togglepiston"@,
            Mechanic::ToggleSitting(state) => "sit{state="@ + state.text() + "}"@,
            Mechanic::TotemOfUndying { model } => "totemofundying{mode="@ + model.text() + "}"@,
            Mechanic::TrackLocation => "tracklocation"@,
            Mechanic::UndoPaste { paste_id } => "undopaste{id="@ + paste_id.text() + "}"@,
            Mechanic::Velocity { mode, velocity_x, velocity_y, velocity_z, relative } => {
                "velocity{m="@ + mode.text() + ";x="@ + velocity_x.text() + ";y="@
                    + velocity_y.text() + ";z="@ + velocity_z.text() + relative.text() + "}"@
            },
            Mechanic::WolfSit(state) => "wolfsit{state="@ + state.text() + "}"@,
            Mechanic::WorldEditReplace { from, to } => {
                "worldEditReplace{from="@ + from.text() + ";to="@ + to.text() + "}"@
            },
            Mechanic::Weather { weather_type, duration } => {
                "weather{type="@ + weather_type.text() + ";duration="@ + duration.text() + "}"@
            },
            Mechanic::AdditionalMecanics { mechanic_type } => mechanic_type.text(),
        }
    }

    /// Returns the keyword of the mechanic and its parameter block.
    pub fn render_body(&self) -> (out: String)
        ensures
            out@ == self.body_text(),
    {
        match self {
            Mechanic::ActivateSpawner { spawner } => {
                let mut out = String::from_str("activatespawner{spawner=");
                write_value(&mut out, spawner);
                out.append("}");
                out
            },
            Mechanic::AddTrade {
                action,
                slot,
                ingredient,
                ingredient_2,
                result,
                max_uses,
                experience_reward,
                villager_exp,
                price_multiplier,
                demand,
                special_price,
                ignore_discounts,
            } => {
                let mut out = String::from_str("addTrade{action=");
                write_value(&mut out, action);
                out.append(";slot=");
                write_value(&mut out, slot);
                out.append(";item1=");
                write_value(&mut out, ingredient);
                write_value(&mut out, ingredient_2);
                out.append(";result=");
                write_value(&mut out, result);
                write_value(&mut out, max_uses);
                write_value(&mut out, experience_reward);
                write_value(&mut out, villager_exp);
                write_value(&mut out, price_multiplier);
                write_value(&mut out, demand);
                write_value(&mut out, special_price);
                write_value(&mut out, ignore_discounts);
                out.append("}");
                out
            },
            Mechanic::AnimateArmorStand { pose, speed, duration, ignore_empty, smart } => {
                let mut out = String::from_str("animateArmorStand{pose=");
                write_value(&mut out, pose);
                out.append(";speed=");
                write_value(&mut out, speed);
                out.append(";duration=");
                write_value(&mut out, duration);
                out.append(";ignoreempty=");
                write_value(&mut out, ignore_empty);
                out.append(";smart=");
                write_value(&mut out, smart);
                out.append("}");
                out
            },
            Mechanic::ArmAnimation => String::from_str("armAnimation @self"),
            Mechanic::ArrowVolley {
                amount,
                spread,
                velocity,
                fire_ticks,
                remove_delay,
                can_pickup,
            } => {
                let mut out = String::from_str("arrowvolley{a=");
                write_value(&mut out, amount);
                out.append(";s=");
                write_value(&mut out, spread);
                out.append(";v=");
                write_value(&mut out, velocity);
                out.append(";f=");
                write_value(&mut out, fire_ticks);
                out.append(";rd=");
                write_value(&mut out, remove_delay);
                out.append(";pickup=");
                write_value(&mut out, can_pickup);
                out.append("}");
                out
            },
            Mechanic::AuraRemove { aura_name, stacks } => {
                let mut out = String::from_str("auraremove{aura=");
                write_value(&mut out, aura_name);
                out.append(";stacks=");
                write_value(&mut out, stacks);
                out.append("}");
                out
            },
            Mechanic::BlackScreen { duration } => {
                let mut out = String::from_str("blackscreen{d=");
                write_value(&mut out, duration);
                out.append("}");
                out
            },
            Mechanic::BlockDestabilize => String::from_str("blockdestabilize"),
            Mechanic::BlockMask {
                material,
                radius,
                radius_y,
                noise,
                duration,
                shape,
                no_air,
                only_air,
                occlude,
            } => {
                let mut out = String::from_str("effect:blockmask{m=");
                write_value(&mut out, material);
                out.append(";r=");
                write_value(&mut out, radius);
                out.append(";ry=");
                write_value(&mut out, radius_y);
                out.append(";n=");
                write_value(&mut out, noise);
                out.append(";d=");
                write_value(&mut out, duration);
                out.append(";s=");
                write_value(&mut out, shape);
                out.append(";na=");
                write_value(&mut out, no_air);
                out.append(";oa=");
                write_value(&mut out, only_air);
                out.append(";occ=");
                write_value(&mut out, occlude);
                out.append("}");
                out
            },
            Mechanic::BlockUnmask { radius, shape } => {
                let mut out = String::from_str("effect:blockunmask{r=");
                write_value(&mut out, radius);
                out.append(";s=");
                write_value(&mut out, shape);
                out.append("}");
                out
            },
            Mechanic::BlockPhysics => String::from_str("blockphysics"),
            Mechanic::BlockWave {
                material,
                radius,
                radius_y,
                duration,
                shape,
                velocity,
                horizontal_velocity,
                specific_velocities,
                velocity_x,
                velocity_y,
                velocity_z,
                noise,
                hide_source_block,
                ignore_air,
            } => {
                let mut out = String::from_str("blockwave{m=");
                write_value(&mut out, material);
                out.append(";r=");
                write_value(&mut out, radius);
                out.append(";ry=");
                write_value(&mut out, radius_y);
                out.append(";d=");
                write_value(&mut out, duration);
                out.append(";s=");
                write_value(&mut out, shape);
                out.append(";v=");
                write_value(&mut out, velocity);
                out.append(";vh=");
                write_value(&mut out, horizontal_velocity);
                out.append(";sv=");
                write_value(&mut out, specific_velocities);
                out.append(";vx=");
                write_value(&mut out, velocity_x);
                out.append(";vy=");
                write_value(&mut out, velocity_y);
                out.append(";vz=");
                write_value(&mut out, velocity_z);
                out.append(";n=");
                write_value(&mut out, noise);
                out.append(";hsb=");
                write_value(&mut out, hide_source_block);
                out.append(";ia=");
                write_value(&mut out, ignore_air);
                out.append("}");
                out
            },
            Mechanic::BloodyScreen { duration, cancel } => {
                let mut out = String::from_str("effect:bloodyScreen{d=");
                write_value(&mut out, duration);
                out.append(";c=");
                write_value(&mut out, cancel);
                out.append("}");
                out
            },
            Mechanic::BoneMeal { block_face } => {
                let mut out = String::from_str("bonemeal{bf=");
                write_value(&mut out, block_face);
                out.append("}");
                out
            },
            Mechanic::BossBorder { radius } => {
                let mut out = String::from_str("bossBorder{r=");
                write_value(&mut out, radius);
                out.append("}");
                out
            },
            Mechanic::Bouncy { aura_name, on_bounce_skill, cancel_event } => {
                let mut out = String::from_str("bouncy{auraName=");
                write_value(&mut out, aura_name);
                out.append(";onBounceSkill=");
                write_value(&mut out, on_bounce_skill);
                out.append(";ce=");
                write_value(&mut out, cancel_event);
                out.append("}");
                out
            },
            Mechanic::BreakBlock { do_drops, do_effect, use_tool } => {
                let mut out = String::from_str("breakblock{d=");
                write_value(&mut out, do_drops);
                out.append(";e=");
                write_value(&mut out, do_effect);
                out.append(";t=");
                write_value(&mut out, use_tool);
                out.append("}");
                out
            },
            Mechanic::BreakBlockAndGiveItem {
                do_drops,
                do_effect,
                use_tool,
                do_fake_looting,
                items,
            } => {
                let mut out = String::from_str("breakBlockAndGiveItem{d=");
                write_value(&mut out, do_drops);
                out.append(";e=");
                write_value(&mut out, do_effect);
                out.append(";t=");
                write_value(&mut out, use_tool);
                out.append(";fl=");
                write_value(&mut out, do_fake_looting);
                out.append(";i=");
                write_value(&mut out, items);
                out.append("}");
                out
            },
            Mechanic::ClearExperience => String::from_str("clearexperience"),
            Mechanic::ClearExperienceLevels => String::from_str("clearexperiencelevels"),
            Mechanic::GiveExperienceLevels { amount } => {
                let mut out = String::from_str("giveexperiencelevels{a=");
                write_value(&mut out, amount);
                out.append("}");
                out
            },
            Mechanic::TakeExperienceLevels { amount } => {
                let mut out = String::from_str("takeexperiencelevels{a=");
                write_value(&mut out, amount);
                out.append("}");
                out
            },
            Mechanic::CloseInventory => String::from_str("closeinventory"),
            Mechanic::Command { command, as_caster, as_op, as_target, require_target } => {
                let mut out = String::from_str("command{c=");
                write_value(&mut out, command);
                out.append(";ac=");
                write_value(&mut out, as_caster);
                out.append(";op=");
                write_value(&mut out, as_op);
                out.append(";at=");
                write_value(&mut out, as_target);
                out.append(";rt=");
                write_value(&mut out, require_target);
                out.append("}");
                out
            },
            Mechanic::Consume { damage, heal } => {
                let mut out = String::from_str("consume{d=");
                write_value(&mut out, damage);
                out.append(";h=");
                write_value(&mut out, heal);
                out.append("}");
                out
            },
            Mechanic::ConsumeSlot { slot, amount } => {
                let mut out = String::from_str("consumeslot{s=");
                write_value(&mut out, slot);
                out.append(";a=");
                write_value(&mut out, amount);
                out.append("}");
                out
            },
            Mechanic::DirectionalVelocity { yaw, pitch, velocity, mode } => {
                let mut out = String::from_str("directionalvelocity{yaw=");
                write_value(&mut out, yaw);
                out.append(";pitch=");
                write_value(&mut out, pitch);
                out.append(";v=");
                write_value(&mut out, velocity);
                out.append(";m=");
                write_value(&mut out, mode);
                out.append("}");
                out
            },
            Mechanic::Disengage { velocity, velocity_y } => {
                let mut out = String::from_str("disengage{v=");
                write_value(&mut out, velocity);
                out.append(";vy=");
                write_value(&mut out, velocity_y);
                out.append("}");
                out
            },
            Mechanic::Disguise { disguise } => {
                let mut out = String::from_str("disguise{d=");
                write_value(&mut out, disguise);
                out.append("}");
                out
            },
            Mechanic::DisguiseModify { disguise } => {
                let mut out = String::from_str("disguisemodify{d=");
                write_value(&mut out, disguise);
                out.append("}");
                out
            },
            Mechanic::DisguiseTarget { disguise } => {
                let mut out = String::from_str("disguisetarget{d=");
                write_value(&mut out, disguise);
                out.append("}");
                out
            },
            Mechanic::Undisguise => String::from_str("undisguise"),
            Mechanic::Dismount => String::from_str("dismount"),
            Mechanic::DisplayTransformation { action, transformation_type, value } => {
                let mut out = String::from_str("displaytransformation{a=");
                write_value(&mut out, action);
                out.append(";tt=");
                write_value(&mut out, transformation_type);
                out.append(";val=");
                write_value(&mut out, value);
                out.append("}");
                out
            },
            Mechanic::ClearThreat => String::from_str("clearThreat"),
            Mechanic::CurrencyGive { amount } => {
                let mut out = String::from_str("currencygive{a=");
                write_value(&mut out, amount);
                out.append("}");
                out
            },
            Mechanic::CurrencyTake { amount } => {
                let mut out = String::from_str("currencytake{a=");
                write_value(&mut out, amount);
                out.append("}");
                out
            },
            Mechanic::Damage {
                amount,
                ignore_armor,
                prevent_knockback,
                prevent_immunity,
                damage_cause,
                ignore_enchantments,
                no_anger,
                ignore_invulnerability,
                ignore_shield,
                damage_helmet,
                ignore_effects,
                ignore_resistance,
                power_affects_damage,
                tags,
                raw_tags,
                element,
                trigger_skills,
            } => {
                let mut out = String::from_str("damage{a=");
                write_value(&mut out, amount);
                out.append(";ia=");
                write_value(&mut out, ignore_armor);
                out.append(";pkb=");
                write_value(&mut out, prevent_knockback);
                out.append(";pi=");
                write_value(&mut out, prevent_immunity);
                out.append(";dc=");
                write_value(&mut out, damage_cause);
                out.append(";ie=");
                write_value(&mut out, ignore_enchantments);
                out.append(";na=");
                write_value(&mut out, no_anger);
                out.append(";ii=");
                write_value(&mut out, ignore_invulnerability);
                out.append(";is=");
                write_value(&mut out, ignore_shield);
                out.append(";dh=");
                write_value(&mut out, damage_helmet);
                out.append(";ieff=");
                write_value(&mut out, ignore_effects);
                out.append(";ir=");
                write_value(&mut out, ignore_resistance);
                out.append(";pad=");
                write_value(&mut out, power_affects_damage);
                out.append(";tags=");
                write_value(&mut out, tags);
                out.append(";rtag=");
                write_value(&mut out, raw_tags);
                out.append(";e=");
                write_value(&mut out, element);
                out.append(";ts=");
                write_value(&mut out, trigger_skills);
                out.append("}");
                out
            },
            Mechanic::BaseDamage { multiplier, use_attribute } => {
                let mut out = String::from_str("basedamage{m=");
                write_value(&mut out, multiplier);
                out.append(";attr=");
                write_value(&mut out, use_attribute);
                out.append("}");
                out
            },
            Mechanic::PercentDamage { percent, current_health } => {
                let mut out = String::from_str("percentdamage{p=");
                write_value(&mut out, percent);
                out.append(";c=");
                write_value(&mut out, current_health);
                out.append("}");
                out
            },
            Mechanic::Decapitate => String::from_str("decapitate"),
            Mechanic::Doppleganger { has_nameplate, use_player_name } => {
                let mut out = String::from_str("doppleganger{nameplate=");
                write_value(&mut out, has_nameplate);
                out.append(";upn=");
                write_value(&mut out, use_player_name);
                out.append("}");
                out
            },
            Mechanic::DropItem { items, naturally, on_drop_skill } => {
                let mut out = String::from_str("dropitem{i=");
                write_value(&mut out, items);
                out.append(";n=");
                write_value(&mut out, naturally);
                out.append(";onDrop=");
                write_value(&mut out, on_drop_skill);
                out.append("}");
                out
            },
            Mechanic::EjectPassenger => String::from_str("ejectpassenger"),
            Mechanic::Ender => String::from_str("ender"),
            Mechanic::EnderBeam { duration, y_offset } => {
                let mut out = String::from_str("effect:enderbeam{d=");
                write_value(&mut out, duration);
                out.append(";y=");
                write_value(&mut out, y_offset);
                out.append("}");
                out
            },
            Mechanic::EnderDragonResetCrystals => String::from_str("enderDragonResetCrystals"),
            Mechanic::EnderDragonSetPhase { phase } => {
                let mut out = String::from_str("enderDragonSetPhase{p=");
                write_value(&mut out, phase);
                out.append("}");
                out
            },
            Mechanic::EnderDragonSetRespawnPhase { phase } => {
                let mut out = String::from_str("enderDragonSetRespawnPhase{p=");
                write_value(&mut out, phase);
                out.append("}");
                out
            },
            Mechanic::EnderDragonSpawnPortal { with_portals } => {
                let mut out = String::from_str("enderDragonSpawnPortal{wp=");
                write_value(&mut out, with_portals);
                out.append("}");
                out
            },
            Mechanic::Equip { item } => {
                let mut out = String::from_str("equip{item=");
                write_value(&mut out, item);
                out.append("}");
                out
            },
            Mechanic::EquipCopy { slots } => {
                let mut out = String::from_str("equipcopy{s=");
                write_value(&mut out, slots);
                out.append("}");
                out
            },
            Mechanic::Explosion { power_explosion, block_damage, fire } => {
                let mut out = String::from_str("explosion{y=");
                write_value(&mut out, power_explosion);
                out.append(";bd=");
                write_value(&mut out, block_damage);
                out.append(";f=");
                write_value(&mut out, fire);
                out.append("}");
                out
            },
            Mechanic::FakeExplosion => String::from_str("fakeexplosion"),
            Mechanic::Extinguish => String::from_str("extinguish"),
            Mechanic::FawePaste {
                schematic,
                paste_id,
                paste_air,
                x_offset,
                y_offset,
                z_offset,
                rotation,
                center,
                chest_drop_table,
                trap_chest_drop_table,
                blocks_per_tick,
                duration,
            } => {
                let mut out = String::from_str("fawePaste{s=");
                write_value(&mut out, schematic);
                out.append(";pid=");
                write_value(&mut out, paste_id);
                out.append(";a=");
                write_value(&mut out, paste_air);
                out.append(";x=");
                write_value(&mut out, x_offset);
                out.append(";y=");
                write_value(&mut out, y_offset);
                out.append(";z=");
                write_value(&mut out, z_offset);
                out.append(";rot=");
                write_value(&mut out, rotation);
                out.append(";c=");
                write_value(&mut out, center);
                out.append(";cdt=");
                write_value(&mut out, chest_drop_table);
                out.append(";tcdt=");
                write_value(&mut out, trap_chest_drop_table);
                out.append(";bpt=");
                write_value(&mut out, blocks_per_tick);
                out.append(";d=");
                write_value(&mut out, duration);
                out.append("}");
                out
            },
            Mechanic::Feed { amount, saturation, overfeed } => {
                let mut out = String::from_str("feed{a=");
                write_value(&mut out, amount);
                out.append(";s=");
                write_value(&mut out, saturation);
                out.append(";o=");
                write_value(&mut out, overfeed);
                out.append("}");
                out
            },
            Mechanic::FillChest { items, should_stack, should_empty } => {
                let mut out = String::from_str("fillchest{i=");
                write_value(&mut out, items);
                out.append(";stack=");
                write_value(&mut out, should_stack);
                out.append(";empty=");
                write_value(&mut out, should_empty);
                out.append("}");
                out
            },
            Mechanic::Firework { firework_type, power, flicker, trail, colors, fade_colors } => {
                let mut out = String::from_str("effect:firework{t=");
                write_value(&mut out, firework_type);
                out.append(";p=");
                write_value(&mut out, power);
                out.append(";f=");
                write_value(&mut out, flicker);
                out.append(";tr=");
                write_value(&mut out, trail);
                out.append(";c=");
                write_value(&mut out, colors);
                out.append(";fc=");
                write_value(&mut out, fade_colors);
                out.append("}");
                out
            },
            Mechanic::Flames => String::from_str("flames"),
            Mechanic::Fly => String::from_str("fly"),
            Mechanic::ForcePull { spread, v_spread } => {
                let mut out = String::from_str("forcepull{s=");
                write_value(&mut out, spread);
                out.append(";vs=");
                write_value(&mut out, v_spread);
                out.append("}");
                out
            },
            Mechanic::Freeze { ticks } => {
                let mut out = String::from_str("freeze{t=");
                write_value(&mut out, ticks);
                out.append("}");
                out
            },
            Mechanic::Geyser { liquid_type, height, interval } => {
                let mut out = String::from_str("geyser{t=");
                write_value(&mut out, liquid_type);
                out.append(";h=");
                write_value(&mut out, height);
                out.append(";i=");
                write_value(&mut out, interval);
                out.append("}");
                out
            },
            Mechanic::GiveItem { item, fake_looting } => {
                let mut out = String::from_str("giveitem{i=");
                write_value(&mut out, item);
                out.append(";fl=");
                write_value(&mut out, fake_looting);
                out.append("}");
                out
            },
            Mechanic::GiveItemFromSlot { slot, fake_looting } => {
                let mut out = String::from_str("giveitemfromslot{s=");
                write_value(&mut out, slot);
                out.append(";fl=");
                write_value(&mut out, fake_looting);
                out.append("}");
                out
            },
            Mechanic::GiveItemFromTarget { item, fake_looting } => {
                let mut out = String::from_str("giveitemfromtarget{i=");
                write_value(&mut out, item);
                out.append(";fl=");
                write_value(&mut out, fake_looting);
                out.append("}");
                out
            },
            Mechanic::Glow { color } => {
                let mut out = String::from_str("effect:glow{color=");
                write_value(&mut out, color);
                out.append("}");
                out
            },
            Mechanic::GoatRam => String::from_str("goatram"),
            Mechanic::GoTo { speed, spread_h, spread_v } => {
                let mut out = String::from_str("goto{s=");
                write_value(&mut out, speed);
                out.append(";sh=");
                write_value(&mut out, spread_h);
                out.append(";sv=");
                write_value(&mut out, spread_v);
                out.append("}");
                out
            },
            Mechanic::GuardianBeam {
                duration,
                interval,
                start_y_offset,
                target_y_offset,
                from_origin,
                on_start_skill,
                on_tick_skill,
                on_end_skill,
            } => {
                let mut out = String::from_str("guardianbeam{d=");
                write_value(&mut out, duration);
                out.append(";i=");
                write_value(&mut out, interval);
                out.append(";syo=");
                write_value(&mut out, start_y_offset);
                out.append(";tyo=");
                write_value(&mut out, target_y_offset);
                out.append(";fo=");
                write_value(&mut out, from_origin);
                out.append(";oS=");
                write_value(&mut out, on_start_skill);
                out.append(";oT=");
                write_value(&mut out, on_tick_skill);
                out.append(";oE=");
                write_value(&mut out, on_end_skill);
                out.append("}");
                out
            },
            Mechanic::Heal { amount, overheal, max_overheal } => {
                let mut out = String::from_str("heal{a=");
                write_value(&mut out, amount);
                out.append(";oh=");
                write_value(&mut out, overheal);
                out.append(";mo=");
                write_value(&mut out, max_overheal);
                out.append("}");
                out
            },
            Mechanic::HealPercent { multiplier, overheal, max_overheal } => {
                let mut out = String::from_str("healpercent{m=");
                write_value(&mut out, multiplier);
                out.append(";oh=");
                write_value(&mut out, overheal);
                out.append(";mo=");
                write_value(&mut out, max_overheal);
                out.append("}");
                out
            },
            Mechanic::Hide { ignore_aura_options } => {
                let mut out = String::from_str("hide{ignoreAuraOptions=");
                write_value(&mut out, ignore_aura_options);
                out.append("}");
                out
            },
            Mechanic::Hit { multiplier, forced_damage, trigger_skills, scale_by_attack_cooldown } => {
                let mut out = String::from_str("hit{m=");
                write_value(&mut out, multiplier);
                out.append(";fd=");
                write_value(&mut out, forced_damage);
                out.append(";ts=");
                write_value(&mut out, trigger_skills);
                out.append(";sbac=");
                write_value(&mut out, scale_by_attack_cooldown);
                out.append("}");
                out
            },
            Mechanic::Hologram { text, stay } => {
                let mut out = String::from_str("holo{text=");
                write_value(&mut out, text);
                out.append(";time=");
                write_value(&mut out, stay);
                out.append("}");
                out
            },
            Mechanic::Ignite { ticks } => {
                let mut out = String::from_str("ignite{t=");
                write_value(&mut out, ticks);
                out.append("}");
                out
            },
            Mechanic::ItemSpray {
                items,
                amount,
                duration,
                radius,
                velocity,
                y_velocity,
                y_offset,
                allow_pickup,
                gravity,
            } => {
                let mut out = String::from_str("itemspray{i=");
                write_value(&mut out, items);
                out.append(";a=");
                write_value(&mut out, amount);
                out.append(";d=");
                write_value(&mut out, duration);
                out.append(";r=");
                write_value(&mut out, radius);
                out.append(";v=");
                write_value(&mut out, velocity);
                out.append(";yv=");
                write_value(&mut out, y_velocity);
                out.append(";yo=");
                write_value(&mut out, y_offset);
                out.append(";ap=");
                write_value(&mut out, allow_pickup);
                out.append(";g=");
                write_value(&mut out, gravity);
                out.append("}");
                out
            },
            Mechanic::JSONMessage { message } => {
                let mut out = String::from_str("jsonmessage{m=");
                write_value(&mut out, message);
                out.append("}");
                out
            },
            Mechanic::Jump { velocity } => {
                let mut out = String::from_str("jump{v=");
                write_value(&mut out, velocity);
                out.append("}");
                out
            },
            Mechanic::Leap { velocity, noise } => {
                let mut out = String::from_str("leap{v=");
                write_value(&mut out, velocity);
                out.append(";n=");
                write_value(&mut out, noise);
                out.append("}");
                out
            },
            Mechanic::Lightning { damage } => {
                let mut out = String::from_str("lightning{damage=");
                write_value(&mut out, damage);
                out.append("}");
                out
            },
            Mechanic::FakeLightning { localized, localized_radius } => {
                let mut out = String::from_str("fakelightning{localized=");
                write_value(&mut out, localized);
                out.append(";localizedradius=");
                write_value(&mut out, localized_radius);
                out.append("}");
                out
            },
            Mechanic::Log { message } => {
                let mut out = String::from_str("log{message=");
                write_value(&mut out, message);
                out.append("}");
                out
            },
            Mechanic::Look { head_only, force, force_paper, immediately } => {
                let mut out = String::from_str("look{headOnly=");
                write_value(&mut out, head_only);
                out.append(";force=");
                write_value(&mut out, force);
                out.append(";forcepaper=");
                write_value(&mut out, force_paper);
                out.append(";immediately=");
                write_value(&mut out, immediately);
                out.append("}");
                out
            },
            Mechanic::Lunge { velocity, velocity_y, old_math } => {
                let mut out = String::from_str("lunge{velocity=");
                write_value(&mut out, velocity);
                out.append(";velocityY=");
                write_value(&mut out, velocity_y);
                out.append(";oldmath=");
                write_value(&mut out, old_math);
                out.append("}");
                out
            },
            Mechanic::MatchRotation { target } => {
                let mut out = String::from_str("matchrotation{target=");
                write_value(&mut out, target);
                out.append("}");
                out
            },
            Mechanic::Message { message, audience } => {
                let mut out = String::from_str("message{message=");
                write_value(&mut out, message);
                out.append(";audience=");
                write_value(&mut out, audience);
                out.append("}");
                out
            },
            Mechanic::ModifyDamage { amount, damage_type, action } => {
                let mut out = String::from_str("modifyDamage{amount=");
                write_value(&mut out, amount);
                out.append(";damagetype=");
                write_value(&mut out, damage_type);
                out.append(";action=");
                write_value(&mut out, action);
                out.append("}");
                out
            },
            Mechanic::ModifyGlobalScore { objective, action, value } => {
                let mut out = String::from_str("modifyglobalscore{objective=");
                write_value(&mut out, objective);
                out.append(";action=");
                write_value(&mut out, action);
                out.append(";value=");
                write_value(&mut out, value);
                out.append("}");
                out
            },
            Mechanic::ModifyTargetScore { objective, action, value } => {
                let mut out = String::from_str("modifytargetscore{objective=");
                write_value(&mut out, objective);
                out.append(";action=");
                write_value(&mut out, action);
                out.append(";value=");
                write_value(&mut out, value);
                out.append("}");
                out
            },
            Mechanic::ModifyMobScore { objective, action, value } => {
                let mut out = String::from_str("modifymobscore{objective=");
                write_value(&mut out, objective);
                out.append(";action=");
                write_value(&mut out, action);
                out.append(";value=");
                write_value(&mut out, value);
                out.append("}");
                out
            },
            Mechanic::ModifyScore { objective, action, value } => {
                let mut out = String::from_str("modifyscore{objective=");
                write_value(&mut out, objective);
                out.append(";action=");
                write_value(&mut out, action);
                out.append(";value=");
                write_value(&mut out, value);
                out.append("}");
                out
            },
            Mechanic::Mount { entity } => {
                let mut out = String::from_str("mount{entity=");
                write_value(&mut out, entity);
                out.append("}");
                out
            },
            Mechanic::MountMe { entity } => {
                let mut out = String::from_str("mountme{entity=");
                write_value(&mut out, entity);
                out.append("}");
                out
            },
            Mechanic::MountTarget { entity } => {
                let mut out = String::from_str("mounttarget{entity=");
                write_value(&mut out, entity);
                out.append("}");
                out
            },
            Mechanic::MovePin { x, y, z } => {
                let mut out = String::from_str("movepin{x=");
                write_value(&mut out, x);
                out.append(";y=");
                write_value(&mut out, y);
                out.append(";z=");
                write_value(&mut out, z);
                out.append("}");
                out
            },
            Mechanic::OpenTrades => String::from_str("opentrades{{}}"),
            Mechanic::Oxygen { amount } => {
                let mut out = String::from_str("oxygen{amount=");
                write_value(&mut out, amount);
                out.append("}");
                out
            },
            Mechanic::Particle { particle, amount, speed, x, y, z } => {
                let mut out = String::from_str("particle{particle=");
                write_value(&mut out, particle);
                out.append(";amount=");
                write_value(&mut out, amount);
                out.append(";speed=");
                write_value(&mut out, speed);
                out.append(";x=");
                write_value(&mut out, x);
                out.append(";y=");
                write_value(&mut out, y);
                out.append(";z=");
                write_value(&mut out, z);
                out.append("}");
                out
            },
            Mechanic::ParticleBox { particle, amount, speed, x, y, z, width, height } => {
                let mut out = String::from_str("particlebox{particle=");
                write_value(&mut out, particle);
                out.append(";amount=");
                write_value(&mut out, amount);
                out.append(";speed=");
                write_value(&mut out, speed);
                out.append(";x=");
                write_value(&mut out, x);
                out.append(";y=");
                write_value(&mut out, y);
                out.append(";z=");
                write_value(&mut out, z);
                out.append(";width=");
                write_value(&mut out, width);
                out.append(";height=");
                write_value(&mut out, height);
                out.append("}");
                out
            },
            Mechanic::ParticleEquation { particle, amount, speed, x, y, z, equation } => {
                let mut out = String::from_str("particleequation{particle=");
                write_value(&mut out, particle);
                out.append(";amount=");
                write_value(&mut out, amount);
                out.append(";speed=");
                write_value(&mut out, speed);
                out.append(";x=");
                write_value(&mut out, x);
                out.append(";y=");
                write_value(&mut out, y);
                out.append(";z=");
                write_value(&mut out, z);
                out.append(";equation=");
                write_value(&mut out, equation);
                out.append("}");
                out
            },
            Mechanic::ParticleLine { particle, amount, speed, x, y, z, length } => {
                let mut out = String::from_str("particleline{particle=");
                write_value(&mut out, particle);
                out.append(";amount=");
                write_value(&mut out, amount);
                out.append(";speed=");
                write_value(&mut out, speed);
                out.append(";x=");
                write_value(&mut out, x);
                out.append(";y=");
                write_value(&mut out, y);
                out.append(";z=");
                write_value(&mut out, z);
                out.append(";length=");
                write_value(&mut out, length);
                out.append("}");
                out
            },
            Mechanic::ParticleLineHelix { particle, amount, speed, x, y, z, length, radius } => {
                let mut out = String::from_str("particlelinehelix{particle=");
                write_value(&mut out, particle);
                out.append(";amount=");
                write_value(&mut out, amount);
                out.append(";speed=");
                write_value(&mut out, speed);
                out.append(";x=");
                write_value(&mut out, x);
                out.append(";y=");
                write_value(&mut out, y);
                out.append(";z=");
                write_value(&mut out, z);
                out.append(";length=");
                write_value(&mut out, length);
                out.append(";radius=");
                write_value(&mut out, radius);
                out.append("}");
                out
            },
            Mechanic::ParticleLineRing { particle, amount, speed, x, y, z, radius } => {
                let mut out = String::from_str("particlelinering{particle=");
                write_value(&mut out, particle);
                out.append(";amount=");
                write_value(&mut out, amount);
                out.append(";speed=");
                write_value(&mut out, speed);
                out.append(";x=");
                write_value(&mut out, x);
                out.append(";y=");
                write_value(&mut out, y);
                out.append(";z=");
                write_value(&mut out, z);
                out.append(";radius=");
                write_value(&mut out, radius);
                out.append("}");
                out
            },
            Mechanic::ParticleOrbital { particle, amount, speed, x, y, z, radius } => {
                let mut out = String::from_str("particleorbital{particle=");
                write_value(&mut out, particle);
                out.append(";amount=");
                write_value(&mut out, amount);
                out.append(";speed=");
                write_value(&mut out, speed);
                out.append(";x=");
                write_value(&mut out, x);
                out.append(";y=");
                write_value(&mut out, y);
                out.append(";z=");
                write_value(&mut out, z);
                out.append(";radius=");
                write_value(&mut out, radius);
                out.append("}");
                out
            },
            Mechanic::ParticleRing { particle, amount, speed, x, y, z, radius } => {
                let mut out = String::from_str("particlering{particle=");
                write_value(&mut out, particle);
                out.append(";amount=");
                write_value(&mut out, amount);
                out.append(";speed=");
                write_value(&mut out, speed);
                out.append(";x=");
                write_value(&mut out, x);
                out.append(";y=");
                write_value(&mut out, y);
                out.append(";z=");
                write_value(&mut out, z);
                out.append(";radius=");
                write_value(&mut out, radius);
                out.append("}");
                out
            },
            Mechanic::ParticleSphere { particle, amount, speed, x, y, z, radius } => {
                let mut out = String::from_str("particlesphere{particle=");
                write_value(&mut out, particle);
                out.append(";amount=");
                write_value(&mut out, amount);
                out.append(";speed=");
                write_value(&mut out, speed);
                out.append(";x=");
                write_value(&mut out, x);
                out.append(";y=");
                write_value(&mut out, y);
                out.append(";z=");
                write_value(&mut out, z);
                out.append(";radius=");
                write_value(&mut out, radius);
                out.append("}");
                out
            },
            Mechanic::ParticleTornado { particle, amount, speed, x, y, z, height, radius } => {
                let mut out = String::from_str("particletornado{particle=");
                write_value(&mut out, particle);
                out.append(";amount=");
                write_value(&mut out, amount);
                out.append(";speed=");
                write_value(&mut out, speed);
                out.append(";x=");
                write_value(&mut out, x);
                out.append(";y=");
                write_value(&mut out, y);
                out.append(";z=");
                write_value(&mut out, z);
                out.append(";height=");
                write_value(&mut out, height);
                out.append(";radius=");
                write_value(&mut out, radius);
                out.append("}");
                out
            },
            Mechanic::Atom { particle, amount, speed, x, y, z, radius } => {
                let mut out = String::from_str("atom{particle=");
                write_value(&mut out, particle);
                out.append(";amount=");
                write_value(&mut out, amount);
                out.append(";speed=");
                write_value(&mut out, speed);
                out.append(";x=");
                write_value(&mut out, x);
                out.append(";y=");
                write_value(&mut out, y);
                out.append(";z=");
                write_value(&mut out, z);
                out.append(";radius=");
                write_value(&mut out, radius);
                out.append("}");
                out
            },
            Mechanic::PickUpItem { item } => {
                let mut out = String::from_str("pickupitem{item=");
                write_value(&mut out, item);
                out.append("}");
                out
            },
            Mechanic::PlayAnimation { animation } => {
                let mut out = String::from_str("playanimation{animation=");
                write_value(&mut out, animation);
                out.append("}");
                out
            },
            Mechanic::PlayBlockBreakSound { block } => {
                let mut out = String::from_str("playblockbreaksound{block=");
                write_value(&mut out, block);
                out.append("}");
                out
            },
            Mechanic::PlayBlockFallSound { block } => {
                let mut out = String::from_str("playblockfallsound{block=");
                write_value(&mut out, block);
                out.append("}");
                out
            },
            Mechanic::PlayBlockHitSound { block } => {
                let mut out = String::from_str("playblockhitsound{block=");
                write_value(&mut out, block);
                out.append("}");
                out
            },
            Mechanic::PlayBlockPlaceSound { block } => {
                let mut out = String::from_str("playblockplacesound{block=");
                write_value(&mut out, block);
                out.append("}");
                out
            },
            Mechanic::PlayBlockStepSound { block } => {
                let mut out = String::from_str("playblockstepsound{block=");
                write_value(&mut out, block);
                out.append("}");
                out
            },
            Mechanic::PoseArmorStand { pose } => {
                let mut out = String::from_str("posearmorstand{pose=");
                write_value(&mut out, pose);
                out.append("}");
                out
            },
            Mechanic::Potion { potion, duration, level } => {
                let mut out = String::from_str("potion{potion=");
                write_value(&mut out, potion);
                out.append(";duration=");
                write_value(&mut out, duration);
                out.append(";level=");
                write_value(&mut out, level);
                out.append("}");
                out
            },
            Mechanic::PotionClear => String::from_str("potionclear{{}}"),
            Mechanic::Prison => String::from_str("prison{{}}"),
            Mechanic::PrintParentTree => String::from_str("printparenttree{{}}"),
            Mechanic::Propel { velocity } => {
                let mut out = String::from_str("propel{velocity=");
                write_value(&mut out, velocity);
                out.append("}");
                out
            },
            Mechanic::Pull { velocity } => {
                let mut out = String::from_str("pull{velocity=");
                write_value(&mut out, velocity);
                out.append("}");
                out
            },
            Mechanic::PushBlock { velocity } => {
                let mut out = String::from_str("pushblock{velocity=");
                write_value(&mut out, velocity);
                out.append("}");
                out
            },
            Mechanic::PushButton => String::from_str("pushbutton{{}}"),
            Mechanic::RayTrace => String::from_str("raytrace{{}}"),
            Mechanic::RayTraceTo => String::from_str("raytraceto{{}}"),
            Mechanic::Rally { radius } => {
                let mut out = String::from_str("rally{radius=");
                write_value(&mut out, radius);
                out.append("}");
                out
            },
            Mechanic::RandomMessage { messages } => {
                let mut out = String::from_str("randommessage{messages=");
                write_value(&mut out, messages);
                out.append("}");
                out
            },
            Mechanic::Recoil { velocity } => {
                let mut out = String::from_str("recoil{velocity=");
                write_value(&mut out, velocity);
                out.append("}");
                out
            },
            Mechanic::Remount => String::from_str("remount{{}}"),
            Mechanic::Remove => String::from_str("remove{{}}"),
            Mechanic::RemoveHeldItem => String::from_str("removehelditem{{}}"),
            Mechanic::RemoveOwner => String::from_str("removeowner{{}}"),
            Mechanic::ResetAI => String::from_str("resetai{{}}"),
            Mechanic::RotateTowards { target } => {
                let mut out = String::from_str("rotatetowards{target=");
                write_value(&mut out, target);
                out.append("}");
                out
            },
            Mechanic::RunAIGoalSelector => String::from_str("runaigoalselector{{}}"),
            Mechanic::RunAITargetSelector => String::from_str("runaitargetselector{{}}"),
            Mechanic::Saddle => String::from_str("saddle{{}}"),
            Mechanic::SendActionMessage { message } => {
                let mut out = String::from_str("sendactionmessage{message=");
                write_value(&mut out, message);
                out.append("}");
                out
            },
            Mechanic::SendResourcePack { url } => {
                let mut out = String::from_str("sendresourcepack{url=");
                write_value(&mut out, url);
                out.append("}");
                out
            },
            Mechanic::SendTitle { title, subtitle, fade_in, stay, fade_out } => {
                let mut out = String::from_str("sendtitle{title=");
                write_value(&mut out, title);
                out.append(";subtitle=");
                write_value(&mut out, subtitle);
                out.append(";fadein=");
                write_value(&mut out, fade_in);
                out.append(";stay=");
                write_value(&mut out, stay);
                out.append(";fadeout=");
                write_value(&mut out, fade_out);
                out.append("}");
                out
            },
            Mechanic::SendToast { title, message } => {
                let mut out = String::from_str("sendtoast{title=");
                write_value(&mut out, title);
                out.append(";message=");
                write_value(&mut out, message);
                out.append("}");
                out
            },
            Mechanic::SetAI { ai } => {
                let mut out = String::from_str("setai{ai=");
                write_value(&mut out, ai);
                out.append("}");
                out
            },
            Mechanic::SetBlockOpen { open } => {
                let mut out = String::from_str("setblockopen{open=");
                write_value(&mut out, open);
                out.append("}");
                out
            },
            Mechanic::SetBlockType { block } => {
                let mut out = String::from_str("setblocktype{block=");
                write_value(&mut out, block);
                out.append("}");
                out
            },
            Mechanic::SetChunkForceLoaded { loaded } => {
                let mut out = String::from_str("setchunkforceloaded{loaded=");
                write_value(&mut out, loaded);
                out.append("}");
                out
            },
            Mechanic::SetCollidable { collidable } => {
                let mut out = String::from_str("setcollidable{collidable=");
                write_value(&mut out, collidable);
                out.append("}");
                out
            },
            Mechanic::SetDragonPodium { podium } => {
                let mut out = String::from_str("setdragonpodium{podium=");
                write_value(&mut out, podium);
                out.append("}");
                out
            },
            Mechanic::SetGameMode { gamemode } => {
                let mut out = String::from_str("setgamemode{gamemode=");
                write_value(&mut out, gamemode);
                out.append("}");
                out
            },
            Mechanic::SetGliding { gliding } => {
                let mut out = String::from_str("setgliding{gliding=");
                write_value(&mut out, gliding);
                out.append("}");
                out
            },
            Mechanic::SetGlobalScore { objective, action, value } => {
                let mut out = String::from_str("setglobalscore{objective=");
                write_value(&mut out, objective);
                out.append(";action=");
                write_value(&mut out, action);
                out.append(";value=");
                write_value(&mut out, value);
                out.append("}");
                out
            },
            Mechanic::SetGravity { gravity } => {
                let mut out = String::from_str("setgravity{gravity=");
                write_value(&mut out, gravity);
                out.append("}");
                out
            },
            Mechanic::SetHealth { health } => {
                let mut out = String::from_str("sethealth{health=");
                write_value(&mut out, health);
                out.append("}");
                out
            },
            Mechanic::SetInteractionSize { width, height } => {
                let mut out = String::from_str("setinteractionsize{width=");
                write_value(&mut out, width);
                out.append(";height=");
                write_value(&mut out, height);
                out.append("}");
                out
            },
            Mechanic::SetItemGroupCooldown { group, cooldown } => {
                let mut out = String::from_str("setitemgroupcooldown{group=");
                write_value(&mut out, group);
                out.append(";cooldown=");
                write_value(&mut out, cooldown);
                out.append("}");
                out
            },
            Mechanic::SetDisplayEntityItem { item } => {
                let mut out = String::from_str("setdisplayentityitem{item=");
                write_value(&mut out, item);
                out.append("}");
                out
            },
            Mechanic::SetLeashHolder { holder } => {
                let mut out = String::from_str("setleashholder{holder=");
                write_value(&mut out, holder);
                out.append("}");
                out
            },
            Mechanic::SetLevel { level } => {
                let mut out = String::from_str("setlevel{level=");
                write_value(&mut out, level);
                out.append("}");
                out
            },
            Mechanic::SetMaterialCooldown { material, cooldown } => {
                let mut out = String::from_str("setmaterialcooldown{material=");
                write_value(&mut out, material);
                out.append(";cooldown=");
                write_value(&mut out, cooldown);
                out.append("}");
                out
            },
            Mechanic::SetMaxHealth { health } => {
                let mut out = String::from_str("setmaxhealth{health=");
                write_value(&mut out, health);
                out.append("}");
                out
            },
            Mechanic::SetMobColor { color } => {
                let mut out = String::from_str("setmobcolor{color=");
                write_value(&mut out, color);
                out.append("}");
                out
            },
            Mechanic::SetMobScore { objective, score } => {
                let mut out = String::from_str("setmobscore{objective=");
                write_value(&mut out, objective);
                out.append(";score=");
                write_value(&mut out, score);
                out.append("}");
                out
            },
            Mechanic::SetName { name } => {
                let mut out = String::from_str("setname{name=");
                write_value(&mut out, name);
                out.append("}");
                out
            },
            Mechanic::SetRaiderCanJoinRaid { can_join } => {
                let mut out = String::from_str("setraidercanjoinraid{can_join=");
                write_value(&mut out, can_join);
                out.append("}");
                out
            },
            Mechanic::SetRaiderPatrolBlock { block } => {
                let mut out = String::from_str("setraiderpatrolblock{block=");
                write_value(&mut out, block);
                out.append("}");
                out
            },
            Mechanic::SetRaiderPatrolLeader { leader } => {
                let mut out = String::from_str("setraiderpatrolleader{leader=");
                write_value(&mut out, leader);
                out.append("}");
                out
            },
            Mechanic::SetFaction { faction } => {
                let mut out = String::from_str("setfaction{faction=");
                write_value(&mut out, faction);
                out.append("}");
                out
            },
            Mechanic::SetFlying { flying } => {
                let mut out = String::from_str("setflying{flying=");
                write_value(&mut out, flying);
                out.append("}");
                out
            },
            Mechanic::SetNoDamageTicks { ticks } => {
                let mut out = String::from_str("setnodamageticks{ticks=");
                write_value(&mut out, ticks);
                out.append("}");
                out
            },
            Mechanic::SetOwner { owner } => {
                let mut out = String::from_str("setowner{owner=");
                write_value(&mut out, owner);
                out.append("}");
                out
            },
            Mechanic::SetParent { parent } => {
                let mut out = String::from_str("setparent{parent=");
                write_value(&mut out, parent);
                out.append("}");
                out
            },
            Mechanic::SetPathfindingMalus { malus } => {
                let mut out = String::from_str("setpathfindingmalus{malus=");
                write_value(&mut out, malus);
                out.append("}");
                out
            },
            Mechanic::SetPitch { pitch } => {
                let mut out = String::from_str("setpitch{pitch=");
                write_value(&mut out, pitch);
                out.append("}");
                out
            },
            Mechanic::SetPose { pose } => {
                let mut out = String::from_str("setpose{pose=");
                write_value(&mut out, pose);
                out.append("}");
                out
            },
            Mechanic::SetRotation { yaw, pitch } => {
                let mut out = String::from_str("setrotation{yaw=");
                write_value(&mut out, yaw);
                out.append(";pitch=");
                write_value(&mut out, pitch);
                out.append("}");
                out
            },
            Mechanic::SetTarget { target } => {
                let mut out = String::from_str("settarget{target=");
                write_value(&mut out, target);
                out.append("}");
                out
            },
            Mechanic::SetTargetScore { objective, score } => {
                let mut out = String::from_str("settargetscore{objective=");
                write_value(&mut out, objective);
                out.append(";score=");
                write_value(&mut out, score);
                out.append("}");
                out
            },
            Mechanic::SetTextDisplay { text } => {
                let mut out = String::from_str("settextdisplay{text=");
                write_value(&mut out, text);
                out.append("}");
                out
            },
            Mechanic::SetTongueTarget { target } => {
                let mut out = String::from_str("settonguetarget{target=");
                write_value(&mut out, target);
                out.append("}");
                out
            },
            Mechanic::SetScore { objective, score } => {
                let mut out = String::from_str("setscore{objective=");
                write_value(&mut out, objective);
                out.append(";score=");
                write_value(&mut out, score);
                out.append("}");
                out
            },
            Mechanic::SetSpeed { speed } => {
                let mut out = String::from_str("setspeed{speed=");
                write_value(&mut out, speed);
                out.append("}");
                out
            },
            Mechanic::SetStance { stance } => {
                let mut out = String::from_str("setstance{stance=");
                write_value(&mut out, stance);
                out.append("}");
                out
            },
            Mechanic::Shield => String::from_str("shield{{}}"),
            Mechanic::ShieldBreak => String::from_str("shieldbreak{{}}"),
            Mechanic::ShieldPercent { percent } => {
                let mut out = String::from_str("shieldpercent{percent=");
                write_value(&mut out, percent);
                out.append("}");
                out
            },
            Mechanic::ShootFireball { velocity } => {
                let mut out = String::from_str("shootfireball{velocity=");
                write_value(&mut out, velocity);
                out.append("}");
                out
            },
            Mechanic::ShootPotion { potion, velocity } => {
                let mut out = String::from_str("shootpotion{potion=");
                write_value(&mut out, potion);
                out.append(";velocity=");
                write_value(&mut out, velocity);
                out.append("}");
                out
            },
            Mechanic::ShootSkull { velocity } => {
                let mut out = String::from_str("shootskull{velocity=");
                write_value(&mut out, velocity);
                out.append("}");
                out
            },
            Mechanic::ShootShulkerBullet { velocity } => {
                let mut out = String::from_str("shootshulkerbullet{velocity=");
                write_value(&mut out, velocity);
                out.append("}");
                out
            },
            Mechanic::ShowEntity { entity } => {
                let mut out = String::from_str("showentity{entity=");
                write_value(&mut out, entity);
                out.append("}");
                out
            },
            Mechanic::Signal { signal } => {
                let mut out = String::from_str("signal{signal=");
                write_value(&mut out, signal);
                out.append("}");
                out
            },
            Mechanic::Skybox { skybox } => {
                let mut out = String::from_str("skybox{skybox=");
                write_value(&mut out, skybox);
                out.append("}");
                out
            },
            Mechanic::Smoke => String::from_str("smoke{{}}"),
            Mechanic::SmokeSwirl => String::from_str("smokeswirl{{}}"),
            Mechanic::Sound { sound, volume, pitch } => {
                let mut out = String::from_str("sound{sound=");
                write_value(&mut out, sound);
                out.append(";volume=");
                write_value(&mut out, volume);
                out.append(";pitch=");
                write_value(&mut out, pitch);
                out.append("}");
                out
            },
            Mechanic::StealItem { item } => {
                let mut out = String::from_str("stealitem{item=");
                write_value(&mut out, item);
                out.append("}");
                out
            },
            Mechanic::StopSound { sound } => {
                let mut out = String::from_str("stopsound{s=");
                write_value(&mut out, sound);
                out.append("}");
                out
            },
            Mechanic::StopSoundWithCategory { sound, sound_category } => {
                let mut out = String::from_str("stopsound{s=");
                write_value(&mut out, sound);
                out.append(";source=");
                write_value(&mut out, sound_category);
                out.append("}");
                out
            },
            Mechanic::Speak {
                offset,
                radius,
                max_line_lenght,
                line_prefix,
                message,
                chat_prefix,
                duration,
                send_chat_message,
            } => {
                let mut out = String::from_str("speak{offset=");
                write_value(&mut out, offset);
                out.append(";radius=");
                write_value(&mut out, radius);
                out.append(";maxlinelength=");
                write_value(&mut out, max_line_lenght);
                out.append(";lineprefix=");
                write_value(&mut out, line_prefix);
                out.append(";message=");
                write_value(&mut out, message);
                out.append(";chatprefix=");
                write_value(&mut out, chat_prefix);
                out.append(";duration=");
                write_value(&mut out, duration);
                out.append(";sendchatmessage=");
                write_value(&mut out, send_chat_message);
                out.append("}");
                out
            },
            Mechanic::Spin { velocity, aura } => {
                let mut out = String::from_str("spin{velocity=");
                write_value(&mut out, velocity);
                out.append(";");
                write_value(&mut out, aura);
                out.append("}");
                out
            },
            Mechanic::Spring { spring_type, duration } => {
                let mut out = String::from_str("spring{type=");
                write_value(&mut out, spring_type);
                out.append(";duration=");
                write_value(&mut out, duration);
                out.append("}");
                out
            },
            Mechanic::Stun { duration } => {
                let mut out = String::from_str("stun{duration=");
                write_value(&mut out, duration);
                out.append("}");
                out
            },
            Mechanic::StopUsingItem => String::from_str("stopusingitem"),
            Mechanic::Suicide => String::from_str("suicide"),
            Mechanic::Summon { mob, location } => {
                let mut out = String::from_str("summon{mob=");
                write_value(&mut out, mob);
                out.append(";location=");
                write_value(&mut out, location);
                out.append("}");
                out
            },
            Mechanic::SummonAreaEffectCloud {
                particle,
                effect_type,
                potion_duration,
                level,
                duration,
                duration_reduction_on_use,
                radius,
                radius_reduction_on_use,
                radius_reduction_on_tick,
            } => {
                let mut out = String::from_str("summonareaeffectcloud{");
                write_value(&mut out, particle);
                write_value(&mut out, effect_type);
                write_value(&mut out, potion_duration);
                write_value(&mut out, level);
                write_value(&mut out, duration);
                write_value(&mut out, duration_reduction_on_use);
                write_value(&mut out, radius);
                write_value(&mut out, radius_reduction_on_use);
                write_value(&mut out, radius_reduction_on_tick);
                out.append("}");
                out
            },
            Mechanic::SummonFallingBlock { material } => {
                let mut out = String::from_str("summonfallingblock{m=");
                write_value(&mut out, material);
                out.append("}");
                out
            },
            Mechanic::SummonPassenger { passenger, stack } => {
                let mut out = String::from_str("summonpassenger{type=");
                write_value(&mut out, passenger);
                write_value(&mut out, stack);
                out.append("}");
                out
            },
            Mechanic::Swap => String::from_str("swap"),
            Mechanic::SwingOffHand => String::from_str("swingoffhand"),
            Mechanic::AddTag(tag) => {
                let mut out = String::from_str("addtag{t=");
                write_value(&mut out, tag);
                out.append("}");
                out
            },
            Mechanic::RemoveTag(tag) => {
                let mut out = String::from_str("removetag{t=");
                write_value(&mut out, tag);
                out.append("}");
                out
            },
            Mechanic::TakeItem { item, amount, exact, vanilla_only } => {
                let mut out = String::from_str("takeitem{i=");
                write_value(&mut out, item);
                out.append(";a=");
                write_value(&mut out, amount);
                write_value(&mut out, exact);
                write_value(&mut out, vanilla_only);
                out.append("}");
                out
            },
            Mechanic::Taunt => String::from_str("taunt"),
            Mechanic::Teleport { spreadh, spreadv, preserve_pitch, preserve_yaw, safe_teleport } => {
                let mut out = String::from_str("teleport{");
                write_value(&mut out, spreadh);
                write_value(&mut out, spreadv);
                write_value(&mut out, preserve_pitch);
                write_value(&mut out, preserve_yaw);
                write_value(&mut out, safe_teleport);
                out.append("}");
                out
            },
            Mechanic::TeleportY { y } => {
                let mut out = String::from_str("teleport{y=");
                write_value(&mut out, y);
                out.append("}");
                out
            },
            Mechanic::TeleportIn { vector, yaw, target_as_origin } => {
                let mut out = String::from_str("teleportin{");
                write_value(&mut out, vector);
                write_value(&mut out, yaw);
                write_value(&mut out, target_as_origin);
                out.append("}");
                out
            },
            Mechanic::TeleportTo { location, world, yaw, pitch, relative, target_as_origin } => {
                let mut out = String::from_str("teleportto{loc=");
                write_value(&mut out, location);
                out.append(";w=");
                write_value(&mut out, world);
                write_value(&mut out, yaw);
                write_value(&mut out, pitch);
                write_value(&mut out, relative);
                write_value(&mut out, target_as_origin);
                out.append("}");
                out
            },
            Mechanic::Time { mode, amount, personal, relative } => {
                let mut out = String::from_str("time{mode=");
                write_value(&mut out, mode);
                out.append(";amount=");
                write_value(&mut out, amount);
                write_value(&mut out, personal);
                write_value(&mut out, relative);
                out.append("}");
                out
            },
            Mechanic::Threat { amount, mode } => {
                let mut out = String::from_str("threat{amount=");
                write_value(&mut out, amount);
                write_value(&mut out, mode);
                out.append("}");
                out
            },
            Mechanic::Throw { velocity, velocity_y, from_origin } => {
                let mut out = String::from_str("throw{v=");
                write_value(&mut out, velocity);
                out.append(";vy=");
                write_value(&mut out, velocity_y);
                write_value(&mut out, from_origin);
                out.append("}");
                out
            },
            Mechanic::ThunderLevel { level } => {
                let mut out = String::from_str("thunderlevel{l=");
                write_value(&mut out, level);
                out.append("}");
                out
            },
            Mechanic::ToggleLever { location, duration, x, y, z } => {
                let mut out = String::from_str("togglelever{duration=");
                write_value(&mut out, duration);
                out.append(";");
                write_value(&mut out, location);
                write_value(&mut out, x);
                write_value(&mut out, y);
                write_value(&mut out, z);
                out.append("}");
                out
            },
            Mechanic::TogglePiston => String::from_str("togglepiston"),
            Mechanic::ToggleSitting(state) => {
                let mut out = String::from_str("sit{state=");
                write_value(&mut out, state);
                out.append("}");
                out
            },
            Mechanic::TotemOfUndying { model } => {
                let mut out = String::from_str("totemofundying{mode=");
                write_value(&mut out, model);
                out.append("}");
                out
            },
            Mechanic::TrackLocation => String::from_str("tracklocation"),
            Mechanic::UndoPaste { paste_id } => {
                let mut out = String::from_str("undopaste{id=");
                write_value(&mut out, paste_id);
                out.append("}");
                out
            },
            Mechanic::Velocity { mode, velocity_x, velocity_y, velocity_z, relative } => {
                let mut out = String::from_str("velocity{m=");
                write_value(&mut out, mode);
                out.append(";x=");
                write_value(&mut out, velocity_x);
                out.append(";y=");
                write_value(&mut out, velocity_y);
                out.append(";z=");
                write_value(&mut out, velocity_z);
                write_value(&mut out, relative);
                out.append("}");
                out
            },
            Mechanic::WolfSit(state) => {
                let mut out = String::from_str("wolfsit{state=");
                write_value(&mut out, state);
                out.append("}");
                out
            },
            Mechanic::WorldEditReplace { from, to } => {
                let mut out = String::from_str("worldEditReplace{from=");
                write_value(&mut out, from);
                out.append(";to=");
                write_value(&mut out, to);
                out.append("}");
                out
            },
            Mechanic::Weather { weather_type, duration } => {
                let mut out = String::from_str("weather{type=");
                write_value(&mut out, weather_type);
                out.append(";duration=");
                write_value(&mut out, duration);
                out.append("}");
                out
            },
            Mechanic::AdditionalMecanics { mechanic_type } => mechanic_type.render(),
        }
    }
}

impl Mechanic {
    /// The text of a mechanic is never empty: it begins with a dash and a
    /// space, whatever the mechanic and its parameters are.
    pub proof fn lemma_text_begins_with_dash(self)
        ensures
            self.text().len() >= 2,
            self.text()[0] == '-',
            self.text()[1] == ' ',
    {
        reveal_strlit("- ");
    }

    /// The line of a spring tells its liquid and its duration: two springs
    /// with the same line are of the same liquid, and last equally long.
    pub proof fn lemma_spring_line_tells_parameters(a: Mechanic, b: Mechanic)
        requires
            a is Spring,
            b is Spring,
            a.text() == b.text(),
        ensures
            a == b,
    {
        reveal_strlit("spring{type=");
        reveal_strlit(";duration=");
        reveal_strlit("}");
        reveal_strlit("water");
        reveal_strlit("lava");
        let head = "- "@ + "spring{type="@;
        if let Mechanic::Spring { spring_type: ta, duration: da } = a {
            if let Mechanic::Spring { spring_type: tb, duration: db } = b {
                let kind_a = ta.text();
                let kind_b = tb.text();
                let tail_a = ";duration="@ + da.text() + "}"@;
                let tail_b = ";duration="@ + db.text() + "}"@;
                assert(a.text() =~= head + kind_a + tail_a);
                assert(b.text() =~= head + kind_b + tail_b);
                assert((head + kind_a + tail_a)[head.len() as int] == kind_a[0]);
                assert((head + kind_b + tail_b)[head.len() as int] == kind_b[0]);
                assert(ta == tb);
                let front = head + kind_a + ";duration="@;
                let na = decimal_text(da as nat);
                let nb = decimal_text(db as nat);
                assert(a.text() =~= front + na + "}"@);
                assert(b.text() =~= front + nb + "}"@);
                assert(na.len() == nb.len());
                assert(na =~= nb) by {
                    assert forall|i: int| 0 <= i < na.len() implies na[i] == nb[i] by {
                        assert((front + na + "}"@)[front.len() + i] == na[i]);
                        assert((front + nb + "}"@)[front.len() + i] == nb[i]);
                    }
                }
                lemma_value_of_decimal_text(da as nat);
                lemma_value_of_decimal_text(db as nat);
            }
        }
    }
}

impl Render for Mechanic {
    /// A dash and a space, then the keyword and the parameter block.
    open spec fn text(&self) -> Seq<char> {
        "- "@ + self.body_text()
    }

    fn render(&self) -> (out: String) {
        let body = self.render_body();
        let mut out = String::from_str("- ");
        out.append(body.as_str());
        out
    }
}

} // verus!
