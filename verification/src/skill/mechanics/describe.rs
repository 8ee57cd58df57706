//! What each mechanic is called and what it does, for display.

use vstd::prelude::*;
use crate::skill::mechanics::Mechanic;

verus! {

impl Mechanic {
    /// A sentence on what the mechanic does.
    pub open spec fn description(self) -> Seq<char> {
        match self {
            Mechanic::ActivateSpawner { .. } => {
                "Activates a MythicMobs spawner at the targeted location"@
            },
            Mechanic::AddTrade { .. } => "Changes the trades of a villager"@,
            Mechanic::AnimateArmorStand { .. } => "Animates an armor stand"@,
            Mechanic::ArmAnimation => "Makes the caster swing their arm"@,
            Mechanic::ArrowVolley { .. } => "Fires a volley of arrows"@,
            Mechanic::AuraRemove { .. } => "Adds an attribute modifier to the attributable target"@,
            Mechanic::BlackScreen { .. } => "Creates a custom boss bar on the casting mob"@,
            Mechanic::BlockDestabilize => {
                "Causes the targeted blocks to fall, as if affected by gravity"@
            },
            Mechanic::BlockMask { .. } => "Temporarily masks a block as a different block"@,
            Mechanic::BlockUnmask { .. } => "Unmasks blocks that have been masked"@,
            Mechanic::BlockPhysics => "Triggers a block physics update at the target location"@,
            Mechanic::BlockWave { .. } => "Creates a wave of blocks at the target location"@,
            Mechanic::BloodyScreen { .. } => "Makes the target's screen glow red"@,
            Mechanic::BoneMeal { .. } => "Applies a bone meal effect to the target blocks"@,
            Mechanic::BossBorder { .. } => "Creates an inescapable border around the mob"@,
            Mechanic::Bouncy { .. } => "Creates an inescapable border around the mob"@,
            Mechanic::BreakBlock { .. } => "Breaks the block at the target location"@,
            Mechanic::BreakBlockAndGiveItem { .. } => {
                "Breaks the block at the target location and gives an item/droptable"@
            },
            Mechanic::ClearExperience => "Clears the experience for the targeted players"@,
            Mechanic::ClearExperienceLevels => {
                " Clears the experience levels for the targeted players"@
            },
            Mechanic::GiveExperienceLevels { .. } => {
                "Gives experience levels to the targeted players"@
            },
            Mechanic::TakeExperienceLevels { .. } => {
                "Takes experience levels from the targeted players"@
            },
            Mechanic::CloseInventory => "Closes the target player's inventory"@,
            Mechanic::Command { .. } => "Executes a command for each target"@,
            Mechanic::Consume { .. } => "Deals damage and restores health per target hit"@,
            Mechanic::ConsumeSlot { .. } => {
                "Removes an item from a specific slot of the player's inventory"@
            },
            Mechanic::DirectionalVelocity { .. } => {
                "Changes the velocity on the target entity on a specific vector"@
            },
            Mechanic::Disengage { .. } => {
                "Causes the caster to leap backwards away from the target entity"@
            },
            Mechanic::Disguise { .. } => "Changes the caster's disguise"@,
            Mechanic::DisguiseModify { .. } => "Modifies the caster's already applied disguise"@,
            Mechanic::DisguiseTarget { .. } => "Changes the target's disguise"@,
            Mechanic::Undisguise => "Removes the caster's disguise"@,
            Mechanic::Dismount => "Makes the caster dismount whatever they're riding"@,
            Mechanic::DisplayTransformation { .. } => {
                "Sets the targeted display entity's transformations"@
            },
            Mechanic::ClearThreat => "Makes a mob clear its threat table"@,
            Mechanic::CurrencyGive { .. } => {
                "Gives money to a player. Requires Vault and a currency plugin"@
            },
            Mechanic::CurrencyTake { .. } => {
                "Takes money from a player. Requires Vault and a currency plugin"@
            },
            Mechanic::Damage { .. } => "Damages the target for an amount"@,
            Mechanic::BaseDamage { .. } => {
                "Damages the target for a percent of the mob's damage stat"@
            },
            Mechanic::PercentDamage { .. } => "Damages the target for a percent of their health"@,
            Mechanic::Decapitate => "Drops a player head item based on target"@,
            Mechanic::Doppleganger { .. } => "Copies the appearance of the target player"@,
            Mechanic::DropItem { .. } => "Drops an item or droptable at the target location"@,
            Mechanic::EjectPassenger => "Ejects anything riding the caster"@,
            Mechanic::Ender => "Causes the \"Ender\" effect"@,
            Mechanic::EnderBeam { .. } => "Creates an EnderCrystal's beam effect to the target"@,
            Mechanic::EnderDragonResetCrystals => "Generates the EnderDragon crystals"@,
            Mechanic::EnderDragonSetPhase { .. } => "Sets the EnderDragon phase"@,
            Mechanic::EnderDragonSetRespawnPhase { .. } => "Sets the EnderDragon respawn phase"@,
            Mechanic::EnderDragonSpawnPortal { .. } => {
                "Generates the portal of the EnderDragon battle"@
            },
            Mechanic::Equip { .. } => "Causes the casting mob to equip an item"@,
            Mechanic::EquipCopy { .. } => {
                "Causes the caster to equip a copy of the target's equipment"@
            },
            Mechanic::Explosion { .. } => "Causes an explosion"@,
            Mechanic::FakeExplosion => "Causes a fake explosion"@,
            Mechanic::Extinguish => "Removes fire ticks from the target entity"@,
            Mechanic::FawePaste { .. } => "Pastes a Schematic using FAWE (Fast Async World Edit)"@,
            Mechanic::Feed { .. } => "Feeds the target player"@,
            Mechanic::FillChest { .. } => "Fills a chest with items, or a droptable"@,
            Mechanic::Firework { .. } => "Creates a firework effect at the target"@,
            Mechanic::Flames => "Creates the flames effect at the location of the targeter"@,
            Mechanic::Fly => "Applies an aura that allows the targeted player to fly"@,
            Mechanic::ForcePull { .. } => "Teleports the target to the caster"@,
            Mechanic::Freeze { .. } => {
                "Freezes the target for the given number of ticks using the Powdered Snow freezing effect"@
            },
            Mechanic::Geyser { .. } => "Creates a \"geyser\" of water or lava"@,
            Mechanic::GiveItem { .. } => "Gives an item to the target"@,
            Mechanic::GiveItemFromSlot { .. } => {
                "Gives an item to the target from the item in the given slot of caster"@
            },
            Mechanic::GiveItemFromTarget { .. } => {
                "Gives the caster an item while playing the pickup-item animation from the target entity or location"@
            },
            Mechanic::Glow { .. } => "Makes the target glow"@,
            Mechanic::GoatRam => "Causes the casting goat mob to ram the targeted entity"@,
            Mechanic::GoTo { .. } => {
                "Move toward the location of the targeter (entity or location)"@
            },
            Mechanic::GuardianBeam { .. } => {
                "Draws a guardian beam between the origin and the target"@
            },
            Mechanic::Heal { .. } => "Heals the target"@,
            Mechanic::HealPercent { .. } => "Heals the target for a percentage of its max-health"@,
            Mechanic::Hide { .. } => {
                "Hides the caster from the targeted player(s) for a set duration"@
            },
            Mechanic::Hit { .. } => "Simulates a physical hit from the mob"@,
            Mechanic::Hologram { .. } => "Summons a hologram to the targeted location"@,
            Mechanic::Ignite { .. } => "Sets the target on fire"@,
            Mechanic::ItemSpray { .. } => {
                "Causes an explosion of temporary items at the target location"@
            },
            Mechanic::JSONMessage { .. } => "Sends a JSON-format message to the target player(s)"@,
            Mechanic::Jump { .. } => "Causes the caster to jump"@,
            Mechanic::Leap { .. } => "Causes the caster to leap towards the target"@,
            Mechanic::Lightning { .. } => "Strikes lightning at the target"@,
            Mechanic::FakeLightning { .. } => "Strikes a fake lightning at the target"@,
            Mechanic::Log { .. } => "Logs a message to console"@,
            Mechanic::Look { .. } => "Causes the caster to look at the target"@,
            Mechanic::Lunge { .. } => "Causes the caster to lunge forward at the target"@,
            Mechanic::MatchRotation { .. } => {
                "Sets the caster's yaw and pitch to the same value of the target's"@
            },
            Mechanic::Message { .. } => "Sends a message to the target player(s)"@,
            Mechanic::ModifyDamage { .. } => "Modifies the damage event that triggered the skill"@,
            Mechanic::ModifyGlobalScore { .. } => {
                "Modifies a scoreboard value of the fake player: GLOBAL"@
            },
            Mechanic::ModifyTargetScore { .. } => "Modifies a scoreboard value of the target"@,
            Mechanic::ModifyMobScore { .. } => "Modifies a scoreboard value of the casting mob"@,
            Mechanic::ModifyScore { .. } => "Modifies the score of a dummy player"@,
            Mechanic::Mount { .. } => "Summons a mob for the caster and mounts it"@,
            Mechanic::MountMe { .. } => "Forces the targeted entity to mount the caster"@,
            Mechanic::MountTarget { .. } => "Mounts the target"@,
            Mechanic::MovePin { .. } => "Moves the given pin to the target location"@,
            Mechanic::OpenTrades => {
                "Opens the trades of the casting villager to the target player"@
            },
            Mechanic::Oxygen { .. } => "Gives oxygen to a player target"@,
            Mechanic::Particle { .. } => "Creates particle effects around the target"@,
            Mechanic::ParticleBox { .. } => "Draws a box of particles around the target"@,
            Mechanic::ParticleEquation { .. } => "Generates particles based on equations"@,
            Mechanic::ParticleLine { .. } => "Draws a line of particle effects to the target"@,
            Mechanic::ParticleLineHelix { .. } => "Draws a line based helix effect"@,
            Mechanic::ParticleLineRing { .. } => "Draws a particle ring connected by lines"@,
            Mechanic::ParticleOrbital { .. } => {
                "Draws orbiting particle effects around the target"@
            },
            Mechanic::ParticleRing { .. } => "Draws a ring of particles around the target"@,
            Mechanic::ParticleSphere { .. } => "Draws a sphere of particles around the target"@,
            Mechanic::ParticleTornado { .. } => {
                "Draws a persistent \"tornado\" of particles at the target"@
            },
            Mechanic::Atom { .. } => "Creates some particles in the shape of an atom"@,
            Mechanic::PickUpItem { .. } => "Picks up the targeted item"@,
            Mechanic::PlayAnimation { .. } => "Forces the entity to play an animation"@,
            Mechanic::PlayBlockBreakSound { .. } => "Plays a block breaking sound"@,
            Mechanic::PlayBlockFallSound { .. } => "Plays a block falling sound"@,
            Mechanic::PlayBlockHitSound { .. } => "Plays a block hit sound"@,
            Mechanic::PlayBlockPlaceSound { .. } => "Plays a block place sound"@,
            Mechanic::PlayBlockStepSound { .. } => "Plays a block step sound"@,
            Mechanic::PoseArmorStand { .. } => "Changes the pose of the target ArmorStand"@,
            Mechanic::Potion { .. } => "Applies a potion effect to the target"@,
            Mechanic::PotionClear => "Removes all potion effects from target entity"@,
            Mechanic::Prison => "Imprisons the target inside a block"@,
            Mechanic::PrintParentTree => {
                "Prints debug information regarding the Metaskill executing the mechanic and its SkillTree"@
            },
            Mechanic::Propel { .. } => "Propels the caster towards the target"@,
            Mechanic::Pull { .. } => "Pulls the target towards the mob"@,
            Mechanic::PushBlock { .. } => {
                "Pushes the block at the target location in the given direction"@
            },
            Mechanic::PushButton => "Pushes a button at the target location"@,
            Mechanic::RayTrace => "Traces a straight line to the target"@,
            Mechanic::RayTraceTo => {
                "Executes a skill with the result of a raytrace to the target location"@
            },
            Mechanic::Rally { .. } => "Causes other nearby mobs to attack the target"@,
            Mechanic::RandomMessage { .. } => "Sends a random message to the target player"@,
            Mechanic::Recoil { .. } => "Kicks the target's screen in order to simulate a recoil"@,
            Mechanic::Remount => {
                "Remounts the mob the caster originally spawned riding, if it is still alive"@
            },
            Mechanic::Remove => "Removes the target mob"@,
            Mechanic::RemoveHeldItem => "Removes some of the item the target player is holding"@,
            Mechanic::RemoveOwner => "Removes the ownership of the target mob"@,
            Mechanic::ResetAI => {
                "Attempts to reset the AI of a casting mob to the base type's default"@
            },
            Mechanic::RotateTowards { .. } => "Rotates the caster towards the target location"@,
            Mechanic::RunAIGoalSelector => "Change the caster's AIGoalSelectors"@,
            Mechanic::RunAITargetSelector => "Change the caster's AITargetSelectors"@,
            Mechanic::Saddle => "Equips or removes a saddle on the target entity"@,
            Mechanic::SendActionMessage { .. } => {
                "Sends an Actionbar Message to the target player"@
            },
            Mechanic::SendResourcePack { .. } => "Sends a Resource Pack to the target player"@,
            Mechanic::SendTitle { .. } => "Sends a Title/Subtitle Message to the target player"@,
            Mechanic::SendToast { .. } => "Sends an achievement toast to the target player"@,
            Mechanic::SetAI { .. } => "Disables/enables the AI of the target mob"@,
            Mechanic::SetBlockOpen { .. } => "Sets the target block's open state"@,
            Mechanic::SetBlockType { .. } => "Change block type at target location"@,
            Mechanic::SetChunkForceLoaded { .. } => {
                "Sets the force-loaded status of a location's chunk"@
            },
            Mechanic::SetCollidable { .. } => {
                "Sets if the target should have a collidable hitbox or not"@
            },
            Mechanic::SetDragonPodium { .. } => {
                "Sets the position of the dragon's podium at the target location"@
            },
            Mechanic::SetGameMode { .. } => "Sets the Game Mode of the target player"@,
            Mechanic::SetGliding { .. } => "Makes the target glide if they have elytra"@,
            Mechanic::SetGlobalScore { .. } => {
                "Sets a scoreboard value on the fake player: GLOBAL"@
            },
            Mechanic::SetGravity { .. } => "Sets whether gravity affects the target entity"@,
            Mechanic::SetHealth { .. } => "Sets the health of the target entity"@,
            Mechanic::SetInteractionSize { .. } => {
                "Sets the size of the target INTERACTION entity"@
            },
            Mechanic::SetItemGroupCooldown { .. } => {
                "Sets the cooldown on an item group for the target player"@
            },
            Mechanic::SetDisplayEntityItem { .. } => {
                "Sets the item component of ITEM_DISPLAY entities"@
            },
            Mechanic::SetLeashHolder { .. } => "Changes the holder of a mob's lead"@,
            Mechanic::SetLevel { .. } => "Changes the casting mob's level"@,
            Mechanic::SetMaterialCooldown { .. } => {
                "Sets a cooldown for usable materials like ender pearls, chorus fruit, etc"@
            },
            Mechanic::SetMaxHealth { .. } => "Sets the max health of the target entity"@,
            Mechanic::SetMobColor { .. } => {
                "Changes the color of the target if it is a colorable mob"@
            },
            Mechanic::SetMobScore { .. } => "Sets a scoreboard value on the casting mob"@,
            Mechanic::SetName { .. } => "Changes the caster entity's name"@,
            Mechanic::SetRaiderCanJoinRaid { .. } => {
                "Sets if the target raider entity can join a raid or not"@
            },
            Mechanic::SetRaiderPatrolBlock { .. } => "Sets the target raider to patrol a location"@,
            Mechanic::SetRaiderPatrolLeader { .. } => "Sets the raider patrol leader"@,
            Mechanic::SetFaction { .. } => "Changes the target entity's faction"@,
            Mechanic::SetFlying { .. } => "Sets whether the target player is flying"@,
            Mechanic::SetNoDamageTicks { .. } => "Sets the no damage ticks of the target"@,
            Mechanic::SetOwner { .. } => "Makes the target the owner of the casting mob"@,
            Mechanic::SetParent { .. } => "Makes the target the parent of the casting mob"@,
            Mechanic::SetPathfindingMalus { .. } => {
                "Sets the pathfinding malus of a mob for given terrain types"@
            },
            Mechanic::SetPitch { .. } => "Sets the head pitch of the target entity"@,
            Mechanic::SetPose { .. } => "Sets the entity's pose"@,
            Mechanic::SetRotation { .. } => "Sets the rotation of the target"@,
            Mechanic::SetTarget { .. } => "Sets the caster's target"@,
            Mechanic::SetTargetScore { .. } => "Sets the score of the target"@,
            Mechanic::SetTextDisplay { .. } => {
                "Sets the text component of target Text Display entity"@
            },
            Mechanic::SetTongueTarget { .. } => {
                "Sets the tongue target for a frog caster to the target entity"@
            },
            Mechanic::SetScore { .. } => "Sets the scoreboard value of a dummy player"@,
            Mechanic::SetSpeed { .. } => "Sets the target entity's speed attribute"@,
            Mechanic::SetStance { .. } => "Sets the stance of the target mob"@,
            Mechanic::Shield => "Applies an absorb shield to the target entity"@,
            Mechanic::ShieldBreak => {
                "Forces the player to lower their shield and puts it on cooldown"@
            },
            Mechanic::ShieldPercent { .. } => {
                "Applies an absorb shield to the target entity for a percentage of their max health"@
            },
            Mechanic::ShootFireball { .. } => "Shoots a fireball at the target"@,
            Mechanic::ShootPotion { .. } => "Throws a potion at the target"@,
            Mechanic::ShootSkull { .. } => "Shoots a wither skull at the target"@,
            Mechanic::ShootShulkerBullet { .. } => "Shoots a shulker bullet at the target entity"@,
            Mechanic::ShowEntity { .. } => "Shows the hidden caster to the targeted players"@,
            Mechanic::Signal { .. } => "Sends a signal to a mob"@,
            Mechanic::Skybox { .. } => "Alters the target player's skybox"@,
            Mechanic::Smoke => "Creates a puff of smoke"@,
            Mechanic::SmokeSwirl => "Creates a persistent \"swirl\" of smoke"@,
            Mechanic::Sound { .. } => "Plays a sound effect"@,
            Mechanic::StealItem { .. } => "Steals an item from the target player's inventory"@,
            Mechanic::StopSound { .. } => "Stops a sound effect from playing"@,
            Mechanic::StopSoundWithCategory { .. } => {
                "Stops a sound effect from playing (Specify a category)"@
            },
            Mechanic::Speak { .. } => {
                "Causes the mob to speak in chat, with options for speech bubbles"@
            },
            Mechanic::Spin { .. } => "Causes the target to spin"@,
            Mechanic::Spring { .. } => "Creates a temporary spring of liquid at the target"@,
            Mechanic::Stun { .. } => "Stuns the target entity for a specified duration"@,
            Mechanic::StopUsingItem => "Stops the targeted entity from using an item"@,
            Mechanic::Suicide => "Causes the caster to die"@,
            Mechanic::Summon { .. } => "Summons a mob at the specified location"@,
            Mechanic::SummonAreaEffectCloud { .. } => "Summons a cloud of particles at the target"@,
            Mechanic::SummonFallingBlock { .. } => "Summons a falling block"@,
            Mechanic::SummonPassenger { .. } => "Summons a mob to ride the target."@,
            Mechanic::Swap => "Swaps locations with the target"@,
            Mechanic::SwingOffHand => "Makes the casting player swing their offhand"@,
            Mechanic::AddTag(_) => "Adds a scoreboard tag to the target"@,
            Mechanic::RemoveTag(_) => "Removes a scoreboard tag from the target"@,
            Mechanic::TakeItem { .. } => "Removes an item from the targeted player's inventory"@,
            Mechanic::Taunt => {
                "Modifies the threat level that the caster holds with the target entities"@
            },
            Mechanic::Teleport { .. } => "Teleports to the target"@,
            Mechanic::TeleportY { .. } => "Teleports the caster vertically"@,
            Mechanic::TeleportIn { .. } => "Teleports the target relative to the caster's yaw"@,
            Mechanic::TeleportTo { .. } => "Teleports the target to a specified location"@,
            Mechanic::Time { .. } => "Changes the time"@,
            Mechanic::Threat { .. } => "Modifies the mob's threat towards the target"@,
            Mechanic::Throw { .. } => "Throws the target entity"@,
            Mechanic::ThunderLevel { .. } => "Creates a client-side, per-player rainless storm"@,
            Mechanic::ToggleLever { .. } => "Toggles a lever at the target location"@,
            Mechanic::TogglePiston => "Toggles a piston at the target location"@,
            Mechanic::ToggleSitting(_) => {
                "Toggles the sitting state for cats, dogs, foxes, and parrots. Sets the sitting state"@
            },
            Mechanic::TotemOfUndying { .. } => {
                "Plays the effect of a totem resurrecting a player with options to specify CustomModelData to use from resource packs."@
            },
            Mechanic::TrackLocation => "Sets the mob's tracked location to the targeted location"@,
            Mechanic::UndoPaste { .. } => {
                "Undoes a previous paste done via the fawePaste mechanic, based on its id or on the schematic used"@
            },
            Mechanic::Velocity { .. } => {
                "Modifies the velocity of the targeted entity(s). May be used on players, too. Useful for all sorts of things like true knockback resistance,force-skills or simulated wind."@
            },
            Mechanic::WolfSit(_) => {
                "Forces a targeted wolf to sit. The state the wolf is in. True = sitting and False = standing"@
            },
            Mechanic::WorldEditReplace { .. } => "Replaces blocks in a region using WorldEdit"@,
            Mechanic::Weather { .. } => "Changes the weather for the target player"@,
            Mechanic::AdditionalMecanics { .. } => {
                "Links to mechanics added by addon plugins. Any mechanics from these links will not work without that plugin installed."@
            },
        }
    }

    /// The name of the mechanic.
    pub open spec fn label(self) -> Seq<char> {
        match self {
            Mechanic::ActivateSpawner { .. } => "Activate Spawner"@,
            Mechanic::AddTrade { .. } => "Add Trade"@,
            Mechanic::AnimateArmorStand { .. } => "Animates an armor stand"@,
            Mechanic::ArmAnimation => "Arm Animation"@,
            Mechanic::ArrowVolley { .. } => "Arrow Volley"@,
            Mechanic::AuraRemove { .. } => "Aura Remove"@,
            Mechanic::BlackScreen { .. } => "BlackScreen"@,
            Mechanic::BlockDestabilize => "BlockDestabilize"@,
            Mechanic::BlockMask { .. } => "BlockMask"@,
            Mechanic::BlockUnmask { .. } => "BlockUnmask"@,
            Mechanic::BlockPhysics => "BlockPhysics"@,
            Mechanic::BlockWave { .. } => "BlockWave"@,
            Mechanic::BloodyScreen { .. } => "BloodyScreen"@,
            Mechanic::BoneMeal { .. } => "BoneMeal"@,
            Mechanic::BossBorder { .. } => "BossBorder"@,
            Mechanic::Bouncy { .. } => "Bouncy"@,
            Mechanic::BreakBlock { .. } => "BreakBlock"@,
            Mechanic::BreakBlockAndGiveItem { .. } => "BreakBlockAndGiveItem"@,
            Mechanic::ClearExperience => "ClearExperience"@,
            Mechanic::ClearExperienceLevels => "ClearExperienceLevels"@,
            Mechanic::GiveExperienceLevels { .. } => "GiveExperienceLevels"@,
            Mechanic::TakeExperienceLevels { .. } => "TakeExperienceLevels"@,
            Mechanic::CloseInventory => "CloseInventory"@,
            Mechanic::Command { .. } => "Command"@,
            Mechanic::Consume { .. } => "Consume"@,
            Mechanic::ConsumeSlot { .. } => "ConsumeSlot"@,
            Mechanic::DirectionalVelocity { .. } => "DirectionalVelocity"@,
            Mechanic::Disengage { .. } => "Disengage"@,
            Mechanic::Disguise { .. } => "Disguise"@,
            Mechanic::DisguiseModify { .. } => "DisguiseModify"@,
            Mechanic::DisguiseTarget { .. } => "DisguiseTarget"@,
            Mechanic::Undisguise => "Undisguise"@,
            Mechanic::Dismount => "Dismount"@,
            Mechanic::DisplayTransformation { .. } => "DisplayTransformation"@,
            Mechanic::ClearThreat => "ClearThreat"@,
            Mechanic::CurrencyGive { .. } => "CurrencyGive"@,
            Mechanic::CurrencyTake { .. } => "CurrencyTake"@,
            Mechanic::Damage { .. } => "Damage"@,
            Mechanic::BaseDamage { .. } => "BaseDamage"@,
            Mechanic::PercentDamage { .. } => "PercentDamage"@,
            Mechanic::Decapitate => "Decapitate"@,
            Mechanic::Doppleganger { .. } => "Doppleganger"@,
            Mechanic::DropItem { .. } => "DropItem"@,
            Mechanic::EjectPassenger => "EjectPassenger"@,
            Mechanic::Ender => "Ender"@,
            Mechanic::EnderBeam { .. } => "EnderBeam"@,
            Mechanic::EnderDragonResetCrystals => "EnderDragonResetCrystals"@,
            Mechanic::EnderDragonSetPhase { .. } => "EnderDragonSetPhase"@,
            Mechanic::EnderDragonSetRespawnPhase { .. } => "EnderDragonSetRespawnPhase"@,
            Mechanic::EnderDragonSpawnPortal { .. } => "EnderDragonSpawnPortal"@,
            Mechanic::Equip { .. } => "Equip"@,
            Mechanic::EquipCopy { .. } => "EquipCopy"@,
            Mechanic::Explosion { .. } => "Explosion"@,
            Mechanic::FakeExplosion => "FakeExplosion"@,
            Mechanic::Extinguish => "Extinguish"@,
            Mechanic::FawePaste { .. } => "FawePaste"@,
            Mechanic::Feed { .. } => "Feed"@,
            Mechanic::FillChest { .. } => "FillChest"@,
            Mechanic::Firework { .. } => "Firework"@,
            Mechanic::Flames => "Flames"@,
            Mechanic::Fly => "Fly"@,
            Mechanic::ForcePull { .. } => "ForcePull"@,
            Mechanic::Freeze { .. } => "Freeze"@,
            Mechanic::Geyser { .. } => "Geyser"@,
            Mechanic::GiveItem { .. } => "GiveItem"@,
            Mechanic::GiveItemFromSlot { .. } => "GiveItemFromSlot"@,
            Mechanic::GiveItemFromTarget { .. } => "GiveItemFromTarget"@,
            Mechanic::Glow { .. } => "Glow"@,
            Mechanic::GoatRam => "GoatRam"@,
            Mechanic::GoTo { .. } => "GoTo"@,
            Mechanic::GuardianBeam { .. } => "GuardianBeam"@,
            Mechanic::Heal { .. } => "Heal"@,
            Mechanic::HealPercent { .. } => "HealPercent"@,
            Mechanic::Hide { .. } => "Hide"@,
            Mechanic::Hit { .. } => "Hit"@,
            Mechanic::Hologram { .. } => "Hologram"@,
            Mechanic::Ignite { .. } => "Ignite"@,
            Mechanic::ItemSpray { .. } => "ItemSpray"@,
            Mechanic::JSONMessage { .. } => "JSONMessage"@,
            Mechanic::Jump { .. } => "Jump"@,
            Mechanic::Leap { .. } => "Leap"@,
            Mechanic::Lightning { .. } => "Lightning"@,
            Mechanic::FakeLightning { .. } => "FakeLightning"@,
            Mechanic::Log { .. } => "Log"@,
            Mechanic::Look { .. } => "Look"@,
            Mechanic::Lunge { .. } => "Lunge"@,
            Mechanic::MatchRotation { .. } => "MatchRotation"@,
            Mechanic::Message { .. } => "Message"@,
            Mechanic::ModifyDamage { .. } => "ModifyDamage"@,
            Mechanic::ModifyGlobalScore { .. } => "ModifyGlobalScore"@,
            Mechanic::ModifyTargetScore { .. } => "ModifyTargetScore"@,
            Mechanic::ModifyMobScore { .. } => "ModifyMobScore"@,
            Mechanic::ModifyScore { .. } => "ModifyScore"@,
            Mechanic::Mount { .. } => "Mount"@,
            Mechanic::MountMe { .. } => "MountMe"@,
            Mechanic::MountTarget { .. } => "MountTarget"@,
            Mechanic::MovePin { .. } => "MovePin"@,
            Mechanic::OpenTrades => "OpenTrades"@,
            Mechanic::Oxygen { .. } => "Oxygen"@,
            Mechanic::Particle { .. } => "Particle"@,
            Mechanic::ParticleBox { .. } => "ParticleBox"@,
            Mechanic::ParticleEquation { .. } => "ParticleEquation"@,
            Mechanic::ParticleLine { .. } => "ParticleLine"@,
            Mechanic::ParticleLineHelix { .. } => "ParticleLineHelix"@,
            Mechanic::ParticleLineRing { .. } => "ParticleLineRing"@,
            Mechanic::ParticleOrbital { .. } => "ParticleOrbital"@,
            Mechanic::ParticleRing { .. } => "ParticleRing"@,
            Mechanic::ParticleSphere { .. } => "ParticleSphere"@,
            Mechanic::ParticleTornado { .. } => "ParticleTornado"@,
            Mechanic::Atom { .. } => "Atom"@,
            Mechanic::PickUpItem { .. } => "PickUpItem"@,
            Mechanic::PlayAnimation { .. } => "PlayAnimation"@,
            Mechanic::PlayBlockBreakSound { .. } => "PlayBlockBreakSound"@,
            Mechanic::PlayBlockFallSound { .. } => "PlayBlockFallSound"@,
            Mechanic::PlayBlockHitSound { .. } => "PlayBlockHitSound"@,
            Mechanic::PlayBlockPlaceSound { .. } => "PlayBlockPlaceSound"@,
            Mechanic::PlayBlockStepSound { .. } => "PlayBlockStepSound"@,
            Mechanic::PoseArmorStand { .. } => "PoseArmorStand"@,
            Mechanic::Potion { .. } => "Potion"@,
            Mechanic::PotionClear => "PotionClear"@,
            Mechanic::Prison => "Prison"@,
            Mechanic::PrintParentTree => "PrintParentTree"@,
            Mechanic::Propel { .. } => "Propel"@,
            Mechanic::Pull { .. } => "Pull"@,
            Mechanic::PushBlock { .. } => "PushBlock"@,
            Mechanic::PushButton => "PushButton"@,
            Mechanic::RayTrace => "RayTrace"@,
            Mechanic::RayTraceTo => "RayTraceTo"@,
            Mechanic::Rally { .. } => "Rally"@,
            Mechanic::RandomMessage { .. } => "RandomMessage"@,
            Mechanic::Recoil { .. } => "Recoil"@,
            Mechanic::Remount => "Remount"@,
            Mechanic::Remove => "Remove"@,
            Mechanic::RemoveHeldItem => "RemoveHeldItem"@,
            Mechanic::RemoveOwner => "RemoveOwner"@,
            Mechanic::ResetAI => "ResetAI"@,
            Mechanic::RotateTowards { .. } => "RotateTowards"@,
            Mechanic::RunAIGoalSelector => "RunAIGoalSelector"@,
            Mechanic::RunAITargetSelector => "RunAITargetSelector"@,
            Mechanic::Saddle => "Saddle"@,
            Mechanic::SendActionMessage { .. } => "SendActionMessage"@,
            Mechanic::SendResourcePack { .. } => "SendResourcePack"@,
            Mechanic::SendTitle { .. } => "SendTitle"@,
            Mechanic::SendToast { .. } => "SendToast"@,
            Mechanic::SetAI { .. } => "SetAI"@,
            Mechanic::SetBlockOpen { .. } => "SetBlockOpen"@,
            Mechanic::SetBlockType { .. } => "SetBlockType"@,
            Mechanic::SetChunkForceLoaded { .. } => "SetChunkForceLoaded"@,
            Mechanic::SetCollidable { .. } => "SetCollidable"@,
            Mechanic::SetDragonPodium { .. } => "SetDragonPodium"@,
            Mechanic::SetGameMode { .. } => "SetGameMode"@,
            Mechanic::SetGliding { .. } => "SetGliding"@,
            Mechanic::SetGlobalScore { .. } => "SetGlobalScore"@,
            Mechanic::SetGravity { .. } => "SetGravity"@,
            Mechanic::SetHealth { .. } => "SetHealth"@,
            Mechanic::SetInteractionSize { .. } => "SetInteractionSize"@,
            Mechanic::SetItemGroupCooldown { .. } => "SetItemGroupCooldown"@,
            Mechanic::SetDisplayEntityItem { .. } => "SetDisplayEntityItem"@,
            Mechanic::SetLeashHolder { .. } => "SetLeashHolder"@,
            Mechanic::SetLevel { .. } => "SetLevel"@,
            Mechanic::SetMaterialCooldown { .. } => "SetMaterialCooldown"@,
            Mechanic::SetMaxHealth { .. } => "SetMaxHealth"@,
            Mechanic::SetMobColor { .. } => "SetMobColor"@,
            Mechanic::SetMobScore { .. } => "SetMobScore"@,
            Mechanic::SetName { .. } => "SetName"@,
            Mechanic::SetRaiderCanJoinRaid { .. } => "SetRaiderCanJoinRaid"@,
            Mechanic::SetRaiderPatrolBlock { .. } => "SetRaiderPatrolBlock"@,
            Mechanic::SetRaiderPatrolLeader { .. } => "SetRaiderPatrolLeader"@,
            Mechanic::SetFaction { .. } => "SetFaction"@,
            Mechanic::SetFlying { .. } => "SetFlying"@,
            Mechanic::SetNoDamageTicks { .. } => "SetNoDamageTicks"@,
            Mechanic::SetOwner { .. } => "SetOwner"@,
            Mechanic::SetParent { .. } => "SetParent"@,
            Mechanic::SetPathfindingMalus { .. } => "SetPathfindingMalus"@,
            Mechanic::SetPitch { .. } => "SetPitch"@,
            Mechanic::SetPose { .. } => "SetPose"@,
            Mechanic::SetRotation { .. } => "SetRotation"@,
            Mechanic::SetTarget { .. } => "SetTarget"@,
            Mechanic::SetTargetScore { .. } => "SetTargetScore"@,
            Mechanic::SetTextDisplay { .. } => "SetTextDisplay"@,
            Mechanic::SetTongueTarget { .. } => "SetTongueTarget"@,
            Mechanic::SetScore { .. } => "SetScore"@,
            Mechanic::SetSpeed { .. } => "SetSpeed"@,
            Mechanic::SetStance { .. } => "SetStance"@,
            Mechanic::Shield => "Shield"@,
            Mechanic::ShieldBreak => "ShieldBreak"@,
            Mechanic::ShieldPercent { .. } => "ShieldPercent"@,
            Mechanic::ShootFireball { .. } => "ShootFireball"@,
            Mechanic::ShootPotion { .. } => "ShootPotion"@,
            Mechanic::ShootSkull { .. } => "ShootSkull"@,
            Mechanic::ShootShulkerBullet { .. } => "ShootShulkerBullet"@,
            Mechanic::ShowEntity { .. } => "ShowEntity"@,
            Mechanic::Signal { .. } => "Signal"@,
            Mechanic::Skybox { .. } => "Skybox"@,
            Mechanic::Smoke => "Smoke"@,
            Mechanic::SmokeSwirl => "SmokeSwirl"@,
            Mechanic::Sound { .. } => "Sound"@,
            Mechanic::StealItem { .. } => "StealItem"@,
            Mechanic::StopSound { .. } => "StopSound"@,
            Mechanic::StopSoundWithCategory { .. } => "StopSoundWithCategory"@,
            Mechanic::Speak { .. } => "Speak"@,
            Mechanic::Spin { .. } => "Spin"@,
            Mechanic::Spring { .. } => "Spring"@,
            Mechanic::Stun { .. } => "Stun"@,
            Mechanic::StopUsingItem => "StopUsingItem"@,
            Mechanic::Suicide => "Suicide"@,
            Mechanic::Summon { .. } => "Summon"@,
            Mechanic::SummonAreaEffectCloud { .. } => "SummonAreaEffectCloud"@,
            Mechanic::SummonFallingBlock { .. } => "SummonFallingBlock"@,
            Mechanic::SummonPassenger { .. } => "SummonPassenger"@,
            Mechanic::Swap => "Swap"@,
            Mechanic::SwingOffHand => "SwingOffHand"@,
            Mechanic::AddTag(_) => "AddTa"@,
            Mechanic::RemoveTag(_) => "RemoveTa"@,
            Mechanic::TakeItem { .. } => "TakeItem"@,
            Mechanic::Taunt => "Taunt"@,
            Mechanic::Teleport { .. } => "Teleport"@,
            Mechanic::TeleportY { .. } => "TeleportY"@,
            Mechanic::TeleportIn { .. } => "TeleportIn"@,
            Mechanic::TeleportTo { .. } => "TeleportTo"@,
            Mechanic::Time { .. } => "Time"@,
            Mechanic::Threat { .. } => "Threat"@,
            Mechanic::Throw { .. } => "Throw"@,
            Mechanic::ThunderLevel { .. } => "ThunderLevel"@,
            Mechanic::ToggleLever { .. } => "ToggleLever"@,
            Mechanic::TogglePiston => "TogglePiston"@,
            Mechanic::ToggleSitting(_) => "ToggleSittin"@,
            Mechanic::TotemOfUndying { .. } => "TotemOfUndying"@,
            Mechanic::TrackLocation => "TrackLocation"@,
            Mechanic::UndoPaste { .. } => "UndoPaste"@,
            Mechanic::Velocity { .. } => "Velocity"@,
            Mechanic::WolfSit(_) => "WolfSi"@,
            Mechanic::WorldEditReplace { .. } => "WorldEditReplace"@,
            Mechanic::Weather { .. } => "Weather"@,
            Mechanic::AdditionalMecanics { .. } => "AdditionalMecanics"@,
        }
    }

    /// Returns a sentence on what the mechanic does. It is never empty.
    pub fn get_desc(&self) -> (desc: &'static str)
        ensures
            desc@ == self.description(),
            desc@.len() > 0,
    {
        let desc = match self {
            Mechanic::ActivateSpawner { .. } => {
                "Activates a MythicMobs spawner at the targeted location"
            },
            Mechanic::AddTrade { .. } => "Changes the trades of a villager",
            Mechanic::AnimateArmorStand { .. } => "Animates an armor stand",
            Mechanic::ArmAnimation => "Makes the caster swing their arm",
            Mechanic::ArrowVolley { .. } => "Fires a volley of arrows",
            Mechanic::AuraRemove { .. } => "Adds an attribute modifier to the attributable target",
            Mechanic::BlackScreen { .. } => "Creates a custom boss bar on the casting mob",
            Mechanic::BlockDestabilize => {
                "Causes the targeted blocks to fall, as if affected by gravity"
            },
            Mechanic::BlockMask { .. } => "Temporarily masks a block as a different block",
            Mechanic::BlockUnmask { .. } => "Unmasks blocks that have been masked",
            Mechanic::BlockPhysics => "Triggers a block physics update at the target location",
            Mechanic::BlockWave { .. } => "Creates a wave of blocks at the target location",
            Mechanic::BloodyScreen { .. } => "Makes the target's screen glow red",
            Mechanic::BoneMeal { .. } => "Applies a bone meal effect to the target blocks",
            Mechanic::BossBorder { .. } => "Creates an inescapable border around the mob",
            Mechanic::Bouncy { .. } => "Creates an inescapable border around the mob",
            Mechanic::BreakBlock { .. } => "Breaks the block at the target location",
            Mechanic::BreakBlockAndGiveItem { .. } => {
                "Breaks the block at the target location and gives an item/droptable"
            },
            Mechanic::ClearExperience => "Clears the experience for the targeted players",
            Mechanic::ClearExperienceLevels => {
                " Clears the experience levels for the targeted players"
            },
            Mechanic::GiveExperienceLevels { .. } => {
                "Gives experience levels to the targeted players"
            },
            Mechanic::TakeExperienceLevels { .. } => {
                "Takes experience levels from the targeted players"
            },
            Mechanic::CloseInventory => "Closes the target player's inventory",
            Mechanic::Command { .. } => "Executes a command for each target",
            Mechanic::Consume { .. } => "Deals damage and restores health per target hit",
            Mechanic::ConsumeSlot { .. } => {
                "Removes an item from a specific slot of the player's inventory"
            },
            Mechanic::DirectionalVelocity { .. } => {
                "Changes the velocity on the target entity on a specific vector"
            },
            Mechanic::Disengage { .. } => {
                "Causes the caster to leap backwards away from the target entity"
            },
            Mechanic::Disguise { .. } => "Changes the caster's disguise",
            Mechanic::DisguiseModify { .. } => "Modifies the caster's already applied disguise",
            Mechanic::DisguiseTarget { .. } => "Changes the target's disguise",
            Mechanic::Undisguise => "Removes the caster's disguise",
            Mechanic::Dismount => "Makes the caster dismount whatever they're riding",
            Mechanic::DisplayTransformation { .. } => {
                "Sets the targeted display entity's transformations"
            },
            Mechanic::ClearThreat => "Makes a mob clear its threat table",
            Mechanic::CurrencyGive { .. } => {
                "Gives money to a player. Requires Vault and a currency plugin"
            },
            Mechanic::CurrencyTake { .. } => {
                "Takes money from a player. Requires Vault and a currency plugin"
            },
            Mechanic::Damage { .. } => "Damages the target for an amount",
            Mechanic::BaseDamage { .. } => {
                "Damages the target for a percent of the mob's damage stat"
            },
            Mechanic::PercentDamage { .. } => "Damages the target for a percent of their health",
            Mechanic::Decapitate => "Drops a player head item based on target",
            Mechanic::Doppleganger { .. } => "Copies the appearance of the target player",
            Mechanic::DropItem { .. } => "Drops an item or droptable at the target location",
            Mechanic::EjectPassenger => "Ejects anything riding the caster",
            Mechanic::Ender => "Causes the \"Ender\" effect",
            Mechanic::EnderBeam { .. } => "Creates an EnderCrystal's beam effect to the target",
            Mechanic::EnderDragonResetCrystals => "Generates the EnderDragon crystals",
            Mechanic::EnderDragonSetPhase { .. } => "Sets the EnderDragon phase",
            Mechanic::EnderDragonSetRespawnPhase { .. } => "Sets the EnderDragon respawn phase",
            Mechanic::EnderDragonSpawnPortal { .. } => {
                "Generates the portal of the EnderDragon battle"
            },
            Mechanic::Equip { .. } => "Causes the casting mob to equip an item",
            Mechanic::EquipCopy { .. } => {
                "Causes the caster to equip a copy of the target's equipment"
            },
            Mechanic::Explosion { .. } => "Causes an explosion",
            Mechanic::FakeExplosion => "Causes a fake explosion",
            Mechanic::Extinguish => "Removes fire ticks from the target entity",
            Mechanic::FawePaste { .. } => "Pastes a Schematic using FAWE (Fast Async World Edit)",
            Mechanic::Feed { .. } => "Feeds the target player",
            Mechanic::FillChest { .. } => "Fills a chest with items, or a droptable",
            Mechanic::Firework { .. } => "Creates a firework effect at the target",
            Mechanic::Flames => "Creates the flames effect at the location of the targeter",
            Mechanic::Fly => "Applies an aura that allows the targeted player to fly",
            Mechanic::ForcePull { .. } => "Teleports the target to the caster",
            Mechanic::Freeze { .. } => {
                "Freezes the target for the given number of ticks using the Powdered Snow freezing effect"
            },
            Mechanic::Geyser { .. } => "Creates a \"geyser\" of water or lava",
            Mechanic::GiveItem { .. } => "Gives an item to the target",
            Mechanic::GiveItemFromSlot { .. } => {
                "Gives an item to the target from the item in the given slot of caster"
            },
            Mechanic::GiveItemFromTarget { .. } => {
                "Gives the caster an item while playing the pickup-item animation from the target entity or location"
            },
            Mechanic::Glow { .. } => "Makes the target glow",
            Mechanic::GoatRam => "Causes the casting goat mob to ram the targeted entity",
            Mechanic::GoTo { .. } => {
                "Move toward the location of the targeter (entity or location)"
            },
            Mechanic::GuardianBeam { .. } => {
                "Draws a guardian beam between the origin and the target"
            },
            Mechanic::Heal { .. } => "Heals the target",
            Mechanic::HealPercent { .. } => "Heals the target for a percentage of its max-health",
            Mechanic::Hide { .. } => {
                "Hides the caster from the targeted player(s) for a set duration"
            },
            Mechanic::Hit { .. } => "Simulates a physical hit from the mob",
            Mechanic::Hologram { .. } => "Summons a hologram to the targeted location",
            Mechanic::Ignite { .. } => "Sets the target on fire",
            Mechanic::ItemSpray { .. } => {
                "Causes an explosion of temporary items at the target location"
            },
            Mechanic::JSONMessage { .. } => "Sends a JSON-format message to the target player(s)",
            Mechanic::Jump { .. } => "Causes the caster to jump",
            Mechanic::Leap { .. } => "Causes the caster to leap towards the target",
            Mechanic::Lightning { .. } => "Strikes lightning at the target",
            Mechanic::FakeLightning { .. } => "Strikes a fake lightning at the target",
            Mechanic::Log { .. } => "Logs a message to console",
            Mechanic::Look { .. } => "Causes the caster to look at the target",
            Mechanic::Lunge { .. } => "Causes the caster to lunge forward at the target",
            Mechanic::MatchRotation { .. } => {
                "Sets the caster's yaw and pitch to the same value of the target's"
            },
            Mechanic::Message { .. } => "Sends a message to the target player(s)",
            Mechanic::ModifyDamage { .. } => "Modifies the damage event that triggered the skill",
            Mechanic::ModifyGlobalScore { .. } => {
                "Modifies a scoreboard value of the fake player: GLOBAL"
            },
            Mechanic::ModifyTargetScore { .. } => "Modifies a scoreboard value of the target",
            Mechanic::ModifyMobScore { .. } => "Modifies a scoreboard value of the casting mob",
            Mechanic::ModifyScore { .. } => "Modifies the score of a dummy player",
            Mechanic::Mount { .. } => "Summons a mob for the caster and mounts it",
            Mechanic::MountMe { .. } => "Forces the targeted entity to mount the caster",
            Mechanic::MountTarget { .. } => "Mounts the target",
            Mechanic::MovePin { .. } => "Moves the given pin to the target location",
            Mechanic::OpenTrades => "Opens the trades of the casting villager to the target player",
            Mechanic::Oxygen { .. } => "Gives oxygen to a player target",
            Mechanic::Particle { .. } => "Creates particle effects around the target",
            Mechanic::ParticleBox { .. } => "Draws a box of particles around the target",
            Mechanic::ParticleEquation { .. } => "Generates particles based on equations",
            Mechanic::ParticleLine { .. } => "Draws a line of particle effects to the target",
            Mechanic::ParticleLineHelix { .. } => "Draws a line based helix effect",
            Mechanic::ParticleLineRing { .. } => "Draws a particle ring connected by lines",
            Mechanic::ParticleOrbital { .. } => "Draws orbiting particle effects around the target",
            Mechanic::ParticleRing { .. } => "Draws a ring of particles around the target",
            Mechanic::ParticleSphere { .. } => "Draws a sphere of particles around the target",
            Mechanic::ParticleTornado { .. } => {
                "Draws a persistent \"tornado\" of particles at the target"
            },
            Mechanic::Atom { .. } => "Creates some particles in the shape of an atom",
            Mechanic::PickUpItem { .. } => "Picks up the targeted item",
            Mechanic::PlayAnimation { .. } => "Forces the entity to play an animation",
            Mechanic::PlayBlockBreakSound { .. } => "Plays a block breaking sound",
            Mechanic::PlayBlockFallSound { .. } => "Plays a block falling sound",
            Mechanic::PlayBlockHitSound { .. } => "Plays a block hit sound",
            Mechanic::PlayBlockPlaceSound { .. } => "Plays a block place sound",
            Mechanic::PlayBlockStepSound { .. } => "Plays a block step sound",
            Mechanic::PoseArmorStand { .. } => "Changes the pose of the target ArmorStand",
            Mechanic::Potion { .. } => "Applies a potion effect to the target",
            Mechanic::PotionClear => "Removes all potion effects from target entity",
            Mechanic::Prison => "Imprisons the target inside a block",
            Mechanic::PrintParentTree => {
                "Prints debug information regarding the Metaskill executing the mechanic and its SkillTree"
            },
            Mechanic::Propel { .. } => "Propels the caster towards the target",
            Mechanic::Pull { .. } => "Pulls the target towards the mob",
            Mechanic::PushBlock { .. } => {
                "Pushes the block at the target location in the given direction"
            },
            Mechanic::PushButton => "Pushes a button at the target location",
            Mechanic::RayTrace => "Traces a straight line to the target",
            Mechanic::RayTraceTo => {
                "Executes a skill with the result of a raytrace to the target location"
            },
            Mechanic::Rally { .. } => "Causes other nearby mobs to attack the target",
            Mechanic::RandomMessage { .. } => "Sends a random message to the target player",
            Mechanic::Recoil { .. } => "Kicks the target's screen in order to simulate a recoil",
            Mechanic::Remount => {
                "Remounts the mob the caster originally spawned riding, if it is still alive"
            },
            Mechanic::Remove => "Removes the target mob",
            Mechanic::RemoveHeldItem => "Removes some of the item the target player is holding",
            Mechanic::RemoveOwner => "Removes the ownership of the target mob",
            Mechanic::ResetAI => {
                "Attempts to reset the AI of a casting mob to the base type's default"
            },
            Mechanic::RotateTowards { .. } => "Rotates the caster towards the target location",
            Mechanic::RunAIGoalSelector => "Change the caster's AIGoalSelectors",
            Mechanic::RunAITargetSelector => "Change the caster's AITargetSelectors",
            Mechanic::Saddle => "Equips or removes a saddle on the target entity",
            Mechanic::SendActionMessage { .. } => "Sends an Actionbar Message to the target player",
            Mechanic::SendResourcePack { .. } => "Sends a Resource Pack to the target player",
            Mechanic::SendTitle { .. } => "Sends a Title/Subtitle Message to the target player",
            Mechanic::SendToast { .. } => "Sends an achievement toast to the target player",
            Mechanic::SetAI { .. } => "Disables/enables the AI of the target mob",
            Mechanic::SetBlockOpen { .. } => "Sets the target block's open state",
            Mechanic::SetBlockType { .. } => "Change block type at target location",
            Mechanic::SetChunkForceLoaded { .. } => {
                "Sets the force-loaded status of a location's chunk"
            },
            Mechanic::SetCollidable { .. } => {
                "Sets if the target should have a collidable hitbox or not"
            },
            Mechanic::SetDragonPodium { .. } => {
                "Sets the position of the dragon's podium at the target location"
            },
            Mechanic::SetGameMode { .. } => "Sets the Game Mode of the target player",
            Mechanic::SetGliding { .. } => "Makes the target glide if they have elytra",
            Mechanic::SetGlobalScore { .. } => "Sets a scoreboard value on the fake player: GLOBAL",
            Mechanic::SetGravity { .. } => "Sets whether gravity affects the target entity",
            Mechanic::SetHealth { .. } => "Sets the health of the target entity",
            Mechanic::SetInteractionSize { .. } => "Sets the size of the target INTERACTION entity",
            Mechanic::SetItemGroupCooldown { .. } => {
                "Sets the cooldown on an item group for the target player"
            },
            Mechanic::SetDisplayEntityItem { .. } => {
                "Sets the item component of ITEM_DISPLAY entities"
            },
            Mechanic::SetLeashHolder { .. } => "Changes the holder of a mob's lead",
            Mechanic::SetLevel { .. } => "Changes the casting mob's level",
            Mechanic::SetMaterialCooldown { .. } => {
                "Sets a cooldown for usable materials like ender pearls, chorus fruit, etc"
            },
            Mechanic::SetMaxHealth { .. } => "Sets the max health of the target entity",
            Mechanic::SetMobColor { .. } => {
                "Changes the color of the target if it is a colorable mob"
            },
            Mechanic::SetMobScore { .. } => "Sets a scoreboard value on the casting mob",
            Mechanic::SetName { .. } => "Changes the caster entity's name",
            Mechanic::SetRaiderCanJoinRaid { .. } => {
                "Sets if the target raider entity can join a raid or not"
            },
            Mechanic::SetRaiderPatrolBlock { .. } => "Sets the target raider to patrol a location",
            Mechanic::SetRaiderPatrolLeader { .. } => "Sets the raider patrol leader",
            Mechanic::SetFaction { .. } => "Changes the target entity's faction",
            Mechanic::SetFlying { .. } => "Sets whether the target player is flying",
            Mechanic::SetNoDamageTicks { .. } => "Sets the no damage ticks of the target",
            Mechanic::SetOwner { .. } => "Makes the target the owner of the casting mob",
            Mechanic::SetParent { .. } => "Makes the target the parent of the casting mob",
            Mechanic::SetPathfindingMalus { .. } => {
                "Sets the pathfinding malus of a mob for given terrain types"
            },
            Mechanic::SetPitch { .. } => "Sets the head pitch of the target entity",
            Mechanic::SetPose { .. } => "Sets the entity's pose",
            Mechanic::SetRotation { .. } => "Sets the rotation of the target",
            Mechanic::SetTarget { .. } => "Sets the caster's target",
            Mechanic::SetTargetScore { .. } => "Sets the score of the target",
            Mechanic::SetTextDisplay { .. } => {
                "Sets the text component of target Text Display entity"
            },
            Mechanic::SetTongueTarget { .. } => {
                "Sets the tongue target for a frog caster to the target entity"
            },
            Mechanic::SetScore { .. } => "Sets the scoreboard value of a dummy player",
            Mechanic::SetSpeed { .. } => "Sets the target entity's speed attribute",
            Mechanic::SetStance { .. } => "Sets the stance of the target mob",
            Mechanic::Shield => "Applies an absorb shield to the target entity",
            Mechanic::ShieldBreak => {
                "Forces the player to lower their shield and puts it on cooldown"
            },
            Mechanic::ShieldPercent { .. } => {
                "Applies an absorb shield to the target entity for a percentage of their max health"
            },
            Mechanic::ShootFireball { .. } => "Shoots a fireball at the target",
            Mechanic::ShootPotion { .. } => "Throws a potion at the target",
            Mechanic::ShootSkull { .. } => "Shoots a wither skull at the target",
            Mechanic::ShootShulkerBullet { .. } => "Shoots a shulker bullet at the target entity",
            Mechanic::ShowEntity { .. } => "Shows the hidden caster to the targeted players",
            Mechanic::Signal { .. } => "Sends a signal to a mob",
            Mechanic::Skybox { .. } => "Alters the target player's skybox",
            Mechanic::Smoke => "Creates a puff of smoke",
            Mechanic::SmokeSwirl => "Creates a persistent \"swirl\" of smoke",
            Mechanic::Sound { .. } => "Plays a sound effect",
            Mechanic::StealItem { .. } => "Steals an item from the target player's inventory",
            Mechanic::StopSound { .. } => "Stops a sound effect from playing",
            Mechanic::StopSoundWithCategory { .. } => {
                "Stops a sound effect from playing (Specify a category)"
            },
            Mechanic::Speak { .. } => {
                "Causes the mob to speak in chat, with options for speech bubbles"
            },
            Mechanic::Spin { .. } => "Causes the target to spin",
            Mechanic::Spring { .. } => "Creates a temporary spring of liquid at the target",
            Mechanic::Stun { .. } => "Stuns the target entity for a specified duration",
            Mechanic::StopUsingItem => "Stops the targeted entity from using an item",
            Mechanic::Suicide => "Causes the caster to die",
            Mechanic::Summon { .. } => "Summons a mob at the specified location",
            Mechanic::SummonAreaEffectCloud { .. } => "Summons a cloud of particles at the target",
            Mechanic::SummonFallingBlock { .. } => "Summons a falling block",
            Mechanic::SummonPassenger { .. } => "Summons a mob to ride the target.",
            Mechanic::Swap => "Swaps locations with the target",
            Mechanic::SwingOffHand => "Makes the casting player swing their offhand",
            Mechanic::AddTag(_) => "Adds a scoreboard tag to the target",
            Mechanic::RemoveTag(_) => "Removes a scoreboard tag from the target",
            Mechanic::TakeItem { .. } => "Removes an item from the targeted player's inventory",
            Mechanic::Taunt => {
                "Modifies the threat level that the caster holds with the target entities"
            },
            Mechanic::Teleport { .. } => "Teleports to the target",
            Mechanic::TeleportY { .. } => "Teleports the caster vertically",
            Mechanic::TeleportIn { .. } => "Teleports the target relative to the caster's yaw",
            Mechanic::TeleportTo { .. } => "Teleports the target to a specified location",
            Mechanic::Time { .. } => "Changes the time",
            Mechanic::Threat { .. } => "Modifies the mob's threat towards the target",
            Mechanic::Throw { .. } => "Throws the target entity",
            Mechanic::ThunderLevel { .. } => "Creates a client-side, per-player rainless storm",
            Mechanic::ToggleLever { .. } => "Toggles a lever at the target location",
            Mechanic::TogglePiston => "Toggles a piston at the target location",
            Mechanic::ToggleSitting(_) => {
                "Toggles the sitting state for cats, dogs, foxes, and parrots. Sets the sitting state"
            },
            Mechanic::TotemOfUndying { .. } => {
                "Plays the effect of a totem resurrecting a player with options to specify CustomModelData to use from resource packs."
            },
            Mechanic::TrackLocation => "Sets the mob's tracked location to the targeted location",
            Mechanic::UndoPaste { .. } => {
                "Undoes a previous paste done via the fawePaste mechanic, based on its id or on the schematic used"
            },
            Mechanic::Velocity { .. } => {
                "Modifies the velocity of the targeted entity(s). May be used on players, too. Useful for all sorts of things like true knockback resistance,force-skills or simulated wind."
            },
            Mechanic::WolfSit(_) => {
                "Forces a targeted wolf to sit. The state the wolf is in. True = sitting and False = standing"
            },
            Mechanic::WorldEditReplace { .. } => "Replaces blocks in a region using WorldEdit",
            Mechanic::Weather { .. } => "Changes the weather for the target player",
            Mechanic::AdditionalMecanics { .. } => {
                "Links to mechanics added by addon plugins. Any mechanics from these links will not work without that plugin installed."
            },
        };
        proof {
            self.lemma_description_not_empty();
        }
        desc
    }

    /// Returns the name of the mechanic. It is never empty.
    pub fn get_fields(&self) -> (label: &'static str)
        ensures
            label@ == self.label(),
            label@.len() > 0,
    {
        let label = match self {
            Mechanic::ActivateSpawner { .. } => "Activate Spawner",
            Mechanic::AddTrade { .. } => "Add Trade",
            Mechanic::AnimateArmorStand { .. } => "Animates an armor stand",
            Mechanic::ArmAnimation => "Arm Animation",
            Mechanic::ArrowVolley { .. } => "Arrow Volley",
            Mechanic::AuraRemove { .. } => "Aura Remove",
            Mechanic::BlackScreen { .. } => "BlackScreen",
            Mechanic::BlockDestabilize => "BlockDestabilize",
            Mechanic::BlockMask { .. } => "BlockMask",
            Mechanic::BlockUnmask { .. } => "BlockUnmask",
            Mechanic::BlockPhysics => "BlockPhysics",
            Mechanic::BlockWave { .. } => "BlockWave",
            Mechanic::BloodyScreen { .. } => "BloodyScreen",
            Mechanic::BoneMeal { .. } => "BoneMeal",
            Mechanic::BossBorder { .. } => "BossBorder",
            Mechanic::Bouncy { .. } => "Bouncy",
            Mechanic::BreakBlock { .. } => "BreakBlock",
            Mechanic::BreakBlockAndGiveItem { .. } => "BreakBlockAndGiveItem",
            Mechanic::ClearExperience => "ClearExperience",
            Mechanic::ClearExperienceLevels => "ClearExperienceLevels",
            Mechanic::GiveExperienceLevels { .. } => "GiveExperienceLevels",
            Mechanic::TakeExperienceLevels { .. } => "TakeExperienceLevels",
            Mechanic::CloseInventory => "CloseInventory",
            Mechanic::Command { .. } => "Command",
            Mechanic::Consume { .. } => "Consume",
            Mechanic::ConsumeSlot { .. } => "ConsumeSlot",
            Mechanic::DirectionalVelocity { .. } => "DirectionalVelocity",
            Mechanic::Disengage { .. } => "Disengage",
            Mechanic::Disguise { .. } => "Disguise",
            Mechanic::DisguiseModify { .. } => "DisguiseModify",
            Mechanic::DisguiseTarget { .. } => "DisguiseTarget",
            Mechanic::Undisguise => "Undisguise",
            Mechanic::Dismount => "Dismount",
            Mechanic::DisplayTransformation { .. } => "DisplayTransformation",
            Mechanic::ClearThreat => "ClearThreat",
            Mechanic::CurrencyGive { .. } => "CurrencyGive",
            Mechanic::CurrencyTake { .. } => "CurrencyTake",
            Mechanic::Damage { .. } => "Damage",
            Mechanic::BaseDamage { .. } => "BaseDamage",
            Mechanic::PercentDamage { .. } => "PercentDamage",
            Mechanic::Decapitate => "Decapitate",
            Mechanic::Doppleganger { .. } => "Doppleganger",
            Mechanic::DropItem { .. } => "DropItem",
            Mechanic::EjectPassenger => "EjectPassenger",
            Mechanic::Ender => "Ender",
            Mechanic::EnderBeam { .. } => "EnderBeam",
            Mechanic::EnderDragonResetCrystals => "EnderDragonResetCrystals",
            Mechanic::EnderDragonSetPhase { .. } => "EnderDragonSetPhase",
            Mechanic::EnderDragonSetRespawnPhase { .. } => "EnderDragonSetRespawnPhase",
            Mechanic::EnderDragonSpawnPortal { .. } => "EnderDragonSpawnPortal",
            Mechanic::Equip { .. } => "Equip",
            Mechanic::EquipCopy { .. } => "EquipCopy",
            Mechanic::Explosion { .. } => "Explosion",
            Mechanic::FakeExplosion => "FakeExplosion",
            Mechanic::Extinguish => "Extinguish",
            Mechanic::FawePaste { .. } => "FawePaste",
            Mechanic::Feed { .. } => "Feed",
            Mechanic::FillChest { .. } => "FillChest",
            Mechanic::Firework { .. } => "Firework",
            Mechanic::Flames => "Flames",
            Mechanic::Fly => "Fly",
            Mechanic::ForcePull { .. } => "ForcePull",
            Mechanic::Freeze { .. } => "Freeze",
            Mechanic::Geyser { .. } => "Geyser",
            Mechanic::GiveItem { .. } => "GiveItem",
            Mechanic::GiveItemFromSlot { .. } => "GiveItemFromSlot",
            Mechanic::GiveItemFromTarget { .. } => "GiveItemFromTarget",
            Mechanic::Glow { .. } => "Glow",
            Mechanic::GoatRam => "GoatRam",
            Mechanic::GoTo { .. } => "GoTo",
            Mechanic::GuardianBeam { .. } => "GuardianBeam",
            Mechanic::Heal { .. } => "Heal",
            Mechanic::HealPercent { .. } => "HealPercent",
            Mechanic::Hide { .. } => "Hide",
            Mechanic::Hit { .. } => "Hit",
            Mechanic::Hologram { .. } => "Hologram",
            Mechanic::Ignite { .. } => "Ignite",
            Mechanic::ItemSpray { .. } => "ItemSpray",
            Mechanic::JSONMessage { .. } => "JSONMessage",
            Mechanic::Jump { .. } => "Jump",
            Mechanic::Leap { .. } => "Leap",
            Mechanic::Lightning { .. } => "Lightning",
            Mechanic::FakeLightning { .. } => "FakeLightning",
            Mechanic::Log { .. } => "Log",
            Mechanic::Look { .. } => "Look",
            Mechanic::Lunge { .. } => "Lunge",
            Mechanic::MatchRotation { .. } => "MatchRotation",
            Mechanic::Message { .. } => "Message",
            Mechanic::ModifyDamage { .. } => "ModifyDamage",
            Mechanic::ModifyGlobalScore { .. } => "ModifyGlobalScore",
            Mechanic::ModifyTargetScore { .. } => "ModifyTargetScore",
            Mechanic::ModifyMobScore { .. } => "ModifyMobScore",
            Mechanic::ModifyScore { .. } => "ModifyScore",
            Mechanic::Mount { .. } => "Mount",
            Mechanic::MountMe { .. } => "MountMe",
            Mechanic::MountTarget { .. } => "MountTarget",
            Mechanic::MovePin { .. } => "MovePin",
            Mechanic::OpenTrades => "OpenTrades",
            Mechanic::Oxygen { .. } => "Oxygen",
            Mechanic::Particle { .. } => "Particle",
            Mechanic::ParticleBox { .. } => "ParticleBox",
            Mechanic::ParticleEquation { .. } => "ParticleEquation",
            Mechanic::ParticleLine { .. } => "ParticleLine",
            Mechanic::ParticleLineHelix { .. } => "ParticleLineHelix",
            Mechanic::ParticleLineRing { .. } => "ParticleLineRing",
            Mechanic::ParticleOrbital { .. } => "ParticleOrbital",
            Mechanic::ParticleRing { .. } => "ParticleRing",
            Mechanic::ParticleSphere { .. } => "ParticleSphere",
            Mechanic::ParticleTornado { .. } => "ParticleTornado",
            Mechanic::Atom { .. } => "Atom",
            Mechanic::PickUpItem { .. } => "PickUpItem",
            Mechanic::PlayAnimation { .. } => "PlayAnimation",
            Mechanic::PlayBlockBreakSound { .. } => "PlayBlockBreakSound",
            Mechanic::PlayBlockFallSound { .. } => "PlayBlockFallSound",
            Mechanic::PlayBlockHitSound { .. } => "PlayBlockHitSound",
            Mechanic::PlayBlockPlaceSound { .. } => "PlayBlockPlaceSound",
            Mechanic::PlayBlockStepSound { .. } => "PlayBlockStepSound",
            Mechanic::PoseArmorStand { .. } => "PoseArmorStand",
            Mechanic::Potion { .. } => "Potion",
            Mechanic::PotionClear => "PotionClear",
            Mechanic::Prison => "Prison",
            Mechanic::PrintParentTree => "PrintParentTree",
            Mechanic::Propel { .. } => "Propel",
            Mechanic::Pull { .. } => "Pull",
            Mechanic::PushBlock { .. } => "PushBlock",
            Mechanic::PushButton => "PushButton",
            Mechanic::RayTrace => "RayTrace",
            Mechanic::RayTraceTo => "RayTraceTo",
            Mechanic::Rally { .. } => "Rally",
            Mechanic::RandomMessage { .. } => "RandomMessage",
            Mechanic::Recoil { .. } => "Recoil",
            Mechanic::Remount => "Remount",
            Mechanic::Remove => "Remove",
            Mechanic::RemoveHeldItem => "RemoveHeldItem",
            Mechanic::RemoveOwner => "RemoveOwner",
            Mechanic::ResetAI => "ResetAI",
            Mechanic::RotateTowards { .. } => "RotateTowards",
            Mechanic::RunAIGoalSelector => "RunAIGoalSelector",
            Mechanic::RunAITargetSelector => "RunAITargetSelector",
            Mechanic::Saddle => "Saddle",
            Mechanic::SendActionMessage { .. } => "SendActionMessage",
            Mechanic::SendResourcePack { .. } => "SendResourcePack",
            Mechanic::SendTitle { .. } => "SendTitle",
            Mechanic::SendToast { .. } => "SendToast",
            Mechanic::SetAI { .. } => "SetAI",
            Mechanic::SetBlockOpen { .. } => "SetBlockOpen",
            Mechanic::SetBlockType { .. } => "SetBlockType",
            Mechanic::SetChunkForceLoaded { .. } => "SetChunkForceLoaded",
            Mechanic::SetCollidable { .. } => "SetCollidable",
            Mechanic::SetDragonPodium { .. } => "SetDragonPodium",
            Mechanic::SetGameMode { .. } => "SetGameMode",
            Mechanic::SetGliding { .. } => "SetGliding",
            Mechanic::SetGlobalScore { .. } => "SetGlobalScore",
            Mechanic::SetGravity { .. } => "SetGravity",
            Mechanic::SetHealth { .. } => "SetHealth",
            Mechanic::SetInteractionSize { .. } => "SetInteractionSize",
            Mechanic::SetItemGroupCooldown { .. } => "SetItemGroupCooldown",
            Mechanic::SetDisplayEntityItem { .. } => "SetDisplayEntityItem",
            Mechanic::SetLeashHolder { .. } => "SetLeashHolder",
            Mechanic::SetLevel { .. } => "SetLevel",
            Mechanic::SetMaterialCooldown { .. } => "SetMaterialCooldown",
            Mechanic::SetMaxHealth { .. } => "SetMaxHealth",
            Mechanic::SetMobColor { .. } => "SetMobColor",
            Mechanic::SetMobScore { .. } => "SetMobScore",
            Mechanic::SetName { .. } => "SetName",
            Mechanic::SetRaiderCanJoinRaid { .. } => "SetRaiderCanJoinRaid",
            Mechanic::SetRaiderPatrolBlock { .. } => "SetRaiderPatrolBlock",
            Mechanic::SetRaiderPatrolLeader { .. } => "SetRaiderPatrolLeader",
            Mechanic::SetFaction { .. } => "SetFaction",
            Mechanic::SetFlying { .. } => "SetFlying",
            Mechanic::SetNoDamageTicks { .. } => "SetNoDamageTicks",
            Mechanic::SetOwner { .. } => "SetOwner",
            Mechanic::SetParent { .. } => "SetParent",
            Mechanic::SetPathfindingMalus { .. } => "SetPathfindingMalus",
            Mechanic::SetPitch { .. } => "SetPitch",
            Mechanic::SetPose { .. } => "SetPose",
            Mechanic::SetRotation { .. } => "SetRotation",
            Mechanic::SetTarget { .. } => "SetTarget",
            Mechanic::SetTargetScore { .. } => "SetTargetScore",
            Mechanic::SetTextDisplay { .. } => "SetTextDisplay",
            Mechanic::SetTongueTarget { .. } => "SetTongueTarget",
            Mechanic::SetScore { .. } => "SetScore",
            Mechanic::SetSpeed { .. } => "SetSpeed",
            Mechanic::SetStance { .. } => "SetStance",
            Mechanic::Shield => "Shield",
            Mechanic::ShieldBreak => "ShieldBreak",
            Mechanic::ShieldPercent { .. } => "ShieldPercent",
            Mechanic::ShootFireball { .. } => "ShootFireball",
            Mechanic::ShootPotion { .. } => "ShootPotion",
            Mechanic::ShootSkull { .. } => "ShootSkull",
            Mechanic::ShootShulkerBullet { .. } => "ShootShulkerBullet",
            Mechanic::ShowEntity { .. } => "ShowEntity",
            Mechanic::Signal { .. } => "Signal",
            Mechanic::Skybox { .. } => "Skybox",
            Mechanic::Smoke => "Smoke",
            Mechanic::SmokeSwirl => "SmokeSwirl",
            Mechanic::Sound { .. } => "Sound",
            Mechanic::StealItem { .. } => "StealItem",
            Mechanic::StopSound { .. } => "StopSound",
            Mechanic::StopSoundWithCategory { .. } => "StopSoundWithCategory",
            Mechanic::Speak { .. } => "Speak",
            Mechanic::Spin { .. } => "Spin",
            Mechanic::Spring { .. } => "Spring",
            Mechanic::Stun { .. } => "Stun",
            Mechanic::StopUsingItem => "StopUsingItem",
            Mechanic::Suicide => "Suicide",
            Mechanic::Summon { .. } => "Summon",
            Mechanic::SummonAreaEffectCloud { .. } => "SummonAreaEffectCloud",
            Mechanic::SummonFallingBlock { .. } => "SummonFallingBlock",
            Mechanic::SummonPassenger { .. } => "SummonPassenger",
            Mechanic::Swap => "Swap",
            Mechanic::SwingOffHand => "SwingOffHand",
            Mechanic::AddTag(_) => "AddTa",
            Mechanic::RemoveTag(_) => "RemoveTa",
            Mechanic::TakeItem { .. } => "TakeItem",
            Mechanic::Taunt => "Taunt",
            Mechanic::Teleport { .. } => "Teleport",
            Mechanic::TeleportY { .. } => "TeleportY",
            Mechanic::TeleportIn { .. } => "TeleportIn",
            Mechanic::TeleportTo { .. } => "TeleportTo",
            Mechanic::Time { .. } => "Time",
            Mechanic::Threat { .. } => "Threat",
            Mechanic::Throw { .. } => "Throw",
            Mechanic::ThunderLevel { .. } => "ThunderLevel",
            Mechanic::ToggleLever { .. } => "ToggleLever",
            Mechanic::TogglePiston => "TogglePiston",
            Mechanic::ToggleSitting(_) => "ToggleSittin",
            Mechanic::TotemOfUndying { .. } => "TotemOfUndying",
            Mechanic::TrackLocation => "TrackLocation",
            Mechanic::UndoPaste { .. } => "UndoPaste",
            Mechanic::Velocity { .. } => "Velocity",
            Mechanic::WolfSit(_) => "WolfSi",
            Mechanic::WorldEditReplace { .. } => "WorldEditReplace",
            Mechanic::Weather { .. } => "Weather",
            Mechanic::AdditionalMecanics { .. } => "AdditionalMecanics",
        };
        proof {
            self.lemma_label_not_empty();
        }
        label
    }

    /// Every mechanic has a description.
    pub proof fn lemma_description_not_empty(self)
        ensures
            self.description().len() > 0,
    {
        match self {
            Mechanic::ActivateSpawner { .. } => {
                reveal_strlit("Activates a MythicMobs spawner at the targeted location");
            },
            Mechanic::AddTrade { .. } => {
                reveal_strlit("Changes the trades of a villager");
            },
            Mechanic::AnimateArmorStand { .. } => {
                reveal_strlit("Animates an armor stand");
            },
            Mechanic::ArmAnimation => {
                reveal_strlit("Makes the caster swing their arm");
            },
            Mechanic::ArrowVolley { .. } => {
                reveal_strlit("Fires a volley of arrows");
            },
            Mechanic::AuraRemove { .. } => {
                reveal_strlit("Adds an attribute modifier to the attributable target");
            },
            Mechanic::BlackScreen { .. } => {
                reveal_strlit("Creates a custom boss bar on the casting mob");
            },
            Mechanic::BlockDestabilize => {
                reveal_strlit("Causes the targeted blocks to fall, as if affected by gravity");
            },
            Mechanic::BlockMask { .. } => {
                reveal_strlit("Temporarily masks a block as a different block");
            },
            Mechanic::BlockUnmask { .. } => {
                reveal_strlit("Unmasks blocks that have been masked");
            },
            Mechanic::BlockPhysics => {
                reveal_strlit("Triggers a block physics update at the target location");
            },
            Mechanic::BlockWave { .. } => {
                reveal_strlit("Creates a wave of blocks at the target location");
            },
            Mechanic::BloodyScreen { .. } => {
                reveal_strlit("Makes the target's screen glow red");
            },
            Mechanic::BoneMeal { .. } => {
                reveal_strlit("Applies a bone meal effect to the target blocks");
            },
            Mechanic::BossBorder { .. } => {
                reveal_strlit("Creates an inescapable border around the mob");
            },
            Mechanic::Bouncy { .. } => {
                reveal_strlit("Creates an inescapable border around the mob");
            },
            Mechanic::BreakBlock { .. } => {
                reveal_strlit("Breaks the block at the target location");
            },
            Mechanic::BreakBlockAndGiveItem { .. } => {
                reveal_strlit(
                    "Breaks the block at the target location and gives an item/droptable",
                );
            },
            Mechanic::ClearExperience => {
                reveal_strlit("Clears the experience for the targeted players");
            },
            Mechanic::ClearExperienceLevels => {
                reveal_strlit(" Clears the experience levels for the targeted players");
            },
            Mechanic::GiveExperienceLevels { .. } => {
                reveal_strlit("Gives experience levels to the targeted players");
            },
            Mechanic::TakeExperienceLevels { .. } => {
                reveal_strlit("Takes experience levels from the targeted players");
            },
            Mechanic::CloseInventory => {
                reveal_strlit("Closes the target player's inventory");
            },
            Mechanic::Command { .. } => {
                reveal_strlit("Executes a command for each target");
            },
            Mechanic::Consume { .. } => {
                reveal_strlit("Deals damage and restores health per target hit");
            },
            Mechanic::ConsumeSlot { .. } => {
                reveal_strlit("Removes an item from a specific slot of the player's inventory");
            },
            Mechanic::DirectionalVelocity { .. } => {
                reveal_strlit("Changes the velocity on the target entity on a specific vector");
            },
            Mechanic::Disengage { .. } => {
                reveal_strlit("Causes the caster to leap backwards away from the target entity");
            },
            Mechanic::Disguise { .. } => {
                reveal_strlit("Changes the caster's disguise");
            },
            Mechanic::DisguiseModify { .. } => {
                reveal_strlit("Modifies the caster's already applied disguise");
            },
            Mechanic::DisguiseTarget { .. } => {
                reveal_strlit("Changes the target's disguise");
            },
            Mechanic::Undisguise => {
                reveal_strlit("Removes the caster's disguise");
            },
            Mechanic::Dismount => {
                reveal_strlit("Makes the caster dismount whatever they're riding");
            },
            Mechanic::DisplayTransformation { .. } => {
                reveal_strlit("Sets the targeted display entity's transformations");
            },
            Mechanic::ClearThreat => {
                reveal_strlit("Makes a mob clear its threat table");
            },
            Mechanic::CurrencyGive { .. } => {
                reveal_strlit("Gives money to a player. Requires Vault and a currency plugin");
            },
            Mechanic::CurrencyTake { .. } => {
                reveal_strlit("Takes money from a player. Requires Vault and a currency plugin");
            },
            Mechanic::Damage { .. } => {
                reveal_strlit("Damages the target for an amount");
            },
            Mechanic::BaseDamage { .. } => {
                reveal_strlit("Damages the target for a percent of the mob's damage stat");
            },
            Mechanic::PercentDamage { .. } => {
                reveal_strlit("Damages the target for a percent of their health");
            },
            Mechanic::Decapitate => {
                reveal_strlit("Drops a player head item based on target");
            },
            Mechanic::Doppleganger { .. } => {
                reveal_strlit("Copies the appearance of the target player");
            },
            Mechanic::DropItem { .. } => {
                reveal_strlit("Drops an item or droptable at the target location");
            },
            Mechanic::EjectPassenger => {
                reveal_strlit("Ejects anything riding the caster");
            },
            Mechanic::Ender => {
                reveal_strlit("Causes the \"Ender\" effect");
            },
            Mechanic::EnderBeam { .. } => {
                reveal_strlit("Creates an EnderCrystal's beam effect to the target");
            },
            Mechanic::EnderDragonResetCrystals => {
                reveal_strlit("Generates the EnderDragon crystals");
            },
            Mechanic::EnderDragonSetPhase { .. } => {
                reveal_strlit("Sets the EnderDragon phase");
            },
            Mechanic::EnderDragonSetRespawnPhase { .. } => {
                reveal_strlit("Sets the EnderDragon respawn phase");
            },
            Mechanic::EnderDragonSpawnPortal { .. } => {
                reveal_strlit("Generates the portal of the EnderDragon battle");
            },
            Mechanic::Equip { .. } => {
                reveal_strlit("Causes the casting mob to equip an item");
            },
            Mechanic::EquipCopy { .. } => {
                reveal_strlit("Causes the caster to equip a copy of the target's equipment");
            },
            Mechanic::Explosion { .. } => {
                reveal_strlit("Causes an explosion");
            },
            Mechanic::FakeExplosion => {
                reveal_strlit("Causes a fake explosion");
            },
            Mechanic::Extinguish => {
                reveal_strlit("Removes fire ticks from the target entity");
            },
            Mechanic::FawePaste { .. } => {
                reveal_strlit("Pastes a Schematic using FAWE (Fast Async World Edit)");
            },
            Mechanic::Feed { .. } => {
                reveal_strlit("Feeds the target player");
            },
            Mechanic::FillChest { .. } => {
                reveal_strlit("Fills a chest with items, or a droptable");
            },
            Mechanic::Firework { .. } => {
                reveal_strlit("Creates a firework effect at the target");
            },
            Mechanic::Flames => {
                reveal_strlit("Creates the flames effect at the location of the targeter");
            },
            Mechanic::Fly => {
                reveal_strlit("Applies an aura that allows the targeted player to fly");
            },
            Mechanic::ForcePull { .. } => {
                reveal_strlit("Teleports the target to the caster");
            },
            Mechanic::Freeze { .. } => {
                reveal_strlit(
                    "Freezes the target for the given number of ticks using the Powdered Snow freezing effect",
                );
            },
            Mechanic::Geyser { .. } => {
                reveal_strlit("Creates a \"geyser\" of water or lava");
            },
            Mechanic::GiveItem { .. } => {
                reveal_strlit("Gives an item to the target");
            },
            Mechanic::GiveItemFromSlot { .. } => {
                reveal_strlit(
                    "Gives an item to the target from the item in the given slot of caster",
                );
            },
            Mechanic::GiveItemFromTarget { .. } => {
                reveal_strlit(
                    "Gives the caster an item while playing the pickup-item animation from the target entity or location",
                );
            },
            Mechanic::Glow { .. } => {
                reveal_strlit("Makes the target glow");
            },
            Mechanic::GoatRam => {
                reveal_strlit("Causes the casting goat mob to ram the targeted entity");
            },
            Mechanic::GoTo { .. } => {
                reveal_strlit("Move toward the location of the targeter (entity or location)");
            },
            Mechanic::GuardianBeam { .. } => {
                reveal_strlit("Draws a guardian beam between the origin and the target");
            },
            Mechanic::Heal { .. } => {
                reveal_strlit("Heals the target");
            },
            Mechanic::HealPercent { .. } => {
                reveal_strlit("Heals the target for a percentage of its max-health");
            },
            Mechanic::Hide { .. } => {
                reveal_strlit("Hides the caster from the targeted player(s) for a set duration");
            },
            Mechanic::Hit { .. } => {
                reveal_strlit("Simulates a physical hit from the mob");
            },
            Mechanic::Hologram { .. } => {
                reveal_strlit("Summons a hologram to the targeted location");
            },
            Mechanic::Ignite { .. } => {
                reveal_strlit("Sets the target on fire");
            },
            Mechanic::ItemSpray { .. } => {
                reveal_strlit("Causes an explosion of temporary items at the target location");
            },
            Mechanic::JSONMessage { .. } => {
                reveal_strlit("Sends a JSON-format message to the target player(s)");
            },
            Mechanic::Jump { .. } => {
                reveal_strlit("Causes the caster to jump");
            },
            Mechanic::Leap { .. } => {
                reveal_strlit("Causes the caster to leap towards the target");
            },
            Mechanic::Lightning { .. } => {
                reveal_strlit("Strikes lightning at the target");
            },
            Mechanic::FakeLightning { .. } => {
                reveal_strlit("Strikes a fake lightning at the target");
            },
            Mechanic::Log { .. } => {
                reveal_strlit("Logs a message to console");
            },
            Mechanic::Look { .. } => {
                reveal_strlit("Causes the caster to look at the target");
            },
            Mechanic::Lunge { .. } => {
                reveal_strlit("Causes the caster to lunge forward at the target");
            },
            Mechanic::MatchRotation { .. } => {
                reveal_strlit("Sets the caster's yaw and pitch to the same value of the target's");
            },
            Mechanic::Message { .. } => {
                reveal_strlit("Sends a message to the target player(s)");
            },
            Mechanic::ModifyDamage { .. } => {
                reveal_strlit("Modifies the damage event that triggered the skill");
            },
            Mechanic::ModifyGlobalScore { .. } => {
                reveal_strlit("Modifies a scoreboard value of the fake player: GLOBAL");
            },
            Mechanic::ModifyTargetScore { .. } => {
                reveal_strlit("Modifies a scoreboard value of the target");
            },
            Mechanic::ModifyMobScore { .. } => {
                reveal_strlit("Modifies a scoreboard value of the casting mob");
            },
            Mechanic::ModifyScore { .. } => {
                reveal_strlit("Modifies the score of a dummy player");
            },
            Mechanic::Mount { .. } => {
                reveal_strlit("Summons a mob for the caster and mounts it");
            },
            Mechanic::MountMe { .. } => {
                reveal_strlit("Forces the targeted entity to mount the caster");
            },
            Mechanic::MountTarget { .. } => {
                reveal_strlit("Mounts the target");
            },
            Mechanic::MovePin { .. } => {
                reveal_strlit("Moves the given pin to the target location");
            },
            Mechanic::OpenTrades => {
                reveal_strlit("Opens the trades of the casting villager to the target player");
            },
            Mechanic::Oxygen { .. } => {
                reveal_strlit("Gives oxygen to a player target");
            },
            Mechanic::Particle { .. } => {
                reveal_strlit("Creates particle effects around the target");
            },
            Mechanic::ParticleBox { .. } => {
                reveal_strlit("Draws a box of particles around the target");
            },
            Mechanic::ParticleEquation { .. } => {
                reveal_strlit("Generates particles based on equations");
            },
            Mechanic::ParticleLine { .. } => {
                reveal_strlit("Draws a line of particle effects to the target");
            },
            Mechanic::ParticleLineHelix { .. } => {
                reveal_strlit("Draws a line based helix effect");
            },
            Mechanic::ParticleLineRing { .. } => {
                reveal_strlit("Draws a particle ring connected by lines");
            },
            Mechanic::ParticleOrbital { .. } => {
                reveal_strlit("Draws orbiting particle effects around the target");
            },
            Mechanic::ParticleRing { .. } => {
                reveal_strlit("Draws a ring of particles around the target");
            },
            Mechanic::ParticleSphere { .. } => {
                reveal_strlit("Draws a sphere of particles around the target");
            },
            Mechanic::ParticleTornado { .. } => {
                reveal_strlit("Draws a persistent \"tornado\" of particles at the target");
            },
            Mechanic::Atom { .. } => {
                reveal_strlit("Creates some particles in the shape of an atom");
            },
            Mechanic::PickUpItem { .. } => {
                reveal_strlit("Picks up the targeted item");
            },
            Mechanic::PlayAnimation { .. } => {
                reveal_strlit("Forces the entity to play an animation");
            },
            Mechanic::PlayBlockBreakSound { .. } => {
                reveal_strlit("Plays a block breaking sound");
            },
            Mechanic::PlayBlockFallSound { .. } => {
                reveal_strlit("Plays a block falling sound");
            },
            Mechanic::PlayBlockHitSound { .. } => {
                reveal_strlit("Plays a block hit sound");
            },
            Mechanic::PlayBlockPlaceSound { .. } => {
                reveal_strlit("Plays a block place sound");
            },
            Mechanic::PlayBlockStepSound { .. } => {
                reveal_strlit("Plays a block step sound");
            },
            Mechanic::PoseArmorStand { .. } => {
                reveal_strlit("Changes the pose of the target ArmorStand");
            },
            Mechanic::Potion { .. } => {
                reveal_strlit("Applies a potion effect to the target");
            },
            Mechanic::PotionClear => {
                reveal_strlit("Removes all potion effects from target entity");
            },
            Mechanic::Prison => {
                reveal_strlit("Imprisons the target inside a block");
            },
            Mechanic::PrintParentTree => {
                reveal_strlit(
                    "Prints debug information regarding the Metaskill executing the mechanic and its SkillTree",
                );
            },
            Mechanic::Propel { .. } => {
                reveal_strlit("Propels the caster towards the target");
            },
            Mechanic::Pull { .. } => {
                reveal_strlit("Pulls the target towards the mob");
            },
            Mechanic::PushBlock { .. } => {
                reveal_strlit("Pushes the block at the target location in the given direction");
            },
            Mechanic::PushButton => {
                reveal_strlit("Pushes a button at the target location");
            },
            Mechanic::RayTrace => {
                reveal_strlit("Traces a straight line to the target");
            },
            Mechanic::RayTraceTo => {
                reveal_strlit(
                    "Executes a skill with the result of a raytrace to the target location",
                );
            },
            Mechanic::Rally { .. } => {
                reveal_strlit("Causes other nearby mobs to attack the target");
            },
            Mechanic::RandomMessage { .. } => {
                reveal_strlit("Sends a random message to the target player");
            },
            Mechanic::Recoil { .. } => {
                reveal_strlit("Kicks the target's screen in order to simulate a recoil");
            },
            Mechanic::Remount => {
                reveal_strlit(
                    "Remounts the mob the caster originally spawned riding, if it is still alive",
                );
            },
            Mechanic::Remove => {
                reveal_strlit("Removes the target mob");
            },
            Mechanic::RemoveHeldItem => {
                reveal_strlit("Removes some of the item the target player is holding");
            },
            Mechanic::RemoveOwner => {
                reveal_strlit("Removes the ownership of the target mob");
            },
            Mechanic::ResetAI => {
                reveal_strlit(
                    "Attempts to reset the AI of a casting mob to the base type's default",
                );
            },
            Mechanic::RotateTowards { .. } => {
                reveal_strlit("Rotates the caster towards the target location");
            },
            Mechanic::RunAIGoalSelector => {
                reveal_strlit("Change the caster's AIGoalSelectors");
            },
            Mechanic::RunAITargetSelector => {
                reveal_strlit("Change the caster's AITargetSelectors");
            },
            Mechanic::Saddle => {
                reveal_strlit("Equips or removes a saddle on the target entity");
            },
            Mechanic::SendActionMessage { .. } => {
                reveal_strlit("Sends an Actionbar Message to the target player");
            },
            Mechanic::SendResourcePack { .. } => {
                reveal_strlit("Sends a Resource Pack to the target player");
            },
            Mechanic::SendTitle { .. } => {
                reveal_strlit("Sends a Title/Subtitle Message to the target player");
            },
            Mechanic::SendToast { .. } => {
                reveal_strlit("Sends an achievement toast to the target player");
            },
            Mechanic::SetAI { .. } => {
                reveal_strlit("Disables/enables the AI of the target mob");
            },
            Mechanic::SetBlockOpen { .. } => {
                reveal_strlit("Sets the target block's open state");
            },
            Mechanic::SetBlockType { .. } => {
                reveal_strlit("Change block type at target location");
            },
            Mechanic::SetChunkForceLoaded { .. } => {
                reveal_strlit("Sets the force-loaded status of a location's chunk");
            },
            Mechanic::SetCollidable { .. } => {
                reveal_strlit("Sets if the target should have a collidable hitbox or not");
            },
            Mechanic::SetDragonPodium { .. } => {
                reveal_strlit("Sets the position of the dragon's podium at the target location");
            },
            Mechanic::SetGameMode { .. } => {
                reveal_strlit("Sets the Game Mode of the target player");
            },
            Mechanic::SetGliding { .. } => {
                reveal_strlit("Makes the target glide if they have elytra");
            },
            Mechanic::SetGlobalScore { .. } => {
                reveal_strlit("Sets a scoreboard value on the fake player: GLOBAL");
            },
            Mechanic::SetGravity { .. } => {
                reveal_strlit("Sets whether gravity affects the target entity");
            },
            Mechanic::SetHealth { .. } => {
                reveal_strlit("Sets the health of the target entity");
            },
            Mechanic::SetInteractionSize { .. } => {
                reveal_strlit("Sets the size of the target INTERACTION entity");
            },
            Mechanic::SetItemGroupCooldown { .. } => {
                reveal_strlit("Sets the cooldown on an item group for the target player");
            },
            Mechanic::SetDisplayEntityItem { .. } => {
                reveal_strlit("Sets the item component of ITEM_DISPLAY entities");
            },
            Mechanic::SetLeashHolder { .. } => {
                reveal_strlit("Changes the holder of a mob's lead");
            },
            Mechanic::SetLevel { .. } => {
                reveal_strlit("Changes the casting mob's level");
            },
            Mechanic::SetMaterialCooldown { .. } => {
                reveal_strlit(
                    "Sets a cooldown for usable materials like ender pearls, chorus fruit, etc",
                );
            },
            Mechanic::SetMaxHealth { .. } => {
                reveal_strlit("Sets the max health of the target entity");
            },
            Mechanic::SetMobColor { .. } => {
                reveal_strlit("Changes the color of the target if it is a colorable mob");
            },
            Mechanic::SetMobScore { .. } => {
                reveal_strlit("Sets a scoreboard value on the casting mob");
            },
            Mechanic::SetName { .. } => {
                reveal_strlit("Changes the caster entity's name");
            },
            Mechanic::SetRaiderCanJoinRaid { .. } => {
                reveal_strlit("Sets if the target raider entity can join a raid or not");
            },
            Mechanic::SetRaiderPatrolBlock { .. } => {
                reveal_strlit("Sets the target raider to patrol a location");
            },
            Mechanic::SetRaiderPatrolLeader { .. } => {
                reveal_strlit("Sets the raider patrol leader");
            },
            Mechanic::SetFaction { .. } => {
                reveal_strlit("Changes the target entity's faction");
            },
            Mechanic::SetFlying { .. } => {
                reveal_strlit("Sets whether the target player is flying");
            },
            Mechanic::SetNoDamageTicks { .. } => {
                reveal_strlit("Sets the no damage ticks of the target");
            },
            Mechanic::SetOwner { .. } => {
                reveal_strlit("Makes the target the owner of the casting mob");
            },
            Mechanic::SetParent { .. } => {
                reveal_strlit("Makes the target the parent of the casting mob");
            },
            Mechanic::SetPathfindingMalus { .. } => {
                reveal_strlit("Sets the pathfinding malus of a mob for given terrain types");
            },
            Mechanic::SetPitch { .. } => {
                reveal_strlit("Sets the head pitch of the target entity");
            },
            Mechanic::SetPose { .. } => {
                reveal_strlit("Sets the entity's pose");
            },
            Mechanic::SetRotation { .. } => {
                reveal_strlit("Sets the rotation of the target");
            },
            Mechanic::SetTarget { .. } => {
                reveal_strlit("Sets the caster's target");
            },
            Mechanic::SetTargetScore { .. } => {
                reveal_strlit("Sets the score of the target");
            },
            Mechanic::SetTextDisplay { .. } => {
                reveal_strlit("Sets the text component of target Text Display entity");
            },
            Mechanic::SetTongueTarget { .. } => {
                reveal_strlit("Sets the tongue target for a frog caster to the target entity");
            },
            Mechanic::SetScore { .. } => {
                reveal_strlit("Sets the scoreboard value of a dummy player");
            },
            Mechanic::SetSpeed { .. } => {
                reveal_strlit("Sets the target entity's speed attribute");
            },
            Mechanic::SetStance { .. } => {
                reveal_strlit("Sets the stance of the target mob");
            },
            Mechanic::Shield => {
                reveal_strlit("Applies an absorb shield to the target entity");
            },
            Mechanic::ShieldBreak => {
                reveal_strlit("Forces the player to lower their shield and puts it on cooldown");
            },
            Mechanic::ShieldPercent { .. } => {
                reveal_strlit(
                    "Applies an absorb shield to the target entity for a percentage of their max health",
                );
            },
            Mechanic::ShootFireball { .. } => {
                reveal_strlit("Shoots a fireball at the target");
            },
            Mechanic::ShootPotion { .. } => {
                reveal_strlit("Throws a potion at the target");
            },
            Mechanic::ShootSkull { .. } => {
                reveal_strlit("Shoots a wither skull at the target");
            },
            Mechanic::ShootShulkerBullet { .. } => {
                reveal_strlit("Shoots a shulker bullet at the target entity");
            },
            Mechanic::ShowEntity { .. } => {
                reveal_strlit("Shows the hidden caster to the targeted players");
            },
            Mechanic::Signal { .. } => {
                reveal_strlit("Sends a signal to a mob");
            },
            Mechanic::Skybox { .. } => {
                reveal_strlit("Alters the target player's skybox");
            },
            Mechanic::Smoke => {
                reveal_strlit("Creates a puff of smoke");
            },
            Mechanic::SmokeSwirl => {
                reveal_strlit("Creates a persistent \"swirl\" of smoke");
            },
            Mechanic::Sound { .. } => {
                reveal_strlit("Plays a sound effect");
            },
            Mechanic::StealItem { .. } => {
                reveal_strlit("Steals an item from the target player's inventory");
            },
            Mechanic::StopSound { .. } => {
                reveal_strlit("Stops a sound effect from playing");
            },
            Mechanic::StopSoundWithCategory { .. } => {
                reveal_strlit("Stops a sound effect from playing (Specify a category)");
            },
            Mechanic::Speak { .. } => {
                reveal_strlit("Causes the mob to speak in chat, with options for speech bubbles");
            },
            Mechanic::Spin { .. } => {
                reveal_strlit("Causes the target to spin");
            },
            Mechanic::Spring { .. } => {
                reveal_strlit("Creates a temporary spring of liquid at the target");
            },
            Mechanic::Stun { .. } => {
                reveal_strlit("Stuns the target entity for a specified duration");
            },
            Mechanic::StopUsingItem => {
                reveal_strlit("Stops the targeted entity from using an item");
            },
            Mechanic::Suicide => {
                reveal_strlit("Causes the caster to die");
            },
            Mechanic::Summon { .. } => {
                reveal_strlit("Summons a mob at the specified location");
            },
            Mechanic::SummonAreaEffectCloud { .. } => {
                reveal_strlit("Summons a cloud of particles at the target");
            },
            Mechanic::SummonFallingBlock { .. } => {
                reveal_strlit("Summons a falling block");
            },
            Mechanic::SummonPassenger { .. } => {
                reveal_strlit("Summons a mob to ride the target.");
            },
            Mechanic::Swap => {
                reveal_strlit("Swaps locations with the target");
            },
            Mechanic::SwingOffHand => {
                reveal_strlit("Makes the casting player swing their offhand");
            },
            Mechanic::AddTag(_) => {
                reveal_strlit("Adds a scoreboard tag to the target");
            },
            Mechanic::RemoveTag(_) => {
                reveal_strlit("Removes a scoreboard tag from the target");
            },
            Mechanic::TakeItem { .. } => {
                reveal_strlit("Removes an item from the targeted player's inventory");
            },
            Mechanic::Taunt => {
                reveal_strlit(
                    "Modifies the threat level that the caster holds with the target entities",
                );
            },
            Mechanic::Teleport { .. } => {
                reveal_strlit("Teleports to the target");
            },
            Mechanic::TeleportY { .. } => {
                reveal_strlit("Teleports the caster vertically");
            },
            Mechanic::TeleportIn { .. } => {
                reveal_strlit("Teleports the target relative to the caster's yaw");
            },
            Mechanic::TeleportTo { .. } => {
                reveal_strlit("Teleports the target to a specified location");
            },
            Mechanic::Time { .. } => {
                reveal_strlit("Changes the time");
            },
            Mechanic::Threat { .. } => {
                reveal_strlit("Modifies the mob's threat towards the target");
            },
            Mechanic::Throw { .. } => {
                reveal_strlit("Throws the target entity");
            },
            Mechanic::ThunderLevel { .. } => {
                reveal_strlit("Creates a client-side, per-player rainless storm");
            },
            Mechanic::ToggleLever { .. } => {
                reveal_strlit("Toggles a lever at the target location");
            },
            Mechanic::TogglePiston => {
                reveal_strlit("Toggles a piston at the target location");
            },
            Mechanic::ToggleSitting(_) => {
                reveal_strlit(
                    "Toggles the sitting state for cats, dogs, foxes, and parrots. Sets the sitting state",
                );
            },
            Mechanic::TotemOfUndying { .. } => {
                reveal_strlit(
                    "Plays the effect of a totem resurrecting a player with options to specify CustomModelData to use from resource packs.",
                );
            },
            Mechanic::TrackLocation => {
                reveal_strlit("Sets the mob's tracked location to the targeted location");
            },
            Mechanic::UndoPaste { .. } => {
                reveal_strlit(
                    "Undoes a previous paste done via the fawePaste mechanic, based on its id or on the schematic used",
                );
            },
            Mechanic::Velocity { .. } => {
                reveal_strlit(
                    "Modifies the velocity of the targeted entity(s). May be used on players, too. Useful for all sorts of things like true knockback resistance,force-skills or simulated wind.",
                );
            },
            Mechanic::WolfSit(_) => {
                reveal_strlit(
                    "Forces a targeted wolf to sit. The state the wolf is in. True = sitting and False = standing",
                );
            },
            Mechanic::WorldEditReplace { .. } => {
                reveal_strlit("Replaces blocks in a region using WorldEdit");
            },
            Mechanic::Weather { .. } => {
                reveal_strlit("Changes the weather for the target player");
            },
            Mechanic::AdditionalMecanics { .. } => {
                reveal_strlit(
                    "Links to mechanics added by addon plugins. Any mechanics from these links will not work without that plugin installed.",
                );
            },
        }
    }

    /// Every mechanic has a name.
    pub proof fn lemma_label_not_empty(self)
        ensures
            self.label().len() > 0,
    {
        match self {
            Mechanic::ActivateSpawner { .. } => {
                reveal_strlit("Activate Spawner");
            },
            Mechanic::AddTrade { .. } => {
                reveal_strlit("Add Trade");
            },
            Mechanic::AnimateArmorStand { .. } => {
                reveal_strlit("Animates an armor stand");
            },
            Mechanic::ArmAnimation => {
                reveal_strlit("Arm Animation");
            },
            Mechanic::ArrowVolley { .. } => {
                reveal_strlit("Arrow Volley");
            },
            Mechanic::AuraRemove { .. } => {
                reveal_strlit("Aura Remove");
            },
            Mechanic::BlackScreen { .. } => {
                reveal_strlit("BlackScreen");
            },
            Mechanic::BlockDestabilize => {
                reveal_strlit("BlockDestabilize");
            },
            Mechanic::BlockMask { .. } => {
                reveal_strlit("BlockMask");
            },
            Mechanic::BlockUnmask { .. } => {
                reveal_strlit("BlockUnmask");
            },
            Mechanic::BlockPhysics => {
                reveal_strlit("BlockPhysics");
            },
            Mechanic::BlockWave { .. } => {
                reveal_strlit("BlockWave");
            },
            Mechanic::BloodyScreen { .. } => {
                reveal_strlit("BloodyScreen");
            },
            Mechanic::BoneMeal { .. } => {
                reveal_strlit("BoneMeal");
            },
            Mechanic::BossBorder { .. } => {
                reveal_strlit("BossBorder");
            },
            Mechanic::Bouncy { .. } => {
                reveal_strlit("Bouncy");
            },
            Mechanic::BreakBlock { .. } => {
                reveal_strlit("BreakBlock");
            },
            Mechanic::BreakBlockAndGiveItem { .. } => {
                reveal_strlit("BreakBlockAndGiveItem");
            },
            Mechanic::ClearExperience => {
                reveal_strlit("ClearExperience");
            },
            Mechanic::ClearExperienceLevels => {
                reveal_strlit("ClearExperienceLevels");
            },
            Mechanic::GiveExperienceLevels { .. } => {
                reveal_strlit("GiveExperienceLevels");
            },
            Mechanic::TakeExperienceLevels { .. } => {
                reveal_strlit("TakeExperienceLevels");
            },
            Mechanic::CloseInventory => {
                reveal_strlit("CloseInventory");
            },
            Mechanic::Command { .. } => {
                reveal_strlit("Command");
            },
            Mechanic::Consume { .. } => {
                reveal_strlit("Consume");
            },
            Mechanic::ConsumeSlot { .. } => {
                reveal_strlit("ConsumeSlot");
            },
            Mechanic::DirectionalVelocity { .. } => {
                reveal_strlit("DirectionalVelocity");
            },
            Mechanic::Disengage { .. } => {
                reveal_strlit("Disengage");
            },
            Mechanic::Disguise { .. } => {
                reveal_strlit("Disguise");
            },
            Mechanic::DisguiseModify { .. } => {
                reveal_strlit("DisguiseModify");
            },
            Mechanic::DisguiseTarget { .. } => {
                reveal_strlit("DisguiseTarget");
            },
            Mechanic::Undisguise => {
                reveal_strlit("Undisguise");
            },
            Mechanic::Dismount => {
                reveal_strlit("Dismount");
            },
            Mechanic::DisplayTransformation { .. } => {
                reveal_strlit("DisplayTransformation");
            },
            Mechanic::ClearThreat => {
                reveal_strlit("ClearThreat");
            },
            Mechanic::CurrencyGive { .. } => {
                reveal_strlit("CurrencyGive");
            },
            Mechanic::CurrencyTake { .. } => {
                reveal_strlit("CurrencyTake");
            },
            Mechanic::Damage { .. } => {
                reveal_strlit("Damage");
            },
            Mechanic::BaseDamage { .. } => {
                reveal_strlit("BaseDamage");
            },
            Mechanic::PercentDamage { .. } => {
                reveal_strlit("PercentDamage");
            },
            Mechanic::Decapitate => {
                reveal_strlit("Decapitate");
            },
            Mechanic::Doppleganger { .. } => {
                reveal_strlit("Doppleganger");
            },
            Mechanic::DropItem { .. } => {
                reveal_strlit("DropItem");
            },
            Mechanic::EjectPassenger => {
                reveal_strlit("EjectPassenger");
            },
            Mechanic::Ender => {
                reveal_strlit("Ender");
            },
            Mechanic::EnderBeam { .. } => {
                reveal_strlit("EnderBeam");
            },
            Mechanic::EnderDragonResetCrystals => {
                reveal_strlit("EnderDragonResetCrystals");
            },
            Mechanic::EnderDragonSetPhase { .. } => {
                reveal_strlit("EnderDragonSetPhase");
            },
            Mechanic::EnderDragonSetRespawnPhase { .. } => {
                reveal_strlit("EnderDragonSetRespawnPhase");
            },
            Mechanic::EnderDragonSpawnPortal { .. } => {
                reveal_strlit("EnderDragonSpawnPortal");
            },
            Mechanic::Equip { .. } => {
                reveal_strlit("Equip");
            },
            Mechanic::EquipCopy { .. } => {
                reveal_strlit("EquipCopy");
            },
            Mechanic::Explosion { .. } => {
                reveal_strlit("Explosion");
            },
            Mechanic::FakeExplosion => {
                reveal_strlit("FakeExplosion");
            },
            Mechanic::Extinguish => {
                reveal_strlit("Extinguish");
            },
            Mechanic::FawePaste { .. } => {
                reveal_strlit("FawePaste");
            },
            Mechanic::Feed { .. } => {
                reveal_strlit("Feed");
            },
            Mechanic::FillChest { .. } => {
                reveal_strlit("FillChest");
            },
            Mechanic::Firework { .. } => {
                reveal_strlit("Firework");
            },
            Mechanic::Flames => {
                reveal_strlit("Flames");
            },
            Mechanic::Fly => {
                reveal_strlit("Fly");
            },
            Mechanic::ForcePull { .. } => {
                reveal_strlit("ForcePull");
            },
            Mechanic::Freeze { .. } => {
                reveal_strlit("Freeze");
            },
            Mechanic::Geyser { .. } => {
                reveal_strlit("Geyser");
            },
            Mechanic::GiveItem { .. } => {
                reveal_strlit("GiveItem");
            },
            Mechanic::GiveItemFromSlot { .. } => {
                reveal_strlit("GiveItemFromSlot");
            },
            Mechanic::GiveItemFromTarget { .. } => {
                reveal_strlit("GiveItemFromTarget");
            },
            Mechanic::Glow { .. } => {
                reveal_strlit("Glow");
            },
            Mechanic::GoatRam => {
                reveal_strlit("GoatRam");
            },
            Mechanic::GoTo { .. } => {
                reveal_strlit("GoTo");
            },
            Mechanic::GuardianBeam { .. } => {
                reveal_strlit("GuardianBeam");
            },
            Mechanic::Heal { .. } => {
                reveal_strlit("Heal");
            },
            Mechanic::HealPercent { .. } => {
                reveal_strlit("HealPercent");
            },
            Mechanic::Hide { .. } => {
                reveal_strlit("Hide");
            },
            Mechanic::Hit { .. } => {
                reveal_strlit("Hit");
            },
            Mechanic::Hologram { .. } => {
                reveal_strlit("Hologram");
            },
            Mechanic::Ignite { .. } => {
                reveal_strlit("Ignite");
            },
            Mechanic::ItemSpray { .. } => {
                reveal_strlit("ItemSpray");
            },
            Mechanic::JSONMessage { .. } => {
                reveal_strlit("JSONMessage");
            },
            Mechanic::Jump { .. } => {
                reveal_strlit("Jump");
            },
            Mechanic::Leap { .. } => {
                reveal_strlit("Leap");
            },
            Mechanic::Lightning { .. } => {
                reveal_strlit("Lightning");
            },
            Mechanic::FakeLightning { .. } => {
                reveal_strlit("FakeLightning");
            },
            Mechanic::Log { .. } => {
                reveal_strlit("Log");
            },
            Mechanic::Look { .. } => {
                reveal_strlit("Look");
            },
            Mechanic::Lunge { .. } => {
                reveal_strlit("Lunge");
            },
            Mechanic::MatchRotation { .. } => {
                reveal_strlit("MatchRotation");
            },
            Mechanic::Message { .. } => {
                reveal_strlit("Message");
            },
            Mechanic::ModifyDamage { .. } => {
                reveal_strlit("ModifyDamage");
            },
            Mechanic::ModifyGlobalScore { .. } => {
                reveal_strlit("ModifyGlobalScore");
            },
            Mechanic::ModifyTargetScore { .. } => {
                reveal_strlit("ModifyTargetScore");
            },
            Mechanic::ModifyMobScore { .. } => {
                reveal_strlit("ModifyMobScore");
            },
            Mechanic::ModifyScore { .. } => {
                reveal_strlit("ModifyScore");
            },
            Mechanic::Mount { .. } => {
                reveal_strlit("Mount");
            },
            Mechanic::MountMe { .. } => {
                reveal_strlit("MountMe");
            },
            Mechanic::MountTarget { .. } => {
                reveal_strlit("MountTarget");
            },
            Mechanic::MovePin { .. } => {
                reveal_strlit("MovePin");
            },
            Mechanic::OpenTrades => {
                reveal_strlit("OpenTrades");
            },
            Mechanic::Oxygen { .. } => {
                reveal_strlit("Oxygen");
            },
            Mechanic::Particle { .. } => {
                reveal_strlit("Particle");
            },
            Mechanic::ParticleBox { .. } => {
                reveal_strlit("ParticleBox");
            },
            Mechanic::ParticleEquation { .. } => {
                reveal_strlit("ParticleEquation");
            },
            Mechanic::ParticleLine { .. } => {
                reveal_strlit("ParticleLine");
            },
            Mechanic::ParticleLineHelix { .. } => {
                reveal_strlit("ParticleLineHelix");
            },
            Mechanic::ParticleLineRing { .. } => {
                reveal_strlit("ParticleLineRing");
            },
            Mechanic::ParticleOrbital { .. } => {
                reveal_strlit("ParticleOrbital");
            },
            Mechanic::ParticleRing { .. } => {
                reveal_strlit("ParticleRing");
            },
            Mechanic::ParticleSphere { .. } => {
                reveal_strlit("ParticleSphere");
            },
            Mechanic::ParticleTornado { .. } => {
                reveal_strlit("ParticleTornado");
            },
            Mechanic::Atom { .. } => {
                reveal_strlit("Atom");
            },
            Mechanic::PickUpItem { .. } => {
                reveal_strlit("PickUpItem");
            },
            Mechanic::PlayAnimation { .. } => {
                reveal_strlit("PlayAnimation");
            },
            Mechanic::PlayBlockBreakSound { .. } => {
                reveal_strlit("PlayBlockBreakSound");
            },
            Mechanic::PlayBlockFallSound { .. } => {
                reveal_strlit("PlayBlockFallSound");
            },
            Mechanic::PlayBlockHitSound { .. } => {
                reveal_strlit("PlayBlockHitSound");
            },
            Mechanic::PlayBlockPlaceSound { .. } => {
                reveal_strlit("PlayBlockPlaceSound");
            },
            Mechanic::PlayBlockStepSound { .. } => {
                reveal_strlit("PlayBlockStepSound");
            },
            Mechanic::PoseArmorStand { .. } => {
                reveal_strlit("PoseArmorStand");
            },
            Mechanic::Potion { .. } => {
                reveal_strlit("Potion");
            },
            Mechanic::PotionClear => {
                reveal_strlit("PotionClear");
            },
            Mechanic::Prison => {
                reveal_strlit("Prison");
            },
            Mechanic::PrintParentTree => {
                reveal_strlit("PrintParentTree");
            },
            Mechanic::Propel { .. } => {
                reveal_strlit("Propel");
            },
            Mechanic::Pull { .. } => {
                reveal_strlit("Pull");
            },
            Mechanic::PushBlock { .. } => {
                reveal_strlit("PushBlock");
            },
            Mechanic::PushButton => {
                reveal_strlit("PushButton");
            },
            Mechanic::RayTrace => {
                reveal_strlit("RayTrace");
            },
            Mechanic::RayTraceTo => {
                reveal_strlit("RayTraceTo");
            },
            Mechanic::Rally { .. } => {
                reveal_strlit("Rally");
            },
            Mechanic::RandomMessage { .. } => {
                reveal_strlit("RandomMessage");
            },
            Mechanic::Recoil { .. } => {
                reveal_strlit("Recoil");
            },
            Mechanic::Remount => {
                reveal_strlit("Remount");
            },
            Mechanic::Remove => {
                reveal_strlit("Remove");
            },
            Mechanic::RemoveHeldItem => {
                reveal_strlit("RemoveHeldItem");
            },
            Mechanic::RemoveOwner => {
                reveal_strlit("RemoveOwner");
            },
            Mechanic::ResetAI => {
                reveal_strlit("ResetAI");
            },
            Mechanic::RotateTowards { .. } => {
                reveal_strlit("RotateTowards");
            },
            Mechanic::RunAIGoalSelector => {
                reveal_strlit("RunAIGoalSelector");
            },
            Mechanic::RunAITargetSelector => {
                reveal_strlit("RunAITargetSelector");
            },
            Mechanic::Saddle => {
                reveal_strlit("Saddle");
            },
            Mechanic::SendActionMessage { .. } => {
                reveal_strlit("SendActionMessage");
            },
            Mechanic::SendResourcePack { .. } => {
                reveal_strlit("SendResourcePack");
            },
            Mechanic::SendTitle { .. } => {
                reveal_strlit("SendTitle");
            },
            Mechanic::SendToast { .. } => {
                reveal_strlit("SendToast");
            },
            Mechanic::SetAI { .. } => {
                reveal_strlit("SetAI");
            },
            Mechanic::SetBlockOpen { .. } => {
                reveal_strlit("SetBlockOpen");
            },
            Mechanic::SetBlockType { .. } => {
                reveal_strlit("SetBlockType");
            },
            Mechanic::SetChunkForceLoaded { .. } => {
                reveal_strlit("SetChunkForceLoaded");
            },
            Mechanic::SetCollidable { .. } => {
                reveal_strlit("SetCollidable");
            },
            Mechanic::SetDragonPodium { .. } => {
                reveal_strlit("SetDragonPodium");
            },
            Mechanic::SetGameMode { .. } => {
                reveal_strlit("SetGameMode");
            },
            Mechanic::SetGliding { .. } => {
                reveal_strlit("SetGliding");
            },
            Mechanic::SetGlobalScore { .. } => {
                reveal_strlit("SetGlobalScore");
            },
            Mechanic::SetGravity { .. } => {
                reveal_strlit("SetGravity");
            },
            Mechanic::SetHealth { .. } => {
                reveal_strlit("SetHealth");
            },
            Mechanic::SetInteractionSize { .. } => {
                reveal_strlit("SetInteractionSize");
            },
            Mechanic::SetItemGroupCooldown { .. } => {
                reveal_strlit("SetItemGroupCooldown");
            },
            Mechanic::SetDisplayEntityItem { .. } => {
                reveal_strlit("SetDisplayEntityItem");
            },
            Mechanic::SetLeashHolder { .. } => {
                reveal_strlit("SetLeashHolder");
            },
            Mechanic::SetLevel { .. } => {
                reveal_strlit("SetLevel");
            },
            Mechanic::SetMaterialCooldown { .. } => {
                reveal_strlit("SetMaterialCooldown");
            },
            Mechanic::SetMaxHealth { .. } => {
                reveal_strlit("SetMaxHealth");
            },
            Mechanic::SetMobColor { .. } => {
                reveal_strlit("SetMobColor");
            },
            Mechanic::SetMobScore { .. } => {
                reveal_strlit("SetMobScore");
            },
            Mechanic::SetName { .. } => {
                reveal_strlit("SetName");
            },
            Mechanic::SetRaiderCanJoinRaid { .. } => {
                reveal_strlit("SetRaiderCanJoinRaid");
            },
            Mechanic::SetRaiderPatrolBlock { .. } => {
                reveal_strlit("SetRaiderPatrolBlock");
            },
            Mechanic::SetRaiderPatrolLeader { .. } => {
                reveal_strlit("SetRaiderPatrolLeader");
            },
            Mechanic::SetFaction { .. } => {
                reveal_strlit("SetFaction");
            },
            Mechanic::SetFlying { .. } => {
                reveal_strlit("SetFlying");
            },
            Mechanic::SetNoDamageTicks { .. } => {
                reveal_strlit("SetNoDamageTicks");
            },
            Mechanic::SetOwner { .. } => {
                reveal_strlit("SetOwner");
            },
            Mechanic::SetParent { .. } => {
                reveal_strlit("SetParent");
            },
            Mechanic::SetPathfindingMalus { .. } => {
                reveal_strlit("SetPathfindingMalus");
            },
            Mechanic::SetPitch { .. } => {
                reveal_strlit("SetPitch");
            },
            Mechanic::SetPose { .. } => {
                reveal_strlit("SetPose");
            },
            Mechanic::SetRotation { .. } => {
                reveal_strlit("SetRotation");
            },
            Mechanic::SetTarget { .. } => {
                reveal_strlit("SetTarget");
            },
            Mechanic::SetTargetScore { .. } => {
                reveal_strlit("SetTargetScore");
            },
            Mechanic::SetTextDisplay { .. } => {
                reveal_strlit("SetTextDisplay");
            },
            Mechanic::SetTongueTarget { .. } => {
                reveal_strlit("SetTongueTarget");
            },
            Mechanic::SetScore { .. } => {
                reveal_strlit("SetScore");
            },
            Mechanic::SetSpeed { .. } => {
                reveal_strlit("SetSpeed");
            },
            Mechanic::SetStance { .. } => {
                reveal_strlit("SetStance");
            },
            Mechanic::Shield => {
                reveal_strlit("Shield");
            },
            Mechanic::ShieldBreak => {
                reveal_strlit("ShieldBreak");
            },
            Mechanic::ShieldPercent { .. } => {
                reveal_strlit("ShieldPercent");
            },
            Mechanic::ShootFireball { .. } => {
                reveal_strlit("ShootFireball");
            },
            Mechanic::ShootPotion { .. } => {
                reveal_strlit("ShootPotion");
            },
            Mechanic::ShootSkull { .. } => {
                reveal_strlit("ShootSkull");
            },
            Mechanic::ShootShulkerBullet { .. } => {
                reveal_strlit("ShootShulkerBullet");
            },
            Mechanic::ShowEntity { .. } => {
                reveal_strlit("ShowEntity");
            },
            Mechanic::Signal { .. } => {
                reveal_strlit("Signal");
            },
            Mechanic::Skybox { .. } => {
                reveal_strlit("Skybox");
            },
            Mechanic::Smoke => {
                reveal_strlit("Smoke");
            },
            Mechanic::SmokeSwirl => {
                reveal_strlit("SmokeSwirl");
            },
            Mechanic::Sound { .. } => {
                reveal_strlit("Sound");
            },
            Mechanic::StealItem { .. } => {
                reveal_strlit("StealItem");
            },
            Mechanic::StopSound { .. } => {
                reveal_strlit("StopSound");
            },
            Mechanic::StopSoundWithCategory { .. } => {
                reveal_strlit("StopSoundWithCategory");
            },
            Mechanic::Speak { .. } => {
                reveal_strlit("Speak");
            },
            Mechanic::Spin { .. } => {
                reveal_strlit("Spin");
            },
            Mechanic::Spring { .. } => {
                reveal_strlit("Spring");
            },
            Mechanic::Stun { .. } => {
                reveal_strlit("Stun");
            },
            Mechanic::StopUsingItem => {
                reveal_strlit("StopUsingItem");
            },
            Mechanic::Suicide => {
                reveal_strlit("Suicide");
            },
            Mechanic::Summon { .. } => {
                reveal_strlit("Summon");
            },
            Mechanic::SummonAreaEffectCloud { .. } => {
                reveal_strlit("SummonAreaEffectCloud");
            },
            Mechanic::SummonFallingBlock { .. } => {
                reveal_strlit("SummonFallingBlock");
            },
            Mechanic::SummonPassenger { .. } => {
                reveal_strlit("SummonPassenger");
            },
            Mechanic::Swap => {
                reveal_strlit("Swap");
            },
            Mechanic::SwingOffHand => {
                reveal_strlit("SwingOffHand");
            },
            Mechanic::AddTag(_) => {
                reveal_strlit("AddTa");
            },
            Mechanic::RemoveTag(_) => {
                reveal_strlit("RemoveTa");
            },
            Mechanic::TakeItem { .. } => {
                reveal_strlit("TakeItem");
            },
            Mechanic::Taunt => {
                reveal_strlit("Taunt");
            },
            Mechanic::Teleport { .. } => {
                reveal_strlit("Teleport");
            },
            Mechanic::TeleportY { .. } => {
                reveal_strlit("TeleportY");
            },
            Mechanic::TeleportIn { .. } => {
                reveal_strlit("TeleportIn");
            },
            Mechanic::TeleportTo { .. } => {
                reveal_strlit("TeleportTo");
            },
            Mechanic::Time { .. } => {
                reveal_strlit("Time");
            },
            Mechanic::Threat { .. } => {
                reveal_strlit("Threat");
            },
            Mechanic::Throw { .. } => {
                reveal_strlit("Throw");
            },
            Mechanic::ThunderLevel { .. } => {
                reveal_strlit("ThunderLevel");
            },
            Mechanic::ToggleLever { .. } => {
                reveal_strlit("ToggleLever");
            },
            Mechanic::TogglePiston => {
                reveal_strlit("TogglePiston");
            },
            Mechanic::ToggleSitting(_) => {
                reveal_strlit("ToggleSittin");
            },
            Mechanic::TotemOfUndying { .. } => {
                reveal_strlit("TotemOfUndying");
            },
            Mechanic::TrackLocation => {
                reveal_strlit("TrackLocation");
            },
            Mechanic::UndoPaste { .. } => {
                reveal_strlit("UndoPaste");
            },
            Mechanic::Velocity { .. } => {
                reveal_strlit("Velocity");
            },
            Mechanic::WolfSit(_) => {
                reveal_strlit("WolfSi");
            },
            Mechanic::WorldEditReplace { .. } => {
                reveal_strlit("WorldEditReplace");
            },
            Mechanic::Weather { .. } => {
                reveal_strlit("Weather");
            },
            Mechanic::AdditionalMecanics { .. } => {
                reveal_strlit("AdditionalMecanics");
            },
        }
    }
}

} // verus!
