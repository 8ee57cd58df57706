//! The catalogue of mechanics: the actions that a skill can perform.
//!
//! A mechanic is one action that the server knows, with the parameters that
//! the action takes. Its text is one line of a configuration: a dash, the
//! keyword of the action and, between braces, its parameters as `key=value`
//! pairs with semicolons between them. Every parameter of a mechanic is
//! written once, under a key and at a place that are fixed for the mechanic.
//! An optional key brings its own key with it, and is written where it is
//! present.

use vstd::prelude::*;
use crate::decimal::Decimal;
use crate::skill::model_engine::MechanicType;
use crate::skill::option::MythicOption;
use crate::skill::params::ActionMode;
use crate::skill::params::AddSetReset;
use crate::skill::params::ArmorStandPose;
use crate::skill::params::AuraMechanic;
use crate::skill::params::DurationReduction;
use crate::skill::params::EffectType;
use crate::skill::params::EquipmentItem;
use crate::skill::params::ItemArray;
use crate::skill::params::Particle;
use crate::skill::params::Percentage;
use crate::skill::params::RadiusReductionOnTick;
use crate::skill::params::RadiusReductionOnUse;
use crate::skill::params::RandomMessages;
use crate::skill::params::Shape;
use crate::skill::params::SoundCategory;
use crate::skill::params::SpawnerSelect;
use crate::skill::params::SpringType;
use crate::skill::params::Tags;
use crate::skill::params::ThreatMode;
use crate::skill::params::ThunderLevel;
use crate::skill::params::TradeIngredient;
use crate::skill::params::VelocityMode;
use crate::skill::params::WeatherType;
use crate::skill::params::Xyz;

pub mod catalogue;
pub mod describe;
pub mod keys;
pub mod render;

verus! {

/// One action of a skill, with its parameters.
#[allow(inconsistent_fields)]
#[derive(Clone, Debug, PartialEq)]
pub enum Mechanic {
    /// Activates a MythicMobs spawner at the targeted location
    ActivateSpawner {
        spawner: SpawnerSelect,
    },
    /// Changes the trades of a villager
    ///
    /// The block begins with the keys `action` and `slot`, then `item1` and `result`. The second
    /// ingredient stands behind the first and the other optional keys behind the result, each where
    /// it is present: `item2`, `uses`, `expReward`, `villExp`, `multiplier`, `d`, `special`,
    /// `discounts`.
    AddTrade {
        /// The action to perform. Can be `ADD`, `REMOVE`, `REPLACE`.
        action: ActionMode,
        /// The slot to be selected for the action. Slot starts at 0, so if a villager has 3 trades,
        /// the middle trade would be slot 1
        slot: u8,
        /// The first ingredient
        ingredient: TradeIngredient,
        /// The second ingredient
        ingredient_2: MythicOption<TradeIngredient>,
        /// The result item of the trade
        result: String,
        /// The uses of trade
        max_uses: MythicOption<u8>,
        /// If the trade should drop experience
        experience_reward: MythicOption<bool>,
        /// The amount of experience to give to the villager upon successful trade
        villager_exp: MythicOption<u16>,
        /// The multiplier for the price when the player has made the villager angry
        price_multiplier: MythicOption<u8>,
        /// The demand of the trade
        demand: MythicOption<u8>,
        /// The special price for when the villager is friendly to the player (player reputation or
        /// hero of the village effect)
        special_price: MythicOption<u16>,
        /// If the discounts should be ignored
        ignore_discounts: MythicOption<bool>,
    },
    /// Animates an armor stand
    ///
    /// The block holds the keys `pose`, `speed`, `duration`, `ignoreempty` and `smart`.
    AnimateArmorStand {
        /// The pose to animate the armor stand to.
        pose: ArmorStandPose,
        /// The speed of the animation.
        speed: Decimal,
        /// The duration of the animation in ticks.
        duration: u32,
        /// Whether to ignore empty pose values.
        ignore_empty: bool,
        /// Whether to use smart animation.
        smart: bool,
    },
    /// Makes the caster swing their arm
    ArmAnimation,
    /// Fires a volley of arrows
    ArrowVolley {
        /// The number of arrows in the volley.
        amount: u32,
        /// How spread out the arrows are.
        spread: Decimal,
        /// The velocity of the arrows.
        velocity: Decimal,
        /// The duration hit entities will burn for in ticks.
        fire_ticks: u32,
        /// The time the arrows will stay before disappearing in ticks.
        remove_delay: u32,
        /// Whether the arrows can be picked up by players.
        can_pickup: bool,
    },
    /// Adds an attribute modifier to the attributable target
    AuraRemove {
        /// The name of the aura to remove.
        aura_name: String,
        /// The amount of stacks to remove.
        stacks: u32,
    },
    /// Creates a custom boss bar on the casting mob
    BlackScreen {
        /// The duration of the black screen effect.
        duration: u32,
    },
    /// Causes the targeted blocks to fall, as if affected by gravity
    BlockDestabilize,
    /// Temporarily masks a block as a different block
    BlockMask {
        /// The type of block used for the blockmask.
        material: String,
        /// The radius of the blockmask effect.
        radius: u32,
        /// The y component of the radius.
        radius_y: u32,
        /// Defines the randomness of the effect.
        noise: u32,
        /// Duration of the effect in ticks.
        duration: u32,
        /// The shape of the effect.
        shape: Shape,
        /// Mask no air blocks only.
        no_air: bool,
        /// Mask air blocks only.
        only_air: bool,
        /// If only_air is used, target transparent blocks as well.
        occlude: bool,
    },
    /// Unmasks blocks that have been masked
    BlockUnmask {
        /// The radius of the blockunmask effect.
        radius: u32,
        /// The shape of the effect.
        shape: Shape,
    },
    /// Triggers a block physics update at the target location
    BlockPhysics,
    /// Creates a wave of blocks at the target location
    BlockWave {
        /// The material used for the blockwave.
        material: String,
        /// The radius of the blockwave effect.
        radius: u32,
        /// The y radius of the blockwave effect.
        radius_y: u32,
        /// Duration of the effect in ticks.
        duration: u32,
        /// The shape of the effect.
        shape: Shape,
        /// The speed of the effect.
        velocity: Decimal,
        /// The speed of the effect in the horizontal direction.
        horizontal_velocity: Decimal,
        /// Whether to make use of the specific velocities.
        specific_velocities: bool,
        /// The speed of the effect on the x axis.
        velocity_x: Decimal,
        /// The speed of the effect on the y axis.
        velocity_y: Decimal,
        /// The speed of the effect on the z axis.
        velocity_z: Decimal,
        /// The noise of the effect.
        noise: u32,
        /// Whether to hide the source block.
        hide_source_block: bool,
        /// Whether air blocks should be ignored.
        ignore_air: bool,
    },
    /// Makes the target's screen glow red
    BloodyScreen {
        /// The time (in ticks) that the effect is active.
        duration: u32,
        /// If true, it stops any existing redscreen.
        cancel: bool,
    },
    /// Applies a bone meal effect to the target blocks
    BoneMeal {
        /// The block face to apply bonemeal to.
        block_face: String,
    },
    /// Creates an inescapable border around the mob
    BossBorder {
        /// The radius of the border.
        radius: u32,
    },
    /// Applies an aura to the target that makes it bouncy
    Bouncy {
        /// The name of the aura.
        aura_name: String,
        /// The metaskill to execute on bounce.
        on_bounce_skill: String,
        /// Whether to cancel fall damage for the duration of the aura.
        cancel_event: bool,
    },
    /// Breaks the block at the target location
    BreakBlock {
        /// Whether or not to drop the block.
        do_drops: bool,
        /// Whether or not to play the break block particles.
        do_effect: bool,
        /// Whether or not to use the tool in the players hands.
        use_tool: bool,
    },
    /// Breaks the block at the target location and gives an item/droptable
    BreakBlockAndGiveItem {
        /// Whether or not to drop the block.
        do_drops: bool,
        /// Whether or not to play the break block particles.
        do_effect: bool,
        /// Whether or not to use the tool in the players hands.
        use_tool: bool,
        /// Plays the pickup-item animation from the origin.
        do_fake_looting: bool,
        /// An array of item materials, or droptables.
        items: ItemArray,
    },
    /// Clears the experience for the targeted players
    ClearExperience,
    /// Clears the experience levels for the targeted players
    ClearExperienceLevels,
    /// Gives experience levels to the targeted players
    GiveExperienceLevels {
        /// The amount of levels to give.
        amount: u32,
    },
    /// Takes experience levels from the targeted players
    TakeExperienceLevels {
        /// The amount of levels to take.
        amount: u32,
    },
    /// Closes the target player's inventory
    CloseInventory,
    /// Executes a command for each target
    Command {
        /// The command to execute.
        command: String,
        /// If true the command will execute from the caster instead of the console.
        as_caster: bool,
        /// Whether to execute the command with all permissions.
        as_op: bool,
        /// Will execute the command as the targeted entity.
        as_target: bool,
        /// Only executes if the skill has a target.
        require_target: bool,
    },
    /// Deals damage and restores health per target hit
    Consume {
        /// The amount of damage to deal.
        damage: Decimal,
        /// The amount of healing per mob damaged.
        heal: Decimal,
    },
    /// Removes an item from a specific slot of the player's inventory
    ConsumeSlot {
        /// The inventory slot to remove the item from.
        slot: String,
        /// The amount of items to remove.
        amount: u32,
    },
    /// Changes the velocity on the target entity on a specific vector
    DirectionalVelocity {
        /// The yaw of the vector for the velocity change.
        yaw: Decimal,
        /// The pitch of the vector for the velocity change.
        pitch: Decimal,
        /// The magnitude of the velocity change.
        velocity: Decimal,
        /// The mode to use.
        mode: String,
    },
    /// Causes the caster to leap backwards away from the target entity
    Disengage {
        /// The velocity of the leap.
        velocity: Decimal,
        /// The y component of the velocity of the leap.
        velocity_y: Decimal,
    },
    /// Changes the caster's disguise
    Disguise {
        /// The disguise to apply to the mob.
        disguise: String,
    },
    /// Modifies the caster's already applied disguise
    DisguiseModify {
        /// The options to modify in the disguise.
        disguise: String,
    },
    /// Changes the target's disguise
    DisguiseTarget {
        /// The disguise to apply to the target.
        disguise: String,
    },
    /// Removes the caster's disguise
    Undisguise,
    /// Makes the caster dismount whatever they're riding
    Dismount,
    /// Sets the targeted display entity's transformations
    DisplayTransformation {
        /// The action to use.
        action: String,
        /// The type of the transformation.
        transformation_type: String,
        /// The value of the transformation.
        value: String,
    },
    /// Makes a mob clear its threat table
    ClearThreat,
    /// Gives money to a player. Requires Vault and a currency plugin
    CurrencyGive {
        /// The amount of money.
        amount: Decimal,
    },
    /// Takes money from a player. Requires Vault and a currency plugin
    CurrencyTake {
        /// The amount of money taken from player.
        amount: Decimal,
    },
    /// Damages the target for an amount
    Damage {
        /// The amount of damage to deal.
        amount: Decimal,
        /// Whether or not to ignore armor.
        ignore_armor: bool,
        /// Whether or not to prevent knockback.
        prevent_knockback: bool,
        /// Whether or not to prevent the damage immunity ticks.
        prevent_immunity: bool,
        /// Sets the damage cause for this damage mechanic.
        damage_cause: String,
        /// Whether or not to ignore enchantments.
        ignore_enchantments: bool,
        /// Whether or not to generate anger when damaging the entity.
        no_anger: bool,
        /// Whether or not to ignore the damage immunity ticks.
        ignore_invulnerability: bool,
        /// Whether or not to ignore the shield blocking on the target.
        ignore_shield: bool,
        /// Whether or not the helmet should be damaged.
        damage_helmet: bool,
        /// Whether or not effects should be ignored.
        ignore_effects: bool,
        /// Whether or not resistance should be ignored.
        ignore_resistance: bool,
        /// Should the skill's power affect the damage inflicted.
        power_affects_damage: bool,
        /// Allows you to specify any number of arbitrary tags for the damage mechanic.
        tags: Tags,
        /// Works the same as tags and what is put here will also qualify as a tag, but it will not
        /// be UPPERCASED like tags.
        raw_tags: Tags,
        /// Becomes one of the Tags.
        element: String,
        /// Whether the damage mechanic should also be able to trigger onAttack related triggers.
        trigger_skills: bool,
    },
    /// Damages the target for a percent of the mob's damage stat
    BaseDamage {
        /// The percentage of damage to deal.
        multiplier: Decimal,
        /// Whether the damage should use the real entity's attack attribute.
        use_attribute: bool,
    },
    /// Damages the target for a percent of their health
    PercentDamage {
        /// The percentage to damage the target.
        percent: Decimal,
        /// Whether it calculates the percent from your original or current health.
        current_health: bool,
    },
    /// Drops a player head item based on target
    Decapitate,
    /// Copies the appearance of the target player
    Doppleganger {
        /// Whether the disguise should have a nameplate.
        has_nameplate: bool,
        /// Uses the player name as the nameplate.
        use_player_name: MythicOption<String>,
    },
    /// Drops an item or droptable at the target location
    DropItem {
        /// Items to drop.
        items: String,
        /// Whether the items should be dropped naturally.
        naturally: bool,
        /// Metaskill to be executed when the item drops.
        on_drop_skill: MythicOption<String>,
    },
    /// Ejects anything riding the caster
    EjectPassenger,
    /// Causes the "Ender" effect
    Ender,
    /// Creates an EnderCrystal's beam effect to the target
    EnderBeam {
        /// The time (in ticks) that the effect is active.
        duration: u32,
        /// The default vertical offset from the casting mob.
        y_offset: Decimal,
    },
    /// Generates the EnderDragon crystals
    EnderDragonResetCrystals,
    /// Sets the EnderDragon phase
    EnderDragonSetPhase {
        /// The phase to set.
        phase: String,
    },
    /// Sets the EnderDragon respawn phase
    EnderDragonSetRespawnPhase {
        /// The phase to set.
        phase: String,
    },
    /// Generates the portal of the EnderDragon battle
    EnderDragonSpawnPortal {
        /// Whether to generate the portal of the EnderDragon battle.
        with_portals: bool,
    },
    /// Causes the casting mob to equip an item
    Equip {
        /// The item config string to run on the mob.
        item: EquipmentItem,
    },
    /// Causes the caster to equip a copy of the target's equipment
    EquipCopy {
        /// The slots to copy.
        slots: String,
    },
    /// Causes an explosion
    Explosion {
        /// The yield (power) of the explosion.
        power_explosion: Decimal,
        /// Whether the explosion will damage blocks.
        block_damage: bool,
        /// Whether the explosion leaves fire behind.
        fire: bool,
    },
    /// Causes a fake explosion
    FakeExplosion,
    /// Removes fire ticks from the target entity
    Extinguish,
    /// Pastes a Schematic using FAWE (Fast Async World Edit)
    FawePaste {
        /// Which schematic to load.
        schematic: String,
        /// The paste's id.
        paste_id: MythicOption<String>,
        /// Should air be pasted?
        paste_air: bool,
        /// The X offset of pasting the Schematic from the target.
        x_offset: i32,
        /// The Y offset of pasting the Schematic from the target.
        y_offset: i32,
        /// The Z offset of pasting the Schematic from the target.
        z_offset: i32,
        /// The rotation of the pasted schematic, in degrees.
        rotation: Decimal,
        /// Whether or not to center the schematic.
        center: bool,
        /// Which MythicMob Drop Tables to supply the chests within the Schematic with.
        chest_drop_table: MythicOption<String>,
        /// Which MythicMob Drop Tables to supply the Trapped Chests within the Schematic with.
        trap_chest_drop_table: MythicOption<String>,
        /// The number of blocks that are placed every tick.
        blocks_per_tick: u32,
        /// If greater than 0, will undo the paste operation after that amount of ticks has elapsed.
        duration: u32,
    },
    /// Feeds the target player
    Feed {
        /// The amount of hunger to restore.
        amount: i32,
        /// The amount of saturation to restore.
        saturation: Decimal,
        /// Whether or not to overfeed.
        overfeed: bool,
    },
    /// Fills a chest with items, or a droptable
    FillChest {
        /// Items to fill a chest with.
        items: String,
        /// Should the given items stack if possible.
        should_stack: MythicOption<bool>,
        /// Should the container be emptied before the items are added.
        should_empty: MythicOption<bool>,
    },
    /// Creates a firework effect at the target
    Firework {
        /// The type of firework.
        firework_type: String,
        /// The flight duration of the firework.
        power: u32,
        /// Whether to add the flicker effect to the explosion.
        flicker: bool,
        /// Whether to add the trail effect to the firework rocket.
        trail: bool,
        /// The color of the firework explosion, in RGB or hex.
        colors: String,
        /// The fade colors of the firework explosion, in RGB or hex.
        fade_colors: String,
    },
    /// Creates the flames effect at the location of the targeter
    Flames,
    /// Applies an aura that allows the targeted player to fly
    Fly,
    /// Teleports the target to the caster
    ForcePull {
        /// How spread out players will be from the casting mob.
        spread: u32,
        /// Lets you override the vertical spread value.
        v_spread: MythicOption<u32>,
    },
    /// Freezes the target for the given number of ticks using the Powdered Snow freezing effect
    Freeze {
        /// Ticks frozen in powdered snow.
        ticks: u32,
    },
    /// Creates a "geyser" of water or lava
    Geyser {
        /// The type of liquid.
        liquid_type: String,
        /// How high the geyser will go.
        height: u32,
        /// The interval (in ticks) between each iteration of the geyser animation.
        interval: u32,
    },
    /// Gives an item to the target
    GiveItem {
        /// The item material.
        item: String,
        /// Plays the pickup-item animation from the origin.
        fake_looting: bool,
    },
    /// Gives an item to the target from the item in the given slot of caster
    GiveItemFromSlot {
        /// The caster's slot.
        slot: String,
        /// Plays the pickup-item animation from the origin.
        fake_looting: bool,
    },
    /// Gives the caster an item while playing the pickup-item animation from the target entity or
    /// location
    GiveItemFromTarget {
        /// The item material.
        item: String,
        /// Plays the pickup-item animation from the target.
        fake_looting: bool,
    },
    /// Makes the target glow
    Glow {
        /// The color with which the entity will glow.
        color: String,
    },
    /// Causes the casting goat mob to ram the targeted entity
    GoatRam,
    /// Move toward the location of the targeter (entity or location)
    GoTo {
        /// The movement speed modifier.
        speed: Decimal,
        /// Amount of horizontal spread it can be away from the target its moving towards.
        spread_h: u32,
        /// Amount of vertical spread it can be away from the target its moving towards.
        spread_v: u32,
    },
    /// Draws a guardian beam between the origin and the target
    GuardianBeam {
        /// The time (in ticks) for which the effect will be active.
        duration: u32,
        /// How often the effect will tick.
        interval: u32,
        /// The starting y offset of the beam.
        start_y_offset: Decimal,
        /// The target y offset of the beam.
        target_y_offset: Decimal,
        /// Whether to make the effect start from the @origin instead of from @self.
        from_origin: bool,
        /// Metaskill to execute when the effect starts.
        on_start_skill: MythicOption<String>,
        /// Metaskill to execute each interval tick.
        on_tick_skill: MythicOption<String>,
        /// Metaskill to execute when the effect ends.
        on_end_skill: MythicOption<String>,
    },
    /// Heals the target
    Heal {
        /// The amount to heal the target.
        amount: Decimal,
        /// Whether or not to apply overhealing as additional MaxHealth.
        overheal: bool,
        /// The maximum amount of overhealing that can be applied.
        max_overheal: Decimal,
    },
    /// Heals the target for a percentage of its max-health
    HealPercent {
        /// The percentage to heal, refers to the targets max-health.
        multiplier: Percentage,
        /// Whether or not to apply overhealing as additional MaxHealth.
        overheal: bool,
        /// The maximum amount of overhealing that can be applied.
        max_overheal: Decimal,
    },
    /// Hides the caster from the targeted player(s) for a set duration
    Hide {
        /// This will make the mechanic ignore any aura-related option and the `duration` attribute.
        ignore_aura_options: bool,
    },
    /// Simulates a physical hit from the mob
    Hit {
        /// The percentage of damage to deal.
        multiplier: Decimal,
        /// If this attribute is set, the one specified will be the amount of flat damage that will
        /// be inflicted.
        forced_damage: MythicOption<Decimal>,
        /// Whether the damage mechanic should also be able to trigger `onAttack` related triggers.
        trigger_skills: bool,
        /// Whether to scale the damage by the weapon's attack cooldown.
        scale_by_attack_cooldown: bool,
    },
    /// Summons a hologram to the targeted location
    Hologram {
        /// The text to show.
        text: String,
        /// The duration of the hologram in ticks.
        stay: u32,
    },
    /// Sets the target on fire
    Ignite {
        /// How many ticks the target should burn.
        ticks: u32,
    },
    /// Causes an explosion of temporary items at the target location
    ItemSpray {
        /// The list of items to drop.
        items: String,
        /// How many items will render from the spray.
        amount: u32,
        /// How long (in ticks) the items will exist.
        duration: u32,
        /// The radius/spread the items will start in.
        radius: u32,
        /// The velocity of the items.
        velocity: Decimal,
        /// The Y velocity of the items.
        y_velocity: MythicOption<Decimal>,
        /// The y offset the items will start at.
        y_offset: Decimal,
        /// Whether the itemspray's items should be real items, enabling players to pick them up.
        allow_pickup: bool,
        /// Whether the items should be affected by gravity.
        gravity: bool,
    },
    /// Sends a JSON-format message to the target player(s)
    JSONMessage {
        /// The json-message to send.
        message: String,
    },
    /// Causes the caster to jump
    Jump {
        /// The velocity of the mob's jump.
        velocity: Decimal,
    },
    /// Causes the caster to leap towards the target
    Leap {
        /// The max velocity of the leap.
        velocity: Decimal,
        /// Added variance to where the mob will land.
        noise: Decimal,
    },
    /// Strikes lightning at the target
    Lightning {
        /// The amount of damage the strike will deal
        damage: Decimal,
    },
    /// Strikes a fake lightning at the target
    FakeLightning {
        /// Whether the lightning should only be seen/heard by players in radius
        localized: bool,
        /// The radius of the localized effect
        localized_radius: u32,
    },
    /// Logs a message to console
    Log {
        /// The message to log
        message: String,
    },
    /// Causes the caster to look at the target
    Look {
        /// Only the mob's head is facing the target
        head_only: bool,
        /// Forces the mob to look at the target (even works with no AI)
        force: bool,
        /// Whether to use Paper's method to force the mob to look at the target
        force_paper: bool,
        /// Immediately causes the mob to turn towards the target with no turning animation
        immediately: bool,
    },
    /// Causes the caster to lunge forward at the target
    Lunge {
        /// The horizontal velocity at which the entity is moved forward
        velocity: Decimal,
        /// The vertical velocity at which the entity is moved forward
        velocity_y: Decimal,
        /// If the lunge mechanic should use the old math formula
        old_math: bool,
    },
    /// Sets the caster's yaw and pitch to the same value of the target's
    MatchRotation {
        /// The targeter
        target: String,
    },
    /// Sends a message to the target player(s)
    Message {
        /// The message to send
        message: String,
        /// The audience of the message
        audience: String,
    },
    /// Modifies the damage event that triggered the skill
    ModifyDamage {
        /// The amount of the operation
        amount: Decimal,
        /// The type of the damage to evaluate
        damage_type: String,
        /// The modifier to use
        action: String,
    },
    /// Modifies a scoreboard value of the fake player: __GLOBAL__
    ModifyGlobalScore {
        /// Specifies the scoreboard objective to be changed
        objective: String,
        /// The operation to perform
        action: String,
        /// The value to perform the operation with
        value: Decimal,
    },
    /// Modifies a scoreboard value of the target
    ModifyTargetScore {
        /// Specifies the scoreboard objective to be changed
        objective: String,
        /// The operation to perform
        action: String,
        /// The value to perform the operation with
        value: Decimal,
    },
    /// Modifies a scoreboard value of the casting mob
    ModifyMobScore {
        /// Specifies the scoreboard objective to be changed
        objective: String,
        /// The operation to perform
        action: String,
        /// The value to perform the operation with
        value: Decimal,
    },
    /// Modifies the score of a dummy player
    ModifyScore {
        /// Specifies the scoreboard objective to be changed
        objective: String,
        /// The operation to perform
        action: String,
        /// The value to perform the operation with
        value: Decimal,
    },
    /// Summons a mob for the caster and mounts it
    Mount {
        /// The entity to mount
        entity: String,
    },
    /// Forces the targeted entity to mount the caster
    MountMe {
        /// The entity to mount
        entity: String,
    },
    /// Mounts the target
    MountTarget {
        /// The entity to mount
        entity: String,
    },
    /// Moves the given pin to the target location
    MovePin {
        /// The x-coordinate to move the pin to
        x: Decimal,
        /// The y-coordinate to move the pin to
        y: Decimal,
        /// The z-coordinate to move the pin to
        z: Decimal,
    },
    /// Opens the trades of the casting villager to the target player
    OpenTrades,
    /// Gives oxygen to a player target
    Oxygen {
        /// The amount of oxygen to set
        amount: i32,
    },
    /// Creates particle effects around the target
    Particle {
        /// The type of particle to spawn
        particle: String,
        /// The amount of particles to spawn
        amount: u32,
        /// The speed of the particles
        speed: Decimal,
        /// The x-offset of the particles
        x: Decimal,
        /// The y-offset of the particles
        y: Decimal,
        /// The z-offset of the particles
        z: Decimal,
    },
    /// Draws a box of particles around the target
    ParticleBox {
        /// The type of particle to spawn
        particle: String,
        /// The amount of particles to spawn
        amount: u32,
        /// The speed of the particles
        speed: Decimal,
        /// The x-offset of the particles
        x: Decimal,
        /// The y-offset of the particles
        y: Decimal,
        /// The z-offset of the particles
        z: Decimal,
        /// The width of the box
        width: Decimal,
        /// The height of the box
        height: Decimal,
    },
    /// Generates particles based on equations
    ParticleEquation {
        /// The type of particle to spawn
        particle: String,
        /// The amount of particles to spawn
        amount: u32,
        /// The speed of the particles
        speed: Decimal,
        /// The x-offset of the particles
        x: Decimal,
        /// The y-offset of the particles
        y: Decimal,
        /// The z-offset of the particles
        z: Decimal,
        /// The equation to use for particle distribution
        equation: String,
    },
    /// Draws a line of particle effects to the target
    ParticleLine {
        /// The type of particle to spawn
        particle: String,
        /// The amount of particles to spawn
        amount: u32,
        /// The speed of the particles
        speed: Decimal,
        /// The x-offset of the particles
        x: Decimal,
        /// The y-offset of the particles
        y: Decimal,
        /// The z-offset of the particles
        z: Decimal,
        /// The length of the line
        length: Decimal,
    },
    /// Draws a line based helix effect
    ParticleLineHelix {
        /// The type of particle to spawn
        particle: String,
        /// The amount of particles to spawn
        amount: u32,
        /// The speed of the particles
        speed: Decimal,
        /// The x-offset of the particles
        x: Decimal,
        /// The y-offset of the particles
        y: Decimal,
        /// The z-offset of the particles
        z: Decimal,
        /// The length of the helix
        length: Decimal,
        /// The radius of the helix
        radius: Decimal,
    },
    /// Draws a particle ring connected by lines
    ParticleLineRing {
        /// The type of particle to spawn
        particle: String,
        /// The amount of particles to spawn
        amount: u32,
        /// The speed of the particles
        speed: Decimal,
        /// The x-offset of the particles
        x: Decimal,
        /// The y-offset of the particles
        y: Decimal,
        /// The z-offset of the particles
        z: Decimal,
        /// The radius of the ring
        radius: Decimal,
    },
    /// Draws orbiting particle effects around the target
    ParticleOrbital {
        /// The type of particle to spawn
        particle: String,
        /// The amount of particles to spawn
        amount: u32,
        /// The speed of the particles
        speed: Decimal,
        /// The x-offset of the particles
        x: Decimal,
        /// The y-offset of the particles
        y: Decimal,
        /// The z-offset of the particles
        z: Decimal,
        /// The radius of the orbital
        radius: Decimal,
    },
    /// Draws a ring of particles around the target
    ParticleRing {
        /// The type of particle to spawn
        particle: String,
        /// The amount of particles to spawn
        amount: u32,
        /// The speed of the particles
        speed: Decimal,
        /// The x-offset of the particles
        x: Decimal,
        /// The y-offset of the particles
        y: Decimal,
        /// The z-offset of the particles
        z: Decimal,
        /// The radius of the ring
        radius: Decimal,
    },
    /// Draws a sphere of particles around the target
    ParticleSphere {
        /// The type of particle to spawn
        particle: String,
        /// The amount of particles to spawn
        amount: u32,
        /// The speed of the particles
        speed: Decimal,
        /// The x-offset of the particles
        x: Decimal,
        /// The y-offset of the particles
        y: Decimal,
        /// The z-offset of the particles
        z: Decimal,
        /// The radius of the sphere
        radius: Decimal,
    },
    /// Draws a persistent "tornado" of particles at the target
    ParticleTornado {
        /// The type of particle to spawn
        particle: String,
        /// The amount of particles to spawn
        amount: u32,
        /// The speed of the particles
        speed: Decimal,
        /// The x-offset of the particles
        x: Decimal,
        /// The y-offset of the particles
        y: Decimal,
        /// The z-offset of the particles
        z: Decimal,
        /// The height of the tornado
        height: Decimal,
        /// The radius of the tornado
        radius: Decimal,
    },
    /// Creates some particles in the shape of an atom
    Atom {
        /// The type of particle to spawn
        particle: String,
        /// The amount of particles to spawn
        amount: u32,
        /// The speed of the particles
        speed: Decimal,
        /// The x-offset of the particles
        x: Decimal,
        /// The y-offset of the particles
        y: Decimal,
        /// The z-offset of the particles
        z: Decimal,
        /// The radius of the atom effect
        radius: Decimal,
    },
    /// Picks up the targeted item
    PickUpItem {
        /// The item to pick up
        item: String,
    },
    /// Forces the entity to play an animation
    PlayAnimation {
        /// The animation to play
        animation: String,
    },
    /// Plays a block breaking sound
    PlayBlockBreakSound {
        /// The block type to play the break sound for
        block: String,
    },
    /// Plays a block falling sound
    PlayBlockFallSound {
        /// The block type to play the fall sound for
        block: String,
    },
    /// Plays a block hit sound
    PlayBlockHitSound {
        /// The block type to play the hit sound for
        block: String,
    },
    /// Plays a block place sound
    PlayBlockPlaceSound {
        /// The block type to play the place sound for
        block: String,
    },
    /// Plays a block step sound
    PlayBlockStepSound {
        /// The block type to play the step sound for
        block: String,
    },
    /// Changes the pose of the target ArmorStand
    PoseArmorStand {
        /// The pose to set for the armor stand
        pose: String,
    },
    /// Applies a potion effect to the target
    Potion {
        /// The type of potion effect to apply
        potion: String,
        /// The duration of the potion effect in seconds
        duration: u32,
        /// The level of the potion effect
        level: u8,
    },
    /// Removes all potion effects from target entity
    PotionClear,
    /// Imprisons the target inside a block
    Prison,
    /// Prints debug information regarding the Metaskill executing the mechanic and its SkillTree
    PrintParentTree,
    /// Propels the caster towards the target
    Propel {
        /// The velocity at which to propel the entity
        velocity: Decimal,
    },
    /// Pulls the target towards the mob
    Pull {
        /// The velocity at which to pull the entity
        velocity: Decimal,
    },
    /// Pushes the block at the target location in the given direction
    PushBlock {
        /// The velocity at which to push the block
        velocity: Decimal,
    },
    /// Pushes a button at the target location
    PushButton,
    /// Traces a straight line to the target
    RayTrace,
    /// Executes a skill with the result of a raytrace to the target location
    RayTraceTo,
    /// Causes other nearby mobs to attack the target
    Rally {
        /// The radius within which to rally entities
        radius: Decimal,
    },
    /// Sends a random message to the target player
    RandomMessage {
        /// The list of possible messages to send
        messages: RandomMessages,
    },
    /// Kicks the target's screen in order to simulate a recoil
    Recoil {
        /// The velocity at which to recoil
        velocity: Decimal,
    },
    /// Remounts the mob the caster originally spawned riding, if it is still alive
    Remount,
    /// Removes the target mob
    Remove,
    /// Removes some of the item the target player is holding
    RemoveHeldItem,
    /// Removes the ownership of the target mob
    RemoveOwner,
    /// Attempts to reset the AI of a casting mob to the base type's default
    ResetAI,
    /// Rotates the caster towards the target location
    RotateTowards {
        /// The target to rotate towards
        target: String,
    },
    /// Change the caster's AIGoalSelectors
    RunAIGoalSelector,
    /// Change the caster's AITargetSelectors
    RunAITargetSelector,
    /// Equips or removes a saddle on the target entity
    Saddle,
    /// Sends an Actionbar Message to the target player
    SendActionMessage {
        /// The action message to send
        message: String,
    },
    /// Sends a Resource Pack to the target player
    SendResourcePack {
        /// The URL of the resource pack to send
        url: String,
    },
    /// Sends a Title/Subtitle Message to the target player
    SendTitle {
        /// The title to send
        title: String,
        /// The subtitle to send
        subtitle: String,
        /// The fade-in time for the title
        fade_in: u32,
        /// The time the title stays on screen
        stay: u32,
        /// The fade-out time for the title
        fade_out: u32,
    },
    /// Sends an achievement toast to the target player
    SendToast {
        /// The title of the toast
        title: String,
        /// The message of the toast
        message: String,
    },
    /// Disables/enables the AI of the target mob
    SetAI {
        /// The AI to set
        ai: String,
    },
    /// Sets the target block's open state
    SetBlockOpen {
        /// Whether to set the block as open
        open: bool,
    },
    /// Change block type at target location
    SetBlockType {
        /// The type of block to set
        block: String,
    },
    /// Sets the force-loaded status of a location's chunk
    SetChunkForceLoaded {
        /// Whether to force load the chunk
        loaded: bool,
    },
    /// Sets if the target should have a collidable hitbox or not
    SetCollidable {
        /// Whether the entity should be collidable
        collidable: bool,
    },
    /// Sets the position of the dragon's podium at the target location
    SetDragonPodium {
        /// Whether to set the dragon podium
        podium: bool,
    },
    /// Sets the Game Mode of the target player
    SetGameMode {
        /// The gamemode to set
        gamemode: String,
    },
    /// Makes the target glide if they have elytra
    SetGliding {
        /// Whether the entity should be gliding
        gliding: bool,
    },
    /// Sets a scoreboard value on the fake player: __GLOBAL__
    SetGlobalScore {
        /// Specifies the scoreboard objective to be changed
        objective: String,
        /// The operation to perform
        action: String,
        /// The value to perform the operation with
        value: Decimal,
    },
    /// Sets whether gravity affects the target entity
    SetGravity {
        /// The gravity to set
        gravity: Decimal,
    },
    /// Sets the health of the target entity
    SetHealth {
        /// The health to set
        health: Decimal,
    },
    /// Sets the size of the target `INTERACTION` entity
    SetInteractionSize {
        /// The width of the interaction size
        width: Decimal,
        /// The height of the interaction size
        height: Decimal,
    },
    /// Sets the cooldown on an item group for the target player
    SetItemGroupCooldown {
        /// The item group to set the cooldown for
        group: String,
        /// The cooldown time to set
        cooldown: u32,
    },
    /// Sets the item component of `ITEM_DISPLAY` entities
    SetDisplayEntityItem {
        /// The item to display
        item: String,
    },
    /// Changes the holder of a mob's lead
    SetLeashHolder {
        /// The entity to set as the leash holder
        holder: String,
    },
    /// Changes the casting mob's level
    SetLevel {
        /// The level to set
        level: u32,
    },
    /// Sets a cooldown for usable materials like ender pearls, chorus fruit, etc
    SetMaterialCooldown {
        /// The material to set the cooldown for
        material: String,
        /// The cooldown time to set
        cooldown: u32,
    },
    /// Sets the max health of the target entity
    SetMaxHealth {
        /// The maximum health to set
        health: Decimal,
    },
    /// Changes the color of the target if it is a colorable mob
    SetMobColor {
        /// The color to set for the mob
        color: String,
    },
    /// Sets a scoreboard value on the casting mob
    SetMobScore {
        /// The objective to set the score for
        objective: String,
        /// The score to set
        score: i32,
    },
    /// Changes the caster entity's name
    SetName {
        /// The name to set
        name: String,
    },
    /// Sets if the target raider entity can join a raid or not
    SetRaiderCanJoinRaid {
        /// Whether the raider can join the raid
        can_join: bool,
    },
    /// Sets the target raider to patrol a location
    SetRaiderPatrolBlock {
        /// The block to set as the patrol block
        block: String,
    },
    /// Sets the raider patrol leader
    SetRaiderPatrolLeader {
        /// The entity to set as the patrol leader
        leader: String,
    },
    /// Changes the target entity's faction
    SetFaction {
        /// The faction to set
        faction: String,
    },
    /// Sets whether the target player is flying
    SetFlying {
        /// Whether the entity should be flying
        flying: bool,
    },
    /// Sets the no damage ticks of the target
    SetNoDamageTicks {
        /// The number of no damage ticks to set
        ticks: u32,
    },
    /// Makes the target the owner of the casting mob
    SetOwner {
        /// The owner to set
        owner: String,
    },
    /// Makes the target the parent of the casting mob
    SetParent {
        /// The parent to set
        parent: String,
    },
    /// Sets the pathfinding malus of a mob for given terrain types
    SetPathfindingMalus {
        /// The pathfinding malus to set
        malus: Decimal,
    },
    /// Sets the head pitch of the target entity
    SetPitch {
        /// The pitch to set
        pitch: Decimal,
    },
    /// Sets the entity's pose
    SetPose {
        /// The pose to set
        pose: String,
    },
    /// Sets the rotation of the target
    SetRotation {
        /// The yaw to set
        yaw: Decimal,
        /// The pitch to set
        pitch: Decimal,
    },
    /// Sets the caster's target
    SetTarget {
        /// The target to set
        target: String,
    },
    /// Sets the score of the target
    SetTargetScore {
        /// The objective to set the score for
        objective: String,
        /// The score to set
        score: i32,
    },
    /// Sets the text component of target Text Display entity
    SetTextDisplay {
        /// The text to display
        text: String,
    },
    /// Sets the tongue target for a frog caster to the target entity
    SetTongueTarget {
        /// The target to set for the tongue
        target: String,
    },
    /// Sets the scoreboard value of a dummy player
    SetScore {
        /// The objective to set the score for
        objective: String,
        /// The score to set
        score: i32,
    },
    /// Sets the target entity's speed attribute
    SetSpeed {
        /// The speed to set
        speed: Decimal,
    },
    /// Sets the stance of the target mob
    SetStance {
        /// The stance to set
        stance: String,
    },
    /// Applies an absorb shield to the target entity
    Shield,
    /// Forces the player to lower their shield and puts it on cooldown
    ShieldBreak,
    /// Applies an absorb shield to the target entity for a percentage of their max health
    ShieldPercent {
        /// The percentage of the shield to set
        percent: Decimal,
    },
    /// Shoots a fireball at the target
    ShootFireball {
        /// The velocity at which to shoot the fireball
        velocity: Decimal,
    },
    /// Throws a potion at the target
    ShootPotion {
        /// The type of potion to shoot
        potion: String,
        /// The velocity at which to shoot the potion
        velocity: Decimal,
    },
    /// Shoots a wither skull at the target
    ShootSkull {
        /// The velocity at which to shoot the skull
        velocity: Decimal,
    },
    /// Shoots a shulker bullet at the target entity
    ShootShulkerBullet {
        /// The velocity at which to shoot the shulker bullet
        velocity: Decimal,
    },
    /// Shows the hidden caster to the targeted players
    ShowEntity {
        /// The entity to show
        entity: String,
    },
    /// Sends a signal to a mob
    Signal {
        /// The signal to send
        signal: String,
    },
    /// Alters the target player's skybox
    Skybox {
        /// The skybox to set
        skybox: String,
    },
    /// Creates a puff of smoke
    Smoke,
    /// Creates a persistent "swirl" of smoke
    SmokeSwirl,
    /// Plays a sound effect
    Sound {
        /// The sound to play
        sound: String,
        /// The volume at which to play the sound
        volume: Decimal,
        /// The pitch at which to play the sound
        pitch: Decimal,
    },
    /// Steals an item from the target player's inventory
    StealItem {
        /// The item to steal from the target player's inventory.
        item: String,
    },
    /// Stops a sound effect from playing
    StopSound {
        sound: String,
    },
    StopSoundWithCategory {
        sound: String,
        sound_category: SoundCategory,
    },
    /// Causes the mob to speak in chat, with options for speech bubbles
    ///
    /// The block holds the keys `offset`, `radius`, `maxlinelength`, `lineprefix`, `message`,
    /// `chatprefix`, `duration` and `sendchatmessage`.
    Speak {
        /// The y offset for the hologram.
        offset: Decimal,
        /// The radius of entities which will see the chat message
        radius: u8,
        /// The maximum length of the hologram
        max_line_lenght: u8,
        /// The prefix for the hologram.
        line_prefix: String,
        /// The message to be displayed (affects both hologram and chat)
        message: String,
        /// The prefix for the chat message
        chat_prefix: String,
        /// The amount of time the hologram will be displayed for.
        duration: u16,
        /// Whether the message shows up in chat
        send_chat_message: bool,
    },
    /// Causes the target to spin
    Spin {
        /// The velocity the target spins at
        velocity: u8,
        aura: AuraMechanic,
    },
    /// Creates a temporary spring of liquid at the target
    ///
    /// The block holds the keys `type` and `duration`.
    Spring {
        /// The type of spring. Can be water or lava
        spring_type: SpringType,
        /// The duration (in ticks) the spring will last
        duration: u32,
    },
    /// Stuns the target entity for a specified duration
    Stun {
        /// The duration for which the target entity is stunned.
        duration: u32,
    },
    /// Stops the targeted entity from using an item
    StopUsingItem,
    /// Causes the caster to die
    Suicide,
    /// Summons a mob at the specified location
    Summon {
        /// The type of mob to summon.
        mob: String,
        /// The location where the mob should be summoned.
        location: String,
    },
    /// Summons a cloud of particles at the target
    SummonAreaEffectCloud {
        /// The particle effects to use
        particle: MythicOption<Particle>,
        /// The type of the effect given by the cloud
        effect_type: MythicOption<EffectType>,
        /// The duration of the potion effect
        potion_duration: MythicOption<u32>,
        /// The level of the potion effect
        level: MythicOption<u8>,
        /// The duration of the particle cloud
        duration: MythicOption<u32>,
        /// The duration reduction for the cloud on use
        duration_reduction_on_use: MythicOption<DurationReduction>,
        /// The radius of the cloud
        radius: MythicOption<u8>,
        /// The radius reduction for the cloud on use
        radius_reduction_on_use: MythicOption<RadiusReductionOnUse>,
        /// The radius reduction for the cloud per tick
        radius_reduction_on_tick: MythicOption<RadiusReductionOnTick>,
    },
    /// Summons a falling block
    SummonFallingBlock {
        /// The [material](https://hub.spigotmc.org/javadocs/bukkit/org/bukkit/Material.html) of the
        /// falling block
        material: String,
    },
    /// Summons a mob to ride the target.
    SummonPassenger {
        /// The type of the mob to set as the passenger
        passenger: String,
        /// Sets whether to mount the summoned entity to the current passenger of the caster
        stack: MythicOption<bool>,
    },
    /// Swaps locations with the target
    Swap,
    /// Makes the casting player swing their offhand
    SwingOffHand,
    /// Adds a scoreboard tag to the target
    AddTag(String),
    /// Removes a scoreboard tag from the target
    RemoveTag(String),
    /// Removes an item from the targeted player's inventory
    TakeItem {
        /// The item, or material, to remove
        item: String,
        /// The amount to remove
        amount: u8,
        /// Whether the name of the item should match exactly to the specified one
        exact: MythicOption<bool>,
        /// Whether the matched item can only be a vanilla one
        vanilla_only: MythicOption<bool>,
    },
    /// Modifies the threat level that the caster holds with the target entities
    Taunt,
    /// Teleports to the target
    ///
    /// Every parameter is an optional key, written where it is present: `spreadh`, `spreadv`,
    /// `preservepitch`, `preserveyaw`, `safeteleport`, each closed by a semicolon.
    Teleport {
        /// The horizontal spread of the landing location.
        spreadh: MythicOption<u8>,
        /// The vertical spread of the landing location.
        spreadv: MythicOption<u8>,
        /// Whether the pitch value should be carried over
        preserve_pitch: MythicOption<bool>,
        /// Whether the yaw value should be carried over
        preserve_yaw: MythicOption<bool>,
        /// Avoids finding a safe teleport (will ignore sH and sV)
        safe_teleport: MythicOption<bool>,
    },
    /// Teleports the caster vertically
    TeleportY {
        /// Where to teleport on the Y axis
        y: u32,
    },
    /// Teleports the target relative to the caster's yaw
    ///
    /// Every parameter is an optional key, written where it is present. The key of the origin is
    /// `targetasorigin`, closed by a semicolon.
    TeleportIn {
        /// The direction to where the mob will be teleported
        vector: MythicOption<Xyz>,
        /// Yaw modifier
        yaw: MythicOption<u32>,
        /// Will use the target's location as the origin instead of the caster's
        target_as_origin: MythicOption<bool>,
    },
    /// Teleports the target to a specified location
    TeleportTo {
        /// The coordinates of the teleport's destination, or a targeter
        location: Xyz,
        /// The destination-world. Optional attribute if "location" is given
        world: String,
        /// The yaw that the affected entities should assume
        yaw: MythicOption<u8>,
        /// The pitch that the affected entities should assume
        pitch: MythicOption<u8>,
        /// Whether the location is relative or directional
        relative: MythicOption<bool>,
        /// Will use the target's location as the origin instead of the caster
        target_as_origin: MythicOption<bool>,
    },
    /// Changes the time
    Time {
        /// The mode used in the time mechanic. Can be ADD/SET/RESET
        mode: AddSetReset,
        /// The amount of ticks by which the time will be changed
        amount: u32,
        /// Sets whether to change the global time or the player's client time
        personal: MythicOption<bool>,
        /// Sets whether to keep the player's time synchronized to its world time with an offset
        relative: MythicOption<bool>,
    },
    /// Modifies the mob's threat towards the target
    Threat {
        amount: i32,
        mode: MythicOption<ThreatMode>,
    },
    /// Throws the target entity
    Throw {
        /// The horizontal velocity at which the entity is throw
        velocity: u8,
        velocity_y: u8,
        from_origin: MythicOption<bool>,
    },
    /// Creates a client-side, per-player rainless storm
    ThunderLevel {
        /// The type of the effect. Either 0 or 1
        level: ThunderLevel,
    },
    /// Toggles a lever at the target location
    ToggleLever {
        /// Location of the action, in a x,y,z syntax. If set, other location attributes are ignored
        location: MythicOption<Xyz>,
        /// The duration (in ticks) the lever should remain toggled on.
        duration: u32,
        /// The X coordinate of the button.
        x: MythicOption<i32>,
        /// The Y coordinate of the button.
        y: MythicOption<i32>,
        /// The Z coordinate of the button.
        z: MythicOption<i32>,
    },
    /// Toggles a piston at the target location
    TogglePiston,
    /// Toggles the sitting state for cats, dogs, foxes, and parrots.
    /// Sets the sitting state
    ToggleSitting(bool),
    /// Plays the effect of a totem resurrecting a player with options to specify CustomModelData to
    /// use from resource packs.
    TotemOfUndying {
        /// The CustomModelData to use for the shown totem
        model: String,
    },
    /// Sets the mob's tracked location to the targeted location
    TrackLocation,
    /// Undoes a previous paste done via the fawePaste mechanic, based on its id or on the schematic
    /// used
    UndoPaste {
        paste_id: String,
    },
    /// Modifies the velocity of the targeted entity(s). May be used on players,
    /// too. Useful for all sorts of things like true knockback resistance,
    /// force-skills or simulated wind.
    Velocity {
        /// The operation to perform. Can be SET, ADD, REMOVE, DIVIDE, or MULTIPLY.
        mode: VelocityMode,
        /// Velocity on the x-axis. Can be negative.
        velocity_x: i32,
        /// Velocity on the y-axis. Can be negative.
        velocity_y: i32,
        /// Velocity on the z-axis. Can be negative.
        velocity_z: i32,
        /// If the change in velocity should be relative to the target's facing direction. In this
        /// instance, the z axis becomes forward/backward, y becomes up/down and x becomes
        /// left/right
        relative: MythicOption<bool>,
    },
    /// Forces a targeted wolf to sit.
    /// The state the wolf is in. True = sitting and False = standing
    WolfSit(bool),
    /// Replaces blocks in a region using WorldEdit
    WorldEditReplace {
        /// The material to replace
        from: String,
        /// The material to set in place of the replaced one
        to: String,
    },
    /// Changes the weather for the target player
    Weather {
        /// The type of weather to set.
        weather_type: WeatherType,
        /// How long (in ticks) the weather will be forced to last
        duration: u32,
    },
    /// Links to mechanics added by addon plugins. Any mechanics from these links will not work
    /// without that plugin installed.
    AdditionalMecanics {
        mechanic_type: MechanicType,
    },
}

impl Default for Mechanic {
    /// The mechanic that a new skill starts with: it activates the spawner of
    /// a name that is still empty.
    fn default() -> (r: Mechanic)
        ensures
            r matches Mechanic::ActivateSpawner { spawner } && spawner.is_blank(),
    {
        Mechanic::ActivateSpawner { spawner: SpawnerSelect::SpawnerName(String::new()) }
    }
}

} // verus!
