use mythic_editor::skill::mechanics::Mechanic;
use mythic_editor::text::Render;

/// The name, the description and the line of every mechanic with blank
/// parameters, in catalogue order.
const CATALOGUE: [(&str, &str, &str); 235] = [
    (
        "Activate Spawner",
        "Activates a MythicMobs spawner at the targeted location",
        "- activatespawner{spawner=}",
    ),
    (
        "Add Trade",
        "Changes the trades of a villager",
        "- addTrade{action=ADD;slot=0;item1= 0;result=}",
    ),
    (
        "Animates an armor stand",
        "Animates an armor stand",
        "- animateArmorStand{pose=[0.0,0.0,0.0,0.0,0.0,0.0,0.0,0.0,0.0,0.0,0.0,0.0,0.0,0.0,0.0,0.0,0.0,0.0];speed=0;duration=0;ignoreempty=false;smart=false}",
    ),
    (
        "Arm Animation",
        "Makes the caster swing their arm",
        "- armAnimation @self",
    ),
    (
        "Arrow Volley",
        "Fires a volley of arrows",
        "- arrowvolley{a=0;s=0;v=0;f=0;rd=0;pickup=false}",
    ),
    (
        "Aura Remove",
        "Adds an attribute modifier to the attributable target",
        "- auraremove{aura=;stacks=0}",
    ),
    (
        "BlackScreen",
        "Creates a custom boss bar on the casting mob",
        "- blackscreen{d=0}",
    ),
    (
        "BlockDestabilize",
        "Causes the targeted blocks to fall, as if affected by gravity",
        "- blockdestabilize",
    ),
    (
        "BlockMask",
        "Temporarily masks a block as a different block",
        "- effect:blockmask{m=;r=0;ry=0;n=0;d=0;s=Cube;na=false;oa=false;occ=false}",
    ),
    (
        "BlockUnmask",
        "Unmasks blocks that have been masked",
        "- effect:blockunmask{r=0;s=Cube}",
    ),
    (
        "BlockPhysics",
        "Triggers a block physics update at the target location",
        "- blockphysics",
    ),
    (
        "BlockWave",
        "Creates a wave of blocks at the target location",
        "- blockwave{m=;r=0;ry=0;d=0;s=Cube;v=0;vh=0;sv=false;vx=0;vy=0;vz=0;n=0;hsb=false;ia=false}",
    ),
    (
        "BloodyScreen",
        "Makes the target's screen glow red",
        "- effect:bloodyScreen{d=0;c=false}",
    ),
    (
        "BoneMeal",
        "Applies a bone meal effect to the target blocks",
        "- bonemeal{bf=}",
    ),
    (
        "BossBorder",
        "Creates an inescapable border around the mob",
        "- bossBorder{r=0}",
    ),
    (
        "Bouncy",
        "Creates an inescapable border around the mob",
        "- bouncy{auraName=;onBounceSkill=;ce=false}",
    ),
    (
        "BreakBlock",
        "Breaks the block at the target location",
        "- breakblock{d=false;e=false;t=false}",
    ),
    (
        "BreakBlockAndGiveItem",
        "Breaks the block at the target location and gives an item/droptable",
        "- breakBlockAndGiveItem{d=false;e=false;t=false;fl=false;i=}",
    ),
    (
        "ClearExperience",
        "Clears the experience for the targeted players",
        "- clearexperience",
    ),
    (
        "ClearExperienceLevels",
        " Clears the experience levels for the targeted players",
        "- clearexperiencelevels",
    ),
    (
        "GiveExperienceLevels",
        "Gives experience levels to the targeted players",
        "- giveexperiencelevels{a=0}",
    ),
    (
        "TakeExperienceLevels",
        "Takes experience levels from the targeted players",
        "- takeexperiencelevels{a=0}",
    ),
    (
        "CloseInventory",
        "Closes the target player's inventory",
        "- closeinventory",
    ),
    (
        "Command",
        "Executes a command for each target",
        "- command{c=;ac=false;op=false;at=false;rt=false}",
    ),
    (
        "Consume",
        "Deals damage and restores health per target hit",
        "- consume{d=0;h=0}",
    ),
    (
        "ConsumeSlot",
        "Removes an item from a specific slot of the player's inventory",
        "- consumeslot{s=;a=0}",
    ),
    (
        "DirectionalVelocity",
        "Changes the velocity on the target entity on a specific vector",
        "- directionalvelocity{yaw=0;pitch=0;v=0;m=}",
    ),
    (
        "Disengage",
        "Causes the caster to leap backwards away from the target entity",
        "- disengage{v=0;vy=0}",
    ),
    (
        "Disguise",
        "Changes the caster's disguise",
        "- disguise{d=}",
    ),
    (
        "DisguiseModify",
        "Modifies the caster's already applied disguise",
        "- disguisemodify{d=}",
    ),
    (
        "DisguiseTarget",
        "Changes the target's disguise",
        "- disguisetarget{d=}",
    ),
    (
        "Undisguise",
        "Removes the caster's disguise",
        "- undisguise",
    ),
    (
        "Dismount",
        "Makes the caster dismount whatever they're riding",
        "- dismount",
    ),
    (
        "DisplayTransformation",
        "Sets the targeted display entity's transformations",
        "- displaytransformation{a=;tt=;val=}",
    ),
    (
        "ClearThreat",
        "Makes a mob clear its threat table",
        "- clearThreat",
    ),
    (
        "CurrencyGive",
        "Gives money to a player. Requires Vault and a currency plugin",
        "- currencygive{a=0}",
    ),
    (
        "CurrencyTake",
        "Takes money from a player. Requires Vault and a currency plugin",
        "- currencytake{a=0}",
    ),
    (
        "Damage",
        "Damages the target for an amount",
        "- damage{a=0;ia=false;pkb=false;pi=false;dc=;ie=false;na=false;ii=false;is=false;dh=false;ieff=false;ir=false;pad=false;tags=;rtag=;e=;ts=false}",
    ),
    (
        "BaseDamage",
        "Damages the target for a percent of the mob's damage stat",
        "- basedamage{m=0;attr=false}",
    ),
    (
        "PercentDamage",
        "Damages the target for a percent of their health",
        "- percentdamage{p=0;c=false}",
    ),
    (
        "Decapitate",
        "Drops a player head item based on target",
        "- decapitate",
    ),
    (
        "Doppleganger",
        "Copies the appearance of the target player",
        "- doppleganger{nameplate=false;upn=}",
    ),
    (
        "DropItem",
        "Drops an item or droptable at the target location",
        "- dropitem{i=;n=false;onDrop=}",
    ),
    (
        "EjectPassenger",
        "Ejects anything riding the caster",
        "- ejectpassenger",
    ),
    (
        "Ender",
        "Causes the \"Ender\" effect",
        "- ender",
    ),
    (
        "EnderBeam",
        "Creates an EnderCrystal's beam effect to the target",
        "- effect:enderbeam{d=0;y=0}",
    ),
    (
        "EnderDragonResetCrystals",
        "Generates the EnderDragon crystals",
        "- enderDragonResetCrystals",
    ),
    (
        "EnderDragonSetPhase",
        "Sets the EnderDragon phase",
        "- enderDragonSetPhase{p=}",
    ),
    (
        "EnderDragonSetRespawnPhase",
        "Sets the EnderDragon respawn phase",
        "- enderDragonSetRespawnPhase{p=}",
    ),
    (
        "EnderDragonSpawnPortal",
        "Generates the portal of the EnderDragon battle",
        "- enderDragonSpawnPortal{wp=false}",
    ),
    (
        "Equip",
        "Causes the casting mob to equip an item",
        "- equip{item= HAND}",
    ),
    (
        "EquipCopy",
        "Causes the caster to equip a copy of the target's equipment",
        "- equipcopy{s=}",
    ),
    (
        "Explosion",
        "Causes an explosion",
        "- explosion{y=0;bd=false;f=false}",
    ),
    (
        "FakeExplosion",
        "Causes a fake explosion",
        "- fakeexplosion",
    ),
    (
        "Extinguish",
        "Removes fire ticks from the target entity",
        "- extinguish",
    ),
    (
        "FawePaste",
        "Pastes a Schematic using FAWE (Fast Async World Edit)",
        "- fawePaste{s=;pid=;a=false;x=0;y=0;z=0;rot=0;c=false;cdt=;tcdt=;bpt=0;d=0}",
    ),
    (
        "Feed",
        "Feeds the target player",
        "- feed{a=0;s=0;o=false}",
    ),
    (
        "FillChest",
        "Fills a chest with items, or a droptable",
        "- fillchest{i=;stack=;empty=}",
    ),
    (
        "Firework",
        "Creates a firework effect at the target",
        "- effect:firework{t=;p=0;f=false;tr=false;c=;fc=}",
    ),
    (
        "Flames",
        "Creates the flames effect at the location of the targeter",
        "- flames",
    ),
    (
        "Fly",
        "Applies an aura that allows the targeted player to fly",
        "- fly",
    ),
    (
        "ForcePull",
        "Teleports the target to the caster",
        "- forcepull{s=0;vs=}",
    ),
    (
        "Freeze",
        "Freezes the target for the given number of ticks using the Powdered Snow freezing effect",
        "- freeze{t=0}",
    ),
    (
        "Geyser",
        "Creates a \"geyser\" of water or lava",
        "- geyser{t=;h=0;i=0}",
    ),
    (
        "GiveItem",
        "Gives an item to the target",
        "- giveitem{i=;fl=false}",
    ),
    (
        "GiveItemFromSlot",
        "Gives an item to the target from the item in the given slot of caster",
        "- giveitemfromslot{s=;fl=false}",
    ),
    (
        "GiveItemFromTarget",
        "Gives the caster an item while playing the pickup-item animation from the target entity or location",
        "- giveitemfromtarget{i=;fl=false}",
    ),
    (
        "Glow",
        "Makes the target glow",
        "- effect:glow{color=}",
    ),
    (
        "GoatRam",
        "Causes the casting goat mob to ram the targeted entity",
        "- goatram",
    ),
    (
        "GoTo",
        "Move toward the location of the targeter (entity or location)",
        "- goto{s=0;sh=0;sv=0}",
    ),
    (
        "GuardianBeam",
        "Draws a guardian beam between the origin and the target",
        "- guardianbeam{d=0;i=0;syo=0;tyo=0;fo=false;oS=;oT=;oE=}",
    ),
    (
        "Heal",
        "Heals the target",
        "- heal{a=0;oh=false;mo=0}",
    ),
    (
        "HealPercent",
        "Heals the target for a percentage of its max-health",
        "- healpercent{m=0;oh=false;mo=0}",
    ),
    (
        "Hide",
        "Hides the caster from the targeted player(s) for a set duration",
        "- hide{ignoreAuraOptions=false}",
    ),
    (
        "Hit",
        "Simulates a physical hit from the mob",
        "- hit{m=0;fd=;ts=false;sbac=false}",
    ),
    (
        "Hologram",
        "Summons a hologram to the targeted location",
        "- holo{text=;time=0}",
    ),
    (
        "Ignite",
        "Sets the target on fire",
        "- ignite{t=0}",
    ),
    (
        "ItemSpray",
        "Causes an explosion of temporary items at the target location",
        "- itemspray{i=;a=0;d=0;r=0;v=0;yv=;yo=0;ap=false;g=false}",
    ),
    (
        "JSONMessage",
        "Sends a JSON-format message to the target player(s)",
        "- jsonmessage{m=}",
    ),
    (
        "Jump",
        "Causes the caster to jump",
        "- jump{v=0}",
    ),
    (
        "Leap",
        "Causes the caster to leap towards the target",
        "- leap{v=0;n=0}",
    ),
    (
        "Lightning",
        "Strikes lightning at the target",
        "- lightning{damage=0}",
    ),
    (
        "FakeLightning",
        "Strikes a fake lightning at the target",
        "- fakelightning{localized=false;localizedradius=0}",
    ),
    (
        "Log",
        "Logs a message to console",
        "- log{message=}",
    ),
    (
        "Look",
        "Causes the caster to look at the target",
        "- look{headOnly=false;force=false;forcepaper=false;immediately=false}",
    ),
    (
        "Lunge",
        "Causes the caster to lunge forward at the target",
        "- lunge{velocity=0;velocityY=0;oldmath=false}",
    ),
    (
        "MatchRotation",
        "Sets the caster's yaw and pitch to the same value of the target's",
        "- matchrotation{target=}",
    ),
    (
        "Message",
        "Sends a message to the target player(s)",
        "- message{message=;audience=}",
    ),
    (
        "ModifyDamage",
        "Modifies the damage event that triggered the skill",
        "- modifyDamage{amount=0;damagetype=;action=}",
    ),
    (
        "ModifyGlobalScore",
        "Modifies a scoreboard value of the fake player: GLOBAL",
        "- modifyglobalscore{objective=;action=;value=0}",
    ),
    (
        "ModifyTargetScore",
        "Modifies a scoreboard value of the target",
        "- modifytargetscore{objective=;action=;value=0}",
    ),
    (
        "ModifyMobScore",
        "Modifies a scoreboard value of the casting mob",
        "- modifymobscore{objective=;action=;value=0}",
    ),
    (
        "ModifyScore",
        "Modifies the score of a dummy player",
        "- modifyscore{objective=;action=;value=0}",
    ),
    (
        "Mount",
        "Summons a mob for the caster and mounts it",
        "- mount{entity=}",
    ),
    (
        "MountMe",
        "Forces the targeted entity to mount the caster",
        "- mountme{entity=}",
    ),
    (
        "MountTarget",
        "Mounts the target",
        "- mounttarget{entity=}",
    ),
    (
        "MovePin",
        "Moves the given pin to the target location",
        "- movepin{x=0;y=0;z=0}",
    ),
    (
        "OpenTrades",
        "Opens the trades of the casting villager to the target player",
        "- opentrades{{}}",
    ),
    (
        "Oxygen",
        "Gives oxygen to a player target",
        "- oxygen{amount=0}",
    ),
    (
        "Particle",
        "Creates particle effects around the target",
        "- particle{particle=;amount=0;speed=0;x=0;y=0;z=0}",
    ),
    (
        "ParticleBox",
        "Draws a box of particles around the target",
        "- particlebox{particle=;amount=0;speed=0;x=0;y=0;z=0;width=0;height=0}",
    ),
    (
        "ParticleEquation",
        "Generates particles based on equations",
        "- particleequation{particle=;amount=0;speed=0;x=0;y=0;z=0;equation=}",
    ),
    (
        "ParticleLine",
        "Draws a line of particle effects to the target",
        "- particleline{particle=;amount=0;speed=0;x=0;y=0;z=0;length=0}",
    ),
    (
        "ParticleLineHelix",
        "Draws a line based helix effect",
        "- particlelinehelix{particle=;amount=0;speed=0;x=0;y=0;z=0;length=0;radius=0}",
    ),
    (
        "ParticleLineRing",
        "Draws a particle ring connected by lines",
        "- particlelinering{particle=;amount=0;speed=0;x=0;y=0;z=0;radius=0}",
    ),
    (
        "ParticleOrbital",
        "Draws orbiting particle effects around the target",
        "- particleorbital{particle=;amount=0;speed=0;x=0;y=0;z=0;radius=0}",
    ),
    (
        "ParticleRing",
        "Draws a ring of particles around the target",
        "- particlering{particle=;amount=0;speed=0;x=0;y=0;z=0;radius=0}",
    ),
    (
        "ParticleSphere",
        "Draws a sphere of particles around the target",
        "- particlesphere{particle=;amount=0;speed=0;x=0;y=0;z=0;radius=0}",
    ),
    (
        "ParticleTornado",
        "Draws a persistent \"tornado\" of particles at the target",
        "- particletornado{particle=;amount=0;speed=0;x=0;y=0;z=0;height=0;radius=0}",
    ),
    (
        "Atom",
        "Creates some particles in the shape of an atom",
        "- atom{particle=;amount=0;speed=0;x=0;y=0;z=0;radius=0}",
    ),
    (
        "PickUpItem",
        "Picks up the targeted item",
        "- pickupitem{item=}",
    ),
    (
        "PlayAnimation",
        "Forces the entity to play an animation",
        "- playanimation{animation=}",
    ),
    (
        "PlayBlockBreakSound",
        "Plays a block breaking sound",
        "- playblockbreaksound{block=}",
    ),
    (
        "PlayBlockFallSound",
        "Plays a block falling sound",
        "- playblockfallsound{block=}",
    ),
    (
        "PlayBlockHitSound",
        "Plays a block hit sound",
        "- playblockhitsound{block=}",
    ),
    (
        "PlayBlockPlaceSound",
        "Plays a block place sound",
        "- playblockplacesound{block=}",
    ),
    (
        "PlayBlockStepSound",
        "Plays a block step sound",
        "- playblockstepsound{block=}",
    ),
    (
        "PoseArmorStand",
        "Changes the pose of the target ArmorStand",
        "- posearmorstand{pose=}",
    ),
    (
        "Potion",
        "Applies a potion effect to the target",
        "- potion{potion=;duration=0;level=0}",
    ),
    (
        "PotionClear",
        "Removes all potion effects from target entity",
        "- potionclear{{}}",
    ),
    (
        "Prison",
        "Imprisons the target inside a block",
        "- prison{{}}",
    ),
    (
        "PrintParentTree",
        "Prints debug information regarding the Metaskill executing the mechanic and its SkillTree",
        "- printparenttree{{}}",
    ),
    (
        "Propel",
        "Propels the caster towards the target",
        "- propel{velocity=0}",
    ),
    (
        "Pull",
        "Pulls the target towards the mob",
        "- pull{velocity=0}",
    ),
    (
        "PushBlock",
        "Pushes the block at the target location in the given direction",
        "- pushblock{velocity=0}",
    ),
    (
        "PushButton",
        "Pushes a button at the target location",
        "- pushbutton{{}}",
    ),
    (
        "RayTrace",
        "Traces a straight line to the target",
        "- raytrace{{}}",
    ),
    (
        "RayTraceTo",
        "Executes a skill with the result of a raytrace to the target location",
        "- raytraceto{{}}",
    ),
    (
        "Rally",
        "Causes other nearby mobs to attack the target",
        "- rally{radius=0}",
    ),
    (
        "RandomMessage",
        "Sends a random message to the target player",
        "- randommessage{messages=}",
    ),
    (
        "Recoil",
        "Kicks the target's screen in order to simulate a recoil",
        "- recoil{velocity=0}",
    ),
    (
        "Remount",
        "Remounts the mob the caster originally spawned riding, if it is still alive",
        "- remount{{}}",
    ),
    (
        "Remove",
        "Removes the target mob",
        "- remove{{}}",
    ),
    (
        "RemoveHeldItem",
        "Removes some of the item the target player is holding",
        "- removehelditem{{}}",
    ),
    (
        "RemoveOwner",
        "Removes the ownership of the target mob",
        "- removeowner{{}}",
    ),
    (
        "ResetAI",
        "Attempts to reset the AI of a casting mob to the base type's default",
        "- resetai{{}}",
    ),
    (
        "RotateTowards",
        "Rotates the caster towards the target location",
        "- rotatetowards{target=}",
    ),
    (
        "RunAIGoalSelector",
        "Change the caster's AIGoalSelectors",
        "- runaigoalselector{{}}",
    ),
    (
        "RunAITargetSelector",
        "Change the caster's AITargetSelectors",
        "- runaitargetselector{{}}",
    ),
    (
        "Saddle",
        "Equips or removes a saddle on the target entity",
        "- saddle{{}}",
    ),
    (
        "SendActionMessage",
        "Sends an Actionbar Message to the target player",
        "- sendactionmessage{message=}",
    ),
    (
        "SendResourcePack",
        "Sends a Resource Pack to the target player",
        "- sendresourcepack{url=}",
    ),
    (
        "SendTitle",
        "Sends a Title/Subtitle Message to the target player",
        "- sendtitle{title=;subtitle=;fadein=0;stay=0;fadeout=0}",
    ),
    (
        "SendToast",
        "Sends an achievement toast to the target player",
        "- sendtoast{title=;message=}",
    ),
    (
        "SetAI",
        "Disables/enables the AI of the target mob",
        "- setai{ai=}",
    ),
    (
        "SetBlockOpen",
        "Sets the target block's open state",
        "- setblockopen{open=false}",
    ),
    (
        "SetBlockType",
        "Change block type at target location",
        "- setblocktype{block=}",
    ),
    (
        "SetChunkForceLoaded",
        "Sets the force-loaded status of a location's chunk",
        "- setchunkforceloaded{loaded=false}",
    ),
    (
        "SetCollidable",
        "Sets if the target should have a collidable hitbox or not",
        "- setcollidable{collidable=false}",
    ),
    (
        "SetDragonPodium",
        "Sets the position of the dragon's podium at the target location",
        "- setdragonpodium{podium=false}",
    ),
    (
        "SetGameMode",
        "Sets the Game Mode of the target player",
        "- setgamemode{gamemode=}",
    ),
    (
        "SetGliding",
        "Makes the target glide if they have elytra",
        "- setgliding{gliding=false}",
    ),
    (
        "SetGlobalScore",
        "Sets a scoreboard value on the fake player: GLOBAL",
        "- setglobalscore{objective=;action=;value=0}",
    ),
    (
        "SetGravity",
        "Sets whether gravity affects the target entity",
        "- setgravity{gravity=0}",
    ),
    (
        "SetHealth",
        "Sets the health of the target entity",
        "- sethealth{health=0}",
    ),
    (
        "SetInteractionSize",
        "Sets the size of the target INTERACTION entity",
        "- setinteractionsize{width=0;height=0}",
    ),
    (
        "SetItemGroupCooldown",
        "Sets the cooldown on an item group for the target player",
        "- setitemgroupcooldown{group=;cooldown=0}",
    ),
    (
        "SetDisplayEntityItem",
        "Sets the item component of ITEM_DISPLAY entities",
        "- setdisplayentityitem{item=}",
    ),
    (
        "SetLeashHolder",
        "Changes the holder of a mob's lead",
        "- setleashholder{holder=}",
    ),
    (
        "SetLevel",
        "Changes the casting mob's level",
        "- setlevel{level=0}",
    ),
    (
        "SetMaterialCooldown",
        "Sets a cooldown for usable materials like ender pearls, chorus fruit, etc",
        "- setmaterialcooldown{material=;cooldown=0}",
    ),
    (
        "SetMaxHealth",
        "Sets the max health of the target entity",
        "- setmaxhealth{health=0}",
    ),
    (
        "SetMobColor",
        "Changes the color of the target if it is a colorable mob",
        "- setmobcolor{color=}",
    ),
    (
        "SetMobScore",
        "Sets a scoreboard value on the casting mob",
        "- setmobscore{objective=;score=0}",
    ),
    (
        "SetName",
        "Changes the caster entity's name",
        "- setname{name=}",
    ),
    (
        "SetRaiderCanJoinRaid",
        "Sets if the target raider entity can join a raid or not",
        "- setraidercanjoinraid{can_join=false}",
    ),
    (
        "SetRaiderPatrolBlock",
        "Sets the target raider to patrol a location",
        "- setraiderpatrolblock{block=}",
    ),
    (
        "SetRaiderPatrolLeader",
        "Sets the raider patrol leader",
        "- setraiderpatrolleader{leader=}",
    ),
    (
        "SetFaction",
        "Changes the target entity's faction",
        "- setfaction{faction=}",
    ),
    (
        "SetFlying",
        "Sets whether the target player is flying",
        "- setflying{flying=false}",
    ),
    (
        "SetNoDamageTicks",
        "Sets the no damage ticks of the target",
        "- setnodamageticks{ticks=0}",
    ),
    (
        "SetOwner",
        "Makes the target the owner of the casting mob",
        "- setowner{owner=}",
    ),
    (
        "SetParent",
        "Makes the target the parent of the casting mob",
        "- setparent{parent=}",
    ),
    (
        "SetPathfindingMalus",
        "Sets the pathfinding malus of a mob for given terrain types",
        "- setpathfindingmalus{malus=0}",
    ),
    (
        "SetPitch",
        "Sets the head pitch of the target entity",
        "- setpitch{pitch=0}",
    ),
    (
        "SetPose",
        "Sets the entity's pose",
        "- setpose{pose=}",
    ),
    (
        "SetRotation",
        "Sets the rotation of the target",
        "- setrotation{yaw=0;pitch=0}",
    ),
    (
        "SetTarget",
        "Sets the caster's target",
        "- settarget{target=}",
    ),
    (
        "SetTargetScore",
        "Sets the score of the target",
        "- settargetscore{objective=;score=0}",
    ),
    (
        "SetTextDisplay",
        "Sets the text component of target Text Display entity",
        "- settextdisplay{text=}",
    ),
    (
        "SetTongueTarget",
        "Sets the tongue target for a frog caster to the target entity",
        "- settonguetarget{target=}",
    ),
    (
        "SetScore",
        "Sets the scoreboard value of a dummy player",
        "- setscore{objective=;score=0}",
    ),
    (
        "SetSpeed",
        "Sets the target entity's speed attribute",
        "- setspeed{speed=0}",
    ),
    (
        "SetStance",
        "Sets the stance of the target mob",
        "- setstance{stance=}",
    ),
    (
        "Shield",
        "Applies an absorb shield to the target entity",
        "- shield{{}}",
    ),
    (
        "ShieldBreak",
        "Forces the player to lower their shield and puts it on cooldown",
        "- shieldbreak{{}}",
    ),
    (
        "ShieldPercent",
        "Applies an absorb shield to the target entity for a percentage of their max health",
        "- shieldpercent{percent=0}",
    ),
    (
        "ShootFireball",
        "Shoots a fireball at the target",
        "- shootfireball{velocity=0}",
    ),
    (
        "ShootPotion",
        "Throws a potion at the target",
        "- shootpotion{potion=;velocity=0}",
    ),
    (
        "ShootSkull",
        "Shoots a wither skull at the target",
        "- shootskull{velocity=0}",
    ),
    (
        "ShootShulkerBullet",
        "Shoots a shulker bullet at the target entity",
        "- shootshulkerbullet{velocity=0}",
    ),
    (
        "ShowEntity",
        "Shows the hidden caster to the targeted players",
        "- showentity{entity=}",
    ),
    (
        "Signal",
        "Sends a signal to a mob",
        "- signal{signal=}",
    ),
    (
        "Skybox",
        "Alters the target player's skybox",
        "- skybox{skybox=}",
    ),
    (
        "Smoke",
        "Creates a puff of smoke",
        "- smoke{{}}",
    ),
    (
        "SmokeSwirl",
        "Creates a persistent \"swirl\" of smoke",
        "- smokeswirl{{}}",
    ),
    (
        "Sound",
        "Plays a sound effect",
        "- sound{sound=;volume=0;pitch=0}",
    ),
    (
        "StealItem",
        "Steals an item from the target player's inventory",
        "- stealitem{item=}",
    ),
    (
        "StopSound",
        "Stops a sound effect from playing",
        "- stopsound{s=}",
    ),
    (
        "StopSoundWithCategory",
        "Stops a sound effect from playing (Specify a category)",
        "- stopsound{s=;source=MASTER}",
    ),
    (
        "Speak",
        "Causes the mob to speak in chat, with options for speech bubbles",
        "- speak{offset=0;radius=0;maxlinelength=0;lineprefix=;message=;chatprefix=;duration=0;sendchatmessage=false}",
    ),
    (
        "Spin",
        "Causes the target to spin",
        "- spin{velocity=0;}",
    ),
    (
        "Spring",
        "Creates a temporary spring of liquid at the target",
        "- spring{type=water;duration=0}",
    ),
    (
        "Stun",
        "Stuns the target entity for a specified duration",
        "- stun{duration=0}",
    ),
    (
        "StopUsingItem",
        "Stops the targeted entity from using an item",
        "- stopusingitem",
    ),
    (
        "Suicide",
        "Causes the caster to die",
        "- suicide",
    ),
    (
        "Summon",
        "Summons a mob at the specified location",
        "- summon{mob=;location=}",
    ),
    (
        "SummonAreaEffectCloud",
        "Summons a cloud of particles at the target",
        "- summonareaeffectcloud{}",
    ),
    (
        "SummonFallingBlock",
        "Summons a falling block",
        "- summonfallingblock{m=}",
    ),
    (
        "SummonPassenger",
        "Summons a mob to ride the target.",
        "- summonpassenger{type=}",
    ),
    (
        "Swap",
        "Swaps locations with the target",
        "- swap",
    ),
    (
        "SwingOffHand",
        "Makes the casting player swing their offhand",
        "- swingoffhand",
    ),
    (
        "AddTa",
        "Adds a scoreboard tag to the target",
        "- addtag{t=}",
    ),
    (
        "RemoveTa",
        "Removes a scoreboard tag from the target",
        "- removetag{t=}",
    ),
    (
        "TakeItem",
        "Removes an item from the targeted player's inventory",
        "- takeitem{i=;a=0}",
    ),
    (
        "Taunt",
        "Modifies the threat level that the caster holds with the target entities",
        "- taunt",
    ),
    (
        "Teleport",
        "Teleports to the target",
        "- teleport{}",
    ),
    (
        "TeleportY",
        "Teleports the caster vertically",
        "- teleport{y=0}",
    ),
    (
        "TeleportIn",
        "Teleports the target relative to the caster's yaw",
        "- teleportin{}",
    ),
    (
        "TeleportTo",
        "Teleports the target to a specified location",
        "- teleportto{loc=0,0,0;w=}",
    ),
    (
        "Time",
        "Changes the time",
        "- time{mode=ADD;amount=0}",
    ),
    (
        "Threat",
        "Modifies the mob's threat towards the target",
        "- threat{amount=0}",
    ),
    (
        "Throw",
        "Throws the target entity",
        "- throw{v=0;vy=0}",
    ),
    (
        "ThunderLevel",
        "Creates a client-side, per-player rainless storm",
        "- thunderlevel{l=0}",
    ),
    (
        "ToggleLever",
        "Toggles a lever at the target location",
        "- togglelever{duration=0;}",
    ),
    (
        "TogglePiston",
        "Toggles a piston at the target location",
        "- togglepiston",
    ),
    (
        "ToggleSittin",
        "Toggles the sitting state for cats, dogs, foxes, and parrots. Sets the sitting state",
        "- sit{state=false}",
    ),
    (
        "TotemOfUndying",
        "Plays the effect of a totem resurrecting a player with options to specify CustomModelData to use from resource packs.",
        "- totemofundying{mode=}",
    ),
    (
        "TrackLocation",
        "Sets the mob's tracked location to the targeted location",
        "- tracklocation",
    ),
    (
        "UndoPaste",
        "Undoes a previous paste done via the fawePaste mechanic, based on its id or on the schematic used",
        "- undopaste{id=}",
    ),
    (
        "Velocity",
        "Modifies the velocity of the targeted entity(s). May be used on players, too. Useful for all sorts of things like true knockback resistance,force-skills or simulated wind.",
        "- velocity{m=set;x=0;y=0;z=0}",
    ),
    (
        "WolfSi",
        "Forces a targeted wolf to sit. The state the wolf is in. True = sitting and False = standing",
        "- wolfsit{state=false}",
    ),
    (
        "WorldEditReplace",
        "Replaces blocks in a region using WorldEdit",
        "- worldEditReplace{from=;to=}",
    ),
    (
        "Weather",
        "Changes the weather for the target player",
        "- weather{type=sun;duration=0}",
    ),
    (
        "AdditionalMecanics",
        "Links to mechanics added by addon plugins. Any mechanics from these links will not work without that plugin installed.",
        "- ModelEngineMechanic",
    ),
];

#[test]
fn catalogue_lists_every_mechanic_once() {
    let all = Mechanic::variants();
    assert_eq!(all.len(), CATALOGUE.len());
    for (i, m) in all.iter().enumerate() {
        for (j, other) in all.iter().enumerate() {
            if i != j {
                assert_ne!(std::mem::discriminant(m), std::mem::discriminant(other));
            }
        }
    }
}

#[test]
fn catalogue_names_and_descriptions() {
    let all = Mechanic::variants();
    for (m, (label, desc, _)) in all.iter().zip(CATALOGUE.iter()) {
        assert_eq!(m.get_fields(), *label);
        assert_eq!(m.get_desc(), *desc);
        assert!(!m.get_fields().is_empty());
        assert!(!m.get_desc().is_empty());
    }
}

#[test]
fn catalogue_lines_of_blank_mechanics() {
    let all = Mechanic::variants();
    for (m, (_, _, line)) in all.iter().zip(CATALOGUE.iter()) {
        assert_eq!(m.render(), *line);
    }
}

#[test]
fn every_line_begins_with_dash() {
    for m in Mechanic::variants() {
        let line = m.render();
        assert!(line.starts_with("- "), "{}", line);
        assert!(line.len() > 2, "{}", line);
        assert_eq!(line, format!("- {}", m.render_body()));
    }
}

#[test]
fn rendering_twice_gives_the_same_text() {
    for m in Mechanic::variants() {
        assert_eq!(m.render(), m.render());
        assert_eq!(m.clone().render(), m.render());
    }
}

#[test]
fn from_ordinal_agrees_with_variants() {
    let all = Mechanic::variants();
    for (i, m) in all.iter().enumerate() {
        assert_eq!(&Mechanic::from_ordinal(i), m);
    }
}

#[test]
fn default_mechanic_activates_unnamed_spawner() {
    let m = Mechanic::default();
    assert_eq!(m, Mechanic::from_ordinal(0));
    assert_eq!(m.render(), "- activatespawner{spawner=}");
    assert_eq!(m.get_fields(), "Activate Spawner");
}
