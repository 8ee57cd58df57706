use mythic_editor::decimal::Decimal;
use mythic_editor::skill::mechanics::Mechanic;
use mythic_editor::skill::model_engine::MechanicType;
use mythic_editor::skill::option::MythicOption;
use mythic_editor::skill::params::ActionMode;
use mythic_editor::skill::params::AddSetReset;
use mythic_editor::skill::params::ArmorStandPose;
use mythic_editor::skill::params::AuraMechanic;
use mythic_editor::skill::params::DurationReduction;
use mythic_editor::skill::params::EffectType;
use mythic_editor::skill::params::EquipmentItem;
use mythic_editor::skill::params::EquipmentSlot;
use mythic_editor::skill::params::ItemArray;
use mythic_editor::skill::params::Particle;
use mythic_editor::skill::params::Percentage;
use mythic_editor::skill::params::RadiusReductionOnTick;
use mythic_editor::skill::params::RadiusReductionOnUse;
use mythic_editor::skill::params::RandomMessages;
use mythic_editor::skill::params::Shape;
use mythic_editor::skill::params::SoundCategory;
use mythic_editor::skill::params::SpawnerSelect;
use mythic_editor::skill::params::SpringType;
use mythic_editor::skill::params::Tags;
use mythic_editor::skill::params::ThreatMode;
use mythic_editor::skill::params::ThunderLevel;
use mythic_editor::skill::params::TradeIngredient;
use mythic_editor::skill::params::VelocityMode;
use mythic_editor::skill::params::WeatherType;
use mythic_editor::skill::params::Xyz;
use mythic_editor::text::Render;

fn d(whole: u64) -> Decimal {
    Decimal::new(false, whole, 0)
}

fn present<T>(pre: &str, value: T, suf: &str) -> MythicOption<T> {
    MythicOption::Present(String::from(pre), value, String::from(suf))
}

/// Every mechanic with parameters that differ from one another, and its line.
fn filled() -> Vec<(Mechanic, &'static str)> {
    vec![
        (
            Mechanic::ActivateSpawner {
                spawner: SpawnerSelect::SpawnerGroup(String::from("grp1")),
            },
            "- activatespawner{spawner=g:grp1}",
        ),
        (
            Mechanic::AddTrade {
                action: ActionMode::Replace,
                slot: 4,
                ingredient: TradeIngredient { name: String::from("gem4"), count: 3 },
                ingredient_2: present(";k5=", TradeIngredient { name: String::from("gem6"), count: 3 }, "|"),
                result: String::from("v7"),
                max_uses: present(";k8=", 10, "|"),
                experience_reward: present(";k10=", false, "|"),
                villager_exp: present(";k12=", 313, "|"),
                price_multiplier: present(";k14=", 16, "|"),
                demand: present(";k16=", 18, "|"),
                special_price: present(";k18=", 319, "|"),
                ignore_discounts: present(";k20=", false, "|"),
            },
            "- addTrade{action=REPLACE;slot=4;item1=gem4 3;k5=gem6 3|;result=v7;k8=10|;k10=false|;k12=313|;k14=16|;k16=18|;k18=319|;k20=false|}",
        ),
        (
            Mechanic::AnimateArmorStand {
                pose: ArmorStandPose { head: [d(1), d(2), d(3)], body: [d(4), d(5), d(6)], left_arm: [d(7), d(8), d(9)], right_arm: [d(10), d(11), d(12)], left_leg: [d(13), d(14), d(15)], right_leg: [d(16), d(17), d(18)] },
                speed: Decimal::new(false, 235, -1),
                duration: 24007,
                ignore_empty: false,
                smart: true,
            },
            "- animateArmorStand{pose=[1.0,2.0,3.0,4.0,5.0,6.0,7.0,8.0,9.0,10.0,11.0,12.0,13.0,14.0,15.0,16.0,17.0,18.0];speed=23.5;duration=24007;ignoreempty=false;smart=true}",
        ),
        (
            Mechanic::ArmAnimation,
            "- armAnimation @self",
        ),
        (
            Mechanic::ArrowVolley {
                amount: 27007,
                spread: Decimal::new(false, 285, -1),
                velocity: Decimal::new(false, 295, -1),
                fire_ticks: 30007,
                remove_delay: 31007,
                can_pickup: true,
            },
            "- arrowvolley{a=27007;s=28.5;v=29.5;f=30007;rd=31007;pickup=true}",
        ),
        (
            Mechanic::AuraRemove { aura_name: String::from("v33"), stacks: 34007 },
            "- auraremove{aura=v33;stacks=34007}",
        ),
        (
            Mechanic::BlackScreen { duration: 35007 },
            "- blackscreen{d=35007}",
        ),
        (
            Mechanic::BlockDestabilize,
            "- blockdestabilize",
        ),
        (
            Mechanic::BlockMask {
                material: String::from("v36"),
                radius: 37007,
                radius_y: 38007,
                noise: 39007,
                duration: 40007,
                shape: Shape::Sphere,
                no_air: true,
                only_air: false,
                occlude: true,
            },
            "- effect:blockmask{m=v36;r=37007;ry=38007;n=39007;d=40007;s=sphere;na=true;oa=false;occ=true}",
        ),
        (
            Mechanic::BlockUnmask { radius: 45007, shape: Shape::Sphere },
            "- effect:blockunmask{r=45007;s=sphere}",
        ),
        (
            Mechanic::BlockPhysics,
            "- blockphysics",
        ),
        (
            Mechanic::BlockWave {
                material: String::from("v47"),
                radius: 48007,
                radius_y: 49007,
                duration: 50007,
                shape: Shape::Sphere,
                velocity: Decimal::new(false, 525, -1),
                horizontal_velocity: Decimal::new(false, 535, -1),
                specific_velocities: true,
                velocity_x: Decimal::new(true, 555, -1),
                velocity_y: Decimal::new(false, 565, -1),
                velocity_z: Decimal::new(false, 575, -1),
                noise: 58007,
                hide_source_block: false,
                ignore_air: true,
            },
            "- blockwave{m=v47;r=48007;ry=49007;d=50007;s=sphere;v=52.5;vh=53.5;sv=true;vx=-55.5;vy=56.5;vz=57.5;n=58007;hsb=false;ia=true}",
        ),
        (
            Mechanic::BloodyScreen { duration: 61007, cancel: true },
            "- effect:bloodyScreen{d=61007;c=true}",
        ),
        (
            Mechanic::BoneMeal { block_face: String::from("v63") },
            "- bonemeal{bf=v63}",
        ),
        (
            Mechanic::BossBorder { radius: 64007 },
            "- bossBorder{r=64007}",
        ),
        (
            Mechanic::Bouncy {
                aura_name: String::from("v65"),
                on_bounce_skill: String::from("v66"),
                cancel_event: false,
            },
            "- bouncy{auraName=v65;onBounceSkill=v66;ce=false}",
        ),
        (
            Mechanic::BreakBlock { do_drops: true, do_effect: false, use_tool: true },
            "- breakblock{d=true;e=false;t=true}",
        ),
        (
            Mechanic::BreakBlockAndGiveItem {
                do_drops: false,
                do_effect: true,
                use_tool: false,
                do_fake_looting: true,
                items: ItemArray { items: vec![String::from("i75"), String::from("j75")] },
            },
            "- breakBlockAndGiveItem{d=false;e=true;t=false;fl=true;i=i75j75}",
        ),
        (
            Mechanic::ClearExperience,
            "- clearexperience",
        ),
        (
            Mechanic::ClearExperienceLevels,
            "- clearexperiencelevels",
        ),
        (
            Mechanic::GiveExperienceLevels { amount: 76007 },
            "- giveexperiencelevels{a=76007}",
        ),
        (
            Mechanic::TakeExperienceLevels { amount: 77007 },
            "- takeexperiencelevels{a=77007}",
        ),
        (
            Mechanic::CloseInventory,
            "- closeinventory",
        ),
        (
            Mechanic::Command {
                command: String::from("v78"),
                as_caster: false,
                as_op: true,
                as_target: false,
                require_target: true,
            },
            "- command{c=v78;ac=false;op=true;at=false;rt=true}",
        ),
        (
            Mechanic::Consume {
                damage: Decimal::new(false, 835, -1),
                heal: Decimal::new(false, 845, -1),
            },
            "- consume{d=83.5;h=84.5}",
        ),
        (
            Mechanic::ConsumeSlot { slot: String::from("v85"), amount: 86007 },
            "- consumeslot{s=v85;a=86007}",
        ),
        (
            Mechanic::DirectionalVelocity {
                yaw: Decimal::new(false, 875, -1),
                pitch: Decimal::new(false, 885, -1),
                velocity: Decimal::new(false, 895, -1),
                mode: String::from("v90"),
            },
            "- directionalvelocity{yaw=87.5;pitch=88.5;v=89.5;m=v90}",
        ),
        (
            Mechanic::Disengage {
                velocity: Decimal::new(false, 915, -1),
                velocity_y: Decimal::new(false, 925, -1),
            },
            "- disengage{v=91.5;vy=92.5}",
        ),
        (
            Mechanic::Disguise { disguise: String::from("v93") },
            "- disguise{d=v93}",
        ),
        (
            Mechanic::DisguiseModify { disguise: String::from("v94") },
            "- disguisemodify{d=v94}",
        ),
        (
            Mechanic::DisguiseTarget { disguise: String::from("v95") },
            "- disguisetarget{d=v95}",
        ),
        (
            Mechanic::Undisguise,
            "- undisguise",
        ),
        (
            Mechanic::Dismount,
            "- dismount",
        ),
        (
            Mechanic::DisplayTransformation {
                action: String::from("v96"),
                transformation_type: String::from("v97"),
                value: String::from("v98"),
            },
            "- displaytransformation{a=v96;tt=v97;val=v98}",
        ),
        (
            Mechanic::ClearThreat,
            "- clearThreat",
        ),
        (
            Mechanic::CurrencyGive { amount: Decimal::new(false, 995, -1) },
            "- currencygive{a=99.5}",
        ),
        (
            Mechanic::CurrencyTake { amount: Decimal::new(true, 1005, -1) },
            "- currencytake{a=-100.5}",
        ),
        (
            Mechanic::Damage {
                amount: Decimal::new(false, 1015, -1),
                ignore_armor: true,
                prevent_knockback: false,
                prevent_immunity: true,
                damage_cause: String::from("v105"),
                ignore_enchantments: true,
                no_anger: false,
                ignore_invulnerability: true,
                ignore_shield: false,
                damage_helmet: true,
                ignore_effects: false,
                ignore_resistance: true,
                power_affects_damage: false,
                tags: Tags { tags: vec![String::from("t114"), String::from("u114")] },
                raw_tags: Tags { tags: vec![String::from("t115"), String::from("u115")] },
                element: String::from("v116"),
                trigger_skills: false,
            },
            "- damage{a=101.5;ia=true;pkb=false;pi=true;dc=v105;ie=true;na=false;ii=true;is=false;dh=true;ieff=false;ir=true;pad=false;tags=t114u114;rtag=t115u115;e=v116;ts=false}",
        ),
        (
            Mechanic::BaseDamage {
                multiplier: Decimal::new(false, 1185, -1),
                use_attribute: false,
            },
            "- basedamage{m=118.5;attr=false}",
        ),
        (
            Mechanic::PercentDamage {
                percent: Decimal::new(true, 1205, -1),
                current_health: false,
            },
            "- percentdamage{p=-120.5;c=false}",
        ),
        (
            Mechanic::Decapitate,
            "- decapitate",
        ),
        (
            Mechanic::Doppleganger {
                has_nameplate: true,
                use_player_name: present(";k123=", String::from("v124"), "|"),
            },
            "- doppleganger{nameplate=true;upn=;k123=v124|}",
        ),
        (
            Mechanic::DropItem {
                items: String::from("v125"),
                naturally: true,
                on_drop_skill: present(";k127=", String::from("v128"), "|"),
            },
            "- dropitem{i=v125;n=true;onDrop=;k127=v128|}",
        ),
        (
            Mechanic::EjectPassenger,
            "- ejectpassenger",
        ),
        (
            Mechanic::Ender,
            "- ender",
        ),
        (
            Mechanic::EnderBeam { duration: 129007, y_offset: Decimal::new(true, 1305, -1) },
            "- effect:enderbeam{d=129007;y=-130.5}",
        ),
        (
            Mechanic::EnderDragonResetCrystals,
            "- enderDragonResetCrystals",
        ),
        (
            Mechanic::EnderDragonSetPhase { phase: String::from("v131") },
            "- enderDragonSetPhase{p=v131}",
        ),
        (
            Mechanic::EnderDragonSetRespawnPhase { phase: String::from("v132") },
            "- enderDragonSetRespawnPhase{p=v132}",
        ),
        (
            Mechanic::EnderDragonSpawnPortal { with_portals: false },
            "- enderDragonSpawnPortal{wp=false}",
        ),
        (
            Mechanic::Equip {
                item: EquipmentItem { item: String::from("axe134"), slot: EquipmentSlot::Head },
            },
            "- equip{item=axe134 HEAD}",
        ),
        (
            Mechanic::EquipCopy { slots: String::from("v135") },
            "- equipcopy{s=v135}",
        ),
        (
            Mechanic::Explosion {
                power_explosion: Decimal::new(false, 1365, -1),
                block_damage: false,
                fire: true,
            },
            "- explosion{y=136.5;bd=false;f=true}",
        ),
        (
            Mechanic::FakeExplosion,
            "- fakeexplosion",
        ),
        (
            Mechanic::Extinguish,
            "- extinguish",
        ),
        (
            Mechanic::FawePaste {
                schematic: String::from("v139"),
                paste_id: present(";k140=", String::from("v141"), "|"),
                paste_air: true,
                x_offset: -1574,
                y_offset: 1872,
                z_offset: -1596,
                rotation: Decimal::new(false, 1465, -1),
                center: false,
                chest_drop_table: present(";k148=", String::from("v149"), "|"),
                trap_chest_drop_table: present(";k150=", String::from("v151"), "|"),
                blocks_per_tick: 152007,
                duration: 153007,
            },
            "- fawePaste{s=v139;pid=;k140=v141|;a=true;x=-1574;y=1872;z=-1596;rot=146.5;c=false;cdt=;k148=v149|;tcdt=;k150=v151|;bpt=152007;d=153007}",
        ),
        (
            Mechanic::Feed {
                amount: 2002,
                saturation: Decimal::new(true, 1555, -1),
                overfeed: true,
            },
            "- feed{a=2002;s=-155.5;o=true}",
        ),
        (
            Mechanic::FillChest {
                items: String::from("v157"),
                should_stack: present(";k158=", false, "|"),
                should_empty: present(";k160=", false, "|"),
            },
            "- fillchest{i=v157;stack=;k158=false|;empty=;k160=false|}",
        ),
        (
            Mechanic::Firework {
                firework_type: String::from("v162"),
                power: 163007,
                flicker: true,
                trail: false,
                colors: String::from("v166"),
                fade_colors: String::from("v167"),
            },
            "- effect:firework{t=v162;p=163007;f=true;tr=false;c=v166;fc=v167}",
        ),
        (
            Mechanic::Flames,
            "- flames",
        ),
        (
            Mechanic::Fly,
            "- fly",
        ),
        (
            Mechanic::ForcePull { spread: 168007, v_spread: present(";k169=", 170007, "|") },
            "- forcepull{s=168007;vs=;k169=170007|}",
        ),
        (
            Mechanic::Freeze { ticks: 171007 },
            "- freeze{t=171007}",
        ),
        (
            Mechanic::Geyser {
                liquid_type: String::from("v172"),
                height: 173007,
                interval: 174007,
            },
            "- geyser{t=v172;h=173007;i=174007}",
        ),
        (
            Mechanic::GiveItem { item: String::from("v175"), fake_looting: true },
            "- giveitem{i=v175;fl=true}",
        ),
        (
            Mechanic::GiveItemFromSlot { slot: String::from("v177"), fake_looting: true },
            "- giveitemfromslot{s=v177;fl=true}",
        ),
        (
            Mechanic::GiveItemFromTarget { item: String::from("v179"), fake_looting: true },
            "- giveitemfromtarget{i=v179;fl=true}",
        ),
        (
            Mechanic::Glow { color: String::from("v181") },
            "- effect:glow{color=v181}",
        ),
        (
            Mechanic::GoatRam,
            "- goatram",
        ),
        (
            Mechanic::GoTo {
                speed: Decimal::new(false, 1825, -1),
                spread_h: 183007,
                spread_v: 184007,
            },
            "- goto{s=182.5;sh=183007;sv=184007}",
        ),
        (
            Mechanic::GuardianBeam {
                duration: 185007,
                interval: 186007,
                start_y_offset: Decimal::new(false, 1875, -1),
                target_y_offset: Decimal::new(false, 1885, -1),
                from_origin: false,
                on_start_skill: present(";k190=", String::from("v191"), "|"),
                on_tick_skill: present(";k192=", String::from("v193"), "|"),
                on_end_skill: present(";k194=", String::from("v195"), "|"),
            },
            "- guardianbeam{d=185007;i=186007;syo=187.5;tyo=188.5;fo=false;oS=;k190=v191|;oT=;k192=v193|;oE=;k194=v195|}",
        ),
        (
            Mechanic::Heal {
                amount: Decimal::new(false, 1965, -1),
                overheal: false,
                max_overheal: Decimal::new(false, 1985, -1),
            },
            "- heal{a=196.5;oh=false;mo=198.5}",
        ),
        (
            Mechanic::HealPercent {
                multiplier: Percentage::new(Decimal::new(false, 25, -2)).unwrap(),
                overheal: true,
                max_overheal: Decimal::new(false, 2015, -1),
            },
            "- healpercent{m=0.25;oh=true;mo=201.5}",
        ),
        (
            Mechanic::Hide { ignore_aura_options: true },
            "- hide{ignoreAuraOptions=true}",
        ),
        (
            Mechanic::Hit {
                multiplier: Decimal::new(false, 2035, -1),
                forced_damage: present(";k204=", Decimal::new(true, 2055, -1), "|"),
                trigger_skills: true,
                scale_by_attack_cooldown: false,
            },
            "- hit{m=203.5;fd=;k204=-205.5|;ts=true;sbac=false}",
        ),
        (
            Mechanic::Hologram { text: String::from("v208"), stay: 209007 },
            "- holo{text=v208;time=209007}",
        ),
        (
            Mechanic::Ignite { ticks: 210007 },
            "- ignite{t=210007}",
        ),
        (
            Mechanic::ItemSpray {
                items: String::from("v211"),
                amount: 212007,
                duration: 213007,
                radius: 214007,
                velocity: Decimal::new(true, 2155, -1),
                y_velocity: present(";k216=", Decimal::new(false, 2175, -1), "|"),
                y_offset: Decimal::new(false, 2185, -1),
                allow_pickup: false,
                gravity: true,
            },
            "- itemspray{i=v211;a=212007;d=213007;r=214007;v=-215.5;yv=;k216=217.5|;yo=218.5;ap=false;g=true}",
        ),
        (
            Mechanic::JSONMessage { message: String::from("v221") },
            "- jsonmessage{m=v221}",
        ),
        (
            Mechanic::Jump { velocity: Decimal::new(false, 2225, -1) },
            "- jump{v=222.5}",
        ),
        (
            Mechanic::Leap {
                velocity: Decimal::new(false, 2235, -1),
                noise: Decimal::new(false, 2245, -1),
            },
            "- leap{v=223.5;n=224.5}",
        ),
        (
            Mechanic::Lightning { damage: Decimal::new(true, 2255, -1) },
            "- lightning{damage=-225.5}",
        ),
        (
            Mechanic::FakeLightning { localized: true, localized_radius: 227007 },
            "- fakelightning{localized=true;localizedradius=227007}",
        ),
        (
            Mechanic::Log { message: String::from("v228") },
            "- log{message=v228}",
        ),
        (
            Mechanic::Look { head_only: false, force: true, force_paper: false, immediately: true },
            "- look{headOnly=false;force=true;forcepaper=false;immediately=true}",
        ),
        (
            Mechanic::Lunge {
                velocity: Decimal::new(false, 2335, -1),
                velocity_y: Decimal::new(false, 2345, -1),
                old_math: false,
            },
            "- lunge{velocity=233.5;velocityY=234.5;oldmath=false}",
        ),
        (
            Mechanic::MatchRotation { target: String::from("v236") },
            "- matchrotation{target=v236}",
        ),
        (
            Mechanic::Message { message: String::from("v237"), audience: String::from("v238") },
            "- message{message=v237;audience=v238}",
        ),
        (
            Mechanic::ModifyDamage {
                amount: Decimal::new(false, 2395, -1),
                damage_type: String::from("v240"),
                action: String::from("v241"),
            },
            "- modifyDamage{amount=239.5;damagetype=v240;action=v241}",
        ),
        (
            Mechanic::ModifyGlobalScore {
                objective: String::from("v242"),
                action: String::from("v243"),
                value: Decimal::new(false, 2445, -1),
            },
            "- modifyglobalscore{objective=v242;action=v243;value=244.5}",
        ),
        (
            Mechanic::ModifyTargetScore {
                objective: String::from("v245"),
                action: String::from("v246"),
                value: Decimal::new(false, 2475, -1),
            },
            "- modifytargetscore{objective=v245;action=v246;value=247.5}",
        ),
        (
            Mechanic::ModifyMobScore {
                objective: String::from("v248"),
                action: String::from("v249"),
                value: Decimal::new(true, 2505, -1),
            },
            "- modifymobscore{objective=v248;action=v249;value=-250.5}",
        ),
        (
            Mechanic::ModifyScore {
                objective: String::from("v251"),
                action: String::from("v252"),
                value: Decimal::new(false, 2535, -1),
            },
            "- modifyscore{objective=v251;action=v252;value=253.5}",
        ),
        (
            Mechanic::Mount { entity: String::from("v254") },
            "- mount{entity=v254}",
        ),
        (
            Mechanic::MountMe { entity: String::from("v255") },
            "- mountme{entity=v255}",
        ),
        (
            Mechanic::MountTarget { entity: String::from("v256") },
            "- mounttarget{entity=v256}",
        ),
        (
            Mechanic::MovePin {
                x: Decimal::new(false, 2575, -1),
                y: Decimal::new(false, 2585, -1),
                z: Decimal::new(false, 2595, -1),
            },
            "- movepin{x=257.5;y=258.5;z=259.5}",
        ),
        (
            Mechanic::OpenTrades,
            "- opentrades{{}}",
        ),
        (
            Mechanic::Oxygen { amount: 3380 },
            "- oxygen{amount=3380}",
        ),
        (
            Mechanic::Particle {
                particle: String::from("v261"),
                amount: 262007,
                speed: Decimal::new(false, 2635, -1),
                x: Decimal::new(false, 2645, -1),
                y: Decimal::new(true, 2655, -1),
                z: Decimal::new(false, 2665, -1),
            },
            "- particle{particle=v261;amount=262007;speed=263.5;x=264.5;y=-265.5;z=266.5}",
        ),
        (
            Mechanic::ParticleBox {
                particle: String::from("v267"),
                amount: 268007,
                speed: Decimal::new(false, 2695, -1),
                x: Decimal::new(true, 2705, -1),
                y: Decimal::new(false, 2715, -1),
                z: Decimal::new(false, 2725, -1),
                width: Decimal::new(false, 2735, -1),
                height: Decimal::new(false, 2745, -1),
            },
            "- particlebox{particle=v267;amount=268007;speed=269.5;x=-270.5;y=271.5;z=272.5;width=273.5;height=274.5}",
        ),
        (
            Mechanic::ParticleEquation {
                particle: String::from("v275"),
                amount: 276007,
                speed: Decimal::new(false, 2775, -1),
                x: Decimal::new(false, 2785, -1),
                y: Decimal::new(false, 2795, -1),
                z: Decimal::new(true, 2805, -1),
                equation: String::from("v281"),
            },
            "- particleequation{particle=v275;amount=276007;speed=277.5;x=278.5;y=279.5;z=-280.5;equation=v281}",
        ),
        (
            Mechanic::ParticleLine {
                particle: String::from("v282"),
                amount: 283007,
                speed: Decimal::new(false, 2845, -1),
                x: Decimal::new(true, 2855, -1),
                y: Decimal::new(false, 2865, -1),
                z: Decimal::new(false, 2875, -1),
                length: Decimal::new(false, 2885, -1),
            },
            "- particleline{particle=v282;amount=283007;speed=284.5;x=-285.5;y=286.5;z=287.5;length=288.5}",
        ),
        (
            Mechanic::ParticleLineHelix {
                particle: String::from("v289"),
                amount: 290007,
                speed: Decimal::new(false, 2915, -1),
                x: Decimal::new(false, 2925, -1),
                y: Decimal::new(false, 2935, -1),
                z: Decimal::new(false, 2945, -1),
                length: Decimal::new(true, 2955, -1),
                radius: Decimal::new(false, 2965, -1),
            },
            "- particlelinehelix{particle=v289;amount=290007;speed=291.5;x=292.5;y=293.5;z=294.5;length=-295.5;radius=296.5}",
        ),
        (
            Mechanic::ParticleLineRing {
                particle: String::from("v297"),
                amount: 298007,
                speed: Decimal::new(false, 2995, -1),
                x: Decimal::new(true, 3005, -1),
                y: Decimal::new(false, 3015, -1),
                z: Decimal::new(false, 3025, -1),
                radius: Decimal::new(false, 3035, -1),
            },
            "- particlelinering{particle=v297;amount=298007;speed=299.5;x=-300.5;y=301.5;z=302.5;radius=303.5}",
        ),
        (
            Mechanic::ParticleOrbital {
                particle: String::from("v304"),
                amount: 305007,
                speed: Decimal::new(false, 3065, -1),
                x: Decimal::new(false, 3075, -1),
                y: Decimal::new(false, 3085, -1),
                z: Decimal::new(false, 3095, -1),
                radius: Decimal::new(true, 3105, -1),
            },
            "- particleorbital{particle=v304;amount=305007;speed=306.5;x=307.5;y=308.5;z=309.5;radius=-310.5}",
        ),
        (
            Mechanic::ParticleRing {
                particle: String::from("v311"),
                amount: 312007,
                speed: Decimal::new(false, 3135, -1),
                x: Decimal::new(false, 3145, -1),
                y: Decimal::new(true, 3155, -1),
                z: Decimal::new(false, 3165, -1),
                radius: Decimal::new(false, 3175, -1),
            },
            "- particlering{particle=v311;amount=312007;speed=313.5;x=314.5;y=-315.5;z=316.5;radius=317.5}",
        ),
        (
            Mechanic::ParticleSphere {
                particle: String::from("v318"),
                amount: 319007,
                speed: Decimal::new(true, 3205, -1),
                x: Decimal::new(false, 3215, -1),
                y: Decimal::new(false, 3225, -1),
                z: Decimal::new(false, 3235, -1),
                radius: Decimal::new(false, 3245, -1),
            },
            "- particlesphere{particle=v318;amount=319007;speed=-320.5;x=321.5;y=322.5;z=323.5;radius=324.5}",
        ),
        (
            Mechanic::ParticleTornado {
                particle: String::from("v325"),
                amount: 326007,
                speed: Decimal::new(false, 3275, -1),
                x: Decimal::new(false, 3285, -1),
                y: Decimal::new(false, 3295, -1),
                z: Decimal::new(true, 3305, -1),
                height: Decimal::new(false, 3315, -1),
                radius: Decimal::new(false, 3325, -1),
            },
            "- particletornado{particle=v325;amount=326007;speed=327.5;x=328.5;y=329.5;z=-330.5;height=331.5;radius=332.5}",
        ),
        (
            Mechanic::Atom {
                particle: String::from("v333"),
                amount: 334007,
                speed: Decimal::new(true, 3355, -1),
                x: Decimal::new(false, 3365, -1),
                y: Decimal::new(false, 3375, -1),
                z: Decimal::new(false, 3385, -1),
                radius: Decimal::new(false, 3395, -1),
            },
            "- atom{particle=v333;amount=334007;speed=-335.5;x=336.5;y=337.5;z=338.5;radius=339.5}",
        ),
        (
            Mechanic::PickUpItem { item: String::from("v340") },
            "- pickupitem{item=v340}",
        ),
        (
            Mechanic::PlayAnimation { animation: String::from("v341") },
            "- playanimation{animation=v341}",
        ),
        (
            Mechanic::PlayBlockBreakSound { block: String::from("v342") },
            "- playblockbreaksound{block=v342}",
        ),
        (
            Mechanic::PlayBlockFallSound { block: String::from("v343") },
            "- playblockfallsound{block=v343}",
        ),
        (
            Mechanic::PlayBlockHitSound { block: String::from("v344") },
            "- playblockhitsound{block=v344}",
        ),
        (
            Mechanic::PlayBlockPlaceSound { block: String::from("v345") },
            "- playblockplacesound{block=v345}",
        ),
        (
            Mechanic::PlayBlockStepSound { block: String::from("v346") },
            "- playblockstepsound{block=v346}",
        ),
        (
            Mechanic::PoseArmorStand { pose: String::from("v347") },
            "- posearmorstand{pose=v347}",
        ),
        (
            Mechanic::Potion { potion: String::from("v348"), duration: 349007, level: 101 },
            "- potion{potion=v348;duration=349007;level=101}",
        ),
        (
            Mechanic::PotionClear,
            "- potionclear{{}}",
        ),
        (
            Mechanic::Prison,
            "- prison{{}}",
        ),
        (
            Mechanic::PrintParentTree,
            "- printparenttree{{}}",
        ),
        (
            Mechanic::Propel { velocity: Decimal::new(false, 3515, -1) },
            "- propel{velocity=351.5}",
        ),
        (
            Mechanic::Pull { velocity: Decimal::new(false, 3525, -1) },
            "- pull{velocity=352.5}",
        ),
        (
            Mechanic::PushBlock { velocity: Decimal::new(false, 3535, -1) },
            "- pushblock{velocity=353.5}",
        ),
        (
            Mechanic::PushButton,
            "- pushbutton{{}}",
        ),
        (
            Mechanic::RayTrace,
            "- raytrace{{}}",
        ),
        (
            Mechanic::RayTraceTo,
            "- raytraceto{{}}",
        ),
        (
            Mechanic::Rally { radius: Decimal::new(false, 3545, -1) },
            "- rally{radius=354.5}",
        ),
        (
            Mechanic::RandomMessage {
                messages: RandomMessages { messages: vec![String::from("m355"), String::from("n355")] },
            },
            "- randommessage{messages=\"m355\",\"n355\"}",
        ),
        (
            Mechanic::Recoil { velocity: Decimal::new(false, 3565, -1) },
            "- recoil{velocity=356.5}",
        ),
        (
            Mechanic::Remount,
            "- remount{{}}",
        ),
        (
            Mechanic::Remove,
            "- remove{{}}",
        ),
        (
            Mechanic::RemoveHeldItem,
            "- removehelditem{{}}",
        ),
        (
            Mechanic::RemoveOwner,
            "- removeowner{{}}",
        ),
        (
            Mechanic::ResetAI,
            "- resetai{{}}",
        ),
        (
            Mechanic::RotateTowards { target: String::from("v357") },
            "- rotatetowards{target=v357}",
        ),
        (
            Mechanic::RunAIGoalSelector,
            "- runaigoalselector{{}}",
        ),
        (
            Mechanic::RunAITargetSelector,
            "- runaitargetselector{{}}",
        ),
        (
            Mechanic::Saddle,
            "- saddle{{}}",
        ),
        (
            Mechanic::SendActionMessage { message: String::from("v358") },
            "- sendactionmessage{message=v358}",
        ),
        (
            Mechanic::SendResourcePack { url: String::from("v359") },
            "- sendresourcepack{url=v359}",
        ),
        (
            Mechanic::SendTitle {
                title: String::from("v360"),
                subtitle: String::from("v361"),
                fade_in: 362007,
                stay: 363007,
                fade_out: 364007,
            },
            "- sendtitle{title=v360;subtitle=v361;fadein=362007;stay=363007;fadeout=364007}",
        ),
        (
            Mechanic::SendToast { title: String::from("v365"), message: String::from("v366") },
            "- sendtoast{title=v365;message=v366}",
        ),
        (
            Mechanic::SetAI { ai: String::from("v367") },
            "- setai{ai=v367}",
        ),
        (
            Mechanic::SetBlockOpen { open: true },
            "- setblockopen{open=true}",
        ),
        (
            Mechanic::SetBlockType { block: String::from("v369") },
            "- setblocktype{block=v369}",
        ),
        (
            Mechanic::SetChunkForceLoaded { loaded: true },
            "- setchunkforceloaded{loaded=true}",
        ),
        (
            Mechanic::SetCollidable { collidable: false },
            "- setcollidable{collidable=false}",
        ),
        (
            Mechanic::SetDragonPodium { podium: true },
            "- setdragonpodium{podium=true}",
        ),
        (
            Mechanic::SetGameMode { gamemode: String::from("v373") },
            "- setgamemode{gamemode=v373}",
        ),
        (
            Mechanic::SetGliding { gliding: true },
            "- setgliding{gliding=true}",
        ),
        (
            Mechanic::SetGlobalScore {
                objective: String::from("v375"),
                action: String::from("v376"),
                value: Decimal::new(false, 3775, -1),
            },
            "- setglobalscore{objective=v375;action=v376;value=377.5}",
        ),
        (
            Mechanic::SetGravity { gravity: Decimal::new(false, 3785, -1) },
            "- setgravity{gravity=378.5}",
        ),
        (
            Mechanic::SetHealth { health: Decimal::new(false, 3795, -1) },
            "- sethealth{health=379.5}",
        ),
        (
            Mechanic::SetInteractionSize {
                width: Decimal::new(true, 3805, -1),
                height: Decimal::new(false, 3815, -1),
            },
            "- setinteractionsize{width=-380.5;height=381.5}",
        ),
        (
            Mechanic::SetItemGroupCooldown { group: String::from("v382"), cooldown: 383007 },
            "- setitemgroupcooldown{group=v382;cooldown=383007}",
        ),
        (
            Mechanic::SetDisplayEntityItem { item: String::from("v384") },
            "- setdisplayentityitem{item=v384}",
        ),
        (
            Mechanic::SetLeashHolder { holder: String::from("v385") },
            "- setleashholder{holder=v385}",
        ),
        (
            Mechanic::SetLevel { level: 386007 },
            "- setlevel{level=386007}",
        ),
        (
            Mechanic::SetMaterialCooldown { material: String::from("v387"), cooldown: 388007 },
            "- setmaterialcooldown{material=v387;cooldown=388007}",
        ),
        (
            Mechanic::SetMaxHealth { health: Decimal::new(false, 3895, -1) },
            "- setmaxhealth{health=389.5}",
        ),
        (
            Mechanic::SetMobColor { color: String::from("v390") },
            "- setmobcolor{color=v390}",
        ),
        (
            Mechanic::SetMobScore { objective: String::from("v391"), score: 5096 },
            "- setmobscore{objective=v391;score=5096}",
        ),
        (
            Mechanic::SetName { name: String::from("v393") },
            "- setname{name=v393}",
        ),
        (
            Mechanic::SetRaiderCanJoinRaid { can_join: true },
            "- setraidercanjoinraid{can_join=true}",
        ),
        (
            Mechanic::SetRaiderPatrolBlock { block: String::from("v395") },
            "- setraiderpatrolblock{block=v395}",
        ),
        (
            Mechanic::SetRaiderPatrolLeader { leader: String::from("v396") },
            "- setraiderpatrolleader{leader=v396}",
        ),
        (
            Mechanic::SetFaction { faction: String::from("v397") },
            "- setfaction{faction=v397}",
        ),
        (
            Mechanic::SetFlying { flying: true },
            "- setflying{flying=true}",
        ),
        (
            Mechanic::SetNoDamageTicks { ticks: 399007 },
            "- setnodamageticks{ticks=399007}",
        ),
        (
            Mechanic::SetOwner { owner: String::from("v400") },
            "- setowner{owner=v400}",
        ),
        (
            Mechanic::SetParent { parent: String::from("v401") },
            "- setparent{parent=v401}",
        ),
        (
            Mechanic::SetPathfindingMalus { malus: Decimal::new(false, 4025, -1) },
            "- setpathfindingmalus{malus=402.5}",
        ),
        (
            Mechanic::SetPitch { pitch: Decimal::new(false, 4035, -1) },
            "- setpitch{pitch=403.5}",
        ),
        (
            Mechanic::SetPose { pose: String::from("v404") },
            "- setpose{pose=v404}",
        ),
        (
            Mechanic::SetRotation {
                yaw: Decimal::new(true, 4055, -1),
                pitch: Decimal::new(false, 4065, -1),
            },
            "- setrotation{yaw=-405.5;pitch=406.5}",
        ),
        (
            Mechanic::SetTarget { target: String::from("v407") },
            "- settarget{target=v407}",
        ),
        (
            Mechanic::SetTargetScore { objective: String::from("v408"), score: -4500 },
            "- settargetscore{objective=v408;score=-4500}",
        ),
        (
            Mechanic::SetTextDisplay { text: String::from("v410") },
            "- settextdisplay{text=v410}",
        ),
        (
            Mechanic::SetTongueTarget { target: String::from("v411") },
            "- settonguetarget{target=v411}",
        ),
        (
            Mechanic::SetScore { objective: String::from("v412"), score: -4544 },
            "- setscore{objective=v412;score=-4544}",
        ),
        (
            Mechanic::SetSpeed { speed: Decimal::new(false, 4145, -1) },
            "- setspeed{speed=414.5}",
        ),
        (
            Mechanic::SetStance { stance: String::from("v415") },
            "- setstance{stance=v415}",
        ),
        (
            Mechanic::Shield,
            "- shield{{}}",
        ),
        (
            Mechanic::ShieldBreak,
            "- shieldbreak{{}}",
        ),
        (
            Mechanic::ShieldPercent { percent: Decimal::new(false, 4165, -1) },
            "- shieldpercent{percent=416.5}",
        ),
        (
            Mechanic::ShootFireball { velocity: Decimal::new(false, 4175, -1) },
            "- shootfireball{velocity=417.5}",
        ),
        (
            Mechanic::ShootPotion {
                potion: String::from("v418"),
                velocity: Decimal::new(false, 4195, -1),
            },
            "- shootpotion{potion=v418;velocity=419.5}",
        ),
        (
            Mechanic::ShootSkull { velocity: Decimal::new(true, 4205, -1) },
            "- shootskull{velocity=-420.5}",
        ),
        (
            Mechanic::ShootShulkerBullet { velocity: Decimal::new(false, 4215, -1) },
            "- shootshulkerbullet{velocity=421.5}",
        ),
        (
            Mechanic::ShowEntity { entity: String::from("v422") },
            "- showentity{entity=v422}",
        ),
        (
            Mechanic::Signal { signal: String::from("v423") },
            "- signal{signal=v423}",
        ),
        (
            Mechanic::Skybox { skybox: String::from("v424") },
            "- skybox{skybox=v424}",
        ),
        (
            Mechanic::Smoke,
            "- smoke{{}}",
        ),
        (
            Mechanic::SmokeSwirl,
            "- smokeswirl{{}}",
        ),
        (
            Mechanic::Sound {
                sound: String::from("v425"),
                volume: Decimal::new(false, 4265, -1),
                pitch: Decimal::new(false, 4275, -1),
            },
            "- sound{sound=v425;volume=426.5;pitch=427.5}",
        ),
        (
            Mechanic::StealItem { item: String::from("v428") },
            "- stealitem{item=v428}",
        ),
        (
            Mechanic::StopSound { sound: String::from("v429") },
            "- stopsound{s=v429}",
        ),
        (
            Mechanic::StopSoundWithCategory {
                sound: String::from("v430"),
                sound_category: SoundCategory::Voice,
            },
            "- stopsound{s=v430;source=VOICE}",
        ),
        (
            Mechanic::Speak {
                offset: Decimal::new(false, 4325, -1),
                radius: 184,
                max_line_lenght: 185,
                line_prefix: String::from("v435"),
                message: String::from("v436"),
                chat_prefix: String::from("v437"),
                duration: 738,
                send_chat_message: false,
            },
            "- speak{offset=432.5;radius=184;maxlinelength=185;lineprefix=v435;message=v436;chatprefix=v437;duration=738;sendchatmessage=false}",
        ),
        (
            Mechanic::Spin { velocity: 191, aura: AuraMechanic(String::from("aura441")) },
            "- spin{velocity=191;aura441}",
        ),
        (
            Mechanic::Spring { spring_type: SpringType::Lava, duration: 443007 },
            "- spring{type=lava;duration=443007}",
        ),
        (
            Mechanic::Stun { duration: 444007 },
            "- stun{duration=444007}",
        ),
        (
            Mechanic::StopUsingItem,
            "- stopusingitem",
        ),
        (
            Mechanic::Suicide,
            "- suicide",
        ),
        (
            Mechanic::Summon { mob: String::from("v445"), location: String::from("v446") },
            "- summon{mob=v445;location=v446}",
        ),
        (
            Mechanic::SummonAreaEffectCloud {
                particle: present(";k447=", Particle::Ash, "|"),
                effect_type: present(";k449=", EffectType::Slow, "|"),
                potion_duration: present(";k451=", 452007, "|"),
                level: present(";k453=", 205, "|"),
                duration: present(";k455=", 456007, "|"),
                duration_reduction_on_use: present(";k457=", DurationReduction { duration: 458 }, "|"),
                radius: present(";k459=", 211, "|"),
                radius_reduction_on_use: present(";k461=", RadiusReductionOnUse { radius: 462 }, "|"),
                radius_reduction_on_tick: present(";k463=", RadiusReductionOnTick { radius: 464 }, "|"),
            },
            "- summonareaeffectcloud{;k447=ASH|;k449=SLOW|;k451=452007|;k453=205|;k455=456007|;k457=458|;k459=211|;k461=462|;k463=464|}",
        ),
        (
            Mechanic::SummonFallingBlock { material: String::from("v465") },
            "- summonfallingblock{m=v465}",
        ),
        (
            Mechanic::SummonPassenger {
                passenger: String::from("v466"),
                stack: present(";k467=", true, "|"),
            },
            "- summonpassenger{type=v466;k467=true|}",
        ),
        (
            Mechanic::Swap,
            "- swap",
        ),
        (
            Mechanic::SwingOffHand,
            "- swingoffhand",
        ),
        (
            Mechanic::AddTag(String::from("v469")),
            "- addtag{t=v469}",
        ),
        (
            Mechanic::RemoveTag(String::from("v470")),
            "- removetag{t=v470}",
        ),
        (
            Mechanic::TakeItem {
                item: String::from("v471"),
                amount: 223,
                exact: present(";k473=", true, "|"),
                vanilla_only: present(";k475=", true, "|"),
            },
            "- takeitem{i=v471;a=223;k473=true|;k475=true|}",
        ),
        (
            Mechanic::Taunt,
            "- taunt",
        ),
        (
            Mechanic::Teleport {
                spreadh: present(";k477=", 229, "|"),
                spreadv: present(";k479=", 231, "|"),
                preserve_pitch: present(";k481=", true, "|"),
                preserve_yaw: present(";k483=", true, "|"),
                safe_teleport: present(";k485=", true, "|"),
            },
            "- teleport{;k477=229|;k479=231|;k481=true|;k483=true|;k485=true|}",
        ),
        (
            Mechanic::TeleportY { y: 487007 },
            "- teleport{y=487007}",
        ),
        (
            Mechanic::TeleportIn {
                vector: present(";k488=", Xyz { x: 489, y: -489, z: 0 }, "|"),
                yaw: present(";k490=", 491007, "|"),
                target_as_origin: present(";k492=", false, "|"),
            },
            "- teleportin{;k488=489,-489,0|;k490=491007|;k492=false|}",
        ),
        (
            Mechanic::TeleportTo {
                location: Xyz { x: 494, y: -494, z: 0 },
                world: String::from("v495"),
                yaw: present(";k496=", 248, "|"),
                pitch: present(";k498=", 250, "|"),
                relative: present(";k500=", false, "|"),
                target_as_origin: present(";k502=", false, "|"),
            },
            "- teleportto{loc=494,-494,0;w=v495;k496=248|;k498=250|;k500=false|;k502=false|}",
        ),
        (
            Mechanic::Time {
                mode: AddSetReset::Reset,
                amount: 505007,
                personal: present(";k506=", false, "|"),
                relative: present(";k508=", false, "|"),
            },
            "- time{mode=RESET;amount=505007;k506=false|;k508=false|}",
        ),
        (
            Mechanic::Threat { amount: 6630, mode: present(";k511=", ThreatMode::ForceTop, "|") },
            "- threat{amount=6630;k511=forcetop|}",
        ),
        (
            Mechanic::Throw {
                velocity: 14,
                velocity_y: 15,
                from_origin: present(";k515=", true, "|"),
            },
            "- throw{v=14;vy=15;k515=true|}",
        ),
        (
            Mechanic::ThunderLevel { level: ThunderLevel::Level1 },
            "- thunderlevel{l=1}",
        ),
        (
            Mechanic::ToggleLever {
                location: present(";k518=", Xyz { x: 519, y: -519, z: 0 }, "|"),
                duration: 520007,
                x: present(";k521=", 6786, "|"),
                y: present(";k523=", 6812, "|"),
                z: present(";k525=", 6838, "|"),
            },
            "- togglelever{duration=520007;;k518=519,-519,0|;k521=6786|;k523=6812|;k525=6838|}",
        ),
        (
            Mechanic::TogglePiston,
            "- togglepiston",
        ),
        (
            Mechanic::ToggleSitting(false),
            "- sit{state=false}",
        ),
        (
            Mechanic::TotemOfUndying { model: String::from("v528") },
            "- totemofundying{mode=v528}",
        ),
        (
            Mechanic::TrackLocation,
            "- tracklocation",
        ),
        (
            Mechanic::UndoPaste { paste_id: String::from("v529") },
            "- undopaste{id=v529}",
        ),
        (
            Mechanic::Velocity {
                mode: VelocityMode::Divide,
                velocity_x: -5842,
                velocity_y: 6916,
                velocity_z: -5864,
                relative: present(";k534=", false, "|"),
            },
            "- velocity{m=divide;x=-5842;y=6916;z=-5864;k534=false|}",
        ),
        (
            Mechanic::WolfSit(true),
            "- wolfsit{state=true}",
        ),
        (
            Mechanic::WorldEditReplace { from: String::from("v537"), to: String::from("v538") },
            "- worldEditReplace{from=v537;to=v538}",
        ),
        (
            Mechanic::Weather { weather_type: WeatherType::Rainy, duration: 540007 },
            "- weather{type=rain;duration=540007}",
        ),
        (
            Mechanic::AdditionalMecanics { mechanic_type: MechanicType::MythicCrucible },
            "- MythicCrucible",
        ),
    ]
}

#[test]
fn lines_of_filled_mechanics() {
    let all = filled();
    assert_eq!(all.len(), 235);
    for (mechanic, line) in &all {
        assert_eq!(mechanic.render(), *line);
    }
}

#[test]
fn filled_mechanics_follow_the_catalogue() {
    let catalogue = Mechanic::variants();
    for ((mechanic, _), blank) in filled().iter().zip(catalogue.iter()) {
        assert_eq!(std::mem::discriminant(mechanic), std::mem::discriminant(blank));
        assert_eq!(mechanic.get_fields(), blank.get_fields());
        assert_eq!(mechanic.get_desc(), blank.get_desc());
    }
}
