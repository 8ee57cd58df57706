use mythic_editor::decimal::Decimal;
use mythic_editor::skill::mechanics::Mechanic;
use mythic_editor::skill::model_engine::MechanicType;
use mythic_editor::skill::option::MythicOption;
use mythic_editor::skill::params::ActionMode;
use mythic_editor::skill::params::AddSetReset;
use mythic_editor::skill::params::ArmorStandPose;
use mythic_editor::skill::params::AuraMechanic;
use mythic_editor::skill::params::DurationReduction;
use mythic_editor::skill::params::EffectType;
use mythic_editor::skill::params::EquipmentItem;
use mythic_editor::skill::params::EquipmentSlot;
use mythic_editor::skill::params::ItemArray;
use mythic_editor::skill::params::Particle;
use mythic_editor::skill::params::Percentage;
use mythic_editor::skill::params::RadiusReductionOnTick;
use mythic_editor::skill::params::RadiusReductionOnUse;
use mythic_editor::skill::params::RandomMessages;
use mythic_editor::skill::params::Shape;
use mythic_editor::skill::params::SoundCategory;
use mythic_editor::skill::params::SpawnerSelect;
use mythic_editor::skill::params::SpringType;
use mythic_editor::skill::params::Tags;
use mythic_editor::skill::params::ThreatMode;
use mythic_editor::skill::params::ThunderLevel;
use mythic_editor::skill::params::TradeIngredient;
use mythic_editor::skill::params::VelocityMode;
use mythic_editor::skill::params::WeatherType;
use mythic_editor::skill::params::Xyz;
use mythic_editor::text::Render;

fn dec(x: f32) -> Decimal {
    Decimal::parse(&x.to_string()).unwrap()
}

fn present<T>(pre: &str, value: T, suf: &str) -> MythicOption<T> {
    MythicOption::Present(String::from(pre), value, String::from(suf))
}

fn damage(amount: f32) -> Mechanic {
    Mechanic::Damage {
        amount: dec(amount),
        ignore_armor: false,
        prevent_knockback: false,
        prevent_immunity: false,
        damage_cause: String::new(),
        ignore_enchantments: false,
        no_anger: false,
        ignore_invulnerability: false,
        ignore_shield: false,
        damage_helmet: false,
        ignore_effects: false,
        ignore_resistance: false,
        power_affects_damage: false,
        tags: Tags::default(),
        raw_tags: Tags::default(),
        element: String::new(),
        trigger_skills: false,
    }
}

#[test]
fn mechanic_without_parameters() {
    assert_eq!(Mechanic::ArmAnimation.render(), "- armAnimation @self");
    assert_eq!(Mechanic::BlockDestabilize.render(), "- blockdestabilize");
    assert_eq!(Mechanic::Swap.render(), "- swap");
    assert_eq!(Mechanic::OpenTrades.render(), "- opentrades{{}}");
    assert_eq!(Mechanic::SmokeSwirl.render(), "- smokeswirl{{}}");
    assert_eq!(Mechanic::ArmAnimation.render_body(), "armAnimation @self");
}

#[test]
fn damage_line() {
    assert_eq!(
        damage(5.0).render(),
        "- damage{a=5;ia=false;pkb=false;pi=false;dc=;ie=false;na=false;ii=false;is=false;\
         dh=false;ieff=false;ir=false;pad=false;tags=;rtag=;e=;ts=false}"
    );
}

#[test]
fn damage_line_with_values() {
    let m = Mechanic::Damage {
        amount: dec(2.5),
        ignore_armor: true,
        prevent_knockback: false,
        prevent_immunity: true,
        damage_cause: String::from("FIRE"),
        ignore_enchantments: false,
        no_anger: true,
        ignore_invulnerability: false,
        ignore_shield: true,
        damage_helmet: false,
        ignore_effects: true,
        ignore_resistance: false,
        power_affects_damage: true,
        tags: Tags::default().add_tag("a"),
        raw_tags: Tags::default().add_tag("b").add_tag("c"),
        element: String::from("ice"),
        trigger_skills: true,
    };
    assert_eq!(
        m.render(),
        "- damage{a=2.5;ia=true;pkb=false;pi=true;dc=FIRE;ie=false;na=true;ii=false;is=true;\
         dh=false;ieff=true;ir=false;pad=true;tags=a;rtag=bc;e=ice;ts=true}"
    );
}

#[test]
fn activate_spawner_lines() {
    let by = |spawner| Mechanic::ActivateSpawner { spawner };
    assert_eq!(
        by(SpawnerSelect::SpawnerName(String::from("cave"))).render(),
        "- activatespawner{spawner=cave}"
    );
    assert_eq!(
        by(SpawnerSelect::SpawnerGroup(String::from("west"))).render(),
        "- activatespawner{spawner=g:west}"
    );
    assert_eq!(
        by(SpawnerSelect::SpawnerIncrementName(String::from("pit"))).render(),
        "- activatespawner{spawner=pit*}"
    );
}

#[test]
fn add_trade_line() {
    let m = Mechanic::AddTrade {
        action: ActionMode::Replace,
        slot: 2,
        ingredient: TradeIngredient { name: String::from("emerald"), count: 5 },
        ingredient_2: MythicOption::Absent,
        result: String::from("diamond"),
        max_uses: MythicOption::Absent,
        experience_reward: MythicOption::Absent,
        villager_exp: MythicOption::Absent,
        price_multiplier: MythicOption::Absent,
        demand: MythicOption::Absent,
        special_price: MythicOption::Absent,
        ignore_discounts: MythicOption::Absent,
    };
    assert_eq!(m.render(), "- addTrade{action=REPLACE;slot=2;item1=emerald 5;result=diamond}");
    let m = Mechanic::AddTrade {
        action: ActionMode::Add,
        slot: 0,
        ingredient: TradeIngredient { name: String::from("emerald"), count: 5 },
        ingredient_2: present(
            ";item2=",
            TradeIngredient { name: String::from("stick"), count: 1 },
            "",
        ),
        result: String::from("diamond"),
        max_uses: present(";uses=", 3, ""),
        experience_reward: present(";expReward=", true, ""),
        villager_exp: present(";villExp=", 12, ""),
        price_multiplier: present(";multiplier=", 2, ""),
        demand: present(";d=", 4, ""),
        special_price: present(";special=", 9, ""),
        ignore_discounts: present(";discounts=", true, ""),
    };
    assert_eq!(
        m.render(),
        "- addTrade{action=ADD;slot=0;item1=emerald 5;item2=stick 1;result=diamond;uses=3;\
         expReward=true;villExp=12;multiplier=2;d=4;special=9;discounts=true}"
    );
}

#[test]
fn add_trade_keys_as_they_are_added() {
    assert_eq!(
        Mechanic::add_trade_second_ingredient(),
        present(";item2=", TradeIngredient::default(), "")
    );
    assert_eq!(Mechanic::add_trade_max_uses(), present(";uses=", 0u8, ""));
    assert_eq!(Mechanic::add_trade_experience_reward(), present(";expReward=", false, ""));
    assert_eq!(Mechanic::add_trade_villager_exp(), present(";villExp=", 0u16, ""));
    assert_eq!(Mechanic::add_trade_price_multiplier(), present(";multiplier=", 0u8, ""));
    assert_eq!(Mechanic::add_trade_demand(), present(";d=", 1u8, ""));
    assert_eq!(Mechanic::add_trade_special_price(), present(";special=", 1u16, ""));
    assert_eq!(Mechanic::add_trade_ignore_discounts(), present(";discounts=", false, ""));
    let m = Mechanic::AddTrade {
        action: ActionMode::Remove,
        slot: 1,
        ingredient: TradeIngredient::default(),
        ingredient_2: Mechanic::add_trade_second_ingredient(),
        result: String::new(),
        max_uses: Mechanic::add_trade_max_uses(),
        experience_reward: Mechanic::add_trade_experience_reward(),
        villager_exp: Mechanic::add_trade_villager_exp(),
        price_multiplier: Mechanic::add_trade_price_multiplier(),
        demand: Mechanic::add_trade_demand(),
        special_price: Mechanic::add_trade_special_price(),
        ignore_discounts: Mechanic::add_trade_ignore_discounts(),
    };
    assert_eq!(
        m.render(),
        "- addTrade{action=REMOVE;slot=1;item1= 0;item2= 0;result=;uses=0;expReward=false;\
         villExp=0;multiplier=0;d=1;special=1;discounts=false}"
    );
}

#[test]
fn teleport_lines() {
    let blank = Mechanic::Teleport {
        spreadh: MythicOption::Absent,
        spreadv: MythicOption::Absent,
        preserve_pitch: MythicOption::Absent,
        preserve_yaw: MythicOption::Absent,
        safe_teleport: MythicOption::Absent,
    };
    assert_eq!(blank.render(), "- teleport{}");
    let full = Mechanic::Teleport {
        spreadh: Mechanic::teleport_spread_h(),
        spreadv: Mechanic::teleport_spread_v(),
        preserve_pitch: Mechanic::teleport_preserve_pitch(),
        preserve_yaw: Mechanic::teleport_preserve_yaw(),
        safe_teleport: Mechanic::teleport_safe_teleport(),
    };
    assert_eq!(
        full.render(),
        "- teleport{spreadh=0;spreadv=0;preservepitch=false;preserveyaw=false;safeteleport=false;}"
    );
    let some = Mechanic::Teleport {
        spreadh: present("spreadh=", 3, ";"),
        spreadv: MythicOption::Absent,
        preserve_pitch: MythicOption::Absent,
        preserve_yaw: present("preserveyaw=", true, ";"),
        safe_teleport: MythicOption::Absent,
    };
    assert_eq!(some.render(), "- teleport{spreadh=3;preserveyaw=true;}");
    let relative = Mechanic::TeleportIn {
        vector: present("vector=", Xyz { x: 0, y: 2, z: -1 }, ";"),
        yaw: MythicOption::Absent,
        target_as_origin: Mechanic::teleport_in_target_as_origin(),
    };
    assert_eq!(relative.render(), "- teleportin{vector=0,2,-1;targetasorigin=false;}");
}

#[test]
fn spring_and_speak_lines() {
    let water = Mechanic::Spring { spring_type: SpringType::Water, duration: 1 };
    let lava = Mechanic::Spring { spring_type: SpringType::Lava, duration: 2 };
    assert_eq!(water.render(), "- spring{type=water;duration=1}");
    assert_eq!(lava.render(), "- spring{type=lava;duration=2}");
    assert_ne!(water.render(), lava.render());
    let speak = Mechanic::Speak {
        offset: dec(1.5),
        radius: 16,
        max_line_lenght: 40,
        line_prefix: String::from("> "),
        message: String::from("Who goes there?"),
        chat_prefix: String::from("[Guard] "),
        duration: 100,
        send_chat_message: true,
    };
    assert_eq!(
        speak.render(),
        "- speak{offset=1.5;radius=16;maxlinelength=40;lineprefix=> ;message=Who goes there?;\
         chatprefix=[Guard] ;duration=100;sendchatmessage=true}"
    );
}

#[test]
fn animate_armor_stand_line() {
    let m = Mechanic::AnimateArmorStand {
        pose: ArmorStandPose::default(),
        speed: dec(1.5),
        duration: 40,
        ignore_empty: true,
        smart: false,
    };
    assert_eq!(
        m.render(),
        "- animateArmorStand{pose=[0.0,0.0,0.0,0.0,0.0,0.0,0.0,0.0,0.0,0.0,0.0,0.0,0.0,0.0,0.0,0.0,\
         0.0,0.0];speed=1.5;duration=40;ignoreempty=true;smart=false}"
    );
}

#[test]
fn arrow_volley_line() {
    let m = Mechanic::ArrowVolley {
        amount: 20,
        spread: dec(45.0),
        velocity: dec(20.5),
        fire_ticks: 0,
        remove_delay: 200,
        can_pickup: true,
    };
    assert_eq!(m.render(), "- arrowvolley{a=20;s=45;v=20.5;f=0;rd=200;pickup=true}");
}

#[test]
fn block_mask_line() {
    let m = Mechanic::BlockMask {
        material: String::from("stone"),
        radius: 3,
        radius_y: 2,
        noise: 1,
        duration: 100,
        shape: Shape::Sphere,
        no_air: true,
        only_air: false,
        occlude: false,
    };
    assert_eq!(
        m.render(),
        "- effect:blockmask{m=stone;r=3;ry=2;n=1;d=100;s=sphere;na=true;oa=false;occ=false}"
    );
}

#[test]
fn positional_parameters() {
    assert_eq!(Mechanic::AddTag(String::from("boss")).render(), "- addtag{t=boss}");
    assert_eq!(Mechanic::RemoveTag(String::from("boss")).render(), "- removetag{t=boss}");
    assert_eq!(Mechanic::ToggleSitting(true).render(), "- sit{state=true}");
    assert_eq!(Mechanic::WolfSit(false).render(), "- wolfsit{state=false}");
}

#[test]
fn equip_and_messages_lines() {
    let item = EquipmentItem::default().add_item("helmet").select_slot(EquipmentSlot::Head);
    assert_eq!(Mechanic::Equip { item }.render(), "- equip{item=helmet HEAD}");
    let messages =
        RandomMessages { messages: vec![String::from("Go away"), String::from("Begone")] };
    assert_eq!(
        Mechanic::RandomMessage { messages }.render(),
        "- randommessage{messages=\"Go away\",\"Begone\"}"
    );
    let items = ItemArray { items: vec![String::from("gold")] };
    let m = Mechanic::BreakBlockAndGiveItem {
        do_drops: true,
        do_effect: false,
        use_tool: true,
        do_fake_looting: false,
        items,
    };
    assert_eq!(m.render(), "- breakBlockAndGiveItem{d=true;e=false;t=true;fl=false;i=gold}");
}

#[test]
fn lines_with_whole_numbers_and_choices() {
    assert_eq!(Mechanic::BossBorder { radius: 32 }.render(), "- bossBorder{r=32}");
    assert_eq!(
        Mechanic::ThunderLevel { level: ThunderLevel::Level1 }.render(),
        "- thunderlevel{l=1}"
    );
    assert_eq!(
        Mechanic::Weather { weather_type: WeatherType::Stormy, duration: 600 }.render(),
        "- weather{type=storm;duration=600}"
    );
    assert_eq!(
        Mechanic::StopSoundWithCategory {
            sound: String::from("entity.wolf.howl"),
            sound_category: SoundCategory::Hostile,
        }
        .render(),
        "- stopsound{s=entity.wolf.howl;source=HOSTILE}"
    );
    assert_eq!(
        Mechanic::AdditionalMecanics { mechanic_type: MechanicType::MCPets }.render(),
        "- MCPets"
    );
    assert_eq!(
        Mechanic::AdditionalMecanics { mechanic_type: MechanicType::default() }.render(),
        "- ModelEngineMechanic"
    );
}

#[test]
fn lines_with_optional_keys() {
    let m = Mechanic::Threat { amount: 10, mode: MythicOption::Absent };
    assert_eq!(m.render(), "- threat{amount=10}");
    let m = Mechanic::Threat { amount: -10, mode: present(";mode=", ThreatMode::Multiply, "") };
    assert_eq!(m.render(), "- threat{amount=-10;mode=multiply}");
    let m = Mechanic::Velocity {
        mode: VelocityMode::Add,
        velocity_x: 5,
        velocity_y: -1,
        velocity_z: 0,
        relative: present(";relative=", true, ""),
    };
    assert_eq!(m.render(), "- velocity{m=add;x=5;y=-1;z=0;relative=true}");
    let m = Mechanic::Hit {
        multiplier: dec(1.5),
        forced_damage: present("", dec(0.25), ""),
        trigger_skills: true,
        scale_by_attack_cooldown: false,
    };
    assert_eq!(m.render(), "- hit{m=1.5;fd=0.25;ts=true;sbac=false}");
}

#[test]
fn effect_cloud_line() {
    let m = Mechanic::SummonAreaEffectCloud {
        particle: present("p=", Particle::Flame, ";"),
        effect_type: present("t=", EffectType::Slow, ";"),
        potion_duration: MythicOption::Absent,
        level: MythicOption::Absent,
        duration: MythicOption::Absent,
        duration_reduction_on_use: present("drou=", DurationReduction { duration: 5 }, ";"),
        radius: MythicOption::Absent,
        radius_reduction_on_use: present("rrou=", RadiusReductionOnUse { radius: 2 }, ";"),
        radius_reduction_on_tick: present("rrot=", RadiusReductionOnTick { radius: 1 }, ";"),
    };
    assert_eq!(m.render(), "- summonareaeffectcloud{p=FLAME;t=SLOW;drou=5;rrou=2;rrot=1;}");
}

#[test]
fn percent_and_aura_lines() {
    let half = Percentage::new(dec(0.5)).unwrap();
    let m = Mechanic::HealPercent { multiplier: half, overheal: false, max_overheal: dec(0.0) };
    assert_eq!(m.render(), "- healpercent{m=0.5;oh=false;mo=0}");
    let m = Mechanic::Spin { velocity: 2, aura: AuraMechanic(String::from("d=20")) };
    assert_eq!(m.render(), "- spin{velocity=2;d=20}");
    let m = Mechanic::CurrencyGive { amount: dec(12.75) };
    assert_eq!(m.render(), "- currencygive{a=12.75}");
}

#[test]
fn score_and_location_lines() {
    let m = Mechanic::ModifyScore {
        objective: String::from("kills"),
        action: String::from("SET"),
        value: dec(-4.0),
    };
    assert_eq!(m.render(), "- modifyscore{objective=kills;action=SET;value=-4}");
    let m = Mechanic::SetScore { objective: String::from("kills"), score: -2147483648 };
    assert_eq!(m.render(), "- setscore{objective=kills;score=-2147483648}");
    let m = Mechanic::Time {
        mode: AddSetReset::SetTo,
        amount: 6000,
        personal: MythicOption::Absent,
        relative: MythicOption::Absent,
    };
    assert_eq!(m.render(), "- time{mode=SET;amount=6000}");
    let m = Mechanic::ToggleLever {
        duration: 20,
        location: present("location=", Xyz { x: 1, y: 2, z: 3 }, ""),
        x: MythicOption::Absent,
        y: MythicOption::Absent,
        z: MythicOption::Absent,
    };
    assert_eq!(m.render(), "- togglelever{duration=20;location=1,2,3}");
}

#[test]
fn names_and_descriptions() {
    assert_eq!(Mechanic::ArmAnimation.get_fields(), "Arm Animation");
    assert_eq!(Mechanic::ArmAnimation.get_desc(), "Makes the caster swing their arm");
    assert_eq!(damage(1.0).get_fields(), "Damage");
    assert_eq!(damage(1.0).get_desc(), "Damages the target for an amount");
    assert_eq!(Mechanic::SmokeSwirl.get_desc(), "Creates a persistent \"swirl\" of smoke");
    assert_eq!(damage(1.0).get_desc(), damage(250.0).get_desc());
}
