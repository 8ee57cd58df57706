use mythic_editor::decimal::Decimal;
use mythic_editor::skill::model_engine::MechanicType;
use mythic_editor::skill::model_engine::ModelEngineMechanic;
use mythic_editor::skill::model_engine::ModelEngineModel;
use mythic_editor::skill::model_engine::RemoveAttribute;
use mythic_editor::skill::model_engine::RemoveAttributeBool;
use mythic_editor::skill::option::MythicOption;
use mythic_editor::skill::params::ActionMode;
use mythic_editor::skill::params::AddSetReset;
use mythic_editor::skill::params::ArmorStandPose;
use mythic_editor::skill::params::AuraMechanic;
use mythic_editor::skill::params::DurationReduction;
use mythic_editor::skill::params::EffectType;
use mythic_editor::skill::params::EquipmentItem;
use mythic_editor::skill::params::EquipmentSlot;
use mythic_editor::skill::params::ItemArray;
use mythic_editor::skill::params::Particle;
use mythic_editor::skill::params::RadiusReductionOnTick;
use mythic_editor::skill::params::RadiusReductionOnUse;
use mythic_editor::skill::params::RandomMessages;
use mythic_editor::skill::params::Shape;
use mythic_editor::skill::params::SoundCategory;
use mythic_editor::skill::params::SpawnerSelect;
use mythic_editor::skill::params::SpringType;
use mythic_editor::skill::params::Tags;
use mythic_editor::skill::params::ThreatMode;
use mythic_editor::skill::params::ThunderLevel;
use mythic_editor::skill::params::TradeIngredient;
use mythic_editor::skill::params::VelocityMode;
use mythic_editor::skill::params::WeatherType;
use mythic_editor::skill::params::Xyz;
use mythic_editor::text::Render;

fn present<T>(pre: &str, value: T, suf: &str) -> MythicOption<T> {
    MythicOption::Present(String::from(pre), value, String::from(suf))
}

#[test]
fn absent_key_renders_as_nothing() {
    assert_eq!(MythicOption::<u8>::Absent.render(), "");
    assert_eq!(MythicOption::<bool>::Absent.render(), "");
    assert_eq!(MythicOption::<String>::Absent.render(), "");
    assert_eq!(MythicOption::<Decimal>::Absent.render(), "");
    assert_eq!(MythicOption::<Xyz>::Absent.render(), "");
    assert_eq!(MythicOption::<TradeIngredient>::Absent.render(), "");
    assert_eq!(MythicOption::<ModelEngineModel>::Absent.render(), "");
    assert_eq!(MythicOption::<Particle>::default(), MythicOption::Absent);
}

#[test]
fn present_key_renders_between_its_affixes() {
    assert_eq!(present(";uses=", 3u8, "").render(), ";uses=3");
    assert_eq!(present(";expReward=", true, "").render(), ";expReward=true");
    assert_eq!(present("", 7u16, "").render(), "7");
    assert_eq!(present("<", String::from("x"), ">").render(), "<x>");
    assert_eq!(present("pre", String::new(), "suf").render(), "presuf");
    assert_eq!(present("s=", Decimal::new(false, 5, -1), ";").render(), "s=0.5;");
    assert_eq!(present("rad=", -3i8, ";").render(), "rad=-3;");
    assert_eq!(present("y=", -12i32, "").render(), "y=-12");
    assert_eq!(present("n=", 70000u32, "!").render(), "n=70000!");
    assert_eq!(present("loc=", Xyz { x: 1, y: -2, z: 3 }, ";").render(), "loc=1,-2,3;");
    assert_eq!(present(";p=", Particle::Flame, "").render(), ";p=FLAME");
    assert_eq!(present(";m=", ThreatMode::ForceTop, "").render(), ";m=forcetop");
    assert_eq!(present(";e=", EffectType::Slow, "").render(), ";e=SLOW");
    let second = TradeIngredient { name: String::from("emerald"), count: 4 };
    assert_eq!(present(";item2=", second, "").render(), ";item2=emerald 4");
}

#[test]
fn present_key_law_on_parts() {
    for (pre, suf) in [("", ""), ("a=", ""), ("", ";"), (";k=", ";"), ("{", "}")] {
        for value in [0u32, 1, 10, 4294967295] {
            let key = present(pre, value, suf);
            assert_eq!(key.render(), format!("{}{}{}", pre, value.render(), suf));
        }
    }
}

#[test]
fn present_builds_a_written_key() {
    let key = MythicOption::present(";uses=", 9u8, "");
    assert_eq!(key, present(";uses=", 9u8, ""));
    assert_eq!(key.render(), ";uses=9");
}

#[test]
fn reduction_keys() {
    assert_eq!(present("drou=", DurationReduction { duration: 20 }, ";").render(), "drou=20;");
    assert_eq!(present("rrou=", RadiusReductionOnUse { radius: 2 }, ";").render(), "rrou=2;");
    assert_eq!(present("rrot=", RadiusReductionOnTick { radius: 1 }, ";").render(), "rrot=1;");
    assert_eq!(MythicOption::<DurationReduction>::Absent.render(), "");
}

#[test]
fn parts_of_a_key_can_be_edited() {
    let mut key = present(";uses=", 3u8, "");
    match key.some() {
        Some((pre, value, suf)) => {
            assert_eq!(pre, ";uses=");
            assert_eq!(*value, 3);
            assert_eq!(suf, "");
            *value = 12;
        },
        None => panic!("the key is present"),
    }
    assert_eq!(key, present(";uses=", 12u8, ""));
    assert_eq!(key.render(), ";uses=12");
    let mut absent: MythicOption<u8> = MythicOption::Absent;
    assert!(absent.some().is_none());
    assert_eq!(absent, MythicOption::Absent);
}

#[test]
fn xyz_text() {
    assert_eq!(Xyz { x: 0, y: 0, z: 0 }.render(), "0,0,0");
    assert_eq!(Xyz { x: -1, y: 64, z: 2147483647 }.render(), "-1,64,2147483647");
    assert_eq!(Xyz::default(), Xyz { x: 0, y: 0, z: 0 });
}

#[test]
fn spawner_select_text() {
    assert_eq!(SpawnerSelect::SpawnerName(String::from("cave")).render(), "cave");
    assert_eq!(SpawnerSelect::SpawnerGroup(String::from("cave")).render(), "g:cave");
    assert_eq!(SpawnerSelect::SpawnerIncrementName(String::from("cave")).render(), "cave*");
    assert_eq!(SpawnerSelect::default(), SpawnerSelect::SpawnerName(String::new()));
    assert_eq!(SpawnerSelect::default().render(), "");
}

#[test]
fn spawner_select_edit() {
    let mut select = SpawnerSelect::SpawnerGroup(String::from("old"));
    select.modify_inner("new");
    assert_eq!(select, SpawnerSelect::SpawnerGroup(String::from("new")));
    let mut select = SpawnerSelect::SpawnerName(String::new());
    select.modify_inner("a");
    assert_eq!(select, SpawnerSelect::SpawnerName(String::from("a")));
    let mut select = SpawnerSelect::SpawnerIncrementName(String::from("x"));
    select.modify_inner("");
    assert_eq!(select, SpawnerSelect::SpawnerIncrementName(String::new()));
}

#[test]
fn spawner_select_kinds() {
    let all = SpawnerSelect::variants();
    assert_eq!(
        all,
        vec![
            SpawnerSelect::SpawnerName(String::new()),
            SpawnerSelect::SpawnerGroup(String::new()),
            SpawnerSelect::SpawnerIncrementName(String::new()),
        ]
    );
    let labels: Vec<&str> = all.iter().map(|v| v.get_fields()).collect();
    assert_eq!(labels, vec!["Name", "Group", "Increment Name"]);
}

#[test]
fn trade_ingredient_text() {
    assert_eq!(TradeIngredient { name: String::from("diamond"), count: 64 }.render(), "diamond 64");
    assert_eq!(TradeIngredient::default().render(), " 0");
}

#[test]
fn armor_stand_pose_text() {
    assert_eq!(
        ArmorStandPose::default().render(),
        "[0.0,0.0,0.0,0.0,0.0,0.0,0.0,0.0,0.0,0.0,0.0,0.0,0.0,0.0,0.0,0.0,0.0,0.0]"
    );
    let d = |digits: u64, exponent: i32| Decimal::new(false, digits, exponent);
    let pose = ArmorStandPose {
        head: [d(1, 0), d(2, 0), d(3, 0)],
        body: [d(45, -1), d(55, -1), d(65, -1)],
        left_arm: [d(7, 0), d(8, 0), d(9, 0)],
        right_arm: [d(10, 0), d(11, 0), d(12, 0)],
        left_leg: [d(1325, -2), d(14, 1), Decimal::new(true, 15, 0)],
        right_leg: [d(16, 0), d(17, 0), d(18, 0)],
    };
    assert_eq!(
        pose.render(),
        "[1.0,2.0,3.0,4.5,5.5,6.5,7.0,8.0,9.0,10.0,11.0,12.0,13.2,140.0,-15.0,16.0,17.0,18.0]"
    );
}

#[test]
fn item_array_and_tags_text() {
    let items = ItemArray { items: vec![String::from("stone"), String::from("dirt")] };
    assert_eq!(items.render(), "stonedirt");
    assert_eq!(ItemArray::default().render(), "");
    let tags = Tags::default().add_tag("fire").add_tag("magic");
    assert_eq!(tags.tags, vec![String::from("fire"), String::from("magic")]);
    assert_eq!(tags.render(), "firemagic");
    assert_eq!(Tags::default().render(), "");
}

#[test]
fn equipment_item_text() {
    let item = EquipmentItem::default();
    assert_eq!(item.render(), " HAND");
    let item = item.add_item("iron_sword");
    assert_eq!(item.render(), "iron_sword HAND");
    let item = item.select_slot(EquipmentSlot::OffHand);
    assert_eq!(item.render(), "iron_sword OFFHAND");
    assert_eq!(item.item, "iron_sword");
    let item = item.add_item("shield");
    assert_eq!(item.slot, EquipmentSlot::OffHand);
    assert_eq!(item.render(), "shield OFFHAND");
}

#[test]
fn equipment_slot_tokens() {
    assert_eq!(EquipmentSlot::Head.render(), "HEAD");
    assert_eq!(EquipmentSlot::Chest.render(), "CHEST");
    assert_eq!(EquipmentSlot::Legs.render(), "LEGS");
    assert_eq!(EquipmentSlot::Feet.render(), "FEET");
    assert_eq!(EquipmentSlot::Hand.render(), "HAND");
    assert_eq!(EquipmentSlot::OffHand.render(), "OFFHAND");
    assert_eq!(EquipmentSlot::default(), EquipmentSlot::Hand);
}

#[test]
fn random_messages_text() {
    assert_eq!(RandomMessages::default().render(), "");
    let one = RandomMessages { messages: vec![String::from("hi")] };
    assert_eq!(one.render(), "\"hi\"");
    let two = RandomMessages { messages: vec![String::from("hi"), String::from("go away")] };
    assert_eq!(two.render(), "\"hi\",\"go away\"");
}

#[test]
fn aura_mechanic_text() {
    assert_eq!(AuraMechanic(String::from("onTick=x")).render(), "onTick=x");
    assert_eq!(AuraMechanic::default().render(), "");
}

#[test]
fn small_choices_tokens_and_defaults() {
    assert_eq!(ActionMode::Add.render(), "ADD");
    assert_eq!(ActionMode::Remove.render(), "REMOVE");
    assert_eq!(ActionMode::Replace.render(), "REPLACE");
    assert_eq!(ActionMode::default(), ActionMode::Add);
    assert_eq!(AddSetReset::Add.render(), "ADD");
    assert_eq!(AddSetReset::SetTo.render(), "SET");
    assert_eq!(AddSetReset::Reset.render(), "RESET");
    assert_eq!(AddSetReset::default(), AddSetReset::Add);
    assert_eq!(SpringType::Water.render(), "water");
    assert_eq!(SpringType::Lava.render(), "lava");
    assert_eq!(SpringType::default(), SpringType::Water);
    assert_eq!(ThunderLevel::Level0.render(), "0");
    assert_eq!(ThunderLevel::Level1.render(), "1");
    assert_eq!(ThunderLevel::default(), ThunderLevel::Level0);
    assert_eq!(WeatherType::Sunny.render(), "sun");
    assert_eq!(WeatherType::Rainy.render(), "rain");
    assert_eq!(WeatherType::Stormy.render(), "storm");
    assert_eq!(WeatherType::default(), WeatherType::Sunny);
    assert_eq!(VelocityMode::SetTo.render(), "set");
    assert_eq!(VelocityMode::Add.render(), "add");
    assert_eq!(VelocityMode::Remove.render(), "remove");
    assert_eq!(VelocityMode::Divide.render(), "divide");
    assert_eq!(VelocityMode::Multiply.render(), " multiply");
    assert_eq!(VelocityMode::default(), VelocityMode::SetTo);
    assert_eq!(ThreatMode::Add.render(), "add");
    assert_eq!(ThreatMode::Remove.render(), "remove");
    assert_eq!(ThreatMode::Multiply.render(), "multiply");
    assert_eq!(ThreatMode::Divide.render(), "divide");
    assert_eq!(ThreatMode::SetTo.render(), "set");
    assert_eq!(ThreatMode::Reset.render(), "reset");
    assert_eq!(ThreatMode::ForceTop.render(), "forcetop");
    assert_eq!(EffectType::Slow.render(), "SLOW");
}

#[test]
fn shapes() {
    assert_eq!(Shape::sphere(), Shape::Sphere);
    assert_eq!(Shape::cube(), Shape::Cube);
    assert_eq!(Shape::default(), Shape::Cube);
    assert_eq!(Shape::Sphere.render(), "sphere");
    assert_eq!(Shape::Cube.render(), "Cube");
    assert_eq!(Shape::variants(), vec![Shape::Sphere, Shape::Cube]);
}

#[test]
fn listed_choices() {
    assert_eq!(ActionMode::variants(), vec![ActionMode::Add, ActionMode::Remove, ActionMode::Replace]);
    assert_eq!(
        AddSetReset::variants(),
        vec![AddSetReset::Add, AddSetReset::SetTo, AddSetReset::Reset]
    );
    let sounds = SoundCategory::variants();
    assert_eq!(sounds.len(), 11);
    assert_eq!(sounds[0], SoundCategory::Ambiant);
    assert_eq!(sounds[3], SoundCategory::Master);
    assert_eq!(sounds[10], SoundCategory::Weather);
    assert_eq!(SoundCategory::default(), SoundCategory::Master);
    let tokens: Vec<String> = sounds.iter().map(|s| s.render()).collect();
    assert_eq!(
        tokens,
        vec![
            "AMBIANT", "BLOCKS", "HOSTILE", "MASTER", "MUSIC", "NEUTRAL", "PLAYERS", "RECORDS", "UI",
            "VOICE", "WEATHER"
        ]
    );
    for (i, s) in sounds.iter().enumerate() {
        assert_eq!(SoundCategory::from_ordinal(i), *s);
    }
}

#[test]
fn particles() {
    let all = Particle::variants();
    assert_eq!(all.len(), 114);
    assert_eq!(all[0], Particle::AngryVillager);
    assert_eq!(all[0].render(), "ANGRY_VILLAGER");
    assert_eq!(all[1].render(), "ASH");
    assert_eq!(all[113], Particle::Witch);
    assert_eq!(all[113].render(), "WITCH");
    assert_eq!(Particle::WhiteSmoke.render(), "WHITE_SMOKE");
    for (i, p) in all.iter().enumerate() {
        assert_eq!(Particle::from_ordinal(i), *p);
        let token = p.render();
        assert!(!token.is_empty());
        assert!(token.chars().all(|c| c.is_ascii_uppercase() || c == '_'), "{}", token);
        for other in &all[..i] {
            assert_ne!(other, p);
        }
    }
}

#[test]
fn mechanic_type_text() {
    assert_eq!(MechanicType::default().render(), "ModelEngineMechanic");
    assert_eq!(
        MechanicType::default(),
        MechanicType::ModelEngine4 { mechanic: ModelEngineMechanic::Model }
    );
    let entity = MechanicType::ModelEngine4 {
        mechanic: ModelEngineMechanic::Entity { model: MythicOption::Absent },
    };
    assert_eq!(entity.render(), "ModelEngineMechanic");
    assert_eq!(MechanicType::MythicCrucible.render(), "MythicCrucible");
    assert_eq!(MechanicType::MythicEnchantments.render(), "MythicEnchantments");
    assert_eq!(MechanicType::MCPets.render(), "MCPets");
}

#[test]
fn model_engine_mechanic_text() {
    assert_eq!(ModelEngineMechanic::default(), ModelEngineMechanic::Model);
    assert_eq!(ModelEngineMechanic::Model.render(), "Model");
    assert_eq!(ModelEngineMechanic::Bone.render(), "Bone");
    assert_eq!(ModelEngineMechanic::Mounting.render(), "Mounting");
    assert_eq!(ModelEngineMechanic::Controller.render(), "Controller");
    assert_eq!(ModelEngineMechanic::Hitbox.render(), "Hitbox");
    assert_eq!(ModelEngineMechanic::Segment.render(), "Segment");
    assert_eq!(ModelEngineMechanic::Misc.render(), "Misc");
    assert_eq!(ModelEngineMechanic::VFXMechanics.render(), "VFXMechanics");
    assert_eq!(ModelEngineMechanic::Entity { model: MythicOption::Absent }.render(), "");
    let model = ModelEngineModel { model_id: String::from("ogre"), remove: RemoveAttributeBool::True };
    assert_eq!(model.render(), "m=ogre;");
    let entity = ModelEngineMechanic::Entity { model: present("", model, "") };
    assert_eq!(entity.render(), "m=ogre;");
    let put_on = ModelEngineModel {
        model_id: String::from("ogre"),
        remove: RemoveAttributeBool::default(),
    };
    assert_eq!(put_on.render(), "m=ogre;{{attribute}}");
    assert_eq!(present("model{", put_on, "}").render(), "model{m=ogre;{{attribute}}}");
}

#[test]
fn remove_attribute_bool_text() {
    assert_eq!(RemoveAttributeBool::True.render(), "");
    assert_eq!(RemoveAttributeBool::default().render(), "{{attribute}}");
    assert_eq!(
        RemoveAttributeBool::default(),
        RemoveAttributeBool::False { attribute: RemoveAttribute::default() }
    );
    let other = RemoveAttributeBool::False { attribute: RemoveAttribute::default().save(true) };
    assert_eq!(other.render(), "{{attribute}}");
}

#[test]
fn remove_attribute_starts_with_its_keys() {
    let a = RemoveAttribute::default();
    assert_eq!(a.hitbox, present("h=", true, ";"));
    assert_eq!(a.invisible, present("i=", true, ";"));
    assert_eq!(a.damagetint, present("d=", true, ";"));
    assert_eq!(a.nametag, present("d=", String::new(), ";"));
    assert_eq!(a.drive, present("drive=", false, ";"));
    assert_eq!(a.ride, present("ride=", false, ";"));
    assert_eq!(a.lockpitch, present("lp=", false, ";"));
    assert_eq!(a.lockyaw, present("ly=", false, ";"));
    assert_eq!(a.step, present("s=", Decimal::new(false, 5, -1), ";"));
    assert_eq!(a.step.render(), "s=0.5;");
    assert_eq!(a.radius, present("rad=", 0i8, ";"));
    assert_eq!(a.scale, present("scale=", Decimal::new(false, 1, 0), ";"));
    assert_eq!(a.scale.render(), "scale=1;");
    assert_eq!(a.hitbox_scale, MythicOption::Absent);
    assert_eq!(a.use_state_machine, present("usm=", false, ";"));
    assert_eq!(a.init_render, present("init=", true, ";"));
    assert_eq!(a.show_hitbox, present("showhitbox", true, ";"));
    assert_eq!(a.show_shadow, present("showshadow=", true, ";"));
    assert_eq!(a.sync_body, present("syncbody=", true, ";"));
    assert_eq!(a.save, present("save=", false, ";"));
}

#[test]
fn remove_attribute_setters_write_one_key() {
    let start = RemoveAttribute::default();
    let a = start.clone().show_hitebox(false);
    assert_eq!(a.show_hitbox, present("showhitbox=", false, ";"));
    assert_eq!(RemoveAttribute { show_hitbox: start.show_hitbox.clone(), ..a }, start);
    let a = start.clone().hitbox(false);
    assert_eq!(a.hitbox, present("h=", false, ";"));
    assert_eq!(RemoveAttribute { hitbox: start.hitbox.clone(), ..a }, start);
    let a = start.clone().invisible(false);
    assert_eq!(a.invisible, present("i=", false, ";"));
    assert_eq!(RemoveAttribute { invisible: start.invisible.clone(), ..a }, start);
    let a = RemoveAttribute { damagetint: MythicOption::Absent, ..start.clone() }.damage_tint();
    assert_eq!(a, start);
    let a = start.clone().nametag(String::from("head"));
    assert_eq!(a.nametag, present("d=", String::from("head"), ";"));
    assert_eq!(RemoveAttribute { nametag: start.nametag.clone(), ..a }, start);
    let a = start.clone().drive(true);
    assert_eq!(a.drive, present("drive=", true, ";"));
    assert_eq!(RemoveAttribute { drive: start.drive.clone(), ..a }, start);
    let a = start.clone().lock_pitch(true);
    assert_eq!(a.lockpitch, present("lp=", true, ";"));
    assert_eq!(RemoveAttribute { lockpitch: start.lockpitch.clone(), ..a }, start);
    let a = start.clone().lock_yaw(true);
    assert_eq!(a.lockyaw, present("ly=", true, ";"));
    assert_eq!(RemoveAttribute { lockyaw: start.lockyaw.clone(), ..a }, start);
    let a = start.clone().step(Decimal::new(false, 125, -2));
    assert_eq!(a.step.render(), "s=1.25;");
    assert_eq!(RemoveAttribute { step: start.step.clone(), ..a }, start);
    let a = start.clone().radius(-5);
    assert_eq!(a.radius, present("rad=", -5i8, ";"));
    assert_eq!(RemoveAttribute { radius: start.radius.clone(), ..a }, start);
    let a = start.clone().scale(Decimal::new(false, 2, 0));
    assert_eq!(a.scale.render(), "scale=2;");
    assert_eq!(RemoveAttribute { scale: start.scale.clone(), ..a }, start);
    let a = start.clone().hitbox_scale(Decimal::new(false, 15, -1));
    assert_eq!(a.hitbox_scale.render(), "hitboxscale=1.5;");
    assert_eq!(RemoveAttribute { hitbox_scale: MythicOption::Absent, ..a }, start);
    let a = RemoveAttribute { use_state_machine: MythicOption::Absent, ..start.clone() };
    assert_eq!(a.state_machine(), start);
    let a = start.clone().init_rend(false);
    assert_eq!(a.init_render, present("init=", false, ";"));
    assert_eq!(RemoveAttribute { init_render: start.init_render.clone(), ..a }, start);
    let a = start.clone().show_shadow(false);
    assert_eq!(a.show_shadow, present("showshadow=", false, ";"));
    assert_eq!(RemoveAttribute { show_shadow: start.show_shadow.clone(), ..a }, start);
    let a = start.clone().sync_body(false);
    assert_eq!(a.sync_body, present("syncbody=", false, ";"));
    assert_eq!(RemoveAttribute { sync_body: start.sync_body.clone(), ..a }, start);
    let a = start.clone().save(true);
    assert_eq!(a.save, present("save=", true, ";"));
    assert_eq!(RemoveAttribute { save: start.save.clone(), ..a }, start);
}

#[test]
fn ride_writes_the_drive_key() {
    let start = RemoveAttribute::default();
    let a = start.clone().ride(true);
    assert_eq!(a.drive, present("drive=", true, ";"));
    assert_eq!(a.ride, start.ride);
    assert_eq!(RemoveAttribute { drive: start.drive.clone(), ..a }, start);
}

#[test]
fn particle_tokens_in_order() {
    let tokens: Vec<String> = Particle::variants().iter().map(|p| p.render()).collect();
    let expected = [
        "ANGRY_VILLAGER", "ASH", "BLOCK", "BLOCK_CRUMBLE", "BLOCK_MARKER", "BUBBLE",
        "BUBBLE_COLUMN_UP", "BUBBLE_POP", "CAMPFIRE_COSY_SMOKE", "CAMPFIRE_SIGNAL_SMOKE",
        "CHERRY_LEAVES", "CLOUD", "COMPOSTER", "CRIMSON_SPORE", "CRIT", "CURRENT_DOWN",
        "DAMAGE_INDICATOR", "DOLPHIN", "DRAGON_BREATH", "DRIPPING_DRIPSTONE_LAVA",
        "DRIPPING_DRIPSTONE_WATER", "DRIPPING_HONEY", "DRIPPING_LAVA", "DRIPPING_OBSIDIAN_TEAR",
        "DRIPPING_WATER", "DUST", "DUST_COLOR_TRANSITION", "DUST_PILLAR", "DUST_PLUME", "EFFECT",
        "EGG_CRACK", "ELDER_GUARDIAN", "ELECTRIC_SPARK", "ENCHANT", "ENCHANTED_HIT", "END_ROD",
        "ENTITY_EFFECT", "EXPLOSION", "EXPLOSION_EMITTER", "FALLING_DRIPSTONE_LAVA",
        "FALLING_DRIPSTONE_WATER", "FALLING_DUST", "FALLING_HONEY", "FALLING_LAVA",
        "FALLING_NECTAR", "FALLING_OBSIDIAN_TEAR", "FALLING_SPORE_BLOSSOM", "FALLING_WATER",
        "FIREFLY", "FIREWORK", "FISHING", "FLAME", "FLASH", "GLOW", "GLOW_SQUID_INK", "GUST",
        "GUST_EMITTER_LARGE", "GUST_EMITTER_SMALL", "HAPPY_VILLAGER", "HEART", "INFESTED",
        "INSTANT_EFFECT", "ITEM", "ITEM_COBWEB", "ITEM_SLIME", "ITEM_SNOWBALL", "LANDING_HONEY",
        "LANDING_LAVA", "LANDING_OBSIDIAN_TEAR", "LARGE_SMOKE", "LAVA", "MYCELIUM", "NAUTILUS",
        "NOTE", "OMINOUS_SPAWNING", "PALE_OAK_LEAVES", "POOF", "PORTAL", "RAID_OMEN", "RAIN",
        "REVERSE_PORTAL", "SCRAPE", "SCULK_CHARGE", "SCULK_CHARGE_POP", "SCULK_SOUL", "SHRIEK",
        "SMALL_FLAME", "SMALL_GUST", "SMOKE", "SNEEZE", "SNOWFLAKE", "SONIC_BOOM", "SOUL",
        "SOUL_FIRE_FLAME", "SPIT", "SPLASH", "SPORE_BLOSSOM_AIR", "SQUID_INK", "SWEEP_ATTACK",
        "TINTED_LEAVES", "TOTEM_OF_UNDYING", "TRAIL", "TRIAL_OMEN", "TRIAL_SPAWNER_DETECTION",
        "TRIAL_SPAWNER_DETECTION_OMINOUS", "UNDERWATER", "VAULT_CONNECTION", "VIBRATION",
        "WARPED_SPORE", "WAX_OFF", "WAX_ON", "WHITE_ASH", "WHITE_SMOKE", "WITCH",
    ];
    assert_eq!(tokens, expected);
    let names: Vec<String> = Particle::variants().iter().map(|p| format!("{:?}", p)).collect();
    let expected = [
        "AngryVillager", "Ash", "Block", "BlockCrumble", "BlockMarker", "Bubble", "BubbleColumnUp",
        "BubblePop", "CampfireCosySmoke", "CampfireSignalSmoke", "CherryLeaves", "Cloud",
        "Composter", "CrimsonSpore", "Crit", "CurrentDown", "DamageIndicator", "Dolphin",
        "DragonBreath", "DrippingDripstoneLava", "DrippingDripstoneWater", "DrippingHoney",
        "DrippingLava", "DrippingObsidianTear", "DrippingWater", "Dust", "DustColorTransition",
        "DustPillar", "DustPlume", "Effect", "EggCrack", "ElderGuardian", "ElectricSpark",
        "Enchant", "EnchantedHit", "EndRod", "EntityEffect", "Explosion", "ExplosionEmitter",
        "FallingDripstoneLava", "FallingDripstoneWater", "FallingDust", "FallingHoney",
        "FallingLava", "FallingNectar", "FallingObsidianTear", "FallingSporeBlossom",
        "FallingWater", "Firefly", "Firework", "Fishing", "Flame", "Flash", "Glow", "GlowSquidInk",
        "Gust", "GustEmitterLarge", "GustEmitterSmall", "HappyVillager", "Heart", "Infested",
        "InstantEffect", "Item", "ItemCobweb", "ItemSlime", "ItemSnowball", "LandingHoney",
        "LandingLava", "LandingObsidianTear", "LargeSmoke", "Lava", "Mycelium", "Nautilus", "Note",
        "OminousSpawning", "PaleOakLeaves", "Poof", "Portal", "RaidOmen", "Rain", "ReversePortal",
        "Scrape", "SculkCharge", "SculkChargePop", "SculkSoul", "Shriek", "SmallFlame", "SmallGust",
        "Smoke", "Sneeze", "Snowflake", "SonicBoom", "Soul", "SoulFireFlame", "Spit", "Splash",
        "SporeBlossomAir", "SquidInk", "SweepAttack", "TintedLeaves", "TotemOfUndying", "Trail",
        "TrialOmen", "TrialSpawnerDetection", "TrialSpawnerDetectionOminous", "Underwater",
        "VaultConnection", "Vibration", "WarpedSpore", "WaxOff", "WaxOn", "WhiteAsh", "WhiteSmoke",
        "Witch",
    ];
    assert_eq!(names, expected);
}
