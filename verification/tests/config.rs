use mythic_editor::decimal::Decimal;
use mythic_editor::skill::mechanics::Mechanic;
use mythic_editor::skill::minecraft_lib::MinecraftMob;
use mythic_editor::skill::params::Tags;
use mythic_editor::skill::targeters::MultyEntity;
use mythic_editor::skill::targeters::SingleEntityTarget;
use mythic_editor::skill::targeters::Targeter;
use mythic_editor::skill::triggers::Trigger;
use mythic_editor::skill::Skill;
use mythic_editor::states::AppState;

fn skill(mechanic: Option<Mechanic>, targeter: Targeter, trigger: Trigger) -> Skill {
    Skill { name: String::from("s"), mechanic, raw_args: String::new(), targeter, trigger }
}

fn damage_five() -> Mechanic {
    Mechanic::Damage {
        amount: Decimal::parse(&5.0f32.to_string()).unwrap(),
        ignore_armor: false,
        prevent_knockback: false,
        prevent_immunity: false,
        damage_cause: String::new(),
        ignore_enchantments: false,
        no_anger: false,
        ignore_invulnerability: false,
        ignore_shield: false,
        damage_helmet: false,
        ignore_effects: false,
        ignore_resistance: false,
        power_affects_damage: false,
        tags: Tags::default(),
        raw_tags: Tags::default(),
        element: String::new(),
        trigger_skills: false,
    }
}

fn named(name: &str, kind: MinecraftMob) -> AppState {
    let mut state = AppState::default();
    state.mob_name = String::from(name);
    state.mob_type = kind;
    state
}

#[test]
fn new_state_is_empty() {
    let state = AppState::default();
    assert_eq!(state.mob_name, "");
    assert_eq!(state.mob_display_name, "");
    assert_eq!(state.mob_type, MinecraftMob::Zombie);
    assert_eq!(state.mob_health, 0);
    assert_eq!(state.damage, 0);
    assert_eq!(state.armor, 0);
    assert_eq!(state.selected_skill, None);
    assert!(state.skills.is_empty());
    assert_eq!(state.output, "");
}

#[test]
fn new_skill_is_blank() {
    let s = Skill::default();
    assert_eq!(s.name, "");
    assert_eq!(s.mechanic, None);
    assert_eq!(s.raw_args, "");
    assert_eq!(s.targeter, Targeter::Unset);
    assert_eq!(s.trigger, Trigger::Unset);
    assert_eq!(s.render_line(), "");
}

#[test]
fn skill_names() {
    let s = Skill::default().set_name("first");
    assert_eq!(s.name, "first");
    assert_eq!(Skill { name: String::new(), ..s.clone() }, Skill::default());
    let mut s = skill(Some(Mechanic::Swap), Targeter::ThreatTable, Trigger::Death);
    s.rename("second").rename("third");
    assert_eq!(s.name, "third");
    assert_eq!(s.mechanic, Some(Mechanic::Swap));
    assert_eq!(s.targeter, Targeter::ThreatTable);
    assert_eq!(s.trigger, Trigger::Death);
}

#[test]
fn name_of_meta_skill_defaults() {
    let mut state = named("", MinecraftMob::MetaSkill);
    state.sanitize_mob_name();
    assert_eq!(state.mob_name, "Default_Skill_Name");
}

#[test]
fn name_of_mob_defaults() {
    let mut state = named("", MinecraftMob::Zombie);
    state.sanitize_mob_name();
    assert_eq!(state.mob_name, "Default_Mob_Name");
    let mut state = named("", MinecraftMob::Creeper);
    state.sanitize_mob_name();
    assert_eq!(state.mob_name, "Default_Mob_Name");
}

#[test]
fn name_is_trimmed_and_joined() {
    for kind in [MinecraftMob::Zombie, MinecraftMob::Wolf, MinecraftMob::AcaciaBoat] {
        let mut state = named(" a b ", kind);
        state.sanitize_mob_name();
        assert_eq!(state.mob_name, "a_b");
    }
    let mut state = named(" a b ", MinecraftMob::MetaSkill);
    state.sanitize_mob_name();
    assert_eq!(state.mob_name, "a_b");
    let mut state = named("Boss   Mob\tOne", MinecraftMob::Zombie);
    state.sanitize_mob_name();
    assert_eq!(state.mob_name, "Boss_Mob_One");
}

#[test]
fn name_of_blanks_becomes_empty() {
    let mut state = named("   ", MinecraftMob::Zombie);
    state.sanitize_mob_name();
    assert_eq!(state.mob_name, "");
}

#[test]
fn sanitizing_keeps_the_rest() {
    let mut state = named("x y", MinecraftMob::Bat);
    state.mob_health = 4;
    state.mob_display_name = String::from("The Bat");
    state.add_skill();
    let before = state.clone();
    state.sanitize_mob_name();
    assert_eq!(AppState { mob_name: String::from("x y"), ..state.clone() }, before);
    let again = state.clone();
    state.sanitize_mob_name();
    assert_eq!(state, again);
}

#[test]
fn lines_without_values_are_left_out() {
    let mut state = named("Ghost", MinecraftMob::Zombie);
    state.create_config();
    assert_eq!(state.output, "Ghost:\n  Type: Zombie");
    assert!(!state.output.contains("Health:"));
    assert!(!state.output.contains("Damage:"));
    assert!(!state.output.contains("Armor:"));
    assert!(!state.output.contains("Display:"));
    assert!(!state.output.contains("Skills:"));
}

#[test]
fn each_line_stands_alone() {
    let mut state = named("A", MinecraftMob::Cow);
    state.mob_health = 20;
    state.create_config();
    assert_eq!(state.output, "A:\n  Type: Cow\n  Health: 20");
    let mut state = named("A", MinecraftMob::Cow);
    state.damage = 7;
    state.create_config();
    assert_eq!(state.output, "A:\n  Type: Cow\n  Damage: 7");
    let mut state = named("A", MinecraftMob::Cow);
    state.armor = 255;
    state.create_config();
    assert_eq!(state.output, "A:\n  Type: Cow\n  Armor: 255");
    let mut state = named("A", MinecraftMob::Cow);
    state.mob_display_name = String::from("The Cow");
    state.create_config();
    assert_eq!(state.output, "A:\n  Type: Cow\n  Display: The Cow");
}

#[test]
fn all_lines_in_order() {
    let mut state = named("Big Boss", MinecraftMob::WitherSkeleton);
    state.mob_display_name = String::from("&cBig Boss");
    state.mob_health = 2048;
    state.damage = 12;
    state.armor = 30;
    state.skills.push(skill(
        Some(Mechanic::Ignite { ticks: 60 }),
        Targeter::MultyEntity(MultyEntity::PlayersInRadius),
        Trigger::Timer,
    ));
    state.skills.push(skill(None, Targeter::ThreatTable, Trigger::Attack));
    state.skills.push(skill(Some(Mechanic::Swap), Targeter::Unset, Trigger::Damaged));
    state.skills.push(skill(Some(Mechanic::Taunt), Targeter::ThreatTable, Trigger::Unset));
    state.create_config();
    assert_eq!(
        state.output,
        "Big_Boss:\n  Type: WitherSkeleton\n  Display: &cBig Boss\n  Health: 2048\n  Damage: 12\n  \
         Armor: 30\n  Skills:\n  - ignite{t=60} @PlayersInRadius ~onTimer\n  - swap ~onDamaged\n  \
         - taunt ThreatTable"
    );
    assert_eq!(state.mob_name, "Big_Boss");
}

#[test]
fn boss_mob_scenario() {
    let mut state = named("Boss Mob", MinecraftMob::Zombie);
    state.mob_health = 100;
    state.skills.push(skill(
        Some(damage_five()),
        Targeter::SingleEntity(SingleEntityTarget::Target),
        Trigger::Attack,
    ));
    state.create_config();
    assert_eq!(
        state.output,
        "Boss_Mob:\n  Type: Zombie\n  Health: 100\n  Skills:\n  - damage{a=5;ia=false;pkb=false;\
         pi=false;dc=;ie=false;na=false;ii=false;is=false;dh=false;ieff=false;ir=false;pad=false;\
         tags=;rtag=;e=;ts=false} @Target ~onAttack"
    );
}

#[test]
fn arm_animation_scenario() {
    let s = skill(Some(Mechanic::ArmAnimation), Targeter::Unset, Trigger::Unset);
    assert_eq!(s.render_line(), "\n  - armAnimation @self");
    let mut state = named("Swing", MinecraftMob::MetaSkill);
    state.skills.push(s);
    state.create_config();
    assert_eq!(state.output, "Swing:\n  Skills:\n  - armAnimation @self");
    assert_eq!(state.output.lines().last(), Some("  - armAnimation @self"));
}

#[test]
fn meta_skill_has_no_type_line() {
    let mut state = named("Combo", MinecraftMob::MetaSkill);
    state.create_config();
    assert_eq!(state.output, "Combo:");
    let mut state = named("", MinecraftMob::MetaSkill);
    state.skills.push(skill(Some(Mechanic::Swap), Targeter::Unset, Trigger::Unset));
    state.create_config();
    assert_eq!(state.output, "Default_Skill_Name:\n  Skills:\n  - swap");
}

#[test]
fn skill_without_mechanic_has_no_line() {
    let mut state = named("Quiet", MinecraftMob::Zombie);
    let mut raw = skill(None, Targeter::ThreatTable, Trigger::Attack);
    raw.raw_args = String::from("- custom{x=1}");
    state.skills.push(raw);
    state.create_config();
    assert_eq!(state.output, "Quiet:\n  Type: Zombie\n  Skills:");
    assert_eq!(state.handle_skill_formating(), "");
}

#[test]
fn skill_lines_in_list_order() {
    let mut state = AppState::default();
    assert_eq!(state.handle_skill_formating(), "");
    state.skills.push(skill(Some(Mechanic::Fly), Targeter::Unset, Trigger::Unset));
    state.skills.push(skill(Some(Mechanic::Flames), Targeter::Unset, Trigger::Spawn));
    assert_eq!(state.handle_skill_formating(), "\n  - fly\n  - flames ~onSpawn");
    state.skills.swap(0, 1);
    assert_eq!(state.handle_skill_formating(), "\n  - flames ~onSpawn\n  - fly");
}

#[test]
fn writing_twice_gives_the_same_text() {
    let mut state = named("Twice  Told", MinecraftMob::Zombie);
    state.mob_health = 9;
    state.add_skill();
    state.skills[0].mechanic = Some(damage_five());
    state.create_config();
    let first = state.output.clone();
    state.create_config();
    assert_eq!(state.output, first);
}

#[test]
fn switching_to_meta_skill_clears_attributes() {
    let mut state = named("X", MinecraftMob::Zombie);
    state.mob_display_name = String::from("X");
    state.mob_health = 10;
    state.damage = 5;
    state.armor = 3;
    state.set_mob_type(MinecraftMob::MetaSkill);
    assert_eq!(state.mob_type, MinecraftMob::MetaSkill);
    assert_eq!(state.mob_display_name, "");
    assert_eq!(state.mob_health, 0);
    assert_eq!(state.damage, 0);
    assert_eq!(state.armor, 0);
    state.create_config();
    assert_eq!(state.output, "X:");
}

#[test]
fn switching_between_mobs_keeps_attributes() {
    let mut state = named("X", MinecraftMob::Zombie);
    state.mob_display_name = String::from("X");
    state.mob_health = 10;
    state.damage = 5;
    state.armor = 3;
    state.add_skill();
    let before = state.clone();
    state.set_mob_type(MinecraftMob::Skeleton);
    assert_eq!(AppState { mob_type: MinecraftMob::Zombie, ..state.clone() }, before);
    assert_eq!(state.mob_type, MinecraftMob::Skeleton);
}

#[test]
fn clearing_touches_meta_skills_only() {
    let mut state = named("X", MinecraftMob::Zombie);
    state.mob_health = 10;
    let before = state.clone();
    state.clear_unfit_attributes();
    assert_eq!(state, before);
    state.mob_type = MinecraftMob::MetaSkill;
    state.clear_unfit_attributes();
    assert_eq!(state.mob_health, 0);
    assert_eq!(state.mob_name, "X");
}

#[test]
fn added_skills_are_numbered_and_selected() {
    let mut state = AppState::default();
    state.add_skill();
    assert_eq!(state.skills.len(), 1);
    assert_eq!(state.skills[0], Skill::default().set_name("Skill_0"));
    assert_eq!(state.selected_skill, Some(0));
    state.add_skill();
    state.add_skill();
    assert_eq!(state.skills[1].name, "Skill_1");
    assert_eq!(state.skills[2].name, "Skill_2");
    assert_eq!(state.selected_skill, Some(2));
    for _ in 3..11 {
        state.add_skill();
    }
    assert_eq!(state.skills[10].name, "Skill_10");
    assert_eq!(state.skills[10].mechanic, None);
    assert_eq!(state.selected_skill, Some(10));
}

#[test]
fn selecting_skills() {
    let mut state = AppState::default();
    state.select_skill(0);
    assert_eq!(state.selected_skill, None);
    state.select_first_skill();
    assert_eq!(state.selected_skill, None);
    state.select_last_skill();
    assert_eq!(state.selected_skill, None);
    state.add_skill();
    state.add_skill();
    state.add_skill();
    state.select_skill(1);
    assert_eq!(state.selected_skill, Some(1));
    state.select_skill(3);
    assert_eq!(state.selected_skill, Some(1));
    state.select_first_skill();
    assert_eq!(state.selected_skill, Some(0));
    state.select_last_skill();
    assert_eq!(state.selected_skill, Some(2));
    state.skills.clear();
    state.select_skill(0);
    assert_eq!(state.selected_skill, None);
}

#[test]
fn selected_skill_can_be_edited() {
    let mut state = AppState::default();
    assert!(state.get_selected_skill().is_none());
    state.add_skill();
    state.add_skill();
    state.select_skill(0);
    match state.get_selected_skill() {
        Some(found) => {
            assert_eq!(found.name, "Skill_0");
            found.trigger = Trigger::Spawn;
        },
        None => panic!("a skill is selected"),
    }
    assert_eq!(state.skills[0].trigger, Trigger::Spawn);
    assert_eq!(state.skills[1].trigger, Trigger::Unset);
    state.selected_skill = Some(2);
    assert!(state.get_selected_skill().is_none());
}

#[test]
fn renaming_the_selected_skill() {
    let mut state = AppState::default();
    state.rename_selected_skill("nobody");
    assert_eq!(state, AppState::default());
    state.add_skill();
    state.add_skill();
    state.rename_selected_skill("leap");
    assert_eq!(state.skills[0].name, "Skill_0");
    assert_eq!(state.skills[1].name, "leap");
    state.selected_skill = Some(9);
    let before = state.clone();
    state.rename_selected_skill("lost");
    assert_eq!(state, before);
}

#[test]
fn removing_skills() {
    let mut state = AppState::default();
    state.remove_skill(0);
    state.remove_selected_skill();
    assert_eq!(state, AppState::default());
    state.add_skill();
    state.add_skill();
    state.add_skill();
    state.remove_skill(3);
    assert_eq!(state.skills.len(), 3);
    state.remove_skill(1);
    let names: Vec<&str> = state.skills.iter().map(|s| s.name.as_str()).collect();
    assert_eq!(names, vec!["Skill_0", "Skill_2"]);
    assert_eq!(state.selected_skill, Some(2));
    state.remove_selected_skill();
    assert_eq!(state.skills.len(), 2);
    state.select_first_skill();
    state.remove_selected_skill();
    let names: Vec<&str> = state.skills.iter().map(|s| s.name.as_str()).collect();
    assert_eq!(names, vec!["Skill_2"]);
    assert_eq!(state.selected_skill, Some(0));
}

#[test]
fn moving_the_selected_skill() {
    let mut state = AppState::default();
    state.move_selected_skill_up();
    state.move_selected_skill_down();
    assert_eq!(state, AppState::default());
    for _ in 0..3 {
        state.add_skill();
    }
    let names = |state: &AppState| -> Vec<String> {
        state.skills.iter().map(|s| s.name.clone()).collect()
    };
    state.move_selected_skill_down();
    assert_eq!(names(&state), vec!["Skill_0", "Skill_1", "Skill_2"]);
    assert_eq!(state.selected_skill, Some(2));
    state.move_selected_skill_up();
    assert_eq!(names(&state), vec!["Skill_0", "Skill_2", "Skill_1"]);
    assert_eq!(state.selected_skill, Some(1));
    state.move_selected_skill_up();
    assert_eq!(names(&state), vec!["Skill_2", "Skill_0", "Skill_1"]);
    assert_eq!(state.selected_skill, Some(0));
    state.move_selected_skill_up();
    assert_eq!(names(&state), vec!["Skill_2", "Skill_0", "Skill_1"]);
    assert_eq!(state.selected_skill, Some(0));
    state.move_selected_skill_down();
    assert_eq!(names(&state), vec!["Skill_0", "Skill_2", "Skill_1"]);
    assert_eq!(state.selected_skill, Some(1));
    state.selected_skill = Some(7);
    state.move_selected_skill_up();
    state.move_selected_skill_down();
    assert_eq!(names(&state), vec!["Skill_0", "Skill_2", "Skill_1"]);
    assert_eq!(state.selected_skill, Some(7));
}
