use mythic_editor::skill::mechanics::Mechanic;
use mythic_editor::skill::targeters::Targeter;
use mythic_editor::skill::triggers::Trigger;
use mythic_editor::skill::Skill;
use mythic_editor::text::Render;

#[test]
fn arm_animation_line() {
    let skill = Skill {
        name: String::from("swing"),
        mechanic: Some(Mechanic::ArmAnimation),
        raw_args: String::new(),
        targeter: Targeter::Unset,
        trigger: Trigger::Unset,
    };
    assert_eq!(skill.render_line(), "\n  - armAnimation @self");
    assert_eq!(Mechanic::ArmAnimation.render(), "- armAnimation @self");
}
