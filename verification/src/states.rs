//! The entity that is being edited, and its configuration text.
//!
//! The entity is a mob or a meta-skill: a name, a kind, a few attributes and
//! a list of skills. [`AppState::create_config`] writes it out as the block
//! of lines that the server reads.

use vstd::prelude::*;
use vstd::string::StringExecFns;
use crate::names::is_whitespace;
use crate::names::join_words;
use crate::names::joined_words;
use crate::names::lemma_joined_words_empty;
use crate::names::lemma_joined_words_no_whitespace;
use crate::names::lemma_joined_words_of_word;
use crate::skill::minecraft_lib::MinecraftMob;
use crate::skill::targeters::Targeter;
use crate::skill::triggers::Trigger;
use crate::skill::Skill;
use crate::text::int_text;
use crate::text::write_value;
use crate::text::Render;

verus! {

/// The entity that is being edited.
#[derive(Clone, Debug, PartialEq)]
pub struct AppState {
    /// The name by which the server knows the entity.
    pub mob_name: String,
    /// The name that players see. Empty: the entity has none.
    pub mob_display_name: String,
    /// The kind of the entity.
    pub mob_type: MinecraftMob,
    /// The health of the mob. Zero: the line is left out.
    pub mob_health: u32,
    /// The damage of the mob. Zero: the line is left out.
    pub damage: u8,
    /// The armor of the mob. Zero: the line is left out.
    pub armor: u8,
    /// The place of the skill that is being edited, if any. It may point
    /// behind the list after a skill was removed; it then selects nothing.
    pub selected_skill: Option<usize>,
    /// The skills, in the order in which they are written.
    pub skills: Vec<Skill>,
    /// The configuration text as it was last written.
    pub output: String,
}

/// The name that an entity without a name gets.
pub open spec fn default_name(meta: bool) -> Seq<char> {
    if meta {
        "Default_Skill_Name"@
    } else {
        "Default_Mob_Name"@
    }
}

/// The name under which an entity is written: the words of its name joined by
/// underscores. An entity whose name is empty goes by the default name of
/// its kind.
pub open spec fn normalized_name(name: Seq<char>, meta: bool) -> Seq<char> {
    if name.len() == 0 {
        joined_words(default_name(meta))
    } else {
        joined_words(name)
    }
}

/// The line of the kind. A meta-skill has none.
pub open spec fn type_line(kind: MinecraftMob) -> Seq<char> {
    if kind == MinecraftMob::MetaSkill {
        Seq::empty()
    } else {
        "\n  Type: "@ + kind.text()
    }
}

/// The line of the display name, where there is one.
pub open spec fn display_line(display: Seq<char>) -> Seq<char> {
    if display.len() == 0 {
        Seq::empty()
    } else {
        "\n  Display: "@ + display
    }
}

/// The line of the health, where it is not zero.
pub open spec fn health_line(health: u32) -> Seq<char> {
    if health == 0 {
        Seq::empty()
    } else {
        "\n  Health: "@ + int_text(health as int)
    }
}

/// The line of the damage, where it is not zero.
pub open spec fn damage_line(damage: u8) -> Seq<char> {
    if damage == 0 {
        Seq::empty()
    } else {
        "\n  Damage: "@ + int_text(damage as int)
    }
}

/// The line of the armor, where it is not zero.
pub open spec fn armor_line(armor: u8) -> Seq<char> {
    if armor == 0 {
        Seq::empty()
    } else {
        "\n  Armor: "@ + int_text(armor as int)
    }
}

/// The line that opens the skill list, where the entity has skills.
pub open spec fn skills_header(count: nat) -> Seq<char> {
    if count == 0 {
        Seq::empty()
    } else {
        "\n  Skills:"@
    }
}

/// The lines of the skills, in their order. A skill without a mechanic has
/// no line.
pub open spec fn skills_text(skills: Seq<Skill>) -> Seq<char>
    decreases skills.len(),
{
    if skills.len() == 0 {
        Seq::empty()
    } else {
        skills_text(skills.drop_last()) + skills.last().line_text()
    }
}

/// The name under which an entity is written holds no white space.
pub proof fn lemma_normalized_name_no_whitespace(name: Seq<char>, meta: bool)
    ensures
        forall|i: int|
            0 <= i < normalized_name(name, meta).len() ==> !is_whitespace(
                #[trigger] normalized_name(name, meta)[i],
            ),
{
    lemma_joined_words_no_whitespace(name);
    lemma_joined_words_no_whitespace(default_name(meta));
}

/// An entity without a name is written under the default name of its kind.
pub proof fn lemma_normalized_name_default(meta: bool)
    ensures
        normalized_name(Seq::empty(), meta) == default_name(meta),
        default_name(meta).len() > 0,
{
    reveal_strlit("Default_Skill_Name");
    reveal_strlit("Default_Mob_Name");
    lemma_joined_words_of_word(default_name(meta));
}

/// The name under which an entity is written is empty only where the name
/// of the entity holds white space and nothing else.
pub proof fn lemma_normalized_name_empty(name: Seq<char>, meta: bool)
    ensures
        normalized_name(name, meta).len() == 0 <==> name.len() > 0 && forall|i: int|
            0 <= i < name.len() ==> is_whitespace(#[trigger] name[i]),
{
    lemma_normalized_name_default(meta);
    lemma_joined_words_empty(name);
}

/// Returns the line of the kind.
fn render_type_line(kind: &MinecraftMob) -> (out: String)
    ensures
        out@ == type_line(*kind),
{
    match kind {
        MinecraftMob::MetaSkill => String::new(),
        _ => {
            let mut out = String::from_str("\n  Type: ");
            write_value(&mut out, kind);
            out
        },
    }
}

/// Returns `label` and the numeral of `n`, or nothing where `n` is zero.
fn render_number_line(label: &str, n: u32) -> (out: String)
    ensures
        out@ == if n == 0 {
            Seq::empty()
        } else {
            label@ + int_text(n as int)
        },
{
    if n == 0 {
        String::new()
    } else {
        let mut out = String::from_str(label);
        write_value(&mut out, &n);
        out
    }
}

impl AppState {
    /// The configuration text of the entity as it stands: the name and a
    /// colon, then the lines of the kind, the display name, the health, the
    /// damage and the armor, each only where it has something to say, then
    /// the skill list. Every line but the first brings its own line break,
    /// so a line that is left out leaves no gap.
    pub open spec fn config_text(self) -> Seq<char> {
        self.mob_name@ + ":"@ + type_line(self.mob_type) + display_line(self.mob_display_name@)
            + health_line(self.mob_health) + damage_line(self.damage) + armor_line(self.armor)
            + skills_header(self.skills@.len()) + skills_text(self.skills@)
    }

    /// An entity without display name, health, damage and armor has none of
    /// their lines: its text is the name, the line of the kind and the skill
    /// list, and nothing else.
    pub proof fn lemma_attribute_lines_left_out(self)
        requires
            self.mob_display_name@.len() == 0,
            self.mob_health == 0,
            self.damage == 0,
            self.armor == 0,
        ensures
            display_line(self.mob_display_name@).len() == 0,
            health_line(self.mob_health).len() == 0,
            damage_line(self.damage).len() == 0,
            armor_line(self.armor).len() == 0,
            self.config_text() == self.mob_name@ + ":"@ + type_line(self.mob_type) + skills_header(
                self.skills@.len(),
            ) + skills_text(self.skills@),
    {
        let head = self.mob_name@ + ":"@ + type_line(self.mob_type);
        assert(head + Seq::<char>::empty() =~= head);
    }

    /// The text of a meta-skill whose attributes fit its kind is the name
    /// and the skill list, and nothing else.
    pub proof fn lemma_meta_skill_text(self)
        requires
            self.mob_type == MinecraftMob::MetaSkill,
            self.attributes_fit_kind(),
        ensures
            self.config_text() == self.mob_name@ + ":"@ + skills_header(self.skills@.len())
                + skills_text(self.skills@),
    {
        let head = self.mob_name@ + ":"@;
        assert(head + Seq::<char>::empty() =~= head);
    }

    /// An entity without skills has no skill list, not even its first line.
    pub proof fn lemma_no_skills_no_list(self)
        requires
            self.skills@.len() == 0,
        ensures
            skills_header(self.skills@.len()).len() == 0,
            skills_text(self.skills@).len() == 0,
    {
    }

    /// Whether the attributes agree with the kind: a meta-skill has no
    /// display name, no health, no damage and no armor.
    pub open spec fn attributes_fit_kind(self) -> bool {
        self.mob_type == MinecraftMob::MetaSkill ==> {
            &&& self.mob_display_name@.len() == 0
            &&& self.mob_health == 0
            &&& self.damage == 0
            &&& self.armor == 0
        }
    }

    /// The skill that is selected, if the selection points into the list.
    pub open spec fn selected(self) -> Option<Skill> {
        match self.selected_skill {
            Some(id) if id < self.skills@.len() => Some(self.skills@[id as int]),
            _ => None,
        }
    }

    /// Replaces the name by the name under which the entity is written: an
    /// empty name by the default name of the kind, any other by its words
    /// joined with underscores.
    pub fn sanitize_mob_name(&mut self)
        ensures
            final(self).mob_name@ == normalized_name(
                old(self).mob_name@,
                old(self).mob_type == MinecraftMob::MetaSkill,
            ),
            *final(self) == (AppState { mob_name: final(self).mob_name, ..*old(self) }),
    {
        if self.mob_name.as_str().is_empty() {
            match self.mob_type {
                MinecraftMob::MetaSkill => {
                    self.mob_name = String::from_str("Default_Skill_Name");
                },
                _ => {
                    self.mob_name = String::from_str("Default_Mob_Name");
                },
            }
        }
        let name = join_words(self.mob_name.as_str());
        self.mob_name = name;
    }

    /// Sets the kind of the entity. Switching to the meta-skill clears what a
    /// meta-skill cannot have: the display name, the health, the damage and
    /// the armor. Any other kind leaves them as they are.
    pub fn set_mob_type(&mut self, mob_type: MinecraftMob)
        ensures
            final(self).mob_type == mob_type,
            final(self).attributes_fit_kind(),
            mob_type != MinecraftMob::MetaSkill ==> *final(self) == (AppState {
                mob_type,
                ..*old(self)
            }),
            mob_type == MinecraftMob::MetaSkill ==> *final(self) == (AppState {
                mob_type,
                mob_display_name: final(self).mob_display_name,
                mob_health: 0,
                damage: 0,
                armor: 0,
                ..*old(self)
            }),
    {
        self.mob_type = mob_type;
        self.clear_unfit_attributes();
    }

    /// Clears what the kind of the entity cannot have: for a meta-skill the
    /// display name, the health, the damage and the armor. An entity of any
    /// other kind is left as it is.
    pub fn clear_unfit_attributes(&mut self)
        ensures
            final(self).attributes_fit_kind(),
            old(self).mob_type != MinecraftMob::MetaSkill ==> *final(self) == *old(self),
            old(self).mob_type == MinecraftMob::MetaSkill ==> *final(self) == (AppState {
                mob_display_name: final(self).mob_display_name,
                mob_health: 0,
                damage: 0,
                armor: 0,
                ..*old(self)
            }),
    {
        match self.mob_type {
            MinecraftMob::MetaSkill => {
                self.mob_display_name = String::new();
                self.mob_health = 0;
                self.damage = 0;
                self.armor = 0;
            },
            _ => {},
        }
    }

    /// Appends a new skill and selects it. The skill is named `Skill_` and
    /// the number of skills that the list held; it has no mechanic, no
    /// targeter and no trigger.
    pub fn add_skill(&mut self)
        ensures
            final(self).skills@.len() == old(self).skills@.len() + 1,
            final(self).skills@.drop_last() == old(self).skills@,
            final(self).skills@.last().name@ == "Skill_"@ + int_text(old(self).skills@.len() as int),
            final(self).skills@.last().mechanic is None,
            final(self).skills@.last().raw_args@.len() == 0,
            final(self).skills@.last().targeter == Targeter::Unset,
            final(self).skills@.last().trigger == Trigger::Unset,
            final(self).selected_skill == Some(old(self).skills.len()),
            *final(self) == (AppState {
                skills: final(self).skills,
                selected_skill: final(self).selected_skill,
                ..*old(self)
            }),
    {
        let mut name = String::from_str("Skill_");
        let count = self.skills.len();
        write_value(&mut name, &count);
        let skill = Skill::default().set_name(name.as_str());
        self.skills.push(skill);
        assert(self.skills@.drop_last() =~= old(self).skills@);
        self.select_last_skill();
    }

    /// Gives access to the selected skill, if the selection points into the
    /// list.
    pub fn get_selected_skill(&mut self) -> (r: Option<&mut Skill>)
        ensures
            old(self).selected() is None ==> r is None && *final(self) == *old(self),
            old(self).selected() matches Some(skill) ==> (r matches Some(found) && *found == skill
                && *final(self) == (AppState {
                skills: final(self).skills,
                ..*old(self)
            }) && final(self).skills@ == old(self).skills@.update(
                old(self).selected_skill->0 as int,
                *final(found),
            )),
    {
        match self.selected_skill {
            Some(id) => {
                if id < self.skills.len() {
                    Some(&mut self.skills[id])
                } else {
                    None
                }
            },
            None => None,
        }
    }

    /// Renames the selected skill. Without a selection that points into the
    /// list nothing changes.
    pub fn rename_selected_skill(&mut self, name: &str)
        ensures
            old(self).selected() is None ==> *final(self) == *old(self),
            old(self).selected() matches Some(skill) ==> ({
                let id = old(self).selected_skill->0 as int;
                &&& final(self).skills@.len() == old(self).skills@.len()
                &&& final(self).skills@[id].name@ == name@
                &&& final(self).skills@ == old(self).skills@.update(
                    id,
                    Skill { name: final(self).skills@[id].name, ..skill },
                )
                &&& *final(self) == (AppState { skills: final(self).skills, ..*old(self) })
            }),
    {
        match self.selected_skill {
            Some(id) => {
                if id < self.skills.len() {
                    let skill = &mut self.skills[id];
                    skill.name = String::from_str(name);
                }
            },
            None => {},
        }
    }

    /// Removes the selected skill from the list. The selection keeps its
    /// number. Without a selection that points into the list nothing changes.
    pub fn remove_selected_skill(&mut self)
        ensures
            old(self).selected() is None ==> *final(self) == *old(self),
            old(self).selected() is Some ==> final(self).skills@ == old(self).skills@.remove(
                old(self).selected_skill->0 as int,
            ) && *final(self) == (AppState { skills: final(self).skills, ..*old(self) }),
    {
        match self.selected_skill {
            Some(id) => {
                if id < self.skills.len() {
                    self.skills.remove(id);
                }
            },
            None => {},
        }
    }

    /// Selects the first skill, or nothing where the list is empty.
    pub fn select_first_skill(&mut self)
        ensures
            final(self).selected_skill == if old(self).skills@.len() == 0 {
                None::<usize>
            } else {
                Some(0usize)
            },
            *final(self) == (AppState {
                selected_skill: final(self).selected_skill,
                ..*old(self)
            }),
    {
        if self.skills.len() == 0 {
            self.selected_skill = None;
            return ;
        }
        self.select_skill(0);
    }

    /// Selects the last skill, or nothing where the list is empty.
    pub fn select_last_skill(&mut self)
        ensures
            final(self).selected_skill == if old(self).skills@.len() == 0 {
                None::<usize>
            } else {
                Some((old(self).skills@.len() - 1) as usize)
            },
            *final(self) == (AppState {
                selected_skill: final(self).selected_skill,
                ..*old(self)
            }),
    {
        if self.skills.len() == 0 {
            self.selected_skill = None;
            return ;
        }
        let last = self.skills.len() - 1;
        self.select_skill(last);
    }

    /// Removes the skill at place `id`. Where the list has no such place
    /// nothing changes.
    pub fn remove_skill(&mut self, id: usize)
        ensures
            id >= old(self).skills@.len() ==> *final(self) == *old(self),
            id < old(self).skills@.len() ==> final(self).skills@ == old(self).skills@.remove(
                id as int,
            ) && *final(self) == (AppState { skills: final(self).skills, ..*old(self) }),
    {
        if id < self.skills.len() {
            self.skills.remove(id);
        }
    }

    /// Selects the skill at place `id`. Where the list is empty the selection
    /// is given up; where the list has skills but no such place the selection
    /// stays as it is.
    pub fn select_skill(&mut self, id: usize)
        ensures
            final(self).selected_skill == if old(self).skills@.len() == 0 {
                None::<usize>
            } else if id < old(self).skills@.len() {
                Some(id)
            } else {
                old(self).selected_skill
            },
            *final(self) == (AppState {
                selected_skill: final(self).selected_skill,
                ..*old(self)
            }),
    {
        if self.skills.len() == 0 {
            self.selected_skill = None;
            return ;
        }
        if id < self.skills.len() {
            self.selected_skill = Some(id);
        }
    }

    /// Moves the selected skill one place towards the front of the list and
    /// keeps it selected. Without a selected skill, or with the first
    /// selected, nothing changes.
    pub fn move_selected_skill_up(&mut self)
        ensures
            (old(self).selected() is None || old(self).selected_skill == Some(0usize))
                ==> *final(self) == *old(self),
            old(self).selected() is Some && old(self).selected_skill != Some(0usize) ==> ({
                let id = old(self).selected_skill->0 as int;
                &&& final(self).skills@ == old(self).skills@.update(id - 1, old(self).skills@[id]).update(
                    id,
                    old(self).skills@[id - 1],
                )
                &&& final(self).selected_skill == Some((id - 1) as usize)
                &&& *final(self) == (AppState {
                    skills: final(self).skills,
                    selected_skill: final(self).selected_skill,
                    ..*old(self)
                })
            }),
    {
        match self.selected_skill {
            Some(id) => {
                if id != 0 && id < self.skills.len() {
                    let skill = self.skills.remove(id);
                    self.skills.insert(id - 1, skill);
                    self.selected_skill = Some(id - 1);
                    assert(self.skills@ =~= old(self).skills@.update(
                        id - 1,
                        old(self).skills@[id as int],
                    ).update(id as int, old(self).skills@[id - 1]));
                }
            },
            None => {},
        }
    }

    /// Moves the selected skill one place towards the end of the list and
    /// keeps it selected. Without a selected skill, or with the last
    /// selected, nothing changes.
    pub fn move_selected_skill_down(&mut self)
        ensures
            (old(self).selected() is None || old(self).selected_skill == Some(
                (old(self).skills@.len() - 1) as usize,
            )) ==> *final(self) == *old(self),
            old(self).selected() is Some && old(self).selected_skill != Some(
                (old(self).skills@.len() - 1) as usize,
            ) ==> ({
                let id = old(self).selected_skill->0 as int;
                &&& final(self).skills@ == old(self).skills@.update(id + 1, old(self).skills@[id]).update(
                    id,
                    old(self).skills@[id + 1],
                )
                &&& final(self).selected_skill == Some((id + 1) as usize)
                &&& *final(self) == (AppState {
                    skills: final(self).skills,
                    selected_skill: final(self).selected_skill,
                    ..*old(self)
                })
            }),
    {
        match self.selected_skill {
            Some(id) => {
                if id < self.skills.len() && id != self.skills.len() - 1 {
                    let skill = self.skills.remove(id);
                    self.skills.insert(id + 1, skill);
                    self.selected_skill = Some(id + 1);
                    assert(self.skills@ =~= old(self).skills@.update(
                        id + 1,
                        old(self).skills@[id as int],
                    ).update(id as int, old(self).skills@[id + 1]));
                }
            },
            None => {},
        }
    }

    /// Writes the configuration text of the entity to `output`. The name is
    /// first replaced by the name under which the entity is written, as
    /// [`AppState::sanitize_mob_name`] does; the text is that of the entity
    /// with this name.
    pub fn create_config(&mut self)
        ensures
            final(self).mob_name@ == normalized_name(
                old(self).mob_name@,
                old(self).mob_type == MinecraftMob::MetaSkill,
            ),
            final(self).output@ == final(self).config_text(),
            *final(self) == (AppState {
                mob_name: final(self).mob_name,
                output: final(self).output,
                ..*old(self)
            }),
    {
        self.sanitize_mob_name();
        let mut out = self.mob_name.clone();
        out.append(":");
        out.append(render_type_line(&self.mob_type).as_str());
        let display = if self.mob_display_name.as_str().is_empty() {
            String::new()
        } else {
            let mut line = String::from_str("\n  Display: ");
            line.append(self.mob_display_name.as_str());
            line
        };
        out.append(display.as_str());
        out.append(render_number_line("\n  Health: ", self.mob_health).as_str());
        out.append(render_number_line("\n  Damage: ", self.damage as u32).as_str());
        out.append(render_number_line("\n  Armor: ", self.armor as u32).as_str());
        let header = if self.skills.len() == 0 {
            String::new()
        } else {
            String::from_str("\n  Skills:")
        };
        out.append(header.as_str());
        out.append(self.handle_skill_formating().as_str());
        self.output = out;
    }

    /// Returns the lines of the skills, in their order.
    pub fn handle_skill_formating(&self) -> (out: String)
        ensures
            out@ == skills_text(self.skills@),
    {
        let mut out = String::new();
        let mut i: usize = 0;
        while i < self.skills.len()
            invariant
                i <= self.skills.len(),
                out@ == skills_text(self.skills@.subrange(0, i as int)),
            decreases self.skills.len() - i,
        {
            let line = self.skills[i].render_line();
            out.append(line.as_str());
            proof {
                let next = self.skills@.subrange(0, i + 1);
                assert(next.drop_last() =~= self.skills@.subrange(0, i as int));
            }
            i = i + 1;
        }
        assert(self.skills@.subrange(0, i as int) =~= self.skills@);
        out
    }
}

impl Default for AppState {
    /// An entity without a name and without skills; its kind is the zombie.
    fn default() -> (r: AppState)
        ensures
            r.mob_name@.len() == 0,
            r.mob_display_name@.len() == 0,
            r.mob_type == MinecraftMob::Zombie,
            r.mob_health == 0,
            r.damage == 0,
            r.armor == 0,
            r.selected_skill is None,
            r.skills@.len() == 0,
            r.output@.len() == 0,
    {
        AppState {
            mob_name: String::new(),
            mob_display_name: String::new(),
            mob_type: MinecraftMob::Zombie,
            mob_health: 0,
            damage: 0,
            armor: 0,
            selected_skill: None,
            skills: Vec::new(),
            output: String::new(),
        }
    }
}

} // verus!
