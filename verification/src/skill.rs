//! Skills and their parts.
//!
//! A skill names a mechanic, the targeter that tells what the mechanic acts
//! on, and the trigger that sets it off.

use vstd::prelude::*;
use vstd::string::StringExecFns;
use crate::skill::mechanics::Mechanic;
use crate::skill::targeters::Targeter;
use crate::skill::triggers::Trigger;
use crate::text::write_value;
use crate::text::Render;

pub mod mechanics;
pub mod minecraft_lib;
pub mod model_engine;
pub mod option;
pub mod params;
pub mod targeters;
pub mod triggers;

verus! {

/// One entry of an entity's skill list.
#[derive(Clone, Debug, PartialEq)]
pub struct Skill {
    /// The name under which the skill is shown in the list.
    pub name: String,
    /// The mechanic, once one is chosen.
    pub mechanic: Option<Mechanic>,
    /// Free text that is kept while no mechanic is chosen. It is no part of
    /// the configuration text.
    pub raw_args: String,
    pub targeter: Targeter,
    pub trigger: Trigger,
}

/// A space and the token of the targeter; nothing where none is set.
pub open spec fn targeter_segment(targeter: Targeter) -> Seq<char> {
    if targeter == Targeter::Unset {
        Seq::empty()
    } else {
        " "@ + targeter.text()
    }
}

/// A space and the token of the trigger; nothing where none is set.
pub open spec fn trigger_segment(trigger: Trigger) -> Seq<char> {
    if trigger == Trigger::Unset {
        Seq::empty()
    } else {
        " "@ + trigger.text()
    }
}

/// The segment of a targeter is empty where its text is empty, and only
/// there; the same holds of a trigger.
pub proof fn lemma_segments(targeter: Targeter, trigger: Trigger)
    ensures
        targeter_segment(targeter).len() == 0 <==> targeter.text().len() == 0,
        trigger_segment(trigger).len() == 0 <==> trigger.text().len() == 0,
{
    reveal_strlit(" ");
    targeter.lemma_text_empty();
    trigger.lemma_text_marker();
}

impl Skill {
    /// Whether the skill is as a new one: no name, no mechanic, no free text,
    /// no targeter and no trigger.
    pub open spec fn is_blank(self) -> bool {
        &&& self.name@.len() == 0
        &&& self.mechanic is None
        &&& self.raw_args@.len() == 0
        &&& self.targeter == Targeter::Unset
        &&& self.trigger == Trigger::Unset
    }

    /// What the skill adds to the configuration text. With a mechanic it is a
    /// line of its own: a line break, two spaces, the text of the mechanic,
    /// then the targeter and the trigger, each behind a space and each only
    /// where it is set. Without a mechanic it is nothing.
    pub open spec fn line_text(self) -> Seq<char> {
        match self.mechanic {
            None => Seq::empty(),
            Some(mechanic) => "\n  "@ + mechanic.text() + targeter_segment(self.targeter)
                + trigger_segment(self.trigger),
        }
    }

    /// A skill adds a line where it has a mechanic, and nothing where it has
    /// none, whatever its free text, its targeter and its trigger hold.
    pub proof fn lemma_line_needs_mechanic(self)
        ensures
            self.mechanic is None <==> self.line_text().len() == 0,
    {
        if let Some(mechanic) = self.mechanic {
            mechanic.lemma_text_begins_with_dash();
        }
    }

    /// A targeter or a trigger that is not set leaves nothing in the line,
    /// not even the space in front of it: a line without both ends with the
    /// text of the mechanic.
    pub proof fn lemma_line_without_targeter_and_trigger(self)
        requires
            self.mechanic is Some,
            self.targeter == Targeter::Unset,
            self.trigger == Trigger::Unset,
        ensures
            self.line_text() == "\n  "@ + self.mechanic->0.text(),
    {
        let head = "\n  "@ + self.mechanic->0.text();
        assert(head + Seq::<char>::empty() =~= head);
    }

    /// Returns what the skill adds to the configuration text.
    pub fn render_line(&self) -> (out: String)
        ensures
            out@ == self.line_text(),
    {
        match &self.mechanic {
            None => String::new(),
            Some(mechanic) => {
                let mut out = String::from_str("\n  ");
                write_value(&mut out, mechanic);
                let mut targeter = String::new();
                match self.targeter {
                    Targeter::Unset => {},
                    _ => {
                        targeter = String::from_str(" ");
                        write_value(&mut targeter, &self.targeter);
                    },
                }
                out.append(targeter.as_str());
                let mut trigger = String::new();
                match self.trigger {
                    Trigger::Unset => {},
                    _ => {
                        trigger = String::from_str(" ");
                        write_value(&mut trigger, &self.trigger);
                    },
                }
                out.append(trigger.as_str());
                out
            },
        }
    }

    /// Returns the skill under the name `name`.
    pub fn set_name(self, name: &str) -> (r: Skill)
        ensures
            r.name@ == name@,
            r == (Skill { name: r.name, ..self }),
    {
        let mut r = self;
        r.name = String::from_str(name);
        r
    }

    /// Gives the skill the name `name` and hands the skill back.
    pub fn rename(&mut self, name: &str) -> (r: &mut Skill)
        ensures
            r.name@ == name@,
            *r == (Skill { name: r.name, ..*old(self) }),
            *final(self) == *final(r),
    {
        self.name = String::from_str(name);
        self
    }
}

impl Default for Skill {
    fn default() -> (r: Skill)
        ensures
            r.is_blank(),
    {
        Skill {
            name: String::new(),
            mechanic: None,
            raw_args: String::new(),
            targeter: Targeter::Unset,
            trigger: Trigger::Unset,
        }
    }
}

} // verus!
