//! Triggers: the events that set a skill off.

use vstd::prelude::*;
use vstd::string::StringExecFns;
use crate::text::Render;

verus! {

/// The event that sets a skill off.
#[derive(Clone, Copy, Debug, PartialEq, Eq)]
pub enum Trigger {
    /// While the mob is in combat
    Combat,
    /// When the mob hits something
    Attack,
    /// When the mob is damaged
    Damaged,
    /// When the mob spawns
    Spawn,
    /// When the mob is despawned
    Despawn,
    /// Triggered the first time a mob is spawned from a spawner
    Ready,
    /// When the mob is loaded after a server restart
    Load,
    /// When the mob either
    /// [spawns](https://git.mythiccraft.io/mythiccraft/MythicMobs/-/wikis/Skills/Triggers/onspawn)
    /// or [loads](https://git.mythiccraft.io/mythiccraft/MythicMobs/-/wikis/Skills/Triggers/onload)
    SpawnOrLoad,
    /// When the mob dies
    Death,
    /// Every # ticks (where # is the interval in ticks)
    Timer,
    /// When the mob is right-clicked
    Interact,
    /// When the mob kills a player
    PlayerKill,
    /// When the mob enters combat (requires threat tables be on)
    EnterCombat,
    /// When the mob leaves combat (requires threat tables be on)
    DropCombat,
    /// When the mob changes targets (requires threat tables be on)
    ChangeTarget,
    /// When the mob explodes (typically only used for creepers)
    Explode,
    /// When the creeper charges up for an explosion
    Prime,
    /// When the creeper is charged (when lightning hits a creeper)
    CreeperCharge,
    /// When the mob teleports (typically only used for endermen)
    Teleport,
    /// When the mob receives a signal
    Signal,
    /// When the mob fires a projectile
    Shoot,
    /// When the mob's fired projectile hits an entity
    BowHit,
    /// When the mob gets tamed
    Tame,
    /// When the mob breeds with another mob.
    Breed,
    /// When the Villager completes a trade. Requires Paper
    Trade,
    /// When the mob changes world
    ChangeWorld,
    /// When the cow is milked or an entity is bucketed (axolotl etc.)
    Bucket,
    /// When the mob deals damage to other entities via a mechanic
    SkillDamage,
    /// When the mob hears a sound, [if
    /// enabled](https://git.mythiccraft.io/mythiccraft/MythicMobs/-/wikis/Mobs/Mobs#hearing)
    Hear,
    /// When a mob's special projectile hits an entity
    ProjectileHit,
    /// When a mob's special projectile hits a block
    ProjectileLand,
    /// No trigger: the line names none.
    Unset,
}

impl Trigger {
    /// The number of triggers, the unset one included.
    pub open spec fn count() -> int {
        32
    }

    /// The trigger at place `i` of the catalogue.
    pub open spec fn at(i: int) -> Trigger {
        if i == 0 {
            Trigger::Combat
        } else if i == 1 {
            Trigger::Attack
        } else if i == 2 {
            Trigger::Damaged
        } else if i == 3 {
            Trigger::Spawn
        } else if i == 4 {
            Trigger::Despawn
        } else if i == 5 {
            Trigger::Ready
        } else if i == 6 {
            Trigger::Load
        } else if i == 7 {
            Trigger::SpawnOrLoad
        } else if i == 8 {
            Trigger::Death
        } else if i == 9 {
            Trigger::Timer
        } else if i == 10 {
            Trigger::Interact
        } else if i == 11 {
            Trigger::PlayerKill
        } else if i == 12 {
            Trigger::EnterCombat
        } else if i == 13 {
            Trigger::DropCombat
        } else if i == 14 {
            Trigger::ChangeTarget
        } else if i == 15 {
            Trigger::Explode
        } else if i == 16 {
            Trigger::Prime
        } else if i == 17 {
            Trigger::CreeperCharge
        } else if i == 18 {
            Trigger::Teleport
        } else if i == 19 {
            Trigger::Signal
        } else if i == 20 {
            Trigger::Shoot
        } else if i == 21 {
            Trigger::BowHit
        } else if i == 22 {
            Trigger::Tame
        } else if i == 23 {
            Trigger::Breed
        } else if i == 24 {
            Trigger::Trade
        } else if i == 25 {
            Trigger::ChangeWorld
        } else if i == 26 {
            Trigger::Bucket
        } else if i == 27 {
            Trigger::SkillDamage
        } else if i == 28 {
            Trigger::Hear
        } else if i == 29 {
            Trigger::ProjectileHit
        } else if i == 30 {
            Trigger::ProjectileLand
        } else {
            Trigger::Unset
        }
    }

    /// The place of the trigger in the catalogue.
    pub open spec fn ordinal(self) -> int {
        match self {
            Trigger::Combat => 0,
            Trigger::Attack => 1,
            Trigger::Damaged => 2,
            Trigger::Spawn => 3,
            Trigger::Despawn => 4,
            Trigger::Ready => 5,
            Trigger::Load => 6,
            Trigger::SpawnOrLoad => 7,
            Trigger::Death => 8,
            Trigger::Timer => 9,
            Trigger::Interact => 10,
            Trigger::PlayerKill => 11,
            Trigger::EnterCombat => 12,
            Trigger::DropCombat => 13,
            Trigger::ChangeTarget => 14,
            Trigger::Explode => 15,
            Trigger::Prime => 16,
            Trigger::CreeperCharge => 17,
            Trigger::Teleport => 18,
            Trigger::Signal => 19,
            Trigger::Shoot => 20,
            Trigger::BowHit => 21,
            Trigger::Tame => 22,
            Trigger::Breed => 23,
            Trigger::Trade => 24,
            Trigger::ChangeWorld => 25,
            Trigger::Bucket => 26,
            Trigger::SkillDamage => 27,
            Trigger::Hear => 28,
            Trigger::ProjectileHit => 29,
            Trigger::ProjectileLand => 30,
            Trigger::Unset => 31,
        }
    }

    /// Every trigger, in catalogue order.
    pub open spec fn all() -> Seq<Trigger> {
        Seq::new(Trigger::count() as nat, |i: int| Trigger::at(i))
    }

    /// The name of the event as the token holds it; nothing where no trigger
    /// is set.
    pub open spec fn event_text(self) -> Seq<char> {
        match self {
            Trigger::Combat => "Combat"@,
            Trigger::Attack => "Attack"@,
            Trigger::Damaged => "Damaged"@,
            Trigger::Spawn => "Spawn"@,
            Trigger::Despawn => "Despawn"@,
            Trigger::Ready => "Ready"@,
            Trigger::Load => "Load"@,
            Trigger::SpawnOrLoad => "SpawnOrLoad"@,
            Trigger::Death => "Death"@,
            Trigger::Timer => "Timer"@,
            Trigger::Interact => "Interact"@,
            Trigger::PlayerKill => "PlayerKill"@,
            Trigger::EnterCombat => "EnterCombat"@,
            Trigger::DropCombat => "DropCombat"@,
            Trigger::ChangeTarget => "ChangeTarget"@,
            Trigger::Explode => "Explode"@,
            Trigger::Prime => "Prime"@,
            Trigger::CreeperCharge => "CreeperCharge"@,
            Trigger::Teleport => "Teleport"@,
            Trigger::Signal => "Signal"@,
            Trigger::Shoot => "Shoot"@,
            Trigger::BowHit => "BowHit"@,
            Trigger::Tame => "Tame"@,
            Trigger::Breed => "Breed"@,
            Trigger::Trade => "Trade"@,
            Trigger::ChangeWorld => "ChangeWorld"@,
            Trigger::Bucket => "Bucket"@,
            Trigger::SkillDamage => "SkillDamage"@,
            Trigger::Hear => "Hear"@,
            Trigger::ProjectileHit => "ProjectileHit"@,
            Trigger::ProjectileLand => "ProjectileLand"@,
            Trigger::Unset => ""@,
        }
    }

    /// The name of the trigger, for display.
    pub open spec fn label(self) -> Seq<char> {
        match self {
            Trigger::Combat => "Combat"@,
            Trigger::Attack => "Attack"@,
            Trigger::Damaged => "Damaged"@,
            Trigger::Spawn => "Spawn"@,
            Trigger::Despawn => "Despawn"@,
            Trigger::Ready => "Ready"@,
            Trigger::Load => "Load"@,
            Trigger::SpawnOrLoad => "Spawn Or Load"@,
            Trigger::Death => "Death"@,
            Trigger::Timer => "Timer"@,
            Trigger::Interact => "Interact"@,
            Trigger::PlayerKill => "Player Kill"@,
            Trigger::EnterCombat => "Enter Combat"@,
            Trigger::DropCombat => "Drop Combat"@,
            Trigger::ChangeTarget => "Change Target"@,
            Trigger::Explode => "Explode"@,
            Trigger::Prime => "Prime"@,
            Trigger::CreeperCharge => "Creeper Charge"@,
            Trigger::Teleport => "Teleport"@,
            Trigger::Signal => "Signal"@,
            Trigger::Shoot => "Shoot"@,
            Trigger::BowHit => "Bow Hit"@,
            Trigger::Tame => "Tame"@,
            Trigger::Breed => "Breed"@,
            Trigger::Trade => "Trade"@,
            Trigger::ChangeWorld => "Change World"@,
            Trigger::Bucket => "Bucket"@,
            Trigger::SkillDamage => "Skill Damage"@,
            Trigger::Hear => "Hear"@,
            Trigger::ProjectileHit => "Projectile Hit"@,
            Trigger::ProjectileLand => "Projectile Land"@,
            Trigger::Unset => "None"@,
        }
    }

    /// Every trigger has one place in the catalogue.
    pub proof fn lemma_ordinal(v: Trigger)
        ensures
            0 <= v.ordinal() < Trigger::count(),
            Trigger::at(v.ordinal()) == v,
            Trigger::all()[v.ordinal()] == v,
    {
    }

    /// Every place of the catalogue holds another trigger.
    pub proof fn lemma_at(i: int)
        requires
            0 <= i < Trigger::count(),
        ensures
            Trigger::at(i).ordinal() == i,
    {
    }

    /// The text of a trigger is empty where none is set, and only there; the
    /// text of any other begins with `~on`.
    pub proof fn lemma_text_marker(self)
        ensures
            self == Trigger::Unset <==> self.text().len() == 0,
            self != Trigger::Unset ==> self.text().len() >= 3 && self.text().subrange(0, 3)
                == seq!['~', 'o', 'n'],
    {
        reveal_strlit("~on");
        if self != Trigger::Unset {
            assert(self.text().subrange(0, 3) =~= seq!['~', 'o', 'n']);
        }
    }

    /// Returns the name of the event as the token holds it.
    fn event(&self) -> (name: &'static str)
        ensures
            name@ == self.event_text(),
    {
        match self {
            Trigger::Combat => "Combat",
            Trigger::Attack => "Attack",
            Trigger::Damaged => "Damaged",
            Trigger::Spawn => "Spawn",
            Trigger::Despawn => "Despawn",
            Trigger::Ready => "Ready",
            Trigger::Load => "Load",
            Trigger::SpawnOrLoad => "SpawnOrLoad",
            Trigger::Death => "Death",
            Trigger::Timer => "Timer",
            Trigger::Interact => "Interact",
            Trigger::PlayerKill => "PlayerKill",
            Trigger::EnterCombat => "EnterCombat",
            Trigger::DropCombat => "DropCombat",
            Trigger::ChangeTarget => "ChangeTarget",
            Trigger::Explode => "Explode",
            Trigger::Prime => "Prime",
            Trigger::CreeperCharge => "CreeperCharge",
            Trigger::Teleport => "Teleport",
            Trigger::Signal => "Signal",
            Trigger::Shoot => "Shoot",
            Trigger::BowHit => "BowHit",
            Trigger::Tame => "Tame",
            Trigger::Breed => "Breed",
            Trigger::Trade => "Trade",
            Trigger::ChangeWorld => "ChangeWorld",
            Trigger::Bucket => "Bucket",
            Trigger::SkillDamage => "SkillDamage",
            Trigger::Hear => "Hear",
            Trigger::ProjectileHit => "ProjectileHit",
            Trigger::ProjectileLand => "ProjectileLand",
            Trigger::Unset => "",
        }
    }

    /// Returns the name of the trigger, for display. It is never empty.
    pub fn get_fields(&self) -> (label: &'static str)
        ensures
            label@ == self.label(),
            label@.len() > 0,
    {
        proof {
            reveal_strlit("Combat");
            reveal_strlit("Attack");
            reveal_strlit("Damaged");
            reveal_strlit("Spawn");
            reveal_strlit("Despawn");
            reveal_strlit("Ready");
            reveal_strlit("Load");
            reveal_strlit("Spawn Or Load");
            reveal_strlit("Death");
            reveal_strlit("Timer");
            reveal_strlit("Interact");
            reveal_strlit("Player Kill");
            reveal_strlit("Enter Combat");
            reveal_strlit("Drop Combat");
            reveal_strlit("Change Target");
            reveal_strlit("Explode");
            reveal_strlit("Prime");
            reveal_strlit("Creeper Charge");
            reveal_strlit("Teleport");
            reveal_strlit("Signal");
            reveal_strlit("Shoot");
            reveal_strlit("Bow Hit");
            reveal_strlit("Tame");
            reveal_strlit("Breed");
            reveal_strlit("Trade");
            reveal_strlit("Change World");
            reveal_strlit("Bucket");
            reveal_strlit("Skill Damage");
            reveal_strlit("Hear");
            reveal_strlit("Projectile Hit");
            reveal_strlit("Projectile Land");
            reveal_strlit("None");
        }
        match self {
            Trigger::Combat => "Combat",
            Trigger::Attack => "Attack",
            Trigger::Damaged => "Damaged",
            Trigger::Spawn => "Spawn",
            Trigger::Despawn => "Despawn",
            Trigger::Ready => "Ready",
            Trigger::Load => "Load",
            Trigger::SpawnOrLoad => "Spawn Or Load",
            Trigger::Death => "Death",
            Trigger::Timer => "Timer",
            Trigger::Interact => "Interact",
            Trigger::PlayerKill => "Player Kill",
            Trigger::EnterCombat => "Enter Combat",
            Trigger::DropCombat => "Drop Combat",
            Trigger::ChangeTarget => "Change Target",
            Trigger::Explode => "Explode",
            Trigger::Prime => "Prime",
            Trigger::CreeperCharge => "Creeper Charge",
            Trigger::Teleport => "Teleport",
            Trigger::Signal => "Signal",
            Trigger::Shoot => "Shoot",
            Trigger::BowHit => "Bow Hit",
            Trigger::Tame => "Tame",
            Trigger::Breed => "Breed",
            Trigger::Trade => "Trade",
            Trigger::ChangeWorld => "Change World",
            Trigger::Bucket => "Bucket",
            Trigger::SkillDamage => "Skill Damage",
            Trigger::Hear => "Hear",
            Trigger::ProjectileHit => "Projectile Hit",
            Trigger::ProjectileLand => "Projectile Land",
            Trigger::Unset => "None",
        }
    }

    /// Returns the trigger at place `i` of the catalogue.
    pub fn from_ordinal(i: usize) -> (v: Trigger)
        requires
            i < Trigger::count(),
        ensures
            v == Trigger::at(i as int),
    {
        match i {
            0 => Trigger::Combat,
            1 => Trigger::Attack,
            2 => Trigger::Damaged,
            3 => Trigger::Spawn,
            4 => Trigger::Despawn,
            5 => Trigger::Ready,
            6 => Trigger::Load,
            7 => Trigger::SpawnOrLoad,
            8 => Trigger::Death,
            9 => Trigger::Timer,
            10 => Trigger::Interact,
            11 => Trigger::PlayerKill,
            12 => Trigger::EnterCombat,
            13 => Trigger::DropCombat,
            14 => Trigger::ChangeTarget,
            15 => Trigger::Explode,
            16 => Trigger::Prime,
            17 => Trigger::CreeperCharge,
            18 => Trigger::Teleport,
            19 => Trigger::Signal,
            20 => Trigger::Shoot,
            21 => Trigger::BowHit,
            22 => Trigger::Tame,
            23 => Trigger::Breed,
            24 => Trigger::Trade,
            25 => Trigger::ChangeWorld,
            26 => Trigger::Bucket,
            27 => Trigger::SkillDamage,
            28 => Trigger::Hear,
            29 => Trigger::ProjectileHit,
            30 => Trigger::ProjectileLand,
            _ => Trigger::Unset,
        }
    }

    /// Lists every trigger, in catalogue order.
    pub fn variants() -> (all: Vec<Trigger>)
        ensures
            all@ == Trigger::all(),
    {
        let mut all: Vec<Trigger> = Vec::new();
        let mut i: usize = 0;
        while i < 32
            invariant
                i <= Trigger::count(),
                all@.len() == i,
                forall|j: int| 0 <= j < i ==> all@[j] == Trigger::at(j),
            decreases Trigger::count() - i,
        {
            all.push(Trigger::from_ordinal(i));
            i = i + 1;
        }
        assert(all@ =~= Trigger::all());
        all
    }
}

impl Render for Trigger {
    /// Nothing where no trigger is set; else the marker `~on` and the name of
    /// the event.
    open spec fn text(&self) -> Seq<char> {
        if *self == Trigger::Unset {
            Seq::empty()
        } else {
            "~on"@ + self.event_text()
        }
    }

    fn render(&self) -> (out: String) {
        match self {
            Trigger::Unset => String::new(),
            _ => {
                let mut out = String::from_str("~on");
                out.append(self.event());
                out
            },
        }
    }
}

impl Default for Trigger {
    /// A skill starts without a trigger.
    fn default() -> (r: Trigger)
        ensures
            r == Trigger::Unset,
    {
        Trigger::Unset
    }
}

} // verus!
