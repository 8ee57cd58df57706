//! Targeters: which entities or places a mechanic acts on.

use vstd::prelude::*;
use vstd::std_specs::convert::FromSpecImpl;
use vstd::string::StringExecFns;
use crate::text::Render;

verus! {

/// What a mechanic acts on: one entity, several entities, the threat table,
/// or nothing that the line names.
///
/// The choice has two levels: the family, and inside the two entity families
/// the targeter itself.
#[derive(Clone, Copy, Debug, PartialEq, Eq)]
pub enum Targeter {
    /// A targeter that picks one entity.
    SingleEntity(SingleEntityTarget),
    /// A targeter that picks several entities.
    MultyEntity(MultyEntity),
    /// The threat table of the caster.
    ThreatTable,
    /// No targeter: the line names none.
    Unset,
}

impl Targeter {
    /// The number of families.
    pub open spec fn count() -> int {
        4
    }

    /// The place of the targeter's family among the families.
    pub open spec fn ordinal(self) -> int {
        match self {
            Targeter::SingleEntity(_) => 0,
            Targeter::MultyEntity(_) => 1,
            Targeter::ThreatTable => 2,
            Targeter::Unset => 3,
        }
    }

    /// The targeter that the family at place `i` starts with: for the entity
    /// families the one that the family defaults to.
    pub open spec fn at(i: int) -> Targeter {
        if i == 0 {
            Targeter::SingleEntity(SingleEntityTarget::SelfTarget)
        } else if i == 1 {
            Targeter::MultyEntity(MultyEntity::PlayersInRadius)
        } else if i == 2 {
            Targeter::ThreatTable
        } else {
            Targeter::Unset
        }
    }

    /// One targeter of each family, in order.
    pub open spec fn all() -> Seq<Targeter> {
        Seq::new(Targeter::count() as nat, |i: int| Targeter::at(i))
    }

    /// The name of the targeter's family, for display.
    pub open spec fn label(self) -> Seq<char> {
        match self {
            Targeter::SingleEntity(_) => "Single Entity"@,
            Targeter::MultyEntity(_) => "Multi Entity"@,
            Targeter::ThreatTable => "Threat Table"@,
            Targeter::Unset => "None"@,
        }
    }

    /// Every family has one place, and the targeter that a family starts with
    /// belongs to it.
    pub proof fn lemma_families(self)
        ensures
            0 <= self.ordinal() < Targeter::count(),
            Targeter::at(self.ordinal()).ordinal() == self.ordinal(),
            forall|i: int| 0 <= i < Targeter::count() ==> Targeter::at(i).ordinal() == i,
    {
    }

    /// The text of a targeter is empty where none is set, and only there.
    pub proof fn lemma_text_empty(self)
        ensures
            self == Targeter::Unset <==> self.text().len() == 0,
    {
        reveal_strlit("ThreatTable");
        reveal_strlit("@Self");
        reveal_strlit("@Target");
        reveal_strlit("@Trigger");
        reveal_strlit("@NearestPlayer");
        reveal_strlit("@WolfOwner");
        reveal_strlit("@Owner");
        reveal_strlit("@Parent");
        reveal_strlit("@Mount");
        reveal_strlit("@Father");
        reveal_strlit("@Mother");
        reveal_strlit("@Passenger");
        reveal_strlit("@PlayerByName");
        reveal_strlit("@UniqueIdentifier");
        reveal_strlit("@Vehicle");
        reveal_strlit("@InteractionLastAttacker");
        reveal_strlit("@InteractionLastInteract");
        reveal_strlit("@OwnerLocation");
        reveal_strlit("@ParentLocation");
        reveal_strlit("@LivingInCone");
        reveal_strlit("@LivingInWorld");
        reveal_strlit("@NotLivingNearOrigin");
        reveal_strlit("@PlayersInRadius");
        reveal_strlit("@MobsInradius");
        reveal_strlit("@EntitiesInRadius");
        reveal_strlit("@EntitiesInRing");
        reveal_strlit("@EntitiesInRingNearOrigin");
        reveal_strlit("@PlayersInWorld");
        reveal_strlit("@PlayersOnServer");
        reveal_strlit("@PlayersInRing");
        reveal_strlit("@PlayersNearOrigin");
        reveal_strlit("@TrackerPlayers");
        reveal_strlit("@MobsNearOrigin");
        reveal_strlit("@EntitiesNearOrigin");
        reveal_strlit("@Children");
        reveal_strlit("@Siblings");
        reveal_strlit("@ItemsNearOrigin");
        reveal_strlit("@ItemsInRadius");
    }

    /// Returns the name of the targeter's family, for display.
    pub fn get_fields(&self) -> (label: &'static str)
        ensures
            label@ == self.label(),
            label@.len() > 0,
    {
        proof {
            reveal_strlit("Single Entity");
            reveal_strlit("Multi Entity");
            reveal_strlit("Threat Table");
            reveal_strlit("None");
        }
        match self {
            Targeter::SingleEntity(_) => "Single Entity",
            Targeter::MultyEntity(_) => "Multi Entity",
            Targeter::ThreatTable => "Threat Table",
            Targeter::Unset => "None",
        }
    }

    /// Lists one targeter of each family, in order, each as the family starts.
    pub fn variants() -> (all: Vec<Targeter>)
        ensures
            all@ == Targeter::all(),
    {
        let mut all: Vec<Targeter> = Vec::new();
        all.push(Targeter::SingleEntity(SingleEntityTarget::SelfTarget));
        all.push(Targeter::MultyEntity(MultyEntity::PlayersInRadius));
        all.push(Targeter::ThreatTable);
        all.push(Targeter::Unset);
        assert(all@ =~= Targeter::all());
        all
    }

    /// Switches to the family of `choice`. The targeter that was chosen
    /// before is given up, whatever its family was: afterwards the targeter is
    /// the one that the new family starts with.
    pub fn switch_family(&mut self, choice: &Targeter)
        ensures
            *final(self) == Targeter::at(choice.ordinal()),
            final(self).ordinal() == choice.ordinal(),
    {
        *self = match choice {
            Targeter::SingleEntity(_) => Targeter::SingleEntity(SingleEntityTarget::SelfTarget),
            Targeter::MultyEntity(_) => Targeter::MultyEntity(MultyEntity::PlayersInRadius),
            Targeter::ThreatTable => Targeter::ThreatTable,
            Targeter::Unset => Targeter::Unset,
        };
    }
}

impl Render for Targeter {
    /// The token of the targeter; nothing where none is set.
    open spec fn text(&self) -> Seq<char> {
        match self {
            Targeter::SingleEntity(target) => target.text(),
            Targeter::MultyEntity(targets) => targets.text(),
            Targeter::ThreatTable => "ThreatTable"@,
            Targeter::Unset => Seq::empty(),
        }
    }

    fn render(&self) -> (out: String) {
        match self {
            Targeter::SingleEntity(target) => target.render(),
            Targeter::MultyEntity(targets) => targets.render(),
            Targeter::ThreatTable => String::from_str("ThreatTable"),
            Targeter::Unset => String::new(),
        }
    }
}

impl Default for Targeter {
    /// A skill starts without a targeter.
    fn default() -> (r: Targeter)
        ensures
            r == Targeter::Unset,
    {
        Targeter::Unset
    }
}

impl From<SingleEntityTarget> for Targeter {
    fn from(value: SingleEntityTarget) -> (r: Targeter) {
        Targeter::SingleEntity(value)
    }
}

impl FromSpecImpl<SingleEntityTarget> for Targeter {
    open spec fn obeys_from_spec() -> bool {
        true
    }

    open spec fn from_spec(value: SingleEntityTarget) -> Targeter {
        Targeter::SingleEntity(value)
    }
}

impl From<MultyEntity> for Targeter {
    fn from(value: MultyEntity) -> (r: Targeter) {
        Targeter::MultyEntity(value)
    }
}

impl FromSpecImpl<MultyEntity> for Targeter {
    open spec fn obeys_from_spec() -> bool {
        true
    }

    open spec fn from_spec(value: MultyEntity) -> Targeter {
        Targeter::MultyEntity(value)
    }
}

/// The targeters that pick one entity.
#[derive(Clone, Copy, Debug, PartialEq, Eq)]
pub enum SingleEntityTarget {
    /// Targets the caster of the mechanic
    SelfTarget,
    /// Targets the caster's target
    Target,
    /// Targets the entity that triggered the skill
    Trigger,
    /// Targets the nearest player in radius
    NearestPlayer,
    /// Targets the owner of the wolf
    WolfOwner,
    /// Targets the
    /// [owner](https://git.mythiccraft.io/mythiccraft/MythicMobs/-/wikis/skills/mechanics/setowner)
    /// of the mob
    Owner,
    /// Targets the
    /// [parent](https://git.mythiccraft.io/mythiccraft/MythicMobs/-/wikis/skills/mechanics/setparent)
    /// of the mob
    Parent,
    /// Targets the caster's original
    /// [mount](https://git.mythiccraft.io/mythiccraft/MythicMobs/-/wikis/Mobs/Mobs#mount)
    Mount,
    /// Targets the father of the casting mob.
    Father,
    /// Targets the mother of the casting mob.
    Mother,
    /// Targets the rider of the casting
    Passenger,
    /// Targets a specific player by name. Supports placeholders
    PlayerByName,
    /// Targets a specific entity by their UUID, supports placeholders
    UniqueIdentifier,
    /// Targets the caster's vehicle
    Vehicle,
    /// Targets the last entity that attacked the casting INTERACTION entity
    InteractionLastAttacker,
    /// Targets the last entity that interacted with the casting INTERACTION entity
    InteractionLastInteract,
    /// Targets the position of the owner of the mob
    OwnerLocation,
    /// Targets the position of the parent of the mob
    ParentLocation,
}

impl SingleEntityTarget {
    /// The number of variants.
    pub open spec fn count() -> int {
        18
    }

    /// The variant at place `i` of the catalogue.
    pub open spec fn at(i: int) -> SingleEntityTarget {
        if i == 0 {
            SingleEntityTarget::SelfTarget
        } else if i == 1 {
            SingleEntityTarget::Target
        } else if i == 2 {
            SingleEntityTarget::Trigger
        } else if i == 3 {
            SingleEntityTarget::NearestPlayer
        } else if i == 4 {
            SingleEntityTarget::WolfOwner
        } else if i == 5 {
            SingleEntityTarget::Owner
        } else if i == 6 {
            SingleEntityTarget::Parent
        } else if i == 7 {
            SingleEntityTarget::Mount
        } else if i == 8 {
            SingleEntityTarget::Father
        } else if i == 9 {
            SingleEntityTarget::Mother
        } else if i == 10 {
            SingleEntityTarget::Passenger
        } else if i == 11 {
            SingleEntityTarget::PlayerByName
        } else if i == 12 {
            SingleEntityTarget::UniqueIdentifier
        } else if i == 13 {
            SingleEntityTarget::Vehicle
        } else if i == 14 {
            SingleEntityTarget::InteractionLastAttacker
        } else if i == 15 {
            SingleEntityTarget::InteractionLastInteract
        } else if i == 16 {
            SingleEntityTarget::OwnerLocation
        } else {
            SingleEntityTarget::ParentLocation
        }
    }

    /// The place of the variant in the catalogue.
    pub open spec fn ordinal(self) -> int {
        match self {
            SingleEntityTarget::SelfTarget => 0,
            SingleEntityTarget::Target => 1,
            SingleEntityTarget::Trigger => 2,
            SingleEntityTarget::NearestPlayer => 3,
            SingleEntityTarget::WolfOwner => 4,
            SingleEntityTarget::Owner => 5,
            SingleEntityTarget::Parent => 6,
            SingleEntityTarget::Mount => 7,
            SingleEntityTarget::Father => 8,
            SingleEntityTarget::Mother => 9,
            SingleEntityTarget::Passenger => 10,
            SingleEntityTarget::PlayerByName => 11,
            SingleEntityTarget::UniqueIdentifier => 12,
            SingleEntityTarget::Vehicle => 13,
            SingleEntityTarget::InteractionLastAttacker => 14,
            SingleEntityTarget::InteractionLastInteract => 15,
            SingleEntityTarget::OwnerLocation => 16,
            SingleEntityTarget::ParentLocation => 17,
        }
    }

    /// Every variant, in catalogue order.
    pub open spec fn all() -> Seq<SingleEntityTarget> {
        Seq::new(SingleEntityTarget::count() as nat, |i: int| SingleEntityTarget::at(i))
    }

    /// Every variant has one place in the catalogue.
    pub proof fn lemma_ordinal(v: SingleEntityTarget)
        ensures
            0 <= v.ordinal() < SingleEntityTarget::count(),
            SingleEntityTarget::at(v.ordinal()) == v,
            SingleEntityTarget::all()[v.ordinal()] == v,
    {
    }

    /// Every place of the catalogue holds another variant.
    pub proof fn lemma_at(i: int)
        requires
            0 <= i < SingleEntityTarget::count(),
        ensures
            SingleEntityTarget::at(i).ordinal() == i,
    {
    }

    /// Returns the variant at place `i` of the catalogue.
    pub fn from_ordinal(i: usize) -> (v: SingleEntityTarget)
        requires
            i < SingleEntityTarget::count(),
        ensures
            v == SingleEntityTarget::at(i as int),
    {
        match i {
            0 => SingleEntityTarget::SelfTarget,
            1 => SingleEntityTarget::Target,
            2 => SingleEntityTarget::Trigger,
            3 => SingleEntityTarget::NearestPlayer,
            4 => SingleEntityTarget::WolfOwner,
            5 => SingleEntityTarget::Owner,
            6 => SingleEntityTarget::Parent,
            7 => SingleEntityTarget::Mount,
            8 => SingleEntityTarget::Father,
            9 => SingleEntityTarget::Mother,
            10 => SingleEntityTarget::Passenger,
            11 => SingleEntityTarget::PlayerByName,
            12 => SingleEntityTarget::UniqueIdentifier,
            13 => SingleEntityTarget::Vehicle,
            14 => SingleEntityTarget::InteractionLastAttacker,
            15 => SingleEntityTarget::InteractionLastInteract,
            16 => SingleEntityTarget::OwnerLocation,
            _ => SingleEntityTarget::ParentLocation,
        }
    }

    /// Lists every variant, in catalogue order.
    pub fn variants() -> (all: Vec<SingleEntityTarget>)
        ensures
            all@ == SingleEntityTarget::all(),
    {
        let mut all: Vec<SingleEntityTarget> = Vec::new();
        let mut i: usize = 0;
        while i < 18
            invariant
                i <= SingleEntityTarget::count(),
                all@.len() == i,
                forall|j: int| 0 <= j < i ==> all@[j] == SingleEntityTarget::at(j),
            decreases SingleEntityTarget::count() - i,
        {
            all.push(SingleEntityTarget::from_ordinal(i));
            i = i + 1;
        }
        assert(all@ =~= SingleEntityTarget::all());
        all
    }
}

impl Render for SingleEntityTarget {
    open spec fn text(&self) -> Seq<char> {
        match self {
            SingleEntityTarget::SelfTarget => "@Self"@,
            SingleEntityTarget::Target => "@Target"@,
            SingleEntityTarget::Trigger => "@Trigger"@,
            SingleEntityTarget::NearestPlayer => "@NearestPlayer"@,
            SingleEntityTarget::WolfOwner => "@WolfOwner"@,
            SingleEntityTarget::Owner => "@Owner"@,
            SingleEntityTarget::Parent => "@Parent"@,
            SingleEntityTarget::Mount => "@Mount"@,
            SingleEntityTarget::Father => "@Father"@,
            SingleEntityTarget::Mother => "@Mother"@,
            SingleEntityTarget::Passenger => "@Passenger"@,
            SingleEntityTarget::PlayerByName => "@PlayerByName"@,
            SingleEntityTarget::UniqueIdentifier => "@UniqueIdentifier"@,
            SingleEntityTarget::Vehicle => "@Vehicle"@,
            SingleEntityTarget::InteractionLastAttacker => "@InteractionLastAttacker"@,
            SingleEntityTarget::InteractionLastInteract => "@InteractionLastInteract"@,
            SingleEntityTarget::OwnerLocation => "@OwnerLocation"@,
            SingleEntityTarget::ParentLocation => "@ParentLocation"@,
        }
    }

    fn render(&self) -> (out: String) {
        match self {
            SingleEntityTarget::SelfTarget => String::from_str("@Self"),
            SingleEntityTarget::Target => String::from_str("@Target"),
            SingleEntityTarget::Trigger => String::from_str("@Trigger"),
            SingleEntityTarget::NearestPlayer => String::from_str("@NearestPlayer"),
            SingleEntityTarget::WolfOwner => String::from_str("@WolfOwner"),
            SingleEntityTarget::Owner => String::from_str("@Owner"),
            SingleEntityTarget::Parent => String::from_str("@Parent"),
            SingleEntityTarget::Mount => String::from_str("@Mount"),
            SingleEntityTarget::Father => String::from_str("@Father"),
            SingleEntityTarget::Mother => String::from_str("@Mother"),
            SingleEntityTarget::Passenger => String::from_str("@Passenger"),
            SingleEntityTarget::PlayerByName => String::from_str("@PlayerByName"),
            SingleEntityTarget::UniqueIdentifier => String::from_str("@UniqueIdentifier"),
            SingleEntityTarget::Vehicle => String::from_str("@Vehicle"),
            SingleEntityTarget::InteractionLastAttacker => String::from_str("@InteractionLastAttacker"),
            SingleEntityTarget::InteractionLastInteract => String::from_str("@InteractionLastInteract"),
            SingleEntityTarget::OwnerLocation => String::from_str("@OwnerLocation"),
            SingleEntityTarget::ParentLocation => String::from_str("@ParentLocation"),
        }
    }
}

impl Default for SingleEntityTarget {
    fn default() -> (r: SingleEntityTarget)
        ensures
            r == SingleEntityTarget::SelfTarget,
    {
        SingleEntityTarget::SelfTarget
    }
}

/// The targeters that pick several entities.
#[derive(Clone, Copy, Debug, PartialEq, Eq)]
pub enum MultyEntity {
    /// Targets all living entities in cone with a specified angle, length and rotation relative to
    /// facing direction
    LivingInCone,
    /// Targets all living entities in the caster's world
    LivingInWorld,
    /// Targets all non living entities in a radius near the origin
    NotLivingNearOrigin,
    /// Targets all players in the given radius
    PlayersInRadius,
    /// Targets all mythicmobs or vanilla overrides of the given type in a radius
    MobsInRadius,
    /// Targets all entities in the given radius
    EntitiesInRadius,
    /// Targets all entities in the given ring.
    EntitiesInRing,
    /// Targets all entities in the given ring around the origin.
    EntitiesInRingNearOrigin,
    /// Targets all players in the current world.
    PlayerInWorld,
    /// Targets all players in the server
    PlayersOnServer,
    /// Target all players between the specified min and max radius.
    PlayersInRing,
    /// Targets players near the
    /// [origin](https://git.mythiccraft.io/mythiccraft/MythicMobs/-/wikis/skills/targeters/origin)
    /// of a meta-skill.
    PlayersNearOrigin,
    /// Targets players that are within the render distance of the caster
    TrackedPlayers,
    /// Targets all MythicMobs or vanilla overrides of the given type(s) in a radius around the
    /// origin
    MobsNearOrigin,
    /// Targets all entities near the
    /// [origin](https://git.mythiccraft.io/mythiccraft/MythicMobs/-/wikis/skills/targeters/origin)
    /// of a meta-skill
    EntitiesNearOrigin,
    /// Targets any child entities summoned by the caster.
    Children,
    /// Targets any mobs that share the same parent as the caster.
    Siblings,
    /// Targets item drops near the
    /// [origin](https://git.mythiccraft.io/mythiccraft/MythicMobs/-/wikis/skills/targeters/origin)
    /// of a meta-skill.
    ItemsNearOrigin,
    /// Targets all item drops in the given radius
    ItemsInRadius,
}

impl MultyEntity {
    /// The number of variants.
    pub open spec fn count() -> int {
        19
    }

    /// The variant at place `i` of the catalogue.
    pub open spec fn at(i: int) -> MultyEntity {
        if i == 0 {
            MultyEntity::LivingInCone
        } else if i == 1 {
            MultyEntity::LivingInWorld
        } else if i == 2 {
            MultyEntity::NotLivingNearOrigin
        } else if i == 3 {
            MultyEntity::PlayersInRadius
        } else if i == 4 {
            MultyEntity::MobsInRadius
        } else if i == 5 {
            MultyEntity::EntitiesInRadius
        } else if i == 6 {
            MultyEntity::EntitiesInRing
        } else if i == 7 {
            MultyEntity::EntitiesInRingNearOrigin
        } else if i == 8 {
            MultyEntity::PlayerInWorld
        } else if i == 9 {
            MultyEntity::PlayersOnServer
        } else if i == 10 {
            MultyEntity::PlayersInRing
        } else if i == 11 {
            MultyEntity::PlayersNearOrigin
        } else if i == 12 {
            MultyEntity::TrackedPlayers
        } else if i == 13 {
            MultyEntity::MobsNearOrigin
        } else if i == 14 {
            MultyEntity::EntitiesNearOrigin
        } else if i == 15 {
            MultyEntity::Children
        } else if i == 16 {
            MultyEntity::Siblings
        } else if i == 17 {
            MultyEntity::ItemsNearOrigin
        } else {
            MultyEntity::ItemsInRadius
        }
    }

    /// The place of the variant in the catalogue.
    pub open spec fn ordinal(self) -> int {
        match self {
            MultyEntity::LivingInCone => 0,
            MultyEntity::LivingInWorld => 1,
            MultyEntity::NotLivingNearOrigin => 2,
            MultyEntity::PlayersInRadius => 3,
            MultyEntity::MobsInRadius => 4,
            MultyEntity::EntitiesInRadius => 5,
            MultyEntity::EntitiesInRing => 6,
            MultyEntity::EntitiesInRingNearOrigin => 7,
            MultyEntity::PlayerInWorld => 8,
            MultyEntity::PlayersOnServer => 9,
            MultyEntity::PlayersInRing => 10,
            MultyEntity::PlayersNearOrigin => 11,
            MultyEntity::TrackedPlayers => 12,
            MultyEntity::MobsNearOrigin => 13,
            MultyEntity::EntitiesNearOrigin => 14,
            MultyEntity::Children => 15,
            MultyEntity::Siblings => 16,
            MultyEntity::ItemsNearOrigin => 17,
            MultyEntity::ItemsInRadius => 18,
        }
    }

    /// Every variant, in catalogue order.
    pub open spec fn all() -> Seq<MultyEntity> {
        Seq::new(MultyEntity::count() as nat, |i: int| MultyEntity::at(i))
    }

    /// Every variant has one place in the catalogue.
    pub proof fn lemma_ordinal(v: MultyEntity)
        ensures
            0 <= v.ordinal() < MultyEntity::count(),
            MultyEntity::at(v.ordinal()) == v,
            MultyEntity::all()[v.ordinal()] == v,
    {
    }

    /// Every place of the catalogue holds another variant.
    pub proof fn lemma_at(i: int)
        requires
            0 <= i < MultyEntity::count(),
        ensures
            MultyEntity::at(i).ordinal() == i,
    {
    }

    /// Returns the variant at place `i` of the catalogue.
    pub fn from_ordinal(i: usize) -> (v: MultyEntity)
        requires
            i < MultyEntity::count(),
        ensures
            v == MultyEntity::at(i as int),
    {
        match i {
            0 => MultyEntity::LivingInCone,
            1 => MultyEntity::LivingInWorld,
            2 => MultyEntity::NotLivingNearOrigin,
            3 => MultyEntity::PlayersInRadius,
            4 => MultyEntity::MobsInRadius,
            5 => MultyEntity::EntitiesInRadius,
            6 => MultyEntity::EntitiesInRing,
            7 => MultyEntity::EntitiesInRingNearOrigin,
            8 => MultyEntity::PlayerInWorld,
            9 => MultyEntity::PlayersOnServer,
            10 => MultyEntity::PlayersInRing,
            11 => MultyEntity::PlayersNearOrigin,
            12 => MultyEntity::TrackedPlayers,
            13 => MultyEntity::MobsNearOrigin,
            14 => MultyEntity::EntitiesNearOrigin,
            15 => MultyEntity::Children,
            16 => MultyEntity::Siblings,
            17 => MultyEntity::ItemsNearOrigin,
            _ => MultyEntity::ItemsInRadius,
        }
    }

    /// Lists every variant, in catalogue order.
    pub fn variants() -> (all: Vec<MultyEntity>)
        ensures
            all@ == MultyEntity::all(),
    {
        let mut all: Vec<MultyEntity> = Vec::new();
        let mut i: usize = 0;
        while i < 19
            invariant
                i <= MultyEntity::count(),
                all@.len() == i,
                forall|j: int| 0 <= j < i ==> all@[j] == MultyEntity::at(j),
            decreases MultyEntity::count() - i,
        {
            all.push(MultyEntity::from_ordinal(i));
            i = i + 1;
        }
        assert(all@ =~= MultyEntity::all());
        all
    }
}

impl Render for MultyEntity {
    open spec fn text(&self) -> Seq<char> {
        match self {
            MultyEntity::LivingInCone => "@LivingInCone"@,
            MultyEntity::LivingInWorld => "@LivingInWorld"@,
            MultyEntity::NotLivingNearOrigin => "@NotLivingNearOrigin"@,
            MultyEntity::PlayersInRadius => "@PlayersInRadius"@,
            MultyEntity::MobsInRadius => "@MobsInradius"@,
            MultyEntity::EntitiesInRadius => "@EntitiesInRadius"@,
            MultyEntity::EntitiesInRing => "@EntitiesInRing"@,
            MultyEntity::EntitiesInRingNearOrigin => "@EntitiesInRingNearOrigin"@,
            MultyEntity::PlayerInWorld => "@PlayersInWorld"@,
            MultyEntity::PlayersOnServer => "@PlayersOnServer"@,
            MultyEntity::PlayersInRing => "@PlayersInRing"@,
            MultyEntity::PlayersNearOrigin => "@PlayersNearOrigin"@,
            MultyEntity::TrackedPlayers => "@TrackerPlayers"@,
            MultyEntity::MobsNearOrigin => "@MobsNearOrigin"@,
            MultyEntity::EntitiesNearOrigin => "@EntitiesNearOrigin"@,
            MultyEntity::Children => "@Children"@,
            MultyEntity::Siblings => "@Siblings"@,
            MultyEntity::ItemsNearOrigin => "@ItemsNearOrigin"@,
            MultyEntity::ItemsInRadius => "@ItemsInRadius"@,
        }
    }

    fn render(&self) -> (out: String) {
        match self {
            MultyEntity::LivingInCone => String::from_str("@LivingInCone"),
            MultyEntity::LivingInWorld => String::from_str("@LivingInWorld"),
            MultyEntity::NotLivingNearOrigin => String::from_str("@NotLivingNearOrigin"),
            MultyEntity::PlayersInRadius => String::from_str("@PlayersInRadius"),
            MultyEntity::MobsInRadius => String::from_str("@MobsInradius"),
            MultyEntity::EntitiesInRadius => String::from_str("@EntitiesInRadius"),
            MultyEntity::EntitiesInRing => String::from_str("@EntitiesInRing"),
            MultyEntity::EntitiesInRingNearOrigin => String::from_str("@EntitiesInRingNearOrigin"),
            MultyEntity::PlayerInWorld => String::from_str("@PlayersInWorld"),
            MultyEntity::PlayersOnServer => String::from_str("@PlayersOnServer"),
            MultyEntity::PlayersInRing => String::from_str("@PlayersInRing"),
            MultyEntity::PlayersNearOrigin => String::from_str("@PlayersNearOrigin"),
            MultyEntity::TrackedPlayers => String::from_str("@TrackerPlayers"),
            MultyEntity::MobsNearOrigin => String::from_str("@MobsNearOrigin"),
            MultyEntity::EntitiesNearOrigin => String::from_str("@EntitiesNearOrigin"),
            MultyEntity::Children => String::from_str("@Children"),
            MultyEntity::Siblings => String::from_str("@Siblings"),
            MultyEntity::ItemsNearOrigin => String::from_str("@ItemsNearOrigin"),
            MultyEntity::ItemsInRadius => String::from_str("@ItemsInRadius"),
        }
    }
}

impl Default for MultyEntity {
    fn default() -> (r: MultyEntity)
        ensures
            r == MultyEntity::PlayersInRadius,
    {
        MultyEntity::PlayersInRadius
    }
}

} // verus!
