//! Mechanics that other plugins add, and the attributes of a model.

use vstd::prelude::*;
use vstd::string::StringExecFns;
use crate::decimal::Decimal;
use crate::skill::option::MythicOption;
use crate::text::write_value;
use crate::text::Render;

verus! {

/// The plugin that an additional mechanic comes from.
#[derive(Clone, Debug, PartialEq)]
pub enum MechanicType {
    ModelEngine4 { mechanic: ModelEngineMechanic },
    MythicCrucible,
    MythicEnchantments,
    MCPets,
}

impl MechanicType {
    /// Whether this is the model engine with its model mechanics.
    pub open spec fn is_blank(self) -> bool {
        self matches MechanicType::ModelEngine4 { mechanic } && mechanic is Model
    }
}

impl Render for MechanicType {
    /// The name of the plugin's family of mechanics. That of the model engine
    /// is the same whichever of its mechanics is chosen.
    open spec fn text(&self) -> Seq<char> {
        match self {
            MechanicType::ModelEngine4 { .. } => "ModelEngineMechanic"@,
            MechanicType::MythicCrucible => "MythicCrucible"@,
            MechanicType::MythicEnchantments => "MythicEnchantments"@,
            MechanicType::MCPets => "MCPets"@,
        }
    }

    fn render(&self) -> (out: String) {
        match self {
            MechanicType::ModelEngine4 { .. } => String::from_str("ModelEngineMechanic"),
            MechanicType::MythicCrucible => String::from_str("MythicCrucible"),
            MechanicType::MythicEnchantments => String::from_str("MythicEnchantments"),
            MechanicType::MCPets => String::from_str("MCPets"),
        }
    }
}

impl Default for MechanicType {
    fn default() -> (r: MechanicType)
        ensures
            r.is_blank(),
    {
        MechanicType::ModelEngine4 { mechanic: ModelEngineMechanic::Model }
    }
}

/// The families of mechanics of the model engine.
#[derive(Clone, Debug, PartialEq)]
pub enum ModelEngineMechanic {
    /// Entity type mechanics controls and configures options used by the base entity.
    Entity { model: MythicOption<ModelEngineModel> },
    Model,
    Bone,
    Mounting,
    Controller,
    Hitbox,
    Segment,
    Misc,
    VFXMechanics,
}

impl Render for ModelEngineMechanic {
    /// The text of the model for the entity mechanics, the name of the family
    /// for the others.
    open spec fn text(&self) -> Seq<char> {
        match self {
            ModelEngineMechanic::Entity { model } => model.text(),
            ModelEngineMechanic::Model => "Model"@,
            ModelEngineMechanic::Bone => "Bone"@,
            ModelEngineMechanic::Mounting => "Mounting"@,
            ModelEngineMechanic::Controller => "Controller"@,
            ModelEngineMechanic::Hitbox => "Hitbox"@,
            ModelEngineMechanic::Segment => "Segment"@,
            ModelEngineMechanic::Misc => "Misc"@,
            ModelEngineMechanic::VFXMechanics => "VFXMechanics"@,
        }
    }

    fn render(&self) -> (out: String) {
        match self {
            ModelEngineMechanic::Entity { model } => model.render(),
            ModelEngineMechanic::Model => String::from_str("Model"),
            ModelEngineMechanic::Bone => String::from_str("Bone"),
            ModelEngineMechanic::Mounting => String::from_str("Mounting"),
            ModelEngineMechanic::Controller => String::from_str("Controller"),
            ModelEngineMechanic::Hitbox => String::from_str("Hitbox"),
            ModelEngineMechanic::Segment => String::from_str("Segment"),
            ModelEngineMechanic::Misc => String::from_str("Misc"),
            ModelEngineMechanic::VFXMechanics => String::from_str("VFXMechanics"),
        }
    }
}

impl Default for ModelEngineMechanic {
    fn default() -> (r: ModelEngineMechanic)
        ensures
            r is Model,
    {
        ModelEngineMechanic::Model
    }
}

/// A model of the model engine that a mechanic puts on or takes off.
#[derive(Clone, Debug, PartialEq)]
pub struct ModelEngineModel {
    /// The model id of the model
    pub model_id: String,
    /// Is this mechanic used for removing model
    pub remove: RemoveAttributeBool,
}

impl Render for ModelEngineModel {
    /// The key `m` with the model id, a semicolon, then the text of the
    /// removal choice.
    open spec fn text(&self) -> Seq<char> {
        "m="@ + self.model_id@ + ";"@ + self.remove.text()
    }

    fn render(&self) -> (out: String) {
        let mut out = String::from_str("m=");
        out.append(self.model_id.as_str());
        out.append(";");
        write_value(&mut out, &self.remove);
        out
    }
}

/// Whether a model is taken off, or put on with attributes.
#[derive(Clone, Debug, PartialEq)]
pub enum RemoveAttributeBool {
    /// The model is taken off.
    True,
    /// The model is put on, with these attributes.
    False { attribute: RemoveAttribute },
}

impl Render for RemoveAttributeBool {
    /// Nothing where the model is taken off. Where it is put on, the fixed
    /// word `{{attribute}}` stands for the attributes, whatever they hold.
    open spec fn text(&self) -> Seq<char> {
        match self {
            RemoveAttributeBool::True => ""@,
            RemoveAttributeBool::False { .. } => "{{attribute}}"@,
        }
    }

    fn render(&self) -> (out: String) {
        match self {
            RemoveAttributeBool::True => String::from_str(""),
            RemoveAttributeBool::False { .. } => String::from_str("{{attribute}}"),
        }
    }
}

impl Default for RemoveAttributeBool {
    fn default() -> (r: RemoveAttributeBool)
        ensures
            r matches RemoveAttributeBool::False { attribute } && attribute.is_initial(),
    {
        RemoveAttributeBool::False { attribute: RemoveAttribute::default() }
    }
}

/// The attributes of a model that is put on an entity.
#[derive(Clone, Debug, PartialEq)]
pub struct RemoveAttribute {
    /// Should the model override the hitbox
    pub hitbox: MythicOption<bool>,
    /// Should the base entity be invisible
    pub invisible: MythicOption<bool>,
    /// Should the model flash red when damaged
    pub damagetint: MythicOption<bool>,
    /// The tag bone used to display the name
    pub nametag: MythicOption<String>,
    /// Can this model be driven
    pub drive: MythicOption<bool>,
    /// Can this model have passengers
    pub ride: MythicOption<bool>,
    /// Should the model's pitch be locked
    pub lockpitch: MythicOption<bool>,
    /// Should the model's yaw be locked
    pub lockyaw: MythicOption<bool>,
    /// The step height of the model
    pub step: MythicOption<Decimal>,
    /// Visible radius of the model
    pub radius: MythicOption<i8>,
    /// Visible radius of the model. Values less than or equal to 0 will not be read
    pub scale: MythicOption<Decimal>,
    /// Collision hitbox scale of the model. Caution: Large hitboxes might cause server lag
    pub hitbox_scale: MythicOption<Decimal>,
    /// Use the new animation system. Highly recommended to switch to this system
    pub use_state_machine: MythicOption<bool>,
    /// Whether the model should immediately be shown to players. If false, this allows you to
    /// further customize your model before showing it
    pub init_render: MythicOption<bool>,
    /// Should the model's hitbox be visible. If hidden, the player can no longer interact with
    /// the model.
    pub show_hitbox: MythicOption<bool>,
    /// Should the shadow be visible
    pub show_shadow: MythicOption<bool>,
    /// Should the body rotation be synced to the head rotation
    pub sync_body: MythicOption<bool>,
    /// Should the model be saved on entity unload
    pub save: MythicOption<bool>,
}

impl RemoveAttribute {
    /// The attributes that a model starts with. Every key but the scale of
    /// the hitbox is present, and each ends in a semicolon.
    pub open spec fn is_initial(self) -> bool {
        &&& self.hitbox.holds("h="@, true, ";"@)
        &&& self.invisible.holds("i="@, true, ";"@)
        &&& self.damagetint.holds("d="@, true, ";"@)
        &&& self.nametag matches MythicOption::Present(pre, name, suf) && pre@ == "d="@
            && name@.len() == 0 && suf@ == ";"@
        &&& self.drive.holds("drive="@, false, ";"@)
        &&& self.ride.holds("ride="@, false, ";"@)
        &&& self.lockpitch.holds("lp="@, false, ";"@)
        &&& self.lockyaw.holds("ly="@, false, ";"@)
        &&& self.step.holds("s="@, Decimal { negative: false, digits: 5, exponent: -1i32 }, ";"@)
        &&& self.radius.holds("rad="@, 0i8, ";"@)
        &&& self.scale.holds("scale="@, Decimal { negative: false, digits: 1, exponent: 0 }, ";"@)
        &&& self.hitbox_scale is Absent
        &&& self.use_state_machine.holds("usm="@, false, ";"@)
        &&& self.init_render.holds("init="@, true, ";"@)
        &&& self.show_hitbox.holds("showhitbox"@, true, ";"@)
        &&& self.show_shadow.holds("showshadow="@, true, ";"@)
        &&& self.sync_body.holds("syncbody="@, true, ";"@)
        &&& self.save.holds("save="@, false, ";"@)
    }

    /// Should the model's hitbox be visible. If hidden, the player can no longer interact with
    /// the model.
    pub fn show_hitebox(self, b: bool) -> (r: RemoveAttribute)
        ensures
            r.show_hitbox.holds("showhitbox="@, b, ";"@),
            r == (RemoveAttribute { show_hitbox: r.show_hitbox, ..self }),
    {
        let mut r = self;
        r.show_hitbox = MythicOption::present("showhitbox=", b, ";");
        r
    }

    /// Should the model override the hitbox
    pub fn hitbox(self, b: bool) -> (r: RemoveAttribute)
        ensures
            r.hitbox.holds("h="@, b, ";"@),
            r == (RemoveAttribute { hitbox: r.hitbox, ..self }),
    {
        let mut r = self;
        r.hitbox = MythicOption::present("h=", b, ";");
        r
    }

    /// Should the base entity be invisible
    pub fn invisible(self, b: bool) -> (r: RemoveAttribute)
        ensures
            r.invisible.holds("i="@, b, ";"@),
            r == (RemoveAttribute { invisible: r.invisible, ..self }),
    {
        let mut r = self;
        r.invisible = MythicOption::present("i=", b, ";");
        r
    }

    /// Makes the model flash red when damaged.
    pub fn damage_tint(self) -> (r: RemoveAttribute)
        ensures
            r.damagetint.holds("d="@, true, ";"@),
            r == (RemoveAttribute { damagetint: r.damagetint, ..self }),
    {
        let mut r = self;
        r.damagetint = MythicOption::present("d=", true, ";");
        r
    }

    /// The tag bone used to display the name
    pub fn nametag(self, s: String) -> (r: RemoveAttribute)
        ensures
            r.nametag.holds("d="@, s, ";"@),
            r == (RemoveAttribute { nametag: r.nametag, ..self }),
    {
        let mut r = self;
        r.nametag = MythicOption::present("d=", s, ";");
        r
    }

    /// Can this model be driven
    pub fn drive(self, b: bool) -> (r: RemoveAttribute)
        ensures
            r.drive.holds("drive="@, b, ";"@),
            r == (RemoveAttribute { drive: r.drive, ..self }),
    {
        let mut r = self;
        r.drive = MythicOption::present("drive=", b, ";");
        r
    }

    /// Sets the key `drive=`, as [`RemoveAttribute::drive`] does. The key for
    /// passengers keeps what it held.
    pub fn ride(self, b: bool) -> (r: RemoveAttribute)
        ensures
            r.drive.holds("drive="@, b, ";"@),
            r == (RemoveAttribute { drive: r.drive, ..self }),
    {
        let mut r = self;
        r.drive = MythicOption::present("drive=", b, ";");
        r
    }

    /// Should the model's pitch be locked
    pub fn lock_pitch(self, b: bool) -> (r: RemoveAttribute)
        ensures
            r.lockpitch.holds("lp="@, b, ";"@),
            r == (RemoveAttribute { lockpitch: r.lockpitch, ..self }),
    {
        let mut r = self;
        r.lockpitch = MythicOption::present("lp=", b, ";");
        r
    }

    /// Should the model's yaw be locked
    pub fn lock_yaw(self, b: bool) -> (r: RemoveAttribute)
        ensures
            r.lockyaw.holds("ly="@, b, ";"@),
            r == (RemoveAttribute { lockyaw: r.lockyaw, ..self }),
    {
        let mut r = self;
        r.lockyaw = MythicOption::present("ly=", b, ";");
        r
    }

    /// The step height of the model
    pub fn step(self, f: Decimal) -> (r: RemoveAttribute)
        ensures
            r.step.holds("s="@, f, ";"@),
            r == (RemoveAttribute { step: r.step, ..self }),
    {
        let mut r = self;
        r.step = MythicOption::present("s=", f, ";");
        r
    }

    /// Visible radius of the model
    pub fn radius(self, i: i8) -> (r: RemoveAttribute)
        ensures
            r.radius.holds("rad="@, i, ";"@),
            r == (RemoveAttribute { radius: r.radius, ..self }),
    {
        let mut r = self;
        r.radius = MythicOption::present("rad=", i, ";");
        r
    }

    /// The scale of the model. Values less than or equal to 0 will not be read
    pub fn scale(self, f: Decimal) -> (r: RemoveAttribute)
        ensures
            r.scale.holds("scale="@, f, ";"@),
            r == (RemoveAttribute { scale: r.scale, ..self }),
    {
        let mut r = self;
        r.scale = MythicOption::present("scale=", f, ";");
        r
    }

    /// Collision hitbox scale of the model. Caution: Large hitboxes might cause server lag
    pub fn hitbox_scale(self, f: Decimal) -> (r: RemoveAttribute)
        ensures
            r.hitbox_scale.holds("hitboxscale="@, f, ";"@),
            r == (RemoveAttribute { hitbox_scale: r.hitbox_scale, ..self }),
    {
        let mut r = self;
        r.hitbox_scale = MythicOption::present("hitboxscale=", f, ";");
        r
    }

    /// Writes the key of the new animation system, switched off.
    pub fn state_machine(self) -> (r: RemoveAttribute)
        ensures
            r.use_state_machine.holds("usm="@, false, ";"@),
            r == (RemoveAttribute { use_state_machine: r.use_state_machine, ..self }),
    {
        let mut r = self;
        r.use_state_machine = MythicOption::present("usm=", false, ";");
        r
    }

    /// Whether the model should immediately be shown to players. If false, this allows you to
    /// further customize your model before showing it
    pub fn init_rend(self, b: bool) -> (r: RemoveAttribute)
        ensures
            r.init_render.holds("init="@, b, ";"@),
            r == (RemoveAttribute { init_render: r.init_render, ..self }),
    {
        let mut r = self;
        r.init_render = MythicOption::present("init=", b, ";");
        r
    }

    /// Should the shadow be visible
    pub fn show_shadow(self, b: bool) -> (r: RemoveAttribute)
        ensures
            r.show_shadow.holds("showshadow="@, b, ";"@),
            r == (RemoveAttribute { show_shadow: r.show_shadow, ..self }),
    {
        let mut r = self;
        r.show_shadow = MythicOption::present("showshadow=", b, ";");
        r
    }

    /// Should the body rotation be synced to the head rotation
    pub fn sync_body(self, b: bool) -> (r: RemoveAttribute)
        ensures
            r.sync_body.holds("syncbody="@, b, ";"@),
            r == (RemoveAttribute { sync_body: r.sync_body, ..self }),
    {
        let mut r = self;
        r.sync_body = MythicOption::present("syncbody=", b, ";");
        r
    }

    /// Should the model be saved on entity unload
    pub fn save(self, b: bool) -> (r: RemoveAttribute)
        ensures
            r.save.holds("save="@, b, ";"@),
            r == (RemoveAttribute { save: r.save, ..self }),
    {
        let mut r = self;
        r.save = MythicOption::present("save=", b, ";");
        r
    }
}

impl Default for RemoveAttribute {
    fn default() -> (r: RemoveAttribute)
        ensures
            r.is_initial(),
    {
        RemoveAttribute {
            hitbox: MythicOption::present("h=", true, ";"),
            invisible: MythicOption::present("i=", true, ";"),
            damagetint: MythicOption::present("d=", true, ";"),
            nametag: MythicOption::present("d=", String::new(), ";"),
            drive: MythicOption::present("drive=", false, ";"),
            ride: MythicOption::present("ride=", false, ";"),
            lockpitch: MythicOption::present("lp=", false, ";"),
            lockyaw: MythicOption::present("ly=", false, ";"),
            step: MythicOption::present("s=", Decimal::new(false, 5, -1), ";"),
            radius: MythicOption::present("rad=", 0i8, ";"),
            scale: MythicOption::present("scale=", Decimal::new(false, 1, 0), ";"),
            hitbox_scale: MythicOption::Absent,
            use_state_machine: MythicOption::present("usm=", false, ";"),
            init_render: MythicOption::present("init=", true, ";"),
            show_hitbox: MythicOption::present("showhitbox", true, ";"),
            show_shadow: MythicOption::present("showshadow=", true, ";"),
            sync_body: MythicOption::present("syncbody=", true, ";"),
            save: MythicOption::present("save=", false, ";"),
        }
    }
}

} // verus!
