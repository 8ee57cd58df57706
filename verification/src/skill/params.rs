//! The values that the parameters of a mechanic hold, each with its text.

use vstd::prelude::*;
use vstd::string::StringExecFns;
use crate::decimal::Decimal;
use crate::text::concat_text;
use crate::text::quoted_list_text;
use crate::text::render_concat;
use crate::text::render_quoted_list;
use crate::text::write_value;
use crate::text::Render;

verus! {

/// A position or an offset in whole blocks.
#[derive(Clone, Copy, Debug, PartialEq, Eq)]
pub struct Xyz {
    pub x: i32,
    pub y: i32,
    pub z: i32,
}

impl Render for Xyz {
    /// The three coordinates with commas between them.
    open spec fn text(&self) -> Seq<char> {
        self.x.text() + ","@ + self.y.text() + ","@ + self.z.text()
    }

    fn render(&self) -> (out: String) {
        let mut out = self.x.render();
        out.append(",");
        write_value(&mut out, &self.y);
        out.append(",");
        write_value(&mut out, &self.z);
        out
    }
}

impl Default for Xyz {
    fn default() -> (r: Xyz)
        ensures
            r == (Xyz { x: 0, y: 0, z: 0 }),
    {
        Xyz { x: 0, y: 0, z: 0 }
    }
}

/// The spawners that a mechanic addresses: one by its name, a group, or all
/// those whose names begin alike.
#[derive(Clone, Debug, PartialEq)]
pub enum SpawnerSelect {
    /// The spawner of this name.
    SpawnerName(String),
    /// The spawners of this group.
    SpawnerGroup(String),
    /// The spawners whose names begin with this text.
    SpawnerIncrementName(String),
}

impl SpawnerSelect {
    /// The text that the selection holds, whatever its kind.
    pub open spec fn inner(self) -> Seq<char> {
        match self {
            SpawnerSelect::SpawnerName(name) => name@,
            SpawnerSelect::SpawnerGroup(group) => group@,
            SpawnerSelect::SpawnerIncrementName(name) => name@,
        }
    }

    /// Whether two selections are of the same kind.
    pub open spec fn same_kind(self, other: SpawnerSelect) -> bool {
        match self {
            SpawnerSelect::SpawnerName(_) => other is SpawnerName,
            SpawnerSelect::SpawnerGroup(_) => other is SpawnerGroup,
            SpawnerSelect::SpawnerIncrementName(_) => other is SpawnerIncrementName,
        }
    }

    /// The name of the kind of selection, for display.
    pub open spec fn label(self) -> Seq<char> {
        match self {
            SpawnerSelect::SpawnerName(_) => "Name"@,
            SpawnerSelect::SpawnerGroup(_) => "Group"@,
            SpawnerSelect::SpawnerIncrementName(_) => "Increment Name"@,
        }
    }

    /// Whether the selection is a spawner name that is still empty.
    pub open spec fn is_blank(self) -> bool {
        self is SpawnerName && self.inner().len() == 0
    }

    /// Replaces the text that the selection holds and keeps its kind.
    pub fn modify_inner(&mut self, v: &str)
        ensures
            final(self).same_kind(*old(self)),
            final(self).inner() == v@,
    {
        match self {
            SpawnerSelect::SpawnerName(name) => {
                *name = String::from_str(v);
            },
            SpawnerSelect::SpawnerGroup(group) => {
                *group = String::from_str(v);
            },
            SpawnerSelect::SpawnerIncrementName(name) => {
                *name = String::from_str(v);
            },
        }
    }

    /// Returns the name of the kind of selection, for display.
    pub fn get_fields(&self) -> (label: &'static str)
        ensures
            label@ == self.label(),
            label@.len() > 0,
    {
        proof {
            reveal_strlit("Name");
            reveal_strlit("Group");
            reveal_strlit("Increment Name");
        }
        match self {
            SpawnerSelect::SpawnerName(_) => "Name",
            SpawnerSelect::SpawnerGroup(_) => "Group",
            SpawnerSelect::SpawnerIncrementName(_) => "Increment Name",
        }
    }

    /// Lists one selection of each kind, each with an empty text: by name, by
    /// group, by the beginning of the name.
    pub fn variants() -> (all: Vec<SpawnerSelect>)
        ensures
            all@.len() == 3,
            all@[0] is SpawnerName,
            all@[1] is SpawnerGroup,
            all@[2] is SpawnerIncrementName,
            forall|i: int| 0 <= i < 3 ==> (#[trigger] all@[i]).inner().len() == 0,
    {
        let mut all: Vec<SpawnerSelect> = Vec::new();
        all.push(SpawnerSelect::SpawnerName(String::new()));
        all.push(SpawnerSelect::SpawnerGroup(String::new()));
        all.push(SpawnerSelect::SpawnerIncrementName(String::new()));
        all
    }
}

impl Render for SpawnerSelect {
    /// A name stands as it is, a group behind `g:`, the beginning of a name
    /// in front of a star.
    open spec fn text(&self) -> Seq<char> {
        match self {
            SpawnerSelect::SpawnerName(name) => name@,
            SpawnerSelect::SpawnerGroup(group) => "g:"@ + group@,
            SpawnerSelect::SpawnerIncrementName(name) => name@ + "*"@,
        }
    }

    fn render(&self) -> (out: String) {
        match self {
            SpawnerSelect::SpawnerName(name) => name.clone(),
            SpawnerSelect::SpawnerGroup(group) => {
                let mut out = String::from_str("g:");
                out.append(group.as_str());
                out
            },
            SpawnerSelect::SpawnerIncrementName(name) => {
                let mut out = name.clone();
                out.append("*");
                out
            },
        }
    }
}

impl Default for SpawnerSelect {
    fn default() -> (r: SpawnerSelect)
        ensures
            r.is_blank(),
    {
        SpawnerSelect::SpawnerName(String::new())
    }
}

/// What a trade mechanic does with the trade in its slot.
#[derive(Clone, Copy, Debug, PartialEq, Eq)]
pub enum ActionMode {
    Add,
    Remove,
    Replace,
}

impl ActionMode {
    /// The number of variants.
    pub open spec fn count() -> int {
        3
    }

    /// The variant at place `i` of the catalogue.
    pub open spec fn at(i: int) -> ActionMode {
        if i == 0 {
            ActionMode::Add
        } else if i == 1 {
            ActionMode::Remove
        } else {
            ActionMode::Replace
        }
    }

    /// The place of the variant in the catalogue.
    pub open spec fn ordinal(self) -> int {
        match self {
            ActionMode::Add => 0,
            ActionMode::Remove => 1,
            ActionMode::Replace => 2,
        }
    }

    /// Every variant, in catalogue order.
    pub open spec fn all() -> Seq<ActionMode> {
        Seq::new(ActionMode::count() as nat, |i: int| ActionMode::at(i))
    }

    /// Every variant has one place in the catalogue.
    pub proof fn lemma_ordinal(v: ActionMode)
        ensures
            0 <= v.ordinal() < ActionMode::count(),
            ActionMode::at(v.ordinal()) == v,
            ActionMode::all()[v.ordinal()] == v,
    {
    }

    /// Every place of the catalogue holds another variant.
    pub proof fn lemma_at(i: int)
        requires
            0 <= i < ActionMode::count(),
        ensures
            ActionMode::at(i).ordinal() == i,
    {
    }

    /// Returns the variant at place `i` of the catalogue.
    pub fn from_ordinal(i: usize) -> (v: ActionMode)
        requires
            i < ActionMode::count(),
        ensures
            v == ActionMode::at(i as int),
    {
        match i {
            0 => ActionMode::Add,
            1 => ActionMode::Remove,
            _ => ActionMode::Replace,
        }
    }

    /// Lists every variant, in catalogue order.
    pub fn variants() -> (all: Vec<ActionMode>)
        ensures
            all@ == ActionMode::all(),
    {
        let mut all: Vec<ActionMode> = Vec::new();
        let mut i: usize = 0;
        while i < 3
            invariant
                i <= ActionMode::count(),
                all@.len() == i,
                forall|j: int| 0 <= j < i ==> all@[j] == ActionMode::at(j),
            decreases ActionMode::count() - i,
        {
            all.push(ActionMode::from_ordinal(i));
            i = i + 1;
        }
        assert(all@ =~= ActionMode::all());
        all
    }
}

impl Render for ActionMode {
    open spec fn text(&self) -> Seq<char> {
        match self {
            ActionMode::Add => "ADD"@,
            ActionMode::Remove => "REMOVE"@,
            ActionMode::Replace => "REPLACE"@,
        }
    }

    fn render(&self) -> (out: String) {
        match self {
            ActionMode::Add => String::from_str("ADD"),
            ActionMode::Remove => String::from_str("REMOVE"),
            ActionMode::Replace => String::from_str("REPLACE"),
        }
    }
}

impl Default for ActionMode {
    fn default() -> (r: ActionMode)
        ensures
            r == ActionMode::Add,
    {
        ActionMode::Add
    }
}
/// An item that a trade asks for, and how many of it.
#[derive(Clone, Debug, PartialEq)]
pub struct TradeIngredient {
    pub name: String,
    pub count: u8,
}

impl TradeIngredient {
    /// Whether the ingredient has no name yet and a count of zero.
    pub open spec fn is_blank(self) -> bool {
        self.name@.len() == 0 && self.count == 0
    }
}

impl Render for TradeIngredient {
    /// The name, a space, the count.
    open spec fn text(&self) -> Seq<char> {
        self.name@ + " "@ + self.count.text()
    }

    fn render(&self) -> (out: String) {
        let mut out = self.name.clone();
        out.append(" ");
        write_value(&mut out, &self.count);
        out
    }
}

impl Default for TradeIngredient {
    fn default() -> (r: TradeIngredient)
        ensures
            r.is_blank(),
    {
        TradeIngredient { name: String::new(), count: 0 }
    }
}

/// The pose of an armor stand: three angles for each of its six parts.
#[derive(Clone, Copy, Debug, PartialEq, Eq)]
pub struct ArmorStandPose {
    /// The position of the head.
    pub head: [Decimal; 3],
    /// The position of the body.
    pub body: [Decimal; 3],
    /// The position of the left arm.
    pub left_arm: [Decimal; 3],
    /// The position of the right arm.
    pub right_arm: [Decimal; 3],
    /// The position of the left leg.
    pub left_leg: [Decimal; 3],
    /// The position of the right leg.
    pub right_leg: [Decimal; 3],
}

/// The three angles of one part of a pose, each rounded to tenths, with
/// commas between them.
pub open spec fn angles_text(part: [Decimal; 3]) -> Seq<char> {
    part[0].tenths_text() + ","@ + part[1].tenths_text() + ","@ + part[2].tenths_text()
}

/// Returns the three angles of one part of a pose as text.
fn render_angles(part: &[Decimal; 3]) -> (out: String)
    ensures
        out@ == angles_text(*part),
{
    let mut out = part[0].render_tenths();
    out.append(",");
    out.append(part[1].render_tenths().as_str());
    out.append(",");
    out.append(part[2].render_tenths().as_str());
    out
}

impl ArmorStandPose {
    /// Whether every angle of the pose is zero.
    pub open spec fn is_blank(self) -> bool {
        forall|i: int|
            0 <= i < 3 ==> {
                &&& (#[trigger] self.head[i]) == Decimal::zero_value()
                &&& (#[trigger] self.body[i]) == Decimal::zero_value()
                &&& (#[trigger] self.left_arm[i]) == Decimal::zero_value()
                &&& (#[trigger] self.right_arm[i]) == Decimal::zero_value()
                &&& (#[trigger] self.left_leg[i]) == Decimal::zero_value()
                &&& (#[trigger] self.right_leg[i]) == Decimal::zero_value()
            }
    }
}

impl Render for ArmorStandPose {
    /// The eighteen angles between square brackets, with commas between them:
    /// head, body, left arm, right arm, left leg, right leg, each with exactly
    /// one digit after the point.
    open spec fn text(&self) -> Seq<char> {
        "["@ + angles_text(self.head) + ","@ + angles_text(self.body) + ","@ + angles_text(
            self.left_arm,
        ) + ","@ + angles_text(self.right_arm) + ","@ + angles_text(self.left_leg) + ","@
            + angles_text(self.right_leg) + "]"@
    }

    fn render(&self) -> (out: String) {
        let mut out = String::from_str("[");
        out.append(render_angles(&self.head).as_str());
        out.append(",");
        out.append(render_angles(&self.body).as_str());
        out.append(",");
        out.append(render_angles(&self.left_arm).as_str());
        out.append(",");
        out.append(render_angles(&self.right_arm).as_str());
        out.append(",");
        out.append(render_angles(&self.left_leg).as_str());
        out.append(",");
        out.append(render_angles(&self.right_leg).as_str());
        out.append("]");
        out
    }
}

impl Default for ArmorStandPose {
    fn default() -> (r: ArmorStandPose)
        ensures
            r.is_blank(),
    {
        let zero = Decimal::zero();
        ArmorStandPose {
            head: [zero, zero, zero],
            body: [zero, zero, zero],
            left_arm: [zero, zero, zero],
            right_arm: [zero, zero, zero],
            left_leg: [zero, zero, zero],
            right_leg: [zero, zero, zero],
        }
    }
}

/// A list of item materials or drop tables.
#[derive(Clone, Debug, PartialEq)]
pub struct ItemArray {
    pub items: Vec<String>,
}

impl ItemArray {
    /// Whether the list is empty.
    pub open spec fn is_blank(self) -> bool {
        self.items@.len() == 0
    }
}

impl Render for ItemArray {
    /// The items one after the other, with nothing between them.
    open spec fn text(&self) -> Seq<char> {
        concat_text(self.items@)
    }

    fn render(&self) -> (out: String) {
        render_concat(&self.items)
    }
}

impl Default for ItemArray {
    fn default() -> (r: ItemArray)
        ensures
            r.is_blank(),
    {
        ItemArray { items: Vec::new() }
    }
}

/// A list of damage tags.
#[derive(Clone, Debug, PartialEq)]
pub struct Tags {
    pub tags: Vec<String>,
}

impl Tags {
    /// Whether the list is empty.
    pub open spec fn is_blank(self) -> bool {
        self.tags@.len() == 0
    }

    /// The tags as texts, in their order.
    pub open spec fn texts(self) -> Seq<Seq<char>> {
        self.tags@.map_values(|t: String| t@)
    }

    /// Adds `t` behind the tags that the list holds.
    pub fn add_tag(self, t: &str) -> (r: Tags)
        ensures
            r.texts() == self.texts().push(t@),
    {
        let mut r = self;
        r.tags.push(String::from_str(t));
        assert(r.texts() =~= self.texts().push(t@));
        r
    }
}

impl Render for Tags {
    /// The tags one after the other, with nothing between them.
    open spec fn text(&self) -> Seq<char> {
        concat_text(self.tags@)
    }

    fn render(&self) -> (out: String) {
        render_concat(&self.tags)
    }
}

impl Default for Tags {
    fn default() -> (r: Tags)
        ensures
            r.is_blank(),
    {
        Tags { tags: Vec::new() }
    }
}

/// The error of a number that lies outside the range from zero to one.
#[derive(Clone, Copy, Debug, PartialEq, Eq)]
pub struct RangeError {
    /// The number that was rejected.
    pub value: Decimal,
}

impl RangeError {
    /// The message that tells of a number outside the range.
    pub open spec fn message_text() -> Seq<char> {
        "Percentage must be between 0.0 and 1.0"@
    }

    /// Returns the message that tells of a number outside the range.
    pub fn message(&self) -> (text: String)
        ensures
            text@ == RangeError::message_text(),
    {
        String::from_str("Percentage must be between 0.0 and 1.0")
    }
}

/// A share between nothing and all: a number from zero to one.
#[derive(Clone, Copy, Debug, PartialEq, Eq)]
pub struct Percentage {
    value: Decimal,
}

impl Percentage {
    /// The number that the share holds.
    pub closed spec fn value(self) -> Decimal {
        self.value
    }

    /// Makes a share of `value` when it lies between zero and one, both
    /// included. Any other number is rejected with a [`RangeError`] that
    /// holds the number; it is not moved into the range.
    pub fn new(value: Decimal) -> (r: Result<Percentage, RangeError>)
        ensures
            value.in_unit_interval() ==> r is Ok && r->Ok_0.value() == value,
            !value.in_unit_interval() ==> r == Err::<Percentage, RangeError>(RangeError { value }),
    {
        if value.is_in_unit_interval() {
            Ok(Percentage { value })
        } else {
            Err(RangeError { value })
        }
    }

    /// Returns the number that the share holds.
    pub fn get(&self) -> (value: Decimal)
        ensures
            value == self.value(),
            value.in_unit_interval(),
    {
        proof {
            use_type_invariant(self);
        }
        self.value
    }

    #[verifier::type_invariant]
    spec fn in_range(self) -> bool {
        self.value.in_unit_interval()
    }
}

impl Render for Percentage {
    /// The text of the number.
    open spec fn text(&self) -> Seq<char> {
        self.value().text()
    }

    fn render(&self) -> (out: String) {
        self.value.render()
    }
}

impl Default for Percentage {
    fn default() -> (r: Percentage)
        ensures
            r.value() == Decimal::zero_value(),
    {
        Percentage { value: Decimal::zero() }
    }
}

/// An item and the equipment slot that it goes to.
#[derive(Clone, Debug, PartialEq)]
pub struct EquipmentItem {
    pub item: String,
    pub slot: EquipmentSlot,
}

impl EquipmentItem {
    /// Whether no item is named and the slot is the main hand.
    pub open spec fn is_blank(self) -> bool {
        self.item@.len() == 0 && self.slot == EquipmentSlot::Hand
    }

    /// Names the item and keeps the slot.
    pub fn add_item(self, item_name: &str) -> (r: EquipmentItem)
        ensures
            r.item@ == item_name@,
            r.slot == self.slot,
    {
        EquipmentItem { item: String::from_str(item_name), slot: self.slot }
    }

    /// Sets the slot and keeps the item.
    pub fn select_slot(self, slot: EquipmentSlot) -> (r: EquipmentItem)
        ensures
            r.item == self.item,
            r.slot == slot,
    {
        EquipmentItem { item: self.item, slot }
    }
}

impl Render for EquipmentItem {
    /// The item, a space, the slot.
    open spec fn text(&self) -> Seq<char> {
        self.item@ + " "@ + self.slot.text()
    }

    fn render(&self) -> (out: String) {
        let mut out = self.item.clone();
        out.append(" ");
        write_value(&mut out, &self.slot);
        out
    }
}

impl Default for EquipmentItem {
    fn default() -> (r: EquipmentItem)
        ensures
            r.is_blank(),
    {
        EquipmentItem { item: String::new(), slot: EquipmentSlot::Hand }
    }
}

/// The places where an entity carries equipment.
#[derive(Clone, Copy, Debug, PartialEq, Eq)]
pub enum EquipmentSlot {
    /// The head slot. Accepts regular helmets, playerheads, and even blocktypes.
    Head,
    /// The chest slot. Will only render chestplates, but will carry any items.
    Chest,
    /// The leg slot. Will only render leggings, but will carry any items.
    Legs,
    /// The feet slot. Will only render boots, but will carry any items.
    Feet,
    /// The mainhand (right) hand slot.
    Hand,
    /// The offhand (left) hand slot.
    OffHand,
}

impl Render for EquipmentSlot {
    open spec fn text(&self) -> Seq<char> {
        match self {
            EquipmentSlot::Head => "HEAD"@,
            EquipmentSlot::Chest => "CHEST"@,
            EquipmentSlot::Legs => "LEGS"@,
            EquipmentSlot::Feet => "FEET"@,
            EquipmentSlot::Hand => "HAND"@,
            EquipmentSlot::OffHand => "OFFHAND"@,
        }
    }

    fn render(&self) -> (out: String) {
        match self {
            EquipmentSlot::Head => String::from_str("HEAD"),
            EquipmentSlot::Chest => String::from_str("CHEST"),
            EquipmentSlot::Legs => String::from_str("LEGS"),
            EquipmentSlot::Feet => String::from_str("FEET"),
            EquipmentSlot::Hand => String::from_str("HAND"),
            EquipmentSlot::OffHand => String::from_str("OFFHAND"),
        }
    }
}

impl Default for EquipmentSlot {
    fn default() -> (r: EquipmentSlot)
        ensures
            r == EquipmentSlot::Hand,
    {
        EquipmentSlot::Hand
    }
}
/// Messages of which one is sent at random.
#[derive(Clone, Debug, PartialEq)]
pub struct RandomMessages {
    pub messages: Vec<String>,
}

impl RandomMessages {
    /// Whether there is no message.
    pub open spec fn is_blank(self) -> bool {
        self.messages@.len() == 0
    }
}

impl Render for RandomMessages {
    /// Each message between double quotes, with commas between them.
    open spec fn text(&self) -> Seq<char> {
        quoted_list_text(self.messages@)
    }

    fn render(&self) -> (out: String) {
        render_quoted_list(&self.messages)
    }
}

impl Default for RandomMessages {
    fn default() -> (r: RandomMessages)
        ensures
            r.is_blank(),
    {
        RandomMessages { messages: Vec::new() }
    }
}

/// The mixer channel that a sound plays on.
#[derive(Clone, Copy, Debug, PartialEq, Eq)]
pub enum SoundCategory {
    Ambiant,
    Blocks,
    Hostile,
    Master,
    Music,
    Neutral,
    Players,
    Records,
    Ui,
    Voice,
    Weather,
}

impl SoundCategory {
    /// The number of variants.
    pub open spec fn count() -> int {
        11
    }

    /// The variant at place `i` of the catalogue.
    pub open spec fn at(i: int) -> SoundCategory {
        if i == 0 {
            SoundCategory::Ambiant
        } else if i == 1 {
            SoundCategory::Blocks
        } else if i == 2 {
            SoundCategory::Hostile
        } else if i == 3 {
            SoundCategory::Master
        } else if i == 4 {
            SoundCategory::Music
        } else if i == 5 {
            SoundCategory::Neutral
        } else if i == 6 {
            SoundCategory::Players
        } else if i == 7 {
            SoundCategory::Records
        } else if i == 8 {
            SoundCategory::Ui
        } else if i == 9 {
            SoundCategory::Voice
        } else {
            SoundCategory::Weather
        }
    }

    /// The place of the variant in the catalogue.
    pub open spec fn ordinal(self) -> int {
        match self {
            SoundCategory::Ambiant => 0,
            SoundCategory::Blocks => 1,
            SoundCategory::Hostile => 2,
            SoundCategory::Master => 3,
            SoundCategory::Music => 4,
            SoundCategory::Neutral => 5,
            SoundCategory::Players => 6,
            SoundCategory::Records => 7,
            SoundCategory::Ui => 8,
            SoundCategory::Voice => 9,
            SoundCategory::Weather => 10,
        }
    }

    /// Every variant, in catalogue order.
    pub open spec fn all() -> Seq<SoundCategory> {
        Seq::new(SoundCategory::count() as nat, |i: int| SoundCategory::at(i))
    }

    /// Every variant has one place in the catalogue.
    pub proof fn lemma_ordinal(v: SoundCategory)
        ensures
            0 <= v.ordinal() < SoundCategory::count(),
            SoundCategory::at(v.ordinal()) == v,
            SoundCategory::all()[v.ordinal()] == v,
    {
    }

    /// Every place of the catalogue holds another variant.
    pub proof fn lemma_at(i: int)
        requires
            0 <= i < SoundCategory::count(),
        ensures
            SoundCategory::at(i).ordinal() == i,
    {
    }

    /// Returns the variant at place `i` of the catalogue.
    pub fn from_ordinal(i: usize) -> (v: SoundCategory)
        requires
            i < SoundCategory::count(),
        ensures
            v == SoundCategory::at(i as int),
    {
        match i {
            0 => SoundCategory::Ambiant,
            1 => SoundCategory::Blocks,
            2 => SoundCategory::Hostile,
            3 => SoundCategory::Master,
            4 => SoundCategory::Music,
            5 => SoundCategory::Neutral,
            6 => SoundCategory::Players,
            7 => SoundCategory::Records,
            8 => SoundCategory::Ui,
            9 => SoundCategory::Voice,
            _ => SoundCategory::Weather,
        }
    }

    /// Lists every variant, in catalogue order.
    pub fn variants() -> (all: Vec<SoundCategory>)
        ensures
            all@ == SoundCategory::all(),
    {
        let mut all: Vec<SoundCategory> = Vec::new();
        let mut i: usize = 0;
        while i < 11
            invariant
                i <= SoundCategory::count(),
                all@.len() == i,
                forall|j: int| 0 <= j < i ==> all@[j] == SoundCategory::at(j),
            decreases SoundCategory::count() - i,
        {
            all.push(SoundCategory::from_ordinal(i));
            i = i + 1;
        }
        assert(all@ =~= SoundCategory::all());
        all
    }
}

impl Render for SoundCategory {
    open spec fn text(&self) -> Seq<char> {
        match self {
            SoundCategory::Ambiant => "AMBIANT"@,
            SoundCategory::Blocks => "BLOCKS"@,
            SoundCategory::Hostile => "HOSTILE"@,
            SoundCategory::Master => "MASTER"@,
            SoundCategory::Music => "MUSIC"@,
            SoundCategory::Neutral => "NEUTRAL"@,
            SoundCategory::Players => "PLAYERS"@,
            SoundCategory::Records => "RECORDS"@,
            SoundCategory::Ui => "UI"@,
            SoundCategory::Voice => "VOICE"@,
            SoundCategory::Weather => "WEATHER"@,
        }
    }

    fn render(&self) -> (out: String) {
        match self {
            SoundCategory::Ambiant => String::from_str("AMBIANT"),
            SoundCategory::Blocks => String::from_str("BLOCKS"),
            SoundCategory::Hostile => String::from_str("HOSTILE"),
            SoundCategory::Master => String::from_str("MASTER"),
            SoundCategory::Music => String::from_str("MUSIC"),
            SoundCategory::Neutral => String::from_str("NEUTRAL"),
            SoundCategory::Players => String::from_str("PLAYERS"),
            SoundCategory::Records => String::from_str("RECORDS"),
            SoundCategory::Ui => String::from_str("UI"),
            SoundCategory::Voice => String::from_str("VOICE"),
            SoundCategory::Weather => String::from_str("WEATHER"),
        }
    }
}

impl Default for SoundCategory {
    fn default() -> (r: SoundCategory)
        ensures
            r == SoundCategory::Master,
    {
        SoundCategory::Master
    }
}
/// The mechanics that an aura carries, as written in the line.
#[derive(Clone, Debug, PartialEq)]
pub struct AuraMechanic(pub String);

impl AuraMechanic {
    /// Whether nothing is written yet.
    pub open spec fn is_blank(self) -> bool {
        self.0@.len() == 0
    }
}

impl Render for AuraMechanic {
    /// The text as it was written.
    open spec fn text(&self) -> Seq<char> {
        self.0@
    }

    fn render(&self) -> (out: String) {
        self.0.clone()
    }
}

impl Default for AuraMechanic {
    fn default() -> (r: AuraMechanic)
        ensures
            r.is_blank(),
    {
        AuraMechanic(String::new())
    }
}

/// The liquid that a spring is made of.
#[derive(Clone, Copy, Debug, PartialEq, Eq)]
pub enum SpringType {
    Water,
    Lava,
}

impl Render for SpringType {
    open spec fn text(&self) -> Seq<char> {
        match self {
            SpringType::Water => "water"@,
            SpringType::Lava => "lava"@,
        }
    }

    fn render(&self) -> (out: String) {
        match self {
            SpringType::Water => String::from_str("water"),
            SpringType::Lava => String::from_str("lava"),
        }
    }
}

impl Default for SpringType {
    fn default() -> (r: SpringType)
        ensures
            r == SpringType::Water,
    {
        SpringType::Water
    }
}
/// The ticks by which the duration of an effect cloud shrinks at each use.
#[derive(Clone, Copy, Debug, PartialEq, Eq)]
pub struct DurationReduction {
    pub duration: u32,
}

impl Render for DurationReduction {
    /// The number.
    open spec fn text(&self) -> Seq<char> {
        self.duration.text()
    }

    fn render(&self) -> (out: String) {
        self.duration.render()
    }
}

/// The amount by which the radius of an effect cloud shrinks at each use.
#[derive(Clone, Copy, Debug, PartialEq, Eq)]
pub struct RadiusReductionOnUse {
    pub radius: u32,
}

impl Render for RadiusReductionOnUse {
    /// The number.
    open spec fn text(&self) -> Seq<char> {
        self.radius.text()
    }

    fn render(&self) -> (out: String) {
        self.radius.render()
    }
}

/// The amount by which the radius of an effect cloud shrinks at each tick.
#[derive(Clone, Copy, Debug, PartialEq, Eq)]
pub struct RadiusReductionOnTick {
    pub radius: u32,
}

impl Render for RadiusReductionOnTick {
    /// The number.
    open spec fn text(&self) -> Seq<char> {
        self.radius.text()
    }

    fn render(&self) -> (out: String) {
        self.radius.render()
    }
}

/// The particles that an effect can show.
#[derive(Clone, Copy, Debug, PartialEq, Eq)]
pub enum Particle {
    AngryVillager,
    Ash,
    Block,
    BlockCrumble,
    BlockMarker,
    Bubble,
    BubbleColumnUp,
    BubblePop,
    CampfireCosySmoke,
    CampfireSignalSmoke,
    CherryLeaves,
    Cloud,
    Composter,
    CrimsonSpore,
    Crit,
    CurrentDown,
    DamageIndicator,
    Dolphin,
    DragonBreath,
    DrippingDripstoneLava,
    DrippingDripstoneWater,
    DrippingHoney,
    DrippingLava,
    DrippingObsidianTear,
    DrippingWater,
    Dust,
    DustColorTransition,
    DustPillar,
    DustPlume,
    Effect,
    EggCrack,
    ElderGuardian,
    ElectricSpark,
    Enchant,
    EnchantedHit,
    EndRod,
    EntityEffect,
    Explosion,
    ExplosionEmitter,
    FallingDripstoneLava,
    FallingDripstoneWater,
    FallingDust,
    FallingHoney,
    FallingLava,
    FallingNectar,
    FallingObsidianTear,
    FallingSporeBlossom,
    FallingWater,
    Firefly,
    Firework,
    Fishing,
    Flame,
    Flash,
    Glow,
    GlowSquidInk,
    Gust,
    GustEmitterLarge,
    GustEmitterSmall,
    HappyVillager,
    Heart,
    Infested,
    InstantEffect,
    Item,
    ItemCobweb,
    ItemSlime,
    ItemSnowball,
    LandingHoney,
    LandingLava,
    LandingObsidianTear,
    LargeSmoke,
    Lava,
    Mycelium,
    Nautilus,
    Note,
    OminousSpawning,
    PaleOakLeaves,
    Poof,
    Portal,
    RaidOmen,
    Rain,
    ReversePortal,
    Scrape,
    SculkCharge,
    SculkChargePop,
    SculkSoul,
    Shriek,
    SmallFlame,
    SmallGust,
    Smoke,
    Sneeze,
    Snowflake,
    SonicBoom,
    Soul,
    SoulFireFlame,
    Spit,
    Splash,
    SporeBlossomAir,
    SquidInk,
    SweepAttack,
    TintedLeaves,
    TotemOfUndying,
    Trail,
    TrialOmen,
    TrialSpawnerDetection,
    TrialSpawnerDetectionOminous,
    Underwater,
    VaultConnection,
    Vibration,
    WarpedSpore,
    WaxOff,
    WaxOn,
    WhiteAsh,
    WhiteSmoke,
    Witch,
}

impl Particle {
    /// The number of variants.
    pub open spec fn count() -> int {
        114
    }

    /// The variant at place `i` of the catalogue.
    pub open spec fn at(i: int) -> Particle {
        if i == 0 {
            Particle::AngryVillager
        } else if i == 1 {
            Particle::Ash
        } else if i == 2 {
            Particle::Block
        } else if i == 3 {
            Particle::BlockCrumble
        } else if i == 4 {
            Particle::BlockMarker
        } else if i == 5 {
            Particle::Bubble
        } else if i == 6 {
            Particle::BubbleColumnUp
        } else if i == 7 {
            Particle::BubblePop
        } else if i == 8 {
            Particle::CampfireCosySmoke
        } else if i == 9 {
            Particle::CampfireSignalSmoke
        } else if i == 10 {
            Particle::CherryLeaves
        } else if i == 11 {
            Particle::Cloud
        } else if i == 12 {
            Particle::Composter
        } else if i == 13 {
            Particle::CrimsonSpore
        } else if i == 14 {
            Particle::Crit
        } else if i == 15 {
            Particle::CurrentDown
        } else if i == 16 {
            Particle::DamageIndicator
        } else if i == 17 {
            Particle::Dolphin
        } else if i == 18 {
            Particle::DragonBreath
        } else if i == 19 {
            Particle::DrippingDripstoneLava
        } else if i == 20 {
            Particle::DrippingDripstoneWater
        } else if i == 21 {
            Particle::DrippingHoney
        } else if i == 22 {
            Particle::DrippingLava
        } else if i == 23 {
            Particle::DrippingObsidianTear
        } else if i == 24 {
            Particle::DrippingWater
        } else if i == 25 {
            Particle::Dust
        } else if i == 26 {
            Particle::DustColorTransition
        } else if i == 27 {
            Particle::DustPillar
        } else if i == 28 {
            Particle::DustPlume
        } else if i == 29 {
            Particle::Effect
        } else if i == 30 {
            Particle::EggCrack
        } else if i == 31 {
            Particle::ElderGuardian
        } else if i == 32 {
            Particle::ElectricSpark
        } else if i == 33 {
            Particle::Enchant
        } else if i == 34 {
            Particle::EnchantedHit
        } else if i == 35 {
            Particle::EndRod
        } else if i == 36 {
            Particle::EntityEffect
        } else if i == 37 {
            Particle::Explosion
        } else if i == 38 {
            Particle::ExplosionEmitter
        } else if i == 39 {
            Particle::FallingDripstoneLava
        } else if i == 40 {
            Particle::FallingDripstoneWater
        } else if i == 41 {
            Particle::FallingDust
        } else if i == 42 {
            Particle::FallingHoney
        } else if i == 43 {
            Particle::FallingLava
        } else if i == 44 {
            Particle::FallingNectar
        } else if i == 45 {
            Particle::FallingObsidianTear
        } else if i == 46 {
            Particle::FallingSporeBlossom
        } else if i == 47 {
            Particle::FallingWater
        } else if i == 48 {
            Particle::Firefly
        } else if i == 49 {
            Particle::Firework
        } else if i == 50 {
            Particle::Fishing
        } else if i == 51 {
            Particle::Flame
        } else if i == 52 {
            Particle::Flash
        } else if i == 53 {
            Particle::Glow
        } else if i == 54 {
            Particle::GlowSquidInk
        } else if i == 55 {
            Particle::Gust
        } else if i == 56 {
            Particle::GustEmitterLarge
        } else if i == 57 {
            Particle::GustEmitterSmall
        } else if i == 58 {
            Particle::HappyVillager
        } else if i == 59 {
            Particle::Heart
        } else if i == 60 {
            Particle::Infested
        } else if i == 61 {
            Particle::InstantEffect
        } else if i == 62 {
            Particle::Item
        } else if i == 63 {
            Particle::ItemCobweb
        } else if i == 64 {
            Particle::ItemSlime
        } else if i == 65 {
            Particle::ItemSnowball
        } else if i == 66 {
            Particle::LandingHoney
        } else if i == 67 {
            Particle::LandingLava
        } else if i == 68 {
            Particle::LandingObsidianTear
        } else if i == 69 {
            Particle::LargeSmoke
        } else if i == 70 {
            Particle::Lava
        } else if i == 71 {
            Particle::Mycelium
        } else if i == 72 {
            Particle::Nautilus
        } else if i == 73 {
            Particle::Note
        } else if i == 74 {
            Particle::OminousSpawning
        } else if i == 75 {
            Particle::PaleOakLeaves
        } else if i == 76 {
            Particle::Poof
        } else if i == 77 {
            Particle::Portal
        } else if i == 78 {
            Particle::RaidOmen
        } else if i == 79 {
            Particle::Rain
        } else if i == 80 {
            Particle::ReversePortal
        } else if i == 81 {
            Particle::Scrape
        } else if i == 82 {
            Particle::SculkCharge
        } else if i == 83 {
            Particle::SculkChargePop
        } else if i == 84 {
            Particle::SculkSoul
        } else if i == 85 {
            Particle::Shriek
        } else if i == 86 {
            Particle::SmallFlame
        } else if i == 87 {
            Particle::SmallGust
        } else if i == 88 {
            Particle::Smoke
        } else if i == 89 {
            Particle::Sneeze
        } else if i == 90 {
            Particle::Snowflake
        } else if i == 91 {
            Particle::SonicBoom
        } else if i == 92 {
            Particle::Soul
        } else if i == 93 {
            Particle::SoulFireFlame
        } else if i == 94 {
            Particle::Spit
        } else if i == 95 {
            Particle::Splash
        } else if i == 96 {
            Particle::SporeBlossomAir
        } else if i == 97 {
            Particle::SquidInk
        } else if i == 98 {
            Particle::SweepAttack
        } else if i == 99 {
            Particle::TintedLeaves
        } else if i == 100 {
            Particle::TotemOfUndying
        } else if i == 101 {
            Particle::Trail
        } else if i == 102 {
            Particle::TrialOmen
        } else if i == 103 {
            Particle::TrialSpawnerDetection
        } else if i == 104 {
            Particle::TrialSpawnerDetectionOminous
        } else if i == 105 {
            Particle::Underwater
        } else if i == 106 {
            Particle::VaultConnection
        } else if i == 107 {
            Particle::Vibration
        } else if i == 108 {
            Particle::WarpedSpore
        } else if i == 109 {
            Particle::WaxOff
        } else if i == 110 {
            Particle::WaxOn
        } else if i == 111 {
            Particle::WhiteAsh
        } else if i == 112 {
            Particle::WhiteSmoke
        } else {
            Particle::Witch
        }
    }

    /// The place of the variant in the catalogue.
    pub open spec fn ordinal(self) -> int {
        match self {
            Particle::AngryVillager => 0,
            Particle::Ash => 1,
            Particle::Block => 2,
            Particle::BlockCrumble => 3,
            Particle::BlockMarker => 4,
            Particle::Bubble => 5,
            Particle::BubbleColumnUp => 6,
            Particle::BubblePop => 7,
            Particle::CampfireCosySmoke => 8,
            Particle::CampfireSignalSmoke => 9,
            Particle::CherryLeaves => 10,
            Particle::Cloud => 11,
            Particle::Composter => 12,
            Particle::CrimsonSpore => 13,
            Particle::Crit => 14,
            Particle::CurrentDown => 15,
            Particle::DamageIndicator => 16,
            Particle::Dolphin => 17,
            Particle::DragonBreath => 18,
            Particle::DrippingDripstoneLava => 19,
            Particle::DrippingDripstoneWater => 20,
            Particle::DrippingHoney => 21,
            Particle::DrippingLava => 22,
            Particle::DrippingObsidianTear => 23,
            Particle::DrippingWater => 24,
            Particle::Dust => 25,
            Particle::DustColorTransition => 26,
            Particle::DustPillar => 27,
            Particle::DustPlume => 28,
            Particle::Effect => 29,
            Particle::EggCrack => 30,
            Particle::ElderGuardian => 31,
            Particle::ElectricSpark => 32,
            Particle::Enchant => 33,
            Particle::EnchantedHit => 34,
            Particle::EndRod => 35,
            Particle::EntityEffect => 36,
            Particle::Explosion => 37,
            Particle::ExplosionEmitter => 38,
            Particle::FallingDripstoneLava => 39,
            Particle::FallingDripstoneWater => 40,
            Particle::FallingDust => 41,
            Particle::FallingHoney => 42,
            Particle::FallingLava => 43,
            Particle::FallingNectar => 44,
            Particle::FallingObsidianTear => 45,
            Particle::FallingSporeBlossom => 46,
            Particle::FallingWater => 47,
            Particle::Firefly => 48,
            Particle::Firework => 49,
            Particle::Fishing => 50,
            Particle::Flame => 51,
            Particle::Flash => 52,
            Particle::Glow => 53,
            Particle::GlowSquidInk => 54,
            Particle::Gust => 55,
            Particle::GustEmitterLarge => 56,
            Particle::GustEmitterSmall => 57,
            Particle::HappyVillager => 58,
            Particle::Heart => 59,
            Particle::Infested => 60,
            Particle::InstantEffect => 61,
            Particle::Item => 62,
            Particle::ItemCobweb => 63,
            Particle::ItemSlime => 64,
            Particle::ItemSnowball => 65,
            Particle::LandingHoney => 66,
            Particle::LandingLava => 67,
            Particle::LandingObsidianTear => 68,
            Particle::LargeSmoke => 69,
            Particle::Lava => 70,
            Particle::Mycelium => 71,
            Particle::Nautilus => 72,
            Particle::Note => 73,
            Particle::OminousSpawning => 74,
            Particle::PaleOakLeaves => 75,
            Particle::Poof => 76,
            Particle::Portal => 77,
            Particle::RaidOmen => 78,
            Particle::Rain => 79,
            Particle::ReversePortal => 80,
            Particle::Scrape => 81,
            Particle::SculkCharge => 82,
            Particle::SculkChargePop => 83,
            Particle::SculkSoul => 84,
            Particle::Shriek => 85,
            Particle::SmallFlame => 86,
            Particle::SmallGust => 87,
            Particle::Smoke => 88,
            Particle::Sneeze => 89,
            Particle::Snowflake => 90,
            Particle::SonicBoom => 91,
            Particle::Soul => 92,
            Particle::SoulFireFlame => 93,
            Particle::Spit => 94,
            Particle::Splash => 95,
            Particle::SporeBlossomAir => 96,
            Particle::SquidInk => 97,
            Particle::SweepAttack => 98,
            Particle::TintedLeaves => 99,
            Particle::TotemOfUndying => 100,
            Particle::Trail => 101,
            Particle::TrialOmen => 102,
            Particle::TrialSpawnerDetection => 103,
            Particle::TrialSpawnerDetectionOminous => 104,
            Particle::Underwater => 105,
            Particle::VaultConnection => 106,
            Particle::Vibration => 107,
            Particle::WarpedSpore => 108,
            Particle::WaxOff => 109,
            Particle::WaxOn => 110,
            Particle::WhiteAsh => 111,
            Particle::WhiteSmoke => 112,
            Particle::Witch => 113,
        }
    }

    /// Every variant, in catalogue order.
    pub open spec fn all() -> Seq<Particle> {
        Seq::new(Particle::count() as nat, |i: int| Particle::at(i))
    }

    /// Every variant has one place in the catalogue.
    pub proof fn lemma_ordinal(v: Particle)
        ensures
            0 <= v.ordinal() < Particle::count(),
            Particle::at(v.ordinal()) == v,
            Particle::all()[v.ordinal()] == v,
    {
    }

    /// Every place of the catalogue holds another variant.
    pub proof fn lemma_at(i: int)
        requires
            0 <= i < Particle::count(),
        ensures
            Particle::at(i).ordinal() == i,
    {
    }

    /// Returns the variant at place `i` of the catalogue.
    pub fn from_ordinal(i: usize) -> (v: Particle)
        requires
            i < Particle::count(),
        ensures
            v == Particle::at(i as int),
    {
        match i {
            0 => Particle::AngryVillager,
            1 => Particle::Ash,
            2 => Particle::Block,
            3 => Particle::BlockCrumble,
            4 => Particle::BlockMarker,
            5 => Particle::Bubble,
            6 => Particle::BubbleColumnUp,
            7 => Particle::BubblePop,
            8 => Particle::CampfireCosySmoke,
            9 => Particle::CampfireSignalSmoke,
            10 => Particle::CherryLeaves,
            11 => Particle::Cloud,
            12 => Particle::Composter,
            13 => Particle::CrimsonSpore,
            14 => Particle::Crit,
            15 => Particle::CurrentDown,
            16 => Particle::DamageIndicator,
            17 => Particle::Dolphin,
            18 => Particle::DragonBreath,
            19 => Particle::DrippingDripstoneLava,
            20 => Particle::DrippingDripstoneWater,
            21 => Particle::DrippingHoney,
            22 => Particle::DrippingLava,
            23 => Particle::DrippingObsidianTear,
            24 => Particle::DrippingWater,
            25 => Particle::Dust,
            26 => Particle::DustColorTransition,
            27 => Particle::DustPillar,
            28 => Particle::DustPlume,
            29 => Particle::Effect,
            30 => Particle::EggCrack,
            31 => Particle::ElderGuardian,
            32 => Particle::ElectricSpark,
            33 => Particle::Enchant,
            34 => Particle::EnchantedHit,
            35 => Particle::EndRod,
            36 => Particle::EntityEffect,
            37 => Particle::Explosion,
            38 => Particle::ExplosionEmitter,
            39 => Particle::FallingDripstoneLava,
            40 => Particle::FallingDripstoneWater,
            41 => Particle::FallingDust,
            42 => Particle::FallingHoney,
            43 => Particle::FallingLava,
            44 => Particle::FallingNectar,
            45 => Particle::FallingObsidianTear,
            46 => Particle::FallingSporeBlossom,
            47 => Particle::FallingWater,
            48 => Particle::Firefly,
            49 => Particle::Firework,
            50 => Particle::Fishing,
            51 => Particle::Flame,
            52 => Particle::Flash,
            53 => Particle::Glow,
            54 => Particle::GlowSquidInk,
            55 => Particle::Gust,
            56 => Particle::GustEmitterLarge,
            57 => Particle::GustEmitterSmall,
            58 => Particle::HappyVillager,
            59 => Particle::Heart,
            60 => Particle::Infested,
            61 => Particle::InstantEffect,
            62 => Particle::Item,
            63 => Particle::ItemCobweb,
            64 => Particle::ItemSlime,
            65 => Particle::ItemSnowball,
            66 => Particle::LandingHoney,
            67 => Particle::LandingLava,
            68 => Particle::LandingObsidianTear,
            69 => Particle::LargeSmoke,
            70 => Particle::Lava,
            71 => Particle::Mycelium,
            72 => Particle::Nautilus,
            73 => Particle::Note,
            74 => Particle::OminousSpawning,
            75 => Particle::PaleOakLeaves,
            76 => Particle::Poof,
            77 => Particle::Portal,
            78 => Particle::RaidOmen,
            79 => Particle::Rain,
            80 => Particle::ReversePortal,
            81 => Particle::Scrape,
            82 => Particle::SculkCharge,
            83 => Particle::SculkChargePop,
            84 => Particle::SculkSoul,
            85 => Particle::Shriek,
            86 => Particle::SmallFlame,
            87 => Particle::SmallGust,
            88 => Particle::Smoke,
            89 => Particle::Sneeze,
            90 => Particle::Snowflake,
            91 => Particle::SonicBoom,
            92 => Particle::Soul,
            93 => Particle::SoulFireFlame,
            94 => Particle::Spit,
            95 => Particle::Splash,
            96 => Particle::SporeBlossomAir,
            97 => Particle::SquidInk,
            98 => Particle::SweepAttack,
            99 => Particle::TintedLeaves,
            100 => Particle::TotemOfUndying,
            101 => Particle::Trail,
            102 => Particle::TrialOmen,
            103 => Particle::TrialSpawnerDetection,
            104 => Particle::TrialSpawnerDetectionOminous,
            105 => Particle::Underwater,
            106 => Particle::VaultConnection,
            107 => Particle::Vibration,
            108 => Particle::WarpedSpore,
            109 => Particle::WaxOff,
            110 => Particle::WaxOn,
            111 => Particle::WhiteAsh,
            112 => Particle::WhiteSmoke,
            _ => Particle::Witch,
        }
    }

    /// Lists every variant, in catalogue order.
    pub fn variants() -> (all: Vec<Particle>)
        ensures
            all@ == Particle::all(),
    {
        let mut all: Vec<Particle> = Vec::new();
        let mut i: usize = 0;
        while i < 114
            invariant
                i <= Particle::count(),
                all@.len() == i,
                forall|j: int| 0 <= j < i ==> all@[j] == Particle::at(j),
            decreases Particle::count() - i,
        {
            all.push(Particle::from_ordinal(i));
            i = i + 1;
        }
        assert(all@ =~= Particle::all());
        all
    }
}

impl Render for Particle {
    open spec fn text(&self) -> Seq<char> {
        match self {
            Particle::AngryVillager => "ANGRY_VILLAGER"@,
            Particle::Ash => "ASH"@,
            Particle::Block => "BLOCK"@,
            Particle::BlockCrumble => "BLOCK_CRUMBLE"@,
            Particle::BlockMarker => "BLOCK_MARKER"@,
            Particle::Bubble => "BUBBLE"@,
            Particle::BubbleColumnUp => "BUBBLE_COLUMN_UP"@,
            Particle::BubblePop => "BUBBLE_POP"@,
            Particle::CampfireCosySmoke => "CAMPFIRE_COSY_SMOKE"@,
            Particle::CampfireSignalSmoke => "CAMPFIRE_SIGNAL_SMOKE"@,
            Particle::CherryLeaves => "CHERRY_LEAVES"@,
            Particle::Cloud => "CLOUD"@,
            Particle::Composter => "COMPOSTER"@,
            Particle::CrimsonSpore => "CRIMSON_SPORE"@,
            Particle::Crit => "CRIT"@,
            Particle::CurrentDown => "CURRENT_DOWN"@,
            Particle::DamageIndicator => "DAMAGE_INDICATOR"@,
            Particle::Dolphin => "DOLPHIN"@,
            Particle::DragonBreath => "DRAGON_BREATH"@,
            Particle::DrippingDripstoneLava => "DRIPPING_DRIPSTONE_LAVA"@,
            Particle::DrippingDripstoneWater => "DRIPPING_DRIPSTONE_WATER"@,
            Particle::DrippingHoney => "DRIPPING_HONEY"@,
            Particle::DrippingLava => "DRIPPING_LAVA"@,
            Particle::DrippingObsidianTear => "DRIPPING_OBSIDIAN_TEAR"@,
            Particle::DrippingWater => "DRIPPING_WATER"@,
            Particle::Dust => "DUST"@,
            Particle::DustColorTransition => "DUST_COLOR_TRANSITION"@,
            Particle::DustPillar => "DUST_PILLAR"@,
            Particle::DustPlume => "DUST_PLUME"@,
            Particle::Effect => "EFFECT"@,
            Particle::EggCrack => "EGG_CRACK"@,
            Particle::ElderGuardian => "ELDER_GUARDIAN"@,
            Particle::ElectricSpark => "ELECTRIC_SPARK"@,
            Particle::Enchant => "ENCHANT"@,
            Particle::EnchantedHit => "ENCHANTED_HIT"@,
            Particle::EndRod => "END_ROD"@,
            Particle::EntityEffect => "ENTITY_EFFECT"@,
            Particle::Explosion => "EXPLOSION"@,
            Particle::ExplosionEmitter => "EXPLOSION_EMITTER"@,
            Particle::FallingDripstoneLava => "FALLING_DRIPSTONE_LAVA"@,
            Particle::FallingDripstoneWater => "FALLING_DRIPSTONE_WATER"@,
            Particle::FallingDust => "FALLING_DUST"@,
            Particle::FallingHoney => "FALLING_HONEY"@,
            Particle::FallingLava => "FALLING_LAVA"@,
            Particle::FallingNectar => "FALLING_NECTAR"@,
            Particle::FallingObsidianTear => "FALLING_OBSIDIAN_TEAR"@,
            Particle::FallingSporeBlossom => "FALLING_SPORE_BLOSSOM"@,
            Particle::FallingWater => "FALLING_WATER"@,
            Particle::Firefly => "FIREFLY"@,
            Particle::Firework => "FIREWORK"@,
            Particle::Fishing => "FISHING"@,
            Particle::Flame => "FLAME"@,
            Particle::Flash => "FLASH"@,
            Particle::Glow => "GLOW"@,
            Particle::GlowSquidInk => "GLOW_SQUID_INK"@,
            Particle::Gust => "GUST"@,
            Particle::GustEmitterLarge => "GUST_EMITTER_LARGE"@,
            Particle::GustEmitterSmall => "GUST_EMITTER_SMALL"@,
            Particle::HappyVillager => "HAPPY_VILLAGER"@,
            Particle::Heart => "HEART"@,
            Particle::Infested => "INFESTED"@,
            Particle::InstantEffect => "INSTANT_EFFECT"@,
            Particle::Item => "ITEM"@,
            Particle::ItemCobweb => "ITEM_COBWEB"@,
            Particle::ItemSlime => "ITEM_SLIME"@,
            Particle::ItemSnowball => "ITEM_SNOWBALL"@,
            Particle::LandingHoney => "LANDING_HONEY"@,
            Particle::LandingLava => "LANDING_LAVA"@,
            Particle::LandingObsidianTear => "LANDING_OBSIDIAN_TEAR"@,
            Particle::LargeSmoke => "LARGE_SMOKE"@,
            Particle::Lava => "LAVA"@,
            Particle::Mycelium => "MYCELIUM"@,
            Particle::Nautilus => "NAUTILUS"@,
            Particle::Note => "NOTE"@,
            Particle::OminousSpawning => "OMINOUS_SPAWNING"@,
            Particle::PaleOakLeaves => "PALE_OAK_LEAVES"@,
            Particle::Poof => "POOF"@,
            Particle::Portal => "PORTAL"@,
            Particle::RaidOmen => "RAID_OMEN"@,
            Particle::Rain => "RAIN"@,
            Particle::ReversePortal => "REVERSE_PORTAL"@,
            Particle::Scrape => "SCRAPE"@,
            Particle::SculkCharge => "SCULK_CHARGE"@,
            Particle::SculkChargePop => "SCULK_CHARGE_POP"@,
            Particle::SculkSoul => "SCULK_SOUL"@,
            Particle::Shriek => "SHRIEK"@,
            Particle::SmallFlame => "SMALL_FLAME"@,
            Particle::SmallGust => "SMALL_GUST"@,
            Particle::Smoke => "SMOKE"@,
            Particle::Sneeze => "SNEEZE"@,
            Particle::Snowflake => "SNOWFLAKE"@,
            Particle::SonicBoom => "SONIC_BOOM"@,
            Particle::Soul => "SOUL"@,
            Particle::SoulFireFlame => "SOUL_FIRE_FLAME"@,
            Particle::Spit => "SPIT"@,
            Particle::Splash => "SPLASH"@,
            Particle::SporeBlossomAir => "SPORE_BLOSSOM_AIR"@,
            Particle::SquidInk => "SQUID_INK"@,
            Particle::SweepAttack => "SWEEP_ATTACK"@,
            Particle::TintedLeaves => "TINTED_LEAVES"@,
            Particle::TotemOfUndying => "TOTEM_OF_UNDYING"@,
            Particle::Trail => "TRAIL"@,
            Particle::TrialOmen => "TRIAL_OMEN"@,
            Particle::TrialSpawnerDetection => "TRIAL_SPAWNER_DETECTION"@,
            Particle::TrialSpawnerDetectionOminous => "TRIAL_SPAWNER_DETECTION_OMINOUS"@,
            Particle::Underwater => "UNDERWATER"@,
            Particle::VaultConnection => "VAULT_CONNECTION"@,
            Particle::Vibration => "VIBRATION"@,
            Particle::WarpedSpore => "WARPED_SPORE"@,
            Particle::WaxOff => "WAX_OFF"@,
            Particle::WaxOn => "WAX_ON"@,
            Particle::WhiteAsh => "WHITE_ASH"@,
            Particle::WhiteSmoke => "WHITE_SMOKE"@,
            Particle::Witch => "WITCH"@,
        }
    }

    fn render(&self) -> (out: String) {
        match self {
            Particle::AngryVillager => String::from_str("ANGRY_VILLAGER"),
            Particle::Ash => String::from_str("ASH"),
            Particle::Block => String::from_str("BLOCK"),
            Particle::BlockCrumble => String::from_str("BLOCK_CRUMBLE"),
            Particle::BlockMarker => String::from_str("BLOCK_MARKER"),
            Particle::Bubble => String::from_str("BUBBLE"),
            Particle::BubbleColumnUp => String::from_str("BUBBLE_COLUMN_UP"),
            Particle::BubblePop => String::from_str("BUBBLE_POP"),
            Particle::CampfireCosySmoke => String::from_str("CAMPFIRE_COSY_SMOKE"),
            Particle::CampfireSignalSmoke => String::from_str("CAMPFIRE_SIGNAL_SMOKE"),
            Particle::CherryLeaves => String::from_str("CHERRY_LEAVES"),
            Particle::Cloud => String::from_str("CLOUD"),
            Particle::Composter => String::from_str("COMPOSTER"),
            Particle::CrimsonSpore => String::from_str("CRIMSON_SPORE"),
            Particle::Crit => String::from_str("CRIT"),
            Particle::CurrentDown => String::from_str("CURRENT_DOWN"),
            Particle::DamageIndicator => String::from_str("DAMAGE_INDICATOR"),
            Particle::Dolphin => String::from_str("DOLPHIN"),
            Particle::DragonBreath => String::from_str("DRAGON_BREATH"),
            Particle::DrippingDripstoneLava => String::from_str("DRIPPING_DRIPSTONE_LAVA"),
            Particle::DrippingDripstoneWater => String::from_str("DRIPPING_DRIPSTONE_WATER"),
            Particle::DrippingHoney => String::from_str("DRIPPING_HONEY"),
            Particle::DrippingLava => String::from_str("DRIPPING_LAVA"),
            Particle::DrippingObsidianTear => String::from_str("DRIPPING_OBSIDIAN_TEAR"),
            Particle::DrippingWater => String::from_str("DRIPPING_WATER"),
            Particle::Dust => String::from_str("DUST"),
            Particle::DustColorTransition => String::from_str("DUST_COLOR_TRANSITION"),
            Particle::DustPillar => String::from_str("DUST_PILLAR"),
            Particle::DustPlume => String::from_str("DUST_PLUME"),
            Particle::Effect => String::from_str("EFFECT"),
            Particle::EggCrack => String::from_str("EGG_CRACK"),
            Particle::ElderGuardian => String::from_str("ELDER_GUARDIAN"),
            Particle::ElectricSpark => String::from_str("ELECTRIC_SPARK"),
            Particle::Enchant => String::from_str("ENCHANT"),
            Particle::EnchantedHit => String::from_str("ENCHANTED_HIT"),
            Particle::EndRod => String::from_str("END_ROD"),
            Particle::EntityEffect => String::from_str("ENTITY_EFFECT"),
            Particle::Explosion => String::from_str("EXPLOSION"),
            Particle::ExplosionEmitter => String::from_str("EXPLOSION_EMITTER"),
            Particle::FallingDripstoneLava => String::from_str("FALLING_DRIPSTONE_LAVA"),
            Particle::FallingDripstoneWater => String::from_str("FALLING_DRIPSTONE_WATER"),
            Particle::FallingDust => String::from_str("FALLING_DUST"),
            Particle::FallingHoney => String::from_str("FALLING_HONEY"),
            Particle::FallingLava => String::from_str("FALLING_LAVA"),
            Particle::FallingNectar => String::from_str("FALLING_NECTAR"),
            Particle::FallingObsidianTear => String::from_str("FALLING_OBSIDIAN_TEAR"),
            Particle::FallingSporeBlossom => String::from_str("FALLING_SPORE_BLOSSOM"),
            Particle::FallingWater => String::from_str("FALLING_WATER"),
            Particle::Firefly => String::from_str("FIREFLY"),
            Particle::Firework => String::from_str("FIREWORK"),
            Particle::Fishing => String::from_str("FISHING"),
            Particle::Flame => String::from_str("FLAME"),
            Particle::Flash => String::from_str("FLASH"),
            Particle::Glow => String::from_str("GLOW"),
            Particle::GlowSquidInk => String::from_str("GLOW_SQUID_INK"),
            Particle::Gust => String::from_str("GUST"),
            Particle::GustEmitterLarge => String::from_str("GUST_EMITTER_LARGE"),
            Particle::GustEmitterSmall => String::from_str("GUST_EMITTER_SMALL"),
            Particle::HappyVillager => String::from_str("HAPPY_VILLAGER"),
            Particle::Heart => String::from_str("HEART"),
            Particle::Infested => String::from_str("INFESTED"),
            Particle::InstantEffect => String::from_str("INSTANT_EFFECT"),
            Particle::Item => String::from_str("ITEM"),
            Particle::ItemCobweb => String::from_str("ITEM_COBWEB"),
            Particle::ItemSlime => String::from_str("ITEM_SLIME"),
            Particle::ItemSnowball => String::from_str("ITEM_SNOWBALL"),
            Particle::LandingHoney => String::from_str("LANDING_HONEY"),
            Particle::LandingLava => String::from_str("LANDING_LAVA"),
            Particle::LandingObsidianTear => String::from_str("LANDING_OBSIDIAN_TEAR"),
            Particle::LargeSmoke => String::from_str("LARGE_SMOKE"),
            Particle::Lava => String::from_str("LAVA"),
            Particle::Mycelium => String::from_str("MYCELIUM"),
            Particle::Nautilus => String::from_str("NAUTILUS"),
            Particle::Note => String::from_str("NOTE"),
            Particle::OminousSpawning => String::from_str("OMINOUS_SPAWNING"),
            Particle::PaleOakLeaves => String::from_str("PALE_OAK_LEAVES"),
            Particle::Poof => String::from_str("POOF"),
            Particle::Portal => String::from_str("PORTAL"),
            Particle::RaidOmen => String::from_str("RAID_OMEN"),
            Particle::Rain => String::from_str("RAIN"),
            Particle::ReversePortal => String::from_str("REVERSE_PORTAL"),
            Particle::Scrape => String::from_str("SCRAPE"),
            Particle::SculkCharge => String::from_str("SCULK_CHARGE"),
            Particle::SculkChargePop => String::from_str("SCULK_CHARGE_POP"),
            Particle::SculkSoul => String::from_str("SCULK_SOUL"),
            Particle::Shriek => String::from_str("SHRIEK"),
            Particle::SmallFlame => String::from_str("SMALL_FLAME"),
            Particle::SmallGust => String::from_str("SMALL_GUST"),
            Particle::Smoke => String::from_str("SMOKE"),
            Particle::Sneeze => String::from_str("SNEEZE"),
            Particle::Snowflake => String::from_str("SNOWFLAKE"),
            Particle::SonicBoom => String::from_str("SONIC_BOOM"),
            Particle::Soul => String::from_str("SOUL"),
            Particle::SoulFireFlame => String::from_str("SOUL_FIRE_FLAME"),
            Particle::Spit => String::from_str("SPIT"),
            Particle::Splash => String::from_str("SPLASH"),
            Particle::SporeBlossomAir => String::from_str("SPORE_BLOSSOM_AIR"),
            Particle::SquidInk => String::from_str("SQUID_INK"),
            Particle::SweepAttack => String::from_str("SWEEP_ATTACK"),
            Particle::TintedLeaves => String::from_str("TINTED_LEAVES"),
            Particle::TotemOfUndying => String::from_str("TOTEM_OF_UNDYING"),
            Particle::Trail => String::from_str("TRAIL"),
            Particle::TrialOmen => String::from_str("TRIAL_OMEN"),
            Particle::TrialSpawnerDetection => String::from_str("TRIAL_SPAWNER_DETECTION"),
            Particle::TrialSpawnerDetectionOminous => String::from_str("TRIAL_SPAWNER_DETECTION_OMINOUS"),
            Particle::Underwater => String::from_str("UNDERWATER"),
            Particle::VaultConnection => String::from_str("VAULT_CONNECTION"),
            Particle::Vibration => String::from_str("VIBRATION"),
            Particle::WarpedSpore => String::from_str("WARPED_SPORE"),
            Particle::WaxOff => String::from_str("WAX_OFF"),
            Particle::WaxOn => String::from_str("WAX_ON"),
            Particle::WhiteAsh => String::from_str("WHITE_ASH"),
            Particle::WhiteSmoke => String::from_str("WHITE_SMOKE"),
            Particle::Witch => String::from_str("WITCH"),
        }
    }
}
/// The potion effects that an effect cloud can carry.
#[derive(Clone, Copy, Debug, PartialEq, Eq)]
pub enum EffectType {
    Slow,
}

impl Render for EffectType {
    open spec fn text(&self) -> Seq<char> {
        match self {
            EffectType::Slow => "SLOW"@,
        }
    }

    fn render(&self) -> (out: String) {
        match self {
            EffectType::Slow => String::from_str("SLOW"),
        }
    }
}
/// How a mechanic changes a counter: it adds to it, sets it or resets it.
#[derive(Clone, Copy, Debug, PartialEq, Eq)]
pub enum AddSetReset {
    Add,
    SetTo,
    Reset,
}

impl AddSetReset {
    /// The number of variants.
    pub open spec fn count() -> int {
        3
    }

    /// The variant at place `i` of the catalogue.
    pub open spec fn at(i: int) -> AddSetReset {
        if i == 0 {
            AddSetReset::Add
        } else if i == 1 {
            AddSetReset::SetTo
        } else {
            AddSetReset::Reset
        }
    }

    /// The place of the variant in the catalogue.
    pub open spec fn ordinal(self) -> int {
        match self {
            AddSetReset::Add => 0,
            AddSetReset::SetTo => 1,
            AddSetReset::Reset => 2,
        }
    }

    /// Every variant, in catalogue order.
    pub open spec fn all() -> Seq<AddSetReset> {
        Seq::new(AddSetReset::count() as nat, |i: int| AddSetReset::at(i))
    }

    /// Every variant has one place in the catalogue.
    pub proof fn lemma_ordinal(v: AddSetReset)
        ensures
            0 <= v.ordinal() < AddSetReset::count(),
            AddSetReset::at(v.ordinal()) == v,
            AddSetReset::all()[v.ordinal()] == v,
    {
    }

    /// Every place of the catalogue holds another variant.
    pub proof fn lemma_at(i: int)
        requires
            0 <= i < AddSetReset::count(),
        ensures
            AddSetReset::at(i).ordinal() == i,
    {
    }

    /// Returns the variant at place `i` of the catalogue.
    pub fn from_ordinal(i: usize) -> (v: AddSetReset)
        requires
            i < AddSetReset::count(),
        ensures
            v == AddSetReset::at(i as int),
    {
        match i {
            0 => AddSetReset::Add,
            1 => AddSetReset::SetTo,
            _ => AddSetReset::Reset,
        }
    }

    /// Lists every variant, in catalogue order.
    pub fn variants() -> (all: Vec<AddSetReset>)
        ensures
            all@ == AddSetReset::all(),
    {
        let mut all: Vec<AddSetReset> = Vec::new();
        let mut i: usize = 0;
        while i < 3
            invariant
                i <= AddSetReset::count(),
                all@.len() == i,
                forall|j: int| 0 <= j < i ==> all@[j] == AddSetReset::at(j),
            decreases AddSetReset::count() - i,
        {
            all.push(AddSetReset::from_ordinal(i));
            i = i + 1;
        }
        assert(all@ =~= AddSetReset::all());
        all
    }
}

impl Render for AddSetReset {
    open spec fn text(&self) -> Seq<char> {
        match self {
            AddSetReset::Add => "ADD"@,
            AddSetReset::SetTo => "SET"@,
            AddSetReset::Reset => "RESET"@,
        }
    }

    fn render(&self) -> (out: String) {
        match self {
            AddSetReset::Add => String::from_str("ADD"),
            AddSetReset::SetTo => String::from_str("SET"),
            AddSetReset::Reset => String::from_str("RESET"),
        }
    }
}

impl Default for AddSetReset {
    fn default() -> (r: AddSetReset)
        ensures
            r == AddSetReset::Add,
    {
        AddSetReset::Add
    }
}
/// How a mechanic changes the threat that a mob holds against its target.
#[derive(Clone, Copy, Debug, PartialEq, Eq)]
pub enum ThreatMode {
    /// Adds amount threat to the target entity
    Add,
    /// Removes amount threat from the target entity
    Remove,
    /// Multiplies the threat against the target entity by amount
    Multiply,
    /// Divides the threat against the target entity by amount
    Divide,
    /// Sets the threat against the target entity to amount
    SetTo,
    /// Remove all threat from the target entity
    Reset,
    /// Gives the target enough threat to be moved to the top of the threat list
    ForceTop,
}

impl Render for ThreatMode {
    open spec fn text(&self) -> Seq<char> {
        match self {
            ThreatMode::Add => "add"@,
            ThreatMode::Remove => "remove"@,
            ThreatMode::Multiply => "multiply"@,
            ThreatMode::Divide => "divide"@,
            ThreatMode::SetTo => "set"@,
            ThreatMode::Reset => "reset"@,
            ThreatMode::ForceTop => "forcetop"@,
        }
    }

    fn render(&self) -> (out: String) {
        match self {
            ThreatMode::Add => String::from_str("add"),
            ThreatMode::Remove => String::from_str("remove"),
            ThreatMode::Multiply => String::from_str("multiply"),
            ThreatMode::Divide => String::from_str("divide"),
            ThreatMode::SetTo => String::from_str("set"),
            ThreatMode::Reset => String::from_str("reset"),
            ThreatMode::ForceTop => String::from_str("forcetop"),
        }
    }
}
/// How hard it thunders.
#[derive(Clone, Copy, Debug, PartialEq, Eq)]
pub enum ThunderLevel {
    Level0,
    Level1,
}

impl Render for ThunderLevel {
    open spec fn text(&self) -> Seq<char> {
        match self {
            ThunderLevel::Level0 => "0"@,
            ThunderLevel::Level1 => "1"@,
        }
    }

    fn render(&self) -> (out: String) {
        match self {
            ThunderLevel::Level0 => String::from_str("0"),
            ThunderLevel::Level1 => String::from_str("1"),
        }
    }
}

impl Default for ThunderLevel {
    fn default() -> (r: ThunderLevel)
        ensures
            r == ThunderLevel::Level0,
    {
        ThunderLevel::Level0
    }
}
/// How a mechanic changes the velocity of its target.
#[derive(Clone, Copy, Debug, PartialEq, Eq)]
pub enum VelocityMode {
    SetTo,
    Add,
    Remove,
    Divide,
    Multiply,
}

impl Render for VelocityMode {
    open spec fn text(&self) -> Seq<char> {
        match self {
            VelocityMode::SetTo => "set"@,
            VelocityMode::Add => "add"@,
            VelocityMode::Remove => "remove"@,
            VelocityMode::Divide => "divide"@,
            VelocityMode::Multiply => " multiply"@,
        }
    }

    fn render(&self) -> (out: String) {
        match self {
            VelocityMode::SetTo => String::from_str("set"),
            VelocityMode::Add => String::from_str("add"),
            VelocityMode::Remove => String::from_str("remove"),
            VelocityMode::Divide => String::from_str("divide"),
            VelocityMode::Multiply => String::from_str(" multiply"),
        }
    }
}

impl Default for VelocityMode {
    fn default() -> (r: VelocityMode)
        ensures
            r == VelocityMode::SetTo,
    {
        VelocityMode::SetTo
    }
}
/// The weather that a mechanic can set.
#[derive(Clone, Copy, Debug, PartialEq, Eq)]
pub enum WeatherType {
    Sunny,
    Rainy,
    Stormy,
}

impl Render for WeatherType {
    open spec fn text(&self) -> Seq<char> {
        match self {
            WeatherType::Sunny => "sun"@,
            WeatherType::Rainy => "rain"@,
            WeatherType::Stormy => "storm"@,
        }
    }

    fn render(&self) -> (out: String) {
        match self {
            WeatherType::Sunny => String::from_str("sun"),
            WeatherType::Rainy => String::from_str("rain"),
            WeatherType::Stormy => String::from_str("storm"),
        }
    }
}

impl Default for WeatherType {
    fn default() -> (r: WeatherType)
        ensures
            r == WeatherType::Sunny,
    {
        WeatherType::Sunny
    }
}
/// The shape of the region that a block effect covers.
#[derive(Clone, Copy, Debug, PartialEq, Eq)]
pub enum Shape {
    Sphere,
    Cube,
}

impl Shape {
    /// The number of variants.
    pub open spec fn count() -> int {
        2
    }

    /// The variant at place `i` of the catalogue.
    pub open spec fn at(i: int) -> Shape {
        if i == 0 {
            Shape::Sphere
        } else {
            Shape::Cube
        }
    }

    /// The place of the variant in the catalogue.
    pub open spec fn ordinal(self) -> int {
        match self {
            Shape::Sphere => 0,
            Shape::Cube => 1,
        }
    }

    /// Every variant, in catalogue order.
    pub open spec fn all() -> Seq<Shape> {
        Seq::new(Shape::count() as nat, |i: int| Shape::at(i))
    }

    /// Every variant has one place in the catalogue.
    pub proof fn lemma_ordinal(v: Shape)
        ensures
            0 <= v.ordinal() < Shape::count(),
            Shape::at(v.ordinal()) == v,
            Shape::all()[v.ordinal()] == v,
    {
    }

    /// Every place of the catalogue holds another variant.
    pub proof fn lemma_at(i: int)
        requires
            0 <= i < Shape::count(),
        ensures
            Shape::at(i).ordinal() == i,
    {
    }

    /// Returns the variant at place `i` of the catalogue.
    pub fn from_ordinal(i: usize) -> (v: Shape)
        requires
            i < Shape::count(),
        ensures
            v == Shape::at(i as int),
    {
        match i {
            0 => Shape::Sphere,
            _ => Shape::Cube,
        }
    }

    /// Lists every variant, in catalogue order.
    pub fn variants() -> (all: Vec<Shape>)
        ensures
            all@ == Shape::all(),
    {
        let mut all: Vec<Shape> = Vec::new();
        let mut i: usize = 0;
        while i < 2
            invariant
                i <= Shape::count(),
                all@.len() == i,
                forall|j: int| 0 <= j < i ==> all@[j] == Shape::at(j),
            decreases Shape::count() - i,
        {
            all.push(Shape::from_ordinal(i));
            i = i + 1;
        }
        assert(all@ =~= Shape::all());
        all
    }
}

impl Render for Shape {
    open spec fn text(&self) -> Seq<char> {
        match self {
            Shape::Sphere => "sphere"@,
            Shape::Cube => "Cube"@,
        }
    }

    fn render(&self) -> (out: String) {
        match self {
            Shape::Sphere => String::from_str("sphere"),
            Shape::Cube => String::from_str("Cube"),
        }
    }
}

impl Default for Shape {
    fn default() -> (r: Shape)
        ensures
            r == Shape::Cube,
    {
        Shape::Cube
    }
}
impl Shape {
    /// The sphere.
    pub fn sphere() -> (r: Shape)
        ensures
            r == Shape::Sphere,
    {
        Shape::Sphere
    }

    /// The cube.
    pub fn cube() -> (r: Shape)
        ensures
            r == Shape::Cube,
    {
        Shape::Cube
    }
}

} // verus!
