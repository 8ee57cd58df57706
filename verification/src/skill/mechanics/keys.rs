//! The optional keys of mechanics: each with the text that stands in front of
//! its value, the text behind it, and the value that it starts with.
//!
//! A key that is added to a mechanic is made here, so that its affixes are
//! those that the line of the mechanic expects.

use vstd::prelude::*;
use crate::skill::mechanics::Mechanic;
use crate::skill::option::MythicOption;
use crate::skill::params::TradeIngredient;

verus! {

impl Mechanic {
    /// The second ingredient of a trade: the key `item2`, behind a semicolon,
    /// with an ingredient that has no name yet and a count of zero.
    pub fn add_trade_second_ingredient() -> (r: MythicOption<TradeIngredient>)
        ensures
            r matches MythicOption::Present(pre, value, suf) && pre@ == ";item2="@
                && value.is_blank() && suf@ == ""@,
    {
        MythicOption::present(";item2=", TradeIngredient::default(), "")
    }

    /// The uses of a trade: the key `uses`, behind a semicolon, at zero.
    pub fn add_trade_max_uses() -> (r: MythicOption<u8>)
        ensures
            r.holds(";uses="@, 0u8, ""@),
    {
        MythicOption::present(";uses=", 0u8, "")
    }

    /// Whether a trade drops experience: the key `expReward`, behind a
    /// semicolon, switched off.
    pub fn add_trade_experience_reward() -> (r: MythicOption<bool>)
        ensures
            r.holds(";expReward="@, false, ""@),
    {
        MythicOption::present(";expReward=", false, "")
    }

    /// The experience that a trade gives the villager: the key `villExp`,
    /// behind a semicolon, at zero.
    pub fn add_trade_villager_exp() -> (r: MythicOption<u16>)
        ensures
            r.holds(";villExp="@, 0u16, ""@),
    {
        MythicOption::present(";villExp=", 0u16, "")
    }

    /// The price multiplier of a trade: the key `multiplier`, behind a
    /// semicolon, at zero.
    pub fn add_trade_price_multiplier() -> (r: MythicOption<u8>)
        ensures
            r.holds(";multiplier="@, 0u8, ""@),
    {
        MythicOption::present(";multiplier=", 0u8, "")
    }

    /// The demand of a trade: the key `d`, behind a semicolon, at one.
    pub fn add_trade_demand() -> (r: MythicOption<u8>)
        ensures
            r.holds(";d="@, 1u8, ""@),
    {
        MythicOption::present(";d=", 1u8, "")
    }

    /// The special price of a trade: the key `special`, behind a semicolon,
    /// at one.
    pub fn add_trade_special_price() -> (r: MythicOption<u16>)
        ensures
            r.holds(";special="@, 1u16, ""@),
    {
        MythicOption::present(";special=", 1u16, "")
    }

    /// Whether a trade ignores discounts: the key `discounts`, behind a
    /// semicolon, switched off.
    pub fn add_trade_ignore_discounts() -> (r: MythicOption<bool>)
        ensures
            r.holds(";discounts="@, false, ""@),
    {
        MythicOption::present(";discounts=", false, "")
    }

    /// The horizontal spread of a teleport: the key `spreadh`, closed by a
    /// semicolon, at zero.
    pub fn teleport_spread_h() -> (r: MythicOption<u8>)
        ensures
            r.holds("spreadh="@, 0u8, ";"@),
    {
        MythicOption::present("spreadh=", 0u8, ";")
    }

    /// The vertical spread of a teleport: the key `spreadv`, closed by a
    /// semicolon, at zero.
    pub fn teleport_spread_v() -> (r: MythicOption<u8>)
        ensures
            r.holds("spreadv="@, 0u8, ";"@),
    {
        MythicOption::present("spreadv=", 0u8, ";")
    }

    /// Whether a teleport keeps the pitch: the key `preservepitch`, closed by
    /// a semicolon, switched off.
    pub fn teleport_preserve_pitch() -> (r: MythicOption<bool>)
        ensures
            r.holds("preservepitch="@, false, ";"@),
    {
        MythicOption::present("preservepitch=", false, ";")
    }

    /// Whether a teleport keeps the yaw: the key `preserveyaw`, closed by a
    /// semicolon, switched off.
    pub fn teleport_preserve_yaw() -> (r: MythicOption<bool>)
        ensures
            r.holds("preserveyaw="@, false, ";"@),
    {
        MythicOption::present("preserveyaw=", false, ";")
    }

    /// Whether a teleport looks for a safe place: the key `safeteleport`,
    /// closed by a semicolon, switched off.
    pub fn teleport_safe_teleport() -> (r: MythicOption<bool>)
        ensures
            r.holds("safeteleport="@, false, ";"@),
    {
        MythicOption::present("safeteleport=", false, ";")
    }

    /// Whether a relative teleport starts from the target: the key
    /// `targetasorigin`, closed by a semicolon, switched off.
    pub fn teleport_in_target_as_origin() -> (r: MythicOption<bool>)
        ensures
            r.holds("targetasorigin="@, false, ";"@),
    {
        MythicOption::present("targetasorigin=", false, ";")
    }
}

} // verus!
