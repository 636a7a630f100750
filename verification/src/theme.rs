//! The palette of the terminal dashboard: one amber accent on charcoal.
//!
//! Each colour falls back from its 24-bit value to the nearest entry of the
//! 256-colour table, to a basic named colour, and to the terminal's own.
use crate::text;
use vstd::prelude::*;

verus! {

/// How much colour the terminal can show.
#[derive(Debug, Clone, Copy, PartialEq, Eq, Structural)]
pub enum Tier {
    /// 24-bit values.
    Truecolor,
    /// The 256-colour table.
    Ansi256,
    /// The basic named colours.
    Basic,
    /// No colour at all.
    Plain,
}

/// A colour as the terminal is asked for it.
#[derive(Debug, Clone, Copy, PartialEq, Eq, Structural)]
pub enum Color {
    Rgb(u8, u8, u8),
    Indexed(u8),
    Yellow,
    DarkGray,
    White,
    Black,
    Green,
    Red,
    /// The terminal's own.
    Reset,
}

/// The tier of a terminal.
pub open spec fn tier_of(no_color: bool, term: Seq<char>, colorterm: Seq<char>) -> Tier {
    if no_color || term == "dumb"@ {
        Tier::Plain
    } else if text::holds(text::lowered(colorterm), "truecolor"@) || text::holds(
        text::lowered(colorterm),
        "24bit"@,
    ) {
        Tier::Truecolor
    } else if text::holds(term, "256color"@) {
        Tier::Ansi256
    } else {
        Tier::Basic
    }
}

/// The tier of a terminal from the environment's `NO_COLOR`, `TERM` and
/// `COLORTERM`.
pub fn resolve_tier(no_color: bool, term: &str, colorterm: &str) -> (r: Tier)
    ensures
        r == tier_of(no_color, term@, colorterm@),
{
    if no_color || text::same(term, "dumb") {
        return Tier::Plain;
    }
    let low = text::to_lower(colorterm);
    if text::contains(low.as_str(), "truecolor") || text::contains(low.as_str(), "24bit") {
        Tier::Truecolor
    } else if text::contains(term, "256color") {
        Tier::Ansi256
    } else {
        Tier::Basic
    }
}

/// The form of a colour on a tier.
pub open spec fn on_tier(tier: Tier, rgb: (u8, u8, u8), idx: u8, basic: Color) -> Color {
    match tier {
        Tier::Truecolor => Color::Rgb(rgb.0, rgb.1, rgb.2),
        Tier::Ansi256 => Color::Indexed(idx),
        Tier::Basic => basic,
        Tier::Plain => Color::Reset,
    }
}

/// The form of a colour on a tier: its 24-bit value, its index, its basic
/// name, or the terminal's own.
pub fn color_for(tier: Tier, rgb: (u8, u8, u8), idx: u8, basic: Color) -> (r: Color)
    ensures
        r == on_tier(tier, rgb, idx, basic),
{
    match tier {
        Tier::Truecolor => Color::Rgb(rgb.0, rgb.1, rgb.2),
        Tier::Ansi256 => Color::Indexed(idx),
        Tier::Basic => basic,
        Tier::Plain => Color::Reset,
    }
}

/// The amber accent.
pub fn accent(tier: Tier) -> (r: Color)
    ensures
        r == on_tier(tier, (235, 193, 87), 179, Color::Yellow),
{
    color_for(tier, (235, 193, 87), 179, Color::Yellow)
}

/// Muted grey for labels and inactive dots.
pub fn muted(tier: Tier) -> (r: Color)
    ensures
        r == on_tier(tier, (138, 138, 138), 245, Color::DarkGray),
{
    color_for(tier, (138, 138, 138), 245, Color::DarkGray)
}

/// Near-white for headings and values.
pub fn heading(tier: Tier) -> (r: Color)
    ensures
        r == on_tier(tier, (233, 233, 233), 254, Color::White),
{
    color_for(tier, (233, 233, 233), 254, Color::White)
}

/// Dark text on an amber chip or gauge.
pub fn on_amber(tier: Tier) -> (r: Color)
    ensures
        r == on_tier(tier, (26, 26, 26), 235, Color::Black),
{
    color_for(tier, (26, 26, 26), 235, Color::Black)
}

/// Success green.
pub fn success(tier: Tier) -> (r: Color)
    ensures
        r == on_tier(tier, (121, 200, 121), 114, Color::Green),
{
    color_for(tier, (121, 200, 121), 114, Color::Green)
}

/// Warning yellow.
pub fn warning(tier: Tier) -> (r: Color)
    ensures
        r == on_tier(tier, (227, 199, 102), 179, Color::Yellow),
{
    color_for(tier, (227, 199, 102), 179, Color::Yellow)
}

/// Destructive salmon red.
pub fn danger(tier: Tier) -> (r: Color)
    ensures
        r == on_tier(tier, (224, 108, 90), 209, Color::Red),
{
    color_for(tier, (224, 108, 90), 209, Color::Red)
}

/// The charcoal background, on the tiers that can show a background; the
/// others keep the terminal's own.
pub fn background(tier: Tier) -> (r: Option<Color>)
    ensures
        r == (match tier {
            Tier::Truecolor => Some(Color::Rgb(31, 31, 31)),
            Tier::Ansi256 => Some(Color::Indexed(234)),
            _ => None,
        }),
        r is Some <==> tier == Tier::Truecolor || tier == Tier::Ansi256,
{
    match tier {
        Tier::Truecolor => Some(Color::Rgb(31, 31, 31)),
        Tier::Ansi256 => Some(Color::Indexed(234)),
        _ => None,
    }
}

/// Without colour, whatever else the environment says, every colour is the
/// terminal's own.
pub proof fn law_no_color_wins(
    term: Seq<char>,
    colorterm: Seq<char>,
    rgb: (u8, u8, u8),
    idx: u8,
    basic: Color,
)
    ensures
        on_tier(tier_of(true, term, colorterm), rgb, idx, basic) == Color::Reset,
{
}

/// The tier of a terminal, case by case: no colour where it is unwanted or the
/// terminal is a dumb one, all colours where they are announced in any letter
/// case, 256 where the terminal's name says so, and the basic ones elsewhere.
pub proof fn law_the_tier_of_a_terminal(no_color: bool, term: Seq<char>, colorterm: Seq<char>)
    ensures
        ({
            let t = tier_of(no_color, term, colorterm);
            let low = text::lowered(colorterm);
            let full = text::holds(low, "truecolor"@) || text::holds(low, "24bit"@);
            &&& (t == Tier::Plain <==> no_color || term == "dumb"@)
            &&& (t == Tier::Truecolor <==> !no_color && term != "dumb"@ && full)
            &&& (t == Tier::Ansi256 <==> !no_color && term != "dumb"@ && !full && text::holds(
                term,
                "256color"@,
            ))
            &&& (t == Tier::Basic <==> !no_color && term != "dumb"@ && !full && !text::holds(
                term,
                "256color"@,
            ))
        }),
{
}

/// A colour takes the form of its tier.
pub proof fn law_colours_take_the_form_of_the_tier(rgb: (u8, u8, u8), idx: u8, basic: Color)
    ensures
        on_tier(Tier::Truecolor, rgb, idx, basic) == Color::Rgb(rgb.0, rgb.1, rgb.2),
        on_tier(Tier::Ansi256, rgb, idx, basic) == Color::Indexed(idx),
        on_tier(Tier::Basic, rgb, idx, basic) == basic,
        on_tier(Tier::Plain, rgb, idx, basic) == Color::Reset,
{
}

} // verus!
