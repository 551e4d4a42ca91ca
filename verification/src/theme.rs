//! The desktop client's design tokens: the palette, the control tones, and the
//! narrow-window layout widths that have to add up.

use vstd::prelude::*;

use crate::gui_state::Tone;

verus! {

pub const BG: u32 = 0xf3f6f5;
pub const SURFACE: u32 = 0xffffff;
pub const SURFACE_2: u32 = 0xf7f9f8;
pub const BORDER: u32 = 0xdce4e1;
/// The border a surface uses when it wants to be touched.
pub const BORDER_STRONG: u32 = 0xcbd8d4;
pub const TEXT: u32 = 0x13201e;
/// Secondary text, dark enough for AA contrast on every surface the window
/// paints.
pub const MUTED: u32 = 0x5d6b68;
/// Decoration only: separators, disabled glyphs, unit suffixes.
pub const FAINT: u32 = 0x8f9c99;
/// Accent for borders, focus bars and indicator dots, not for text.
pub const CYAN: u32 = 0x0d9488;
pub const CYAN_DARK: u32 = 0x08766d;
pub const BLUE_2: u32 = 0xdef4f1;
/// The upload series only.
pub const BLUE: u32 = 0x3b82f6;
pub const NAV_ACTIVE: u32 = 0xdef4f1;
pub const ROW_HOVER: u32 = 0xf2faf8;
pub const ROW_SELECTED: u32 = 0xedf9f7;
/// The accent's edge: the darker of the two teal steps.
pub const EDGE: u32 = 0x08766d;
pub const MINT: u32 = 0x16a06d;
/// Warning text.
pub const AMBER: u32 = 0x9a4708;
pub const DANGER: u32 = 0xa33c3c;

/// How many rows the rules and connections lists draw before asking.
pub const LIST_PAGE: usize = 120;

/// The sidebar's width, in logical pixels.
pub const SIDEBAR_W: u32 = 188;
/// The content padding on each side, in logical pixels.
pub const CONTENT_PAD: u32 = 20;
/// The subscriptions name column's floor at the narrow width.
pub const SUB_NAME_NARROW: u32 = 120;
/// The subscriptions status column at the narrow width.
pub const SUB_STATUS_NARROW: u32 = 64;
/// The subscriptions action track at the narrow width, sized for the widest
/// triple of buttons in the longer language.
pub const SUB_ACTION_NARROW: u32 = 250;

/// The width a page's content gets in a window `window` pixels wide.
pub open spec fn content_width(window: int) -> int {
    window - SIDEBAR_W - 2 * CONTENT_PAD
}

/// The three narrow subscription columns and their two gaps fit an
/// 860-pixel window with at least 60 pixels to spare, for any card inset up to
/// 28 pixels and any column gap up to 12.
pub proof fn narrow_subscription_columns_fit(card_inset: int, column_gap: int)
    requires
        0 <= card_inset <= 28,
        0 <= column_gap <= 12,
    ensures
        content_width(860) - card_inset - (SUB_NAME_NARROW + SUB_STATUS_NARROW
            + SUB_ACTION_NARROW + 2 * column_gap) >= 60,
{
}

/// The text, fill and edge colours of a control of each tone.
pub open spec fn tone_colors_spec(tone: Tone) -> (u32, u32, u32) {
    match tone {
        Tone::Accent => (0xffffff, CYAN, EDGE),
        Tone::Neutral => (TEXT, SURFACE_2, BORDER),
        Tone::Warning => (0x985c08, 0xfff5e5, 0xf2dfbf),
        Tone::Danger => (DANGER, SURFACE, BORDER_STRONG),
    }
}

pub fn tone_colors(tone: Tone) -> (c: (u32, u32, u32))
    ensures
        c == tone_colors_spec(tone),
{
    match tone {
        Tone::Accent => (0xffffff, CYAN, EDGE),
        Tone::Neutral => (TEXT, SURFACE_2, BORDER),
        Tone::Warning => (0x985c08, 0xfff5e5, 0xf2dfbf),
        Tone::Danger => (DANGER, SURFACE, BORDER_STRONG),
    }
}

} // verus!
