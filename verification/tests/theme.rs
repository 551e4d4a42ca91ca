use sbtui::gui_state::Tone;
use sbtui::theme::{
    tone_colors, CONTENT_PAD, SIDEBAR_W, SUB_ACTION_NARROW, SUB_NAME_NARROW, SUB_STATUS_NARROW,
};

/// The card's own padding and border, measured off the 860×640 frame.
const CARD_INSET: f32 = 28.0;
/// The gap between two table columns.
const SUB_COL_GAP: f32 = 12.0;

/// The width a page's content actually gets: the window minus the sidebar
/// and the content padding on both sides.
fn content_width(window: f32) -> f32 {
    window - SIDEBAR_W as f32 - 2.0 * CONTENT_PAD as f32
}

#[test]
fn the_narrow_subscriptions_columns_fit_the_narrow_window() {
    let narrow_window = 860.0;
    let available = content_width(narrow_window) - CARD_INSET;
    let columns = SUB_NAME_NARROW as f32
        + SUB_STATUS_NARROW as f32
        + SUB_ACTION_NARROW as f32
        + 2.0 * SUB_COL_GAP;
    assert!(
        columns <= available,
        "the narrow subscriptions columns need {columns}px but the card has {available}px \
         at {narrow_window} wide — the overflow would be taken off the last action button"
    );
    assert!(
        available - columns >= 60.0,
        "only {:.0}px of slack at narrow; the widest triple has nowhere to grow",
        available - columns
    );
}

#[test]
fn the_warning_tone_has_its_own_colours() {
    let (text, background, _) = tone_colors(Tone::Warning);
    assert_ne!(text, background);
}
