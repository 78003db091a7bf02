//! Presentation constants shared with the frontend: frame title, font name,
//! text sizes and the color palette. Sizes are in logical pixels; colors are
//! red, green and blue channels.

use vstd::prelude::*;

verus! {

/// Title of the application frame.
pub const FRAME_TITLE: &'static str = "Invite Code Manager";

/// Font name for the main UI font.
pub const MAIN_FONT_NAME: &'static str = "Geist";

/// Size of the title text.
pub const TITLE_SIZE: u32 = 36;

/// Size of the subtitle text.
pub const SUBTITLE_SIZE: u32 = 24;

/// Input field width.
pub const INPUT_WIDTH: u32 = 200;

/// Base measure for the different spacing calculations in the UI.
pub const WIDGET_SPACING_BASE: u32 = 5;

/// Margin applied to the main frame of the application.
pub const FRAME_MARGIN: u32 = 50;

/// Corner radius for the input fields.
pub const INPUT_CORNER_RADIUS: u8 = 6;

/// Text color for the error messages.
pub const ERROR_TEXT_COLOR: (u8, u8, u8) = (255, 0, 0);

/// Background color for the UI.
pub const FRAME_BG_COLOR: (u8, u8, u8) = (250, 250, 250);

/// Background color for the UI in dark mode.
pub const FRAME_BG_DARK_COLOR: (u8, u8, u8) = (250, 250, 250);

/// Text color for the UI.
pub const FRAME_TEXT_COLOR: (u8, u8, u8) = (31, 11, 53);

/// Background color for the buttons.
pub const BUTTON_BG_COLOR: (u8, u8, u8) = (42, 255, 186);

} // verus!
