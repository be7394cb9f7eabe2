//! Colours and sizes of the windows.
//!
//! The palette is that of classic dialogs, with a dark counterpart for each
//! colour. The layout is written against one text size, and another choice
//! scales the whole interface.
use vstd::prelude::*;

verus! {

/// The text size that the layout is written against.
pub const FONT_SIZE: u16 = 13;

pub const WINDOW_BG: u32 = 0xF0F0F0;

pub const WINDOW_BG_DARK: u32 = 0x2B2B2B;

pub const SURFACE: u32 = 0xFFFFFF;

pub const SURFACE_DARK: u32 = 0x1E1E1E;

pub const TEXT: u32 = 0x1A1A1A;

pub const TEXT_DARK: u32 = 0xE6E6E6;

pub const TEXT_DIM: u32 = 0x6D6D6D;

pub const BORDER: u32 = 0xADADAD;

pub const BORDER_SOFT: u32 = 0xDCDCDC;

pub const GRID: u32 = 0xE5E5E5;

pub const GRID_DARK: u32 = 0x3A3A3A;

pub const ACCENT: u32 = 0x0067C0;

pub const HOVER_BG: u32 = 0xE5F1FB;

pub const HOVER_BORDER: u32 = 0x0078D7;

pub const SELECT_BG: u32 = 0xCCE8FF;

pub const SELECT_BG_DARK: u32 = 0x264F78;

pub const PROGRESS_GREEN: u32 = 0x3A9E3A;

pub const CHUNK_BLUE: u32 = 0x3B6FD4;

pub const CHUNK_TRACK: u32 = 0xDDE6F5;

pub const MENU_BG: u32 = 0xF9F9F9;

pub const MENU_BG_DARK: u32 = 0x2D2D2D;

/// One of two colours.
pub open spec fn either(dark: bool, d: u32, l: u32) -> u32 {
    if dark {
        d
    } else {
        l
    }
}

fn pick(dark: bool, d: u32, l: u32) -> (r: u32)
    ensures
        r == either(dark, d, l),
{
    if dark {
        d
    } else {
        l
    }
}

/// The three channels of a colour.
pub fn channels(rgb: u32) -> (r: (u8, u8, u8))
    ensures
        r.0 as int == rgb as int / 65536 % 256,
        r.1 as int == rgb as int / 256 % 256,
        r.2 as int == rgb as int % 256,
{
    ((rgb / 65536 % 256) as u8, (rgb / 256 % 256) as u8, (rgb % 256) as u8)
}

pub fn window_bg(dark: bool) -> (r: u32)
    ensures
        r == either(dark, WINDOW_BG_DARK, WINDOW_BG),
{
    pick(dark, WINDOW_BG_DARK, WINDOW_BG)
}

/// Content surfaces: the table, the tree, list boxes.
pub fn surface(dark: bool) -> (r: u32)
    ensures
        r == either(dark, SURFACE_DARK, SURFACE),
{
    pick(dark, SURFACE_DARK, SURFACE)
}

pub fn text_color(dark: bool) -> (r: u32)
    ensures
        r == either(dark, TEXT_DARK, TEXT),
{
    pick(dark, TEXT_DARK, TEXT)
}

/// The same in both palettes.
pub fn dim_text() -> (r: u32)
    ensures
        r == TEXT_DIM,
{
    TEXT_DIM
}

pub fn grid_line(dark: bool) -> (r: u32)
    ensures
        r == either(dark, GRID_DARK, GRID),
{
    pick(dark, GRID_DARK, GRID)
}

/// A window: background, text.
pub fn window(dark: bool) -> (r: (u32, u32))
    ensures
        r.0 == either(dark, WINDOW_BG_DARK, WINDOW_BG),
        r.1 == either(dark, TEXT_DARK, TEXT),
{
    (window_bg(dark), text_color(dark))
}

/// The background of a row of the table: selected, hovered, or none of its own.
pub fn row_cell(dark: bool, selected: bool, hovered: bool) -> (r: Option<u32>)
    ensures
        r == (if selected {
            Some(either(dark, SELECT_BG_DARK, SELECT_BG))
        } else if hovered {
            Some(either(dark, 0x2A3A4A, 0xE9F3FD))
        } else {
            None
        }),
{
    if selected {
        Some(pick(dark, SELECT_BG_DARK, SELECT_BG))
    } else if hovered {
        Some(pick(dark, 0x2A3A4A, 0xE9F3FD))
    } else {
        None
    }
}

/// What a button is in.
#[derive(Clone, Copy, PartialEq, Eq, Structural, Debug)]
pub enum ButtonStatus {
    Active,
    Hovered,
    Pressed,
    Disabled,
}

/// The colours of a push button: background, border, text.
pub open spec fn button_colors(dark: bool, status: ButtonStatus) -> (u32, u32, u32) {
    match status {
        ButtonStatus::Hovered => (HOVER_BG, HOVER_BORDER, TEXT),
        ButtonStatus::Pressed => (HOVER_BG, HOVER_BORDER, TEXT),
        ButtonStatus::Disabled => (
            either(dark, 0x333333, 0xF5F5F5),
            either(dark, GRID_DARK, BORDER_SOFT),
            TEXT_DIM,
        ),
        ButtonStatus::Active => (
            either(dark, 0x3C3C3C, SURFACE),
            either(dark, 0x5A5A5A, BORDER),
            either(dark, TEXT_DARK, TEXT),
        ),
    }
}

/// A push button of a dialog.
pub fn btn(dark: bool, status: ButtonStatus) -> (r: (u32, u32, u32))
    ensures
        r == button_colors(dark, status),
{
    match status {
        ButtonStatus::Hovered | ButtonStatus::Pressed => (HOVER_BG, HOVER_BORDER, TEXT),
        ButtonStatus::Disabled => (
            pick(dark, 0x333333, 0xF5F5F5),
            pick(dark, GRID_DARK, BORDER_SOFT),
            TEXT_DIM,
        ),
        ButtonStatus::Active => (
            pick(dark, 0x3C3C3C, SURFACE),
            pick(dark, 0x5A5A5A, BORDER),
            pick(dark, TEXT_DARK, TEXT),
        ),
    }
}

/// The default button of a dialog has the accent for its border.
pub fn btn_primary(dark: bool, status: ButtonStatus) -> (r: (u32, u32, u32))
    ensures
        r.0 == button_colors(dark, status).0,
        r.1 == (if status == ButtonStatus::Disabled {
            button_colors(dark, status).1
        } else {
            ACCENT
        }),
        r.2 == button_colors(dark, status).2,
{
    let (bg, bd, txt) = btn(dark, status);
    if status == ButtonStatus::Disabled {
        (bg, bd, txt)
    } else {
        (bg, ACCENT, txt)
    }
}

/// A surface with an edge: background, border.
pub fn panel(dark: bool) -> (r: (u32, u32))
    ensures
        r.0 == either(dark, SURFACE_DARK, SURFACE),
        r.1 == either(dark, GRID_DARK, BORDER_SOFT),
{
    (pick(dark, SURFACE_DARK, SURFACE), pick(dark, GRID_DARK, BORDER_SOFT))
}

/// A dropdown: background, border.
pub fn menu_panel(dark: bool) -> (r: (u32, u32))
    ensures
        r.0 == either(dark, MENU_BG_DARK, MENU_BG),
        r.1 == either(dark, GRID_DARK, 0xC8C8C8),
{
    (pick(dark, MENU_BG_DARK, MENU_BG), pick(dark, GRID_DARK, 0xC8C8C8))
}

/// The part of a connection's strip that has arrived; the same in both palettes.
pub fn chunk_on() -> (r: u32)
    ensures
        r == CHUNK_BLUE,
{
    CHUNK_BLUE
}

/// The part of a connection's strip that has not arrived.
pub fn chunk_off(dark: bool) -> (r: u32)
    ensures
        r == either(dark, 0x333B4A, CHUNK_TRACK),
{
    pick(dark, 0x333B4A, CHUNK_TRACK)
}

/// The pointer is over a button, or presses it.
pub open spec fn lit(status: ButtonStatus) -> bool {
    status == ButtonStatus::Hovered || status == ButtonStatus::Pressed
}

fn is_lit(status: ButtonStatus) -> (r: bool)
    ensures
        r == lit(status),
{
    match status {
        ButtonStatus::Hovered | ButtonStatus::Pressed => true,
        _ => false,
    }
}

/// The text of a flat button.
pub open spec fn flat_text(dark: bool, status: ButtonStatus) -> u32 {
    if status == ButtonStatus::Disabled {
        TEXT_DIM
    } else {
        either(dark, TEXT_DARK, TEXT)
    }
}

fn flat(dark: bool, status: ButtonStatus, d: u32, l: u32) -> (r: (Option<u32>, u32))
    ensures
        r.0 == (if lit(status) {
            Some(either(dark, d, l))
        } else {
            None
        }),
        r.1 == flat_text(dark, status),
{
    let bg = if is_lit(status) {
        Some(pick(dark, d, l))
    } else {
        None
    };
    if status == ButtonStatus::Disabled {
        (bg, TEXT_DIM)
    } else {
        (bg, text_color(dark))
    }
}

/// A button of the toolbar: background, text.
pub fn btn_toolbar(dark: bool, status: ButtonStatus) -> (r: (Option<u32>, u32))
    ensures
        r.0 == (if lit(status) {
            Some(either(dark, 0x3A3A3A, 0xE8E8E8))
        } else {
            None
        }),
        r.1 == flat_text(dark, status),
{
    flat(dark, status, 0x3A3A3A, 0xE8E8E8)
}

/// A title of the menu bar, or a row of a dropdown: background, text.
pub fn btn_menu(dark: bool, status: ButtonStatus) -> (r: (Option<u32>, u32))
    ensures
        r.0 == (if lit(status) {
            Some(either(dark, 0x094771, SELECT_BG))
        } else {
            None
        }),
        r.1 == flat_text(dark, status),
{
    flat(dark, status, 0x094771, SELECT_BG)
}

/// A row that is a button: as a row of the table, lit only by hovering.
pub fn btn_row(dark: bool, selected: bool, status: ButtonStatus) -> (r: Option<u32>)
    ensures
        r == (if selected {
            Some(either(dark, SELECT_BG_DARK, SELECT_BG))
        } else if status == ButtonStatus::Hovered {
            Some(either(dark, 0x2A3A4A, 0xE9F3FD))
        } else {
            None
        }),
{
    row_cell(dark, selected, status == ButtonStatus::Hovered)
}

/// The title of a tab.
pub fn btn_tab(dark: bool, selected: bool, status: ButtonStatus) -> (r: u32)
    ensures
        r == (if selected {
            either(dark, SURFACE_DARK, SURFACE)
        } else if status == ButtonStatus::Hovered {
            either(dark, 0x3A3A3A, 0xE8E8E8)
        } else {
            either(dark, WINDOW_BG_DARK, WINDOW_BG)
        }),
{
    if selected {
        surface(dark)
    } else if status == ButtonStatus::Hovered {
        pick(dark, 0x3A3A3A, 0xE8E8E8)
    } else {
        window_bg(dark)
    }
}

/// The edge of the box that a sweep of the pointer draws.
pub fn band(dark: bool) -> (r: u32)
    ensures
        r == either(dark, 0x4A9EFF, 0x3399FF),
{
    pick(dark, 0x4A9EFF, 0x3399FF)
}

/// A column's title.
pub fn header_cell(dark: bool, hovered: bool) -> (r: u32)
    ensures
        r == (if hovered {
            either(dark, 0x2E2E2E, 0xF5F9FF)
        } else {
            either(dark, SURFACE_DARK, SURFACE)
        }),
{
    if hovered {
        pick(dark, 0x2E2E2E, 0xF5F9FF)
    } else {
        surface(dark)
    }
}

/// What a text box or a picker is in.
#[derive(Clone, Copy, PartialEq, Eq, Structural, Debug)]
pub enum FieldStatus {
    Active,
    Hovered,
    /// Typed in, or opened.
    Focused,
}

/// The border of a text box.
pub fn input(dark: bool, status: FieldStatus) -> (r: u32)
    ensures
        r == (match status {
            FieldStatus::Focused => ACCENT,
            FieldStatus::Hovered => HOVER_BORDER,
            FieldStatus::Active => either(dark, 0x5A5A5A, 0x7A7A7A),
        }),
{
    match status {
        FieldStatus::Focused => ACCENT,
        FieldStatus::Hovered => HOVER_BORDER,
        FieldStatus::Active => pick(dark, 0x5A5A5A, 0x7A7A7A),
    }
}

/// The border of a picker.
pub fn picker(dark: bool, status: FieldStatus) -> (r: u32)
    ensures
        r == (if status == FieldStatus::Active {
            either(dark, 0x5A5A5A, 0x7A7A7A)
        } else {
            HOVER_BORDER
        }),
{
    match status {
        FieldStatus::Active => pick(dark, 0x5A5A5A, 0x7A7A7A),
        _ => HOVER_BORDER,
    }
}

/// A tick box: background, border, text. A disabled one is never drawn ticked.
pub fn check(dark: bool, ticked: bool, disabled: bool) -> (r: (u32, u32, u32))
    ensures
        r.0 == (if ticked && !disabled {
            0x0B5CABu32
        } else {
            either(dark, 0x3C3C3C, SURFACE)
        }),
        r.1 == (if disabled {
            BORDER_SOFT
        } else if ticked {
            0x0B5CABu32
        } else {
            0x7A7A7Au32
        }),
        r.2 == (if disabled {
            TEXT_DIM
        } else {
            either(dark, TEXT_DARK, TEXT)
        }),
{
    if disabled {
        (pick(dark, 0x3C3C3C, SURFACE), BORDER_SOFT, TEXT_DIM)
    } else if ticked {
        (0x0B5CAB, 0x0B5CAB, text_color(dark))
    } else {
        (pick(dark, 0x3C3C3C, SURFACE), 0x7A7A7A, text_color(dark))
    }
}

/// A progress bar: the well, its border, and the bar in it.
pub fn progress(dark: bool) -> (r: (u32, u32, u32))
    ensures
        r.0 == either(dark, 0x3A3A3A, 0xE0E0E0),
        r.1 == either(dark, GRID_DARK, 0xC8C8C8),
        r.2 == PROGRESS_GREEN,
{
    (pick(dark, 0x3A3A3A, 0xE0E0E0), pick(dark, GRID_DARK, 0xC8C8C8), PROGRESS_GREEN)
}

/// The well of the bar that a scan shows, and its border: those of a progress
/// bar, so that only the motion tells them apart.
pub fn scan_track(dark: bool) -> (r: (u32, u32))
    ensures
        r.0 == either(dark, 0x3A3A3A, 0xE0E0E0),
        r.1 == either(dark, GRID_DARK, 0xC8C8C8),
{
    (pick(dark, 0x3A3A3A, 0xE0E0E0), pick(dark, GRID_DARK, 0xC8C8C8))
}

/// The block that slides in the well of a scan.
pub fn scan_block() -> (r: u32)
    ensures
        r == PROGRESS_GREEN,
{
    PROGRESS_GREEN
}

/// The scale of the interface in twenty-sixths, for a text size: the ratio to
/// the size the layout is written against, never below a half nor above two. A
/// configuration without a size has the base size.
pub open spec fn scale_of(font_size: u16) -> int {
    if font_size == 0 {
        26
    } else if 2 * font_size < 13 {
        13
    } else if 2 * font_size > 52 {
        52
    } else {
        2 * font_size
    }
}

/// The scale of the interface, in twenty-sixths.
pub fn ui_scale(font_size: u16) -> (r: u32)
    ensures
        r == scale_of(font_size),
{
    let n: u32 = 2 * (font_size as u32);
    if font_size == 0 {
        26
    } else if n < 13 {
        13
    } else if n > 52 {
        52
    } else {
        n
    }
}

// ------------------------------------------------------------------------- laws

/// No configuration can leave the program unreadable.
pub proof fn the_scale_stays_within_two(font_size: u16)
    ensures
        13 <= scale_of(font_size) <= 52,
{
}

/// The base size is drawn as it is laid out.
pub proof fn the_base_size_is_not_scaled()
    ensures
        scale_of(FONT_SIZE) == 26,
{
}

} // verus!
