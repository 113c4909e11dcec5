//! Display-side pure logic: the brightness step chosen from the
//! configuration, and the pixel positions of the rendered frame.
//!
//! The panel is 128x32 monochrome; the main statistic font is 8 pixels wide.
//! Drawing itself happens outside the library; this module only computes
//! where each text anchor goes, shifted by the current anti-burn-in offset.

use vstd::prelude::*;

verus! {

/// A 2D pixel coordinate or translation.
#[derive(Clone, Copy, Debug, PartialEq, Eq, Structural)]
pub struct Point {
    pub x: i32,
    pub y: i32,
}

impl Point {
    pub fn new(x: i32, y: i32) -> (r: Point)
        ensures
            r == (Point { x, y }),
    {
        Point { x, y }
    }
}

/// One of the five brightness steps the panel offers.
#[derive(Clone, Copy, Debug, PartialEq, Eq, Structural)]
pub enum Brightness {
    Dimmest,
    Dim,
    Normal,
    Bright,
    Brightest,
}

/// The brightness step a configured value selects: 0 through 4 pick the
/// steps in order; any other value falls back to the dimmest step.
pub open spec fn spec_brightness_from_config(value: u8) -> Brightness {
    if value == 0 {
        Brightness::Dimmest
    } else if value == 1 {
        Brightness::Dim
    } else if value == 2 {
        Brightness::Normal
    } else if value == 3 {
        Brightness::Bright
    } else if value == 4 {
        Brightness::Brightest
    } else {
        Brightness::Dimmest
    }
}

/// Maps the configured brightness value to the step the panel is set to at
/// startup. An out-of-range value falls back to the dimmest step; the caller
/// may warn about it.
pub fn brightness_from_config(value: u8) -> (r: Brightness)
    ensures
        r == spec_brightness_from_config(value),
{
    match value {
        0 => Brightness::Dimmest,
        1 => Brightness::Dim,
        2 => Brightness::Normal,
        3 => Brightness::Bright,
        4 => Brightness::Brightest,
        _ => Brightness::Dimmest,
    }
}

/// The text anchor positions of one rendered frame, anti-burn-in offset
/// already applied.
#[derive(Clone, Copy, Debug, PartialEq, Eq, Structural)]
pub struct FrameLayout {
    /// The IP address line, centred in the top row.
    pub ip_position: Point,
    /// CPU usage, right-aligned in the left column, middle row.
    pub cpu_position: Point,
    /// RAM usage, right-aligned in the left column, bottom row.
    pub ram_position: Point,
    /// CPU temperature, right-aligned in the right column, middle row.
    pub temp_position: Point,
    /// Disk usage, right-aligned in the right column, bottom row.
    pub disk_position: Point,
}

/// Pixel width of the panel.
pub const DISPLAY_WIDTH: i32 = 128;

/// Pixel width of one glyph of the statistics font.
pub const CHAR_WIDTH: i32 = 8;

/// The largest text length the layout accepts; keeps every coordinate well
/// inside the 32-bit range.
pub const MAX_TEXT_LEN: usize = 1000000;

/// The x coordinate that centres a text of pixel width `w` on the panel,
/// computed with division truncating towards zero as the machine does.
pub open spec fn spec_centered_x(w: int) -> int {
    if w <= DISPLAY_WIDTH {
        (DISPLAY_WIDTH - w) / 2
    } else {
        -((w - DISPLAY_WIDTH) / 2)
    }
}

/// Where each text of a frame goes, given the character counts of the five
/// statistic strings and the anti-burn-in offset.
pub open spec fn spec_layout(
    ip_len: int,
    cpu_len: int,
    temp_len: int,
    ram_len: int,
    disk_len: int,
    offset: Point,
) -> FrameLayout {
    FrameLayout {
        ip_position: Point {
            x: (spec_centered_x(ip_len * CHAR_WIDTH) + offset.x) as i32,
            y: (7 + offset.y) as i32,
        },
        cpu_position: Point {
            x: (34 - cpu_len * CHAR_WIDTH + offset.x) as i32,
            y: (19 + offset.y) as i32,
        },
        ram_position: Point {
            x: (34 - ram_len * CHAR_WIDTH + offset.x) as i32,
            y: (30 + offset.y) as i32,
        },
        temp_position: Point {
            x: (99 - temp_len * CHAR_WIDTH + offset.x) as i32,
            y: (19 + offset.y) as i32,
        },
        disk_position: Point {
            x: (99 - disk_len * CHAR_WIDTH + offset.x) as i32,
            y: (30 + offset.y) as i32,
        },
    }
}

/// Bound on an anti-burn-in offset: small enough that adding it to any
/// anchor coordinate stays well inside the 32-bit range.
pub open spec fn offset_in_range(p: Point) -> bool {
    -1024 <= p.x <= 1024 && -1024 <= p.y <= 1024
}

/// Computes the anchor position of each statistic string of one frame from
/// the five character counts, shifted by the anti-burn-in offset.
pub fn compute_layout(
    ip_len: usize,
    cpu_len: usize,
    temp_len: usize,
    ram_len: usize,
    disk_len: usize,
    offset: Point,
) -> (r: FrameLayout)
    requires
        ip_len <= MAX_TEXT_LEN,
        cpu_len <= MAX_TEXT_LEN,
        temp_len <= MAX_TEXT_LEN,
        ram_len <= MAX_TEXT_LEN,
        disk_len <= MAX_TEXT_LEN,
        offset_in_range(offset),
    ensures
        r == spec_layout(
            ip_len as int,
            cpu_len as int,
            temp_len as int,
            ram_len as int,
            disk_len as int,
            offset,
        ),
{
    let ip_width: i32 = (ip_len as i32) * CHAR_WIDTH;
    let ip_x: i32 = if ip_width <= DISPLAY_WIDTH {
        (DISPLAY_WIDTH - ip_width) / 2
    } else {
        -((ip_width - DISPLAY_WIDTH) / 2)
    };
    FrameLayout {
        ip_position: Point { x: ip_x + offset.x, y: 7 + offset.y },
        cpu_position: Point { x: 34 - (cpu_len as i32) * CHAR_WIDTH + offset.x, y: 19 + offset.y },
        ram_position: Point { x: 34 - (ram_len as i32) * CHAR_WIDTH + offset.x, y: 30 + offset.y },
        temp_position: Point {
            x: 99 - (temp_len as i32) * CHAR_WIDTH + offset.x,
            y: 19 + offset.y,
        },
        disk_position: Point {
            x: 99 - (disk_len as i32) * CHAR_WIDTH + offset.x,
            y: 30 + offset.y,
        },
    }
}

} // verus!
