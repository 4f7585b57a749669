use vstd::prelude::*;

verus! {

/// The size of a viewport or window, in axis units.
#[derive(Clone, Copy, Debug, Eq, Hash, PartialEq, Structural)]
pub struct Size {
    /// Horizontal extent.
    pub width: u32,
    /// Vertical extent.
    pub height: u32,
}

/// A viewport, as reported by a windowing host: the drawing rectangle in
/// window coordinates, the size of the drawing area, and the window size.
#[derive(Clone, Copy, Debug, Eq, Hash, PartialEq)]
pub struct Viewport {
    /// Position and dimensions of the drawing rectangle: x, y, width, height.
    pub rect: [i32; 4],
    /// Size of the drawing area.
    pub draw_size: [u32; 2],
    /// Size of the window.
    pub window_size: [u32; 2],
}

/// A mouse motion event. Coordinates and deltas are whole axis units; a host
/// that reports fractional positions quantizes them at the boundary.
#[derive(Clone, Copy, Debug, Eq, Hash, PartialEq, Structural)]
pub enum Motion {
    /// An absolute cursor position, with the origin in the top left corner of
    /// the viewport.
    Cursor(i64, i64),
    /// A scroll delta; positive values scroll right and down.
    Scroll(i64, i64),
    /// A relative cursor movement; passed through unchanged.
    Relative(i64, i64),
}

/// Clamps a mathematical integer into the range of `i64`.
pub open spec fn clamp_i64(v: int) -> i64 {
    if v > i64::MAX {
        i64::MAX
    } else if v < i64::MIN {
        i64::MIN
    } else {
        v as i64
    }
}

/// The coordinate `v` mirrored across a viewport of extent `extent`.
pub open spec fn mirror_spec(extent: u32, v: i64) -> i64 {
    clamp_i64(extent - v)
}

/// The delta `v` with its direction reversed.
pub open spec fn negate_spec(v: i64) -> i64 {
    clamp_i64(-v)
}

/// Configuration of the mouse transform: which axes are inverted for motion
/// and for scrolling, the reserved sensitivity setting, and the viewport size
/// used to mirror cursor positions.
#[derive(Clone, Copy, Debug, Eq, Hash, PartialEq, Structural)]
pub struct MouseConfig {
    /// Whether cursor positions are mirrored across the x axis.
    pub x_motion_inverted: bool,
    /// Whether cursor positions are mirrored across the y axis.
    pub y_motion_inverted: bool,
    /// Whether scroll deltas along the x axis are reversed.
    pub x_scroll_inverted: bool,
    /// Whether scroll deltas along the y axis are reversed.
    pub y_scroll_inverted: bool,
    /// Mouse sensitivity, in raw caller-supplied units. Reserved state: it is
    /// carried through unchanged by every operation and applied by none.
    pub sensitivity: u64,
    /// The viewport size used to mirror cursor positions.
    pub viewport_size: Size,
}

impl MouseConfig {
    /// The default configuration for a viewport of the given size: nothing
    /// inverted, sensitivity zero.
    pub open spec fn initial(size: Size) -> MouseConfig {
        MouseConfig {
            x_motion_inverted: false,
            y_motion_inverted: false,
            x_scroll_inverted: false,
            y_scroll_inverted: false,
            sensitivity: 0,
            viewport_size: size,
        }
    }

    /// The motion `m` transformed under this configuration: cursor positions
    /// are mirrored across each inverted motion axis, scroll deltas are
    /// reversed along each inverted scroll axis, and every other motion is
    /// passed through unchanged. The sensitivity setting plays no part.
    pub open spec fn apply_spec(self, m: Motion) -> Motion {
        match m {
            Motion::Cursor(x, y) => Motion::Cursor(
                if self.x_motion_inverted {
                    mirror_spec(self.viewport_size.width, x)
                } else {
                    x
                },
                if self.y_motion_inverted {
                    mirror_spec(self.viewport_size.height, y)
                } else {
                    y
                },
            ),
            Motion::Scroll(dx, dy) => Motion::Scroll(
                if self.x_scroll_inverted {
                    negate_spec(dx)
                } else {
                    dx
                },
                if self.y_scroll_inverted {
                    negate_spec(dy)
                } else {
                    dy
                },
            ),
            Motion::Relative(dx, dy) => Motion::Relative(dx, dy),
        }
    }

    /// Creates the default configuration for a viewport of the given size.
    pub fn new(size: Size) -> (c: MouseConfig)
        ensures
            c == MouseConfig::initial(size),
    {
        MouseConfig {
            x_motion_inverted: false,
            y_motion_inverted: false,
            x_scroll_inverted: false,
            y_scroll_inverted: false,
            sensitivity: 0,
            viewport_size: size,
        }
    }

    /// Transforms a motion event under this configuration.
    pub fn apply(&self, m: Motion) -> (r: Motion)
        ensures
            r == self.apply_spec(m),
    {
        match m {
            Motion::Cursor(x, y) => {
                let cx = if self.x_motion_inverted {
                    mirror(self.viewport_size.width, x)
                } else {
                    x
                };
                let cy = if self.y_motion_inverted {
                    mirror(self.viewport_size.height, y)
                } else {
                    y
                };
                Motion::Cursor(cx, cy)
            },
            Motion::Scroll(dx, dy) => {
                let sx = if self.x_scroll_inverted {
                    negate(dx)
                } else {
                    dx
                };
                let sy = if self.y_scroll_inverted {
                    negate(dy)
                } else {
                    dy
                };
                Motion::Scroll(sx, sy)
            },
            Motion::Relative(dx, dy) => Motion::Relative(dx, dy),
        }
    }
}

/// Mirrors the coordinate `v` across a viewport of extent `extent`,
/// saturating at the edge of the representable range.
fn mirror(extent: u32, v: i64) -> (r: i64)
    ensures
        r == mirror_spec(extent, v),
{
    let wide: i128 = extent as i128 - v as i128;
    if wide > i64::MAX as i128 {
        i64::MAX
    } else {
        wide as i64
    }
}

/// Reverses the direction of the delta `v`, saturating at the edge of the
/// representable range.
fn negate(v: i64) -> (r: i64)
    ensures
        r == negate_spec(v),
{
    if v == i64::MIN {
        i64::MAX
    } else {
        -v
    }
}

/// The transform never reads the sensitivity setting: two configurations that
/// differ only in sensitivity transform every motion identically.
pub proof fn lemma_sensitivity_not_applied(a: MouseConfig, b: MouseConfig, m: Motion)
    requires
        a == (MouseConfig { sensitivity: a.sensitivity, ..b }),
    ensures
        a.apply_spec(m) == b.apply_spec(m),
{
}

} // verus!
