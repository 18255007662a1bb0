use vstd::prelude::*;

use crate::common::{abs_int, is_i32, max_int, min_int};
use crate::offset::GeometryOffset;
use crate::region::Region;
use crate::spacing::Spacing;

verus! {

/// How `Region::constrain` treats one axis.
#[derive(Debug, Clone, Copy, PartialEq, Eq, Structural)]
pub enum ConstrainMode {
    /// Leave the axis alone.
    Unconstrained,
    /// Move the region inside the container on this axis.
    Inside,
    /// Flip the region to the other side of its anchor when it overflows,
    /// then move it inside the container.
    Inflect,
}

/// The scroll needed on one axis to show the span `[near, far)` of length
/// `extent` in the window `[window_near, window_far)`: nothing when it already
/// fits, else whichever of aligning the near edges or aligning the far edges
/// moves less.
pub open spec fn scroll_axis(near: int, far: int, window_near: int, window_far: int, extent: int) -> int {
    if window_far > near && near >= window_near && window_far > far && far >= window_near {
        0
    } else {
        let align_near = near - window_near;
        let align_far = near - (window_far - extent);
        if abs_int(align_near) < abs_int(align_far) {
            align_near
        } else {
            align_far
        }
    }
}

/// The offset by which `window` must scroll to show `region`. With `top`, the
/// region's top edge is brought to the window's top edge. A region larger
/// than the window is taken as a window-sized region at its own origin.
pub open spec fn scroll_to_visible(window: Region, region: Region, top: bool) -> (int, int) {
    if !top && window.spec_contains_region(region) {
        (0, 0)
    } else {
        let w = min_int(region.width as int, window.width as int);
        let h = min_int(region.height as int, window.height as int);
        let dx = scroll_axis(region.x as int, region.x + w, window.x as int, window.spec_right(), w);
        let dy = if top {
            region.y - window.y
        } else {
            scroll_axis(region.y as int, region.y + h, window.y as int, window.spec_bottom(), h)
        };
        (dx, dy)
    }
}

/// Where the span `[start, end)` falls against `[container_start,
/// container_end]`: 0 inside, -1 past the start, 1 past the end.
pub open spec fn span_side(start: int, end: int, container_start: int, container_end: int) -> int {
    if start > container_start && end <= container_end {
        0
    } else if start < container_start {
        -1
    } else {
        1
    }
}

/// The near edge `own` of a span of length `extent`, moved to fit within a
/// container span: capped so the far edge stays inside, then floored at the
/// container's near edge (which wins when the span is too long).
pub open spec fn fit_axis(own: int, extent: int, container_near: int, container_extent: int) -> int {
    max_int(min_int(own, container_near + container_extent - extent), container_near)
}

pub open spec fn margin_or_zero(margin: Option<Spacing>) -> Spacing {
    match margin {
        Some(m) => m,
        None => Spacing { top: 0, right: 0, bottom: 0, left: 0 },
    }
}

fn compare_span(span_start: i64, span_end: i64, container_start: i64, container_end: i64) -> (r: i32)
    ensures
        r == span_side(span_start as int, span_end as int, container_start as int, container_end as int),
{
    if span_start > container_start && span_end <= container_end {
        0
    } else if span_start < container_start {
        -1
    } else {
        1
    }
}

fn fit_axis_exec(own: i32, extent: i32, container_near: i32, container_extent: i32) -> (r: i32)
    ensures
        r == fit_axis(own as int, extent as int, container_near as int, container_extent as int),
{
    let cap = container_near as i64 + container_extent as i64 - extent as i64;
    let capped: i64 = if (own as i64) <= cap {
        own as i64
    } else {
        cap
    };
    if capped >= container_near as i64 {
        capped as i32
    } else {
        container_near
    }
}

impl Region {
    pub open spec fn spec_translate_inside(self, container: Region, x_axis: bool, y_axis: bool) -> Region {
        Region {
            x: if x_axis {
                fit_axis(self.x as int, self.width as int, container.x as int, container.width as int) as i32
            } else {
                self.x
            },
            y: if y_axis {
                fit_axis(self.y as int, self.height as int, container.y as int, container.height as int) as i32
            } else {
                self.y
            },
            width: self.width,
            height: self.height,
        }
    }

    pub open spec fn inflect_fits(self, x_axis: int, y_axis: int, margin: Option<Spacing>) -> bool {
        &&& is_i32(self.x + (self.width + margin_or_zero(margin).spec_max_width()) * x_axis)
        &&& is_i32(self.y + (self.height + margin_or_zero(margin).spec_max_height()) * y_axis)
    }

    /// The region moved by its own extent plus the margin's larger edge on
    /// that axis, times the axis multiplier.
    pub open spec fn spec_inflect(self, x_axis: int, y_axis: int, margin: Option<Spacing>) -> Region {
        Region {
            x: (self.x + (self.width + margin_or_zero(margin).spec_max_width()) * x_axis) as i32,
            y: (self.y + (self.height + margin_or_zero(margin).spec_max_height()) * y_axis) as i32,
            width: self.width,
            height: self.height,
        }
    }

    /// The inflect multipliers that `constrain` picks: on an inflecting axis,
    /// towards the side where the margin-grown region does not overflow.
    pub open spec fn constrain_axes(
        self,
        constrain_x: ConstrainMode,
        constrain_y: ConstrainMode,
        margin: Spacing,
        container: Region,
    ) -> (int, int) {
        let grown = self.spec_grow(margin);
        let ax = if constrain_x == ConstrainMode::Inflect {
            -span_side(grown.x as int, grown.spec_right(), container.x as int, container.spec_right())
        } else {
            0
        };
        let ay = if constrain_y == ConstrainMode::Inflect {
            -span_side(grown.y as int, grown.spec_bottom(), container.y as int, container.spec_bottom())
        } else {
            0
        };
        (ax, ay)
    }

    pub open spec fn constrain_fits(
        self,
        constrain_x: ConstrainMode,
        constrain_y: ConstrainMode,
        margin: Spacing,
        container: Region,
    ) -> bool {
        let (ax, ay) = self.constrain_axes(constrain_x, constrain_y, margin, container);
        &&& self.grow_fits(margin)
        &&& container.shrink_fits(margin)
        &&& self.inflect_fits(ax, ay, Some(margin))
    }

    /// Optional inflection, then a move inside the container less the margin
    /// on each axis whose mode is not `Unconstrained`.
    pub open spec fn spec_constrain(
        self,
        constrain_x: ConstrainMode,
        constrain_y: ConstrainMode,
        margin: Spacing,
        container: Region,
    ) -> Region {
        let (ax, ay) = self.constrain_axes(constrain_x, constrain_y, margin, container);
        self.spec_inflect(ax, ay, Some(margin)).spec_translate_inside(
            container.spec_shrink(margin),
            constrain_x != ConstrainMode::Unconstrained,
            constrain_y != ConstrainMode::Unconstrained,
        )
    }

    /// The offset by which `window_region` must scroll so that `region`
    /// becomes visible; with `top`, so that its top edge meets the window's.
    pub fn get_scroll_to_visible(window_region: &Region, region: &Region, top: bool) -> (r: GeometryOffset)
        requires
            is_i32(scroll_to_visible(*window_region, *region, top).0),
            is_i32(scroll_to_visible(*window_region, *region, top).1),
        ensures
            r.x == scroll_to_visible(*window_region, *region, top).0,
            r.y == scroll_to_visible(*window_region, *region, top).1,
    {
        if !top && window_region.contains_region(region) {
            return GeometryOffset { x: 0, y: 0 };
        }
        let (window_left, window_top) = (window_region.x as i64, window_region.y as i64);
        let (window_right, window_bottom) = (window_region.right_wide(), window_region.bottom_wide());
        let region = region.crop_size(window_region.size().as_tuple());
        let (left, top_, right, bottom) = (
            region.x as i64,
            region.y as i64,
            region.right_wide(),
            region.bottom_wide(),
        );
        let mut delta_x: i64 = 0;
        let mut delta_y: i64 = 0;

        if !((window_right > left && left >= window_left) && (window_right > right && right
            >= window_left)) {
            let option1 = left - window_left;
            let option2 = left - (window_right - region.width as i64);
            delta_x = if abs_wide(option1) < abs_wide(option2) {
                option1
            } else {
                option2
            };
        }
        if top {
            delta_y = top_ - window_top;
        } else if !((window_bottom > top_ && top_ >= window_top) && (window_bottom > bottom && bottom
            >= window_top)) {
            let option1 = top_ - window_top;
            let option2 = top_ - (window_bottom - region.height as i64);
            delta_y = if abs_wide(option1) < abs_wide(option2) {
                option1
            } else {
                option2
            };
        }
        GeometryOffset { x: delta_x as i32, y: delta_y as i32 }
    }

    /// The region moved, on each enabled axis, so that it lies within
    /// `container`; a region longer than the container on an axis is pinned
    /// to the container's near edge.
    pub fn translate_inside(&self, container: &Region, x_axis: bool, y_axis: bool) -> (r: Region)
        ensures
            r == self.spec_translate_inside(*container, x_axis, y_axis),
    {
        Region {
            x: if x_axis {
                fit_axis_exec(self.x, self.width, container.x, container.width)
            } else {
                self.x
            },
            y: if y_axis {
                fit_axis_exec(self.y, self.height, container.y, container.height)
            } else {
                self.y
            },
            width: self.width,
            height: self.height,
        }
    }

    /// The region flipped across its anchor: moved by its own extent plus the
    /// margin's larger edge on each axis, times that axis' multiplier
    /// (typically -1, 0 or 1).
    pub fn inflect(&self, x_axis: i32, y_axis: i32, margin: Option<Spacing>) -> (r: Region)
        requires
            self.inflect_fits(x_axis as int, y_axis as int, margin),
        ensures
            r == self.spec_inflect(x_axis as int, y_axis as int, margin),
    {
        let inflect_margin = match margin {
            Some(m) => m,
            None => Spacing { top: 0, right: 0, bottom: 0, left: 0 },
        };
        let mut x = self.x;
        let mut y = self.y;
        proof {
            let m = margin_or_zero(margin);
            assert(x_axis == 0 ==> (self.width + m.spec_max_width()) * x_axis == 0)
                by (nonlinear_arith);
            assert(y_axis == 0 ==> (self.height + m.spec_max_height()) * y_axis == 0)
                by (nonlinear_arith);
        }
        if x_axis != 0 {
            let step = self.width as i64 + inflect_margin.max_width() as i64;
            let shift = step as i128 * x_axis as i128;
            assert(-0x1_0000_0000 <= step <= 0x1_0000_0000);
            assert(-0x1_0000_0000_0000_0000 <= step * x_axis <= 0x1_0000_0000_0000_0000)
                by (nonlinear_arith)
                requires
                    -0x1_0000_0000 <= step <= 0x1_0000_0000,
                    i32::MIN <= x_axis <= i32::MAX,
            ;
            x = (x as i128 + shift) as i32;
        }
        if y_axis != 0 {
            let step = self.height as i64 + inflect_margin.max_height() as i64;
            let shift = step as i128 * y_axis as i128;
            assert(-0x1_0000_0000 <= step <= 0x1_0000_0000);
            assert(-0x1_0000_0000_0000_0000 <= step * y_axis <= 0x1_0000_0000_0000_0000)
                by (nonlinear_arith)
                requires
                    -0x1_0000_0000 <= step <= 0x1_0000_0000,
                    i32::MIN <= y_axis <= i32::MAX,
            ;
            y = (y as i128 + shift) as i32;
        }
        Region { x, y, width: self.width, height: self.height }
    }

    /// Places the region inside `container` less `margin`, first flipping it
    /// on each `Inflect` axis to the side where, grown by the margin, it has
    /// room.
    pub fn constrain(
        &self,
        constrain_x: ConstrainMode,
        constrain_y: ConstrainMode,
        margin: &Spacing,
        container: &Region,
    ) -> (r: Region)
        requires
            self.constrain_fits(constrain_x, constrain_y, *margin, *container),
        ensures
            r == self.spec_constrain(constrain_x, constrain_y, *margin, *container),
    {
        let margin_region = self.grow(margin);
        let mut region = *self;
        if constrain_x == ConstrainMode::Inflect || constrain_y == ConstrainMode::Inflect {
            let x_axis: i32 = if constrain_x == ConstrainMode::Inflect {
                -compare_span(
                    margin_region.x as i64,
                    margin_region.right_wide(),
                    container.x as i64,
                    container.right_wide(),
                )
            } else {
                0
            };
            let y_axis: i32 = if constrain_y == ConstrainMode::Inflect {
                -compare_span(
                    margin_region.y as i64,
                    margin_region.bottom_wide(),
                    container.y as i64,
                    container.bottom_wide(),
                )
            } else {
                0
            };
            region = region.inflect(x_axis, y_axis, Some(*margin));
        }
        region.translate_inside(
            &container.shrink(margin),
            constrain_x != ConstrainMode::Unconstrained,
            constrain_y != ConstrainMode::Unconstrained,
        )
    }
}

fn abs_wide(v: i64) -> (r: i64)
    requires
        v > i64::MIN,
    ensures
        r == abs_int(v as int),
{
    if v < 0 {
        -v
    } else {
        v
    }
}

} // verus!
