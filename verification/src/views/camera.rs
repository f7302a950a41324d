//! The camera: a position and a zoom factor that map the world onto the
//! screen, kept near the world by a clamp after every change.
//!
//! Positions, sizes and the zoom factor are fixed-point numbers in
//! thousandths: a zoom of `UNIT` shows the world at its own size.

use vstd::prelude::*;
use vstd::arithmetic::div_mod::lemma_fundamental_div_mod_converse;

verus! {

/// One whole, in thousandths.
pub const UNIT: i64 = 1000;

/// The smallest zoom factor: one hundredth.
pub const ZOOM_MIN: i64 = 10;

/// How far past the world's edge the camera may look: fifty world units.
pub const BORDER: i64 = 50_000;

/// World units that a held key moves the camera in one time unit.
pub const CAMERA_SENSITIVITY: i64 = 10_000_000;

/// Zoom that one notch of the wheel adds in one time unit.
pub const ZOOM_SENSITIVITY: i64 = 10_000;

/// The largest viewport or world extent that a camera takes.
pub const EXTENT_LIMIT: i64 = 1_000_000_000_000;

/// A rectangle, in the world or on the screen, in thousandths.
#[derive(Clone, Copy, Debug, PartialEq, Eq, Structural)]
pub struct Rectangle {
    pub x: i64,
    pub y: i64,
    pub w: i64,
    pub h: i64,
}

/// A pixel of the screen.
#[derive(Clone, Copy, Debug, PartialEq, Eq, Structural)]
pub struct Point {
    pub x: i32,
    pub y: i32,
}

/// Where the viewport's corner lies in the world, how large the viewport
/// and the world are, and by how much the world is magnified.
#[derive(Clone, Copy, Debug, PartialEq, Eq, Structural)]
pub struct Camera {
    pub pos_x: i64,
    pub pos_y: i64,
    pub width: i64,
    pub height: i64,
    pub max_x: i64,
    pub max_y: i64,
    pub zoom: i64,
}

/// `v`, held within the range of `i64`.
pub open spec fn clip(v: int) -> int {
    if v < i64::MIN {
        i64::MIN as int
    } else if v > i64::MAX {
        i64::MAX as int
    } else {
        v
    }
}

/// `v`, held within the range of `i32`.
pub open spec fn clip_pixel(v: int) -> int {
    if v < i32::MIN {
        i32::MIN as int
    } else if v > i32::MAX {
        i32::MAX as int
    } else {
        v
    }
}

/// The product of two fixed-point numbers, rounded down and clipped.
pub open spec fn scaled(a: int, b: int) -> int {
    clip(a * b / (UNIT as int))
}

/// `p / d` rounded toward zero.
pub open spec fn toward_zero(p: int, d: int) -> int {
    if p >= 0 {
        p / d
    } else {
        -((-p) / d)
    }
}

/// The largest position along one axis at which a viewport of `extent`,
/// seen at `zoom`, ends no more than the border past a world of `max`.
pub open spec fn far_edge(max: int, extent: int, zoom: int) -> int {
    max - (extent * UNIT) / zoom + BORDER
}

/// The clamp along the vertical axis: first down to the far edge, then up
/// to the near one.
pub open spec fn checked_y(y: int, edge: int) -> int {
    let lowered = if y > edge {
        edge
    } else {
        y
    };
    if lowered < -BORDER {
        -BORDER as int
    } else {
        lowered
    }
}

/// The clamp along the horizontal axis. The far edge is compared with the
/// zoomed position, and the position is then set to the edge itself.
pub open spec fn checked_x(x: int, zoom: int, edge: int) -> int {
    let lowered = if x * zoom > edge * UNIT {
        edge
    } else {
        x
    };
    if lowered < -BORDER {
        -BORDER as int
    } else {
        lowered
    }
}

/// The screen coordinate, in thousandths, of world coordinate `v`.
pub open spec fn to_screen(v: int, pos: int, zoom: int) -> int {
    clip((v - pos) * zoom / (UNIT as int))
}

/// The whole pixel of world coordinate `v`.
pub open spec fn to_pixel(v: int, pos: int, zoom: int) -> int {
    clip_pixel(toward_zero((v - pos) * zoom, UNIT * UNIT))
}

/// The world coordinate that is seen at screen coordinate `s`, rounded down.
pub open spec fn from_screen(s: int, pos: int, zoom: int) -> int {
    s * UNIT / zoom + pos
}

/// Mapping a world coordinate onto the screen and back recovers it up to
/// rounding: the result is no greater than the coordinate, and less than it
/// by under one thousandth more than a thousandth of a pixel's width in the
/// world. This holds of every coordinate whose image needs no clipping.
pub proof fn screen_round_trip(v: int, pos: int, zoom: int)
    requires
        zoom > 0,
        i64::MIN <= (v - pos) * zoom / (UNIT as int) <= i64::MAX,
    ensures
        from_screen(to_screen(v, pos, zoom), pos, zoom) <= v,
        (v - from_screen(to_screen(v, pos, zoom), pos, zoom)) * zoom < UNIT + zoom,
{
    let d = v - pos;
    let p = d * zoom;
    let s = p / (UNIT as int);
    let t = s * UNIT;
    let b = t / zoom;
    assert(t <= p < t + UNIT);
    assert(b * zoom <= t < b * zoom + zoom) by (nonlinear_arith)
        requires
            b == t / zoom,
            zoom > 0,
    ;
    assert(b <= d && (d - b) * zoom < UNIT + zoom) by (nonlinear_arith)
        requires
            b * zoom <= p,
            p < b * zoom + zoom + UNIT,
            p == d * zoom,
            zoom > 0,
    ;
}

/// Mapping a rectangle onto the screen and back recovers each corner
/// coordinate and each side up to rounding, whatever the zoom, as long as
/// nothing of its image is clipped.
pub proof fn rect_round_trip(cam: Camera, rect: Rectangle)
    requires
        cam.zoom > 0,
        i64::MIN <= (rect.x - cam.pos_x) * cam.zoom / (UNIT as int) <= i64::MAX,
        i64::MIN <= (rect.y - cam.pos_y) * cam.zoom / (UNIT as int) <= i64::MAX,
        i64::MIN <= rect.w * cam.zoom / (UNIT as int) <= i64::MAX,
        i64::MIN <= rect.h * cam.zoom / (UNIT as int) <= i64::MAX,
    ensures
        ({
            let screen = cam.translated(rect);
            let z = cam.zoom as int;
            let x = from_screen(screen.x as int, cam.pos_x as int, z);
            let y = from_screen(screen.y as int, cam.pos_y as int, z);
            let w = from_screen(screen.w as int, 0, z);
            let h = from_screen(screen.h as int, 0, z);
            &&& x <= rect.x && (rect.x - x) * z < UNIT + z
            &&& y <= rect.y && (rect.y - y) * z < UNIT + z
            &&& w <= rect.w && (rect.w - w) * z < UNIT + z
            &&& h <= rect.h && (rect.h - h) * z < UNIT + z
        }),
{
    screen_round_trip(rect.x as int, cam.pos_x as int, cam.zoom as int);
    screen_round_trip(rect.y as int, cam.pos_y as int, cam.zoom as int);
    screen_round_trip(rect.w as int, 0, cam.zoom as int);
    screen_round_trip(rect.h as int, 0, cam.zoom as int);
}

/// A product is no larger than the product of its factors' bounds.
proof fn product_fits(a: int, b: int, ha: int, hb: int)
    requires
        -ha <= a <= ha,
        -hb <= b <= hb,
    ensures
        -(ha * hb) <= a * b <= ha * hb,
{
    assert(-(ha * hb) <= a * b <= ha * hb) by (nonlinear_arith)
        requires
            -ha <= a <= ha,
            -hb <= b <= hb,
    ;
}

/// At no zoom is the far edge further from `max + BORDER` than a hundred
/// times the extent: the zoom is never below a hundredth.
pub proof fn far_edge_bounds(max: int, extent: int, zoom: int)
    requires
        ZOOM_MIN <= zoom,
    ensures
        extent >= 0 ==> max - 100 * extent + BORDER <= far_edge(max, extent, zoom) <= max
            + BORDER,
        extent <= 0 ==> max + BORDER <= far_edge(max, extent, zoom) <= max - 100 * extent
            + BORDER,
{
    let n = extent * UNIT;
    let q = n / zoom;
    assert(q * zoom <= n < q * zoom + zoom) by (nonlinear_arith)
        requires
            10 <= zoom,
            q == n / zoom,
    ;
    if extent >= 0 {
        assert(0 <= q && q * 10 <= n) by (nonlinear_arith)
            requires
                0 <= n,
                10 <= zoom,
                q * zoom <= n < q * zoom + zoom,
        ;
    } else {
        assert(q <= 0 && 100 * extent <= q) by (nonlinear_arith)
            requires
                n == extent * 1000,
                extent <= 0,
                10 <= zoom,
                q * zoom <= n < q * zoom + zoom,
        ;
    }
}

/// The clamp changes the position alone and leaves a valid camera valid.
/// Afterwards the camera is no nearer than the near edges, and where the
/// edges admit it, all four inequalities hold.
pub proof fn checked_within_edges(cam: Camera)
    requires
        cam.wf(),
    ensures
        cam.checked().wf(),
        cam.checked().same_frame(cam),
        cam.checked().pos_x == checked_x(cam.pos_x as int, cam.zoom as int, cam.edge_x()),
        cam.checked().pos_y == checked_y(cam.pos_y as int, cam.edge_y()),
        cam.checked().pos_x >= -BORDER,
        cam.checked().pos_y >= -BORDER,
        cam.edges_admit_clamp() ==> cam.checked().within_edges(),
{
    far_edge_bounds(cam.max_x as int, cam.width as int, cam.zoom as int);
    far_edge_bounds(cam.max_y as int, cam.height as int, cam.zoom as int);
}

/// However often and by however much the zoom is changed, it is never
/// below its floor.
pub proof fn zoom_never_below_floor(cam: Camera, deltas: Seq<i64>)
    requires
        cam.wf(),
    ensures
        cam.after_zooms(deltas).wf(),
        cam.after_zooms(deltas).zoom >= ZOOM_MIN,
    decreases deltas.len(),
{
    if deltas.len() > 0 {
        zoom_never_below_floor(cam, deltas.drop_last());
        let before = cam.after_zooms(deltas.drop_last());
        let raised = clip(before.zoom + deltas.last());
        let held: i64 = if raised < ZOOM_MIN {
            ZOOM_MIN
        } else {
            raised as i64
        };
        checked_within_edges(Camera { zoom: held, ..before });
    }
}

/// Moves leave a valid camera valid and keep its viewport, world and zoom;
/// and after at least one move the camera is no nearer than the near edges.
pub proof fn pans_keep_frame(cam: Camera, moves: Seq<(i64, i64)>)
    requires
        cam.wf(),
    ensures
        cam.after_pans(moves).wf(),
        cam.after_pans(moves).same_frame(cam),
        moves.len() > 0 ==> cam.after_pans(moves).pos_x >= -BORDER,
        moves.len() > 0 ==> cam.after_pans(moves).pos_y >= -BORDER,
    decreases moves.len(),
{
    if moves.len() > 0 {
        pans_keep_frame(cam, moves.drop_last());
        let before = cam.after_pans(moves.drop_last());
        checked_within_edges(
            before.at(clip(before.pos_x + moves.last().0), clip(before.pos_y + moves.last().1)),
        );
    }
}

/// After any moves, one or many, all four inequalities of the clamp hold,
/// for every camera whose edges admit them.
pub proof fn pans_stay_within_edges(cam: Camera, moves: Seq<(i64, i64)>)
    requires
        cam.wf(),
        cam.edges_admit_clamp(),
        moves.len() > 0,
    ensures
        cam.after_pans(moves).within_edges(),
{
    pans_keep_frame(cam, moves.drop_last());
    let before = cam.after_pans(moves.drop_last());
    checked_within_edges(
        before.at(clip(before.pos_x + moves.last().0), clip(before.pos_y + moves.last().1)),
    );
}

/// `clip(v)`, as an `i64`.
pub(crate) fn clip_to_i64(v: i128) -> (r: i64)
    ensures
        r == clip(v as int),
{
    if v < i64::MIN as i128 {
        i64::MIN
    } else if v > i64::MAX as i128 {
        i64::MAX
    } else {
        v as i64
    }
}

/// `a / d` rounded down, also where `a` is negative.
pub(crate) fn floor_div(a: i128, d: i128) -> (q: i128)
    requires
        d > 0,
        a > i128::MIN,
    ensures
        q == (a as int) / (d as int),
{
    if a >= 0 {
        a / d
    } else {
        let n: i128 = -a;
        let q: i128 = n / d;
        let r: i128 = n % d;
        if r == 0 {
            proof {
                assert(n == q * d + r) by (nonlinear_arith)
                    requires
                        q == n / d,
                        r == n % d,
                        d > 0,
                ;
                assert(a == (-q) * d + 0) by (nonlinear_arith)
                    requires
                        n == q * d + r,
                        r == 0,
                        a == -n,
                ;
                lemma_fundamental_div_mod_converse(a as int, d as int, -q as int, 0);
            }
            -q
        } else {
            proof {
                assert(n == q * d + r && 0 <= r < d && 0 <= q <= n) by (nonlinear_arith)
                    requires
                        q == n / d,
                        r == n % d,
                        d > 0,
                        n >= 0,
                ;
                assert(a == (-q - 1) * d + (d - r)) by (nonlinear_arith)
                    requires
                        n == q * d + r,
                        a == -n,
                ;
                lemma_fundamental_div_mod_converse(a as int, d as int, -q - 1, d - r);
            }
            -q - 1
        }
    }
}

/// `scaled(a, b)`, computed without overflow.
pub fn scale(a: i64, b: i64) -> (r: i64)
    ensures
        r == scaled(a as int, b as int),
{
    proof {
        product_fits(a as int, b as int, 0x8000_0000_0000_0000, 0x8000_0000_0000_0000);
    }
    let p: i128 = (a as i128) * (b as i128);
    clip_to_i64(floor_div(p, 1000))
}

impl Camera {
    /// The zoom is no less than its floor, and the viewport and the world
    /// are no larger, either way, than a camera takes.
    pub open spec fn wf(self) -> bool {
        &&& ZOOM_MIN <= self.zoom
        &&& -EXTENT_LIMIT <= self.width <= EXTENT_LIMIT
        &&& -EXTENT_LIMIT <= self.height <= EXTENT_LIMIT
        &&& -EXTENT_LIMIT <= self.max_x <= EXTENT_LIMIT
        &&& -EXTENT_LIMIT <= self.max_y <= EXTENT_LIMIT
    }

    /// The far edge for the horizontal position.
    pub open spec fn edge_x(self) -> int {
        far_edge(self.max_x as int, self.width as int, self.zoom as int)
    }

    /// The far edge for the vertical position.
    pub open spec fn edge_y(self) -> int {
        far_edge(self.max_y as int, self.height as int, self.zoom as int)
    }

    /// This camera at another position.
    pub open spec fn at(self, x: int, y: int) -> Camera {
        Camera { pos_x: x as i64, pos_y: y as i64, ..self }
    }

    /// This camera after the clamp.
    pub open spec fn checked(self) -> Camera {
        self.at(
            checked_x(self.pos_x as int, self.zoom as int, self.edge_x()),
            checked_y(self.pos_y as int, self.edge_y()),
        )
    }

    /// This camera moved by `(dx, dy)` and clamped.
    pub open spec fn panned(self, dx: int, dy: int) -> Camera {
        self.at(clip(self.pos_x + dx), clip(self.pos_y + dy)).checked()
    }

    /// This camera with `d` added to its zoom, the zoom held at its floor,
    /// and clamped.
    pub open spec fn zoomed(self, d: int) -> Camera {
        let raised = clip(self.zoom + d);
        let held = if raised < ZOOM_MIN {
            ZOOM_MIN
        } else {
            raised as i64
        };
        (Camera { zoom: held, ..self }).checked()
    }

    /// This camera looking at a world of another size, and clamped.
    pub open spec fn resized(self, width: i64, height: i64) -> Camera {
        (Camera { max_x: width, max_y: height, ..self }).checked()
    }

    /// All four inequalities of the clamp hold of this camera.
    pub open spec fn within_edges(self) -> bool {
        &&& self.pos_y <= self.edge_y()
        &&& self.pos_x * self.zoom <= self.edge_x() * UNIT
        &&& self.pos_y >= -BORDER
        &&& self.pos_x >= -BORDER
    }

    /// The far edges lie where the clamp can meet all four inequalities:
    /// the vertical one no nearer than the near edge, the near edge itself
    /// not past the horizontal one when zoomed, and the horizontal one, where
    /// the clamp can leave the camera on it, not past itself when zoomed.
    pub open spec fn edges_admit_clamp(self) -> bool {
        &&& self.edge_y() >= -BORDER
        &&& -BORDER * self.zoom <= self.edge_x() * UNIT
        &&& self.edge_x() >= -BORDER ==> self.edge_x() * self.zoom <= self.edge_x() * UNIT
    }

    /// The viewport, the world and the zoom of `other` are those of this camera.
    pub open spec fn same_frame(self, other: Camera) -> bool {
        &&& self.width == other.width
        &&& self.height == other.height
        &&& self.max_x == other.max_x
        &&& self.max_y == other.max_y
        &&& self.zoom == other.zoom
    }

    /// This camera after each of `moves` in turn.
    pub open spec fn after_pans(self, moves: Seq<(i64, i64)>) -> Camera
        decreases moves.len(),
    {
        if moves.len() == 0 {
            self
        } else {
            self.after_pans(moves.drop_last()).panned(moves.last().0 as int, moves.last().1 as int)
        }
    }

    /// This camera after each of `deltas` in turn is added to its zoom.
    pub open spec fn after_zooms(self, deltas: Seq<i64>) -> Camera
        decreases deltas.len(),
    {
        if deltas.len() == 0 {
            self
        } else {
            self.after_zooms(deltas.drop_last()).zoomed(deltas.last() as int)
        }
    }

    /// A camera at `(x, y)` over a world of `max_x` by `max_y`, with a
    /// viewport of `width` by `height` and a zoom of one. The position is
    /// taken as it is: the first change clamps it.
    pub fn new(x: i64, y: i64, max_x: i64, max_y: i64, width: i64, height: i64) -> (cam: Self)
        requires
            -EXTENT_LIMIT <= width <= EXTENT_LIMIT,
            -EXTENT_LIMIT <= height <= EXTENT_LIMIT,
            -EXTENT_LIMIT <= max_x <= EXTENT_LIMIT,
            -EXTENT_LIMIT <= max_y <= EXTENT_LIMIT,
        ensures
            cam == (Camera { pos_x: x, pos_y: y, width, height, max_x, max_y, zoom: UNIT }),
            cam.wf(),
    {
        Camera { pos_x: x, pos_y: y, width, height, max_x, max_y, zoom: UNIT }
    }

    /// Clamps the position: down to the far edges, then up to the near ones.
    pub fn check(&mut self)
        requires
            old(self).wf(),
        ensures
            *final(self) == old(self).checked(),
            final(self).wf(),
            final(self).pos_x >= -BORDER,
            final(self).pos_y >= -BORDER,
            old(self).edges_admit_clamp() ==> final(self).within_edges(),
    {
        let zoom: i128 = self.zoom as i128;
        proof {
            checked_within_edges(*self);
            far_edge_bounds(self.max_x as int, self.width as int, self.zoom as int);
            far_edge_bounds(self.max_y as int, self.height as int, self.zoom as int);
            product_fits(
                self.pos_x as int,
                self.zoom as int,
                0x8000_0000_0000_0000,
                0x8000_0000_0000_0000,
            );
        }
        let edge_y: i128 = self.max_y as i128 - floor_div(self.height as i128 * 1000, zoom)
            + BORDER as i128;
        let edge_x: i128 = self.max_x as i128 - floor_div(self.width as i128 * 1000, zoom)
            + BORDER as i128;
        if (self.pos_y as i128) > edge_y {
            self.pos_y = edge_y as i64;
        }
        if (self.pos_x as i128) * zoom > edge_x * 1000 {
            self.pos_x = edge_x as i64;
        }
        if self.pos_y < -BORDER {
            self.pos_y = -BORDER;
        }
        if self.pos_x < -BORDER {
            self.pos_x = -BORDER;
        }
    }

    /// Moves the camera by `(dx, dy)` and clamps.
    pub fn pan(&mut self, dx: i64, dy: i64)
        requires
            old(self).wf(),
        ensures
            *final(self) == old(self).panned(dx as int, dy as int),
            final(self).wf(),
            final(self).pos_x >= -BORDER,
            final(self).pos_y >= -BORDER,
            old(self).edges_admit_clamp() ==> final(self).within_edges(),
    {
        self.pos_x = clip_to_i64(self.pos_x as i128 + dx as i128);
        self.pos_y = clip_to_i64(self.pos_y as i128 + dy as i128);
        self.check();
    }

    /// Moves the camera left by `d` and clamps.
    pub fn move_left(&mut self, d: i64)
        requires
            old(self).wf(),
        ensures
            *final(self) == old(self).panned(-d, 0),
            final(self).wf(),
    {
        self.pos_x = clip_to_i64(self.pos_x as i128 - d as i128);
        self.check();
    }

    /// Moves the camera right by `d` and clamps.
    pub fn move_right(&mut self, d: i64)
        requires
            old(self).wf(),
        ensures
            *final(self) == old(self).panned(d as int, 0),
            final(self).wf(),
    {
        self.pos_x = clip_to_i64(self.pos_x as i128 + d as i128);
        self.check();
    }

    /// Moves the camera up by `d` and clamps.
    pub fn move_up(&mut self, d: i64)
        requires
            old(self).wf(),
        ensures
            *final(self) == old(self).panned(0, -d),
            final(self).wf(),
    {
        self.pos_y = clip_to_i64(self.pos_y as i128 - d as i128);
        self.check();
    }

    /// Moves the camera down by `d` and clamps.
    pub fn move_down(&mut self, d: i64)
        requires
            old(self).wf(),
        ensures
            *final(self) == old(self).panned(0, d as int),
            final(self).wf(),
    {
        self.pos_y = clip_to_i64(self.pos_y as i128 + d as i128);
        self.check();
    }

    /// Adds `d` to the zoom, holds the zoom at its floor, and clamps.
    pub fn zoom(&mut self, d: i64)
        requires
            old(self).wf(),
        ensures
            *final(self) == old(self).zoomed(d as int),
            final(self).wf(),
            final(self).zoom >= ZOOM_MIN,
    {
        self.zoom = clip_to_i64(self.zoom as i128 + d as i128);
        if self.zoom < ZOOM_MIN {
            self.zoom = ZOOM_MIN;
        }
        self.check();
    }

    /// Takes the world's new size and clamps.
    pub fn resize(&mut self, width: i64, height: i64)
        requires
            old(self).wf(),
            -EXTENT_LIMIT <= width <= EXTENT_LIMIT,
            -EXTENT_LIMIT <= height <= EXTENT_LIMIT,
        ensures
            *final(self) == old(self).resized(width, height),
            final(self).wf(),
    {
        self.max_x = width;
        self.max_y = height;
        self.check();
    }

    /// This camera after one frame of input: each held key moves it by the
    /// camera sensitivity times `elapsed`, up, down, left and right in that
    /// order, and a wheel that has turned adds the zoom sensitivity times
    /// `wheel` times `elapsed` to the zoom.
    pub open spec fn after_input(
        self,
        key_up: bool,
        key_down: bool,
        key_left: bool,
        key_right: bool,
        wheel: i64,
        elapsed: i64,
    ) -> Camera {
        let step = scaled(CAMERA_SENSITIVITY as int, elapsed as int);
        let c1 = if key_up {
            self.panned(0, -step)
        } else {
            self
        };
        let c2 = if key_down {
            c1.panned(0, step)
        } else {
            c1
        };
        let c3 = if key_left {
            c2.panned(-step, 0)
        } else {
            c2
        };
        let c4 = if key_right {
            c3.panned(step, 0)
        } else {
            c3
        };
        if wheel != 0 {
            c4.zoomed(scaled(scaled(ZOOM_SENSITIVITY as int, wheel as int), elapsed as int))
        } else {
            c4
        }
    }

    /// Applies one frame of input.
    pub fn handle_input(
        &mut self,
        key_up: bool,
        key_down: bool,
        key_left: bool,
        key_right: bool,
        wheel: i64,
        elapsed: i64,
    )
        requires
            old(self).wf(),
        ensures
            *final(self) == old(self).after_input(
                key_up,
                key_down,
                key_left,
                key_right,
                wheel,
                elapsed,
            ),
            final(self).wf(),
    {
        if key_up {
            self.move_up(scale(CAMERA_SENSITIVITY, elapsed));
        }
        if key_down {
            self.move_down(scale(CAMERA_SENSITIVITY, elapsed));
        }
        if key_left {
            self.move_left(scale(CAMERA_SENSITIVITY, elapsed));
        }
        if key_right {
            self.move_right(scale(CAMERA_SENSITIVITY, elapsed));
        }
        if wheel != 0 {
            self.zoom(scale(scale(ZOOM_SENSITIVITY, wheel), elapsed));
        }
    }

    /// The screen rectangle of a world rectangle: its corner less the
    /// camera's position, and its sides, each times the zoom.
    pub open spec fn translated(self, rect: Rectangle) -> Rectangle {
        Rectangle {
            x: to_screen(rect.x as int, self.pos_x as int, self.zoom as int) as i64,
            y: to_screen(rect.y as int, self.pos_y as int, self.zoom as int) as i64,
            w: scaled(rect.w as int, self.zoom as int) as i64,
            h: scaled(rect.h as int, self.zoom as int) as i64,
        }
    }

    /// One coordinate of `translated`.
    fn project(&self, v: i64, pos: i64) -> (r: i64)
        requires
            self.zoom > 0,
        ensures
            r == to_screen(v as int, pos as int, self.zoom as int),
    {
        proof {
            product_fits(
                v - pos,
                self.zoom as int,
                0xffff_ffff_ffff_ffff,
                0x7fff_ffff_ffff_ffff,
            );
        }
        let p: i128 = (v as i128 - pos as i128) * (self.zoom as i128);
        clip_to_i64(floor_div(p, 1000))
    }

    /// Maps a world rectangle onto the screen.
    pub fn translate_rect(&self, rect: Rectangle) -> (screen: Rectangle)
        requires
            self.wf(),
        ensures
            screen == self.translated(rect),
    {
        Rectangle {
            x: self.project(rect.x, self.pos_x),
            y: self.project(rect.y, self.pos_y),
            w: scale(rect.w, self.zoom),
            h: scale(rect.h, self.zoom),
        }
    }

    /// One coordinate of a pixel.
    fn pixel(&self, v: i64, pos: i64) -> (r: i32)
        requires
            self.zoom > 0,
        ensures
            r == to_pixel(v as int, pos as int, self.zoom as int),
    {
        proof {
            product_fits(
                v - pos,
                self.zoom as int,
                0xffff_ffff_ffff_ffff,
                0x7fff_ffff_ffff_ffff,
            );
        }
        let p: i128 = (v as i128 - pos as i128) * (self.zoom as i128);
        let whole: i128 = if p >= 0 {
            p / 1_000_000
        } else {
            -((-p) / 1_000_000)
        };
        if whole < i32::MIN as i128 {
            i32::MIN
        } else if whole > i32::MAX as i128 {
            i32::MAX
        } else {
            whole as i32
        }
    }

    /// Maps a world point onto a pixel: the same map as for a rectangle's
    /// corner, rounded toward zero to a whole pixel.
    pub fn create_point(&self, x: i64, y: i64) -> (point: Point)
        requires
            self.wf(),
        ensures
            point.x == to_pixel(x as int, self.pos_x as int, self.zoom as int),
            point.y == to_pixel(y as int, self.pos_y as int, self.zoom as int),
    {
        Point { x: self.pixel(x, self.pos_x), y: self.pixel(y, self.pos_y) }
    }
}

} // verus!
