//! The live view: what one frame's input does to the camera and the
//! synchronizer, and where and in which colour each object is drawn.

use vstd::prelude::*;
use crate::network::registry::{PollRequest, Synchronizer};
use crate::network::sampleobject::{ObjectResponse, ObjectType};
use crate::views::camera::{clip, clip_to_i64, floor_div, scale, scaled, Camera, Rectangle};
use crate::views::ViewAction;

verus! {

/// World units that a held key moves the camera in one time unit.
pub const CAMERA_SENSITIVITY: i64 = 1_000_000;

/// Zoom that a held zoom key adds or takes in one time unit.
pub const ZOOM_SENSITIVITY: i64 = 10_000;

/// The side of the square that stands for an object: sixteen world units.
pub const OBJECT_SIZE: i64 = 16_000;

/// A colour of the screen.
#[derive(Clone, Copy, Debug, PartialEq, Eq, Structural)]
pub struct Color {
    pub r: u8,
    pub g: u8,
    pub b: u8,
}

/// The input of one frame that the live view reads.
#[derive(Clone, Copy, Debug, PartialEq, Eq, Structural)]
pub struct GameInput {
    pub quit: bool,
    pub key_escape: bool,
    pub key_up: bool,
    pub key_down: bool,
    pub key_left: bool,
    pub key_right: bool,
    pub key_a: bool,
    pub key_z: bool,
    /// How far the wheel has turned, in thousandths of a notch.
    pub wheel: i64,
    pub left_mouse_click: bool,
}

/// What a frame of the live view asks of its caller.
#[derive(Clone, Copy, Debug, PartialEq, Eq, Structural)]
pub struct Frame {
    /// What the frame loop does next.
    pub action: ViewAction,
    /// Whether to start a poll.
    pub poll: PollRequest,
    /// Whether to fill the detail panel anew.
    pub refresh_details: bool,
}

/// One object as it is drawn: its square on the screen and its colour.
#[derive(Clone, Copy, Debug, PartialEq, Eq, Structural)]
pub struct Sprite {
    pub place: Rectangle,
    pub color: Color,
}

/// The live view: the synchronizer it refreshes and the camera it looks through.
pub struct GameView {
    pub network: Synchronizer,
    pub camera: Camera,
}

/// The colour in which an object of `kind` is drawn: green for a harvester,
/// red for a battlecruiser, blue for every other kind.
pub open spec fn color_of(kind: ObjectType) -> Color {
    match kind {
        ObjectType::Harvester => Color { r: 0, g: 255, b: 0 },
        ObjectType::Battlecruiser => Color { r: 255, g: 0, b: 0 },
        _ => Color { r: 0, g: 0, b: 255 },
    }
}

/// The colour in which an object of `kind` is drawn.
pub fn object_color(kind: ObjectType) -> (color: Color)
    ensures
        color == color_of(kind),
{
    match kind {
        ObjectType::Harvester => Color { r: 0, g: 255, b: 0 },
        ObjectType::Battlecruiser => Color { r: 255, g: 0, b: 0 },
        ObjectType::Asteroid | ObjectType::Builder => Color { r: 0, g: 0, b: 255 },
    }
}

/// The world rectangle of the label of an object at `(x, y)`, the label
/// being `w` wide and `h` high: one and a half heights to the left of the
/// object and half a width below it.
pub open spec fn label_place(x: i64, y: i64, w: i64, h: i64) -> Rectangle {
    Rectangle {
        x: clip(x - (h * 3) / 2) as i64,
        y: clip(y + w / 2) as i64,
        w,
        h,
    }
}

/// The screen rectangle of the square that stands for an object at `(x, y)`.
pub fn draw_object(camera: &Camera, x: i64, y: i64) -> (screen: Rectangle)
    requires
        camera.wf(),
    ensures
        screen == camera.translated((Rectangle { x, y, w: OBJECT_SIZE, h: OBJECT_SIZE })),
{
    camera.translate_rect(Rectangle { x, y, w: OBJECT_SIZE, h: OBJECT_SIZE })
}

/// The screen rectangle of the label of an object at `(x, y)`.
pub fn draw_label(camera: &Camera, x: i64, y: i64, w: i64, h: i64) -> (screen: Rectangle)
    requires
        camera.wf(),
    ensures
        screen == camera.translated(label_place(x, y, w, h)),
{
    let left: i64 = clip_to_i64(x as i128 - floor_div(h as i128 * 3, 2));
    let top: i64 = clip_to_i64(y as i128 + floor_div(w as i128, 2));
    camera.translate_rect(Rectangle { x: left, y: top, w, h })
}

/// How `object` is drawn through `camera`.
pub open spec fn sprite_of(camera: Camera, object: ObjectResponse) -> Sprite {
    Sprite {
        place: camera.translated(
            (Rectangle { x: object.x, y: object.y, w: OBJECT_SIZE, h: OBJECT_SIZE }),
        ),
        color: color_of(object.otype),
    }
}

/// The line of the detail panel at `index`.
pub open spec fn detail_text(index: int) -> Seq<char> {
    if index == 0 {
        "owner: Player1"@
    } else if index == 1 {
        "name: Yamato Cannon"@
    } else if index == 2 {
        "otype: PulseCannon"@
    } else if index == 3 {
        "x: 100.23451235"@
    } else if index == 4 {
        "y: 10.012341"@
    } else if index == 5 {
        "drive_speed: 0.0"@
    } else if index == 6 {
        "drive_dest_x: 100.23451235"@
    } else if index == 7 {
        "drive_dest_y: 10.012341"@
    } else if index == 8 {
        "radar_radius: 500.0"@
    } else if index == 9 {
        "radar_type: Military"@
    } else if index == 10 {
        "weapon_active: false"@
    } else if index == 11 {
        "weapon_type: Plasma"@
    } else if index == 12 {
        "weapon_radius: 700.0"@
    } else if index == 13 {
        "weapon_target_x: 632.11"@
    } else if index == 14 {
        "weapon_target_y: 301.1"@
    } else if index == 15 {
        "cargo_type: Plasma"@
    } else if index == 16 {
        "cargo_max: 1000.0"@
    } else if index == 17 {
        "cargo_current: 839.0"@
    } else if index == 18 {
        "shell_health: 86.43"@
    } else {
        "shell_type: Building"@
    }
}

/// The twenty lines that fill the detail panel after a click. They describe
/// no object of the registry: the panel shows the same lines whatever was
/// clicked.
pub fn detail_lines() -> (lines: Vec<&'static str>)
    ensures
        lines@.len() == 20,
        forall|i: int| 0 <= i < 20 ==> (#[trigger] lines@[i])@ == detail_text(i),
{
    let mut lines: Vec<&'static str> = Vec::new();
    lines.push("owner: Player1");
    lines.push("name: Yamato Cannon");
    lines.push("otype: PulseCannon");
    lines.push("x: 100.23451235");
    lines.push("y: 10.012341");
    lines.push("drive_speed: 0.0");
    lines.push("drive_dest_x: 100.23451235");
    lines.push("drive_dest_y: 10.012341");
    lines.push("radar_radius: 500.0");
    lines.push("radar_type: Military");
    lines.push("weapon_active: false");
    lines.push("weapon_type: Plasma");
    lines.push("weapon_radius: 700.0");
    lines.push("weapon_target_x: 632.11");
    lines.push("weapon_target_y: 301.1");
    lines.push("cargo_type: Plasma");
    lines.push("cargo_max: 1000.0");
    lines.push("cargo_current: 839.0");
    lines.push("shell_health: 86.43");
    lines.push("shell_type: Building");
    lines
}

/// `elapsed` as the camera takes it.
pub open spec fn camera_time(elapsed: u64) -> i64 {
    clip(elapsed as int) as i64
}

/// The camera after one frame of the live view: each held key moves it by
/// the sensitivity times the time, up, down, left and right in that order;
/// then the zoom keys add to the zoom and take from it, and a wheel that has
/// turned adds the zoom sensitivity times its turn times the time.
pub open spec fn camera_after(camera: Camera, input: GameInput, elapsed: u64) -> Camera {
    let step = scaled(CAMERA_SENSITIVITY as int, camera_time(elapsed) as int);
    let turn = scaled(ZOOM_SENSITIVITY as int, camera_time(elapsed) as int);
    let c1 = if input.key_up {
        camera.panned(0, -step)
    } else {
        camera
    };
    let c2 = if input.key_down {
        c1.panned(0, step)
    } else {
        c1
    };
    let c3 = if input.key_left {
        c2.panned(-step, 0)
    } else {
        c2
    };
    let c4 = if input.key_right {
        c3.panned(step, 0)
    } else {
        c3
    };
    let c5 = if input.key_a {
        c4.zoomed(turn)
    } else {
        c4
    };
    let c6 = if input.key_z {
        c5.zoomed(-turn)
    } else {
        c5
    };
    if input.wheel != 0 {
        c6.zoomed(
            scaled(scaled(ZOOM_SENSITIVITY as int, input.wheel as int), camera_time(elapsed) as int),
        )
    } else {
        c6
    }
}

impl GameView {
    /// A live view of `endpoint` through `camera`, with nothing polled yet.
    pub fn new(endpoint: String, camera: Camera) -> (view: Self)
        requires
            camera.wf(),
        ensures
            view.camera == camera,
            view.network@ == Seq::<ObjectResponse>::empty(),
            view.network.endpoint == endpoint,
            view.network.timer == 0,
            !view.network.in_flight,
    {
        GameView { network: Synchronizer::new(endpoint), camera }
    }

    /// What is drawn this frame: one sprite for each entry of the registry,
    /// in the registry's order.
    pub fn scene(&self) -> (sprites: Vec<Sprite>)
        requires
            self.camera.wf(),
        ensures
            sprites@.len() == self.network@.len(),
            forall|i: int|
                0 <= i < sprites@.len() ==> #[trigger] sprites@[i] == sprite_of(
                    self.camera,
                    self.network@[i],
                ),
    {
        let mut sprites: Vec<Sprite> = Vec::new();
        let mut i: usize = 0;
        while i < self.network.objects.len()
            invariant
                self.camera.wf(),
                i <= self.network.objects.len(),
                sprites@.len() == i,
                forall|k: int|
                    0 <= k < i ==> #[trigger] sprites@[k] == sprite_of(
                        self.camera,
                        self.network@[k],
                    ),
            decreases self.network.objects.len() - i,
        {
            let object = &self.network.objects[i];
            sprites.push(
                Sprite {
                    place: draw_object(&self.camera, object.x, object.y),
                    color: object_color(object.otype),
                },
            );
            i += 1;
        }
        sprites
    }

    /// One frame of the live view. A quit signal or escape ends the program
    /// and changes nothing. Otherwise the keys move and zoom the camera, the
    /// synchronizer's timer runs by `elapsed` and may ask for a poll, a
    /// click asks for the detail panel to be filled, and the view goes on.
    pub fn render(&mut self, input: GameInput, elapsed: u64) -> (frame: Frame)
        requires
            old(self).camera.wf(),
        ensures
            final(self).camera.wf(),
            final(self).network@ == old(self).network@,
            final(self).network.endpoint == old(self).network.endpoint,
            input.quit || input.key_escape ==> {
                &&& final(self).camera == old(self).camera
                &&& final(self).network.timer == old(self).network.timer
                &&& final(self).network.in_flight == old(self).network.in_flight
                &&& frame == (Frame {
                    action: ViewAction::Quit,
                    poll: PollRequest::Idle,
                    refresh_details: false,
                })
            },
            !(input.quit || input.key_escape) ==> {
                &&& final(self).camera == camera_after(old(self).camera, input, elapsed)
                &&& final(self).network.timer == (if old(self).network.is_due(elapsed) {
                    0
                } else {
                    crate::network::registry::capped_sum(old(self).network.timer, elapsed)
                })
                &&& final(self).network.in_flight == (old(self).network.in_flight
                    || old(self).network.is_due(elapsed))
                &&& frame.action == ViewAction::Continue
                &&& frame.poll == (if old(self).network.is_due(elapsed)
                    && !old(self).network.in_flight {
                    PollRequest::Start
                } else {
                    PollRequest::Idle
                })
                &&& frame.refresh_details == input.left_mouse_click
            },
    {
        if input.quit || input.key_escape {
            return Frame {
                action: ViewAction::Quit,
                poll: PollRequest::Idle,
                refresh_details: false,
            };
        }
        let time: i64 = if elapsed > 0x7fff_ffff_ffff_ffff {
            0x7fff_ffff_ffff_ffff
        } else {
            elapsed as i64
        };
        let step: i64 = scale(CAMERA_SENSITIVITY, time);
        let turn: i64 = scale(ZOOM_SENSITIVITY, time);
        if input.key_up {
            self.camera.move_up(step);
        }
        if input.key_down {
            self.camera.move_down(step);
        }
        if input.key_left {
            self.camera.move_left(step);
        }
        if input.key_right {
            self.camera.move_right(step);
        }
        if input.key_a {
            self.camera.zoom(turn);
        }
        if input.key_z {
            self.camera.zoom(-turn);
        }
        if input.wheel != 0 {
            self.camera.zoom(scale(scale(ZOOM_SENSITIVITY, input.wheel), time));
        }
        let poll = self.network.tick(elapsed);
        Frame { action: ViewAction::Continue, poll, refresh_details: input.left_mouse_click }
    }
}

} // verus!
