//! The interaction controller.
//!
//! One [`App`] value owns the whole session: the last known window
//! geometry, the player phase, the loaded media path, the tick count and
//! the uniform snapshot handed to the shading function. Each handler
//! takes one externally delivered event, updates that state, and reports
//! whether the host should schedule a repaint.
//!
//! Elapsed time is accumulated at a fixed step of one sixtieth of a
//! second per timer tick: the tick count is the state, so after `N`
//! ticks the elapsed time is exactly `N / 60` seconds, however irregular
//! the ticks' wall-clock arrival was.

use crate::fixed::SCALE;
use crate::geometry::{norm_offset, normalize_offset, oval_hit, point_in_oval, COORD_LIM};
use crate::media::{is_video_path, video_name};
use crate::shading::DrawOval;
use vstd::prelude::*;

verus! {

/// Largest tick count the controller accepts; about five hundred years
/// of sixty ticks a second, and small enough that the fixed-point
/// elapsed time still fits an `i64`.
pub const TICK_LIM: u64 = 1_000_000_000_000;

/// The player phase: nothing loaded, or a loaded video paused or playing.
#[derive(Clone, Copy, Debug, PartialEq, Eq, Structural)]
pub enum PlayerState {
    Empty,
    Playing,
    Paused,
}

impl Default for PlayerState {
    /// A fresh session has no media loaded.
    fn default() -> (r: Self)
        ensures
            r == PlayerState::Empty,
    {
        PlayerState::Empty
    }
}

/// The phase after one press of the play-pause toggle: a loaded video
/// flips between playing and paused; with nothing loaded the press is
/// ignored.
pub open spec fn toggled(s: PlayerState) -> PlayerState {
    match s {
        PlayerState::Empty => PlayerState::Empty,
        PlayerState::Playing => PlayerState::Paused,
        PlayerState::Paused => PlayerState::Playing,
    }
}

/// Two presses of the play-pause toggle return every phase to itself.
pub proof fn lemma_toggle_twice(s: PlayerState)
    ensures
        toggled(toggled(s)) == s,
{
}

/// The key presses the controller reacts to; anything else is `Other`.
#[derive(Clone, Copy, Debug, PartialEq, Eq, Structural)]
pub enum KeyCode {
    Escape,
    Space,
    Other,
}

/// What the host should do after a key press.
#[derive(Clone, Copy, Debug, PartialEq, Eq, Structural)]
pub enum KeyResponse {
    /// Terminate the process.
    Quit,
    /// Nothing beyond what the controller already did itself.
    NoRequest,
}

/// Elapsed time after `n` ticks, in fixed-point seconds: `n / 60`
/// rounded down to the unit.
pub open spec fn spec_tick_time(n: int) -> int {
    (n * (SCALE as int)) / 60
}

/// Fixed-point seconds elapsed after `n` ticks of a sixtieth of a
/// second each.
pub fn tick_time(n: u64) -> (r: i64)
    requires
        n <= TICK_LIM,
    ensures
        r == spec_tick_time(n as int),
        0 <= r,
{
    ((n * 1_000_000u64) / 60) as i64
}

/// The sequence of character views of a list of dropped paths.
pub open spec fn path_views(paths: Seq<String>) -> Seq<Seq<char>> {
    paths.map_values(|p: String| p@)
}

/// Whether any of the dropped paths names a video file.
pub open spec fn any_video(ps: Seq<Seq<char>>) -> bool {
    exists|i: int| 0 <= i < ps.len() && video_name(ps[i])
}

/// The last dropped path that names a video file; the one that wins when
/// several qualify in one drop episode.
pub open spec fn last_video(ps: Seq<Seq<char>>) -> Seq<char>
    decreases ps.len(),
{
    if ps.len() == 0 {
        Seq::empty()
    } else if video_name(ps.last()) {
        ps.last()
    } else {
        last_video(ps.drop_last())
    }
}

/// The interaction controller's session state.
pub struct App {
    /// Last reported window width, in device pixels.
    pub window_width: i64,
    /// Last reported window height, in device pixels.
    pub window_height: i64,
    /// The player phase.
    pub state: PlayerState,
    /// The path of the last accepted video drop, if any.
    pub video_path: Option<String>,
    /// Timer ticks seen so far; the sole driver of elapsed time.
    pub ticks: u64,
    /// Whether the last known pointer position passed the hit test.
    pub mouse_inside: bool,
    /// The uniform snapshot for the next repaint.
    pub uniforms: DrawOval,
    /// Whether the auxiliary drop-target label is shown.
    pub drop_label_visible: bool,
}

impl App {
    /// Well-formedness: geometry and tick count within machine bounds,
    /// pointer offsets normalized, hover boolean-valued, and the time
    /// uniform derived from the tick count alone.
    pub open spec fn wf(self) -> bool {
        &&& -COORD_LIM <= self.window_width <= COORD_LIM
        &&& -COORD_LIM <= self.window_height <= COORD_LIM
        &&& self.ticks <= TICK_LIM
        &&& -SCALE <= self.uniforms.mouse_offset_x <= SCALE
        &&& -SCALE <= self.uniforms.mouse_offset_y <= SCALE
        &&& (self.uniforms.hover == 0 || self.uniforms.hover == SCALE)
        &&& self.uniforms.time == spec_tick_time(self.ticks as int)
    }

    /// A fresh session: empty, at time zero, with the drop-target label
    /// shown until the first pointer report says otherwise.
    pub fn new() -> (a: App)
        ensures
            a.wf(),
            a.window_width == 0,
            a.window_height == 0,
            a.state == PlayerState::Empty,
            a.video_path is None,
            a.ticks == 0,
            a.mouse_inside == false,
            a.uniforms == (DrawOval { mouse_offset_x: 0, mouse_offset_y: 0, time: 0, hover: 0 }),
            a.drop_label_visible == true,
    {
        App {
            window_width: 0,
            window_height: 0,
            state: PlayerState::Empty,
            video_path: None,
            ticks: 0,
            mouse_inside: false,
            uniforms: DrawOval { mouse_offset_x: 0, mouse_offset_y: 0, time: 0, hover: 0 },
            drop_label_visible: true,
        }
    }

    /// One timer tick: elapsed time advances by exactly one sixtieth of
    /// a second — derived from the tick count, never from wall-clock
    /// deltas — and a repaint is requested.
    pub fn on_timer_tick(&mut self) -> (redraw: bool)
        requires
            old(self).wf(),
            old(self).ticks < TICK_LIM,
        ensures
            final(self).wf(),
            final(self).ticks == old(self).ticks + 1,
            final(self).uniforms.time == spec_tick_time(old(self).ticks + 1),
            final(self).uniforms.mouse_offset_x == old(self).uniforms.mouse_offset_x,
            final(self).uniforms.mouse_offset_y == old(self).uniforms.mouse_offset_y,
            final(self).uniforms.hover == old(self).uniforms.hover,
            final(self).window_width == old(self).window_width,
            final(self).window_height == old(self).window_height,
            final(self).state == old(self).state,
            final(self).video_path == old(self).video_path,
            final(self).mouse_inside == old(self).mouse_inside,
            final(self).drop_label_visible == old(self).drop_label_visible,
            redraw == true,
    {
        self.ticks = self.ticks + 1;
        self.uniforms.time = tick_time(self.ticks);
        true
    }

    /// A geometry-change notification: the new extents are stored for
    /// subsequent hit tests; nothing is repainted for this alone.
    pub fn on_geometry_changed(&mut self, w: i64, h: i64)
        requires
            old(self).wf(),
            -COORD_LIM <= w <= COORD_LIM,
            -COORD_LIM <= h <= COORD_LIM,
        ensures
            final(self).wf(),
            final(self).window_width == w,
            final(self).window_height == h,
            final(self).state == old(self).state,
            final(self).video_path == old(self).video_path,
            final(self).ticks == old(self).ticks,
            final(self).mouse_inside == old(self).mouse_inside,
            final(self).uniforms == old(self).uniforms,
            final(self).drop_label_visible == old(self).drop_label_visible,
    {
        self.window_width = w;
        self.window_height = h;
    }

    /// A pointer move: with a degenerate geometry nothing happens at
    /// all; otherwise the pointer offset is normalized, the hover flag
    /// follows the hit test, the drop-target label is shown exactly when
    /// the session is empty and the pointer hovers the oval, and a
    /// repaint is requested.
    pub fn on_pointer_move(&mut self, x: i64, y: i64) -> (redraw: bool)
        requires
            old(self).wf(),
            -COORD_LIM <= x <= COORD_LIM,
            -COORD_LIM <= y <= COORD_LIM,
        ensures
            final(self).wf(),
            old(self).window_width <= 0 || old(self).window_height <= 0 ==> {
                &&& *final(self) == *old(self)
                &&& redraw == false
            },
            old(self).window_width > 0 && old(self).window_height > 0 ==> {
                let hit = oval_hit(
                    x as int,
                    y as int,
                    old(self).window_width as int,
                    old(self).window_height as int,
                );
                &&& final(self).uniforms.mouse_offset_x == norm_offset(
                    x as int,
                    old(self).window_width as int,
                )
                &&& final(self).uniforms.mouse_offset_y == norm_offset(
                    y as int,
                    old(self).window_height as int,
                )
                &&& final(self).uniforms.hover == (if hit {
                    SCALE as int
                } else {
                    0
                })
                &&& final(self).mouse_inside == hit
                &&& final(self).drop_label_visible == (old(self).state == PlayerState::Empty
                    && hit)
                &&& final(self).uniforms.time == old(self).uniforms.time
                &&& final(self).ticks == old(self).ticks
                &&& final(self).state == old(self).state
                &&& final(self).video_path == old(self).video_path
                &&& final(self).window_width == old(self).window_width
                &&& final(self).window_height == old(self).window_height
                &&& redraw == true
            },
    {
        if self.window_width <= 0 || self.window_height <= 0 {
            return false;
        }
        let hit = point_in_oval(x, y, self.window_width, self.window_height);
        self.uniforms.mouse_offset_x = normalize_offset(x, self.window_width);
        self.uniforms.mouse_offset_y = normalize_offset(y, self.window_height);
        self.uniforms.hover = if hit {
            SCALE
        } else {
            0
        };
        self.mouse_inside = hit;
        self.drop_label_visible = self.state == PlayerState::Empty && hit;
        true
    }

    /// A window-drag query: clicking anywhere inside the visible oval
    /// drags the whole borderless window; a point outside it never
    /// starts a window move.
    pub fn on_window_drag_query(&self, x: i64, y: i64) -> (start_move: bool)
        requires
            self.wf(),
            -COORD_LIM <= x <= COORD_LIM,
            -COORD_LIM <= y <= COORD_LIM,
        ensures
            start_move == oval_hit(
                x as int,
                y as int,
                self.window_width as int,
                self.window_height as int,
            ),
            !oval_hit(
                x as int,
                y as int,
                self.window_width as int,
                self.window_height as int,
            ) ==> !start_move,
    {
        point_in_oval(x, y, self.window_width, self.window_height)
    }

    /// A drag-hover query: the drop is accepted for copy feedback
    /// exactly when the pointer is inside the oval.
    pub fn on_drag_hover(&self, x: i64, y: i64) -> (accept: bool)
        requires
            self.wf(),
            -COORD_LIM <= x <= COORD_LIM,
            -COORD_LIM <= y <= COORD_LIM,
        ensures
            accept == oval_hit(
                x as int,
                y as int,
                self.window_width as int,
                self.window_height as int,
            ),
    {
        point_in_oval(x, y, self.window_width, self.window_height)
    }

    /// A key press: the escape key asks the host to terminate, the space
    /// key toggles play and pause of a loaded video — and is ignored
    /// while nothing is loaded — and every other key does nothing.
    pub fn on_key_down(&mut self, key: KeyCode) -> (r: KeyResponse)
        requires
            old(self).wf(),
        ensures
            final(self).wf(),
            key == KeyCode::Escape ==> *final(self) == *old(self) && r == KeyResponse::Quit,
            key == KeyCode::Space ==> {
                &&& final(self).state == toggled(old(self).state)
                &&& final(self).window_width == old(self).window_width
                &&& final(self).window_height == old(self).window_height
                &&& final(self).video_path == old(self).video_path
                &&& final(self).ticks == old(self).ticks
                &&& final(self).mouse_inside == old(self).mouse_inside
                &&& final(self).uniforms == old(self).uniforms
                &&& final(self).drop_label_visible == old(self).drop_label_visible
                &&& r == KeyResponse::NoRequest
            },
            key == KeyCode::Other ==> *final(self) == *old(self) && r == KeyResponse::NoRequest,
    {
        match key {
            KeyCode::Escape => KeyResponse::Quit,
            KeyCode::Space => {
                match self.state {
                    PlayerState::Playing => {
                        self.state = PlayerState::Paused;
                    },
                    PlayerState::Paused => {
                        self.state = PlayerState::Playing;
                    },
                    PlayerState::Empty => {},
                }
                KeyResponse::NoRequest
            },
            KeyCode::Other => KeyResponse::NoRequest,
        }
    }

    /// A finalized drop: outside the oval, or with no qualifying video
    /// file among the dropped paths, nothing changes at all. Otherwise
    /// the last qualifying path becomes the loaded media, an empty
    /// session moves to paused — a loaded one keeps its phase — and the
    /// drop-target label is hidden.
    pub fn on_drop(&mut self, x: i64, y: i64, paths: &Vec<String>)
        requires
            old(self).wf(),
            -COORD_LIM <= x <= COORD_LIM,
            -COORD_LIM <= y <= COORD_LIM,
        ensures
            final(self).wf(),
            !oval_hit(
                x as int,
                y as int,
                old(self).window_width as int,
                old(self).window_height as int,
            ) ==> *final(self) == *old(self),
            oval_hit(
                x as int,
                y as int,
                old(self).window_width as int,
                old(self).window_height as int,
            ) && !any_video(path_views(paths@)) ==> *final(self) == *old(self),
            oval_hit(
                x as int,
                y as int,
                old(self).window_width as int,
                old(self).window_height as int,
            ) && any_video(path_views(paths@)) ==> {
                &&& final(self).video_path matches Some(p) && p@ == last_video(
                    path_views(paths@),
                )
                &&& final(self).state == (if old(self).state == PlayerState::Empty {
                    PlayerState::Paused
                } else {
                    old(self).state
                })
                &&& final(self).drop_label_visible == false
                &&& final(self).uniforms == old(self).uniforms
                &&& final(self).ticks == old(self).ticks
                &&& final(self).mouse_inside == old(self).mouse_inside
                &&& final(self).window_width == old(self).window_width
                &&& final(self).window_height == old(self).window_height
            },
    {
        if !point_in_oval(x, y, self.window_width, self.window_height) {
            return ;
        }
        let ghost ps = path_views(paths@);
        let mut accepted = false;
        let mut k: usize = 0;
        while k < paths.len()
            invariant
                k <= paths.len(),
                ps == path_views(paths@),
                ps.len() == paths@.len(),
                forall|i: int| 0 <= i < ps.len() ==> ps[i] == paths@[i]@,
                self.window_width == old(self).window_width,
                self.window_height == old(self).window_height,
                self.state == old(self).state,
                self.ticks == old(self).ticks,
                self.mouse_inside == old(self).mouse_inside,
                self.uniforms == old(self).uniforms,
                self.drop_label_visible == old(self).drop_label_visible,
                accepted == any_video(ps.subrange(0, k as int)),
                accepted ==> (self.video_path matches Some(p) && p@ == last_video(
                    ps.subrange(0, k as int),
                )),
                !accepted ==> self.video_path == old(self).video_path,
            decreases paths.len() - k,
        {
            let ghost prefix = ps.subrange(0, k as int);
            let ghost prefix1 = ps.subrange(0, k as int + 1);
            proof {
                assert(prefix1.drop_last() =~= prefix);
                assert(prefix1.last() == ps[k as int]);
            }
            let p = &paths[k];
            if is_video_path(p.as_str()) {
                self.video_path = Some(p.clone());
                accepted = true;
                proof {
                    assert(video_name(prefix1.last()));
                    assert(any_video(prefix1));
                }
            } else {
                proof {
                    assert(!video_name(prefix1.last()));
                    assert(any_video(prefix1) == any_video(prefix)) by {
                        if any_video(prefix) {
                            let i = choose|i: int|
                                0 <= i < prefix.len() && video_name(prefix[i]);
                            assert(prefix1[i] == prefix[i]);
                        }
                        if any_video(prefix1) {
                            let i = choose|i: int|
                                0 <= i < prefix1.len() && video_name(prefix1[i]);
                            assert(i < prefix.len());
                            assert(prefix[i] == prefix1[i]);
                        }
                    }
                }
            }
            k = k + 1;
        }
        proof {
            assert(ps.subrange(0, ps.len() as int) =~= ps);
        }
        if accepted {
            if self.state == PlayerState::Empty {
                self.state = PlayerState::Paused;
            }
            self.drop_label_visible = false;
        }
    }
}

} // verus!
