//! The frame loop's decisions: what each event does to the game, and what
//! each frame shows.
//!
//! Each frame hands the renderer the camera as it stands; the view transform
//! itself stays fixed, so moving the camera does not move the viewpoint.

use vstd::prelude::*;
use crate::animation::{Animation, next_tick};
use crate::camera::Camera;
use crate::input::{Action, Input, action_of};
use crate::projection::{Perspective, perspective, projection_of};

verus! {

/// Whether the loop still produces frames.
#[derive(Clone, Copy, Debug, PartialEq, Eq, Structural)]
pub enum LoopState {
    Running,
    Closed,
}

/// A window event, as far as the loop cares.
#[derive(Clone, Copy, Debug, PartialEq, Eq, Structural)]
pub enum Event {
    /// The window was asked to close.
    Close,
    /// A key went down; the raw scancode.
    KeyPressed(u32),
    /// Anything else: a key release, a resize, a mouse move.
    Other,
}

/// What one frame draws with.
#[derive(Clone, Copy, Debug, PartialEq, Eq, Structural)]
pub struct Frame {
    /// The camera as it stands for this frame.
    pub camera: Camera,
    /// The animation scalar for this frame, in ticks.
    pub animation: i32,
    /// The projection, or `None` for a viewport of zero width.
    pub projection: Option<Perspective>,
}

/// The whole mutable state of the viewer.
#[derive(Clone, Copy, Debug, PartialEq, Eq, Structural)]
pub struct Game {
    pub camera: Camera,
    pub state: LoopState,
    pub animation: Animation,
}

impl Game {
    /// A running game with the camera at its starting pose and the animation
    /// at its floor.
    pub fn new() -> (g: Game)
        ensures
            g.camera == (Camera { x: 0, y: 0, z: 0, pitch: 0, yaw: 0 }),
            g.state == LoopState::Running,
            g.animation@ == crate::animation::TICK_MIN,
    {
        Game { camera: Camera::new(), state: LoopState::Running, animation: Animation::new() }
    }

    /// Whether an event can be handled without a camera field leaving `i64`.
    pub open spec fn accepts_event(self, ev: Event) -> bool {
        match ev {
            Event::KeyPressed(scancode) => self.camera.accepts_key(scancode),
            _ => true,
        }
    }

    /// Tells whether an event can be handled without a camera field leaving
    /// `i64`.
    pub fn can_handle(&self, ev: Event) -> (r: bool)
        ensures
            r == self.accepts_event(ev),
    {
        match ev {
            Event::KeyPressed(scancode) => self.camera.can_handle_key(scancode),
            _ => true,
        }
    }

    /// The game after an event: a close request closes the loop for good, a
    /// key press goes to the key table, anything else changes nothing.
    pub open spec fn after_event(self, ev: Event) -> Game {
        match ev {
            Event::Close => Game { state: LoopState::Closed, ..self },
            Event::KeyPressed(scancode) => Game { camera: self.camera.after_key(scancode), ..self },
            Event::Other => self,
        }
    }

    /// The game after a batch of events, handled in order.
    pub open spec fn after_events(self, evs: Seq<Event>) -> Game
        decreases evs.len(),
    {
        if evs.len() == 0 {
            self
        } else {
            self.after_event(evs[0]).after_events(evs.drop_first())
        }
    }

    /// Handles one event. Returns the action a key press took, or `None`
    /// (for a key, that the scancode is unbound).
    pub fn handle_event(&mut self, ev: Event) -> (applied: Option<Action>)
        requires
            old(self).accepts_event(ev),
        ensures
            *final(self) == old(self).after_event(ev),
            applied == (match ev {
                Event::KeyPressed(scancode) => action_of(scancode),
                _ => None,
            }),
    {
        match ev {
            Event::Close => {
                self.state = LoopState::Closed;
                None
            },
            Event::KeyPressed(scancode) => self.handle_keyboard(scancode),
            Event::Other => None,
        }
    }

    /// Whether the loop has stopped.
    pub fn is_closed(&self) -> (r: bool)
        ensures
            r == (self.state == LoopState::Closed),
    {
        match self.state {
            LoopState::Closed => true,
            LoopState::Running => false,
        }
    }

    /// Starts a frame for a `width` by `height` viewport: advances the
    /// animation and returns what to draw. A closed game produces no frame
    /// and stays as it is.
    pub fn frame(&mut self, width: u32, height: u32) -> (f: Option<Frame>)
        ensures
            old(self).state == LoopState::Closed ==> f is None && *final(self) == *old(self),
            old(self).state == LoopState::Running ==> {
                &&& final(self).camera == old(self).camera
                &&& final(self).state == LoopState::Running
                &&& final(self).animation@ == next_tick(old(self).animation@)
                &&& f == Some(
                    Frame {
                        camera: old(self).camera,
                        animation: final(self).animation@ as i32,
                        projection: projection_of(width, height),
                    },
                )
            },
    {
        match self.state {
            LoopState::Closed => None,
            LoopState::Running => {
                let t = self.animation.advance();
                Some(Frame { camera: self.camera, animation: t, projection: perspective(width, height) })
            },
        }
    }
}

/// A close request in a batch closes the loop whatever else the batch holds,
/// and a closed loop stays closed and draws no more frames.
pub proof fn lemma_close_is_final(g: Game, evs: Seq<Event>)
    ensures
        evs.contains(Event::Close) ==> g.after_events(evs).state == LoopState::Closed,
        g.state == LoopState::Closed ==> g.after_events(evs).state == LoopState::Closed,
    decreases evs.len(),
{
    if evs.len() > 0 {
        let g1 = g.after_event(evs[0]);
        lemma_close_is_final(g1, evs.drop_first());
        if evs.contains(Event::Close) && evs[0] != Event::Close {
            let k = choose|k: int| 0 <= k < evs.len() && evs[k] == Event::Close;
            assert(evs.drop_first()[k - 1] == Event::Close);
        }
    }
}

} // verus!
