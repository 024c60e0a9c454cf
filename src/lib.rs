//! A keyboard-driven camera viewer: the camera, the key dispatcher, the
//! per-frame update rules and the texture preparation of a small real-time
//! 3D demo. Every quantity is kept in fixed point so that each rule can be
//! stated and proved exactly; the window, the GPU and the files live outside.

pub mod camera;
pub mod animation;
pub mod projection;
pub mod input;
pub mod game;
pub mod texture;
pub mod window;

pub use window::init;
