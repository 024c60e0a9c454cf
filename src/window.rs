//! The window that the viewer asks for.

use vstd::prelude::*;

verus! {

/// The size, title and depth-buffer precision of the window to open.
#[derive(Clone, Copy, Debug, PartialEq, Eq)]
pub struct WindowConfig {
    /// Width in pixels.
    pub width: u32,
    /// Height in pixels.
    pub height: u32,
    /// Title bar text.
    pub title: &'static str,
    /// Bits per depth-buffer sample.
    pub depth_bits: u8,
}

/// The window settings the viewer starts with: 1024 by 768 pixels, titled
/// "Lumina 0.1", with a 24-bit depth buffer.
pub fn init() -> (c: WindowConfig)
    ensures
        c.width == 1024,
        c.height == 768,
        c.title@ == "Lumina 0.1"@,
        c.depth_bits == 24,
{
    WindowConfig { width: 1024, height: 768, title: "Lumina 0.1", depth_bits: 24 }
}

} // verus!
