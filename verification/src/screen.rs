//! The window-side frame store.
//!
//! `Screen` keeps the RGBA buffer a window driver uploads as a
//! texture, scaled by an integer factor. Drawing to a window is the
//! driver's business; the buffer arithmetic lives here.

use vstd::prelude::*;

verus! {

/// The pixel size of the scaled window.
pub fn gameboy_window_size(scale: u8) -> (r: (u32, u32))
    ensures
        r.0 == 160 * scale,
        r.1 == 144 * scale,
{
    (160 * scale as u32, 144 * scale as u32)
}

pub struct Screen {
    pub scale: u8,
    pub frame_buffer: Vec<u8>,
    pub debug: bool,
}

impl Screen {
    /// A screen with an opaque white 160x144 RGBA buffer.
    pub fn new(scale: u8, debug: bool) -> (r: Screen)
        ensures
            r.scale == scale,
            r.debug == debug,
            r.frame_buffer@.len() == 160 * 144 * 4,
            forall|i: int| 0 <= i < 160 * 144 * 4 ==> r.frame_buffer@[i] == 255,
    {
        Screen { scale, frame_buffer: vec![255u8; 160 * 144 * 4], debug }
    }

    /// Set the gray value of one pixel; alpha is left as it was.
    pub fn update_pixel_in_buffer(&mut self, x: u32, y: u32, val: u8)
        requires
            x < 160,
            y < 144,
            old(self).frame_buffer@.len() == 160 * 144 * 4,
        ensures
            final(self).scale == old(self).scale,
            final(self).debug == old(self).debug,
            final(self).frame_buffer@ == old(self).frame_buffer@.update(
                (y * 160 + x) * 4,
                val,
            ).update((y * 160 + x) * 4 + 1, val).update((y * 160 + x) * 4 + 2, val),
    {
        let idx = ((y * 160 + x) * 4) as usize;
        self.frame_buffer[idx] = val;
        self.frame_buffer[idx + 1] = val;
        self.frame_buffer[idx + 2] = val;
    }

    /// The RGBA buffer, for the window driver to upload.
    pub fn frame_buffer(&self) -> (r: &Vec<u8>)
        ensures
            r@ == self.frame_buffer@,
    {
        &self.frame_buffer
    }
}

} // verus!
