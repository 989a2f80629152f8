//! The terminal side of the dashboard: probing, geometry, frame buffers and
//! the render loop.

pub mod command;
pub mod frame_buffer;
pub mod renderer;
pub mod viewport;

use vstd::prelude::*;

verus! {

/// The probe of the physical terminal.
pub struct Terminal {}

impl Terminal {
    /// The size of the terminal as (width, height) in cells, or `None` where
    /// no terminal is attached. This calls `term_size::dimensions`, which asks
    /// the operating system about the process's standard streams; nothing is
    /// claimed of the answer, which may differ from call to call.
    #[verifier::external_body]
    pub fn get_size() -> (size: Option<(usize, usize)>) {
        term_size::dimensions()
    }
}

} // verus!
