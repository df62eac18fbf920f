//! The parameters of a run.

use vstd::prelude::*;

verus! {

/// The number of frames rendered when none is given.
pub const DEFAULT_FRAMES: u32 = 500;

/// What to render: the text to display, the number of frames, and where the
/// video goes.
#[derive(Debug, PartialEq, Eq)]
pub struct Cli {
    /// Display text
    pub text: String,
    /// Number of frames
    pub frames: u32,
    /// Output path
    pub output: String,
}

impl Default for Cli {
    /// The parameters used where none are given: the text `Hello World!`,
    /// 500 frames, and the output path `generated_text.mp4`.
    fn default() -> (cli: Cli)
        ensures
            cli.text@ == "Hello World!"@,
            cli.frames == DEFAULT_FRAMES,
            cli.output@ == "generated_text.mp4"@,
    {
        Cli {
            text: String::from_str("Hello World!"),
            frames: DEFAULT_FRAMES,
            output: String::from_str("generated_text.mp4"),
        }
    }
}

} // verus!
