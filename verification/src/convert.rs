//! The audio-conversion feature's fixed texts. Probing for and running
//! the converter are process work done outside this crate.

use vstd::prelude::*;

verus! {

/// The message shown when no converter binary could be found.
pub fn ffmpeg_missing_message() -> (msg: String)
    ensures
        msg@ == "FFmpeg is not installed. Please install FFmpeg to use the conversion feature."@,
{
    "FFmpeg is not installed. Please install FFmpeg to use the conversion feature.".to_owned()
}

} // verus!
