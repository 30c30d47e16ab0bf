use vstd::prelude::*;

verus! {

/// The command that the frontend calls to hand a chosen video file to the
/// native side. The path is opaque here: it is neither parsed nor checked,
/// and comes back exactly as it was given.
pub fn load_video_path(file_path: String) -> (r: String)
    ensures
        r == file_path,
        r@ == file_path@,
{
    file_path
}

} // verus!
