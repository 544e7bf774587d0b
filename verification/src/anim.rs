//! Animation rules of a character description.

use vstd::prelude::*;

verus! {

/// How an animation is mirrored when the character faces left.
#[derive(Debug)]
pub enum MirrorRule {
    /// Play the same animation. Useful for animations where the side of the
    /// body actions happen on matters, such as attacks (particularly sword
    /// strikes).
    NoChange,
    /// Use the mirrored copies of bones if they exist to play the animation.
    /// Useful for animations where you want the animation to look similar
    /// from the camera's perspective, such as pivots.
    MirrorBones,
    /// Use an entirely separate animation. Useful when no other option quite
    /// does what you need it to do.
    Separate { name: String },
}

/// What happens when the end of an animation is reached.
#[derive(Debug)]
pub enum AnimEnd {
    /// Loop back to a specific frame. Particularly useful for run cycles and
    /// idle animations.
    Loop { frame: usize },
    /// End the animation. Character logic should enter a new state and start
    /// a new animation.
    End,
}

} // verus!
