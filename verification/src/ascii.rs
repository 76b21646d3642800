//! The two banner images, one of which is shown at start.

use crate::entropy::thread_index;
use vstd::prelude::*;

verus! {

/// The files of the two banner images.
#[derive(Debug)]
pub struct AsciiImages {
    pub image1: &'static str,
    pub image2: &'static str,
}

impl AsciiImages {
    /// The image that a draw picks: the first for 0, the second for any
    /// other draw.
    pub open spec fn picked(&self, draw: usize) -> &'static str {
        if draw == 0 {
            self.image1
        } else {
            self.image2
        }
    }

    /// The image that `draw` picks.
    pub fn image_for(&self, draw: usize) -> (image: &'static str)
        ensures
            image == self.picked(draw),
    {
        if draw == 0 {
            self.image1
        } else {
            self.image2
        }
    }

    /// One of the two images, picked at random.
    pub fn random_image(&self) -> (image: &'static str)
        ensures
            image == self.image1 || image == self.image2,
    {
        let draw = thread_index(2);
        self.image_for(draw)
    }
}

} // verus!
