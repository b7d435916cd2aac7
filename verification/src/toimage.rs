//! Conversions into images.

use vstd::prelude::*;

verus! {

/// Convert a value into an image.
pub trait IntoImage: Sized {
    type Output;

    /// Whether the value has an image form.
    spec fn has_image(&self) -> bool;

    fn into_image(self) -> Self::Output
        requires
            self.has_image(),
    ;
}

} // verus!
