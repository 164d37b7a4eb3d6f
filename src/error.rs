use vstd::prelude::*;

use crate::message::{ImageRequest, ImageResult};

verus! {

/// Why the pipeline stopped. Each error is fatal.
#[derive(Debug)]
pub enum Error {
    /// The worker side is gone; the request that could not be handed over.
    RequestChannel(ImageRequest),
    /// The reply side is gone; the result that could not be handed over.
    ResponseChannel(ImageResult),
}

} // verus!
