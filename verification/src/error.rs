//! The two failure kinds of the bridge: resource failures while staging
//! assets or encoding images, and failures reported by the foreign runtime.

use vstd::prelude::*;

verus! {

/// Result alias used across the crate.
pub type EasyOcrResult<T = ()> = Result<T, EasyOcrErr>;

/// A failure of the bridge layer. Both variants carry the underlying
/// message as text: the causes live outside this crate (the filesystem,
/// the image codec, the foreign runtime) and only their messages cross
/// the boundary.
#[derive(Debug, Clone)]
pub enum EasyOcrErr {
    /// A resource failure: staging a model file or encoding an image.
    IO(String),
    /// A failure reported by or while talking to the foreign runtime.
    Python(String),
}

impl EasyOcrErr {
    /// The human-readable description of the failure.
    pub fn message(&self) -> (r: String)
        ensures
            self matches EasyOcrErr::IO(m) ==> r@ == "An error occurred while "@ + m@,
            self matches EasyOcrErr::Python(m) ==> r@ == "An error occurred on Python Side: "@ + m@,
    {
        match self {
            EasyOcrErr::IO(m) => String::from_str("An error occurred while ").concat(m.as_str()),
            EasyOcrErr::Python(m) => String::from_str("An error occurred on Python Side: ").concat(
                m.as_str(),
            ),
        }
    }
}

} // verus!
