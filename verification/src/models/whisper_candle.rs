//! The Candle back end, which this build does not include.

use crate::Error;
use vstd::prelude::*;

verus! {

/// The Candle back end. It cannot be made: the build leaves it out.
pub struct WhisperCandle {
    _placeholder: (),
}

impl WhisperCandle {
    /// Always fails, saying that the back end is not part of this build.
    pub fn new() -> (result: Result<Self, Error>)
        ensures
            result matches Err(e) && e.spec_kind() == crate::ErrorKind::Model && e.spec_message()
                == "Candle feature not enabled. Rebuild with --features candle"@,
    {
        Err(Error::Model("Candle feature not enabled. Rebuild with --features candle".to_owned()))
    }
}

} // verus!
