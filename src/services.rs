use vstd::prelude::*;

verus! {

/// The blob-store side of the gateway: it holds nothing, each fetch makes its
/// own client.
pub struct StorageService;

impl StorageService {
    /// The service; it needs no configuration.
    pub fn new() -> (r: Self)
        ensures
            r == (StorageService {  }),
    {
        StorageService {  }
    }
}

} // verus!
