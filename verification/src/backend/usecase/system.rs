//! Host statistics, as the system provider reports them.
use vstd::prelude::*;

verus! {

/// System statistics operations.
pub struct SystemUsecase {}

impl SystemUsecase {
    pub fn new() -> (u: SystemUsecase) {
        SystemUsecase {}
    }
}

} // verus!
