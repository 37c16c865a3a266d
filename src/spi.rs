//! State of the SPI master.

use vstd::prelude::*;

verus! {

/// Phase of a master transfer on the SPI bus.
#[derive(Clone, Copy, Debug, PartialEq, Eq)]
pub enum MasterState {
    Read,
    Sent,
}

} // verus!
