//! Control of a WiFi front-end test board: the command vocabulary of its control
//! link, gain sweeps, the decoding of I/Q captures, the bin-window policy of the
//! spectral metrics, and the catalog of captured files.
use vstd::prelude::*;

pub mod config;
pub mod text;
pub mod protocol;
pub mod transfer;
pub mod sweep;
pub mod capture;
pub mod spectrum;
pub mod catalog;

verus! {

/// The sum of two counts.
pub fn add(left: u64, right: u64) -> (r: u64)
    requires
        left + right <= u64::MAX,
    ensures
        r == left + right,
{
    left + right
}

} // verus!
