//! A storage-configuration advisor for RAID-Z style redundant arrays.
//!
//! Given a target usable capacity and a catalog of disk options, the library
//! enumerates candidate array configurations (parity levels 1 to 3) whose
//! usable storage lands within a tolerance band around the target, and can
//! rank them by total cost.
//!
//! Capacities and costs are carried as fixed-point integers in hundredths of
//! a unit (hundredths of a terabyte, hundredths of a currency unit), so that
//! all arithmetic is exact.

use vstd::prelude::*;

mod search;
mod vdev;

pub use search::find_configurations;
pub use search::find_spec;
pub use search::in_band;
pub use search::lemma_found_configurations_are_in_band;
pub use search::lemma_in_band_configurations_are_found;
pub use search::lemma_search_deterministic;
pub use search::sort_by_total_cost;
pub use search::sorted_by_cost;
pub use search::sweep_spec;
pub use vdev::ConfigError;
pub use vdev::Vdev;
pub use vdev::VdevType;

verus! {

/// A purchasable disk unit from the catalog.
///
/// `size` is the capacity in hundredths of a terabyte and `cost` the unit
/// price in hundredths of a currency unit; `name` and `link` are only for
/// display.
#[derive(Debug, PartialEq)]
pub struct Disk {
    pub size: u64,
    pub cost: u64,
    pub name: String,
    pub link: String,
}

impl Clone for Disk {
    fn clone(&self) -> (res: Self)
        ensures
            res == *self,
    {
        Disk {
            size: self.size,
            cost: self.cost,
            name: self.name.clone(),
            link: self.link.clone(),
        }
    }
}

} // verus!
