//! The monitor source over the local sensor mesh: it reports the building's aggregated
//! surplus/deficit. Only the `ThermalBalance` aggregate crosses this boundary.

use vstd::prelude::*;

use crate::market::ThermalBalance;

verus! {

/// Reference sensor-mesh monitor: holds the current balance to report.
pub struct SeedMeshAdapter {
    balance: ThermalBalance,
}

impl SeedMeshAdapter {
    /// The balance this monitor reports.
    pub closed spec fn reported(&self) -> ThermalBalance {
        self.balance
    }

    /// A monitor reporting `balance`.
    pub fn new(balance: ThermalBalance) -> (r: SeedMeshAdapter)
        ensures
            r.reported() == balance,
    {
        SeedMeshAdapter { balance }
    }

    /// The building's current surplus/deficit.
    pub fn read_surplus_deficit(&self) -> (r: &ThermalBalance)
        ensures
            *r == self.reported(),
    {
        &self.balance
    }
}

} // verus!
