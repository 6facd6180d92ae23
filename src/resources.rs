//! The six independent resource quantities that accounts hold and servers reserve.
use vstd::prelude::*;

verus! {

/// Compute share (percent), memory (MB), disk (MB) and database, network
/// allocation and backup slots.
#[derive(Debug, Clone, Copy, PartialEq, Eq, Structural, Default)]
pub struct Resources {
    pub ram: i64,
    pub cpu: i64,
    pub disk: i64,
    pub databases: i64,
    pub allocations: i64,
    pub backups: i64,
}

/// Whether a spec integer fits in an `i64`.
pub open spec fn fits_i64(x: int) -> bool {
    i64::MIN <= x <= i64::MAX
}

impl Resources {
    /// The all-zero vector.
    pub fn zero() -> (r: Resources)
        ensures
            r.is_zero(),
    {
        Resources { ram: 0, cpu: 0, disk: 0, databases: 0, allocations: 0, backups: 0 }
    }

    pub open spec fn is_zero(self) -> bool {
        &&& self.ram == 0
        &&& self.cpu == 0
        &&& self.disk == 0
        &&& self.databases == 0
        &&& self.allocations == 0
        &&& self.backups == 0
    }

    /// No component is negative.
    pub open spec fn is_nonneg(self) -> bool {
        &&& self.ram >= 0
        &&& self.cpu >= 0
        &&& self.disk >= 0
        &&& self.databases >= 0
        &&& self.allocations >= 0
        &&& self.backups >= 0
    }

    /// Every component of the component-wise sum fits in an `i64`.
    pub open spec fn sum_fits(self, d: Resources) -> bool {
        &&& fits_i64(self.ram + d.ram)
        &&& fits_i64(self.cpu + d.cpu)
        &&& fits_i64(self.disk + d.disk)
        &&& fits_i64(self.databases + d.databases)
        &&& fits_i64(self.allocations + d.allocations)
        &&& fits_i64(self.backups + d.backups)
    }

    /// The component-wise sum (meaningful where `sum_fits`).
    pub open spec fn spec_add(self, d: Resources) -> Resources {
        Resources {
            ram: (self.ram + d.ram) as i64,
            cpu: (self.cpu + d.cpu) as i64,
            disk: (self.disk + d.disk) as i64,
            databases: (self.databases + d.databases) as i64,
            allocations: (self.allocations + d.allocations) as i64,
            backups: (self.backups + d.backups) as i64,
        }
    }

    /// Component-wise addition, or `None` where a component would leave the
    /// range of `i64`.
    pub fn checked_add(&self, d: &Resources) -> (r: Option<Resources>)
        ensures
            r == (if self.sum_fits(*d) { Some(self.spec_add(*d)) } else { None::<Resources> }),
    {
        let ram = match self.ram.checked_add(d.ram) { Some(v) => v, None => return None };
        let cpu = match self.cpu.checked_add(d.cpu) { Some(v) => v, None => return None };
        let disk = match self.disk.checked_add(d.disk) { Some(v) => v, None => return None };
        let databases = match self.databases.checked_add(d.databases) {
            Some(v) => v,
            None => return None,
        };
        let allocations = match self.allocations.checked_add(d.allocations) {
            Some(v) => v,
            None => return None,
        };
        let backups = match self.backups.checked_add(d.backups) {
            Some(v) => v,
            None => return None,
        };
        Some(Resources { ram, cpu, disk, databases, allocations, backups })
    }

    /// The check made before a server is created: memory, compute and disk
    /// must each cover the plan. Database, allocation and backup slots are
    /// deliberately not compared.
    pub open spec fn spec_covers_plan(self, plan: Resources) -> bool {
        &&& self.ram >= plan.ram
        &&& self.cpu >= plan.cpu
        &&& self.disk >= plan.disk
    }

    pub fn covers_plan(&self, plan: &Resources) -> (r: bool)
        ensures
            r == self.spec_covers_plan(*plan),
    {
        self.ram >= plan.ram && self.cpu >= plan.cpu && self.disk >= plan.disk
    }
}

} // verus!
