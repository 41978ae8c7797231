//! Inventory records, partition-usage records and rollup groups.
//!
//! Capacities are whole mebibytes. One record holds a `u64`; totals over
//! records are held in `u128`, which no sum over a vector of records can
//! exceed.

use vstd::prelude::*;

verus! {

/// Mebibytes in one tebibyte.
pub const MIB_PER_TIB: u128 = 1_048_576;

/// One virtual machine of the inventory.
#[derive(Debug, PartialEq, Eq)]
pub struct Vinfo {
    pub vm_name: String,
    pub datacenter: String,
    pub cluster: String,
    /// Capacity in use, in MiB.
    pub capacity: u64,
    pub powerstate: String,
}

/// The mathematical value of a [`Vinfo`].
pub struct VinfoView {
    pub vm_name: Seq<char>,
    pub datacenter: Seq<char>,
    pub cluster: Seq<char>,
    pub capacity: u64,
    pub powerstate: Seq<char>,
}

impl DeepView for Vinfo {
    type V = VinfoView;

    open spec fn deep_view(&self) -> VinfoView {
        VinfoView {
            vm_name: self.vm_name@,
            datacenter: self.datacenter@,
            cluster: self.cluster@,
            capacity: self.capacity,
            powerstate: self.powerstate@,
        }
    }
}

impl View for Vinfo {
    type V = VinfoView;

    open spec fn view(&self) -> VinfoView {
        self.deep_view()
    }
}

impl Clone for Vinfo {
    fn clone(&self) -> (copy: Self)
        ensures
            copy == *self,
    {
        Vinfo {
            vm_name: self.vm_name.clone(),
            datacenter: self.datacenter.clone(),
            cluster: self.cluster.clone(),
            capacity: self.capacity,
            powerstate: self.powerstate.clone(),
        }
    }
}

/// One storage partition of a virtual machine. A machine may have none,
/// one or many.
#[derive(Debug, PartialEq, Eq)]
pub struct Vpartition {
    pub vm_name: String,
    /// Capacity consumed, in MiB.
    pub capacity: u64,
    pub powerstate: String,
}

/// The mathematical value of a [`Vpartition`].
pub struct VpartitionView {
    pub vm_name: Seq<char>,
    pub capacity: u64,
    pub powerstate: Seq<char>,
}

impl DeepView for Vpartition {
    type V = VpartitionView;

    open spec fn deep_view(&self) -> VpartitionView {
        VpartitionView {
            vm_name: self.vm_name@,
            capacity: self.capacity,
            powerstate: self.powerstate@,
        }
    }
}

impl View for Vpartition {
    type V = VpartitionView;

    open spec fn view(&self) -> VpartitionView {
        self.deep_view()
    }
}

impl Clone for Vpartition {
    fn clone(&self) -> (copy: Self)
        ensures
            copy == *self,
    {
        Vpartition {
            vm_name: self.vm_name.clone(),
            capacity: self.capacity,
            powerstate: self.powerstate.clone(),
        }
    }
}

/// A rollup group: the machines of one site and cluster, counted and
/// totalled.
#[derive(Debug, PartialEq, Eq)]
pub struct Datacenter {
    /// The site the group belongs to.
    pub name: String,
    pub cluster: String,
    pub vm_count: usize,
    /// Total capacity of the group's machines, in MiB.
    pub capacity: u128,
}

/// The mathematical value of a [`Datacenter`].
pub struct DatacenterView {
    pub name: Seq<char>,
    pub cluster: Seq<char>,
    pub vm_count: usize,
    pub capacity: u128,
}

impl DeepView for Datacenter {
    type V = DatacenterView;

    open spec fn deep_view(&self) -> DatacenterView {
        DatacenterView {
            name: self.name@,
            cluster: self.cluster@,
            vm_count: self.vm_count,
            capacity: self.capacity,
        }
    }
}

impl View for Datacenter {
    type V = DatacenterView;

    open spec fn view(&self) -> DatacenterView {
        self.deep_view()
    }
}

impl Clone for Datacenter {
    fn clone(&self) -> (copy: Self)
        ensures
            copy == *self,
    {
        Datacenter {
            name: self.name.clone(),
            cluster: self.cluster.clone(),
            vm_count: self.vm_count,
            capacity: self.capacity,
        }
    }
}

impl Datacenter {
    /// The whole tebibytes in the group's capacity.
    pub fn capacity_tib(&self) -> (tib: u128)
        ensures
            tib == self.capacity / MIB_PER_TIB,
    {
        self.capacity / MIB_PER_TIB
    }

    /// The mebibytes of the group's capacity beyond its whole tebibytes.
    pub fn capacity_tib_remainder(&self) -> (mib: u128)
        ensures
            mib == self.capacity % MIB_PER_TIB,
            self.capacity == self.capacity_tib_spec() * MIB_PER_TIB + mib,
    {
        self.capacity % MIB_PER_TIB
    }

    /// The whole tebibytes in the group's capacity.
    pub open spec fn capacity_tib_spec(&self) -> nat {
        (self.capacity / MIB_PER_TIB) as nat
    }
}

} // verus!
