//! The disk reading served by a platform metric source.
use vstd::prelude::*;

verus! {

/// All mounted partitions, enumerated at call time.
#[derive(Debug)]
pub struct DiskData {
    pub partitions: Vec<PartitionData>,
}

/// One partition. `used_bytes` is derived from the total and available
/// space by the constructor; sizes are bytes as the platform reports them.
#[derive(Debug)]
pub struct PartitionData {
    pub name: String,
    pub mount_point: String,
    pub total_bytes: u64,
    pub used_bytes: u64,
    pub available_bytes: u64,
    pub filesystem: String,
    pub disk_type: String,
}

#[verifier::ext_equal]
pub struct DiskDataView {
    pub partitions: Seq<PartitionDataView>,
}

#[verifier::ext_equal]
pub struct PartitionDataView {
    pub name: Seq<char>,
    pub mount_point: Seq<char>,
    pub total_bytes: u64,
    pub used_bytes: u64,
    pub available_bytes: u64,
    pub filesystem: Seq<char>,
    pub disk_type: Seq<char>,
}

impl View for PartitionData {
    type V = PartitionDataView;

    open spec fn view(&self) -> PartitionDataView {
        PartitionDataView {
            name: self.name@,
            mount_point: self.mount_point@,
            total_bytes: self.total_bytes,
            used_bytes: self.used_bytes,
            available_bytes: self.available_bytes,
            filesystem: self.filesystem@,
            disk_type: self.disk_type@,
        }
    }
}

impl DeepView for PartitionData {
    type V = PartitionDataView;

    open spec fn deep_view(&self) -> PartitionDataView {
        self.view()
    }
}

impl View for DiskData {
    type V = DiskDataView;

    open spec fn view(&self) -> DiskDataView {
        DiskDataView { partitions: self.partitions.deep_view() }
    }
}

impl DeepView for DiskData {
    type V = DiskDataView;

    open spec fn deep_view(&self) -> DiskDataView {
        self.view()
    }
}

impl PartitionData {
    /// Builds a partition record from the space figures the platform
    /// reports, deriving the used size (zero when the platform reports
    /// more available than total space).
    pub fn from_space(
        name: String,
        mount_point: String,
        total_bytes: u64,
        available_bytes: u64,
        filesystem: String,
        disk_type: String,
    ) -> (r: PartitionData)
        ensures
            r@.name == name@,
            r@.mount_point == mount_point@,
            r@.total_bytes == total_bytes,
            r@.available_bytes == available_bytes,
            r@.used_bytes == if available_bytes <= total_bytes {
                (total_bytes - available_bytes) as u64
            } else {
                0u64
            },
            r@.filesystem == filesystem@,
            r@.disk_type == disk_type@,
    {
        let used_bytes: u64 = if available_bytes <= total_bytes {
            total_bytes - available_bytes
        } else {
            0
        };
        PartitionData {
            name,
            mount_point,
            total_bytes,
            used_bytes,
            available_bytes,
            filesystem,
            disk_type,
        }
    }
}

} // verus!
