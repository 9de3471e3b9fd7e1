use vstd::prelude::*;

use crate::device::DeviceDescriptor;
use crate::device::MountPoint;
use vstd::string::StringExecFns;

verus! {

/// One partition of a top-level disk record in the structured listing: its
/// mount path when mounted, its content string, and its size in bytes.
#[derive(Debug)]
pub struct PartitionRecord {
    pub mount_point: Option<String>,
    pub content: String,
    pub size: u64,
}

/// One top-level disk record of the structured listing: the identifier the
/// tool assigned, whether the disk is OS-internal, its size in bytes, its
/// content string, and its partitions.
#[derive(Debug)]
pub struct DiskRecord {
    pub device_identifier: String,
    pub os_internal: bool,
    pub size: u64,
    pub content: String,
    pub partitions: Vec<PartitionRecord>,
}

/// The mount point a partition record maps to: the partition's mount path
/// (empty when unmounted), its content string as the label, its size as the
/// total capacity, and no free-space figure, since the listing reports none.
pub open spec fn is_mount_of(mp: MountPoint, p: PartitionRecord) -> bool {
    &&& mp.path@ == match p.mount_point {
        Some(s) => s@,
        None => Seq::<char>::empty(),
    }
    &&& mp.label matches Some(l) && l@ == p.content@
    &&& mp.totalBytes == Some(p.size)
    &&& mp.availableBytes is None
}

/// Maps one partition record of the listing to a mount point.
pub fn mount_point_from_partition(p: PartitionRecord) -> (r: MountPoint)
    ensures
        is_mount_of(r, p),
{
    let path = match &p.mount_point {
        Some(s) => s.clone(),
        None => String::new(),
    };
    MountPoint { path, label: Some(p.content), totalBytes: Some(p.size), availableBytes: None }
}

/// The descriptor a top-level disk record maps to: an OS-internal disk is a
/// non-removable system disk and vice versa, the paths are built from the
/// identifier, each partition becomes a mount point in order, and every
/// other field keeps its documented default.
pub open spec fn is_descriptor_of(d: DeviceDescriptor, disk: DiskRecord) -> bool {
    &&& d.enumerator@ == "diskutil"@
    &&& d.description@ == disk.content@
    &&& d.size == disk.size
    &&& d.device@ == "/dev/"@ + disk.device_identifier@
    &&& d.raw@ == "/dev/r"@ + disk.device_identifier@
    &&& d.isSystem == disk.os_internal
    &&& d.isRemovable == !disk.os_internal
    &&& d.mountpoints@.len() == disk.partitions@.len()
    &&& forall|j: int| 0 <= j < disk.partitions@.len() ==> is_mount_of(
        #[trigger] d.mountpoints@[j],
        disk.partitions@[j],
    )
    &&& d.busType is None
    &&& d.busVersion is None
    &&& d.devicePath is None
    &&& d.error is None
    &&& d.partitionTableType is None
    &&& d.blockSize == 512
    &&& d.logicalBlockSize == 512
    &&& d.mountpointLabels@ == Seq::<String>::empty()
    &&& !d.isReadOnly
    &&& !d.isCard
    &&& !d.isSCSI
    &&& !d.isUSB
    &&& !d.isVirtual
    &&& d.isUAS is None
}

/// Maps one top-level disk record of the listing to a device descriptor.
pub fn descriptor_from_disk(disk: DiskRecord) -> (r: DeviceDescriptor)
    ensures
        is_descriptor_of(r, disk),
{
    let ghost all_partitions = disk.partitions@;
    let mut parts = disk.partitions;
    let mut mountpoints: Vec<MountPoint> = Vec::new();
    while parts.len() > 0
        invariant
            mountpoints@.len() + parts@.len() == all_partitions.len(),
            parts@ == all_partitions.subrange(mountpoints@.len() as int, all_partitions.len() as int),
            forall|j: int| 0 <= j < mountpoints@.len() ==> is_mount_of(
                #[trigger] mountpoints@[j],
                all_partitions[j],
            ),
        decreases parts@.len(),
    {
        let p = parts.remove(0);
        proof {
            assert(all_partitions[mountpoints@.len() as int] == p);
            assert(parts@ =~= all_partitions.subrange(
                mountpoints@.len() as int + 1,
                all_partitions.len() as int,
            ));
        }
        let mp = mount_point_from_partition(p);
        mountpoints.push(mp);
    }
    let mut device = "/dev/".to_owned();
    device.append(disk.device_identifier.as_str());
    let mut raw = "/dev/r".to_owned();
    raw.append(disk.device_identifier.as_str());
    let mut d = DeviceDescriptor::default();
    d.enumerator = "diskutil".to_owned();
    d.description = disk.content;
    d.size = disk.size;
    d.device = device;
    d.raw = raw;
    d.isSystem = disk.os_internal;
    d.isRemovable = !disk.os_internal;
    d.mountpoints = mountpoints;
    d
}

/// Maps every top-level record of a parsed listing to a descriptor, in the
/// order the listing reported them.
pub fn descriptors_from_listing(disks: Vec<DiskRecord>) -> (r: Vec<DeviceDescriptor>)
    ensures
        r@.len() == disks@.len(),
        forall|j: int| 0 <= j < disks@.len() ==> is_descriptor_of(#[trigger] r@[j], disks@[j]),
{
    let ghost all_disks = disks@;
    let mut rest = disks;
    let mut out: Vec<DeviceDescriptor> = Vec::new();
    while rest.len() > 0
        invariant
            out@.len() + rest@.len() == all_disks.len(),
            rest@ == all_disks.subrange(out@.len() as int, all_disks.len() as int),
            forall|j: int| 0 <= j < out@.len() ==> is_descriptor_of(
                #[trigger] out@[j],
                all_disks[j],
            ),
        decreases rest@.len(),
    {
        let disk = rest.remove(0);
        proof {
            assert(all_disks[out@.len() as int] == disk);
            assert(rest@ =~= all_disks.subrange(out@.len() as int + 1, all_disks.len() as int));
        }
        let d = descriptor_from_disk(disk);
        out.push(d);
    }
    out
}

/// The outcome of one invocation of the external disk-listing utility, as
/// the caller observed it: whether the tool exited successfully, and the
/// parsed top-level records when its output could be parsed at all.
pub enum ListingOutcome {
    Failed,
    Unparseable,
    Parsed(Vec<DiskRecord>),
}

/// Turns one observed invocation of the external listing utility into the
/// probe's result. A tool that exited with nonzero status, or output that
/// could not be parsed, is the probe's hard failure: no partial device list
/// comes back. A parsed listing maps record for record.
pub fn diskutil_outcome(outcome: ListingOutcome) -> (r: Result<Vec<DeviceDescriptor>, String>)
    ensures
        outcome is Failed ==> (r matches Err(m) && m@ == "diskutil fail"@),
        outcome is Unparseable ==> (r matches Err(m) && m@ == "diskutil output not parseable"@),
        outcome matches ListingOutcome::Parsed(disks) ==> (r matches Ok(ds) && ds@.len()
            == disks@.len() && (forall|j: int|
            0 <= j < disks@.len() ==> is_descriptor_of(#[trigger] ds@[j], disks@[j]))),
{
    match outcome {
        ListingOutcome::Failed => Err("diskutil fail".to_owned()),
        ListingOutcome::Unparseable => Err("diskutil output not parseable".to_owned()),
        ListingOutcome::Parsed(disks) => Ok(descriptors_from_listing(disks)),
    }
}

} // verus!
