use vstd::prelude::*;

verus! {

/// One filesystem currently mounted from a physical device.
///
/// `totalBytes` and `availableBytes` carry capacity figures; a probe fills
/// them together or leaves both unset.
#[allow(non_snake_case)]
#[derive(Debug, Clone)]
pub struct MountPoint {
    pub path: String,
    pub label: Option<String>,
    pub totalBytes: Option<u64>,
    pub availableBytes: Option<u64>,
}

impl MountPoint {
    /// A mount point known only by its path; every other field is unset.
    pub fn new(path: String) -> (r: Self)
        ensures
            r.path@ == path@,
            r.label is None,
            r.totalBytes is None,
            r.availableBytes is None,
    {
        Self { path, label: None, totalBytes: None, availableBytes: None }
    }
}

/// Normalized description of one physical storage device, assembled from a
/// battery of independently failable probe queries.
#[allow(non_snake_case)]
#[derive(Debug, Clone)]
pub struct DeviceDescriptor {
    /// Name of the subsystem or tool that discovered the device.
    pub enumerator: String,
    /// Transport classification, absent if the adapter query failed.
    pub busType: Option<String>,
    /// Transport version, absent if the adapter query failed.
    pub busVersion: Option<String>,
    /// Platform path used for general handle access.
    pub device: String,
    /// Alternate/raw path if distinct from `device`.
    pub devicePath: Option<String>,
    /// Path usable for raw, unbuffered sequential access.
    pub raw: String,
    /// Human-readable label for the device.
    pub description: String,
    /// Set when any probing step failed for this device; the device stays in
    /// the result, partially populated.
    pub error: Option<String>,
    /// `"mbr"` or `"gpt"`, absent if undetermined.
    pub partitionTableType: Option<String>,
    /// Total capacity in bytes.
    pub size: u64,
    /// Physical sector size in bytes; 512 when no query overrode it.
    pub blockSize: u32,
    /// Logical sector size in bytes; 512 when no query overrode it.
    pub logicalBlockSize: u32,
    /// Mounted filesystems, in discovery order.
    pub mountpoints: Vec<MountPoint>,
    /// Denormalized view of the mount points' labels.
    pub mountpointLabels: Vec<String>,
    /// Device is read-only.
    pub isReadOnly: bool,
    /// Device is a system drive.
    pub isSystem: bool,
    /// Device is an SD-card.
    pub isCard: bool,
    /// Connected via the Small Computer System Interface (SCSI).
    pub isSCSI: bool,
    /// Connected via Universal Serial Bus (USB).
    pub isUSB: bool,
    /// Device is a virtual storage device.
    pub isVirtual: bool,
    /// Device is removable from the running system.
    pub isRemovable: bool,
    /// Connected via USB Attached SCSI (UAS); absent where undeterminable.
    pub isUAS: Option<bool>,
}

/// The documented default descriptor: 512-byte sector sizes, every optional
/// field unset, every flag false, empty strings and sequences.
pub open spec fn is_default_descriptor(d: DeviceDescriptor) -> bool {
    &&& d.enumerator@ == Seq::<char>::empty()
    &&& d.busType is None
    &&& d.busVersion is None
    &&& d.device@ == Seq::<char>::empty()
    &&& d.devicePath is None
    &&& d.raw@ == Seq::<char>::empty()
    &&& d.description@ == Seq::<char>::empty()
    &&& d.error is None
    &&& d.partitionTableType is None
    &&& d.size == 0
    &&& d.blockSize == 512
    &&& d.logicalBlockSize == 512
    &&& d.mountpoints@ == Seq::<MountPoint>::empty()
    &&& d.mountpointLabels@ == Seq::<String>::empty()
    &&& !d.isReadOnly
    &&& !d.isSystem
    &&& !d.isCard
    &&& !d.isSCSI
    &&& !d.isUSB
    &&& !d.isVirtual
    &&& !d.isRemovable
    &&& d.isUAS is None
}

impl Default for DeviceDescriptor {
    /// The explicit fallback value a probe starts from; a probing step that
    /// fails leaves the corresponding fields at these defaults.
    fn default() -> (r: Self)
        ensures
            is_default_descriptor(r),
    {
        DeviceDescriptor {
            enumerator: String::new(),
            busType: None,
            busVersion: None,
            device: String::new(),
            devicePath: None,
            raw: String::new(),
            description: String::new(),
            error: None,
            partitionTableType: None,
            size: 0,
            blockSize: 512,
            logicalBlockSize: 512,
            mountpoints: Vec::new(),
            mountpointLabels: Vec::new(),
            isReadOnly: false,
            isSystem: false,
            isCard: false,
            isSCSI: false,
            isUSB: false,
            isVirtual: false,
            isRemovable: false,
            isUAS: None,
        }
    }
}

} // verus!
