use vstd::prelude::*;

use crate::device::DeviceDescriptor;
use crate::device::MountPoint;
use crate::text::dec_of;
use crate::text::is_substring_of;
use crate::text::message_with_code;
use crate::text::push_decimal;
use crate::text::str_contains;
use crate::text::str_eq;
use crate::text::u64_to_string;

verus! {

/// Drive-type code for a removable drive.
pub const DRIVE_TYPE_REMOVABLE: u32 = 2;

/// Drive-type code for a fixed drive.
pub const DRIVE_TYPE_FIXED: u32 = 3;

/// Removal-policy code for a device expected to be removed orderly.
pub const REMOVAL_POLICY_ORDERLY: u32 = 2;

/// Removal-policy code for a device expected to be surprise-removed.
pub const REMOVAL_POLICY_SURPRISE: u32 = 3;

/// Partition-style code for a master boot record layout.
pub const PARTITION_STYLE_MBR: u32 = 0;

/// Partition-style code for a GUID partition table layout.
pub const PARTITION_STYLE_GPT: u32 = 1;

/// The closed transport classification a numeric bus code decodes to;
/// `Invalid` is the fallback for every unrecognized code.
#[derive(Debug, Clone, Copy, PartialEq, Eq, Structural)]
pub enum BusType {
    Unknown,
    Scsi,
    Atapi,
    Ata,
    Ieee1394,
    Ssa,
    Fibre,
    Usb,
    Raid,
    Iscsi,
    Sas,
    Sata,
    SdCard,
    Mmc,
    Virtual,
    FileBackedVirtual,
    Nvme,
    Scm,
    Ufs,
    Invalid,
}

/// The transport class each numeric adapter bus code stands for.
pub open spec fn bus_type_of_code(code: u32) -> BusType {
    if code == 0 { BusType::Unknown }
    else if code == 1 { BusType::Scsi }
    else if code == 2 { BusType::Atapi }
    else if code == 3 { BusType::Ata }
    else if code == 4 { BusType::Ieee1394 }
    else if code == 5 { BusType::Ssa }
    else if code == 6 { BusType::Fibre }
    else if code == 7 { BusType::Usb }
    else if code == 8 { BusType::Raid }
    else if code == 9 { BusType::Iscsi }
    else if code == 10 { BusType::Sas }
    else if code == 11 { BusType::Sata }
    else if code == 12 { BusType::SdCard }
    else if code == 13 { BusType::Mmc }
    else if code == 14 { BusType::Virtual }
    else if code == 15 { BusType::FileBackedVirtual }
    else if code == 17 { BusType::Nvme }
    else if code == 18 { BusType::Scm }
    else if code == 19 { BusType::Ufs }
    else { BusType::Invalid }
}

/// The fixed label of each transport class.
pub open spec fn bus_type_label(b: BusType) -> Seq<char> {
    match b {
        BusType::Unknown => "UNKNOWN"@,
        BusType::Scsi => "SCSI"@,
        BusType::Atapi => "ATAPI"@,
        BusType::Ata => "ATA"@,
        BusType::Ieee1394 => "1394"@,
        BusType::Ssa => "SSA"@,
        BusType::Fibre => "FIBRE"@,
        BusType::Usb => "USB"@,
        BusType::Raid => "RAID"@,
        BusType::Iscsi => "iSCSI"@,
        BusType::Sas => "SAS"@,
        BusType::Sata => "SATA"@,
        BusType::SdCard => "SDCARD"@,
        BusType::Mmc => "MMC"@,
        BusType::Virtual => "VIRTUAL"@,
        BusType::FileBackedVirtual => "FILEBACKEDVIRTUAL"@,
        BusType::Nvme => "NVME"@,
        BusType::Scm => "SCM"@,
        BusType::Ufs => "UFS"@,
        BusType::Invalid => "INVALID"@,
    }
}

/// The label the adapter query reports for a numeric bus code.
pub open spec fn spec_bus_name(code: u32) -> Seq<char> {
    bus_type_label(bus_type_of_code(code))
}

impl BusType {
    /// Decodes a native adapter bus code into the closed enumeration.
    pub fn from_code(code: u32) -> (r: BusType)
        ensures
            r == bus_type_of_code(code),
    {
        match code {
            0 => BusType::Unknown,
            1 => BusType::Scsi,
            2 => BusType::Atapi,
            3 => BusType::Ata,
            4 => BusType::Ieee1394,
            5 => BusType::Ssa,
            6 => BusType::Fibre,
            7 => BusType::Usb,
            8 => BusType::Raid,
            9 => BusType::Iscsi,
            10 => BusType::Sas,
            11 => BusType::Sata,
            12 => BusType::SdCard,
            13 => BusType::Mmc,
            14 => BusType::Virtual,
            15 => BusType::FileBackedVirtual,
            17 => BusType::Nvme,
            18 => BusType::Scm,
            19 => BusType::Ufs,
            _ => BusType::Invalid,
        }
    }

    /// The label of this transport class.
    pub fn name(&self) -> (r: String)
        ensures
            r@ == bus_type_label(*self),
    {
        let s: &str = match self {
            BusType::Unknown => "UNKNOWN",
            BusType::Scsi => "SCSI",
            BusType::Atapi => "ATAPI",
            BusType::Ata => "ATA",
            BusType::Ieee1394 => "1394",
            BusType::Ssa => "SSA",
            BusType::Fibre => "FIBRE",
            BusType::Usb => "USB",
            BusType::Raid => "RAID",
            BusType::Iscsi => "iSCSI",
            BusType::Sas => "SAS",
            BusType::Sata => "SATA",
            BusType::SdCard => "SDCARD",
            BusType::Mmc => "MMC",
            BusType::Virtual => "VIRTUAL",
            BusType::FileBackedVirtual => "FILEBACKEDVIRTUAL",
            BusType::Nvme => "NVME",
            BusType::Scm => "SCM",
            BusType::Ufs => "UFS",
            BusType::Invalid => "INVALID",
        };
        s.to_owned()
    }
}

/// The label for a numeric bus code, as the descriptor records it.
pub fn get_bus_type(code: u32) -> (r: String)
    ensures
        r@ == spec_bus_name(code),
{
    BusType::from_code(code).name()
}

/// The partition-table classification of a reported drive layout: an MBR
/// style whose partition count is an exact multiple of 4 classifies `mbr`, a
/// GPT style always classifies `gpt`, anything else stays unclassified.
/// The count rule is a deliberate heuristic of this probe: a style of MBR
/// alone is not taken as proof of an MBR table.
pub open spec fn spec_partition_class(style: u32, count: u32) -> Option<Seq<char>> {
    if style == PARTITION_STYLE_MBR && count % 4 == 0 {
        Some("mbr"@)
    } else if style == PARTITION_STYLE_GPT {
        Some("gpt"@)
    } else {
        None
    }
}

/// Classifies a drive layout by partition style and partition count.
pub fn classify_partition_table(style: u32, count: u32) -> (r: Option<String>)
    ensures
        r matches Some(s) ==> spec_partition_class(style, count) == Some(s@),
        (r is Some) == (spec_partition_class(style, count) is Some),
{
    if style == PARTITION_STYLE_MBR && count % 4 == 0 {
        Some("mbr".to_owned())
    } else if style == PARTITION_STYLE_GPT {
        Some("gpt".to_owned())
    } else {
        None
    }
}

/// True when an enumerator name denotes a USB storage subsystem: an exact,
/// case-sensitive membership test against the fixed set of known names.
pub open spec fn spec_is_usb_enumerator(name: Seq<char>) -> bool {
    ||| name == "USBSTOR"@
    ||| name == "UASPSTOR"@
    ||| name == "VUSBSTOR"@
    ||| name == "RTUSER"@
    ||| name == "CMIUCR"@
    ||| name == "EUCR"@
    ||| name == "ETRONSTOR"@
    ||| name == "ASUSSTPT"@
}

/// Classifies a device as USB-attached by its enumerator name.
pub fn is_usb_drive(enumerator_name: &str) -> (r: bool)
    ensures
        r == spec_is_usb_enumerator(enumerator_name@),
{
    str_eq(enumerator_name, "USBSTOR") || str_eq(enumerator_name, "UASPSTOR")
        || str_eq(enumerator_name, "VUSBSTOR") || str_eq(enumerator_name, "RTUSER")
        || str_eq(enumerator_name, "CMIUCR") || str_eq(enumerator_name, "EUCR")
        || str_eq(enumerator_name, "ETRONSTOR") || str_eq(enumerator_name, "ASUSSTPT")
}

/// True when a registry removal policy marks the device as removable.
pub fn is_removable_policy(policy: u32) -> (r: bool)
    ensures
        r == (policy == REMOVAL_POLICY_ORDERLY || policy == REMOVAL_POLICY_SURPRISE),
{
    policy == REMOVAL_POLICY_ORDERLY || policy == REMOVAL_POLICY_SURPRISE
}

/// The device number a handle resolves to, from the two identification
/// queries: the storage-device-number answer, when present, is preferred;
/// a volume-disk-extents answer is valid only with exactly one extent, as a
/// spanned target belongs to no single physical device.
pub open spec fn spec_resolve_device_number(
    extents: Option<(u32, u32)>,
    storage: Option<u32>,
) -> Option<u32> {
    match storage {
        Some(n) => Some(n),
        None => match extents {
            Some((count, disk)) => if count == 1 {
                Some(disk)
            } else {
                None
            },
            None => None,
        },
    }
}

/// Resolves a device number from the volume-disk-extents query (extent count
/// and first extent's disk number) and the storage-device-number query; when
/// neither yields a usable number, the device stays unidentified.
pub fn resolve_device_number(extents: Option<(u32, u32)>, storage: Option<u32>) -> (r: Option<
    u32,
>)
    ensures
        r == spec_resolve_device_number(extents, storage),
{
    if let Some(n) = storage {
        Some(n)
    } else if let Some((count, disk)) = extents {
        if count == 1 {
            Some(disk)
        } else {
            None
        }
    } else {
        None
    }
}

/// True when a volume's drive type takes part in mount-point correlation:
/// only fixed and removable drives do.
pub fn volume_type_eligible(drive_type: u32) -> (r: bool)
    ensures
        r == (drive_type == DRIVE_TYPE_FIXED || drive_type == DRIVE_TYPE_REMOVABLE),
{
    drive_type == DRIVE_TYPE_FIXED || drive_type == DRIVE_TYPE_REMOVABLE
}

/// True when a logical volume belongs to the physical device under
/// construction: its resolved device number equals the device's.
pub open spec fn spec_volume_matches(volume_number: Option<u32>, device_number: u32) -> bool {
    volume_number == Some(device_number)
}

/// Decides whether a logical volume's resolved device number correlates it
/// to the physical device with number `device_number`.
pub fn volume_matches(volume_number: Option<u32>, device_number: u32) -> (r: bool)
    ensures
        r == spec_volume_matches(volume_number, device_number),
{
    if let Some(n) = volume_number {
        n == device_number
    } else {
        false
    }
}

/// Law: mount-point correlation never assigns one logical volume to two
/// physical devices in one enumeration snapshot; a volume's resolved device
/// number matches at most one device number.
pub proof fn lemma_correlation_unique(
    volume_number: Option<u32>,
    first_device: u32,
    second_device: u32,
)
    requires
        spec_volume_matches(volume_number, first_device),
        spec_volume_matches(volume_number, second_device),
    ensures
        first_device == second_device,
{
}

/// The drive letter of bit `i` of the logical-drive mask.
pub open spec fn letter_of(i: int) -> char {
    if i == 0 { 'A' }
    else if i == 1 { 'B' }
    else if i == 2 { 'C' }
    else if i == 3 { 'D' }
    else if i == 4 { 'E' }
    else if i == 5 { 'F' }
    else if i == 6 { 'G' }
    else if i == 7 { 'H' }
    else if i == 8 { 'I' }
    else if i == 9 { 'J' }
    else if i == 10 { 'K' }
    else if i == 11 { 'L' }
    else if i == 12 { 'M' }
    else if i == 13 { 'N' }
    else if i == 14 { 'O' }
    else if i == 15 { 'P' }
    else if i == 16 { 'Q' }
    else if i == 17 { 'R' }
    else if i == 18 { 'S' }
    else if i == 19 { 'T' }
    else if i == 20 { 'U' }
    else if i == 21 { 'V' }
    else if i == 22 { 'W' }
    else if i == 23 { 'X' }
    else if i == 24 { 'Y' }
    else { 'Z' }
}

/// True when bit `i` of the logical-drive mask marks letter `i` assigned.
pub open spec fn mask_bit(mask: u32, i: nat) -> bool {
    (mask >> i) & 1 == 1
}

/// The assigned drive letters among the first `i` bits of the mask, in
/// alphabetical order.
pub open spec fn letters_upto(mask: u32, i: nat) -> Seq<char>
    decreases i,
{
    if i == 0 {
        Seq::<char>::empty()
    } else {
        letters_upto(mask, (i - 1) as nat) + (if mask_bit(mask, (i - 1) as nat) {
            seq![letter_of(i - 1)]
        } else {
            Seq::<char>::empty()
        })
    }
}

/// The currently assigned drive letters, decoded from the native
/// logical-drive bitmask: bit 0 is `A`, bit 25 is `Z`.
pub fn get_available_volumes(mask: u32) -> (r: Vec<char>)
    ensures
        r@ == letters_upto(mask, 26),
{
    let mut letters: Vec<char> = Vec::new();
    let mut i: usize = 0;
    while i < 26
        invariant
            i <= 26,
            letters@ == letters_upto(mask, i as nat),
        decreases 26 - i,
    {
        proof {
            assert(letters_upto(mask, (i + 1) as nat) == letters_upto(mask, i as nat) + (
            if mask_bit(mask, i as nat) {
                seq![letter_of(i as int)]
            } else {
                Seq::<char>::empty()
            }));
        }
        if (mask >> (i as u32)) & 1 == 1 {
            let c = letter_from_index(i);
            letters.push(c);
            proof {
                assert(letters@ =~= letters_upto(mask, (i + 1) as nat));
            }
        } else {
            proof {
                assert(letters@ =~= letters_upto(mask, (i + 1) as nat));
            }
        }
        i = i + 1;
    }
    letters
}

/// The drive letter for one bit index of the logical-drive mask.
fn letter_from_index(i: usize) -> (c: char)
    requires
        i < 26,
    ensures
        c == letter_of(i as int),
{
    match i {
        0 => 'A',
        1 => 'B',
        2 => 'C',
        3 => 'D',
        4 => 'E',
        5 => 'F',
        6 => 'G',
        7 => 'H',
        8 => 'I',
        9 => 'J',
        10 => 'K',
        11 => 'L',
        12 => 'M',
        13 => 'N',
        14 => 'O',
        15 => 'P',
        16 => 'Q',
        17 => 'R',
        18 => 'S',
        19 => 'T',
        20 => 'U',
        21 => 'V',
        22 => 'W',
        23 => 'X',
        24 => 'Y',
        _ => 'Z',
    }
}

/// The root path of the volume mounted at a drive letter, `X:\`.
pub open spec fn volume_path_of(letter: char) -> Seq<char> {
    seq![letter, ':', '\\']
}

/// Builds the mount root path for a drive letter.
pub fn volume_root_path(letter: char) -> (r: String)
    requires
        'A' <= letter <= 'Z',
    ensures
        r@ == volume_path_of(letter),
{
    let s: &str = if letter == 'A' { "A:\\" }
    else if letter == 'B' { "B:\\" }
    else if letter == 'C' { "C:\\" }
    else if letter == 'D' { "D:\\" }
    else if letter == 'E' { "E:\\" }
    else if letter == 'F' { "F:\\" }
    else if letter == 'G' { "G:\\" }
    else if letter == 'H' { "H:\\" }
    else if letter == 'I' { "I:\\" }
    else if letter == 'J' { "J:\\" }
    else if letter == 'K' { "K:\\" }
    else if letter == 'L' { "L:\\" }
    else if letter == 'M' { "M:\\" }
    else if letter == 'N' { "N:\\" }
    else if letter == 'O' { "O:\\" }
    else if letter == 'P' { "P:\\" }
    else if letter == 'Q' { "Q:\\" }
    else if letter == 'R' { "R:\\" }
    else if letter == 'S' { "S:\\" }
    else if letter == 'T' { "T:\\" }
    else if letter == 'U' { "U:\\" }
    else if letter == 'V' { "V:\\" }
    else if letter == 'W' { "W:\\" }
    else if letter == 'X' { "X:\\" }
    else if letter == 'Y' { "Y:\\" }
    else { "Z:\\" };
    proof {
        reveal_strlit("A:\\");
        reveal_strlit("B:\\");
        reveal_strlit("C:\\");
        reveal_strlit("D:\\");
        reveal_strlit("E:\\");
        reveal_strlit("F:\\");
        reveal_strlit("G:\\");
        reveal_strlit("H:\\");
        reveal_strlit("I:\\");
        reveal_strlit("J:\\");
        reveal_strlit("K:\\");
        reveal_strlit("L:\\");
        reveal_strlit("M:\\");
        reveal_strlit("N:\\");
        reveal_strlit("O:\\");
        reveal_strlit("P:\\");
        reveal_strlit("Q:\\");
        reveal_strlit("R:\\");
        reveal_strlit("S:\\");
        reveal_strlit("T:\\");
        reveal_strlit("U:\\");
        reveal_strlit("V:\\");
        reveal_strlit("W:\\");
        reveal_strlit("X:\\");
        reveal_strlit("Y:\\");
        reveal_strlit("Z:\\");
        assert(s@ =~= volume_path_of(letter));
    }
    s.to_owned()
}

/// Cluster geometry of a mounted volume, as the free-space query reports it.
#[derive(Debug, Clone, Copy)]
pub struct ClusterInfo {
    pub sectors_per_cluster: u32,
    pub bytes_per_sector: u32,
    pub free_clusters: u32,
    pub total_clusters: u32,
}

/// Total capacity in bytes of a volume with this cluster geometry.
pub open spec fn cluster_total_bytes(c: ClusterInfo) -> int {
    c.sectors_per_cluster * c.bytes_per_sector * c.total_clusters
}

/// Free capacity in bytes of a volume with this cluster geometry.
pub open spec fn cluster_free_bytes(c: ClusterInfo) -> int {
    c.sectors_per_cluster * c.bytes_per_sector * c.free_clusters
}

/// The mount point a correlated volume yields: the drive letter's root path,
/// no label, and both capacity figures from the volume's cluster geometry.
pub open spec fn is_correlated_mount(mp: MountPoint, letter: char, c: ClusterInfo) -> bool {
    &&& mp.path@ == volume_path_of(letter)
    &&& mp.label is None
    &&& mp.totalBytes matches Some(t) && t == cluster_total_bytes(c)
    &&& mp.availableBytes matches Some(a) && a == cluster_free_bytes(c)
}

/// Law: a mount point of the native probe carries its capacity figures
/// together: never a total size without the free space, nor the reverse.
pub proof fn lemma_correlated_capacity_paired(mp: MountPoint, letter: char, c: ClusterInfo)
    requires
        is_correlated_mount(mp, letter, c),
    ensures
        mp.totalBytes is Some,
        mp.availableBytes is Some,
{
}

/// Builds the mount point for a correlated volume from its drive letter and
/// the outcome of the free-space query. A failed space query is the one hard
/// failure of mount-point correlation. Capacity and free space are reported
/// together, never one without the other.
pub fn mount_point_from_space(letter: char, space: Result<ClusterInfo, u32>) -> (r: Result<
    MountPoint,
    String,
>)
    requires
        'A' <= letter <= 'Z',
        space matches Ok(c) ==> cluster_total_bytes(c) <= u64::MAX && cluster_free_bytes(c)
            <= u64::MAX,
    ensures
        space matches Ok(c) ==> (r matches Ok(mp) && is_correlated_mount(mp, letter, c)),
        space matches Err(code) ==> (r matches Err(m) && m@ == "Couldn't get volume space: Error "@
            + dec_of(code as nat)),
{
    match space {
        Ok(c) => {
            proof {
                assert((c.sectors_per_cluster as int) * (c.bytes_per_sector as int) <= u64::MAX
                    as int) by (nonlinear_arith)
                    requires
                        c.sectors_per_cluster <= u32::MAX,
                        c.bytes_per_sector <= u32::MAX,
                ;
            }
            let bytes_per_cluster: u64 = (c.sectors_per_cluster as u64) * (c.bytes_per_sector
                as u64);
            let total: u64 = bytes_per_cluster * (c.total_clusters as u64);
            let available: u64 = bytes_per_cluster * (c.free_clusters as u64);
            let mut mp = MountPoint::new(volume_root_path(letter));
            mp.totalBytes = Some(total);
            mp.availableBytes = Some(available);
            Ok(mp)
        },
        Err(code) => {
            let mut m = "Couldn't get volume space: Error ".to_owned();
            push_decimal(&mut m, code as u64);
            Err(m)
        },
    }
}

/// The canonical raw path of the physical drive with a device number.
pub open spec fn physical_drive_path_of(n: nat) -> Seq<char> {
    "\\\\.\\PhysicalDrive"@ + dec_of(n)
}

/// Builds the canonical raw physical-drive path for a device number.
pub fn physical_drive_path(n: u32) -> (r: String)
    ensures
        r@ == physical_drive_path_of(n as nat),
{
    let mut s = "\\\\.\\PhysicalDrive".to_owned();
    push_decimal(&mut s, n as u64);
    s
}

/// Sets both access paths of a descriptor to the canonical physical-drive
/// path of its resolved device number; no other field changes.
pub fn set_device_paths(d: &mut DeviceDescriptor, device_number: u32)
    ensures
        final(d).raw@ == physical_drive_path_of(device_number as nat),
        final(d).device@ == physical_drive_path_of(device_number as nat),
        *final(d) == (DeviceDescriptor {
            raw: final(d).raw,
            device: final(d).device,
            ..*old(d)
        }),
{
    let p = physical_drive_path(device_number);
    d.device = p.clone();
    d.raw = p;
}

/// What the extended-geometry query reports: total size and sector size.
#[derive(Debug, Clone, Copy)]
pub struct DiskGeometry {
    pub size: u64,
    pub bytes_per_sector: u32,
}

/// What the extended drive-layout query reports: style and partition count.
#[derive(Debug, Clone, Copy)]
pub struct PartitionLayout {
    pub style: u32,
    pub partition_count: u32,
}

/// What the adapter-descriptor query reports: bus code and bus version.
#[derive(Debug, Clone, Copy)]
pub struct AdapterInfo {
    pub bus_code: u32,
    pub bus_major_version: u16,
    pub bus_minor_version: u16,
}

/// What the access-alignment query reports: sector sizes in bytes.
#[derive(Debug, Clone, Copy)]
pub struct SectorSizes {
    pub physical: u32,
    pub logical: u32,
}

/// The property battery's position: which query against the physical handle
/// comes next, or `Done` when the battery is over for this device.
#[derive(Debug, Clone, Copy, PartialEq, Eq, Structural)]
pub enum BatteryState {
    Geometry,
    Layout,
    Adapter,
    Alignment,
    Writability,
    Done,
}

/// The outcome of one native query of the property battery; a failed query
/// carries the numeric error code the platform reported.
#[derive(Debug, Clone, Copy)]
pub enum QueryOutcome {
    Geometry(Result<DiskGeometry, u32>),
    Layout(Result<PartitionLayout, u32>),
    Adapter(Result<AdapterInfo, u32>),
    Alignment(Result<SectorSizes, u32>),
    Writability(bool),
}

/// True when an outcome answers the query the battery state asks for.
pub open spec fn outcome_matches_state(s: BatteryState, e: QueryOutcome) -> bool {
    match (s, e) {
        (BatteryState::Geometry, QueryOutcome::Geometry(_)) => true,
        (BatteryState::Layout, QueryOutcome::Layout(_)) => true,
        (BatteryState::Adapter, QueryOutcome::Adapter(_)) => true,
        (BatteryState::Alignment, QueryOutcome::Alignment(_)) => true,
        (BatteryState::Writability, QueryOutcome::Writability(_)) => true,
        _ => false,
    }
}

/// True when an outcome is a failed query.
pub open spec fn is_failed_outcome(e: QueryOutcome) -> bool {
    match e {
        QueryOutcome::Geometry(q) => q is Err,
        QueryOutcome::Layout(q) => q is Err,
        QueryOutcome::Adapter(q) => q is Err,
        QueryOutcome::Alignment(q) => q is Err,
        QueryOutcome::Writability(_) => false,
    }
}

/// The fields the property battery never writes are the same in `d1` as in
/// `d0`.
pub open spec fn battery_untouched(d0: DeviceDescriptor, d1: DeviceDescriptor) -> bool {
    &&& d1.enumerator == d0.enumerator
    &&& d1.device == d0.device
    &&& d1.devicePath == d0.devicePath
    &&& d1.raw == d0.raw
    &&& d1.description == d0.description
    &&& d1.mountpoints == d0.mountpoints
    &&& d1.mountpointLabels == d0.mountpointLabels
    &&& d1.isSystem == d0.isSystem
    &&& d1.isCard == d0.isCard
    &&& d1.isSCSI == d0.isSCSI
    &&& d1.isUSB == d0.isUSB
    &&& d1.isVirtual == d0.isVirtual
    &&& d1.isRemovable == d0.isRemovable
    &&& d1.isUAS == d0.isUAS
}

/// The fields the property battery may write are the same in `d1` as in
/// `d0`, the error field aside.
pub open spec fn battery_fields_kept(d0: DeviceDescriptor, d1: DeviceDescriptor) -> bool {
    &&& d1.size == d0.size
    &&& d1.blockSize == d0.blockSize
    &&& d1.logicalBlockSize == d0.logicalBlockSize
    &&& d1.partitionTableType == d0.partitionTableType
    &&& d1.busType == d0.busType
    &&& d1.busVersion == d0.busVersion
    &&& d1.isReadOnly == d0.isReadOnly
}

/// A soft failure of one battery query: every field already populated is
/// retained, the error field records the cause with the platform's error
/// code, and the battery is over for this device.
pub open spec fn battery_failed_step(
    d0: DeviceDescriptor,
    d1: DeviceDescriptor,
    next: BatteryState,
    prefix: Seq<char>,
    code: u32,
) -> bool {
    &&& battery_fields_kept(d0, d1)
    &&& d1.error matches Some(m) && m@ == prefix + dec_of(code as nat)
    &&& next == BatteryState::Done
}

/// The version string `"<major>.<minor>"` of an adapter.
pub open spec fn bus_version_of(major: u16, minor: u16) -> Seq<char> {
    dec_of(major as nat) + "."@ + dec_of(minor as nat)
}

/// How one step of the property battery changes a descriptor: `d0` to `d1`
/// under outcome `e` in state `s`, moving the battery to `next`.
pub open spec fn battery_step_rel(
    d0: DeviceDescriptor,
    d1: DeviceDescriptor,
    s: BatteryState,
    e: QueryOutcome,
    next: BatteryState,
) -> bool {
    battery_untouched(d0, d1) && match (s, e) {
        (BatteryState::Geometry, QueryOutcome::Geometry(q)) => match q {
            Ok(g) => {
                &&& d1.size == g.size
                &&& d1.blockSize == g.bytes_per_sector
                &&& d1.logicalBlockSize == d0.logicalBlockSize
                &&& d1.partitionTableType == d0.partitionTableType
                &&& d1.busType == d0.busType
                &&& d1.busVersion == d0.busVersion
                &&& d1.isReadOnly == d0.isReadOnly
                &&& d1.error == d0.error
                &&& next == BatteryState::Layout
            },
            Err(code) => battery_failed_step(
                d0,
                d1,
                next,
                "Couldn't get disk geometry: Error "@,
                code,
            ),
        },
        (BatteryState::Layout, QueryOutcome::Layout(q)) => match q {
            Ok(l) => {
                &&& d1.size == d0.size
                &&& d1.blockSize == d0.blockSize
                &&& d1.logicalBlockSize == d0.logicalBlockSize
                &&& match spec_partition_class(l.style, l.partition_count) {
                    Some(label) => d1.partitionTableType matches Some(p) && p@ == label,
                    None => d1.partitionTableType == d0.partitionTableType,
                }
                &&& d1.busType == d0.busType
                &&& d1.busVersion == d0.busVersion
                &&& d1.isReadOnly == d0.isReadOnly
                &&& d1.error == d0.error
                &&& next == BatteryState::Adapter
            },
            Err(code) => battery_failed_step(
                d0,
                d1,
                next,
                "Couldn't get partition type: Error "@,
                code,
            ),
        },
        (BatteryState::Adapter, QueryOutcome::Adapter(q)) => match q {
            Ok(a) => {
                &&& d1.size == d0.size
                &&& d1.blockSize == d0.blockSize
                &&& d1.logicalBlockSize == d0.logicalBlockSize
                &&& d1.partitionTableType == d0.partitionTableType
                &&& d1.busType matches Some(b) && b@ == spec_bus_name(a.bus_code)
                &&& d1.busVersion matches Some(v) && v@ == bus_version_of(
                    a.bus_major_version,
                    a.bus_minor_version,
                )
                &&& d1.isReadOnly == d0.isReadOnly
                &&& d1.error == d0.error
                &&& next == BatteryState::Alignment
            },
            Err(code) => battery_failed_step(
                d0,
                d1,
                next,
                "Couldn't get adapter info: Error "@,
                code,
            ),
        },
        (BatteryState::Alignment, QueryOutcome::Alignment(q)) => match q {
            Ok(a) => {
                &&& d1.size == d0.size
                &&& d1.blockSize == a.physical
                &&& d1.logicalBlockSize == a.logical
                &&& d1.partitionTableType == d0.partitionTableType
                &&& d1.busType == d0.busType
                &&& d1.busVersion == d0.busVersion
                &&& d1.isReadOnly == d0.isReadOnly
                &&& d1.error == d0.error
                &&& next == BatteryState::Writability
            },
            Err(code) => battery_failed_step(
                d0,
                d1,
                next,
                "Couldn't get device block size: Error "@,
                code,
            ),
        },
        (BatteryState::Writability, QueryOutcome::Writability(writable)) => {
            &&& d1.size == d0.size
            &&& d1.blockSize == d0.blockSize
            &&& d1.logicalBlockSize == d0.logicalBlockSize
            &&& d1.partitionTableType == d0.partitionTableType
            &&& d1.busType == d0.busType
            &&& d1.busVersion == d0.busVersion
            &&& d1.isReadOnly == !writable
            &&& d1.error == d0.error
            &&& next == BatteryState::Done
        },
        _ => false,
    }
}

/// Applies the outcome of the query that state `s` asked for, yielding the
/// next battery state. A successful query overwrites its fields; a failed
/// one records the cause on the descriptor and ends the battery for this
/// device without disturbing any other field. The battery never aborts the
/// enumeration: failures stay inside the descriptor.
pub fn battery_step(d: &mut DeviceDescriptor, state: BatteryState, outcome: QueryOutcome) -> (next:
    BatteryState)
    requires
        outcome_matches_state(state, outcome),
    ensures
        battery_step_rel(*old(d), *final(d), state, outcome, next),
{
    match (state, outcome) {
        (BatteryState::Geometry, QueryOutcome::Geometry(q)) => match q {
            Ok(g) => {
                d.size = g.size;
                d.blockSize = g.bytes_per_sector;
                BatteryState::Layout
            },
            Err(code) => {
                d.error = Some(message_with_code("Couldn't get disk geometry: Error ", code));
                BatteryState::Done
            },
        },
        (BatteryState::Layout, QueryOutcome::Layout(q)) => match q {
            Ok(l) => {
                match classify_partition_table(l.style, l.partition_count) {
                    Some(p) => {
                        d.partitionTableType = Some(p);
                    },
                    None => {},
                }
                BatteryState::Adapter
            },
            Err(code) => {
                d.error = Some(message_with_code("Couldn't get partition type: Error ", code));
                BatteryState::Done
            },
        },
        (BatteryState::Adapter, QueryOutcome::Adapter(q)) => match q {
            Ok(a) => {
                d.busType = Some(get_bus_type(a.bus_code));
                let mut v = u64_to_string(a.bus_major_version as u64);
                v.append(".");
                push_decimal(&mut v, a.bus_minor_version as u64);
                proof {
                    assert(v@ =~= bus_version_of(a.bus_major_version, a.bus_minor_version));
                }
                d.busVersion = Some(v);
                BatteryState::Alignment
            },
            Err(code) => {
                d.error = Some(message_with_code("Couldn't get adapter info: Error ", code));
                BatteryState::Done
            },
        },
        (BatteryState::Alignment, QueryOutcome::Alignment(q)) => match q {
            Ok(a) => {
                d.blockSize = a.physical;
                d.logicalBlockSize = a.logical;
                BatteryState::Writability
            },
            Err(code) => {
                d.error = Some(message_with_code("Couldn't get device block size: Error ", code));
                BatteryState::Done
            },
        },
        (BatteryState::Writability, QueryOutcome::Writability(writable)) => {
            d.isReadOnly = !writable;
            BatteryState::Done
        },
        _ => {
            proof {
                assert(false);
            }
            state
        },
    }
}

/// Law: the sector sizes of a descriptor are never zero through the property
/// battery, as long as the queries that override them report nonzero sizes;
/// they keep their 512-byte defaults otherwise.
pub proof fn lemma_battery_keeps_sector_sizes_nonzero(
    d0: DeviceDescriptor,
    d1: DeviceDescriptor,
    s: BatteryState,
    e: QueryOutcome,
    next: BatteryState,
)
    requires
        battery_step_rel(d0, d1, s, e, next),
        d0.blockSize != 0,
        d0.logicalBlockSize != 0,
        e matches QueryOutcome::Geometry(q) && q matches Ok(g) ==> g.bytes_per_sector != 0,
        e matches QueryOutcome::Alignment(q) && q matches Ok(a) ==> a.physical != 0 && a.logical
            != 0,
    ensures
        d1.blockSize != 0,
        d1.logicalBlockSize != 0,
{
}

/// Law: only a successful geometry or alignment query overrides the sector
/// sizes; under every other battery step a descriptor keeps them, so they
/// stay at their 512-byte defaults until such a query succeeds.
pub proof fn lemma_sector_sizes_overridden_only_by_queries(
    d0: DeviceDescriptor,
    d1: DeviceDescriptor,
    s: BatteryState,
    e: QueryOutcome,
    next: BatteryState,
)
    requires
        battery_step_rel(d0, d1, s, e, next),
        !(e matches QueryOutcome::Geometry(q) && q is Ok),
        !(e matches QueryOutcome::Alignment(q) && q is Ok),
    ensures
        d1.blockSize == d0.blockSize,
        d1.logicalBlockSize == d0.logicalBlockSize,
{
}

/// Law: a failed battery query is contained. It sets this descriptor's error
/// field and ends this device's battery; every other field of the descriptor
/// keeps its value, and no failure escapes to the caller, so the entries of
/// other devices in the result sequence are untouched.
pub proof fn lemma_battery_failure_is_contained(
    d0: DeviceDescriptor,
    d1: DeviceDescriptor,
    s: BatteryState,
    e: QueryOutcome,
    next: BatteryState,
)
    requires
        battery_step_rel(d0, d1, s, e, next),
        is_failed_outcome(e),
    ensures
        battery_untouched(d0, d1),
        battery_fields_kept(d0, d1),
        d1.error is Some,
        next == BatteryState::Done,
{
}

/// True when some expanded system path contains one of the device's mount
/// paths.
pub open spec fn any_mount_under(val: Seq<char>, mps: Seq<MountPoint>) -> bool {
    exists|j: int| 0 <= j < mps.len() && is_substring_of((#[trigger] mps[j]).path@, val)
}

/// True when the device holds a mount point that lies under one of the
/// expanded system paths: the device carries the running system.
pub open spec fn spec_is_system(vals: Seq<String>, mps: Seq<MountPoint>) -> bool {
    exists|i: int| 0 <= i < vals.len() && any_mount_under((#[trigger] vals[i])@, mps)
}

/// Classifies a device as a system device: one of the expanded system
/// directory paths contains one of its mount paths.
pub fn is_system_device(expanded: &Vec<String>, device: &DeviceDescriptor) -> (r: bool)
    ensures
        r == spec_is_system(expanded@, device.mountpoints@),
{
    let mut i: usize = 0;
    while i < expanded.len()
        invariant
            i <= expanded@.len(),
            forall|k: int| 0 <= k < i ==> !any_mount_under((#[trigger] expanded@[k])@,
                device.mountpoints@,
            ),
        decreases expanded@.len() - i,
    {
        let mut j: usize = 0;
        while j < device.mountpoints.len()
            invariant
                i < expanded@.len(),
                j <= device.mountpoints@.len(),
                forall|k: int| 0 <= k < j ==> !is_substring_of(
                    (#[trigger] device.mountpoints@[k]).path@,
                    expanded@[i as int]@,
                ),
            decreases device.mountpoints@.len() - j,
        {
            if str_contains(expanded[i].as_str(), device.mountpoints[j].path.as_str()) {
                proof {
                    assert(any_mount_under(expanded@[i as int]@, device.mountpoints@));
                    assert(spec_is_system(expanded@, device.mountpoints@));
                }
                return true;
            }
            j = j + 1;
        }
        proof {
            assert(!any_mount_under(expanded@[i as int]@, device.mountpoints@));
        }
        i = i + 1;
    }
    false
}

} // verus!
