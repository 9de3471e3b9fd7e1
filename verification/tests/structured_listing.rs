use drivelist::listing::DiskRecord;
use drivelist::listing::ListingOutcome;
use drivelist::listing::PartitionRecord;
use drivelist::listing::descriptor_from_disk;
use drivelist::listing::diskutil_outcome;
use drivelist::listing::mount_point_from_partition;

fn sample_disk(os_internal: bool) -> DiskRecord {
    DiskRecord {
        device_identifier: String::from("disk0"),
        os_internal,
        size: 500_000_000_000,
        content: String::from("GUID_partition_scheme"),
        partitions: vec![
            PartitionRecord {
                mount_point: Some(String::from("/")),
                content: String::from("Apple_APFS"),
                size: 499_000_000_000,
            },
            PartitionRecord {
                mount_point: None,
                content: String::from("EFI"),
                size: 314_572_800,
            },
        ],
    }
}

#[test]
fn internal_disk_is_system_and_not_removable() {
    let d = descriptor_from_disk(sample_disk(true));
    assert!(d.isSystem);
    assert!(!d.isRemovable);
}

#[test]
fn external_disk_is_removable_and_not_system() {
    let d = descriptor_from_disk(sample_disk(false));
    assert!(!d.isSystem);
    assert!(d.isRemovable);
}

#[test]
fn disk_record_maps_to_descriptor_fields() {
    let d = descriptor_from_disk(sample_disk(true));
    assert_eq!(d.enumerator, "diskutil");
    assert_eq!(d.description, "GUID_partition_scheme");
    assert_eq!(d.size, 500_000_000_000);
    assert_eq!(d.device, "/dev/disk0");
    assert_eq!(d.raw, "/dev/rdisk0");
    assert_eq!(d.blockSize, 512);
    assert_eq!(d.logicalBlockSize, 512);
    assert!(d.error.is_none());
    assert!(d.busType.is_none());
    assert!(d.partitionTableType.is_none());
    assert_eq!(d.mountpoints.len(), 2);
    assert_eq!(d.mountpoints[0].path, "/");
    assert_eq!(d.mountpoints[1].path, "");
}

#[test]
fn unmounted_partition_yields_empty_path_and_content_label() {
    let mp = mount_point_from_partition(PartitionRecord {
        mount_point: None,
        content: String::from("EFI"),
        size: 314_572_800,
    });
    assert_eq!(mp.path, "");
    assert_eq!(mp.label.as_deref(), Some("EFI"));
    assert_eq!(mp.totalBytes, Some(314_572_800));
    assert!(mp.availableBytes.is_none());
}

#[test]
fn mounted_partition_keeps_its_mount_path() {
    let mp = mount_point_from_partition(PartitionRecord {
        mount_point: Some(String::from("/Volumes/Data")),
        content: String::from("Apple_APFS"),
        size: 1024,
    });
    assert_eq!(mp.path, "/Volumes/Data");
    assert_eq!(mp.label.as_deref(), Some("Apple_APFS"));
    assert_eq!(mp.totalBytes, Some(1024));
    assert!(mp.availableBytes.is_none());
}

#[test]
fn nonzero_exit_status_is_a_hard_failure() {
    let r = diskutil_outcome(ListingOutcome::Failed);
    assert_eq!(r.err().as_deref(), Some("diskutil fail"));
}

#[test]
fn unparseable_output_is_a_hard_failure() {
    let r = diskutil_outcome(ListingOutcome::Unparseable);
    assert_eq!(r.err().as_deref(), Some("diskutil output not parseable"));
}

#[test]
fn parsed_listing_maps_record_for_record() {
    let r = diskutil_outcome(ListingOutcome::Parsed(vec![
        sample_disk(true),
        sample_disk(false),
    ]));
    let ds = r.expect("parsed listing maps to a device list");
    assert_eq!(ds.len(), 2);
    assert!(ds[0].isSystem);
    assert!(!ds[1].isSystem);
    assert_eq!(ds[1].device, "/dev/disk0");
}

#[test]
fn empty_listing_maps_to_an_empty_device_list() {
    let r = diskutil_outcome(ListingOutcome::Parsed(Vec::new()));
    assert_eq!(r.expect("empty listing is fine").len(), 0);
}
