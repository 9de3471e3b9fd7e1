use drivelist::DeviceDescriptor;
use drivelist::MountPoint;

#[test]
fn default_descriptor_has_documented_defaults() {
    let d = DeviceDescriptor::default();
    assert_eq!(d.enumerator, "");
    assert!(d.busType.is_none());
    assert!(d.busVersion.is_none());
    assert_eq!(d.device, "");
    assert!(d.devicePath.is_none());
    assert_eq!(d.raw, "");
    assert_eq!(d.description, "");
    assert!(d.error.is_none());
    assert!(d.partitionTableType.is_none());
    assert_eq!(d.size, 0);
    assert_eq!(d.blockSize, 512);
    assert_eq!(d.logicalBlockSize, 512);
    assert!(d.mountpoints.is_empty());
    assert!(d.mountpointLabels.is_empty());
    assert!(!d.isReadOnly);
    assert!(!d.isSystem);
    assert!(!d.isCard);
    assert!(!d.isSCSI);
    assert!(!d.isUSB);
    assert!(!d.isVirtual);
    assert!(!d.isRemovable);
    assert!(d.isUAS.is_none());
}

#[test]
fn default_block_sizes_are_nonzero() {
    let d = DeviceDescriptor::default();
    assert_ne!(d.blockSize, 0);
    assert_ne!(d.logicalBlockSize, 0);
}

#[test]
fn mount_point_new_sets_only_the_path() {
    let mp = MountPoint::new(String::from("C:\\"));
    assert_eq!(mp.path, "C:\\");
    assert!(mp.label.is_none());
    assert!(mp.totalBytes.is_none());
    assert!(mp.availableBytes.is_none());
}
