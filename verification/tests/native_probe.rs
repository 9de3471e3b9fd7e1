use drivelist::DeviceDescriptor;
use drivelist::windows::AdapterInfo;
use drivelist::windows::BatteryState;
use drivelist::windows::BusType;
use drivelist::windows::ClusterInfo;
use drivelist::windows::DiskGeometry;
use drivelist::windows::PartitionLayout;
use drivelist::windows::QueryOutcome;
use drivelist::windows::SectorSizes;
use drivelist::windows::battery_step;
use drivelist::windows::classify_partition_table;
use drivelist::windows::get_available_volumes;
use drivelist::windows::get_bus_type;
use drivelist::windows::is_removable_policy;
use drivelist::windows::is_system_device;
use drivelist::windows::is_usb_drive;
use drivelist::windows::mount_point_from_space;
use drivelist::windows::physical_drive_path;
use drivelist::windows::resolve_device_number;
use drivelist::windows::set_device_paths;
use drivelist::windows::volume_matches;
use drivelist::windows::volume_root_path;
use drivelist::windows::volume_type_eligible;

#[test]
fn bus_type_codes_map_to_fixed_labels() {
    assert_eq!(get_bus_type(7), "USB");
    assert_eq!(get_bus_type(11), "SATA");
    assert_eq!(get_bus_type(17), "NVME");
    assert_eq!(get_bus_type(99), "INVALID");
    assert_eq!(get_bus_type(0), "UNKNOWN");
    assert_eq!(get_bus_type(4), "1394");
    assert_eq!(get_bus_type(9), "iSCSI");
    assert_eq!(get_bus_type(15), "FILEBACKEDVIRTUAL");
    assert_eq!(get_bus_type(16), "INVALID");
    assert_eq!(get_bus_type(19), "UFS");
}

#[test]
fn bus_type_enum_round_trip() {
    assert_eq!(BusType::from_code(7), BusType::Usb);
    assert_eq!(BusType::from_code(7).name(), "USB");
    assert_eq!(BusType::from_code(20), BusType::Invalid);
}

#[test]
fn partition_classification_follows_the_count_heuristic() {
    assert_eq!(classify_partition_table(0, 4).as_deref(), Some("mbr"));
    assert_eq!(classify_partition_table(0, 8).as_deref(), Some("mbr"));
    assert_eq!(classify_partition_table(0, 12).as_deref(), Some("mbr"));
    assert_eq!(classify_partition_table(0, 5), None);
    assert_eq!(classify_partition_table(1, 0).as_deref(), Some("gpt"));
    assert_eq!(classify_partition_table(1, 5).as_deref(), Some("gpt"));
    assert_eq!(classify_partition_table(1, 128).as_deref(), Some("gpt"));
    assert_eq!(classify_partition_table(2, 4), None);
}

#[test]
fn usb_enumerator_set_is_exact_and_case_sensitive() {
    for name in [
        "USBSTOR", "UASPSTOR", "VUSBSTOR", "RTUSER", "CMIUCR", "EUCR", "ETRONSTOR", "ASUSSTPT",
    ] {
        assert!(is_usb_drive(name), "{name} should classify as USB");
    }
    assert!(!is_usb_drive("usbstor"));
    assert!(!is_usb_drive("USBSTOR "));
    assert!(!is_usb_drive("SCSI"));
    assert!(!is_usb_drive(""));
}

#[test]
fn removal_policy_codes() {
    assert!(is_removable_policy(2));
    assert!(is_removable_policy(3));
    assert!(!is_removable_policy(0));
    assert!(!is_removable_policy(1));
    assert!(!is_removable_policy(4));
}

#[test]
fn device_number_prefers_storage_query() {
    assert_eq!(resolve_device_number(Some((1, 3)), Some(5)), Some(5));
    assert_eq!(resolve_device_number(Some((1, 3)), None), Some(3));
    assert_eq!(resolve_device_number(None, Some(5)), Some(5));
    assert_eq!(resolve_device_number(None, None), None);
    assert_eq!(resolve_device_number(Some((2, 3)), Some(5)), Some(5));
}

#[test]
fn extents_answer_is_valid_only_with_exactly_one_extent() {
    assert_eq!(resolve_device_number(Some((2, 3)), None), None);
    assert_eq!(resolve_device_number(Some((4, 0)), None), None);
    assert_eq!(resolve_device_number(Some((0, 3)), None), None);
}

#[test]
fn volume_letters_from_mask() {
    assert_eq!(get_available_volumes(0), Vec::<char>::new());
    assert_eq!(get_available_volumes(0b101), vec!['A', 'C']);
    assert_eq!(get_available_volumes(1 << 25), vec!['Z']);
    assert_eq!(get_available_volumes(1 << 26), Vec::<char>::new());
    assert_eq!(get_available_volumes(u32::MAX).len(), 26);
    assert_eq!(get_available_volumes(0b110), vec!['B', 'C']);
}

#[test]
fn volume_root_paths() {
    assert_eq!(volume_root_path('A'), "A:\\");
    assert_eq!(volume_root_path('C'), "C:\\");
    assert_eq!(volume_root_path('Z'), "Z:\\");
}

#[test]
fn drive_type_eligibility() {
    assert!(volume_type_eligible(2));
    assert!(volume_type_eligible(3));
    assert!(!volume_type_eligible(0));
    assert!(!volume_type_eligible(1));
    assert!(!volume_type_eligible(4));
    assert!(!volume_type_eligible(5));
}

#[test]
fn volume_matching_requires_equal_device_numbers() {
    assert!(volume_matches(Some(3), 3));
    assert!(!volume_matches(Some(4), 3));
    assert!(!volume_matches(None, 3));
}

#[test]
fn canonical_physical_drive_paths() {
    assert_eq!(physical_drive_path(0), "\\\\.\\PhysicalDrive0");
    assert_eq!(physical_drive_path(17), "\\\\.\\PhysicalDrive17");
}

#[test]
fn set_device_paths_fills_both_paths() {
    let mut d = DeviceDescriptor::default();
    d.enumerator = String::from("SCSI");
    set_device_paths(&mut d, 2);
    assert_eq!(d.raw, "\\\\.\\PhysicalDrive2");
    assert_eq!(d.device, "\\\\.\\PhysicalDrive2");
    assert_eq!(d.enumerator, "SCSI");
    assert!(d.error.is_none());
}

#[test]
fn correlated_mount_point_reports_capacity_figures_together() {
    let space = Ok(ClusterInfo {
        sectors_per_cluster: 8,
        bytes_per_sector: 512,
        free_clusters: 100,
        total_clusters: 200,
    });
    let mp = mount_point_from_space('D', space).expect("space query succeeded");
    assert_eq!(mp.path, "D:\\");
    assert!(mp.label.is_none());
    assert_eq!(mp.totalBytes, Some(8 * 512 * 200));
    assert_eq!(mp.availableBytes, Some(8 * 512 * 100));
    assert_eq!(mp.totalBytes.is_some(), mp.availableBytes.is_some());
}

#[test]
fn failed_space_query_is_a_hard_failure() {
    let r = mount_point_from_space('D', Err(5));
    assert_eq!(r.err().as_deref(), Some("Couldn't get volume space: Error 5"));
}

#[test]
fn battery_walks_all_queries_in_order() {
    let mut d = DeviceDescriptor::default();
    let s = battery_step(
        &mut d,
        BatteryState::Geometry,
        QueryOutcome::Geometry(Ok(DiskGeometry { size: 1 << 30, bytes_per_sector: 4096 })),
    );
    assert_eq!(s, BatteryState::Layout);
    assert_eq!(d.size, 1 << 30);
    assert_eq!(d.blockSize, 4096);
    let s = battery_step(
        &mut d,
        s,
        QueryOutcome::Layout(Ok(PartitionLayout { style: 1, partition_count: 3 })),
    );
    assert_eq!(s, BatteryState::Adapter);
    assert_eq!(d.partitionTableType.as_deref(), Some("gpt"));
    let s = battery_step(
        &mut d,
        s,
        QueryOutcome::Adapter(Ok(AdapterInfo {
            bus_code: 7,
            bus_major_version: 2,
            bus_minor_version: 0,
        })),
    );
    assert_eq!(s, BatteryState::Alignment);
    assert_eq!(d.busType.as_deref(), Some("USB"));
    assert_eq!(d.busVersion.as_deref(), Some("2.0"));
    let s = battery_step(
        &mut d,
        s,
        QueryOutcome::Alignment(Ok(SectorSizes { physical: 4096, logical: 512 })),
    );
    assert_eq!(s, BatteryState::Writability);
    assert_eq!(d.blockSize, 4096);
    assert_eq!(d.logicalBlockSize, 512);
    let s = battery_step(&mut d, s, QueryOutcome::Writability(false));
    assert_eq!(s, BatteryState::Done);
    assert!(d.isReadOnly);
    assert!(d.error.is_none());
    assert_ne!(d.blockSize, 0);
    assert_ne!(d.logicalBlockSize, 0);
}

#[test]
fn unclassified_layout_keeps_previous_classification() {
    let mut d = DeviceDescriptor::default();
    let s = battery_step(
        &mut d,
        BatteryState::Layout,
        QueryOutcome::Layout(Ok(PartitionLayout { style: 0, partition_count: 5 })),
    );
    assert_eq!(s, BatteryState::Adapter);
    assert!(d.partitionTableType.is_none());
}

#[test]
fn one_device_failure_leaves_other_devices_untouched() {
    let mut devices = vec![DeviceDescriptor::default(), DeviceDescriptor::default()];
    devices[0].description = String::from("healthy");
    devices[1].description = String::from("failing");

    let s = battery_step(
        &mut devices[0],
        BatteryState::Geometry,
        QueryOutcome::Geometry(Ok(DiskGeometry { size: 42, bytes_per_sector: 512 })),
    );
    assert_eq!(s, BatteryState::Layout);

    let s = battery_step(
        &mut devices[1],
        BatteryState::Geometry,
        QueryOutcome::Geometry(Err(21)),
    );
    assert_eq!(s, BatteryState::Done);
    assert_eq!(
        devices[1].error.as_deref(),
        Some("Couldn't get disk geometry: Error 21")
    );
    assert_eq!(devices[1].size, 0);
    assert_eq!(devices[1].blockSize, 512);

    assert_eq!(devices.len(), 2);
    assert_eq!(devices[0].description, "healthy");
    assert_eq!(devices[0].size, 42);
    assert!(devices[0].error.is_none());
}

#[test]
fn each_failed_battery_query_records_its_cause() {
    let mut d = DeviceDescriptor::default();
    battery_step(&mut d, BatteryState::Layout, QueryOutcome::Layout(Err(1)));
    assert_eq!(d.error.as_deref(), Some("Couldn't get partition type: Error 1"));

    let mut d = DeviceDescriptor::default();
    battery_step(&mut d, BatteryState::Adapter, QueryOutcome::Adapter(Err(2)));
    assert_eq!(d.error.as_deref(), Some("Couldn't get adapter info: Error 2"));

    let mut d = DeviceDescriptor::default();
    battery_step(&mut d, BatteryState::Alignment, QueryOutcome::Alignment(Err(3)));
    assert_eq!(d.error.as_deref(), Some("Couldn't get device block size: Error 3"));
    assert_eq!(d.blockSize, 512);
    assert_eq!(d.logicalBlockSize, 512);
}

#[test]
fn writable_probe_success_means_not_read_only() {
    let mut d = DeviceDescriptor::default();
    let s = battery_step(&mut d, BatteryState::Writability, QueryOutcome::Writability(true));
    assert_eq!(s, BatteryState::Done);
    assert!(!d.isReadOnly);
}

#[test]
fn system_device_detection_by_mount_path() {
    let mut d = DeviceDescriptor::default();
    d.mountpoints.push(drivelist::MountPoint::new(String::from("C:\\")));
    let expanded = vec![String::from("C:\\Windows"), String::from("C:\\Program Files")];
    assert!(is_system_device(&expanded, &d));

    let mut other = DeviceDescriptor::default();
    other.mountpoints.push(drivelist::MountPoint::new(String::from("D:\\")));
    assert!(!is_system_device(&expanded, &other));

    let no_mounts = DeviceDescriptor::default();
    assert!(!is_system_device(&expanded, &no_mounts));
    assert!(!is_system_device(&Vec::new(), &d));
}
