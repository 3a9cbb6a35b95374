use yourcloud_client::disk::{DiskSpaceError, MountedDisk};
use yourcloud_client::storage::get_disk_available_space;

fn disk(mount_point: &str, available_space: u64) -> MountedDisk {
    MountedDisk { mount_point: mount_point.as_bytes().to_vec(), available_space }
}

#[test]
fn closest_disk_holds_the_path() {
    let disks = vec![disk("/", 1), disk("/home", 2), disk("/home/user/data", 3), disk("/home/us", 4)];
    let space = |p: &str| get_disk_available_space(p, Some(p.as_bytes().to_vec()), &disks).unwrap();
    assert_eq!(space("/srv"), 1);
    assert_eq!(space("/home"), 2);
    assert_eq!(space("/home/user"), 2);
    assert_eq!(space("/home/user/data/chunks"), 3);
    assert_eq!(space("/home/user/data2"), 2);
}

#[test]
fn first_of_equally_close_disks_counts() {
    let disks = vec![disk("/data", 7), disk("/data", 8)];
    assert_eq!(get_disk_available_space("/data/x", Some(b"/data/x".to_vec()), &disks).unwrap(), 7);
}

#[test]
fn nameless_mount_points_hold_nothing() {
    let disks = vec![disk("", 7)];
    let r = get_disk_available_space("/data", Some(b"/data".to_vec()), &disks);
    assert!(matches!(r, Err(DiskSpaceError::NoDisk { .. })));
}

#[test]
fn missing_disk_is_reported() {
    let disks = vec![disk("/mnt", 5)];
    let e = get_disk_available_space("/data", Some(b"/data".to_vec()), &disks).unwrap_err();
    assert!(matches!(e, DiskSpaceError::NoDisk { .. }));
    assert_eq!(
        e.message(),
        "Could not find a disk corresponding to the storage path: \"/data\". Please check path and mounts."
    );
}

#[test]
fn unresolved_path_is_reported() {
    let e = get_disk_available_space("/da\"ta", None, &Vec::new()).unwrap_err();
    assert!(matches!(e, DiskSpaceError::NotResolved { .. }));
    assert_eq!(
        e.message(),
        "Failed to canonicalize storage path for disk space check: \"/da\\\"ta\". Ensure it exists."
    );
}
