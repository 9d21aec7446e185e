use mini_ops::metrics::{disk_usage, find_root, DiskSpace, DiskTotals};

fn disk(mount_point: &str, total_space: u64, available_space: u64) -> DiskSpace {
    DiskSpace { mount_point: mount_point.to_string(), total_space, available_space }
}

#[test]
fn root_disk_decides_where_there_is_one() {
    let disks = vec![disk("/boot", 500, 100), disk("/", 1000, 250), disk("/", 9, 9)];
    assert_eq!(find_root(&disks), Some(1));
    assert_eq!(disk_usage(&disks), DiskTotals { used: 750, total: 1000 });
}

#[test]
fn all_disks_count_without_a_root_disk() {
    let disks = vec![disk("/boot", 500, 100), disk("/data", 1000, 250)];
    assert_eq!(find_root(&disks), None);
    assert_eq!(disk_usage(&disks), DiskTotals { used: 1150, total: 1500 });
    assert_eq!(disk_usage(&Vec::new()), DiskTotals { used: 0, total: 0 });
}

#[test]
fn sums_stop_at_the_largest_number() {
    let disks = vec![disk("/a", u64::MAX, 0), disk("/b", 10, 3)];
    assert_eq!(disk_usage(&disks), DiskTotals { used: u64::MAX, total: u64::MAX });
}

#[test]
fn disk_with_more_room_free_than_it_has_uses_nothing() {
    assert_eq!(disk_usage(&vec![disk("/", 10, 20)]), DiskTotals { used: 0, total: 10 });
    assert_eq!(
        disk_usage(&vec![disk("/a", 10, 20), disk("/b", 10, 4)]),
        DiskTotals { used: 6, total: 20 }
    );
}
