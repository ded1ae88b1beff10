use komodo_logic::stats::disk_included;

fn mounts(v: &[&str]) -> Vec<String> {
    v.iter().map(|s| s.to_string()).collect()
}

#[test]
fn overlay_and_excluded_disks_are_not_reported() {
    assert!(!disk_included("overlay", "/", &mounts(&[]), &mounts(&[])));
    assert!(disk_included("ext4", "/", &mounts(&[]), &mounts(&[])));
    assert!(!disk_included("ext4", "/boot", &mounts(&[]), &mounts(&["/boot"])));
    assert!(!disk_included("ext4", "/boot/", &mounts(&[]), &mounts(&["/boot"])));
}

#[test]
fn included_mounts_limit_the_report() {
    assert!(disk_included("ext4", "/data", &mounts(&["/data"]), &mounts(&[])));
    assert!(!disk_included("ext4", "/other", &mounts(&["/data"]), &mounts(&[])));
    assert!(!disk_included("ext4", "/data", &mounts(&["/data"]), &mounts(&["/data"])));
}
