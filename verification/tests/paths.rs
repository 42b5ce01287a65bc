use procmand::process::paths::{proc_path, push_decimal, push_int};

#[test]
fn decimal_of_small_and_large_numbers() {
    for (n, text) in [(0u64, "0"), (7, "7"), (10, "10"), (1000, "1000"), (u64::MAX, "18446744073709551615")] {
        let mut s = String::new();
        push_decimal(&mut s, n);
        assert_eq!(s, text);
    }
}

#[test]
fn push_decimal_appends() {
    let mut s = "n=".to_string();
    push_decimal(&mut s, 4096);
    assert_eq!(s, "n=4096");
}

#[test]
fn push_int_signs() {
    let mut s = String::new();
    push_int(&mut s, -42);
    assert_eq!(s, "-42");
    let mut s = String::new();
    push_int(&mut s, i64::MIN);
    assert_eq!(s, i64::MIN.to_string());
    let mut s = String::new();
    push_int(&mut s, 0);
    assert_eq!(s, "0");
}

#[test]
fn proc_path_matches_format() {
    assert_eq!(proc_path(1234, "uid_map"), "/proc/1234/uid_map");
    assert_eq!(proc_path(1, "ns/net"), "/proc/1/ns/net");
    assert_eq!(proc_path(-5, "setgroups"), "/proc/-5/setgroups");
    assert_eq!(proc_path(i32::MAX, "gid_map"), format!("/proc/{}/gid_map", i32::MAX));
    assert_eq!(proc_path(i32::MIN, "gid_map"), format!("/proc/{}/gid_map", i32::MIN));
}

#[test]
fn distinct_pids_give_distinct_paths() {
    let pids = [12, 121, 1, -12, 0, -1];
    for a in pids {
        for b in pids {
            assert_eq!(proc_path(a, "uid_map") == proc_path(b, "uid_map"), a == b);
        }
    }
}
