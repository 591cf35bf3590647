use cosmic_connect_plugins::procfs::{
    cpu_core_times, cpu_line_fits_check, cpu_stat_fits, disk_usage, memory_info, meminfo_fits, network_totals,
    network_totals_fit, parse_cpu_line, physical_mount_entries, process_stat, process_times_fit_check, split_lines,
    split_whitespace, statm_rss_bytes, statm_rss_fits, trim_str,
};

#[test]
fn whitespace_words_and_lines() {
    assert_eq!(split_whitespace("  cpu0  10\t20 \n"), vec!["cpu0", "10", "20"]);
    assert!(split_whitespace(" \t ").is_empty());
    assert_eq!(split_lines("a\r\nb\n\nc\r"), vec!["a", "b", "", "c\r"]);
    assert_eq!(split_lines("x\n"), vec!["x"]);
    assert!(split_lines("").is_empty());
    assert_eq!(trim_str("  eth0 "), "eth0");
}

#[test]
fn cpu_lines_give_active_and_total_time() {
    assert_eq!(parse_cpu_line("cpu0 100 5 50 845 3 0 0"), Some((155, 1000)));
    assert_eq!(parse_cpu_line("cpu0 1 2 3"), None);
    assert_eq!(parse_cpu_line("cpu0 1 x 3 4"), None);
    let stat = "cpu  300 10 100 1590\ncpu0 100 5 50 845\ncpu1 200 5 50 745\nintr 12345\n";
    assert_eq!(cpu_core_times(stat), vec![(155, 1000), (255, 1000)]);
}

#[test]
fn meminfo_counts_bytes() {
    let meminfo = "MemTotal:       16000 kB\nMemFree:         1000 kB\nMemAvailable:    4000 kB\n";
    let info = memory_info(meminfo);
    assert_eq!(info.total, 16000 * 1024);
    assert_eq!(info.available, 4000 * 1024);
    assert_eq!(info.used, 12000 * 1024);
    let odd = memory_info("MemAvailable: 10 kB\nMemTotal: 2 kB\n");
    assert_eq!((odd.total, odd.used, odd.available), (2048, 0, 10240));
}

#[test]
fn net_dev_sums_all_but_loopback() {
    let netdev = "Inter-|   Receive                                                |  Transmit\n \
face |bytes    packets errs drop fifo frame compressed multicast|bytes    packets errs drop fifo colls carrier compressed\n    \
lo: 5000 50 0 0 0 0 0 0 5000 50 0 0 0 0 0 0\n  \
eth0: 1000 10 0 0 0 0 0 0 2000 20 0 0 0 0 0 0\n \
wlan0: 300 3 0 0 0 0 0 0 400 4 0 0 0 0 0 0\n";
    assert_eq!(network_totals(netdev), (1300, 2400));
    assert_eq!(network_totals("only one line"), (0, 0));
}

#[test]
fn mounts_keep_physical_devices_once() {
    let mounts = "/dev/sda1 / ext4 rw 0 0\nproc /proc proc rw 0 0\n/dev/sda1 /mnt ext4 rw 0 0\n\
/dev/loop0 /snap squashfs ro 0 0\ntmpfs /tmp tmpfs rw 0 0\n/dev/sdb1 /data xfs rw 0 0\n";
    let entries = physical_mount_entries(mounts);
    let got: Vec<(&str, &str)> = entries.iter().map(|e| (e.device.as_str(), e.mount_point.as_str())).collect();
    assert_eq!(got, vec![("/dev/sda1", "/"), ("/dev/sdb1", "/data")]);
    assert_eq!(disk_usage(1000, 250, 4096), (4_096_000, 3_072_000, 1_024_000));
}

#[test]
fn process_stat_and_statm() {
    let stat = "1234 (my (odd) proc) S 1 1234 1234 0 -1 4194560 500 0 0 0 70 30 0 0 20 0 1 0 100 0 0";
    assert_eq!(process_stat(stat), Some(("my (odd) proc".to_string(), 100)));
    assert_eq!(process_stat("1 (short) S 1 2"), None);
    assert_eq!(process_stat("no brackets"), None);
    assert_eq!(statm_rss_bytes("1000 250 100 10 0 200 0"), 250 * 4096);
    assert_eq!(statm_rss_bytes("1000"), 0);
}

#[test]
fn overflow_checks() {
    assert!(cpu_line_fits_check("cpu0 1 2 3 4"));
    assert!(!cpu_line_fits_check("cpu0 18446744073709551615 1 0 0"));
    assert!(cpu_line_fits_check("cpu0 x 1 0 0"));
    assert!(cpu_stat_fits("cpu  18446744073709551615 1 0 0\ncpu0 1 2 3 4\n"));
    assert!(!cpu_stat_fits("cpu  1 1 0 0\ncpu0 18446744073709551615 1 0 0\n"));
    assert!(meminfo_fits("MemTotal: 16 kB\nMemAvailable: 8 kB\n"));
    assert!(!meminfo_fits("MemTotal: 18446744073709551615 kB\n"));
    let header = "Inter-|   Receive\n face |bytes\n";
    assert!(network_totals_fit(&format!("{}eth0: 10 0 0 0 0 0 0 0 20 0\n", header)));
    assert!(!network_totals_fit(&format!(
        "{}eth0: 18446744073709551615 0 0 0 0 0 0 0 1 0\nwlan0: 1 0 0 0 0 0 0 0 1 0\n",
        header
    )));
    assert!(statm_rss_fits("100 25 0 0 0 0 0"));
    assert!(!statm_rss_fits("100 18446744073709551615 0"));
    assert!(process_times_fit_check("1 (a) S 0 0 0 0 0 0 0 0 0 0 5 7 0"));
    assert!(!process_times_fit_check("1 (a) S 0 0 0 0 0 0 0 0 0 0 18446744073709551615 7 0"));
}

#[test]
fn numbers_parse_as_std_does() {
    assert_eq!(parse_cpu_line("cpu0 +100 5 50 845"), Some((155, 1000)));
    assert_eq!(parse_cpu_line("cpu0 18446744073709551616 0 0 0"), None);
    assert_eq!(parse_cpu_line("cpu0 18446744073709551615 0 0 0"), Some((18446744073709551615, 18446744073709551615)));
    assert_eq!(parse_cpu_line("cpu0 -1 0 0 0"), None);
    assert_eq!(parse_cpu_line("cpu0 + 0 0 0"), None);
    assert_eq!(parse_cpu_line("cpu0 1a 0 0 0"), None);
}
