use cloud_satchel::perf::{
    aggregate_network, ansi_name, counter_delta, filetime_u64, is_cpu_sensor, memory_figures,
    mhz_sum_count, process_thread_counts, CpuSampler, CpuTimes, NetRow, PerfControl,
};

fn row(operational: bool, loopback: bool, in_octets: u32, out_octets: u32, speed: u32, name: &str) -> NetRow {
    let mut descr = name.as_bytes().to_vec();
    descr.push(0);
    descr.extend_from_slice(b"junk");
    NetRow { operational, loopback, in_octets, out_octets, speed, descr }
}

#[test]
fn filetime_halves_join() {
    assert_eq!(filetime_u64(0, 5), 5);
    assert_eq!(filetime_u64(1, 0), 1 << 32);
    assert_eq!(filetime_u64(u32::MAX, u32::MAX), u64::MAX);
}

#[test]
fn cpu_busy_time_between_samples() {
    let mut s = CpuSampler::new();
    assert_eq!(s.sample(CpuTimes { idle: 50, kernel: 80, user: 20 }), Some((50, 100)));
    assert_eq!(s.sample(CpuTimes { idle: 50, kernel: 80, user: 20 }), None);
    assert_eq!(s.sample(CpuTimes { idle: 150, kernel: 180, user: 20 }), Some((0, 100)));
    // a counter that went backwards counts as no time
    assert_eq!(s.sample(CpuTimes { idle: 100, kernel: 170, user: 40 }), Some((20, 20)));
}

#[test]
fn network_counters_wrap_once() {
    assert_eq!(counter_delta(1500, 1000), 500);
    assert_eq!(counter_delta(100, 0xffff_ff00), 356);
}

#[test]
fn network_totals_and_busiest_adapter() {
    let rows = vec![
        row(true, false, 100, 50, 100_000_000, "Ethernet"),
        row(false, false, 999_999, 0, 1_000_000_000, "Down"),
        row(true, true, 5000, 5000, 0, "Loopback"),
        row(true, false, 300, 10, 0, "Wi-Fi"),
        row(true, false, 200, 110, 500_000, "Slow"),
    ];
    let t = aggregate_network(&rows);
    assert_eq!(t.total_in, 600);
    assert_eq!(t.total_out, 170);
    assert_eq!(t.busiest, Some(3));
    // the busiest adapter reports no speed: the earlier one's stays
    assert_eq!(t.link_speed_mbps, Some(100));
    assert_eq!(ansi_name(&rows[3].descr), "Wi-Fi");
    assert_eq!(ansi_name(b"NoNul"), "NoNul");
    let idle = aggregate_network(&[row(true, false, 0, 0, 10, "x")]);
    assert_eq!(idle.busiest, None);
    let slow = aggregate_network(&[row(true, false, 1, 0, 500_000, "x")]);
    assert_eq!(slow.link_speed_mbps, Some(1));
}

#[test]
fn frequencies_counts_and_memory() {
    assert_eq!(mhz_sum_count(&[3000, 0, 3200]), (6200, 2));
    assert_eq!(mhz_sum_count(&[]), (0, 0));
    assert_eq!(process_thread_counts(&[3, 4, 5]), (3, 12));
    let m = memory_figures(16, 4, 20, 25);
    assert_eq!(m.used_bytes, 12);
    assert_eq!(m.pagefile_used_bytes, 0);
    assert_eq!(m.total_bytes, 16);
}

#[test]
fn cpu_sensor_labels() {
    assert!(is_cpu_sensor("CPU Package"));
    assert!(is_cpu_sensor("k10temp Tctl"));
    assert!(is_cpu_sensor("Core 0"));
    assert!(!is_cpu_sensor("nvme Composite"));
    assert!(!is_cpu_sensor(""));
}

#[test]
fn sampler_control() {
    let mut c = PerfControl::new();
    assert!(c.start());
    assert!(!c.start());
    c.stop();
    assert!(!c.enabled && c.thread_started);
}
