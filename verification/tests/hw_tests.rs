use cloud_satchel::hw::{has_gpu, no_gpu, sample_gpu};

#[test]
fn gpu_is_read_only_when_present() {
    assert!(!has_gpu(None));
    assert!(!has_gpu(Some(0)));
    assert!(has_gpu(Some(1)));
    let r = sample_gpu(None);
    assert!(r.name.is_none() && r.utilization.is_none() && r.temperature.is_none());
    assert!(r.memory_used_bytes.is_none() && r.memory_total_bytes.is_none() && r.driver_version.is_none());
    assert!(no_gpu().name.is_none());
}
