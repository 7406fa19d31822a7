//! Hardware read-outs that come from outside libraries: the NVIDIA driver
//! (through NVML) for the first GPU, and the physical core count. What they
//! report depends on the machine and its driver, so the trusted items below
//! promise nothing about the values; this module decides which queries are
//! made and how their results are put together.
use vstd::prelude::*;

verus! {

#[verifier::external_type_specification]
#[verifier::external_body]
pub struct ExNvml(nvml_wrapper::Nvml);

#[verifier::external_type_specification]
#[verifier::external_body]
pub struct ExNvmlDevice<'nvml>(nvml_wrapper::Device<'nvml>);

#[verifier::external_type_specification]
#[verifier::external_body]
pub struct ExSystem(sysinfo::System);

/// `nvml_wrapper::Nvml::init()`, its error dropped. Whether NVML can be
/// loaded depends on the machine; nothing is claimed.
#[verifier::external_body]
fn nvml_init() -> (r: Option<nvml_wrapper::Nvml>) {
    nvml_wrapper::Nvml::init().ok()
}

/// `Nvml::device_count`, its error dropped; nothing is claimed of the count.
#[verifier::external_body]
fn nvml_device_count(nvml: &nvml_wrapper::Nvml) -> (r: Option<u32>) {
    nvml.device_count().ok()
}

/// `Nvml::device_by_index`, its error dropped; nothing is claimed.
#[verifier::external_body]
fn nvml_device_by_index<'a>(nvml: &'a nvml_wrapper::Nvml, index: u32) -> (r: Option<nvml_wrapper::Device<'a>>) {
    nvml.device_by_index(index).ok()
}

/// `Nvml::sys_driver_version`, its error dropped; nothing is claimed.
#[verifier::external_body]
fn nvml_driver_version(nvml: &nvml_wrapper::Nvml) -> (r: Option<String>) {
    nvml.sys_driver_version().ok()
}

/// `Device::name`, its error dropped; nothing is claimed.
#[verifier::external_body]
fn device_name(d: &nvml_wrapper::Device) -> (r: Option<String>) {
    d.name().ok()
}

/// `Device::utilization_rates`, its `gpu` field (percent busy), the error
/// dropped; nothing is claimed of the value.
#[verifier::external_body]
fn device_gpu_utilization(d: &nvml_wrapper::Device) -> (r: Option<u32>) {
    d.utilization_rates().ok().map(|u| u.gpu)
}

/// `Device::temperature(TemperatureSensor::Gpu)` in °C, the error dropped;
/// nothing is claimed of the value.
#[verifier::external_body]
fn device_gpu_temperature(d: &nvml_wrapper::Device) -> (r: Option<u32>) {
    d.temperature(nvml_wrapper::enum_wrappers::device::TemperatureSensor::Gpu).ok()
}

/// `Device::memory_info` as `(used, total)` bytes, the error dropped;
/// nothing is claimed of the values.
#[verifier::external_body]
fn device_memory_info(d: &nvml_wrapper::Device) -> (r: Option<(u64, u64)>) {
    d.memory_info().ok().map(|m| (m.used, m.total))
}

/// `sysinfo::System::new_all()`: a fully refreshed system snapshot.
#[verifier::external_body]
fn system_new_all() -> (s: sysinfo::System) {
    sysinfo::System::new_all()
}

/// `System::physical_core_count`; nothing is claimed of the count.
#[verifier::external_body]
fn system_physical_cores(s: &sysinfo::System) -> (r: Option<usize>) {
    s.physical_core_count()
}

/// The physical core count, read once when sampling starts.
pub fn physical_core_count() -> (r: Option<usize>) {
    let s = system_new_all();
    system_physical_cores(&s)
}

/// What the first GPU reports (integers as the driver gives them).
#[derive(Debug)]
pub struct GpuReading {
    pub name: Option<String>,
    /// Percent of time the GPU was busy.
    pub utilization: Option<u32>,
    /// °C.
    pub temperature: Option<u32>,
    pub memory_used_bytes: Option<u64>,
    pub memory_total_bytes: Option<u64>,
    pub driver_version: Option<String>,
}

/// Nothing known about a GPU.
pub open spec fn spec_no_gpu(r: GpuReading) -> bool {
    r.name.is_none() && r.utilization.is_none() && r.temperature.is_none()
        && r.memory_used_bytes.is_none() && r.memory_total_bytes.is_none() && r.driver_version.is_none()
}

/// A reading with nothing in it.
pub fn no_gpu() -> (r: GpuReading)
    ensures
        spec_no_gpu(r),
{
    GpuReading {
        name: None,
        utilization: None,
        temperature: None,
        memory_used_bytes: None,
        memory_total_bytes: None,
        driver_version: None,
    }
}

/// A GPU is read only when the driver reports at least one device.
pub fn has_gpu(device_count: Option<u32>) -> (b: bool)
    ensures
        b == (device_count matches Some(n) && n > 0),
{
    match device_count {
        Some(n) => n > 0,
        None => false,
    }
}

/// Reads the first GPU: without NVML, without a device count, with no
/// device, or when the first device cannot be opened, nothing is known;
/// otherwise each figure is what its query gave (absent when it failed).
pub fn sample_gpu(nvml: Option<&nvml_wrapper::Nvml>) -> (r: GpuReading)
    ensures
        nvml.is_none() ==> spec_no_gpu(r),
{
    let n = match nvml {
        Some(n) => n,
        None => return no_gpu(),
    };
    if !has_gpu(nvml_device_count(n)) {
        return no_gpu();
    }
    let device = match nvml_device_by_index(n, 0) {
        Some(d) => d,
        None => return no_gpu(),
    };
    let name = device_name(&device);
    let utilization = device_gpu_utilization(&device);
    let temperature = device_gpu_temperature(&device);
    let memory_used_bytes = match device_memory_info(&device) {
        Some(m) => Some(m.0),
        None => None,
    };
    let memory_total_bytes = match device_memory_info(&device) {
        Some(m) => Some(m.1),
        None => None,
    };
    let driver_version = nvml_driver_version(n);
    GpuReading { name, utilization, temperature, memory_used_bytes, memory_total_bytes, driver_version }
}

/// The sampler's hardware handles, opened once: NVML (when the driver can be
/// loaded) and the physical core count.
pub struct HwSampler {
    pub nvml: Option<nvml_wrapper::Nvml>,
    pub physical_cores: Option<usize>,
}

impl HwSampler {
    /// Loads NVML and counts the physical cores.
    pub fn new() -> (s: Self) {
        let physical_cores = physical_core_count();
        let nvml = nvml_init();
        HwSampler { nvml, physical_cores }
    }

    /// Reads the first GPU (see `sample_gpu`).
    pub fn sample_gpu(&self) -> (r: GpuReading)
        ensures
            self.nvml.is_none() ==> spec_no_gpu(r),
    {
        match &self.nvml {
            Some(n) => sample_gpu(Some(n)),
            None => sample_gpu(None),
        }
    }
}

} // verus!
