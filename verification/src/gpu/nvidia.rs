//! The NVIDIA back end, through NVML.

use nvml_wrapper::enum_wrappers::device::TemperatureSensor;
use nvml_wrapper::{Device, Nvml};
use vstd::prelude::*;

use super::{
    LoadReading, TemperatureReading, load_reading_value, load_value, temperature_reading_value,
    temperature_value,
};

verus! {

#[verifier::external_type_specification]
#[verifier::external_body]
pub struct ExNvml(Nvml);

#[verifier::external_type_specification]
#[verifier::external_body]
pub struct ExDevice<'nvml>(Device<'nvml>);

/// `Nvml::init`: loads and initialises the NVML library. Whether it
/// succeeds depends on the machine, so nothing is claimed of the outcome;
/// the error is dropped.
#[verifier::external_body]
fn nvml_init() -> Option<Nvml> {
    Nvml::init().ok()
}

/// `Nvml::device_by_index`: the handle of the GPU at `index`, if the driver
/// knows one. Nothing is claimed of the outcome; the error is dropped.
#[verifier::external_body]
fn device_by_index(nvml: &Nvml, index: u32) -> Option<Device<'_>> {
    nvml.device_by_index(index).ok()
}

/// `Device::utilization_rates`, of which the GPU field is handed out as a
/// load reading: the current GPU load as the driver reports it. Nothing is
/// claimed of it.
#[verifier::external_body]
fn gpu_utilization(device: &Device<'_>) -> Option<LoadReading> {
    match device.utilization_rates() {
        Ok(u) => Some(LoadReading(u.gpu)),
        Err(_) => None,
    }
}

/// `Device::temperature` of the GPU sensor, handed out as a temperature
/// reading in degrees Celsius as the driver reports it. Nothing is claimed
/// of it.
#[verifier::external_body]
fn gpu_temperature(device: &Device<'_>) -> Option<TemperatureReading> {
    match device.temperature(TemperatureSensor::Gpu) {
        Ok(t) => Some(TemperatureReading(t)),
        Err(_) => None,
    }
}

/// `Device::memory_info`, of which the used and total fields are handed
/// out, in bytes as the driver reports them. Nothing is claimed of them.
#[verifier::external_body]
fn memory_used_and_total(device: &Device<'_>) -> Option<(u64, u64)> {
    device.memory_info().ok().map(|m| (m.used, m.total))
}

/// Bytes in a mebibyte.
pub const BYTES_PER_MIB: u64 = 1_048_576;

/// The readings of an NVIDIA GPU as the monitor reports them: the load, the
/// temperature, and used and total memory in whole mebibytes (narrowed to
/// `u32` by truncation), each 0 where the reading failed.
pub open spec fn nvidia_metrics_of(util: Option<u32>, temp: Option<u32>, mem: Option<(u64, u64)>) -> (
    u32,
    u32,
    u32,
    u32,
) {
    let u = match util {
        Some(v) => v,
        None => 0,
    };
    let t = match temp {
        Some(v) => v,
        None => 0,
    };
    match mem {
        Some(m) => (u, t, (m.0 / BYTES_PER_MIB) as u32, (m.1 / BYTES_PER_MIB) as u32),
        None => (u, t, 0, 0),
    }
}

/// Turns the raw NVIDIA readings into the monitor's figures.
pub fn nvidia_metrics(util: Option<u32>, temp: Option<u32>, mem: Option<(u64, u64)>) -> (r: (
    u32,
    u32,
    u32,
    u32,
))
    ensures
        r == nvidia_metrics_of(util, temp, mem),
{
    let u = match util {
        Some(v) => v,
        None => 0,
    };
    let t = match temp {
        Some(v) => v,
        None => 0,
    };
    match mem {
        Some(m) => (u, t, (m.0 / BYTES_PER_MIB) as u32, (m.1 / BYTES_PER_MIB) as u32),
        None => (u, t, 0, 0),
    }
}

/// The NVIDIA figures for the outcome of each step of a reading: all zero
/// when the first device cannot be reached; otherwise the figures of the
/// three readings.
pub open spec fn nvidia_reading_of(
    device_ok: bool,
    util: Option<u32>,
    temp: Option<u32>,
    mem: Option<(u64, u64)>,
) -> (u32, u32, u32, u32) {
    if device_ok {
        nvidia_metrics_of(util, temp, mem)
    } else {
        (0, 0, 0, 0)
    }
}

/// Turns the outcomes of the steps of an NVIDIA reading into the figures.
pub fn nvidia_reading(device_ok: bool, util: Option<u32>, temp: Option<u32>, mem: Option<(u64, u64)>) -> (r: (
    u32,
    u32,
    u32,
    u32,
))
    ensures
        r == nvidia_reading_of(device_ok, util, temp, mem),
{
    if device_ok {
        nvidia_metrics(util, temp, mem)
    } else {
        (0, 0, 0, 0)
    }
}

/// The NVIDIA figures for the outcome of each step of a reading, the load
/// and the temperature each taken from a reading of its own kind: the load
/// goes first and the temperature second.
pub fn nvidia_reading_from(
    device_ok: bool,
    load: Option<LoadReading>,
    temp: Option<TemperatureReading>,
    mem: Option<(u64, u64)>,
) -> (r: (u32, u32, u32, u32))
    ensures
        r == nvidia_reading_of(device_ok, load_value(load), temperature_value(temp), mem),
{
    nvidia_reading(device_ok, load_reading_value(load), temperature_reading_value(temp), mem)
}

/// Law: from a reached device, the first figure is the load reading and
/// the second the temperature reading (0 where a reading failed), and the
/// memory figures depend on the memory reading alone.
pub proof fn lemma_nvidia_figures_in_order(
    load: Option<LoadReading>,
    temp: Option<TemperatureReading>,
    mem: Option<(u64, u64)>,
    other_load: Option<LoadReading>,
    other_temp: Option<TemperatureReading>,
)
    ensures
        ({
            let r = nvidia_reading_of(true, load_value(load), temperature_value(temp), mem);
            let o = nvidia_reading_of(true, load_value(other_load), temperature_value(other_temp), mem);
            &&& r.0 == (match load {
                Some(l) => l.0,
                None => 0,
            })
            &&& r.1 == (match temp {
                Some(t) => t.0,
                None => 0,
            })
            &&& r.2 == o.2
            &&& r.3 == o.3
        }),
{
}

/// The device that the monitor reads: the first.
pub const MONITORED_DEVICE_INDEX: u32 = 0;

/// An initialised NVML library.
pub struct NvmlContext {
    nvml: Nvml,
}

impl NvmlContext {
    /// Initialises NVML; `None` where the library or driver is missing.
    pub fn new() -> Option<Self> {
        match nvml_init() {
            Some(nvml) => Some(NvmlContext { nvml }),
            None => None,
        }
    }

    /// Load, temperature, used and total memory (MiB) of the first GPU: the
    /// figures for the outcomes of its steps, as `nvidia_reading_of` gives
    /// them; all zero when the device cannot be reached, and 0 for each
    /// reading that fails.
    pub fn get_metrics(&self) -> (r: (u32, u32, u32, u32))
        ensures
            exists|device_ok: bool, util: Option<u32>, temp: Option<u32>, mem: Option<(u64, u64)>|
                r == nvidia_reading_of(device_ok, util, temp, mem),
    {
        match device_by_index(&self.nvml, MONITORED_DEVICE_INDEX) {
            None => {
                let r = nvidia_reading(false, None, None, None);
                assert(r == nvidia_reading_of(false, None, None, None));
                r
            },
            Some(device) => {
                let load = gpu_utilization(&device);
                let temp = gpu_temperature(&device);
                let mem = memory_used_and_total(&device);
                let r = nvidia_reading_from(true, load, temp, mem);
                assert(r == nvidia_reading_of(true, load_value(load), temperature_value(temp), mem));
                r
            },
        }
    }
}

} // verus!
