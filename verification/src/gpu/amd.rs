//! The AMD back end, through ADLX.

use adlx::{AdlxHelper, Gpu, Gpu1, GpuList, GpuMetrics, Interface, PerformanceMonitoringServices, System};
use vstd::prelude::*;

use super::{
    LoadReading, TemperatureReading, load_reading_value, load_value, temperature_reading_value,
    temperature_value,
};

verus! {

#[verifier::external_type_specification]
#[verifier::external_body]
pub struct ExAdlxHelper(AdlxHelper);

#[verifier::external_type_specification]
#[verifier::external_body]
pub struct ExSystem(System);

#[verifier::external_type_specification]
#[verifier::external_body]
pub struct ExGpuList(GpuList);

#[verifier::external_type_specification]
#[verifier::external_body]
pub struct ExGpu(Gpu);

#[verifier::external_type_specification]
#[verifier::external_body]
pub struct ExGpu1(Gpu1);

#[verifier::external_type_specification]
#[verifier::external_body]
pub struct ExPerformanceMonitoringServices(PerformanceMonitoringServices);

#[verifier::external_type_specification]
#[verifier::external_body]
pub struct ExGpuMetrics(GpuMetrics);

/// `AdlxHelper::new`: loads and initialises the ADLX library. Whether it
/// succeeds depends on the machine; nothing is claimed; the error is dropped.
#[verifier::external_body]
fn adlx_helper_new() -> Option<AdlxHelper> {
    AdlxHelper::new().ok()
}

/// `AdlxHelper::system`: the ADLX system interface of the helper.
#[verifier::external_body]
fn helper_system(helper: &AdlxHelper) -> &System {
    helper.system()
}

/// `System::gpus`: the list of GPUs the driver reports. Nothing is claimed.
#[verifier::external_body]
fn system_gpus(system: &System) -> Option<GpuList> {
    system.gpus().ok()
}

/// `List::size` of a GPU list: how many GPUs it holds.
#[verifier::external_body]
fn gpu_list_size(list: &GpuList) -> u32 {
    list.size()
}

/// `GpuList::at`: the GPU at `location`. Nothing is claimed of the outcome.
#[verifier::external_body]
fn gpu_list_at(list: &GpuList, location: u32) -> Option<Gpu> {
    list.at(location).ok()
}

/// `Interface::cast` to `Gpu1`: the GPU's extended interface, where the
/// driver offers it. Nothing is claimed of the outcome.
#[verifier::external_body]
fn gpu_as_gpu1(gpu: &Gpu) -> Option<Gpu1> {
    gpu.cast::<Gpu1>().ok()
}

/// `System::performance_monitoring_services`. Nothing is claimed.
#[verifier::external_body]
fn performance_services(system: &System) -> Option<PerformanceMonitoringServices> {
    system.performance_monitoring_services().ok()
}

/// `PerformanceMonitoringServices::current_gpu_metrics` of the GPU.
/// Nothing is claimed of the outcome.
#[verifier::external_body]
fn current_gpu_metrics(services: &PerformanceMonitoringServices, gpu: &Gpu1) -> Option<GpuMetrics> {
    services.current_gpu_metrics(gpu).ok()
}

/// `GpuMetrics::usage`: the GPU load that ADLX reports as a float, handed
/// out as a load reading narrowed to whole percent by Rust's saturating float-to-integer cast. Nothing is
/// claimed of the reading.
#[verifier::external_body]
fn gpu_usage(metrics: &GpuMetrics) -> Option<LoadReading> {
    match metrics.usage() {
        Ok(usage) => Some(LoadReading(usage as u32)),
        Err(_) => None,
    }
}

/// `GpuMetrics::temperature`: the GPU temperature that ADLX reports as a
/// float, handed out as a temperature reading narrowed to whole degrees by Rust's saturating float-to-integer
/// cast. Nothing is claimed of the reading.
#[verifier::external_body]
fn gpu_temperature(metrics: &GpuMetrics) -> Option<TemperatureReading> {
    match metrics.temperature() {
        Ok(temp) => Some(TemperatureReading(temp as u32)),
        Err(_) => None,
    }
}

/// `GpuMetrics::vram`: the video memory in use, in MB, as ADLX reports it.
/// Nothing is claimed of the reading.
#[verifier::external_body]
fn gpu_vram(metrics: &GpuMetrics) -> Option<i32> {
    metrics.vram().ok()
}

/// The readings of an AMD GPU as the monitor reports them: load,
/// temperature, and the memory in use twice, since no separate total is
/// available; each 0 where the reading failed, the memory narrowed to `u32`
/// as a cast does.
pub open spec fn amd_metrics_of(usage: Option<u32>, temp: Option<u32>, vram: Option<i32>) -> (
    u32,
    u32,
    u32,
    u32,
) {
    let u = match usage {
        Some(v) => v,
        None => 0,
    };
    let t = match temp {
        Some(v) => v,
        None => 0,
    };
    let m = match vram {
        Some(v) => v as u32,
        None => 0,
    };
    (u, t, m, m)
}

/// Turns the raw AMD readings into the monitor's figures.
pub fn amd_metrics(usage: Option<u32>, temp: Option<u32>, vram: Option<i32>) -> (r: (
    u32,
    u32,
    u32,
    u32,
))
    ensures
        r == amd_metrics_of(usage, temp, vram),
{
    let u = match usage {
        Some(v) => v,
        None => 0,
    };
    let t = match temp {
        Some(v) => v,
        None => 0,
    };
    let m = match vram {
        Some(v) => v as u32,
        None => 0,
    };
    (u, t, m, m)
}

/// The AMD figures for the outcome of each step of a reading: all zero
/// without a GPU, when the monitoring services cannot be had, or when the
/// GPU's current metrics cannot be read; otherwise the figures of the three
/// readings.
pub open spec fn amd_reading_of(
    has_gpu: bool,
    services_ok: bool,
    metrics_ok: bool,
    usage: Option<u32>,
    temp: Option<u32>,
    vram: Option<i32>,
) -> (u32, u32, u32, u32) {
    if has_gpu && services_ok && metrics_ok {
        amd_metrics_of(usage, temp, vram)
    } else {
        (0, 0, 0, 0)
    }
}

/// Turns the outcomes of the steps of an AMD reading into the figures.
pub fn amd_reading(
    has_gpu: bool,
    services_ok: bool,
    metrics_ok: bool,
    usage: Option<u32>,
    temp: Option<u32>,
    vram: Option<i32>,
) -> (r: (u32, u32, u32, u32))
    ensures
        r == amd_reading_of(has_gpu, services_ok, metrics_ok, usage, temp, vram),
{
    if has_gpu && services_ok && metrics_ok {
        amd_metrics(usage, temp, vram)
    } else {
        (0, 0, 0, 0)
    }
}

/// The AMD figures for the outcome of each step of a reading, the load and
/// the temperature each taken from a reading of its own kind: the load goes
/// first and the temperature second.
pub fn amd_reading_from(
    has_gpu: bool,
    services_ok: bool,
    metrics_ok: bool,
    load: Option<LoadReading>,
    temp: Option<TemperatureReading>,
    vram: Option<i32>,
) -> (r: (u32, u32, u32, u32))
    ensures
        r == amd_reading_of(has_gpu, services_ok, metrics_ok, load_value(load), temperature_value(temp), vram),
{
    amd_reading(has_gpu, services_ok, metrics_ok, load_reading_value(load), temperature_reading_value(temp), vram)
}

/// Law: from a completed reading, the first figure is the load reading
/// and the second the temperature reading (0 where a reading failed), and
/// the memory figures depend on the memory reading alone.
pub proof fn lemma_amd_figures_in_order(
    load: Option<LoadReading>,
    temp: Option<TemperatureReading>,
    vram: Option<i32>,
    other_load: Option<LoadReading>,
    other_temp: Option<TemperatureReading>,
)
    ensures
        ({
            let r = amd_reading_of(true, true, true, load_value(load), temperature_value(temp), vram);
            let o = amd_reading_of(true, true, true, load_value(other_load), temperature_value(other_temp), vram);
            &&& r.0 == (match load {
                Some(l) => l.0,
                None => 0,
            })
            &&& r.1 == (match temp {
                Some(t) => t.0,
                None => 0,
            })
            &&& r.2 == o.2
            &&& r.3 == o.3
        }),
{
}

/// The GPU of a list that the monitor uses: the first, where the list is not
/// empty.
pub fn first_gpu_index(list_size: u32) -> (r: Option<u32>)
    ensures
        r == (if list_size > 0 {
            Some(0u32)
        } else {
            None::<u32>
        }),
{
    if list_size > 0 {
        Some(0)
    } else {
        None
    }
}

/// An initialised ADLX library and, where there is one, its first GPU.
pub struct AdlxContext {
    helper: AdlxHelper,
    cached_gpu: Option<Gpu1>,
}

impl AdlxContext {
    /// Whether a first GPU was found when the context was made.
    pub closed spec fn has_gpu(&self) -> bool {
        self.cached_gpu is Some
    }

    /// Initialises ADLX and looks up its first GPU once; `None` where the
    /// library or driver is missing.
    pub fn new() -> Option<Self> {
        match adlx_helper_new() {
            None => None,
            Some(helper) => {
                let cached_gpu = Self::get_primary_gpu(&helper);
                Some(AdlxContext { helper, cached_gpu })
            },
        }
    }

    fn get_primary_gpu(helper: &AdlxHelper) -> Option<Gpu1> {
        let system = helper_system(helper);
        let gpu_list = match system_gpus(system) {
            Some(l) => l,
            None => return None,
        };
        match first_gpu_index(gpu_list_size(&gpu_list)) {
            Some(index) => match gpu_list_at(&gpu_list, index) {
                Some(gpu) => gpu_as_gpu1(&gpu),
                None => None,
            },
            None => None,
        }
    }

    /// Load, temperature and memory in use (twice) of the first GPU: the
    /// figures for the outcomes of its steps, as `amd_reading_of` gives
    /// them; all zero without a GPU or when the services or the metrics
    /// cannot be had, and 0 for each reading that fails.
    pub fn get_metrics(&self) -> (r: (u32, u32, u32, u32))
        ensures
            exists|
                services_ok: bool,
                metrics_ok: bool,
                usage: Option<u32>,
                temp: Option<u32>,
                vram: Option<i32>,
            | r == amd_reading_of(self.has_gpu(), services_ok, metrics_ok, usage, temp, vram),
            !self.has_gpu() ==> r == (0u32, 0u32, 0u32, 0u32),
            r.2 == r.3,
    {
        let mut services_ok = false;
        let mut metrics_ok = false;
        let mut usage: Option<LoadReading> = None;
        let mut temp: Option<TemperatureReading> = None;
        let mut vram: Option<i32> = None;
        if let Some(gpu) = &self.cached_gpu {
            let system = helper_system(&self.helper);
            if let Some(services) = performance_services(system) {
                services_ok = true;
                if let Some(metrics) = current_gpu_metrics(&services, gpu) {
                    metrics_ok = true;
                    usage = gpu_usage(&metrics);
                    temp = gpu_temperature(&metrics);
                    vram = gpu_vram(&metrics);
                }
            }
        }
        let has_gpu = self.cached_gpu.is_some();
        let r = amd_reading_from(has_gpu, services_ok, metrics_ok, usage, temp, vram);
        assert(r == amd_reading_of(
            self.has_gpu(),
            services_ok,
            metrics_ok,
            load_value(usage),
            temperature_value(temp),
            vram,
        ));
        r
    }
}

} // verus!
