//! GPU back-end selection: NVIDIA first, then AMD, else CPU and RAM only.

pub mod amd;
pub mod nvidia;

use vstd::prelude::*;

use self::amd::{AdlxContext, amd_reading_of};
use self::nvidia::{NvmlContext, nvidia_reading_of};

verus! {

/// A GPU load as a back end reports it, in percent. Its own type keeps a
/// load from being taken for a temperature.
#[derive(Clone, Copy)]
pub struct LoadReading(pub u32);

/// A GPU temperature as a back end reports it, in degrees Celsius.
#[derive(Clone, Copy)]
pub struct TemperatureReading(pub u32);

pub open spec fn load_value(r: Option<LoadReading>) -> Option<u32> {
    match r {
        Some(l) => Some(l.0),
        None => None,
    }
}

pub open spec fn temperature_value(r: Option<TemperatureReading>) -> Option<u32> {
    match r {
        Some(t) => Some(t.0),
        None => None,
    }
}

/// The plain value of a load reading.
pub fn load_reading_value(r: Option<LoadReading>) -> (v: Option<u32>)
    ensures
        v == load_value(r),
{
    match r {
        Some(l) => Some(l.0),
        None => None,
    }
}

/// The plain value of a temperature reading.
pub fn temperature_reading_value(r: Option<TemperatureReading>) -> (v: Option<u32>)
    ensures
        v == temperature_value(r),
{
    match r {
        Some(t) => Some(t.0),
        None => None,
    }
}

#[derive(PartialEq, Eq, Structural, Clone, Copy, Debug)]
pub enum GpuVendor {
    Nvidia,
    Amd,
    Unknown,
}

/// The GPU back end in use, if any.
pub struct GpuManager {
    vendor: GpuVendor,
    nvml: Option<NvmlContext>,
    adlx: Option<AdlxContext>,
}

pub open spec fn vendor_name_spec(vendor: GpuVendor) -> Seq<char> {
    match vendor {
        GpuVendor::Nvidia => "NVIDIA"@,
        GpuVendor::Amd => "AMD"@,
        GpuVendor::Unknown => "None"@,
    }
}

/// What a GPU back end of the vendor can report: all zero without one;
/// for NVIDIA, the figures for the outcomes of some NVML reading, which
/// holds of every tuple and so constrains nothing; for AMD, those of some
/// ADLX reading, whose total memory equals the memory in use.
pub open spec fn gpu_reading_possible(vendor: GpuVendor, r: (u32, u32, u32, u32)) -> bool {
    match vendor {
        GpuVendor::Unknown => r == (0u32, 0u32, 0u32, 0u32),
        GpuVendor::Nvidia => exists|
            device_ok: bool,
            util: Option<u32>,
            temp: Option<u32>,
            mem: Option<(u64, u64)>,
        | r == nvidia_reading_of(device_ok, util, temp, mem),
        GpuVendor::Amd => r.2 == r.3 && exists|
            has_gpu: bool,
            services_ok: bool,
            metrics_ok: bool,
            usage: Option<u32>,
            temp: Option<u32>,
            vram: Option<i32>,
        | r == amd_reading_of(has_gpu, services_ok, metrics_ok, usage, temp, vram),
    }
}

pub open spec fn detection_message_spec(vendor: GpuVendor) -> Seq<char> {
    match vendor {
        GpuVendor::Nvidia => "✓ NVIDIA GPU detected (NVML)"@,
        GpuVendor::Amd => "✓ AMD GPU detected (ADLX SDK)"@,
        GpuVendor::Unknown => "⚠ No compatible GPU detected (running CPU/RAM only)"@,
    }
}

/// The start-up line that says which back end is in use.
pub fn detection_message(vendor: GpuVendor) -> (r: &'static str)
    ensures
        r@ == detection_message_spec(vendor),
{
    match vendor {
        GpuVendor::Nvidia => "✓ NVIDIA GPU detected (NVML)",
        GpuVendor::Amd => "✓ AMD GPU detected (ADLX SDK)",
        GpuVendor::Unknown => "⚠ No compatible GPU detected (running CPU/RAM only)",
    }
}

/// Whether ADLX is to be started: only where NVML did not start.
pub fn starts_adlx(nvml_started: bool) -> (r: bool)
    ensures
        r == !nvml_started,
{
    !nvml_started
}

impl GpuManager {
    pub closed spec fn vendor_spec(&self) -> GpuVendor {
        self.vendor
    }

    /// Whether the manager holds a started NVML.
    pub closed spec fn has_nvml(&self) -> bool {
        self.nvml is Some
    }

    /// Whether the manager holds a started ADLX.
    pub closed spec fn has_adlx(&self) -> bool {
        self.adlx is Some
    }

    /// The back end of the vendor is present and no other: NVML exactly for
    /// NVIDIA, ADLX exactly for AMD, so none for an unknown vendor.
    pub open spec fn wf(&self) -> bool {
        &&& (self.vendor_spec() == GpuVendor::Nvidia) == self.has_nvml()
        &&& (self.vendor_spec() == GpuVendor::Amd) == self.has_adlx()
    }

    /// The manager for the outcomes of starting the back ends: NVML where
    /// it started, else ADLX where it started, else no GPU back end. A
    /// started ADLX is not kept when NVML started too.
    pub fn select_backend(nvml: Option<NvmlContext>, adlx: Option<AdlxContext>) -> (r: Self)
        ensures
            r.wf(),
            r.has_nvml() == nvml is Some,
            r.has_adlx() == (nvml is None && adlx is Some),
            r.vendor_spec() == (if nvml is Some {
                GpuVendor::Nvidia
            } else if adlx is Some {
                GpuVendor::Amd
            } else {
                GpuVendor::Unknown
            }),
    {
        match nvml {
            Some(n) => GpuManager { vendor: GpuVendor::Nvidia, nvml: Some(n), adlx: None },
            None => match adlx {
                Some(a) => GpuManager { vendor: GpuVendor::Amd, nvml: None, adlx: Some(a) },
                None => GpuManager { vendor: GpuVendor::Unknown, nvml: None, adlx: None },
            },
        }
    }

    /// Starts NVML, then goes on as `select_after_nvml` does with the
    /// outcome.
    pub fn auto_detect() -> (r: Self)
        ensures
            r.wf(),
            r.vendor_spec() == GpuVendor::Unknown ==> !r.has_nvml() && !r.has_adlx(),
    {
        Self::select_after_nvml(NvmlContext::new())
    }

    /// The manager after NVML was started with the given outcome: where NVML
    /// started, it is kept and the vendor is NVIDIA, and ADLX is not started;
    /// only where NVML failed is ADLX started, and the vendor is then AMD if
    /// ADLX started and unknown otherwise.
    pub fn select_after_nvml(nvml: Option<NvmlContext>) -> (r: Self)
        ensures
            r.wf(),
            nvml is Some ==> r.vendor_spec() == GpuVendor::Nvidia && r.has_nvml() && !r.has_adlx(),
            nvml is None ==> !r.has_nvml() && r.vendor_spec() != GpuVendor::Nvidia,
            r.vendor_spec() == GpuVendor::Unknown ==> !r.has_nvml() && !r.has_adlx(),
    {
        let adlx = if starts_adlx(nvml.is_some()) {
            AdlxContext::new()
        } else {
            None
        };
        Self::select_backend(nvml, adlx)
    }

    pub fn vendor(&self) -> (r: GpuVendor)
        ensures
            r == self.vendor_spec(),
    {
        self.vendor
    }

    pub fn vendor_name(&self) -> (r: &'static str)
        ensures
            r@ == vendor_name_spec(self.vendor_spec()),
    {
        match self.vendor {
            GpuVendor::Nvidia => "NVIDIA",
            GpuVendor::Amd => "AMD",
            GpuVendor::Unknown => "None",
        }
    }

    /// Load, temperature, used and total memory of the GPU in use: all zero
    /// without one; otherwise what its back end reads.
    pub fn get_metrics(&self) -> (r: (u32, u32, u32, u32))
        ensures
            gpu_reading_possible(self.vendor_spec(), r),
    {
        match self.vendor {
            GpuVendor::Nvidia => {
                match &self.nvml {
                    Some(nvml) => nvml.get_metrics(),
                    None => {
                        let r = (0u32, 0u32, 0u32, 0u32);
                        assert(r == nvidia_reading_of(false, None, None, None));
                        r
                    },
                }
            },
            GpuVendor::Amd => {
                match &self.adlx {
                    Some(adlx) => adlx.get_metrics(),
                    None => {
                        let r = (0u32, 0u32, 0u32, 0u32);
                        assert(r == amd_reading_of(false, false, false, None, None, None));
                        r
                    },
                }
            },
            GpuVendor::Unknown => (0, 0, 0, 0),
        }
    }
}

} // verus!
