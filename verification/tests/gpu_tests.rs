use sysmon::gpu::amd::{amd_metrics, amd_reading, first_gpu_index};
use sysmon::gpu::nvidia::{nvidia_metrics, nvidia_reading};
use sysmon::gpu::{detection_message, starts_adlx, GpuManager, GpuVendor};

#[test]
fn nvidia_memory_in_whole_mebibytes() {
    let r = nvidia_metrics(Some(87), Some(72), Some((6543 * 1_048_576 + 1000, 9600 * 1_048_576)));
    assert_eq!(r, (87, 72, 6543, 9600));
}

#[test]
fn nvidia_failed_readings_are_zero() {
    assert_eq!(nvidia_metrics(None, Some(40), None), (0, 40, 0, 0));
    assert_eq!(nvidia_metrics(None, None, None), (0, 0, 0, 0));
}

#[test]
fn amd_reports_vram_as_total_too() {
    assert_eq!(amd_metrics(Some(55), Some(66), Some(2048)), (55, 66, 2048, 2048));
    assert_eq!(amd_metrics(None, None, None), (0, 0, 0, 0));
}

#[test]
fn amd_negative_vram_wraps_like_a_cast() {
    assert_eq!(amd_metrics(None, None, Some(-1)), (0, 0, u32::MAX, u32::MAX));
}

#[test]
fn vendor_names_and_messages() {
    assert_eq!(detection_message(GpuVendor::Nvidia), "✓ NVIDIA GPU detected (NVML)");
    assert_eq!(detection_message(GpuVendor::Amd), "✓ AMD GPU detected (ADLX SDK)");
    assert_eq!(
        detection_message(GpuVendor::Unknown),
        "⚠ No compatible GPU detected (running CPU/RAM only)"
    );
}

#[test]
fn auto_detect_is_consistent() {
    let g = GpuManager::auto_detect();
    let name = g.vendor_name();
    match g.vendor() {
        GpuVendor::Nvidia => assert_eq!(name, "NVIDIA"),
        GpuVendor::Amd => {
            assert_eq!(name, "AMD");
            let r = g.get_metrics();
            assert_eq!(r.2, r.3);
        }
        GpuVendor::Unknown => {
            assert_eq!(name, "None");
            assert_eq!(g.get_metrics(), (0, 0, 0, 0));
        }
    }
}

#[test]
fn no_backend_means_no_gpu() {
    let g = GpuManager::select_backend(None, None);
    assert_eq!(g.vendor(), GpuVendor::Unknown);
    assert_eq!(g.vendor_name(), "None");
    assert_eq!(g.get_metrics(), (0, 0, 0, 0));
}

#[test]
fn amd_failed_steps_give_zeros() {
    assert_eq!(amd_reading(false, true, true, Some(5), Some(6), Some(7)), (0, 0, 0, 0));
    assert_eq!(amd_reading(true, false, true, Some(5), Some(6), Some(7)), (0, 0, 0, 0));
    assert_eq!(amd_reading(true, true, false, Some(5), Some(6), Some(7)), (0, 0, 0, 0));
    assert_eq!(amd_reading(true, true, true, Some(5), None, Some(7)), (5, 0, 7, 7));
}

#[test]
fn nvidia_failed_device_gives_zeros() {
    assert_eq!(nvidia_reading(false, Some(5), Some(6), Some((1 << 20, 2 << 20))), (0, 0, 0, 0));
    assert_eq!(nvidia_reading(true, Some(5), None, Some((1 << 20, 2 << 20))), (5, 0, 1, 2));
}

#[test]
fn first_gpu_of_list() {
    assert_eq!(first_gpu_index(0), None);
    assert_eq!(first_gpu_index(1), Some(0));
    assert_eq!(first_gpu_index(3), Some(0));
}

#[test]
fn adlx_started_only_without_nvml() {
    assert!(starts_adlx(false));
    assert!(!starts_adlx(true));
}
