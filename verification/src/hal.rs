//! Hardware abstraction: the capability descriptor the node advertises, and
//! the probe that reports it.

use vstd::prelude::*;
use vstd::string::*;
use crate::model::HardwareView;

verus! {

/// The capability descriptor of the local accelerator: model name and memory
/// capacity in gigabytes. Captured once at startup, read-only thereafter.
#[derive(Debug)]
pub struct HardwareStatus {
    pub gpu_model: String,
    pub vram_gb: u32,
}

impl View for HardwareStatus {
    type V = HardwareView;

    open spec fn view(&self) -> HardwareView {
        HardwareView { gpu_model: self.gpu_model@, vram_gb: self.vram_gb }
    }
}

/// The fixed device this development probe reports.
pub open spec fn spec_dev_gpu() -> HardwareView {
    HardwareView { gpu_model: "NVIDIA GeForce RTX 4090 (Driver: 535.104.05)"@, vram_gb: 24 }
}

/// Scan for acceleration cards; this development probe reports a fixed device.
pub fn detect_gpu() -> (hw: HardwareStatus)
    ensures
        hw@ == spec_dev_gpu(),
{
    let hw = HardwareStatus {
        gpu_model: "NVIDIA GeForce RTX 4090 (Driver: 535.104.05)".to_owned(),
        vram_gb: 24,
    };
    proof {
        assert(hw@ =~= spec_dev_gpu());
    }
    hw
}

/// Probe the local hardware resources.
pub fn detect_hardware() -> (hw: HardwareStatus)
    ensures
        hw@ == spec_dev_gpu(),
{
    detect_gpu()
}

} // verus!
