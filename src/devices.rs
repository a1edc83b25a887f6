//! Accelerator vendors and memory use.
use vstd::prelude::*;

verus! {

#[derive(Debug, Clone, Copy, PartialEq, Eq, Structural)]
pub enum GpuVendor {
    Nvidia,
    Amd,
    Intel,
    Unknown,
}

#[derive(Debug, Clone, Copy, PartialEq, Eq, Structural)]
pub enum NpuVendor {
    Intel,
    Amd,
    Apple,
    Qualcomm,
    Unknown,
}

impl GpuVendor {
    /// The vendor's display name.
    pub fn vendor_string(&self) -> (r: &'static str)
        ensures
            r@ == match *self {
                GpuVendor::Nvidia => "NVIDIA"@,
                GpuVendor::Amd => "AMD"@,
                GpuVendor::Intel => "Intel"@,
                GpuVendor::Unknown => "Unknown"@,
            },
    {
        match self {
            GpuVendor::Nvidia => "NVIDIA",
            GpuVendor::Amd => "AMD",
            GpuVendor::Intel => "Intel",
            GpuVendor::Unknown => "Unknown",
        }
    }
}

impl NpuVendor {
    /// The vendor's display name.
    pub fn vendor_string(&self) -> (r: &'static str)
        ensures
            r@ == match *self {
                NpuVendor::Intel => "Intel"@,
                NpuVendor::Amd => "AMD"@,
                NpuVendor::Apple => "Apple"@,
                NpuVendor::Qualcomm => "Qualcomm"@,
                NpuVendor::Unknown => "Unknown"@,
            },
    {
        match self {
            NpuVendor::Intel => "Intel",
            NpuVendor::Amd => "AMD",
            NpuVendor::Apple => "Apple",
            NpuVendor::Qualcomm => "Qualcomm",
            NpuVendor::Unknown => "Unknown",
        }
    }
}

/// Whole percent of `total` that `used` is, capped at 255; 0 when `total` is 0.
pub fn memory_percent(used: u64, total: u64) -> (r: u8)
    ensures
        total == 0 ==> r == 0,
        total > 0 ==> r == if used as int * 100 / total as int > 255 { 255 } else { used as int * 100 / total as int },
{
    if total == 0 {
        0
    } else {
        let p = (used as u128) * 100 / (total as u128);
        if p > 255 {
            255
        } else {
            p as u8
        }
    }
}

} // verus!
