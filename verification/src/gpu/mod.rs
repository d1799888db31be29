//! CUDA/HIP devices: what is reported about them, and how work is shared out.

pub mod device;
pub mod laws;
pub mod partition;

pub use device::{
    get_device_count, get_device_info, gpu_c_error, set_device, GpuApi, GpuDeviceInfo,
    GpuDriverInfo, GpuError,
};
pub use partition::partition_baselines_across_devices;
