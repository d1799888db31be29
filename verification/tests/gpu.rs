use hyperdrive::gpu::device::{format_version, CallSite, DeviceReply};
use hyperdrive::gpu::{
    get_device_count, get_device_info, gpu_c_error, partition_baselines_across_devices, set_device,
    GpuApi, GpuError,
};
use hyperdrive::text::{push_decimal, push_digits};

#[test]
fn partition_baselines_even() {
    let shards = partition_baselines_across_devices(10, &[0, 1]);
    assert_eq!(shards, vec![(0, 0, 5), (1, 5, 5)]);
}

#[test]
fn partition_baselines_uneven() {
    let shards = partition_baselines_across_devices(11, &[0, 1, 2]);
    assert_eq!(shards, vec![(0, 0, 4), (1, 4, 4), (2, 8, 3)]);
}

#[test]
fn partition_more_devices_than_baselines() {
    let shards = partition_baselines_across_devices(2, &[0, 1, 2, 3]);
    assert_eq!(shards, vec![(0, 0, 1), (1, 1, 1)]);
}

#[test]
fn partition_nothing() {
    assert_eq!(partition_baselines_across_devices(0, &[0, 1]), vec![]);
    assert_eq!(partition_baselines_across_devices(10, &[]), vec![]);
}

#[test]
fn every_baseline_is_in_one_shard() {
    for num_baselines in 1..40 {
        for num_devices in 1..9 {
            let devices: Vec<i32> = (0..num_devices).collect();
            let shards = partition_baselines_across_devices(num_baselines, &devices);
            for baseline in 0..num_baselines {
                let holders = shards
                    .iter()
                    .filter(|(_, offset, count)| {
                        *offset <= baseline && baseline < *offset + *count
                    })
                    .count();
                assert_eq!(holders, 1);
            }
            let largest = shards.iter().map(|s| s.2).max().unwrap();
            let smallest = shards.iter().map(|s| s.2).min().unwrap();
            assert!(largest - smallest <= 1);
        }
    }
}

fn site() -> CallSite<'static> {
    CallSite {
        file: "utils.rs",
        line: 53,
    }
}

#[test]
fn error_messages_are_read() {
    let GpuError::Generic { msg, file, line } =
        gpu_c_error("out of memory é".as_bytes(), GpuApi::Cuda, site());
    assert_eq!(msg, "out of memory é");
    assert_eq!(file, "utils.rs");
    assert_eq!(line, 53);
}

#[test]
fn error_messages_that_are_not_text() {
    let GpuError::Generic { msg, .. } = gpu_c_error(&[0xff, 0xfe], GpuApi::Cuda, site());
    assert_eq!(msg, "<cannot read CUDA error string>");
    let GpuError::Generic { msg, .. } = gpu_c_error(&[0xff, 0xfe], GpuApi::Hip, site());
    assert_eq!(msg, "<cannot read HIP error string>");
}

#[test]
fn device_counts() {
    assert_eq!(
        get_device_count(None, 3, GpuApi::Cuda, site()).unwrap(),
        3
    );
    let GpuError::Generic { msg, .. } =
        get_device_count(Some(b"no driver".to_vec()), 3, GpuApi::Cuda, site()).unwrap_err();
    assert_eq!(msg, "no driver");
}

#[test]
fn setting_devices() {
    assert!(set_device(None, GpuApi::Hip, site()).is_ok());
    let GpuError::Generic { msg, .. } =
        set_device(Some(b"invalid device".to_vec()), GpuApi::Hip, site()).unwrap_err();
    assert_eq!(msg, "invalid device");
}

#[test]
fn versions() {
    assert_eq!(format_version(GpuApi::Cuda, 11070), "11.7");
    assert_eq!(format_version(GpuApi::Cuda, 12060), "12.6");
    assert_eq!(format_version(GpuApi::Hip, 50_120_531), "5.12");
    assert_eq!(format_version(GpuApi::Cuda, 0), "0.0");
    assert_eq!(format_version(GpuApi::Cuda, -1070), "-1.-7");
}

fn reply() -> DeviceReply {
    let mut name = b"NVIDIA A100".to_vec();
    name.push(0);
    name.resize(256, 1);
    DeviceReply {
        error: None,
        name,
        major: 8,
        minor: 0,
        total_global_mem: 42_949_672_960,
        driver_version: 12020,
        runtime_version: 11070,
    }
}

#[test]
fn device_info() {
    let (device, driver) = get_device_info(reply(), GpuApi::Cuda, site()).unwrap();
    assert_eq!(device.name, "NVIDIA A100");
    assert_eq!(device.capability, "8.0");
    assert_eq!(device.total_global_mem, 40960);
    assert_eq!(driver.driver_version, "12.2");
    assert_eq!(driver.runtime_version, "11.7");
}

#[test]
fn device_info_with_an_error() {
    let mut r = reply();
    r.error = Some(b"invalid device ordinal".to_vec());
    let GpuError::Generic { msg, .. } = get_device_info(r, GpuApi::Cuda, site()).unwrap_err();
    assert_eq!(msg, "invalid device ordinal");
}

#[test]
fn numbers_as_text() {
    let mut s = String::from("x");
    push_digits(&mut s, u64::MAX);
    assert_eq!(s, "x18446744073709551615");
    let mut s = String::new();
    push_decimal(&mut s, i64::MIN);
    push_decimal(&mut s, 0);
    assert_eq!(s, "-92233720368547758080");
}
