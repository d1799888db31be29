//! What the device runtime reports.
//!
//! We assume that everything is UTF-8.

use vstd::prelude::*;
use vstd::slice::slice_subrange;
use vstd::utf8::{decode_utf8, valid_utf8};

use crate::text::{decimal, from_utf8, push_decimal};

verus! {

/// The device runtime in use.
#[derive(Debug, Clone, Copy, PartialEq, Eq, Structural)]
pub enum GpuApi {
    Cuda,
    Hip,
}

/// Errors of the device runtime.
#[derive(Debug)]
pub enum GpuError {
    Generic { msg: String, file: String, line: u32 },
}

/// Versions of the installed software.
#[derive(Debug)]
pub struct GpuDriverInfo {
    /// Formatted CUDA/HIP driver version, e.g. "11.7".
    pub driver_version: String,
    /// Formatted CUDA/HIP runtime version, e.g. "11.7".
    pub runtime_version: String,
}

/// A device.
#[derive(Debug)]
pub struct GpuDeviceInfo {
    pub name: String,
    pub capability: String,
    /// \[MebiBytes (MiB)\]
    pub total_global_mem: usize,
}

/// What the runtime hands back for a device. On success there is no error
/// message and all other parts are filled in.
#[derive(Debug)]
pub struct DeviceReply {
    /// The bytes of the error message, if there was an error.
    pub error: Option<Vec<u8>>,
    /// The buffer that the device name was written to, ended by a zero byte.
    pub name: Vec<u8>,
    pub major: i32,
    pub minor: i32,
    /// \[bytes\]
    pub total_global_mem: usize,
    pub driver_version: i32,
    pub runtime_version: i32,
}

/// Where in the source a call was made.
#[derive(Debug, Clone, Copy)]
pub struct CallSite<'a> {
    pub file: &'a str,
    pub line: u32,
}

/// What stands for an error message that is not text.
pub open spec fn unreadable_message(api: GpuApi) -> Seq<char> {
    match api {
        GpuApi::Cuda => "<cannot read CUDA error string>"@,
        GpuApi::Hip => "<cannot read HIP error string>"@,
    }
}

/// Is this the error for that message of the runtime?
pub open spec fn reports(error: GpuError, message: Seq<u8>, api: GpuApi, site: CallSite) -> bool {
    match error {
        GpuError::Generic { msg, file, line } => {
            &&& msg@ == (if valid_utf8(message) {
                decode_utf8(message)
            } else {
                unreadable_message(api)
            })
            &&& file@ == site.file@
            &&& line == site.line
        },
    }
}

/// The error for a message of the runtime.
pub fn gpu_c_error(message: &[u8], api: GpuApi, site: CallSite) -> (r: GpuError)
    ensures
        reports(r, message@, api, site),
{
    let msg: String = match from_utf8(message) {
        Some(text) => text.to_owned(),
        None => match api {
            GpuApi::Cuda => "<cannot read CUDA error string>".to_owned(),
            GpuApi::Hip => "<cannot read HIP error string>".to_owned(),
        },
    };
    GpuError::Generic { msg, file: site.file.to_owned(), line: site.line }
}

/// Number of CUDA/HIP devices visible to this process, from what the runtime
/// handed back.
pub fn get_device_count(error: Option<Vec<u8>>, count: i32, api: GpuApi, site: CallSite) -> (r: Result<
    i32,
    GpuError,
>)
    ensures
        match error {
            None => r == Ok::<i32, GpuError>(count),
            Some(message) => r matches Err(e) && reports(e, message@, api, site),
        },
{
    match error {
        Some(message) => Err(gpu_c_error(&message, api, site)),
        None => Ok(count),
    }
}

/// Whether the calling thread's current CUDA/HIP device was set, from what the
/// runtime handed back.
pub fn set_device(error: Option<Vec<u8>>, api: GpuApi, site: CallSite) -> (r: Result<(), GpuError>)
    ensures
        match error {
            None => r is Ok,
            Some(message) => r matches Err(e) && reports(e, message@, api, site),
        },
{
    match error {
        Some(message) => Err(gpu_c_error(&message, api, site)),
        None => Ok(()),
    }
}

/// The quotient rounded towards zero.
pub open spec fn quotient(n: int, d: int) -> int {
    if n >= 0 {
        n / d
    } else {
        -((-n) / d)
    }
}

/// The remainder of the quotient rounded towards zero.
pub open spec fn remainder(n: int, d: int) -> int {
    n - quotient(n, d) * d
}

/// The text of a version that the runtime reports as one number. CUDA has
/// thousands for the major and tens for the minor version; for HIP this isn't
/// documented, but ten millions and ten thousands are the only thing that makes
/// sense.
pub open spec fn version_text(api: GpuApi, version: int) -> Seq<char> {
    match api {
        GpuApi::Cuda => decimal(quotient(version, 1000)) + "."@ + decimal(
            remainder(quotient(version, 10), 100),
        ),
        GpuApi::Hip => decimal(quotient(version, 10_000_000)) + "."@ + decimal(
            remainder(quotient(version, 10_000), 100),
        ),
    }
}

fn divide(n: i64, d: i64) -> (r: i64)
    requires
        -0x1_0000_0000 < n < 0x1_0000_0000,
        0 < d <= 10_000_000,
    ensures
        r == quotient(n as int, d as int),
        -0x1_0000_0000 < r < 0x1_0000_0000,
{
    if n >= 0 {
        assert(n as int / d as int <= n) by (nonlinear_arith)
            requires
                n >= 0,
                d > 0,
        ;
        n / d
    } else {
        assert((-n) / d as int <= -n) by (nonlinear_arith)
            requires
                n < 0,
                d > 0,
        ;
        assert((-n) / d as int >= 0) by (nonlinear_arith)
            requires
                n < 0,
                d > 0,
        ;
        -((-n) / d)
    }
}

/// `major.minor`
fn dotted(major: i64, minor: i64) -> (r: String)
    ensures
        r@ == decimal(major as int) + "."@ + decimal(minor as int),
{
    let mut r: String = String::new();
    push_decimal(&mut r, major);
    r.append(".");
    push_decimal(&mut r, minor);
    assert(r@ =~= decimal(major as int) + "."@ + decimal(minor as int));
    r
}

/// The text of a version that the runtime reports as one number.
pub fn format_version(api: GpuApi, version: i32) -> (r: String)
    ensures
        r@ == version_text(api, version as int),
{
    let (major_unit, minor_unit): (i64, i64) = match api {
        GpuApi::Cuda => (1000, 10),
        GpuApi::Hip => (10_000_000, 10_000),
    };
    let major: i64 = divide(version as i64, major_unit);
    let minors: i64 = divide(version as i64, minor_unit);
    let hundreds: i64 = divide(minors, 100);
    dotted(major, minors - hundreds * 100)
}

/// The length of the text that a zero byte ends.
pub open spec fn text_len(buffer: Seq<u8>) -> int
    decreases buffer.len(),
{
    if buffer.len() == 0 || buffer[0] == 0 {
        0
    } else {
        1 + text_len(buffer.skip(1))
    }
}

/// The bytes before the zero byte.
pub open spec fn text_bytes(buffer: Seq<u8>) -> Seq<u8> {
    buffer.subrange(0, text_len(buffer))
}

fn find_text_len(buffer: &Vec<u8>) -> (n: usize)
    ensures
        n == text_len(buffer@),
        n <= buffer@.len(),
{
    let mut n: usize = 0;
    assert(buffer@.skip(0) =~= buffer@);
    while n < buffer.len() && buffer[n] != 0
        invariant
            n <= buffer@.len(),
            text_len(buffer@) == n + text_len(buffer@.skip(n as int)),
        decreases buffer.len() - n,
    {
        assert(buffer@.skip(n as int).skip(1) =~= buffer@.skip(n + 1));
        n = n + 1;
    }
    n
}

/// Get CUDA/HIP device and driver information, from what the runtime handed
/// back for a device.
pub fn get_device_info(reply: DeviceReply, api: GpuApi, site: CallSite) -> (r: Result<
    (GpuDeviceInfo, GpuDriverInfo),
    GpuError,
>)
    requires
        reply.error is None ==> valid_utf8(text_bytes(reply.name@)),
    ensures
        match reply.error {
            Some(message) => r matches Err(e) && reports(e, message@, api, site),
            None => r matches Ok((device, driver)) && {
                &&& device.name@ == decode_utf8(text_bytes(reply.name@))
                &&& device.capability@ == decimal(reply.major as int) + "."@ + decimal(
                    reply.minor as int,
                )
                &&& device.total_global_mem == reply.total_global_mem / 1048576
                &&& driver.driver_version@ == version_text(api, reply.driver_version as int)
                &&& driver.runtime_version@ == version_text(api, reply.runtime_version as int)
            },
        },
{
    match reply.error {
        Some(message) => Err(gpu_c_error(&message, api, site)),
        None => {
            let n: usize = find_text_len(&reply.name);
            let name: &str = from_utf8(slice_subrange(&reply.name, 0, n)).expect(
                "GPU device name isn't UTF-8",
            );
            Ok(
                (
                    GpuDeviceInfo {
                        name: name.to_owned(),
                        capability: dotted(reply.major as i64, reply.minor as i64),
                        total_global_mem: reply.total_global_mem / 1048576,
                    },
                    GpuDriverInfo {
                        driver_version: format_version(api, reply.driver_version),
                        runtime_version: format_version(api, reply.runtime_version),
                    },
                ),
            )
        },
    }
}

/// A CUDA version splits into its parts: a version number that was put together
/// from a major and a minor part below 100 is reported as these.
pub proof fn lemma_cuda_version(major: int, minor: int, patch: int)
    requires
        0 <= major,
        0 <= minor < 100,
        0 <= patch < 10,
    ensures
        version_text(GpuApi::Cuda, 1000 * major + 10 * minor + patch) == decimal(major) + "."@
            + decimal(minor),
{
    let v = 1000 * major + 10 * minor + patch;
    assert(v / 1000 == major);
    assert(v / 10 == 100 * major + minor);
    assert((100 * major + minor) / 100 == major);
}

/// A HIP version splits into its parts in the same way.
pub proof fn lemma_hip_version(major: int, minor: int, patch: int)
    requires
        0 <= major,
        0 <= minor < 100,
        0 <= patch < 10_000,
    ensures
        version_text(GpuApi::Hip, 10_000_000 * major + 10_000 * minor + patch) == decimal(major)
            + "."@ + decimal(minor),
{
    let v = 10_000_000 * major + 10_000 * minor + patch;
    assert(v / 10_000_000 == major);
    assert(v / 10_000 == 1000 * major + minor);
    assert((1000 * major + minor) / 100 == 10 * major);
}

} // verus!
