//! What is told about devices, and how work is shared out over them.

use vstd::prelude::*;
use vstd::utf8::{decode_utf8, valid_utf8};

use super::device::{
    format_version, get_device_count, get_device_info, gpu_c_error, set_device, text_len,
    CallSite, DeviceReply, GpuApi, GpuDeviceInfo, GpuDriverInfo, GpuError,
};
use super::partition::{
    lemma_shards_are_balanced, lemma_shards_are_contiguous, partition_baselines_across_devices,
};
use crate::text::{decimal, digit, digits, push_decimal, push_digits};

verus! {

/// Does an error tell the message of the runtime, or that it cannot be read, and
/// where the call was made?
pub open spec fn tells_the_message(
    error: GpuError,
    message: Seq<u8>,
    api: GpuApi,
    site: CallSite,
) -> bool {
    match error {
        GpuError::Generic { msg, file, line } => {
            &&& valid_utf8(message) ==> msg@ == decode_utf8(message)
            &&& !valid_utf8(message) && api is Cuda ==> msg@ == "<cannot read CUDA error string>"@
            &&& !valid_utf8(message) && api is Hip ==> msg@ == "<cannot read HIP error string>"@
            &&& file@ == site.file@
            &&& line == site.line
        },
    }
}

/// Errors of the runtime are told with their message, and else what was asked for
/// is handed back.
pub proof fn lemma_errors_of_the_runtime_are_told(
    error: Option<Vec<u8>>,
    bytes: &[u8],
    count: i32,
    api: GpuApi,
    site: CallSite,
    told: GpuError,
    counted: Result<i32, GpuError>,
    set: Result<(), GpuError>,
)
    requires
        call_ensures(gpu_c_error, (bytes, api, site), told),
        call_ensures(get_device_count, (error, count, api, site), counted),
        call_ensures(set_device, (error, api, site), set),
    ensures
        tells_the_message(told, bytes@, api, site),
        error is None ==> counted == Ok::<i32, GpuError>(count) && set is Ok,
        error matches Some(message) ==> {
            &&& counted matches Err(e) && tells_the_message(e, message@, api, site)
            &&& set matches Err(e) && tells_the_message(e, message@, api, site)
        },
{
}

/// Is this the text before the zero byte that ends it?
pub open spec fn is_text_of(buffer: Seq<u8>, n: int, text: Seq<char>) -> bool {
    &&& 0 <= n <= buffer.len()
    &&& forall|i: int| 0 <= i < n ==> #[trigger] buffer[i] != 0
    &&& n < buffer.len() ==> buffer[n] == 0
    &&& text == decode_utf8(buffer.subrange(0, n))
}

proof fn lemma_text_len(buffer: Seq<u8>)
    ensures
        0 <= text_len(buffer) <= buffer.len(),
        forall|i: int| 0 <= i < text_len(buffer) ==> #[trigger] buffer[i] != 0,
        text_len(buffer) < buffer.len() ==> buffer[text_len(buffer)] == 0,
    decreases buffer.len(),
{
    if buffer.len() > 0 && buffer[0] != 0 {
        let rest = buffer.skip(1);
        lemma_text_len(rest);
        assert forall|i: int| 0 <= i < text_len(buffer) implies #[trigger] buffer[i] != 0 by {
            if i > 0 {
                assert(rest[i - 1] == buffer[i]);
            }
        }
    }
}

/// A device is told by its name, its capability and its memory in whole mebibytes;
/// the versions of driver and runtime are those that were reported, each its own.
pub proof fn lemma_devices_are_told(
    reply: DeviceReply,
    api: GpuApi,
    site: CallSite,
    r: Result<(GpuDeviceInfo, GpuDriverInfo), GpuError>,
    driver: String,
    runtime: String,
)
    requires
        call_ensures(get_device_info, (reply, api, site), r),
        call_ensures(format_version, (api, reply.driver_version), driver),
        call_ensures(format_version, (api, reply.runtime_version), runtime),
    ensures
        reply.error matches Some(message) ==> (r matches Err(e) && tells_the_message(
            e,
            message@,
            api,
            site,
        )),
        reply.error is None ==> (r matches Ok((device, versions)) && {
            &&& exists|n: int| #[trigger] is_text_of(reply.name@, n, device.name@)
            &&& device.capability@ == decimal(reply.major as int) + "."@ + decimal(
                reply.minor as int,
            )
            &&& device.total_global_mem * 1048576 <= reply.total_global_mem < (
            device.total_global_mem + 1) * 1048576
            &&& versions.driver_version@ == driver@
            &&& versions.runtime_version@ == runtime@
        }),
{
    lemma_text_len(reply.name@);
    if let Ok((device, versions)) = r {
        assert(is_text_of(reply.name@, text_len(reply.name@), device.name@));
    }
}

/// Does a part have the sign of a number, or none?
pub open spec fn has_sign_of(part: int, n: int) -> bool {
    n >= 0 && part >= 0 || n <= 0 && part <= 0
}

/// A CUDA version is written as its thousands and its tens. Parts are counted
/// towards zero.
pub proof fn lemma_cuda_versions_are_written(
    version: i32,
    r: String,
    major: int,
    minor: int,
    patch: int,
)
    requires
        call_ensures(format_version, (GpuApi::Cuda, version), r),
        version == 1000 * major + 10 * minor + patch,
        -100 < minor < 100,
        -10 < patch < 10,
        has_sign_of(major, version as int),
        has_sign_of(minor, version as int),
        has_sign_of(patch, version as int),
    ensures
        r@ == decimal(major) + "."@ + decimal(minor),
{
    let v = version as int;
    if v >= 0 {
        assert(v / 1000 == major);
        assert(v / 10 == 100 * major + minor);
        assert((100 * major + minor) / 100 == major);
    } else {
        let (w, a, b, p) = (-v, -major, -minor, -patch);
        assert(w == 1000 * a + 10 * b + p);
        assert(w / 1000 == a);
        assert(w / 10 == 100 * a + b);
        assert((100 * a + b) / 100 == a);
    }
}

/// A HIP version is written as its ten millions and its ten thousands, without
/// their hundreds. Parts are counted towards zero.
pub proof fn lemma_hip_versions_are_written(
    version: i32,
    r: String,
    major: int,
    hundreds: int,
    minor: int,
    patch: int,
)
    requires
        call_ensures(format_version, (GpuApi::Hip, version), r),
        version == 10_000_000 * major + 1_000_000 * hundreds + 10_000 * minor + patch,
        -10 < hundreds < 10,
        -100 < minor < 100,
        -10_000 < patch < 10_000,
        has_sign_of(major, version as int),
        has_sign_of(hundreds, version as int),
        has_sign_of(minor, version as int),
        has_sign_of(patch, version as int),
    ensures
        r@ == decimal(major) + "."@ + decimal(minor),
{
    let v = version as int;
    if v >= 0 {
        assert(v / 10_000_000 == major);
        assert(v / 10_000 == 1000 * major + 100 * hundreds + minor);
        assert((1000 * major + 100 * hundreds + minor) / 100 == 10 * major + hundreds);
    } else {
        let (w, a, h, b, p) = (-v, -major, -hundreds, -minor, -patch);
        assert(w == 10_000_000 * a + 1_000_000 * h + 10_000 * b + p);
        assert(w / 10_000_000 == a);
        assert(w / 10_000 == 1000 * a + 100 * h + b);
        assert((1000 * a + 100 * h + b) / 100 == 10 * a + h);
    }
}

/// The number that decimal digits stand for.
pub open spec fn number_of(text: Seq<char>) -> int
    decreases text.len(),
{
    if text.len() == 0 {
        0
    } else {
        10 * number_of(text.drop_last()) + (text.last() as u32 - '0' as u32)
    }
}

/// Is this a decimal number: digits only, and no zero before others?
pub open spec fn is_number(text: Seq<char>) -> bool {
    &&& text.len() > 0
    &&& forall|i: int| 0 <= i < text.len() ==> '0' as u32 <= #[trigger] text[i] as u32 <= '9' as u32
    &&& text.len() > 1 ==> text[0] != '0'
}

proof fn lemma_digits(n: nat)
    ensures
        is_number(digits(n)),
        number_of(digits(n)) == n,
        digits(n)[0] == '0' ==> n == 0,
    decreases n,
{
    let d = digit(n % 10);
    assert(d as u32 == '0' as u32 + n % 10);
    if n < 10 {
        assert(digits(n).drop_last() =~= Seq::<char>::empty());
        assert(digits(n).last() == d);
        assert(number_of(digits(n).drop_last()) == 0);
    } else {
        lemma_digits(n / 10);
        assert(digits(n).drop_last() =~= digits(n / 10));
        assert(digits(n)[0] == digits(n / 10)[0]);
    }
}

/// Numbers are written in decimal digits, which stand for them; a negative number
/// has a minus sign before its digits.
pub proof fn lemma_numbers_are_written(n: u64, m: i64)
    ensures
        forall|out: &mut String| #[trigger]
            call_ensures(push_digits, (out, n), ()) ==> exists|text: Seq<char>|
                {
                    &&& final(out)@ == out@ + text
                    &&& #[trigger] is_number(text)
                    &&& number_of(text) == n
                },
        forall|out: &mut String| #[trigger]
            call_ensures(push_decimal, (out, m), ()) ==> exists|text: Seq<char>|
                {
                    &&& m >= 0 ==> final(out)@ == out@ + text && number_of(text) == m
                    &&& m < 0 ==> final(out)@ == out@ + (seq!['-'] + text) && number_of(text) == -m
                    &&& #[trigger] is_number(text)
                },
{
    lemma_digits(n as nat);
    assert forall|out: &mut String| #[trigger]
        call_ensures(push_digits, (out, n), ()) implies exists|text: Seq<char>|
        {
            &&& final(out)@ == out@ + text
            &&& #[trigger] is_number(text)
            &&& number_of(text) == n
        } by {
        assert(is_number(digits(n as nat)));
    }
    let size = if m < 0 {
        -(m as int)
    } else {
        m as int
    };
    lemma_digits(size as nat);
    assert forall|out: &mut String| #[trigger]
        call_ensures(push_decimal, (out, m), ()) implies exists|text: Seq<char>|
        {
            &&& m >= 0 ==> final(out)@ == out@ + text && number_of(text) == m
            &&& m < 0 ==> final(out)@ == out@ + (seq!['-'] + text) && number_of(text) == -m
            &&& #[trigger] is_number(text)
        } by {
        assert(is_number(digits(size as nat)));
    }
}

/// The decimal notation of an integer, which [`get_device_info`] and
/// [`format_version`] write, stands for it.
pub proof fn lemma_decimal_notation(n: int)
    ensures
        n >= 0 ==> is_number(decimal(n)) && number_of(decimal(n)) == n,
        n < 0 ==> decimal(n)[0] == '-' && is_number(decimal(n).skip(1)) && number_of(
            decimal(n).skip(1),
        ) == -n,
{
    if n < 0 {
        lemma_digits((-n) as nat);
        assert(decimal(n).skip(1) =~= digits((-n) as nat));
    } else {
        lemma_digits(n as nat);
    }
}

/// Baselines are shared out: in the order of the devices, without gaps and
/// overlaps, from the first baseline to the last, and evenly, the larger shards
/// first. There are as many shards as devices or as baselines, whichever are fewer.
pub proof fn lemma_baselines_are_shared_out(
    num_baselines: usize,
    devices: &[i32],
    out: Vec<(i32, usize, usize)>,
    k: int,
    j: int,
)
    requires
        call_ensures(partition_baselines_across_devices, (num_baselines, devices), out),
    ensures
        devices@.len() <= num_baselines ==> out@.len() == devices@.len(),
        devices@.len() >= num_baselines ==> out@.len() == num_baselines,
        out@.len() > 0 ==> out@[0].1 == 0 && out@.last().1 + out@.last().2 == num_baselines,
        0 <= k < out@.len() ==> out@[k].0 == devices@[k] && out@[k].2 > 0,
        0 <= k < out@.len() - 1 ==> out@[k + 1].1 == out@[k].1 + out@[k].2,
        0 <= k <= j < out@.len() ==> out@[j].2 <= out@[k].2 <= out@[j].2 + 1,
{
    if num_baselines > 0 && devices@.len() > 0 {
        lemma_shards_are_contiguous(num_baselines, devices@);
        if 0 <= k < out@.len() {
            let shard = out@[k];
            assert(shard.0 == devices@[k] && shard.2 >= 1);
            if k + 1 < out@.len() {
                let next = out@[k + 1];
                assert(shard.1 + shard.2 == next.1);
            }
        }
        if 0 <= k <= j < out@.len() {
            lemma_shards_are_balanced(num_baselines, devices@, k, j);
        }
    }
}

} // verus!
