//! Capture-device selection.  The device driver's enumeration happens
//! outside this crate; the caller hands the enumerated device names in
//! here, and the policy below picks one: the first input whose name
//! indicates a system-audio loopback source, else — on platforms whose
//! native loopback devices enumerate as outputs — the first such output,
//! else the default input device, else no device at all.
//!
//! Enumeration order is device-driver-defined; "first match" is first in
//! the order the caller observed, an accepted nondeterminism.

use vstd::prelude::*;
use crate::errors::CaptureError;
use crate::strutil::{contains_ci, str_contains_ci};

verus! {

/// A device name that indicates a system-audio loopback source, on any
/// platform: matched case-insensitively against a fixed set of fragments.
pub open spec fn is_loopback_name(name: Seq<char>) -> bool {
    ||| contains_ci(name, "stereo mix"@)
    ||| contains_ci(name, "what u hear"@)
    ||| contains_ci(name, "loopback"@)
    ||| contains_ci(name, "monitor"@)
    ||| contains_ci(name, "soundflower"@)
    ||| contains_ci(name, "blackhole"@)
    ||| contains_ci(name, "virtual audio cable"@)
}

/// An output-device name usable for loopback capture, on the platform
/// whose virtual loopback devices enumerate as outputs.
pub open spec fn is_loopback_output_name(name: Seq<char>) -> bool {
    ||| contains_ci(name, "blackhole"@)
    ||| contains_ci(name, "soundflower"@)
}

/// Whether `name` indicates a loopback input source.
pub fn loopback_name(name: &str) -> (r: bool)
    ensures
        r == is_loopback_name(name@),
{
    str_contains_ci(name, "stereo mix") || str_contains_ci(name, "what u hear")
        || str_contains_ci(name, "loopback") || str_contains_ci(name, "monitor")
        || str_contains_ci(name, "soundflower") || str_contains_ci(name, "blackhole")
        || str_contains_ci(name, "virtual audio cable")
}

/// Whether `name` is an output device usable for loopback capture.
pub fn loopback_output_name(name: &str) -> (r: bool)
    ensures
        r == is_loopback_output_name(name@),
{
    str_contains_ci(name, "blackhole") || str_contains_ci(name, "soundflower")
}

/// The device the policy picked: an index into the enumerated input or
/// output names, or the driver's default input device.
#[derive(Clone, Copy, Debug, PartialEq, Eq, Structural)]
pub enum DeviceChoice {
    /// The input device at this position of the enumeration.
    Input(usize),
    /// The output device at this position of the enumeration.
    Output(usize),
    /// The driver's default input device.
    DefaultInput,
}

/// No enumerated input name indicates a loopback source.
pub open spec fn no_loopback_input(inputs: Seq<Seq<char>>) -> bool {
    forall|j: int| 0 <= j < inputs.len() ==> !is_loopback_name(inputs[j])
}

/// No enumerated output name is usable for loopback capture.
pub open spec fn no_loopback_output(outputs: Seq<Seq<char>>) -> bool {
    forall|j: int| 0 <= j < outputs.len() ==> !is_loopback_output_name(outputs[j])
}

/// Picks the capture device from the enumerated names.  `scan_outputs`
/// says whether the platform's output devices should be scanned as well;
/// `has_default_input` whether the driver offers a default input to fall
/// back on.
#[verifier::loop_isolation(false)]
pub fn select_capture_device(
    input_names: &Vec<String>,
    output_names: &Vec<String>,
    scan_outputs: bool,
    has_default_input: bool,
) -> (r: Result<DeviceChoice, CaptureError>)
    ensures
        match r {
            Ok(DeviceChoice::Input(i)) => {
                &&& 0 <= i < input_names@.len()
                &&& is_loopback_name(input_names@[i as int]@)
                &&& forall|j: int| 0 <= j < i ==> !is_loopback_name(input_names@[j]@)
            },
            Ok(DeviceChoice::Output(i)) => {
                &&& no_loopback_input(input_names@.map_values(|s: String| s@))
                &&& scan_outputs
                &&& 0 <= i < output_names@.len()
                &&& is_loopback_output_name(output_names@[i as int]@)
                &&& forall|j: int| 0 <= j < i ==> !is_loopback_output_name(output_names@[j]@)
            },
            Ok(DeviceChoice::DefaultInput) => {
                &&& no_loopback_input(input_names@.map_values(|s: String| s@))
                &&& scan_outputs ==> no_loopback_output(output_names@.map_values(|s: String| s@))
                &&& has_default_input
            },
            Err(e) => {
                &&& e == CaptureError::NoDeviceAvailable
                &&& no_loopback_input(input_names@.map_values(|s: String| s@))
                &&& scan_outputs ==> no_loopback_output(output_names@.map_values(|s: String| s@))
                &&& !has_default_input
            },
        },
{
    let mut i: usize = 0;
    while i < input_names.len()
        invariant
            0 <= i <= input_names@.len(),
            forall|j: int| 0 <= j < i ==> !is_loopback_name(input_names@[j]@),
        decreases input_names@.len() - i,
    {
        if loopback_name(input_names[i].as_str()) {
            return Ok(DeviceChoice::Input(i));
        }
        i += 1;
    }
    assert(no_loopback_input(input_names@.map_values(|s: String| s@)));
    if scan_outputs {
        let mut k: usize = 0;
        while k < output_names.len()
            invariant
                0 <= k <= output_names@.len(),
                forall|j: int| 0 <= j < k ==> !is_loopback_output_name(output_names@[j]@),
            decreases output_names@.len() - k,
        {
            if loopback_output_name(output_names[k].as_str()) {
                return Ok(DeviceChoice::Output(k));
            }
            k += 1;
        }
        assert(no_loopback_output(output_names@.map_values(|s: String| s@)));
    }
    if has_default_input {
        Ok(DeviceChoice::DefaultInput)
    } else {
        Err(CaptureError::NoDeviceAvailable)
    }
}

/// The device listing shown to the user: a heading, the input names, a
/// second heading, the output names.
pub open spec fn device_list_spec(inputs: Seq<Seq<char>>, outputs: Seq<Seq<char>>) -> Seq<
    Seq<char>,
> {
    seq!["=== INPUT DEVICES ==="@] + inputs.map_values(|n: Seq<char>| "Input: "@ + n) + seq![
        "=== OUTPUT DEVICES ==="@,
    ] + outputs.map_values(|n: Seq<char>| "Output: "@ + n)
}

/// Renders the enumerated device names as the listing above.
#[verifier::loop_isolation(false)]
pub fn format_device_list(input_names: &Vec<String>, output_names: &Vec<String>) -> (r: Vec<
    String,
>)
    ensures
        r@.map_values(|s: String| s@) == device_list_spec(
            input_names@.map_values(|s: String| s@),
            output_names@.map_values(|s: String| s@),
        ),
{
    let ghost goal = device_list_spec(
        input_names@.map_values(|s: String| s@),
        output_names@.map_values(|s: String| s@),
    );
    let mut out: Vec<String> = Vec::new();
    out.push("=== INPUT DEVICES ===".to_owned());
    let mut i: usize = 0;
    while i < input_names.len()
        invariant
            0 <= i <= input_names@.len(),
            out@.len() == 1 + i,
            out@.map_values(|s: String| s@) == goal.take(1 + i as int),
        decreases input_names@.len() - i,
    {
        let mut line = "Input: ".to_owned();
        line.append(input_names[i].as_str());
        out.push(line);
        proof {
            assert(out@.map_values(|s: String| s@) =~= goal.take(1 + (i + 1)));
        }
        i += 1;
    }
    out.push("=== OUTPUT DEVICES ===".to_owned());
    proof {
        assert(out@.map_values(|s: String| s@) =~= goal.take(2 + input_names@.len() as int));
    }
    let mut k: usize = 0;
    while k < output_names.len()
        invariant
            0 <= k <= output_names@.len(),
            out@.len() == 2 + input_names@.len() + k,
            out@.map_values(|s: String| s@) == goal.take(2 + input_names@.len() + k as int),
        decreases output_names@.len() - k,
    {
        let mut line = "Output: ".to_owned();
        line.append(output_names[k].as_str());
        out.push(line);
        proof {
            assert(out@.map_values(|s: String| s@) =~= goal.take(
                2 + input_names@.len() + (k + 1),
            ));
        }
        k += 1;
    }
    proof {
        assert(goal.take(2 + input_names@.len() + output_names@.len() as int) =~= goal);
    }
    out
}

} // verus!
