//! Classifying the host's GPU from probe output.

use vstd::prelude::*;
use vstd::string::StringExecFns;

use crate::text;

verus! {

broadcast use vstd::seq::group_seq_axioms;

/// The GPU a host offers.
#[derive(Debug)]
pub enum GpuType {
    Nvidia { name: String, driver_version: String, memory: String, cuda_available: bool },
    Metal { device_name: String, architecture: String },
    NoGpu,
}

/// The mathematical value of a `GpuType`.
#[verifier::ext_equal]
pub enum GpuTypeView {
    Nvidia { name: Seq<char>, driver_version: Seq<char>, memory: Seq<char>, cuda_available: bool },
    Metal { device_name: Seq<char>, architecture: Seq<char> },
    NoGpu,
}

impl View for GpuType {
    type V = GpuTypeView;

    open spec fn view(&self) -> GpuTypeView {
        match self {
            GpuType::Nvidia { name, driver_version, memory, cuda_available } => {
                GpuTypeView::Nvidia {
                    name: name@,
                    driver_version: driver_version@,
                    memory: memory@,
                    cuda_available: *cuda_available,
                }
            },
            GpuType::Metal { device_name, architecture } => GpuTypeView::Metal {
                device_name: device_name@,
                architecture: architecture@,
            },
            GpuType::NoGpu => GpuTypeView::NoGpu,
        }
    }
}

/// What the NVIDIA query output parses to: the comma-separated fields are
/// the device name, the driver version and the memory size, each trimmed;
/// fewer than three fields is a parse failure.
pub open spec fn spec_parse_nvidia(info: Seq<char>, cuda_available: bool) -> Option<GpuTypeView> {
    let parts = text::spec_split(info, ',');
    if parts.len() >= 3 {
        Some(
            GpuTypeView::Nvidia {
                name: text::spec_trim(parts[0]),
                driver_version: text::spec_trim(parts[1]),
                memory: text::spec_trim(parts[2]),
                cuda_available,
            },
        )
    } else {
        None
    }
}

/// Parse the output of the NVIDIA device query (one CSV line without a
/// header: name, driver version, total memory).
pub fn parse_nvidia_smi(info: &str, cuda_available: bool) -> (r: Option<GpuType>)
    ensures
        match r {
            Some(g) => spec_parse_nvidia(info@, cuda_available) == Some(g@),
            None => spec_parse_nvidia(info@, cuda_available) is None,
        },
{
    let parts = text::split_char(info, ',');
    if parts.len() >= 3 {
        proof {
            assert(parts.deep_view()[0] == parts@[0]@);
            assert(parts.deep_view()[1] == parts@[1]@);
            assert(parts.deep_view()[2] == parts@[2]@);
        }
        Some(
            GpuType::Nvidia {
                name: String::from_str(text::trim_str(parts[0].as_str())),
                driver_version: String::from_str(text::trim_str(parts[1].as_str())),
                memory: String::from_str(text::trim_str(parts[2].as_str())),
                cuda_available,
            },
        )
    } else {
        None
    }
}

/// What the display profile parses to: the first line naming the chipset
/// model gives the device (what follows the first colon, trimmed; an
/// absent value reads as unknown), and the architecture is Apple Silicon
/// exactly when the device name says Apple.
pub open spec fn spec_parse_metal(info: Seq<char>) -> Option<GpuTypeView> {
    match text::first_line_with(text::spec_split(info, '\n'), "Chipset Model:"@) {
        Some(line) => {
            let cols = text::spec_split(line, ':');
            let device = if cols.len() >= 2 {
                text::spec_trim(cols[1])
            } else {
                "Unknown"@
            };
            let architecture = if text::spec_contains(device, "Apple"@) {
                "Apple Silicon"@
            } else {
                "Intel"@
            };
            Some(GpuTypeView::Metal { device_name: device, architecture })
        },
        None => None,
    }
}

/// Parse the display-profile listing for a Metal GPU.
pub fn parse_metal_profile(info: &str) -> (r: Option<GpuType>)
    ensures
        match r {
            Some(g) => spec_parse_metal(info@) == Some(g@),
            None => spec_parse_metal(info@) is None,
        },
{
    let lines = text::split_char(info, '\n');
    let ghost lv = lines.deep_view();
    let mut i: usize = 0;
    while i < lines.len()
        invariant
            i <= lines.len(),
            lv == lines.deep_view(),
            lv == text::spec_split(info@, '\n'),
            forall|j: int| 0 <= j < i ==> !text::spec_contains(#[trigger] lv[j], "Chipset Model:"@),
        decreases lines.len() - i,
    {
        let line: &str = lines[i].as_str();
        proof {
            assert(lv[i as int] == lines@[i as int]@);
        }
        if text::contains_str(line, "Chipset Model:") {
            proof {
                text::lemma_first_line_skip(lv, "Chipset Model:"@, i as int);
                assert(lv.skip(i as int)[0] == lv[i as int]);
                assert(lv.skip(i as int).len() > 0);
                assert(text::first_line_with(lv.skip(i as int), "Chipset Model:"@) == Some(
                    lv[i as int],
                ));
            }
            let cols = text::split_char(line, ':');
            let device: String = if cols.len() >= 2 {
                proof {
                    assert(cols.deep_view()[1] == cols@[1]@);
                }
                String::from_str(text::trim_str(cols[1].as_str()))
            } else {
                String::from_str("Unknown")
            };
            let architecture: String = if text::contains_str(device.as_str(), "Apple") {
                String::from_str("Apple Silicon")
            } else {
                String::from_str("Intel")
            };
            return Some(GpuType::Metal { device_name: device, architecture });
        }
        i += 1;
    }
    proof {
        text::lemma_first_line_skip(lv, "Chipset Model:"@, i as int);
        assert(lv.skip(i as int).len() == 0);
    }
    None
}

/// What the GPU probes decide: a successful NVIDIA query wins; else the
/// display profile may name a Metal device; else no GPU acceleration.
pub open spec fn spec_classify(
    nvidia_info: Option<Seq<char>>,
    cuda_available: bool,
    profile_info: Option<Seq<char>>,
) -> GpuTypeView {
    let metal = match profile_info {
        Some(p) => match spec_parse_metal(p) {
            Some(g) => g,
            None => GpuTypeView::NoGpu,
        },
        None => GpuTypeView::NoGpu,
    };
    match nvidia_info {
        Some(i) => match spec_parse_nvidia(i, cuda_available) {
            Some(g) => g,
            None => metal,
        },
        None => metal,
    }
}

/// Decide the host's GPU from the probes' captured output: `nvidia_info`
/// from a successful NVIDIA device query, `profile_info` from the display
/// profiler on macOS hosts.
pub fn classify_gpu(
    nvidia_info: Option<&str>,
    cuda_available: bool,
    profile_info: Option<&str>,
) -> (r: GpuType)
    ensures
        r@ == spec_classify(
            match nvidia_info {
                Some(i) => Some(i@),
                None => None,
            },
            cuda_available,
            match profile_info {
                Some(p) => Some(p@),
                None => None,
            },
        ),
{
    if let Some(info) = nvidia_info {
        if let Some(g) = parse_nvidia_smi(info, cuda_available) {
            return g;
        }
    }
    if let Some(p) = profile_info {
        if let Some(g) = parse_metal_profile(p) {
            return g;
        }
    }
    GpuType::NoGpu
}

} // verus!
