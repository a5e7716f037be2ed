use vstd::prelude::*;

use crate::cpuinfo::{last_field, last_field_value, pos_of, value_of};
use crate::features::{CpuFeatures, InstructionSet};
use crate::leaf::{bit_set, lemma_zero_has_no_bit, set_bit};
use crate::text::{all_ascii, ascii_chars, lossy_utf8, trim_text, trimmed_text};

verus! {

/// What an ARM processor reports.
#[derive(Debug, Clone)]
pub struct ArmCpuInfo {
    /// Vendor, e.g. "ARM" or "Apple".
    pub vendor: String,
    /// Model name, e.g. "Cortex-A72".
    pub brand: String,
    /// Capability flags.
    pub features: CpuFeatures,
    /// Number of cores.
    pub cores: u32,
    /// Threads per core.
    pub threads_per_core: u32,
}

/// "Hardware": the label of the vendor line.
pub open spec fn hardware_label() -> Seq<u8> {
    seq![72u8, 97, 114, 100, 119, 97, 114, 101]
}

/// "model name": a label of the model line.
pub open spec fn model_name_label() -> Seq<u8> {
    seq![109u8, 111, 100, 101, 108, 32, 110, 97, 109, 101]
}

/// "Processor": a label of the model line.
pub open spec fn processor_label() -> Seq<u8> {
    seq![80u8, 114, 111, 99, 101, 115, 115, 111, 114]
}

/// The vendor field in a cpuinfo text: the value of its last "Hardware" line,
/// empty where there is none.
pub open spec fn spec_arm_vendor(t: Seq<u8>) -> Seq<u8> {
    value_of(last_field(t, hardware_label()))
}

/// The model field in a cpuinfo text: the value of its last "model name" or
/// "Processor" line, empty where there is none.
pub open spec fn spec_arm_brand(t: Seq<u8>) -> Seq<u8> {
    let a = last_field(t, model_name_label());
    let b = last_field(t, processor_label());
    if pos_of(a) >= pos_of(b) {
        value_of(a)
    } else {
        value_of(b)
    }
}

/// Reads the vendor and the model from the text of the operating system's
/// cpuinfo file, each without white space at either end; each is empty where
/// the text has no such line.
pub fn parse_cpuinfo(text: &[u8]) -> (r: (String, String))
    ensures
        r.0@ == trim_text(lossy_utf8(spec_arm_vendor(text@))),
        r.1@ == trim_text(lossy_utf8(spec_arm_brand(text@))),
        all_ascii(spec_arm_vendor(text@)) ==> r.0@ == trim_text(ascii_chars(spec_arm_vendor(text@))),
        all_ascii(spec_arm_brand(text@)) ==> r.1@ == trim_text(ascii_chars(spec_arm_brand(text@))),
{
    let hardware: Vec<u8> = vec![72u8, 97, 114, 100, 119, 97, 114, 101];
    let model: Vec<u8> = vec![109u8, 111, 100, 101, 108, 32, 110, 97, 109, 101];
    let processor: Vec<u8> = vec![80u8, 114, 111, 99, 101, 115, 115, 111, 114];
    assert(hardware@ == hardware_label());
    assert(model@ == model_name_label());
    assert(processor@ == processor_label());
    let vendor = match last_field_value(text, hardware.as_slice()) {
        Some((_, v)) => v,
        None => Vec::new(),
    };
    let a = last_field_value(text, model.as_slice());
    let b = last_field_value(text, processor.as_slice());
    let brand = match (a, b) {
        (Some((pa, va)), Some((pb, vb))) => if pa >= pb {
            va
        } else {
            vb
        },
        (Some((_, va)), None) => va,
        (None, Some((_, vb))) => vb,
        (None, None) => Vec::new(),
    };
    (trimmed_text(vendor.as_slice()), trimmed_text(brand.as_slice()))
}

/// Whether the hardware-capability word `hwcap` reports flag `f`, where
/// `masks` gives the operating system's bits for NEON, AES, PMULL, SHA1,
/// SHA2 and CRC32, in that order.
pub open spec fn hwcap_reports(hwcap: u64, masks: Seq<u64>, f: InstructionSet) -> bool {
    match f {
        InstructionSet::NEON => hwcap & masks[0] != 0,
        InstructionSet::ArmAes => hwcap & masks[1] != 0,
        InstructionSet::PMULL => hwcap & masks[2] != 0,
        InstructionSet::SHA1 => hwcap & masks[3] != 0,
        InstructionSet::SHA2 => hwcap & masks[4] != 0,
        InstructionSet::CRC32 => hwcap & masks[5] != 0,
        _ => false,
    }
}

/// The capability flags that the hardware-capability word `hwcap` reports.
pub fn features_from_hwcap(hwcap: u64, masks: &[u64; 6]) -> (r: CpuFeatures)
    ensures
        forall|f: InstructionSet| #[trigger] r.has(f) == hwcap_reports(hwcap, masks@, f),
{
    let mut b: u32 = 0;
    let mut k: usize = 0;
    proof {
        assert forall|i: u32| i < 32 implies !#[trigger] bit_set(0, i) by {
            lemma_zero_has_no_bit(i);
        }
    }
    while k < 6
        invariant
            k <= 6,
            forall|i: u32|
                i < 32 ==> #[trigger] bit_set(b, i) == (i < k && hwcap & masks@[i as int] != 0),
        decreases 6 - k,
    {
        if hwcap & masks[k] != 0 {
            b = set_bit(b, k as u32);
        }
        k = k + 1;
    }
    let r = CpuFeatures::from_platform_bits(b);
    assert forall|f: InstructionSet| #[trigger] r.has(f) == hwcap_reports(hwcap, masks@, f) by {
        crate::features::lemma_location_in_word(f);
    }
    r
}

/// The information of an ARM processor, from the text of the cpuinfo file,
/// the hardware-capability word and the number of processors online.
pub fn info_from_cpuinfo(text: &[u8], hwcap: u64, masks: &[u64; 6], cores: u32) -> (r: ArmCpuInfo)
    ensures
        r.vendor@ == trim_text(lossy_utf8(spec_arm_vendor(text@))),
        r.brand@ == trim_text(lossy_utf8(spec_arm_brand(text@))),
        all_ascii(spec_arm_vendor(text@)) ==> r.vendor@ == trim_text(
            ascii_chars(spec_arm_vendor(text@)),
        ),
        all_ascii(spec_arm_brand(text@)) ==> r.brand@ == trim_text(
            ascii_chars(spec_arm_brand(text@)),
        ),
        forall|f: InstructionSet| #[trigger] r.features.has(f) == hwcap_reports(hwcap, masks@, f),
        r.cores == cores,
        r.threads_per_core == 1,
{
    let (vendor, brand) = parse_cpuinfo(text);
    let features = features_from_hwcap(hwcap, masks);
    ArmCpuInfo { vendor, brand, features, cores, threads_per_core: 1 }
}

} // verus!
