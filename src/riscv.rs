use vstd::prelude::*;

use crate::cpuinfo::{last_field, last_field_value, value_of};
use crate::features::{CpuFeatures, InstructionSet};
use crate::leaf::{bit_set, lemma_zero_has_no_bit, set_bit};
use crate::text::{all_ascii, ascii_chars, lossy_utf8, trim_text, trimmed_text};
use vstd::utf8::encode_utf8;

verus! {

/// What a RISC-V processor reports.
#[derive(Debug, Clone)]
pub struct RiscVCpuInfo {
    /// Vendor, e.g. "SiFive".
    pub vendor: String,
    /// ISA string.
    pub brand: String,
    /// Capability flags.
    pub features: CpuFeatures,
    /// Number of cores.
    pub cores: u32,
    /// Threads per core.
    pub threads_per_core: u32,
}

/// "vendor\t:": the label of the vendor line.
pub open spec fn vendor_label() -> Seq<u8> {
    seq![118u8, 101, 110, 100, 111, 114, 9, 58]
}

/// "isa\t:": the label of the ISA line.
pub open spec fn isa_label() -> Seq<u8> {
    seq![105u8, 115, 97, 9, 58]
}

/// The vendor field in a cpuinfo text: the value of its last vendor line,
/// empty where there is none.
pub open spec fn spec_riscv_vendor(t: Seq<u8>) -> Seq<u8> {
    value_of(last_field(t, vendor_label()))
}

/// The ISA field in a cpuinfo text: the value of its last ISA line, empty
/// where there is none.
pub open spec fn spec_isa(t: Seq<u8>) -> Seq<u8> {
    value_of(last_field(t, isa_label()))
}

/// Whether `b` separates the tokens of an ISA string: an underscore or a "v".
pub open spec fn is_isa_separator(b: u8) -> bool {
    b == 95 || b == 118
}

/// Whether the ISA string `isa`, cut at underscores and at every "v", has a
/// token that is the single letter `letter`.
pub open spec fn has_token(isa: Seq<u8>, letter: u8) -> bool {
    exists|k: int|
        0 <= k < isa.len() && #[trigger] isa[k] == letter && (k == 0 || is_isa_separator(
            isa[k - 1],
        )) && (k + 1 == isa.len() || is_isa_separator(isa[k + 1]))
}

/// The ISA letter of each RISC-V flag.
pub open spec fn isa_letter(f: InstructionSet) -> Option<u8> {
    match f {
        InstructionSet::RvI => Some(105u8),
        InstructionSet::RvM => Some(109u8),
        InstructionSet::RvA => Some(97u8),
        InstructionSet::RvF => Some(102u8),
        InstructionSet::RvD => Some(100u8),
        InstructionSet::RvC => Some(99u8),
        _ => None,
    }
}

/// Whether the ISA string reports flag `f`.
pub open spec fn isa_reports(isa: Seq<u8>, f: InstructionSet) -> bool {
    match isa_letter(f) {
        Some(c) => has_token(isa, c),
        None => false,
    }
}

fn separator(b: u8) -> (r: bool)
    ensures
        r == is_isa_separator(b),
{
    b == 95 || b == 118
}

/// Whether `isa` has the single-letter token `letter`.
fn find_token(isa: &[u8], letter: u8) -> (r: bool)
    ensures
        r == has_token(isa@, letter),
{
    let n = isa.len();
    let mut k: usize = 0;
    while k < n
        invariant
            n == isa@.len(),
            k <= n,
            forall|j: int|
                0 <= j < k ==> !(#[trigger] isa@[j] == letter && (j == 0 || is_isa_separator(
                    isa@[j - 1],
                )) && (j + 1 == n || is_isa_separator(isa@[j + 1]))),
        decreases n - k,
    {
        if isa[k] == letter && (k == 0 || separator(isa[k - 1])) && (k + 1 == n || separator(
            isa[k + 1],
        )) {
            return true;
        }
        k = k + 1;
    }
    false
}

/// The capability flags that the ISA string reports.
pub fn isa_features(isa: &[u8]) -> (r: CpuFeatures)
    ensures
        forall|f: InstructionSet| #[trigger] r.has(f) == isa_reports(isa@, f),
{
    let letters: [u8; 6] = [105u8, 109, 97, 102, 100, 99];
    let ghost ls = seq![105u8, 109, 97, 102, 100, 99];
    assert(letters@ == ls);
    let mut b: u32 = 0;
    let mut k: usize = 0;
    proof {
        assert forall|i: u32| i < 32 implies !#[trigger] bit_set(0, i) by {
            lemma_zero_has_no_bit(i);
        }
    }
    while k < 6
        invariant
            k <= 6,
            letters@ == ls,
            forall|i: u32|
                i < 32 ==> #[trigger] bit_set(b, i) == (8 <= i < 8 + k && has_token(
                    isa@,
                    ls[i - 8],
                )),
        decreases 6 - k,
    {
        if find_token(isa, letters[k]) {
            b = set_bit(b, 8 + k as u32);
        }
        k = k + 1;
    }
    let r = CpuFeatures::from_platform_bits(b);
    assert forall|f: InstructionSet| #[trigger] r.has(f) == isa_reports(isa@, f) by {
        crate::features::lemma_location_in_word(f);
    }
    r
}

/// Reads the vendor and the ISA string from the text of the operating
/// system's cpuinfo file; each is empty where the text has no such line.
pub fn parse_cpuinfo(text: &[u8]) -> (r: (Vec<u8>, Vec<u8>))
    ensures
        r.0@ == spec_riscv_vendor(text@),
        r.1@ == spec_isa(text@),
{
    let vendor_l: Vec<u8> = vec![118u8, 101, 110, 100, 111, 114, 9, 58];
    let isa_l: Vec<u8> = vec![105u8, 115, 97, 9, 58];
    assert(vendor_l@ == vendor_label());
    assert(isa_l@ == isa_label());
    let vendor = match last_field_value(text, vendor_l.as_slice()) {
        Some((_, v)) => v,
        None => Vec::new(),
    };
    let isa = match last_field_value(text, isa_l.as_slice()) {
        Some((_, v)) => v,
        None => Vec::new(),
    };
    (vendor, isa)
}

/// The information of a RISC-V processor, from the text of the cpuinfo file
/// and the number of processors online. The vendor and the ISA string are
/// taken without white space at either end, and the flags are read from the
/// ISA string so trimmed.
pub fn info_from_cpuinfo(text: &[u8], cores: u32) -> (r: RiscVCpuInfo)
    ensures
        r.vendor@ == trim_text(lossy_utf8(spec_riscv_vendor(text@))),
        r.brand@ == trim_text(lossy_utf8(spec_isa(text@))),
        all_ascii(spec_riscv_vendor(text@)) ==> r.vendor@ == trim_text(
            ascii_chars(spec_riscv_vendor(text@)),
        ),
        all_ascii(spec_isa(text@)) ==> r.brand@ == trim_text(ascii_chars(spec_isa(text@))),
        forall|f: InstructionSet| #[trigger]
            r.features.has(f) == isa_reports(encode_utf8(r.brand@), f),
        r.cores == cores,
        r.threads_per_core == 1,
{
    let (vendor, isa) = parse_cpuinfo(text);
    let brand = trimmed_text(isa.as_slice());
    let features = isa_features(brand.as_str().as_bytes());
    RiscVCpuInfo { vendor: trimmed_text(vendor.as_slice()), brand, features, cores, threads_per_core: 1 }
}

} // verus!

verus! {

/// The bit of the `misa` register that reports each RISC-V flag.
pub open spec fn misa_bit(f: InstructionSet) -> Option<u64> {
    match f {
        InstructionSet::RvI => Some(0u64),
        InstructionSet::RvM => Some(1u64),
        InstructionSet::RvA => Some(2u64),
        InstructionSet::RvF => Some(3u64),
        InstructionSet::RvD => Some(4u64),
        InstructionSet::RvC => Some(8u64),
        _ => None,
    }
}

/// Whether the `misa` register value reports flag `f`.
pub open spec fn misa_reports(misa: u64, f: InstructionSet) -> bool {
    match misa_bit(f) {
        Some(k) => (misa >> k) & 1 == 1,
        None => false,
    }
}

/// The capability flags that the `misa` register value reports, where no
/// cpuinfo file can be read.
pub fn features_from_misa(misa: u64) -> (r: CpuFeatures)
    ensures
        forall|f: InstructionSet| #[trigger] r.has(f) == misa_reports(misa, f),
{
    let positions: [u64; 6] = [0, 1, 2, 3, 4, 8];
    let ghost ps = seq![0u64, 1, 2, 3, 4, 8];
    assert(positions@ == ps);
    assert(ps[0] == 0 && ps[1] == 1 && ps[2] == 2 && ps[3] == 3 && ps[4] == 4 && ps[5] == 8);
    let mut b: u32 = 0;
    let mut k: usize = 0;
    proof {
        assert forall|i: u32| i < 32 implies !#[trigger] bit_set(0, i) by {
            lemma_zero_has_no_bit(i);
        }
    }
    while k < 6
        invariant
            k <= 6,
            positions@ == ps,
            forall|j: int| 0 <= j < 6 ==> #[trigger] ps[j] <= 8,
            forall|i: u32|
                i < 32 ==> #[trigger] bit_set(b, i) == (8 <= i < 8 + k && (misa >> ps[i - 8]) & 1
                    == 1),
        decreases 6 - k,
    {
        if (misa >> positions[k]) & 1 == 1 {
            b = set_bit(b, 8 + k as u32);
        }
        k = k + 1;
    }
    let r = CpuFeatures::from_platform_bits(b);
    assert forall|f: InstructionSet| #[trigger] r.has(f) == misa_reports(misa, f) by {
        crate::features::lemma_location_in_word(f);
    }
    r
}

} // verus!
