//! Browser engine switches chosen by GPU vendor, and how the vendor is read
//! from what the system reports.

use vstd::prelude::*;
use crate::json::str_eq;

verus! {

#[derive(Debug, Clone, Copy, PartialEq, Eq, Structural)]
pub enum GpuVendor {
    Intel,
    Nvidia,
    Amd,
    Unknown,
}

/// What `str::to_lowercase` makes of a text.
pub uninterp spec fn lower_of(s: Seq<char>) -> Seq<char>;

/// Relies on str::to_lowercase: the result depends on the characters alone.
#[verifier::external_body]
fn lowercase(s: &str) -> (r: String)
    ensures
        r@ == lower_of(s@),
{
    s.to_lowercase()
}

/// Whether `needle` occurs in `hay`.
pub open spec fn has(hay: Seq<char>, needle: Seq<char>) -> bool {
    exists|i: int| 0 <= i && i + needle.len() <= hay.len() && #[trigger] hay.subrange(i, i + needle.len()) == needle
}

/// Relies on str::contains: true when `needle` matches a sub-slice of `hay`.
#[verifier::external_body]
fn contains(hay: &str, needle: &str) -> (r: bool)
    ensures
        r == has(hay@, needle@),
{
    hay.contains(needle)
}

/// The vendor a lower-case line of the PCI device list names, when the line
/// describes a display controller.
pub open spec fn line_vendor(l: Seq<char>) -> Option<GpuVendor> {
    if has(l, "vga"@) || has(l, "3d"@) || has(l, "display"@) {
        if has(l, "intel"@) {
            Some(GpuVendor::Intel)
        } else if has(l, "nvidia"@) {
            Some(GpuVendor::Nvidia)
        } else if has(l, "amd"@) || has(l, "ati"@) {
            Some(GpuVendor::Amd)
        } else {
            None
        }
    } else {
        None
    }
}

/// The vendor named by one line of the PCI device list.
pub fn vendor_from_pci_line(line: &str) -> (r: Option<GpuVendor>)
    ensures
        r == line_vendor(lower_of(line@)),
{
    let l = lowercase(line);
    let l = l.as_str();
    if contains(l, "vga") || contains(l, "3d") || contains(l, "display") {
        if contains(l, "intel") {
            Some(GpuVendor::Intel)
        } else if contains(l, "nvidia") {
            Some(GpuVendor::Nvidia)
        } else if contains(l, "amd") || contains(l, "ati") {
            Some(GpuVendor::Amd)
        } else {
            None
        }
    } else {
        None
    }
}

pub open spec fn pci_id_vendor(id: Seq<char>) -> GpuVendor {
    if id == "0x8086"@ {
        GpuVendor::Intel
    } else if id == "0x10de"@ {
        GpuVendor::Nvidia
    } else if id == "0x1002"@ {
        GpuVendor::Amd
    } else {
        GpuVendor::Unknown
    }
}

/// The vendor of a PCI vendor id as the kernel writes it (`0x8086`).
pub fn vendor_from_pci_id(id: &str) -> (r: GpuVendor)
    ensures
        r == pci_id_vendor(id@),
{
    if str_eq(id, "0x8086") {
        GpuVendor::Intel
    } else if str_eq(id, "0x10de") {
        GpuVendor::Nvidia
    } else if str_eq(id, "0x1002") {
        GpuVendor::Amd
    } else {
        GpuVendor::Unknown
    }
}

/// Whether a DRM device entry is a card itself (`card0`), not one of its
/// connectors (`card0-DP-1`).
pub open spec fn is_card_entry_spec(name: Seq<char>) -> bool {
    name.len() >= 4 && name.subrange(0, 4) == "card"@ && !name.contains('-')
}

pub fn is_card_entry(name: &str) -> (r: bool)
    ensures
        r == is_card_entry_spec(name@),
{
    let n = name.unicode_len();
    if n < 4 || !str_eq(name.substring_char(0, 4), "card") {
        return false;
    }
    let mut i: usize = 0;
    while i < n
        invariant
            n == name@.len(),
            i <= n,
            forall|k: int| 0 <= k < i ==> name@[k] != '-',
        decreases n - i,
    {
        if name.get_char(i) == '-' {
            return false;
        }
        i = i + 1;
    }
    true
}

pub open spec fn base_switches() -> Seq<Seq<char>> {
    seq![
        "disable-background-networking"@,
        "disable-component-update"@,
        "disable-sync"@,
        "disable-notifications"@,
        "disable-default-apps"@,
    ]
}

/// The browser engine switches for a GPU vendor: the common ones, then the
/// vendor's own.
pub open spec fn switches_spec(vendor: GpuVendor) -> Seq<Seq<char>> {
    base_switches() + match vendor {
        GpuVendor::Intel => seq![
            "disable-cuda"@,
            "enable-features=VaapiVideoDecoder,VaapiVideoEncoder,VaapiIgnoreDriverChecks"@,
            "enable-gpu-rasterization"@,
            "enable-zero-copy"@,
        ],
        GpuVendor::Nvidia => seq![
            "enable-gpu-rasterization"@,
            "enable-features=VaapiVideoDecoder"@,
        ],
        GpuVendor::Amd => seq![
            "disable-cuda"@,
            "enable-features=VaapiVideoDecoder,VaapiVideoEncoder"@,
            "enable-gpu-rasterization"@,
        ],
        GpuVendor::Unknown => seq![
            "disable-cuda"@,
            "enable-gpu-rasterization"@,
        ],
    }
}

pub fn get_gpu_switches(vendor: GpuVendor) -> (r: Vec<&'static str>)
    ensures
        r@.map_values(|s: &'static str| s@) == switches_spec(vendor),
{
    let mut switches: Vec<&'static str> = Vec::new();
    switches.push("disable-background-networking");
    switches.push("disable-component-update");
    switches.push("disable-sync");
    switches.push("disable-notifications");
    switches.push("disable-default-apps");
    match vendor {
        GpuVendor::Intel => {
            switches.push("disable-cuda");
            switches.push("enable-features=VaapiVideoDecoder,VaapiVideoEncoder,VaapiIgnoreDriverChecks");
            switches.push("enable-gpu-rasterization");
            switches.push("enable-zero-copy");
        },
        GpuVendor::Nvidia => {
            switches.push("enable-gpu-rasterization");
            switches.push("enable-features=VaapiVideoDecoder");
        },
        GpuVendor::Amd => {
            switches.push("disable-cuda");
            switches.push("enable-features=VaapiVideoDecoder,VaapiVideoEncoder");
            switches.push("enable-gpu-rasterization");
        },
        GpuVendor::Unknown => {
            switches.push("disable-cuda");
            switches.push("enable-gpu-rasterization");
        },
    }
    assert(switches@.map_values(|s: &'static str| s@) =~= switches_spec(vendor));
    switches
}

} // verus!
