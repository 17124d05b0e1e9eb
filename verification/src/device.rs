//! Device identities and their static capability queries.

use crate::driver::Driver;
use vstd::prelude::*;
use vstd::string::StringExecFns;

verus! {

/// Identifies one physical accelerator by index. A plain identity, freely
/// copied; no validation happens at construction — an out-of-range index
/// is only rejected when a query or a context creation is attempted.
#[derive(Clone, Copy, PartialEq, Eq, Structural, Hash, Debug)]
pub struct Device(pub u32);

/// A static capability a device can be asked for.
#[derive(Clone, Copy, PartialEq, Eq, Structural)]
pub enum DevInfo {
    /// Number of AI cores.
    AiCoreNum,
    /// Number of vector cores.
    VectorCoreNum,
    /// Level-2 cache size in bytes.
    L2Size,
}

/// The decimal digit character for `d`.
pub open spec fn dec_digit(d: int) -> char {
    ((48 + d) as u8) as char
}

/// The canonical base-10 rendering of a non-negative number: no sign, no
/// leading zeros.
pub open spec fn dec_spec(x: int) -> Seq<char>
    decreases x,
{
    if x < 10 {
        seq![dec_digit(x)]
    } else {
        dec_spec(x / 10).push(dec_digit(x % 10))
    }
}

/// Relies on std's `Display` implementation for `u64`: the canonical
/// base-10 rendering, without sign, padding or leading zeros.
#[verifier::external_body]
fn fmt_u64(x: u64) -> (r: String)
    ensures
        r@ == dec_spec(x as int),
{
    format!("{x}")
}

impl Device {
    /// Number of physical accelerators visible to the process. Zero is a
    /// valid answer — no accelerator present — and callers must handle it
    /// rather than treat it as an error.
    pub fn count(rt: &Driver) -> (n: usize)
        requires
            rt.wf(),
            rt.inited,
        ensures
            n == rt.devs@.len(),
    {
        rt.devs.len()
    }

    /// A device identity for `index`. No validation against `count`
    /// happens here; it is deferred to first use.
    pub fn new(index: u32) -> (d: Device)
        ensures
            d == (Device(index)),
    {
        Device(index)
    }

    /// The first device, if any accelerator is present at all.
    pub fn fetch(rt: &Driver) -> (d: Option<Device>)
        requires
            rt.wf(),
            rt.inited,
        ensures
            rt.devs@.len() > 0 ==> d == Some(Device(0)),
            rt.devs@.len() == 0 ==> d is None,
    {
        if Self::count(rt) > 0 {
            Some(Self::new(0))
        } else {
            None
        }
    }

    /// The device's index, the raw handle the native layer works with.
    pub fn as_raw(&self) -> (r: u32)
        ensures
            r == self.0,
    {
        self.0
    }

    /// The device's SoC name, from the native capability tables.
    pub fn name(&self, rt: &Driver) -> (r: String)
        requires
            rt.wf(),
            rt.inited,
            self.0 < rt.devs@.len(),
        ensures
            r@ == rt.devs@[self.0 as int].soc_name@,
    {
        rt.devs[self.0 as usize].soc_name.clone()
    }

    /// One native capability query. Propagates nothing recoverable: an
    /// invalid device index is a caller error, excluded up front.
    fn get(&self, rt: &Driver, device_info: DevInfo) -> (r: i64)
        requires
            rt.wf(),
            rt.inited,
            self.0 < rt.devs@.len(),
        ensures
            r as int == match device_info {
                DevInfo::AiCoreNum => rt.devs@[self.0 as int].ai_core as int,
                DevInfo::VectorCoreNum => rt.devs@[self.0 as int].vector_core as int,
                DevInfo::L2Size => rt.devs@[self.0 as int].l2_cache as int,
            },
    {
        let p = &rt.devs[self.0 as usize];
        match device_info {
            DevInfo::AiCoreNum => p.ai_core as i64,
            DevInfo::VectorCoreNum => p.vector_core as i64,
            DevInfo::L2Size => p.l2_cache as i64,
        }
    }

    /// Number of AI cores on this device.
    pub fn ai_core(&self, rt: &Driver) -> (r: usize)
        requires
            rt.wf(),
            rt.inited,
            self.0 < rt.devs@.len(),
        ensures
            r == rt.devs@[self.0 as int].ai_core,
    {
        self.get(rt, DevInfo::AiCoreNum) as usize
    }

    /// Number of vector cores on this device.
    pub fn vector_core(&self, rt: &Driver) -> (r: usize)
        requires
            rt.wf(),
            rt.inited,
            self.0 < rt.devs@.len(),
        ensures
            r == rt.devs@[self.0 as int].vector_core,
    {
        self.get(rt, DevInfo::VectorCoreNum) as usize
    }

    /// The size of this device's level-2 cache.
    pub fn l2_cache(&self, rt: &Driver) -> (r: MemSize)
        requires
            rt.wf(),
            rt.inited,
            self.0 < rt.devs@.len(),
        ensures
            r == (MemSize(rt.devs@[self.0 as int].l2_cache as u64)),
    {
        MemSize(self.get(rt, DevInfo::L2Size) as u64)
    }
}

/// A byte count presented with the largest power-of-two unit that divides
/// it exactly.
#[derive(Clone, Copy, PartialEq, Eq, Structural, Hash, Debug)]
pub struct MemSize(pub u64);

/// How a byte count is presented: the number shifted down by the largest
/// unit (TiB, GiB, MiB, KiB) that divides it exactly, then the unit's
/// suffix; zero is plain `0`.
pub open spec fn mem_size_spec(v: u64) -> Seq<char> {
    if v == 0 {
        seq!['0']
    } else if v % 0x10000000000 == 0 {
        dec_spec((v >> 40) as int) + seq!['T', 'i', 'B']
    } else if v % 0x40000000 == 0 {
        dec_spec((v >> 30) as int) + seq!['G', 'i', 'B']
    } else if v % 0x100000 == 0 {
        dec_spec((v >> 20) as int) + seq!['M', 'i', 'B']
    } else if v % 0x400 == 0 {
        dec_spec((v >> 10) as int) + seq!['K', 'i', 'B']
    } else {
        dec_spec(v as int) + seq!['B']
    }
}

impl MemSize {
    /// Renders the size, choosing the largest binary unit that divides it
    /// exactly.
    pub fn to_text(&self) -> (r: String)
        ensures
            r@ == mem_size_spec(self.0),
    {
        let v = self.0;
        if v == 0 {
            let r = String::from_str("0");
            proof {
                reveal_strlit("0");
                assert(r@ =~= seq!['0']);
            }
            r
        } else if v % 0x10000000000 == 0 {
            let r = fmt_u64(v >> 40).concat("TiB");
            proof {
                reveal_strlit("TiB");
                assert(r@ =~= dec_spec((v >> 40) as int) + seq!['T', 'i', 'B']);
            }
            r
        } else if v % 0x40000000 == 0 {
            let r = fmt_u64(v >> 30).concat("GiB");
            proof {
                reveal_strlit("GiB");
                assert(r@ =~= dec_spec((v >> 30) as int) + seq!['G', 'i', 'B']);
            }
            r
        } else if v % 0x100000 == 0 {
            let r = fmt_u64(v >> 20).concat("MiB");
            proof {
                reveal_strlit("MiB");
                assert(r@ =~= dec_spec((v >> 20) as int) + seq!['M', 'i', 'B']);
            }
            r
        } else if v % 0x400 == 0 {
            let r = fmt_u64(v >> 10).concat("KiB");
            proof {
                reveal_strlit("KiB");
                assert(r@ =~= dec_spec((v >> 10) as int) + seq!['K', 'i', 'B']);
            }
            r
        } else {
            let r = fmt_u64(v).concat("B");
            proof {
                reveal_strlit("B");
                assert(r@ =~= dec_spec(v as int) + seq!['B']);
            }
            r
        }
    }
}

impl From<usize> for MemSize {
    fn from(value: usize) -> (r: MemSize) {
        MemSize(value as u64)
    }
}

impl vstd::std_specs::convert::FromSpecImpl<usize> for MemSize {
    open spec fn obeys_from_spec() -> bool {
        true
    }

    open spec fn from_spec(value: usize) -> MemSize {
        MemSize(value as u64)
    }
}

/// The rendered capability summary of one device.
pub open spec fn info_spec(index: int, name: Seq<char>, ai: int, vector: int, l2: u64) -> Seq<
    char,
> {
    seq!['D', 'e', 'v'] + dec_spec(index) + seq![':', ' '] + name + seq!['\n', ' ', ' ', 'A', 'I', ' ', 'C', 'o', 'r', 'e', ':', ' ']
        + dec_spec(ai) + seq!['\n', ' ', ' ', 'V', 'e', 'c', 't', 'o', 'r', ' ', 'C', 'o', 'r', 'e', ':', ' ']
        + dec_spec(vector) + seq!['\n', ' ', ' ', 'L', '2', ' ', 'C', 'a', 'c', 'h', 'e', ':', ' ']
        + mem_size_spec(l2) + seq!['\n']
}

/// A device's capability summary, rendered once at construction.
pub struct InfoFmt {
    text: String,
    /// What the text renders: device index, SoC name and capabilities.
    source: Ghost<(int, Seq<char>, int, int, u64)>,
}

impl InfoFmt {
    /// The rendered summary text.
    pub closed spec fn spec_text(&self) -> Seq<char> {
        self.text@
    }

    /// The rendered summary is the canonical device summary of what it
    /// was built from.
    pub closed spec fn wf(&self) -> bool {
        self.text@ == info_spec(
            self.source@.0,
            self.source@.1,
            self.source@.2,
            self.source@.3,
            self.source@.4,
        )
    }

    /// The rendered summary text.
    pub fn text(&self) -> (r: &String)
        ensures
            r@ == self.spec_text(),
    {
        &self.text
    }
}

impl Device {
    /// Renders this device's capability summary: its index and SoC name,
    /// then one line per capability.
    pub fn info(&self, rt: &Driver) -> (r: InfoFmt)
        requires
            rt.wf(),
            rt.inited,
            self.0 < rt.devs@.len(),
        ensures
            r.wf(),
            r.spec_text() == info_spec(
                self.0 as int,
                rt.devs@[self.0 as int].soc_name@,
                rt.devs@[self.0 as int].ai_core as int,
                rt.devs@[self.0 as int].vector_core as int,
                rt.devs@[self.0 as int].l2_cache as u64,
            ),
    {
        let mut text = String::from_str("Dev");
        text.append(fmt_u64(self.0 as u64).as_str());
        text.append(": ");
        text.append(self.name(rt).as_str());
        text.append("\n  AI Core: ");
        text.append(fmt_u64(self.ai_core(rt) as u64).as_str());
        text.append("\n  Vector Core: ");
        text.append(fmt_u64(self.vector_core(rt) as u64).as_str());
        text.append("\n  L2 Cache: ");
        text.append(self.l2_cache(rt).to_text().as_str());
        text.append("\n");
        proof {
            reveal_strlit("Dev");
            reveal_strlit(": ");
            reveal_strlit("\n  AI Core: ");
            reveal_strlit("\n  Vector Core: ");
            reveal_strlit("\n  L2 Cache: ");
            reveal_strlit("\n");
            assert(text@ =~= info_spec(
                self.0 as int,
                rt.devs@[self.0 as int].soc_name@,
                rt.devs@[self.0 as int].ai_core as int,
                rt.devs@[self.0 as int].vector_core as int,
                rt.devs@[self.0 as int].l2_cache as u64,
            ));
        }
        InfoFmt {
            text,
            source: Ghost(
                (
                    self.0 as int,
                    rt.devs@[self.0 as int].soc_name@,
                    rt.devs@[self.0 as int].ai_core as int,
                    rt.devs@[self.0 as int].vector_core as int,
                    rt.devs@[self.0 as int].l2_cache as u64,
                ),
            ),
        }
    }
}

} // verus!
