use vstd::prelude::*;
use crate::event::ABS_CNT;

verus! {

/// Size in bytes of the name buffer, terminator included.
pub const NAME_SIZE: usize = 80;

/// Size in bytes of the encoded device descriptor.
pub const DESCRIPTOR_SIZE: usize = 1116;

/// The two little-endian bytes of a 16-bit value.
pub open spec fn le16(v: u16) -> Seq<u8> {
    seq![(v % 256) as u8, (v / 256) as u8]
}

/// The four little-endian bytes of a 32-bit value.
pub open spec fn le32(v: u32) -> Seq<u8> {
    seq![(v % 256) as u8, ((v / 256) % 256) as u8, ((v / 65536) % 256) as u8, (v / 16777216) as u8]
}

/// The eight little-endian bytes of a 64-bit value.
pub open spec fn le64(v: u64) -> Seq<u8> {
    le32((v % 4294967296) as u32) + le32((v / 4294967296) as u32)
}

/// A table of signed 32-bit values, each as four little-endian bytes.
pub open spec fn table_bytes(s: Seq<i32>) -> Seq<u8>
    decreases s.len(),
{
    if s.len() == 0 {
        Seq::empty()
    } else {
        table_bytes(s.drop_last()) + le32(s.last() as u32)
    }
}

/// The device descriptor: the device's name and identity, and a range for
/// each absolute axis.
pub struct Descriptor {
    /// The name, null-terminated.
    pub name: Vec<u8>,
    pub bus: u16,
    pub vendor: u16,
    pub product: u16,
    pub version: u16,
    /// Unused; always written as zero.
    pub ff_effects_max: u32,
    /// Largest value of each absolute axis.
    pub absmax: Vec<i32>,
    /// Smallest value of each absolute axis.
    pub absmin: Vec<i32>,
    /// Noise filter of each absolute axis.
    pub absfuzz: Vec<i32>,
    /// Dead zone of each absolute axis.
    pub absflat: Vec<i32>,
}

/// The descriptor's bytes in the kernel's layout on a little-endian host: the
/// name buffer, the four identifiers, the effect count, then the four axis
/// tables, with no padding between them.
pub open spec fn descriptor_bytes(d: &Descriptor) -> Seq<u8> {
    d.name@ + le16(d.bus) + le16(d.vendor) + le16(d.product) + le16(d.version) + le32(
        d.ff_effects_max,
    ) + table_bytes(d.absmax@) + table_bytes(d.absmin@) + table_bytes(d.absfuzz@)
        + table_bytes(d.absflat@)
}

proof fn lemma_table_bytes_len(s: Seq<i32>)
    ensures
        table_bytes(s).len() == 4 * s.len(),
    decreases s.len(),
{
    if s.len() > 0 {
        lemma_table_bytes_len(s.drop_last());
    }
}

/// Appends the little-endian bytes of a 16-bit value.
pub(crate) fn push_le16(out: &mut Vec<u8>, v: u16)
    ensures
        final(out)@ == old(out)@ + le16(v),
{
    out.push((v % 256) as u8);
    out.push((v / 256) as u8);
    assert(final(out)@ =~= old(out)@ + le16(v));
}

/// Appends the little-endian bytes of a 32-bit value.
pub(crate) fn push_le32(out: &mut Vec<u8>, v: u32)
    ensures
        final(out)@ == old(out)@ + le32(v),
{
    out.push((v % 256) as u8);
    out.push(((v / 256) % 256) as u8);
    out.push(((v / 65536) % 256) as u8);
    out.push((v / 16777216) as u8);
    assert(final(out)@ =~= old(out)@ + le32(v));
}

/// Appends the little-endian bytes of a 64-bit value.
pub(crate) fn push_le64(out: &mut Vec<u8>, v: u64)
    ensures
        final(out)@ == old(out)@ + le64(v),
{
    push_le32(out, (v % 4294967296) as u32);
    push_le32(out, (v / 4294967296) as u32);
    assert(final(out)@ =~= old(out)@ + le64(v));
}

fn push_table(out: &mut Vec<u8>, t: &Vec<i32>)
    ensures
        final(out)@ == old(out)@ + table_bytes(t@),
{
    let mut i: usize = 0;
    while i < t.len()
        invariant
            i <= t.len(),
            out@ == old(out)@ + table_bytes(t@.take(i as int)),
        decreases t.len() - i,
    {
        push_le32(out, t[i] as u32);
        proof {
            let s = t@.take(i + 1);
            assert(s.drop_last() =~= t@.take(i as int));
            assert(out@ =~= old(out)@ + table_bytes(s));
        }
        i = i + 1;
    }
    assert(t@.take(t.len() as int) =~= t@);
}

fn zeros_u8(n: usize) -> (r: Vec<u8>)
    ensures
        r@ == Seq::new(n as nat, |i: int| 0u8),
{
    let mut r: Vec<u8> = Vec::new();
    while r.len() < n
        invariant
            r.len() <= n,
            r@ == Seq::new(r.len() as nat, |i: int| 0u8),
        decreases n - r.len(),
    {
        r.push(0);
        assert(r@ =~= Seq::new(r.len() as nat, |i: int| 0u8));
    }
    r
}

fn zeros_i32(n: usize) -> (r: Vec<i32>)
    ensures
        r@ == Seq::new(n as nat, |i: int| 0i32),
{
    let mut r: Vec<i32> = Vec::new();
    while r.len() < n
        invariant
            r.len() <= n,
            r@ == Seq::new(r.len() as nat, |i: int| 0i32),
        decreases n - r.len(),
    {
        r.push(0);
        assert(r@ =~= Seq::new(r.len() as nat, |i: int| 0i32));
    }
    r
}

impl Descriptor {
    /// The name buffer and the axis tables have their fixed sizes, and the
    /// unused effect count is zero.
    pub open spec fn wf(&self) -> bool {
        &&& self.name.len() == NAME_SIZE
        &&& self.ff_effects_max == 0
        &&& self.absmax.len() == ABS_CNT
        &&& self.absmin.len() == ABS_CNT
        &&& self.absfuzz.len() == ABS_CNT
        &&& self.absflat.len() == ABS_CNT
    }

    /// Every byte and every value of the descriptor is zero.
    pub open spec fn is_zeroed(&self) -> bool {
        &&& self.wf()
        &&& forall|i: int| 0 <= i < NAME_SIZE ==> self.name@[i] == 0
        &&& self.bus == 0 && self.vendor == 0 && self.product == 0 && self.version == 0
        &&& self.ff_effects_max == 0
        &&& forall|i: int|
            0 <= i < ABS_CNT ==> self.absmax@[i] == 0 && self.absmin@[i] == 0
                && self.absfuzz@[i] == 0 && self.absflat@[i] == 0
    }

    /// A descriptor with every field zero.
    pub fn new() -> (r: Descriptor)
        ensures
            r.is_zeroed(),
    {
        Descriptor {
            name: zeros_u8(NAME_SIZE),
            bus: 0,
            vendor: 0,
            product: 0,
            version: 0,
            ff_effects_max: 0,
            absmax: zeros_i32(ABS_CNT as usize),
            absmin: zeros_i32(ABS_CNT as usize),
            absfuzz: zeros_i32(ABS_CNT as usize),
            absflat: zeros_i32(ABS_CNT as usize),
        }
    }

    /// The descriptor's bytes, as the kernel reads them.
    pub fn to_bytes(&self) -> (r: Vec<u8>)
        requires
            self.wf(),
        ensures
            r@ == descriptor_bytes(self),
            r.len() == DESCRIPTOR_SIZE,
    {
        let mut out: Vec<u8> = Vec::new();
        let mut i: usize = 0;
        while i < self.name.len()
            invariant
                i <= self.name.len(),
                out@ == self.name@.take(i as int),
            decreases self.name.len() - i,
        {
            out.push(self.name[i]);
            assert(out@ =~= self.name@.take(i + 1));
            i = i + 1;
        }
        assert(self.name@.take(self.name.len() as int) =~= self.name@);
        push_le16(&mut out, self.bus);
        push_le16(&mut out, self.vendor);
        push_le16(&mut out, self.product);
        push_le16(&mut out, self.version);
        push_le32(&mut out, self.ff_effects_max);
        push_table(&mut out, &self.absmax);
        push_table(&mut out, &self.absmin);
        push_table(&mut out, &self.absfuzz);
        push_table(&mut out, &self.absflat);
        proof {
            lemma_table_bytes_len(self.absmax@);
            lemma_table_bytes_len(self.absmin@);
            lemma_table_bytes_len(self.absfuzz@);
            lemma_table_bytes_len(self.absflat@);
        }
        out
    }
}

} // verus!
