//! The layout builder and descriptor: walking an ordered field-type list
//! once, deriving per-field attributes (format, byte offset, slot) and the
//! record's total stride, and exposing the result parameterized by step mode.

use vstd::prelude::*;

use crate::registry::ValueType;
use crate::registry::FormatTag;
use crate::registry::byte_size;
use crate::registry::format_of;
use crate::registry::lemma_byte_size_bound;
use crate::registry::lookup_format;
use crate::registry::supported;

verus! {

/// Whether a vertex buffer advances to the next record per rendered
/// element or per instance.
#[derive(Clone, Copy, Debug, PartialEq, Eq, Structural)]
pub enum StepMode {
    PerElement,
    PerInstance,
}

/// One field's device-facing descriptor: format tag, byte offset within
/// the record, and sequential input slot index.
#[derive(Clone, Copy, Debug, PartialEq, Eq, Structural)]
pub struct Attribute {
    pub format: FormatTag,
    pub offset: u64,
    pub slot: u32,
}

/// The single construction error: the field at `index` declared a type
/// that has no registry entry. It names the offending position and type,
/// and is always fatal to the construction that raised it.
#[derive(Clone, Copy, Debug, PartialEq, Eq, Structural)]
pub struct UnsupportedTypeError {
    pub index: usize,
    pub ty: ValueType,
}

/// The builder's output: the ordered attribute list and the record's
/// total byte stride. Built once per field-type sequence and immutable
/// thereafter.
#[derive(Clone, Debug, PartialEq, Eq)]
pub struct VertexLayout {
    pub attributes: Vec<Attribute>,
    pub stride: u64,
}

/// An immutable layout descriptor: stride, ordered attributes, and the
/// step mode under which the buffer is consumed.
#[derive(Clone, Debug, PartialEq, Eq)]
pub struct LayoutDescriptor {
    pub stride: u64,
    pub attributes: Vec<Attribute>,
    pub step_mode: StepMode,
}

/// Byte offset of field `i`: the sum of the packed sizes of all fields
/// declared before it.
pub open spec fn offset_of(types: Seq<ValueType>, i: int) -> nat
    decreases i,
{
    if i <= 0 {
        0
    } else {
        offset_of(types, i - 1) + byte_size(types[i - 1])
    }
}

/// The record's total byte span. The stride policy here is the packed sum
/// of the declared field sizes: no host-side alignment padding is counted.
pub open spec fn stride_of(types: Seq<ValueType>) -> nat {
    offset_of(types, types.len() as int)
}

/// Every declared field type has a registry entry.
pub open spec fn all_supported(types: Seq<ValueType>) -> bool {
    forall|i: int| 0 <= i < types.len() ==> supported(types[i])
}

/// The attribute that field `i` of `types` must carry: the registry's
/// format for its type, the accumulated offset, and its declaration
/// position as slot.
pub open spec fn attribute_of(types: Seq<ValueType>, i: int) -> Attribute {
    Attribute {
        format: format_of(types[i]),
        offset: offset_of(types, i) as u64,
        slot: i as u32,
    }
}

/// Offsets grow by at most 32 bytes per supported field.
pub proof fn lemma_offset_bound(types: Seq<ValueType>, i: int)
    requires
        0 <= i <= types.len(),
        forall|j: int| 0 <= j < i ==> supported(types[j]),
    ensures
        offset_of(types, i) <= 32 * i,
    decreases i,
{
    if i > 0 {
        lemma_offset_bound(types, i - 1);
        lemma_byte_size_bound(types[i - 1]);
    }
}

impl VertexLayout {
    /// The layout is exactly the one derived from `types`: one attribute
    /// per field, slots equal to declaration positions, offsets
    /// accumulated from the packed field sizes, formats taken from the
    /// registry, and stride equal to the sum of all field sizes.
    pub open spec fn matches(self, types: Seq<ValueType>) -> bool {
        &&& types.len() <= 0x1_0000_0000
        &&& all_supported(types)
        &&& self.attributes@.len() == types.len()
        &&& (forall|i: int|
            0 <= i < types.len() ==> #[trigger] self.attributes@[i] == attribute_of(types, i))
        &&& self.stride == stride_of(types)
    }

    /// Walks the declared field types once, in order, deriving one
    /// attribute per field and the total stride. Construction aborts on
    /// the first field whose type has no registry entry, naming that
    /// field's position and type; no partial attribute list is ever
    /// returned. Succeeds exactly when every field type is supported.
    ///
    /// Slots are 32-bit indices, so a list of more than 2^32 fields
    /// cannot be laid out; such lists are excluded up front.
    pub fn build(types: &Vec<ValueType>) -> (r: Result<VertexLayout, UnsupportedTypeError>)
        requires
            types@.len() <= 0x1_0000_0000,
        ensures
            r is Ok <==> all_supported(types@),
            r matches Ok(l) ==> l.matches(types@),
            r matches Err(e) ==> {
                &&& e.index < types@.len()
                &&& e.ty == types@[e.index as int]
                &&& !supported(e.ty)
                &&& forall|j: int| 0 <= j < e.index ==> supported(types@[j])
            },
    {
        let n = types.len();
        let mut attributes: Vec<Attribute> = Vec::new();
        let mut running_offset: u64 = 0;
        let mut i: usize = 0;
        while i < n
            invariant
                n == types@.len(),
                n <= 0x1_0000_0000,
                i <= n,
                attributes@.len() == i,
                forall|j: int| 0 <= j < i ==> supported(types@[j]),
                forall|j: int| 0 <= j < i ==> attributes@[j] == attribute_of(types@, j),
                running_offset == offset_of(types@, i as int),
                running_offset <= 32 * i,
            decreases n - i,
        {
            let t = types[i];
            match lookup_format(t) {
                None => {
                    return Err(UnsupportedTypeError { index: i, ty: t });
                },
                Some((format, size)) => {
                    proof {
                        lemma_byte_size_bound(t);
                    }
                    attributes.push(Attribute { format, offset: running_offset, slot: i as u32 });
                    running_offset = running_offset + size;
                    i = i + 1;
                },
            }
        }
        Ok(VertexLayout { attributes, stride: running_offset })
    }

    /// Pure projection of the precomputed layout, parameterized by step
    /// mode: the descriptor carries the same stride and attribute list on
    /// every call, and only `step_mode` varies with the argument. Nothing
    /// is recomputed per call.
    pub fn describe(&self, step_mode: StepMode) -> (d: LayoutDescriptor)
        ensures
            d.stride == self.stride,
            d.attributes@ == self.attributes@,
            d.step_mode == step_mode,
    {
        LayoutDescriptor {
            stride: self.stride,
            attributes: copy_attributes(&self.attributes),
            step_mode,
        }
    }
}

/// Element-for-element copy of an attribute list.
fn copy_attributes(src: &Vec<Attribute>) -> (r: Vec<Attribute>)
    ensures
        r@ == src@,
{
    let mut r: Vec<Attribute> = Vec::new();
    let mut i: usize = 0;
    while i < src.len()
        invariant
            i <= src@.len(),
            r@.len() == i,
            forall|j: int| 0 <= j < i ==> r@[j] == src@[j],
        decreases src@.len() - i,
    {
        r.push(src[i]);
        i = i + 1;
    }
    proof {
        assert(r@ =~= src@);
    }
    r
}

/// Law: a layout derived from a field-type sequence has one attribute per
/// field; slots equal declaration positions; the first offset is zero and
/// each later offset adds the previous field's byte size to the previous
/// offset; and every format is the registry's mapping for its field's type.
#[verifier::rlimit(50)]
pub proof fn lemma_layout_invariants(l: VertexLayout, types: Seq<ValueType>)
    requires
        l.matches(types),
    ensures
        l.attributes@.len() == types.len(),
        forall|i: int| 0 <= i < types.len() ==> l.attributes@[i].slot == i as u32,
        types.len() > 0 ==> l.attributes@[0].offset == 0,
        forall|i: int|
            1 <= i < types.len() ==> (#[trigger] l.attributes@[i]).offset == l.attributes@[i
                - 1].offset + byte_size(types[i - 1]),
        forall|i: int| 0 <= i < types.len() ==> l.attributes@[i].format == format_of(types[i]),
{
    assert forall|i: int| 0 <= i < types.len() implies (#[trigger] l.attributes@[i]).slot == i
        as u32 by {
        assert(l.attributes@[i] == attribute_of(types, i));
    }
    assert forall|i: int| 0 <= i < types.len() implies (#[trigger] l.attributes@[i]).format
        == format_of(types[i]) by {
        assert(l.attributes@[i] == attribute_of(types, i));
    }
    if types.len() > 0 {
        assert(l.attributes@[0] == attribute_of(types, 0));
    }
    assert forall|i: int|
        1 <= i < types.len() implies (#[trigger] l.attributes@[i]).offset == l.attributes@[i
        - 1].offset + byte_size(types[i - 1]) by {
        assert(l.attributes@[i] == attribute_of(types, i));
        assert(l.attributes@[i - 1] == attribute_of(types, i - 1));
        lemma_offset_bound(types, i);
        lemma_offset_bound(types, i - 1);
        assert(offset_of(types, i) == offset_of(types, i - 1) + byte_size(types[i - 1]));
    }
}

/// Law: descriptor construction is deterministic — any two layouts derived
/// from the same field-type sequence have the same stride and the same
/// attribute list.
pub proof fn lemma_layout_deterministic(a: VertexLayout, b: VertexLayout, types: Seq<ValueType>)
    requires
        a.matches(types),
        b.matches(types),
    ensures
        a.stride == b.stride,
        a.attributes@ == b.attributes@,
{
    assert forall|i: int| 0 <= i < types.len() implies a.attributes@[i] == b.attributes@[i] by {
        assert(a.attributes@[i] == attribute_of(types, i));
        assert(b.attributes@[i] == attribute_of(types, i));
    }
    assert(a.attributes@ =~= b.attributes@);
}

} // verus!
