//! The type-to-format registry: a fixed, closed mapping from a host field's
//! value type to its canonical device format tag and packed byte size.

use vstd::prelude::*;

verus! {

/// Element kind of a host field: every component of the field is one of
/// these machine scalars.
#[derive(Clone, Copy, Debug, PartialEq, Eq, Structural)]
pub enum ElemKind {
    F32,
    F64,
    U32,
    I32,
}

/// The shape of one host-side field: an element kind and a component count.
/// A scalar carries one component; a fixed-size vector, tuple or array
/// carries its length. The registry supports one to four components.
#[derive(Clone, Copy, Debug, PartialEq, Eq, Structural)]
pub struct ValueType {
    pub kind: ElemKind,
    pub components: u32,
}

/// Canonical device-facing format tag, one for each supported
/// (element kind, component count) pair.
#[derive(Clone, Copy, Debug, PartialEq, Eq, Structural)]
pub enum FormatTag {
    Float32,
    Float32x2,
    Float32x3,
    Float32x4,
    Float64,
    Float64x2,
    Float64x3,
    Float64x4,
    Uint32,
    Uint32x2,
    Uint32x3,
    Uint32x4,
    Sint32,
    Sint32x2,
    Sint32x3,
    Sint32x4,
}

/// Size in bytes of one component of the given kind.
pub open spec fn elem_size(k: ElemKind) -> nat {
    match k {
        ElemKind::F32 => 4,
        ElemKind::F64 => 8,
        ElemKind::U32 => 4,
        ElemKind::I32 => 4,
    }
}

/// The registry's closed supported set: one to four components of any
/// element kind.
pub open spec fn supported(t: ValueType) -> bool {
    1 <= t.components <= 4
}

/// Packed byte size of a field of type `t`: component size times
/// component count, with no padding.
pub open spec fn byte_size(t: ValueType) -> nat {
    elem_size(t.kind) * (t.components as nat)
}

/// The registry's mapping from a supported value type to its format tag.
/// For a type outside the supported set the value is immaterial:
/// `lookup_format` returns `None` there.
pub open spec fn format_of(t: ValueType) -> FormatTag {
    match t.kind {
        ElemKind::F32 => if t.components <= 1 {
            FormatTag::Float32
        } else if t.components == 2 {
            FormatTag::Float32x2
        } else if t.components == 3 {
            FormatTag::Float32x3
        } else {
            FormatTag::Float32x4
        },
        ElemKind::F64 => if t.components <= 1 {
            FormatTag::Float64
        } else if t.components == 2 {
            FormatTag::Float64x2
        } else if t.components == 3 {
            FormatTag::Float64x3
        } else {
            FormatTag::Float64x4
        },
        ElemKind::U32 => if t.components <= 1 {
            FormatTag::Uint32
        } else if t.components == 2 {
            FormatTag::Uint32x2
        } else if t.components == 3 {
            FormatTag::Uint32x3
        } else {
            FormatTag::Uint32x4
        },
        ElemKind::I32 => if t.components <= 1 {
            FormatTag::Sint32
        } else if t.components == 2 {
            FormatTag::Sint32x2
        } else if t.components == 3 {
            FormatTag::Sint32x3
        } else {
            FormatTag::Sint32x4
        },
    }
}

/// A supported field never spans more than four 8-byte components.
pub proof fn lemma_byte_size_bound(t: ValueType)
    requires
        supported(t),
    ensures
        byte_size(t) <= 32,
{
}

/// Registry lookup: the format tag and packed byte size of `t`, or `None`
/// when `t` lies outside the supported set. The mapping is total on the
/// supported set and fails on everything else.
pub fn lookup_format(t: ValueType) -> (r: Option<(FormatTag, u64)>)
    ensures
        supported(t) ==> r == Some((format_of(t), byte_size(t) as u64)),
        !supported(t) ==> r is None,
{
    if t.components < 1 || t.components > 4 {
        return None;
    }
    let elem: u64 = match t.kind {
        ElemKind::F32 => 4,
        ElemKind::F64 => 8,
        ElemKind::U32 => 4,
        ElemKind::I32 => 4,
    };
    let tag = match t.kind {
        ElemKind::F32 => if t.components == 1 {
            FormatTag::Float32
        } else if t.components == 2 {
            FormatTag::Float32x2
        } else if t.components == 3 {
            FormatTag::Float32x3
        } else {
            FormatTag::Float32x4
        },
        ElemKind::F64 => if t.components == 1 {
            FormatTag::Float64
        } else if t.components == 2 {
            FormatTag::Float64x2
        } else if t.components == 3 {
            FormatTag::Float64x3
        } else {
            FormatTag::Float64x4
        },
        ElemKind::U32 => if t.components == 1 {
            FormatTag::Uint32
        } else if t.components == 2 {
            FormatTag::Uint32x2
        } else if t.components == 3 {
            FormatTag::Uint32x3
        } else {
            FormatTag::Uint32x4
        },
        ElemKind::I32 => if t.components == 1 {
            FormatTag::Sint32
        } else if t.components == 2 {
            FormatTag::Sint32x2
        } else if t.components == 3 {
            FormatTag::Sint32x3
        } else {
            FormatTag::Sint32x4
        },
    };
    Some((tag, elem * (t.components as u64)))
}

} // verus!
