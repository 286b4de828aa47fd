use vertex_layout::layout::Attribute;
use vertex_layout::layout::LayoutDescriptor;
use vertex_layout::layout::StepMode;
use vertex_layout::layout::VertexLayout;
use vertex_layout::registry::lookup_format;
use vertex_layout::registry::ElemKind;
use vertex_layout::registry::FormatTag;
use vertex_layout::registry::ValueType;

fn vt(kind: ElemKind, components: u32) -> ValueType {
    ValueType { kind, components }
}

#[test]
fn sample() {
    let fields = vec![
        vt(ElemKind::F32, 4),
        vt(ElemKind::F32, 3),
        vt(ElemKind::F32, 2),
        vt(ElemKind::F32, 1),
    ];

    let left = VertexLayout::build(&fields).unwrap().describe(StepMode::PerElement);
    let right = LayoutDescriptor {
        stride: 40,
        attributes: vec![
            Attribute {
                format: FormatTag::Float32x4,
                offset: 0,
                slot: 0,
            },
            Attribute {
                format: FormatTag::Float32x3,
                offset: 16,
                slot: 1,
            },
            Attribute {
                format: FormatTag::Float32x2,
                offset: 28,
                slot: 2,
            },
            Attribute {
                format: FormatTag::Float32,
                offset: 36,
                slot: 3,
            },
        ],
        step_mode: StepMode::PerElement,
    };

    assert_eq!(left, right, "left: `{left:#?}`,\nright: `{right:#?}`");
}

#[test]
fn empty_field_list() {
    let layout = VertexLayout::build(&vec![]).unwrap();
    assert_eq!(layout.attributes, vec![]);
    assert_eq!(layout.stride, 0);
}

#[test]
fn unsupported_type_fails() {
    let bad = vt(ElemKind::U32, 7);
    let fields = vec![vt(ElemKind::F32, 2), bad, vt(ElemKind::F32, 1)];
    let err = VertexLayout::build(&fields).unwrap_err();
    assert_eq!(err.index, 1);
    assert_eq!(err.ty, bad);
}

#[test]
fn describe_both_step_modes() {
    let fields = vec![vt(ElemKind::F32, 3), vt(ElemKind::U32, 1)];
    let layout = VertexLayout::build(&fields).unwrap();
    let per_element = layout.describe(StepMode::PerElement);
    let per_instance = layout.describe(StepMode::PerInstance);
    assert_eq!(per_element.stride, per_instance.stride);
    assert_eq!(per_element.attributes, per_instance.attributes);
    assert_eq!(per_element.step_mode, StepMode::PerElement);
    assert_eq!(per_instance.step_mode, StepMode::PerInstance);
}

#[test]
fn attribute_count_matches_fields() {
    let mut fields: Vec<ValueType> = Vec::new();
    for n in 0..9usize {
        let layout = VertexLayout::build(&fields).unwrap();
        assert_eq!(layout.attributes.len(), n);
        fields.push(vt(ElemKind::I32, (n % 4 + 1) as u32));
    }
}

#[test]
fn slots_are_declaration_positions() {
    let fields = vec![
        vt(ElemKind::F64, 2),
        vt(ElemKind::U32, 4),
        vt(ElemKind::I32, 1),
        vt(ElemKind::F32, 3),
        vt(ElemKind::F32, 1),
    ];
    let layout = VertexLayout::build(&fields).unwrap();
    for (i, attribute) in layout.attributes.iter().enumerate() {
        assert_eq!(attribute.slot as usize, i);
    }
}

#[test]
fn offsets_accumulate_sizes() {
    let fields = vec![vt(ElemKind::F64, 2), vt(ElemKind::U32, 1), vt(ElemKind::I32, 3)];
    let layout = VertexLayout::build(&fields).unwrap();
    let offsets: Vec<u64> = layout.attributes.iter().map(|a| a.offset).collect();
    assert_eq!(offsets, vec![0, 16, 20]);
    assert_eq!(layout.stride, 32);
}

#[test]
fn formats_follow_registry() {
    let expected = [
        (ElemKind::F32, FormatTag::Float32, FormatTag::Float32x2, FormatTag::Float32x3, FormatTag::Float32x4, 4),
        (ElemKind::F64, FormatTag::Float64, FormatTag::Float64x2, FormatTag::Float64x3, FormatTag::Float64x4, 8),
        (ElemKind::U32, FormatTag::Uint32, FormatTag::Uint32x2, FormatTag::Uint32x3, FormatTag::Uint32x4, 4),
        (ElemKind::I32, FormatTag::Sint32, FormatTag::Sint32x2, FormatTag::Sint32x3, FormatTag::Sint32x4, 4),
    ];
    for (kind, x1, x2, x3, x4, elem) in expected {
        let tags = [x1, x2, x3, x4];
        for components in 1..5u32 {
            let (tag, size) = lookup_format(vt(kind, components)).unwrap();
            assert_eq!(tag, tags[(components - 1) as usize]);
            assert_eq!(size, elem * components as u64);
        }
    }

    let fields: Vec<ValueType> = (1..5u32).map(|n| vt(ElemKind::F64, n)).collect();
    let layout = VertexLayout::build(&fields).unwrap();
    let formats: Vec<FormatTag> = layout.attributes.iter().map(|a| a.format).collect();
    assert_eq!(
        formats,
        vec![FormatTag::Float64, FormatTag::Float64x2, FormatTag::Float64x3, FormatTag::Float64x4]
    );
}

#[test]
fn lookup_rejects_outside_component_counts() {
    assert_eq!(lookup_format(vt(ElemKind::F32, 0)), None);
    assert_eq!(lookup_format(vt(ElemKind::F64, 5)), None);
    assert_eq!(lookup_format(vt(ElemKind::U32, u32::MAX)), None);
    assert!(lookup_format(vt(ElemKind::I32, 1)).is_some());
    assert!(lookup_format(vt(ElemKind::I32, 4)).is_some());
}

#[test]
fn single_unsupported_anywhere_fails() {
    let good = vec![vt(ElemKind::F32, 4), vt(ElemKind::U32, 2), vt(ElemKind::F64, 3)];
    assert!(VertexLayout::build(&good).is_ok());

    let bad = vt(ElemKind::I32, 0);
    for position in 0..good.len() + 1 {
        let mut fields = good.clone();
        fields.insert(position, bad);
        let err = VertexLayout::build(&fields).unwrap_err();
        assert_eq!(err.index, position);
        assert_eq!(err.ty, bad);
    }
}

#[test]
fn same_fields_same_descriptor() {
    let fields = vec![vt(ElemKind::F32, 2), vt(ElemKind::I32, 4), vt(ElemKind::F64, 1)];
    let first = VertexLayout::build(&fields).unwrap();
    let second = VertexLayout::build(&fields).unwrap();
    assert_eq!(first, second);
    assert_eq!(
        first.describe(StepMode::PerInstance),
        second.describe(StepMode::PerInstance)
    );
}
