use slice_box::kind::{ElementKind, KIND_COUNT};

const ALL: [ElementKind; 13] = [
    ElementKind::Bool,
    ElementKind::Int8,
    ElementKind::Int16,
    ElementKind::Int32,
    ElementKind::Int64,
    ElementKind::Uint8,
    ElementKind::Uint16,
    ElementKind::Uint32,
    ElementKind::Uint64,
    ElementKind::Float32,
    ElementKind::Float64,
    ElementKind::Complex32,
    ElementKind::Complex64,
];

#[test]
fn module_name_embeds_kind() {
    assert_eq!(ElementKind::Int32.module_name(), "rust_numpy.Int32");
    assert_eq!(ElementKind::Complex64.module_name(), "rust_numpy.Complex64");
    assert_eq!(ElementKind::Bool.module_name(), "rust_numpy.Bool");
}

#[test]
fn qualified_name_ends_with_type_name() {
    assert_eq!(ElementKind::Float64.qualified_name(), "rust_numpy.Float64.SliceBox");
    assert_eq!(ElementKind::Uint8.qualified_name(), "rust_numpy.Uint8.SliceBox");
}

#[test]
fn two_kinds_get_distinct_type_identities() {
    let a = ElementKind::Int64;
    let b = ElementKind::Float64;
    assert_ne!(a.qualified_name(), b.qualified_name());
    assert_ne!(a.module_name(), b.module_name());
}

#[test]
fn all_names_are_distinct() {
    for (i, a) in ALL.iter().enumerate() {
        for (j, b) in ALL.iter().enumerate() {
            if i != j {
                assert_ne!(a.qualified_name(), b.qualified_name());
                assert_ne!(a.module_name(), b.module_name());
            }
        }
    }
}

#[test]
fn index_round_trips() {
    assert_eq!(ALL.len(), KIND_COUNT);
    for (i, k) in ALL.iter().enumerate() {
        assert_eq!(k.index(), i);
        assert_eq!(ElementKind::from_index(i), Some(*k));
    }
    assert_eq!(ElementKind::from_index(KIND_COUNT), None);
    assert_eq!(ElementKind::from_index(usize::MAX), None);
}

#[test]
fn element_sizes() {
    assert_eq!(ElementKind::Bool.element_size(), 1);
    assert_eq!(ElementKind::Int16.element_size(), 2);
    assert_eq!(ElementKind::Float32.element_size(), std::mem::size_of::<f32>());
    assert_eq!(ElementKind::Float64.element_size(), std::mem::size_of::<f64>());
    assert_eq!(ElementKind::Complex32.element_size(), 8);
    assert_eq!(ElementKind::Complex64.element_size(), 16);
}
