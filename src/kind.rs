//! Element kinds and the names under which their object types are registered.

use vstd::prelude::*;

verus! {

/// The scalar type of the elements of a wrapped buffer.
#[derive(Clone, Copy, Debug, PartialEq, Eq, Structural)]
pub enum ElementKind {
    Bool,
    Int8,
    Int16,
    Int32,
    Int64,
    Uint8,
    Uint16,
    Uint32,
    Uint64,
    Float32,
    Float64,
    Complex32,
    Complex64,
}

/// Number of element kinds; `ElementKind::index` ranges below it.
pub const KIND_COUNT: usize = 13;

/// The descriptive tag of a kind, as it appears in its type's namespace.
pub open spec fn tag_of(k: ElementKind) -> Seq<char> {
    match k {
        ElementKind::Bool => seq!['B', 'o', 'o', 'l'],
        ElementKind::Int8 => seq!['I', 'n', 't', '8'],
        ElementKind::Int16 => seq!['I', 'n', 't', '1', '6'],
        ElementKind::Int32 => seq!['I', 'n', 't', '3', '2'],
        ElementKind::Int64 => seq!['I', 'n', 't', '6', '4'],
        ElementKind::Uint8 => seq!['U', 'i', 'n', 't', '8'],
        ElementKind::Uint16 => seq!['U', 'i', 'n', 't', '1', '6'],
        ElementKind::Uint32 => seq!['U', 'i', 'n', 't', '3', '2'],
        ElementKind::Uint64 => seq!['U', 'i', 'n', 't', '6', '4'],
        ElementKind::Float32 => seq!['F', 'l', 'o', 'a', 't', '3', '2'],
        ElementKind::Float64 => seq!['F', 'l', 'o', 'a', 't', '6', '4'],
        ElementKind::Complex32 => seq!['C', 'o', 'm', 'p', 'l', 'e', 'x', '3', '2'],
        ElementKind::Complex64 => seq!['C', 'o', 'm', 'p', 'l', 'e', 'x', '6', '4'],
    }
}

/// Reads a kind back from its tag; it inverts `tag_of`.
pub open spec fn kind_of_tag(s: Seq<char>) -> Option<ElementKind> {
    if s.len() == 4 {
        if s[0] == 'B' { Some(ElementKind::Bool) } else { Some(ElementKind::Int8) }
    } else if s.len() == 5 {
        if s[0] == 'U' {
            Some(ElementKind::Uint8)
        } else if s[3] == '1' {
            Some(ElementKind::Int16)
        } else if s[3] == '3' {
            Some(ElementKind::Int32)
        } else {
            Some(ElementKind::Int64)
        }
    } else if s.len() == 6 {
        if s[4] == '1' {
            Some(ElementKind::Uint16)
        } else if s[4] == '3' {
            Some(ElementKind::Uint32)
        } else {
            Some(ElementKind::Uint64)
        }
    } else if s.len() == 7 {
        if s[5] == '3' { Some(ElementKind::Float32) } else { Some(ElementKind::Float64) }
    } else if s.len() == 9 {
        if s[7] == '3' { Some(ElementKind::Complex32) } else { Some(ElementKind::Complex64) }
    } else {
        None
    }
}

/// Namespace under which every bridge type is registered.
pub open spec fn namespace_prefix() -> Seq<char> {
    seq!['r', 'u', 's', 't', '_', 'n', 'u', 'm', 'p', 'y', '.']
}

/// Name of the object type, after its kind's namespace.
pub open spec fn type_suffix() -> Seq<char> {
    seq!['.', 'S', 'l', 'i', 'c', 'e', 'B', 'o', 'x']
}

/// The namespace (module) of the type registered for kind `k`.
pub open spec fn module_of(k: ElementKind) -> Seq<char> {
    namespace_prefix() + tag_of(k)
}

/// The fully qualified name of the type registered for kind `k`.
pub open spec fn qualified_name_of(k: ElementKind) -> Seq<char> {
    module_of(k) + type_suffix()
}

/// Position of a kind in the per-kind tables.
pub open spec fn index_of(k: ElementKind) -> nat {
    match k {
        ElementKind::Bool => 0,
        ElementKind::Int8 => 1,
        ElementKind::Int16 => 2,
        ElementKind::Int32 => 3,
        ElementKind::Int64 => 4,
        ElementKind::Uint8 => 5,
        ElementKind::Uint16 => 6,
        ElementKind::Uint32 => 7,
        ElementKind::Uint64 => 8,
        ElementKind::Float32 => 9,
        ElementKind::Float64 => 10,
        ElementKind::Complex32 => 11,
        ElementKind::Complex64 => 12,
    }
}

/// Size in bytes of one element of kind `k`.
pub open spec fn size_of_kind(k: ElementKind) -> nat {
    match k {
        ElementKind::Bool | ElementKind::Int8 | ElementKind::Uint8 => 1,
        ElementKind::Int16 | ElementKind::Uint16 => 2,
        ElementKind::Int32 | ElementKind::Uint32 | ElementKind::Float32 => 4,
        ElementKind::Int64 | ElementKind::Uint64 | ElementKind::Float64
        | ElementKind::Complex32 => 8,
        ElementKind::Complex64 => 16,
    }
}

proof fn lemma_tag_decodes(k: ElementKind)
    ensures
        kind_of_tag(tag_of(k)) == Some(k),
{
}

/// Different kinds have different tags.
pub proof fn lemma_tags_distinct(k1: ElementKind, k2: ElementKind)
    ensures
        k1 != k2 ==> tag_of(k1) != tag_of(k2),
{
    lemma_tag_decodes(k1);
    lemma_tag_decodes(k2);
}

/// Different kinds are registered under different namespaces and under
/// different qualified type names, so their types never collide.
pub proof fn lemma_names_distinct(k1: ElementKind, k2: ElementKind)
    ensures
        k1 != k2 ==> module_of(k1) != module_of(k2),
        k1 != k2 ==> qualified_name_of(k1) != qualified_name_of(k2),
{
    if k1 != k2 {
        lemma_tags_distinct(k1, k2);
        let p = namespace_prefix();
        let (t1, t2) = (tag_of(k1), tag_of(k2));
        if module_of(k1) == module_of(k2) {
            assert(t1 =~= module_of(k1).subrange(p.len() as int, module_of(k1).len() as int));
            assert(t2 =~= module_of(k2).subrange(p.len() as int, module_of(k2).len() as int));
        }
        let s = type_suffix();
        if qualified_name_of(k1) == qualified_name_of(k2) {
            let (q1, q2) = (qualified_name_of(k1), qualified_name_of(k2));
            assert(module_of(k1) =~= q1.subrange(0, q1.len() - s.len()));
            assert(module_of(k2) =~= q2.subrange(0, q2.len() - s.len()));
            assert(t1 =~= module_of(k1).subrange(p.len() as int, module_of(k1).len() as int));
            assert(t2 =~= module_of(k2).subrange(p.len() as int, module_of(k2).len() as int));
        }
    }
}

impl ElementKind {
    /// Position of this kind in the per-kind tables, below `KIND_COUNT`.
    pub fn index(self) -> (r: usize)
        ensures
            r as nat == index_of(self),
            r < KIND_COUNT,
    {
        match self {
            ElementKind::Bool => 0,
            ElementKind::Int8 => 1,
            ElementKind::Int16 => 2,
            ElementKind::Int32 => 3,
            ElementKind::Int64 => 4,
            ElementKind::Uint8 => 5,
            ElementKind::Uint16 => 6,
            ElementKind::Uint32 => 7,
            ElementKind::Uint64 => 8,
            ElementKind::Float32 => 9,
            ElementKind::Float64 => 10,
            ElementKind::Complex32 => 11,
            ElementKind::Complex64 => 12,
        }
    }

    /// The kind at position `i` of the per-kind tables, if there is one.
    pub fn from_index(i: usize) -> (r: Option<ElementKind>)
        ensures
            r.is_some() <==> i < KIND_COUNT,
            r.is_some() ==> index_of(r.unwrap()) == i as nat,
    {
        match i {
            0 => Some(ElementKind::Bool),
            1 => Some(ElementKind::Int8),
            2 => Some(ElementKind::Int16),
            3 => Some(ElementKind::Int32),
            4 => Some(ElementKind::Int64),
            5 => Some(ElementKind::Uint8),
            6 => Some(ElementKind::Uint16),
            7 => Some(ElementKind::Uint32),
            8 => Some(ElementKind::Uint64),
            9 => Some(ElementKind::Float32),
            10 => Some(ElementKind::Float64),
            11 => Some(ElementKind::Complex32),
            12 => Some(ElementKind::Complex64),
            _ => None,
        }
    }

    /// The namespace under which this kind's type is registered.
    pub fn module_name(self) -> (r: &'static str)
        ensures
            r@ == module_of(self),
    {
        match self {
            ElementKind::Bool => {
                proof { reveal_strlit("rust_numpy.Bool"); }
                assert("rust_numpy.Bool"@ =~= module_of(self));
                "rust_numpy.Bool"
            },
            ElementKind::Int8 => {
                proof { reveal_strlit("rust_numpy.Int8"); }
                assert("rust_numpy.Int8"@ =~= module_of(self));
                "rust_numpy.Int8"
            },
            ElementKind::Int16 => {
                proof { reveal_strlit("rust_numpy.Int16"); }
                assert("rust_numpy.Int16"@ =~= module_of(self));
                "rust_numpy.Int16"
            },
            ElementKind::Int32 => {
                proof { reveal_strlit("rust_numpy.Int32"); }
                assert("rust_numpy.Int32"@ =~= module_of(self));
                "rust_numpy.Int32"
            },
            ElementKind::Int64 => {
                proof { reveal_strlit("rust_numpy.Int64"); }
                assert("rust_numpy.Int64"@ =~= module_of(self));
                "rust_numpy.Int64"
            },
            ElementKind::Uint8 => {
                proof { reveal_strlit("rust_numpy.Uint8"); }
                assert("rust_numpy.Uint8"@ =~= module_of(self));
                "rust_numpy.Uint8"
            },
            ElementKind::Uint16 => {
                proof { reveal_strlit("rust_numpy.Uint16"); }
                assert("rust_numpy.Uint16"@ =~= module_of(self));
                "rust_numpy.Uint16"
            },
            ElementKind::Uint32 => {
                proof { reveal_strlit("rust_numpy.Uint32"); }
                assert("rust_numpy.Uint32"@ =~= module_of(self));
                "rust_numpy.Uint32"
            },
            ElementKind::Uint64 => {
                proof { reveal_strlit("rust_numpy.Uint64"); }
                assert("rust_numpy.Uint64"@ =~= module_of(self));
                "rust_numpy.Uint64"
            },
            ElementKind::Float32 => {
                proof { reveal_strlit("rust_numpy.Float32"); }
                assert("rust_numpy.Float32"@ =~= module_of(self));
                "rust_numpy.Float32"
            },
            ElementKind::Float64 => {
                proof { reveal_strlit("rust_numpy.Float64"); }
                assert("rust_numpy.Float64"@ =~= module_of(self));
                "rust_numpy.Float64"
            },
            ElementKind::Complex32 => {
                proof { reveal_strlit("rust_numpy.Complex32"); }
                assert("rust_numpy.Complex32"@ =~= module_of(self));
                "rust_numpy.Complex32"
            },
            ElementKind::Complex64 => {
                proof { reveal_strlit("rust_numpy.Complex64"); }
                assert("rust_numpy.Complex64"@ =~= module_of(self));
                "rust_numpy.Complex64"
            },
        }
    }

    /// The fully qualified name of this kind's registered type.
    pub fn qualified_name(self) -> (r: &'static str)
        ensures
            r@ == qualified_name_of(self),
    {
        match self {
            ElementKind::Bool => {
                proof { reveal_strlit("rust_numpy.Bool.SliceBox"); }
                assert("rust_numpy.Bool.SliceBox"@ =~= qualified_name_of(self));
                "rust_numpy.Bool.SliceBox"
            },
            ElementKind::Int8 => {
                proof { reveal_strlit("rust_numpy.Int8.SliceBox"); }
                assert("rust_numpy.Int8.SliceBox"@ =~= qualified_name_of(self));
                "rust_numpy.Int8.SliceBox"
            },
            ElementKind::Int16 => {
                proof { reveal_strlit("rust_numpy.Int16.SliceBox"); }
                assert("rust_numpy.Int16.SliceBox"@ =~= qualified_name_of(self));
                "rust_numpy.Int16.SliceBox"
            },
            ElementKind::Int32 => {
                proof { reveal_strlit("rust_numpy.Int32.SliceBox"); }
                assert("rust_numpy.Int32.SliceBox"@ =~= qualified_name_of(self));
                "rust_numpy.Int32.SliceBox"
            },
            ElementKind::Int64 => {
                proof { reveal_strlit("rust_numpy.Int64.SliceBox"); }
                assert("rust_numpy.Int64.SliceBox"@ =~= qualified_name_of(self));
                "rust_numpy.Int64.SliceBox"
            },
            ElementKind::Uint8 => {
                proof { reveal_strlit("rust_numpy.Uint8.SliceBox"); }
                assert("rust_numpy.Uint8.SliceBox"@ =~= qualified_name_of(self));
                "rust_numpy.Uint8.SliceBox"
            },
            ElementKind::Uint16 => {
                proof { reveal_strlit("rust_numpy.Uint16.SliceBox"); }
                assert("rust_numpy.Uint16.SliceBox"@ =~= qualified_name_of(self));
                "rust_numpy.Uint16.SliceBox"
            },
            ElementKind::Uint32 => {
                proof { reveal_strlit("rust_numpy.Uint32.SliceBox"); }
                assert("rust_numpy.Uint32.SliceBox"@ =~= qualified_name_of(self));
                "rust_numpy.Uint32.SliceBox"
            },
            ElementKind::Uint64 => {
                proof { reveal_strlit("rust_numpy.Uint64.SliceBox"); }
                assert("rust_numpy.Uint64.SliceBox"@ =~= qualified_name_of(self));
                "rust_numpy.Uint64.SliceBox"
            },
            ElementKind::Float32 => {
                proof { reveal_strlit("rust_numpy.Float32.SliceBox"); }
                assert("rust_numpy.Float32.SliceBox"@ =~= qualified_name_of(self));
                "rust_numpy.Float32.SliceBox"
            },
            ElementKind::Float64 => {
                proof { reveal_strlit("rust_numpy.Float64.SliceBox"); }
                assert("rust_numpy.Float64.SliceBox"@ =~= qualified_name_of(self));
                "rust_numpy.Float64.SliceBox"
            },
            ElementKind::Complex32 => {
                proof { reveal_strlit("rust_numpy.Complex32.SliceBox"); }
                assert("rust_numpy.Complex32.SliceBox"@ =~= qualified_name_of(self));
                "rust_numpy.Complex32.SliceBox"
            },
            ElementKind::Complex64 => {
                proof { reveal_strlit("rust_numpy.Complex64.SliceBox"); }
                assert("rust_numpy.Complex64.SliceBox"@ =~= qualified_name_of(self));
                "rust_numpy.Complex64.SliceBox"
            },
        }
    }

    /// Size in bytes of one element of this kind.
    pub fn element_size(self) -> (r: usize)
        ensures
            r as nat == size_of_kind(self),
    {
        match self {
            ElementKind::Bool | ElementKind::Int8 | ElementKind::Uint8 => 1,
            ElementKind::Int16 | ElementKind::Uint16 => 2,
            ElementKind::Int32 | ElementKind::Uint32 | ElementKind::Float32 => 4,
            ElementKind::Int64 | ElementKind::Uint64 | ElementKind::Float64
            | ElementKind::Complex32 => 8,
            ElementKind::Complex64 => 16,
        }
    }
}

} // verus!
