use vstd::prelude::*;

verus! {

/// The structural kind of a type definition.
#[derive(Clone, Copy, PartialEq, Eq, Debug, Structural)]
pub enum TypeCategory {
    Interface,
    Class,
    Enum,
    Struct,
    Delegate,
    /// None of the above: a malformed definition.
    Other,
}

/// A row of the TypeDef table.
#[derive(Debug)]
pub struct TypeDefRow {
    pub namespace: String,
    pub name: String,
    pub category: TypeCategory,
    pub is_winrt: bool,
}

/// A row of the TypeRef table, with the TypeDef row it resolves to, where it resolves.
#[derive(Debug)]
pub struct TypeRefRow {
    pub namespace: String,
    pub name: String,
    pub definition: Option<usize>,
}

/// A row of the Field table: the type definition that owns it and its signature blob.
#[derive(Debug)]
pub struct FieldRow {
    pub parent: usize,
    pub name: String,
    pub signature: Vec<u8>,
}

/// A row of the Param table.
#[derive(Debug)]
pub struct ParamRow {
    pub flags: u32,
    pub sequence: u32,
    pub name: String,
}

/// A row of the CustomAttribute table: its encoded owner and the attribute type's name.
#[derive(Debug)]
pub struct AttributeRow {
    pub parent: u32,
    pub namespace: String,
    pub name: String,
}

/// The tables of one metadata file, read-only once loaded.
#[derive(Debug)]
pub struct Metadata {
    pub type_defs: Vec<TypeDefRow>,
    pub type_refs: Vec<TypeRefRow>,
    pub fields: Vec<FieldRow>,
    pub params: Vec<ParamRow>,
    pub attributes: Vec<AttributeRow>,
}

/// Identity of a type definition: its row in the TypeDef table.
#[derive(Clone, Copy, PartialEq, Eq, Debug, Structural)]
pub struct TypeDef {
    pub row: usize,
}

/// A decoded TypeDefOrRef coded index.
#[derive(Clone, Copy, PartialEq, Eq, Debug, Structural)]
pub enum TypeDefOrRef {
    TypeDef(usize),
    TypeRef(usize),
    TypeSpec(usize),
}

/// Rows of a table whose HasAttribute encoding fits in a `u32`.
pub const MAX_ROWS: usize = 0x07FF_FFFF;

/// An owner of custom attributes, as a HasAttribute coded index names it.
#[derive(Clone, Copy, PartialEq, Eq, Debug, Structural)]
pub enum HasAttribute {
    MethodDef(usize),
    Field(usize),
    TypeRef(usize),
    TypeDef(usize),
    Param(usize),
}

/// The five-bit tag of each owner table.
pub open spec fn has_attribute_tag(owner: HasAttribute) -> int {
    match owner {
        HasAttribute::MethodDef(_) => 0,
        HasAttribute::Field(_) => 1,
        HasAttribute::TypeRef(_) => 2,
        HasAttribute::TypeDef(_) => 3,
        HasAttribute::Param(_) => 4,
    }
}

/// The 0-based row of an owner within its table.
pub open spec fn has_attribute_row(owner: HasAttribute) -> int {
    match owner {
        HasAttribute::MethodDef(r) => r as int,
        HasAttribute::Field(r) => r as int,
        HasAttribute::TypeRef(r) => r as int,
        HasAttribute::TypeDef(r) => r as int,
        HasAttribute::Param(r) => r as int,
    }
}

/// The HasAttribute coded index of an owner: the 1-based row above five tag bits.
pub open spec fn has_attribute_key(owner: HasAttribute) -> int {
    (has_attribute_row(owner) + 1) * 32 + has_attribute_tag(owner)
}

/// The owner key of the attributes of Param row `row`.
pub open spec fn param_owner_key(row: int) -> int {
    has_attribute_key(HasAttribute::Param(row as usize))
}

impl HasAttribute {
    /// The coded index that the CustomAttribute table keys this owner by.
    pub fn encode(&self) -> (r: u32)
        requires
            has_attribute_row(*self) < MAX_ROWS,
        ensures
            r == has_attribute_key(*self),
    {
        let (row, tag): (usize, u32) = match self {
            HasAttribute::MethodDef(r) => (*r, 0),
            HasAttribute::Field(r) => (*r, 1),
            HasAttribute::TypeRef(r) => (*r, 2),
            HasAttribute::TypeDef(r) => (*r, 3),
            HasAttribute::Param(r) => (*r, 4),
        };
        (row as u32 + 1) * 32 + tag
    }
}

/// The (table, row) pair a TypeDefOrRef coded index names: two tag bits select the table.
pub open spec fn type_def_or_ref_spec(code: u32) -> Option<TypeDefOrRef> {
    let row = (code as int) / 4 - 1;
    if row < 0 {
        None
    } else if code % 4 == 0 {
        Some(TypeDefOrRef::TypeDef(row as usize))
    } else if code % 4 == 1 {
        Some(TypeDefOrRef::TypeRef(row as usize))
    } else if code % 4 == 2 {
        Some(TypeDefOrRef::TypeSpec(row as usize))
    } else {
        None
    }
}

impl TypeDefOrRef {
    /// Splits a TypeDefOrRef coded index into its table and 0-based row. A null row or
    /// the unused tag is an error.
    pub fn decode(code: u32) -> (r: Option<TypeDefOrRef>)
        ensures
            r == type_def_or_ref_spec(code),
    {
        let tag = code % 4;
        let index = code / 4;
        if index == 0 {
            None
        } else if tag == 0 {
            Some(TypeDefOrRef::TypeDef((index - 1) as usize))
        } else if tag == 1 {
            Some(TypeDefOrRef::TypeRef((index - 1) as usize))
        } else if tag == 2 {
            Some(TypeDefOrRef::TypeSpec((index - 1) as usize))
        } else {
            None
        }
    }
}

impl Metadata {
    /// The CustomAttribute table is sorted by its owner column.
    pub open spec fn attributes_sorted(&self) -> bool {
        forall|i: int, j: int|
            0 <= i < j < self.attributes.len() ==> #[trigger] self.attributes[i].parent
                <= #[trigger] self.attributes[j].parent
    }
}

/// `[lo, hi)` is exactly the run of rows whose owner key is `key`.
pub open spec fn is_key_run(rows: Seq<AttributeRow>, key: u32, lo: int, hi: int) -> bool {
    &&& 0 <= lo <= hi <= rows.len()
    &&& forall|i: int| lo <= i < hi ==> (#[trigger] rows[i]).parent == key
    &&& forall|i: int| 0 <= i < rows.len() && !(lo <= i < hi) ==> (#[trigger] rows[i]).parent != key
}

/// Binary-searches the run of rows whose owner key equals `key` in a table sorted by
/// that key. No matching row gives an empty run.
pub fn equal_range(rows: &Vec<AttributeRow>, key: u32) -> (r: (usize, usize))
    requires
        forall|i: int, j: int|
            0 <= i < j < rows.len() ==> #[trigger] rows[i].parent <= #[trigger] rows[j].parent,
    ensures
        is_key_run(rows@, key, r.0 as int, r.1 as int),
{
    let n = rows.len();
    let mut lo: usize = 0;
    let mut hi: usize = n;
    while lo < hi
        invariant
            n == rows.len(),
            0 <= lo <= hi <= n,
            forall|i: int| 0 <= i < lo ==> (#[trigger] rows[i]).parent < key,
            forall|i: int| hi <= i < n ==> (#[trigger] rows[i]).parent >= key,
            forall|i: int, j: int|
                0 <= i < j < rows.len() ==> #[trigger] rows[i].parent <= #[trigger] rows[j].parent,
        decreases hi - lo,
    {
        let mid = lo + (hi - lo) / 2;
        if rows[mid].parent < key {
            lo = mid + 1;
        } else {
            hi = mid;
        }
    }
    let first = lo;
    let mut hi: usize = n;
    while lo < hi
        invariant
            n == rows.len(),
            first <= lo <= hi <= n,
            forall|i: int| 0 <= i < first ==> (#[trigger] rows[i]).parent < key,
            forall|i: int| first <= i < n ==> (#[trigger] rows[i]).parent >= key,
            forall|i: int| first <= i < lo ==> (#[trigger] rows[i]).parent <= key,
            forall|i: int| hi <= i < n ==> (#[trigger] rows[i]).parent > key,
            forall|i: int, j: int|
                0 <= i < j < rows.len() ==> #[trigger] rows[i].parent <= #[trigger] rows[j].parent,
        decreases hi - lo,
    {
        let mid = lo + (hi - lo) / 2;
        if rows[mid].parent <= key {
            lo = mid + 1;
        } else {
            hi = mid;
        }
    }
    (first, lo)
}

} // verus!
