use vstd::prelude::*;
use crate::blob::{compressed_at, Blob, DecodeError};
use crate::tables::{type_def_or_ref_spec, Metadata, TypeCategory, TypeDef, TypeDefOrRef};

verus! {

/// How deeply generic instantiations may nest before decoding gives up.
pub const MAX_DEPTH: usize = 64;

/// The mathematical value of an `ElementType`: type definitions and members by row.
pub enum Ty {
    NotYetSupported,
    Void,
    Bool,
    Char,
    I8,
    U8,
    I16,
    U16,
    I32,
    U32,
    I64,
    U64,
    F32,
    F64,
    ISize,
    USize,
    String,
    Object,
    Guid,
    IUnknown,
    ErrorCode,
    Bool32,
    Matrix3x2,
    TypeName,
    GenericParam(nat),
    Function(nat, nat),
    Constant(nat, nat),
    Class(nat, Seq<Ty>),
    Interface(nat, Seq<Ty>),
    ComInterface(nat, Seq<Ty>),
    Enum(nat),
    Struct(nat),
    Delegate(nat, Seq<Ty>),
    Callback(nat),
}

/// A method or field of a type definition.
#[derive(Clone, Copy, PartialEq, Eq, Debug, Structural)]
pub struct MemberRef {
    pub def: TypeDef,
    pub row: usize,
}

/// A type definition together with the generic arguments it is instantiated with.
#[derive(Debug)]
pub struct GenericType {
    pub def: TypeDef,
    pub generics: Vec<ElementType>,
}

/// Every value a parameter, field or return slot can hold.
#[derive(Debug)]
pub enum ElementType {
    NotYetSupported,
    Void,
    Bool,
    Char,
    I8,
    U8,
    I16,
    U16,
    I32,
    U32,
    I64,
    U64,
    F32,
    F64,
    ISize,
    USize,
    String,
    Object,
    Guid,
    IUnknown,
    ErrorCode,
    Bool32,
    Matrix3x2,
    TypeName,
    GenericParam(u32),
    Function(MemberRef),
    Constant(MemberRef),
    Class(GenericType),
    Interface(GenericType),
    ComInterface(GenericType),
    Enum(TypeDef),
    Struct(TypeDef),
    Delegate(GenericType),
    Callback(TypeDef),
}

impl GenericType {
    /// The models of the generic arguments.
    pub open spec fn args_model(self) -> Seq<Ty>
        decreases self,
    {
        Seq::new(
            self.generics.len() as nat,
            |i: int|
                if 0 <= i < self.generics.len() {
                    self.generics[i].model()
                } else {
                    Ty::Void
                },
        )
    }
}

/// The models of a sequence of element types.
pub open spec fn models(v: Seq<ElementType>) -> Seq<Ty> {
    Seq::new(v.len(), |i: int| v[i].model())
}

/// The argument models of a generic type are the models of its arguments, in order.
pub proof fn lemma_args_model(g: GenericType)
    ensures
        g.args_model() == models(g.generics@),
{
    assert(g.args_model() =~= models(g.generics@));
}

impl ElementType {
    /// The mathematical value of this element type.
    pub open spec fn model(self) -> Ty
        decreases self,
    {
        match self {
            ElementType::NotYetSupported => Ty::NotYetSupported,
            ElementType::Void => Ty::Void,
            ElementType::Bool => Ty::Bool,
            ElementType::Char => Ty::Char,
            ElementType::I8 => Ty::I8,
            ElementType::U8 => Ty::U8,
            ElementType::I16 => Ty::I16,
            ElementType::U16 => Ty::U16,
            ElementType::I32 => Ty::I32,
            ElementType::U32 => Ty::U32,
            ElementType::I64 => Ty::I64,
            ElementType::U64 => Ty::U64,
            ElementType::F32 => Ty::F32,
            ElementType::F64 => Ty::F64,
            ElementType::ISize => Ty::ISize,
            ElementType::USize => Ty::USize,
            ElementType::String => Ty::String,
            ElementType::Object => Ty::Object,
            ElementType::Guid => Ty::Guid,
            ElementType::IUnknown => Ty::IUnknown,
            ElementType::ErrorCode => Ty::ErrorCode,
            ElementType::Bool32 => Ty::Bool32,
            ElementType::Matrix3x2 => Ty::Matrix3x2,
            ElementType::TypeName => Ty::TypeName,
            ElementType::GenericParam(i) => Ty::GenericParam(i as nat),
            ElementType::Function(m) => Ty::Function(m.def.row as nat, m.row as nat),
            ElementType::Constant(m) => Ty::Constant(m.def.row as nat, m.row as nat),
            ElementType::Class(g) => Ty::Class(g.def.row as nat, g.args_model()),
            ElementType::Interface(g) => Ty::Interface(g.def.row as nat, g.args_model()),
            ElementType::ComInterface(g) => Ty::ComInterface(g.def.row as nat, g.args_model()),
            ElementType::Enum(d) => Ty::Enum(d.row as nat),
            ElementType::Struct(d) => Ty::Struct(d.row as nat),
            ElementType::Delegate(g) => Ty::Delegate(g.def.row as nat, g.args_model()),
            ElementType::Callback(d) => Ty::Callback(d.row as nat),
        }
    }
}

/// The primitive that a fixed element-type code stands for.
pub open spec fn primitive_of(code: u32) -> Option<Ty> {
    if code == 0x01 {
        Some(Ty::Void)
    } else if code == 0x02 {
        Some(Ty::Bool)
    } else if code == 0x03 {
        Some(Ty::Char)
    } else if code == 0x04 {
        Some(Ty::I8)
    } else if code == 0x05 {
        Some(Ty::U8)
    } else if code == 0x06 {
        Some(Ty::I16)
    } else if code == 0x07 {
        Some(Ty::U16)
    } else if code == 0x08 {
        Some(Ty::I32)
    } else if code == 0x09 {
        Some(Ty::U32)
    } else if code == 0x0a {
        Some(Ty::I64)
    } else if code == 0x0b {
        Some(Ty::U64)
    } else if code == 0x0c {
        Some(Ty::F32)
    } else if code == 0x0d {
        Some(Ty::F64)
    } else if code == 0x0e {
        Some(Ty::String)
    } else if code == 0x18 {
        Some(Ty::ISize)
    } else if code == 0x19 {
        Some(Ty::USize)
    } else {
        None
    }
}

/// Well-known system types that stand for an intrinsic whatever their definition says.
pub open spec fn alias_of(namespace: Seq<char>, name: Seq<char>) -> Option<Ty> {
    if (namespace == "System"@ || namespace == "Windows.Win32.Com"@) && name == "Guid"@ {
        Some(Ty::Guid)
    } else if namespace == "Windows.Win32.Com"@ && name == "IUnknown"@ {
        Some(Ty::IUnknown)
    } else if namespace == "Windows.Foundation"@ && name == "HResult"@ {
        Some(Ty::ErrorCode)
    } else if namespace == "Windows.Win32.Com"@ && name == "HRESULT"@ {
        Some(Ty::ErrorCode)
    } else if namespace == "Windows.Win32.SystemServices"@ && name == "BOOL"@ {
        Some(Ty::Bool32)
    } else if namespace == "Windows.Win32.SystemServices"@ && name == "LARGE_INTEGER"@ {
        Some(Ty::I64)
    } else if namespace == "Windows.Win32.SystemServices"@ && name == "ULARGE_INTEGER"@ {
        Some(Ty::U64)
    } else if namespace == "Windows.Win32.Direct2D"@ && name == "D2D_MATRIX_3X2_F"@ {
        Some(Ty::Matrix3x2)
    } else if namespace == "System"@ && name == "Type"@ {
        Some(Ty::TypeName)
    } else {
        None
    }
}

/// Structural classification of a type definition instantiated with `args`.
pub open spec fn classify(md: &Metadata, def: int, args: Seq<Ty>) -> Result<Ty, DecodeError> {
    if def < 0 || def >= md.type_defs.len() {
        Err(DecodeError::InvalidIndex)
    } else {
        let row = md.type_defs[def];
        let d = def as nat;
        match row.category {
            TypeCategory::Interface => Ok(
                if row.is_winrt {
                    Ty::Interface(d, args)
                } else {
                    Ty::ComInterface(d, args)
                },
            ),
            TypeCategory::Class => Ok(Ty::Class(d, args)),
            TypeCategory::Enum => if args.len() == 0 {
                Ok(Ty::Enum(d))
            } else {
                Err(DecodeError::InvalidCategory)
            },
            TypeCategory::Struct => if args.len() == 0 {
                Ok(Ty::Struct(d))
            } else {
                Err(DecodeError::InvalidCategory)
            },
            TypeCategory::Delegate => Ok(
                if row.is_winrt {
                    Ty::Delegate(d, args)
                } else {
                    Ty::Callback(d)
                },
            ),
            TypeCategory::Other => Err(DecodeError::InvalidCategory),
        }
    }
}

/// What a class or valuetype reference with TypeDefOrRef index `code` decodes to.
pub open spec fn class_ref(md: &Metadata, code: u32) -> Result<Ty, DecodeError> {
    match type_def_or_ref_spec(code) {
        Some(TypeDefOrRef::TypeDef(r)) => classify(md, r as int, Seq::empty()),
        Some(TypeDefOrRef::TypeRef(r)) => if r >= md.type_refs.len() {
            Err(DecodeError::InvalidIndex)
        } else {
            let tr = md.type_refs[r as int];
            match alias_of(tr.namespace@, tr.name@) {
                Some(t) => Ok(t),
                None => if tr.namespace@.len() == 0 {
                    Ok(Ty::NotYetSupported)
                } else {
                    match tr.definition {
                        Some(d) => classify(md, d as int, Seq::empty()),
                        None => Err(DecodeError::InvalidIndex),
                    }
                },
            }
        },
        _ => Err(DecodeError::InvalidIndex),
    }
}

/// The TypeDef row that TypeDefOrRef index `code` names, following a TypeRef to its definition.
pub open spec fn open_def(md: &Metadata, code: u32) -> Result<int, DecodeError> {
    let target = match type_def_or_ref_spec(code) {
        Some(TypeDefOrRef::TypeDef(r)) => Some(r),
        Some(TypeDefOrRef::TypeRef(r)) => if r < md.type_refs.len() {
            md.type_refs[r as int].definition
        } else {
            None
        },
        _ => None,
    };
    match target {
        Some(d) => if d < md.type_defs.len() {
            Ok(d as int)
        } else {
            Err(DecodeError::InvalidIndex)
        },
        None => Err(DecodeError::InvalidIndex),
    }
}

/// The element type encoded at `pos`, with the position after it, decoded against the
/// enclosing generic arguments `generics`; `depth` bounds how deeply instantiations nest.
pub open spec fn decode(
    md: &Metadata,
    data: Seq<u8>,
    pos: int,
    generics: Seq<Ty>,
    depth: nat,
) -> Result<(Ty, int), DecodeError>
    decreases depth, 1nat,
{
    match compressed_at(data, pos) {
        Err(e) => Err(e),
        Ok((code, p)) => if primitive_of(code) is Some {
            Ok((primitive_of(code)->0, p))
        } else if code == 0x11 || code == 0x12 {
            match compressed_at(data, p) {
                Err(e) => Err(e),
                Ok((c, p2)) => match class_ref(md, c) {
                    Ok(t) => Ok((t, p2)),
                    Err(e) => Err(e),
                },
            }
        } else if code == 0x13 {
            match compressed_at(data, p) {
                Err(e) => Err(e),
                Ok((i, p2)) => if i < generics.len() {
                    Ok((generics[i as int], p2))
                } else {
                    Err(DecodeError::GenericOutOfRange)
                },
            }
        } else if code == 0x14 {
            Ok((Ty::NotYetSupported, p))
        } else if code == 0x15 {
            decode_instance(md, data, p, generics, depth)
        } else {
            Err(DecodeError::UnknownCode)
        },
    }
}

/// A generic instantiation after its code: a class or valuetype marker, the open type,
/// the argument count and the arguments.
pub open spec fn decode_instance(
    md: &Metadata,
    data: Seq<u8>,
    pos: int,
    generics: Seq<Ty>,
    depth: nat,
) -> Result<(Ty, int), DecodeError>
    decreases depth, 0nat,
{
    match compressed_at(data, pos) {
        Err(e) => Err(e),
        Ok((m, p)) => if m != 0x11 && m != 0x12 {
            Err(DecodeError::UnknownCode)
        } else {
            match compressed_at(data, p) {
                Err(e) => Err(e),
                Ok((c, p2)) => match open_def(md, c) {
                    Err(e) => Err(e),
                    Ok(d) => match compressed_at(data, p2) {
                        Err(e) => Err(e),
                        Ok((n, p3)) => if depth == 0 {
                            Err(DecodeError::TooDeep)
                        } else {
                            match decode_args(md, data, p3, generics, n as nat, (depth - 1) as nat) {
                                Err(e) => Err(e),
                                Ok((args, p4)) => match md.type_defs[d].category {
                                    TypeCategory::Interface => Ok((Ty::Interface(d as nat, args), p4)),
                                    TypeCategory::Delegate => Ok((Ty::Delegate(d as nat, args), p4)),
                                    _ => Err(DecodeError::InvalidCategory),
                                },
                            }
                        },
                    },
                },
            }
        },
    }
}

/// `n` element types one after another from `pos`.
pub open spec fn decode_args(
    md: &Metadata,
    data: Seq<u8>,
    pos: int,
    generics: Seq<Ty>,
    n: nat,
    depth: nat,
) -> Result<(Seq<Ty>, int), DecodeError>
    decreases depth, n + 1,
{
    if n == 0 {
        Ok((Seq::empty(), pos))
    } else {
        match decode(md, data, pos, generics, depth) {
            Err(e) => Err(e),
            Ok((t, p)) => match decode_args(md, data, p, generics, (n - 1) as nat, depth) {
                Err(e) => Err(e),
                Ok((rest, p2)) => Ok((seq![t] + rest, p2)),
            },
        }
    }
}

/// `r` is what the spec result `s` describes, ending at `pos`.
pub open spec fn decoded_as(
    r: Result<ElementType, DecodeError>,
    s: Result<(Ty, int), DecodeError>,
    pos: int,
) -> bool {
    match s {
        Ok((t, p)) => r is Ok && r->Ok_0.model() == t && pos == p,
        Err(e) => r == Err::<ElementType, DecodeError>(e),
    }
}

/// A sequence result with `prefix` put in front of its items.
pub open spec fn prefixed(
    prefix: Seq<Ty>,
    s: Result<(Seq<Ty>, int), DecodeError>,
) -> Result<(Seq<Ty>, int), DecodeError> {
    match s {
        Ok((rest, p)) => Ok((prefix + rest, p)),
        Err(e) => Err(e),
    }
}

/// Reference types: the ones whose values can be null.
pub open spec fn is_nullable_spec(t: Ty) -> bool {
    match t {
        Ty::Object | Ty::IUnknown | Ty::Function(..) | Ty::Interface(..) | Ty::Class(..)
        | Ty::ComInterface(..) | Ty::Delegate(..) | Ty::Callback(..) => true,
        _ => false,
    }
}

/// `r` is the exec form of the spec result `s`.
pub open spec fn resolved_as(r: Result<ElementType, DecodeError>, s: Result<Ty, DecodeError>) -> bool {
    match s {
        Ok(t) => r is Ok && r->Ok_0.model() == t,
        Err(e) => r == Err::<ElementType, DecodeError>(e),
    }
}

/// Whether a string holds exactly the text of `lit`.
fn text_is(s: &String, lit: &str) -> (r: bool)
    ensures
        r == (s@ == lit@),
{
    let t = lit.to_owned();
    *s == t
}

/// The intrinsic that a well-known (namespace, name) pair stands for, if any.
fn well_known(namespace: &String, name: &String) -> (r: Option<ElementType>)
    ensures
        match alias_of(namespace@, name@) {
            Some(t) => r is Some && r->0.model() == t,
            None => r is None,
        },
{
    let com = text_is(namespace, "Windows.Win32.Com");
    let services = text_is(namespace, "Windows.Win32.SystemServices");
    let system = text_is(namespace, "System");
    if (system || com) && text_is(name, "Guid") {
        Some(ElementType::Guid)
    } else if com && text_is(name, "IUnknown") {
        Some(ElementType::IUnknown)
    } else if text_is(namespace, "Windows.Foundation") && text_is(name, "HResult") {
        Some(ElementType::ErrorCode)
    } else if com && text_is(name, "HRESULT") {
        Some(ElementType::ErrorCode)
    } else if services && text_is(name, "BOOL") {
        Some(ElementType::Bool32)
    } else if services && text_is(name, "LARGE_INTEGER") {
        Some(ElementType::I64)
    } else if services && text_is(name, "ULARGE_INTEGER") {
        Some(ElementType::U64)
    } else if text_is(namespace, "Windows.Win32.Direct2D") && text_is(name, "D2D_MATRIX_3X2_F") {
        Some(ElementType::Matrix3x2)
    } else if system && text_is(name, "Type") {
        Some(ElementType::TypeName)
    } else {
        None
    }
}

impl GenericType {
    /// A copy with the same definition and equal arguments.
    pub fn duplicate(&self) -> (r: GenericType)
        ensures
            r.def == self.def,
            r.args_model() == self.args_model(),
        decreases self,
    {
        let mut v: Vec<ElementType> = Vec::new();
        let mut i: usize = 0;
        while i < self.generics.len()
            invariant
                i <= self.generics.len(),
                v.len() == i,
                forall|j: int| 0 <= j < i ==> (#[trigger] v[j]).model() == self.generics[j].model(),
            decreases self.generics.len() - i,
        {
            v.push(self.generics[i].duplicate());
            i += 1;
        }
        let r = GenericType { def: self.def, generics: v };
        assert(r.args_model() =~= self.args_model());
        r
    }
}

impl ElementType {
    /// A copy with an equal model.
    pub fn duplicate(&self) -> (r: ElementType)
        ensures
            r.model() == self.model(),
        decreases self,
    {
        match self {
            ElementType::NotYetSupported => ElementType::NotYetSupported,
            ElementType::Void => ElementType::Void,
            ElementType::Bool => ElementType::Bool,
            ElementType::Char => ElementType::Char,
            ElementType::I8 => ElementType::I8,
            ElementType::U8 => ElementType::U8,
            ElementType::I16 => ElementType::I16,
            ElementType::U16 => ElementType::U16,
            ElementType::I32 => ElementType::I32,
            ElementType::U32 => ElementType::U32,
            ElementType::I64 => ElementType::I64,
            ElementType::U64 => ElementType::U64,
            ElementType::F32 => ElementType::F32,
            ElementType::F64 => ElementType::F64,
            ElementType::ISize => ElementType::ISize,
            ElementType::USize => ElementType::USize,
            ElementType::String => ElementType::String,
            ElementType::Object => ElementType::Object,
            ElementType::Guid => ElementType::Guid,
            ElementType::IUnknown => ElementType::IUnknown,
            ElementType::ErrorCode => ElementType::ErrorCode,
            ElementType::Bool32 => ElementType::Bool32,
            ElementType::Matrix3x2 => ElementType::Matrix3x2,
            ElementType::TypeName => ElementType::TypeName,
            ElementType::GenericParam(i) => ElementType::GenericParam(*i),
            ElementType::Function(m) => ElementType::Function(*m),
            ElementType::Constant(m) => ElementType::Constant(*m),
            ElementType::Class(g) => ElementType::Class(g.duplicate()),
            ElementType::Interface(g) => ElementType::Interface(g.duplicate()),
            ElementType::ComInterface(g) => ElementType::ComInterface(g.duplicate()),
            ElementType::Enum(d) => ElementType::Enum(*d),
            ElementType::Struct(d) => ElementType::Struct(*d),
            ElementType::Delegate(g) => ElementType::Delegate(g.duplicate()),
            ElementType::Callback(d) => ElementType::Callback(*d),
        }
    }

    /// The primitive that a fixed element-type code stands for; `None` for any other code.
    pub fn from_code(code: u32) -> (r: Option<ElementType>)
        ensures
            match r {
                Some(t) => primitive_of(code) == Some(t.model()),
                None => primitive_of(code) is None,
            },
    {
        match code {
            0x01 => Some(ElementType::Void),
            0x02 => Some(ElementType::Bool),
            0x03 => Some(ElementType::Char),
            0x04 => Some(ElementType::I8),
            0x05 => Some(ElementType::U8),
            0x06 => Some(ElementType::I16),
            0x07 => Some(ElementType::U16),
            0x08 => Some(ElementType::I32),
            0x09 => Some(ElementType::U32),
            0x0a => Some(ElementType::I64),
            0x0b => Some(ElementType::U64),
            0x0c => Some(ElementType::F32),
            0x0d => Some(ElementType::F64),
            0x18 => Some(ElementType::ISize),
            0x19 => Some(ElementType::USize),
            0x0e => Some(ElementType::String),
            _ => None,
        }
    }

    /// Classifies a type definition by its category, instantiated with `generics`.
    pub fn from_type_def(md: &Metadata, def: TypeDef, generics: Vec<ElementType>) -> (r: Result<
        ElementType,
        DecodeError,
    >)
        ensures
            resolved_as(r, classify(md, def.row as int, models(generics@))),
    {
        if def.row >= md.type_defs.len() {
            return Err(DecodeError::InvalidIndex);
        }
        let row = &md.type_defs[def.row];
        let g = GenericType { def, generics };
        proof {
            lemma_args_model(g);
        }
        match row.category {
            TypeCategory::Interface => if row.is_winrt {
                Ok(ElementType::Interface(g))
            } else {
                Ok(ElementType::ComInterface(g))
            },
            TypeCategory::Class => Ok(ElementType::Class(g)),
            TypeCategory::Enum => if g.generics.len() == 0 {
                Ok(ElementType::Enum(def))
            } else {
                Err(DecodeError::InvalidCategory)
            },
            TypeCategory::Struct => if g.generics.len() == 0 {
                Ok(ElementType::Struct(def))
            } else {
                Err(DecodeError::InvalidCategory)
            },
            TypeCategory::Delegate => if row.is_winrt {
                Ok(ElementType::Delegate(g))
            } else {
                Ok(ElementType::Callback(def))
            },
            TypeCategory::Other => Err(DecodeError::InvalidCategory),
        }
    }

    /// Whether a value of this type can be null: reference types only.
    pub fn is_nullable(&self) -> (r: bool)
        ensures
            r == is_nullable_spec(self.model()),
    {
        match self {
            ElementType::Object | ElementType::IUnknown | ElementType::Function(_)
            | ElementType::Interface(_) | ElementType::Class(_) | ElementType::ComInterface(_)
            | ElementType::Delegate(_) | ElementType::Callback(_) => true,
            _ => false,
        }
    }
}

/// Resolves the TypeDefOrRef index of a class or valuetype reference.
fn resolve_class_ref(md: &Metadata, code: u32) -> (r: Result<ElementType, DecodeError>)
    ensures
        resolved_as(r, class_ref(md, code)),
{
    match TypeDefOrRef::decode(code) {
        Some(TypeDefOrRef::TypeDef(row)) => {
            let r = ElementType::from_type_def(md, TypeDef { row }, Vec::new());
            proof {
                assert(models(Seq::<ElementType>::empty()) =~= Seq::<Ty>::empty());
            }
            r
        },
        Some(TypeDefOrRef::TypeRef(row)) => {
            if row >= md.type_refs.len() {
                return Err(DecodeError::InvalidIndex);
            }
            let tr = &md.type_refs[row];
            proof {
                reveal_strlit("");
                if tr.namespace@.len() == 0 {
                    assert(tr.namespace@ =~= ""@);
                }
            }
            match well_known(&tr.namespace, &tr.name) {
                Some(t) => Ok(t),
                None => {
                    if text_is(&tr.namespace, "") {
                        Ok(ElementType::NotYetSupported)
                    } else {
                        match tr.definition {
                            Some(d) => {
                                let r = ElementType::from_type_def(md, TypeDef { row: d }, Vec::new());
                                proof {
                                    assert(models(Seq::<ElementType>::empty()) =~= Seq::<Ty>::empty());
                                }
                                r
                            },
                            None => Err(DecodeError::InvalidIndex),
                        }
                    }
                },
            }
        },
        _ => Err(DecodeError::InvalidIndex),
    }
}

/// The TypeDef row that a TypeDefOrRef index names, following a TypeRef to its definition.
fn resolve_open_def(md: &Metadata, code: u32) -> (r: Result<usize, DecodeError>)
    ensures
        match open_def(md, code) {
            Ok(d) => r == Ok::<usize, DecodeError>(d as usize) && d < md.type_defs.len(),
            Err(e) => r == Err::<usize, DecodeError>(e),
        },
{
    let target = match TypeDefOrRef::decode(code) {
        Some(TypeDefOrRef::TypeDef(r)) => Some(r),
        Some(TypeDefOrRef::TypeRef(r)) => if r < md.type_refs.len() {
            md.type_refs[r].definition
        } else {
            None
        },
        _ => None,
    };
    match target {
        Some(d) => if d < md.type_defs.len() {
            Ok(d)
        } else {
            Err(DecodeError::InvalidIndex)
        },
        None => Err(DecodeError::InvalidIndex),
    }
}

/// Decodes one element type, with `depth` levels of generic instantiation left.
fn decode_in(md: &Metadata, blob: &mut Blob, generics: &[ElementType], depth: usize) -> (r: Result<
    ElementType,
    DecodeError,
>)
    ensures
        final(blob).data@ == old(blob).data@,
        decoded_as(
            r,
            decode(md, old(blob).data@, old(blob).pos as int, models(generics@), depth as nat),
            final(blob).pos as int,
        ),
    decreases depth, 1nat,
{
    let code = match blob.read_unsigned() {
        Ok(c) => c,
        Err(e) => return Err(e),
    };
    if let Some(t) = ElementType::from_code(code) {
        return Ok(t);
    }
    if code == 0x11 || code == 0x12 {
        let c = match blob.read_unsigned() {
            Ok(c) => c,
            Err(e) => return Err(e),
        };
        resolve_class_ref(md, c)
    } else if code == 0x13 {
        let i = match blob.read_unsigned() {
            Ok(i) => i,
            Err(e) => return Err(e),
        };
        if (i as usize) < generics.len() {
            Ok(generics[i as usize].duplicate())
        } else {
            Err(DecodeError::GenericOutOfRange)
        }
    } else if code == 0x14 {
        Ok(ElementType::NotYetSupported)
    } else if code == 0x15 {
        decode_instance_in(md, blob, generics, depth)
    } else {
        Err(DecodeError::UnknownCode)
    }
}

#[verifier::loop_isolation(false)]
/// Decodes a generic instantiation after its code.
fn decode_instance_in(md: &Metadata, blob: &mut Blob, generics: &[ElementType], depth: usize) -> (r: Result<
    ElementType,
    DecodeError,
>)
    ensures
        final(blob).data@ == old(blob).data@,
        decoded_as(
            r,
            decode_instance(md, old(blob).data@, old(blob).pos as int, models(generics@), depth as nat),
            final(blob).pos as int,
        ),
    decreases depth, 0nat,
{
    let ghost data = blob.data@;
    let ghost gm = models(generics@);
    let m = match blob.read_unsigned() {
        Ok(m) => m,
        Err(e) => return Err(e),
    };
    if m != 0x11 && m != 0x12 {
        return Err(DecodeError::UnknownCode);
    }
    let c = match blob.read_unsigned() {
        Ok(c) => c,
        Err(e) => return Err(e),
    };
    let d = match resolve_open_def(md, c) {
        Ok(d) => d,
        Err(e) => return Err(e),
    };
    let n = match blob.read_unsigned() {
        Ok(n) => n,
        Err(e) => return Err(e),
    };
    if depth == 0 {
        return Err(DecodeError::TooDeep);
    }
    let ghost start = blob.pos as int;
    let mut args: Vec<ElementType> = Vec::new();
    let mut k: u32 = 0;
    while k < n
        invariant
            k <= n,
            blob.data@ == data,
            data == old(blob).data@,
            gm == models(generics@),
            args.len() == k,
            depth > 0,
            decode_args(md, data, start, gm, n as nat, (depth - 1) as nat) == prefixed(
                models(args@),
                decode_args(md, data, blob.pos as int, gm, (n - k) as nat, (depth - 1) as nat),
            ),
        decreases n - k,
    {
        let ghost before = models(args@);
        let ghost pos0 = blob.pos as int;
        let ghost k0 = k;
        let res = decode_in(md, blob, generics, depth - 1);
        let t = match res {
            Ok(t) => t,
            Err(e) => return Err(e),
        };
        let ghost tm = t.model();
        args.push(t);
        k += 1;
        proof {
            let d1 = (depth - 1) as nat;
            assert(decode(md, data, pos0, gm, d1) == Ok::<(Ty, int), DecodeError>((tm, blob.pos as int)));
            assert(decode_args(md, data, pos0, gm, (n - k0) as nat, d1) == prefixed(
                seq![tm],
                decode_args(md, data, blob.pos as int, gm, (n - k) as nat, d1),
            ));
            assert(models(args@) =~= before.push(tm));
            match decode_args(md, data, blob.pos as int, gm, (n - k) as nat, (depth - 1) as nat) {
                Ok((rest, p)) => {
                    assert(before + (seq![tm] + rest) =~= before.push(tm) + rest);
                },
                Err(e) => {},
            }
        }
    }
    proof {
        assert(models(args@) + Seq::<Ty>::empty() =~= models(args@));
    }
    let g = GenericType { def: TypeDef { row: d }, generics: args };
    proof {
        lemma_args_model(g);
    }
    match md.type_defs[d].category {
        TypeCategory::Interface => Ok(ElementType::Interface(g)),
        TypeCategory::Delegate => Ok(ElementType::Delegate(g)),
        _ => Err(DecodeError::InvalidCategory),
    }
}

impl ElementType {
    /// Decodes one element type from `blob` against the enclosing generic arguments.
    pub fn from_blob(md: &Metadata, blob: &mut Blob, generics: &[ElementType]) -> (r: Result<
        ElementType,
        DecodeError,
    >)
        ensures
            final(blob).data@ == old(blob).data@,
            decoded_as(
                r,
                decode(md, old(blob).data@, old(blob).pos as int, models(generics@), MAX_DEPTH as nat),
                final(blob).pos as int,
            ),
    {
        decode_in(md, blob, generics, MAX_DEPTH)
    }
}

/// The type definition at the top of a resolved type, where it names one.
pub open spec fn definition_of(t: Ty) -> Option<nat> {
    match t {
        Ty::Function(d, _) => Some(d),
        Ty::Constant(d, _) => Some(d),
        Ty::Class(d, _) => Some(d),
        Ty::Interface(d, _) => Some(d),
        Ty::ComInterface(d, _) => Some(d),
        Ty::Enum(d) => Some(d),
        Ty::Struct(d) => Some(d),
        Ty::Delegate(d, _) => Some(d),
        Ty::Callback(d) => Some(d),
        _ => None,
    }
}

/// An optional row as a sequence of zero or one rows.
pub open spec fn opt_seq(o: Option<nat>) -> Seq<nat> {
    match o {
        Some(d) => seq![d],
        None => Seq::empty(),
    }
}

/// The definition that a field's type names: its blob holds a one-byte prologue, then the type.
pub open spec fn field_definition(md: &Metadata, k: int) -> Option<nat> {
    match decode(md, md.fields[k].signature@, 1, Seq::empty(), MAX_DEPTH as nat) {
        Ok((t, _)) => definition_of(t),
        Err(_) => None,
    }
}

/// The definitions named by the types of the first `k` fields owned by `def`.
pub open spec fn field_defs(md: &Metadata, def: nat, k: nat) -> Seq<nat>
    decreases k,
{
    if k == 0 || k > md.fields.len() {
        Seq::empty()
    } else {
        let prev = field_defs(md, def, (k - 1) as nat);
        if md.fields[k - 1].parent == def {
            prev + opt_seq(field_definition(md, k - 1))
        } else {
            prev
        }
    }
}

/// The definitions named by generic arguments, in order.
pub open spec fn args_defs(args: Seq<Ty>) -> Seq<nat>
    decreases args.len(),
{
    if args.len() == 0 {
        Seq::empty()
    } else {
        args_defs(args.drop_last()) + opt_seq(definition_of(args.last()))
    }
}

/// The type definitions that a resolved type depends on for emission ordering.
pub open spec fn deps_spec(md: &Metadata, t: Ty) -> Seq<nat> {
    match t {
        Ty::Function(d, _) => seq![d],
        Ty::Constant(d, _) => seq![d],
        Ty::Callback(d) => seq![d],
        Ty::Struct(d) => seq![d] + field_defs(md, d, md.fields.len() as nat),
        Ty::Class(d, a) => seq![d] + field_defs(md, d, md.fields.len() as nat) + args_defs(a),
        Ty::Interface(d, a) => seq![d] + args_defs(a),
        Ty::ComInterface(d, a) => seq![d] + args_defs(a),
        Ty::Delegate(d, a) => seq![d] + args_defs(a),
        _ => Seq::empty(),
    }
}

/// The rows of a sequence of type definitions.
pub open spec fn rows(v: Seq<TypeDef>) -> Seq<nat> {
    v.map_values(|d: TypeDef| d.row as nat)
}

/// Appends a definition, where there is one.
fn push_def(out: &mut Vec<TypeDef>, d: Option<TypeDef>)
    ensures
        rows(final(out)@) == rows(old(out)@) + opt_seq(
            match d {
                Some(x) => Some(x.row as nat),
                None => None,
            },
        ),
{
    if let Some(x) = d {
        out.push(x);
        assert(rows(out@) =~= rows(old(out)@) + seq![x.row as nat]);
    } else {
        assert(rows(out@) =~= rows(old(out)@) + Seq::empty());
    }
}

/// Decodes the type of field `k` and gives the definition it names.
fn field_def_of(md: &Metadata, k: usize) -> (r: Option<TypeDef>)
    requires
        k < md.fields.len(),
    ensures
        match r {
            Some(d) => field_definition(md, k as int) == Some(d.row as nat),
            None => field_definition(md, k as int) is None,
        },
{
    let sig = &md.fields[k].signature;
    let mut data: Vec<u8> = Vec::new();
    let mut j: usize = 0;
    while j < sig.len()
        invariant
            j <= sig.len(),
            data@ == sig@.take(j as int),
        decreases sig.len() - j,
    {
        data.push(sig[j]);
        j += 1;
        assert(data@ =~= sig@.take(j as int));
    }
    assert(data@ =~= sig@);
    let mut blob = Blob { data, pos: 1 };
    let empty: Vec<ElementType> = Vec::new();
    assert(models(empty@) =~= Seq::<Ty>::empty());
    match ElementType::from_blob(md, &mut blob, empty.as_slice()) {
        Ok(t) => t.definition(),
        Err(_) => None,
    }
}

/// Appends the definitions that the fields of `def` name.
fn push_field_defs(md: &Metadata, def: usize, out: &mut Vec<TypeDef>)
    ensures
        rows(final(out)@) == rows(old(out)@) + field_defs(md, def as nat, md.fields.len() as nat),
{
    let mut k: usize = 0;
    while k < md.fields.len()
        invariant
            k <= md.fields.len(),
            rows(out@) == rows(old(out)@) + field_defs(md, def as nat, k as nat),
        decreases md.fields.len() - k,
    {
        let ghost before = rows(out@);
        if md.fields[k].parent == def {
            let d = field_def_of(md, k);
            push_def(out, d);
            assert(field_defs(md, def as nat, k as nat + 1) == field_defs(md, def as nat, k as nat)
                + opt_seq(field_definition(md, k as int)));
        } else {
            assert(field_defs(md, def as nat, k as nat + 1) == field_defs(md, def as nat, k as nat));
        }
        k += 1;
        assert(rows(old(out)@) + field_defs(md, def as nat, k as nat) =~= rows(out@));
    }
}

/// Appends the definitions that generic arguments name.
fn push_args_defs(args: &GenericType, out: &mut Vec<TypeDef>)
    ensures
        rows(final(out)@) == rows(old(out)@) + args_defs(args.args_model()),
{
    let ghost a = args.args_model();
    let mut i: usize = 0;
    while i < args.generics.len()
        invariant
            i <= args.generics.len(),
            a == args.args_model(),
            a.len() == args.generics.len(),
            rows(out@) == rows(old(out)@) + args_defs(a.take(i as int)),
        decreases args.generics.len() - i,
    {
        let ghost before = rows(out@);
        let d = args.generics[i].definition();
        push_def(out, d);
        proof {
            assert(a.take(i + 1).drop_last() =~= a.take(i as int));
            assert(a.take(i + 1).last() == args.generics[i as int].model());
        }
        i += 1;
        proof {
            assert(rows(old(out)@) + args_defs(a.take(i as int)) =~= rows(out@));
        }
    }
    assert(a.take(i as int) =~= a);
}

impl ElementType {
    /// The type definition at the top of this type, where it names one.
    pub fn definition(&self) -> (r: Option<TypeDef>)
        ensures
            match r {
                Some(d) => definition_of(self.model()) == Some(d.row as nat),
                None => definition_of(self.model()) is None,
            },
    {
        match self {
            ElementType::Function(m) => Some(m.def),
            ElementType::Constant(m) => Some(m.def),
            ElementType::Class(g) => Some(g.def),
            ElementType::Interface(g) => Some(g.def),
            ElementType::ComInterface(g) => Some(g.def),
            ElementType::Enum(d) => Some(*d),
            ElementType::Struct(d) => Some(*d),
            ElementType::Delegate(g) => Some(g.def),
            ElementType::Callback(d) => Some(*d),
            _ => None,
        }
    }

    /// The type definitions this type depends on: its own definition, then those named by
    /// its fields (structs and classes) and by its generic arguments. Duplicates are kept.
    pub fn dependencies(&self, md: &Metadata) -> (r: Vec<TypeDef>)
        ensures
            rows(r@) == deps_spec(md, self.model()),
    {
        let mut out: Vec<TypeDef> = Vec::new();
        proof {
            assert(rows(out@) =~= Seq::<nat>::empty());
        }
        match self {
            ElementType::Function(m) => {
                out.push(m.def);
            },
            ElementType::Constant(m) => {
                out.push(m.def);
            },
            ElementType::Callback(d) => {
                out.push(*d);
            },
            ElementType::Struct(d) => {
                out.push(*d);
                push_field_defs(md, d.row, &mut out);
            },
            ElementType::Class(g) => {
                out.push(g.def);
                push_field_defs(md, g.def.row, &mut out);
                push_args_defs(g, &mut out);
            },
            ElementType::Interface(g) => {
                out.push(g.def);
                push_args_defs(g, &mut out);
            },
            ElementType::ComInterface(g) => {
                out.push(g.def);
                push_args_defs(g, &mut out);
            },
            ElementType::Delegate(g) => {
                out.push(g.def);
                push_args_defs(g, &mut out);
            },
            _ => {},
        }
        proof {
            assert(rows(out@) =~= deps_spec(md, self.model()));
        }
        out
    }
}

/// The compact signature code of a primitive, `Object` or `Guid`.
pub open spec fn signature_of(t: Ty) -> Option<Seq<char>> {
    match t {
        Ty::Bool => Some("b1"@),
        Ty::Char => Some("c2"@),
        Ty::I8 => Some("i1"@),
        Ty::U8 => Some("u1"@),
        Ty::I16 => Some("i2"@),
        Ty::U16 => Some("u2"@),
        Ty::I32 => Some("i4"@),
        Ty::U32 => Some("u4"@),
        Ty::I64 => Some("i8"@),
        Ty::U64 => Some("u8"@),
        Ty::F32 => Some("f4"@),
        Ty::F64 => Some("f8"@),
        Ty::String => Some("string"@),
        Ty::Object => Some("cinterface(IInspectable)"@),
        Ty::Guid => Some("g16"@),
        _ => None,
    }
}

impl ElementType {
    /// The compact signature code of a primitive, `Object` or `Guid`; the signatures of
    /// user-defined categories belong to those categories, so they give `None` here.
    pub fn signature(&self) -> (r: Option<String>)
        ensures
            match r {
                Some(s) => signature_of(self.model()) == Some(s@),
                None => signature_of(self.model()) is None,
            },
    {
        match self {
            ElementType::Bool => Some("b1".to_owned()),
            ElementType::Char => Some("c2".to_owned()),
            ElementType::I8 => Some("i1".to_owned()),
            ElementType::U8 => Some("u1".to_owned()),
            ElementType::I16 => Some("i2".to_owned()),
            ElementType::U16 => Some("u2".to_owned()),
            ElementType::I32 => Some("i4".to_owned()),
            ElementType::U32 => Some("u4".to_owned()),
            ElementType::I64 => Some("i8".to_owned()),
            ElementType::U64 => Some("u8".to_owned()),
            ElementType::F32 => Some("f4".to_owned()),
            ElementType::F64 => Some("f8".to_owned()),
            ElementType::String => Some("string".to_owned()),
            ElementType::Object => Some("cinterface(IInspectable)".to_owned()),
            ElementType::Guid => Some("g16".to_owned()),
            _ => None,
        }
    }

    /// The struct definition this type names.
    pub fn as_struct(&self) -> (r: TypeDef)
        requires
            self is Struct,
        ensures
            self.model() == Ty::Struct(r.row as nat),
    {
        match self {
            ElementType::Struct(d) => *d,
            _ => TypeDef { row: 0 },
        }
    }

    /// A copy of the instantiated interface this type names.
    pub fn as_interface(&self) -> (r: GenericType)
        requires
            self is Interface,
        ensures
            self.model() == Ty::Interface(r.def.row as nat, r.args_model()),
    {
        match self {
            ElementType::Interface(g) => g.duplicate(),
            _ => GenericType { def: TypeDef { row: 0 }, generics: Vec::new() },
        }
    }

    /// A copy of the instantiated class this type names.
    pub fn as_class(&self) -> (r: GenericType)
        requires
            self is Class,
        ensures
            self.model() == Ty::Class(r.def.row as nat, r.args_model()),
    {
        match self {
            ElementType::Class(g) => g.duplicate(),
            _ => GenericType { def: TypeDef { row: 0 }, generics: Vec::new() },
        }
    }
}

} // verus!
