use winmd_gen::blob::{Blob, DecodeError};
use winmd_gen::element_type::{ElementType, GenericType, MemberRef};
use winmd_gen::method_signature::MethodSignature;
use winmd_gen::param::{Param, ParamFlags};
use winmd_gen::tables::{
    equal_range, AttributeRow, HasAttribute, FieldRow, Metadata, ParamRow, TypeCategory, TypeDef, TypeDefOrRef,
    TypeDefRow, TypeRefRow,
};

fn def_row(namespace: &str, name: &str, category: TypeCategory, is_winrt: bool) -> TypeDefRow {
    TypeDefRow { namespace: namespace.to_string(), name: name.to_string(), category, is_winrt }
}

fn ref_row(namespace: &str, name: &str, definition: Option<usize>) -> TypeRefRow {
    TypeRefRow { namespace: namespace.to_string(), name: name.to_string(), definition }
}

fn empty_metadata() -> Metadata {
    Metadata {
        type_defs: Vec::new(),
        type_refs: Vec::new(),
        fields: Vec::new(),
        params: Vec::new(),
        attributes: Vec::new(),
    }
}

/// Rows: 0 IVector (winrt interface), 1 Color (enum), 2 Point (struct), 3 Handler (winrt
/// delegate), 4 IUnknownLike (COM interface), 5 Widget (class), 6 Callback (non-winrt
/// delegate), 7 Broken (no category).
fn sample_metadata() -> Metadata {
    let mut md = empty_metadata();
    md.type_defs = vec![
        def_row("Windows.Foundation", "IVector", TypeCategory::Interface, true),
        def_row("Windows.UI", "Color", TypeCategory::Enum, true),
        def_row("Windows.Foundation", "Point", TypeCategory::Struct, true),
        def_row("Windows.Foundation", "Handler", TypeCategory::Delegate, true),
        def_row("Windows.Win32.Com", "IStream", TypeCategory::Interface, false),
        def_row("Windows.UI", "Widget", TypeCategory::Class, true),
        def_row("Windows.Win32.Ui", "WNDPROC", TypeCategory::Delegate, false),
        def_row("Windows.Broken", "Broken", TypeCategory::Other, true),
    ];
    md.type_refs = vec![
        ref_row("Windows.Win32.Com", "IUnknown", Some(2)),
        ref_row("Windows.Win32.Com", "HRESULT", Some(2)),
        ref_row("Windows.Win32.Direct2D", "D2D_MATRIX_3X2_F", Some(2)),
        ref_row("", "Anonymous", Some(2)),
        ref_row("Windows.Foundation", "Point", Some(2)),
        ref_row("Windows.Foundation", "IVector", Some(0)),
        ref_row("Windows.Foundation", "Missing", None),
        ref_row("System", "Guid", Some(2)),
        ref_row("System", "Type", Some(5)),
        ref_row("Windows.Win32.SystemServices", "BOOL", Some(2)),
        ref_row("Windows.Win32.SystemServices", "LARGE_INTEGER", Some(2)),
        ref_row("Windows.Win32.SystemServices", "ULARGE_INTEGER", Some(2)),
        ref_row("Windows.Foundation", "HResult", Some(2)),
    ];
    md
}

fn type_def_code(row: u32) -> u8 {
    ((row + 1) * 4) as u8
}

fn type_ref_code(row: u32) -> u8 {
    ((row + 1) * 4 + 1) as u8
}

fn decode(md: &Metadata, bytes: Vec<u8>, generics: &[ElementType]) -> Result<ElementType, DecodeError> {
    let mut blob = Blob::new(bytes);
    ElementType::from_blob(md, &mut blob, generics)
}

fn is_def(t: &ElementType, row: usize) -> bool {
    t.definition() == Some(TypeDef { row })
}

#[test]
fn read_unsigned_one_two_and_four_bytes() {
    let mut blob = Blob::new(vec![0x03, 0x80, 0x80, 0xBF, 0xFF, 0xC0, 0x00, 0x40, 0x00, 0xDF, 0xFF, 0xFF, 0xFF]);
    assert_eq!(blob.read_unsigned(), Ok(0x03));
    assert_eq!(blob.pos, 1);
    assert_eq!(blob.read_unsigned(), Ok(0x80));
    assert_eq!(blob.pos, 3);
    assert_eq!(blob.read_unsigned(), Ok(0x3FFF));
    assert_eq!(blob.pos, 5);
    assert_eq!(blob.read_unsigned(), Ok(0x4000));
    assert_eq!(blob.pos, 9);
    assert_eq!(blob.read_unsigned(), Ok(0x1FFF_FFFF));
    assert_eq!(blob.pos, 13);
    assert_eq!(blob.read_unsigned(), Err(DecodeError::UnexpectedEnd));
    assert_eq!(blob.pos, 13);
}

#[test]
fn read_unsigned_rejects_bad_lead_and_short_blobs() {
    let mut blob = Blob::new(vec![0xE0]);
    assert_eq!(blob.read_unsigned(), Err(DecodeError::InvalidInteger));
    assert_eq!(blob.pos, 0);
    let mut short2 = Blob::new(vec![0x81]);
    assert_eq!(short2.read_unsigned(), Err(DecodeError::UnexpectedEnd));
    let mut short4 = Blob::new(vec![0xC0, 0x01, 0x02]);
    assert_eq!(short4.read_unsigned(), Err(DecodeError::UnexpectedEnd));
}

#[test]
fn type_def_or_ref_tags() {
    assert_eq!(TypeDefOrRef::decode(4), Some(TypeDefOrRef::TypeDef(0)));
    assert_eq!(TypeDefOrRef::decode(9), Some(TypeDefOrRef::TypeRef(1)));
    assert_eq!(TypeDefOrRef::decode(14), Some(TypeDefOrRef::TypeSpec(2)));
    assert_eq!(TypeDefOrRef::decode(7), None);
    assert_eq!(TypeDefOrRef::decode(1), None);
}

#[test]
fn primitive_codes_decode_from_single_byte_blobs() {
    let md = empty_metadata();
    let codes: Vec<u8> = vec![0x01, 0x02, 0x03, 0x04, 0x05, 0x06, 0x07, 0x08, 0x09, 0x0a, 0x0b, 0x0c, 0x0d, 0x0e, 0x18, 0x19];
    let mut seen: Vec<String> = Vec::new();
    for code in codes {
        let t = decode(&md, vec![code], &[]).unwrap();
        let from_code = ElementType::from_code(code as u32).unwrap();
        let name = format!("{:?}", t);
        assert_eq!(name, format!("{:?}", from_code));
        assert!(!seen.contains(&name));
        seen.push(name);
    }
    assert_eq!(seen.len(), 16);
    assert!(matches!(decode(&md, vec![0x02], &[]), Ok(ElementType::Bool)));
    assert!(matches!(decode(&md, vec![0x18], &[]), Ok(ElementType::ISize)));
    assert!(matches!(decode(&md, vec![0x0e], &[]), Ok(ElementType::String)));
    assert!(ElementType::from_code(0x0f).is_none());
    assert!(ElementType::from_code(0x11).is_none());
}

#[test]
fn nullability_by_variant() {
    let md = sample_metadata();
    let nullable = vec![
        ElementType::Object,
        ElementType::IUnknown,
        ElementType::Function(MemberRef { def: TypeDef { row: 5 }, row: 0 }),
        ElementType::Interface(GenericType { def: TypeDef { row: 0 }, generics: Vec::new() }),
        ElementType::Class(GenericType { def: TypeDef { row: 5 }, generics: Vec::new() }),
        ElementType::ComInterface(GenericType { def: TypeDef { row: 4 }, generics: Vec::new() }),
        ElementType::Delegate(GenericType { def: TypeDef { row: 3 }, generics: Vec::new() }),
        ElementType::Callback(TypeDef { row: 6 }),
    ];
    for t in &nullable {
        assert!(t.is_nullable());
    }
    let not_nullable = vec![
        ElementType::Bool,
        ElementType::I32,
        ElementType::String,
        ElementType::Guid,
        ElementType::ErrorCode,
        ElementType::Enum(TypeDef { row: 1 }),
        ElementType::Struct(TypeDef { row: 2 }),
        ElementType::Constant(MemberRef { def: TypeDef { row: 1 }, row: 0 }),
        ElementType::NotYetSupported,
    ];
    for t in &not_nullable {
        assert!(!t.is_nullable());
    }
    let decoded = decode(&md, vec![0x12, type_def_code(2)], &[]).unwrap();
    assert!(!decoded.is_nullable());
}

#[test]
fn well_known_names_override_the_definition() {
    let md = sample_metadata();
    assert!(matches!(decode(&md, vec![0x12, type_ref_code(0)], &[]), Ok(ElementType::IUnknown)));
    assert!(matches!(decode(&md, vec![0x11, type_ref_code(1)], &[]), Ok(ElementType::ErrorCode)));
    assert!(matches!(decode(&md, vec![0x11, type_ref_code(2)], &[]), Ok(ElementType::Matrix3x2)));
    assert!(matches!(decode(&md, vec![0x11, type_ref_code(7)], &[]), Ok(ElementType::Guid)));
    assert!(matches!(decode(&md, vec![0x11, type_ref_code(8)], &[]), Ok(ElementType::TypeName)));
    assert!(matches!(decode(&md, vec![0x11, type_ref_code(9)], &[]), Ok(ElementType::Bool32)));
    assert!(matches!(decode(&md, vec![0x11, type_ref_code(10)], &[]), Ok(ElementType::I64)));
    assert!(matches!(decode(&md, vec![0x11, type_ref_code(11)], &[]), Ok(ElementType::U64)));
    assert!(matches!(decode(&md, vec![0x11, type_ref_code(12)], &[]), Ok(ElementType::ErrorCode)));
    // The same definition reached through an ordinary name is a struct.
    let point = decode(&md, vec![0x11, type_ref_code(4)], &[]).unwrap();
    assert!(matches!(point, ElementType::Struct(TypeDef { row: 2 })));
}

#[test]
fn class_references_resolve_structurally() {
    let md = sample_metadata();
    assert!(matches!(decode(&md, vec![0x11, type_ref_code(3)], &[]), Ok(ElementType::NotYetSupported)));
    assert!(matches!(decode(&md, vec![0x12, type_def_code(1)], &[]), Ok(ElementType::Enum(TypeDef { row: 1 }))));
    assert!(matches!(decode(&md, vec![0x12, type_def_code(4)], &[]), Ok(ElementType::ComInterface(_))));
    assert!(matches!(decode(&md, vec![0x12, type_def_code(0)], &[]), Ok(ElementType::Interface(_))));
    assert!(matches!(decode(&md, vec![0x12, type_def_code(5)], &[]), Ok(ElementType::Class(_))));
    assert!(matches!(decode(&md, vec![0x12, type_def_code(6)], &[]), Ok(ElementType::Callback(TypeDef { row: 6 }))));
    assert!(matches!(decode(&md, vec![0x12, type_def_code(3)], &[]), Ok(ElementType::Delegate(_))));
    assert_eq!(decode(&md, vec![0x12, type_def_code(7)], &[]).err(), Some(DecodeError::InvalidCategory));
    assert_eq!(decode(&md, vec![0x12, type_def_code(20)], &[]).err(), Some(DecodeError::InvalidIndex));
    assert_eq!(decode(&md, vec![0x12, type_ref_code(6)], &[]).err(), Some(DecodeError::InvalidIndex));
    assert_eq!(decode(&md, vec![0x12, 0x06], &[]).err(), Some(DecodeError::InvalidIndex));
    assert!(matches!(decode(&md, vec![0x14, 0x08], &[]), Ok(ElementType::NotYetSupported)));
    assert_eq!(decode(&md, vec![0x20], &[]).err(), Some(DecodeError::UnknownCode));
    assert_eq!(decode(&md, vec![], &[]).err(), Some(DecodeError::UnexpectedEnd));
}

#[test]
fn from_type_def_rejects_generic_value_types() {
    let md = sample_metadata();
    let r = ElementType::from_type_def(&md, TypeDef { row: 2 }, vec![ElementType::I32]);
    assert_eq!(r.err(), Some(DecodeError::InvalidCategory));
    let r = ElementType::from_type_def(&md, TypeDef { row: 1 }, vec![ElementType::I32]);
    assert_eq!(r.err(), Some(DecodeError::InvalidCategory));
    let r = ElementType::from_type_def(&md, TypeDef { row: 0 }, vec![ElementType::I32]).unwrap();
    let g = r.as_interface();
    assert_eq!(g.def, TypeDef { row: 0 });
    assert!(matches!(g.generics.as_slice(), [ElementType::I32]));
    let c = ElementType::from_type_def(&md, TypeDef { row: 5 }, Vec::new()).unwrap();
    assert_eq!(c.as_class().def, TypeDef { row: 5 });
    let s = ElementType::from_type_def(&md, TypeDef { row: 2 }, Vec::new()).unwrap();
    assert_eq!(s.as_struct(), TypeDef { row: 2 });
}

#[test]
fn generic_variables_index_the_context() {
    let md = sample_metadata();
    let context = vec![ElementType::I32, ElementType::String];
    assert!(matches!(decode(&md, vec![0x13, 0x00], &context), Ok(ElementType::I32)));
    assert!(matches!(decode(&md, vec![0x13, 0x01], &context), Ok(ElementType::String)));
    assert_eq!(decode(&md, vec![0x13, 0x02], &context).err(), Some(DecodeError::GenericOutOfRange));
    assert_eq!(decode(&md, vec![0x13, 0x00], &[]).err(), Some(DecodeError::GenericOutOfRange));
}

#[test]
fn generic_instances_of_interfaces_and_delegates() {
    let md = sample_metadata();
    let context = vec![ElementType::U8];
    let t = decode(&md, vec![0x15, 0x12, type_def_code(0), 0x02, 0x08, 0x13, 0x00], &context).unwrap();
    match t {
        ElementType::Interface(g) => {
            assert_eq!(g.def, TypeDef { row: 0 });
            assert!(matches!(g.generics.as_slice(), [ElementType::I32, ElementType::U8]));
        },
        other => panic!("unexpected {:?}", other),
    }
    let d = decode(&md, vec![0x15, 0x12, type_ref_code(5), 0x01, 0x0e], &[]).unwrap();
    assert!(matches!(d, ElementType::Interface(_)));
    let t = decode(&md, vec![0x15, 0x12, type_def_code(3), 0x01, 0x12, type_def_code(2)], &[]).unwrap();
    match t {
        ElementType::Delegate(g) => {
            assert_eq!(g.def, TypeDef { row: 3 });
            assert!(matches!(g.generics.as_slice(), [ElementType::Struct(TypeDef { row: 2 })]));
        },
        other => panic!("unexpected {:?}", other),
    }
}

#[test]
fn generic_instances_of_enums_and_structs_fail() {
    let md = sample_metadata();
    let e = decode(&md, vec![0x15, 0x12, type_def_code(1), 0x01, 0x08], &[]);
    assert_eq!(e.err(), Some(DecodeError::InvalidCategory));
    let s = decode(&md, vec![0x15, 0x11, type_def_code(2), 0x01, 0x08], &[]);
    assert_eq!(s.err(), Some(DecodeError::InvalidCategory));
    let bad_marker = decode(&md, vec![0x15, 0x08, type_def_code(0), 0x01, 0x08], &[]);
    assert_eq!(bad_marker.err(), Some(DecodeError::UnknownCode));
}

#[test]
fn nesting_too_deep_is_an_error() {
    let md = sample_metadata();
    let mut bytes = Vec::new();
    for _ in 0..65 {
        bytes.extend_from_slice(&[0x15, 0x12, type_def_code(0), 0x01]);
    }
    bytes.push(0x08);
    assert_eq!(decode(&md, bytes, &[]).err(), Some(DecodeError::TooDeep));
    let mut ok = Vec::new();
    for _ in 0..10 {
        ok.extend_from_slice(&[0x15, 0x12, type_def_code(0), 0x01]);
    }
    ok.push(0x08);
    assert!(matches!(decode(&md, ok, &[]), Ok(ElementType::Interface(_))));
}

#[test]
fn signature_codes() {
    assert_eq!(ElementType::Bool.signature(), Some("b1".to_string()));
    assert_eq!(ElementType::Char.signature(), Some("c2".to_string()));
    assert_eq!(ElementType::U64.signature(), Some("u8".to_string()));
    assert_eq!(ElementType::F64.signature(), Some("f8".to_string()));
    assert_eq!(ElementType::String.signature(), Some("string".to_string()));
    assert_eq!(ElementType::Object.signature(), Some("cinterface(IInspectable)".to_string()));
    assert_eq!(ElementType::Guid.signature(), Some("g16".to_string()));
    assert_eq!(ElementType::Void.signature(), None);
}

fn param_row(flags: u32, sequence: u32, name: &str) -> ParamRow {
    ParamRow { flags, sequence, name: name.to_string() }
}

#[test]
fn return_row_is_set_apart() {
    let mut md = sample_metadata();
    md.params = vec![param_row(0, 0, "return"), param_row(0, 1, "a"), param_row(2, 2, "b")];
    let params = vec![Param { row: 0 }, Param { row: 1 }, Param { row: 2 }];
    let mut blob = Blob::new(vec![0x20, 0x02, 0x12, type_def_code(2), 0x08, 0x0e]);
    let sig = MethodSignature::new(&md, params, &mut blob, &[]).unwrap();
    assert_eq!(sig.return_param, Some(Param { row: 0 }));
    let names: Vec<&str> = sig.params.iter().map(|p| p.param.name(&md)).collect();
    assert_eq!(names, vec!["a", "b"]);
    assert!(matches!(sig.return_type, Some(ElementType::Struct(TypeDef { row: 2 }))));
    assert!(matches!(sig.params[0].signature, ElementType::I32));
    assert!(matches!(sig.params[1].signature, ElementType::String));
    assert_eq!(sig.dependencies(&md), vec![TypeDef { row: 2 }]);
}

#[test]
fn first_row_with_sequence_one_stays_positional() {
    let mut md = sample_metadata();
    md.params = vec![param_row(0, 1, "a"), param_row(0, 2, "b")];
    let params = vec![Param { row: 0 }, Param { row: 1 }];
    let mut blob = Blob::new(vec![0x20, 0x02, 0x01, 0x08, 0x02]);
    let sig = MethodSignature::new(&md, params, &mut blob, &[]).unwrap();
    assert_eq!(sig.return_param, None);
    assert!(sig.return_type.is_none());
    let names: Vec<&str> = sig.params.iter().map(|p| p.param.name(&md)).collect();
    assert_eq!(names, vec!["a", "b"]);
    assert!(matches!(sig.params[1].signature, ElementType::Bool));
}

#[test]
fn parameter_count_must_match_rows() {
    let mut md = sample_metadata();
    md.params = vec![param_row(0, 1, "a")];
    let mut blob = Blob::new(vec![0x20, 0x02, 0x01, 0x08, 0x02]);
    let r = MethodSignature::new(&md, vec![Param { row: 0 }], &mut blob, &[]);
    assert_eq!(r.err(), Some(DecodeError::ParamCountMismatch));
}

#[test]
fn struct_dependencies_are_its_own_and_its_fields() {
    let mut md = sample_metadata();
    // Fields of Point (row 2): a Color (row 1), a Widget (row 5), another Color, and an i32.
    md.fields = vec![
        FieldRow { parent: 2, name: "x".to_string(), signature: vec![0x06, 0x11, type_def_code(1)] },
        FieldRow { parent: 5, name: "other".to_string(), signature: vec![0x06, 0x11, type_def_code(0)] },
        FieldRow { parent: 2, name: "y".to_string(), signature: vec![0x06, 0x12, type_def_code(5)] },
        FieldRow { parent: 2, name: "z".to_string(), signature: vec![0x06, 0x11, type_def_code(1)] },
        FieldRow { parent: 2, name: "n".to_string(), signature: vec![0x06, 0x08] },
    ];
    let point = ElementType::Struct(TypeDef { row: 2 });
    let deps = point.dependencies(&md);
    assert_eq!(deps, vec![TypeDef { row: 2 }, TypeDef { row: 1 }, TypeDef { row: 5 }, TypeDef { row: 1 }]);
    let mut unique: Vec<usize> = deps.iter().map(|d| d.row).collect();
    unique.sort();
    unique.dedup();
    assert_eq!(unique, vec![1, 2, 5]);
    assert!(is_def(&point, 2));
    assert!(ElementType::I32.dependencies(&md).is_empty());
    assert!(ElementType::Enum(TypeDef { row: 1 }).dependencies(&md).is_empty());
    let iface = ElementType::Interface(GenericType {
        def: TypeDef { row: 0 },
        generics: vec![ElementType::Struct(TypeDef { row: 2 }), ElementType::U8],
    });
    assert_eq!(iface.dependencies(&md), vec![TypeDef { row: 0 }, TypeDef { row: 2 }]);
}

fn attribute_row(parent: u32, namespace: &str, name: &str) -> AttributeRow {
    AttributeRow { parent, namespace: namespace.to_string(), name: name.to_string() }
}

#[test]
fn equal_range_finds_the_run() {
    let rows: Vec<AttributeRow> = [1u32, 1, 2, 2, 2, 3].iter().map(|k| attribute_row(*k, "N", "A")).collect();
    assert_eq!(equal_range(&rows, 2), (2, 5));
    let (lo, hi) = equal_range(&rows, 4);
    assert_eq!(lo, hi);
    let (lo, hi) = equal_range(&rows, 0);
    assert_eq!(lo, hi);
    assert_eq!(equal_range(&rows, 1), (0, 2));
    assert_eq!(equal_range(&Vec::new(), 1), (0, 0));
}

#[test]
fn param_attributes_and_direction() {
    let mut md = sample_metadata();
    md.params = vec![param_row(0, 1, "input"), param_row(2, 2, "output"), param_row(0, 3, "com_out")];
    // HasAttribute keys of Param rows 0, 1 and 2 are 36, 68 and 100.
    md.attributes = vec![
        attribute_row(36, "Windows.Win32.Interop", "NativeTypeInfoAttribute"),
        attribute_row(100, "Windows.Win32.Interop", "ComOutPtrAttribute"),
        attribute_row(100, "Windows.Win32.Interop", "NotNullAttribute"),
    ];
    let p0 = Param { row: 0 };
    let p1 = Param { row: 1 };
    let p2 = Param { row: 2 };
    assert_eq!(p0.flags(&md), ParamFlags(0));
    assert!(p1.flags(&md).output());
    assert_eq!(p2.sequence(&md), 3);
    assert_eq!(p1.name(&md), "output");
    let rows: Vec<usize> = p2.attributes(&md).iter().map(|a| a.row).collect();
    assert_eq!(rows, vec![1, 2]);
    assert!(p1.attributes(&md).is_empty());
    assert!(p2.has_attribute(&md, "Windows.Win32.Interop", "ComOutPtrAttribute"));
    assert!(!p0.has_attribute(&md, "Windows.Win32.Interop", "ComOutPtrAttribute"));
    assert!(p0.is_input(&md));
    assert!(!p1.is_input(&md));
    assert!(!p2.is_input(&md));
}

#[test]
fn has_attribute_keys() {
    assert_eq!(HasAttribute::Param(0).encode(), 36);
    assert_eq!(HasAttribute::Param(2).encode(), 100);
    assert_eq!(HasAttribute::MethodDef(0).encode(), 32);
    assert_eq!(HasAttribute::Field(1).encode(), 65);
    assert_eq!(HasAttribute::TypeRef(0).encode(), 34);
    assert_eq!(HasAttribute::TypeDef(3).encode(), 131);
}
