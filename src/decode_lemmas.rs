use vstd::prelude::*;
use crate::blob::{compressed_at, DecodeError};
use crate::element_type::{alias_of, class_ref, decode, decode_args, open_def, primitive_of, Ty};
use crate::tables::{type_def_or_ref_spec, Metadata, TypeCategory, TypeDefOrRef};

verus! {

/// A blob that holds exactly one primitive code decodes to that primitive and ends after
/// the byte.
pub proof fn lemma_primitive_blob(md: &Metadata, code: u8, generics: Seq<Ty>, depth: nat)
    requires
        primitive_of(code as u32) is Some,
    ensures
        decode(md, seq![code], 0, generics, depth) == Ok::<(Ty, int), DecodeError>(
            (primitive_of(code as u32)->0, 1),
        ),
{
    assert(seq![code][0] == code);
}

/// No two primitive codes stand for the same primitive.
pub proof fn lemma_primitive_codes_distinct(a: u32, b: u32)
    requires
        primitive_of(a) is Some,
        primitive_of(a) == primitive_of(b),
    ensures
        a == b,
{
}

/// A class or valuetype reference to a TypeRef with a well-known name decodes to the
/// intrinsic that the name stands for, whatever the definition behind it says.
pub proof fn lemma_alias_first(
    md: &Metadata,
    data: Seq<u8>,
    pos: int,
    generics: Seq<Ty>,
    depth: nat,
    code: u32,
    p: int,
    index: u32,
    p2: int,
)
    requires
        compressed_at(data, pos) == Ok::<(u32, int), DecodeError>((code, p)),
        code == 0x11 || code == 0x12,
        compressed_at(data, p) == Ok::<(u32, int), DecodeError>((index, p2)),
        type_def_or_ref_spec(index) matches Some(TypeDefOrRef::TypeRef(r)) && r
            < md.type_refs.len() && alias_of(
            md.type_refs[r as int].namespace@,
            md.type_refs[r as int].name@,
        ) is Some,
    ensures
        ({
            let r = type_def_or_ref_spec(index)->Some_0->TypeRef_0;
            let tr = md.type_refs[r as int];
            decode(md, data, pos, generics, depth) == Ok::<(Ty, int), DecodeError>(
                (alias_of(tr.namespace@, tr.name@)->0, p2),
            )
        }),
{
    assert(primitive_of(code) is None);
}

/// A generic variable `i` decodes to the `i`-th enclosing argument when there is one, and
/// is an error otherwise.
pub proof fn lemma_generic_variable(
    md: &Metadata,
    data: Seq<u8>,
    pos: int,
    generics: Seq<Ty>,
    depth: nat,
    p: int,
    i: u32,
    p2: int,
)
    requires
        compressed_at(data, pos) == Ok::<(u32, int), DecodeError>((0x13, p)),
        compressed_at(data, p) == Ok::<(u32, int), DecodeError>((i, p2)),
    ensures
        i < generics.len() ==> decode(md, data, pos, generics, depth) == Ok::<(Ty, int), DecodeError>(
            (generics[i as int], p2),
        ),
        i >= generics.len() ==> decode(md, data, pos, generics, depth) == Err::<(Ty, int), DecodeError>(
            DecodeError::GenericOutOfRange,
        ),
{
    assert(primitive_of(0x13) is None);
}

/// A generic instantiation of an enum or a struct is an error; one of an interface or a
/// delegate carries exactly the decoded arguments, in order.
pub proof fn lemma_generic_instance(
    md: &Metadata,
    data: Seq<u8>,
    pos: int,
    generics: Seq<Ty>,
    depth: nat,
    p: int,
    marker: u32,
    p2: int,
    index: u32,
    p3: int,
    n: u32,
    p4: int,
    args: Seq<Ty>,
    p5: int,
)
    requires
        depth > 0,
        compressed_at(data, pos) == Ok::<(u32, int), DecodeError>((0x15, p)),
        compressed_at(data, p) == Ok::<(u32, int), DecodeError>((marker, p2)),
        marker == 0x11 || marker == 0x12,
        compressed_at(data, p2) == Ok::<(u32, int), DecodeError>((index, p3)),
        open_def(md, index) is Ok,
        compressed_at(data, p3) == Ok::<(u32, int), DecodeError>((n, p4)),
        decode_args(md, data, p4, generics, n as nat, (depth - 1) as nat) == Ok::<
            (Seq<Ty>, int),
            DecodeError,
        >((args, p5)),
    ensures
        ({
            let d = open_def(md, index)->Ok_0;
            let category = md.type_defs[d].category;
            &&& (category == TypeCategory::Enum || category == TypeCategory::Struct) ==> decode(
                md,
                data,
                pos,
                generics,
                depth,
            ) == Err::<(Ty, int), DecodeError>(DecodeError::InvalidCategory)
            &&& category == TypeCategory::Interface ==> decode(md, data, pos, generics, depth) == Ok::<
                (Ty, int),
                DecodeError,
            >((Ty::Interface(d as nat, args), p5))
            &&& category == TypeCategory::Delegate ==> decode(md, data, pos, generics, depth) == Ok::<
                (Ty, int),
                DecodeError,
            >((Ty::Delegate(d as nat, args), p5))
        }),
{
    assert(primitive_of(0x15) is None);
}

} // verus!
