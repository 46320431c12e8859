use vstd::prelude::*;
use crate::blob::{compressed_at, Blob, DecodeError};
use crate::element_type::{
    decode, decode_args, decoded_as, deps_spec, models, prefixed, rows, ElementType, Ty, MAX_DEPTH,
};
use crate::param::Param;
use crate::tables::{Metadata, TypeDef};

verus! {

/// A positional parameter with its resolved type.
#[derive(Debug)]
pub struct MethodParam {
    pub param: Param,
    pub signature: ElementType,
}

/// The parameters of a method with their types, and its return type.
#[derive(Debug)]
pub struct MethodSignature {
    pub params: Vec<MethodParam>,
    /// `None` where the method returns nothing (`Void`).
    pub return_type: Option<ElementType>,
    /// The parameter row that carries the return value's name and attributes, if any.
    pub return_param: Option<Param>,
}

/// The first parameter row describes the return value: its sequence number is 0.
pub open spec fn has_return_row(md: &Metadata, params: Seq<Param>) -> bool {
    params.len() > 0 && md.params[params[0].row as int].sequence == 0
}

/// The parameter rows that pair with positional types.
pub open spec fn positional(md: &Metadata, params: Seq<Param>) -> Seq<Param> {
    if has_return_row(md, params) {
        params.drop_first()
    } else {
        params
    }
}

/// A method blob: a calling-convention byte, the parameter count, the return type, then
/// one type per parameter. Gives the return type (`None` for `Void`) and the parameter types.
pub open spec fn method_decode(
    md: &Metadata,
    params: Seq<Param>,
    data: Seq<u8>,
    pos: int,
    generics: Seq<Ty>,
) -> Result<(Option<Ty>, Seq<Ty>), DecodeError> {
    match compressed_at(data, pos) {
        Err(e) => Err(e),
        Ok((_, p)) => match compressed_at(data, p) {
            Err(e) => Err(e),
            Ok((n, p2)) => match decode(md, data, p2, generics, MAX_DEPTH as nat) {
                Err(e) => Err(e),
                Ok((rt, p3)) => if n != positional(md, params).len() {
                    Err(DecodeError::ParamCountMismatch)
                } else {
                    match decode_args(md, data, p3, generics, n as nat, MAX_DEPTH as nat) {
                        Err(e) => Err(e),
                        Ok((ts, _)) => Ok(
                            (
                                if rt == Ty::Void {
                                    None
                                } else {
                                    Some(rt)
                                },
                                ts,
                            ),
                        ),
                    }
                },
            },
        },
    }
}

/// The model of an optional element type.
pub open spec fn opt_model(o: Option<ElementType>) -> Option<Ty> {
    match o {
        Some(t) => Some(t.model()),
        None => None,
    }
}

/// The dependencies of each type in turn.
pub open spec fn all_deps(md: &Metadata, ts: Seq<Ty>) -> Seq<nat>
    decreases ts.len(),
{
    if ts.len() == 0 {
        Seq::empty()
    } else {
        all_deps(md, ts.drop_last()) + deps_spec(md, ts.last())
    }
}

impl MethodSignature {
    /// The models of the parameter types, in order.
    pub open spec fn param_models(&self) -> Seq<Ty> {
        Seq::new(self.params.len() as nat, |i: int| self.params[i].signature.model())
    }

    /// The dependencies of the return type followed by those of each parameter.
    pub open spec fn deps(&self, md: &Metadata) -> Seq<nat> {
        let head = match opt_model(self.return_type) {
            Some(t) => deps_spec(md, t),
            None => Seq::empty(),
        };
        head + all_deps(md, self.param_models())
    }

    /// Builds the signature of a method from its parameter rows, in declaration order, and
    /// its signature blob. A first row with sequence number 0 describes the return value and
    /// is set apart from the positional parameters.
    #[verifier::loop_isolation(false)]
    pub fn new(md: &Metadata, params: Vec<Param>, blob: &mut Blob, generics: &[ElementType]) -> (r: Result<
        MethodSignature,
        DecodeError,
    >)
        requires
            forall|i: int| 0 <= i < params.len() ==> (#[trigger] params[i]).row < md.params.len(),
        ensures
            match method_decode(md, params@, old(blob).data@, old(blob).pos as int, models(generics@)) {
                Ok((rt, ts)) => r is Ok && {
                    let s = r->Ok_0;
                    &&& s.return_param == (if has_return_row(md, params@) {
                        Some(params@[0])
                    } else {
                        None
                    })
                    &&& opt_model(s.return_type) == rt
                    &&& s.param_models() == ts
                    &&& s.params.len() == positional(md, params@).len()
                    &&& forall|i: int|
                        0 <= i < s.params.len() ==> (#[trigger] s.params[i]).param == positional(
                            md,
                            params@,
                        )[i]
                },
                Err(e) => r == Err::<MethodSignature, DecodeError>(e),
            },
    {
        let ghost data = blob.data@;
        let ghost gm = models(generics@);
        let ghost given = params@;
        let mut params = params;
        let return_param = if params.len() > 0 && params[0].sequence(md) == 0 {
            Some(params.remove(0))
        } else {
            None
        };
        proof {
            if has_return_row(md, given) {
                assert(params@ =~= given.drop_first());
            }
        }
        assert(params@ == positional(md, given));
        match blob.read_unsigned() {
            Ok(_) => {},
            Err(e) => return Err(e),
        }
        let n = match blob.read_unsigned() {
            Ok(n) => n,
            Err(e) => return Err(e),
        };
        let rt = match ElementType::from_blob(md, blob, generics) {
            Ok(t) => t,
            Err(e) => return Err(e),
        };
        if n as usize != params.len() {
            return Err(DecodeError::ParamCountMismatch);
        }
        let ghost start = blob.pos as int;
        let mut out: Vec<MethodParam> = Vec::new();
        let mut k: usize = 0;
        while k < params.len()
            invariant
                k <= params.len(),
                n == params.len(),
                blob.data@ == data,
                out.len() == k,
                forall|j: int| 0 <= j < k ==> (#[trigger] out[j]).param == params[j],
                decode_args(md, data, start, gm, n as nat, MAX_DEPTH as nat) == prefixed(
                    Seq::new(k as nat, |j: int| out[j].signature.model()),
                    decode_args(md, data, blob.pos as int, gm, (n - k) as nat, MAX_DEPTH as nat),
                ),
            decreases params.len() - k,
        {
            let ghost before = Seq::new(k as nat, |j: int| out[j].signature.model());
            let ghost pos0 = blob.pos as int;
            let ghost k0 = k;
            let t = match ElementType::from_blob(md, blob, generics) {
                Ok(t) => t,
                Err(e) => return Err(e),
            };
            let ghost tm = t.model();
            out.push(MethodParam { param: params[k], signature: t });
            k += 1;
            proof {
                let now = Seq::new(k as nat, |j: int| out[j].signature.model());
                assert(now =~= before.push(tm));
                assert(decode_args(md, data, pos0, gm, (n - k0) as nat, MAX_DEPTH as nat) == prefixed(
                    seq![tm],
                    decode_args(md, data, blob.pos as int, gm, (n - k) as nat, MAX_DEPTH as nat),
                ));
                match decode_args(md, data, blob.pos as int, gm, (n - k) as nat, MAX_DEPTH as nat) {
                    Ok((rest, p)) => {
                        assert(before + (seq![tm] + rest) =~= before.push(tm) + rest);
                    },
                    Err(e) => {},
                }
            }
        }
        let return_type = match rt {
            ElementType::Void => None,
            t => Some(t),
        };
        let s = MethodSignature { params: out, return_type, return_param };
        proof {
            let all = Seq::new(k as nat, |j: int| s.params[j].signature.model());
            assert(all + Seq::<Ty>::empty() =~= all);
            assert(s.param_models() =~= all);
        }
        Ok(s)
    }

    /// The type definitions that the return type and the parameter types depend on, in
    /// that order. Duplicates are kept.
    pub fn dependencies(&self, md: &Metadata) -> (r: Vec<TypeDef>)
        ensures
            rows(r@) == self.deps(md),
    {
        let mut out: Vec<TypeDef> = match &self.return_type {
            Some(t) => t.dependencies(md),
            None => Vec::new(),
        };
        proof {
            if self.return_type is None {
                assert(rows(out@) =~= Seq::<nat>::empty());
            }
        }
        let ghost head = rows(out@);
        let ghost pm = self.param_models();
        let mut i: usize = 0;
        while i < self.params.len()
            invariant
                i <= self.params.len(),
                pm == self.param_models(),
                rows(out@) == head + all_deps(md, pm.take(i as int)),
            decreases self.params.len() - i,
        {
            let mut more = self.params[i].signature.dependencies(md);
            let ghost prev = rows(out@);
            let ghost added = rows(more@);
            out.append(&mut more);
            proof {
                assert(rows(out@) =~= prev + added);
                assert(pm.take(i + 1).drop_last() =~= pm.take(i as int));
                assert(pm.take(i + 1).last() == self.params[i as int].signature.model());
            }
            i += 1;
            proof {
                assert(head + all_deps(md, pm.take(i as int)) =~= rows(out@));
            }
        }
        assert(pm.take(i as int) =~= pm);
        out
    }
}

} // verus!
