use vstd::prelude::*;
use crate::tables::{equal_range, param_owner_key, HasAttribute, Metadata, MAX_ROWS};

verus! {

/// The flags column of a Param row.
#[derive(Clone, Copy, PartialEq, Eq, Debug, Structural)]
pub struct ParamFlags(pub u32);

impl ParamFlags {
    /// The `Out` bit (0x2).
    pub fn output(&self) -> (r: bool)
        ensures
            r == (self.0 / 2 % 2 == 1),
    {
        self.0 / 2 % 2 == 1
    }
}

/// A row of the CustomAttribute table.
#[derive(Clone, Copy, PartialEq, Eq, Debug, Structural)]
pub struct Attribute {
    pub row: usize,
}

/// A row of the Param table.
#[derive(Clone, Copy, PartialEq, Eq, Debug, Structural)]
pub struct Param {
    pub row: usize,
}

/// Whether some attribute owned by Param row `p` has type `namespace.name`.
pub open spec fn param_has_attribute(
    md: &Metadata,
    p: int,
    namespace: Seq<char>,
    name: Seq<char>,
) -> bool {
    exists|i: int|
        0 <= i < md.attributes.len() && (#[trigger] md.attributes[i]).parent == param_owner_key(p)
            && md.attributes[i].namespace@ == namespace && md.attributes[i].name@ == name
}

/// An input parameter: the `Out` flag is clear and no COM out-pointer attribute is attached.
pub open spec fn is_input_spec(md: &Metadata, p: int) -> bool {
    !(md.params[p].flags / 2 % 2 == 1) && !param_has_attribute(
        md,
        p,
        "Windows.Win32.Interop"@,
        "ComOutPtrAttribute"@,
    )
}

impl Param {
    /// The flags column.
    pub fn flags(&self, md: &Metadata) -> (r: ParamFlags)
        requires
            self.row < md.params.len(),
        ensures
            r.0 == md.params[self.row as int].flags,
    {
        ParamFlags(md.params[self.row].flags)
    }

    /// The sequence number: 0 for the return value, then 1, 2, ... for the parameters.
    pub fn sequence(&self, md: &Metadata) -> (r: u32)
        requires
            self.row < md.params.len(),
        ensures
            r == md.params[self.row as int].sequence,
    {
        md.params[self.row].sequence
    }

    /// The parameter's name.
    pub fn name<'a>(&self, md: &'a Metadata) -> (r: &'a str)
        requires
            self.row < md.params.len(),
        ensures
            r@ == md.params[self.row as int].name@,
    {
        md.params[self.row].name.as_str()
    }

    /// Every custom attribute owned by this parameter, in table order.
    pub fn attributes(&self, md: &Metadata) -> (r: Vec<Attribute>)
        requires
            self.row < MAX_ROWS,
            md.attributes_sorted(),
        ensures
            forall|j: int|
                0 <= j < r.len() ==> (#[trigger] r[j]).row < md.attributes.len()
                    && md.attributes[r[j].row as int].parent == param_owner_key(self.row as int),
            forall|j: int, k: int| 0 <= j < k < r.len() ==> #[trigger] r[j].row < #[trigger] r[k].row,
            forall|i: int|
                0 <= i < md.attributes.len() && (#[trigger] md.attributes[i]).parent
                    == param_owner_key(self.row as int) ==> exists|j: int|
                    0 <= j < r.len() && (#[trigger] r[j]).row == i,
    {
        let key = HasAttribute::Param(self.row).encode();
        let (lo, hi) = equal_range(&md.attributes, key);
        let mut r: Vec<Attribute> = Vec::new();
        let mut i: usize = lo;
        while i < hi
            invariant
                lo <= i <= hi <= md.attributes.len(),
                r.len() == i - lo,
                forall|j: int| 0 <= j < r.len() ==> (#[trigger] r[j]).row == lo + j,
            decreases hi - i,
        {
            r.push(Attribute { row: i });
            i += 1;
        }
        assert forall|i: int|
            0 <= i < md.attributes.len() && (#[trigger] md.attributes[i]).parent
                == param_owner_key(self.row as int) implies exists|j: int|
            0 <= j < r.len() && (#[trigger] r[j]).row == i by {
            assert(r[i - lo].row == i);
        }
        r
    }

    /// Whether this parameter carries an attribute of type `namespace.name`.
    #[verifier::loop_isolation(false)]
    pub fn has_attribute(&self, md: &Metadata, namespace: &str, name: &str) -> (r: bool)
        requires
            self.row < MAX_ROWS,
            md.attributes_sorted(),
        ensures
            r == param_has_attribute(md, self.row as int, namespace@, name@),
    {
        let ns = namespace.to_owned();
        let nm = name.to_owned();
        let found = self.attributes(md);
        let mut k: usize = 0;
        while k < found.len()
            invariant
                k <= found.len(),
                forall|j: int| 0 <= j < k ==> !(md.attributes[(#[trigger] found[j]).row as int].namespace@
                    == namespace@ && md.attributes[found[j].row as int].name@ == name@),
            decreases found.len() - k,
        {
            let a = &md.attributes[found[k].row];
            if a.namespace == ns && a.name == nm {
                assert(md.attributes[found[k as int].row as int].parent == param_owner_key(self.row as int));
                return true;
            }
            k += 1;
        }
        proof {
            if param_has_attribute(md, self.row as int, namespace@, name@) {
                let i = choose|i: int|
                    0 <= i < md.attributes.len() && (#[trigger] md.attributes[i]).parent
                        == param_owner_key(self.row as int) && md.attributes[i].namespace@ == namespace@
                        && md.attributes[i].name@ == name@;
                let j = choose|j: int| 0 <= j < found.len() && (#[trigger] found[j]).row == i;
                assert(!(md.attributes[found[j].row as int].namespace@ == namespace@
                    && md.attributes[found[j].row as int].name@ == name@));
            }
        }
        false
    }

    /// Whether the parameter is an input: not marked `Out`, and not carrying the COM
    /// out-pointer attribute that some producers put where the flag is missing.
    pub fn is_input(&self, md: &Metadata) -> (r: bool)
        requires
            self.row < md.params.len(),
            self.row < MAX_ROWS,
            md.attributes_sorted(),
        ensures
            r == is_input_spec(md, self.row as int),
    {
        let mut is_input = !self.flags(md).output();
        if is_input && self.has_attribute(md, "Windows.Win32.Interop", "ComOutPtrAttribute") {
            is_input = false;
        }
        is_input
    }
}

} // verus!
