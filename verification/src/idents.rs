//! Typed wrappers for the names that mapping resolution manipulates:
//! container (union) names, variant names, and field references, plus the
//! opaque source positions used to attribute diagnostics.

use vstd::prelude::*;

verus! {

/// A position in the host source text, handed in by the declaration loader
/// and carried through unchanged; the engine only copies it into the
/// diagnostics it reports.
#[derive(Debug, Clone, Copy, PartialEq, Eq, Structural)]
pub struct Span {
    pub at: usize,
}

/// Identifies a union type by name; value-equal by name.
#[derive(Debug, Clone, PartialEq, Eq)]
pub struct ContainerIdent {
    pub name: String,
}

impl View for ContainerIdent {
    type V = Seq<char>;

    open spec fn view(&self) -> Seq<char> {
        self.name@
    }
}

impl ContainerIdent {
    /// Name equality, the equivalence the resolver keys its tables by.
    pub fn same(&self, other: &ContainerIdent) -> (r: bool)
        ensures
            r == (self@ == other@),
    {
        self.name == other.name
    }

    /// A copy with the same name; the derived `Clone` says nothing to the
    /// verifier, this does.
    pub fn duplicate(&self) -> (r: ContainerIdent)
        ensures
            r@ == self@,
    {
        ContainerIdent { name: self.name.clone() }
    }
}

/// Identifies a variant by name; only meaningful next to a `ContainerIdent`,
/// since distinct unions may reuse variant names.
#[derive(Debug, Clone, PartialEq, Eq)]
pub struct VariantIdent {
    pub name: String,
}

impl View for VariantIdent {
    type V = Seq<char>;

    open spec fn view(&self) -> Seq<char> {
        self.name@
    }
}

impl VariantIdent {
    pub fn same(&self, other: &VariantIdent) -> (r: bool)
        ensures
            r == (self@ == other@),
    {
        self.name == other.name
    }

    /// A copy with the same name; the derived `Clone` says nothing to the
    /// verifier, this does.
    pub fn duplicate(&self) -> (r: VariantIdent)
        ensures
            r@ == self@,
    {
        VariantIdent { name: self.name.clone() }
    }
}

/// Identifies a named field of a struct-shaped variant.
#[derive(Debug, Clone, PartialEq, Eq)]
pub struct FieldIdent {
    pub name: String,
}

impl View for FieldIdent {
    type V = Seq<char>;

    open spec fn view(&self) -> Seq<char> {
        self.name@
    }
}

impl FieldIdent {
    pub fn same(&self, other: &FieldIdent) -> (r: bool)
        ensures
            r == (self@ == other@),
    {
        self.name == other.name
    }

    /// A copy with the same name; the derived `Clone` says nothing to the
    /// verifier, this does.
    pub fn duplicate(&self) -> (r: FieldIdent)
        ensures
            r@ == self@,
    {
        FieldIdent { name: self.name.clone() }
    }
}

/// Mathematical value of a `FieldRef`: a slot position or a field name.
pub enum FieldRefModel {
    Pos(usize),
    Name(Seq<char>),
}

/// A reference to one field of a variant, by position for tuple-shaped
/// variants and by name for struct-shaped ones.
#[derive(Debug, Clone, PartialEq, Eq)]
pub enum FieldRef {
    FieldPos(usize),
    FieldIdent(FieldIdent),
}

impl View for FieldRef {
    type V = FieldRefModel;

    open spec fn view(&self) -> FieldRefModel {
        match self {
            FieldRef::FieldPos(p) => FieldRefModel::Pos(*p),
            FieldRef::FieldIdent(f) => FieldRefModel::Name(f@),
        }
    }
}

impl FieldRef {
    pub fn same(&self, other: &FieldRef) -> (r: bool)
        ensures
            r == (self@ == other@),
    {
        match (self, other) {
            (FieldRef::FieldPos(a), FieldRef::FieldPos(b)) => a == b,
            (FieldRef::FieldIdent(a), FieldRef::FieldIdent(b)) => a.same(b),
            _ => false,
        }
    }

    /// A copy referring to the same field; the derived `Clone` says nothing
    /// to the verifier, this does.
    pub fn duplicate(&self) -> (r: FieldRef)
        ensures
            r@ == self@,
    {
        match self {
            FieldRef::FieldPos(p) => FieldRef::FieldPos(*p),
            FieldRef::FieldIdent(f) => FieldRef::FieldIdent(f.duplicate()),
        }
    }
}

} // verus!
