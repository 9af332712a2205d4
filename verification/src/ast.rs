//! Input model: annotation trees, fields, type definitions, and the
//! errors the engine can raise.

use vstd::prelude::*;

use crate::generate::GenMode;

verus! {

/// A visibility level. On a field it is the field's declared visibility
/// (`Inherited` meaning private); on a directive it is the requested
/// visibility of the generated method, `Inherited` deferring to the field.
#[derive(Clone, Copy, Debug, PartialEq, Eq, Structural)]
pub enum Vis {
    Public,
    RestrictedToDefiningUnit,
    RestrictedToParent,
    Inherited,
}

/// Why a generation request was rejected. Every error is fatal: no output
/// is produced for a type on which one arises.
#[derive(Clone, Copy, Debug, PartialEq, Eq, Structural)]
pub enum GsError {
    /// An annotation label outside the six recognized ones.
    InvalidAttribute,
    /// A `skip` argument that is not one of the five mode labels.
    InvalidSkipIdentifier,
    /// A `pub` argument string outside `"crate"`, `"super"`, `"self"`.
    InvalidVisibility,
    /// A `skip` directive on the type-level annotation block.
    TypeLevelSkip,
    /// The annotated type is not a single-shape record.
    NotAStruct,
}

/// One nested argument of a directive: a label, optionally with a string
/// value (`const`, `pub`, `pub = "crate"`).
pub struct AnnArg {
    pub label: String,
    pub value: Option<String>,
}

/// One labeled item of an annotation block, optionally carrying nested
/// arguments (`skip`, `get_ref(pub, const)`, ...). `args` is `None` when
/// the label stands alone, `Some` when a parenthesized argument list is
/// present, even an empty one.
pub struct AnnItem {
    pub label: String,
    pub args: Option<Vec<AnnArg>>,
}

/// One field of the annotated record: its name, declared type and
/// visibility, documentation lines, and its annotation block if any.
pub struct FieldDef {
    pub name: String,
    pub ty: String,
    pub vis: Vis,
    pub doc: Vec<String>,
    pub attr: Option<Vec<AnnItem>>,
}

/// The shape of the annotated type: a record with fields, or anything
/// else (on which generation fails).
pub enum TypeBody {
    Record(Vec<FieldDef>),
    Other,
}

/// The annotated type definition handed to the engine: name, generic
/// parameter text, its type-level annotation block if any, and its body.
pub struct TypeDef {
    pub name: String,
    pub generics_impl: String,
    pub generics_ty: String,
    pub where_clause: String,
    pub attr: Option<Vec<AnnItem>>,
    pub body: TypeBody,
}

/// A set of modes to exclude from generation, as one flag per mode.
#[derive(Clone, Copy, Debug, PartialEq, Eq, Structural)]
pub struct SkipSet {
    pub get_ref: bool,
    pub get_copy: bool,
    pub get_mut: bool,
    pub set: bool,
    pub set_with: bool,
}

impl SkipSet {
    /// The set that excludes nothing.
    pub open spec fn spec_empty() -> SkipSet {
        SkipSet { get_ref: false, get_copy: false, get_mut: false, set: false, set_with: false }
    }

    /// The set that excludes every mode.
    pub open spec fn spec_full() -> SkipSet {
        SkipSet { get_ref: true, get_copy: true, get_mut: true, set: true, set_with: true }
    }

    pub open spec fn spec_contains(self, m: GenMode) -> bool {
        match m {
            GenMode::GetRef => self.get_ref,
            GenMode::GetCopy => self.get_copy,
            GenMode::GetMut => self.get_mut,
            GenMode::Setter => self.set,
            GenMode::SetWith => self.set_with,
        }
    }

    pub open spec fn spec_insert(self, m: GenMode) -> SkipSet {
        match m {
            GenMode::GetRef => SkipSet { get_ref: true, ..self },
            GenMode::GetCopy => SkipSet { get_copy: true, ..self },
            GenMode::GetMut => SkipSet { get_mut: true, ..self },
            GenMode::Setter => SkipSet { set: true, ..self },
            GenMode::SetWith => SkipSet { set_with: true, ..self },
        }
    }

    pub open spec fn spec_union(self, o: SkipSet) -> SkipSet {
        SkipSet {
            get_ref: self.get_ref || o.get_ref,
            get_copy: self.get_copy || o.get_copy,
            get_mut: self.get_mut || o.get_mut,
            set: self.set || o.set,
            set_with: self.set_with || o.set_with,
        }
    }

    pub open spec fn spec_is_empty(self) -> bool {
        self == Self::spec_empty()
    }

    pub fn empty() -> (r: SkipSet)
        ensures
            r == Self::spec_empty(),
    {
        SkipSet { get_ref: false, get_copy: false, get_mut: false, set: false, set_with: false }
    }

    pub fn full() -> (r: SkipSet)
        ensures
            r == Self::spec_full(),
    {
        SkipSet { get_ref: true, get_copy: true, get_mut: true, set: true, set_with: true }
    }

    pub fn contains(&self, m: GenMode) -> (r: bool)
        ensures
            r == self.spec_contains(m),
    {
        match m {
            GenMode::GetRef => self.get_ref,
            GenMode::GetCopy => self.get_copy,
            GenMode::GetMut => self.get_mut,
            GenMode::Setter => self.set,
            GenMode::SetWith => self.set_with,
        }
    }

    pub fn insert(self, m: GenMode) -> (r: SkipSet)
        ensures
            r == self.spec_insert(m),
    {
        match m {
            GenMode::GetRef => SkipSet { get_ref: true, ..self },
            GenMode::GetCopy => SkipSet { get_copy: true, ..self },
            GenMode::GetMut => SkipSet { get_mut: true, ..self },
            GenMode::Setter => SkipSet { set: true, ..self },
            GenMode::SetWith => SkipSet { set_with: true, ..self },
        }
    }

    pub fn union(self, o: SkipSet) -> (r: SkipSet)
        ensures
            r == self.spec_union(o),
    {
        SkipSet {
            get_ref: self.get_ref || o.get_ref,
            get_copy: self.get_copy || o.get_copy,
            get_mut: self.get_mut || o.get_mut,
            set: self.set || o.set,
            set_with: self.set_with || o.set_with,
        }
    }

    pub fn is_empty(&self) -> (r: bool)
        ensures
            r == self.spec_is_empty(),
    {
        !(self.get_ref || self.get_copy || self.get_mut || self.set || self.set_with)
    }
}

} // verus!
