//! The declared shape of a composite type: its name, its attributes, its
//! generic parameters, and its fields or variants.

use vstd::prelude::*;
use vstd::string::*;

verus! {

/// A path as it stands in an attribute: `get_size`, `ignore`, `a::b`.
#[derive(Debug, PartialEq, Eq)]
pub struct Path {
    /// Whether the path starts with `::`.
    pub leading_colon: bool,
    /// The identifiers between the colons, first to last.
    pub segments: Vec<String>,
}

impl Path {
    /// Whether the path is the one identifier `ident` and nothing else.
    pub open spec fn is_ident_spec(&self, ident: Seq<char>) -> bool {
        &&& !self.leading_colon
        &&& self.segments@.len() == 1
        &&& self.segments@[0]@ == ident
    }

    /// Whether the path is the one identifier `ident` and nothing else.
    pub fn is_ident(&self, ident: &str) -> (result: bool)
        ensures
            result == self.is_ident_spec(ident@),
    {
        if self.leading_colon || self.segments.len() != 1 {
            return false;
        }
        let wanted = String::from_str(ident);
        self.segments[0] == wanted
    }
}

/// The content of an attribute, or one item of a list inside an attribute.
#[derive(Debug, PartialEq, Eq)]
pub enum Meta {
    /// A path alone, as `ignore` in `#[get_size(ignore)]`.
    Path(Path),
    /// A path with a parenthesised list of items, as `ignore(A, B)`.
    List(Path, Vec<Meta>),
    /// A path with a value, as `size = 100`.
    NameValue(Path),
}

impl Meta {
    /// The path that the item starts with.
    pub open spec fn path_spec(&self) -> Path {
        match self {
            Meta::Path(path) => *path,
            Meta::List(path, _) => *path,
            Meta::NameValue(path) => *path,
        }
    }

    /// The path that the item starts with.
    pub fn path(&self) -> (path: &Path)
        ensures
            *path == self.path_spec(),
    {
        match self {
            Meta::Path(path) => path,
            Meta::List(path, _) => path,
            Meta::NameValue(path) => path,
        }
    }
}

/// One attribute of a type definition, without the `#[` and `]` around it.
#[derive(Debug, PartialEq, Eq)]
pub struct Attribute {
    /// What stands between the brackets.
    pub meta: Meta,
}

/// What the attributes of one field say of how the field is measured, as
/// written: nothing here keeps two of them from being set together.
#[derive(Debug, PartialEq, Eq)]
pub struct StructFieldAttribute {
    /// `size = <bytes>`: the field counts as this many bytes.
    pub size: Option<usize>,
    /// `size_fn = <function>`: the named function measures the field.
    pub size_fn: Option<String>,
    /// `ignore`: the field counts as nothing.
    pub ignore: bool,
}

/// How one field enters the accounting.
#[derive(Debug, PartialEq, Eq)]
pub enum FieldOverride {
    /// The field is measured by its own implementation, with the tracker of
    /// the measurement.
    Recurse,
    /// The field counts as a fixed number of bytes, whatever it holds.
    FixedSize(usize),
    /// A function that the type's author names measures the field.
    ComputedSize(String),
    /// The field counts as nothing.
    Ignored,
}

/// A [`FieldOverride`] as contracts see it.
pub enum FieldOverrideView {
    Recurse,
    FixedSize(usize),
    ComputedSize(Seq<char>),
    Ignored,
}

impl View for FieldOverride {
    type V = FieldOverrideView;

    open spec fn view(&self) -> FieldOverrideView {
        match self {
            FieldOverride::Recurse => FieldOverrideView::Recurse,
            FieldOverride::FixedSize(bytes) => FieldOverrideView::FixedSize(*bytes),
            FieldOverride::ComputedSize(function) => FieldOverrideView::ComputedSize(function@),
            FieldOverride::Ignored => FieldOverrideView::Ignored,
        }
    }
}

impl StructFieldAttribute {
    /// How many of the three overrides are set.
    pub open spec fn overrides_set(&self) -> nat {
        let size: nat = if self.size is Some { 1 } else { 0 };
        let size_fn: nat = if self.size_fn is Some { 1 } else { 0 };
        let ignore: nat = if self.ignore { 1 } else { 0 };
        size + size_fn + ignore
    }

    /// Whether the overrides contradict each other: a field has at most one.
    pub open spec fn conflicts(&self) -> bool {
        self.overrides_set() > 1
    }

    /// The override that the attributes ask for, where they do not conflict.
    pub open spec fn field_override_spec(&self) -> FieldOverrideView {
        if self.size is Some {
            FieldOverrideView::FixedSize(self.size->0)
        } else if self.size_fn is Some {
            FieldOverrideView::ComputedSize(self.size_fn->0@)
        } else if self.ignore {
            FieldOverrideView::Ignored
        } else {
            FieldOverrideView::Recurse
        }
    }

    /// The override that the attributes ask for, or `None` where they ask for
    /// more than one.
    pub fn field_override(&self) -> (result: Option<FieldOverride>)
        ensures
            self.conflicts() <==> result is None,
            result matches Some(chosen) ==> chosen@ == self.field_override_spec(),
    {
        match (&self.size, &self.size_fn, self.ignore) {
            (None, None, false) => Some(FieldOverride::Recurse),
            (Some(bytes), None, false) => Some(FieldOverride::FixedSize(*bytes)),
            (None, Some(function), false) => Some(FieldOverride::ComputedSize(function.clone())),
            (None, None, true) => Some(FieldOverride::Ignored),
            _ => None,
        }
    }
}

/// One field of a struct or of an enum's variant.
#[derive(Debug, PartialEq, Eq)]
pub struct Field {
    /// The field's name; `None` for a field that is known by its position.
    pub ident: Option<String>,
    /// What the field's attributes say, as written.
    pub attribute: StructFieldAttribute,
    /// The type parameters of the definition that the field's type mentions.
    pub type_params: Vec<String>,
}

/// The fields of a struct or of a variant.
#[derive(Debug, PartialEq, Eq)]
pub enum Fields {
    /// Fields with names, in braces.
    Named(Vec<Field>),
    /// Fields known by their position, in parentheses.
    Unnamed(Vec<Field>),
    /// No fields at all.
    Unit,
}

impl Fields {
    /// The fields in the order of their declaration.
    pub open spec fn list(&self) -> Seq<Field> {
        match self {
            Fields::Named(fields) => fields@,
            Fields::Unnamed(fields) => fields@,
            Fields::Unit => Seq::empty(),
        }
    }

    /// How many fields there are.
    pub fn len(&self) -> (count: usize)
        ensures
            count == self.list().len(),
    {
        match self {
            Fields::Named(fields) => fields.len(),
            Fields::Unnamed(fields) => fields.len(),
            Fields::Unit => 0,
        }
    }

    /// Whether there is no field.
    pub fn is_empty(&self) -> (empty: bool)
        ensures
            empty == (self.list().len() == 0),
    {
        self.len() == 0
    }
}

/// One variant of an enum.
#[derive(Debug, PartialEq, Eq)]
pub struct Variant {
    /// The variant's name.
    pub ident: String,
    /// The variant's payload.
    pub fields: Fields,
}

/// What kind of type is defined, and what it holds.
#[derive(Debug, PartialEq, Eq)]
pub enum Data {
    /// A struct with its fields.
    Struct(Fields),
    /// An enum with its variants, in the order of their declaration.
    Enum(Vec<Variant>),
    /// A union, whose fields overlap in memory.
    Union,
}

/// A type parameter of the definition with the bounds it carries.
#[derive(Debug, PartialEq, Eq)]
pub struct TypeParam {
    /// The parameter's name.
    pub ident: String,
    /// The bounds on the parameter, each as it is written.
    pub bounds: Vec<String>,
}

/// One generic parameter of the definition.
#[derive(Debug, PartialEq, Eq)]
pub enum GenericParam {
    /// A lifetime, by its name.
    Lifetime(String),
    /// A type parameter.
    Type(TypeParam),
    /// A constant, by its name.
    Const(String),
}

/// A type definition, as far as the accounting reads it.
#[derive(Debug, PartialEq, Eq)]
pub struct DeriveInput {
    /// The attributes on the definition.
    pub attrs: Vec<Attribute>,
    /// The type's name.
    pub ident: String,
    /// The generic parameters, in the order of their declaration.
    pub generics: Vec<GenericParam>,
    /// The fields or variants.
    pub data: Data,
}

} // verus!
