//! The resolved type graph and the generator's configuration.

use vstd::prelude::*;

verus! {

/// A reference to a type, at the place where it is used.
pub enum TypeRef {
    /// An array of the inner type.
    Array(Box<TypeRef>),
    Boolean,
    /// An integer, with its width in bits when the schema gives one.
    Integer { bits: Option<u32> },
    Null,
    Number,
    String,
    /// A single-value string type; the value is kept as documentation.
    Keyword(String),
    /// A type of this document, by its schema path.
    Ref(String),
    /// A type that lives outside the generated file, by its name.
    ExternalRef(String),
}

/// An alias for another type.
pub struct Alias {
    pub ty: TypeRef,
}

/// A field of a record type.
pub struct Field {
    pub path: String,
    pub documentation: Option<String>,
    pub ty: TypeRef,
    pub required: bool,
    pub flatten: bool,
    pub name: String,
    pub name_in_json: String,
}

/// A record type; its fields are kept in declaration order.
pub struct Struct {
    pub fields: Vec<Field>,
}

/// How the variants of a sum type travel on the wire.
pub enum EnumTag {
    Normal,
    /// Internally tagged, with the name of the discriminant field.
    Tagged(String),
    /// No discriminant: the arms are tried in declaration order.
    Untagged,
}

/// An arm of a sum type.
pub struct Variant {
    pub path: String,
    pub documentation: Option<String>,
    pub name: String,
    pub name_in_json: Option<String>,
    /// The payload; `None` is a unit arm.
    pub ty: Option<TypeRef>,
}

/// A sum type; its variants are kept in declaration order.
pub struct Enum {
    pub tag: EnumTag,
    pub variants: Vec<Variant>,
    pub copy: bool,
}

pub enum TypeKind {
    Alias(Alias),
    Struct(Struct),
    Enum(Enum),
}

/// A named type of the document.
pub struct TypeDef {
    pub path: String,
    pub name: String,
    pub documentation: Option<String>,
    pub kind: TypeKind,
}

/// How the parameters of a method are passed.
pub enum ParamStructure {
    ByName,
    ByPosition,
    Either,
}

/// A parameter of a method.
pub struct Param {
    pub name: String,
    pub name_in_json: String,
    pub documentation: Option<String>,
    pub ty: TypeRef,
    pub required: bool,
}

/// What a method returns.
pub struct MethodResult {
    pub documentation: Option<String>,
    pub ty: TypeRef,
}

/// An RPC method.
pub struct Method {
    pub name: String,
    pub documentation: Option<String>,
    pub params: Vec<Param>,
    pub result: Option<MethodResult>,
    pub param_structure: ParamStructure,
}

/// The whole type graph: types in insertion order, then methods.
pub struct File {
    pub types: Vec<TypeDef>,
    pub methods: Vec<Method>,
}

impl File {
    /// No two types share a schema path.
    pub open spec fn wf(&self) -> bool {
        forall|i: int, j: int|
            0 <= i < j < self.types@.len() ==> #[trigger] self.types@[i].path@
                != #[trigger] self.types@[j].path@
    }
}

/// The spellings of the primitive types; `array` and `optional` are
/// templates in which `{}` stands for the inner type.
pub struct Primitives {
    pub array: String,
    pub boolean: String,
    pub integer: String,
    pub null: String,
    pub number: String,
    pub string: String,
    pub optional: String,
}

/// Extra derives for the declaration at one schema path.
pub struct PathDerives {
    pub path: String,
    pub derives: Vec<String>,
}

/// Options of the generation pass.
pub struct Generation {
    pub additional_imports: Vec<String>,
    pub global_derives: Vec<String>,
    pub derives: Vec<PathDerives>,
    pub method_name_prefix: Option<String>,
    pub method_name_constants: bool,
    pub result_types: bool,
    pub param_types: bool,
    pub use_core: bool,
}

/// The generator's configuration.
pub struct Config {
    pub primitives: Primitives,
    pub generation: Generation,
    pub debug_path: bool,
}

/// The derives configured for `path`: those of the first entry that names it.
pub open spec fn derives_for(ds: Seq<PathDerives>, path: Seq<char>) -> Option<Seq<String>>
    decreases ds.len(),
{
    if ds.len() == 0 {
        None
    } else if ds[0].path@ == path {
        Some(ds[0].derives@)
    } else {
        derives_for(ds.drop_first(), path)
    }
}

/// The type of `types` at schema path `path`: the first one there.
pub open spec fn type_at(types: Seq<TypeDef>, path: Seq<char>) -> Option<TypeDef>
    decreases types.len(),
{
    if types.len() == 0 {
        None
    } else if types[0].path@ == path {
        Some(types[0])
    } else {
        type_at(types.drop_first(), path)
    }
}

/// Looks up the type at `path`.
pub fn find_type<'a>(types: &'a Vec<TypeDef>, path: &String) -> (r: Option<&'a TypeDef>)
    ensures
        match r {
            Some(t) => type_at(types@, path@) == Some(*t),
            None => type_at(types@, path@) is None,
        },
{
    let mut i: usize = 0;
    assert(types@.subrange(0, types@.len() as int) =~= types@);
    while i < types.len()
        invariant
            i <= types@.len(),
            type_at(types@, path@) == type_at(types@.subrange(i as int, types@.len() as int), path@),
        decreases types@.len() - i,
    {
        assert(types@.subrange(i as int, types@.len() as int).drop_first()
            =~= types@.subrange(i + 1, types@.len() as int));
        if types[i].path == *path {
            return Some(&types[i]);
        }
        i += 1;
    }
    None
}

/// Looks up the derives configured for `path`.
pub fn find_derives<'a>(ds: &'a Vec<PathDerives>, path: &String) -> (r: Option<&'a Vec<String>>)
    ensures
        match r {
            Some(v) => derives_for(ds@, path@) == Some(v@),
            None => derives_for(ds@, path@) is None,
        },
{
    let mut i: usize = 0;
    assert(ds@.subrange(0, ds@.len() as int) =~= ds@);
    while i < ds.len()
        invariant
            i <= ds@.len(),
            derives_for(ds@, path@) == derives_for(ds@.subrange(i as int, ds@.len() as int), path@),
        decreases ds@.len() - i,
    {
        assert(ds@.subrange(i as int, ds@.len() as int).drop_first()
            =~= ds@.subrange(i + 1, ds@.len() as int));
        if ds[i].path == *path {
            return Some(&ds[i].derives);
        }
        i += 1;
    }
    None
}

} // verus!
