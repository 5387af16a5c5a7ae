//! Spelling type references in the generated code.

use crate::model::{find_type, type_at, Config, File, TypeRef};
use crate::text::{subst, substitute};
use vstd::prelude::*;

verus! {

/// The spelling of `r` in a position where a value is always present.
pub open spec fn required_text(file: File, config: Config, r: TypeRef) -> Seq<char>
    decreases r,
{
    match r {
        TypeRef::Array(inner) => subst(config.primitives.array@, required_text(file, config, *inner)),
        TypeRef::Boolean => config.primitives.boolean@,
        TypeRef::Integer { .. } => config.primitives.integer@,
        TypeRef::Null => config.primitives.null@,
        TypeRef::Number => config.primitives.number@,
        TypeRef::String => config.primitives.string@,
        TypeRef::Keyword(v) => config.primitives.string@ + " /* "@ + v@ + " */"@,
        TypeRef::Ref(path) => match type_at(file.types@, path@) {
            Some(t) => t.name@,
            None => broken_text(path@),
        },
        TypeRef::ExternalRef(name) => name@,
    }
}

/// The placeholder spelled for a reference to a path that has no type.
pub open spec fn broken_text(path: Seq<char>) -> Seq<char> {
    "BrokenReference /* "@ + path + " */"@
}

/// The spelling of `r`; where it is not required, the `optional` template
/// is applied around its required spelling.
pub open spec fn type_ref_text(file: File, config: Config, r: TypeRef, required: bool) -> Seq<char> {
    if required {
        required_text(file, config, r)
    } else {
        subst(config.primitives.optional@, required_text(file, config, r))
    }
}

/// How a reference to a schema path came out.
pub enum Resolution {
    /// A type of the graph has the path; this is its name.
    Resolved(String),
    /// No type has the path, which is kept for the placeholder.
    Broken(String),
}

impl Resolution {
    /// The spelling of the reference: the name, or the placeholder.
    pub open spec fn text(self) -> Seq<char> {
        match self {
            Resolution::Resolved(n) => n@,
            Resolution::Broken(p) => broken_text(p@),
        }
    }

    /// Spells the reference: the name, or the placeholder that holds the path.
    pub fn spelling(&self) -> (s: String)
        ensures
            s@ == self.text(),
    {
        match self {
            Resolution::Resolved(n) => n.clone(),
            Resolution::Broken(path) => {
                let mut s = String::from_str("BrokenReference /* ");
                s.append(path.as_str());
                s.append(" */");
                s
            },
        }
    }
}

/// What the generator reads while it renders a file.
pub struct Ctx<'a> {
    /// The type graph that is being rendered.
    pub file: &'a File,
    /// The configuration used to render it.
    pub config: &'a Config,
}

impl<'a> Ctx<'a> {
    /// The spelling of `r`, optional where `required` is false.
    pub fn type_ref_name(&self, r: &TypeRef, required: bool) -> (s: String)
        ensures
            s@ == type_ref_text(*self.file, *self.config, *r, required),
    {
        let inner = self.required_name(r);
        if !required {
            substitute(self.config.primitives.optional.as_str(), inner.as_str())
        } else {
            inner
        }
    }

    /// Looks up the type that a reference to `path` names.
    pub fn resolve_reference(&self, path: &String) -> (r: Resolution)
        ensures
            match type_at(self.file.types@, path@) {
                Some(t) => r is Resolved && r->Resolved_0@ == t.name@,
                None => r is Broken && r->Broken_0@ == path@,
            },
    {
        match find_type(&self.file.types, path) {
            Some(t) => Resolution::Resolved(t.name.clone()),
            None => Resolution::Broken(path.clone()),
        }
    }

    fn required_name(&self, r: &TypeRef) -> (s: String)
        ensures
            s@ == required_text(*self.file, *self.config, *r),
        decreases r,
    {
        match r {
            TypeRef::Array(inner) => {
                let i = self.required_name(inner);
                substitute(self.config.primitives.array.as_str(), i.as_str())
            },
            TypeRef::Boolean => self.config.primitives.boolean.clone(),
            TypeRef::Integer { .. } => self.config.primitives.integer.clone(),
            TypeRef::Null => self.config.primitives.null.clone(),
            TypeRef::Number => self.config.primitives.number.clone(),
            TypeRef::String => self.config.primitives.string.clone(),
            TypeRef::Keyword(v) => {
                let mut s = self.config.primitives.string.clone();
                s.append(" /* ");
                s.append(v.as_str());
                s.append(" */");
                s
            },
            TypeRef::Ref(path) => self.resolve_reference(path).spelling(),
            TypeRef::ExternalRef(name) => name.clone(),
        }
    }
}

} // verus!
