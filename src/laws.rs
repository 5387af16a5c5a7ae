//! Properties of the rendered text that relate several definitions.

use crate::gen::{gen_text, header_out, type_out, variants_out, wrapped_lines};
use crate::model::{derives_for, type_at, Config, EnumTag, File, TypeDef, TypeKind, TypeRef, Variant};
use crate::resolve::{broken_text, required_text, type_ref_text};
use crate::text::subst;
use vstd::prelude::*;

verus! {

/// Rendering is a function of its inputs: the same type graph under the
/// same configuration gives the same text, byte for byte.
pub proof fn rendering_is_deterministic(f1: File, c1: Config, f2: File, c2: Config)
    requires
        f1 == f2,
        c1 == c2,
    ensures
        gen_text(f1, c1) == gen_text(f2, c2),
{
}

proof fn type_at_finds(types: Seq<TypeDef>, path: Seq<char>, i: int)
    requires
        0 <= i < types.len(),
        types[i].path@ == path,
        forall|a: int, b: int| 0 <= a < b < types.len() ==> #[trigger] types[a].path@ != #[trigger] types[b].path@,
    ensures
        type_at(types, path) == Some(types[i]),
    decreases types.len(),
{
    if i > 0 {
        assert(types[0].path@ != types[i].path@);
        let rest = types.drop_first();
        assert forall|a: int, b: int| 0 <= a < b < rest.len() implies #[trigger] rest[a].path@ != #[trigger] rest[b].path@ by {
            assert(rest[a] == types[a + 1] && rest[b] == types[b + 1]);
        }
        type_at_finds(rest, path, i - 1);
    }
}

proof fn type_at_misses(types: Seq<TypeDef>, path: Seq<char>)
    requires
        forall|i: int| 0 <= i < types.len() ==> #[trigger] types[i].path@ != path,
    ensures
        type_at(types, path) is None,
    decreases types.len(),
{
    if types.len() > 0 {
        let rest = types.drop_first();
        assert forall|i: int| 0 <= i < rest.len() implies #[trigger] rest[i].path@ != path by {
            assert(rest[i] == types[i + 1]);
        }
        type_at_misses(rest, path);
    }
}

/// A reference to a path that a type of the graph has is spelled as that
/// type's name.
pub proof fn reference_names_its_type(file: File, config: Config, path: String, i: int)
    requires
        file.wf(),
        0 <= i < file.types@.len(),
        file.types@[i].path@ == path@,
    ensures
        type_ref_text(file, config, TypeRef::Ref(path), true) == file.types@[i].name@,
{
    type_at_finds(file.types@, path@, i);
}

/// A reference to a path that no type of the graph has is spelled as a
/// placeholder that holds the path itself.
pub proof fn broken_reference_keeps_path(file: File, config: Config, path: String)
    requires
        forall|i: int| 0 <= i < file.types@.len() ==> #[trigger] file.types@[i].path@ != path@,
    ensures
        type_ref_text(file, config, TypeRef::Ref(path), true) == broken_text(path@),
        broken_text(path@).subrange(19, 19 + path@.len() as int) == path@,
{
    type_at_misses(file.types@, path@);
    reveal_strlit("BrokenReference /* ");
    assert(broken_text(path@).subrange(19, 19 + path@.len() as int) =~= path@);
}

/// An optional array is the optional template around the array template
/// around the element's spelling, in that order.
pub proof fn optional_wraps_array(file: File, config: Config, elem: TypeRef)
    ensures
        type_ref_text(file, config, TypeRef::Array(Box::new(elem)), false)
            == subst(config.primitives.optional@, subst(config.primitives.array@, required_text(file, config, elem))),
        type_ref_text(file, config, TypeRef::Array(Box::new(TypeRef::Boolean)), false)
            == subst(config.primitives.optional@, subst(config.primitives.array@, config.primitives.boolean@)),
{
    assert(required_text(file, config, TypeRef::Boolean) == config.primitives.boolean@);
}

proof fn variants_split(out: Seq<char>, file: File, config: Config, vs: Seq<Variant>, k: int)
    requires
        0 <= k <= vs.len(),
    ensures
        variants_out(out, file, config, vs)
            == variants_out(variants_out(out, file, config, vs.subrange(0, k)), file, config, vs.subrange(k, vs.len() as int)),
    decreases vs.len(),
{
    if k == vs.len() {
        assert(vs.subrange(0, k) =~= vs);
        assert(vs.subrange(k, vs.len() as int).len() == 0);
    } else {
        let dl = vs.drop_last();
        variants_split(out, file, config, dl, k);
        assert(dl.subrange(0, k) =~= vs.subrange(0, k));
        assert(vs.subrange(k, vs.len() as int).drop_last() =~= dl.subrange(k, dl.len() as int));
    }
}

/// An untagged sum type is declared with the untagged directive followed
/// by its arms in declared order: for every `k`, the arms before `k` are
/// written, then the arms from `k` on.
pub proof fn untagged_arms_in_declared_order(out: Seq<char>, file: File, config: Config, ty: TypeDef, k: int)
    requires
        ty.kind is Enum,
        ty.kind->Enum_0.tag is Untagged,
        0 <= k <= ty.kind->Enum_0.variants@.len(),
    ensures
        exists|pre: Seq<char>|
            type_out(out, file, config, ty) == variants_out(
                variants_out(
                    pre + "#[serde(untagged)]\n"@ + "pub enum "@ + ty.name@ + " {\n"@,
                    file,
                    config,
                    ty.kind->Enum_0.variants@.subrange(0, k),
                ),
                file,
                config,
                ty.kind->Enum_0.variants@.subrange(k, ty.kind->Enum_0.variants@.len() as int),
            ) + "}\n"@ + "\n"@,
{
    let e = ty.kind->Enum_0;
    let o1 = header_out(out, config, ""@, ty.path@, ty.documentation);
    let a = o1 + "#[derive(Serialize, Deserialize)]\n"@;
    let b = if e.copy { a + "#[derive(Copy, PartialEq, Eq, Hash)]\n"@ } else { a };
    let c = wrapped_lines(b, config.generation.global_derives@, "#[derive("@, ")]\n"@);
    let d = match derives_for(config.generation.derives@, ty.path@) {
        Some(ds) => wrapped_lines(c, ds, "#[derive("@, ")]\n"@),
        None => c,
    };
    variants_split(d + "#[serde(untagged)]\n"@ + "pub enum "@ + ty.name@ + " {\n"@, file, config, e.variants@, k);
}

} // verus!
