//! Rendering the type graph as Rust source text.
//!
//! Each `*_out` spec function takes the text written so far and returns it
//! with the lines of one part appended; the matching `write_*` function
//! appends exactly those lines to a `String`.

use crate::method::{gen_method, method_out};
use crate::model::{derives_for, find_derives, Config, EnumTag, Field, File, Method, TypeDef, TypeKind, Variant};
use crate::resolve::{type_ref_text, Ctx};
use vstd::prelude::*;

verus! {

/// One line `before x after` for each `x` of `xs`, in order.
pub open spec fn wrapped_lines(out: Seq<char>, xs: Seq<String>, before: Seq<char>, after: Seq<char>) -> Seq<char>
    decreases xs.len(),
{
    if xs.len() == 0 {
        out
    } else {
        wrapped_lines(out, xs.drop_last(), before, after) + before + xs.last()@ + after
    }
}

/// The comment lines for an optional path (in debug mode) and documentation.
pub open spec fn header_out(out: Seq<char>, config: Config, indent: Seq<char>, path: Seq<char>, doc: Option<String>) -> Seq<char> {
    let o1 = if config.debug_path { out + indent + "// "@ + path + "\n"@ } else { out };
    match doc {
        Some(d) => o1 + indent + "/// "@ + d@ + "\n"@,
        None => o1,
    }
}

/// The lines of one record field.
pub open spec fn field_out(out: Seq<char>, file: File, config: Config, f: Field) -> Seq<char> {
    let o1 = header_out(out, config, "    "@, f.path@, f.documentation);
    let o2 = if !f.required { o1 + "    #[serde(default)]\n"@ } else { o1 };
    let o3 = if f.flatten { o2 + "    #[serde(flatten)]\n"@ } else { o2 };
    let o4 = if f.name@ != f.name_in_json@ {
        o3 + "    #[serde(rename = \""@ + f.name_in_json@ + "\")]\n"@
    } else {
        o3
    };
    o4 + "    pub "@ + f.name@ + ": "@ + type_ref_text(file, config, f.ty, f.required) + ",\n"@
}

/// The lines of the record fields `fs`, in order.
pub open spec fn fields_out(out: Seq<char>, file: File, config: Config, fs: Seq<Field>) -> Seq<char>
    decreases fs.len(),
{
    if fs.len() == 0 {
        out
    } else {
        field_out(fields_out(out, file, config, fs.drop_last()), file, config, fs.last())
    }
}

/// The lines of one arm of a sum type.
pub open spec fn variant_out(out: Seq<char>, file: File, config: Config, v: Variant) -> Seq<char> {
    let o1 = header_out(out, config, "    "@, v.path@, v.documentation);
    let o2 = match v.name_in_json {
        Some(n) => if n@ != v.name@ {
            o1 + "    #[serde(rename = \""@ + n@ + "\")]\n"@
        } else {
            o1
        },
        None => o1,
    };
    match v.ty {
        Some(t) => o2 + "    "@ + v.name@ + "("@ + type_ref_text(file, config, t, true) + "),\n"@,
        None => o2 + "    "@ + v.name@ + ",\n"@,
    }
}

/// The lines of the arms `vs`, in order.
pub open spec fn variants_out(out: Seq<char>, file: File, config: Config, vs: Seq<Variant>) -> Seq<char>
    decreases vs.len(),
{
    if vs.len() == 0 {
        out
    } else {
        variant_out(variants_out(out, file, config, vs.drop_last()), file, config, vs.last())
    }
}

/// The wire-representation directive of a sum type.
pub open spec fn tag_out(out: Seq<char>, tag: EnumTag) -> Seq<char> {
    match tag {
        EnumTag::Normal => out,
        EnumTag::Tagged(t) => out + "#[serde(tag = \""@ + t@ + "\")]\n"@,
        EnumTag::Untagged => out + "#[serde(untagged)]\n"@,
    }
}

/// The declaration of one type, followed by a blank line.
pub open spec fn type_out(out: Seq<char>, file: File, config: Config, ty: TypeDef) -> Seq<char> {
    let o1 = header_out(out, config, ""@, ty.path@, ty.documentation);
    let o2 = match ty.kind {
        TypeKind::Alias(a) => o1 + "pub type "@ + ty.name@ + " = "@ + type_ref_text(file, config, a.ty, true) + ";\n"@,
        TypeKind::Struct(s) => fields_out(
            o1 + "#[derive(Debug, Clone, Serialize, Deserialize)]\n"@ + "pub struct "@ + ty.name@ + " {\n"@,
            file,
            config,
            s.fields@,
        ) + "}\n"@,
        TypeKind::Enum(e) => {
            let a = o1 + "#[derive(Serialize, Deserialize)]\n"@;
            let b = if e.copy { a + "#[derive(Copy, PartialEq, Eq, Hash)]\n"@ } else { a };
            let c = wrapped_lines(b, config.generation.global_derives@, "#[derive("@, ")]\n"@);
            let d = match derives_for(config.generation.derives@, ty.path@) {
                Some(ds) => wrapped_lines(c, ds, "#[derive("@, ")]\n"@),
                None => c,
            };
            variants_out(tag_out(d, e.tag) + "pub enum "@ + ty.name@ + " {\n"@, file, config, e.variants@) + "}\n"@
        },
    };
    o2 + "\n"@
}

/// Appends one line `before x after` for each `x` of `xs`.
pub fn write_wrapped_lines(out: &mut String, xs: &Vec<String>, before: &str, after: &str)
    ensures
        final(out)@ == wrapped_lines(old(out)@, xs@, before@, after@),
{
    let ghost start = out@;
    let mut i: usize = 0;
    while i < xs.len()
        invariant
            i <= xs@.len(),
            out@ == wrapped_lines(start, xs@.subrange(0, i as int), before@, after@),
        decreases xs@.len() - i,
    {
        assert(xs@.subrange(0, i + 1).drop_last() =~= xs@.subrange(0, i as int));
        out.append(before);
        out.append(xs[i].as_str());
        out.append(after);
        i += 1;
    }
    assert(xs@.subrange(0, xs@.len() as int) =~= xs@);
}

fn write_header(out: &mut String, config: &Config, indent: &str, path: &String, doc: &Option<String>)
    ensures
        final(out)@ == header_out(old(out)@, *config, indent@, path@, *doc),
{
    if config.debug_path {
        out.append(indent);
        out.append("// ");
        out.append(path.as_str());
        out.append("\n");
    }
    match doc {
        Some(d) => {
            out.append(indent);
            out.append("/// ");
            out.append(d.as_str());
            out.append("\n");
        },
        None => {},
    }
}

fn write_field(out: &mut String, ctx: &Ctx, f: &Field)
    ensures
        final(out)@ == field_out(old(out)@, *ctx.file, *ctx.config, *f),
{
    write_header(out, ctx.config, "    ", &f.path, &f.documentation);
    let name = ctx.type_ref_name(&f.ty, f.required);
    if !f.required {
        out.append("    #[serde(default)]\n");
    }
    if f.flatten {
        out.append("    #[serde(flatten)]\n");
    }
    if !(f.name == f.name_in_json) {
        out.append("    #[serde(rename = \"");
        out.append(f.name_in_json.as_str());
        out.append("\")]\n");
    }
    out.append("    pub ");
    out.append(f.name.as_str());
    out.append(": ");
    out.append(name.as_str());
    out.append(",\n");
}

fn write_variant(out: &mut String, ctx: &Ctx, v: &Variant)
    ensures
        final(out)@ == variant_out(old(out)@, *ctx.file, *ctx.config, *v),
{
    write_header(out, ctx.config, "    ", &v.path, &v.documentation);
    match &v.name_in_json {
        Some(n) => {
            if !(*n == v.name) {
                out.append("    #[serde(rename = \"");
                out.append(n.as_str());
                out.append("\")]\n");
            }
        },
        None => {},
    }
    match &v.ty {
        Some(t) => {
            let inner = ctx.type_ref_name(t, true);
            out.append("    ");
            out.append(v.name.as_str());
            out.append("(");
            out.append(inner.as_str());
            out.append("),\n");
        },
        None => {
            out.append("    ");
            out.append(v.name.as_str());
            out.append(",\n");
        },
    }
}

/// Appends the declaration of `ty`, followed by a blank line.
pub fn gen_type(out: &mut String, ctx: &Ctx, ty: &TypeDef)
    ensures
        final(out)@ == type_out(old(out)@, *ctx.file, *ctx.config, *ty),
{
    write_header(out, ctx.config, "", &ty.path, &ty.documentation);
    match &ty.kind {
        TypeKind::Alias(a) => {
            let target = ctx.type_ref_name(&a.ty, true);
            out.append("pub type ");
            out.append(ty.name.as_str());
            out.append(" = ");
            out.append(target.as_str());
            out.append(";\n");
        },
        TypeKind::Struct(s) => {
            out.append("#[derive(Debug, Clone, Serialize, Deserialize)]\n");
            out.append("pub struct ");
            out.append(ty.name.as_str());
            out.append(" {\n");
            let ghost start = out@;
            let mut i: usize = 0;
            while i < s.fields.len()
                invariant
                    i <= s.fields@.len(),
                    out@ == fields_out(start, *ctx.file, *ctx.config, s.fields@.subrange(0, i as int)),
                decreases s.fields@.len() - i,
            {
                assert(s.fields@.subrange(0, i + 1).drop_last() =~= s.fields@.subrange(0, i as int));
                write_field(out, ctx, &s.fields[i]);
                i += 1;
            }
            assert(s.fields@.subrange(0, s.fields@.len() as int) =~= s.fields@);
            out.append("}\n");
        },
        TypeKind::Enum(e) => {
            out.append("#[derive(Serialize, Deserialize)]\n");
            if e.copy {
                out.append("#[derive(Copy, PartialEq, Eq, Hash)]\n");
            }
            write_wrapped_lines(out, &ctx.config.generation.global_derives, "#[derive(", ")]\n");
            match find_derives(&ctx.config.generation.derives, &ty.path) {
                Some(ds) => write_wrapped_lines(out, ds, "#[derive(", ")]\n"),
                None => {},
            }
            match &e.tag {
                EnumTag::Normal => {},
                EnumTag::Tagged(t) => {
                    out.append("#[serde(tag = \"");
                    out.append(t.as_str());
                    out.append("\")]\n");
                },
                EnumTag::Untagged => {
                    out.append("#[serde(untagged)]\n");
                },
            }
            out.append("pub enum ");
            out.append(ty.name.as_str());
            out.append(" {\n");
            let ghost start = out@;
            let mut i: usize = 0;
            while i < e.variants.len()
                invariant
                    i <= e.variants@.len(),
                    out@ == variants_out(start, *ctx.file, *ctx.config, e.variants@.subrange(0, i as int)),
                decreases e.variants@.len() - i,
            {
                assert(e.variants@.subrange(0, i + 1).drop_last() =~= e.variants@.subrange(0, i as int));
                write_variant(out, ctx, &e.variants[i]);
                i += 1;
            }
            assert(e.variants@.subrange(0, e.variants@.len() as int) =~= e.variants@);
            out.append("}\n");
        },
    }
    out.append("\n");
}

/// The fixed comment block that opens every rendered file.
pub const HEADER: &'static str = "//\n// This file was automatically generated by openrpc-gen.\n//\n// Do not edit it manually and instead edit either the source OpenRPC document,\n// the configuration file, or open an issue or pull request on the openrpc-gen\n// GitHub repository.\n// \n//     https://github.com/nils-mathieu/openrpc-gen\n//\n\n";

/// The declarations of the types `ts`, in order.
pub open spec fn types_out(out: Seq<char>, file: File, config: Config, ts: Seq<TypeDef>) -> Seq<char>
    decreases ts.len(),
{
    if ts.len() == 0 {
        out
    } else {
        type_out(types_out(out, file, config, ts.drop_last()), file, config, ts.last())
    }
}

/// The declarations derived from the methods `ms`, in order.
pub open spec fn methods_out(out: Seq<char>, file: File, config: Config, ms: Seq<Method>) -> Seq<char>
    decreases ms.len(),
{
    if ms.len() == 0 {
        out
    } else {
        method_out(methods_out(out, file, config, ms.drop_last()), file, config, ms.last())
    }
}

/// The import lines that open the rendered file, after the header.
pub open spec fn imports_out(out: Seq<char>, file: File, config: Config) -> Seq<char> {
    let a = out + "use serde::{Serialize, Deserialize};\n"@;
    let b = if config.generation.param_types && file.methods@.len() > 0 {
        a + "use serde::ser::SerializeMap;\n"@
    } else {
        a
    };
    wrapped_lines(b, config.generation.additional_imports@, "use "@, ";\n"@) + "\n"@
}

/// The whole rendered file: header, imports, every type, then every method.
pub open spec fn gen_text(file: File, config: Config) -> Seq<char> {
    let head = imports_out(HEADER@, file, config);
    methods_out(types_out(head, file, config, file.types@), file, config, file.methods@)
}

/// Renders `file` as Rust source text under `config`.
pub fn gen(file: &File, config: &Config) -> (r: String)
    ensures
        r@ == gen_text(*file, *config),
{
    let ctx = Ctx { file, config };
    let mut out = String::from_str(HEADER);
    out.append("use serde::{Serialize, Deserialize};\n");
    if config.generation.param_types && file.methods.len() > 0 {
        out.append("use serde::ser::SerializeMap;\n");
    }
    write_wrapped_lines(&mut out, &config.generation.additional_imports, "use ", ";\n");
    out.append("\n");
    let ghost head = out@;
    let mut i: usize = 0;
    while i < file.types.len()
        invariant
            ctx.file == file,
            ctx.config == config,
            i <= file.types@.len(),
            out@ == types_out(head, *file, *config, file.types@.subrange(0, i as int)),
        decreases file.types@.len() - i,
    {
        assert(file.types@.subrange(0, i + 1).drop_last() =~= file.types@.subrange(0, i as int));
        gen_type(&mut out, &ctx, &file.types[i]);
        i += 1;
    }
    assert(file.types@.subrange(0, file.types@.len() as int) =~= file.types@);
    let ghost mid = out@;
    let mut j: usize = 0;
    while j < file.methods.len()
        invariant
            ctx.file == file,
            ctx.config == config,
            j <= file.methods@.len(),
            out@ == methods_out(mid, *file, *config, file.methods@.subrange(0, j as int)),
        decreases file.methods@.len() - j,
    {
        assert(file.methods@.subrange(0, j + 1).drop_last() =~= file.methods@.subrange(0, j as int));
        gen_method(&mut out, &ctx, &file.methods[j]);
        j += 1;
    }
    assert(file.methods@.subrange(0, file.methods@.len() as int) =~= file.methods@);
    out
}

} // verus!
