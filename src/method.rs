//! Rendering the declarations derived from an RPC method: its name
//! constant, its result alias, and its parameter record with the record's
//! positional and named wire codecs.

use crate::model::{Config, File, Method, Param, ParamStructure};
use crate::naming::{ident_base, method_ident_base, pascal_of, screaming_snake_of, to_pascal, to_screaming_snake};
use crate::resolve::{type_ref_text, Ctx};
use crate::text::{dec, write_dec};
use vstd::prelude::*;

verus! {

pub const SER_HEAD: &'static str = "        #[allow(unused_mut)]\n    fn serialize<S>(&self, serializer: S) -> Result<S::Ok, S::Error>\n    where\n        S: serde::Serializer,\n    {\n";

pub const DE_HEAD: &'static str = " {\n    fn deserialize<D>(deserializer: D) -> Result<Self, D::Error>\n    where\n        D: serde::Deserializer<'de>,\n    {\n        struct Visitor;\n\n        impl<'de> serde::de::Visitor<'de> for Visitor {\n            type Value = ";

pub const SEQ_HEAD: &'static str = "            #[allow(unused_mut)]\n            fn visit_seq<A>(self, mut seq: A) -> Result<Self::Value, A::Error>\n            where\n                A: serde::de::SeqAccess<'de>,\n            {\n";

pub const SEQ_TRAILING: &'static str = "\n                if seq.next_element::<serde::de::IgnoredAny>()?.is_some() {\n                    return Err(serde::de::Error::invalid_length(";

pub const MAP_HEAD: &'static str = "            #[allow(unused_variables)]\n            fn visit_map<A>(self, map: A) -> Result<Self::Value, A::Error>\n            where\n                A: serde::de::MapAccess<'de>,\n            {\n                #[derive(Deserialize)]\n                struct Helper {\n";

pub const MAP_MIDDLE: &'static str = "                }\n\n                let helper = Helper::deserialize(serde::de::value::MapAccessDeserializer::new(map))?;\n\n                Ok(";

/// Which of the per-parameter lines of a parameter record is meant.
pub enum ParamLine {
    /// A field of the public record.
    Field,
    /// A named entry written by the encoder.
    MapEntry,
    /// A positional element written by the encoder.
    SeqElement,
    /// A positional element read by the decoder, with its length check.
    SeqRead,
    /// A field set by the positional decoder.
    SeqBuild,
    /// A field of the helper record of the named decoder.
    HelperField,
    /// A field set by the named decoder from the helper record.
    HelperBuild,
}

/// The line(s) of kind `kind` for the parameter `p`, the one at `index` of
/// `total` parameters.
pub open spec fn param_line(kind: ParamLine, out: Seq<char>, file: File, config: Config, p: Param, index: nat, total: nat) -> Seq<char> {
    match kind {
        ParamLine::Field => {
            let o = match p.documentation {
                Some(d) => out + "    /// "@ + d@ + "\n"@,
                None => out,
            };
            o + "    pub "@ + p.name@ + ": "@ + type_ref_text(file, config, p.ty, p.required) + ",\n"@
        },
        ParamLine::MapEntry => out + "        map.serialize_entry(\""@ + p.name_in_json@ + "\", &self."@ + p.name@ + ")?;\n"@,
        ParamLine::SeqElement => out + "        seq.serialize_element(&self."@ + p.name@ + ")?;\n"@,
        ParamLine::SeqRead => out + "                let "@ + p.name@ + ": "@ + type_ref_text(file, config, p.ty, p.required)
            + " = seq.next_element()?.ok_or_else(|| serde::de::Error::invalid_length("@ + dec(index + 1)
            + ", &\"expected "@ + dec(total) + " parameters\"))?;\n"@,
        ParamLine::SeqBuild => out + "                    "@ + p.name@ + ",\n"@,
        ParamLine::HelperField => {
            let o = if !p.required { out + "                        #[serde(default)]\n"@ } else { out };
            o + "                    "@ + p.name@ + ": "@ + type_ref_text(file, config, p.ty, p.required) + ",\n"@
        },
        ParamLine::HelperBuild => out + "                    "@ + p.name@ + ": helper."@ + p.name@ + ",\n"@,
    }
}

/// The lines of kind `kind` for the parameters `ps`, in order, out of
/// `total` parameters.
pub open spec fn params_out(kind: ParamLine, out: Seq<char>, file: File, config: Config, ps: Seq<Param>, total: nat) -> Seq<char>
    decreases ps.len(),
{
    if ps.len() == 0 {
        out
    } else {
        param_line(
            kind,
            params_out(kind, out, file, config, ps.drop_last(), total),
            file,
            config,
            ps.last(),
            (ps.len() - 1) as nat,
            total,
        )
    }
}

/// Parameters travel as a JSON object, at least on encoding.
pub open spec fn by_name(s: ParamStructure) -> bool {
    s is ByName || s is Either
}

/// Parameters may be decoded from a JSON array.
pub open spec fn by_position(s: ParamStructure) -> bool {
    s is ByPosition || s is Either
}

/// The name constant of a method.
pub open spec fn constant_out(out: Seq<char>, m: Method, base: Seq<char>) -> Seq<char> {
    out + "/// `"@ + m.name@ + "`\n"@ + "pub const "@ + screaming_snake_of(base) + ": &str = \""@ + m.name@ + "\";\n"@ + "\n"@
}

/// The result alias of a method.
pub open spec fn result_out(out: Seq<char>, file: File, config: Config, m: Method, base: Seq<char>) -> Seq<char> {
    match m.result {
        Some(r) => {
            let a = match r.documentation {
                Some(d) => out + "/// "@ + d@ + "\n"@ + "///\n"@,
                None => out,
            };
            a + "/// Result type of `"@ + m.name@ + "`.\n"@ + "pub type "@ + (pascal_of(base) + "Result"@) + " = "@
                + type_ref_text(file, config, r.ty, true) + ";\n"@ + "\n"@
        },
        None => out + "/// Result type of `"@ + m.name@ + "`. This method does not return anything.\n"@ + "pub type "@
            + pascal_of(base) + " = ();\n"@ + "\n"@,
    }
}

/// The public parameter record of a method, named `ident`.
pub open spec fn record_out(out: Seq<char>, file: File, config: Config, m: Method, ident: Seq<char>) -> Seq<char> {
    params_out(
        ParamLine::Field,
        out + "/// Parameters of the `"@ + m.name@ + "` method.\n"@ + "#[derive(Debug, Clone)]\n"@ + "pub struct "@ + ident + " {\n"@,
        file,
        config,
        m.params@,
        m.params@.len(),
    ) + "}\n"@ + "\n"@
}

/// The encoder of the parameter record `ident`: named for `ByName` and
/// `Either`, positional for `ByPosition`.
pub open spec fn encoder_out(out: Seq<char>, file: File, config: Config, m: Method, ident: Seq<char>) -> Seq<char> {
    let head = out + "impl Serialize for "@ + ident + " {\n"@ + SER_HEAD@;
    let body = if by_name(m.param_structure) {
        params_out(ParamLine::MapEntry, head + "        let mut map = serializer.serialize_map(None)?;\n"@, file, config, m.params@, m.params@.len())
            + "        map.end()\n"@
    } else {
        params_out(ParamLine::SeqElement, head + "        let mut seq = serializer.serialize_seq(None)?;\n"@, file, config, m.params@, m.params@.len())
            + "        seq.end()\n"@
    };
    body + "    }\n"@ + "}\n"@ + "\n"@
}

/// The positional decoder: reads exactly one element per parameter, then
/// fails on any element left over.
pub open spec fn seq_visitor_out(out: Seq<char>, file: File, config: Config, m: Method, ident: Seq<char>) -> Seq<char> {
    let n = m.params@.len();
    let reads = params_out(ParamLine::SeqRead, out + SEQ_HEAD@, file, config, m.params@, n);
    let check = reads + SEQ_TRAILING@ + dec(n + 1) + ", &\"expected "@ + dec(n) + " parameters\"));\n"@ + "                }\n"@ + "\n"@;
    params_out(ParamLine::SeqBuild, check + "                Ok("@ + ident + " {\n"@, file, config, m.params@, n) + "                })\n"@
        + "            }\n"@ + "\n"@
}

/// The named decoder, through a helper record that defaults the optional
/// parameters.
pub open spec fn map_visitor_out(out: Seq<char>, file: File, config: Config, m: Method, ident: Seq<char>) -> Seq<char> {
    let n = m.params@.len();
    let helper = params_out(ParamLine::HelperField, out + MAP_HEAD@, file, config, m.params@, n);
    params_out(ParamLine::HelperBuild, helper + MAP_MIDDLE@ + ident + " {\n"@, file, config, m.params@, n) + "                })\n"@
        + "            }\n"@ + "\n"@
}

/// The name of the module that `fmt` is taken from in the generated code.
pub open spec fn std_mod(config: Config) -> Seq<char> {
    if config.generation.use_core { "core"@ } else { "std"@ }
}

/// The deserializer entry point for a parameter structure.
pub open spec fn entry_out(out: Seq<char>, s: ParamStructure) -> Seq<char> {
    match s {
        ParamStructure::ByName => out + "        deserializer.deserialize_map(Visitor)\n"@,
        ParamStructure::ByPosition => out + "        deserializer.deserialize_seq(Visitor)\n"@,
        ParamStructure::Either => out + "        deserializer.deserialize_any(Visitor)\n"@,
    }
}

/// The decoder of the parameter record `ident`.
pub open spec fn decoder_out(out: Seq<char>, file: File, config: Config, m: Method, ident: Seq<char>) -> Seq<char> {
    let head = out + "impl<'de> Deserialize<'de> for "@ + ident + DE_HEAD@ + ident + ";\n"@ + "\n"@
        + "            fn expecting(&self, f: &mut "@ + std_mod(config) + "::fmt::Formatter) -> "@ + std_mod(config)
        + "::fmt::Result {\n"@ + "                write!(f, \"the parameters for `"@ + m.name@ + "`\")\n"@
        + "            }\n"@ + "\n"@;
    let a = if by_position(m.param_structure) { seq_visitor_out(head, file, config, m, ident) } else { head };
    let b = if by_name(m.param_structure) { map_visitor_out(a, file, config, m, ident) } else { a };
    entry_out(b + "        }\n"@ + "\n"@, m.param_structure) + "    }\n"@ + "}\n"@ + "\n"@
}

/// All the declarations derived from a method, as the configuration selects them.
pub open spec fn method_out(out: Seq<char>, file: File, config: Config, m: Method) -> Seq<char> {
    let base = ident_base(m.name@, config.generation.method_name_prefix);
    let ident = pascal_of(base) + "Params"@;
    let o1 = if config.generation.method_name_constants { constant_out(out, m, base) } else { out };
    let o2 = if config.generation.result_types { result_out(o1, file, config, m, base) } else { o1 };
    if config.generation.param_types {
        decoder_out(encoder_out(record_out(o2, file, config, m, ident), file, config, m, ident), file, config, m, ident)
    } else {
        o2
    }
}

fn write_param_line(kind: &ParamLine, out: &mut String, ctx: &Ctx, p: &Param, index: usize, total: usize)
    ensures
        final(out)@ == param_line(*kind, old(out)@, *ctx.file, *ctx.config, *p, index as nat, total as nat),
{
    match kind {
        ParamLine::Field => {
            match &p.documentation {
                Some(d) => {
                    out.append("    /// ");
                    out.append(d.as_str());
                    out.append("\n");
                },
                None => {},
            }
            let ty = ctx.type_ref_name(&p.ty, p.required);
            out.append("    pub ");
            out.append(p.name.as_str());
            out.append(": ");
            out.append(ty.as_str());
            out.append(",\n");
        },
        ParamLine::MapEntry => {
            out.append("        map.serialize_entry(\"");
            out.append(p.name_in_json.as_str());
            out.append("\", &self.");
            out.append(p.name.as_str());
            out.append(")?;\n");
        },
        ParamLine::SeqElement => {
            out.append("        seq.serialize_element(&self.");
            out.append(p.name.as_str());
            out.append(")?;\n");
        },
        ParamLine::SeqRead => {
            let ty = ctx.type_ref_name(&p.ty, p.required);
            out.append("                let ");
            out.append(p.name.as_str());
            out.append(": ");
            out.append(ty.as_str());
            out.append(" = seq.next_element()?.ok_or_else(|| serde::de::Error::invalid_length(");
            write_dec(out, index as u128 + 1);
            out.append(", &\"expected ");
            write_dec(out, total as u128);
            out.append(" parameters\"))?;\n");
        },
        ParamLine::SeqBuild => {
            out.append("                    ");
            out.append(p.name.as_str());
            out.append(",\n");
        },
        ParamLine::HelperField => {
            if !p.required {
                out.append("                        #[serde(default)]\n");
            }
            let ty = ctx.type_ref_name(&p.ty, p.required);
            out.append("                    ");
            out.append(p.name.as_str());
            out.append(": ");
            out.append(ty.as_str());
            out.append(",\n");
        },
        ParamLine::HelperBuild => {
            out.append("                    ");
            out.append(p.name.as_str());
            out.append(": helper.");
            out.append(p.name.as_str());
            out.append(",\n");
        },
    }
}

fn write_params(kind: ParamLine, out: &mut String, ctx: &Ctx, ps: &Vec<Param>)
    ensures
        final(out)@ == params_out(kind, old(out)@, *ctx.file, *ctx.config, ps@, ps@.len()),
{
    let ghost start = out@;
    let mut i: usize = 0;
    while i < ps.len()
        invariant
            i <= ps@.len(),
            out@ == params_out(kind, start, *ctx.file, *ctx.config, ps@.subrange(0, i as int), ps@.len()),
        decreases ps@.len() - i,
    {
        assert(ps@.subrange(0, i + 1).drop_last() =~= ps@.subrange(0, i as int));
        write_param_line(&kind, out, ctx, &ps[i], i, ps.len());
        i += 1;
    }
    assert(ps@.subrange(0, ps@.len() as int) =~= ps@);
}

fn write_decoder(out: &mut String, ctx: &Ctx, m: &Method, ident: &String)
    ensures
        final(out)@ == decoder_out(old(out)@, *ctx.file, *ctx.config, *m, ident@),
{
    let std_name: &str = if ctx.config.generation.use_core { "core" } else { "std" };
    let n = m.params.len();
    out.append("impl<'de> Deserialize<'de> for ");
    out.append(ident.as_str());
    out.append(DE_HEAD);
    out.append(ident.as_str());
    out.append(";\n");
    out.append("\n");
    out.append("            fn expecting(&self, f: &mut ");
    out.append(std_name);
    out.append("::fmt::Formatter) -> ");
    out.append(std_name);
    out.append("::fmt::Result {\n");
    out.append("                write!(f, \"the parameters for `");
    out.append(m.name.as_str());
    out.append("`\")\n");
    out.append("            }\n");
    out.append("\n");
    let positional = match m.param_structure {
        ParamStructure::ByName => false,
        _ => true,
    };
    let named = match m.param_structure {
        ParamStructure::ByPosition => false,
        _ => true,
    };
    if positional {
        out.append(SEQ_HEAD);
        write_params(ParamLine::SeqRead, out, ctx, &m.params);
        out.append(SEQ_TRAILING);
        write_dec(out, n as u128 + 1);
        out.append(", &\"expected ");
        write_dec(out, n as u128);
        out.append(" parameters\"));\n");
        out.append("                }\n");
        out.append("\n");
        out.append("                Ok(");
        out.append(ident.as_str());
        out.append(" {\n");
        write_params(ParamLine::SeqBuild, out, ctx, &m.params);
        out.append("                })\n");
        out.append("            }\n");
        out.append("\n");
    }
    if named {
        out.append(MAP_HEAD);
        write_params(ParamLine::HelperField, out, ctx, &m.params);
        out.append(MAP_MIDDLE);
        out.append(ident.as_str());
        out.append(" {\n");
        write_params(ParamLine::HelperBuild, out, ctx, &m.params);
        out.append("                })\n");
        out.append("            }\n");
        out.append("\n");
    }
    out.append("        }\n");
    out.append("\n");
    match m.param_structure {
        ParamStructure::ByName => out.append("        deserializer.deserialize_map(Visitor)\n"),
        ParamStructure::ByPosition => out.append("        deserializer.deserialize_seq(Visitor)\n"),
        ParamStructure::Either => out.append("        deserializer.deserialize_any(Visitor)\n"),
    }
    out.append("    }\n");
    out.append("}\n");
    out.append("\n");
}

/// Appends the declarations derived from the method `m`.
pub fn gen_method(out: &mut String, ctx: &Ctx, m: &Method)
    ensures
        final(out)@ == method_out(old(out)@, *ctx.file, *ctx.config, *m),
{
    let base = method_ident_base(&m.name, &ctx.config.generation.method_name_prefix);
    if ctx.config.generation.method_name_constants {
        let constant = to_screaming_snake(base.as_str());
        out.append("/// `");
        out.append(m.name.as_str());
        out.append("`\n");
        out.append("pub const ");
        out.append(constant.as_str());
        out.append(": &str = \"");
        out.append(m.name.as_str());
        out.append("\";\n");
        out.append("\n");
    }
    if ctx.config.generation.result_types {
        let mut ident = to_pascal(base.as_str());
        match &m.result {
            Some(r) => {
                ident.append("Result");
                match &r.documentation {
                    Some(d) => {
                        out.append("/// ");
                        out.append(d.as_str());
                        out.append("\n");
                        out.append("///\n");
                    },
                    None => {},
                }
                let ty = ctx.type_ref_name(&r.ty, true);
                out.append("/// Result type of `");
                out.append(m.name.as_str());
                out.append("`.\n");
                out.append("pub type ");
                out.append(ident.as_str());
                out.append(" = ");
                out.append(ty.as_str());
                out.append(";\n");
                out.append("\n");
            },
            None => {
                out.append("/// Result type of `");
                out.append(m.name.as_str());
                out.append("`. This method does not return anything.\n");
                out.append("pub type ");
                out.append(ident.as_str());
                out.append(" = ();\n");
                out.append("\n");
            },
        }
    }
    if ctx.config.generation.param_types {
        let mut ident = to_pascal(base.as_str());
        ident.append("Params");
        out.append("/// Parameters of the `");
        out.append(m.name.as_str());
        out.append("` method.\n");
        out.append("#[derive(Debug, Clone)]\n");
        out.append("pub struct ");
        out.append(ident.as_str());
        out.append(" {\n");
        write_params(ParamLine::Field, out, ctx, &m.params);
        out.append("}\n");
        out.append("\n");
        out.append("impl Serialize for ");
        out.append(ident.as_str());
        out.append(" {\n");
        out.append(SER_HEAD);
        match m.param_structure {
            ParamStructure::ByPosition => {
                out.append("        let mut seq = serializer.serialize_seq(None)?;\n");
                write_params(ParamLine::SeqElement, out, ctx, &m.params);
                out.append("        seq.end()\n");
            },
            _ => {
                out.append("        let mut map = serializer.serialize_map(None)?;\n");
                write_params(ParamLine::MapEntry, out, ctx, &m.params);
                out.append("        map.end()\n");
            },
        }
        out.append("    }\n");
        out.append("}\n");
        out.append("\n");
        write_decoder(out, ctx, m, &ident);
    }
}

} // verus!
