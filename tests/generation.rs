use openrpc_gen::gen::gen;
use openrpc_gen::model::{
    Alias, Config, Enum, EnumTag, Field, File, Generation, Method, MethodResult, Param,
    ParamStructure, PathDerives, Primitives, Struct, TypeDef, TypeKind, TypeRef, Variant,
};
use openrpc_gen::naming::strip_prefix;
use openrpc_gen::resolve::{Ctx, Resolution};
use openrpc_gen::text::{substitute, write_dec};

fn s(x: &str) -> String {
    x.to_string()
}

fn config() -> Config {
    Config {
        primitives: Primitives {
            array: s("Vec<{}>"),
            boolean: s("bool"),
            integer: s("i64"),
            null: s("()"),
            number: s("f64"),
            string: s("String"),
            optional: s("Option<{}>"),
        },
        generation: Generation {
            additional_imports: vec![],
            global_derives: vec![],
            derives: vec![],
            method_name_prefix: None,
            method_name_constants: true,
            result_types: true,
            param_types: true,
            use_core: false,
        },
        debug_path: false,
    }
}

fn type_def(path: &str, name: &str, kind: TypeKind) -> TypeDef {
    TypeDef { path: s(path), name: s(name), documentation: None, kind }
}

fn field(name: &str, ty: TypeRef, required: bool) -> Field {
    Field {
        path: format!("#/f/{name}"),
        documentation: None,
        ty,
        required,
        flatten: false,
        name: s(name),
        name_in_json: s(name),
    }
}

fn variant(name: &str, ty: Option<TypeRef>) -> Variant {
    Variant { path: format!("#/v/{name}"), documentation: None, name: s(name), name_in_json: None, ty }
}

fn param(name: &str, ty: TypeRef, required: bool) -> Param {
    Param { name: s(name), name_in_json: s(name), documentation: None, ty, required }
}

fn method(name: &str, params: Vec<Param>, ps: ParamStructure) -> Method {
    Method { name: s(name), documentation: None, params, result: None, param_structure: ps }
}

fn empty_file() -> File {
    File { types: vec![], methods: vec![] }
}

#[test]
fn struct_with_required_and_optional_field() {
    let file = File {
        types: vec![type_def(
            "#/components/schemas/Thing",
            "Thing",
            TypeKind::Struct(Struct {
                fields: vec![
                    field("id", TypeRef::Integer { bits: None }, true),
                    field("name", TypeRef::String, false),
                ],
            }),
        )],
        methods: vec![],
    };
    let out = gen(&file, &config());
    let expected = "#[derive(Debug, Clone, Serialize, Deserialize)]\npub struct Thing {\n    pub id: i64,\n    #[serde(default)]\n    pub name: Option<String>,\n}\n\n";
    assert!(out.ends_with(expected), "{out}");
}

#[test]
fn method_by_name_with_stripped_prefix() {
    let mut c = config();
    c.generation.method_name_prefix = Some(s("eth_"));
    let file = File {
        types: vec![],
        methods: vec![method("eth_get_block", vec![param("hash", TypeRef::String, true)], ParamStructure::ByName)],
    };
    let out = gen(&file, &c);
    assert!(out.contains("pub const GET_BLOCK: &str = \"eth_get_block\";\n"), "{out}");
    assert!(out.contains("pub struct GetBlockParams {\n    pub hash: String,\n}\n"));
    assert!(out.contains("impl Serialize for GetBlockParams {\n"));
    assert!(out.contains("        map.serialize_entry(\"hash\", &self.hash)?;\n"));
    assert!(!out.contains("serialize_seq"));
    assert!(!out.contains("fn visit_seq"));
    assert!(out.contains("fn visit_map"));
    assert!(out.contains("        deserializer.deserialize_map(Visitor)\n"));
    assert!(out.contains("pub type GetBlock = ();\n"));
}

#[test]
fn untagged_enum_arms_in_order() {
    let file = File {
        types: vec![type_def(
            "#/E",
            "E",
            TypeKind::Enum(Enum {
                tag: EnumTag::Untagged,
                variants: vec![
                    variant("A", Some(TypeRef::Integer { bits: Some(64) })),
                    variant("B", Some(TypeRef::String)),
                ],
                copy: false,
            }),
        )],
        methods: vec![],
    };
    let out = gen(&file, &config());
    let expected = "#[derive(Serialize, Deserialize)]\n#[serde(untagged)]\npub enum E {\n    A(i64),\n    B(String),\n}\n\n";
    assert!(out.ends_with(expected), "{out}");
}

#[test]
fn positional_length_checks() {
    let file = File {
        types: vec![],
        methods: vec![method(
            "pair",
            vec![param("a", TypeRef::Boolean, true), param("b", TypeRef::Boolean, true)],
            ParamStructure::ByPosition,
        )],
    };
    let out = gen(&file, &config());
    assert!(out.contains("                let a: bool = seq.next_element()?.ok_or_else(|| serde::de::Error::invalid_length(1, &\"expected 2 parameters\"))?;\n"), "{out}");
    assert!(out.contains("                let b: bool = seq.next_element()?.ok_or_else(|| serde::de::Error::invalid_length(2, &\"expected 2 parameters\"))?;\n"));
    assert!(out.contains("return Err(serde::de::Error::invalid_length(3, &\"expected 2 parameters\"));\n"));
    assert!(out.contains("        seq.serialize_element(&self.a)?;\n        seq.serialize_element(&self.b)?;\n"));
    assert!(out.contains("        deserializer.deserialize_seq(Visitor)\n"));
    assert!(!out.contains("fn visit_map"));
}

#[test]
fn either_decodes_both_shapes_and_encodes_named() {
    let file = File {
        types: vec![],
        methods: vec![method("m", vec![param("x", TypeRef::Number, false)], ParamStructure::Either)],
    };
    let out = gen(&file, &config());
    assert!(out.contains("fn visit_seq"));
    assert!(out.contains("fn visit_map"));
    assert!(out.contains("serialize_map(None)"));
    assert!(!out.contains("serialize_seq(None)"));
    assert!(out.contains("                        #[serde(default)]\n                    x: Option<f64>,\n"));
    assert!(out.contains("                    x: helper.x,\n"));
    assert!(out.contains("        deserializer.deserialize_any(Visitor)\n"));
    assert!(out.contains("use serde::ser::SerializeMap;\n"));
}

#[test]
fn reference_resolution() {
    let file = File {
        types: vec![type_def("#/T", "Target", TypeKind::Alias(Alias { ty: TypeRef::Null }))],
        methods: vec![],
    };
    let c = config();
    let ctx = Ctx { file: &file, config: &c };
    assert_eq!(ctx.type_ref_name(&TypeRef::Ref(s("#/T")), true), "Target");
    assert_eq!(ctx.type_ref_name(&TypeRef::Ref(s("#/missing")), true), "BrokenReference /* #/missing */");
    assert_eq!(ctx.type_ref_name(&TypeRef::ExternalRef(s("u256")), false), "Option<u256>");
    assert_eq!(ctx.type_ref_name(&TypeRef::Keyword(s("latest")), true), "String /* latest */");
}

#[test]
fn optional_array_of_boolean() {
    let file = empty_file();
    let c = config();
    let ctx = Ctx { file: &file, config: &c };
    let r = TypeRef::Array(Box::new(TypeRef::Boolean));
    assert_eq!(ctx.type_ref_name(&r, false), "Option<Vec<bool>>");
    assert_eq!(ctx.type_ref_name(&r, true), "Vec<bool>");
}

#[test]
fn rendering_twice_gives_same_text() {
    let file = File {
        types: vec![type_def("#/A", "A", TypeKind::Alias(Alias { ty: TypeRef::Ref(s("#/B")) }))],
        methods: vec![method("m", vec![], ParamStructure::ByName)],
    };
    let c = config();
    assert_eq!(gen(&file, &c), gen(&file, &c));
}

#[test]
fn header_imports_and_alias() {
    let mut c = config();
    c.generation.additional_imports = vec![s("crate::Felt"), s("std::fmt")];
    let file = File {
        types: vec![type_def("#/A", "A", TypeKind::Alias(Alias { ty: TypeRef::Ref(s("#/B")) }))],
        methods: vec![],
    };
    let out = gen(&file, &c);
    assert!(out.starts_with("//\n"));
    assert!(out.contains("use serde::{Serialize, Deserialize};\nuse crate::Felt;\nuse std::fmt;\n\n"));
    assert!(!out.contains("SerializeMap"));
    assert!(out.ends_with("pub type A = BrokenReference /* #/B */;\n\n"));
}

#[test]
fn tagged_enum_with_derives_and_debug_paths() {
    let mut c = config();
    c.debug_path = true;
    c.generation.global_derives = vec![s("PartialOrd")];
    c.generation.derives = vec![PathDerives { path: s("#/K"), derives: vec![s("Default"), s("Ord")] }];
    let mut v = variant("One", None);
    v.name_in_json = Some(s("one"));
    v.documentation = Some(s("First."));
    let file = File {
        types: vec![TypeDef {
            path: s("#/K"),
            name: s("K"),
            documentation: Some(s("A kind.")),
            kind: TypeKind::Enum(Enum { tag: EnumTag::Tagged(s("type")), variants: vec![v], copy: true }),
        }],
        methods: vec![],
    };
    let out = gen(&file, &c);
    let expected = "// #/K\n/// A kind.\n#[derive(Serialize, Deserialize)]\n#[derive(Copy, PartialEq, Eq, Hash)]\n#[derive(PartialOrd)]\n#[derive(Default)]\n#[derive(Ord)]\n#[serde(tag = \"type\")]\npub enum K {\n    // #/v/One\n    /// First.\n    #[serde(rename = \"one\")]\n    One,\n}\n\n";
    assert!(out.ends_with(expected), "{out}");
}

#[test]
fn field_flatten_and_rename() {
    let mut f = field("inner", TypeRef::Ref(s("#/I")), true);
    f.flatten = true;
    f.name_in_json = s("innerValue");
    let file = File {
        types: vec![type_def("#/S", "S", TypeKind::Struct(Struct { fields: vec![f] }))],
        methods: vec![],
    };
    let out = gen(&file, &config());
    assert!(out.contains("    #[serde(flatten)]\n    #[serde(rename = \"innerValue\")]\n    pub inner: BrokenReference /* #/I */,\n"), "{out}");
}

#[test]
fn result_alias_and_core_formatter() {
    let mut c = config();
    c.generation.use_core = true;
    c.generation.method_name_constants = false;
    let mut m = method("starknet_blockNumber", vec![], ParamStructure::ByPosition);
    m.result = Some(MethodResult { documentation: Some(s("The number.")), ty: TypeRef::Integer { bits: None } });
    let file = File { types: vec![], methods: vec![m] };
    let out = gen(&file, &c);
    assert!(!out.contains("pub const"));
    assert!(out.contains("/// The number.\n///\n/// Result type of `starknet_blockNumber`.\npub type StarknetBlockNumberResult = i64;\n\n"), "{out}");
    assert!(out.contains("f: &mut core::fmt::Formatter) -> core::fmt::Result {\n"));
    assert!(out.contains("invalid_length(1, &\"expected 0 parameters\")"));
}

#[test]
fn nothing_selected_for_methods() {
    let mut c = config();
    c.generation.method_name_constants = false;
    c.generation.result_types = false;
    c.generation.param_types = false;
    let file = File { types: vec![], methods: vec![method("m", vec![], ParamStructure::Either)] };
    let out = gen(&file, &c);
    assert!(out.ends_with("use serde::{Serialize, Deserialize};\n\n"), "{out}");
}

#[test]
fn template_substitution() {
    assert_eq!(substitute("Vec<{}>", "u8"), "Vec<u8>");
    assert_eq!(substitute("({}, {})", "T"), "(T, T)");
    assert_eq!(substitute("{", "T"), "{");
    assert_eq!(substitute("{{}}", "T"), "{T}");
    assert_eq!(substitute("", "T"), "");
    assert_eq!(substitute("plain", "T"), "plain");
}

#[test]
fn prefix_stripping() {
    assert_eq!(strip_prefix("eth_call", "eth_"), "call");
    assert_eq!(strip_prefix("net_version", "eth_"), "net_version");
    assert_eq!(strip_prefix("eth", "eth_"), "eth");
    assert_eq!(strip_prefix("eth_", "eth_"), "");
}

#[test]
fn decimal_digits() {
    let mut out = String::from("n=");
    write_dec(&mut out, 0);
    out.push(',');
    write_dec(&mut out, 10);
    out.push(',');
    write_dec(&mut out, 1234567);
    assert_eq!(out, "n=0,10,1234567");
}

#[test]
fn resolved_and_broken_references_differ() {
    let file = File {
        types: vec![
            type_def("#/A", "First", TypeKind::Alias(Alias { ty: TypeRef::Null })),
            type_def("#/B", "Second", TypeKind::Alias(Alias { ty: TypeRef::Null })),
        ],
        methods: vec![],
    };
    let c = config();
    let ctx = Ctx { file: &file, config: &c };
    match ctx.resolve_reference(&s("#/B")) {
        Resolution::Resolved(n) => assert_eq!(n, "Second"),
        Resolution::Broken(_) => panic!("#/B is a type of the graph"),
    }
    let broken = ctx.resolve_reference(&s("#/C"));
    match &broken {
        Resolution::Broken(p) => assert_eq!(p, "#/C"),
        Resolution::Resolved(_) => panic!("#/C is no type of the graph"),
    }
    assert_eq!(broken.spelling(), "BrokenReference /* #/C */");
}
