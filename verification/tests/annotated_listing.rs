use move_ast_exporter::annotated::{
    attrs_to_json, function_to_json, module_to_json, package_to_json, struct_to_json, AttrJson,
};
use move_ast_exporter::ast::{Attribute, Exp, Operation};
use move_ast_exporter::expression::ExpJson;
use move_ast_exporter::model::{
    FieldEnv, FunctionEnv, GlobalEnv, ModuleEnv, Parameter, StructEnv,
};
use move_ast_exporter::symbol::{Symbol, SymbolPool};
use move_ast_exporter::tags::{FunctionKind, Visibility};
use move_ast_exporter::ty::{ModuleName, PrimitiveType, Type, TypeParameter};

fn annotated_env() -> GlobalEnv {
    let mut pool = SymbolPool::new();
    let module = pool.make("BasicCoin");
    let coin = pool.make("Coin");
    let value = pool.make("value");
    let t = pool.make("T");
    let balance = pool.make("balance");
    let c = pool.make("c");
    let test_only = pool.make("test_only");
    let view = pool.make("view");
    let s = StructEnv {
        name: coin,
        abilities: vec![],
        type_parameters: vec![TypeParameter { name: t }],
        fields: vec![
            FieldEnv { name: value, ty: Type::Primitive(PrimitiveType::U64), offset: 0, variant: None },
            FieldEnv { name: t, ty: Type::TypeParameter(0), offset: 1, variant: None },
        ],
        is_native: false,
        is_ghost_memory: false,
        attributes: vec![Attribute { name: test_only, description: "Apply(test_only, [])".to_string() }],
    };
    let f = FunctionEnv {
        name: balance,
        visibility: Visibility::Public,
        kind: FunctionKind::Regular,
        type_parameters: vec![],
        parameters: vec![Parameter {
            name: c,
            ty: Type::Reference {
                mutable: false,
                target: Box::new(Type::Struct {
                    module: ModuleName { address: "0x1".to_string(), name: module },
                    name: coin,
                    type_args: vec![Type::Primitive(PrimitiveType::Bool)],
                }),
            },
        }],
        result_type: Type::Primitive(PrimitiveType::U64),
        is_native: false,
        is_intrinsic: false,
        is_entry: false,
        attributes: vec![Attribute { name: view, description: "Apply(view, [])".to_string() }],
        def: Some(Exp::Call { operation: Operation::Select, args: vec![Exp::LocalVar { name: c }] }),
    };
    GlobalEnv {
        symbol_pool: pool,
        modules: vec![ModuleEnv {
            name: ModuleName { address: "0x1".to_string(), name: module },
            is_script: false,
            structs: vec![s],
            functions: vec![f],
            attributes: vec![],
        }],
        errors_reported: false,
    }
}

#[test]
fn attributes_are_written_with_name_and_description() {
    let mut pool = SymbolPool::new();
    let a = pool.make("test");
    let b = pool.make("expected_failure");
    let env = GlobalEnv { symbol_pool: pool, modules: vec![], errors_reported: false };
    let attrs = vec![
        Attribute { name: a, description: "Apply(NodeId(1), Symbol(0), [])".to_string() },
        Attribute { name: b, description: "Assign(NodeId(2), Symbol(1), Value(Number(7)))".to_string() },
        Attribute { name: Symbol { index: 99 }, description: String::new() },
    ];
    assert_eq!(
        attrs_to_json(&attrs, &env),
        vec![
            AttrJson { name: "test".to_string(), value: "Apply(NodeId(1), Symbol(0), [])".to_string() },
            AttrJson {
                name: "expected_failure".to_string(),
                value: "Assign(NodeId(2), Symbol(1), Value(Number(7)))".to_string(),
            },
            AttrJson { name: "<unknown>".to_string(), value: String::new() },
        ]
    );
    assert!(attrs_to_json(&[], &env).is_empty());
}

#[test]
fn struct_fields_are_written_as_name_and_type() {
    let env = annotated_env();
    let out = struct_to_json(&env.modules[0].structs[0], &env);
    assert_eq!(out.name, "Coin");
    assert_eq!(out.fields, vec!["value: u64".to_string(), "T: T".to_string()]);
    assert_eq!(
        out.attrs,
        vec![AttrJson { name: "test_only".to_string(), value: "Apply(test_only, [])".to_string() }]
    );
}

#[test]
fn function_carries_signature_attributes_and_body() {
    let env = annotated_env();
    let out = function_to_json(&env.modules[0].functions[0], &env);
    assert_eq!(out.name, "balance");
    assert_eq!(out.params, vec!["c: &0x1::BasicCoin::Coin<bool>".to_string()]);
    assert_eq!(out.ret, "u64");
    assert_eq!(
        out.attrs,
        vec![AttrJson { name: "view".to_string(), value: "Apply(view, [])".to_string() }]
    );
    assert_eq!(
        out.body,
        Some(ExpJson {
            kind: "Call::Select".to_string(),
            value: None,
            children: vec![ExpJson {
                kind: "LocalVar".to_string(),
                value: Some("c".to_string()),
                children: vec![],
            }],
        })
    );
}

#[test]
fn function_without_body_has_none() {
    let mut env = annotated_env();
    env.modules[0].functions[0].def = None;
    env.modules[0].functions[0].is_native = true;
    env.modules[0].functions[0].result_type = Type::Tuple(vec![]);
    let out = function_to_json(&env.modules[0].functions[0], &env);
    assert_eq!(out.body, None);
    assert_eq!(out.ret, "()");
}

#[test]
fn module_is_written_under_its_full_name() {
    let env = annotated_env();
    let out = module_to_json(&env.modules[0], &env);
    assert_eq!(out.name, "0x1::BasicCoin");
    assert_eq!(out.structs.len(), 1);
    assert_eq!(out.functions.len(), 1);
    assert_eq!(out.structs[0], struct_to_json(&env.modules[0].structs[0], &env));
    assert_eq!(out.functions[0], function_to_json(&env.modules[0].functions[0], &env));
    assert!(out.attrs.is_empty());
}

#[test]
fn package_lists_every_module_in_order() {
    let mut env = annotated_env();
    let extra = env.symbol_pool.make("extra");
    let deprecated = env.symbol_pool.make("deprecated");
    env.modules.push(ModuleEnv {
        name: ModuleName { address: "0xcafe".to_string(), name: extra },
        is_script: false,
        structs: vec![],
        functions: vec![],
        attributes: vec![Attribute { name: deprecated, description: "Apply(deprecated, [])".to_string() }],
    });
    let out = package_to_json(&env);
    assert_eq!(out.modules.len(), 2);
    assert_eq!(out.modules[0].name, "0x1::BasicCoin");
    assert_eq!(out.modules[1].name, "0xcafe::extra");
    assert_eq!(out.modules[1].attrs.len(), 1);
    assert_eq!(out.modules[1].attrs[0].name, "deprecated");
}

#[test]
fn annotated_listing_is_the_same_on_every_run() {
    assert_eq!(package_to_json(&annotated_env()), package_to_json(&annotated_env()));
}
