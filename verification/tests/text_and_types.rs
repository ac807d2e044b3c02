use move_ast_exporter::symbol::SymbolPool;
use move_ast_exporter::tags::{Ability, FunctionKind, Visibility};
use move_ast_exporter::text::decimal_string;
use move_ast_exporter::ty::{ModuleName, PrimitiveType, Type, TypeDisplayContext, TypeParameter};

fn boxed(ty: Type) -> Box<Type> {
    Box::new(ty)
}

fn u64_type() -> Type {
    Type::Primitive(PrimitiveType::U64)
}

#[test]
fn decimal_of_small_and_large_numbers() {
    assert_eq!(decimal_string(0), "0");
    assert_eq!(decimal_string(7), "7");
    assert_eq!(decimal_string(10), "10");
    assert_eq!(decimal_string(65535), "65535");
    assert_eq!(decimal_string(1_000_000), "1000000");
}

#[test]
fn tags_have_fixed_texts() {
    assert_eq!(Ability::Copy.name(), "Copy");
    assert_eq!(Ability::Drop.name(), "Drop");
    assert_eq!(Ability::Store.name(), "Store");
    assert_eq!(Ability::Key.name(), "Key");
    assert_eq!(Ability::Unknown.name(), "Unknown");
    assert_eq!(Visibility::Private.name(), "Private");
    assert_eq!(Visibility::Public.name(), "Public");
    assert_eq!(Visibility::Friend.name(), "Friend");
    assert_eq!(Visibility::Unknown.name(), "Unknown");
    assert_eq!(FunctionKind::Regular.name(), "Regular");
    assert_eq!(FunctionKind::Inline.name(), "Inline");
    assert_eq!(FunctionKind::Entry.name(), "Entry");
    assert_eq!(FunctionKind::Unknown.name(), "Unknown");
}

#[test]
fn primitive_types_are_written_as_keywords() {
    let pool = SymbolPool::new();
    let params = Vec::new();
    let ctx = TypeDisplayContext { pool: &pool, type_params: &params };
    let expected = [
        (PrimitiveType::Bool, "bool"),
        (PrimitiveType::U8, "u8"),
        (PrimitiveType::U16, "u16"),
        (PrimitiveType::U32, "u32"),
        (PrimitiveType::U64, "u64"),
        (PrimitiveType::U128, "u128"),
        (PrimitiveType::U256, "u256"),
        (PrimitiveType::Address, "address"),
        (PrimitiveType::Signer, "signer"),
    ];
    for (p, text) in expected {
        assert_eq!(Type::Primitive(p).display(&ctx), text);
    }
}

#[test]
fn type_parameter_is_written_by_name_in_scope() {
    let mut pool = SymbolPool::new();
    let t = pool.make("T");
    let u = pool.make("CoinType");
    let params = vec![TypeParameter { name: t }, TypeParameter { name: u }];
    let ctx = TypeDisplayContext { pool: &pool, type_params: &params };
    assert_eq!(Type::TypeParameter(0).display(&ctx), "T");
    assert_eq!(Type::TypeParameter(1).display(&ctx), "CoinType");
    assert_eq!(ctx.type_parameter_name(1), "CoinType");
}

#[test]
fn type_parameter_out_of_scope_is_written_by_position() {
    let pool = SymbolPool::new();
    let params = Vec::new();
    let ctx = TypeDisplayContext { pool: &pool, type_params: &params };
    assert_eq!(Type::TypeParameter(0).display(&ctx), "#0");
    assert_eq!(Type::TypeParameter(12).display(&ctx), "#12");
    assert_eq!(Type::TypeParameter(u16::MAX).display(&ctx), "#65535");
}

#[test]
fn vectors_and_references_nest() {
    let pool = SymbolPool::new();
    let params = Vec::new();
    let ctx = TypeDisplayContext { pool: &pool, type_params: &params };
    let bytes = Type::Vector(boxed(Type::Primitive(PrimitiveType::U8)));
    assert_eq!(bytes.display(&ctx), "vector<u8>");
    let nested = Type::Vector(boxed(Type::Vector(boxed(u64_type()))));
    assert_eq!(nested.display(&ctx), "vector<vector<u64>>");
    let shared = Type::Reference { mutable: false, target: boxed(Type::Primitive(PrimitiveType::Signer)) };
    assert_eq!(shared.display(&ctx), "&signer");
    let unique = Type::Reference { mutable: true, target: boxed(nested) };
    assert_eq!(unique.display(&ctx), "&mut vector<vector<u64>>");
}

#[test]
fn struct_types_carry_module_and_arguments() {
    let mut pool = SymbolPool::new();
    let coin_mod = pool.make("coin");
    let coin = pool.make("Coin");
    let t = pool.make("T");
    let params = vec![TypeParameter { name: t }];
    let ctx = TypeDisplayContext { pool: &pool, type_params: &params };
    let plain = Type::Struct {
        module: ModuleName { address: "0x1".to_string(), name: coin_mod },
        name: coin,
        type_args: vec![],
    };
    assert_eq!(plain.display(&ctx), "0x1::coin::Coin");
    let generic = Type::Struct {
        module: ModuleName { address: "0x1".to_string(), name: coin_mod },
        name: coin,
        type_args: vec![Type::TypeParameter(0), u64_type()],
    };
    assert_eq!(generic.display(&ctx), "0x1::coin::Coin<T, u64>");
}

#[test]
fn tuples_are_written_in_parentheses() {
    let pool = SymbolPool::new();
    let params = Vec::new();
    let ctx = TypeDisplayContext { pool: &pool, type_params: &params };
    assert_eq!(Type::Tuple(vec![]).display(&ctx), "()");
    assert_eq!(Type::Tuple(vec![u64_type()]).display(&ctx), "(u64)");
    let pair = Type::Tuple(vec![Type::Primitive(PrimitiveType::U8), Type::Primitive(PrimitiveType::Bool)]);
    assert_eq!(pair.display(&ctx), "(u8, bool)");
}

#[test]
fn other_types_keep_their_text() {
    let pool = SymbolPool::new();
    let params = Vec::new();
    let ctx = TypeDisplayContext { pool: &pool, type_params: &params };
    let fun = Type::Other { text: "|u64|bool".to_string() };
    assert_eq!(fun.display(&ctx), "|u64|bool");
    assert_eq!(Type::Vector(boxed(fun)).display(&ctx), "vector<|u64|bool>");
}

#[test]
fn module_name_is_written_with_its_address() {
    let mut pool = SymbolPool::new();
    let name = pool.make("BasicCoin");
    let module = ModuleName { address: "0x1".to_string(), name };
    assert_eq!(module.display_full(&pool), "0x1::BasicCoin");
}

#[test]
fn abilities_are_read_from_their_texts() {
    for ability in [Ability::Copy, Ability::Drop, Ability::Store, Ability::Key, Ability::Unknown] {
        assert_eq!(Ability::from_name(ability.name()), ability);
    }
    assert_eq!(Ability::from_name("copy"), Ability::Unknown);
    assert_eq!(Ability::from_name(""), Ability::Unknown);
}
