//! The declaration-level listing: modules, structs with their fields, and
//! function signatures.

use crate::model::{FieldEnv, FunctionEnv, GlobalEnv, ModuleEnv, Parameter, StructEnv};
use crate::symbol::SymbolPool;
use crate::tags::Ability;
use crate::ty::{Type, TypeDisplayContext, TypeParameter};
use crate::views::{each_view, opt_view};
use vstd::prelude::*;

verus! {

/// The whole listing: the modules in declaration order.
#[derive(Debug, PartialEq, Eq)]
pub struct AstJson {
    pub modules: Vec<ModuleJson>,
}

/// A module with its structs and functions in declaration order.
#[derive(Debug, PartialEq, Eq)]
pub struct ModuleJson {
    pub name: String,
    pub address: String,
    pub is_script: bool,
    pub structs: Vec<StructJson>,
    pub functions: Vec<FunctionJson>,
}

/// A struct declaration.
#[derive(Debug, PartialEq, Eq)]
pub struct StructJson {
    pub name: String,
    pub abilities: Vec<String>,
    pub type_params: Vec<String>,
    pub fields: Vec<FieldJson>,
    pub is_native: bool,
    pub is_ghost_memory: bool,
}

/// A field of a struct.
#[derive(Debug, PartialEq, Eq)]
pub struct FieldJson {
    pub name: String,
    pub ty: String,
    pub offset: usize,
    pub variant: Option<String>,
}

/// A function signature.
#[derive(Debug, PartialEq, Eq)]
pub struct FunctionJson {
    pub name: String,
    pub visibility: String,
    pub kind: String,
    pub type_params: Vec<String>,
    pub parameters: Vec<ParamJson>,
    pub results: Vec<String>,
    pub is_native: bool,
    pub is_intrinsic: bool,
    pub is_entry: bool,
}

/// A parameter of a function.
#[derive(Debug, PartialEq, Eq)]
pub struct ParamJson {
    pub name: String,
    pub ty: String,
}

pub ghost struct AstRecord {
    pub modules: Seq<ModuleRecord>,
}

pub ghost struct ModuleRecord {
    pub name: Seq<char>,
    pub address: Seq<char>,
    pub is_script: bool,
    pub structs: Seq<StructRecord>,
    pub functions: Seq<FunctionRecord>,
}

pub ghost struct StructRecord {
    pub name: Seq<char>,
    pub abilities: Seq<Seq<char>>,
    pub type_params: Seq<Seq<char>>,
    pub fields: Seq<FieldRecord>,
    pub is_native: bool,
    pub is_ghost_memory: bool,
}

pub ghost struct FieldRecord {
    pub name: Seq<char>,
    pub ty: Seq<char>,
    pub offset: usize,
    pub variant: Option<Seq<char>>,
}

pub ghost struct FunctionRecord {
    pub name: Seq<char>,
    pub visibility: Seq<char>,
    pub kind: Seq<char>,
    pub type_params: Seq<Seq<char>>,
    pub parameters: Seq<ParamRecord>,
    pub results: Seq<Seq<char>>,
    pub is_native: bool,
    pub is_intrinsic: bool,
    pub is_entry: bool,
}

pub ghost struct ParamRecord {
    pub name: Seq<char>,
    pub ty: Seq<char>,
}

impl View for ParamJson {
    type V = ParamRecord;

    open spec fn view(&self) -> ParamRecord {
        ParamRecord { name: self.name@, ty: self.ty@ }
    }
}

impl View for FieldJson {
    type V = FieldRecord;

    open spec fn view(&self) -> FieldRecord {
        FieldRecord {
            name: self.name@,
            ty: self.ty@,
            offset: self.offset,
            variant: opt_view(self.variant),
        }
    }
}

impl View for FunctionJson {
    type V = FunctionRecord;

    open spec fn view(&self) -> FunctionRecord {
        FunctionRecord {
            name: self.name@,
            visibility: self.visibility@,
            kind: self.kind@,
            type_params: each_view(self.type_params@),
            parameters: each_view(self.parameters@),
            results: each_view(self.results@),
            is_native: self.is_native,
            is_intrinsic: self.is_intrinsic,
            is_entry: self.is_entry,
        }
    }
}

impl View for StructJson {
    type V = StructRecord;

    open spec fn view(&self) -> StructRecord {
        StructRecord {
            name: self.name@,
            abilities: each_view(self.abilities@),
            type_params: each_view(self.type_params@),
            fields: each_view(self.fields@),
            is_native: self.is_native,
            is_ghost_memory: self.is_ghost_memory,
        }
    }
}

impl View for ModuleJson {
    type V = ModuleRecord;

    open spec fn view(&self) -> ModuleRecord {
        ModuleRecord {
            name: self.name@,
            address: self.address@,
            is_script: self.is_script,
            structs: each_view(self.structs@),
            functions: each_view(self.functions@),
        }
    }
}

impl View for AstJson {
    type V = AstRecord;

    open spec fn view(&self) -> AstRecord {
        AstRecord { modules: each_view(self.modules@) }
    }
}

impl StructRecord {
    /// No two fields share an offset.
    pub open spec fn offsets_unique(self) -> bool {
        forall|i: int, j: int|
            0 <= i < j < self.fields.len() ==> self.fields[i].offset != self.fields[j].offset
    }

    /// No field lies at a lower offset than a field listed before it.
    pub open spec fn offsets_ordered(self) -> bool {
        forall|i: int, j: int|
            0 <= i < j < self.fields.len() ==> self.fields[i].offset <= self.fields[j].offset
    }
}

/// The names of type parameters, in declaration order.
pub open spec fn type_param_names(params: Seq<TypeParameter>, pool: SymbolPool) -> Seq<Seq<char>> {
    Seq::new(params.len(), |i: int| pool.name_of(params[i].name))
}

/// The texts of abilities, in the order given.
pub open spec fn ability_tags(abilities: Seq<Ability>) -> Seq<Seq<char>> {
    Seq::new(abilities.len(), |i: int| abilities[i].tag())
}

/// The record of a field: its resolved name, the text of its type, and its
/// offset and variant as they are.
pub open spec fn field_record(ctx: TypeDisplayContext, f: FieldEnv) -> FieldRecord {
    FieldRecord {
        name: ctx.pool.name_of(f.name),
        ty: f.ty.text(ctx),
        offset: f.offset,
        variant: match f.variant {
            Some(v) => Some(ctx.pool.name_of(v)),
            None => None,
        },
    }
}

/// The record of a parameter.
pub open spec fn param_record(ctx: TypeDisplayContext, p: Parameter) -> ParamRecord {
    ParamRecord { name: ctx.pool.name_of(p.name), ty: p.ty.text(ctx) }
}

/// The record of a struct.
pub open spec fn struct_record(s: StructEnv, env: GlobalEnv) -> StructRecord {
    StructRecord {
        name: env.symbol_pool.name_of(s.name),
        abilities: ability_tags(s.abilities@),
        type_params: type_param_names(s.type_parameters@, env.symbol_pool),
        fields: Seq::new(
            s.fields@.len(),
            |i: int| field_record(s.type_display_ctx(env), s.fields@[i]),
        ),
        is_native: s.is_native,
        is_ghost_memory: s.is_ghost_memory,
    }
}

/// The record of a function.
pub open spec fn function_record(f: FunctionEnv, env: GlobalEnv) -> FunctionRecord {
    FunctionRecord {
        name: env.symbol_pool.name_of(f.name),
        visibility: f.visibility.tag(),
        kind: f.kind.tag(),
        type_params: type_param_names(f.type_parameters@, env.symbol_pool),
        parameters: Seq::new(
            f.parameters@.len(),
            |i: int| param_record(f.type_display_ctx(env), f.parameters@[i]),
        ),
        results: Type::texts(f.result_type.flattened(), f.type_display_ctx(env)),
        is_native: f.is_native,
        is_intrinsic: f.is_intrinsic,
        is_entry: f.is_entry,
    }
}

/// The record of a module.
pub open spec fn module_record(m: ModuleEnv, env: GlobalEnv) -> ModuleRecord {
    ModuleRecord {
        name: env.symbol_pool.name_of(m.name.name),
        address: m.name.address@,
        is_script: m.is_script,
        structs: Seq::new(m.structs@.len(), |i: int| struct_record(m.structs@[i], env)),
        functions: Seq::new(m.functions@.len(), |i: int| function_record(m.functions@[i], env)),
    }
}

/// The record of everything that was compiled.
pub open spec fn ast_record(env: GlobalEnv) -> AstRecord {
    AstRecord {
        modules: Seq::new(env.modules@.len(), |i: int| module_record(env.modules@[i], env)),
    }
}

/// Writes out every module, in declaration order.
pub fn build_ast(env: &GlobalEnv) -> (out: AstJson)
    ensures
        out@ == ast_record(*env),
        out@.modules.len() == env.modules@.len(),
{
    let mut modules: Vec<ModuleJson> = Vec::new();
    let mut i: usize = 0;
    while i < env.modules.len()
        invariant
            i <= env.modules.len(),
            modules@.len() == i,
            forall|j: int|
                0 <= j < i ==> (#[trigger] modules@[j])@ == module_record(env.modules@[j], *env),
        decreases env.modules.len() - i,
    {
        modules.push(module_to_json(&env.modules[i], env));
        i += 1;
    }
    let out = AstJson { modules };
    assert(out@.modules =~= ast_record(*env).modules);
    out
}

/// Writes out a module: its name and address, then one entry per struct
/// and one per function, in declaration order.
pub fn module_to_json(m: &ModuleEnv, env: &GlobalEnv) -> (out: ModuleJson)
    ensures
        out@ == module_record(*m, *env),
        out@.structs.len() == m.structs@.len(),
        out@.functions.len() == m.functions@.len(),
{
    let mut structs: Vec<StructJson> = Vec::new();
    let mut i: usize = 0;
    while i < m.structs.len()
        invariant
            i <= m.structs.len(),
            structs@.len() == i,
            forall|j: int|
                0 <= j < i ==> (#[trigger] structs@[j])@ == struct_record(m.structs@[j], *env),
        decreases m.structs.len() - i,
    {
        structs.push(struct_to_json(&m.structs[i], env));
        i += 1;
    }
    let mut functions: Vec<FunctionJson> = Vec::new();
    let mut k: usize = 0;
    while k < m.functions.len()
        invariant
            k <= m.functions.len(),
            functions@.len() == k,
            forall|j: int|
                0 <= j < k ==> (#[trigger] functions@[j])@ == function_record(
                    m.functions@[j],
                    *env,
                ),
        decreases m.functions.len() - k,
    {
        functions.push(function_to_json(&m.functions[k], env));
        k += 1;
    }
    let out = ModuleJson {
        name: env.symbol_pool.string(m.name.name),
        address: m.name.address.clone(),
        is_script: m.is_script,
        structs,
        functions,
    };
    assert(out@.structs =~= module_record(*m, *env).structs);
    assert(out@.functions =~= module_record(*m, *env).functions);
    out
}

fn type_params_to_json(params: &Vec<TypeParameter>, pool: &SymbolPool) -> (out: Vec<String>)
    ensures
        each_view(out@) == type_param_names(params@, *pool),
{
    let mut out: Vec<String> = Vec::new();
    let mut i: usize = 0;
    while i < params.len()
        invariant
            i <= params.len(),
            out@.len() == i,
            forall|j: int| 0 <= j < i ==> (#[trigger] out@[j])@ == pool.name_of(params@[j].name),
        decreases params.len() - i,
    {
        out.push(pool.string(params[i].name));
        i += 1;
    }
    assert(each_view(out@) =~= type_param_names(params@, *pool));
    out
}

/// Writes out a struct: its name, abilities and type parameters, its
/// fields in declaration order, and the two flags as the compiler set them.
pub fn struct_to_json(s: &StructEnv, env: &GlobalEnv) -> (out: StructJson)
    ensures
        out@ == struct_record(*s, *env),
        out@.fields.len() == s.fields@.len(),
        forall|i: int| 0 <= i < s.fields@.len() ==> out@.fields[i].offset == s.fields@[i].offset,
{
    let ctx = s.get_type_display_ctx(env);
    let mut abilities: Vec<String> = Vec::new();
    let mut a: usize = 0;
    while a < s.abilities.len()
        invariant
            a <= s.abilities.len(),
            abilities@.len() == a,
            forall|j: int| 0 <= j < a ==> (#[trigger] abilities@[j])@ == s.abilities@[j].tag(),
        decreases s.abilities.len() - a,
    {
        abilities.push(s.abilities[a].name().to_string());
        a += 1;
    }
    let mut fields: Vec<FieldJson> = Vec::new();
    let mut i: usize = 0;
    while i < s.fields.len()
        invariant
            i <= s.fields.len(),
            ctx == s.type_display_ctx(*env),
            fields@.len() == i,
            forall|j: int| 0 <= j < i ==> (#[trigger] fields@[j])@ == field_record(ctx, s.fields@[j]),
        decreases s.fields.len() - i,
    {
        fields.push(field_to_json(&ctx, &s.fields[i]));
        i += 1;
    }
    let out = StructJson {
        name: env.symbol_pool.string(s.name),
        abilities,
        type_params: type_params_to_json(&s.type_parameters, &env.symbol_pool),
        fields,
        is_native: s.is_native,
        is_ghost_memory: s.is_ghost_memory,
    };
    assert(out@.abilities =~= ability_tags(s.abilities@));
    assert(out@.fields =~= struct_record(*s, *env).fields);
    out
}

/// Writes out a field: its name, the text of its type in the scope of its
/// struct, its offset and, where it has one, its variant.
pub fn field_to_json(ctx: &TypeDisplayContext, f: &FieldEnv) -> (out: FieldJson)
    ensures
        out@ == field_record(*ctx, *f),
{
    let variant = match f.variant {
        Some(v) => Some(ctx.pool.string(v)),
        None => None,
    };
    FieldJson { name: ctx.pool.string(f.name), ty: f.ty.display(ctx), offset: f.offset, variant }
}

fn results_to_json(result_type: &Type, ctx: &TypeDisplayContext) -> (out: Vec<String>)
    ensures
        each_view(out@) == Type::texts(result_type.flattened(), *ctx),
{
    let mut out: Vec<String> = Vec::new();
    match result_type {
        Type::Tuple(elems) => {
            let mut i: usize = 0;
            while i < elems.len()
                invariant
                    i <= elems.len(),
                    out@.len() == i,
                    forall|j: int| 0 <= j < i ==> (#[trigger] out@[j])@ == elems@[j].text(*ctx),
                decreases elems.len() - i,
            {
                out.push(elems[i].display(ctx));
                i += 1;
            }
            assert(each_view(out@) =~= Type::texts(result_type.flattened(), *ctx));
        },
        other => {
            out.push(other.display(ctx));
            assert(each_view(out@) =~= Type::texts(result_type.flattened(), *ctx));
        },
    }
    out
}

/// Writes out a function signature: name, visibility, kind, type
/// parameters, parameters in declaration order, one text per result type,
/// and the three flags as the compiler set them.
pub fn function_to_json(f: &FunctionEnv, env: &GlobalEnv) -> (out: FunctionJson)
    ensures
        out@ == function_record(*f, *env),
        out@.parameters.len() == f.parameters@.len(),
        out@.is_entry == f.is_entry,
{
    let ctx = f.get_type_display_ctx(env);
    let mut parameters: Vec<ParamJson> = Vec::new();
    let mut i: usize = 0;
    while i < f.parameters.len()
        invariant
            i <= f.parameters.len(),
            ctx == f.type_display_ctx(*env),
            parameters@.len() == i,
            forall|j: int|
                0 <= j < i ==> (#[trigger] parameters@[j])@ == param_record(ctx, f.parameters@[j]),
        decreases f.parameters.len() - i,
    {
        let p = &f.parameters[i];
        parameters.push(ParamJson { name: ctx.pool.string(p.name), ty: p.ty.display(&ctx) });
        i += 1;
    }
    let out = FunctionJson {
        name: env.symbol_pool.string(f.name),
        visibility: f.visibility.name().to_string(),
        kind: f.kind.name().to_string(),
        type_params: type_params_to_json(&f.type_parameters, &env.symbol_pool),
        parameters,
        results: results_to_json(&f.result_type, &ctx),
        is_native: f.is_native,
        is_intrinsic: f.is_intrinsic,
        is_entry: f.is_entry,
    };
    assert(out@.parameters =~= function_record(*f, *env).parameters);
    out
}

/// Offsets pass through unchanged, so a struct whose fields have unique
/// offsets in declaration order is written with unique offsets in the same
/// order.
pub proof fn lemma_offsets_preserved(s: StructEnv, env: GlobalEnv)
    ensures
        struct_record(s, env).fields.len() == s.fields@.len(),
        forall|i: int|
            0 <= i < s.fields@.len() ==> (#[trigger] struct_record(s, env).fields[i]).offset
                == s.fields@[i].offset,
        s.offsets_unique() ==> struct_record(s, env).offsets_unique(),
        s.offsets_ordered() ==> struct_record(s, env).offsets_ordered(),
{
}

/// A module is written with as many structs and functions as it declares,
/// each at the position of its declaration.
pub proof fn lemma_declarations_in_order(m: ModuleEnv, env: GlobalEnv)
    ensures
        module_record(m, env).structs.len() == m.structs@.len(),
        module_record(m, env).functions.len() == m.functions@.len(),
        forall|i: int|
            0 <= i < m.structs@.len() ==> #[trigger] module_record(m, env).structs[i]
                == struct_record(m.structs@[i], env),
        forall|i: int|
            0 <= i < m.functions@.len() ==> #[trigger] module_record(m, env).functions[i]
                == function_record(m.functions@[i], env),
{
}

} // verus!
