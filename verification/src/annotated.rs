//! The listing that carries attributes and function bodies.
//!
//! Fields and parameters are written as `name: type`; every module, struct
//! and function carries its attributes; a function that has a body carries
//! it as an expression tree.

use crate::ast::Attribute;
use crate::expression::{exp_node, exp_to_json, ExpJson, ExpNode};
use crate::model::{FunctionEnv, GlobalEnv, ModuleEnv, StructEnv};
use crate::symbol::{Symbol, SymbolPool};
use crate::ty::{Type, TypeDisplayContext};
use crate::views::{each_view, opt_view};
use vstd::prelude::*;

verus! {

/// An attribute: its name and its content as one text.
#[derive(Debug, PartialEq, Eq)]
pub struct AttrJson {
    pub name: String,
    pub value: String,
}

/// A function with the texts of its parameters and of its result type,
/// its attributes and, if it has one, its body.
#[derive(Debug, PartialEq, Eq)]
pub struct FunJson {
    pub name: String,
    pub params: Vec<String>,
    pub ret: String,
    pub attrs: Vec<AttrJson>,
    pub body: Option<ExpJson>,
}

/// A struct with the texts of its fields and its attributes.
#[derive(Debug, PartialEq, Eq)]
pub struct StructJson {
    pub name: String,
    pub fields: Vec<String>,
    pub attrs: Vec<AttrJson>,
}

/// A module with its structs and functions in declaration order.
#[derive(Debug, PartialEq, Eq)]
pub struct ModuleJson {
    pub name: String,
    pub structs: Vec<StructJson>,
    pub functions: Vec<FunJson>,
    pub attrs: Vec<AttrJson>,
}

/// The whole listing: the modules in declaration order.
#[derive(Debug, PartialEq, Eq)]
pub struct PackageJson {
    pub modules: Vec<ModuleJson>,
}

pub ghost struct AttrRecord {
    pub name: Seq<char>,
    pub value: Seq<char>,
}

pub ghost struct FunRecord {
    pub name: Seq<char>,
    pub params: Seq<Seq<char>>,
    pub ret: Seq<char>,
    pub attrs: Seq<AttrRecord>,
    pub body: Option<ExpNode>,
}

pub ghost struct StructRecord {
    pub name: Seq<char>,
    pub fields: Seq<Seq<char>>,
    pub attrs: Seq<AttrRecord>,
}

pub ghost struct ModuleRecord {
    pub name: Seq<char>,
    pub structs: Seq<StructRecord>,
    pub functions: Seq<FunRecord>,
    pub attrs: Seq<AttrRecord>,
}

pub ghost struct PackageRecord {
    pub modules: Seq<ModuleRecord>,
}

impl View for AttrJson {
    type V = AttrRecord;

    open spec fn view(&self) -> AttrRecord {
        AttrRecord { name: self.name@, value: self.value@ }
    }
}

impl View for FunJson {
    type V = FunRecord;

    open spec fn view(&self) -> FunRecord {
        FunRecord {
            name: self.name@,
            params: each_view(self.params@),
            ret: self.ret@,
            attrs: each_view(self.attrs@),
            body: opt_view(self.body),
        }
    }
}

impl View for StructJson {
    type V = StructRecord;

    open spec fn view(&self) -> StructRecord {
        StructRecord {
            name: self.name@,
            fields: each_view(self.fields@),
            attrs: each_view(self.attrs@),
        }
    }
}

impl View for ModuleJson {
    type V = ModuleRecord;

    open spec fn view(&self) -> ModuleRecord {
        ModuleRecord {
            name: self.name@,
            structs: each_view(self.structs@),
            functions: each_view(self.functions@),
            attrs: each_view(self.attrs@),
        }
    }
}

impl View for PackageJson {
    type V = PackageRecord;

    open spec fn view(&self) -> PackageRecord {
        PackageRecord { modules: each_view(self.modules@) }
    }
}

/// The record of one attribute: its resolved name and its description.
pub open spec fn attr_record(a: Attribute, pool: SymbolPool) -> AttrRecord {
    AttrRecord { name: pool.name_of(a.name), value: a.description@ }
}

/// The records of `attrs`, in order.
pub open spec fn attr_records(attrs: Seq<Attribute>, pool: SymbolPool) -> Seq<AttrRecord> {
    Seq::new(attrs.len(), |i: int| attr_record(attrs[i], pool))
}

/// A field or a parameter as `name: type`.
pub open spec fn declaration_text(name: Symbol, ty: Type, ctx: TypeDisplayContext) -> Seq<char> {
    ctx.pool.name_of(name) + ": "@ + ty.text(ctx)
}

/// The record of a struct.
pub open spec fn struct_record(s: StructEnv, env: GlobalEnv) -> StructRecord {
    StructRecord {
        name: env.symbol_pool.name_of(s.name),
        fields: Seq::new(
            s.fields@.len(),
            |i: int| declaration_text(s.fields@[i].name, s.fields@[i].ty, s.type_display_ctx(env)),
        ),
        attrs: attr_records(s.attributes@, env.symbol_pool),
    }
}

/// The record of a function.
pub open spec fn fun_record(f: FunctionEnv, env: GlobalEnv) -> FunRecord {
    FunRecord {
        name: env.symbol_pool.name_of(f.name),
        params: Seq::new(
            f.parameters@.len(),
            |i: int|
                declaration_text(f.parameters@[i].name, f.parameters@[i].ty, f.type_display_ctx(env)),
        ),
        ret: f.result_type.text(f.type_display_ctx(env)),
        attrs: attr_records(f.attributes@, env.symbol_pool),
        body: match f.def {
            Some(body) => Some(exp_node(body, env.symbol_pool)),
            None => None,
        },
    }
}

/// The record of a module: its full name, and its structs, functions and
/// attributes in declaration order.
pub open spec fn module_record(m: ModuleEnv, env: GlobalEnv) -> ModuleRecord {
    ModuleRecord {
        name: m.name.full_text(env.symbol_pool),
        structs: Seq::new(m.structs@.len(), |i: int| struct_record(m.structs@[i], env)),
        functions: Seq::new(m.functions@.len(), |i: int| fun_record(m.functions@[i], env)),
        attrs: attr_records(m.attributes@, env.symbol_pool),
    }
}

/// The record of everything that was compiled.
pub open spec fn package_record(env: GlobalEnv) -> PackageRecord {
    PackageRecord {
        modules: Seq::new(env.modules@.len(), |i: int| module_record(env.modules@[i], env)),
    }
}

/// Writes out attributes, in order: each with its resolved name and the
/// compiler's description of its content.
pub fn attrs_to_json(attrs: &[Attribute], env: &GlobalEnv) -> (out: Vec<AttrJson>)
    ensures
        each_view(out@) == attr_records(attrs@, env.symbol_pool),
{
    let mut out: Vec<AttrJson> = Vec::new();
    let mut i: usize = 0;
    while i < attrs.len()
        invariant
            i <= attrs.len(),
            out@.len() == i,
            forall|j: int|
                0 <= j < i ==> (#[trigger] out@[j])@ == attr_record(attrs@[j], env.symbol_pool),
        decreases attrs.len() - i,
    {
        let a = &attrs[i];
        out.push(AttrJson { name: env.symbol_pool.string(a.name), value: a.description.clone() });
        i += 1;
    }
    assert(each_view(out@) =~= attr_records(attrs@, env.symbol_pool));
    out
}

fn declaration_to_string(name: Symbol, ty: &Type, ctx: &TypeDisplayContext) -> (text: String)
    ensures
        text@ == declaration_text(name, *ty, *ctx),
{
    let mut text = ctx.pool.string(name);
    text.append(": ");
    let ty_text = ty.display(ctx);
    text.append(ty_text.as_str());
    text
}

/// Writes out a struct: its name, its fields as `name: type` in
/// declaration order, and its attributes.
pub fn struct_to_json(s: &StructEnv, env: &GlobalEnv) -> (out: StructJson)
    ensures
        out@ == struct_record(*s, *env),
{
    let tctx = s.get_type_display_ctx(env);
    let mut fields: Vec<String> = Vec::new();
    let mut i: usize = 0;
    while i < s.fields.len()
        invariant
            i <= s.fields.len(),
            tctx == s.type_display_ctx(*env),
            fields@.len() == i,
            forall|j: int|
                0 <= j < i ==> (#[trigger] fields@[j])@ == declaration_text(
                    s.fields@[j].name,
                    s.fields@[j].ty,
                    tctx,
                ),
        decreases s.fields.len() - i,
    {
        let f = &s.fields[i];
        fields.push(declaration_to_string(f.name, &f.ty, &tctx));
        i += 1;
    }
    let out = StructJson {
        name: env.symbol_pool.string(s.name),
        fields,
        attrs: attrs_to_json(s.attributes.as_slice(), env),
    };
    assert(out@.fields =~= struct_record(*s, *env).fields);
    out
}

/// Writes out a function: its name, its parameters as `name: type` in
/// declaration order, its result type, its attributes and, where it has
/// one, its body.
pub fn function_to_json(f: &FunctionEnv, env: &GlobalEnv) -> (out: FunJson)
    ensures
        out@ == fun_record(*f, *env),
{
    let tctx = f.get_type_display_ctx(env);
    let mut params: Vec<String> = Vec::new();
    let mut i: usize = 0;
    while i < f.parameters.len()
        invariant
            i <= f.parameters.len(),
            tctx == f.type_display_ctx(*env),
            params@.len() == i,
            forall|j: int|
                0 <= j < i ==> (#[trigger] params@[j])@ == declaration_text(
                    f.parameters@[j].name,
                    f.parameters@[j].ty,
                    tctx,
                ),
        decreases f.parameters.len() - i,
    {
        let p = &f.parameters[i];
        params.push(declaration_to_string(p.name, &p.ty, &tctx));
        i += 1;
    }
    let body = match &f.def {
        Some(d) => Some(exp_to_json(d, env)),
        None => None,
    };
    let out = FunJson {
        name: env.symbol_pool.string(f.name),
        params,
        ret: f.result_type.display(&tctx),
        attrs: attrs_to_json(f.attributes.as_slice(), env),
        body,
    };
    assert(out@.params =~= fun_record(*f, *env).params);
    out
}

/// Writes out a module: its full name, then one entry per struct and one
/// per function, in declaration order, and its attributes.
pub fn module_to_json(m: &ModuleEnv, env: &GlobalEnv) -> (out: ModuleJson)
    ensures
        out@ == module_record(*m, *env),
        out@.structs.len() == m.structs@.len(),
        out@.functions.len() == m.functions@.len(),
{
    let mut structs: Vec<StructJson> = Vec::new();
    let mut i: usize = 0;
    while i < m.structs.len()
        invariant
            i <= m.structs.len(),
            structs@.len() == i,
            forall|j: int|
                0 <= j < i ==> (#[trigger] structs@[j])@ == struct_record(m.structs@[j], *env),
        decreases m.structs.len() - i,
    {
        structs.push(struct_to_json(&m.structs[i], env));
        i += 1;
    }
    let mut functions: Vec<FunJson> = Vec::new();
    let mut k: usize = 0;
    while k < m.functions.len()
        invariant
            k <= m.functions.len(),
            functions@.len() == k,
            forall|j: int|
                0 <= j < k ==> (#[trigger] functions@[j])@ == fun_record(m.functions@[j], *env),
        decreases m.functions.len() - k,
    {
        functions.push(function_to_json(&m.functions[k], env));
        k += 1;
    }
    let out = ModuleJson {
        name: m.name.display_full(&env.symbol_pool),
        structs,
        functions,
        attrs: attrs_to_json(m.attributes.as_slice(), env),
    };
    assert(out@.structs =~= module_record(*m, *env).structs);
    assert(out@.functions =~= module_record(*m, *env).functions);
    out
}

/// Writes out every module, in declaration order.
pub fn package_to_json(env: &GlobalEnv) -> (out: PackageJson)
    ensures
        out@ == package_record(*env),
        out@.modules.len() == env.modules@.len(),
{
    let mut modules: Vec<ModuleJson> = Vec::new();
    let mut i: usize = 0;
    while i < env.modules.len()
        invariant
            i <= env.modules.len(),
            modules@.len() == i,
            forall|j: int|
                0 <= j < i ==> (#[trigger] modules@[j])@ == module_record(env.modules@[j], *env),
        decreases env.modules.len() - i,
    {
        modules.push(module_to_json(&env.modules[i], env));
        i += 1;
    }
    let out = PackageJson { modules };
    assert(out@.modules =~= package_record(*env).modules);
    out
}

/// A module is written with as many structs and functions as it declares,
/// each at the position of its declaration.
pub proof fn lemma_declarations_in_order(m: ModuleEnv, env: GlobalEnv)
    ensures
        module_record(m, env).structs.len() == m.structs@.len(),
        module_record(m, env).functions.len() == m.functions@.len(),
        forall|i: int|
            0 <= i < m.structs@.len() ==> #[trigger] module_record(m, env).structs[i]
                == struct_record(m.structs@[i], env),
        forall|i: int|
            0 <= i < m.functions@.len() ==> #[trigger] module_record(m, env).functions[i]
                == fun_record(m.functions@[i], env),
{
}

} // verus!
