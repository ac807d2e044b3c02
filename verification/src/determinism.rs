//! A listing is a function of what was compiled: the declarations and the
//! texts of the interned names, and nothing else.

use crate::annotated;
use crate::ast::Exp;
use crate::basic_full;
use crate::expression::{exp_node, exp_nodes};
use crate::model::{FunctionEnv, GlobalEnv, ModuleEnv, StructEnv};
use crate::summary;
use crate::symbol::SymbolPool;
use crate::ty::{Type, TypeDisplayContext};
use vstd::prelude::*;

verus! {

/// Two environments hold the same: the same modules, and pools with the
/// same texts at the same positions.
pub open spec fn same_content(a: GlobalEnv, b: GlobalEnv) -> bool {
    a.symbol_pool@ == b.symbol_pool@ && a.modules == b.modules
}

/// Two scopes write types alike: pools with the same texts, and the same
/// type parameters.
pub open spec fn same_scope(a: TypeDisplayContext, b: TypeDisplayContext) -> bool {
    a.pool@ == b.pool@ && a.type_params@ == b.type_params@
}

/// A type is written alike in two scopes that write types alike.
pub proof fn lemma_type_text_by_scope(ty: Type, a: TypeDisplayContext, b: TypeDisplayContext)
    requires
        same_scope(a, b),
    ensures
        ty.text(a) == ty.text(b),
    decreases ty,
{
    match ty {
        Type::Primitive(_) => {},
        Type::TypeParameter(_) => {},
        Type::Vector(elem) => {
            lemma_type_text_by_scope(*elem, a, b);
        },
        Type::Reference { mutable, target } => {
            lemma_type_text_by_scope(*target, a, b);
        },
        Type::Struct { module, name, type_args } => {
            assert forall|i: int| 0 <= i < type_args.len() implies type_args[i].text(a)
                == type_args[i].text(b) by {
                lemma_type_text_by_scope(type_args[i], a, b);
            }
            assert(Type::element_texts(type_args, a) =~= Type::element_texts(type_args, b));
        },
        Type::Tuple(elems) => {
            assert forall|i: int| 0 <= i < elems.len() implies elems[i].text(a) == elems[i].text(
                b,
            ) by {
                lemma_type_text_by_scope(elems[i], a, b);
            }
            assert(Type::element_texts(elems, a) =~= Type::element_texts(elems, b));
        },
        Type::Other { text } => {},
    }
}

/// An expression is written alike with two pools of the same texts.
pub proof fn lemma_exp_node_by_texts(e: Exp, a: SymbolPool, b: SymbolPool)
    requires
        a@ == b@,
    ensures
        exp_node(e, a) == exp_node(e, b),
    decreases e,
{
    match e {
        Exp::Value { text } => {},
        Exp::LocalVar { name } => {},
        Exp::Call { operation, args } => {
            assert forall|i: int| 0 <= i < args.len() implies exp_node(args[i], a) == exp_node(
                args[i],
                b,
            ) by {
                lemma_exp_node_by_texts(args[i], a, b);
            }
            assert(exp_nodes(args, a) =~= exp_nodes(args, b));
        },
        Exp::Block { body } => {
            lemma_exp_node_by_texts(*body, a, b);
        },
        Exp::Loop { body } => {
            lemma_exp_node_by_texts(*body, a, b);
        },
        Exp::Assign { rhs } => {
            lemma_exp_node_by_texts(*rhs, a, b);
        },
        Exp::Return { value } => {
            lemma_exp_node_by_texts(*value, a, b);
        },
        Exp::IfElse { cond, then_branch, else_branch } => {
            lemma_exp_node_by_texts(*cond, a, b);
            lemma_exp_node_by_texts(*then_branch, a, b);
            lemma_exp_node_by_texts(*else_branch, a, b);
        },
        Exp::Other { description } => {},
    }
}

proof fn lemma_struct_records(s: StructEnv, a: GlobalEnv, b: GlobalEnv)
    requires
        same_content(a, b),
    ensures
        annotated::struct_record(s, a) == annotated::struct_record(s, b),
        basic_full::struct_record(s, a) == basic_full::struct_record(s, b),
{
    let ca = s.type_display_ctx(a);
    let cb = s.type_display_ctx(b);
    assert forall|i: int| 0 <= i < s.fields@.len() implies s.fields@[i].ty.text(ca)
        == s.fields@[i].ty.text(cb) by {
        lemma_type_text_by_scope(s.fields@[i].ty, ca, cb);
    }
    assert(annotated::struct_record(s, a).fields =~= annotated::struct_record(s, b).fields);
    assert(annotated::struct_record(s, a).attrs =~= annotated::struct_record(s, b).attrs);
    assert(basic_full::struct_record(s, a).fields =~= basic_full::struct_record(s, b).fields);
    assert(basic_full::struct_record(s, a).type_params =~= basic_full::struct_record(
        s,
        b,
    ).type_params);
}

proof fn lemma_function_records(f: FunctionEnv, a: GlobalEnv, b: GlobalEnv)
    requires
        same_content(a, b),
    ensures
        annotated::fun_record(f, a) == annotated::fun_record(f, b),
        basic_full::function_record(f, a) == basic_full::function_record(f, b),
{
    let ca = f.type_display_ctx(a);
    let cb = f.type_display_ctx(b);
    assert forall|i: int| 0 <= i < f.parameters@.len() implies f.parameters@[i].ty.text(ca)
        == f.parameters@[i].ty.text(cb) by {
        lemma_type_text_by_scope(f.parameters@[i].ty, ca, cb);
    }
    lemma_type_text_by_scope(f.result_type, ca, cb);
    let flat = f.result_type.flattened();
    assert forall|i: int| 0 <= i < flat.len() implies flat[i].text(ca) == flat[i].text(cb) by {
        lemma_type_text_by_scope(flat[i], ca, cb);
    }
    if let Some(body) = f.def {
        lemma_exp_node_by_texts(body, a.symbol_pool, b.symbol_pool);
    }
    assert(annotated::fun_record(f, a).params =~= annotated::fun_record(f, b).params);
    assert(annotated::fun_record(f, a).attrs =~= annotated::fun_record(f, b).attrs);
    assert(basic_full::function_record(f, a).parameters =~= basic_full::function_record(
        f,
        b,
    ).parameters);
    assert(basic_full::function_record(f, a).results =~= basic_full::function_record(
        f,
        b,
    ).results);
    assert(basic_full::function_record(f, a).type_params =~= basic_full::function_record(
        f,
        b,
    ).type_params);
}

proof fn lemma_module_records(m: ModuleEnv, a: GlobalEnv, b: GlobalEnv)
    requires
        same_content(a, b),
    ensures
        annotated::module_record(m, a) == annotated::module_record(m, b),
        basic_full::module_record(m, a) == basic_full::module_record(m, b),
{
    assert forall|i: int| 0 <= i < m.structs@.len() implies annotated::struct_record(
        m.structs@[i],
        a,
    ) == annotated::struct_record(m.structs@[i], b) && basic_full::struct_record(m.structs@[i], a)
        == basic_full::struct_record(m.structs@[i], b) by {
        lemma_struct_records(m.structs@[i], a, b);
    }
    assert forall|i: int| 0 <= i < m.functions@.len() implies annotated::fun_record(
        m.functions@[i],
        a,
    ) == annotated::fun_record(m.functions@[i], b) && basic_full::function_record(
        m.functions@[i],
        a,
    ) == basic_full::function_record(m.functions@[i], b) by {
        lemma_function_records(m.functions@[i], a, b);
    }
    assert(annotated::module_record(m, a).structs =~= annotated::module_record(m, b).structs);
    assert(annotated::module_record(m, a).functions =~= annotated::module_record(m, b).functions);
    assert(annotated::module_record(m, a).attrs =~= annotated::module_record(m, b).attrs);
    assert(basic_full::module_record(m, a).structs =~= basic_full::module_record(m, b).structs);
    assert(basic_full::module_record(m, a).functions =~= basic_full::module_record(
        m,
        b,
    ).functions);
}

/// Two environments that hold the same are written as the same listing,
/// in each of the three shapes. Neither the error indicator nor anything
/// else about the pools than their texts has a part in it.
pub proof fn lemma_listing_is_determined(a: GlobalEnv, b: GlobalEnv)
    requires
        same_content(a, b),
    ensures
        annotated::package_record(a) == annotated::package_record(b),
        basic_full::ast_record(a) == basic_full::ast_record(b),
        summary::summary_record(a) == summary::summary_record(b),
{
    assert forall|i: int| 0 <= i < a.modules@.len() implies annotated::module_record(
        a.modules@[i],
        a,
    ) == annotated::module_record(b.modules@[i], b) && basic_full::module_record(a.modules@[i], a)
        == basic_full::module_record(b.modules@[i], b) by {
        lemma_module_records(a.modules@[i], a, b);
    }
    assert(annotated::package_record(a).modules =~= annotated::package_record(b).modules);
    assert(basic_full::ast_record(a).modules =~= basic_full::ast_record(b).modules);
    assert(summary::summary_record(a).modules =~= summary::summary_record(b).modules);
}

} // verus!
