//! The short listing: module names and the number of declarations.

use crate::model::{GlobalEnv, ModuleEnv};
use crate::symbol::SymbolPool;
use crate::views::each_view;
use vstd::prelude::*;

verus! {

/// How many structs and functions the modules declare together.
#[derive(Debug, PartialEq, Eq)]
pub struct Stats {
    pub structs: usize,
    pub functions: usize,
}

/// The names of the modules, in declaration order, and the totals.
#[derive(Debug, PartialEq, Eq)]
pub struct PackageSummary {
    pub modules: Vec<String>,
    pub stats: Stats,
}

pub ghost struct SummaryRecord {
    pub modules: Seq<Seq<char>>,
    pub structs: nat,
    pub functions: nat,
}

impl View for PackageSummary {
    type V = SummaryRecord;

    open spec fn view(&self) -> SummaryRecord {
        SummaryRecord {
            modules: each_view(self.modules@),
            structs: self.stats.structs as nat,
            functions: self.stats.functions as nat,
        }
    }
}

/// The number of structs that `modules` declare together.
pub open spec fn struct_total(modules: Seq<ModuleEnv>) -> nat
    decreases modules.len(),
{
    if modules.len() == 0 {
        0
    } else {
        struct_total(modules.drop_last()) + modules.last().structs@.len()
    }
}

/// The number of functions that `modules` declare together.
pub open spec fn function_total(modules: Seq<ModuleEnv>) -> nat
    decreases modules.len(),
{
    if modules.len() == 0 {
        0
    } else {
        function_total(modules.drop_last()) + modules.last().functions@.len()
    }
}

/// The names of `modules`, without their addresses, in order.
pub open spec fn module_names(modules: Seq<ModuleEnv>, pool: SymbolPool) -> Seq<Seq<char>> {
    Seq::new(modules.len(), |i: int| pool.name_of(modules[i].name.name))
}

/// The summary of everything that was compiled.
pub open spec fn summary_record(env: GlobalEnv) -> SummaryRecord {
    SummaryRecord {
        modules: module_names(env.modules@, env.symbol_pool),
        structs: struct_total(env.modules@),
        functions: function_total(env.modules@),
    }
}

/// Both totals can be held in a `usize`.
pub open spec fn totals_fit(env: GlobalEnv) -> bool {
    struct_total(env.modules@) <= usize::MAX && function_total(env.modules@) <= usize::MAX
}

proof fn lemma_totals_grow(modules: Seq<ModuleEnv>, n: int)
    requires
        0 <= n <= modules.len(),
    ensures
        struct_total(modules.take(n)) <= struct_total(modules),
        function_total(modules.take(n)) <= function_total(modules),
    decreases modules.len() - n,
{
    if n == modules.len() {
        assert(modules.take(n) =~= modules);
    } else {
        lemma_totals_grow(modules, n + 1);
        assert(modules.take(n + 1).drop_last() =~= modules.take(n));
    }
}

/// Whether both totals can be held in a `usize`.
pub fn totals_fit_in_usize(env: &GlobalEnv) -> (fit: bool)
    ensures
        fit == totals_fit(*env),
{
    let mut structs: usize = 0;
    let mut functions: usize = 0;
    let mut i: usize = 0;
    assert(env.modules@.take(0) =~= Seq::<ModuleEnv>::empty());
    while i < env.modules.len()
        invariant
            i <= env.modules.len(),
            structs == struct_total(env.modules@.take(i as int)),
            functions == function_total(env.modules@.take(i as int)),
        decreases env.modules.len() - i,
    {
        let m = &env.modules[i];
        proof {
            assert(env.modules@.take(i + 1).drop_last() =~= env.modules@.take(i as int));
            lemma_totals_grow(env.modules@, i + 1);
        }
        match (structs.checked_add(m.get_struct_count()), functions.checked_add(m.get_function_count())) {
            (Some(s), Some(f)) => {
                structs = s;
                functions = f;
            },
            _ => {
                return false;
            },
        }
        i += 1;
    }
    assert(env.modules@.take(env.modules@.len() as int) =~= env.modules@);
    true
}

fn module_names_to_json(env: &GlobalEnv) -> (out: Vec<String>)
    ensures
        each_view(out@) == module_names(env.modules@, env.symbol_pool),
{
    let mut out: Vec<String> = Vec::new();
    let mut i: usize = 0;
    while i < env.modules.len()
        invariant
            i <= env.modules.len(),
            out@.len() == i,
            forall|j: int|
                0 <= j < i ==> (#[trigger] out@[j])@ == env.symbol_pool.name_of(
                    env.modules@[j].name.name,
                ),
        decreases env.modules.len() - i,
    {
        out.push(env.symbol_pool.string(env.modules[i].name.name));
        i += 1;
    }
    assert(each_view(out@) =~= module_names(env.modules@, env.symbol_pool));
    out
}

/// Lists the module names, in declaration order, and counts the structs
/// and the functions of all modules together.
pub fn summarize(env: &GlobalEnv) -> (out: PackageSummary)
    requires
        totals_fit(*env),
    ensures
        out@ == summary_record(*env),
{
    let mut structs: usize = 0;
    let mut functions: usize = 0;
    let mut i: usize = 0;
    assert(env.modules@.take(0) =~= Seq::<ModuleEnv>::empty());
    while i < env.modules.len()
        invariant
            i <= env.modules.len(),
            totals_fit(*env),
            structs == struct_total(env.modules@.take(i as int)),
            functions == function_total(env.modules@.take(i as int)),
        decreases env.modules.len() - i,
    {
        let m = &env.modules[i];
        proof {
            assert(env.modules@.take(i + 1).drop_last() =~= env.modules@.take(i as int));
            lemma_totals_grow(env.modules@, i + 1);
        }
        structs = structs + m.get_struct_count();
        functions = functions + m.get_function_count();
        i += 1;
    }
    assert(env.modules@.take(env.modules@.len() as int) =~= env.modules@);
    PackageSummary { modules: module_names_to_json(env), stats: Stats { structs, functions } }
}

/// [`summarize`] for any input: `None` where a total does not fit in a `usize`.
pub fn try_summarize(env: &GlobalEnv) -> (out: Option<PackageSummary>)
    ensures
        out is Some <==> totals_fit(*env),
        out matches Some(summary) ==> summary@ == summary_record(*env),
{
    if totals_fit_in_usize(env) {
        Some(summarize(env))
    } else {
        None
    }
}

} // verus!
