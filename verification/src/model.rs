//! The compiled modules of one run, as plain data.

use crate::ast::{Attribute, Exp};
use crate::symbol::{Symbol, SymbolPool};
use crate::tags::{Ability, FunctionKind, Visibility};
use crate::ty::{ModuleName, Type, TypeDisplayContext, TypeParameter};
use vstd::prelude::*;

verus! {

/// A field of a struct.
#[derive(Debug)]
pub struct FieldEnv {
    pub name: Symbol,
    pub ty: Type,
    /// The position of the field in the layout of its struct.
    pub offset: usize,
    /// The variant the field belongs to, in a struct with variants.
    pub variant: Option<Symbol>,
}

/// A struct declaration.
#[derive(Debug)]
pub struct StructEnv {
    pub name: Symbol,
    pub abilities: Vec<Ability>,
    pub type_parameters: Vec<TypeParameter>,
    pub fields: Vec<FieldEnv>,
    pub is_native: bool,
    pub is_ghost_memory: bool,
    pub attributes: Vec<Attribute>,
}

/// A parameter of a function.
#[derive(Debug)]
pub struct Parameter {
    pub name: Symbol,
    pub ty: Type,
}

/// A function declaration.
#[derive(Debug)]
pub struct FunctionEnv {
    pub name: Symbol,
    pub visibility: Visibility,
    pub kind: FunctionKind,
    pub type_parameters: Vec<TypeParameter>,
    pub parameters: Vec<Parameter>,
    pub result_type: Type,
    pub is_native: bool,
    pub is_intrinsic: bool,
    pub is_entry: bool,
    pub attributes: Vec<Attribute>,
    /// The body; native and intrinsic functions have none.
    pub def: Option<Exp>,
}

/// A module with its declarations, in source order.
#[derive(Debug)]
pub struct ModuleEnv {
    pub name: ModuleName,
    pub is_script: bool,
    pub structs: Vec<StructEnv>,
    pub functions: Vec<FunctionEnv>,
    pub attributes: Vec<Attribute>,
}

/// Everything one compilation produced.
#[derive(Debug)]
pub struct GlobalEnv {
    pub symbol_pool: SymbolPool,
    /// The modules, in declaration order.
    pub modules: Vec<ModuleEnv>,
    /// Whether the compiler reported an error.
    pub errors_reported: bool,
}

impl StructEnv {
    /// The scope in which the types of this struct's fields are written.
    pub fn get_type_display_ctx<'a>(&'a self, env: &'a GlobalEnv) -> (ctx: TypeDisplayContext<'a>)
        ensures
            ctx == self.type_display_ctx(*env),
    {
        TypeDisplayContext { pool: &env.symbol_pool, type_params: &self.type_parameters }
    }

    pub open spec fn type_display_ctx(self, env: GlobalEnv) -> TypeDisplayContext<'static> {
        TypeDisplayContext { pool: &env.symbol_pool, type_params: &self.type_parameters }
    }

    /// No two fields share an offset.
    pub open spec fn offsets_unique(self) -> bool {
        forall|i: int, j: int|
            0 <= i < j < self.fields@.len() ==> self.fields@[i].offset != self.fields@[j].offset
    }

    /// No field lies at a lower offset than a field declared before it.
    pub open spec fn offsets_ordered(self) -> bool {
        forall|i: int, j: int|
            0 <= i < j < self.fields@.len() ==> self.fields@[i].offset <= self.fields@[j].offset
    }
}

impl FunctionEnv {
    /// The scope in which the types of this function's signature are written.
    pub fn get_type_display_ctx<'a>(&'a self, env: &'a GlobalEnv) -> (ctx: TypeDisplayContext<'a>)
        ensures
            ctx == self.type_display_ctx(*env),
    {
        TypeDisplayContext { pool: &env.symbol_pool, type_params: &self.type_parameters }
    }

    pub open spec fn type_display_ctx(self, env: GlobalEnv) -> TypeDisplayContext<'static> {
        TypeDisplayContext { pool: &env.symbol_pool, type_params: &self.type_parameters }
    }
}

impl ModuleEnv {
    /// The number of structs the module declares.
    pub fn get_struct_count(&self) -> (n: usize)
        ensures
            n == self.structs@.len(),
    {
        self.structs.len()
    }

    /// The number of functions the module declares.
    pub fn get_function_count(&self) -> (n: usize)
        ensures
            n == self.functions@.len(),
    {
        self.functions.len()
    }
}

impl GlobalEnv {
    /// Whether the compiler reported an error.
    pub fn has_errors(&self) -> (b: bool)
        ensures
            b == self.errors_reported,
    {
        self.errors_reported
    }

    /// The number of modules.
    pub fn get_module_count(&self) -> (n: usize)
        ensures
            n == self.modules@.len(),
    {
        self.modules.len()
    }
}

} // verus!
