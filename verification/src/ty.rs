//! Types of fields, parameters and results, and how they are written.

use crate::symbol::{Symbol, SymbolPool};
use crate::text::{append_part, decimal, decimal_string, join};
use vstd::prelude::*;

verus! {

/// The name of a module: the address it is published at, already written
/// out, and its interned name.
#[derive(Debug)]
pub struct ModuleName {
    pub address: String,
    pub name: Symbol,
}

impl ModuleName {
    /// The module's name with its address in front: `0x1::coin`.
    pub open spec fn full_text(self, pool: SymbolPool) -> Seq<char> {
        self.address@ + "::"@ + pool.name_of(self.name)
    }

    /// Writes the module's name with its address in front.
    pub fn display_full(&self, pool: &SymbolPool) -> (text: String)
        ensures
            text@ == self.full_text(*pool),
    {
        let mut text = self.address.clone();
        text.append("::");
        let name = pool.string(self.name);
        text.append(name.as_str());
        text
    }
}

/// A type parameter of a struct or a function.
#[derive(Debug)]
pub struct TypeParameter {
    pub name: Symbol,
}

/// A built-in type.
#[derive(Clone, Copy, Debug, PartialEq, Eq, Structural)]
pub enum PrimitiveType {
    Bool,
    U8,
    U16,
    U32,
    U64,
    U128,
    U256,
    Address,
    Signer,
}

impl PrimitiveType {
    /// The keyword a built-in type is written as.
    pub open spec fn tag(self) -> Seq<char> {
        match self {
            PrimitiveType::Bool => "bool"@,
            PrimitiveType::U8 => "u8"@,
            PrimitiveType::U16 => "u16"@,
            PrimitiveType::U32 => "u32"@,
            PrimitiveType::U64 => "u64"@,
            PrimitiveType::U128 => "u128"@,
            PrimitiveType::U256 => "u256"@,
            PrimitiveType::Address => "address"@,
            PrimitiveType::Signer => "signer"@,
        }
    }

    pub fn name(self) -> (text: &'static str)
        ensures
            text@ == self.tag(),
    {
        match self {
            PrimitiveType::Bool => "bool",
            PrimitiveType::U8 => "u8",
            PrimitiveType::U16 => "u16",
            PrimitiveType::U32 => "u32",
            PrimitiveType::U64 => "u64",
            PrimitiveType::U128 => "u128",
            PrimitiveType::U256 => "u256",
            PrimitiveType::Address => "address",
            PrimitiveType::Signer => "signer",
        }
    }
}

/// A type as the compiler resolved it.
#[derive(Debug)]
pub enum Type {
    Primitive(PrimitiveType),
    /// The parameter at this position of the enclosing declaration.
    TypeParameter(u16),
    Vector(Box<Type>),
    Reference { mutable: bool, target: Box<Type> },
    Struct { module: ModuleName, name: Symbol, type_args: Vec<Type> },
    Tuple(Vec<Type>),
    /// Any other type, as the compiler wrote it.
    Other { text: String },
}

/// What is needed to write the types of one declaration: the pool that
/// resolves names, and the declaration's own type parameters.
pub struct TypeDisplayContext<'a> {
    pub pool: &'a SymbolPool,
    pub type_params: &'a Vec<TypeParameter>,
}

impl<'a> TypeDisplayContext<'a> {
    /// How the type parameter at position `idx` is written: by its name where
    /// the declaration has one at that position, as `#` and the position otherwise.
    pub open spec fn type_parameter_text(self, idx: u16) -> Seq<char> {
        if idx < self.type_params@.len() {
            self.pool.name_of(self.type_params@[idx as int].name)
        } else {
            "#"@ + decimal(idx as nat)
        }
    }

    /// Writes the type parameter at position `idx`.
    pub fn type_parameter_name(&self, idx: u16) -> (text: String)
        ensures
            text@ == self.type_parameter_text(idx),
    {
        let at: usize = idx as usize;
        if at < self.type_params.len() {
            self.pool.string(self.type_params[at].name)
        } else {
            let mut text = "#".to_string();
            let digits = decimal_string(at);
            text.append(digits.as_str());
            text
        }
    }
}

impl Type {
    /// The canonical text of a type in the scope of `ctx`.
    pub open spec fn text(self, ctx: TypeDisplayContext) -> Seq<char>
        decreases self,
    {
        match self {
            Type::Primitive(p) => p.tag(),
            Type::TypeParameter(idx) => ctx.type_parameter_text(idx),
            Type::Vector(elem) => "vector<"@ + elem.text(ctx) + ">"@,
            Type::Reference { mutable, target } => (if mutable {
                "&mut "@
            } else {
                "&"@
            }) + target.text(ctx),
            Type::Struct { module, name, type_args } => {
                let head = module.full_text(*ctx.pool) + "::"@ + ctx.pool.name_of(name);
                if type_args.len() == 0 {
                    head
                } else {
                    head + "<"@ + join(
                        Self::element_texts(type_args, ctx),
                        ", "@,
                    ) + ">"@
                }
            },
            Type::Tuple(elems) => "("@ + join(
                Self::element_texts(elems, ctx),
                ", "@,
            ) + ")"@,
            Type::Other { text } => text@,
        }
    }

    /// The texts of the members of a tuple or of the arguments of a struct
    /// type, in order.
    pub open spec fn element_texts(types: Vec<Type>, ctx: TypeDisplayContext) -> Seq<Seq<char>>
        decreases types,
    {
        Seq::new(
            types.len() as nat,
            |i: int|
                if 0 <= i < types.len() {
                    types[i].text(ctx)
                } else {
                    arbitrary()
                },
        )
    }

    /// The texts of `types`, in order.
    pub open spec fn texts(types: Seq<Type>, ctx: TypeDisplayContext) -> Seq<Seq<char>> {
        Seq::new(types.len(), |i: int| types[i].text(ctx))
    }

    /// The types a result type stands for: the members of a tuple, or the
    /// type alone.
    pub open spec fn flattened(self) -> Seq<Type> {
        match self {
            Type::Tuple(elems) => elems@,
            _ => seq![self],
        }
    }

    /// Writes the type in the scope of `ctx`.
    pub fn display(&self, ctx: &TypeDisplayContext) -> (out: String)
        ensures
            out@ == self.text(*ctx),
        decreases self, 1nat,
    {
        match self {
            Type::Primitive(p) => p.name().to_string(),
            Type::TypeParameter(idx) => ctx.type_parameter_name(*idx),
            Type::Vector(elem) => {
                let mut out = "vector<".to_string();
                let inner = elem.display(ctx);
                out.append(inner.as_str());
                out.append(">");
                assert(out@ =~= self.text(*ctx));
                out
            },
            Type::Reference { mutable, target } => {
                let mut out = if *mutable {
                    "&mut ".to_string()
                } else {
                    "&".to_string()
                };
                let inner = target.display(ctx);
                out.append(inner.as_str());
                assert(out@ =~= self.text(*ctx));
                out
            },
            Type::Struct { module, name, type_args } => {
                let mut out = module.display_full(ctx.pool);
                out.append("::");
                let own = ctx.pool.string(*name);
                out.append(own.as_str());
                if type_args.len() > 0 {
                    out.append("<");
                    assert(self->type_args == *type_args);
                    assert(decreases_to!(*self => self->type_args));
                    let list = Self::display_list(type_args, ctx, Ghost(*self));
                    out.append(list.as_str());
                    out.append(">");
                }
                assert(out@ =~= self.text(*ctx));
                out
            },
            Type::Tuple(elems) => {
                let mut out = "(".to_string();
                assert(self->Tuple_0 == *elems);
                assert(decreases_to!(*self => self->Tuple_0));
                let list = Self::display_list(elems, ctx, Ghost(*self));
                out.append(list.as_str());
                out.append(")");
                assert(out@ =~= self.text(*ctx));
                out
            },
            Type::Other { text } => text.clone(),
        }
    }

    fn display_list(types: &Vec<Type>, ctx: &TypeDisplayContext, Ghost(parent): Ghost<Type>) -> (out: String)
        requires
            decreases_to!(parent => *types),
        ensures
            out@ == join(Self::element_texts(*types, *ctx), ", "@),
        decreases parent, 0nat,
    {
        let ghost all = Self::element_texts(*types, *ctx);
        let mut out = String::new();
        let mut i: usize = 0;
        assert(all.take(0) =~= Seq::<Seq<char>>::empty());
        while i < types.len()
            invariant
                i <= types.len(),
                all.len() == types.len(),
                forall|j: int| 0 <= j < types.len() ==> all[j] == (#[trigger] types[j]).text(*ctx),
                out@ == join(all.take(i as int), ", "@),
                decreases_to!(parent => *types),
            decreases types.len() - i,
        {
            assert(decreases_to!(*types => types[i as int]));
            let part = types[i].display(ctx);
            append_part(&mut out, i, ", ", part.as_str(), Ghost(all.take(i as int)));
            assert(all.take(i as int).push(part@) =~= all.take(i + 1));
            i += 1;
        }
        assert(all.take(types.len() as int) =~= all);
        out
    }
}

} // verus!
