//! Function bodies as generic labelled trees.
//!
//! Every expression becomes a node with a kind, an optional value and its
//! children in operand order. A construct that has no shape of its own here
//! becomes a childless node that carries the compiler's description, so the
//! conversion has a result for every expression.

use crate::ast::{Exp, Operation};
use crate::model::GlobalEnv;
use crate::symbol::SymbolPool;
use vstd::prelude::*;

verus! {

/// One node of a written-out expression tree.
#[derive(Debug, PartialEq, Eq)]
pub struct ExpJson {
    pub kind: String,
    pub value: Option<String>,
    pub children: Vec<ExpJson>,
}

/// What an [`ExpJson`] holds, as a mathematical tree.
pub ghost struct ExpNode {
    pub kind: Seq<char>,
    pub value: Option<Seq<char>>,
    pub children: Seq<ExpNode>,
}

impl View for ExpJson {
    type V = ExpNode;

    open spec fn view(&self) -> ExpNode
        decreases self,
    {
        ExpNode {
            kind: self.kind@,
            value: match self.value {
                Some(text) => Some(text@),
                None => None,
            },
            children: Seq::new(
                self.children.len() as nat,
                |i: int|
                    if 0 <= i < self.children.len() {
                        self.children[i]@
                    } else {
                        arbitrary()
                    },
            ),
        }
    }
}

/// A node without children that carries a value.
pub open spec fn leaf(kind: Seq<char>, value: Seq<char>) -> ExpNode {
    ExpNode { kind, value: Some(value), children: Seq::empty() }
}

/// A node without a value over the given children.
pub open spec fn branch(kind: Seq<char>, children: Seq<ExpNode>) -> ExpNode {
    ExpNode { kind, value: None, children }
}

/// The kind of a call node: `Call::` and the operator's text.
pub open spec fn call_kind(operation: Operation) -> Seq<char> {
    "Call::"@ + operation.tag()
}

/// The kind of the node that stands for a construct without a shape of its
/// own: `Unhandled::` and the compiler's description.
pub open spec fn unhandled_kind(description: Seq<char>) -> Seq<char> {
    "Unhandled::"@ + description
}

/// The tree an expression is written as.
pub open spec fn exp_node(e: Exp, pool: SymbolPool) -> ExpNode
    decreases e,
{
    match e {
        Exp::Value { text } => leaf("Value"@, text@),
        Exp::LocalVar { name } => leaf("LocalVar"@, pool.name_of(name)),
        Exp::Call { operation, args } => branch(call_kind(operation), exp_nodes(args, pool)),
        Exp::Block { body } => branch("Block"@, seq![exp_node(*body, pool)]),
        Exp::Loop { body } => branch("Loop"@, seq![exp_node(*body, pool)]),
        Exp::Assign { rhs } => branch("Assign"@, seq![exp_node(*rhs, pool)]),
        Exp::Return { value } => branch("Return"@, seq![exp_node(*value, pool)]),
        Exp::IfElse { cond, then_branch, else_branch } => branch(
            "IfElse"@,
            seq![exp_node(*cond, pool), exp_node(*then_branch, pool), exp_node(*else_branch, pool)],
        ),
        Exp::Other { description } => branch(unhandled_kind(description@), Seq::empty()),
    }
}

/// The trees of the arguments of a call, in argument order.
pub open spec fn exp_nodes(args: Vec<Exp>, pool: SymbolPool) -> Seq<ExpNode>
    decreases args,
{
    Seq::new(
        args.len() as nat,
        |i: int|
            if 0 <= i < args.len() {
                exp_node(args[i], pool)
            } else {
                arbitrary()
            },
    )
}

fn leaf_json(kind: &str, value: String) -> (out: ExpJson)
    ensures
        out@ == leaf(kind@, value@),
{
    let out = ExpJson { kind: kind.to_string(), value: Some(value), children: Vec::new() };
    assert(out@.children =~= Seq::<ExpNode>::empty());
    out
}

fn unary_json(kind: &str, child: ExpJson) -> (out: ExpJson)
    ensures
        out@ == branch(kind@, seq![child@]),
{
    let mut children: Vec<ExpJson> = Vec::new();
    children.push(child);
    let out = ExpJson { kind: kind.to_string(), value: None, children };
    assert(out@.children =~= seq![child@]);
    out
}

/// Writes an expression out as a tree: a literal or a variable as a leaf
/// with its text, a call with one child per argument, a block, loop,
/// assignment or return with its one operand, a conditional with condition,
/// then-branch and else-branch, and anything else as a childless node that
/// carries the compiler's description.
pub fn exp_to_json(e: &Exp, env: &GlobalEnv) -> (out: ExpJson)
    ensures
        out@ == exp_node(*e, env.symbol_pool),
    decreases e,
{
    match e {
        Exp::Value { text } => leaf_json("Value", text.clone()),
        Exp::LocalVar { name } => leaf_json("LocalVar", env.symbol_pool.string(*name)),
        Exp::Call { operation, args } => {
            let mut kind = "Call::".to_string();
            kind.append(operation.name());
            let mut children: Vec<ExpJson> = Vec::new();
            let mut i: usize = 0;
            while i < args.len()
                invariant
                    i <= args.len(),
                    e is Call,
                    e->args == *args,
                    children@.len() == i,
                    forall|j: int|
                        0 <= j < i ==> (#[trigger] children@[j])@ == exp_node(
                            args@[j],
                            env.symbol_pool,
                        ),
                decreases args.len() - i,
            {
                assert(decreases_to!(*e => e->args));
                assert(decreases_to!(*args => args[i as int]));
                let child = exp_to_json(&args[i], env);
                children.push(child);
                i += 1;
            }
            let out = ExpJson { kind, value: None, children };
            assert(out@.children =~= exp_nodes(*args, env.symbol_pool));
            out
        },
        Exp::Block { body } => unary_json("Block", exp_to_json(body, env)),
        Exp::Loop { body } => unary_json("Loop", exp_to_json(body, env)),
        Exp::Assign { rhs } => unary_json("Assign", exp_to_json(rhs, env)),
        Exp::Return { value } => unary_json("Return", exp_to_json(value, env)),
        Exp::IfElse { cond, then_branch, else_branch } => {
            let c = exp_to_json(cond, env);
            let t = exp_to_json(then_branch, env);
            let f = exp_to_json(else_branch, env);
            let mut children: Vec<ExpJson> = Vec::new();
            children.push(c);
            children.push(t);
            children.push(f);
            let out = ExpJson { kind: "IfElse".to_string(), value: None, children };
            assert(out@.children =~= seq![c@, t@, f@]);
            out
        },
        Exp::Other { description } => {
            let mut kind = "Unhandled::".to_string();
            kind.append(description.as_str());
            let out = ExpJson { kind, value: None, children: Vec::new() };
            assert(out@.children =~= Seq::<ExpNode>::empty());
            out
        },
    }
}

/// Whether `kind` starts with `Unhandled::`.
pub open spec fn is_unhandled_kind(kind: Seq<char>) -> bool {
    kind.len() >= "Unhandled::"@.len() && kind.subrange(0, "Unhandled::"@.len() as int)
        == "Unhandled::"@
}

/// The number of children a node of this kind always has: none for a
/// literal, a variable and an unhandled construct, one for a block, a loop,
/// an assignment and a return, three for a conditional. A call has as many
/// as it has arguments, so its kind has no fixed number.
pub open spec fn fixed_arity(kind: Seq<char>) -> Option<nat> {
    if kind == "Value"@ || kind == "LocalVar"@ || is_unhandled_kind(kind) {
        Some(0nat)
    } else if kind == "Block"@ || kind == "Loop"@ || kind == "Assign"@ || kind == "Return"@ {
        Some(1nat)
    } else if kind == "IfElse"@ {
        Some(3nat)
    } else {
        None
    }
}

/// Every node of the tree has the number of children its kind calls for.
pub open spec fn respects_arity(node: ExpNode) -> bool
    decreases node,
{
    &&& (fixed_arity(node.kind) matches Some(n) ==> node.children.len() == n)
    &&& forall|i: int|
        0 <= i < node.children.len() ==> respects_arity(#[trigger] node.children[i])
}

proof fn lemma_kind_texts()
    ensures
        fixed_arity("Value"@) == Some(0nat),
        fixed_arity("LocalVar"@) == Some(0nat),
        fixed_arity("Block"@) == Some(1nat),
        fixed_arity("Loop"@) == Some(1nat),
        fixed_arity("Assign"@) == Some(1nat),
        fixed_arity("Return"@) == Some(1nat),
        fixed_arity("IfElse"@) == Some(3nat),
        forall|operation: Operation| fixed_arity(#[trigger] call_kind(operation)) is None,
        forall|description: Seq<char>|
            fixed_arity(#[trigger] unhandled_kind(description)) == Some(0nat),
{
    reveal_strlit("Value");
    reveal_strlit("LocalVar");
    reveal_strlit("Block");
    reveal_strlit("Loop");
    reveal_strlit("Assign");
    reveal_strlit("Return");
    reveal_strlit("IfElse");
    reveal_strlit("Call::");
    reveal_strlit("Unhandled::");
    assert("Value"@[0] == 'V');
    assert("LocalVar"@[0] == 'L' && "LocalVar"@[2] == 'c');
    assert("Block"@[0] == 'B');
    assert("Loop"@[0] == 'L' && "Loop"@[2] == 'o');
    assert("Assign"@[0] == 'A');
    assert("Return"@[0] == 'R');
    assert("IfElse"@[0] == 'I');
    assert("Unhandled::"@[0] == 'U');
    assert forall|operation: Operation| fixed_arity(#[trigger] call_kind(operation)) is None by {
        let kind = call_kind(operation);
        assert(kind[0] == 'C');
        if is_unhandled_kind(kind) {
            assert(kind.subrange(0, "Unhandled::"@.len() as int)[0] == kind[0]);
        }
    }
    assert forall|description: Seq<char>|
        fixed_arity(#[trigger] unhandled_kind(description)) == Some(0nat) by {
        let kind = unhandled_kind(description);
        assert(kind.subrange(0, "Unhandled::"@.len() as int) =~= "Unhandled::"@);
    }
}

/// Whatever the expression, each node of its tree has the number of
/// children its kind calls for: a conditional three, a block, a loop, an
/// assignment and a return one, a leaf none.
pub proof fn lemma_tree_respects_arity(e: Exp, pool: SymbolPool)
    ensures
        respects_arity(exp_node(e, pool)),
    decreases e,
{
    lemma_kind_texts();
    let node = exp_node(e, pool);
    match e {
        Exp::Value { text } => {},
        Exp::LocalVar { name } => {},
        Exp::Call { operation, args } => {
            assert(node.children == exp_nodes(args, pool));
            assert(node.children.len() == args.len());
            assert forall|i: int| 0 <= i < node.children.len() implies respects_arity(
                #[trigger] node.children[i],
            ) by {
                assert(node.children[i] == exp_node(args[i], pool));
                lemma_tree_respects_arity(args[i], pool);
            }
            assert(node.kind == call_kind(operation));
        },
        Exp::Block { body } => {
            lemma_tree_respects_arity(*body, pool);
            assert(node.children[0] == exp_node(*body, pool));
        },
        Exp::Loop { body } => {
            lemma_tree_respects_arity(*body, pool);
            assert(node.children[0] == exp_node(*body, pool));
        },
        Exp::Assign { rhs } => {
            lemma_tree_respects_arity(*rhs, pool);
            assert(node.children[0] == exp_node(*rhs, pool));
        },
        Exp::Return { value } => {
            lemma_tree_respects_arity(*value, pool);
            assert(node.children[0] == exp_node(*value, pool));
        },
        Exp::IfElse { cond, then_branch, else_branch } => {
            lemma_tree_respects_arity(*cond, pool);
            lemma_tree_respects_arity(*then_branch, pool);
            lemma_tree_respects_arity(*else_branch, pool);
            assert(node.children[0] == exp_node(*cond, pool));
            assert(node.children[1] == exp_node(*then_branch, pool));
            assert(node.children[2] == exp_node(*else_branch, pool));
        },
        Exp::Other { description } => {},
    }
}

/// A call is written with one child per argument, each at the position of
/// its argument.
pub proof fn lemma_call_children_mirror_arguments(e: Exp, pool: SymbolPool)
    requires
        e is Call,
    ensures
        exp_node(e, pool).kind == call_kind(e->operation),
        exp_node(e, pool).value is None,
        exp_node(e, pool).children.len() == e->args.len(),
        forall|i: int|
            0 <= i < e->args.len() ==> #[trigger] exp_node(e, pool).children[i] == exp_node(
                (e->args)[i],
                pool,
            ),
{
    assert(exp_node(e, pool).children == exp_nodes(e->args, pool));
}

/// A construct without a shape of its own is written as a node without
/// value and without children, whose kind is `Unhandled::` and the
/// compiler's description.
pub proof fn lemma_unhandled_is_leaf(e: Exp, pool: SymbolPool)
    requires
        e is Other,
    ensures
        exp_node(e, pool) == branch(unhandled_kind(e->description@), Seq::empty()),
        is_unhandled_kind(exp_node(e, pool).kind),
        exp_node(e, pool).children.len() == 0,
{
    lemma_kind_texts();
    let kind = unhandled_kind(e->description@);
    assert(fixed_arity(kind) == Some(0nat));
    assert(kind.subrange(0, "Unhandled::"@.len() as int) =~= "Unhandled::"@);
}

} // verus!
