//! Interned names and the pool that resolves them.

use vstd::prelude::*;

verus! {

/// The text that stands for a symbol the pool has never handed out.
pub const UNKNOWN_SYMBOL: &'static str = "<unknown>";

/// An interned name: the position of its text in the [`SymbolPool`] that made it.
#[derive(Clone, Copy, Debug, PartialEq, Eq, Structural)]
pub struct Symbol {
    pub index: usize,
}

/// The table of interned names of one compilation run.
///
/// Every text is stored once, so two symbols of one pool are equal exactly
/// when their texts are.
#[derive(Debug)]
pub struct SymbolPool {
    strings: Vec<String>,
}

/// No text occurs at two positions of `texts`.
pub open spec fn distinct_texts(texts: Seq<Seq<char>>) -> bool {
    forall|i: int, j: int| 0 <= i < j < texts.len() ==> texts[i] != texts[j]
}

impl View for SymbolPool {
    type V = Seq<Seq<char>>;

    closed spec fn view(&self) -> Seq<Seq<char>> {
        Seq::new(self.strings@.len(), |i: int| self.strings@[i]@)
    }
}

impl SymbolPool {
    /// The pool stores no text twice. It holds of every pool that [`SymbolPool::new`]
    /// and [`SymbolPool::make`] build.
    pub open spec fn wf(&self) -> bool {
        distinct_texts(self@)
    }

    /// The text of `sym`, or [`UNKNOWN_SYMBOL`] where the pool has no such symbol.
    pub open spec fn name_of(&self, sym: Symbol) -> Seq<char> {
        if sym.index < self@.len() {
            self@[sym.index as int]
        } else {
            UNKNOWN_SYMBOL@
        }
    }

    /// An empty pool.
    pub fn new() -> (pool: SymbolPool)
        ensures
            pool@ == Seq::<Seq<char>>::empty(),
            pool.wf(),
    {
        let pool = SymbolPool { strings: Vec::new() };
        assert(pool@ =~= Seq::<Seq<char>>::empty());
        pool
    }

    /// The number of interned names.
    pub fn len(&self) -> (n: usize)
        ensures
            n == self@.len(),
    {
        self.strings.len()
    }

    /// The symbol of `text`, if it has been interned.
    pub fn lookup(&self, text: &str) -> (found: Option<Symbol>)
        ensures
            match found {
                Some(sym) => {
                    &&& sym.index < self@.len()
                    &&& self@[sym.index as int] == text@
                    &&& forall|j: int| 0 <= j < sym.index ==> self@[j] != text@
                },
                None => !self@.contains(text@),
            },
    {
        let wanted = text.to_string();
        let mut i: usize = 0;
        while i < self.strings.len()
            invariant
                i <= self.strings.len(),
                wanted@ == text@,
                forall|j: int| 0 <= j < i ==> self@[j] != text@,
            decreases self.strings.len() - i,
        {
            if self.strings[i] == wanted {
                return Some(Symbol { index: i });
            }
            i += 1;
        }
        None
    }

    /// Interns `text`: hands out the symbol it already has, or appends it
    /// and hands out the new one. Symbols made earlier keep their texts.
    pub fn make(&mut self, text: &str) -> (sym: Symbol)
        ensures
            old(self).wf() ==> final(self).wf(),
            sym.index < final(self)@.len(),
            final(self).name_of(sym) == text@,
            forall|j: int| 0 <= j < sym.index ==> final(self)@[j] != text@,
            old(self)@.contains(text@) ==> final(self)@ == old(self)@,
            !old(self)@.contains(text@) ==> final(self)@ == old(self)@.push(text@) && sym.index
                == old(self)@.len(),
    {
        match self.lookup(text) {
            Some(sym) => sym,
            None => {
                let index = self.strings.len();
                let ghost before = self@;
                self.strings.push(text.to_string());
                assert(self@ =~= before.push(text@));
                Symbol { index }
            },
        }
    }

    /// The text of `sym`; [`UNKNOWN_SYMBOL`] for a symbol this pool never made.
    pub fn string(&self, sym: Symbol) -> (text: String)
        ensures
            text@ == self.name_of(sym),
    {
        if sym.index < self.strings.len() {
            self.strings[sym.index].clone()
        } else {
            UNKNOWN_SYMBOL.to_string()
        }
    }
}

/// In a pool, equal texts mean equal symbols: interning is injective on
/// the symbols the pool has handed out.
pub proof fn lemma_symbols_are_canonical(pool: SymbolPool, a: Symbol, b: Symbol)
    requires
        pool.wf(),
        a.index < pool@.len(),
        b.index < pool@.len(),
    ensures
        pool.name_of(a) == pool.name_of(b) <==> a == b,
{
    if a.index < b.index {
        assert(pool@[a.index as int] != pool@[b.index as int]);
    } else if b.index < a.index {
        assert(pool@[b.index as int] != pool@[a.index as int]);
    }
}

} // verus!
