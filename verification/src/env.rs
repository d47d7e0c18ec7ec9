//! The scope-aware symbol environment that disambiguates the C
//! grammar during parsing.
//!
//! Names are byte spans into the preprocessed source text, so the
//! whole environment is a plain value that specifications can state
//! and executable code can build.  Lookups resolve to the innermost
//! scope containing the name; declaring a name again in the same
//! scope replaces its earlier classification.

use vstd::prelude::*;
use crate::ast::List;
use crate::driver::Flavor;

verus! {

/// How a name is currently classified.
#[derive(Clone, Copy, PartialEq, Eq, Debug)]
pub enum SymbolKind {
    /// Declared by a `typedef`; starts a type wherever it appears.
    TypeName,
    /// An ordinary identifier (object, function, parameter).
    OrdinaryIdentifier,
    /// A constant introduced by an `enum` specifier.
    EnumerationConstant,
}

/// One binding: the name as a byte span into the source text, and
/// its classification.
pub struct Entry {
    pub start: usize,
    pub end: usize,
    pub kind: SymbolKind,
}

/// The symbol environment: a stack of scopes (innermost first) and
/// the language flavor whose extension keywords are active.
pub struct Env {
    pub scopes: List<List<Entry>>,
    pub flavor: Flavor,
}

/// The bytes of `src` covered by the span `s..e`, with both bounds
/// clamped to the text, so the function is total.
pub open spec fn span_text(src: Seq<u8>, s: usize, e: usize) -> Seq<u8> {
    let n = src.len() as int;
    let a = if s as int <= n { s as int } else { n };
    let b = if e as int <= n { e as int } else { n };
    if a <= b { src.subrange(a, b) } else { Seq::empty() }
}

/// Search one scope, newest binding first.
pub open spec fn sp_lookup_scope(
    sc: List<Entry>, src: Seq<u8>, s: usize, e: usize,
) -> Option<SymbolKind>
    decreases sc,
{
    match sc {
        List::Nil => None,
        List::Cons(en, tail) => if span_text(src, en.start, en.end) == span_text(src, s, e) {
            Some(en.kind)
        } else {
            sp_lookup_scope(*tail, src, s, e)
        },
    }
}

/// Search the scope stack, innermost scope first.
pub open spec fn sp_lookup(
    scopes: List<List<Entry>>, src: Seq<u8>, s: usize, e: usize,
) -> Option<SymbolKind>
    decreases scopes,
{
    match scopes {
        List::Nil => None,
        List::Cons(sc, tail) => match sp_lookup_scope(sc, src, s, e) {
            Some(k) => Some(k),
            None => sp_lookup(*tail, src, s, e),
        },
    }
}

/// A fresh environment for a flavor: one empty file scope.
pub open spec fn sp_env_init(flavor: Flavor) -> Env {
    Env { scopes: List::Cons(List::Nil, Box::new(List::Nil)), flavor }
}

/// The environment after entering a new scope.
pub open spec fn sp_push(e: Env) -> Env {
    Env { scopes: List::Cons(List::Nil, Box::new(e.scopes)), flavor: e.flavor }
}

/// The environment after leaving the innermost scope.  Popping an
/// empty stack leaves it empty.
pub open spec fn sp_pop(e: Env) -> Env {
    match e.scopes {
        List::Nil => e,
        List::Cons(_, tail) => Env { scopes: *tail, flavor: e.flavor },
    }
}

/// The environment after declaring a binding in the innermost scope.
/// The new binding stands in front, so it shadows any earlier binding
/// of the same name.
pub open spec fn sp_declare(e: Env, en: Entry) -> Env {
    match e.scopes {
        List::Nil => Env {
            scopes: List::Cons(List::Cons(en, Box::new(List::Nil)), Box::new(List::Nil)),
            flavor: e.flavor,
        },
        List::Cons(sc, tail) => Env {
            scopes: List::Cons(List::Cons(en, Box::new(sc)), tail),
            flavor: e.flavor,
        },
    }
}

/// Compare two byte spans of the source text for equal contents.
fn span_eq(src: &Vec<u8>, s1: usize, e1: usize, s2: usize, e2: usize) -> (r: bool)
    ensures
        r == (span_text(src@, s1, e1) == span_text(src@, s2, e2)),
{
    let n = src.len();
    let a1 = if s1 <= n { s1 } else { n };
    let b1 = if e1 <= n { e1 } else { n };
    let a2 = if s2 <= n { s2 } else { n };
    let b2 = if e2 <= n { e2 } else { n };
    let len1 = if a1 <= b1 { b1 - a1 } else { 0 };
    let len2 = if a2 <= b2 { b2 - a2 } else { 0 };
    if len1 != len2 {
        proof {
            assert(span_text(src@, s1, e1).len() != span_text(src@, s2, e2).len());
        }
        return false;
    }
    proof {
        assert(span_text(src@, s1, e1) =~= src@.subrange(a1 as int, a1 + len1));
        assert(span_text(src@, s2, e2) =~= src@.subrange(a2 as int, a2 + len2));
    }
    let mut i: usize = 0;
    while i < len1
        invariant
            len1 == len2,
            i <= len1,
            n == src@.len(),
            a1 <= n && a2 <= n,
            len1 == 0 || (a1 <= b1 && b1 <= n && len1 == b1 - a1),
            len2 == 0 || (a2 <= b2 && b2 <= n && len2 == b2 - a2),
            len1 == span_text(src@, s1, e1).len(),
            len2 == span_text(src@, s2, e2).len(),
            span_text(src@, s1, e1) == src@.subrange(a1 as int, a1 + len1),
            span_text(src@, s2, e2) == src@.subrange(a2 as int, a2 + len2),
            forall|j: int| 0 <= j < i ==> span_text(src@, s1, e1)[j] == span_text(src@, s2, e2)[j],
        decreases len1 - i,
    {
        let x = src[a1 + i];
        let y = src[a2 + i];
        proof {
            assert(span_text(src@, s1, e1)[i as int] == src@[a1 + i]);
            assert(span_text(src@, s2, e2)[i as int] == src@[a2 + i]);
        }
        if x != y {
            proof {
                assert(span_text(src@, s1, e1)[i as int] != span_text(src@, s2, e2)[i as int]);
            }
            return false;
        }
        i += 1;
    }
    proof {
        assert(span_text(src@, s1, e1) =~= span_text(src@, s2, e2));
    }
    true
}

impl Env {
    /// A fresh environment accepting strict standard C only.
    pub fn with_core() -> (r: Env)
        ensures
            r == sp_env_init(Flavor::StdC11),
    {
        Env { scopes: List::Cons(List::Nil, Box::new(List::Nil)), flavor: Flavor::StdC11 }
    }

    /// A fresh environment with the GNU extension keywords active.
    pub fn with_gnu() -> (r: Env)
        ensures
            r == sp_env_init(Flavor::GnuC11),
    {
        Env { scopes: List::Cons(List::Nil, Box::new(List::Nil)), flavor: Flavor::GnuC11 }
    }

    /// A fresh environment with the Clang extension keywords active.
    pub fn with_clang() -> (r: Env)
        ensures
            r == sp_env_init(Flavor::ClangC11),
    {
        Env { scopes: List::Cons(List::Nil, Box::new(List::Nil)), flavor: Flavor::ClangC11 }
    }

    /// Enter a scope.  Every grammar rule that parses a scoped
    /// construct pushes on entry and pops on every exit path.
    pub fn push_scope(&mut self)
        ensures
            *final(self) == sp_push(*old(self)),
    {
        let mut taken: List<List<Entry>> = List::Nil;
        core::mem::swap(&mut self.scopes, &mut taken);
        self.scopes = List::Cons(List::Nil, Box::new(taken));
    }

    /// Leave the innermost scope, dropping its bindings.
    pub fn pop_scope(&mut self)
        ensures
            *final(self) == sp_pop(*old(self)),
    {
        let mut taken: List<List<Entry>> = List::Nil;
        core::mem::swap(&mut self.scopes, &mut taken);
        match taken {
            List::Nil => {
                self.scopes = List::Nil;
            },
            List::Cons(_, tail) => {
                self.scopes = *tail;
            },
        }
    }

    /// Register the name spanned by `start..end` with the given
    /// classification in the innermost scope.
    pub fn declare(&mut self, start: usize, end: usize, kind: SymbolKind)
        ensures
            *final(self) == sp_declare(*old(self), Entry { start, end, kind }),
    {
        let en = Entry { start, end, kind };
        let mut taken: List<List<Entry>> = List::Nil;
        core::mem::swap(&mut self.scopes, &mut taken);
        match taken {
            List::Nil => {
                self.scopes = List::Cons(List::Cons(en, Box::new(List::Nil)), Box::new(List::Nil));
            },
            List::Cons(sc, tail) => {
                self.scopes = List::Cons(List::Cons(en, Box::new(sc)), tail);
            },
        }
    }

    fn lookup_scope(sc: &List<Entry>, src: &Vec<u8>, s: usize, e: usize) -> (r: Option<SymbolKind>)
        ensures
            r == sp_lookup_scope(*sc, src@, s, e),
        decreases *sc,
    {
        match sc {
            List::Nil => None,
            List::Cons(en, tail) => {
                if span_eq(src, en.start, en.end, s, e) {
                    Some(en.kind)
                } else {
                    Self::lookup_scope(&**tail, src, s, e)
                }
            },
        }
    }

    fn lookup_scopes(l: &List<List<Entry>>, src: &Vec<u8>, s: usize, e: usize) -> (r: Option<
        SymbolKind,
    >)
        ensures
            r == sp_lookup(*l, src@, s, e),
        decreases *l,
    {
        match l {
            List::Nil => None,
            List::Cons(sc, tail) => {
                match Self::lookup_scope(sc, src, s, e) {
                    Some(k) => Some(k),
                    None => Self::lookup_scopes(&**tail, src, s, e),
                }
            },
        }
    }

    /// The classification of the name spanned by `start..end`, from
    /// the innermost scope that binds it.
    pub fn lookup(&self, src: &Vec<u8>, start: usize, end: usize) -> (r: Option<SymbolKind>)
        ensures
            r == sp_lookup(self.scopes, src@, start, end),
    {
        Self::lookup_scopes(&self.scopes, src, start, end)
    }

    /// True iff the innermost binding of the name classifies it as a
    /// typedef name.  The grammar engine consults this at every point
    /// where an identifier could start a type.
    pub fn is_typedef_name(&self, src: &Vec<u8>, start: usize, end: usize) -> (r: bool)
        ensures
            r == (sp_lookup(self.scopes, src@, start, end) == Some(SymbolKind::TypeName)),
    {
        match self.lookup(src, start, end) {
            Some(SymbolKind::TypeName) => true,
            _ => false,
        }
    }
}

} // verus!
