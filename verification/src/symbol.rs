//! Symbols: names made of characters, plus an index that `fresh` raises to
//! avoid capture.
use vstd::prelude::*;
use vstd::string::*;

verus! {

/// The characters of a name, as a list.
#[derive(Debug, PartialEq, Eq)]
pub enum Name {
    End,
    Ch(char, Box<Name>),
}

/// A variable or atom name. Two symbols are the same exactly when their
/// characters and indices agree; `fresh` picks new indices.
#[derive(Debug, PartialEq, Eq)]
pub struct Symbol {
    pub name: Name,
    pub index: u64,
}

/// The name whose characters are `s`.
pub open spec fn name_of(s: Seq<char>) -> Name
    decreases s.len(),
{
    if s.len() == 0 {
        Name::End
    } else {
        Name::Ch(s[0], Box::new(name_of(s.drop_first())))
    }
}

/// The characters of a name.
pub open spec fn chars_of(n: Name) -> Seq<char>
    decreases n,
{
    match n {
        Name::End => Seq::empty(),
        Name::Ch(c, rest) => seq![c] + chars_of(*rest),
    }
}

/// The symbol with index 0 whose name is `s`.
pub open spec fn sym(s: Seq<char>) -> Symbol {
    Symbol { name: name_of(s), index: 0 }
}

impl Clone for Name {
    fn clone(&self) -> (res: Self)
        ensures
            res == *self,
        decreases self,
    {
        match self {
            Name::End => Name::End,
            Name::Ch(c, rest) => Name::Ch(*c, Box::new((**rest).clone())),
        }
    }
}

impl Clone for Symbol {
    fn clone(&self) -> (res: Self)
        ensures
            res == *self,
    {
        Symbol { name: self.name.clone(), index: self.index }
    }
}

proof fn lemma_name_of_step(s: Seq<char>, i: int)
    requires
        0 <= i < s.len(),
    ensures
        name_of(s.subrange(i, s.len() as int)) == Name::Ch(
            s[i],
            Box::new(name_of(s.subrange(i + 1, s.len() as int))),
        ),
{
    assert(s.subrange(i, s.len() as int).drop_first() =~= s.subrange(i + 1, s.len() as int));
}

/// Compares two names character by character.
pub fn name_eq(a: &Name, b: &Name) -> (res: bool)
    ensures
        res == (*a == *b),
    decreases a,
{
    match (a, b) {
        (Name::End, Name::End) => true,
        (Name::Ch(c1, r1), Name::Ch(c2, r2)) => *c1 == *c2 && name_eq(&**r1, &**r2),
        _ => false,
    }
}

impl Symbol {
    /// The symbol with index 0 spelled `s`.
    pub fn new(s: &str) -> (res: Symbol)
        ensures
            res == sym(s@),
    {
        let len = s.unicode_len();
        let mut acc = Name::End;
        let mut i = len;
        assert(s@.subrange(len as int, len as int) =~= Seq::<char>::empty());
        while i > 0
            invariant
                i <= len,
                len == s@.len(),
                acc == name_of(s@.subrange(i as int, len as int)),
            decreases i,
        {
            let c = s.get_char(i - 1);
            proof {
                lemma_name_of_step(s@, i - 1);
            }
            acc = Name::Ch(c, Box::new(acc));
            i = i - 1;
        }
        assert(s@.subrange(0, len as int) =~= s@);
        Symbol { name: acc, index: 0 }
    }

    /// Symbol equality: same characters and same index.
    pub fn same(&self, other: &Symbol) -> (res: bool)
        ensures
            res == (*self == *other),
    {
        self.index == other.index && name_eq(&self.name, &other.name)
    }
}

} // verus!
