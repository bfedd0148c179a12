//! Atoms: `Atom` and quoted symbols.
use vstd::prelude::*;
use crate::model::typing as ty;
use crate::symbol::{Name, Symbol};

verus! {

/// Whether `c` may appear in an atom: a letter or `-`.
pub fn is_atom_char(c: char) -> (res: bool)
    ensures
        res == ty::is_atom_char(c),
{
    ('a' <= c && c <= 'z') || ('A' <= c && c <= 'Z') || c == '-'
}

/// Whether every character of `n` may appear in an atom.
pub fn atom_chars_ok(n: &Name) -> (res: bool)
    ensures
        res == ty::atom_chars_ok(*n),
    decreases n,
{
    match n {
        Name::End => true,
        Name::Ch(c, rest) => is_atom_char(*c) && atom_chars_ok(rest),
    }
}

/// Atoms are non-empty words of letters and hyphens, never renamed.
pub fn atom_is_ok(s: &Symbol) -> (res: bool)
    ensures
        res == ty::atom_is_ok(*s),
{
    s.index == 0 && match &s.name {
        Name::End => false,
        _ => atom_chars_ok(&s.name),
    }
}

} // verus!
