//! Variable references.
use vstd::prelude::*;
use crate::model::eval as sem;
use crate::model::typing as ty;
use crate::normalize::read_back_type;
use crate::symbol::{sym, Symbol};
use crate::syntax::{Core, Ref};
use crate::typechecker::check;
use crate::value::{Ctx, Env, Error, Renaming, Value};

verus! {

impl Ref {
    /// The value the environment binds to this variable.
    pub fn val_of(&self, env: &Env) -> (res: Result<Value, Error>)
        ensures
            res == sem::eval(0, *env, Core::Ref(*self)),
    {
        match env.var_val(&self.0) {
            Some(v) => Ok(v),
            None => Err(Error::UnknownVariable(self.0.clone())),
        }
    }
}

/// The words that Pie reserves for its own forms; no variable is named by
/// one of them.
pub open spec fn is_keyword(s: Seq<char>) -> bool {
    s == "U"@ || s == "Nat"@ || s == "zero"@ || s == "add1"@ || s == "which-Nat"@
        || s == "iter-Nat"@ || s == "rec-Nat"@ || s == "ind-Nat"@ || s == "->"@ || s == "Π"@
        || s == "Pi"@ || s == "λ"@ || s == "lambda"@ || s == "quote"@ || s == "Atom"@
        || s == "Σ"@ || s == "Sigma"@ || s == "Pair"@ || s == "cons"@ || s == "car"@
        || s == "cdr"@ || s == "List"@ || s == "nil"@ || s == "::"@ || s == "rec-List"@
        || s == "ind-List"@ || s == "Vec"@ || s == "vecnil"@ || s == "vec::"@ || s == "head"@
        || s == "tail"@ || s == "ind-Vec"@ || s == "="@ || s == "same"@ || s == "replace"@
        || s == "cong"@ || s == "symm"@ || s == "Either"@ || s == "left"@ || s == "right"@
        || s == "ind-Either"@ || s == "Trivial"@ || s == "sole"@ || s == "Absurd"@
        || s == "ind-Absurd"@ || s == "the"@ || s == "TODO"@
}

/// A variable name: a non-empty word that is not a keyword.
pub open spec fn is_var_name(s: Seq<char>) -> bool {
    s.len() > 0 && !is_keyword(s)
}

impl Ref {
    /// A reference to the variable spelled `s`.
    pub fn new(s: &str) -> (res: Ref)
        requires
            is_var_name(s@),
        ensures
            res == Ref(sym(s@)),
    {
        Ref(Symbol::new(s))
    }
}

/// A variable's type is its type in the context, after renaming.
pub fn synth_ref(ctx: &Ctx, r: &Renaming, x: &Ref, fuel: u64) -> (res: Result<(Core, Core), Error>)
    ensures
        res == ty::synth_ref(fuel as nat, *ctx, *r, *x),
    decreases fuel, 0nat,
{
    if fuel == 0 {
        return Err(Error::OutOfFuel);
    }
    let real_x = r.rename(&x.0);
    let xtv = ctx.var_type(&real_x)?;
    let t = read_back_type(ctx, &xtv, fuel - 1)?;
    Ok((t, Core::Ref(Ref(real_x))))
}

/// A variable is a type when it checks against `U`; otherwise the error
/// names the type it has.
pub fn is_type_ref(ctx: &Ctx, r: &Renaming, x: &Ref, fuel: u64) -> (res: Result<Core, Error>)
    ensures
        res == ty::is_type_ref(fuel as nat, *ctx, *r, *x),
    decreases fuel, 0nat,
{
    if fuel == 0 {
        return Err(Error::OutOfFuel);
    }
    match check(ctx, r, &Core::Ref(x.clone()), &Value::Universe, fuel - 1) {
        Ok(t) => Ok(t),
        Err(_) => {
            let other = ctx.var_type(&x.0)?;
            let oc = read_back_type(ctx, &other, fuel - 1)?;
            Err(Error::WrongType(oc, Core::Universe))
        },
    }
}

} // verus!
