//! `(the T e)`.
use vstd::prelude::*;
use crate::model::eval as sem;
use crate::model::typing as ty;
use crate::normalize::{eval, val_in_ctx};
use crate::syntax::{Core, The};
use crate::typechecker::{check, is_type};
use crate::value::{Ctx, Env, Error, Renaming, Value};

verus! {

impl The {
    /// The value of the annotated expression.
    pub fn val_of_fuel(&self, env: &Env, fuel: u64) -> (res: Result<Value, Error>)
        ensures
            res == sem::eval_the(fuel as nat, *env, *self),
        decreases fuel, 0nat,
    {
        if fuel == 0 {
            return Err(Error::OutOfFuel);
        }
        eval(env, &self.exp, fuel - 1)
    }
}

/// `(the T e)`: `T` as a type, then `e` checked against it; the type is
/// the elaborated `T`.
pub fn synth_the(ctx: &Ctx, r: &Renaming, t: &The, fuel: u64) -> (res: Result<(Core, Core), Error>)
    ensures
        res == ty::synth_the(fuel as nat, *ctx, *r, Core::The(*t)),
    decreases fuel, 0nat,
{
    if fuel == 0 {
        return Err(Error::OutOfFuel);
    }
    let t_out = is_type(ctx, r, &t.typ, fuel - 1)?;
    let tv = val_in_ctx(ctx, &t_out, fuel - 1)?;
    let e_out = check(ctx, r, &t.exp, &tv, fuel - 1)?;
    Ok((t_out, e_out))
}

} // verus!
