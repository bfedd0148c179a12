//! The empty type `Absurd` and `ind-Absurd`.
use vstd::prelude::*;
use crate::model::eval as sem;
use crate::model::readback as rb;
use crate::model::typing as ty;
use crate::normalize::{eval2, neu, read_back, read_back_neutral, typed};
use crate::syntax::{Core, IndAbsurd, The};
use crate::typechecker::check;
use crate::value::{Ctx, Env, Error, Neutral, Renaming, Typed, Value};

verus! {

/// `ind-Absurd` on values: only a neutral target can reach it.
pub fn do_ind_absurd(tv: Value, mv: Value) -> (res: Result<Value, Error>)
    ensures
        res == sem::do_ind_absurd(tv, mv),
{
    match tv {
        Value::Neutral { type_value, kind } => match *type_value {
            Value::Absurd => Ok(
                neu(mv.clone(), Neutral::IndAbsurd(kind, typed(Value::Universe, mv))),
            ),
            _ => Err(Error::Stuck),
        },
        _ => Err(Error::Stuck),
    }
}

impl IndAbsurd {
    /// `ind-Absurd` with the given target and motive.
    pub fn new(target: Core, motive: Core) -> (res: IndAbsurd)
        ensures
            res == (IndAbsurd { target: Box::new(target), motive: Box::new(motive) }),
    {
        IndAbsurd { target: Box::new(target), motive: Box::new(motive) }
    }

    /// Evaluates `ind-Absurd`.
    pub fn val_of_fuel(&self, env: &Env, fuel: u64) -> (res: Result<Value, Error>)
        ensures
            res == sem::eval_ind_absurd(fuel as nat, *env, *self),
        decreases fuel, 0nat,
    {
        if fuel == 0 {
            return Err(Error::OutOfFuel);
        }
        let (tv, mv) = eval2(env, &self.target, &self.motive, fuel - 1)?;
        do_ind_absurd(tv, mv)
    }
}


/// Read-back at `Absurd`: a neutral value, annotated with `Absurd`.
pub fn read_back_absurd(ctx: &Ctx, ne: &Neutral, fuel: u64) -> (res: Result<Core, Error>)
    ensures
        res == rb::read_back_absurd(fuel as nat, *ctx, *ne),
    decreases fuel, 0nat,
{
    if fuel == 0 {
        return Err(Error::OutOfFuel);
    }
    let c = read_back_neutral(ctx, ne, fuel - 1)?;
    Ok(Core::The(The { typ: Box::new(Core::Absurd), exp: Box::new(c) }))
}

/// Read-back of a neutral `ind-Absurd`.
pub fn read_back_neutral_ind_absurd(ctx: &Ctx, n: &Neutral, m: &Typed, fuel: u64) -> (res: Result<
    Core,
    Error,
>)
    ensures
        res == rb::read_back_neutral(
            fuel as nat,
            *ctx,
            Neutral::IndAbsurd(Box::new(*n), Box::new(*m)),
        ),
    decreases fuel, 0nat,
{
    if fuel == 0 {
        return Err(Error::OutOfFuel);
    }
    let nc = read_back_neutral(ctx, n, fuel - 1)?;
    let mc = read_back(ctx, &m.typ, &m.value, fuel - 1)?;
    Ok(
        Core::IndAbsurd(
            IndAbsurd {
                target: Box::new(Core::The(The { typ: Box::new(Core::Absurd), exp: Box::new(nc) })),
                motive: Box::new(mc),
            },
        ),
    )
}

/// `(ind-Absurd target motive)`: the target has type `Absurd` and the
/// motive, a type, is the result type.
pub fn synth_ind_absurd(ctx: &Ctx, r: &Renaming, w: &IndAbsurd, fuel: u64) -> (res: Result<
    (Core, Core),
    Error,
>)
    ensures
        res == ty::synth_ind_absurd(fuel as nat, *ctx, *r, *w),
    decreases fuel, 0nat,
{
    if fuel == 0 {
        return Err(Error::OutOfFuel);
    }
    let tgt_out = check(ctx, r, &w.target, &Value::Absurd, fuel - 1)?;
    let mot_out = check(ctx, r, &w.motive, &Value::Universe, fuel - 1)?;
    Ok(
        (
            mot_out.clone(),
            Core::IndAbsurd(IndAbsurd { target: Box::new(tgt_out), motive: Box::new(mot_out) }),
        ),
    )
}

} // verus!
