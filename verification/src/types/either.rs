//! Sums: `Either`, `left`, `right` and `ind-Either`.
use vstd::prelude::*;
use crate::model::eval as sem;
use crate::model::readback as rb;
use crate::model::typing as ty;
use crate::normalize::{deferred, 
    ap, capture, captured, eval, eval2, eval4, neu, pi_v, read_back, read_back_neutral,
    read_back_type, rf, typed, val_in_ctx,
};
use crate::symbol::Symbol;
use crate::syntax::{Core, IndEither, IndList};
use crate::typechecker::{check, is_type, synth_value};
use crate::types::functions::do_ap;
use crate::types::lists::motive_type;
use crate::value::{Ctx, Env, Error, Neutral, Renaming, Typed, Value};

verus! {

/// `(Either L R)`.
pub fn eval_either(env: &Env, l: &Core, r: &Core, fuel: u64) -> (res: Result<Value, Error>)
    ensures
        res == sem::eval_either(fuel as nat, *env, *l, *r),
    decreases fuel, 0nat,
{
    if fuel == 0 {
        return Err(Error::OutOfFuel);
    }
    let (lv, rv) = eval2(env, l, r, fuel - 1)?;
    Ok(Value::Either(Box::new(lv), Box::new(rv)))
}

/// `(left x)`.
pub fn eval_left(env: &Env, x: &Core, fuel: u64) -> (res: Result<Value, Error>)
    ensures
        res == sem::eval_left(fuel as nat, *env, *x),
    decreases fuel, 0nat,
{
    if fuel == 0 {
        return Err(Error::OutOfFuel);
    }
    let v = deferred(eval(env, x, fuel - 1))?;
    Ok(Value::Left(Box::new(v)))
}

/// `(right x)`.
pub fn eval_right(env: &Env, x: &Core, fuel: u64) -> (res: Result<Value, Error>)
    ensures
        res == sem::eval_right(fuel as nat, *env, *x),
    decreases fuel, 0nat,
{
    if fuel == 0 {
        return Err(Error::OutOfFuel);
    }
    let v = deferred(eval(env, x, fuel - 1))?;
    Ok(Value::Right(Box::new(v)))
}

/// `(Π ((x side)) (mot (left x)))`, or with `right` when `left` is false.
pub fn either_branch_type(xtv: Value, mv: Value, left: bool) -> (res: Value)
    ensures
        res == sem::either_branch_type(xtv, mv, left),
{
    let x = Symbol::new("x");
    let inj = if left {
        Core::Left(Box::new(rf(x.clone())))
    } else {
        Core::Right(Box::new(rf(x.clone())))
    };
    pi_v(x.clone(), xtv, capture(x, mv, ap(rf(captured()), inj)))
}

/// `ind-Either` on values.
pub fn do_ind_either(tv: Value, mv: Value, lv: Value, rv: Value, fuel: u64) -> (res: Result<
    Value,
    Error,
>)
    ensures
        res == sem::do_ind_either(fuel as nat, tv, mv, lv, rv),
    decreases fuel, 0nat,
{
    if fuel == 0 {
        return Err(Error::OutOfFuel);
    }
    let g = fuel - 1;
    match tv {
        Value::Left(x) => do_ap(lv, *x, g),
        Value::Right(x) => do_ap(rv, *x, g),
        Value::Neutral { type_value, kind } => {
            let whole = Value::Neutral { type_value: type_value.clone(), kind: kind.clone() };
            let etv = (*type_value).clone();
            match *type_value {
                Value::Either(ltv, rtv) => {
                    let rt = do_ap(mv.clone(), whole, g)?;
                    Ok(
                        neu(
                            rt,
                            Neutral::IndEither(
                                kind,
                                typed(motive_type(Symbol::new("xs"), etv), mv.clone()),
                                typed(either_branch_type(*ltv, mv.clone(), true), lv),
                                typed(either_branch_type(*rtv, mv, false), rv),
                            ),
                        ),
                    )
                },
                _ => Err(Error::Stuck),
            }
        },
        _ => Err(Error::Stuck),
    }
}

impl IndEither {
    /// Evaluates `ind-Either`.
    pub fn val_of_fuel(&self, env: &Env, fuel: u64) -> (res: Result<Value, Error>)
        ensures
            res == sem::eval_ind_either(fuel as nat, *env, *self),
        decreases fuel, 0nat,
    {
        if fuel == 0 {
            return Err(Error::OutOfFuel);
        }
        let (tv, mv, lv, rv) = eval4(
            env,
            &self.target,
            &self.motive,
            &self.left,
            &self.right,
            fuel - 1,
        )?;
        do_ind_either(tv, mv, lv, rv, fuel - 1)
    }
}


/// Read-back at `(Either L R)`.
pub fn read_back_either(ctx: &Ctx, ltv: &Value, rtv: &Value, v: &Value, fuel: u64) -> (res:
    Result<Core, Error>)
    ensures
        res == rb::read_back_either(fuel as nat, *ctx, *ltv, *rtv, *v),
    decreases fuel, 0nat,
{
    if fuel == 0 {
        return Err(Error::OutOfFuel);
    }
    match v {
        Value::Left(x) => {
            let c = read_back(ctx, ltv, x, fuel - 1)?;
            Ok(Core::Left(Box::new(c)))
        },
        Value::Right(x) => {
            let c = read_back(ctx, rtv, x, fuel - 1)?;
            Ok(Core::Right(Box::new(c)))
        },
        _ => Err(
            Error::TypeMismatchVar(
                v.clone(),
                Value::Either(Box::new(ltv.clone()), Box::new(rtv.clone())),
            ),
        ),
    }
}

/// Read-back of `(Either L R)` as a type.
pub fn read_back_type_either(ctx: &Ctx, ltv: &Value, rtv: &Value, fuel: u64) -> (res: Result<
    Core,
    Error,
>)
    ensures
        res == rb::read_back_type_either(fuel as nat, *ctx, *ltv, *rtv),
    decreases fuel, 0nat,
{
    if fuel == 0 {
        return Err(Error::OutOfFuel);
    }
    let lc = read_back_type(ctx, ltv, fuel - 1)?;
    let rc = read_back_type(ctx, rtv, fuel - 1)?;
    Ok(Core::Either(Box::new(lc), Box::new(rc)))
}

/// Read-back of a neutral `ind-Either`; the result is written with the
/// `ind-List` constructor, as this implementation has always done.
pub fn read_back_neutral_ind_either(
    ctx: &Ctx,
    n: &Neutral,
    m: &Typed,
    l: &Typed,
    r: &Typed,
    fuel: u64,
) -> (res: Result<Core, Error>)
    ensures
        res == rb::read_back_neutral(
            fuel as nat,
            *ctx,
            Neutral::IndEither(Box::new(*n), Box::new(*m), Box::new(*l), Box::new(*r)),
        ),
    decreases fuel, 0nat,
{
    if fuel == 0 {
        return Err(Error::OutOfFuel);
    }
    let g = fuel - 1;
    let nc = read_back_neutral(ctx, n, g)?;
    let mc = read_back(ctx, &m.typ, &m.value, g)?;
    let lc = read_back(ctx, &l.typ, &l.value, g)?;
    let rc = read_back(ctx, &r.typ, &r.value, g)?;
    Ok(
        Core::IndList(
            IndList {
                target: Box::new(nc),
                motive: Box::new(mc),
                base: Box::new(lc),
                step: Box::new(rc),
            },
        ),
    )
}

/// `(Either L R)` is a type when both sides are.
pub fn synth_either(ctx: &Ctx, r: &Renaming, l: &Core, rt: &Core, fuel: u64) -> (res: Result<
    (Core, Core),
    Error,
>)
    ensures
        res == ty::synth_either(fuel as nat, *ctx, *r, *l, *rt),
    decreases fuel, 0nat,
{
    if fuel == 0 {
        return Err(Error::OutOfFuel);
    }
    let l_out = check(ctx, r, l, &Value::Universe, fuel - 1)?;
    let r_out = check(ctx, r, rt, &Value::Universe, fuel - 1)?;
    Ok((Core::Universe, Core::Either(Box::new(l_out), Box::new(r_out))))
}

/// `ind-Either`: the motive is a family over the target's sum type, and
/// each branch maps its side into the motive.
pub fn synth_ind_either(ctx: &Ctx, r: &Renaming, w: &IndEither, fuel: u64) -> (res: Result<
    (Core, Core),
    Error,
>)
    ensures
        res == ty::synth_ind_either(fuel as nat, *ctx, *r, *w),
    decreases fuel, 0nat,
{
    if fuel == 0 {
        return Err(Error::OutOfFuel);
    }
    let g = fuel - 1;
    let (tgt_tv, tgt_out) = synth_value(ctx, r, &w.target, g)?;
    match &tgt_tv {
        Value::Either(ltv, rtv) => {
            let mot_out = check(ctx, r, &w.motive, &motive_type(Symbol::new("x"), tgt_tv.clone()), g)?;
            let mv = val_in_ctx(ctx, &mot_out, g)?;
            let l_out = check(ctx, r, &w.left, &either_branch_type((**ltv).clone(), mv.clone(), true), g)?;
            let r_out = check(ctx, r, &w.right, &either_branch_type((**rtv).clone(), mv, false), g)?;
            Ok(
                (
                    ap(mot_out.clone(), tgt_out.clone()),
                    Core::IndEither(
                        IndEither {
                            target: Box::new(tgt_out),
                            motive: Box::new(mot_out),
                            left: Box::new(l_out),
                            right: Box::new(r_out),
                        },
                    ),
                ),
            )
        },
        _ => {
            let tc = read_back_type(ctx, &tgt_tv, g)?;
            Err(Error::NotAnEitherType(tc))
        },
    }
}

/// `(left x)` against `(Either L R)`: `x` must have type `L`.
pub fn check_left(ctx: &Ctx, r: &Renaming, x: &Core, tv: &Value, fuel: u64) -> (res: Result<
    Core,
    Error,
>)
    ensures
        res == ty::check_left(fuel as nat, *ctx, *r, *x, *tv),
    decreases fuel, 0nat,
{
    if fuel == 0 {
        return Err(Error::OutOfFuel);
    }
    match tv {
        Value::Either(ltv, _) => {
            let l_out = check(ctx, r, x, ltv, fuel - 1)?;
            Ok(Core::Left(Box::new(l_out)))
        },
        _ => {
            let tc = read_back_type(ctx, tv, fuel - 1)?;
            Err(Error::NotAnEitherType(tc))
        },
    }
}

/// `(right x)` against `(Either L R)`: `x` must have type `R`.
pub fn check_right(ctx: &Ctx, r: &Renaming, x: &Core, tv: &Value, fuel: u64) -> (res: Result<
    Core,
    Error,
>)
    ensures
        res == ty::check_right(fuel as nat, *ctx, *r, *x, *tv),
    decreases fuel, 0nat,
{
    if fuel == 0 {
        return Err(Error::OutOfFuel);
    }
    match tv {
        Value::Either(_, rtv) => {
            let r_out = check(ctx, r, x, rtv, fuel - 1)?;
            Ok(Core::Right(Box::new(r_out)))
        },
        _ => {
            let tc = read_back_type(ctx, tv, fuel - 1)?;
            Err(Error::NotAnEitherType(tc))
        },
    }
}

/// `(Either L R)` elaborated as a type.
pub fn is_type_either(ctx: &Ctx, r: &Renaming, l: &Core, rt: &Core, fuel: u64) -> (res: Result<
    Core,
    Error,
>)
    ensures
        res == ty::is_type_either(fuel as nat, *ctx, *r, *l, *rt),
    decreases fuel, 0nat,
{
    if fuel == 0 {
        return Err(Error::OutOfFuel);
    }
    let l_out = is_type(ctx, r, l, fuel - 1)?;
    let r_out = is_type(ctx, r, rt, fuel - 1)?;
    Ok(Core::Either(Box::new(l_out), Box::new(r_out)))
}

impl IndEither {
    /// `ind-Either` with the given target, motive and branches.
    pub fn new(target: Core, motive: Core, left: Core, right: Core) -> (res: IndEither)
        ensures
            res == (IndEither {
                target: Box::new(target),
                motive: Box::new(motive),
                left: Box::new(left),
                right: Box::new(right),
            }),
    {
        IndEither {
            target: Box::new(target),
            motive: Box::new(motive),
            left: Box::new(left),
            right: Box::new(right),
        }
    }
}

} // verus!
