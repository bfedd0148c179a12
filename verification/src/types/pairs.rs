//! Pairs: `Σ`, `Pair`, `cons`, `car` and `cdr`.
use vstd::prelude::*;
use crate::model::eval as sem;
use crate::model::readback as rb;
use crate::model::typing as ty;
use crate::normalize::{deferred, eval, eval2, neu, read_back, read_back_neutral, read_back_type, val_in_ctx};
use crate::symbol::Symbol;
use crate::syntax::{BinderList, Core, Sigma};
use crate::typechecker::{
    check, check_with_fresh_binding, is_type, is_type_with_fresh_binding, synth, synth_value,
};
use crate::value::{Closure, Ctx, Env, Error, Neutral, Renaming, Value};

verus! {

impl Sigma {
    /// A Σ term evaluates to a Σ value whose second type is a closure.
    pub fn val_of_fuel(&self, env: &Env, fuel: u64) -> (res: Result<Value, Error>)
        ensures
            res == sem::eval_sigma(fuel as nat, *env, *self),
        decreases fuel, 0nat,
    {
        if fuel == 0 {
            return Err(Error::OutOfFuel);
        }
        let av = deferred(eval(env, &self.car_type, fuel - 1))?;
        Ok(
            Value::Sigma {
                arg_name: self.arg_name.clone(),
                car_type: Box::new(av),
                cdr_type: Box::new(
                    Closure {
                        env: env.clone(),
                        var: self.arg_name.clone(),
                        expr: (*self.cdr_type).clone(),
                    },
                ),
            },
        )
    }
}

/// `(cons a d)`.
pub fn eval_cons(env: &Env, a: &Core, d: &Core, fuel: u64) -> (res: Result<Value, Error>)
    ensures
        res == sem::eval_cons(fuel as nat, *env, *a, *d),
    decreases fuel, 0nat,
{
    if fuel == 0 {
        return Err(Error::OutOfFuel);
    }
    let (av, dv) = eval2(env, a, d, fuel - 1)?;
    Ok(Value::Cons(Box::new(av), Box::new(dv)))
}

/// `(car p)`.
pub fn eval_car(env: &Env, p: &Core, fuel: u64) -> (res: Result<Value, Error>)
    ensures
        res == sem::eval_car(fuel as nat, *env, *p),
    decreases fuel, 0nat,
{
    if fuel == 0 {
        return Err(Error::OutOfFuel);
    }
    let pv = deferred(eval(env, p, fuel - 1))?;
    do_car(pv)
}

/// `(cdr p)`.
pub fn eval_cdr(env: &Env, p: &Core, fuel: u64) -> (res: Result<Value, Error>)
    ensures
        res == sem::eval_cdr(fuel as nat, *env, *p),
    decreases fuel, 0nat,
{
    if fuel == 0 {
        return Err(Error::OutOfFuel);
    }
    let pv = deferred(eval(env, p, fuel - 1))?;
    do_cdr(pv, fuel - 1)
}

/// The first component of a pair value.
pub fn do_car(pv: Value) -> (res: Result<Value, Error>)
    ensures
        res == sem::do_car(pv),
{
    match pv {
        Value::Cons(a, _) => Ok(*a),
        Value::Neutral { type_value, kind } => match *type_value {
            Value::Sigma { car_type, .. } => Ok(neu(*car_type, Neutral::Car(kind))),
            _ => Err(Error::Stuck),
        },
        _ => Err(Error::Stuck),
    }
}

/// The second component of a pair value.
pub fn do_cdr(pv: Value, fuel: u64) -> (res: Result<Value, Error>)
    ensures
        res == sem::do_cdr(fuel as nat, pv),
    decreases fuel, 0nat,
{
    if fuel == 0 {
        return Err(Error::OutOfFuel);
    }
    match pv {
        Value::Cons(_, d) => Ok(*d),
        Value::Neutral { type_value, kind } => {
            let whole = Value::Neutral { type_value: type_value.clone(), kind: kind.clone() };
            match *type_value {
                Value::Sigma { cdr_type, .. } => {
                    let a = do_car(whole)?;
                    let dt = cdr_type.val_of(a, fuel - 1)?;
                    Ok(neu(dt, Neutral::Cdr(kind)))
                },
                _ => Err(Error::Stuck),
            }
        },
        _ => Err(Error::Stuck),
    }
}


/// η-expanding read-back at a Σ type.
pub fn read_back_sigma(ctx: &Ctx, a: &Value, d: &Closure, v: &Value, fuel: u64) -> (res: Result<
    Core,
    Error,
>)
    ensures
        res == rb::read_back_sigma(fuel as nat, *ctx, *a, *d, *v),
    decreases fuel, 0nat,
{
    if fuel == 0 {
        return Err(Error::OutOfFuel);
    }
    let g = fuel - 1;
    let the_car = do_car(v.clone())?;
    let ac = read_back(ctx, a, &the_car, g)?;
    let dt = d.val_of(the_car, g)?;
    let the_cdr = do_cdr(v.clone(), g)?;
    let dc = read_back(ctx, &dt, &the_cdr, g)?;
    Ok(Core::Cons(Box::new(ac), Box::new(dc)))
}

/// Read-back of a Σ type, with a fresh name for its variable.
pub fn read_back_type_sigma(ctx: &Ctx, x: &Symbol, a: &Value, d: &Closure, fuel: u64) -> (res:
    Result<Core, Error>)
    ensures
        res == rb::read_back_type_sigma(fuel as nat, *ctx, *x, *a, *d),
    decreases fuel, 0nat,
{
    if fuel == 0 {
        return Err(Error::OutOfFuel);
    }
    let g = fuel - 1;
    let ae = read_back_type(ctx, a, g)?;
    let x_hat = ctx.fresh(x)?;
    let dv = d.val_of(neu(a.clone(), Neutral::Var(x_hat.clone())), g)?;
    let de = read_back_type(&ctx.bind_free(x_hat.clone(), a.clone()), &dv, g)?;
    Ok(Core::Sigma(Sigma { arg_name: x_hat, car_type: Box::new(ae), cdr_type: Box::new(de) }))
}

/// Read-back of a neutral `car`.
pub fn read_back_neutral_car(ctx: &Ctx, n: &Neutral, fuel: u64) -> (res: Result<Core, Error>)
    ensures
        res == rb::read_back_neutral(fuel as nat, *ctx, Neutral::Car(Box::new(*n))),
    decreases fuel, 0nat,
{
    if fuel == 0 {
        return Err(Error::OutOfFuel);
    }
    let nc = read_back_neutral(ctx, n, fuel - 1)?;
    Ok(Core::Car(Box::new(nc)))
}

/// Read-back of a neutral `cdr`.
pub fn read_back_neutral_cdr(ctx: &Ctx, n: &Neutral, fuel: u64) -> (res: Result<Core, Error>)
    ensures
        res == rb::read_back_neutral(fuel as nat, *ctx, Neutral::Cdr(Box::new(*n))),
    decreases fuel, 0nat,
{
    if fuel == 0 {
        return Err(Error::OutOfFuel);
    }
    let nc = read_back_neutral(ctx, n, fuel - 1)?;
    Ok(Core::Cdr(Box::new(nc)))
}

/// The Σ term `(Σ ((x a)) d)`.
pub fn sigma_c(x: Symbol, a: Core, d: Core) -> (res: Core)
    ensures
        res == ty::sigma_c(x, a, d),
{
    Core::Sigma(Sigma { arg_name: x, car_type: Box::new(a), cdr_type: Box::new(d) })
}

/// `(Σ ((x A)) D)` is a type when `A` is and `D` is under `x : A`.
pub fn synth_sigma(ctx: &Ctx, r: &Renaming, s: &Sigma, fuel: u64) -> (res: Result<(Core, Core), Error>)
    ensures
        res == ty::synth_sigma(fuel as nat, *ctx, *r, *s),
    decreases fuel, 0nat,
{
    if fuel == 0 {
        return Err(Error::OutOfFuel);
    }
    let (x_hat, a_out, d_out) = check_with_fresh_binding(
        ctx,
        r,
        &s.arg_name,
        &s.car_type,
        &s.cdr_type,
        fuel - 1,
    )?;
    Ok((Core::Universe, sigma_c(x_hat, a_out, d_out)))
}

/// `(Σ ((x A) ...) D)` as nested one-binder Σ types.
pub fn synth_sigma_star(ctx: &Ctx, r: &Renaming, bs: &BinderList, d: &Core, fuel: u64) -> (res:
    Result<(Core, Core), Error>)
    ensures
        res == ty::synth_sigma_star(fuel as nat, *ctx, *r, *bs, *d),
    decreases fuel, 0nat,
{
    if fuel == 0 {
        return Err(Error::OutOfFuel);
    }
    match bs {
        BinderList::Empty => Err(Error::Stuck),
        BinderList::More(x, a, more) => match &**more {
            BinderList::Empty => synth(ctx, r, &sigma_c(x.clone(), (**a).clone(), d.clone()), fuel - 1),
            _ => {
                let (x_hat, a_out, d_out) = check_with_fresh_binding(
                    ctx,
                    r,
                    x,
                    a,
                    &Core::SigmaStar((**more).clone(), Box::new(d.clone())),
                    fuel - 1,
                )?;
                Ok((Core::Universe, sigma_c(x_hat, a_out, d_out)))
            },
        },
    }
}

/// `(Pair A D)`: a Σ type whose second part does not depend on the first.
pub fn synth_pair(ctx: &Ctx, r: &Renaming, a: &Core, d: &Core, fuel: u64) -> (res: Result<
    (Core, Core),
    Error,
>)
    ensures
        res == ty::synth_pair(fuel as nat, *ctx, *r, *a, *d),
    decreases fuel, 0nat,
{
    if fuel == 0 {
        return Err(Error::OutOfFuel);
    }
    let x = ctx.fresh(&Symbol::new("a"))?;
    let a_out = check(ctx, r, a, &Value::Universe, fuel - 1)?;
    let av = val_in_ctx(ctx, &a_out, fuel - 1)?;
    let d_out = check(&ctx.bind_free(x.clone(), av), r, d, &Value::Universe, fuel - 1)?;
    Ok((Core::Universe, sigma_c(x, a_out, d_out)))
}

/// `(car p)` has the first type of `p`'s Σ type.
pub fn synth_car(ctx: &Ctx, r: &Renaming, p: &Core, fuel: u64) -> (res: Result<(Core, Core), Error>)
    ensures
        res == ty::synth_car(fuel as nat, *ctx, *r, *p),
    decreases fuel, 0nat,
{
    if fuel == 0 {
        return Err(Error::OutOfFuel);
    }
    let g = fuel - 1;
    let (tv, p_out) = synth_value(ctx, r, p, g)?;
    match &tv {
        Value::Sigma { car_type, .. } => {
            let a = read_back_type(ctx, car_type, g)?;
            Ok((a, Core::Car(Box::new(p_out))))
        },
        _ => {
            let tc = read_back_type(ctx, &tv, g)?;
            Err(Error::NotASigmaType(tc))
        },
    }
}

/// `(cdr p)` has the second type of `p`'s Σ type at `(car p)`.
pub fn synth_cdr(ctx: &Ctx, r: &Renaming, p: &Core, fuel: u64) -> (res: Result<(Core, Core), Error>)
    ensures
        res == ty::synth_cdr(fuel as nat, *ctx, *r, *p),
    decreases fuel, 0nat,
{
    if fuel == 0 {
        return Err(Error::OutOfFuel);
    }
    let g = fuel - 1;
    let (tv, p_out) = synth_value(ctx, r, p, g)?;
    match &tv {
        Value::Sigma { cdr_type, .. } => {
            let pv = val_in_ctx(ctx, &p_out, g)?;
            let a = do_car(pv)?;
            let dt = cdr_type.val_of(a, g)?;
            let d = read_back_type(ctx, &dt, g)?;
            Ok((d, Core::Cdr(Box::new(p_out))))
        },
        _ => {
            let tc = read_back_type(ctx, &tv, g)?;
            Err(Error::NotASigmaType(tc))
        },
    }
}

/// `(cons a d)` against a Σ type.
pub fn check_cons(ctx: &Ctx, r: &Renaming, a: &Core, d: &Core, tv: &Value, fuel: u64) -> (res:
    Result<Core, Error>)
    ensures
        res == ty::check_cons(fuel as nat, *ctx, *r, *a, *d, *tv),
    decreases fuel, 0nat,
{
    if fuel == 0 {
        return Err(Error::OutOfFuel);
    }
    let g = fuel - 1;
    match tv {
        Value::Sigma { car_type, cdr_type, .. } => {
            let a_out = check(ctx, r, a, car_type, g)?;
            let av = val_in_ctx(ctx, &a_out, g)?;
            let dt = cdr_type.val_of(av, g)?;
            let d_out = check(ctx, r, d, &dt, g)?;
            Ok(Core::Cons(Box::new(a_out), Box::new(d_out)))
        },
        _ => {
            let tc = read_back_type(ctx, tv, g)?;
            Err(Error::NotASigmaType(tc))
        },
    }
}

/// A Σ term elaborated as a type.
pub fn is_type_sigma(ctx: &Ctx, r: &Renaming, s: &Sigma, fuel: u64) -> (res: Result<Core, Error>)
    ensures
        res == ty::is_type_sigma(fuel as nat, *ctx, *r, *s),
    decreases fuel, 0nat,
{
    if fuel == 0 {
        return Err(Error::OutOfFuel);
    }
    let (y, a_out, d_out) = is_type_with_fresh_binding(
        ctx,
        r,
        &s.arg_name,
        &s.car_type,
        &s.cdr_type,
        fuel - 1,
    )?;
    Ok(sigma_c(y, a_out, d_out))
}

/// `(Σ ((x A) ...) D)` elaborated as a type.
pub fn is_type_sigma_star(ctx: &Ctx, r: &Renaming, bs: &BinderList, d: &Core, fuel: u64) -> (res:
    Result<Core, Error>)
    ensures
        res == ty::is_type_sigma_star(fuel as nat, *ctx, *r, *bs, *d),
    decreases fuel, 0nat,
{
    if fuel == 0 {
        return Err(Error::OutOfFuel);
    }
    match bs {
        BinderList::Empty => Err(Error::NotSupported),
        BinderList::More(x, a, more) => match &**more {
            BinderList::Empty => is_type(ctx, r, &sigma_c(x.clone(), (**a).clone(), d.clone()), fuel - 1),
            _ => {
                let (z, a_out, d_out) = check_with_fresh_binding(
                    ctx,
                    r,
                    x,
                    a,
                    &Core::SigmaStar((**more).clone(), Box::new(d.clone())),
                    fuel - 1,
                )?;
                Ok(sigma_c(z, a_out, d_out))
            },
        },
    }
}

/// `(Pair A D)` elaborated as a type, its binder fresh for `D`.
pub fn is_type_pair(ctx: &Ctx, r: &Renaming, a: &Core, d: &Core, fuel: u64) -> (res: Result<
    Core,
    Error,
>)
    ensures
        res == ty::is_type_pair(fuel as nat, *ctx, *r, *a, *d),
    decreases fuel, 0nat,
{
    if fuel == 0 {
        return Err(Error::OutOfFuel);
    }
    let x = ctx.fresh_binder(d, &Symbol::new("x"))?;
    let a_out = is_type(ctx, r, a, fuel - 1)?;
    let av = val_in_ctx(ctx, &a_out, fuel - 1)?;
    let d_out = is_type(&ctx.bind_free(x.clone(), av), r, d, fuel - 1)?;
    Ok(sigma_c(x, a_out, d_out))
}

} // verus!
