//! Functions: `Π`, `λ`, application, and their sugared forms `->`,
//! `Π*`, `λ*` and n-ary application.
use vstd::prelude::*;
use crate::model::eval as sem;
use crate::model::readback as rb;
use crate::model::typing as ty;
use crate::normalize::{deferred, 
    eval, eval2, neu, pi_c, read_back, read_back_neutral, read_back_type, typed, val_in_ctx,
};
use crate::symbol::Symbol;
use crate::syntax::{App, BinderList, Core, CoreList, Lambda, Pi, SymbolList};
use crate::typechecker::{
    check, check_with_fresh_binding, is_type, is_type_with_fresh_binding, synth,
};
use crate::value::{Closure, Ctx, Env, Error, Neutral, Renaming, Typed, Value};

verus! {

/// Function application on values: a λ's body with its variable bound to
/// the argument, or a neutral application for a neutral function.
pub fn do_ap(rator: Value, rand: Value, fuel: u64) -> (res: Result<Value, Error>)
    ensures
        res == sem::do_ap(fuel as nat, rator, rand),
    decreases fuel, 0nat,
{
    if fuel == 0 {
        return Err(Error::OutOfFuel);
    }
    match rator {
        Value::Lambda { body, .. } => body.val_of(rand, fuel - 1),
        Value::Neutral { type_value, kind } => match *type_value {
            Value::Pi { arg_type, res_type, .. } => {
                let rt = res_type.val_of(rand.clone(), fuel - 1)?;
                Ok(neu(rt, Neutral::App(kind, typed(*arg_type, rand))))
            },
            _ => Err(Error::NotSupported),
        },
        _ => Err(Error::Stuck),
    }
}

impl Pi {
    /// A Π term evaluates to a Π value whose result type is a closure.
    pub fn val_of_fuel(&self, env: &Env, fuel: u64) -> (res: Result<Value, Error>)
        ensures
            res == sem::eval_pi(fuel as nat, *env, *self),
        decreases fuel, 0nat,
    {
        if fuel == 0 {
            return Err(Error::OutOfFuel);
        }
        let av = deferred(eval(env, &self.arg_type, fuel - 1))?;
        Ok(
            Value::Pi {
                arg_name: self.arg_name.clone(),
                arg_type: Box::new(av),
                res_type: Box::new(
                    Closure {
                        env: env.clone(),
                        var: self.arg_name.clone(),
                        expr: (*self.res_type).clone(),
                    },
                ),
            },
        )
    }
}

impl Lambda {
    /// A λ with the given parameter and body.
    pub fn new(arg_name: crate::symbol::Symbol, body: Core) -> (res: Lambda)
        ensures
            res == (Lambda { arg_name, body: Box::new(body) }),
    {
        Lambda { arg_name, body: Box::new(body) }
    }

    /// A λ evaluates to a closure over its environment.
    pub fn val_of(&self, env: &Env) -> (res: Value)
        ensures
            sem::eval(0, *env, Core::Lambda(*self)) == Ok::<Value, Error>(res),
    {
        Value::Lambda {
            arg_name: self.arg_name.clone(),
            body: Box::new(
                Closure { env: env.clone(), var: self.arg_name.clone(), expr: (*self.body).clone() },
            ),
        }
    }
}

impl App {
    /// Application of the function's value to the argument's value.
    pub fn val_of_fuel(&self, env: &Env, fuel: u64) -> (res: Result<Value, Error>)
        ensures
            res == sem::eval_app(fuel as nat, *env, *self),
        decreases fuel, 0nat,
    {
        if fuel == 0 {
            return Err(Error::OutOfFuel);
        }
        let (fv, av) = eval2(env, &self.fun, &self.arg, fuel - 1)?;
        do_ap(fv, av, fuel - 1)
    }
}

/// `(f a b ...)`: the value of `f` applied to the arguments one at a time.
pub fn eval_app_star(env: &Env, g: &Core, args: &CoreList, fuel: u64) -> (res: Result<
    Value,
    Error,
>)
    ensures
        res == sem::eval_app_star(fuel as nat, *env, *g, *args),
    decreases fuel, 0nat,
{
    if fuel == 0 {
        return Err(Error::OutOfFuel);
    }
    let gv = deferred(eval(env, g, fuel - 1))?;
    apply_all(env, gv, args, fuel - 1)
}

/// Applies `fv` to the values of `args`, left to right.
pub fn apply_all(env: &Env, fv: Value, args: &CoreList, fuel: u64) -> (res: Result<Value, Error>)
    ensures
        res == sem::apply_all(fuel as nat, *env, fv, *args),
    decreases fuel, 0nat,
{
    if fuel == 0 {
        return Err(Error::OutOfFuel);
    }
    match args {
        CoreList::Empty => Ok(fv),
        CoreList::More(a, rest) => {
            let av = deferred(eval(env, a, fuel - 1))?;
            let r = do_ap(fv, av, fuel - 1)?;
            apply_all(env, r, rest, fuel - 1)
        },
    }
}


/// η-expanding read-back at a Π type.
pub fn read_back_pi(
    ctx: &Ctx,
    x: &Symbol,
    a: &Value,
    b: &Closure,
    v: &Value,
    fuel: u64,
) -> (res: Result<Core, Error>)
    ensures
        res == rb::read_back_pi(fuel as nat, *ctx, *x, *a, *b, *v),
    decreases fuel, 0nat,
{
    if fuel == 0 {
        return Err(Error::OutOfFuel);
    }
    let g = fuel - 1;
    let y = match v {
        Value::Lambda { arg_name, .. } => arg_name.clone(),
        _ => x.clone(),
    };
    let x_hat = ctx.fresh(&y)?;
    let var = neu(a.clone(), Neutral::Var(x_hat.clone()));
    let rt = b.val_of(var.clone(), g)?;
    let app = do_ap(v.clone(), var, g)?;
    let body = read_back(&ctx.bind_free(x_hat.clone(), a.clone()), &rt, &app, g)?;
    Ok(Core::Lambda(Lambda { arg_name: x_hat, body: Box::new(body) }))
}

/// Read-back of a Π type, with a fresh name for its variable.
pub fn read_back_type_pi(ctx: &Ctx, x: &Symbol, a: &Value, b: &Closure, fuel: u64) -> (res:
    Result<Core, Error>)
    ensures
        res == rb::read_back_type_pi(fuel as nat, *ctx, *x, *a, *b),
    decreases fuel, 0nat,
{
    if fuel == 0 {
        return Err(Error::OutOfFuel);
    }
    let g = fuel - 1;
    let ae = read_back_type(ctx, a, g)?;
    let x_hat = ctx.fresh(x)?;
    let bv = b.val_of(neu(a.clone(), Neutral::Var(x_hat.clone())), g)?;
    let be = read_back_type(&ctx.bind_free(x_hat.clone(), a.clone()), &bv, g)?;
    Ok(Core::Pi(Pi { arg_name: x_hat, arg_type: Box::new(ae), res_type: Box::new(be) }))
}

/// Read-back of a neutral application.
pub fn read_back_neutral_app(ctx: &Ctx, n: &Neutral, a: &Typed, fuel: u64) -> (res: Result<
    Core,
    Error,
>)
    ensures
        res == rb::read_back_neutral(fuel as nat, *ctx, Neutral::App(Box::new(*n), Box::new(*a))),
    decreases fuel, 0nat,
{
    if fuel == 0 {
        return Err(Error::OutOfFuel);
    }
    let nc = read_back_neutral(ctx, n, fuel - 1)?;
    let ac = read_back(ctx, &a.typ, &a.value, fuel - 1)?;
    Ok(Core::App(App { fun: Box::new(nc), arg: Box::new(ac) }))
}

/// `(-> A B ...)`: the binder for `A` is fresh for the rest of the arrow,
/// and each part is checked against `U`.
pub fn synth_fun(ctx: &Ctx, r: &Renaming, ts: &CoreList, fuel: u64) -> (res: Result<
    (Core, Core),
    Error,
>)
    ensures
        res == ty::synth_fun(fuel as nat, *ctx, *r, *ts),
    decreases fuel, 0nat,
{
    if fuel == 0 {
        return Err(Error::OutOfFuel);
    }
    match ts {
        CoreList::More(a, rest) => match &**rest {
            CoreList::More(b, cs) => {
                let binder_src = match &**cs {
                    CoreList::Empty => (**b).clone(),
                    _ => Core::AppStar(Box::new((**b).clone()), (**cs).clone()),
                };
                let res_src = match &**cs {
                    CoreList::Empty => (**b).clone(),
                    _ => Core::Fun(CoreList::More(Box::new((**b).clone()), Box::new((**cs).clone()))),
                };
                let z = ctx.fresh_binder(&binder_src, &Symbol::new("x"))?;
                let a_out = check(ctx, r, a, &Value::Universe, fuel - 1)?;
                let av = val_in_ctx(ctx, &a_out, fuel - 1)?;
                let b_out = check(&ctx.bind_free(z.clone(), av), r, &res_src, &Value::Universe, fuel - 1)?;
                Ok((Core::Universe, pi_c(z, a_out, b_out)))
            },
            CoreList::Empty => Err(Error::NotSupported),
        },
        CoreList::Empty => Err(Error::NotSupported),
    }
}

/// `(Π ((x A)) B)` is a type when `A` is and `B` is under `x : A`; `x` is
/// renamed apart from the context.
pub fn synth_pi(ctx: &Ctx, r: &Renaming, p: &Pi, fuel: u64) -> (res: Result<(Core, Core), Error>)
    ensures
        res == ty::synth_pi(fuel as nat, *ctx, *r, *p),
    decreases fuel, 0nat,
{
    if fuel == 0 {
        return Err(Error::OutOfFuel);
    }
    let (x_hat, a_out, b_out) = check_with_fresh_binding(
        ctx,
        r,
        &p.arg_name,
        &p.arg_type,
        &p.res_type,
        fuel - 1,
    )?;
    Ok((Core::Universe, pi_c(x_hat, a_out, b_out)))
}

/// `(f a ...)`: the function is synthesized, then applied to each argument
/// in turn.
pub fn synth_app_star(ctx: &Ctx, r: &Renaming, g: &Core, args: &CoreList, fuel: u64) -> (res:
    Result<(Core, Core), Error>)
    ensures
        res == ty::synth_app_star(fuel as nat, *ctx, *r, *g, *args),
    decreases fuel, 0nat,
{
    if fuel == 0 {
        return Err(Error::OutOfFuel);
    }
    let (t, g_out) = synth(ctx, r, g, fuel - 1)?;
    apply_args(ctx, r, t, g_out, args, fuel - 1)
}

/// Applies the elaborated function `rator_out` of type `t` to `args`: each
/// argument is checked against the argument type and the result type is
/// instantiated with its value.
pub fn apply_args(ctx: &Ctx, r: &Renaming, t: Core, rator_out: Core, args: &CoreList, fuel: u64) -> (res:
    Result<(Core, Core), Error>)
    ensures
        res == ty::apply_args(fuel as nat, *ctx, *r, t, rator_out, *args),
    decreases fuel, 0nat,
{
    if fuel == 0 {
        return Err(Error::OutOfFuel);
    }
    let g = fuel - 1;
    match args {
        CoreList::Empty => Ok((t, rator_out)),
        CoreList::More(a, rest) => {
            let tv = val_in_ctx(ctx, &t, g)?;
            match &tv {
                Value::Pi { arg_type, res_type, .. } => {
                    let a_out = check(ctx, r, a, arg_type, g)?;
                    let av = val_in_ctx(ctx, &a_out, g)?;
                    let rt = res_type.val_of(av, g)?;
                    let t2 = read_back_type(ctx, &rt, g)?;
                    apply_args(ctx, r, t2, Core::App(App { fun: Box::new(rator_out), arg: Box::new(a_out) }), rest, g)
                },
                _ => {
                    let tc = read_back_type(ctx, &tv, g)?;
                    Err(Error::NotAFunctionType(tc))
                },
            }
        },
    }
}

/// `λ` against a Π type: the body is checked against the result type at a
/// fresh variable.
pub fn check_lambda(ctx: &Ctx, r: &Renaming, l: &Lambda, tv: &Value, fuel: u64) -> (res: Result<
    Core,
    Error,
>)
    ensures
        res == ty::check_lambda(fuel as nat, *ctx, *r, *l, *tv),
    decreases fuel, 0nat,
{
    if fuel == 0 {
        return Err(Error::OutOfFuel);
    }
    let g = fuel - 1;
    match tv {
        Value::Pi { arg_type, res_type, .. } => {
            let x_hat = ctx.fresh(&l.arg_name)?;
            let bt = res_type.val_of(neu((**arg_type).clone(), Neutral::Var(x_hat.clone())), g)?;
            let b_out = check(
                &ctx.bind_free(x_hat.clone(), (**arg_type).clone()),
                &r.extend(l.arg_name.clone(), x_hat.clone()),
                &l.body,
                &bt,
                g,
            )?;
            Ok(Core::Lambda(Lambda { arg_name: x_hat, body: Box::new(b_out) }))
        },
        _ => {
            let tc = read_back_type(ctx, tv, g)?;
            Err(Error::NotAFunctionType(tc))
        },
    }
}

/// `(λ (x y ...) b)` checks as nested one-argument λs.
pub fn check_lambda_star(ctx: &Ctx, r: &Renaming, ps: &SymbolList, b: &Core, tv: &Value, fuel: u64) -> (res:
    Result<Core, Error>)
    ensures
        res == ty::check_lambda_star(fuel as nat, *ctx, *r, *ps, *b, *tv),
    decreases fuel, 0nat,
{
    if fuel == 0 {
        return Err(Error::OutOfFuel);
    }
    match ps {
        SymbolList::Empty => Err(Error::NotSupported),
        SymbolList::More(x, rest) => match &**rest {
            SymbolList::Empty => check_lambda(
                ctx,
                r,
                &Lambda { arg_name: x.clone(), body: Box::new(b.clone()) },
                tv,
                fuel - 1,
            ),
            _ => check_lambda(
                ctx,
                r,
                &Lambda {
                    arg_name: x.clone(),
                    body: Box::new(Core::LambdaStar((**rest).clone(), Box::new(b.clone()))),
                },
                tv,
                fuel - 1,
            ),
        },
    }
}

/// A Π term elaborated as a type.
pub fn is_type_pi(ctx: &Ctx, r: &Renaming, p: &Pi, fuel: u64) -> (res: Result<Core, Error>)
    ensures
        res == ty::is_type_pi(fuel as nat, *ctx, *r, *p),
    decreases fuel, 0nat,
{
    if fuel == 0 {
        return Err(Error::OutOfFuel);
    }
    let (y, a_out, b_out) = is_type_with_fresh_binding(
        ctx,
        r,
        &p.arg_name,
        &p.arg_type,
        &p.res_type,
        fuel - 1,
    )?;
    Ok(pi_c(y, a_out, b_out))
}

/// `(Π ((x A) ...) B)` elaborated as nested one-binder Π types.
pub fn is_type_pi_star(ctx: &Ctx, r: &Renaming, bs: &BinderList, res: &Core, fuel: u64) -> (out:
    Result<Core, Error>)
    ensures
        out == ty::is_type_pi_star(fuel as nat, *ctx, *r, *bs, *res),
    decreases fuel, 0nat,
{
    if fuel == 0 {
        return Err(Error::OutOfFuel);
    }
    match bs {
        BinderList::Empty => Err(Error::NotSupported),
        BinderList::More(x, a, more) => {
            let body = match &**more {
                BinderList::Empty => res.clone(),
                _ => Core::PiStar((**more).clone(), Box::new(res.clone())),
            };
            let (z, a_out, b_out) = is_type_with_fresh_binding(ctx, r, x, a, &body, fuel - 1)?;
            Ok(pi_c(z, a_out, b_out))
        },
    }
}

/// `(-> A B ...)` elaborated as a Π type.
pub fn is_type_fun(ctx: &Ctx, r: &Renaming, ts: &CoreList, fuel: u64) -> (res: Result<Core, Error>)
    ensures
        res == ty::is_type_fun(fuel as nat, *ctx, *r, *ts),
    decreases fuel, 0nat,
{
    if fuel == 0 {
        return Err(Error::OutOfFuel);
    }
    match ts {
        CoreList::More(a, rest) => match &**rest {
            CoreList::More(b, cs) => {
                let binder_src = match &**cs {
                    CoreList::Empty => (**b).clone(),
                    _ => Core::AppStar(Box::new((**b).clone()), (**cs).clone()),
                };
                let res_src = match &**cs {
                    CoreList::Empty => (**b).clone(),
                    _ => Core::Fun(CoreList::More(Box::new((**b).clone()), Box::new((**cs).clone()))),
                };
                let x = ctx.fresh_binder(&binder_src, &Symbol::new("x"))?;
                let a_out = is_type(ctx, r, a, fuel - 1)?;
                let av = val_in_ctx(ctx, &a_out, fuel - 1)?;
                let b_out = is_type(&ctx.bind_free(x.clone(), av), r, &res_src, fuel - 1)?;
                Ok(pi_c(x, a_out, b_out))
            },
            CoreList::Empty => Err(Error::NotSupported),
        },
        CoreList::Empty => Err(Error::NotSupported),
    }
}

} // verus!
