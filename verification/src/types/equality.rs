//! Equality: `=`, `same`, `replace`, `cong` and `symm`.
use vstd::prelude::*;
use crate::model::eval as sem;
use crate::model::readback as rb;
use crate::model::typing as ty;
use crate::normalize::{deferred, eval, eval3, read_back, read_back_type, val_in_ctx};
use crate::symbol::Symbol;
use crate::syntax::{Core, Equal, Replace};
use crate::typechecker::{check, convert, is_type, same_type, synth, synth_value};
use crate::types::functions::do_ap;
use crate::types::lists::motive_type;
use crate::value::{Closure, Ctx, Env, Error, Renaming, Value};

verus! {

impl Equal {
    /// `(= A from to)` evaluates each part.
    pub fn val_of_fuel(&self, env: &Env, fuel: u64) -> (res: Result<Value, Error>)
        ensures
            res == sem::eval_equal(fuel as nat, *env, *self),
        decreases fuel, 0nat,
    {
        if fuel == 0 {
            return Err(Error::OutOfFuel);
        }
        let (tv, fv, ov) = eval3(env, &self.typ, &self.from, &self.to, fuel - 1)?;
        Ok(Value::Equal { typ: Box::new(tv), from: Box::new(fv), to: Box::new(ov) })
    }
}

/// `(same e)`.
pub fn eval_same(env: &Env, x: &Core, fuel: u64) -> (res: Result<Value, Error>)
    ensures
        res == sem::eval_same(fuel as nat, *env, *x),
    decreases fuel, 0nat,
{
    if fuel == 0 {
        return Err(Error::OutOfFuel);
    }
    let v = deferred(eval(env, x, fuel - 1))?;
    Ok(Value::Same(Box::new(v)))
}

impl Replace {
    /// Evaluates `replace`.
    pub fn val_of_fuel(&self, env: &Env, fuel: u64) -> (res: Result<Value, Error>)
        ensures
            res == sem::eval_replace(fuel as nat, *env, *self),
        decreases fuel, 0nat,
    {
        if fuel == 0 {
            return Err(Error::OutOfFuel);
        }
        let (tv, mv, bv) = eval3(env, &self.target, &self.motive, &self.base, fuel - 1)?;
        do_replace(tv, mv, bv)
    }
}

/// `(cong p T f)` after elaboration.
pub fn eval_cong2(env: &Env, p: &Core, t: &Core, g: &Core, fuel: u64) -> (res: Result<
    Value,
    Error,
>)
    ensures
        res == sem::eval_cong2(fuel as nat, *env, *p, *t, *g),
    decreases fuel, 0nat,
{
    if fuel == 0 {
        return Err(Error::OutOfFuel);
    }
    let (pv, tv, gv) = eval3(env, p, t, g, fuel - 1)?;
    do_cong(pv, tv, gv, fuel - 1)
}

/// `(symm p)`.
pub fn eval_symm(env: &Env, p: &Core, fuel: u64) -> (res: Result<Value, Error>)
    ensures
        res == sem::eval_symm(fuel as nat, *env, *p),
    decreases fuel, 0nat,
{
    if fuel == 0 {
        return Err(Error::OutOfFuel);
    }
    let pv = deferred(eval(env, p, fuel - 1))?;
    do_symm(pv)
}

/// `replace` on values: the base, when the target is `same`.
pub fn do_replace(tv: Value, mv: Value, bv: Value) -> (res: Result<Value, Error>)
    ensures
        res == sem::do_replace(tv, mv, bv),
{
    match tv {
        Value::Same(_) => Ok(bv),
        _ => Err(Error::NotSupported),
    }
}

/// `cong` on values: `(same (f x))` for `(same x)`.
pub fn do_cong(pv: Value, tv: Value, gv: Value, fuel: u64) -> (res: Result<Value, Error>)
    ensures
        res == sem::do_cong(fuel as nat, pv, tv, gv),
    decreases fuel, 0nat,
{
    if fuel == 0 {
        return Err(Error::OutOfFuel);
    }
    match pv {
        Value::Same(v) => {
            let r = do_ap(gv, *v, fuel - 1)?;
            Ok(Value::Same(Box::new(r)))
        },
        _ => Err(Error::NotSupported),
    }
}

/// `symm` on values: `(same x)` stays `(same x)`.
pub fn do_symm(pv: Value) -> (res: Result<Value, Error>)
    ensures
        res == sem::do_symm(pv),
{
    match pv {
        Value::Same(v) => Ok(Value::Same(v)),
        _ => Err(Error::NotSupported),
    }
}


/// Read-back of `(same x)` at an equality type.
pub fn read_back_same(ctx: &Ctx, a: &Value, x: &Value, fuel: u64) -> (res: Result<Core, Error>)
    ensures
        res == rb::read_back_same(fuel as nat, *ctx, *a, *x),
    decreases fuel, 0nat,
{
    if fuel == 0 {
        return Err(Error::OutOfFuel);
    }
    let c = read_back(ctx, a, x, fuel - 1)?;
    Ok(Core::Same(Box::new(c)))
}

/// Read-back of `(= A from to)` as a type.
pub fn read_back_type_equal(ctx: &Ctx, a: &Value, from: &Value, to: &Value, fuel: u64) -> (res:
    Result<Core, Error>)
    ensures
        res == rb::read_back_type_equal(fuel as nat, *ctx, *a, *from, *to),
    decreases fuel, 0nat,
{
    if fuel == 0 {
        return Err(Error::OutOfFuel);
    }
    let g = fuel - 1;
    let ac = read_back_type(ctx, a, g)?;
    let fc = read_back(ctx, a, from, g)?;
    let tc = read_back(ctx, a, to, g)?;
    Ok(Core::Equal(Equal { typ: Box::new(ac), from: Box::new(fc), to: Box::new(tc) }))
}

/// `from` and `to` checked against the type `a_out`: the elaborated
/// equality type.
pub fn equal_parts(ctx: &Ctx, r: &Renaming, q: &Equal, a_out: Core, fuel: u64) -> (res: Result<
    Core,
    Error,
>)
    ensures
        res == ty::equal_parts(fuel as nat, *ctx, *r, *q, a_out),
    decreases fuel, 0nat,
{
    if fuel == 0 {
        return Err(Error::OutOfFuel);
    }
    let g = fuel - 1;
    let av = val_in_ctx(ctx, &a_out, g)?;
    let from_out = check(ctx, r, &q.from, &av, g)?;
    let to_out = check(ctx, r, &q.to, &av, g)?;
    Ok(Core::Equal(Equal { typ: Box::new(a_out), from: Box::new(from_out), to: Box::new(to_out) }))
}

/// `(= A from to)` is a type when `A` is and both ends have type `A`.
pub fn synth_equal(ctx: &Ctx, r: &Renaming, q: &Equal, fuel: u64) -> (res: Result<(Core, Core), Error>)
    ensures
        res == ty::synth_equal(fuel as nat, *ctx, *r, *q),
    decreases fuel, 0nat,
{
    if fuel == 0 {
        return Err(Error::OutOfFuel);
    }
    let a_out = check(ctx, r, &q.typ, &Value::Universe, fuel - 1)?;
    let e_out = equal_parts(ctx, r, q, a_out, fuel - 1)?;
    Ok((Core::Universe, e_out))
}

/// `(replace target motive base)`: the target proves `from = to`, the base
/// has the motive's type at `from`, the result has it at `to`.
pub fn synth_replace(ctx: &Ctx, r: &Renaming, w: &Replace, fuel: u64) -> (res: Result<
    (Core, Core),
    Error,
>)
    ensures
        res == ty::synth_replace(fuel as nat, *ctx, *r, *w),
    decreases fuel, 0nat,
{
    if fuel == 0 {
        return Err(Error::OutOfFuel);
    }
    let g = fuel - 1;
    let (tgt_t_out, tgt_out) = synth(ctx, r, &w.target, g)?;
    let tv = val_in_ctx(ctx, &tgt_t_out, g)?;
    match &tv {
        Value::Equal { typ, from, to } => {
            let mot_out = check(ctx, r, &w.motive, &motive_type(Symbol::new("_x"), (**typ).clone()), g)?;
            let mv = val_in_ctx(ctx, &mot_out, g)?;
            let bt = do_ap(mv.clone(), (**from).clone(), g)?;
            let b_out = check(ctx, r, &w.base, &bt, g)?;
            let rt = do_ap(mv, (**to).clone(), g)?;
            let rc = read_back_type(ctx, &rt, g)?;
            Ok(
                (
                    rc,
                    Core::Replace(
                        Replace {
                            target: Box::new(tgt_out),
                            motive: Box::new(mot_out),
                            base: Box::new(b_out),
                        },
                    ),
                ),
            )
        },
        _ => Err(Error::NotAnEqualType(tgt_t_out)),
    }
}

/// `cong` once the function's argument type is known to match: the
/// equality of the function's results at both ends, and the elaborated
/// `cong`.
pub fn cong_result(
    ctx: &Ctx,
    from: &Value,
    to: &Value,
    c: &Closure,
    p_out: Core,
    g_out: Core,
    fuel: u64,
) -> (res: Result<(Core, Core), Error>)
    ensures
        res == ty::cong_result(fuel as nat, *ctx, *from, *to, *c, p_out, g_out),
{
    if fuel == 0 {
        return Err(Error::OutOfFuel);
    }
    let g = fuel - 1;
    let cv = c.val_of(from.clone(), g)?;
    let fv = val_in_ctx(ctx, &g_out, g)?;
    let ct = read_back_type(ctx, &cv, g)?;
    let fa = do_ap(fv.clone(), from.clone(), g)?;
    let c1 = read_back(ctx, &cv, &fa, g)?;
    let ta = do_ap(fv, to.clone(), g)?;
    let c2 = read_back(ctx, &cv, &ta, g)?;
    Ok(
        (
            Core::Equal(Equal { typ: Box::new(ct.clone()), from: Box::new(c1), to: Box::new(c2) }),
            Core::Cong2(Box::new(p_out), Box::new(ct), Box::new(g_out)),
        ),
    )
}

/// `(cong p f)`: `p` proves an equality and `f` is a function on its type.
pub fn synth_cong(ctx: &Ctx, r: &Renaming, p: &Core, fun: &Core, fuel: u64) -> (res: Result<
    (Core, Core),
    Error,
>)
    ensures
        res == ty::synth_cong(fuel as nat, *ctx, *r, *p, *fun),
    decreases fuel, 0nat,
{
    if fuel == 0 {
        return Err(Error::OutOfFuel);
    }
    let g = fuel - 1;
    let (p_t, p_out) = synth(ctx, r, p, g)?;
    let (f_t, f_out) = synth(ctx, r, fun, g)?;
    let p_tv = val_in_ctx(ctx, &p_t, g)?;
    let f_tv = val_in_ctx(ctx, &f_t, g)?;
    match &p_tv {
        Value::Equal { typ, from, to } => match &f_tv {
            Value::Pi { arg_type, res_type, .. } => {
                same_type(ctx, typ, arg_type, g)?;
                cong_result(ctx, from, to, res_type, p_out, f_out, g)
            },
            _ => {
                let tc = read_back_type(ctx, &f_tv, g)?;
                Err(Error::NotAFunctionType(tc))
            },
        },
        _ => {
            let tc = read_back_type(ctx, &p_tv, g)?;
            Err(Error::NotAnEqualType(tc))
        },
    }
}

/// `(symm p)` proves the equality of `p` with its ends swapped.
pub fn synth_symm(ctx: &Ctx, r: &Renaming, p: &Core, fuel: u64) -> (res: Result<(Core, Core), Error>)
    ensures
        res == ty::synth_symm(fuel as nat, *ctx, *r, *p),
    decreases fuel, 0nat,
{
    if fuel == 0 {
        return Err(Error::OutOfFuel);
    }
    let g = fuel - 1;
    let (tv, p_out) = synth_value(ctx, r, p, g)?;
    match &tv {
        Value::Equal { typ, from, to } => {
            let ac = read_back_type(ctx, typ, g)?;
            let tc = read_back(ctx, typ, to, g)?;
            let fc = read_back(ctx, typ, from, g)?;
            Ok(
                (
                    Core::Equal(Equal { typ: Box::new(ac), from: Box::new(tc), to: Box::new(fc) }),
                    Core::Symm(Box::new(p_out)),
                ),
            )
        },
        _ => {
            let tc = read_back_type(ctx, &tv, g)?;
            Err(Error::NotAnEqualType(tc))
        },
    }
}

/// `(same x)` against `(= A from to)`: `x` must have type `A` and be the
/// same as both ends.
pub fn check_same(ctx: &Ctx, r: &Renaming, x: &Core, tv: &Value, fuel: u64) -> (res: Result<
    Core,
    Error,
>)
    ensures
        res == ty::check_same(fuel as nat, *ctx, *r, *x, *tv),
    decreases fuel, 0nat,
{
    if fuel == 0 {
        return Err(Error::OutOfFuel);
    }
    let g = fuel - 1;
    match tv {
        Value::Equal { typ, from, to } => {
            let c_out = check(ctx, r, x, typ, g)?;
            let v = val_in_ctx(ctx, &c_out, g)?;
            convert(ctx, typ, from, &v, g)?;
            convert(ctx, typ, to, &v, g)?;
            Ok(Core::Same(Box::new(c_out)))
        },
        _ => {
            let tc = read_back_type(ctx, tv, g)?;
            Err(Error::NotAnEqualType(tc))
        },
    }
}

/// `(= A from to)` elaborated as a type.
pub fn is_type_equal(ctx: &Ctx, r: &Renaming, q: &Equal, fuel: u64) -> (res: Result<Core, Error>)
    ensures
        res == ty::is_type_equal(fuel as nat, *ctx, *r, *q),
    decreases fuel, 0nat,
{
    if fuel == 0 {
        return Err(Error::OutOfFuel);
    }
    let a_out = is_type(ctx, r, &q.typ, fuel - 1)?;
    equal_parts(ctx, r, q, a_out, fuel - 1)
}

} // verus!
