//! Vectors: `Vec`, `vecnil`, `vec::`, `head`, `tail` and `ind-Vec`.
use vstd::prelude::*;
use crate::model::eval as sem;
use crate::model::readback as rb;
use crate::model::typing as ty;
use crate::normalize::{deferred, 
    ap, capture, capture2, captured, captured2, eval, eval2, eval4, neu, pi_c, pi_v, read_back,
    read_back_neutral, read_back_type, rf, typed, val_in_ctx,
};
use crate::symbol::Symbol;
use crate::syntax::{Core, IndVec};
use crate::typechecker::{check, convert, is_type, synth_value};
use crate::types::functions::do_ap;
use crate::value::{Ctx, Env, Error, Neutral, Renaming, Typed, Value};

verus! {

/// `(Vec E n)`.
pub fn eval_vector(env: &Env, t: &Core, n: &Core, fuel: u64) -> (res: Result<Value, Error>)
    ensures
        res == sem::eval_vector(fuel as nat, *env, *t, *n),
    decreases fuel, 0nat,
{
    if fuel == 0 {
        return Err(Error::OutOfFuel);
    }
    let (tv, nv) = eval2(env, t, n, fuel - 1)?;
    Ok(Value::Vector(Box::new(tv), Box::new(nv)))
}

/// `(vec:: h t)`.
pub fn eval_vector_cons(env: &Env, h: &Core, t: &Core, fuel: u64) -> (res: Result<Value, Error>)
    ensures
        res == sem::eval_vector_cons(fuel as nat, *env, *h, *t),
    decreases fuel, 0nat,
{
    if fuel == 0 {
        return Err(Error::OutOfFuel);
    }
    let (hv, tv) = eval2(env, h, t, fuel - 1)?;
    Ok(Value::VectorCons(Box::new(hv), Box::new(tv)))
}

/// `(head v)`.
pub fn eval_head(env: &Env, v: &Core, fuel: u64) -> (res: Result<Value, Error>)
    ensures
        res == sem::eval_head(fuel as nat, *env, *v),
    decreases fuel, 0nat,
{
    if fuel == 0 {
        return Err(Error::OutOfFuel);
    }
    let vv = deferred(eval(env, v, fuel - 1))?;
    do_head(vv)
}

/// `(tail v)`.
pub fn eval_tail(env: &Env, v: &Core, fuel: u64) -> (res: Result<Value, Error>)
    ensures
        res == sem::eval_tail(fuel as nat, *env, *v),
    decreases fuel, 0nat,
{
    if fuel == 0 {
        return Err(Error::OutOfFuel);
    }
    let vv = deferred(eval(env, v, fuel - 1))?;
    do_tail(vv)
}

/// The first entry of a non-empty vector value.
pub fn do_head(v: Value) -> (res: Result<Value, Error>)
    ensures
        res == sem::do_head(v),
{
    match v {
        Value::VectorCons(h, _) => Ok(*h),
        Value::Neutral { type_value, kind } => match *type_value {
            Value::Vector(etv, lenv) => match *lenv {
                Value::Add1(_) => Ok(neu(*etv, Neutral::Head(kind))),
                _ => Err(Error::Stuck),
            },
            _ => Err(Error::Stuck),
        },
        _ => Err(Error::Stuck),
    }
}

/// All but the first entry of a non-empty vector value.
pub fn do_tail(v: Value) -> (res: Result<Value, Error>)
    ensures
        res == sem::do_tail(v),
{
    match v {
        Value::VectorCons(_, t) => Ok(*t),
        Value::Neutral { type_value, kind } => match *type_value {
            Value::Vector(etv, lenv) => match *lenv {
                Value::Add1(l) => Ok(neu(Value::Vector(etv, l), Neutral::Tail(kind))),
                _ => Err(Error::Stuck),
            },
            _ => Err(Error::Stuck),
        },
        _ => Err(Error::Stuck),
    }
}

/// `(Π ((k Nat)) (Π ((es (Vec E k))) U))`.
pub fn ind_vec_motive_type(etv: Value) -> (res: Value)
    ensures
        res == sem::ind_vec_motive_type(etv),
{
    let k = Symbol::new("k");
    let body = pi_c(
        Symbol::new("es"),
        Core::Vector(Box::new(rf(captured())), Box::new(rf(k.clone()))),
        Core::Universe,
    );
    pi_v(k.clone(), Value::Nat, capture(k, etv, body))
}

/// The type of `ind-Vec`'s step for element type `etv` and motive `mv`.
pub fn ind_vec_step_type(etv: Value, mv: Value) -> (res: Value)
    ensures
        res == sem::ind_vec_step_type(etv, mv),
{
    let k = Symbol::new("k");
    let e = Symbol::new("e");
    let es = Symbol::new("es");
    let body = pi_c(
        e.clone(),
        rf(captured()),
        pi_c(
            es.clone(),
            Core::Vector(Box::new(rf(captured())), Box::new(rf(k.clone()))),
            pi_c(
                Symbol::new("ih"),
                ap(ap(rf(captured2()), rf(k.clone())), rf(es.clone())),
                ap(
                    ap(rf(captured2()), Core::Add1(Box::new(rf(k.clone())))),
                    Core::VectorCons(Box::new(rf(e)), Box::new(rf(es))),
                ),
            ),
        ),
    );
    pi_v(k.clone(), Value::Nat, capture2(k, etv, mv, body))
}

/// `ind-Vec` on values.
pub fn do_ind_vec(lv: Value, vv: Value, mv: Value, bv: Value, sv: Value, fuel: u64) -> (res:
    Result<Value, Error>)
    ensures
        res == sem::do_ind_vec(fuel as nat, lv, vv, mv, bv, sv),
    decreases fuel, 0nat,
{
    if fuel == 0 {
        return Err(Error::OutOfFuel);
    }
    let g = fuel - 1;
    match (&lv, &vv) {
        (Value::Zero, Value::VecNil) => { return Ok(bv); },
        (Value::Add1(l), Value::VectorCons(h, t)) => {
            let s1 = do_ap(sv.clone(), (**l).clone(), g)?;
            let s2 = do_ap(s1, (**h).clone(), g)?;
            let s3 = do_ap(s2, (**t).clone(), g)?;
            let r = do_ind_vec((**l).clone(), (**t).clone(), mv, bv, sv, g)?;
            return do_ap(s3, r, g);
        },
        _ => {},
    }
    match &vv {
        Value::Neutral { type_value, kind } => match &**type_value {
            Value::Vector(etv, _) => do_ind_vec_neutral(
                lv.clone(),
                vv.clone(),
                (**kind).clone(),
                (**etv).clone(),
                mv,
                bv,
                sv,
                g,
            ),
            _ => Err(Error::Stuck),
        },
        _ => Err(Error::Stuck),
    }
}

/// `ind-Vec` on a neutral vector with element type `etv`.
pub fn do_ind_vec_neutral(
    lv: Value,
    vv: Value,
    ne: Neutral,
    etv: Value,
    mv: Value,
    bv: Value,
    sv: Value,
    fuel: u64,
) -> (res: Result<Value, Error>)
    ensures
        res == sem::do_ind_vec_neutral(fuel as nat, lv, vv, ne, etv, mv, bv, sv),
    decreases fuel, 0nat,
{
    if fuel == 0 {
        return Err(Error::OutOfFuel);
    }
    let g = fuel - 1;
    let m1 = do_ap(mv.clone(), lv.clone(), g)?;
    let t_out = do_ap(m1, vv, g)?;
    let m0 = do_ap(mv.clone(), Value::Zero, g)?;
    let bt = do_ap(m0, Value::VecNil, g)?;
    let m_out = typed(ind_vec_motive_type(etv.clone()), mv.clone());
    let b_out = typed(bt, bv);
    let s_out = typed(ind_vec_step_type(etv, mv), sv);
    match &lv {
        Value::Neutral { type_value: ltv, kind: lne } => {
            if let Value::Nat = &**ltv {
                return Ok(
                    neu(t_out, Neutral::IndVec12((*lne).clone(), Box::new(ne), m_out, b_out, s_out)),
                );
            }
        },
        _ => {},
    }
    Ok(neu(t_out, Neutral::IndVec2(typed(Value::Nat, lv), Box::new(ne), m_out, b_out, s_out)))
}

impl IndVec {
    /// Evaluates `ind-Vec`.
    pub fn val_of_fuel(&self, env: &Env, fuel: u64) -> (res: Result<Value, Error>)
        ensures
            res == sem::eval_ind_vec(fuel as nat, *env, *self),
        decreases fuel, 0nat,
    {
        if fuel == 0 {
            return Err(Error::OutOfFuel);
        }
        let lv = deferred(eval(env, &self.len, fuel - 1))?;
        let (tv, mv, bv, sv) = eval4(
            env,
            &self.target,
            &self.motive,
            &self.base,
            &self.step,
            fuel - 1,
        )?;
        do_ind_vec(lv, tv, mv, bv, sv, fuel - 1)
    }
}


/// Read-back at `(Vec E len)`.
pub fn read_back_vector(ctx: &Ctx, etv: &Value, len: &Value, v: &Value, fuel: u64) -> (res:
    Result<Core, Error>)
    ensures
        res == rb::read_back_vector(fuel as nat, *ctx, *etv, *len, *v),
    decreases fuel, 0nat,
{
    if fuel == 0 {
        return Err(Error::OutOfFuel);
    }
    let g = fuel - 1;
    match (len, v) {
        (Value::Zero, Value::VecNil) => Ok(Core::VecNil),
        (Value::Add1(l), Value::VectorCons(h, t)) => {
            let hc = read_back(ctx, etv, h, g)?;
            let tc = read_back(
                ctx,
                &Value::Vector(Box::new(etv.clone()), Box::new((**l).clone())),
                t,
                g,
            )?;
            Ok(Core::VectorCons(Box::new(hc), Box::new(tc)))
        },
        _ => Err(
            Error::TypeMismatchVar(
                v.clone(),
                Value::Vector(Box::new(etv.clone()), Box::new(len.clone())),
            ),
        ),
    }
}

/// Read-back of `(Vec E len)` as a type.
pub fn read_back_type_vector(ctx: &Ctx, etv: &Value, len: &Value, fuel: u64) -> (res: Result<
    Core,
    Error,
>)
    ensures
        res == rb::read_back_type_vector(fuel as nat, *ctx, *etv, *len),
    decreases fuel, 0nat,
{
    if fuel == 0 {
        return Err(Error::OutOfFuel);
    }
    let ec = read_back_type(ctx, etv, fuel - 1)?;
    let lc = read_back(ctx, &Value::Nat, len, fuel - 1)?;
    Ok(Core::Vector(Box::new(ec), Box::new(lc)))
}

/// Read-back of a neutral `head`.
pub fn read_back_neutral_head(ctx: &Ctx, n: &Neutral, fuel: u64) -> (res: Result<Core, Error>)
    ensures
        res == rb::read_back_neutral(fuel as nat, *ctx, Neutral::Head(Box::new(*n))),
    decreases fuel, 0nat,
{
    if fuel == 0 {
        return Err(Error::OutOfFuel);
    }
    let nc = read_back_neutral(ctx, n, fuel - 1)?;
    Ok(Core::Head(Box::new(nc)))
}

/// Read-back of a neutral `tail`.
pub fn read_back_neutral_tail(ctx: &Ctx, n: &Neutral, fuel: u64) -> (res: Result<Core, Error>)
    ensures
        res == rb::read_back_neutral(fuel as nat, *ctx, Neutral::Tail(Box::new(*n))),
    decreases fuel, 0nat,
{
    if fuel == 0 {
        return Err(Error::OutOfFuel);
    }
    let nc = read_back_neutral(ctx, n, fuel - 1)?;
    Ok(Core::Tail(Box::new(nc)))
}

/// Read-back of `ind-Vec` stuck on a neutral length and a neutral vector.
pub fn read_back_neutral_ind_vec12(
    ctx: &Ctx,
    l: &Neutral,
    es: &Neutral,
    m: &Typed,
    b: &Typed,
    s: &Typed,
    fuel: u64,
) -> (res: Result<Core, Error>)
    ensures
        res == rb::read_back_neutral(
            fuel as nat,
            *ctx,
            Neutral::IndVec12(Box::new(*l), Box::new(*es), Box::new(*m), Box::new(*b), Box::new(*s)),
        ),
    decreases fuel, 0nat,
{
    if fuel == 0 {
        return Err(Error::OutOfFuel);
    }
    let g = fuel - 1;
    let lc = read_back_neutral(ctx, l, g)?;
    let ec = read_back_neutral(ctx, es, g)?;
    let mc = read_back(ctx, &m.typ, &m.value, g)?;
    let bc = read_back(ctx, &b.typ, &b.value, g)?;
    let sc = read_back(ctx, &s.typ, &s.value, g)?;
    Ok(
        Core::IndVec(
            IndVec {
                len: Box::new(lc),
                target: Box::new(ec),
                motive: Box::new(mc),
                base: Box::new(bc),
                step: Box::new(sc),
            },
        ),
    )
}

/// `(Vec E n)` is a type when `E` is a type and `n` a `Nat`.
pub fn synth_vector(ctx: &Ctx, r: &Renaming, t: &Core, n: &Core, fuel: u64) -> (res: Result<
    (Core, Core),
    Error,
>)
    ensures
        res == ty::synth_vector(fuel as nat, *ctx, *r, *t, *n),
    decreases fuel, 0nat,
{
    if fuel == 0 {
        return Err(Error::OutOfFuel);
    }
    let e_out = check(ctx, r, t, &Value::Universe, fuel - 1)?;
    let len_out = check(ctx, r, n, &Value::Nat, fuel - 1)?;
    Ok((Core::Universe, Core::Vector(Box::new(e_out), Box::new(len_out))))
}

/// The entry type and the predecessor of the length of a vector type whose
/// length is an `add1`; otherwise the error that says why not.
pub fn expect_non_empty_vec(ctx: &Ctx, tv: &Value, fuel: u64) -> (res: Result<(Value, Value), Error>)
    ensures
        res == ty::expect_non_empty_vec(fuel as nat, *ctx, *tv),
{
    if fuel == 0 {
        return Err(Error::OutOfFuel);
    }
    let g = fuel - 1;
    match tv {
        Value::Vector(etv, len) => match &**len {
            Value::Add1(l) => Ok(((**etv).clone(), (**l).clone())),
            _ => {
                let lc = read_back(ctx, &Value::Nat, len, g)?;
                Err(Error::LengthZero(lc))
            },
        },
        _ => {
            let tc = read_back_type(ctx, tv, g)?;
            Err(Error::NotAVecType(tc))
        },
    }
}

/// `(head es)` has the entry type of a non-empty vector.
pub fn synth_head(ctx: &Ctx, r: &Renaming, v: &Core, fuel: u64) -> (res: Result<(Core, Core), Error>)
    ensures
        res == ty::synth_head(fuel as nat, *ctx, *r, *v),
    decreases fuel, 0nat,
{
    if fuel == 0 {
        return Err(Error::OutOfFuel);
    }
    let g = fuel - 1;
    let (es_tv, es_out) = synth_value(ctx, r, v, g)?;
    let (etv, _) = expect_non_empty_vec(ctx, &es_tv, g)?;
    let et = read_back_type(ctx, &etv, g)?;
    Ok((et, Core::Head(Box::new(es_out))))
}

/// `(tail es)` is a vector one shorter than the non-empty `es`.
pub fn synth_tail(ctx: &Ctx, r: &Renaming, v: &Core, fuel: u64) -> (res: Result<(Core, Core), Error>)
    ensures
        res == ty::synth_tail(fuel as nat, *ctx, *r, *v),
    decreases fuel, 0nat,
{
    if fuel == 0 {
        return Err(Error::OutOfFuel);
    }
    let g = fuel - 1;
    let (es_tv, es_out) = synth_value(ctx, r, v, g)?;
    let (etv, l1) = expect_non_empty_vec(ctx, &es_tv, g)?;
    let et = read_back_type(ctx, &etv, g)?;
    let lc = read_back(ctx, &Value::Nat, &l1, g)?;
    Ok((Core::Vector(Box::new(et), Box::new(lc)), Core::Tail(Box::new(es_out))))
}

/// The motive, base and step of `ind-Vec`, checked for entry type `etv`.
pub fn ind_vec_parts(ctx: &Ctx, r: &Renaming, w: &IndVec, etv: &Value, fuel: u64) -> (res: Result<
    (Core, Core, Core),
    Error,
>)
    ensures
        res == ty::ind_vec_parts(fuel as nat, *ctx, *r, *w, *etv),
    decreases fuel, 0nat,
{
    if fuel == 0 {
        return Err(Error::OutOfFuel);
    }
    let g = fuel - 1;
    let mot_out = check(ctx, r, &w.motive, &ind_vec_motive_type(etv.clone()), g)?;
    let mv = val_in_ctx(ctx, &mot_out, g)?;
    let m0 = do_ap(mv.clone(), Value::Zero, g)?;
    let bt = do_ap(m0, Value::VecNil, g)?;
    let b_out = check(ctx, r, &w.base, &bt, g)?;
    let s_out = check(ctx, r, &w.step, &ind_vec_step_type(etv.clone(), mv), g)?;
    Ok((mot_out, b_out, s_out))
}

/// `ind-Vec`: the length must match the target's type, and the result type
/// is the motive at the length and the target.
pub fn synth_ind_vec(ctx: &Ctx, r: &Renaming, w: &IndVec, fuel: u64) -> (res: Result<
    (Core, Core),
    Error,
>)
    ensures
        res == ty::synth_ind_vec(fuel as nat, *ctx, *r, *w),
    decreases fuel, 0nat,
{
    if fuel == 0 {
        return Err(Error::OutOfFuel);
    }
    let g = fuel - 1;
    let len_out = check(ctx, r, &w.len, &Value::Nat, g)?;
    let len_v = val_in_ctx(ctx, &len_out, g)?;
    let (vec_tv, vec_out) = synth_value(ctx, r, &w.target, g)?;
    match &vec_tv {
        Value::Vector(etv, len2) => {
            convert(ctx, &Value::Nat, &len_v, len2, g)?;
            let (mot_out, b_out, s_out) = ind_vec_parts(ctx, r, w, etv, g)?;
            Ok(
                (
                    ap(ap(mot_out.clone(), len_out.clone()), vec_out.clone()),
                    Core::IndVec(
                        IndVec {
                            len: Box::new(len_out),
                            target: Box::new(vec_out),
                            motive: Box::new(mot_out),
                            base: Box::new(b_out),
                            step: Box::new(s_out),
                        },
                    ),
                ),
            )
        },
        _ => {
            let tc = read_back_type(ctx, &vec_tv, g)?;
            Err(Error::NotAVecType(tc))
        },
    }
}

/// `vecnil` checks against vector types of length `zero`.
pub fn check_vecnil(ctx: &Ctx, tv: &Value, fuel: u64) -> (res: Result<Core, Error>)
    ensures
        res == ty::check_vecnil(fuel as nat, *ctx, *tv),
{
    if fuel == 0 {
        return Err(Error::OutOfFuel);
    }
    let g = fuel - 1;
    match tv {
        Value::Vector(_, n) => match &**n {
            Value::Zero => Ok(Core::VecNil),
            _ => {
                let nc = read_back(ctx, &Value::Nat, n, g)?;
                Err(Error::LengthNotZero(nc))
            },
        },
        _ => {
            let tc = read_back_type(ctx, tv, g)?;
            Err(Error::NotAVecType(tc))
        },
    }
}

/// `(vec:: h t)` against a vector type of length `(add1 l)`.
pub fn check_vector_cons(ctx: &Ctx, r: &Renaming, h: &Core, t: &Core, tv: &Value, fuel: u64) -> (res:
    Result<Core, Error>)
    ensures
        res == ty::check_vector_cons(fuel as nat, *ctx, *r, *h, *t, *tv),
    decreases fuel, 0nat,
{
    if fuel == 0 {
        return Err(Error::OutOfFuel);
    }
    let g = fuel - 1;
    let (etv, l1) = expect_non_empty_vec(ctx, tv, g)?;
    let h_out = check(ctx, r, h, &etv, g)?;
    let t_out = check(ctx, r, t, &Value::Vector(Box::new(etv), Box::new(l1)), g)?;
    Ok(Core::VectorCons(Box::new(h_out), Box::new(t_out)))
}

/// `(Vec E n)` elaborated as a type.
pub fn is_type_vector(ctx: &Ctx, r: &Renaming, t: &Core, n: &Core, fuel: u64) -> (res: Result<
    Core,
    Error,
>)
    ensures
        res == ty::is_type_vector(fuel as nat, *ctx, *r, *t, *n),
    decreases fuel, 0nat,
{
    if fuel == 0 {
        return Err(Error::OutOfFuel);
    }
    let e_out = is_type(ctx, r, t, fuel - 1)?;
    let len_out = check(ctx, r, n, &Value::Nat, fuel - 1)?;
    Ok(Core::Vector(Box::new(e_out), Box::new(len_out)))
}

} // verus!
