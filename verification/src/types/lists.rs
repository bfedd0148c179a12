//! Lists: `List`, `nil`, `::`, `rec-List` and `ind-List`.
use vstd::prelude::*;
use crate::model::eval as sem;
use crate::model::readback as rb;
use crate::model::typing as ty;
use crate::normalize::{deferred, 
    ap, capture2, captured, captured2, const_closure, eval, eval2, eval4, neu, pi_c, pi_v,
    read_back, read_back_neutral, read_back_type, read_back_typed, rf, typed, val_in_ctx,
};
use crate::symbol::Symbol;
use crate::syntax::{Core, IndList, MaybeTyped, RecList};
use crate::typechecker::{check, is_type, synth, synth_value};
use crate::types::functions::do_ap;
use crate::value::{Closure, Ctx, Env, Error, Neutral, Renaming, Typed, Value};

verus! {

/// `(List E)`.
pub fn eval_list(env: &Env, t: &Core, fuel: u64) -> (res: Result<Value, Error>)
    ensures
        res == sem::eval_list(fuel as nat, *env, *t),
    decreases fuel, 0nat,
{
    if fuel == 0 {
        return Err(Error::OutOfFuel);
    }
    let tv = deferred(eval(env, t, fuel - 1))?;
    Ok(Value::List(Box::new(tv)))
}

/// `(:: h t)`.
pub fn eval_list_cons(env: &Env, h: &Core, t: &Core, fuel: u64) -> (res: Result<Value, Error>)
    ensures
        res == sem::eval_list_cons(fuel as nat, *env, *h, *t),
    decreases fuel, 0nat,
{
    if fuel == 0 {
        return Err(Error::OutOfFuel);
    }
    let (hv, tv) = eval2(env, h, t, fuel - 1)?;
    Ok(Value::ListCons(Box::new(hv), Box::new(tv)))
}

/// `(Π ((x tv)) U)`.
pub fn motive_type(x: Symbol, tv: Value) -> (res: Value)
    ensures
        res == sem::motive_type(x, tv),
{
    pi_v(x.clone(), tv, const_closure(x, Value::Universe))
}

/// The type of `rec-List`'s step.
pub fn rec_list_step_type(etv: Value, ltv: Value, btv: Value) -> (res: Value)
    ensures
        res == sem::rec_list_step_type(etv, ltv, btv),
{
    let body = pi_c(
        Symbol::new("t"),
        rf(captured()),
        pi_c(Symbol::new("ih"), rf(captured2()), rf(captured2())),
    );
    pi_v(Symbol::new("h"), etv, capture2(Symbol::new("h"), ltv, btv, body))
}

/// The type of `ind-List`'s step.
pub fn ind_list_step_type(etv: Value, ltv: Value, mv: Value) -> (res: Value)
    ensures
        res == sem::ind_list_step_type(etv, ltv, mv),
{
    let h = Symbol::new("h");
    let t = Symbol::new("t");
    let body = pi_c(
        t.clone(),
        rf(captured()),
        pi_c(
            Symbol::new("ih"),
            ap(rf(captured2()), rf(t.clone())),
            ap(rf(captured2()), Core::ListCons(Box::new(rf(h.clone())), Box::new(rf(t)))),
        ),
    );
    pi_v(h.clone(), etv, capture2(h, ltv, mv, body))
}

/// `rec-List` on values.
pub fn do_rec_list(tv: Value, btv: Value, bv: Value, sv: Value, fuel: u64) -> (res: Result<
    Value,
    Error,
>)
    ensures
        res == sem::do_rec_list(fuel as nat, tv, btv, bv, sv),
    decreases fuel, 0nat,
{
    if fuel == 0 {
        return Err(Error::OutOfFuel);
    }
    let g = fuel - 1;
    match tv {
        Value::Nil => Ok(bv),
        Value::ListCons(h, t) => {
            let s1 = do_ap(sv.clone(), *h, g)?;
            let s2 = do_ap(s1, (*t).clone(), g)?;
            let r = do_rec_list(*t, btv, bv, sv, g)?;
            do_ap(s2, r, g)
        },
        Value::Neutral { type_value, kind } => {
            let ltv = (*type_value).clone();
            match *type_value {
                Value::List(etv) => Ok(
                    neu(
                        btv.clone(),
                        Neutral::RecList(
                            kind,
                            typed(btv.clone(), bv),
                            typed(rec_list_step_type(*etv, ltv, btv), sv),
                        ),
                    ),
                ),
                _ => Err(Error::Stuck),
            }
        },
        _ => Err(Error::Stuck),
    }
}

/// `ind-List` on values.
pub fn do_ind_list(tv: Value, mv: Value, bv: Value, sv: Value, fuel: u64) -> (res: Result<
    Value,
    Error,
>)
    ensures
        res == sem::do_ind_list(fuel as nat, tv, mv, bv, sv),
    decreases fuel, 0nat,
{
    if fuel == 0 {
        return Err(Error::OutOfFuel);
    }
    let g = fuel - 1;
    match tv {
        Value::Nil => Ok(bv),
        Value::ListCons(h, t) => {
            let s1 = do_ap(sv.clone(), *h, g)?;
            let s2 = do_ap(s1, (*t).clone(), g)?;
            let r = do_ind_list(*t, mv, bv, sv, g)?;
            do_ap(s2, r, g)
        },
        Value::Neutral { type_value, kind } => {
            let whole = Value::Neutral { type_value: type_value.clone(), kind: kind.clone() };
            let ltv = (*type_value).clone();
            match *type_value {
                Value::List(etv) => {
                    let rt = do_ap(mv.clone(), whole, g)?;
                    let bt = do_ap(mv.clone(), Value::Nil, g)?;
                    Ok(
                        neu(
                            rt,
                            Neutral::IndList(
                                kind,
                                typed(motive_type(Symbol::new("xs"), ltv.clone()), mv.clone()),
                                typed(bt, bv),
                                typed(ind_list_step_type(*etv, ltv, mv), sv),
                            ),
                        ),
                    )
                },
                _ => Err(Error::Stuck),
            }
        },
        _ => Err(Error::Stuck),
    }
}

impl RecList {
    /// Evaluates an elaborated `rec-List`.
    pub fn val_of_fuel(&self, env: &Env, fuel: u64) -> (res: Result<Value, Error>)
        ensures
            res == sem::eval_rec_list(fuel as nat, *env, *self),
        decreases fuel, 0nat,
    {
        if fuel == 0 {
            return Err(Error::OutOfFuel);
        }
        match &self.base {
            MaybeTyped::Plain(_) => Err(Error::NotSupported),
            MaybeTyped::The(bt, b) => {
                let (tv, btv, bv, sv) = eval4(env, &self.target, bt, b, &self.step, fuel - 1)?;
                do_rec_list(tv, btv, bv, sv, fuel - 1)
            },
        }
    }
}

impl IndList {
    /// Evaluates `ind-List`.
    pub fn val_of_fuel(&self, env: &Env, fuel: u64) -> (res: Result<Value, Error>)
        ensures
            res == sem::eval_ind_list(fuel as nat, *env, *self),
        decreases fuel, 0nat,
    {
        if fuel == 0 {
            return Err(Error::OutOfFuel);
        }
        let (tv, mv, bv, sv) = eval4(
            env,
            &self.target,
            &self.motive,
            &self.base,
            &self.step,
            fuel - 1,
        )?;
        do_ind_list(tv, mv, bv, sv, fuel - 1)
    }
}


/// Read-back at `(List E)`.
pub fn read_back_list(ctx: &Ctx, etv: &Value, v: &Value, fuel: u64) -> (res: Result<Core, Error>)
    ensures
        res == rb::read_back_list(fuel as nat, *ctx, *etv, *v),
    decreases fuel, 0nat,
{
    if fuel == 0 {
        return Err(Error::OutOfFuel);
    }
    let g = fuel - 1;
    match v {
        Value::Nil => Ok(Core::Nil),
        Value::ListCons(h, t) => {
            let hc = read_back(ctx, etv, h, g)?;
            let tc = read_back(ctx, &Value::List(Box::new(etv.clone())), t, g)?;
            Ok(Core::ListCons(Box::new(hc), Box::new(tc)))
        },
        _ => Err(Error::TypeMismatchVar(v.clone(), Value::List(Box::new(etv.clone())))),
    }
}

/// Read-back of `(List E)` as a type.
pub fn read_back_type_list(ctx: &Ctx, etv: &Value, fuel: u64) -> (res: Result<Core, Error>)
    ensures
        res == rb::read_back_type_list(fuel as nat, *ctx, *etv),
    decreases fuel, 0nat,
{
    if fuel == 0 {
        return Err(Error::OutOfFuel);
    }
    let c = read_back_type(ctx, etv, fuel - 1)?;
    Ok(Core::List(Box::new(c)))
}

/// Read-back of a neutral `rec-List`, in elaborated form.
pub fn read_back_neutral_rec_list(ctx: &Ctx, n: &Neutral, b: &Typed, s: &Typed, fuel: u64) -> (res:
    Result<Core, Error>)
    ensures
        res == rb::read_back_neutral(
            fuel as nat,
            *ctx,
            Neutral::RecList(Box::new(*n), Box::new(*b), Box::new(*s)),
        ),
    decreases fuel, 0nat,
{
    if fuel == 0 {
        return Err(Error::OutOfFuel);
    }
    let nc = read_back_neutral(ctx, n, fuel - 1)?;
    let (btc, bc) = read_back_typed(ctx, &b.typ, &b.value, fuel - 1)?;
    let sc = read_back(ctx, &s.typ, &s.value, fuel - 1)?;
    Ok(
        Core::RecList(
            RecList {
                target: Box::new(nc),
                base: MaybeTyped::The(Box::new(btc), Box::new(bc)),
                step: Box::new(sc),
            },
        ),
    )
}

/// `(List E)` is a type when `E` is.
pub fn synth_list(ctx: &Ctx, r: &Renaming, t: &Core, fuel: u64) -> (res: Result<(Core, Core), Error>)
    ensures
        res == ty::synth_list(fuel as nat, *ctx, *r, *t),
    decreases fuel, 0nat,
{
    if fuel == 0 {
        return Err(Error::OutOfFuel);
    }
    let e_out = check(ctx, r, t, &Value::Universe, fuel - 1)?;
    Ok((Core::Universe, Core::List(Box::new(e_out))))
}

/// `(:: h t)`: the entry type comes from `h`, and `t` must be a list of it.
pub fn synth_list_cons(ctx: &Ctx, r: &Renaming, h: &Core, t: &Core, fuel: u64) -> (res: Result<
    (Core, Core),
    Error,
>)
    ensures
        res == ty::synth_list_cons(fuel as nat, *ctx, *r, *h, *t),
    decreases fuel, 0nat,
{
    if fuel == 0 {
        return Err(Error::OutOfFuel);
    }
    let g = fuel - 1;
    let (et, e_out) = synth(ctx, r, h, g)?;
    let lt = Core::List(Box::new(et));
    let ltv = val_in_ctx(ctx, &lt, g)?;
    let es_out = check(ctx, r, t, &ltv, g)?;
    Ok((lt, Core::ListCons(Box::new(e_out), Box::new(es_out))))
}

/// The type that elaboration gives `rec-List`'s step.
pub fn rec_list_step_check_type(etv: Value, ltv: Value, btv: Value) -> (res: Value)
    ensures
        res == ty::rec_list_step_check_type(etv, ltv, btv),
{
    let body = pi_c(
        Symbol::new("_es"),
        rf(captured()),
        pi_c(Symbol::new("_ih"), rf(captured2()), rf(captured2())),
    );
    pi_v(Symbol::new("_e"), etv, capture2(Symbol::new("_e"), ltv, btv, body))
}

/// `rec-List` with a plain base: the target must be a list, the base's type
/// is the result type.
pub fn synth_rec_list(ctx: &Ctx, r: &Renaming, w: &RecList, fuel: u64) -> (res: Result<
    (Core, Core),
    Error,
>)
    ensures
        res == ty::synth_rec_list(fuel as nat, *ctx, *r, *w),
    decreases fuel, 0nat,
{
    if fuel == 0 {
        return Err(Error::OutOfFuel);
    }
    let g = fuel - 1;
    match &w.base {
        MaybeTyped::The(_, _) => Err(Error::NotSupported),
        MaybeTyped::Plain(b) => {
            let (tgt_tv, tgt_out) = synth_value(ctx, r, &w.target, g)?;
            match &tgt_tv {
                Value::List(etv) => {
                    let (bt_out, b_out) = synth(ctx, r, b, g)?;
                    let btv = val_in_ctx(ctx, &bt_out, g)?;
                    let st = rec_list_step_check_type((**etv).clone(), tgt_tv.clone(), btv);
                    let s_out = check(ctx, r, &w.step, &st, g)?;
                    Ok(
                        (
                            bt_out.clone(),
                            Core::RecList(
                                RecList {
                                    target: Box::new(tgt_out),
                                    base: MaybeTyped::The(Box::new(bt_out), Box::new(b_out)),
                                    step: Box::new(s_out),
                                },
                            ),
                        ),
                    )
                },
                _ => {
                    let tc = read_back_type(ctx, &tgt_tv, g)?;
                    Err(Error::NotAListType(tc))
                },
            }
        },
    }
}

/// The type that elaboration gives `ind-List`'s step.
pub fn ind_list_step_check_type(etv: Value, ltv: Value, mv: Value) -> (res: Value)
    ensures
        res == ty::ind_list_step_check_type(etv, ltv, mv),
{
    let e = Symbol::new("e");
    let es = Symbol::new("es");
    let body = pi_c(
        es.clone(),
        rf(captured()),
        pi_c(
            Symbol::new("_ih"),
            ap(rf(captured2()), rf(es.clone())),
            ap(rf(captured2()), Core::ListCons(Box::new(rf(e.clone())), Box::new(rf(es)))),
        ),
    );
    pi_v(e.clone(), etv, capture2(e, ltv, mv, body))
}

/// `ind-List`: the motive is a family over the target's list type.
pub fn synth_ind_list(ctx: &Ctx, r: &Renaming, w: &IndList, fuel: u64) -> (res: Result<
    (Core, Core),
    Error,
>)
    ensures
        res == ty::synth_ind_list(fuel as nat, *ctx, *r, *w),
    decreases fuel, 0nat,
{
    if fuel == 0 {
        return Err(Error::OutOfFuel);
    }
    let g = fuel - 1;
    let (tgt_tv, tgt_out) = synth_value(ctx, r, &w.target, g)?;
    match &tgt_tv {
        Value::List(etv) => {
            let mt = pi_v(
                Symbol::new("xs"),
                tgt_tv.clone(),
                Closure { env: ctx.to_env(), var: Symbol::new("xs"), expr: Core::Universe },
            );
            let mot_out = check(ctx, r, &w.motive, &mt, g)?;
            let mv = val_in_ctx(ctx, &mot_out, g)?;
            let bt = do_ap(mv.clone(), Value::Nil, g)?;
            let b_out = check(ctx, r, &w.base, &bt, g)?;
            let st = ind_list_step_check_type((**etv).clone(), tgt_tv.clone(), mv);
            let s_out = check(ctx, r, &w.step, &st, g)?;
            Ok(
                (
                    ap(mot_out.clone(), tgt_out.clone()),
                    Core::IndList(
                        IndList {
                            target: Box::new(tgt_out),
                            motive: Box::new(mot_out),
                            base: Box::new(b_out),
                            step: Box::new(s_out),
                        },
                    ),
                ),
            )
        },
        _ => {
            let tc = read_back_type(ctx, &tgt_tv, g)?;
            Err(Error::NotAListType(tc))
        },
    }
}

/// `nil` checks against any list type.
pub fn check_nil(ctx: &Ctx, tv: &Value, fuel: u64) -> (res: Result<Core, Error>)
    ensures
        res == ty::check_nil(fuel as nat, *ctx, *tv),
{
    if fuel == 0 {
        return Err(Error::OutOfFuel);
    }
    match tv {
        Value::List(_) => Ok(Core::Nil),
        _ => {
            let tc = read_back_type(ctx, tv, fuel - 1)?;
            Err(Error::NotAListType(tc))
        },
    }
}

/// `(List E)` elaborated as a type.
pub fn is_type_list(ctx: &Ctx, r: &Renaming, t: &Core, fuel: u64) -> (res: Result<Core, Error>)
    ensures
        res == ty::is_type_list(fuel as nat, *ctx, *r, *t),
    decreases fuel, 0nat,
{
    if fuel == 0 {
        return Err(Error::OutOfFuel);
    }
    let e_out = is_type(ctx, r, t, fuel - 1)?;
    Ok(Core::List(Box::new(e_out)))
}

impl RecList {
    /// `rec-List` whose base carries its type, as elaboration leaves it.
    pub fn typed(target: Core, base_t: Core, base: Core, step: Core) -> (res: RecList)
        ensures
            res == (RecList {
                target: Box::new(target),
                base: MaybeTyped::The(Box::new(base_t), Box::new(base)),
                step: Box::new(step),
            }),
    {
        RecList {
            target: Box::new(target),
            base: MaybeTyped::The(Box::new(base_t), Box::new(base)),
            step: Box::new(step),
        }
    }

    /// `rec-List` as written in source.
    pub fn untyped(target: Core, base: Core, step: Core) -> (res: RecList)
        ensures
            res == (RecList {
                target: Box::new(target),
                base: MaybeTyped::Plain(Box::new(base)),
                step: Box::new(step),
            }),
    {
        RecList { target: Box::new(target), base: MaybeTyped::Plain(Box::new(base)), step: Box::new(step) }
    }
}

} // verus!
