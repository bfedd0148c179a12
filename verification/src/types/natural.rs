//! `Nat`, `zero`, `add1` and the eliminators `which-Nat`, `iter-Nat`,
//! `rec-Nat` and `ind-Nat`.
use vstd::prelude::*;
use crate::model::eval as sem;
use crate::model::readback as rb;
use crate::model::typing as ty;
use crate::normalize::{deferred, 
    ap, capture, captured, const_closure, DEFAULT_FUEL, eval, eval4, neu, pi_c, pi_v, read_back,
    read_back_neutral, read_back_typed, rf, typed, val_in_ctx,
};
use crate::symbol::Symbol;
use crate::syntax::{Core, IndNat, IterNat, MaybeTyped, RecNat, The, WhichNat};
use crate::typechecker::{check, synth};
use crate::types::functions::do_ap;
use crate::value::{Closure, Ctx, Env, Error, Neutral, Renaming, Typed, Value};

verus! {

/// `(add1 n)` evaluates to the successor of `n`'s value.
pub fn eval_add1(env: &Env, n: &Core, fuel: u64) -> (res: Result<Value, Error>)
    ensures
        res == sem::eval_add1(fuel as nat, *env, *n),
    decreases fuel, 0nat,
{
    if fuel == 0 {
        return Err(Error::OutOfFuel);
    }
    let v = deferred(eval(env, n, fuel - 1))?;
    Ok(Value::Add1(Box::new(v)))
}

/// `(Π ((_n Nat)) bt)`, the type of a step that ignores its argument.
pub fn nat_to(bt: Value) -> (res: Value)
    ensures
        res == sem::nat_to(bt),
{
    pi_v(Symbol::new("_n"), Value::Nat, const_closure(Symbol::new("_n"), bt))
}

/// `(Π ((_x Nat)) U)`.
pub fn nat_motive_type() -> (res: Value)
    ensures
        res == sem::nat_motive_type(),
{
    pi_v(Symbol::new("_x"), Value::Nat, const_closure(Symbol::new("_x"), Value::Universe))
}

/// The type of `ind-Nat`'s step for the motive `mv`.
pub fn ind_nat_step_type(mv: Value) -> (res: Value)
    ensures
        res == sem::ind_nat_step_type(mv),
{
    let n = Symbol::new("n_minus_one");
    let body = pi_c(
        Symbol::new("ih"),
        ap(rf(captured()), rf(n.clone())),
        ap(rf(captured()), Core::Add1(Box::new(rf(n.clone())))),
    );
    pi_v(n.clone(), Value::Nat, capture(n, mv, body))
}

/// `which-Nat` on values: the base for `zero`, the step applied to the
/// predecessor for `add1`, a neutral elimination for a neutral target.
pub fn do_which_nat(tv: Value, btv: Value, bv: Value, sv: Value, fuel: u64) -> (res: Result<
    Value,
    Error,
>)
    ensures
        res == sem::do_which_nat(fuel as nat, tv, btv, bv, sv),
    decreases fuel, 0nat,
{
    if fuel == 0 {
        return Err(Error::OutOfFuel);
    }
    match tv {
        Value::Zero => Ok(bv),
        Value::Add1(n) => do_ap(sv, *n, fuel - 1),
        Value::Neutral { kind, .. } => Ok(
            neu(
                btv.clone(),
                Neutral::WhichNat(kind, typed(btv.clone(), bv), typed(nat_to(btv), sv)),
            ),
        ),
        _ => Err(Error::Stuck),
    }
}

/// `iter-Nat` on values: `n` applications of the step to the base.
pub fn do_iter_nat(tv: Value, btv: Value, bv: Value, sv: Value, fuel: u64) -> (res: Result<
    Value,
    Error,
>)
    ensures
        res == sem::do_iter_nat(fuel as nat, tv, btv, bv, sv),
    decreases fuel, 0nat,
{
    if fuel == 0 {
        return Err(Error::OutOfFuel);
    }
    match tv {
        Value::Zero => Ok(bv),
        Value::Add1(n) => {
            let r = do_iter_nat(*n, btv, bv, sv.clone(), fuel - 1)?;
            do_ap(sv, r, fuel - 1)
        },
        Value::Neutral { kind, .. } => Ok(
            neu(
                btv.clone(),
                Neutral::IterNat(kind, typed(btv.clone(), bv), typed(nat_to(btv), sv)),
            ),
        ),
        _ => Err(Error::Stuck),
    }
}

/// `rec-Nat` on values.
pub fn do_rec_nat(tv: Value, btv: Value, bv: Value, sv: Value, fuel: u64) -> (res: Result<
    Value,
    Error,
>)
    ensures
        res == sem::do_rec_nat(fuel as nat, tv, btv, bv, sv),
    decreases fuel, 0nat,
{
    if fuel == 0 {
        return Err(Error::OutOfFuel);
    }
    match tv {
        Value::Zero => Ok(bv),
        Value::Add1(n) => {
            let s1 = do_ap(sv.clone(), (*n).clone(), fuel - 1)?;
            let r = do_rec_nat(*n, btv, bv, sv, fuel - 1)?;
            do_ap(s1, r, fuel - 1)
        },
        _ => Err(Error::Stuck),
    }
}

/// `ind-Nat` on values.
pub fn do_ind_nat(tv: Value, mv: Value, bv: Value, sv: Value, fuel: u64) -> (res: Result<
    Value,
    Error,
>)
    ensures
        res == sem::do_ind_nat(fuel as nat, tv, mv, bv, sv),
    decreases fuel, 0nat,
{
    if fuel == 0 {
        return Err(Error::OutOfFuel);
    }
    let g = fuel - 1;
    match tv {
        Value::Zero => Ok(bv),
        Value::Add1(n) => {
            let s1 = do_ap(sv.clone(), (*n).clone(), g)?;
            let r = do_ind_nat(*n, mv, bv, sv, g)?;
            do_ap(s1, r, g)
        },
        Value::Neutral { type_value, kind } => {
            let whole = Value::Neutral { type_value: type_value.clone(), kind: kind.clone() };
            let rt = do_ap(mv.clone(), whole, g)?;
            let bt = do_ap(mv.clone(), Value::Zero, g)?;
            Ok(
                neu(
                    rt,
                    Neutral::IndNat(
                        kind,
                        typed(nat_motive_type(), mv.clone()),
                        typed(bt, bv),
                        typed(ind_nat_step_type(mv), sv),
                    ),
                ),
            )
        },
        _ => Err(Error::Stuck),
    }
}

impl WhichNat {
    /// Evaluates an elaborated `which-Nat`.
    pub fn val_of_fuel(&self, env: &Env, fuel: u64) -> (res: Result<Value, Error>)
        ensures
            res == sem::eval_which_nat(fuel as nat, *env, *self),
        decreases fuel, 0nat,
    {
        if fuel == 0 {
            return Err(Error::OutOfFuel);
        }
        match &self.base {
            MaybeTyped::Plain(_) => Err(Error::NotSupported),
            MaybeTyped::The(bt, b) => {
                let (tv, btv, bv, sv) = eval4(env, &self.target, bt, b, &self.step, fuel - 1)?;
                do_which_nat(tv, btv, bv, sv, fuel - 1)
            },
        }
    }
}

impl IterNat {
    /// Evaluates an elaborated `iter-Nat`.
    pub fn val_of_fuel(&self, env: &Env, fuel: u64) -> (res: Result<Value, Error>)
        ensures
            res == sem::eval_iter_nat(fuel as nat, *env, *self),
        decreases fuel, 0nat,
    {
        if fuel == 0 {
            return Err(Error::OutOfFuel);
        }
        match &self.base {
            MaybeTyped::Plain(_) => Err(Error::NotSupported),
            MaybeTyped::The(bt, b) => {
                let (tv, btv, bv, sv) = eval4(env, &self.target, bt, b, &self.step, fuel - 1)?;
                do_iter_nat(tv, btv, bv, sv, fuel - 1)
            },
        }
    }
}

impl RecNat {
    /// Evaluates an elaborated `rec-Nat`.
    pub fn val_of_fuel(&self, env: &Env, fuel: u64) -> (res: Result<Value, Error>)
        ensures
            res == sem::eval_rec_nat(fuel as nat, *env, *self),
        decreases fuel, 0nat,
    {
        if fuel == 0 {
            return Err(Error::OutOfFuel);
        }
        match &self.base {
            MaybeTyped::Plain(_) => Err(Error::NotSupported),
            MaybeTyped::The(bt, b) => {
                let (tv, btv, bv, sv) = eval4(env, &self.target, bt, b, &self.step, fuel - 1)?;
                do_rec_nat(tv, btv, bv, sv, fuel - 1)
            },
        }
    }
}

impl IndNat {
    /// Evaluates `ind-Nat`.
    pub fn val_of_fuel(&self, env: &Env, fuel: u64) -> (res: Result<Value, Error>)
        ensures
            res == sem::eval_ind_nat(fuel as nat, *env, *self),
        decreases fuel, 0nat,
    {
        if fuel == 0 {
            return Err(Error::OutOfFuel);
        }
        let (tv, mv, bv, sv) = eval4(
            env,
            &self.target,
            &self.motive,
            &self.base,
            &self.step,
            fuel - 1,
        )?;
        do_ind_nat(tv, mv, bv, sv, fuel - 1)
    }
}



/// `(add1 n)` has type `Nat` when `n` does.
pub fn synth_add1(ctx: &Ctx, r: &Renaming, n: &Core, fuel: u64) -> (res: Result<(Core, Core), Error>)
    ensures
        res == ty::synth_add1(fuel as nat, *ctx, *r, *n),
    decreases fuel, 0nat,
{
    if fuel == 0 {
        return Err(Error::OutOfFuel);
    }
    let n_out = check(ctx, r, n, &Value::Nat, fuel - 1)?;
    Ok((Core::Nat, Core::Add1(Box::new(n_out))))
}

/// The target checked against `Nat`, then the base synthesized: the
/// elaborated target, the base's type and the elaborated base.
pub fn nat_target_and_base(ctx: &Ctx, r: &Renaming, target: &Core, b: &Core, fuel: u64) -> (res:
    Result<(Core, Core, Core), Error>)
    ensures
        res == ty::nat_target_and_base(fuel as nat, *ctx, *r, *target, *b),
    decreases fuel, 0nat,
{
    if fuel == 0 {
        return Err(Error::OutOfFuel);
    }
    let tgt_out = check(ctx, r, target, &Value::Nat, fuel - 1)?;
    let (bt_out, b_out) = synth(ctx, r, b, fuel - 1)?;
    Ok((tgt_out, bt_out, b_out))
}

/// `which-Nat` with a plain base: the base's type is the result type, the
/// step takes the predecessor, and the elaborated form records the base's
/// type.
pub fn synth_which_nat(ctx: &Ctx, r: &Renaming, w: &WhichNat, fuel: u64) -> (res: Result<
    (Core, Core),
    Error,
>)
    ensures
        res == ty::synth_which_nat(fuel as nat, *ctx, *r, *w),
    decreases fuel, 0nat,
{
    if fuel == 0 {
        return Err(Error::OutOfFuel);
    }
    match &w.base {
        MaybeTyped::The(_, _) => Err(Error::NotSupported),
        MaybeTyped::Plain(b) => {
            let (tgt_out, bt_out, b_out) = nat_target_and_base(ctx, r, &w.target, b, fuel - 1)?;
            let n1 = ctx.fresh(&Symbol::new("n-1"))?;
            let st = pi_v(
                n1.clone(),
                Value::Nat,
                Closure { env: ctx.to_env(), var: n1, expr: bt_out.clone() },
            );
            let s_out = check(ctx, r, &w.step, &st, fuel - 1)?;
            Ok(
                (
                    bt_out.clone(),
                    Core::WhichNat(
                        WhichNat {
                            target: Box::new(tgt_out),
                            base: MaybeTyped::The(Box::new(bt_out), Box::new(b_out)),
                            step: Box::new(s_out),
                        },
                    ),
                ),
            )
        },
    }
}

/// `iter-Nat` with a plain base: the step maps the base's type to itself.
pub fn synth_iter_nat(ctx: &Ctx, r: &Renaming, w: &IterNat, fuel: u64) -> (res: Result<
    (Core, Core),
    Error,
>)
    ensures
        res == ty::synth_iter_nat(fuel as nat, *ctx, *r, *w),
    decreases fuel, 0nat,
{
    if fuel == 0 {
        return Err(Error::OutOfFuel);
    }
    match &w.base {
        MaybeTyped::The(_, _) => Err(Error::NotSupported),
        MaybeTyped::Plain(b) => {
            let (tgt_out, bt_out, b_out) = nat_target_and_base(ctx, r, &w.target, b, fuel - 1)?;
            let old = ctx.fresh(&Symbol::new("old"))?;
            let st = val_in_ctx(ctx, &pi_c(old, bt_out.clone(), bt_out.clone()), fuel - 1)?;
            let s_out = check(ctx, r, &w.step, &st, fuel - 1)?;
            Ok(
                (
                    bt_out.clone(),
                    Core::IterNat(
                        IterNat {
                            target: Box::new(tgt_out),
                            base: MaybeTyped::The(Box::new(bt_out), Box::new(b_out)),
                            step: Box::new(s_out),
                        },
                    ),
                ),
            )
        },
    }
}

/// `rec-Nat` with a plain base: the step takes the predecessor and the
/// result so far.
pub fn synth_rec_nat(ctx: &Ctx, r: &Renaming, w: &RecNat, fuel: u64) -> (res: Result<
    (Core, Core),
    Error,
>)
    ensures
        res == ty::synth_rec_nat(fuel as nat, *ctx, *r, *w),
    decreases fuel, 0nat,
{
    if fuel == 0 {
        return Err(Error::OutOfFuel);
    }
    match &w.base {
        MaybeTyped::The(_, _) => Err(Error::NotSupported),
        MaybeTyped::Plain(b) => {
            let (tgt_out, bt_out, b_out) = nat_target_and_base(ctx, r, &w.target, b, fuel - 1)?;
            let n1 = ctx.fresh(&Symbol::new("n-1"))?;
            let old = ctx.fresh(&Symbol::new("old"))?;
            let st = val_in_ctx(
                ctx,
                &pi_c(n1, Core::Nat, pi_c(old, bt_out.clone(), bt_out.clone())),
                fuel - 1,
            )?;
            let s_out = check(ctx, r, &w.step, &st, fuel - 1)?;
            Ok(
                (
                    bt_out.clone(),
                    Core::RecNat(
                        RecNat {
                            target: Box::new(tgt_out),
                            base: MaybeTyped::The(Box::new(bt_out), Box::new(b_out)),
                            step: Box::new(s_out),
                        },
                    ),
                ),
            )
        },
    }
}

/// The type that elaboration gives `ind-Nat`'s step for the motive `mv`.
pub fn ind_nat_step_check_type(mv: Value) -> (res: Value)
    ensures
        res == ty::ind_nat_step_check_type(mv),
{
    let n = Symbol::new("n_minus_1");
    let body = pi_c(
        Symbol::new("_ih"),
        ap(rf(captured()), rf(n.clone())),
        ap(rf(captured()), Core::Add1(Box::new(rf(n.clone())))),
    );
    pi_v(n.clone(), Value::Nat, capture(n, mv, body))
}

/// `ind-Nat`: the motive is a family over `Nat`, the base has the motive's
/// type at `zero`, and the result type is the motive applied to the target.
pub fn synth_ind_nat(ctx: &Ctx, r: &Renaming, w: &IndNat, fuel: u64) -> (res: Result<
    (Core, Core),
    Error,
>)
    ensures
        res == ty::synth_ind_nat(fuel as nat, *ctx, *r, *w),
    decreases fuel, 0nat,
{
    if fuel == 0 {
        return Err(Error::OutOfFuel);
    }
    let g = fuel - 1;
    let tgt_out = check(ctx, r, &w.target, &Value::Nat, g)?;
    let mt = pi_v(Symbol::new("n"), Value::Nat, const_closure(Symbol::new("n"), Value::Universe));
    let mot_out = check(ctx, r, &w.motive, &mt, g)?;
    let mv = val_in_ctx(ctx, &mot_out, g)?;
    let bt = do_ap(mv.clone(), Value::Zero, g)?;
    let b_out = check(ctx, r, &w.base, &bt, g)?;
    let s_out = check(ctx, r, &w.step, &ind_nat_step_check_type(mv), g)?;
    Ok(
        (
            ap(mot_out.clone(), tgt_out.clone()),
            Core::IndNat(
                IndNat {
                    target: Box::new(tgt_out),
                    motive: Box::new(mot_out),
                    base: Box::new(b_out),
                    step: Box::new(s_out),
                },
            ),
        ),
    )
}


/// Read-back of natural numbers: `zero` and `add1`s.
pub fn read_back_nat(ctx: &Ctx, v: &Value, fuel: u64) -> (res: Result<Core, Error>)
    ensures
        res == rb::read_back_nat(fuel as nat, *ctx, *v),
    decreases fuel, 0nat,
{
    if fuel == 0 {
        return Err(Error::OutOfFuel);
    }
    match v {
        Value::Zero => Ok(Core::Zero),
        Value::Add1(n) => {
            let c = read_back(ctx, &Value::Nat, n, fuel - 1)?;
            Ok(Core::Add1(Box::new(c)))
        },
        _ => Err(Error::TypeMismatchVar(v.clone(), Value::Nat)),
    }
}

/// Read-back of a neutral `which-Nat`: its base is annotated with its type.
pub fn read_back_neutral_which_nat(ctx: &Ctx, n: &Neutral, b: &Typed, s: &Typed, fuel: u64) -> (res:
    Result<Core, Error>)
    ensures
        res == rb::read_back_neutral(
            fuel as nat,
            *ctx,
            Neutral::WhichNat(Box::new(*n), Box::new(*b), Box::new(*s)),
        ),
    decreases fuel, 0nat,
{
    if fuel == 0 {
        return Err(Error::OutOfFuel);
    }
    let nc = read_back_neutral(ctx, n, fuel - 1)?;
    let (btc, bc) = read_back_typed(ctx, &b.typ, &b.value, fuel - 1)?;
    let sc = read_back(ctx, &s.typ, &s.value, fuel - 1)?;
    Ok(
        Core::WhichNat(
            WhichNat {
                target: Box::new(nc),
                base: MaybeTyped::Plain(Box::new(Core::The(The { typ: Box::new(btc), exp: Box::new(bc) }))),
                step: Box::new(sc),
            },
        ),
    )
}

/// Read-back of a neutral `iter-Nat`, in elaborated form.
pub fn read_back_neutral_iter_nat(ctx: &Ctx, n: &Neutral, b: &Typed, s: &Typed, fuel: u64) -> (res:
    Result<Core, Error>)
    ensures
        res == rb::read_back_neutral(
            fuel as nat,
            *ctx,
            Neutral::IterNat(Box::new(*n), Box::new(*b), Box::new(*s)),
        ),
    decreases fuel, 0nat,
{
    if fuel == 0 {
        return Err(Error::OutOfFuel);
    }
    let nc = read_back_neutral(ctx, n, fuel - 1)?;
    let (btc, bc) = read_back_typed(ctx, &b.typ, &b.value, fuel - 1)?;
    let sc = read_back(ctx, &s.typ, &s.value, fuel - 1)?;
    Ok(
        Core::IterNat(
            IterNat {
                target: Box::new(nc),
                base: MaybeTyped::The(Box::new(btc), Box::new(bc)),
                step: Box::new(sc),
            },
        ),
    )
}

/// Read-back of a neutral `ind-Nat`.
pub fn read_back_neutral_ind_nat(
    ctx: &Ctx,
    n: &Neutral,
    m: &Typed,
    b: &Typed,
    s: &Typed,
    fuel: u64,
) -> (res: Result<Core, Error>)
    ensures
        res == rb::read_back_neutral(
            fuel as nat,
            *ctx,
            Neutral::IndNat(Box::new(*n), Box::new(*m), Box::new(*b), Box::new(*s)),
        ),
    decreases fuel, 0nat,
{
    if fuel == 0 {
        return Err(Error::OutOfFuel);
    }
    let nc = read_back_neutral(ctx, n, fuel - 1)?;
    let mc = read_back(ctx, &m.typ, &m.value, fuel - 1)?;
    let bc = read_back(ctx, &b.typ, &b.value, fuel - 1)?;
    let sc = read_back(ctx, &s.typ, &s.value, fuel - 1)?;
    Ok(
        Core::IndNat(
            IndNat {
                target: Box::new(nc),
                motive: Box::new(mc),
                base: Box::new(bc),
                step: Box::new(sc),
            },
        ),
    )
}

impl WhichNat {
    /// `which-Nat` whose base carries its type, as elaboration leaves it.
    pub fn typed(target: Core, base_t: Core, base: Core, step: Core) -> (res: WhichNat)
        ensures
            res == (WhichNat {
                target: Box::new(target),
                base: MaybeTyped::The(Box::new(base_t), Box::new(base)),
                step: Box::new(step),
            }),
    {
        WhichNat {
            target: Box::new(target),
            base: MaybeTyped::The(Box::new(base_t), Box::new(base)),
            step: Box::new(step),
        }
    }

    /// `which-Nat` as written in source.
    pub fn untyped(target: Core, base: Core, step: Core) -> (res: WhichNat)
        ensures
            res == (WhichNat {
                target: Box::new(target),
                base: MaybeTyped::Plain(Box::new(base)),
                step: Box::new(step),
            }),
    {
        WhichNat { target: Box::new(target), base: MaybeTyped::Plain(Box::new(base)), step: Box::new(step) }
    }

    /// The value of this term, with the default fuel.
    pub fn val_of(&self, env: &Env) -> (res: Result<Value, Error>)
        ensures
            res == sem::eval(DEFAULT_FUEL as nat, *env, Core::WhichNat(*self)),
    {
        eval(env, &Core::WhichNat(self.clone()), DEFAULT_FUEL)
    }

    /// The type and elaborated form of this term, with the default fuel.
    pub fn synth(&self, ctx: &Ctx, r: &Renaming) -> (res: Result<(Core, Core), Error>)
        ensures
            res == ty::synth(DEFAULT_FUEL as nat, *ctx, *r, Core::WhichNat(*self)),
    {
        synth(ctx, r, &Core::WhichNat(self.clone()), DEFAULT_FUEL)
    }
}

impl IterNat {
    /// `iter-Nat` whose base carries its type, as elaboration leaves it.
    pub fn typed(target: Core, base_t: Core, base: Core, step: Core) -> (res: IterNat)
        ensures
            res == (IterNat {
                target: Box::new(target),
                base: MaybeTyped::The(Box::new(base_t), Box::new(base)),
                step: Box::new(step),
            }),
    {
        IterNat {
            target: Box::new(target),
            base: MaybeTyped::The(Box::new(base_t), Box::new(base)),
            step: Box::new(step),
        }
    }

    /// `iter-Nat` as written in source.
    pub fn untyped(target: Core, base: Core, step: Core) -> (res: IterNat)
        ensures
            res == (IterNat {
                target: Box::new(target),
                base: MaybeTyped::Plain(Box::new(base)),
                step: Box::new(step),
            }),
    {
        IterNat { target: Box::new(target), base: MaybeTyped::Plain(Box::new(base)), step: Box::new(step) }
    }

    /// The value of this term, with the default fuel.
    pub fn val_of(&self, env: &Env) -> (res: Result<Value, Error>)
        ensures
            res == sem::eval(DEFAULT_FUEL as nat, *env, Core::IterNat(*self)),
    {
        eval(env, &Core::IterNat(self.clone()), DEFAULT_FUEL)
    }

    /// The type and elaborated form of this term, with the default fuel.
    pub fn synth(&self, ctx: &Ctx, r: &Renaming) -> (res: Result<(Core, Core), Error>)
        ensures
            res == ty::synth(DEFAULT_FUEL as nat, *ctx, *r, Core::IterNat(*self)),
    {
        synth(ctx, r, &Core::IterNat(self.clone()), DEFAULT_FUEL)
    }
}

impl RecNat {
    /// `rec-Nat` whose base carries its type, as elaboration leaves it.
    pub fn typed(target: Core, base_t: Core, base: Core, step: Core) -> (res: RecNat)
        ensures
            res == (RecNat {
                target: Box::new(target),
                base: MaybeTyped::The(Box::new(base_t), Box::new(base)),
                step: Box::new(step),
            }),
    {
        RecNat {
            target: Box::new(target),
            base: MaybeTyped::The(Box::new(base_t), Box::new(base)),
            step: Box::new(step),
        }
    }

    /// `rec-Nat` as written in source.
    pub fn untyped(target: Core, base: Core, step: Core) -> (res: RecNat)
        ensures
            res == (RecNat {
                target: Box::new(target),
                base: MaybeTyped::Plain(Box::new(base)),
                step: Box::new(step),
            }),
    {
        RecNat { target: Box::new(target), base: MaybeTyped::Plain(Box::new(base)), step: Box::new(step) }
    }

    /// The value of this term, with the default fuel.
    pub fn val_of(&self, env: &Env) -> (res: Result<Value, Error>)
        ensures
            res == sem::eval(DEFAULT_FUEL as nat, *env, Core::RecNat(*self)),
    {
        eval(env, &Core::RecNat(self.clone()), DEFAULT_FUEL)
    }

    /// The type and elaborated form of this term, with the default fuel.
    pub fn synth(&self, ctx: &Ctx, r: &Renaming) -> (res: Result<(Core, Core), Error>)
        ensures
            res == ty::synth(DEFAULT_FUEL as nat, *ctx, *r, Core::RecNat(*self)),
    {
        synth(ctx, r, &Core::RecNat(self.clone()), DEFAULT_FUEL)
    }
}

impl IndNat {
    /// `ind-Nat` with the given target, motive, base and step.
    pub fn new(target: Core, motive: Core, base: Core, step: Core) -> (res: IndNat)
        ensures
            res == (IndNat {
                target: Box::new(target),
                motive: Box::new(motive),
                base: Box::new(base),
                step: Box::new(step),
            }),
    {
        IndNat {
            target: Box::new(target),
            motive: Box::new(motive),
            base: Box::new(base),
            step: Box::new(step),
        }
    }
}

} // verus!
