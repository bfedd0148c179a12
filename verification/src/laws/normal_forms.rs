//! Read-back produces terms without sugar, so every type is the same type
//! as itself and every value is the same as itself.
use vstd::prelude::*;
use crate::laws::alpha::{alpha_equiv_reflexive, sugar_free};
use crate::model::eval::{closure_val_of, do_ap, do_car, do_cdr, neu};
use crate::model::names::{bind_free, ctx_fresh};
use crate::model::readback::{
    read_back, read_back_absurd, read_back_either, read_back_list, read_back_nat,
    read_back_neutral, read_back_pi, read_back_same, read_back_sigma, read_back_type,
    read_back_type_either, read_back_type_equal, read_back_type_list, read_back_type_pi,
    read_back_type_sigma, read_back_type_vector, read_back_typed, read_back_vector,
};
use crate::model::typing::{convert, same_type};
use crate::symbol::Symbol;
use crate::value::{Closure, Ctx, Error, Neutral, Value};

verus! {

/// Whether a successful result is free of sugar.
pub open spec fn ok_sugar_free(r: Result<crate::syntax::Core, Error>) -> bool {
    r matches Ok(c) ==> sugar_free(c)
}

proof fn rb(f: nat, ctx: Ctx, tv: Value, v: Value)
    ensures
        ok_sugar_free(read_back(f, ctx, tv, v)),
    decreases f, 3nat,
{
    match tv {
        Value::Universe => rbt(f, ctx, v),
        Value::Pi { arg_name, arg_type, res_type } => rb_pi(f, ctx, arg_name, *arg_type, *res_type, v),
        Value::Sigma { car_type, cdr_type, .. } => rb_sigma(f, ctx, *car_type, *cdr_type, v),
        Value::Absurd => {
            if let Value::Neutral { kind, .. } = v {
                rb_absurd(f, ctx, *kind);
            }
        },
        _ => match v {
            Value::Neutral { kind, .. } => rbn(f, ctx, *kind),
            _ => match tv {
                Value::Nat => rb_nat(f, ctx, v),
                Value::List(etv) => rb_list(f, ctx, *etv, v),
                Value::Vector(etv, len) => rb_vector(f, ctx, *etv, *len, v),
                Value::Equal { typ, .. } => {
                    if let Value::Same(x) = v {
                        rb_same(f, ctx, *typ, *x);
                    }
                },
                Value::Either(ltv, rtv) => rb_either(f, ctx, *ltv, *rtv, v),
                _ => {},
            },
        },
    }
}

proof fn rb_nat(f: nat, ctx: Ctx, v: Value)
    ensures
        ok_sugar_free(read_back_nat(f, ctx, v)),
    decreases f, 0nat,
{
    if f > 0 {
        if let Value::Add1(n) = v {
            rb((f - 1) as nat, ctx, Value::Nat, *n);
        }
    }
}

proof fn rb_pi(f: nat, ctx: Ctx, x: Symbol, a: Value, b: Closure, v: Value)
    ensures
        ok_sugar_free(read_back_pi(f, ctx, x, a, b, v)),
    decreases f, 0nat,
{
    if f > 0 {
        let g = (f - 1) as nat;
        let y = match v {
            Value::Lambda { arg_name, .. } => arg_name,
            _ => x,
        };
        if let Ok(x_hat) = ctx_fresh(ctx, y) {
            let var = neu(a, Neutral::Var(x_hat));
            if let Ok(rt) = closure_val_of(g, b, var) {
                if let Ok(app) = do_ap(g, v, var) {
                    rb(g, bind_free(ctx, x_hat, a), rt, app);
                }
            }
        }
    }
}

proof fn rb_sigma(f: nat, ctx: Ctx, a: Value, d: Closure, v: Value)
    ensures
        ok_sugar_free(read_back_sigma(f, ctx, a, d, v)),
    decreases f, 0nat,
{
    if f > 0 {
        let g = (f - 1) as nat;
        if let Ok(the_car) = do_car(v) {
            rb(g, ctx, a, the_car);
            if let Ok(dt) = closure_val_of(g, d, the_car) {
                if let Ok(the_cdr) = do_cdr(g, v) {
                    rb(g, ctx, dt, the_cdr);
                }
            }
        }
    }
}

proof fn rb_absurd(f: nat, ctx: Ctx, ne: Neutral)
    ensures
        ok_sugar_free(read_back_absurd(f, ctx, ne)),
    decreases f, 0nat,
{
    if f > 0 {
        rbn((f - 1) as nat, ctx, ne);
        assert(sugar_free(crate::syntax::Core::Absurd));
    }
}

proof fn rb_list(f: nat, ctx: Ctx, etv: Value, v: Value)
    ensures
        ok_sugar_free(read_back_list(f, ctx, etv, v)),
    decreases f, 0nat,
{
    if f > 0 {
        if let Value::ListCons(h, t) = v {
            rb((f - 1) as nat, ctx, etv, *h);
            rb((f - 1) as nat, ctx, Value::List(Box::new(etv)), *t);
        }
    }
}

proof fn rb_vector(f: nat, ctx: Ctx, etv: Value, len: Value, v: Value)
    ensures
        ok_sugar_free(read_back_vector(f, ctx, etv, len, v)),
    decreases f, 0nat,
{
    if f > 0 {
        if let (Value::Add1(l), Value::VectorCons(h, t)) = (len, v) {
            rb((f - 1) as nat, ctx, etv, *h);
            rb((f - 1) as nat, ctx, Value::Vector(Box::new(etv), l), *t);
        }
    }
}

proof fn rb_same(f: nat, ctx: Ctx, a: Value, x: Value)
    ensures
        ok_sugar_free(read_back_same(f, ctx, a, x)),
    decreases f, 0nat,
{
    if f > 0 {
        rb((f - 1) as nat, ctx, a, x);
    }
}

proof fn rb_either(f: nat, ctx: Ctx, ltv: Value, rtv: Value, v: Value)
    ensures
        ok_sugar_free(read_back_either(f, ctx, ltv, rtv, v)),
    decreases f, 0nat,
{
    if f > 0 {
        match v {
            Value::Left(x) => rb((f - 1) as nat, ctx, ltv, *x),
            Value::Right(x) => rb((f - 1) as nat, ctx, rtv, *x),
            _ => {},
        }
    }
}

proof fn rbt(f: nat, ctx: Ctx, v: Value)
    ensures
        ok_sugar_free(read_back_type(f, ctx, v)),
    decreases f, 2nat,
{
    match v {
        Value::Pi { arg_name, arg_type, res_type } => rbt_pi(f, ctx, arg_name, *arg_type, *res_type),
        Value::Sigma { arg_name, car_type, cdr_type } => rbt_sigma(
            f,
            ctx,
            arg_name,
            *car_type,
            *cdr_type,
        ),
        Value::List(etv) => rbt_list(f, ctx, *etv),
        Value::Vector(etv, len) => rbt_vector(f, ctx, *etv, *len),
        Value::Equal { typ, from, to } => rbt_equal(f, ctx, *typ, *from, *to),
        Value::Either(ltv, rtv) => rbt_either(f, ctx, *ltv, *rtv),
        Value::Neutral { type_value, kind } => {
            if *type_value == Value::Universe {
                rbn(f, ctx, *kind);
            }
        },
        _ => {},
    }
}

proof fn rbt_pi(f: nat, ctx: Ctx, x: Symbol, a: Value, b: Closure)
    ensures
        ok_sugar_free(read_back_type_pi(f, ctx, x, a, b)),
    decreases f, 0nat,
{
    if f > 0 {
        let g = (f - 1) as nat;
        rbt(g, ctx, a);
        if let Ok(x_hat) = ctx_fresh(ctx, x) {
            if let Ok(bv) = closure_val_of(g, b, neu(a, Neutral::Var(x_hat))) {
                rbt(g, bind_free(ctx, x_hat, a), bv);
            }
        }
    }
}

proof fn rbt_sigma(f: nat, ctx: Ctx, x: Symbol, a: Value, d: Closure)
    ensures
        ok_sugar_free(read_back_type_sigma(f, ctx, x, a, d)),
    decreases f, 0nat,
{
    if f > 0 {
        let g = (f - 1) as nat;
        rbt(g, ctx, a);
        if let Ok(x_hat) = ctx_fresh(ctx, x) {
            if let Ok(dv) = closure_val_of(g, d, neu(a, Neutral::Var(x_hat))) {
                rbt(g, bind_free(ctx, x_hat, a), dv);
            }
        }
    }
}

proof fn rbt_list(f: nat, ctx: Ctx, etv: Value)
    ensures
        ok_sugar_free(read_back_type_list(f, ctx, etv)),
    decreases f, 0nat,
{
    if f > 0 {
        rbt((f - 1) as nat, ctx, etv);
    }
}

proof fn rbt_vector(f: nat, ctx: Ctx, etv: Value, len: Value)
    ensures
        ok_sugar_free(read_back_type_vector(f, ctx, etv, len)),
    decreases f, 0nat,
{
    if f > 0 {
        rbt((f - 1) as nat, ctx, etv);
        rb((f - 1) as nat, ctx, Value::Nat, len);
    }
}

proof fn rbt_equal(f: nat, ctx: Ctx, a: Value, from: Value, to: Value)
    ensures
        ok_sugar_free(read_back_type_equal(f, ctx, a, from, to)),
    decreases f, 0nat,
{
    if f > 0 {
        rbt((f - 1) as nat, ctx, a);
        rb((f - 1) as nat, ctx, a, from);
        rb((f - 1) as nat, ctx, a, to);
    }
}

proof fn rbt_either(f: nat, ctx: Ctx, ltv: Value, rtv: Value)
    ensures
        ok_sugar_free(read_back_type_either(f, ctx, ltv, rtv)),
    decreases f, 0nat,
{
    if f > 0 {
        rbt((f - 1) as nat, ctx, ltv);
        rbt((f - 1) as nat, ctx, rtv);
    }
}

proof fn rb_typed(f: nat, ctx: Ctx, tv: Value, v: Value)
    ensures
        read_back_typed(f, ctx, tv, v) matches Ok((tc, vc)) ==> sugar_free(tc) && sugar_free(vc),
    decreases f, 0nat,
{
    if f > 0 {
        rbt((f - 1) as nat, ctx, tv);
        rb((f - 1) as nat, ctx, tv, v);
    }
}

proof fn rbn(f: nat, ctx: Ctx, ne: Neutral)
    ensures
        ok_sugar_free(read_back_neutral(f, ctx, ne)),
    decreases f, 1nat,
{
    match ne {
        Neutral::WhichNat(..) | Neutral::IterNat(..) | Neutral::RecList(..) => rbn_ternary(f, ctx, ne),
        Neutral::IndNat(..) | Neutral::IndEither(..) | Neutral::IndVec12(..) | Neutral::IndAbsurd(
            ..,
        ) => rbn_induction(f, ctx, ne),
        _ => rbn_simple(f, ctx, ne),
    }
}

proof fn rbn_simple(f: nat, ctx: Ctx, ne: Neutral)
    requires
        !(ne is WhichNat || ne is IterNat || ne is RecList || ne is IndNat || ne is IndEither
            || ne is IndVec12 || ne is IndAbsurd),
    ensures
        ok_sugar_free(read_back_neutral(f, ctx, ne)),
    decreases f, 0nat,
{
    if f > 0 {
        let g = (f - 1) as nat;
        match ne {
            Neutral::App(n, a) => {
                rbn(g, ctx, *n);
                rb(g, ctx, a.typ, a.value);
            },
            Neutral::Car(n) | Neutral::Cdr(n) | Neutral::Head(n) | Neutral::Tail(n) => rbn(g, ctx, *n),
            Neutral::Todo(_, tv) => rbt(g, ctx, *tv),
            _ => {},
        }
    }
}

proof fn rbn_ternary(f: nat, ctx: Ctx, ne: Neutral)
    requires
        ne is WhichNat || ne is IterNat || ne is RecList,
    ensures
        ok_sugar_free(read_back_neutral(f, ctx, ne)),
    decreases f, 0nat,
{
    reveal_with_fuel(sugar_free, 3);
    if f > 0 {
        let g = (f - 1) as nat;
        match ne {
            Neutral::WhichNat(n, b, s) | Neutral::IterNat(n, b, s) | Neutral::RecList(n, b, s) => {
                rbn(g, ctx, *n);
                rb_typed(g, ctx, b.typ, b.value);
                rb(g, ctx, s.typ, s.value);
            },
            _ => {},
        }
    }
}

proof fn rbn_induction(f: nat, ctx: Ctx, ne: Neutral)
    requires
        ne is IndNat || ne is IndEither || ne is IndVec12 || ne is IndAbsurd,
    ensures
        ok_sugar_free(read_back_neutral(f, ctx, ne)),
    decreases f, 0nat,
{
    reveal_with_fuel(sugar_free, 3);
    if f > 0 {
        let g = (f - 1) as nat;
        match ne {
            Neutral::IndNat(n, m, b, s) | Neutral::IndEither(n, m, b, s) => {
                rbn(g, ctx, *n);
                rb(g, ctx, m.typ, m.value);
                rb(g, ctx, b.typ, b.value);
                rb(g, ctx, s.typ, s.value);
            },
            Neutral::IndVec12(l, es, m, b, s) => {
                rbn(g, ctx, *l);
                rbn(g, ctx, *es);
                rb(g, ctx, m.typ, m.value);
                rb(g, ctx, b.typ, b.value);
                rb(g, ctx, s.typ, s.value);
            },
            Neutral::IndAbsurd(n, m) => {
                rbn(g, ctx, *n);
                rb(g, ctx, m.typ, m.value);
                assert(sugar_free(crate::syntax::Core::Absurd));
            },
            _ => {},
        }
    }
}

/// Read-back produces neither sugar nor invalid syntax.
pub proof fn read_back_is_sugar_free(f: nat, ctx: Ctx, tv: Value, v: Value)
    ensures
        ok_sugar_free(read_back(f, ctx, tv, v)),
        ok_sugar_free(read_back_type(f, ctx, v)),
{
    rb(f, ctx, tv, v);
    rbt(f, ctx, v);
}

/// Every type that reads back is the same type as itself.
pub proof fn same_type_is_reflexive(f: nat, ctx: Ctx, v: Value)
    requires
        f > 0,
        read_back_type((f - 1) as nat, ctx, v) is Ok,
    ensures
        same_type(f, ctx, v, v) == Ok::<(), Error>(()),
{
    rbt((f - 1) as nat, ctx, v);
    alpha_equiv_reflexive(read_back_type((f - 1) as nat, ctx, v)->Ok_0);
}

/// Every value that reads back at a type is the same as itself.
pub proof fn convert_is_reflexive(f: nat, ctx: Ctx, tv: Value, v: Value)
    requires
        f > 0,
        read_back((f - 1) as nat, ctx, tv, v) is Ok,
    ensures
        convert(f, ctx, tv, v, v) == Ok::<(), Error>(()),
{
    rb((f - 1) as nat, ctx, tv, v);
    alpha_equiv_reflexive(read_back((f - 1) as nat, ctx, tv, v)->Ok_0);
}


#[verifier::spinoff_prover]
/// Reading back a pair `(cons a d)` at `(Σ ((x A)) D)` gives
/// `(cons a' d')`: `a'` is the read-back of the first component `a` at `A`,
/// and `d'` that of the second component `d` at `D` with `x` bound to `a`.
pub proof fn pair_read_back_keeps_components(
    f: nat,
    ctx: Ctx,
    x: Symbol,
    a_type: Value,
    d_type: Closure,
    a: Value,
    d: Value,
)
    ensures
        ({
            let res = read_back(
                f,
                ctx,
                Value::Sigma { arg_name: x, car_type: Box::new(a_type), cdr_type: Box::new(d_type) },
                Value::Cons(Box::new(a), Box::new(d)),
            );
            let g = (f - 1) as nat;
            let ac = read_back(g, ctx, a_type, a);
            let dt = closure_val_of(g, d_type, a);
            let dc = read_back(g, ctx, dt.unwrap(), d);
            res is Ok ==> {
                &&& ac is Ok && dt is Ok && dc is Ok
                &&& res == Ok::<crate::syntax::Core, Error>(
                    crate::syntax::Core::Cons(Box::new(ac.unwrap()), Box::new(dc.unwrap())),
                )
            }
        }),
{
    let tv = Value::Sigma { arg_name: x, car_type: Box::new(a_type), cdr_type: Box::new(d_type) };
    let v = Value::Cons(Box::new(a), Box::new(d));
    assert(read_back(f, ctx, tv, v) == read_back_sigma(f, ctx, a_type, d_type, v));
    if f > 0 {
        let g = (f - 1) as nat;
        assert(do_car(v) == Ok::<Value, Error>(a));
        if g > 0 {
            assert(do_cdr(g, v) == Ok::<Value, Error>(d));
        }
        let ac = read_back(g, ctx, a_type, a);
        let dt = closure_val_of(g, d_type, a);
        if ac is Ok && dt is Ok {
            let dc = read_back(g, ctx, dt.unwrap(), d);
            if dc is Ok {
                assert(read_back_sigma(f, ctx, a_type, d_type, v) == Ok::<crate::syntax::Core, Error>(
                    crate::syntax::Core::Cons(Box::new(ac.unwrap()), Box::new(dc.unwrap())),
                ));
            } else {
                assert(read_back_sigma(f, ctx, a_type, d_type, v) is Err);
            }
        } else {
            assert(read_back_sigma(f, ctx, a_type, d_type, v) is Err);
        }
    }
}


/// Reading back a constructor value gives the matching constructor around
/// the read-backs of its parts, each at its own type, parts in order:
/// `(add1 n)` at `Nat`, `(:: h t)` at `(List E)`, `(vec:: h t)` at
/// `(Vec E (add1 l))`, `(left x)` and `(right x)` at `(Either L R)`, and
/// `(same x)` at `(= A from to)`.
pub proof fn constructors_read_back_part_by_part(
    f: nat,
    ctx: Ctx,
    e: Value,
    l_type: Value,
    r_type: Value,
    x: Value,
    y: Value,
)
    ensures
        ({
            let g = (f - 1) as nat;
            let res = read_back(f, ctx, Value::Nat, Value::Add1(Box::new(x)));
            res is Ok ==> res == Ok::<crate::syntax::Core, Error>(
                crate::syntax::Core::Add1(Box::new(read_back(g, ctx, Value::Nat, x).unwrap())),
            )
        }),
        ({
            let g = (f - 1) as nat;
            let lt = Value::List(Box::new(e));
            let res = read_back(f, ctx, lt, Value::ListCons(Box::new(x), Box::new(y)));
            res is Ok ==> res == Ok::<crate::syntax::Core, Error>(
                crate::syntax::Core::ListCons(
                    Box::new(read_back(g, ctx, e, x).unwrap()),
                    Box::new(read_back(g, ctx, lt, y).unwrap()),
                ),
            )
        }),
        ({
            let g = (f - 1) as nat;
            let vt = Value::Vector(Box::new(e), Box::new(Value::Add1(Box::new(l_type))));
            let res = read_back(f, ctx, vt, Value::VectorCons(Box::new(x), Box::new(y)));
            res is Ok ==> res == Ok::<crate::syntax::Core, Error>(
                crate::syntax::Core::VectorCons(
                    Box::new(read_back(g, ctx, e, x).unwrap()),
                    Box::new(read_back(g, ctx, Value::Vector(Box::new(e), Box::new(l_type)), y).unwrap()),
                ),
            )
        }),
        ({
            let g = (f - 1) as nat;
            let et = Value::Either(Box::new(l_type), Box::new(r_type));
            let res = read_back(f, ctx, et, Value::Left(Box::new(x)));
            res is Ok ==> res == Ok::<crate::syntax::Core, Error>(
                crate::syntax::Core::Left(Box::new(read_back(g, ctx, l_type, x).unwrap())),
            )
        }),
        ({
            let g = (f - 1) as nat;
            let et = Value::Either(Box::new(l_type), Box::new(r_type));
            let res = read_back(f, ctx, et, Value::Right(Box::new(x)));
            res is Ok ==> res == Ok::<crate::syntax::Core, Error>(
                crate::syntax::Core::Right(Box::new(read_back(g, ctx, r_type, x).unwrap())),
            )
        }),
        ({
            let g = (f - 1) as nat;
            let qt = Value::Equal { typ: Box::new(e), from: Box::new(l_type), to: Box::new(r_type) };
            let res = read_back(f, ctx, qt, Value::Same(Box::new(x)));
            res is Ok ==> res == Ok::<crate::syntax::Core, Error>(
                crate::syntax::Core::Same(Box::new(read_back(g, ctx, e, x).unwrap())),
            )
        }),
{
    assert(read_back(f, ctx, Value::Nat, Value::Add1(Box::new(x))) == read_back_nat(f, ctx, Value::Add1(Box::new(x))));
    let lt = Value::List(Box::new(e));
    assert(read_back(f, ctx, lt, Value::ListCons(Box::new(x), Box::new(y))) == read_back_list(f, ctx, e, Value::ListCons(Box::new(x), Box::new(y))));
    let vt = Value::Vector(Box::new(e), Box::new(Value::Add1(Box::new(l_type))));
    assert(read_back(f, ctx, vt, Value::VectorCons(Box::new(x), Box::new(y))) == read_back_vector(
        f,
        ctx,
        e,
        Value::Add1(Box::new(l_type)),
        Value::VectorCons(Box::new(x), Box::new(y)),
    ));
    let et = Value::Either(Box::new(l_type), Box::new(r_type));
    assert(read_back(f, ctx, et, Value::Left(Box::new(x))) == read_back_either(f, ctx, l_type, r_type, Value::Left(Box::new(x))));
    assert(read_back(f, ctx, et, Value::Right(Box::new(x))) == read_back_either(f, ctx, l_type, r_type, Value::Right(Box::new(x))));
    let qt = Value::Equal { typ: Box::new(e), from: Box::new(l_type), to: Box::new(r_type) };
    assert(read_back(f, ctx, qt, Value::Same(Box::new(x))) == read_back_same(f, ctx, e, x));
}

} // verus!
