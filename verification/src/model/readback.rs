//! Read-back: from values to normal terms.
use vstd::prelude::*;
use crate::model::eval::{closure_val_of, do_ap, do_car, do_cdr, neu};
use crate::model::names::{bind_free, ctx_fresh};
use crate::symbol::Symbol;
use crate::syntax::{
    App, Core, IndAbsurd, IndList, IndNat, IndVec, IterNat, Lambda, MaybeTyped, Pi, RecList, Ref,
    Sigma, The, ToDo, WhichNat,
};
use crate::value::{Closure, Ctx, Error, Neutral, Value};

verus! {

/// The normal form of the value `v` of type `tv`.
pub open spec fn read_back(f: nat, ctx: Ctx, tv: Value, v: Value) -> Result<Core, Error>
    decreases f, 2nat,
{
    match tv {
        Value::Universe => read_back_type(f, ctx, v),
        Value::Pi { arg_name, arg_type, res_type } => read_back_pi(
            f,
            ctx,
            arg_name,
            *arg_type,
            *res_type,
            v,
        ),
        Value::Sigma { car_type, cdr_type, .. } => read_back_sigma(
            f,
            ctx,
            *car_type,
            *cdr_type,
            v,
        ),
        Value::Absurd => match v {
            Value::Neutral { kind, .. } => read_back_absurd(f, ctx, *kind),
            _ => Err(Error::TypeMismatchVar(v, tv)),
        },
        Value::Failed(err) => Err(*err),
        _ => match v {
            Value::Neutral { kind, .. } => read_back_neutral(f, ctx, *kind),
            Value::Failed(err) => Err(*err),
            _ => match tv {
                Value::Nat => read_back_nat(f, ctx, v),
                Value::Atom => match v {
                    Value::Quote(s) => Ok(Core::Quote(s)),
                    _ => Err(Error::TypeMismatchVar(v, tv)),
                },
                Value::List(etv) => read_back_list(f, ctx, *etv, v),
                Value::Vector(etv, len) => read_back_vector(f, ctx, *etv, *len, v),
                Value::Equal { typ, .. } => match v {
                    Value::Same(x) => read_back_same(f, ctx, *typ, *x),
                    _ => Err(Error::NotSupported),
                },
                Value::Either(ltv, rtv) => read_back_either(f, ctx, *ltv, *rtv, v),
                Value::Trivial => match v {
                    Value::Sole => Ok(Core::Sole),
                    _ => Err(Error::TypeMismatchVar(v, tv)),
                },
                Value::Neutral { .. } => Err(Error::TypeMismatchVar(v, tv)),
                _ => Err(Error::NotATypeVar(tv)),
            },
        },
    }
}

/// Read-back at `Nat`: `zero` and `add1`s.
pub open spec fn read_back_nat(f: nat, ctx: Ctx, v: Value) -> Result<Core, Error>
    decreases f, 0nat,
{
    if f == 0 {
        Err(Error::OutOfFuel)
    } else {
        match v {
            Value::Zero => Ok(Core::Zero),
            Value::Add1(n) => match read_back((f - 1) as nat, ctx, Value::Nat, *n) {
                Err(e) => Err(e),
                Ok(c) => Ok(Core::Add1(Box::new(c))),
            },
            _ => Err(Error::TypeMismatchVar(v, Value::Nat)),
        }
    }
}

/// η-expansion at a Π type: a λ whose body is the read-back of the
/// application to a fresh variable.
pub open spec fn read_back_pi(
    f: nat,
    ctx: Ctx,
    x: Symbol,
    a: Value,
    b: Closure,
    v: Value,
) -> Result<Core, Error>
    decreases f, 0nat,
{
    if f == 0 {
        Err(Error::OutOfFuel)
    } else {
        let g = (f - 1) as nat;
        let y = match v {
            Value::Lambda { arg_name, .. } => arg_name,
            _ => x,
        };
        match ctx_fresh(ctx, y) {
            Err(e) => Err(e),
            Ok(x_hat) => {
                let var = neu(a, Neutral::Var(x_hat));
                match closure_val_of(g, b, var) {
                    Err(e) => Err(e),
                    Ok(rt) => match do_ap(g, v, var) {
                        Err(e) => Err(e),
                        Ok(app) => match read_back(g, bind_free(ctx, x_hat, a), rt, app) {
                            Err(e) => Err(e),
                            Ok(body) => Ok(
                                Core::Lambda(Lambda { arg_name: x_hat, body: Box::new(body) }),
                            ),
                        },
                    },
                }
            },
        }
    }
}

/// η-expansion at a Σ type: the pair of the read-backs of `car` and `cdr`.
pub open spec fn read_back_sigma(f: nat, ctx: Ctx, a: Value, d: Closure, v: Value) -> Result<
    Core,
    Error,
>
    decreases f, 0nat,
{
    if f == 0 {
        Err(Error::OutOfFuel)
    } else {
        let g = (f - 1) as nat;
        match do_car(v) {
            Err(e) => Err(e),
            Ok(the_car) => match read_back(g, ctx, a, the_car) {
                Err(e) => Err(e),
                Ok(ac) => match closure_val_of(g, d, the_car) {
                    Err(e) => Err(e),
                    Ok(dt) => match do_cdr(g, v) {
                        Err(e) => Err(e),
                        Ok(the_cdr) => match read_back(g, ctx, dt, the_cdr) {
                            Err(e) => Err(e),
                            Ok(dc) => Ok(Core::Cons(Box::new(ac), Box::new(dc))),
                        },
                    },
                },
            },
        }
    }
}

/// Read-back at `Absurd`: the neutral term, annotated with `Absurd`.
pub open spec fn read_back_absurd(f: nat, ctx: Ctx, ne: Neutral) -> Result<Core, Error>
    decreases f, 0nat,
{
    if f == 0 {
        Err(Error::OutOfFuel)
    } else {
        match read_back_neutral((f - 1) as nat, ctx, ne) {
            Err(e) => Err(e),
            Ok(c) => Ok(Core::The(The { typ: Box::new(Core::Absurd), exp: Box::new(c) })),
        }
    }
}

/// Read-back at `(List E)`: `nil` and `::`.
pub open spec fn read_back_list(f: nat, ctx: Ctx, etv: Value, v: Value) -> Result<Core, Error>
    decreases f, 0nat,
{
    if f == 0 {
        Err(Error::OutOfFuel)
    } else {
        let g = (f - 1) as nat;
        match v {
            Value::Nil => Ok(Core::Nil),
            Value::ListCons(h, t) => match read_back(g, ctx, etv, *h) {
                Err(e) => Err(e),
                Ok(hc) => match read_back(g, ctx, Value::List(Box::new(etv)), *t) {
                    Err(e) => Err(e),
                    Ok(tc) => Ok(Core::ListCons(Box::new(hc), Box::new(tc))),
                },
            },
            _ => Err(Error::TypeMismatchVar(v, Value::List(Box::new(etv)))),
        }
    }
}

/// Read-back at `(Vec E len)`: `vecnil` at length `zero`, `vec::` at an `add1`.
pub open spec fn read_back_vector(f: nat, ctx: Ctx, etv: Value, len: Value, v: Value) -> Result<
    Core,
    Error,
>
    decreases f, 0nat,
{
    if f == 0 {
        Err(Error::OutOfFuel)
    } else {
        let g = (f - 1) as nat;
        match (len, v) {
            (Value::Zero, Value::VecNil) => Ok(Core::VecNil),
            (Value::Add1(l), Value::VectorCons(h, t)) => match read_back(g, ctx, etv, *h) {
                Err(e) => Err(e),
                Ok(hc) => match read_back(g, ctx, Value::Vector(Box::new(etv), l), *t) {
                    Err(e) => Err(e),
                    Ok(tc) => Ok(Core::VectorCons(Box::new(hc), Box::new(tc))),
                },
            },
            _ => Err(
                Error::TypeMismatchVar(v, Value::Vector(Box::new(etv), Box::new(len))),
            ),
        }
    }
}

/// Read-back of `(same x)` at an equality type over `a`.
pub open spec fn read_back_same(f: nat, ctx: Ctx, a: Value, x: Value) -> Result<Core, Error>
    decreases f, 0nat,
{
    if f == 0 {
        Err(Error::OutOfFuel)
    } else {
        match read_back((f - 1) as nat, ctx, a, x) {
            Err(e) => Err(e),
            Ok(c) => Ok(Core::Same(Box::new(c))),
        }
    }
}

/// Read-back at `(Either L R)`: `left` and `right`.
pub open spec fn read_back_either(f: nat, ctx: Ctx, ltv: Value, rtv: Value, v: Value) -> Result<
    Core,
    Error,
>
    decreases f, 0nat,
{
    if f == 0 {
        Err(Error::OutOfFuel)
    } else {
        let g = (f - 1) as nat;
        match v {
            Value::Left(x) => match read_back(g, ctx, ltv, *x) {
                Err(e) => Err(e),
                Ok(c) => Ok(Core::Left(Box::new(c))),
            },
            Value::Right(x) => match read_back(g, ctx, rtv, *x) {
                Err(e) => Err(e),
                Ok(c) => Ok(Core::Right(Box::new(c))),
            },
            _ => Err(Error::TypeMismatchVar(v, Value::Either(Box::new(ltv), Box::new(rtv)))),
        }
    }
}

/// The normal form of the type value `v`.
pub open spec fn read_back_type(f: nat, ctx: Ctx, v: Value) -> Result<Core, Error>
    decreases f, 1nat,
{
    match v {
        Value::Universe => Ok(Core::Universe),
        Value::Nat => Ok(Core::Nat),
        Value::Atom => Ok(Core::Atom),
        Value::Trivial => Ok(Core::Trivial),
        Value::Absurd => Ok(Core::Absurd),
        Value::Pi { arg_name, arg_type, res_type } => read_back_type_pi(
            f,
            ctx,
            arg_name,
            *arg_type,
            *res_type,
        ),
        Value::Sigma { arg_name, car_type, cdr_type } => read_back_type_sigma(
            f,
            ctx,
            arg_name,
            *car_type,
            *cdr_type,
        ),
        Value::List(etv) => read_back_type_list(f, ctx, *etv),
        Value::Vector(etv, len) => read_back_type_vector(f, ctx, *etv, *len),
        Value::Equal { typ, from, to } => read_back_type_equal(f, ctx, *typ, *from, *to),
        Value::Either(ltv, rtv) => read_back_type_either(f, ctx, *ltv, *rtv),
        Value::Neutral { type_value, kind } => match *type_value {
            Value::Universe => read_back_neutral(f, ctx, *kind),
            _ => Err(Error::Stuck),
        },
        Value::Left(_) | Value::Right(_) | Value::Same(_) => Err(Error::NotSupported),
        Value::Sole => Err(Error::Stuck),
        Value::VectorCons(h, t) => Err(Error::NotATypeVar(Value::ListCons(h, t))),
        _ => Err(Error::NotATypeVar(v)),
    }
}

/// Read-back of a Π type, its binder renamed apart from the context.
pub open spec fn read_back_type_pi(f: nat, ctx: Ctx, x: Symbol, a: Value, b: Closure) -> Result<
    Core,
    Error,
>
    decreases f, 0nat,
{
    if f == 0 {
        Err(Error::OutOfFuel)
    } else {
        let g = (f - 1) as nat;
        match read_back_type(g, ctx, a) {
            Err(e) => Err(e),
            Ok(ae) => match ctx_fresh(ctx, x) {
                Err(e) => Err(e),
                Ok(x_hat) => match closure_val_of(g, b, neu(a, Neutral::Var(x_hat))) {
                    Err(e) => Err(e),
                    Ok(bv) => match read_back_type(g, bind_free(ctx, x_hat, a), bv) {
                        Err(e) => Err(e),
                        Ok(be) => Ok(
                            Core::Pi(
                                Pi { arg_name: x_hat, arg_type: Box::new(ae), res_type: Box::new(be) },
                            ),
                        ),
                    },
                },
            },
        }
    }
}

/// Read-back of a Σ type, its binder renamed apart from the context.
pub open spec fn read_back_type_sigma(
    f: nat,
    ctx: Ctx,
    x: Symbol,
    a: Value,
    d: Closure,
) -> Result<Core, Error>
    decreases f, 0nat,
{
    if f == 0 {
        Err(Error::OutOfFuel)
    } else {
        let g = (f - 1) as nat;
        match read_back_type(g, ctx, a) {
            Err(e) => Err(e),
            Ok(ae) => match ctx_fresh(ctx, x) {
                Err(e) => Err(e),
                Ok(x_hat) => match closure_val_of(g, d, neu(a, Neutral::Var(x_hat))) {
                    Err(e) => Err(e),
                    Ok(dv) => match read_back_type(g, bind_free(ctx, x_hat, a), dv) {
                        Err(e) => Err(e),
                        Ok(de) => Ok(
                            Core::Sigma(
                                Sigma {
                                    arg_name: x_hat,
                                    car_type: Box::new(ae),
                                    cdr_type: Box::new(de),
                                },
                            ),
                        ),
                    },
                },
            },
        }
    }
}

/// Read-back of `(List E)`.
pub open spec fn read_back_type_list(f: nat, ctx: Ctx, etv: Value) -> Result<Core, Error>
    decreases f, 0nat,
{
    if f == 0 {
        Err(Error::OutOfFuel)
    } else {
        match read_back_type((f - 1) as nat, ctx, etv) {
            Err(e) => Err(e),
            Ok(c) => Ok(Core::List(Box::new(c))),
        }
    }
}

/// Read-back of `(Vec E len)`.
pub open spec fn read_back_type_vector(f: nat, ctx: Ctx, etv: Value, len: Value) -> Result<
    Core,
    Error,
>
    decreases f, 0nat,
{
    if f == 0 {
        Err(Error::OutOfFuel)
    } else {
        let g = (f - 1) as nat;
        match read_back_type(g, ctx, etv) {
            Err(e) => Err(e),
            Ok(ec) => match read_back(g, ctx, Value::Nat, len) {
                Err(e) => Err(e),
                Ok(lc) => Ok(Core::Vector(Box::new(ec), Box::new(lc))),
            },
        }
    }
}

/// Read-back of `(= A from to)`.
pub open spec fn read_back_type_equal(
    f: nat,
    ctx: Ctx,
    a: Value,
    from: Value,
    to: Value,
) -> Result<Core, Error>
    decreases f, 0nat,
{
    if f == 0 {
        Err(Error::OutOfFuel)
    } else {
        let g = (f - 1) as nat;
        match read_back_type(g, ctx, a) {
            Err(e) => Err(e),
            Ok(ac) => match read_back(g, ctx, a, from) {
                Err(e) => Err(e),
                Ok(fc) => match read_back(g, ctx, a, to) {
                    Err(e) => Err(e),
                    Ok(tc) => Ok(
                        Core::Equal(
                            crate::syntax::Equal {
                                typ: Box::new(ac),
                                from: Box::new(fc),
                                to: Box::new(tc),
                            },
                        ),
                    ),
                },
            },
        }
    }
}

/// Read-back of `(Either L R)`.
pub open spec fn read_back_type_either(f: nat, ctx: Ctx, ltv: Value, rtv: Value) -> Result<
    Core,
    Error,
>
    decreases f, 0nat,
{
    if f == 0 {
        Err(Error::OutOfFuel)
    } else {
        let g = (f - 1) as nat;
        match read_back_type(g, ctx, ltv) {
            Err(e) => Err(e),
            Ok(lc) => match read_back_type(g, ctx, rtv) {
                Err(e) => Err(e),
                Ok(rc) => Ok(Core::Either(Box::new(lc), Box::new(rc))),
            },
        }
    }
}

/// The read-backs of a value and its type, as `(type, term)`.
pub open spec fn read_back_typed(f: nat, ctx: Ctx, tv: Value, v: Value) -> Result<
    (Core, Core),
    Error,
>
    decreases f, 0nat,
{
    if f == 0 {
        Err(Error::OutOfFuel)
    } else {
        match read_back_type((f - 1) as nat, ctx, tv) {
            Err(e) => Err(e),
            Ok(tc) => match read_back((f - 1) as nat, ctx, tv, v) {
                Err(e) => Err(e),
                Ok(vc) => Ok((tc, vc)),
            },
        }
    }
}

/// The term form of a neutral value.
pub open spec fn read_back_neutral(f: nat, ctx: Ctx, ne: Neutral) -> Result<Core, Error>
    decreases f, 0nat,
{
    if f == 0 {
        Err(Error::OutOfFuel)
    } else {
        let g = (f - 1) as nat;
        match ne {
            Neutral::Var(x) => Ok(Core::Ref(Ref(x))),
            Neutral::App(n, a) => match read_back_neutral(g, ctx, *n) {
                Err(e) => Err(e),
                Ok(nc) => match read_back(g, ctx, a.typ, a.value) {
                    Err(e) => Err(e),
                    Ok(ac) => Ok(Core::App(App { fun: Box::new(nc), arg: Box::new(ac) })),
                },
            },
            Neutral::Car(n) => match read_back_neutral(g, ctx, *n) {
                Err(e) => Err(e),
                Ok(nc) => Ok(Core::Car(Box::new(nc))),
            },
            Neutral::Cdr(n) => match read_back_neutral(g, ctx, *n) {
                Err(e) => Err(e),
                Ok(nc) => Ok(Core::Cdr(Box::new(nc))),
            },
            Neutral::WhichNat(n, b, s) => match read_back_neutral(g, ctx, *n) {
                Err(e) => Err(e),
                Ok(nc) => match read_back_typed(g, ctx, b.typ, b.value) {
                    Err(e) => Err(e),
                    Ok((btc, bc)) => match read_back(g, ctx, s.typ, s.value) {
                        Err(e) => Err(e),
                        Ok(sc) => Ok(
                            Core::WhichNat(
                                WhichNat {
                                    target: Box::new(nc),
                                    base: MaybeTyped::Plain(
                                        Box::new(
                                            Core::The(The { typ: Box::new(btc), exp: Box::new(bc) }),
                                        ),
                                    ),
                                    step: Box::new(sc),
                                },
                            ),
                        ),
                    },
                },
            },
            Neutral::IterNat(n, b, s) => match read_back_neutral(g, ctx, *n) {
                Err(e) => Err(e),
                Ok(nc) => match read_back_typed(g, ctx, b.typ, b.value) {
                    Err(e) => Err(e),
                    Ok((btc, bc)) => match read_back(g, ctx, s.typ, s.value) {
                        Err(e) => Err(e),
                        Ok(sc) => Ok(
                            Core::IterNat(
                                IterNat {
                                    target: Box::new(nc),
                                    base: MaybeTyped::The(Box::new(btc), Box::new(bc)),
                                    step: Box::new(sc),
                                },
                            ),
                        ),
                    },
                },
            },
            Neutral::IndNat(n, m, b, s) => match read_back_neutral(g, ctx, *n) {
                Err(e) => Err(e),
                Ok(nc) => match read_back(g, ctx, m.typ, m.value) {
                    Err(e) => Err(e),
                    Ok(mc) => match read_back(g, ctx, b.typ, b.value) {
                        Err(e) => Err(e),
                        Ok(bc) => match read_back(g, ctx, s.typ, s.value) {
                            Err(e) => Err(e),
                            Ok(sc) => Ok(
                                Core::IndNat(
                                    IndNat {
                                        target: Box::new(nc),
                                        motive: Box::new(mc),
                                        base: Box::new(bc),
                                        step: Box::new(sc),
                                    },
                                ),
                            ),
                        },
                    },
                },
            },
            Neutral::RecList(n, b, s) => match read_back_neutral(g, ctx, *n) {
                Err(e) => Err(e),
                Ok(nc) => match read_back_typed(g, ctx, b.typ, b.value) {
                    Err(e) => Err(e),
                    Ok((btc, bc)) => match read_back(g, ctx, s.typ, s.value) {
                        Err(e) => Err(e),
                        Ok(sc) => Ok(
                            Core::RecList(
                                RecList {
                                    target: Box::new(nc),
                                    base: MaybeTyped::The(Box::new(btc), Box::new(bc)),
                                    step: Box::new(sc),
                                },
                            ),
                        ),
                    },
                },
            },
            Neutral::IndList(_, _, _, _) => Err(Error::NotSupported),
            Neutral::Head(n) => match read_back_neutral(g, ctx, *n) {
                Err(e) => Err(e),
                Ok(nc) => Ok(Core::Head(Box::new(nc))),
            },
            Neutral::Tail(n) => match read_back_neutral(g, ctx, *n) {
                Err(e) => Err(e),
                Ok(nc) => Ok(Core::Tail(Box::new(nc))),
            },
            Neutral::IndVec12(l, es, m, b, s) => match read_back_neutral(g, ctx, *l) {
                Err(e) => Err(e),
                Ok(lc) => match read_back_neutral(g, ctx, *es) {
                    Err(e) => Err(e),
                    Ok(ec) => match read_back(g, ctx, m.typ, m.value) {
                        Err(e) => Err(e),
                        Ok(mc) => match read_back(g, ctx, b.typ, b.value) {
                            Err(e) => Err(e),
                            Ok(bc) => match read_back(g, ctx, s.typ, s.value) {
                                Err(e) => Err(e),
                                Ok(sc) => Ok(
                                    Core::IndVec(
                                        IndVec {
                                            len: Box::new(lc),
                                            target: Box::new(ec),
                                            motive: Box::new(mc),
                                            base: Box::new(bc),
                                            step: Box::new(sc),
                                        },
                                    ),
                                ),
                            },
                        },
                    },
                },
            },
            Neutral::IndVec2(_, _, _, _, _) => Err(Error::NotSupported),
            Neutral::IndEither(n, m, l, r) => match read_back_neutral(g, ctx, *n) {
                Err(e) => Err(e),
                Ok(nc) => match read_back(g, ctx, m.typ, m.value) {
                    Err(e) => Err(e),
                    Ok(mc) => match read_back(g, ctx, l.typ, l.value) {
                        Err(e) => Err(e),
                        Ok(lc) => match read_back(g, ctx, r.typ, r.value) {
                            Err(e) => Err(e),
                            Ok(rc) => Ok(
                                Core::IndList(
                                    IndList {
                                        target: Box::new(nc),
                                        motive: Box::new(mc),
                                        base: Box::new(lc),
                                        step: Box::new(rc),
                                    },
                                ),
                            ),
                        },
                    },
                },
            },
            Neutral::IndAbsurd(n, m) => match read_back_neutral(g, ctx, *n) {
                Err(e) => Err(e),
                Ok(nc) => match read_back(g, ctx, m.typ, m.value) {
                    Err(e) => Err(e),
                    Ok(mc) => Ok(
                        Core::IndAbsurd(
                            IndAbsurd {
                                target: Box::new(
                                    Core::The(The { typ: Box::new(Core::Absurd), exp: Box::new(nc) }),
                                ),
                                motive: Box::new(mc),
                            },
                        ),
                    ),
                },
            },
            Neutral::Todo(name, tv) => match read_back_type(g, ctx, *tv) {
                Err(e) => Err(e),
                Ok(tc) => Ok(Core::ToDo(ToDo { name, typ: Some(Box::new(tc)) })),
            },
        }
    }
}

} // verus!
