//! Evaluation of terms to values, and the eliminators on values.
use vstd::prelude::*;
use crate::symbol::{sym, Symbol};
use crate::syntax::{
    App, Core, CoreList, Equal, IndAbsurd, IndEither, IndList, IndNat, IndVec, IterNat, MaybeTyped,
    Pi, RecList, RecNat, Ref, Replace, Sigma, The, ToDo, WhichNat,
};
use crate::value::{Closure, Env, Error, Neutral, Typed, Value};

verus! {

/// The value bound to `x` in `env`, the most recent binding first.
pub open spec fn env_lookup(env: Env, x: Symbol) -> Option<Value>
    decreases env,
{
    match env {
        Env::Empty => None,
        Env::Extend(y, v, rest) => if y == x {
            Some(*v)
        } else {
            env_lookup(*rest, x)
        },
    }
}

/// `env` with `x` bound to `v`.
pub open spec fn env_extend(env: Env, x: Symbol, v: Value) -> Env {
    Env::Extend(x, Box::new(v), Box::new(env))
}

/// A Π value.
pub open spec fn pi_v(x: Symbol, a: Value, clo: Closure) -> Value {
    Value::Pi { arg_name: x, arg_type: Box::new(a), res_type: Box::new(clo) }
}

/// The neutral value of type `tv` made of `ne`.
pub open spec fn neu(tv: Value, ne: Neutral) -> Value {
    Value::Neutral { type_value: Box::new(tv), kind: Box::new(ne) }
}

/// A value paired with its type.
pub open spec fn typed(tv: Value, v: Value) -> Box<Typed> {
    Box::new(Typed { typ: tv, value: v })
}

/// The name under which closures built by the library keep a captured value.
pub open spec fn captured() -> Symbol {
    sym("%c"@)
}

/// A second captured name, for closures that keep two values.
pub open spec fn captured2() -> Symbol {
    sym("%d"@)
}

/// A reference to `x`.
pub open spec fn rf(x: Symbol) -> Core {
    Core::Ref(Ref(x))
}

/// Application `(f a)`.
pub open spec fn ap(f: Core, a: Core) -> Core {
    Core::App(App { fun: Box::new(f), arg: Box::new(a) })
}

/// A Π term.
pub open spec fn pi_c(x: Symbol, a: Core, b: Core) -> Core {
    Core::Pi(Pi { arg_name: x, arg_type: Box::new(a), res_type: Box::new(b) })
}

/// The closure over `var` that ignores its argument and returns `v`.
pub open spec fn const_closure(var: Symbol, v: Value) -> Closure {
    Closure {
        env: env_extend(Env::Empty, captured(), v),
        var,
        expr: rf(captured()),
    }
}

/// A closure whose body `expr` sees `v` under the name `captured()`.
pub open spec fn capture(var: Symbol, v: Value, expr: Core) -> Closure {
    Closure { env: env_extend(Env::Empty, captured(), v), var, expr }
}

/// A closure whose body sees `v` as `captured()` and `w` as `captured2()`.
pub open spec fn capture2(var: Symbol, v: Value, w: Value, expr: Core) -> Closure {
    Closure {
        env: env_extend(env_extend(Env::Empty, captured(), v), captured2(), w),
        var,
        expr,
    }
}

/// Evaluation of `e` in `env`.
pub open spec fn eval(f: nat, env: Env, e: Core) -> Result<Value, Error>
    decreases f, 1nat,
{
    match e {
        Core::Invalid(_) => Err(Error::NotSupported),
        Core::The(t) => eval_the(f, env, t),
        Core::Universe => Ok(Value::Universe),
        Core::Nat => Ok(Value::Nat),
        Core::Zero => Ok(Value::Zero),
        Core::Add1(n) => eval_add1(f, env, *n),
        Core::WhichNat(w) => eval_which_nat(f, env, w),
        Core::IterNat(w) => eval_iter_nat(f, env, w),
        Core::RecNat(w) => eval_rec_nat(f, env, w),
        Core::IndNat(w) => eval_ind_nat(f, env, w),
        Core::Atom => Ok(Value::Atom),
        Core::Quote(s) => Ok(Value::Quote(s)),
        Core::Fun(_) => Err(Error::NotSupported),
        Core::Pi(p) => eval_pi(f, env, p),
        Core::PiStar(_, _) => Err(Error::NotSupported),
        Core::Lambda(l) => Ok(
            Value::Lambda {
                arg_name: l.arg_name,
                body: Box::new(Closure { env, var: l.arg_name, expr: *l.body }),
            },
        ),
        Core::LambdaStar(_, _) => Err(Error::NotSupported),
        Core::App(a) => eval_app(f, env, a),
        Core::AppStar(g, args) => eval_app_star(f, env, *g, args),
        Core::Ref(r) => match env_lookup(env, r.0) {
            Some(v) => Ok(v),
            None => Err(Error::UnknownVariable(r.0)),
        },
        Core::Sigma(s) => eval_sigma(f, env, s),
        Core::SigmaStar(_, _) => Err(Error::NotSupported),
        Core::Pair(_, _) => Err(Error::NotSupported),
        Core::Cons(a, d) => eval_cons(f, env, *a, *d),
        Core::Car(p) => eval_car(f, env, *p),
        Core::Cdr(p) => eval_cdr(f, env, *p),
        Core::List(t) => eval_list(f, env, *t),
        Core::Nil => Ok(Value::Nil),
        Core::ListCons(h, t) => eval_list_cons(f, env, *h, *t),
        Core::RecList(r) => eval_rec_list(f, env, r),
        Core::IndList(i) => eval_ind_list(f, env, i),
        Core::Vector(t, n) => eval_vector(f, env, *t, *n),
        Core::VecNil => Ok(Value::VecNil),
        Core::VectorCons(h, t) => eval_vector_cons(f, env, *h, *t),
        Core::Head(v) => eval_head(f, env, *v),
        Core::Tail(v) => eval_tail(f, env, *v),
        Core::IndVec(i) => eval_ind_vec(f, env, i),
        Core::ToDo(t) => eval_todo(f, env, t),
        Core::Equal(q) => eval_equal(f, env, q),
        Core::Same(x) => eval_same(f, env, *x),
        Core::Replace(r) => eval_replace(f, env, r),
        Core::Cong(_, _) => Err(Error::NotSupported),
        Core::Cong2(p, t, g) => eval_cong2(f, env, *p, *t, *g),
        Core::Symm(p) => eval_symm(f, env, *p),
        Core::Either(l, r) => eval_either(f, env, *l, *r),
        Core::Left(x) => eval_left(f, env, *x),
        Core::Right(x) => eval_right(f, env, *x),
        Core::IndEither(i) => eval_ind_either(f, env, i),
        Core::Trivial => Ok(Value::Trivial),
        Core::Sole => Ok(Value::Sole),
        Core::Absurd => Ok(Value::Absurd),
        Core::IndAbsurd(i) => eval_ind_absurd(f, env, i),
    }
}

/// The outcome of evaluating a part of a term that is only used when
/// needed: a failure other than running out of fuel is kept inside a
/// `Failed` value, to come back where the part is used.
pub open spec fn deferred(r: Result<Value, Error>) -> Result<Value, Error> {
    match r {
        Ok(v) => Ok(v),
        Err(Error::OutOfFuel) => Err(Error::OutOfFuel),
        Err(e) => Ok(Value::Failed(Box::new(e))),
    }
}

/// `later(env, e)`: the value of `e` in `env`, one fuel level down, used
/// only when needed.
pub open spec fn later(f: nat, env: Env, e: Core) -> Result<Value, Error>
    decreases f, 0nat,
{
    if f == 0 {
        Err(Error::OutOfFuel)
    } else {
        deferred(eval((f - 1) as nat, env, e))
    }
}

/// `(the T e)` evaluates to the value of `e`.
pub open spec fn eval_the(f: nat, env: Env, t: The) -> Result<Value, Error>
    decreases f, 0nat,
{
    if f == 0 {
        Err(Error::OutOfFuel)
    } else {
        eval((f - 1) as nat, env, *t.exp)
    }
}

/// `(add1 n)` evaluates to the successor of `n`'s value.
pub open spec fn eval_add1(f: nat, env: Env, n: Core) -> Result<Value, Error>
    decreases f, 0nat,
{
    if f == 0 {
        Err(Error::OutOfFuel)
    } else {
        match deferred(eval((f - 1) as nat, env, n)) {
            Ok(v) => Ok(Value::Add1(Box::new(v))),
            Err(e) => Err(e),
        }
    }
}

/// The values of four terms in one environment, in order.
pub open spec fn eval4(f: nat, env: Env, a: Core, b: Core, c: Core, d: Core) -> Result<
    (Value, Value, Value, Value),
    Error,
>
    decreases f, 0nat,
{
    if f == 0 {
        Err(Error::OutOfFuel)
    } else {
        let g = (f - 1) as nat;
        match deferred(eval(g, env, a)) {
            Err(e) => Err(e),
            Ok(av) => match deferred(eval(g, env, b)) {
                Err(e) => Err(e),
                Ok(bv) => match deferred(eval(g, env, c)) {
                    Err(e) => Err(e),
                    Ok(cv) => match deferred(eval(g, env, d)) {
                        Err(e) => Err(e),
                        Ok(dv) => Ok((av, bv, cv, dv)),
                    },
                },
            },
        }
    }
}

/// The values of three terms in one environment, in order.
pub open spec fn eval3(f: nat, env: Env, a: Core, b: Core, c: Core) -> Result<
    (Value, Value, Value),
    Error,
>
    decreases f, 0nat,
{
    if f == 0 {
        Err(Error::OutOfFuel)
    } else {
        let g = (f - 1) as nat;
        match deferred(eval(g, env, a)) {
            Err(e) => Err(e),
            Ok(av) => match deferred(eval(g, env, b)) {
                Err(e) => Err(e),
                Ok(bv) => match deferred(eval(g, env, c)) {
                    Err(e) => Err(e),
                    Ok(cv) => Ok((av, bv, cv)),
                },
            },
        }
    }
}

/// The values of two terms in one environment, in order.
pub open spec fn eval2(f: nat, env: Env, a: Core, b: Core) -> Result<(Value, Value), Error>
    decreases f, 0nat,
{
    if f == 0 {
        Err(Error::OutOfFuel)
    } else {
        let g = (f - 1) as nat;
        match deferred(eval(g, env, a)) {
            Err(e) => Err(e),
            Ok(av) => match deferred(eval(g, env, b)) {
                Err(e) => Err(e),
                Ok(bv) => Ok((av, bv)),
            },
        }
    }
}

/// Evaluates an elaborated `which-Nat`; a plain base is not supported.
pub open spec fn eval_which_nat(f: nat, env: Env, w: WhichNat) -> Result<Value, Error>
    decreases f, 0nat,
{
    if f == 0 {
        Err(Error::OutOfFuel)
    } else {
        match w.base {
            MaybeTyped::Plain(_) => Err(Error::NotSupported),
            MaybeTyped::The(bt, b) => match eval4((f - 1) as nat, env, *w.target, *bt, *b, *w.step) {
                Err(e) => Err(e),
                Ok((tv, btv, bv, sv)) => do_which_nat((f - 1) as nat, tv, btv, bv, sv),
            },
        }
    }
}

/// Evaluates an elaborated `iter-Nat`; a plain base is not supported.
pub open spec fn eval_iter_nat(f: nat, env: Env, w: IterNat) -> Result<Value, Error>
    decreases f, 0nat,
{
    if f == 0 {
        Err(Error::OutOfFuel)
    } else {
        match w.base {
            MaybeTyped::Plain(_) => Err(Error::NotSupported),
            MaybeTyped::The(bt, b) => match eval4((f - 1) as nat, env, *w.target, *bt, *b, *w.step) {
                Err(e) => Err(e),
                Ok((tv, btv, bv, sv)) => do_iter_nat((f - 1) as nat, tv, btv, bv, sv),
            },
        }
    }
}

/// Evaluates an elaborated `rec-Nat`; a plain base is not supported.
pub open spec fn eval_rec_nat(f: nat, env: Env, w: RecNat) -> Result<Value, Error>
    decreases f, 0nat,
{
    if f == 0 {
        Err(Error::OutOfFuel)
    } else {
        match w.base {
            MaybeTyped::Plain(_) => Err(Error::NotSupported),
            MaybeTyped::The(bt, b) => match eval4((f - 1) as nat, env, *w.target, *bt, *b, *w.step) {
                Err(e) => Err(e),
                Ok((tv, btv, bv, sv)) => do_rec_nat((f - 1) as nat, tv, btv, bv, sv),
            },
        }
    }
}

/// Evaluates `ind-Nat`.
pub open spec fn eval_ind_nat(f: nat, env: Env, w: IndNat) -> Result<Value, Error>
    decreases f, 0nat,
{
    if f == 0 {
        Err(Error::OutOfFuel)
    } else {
        match eval4((f - 1) as nat, env, *w.target, *w.motive, *w.base, *w.step) {
            Err(e) => Err(e),
            Ok((tv, mv, bv, sv)) => do_ind_nat((f - 1) as nat, tv, mv, bv, sv),
        }
    }
}

/// A Π term evaluates to a Π value whose result type is a closure.
pub open spec fn eval_pi(f: nat, env: Env, p: Pi) -> Result<Value, Error>
    decreases f, 0nat,
{
    if f == 0 {
        Err(Error::OutOfFuel)
    } else {
        match deferred(eval((f - 1) as nat, env, *p.arg_type)) {
            Err(e) => Err(e),
            Ok(av) => Ok(pi_v(p.arg_name, av, Closure { env, var: p.arg_name, expr: *p.res_type })),
        }
    }
}

/// Evaluates an application: the function's value applied to the argument's.
pub open spec fn eval_app(f: nat, env: Env, a: App) -> Result<Value, Error>
    decreases f, 0nat,
{
    if f == 0 {
        Err(Error::OutOfFuel)
    } else {
        match eval2((f - 1) as nat, env, *a.fun, *a.arg) {
            Err(e) => Err(e),
            Ok((fv, av)) => do_ap((f - 1) as nat, fv, av),
        }
    }
}

/// `(f a b ...)`: the arguments are applied one at a time.
pub open spec fn eval_app_star(f: nat, env: Env, g: Core, args: CoreList) -> Result<Value, Error>
    decreases f, 0nat,
{
    if f == 0 {
        Err(Error::OutOfFuel)
    } else {
        match deferred(eval((f - 1) as nat, env, g)) {
            Err(e) => Err(e),
            Ok(gv) => apply_all((f - 1) as nat, env, gv, args),
        }
    }
}

/// Applies `fv` to the values of `args`, left to right.
pub open spec fn apply_all(f: nat, env: Env, fv: Value, args: CoreList) -> Result<Value, Error>
    decreases f, 0nat,
{
    if f == 0 {
        Err(Error::OutOfFuel)
    } else {
        match args {
            CoreList::Empty => Ok(fv),
            CoreList::More(a, rest) => match deferred(eval((f - 1) as nat, env, *a)) {
                Err(e) => Err(e),
                Ok(av) => match do_ap((f - 1) as nat, fv, av) {
                    Err(e) => Err(e),
                    Ok(r) => apply_all((f - 1) as nat, env, r, *rest),
                },
            },
        }
    }
}

/// A Σ term evaluates to a Σ value whose second type is a closure.
pub open spec fn eval_sigma(f: nat, env: Env, s: Sigma) -> Result<Value, Error>
    decreases f, 0nat,
{
    if f == 0 {
        Err(Error::OutOfFuel)
    } else {
        match deferred(eval((f - 1) as nat, env, *s.car_type)) {
            Err(e) => Err(e),
            Ok(av) => Ok(
                Value::Sigma {
                    arg_name: s.arg_name,
                    car_type: Box::new(av),
                    cdr_type: Box::new(Closure { env, var: s.arg_name, expr: *s.cdr_type }),
                },
            ),
        }
    }
}

/// `(cons a d)` evaluates to the pair of the values.
pub open spec fn eval_cons(f: nat, env: Env, a: Core, d: Core) -> Result<Value, Error>
    decreases f, 0nat,
{
    if f == 0 {
        Err(Error::OutOfFuel)
    } else {
        match eval2((f - 1) as nat, env, a, d) {
            Err(e) => Err(e),
            Ok((av, dv)) => Ok(Value::Cons(Box::new(av), Box::new(dv))),
        }
    }
}

/// `(car p)`: the first component of `p`'s value.
pub open spec fn eval_car(f: nat, env: Env, p: Core) -> Result<Value, Error>
    decreases f, 0nat,
{
    if f == 0 {
        Err(Error::OutOfFuel)
    } else {
        match deferred(eval((f - 1) as nat, env, p)) {
            Err(e) => Err(e),
            Ok(pv) => do_car(pv),
        }
    }
}

/// `(cdr p)`: the second component of `p`'s value.
pub open spec fn eval_cdr(f: nat, env: Env, p: Core) -> Result<Value, Error>
    decreases f, 0nat,
{
    if f == 0 {
        Err(Error::OutOfFuel)
    } else {
        match deferred(eval((f - 1) as nat, env, p)) {
            Err(e) => Err(e),
            Ok(pv) => do_cdr((f - 1) as nat, pv),
        }
    }
}

/// `(List E)` evaluates to the list type of `E`'s value.
pub open spec fn eval_list(f: nat, env: Env, t: Core) -> Result<Value, Error>
    decreases f, 0nat,
{
    if f == 0 {
        Err(Error::OutOfFuel)
    } else {
        match deferred(eval((f - 1) as nat, env, t)) {
            Err(e) => Err(e),
            Ok(tv) => Ok(Value::List(Box::new(tv))),
        }
    }
}

/// `(:: h t)` evaluates to the list value of the two values.
pub open spec fn eval_list_cons(f: nat, env: Env, h: Core, t: Core) -> Result<Value, Error>
    decreases f, 0nat,
{
    if f == 0 {
        Err(Error::OutOfFuel)
    } else {
        match eval2((f - 1) as nat, env, h, t) {
            Err(e) => Err(e),
            Ok((hv, tv)) => Ok(Value::ListCons(Box::new(hv), Box::new(tv))),
        }
    }
}

/// Evaluates an elaborated `rec-List`; a plain base is not supported.
pub open spec fn eval_rec_list(f: nat, env: Env, w: RecList) -> Result<Value, Error>
    decreases f, 0nat,
{
    if f == 0 {
        Err(Error::OutOfFuel)
    } else {
        match w.base {
            MaybeTyped::Plain(_) => Err(Error::NotSupported),
            MaybeTyped::The(bt, b) => match eval4((f - 1) as nat, env, *w.target, *bt, *b, *w.step) {
                Err(e) => Err(e),
                Ok((tv, btv, bv, sv)) => do_rec_list((f - 1) as nat, tv, btv, bv, sv),
            },
        }
    }
}

/// Evaluates `ind-List`.
pub open spec fn eval_ind_list(f: nat, env: Env, w: IndList) -> Result<Value, Error>
    decreases f, 0nat,
{
    if f == 0 {
        Err(Error::OutOfFuel)
    } else {
        match eval4((f - 1) as nat, env, *w.target, *w.motive, *w.base, *w.step) {
            Err(e) => Err(e),
            Ok((tv, mv, bv, sv)) => do_ind_list((f - 1) as nat, tv, mv, bv, sv),
        }
    }
}

/// `(Vec E n)` evaluates to the vector type of the values.
pub open spec fn eval_vector(f: nat, env: Env, t: Core, n: Core) -> Result<Value, Error>
    decreases f, 0nat,
{
    if f == 0 {
        Err(Error::OutOfFuel)
    } else {
        match eval2((f - 1) as nat, env, t, n) {
            Err(e) => Err(e),
            Ok((tv, nv)) => Ok(Value::Vector(Box::new(tv), Box::new(nv))),
        }
    }
}

/// `(vec:: h t)` evaluates to the vector value of the two values.
pub open spec fn eval_vector_cons(f: nat, env: Env, h: Core, t: Core) -> Result<Value, Error>
    decreases f, 0nat,
{
    if f == 0 {
        Err(Error::OutOfFuel)
    } else {
        match eval2((f - 1) as nat, env, h, t) {
            Err(e) => Err(e),
            Ok((hv, tv)) => Ok(Value::VectorCons(Box::new(hv), Box::new(tv))),
        }
    }
}

/// `(head v)`: the first entry of `v`'s value.
pub open spec fn eval_head(f: nat, env: Env, v: Core) -> Result<Value, Error>
    decreases f, 0nat,
{
    if f == 0 {
        Err(Error::OutOfFuel)
    } else {
        match deferred(eval((f - 1) as nat, env, v)) {
            Err(e) => Err(e),
            Ok(vv) => do_head(vv),
        }
    }
}

/// `(tail v)`: `v`'s value without its first entry.
pub open spec fn eval_tail(f: nat, env: Env, v: Core) -> Result<Value, Error>
    decreases f, 0nat,
{
    if f == 0 {
        Err(Error::OutOfFuel)
    } else {
        match deferred(eval((f - 1) as nat, env, v)) {
            Err(e) => Err(e),
            Ok(vv) => do_tail(vv),
        }
    }
}

/// Evaluates `ind-Vec`.
pub open spec fn eval_ind_vec(f: nat, env: Env, w: IndVec) -> Result<Value, Error>
    decreases f, 0nat,
{
    if f == 0 {
        Err(Error::OutOfFuel)
    } else {
        match deferred(eval((f - 1) as nat, env, *w.len)) {
            Err(e) => Err(e),
            Ok(lv) => match eval4((f - 1) as nat, env, *w.target, *w.motive, *w.base, *w.step) {
                Err(e) => Err(e),
                Ok((tv, mv, bv, sv)) => do_ind_vec((f - 1) as nat, lv, tv, mv, bv, sv),
            },
        }
    }
}

/// A hole evaluates to a neutral value of its annotated type; an unannotated hole is not
/// supported.
pub open spec fn eval_todo(f: nat, env: Env, t: ToDo) -> Result<Value, Error>
    decreases f, 0nat,
{
    if f == 0 {
        Err(Error::OutOfFuel)
    } else {
        match t.typ {
            None => Err(Error::NotSupported),
            Some(ty) => match deferred(eval((f - 1) as nat, env, *ty)) {
                Err(e) => Err(e),
                Ok(tv) => Ok(neu(tv, Neutral::Todo(t.name, Box::new(tv)))),
            },
        }
    }
}

/// `(= A from to)` evaluates each part.
pub open spec fn eval_equal(f: nat, env: Env, q: Equal) -> Result<Value, Error>
    decreases f, 0nat,
{
    if f == 0 {
        Err(Error::OutOfFuel)
    } else {
        match eval3((f - 1) as nat, env, *q.typ, *q.from, *q.to) {
            Err(e) => Err(e),
            Ok((tv, fv, ov)) => Ok(
                Value::Equal { typ: Box::new(tv), from: Box::new(fv), to: Box::new(ov) },
            ),
        }
    }
}

/// `(same x)` evaluates to `same` of `x`'s value.
pub open spec fn eval_same(f: nat, env: Env, x: Core) -> Result<Value, Error>
    decreases f, 0nat,
{
    if f == 0 {
        Err(Error::OutOfFuel)
    } else {
        match deferred(eval((f - 1) as nat, env, x)) {
            Err(e) => Err(e),
            Ok(v) => Ok(Value::Same(Box::new(v))),
        }
    }
}

/// Evaluates `replace`.
pub open spec fn eval_replace(f: nat, env: Env, r: Replace) -> Result<Value, Error>
    decreases f, 0nat,
{
    if f == 0 {
        Err(Error::OutOfFuel)
    } else {
        match eval3((f - 1) as nat, env, *r.target, *r.motive, *r.base) {
            Err(e) => Err(e),
            Ok((tv, mv, bv)) => do_replace(tv, mv, bv),
        }
    }
}

/// Evaluates an elaborated `cong`.
pub open spec fn eval_cong2(f: nat, env: Env, p: Core, t: Core, g: Core) -> Result<Value, Error>
    decreases f, 0nat,
{
    if f == 0 {
        Err(Error::OutOfFuel)
    } else {
        match eval3((f - 1) as nat, env, p, t, g) {
            Err(e) => Err(e),
            Ok((pv, tv, gv)) => do_cong((f - 1) as nat, pv, tv, gv),
        }
    }
}

/// Evaluates `symm`.
pub open spec fn eval_symm(f: nat, env: Env, p: Core) -> Result<Value, Error>
    decreases f, 0nat,
{
    if f == 0 {
        Err(Error::OutOfFuel)
    } else {
        match deferred(eval((f - 1) as nat, env, p)) {
            Err(e) => Err(e),
            Ok(pv) => do_symm(pv),
        }
    }
}

/// `(Either L R)` evaluates both sides.
pub open spec fn eval_either(f: nat, env: Env, l: Core, r: Core) -> Result<Value, Error>
    decreases f, 0nat,
{
    if f == 0 {
        Err(Error::OutOfFuel)
    } else {
        match eval2((f - 1) as nat, env, l, r) {
            Err(e) => Err(e),
            Ok((lv, rv)) => Ok(Value::Either(Box::new(lv), Box::new(rv))),
        }
    }
}

/// `(left x)` evaluates to `left` of `x`'s value.
pub open spec fn eval_left(f: nat, env: Env, x: Core) -> Result<Value, Error>
    decreases f, 0nat,
{
    if f == 0 {
        Err(Error::OutOfFuel)
    } else {
        match deferred(eval((f - 1) as nat, env, x)) {
            Err(e) => Err(e),
            Ok(v) => Ok(Value::Left(Box::new(v))),
        }
    }
}

/// `(right x)` evaluates to `right` of `x`'s value.
pub open spec fn eval_right(f: nat, env: Env, x: Core) -> Result<Value, Error>
    decreases f, 0nat,
{
    if f == 0 {
        Err(Error::OutOfFuel)
    } else {
        match deferred(eval((f - 1) as nat, env, x)) {
            Err(e) => Err(e),
            Ok(v) => Ok(Value::Right(Box::new(v))),
        }
    }
}

/// Evaluates `ind-Either`.
pub open spec fn eval_ind_either(f: nat, env: Env, w: IndEither) -> Result<Value, Error>
    decreases f, 0nat,
{
    if f == 0 {
        Err(Error::OutOfFuel)
    } else {
        match eval4((f - 1) as nat, env, *w.target, *w.motive, *w.left, *w.right) {
            Err(e) => Err(e),
            Ok((tv, mv, lv, rv)) => do_ind_either((f - 1) as nat, tv, mv, lv, rv),
        }
    }
}

/// Evaluates `ind-Absurd`.
pub open spec fn eval_ind_absurd(f: nat, env: Env, w: IndAbsurd) -> Result<Value, Error>
    decreases f, 0nat,
{
    if f == 0 {
        Err(Error::OutOfFuel)
    } else {
        match eval2((f - 1) as nat, env, *w.target, *w.motive) {
            Err(e) => Err(e),
            Ok((tv, mv)) => do_ind_absurd(tv, mv),
        }
    }
}

/// The value of a closure's body with its variable bound to `v`.
pub open spec fn closure_val_of(f: nat, clo: Closure, v: Value) -> Result<Value, Error>
    decreases f, 0nat,
{
    if f == 0 {
        Err(Error::OutOfFuel)
    } else {
        eval((f - 1) as nat, env_extend(clo.env, clo.var, v), clo.expr)
    }
}

/// Function application on values.
pub open spec fn do_ap(f: nat, rator: Value, rand: Value) -> Result<Value, Error>
    decreases f, 0nat,
{
    if f == 0 {
        Err(Error::OutOfFuel)
    } else {
        match rator {
            Value::Lambda { body, .. } => closure_val_of((f - 1) as nat, *body, rand),
            Value::Neutral { type_value, kind } => match *type_value {
                Value::Pi { arg_type, res_type, .. } => match closure_val_of(
                    (f - 1) as nat,
                    *res_type,
                    rand,
                ) {
                    Err(e) => Err(e),
                    Ok(rt) => Ok(neu(rt, Neutral::App(kind, typed(*arg_type, rand)))),
                },
                _ => Err(Error::NotSupported),
            },
            _ => Err(Error::Stuck),
        }
    }
}

/// The Π type `(Π ((n Nat)) bt)` of a step that ignores its argument.
pub open spec fn nat_to(bt: Value) -> Value {
    pi_v(sym("_n"@), Value::Nat, const_closure(sym("_n"@), bt))
}

/// `which-Nat` on values: the base for `zero`, the step applied to the predecessor for `add1`, a
/// neutral elimination for a neutral target.
pub open spec fn do_which_nat(f: nat, tv: Value, btv: Value, bv: Value, sv: Value) -> Result<
    Value,
    Error,
>
    decreases f, 0nat,
{
    if f == 0 {
        Err(Error::OutOfFuel)
    } else {
        match tv {
            Value::Zero => Ok(bv),
            Value::Add1(n) => do_ap((f - 1) as nat, sv, *n),
            Value::Neutral { kind, .. } => Ok(
                neu(btv, Neutral::WhichNat(kind, typed(btv, bv), typed(nat_to(btv), sv))),
            ),
            _ => Err(Error::Stuck),
        }
    }
}

/// `iter-Nat` on values: for `(add1 n)`, the step applied to `iter-Nat` on `n`.
pub open spec fn do_iter_nat(f: nat, tv: Value, btv: Value, bv: Value, sv: Value) -> Result<
    Value,
    Error,
>
    decreases f, 0nat,
{
    if f == 0 {
        Err(Error::OutOfFuel)
    } else {
        match tv {
            Value::Zero => Ok(bv),
            Value::Add1(n) => match do_iter_nat((f - 1) as nat, *n, btv, bv, sv) {
                Err(e) => Err(e),
                Ok(r) => do_ap((f - 1) as nat, sv, r),
            },
            Value::Neutral { kind, .. } => Ok(
                neu(btv, Neutral::IterNat(kind, typed(btv, bv), typed(nat_to(btv), sv))),
            ),
            _ => Err(Error::Stuck),
        }
    }
}

/// `rec-Nat` on values: for `(add1 n)`, the step applied to `n` and to `rec-Nat` on `n`.
pub open spec fn do_rec_nat(f: nat, tv: Value, btv: Value, bv: Value, sv: Value) -> Result<
    Value,
    Error,
>
    decreases f, 0nat,
{
    if f == 0 {
        Err(Error::OutOfFuel)
    } else {
        match tv {
            Value::Zero => Ok(bv),
            Value::Add1(n) => match do_ap((f - 1) as nat, sv, *n) {
                Err(e) => Err(e),
                Ok(s1) => match do_rec_nat((f - 1) as nat, *n, btv, bv, sv) {
                    Err(e) => Err(e),
                    Ok(r) => do_ap((f - 1) as nat, s1, r),
                },
            },
            _ => Err(Error::Stuck),
        }
    }
}

/// `(Π ((_x Nat)) U)`, the type of motives over `Nat`.
pub open spec fn nat_motive_type() -> Value {
    pi_v(sym("_x"@), Value::Nat, const_closure(sym("_x"@), Value::Universe))
}

/// The type of `ind-Nat`'s step for motive `mv`:
/// `(Π ((n_minus_one Nat)) (Π ((ih (mv n_minus_one))) (mv (add1 n_minus_one))))`.
pub open spec fn ind_nat_step_type(mv: Value) -> Value {
    let n = sym("n_minus_one"@);
    pi_v(
        n,
        Value::Nat,
        capture(
            n,
            mv,
            pi_c(sym("ih"@), ap(rf(captured()), rf(n)), ap(rf(captured()), Core::Add1(Box::new(rf(n))))),
        ),
    )
}

/// `ind-Nat` on values: like `rec-Nat`, and a neutral elimination typed by the motive for a
/// neutral target.
pub open spec fn do_ind_nat(f: nat, tv: Value, mv: Value, bv: Value, sv: Value) -> Result<
    Value,
    Error,
>
    decreases f, 0nat,
{
    if f == 0 {
        Err(Error::OutOfFuel)
    } else {
        let g = (f - 1) as nat;
        match tv {
            Value::Zero => Ok(bv),
            Value::Add1(n) => match do_ap(g, sv, *n) {
                Err(e) => Err(e),
                Ok(s1) => match do_ind_nat(g, *n, mv, bv, sv) {
                    Err(e) => Err(e),
                    Ok(r) => do_ap(g, s1, r),
                },
            },
            Value::Neutral { kind, .. } => match do_ap(g, mv, tv) {
                Err(e) => Err(e),
                Ok(rt) => match do_ap(g, mv, Value::Zero) {
                    Err(e) => Err(e),
                    Ok(bt) => Ok(
                        neu(
                            rt,
                            Neutral::IndNat(
                                kind,
                                typed(nat_motive_type(), mv),
                                typed(bt, bv),
                                typed(ind_nat_step_type(mv), sv),
                            ),
                        ),
                    ),
                },
            },
            _ => Err(Error::Stuck),
        }
    }
}

/// The first component of a pair value, or a neutral `car`.
pub open spec fn do_car(pv: Value) -> Result<Value, Error> {
    match pv {
        Value::Cons(a, _) => Ok(*a),
        Value::Neutral { type_value, kind } => match *type_value {
            Value::Sigma { car_type, .. } => Ok(neu(*car_type, Neutral::Car(kind))),
            _ => Err(Error::Stuck),
        },
        _ => Err(Error::Stuck),
    }
}

/// The second component of a pair value, or a neutral `cdr` typed by the Σ type's second type.
pub open spec fn do_cdr(f: nat, pv: Value) -> Result<Value, Error>
    decreases f, 0nat,
{
    if f == 0 {
        Err(Error::OutOfFuel)
    } else {
        match pv {
            Value::Cons(_, d) => Ok(*d),
            Value::Neutral { type_value, kind } => match *type_value {
                Value::Sigma { cdr_type, .. } => match do_car(pv) {
                    Err(e) => Err(e),
                    Ok(a) => match closure_val_of((f - 1) as nat, *cdr_type, a) {
                        Err(e) => Err(e),
                        Ok(dt) => Ok(neu(dt, Neutral::Cdr(kind))),
                    },
                },
                _ => Err(Error::Stuck),
            },
            _ => Err(Error::Stuck),
        }
    }
}

/// The type of `rec-List`'s step: `(Π ((h E)) (Π ((t (List E))) (Π ((ih bt)) bt)))`.
pub open spec fn rec_list_step_type(etv: Value, ltv: Value, btv: Value) -> Value {
    pi_v(
        sym("h"@),
        etv,
        capture2(
            sym("h"@),
            ltv,
            btv,
            pi_c(sym("t"@), rf(captured()), pi_c(sym("ih"@), rf(captured2()), rf(captured2()))),
        ),
    )
}

/// `rec-List` on values: for `(:: h t)`, the step applied to `h`, `t` and `rec-List` on `t`.
pub open spec fn do_rec_list(f: nat, tv: Value, btv: Value, bv: Value, sv: Value) -> Result<
    Value,
    Error,
>
    decreases f, 0nat,
{
    if f == 0 {
        Err(Error::OutOfFuel)
    } else {
        let g = (f - 1) as nat;
        match tv {
            Value::Nil => Ok(bv),
            Value::ListCons(h, t) => match do_ap(g, sv, *h) {
                Err(e) => Err(e),
                Ok(s1) => match do_ap(g, s1, *t) {
                    Err(e) => Err(e),
                    Ok(s2) => match do_rec_list(g, *t, btv, bv, sv) {
                        Err(e) => Err(e),
                        Ok(r) => do_ap(g, s2, r),
                    },
                },
            },
            Value::Neutral { type_value, kind } => match *type_value {
                Value::List(etv) => Ok(
                    neu(
                        btv,
                        Neutral::RecList(
                            kind,
                            typed(btv, bv),
                            typed(rec_list_step_type(*etv, *type_value, btv), sv),
                        ),
                    ),
                ),
                _ => Err(Error::Stuck),
            },
            _ => Err(Error::Stuck),
        }
    }
}

/// `(Π ((x tv)) U)` for the variable name `x`.
pub open spec fn motive_type(x: Symbol, tv: Value) -> Value {
    pi_v(x, tv, const_closure(x, Value::Universe))
}

/// The type of `ind-List`'s step:
/// `(Π ((h E)) (Π ((t (List E))) (Π ((ih (mot t))) (mot (:: h t)))))`.
pub open spec fn ind_list_step_type(etv: Value, ltv: Value, mv: Value) -> Value {
    let h = sym("h"@);
    let t = sym("t"@);
    pi_v(
        h,
        etv,
        capture2(
            h,
            ltv,
            mv,
            pi_c(
                t,
                rf(captured()),
                pi_c(
                    sym("ih"@),
                    ap(rf(captured2()), rf(t)),
                    ap(rf(captured2()), Core::ListCons(Box::new(rf(h)), Box::new(rf(t)))),
                ),
            ),
        ),
    )
}

/// `ind-List` on values: like `rec-List`, and a neutral elimination typed by the motive for a
/// neutral target.
pub open spec fn do_ind_list(f: nat, tv: Value, mv: Value, bv: Value, sv: Value) -> Result<
    Value,
    Error,
>
    decreases f, 0nat,
{
    if f == 0 {
        Err(Error::OutOfFuel)
    } else {
        let g = (f - 1) as nat;
        match tv {
            Value::Nil => Ok(bv),
            Value::ListCons(h, t) => match do_ap(g, sv, *h) {
                Err(e) => Err(e),
                Ok(s1) => match do_ap(g, s1, *t) {
                    Err(e) => Err(e),
                    Ok(s2) => match do_ind_list(g, *t, mv, bv, sv) {
                        Err(e) => Err(e),
                        Ok(r) => do_ap(g, s2, r),
                    },
                },
            },
            Value::Neutral { type_value, kind } => match *type_value {
                Value::List(etv) => match do_ap(g, mv, tv) {
                    Err(e) => Err(e),
                    Ok(rt) => match do_ap(g, mv, Value::Nil) {
                        Err(e) => Err(e),
                        Ok(bt) => Ok(
                            neu(
                                rt,
                                Neutral::IndList(
                                    kind,
                                    typed(motive_type(sym("xs"@), *type_value), mv),
                                    typed(bt, bv),
                                    typed(ind_list_step_type(*etv, *type_value, mv), sv),
                                ),
                            ),
                        ),
                    },
                },
                _ => Err(Error::Stuck),
            },
            _ => Err(Error::Stuck),
        }
    }
}

/// The first entry of a vector value, or a neutral `head` of a non-empty vector.
pub open spec fn do_head(v: Value) -> Result<Value, Error> {
    match v {
        Value::VectorCons(h, _) => Ok(*h),
        Value::Neutral { type_value, kind } => match *type_value {
            Value::Vector(etv, lenv) => match *lenv {
                Value::Add1(_) => Ok(neu(*etv, Neutral::Head(kind))),
                _ => Err(Error::Stuck),
            },
            _ => Err(Error::Stuck),
        },
        _ => Err(Error::Stuck),
    }
}

/// The rest of a vector value, or a neutral `tail` of a non-empty vector.
pub open spec fn do_tail(v: Value) -> Result<Value, Error> {
    match v {
        Value::VectorCons(_, t) => Ok(*t),
        Value::Neutral { type_value, kind } => match *type_value {
            Value::Vector(etv, lenv) => match *lenv {
                Value::Add1(l) => Ok(neu(Value::Vector(etv, l), Neutral::Tail(kind))),
                _ => Err(Error::Stuck),
            },
            _ => Err(Error::Stuck),
        },
        _ => Err(Error::Stuck),
    }
}

/// The type of `ind-Vec`'s motives over element type `etv`:
/// `(Π ((k Nat)) (Π ((es (Vec E k))) U))`.
pub open spec fn ind_vec_motive_type(etv: Value) -> Value {
    let k = sym("k"@);
    pi_v(k, Value::Nat, capture(k, etv, pi_c(sym("es"@), Core::Vector(Box::new(rf(captured())), Box::new(rf(k))), Core::Universe)))
}

/// The type of `ind-Vec`'s step:
/// `(Π ((k Nat)) (Π ((e E)) (Π ((es (Vec E k))) (Π ((ih (mot k es))) (mot (add1 k) (vec:: e es))))))`.
pub open spec fn ind_vec_step_type(etv: Value, mv: Value) -> Value {
    let k = sym("k"@);
    let e = sym("e"@);
    let es = sym("es"@);
    pi_v(
        k,
        Value::Nat,
        capture2(
            k,
            etv,
            mv,
            pi_c(
                e,
                rf(captured()),
                pi_c(
                    es,
                    Core::Vector(Box::new(rf(captured())), Box::new(rf(k))),
                    pi_c(
                        sym("ih"@),
                        ap(ap(rf(captured2()), rf(k)), rf(es)),
                        ap(
                            ap(rf(captured2()), Core::Add1(Box::new(rf(k)))),
                            Core::VectorCons(Box::new(rf(e)), Box::new(rf(es))),
                        ),
                    ),
                ),
            ),
        ),
    )
}

/// `ind-Vec` on values: for length `(add1 l)` and `(vec:: h t)`, the step applied to `l`, `h`,
/// `t` and `ind-Vec` on `l` and `t`.
pub open spec fn do_ind_vec(f: nat, lv: Value, vv: Value, mv: Value, bv: Value, sv: Value) -> Result<
    Value,
    Error,
>
    decreases f, 0nat,
{
    if f == 0 {
        Err(Error::OutOfFuel)
    } else {
        let g = (f - 1) as nat;
        match (lv, vv) {
            (Value::Zero, Value::VecNil) => Ok(bv),
            (Value::Add1(l), Value::VectorCons(h, t)) => match do_ap(g, sv, *l) {
                Err(e) => Err(e),
                Ok(s1) => match do_ap(g, s1, *h) {
                    Err(e) => Err(e),
                    Ok(s2) => match do_ap(g, s2, *t) {
                        Err(e) => Err(e),
                        Ok(s3) => match do_ind_vec(g, *l, *t, mv, bv, sv) {
                            Err(e) => Err(e),
                            Ok(r) => do_ap(g, s3, r),
                        },
                    },
                },
            },
            _ => match vv {
                Value::Neutral { type_value, kind } => match *type_value {
                    Value::Vector(etv, _) => do_ind_vec_neutral(g, lv, vv, *kind, *etv, mv, bv, sv),
                    _ => Err(Error::Stuck),
                },
                _ => Err(Error::Stuck),
            },
        }
    }
}

/// `ind-Vec` on a neutral vector with element type `etv`.
pub open spec fn do_ind_vec_neutral(
    f: nat,
    lv: Value,
    vv: Value,
    ne: Neutral,
    etv: Value,
    mv: Value,
    bv: Value,
    sv: Value,
) -> Result<Value, Error>
    decreases f, 0nat,
{
    if f == 0 {
        Err(Error::OutOfFuel)
    } else {
        let g = (f - 1) as nat;
        match do_ap(g, mv, lv) {
            Err(e) => Err(e),
            Ok(m1) => match do_ap(g, m1, vv) {
                Err(e) => Err(e),
                Ok(t_out) => match do_ap(g, mv, Value::Zero) {
                    Err(e) => Err(e),
                    Ok(m0) => match do_ap(g, m0, Value::VecNil) {
                        Err(e) => Err(e),
                        Ok(bt) => {
                            let m_out = typed(ind_vec_motive_type(etv), mv);
                            let b_out = typed(bt, bv);
                            let s_out = typed(ind_vec_step_type(etv, mv), sv);
                            match lv {
                                Value::Neutral { type_value: ltv, kind: lne } if *ltv
                                    == Value::Nat => Ok(
                                    neu(
                                        t_out,
                                        Neutral::IndVec12(lne, Box::new(ne), m_out, b_out, s_out),
                                    ),
                                ),
                                _ => Ok(
                                    neu(
                                        t_out,
                                        Neutral::IndVec2(
                                            typed(Value::Nat, lv),
                                            Box::new(ne),
                                            m_out,
                                            b_out,
                                            s_out,
                                        ),
                                    ),
                                ),
                            }
                        },
                    },
                },
            },
        }
    }
}

/// `replace` on values: the base, along `(same x)`.
pub open spec fn do_replace(tv: Value, mv: Value, bv: Value) -> Result<Value, Error> {
    match tv {
        Value::Same(_) => Ok(bv),
        _ => Err(Error::NotSupported),
    }
}

/// `cong` on values: `(same (f x))` along `(same x)`.
pub open spec fn do_cong(f: nat, pv: Value, tv: Value, gv: Value) -> Result<Value, Error>
    decreases f, 0nat,
{
    if f == 0 {
        Err(Error::OutOfFuel)
    } else {
        match pv {
            Value::Same(v) => match do_ap((f - 1) as nat, gv, *v) {
                Err(e) => Err(e),
                Ok(r) => Ok(Value::Same(Box::new(r))),
            },
            _ => Err(Error::NotSupported),
        }
    }
}

/// `symm` on values: `(same x)` stays `(same x)`.
pub open spec fn do_symm(pv: Value) -> Result<Value, Error> {
    match pv {
        Value::Same(v) => Ok(Value::Same(v)),
        _ => Err(Error::NotSupported),
    }
}

/// `(Π ((x L)) (mot (left x)))` or, for `right`, `(mot (right x))`.
pub open spec fn either_branch_type(xtv: Value, mv: Value, left: bool) -> Value {
    let x = sym("x"@);
    let inj = if left {
        Core::Left(Box::new(rf(x)))
    } else {
        Core::Right(Box::new(rf(x)))
    };
    pi_v(x, xtv, capture(x, mv, ap(rf(captured()), inj)))
}

/// `ind-Either` on values: the left branch applied to a `left`'s content, the right branch to a
/// `right`'s.
pub open spec fn do_ind_either(f: nat, tv: Value, mv: Value, lv: Value, rv: Value) -> Result<
    Value,
    Error,
>
    decreases f, 0nat,
{
    if f == 0 {
        Err(Error::OutOfFuel)
    } else {
        let g = (f - 1) as nat;
        match tv {
            Value::Left(x) => do_ap(g, lv, *x),
            Value::Right(x) => do_ap(g, rv, *x),
            Value::Neutral { type_value, kind } => match *type_value {
                Value::Either(ltv, rtv) => match do_ap(g, mv, tv) {
                    Err(e) => Err(e),
                    Ok(rt) => Ok(
                        neu(
                            rt,
                            Neutral::IndEither(
                                kind,
                                typed(motive_type(sym("xs"@), *type_value), mv),
                                typed(either_branch_type(*ltv, mv, true), lv),
                                typed(either_branch_type(*rtv, mv, false), rv),
                            ),
                        ),
                    ),
                },
                _ => Err(Error::Stuck),
            },
            _ => Err(Error::Stuck),
        }
    }
}

/// `ind-Absurd` on values: only a neutral target reaches it, giving a neutral of the motive's
/// type.
pub open spec fn do_ind_absurd(tv: Value, mv: Value) -> Result<Value, Error> {
    match tv {
        Value::Neutral { type_value, kind } => match *type_value {
            Value::Absurd => Ok(neu(mv, Neutral::IndAbsurd(kind, typed(Value::Universe, mv)))),
            _ => Err(Error::Stuck),
        },
        _ => Err(Error::Stuck),
    }
}

} // verus!
