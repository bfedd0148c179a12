//! Evaluation and read-back: the dispatchers, environments and closures.
use vstd::prelude::*;
use crate::model::eval as sem;
use crate::model::names as nm;
use crate::model::readback as rb;
use crate::symbol::Symbol;
use crate::syntax::{App, Core, Pi, Ref};
use crate::types::{absurd, either, equality, functions, lists, natural, pairs, todo, vectors};
use crate::value::{Closure, Ctx, Env, Error, Neutral, Typed, Value};

verus! {

/// The recursion depth that the fuel-less entry points allow: the largest
/// `u64`, a depth that no call stack reaches, so these entry points never
/// run out of fuel before the machine runs out of stack.
pub const DEFAULT_FUEL: u64 = 0xffff_ffff_ffff_ffffu64;

impl Env {
    /// The empty environment.
    pub fn new() -> (res: Env)
        ensures
            res == Env::Empty,
    {
        Env::Empty
    }

    /// The value bound to `x`, the most recent binding first.
    pub fn var_val(&self, x: &Symbol) -> (res: Option<Value>)
        ensures
            res == sem::env_lookup(*self, *x),
        decreases self,
    {
        match self {
            Env::Empty => None,
            Env::Extend(y, v, rest) => if y.same(x) {
                Some((**v).clone())
            } else {
                rest.var_val(x)
            },
        }
    }

    /// This environment with `x` bound to `v`.
    pub fn extend(&self, x: Symbol, v: Value) -> (res: Env)
        ensures
            res == sem::env_extend(*self, x, v),
    {
        Env::Extend(x, Box::new(v), Box::new(self.clone()))
    }
}

/// The name under which library-built closures keep a captured value.
pub fn captured() -> (res: Symbol)
    ensures
        res == sem::captured(),
{
    Symbol::new("%c")
}

/// The second captured name.
pub fn captured2() -> (res: Symbol)
    ensures
        res == sem::captured2(),
{
    Symbol::new("%d")
}

/// A reference to `x`.
pub fn rf(x: Symbol) -> (res: Core)
    ensures
        res == sem::rf(x),
{
    Core::Ref(Ref(x))
}

/// The application `(f a)`.
pub fn ap(f: Core, a: Core) -> (res: Core)
    ensures
        res == sem::ap(f, a),
{
    Core::App(App { fun: Box::new(f), arg: Box::new(a) })
}

/// The Π term `(Π ((x a)) b)`.
pub fn pi_c(x: Symbol, a: Core, b: Core) -> (res: Core)
    ensures
        res == sem::pi_c(x, a, b),
{
    Core::Pi(Pi { arg_name: x, arg_type: Box::new(a), res_type: Box::new(b) })
}

/// The Π value with argument type `a` and result closure `clo`.
pub fn pi_v(x: Symbol, a: Value, clo: Closure) -> (res: Value)
    ensures
        res == sem::pi_v(x, a, clo),
{
    Value::Pi { arg_name: x, arg_type: Box::new(a), res_type: Box::new(clo) }
}

/// The neutral value of type `tv` made of `ne`.
pub fn neu(tv: Value, ne: Neutral) -> (res: Value)
    ensures
        res == sem::neu(tv, ne),
{
    Value::Neutral { type_value: Box::new(tv), kind: Box::new(ne) }
}

/// A value paired with its type.
pub fn typed(tv: Value, v: Value) -> (res: Box<Typed>)
    ensures
        res == sem::typed(tv, v),
{
    Box::new(Typed { typ: tv, value: v })
}

/// The closure over `var` that returns `v` whatever its argument.
pub fn const_closure(var: Symbol, v: Value) -> (res: Closure)
    ensures
        res == sem::const_closure(var, v),
{
    Closure { env: Env::Empty.extend(captured(), v), var, expr: rf(captured()) }
}

/// A closure whose body sees `v` as `captured()`.
pub fn capture(var: Symbol, v: Value, expr: Core) -> (res: Closure)
    ensures
        res == sem::capture(var, v, expr),
{
    Closure { env: Env::Empty.extend(captured(), v), var, expr }
}

/// A closure whose body sees `v` as `captured()` and `w` as `captured2()`.
pub fn capture2(var: Symbol, v: Value, w: Value, expr: Core) -> (res: Closure)
    ensures
        res == sem::capture2(var, v, w, expr),
{
    Closure { env: Env::Empty.extend(captured(), v).extend(captured2(), w), var, expr }
}

impl Closure {
    /// The value of the body with the variable bound to `v`.
    pub fn val_of(&self, v: Value, fuel: u64) -> (res: Result<Value, Error>)
        ensures
            res == sem::closure_val_of(fuel as nat, *self, v),
        decreases fuel, 0nat,
    {
        if fuel == 0 {
            return Err(Error::OutOfFuel);
        }
        eval(&self.env.extend(self.var.clone(), v), &self.expr, fuel - 1)
    }
}

/// Keeps a failure other than running out of fuel inside a `Failed`
/// value, for a part that is only used when needed.
pub fn deferred(r: Result<Value, Error>) -> (res: Result<Value, Error>)
    ensures
        res == sem::deferred(r),
{
    match r {
        Ok(v) => Ok(v),
        Err(Error::OutOfFuel) => Err(Error::OutOfFuel),
        Err(e) => Ok(Value::Failed(Box::new(e))),
    }
}

/// `later(env, e)`: the value of `e` in `env`, one fuel level down, used
/// only when needed.
pub fn later(env: &Env, e: &Core, fuel: u64) -> (res: Result<Value, Error>)
    ensures
        res == sem::later(fuel as nat, *env, *e),
    decreases fuel, 0nat,
{
    if fuel == 0 {
        return Err(Error::OutOfFuel);
    }
    deferred(eval(env, e, fuel - 1))
}

/// The values of two terms, in order.
pub fn eval2(env: &Env, a: &Core, b: &Core, fuel: u64) -> (res: Result<(Value, Value), Error>)
    ensures
        res == sem::eval2(fuel as nat, *env, *a, *b),
    decreases fuel, 0nat,
{
    if fuel == 0 {
        return Err(Error::OutOfFuel);
    }
    let av = deferred(eval(env, a, fuel - 1))?;
    let bv = deferred(eval(env, b, fuel - 1))?;
    Ok((av, bv))
}

/// The values of three terms, in order.
pub fn eval3(env: &Env, a: &Core, b: &Core, c: &Core, fuel: u64) -> (res: Result<
    (Value, Value, Value),
    Error,
>)
    ensures
        res == sem::eval3(fuel as nat, *env, *a, *b, *c),
    decreases fuel, 0nat,
{
    if fuel == 0 {
        return Err(Error::OutOfFuel);
    }
    let av = deferred(eval(env, a, fuel - 1))?;
    let bv = deferred(eval(env, b, fuel - 1))?;
    let cv = deferred(eval(env, c, fuel - 1))?;
    Ok((av, bv, cv))
}

/// The values of four terms, in order.
pub fn eval4(env: &Env, a: &Core, b: &Core, c: &Core, d: &Core, fuel: u64) -> (res: Result<
    (Value, Value, Value, Value),
    Error,
>)
    ensures
        res == sem::eval4(fuel as nat, *env, *a, *b, *c, *d),
    decreases fuel, 0nat,
{
    if fuel == 0 {
        return Err(Error::OutOfFuel);
    }
    let av = deferred(eval(env, a, fuel - 1))?;
    let bv = deferred(eval(env, b, fuel - 1))?;
    let cv = deferred(eval(env, c, fuel - 1))?;
    let dv = deferred(eval(env, d, fuel - 1))?;
    Ok((av, bv, cv, dv))
}

/// The value of `e` in `env`.
pub fn eval(env: &Env, e: &Core, fuel: u64) -> (res: Result<Value, Error>)
    ensures
        res == sem::eval(fuel as nat, *env, *e),
    decreases fuel, 1nat,
{
    match e {
        Core::Invalid(_) => Err(Error::NotSupported),
        Core::The(t) => t.val_of_fuel(env, fuel),
        Core::Universe => Ok(Value::Universe),
        Core::Nat => Ok(Value::Nat),
        Core::Zero => Ok(Value::Zero),
        Core::Add1(n) => natural::eval_add1(env, n, fuel),
        Core::WhichNat(w) => w.val_of_fuel(env, fuel),
        Core::IterNat(w) => w.val_of_fuel(env, fuel),
        Core::RecNat(w) => w.val_of_fuel(env, fuel),
        Core::IndNat(w) => w.val_of_fuel(env, fuel),
        Core::Atom => Ok(Value::Atom),
        Core::Quote(s) => Ok(Value::Quote(s.clone())),
        Core::Fun(_) => Err(Error::NotSupported),
        Core::Pi(p) => p.val_of_fuel(env, fuel),
        Core::PiStar(_, _) => Err(Error::NotSupported),
        Core::Lambda(l) => Ok(l.val_of(env)),
        Core::LambdaStar(_, _) => Err(Error::NotSupported),
        Core::App(a) => a.val_of_fuel(env, fuel),
        Core::AppStar(g, args) => functions::eval_app_star(env, g, args, fuel),
        Core::Ref(r) => r.val_of(env),
        Core::Sigma(s) => s.val_of_fuel(env, fuel),
        Core::SigmaStar(_, _) => Err(Error::NotSupported),
        Core::Pair(_, _) => Err(Error::NotSupported),
        Core::Cons(a, d) => pairs::eval_cons(env, a, d, fuel),
        Core::Car(p) => pairs::eval_car(env, p, fuel),
        Core::Cdr(p) => pairs::eval_cdr(env, p, fuel),
        Core::List(t) => lists::eval_list(env, t, fuel),
        Core::Nil => Ok(Value::Nil),
        Core::ListCons(h, t) => lists::eval_list_cons(env, h, t, fuel),
        Core::RecList(w) => w.val_of_fuel(env, fuel),
        Core::IndList(w) => w.val_of_fuel(env, fuel),
        Core::Vector(t, n) => vectors::eval_vector(env, t, n, fuel),
        Core::VecNil => Ok(Value::VecNil),
        Core::VectorCons(h, t) => vectors::eval_vector_cons(env, h, t, fuel),
        Core::Head(v) => vectors::eval_head(env, v, fuel),
        Core::Tail(v) => vectors::eval_tail(env, v, fuel),
        Core::IndVec(w) => w.val_of_fuel(env, fuel),
        Core::ToDo(t) => t.val_of_fuel(env, fuel),
        Core::Equal(q) => q.val_of_fuel(env, fuel),
        Core::Same(x) => equality::eval_same(env, x, fuel),
        Core::Replace(r) => r.val_of_fuel(env, fuel),
        Core::Cong(_, _) => Err(Error::NotSupported),
        Core::Cong2(p, t, g) => equality::eval_cong2(env, p, t, g, fuel),
        Core::Symm(p) => equality::eval_symm(env, p, fuel),
        Core::Either(l, r) => either::eval_either(env, l, r, fuel),
        Core::Left(x) => either::eval_left(env, x, fuel),
        Core::Right(x) => either::eval_right(env, x, fuel),
        Core::IndEither(w) => w.val_of_fuel(env, fuel),
        Core::Trivial => Ok(Value::Trivial),
        Core::Sole => Ok(Value::Sole),
        Core::Absurd => Ok(Value::Absurd),
        Core::IndAbsurd(w) => w.val_of_fuel(env, fuel),
    }
}

impl Core {
    /// The value of this term in `env`, with the default fuel.
    pub fn val_of(&self, env: &Env) -> (res: Result<Value, Error>)
        ensures
            res == sem::eval(DEFAULT_FUEL as nat, *env, *self),
    {
        eval(env, self, DEFAULT_FUEL)
    }
}

} // verus!

verus! {

/// The normal form of the value `v` of type `tv`.
pub fn read_back(ctx: &Ctx, tv: &Value, v: &Value, fuel: u64) -> (res: Result<Core, Error>)
    ensures
        res == rb::read_back(fuel as nat, *ctx, *tv, *v),
    decreases fuel, 3nat,
{
    match tv {
        Value::Universe => read_back_type(ctx, v, fuel),
        Value::Pi { arg_name, arg_type, res_type } => functions::read_back_pi(
            ctx,
            arg_name,
            arg_type,
            res_type,
            v,
            fuel,
        ),
        Value::Sigma { car_type, cdr_type, .. } => pairs::read_back_sigma(
            ctx,
            car_type,
            cdr_type,
            v,
            fuel,
        ),
        Value::Absurd => match v {
            Value::Neutral { kind, .. } => absurd::read_back_absurd(ctx, kind, fuel),
            _ => Err(Error::TypeMismatchVar(v.clone(), tv.clone())),
        },
        Value::Failed(err) => Err((**err).clone()),
        _ => match v {
            Value::Neutral { kind, .. } => read_back_neutral(ctx, kind, fuel),
            Value::Failed(err) => Err((**err).clone()),
            _ => match tv {
                Value::Nat => natural::read_back_nat(ctx, v, fuel),
                Value::Atom => match v {
                    Value::Quote(s) => Ok(Core::Quote(s.clone())),
                    _ => Err(Error::TypeMismatchVar(v.clone(), tv.clone())),
                },
                Value::List(etv) => lists::read_back_list(ctx, etv, v, fuel),
                Value::Vector(etv, len) => vectors::read_back_vector(ctx, etv, len, v, fuel),
                Value::Equal { typ, .. } => match v {
                    Value::Same(x) => equality::read_back_same(ctx, typ, x, fuel),
                    _ => Err(Error::NotSupported),
                },
                Value::Either(ltv, rtv) => either::read_back_either(ctx, ltv, rtv, v, fuel),
                Value::Trivial => match v {
                    Value::Sole => Ok(Core::Sole),
                    _ => Err(Error::TypeMismatchVar(v.clone(), tv.clone())),
                },
                Value::Neutral { .. } => Err(Error::TypeMismatchVar(v.clone(), tv.clone())),
                _ => Err(Error::NotATypeVar(tv.clone())),
            },
        },
    }
}

/// The normal form of the type value `v`.
pub fn read_back_type(ctx: &Ctx, v: &Value, fuel: u64) -> (res: Result<Core, Error>)
    ensures
        res == rb::read_back_type(fuel as nat, *ctx, *v),
    decreases fuel, 2nat,
{
    match v {
        Value::Universe => Ok(Core::Universe),
        Value::Nat => Ok(Core::Nat),
        Value::Atom => Ok(Core::Atom),
        Value::Trivial => Ok(Core::Trivial),
        Value::Absurd => Ok(Core::Absurd),
        Value::Pi { arg_name, arg_type, res_type } => functions::read_back_type_pi(
            ctx,
            arg_name,
            arg_type,
            res_type,
            fuel,
        ),
        Value::Sigma { arg_name, car_type, cdr_type } => pairs::read_back_type_sigma(
            ctx,
            arg_name,
            car_type,
            cdr_type,
            fuel,
        ),
        Value::List(etv) => lists::read_back_type_list(ctx, etv, fuel),
        Value::Vector(etv, len) => vectors::read_back_type_vector(ctx, etv, len, fuel),
        Value::Equal { typ, from, to } => equality::read_back_type_equal(ctx, typ, from, to, fuel),
        Value::Either(ltv, rtv) => either::read_back_type_either(ctx, ltv, rtv, fuel),
        Value::Neutral { type_value, kind } => match &**type_value {
            Value::Universe => read_back_neutral(ctx, kind, fuel),
            _ => Err(Error::Stuck),
        },
        Value::Left(_) | Value::Right(_) | Value::Same(_) => Err(Error::NotSupported),
        Value::Sole => Err(Error::Stuck),
        Value::VectorCons(h, t) => Err(
            Error::NotATypeVar(Value::ListCons(Box::new((**h).clone()), Box::new((**t).clone()))),
        ),
        _ => Err(Error::NotATypeVar(v.clone())),
    }
}

/// The read-backs of a type and of a value of that type.
pub fn read_back_typed(ctx: &Ctx, tv: &Value, v: &Value, fuel: u64) -> (res: Result<
    (Core, Core),
    Error,
>)
    ensures
        res == rb::read_back_typed(fuel as nat, *ctx, *tv, *v),
    decreases fuel, 0nat,
{
    if fuel == 0 {
        return Err(Error::OutOfFuel);
    }
    let tc = read_back_type(ctx, tv, fuel - 1)?;
    let vc = read_back(ctx, tv, v, fuel - 1)?;
    Ok((tc, vc))
}

/// The term form of a neutral value.
pub fn read_back_neutral(ctx: &Ctx, ne: &Neutral, fuel: u64) -> (res: Result<Core, Error>)
    ensures
        res == rb::read_back_neutral(fuel as nat, *ctx, *ne),
    decreases fuel, 1nat,
{
    match ne {
        Neutral::Var(x) => {
            if fuel == 0 {
                return Err(Error::OutOfFuel);
            }
            Ok(Core::Ref(Ref(x.clone())))
        },
        Neutral::App(n, a) => functions::read_back_neutral_app(ctx, n, a, fuel),
        Neutral::Car(n) => pairs::read_back_neutral_car(ctx, n, fuel),
        Neutral::Cdr(n) => pairs::read_back_neutral_cdr(ctx, n, fuel),
        Neutral::WhichNat(n, b, s) => natural::read_back_neutral_which_nat(ctx, n, b, s, fuel),
        Neutral::IterNat(n, b, s) => natural::read_back_neutral_iter_nat(ctx, n, b, s, fuel),
        Neutral::IndNat(n, m, b, s) => natural::read_back_neutral_ind_nat(ctx, n, m, b, s, fuel),
        Neutral::RecList(n, b, s) => lists::read_back_neutral_rec_list(ctx, n, b, s, fuel),
        Neutral::IndList(_, _, _, _) => {
            if fuel == 0 {
                return Err(Error::OutOfFuel);
            }
            Err(Error::NotSupported)
        },
        Neutral::Head(n) => vectors::read_back_neutral_head(ctx, n, fuel),
        Neutral::Tail(n) => vectors::read_back_neutral_tail(ctx, n, fuel),
        Neutral::IndVec12(l, es, m, b, s) => vectors::read_back_neutral_ind_vec12(
            ctx,
            l,
            es,
            m,
            b,
            s,
            fuel,
        ),
        Neutral::IndVec2(_, _, _, _, _) => {
            if fuel == 0 {
                return Err(Error::OutOfFuel);
            }
            Err(Error::NotSupported)
        },
        Neutral::IndEither(n, m, l, r) => either::read_back_neutral_ind_either(
            ctx,
            n,
            m,
            l,
            r,
            fuel,
        ),
        Neutral::IndAbsurd(n, m) => absurd::read_back_neutral_ind_absurd(ctx, n, m, fuel),
        Neutral::Todo(name, tv) => todo::read_back_neutral_todo(ctx, name, tv, fuel),
    }
}

/// The value of `e` in the environment that `ctx` describes.
pub fn val_in_ctx(ctx: &Ctx, e: &Core, fuel: u64) -> (res: Result<Value, Error>)
    ensures
        res == sem::eval(fuel as nat, nm::ctx_to_env(*ctx), *e),
{
    eval(&ctx.to_env(), e, fuel)
}

} // verus!
