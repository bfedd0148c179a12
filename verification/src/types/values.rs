//! Constructors for values, one per Pie value form.
use vstd::prelude::*;
use crate::model::eval as sem;
use crate::normalize::DEFAULT_FUEL;
use crate::symbol::{sym, Symbol};
use crate::syntax::Core;
use crate::value::{Closure, Env, Error, Neutral, Value};

verus! {

/// The value `(add1 ... (add1 zero))` with `n` `add1`s.
pub open spec fn nat_value(n: nat) -> Value
    decreases n,
{
    if n == 0 {
        Value::Zero
    } else {
        Value::Add1(Box::new(nat_value((n - 1) as nat)))
    }
}

/// The value of `exp` in `env`, computed with the default fuel.
pub fn later(env: Env, exp: Core) -> (res: Result<Value, Error>)
    ensures
        res == sem::later(DEFAULT_FUEL as nat, env, exp),
{
    crate::normalize::later(&env, &exp, DEFAULT_FUEL)
}

/// `U`.
pub fn universe() -> (res: Value)
    ensures
        res == Value::Universe,
{
    Value::Universe
}

/// `Nat`.
pub fn nat_type() -> (res: Value)
    ensures
        res == Value::Nat,
{
    Value::Nat
}

/// `zero`.
pub fn zero() -> (res: Value)
    ensures
        res == Value::Zero,
{
    Value::Zero
}

/// `(add1 n)`.
pub fn add1(n: Value) -> (res: Value)
    ensures
        res == Value::Add1(Box::new(n)),
{
    Value::Add1(Box::new(n))
}

/// The numeral value for `n`.
pub fn the_nat(n: u64) -> (res: Value)
    ensures
        res == nat_value(n as nat),
{
    let mut out = Value::Zero;
    let mut i: u64 = 0;
    while i < n
        invariant
            i <= n,
            out == nat_value(i as nat),
        decreases n - i,
    {
        out = Value::Add1(Box::new(out));
        i = i + 1;
    }
    out
}

/// The Π value with argument type `arg_type` and result closure `res_type`.
pub fn pi(x: &str, arg_type: Value, res_type: Closure) -> (res: Value)
    ensures
        res == (Value::Pi { arg_name: sym(x@), arg_type: Box::new(arg_type), res_type: Box::new(res_type) }),
{
    Value::Pi { arg_name: Symbol::new(x), arg_type: Box::new(arg_type), res_type: Box::new(res_type) }
}

/// The λ value with parameter `arg_name` and body `body`.
pub fn lambda(arg_name: Symbol, body: Closure) -> (res: Value)
    ensures
        res == (Value::Lambda { arg_name, body: Box::new(body) }),
{
    Value::Lambda { arg_name, body: Box::new(body) }
}

/// `Atom`.
pub fn atom() -> (res: Value)
    ensures
        res == Value::Atom,
{
    Value::Atom
}

/// The atom `'s`.
pub fn quote(s: &str) -> (res: Value)
    ensures
        res == Value::Quote(sym(s@)),
{
    Value::Quote(Symbol::new(s))
}

/// The Σ value with first type `car_type` and second-type closure
/// `cdr_type`.
pub fn sigma(x: &str, car_type: Value, cdr_type: Closure) -> (res: Value)
    ensures
        res == (Value::Sigma { arg_name: sym(x@), car_type: Box::new(car_type), cdr_type: Box::new(cdr_type) }),
{
    Value::Sigma { arg_name: Symbol::new(x), car_type: Box::new(car_type), cdr_type: Box::new(cdr_type) }
}

/// The pair `(cons car cdr)`.
pub fn cons(car: Value, cdr: Value) -> (res: Value)
    ensures
        res == Value::Cons(Box::new(car), Box::new(cdr)),
{
    Value::Cons(Box::new(car), Box::new(cdr))
}

/// `(List t)`.
pub fn list(t: Value) -> (res: Value)
    ensures
        res == Value::List(Box::new(t)),
{
    Value::List(Box::new(t))
}

/// `nil`.
pub fn nil() -> (res: Value)
    ensures
        res == Value::Nil,
{
    Value::Nil
}

/// `(:: head tail)`.
pub fn list_cons(head: Value, tail: Value) -> (res: Value)
    ensures
        res == Value::ListCons(Box::new(head), Box::new(tail)),
{
    Value::ListCons(Box::new(head), Box::new(tail))
}

/// `(Vec t n)`.
pub fn vec(t: Value, n: Value) -> (res: Value)
    ensures
        res == Value::Vector(Box::new(t), Box::new(n)),
{
    Value::Vector(Box::new(t), Box::new(n))
}

/// `vecnil`.
pub fn vecnil() -> (res: Value)
    ensures
        res == Value::VecNil,
{
    Value::VecNil
}

/// `(vec:: head tail)`.
pub fn vec_cons(head: Value, tail: Value) -> (res: Value)
    ensures
        res == Value::VectorCons(Box::new(head), Box::new(tail)),
{
    Value::VectorCons(Box::new(head), Box::new(tail))
}

/// `(= typ from to)`.
pub fn equal(typ: Value, from: Value, to: Value) -> (res: Value)
    ensures
        res == (Value::Equal { typ: Box::new(typ), from: Box::new(from), to: Box::new(to) }),
{
    Value::Equal { typ: Box::new(typ), from: Box::new(from), to: Box::new(to) }
}

/// `(same e)`.
pub fn same(e: Value) -> (res: Value)
    ensures
        res == Value::Same(Box::new(e)),
{
    Value::Same(Box::new(e))
}

/// `(Either l r)`.
pub fn either(l: Value, r: Value) -> (res: Value)
    ensures
        res == Value::Either(Box::new(l), Box::new(r)),
{
    Value::Either(Box::new(l), Box::new(r))
}

/// `(left l)`.
pub fn left(l: Value) -> (res: Value)
    ensures
        res == Value::Left(Box::new(l)),
{
    Value::Left(Box::new(l))
}

/// `(right r)`.
pub fn right(r: Value) -> (res: Value)
    ensures
        res == Value::Right(Box::new(r)),
{
    Value::Right(Box::new(r))
}

/// `Trivial`.
pub fn trivial() -> (res: Value)
    ensures
        res == Value::Trivial,
{
    Value::Trivial
}

/// `sole`.
pub fn sole() -> (res: Value)
    ensures
        res == Value::Sole,
{
    Value::Sole
}

/// `Absurd`.
pub fn absurd() -> (res: Value)
    ensures
        res == Value::Absurd,
{
    Value::Absurd
}

/// The neutral value of type `typ` made of the stuck elimination `kind`.
pub fn neutral(typ: Value, kind: Neutral) -> (res: Value)
    ensures
        res == (Value::Neutral { type_value: Box::new(typ), kind: Box::new(kind) }),
{
    Value::Neutral { type_value: Box::new(typ), kind: Box::new(kind) }
}

} // verus!
