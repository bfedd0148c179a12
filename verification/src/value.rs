//! The semantic domain: values, neutral terms, closures, environments,
//! typing contexts and renamings.
use vstd::prelude::*;
use crate::symbol::{Name, Symbol};
use crate::syntax::Core;

verus! {

/// A term waiting for the value of its variable, together with the
/// environment it was written in.
#[derive(Debug, PartialEq)]
pub struct Closure {
    pub env: Env,
    pub var: Symbol,
    pub expr: Core,
}

/// Values of variables during evaluation; the most recent binding is
/// outermost.
#[derive(Debug, PartialEq)]
pub enum Env {
    Empty,
    Extend(Symbol, Box<Value>, Box<Env>),
}

/// A value together with its type, as stored inside neutral eliminations.
#[derive(Debug, PartialEq)]
pub struct Typed {
    pub typ: Value,
    pub value: Value,
}

/// Values.
#[derive(Debug, PartialEq)]
pub enum Value {
    Universe,
    Nat,
    Zero,
    Add1(Box<Value>),
    Pi { arg_name: Symbol, arg_type: Box<Value>, res_type: Box<Closure> },
    Lambda { arg_name: Symbol, body: Box<Closure> },
    Atom,
    Quote(Symbol),
    Sigma { arg_name: Symbol, car_type: Box<Value>, cdr_type: Box<Closure> },
    Cons(Box<Value>, Box<Value>),
    List(Box<Value>),
    Nil,
    ListCons(Box<Value>, Box<Value>),
    Vector(Box<Value>, Box<Value>),
    VecNil,
    VectorCons(Box<Value>, Box<Value>),
    Equal { typ: Box<Value>, from: Box<Value>, to: Box<Value> },
    Same(Box<Value>),
    Either(Box<Value>, Box<Value>),
    Left(Box<Value>),
    Right(Box<Value>),
    Trivial,
    Sole,
    Absurd,
    Neutral { type_value: Box<Value>, kind: Box<Neutral> },
    /// A part whose evaluation failed. Parts are only used when they are
    /// needed: building one never fails; a use that looks inside it fails,
    /// and reading it back gives the failure it keeps.
    Failed(Box<Error>),
}

/// Eliminations stuck on a variable.
#[derive(Debug, PartialEq)]
pub enum Neutral {
    Var(Symbol),
    App(Box<Neutral>, Box<Typed>),
    Car(Box<Neutral>),
    Cdr(Box<Neutral>),
    WhichNat(Box<Neutral>, Box<Typed>, Box<Typed>),
    IterNat(Box<Neutral>, Box<Typed>, Box<Typed>),
    IndNat(Box<Neutral>, Box<Typed>, Box<Typed>, Box<Typed>),
    RecList(Box<Neutral>, Box<Typed>, Box<Typed>),
    IndList(Box<Neutral>, Box<Typed>, Box<Typed>, Box<Typed>),
    Head(Box<Neutral>),
    Tail(Box<Neutral>),
    IndVec12(Box<Neutral>, Box<Neutral>, Box<Typed>, Box<Typed>, Box<Typed>),
    IndVec2(Box<Typed>, Box<Neutral>, Box<Typed>, Box<Typed>, Box<Typed>),
    IndEither(Box<Neutral>, Box<Typed>, Box<Typed>, Box<Typed>),
    IndAbsurd(Box<Neutral>, Box<Typed>),
    Todo(Symbol, Box<Value>),
}

/// Typing context: each variable with the value of its type; the most
/// recent binding is outermost.
#[derive(Debug, PartialEq)]
pub enum Ctx {
    Empty,
    Free(Symbol, Box<Value>, Box<Ctx>),
}

/// Renaming of source variables to the fresh names chosen for them.
#[derive(Debug, PartialEq)]
pub enum Renaming {
    Empty,
    Rename(Symbol, Symbol, Box<Renaming>),
}

/// Errors of evaluation, read-back and elaboration.
#[derive(Debug, PartialEq)]
pub enum Error {
    /// The fuel bounding the recursion ran out.
    OutOfFuel,
    /// A construct that this implementation does not handle.
    NotSupported,
    /// An elimination applied to a value of the wrong shape.
    Stuck,
    /// No index is left to make a name fresh.
    NoFreshName,
    UnknownVariable(Symbol),
    NotAType(Core),
    CantDetermineType(Core),
    UhasNoType,
    InvalidAtom(Symbol),
    InvalidSyntax(Name),
    NotATypeVar(Value),
    TypeMismatchVar(Value, Value),
    WrongType(Core, Core),
    NotAFunctionType(Core),
    NotASigmaType(Core),
    NotAListType(Core),
    NotAVecType(Core),
    NotAnEqualType(Core),
    NotAnEitherType(Core),
    LengthZero(Core),
    LengthNotZero(Core),
    NotTheSameType(Core, Core),
    NotTheSame(Core, Core, Core),
}

} // verus!

verus! {

impl Clone for Closure {
    fn clone(&self) -> (res: Self)
        ensures
            res == *self,
        decreases self,
    {
        Closure { env: self.env.clone(), var: self.var.clone(), expr: self.expr.clone() }
    }
}

impl Clone for Typed {
    fn clone(&self) -> (res: Self)
        ensures
            res == *self,
        decreases self,
    {
        Typed { typ: self.typ.clone(), value: self.value.clone() }
    }
}

impl Clone for Env {
    fn clone(&self) -> (res: Self)
        ensures
            res == *self,
        decreases self,
    {
        match self {
            Env::Empty => Env::Empty,
            Env::Extend(x, v, rest) => Env::Extend(x.clone(), Box::new((**v).clone()), Box::new((**rest).clone())),
        }
    }
}

impl Clone for Ctx {
    fn clone(&self) -> (res: Self)
        ensures
            res == *self,
        decreases self,
    {
        match self {
            Ctx::Empty => Ctx::Empty,
            Ctx::Free(x, v, rest) => Ctx::Free(x.clone(), Box::new((**v).clone()), Box::new((**rest).clone())),
        }
    }
}

impl Clone for Renaming {
    fn clone(&self) -> (res: Self)
        ensures
            res == *self,
        decreases self,
    {
        match self {
            Renaming::Empty => Renaming::Empty,
            Renaming::Rename(x, y, rest) => Renaming::Rename(x.clone(), y.clone(), Box::new((**rest).clone())),
        }
    }
}

impl Clone for Value {
    fn clone(&self) -> (res: Self)
        ensures
            res == *self,
        decreases self,
    {
        match self {
            Value::Universe => Value::Universe,
            Value::Nat => Value::Nat,
            Value::Zero => Value::Zero,
            Value::Add1(a) => Value::Add1(Box::new((**a).clone())),
            Value::Atom => Value::Atom,
            Value::Quote(x) => Value::Quote(x.clone()),
            Value::Cons(a, b) => Value::Cons(Box::new((**a).clone()), Box::new((**b).clone())),
            Value::List(a) => Value::List(Box::new((**a).clone())),
            Value::Nil => Value::Nil,
            Value::ListCons(a, b) => Value::ListCons(Box::new((**a).clone()), Box::new((**b).clone())),
            Value::Vector(a, b) => Value::Vector(Box::new((**a).clone()), Box::new((**b).clone())),
            Value::VecNil => Value::VecNil,
            Value::VectorCons(a, b) => Value::VectorCons(Box::new((**a).clone()), Box::new((**b).clone())),
            Value::Same(a) => Value::Same(Box::new((**a).clone())),
            Value::Either(a, b) => Value::Either(Box::new((**a).clone()), Box::new((**b).clone())),
            Value::Left(a) => Value::Left(Box::new((**a).clone())),
            Value::Right(a) => Value::Right(Box::new((**a).clone())),
            Value::Trivial => Value::Trivial,
            Value::Sole => Value::Sole,
            Value::Absurd => Value::Absurd,
            Value::Pi { arg_name, arg_type, res_type } => Value::Pi {
                arg_name: arg_name.clone(),
                arg_type: Box::new((**arg_type).clone()),
                res_type: Box::new((**res_type).clone()),
            },
            Value::Lambda { arg_name, body } => Value::Lambda {
                arg_name: arg_name.clone(),
                body: Box::new((**body).clone()),
            },
            Value::Sigma { arg_name, car_type, cdr_type } => Value::Sigma {
                arg_name: arg_name.clone(),
                car_type: Box::new((**car_type).clone()),
                cdr_type: Box::new((**cdr_type).clone()),
            },
            Value::Equal { typ, from, to } => Value::Equal {
                typ: Box::new((**typ).clone()),
                from: Box::new((**from).clone()),
                to: Box::new((**to).clone()),
            },
            Value::Neutral { type_value, kind } => Value::Neutral {
                type_value: Box::new((**type_value).clone()),
                kind: Box::new((**kind).clone()),
            },
            Value::Failed(err) => Value::Failed(Box::new((**err).clone())),
        }
    }
}

impl Clone for Neutral {
    fn clone(&self) -> (res: Self)
        ensures
            res == *self,
        decreases self,
    {
        match self {
            Neutral::Var(x) => Neutral::Var(x.clone()),
            Neutral::App(a0, a1) => Neutral::App(Box::new((**a0).clone()), Box::new((**a1).clone())),
            Neutral::Car(a0) => Neutral::Car(Box::new((**a0).clone())),
            Neutral::Cdr(a0) => Neutral::Cdr(Box::new((**a0).clone())),
            Neutral::WhichNat(a0, a1, a2) => Neutral::WhichNat(Box::new((**a0).clone()), Box::new((**a1).clone()), Box::new((**a2).clone())),
            Neutral::IterNat(a0, a1, a2) => Neutral::IterNat(Box::new((**a0).clone()), Box::new((**a1).clone()), Box::new((**a2).clone())),
            Neutral::IndNat(a0, a1, a2, a3) => Neutral::IndNat(Box::new((**a0).clone()), Box::new((**a1).clone()), Box::new((**a2).clone()), Box::new((**a3).clone())),
            Neutral::RecList(a0, a1, a2) => Neutral::RecList(Box::new((**a0).clone()), Box::new((**a1).clone()), Box::new((**a2).clone())),
            Neutral::IndList(a0, a1, a2, a3) => Neutral::IndList(Box::new((**a0).clone()), Box::new((**a1).clone()), Box::new((**a2).clone()), Box::new((**a3).clone())),
            Neutral::Head(a0) => Neutral::Head(Box::new((**a0).clone())),
            Neutral::Tail(a0) => Neutral::Tail(Box::new((**a0).clone())),
            Neutral::IndVec12(a0, a1, a2, a3, a4) => Neutral::IndVec12(Box::new((**a0).clone()), Box::new((**a1).clone()), Box::new((**a2).clone()), Box::new((**a3).clone()), Box::new((**a4).clone())),
            Neutral::IndVec2(a0, a1, a2, a3, a4) => Neutral::IndVec2(Box::new((**a0).clone()), Box::new((**a1).clone()), Box::new((**a2).clone()), Box::new((**a3).clone()), Box::new((**a4).clone())),
            Neutral::IndEither(a0, a1, a2, a3) => Neutral::IndEither(Box::new((**a0).clone()), Box::new((**a1).clone()), Box::new((**a2).clone()), Box::new((**a3).clone())),
            Neutral::IndAbsurd(a0, a1) => Neutral::IndAbsurd(Box::new((**a0).clone()), Box::new((**a1).clone())),
            Neutral::Todo(x, t) => Neutral::Todo(x.clone(), Box::new((**t).clone())),
        }
    }
}

impl Clone for Error {
    fn clone(&self) -> (res: Self)
        ensures
            res == *self,
        decreases self,
    {
        match self {
            Error::OutOfFuel => Error::OutOfFuel,
            Error::NotSupported => Error::NotSupported,
            Error::Stuck => Error::Stuck,
            Error::NoFreshName => Error::NoFreshName,
            Error::UnknownVariable(x) => Error::UnknownVariable(x.clone()),
            Error::NotAType(e) => Error::NotAType(e.clone()),
            Error::CantDetermineType(e) => Error::CantDetermineType(e.clone()),
            Error::UhasNoType => Error::UhasNoType,
            Error::InvalidAtom(x) => Error::InvalidAtom(x.clone()),
            Error::InvalidSyntax(n) => Error::InvalidSyntax(n.clone()),
            Error::NotATypeVar(v) => Error::NotATypeVar(v.clone()),
            Error::TypeMismatchVar(v, t) => Error::TypeMismatchVar(v.clone(), t.clone()),
            Error::WrongType(a, b) => Error::WrongType(a.clone(), b.clone()),
            Error::NotAFunctionType(t) => Error::NotAFunctionType(t.clone()),
            Error::NotASigmaType(t) => Error::NotASigmaType(t.clone()),
            Error::NotAListType(t) => Error::NotAListType(t.clone()),
            Error::NotAVecType(t) => Error::NotAVecType(t.clone()),
            Error::NotAnEqualType(t) => Error::NotAnEqualType(t.clone()),
            Error::NotAnEitherType(t) => Error::NotAnEitherType(t.clone()),
            Error::LengthZero(n) => Error::LengthZero(n.clone()),
            Error::LengthNotZero(n) => Error::LengthNotZero(n.clone()),
            Error::NotTheSameType(a, b) => Error::NotTheSameType(a.clone(), b.clone()),
            Error::NotTheSame(t, a, b) => Error::NotTheSame(t.clone(), a.clone(), b.clone()),
        }
    }
}

} // verus!
