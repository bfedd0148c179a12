//! The syntax of Pie: source and elaborated terms share one type, `Core`.
use vstd::prelude::*;
use crate::symbol::{Name, Symbol};

verus! {

/// `(the T e)`: an expression annotated with its type.
#[derive(Debug, PartialEq)]
pub struct The {
    pub typ: Box<Core>,
    pub exp: Box<Core>,
}

/// The base of a ternary eliminator: plain as written, or annotated with its
/// type once elaborated.
#[derive(Debug, PartialEq)]
pub enum MaybeTyped {
    Plain(Box<Core>),
    The(Box<Core>, Box<Core>),
}

/// `(which-Nat target base step)`.
#[derive(Debug, PartialEq)]
pub struct WhichNat {
    pub target: Box<Core>,
    pub base: MaybeTyped,
    pub step: Box<Core>,
}

/// `(iter-Nat target base step)`.
#[derive(Debug, PartialEq)]
pub struct IterNat {
    pub target: Box<Core>,
    pub base: MaybeTyped,
    pub step: Box<Core>,
}

/// `(rec-Nat target base step)`.
#[derive(Debug, PartialEq)]
pub struct RecNat {
    pub target: Box<Core>,
    pub base: MaybeTyped,
    pub step: Box<Core>,
}

/// `(ind-Nat target motive base step)`.
#[derive(Debug, PartialEq)]
pub struct IndNat {
    pub target: Box<Core>,
    pub motive: Box<Core>,
    pub base: Box<Core>,
    pub step: Box<Core>,
}

/// `(Π ((x A)) B)`.
#[derive(Debug, PartialEq)]
pub struct Pi {
    pub arg_name: Symbol,
    pub arg_type: Box<Core>,
    pub res_type: Box<Core>,
}

/// `(λ (x) body)`.
#[derive(Debug, PartialEq)]
pub struct Lambda {
    pub arg_name: Symbol,
    pub body: Box<Core>,
}

/// A single application `(f a)`.
#[derive(Debug, PartialEq)]
pub struct App {
    pub fun: Box<Core>,
    pub arg: Box<Core>,
}

/// A variable reference.
#[derive(Debug, PartialEq)]
pub struct Ref(pub Symbol);

/// `(Σ ((x A)) D)`.
#[derive(Debug, PartialEq)]
pub struct Sigma {
    pub arg_name: Symbol,
    pub car_type: Box<Core>,
    pub cdr_type: Box<Core>,
}

/// `(rec-List target base step)`.
#[derive(Debug, PartialEq)]
pub struct RecList {
    pub target: Box<Core>,
    pub base: MaybeTyped,
    pub step: Box<Core>,
}

/// `(ind-List target motive base step)`.
#[derive(Debug, PartialEq)]
pub struct IndList {
    pub target: Box<Core>,
    pub motive: Box<Core>,
    pub base: Box<Core>,
    pub step: Box<Core>,
}

/// `(ind-Vec len target motive base step)`.
#[derive(Debug, PartialEq)]
pub struct IndVec {
    pub len: Box<Core>,
    pub target: Box<Core>,
    pub motive: Box<Core>,
    pub base: Box<Core>,
    pub step: Box<Core>,
}

/// A named hole, annotated with its type once elaborated.
#[derive(Debug, PartialEq)]
pub struct ToDo {
    pub name: Symbol,
    pub typ: Option<Box<Core>>,
}

/// `(= A from to)`.
#[derive(Debug, PartialEq)]
pub struct Equal {
    pub typ: Box<Core>,
    pub from: Box<Core>,
    pub to: Box<Core>,
}

/// `(replace target motive base)`.
#[derive(Debug, PartialEq)]
pub struct Replace {
    pub target: Box<Core>,
    pub motive: Box<Core>,
    pub base: Box<Core>,
}

/// `(ind-Either target motive left right)`.
#[derive(Debug, PartialEq)]
pub struct IndEither {
    pub target: Box<Core>,
    pub motive: Box<Core>,
    pub left: Box<Core>,
    pub right: Box<Core>,
}

/// `(ind-Absurd target motive)`.
#[derive(Debug, PartialEq)]
pub struct IndAbsurd {
    pub target: Box<Core>,
    pub motive: Box<Core>,
}

/// A list of terms (arguments of sugared forms).
#[derive(Debug, PartialEq)]
pub enum CoreList {
    Empty,
    More(Box<Core>, Box<CoreList>),
}

/// A list of binders `((x A) ...)`.
#[derive(Debug, PartialEq)]
pub enum BinderList {
    Empty,
    More(Symbol, Box<Core>, Box<BinderList>),
}

/// A list of parameter names.
#[derive(Debug, PartialEq)]
pub enum SymbolList {
    Empty,
    More(Symbol, Box<SymbolList>),
}

/// Pie terms. The starred and arrow forms are sugar that elaboration removes.
#[derive(Debug, PartialEq)]
pub enum Core {
    Invalid(Name),
    The(The),
    Universe,
    Nat,
    Zero,
    Add1(Box<Core>),
    WhichNat(WhichNat),
    IterNat(IterNat),
    RecNat(RecNat),
    IndNat(IndNat),
    Atom,
    Quote(Symbol),
    Fun(CoreList),
    Pi(Pi),
    PiStar(BinderList, Box<Core>),
    Lambda(Lambda),
    LambdaStar(SymbolList, Box<Core>),
    App(App),
    AppStar(Box<Core>, CoreList),
    Ref(Ref),
    Sigma(Sigma),
    SigmaStar(BinderList, Box<Core>),
    Pair(Box<Core>, Box<Core>),
    Cons(Box<Core>, Box<Core>),
    Car(Box<Core>),
    Cdr(Box<Core>),
    List(Box<Core>),
    Nil,
    ListCons(Box<Core>, Box<Core>),
    RecList(RecList),
    IndList(IndList),
    Vector(Box<Core>, Box<Core>),
    VecNil,
    VectorCons(Box<Core>, Box<Core>),
    Head(Box<Core>),
    Tail(Box<Core>),
    IndVec(IndVec),
    ToDo(ToDo),
    Equal(Equal),
    Same(Box<Core>),
    Replace(Replace),
    Cong(Box<Core>, Box<Core>),
    Cong2(Box<Core>, Box<Core>, Box<Core>),
    Symm(Box<Core>),
    Either(Box<Core>, Box<Core>),
    Left(Box<Core>),
    Right(Box<Core>),
    IndEither(IndEither),
    Trivial,
    Sole,
    Absurd,
    IndAbsurd(IndAbsurd),
}

} // verus!

verus! {


impl Clone for The {
    fn clone(&self) -> (res: Self)
        ensures
            res == *self,
        decreases self,
    {
        The { typ: Box::new((*self.typ).clone()), exp: Box::new((*self.exp).clone()) }
    }
}

impl Clone for WhichNat {
    fn clone(&self) -> (res: Self)
        ensures
            res == *self,
        decreases self,
    {
        WhichNat { target: Box::new((*self.target).clone()), base: self.base.clone(), step: Box::new((*self.step).clone()) }
    }
}

impl Clone for IterNat {
    fn clone(&self) -> (res: Self)
        ensures
            res == *self,
        decreases self,
    {
        IterNat { target: Box::new((*self.target).clone()), base: self.base.clone(), step: Box::new((*self.step).clone()) }
    }
}

impl Clone for RecNat {
    fn clone(&self) -> (res: Self)
        ensures
            res == *self,
        decreases self,
    {
        RecNat { target: Box::new((*self.target).clone()), base: self.base.clone(), step: Box::new((*self.step).clone()) }
    }
}

impl Clone for IndNat {
    fn clone(&self) -> (res: Self)
        ensures
            res == *self,
        decreases self,
    {
        IndNat { target: Box::new((*self.target).clone()), motive: Box::new((*self.motive).clone()), base: Box::new((*self.base).clone()), step: Box::new((*self.step).clone()) }
    }
}

impl Clone for Pi {
    fn clone(&self) -> (res: Self)
        ensures
            res == *self,
        decreases self,
    {
        Pi { arg_name: self.arg_name.clone(), arg_type: Box::new((*self.arg_type).clone()), res_type: Box::new((*self.res_type).clone()) }
    }
}

impl Clone for Lambda {
    fn clone(&self) -> (res: Self)
        ensures
            res == *self,
        decreases self,
    {
        Lambda { arg_name: self.arg_name.clone(), body: Box::new((*self.body).clone()) }
    }
}

impl Clone for App {
    fn clone(&self) -> (res: Self)
        ensures
            res == *self,
        decreases self,
    {
        App { fun: Box::new((*self.fun).clone()), arg: Box::new((*self.arg).clone()) }
    }
}

impl Clone for Sigma {
    fn clone(&self) -> (res: Self)
        ensures
            res == *self,
        decreases self,
    {
        Sigma { arg_name: self.arg_name.clone(), car_type: Box::new((*self.car_type).clone()), cdr_type: Box::new((*self.cdr_type).clone()) }
    }
}

impl Clone for RecList {
    fn clone(&self) -> (res: Self)
        ensures
            res == *self,
        decreases self,
    {
        RecList { target: Box::new((*self.target).clone()), base: self.base.clone(), step: Box::new((*self.step).clone()) }
    }
}

impl Clone for IndList {
    fn clone(&self) -> (res: Self)
        ensures
            res == *self,
        decreases self,
    {
        IndList { target: Box::new((*self.target).clone()), motive: Box::new((*self.motive).clone()), base: Box::new((*self.base).clone()), step: Box::new((*self.step).clone()) }
    }
}

impl Clone for IndVec {
    fn clone(&self) -> (res: Self)
        ensures
            res == *self,
        decreases self,
    {
        IndVec { len: Box::new((*self.len).clone()), target: Box::new((*self.target).clone()), motive: Box::new((*self.motive).clone()), base: Box::new((*self.base).clone()), step: Box::new((*self.step).clone()) }
    }
}

impl Clone for Equal {
    fn clone(&self) -> (res: Self)
        ensures
            res == *self,
        decreases self,
    {
        Equal { typ: Box::new((*self.typ).clone()), from: Box::new((*self.from).clone()), to: Box::new((*self.to).clone()) }
    }
}

impl Clone for Replace {
    fn clone(&self) -> (res: Self)
        ensures
            res == *self,
        decreases self,
    {
        Replace { target: Box::new((*self.target).clone()), motive: Box::new((*self.motive).clone()), base: Box::new((*self.base).clone()) }
    }
}

impl Clone for IndEither {
    fn clone(&self) -> (res: Self)
        ensures
            res == *self,
        decreases self,
    {
        IndEither { target: Box::new((*self.target).clone()), motive: Box::new((*self.motive).clone()), left: Box::new((*self.left).clone()), right: Box::new((*self.right).clone()) }
    }
}

impl Clone for IndAbsurd {
    fn clone(&self) -> (res: Self)
        ensures
            res == *self,
        decreases self,
    {
        IndAbsurd { target: Box::new((*self.target).clone()), motive: Box::new((*self.motive).clone()) }
    }
}

impl Clone for Ref {
    fn clone(&self) -> (res: Self)
        ensures
            res == *self,
        decreases self,
    {
        Ref(self.0.clone())
    }
}

impl Clone for ToDo {
    fn clone(&self) -> (res: Self)
        ensures
            res == *self,
        decreases self,
    {
        let typ = match &self.typ {
            Some(t) => Some(Box::new((**t).clone())),
            None => None,
        };
        ToDo { name: self.name.clone(), typ }
    }
}

impl Clone for MaybeTyped {
    fn clone(&self) -> (res: Self)
        ensures
            res == *self,
        decreases self,
    {
        match self {
            MaybeTyped::Plain(b) => MaybeTyped::Plain(Box::new((**b).clone())),
            MaybeTyped::The(t, b) => MaybeTyped::The(Box::new((**t).clone()), Box::new((**b).clone())),
        }
    }
}

impl Clone for CoreList {
    fn clone(&self) -> (res: Self)
        ensures
            res == *self,
        decreases self,
    {
        match self {
            CoreList::Empty => CoreList::Empty,
            CoreList::More(e, rest) => CoreList::More(Box::new((**e).clone()), Box::new((**rest).clone())),
        }
    }
}

impl Clone for BinderList {
    fn clone(&self) -> (res: Self)
        ensures
            res == *self,
        decreases self,
    {
        match self {
            BinderList::Empty => BinderList::Empty,
            BinderList::More(x, t, rest) => BinderList::More(
                x.clone(),
                Box::new((**t).clone()),
                Box::new((**rest).clone()),
            ),
        }
    }
}

impl Clone for SymbolList {
    fn clone(&self) -> (res: Self)
        ensures
            res == *self,
        decreases self,
    {
        match self {
            SymbolList::Empty => SymbolList::Empty,
            SymbolList::More(x, rest) => SymbolList::More(x.clone(), Box::new((**rest).clone())),
        }
    }
}

impl Clone for Core {
    fn clone(&self) -> (res: Self)
        ensures
            res == *self,
        decreases self,
    {
        match self {
            Core::Invalid(x) => Core::Invalid(x.clone()),
            Core::The(x) => Core::The(x.clone()),
            Core::Universe => Core::Universe,
            Core::Nat => Core::Nat,
            Core::Zero => Core::Zero,
            Core::Add1(a) => Core::Add1(Box::new((**a).clone())),
            Core::WhichNat(x) => Core::WhichNat(x.clone()),
            Core::IterNat(x) => Core::IterNat(x.clone()),
            Core::RecNat(x) => Core::RecNat(x.clone()),
            Core::IndNat(x) => Core::IndNat(x.clone()),
            Core::Atom => Core::Atom,
            Core::Quote(x) => Core::Quote(x.clone()),
            Core::Fun(x) => Core::Fun(x.clone()),
            Core::Pi(x) => Core::Pi(x.clone()),
            Core::PiStar(x, b) => Core::PiStar(x.clone(), Box::new((**b).clone())),
            Core::Lambda(x) => Core::Lambda(x.clone()),
            Core::LambdaStar(x, b) => Core::LambdaStar(x.clone(), Box::new((**b).clone())),
            Core::App(x) => Core::App(x.clone()),
            Core::AppStar(b, x) => Core::AppStar(Box::new((**b).clone()), x.clone()),
            Core::Ref(x) => Core::Ref(x.clone()),
            Core::Sigma(x) => Core::Sigma(x.clone()),
            Core::SigmaStar(x, b) => Core::SigmaStar(x.clone(), Box::new((**b).clone())),
            Core::Pair(a, b) => Core::Pair(Box::new((**a).clone()), Box::new((**b).clone())),
            Core::Cons(a, b) => Core::Cons(Box::new((**a).clone()), Box::new((**b).clone())),
            Core::Car(a) => Core::Car(Box::new((**a).clone())),
            Core::Cdr(a) => Core::Cdr(Box::new((**a).clone())),
            Core::List(a) => Core::List(Box::new((**a).clone())),
            Core::Nil => Core::Nil,
            Core::ListCons(a, b) => Core::ListCons(Box::new((**a).clone()), Box::new((**b).clone())),
            Core::RecList(x) => Core::RecList(x.clone()),
            Core::IndList(x) => Core::IndList(x.clone()),
            Core::Vector(a, b) => Core::Vector(Box::new((**a).clone()), Box::new((**b).clone())),
            Core::VecNil => Core::VecNil,
            Core::VectorCons(a, b) => Core::VectorCons(Box::new((**a).clone()), Box::new((**b).clone())),
            Core::Head(a) => Core::Head(Box::new((**a).clone())),
            Core::Tail(a) => Core::Tail(Box::new((**a).clone())),
            Core::IndVec(x) => Core::IndVec(x.clone()),
            Core::ToDo(x) => Core::ToDo(x.clone()),
            Core::Equal(x) => Core::Equal(x.clone()),
            Core::Same(a) => Core::Same(Box::new((**a).clone())),
            Core::Replace(x) => Core::Replace(x.clone()),
            Core::Cong(a, b) => Core::Cong(Box::new((**a).clone()), Box::new((**b).clone())),
            Core::Cong2(a, b, c) => Core::Cong2(Box::new((**a).clone()), Box::new((**b).clone()), Box::new((**c).clone())),
            Core::Symm(a) => Core::Symm(Box::new((**a).clone())),
            Core::Either(a, b) => Core::Either(Box::new((**a).clone()), Box::new((**b).clone())),
            Core::Left(a) => Core::Left(Box::new((**a).clone())),
            Core::Right(a) => Core::Right(Box::new((**a).clone())),
            Core::IndEither(x) => Core::IndEither(x.clone()),
            Core::Trivial => Core::Trivial,
            Core::Sole => Core::Sole,
            Core::Absurd => Core::Absurd,
            Core::IndAbsurd(x) => Core::IndAbsurd(x.clone()),
        }
    }
}

} // verus!

verus! {

/// The binders passed on the way down two terms compared for
/// α-equivalence, paired by depth: the most recent pair is outermost.
#[derive(Debug, PartialEq)]
pub enum Bindings {
    Empty,
    Bind(Symbol, Symbol, Box<Bindings>),
}

} // verus!
