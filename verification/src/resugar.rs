//! Resugaring: turning an elaborated term back into the shorter forms a
//! programmer writes. A non-dependent `Π` becomes an arrow, nested `λ`s
//! become one `λ` with several parameters. Each result comes with the free
//! variables of the resugared term (a name may be listed more than once).
use vstd::prelude::*;
use crate::symbol::Symbol;
use crate::syntax::{
    App, BinderList, Core, CoreList, IndAbsurd, IndEither, IndList, IndNat, IndVec, IterNat, MaybeTyped, RecList,
    RecNat, Ref, SymbolList, The, WhichNat,
};
use crate::value::Error;

verus! {

/// `s` with every occurrence of `x` removed, the others in order.
pub open spec fn without(s: Seq<Symbol>, x: Symbol) -> Seq<Symbol>
    decreases s.len(),
{
    if s.len() == 0 {
        s
    } else if s.last() == x {
        without(s.drop_last(), x)
    } else {
        without(s.drop_last(), x).push(s.last())
    }
}

/// `(-> a b)`, or `(-> a b1 b2 ...)` when `b` is already `(-> b1 b2 ...)`.
pub open spec fn add_fun(a: Core, b: Core) -> Core {
    match b {
        Core::Fun(ts) => Core::Fun(CoreList::More(Box::new(a), Box::new(ts))),
        _ => Core::Fun(
            CoreList::More(Box::new(a), Box::new(CoreList::More(Box::new(b), Box::new(CoreList::Empty)))),
        ),
    }
}

/// `(λ (x) b)`, or `(λ (x y ...) body)` when `b` is already `(λ (y ...) body)`.
pub open spec fn add_lambda(x: Symbol, b: Core) -> Core {
    match b {
        Core::LambdaStar(xs, body) => Core::LambdaStar(SymbolList::More(x, Box::new(xs)), body),
        _ => Core::LambdaStar(SymbolList::More(x, Box::new(SymbolList::Empty)), Box::new(b)),
    }
}

/// Two resugared parts side by side, their free variables joined; the first
/// failure wins.
pub open spec fn both<A, B>(a: Result<(Seq<Symbol>, A), Error>, b: Result<(Seq<Symbol>, B), Error>) -> Result<
    (Seq<Symbol>, (A, B)),
    Error,
> {
    match a {
        Err(e) => Err(e),
        Ok((na, x)) => match b {
            Err(e) => Err(e),
            Ok((nb, y)) => Ok((na + nb, (x, y))),
        },
    }
}

/// The free variables and resugared form of a base, typed or not.
pub open spec fn resugar_base(b: MaybeTyped) -> Result<(Seq<Symbol>, MaybeTyped), Error>
    decreases b,
{
    match b {
        MaybeTyped::Plain(e) => match resugar(*e) {
            Err(err) => Err(err),
            Ok((n, r)) => Ok((n, MaybeTyped::Plain(Box::new(r)))),
        },
        MaybeTyped::The(t, e) => match both(resugar(*t), resugar(*e)) {
            Err(err) => Err(err),
            Ok((n, (rt, re))) => Ok((n, MaybeTyped::The(Box::new(rt), Box::new(re)))),
        },
    }
}

/// A binder form `x : a` over `b` whose body does not mention `x`, with
/// the free variables of both parts; a dependent one is not handled.
pub open spec fn non_dependent(x: Symbol, a: Result<(Seq<Symbol>, Core), Error>, b: Result<
    (Seq<Symbol>, Core),
    Error,
>) -> Result<(Seq<Symbol>, (Core, Core)), Error> {
    match both(a, b) {
        Err(e) => Err(e),
        Ok((n, (ra, rb))) => if b.unwrap().0.contains(x) {
            Err(Error::NotSupported)
        } else {
            Ok((n, (ra, rb)))
        },
    }
}

/// The free variables of `e` and its resugared form. Non-dependent `Π`
/// types become arrows, non-dependent `Σ` types become `Pair`, nested `λ`s
/// are merged; the forms that have no resugaring (sugar already, equality,
/// pairs' eliminators, a dependent `Π` or `Σ`, an unannotated hole, ...)
/// give `NotSupported`.
pub open spec fn resugar(e: Core) -> Result<(Seq<Symbol>, Core), Error>
    decreases e,
{
    match e {
        Core::Universe | Core::Nat | Core::Zero | Core::Atom | Core::Quote(_) | Core::Nil
        | Core::VecNil | Core::Trivial | Core::Sole | Core::Absurd => Ok((Seq::empty(), e)),
        Core::Ref(r) => Ok((seq![r.0], e)),
        Core::ToDo(t) => match t.typ {
            Some(_) => Ok((Seq::empty(), e)),
            None => Err(Error::NotSupported),
        },
        Core::The(t) => match both(resugar(*t.typ), resugar(*t.exp)) {
            Err(err) => Err(err),
            Ok((n, (a, b))) => Ok((n, Core::The(The { typ: Box::new(a), exp: Box::new(b) }))),
        },
        Core::Add1(a) => match resugar(*a) {
            Err(err) => Err(err),
            Ok((n, r)) => Ok((n, Core::Add1(Box::new(r)))),
        },
        Core::List(a) => match resugar(*a) {
            Err(err) => Err(err),
            Ok((n, r)) => Ok((n, Core::List(Box::new(r)))),
        },
        Core::App(w) => match both(resugar(*w.fun), resugar(*w.arg)) {
            Err(err) => Err(err),
            Ok((n, (a, b))) => Ok((n, Core::App(App { fun: Box::new(a), arg: Box::new(b) }))),
        },
        Core::Cons(a, d) => match both(resugar(*a), resugar(*d)) {
            Err(err) => Err(err),
            Ok((n, (x, y))) => Ok((n, Core::Cons(Box::new(x), Box::new(y)))),
        },
        Core::ListCons(a, d) => match both(resugar(*a), resugar(*d)) {
            Err(err) => Err(err),
            Ok((n, (x, y))) => Ok((n, Core::ListCons(Box::new(x), Box::new(y)))),
        },
        Core::Vector(a, d) => match both(resugar(*a), resugar(*d)) {
            Err(err) => Err(err),
            Ok((n, (x, y))) => Ok((n, Core::Vector(Box::new(x), Box::new(y)))),
        },
        Core::VectorCons(a, d) => match both(resugar(*a), resugar(*d)) {
            Err(err) => Err(err),
            Ok((n, (x, y))) => Ok((n, Core::VectorCons(Box::new(x), Box::new(y)))),
        },
        Core::Either(a, d) => match both(resugar(*a), resugar(*d)) {
            Err(err) => Err(err),
            Ok((n, (x, y))) => Ok((n, Core::Either(Box::new(x), Box::new(y)))),
        },
        Core::IndAbsurd(w) => match both(resugar(*w.target), resugar(*w.motive)) {
            Err(err) => Err(err),
            Ok((n, (x, y))) => Ok(
                (n, Core::IndAbsurd(IndAbsurd { target: Box::new(x), motive: Box::new(y) })),
            ),
        },
        Core::WhichNat(w) => match both(resugar(*w.target), both(resugar_base(w.base), resugar(*w.step))) {
            Err(err) => Err(err),
            Ok((n, (t, (b, s)))) => Ok(
                (n, Core::WhichNat(WhichNat { target: Box::new(t), base: b, step: Box::new(s) })),
            ),
        },
        Core::IterNat(w) => match both(resugar(*w.target), both(resugar_base(w.base), resugar(*w.step))) {
            Err(err) => Err(err),
            Ok((n, (t, (b, s)))) => Ok(
                (n, Core::IterNat(IterNat { target: Box::new(t), base: b, step: Box::new(s) })),
            ),
        },
        Core::RecNat(w) => match both(resugar(*w.target), both(resugar_base(w.base), resugar(*w.step))) {
            Err(err) => Err(err),
            Ok((n, (t, (b, s)))) => Ok(
                (n, Core::RecNat(RecNat { target: Box::new(t), base: b, step: Box::new(s) })),
            ),
        },
        Core::RecList(w) => match both(resugar(*w.target), both(resugar_base(w.base), resugar(*w.step))) {
            Err(err) => Err(err),
            Ok((n, (t, (b, s)))) => Ok(
                (n, Core::RecList(RecList { target: Box::new(t), base: b, step: Box::new(s) })),
            ),
        },
        Core::IndNat(w) => match both(
            resugar(*w.target),
            both(resugar(*w.motive), both(resugar(*w.base), resugar(*w.step))),
        ) {
            Err(err) => Err(err),
            Ok((n, (t, (m, (b, s))))) => Ok(
                (
                    n,
                    Core::IndNat(
                        IndNat {
                            target: Box::new(t),
                            motive: Box::new(m),
                            base: Box::new(b),
                            step: Box::new(s),
                        },
                    ),
                ),
            ),
        },
        Core::IndList(w) => match both(
            resugar(*w.target),
            both(resugar(*w.motive), both(resugar(*w.base), resugar(*w.step))),
        ) {
            Err(err) => Err(err),
            Ok((n, (t, (m, (b, s))))) => Ok(
                (
                    n,
                    Core::IndList(
                        IndList {
                            target: Box::new(t),
                            motive: Box::new(m),
                            base: Box::new(b),
                            step: Box::new(s),
                        },
                    ),
                ),
            ),
        },
        Core::IndEither(w) => match both(
            resugar(*w.target),
            both(resugar(*w.motive), both(resugar(*w.left), resugar(*w.right))),
        ) {
            Err(err) => Err(err),
            Ok((n, (t, (m, (l, r))))) => Ok(
                (
                    n,
                    Core::IndEither(
                        IndEither {
                            target: Box::new(t),
                            motive: Box::new(m),
                            left: Box::new(l),
                            right: Box::new(r),
                        },
                    ),
                ),
            ),
        },
        Core::IndVec(w) => match both(
            resugar(*w.len),
            both(
                resugar(*w.target),
                both(resugar(*w.motive), both(resugar(*w.base), resugar(*w.step))),
            ),
        ) {
            Err(err) => Err(err),
            Ok((n, (l, (t, (m, (b, s)))))) => Ok(
                (
                    n,
                    Core::IndVec(
                        IndVec {
                            len: Box::new(l),
                            target: Box::new(t),
                            motive: Box::new(m),
                            base: Box::new(b),
                            step: Box::new(s),
                        },
                    ),
                ),
            ),
        },
        Core::Lambda(l) => match resugar(*l.body) {
            Err(err) => Err(err),
            Ok((n, r)) => Ok((without(n, l.arg_name), add_lambda(l.arg_name, r))),
        },
        Core::Pi(p) => match non_dependent(p.arg_name, resugar(*p.arg_type), resugar(*p.res_type)) {
            Err(err) => Err(err),
            Ok((n, (a, b))) => Ok((n, add_fun(a, b))),
        },
        Core::PiStar(bs, r) => match bs {
            BinderList::More(x, a, rest) => match *rest {
                BinderList::Empty => match non_dependent(x, resugar(*a), resugar(*r)) {
                    Err(err) => Err(err),
                    Ok((n, (ra, rb))) => Ok((n, add_fun(ra, rb))),
                },
                _ => Err(Error::NotSupported),
            },
            _ => Err(Error::NotSupported),
        },
        Core::Sigma(s) => match non_dependent(s.arg_name, resugar(*s.car_type), resugar(*s.cdr_type)) {
            Err(err) => Err(err),
            Ok((n, (a, d))) => Ok((n, Core::Pair(Box::new(a), Box::new(d)))),
        },
        _ => Err(Error::NotSupported),
    }
}

/// The model's view of a resugared result.
pub open spec fn view_of<A>(r: Result<(Vec<Symbol>, A), Error>) -> Result<(Seq<Symbol>, A), Error> {
    match r {
        Ok((n, a)) => Ok((n@, a)),
        Err(e) => Err(e),
    }
}

fn join<A, B>(a: Result<(Vec<Symbol>, A), Error>, b: Result<(Vec<Symbol>, B), Error>) -> (res: Result<
    (Vec<Symbol>, (A, B)),
    Error,
>)
    ensures
        view_of(res) == both(view_of(a), view_of(b)),
{
    match a {
        Err(e) => Err(e),
        Ok((mut na, x)) => match b {
            Err(e) => Err(e),
            Ok((mut nb, y)) => {
                na.append(&mut nb);
                Ok((na, (x, y)))
            },
        },
    }
}

fn contains(s: &Vec<Symbol>, x: &Symbol) -> (res: bool)
    ensures
        res == s@.contains(*x),
{
    let mut i: usize = 0;
    while i < s.len()
        invariant
            i <= s.len(),
            forall|j: int| 0 <= j < i ==> s@[j] != *x,
        decreases s.len() - i,
    {
        if s[i].same(x) {
            return true;
        }
        i = i + 1;
    }
    false
}

fn remove_all(s: Vec<Symbol>, x: &Symbol) -> (res: Vec<Symbol>)
    ensures
        res@ == without(s@, *x),
{
    let mut out: Vec<Symbol> = Vec::new();
    let mut i: usize = 0;
    while i < s.len()
        invariant
            i <= s.len(),
            out@ == without(s@.take(i as int), *x),
        decreases s.len() - i,
    {
        assert(s@.take(i + 1).drop_last() =~= s@.take(i as int));
        if !s[i].same(x) {
            out.push(s[i].clone());
        }
        i = i + 1;
    }
    assert(s@.take(s.len() as int) =~= s@);
    out
}

fn non_dependent_exec(x: &Symbol, a: Result<(Vec<Symbol>, Core), Error>, b: Result<
    (Vec<Symbol>, Core),
    Error,
>) -> (res: Result<(Vec<Symbol>, (Core, Core)), Error>)
    ensures
        view_of(res) == non_dependent(*x, view_of(a), view_of(b)),
{
    let dependent = match &b {
        Ok((nb, _)) => contains(nb, x),
        Err(_) => false,
    };
    let r = join(a, b);
    match r {
        Err(e) => Err(e),
        Ok(p) => if dependent {
            Err(Error::NotSupported)
        } else {
            Ok(p)
        },
    }
}

fn add_fun_exec(a: Core, b: Core) -> (res: Core)
    ensures
        res == add_fun(a, b),
{
    match b {
        Core::Fun(ts) => Core::Fun(CoreList::More(Box::new(a), Box::new(ts))),
        _ => Core::Fun(
            CoreList::More(Box::new(a), Box::new(CoreList::More(Box::new(b), Box::new(CoreList::Empty)))),
        ),
    }
}

fn add_lambda_exec(x: Symbol, b: Core) -> (res: Core)
    ensures
        res == add_lambda(x, b),
{
    match b {
        Core::LambdaStar(xs, body) => Core::LambdaStar(SymbolList::More(x, Box::new(xs)), body),
        _ => Core::LambdaStar(SymbolList::More(x, Box::new(SymbolList::Empty)), Box::new(b)),
    }
}

impl MaybeTyped {
    /// The free variables and resugared form of this base.
    pub fn resugar(&self) -> (res: Result<(Vec<Symbol>, MaybeTyped), Error>)
        ensures
            view_of(res) == resugar_base(*self),
        decreases self,
    {
        match self {
            MaybeTyped::Plain(e) => match e.resugar() {
                Err(err) => Err(err),
                Ok((n, r)) => Ok((n, MaybeTyped::Plain(Box::new(r)))),
            },
            MaybeTyped::The(t, e) => match join(t.resugar(), e.resugar()) {
                Err(err) => Err(err),
                Ok((n, (rt, re))) => Ok((n, MaybeTyped::The(Box::new(rt), Box::new(re)))),
            },
        }
    }
}


/// Resugaring, split by the shape of the term.
impl Core {
    /// The free variables of this term and its resugared form, as
    /// `resugar` defines them.
    pub fn resugar(&self) -> (res: Result<(Vec<Symbol>, Core), Error>)
        ensures
            view_of(res) == resugar(*self),
        decreases self, 2nat,
    {
        match self {
            Core::Universe | Core::Nat | Core::Zero | Core::Atom | Core::Quote(..) | Core::Nil
            | Core::VecNil | Core::Trivial | Core::Sole | Core::Absurd | Core::Ref(..) | Core::ToDo(..) => self.resugar_leaf(),
            Core::The(..) | Core::Add1(..) | Core::List(..) | Core::App(..) => self.resugar_unary(),
            Core::Cons(..) | Core::ListCons(..) | Core::Vector(..) | Core::VectorCons(..) => self.resugar_binary(),
            Core::Either(..) | Core::IndAbsurd(..) | Core::Lambda(..) => self.resugar_binary2(),
            Core::WhichNat(..) | Core::IterNat(..) => self.resugar_ternary(),
            Core::RecNat(..) | Core::RecList(..) => self.resugar_ternary2(),
            Core::IndNat(..) | Core::IndList(..) => self.resugar_quat(),
            Core::IndEither(..) | Core::IndVec(..) => self.resugar_quat2(),
            Core::Pi(..) | Core::PiStar(..) | Core::Sigma(..) => self.resugar_binder(),
            _ => Err(Error::NotSupported),
        }
    }

    fn resugar_leaf(&self) -> (res: Result<(Vec<Symbol>, Core), Error>)
        requires
            self is Universe || self is Nat || self is Zero || self is Atom || self is Quote
                || self is Nil || self is VecNil || self is Trivial || self is Sole || self is Absurd
                || self is Ref || self is ToDo,
        ensures
            view_of(res) == resugar(*self),
        decreases self, 1nat,
    {
        match self {
            Core::Universe | Core::Nat | Core::Zero | Core::Atom | Core::Quote(_) | Core::Nil
            | Core::VecNil | Core::Trivial | Core::Sole | Core::Absurd => Ok((Vec::new(), self.clone())),
            Core::Ref(r) => {
                let mut n: Vec<Symbol> = Vec::new();
                n.push(r.0.clone());
                proof {
                    assert(n@ =~= seq![r.0]);
                }
                Ok((n, self.clone()))
            },
            Core::ToDo(t) => match &t.typ {
                Some(_) => Ok((Vec::new(), self.clone())),
                None => Err(Error::NotSupported),
            },
            _ => Err(Error::NotSupported),
        }
    }

    fn resugar_unary(&self) -> (res: Result<(Vec<Symbol>, Core), Error>)
        requires
            self is The || self is Add1 || self is List || self is App,
        ensures
            view_of(res) == resugar(*self),
        decreases self, 1nat,
    {
        match self {
            Core::The(t) => match join(t.typ.resugar(), t.exp.resugar()) {
                Err(err) => Err(err),
                Ok((n, (a, b))) => Ok((n, Core::The(The { typ: Box::new(a), exp: Box::new(b) }))),
            },
            Core::Add1(a) => match a.resugar() {
                Err(err) => Err(err),
                Ok((n, r)) => Ok((n, Core::Add1(Box::new(r)))),
            },
            Core::List(a) => match a.resugar() {
                Err(err) => Err(err),
                Ok((n, r)) => Ok((n, Core::List(Box::new(r)))),
            },
            Core::App(w) => match join(w.fun.resugar(), w.arg.resugar()) {
                Err(err) => Err(err),
                Ok((n, (a, b))) => Ok((n, Core::App(App { fun: Box::new(a), arg: Box::new(b) }))),
            },
            _ => Err(Error::NotSupported),
        }
    }

    fn resugar_binary(&self) -> (res: Result<(Vec<Symbol>, Core), Error>)
        requires
            self is Cons || self is ListCons || self is Vector || self is VectorCons,
        ensures
            view_of(res) == resugar(*self),
        decreases self, 1nat,
    {
        match self {
            Core::Cons(a, d) => match join(a.resugar(), d.resugar()) {
                Err(err) => Err(err),
                Ok((n, (x, y))) => Ok((n, Core::Cons(Box::new(x), Box::new(y)))),
            },
            Core::ListCons(a, d) => match join(a.resugar(), d.resugar()) {
                Err(err) => Err(err),
                Ok((n, (x, y))) => Ok((n, Core::ListCons(Box::new(x), Box::new(y)))),
            },
            Core::Vector(a, d) => match join(a.resugar(), d.resugar()) {
                Err(err) => Err(err),
                Ok((n, (x, y))) => Ok((n, Core::Vector(Box::new(x), Box::new(y)))),
            },
            Core::VectorCons(a, d) => match join(a.resugar(), d.resugar()) {
                Err(err) => Err(err),
                Ok((n, (x, y))) => Ok((n, Core::VectorCons(Box::new(x), Box::new(y)))),
            },
            _ => Err(Error::NotSupported),
        }
    }

    fn resugar_binary2(&self) -> (res: Result<(Vec<Symbol>, Core), Error>)
        requires
            self is Either || self is IndAbsurd || self is Lambda,
        ensures
            view_of(res) == resugar(*self),
        decreases self, 1nat,
    {
        match self {
            Core::Either(a, d) => match join(a.resugar(), d.resugar()) {
                Err(err) => Err(err),
                Ok((n, (x, y))) => Ok((n, Core::Either(Box::new(x), Box::new(y)))),
            },
            Core::IndAbsurd(w) => match join(w.target.resugar(), w.motive.resugar()) {
                Err(err) => Err(err),
                Ok((n, (x, y))) => Ok(
                    (n, Core::IndAbsurd(IndAbsurd { target: Box::new(x), motive: Box::new(y) })),
                ),
            },
            Core::Lambda(l) => match l.body.resugar() {
                Err(err) => Err(err),
                Ok((n, r)) => Ok((remove_all(n, &l.arg_name), add_lambda_exec(l.arg_name.clone(), r))),
            },
            _ => Err(Error::NotSupported),
        }
    }

    fn resugar_ternary(&self) -> (res: Result<(Vec<Symbol>, Core), Error>)
        requires
            self is WhichNat || self is IterNat,
        ensures
            view_of(res) == resugar(*self),
        decreases self, 1nat,
    {
        match self {
            Core::WhichNat(w) => match join(w.target.resugar(), join(w.base.resugar(), w.step.resugar())) {
                Err(err) => Err(err),
                Ok((n, (t, (b, s)))) => Ok(
                    (n, Core::WhichNat(WhichNat { target: Box::new(t), base: b, step: Box::new(s) })),
                ),
            },
            Core::IterNat(w) => match join(w.target.resugar(), join(w.base.resugar(), w.step.resugar())) {
                Err(err) => Err(err),
                Ok((n, (t, (b, s)))) => Ok(
                    (n, Core::IterNat(IterNat { target: Box::new(t), base: b, step: Box::new(s) })),
                ),
            },
            _ => Err(Error::NotSupported),
        }
    }

    fn resugar_ternary2(&self) -> (res: Result<(Vec<Symbol>, Core), Error>)
        requires
            self is RecNat || self is RecList,
        ensures
            view_of(res) == resugar(*self),
        decreases self, 1nat,
    {
        match self {
            Core::RecNat(w) => match join(w.target.resugar(), join(w.base.resugar(), w.step.resugar())) {
                Err(err) => Err(err),
                Ok((n, (t, (b, s)))) => Ok(
                    (n, Core::RecNat(RecNat { target: Box::new(t), base: b, step: Box::new(s) })),
                ),
            },
            Core::RecList(w) => match join(w.target.resugar(), join(w.base.resugar(), w.step.resugar())) {
                Err(err) => Err(err),
                Ok((n, (t, (b, s)))) => Ok(
                    (n, Core::RecList(RecList { target: Box::new(t), base: b, step: Box::new(s) })),
                ),
            },
            _ => Err(Error::NotSupported),
        }
    }

    fn resugar_quat(&self) -> (res: Result<(Vec<Symbol>, Core), Error>)
        requires
            self is IndNat || self is IndList,
        ensures
            view_of(res) == resugar(*self),
        decreases self, 1nat,
    {
        match self {
            Core::IndNat(w) => match join(
                w.target.resugar(),
                join(w.motive.resugar(), join(w.base.resugar(), w.step.resugar())),
            ) {
                Err(err) => Err(err),
                Ok((n, (t, (m, (b, s))))) => Ok(
                    (
                        n,
                        Core::IndNat(
                            IndNat {
                                target: Box::new(t),
                                motive: Box::new(m),
                                base: Box::new(b),
                                step: Box::new(s),
                            },
                        ),
                    ),
                ),
            },
            Core::IndList(w) => match join(
                w.target.resugar(),
                join(w.motive.resugar(), join(w.base.resugar(), w.step.resugar())),
            ) {
                Err(err) => Err(err),
                Ok((n, (t, (m, (b, s))))) => Ok(
                    (
                        n,
                        Core::IndList(
                            IndList {
                                target: Box::new(t),
                                motive: Box::new(m),
                                base: Box::new(b),
                                step: Box::new(s),
                            },
                        ),
                    ),
                ),
            },
            _ => Err(Error::NotSupported),
        }
    }

    fn resugar_quat2(&self) -> (res: Result<(Vec<Symbol>, Core), Error>)
        requires
            self is IndEither || self is IndVec,
        ensures
            view_of(res) == resugar(*self),
        decreases self, 1nat,
    {
        match self {
            Core::IndEither(w) => match join(
                w.target.resugar(),
                join(w.motive.resugar(), join(w.left.resugar(), w.right.resugar())),
            ) {
                Err(err) => Err(err),
                Ok((n, (t, (m, (l, r))))) => Ok(
                    (
                        n,
                        Core::IndEither(
                            IndEither {
                                target: Box::new(t),
                                motive: Box::new(m),
                                left: Box::new(l),
                                right: Box::new(r),
                            },
                        ),
                    ),
                ),
            },
            Core::IndVec(w) => match join(
                w.len.resugar(),
                join(
                    w.target.resugar(),
                    join(w.motive.resugar(), join(w.base.resugar(), w.step.resugar())),
                ),
            ) {
                Err(err) => Err(err),
                Ok((n, (l, (t, (m, (b, s)))))) => Ok(
                    (
                        n,
                        Core::IndVec(
                            IndVec {
                                len: Box::new(l),
                                target: Box::new(t),
                                motive: Box::new(m),
                                base: Box::new(b),
                                step: Box::new(s),
                            },
                        ),
                    ),
                ),
            },
            _ => Err(Error::NotSupported),
        }
    }

    fn resugar_binder(&self) -> (res: Result<(Vec<Symbol>, Core), Error>)
        requires
            self is Pi || self is PiStar || self is Sigma,
        ensures
            view_of(res) == resugar(*self),
        decreases self, 1nat,
    {
        match self {
            Core::Pi(p) => match non_dependent_exec(&p.arg_name, p.arg_type.resugar(), p.res_type.resugar()) {
                Err(err) => Err(err),
                Ok((n, (a, b))) => Ok((n, add_fun_exec(a, b))),
            },
            Core::PiStar(bs, r) => match bs {
                BinderList::More(x, a, rest) => match &**rest {
                    BinderList::Empty => match non_dependent_exec(x, a.resugar(), r.resugar()) {
                        Err(err) => Err(err),
                        Ok((n, (ra, rb))) => Ok((n, add_fun_exec(ra, rb))),
                    },
                    _ => Err(Error::NotSupported),
                },
                _ => Err(Error::NotSupported),
            },
            Core::Sigma(s) => match non_dependent_exec(&s.arg_name, s.car_type.resugar(), s.cdr_type.resugar()) {
                Err(err) => Err(err),
                Ok((n, (a, d))) => Ok((n, Core::Pair(Box::new(a), Box::new(d)))),
            },

            _ => Err(Error::NotSupported),
        }
    }
}

} // verus!
