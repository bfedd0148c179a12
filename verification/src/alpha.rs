//! α-equivalence of terms.
use vstd::prelude::*;
use crate::model::alpha as al;
use crate::symbol::Symbol;
use crate::syntax::{Bindings, Core, MaybeTyped};

verus! {

impl Clone for Bindings {
    fn clone(&self) -> (res: Self)
        ensures
            res == *self,
        decreases self,
    {
        match self {
            Bindings::Empty => Bindings::Empty,
            Bindings::Bind(x, y, rest) => Bindings::Bind(x.clone(), y.clone(), Box::new((**rest).clone())),
        }
    }
}

impl Bindings {
    /// No binders.
    pub fn new() -> (res: Bindings)
        ensures
            res == Bindings::Empty,
    {
        Bindings::Empty
    }
}

/// `b` with `x` and `y` bound at the next depth.
pub fn bind(b: &Bindings, x: &Symbol, y: &Symbol) -> (res: Bindings)
    ensures
        res == al::bind(*b, *x, *y),
{
    Bindings::Bind(x.clone(), y.clone(), Box::new(b.clone()))
}

/// Whether `x` and `y` are bound at the same depth, or both free and equal.
pub fn vars_match(b: &Bindings, x: &Symbol, y: &Symbol) -> (res: bool)
    ensures
        res == al::vars_match(*b, *x, *y),
    decreases b,
{
    match b {
        Bindings::Empty => x.same(y),
        Bindings::Bind(p, q, rest) => {
            let px = p.same(x);
            let qy = q.same(y);
            if px && qy {
                true
            } else if px || qy {
                false
            } else {
                vars_match(rest, x, y)
            }
        },
    }
}

fn maybe_typed_alpha_equiv(b: &Bindings, m1: &MaybeTyped, m2: &MaybeTyped) -> (res: bool)
    ensures
        res == al::maybe_typed_alpha_equiv(*b, *m1, *m2),
    decreases m1,
{
    match (m1, m2) {
        (MaybeTyped::Plain(a), MaybeTyped::Plain(c)) => alpha_equiv_aux(b, a, c),
        (MaybeTyped::The(t1, a), MaybeTyped::The(t2, c)) => alpha_equiv_aux(b, t1, t2)
            && alpha_equiv_aux(b, a, c),
        _ => false,
    }
}

/// α-equivalence under the binders `b`.
pub fn alpha_equiv_aux(b: &Bindings, e1: &Core, e2: &Core) -> (res: bool)
    ensures
        res == al::alpha_equiv_aux(*b, *e1, *e2),
    decreases e1,
{
    match (e1, e2) {
        (Core::Universe, Core::Universe) => true,
        (Core::Nat, Core::Nat) => true,
        (Core::Zero, Core::Zero) => true,
        (Core::Atom, Core::Atom) => true,
        (Core::Nil, Core::Nil) => true,
        (Core::VecNil, Core::VecNil) => true,
        (Core::Trivial, Core::Trivial) => true,
        (Core::Sole, Core::Sole) => true,
        (Core::Absurd, Core::Absurd) => true,
        (Core::Add1(a), Core::Add1(c)) => alpha_equiv_aux(b, a, c),
        (Core::Car(a), Core::Car(c)) => alpha_equiv_aux(b, a, c),
        (Core::Cdr(a), Core::Cdr(c)) => alpha_equiv_aux(b, a, c),
        (Core::List(a), Core::List(c)) => alpha_equiv_aux(b, a, c),
        (Core::Head(a), Core::Head(c)) => alpha_equiv_aux(b, a, c),
        (Core::Tail(a), Core::Tail(c)) => alpha_equiv_aux(b, a, c),
        (Core::Same(a), Core::Same(c)) => alpha_equiv_aux(b, a, c),
        (Core::Symm(a), Core::Symm(c)) => alpha_equiv_aux(b, a, c),
        (Core::Left(a), Core::Left(c)) => alpha_equiv_aux(b, a, c),
        (Core::Right(a), Core::Right(c)) => alpha_equiv_aux(b, a, c),
        (Core::Pair(a, d), Core::Pair(c, e)) => alpha_equiv_aux(b, a, c) && alpha_equiv_aux(b, d, e),
        (Core::Cons(a, d), Core::Cons(c, e)) => alpha_equiv_aux(b, a, c) && alpha_equiv_aux(b, d, e),
        (Core::ListCons(a, d), Core::ListCons(c, e)) => alpha_equiv_aux(b, a, c) && alpha_equiv_aux(b, d, e),
        (Core::Vector(a, d), Core::Vector(c, e)) => alpha_equiv_aux(b, a, c) && alpha_equiv_aux(b, d, e),
        (Core::VectorCons(a, d), Core::VectorCons(c, e)) => alpha_equiv_aux(b, a, c) && alpha_equiv_aux(b, d, e),
        (Core::Cong(a, d), Core::Cong(c, e)) => alpha_equiv_aux(b, a, c) && alpha_equiv_aux(b, d, e),
        (Core::Either(a, d), Core::Either(c, e)) => alpha_equiv_aux(b, a, c) && alpha_equiv_aux(b, d, e),
        (Core::Cong2(a, d, _), Core::Cong2(c, e, _)) => alpha_equiv_aux(b, a, c) && alpha_equiv_aux(b, d, e),
        (Core::Quote(x), Core::Quote(y)) => x.same(y),
        (Core::Ref(x), Core::Ref(y)) => vars_match(b, &x.0, &y.0),
        (Core::The(t1), Core::The(t2)) => {
            let absurd1 = match &*t1.typ {
                Core::Absurd => true,
                _ => false,
            };
            let absurd2 = match &*t2.typ {
                Core::Absurd => true,
                _ => false,
            };
            if absurd1 && absurd2 {
                true
            } else {
                alpha_equiv_aux(b, &t1.typ, &t2.typ) && alpha_equiv_aux(b, &t1.exp, &t2.exp)
            }
        },
        (Core::WhichNat(w1), Core::WhichNat(w2)) => alpha_equiv_aux(b, &w1.target, &w2.target)
            && maybe_typed_alpha_equiv(b, &w1.base, &w2.base) && alpha_equiv_aux(b, &w1.step, &w2.step),
        (Core::IterNat(w1), Core::IterNat(w2)) => alpha_equiv_aux(b, &w1.target, &w2.target)
            && maybe_typed_alpha_equiv(b, &w1.base, &w2.base) && alpha_equiv_aux(b, &w1.step, &w2.step),
        (Core::RecNat(w1), Core::RecNat(w2)) => alpha_equiv_aux(b, &w1.target, &w2.target)
            && maybe_typed_alpha_equiv(b, &w1.base, &w2.base) && alpha_equiv_aux(b, &w1.step, &w2.step),
        (Core::RecList(w1), Core::RecList(w2)) => alpha_equiv_aux(b, &w1.target, &w2.target)
            && maybe_typed_alpha_equiv(b, &w1.base, &w2.base) && alpha_equiv_aux(b, &w1.step, &w2.step),
        (Core::IndNat(w1), Core::IndNat(w2)) => alpha_equiv_aux(b, &w1.target, &w2.target) && alpha_equiv_aux(b, &w1.motive, &w2.motive) && alpha_equiv_aux(b, &w1.base, &w2.base) && alpha_equiv_aux(b, &w1.step, &w2.step),
        (Core::IndList(w1), Core::IndList(w2)) => alpha_equiv_aux(b, &w1.target, &w2.target) && alpha_equiv_aux(b, &w1.motive, &w2.motive) && alpha_equiv_aux(b, &w1.base, &w2.base) && alpha_equiv_aux(b, &w1.step, &w2.step),
        (Core::IndVec(w1), Core::IndVec(w2)) => alpha_equiv_aux(b, &w1.len, &w2.len) && alpha_equiv_aux(b, &w1.target, &w2.target) && alpha_equiv_aux(b, &w1.motive, &w2.motive) && alpha_equiv_aux(b, &w1.base, &w2.base) && alpha_equiv_aux(b, &w1.step, &w2.step),
        (Core::IndEither(w1), Core::IndEither(w2)) => alpha_equiv_aux(b, &w1.target, &w2.target) && alpha_equiv_aux(b, &w1.motive, &w2.motive) && alpha_equiv_aux(b, &w1.left, &w2.left) && alpha_equiv_aux(b, &w1.right, &w2.right),
        (Core::IndAbsurd(w1), Core::IndAbsurd(w2)) => alpha_equiv_aux(b, &w1.target, &w2.target) && alpha_equiv_aux(b, &w1.motive, &w2.motive),
        (Core::Replace(w1), Core::Replace(w2)) => alpha_equiv_aux(b, &w1.target, &w2.target) && alpha_equiv_aux(b, &w1.motive, &w2.motive) && alpha_equiv_aux(b, &w1.base, &w2.base),
        (Core::Equal(w1), Core::Equal(w2)) => alpha_equiv_aux(b, &w1.typ, &w2.typ) && alpha_equiv_aux(b, &w1.from, &w2.from) && alpha_equiv_aux(b, &w1.to, &w2.to),
        (Core::App(w1), Core::App(w2)) => alpha_equiv_aux(b, &w1.fun, &w2.fun) && alpha_equiv_aux(b, &w1.arg, &w2.arg),
        (Core::Pi(p1), Core::Pi(p2)) => alpha_equiv_aux(b, &p1.arg_type, &p2.arg_type)
            && alpha_equiv_aux(&bind(b, &p1.arg_name, &p2.arg_name), &p1.res_type, &p2.res_type),
        (Core::Sigma(p1), Core::Sigma(p2)) => alpha_equiv_aux(b, &p1.car_type, &p2.car_type)
            && alpha_equiv_aux(&bind(b, &p1.arg_name, &p2.arg_name), &p1.cdr_type, &p2.cdr_type),
        (Core::Lambda(l1), Core::Lambda(l2)) => alpha_equiv_aux(
            &bind(b, &l1.arg_name, &l2.arg_name),
            &l1.body,
            &l2.body,
        ),
        (Core::ToDo(t1), Core::ToDo(t2)) => t1.name.same(&t2.name) && match (&t1.typ, &t2.typ) {
            (None, None) => true,
            (Some(a), Some(c)) => alpha_equiv_aux(b, a, c),
            _ => false,
        },
        _ => false,
    }
}

/// Whether two terms are the same up to the names of bound variables.
pub fn alpha_equiv(e1: &Core, e2: &Core) -> (res: bool)
    ensures
        res == al::alpha_equiv(*e1, *e2),
{
    alpha_equiv_aux(&Bindings::Empty, e1, e2)
}

} // verus!
