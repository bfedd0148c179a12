//! α-equivalence is reflexive on terms without sugar, and symmetric.
use vstd::prelude::*;
use crate::model::alpha::{alpha_equiv, alpha_equiv_aux, maybe_typed_alpha_equiv, vars_match};
use crate::symbol::Symbol;
use crate::syntax::{Bindings, Core, MaybeTyped};

verus! {

/// Whether a base is free of sugar.
pub open spec fn maybe_typed_sugar_free(m: MaybeTyped) -> bool
    decreases m,
{
    match m {
        MaybeTyped::Plain(a) => sugar_free(*a),
        MaybeTyped::The(t, a) => sugar_free(*t) && sugar_free(*a),
    }
}

/// Whether `e` is written without the sugared forms (`->`, `Π*`, `λ*`,
/// `Σ*`, n-ary application) and without invalid syntax, which
/// α-equivalence never relates to anything.
pub open spec fn sugar_free(e: Core) -> bool
    decreases e,
{
    match e {
        Core::Invalid(_) | Core::Fun(_) | Core::PiStar(_, _) | Core::LambdaStar(_, _)
        | Core::AppStar(_, _) | Core::SigmaStar(_, _) => false,
        Core::Universe | Core::Nat | Core::Zero | Core::Atom | Core::Nil | Core::VecNil
        | Core::Trivial | Core::Sole | Core::Absurd | Core::Quote(_) | Core::Ref(_) => true,
        Core::Add1(a) | Core::Car(a) | Core::Cdr(a) | Core::List(a) | Core::Head(a) | Core::Tail(a)
        | Core::Same(a) | Core::Symm(a) | Core::Left(a) | Core::Right(a) => sugar_free(*a),
        Core::Pair(a, d) | Core::Cons(a, d) | Core::ListCons(a, d) | Core::Vector(a, d)
        | Core::VectorCons(a, d) | Core::Cong(a, d) | Core::Either(a, d) => sugar_free(*a)
            && sugar_free(*d),
        Core::Cong2(a, d, _) => sugar_free(*a) && sugar_free(*d),
        Core::The(t) => sugar_free(*t.typ) && sugar_free(*t.exp),
        Core::WhichNat(w) => sugar_free(*w.target) && maybe_typed_sugar_free(w.base) && sugar_free(
            *w.step,
        ),
        Core::IterNat(w) => sugar_free(*w.target) && maybe_typed_sugar_free(w.base) && sugar_free(
            *w.step,
        ),
        Core::RecNat(w) => sugar_free(*w.target) && maybe_typed_sugar_free(w.base) && sugar_free(
            *w.step,
        ),
        Core::RecList(w) => sugar_free(*w.target) && maybe_typed_sugar_free(w.base) && sugar_free(
            *w.step,
        ),
        Core::IndNat(w) => sugar_free(*w.target) && sugar_free(*w.motive) && sugar_free(*w.base)
            && sugar_free(*w.step),
        Core::IndList(w) => sugar_free(*w.target) && sugar_free(*w.motive) && sugar_free(*w.base)
            && sugar_free(*w.step),
        Core::IndVec(w) => sugar_free(*w.len) && sugar_free(*w.target) && sugar_free(*w.motive)
            && sugar_free(*w.base) && sugar_free(*w.step),
        Core::IndEither(w) => sugar_free(*w.target) && sugar_free(*w.motive) && sugar_free(*w.left)
            && sugar_free(*w.right),
        Core::IndAbsurd(w) => sugar_free(*w.target) && sugar_free(*w.motive),
        Core::Replace(w) => sugar_free(*w.target) && sugar_free(*w.motive) && sugar_free(*w.base),
        Core::Equal(w) => sugar_free(*w.typ) && sugar_free(*w.from) && sugar_free(*w.to),
        Core::App(w) => sugar_free(*w.fun) && sugar_free(*w.arg),
        Core::Pi(p) => sugar_free(*p.arg_type) && sugar_free(*p.res_type),
        Core::Sigma(p) => sugar_free(*p.car_type) && sugar_free(*p.cdr_type),
        Core::Lambda(l) => sugar_free(*l.body),
        Core::ToDo(t) => match t.typ {
            None => true,
            Some(a) => sugar_free(*a),
        },
    }
}

/// Bindings that pair each variable with itself.
pub open spec fn diagonal(b: Bindings) -> bool
    decreases b,
{
    match b {
        Bindings::Empty => true,
        Bindings::Bind(p, q, rest) => p == q && diagonal(*rest),
    }
}

/// The bindings with their two sides exchanged.
pub open spec fn flip(b: Bindings) -> Bindings
    decreases b,
{
    match b {
        Bindings::Empty => Bindings::Empty,
        Bindings::Bind(p, q, rest) => Bindings::Bind(q, p, Box::new(flip(*rest))),
    }
}

proof fn vars_match_diagonal(b: Bindings, x: Symbol)
    requires
        diagonal(b),
    ensures
        vars_match(b, x, x),
    decreases b,
{
    if let Bindings::Bind(_, _, rest) = b {
        vars_match_diagonal(*rest, x);
    }
}

proof fn maybe_typed_reflexive(b: Bindings, m: MaybeTyped)
    requires
        diagonal(b),
        maybe_typed_sugar_free(m),
    ensures
        maybe_typed_alpha_equiv(b, m, m),
    decreases m,
{
    match m {
        MaybeTyped::Plain(a) => reflexive_under(b, *a),
        MaybeTyped::The(t, a) => {
            reflexive_under(b, *t);
            reflexive_under(b, *a);
        },
    }
}

proof fn reflexive_under(b: Bindings, e: Core)
    requires
        diagonal(b),
        sugar_free(e),
    ensures
        alpha_equiv_aux(b, e, e),
    decreases e,
{
    match e {
        Core::Add1(a) | Core::Car(a) | Core::Cdr(a) | Core::List(a) | Core::Head(a) | Core::Tail(a)
        | Core::Same(a) | Core::Symm(a) | Core::Left(a) | Core::Right(a) => reflexive_under(b, *a),
        Core::Pair(a, d) | Core::Cons(a, d) | Core::ListCons(a, d) | Core::Vector(a, d)
        | Core::VectorCons(a, d) | Core::Cong(a, d) | Core::Either(a, d) | Core::Cong2(a, d, _) => {
            reflexive_under(b, *a);
            reflexive_under(b, *d);
        },
        Core::Ref(x) => vars_match_diagonal(b, x.0),
        Core::The(t) => {
            reflexive_under(b, *t.typ);
            reflexive_under(b, *t.exp);
        },
        Core::WhichNat(w) => {
            reflexive_under(b, *w.target);
            maybe_typed_reflexive(b, w.base);
            reflexive_under(b, *w.step);
        },
        Core::IterNat(w) => {
            reflexive_under(b, *w.target);
            maybe_typed_reflexive(b, w.base);
            reflexive_under(b, *w.step);
        },
        Core::RecNat(w) => {
            reflexive_under(b, *w.target);
            maybe_typed_reflexive(b, w.base);
            reflexive_under(b, *w.step);
        },
        Core::RecList(w) => {
            reflexive_under(b, *w.target);
            maybe_typed_reflexive(b, w.base);
            reflexive_under(b, *w.step);
        },
        Core::IndNat(w) => {
            reflexive_under(b, *w.target);
            reflexive_under(b, *w.motive);
            reflexive_under(b, *w.base);
            reflexive_under(b, *w.step);
        },
        Core::IndList(w) => {
            reflexive_under(b, *w.target);
            reflexive_under(b, *w.motive);
            reflexive_under(b, *w.base);
            reflexive_under(b, *w.step);
        },
        Core::IndVec(w) => {
            reflexive_under(b, *w.len);
            reflexive_under(b, *w.target);
            reflexive_under(b, *w.motive);
            reflexive_under(b, *w.base);
            reflexive_under(b, *w.step);
        },
        Core::IndEither(w) => {
            reflexive_under(b, *w.target);
            reflexive_under(b, *w.motive);
            reflexive_under(b, *w.left);
            reflexive_under(b, *w.right);
        },
        Core::IndAbsurd(w) => {
            reflexive_under(b, *w.target);
            reflexive_under(b, *w.motive);
        },
        Core::Replace(w) => {
            reflexive_under(b, *w.target);
            reflexive_under(b, *w.motive);
            reflexive_under(b, *w.base);
        },
        Core::Equal(w) => {
            reflexive_under(b, *w.typ);
            reflexive_under(b, *w.from);
            reflexive_under(b, *w.to);
        },
        Core::App(w) => {
            reflexive_under(b, *w.fun);
            reflexive_under(b, *w.arg);
        },
        Core::Pi(p) => {
            reflexive_under(b, *p.arg_type);
            reflexive_under(Bindings::Bind(p.arg_name, p.arg_name, Box::new(b)), *p.res_type);
        },
        Core::Sigma(p) => {
            reflexive_under(b, *p.car_type);
            reflexive_under(Bindings::Bind(p.arg_name, p.arg_name, Box::new(b)), *p.cdr_type);
        },
        Core::Lambda(l) => {
            reflexive_under(Bindings::Bind(l.arg_name, l.arg_name, Box::new(b)), *l.body);
        },
        Core::ToDo(t) => {
            if let Some(a) = t.typ {
                reflexive_under(b, *a);
            }
        },
        _ => {},
    }
}

/// Every term written without sugar or invalid syntax is α-equivalent to
/// itself.
pub proof fn alpha_equiv_reflexive(e: Core)
    requires
        sugar_free(e),
    ensures
        alpha_equiv(e, e),
{
    reflexive_under(Bindings::Empty, e);
}

/// The constructor of a term, as a number.
pub open spec fn shape(e: Core) -> int {
    match e {
        Core::Invalid(_) => 0,
        Core::The(_) => 1,
        Core::Universe => 2,
        Core::Nat => 3,
        Core::Zero => 4,
        Core::Add1(_) => 5,
        Core::WhichNat(_) => 6,
        Core::IterNat(_) => 7,
        Core::RecNat(_) => 8,
        Core::IndNat(_) => 9,
        Core::Atom => 10,
        Core::Quote(_) => 11,
        Core::Fun(_) => 12,
        Core::Pi(_) => 13,
        Core::PiStar(_, _) => 14,
        Core::Lambda(_) => 15,
        Core::LambdaStar(_, _) => 16,
        Core::App(_) => 17,
        Core::AppStar(_, _) => 18,
        Core::Ref(_) => 19,
        Core::Sigma(_) => 20,
        Core::SigmaStar(_, _) => 21,
        Core::Pair(_, _) => 22,
        Core::Cons(_, _) => 23,
        Core::Car(_) => 24,
        Core::Cdr(_) => 25,
        Core::List(_) => 26,
        Core::Nil => 27,
        Core::ListCons(_, _) => 28,
        Core::RecList(_) => 29,
        Core::IndList(_) => 30,
        Core::Vector(_, _) => 31,
        Core::VecNil => 32,
        Core::VectorCons(_, _) => 33,
        Core::Head(_) => 34,
        Core::Tail(_) => 35,
        Core::IndVec(_) => 36,
        Core::ToDo(_) => 37,
        Core::Equal(_) => 38,
        Core::Same(_) => 39,
        Core::Replace(_) => 40,
        Core::Cong(_, _) => 41,
        Core::Cong2(_, _, _) => 42,
        Core::Symm(_) => 43,
        Core::Either(_, _) => 44,
        Core::Left(_) => 45,
        Core::Right(_) => 46,
        Core::IndEither(_) => 47,
        Core::Trivial => 48,
        Core::Sole => 49,
        Core::Absurd => 50,
        Core::IndAbsurd(_) => 51,
    }
}

proof fn equivalent_terms_share_shape(b: Bindings, e1: Core, e2: Core)
    ensures
        alpha_equiv_aux(b, e1, e2) ==> shape(e1) == shape(e2),
{
}

proof fn vars_match_flip(b: Bindings, x: Symbol, y: Symbol)
    ensures
        vars_match(b, x, y) == vars_match(flip(b), y, x),
    decreases b,
{
    if let Bindings::Bind(_, _, rest) = b {
        vars_match_flip(*rest, x, y);
    }
}

proof fn maybe_typed_symmetric(b: Bindings, m1: MaybeTyped, m2: MaybeTyped)
    ensures
        maybe_typed_alpha_equiv(b, m1, m2) == maybe_typed_alpha_equiv(flip(b), m2, m1),
    decreases m1, 0nat,
{
    match (m1, m2) {
        (MaybeTyped::Plain(a), MaybeTyped::Plain(c)) => symmetric_under(b, *a, *c),
        (MaybeTyped::The(t1, a), MaybeTyped::The(t2, c)) => {
            symmetric_under(b, *t1, *t2);
            symmetric_under(b, *a, *c);
        },
        _ => {},
    }
}

proof fn symmetric_unary(b: Bindings, e1: Core, e2: Core)
    requires
        e1 is Add1 || e1 is Car || e1 is Cdr || e1 is List || e1 is Head || e1 is Tail
            || e1 is Same || e1 is Symm || e1 is Left || e1 is Right,
        shape(e1) == shape(e2),
    ensures
        alpha_equiv_aux(b, e1, e2) == alpha_equiv_aux(flip(b), e2, e1),
    decreases e1, 0nat,
{
    match (e1, e2) {
        (Core::Add1(a), Core::Add1(c)) | (Core::Car(a), Core::Car(c)) | (Core::Cdr(a), Core::Cdr(c))
        | (Core::List(a), Core::List(c)) | (Core::Head(a), Core::Head(c))
        | (Core::Tail(a), Core::Tail(c)) | (Core::Same(a), Core::Same(c))
        | (Core::Symm(a), Core::Symm(c)) | (Core::Left(a), Core::Left(c))
        | (Core::Right(a), Core::Right(c)) => symmetric_under(b, *a, *c),
        _ => {},
    }
}

proof fn symmetric_binary(b: Bindings, e1: Core, e2: Core)
    requires
        e1 is Pair || e1 is Cons || e1 is ListCons || e1 is Vector || e1 is VectorCons
            || e1 is Cong || e1 is Either || e1 is Cong2,
        shape(e1) == shape(e2),
    ensures
        alpha_equiv_aux(b, e1, e2) == alpha_equiv_aux(flip(b), e2, e1),
    decreases e1, 0nat,
{
    match (e1, e2) {
        (Core::Pair(a, d), Core::Pair(c, g)) | (Core::Cons(a, d), Core::Cons(c, g))
        | (Core::ListCons(a, d), Core::ListCons(c, g)) | (Core::Vector(a, d), Core::Vector(c, g))
        | (Core::VectorCons(a, d), Core::VectorCons(c, g)) | (Core::Cong(a, d), Core::Cong(c, g))
        | (Core::Either(a, d), Core::Either(c, g)) | (Core::Cong2(a, d, _), Core::Cong2(c, g, _)) => {
            symmetric_under(b, *a, *c);
            symmetric_under(b, *d, *g);
        },
        _ => {},
    }
}

proof fn symmetric_eliminators(b: Bindings, e1: Core, e2: Core)
    requires
        e1 is WhichNat || e1 is IterNat || e1 is RecNat || e1 is RecList,
        shape(e1) == shape(e2),
    ensures
        alpha_equiv_aux(b, e1, e2) == alpha_equiv_aux(flip(b), e2, e1),
    decreases e1, 0nat,
{
    match (e1, e2) {
        (Core::WhichNat(w1), Core::WhichNat(w2)) => {
            symmetric_under(b, *w1.target, *w2.target);
            maybe_typed_symmetric(b, w1.base, w2.base);
            symmetric_under(b, *w1.step, *w2.step);
        },
        (Core::IterNat(w1), Core::IterNat(w2)) => {
            symmetric_under(b, *w1.target, *w2.target);
            maybe_typed_symmetric(b, w1.base, w2.base);
            symmetric_under(b, *w1.step, *w2.step);
        },
        (Core::RecNat(w1), Core::RecNat(w2)) => {
            symmetric_under(b, *w1.target, *w2.target);
            maybe_typed_symmetric(b, w1.base, w2.base);
            symmetric_under(b, *w1.step, *w2.step);
        },
        (Core::RecList(w1), Core::RecList(w2)) => {
            symmetric_under(b, *w1.target, *w2.target);
            maybe_typed_symmetric(b, w1.base, w2.base);
            symmetric_under(b, *w1.step, *w2.step);
        },
        _ => {},
    }
}

proof fn symmetric_inductions(b: Bindings, e1: Core, e2: Core)
    requires
        e1 is IndNat || e1 is IndList || e1 is IndVec || e1 is IndEither || e1 is IndAbsurd
            || e1 is Replace || e1 is Equal || e1 is App,
        shape(e1) == shape(e2),
    ensures
        alpha_equiv_aux(b, e1, e2) == alpha_equiv_aux(flip(b), e2, e1),
    decreases e1, 0nat,
{
    match (e1, e2) {
        (Core::IndNat(w1), Core::IndNat(w2)) => {
            symmetric_under(b, *w1.target, *w2.target);
            symmetric_under(b, *w1.motive, *w2.motive);
            symmetric_under(b, *w1.base, *w2.base);
            symmetric_under(b, *w1.step, *w2.step);
        },
        (Core::IndList(w1), Core::IndList(w2)) => {
            symmetric_under(b, *w1.target, *w2.target);
            symmetric_under(b, *w1.motive, *w2.motive);
            symmetric_under(b, *w1.base, *w2.base);
            symmetric_under(b, *w1.step, *w2.step);
        },
        (Core::IndVec(w1), Core::IndVec(w2)) => {
            symmetric_under(b, *w1.len, *w2.len);
            symmetric_under(b, *w1.target, *w2.target);
            symmetric_under(b, *w1.motive, *w2.motive);
            symmetric_under(b, *w1.base, *w2.base);
            symmetric_under(b, *w1.step, *w2.step);
        },
        (Core::IndEither(w1), Core::IndEither(w2)) => {
            symmetric_under(b, *w1.target, *w2.target);
            symmetric_under(b, *w1.motive, *w2.motive);
            symmetric_under(b, *w1.left, *w2.left);
            symmetric_under(b, *w1.right, *w2.right);
        },
        (Core::IndAbsurd(w1), Core::IndAbsurd(w2)) => {
            symmetric_under(b, *w1.target, *w2.target);
            symmetric_under(b, *w1.motive, *w2.motive);
        },
        (Core::Replace(w1), Core::Replace(w2)) => {
            symmetric_under(b, *w1.target, *w2.target);
            symmetric_under(b, *w1.motive, *w2.motive);
            symmetric_under(b, *w1.base, *w2.base);
        },
        (Core::Equal(w1), Core::Equal(w2)) => {
            symmetric_under(b, *w1.typ, *w2.typ);
            symmetric_under(b, *w1.from, *w2.from);
            symmetric_under(b, *w1.to, *w2.to);
        },
        (Core::App(w1), Core::App(w2)) => {
            symmetric_under(b, *w1.fun, *w2.fun);
            symmetric_under(b, *w1.arg, *w2.arg);
        },
        _ => {},
    }
}

proof fn symmetric_binders(b: Bindings, e1: Core, e2: Core)
    requires
        e1 is Pi || e1 is Sigma || e1 is Lambda,
        shape(e1) == shape(e2),
    ensures
        alpha_equiv_aux(b, e1, e2) == alpha_equiv_aux(flip(b), e2, e1),
    decreases e1, 0nat,
{
    match (e1, e2) {
        (Core::Pi(p1), Core::Pi(p2)) => {
            symmetric_under(b, *p1.arg_type, *p2.arg_type);
            symmetric_under(
                Bindings::Bind(p1.arg_name, p2.arg_name, Box::new(b)),
                *p1.res_type,
                *p2.res_type,
            );
        },
        (Core::Sigma(p1), Core::Sigma(p2)) => {
            symmetric_under(b, *p1.car_type, *p2.car_type);
            symmetric_under(
                Bindings::Bind(p1.arg_name, p2.arg_name, Box::new(b)),
                *p1.cdr_type,
                *p2.cdr_type,
            );
        },
        (Core::Lambda(l1), Core::Lambda(l2)) => {
            symmetric_under(Bindings::Bind(l1.arg_name, l2.arg_name, Box::new(b)), *l1.body, *l2.body);
        },
        _ => {},
    }
}

proof fn symmetric_others(b: Bindings, e1: Core, e2: Core)
    requires
        e1 is Ref || e1 is The || e1 is ToDo,
        shape(e1) == shape(e2),
    ensures
        alpha_equiv_aux(b, e1, e2) == alpha_equiv_aux(flip(b), e2, e1),
    decreases e1, 0nat,
{
    match (e1, e2) {
        (Core::Ref(x), Core::Ref(y)) => vars_match_flip(b, x.0, y.0),
        (Core::The(t1), Core::The(t2)) => {
            symmetric_under(b, *t1.typ, *t2.typ);
            symmetric_under(b, *t1.exp, *t2.exp);
        },
        (Core::ToDo(t1), Core::ToDo(t2)) => {
            if let (Some(a), Some(c)) = (t1.typ, t2.typ) {
                symmetric_under(b, *a, *c);
            }
        },
        _ => {},
    }
}

proof fn symmetric_leaves(b: Bindings, e1: Core, e2: Core)
    requires
        e1 is Invalid || e1 is Universe || e1 is Nat || e1 is Zero || e1 is Atom || e1 is Quote
            || e1 is Fun || e1 is PiStar || e1 is LambdaStar || e1 is AppStar || e1 is SigmaStar
            || e1 is Nil || e1 is VecNil || e1 is Trivial || e1 is Sole || e1 is Absurd,
        shape(e1) == shape(e2),
    ensures
        alpha_equiv_aux(b, e1, e2) == alpha_equiv_aux(flip(b), e2, e1),
{
}

proof fn symmetric_under(b: Bindings, e1: Core, e2: Core)
    ensures
        alpha_equiv_aux(b, e1, e2) == alpha_equiv_aux(flip(b), e2, e1),
    decreases e1, 1nat,
{
    equivalent_terms_share_shape(b, e1, e2);
    equivalent_terms_share_shape(flip(b), e2, e1);
    if shape(e1) == shape(e2) {
        if e1 is Add1 || e1 is Car || e1 is Cdr || e1 is List || e1 is Head || e1 is Tail
            || e1 is Same || e1 is Symm || e1 is Left || e1 is Right {
            symmetric_unary(b, e1, e2);
        } else if e1 is Pair || e1 is Cons || e1 is ListCons || e1 is Vector || e1 is VectorCons
            || e1 is Cong || e1 is Either || e1 is Cong2 {
            symmetric_binary(b, e1, e2);
        } else if e1 is WhichNat || e1 is IterNat || e1 is RecNat || e1 is RecList {
            symmetric_eliminators(b, e1, e2);
        } else if e1 is IndNat || e1 is IndList || e1 is IndVec || e1 is IndEither
            || e1 is IndAbsurd || e1 is Replace || e1 is Equal || e1 is App {
            symmetric_inductions(b, e1, e2);
        } else if e1 is Pi || e1 is Sigma || e1 is Lambda {
            symmetric_binders(b, e1, e2);
        } else if e1 is Ref || e1 is The || e1 is ToDo {
            symmetric_others(b, e1, e2);
        } else {
            symmetric_leaves(b, e1, e2);
        }
    }
}

/// α-equivalence is symmetric.
pub proof fn alpha_equiv_symmetric(e1: Core, e2: Core)
    ensures
        alpha_equiv(e1, e2) == alpha_equiv(e2, e1),
{
    symmetric_under(Bindings::Empty, e1, e2);
}


/// Two quoted atoms are α-equivalent exactly when they are the same atom.
pub proof fn quoted_atoms_equivalent_iff_equal(s1: Symbol, s2: Symbol)
    ensures
        alpha_equiv(Core::Quote(s1), Core::Quote(s2)) == (s1 == s2),
{
}


/// Whether a term is built without binders (`Π`, `Σ`, `λ`), annotations
/// and `cong` with its recorded type: the terms on which α-equivalence can
/// only be equality.
pub open spec fn first_order(e: Core) -> bool
    decreases e,
{
    match e {
        Core::Pi(_) | Core::Sigma(_) | Core::Lambda(_) | Core::The(_) | Core::Cong2(_, _, _) => false,
        Core::ToDo(t) => match t.typ {
            Some(ty) => first_order(*ty),
            None => true,
        },
        Core::Add1(a) => first_order(*a),
        Core::Car(a) => first_order(*a),
        Core::Cdr(a) => first_order(*a),
        Core::List(a) => first_order(*a),
        Core::Head(a) => first_order(*a),
        Core::Tail(a) => first_order(*a),
        Core::Same(a) => first_order(*a),
        Core::Symm(a) => first_order(*a),
        Core::Left(a) => first_order(*a),
        Core::Right(a) => first_order(*a),
        Core::Pair(a, d) => first_order(*a) && first_order(*d),
        Core::Cons(a, d) => first_order(*a) && first_order(*d),
        Core::ListCons(a, d) => first_order(*a) && first_order(*d),
        Core::Vector(a, d) => first_order(*a) && first_order(*d),
        Core::VectorCons(a, d) => first_order(*a) && first_order(*d),
        Core::Cong(a, d) => first_order(*a) && first_order(*d),
        Core::Either(a, d) => first_order(*a) && first_order(*d),
        Core::WhichNat(w1) => first_order(*w1.target) && first_order(*w1.step) && base_first_order(w1.base),
        Core::IterNat(w1) => first_order(*w1.target) && first_order(*w1.step) && base_first_order(w1.base),
        Core::RecNat(w1) => first_order(*w1.target) && first_order(*w1.step) && base_first_order(w1.base),
        Core::RecList(w1) => first_order(*w1.target) && first_order(*w1.step) && base_first_order(w1.base),
        Core::IndNat(w1) => first_order(*w1.target) && first_order(*w1.motive) && first_order(*w1.base) && first_order(*w1.step),
        Core::IndList(w1) => first_order(*w1.target) && first_order(*w1.motive) && first_order(*w1.base) && first_order(*w1.step),
        Core::IndVec(w1) => first_order(*w1.len) && first_order(*w1.target) && first_order(*w1.motive) && first_order(*w1.base) && first_order(*w1.step),
        Core::IndEither(w1) => first_order(*w1.target) && first_order(*w1.motive) && first_order(*w1.left) && first_order(*w1.right),
        Core::IndAbsurd(w1) => first_order(*w1.target) && first_order(*w1.motive),
        Core::Replace(w1) => first_order(*w1.target) && first_order(*w1.motive) && first_order(*w1.base),
        Core::Equal(w1) => first_order(*w1.typ) && first_order(*w1.from) && first_order(*w1.to),
        Core::App(w1) => first_order(*w1.fun) && first_order(*w1.arg),
        _ => true,
    }
}

/// Whether a base is built without binders, annotations and `cong2`.
pub open spec fn base_first_order(m: MaybeTyped) -> bool
    decreases m,
{
    match m {
        MaybeTyped::Plain(e) => first_order(*e),
        MaybeTyped::The(t, e) => first_order(*t) && first_order(*e),
    }
}

proof fn base_equal_when_equivalent(m1: MaybeTyped, m2: MaybeTyped)
    ensures
        maybe_typed_alpha_equiv(Bindings::Empty, m1, m2) && base_first_order(m1) ==> m1 == m2,
    decreases m1,
{
    match (m1, m2) {
        (MaybeTyped::Plain(a), MaybeTyped::Plain(c)) => equal_when_equivalent(*a, *c),
        (MaybeTyped::The(t1, a), MaybeTyped::The(t2, c)) => {
            equal_when_equivalent(*t1, *t2);
            equal_when_equivalent(*a, *c);
        },
        _ => {},
    }
}

/// Two terms built without binders, annotations and `cong2` are
/// α-equivalent only when they are equal: with no bound variable to rename,
/// α-equivalence compares every atom, variable and hole name, and every
/// part in its place.
pub proof fn equal_when_equivalent(e1: Core, e2: Core)
    ensures
        alpha_equiv(e1, e2) && first_order(e1) ==> e1 == e2,
    decreases e1, 1nat,
{
    if e1 is Add1 || e1 is Car || e1 is Cdr || e1 is List || e1 is Head || e1 is Tail {
        equal_when_equivalent_part0(e1, e2);
    } else if e1 is Same || e1 is Symm || e1 is Left || e1 is Right || e1 is Pair || e1 is Cons {
        equal_when_equivalent_part1(e1, e2);
    } else if e1 is ListCons || e1 is Vector || e1 is VectorCons || e1 is Cong || e1 is Either || e1 is WhichNat {
        equal_when_equivalent_part2(e1, e2);
    } else if e1 is IterNat || e1 is RecNat || e1 is RecList || e1 is IndNat || e1 is IndList || e1 is IndVec {
        equal_when_equivalent_part3(e1, e2);
    } else if e1 is IndEither || e1 is IndAbsurd || e1 is Replace || e1 is Equal || e1 is App {
        equal_when_equivalent_part4(e1, e2);
    } else if e1 is ToDo && e2 is ToDo {
        let t1 = e1->ToDo_0;
        let t2 = e2->ToDo_0;
        if t1.typ is Some && t2.typ is Some {
            equal_when_equivalent(*t1.typ.unwrap(), *t2.typ.unwrap());
        }
    }
}

proof fn equal_when_equivalent_part0(e1: Core, e2: Core)
    requires
        e1 is Add1 || e1 is Car || e1 is Cdr || e1 is List || e1 is Head || e1 is Tail,
    ensures
        alpha_equiv(e1, e2) && first_order(e1) ==> e1 == e2,
    decreases e1, 0nat,
{
    match (e1, e2) {
        (Core::Add1(a), Core::Add1(c)) => {
            equal_when_equivalent(*a, *c);
        },
        (Core::Car(a), Core::Car(c)) => {
            equal_when_equivalent(*a, *c);
        },
        (Core::Cdr(a), Core::Cdr(c)) => {
            equal_when_equivalent(*a, *c);
        },
        (Core::List(a), Core::List(c)) => {
            equal_when_equivalent(*a, *c);
        },
        (Core::Head(a), Core::Head(c)) => {
            equal_when_equivalent(*a, *c);
        },
        (Core::Tail(a), Core::Tail(c)) => {
            equal_when_equivalent(*a, *c);
        },
        _ => {},
    }
}

proof fn equal_when_equivalent_part1(e1: Core, e2: Core)
    requires
        e1 is Same || e1 is Symm || e1 is Left || e1 is Right || e1 is Pair || e1 is Cons,
    ensures
        alpha_equiv(e1, e2) && first_order(e1) ==> e1 == e2,
    decreases e1, 0nat,
{
    match (e1, e2) {
        (Core::Same(a), Core::Same(c)) => {
            equal_when_equivalent(*a, *c);
        },
        (Core::Symm(a), Core::Symm(c)) => {
            equal_when_equivalent(*a, *c);
        },
        (Core::Left(a), Core::Left(c)) => {
            equal_when_equivalent(*a, *c);
        },
        (Core::Right(a), Core::Right(c)) => {
            equal_when_equivalent(*a, *c);
        },
        (Core::Pair(a, d), Core::Pair(c, e)) => {
            equal_when_equivalent(*a, *c);
            equal_when_equivalent(*d, *e);
        },
        (Core::Cons(a, d), Core::Cons(c, e)) => {
            equal_when_equivalent(*a, *c);
            equal_when_equivalent(*d, *e);
        },
        _ => {},
    }
}

proof fn equal_when_equivalent_part2(e1: Core, e2: Core)
    requires
        e1 is ListCons || e1 is Vector || e1 is VectorCons || e1 is Cong || e1 is Either || e1 is WhichNat,
    ensures
        alpha_equiv(e1, e2) && first_order(e1) ==> e1 == e2,
    decreases e1, 0nat,
{
    match (e1, e2) {
        (Core::ListCons(a, d), Core::ListCons(c, e)) => {
            equal_when_equivalent(*a, *c);
            equal_when_equivalent(*d, *e);
        },
        (Core::Vector(a, d), Core::Vector(c, e)) => {
            equal_when_equivalent(*a, *c);
            equal_when_equivalent(*d, *e);
        },
        (Core::VectorCons(a, d), Core::VectorCons(c, e)) => {
            equal_when_equivalent(*a, *c);
            equal_when_equivalent(*d, *e);
        },
        (Core::Cong(a, d), Core::Cong(c, e)) => {
            equal_when_equivalent(*a, *c);
            equal_when_equivalent(*d, *e);
        },
        (Core::Either(a, d), Core::Either(c, e)) => {
            equal_when_equivalent(*a, *c);
            equal_when_equivalent(*d, *e);
        },
        (Core::WhichNat(w1), Core::WhichNat(w2)) => {
            equal_when_equivalent(*w1.target, *w2.target);
            equal_when_equivalent(*w1.step, *w2.step);
            base_equal_when_equivalent(w1.base, w2.base);
        },
        _ => {},
    }
}

proof fn equal_when_equivalent_part3(e1: Core, e2: Core)
    requires
        e1 is IterNat || e1 is RecNat || e1 is RecList || e1 is IndNat || e1 is IndList || e1 is IndVec,
    ensures
        alpha_equiv(e1, e2) && first_order(e1) ==> e1 == e2,
    decreases e1, 0nat,
{
    match (e1, e2) {
        (Core::IterNat(w1), Core::IterNat(w2)) => {
            equal_when_equivalent(*w1.target, *w2.target);
            equal_when_equivalent(*w1.step, *w2.step);
            base_equal_when_equivalent(w1.base, w2.base);
        },
        (Core::RecNat(w1), Core::RecNat(w2)) => {
            equal_when_equivalent(*w1.target, *w2.target);
            equal_when_equivalent(*w1.step, *w2.step);
            base_equal_when_equivalent(w1.base, w2.base);
        },
        (Core::RecList(w1), Core::RecList(w2)) => {
            equal_when_equivalent(*w1.target, *w2.target);
            equal_when_equivalent(*w1.step, *w2.step);
            base_equal_when_equivalent(w1.base, w2.base);
        },
        (Core::IndNat(w1), Core::IndNat(w2)) => {
            equal_when_equivalent(*w1.target, *w2.target);
            equal_when_equivalent(*w1.motive, *w2.motive);
            equal_when_equivalent(*w1.base, *w2.base);
            equal_when_equivalent(*w1.step, *w2.step);
        },
        (Core::IndList(w1), Core::IndList(w2)) => {
            equal_when_equivalent(*w1.target, *w2.target);
            equal_when_equivalent(*w1.motive, *w2.motive);
            equal_when_equivalent(*w1.base, *w2.base);
            equal_when_equivalent(*w1.step, *w2.step);
        },
        (Core::IndVec(w1), Core::IndVec(w2)) => {
            equal_when_equivalent(*w1.len, *w2.len);
            equal_when_equivalent(*w1.target, *w2.target);
            equal_when_equivalent(*w1.motive, *w2.motive);
            equal_when_equivalent(*w1.base, *w2.base);
            equal_when_equivalent(*w1.step, *w2.step);
        },
        _ => {},
    }
}

proof fn equal_when_equivalent_part4(e1: Core, e2: Core)
    requires
        e1 is IndEither || e1 is IndAbsurd || e1 is Replace || e1 is Equal || e1 is App,
    ensures
        alpha_equiv(e1, e2) && first_order(e1) ==> e1 == e2,
    decreases e1, 0nat,
{
    match (e1, e2) {
        (Core::IndEither(w1), Core::IndEither(w2)) => {
            equal_when_equivalent(*w1.target, *w2.target);
            equal_when_equivalent(*w1.motive, *w2.motive);
            equal_when_equivalent(*w1.left, *w2.left);
            equal_when_equivalent(*w1.right, *w2.right);
        },
        (Core::IndAbsurd(w1), Core::IndAbsurd(w2)) => {
            equal_when_equivalent(*w1.target, *w2.target);
            equal_when_equivalent(*w1.motive, *w2.motive);
        },
        (Core::Replace(w1), Core::Replace(w2)) => {
            equal_when_equivalent(*w1.target, *w2.target);
            equal_when_equivalent(*w1.motive, *w2.motive);
            equal_when_equivalent(*w1.base, *w2.base);
        },
        (Core::Equal(w1), Core::Equal(w2)) => {
            equal_when_equivalent(*w1.typ, *w2.typ);
            equal_when_equivalent(*w1.from, *w2.from);
            equal_when_equivalent(*w1.to, *w2.to);
        },
        (Core::App(w1), Core::App(w2)) => {
            equal_when_equivalent(*w1.fun, *w2.fun);
            equal_when_equivalent(*w1.arg, *w2.arg);
        },
        _ => {},
    }
}

} // verus!
