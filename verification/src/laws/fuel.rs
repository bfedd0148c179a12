//! Fuel is only a bound on recursion depth: evaluating or reading back
//! with more fuel never changes a result that did not run out of fuel.
use vstd::prelude::*;
use crate::model::eval::{
    apply_all, closure_val_of, deferred, do_ap, do_car, do_cdr, do_cong, do_ind_either, do_ind_list,
    do_ind_nat, do_ind_vec, do_ind_vec_neutral, do_iter_nat, do_rec_list, do_rec_nat, do_which_nat,
    env_extend, eval, eval2, eval3, eval4, eval_add1, eval_app, eval_app_star, eval_car, eval_cdr,
    eval_cong2, eval_cons, eval_either, eval_equal, eval_head, eval_ind_absurd, eval_ind_either,
    eval_ind_list, eval_ind_nat, eval_ind_vec, eval_iter_nat, eval_left, eval_list, eval_list_cons,
    eval_pi, eval_rec_list, eval_rec_nat, eval_replace, eval_right, eval_same, eval_sigma,
    eval_symm, eval_tail, eval_the, eval_todo, eval_vector, eval_vector_cons, eval_which_nat,
    later, neu,
};
use crate::model::names::{bind_free, ctx_fresh};
use crate::model::readback::{
    read_back, read_back_absurd, read_back_either, read_back_list, read_back_nat,
    read_back_neutral, read_back_pi, read_back_same, read_back_sigma, read_back_type,
    read_back_type_either, read_back_type_equal, read_back_type_list, read_back_type_pi,
    read_back_type_sigma, read_back_type_vector, read_back_typed, read_back_vector,
};
use crate::symbol::Symbol;
use crate::syntax::{
    App, Core, CoreList, Equal, IndAbsurd, IndEither, IndList, IndNat, IndVec, IterNat, Lambda,
    MaybeTyped, Pi, RecList, RecNat, Replace, Sigma, The, ToDo, WhichNat,
};
use crate::value::{Closure, Ctx, Env, Error, Neutral, Value};

verus! {

/// The second result is the first, unless the first ran out of fuel.
pub open spec fn agrees<T>(first: Result<T, Error>, second: Result<T, Error>) -> bool {
    first != Err::<T, Error>(Error::OutOfFuel) ==> second == first
}

proof fn m_eval(f: nat, m: nat, env: Env, e: Core)
    requires
        f <= m,
    ensures
        agrees(eval(f, env, e), eval(m, env, e)),
    decreases f, 1nat,
{
    match e {
        Core::The(t) => m_eval_the(f, m, env, t),
        Core::Add1(n) => m_eval_add1(f, m, env, *n),
        Core::WhichNat(w) => m_eval_which_nat(f, m, env, w),
        Core::IterNat(w) => m_eval_iter_nat(f, m, env, w),
        Core::RecNat(w) => m_eval_rec_nat(f, m, env, w),
        Core::IndNat(w) => m_eval_ind_nat(f, m, env, w),
        Core::Pi(p) => m_eval_pi(f, m, env, p),
        Core::App(a) => m_eval_app(f, m, env, a),
        Core::AppStar(g, args) => m_eval_app_star(f, m, env, *g, args),
        Core::Sigma(s) => m_eval_sigma(f, m, env, s),
        Core::Cons(a, d) => m_eval_cons(f, m, env, *a, *d),
        Core::Car(p) => m_eval_car(f, m, env, *p),
        Core::Cdr(p) => m_eval_cdr(f, m, env, *p),
        Core::List(t) => m_eval_list(f, m, env, *t),
        Core::ListCons(h, t) => m_eval_list_cons(f, m, env, *h, *t),
        Core::RecList(w) => m_eval_rec_list(f, m, env, w),
        Core::IndList(w) => m_eval_ind_list(f, m, env, w),
        Core::Vector(t, n) => m_eval_vector(f, m, env, *t, *n),
        Core::VectorCons(h, t) => m_eval_vector_cons(f, m, env, *h, *t),
        Core::Head(v) => m_eval_head(f, m, env, *v),
        Core::Tail(v) => m_eval_tail(f, m, env, *v),
        Core::IndVec(w) => m_eval_ind_vec(f, m, env, w),
        Core::ToDo(t) => m_eval_todo(f, m, env, t),
        Core::Equal(q) => m_eval_equal(f, m, env, q),
        Core::Same(x) => m_eval_same(f, m, env, *x),
        Core::Replace(w) => m_eval_replace(f, m, env, w),
        Core::Cong2(p, t, g) => m_eval_cong2(f, m, env, *p, *t, *g),
        Core::Symm(p) => m_eval_symm(f, m, env, *p),
        Core::Either(l, r) => m_eval_either(f, m, env, *l, *r),
        Core::Left(x) => m_eval_left(f, m, env, *x),
        Core::Right(x) => m_eval_right(f, m, env, *x),
        Core::IndEither(w) => m_eval_ind_either(f, m, env, w),
        Core::IndAbsurd(w) => m_eval_ind_absurd(f, m, env, w),
        _ => {},
    }
}

proof fn m_later(f: nat, m: nat, env: Env, e: Core)
    requires
        f <= m,
    ensures
        agrees(later(f, env, e), later(m, env, e)),
    decreases f, 0nat,
{
    if f > 0 {
        let fd = (f - 1) as nat;
        let md = (m - 1) as nat;
        m_eval(fd, md, env, e);
    }
}

proof fn m_eval_the(f: nat, m: nat, env: Env, t: The)
    requires
        f <= m,
    ensures
        agrees(eval_the(f, env, t), eval_the(m, env, t)),
    decreases f, 0nat,
{
    if f > 0 {
        let fd = (f - 1) as nat;
        let md = (m - 1) as nat;
        m_eval(fd, md, env, *t.exp);
    }
}

proof fn m_eval_add1(f: nat, m: nat, env: Env, n: Core)
    requires
        f <= m,
    ensures
        agrees(eval_add1(f, env, n), eval_add1(m, env, n)),
    decreases f, 0nat,
{
    if f > 0 {
        let fd = (f - 1) as nat;
        let md = (m - 1) as nat;
        m_eval(fd, md, env, n);
    }
}

proof fn m_eval2(f: nat, m: nat, env: Env, a: Core, b: Core)
    requires
        f <= m,
    ensures
        agrees(eval2(f, env, a, b), eval2(m, env, a, b)),
    decreases f, 0nat,
{
    if f > 0 {
        let fd = (f - 1) as nat;
        let md = (m - 1) as nat;
        m_eval(fd, md, env, a);
        m_eval(fd, md, env, b);
    }
}

proof fn m_eval3(f: nat, m: nat, env: Env, a: Core, b: Core, c: Core)
    requires
        f <= m,
    ensures
        agrees(eval3(f, env, a, b, c), eval3(m, env, a, b, c)),
    decreases f, 0nat,
{
    if f > 0 {
        let fd = (f - 1) as nat;
        let md = (m - 1) as nat;
        m_eval(fd, md, env, a);
        m_eval(fd, md, env, b);
        m_eval(fd, md, env, c);
    }
}

proof fn m_eval4(f: nat, m: nat, env: Env, a: Core, b: Core, c: Core, d: Core)
    requires
        f <= m,
    ensures
        agrees(eval4(f, env, a, b, c, d), eval4(m, env, a, b, c, d)),
    decreases f, 0nat,
{
    if f > 0 {
        let fd = (f - 1) as nat;
        let md = (m - 1) as nat;
        m_eval(fd, md, env, a);
        m_eval(fd, md, env, b);
        m_eval(fd, md, env, c);
        m_eval(fd, md, env, d);
    }
}

proof fn m_eval_which_nat(f: nat, m: nat, env: Env, w: WhichNat)
    requires
        f <= m,
    ensures
        agrees(eval_which_nat(f, env, w), eval_which_nat(m, env, w)),
    decreases f, 0nat,
{
    if f > 0 {
        let fd = (f - 1) as nat;
        let md = (m - 1) as nat;
        if let MaybeTyped::The(bt, b) = w.base {
            m_eval4(fd, md, env, *w.target, *bt, *b, *w.step);
            if let Ok((tv, btv, bv, sv)) = eval4(fd, env, *w.target, *bt, *b, *w.step) {
                m_do_which_nat(fd, md, tv, btv, bv, sv);
            }
        }
    }
}

proof fn m_eval_iter_nat(f: nat, m: nat, env: Env, w: IterNat)
    requires
        f <= m,
    ensures
        agrees(eval_iter_nat(f, env, w), eval_iter_nat(m, env, w)),
    decreases f, 0nat,
{
    if f > 0 {
        let fd = (f - 1) as nat;
        let md = (m - 1) as nat;
        if let MaybeTyped::The(bt, b) = w.base {
            m_eval4(fd, md, env, *w.target, *bt, *b, *w.step);
            if let Ok((tv, btv, bv, sv)) = eval4(fd, env, *w.target, *bt, *b, *w.step) {
                m_do_iter_nat(fd, md, tv, btv, bv, sv);
            }
        }
    }
}

proof fn m_eval_rec_nat(f: nat, m: nat, env: Env, w: RecNat)
    requires
        f <= m,
    ensures
        agrees(eval_rec_nat(f, env, w), eval_rec_nat(m, env, w)),
    decreases f, 0nat,
{
    if f > 0 {
        let fd = (f - 1) as nat;
        let md = (m - 1) as nat;
        if let MaybeTyped::The(bt, b) = w.base {
            m_eval4(fd, md, env, *w.target, *bt, *b, *w.step);
            if let Ok((tv, btv, bv, sv)) = eval4(fd, env, *w.target, *bt, *b, *w.step) {
                m_do_rec_nat(fd, md, tv, btv, bv, sv);
            }
        }
    }
}

proof fn m_eval_rec_list(f: nat, m: nat, env: Env, w: RecList)
    requires
        f <= m,
    ensures
        agrees(eval_rec_list(f, env, w), eval_rec_list(m, env, w)),
    decreases f, 0nat,
{
    if f > 0 {
        let fd = (f - 1) as nat;
        let md = (m - 1) as nat;
        if let MaybeTyped::The(bt, b) = w.base {
            m_eval4(fd, md, env, *w.target, *bt, *b, *w.step);
            if let Ok((tv, btv, bv, sv)) = eval4(fd, env, *w.target, *bt, *b, *w.step) {
                m_do_rec_list(fd, md, tv, btv, bv, sv);
            }
        }
    }
}

proof fn m_eval_ind_nat(f: nat, m: nat, env: Env, w: IndNat)
    requires
        f <= m,
    ensures
        agrees(eval_ind_nat(f, env, w), eval_ind_nat(m, env, w)),
    decreases f, 0nat,
{
    if f > 0 {
        let fd = (f - 1) as nat;
        let md = (m - 1) as nat;
        m_eval4(fd, md, env, *w.target, *w.motive, *w.base, *w.step);
        if let Ok((tv, mv, bv, sv)) = eval4(fd, env, *w.target, *w.motive, *w.base, *w.step) {
            m_do_ind_nat(fd, md, tv, mv, bv, sv);
        }
    }
}

proof fn m_eval_ind_list(f: nat, m: nat, env: Env, w: IndList)
    requires
        f <= m,
    ensures
        agrees(eval_ind_list(f, env, w), eval_ind_list(m, env, w)),
    decreases f, 0nat,
{
    if f > 0 {
        let fd = (f - 1) as nat;
        let md = (m - 1) as nat;
        m_eval4(fd, md, env, *w.target, *w.motive, *w.base, *w.step);
        if let Ok((tv, mv, bv, sv)) = eval4(fd, env, *w.target, *w.motive, *w.base, *w.step) {
            m_do_ind_list(fd, md, tv, mv, bv, sv);
        }
    }
}

proof fn m_eval_ind_either(f: nat, m: nat, env: Env, w: IndEither)
    requires
        f <= m,
    ensures
        agrees(eval_ind_either(f, env, w), eval_ind_either(m, env, w)),
    decreases f, 0nat,
{
    if f > 0 {
        let fd = (f - 1) as nat;
        let md = (m - 1) as nat;
        m_eval4(fd, md, env, *w.target, *w.motive, *w.left, *w.right);
        if let Ok((tv, mv, bv, sv)) = eval4(fd, env, *w.target, *w.motive, *w.left, *w.right) {
            m_do_ind_either(fd, md, tv, mv, bv, sv);
        }
    }
}

proof fn m_eval_pi(f: nat, m: nat, env: Env, p: Pi)
    requires
        f <= m,
    ensures
        agrees(eval_pi(f, env, p), eval_pi(m, env, p)),
    decreases f, 0nat,
{
    if f > 0 {
        let fd = (f - 1) as nat;
        let md = (m - 1) as nat;
        m_eval(fd, md, env, *p.arg_type);
    }
}

proof fn m_eval_app(f: nat, m: nat, env: Env, a: App)
    requires
        f <= m,
    ensures
        agrees(eval_app(f, env, a), eval_app(m, env, a)),
    decreases f, 0nat,
{
    if f > 0 {
        let fd = (f - 1) as nat;
        let md = (m - 1) as nat;
        m_eval2(fd, md, env, *a.fun, *a.arg);
        if let Ok((fv, av)) = eval2(fd, env, *a.fun, *a.arg) {
            m_do_ap(fd, md, fv, av);
        }
    }
}

proof fn m_eval_app_star(f: nat, m: nat, env: Env, g: Core, args: CoreList)
    requires
        f <= m,
    ensures
        agrees(eval_app_star(f, env, g, args), eval_app_star(m, env, g, args)),
    decreases f, 0nat,
{
    if f > 0 {
        let fd = (f - 1) as nat;
        let md = (m - 1) as nat;
        m_eval(fd, md, env, g);
        if let Ok(gv) = deferred(eval(fd, env, g)) {
            m_apply_all(fd, md, env, gv, args);
        }
    }
}

proof fn m_apply_all(f: nat, m: nat, env: Env, fv: Value, args: CoreList)
    requires
        f <= m,
    ensures
        agrees(apply_all(f, env, fv, args), apply_all(m, env, fv, args)),
    decreases f, 0nat,
{
    if f > 0 {
        let fd = (f - 1) as nat;
        let md = (m - 1) as nat;
        if let CoreList::More(a, rest) = args {
            m_eval(fd, md, env, *a);
            if let Ok(av) = deferred(eval(fd, env, *a)) {
                m_do_ap(fd, md, fv, av);
                if let Ok(r) = do_ap(fd, fv, av) {
                    m_apply_all(fd, md, env, r, *rest);
                }
            }
        }
    }
}

proof fn m_eval_sigma(f: nat, m: nat, env: Env, s: Sigma)
    requires
        f <= m,
    ensures
        agrees(eval_sigma(f, env, s), eval_sigma(m, env, s)),
    decreases f, 0nat,
{
    if f > 0 {
        let fd = (f - 1) as nat;
        let md = (m - 1) as nat;
        m_eval(fd, md, env, *s.car_type);
    }
}

proof fn m_eval_cons(f: nat, m: nat, env: Env, a: Core, d: Core)
    requires
        f <= m,
    ensures
        agrees(eval_cons(f, env, a, d), eval_cons(m, env, a, d)),
    decreases f, 0nat,
{
    if f > 0 {
        let fd = (f - 1) as nat;
        let md = (m - 1) as nat;
        m_eval2(fd, md, env, a, d);
    }
}

proof fn m_eval_list_cons(f: nat, m: nat, env: Env, h: Core, t: Core)
    requires
        f <= m,
    ensures
        agrees(eval_list_cons(f, env, h, t), eval_list_cons(m, env, h, t)),
    decreases f, 0nat,
{
    if f > 0 {
        let fd = (f - 1) as nat;
        let md = (m - 1) as nat;
        m_eval2(fd, md, env, h, t);
    }
}

proof fn m_eval_vector(f: nat, m: nat, env: Env, t: Core, n: Core)
    requires
        f <= m,
    ensures
        agrees(eval_vector(f, env, t, n), eval_vector(m, env, t, n)),
    decreases f, 0nat,
{
    if f > 0 {
        let fd = (f - 1) as nat;
        let md = (m - 1) as nat;
        m_eval2(fd, md, env, t, n);
    }
}

proof fn m_eval_vector_cons(f: nat, m: nat, env: Env, h: Core, t: Core)
    requires
        f <= m,
    ensures
        agrees(eval_vector_cons(f, env, h, t), eval_vector_cons(m, env, h, t)),
    decreases f, 0nat,
{
    if f > 0 {
        let fd = (f - 1) as nat;
        let md = (m - 1) as nat;
        m_eval2(fd, md, env, h, t);
    }
}

proof fn m_eval_either(f: nat, m: nat, env: Env, l: Core, r: Core)
    requires
        f <= m,
    ensures
        agrees(eval_either(f, env, l, r), eval_either(m, env, l, r)),
    decreases f, 0nat,
{
    if f > 0 {
        let fd = (f - 1) as nat;
        let md = (m - 1) as nat;
        m_eval2(fd, md, env, l, r);
    }
}

proof fn m_eval_car(f: nat, m: nat, env: Env, p: Core)
    requires
        f <= m,
    ensures
        agrees(eval_car(f, env, p), eval_car(m, env, p)),
    decreases f, 0nat,
{
    if f > 0 {
        let fd = (f - 1) as nat;
        let md = (m - 1) as nat;
        m_eval(fd, md, env, p);
    }
}

proof fn m_eval_list(f: nat, m: nat, env: Env, t: Core)
    requires
        f <= m,
    ensures
        agrees(eval_list(f, env, t), eval_list(m, env, t)),
    decreases f, 0nat,
{
    if f > 0 {
        let fd = (f - 1) as nat;
        let md = (m - 1) as nat;
        m_eval(fd, md, env, t);
    }
}

proof fn m_eval_head(f: nat, m: nat, env: Env, v: Core)
    requires
        f <= m,
    ensures
        agrees(eval_head(f, env, v), eval_head(m, env, v)),
    decreases f, 0nat,
{
    if f > 0 {
        let fd = (f - 1) as nat;
        let md = (m - 1) as nat;
        m_eval(fd, md, env, v);
    }
}

proof fn m_eval_tail(f: nat, m: nat, env: Env, v: Core)
    requires
        f <= m,
    ensures
        agrees(eval_tail(f, env, v), eval_tail(m, env, v)),
    decreases f, 0nat,
{
    if f > 0 {
        let fd = (f - 1) as nat;
        let md = (m - 1) as nat;
        m_eval(fd, md, env, v);
    }
}

proof fn m_eval_same(f: nat, m: nat, env: Env, x: Core)
    requires
        f <= m,
    ensures
        agrees(eval_same(f, env, x), eval_same(m, env, x)),
    decreases f, 0nat,
{
    if f > 0 {
        let fd = (f - 1) as nat;
        let md = (m - 1) as nat;
        m_eval(fd, md, env, x);
    }
}

proof fn m_eval_symm(f: nat, m: nat, env: Env, p: Core)
    requires
        f <= m,
    ensures
        agrees(eval_symm(f, env, p), eval_symm(m, env, p)),
    decreases f, 0nat,
{
    if f > 0 {
        let fd = (f - 1) as nat;
        let md = (m - 1) as nat;
        m_eval(fd, md, env, p);
    }
}

proof fn m_eval_left(f: nat, m: nat, env: Env, x: Core)
    requires
        f <= m,
    ensures
        agrees(eval_left(f, env, x), eval_left(m, env, x)),
    decreases f, 0nat,
{
    if f > 0 {
        let fd = (f - 1) as nat;
        let md = (m - 1) as nat;
        m_eval(fd, md, env, x);
    }
}

proof fn m_eval_right(f: nat, m: nat, env: Env, x: Core)
    requires
        f <= m,
    ensures
        agrees(eval_right(f, env, x), eval_right(m, env, x)),
    decreases f, 0nat,
{
    if f > 0 {
        let fd = (f - 1) as nat;
        let md = (m - 1) as nat;
        m_eval(fd, md, env, x);
    }
}

proof fn m_eval_cdr(f: nat, m: nat, env: Env, p: Core)
    requires
        f <= m,
    ensures
        agrees(eval_cdr(f, env, p), eval_cdr(m, env, p)),
    decreases f, 0nat,
{
    if f > 0 {
        let fd = (f - 1) as nat;
        let md = (m - 1) as nat;
        m_eval(fd, md, env, p);
        if let Ok(pv) = eval(fd, env, p) {
            m_do_cdr(fd, md, pv);
        }
    }
}

proof fn m_eval_ind_vec(f: nat, m: nat, env: Env, w: IndVec)
    requires
        f <= m,
    ensures
        agrees(eval_ind_vec(f, env, w), eval_ind_vec(m, env, w)),
    decreases f, 0nat,
{
    if f > 0 {
        let fd = (f - 1) as nat;
        let md = (m - 1) as nat;
        m_eval(fd, md, env, *w.len);
        m_eval4(fd, md, env, *w.target, *w.motive, *w.base, *w.step);
        if let Ok(lv) = deferred(eval(fd, env, *w.len)) {
            if let Ok((tv, mv, bv, sv)) = eval4(fd, env, *w.target, *w.motive, *w.base, *w.step) {
                m_do_ind_vec(fd, md, lv, tv, mv, bv, sv);
            }
        }
    }
}

proof fn m_eval_todo(f: nat, m: nat, env: Env, t: ToDo)
    requires
        f <= m,
    ensures
        agrees(eval_todo(f, env, t), eval_todo(m, env, t)),
    decreases f, 0nat,
{
    if f > 0 {
        let fd = (f - 1) as nat;
        let md = (m - 1) as nat;
        if let Some(ty) = t.typ {
            m_eval(fd, md, env, *ty);
        }
    }
}

proof fn m_eval_equal(f: nat, m: nat, env: Env, q: Equal)
    requires
        f <= m,
    ensures
        agrees(eval_equal(f, env, q), eval_equal(m, env, q)),
    decreases f, 0nat,
{
    if f > 0 {
        let fd = (f - 1) as nat;
        let md = (m - 1) as nat;
        m_eval3(fd, md, env, *q.typ, *q.from, *q.to);
    }
}

proof fn m_eval_replace(f: nat, m: nat, env: Env, w: Replace)
    requires
        f <= m,
    ensures
        agrees(eval_replace(f, env, w), eval_replace(m, env, w)),
    decreases f, 0nat,
{
    if f > 0 {
        let fd = (f - 1) as nat;
        let md = (m - 1) as nat;
        m_eval3(fd, md, env, *w.target, *w.motive, *w.base);
    }
}

proof fn m_eval_cong2(f: nat, m: nat, env: Env, p: Core, t: Core, g: Core)
    requires
        f <= m,
    ensures
        agrees(eval_cong2(f, env, p, t, g), eval_cong2(m, env, p, t, g)),
    decreases f, 0nat,
{
    if f > 0 {
        let fd = (f - 1) as nat;
        let md = (m - 1) as nat;
        m_eval3(fd, md, env, p, t, g);
        if let Ok((pv, tv, gv)) = eval3(fd, env, p, t, g) {
            m_do_cong(fd, md, pv, tv, gv);
        }
    }
}

proof fn m_eval_ind_absurd(f: nat, m: nat, env: Env, w: IndAbsurd)
    requires
        f <= m,
    ensures
        agrees(eval_ind_absurd(f, env, w), eval_ind_absurd(m, env, w)),
    decreases f, 0nat,
{
    if f > 0 {
        let fd = (f - 1) as nat;
        let md = (m - 1) as nat;
        m_eval2(fd, md, env, *w.target, *w.motive);
    }
}

proof fn m_closure(f: nat, m: nat, clo: Closure, v: Value)
    requires
        f <= m,
    ensures
        agrees(closure_val_of(f, clo, v), closure_val_of(m, clo, v)),
    decreases f, 0nat,
{
    if f > 0 {
        let fd = (f - 1) as nat;
        let md = (m - 1) as nat;
        m_eval(fd, md, env_extend(clo.env, clo.var, v), clo.expr);
    }
}

proof fn m_do_ap(f: nat, m: nat, rator: Value, rand: Value)
    requires
        f <= m,
    ensures
        agrees(do_ap(f, rator, rand), do_ap(m, rator, rand)),
    decreases f, 0nat,
{
    if f > 0 {
        let fd = (f - 1) as nat;
        let md = (m - 1) as nat;
        match rator {
            Value::Lambda { body, .. } => m_closure(fd, md, *body, rand),
            Value::Neutral { type_value, .. } => {
                if let Value::Pi { res_type, .. } = *type_value {
                    m_closure(fd, md, *res_type, rand);
                }
            },
            _ => {},
        }
    }
}

proof fn m_do_which_nat(f: nat, m: nat, tv: Value, btv: Value, bv: Value, sv: Value)
    requires
        f <= m,
    ensures
        agrees(do_which_nat(f, tv, btv, bv, sv), do_which_nat(m, tv, btv, bv, sv)),
    decreases f, 0nat,
{
    if f > 0 {
        let fd = (f - 1) as nat;
        let md = (m - 1) as nat;
        if let Value::Add1(n) = tv {
            m_do_ap(fd, md, sv, *n);
        }
    }
}

proof fn m_do_iter_nat(f: nat, m: nat, tv: Value, btv: Value, bv: Value, sv: Value)
    requires
        f <= m,
    ensures
        agrees(do_iter_nat(f, tv, btv, bv, sv), do_iter_nat(m, tv, btv, bv, sv)),
    decreases f, 0nat,
{
    if f > 0 {
        let fd = (f - 1) as nat;
        let md = (m - 1) as nat;
        if let Value::Add1(n) = tv {
            m_do_iter_nat(fd, md, *n, btv, bv, sv);
            if let Ok(r) = do_iter_nat(fd, *n, btv, bv, sv) {
                m_do_ap(fd, md, sv, r);
            }
        }
    }
}

proof fn m_do_rec_nat(f: nat, m: nat, tv: Value, xv: Value, bv: Value, sv: Value)
    requires
        f <= m,
    ensures
        agrees(do_rec_nat(f, tv, xv, bv, sv), do_rec_nat(m, tv, xv, bv, sv)),
    decreases f, 0nat,
{
    if f > 0 {
        let fd = (f - 1) as nat;
        let md = (m - 1) as nat;
        match tv {
            Value::Add1(n) => {
                m_do_ap(fd, md, sv, *n);
                if let Ok(s1) = do_ap(fd, sv, *n) {
                    m_do_rec_nat(fd, md, *n, xv, bv, sv);
                    if let Ok(r) = do_rec_nat(fd, *n, xv, bv, sv) {
                        m_do_ap(fd, md, s1, r);
                    }
                }
            },
            _ => {},
        }
    }
}

proof fn m_do_ind_nat(f: nat, m: nat, tv: Value, xv: Value, bv: Value, sv: Value)
    requires
        f <= m,
    ensures
        agrees(do_ind_nat(f, tv, xv, bv, sv), do_ind_nat(m, tv, xv, bv, sv)),
    decreases f, 0nat,
{
    if f > 0 {
        let fd = (f - 1) as nat;
        let md = (m - 1) as nat;
        match tv {
            Value::Add1(n) => {
                m_do_ap(fd, md, sv, *n);
                if let Ok(s1) = do_ap(fd, sv, *n) {
                    m_do_ind_nat(fd, md, *n, xv, bv, sv);
                    if let Ok(r) = do_ind_nat(fd, *n, xv, bv, sv) {
                        m_do_ap(fd, md, s1, r);
                    }
                }
            },
            Value::Neutral { .. } => {
                m_do_ap(fd, md, xv, tv);
                m_do_ap(fd, md, xv, Value::Zero);
            },
            _ => {},
        }
    }
}

proof fn m_do_cdr(f: nat, m: nat, pv: Value)
    requires
        f <= m,
    ensures
        agrees(do_cdr(f, pv), do_cdr(m, pv)),
    decreases f, 0nat,
{
    if f > 0 {
        let fd = (f - 1) as nat;
        let md = (m - 1) as nat;
        if let Value::Neutral { type_value, .. } = pv {
            if let Value::Sigma { cdr_type, .. } = *type_value {
                if let Ok(a) = do_car(pv) {
                    m_closure(fd, md, *cdr_type, a);
                }
            }
        }
    }
}

proof fn m_do_rec_list(f: nat, m: nat, tv: Value, xv: Value, bv: Value, sv: Value)
    requires
        f <= m,
    ensures
        agrees(do_rec_list(f, tv, xv, bv, sv), do_rec_list(m, tv, xv, bv, sv)),
    decreases f, 0nat,
{
    if f > 0 {
        let fd = (f - 1) as nat;
        let md = (m - 1) as nat;
        match tv {
            Value::ListCons(h, t) => {
                m_do_ap(fd, md, sv, *h);
                if let Ok(s1) = do_ap(fd, sv, *h) {
                    m_do_ap(fd, md, s1, *t);
                    if let Ok(s2) = do_ap(fd, s1, *t) {
                        m_do_rec_list(fd, md, *t, xv, bv, sv);
                        if let Ok(r) = do_rec_list(fd, *t, xv, bv, sv) {
                            m_do_ap(fd, md, s2, r);
                        }
                    }
                }
            },
            _ => {},
        }
    }
}

proof fn m_do_ind_list(f: nat, m: nat, tv: Value, xv: Value, bv: Value, sv: Value)
    requires
        f <= m,
    ensures
        agrees(do_ind_list(f, tv, xv, bv, sv), do_ind_list(m, tv, xv, bv, sv)),
    decreases f, 0nat,
{
    if f > 0 {
        let fd = (f - 1) as nat;
        let md = (m - 1) as nat;
        match tv {
            Value::ListCons(h, t) => {
                m_do_ap(fd, md, sv, *h);
                if let Ok(s1) = do_ap(fd, sv, *h) {
                    m_do_ap(fd, md, s1, *t);
                    if let Ok(s2) = do_ap(fd, s1, *t) {
                        m_do_ind_list(fd, md, *t, xv, bv, sv);
                        if let Ok(r) = do_ind_list(fd, *t, xv, bv, sv) {
                            m_do_ap(fd, md, s2, r);
                        }
                    }
                }
            },
            Value::Neutral { .. } => {
                m_do_ap(fd, md, xv, tv);
                m_do_ap(fd, md, xv, Value::Nil);
            },
            _ => {},
        }
    }
}

proof fn m_do_ind_vec(f: nat, m: nat, lv: Value, vv: Value, mv: Value, bv: Value, sv: Value)
    requires
        f <= m,
    ensures
        agrees(do_ind_vec(f, lv, vv, mv, bv, sv), do_ind_vec(m, lv, vv, mv, bv, sv)),
    decreases f, 0nat,
{
    if f > 0 {
        let fd = (f - 1) as nat;
        let md = (m - 1) as nat;
        match (lv, vv) {
            (Value::Add1(l), Value::VectorCons(h, t)) => {
                m_do_ap(fd, md, sv, *l);
                if let Ok(s1) = do_ap(fd, sv, *l) {
                    m_do_ap(fd, md, s1, *h);
                    if let Ok(s2) = do_ap(fd, s1, *h) {
                        m_do_ap(fd, md, s2, *t);
                        if let Ok(s3) = do_ap(fd, s2, *t) {
                            m_do_ind_vec(fd, md, *l, *t, mv, bv, sv);
                            if let Ok(r) = do_ind_vec(fd, *l, *t, mv, bv, sv) {
                                m_do_ap(fd, md, s3, r);
                            }
                        }
                    }
                }
            },
            _ => {
                if let Value::Neutral { type_value, kind } = vv {
                    if let Value::Vector(etv, _) = *type_value {
                        m_do_ind_vec_neutral(fd, md, lv, vv, *kind, *etv, mv, bv, sv);
                    }
                }
            },
        }
    }
}

proof fn m_do_ind_vec_neutral(f: nat, m: nat, lv: Value, vv: Value, ne: Neutral, etv: Value, mv: Value, bv: Value, sv: Value)
    requires
        f <= m,
    ensures
        agrees(do_ind_vec_neutral(f, lv, vv, ne, etv, mv, bv, sv), do_ind_vec_neutral(m, lv, vv, ne, etv, mv, bv, sv)),
    decreases f, 0nat,
{
    if f > 0 {
        let fd = (f - 1) as nat;
        let md = (m - 1) as nat;
        m_do_ap(fd, md, mv, lv);
        if let Ok(m1) = do_ap(fd, mv, lv) {
            m_do_ap(fd, md, m1, vv);
        }
        m_do_ap(fd, md, mv, Value::Zero);
        if let Ok(m0) = do_ap(fd, mv, Value::Zero) {
            m_do_ap(fd, md, m0, Value::VecNil);
        }
    }
}

proof fn m_do_cong(f: nat, m: nat, pv: Value, tv: Value, gv: Value)
    requires
        f <= m,
    ensures
        agrees(do_cong(f, pv, tv, gv), do_cong(m, pv, tv, gv)),
    decreases f, 0nat,
{
    if f > 0 {
        let fd = (f - 1) as nat;
        let md = (m - 1) as nat;
        if let Value::Same(v) = pv {
            m_do_ap(fd, md, gv, *v);
        }
    }
}

proof fn m_do_ind_either(f: nat, m: nat, tv: Value, mv: Value, lv: Value, rv: Value)
    requires
        f <= m,
    ensures
        agrees(do_ind_either(f, tv, mv, lv, rv), do_ind_either(m, tv, mv, lv, rv)),
    decreases f, 0nat,
{
    if f > 0 {
        let fd = (f - 1) as nat;
        let md = (m - 1) as nat;
        match tv {
            Value::Left(x) => m_do_ap(fd, md, lv, *x),
            Value::Right(x) => m_do_ap(fd, md, rv, *x),
            Value::Neutral { .. } => m_do_ap(fd, md, mv, tv),
            _ => {},
        }
    }
}

/// More fuel never changes an evaluation that did not run out of fuel,
/// whether it succeeded or failed: the fuel only bounds the depth of
/// recursion.
pub proof fn more_fuel_same_value(f: nat, m: nat, env: Env, e: Core)
    requires
        f <= m,
        eval(f, env, e) != Err::<Value, Error>(Error::OutOfFuel),
    ensures
        eval(m, env, e) == eval(f, env, e),
{
    m_eval(f, m, env, e);
}

/// Two evaluations of a term that did not run out of fuel give the same
/// result, whatever fuel each had.
pub proof fn evaluation_is_deterministic(f1: nat, f2: nat, env: Env, e: Core)
    requires
        eval(f1, env, e) != Err::<Value, Error>(Error::OutOfFuel),
        eval(f2, env, e) != Err::<Value, Error>(Error::OutOfFuel),
    ensures
        eval(f1, env, e) == eval(f2, env, e),
{
    if f1 <= f2 {
        m_eval(f1, f2, env, e);
    } else {
        m_eval(f2, f1, env, e);
    }
}

/// More fuel never changes an application of a function value that did
/// not run out of fuel.
pub proof fn more_fuel_same_application(f: nat, m: nat, rator: Value, rand: Value)
    requires
        f <= m,
        do_ap(f, rator, rand) != Err::<Value, Error>(Error::OutOfFuel),
    ensures
        do_ap(m, rator, rand) == do_ap(f, rator, rand),
{
    m_do_ap(f, m, rator, rand);
}

proof fn m_rb(f: nat, m: nat, ctx: Ctx, tv: Value, v: Value)
    requires
        f <= m,
    ensures
        agrees(read_back(f, ctx, tv, v), read_back(m, ctx, tv, v)),
    decreases f, 3nat,
{
    match tv {
        Value::Universe => m_rbt(f, m, ctx, v),
        Value::Pi { arg_name, arg_type, res_type } => m_rb_pi(f, m, ctx, arg_name, *arg_type, *res_type, v),
        Value::Sigma { car_type, cdr_type, .. } => m_rb_sigma(f, m, ctx, *car_type, *cdr_type, v),
        Value::Absurd => {
            if let Value::Neutral { kind, .. } = v {
                m_rb_absurd(f, m, ctx, *kind);
            }
        },
        _ => match v {
            Value::Neutral { kind, .. } => m_rbn(f, m, ctx, *kind),
            _ => match tv {
                Value::Nat => m_rb_nat(f, m, ctx, v),
                Value::List(etv) => m_rb_list(f, m, ctx, *etv, v),
                Value::Vector(etv, len) => m_rb_vector(f, m, ctx, *etv, *len, v),
                Value::Equal { typ, .. } => {
                    if let Value::Same(x) = v {
                        m_rb_same(f, m, ctx, *typ, *x);
                    }
                },
                Value::Either(ltv, rtv) => m_rb_either(f, m, ctx, *ltv, *rtv, v),
                _ => {},
            },
        },
    }
}

proof fn m_rb_nat(f: nat, m: nat, ctx: Ctx, v: Value)
    requires
        f <= m,
    ensures
        agrees(read_back_nat(f, ctx, v), read_back_nat(m, ctx, v)),
    decreases f, 0nat,
{
    if f > 0 {
        let fd = (f - 1) as nat;
        let md = (m - 1) as nat;
        if let Value::Add1(n) = v {
            m_rb(fd, md, ctx, Value::Nat, *n);
        }
    }
}

proof fn m_rb_pi(f: nat, m: nat, ctx: Ctx, x: Symbol, a: Value, b: Closure, v: Value)
    requires
        f <= m,
    ensures
        agrees(read_back_pi(f, ctx, x, a, b, v), read_back_pi(m, ctx, x, a, b, v)),
    decreases f, 0nat,
{
    if f > 0 {
        let fd = (f - 1) as nat;
        let md = (m - 1) as nat;
        let y = match v {
            Value::Lambda { arg_name, .. } => arg_name,
            _ => x,
        };
        if let Ok(x_hat) = ctx_fresh(ctx, y) {
            let var = neu(a, Neutral::Var(x_hat));
            m_closure(fd, md, b, var);
            m_do_ap(fd, md, v, var);
            if let (Ok(rt), Ok(app)) = (closure_val_of(fd, b, var), do_ap(fd, v, var)) {
                m_rb(fd, md, bind_free(ctx, x_hat, a), rt, app);
            }
        }
    }
}

proof fn m_rb_sigma(f: nat, m: nat, ctx: Ctx, a: Value, d: Closure, v: Value)
    requires
        f <= m,
    ensures
        agrees(read_back_sigma(f, ctx, a, d, v), read_back_sigma(m, ctx, a, d, v)),
    decreases f, 0nat,
{
    if f > 0 {
        let fd = (f - 1) as nat;
        let md = (m - 1) as nat;
        if let Ok(the_car) = do_car(v) {
            m_rb(fd, md, ctx, a, the_car);
            m_closure(fd, md, d, the_car);
            m_do_cdr(fd, md, v);
            if let (Ok(dt), Ok(the_cdr)) = (closure_val_of(fd, d, the_car), do_cdr(fd, v)) {
                m_rb(fd, md, ctx, dt, the_cdr);
            }
        }
    }
}

proof fn m_rb_absurd(f: nat, m: nat, ctx: Ctx, ne: Neutral)
    requires
        f <= m,
    ensures
        agrees(read_back_absurd(f, ctx, ne), read_back_absurd(m, ctx, ne)),
    decreases f, 0nat,
{
    if f > 0 {
        let fd = (f - 1) as nat;
        let md = (m - 1) as nat;
        m_rbn(fd, md, ctx, ne);
    }
}

proof fn m_rb_list(f: nat, m: nat, ctx: Ctx, etv: Value, v: Value)
    requires
        f <= m,
    ensures
        agrees(read_back_list(f, ctx, etv, v), read_back_list(m, ctx, etv, v)),
    decreases f, 0nat,
{
    if f > 0 {
        let fd = (f - 1) as nat;
        let md = (m - 1) as nat;
        if let Value::ListCons(h, t) = v {
            m_rb(fd, md, ctx, etv, *h);
            m_rb(fd, md, ctx, Value::List(Box::new(etv)), *t);
        }
    }
}

proof fn m_rb_vector(f: nat, m: nat, ctx: Ctx, etv: Value, len: Value, v: Value)
    requires
        f <= m,
    ensures
        agrees(read_back_vector(f, ctx, etv, len, v), read_back_vector(m, ctx, etv, len, v)),
    decreases f, 0nat,
{
    if f > 0 {
        let fd = (f - 1) as nat;
        let md = (m - 1) as nat;
        if let (Value::Add1(l), Value::VectorCons(h, t)) = (len, v) {
            m_rb(fd, md, ctx, etv, *h);
            m_rb(fd, md, ctx, Value::Vector(Box::new(etv), l), *t);
        }
    }
}

proof fn m_rb_same(f: nat, m: nat, ctx: Ctx, a: Value, x: Value)
    requires
        f <= m,
    ensures
        agrees(read_back_same(f, ctx, a, x), read_back_same(m, ctx, a, x)),
    decreases f, 0nat,
{
    if f > 0 {
        let fd = (f - 1) as nat;
        let md = (m - 1) as nat;
        m_rb(fd, md, ctx, a, x);
    }
}

proof fn m_rb_either(f: nat, m: nat, ctx: Ctx, ltv: Value, rtv: Value, v: Value)
    requires
        f <= m,
    ensures
        agrees(read_back_either(f, ctx, ltv, rtv, v), read_back_either(m, ctx, ltv, rtv, v)),
    decreases f, 0nat,
{
    if f > 0 {
        let fd = (f - 1) as nat;
        let md = (m - 1) as nat;
        match v {
            Value::Left(x) => m_rb(fd, md, ctx, ltv, *x),
            Value::Right(x) => m_rb(fd, md, ctx, rtv, *x),
            _ => {},
        }
    }
}

proof fn m_rbt(f: nat, m: nat, ctx: Ctx, v: Value)
    requires
        f <= m,
    ensures
        agrees(read_back_type(f, ctx, v), read_back_type(m, ctx, v)),
    decreases f, 2nat,
{
    match v {
        Value::Pi { arg_name, arg_type, res_type } => m_rbt_binder(f, m, ctx, arg_name, *arg_type, *res_type, true),
        Value::Sigma { arg_name, car_type, cdr_type } => m_rbt_binder(f, m, ctx, arg_name, *car_type, *cdr_type, false),
        Value::List(etv) => m_rbt_list(f, m, ctx, *etv),
        Value::Vector(etv, len) => m_rbt_vector(f, m, ctx, *etv, *len),
        Value::Equal { typ, from, to } => m_rbt_equal(f, m, ctx, *typ, *from, *to),
        Value::Either(ltv, rtv) => m_rbt_either(f, m, ctx, *ltv, *rtv),
        Value::Neutral { type_value, kind } => {
            if *type_value == Value::Universe {
                m_rbn(f, m, ctx, *kind);
            }
        },
        _ => {},
    }
}

proof fn m_rbt_binder(f: nat, m: nat, ctx: Ctx, x: Symbol, a: Value, b: Closure, pi: bool)
    requires
        f <= m,
    ensures
        agrees((if pi { read_back_type_pi(f, ctx, x, a, b) } else { read_back_type_sigma(f, ctx, x, a, b) }), (if pi { read_back_type_pi(m, ctx, x, a, b) } else { read_back_type_sigma(m, ctx, x, a, b) })),
    decreases f, 0nat,
{
    if f > 0 {
        let fd = (f - 1) as nat;
        let md = (m - 1) as nat;
        m_rbt(fd, md, ctx, a);
        if let Ok(x_hat) = ctx_fresh(ctx, x) {
            m_closure(fd, md, b, neu(a, Neutral::Var(x_hat)));
            if let Ok(bv) = closure_val_of(fd, b, neu(a, Neutral::Var(x_hat))) {
                m_rbt(fd, md, bind_free(ctx, x_hat, a), bv);
            }
        }
    }
}

proof fn m_rbt_list(f: nat, m: nat, ctx: Ctx, etv: Value)
    requires
        f <= m,
    ensures
        agrees(read_back_type_list(f, ctx, etv), read_back_type_list(m, ctx, etv)),
    decreases f, 0nat,
{
    if f > 0 {
        let fd = (f - 1) as nat;
        let md = (m - 1) as nat;
        m_rbt(fd, md, ctx, etv);
    }
}

proof fn m_rbt_vector(f: nat, m: nat, ctx: Ctx, etv: Value, len: Value)
    requires
        f <= m,
    ensures
        agrees(read_back_type_vector(f, ctx, etv, len), read_back_type_vector(m, ctx, etv, len)),
    decreases f, 0nat,
{
    if f > 0 {
        let fd = (f - 1) as nat;
        let md = (m - 1) as nat;
        m_rbt(fd, md, ctx, etv);
        m_rb(fd, md, ctx, Value::Nat, len);
    }
}

proof fn m_rbt_equal(f: nat, m: nat, ctx: Ctx, a: Value, from: Value, to: Value)
    requires
        f <= m,
    ensures
        agrees(read_back_type_equal(f, ctx, a, from, to), read_back_type_equal(m, ctx, a, from, to)),
    decreases f, 0nat,
{
    if f > 0 {
        let fd = (f - 1) as nat;
        let md = (m - 1) as nat;
        m_rbt(fd, md, ctx, a);
        m_rb(fd, md, ctx, a, from);
        m_rb(fd, md, ctx, a, to);
    }
}

proof fn m_rbt_either(f: nat, m: nat, ctx: Ctx, ltv: Value, rtv: Value)
    requires
        f <= m,
    ensures
        agrees(read_back_type_either(f, ctx, ltv, rtv), read_back_type_either(m, ctx, ltv, rtv)),
    decreases f, 0nat,
{
    if f > 0 {
        let fd = (f - 1) as nat;
        let md = (m - 1) as nat;
        m_rbt(fd, md, ctx, ltv);
        m_rbt(fd, md, ctx, rtv);
    }
}

proof fn m_rb_typed(f: nat, m: nat, ctx: Ctx, tv: Value, v: Value)
    requires
        f <= m,
    ensures
        agrees(read_back_typed(f, ctx, tv, v), read_back_typed(m, ctx, tv, v)),
    decreases f, 0nat,
{
    if f > 0 {
        let fd = (f - 1) as nat;
        let md = (m - 1) as nat;
        m_rbt(fd, md, ctx, tv);
        m_rb(fd, md, ctx, tv, v);
    }
}

proof fn m_rbn(f: nat, m: nat, ctx: Ctx, ne: Neutral)
    requires
        f <= m,
    ensures
        agrees(read_back_neutral(f, ctx, ne), read_back_neutral(m, ctx, ne)),
    decreases f, 1nat,
{
    match ne {
        Neutral::WhichNat(..) | Neutral::IterNat(..) | Neutral::RecList(..) => m_rbn_ternary(f, m, ctx, ne),
        Neutral::IndNat(..) | Neutral::IndEither(..) | Neutral::IndVec12(..) | Neutral::IndAbsurd(
            ..,
        ) => m_rbn_induction(f, m, ctx, ne),
        _ => m_rbn_simple(f, m, ctx, ne),
    }
}

proof fn m_rbn_simple(f: nat, m: nat, ctx: Ctx, ne: Neutral)
    requires
        f <= m,
        !(ne is WhichNat || ne is IterNat || ne is RecList || ne is IndNat || ne is IndEither
            || ne is IndVec12 || ne is IndAbsurd),
    ensures
        agrees(read_back_neutral(f, ctx, ne), read_back_neutral(m, ctx, ne)),
    decreases f, 0nat,
{
    if f > 0 {
        let fd = (f - 1) as nat;
        let md = (m - 1) as nat;
        match ne {
            Neutral::App(n, a) => {
                m_rbn(fd, md, ctx, *n);
                m_rb(fd, md, ctx, a.typ, a.value);
            },
            Neutral::Car(n) | Neutral::Cdr(n) | Neutral::Head(n) | Neutral::Tail(n) => m_rbn(fd, md, ctx, *n),
            Neutral::Todo(_, tv) => m_rbt(fd, md, ctx, *tv),
            _ => {},
        }
    }
}

proof fn m_rbn_ternary(f: nat, m: nat, ctx: Ctx, ne: Neutral)
    requires
        f <= m,
        ne is WhichNat || ne is IterNat || ne is RecList,
    ensures
        agrees(read_back_neutral(f, ctx, ne), read_back_neutral(m, ctx, ne)),
    decreases f, 0nat,
{
    if f > 0 {
        let fd = (f - 1) as nat;
        let md = (m - 1) as nat;
        match ne {
            Neutral::WhichNat(n, b, s) | Neutral::IterNat(n, b, s) | Neutral::RecList(n, b, s) => {
                m_rbn(fd, md, ctx, *n);
                m_rb_typed(fd, md, ctx, b.typ, b.value);
                m_rb(fd, md, ctx, s.typ, s.value);
            },
            _ => {},
        }
    }
}

proof fn m_rbn_induction(f: nat, m: nat, ctx: Ctx, ne: Neutral)
    requires
        f <= m,
        ne is IndNat || ne is IndEither || ne is IndVec12 || ne is IndAbsurd,
    ensures
        agrees(read_back_neutral(f, ctx, ne), read_back_neutral(m, ctx, ne)),
    decreases f, 0nat,
{
    if f > 0 {
        let fd = (f - 1) as nat;
        let md = (m - 1) as nat;
        match ne {
            Neutral::IndNat(n, mt, b, s) | Neutral::IndEither(n, mt, b, s) => {
                m_rbn(fd, md, ctx, *n);
                m_rb(fd, md, ctx, mt.typ, mt.value);
                m_rb(fd, md, ctx, b.typ, b.value);
                m_rb(fd, md, ctx, s.typ, s.value);
            },
            Neutral::IndVec12(l, es, mt, b, s) => {
                m_rbn(fd, md, ctx, *l);
                m_rbn(fd, md, ctx, *es);
                m_rb(fd, md, ctx, mt.typ, mt.value);
                m_rb(fd, md, ctx, b.typ, b.value);
                m_rb(fd, md, ctx, s.typ, s.value);
            },
            Neutral::IndAbsurd(n, mt) => {
                m_rbn(fd, md, ctx, *n);
                m_rb(fd, md, ctx, mt.typ, mt.value);
            },
            _ => {},
        }
    }
}

/// More fuel never changes a successful read-back: normal forms do not
/// depend on the fuel that computed them.
pub proof fn more_fuel_same_normal_form(f: nat, m: nat, ctx: Ctx, tv: Value, v: Value)
    requires
        f <= m,
    ensures
        agrees(read_back(f, ctx, tv, v), read_back(m, ctx, tv, v)),
        agrees(read_back_type(f, ctx, v), read_back_type(m, ctx, v)),
{
    m_rb(f, m, ctx, tv, v);
    m_rbt(f, m, ctx, v);
}

} // verus!
