//! How evaluation computes: each eliminator on its constructors (the
//! "commandments"), and numerals.
use vstd::prelude::*;
use crate::model::eval::{
    closure_val_of, deferred, do_ap, do_car, do_cdr, do_cong, do_head, do_ind_either, do_ind_list,
    do_ind_nat, do_ind_vec, do_iter_nat, do_rec_list, do_rec_nat, do_replace, do_symm, do_tail,
    do_which_nat, eval, eval4, eval_add1, eval_cons, eval_either, eval_equal, eval_ind_nat,
    eval_iter_nat, eval_left, eval_list, eval_list_cons, eval_rec_nat, eval_right, eval_same,
    eval_vector, eval_vector_cons, eval_which_nat,
};
use crate::model::readback::{read_back, read_back_nat};
use crate::model::typing::val_in_ctx;
use crate::symbol::Symbol;
use crate::syntax::{Core, Equal, IndNat, IterNat, MaybeTyped, RecNat, WhichNat};
use crate::types::cores::nat_core;
use crate::types::values::nat_value;
use crate::value::{Closure, Ctx, Env, Error, Value};

verus!{

/// Applying a λ value runs its body with the parameter bound to the
/// argument.
pub proof fn ap_lambda(f: nat, x: Symbol, clo: Closure, v: Value)
    requires
        f > 0,
    ensures
        do_ap(f, Value::Lambda { arg_name: x, body: Box::new(clo) }, v) == closure_val_of(
            (f - 1) as nat,
            clo,
            v,
        ),
{
}

/// `which-Nat` on `zero` is the base.
pub proof fn which_nat_zero(f: nat, btv: Value, bv: Value, sv: Value)
    requires
        f > 0,
    ensures
        do_which_nat(f, Value::Zero, btv, bv, sv) == Ok::<Value, Error>(bv),
{
}

/// `which-Nat` on `(add1 n)` is the step applied to `n`.
pub proof fn which_nat_add1(f: nat, n: Value, btv: Value, bv: Value, sv: Value)
    requires
        f > 0,
    ensures
        do_which_nat(f, Value::Add1(Box::new(n)), btv, bv, sv) == do_ap((f - 1) as nat, sv, n),
{
}

/// `iter-Nat` on `zero` is the base.
pub proof fn iter_nat_zero(f: nat, btv: Value, bv: Value, sv: Value)
    requires
        f > 0,
    ensures
        do_iter_nat(f, Value::Zero, btv, bv, sv) == Ok::<Value, Error>(bv),
{
}

/// `iter-Nat` on `(add1 n)` is the step applied to `iter-Nat` on `n`.
pub proof fn iter_nat_add1(f: nat, n: Value, btv: Value, bv: Value, sv: Value, r: Value)
    requires
        f > 0,
        do_iter_nat((f - 1) as nat, n, btv, bv, sv) == Ok::<Value, Error>(r),
    ensures
        do_iter_nat(f, Value::Add1(Box::new(n)), btv, bv, sv) == do_ap((f - 1) as nat, sv, r),
{
}

/// `rec-Nat` on `zero` is the base.
pub proof fn rec_nat_zero(f: nat, btv: Value, bv: Value, sv: Value)
    requires
        f > 0,
    ensures
        do_rec_nat(f, Value::Zero, btv, bv, sv) == Ok::<Value, Error>(bv),
{
}

/// `rec-Nat` on `(add1 n)` is the step applied to `n` and to `rec-Nat` on
/// `n`.
pub proof fn rec_nat_add1(f: nat, n: Value, btv: Value, bv: Value, sv: Value, s1: Value, r: Value)
    requires
        f > 0,
        do_ap((f - 1) as nat, sv, n) == Ok::<Value, Error>(s1),
        do_rec_nat((f - 1) as nat, n, btv, bv, sv) == Ok::<Value, Error>(r),
    ensures
        do_rec_nat(f, Value::Add1(Box::new(n)), btv, bv, sv) == do_ap((f - 1) as nat, s1, r),
{
}

/// `ind-Nat` on `zero` is the base.
pub proof fn ind_nat_zero(f: nat, mv: Value, bv: Value, sv: Value)
    requires
        f > 0,
    ensures
        do_ind_nat(f, Value::Zero, mv, bv, sv) == Ok::<Value, Error>(bv),
{
}

/// `ind-Nat` on `(add1 n)` is the step applied to `n` and to `ind-Nat` on
/// `n`.
pub proof fn ind_nat_add1(f: nat, n: Value, mv: Value, bv: Value, sv: Value, s1: Value, r: Value)
    requires
        f > 0,
        do_ap((f - 1) as nat, sv, n) == Ok::<Value, Error>(s1),
        do_ind_nat((f - 1) as nat, n, mv, bv, sv) == Ok::<Value, Error>(r),
    ensures
        do_ind_nat(f, Value::Add1(Box::new(n)), mv, bv, sv) == do_ap((f - 1) as nat, s1, r),
{
}

/// `rec-List` on `nil` is the base.
pub proof fn rec_list_nil(f: nat, btv: Value, bv: Value, sv: Value)
    requires
        f > 0,
    ensures
        do_rec_list(f, Value::Nil, btv, bv, sv) == Ok::<Value, Error>(bv),
{
}

/// `rec-List` on `(:: h t)` is the step applied to `h`, `t` and `rec-List`
/// on `t`.
pub proof fn rec_list_cons(
    f: nat,
    h: Value,
    t: Value,
    btv: Value,
    bv: Value,
    sv: Value,
    s2: Value,
    r: Value,
)
    requires
        f > 0,
        do_ap((f - 1) as nat, sv, h) matches Ok(s1) && do_ap((f - 1) as nat, s1, t) == Ok::<
            Value,
            Error,
        >(s2),
        do_rec_list((f - 1) as nat, t, btv, bv, sv) == Ok::<Value, Error>(r),
    ensures
        do_rec_list(f, Value::ListCons(Box::new(h), Box::new(t)), btv, bv, sv) == do_ap(
            (f - 1) as nat,
            s2,
            r,
        ),
{
}

/// `ind-List` on `nil` is the base.
pub proof fn ind_list_nil(f: nat, mv: Value, bv: Value, sv: Value)
    requires
        f > 0,
    ensures
        do_ind_list(f, Value::Nil, mv, bv, sv) == Ok::<Value, Error>(bv),
{
}

/// `ind-List` on `(:: h t)` is the step applied to `h`, `t` and `ind-List`
/// on `t`.
pub proof fn ind_list_cons(
    f: nat,
    h: Value,
    t: Value,
    mv: Value,
    bv: Value,
    sv: Value,
    s2: Value,
    r: Value,
)
    requires
        f > 0,
        do_ap((f - 1) as nat, sv, h) matches Ok(s1) && do_ap((f - 1) as nat, s1, t) == Ok::<
            Value,
            Error,
        >(s2),
        do_ind_list((f - 1) as nat, t, mv, bv, sv) == Ok::<Value, Error>(r),
    ensures
        do_ind_list(f, Value::ListCons(Box::new(h), Box::new(t)), mv, bv, sv) == do_ap(
            (f - 1) as nat,
            s2,
            r,
        ),
{
}

/// `ind-Vec` on length `zero` and `vecnil` is the base.
pub proof fn ind_vec_vecnil(f: nat, mv: Value, bv: Value, sv: Value)
    requires
        f > 0,
    ensures
        do_ind_vec(f, Value::Zero, Value::VecNil, mv, bv, sv) == Ok::<Value, Error>(bv),
{
}

/// `ind-Vec` on length `(add1 l)` and `(vec:: h t)` is the step applied to
/// `l`, `h`, `t` and `ind-Vec` on `l` and `t`.
pub proof fn ind_vec_cons(
    f: nat,
    l: Value,
    h: Value,
    t: Value,
    mv: Value,
    bv: Value,
    sv: Value,
    s3: Value,
    r: Value,
)
    requires
        f > 0,
        do_ap((f - 1) as nat, sv, l) matches Ok(s1) && do_ap((f - 1) as nat, s1, h) matches Ok(s2)
            && do_ap((f - 1) as nat, s2, t) == Ok::<Value, Error>(s3),
        do_ind_vec((f - 1) as nat, l, t, mv, bv, sv) == Ok::<Value, Error>(r),
    ensures
        do_ind_vec(
            f,
            Value::Add1(Box::new(l)),
            Value::VectorCons(Box::new(h), Box::new(t)),
            mv,
            bv,
            sv,
        ) == do_ap((f - 1) as nat, s3, r),
{
}

/// `ind-Either` on `(left x)` is the left branch applied to `x`, and on
/// `(right x)` the right branch applied to `x`.
pub proof fn ind_either_injections(f: nat, x: Value, mv: Value, lv: Value, rv: Value)
    requires
        f > 0,
    ensures
        do_ind_either(f, Value::Left(Box::new(x)), mv, lv, rv) == do_ap((f - 1) as nat, lv, x),
        do_ind_either(f, Value::Right(Box::new(x)), mv, lv, rv) == do_ap((f - 1) as nat, rv, x),
{
}

/// `car` and `cdr` of `(cons a d)` are `a` and `d`.
pub proof fn car_cdr_cons(f: nat, a: Value, d: Value)
    requires
        f > 0,
    ensures
        do_car(Value::Cons(Box::new(a), Box::new(d))) == Ok::<Value, Error>(a),
        do_cdr(f, Value::Cons(Box::new(a), Box::new(d))) == Ok::<Value, Error>(d),
{
}

/// `head` and `tail` of `(vec:: h t)` are `h` and `t`.
pub proof fn head_tail_vec_cons(h: Value, t: Value)
    ensures
        do_head(Value::VectorCons(Box::new(h), Box::new(t))) == Ok::<Value, Error>(h),
        do_tail(Value::VectorCons(Box::new(h), Box::new(t))) == Ok::<Value, Error>(t),
{
}

/// `replace` along `(same x)` is the base; `symm` of `(same x)` is
/// `(same x)`; `cong` of `(same x)` by `g` is `(same (g x))`.
pub proof fn equality_on_same(f: nat, x: Value, mv: Value, bv: Value, tv: Value, gv: Value, gx: Value)
    requires
        f > 0,
        do_ap((f - 1) as nat, gv, x) == Ok::<Value, Error>(gx),
    ensures
        do_replace(Value::Same(Box::new(x)), mv, bv) == Ok::<Value, Error>(bv),
        do_symm(Value::Same(Box::new(x))) == Ok::<Value, Error>(Value::Same(Box::new(x))),
        do_cong(f, Value::Same(Box::new(x)), tv, gv) == Ok::<Value, Error>(
            Value::Same(Box::new(gx)),
        ),
{
}

/// The annotated base `(the bt b)`.
pub open spec fn typed_base(bt: Core, b: Core) -> MaybeTyped {
    MaybeTyped::The(Box::new(bt), Box::new(b))
}

/// First commandment of `iter-Nat`, on terms: `(iter-Nat zero (the bt b) s)`
/// evaluates to `b`'s value, whatever the base type and the step evaluate
/// to; they are not used, so a failure in them does not matter (only
/// running out of fuel there does). A failure of `b` itself is kept in the
/// value.
pub proof fn iter_nat_first_commandment(f: nat, env: Env, bt: Core, b: Core, s: Core)
    requires
        f >= 2,
        eval((f - 2) as nat, env, bt) != Err::<Value, Error>(Error::OutOfFuel),
        eval((f - 2) as nat, env, s) != Err::<Value, Error>(Error::OutOfFuel),
    ensures
        eval(
            f,
            env,
            Core::IterNat(
                IterNat { target: Box::new(Core::Zero), base: typed_base(bt, b), step: Box::new(s) },
            ),
        ) == deferred(eval((f - 2) as nat, env, b)),
{
    let g = (f - 2) as nat;
    let w = IterNat { target: Box::new(Core::Zero), base: typed_base(bt, b), step: Box::new(s) };
    assert(eval(f, env, Core::IterNat(w)) == eval_iter_nat(f, env, w));
    assert(eval(g, env, Core::Zero) == Ok::<Value, Error>(Value::Zero));
    let sv = deferred(eval(g, env, s))->Ok_0;
    let mv = deferred(eval(g, env, bt))->Ok_0;
    match deferred(eval(g, env, b)) {
        Ok(bv) => {
            assert(eval4((f - 1) as nat, env, Core::Zero, bt, b, s) == Ok::<
                (Value, Value, Value, Value),
                Error,
            >((Value::Zero, mv, bv, sv)));
            assert(do_iter_nat((f - 1) as nat, Value::Zero, mv, bv, sv) == Ok::<Value, Error>(bv));
        },
        Err(e) => {
            assert(eval4((f - 1) as nat, env, Core::Zero, bt, b, s) == Err::<
                (Value, Value, Value, Value),
                Error,
            >(e));
        },
    }
}

/// First commandment of `rec-Nat`, on terms: as for `iter-Nat`, the base
/// type and the step are not used.
pub proof fn rec_nat_first_commandment(f: nat, env: Env, bt: Core, b: Core, s: Core)
    requires
        f >= 2,
        eval((f - 2) as nat, env, bt) != Err::<Value, Error>(Error::OutOfFuel),
        eval((f - 2) as nat, env, s) != Err::<Value, Error>(Error::OutOfFuel),
    ensures
        eval(
            f,
            env,
            Core::RecNat(
                RecNat { target: Box::new(Core::Zero), base: typed_base(bt, b), step: Box::new(s) },
            ),
        ) == deferred(eval((f - 2) as nat, env, b)),
{
    let g = (f - 2) as nat;
    let w = RecNat { target: Box::new(Core::Zero), base: typed_base(bt, b), step: Box::new(s) };
    assert(eval(f, env, Core::RecNat(w)) == eval_rec_nat(f, env, w));
    assert(eval(g, env, Core::Zero) == Ok::<Value, Error>(Value::Zero));
    let sv = deferred(eval(g, env, s))->Ok_0;
    let mv = deferred(eval(g, env, bt))->Ok_0;
    match deferred(eval(g, env, b)) {
        Ok(bv) => {
            assert(eval4((f - 1) as nat, env, Core::Zero, bt, b, s) == Ok::<
                (Value, Value, Value, Value),
                Error,
            >((Value::Zero, mv, bv, sv)));
            assert(do_rec_nat((f - 1) as nat, Value::Zero, mv, bv, sv) == Ok::<Value, Error>(bv));
        },
        Err(e) => {
            assert(eval4((f - 1) as nat, env, Core::Zero, bt, b, s) == Err::<
                (Value, Value, Value, Value),
                Error,
            >(e));
        },
    }
}

/// First commandment of `which-Nat`, on terms: as for `iter-Nat`, the base
/// type and the step are not used.
pub proof fn which_nat_first_commandment(f: nat, env: Env, bt: Core, b: Core, s: Core)
    requires
        f >= 2,
        eval((f - 2) as nat, env, bt) != Err::<Value, Error>(Error::OutOfFuel),
        eval((f - 2) as nat, env, s) != Err::<Value, Error>(Error::OutOfFuel),
    ensures
        eval(
            f,
            env,
            Core::WhichNat(
                WhichNat { target: Box::new(Core::Zero), base: typed_base(bt, b), step: Box::new(s) },
            ),
        ) == deferred(eval((f - 2) as nat, env, b)),
{
    let g = (f - 2) as nat;
    let w = WhichNat { target: Box::new(Core::Zero), base: typed_base(bt, b), step: Box::new(s) };
    assert(eval(f, env, Core::WhichNat(w)) == eval_which_nat(f, env, w));
    assert(eval(g, env, Core::Zero) == Ok::<Value, Error>(Value::Zero));
    let sv = deferred(eval(g, env, s))->Ok_0;
    let mv = deferred(eval(g, env, bt))->Ok_0;
    match deferred(eval(g, env, b)) {
        Ok(bv) => {
            assert(eval4((f - 1) as nat, env, Core::Zero, bt, b, s) == Ok::<
                (Value, Value, Value, Value),
                Error,
            >((Value::Zero, mv, bv, sv)));
            assert(do_which_nat((f - 1) as nat, Value::Zero, mv, bv, sv) == Ok::<Value, Error>(bv));
        },
        Err(e) => {
            assert(eval4((f - 1) as nat, env, Core::Zero, bt, b, s) == Err::<
                (Value, Value, Value, Value),
                Error,
            >(e));
        },
    }
}

/// First commandment of `ind-Nat`, on terms: `(ind-Nat zero m b s)`
/// evaluates to `b`'s value; the motive and the step are not used.
pub proof fn ind_nat_first_commandment(f: nat, env: Env, m: Core, b: Core, s: Core)
    requires
        f >= 2,
        eval((f - 2) as nat, env, m) != Err::<Value, Error>(Error::OutOfFuel),
        eval((f - 2) as nat, env, s) != Err::<Value, Error>(Error::OutOfFuel),
    ensures
        eval(
            f,
            env,
            Core::IndNat(
                IndNat {
                    target: Box::new(Core::Zero),
                    motive: Box::new(m),
                    base: Box::new(b),
                    step: Box::new(s),
                },
            ),
        ) == deferred(eval((f - 2) as nat, env, b)),
{
    let g = (f - 2) as nat;
    let w = IndNat { target: Box::new(Core::Zero), motive: Box::new(m), base: Box::new(b), step: Box::new(s) };
    assert(eval(f, env, Core::IndNat(w)) == eval_ind_nat(f, env, w));
    assert(eval(g, env, Core::Zero) == Ok::<Value, Error>(Value::Zero));
    let sv = deferred(eval(g, env, s))->Ok_0;
    let mv = deferred(eval(g, env, m))->Ok_0;
    match deferred(eval(g, env, b)) {
        Ok(bv) => {
            assert(eval4((f - 1) as nat, env, Core::Zero, m, b, s) == Ok::<
                (Value, Value, Value, Value),
                Error,
            >((Value::Zero, mv, bv, sv)));
            assert(do_ind_nat((f - 1) as nat, Value::Zero, mv, bv, sv) == Ok::<Value, Error>(bv));
        },
        Err(e) => {
            assert(eval4((f - 1) as nat, env, Core::Zero, m, b, s) == Err::<
                (Value, Value, Value, Value),
                Error,
            >(e));
        },
    }
}

/// The numeral with `n` `add1`s evaluates, with at least `n` fuel, to the
/// value with `n` `add1`s.
pub proof fn numerals_evaluate(f: nat, env: Env, n: nat)
    requires
        f >= n,
    ensures
        eval(f, env, nat_core(n)) == Ok::<Value, Error>(nat_value(n)),
    decreases n,
{
    if n > 0 {
        numerals_evaluate((f - 1) as nat, env, (n - 1) as nat);
        assert(eval(f, env, nat_core(n)) == eval_add1(f, env, nat_core((n - 1) as nat)));
    }
}

/// The numeral value with `n` `add1`s reads back, as a `Nat`, to the
/// numeral with `n` `add1`s.
pub proof fn numerals_read_back(f: nat, ctx: Ctx, n: nat)
    requires
        f > n,
    ensures
        read_back(f, ctx, Value::Nat, nat_value(n)) == Ok::<Core, Error>(nat_core(n)),
    decreases n,
{
    if n > 0 {
        numerals_read_back((f - 1) as nat, ctx, (n - 1) as nat);
        assert(read_back(f, ctx, Value::Nat, nat_value(n)) == read_back_nat(f, ctx, nat_value(n)));
    } else {
        assert(read_back(f, ctx, Value::Nat, nat_value(n)) == read_back_nat(f, ctx, nat_value(n)));
    }
}

/// Normalizing a numeral gives it back.
pub proof fn numerals_are_normal(f: nat, ctx: Ctx, n: nat)
    requires
        f > n,
    ensures
        val_in_ctx(f, ctx, nat_core(n)) matches Ok(v) && read_back(f, ctx, Value::Nat, v) == Ok::<
            Core,
            Error,
        >(nat_core(n)),
{
    numerals_evaluate(f, crate::model::names::ctx_to_env(ctx), n);
    numerals_read_back(f, ctx, n);
}


/// `(Either L R)` evaluates to the `Either` type value whose left side is
/// the value of `L` and whose right side is the value of `R` (a part that
/// fails is kept as a failed value).
pub proof fn either_type_keeps_its_sides(f: nat, env: Env, l: Core, r: Core)
    requires
        f >= 2,
        eval((f - 2) as nat, env, l) != Err::<Value, Error>(Error::OutOfFuel),
        eval((f - 2) as nat, env, r) != Err::<Value, Error>(Error::OutOfFuel),
    ensures
        eval(f, env, Core::Either(Box::new(l), Box::new(r))) == Ok::<Value, Error>(
            Value::Either(
                Box::new(deferred(eval((f - 2) as nat, env, l)).unwrap()),
                Box::new(deferred(eval((f - 2) as nat, env, r)).unwrap()),
            ),
        ),
{
    assert(eval(f, env, Core::Either(Box::new(l), Box::new(r))) == eval_either(f, env, l, r));
}


/// The value that a part of a term stands for once evaluated with fuel
/// `f`: its value, or the failure it keeps.
pub open spec fn part_value(f: nat, env: Env, e: Core) -> Value {
    deferred(eval(f, env, e)).unwrap()
}

/// Whether evaluating a part with fuel `f` finishes within it.
pub open spec fn part_ready(f: nat, env: Env, e: Core) -> bool {
    eval(f, env, e) != Err::<Value, Error>(Error::OutOfFuel)
}

/// `(add1 n)`, `(left x)`, `(right x)`, `(same x)` and `(List E)` evaluate
/// to the matching value around the value of their one part.
pub proof fn unary_constructors_keep_their_part(f: nat, env: Env, x: Core)
    requires
        f >= 1,
        part_ready((f - 1) as nat, env, x),
    ensures
        eval(f, env, Core::Add1(Box::new(x))) == Ok::<Value, Error>(Value::Add1(Box::new(part_value((f - 1) as nat, env, x)))),
        eval(f, env, Core::Left(Box::new(x))) == Ok::<Value, Error>(Value::Left(Box::new(part_value((f - 1) as nat, env, x)))),
        eval(f, env, Core::Right(Box::new(x))) == Ok::<Value, Error>(Value::Right(Box::new(part_value((f - 1) as nat, env, x)))),
        eval(f, env, Core::Same(Box::new(x))) == Ok::<Value, Error>(Value::Same(Box::new(part_value((f - 1) as nat, env, x)))),
        eval(f, env, Core::List(Box::new(x))) == Ok::<Value, Error>(Value::List(Box::new(part_value((f - 1) as nat, env, x)))),
{
    assert(eval(f, env, Core::Add1(Box::new(x))) == eval_add1(f, env, x));
    assert(eval(f, env, Core::Left(Box::new(x))) == eval_left(f, env, x));
    assert(eval(f, env, Core::Right(Box::new(x))) == eval_right(f, env, x));
    assert(eval(f, env, Core::Same(Box::new(x))) == eval_same(f, env, x));
    assert(eval(f, env, Core::List(Box::new(x))) == eval_list(f, env, x));
}

/// `(cons a d)`, `(:: h t)`, `(Vec E n)` and `(vec:: h t)` evaluate to the
/// matching value of their two parts' values, first part first.
pub proof fn binary_constructors_keep_their_parts(f: nat, env: Env, a: Core, d: Core)
    requires
        f >= 2,
        part_ready((f - 2) as nat, env, a),
        part_ready((f - 2) as nat, env, d),
    ensures
        eval(f, env, Core::Cons(Box::new(a), Box::new(d))) == Ok::<Value, Error>(
            Value::Cons(Box::new(part_value((f - 2) as nat, env, a)), Box::new(part_value((f - 2) as nat, env, d))),
        ),
        eval(f, env, Core::ListCons(Box::new(a), Box::new(d))) == Ok::<Value, Error>(
            Value::ListCons(Box::new(part_value((f - 2) as nat, env, a)), Box::new(part_value((f - 2) as nat, env, d))),
        ),
        eval(f, env, Core::Vector(Box::new(a), Box::new(d))) == Ok::<Value, Error>(
            Value::Vector(Box::new(part_value((f - 2) as nat, env, a)), Box::new(part_value((f - 2) as nat, env, d))),
        ),
        eval(f, env, Core::VectorCons(Box::new(a), Box::new(d))) == Ok::<Value, Error>(
            Value::VectorCons(Box::new(part_value((f - 2) as nat, env, a)), Box::new(part_value((f - 2) as nat, env, d))),
        ),
{
    assert(eval(f, env, Core::Cons(Box::new(a), Box::new(d))) == eval_cons(f, env, a, d));
    assert(eval(f, env, Core::ListCons(Box::new(a), Box::new(d))) == eval_list_cons(f, env, a, d));
    assert(eval(f, env, Core::Vector(Box::new(a), Box::new(d))) == eval_vector(f, env, a, d));
    assert(eval(f, env, Core::VectorCons(Box::new(a), Box::new(d))) == eval_vector_cons(f, env, a, d));
}

/// `(= A from to)` evaluates to the equation value of the values of `A`,
/// `from` and `to`, in that order.
pub proof fn equation_type_keeps_its_parts(f: nat, env: Env, a: Core, from: Core, to: Core)
    requires
        f >= 2,
        part_ready((f - 2) as nat, env, a),
        part_ready((f - 2) as nat, env, from),
        part_ready((f - 2) as nat, env, to),
    ensures
        eval(f, env, Core::Equal(Equal { typ: Box::new(a), from: Box::new(from), to: Box::new(to) })) == Ok::<Value, Error>(
            Value::Equal {
                typ: Box::new(part_value((f - 2) as nat, env, a)),
                from: Box::new(part_value((f - 2) as nat, env, from)),
                to: Box::new(part_value((f - 2) as nat, env, to)),
            },
        ),
{
    let q = Equal { typ: Box::new(a), from: Box::new(from), to: Box::new(to) };
    assert(eval(f, env, Core::Equal(q)) == eval_equal(f, env, q));
}

} // verus!
