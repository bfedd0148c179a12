//! Bidirectional elaboration: `synth` finds a term's type, `check` checks a
//! term against a type, `is_type` checks that a term is a type. Each
//! returns the elaborated, desugared term.
use vstd::prelude::*;
use crate::model::alpha::alpha_equiv;
use crate::model::eval::{
    ap, closure_val_of, const_closure, do_ap, do_car, either_branch_type, eval,
    ind_vec_motive_type, ind_vec_step_type, motive_type, neu, pi_c, pi_v,
};
use crate::model::names::{
    bind_free, ctx_fresh, ctx_to_env, extend_renaming, fresh_binder, rename, var_type,
};
use crate::model::readback::{read_back, read_back_type};
use crate::symbol::{Name, sym, Symbol};
use crate::syntax::{
    App, BinderList, Core, CoreList, Equal, IndAbsurd, IndEither, IndList, IndNat, IndVec, IterNat,
    Lambda, MaybeTyped, Pi, RecList, RecNat, Ref, Replace, Sigma, SymbolList, ToDo, WhichNat,
};
use crate::value::{Closure, Ctx, Error, Neutral, Renaming, Value};

verus! {

/// The value of `e` in the environment that `ctx` describes.
pub open spec fn val_in_ctx(f: nat, ctx: Ctx, e: Core) -> Result<Value, Error> {
    eval(f, ctx_to_env(ctx), e)
}

/// Characters allowed in atoms: letters and `-`.
pub open spec fn is_atom_char(c: char) -> bool {
    ('a' <= c && c <= 'z') || ('A' <= c && c <= 'Z') || c == '-'
}

/// Whether every character of `n` may appear in an atom.
pub open spec fn atom_chars_ok(n: Name) -> bool
    decreases n,
{
    match n {
        Name::End => true,
        Name::Ch(c, rest) => is_atom_char(c) && atom_chars_ok(*rest),
    }
}

/// Atoms are non-empty words of letters and hyphens.
pub open spec fn atom_is_ok(s: Symbol) -> bool {
    s.index == 0 && s.name != Name::End && atom_chars_ok(s.name)
}

/// A Σ term.
pub open spec fn sigma_c(x: Symbol, a: Core, d: Core) -> Core {
    Core::Sigma(Sigma { arg_name: x, car_type: Box::new(a), cdr_type: Box::new(d) })
}

/// Whether the two type values read back to α-equivalent types.
pub open spec fn same_type(f: nat, ctx: Ctx, v1: Value, v2: Value) -> Result<(), Error>
    decreases f, 0nat,
{
    if f == 0 {
        Err(Error::OutOfFuel)
    } else {
        match read_back_type((f - 1) as nat, ctx, v1) {
            Err(e) => Err(e),
            Ok(c1) => match read_back_type((f - 1) as nat, ctx, v2) {
                Err(e) => Err(e),
                Ok(c2) => if alpha_equiv(c1, c2) {
                    Ok(())
                } else {
                    Err(Error::NotTheSameType(c1, c2))
                },
            },
        }
    }
}

/// Whether two values of type `tv` read back to α-equivalent terms.
pub open spec fn convert(f: nat, ctx: Ctx, tv: Value, v1: Value, v2: Value) -> Result<(), Error>
    decreases f, 0nat,
{
    if f == 0 {
        Err(Error::OutOfFuel)
    } else {
        let g = (f - 1) as nat;
        match read_back(g, ctx, tv, v1) {
            Err(e) => Err(e),
            Ok(c1) => match read_back(g, ctx, tv, v2) {
                Err(e) => Err(e),
                Ok(c2) => if alpha_equiv(c1, c2) {
                    Ok(())
                } else {
                    match read_back_type(g, ctx, tv) {
                        Err(e) => Err(e),
                        Ok(tc) => Err(Error::NotTheSame(tc, c1, c2)),
                    }
                },
            },
        }
    }
}

/// `e`'s type and elaborated form.
pub open spec fn synth(f: nat, ctx: Ctx, r: Renaming, e: Core) -> Result<(Core, Core), Error>
    decreases f, 1nat,
{
    match e {
        Core::Invalid(s) => Err(Error::InvalidSyntax(s)),
        Core::The(_) => synth_the(f, ctx, r, e),
        Core::Universe => Err(Error::UhasNoType),
        Core::Nat => Ok((Core::Universe, Core::Nat)),
        Core::Zero => Ok((Core::Nat, Core::Zero)),
        Core::Add1(n) => synth_add1(f, ctx, r, *n),
        Core::WhichNat(w) => synth_which_nat(f, ctx, r, w),
        Core::IterNat(w) => synth_iter_nat(f, ctx, r, w),
        Core::RecNat(w) => synth_rec_nat(f, ctx, r, w),
        Core::IndNat(w) => synth_ind_nat(f, ctx, r, w),
        Core::Atom => Ok((Core::Universe, Core::Atom)),
        Core::Quote(s) => if atom_is_ok(s) {
            Ok((Core::Atom, Core::Quote(s)))
        } else {
            Err(Error::InvalidAtom(s))
        },
        Core::Fun(ts) => synth_fun(f, ctx, r, ts),
        Core::Pi(p) => synth_pi(f, ctx, r, p),
        Core::PiStar(_, _) => Err(Error::NotSupported),
        Core::Lambda(_) | Core::LambdaStar(_, _) | Core::Cons(_, _) | Core::Nil | Core::VecNil
        | Core::VectorCons(_, _) | Core::ToDo(_) | Core::Left(_) | Core::Right(_) => Err(
            Error::CantDetermineType(e),
        ),
        Core::App(_) => Err(Error::NotSupported),
        Core::AppStar(g, args) => synth_app_star(f, ctx, r, *g, args),
        Core::Ref(x) => synth_ref(f, ctx, r, x),
        Core::Sigma(s) => synth_sigma(f, ctx, r, s),
        Core::SigmaStar(bs, d) => synth_sigma_star(f, ctx, r, bs, *d),
        Core::Pair(a, d) => synth_pair(f, ctx, r, *a, *d),
        Core::Car(p) => synth_car(f, ctx, r, *p),
        Core::Cdr(p) => synth_cdr(f, ctx, r, *p),
        Core::List(t) => synth_list(f, ctx, r, *t),
        Core::ListCons(h, t) => synth_list_cons(f, ctx, r, *h, *t),
        Core::RecList(w) => synth_rec_list(f, ctx, r, w),
        Core::IndList(w) => synth_ind_list(f, ctx, r, w),
        Core::Vector(t, n) => synth_vector(f, ctx, r, *t, *n),
        Core::Head(v) => synth_head(f, ctx, r, *v),
        Core::Tail(v) => synth_tail(f, ctx, r, *v),
        Core::IndVec(w) => synth_ind_vec(f, ctx, r, w),
        Core::Equal(q) => synth_equal(f, ctx, r, q),
        Core::Same(_) => Err(Error::NotSupported),
        Core::Replace(w) => synth_replace(f, ctx, r, w),
        Core::Cong(p, g) => synth_cong(f, ctx, r, *p, *g),
        Core::Cong2(_, _, _) => Err(Error::Stuck),
        Core::Symm(p) => synth_symm(f, ctx, r, *p),
        Core::Either(l, rt) => synth_either(f, ctx, r, *l, *rt),
        Core::IndEither(w) => synth_ind_either(f, ctx, r, w),
        Core::Trivial => Ok((Core::Universe, Core::Trivial)),
        Core::Sole => Ok((Core::Trivial, Core::Sole)),
        Core::Absurd => Ok((Core::Universe, Core::Absurd)),
        Core::IndAbsurd(w) => synth_ind_absurd(f, ctx, r, w),
    }
}

/// `e` checked against the type value `tv`, elaborated.
pub open spec fn check(f: nat, ctx: Ctx, r: Renaming, e: Core, tv: Value) -> Result<Core, Error>
    decreases f, 1nat,
{
    match e {
        Core::Invalid(s) => Err(Error::InvalidSyntax(s)),
        Core::Lambda(l) => check_lambda(f, ctx, r, l, tv),
        Core::LambdaStar(ps, b) => check_lambda_star(f, ctx, r, ps, *b, tv),
        Core::Cons(a, d) => check_cons(f, ctx, r, *a, *d, tv),
        Core::Nil => check_nil(f, ctx, tv),
        Core::VecNil => check_vecnil(f, ctx, tv),
        Core::VectorCons(h, t) => check_vector_cons(f, ctx, r, *h, *t, tv),
        Core::Same(x) => check_same(f, ctx, r, *x, tv),
        Core::Left(x) => check_left(f, ctx, r, *x, tv),
        Core::Right(x) => check_right(f, ctx, r, *x, tv),
        Core::ToDo(t) => check_todo(f, ctx, t, tv),
        _ => check_by_synth(f, ctx, r, e, tv),
    }
}

/// `e` elaborated as a type.
pub open spec fn is_type(f: nat, ctx: Ctx, r: Renaming, e: Core) -> Result<Core, Error>
    decreases f, 1nat,
{
    match e {
        Core::Invalid(s) => Err(Error::InvalidSyntax(s)),
        Core::Universe | Core::Nat | Core::Atom | Core::Trivial | Core::Absurd => Ok(e),
        Core::The(_) | Core::App(_) | Core::ToDo(_) => is_type_by_check(f, ctx, r, e),
        Core::Ref(x) => is_type_ref(f, ctx, r, x),
        Core::Pi(p) => is_type_pi(f, ctx, r, p),
        Core::PiStar(bs, res) => is_type_pi_star(f, ctx, r, bs, *res),
        Core::Fun(ts) => is_type_fun(f, ctx, r, ts),
        Core::Sigma(s) => is_type_sigma(f, ctx, r, s),
        Core::SigmaStar(bs, d) => is_type_sigma_star(f, ctx, r, bs, *d),
        Core::Pair(a, d) => is_type_pair(f, ctx, r, *a, *d),
        Core::List(t) => is_type_list(f, ctx, r, *t),
        Core::Vector(t, n) => is_type_vector(f, ctx, r, *t, *n),
        Core::Equal(q) => is_type_equal(f, ctx, r, q),
        Core::Either(l, rt) => is_type_either(f, ctx, r, *l, *rt),
        Core::Car(_) | Core::Cdr(_) | Core::Head(_) | Core::Tail(_) | Core::Left(_)
        | Core::Right(_) | Core::Cong(_, _) | Core::Cong2(_, _, _) => Err(Error::NotSupported),
        _ => Err(Error::NotAType(e)),
    }
}

/// Checking by synthesis: the synthesized type must be the same as `tv`.
pub open spec fn check_by_synth(f: nat, ctx: Ctx, r: Renaming, e: Core, tv: Value) -> Result<
    Core,
    Error,
>
    decreases f, 0nat,
{
    if f == 0 {
        Err(Error::OutOfFuel)
    } else {
        let g = (f - 1) as nat;
        match synth(g, ctx, r, e) {
            Err(err) => Err(err),
            Ok((t_out, e_out)) => match val_in_ctx(g, ctx, t_out) {
                Err(err) => Err(err),
                Ok(tv2) => match same_type(g, ctx, tv2, tv) {
                    Err(err) => Err(err),
                    Ok(_) => Ok(e_out),
                },
            },
        }
    }
}

/// `e` is a type exactly when it checks against `U`.
pub open spec fn is_type_by_check(f: nat, ctx: Ctx, r: Renaming, e: Core) -> Result<Core, Error>
    decreases f, 0nat,
{
    if f == 0 {
        Err(Error::OutOfFuel)
    } else {
        match check((f - 1) as nat, ctx, r, e, Value::Universe) {
            Ok(t) => Ok(t),
            Err(_) => Err(Error::NotAType(e)),
        }
    }
}

/// A variable is a type when it checks against `U`; otherwise the error names its type.
pub open spec fn is_type_ref(f: nat, ctx: Ctx, r: Renaming, x: Ref) -> Result<Core, Error>
    decreases f, 0nat,
{
    if f == 0 {
        Err(Error::OutOfFuel)
    } else {
        let g = (f - 1) as nat;
        match check(g, ctx, r, Core::Ref(x), Value::Universe) {
            Ok(t) => Ok(t),
            Err(_) => match var_type(ctx, x.0) {
                Err(e) => Err(e),
                Ok(other) => match read_back_type(g, ctx, other) {
                    Err(e) => Err(e),
                    Ok(oc) => Err(Error::WrongType(oc, Core::Universe)),
                },
            },
        }
    }
}

/// `(the T e)`: `T` as a type, `e` checked against it.
pub open spec fn synth_the(f: nat, ctx: Ctx, r: Renaming, e: Core) -> Result<(Core, Core), Error>
    decreases f, 0nat,
{
    if f == 0 {
        Err(Error::OutOfFuel)
    } else {
        let g = (f - 1) as nat;
        match e {
            Core::The(t) => match is_type(g, ctx, r, *t.typ) {
                Err(err) => Err(err),
                Ok(t_out) => match val_in_ctx(g, ctx, t_out) {
                    Err(err) => Err(err),
                    Ok(tv) => match check(g, ctx, r, *t.exp, tv) {
                        Err(err) => Err(err),
                        Ok(e_out) => Ok((t_out, e_out)),
                    },
                },
            },
            _ => Err(Error::Stuck),
        }
    }
}

/// `(add1 n)` has type `Nat` when `n` does.
pub open spec fn synth_add1(f: nat, ctx: Ctx, r: Renaming, n: Core) -> Result<(Core, Core), Error>
    decreases f, 0nat,
{
    if f == 0 {
        Err(Error::OutOfFuel)
    } else {
        match check((f - 1) as nat, ctx, r, n, Value::Nat) {
            Err(err) => Err(err),
            Ok(n_out) => Ok((Core::Nat, Core::Add1(Box::new(n_out)))),
        }
    }
}

/// The elaborated ternary-eliminator parts: target, base type, base, step.
pub open spec fn ternary(tgt: Core, bt: Core, b: Core, s: Core) -> (Box<Core>, MaybeTyped, Box<Core>) {
    (Box::new(tgt), MaybeTyped::The(Box::new(bt), Box::new(b)), Box::new(s))
}

/// Target checked against `Nat`, then the base synthesized.
pub open spec fn nat_target_and_base(f: nat, ctx: Ctx, r: Renaming, target: Core, b: Core) -> Result<
    (Core, Core, Core),
    Error,
>
    decreases f, 0nat,
{
    if f == 0 {
        Err(Error::OutOfFuel)
    } else {
        let g = (f - 1) as nat;
        match check(g, ctx, r, target, Value::Nat) {
            Err(err) => Err(err),
            Ok(tgt_out) => match synth(g, ctx, r, b) {
                Err(err) => Err(err),
                Ok((bt_out, b_out)) => Ok((tgt_out, bt_out, b_out)),
            },
        }
    }
}

/// `which-Nat` as written: the base's type is the result type.
pub open spec fn synth_which_nat(f: nat, ctx: Ctx, r: Renaming, w: WhichNat) -> Result<
    (Core, Core),
    Error,
>
    decreases f, 0nat,
{
    if f == 0 {
        Err(Error::OutOfFuel)
    } else {
        let g = (f - 1) as nat;
        match w.base {
            MaybeTyped::The(_, _) => Err(Error::NotSupported),
            MaybeTyped::Plain(b) => match nat_target_and_base(g, ctx, r, *w.target, *b) {
                Err(err) => Err(err),
                Ok((tgt_out, bt_out, b_out)) => match ctx_fresh(ctx, sym("n-1"@)) {
                    Err(err) => Err(err),
                    Ok(n1) => match check(
                        g,
                        ctx,
                        r,
                        *w.step,
                        pi_v(n1, Value::Nat, Closure { env: ctx_to_env(ctx), var: n1, expr: bt_out }),
                    ) {
                        Err(err) => Err(err),
                        Ok(s_out) => {
                            let (t, b, s) = ternary(tgt_out, bt_out, b_out, s_out);
                            Ok((bt_out, Core::WhichNat(WhichNat { target: t, base: b, step: s })))
                        },
                    },
                },
            },
        }
    }
}

/// `iter-Nat` as written: the step maps the base's type to itself.
pub open spec fn synth_iter_nat(f: nat, ctx: Ctx, r: Renaming, w: IterNat) -> Result<
    (Core, Core),
    Error,
>
    decreases f, 0nat,
{
    if f == 0 {
        Err(Error::OutOfFuel)
    } else {
        let g = (f - 1) as nat;
        match w.base {
            MaybeTyped::The(_, _) => Err(Error::NotSupported),
            MaybeTyped::Plain(b) => match nat_target_and_base(g, ctx, r, *w.target, *b) {
                Err(err) => Err(err),
                Ok((tgt_out, bt_out, b_out)) => match ctx_fresh(ctx, sym("old"@)) {
                    Err(err) => Err(err),
                    Ok(old) => match val_in_ctx(g, ctx, pi_c(old, bt_out, bt_out)) {
                        Err(err) => Err(err),
                        Ok(st) => match check(g, ctx, r, *w.step, st) {
                            Err(err) => Err(err),
                            Ok(s_out) => {
                                let (t, b, s) = ternary(tgt_out, bt_out, b_out, s_out);
                                Ok((bt_out, Core::IterNat(IterNat { target: t, base: b, step: s })))
                            },
                        },
                    },
                },
            },
        }
    }
}

/// `rec-Nat` as written: the step takes the predecessor and the result so far.
pub open spec fn synth_rec_nat(f: nat, ctx: Ctx, r: Renaming, w: RecNat) -> Result<
    (Core, Core),
    Error,
>
    decreases f, 0nat,
{
    if f == 0 {
        Err(Error::OutOfFuel)
    } else {
        let g = (f - 1) as nat;
        match w.base {
            MaybeTyped::The(_, _) => Err(Error::NotSupported),
            MaybeTyped::Plain(b) => match nat_target_and_base(g, ctx, r, *w.target, *b) {
                Err(err) => Err(err),
                Ok((tgt_out, bt_out, b_out)) => match ctx_fresh(ctx, sym("n-1"@)) {
                    Err(err) => Err(err),
                    Ok(n1) => match ctx_fresh(ctx, sym("old"@)) {
                        Err(err) => Err(err),
                        Ok(old) => match val_in_ctx(
                            g,
                            ctx,
                            pi_c(n1, Core::Nat, pi_c(old, bt_out, bt_out)),
                        ) {
                            Err(err) => Err(err),
                            Ok(st) => match check(g, ctx, r, *w.step, st) {
                                Err(err) => Err(err),
                                Ok(s_out) => {
                                    let (t, b, s) = ternary(tgt_out, bt_out, b_out, s_out);
                                    Ok((bt_out, Core::RecNat(RecNat { target: t, base: b, step: s })))
                                },
                            },
                        },
                    },
                },
            },
        }
    }
}

/// The type of `ind-Nat`'s step as elaboration states it:
/// `(Π ((n_minus_1 Nat)) (Π ((_ih (mot n_minus_1))) (mot (add1 n_minus_1))))`.
pub open spec fn ind_nat_step_check_type(mv: Value) -> Value {
    let n = sym("n_minus_1"@);
    pi_v(
        n,
        Value::Nat,
        crate::model::eval::capture(
            n,
            mv,
            pi_c(
                sym("_ih"@),
                ap(crate::model::eval::rf(crate::model::eval::captured()), crate::model::eval::rf(n)),
                ap(
                    crate::model::eval::rf(crate::model::eval::captured()),
                    Core::Add1(Box::new(crate::model::eval::rf(n))),
                ),
            ),
        ),
    )
}

/// `ind-Nat`: the motive is a family over `Nat`; the result is the motive at the target.
pub open spec fn synth_ind_nat(f: nat, ctx: Ctx, r: Renaming, w: IndNat) -> Result<
    (Core, Core),
    Error,
>
    decreases f, 0nat,
{
    if f == 0 {
        Err(Error::OutOfFuel)
    } else {
        let g = (f - 1) as nat;
        match check(g, ctx, r, *w.target, Value::Nat) {
            Err(err) => Err(err),
            Ok(tgt_out) => match check(
                g,
                ctx,
                r,
                *w.motive,
                pi_v(sym("n"@), Value::Nat, const_closure(sym("n"@), Value::Universe)),
            ) {
                Err(err) => Err(err),
                Ok(mot_out) => match val_in_ctx(g, ctx, mot_out) {
                    Err(err) => Err(err),
                    Ok(mv) => match do_ap(g, mv, Value::Zero) {
                        Err(err) => Err(err),
                        Ok(bt) => match check(g, ctx, r, *w.base, bt) {
                            Err(err) => Err(err),
                            Ok(b_out) => match check(g, ctx, r, *w.step, ind_nat_step_check_type(mv)) {
                                Err(err) => Err(err),
                                Ok(s_out) => Ok(
                                    (
                                        ap(mot_out, tgt_out),
                                        Core::IndNat(
                                            IndNat {
                                                target: Box::new(tgt_out),
                                                motive: Box::new(mot_out),
                                                base: Box::new(b_out),
                                                step: Box::new(s_out),
                                            },
                                        ),
                                    ),
                                ),
                            },
                        },
                    },
                },
            },
        }
    }
}

/// `(-> a b)` with the binder name chosen and `a` checked as a type.
pub open spec fn synth_fun(f: nat, ctx: Ctx, r: Renaming, ts: CoreList) -> Result<
    (Core, Core),
    Error,
>
    decreases f, 0nat,
{
    if f == 0 {
        Err(Error::OutOfFuel)
    } else {
        let g = (f - 1) as nat;
        match ts {
            CoreList::More(a, rest) => match *rest {
                CoreList::More(b, cs) => {
                    let binder_src = match *cs {
                        CoreList::Empty => *b,
                        _ => Core::AppStar(b, *cs),
                    };
                    let res_src = match *cs {
                        CoreList::Empty => *b,
                        _ => Core::Fun(CoreList::More(b, cs)),
                    };
                    match fresh_binder(ctx, binder_src, sym("x"@)) {
                        Err(err) => Err(err),
                        Ok(z) => match check(g, ctx, r, *a, Value::Universe) {
                            Err(err) => Err(err),
                            Ok(a_out) => match val_in_ctx(g, ctx, a_out) {
                                Err(err) => Err(err),
                                Ok(av) => match check(g, bind_free(ctx, z, av), r, res_src, Value::Universe) {
                                    Err(err) => Err(err),
                                    Ok(b_out) => Ok((Core::Universe, pi_c(z, a_out, b_out))),
                                },
                            },
                        },
                    }
                },
                CoreList::Empty => Err(Error::NotSupported),
            },
            CoreList::Empty => Err(Error::NotSupported),
        }
    }
}

/// `(Π ((x A)) B)` is a type when `A` is and `B` is under `x : A`.
pub open spec fn synth_pi(f: nat, ctx: Ctx, r: Renaming, p: Pi) -> Result<(Core, Core), Error>
    decreases f, 0nat,
{
    if f == 0 {
        Err(Error::OutOfFuel)
    } else {
        match check_with_fresh_binding((f - 1) as nat, ctx, r, p.arg_name, *p.arg_type, *p.res_type) {
            Err(err) => Err(err),
            Ok((x_hat, a_out, b_out)) => Ok((Core::Universe, pi_c(x_hat, a_out, b_out))),
        }
    }
}

/// A fresh name for `x`, `xt` checked against `U`, and `body` checked
/// against `U` with the fresh name bound to `xt`.
pub open spec fn check_with_fresh_binding(
    f: nat,
    ctx: Ctx,
    r: Renaming,
    x: Symbol,
    xt: Core,
    body: Core,
) -> Result<(Symbol, Core, Core), Error>
    decreases f, 0nat,
{
    if f == 0 {
        Err(Error::OutOfFuel)
    } else {
        let g = (f - 1) as nat;
        match ctx_fresh(ctx, x) {
            Err(err) => Err(err),
            Ok(x_hat) => match check(g, ctx, r, xt, Value::Universe) {
                Err(err) => Err(err),
                Ok(a_out) => match val_in_ctx(g, ctx, a_out) {
                    Err(err) => Err(err),
                    Ok(av) => match check(
                        g,
                        bind_free(ctx, x_hat, av),
                        extend_renaming(r, x, x_hat),
                        body,
                        Value::Universe,
                    ) {
                        Err(err) => Err(err),
                        Ok(b_out) => Ok((x_hat, a_out, b_out)),
                    },
                },
            },
        }
    }
}

/// As `check_with_fresh_binding`, with both parts elaborated as types.
pub open spec fn is_type_with_fresh_binding(
    f: nat,
    ctx: Ctx,
    r: Renaming,
    x: Symbol,
    xt: Core,
    body: Core,
) -> Result<(Symbol, Core, Core), Error>
    decreases f, 0nat,
{
    if f == 0 {
        Err(Error::OutOfFuel)
    } else {
        let g = (f - 1) as nat;
        match ctx_fresh(ctx, x) {
            Err(err) => Err(err),
            Ok(x_hat) => match is_type(g, ctx, r, xt) {
                Err(err) => Err(err),
                Ok(a_out) => match val_in_ctx(g, ctx, a_out) {
                    Err(err) => Err(err),
                    Ok(av) => match is_type(g, bind_free(ctx, x_hat, av), extend_renaming(r, x, x_hat), body) {
                        Err(err) => Err(err),
                        Ok(b_out) => Ok((x_hat, a_out, b_out)),
                    },
                },
            },
        }
    }
}

/// `(f a b ...)`: the function is synthesized, then applied to each argument
/// in turn.
pub open spec fn synth_app_star(f: nat, ctx: Ctx, r: Renaming, g: Core, args: CoreList) -> Result<
    (Core, Core),
    Error,
>
    decreases f, 0nat,
{
    if f == 0 {
        Err(Error::OutOfFuel)
    } else {
        match synth((f - 1) as nat, ctx, r, g) {
            Err(err) => Err(err),
            Ok((t, g_out)) => apply_args((f - 1) as nat, ctx, r, t, g_out, args),
        }
    }
}

/// Applies the elaborated function `rator_out` of type `t` to `args`.
pub open spec fn apply_args(
    f: nat,
    ctx: Ctx,
    r: Renaming,
    t: Core,
    rator_out: Core,
    args: CoreList,
) -> Result<(Core, Core), Error>
    decreases f, 0nat,
{
    if f == 0 {
        Err(Error::OutOfFuel)
    } else {
        let g = (f - 1) as nat;
        match args {
            CoreList::Empty => Ok((t, rator_out)),
            CoreList::More(a, rest) => match val_in_ctx(g, ctx, t) {
                Err(err) => Err(err),
                Ok(tv) => match tv {
                    Value::Pi { arg_type, res_type, .. } => match check(g, ctx, r, *a, *arg_type) {
                        Err(err) => Err(err),
                        Ok(a_out) => match val_in_ctx(g, ctx, a_out) {
                            Err(err) => Err(err),
                            Ok(av) => match closure_val_of(g, *res_type, av) {
                                Err(err) => Err(err),
                                Ok(rt) => match read_back_type(g, ctx, rt) {
                                    Err(err) => Err(err),
                                    Ok(t2) => apply_args(g, ctx, r, t2, ap(rator_out, a_out), *rest),
                                },
                            },
                        },
                    },
                    _ => match read_back_type(g, ctx, tv) {
                        Err(err) => Err(err),
                        Ok(tc) => Err(Error::NotAFunctionType(tc)),
                    },
                },
            },
        }
    }
}

/// A variable's type is its type in the context, after renaming.
pub open spec fn synth_ref(f: nat, ctx: Ctx, r: Renaming, x: Ref) -> Result<(Core, Core), Error>
    decreases f, 0nat,
{
    if f == 0 {
        Err(Error::OutOfFuel)
    } else {
        let real_x = rename(r, x.0);
        match var_type(ctx, real_x) {
            Err(err) => Err(err),
            Ok(xtv) => match read_back_type((f - 1) as nat, ctx, xtv) {
                Err(err) => Err(err),
                Ok(t) => Ok((t, Core::Ref(Ref(real_x)))),
            },
        }
    }
}

/// `(Σ ((x A)) D)` is a type when `A` is and `D` is under `x : A`.
pub open spec fn synth_sigma(f: nat, ctx: Ctx, r: Renaming, s: Sigma) -> Result<(Core, Core), Error>
    decreases f, 0nat,
{
    if f == 0 {
        Err(Error::OutOfFuel)
    } else {
        match check_with_fresh_binding((f - 1) as nat, ctx, r, s.arg_name, *s.car_type, *s.cdr_type) {
            Err(err) => Err(err),
            Ok((x_hat, a_out, d_out)) => Ok((Core::Universe, sigma_c(x_hat, a_out, d_out))),
        }
    }
}

/// `(Σ ((x A) ...) D)` as nested one-binder Σ types.
pub open spec fn synth_sigma_star(f: nat, ctx: Ctx, r: Renaming, bs: BinderList, d: Core) -> Result<
    (Core, Core),
    Error,
>
    decreases f, 0nat,
{
    if f == 0 {
        Err(Error::OutOfFuel)
    } else {
        let g = (f - 1) as nat;
        match bs {
            BinderList::Empty => Err(Error::Stuck),
            BinderList::More(x, a, more) => match *more {
                BinderList::Empty => synth(g, ctx, r, sigma_c(x, *a, d)),
                _ => match check_with_fresh_binding(g, ctx, r, x, *a, Core::SigmaStar(*more, Box::new(d))) {
                    Err(err) => Err(err),
                    Ok((x_hat, a_out, d_out)) => Ok((Core::Universe, sigma_c(x_hat, a_out, d_out))),
                },
            },
        }
    }
}

/// `(Pair A D)` as a Σ type whose second part does not depend on the first.
pub open spec fn synth_pair(f: nat, ctx: Ctx, r: Renaming, a: Core, d: Core) -> Result<
    (Core, Core),
    Error,
>
    decreases f, 0nat,
{
    if f == 0 {
        Err(Error::OutOfFuel)
    } else {
        let g = (f - 1) as nat;
        match ctx_fresh(ctx, sym("a"@)) {
            Err(err) => Err(err),
            Ok(x) => match check(g, ctx, r, a, Value::Universe) {
                Err(err) => Err(err),
                Ok(a_out) => match val_in_ctx(g, ctx, a_out) {
                    Err(err) => Err(err),
                    Ok(av) => match check(g, bind_free(ctx, x, av), r, d, Value::Universe) {
                        Err(err) => Err(err),
                        Ok(d_out) => Ok((Core::Universe, sigma_c(x, a_out, d_out))),
                    },
                },
            },
        }
    }
}

/// A term's synthesized type, as a value, with its elaborated form.
pub open spec fn synth_value(f: nat, ctx: Ctx, r: Renaming, e: Core) -> Result<
    (Value, Core),
    Error,
>
    decreases f, 0nat,
{
    if f == 0 {
        Err(Error::OutOfFuel)
    } else {
        let g = (f - 1) as nat;
        match synth(g, ctx, r, e) {
            Err(err) => Err(err),
            Ok((t, e_out)) => match val_in_ctx(g, ctx, t) {
                Err(err) => Err(err),
                Ok(tv) => Ok((tv, e_out)),
            },
        }
    }
}

/// `(car p)` has the first type of `p`'s Σ type.
pub open spec fn synth_car(f: nat, ctx: Ctx, r: Renaming, p: Core) -> Result<(Core, Core), Error>
    decreases f, 0nat,
{
    if f == 0 {
        Err(Error::OutOfFuel)
    } else {
        let g = (f - 1) as nat;
        match synth_value(g, ctx, r, p) {
            Err(err) => Err(err),
            Ok((tv, p_out)) => match tv {
                Value::Sigma { car_type, .. } => match read_back_type(g, ctx, *car_type) {
                    Err(err) => Err(err),
                    Ok(a) => Ok((a, Core::Car(Box::new(p_out)))),
                },
                _ => match read_back_type(g, ctx, tv) {
                    Err(err) => Err(err),
                    Ok(tc) => Err(Error::NotASigmaType(tc)),
                },
            },
        }
    }
}

/// `(cdr p)` has the second type of `p`'s Σ type at `(car p)`.
pub open spec fn synth_cdr(f: nat, ctx: Ctx, r: Renaming, p: Core) -> Result<(Core, Core), Error>
    decreases f, 0nat,
{
    if f == 0 {
        Err(Error::OutOfFuel)
    } else {
        let g = (f - 1) as nat;
        match synth_value(g, ctx, r, p) {
            Err(err) => Err(err),
            Ok((tv, p_out)) => match tv {
                Value::Sigma { cdr_type, .. } => match val_in_ctx(g, ctx, p_out) {
                    Err(err) => Err(err),
                    Ok(pv) => match do_car(pv) {
                        Err(err) => Err(err),
                        Ok(a) => match closure_val_of(g, *cdr_type, a) {
                            Err(err) => Err(err),
                            Ok(dt) => match read_back_type(g, ctx, dt) {
                                Err(err) => Err(err),
                                Ok(d) => Ok((d, Core::Cdr(Box::new(p_out)))),
                            },
                        },
                    },
                },
                _ => match read_back_type(g, ctx, tv) {
                    Err(err) => Err(err),
                    Ok(tc) => Err(Error::NotASigmaType(tc)),
                },
            },
        }
    }
}

/// `(List E)` is a type when `E` is.
pub open spec fn synth_list(f: nat, ctx: Ctx, r: Renaming, t: Core) -> Result<(Core, Core), Error>
    decreases f, 0nat,
{
    if f == 0 {
        Err(Error::OutOfFuel)
    } else {
        match check((f - 1) as nat, ctx, r, t, Value::Universe) {
            Err(err) => Err(err),
            Ok(e_out) => Ok((Core::Universe, Core::List(Box::new(e_out)))),
        }
    }
}

/// `(:: h t)`: the entry type comes from `h`.
pub open spec fn synth_list_cons(f: nat, ctx: Ctx, r: Renaming, h: Core, t: Core) -> Result<
    (Core, Core),
    Error,
>
    decreases f, 0nat,
{
    if f == 0 {
        Err(Error::OutOfFuel)
    } else {
        let g = (f - 1) as nat;
        match synth(g, ctx, r, h) {
            Err(err) => Err(err),
            Ok((et, e_out)) => {
                let lt = Core::List(Box::new(et));
                match val_in_ctx(g, ctx, lt) {
                    Err(err) => Err(err),
                    Ok(ltv) => match check(g, ctx, r, t, ltv) {
                        Err(err) => Err(err),
                        Ok(es_out) => Ok((lt, Core::ListCons(Box::new(e_out), Box::new(es_out)))),
                    },
                }
            },
        }
    }
}

/// The type of `rec-List`'s step in elaboration:
/// `(Π ((_e E)) (Π ((_es (List E))) (Π ((_ih bt)) bt)))`.
pub open spec fn rec_list_step_check_type(etv: Value, ltv: Value, btv: Value) -> Value {
    pi_v(
        sym("_e"@),
        etv,
        crate::model::eval::capture2(
            sym("_e"@),
            ltv,
            btv,
            pi_c(
                sym("_es"@),
                crate::model::eval::rf(crate::model::eval::captured()),
                pi_c(
                    sym("_ih"@),
                    crate::model::eval::rf(crate::model::eval::captured2()),
                    crate::model::eval::rf(crate::model::eval::captured2()),
                ),
            ),
        ),
    )
}

/// `rec-List` as written: the base's type is the result type.
pub open spec fn synth_rec_list(f: nat, ctx: Ctx, r: Renaming, w: RecList) -> Result<
    (Core, Core),
    Error,
>
    decreases f, 0nat,
{
    if f == 0 {
        Err(Error::OutOfFuel)
    } else {
        let g = (f - 1) as nat;
        match w.base {
            MaybeTyped::The(_, _) => Err(Error::NotSupported),
            MaybeTyped::Plain(b) => match synth_value(g, ctx, r, *w.target) {
                Err(err) => Err(err),
                Ok((tgt_tv, tgt_out)) => match tgt_tv {
                    Value::List(etv) => match synth(g, ctx, r, *b) {
                        Err(err) => Err(err),
                        Ok((bt_out, b_out)) => match val_in_ctx(g, ctx, bt_out) {
                            Err(err) => Err(err),
                            Ok(btv) => match check(
                                g,
                                ctx,
                                r,
                                *w.step,
                                rec_list_step_check_type(*etv, tgt_tv, btv),
                            ) {
                                Err(err) => Err(err),
                                Ok(s_out) => {
                                    let (t, b2, s) = ternary(tgt_out, bt_out, b_out, s_out);
                                    Ok((bt_out, Core::RecList(RecList { target: t, base: b2, step: s })))
                                },
                            },
                        },
                    },
                    _ => match read_back_type(g, ctx, tgt_tv) {
                        Err(err) => Err(err),
                        Ok(tc) => Err(Error::NotAListType(tc)),
                    },
                },
            },
        }
    }
}

/// The type of `ind-List`'s step in elaboration:
/// `(Π ((e E)) (Π ((es (List E))) (Π ((_ih (mot es))) (mot (:: e es)))))`.
pub open spec fn ind_list_step_check_type(etv: Value, ltv: Value, mv: Value) -> Value {
    let e = sym("e"@);
    let es = sym("es"@);
    pi_v(
        e,
        etv,
        crate::model::eval::capture2(
            e,
            ltv,
            mv,
            pi_c(
                es,
                crate::model::eval::rf(crate::model::eval::captured()),
                pi_c(
                    sym("_ih"@),
                    ap(crate::model::eval::rf(crate::model::eval::captured2()), crate::model::eval::rf(es)),
                    ap(
                        crate::model::eval::rf(crate::model::eval::captured2()),
                        Core::ListCons(
                            Box::new(crate::model::eval::rf(e)),
                            Box::new(crate::model::eval::rf(es)),
                        ),
                    ),
                ),
            ),
        ),
    )
}

/// `ind-List`: the motive is a family over the target's list type.
pub open spec fn synth_ind_list(f: nat, ctx: Ctx, r: Renaming, w: IndList) -> Result<
    (Core, Core),
    Error,
>
    decreases f, 0nat,
{
    if f == 0 {
        Err(Error::OutOfFuel)
    } else {
        let g = (f - 1) as nat;
        match synth_value(g, ctx, r, *w.target) {
            Err(err) => Err(err),
            Ok((tgt_tv, tgt_out)) => match tgt_tv {
                Value::List(etv) => match check(
                    g,
                    ctx,
                    r,
                    *w.motive,
                    pi_v(
                        sym("xs"@),
                        tgt_tv,
                        Closure { env: ctx_to_env(ctx), var: sym("xs"@), expr: Core::Universe },
                    ),
                ) {
                    Err(err) => Err(err),
                    Ok(mot_out) => match val_in_ctx(g, ctx, mot_out) {
                        Err(err) => Err(err),
                        Ok(mv) => match do_ap(g, mv, Value::Nil) {
                            Err(err) => Err(err),
                            Ok(bt) => match check(g, ctx, r, *w.base, bt) {
                                Err(err) => Err(err),
                                Ok(b_out) => match check(
                                    g,
                                    ctx,
                                    r,
                                    *w.step,
                                    ind_list_step_check_type(*etv, tgt_tv, mv),
                                ) {
                                    Err(err) => Err(err),
                                    Ok(s_out) => Ok(
                                        (
                                            ap(mot_out, tgt_out),
                                            Core::IndList(
                                                IndList {
                                                    target: Box::new(tgt_out),
                                                    motive: Box::new(mot_out),
                                                    base: Box::new(b_out),
                                                    step: Box::new(s_out),
                                                },
                                            ),
                                        ),
                                    ),
                                },
                            },
                        },
                    },
                },
                _ => match read_back_type(g, ctx, tgt_tv) {
                    Err(err) => Err(err),
                    Ok(tc) => Err(Error::NotAListType(tc)),
                },
            },
        }
    }
}

/// `(Vec E n)` is a type when `E` is a type and `n` a `Nat`.
pub open spec fn synth_vector(f: nat, ctx: Ctx, r: Renaming, t: Core, n: Core) -> Result<
    (Core, Core),
    Error,
>
    decreases f, 0nat,
{
    if f == 0 {
        Err(Error::OutOfFuel)
    } else {
        let g = (f - 1) as nat;
        match check(g, ctx, r, t, Value::Universe) {
            Err(err) => Err(err),
            Ok(e_out) => match check(g, ctx, r, n, Value::Nat) {
                Err(err) => Err(err),
                Ok(len_out) => Ok((Core::Universe, Core::Vector(Box::new(e_out), Box::new(len_out)))),
            },
        }
    }
}

/// The entry type and the predecessor of the length of a non-empty vector
/// type.
pub open spec fn expect_non_empty_vec(f: nat, ctx: Ctx, tv: Value) -> Result<(Value, Value), Error>
    decreases f, 0nat,
{
    if f == 0 {
        Err(Error::OutOfFuel)
    } else {
        let g = (f - 1) as nat;
        match tv {
            Value::Vector(etv, len) => match *len {
                Value::Add1(l) => Ok((*etv, *l)),
                _ => match read_back(g, ctx, Value::Nat, *len) {
                    Err(err) => Err(err),
                    Ok(lc) => Err(Error::LengthZero(lc)),
                },
            },
            _ => match read_back_type(g, ctx, tv) {
                Err(err) => Err(err),
                Ok(tc) => Err(Error::NotAVecType(tc)),
            },
        }
    }
}

/// `(head v)` has the entry type of a non-empty vector.
pub open spec fn synth_head(f: nat, ctx: Ctx, r: Renaming, v: Core) -> Result<(Core, Core), Error>
    decreases f, 0nat,
{
    if f == 0 {
        Err(Error::OutOfFuel)
    } else {
        let g = (f - 1) as nat;
        match synth_value(g, ctx, r, v) {
            Err(err) => Err(err),
            Ok((es_tv, es_out)) => match expect_non_empty_vec(g, ctx, es_tv) {
                Err(err) => Err(err),
                Ok((etv, _)) => match read_back_type(g, ctx, etv) {
                    Err(err) => Err(err),
                    Ok(et) => Ok((et, Core::Head(Box::new(es_out)))),
                },
            },
        }
    }
}

/// `(tail v)` is a vector one entry shorter.
pub open spec fn synth_tail(f: nat, ctx: Ctx, r: Renaming, v: Core) -> Result<(Core, Core), Error>
    decreases f, 0nat,
{
    if f == 0 {
        Err(Error::OutOfFuel)
    } else {
        let g = (f - 1) as nat;
        match synth_value(g, ctx, r, v) {
            Err(err) => Err(err),
            Ok((es_tv, es_out)) => match expect_non_empty_vec(g, ctx, es_tv) {
                Err(err) => Err(err),
                Ok((etv, l1)) => match read_back_type(g, ctx, etv) {
                    Err(err) => Err(err),
                    Ok(et) => match read_back(g, ctx, Value::Nat, l1) {
                        Err(err) => Err(err),
                        Ok(lc) => Ok(
                            (
                                Core::Vector(Box::new(et), Box::new(lc)),
                                Core::Tail(Box::new(es_out)),
                            ),
                        ),
                    },
                },
            },
        }
    }
}

/// The motive, base and step of `ind-Vec`, checked for entry type `etv`.
pub open spec fn ind_vec_parts(f: nat, ctx: Ctx, r: Renaming, w: IndVec, etv: Value) -> Result<
    (Core, Core, Core),
    Error,
>
    decreases f, 0nat,
{
    if f == 0 {
        Err(Error::OutOfFuel)
    } else {
        let g = (f - 1) as nat;
        match check(g, ctx, r, *w.motive, ind_vec_motive_type(etv)) {
            Err(err) => Err(err),
            Ok(mot_out) => match val_in_ctx(g, ctx, mot_out) {
                Err(err) => Err(err),
                Ok(mv) => match do_ap(g, mv, Value::Zero) {
                    Err(err) => Err(err),
                    Ok(m0) => match do_ap(g, m0, Value::VecNil) {
                        Err(err) => Err(err),
                        Ok(bt) => match check(g, ctx, r, *w.base, bt) {
                            Err(err) => Err(err),
                            Ok(b_out) => match check(g, ctx, r, *w.step, ind_vec_step_type(etv, mv)) {
                                Err(err) => Err(err),
                                Ok(s_out) => Ok((mot_out, b_out, s_out)),
                            },
                        },
                    },
                },
            },
        }
    }
}

/// `ind-Vec`: the length must match the target's type.
pub open spec fn synth_ind_vec(f: nat, ctx: Ctx, r: Renaming, w: IndVec) -> Result<
    (Core, Core),
    Error,
>
    decreases f, 0nat,
{
    if f == 0 {
        Err(Error::OutOfFuel)
    } else {
        let g = (f - 1) as nat;
        match check(g, ctx, r, *w.len, Value::Nat) {
            Err(err) => Err(err),
            Ok(len_out) => match val_in_ctx(g, ctx, len_out) {
                Err(err) => Err(err),
                Ok(len_v) => match synth_value(g, ctx, r, *w.target) {
                    Err(err) => Err(err),
                    Ok((vec_tv, vec_out)) => match vec_tv {
                        Value::Vector(etv, len2) => match convert(g, ctx, Value::Nat, len_v, *len2) {
                            Err(err) => Err(err),
                            Ok(_) => match ind_vec_parts(g, ctx, r, w, *etv) {
                                Err(err) => Err(err),
                                Ok((mot_out, b_out, s_out)) => Ok(
                                    (
                                        ap(ap(mot_out, len_out), vec_out),
                                        Core::IndVec(
                                            IndVec {
                                                len: Box::new(len_out),
                                                target: Box::new(vec_out),
                                                motive: Box::new(mot_out),
                                                base: Box::new(b_out),
                                                step: Box::new(s_out),
                                            },
                                        ),
                                    ),
                                ),
                            },
                        },
                        _ => match read_back_type(g, ctx, vec_tv) {
                            Err(err) => Err(err),
                            Ok(tc) => Err(Error::NotAVecType(tc)),
                        },
                    },
                },
            },
        }
    }
}

/// `A` as a type, then `from` and `to` checked against it.
pub open spec fn equal_parts(f: nat, ctx: Ctx, r: Renaming, q: Equal, a_out: Core) -> Result<
    Core,
    Error,
>
    decreases f, 0nat,
{
    if f == 0 {
        Err(Error::OutOfFuel)
    } else {
        let g = (f - 1) as nat;
        match val_in_ctx(g, ctx, a_out) {
            Err(err) => Err(err),
            Ok(av) => match check(g, ctx, r, *q.from, av) {
                Err(err) => Err(err),
                Ok(from_out) => match check(g, ctx, r, *q.to, av) {
                    Err(err) => Err(err),
                    Ok(to_out) => Ok(
                        Core::Equal(
                            Equal {
                                typ: Box::new(a_out),
                                from: Box::new(from_out),
                                to: Box::new(to_out),
                            },
                        ),
                    ),
                },
            },
        }
    }
}

/// `(= A from to)` is a type when `A` is and both ends have type `A`.
pub open spec fn synth_equal(f: nat, ctx: Ctx, r: Renaming, q: Equal) -> Result<(Core, Core), Error>
    decreases f, 0nat,
{
    if f == 0 {
        Err(Error::OutOfFuel)
    } else {
        let g = (f - 1) as nat;
        match check(g, ctx, r, *q.typ, Value::Universe) {
            Err(err) => Err(err),
            Ok(a_out) => match equal_parts(g, ctx, r, q, a_out) {
                Err(err) => Err(err),
                Ok(e_out) => Ok((Core::Universe, e_out)),
            },
        }
    }
}

/// `replace`: the base has the motive's type at `from`, the result at `to`.
pub open spec fn synth_replace(f: nat, ctx: Ctx, r: Renaming, w: Replace) -> Result<
    (Core, Core),
    Error,
>
    decreases f, 0nat,
{
    if f == 0 {
        Err(Error::OutOfFuel)
    } else {
        let g = (f - 1) as nat;
        match synth(g, ctx, r, *w.target) {
            Err(err) => Err(err),
            Ok((tgt_t_out, tgt_out)) => match val_in_ctx(g, ctx, tgt_t_out) {
                Err(err) => Err(err),
                Ok(tv) => match tv {
                    Value::Equal { typ, from, to } => match check(
                        g,
                        ctx,
                        r,
                        *w.motive,
                        motive_type(sym("_x"@), *typ),
                    ) {
                        Err(err) => Err(err),
                        Ok(mot_out) => match val_in_ctx(g, ctx, mot_out) {
                            Err(err) => Err(err),
                            Ok(mv) => match do_ap(g, mv, *from) {
                                Err(err) => Err(err),
                                Ok(bt) => match check(g, ctx, r, *w.base, bt) {
                                    Err(err) => Err(err),
                                    Ok(b_out) => match do_ap(g, mv, *to) {
                                        Err(err) => Err(err),
                                        Ok(rt) => match read_back_type(g, ctx, rt) {
                                            Err(err) => Err(err),
                                            Ok(rc) => Ok(
                                                (
                                                    rc,
                                                    Core::Replace(
                                                        Replace {
                                                            target: Box::new(tgt_out),
                                                            motive: Box::new(mot_out),
                                                            base: Box::new(b_out),
                                                        },
                                                    ),
                                                ),
                                            ),
                                        },
                                    },
                                },
                            },
                        },
                    },
                    _ => Err(Error::NotAnEqualType(tgt_t_out)),
                },
            },
        }
    }
}

/// `cong` once its function's argument type is known to match: the
/// equality of the function's results, and the elaborated `cong`.
pub open spec fn cong_result(
    f: nat,
    ctx: Ctx,
    from: Value,
    to: Value,
    c: Closure,
    p_out: Core,
    g_out: Core,
) -> Result<(Core, Core), Error>
    decreases f, 0nat,
{
    if f == 0 {
        Err(Error::OutOfFuel)
    } else {
        let g = (f - 1) as nat;
        match closure_val_of(g, c, from) {
            Err(err) => Err(err),
            Ok(cv) => match val_in_ctx(g, ctx, g_out) {
                Err(err) => Err(err),
                Ok(fv) => match read_back_type(g, ctx, cv) {
                    Err(err) => Err(err),
                    Ok(ct) => match do_ap(g, fv, from) {
                        Err(err) => Err(err),
                        Ok(fa) => match read_back(g, ctx, cv, fa) {
                            Err(err) => Err(err),
                            Ok(c1) => match do_ap(g, fv, to) {
                                Err(err) => Err(err),
                                Ok(ta) => match read_back(g, ctx, cv, ta) {
                                    Err(err) => Err(err),
                                    Ok(c2) => Ok(
                                        (
                                            Core::Equal(
                                                Equal {
                                                    typ: Box::new(ct),
                                                    from: Box::new(c1),
                                                    to: Box::new(c2),
                                                },
                                            ),
                                            Core::Cong2(
                                                Box::new(p_out),
                                                Box::new(ct),
                                                Box::new(g_out),
                                            ),
                                        ),
                                    ),
                                },
                            },
                        },
                    },
                },
            },
        }
    }
}

/// `(cong p f)`: `p` proves an equality and `f` is a function on its type.
pub open spec fn synth_cong(f: nat, ctx: Ctx, r: Renaming, p: Core, fun: Core) -> Result<
    (Core, Core),
    Error,
>
    decreases f, 0nat,
{
    if f == 0 {
        Err(Error::OutOfFuel)
    } else {
        let g = (f - 1) as nat;
        match synth(g, ctx, r, p) {
            Err(err) => Err(err),
            Ok((p_t, p_out)) => match synth(g, ctx, r, fun) {
                Err(err) => Err(err),
                Ok((f_t, f_out)) => match val_in_ctx(g, ctx, p_t) {
                    Err(err) => Err(err),
                    Ok(p_tv) => match val_in_ctx(g, ctx, f_t) {
                        Err(err) => Err(err),
                        Ok(f_tv) => match p_tv {
                            Value::Equal { typ, from, to } => match f_tv {
                                Value::Pi { arg_type, res_type, .. } => match same_type(
                                    g,
                                    ctx,
                                    *typ,
                                    *arg_type,
                                ) {
                                    Err(err) => Err(err),
                                    Ok(_) => cong_result(g, ctx, *from, *to, *res_type, p_out, f_out),
                                },
                                _ => match read_back_type(g, ctx, f_tv) {
                                    Err(err) => Err(err),
                                    Ok(tc) => Err(Error::NotAFunctionType(tc)),
                                },
                            },
                            _ => match read_back_type(g, ctx, p_tv) {
                                Err(err) => Err(err),
                                Ok(tc) => Err(Error::NotAnEqualType(tc)),
                            },
                        },
                    },
                },
            },
        }
    }
}

/// `(symm p)` proves `p`'s equality with its ends swapped.
pub open spec fn synth_symm(f: nat, ctx: Ctx, r: Renaming, p: Core) -> Result<(Core, Core), Error>
    decreases f, 0nat,
{
    if f == 0 {
        Err(Error::OutOfFuel)
    } else {
        let g = (f - 1) as nat;
        match synth_value(g, ctx, r, p) {
            Err(err) => Err(err),
            Ok((tv, p_out)) => match tv {
                Value::Equal { typ, from, to } => match read_back_type(g, ctx, *typ) {
                    Err(err) => Err(err),
                    Ok(ac) => match read_back(g, ctx, *typ, *to) {
                        Err(err) => Err(err),
                        Ok(tc) => match read_back(g, ctx, *typ, *from) {
                            Err(err) => Err(err),
                            Ok(fc) => Ok(
                                (
                                    Core::Equal(
                                        Equal { typ: Box::new(ac), from: Box::new(tc), to: Box::new(fc) },
                                    ),
                                    Core::Symm(Box::new(p_out)),
                                ),
                            ),
                        },
                    },
                },
                _ => match read_back_type(g, ctx, tv) {
                    Err(err) => Err(err),
                    Ok(tc) => Err(Error::NotAnEqualType(tc)),
                },
            },
        }
    }
}

/// `(Either L R)` is a type when both sides are.
pub open spec fn synth_either(f: nat, ctx: Ctx, r: Renaming, l: Core, rt: Core) -> Result<
    (Core, Core),
    Error,
>
    decreases f, 0nat,
{
    if f == 0 {
        Err(Error::OutOfFuel)
    } else {
        let g = (f - 1) as nat;
        match check(g, ctx, r, l, Value::Universe) {
            Err(err) => Err(err),
            Ok(l_out) => match check(g, ctx, r, rt, Value::Universe) {
                Err(err) => Err(err),
                Ok(r_out) => Ok((Core::Universe, Core::Either(Box::new(l_out), Box::new(r_out)))),
            },
        }
    }
}

/// `ind-Either`: each branch maps its side into the motive.
pub open spec fn synth_ind_either(f: nat, ctx: Ctx, r: Renaming, w: IndEither) -> Result<
    (Core, Core),
    Error,
>
    decreases f, 0nat,
{
    if f == 0 {
        Err(Error::OutOfFuel)
    } else {
        let g = (f - 1) as nat;
        match synth_value(g, ctx, r, *w.target) {
            Err(err) => Err(err),
            Ok((tgt_tv, tgt_out)) => match tgt_tv {
                Value::Either(ltv, rtv) => match check(g, ctx, r, *w.motive, motive_type(sym("x"@), tgt_tv)) {
                    Err(err) => Err(err),
                    Ok(mot_out) => match val_in_ctx(g, ctx, mot_out) {
                        Err(err) => Err(err),
                        Ok(mv) => match check(g, ctx, r, *w.left, either_branch_type(*ltv, mv, true)) {
                            Err(err) => Err(err),
                            Ok(l_out) => match check(g, ctx, r, *w.right, either_branch_type(*rtv, mv, false)) {
                                Err(err) => Err(err),
                                Ok(r_out) => Ok(
                                    (
                                        ap(mot_out, tgt_out),
                                        Core::IndEither(
                                            IndEither {
                                                target: Box::new(tgt_out),
                                                motive: Box::new(mot_out),
                                                left: Box::new(l_out),
                                                right: Box::new(r_out),
                                            },
                                        ),
                                    ),
                                ),
                            },
                        },
                    },
                },
                _ => match read_back_type(g, ctx, tgt_tv) {
                    Err(err) => Err(err),
                    Ok(tc) => Err(Error::NotAnEitherType(tc)),
                },
            },
        }
    }
}

/// `ind-Absurd`: the target has type `Absurd`; the motive is the result type.
pub open spec fn synth_ind_absurd(f: nat, ctx: Ctx, r: Renaming, w: IndAbsurd) -> Result<
    (Core, Core),
    Error,
>
    decreases f, 0nat,
{
    if f == 0 {
        Err(Error::OutOfFuel)
    } else {
        let g = (f - 1) as nat;
        match check(g, ctx, r, *w.target, Value::Absurd) {
            Err(err) => Err(err),
            Ok(tgt_out) => match check(g, ctx, r, *w.motive, Value::Universe) {
                Err(err) => Err(err),
                Ok(mot_out) => Ok(
                    (
                        mot_out,
                        Core::IndAbsurd(IndAbsurd { target: Box::new(tgt_out), motive: Box::new(mot_out) }),
                    ),
                ),
            },
        }
    }
}

/// `λ` against a Π type: the body checked against the result type at a fresh variable.
pub open spec fn check_lambda(f: nat, ctx: Ctx, r: Renaming, l: Lambda, tv: Value) -> Result<
    Core,
    Error,
>
    decreases f, 0nat,
{
    if f == 0 {
        Err(Error::OutOfFuel)
    } else {
        let g = (f - 1) as nat;
        match tv {
            Value::Pi { arg_type, res_type, .. } => match ctx_fresh(ctx, l.arg_name) {
                Err(err) => Err(err),
                Ok(x_hat) => match closure_val_of(g, *res_type, neu(*arg_type, Neutral::Var(x_hat))) {
                    Err(err) => Err(err),
                    Ok(bt) => match check(
                        g,
                        bind_free(ctx, x_hat, *arg_type),
                        extend_renaming(r, l.arg_name, x_hat),
                        *l.body,
                        bt,
                    ) {
                        Err(err) => Err(err),
                        Ok(b_out) => Ok(Core::Lambda(Lambda { arg_name: x_hat, body: Box::new(b_out) })),
                    },
                },
            },
            _ => match read_back_type(g, ctx, tv) {
                Err(err) => Err(err),
                Ok(tc) => Err(Error::NotAFunctionType(tc)),
            },
        }
    }
}

/// `(λ (x ...) b)` checks as nested one-parameter λs.
pub open spec fn check_lambda_star(
    f: nat,
    ctx: Ctx,
    r: Renaming,
    ps: SymbolList,
    b: Core,
    tv: Value,
) -> Result<Core, Error>
    decreases f, 0nat,
{
    if f == 0 {
        Err(Error::OutOfFuel)
    } else {
        let g = (f - 1) as nat;
        match ps {
            SymbolList::Empty => Err(Error::NotSupported),
            SymbolList::More(x, rest) => match *rest {
                SymbolList::Empty => check_lambda(g, ctx, r, Lambda { arg_name: x, body: Box::new(b) }, tv),
                _ => check_lambda(
                    g,
                    ctx,
                    r,
                    Lambda { arg_name: x, body: Box::new(Core::LambdaStar(*rest, Box::new(b))) },
                    tv,
                ),
            },
        }
    }
}

/// `(cons a d)` against a Σ type.
pub open spec fn check_cons(f: nat, ctx: Ctx, r: Renaming, a: Core, d: Core, tv: Value) -> Result<
    Core,
    Error,
>
    decreases f, 0nat,
{
    if f == 0 {
        Err(Error::OutOfFuel)
    } else {
        let g = (f - 1) as nat;
        match tv {
            Value::Sigma { car_type, cdr_type, .. } => match check(g, ctx, r, a, *car_type) {
                Err(err) => Err(err),
                Ok(a_out) => match val_in_ctx(g, ctx, a_out) {
                    Err(err) => Err(err),
                    Ok(av) => match closure_val_of(g, *cdr_type, av) {
                        Err(err) => Err(err),
                        Ok(dt) => match check(g, ctx, r, d, dt) {
                            Err(err) => Err(err),
                            Ok(d_out) => Ok(Core::Cons(Box::new(a_out), Box::new(d_out))),
                        },
                    },
                },
            },
            _ => match read_back_type(g, ctx, tv) {
                Err(err) => Err(err),
                Ok(tc) => Err(Error::NotASigmaType(tc)),
            },
        }
    }
}

/// `nil` checks against any list type.
pub open spec fn check_nil(f: nat, ctx: Ctx, tv: Value) -> Result<Core, Error>
    decreases f, 0nat,
{
    if f == 0 {
        Err(Error::OutOfFuel)
    } else {
        match tv {
            Value::List(_) => Ok(Core::Nil),
            _ => match read_back_type((f - 1) as nat, ctx, tv) {
                Err(err) => Err(err),
                Ok(tc) => Err(Error::NotAListType(tc)),
            },
        }
    }
}

/// `vecnil` checks against vector types of length `zero`.
pub open spec fn check_vecnil(f: nat, ctx: Ctx, tv: Value) -> Result<Core, Error>
    decreases f, 0nat,
{
    if f == 0 {
        Err(Error::OutOfFuel)
    } else {
        let g = (f - 1) as nat;
        match tv {
            Value::Vector(_, n) => match *n {
                Value::Zero => Ok(Core::VecNil),
                _ => match read_back(g, ctx, Value::Nat, *n) {
                    Err(err) => Err(err),
                    Ok(nc) => Err(Error::LengthNotZero(nc)),
                },
            },
            _ => match read_back_type(g, ctx, tv) {
                Err(err) => Err(err),
                Ok(tc) => Err(Error::NotAVecType(tc)),
            },
        }
    }
}

/// `(vec:: h t)` against a vector type of length `(add1 l)`.
pub open spec fn check_vector_cons(f: nat, ctx: Ctx, r: Renaming, h: Core, t: Core, tv: Value) -> Result<
    Core,
    Error,
>
    decreases f, 0nat,
{
    if f == 0 {
        Err(Error::OutOfFuel)
    } else {
        let g = (f - 1) as nat;
        match expect_non_empty_vec(g, ctx, tv) {
            Err(err) => Err(err),
            Ok((etv, l1)) => match check(g, ctx, r, h, etv) {
                Err(err) => Err(err),
                Ok(h_out) => match check(g, ctx, r, t, Value::Vector(Box::new(etv), Box::new(l1))) {
                    Err(err) => Err(err),
                    Ok(t_out) => Ok(Core::VectorCons(Box::new(h_out), Box::new(t_out))),
                },
            },
        }
    }
}

/// `(same x)` against `(= A from to)`: `x` is the same as both ends.
pub open spec fn check_same(f: nat, ctx: Ctx, r: Renaming, x: Core, tv: Value) -> Result<Core, Error>
    decreases f, 0nat,
{
    if f == 0 {
        Err(Error::OutOfFuel)
    } else {
        let g = (f - 1) as nat;
        match tv {
            Value::Equal { typ, from, to } => match check(g, ctx, r, x, *typ) {
                Err(err) => Err(err),
                Ok(c_out) => match val_in_ctx(g, ctx, c_out) {
                    Err(err) => Err(err),
                    Ok(v) => match convert(g, ctx, *typ, *from, v) {
                        Err(err) => Err(err),
                        Ok(_) => match convert(g, ctx, *typ, *to, v) {
                            Err(err) => Err(err),
                            Ok(_) => Ok(Core::Same(Box::new(c_out))),
                        },
                    },
                },
            },
            _ => match read_back_type(g, ctx, tv) {
                Err(err) => Err(err),
                Ok(tc) => Err(Error::NotAnEqualType(tc)),
            },
        }
    }
}

/// `(left x)` against `(Either L R)`: `x` has type `L`.
pub open spec fn check_left(f: nat, ctx: Ctx, r: Renaming, x: Core, tv: Value) -> Result<Core, Error>
    decreases f, 0nat,
{
    if f == 0 {
        Err(Error::OutOfFuel)
    } else {
        let g = (f - 1) as nat;
        match tv {
            Value::Either(ltv, _) => match check(g, ctx, r, x, *ltv) {
                Err(err) => Err(err),
                Ok(l_out) => Ok(Core::Left(Box::new(l_out))),
            },
            _ => match read_back_type(g, ctx, tv) {
                Err(err) => Err(err),
                Ok(tc) => Err(Error::NotAnEitherType(tc)),
            },
        }
    }
}

/// `(right x)` against `(Either L R)`: `x` has type `R`.
pub open spec fn check_right(f: nat, ctx: Ctx, r: Renaming, x: Core, tv: Value) -> Result<Core, Error>
    decreases f, 0nat,
{
    if f == 0 {
        Err(Error::OutOfFuel)
    } else {
        let g = (f - 1) as nat;
        match tv {
            Value::Either(_, rtv) => match check(g, ctx, r, x, *rtv) {
                Err(err) => Err(err),
                Ok(r_out) => Ok(Core::Right(Box::new(r_out))),
            },
            _ => match read_back_type(g, ctx, tv) {
                Err(err) => Err(err),
                Ok(tc) => Err(Error::NotAnEitherType(tc)),
            },
        }
    }
}

/// A hole checks against any type, which it records.
pub open spec fn check_todo(f: nat, ctx: Ctx, t: ToDo, tv: Value) -> Result<Core, Error>
    decreases f, 0nat,
{
    if f == 0 {
        Err(Error::OutOfFuel)
    } else {
        match read_back_type((f - 1) as nat, ctx, tv) {
            Err(err) => Err(err),
            Ok(ty) => Ok(Core::ToDo(ToDo { name: t.name, typ: Some(Box::new(ty)) })),
        }
    }
}

/// A Π term elaborated as a type.
pub open spec fn is_type_pi(f: nat, ctx: Ctx, r: Renaming, p: Pi) -> Result<Core, Error>
    decreases f, 0nat,
{
    if f == 0 {
        Err(Error::OutOfFuel)
    } else {
        match is_type_with_fresh_binding((f - 1) as nat, ctx, r, p.arg_name, *p.arg_type, *p.res_type) {
            Err(err) => Err(err),
            Ok((y, a_out, b_out)) => Ok(pi_c(y, a_out, b_out)),
        }
    }
}

/// `(Π ((x A) ...) B)` elaborated as nested one-binder Π types.
pub open spec fn is_type_pi_star(f: nat, ctx: Ctx, r: Renaming, bs: BinderList, res: Core) -> Result<
    Core,
    Error,
>
    decreases f, 0nat,
{
    if f == 0 {
        Err(Error::OutOfFuel)
    } else {
        let g = (f - 1) as nat;
        match bs {
            BinderList::Empty => Err(Error::NotSupported),
            BinderList::More(x, a, more) => {
                let body = match *more {
                    BinderList::Empty => res,
                    _ => Core::PiStar(*more, Box::new(res)),
                };
                match is_type_with_fresh_binding(g, ctx, r, x, *a, body) {
                    Err(err) => Err(err),
                    Ok((z, a_out, b_out)) => Ok(pi_c(z, a_out, b_out)),
                }
            },
        }
    }
}

/// `(-> A B ...)` elaborated as a Π type.
pub open spec fn is_type_fun(f: nat, ctx: Ctx, r: Renaming, ts: CoreList) -> Result<Core, Error>
    decreases f, 0nat,
{
    if f == 0 {
        Err(Error::OutOfFuel)
    } else {
        let g = (f - 1) as nat;
        match ts {
            CoreList::More(a, rest) => match *rest {
                CoreList::More(b, cs) => {
                    let binder_src = match *cs {
                        CoreList::Empty => *b,
                        _ => Core::AppStar(b, *cs),
                    };
                    let res_src = match *cs {
                        CoreList::Empty => *b,
                        _ => Core::Fun(CoreList::More(b, cs)),
                    };
                    match fresh_binder(ctx, binder_src, sym("x"@)) {
                        Err(err) => Err(err),
                        Ok(x) => match is_type(g, ctx, r, *a) {
                            Err(err) => Err(err),
                            Ok(a_out) => match val_in_ctx(g, ctx, a_out) {
                                Err(err) => Err(err),
                                Ok(av) => match is_type(g, bind_free(ctx, x, av), r, res_src) {
                                    Err(err) => Err(err),
                                    Ok(b_out) => Ok(pi_c(x, a_out, b_out)),
                                },
                            },
                        },
                    }
                },
                CoreList::Empty => Err(Error::NotSupported),
            },
            CoreList::Empty => Err(Error::NotSupported),
        }
    }
}

/// A Σ term elaborated as a type.
pub open spec fn is_type_sigma(f: nat, ctx: Ctx, r: Renaming, s: Sigma) -> Result<Core, Error>
    decreases f, 0nat,
{
    if f == 0 {
        Err(Error::OutOfFuel)
    } else {
        match is_type_with_fresh_binding((f - 1) as nat, ctx, r, s.arg_name, *s.car_type, *s.cdr_type) {
            Err(err) => Err(err),
            Ok((y, a_out, d_out)) => Ok(sigma_c(y, a_out, d_out)),
        }
    }
}

/// `(Σ ((x A) ...) D)` elaborated as a type.
pub open spec fn is_type_sigma_star(f: nat, ctx: Ctx, r: Renaming, bs: BinderList, d: Core) -> Result<
    Core,
    Error,
>
    decreases f, 0nat,
{
    if f == 0 {
        Err(Error::OutOfFuel)
    } else {
        let g = (f - 1) as nat;
        match bs {
            BinderList::Empty => Err(Error::NotSupported),
            BinderList::More(x, a, more) => match *more {
                BinderList::Empty => is_type(g, ctx, r, sigma_c(x, *a, d)),
                _ => match check_with_fresh_binding(g, ctx, r, x, *a, Core::SigmaStar(*more, Box::new(d))) {
                    Err(err) => Err(err),
                    Ok((z, a_out, d_out)) => Ok(sigma_c(z, a_out, d_out)),
                },
            },
        }
    }
}

/// `(Pair A D)` elaborated as a type, its binder fresh for `D`.
pub open spec fn is_type_pair(f: nat, ctx: Ctx, r: Renaming, a: Core, d: Core) -> Result<Core, Error>
    decreases f, 0nat,
{
    if f == 0 {
        Err(Error::OutOfFuel)
    } else {
        let g = (f - 1) as nat;
        match fresh_binder(ctx, d, sym("x"@)) {
            Err(err) => Err(err),
            Ok(x) => match is_type(g, ctx, r, a) {
                Err(err) => Err(err),
                Ok(a_out) => match val_in_ctx(g, ctx, a_out) {
                    Err(err) => Err(err),
                    Ok(av) => match is_type(g, bind_free(ctx, x, av), r, d) {
                        Err(err) => Err(err),
                        Ok(d_out) => Ok(sigma_c(x, a_out, d_out)),
                    },
                },
            },
        }
    }
}

/// `(List E)` elaborated as a type.
pub open spec fn is_type_list(f: nat, ctx: Ctx, r: Renaming, t: Core) -> Result<Core, Error>
    decreases f, 0nat,
{
    if f == 0 {
        Err(Error::OutOfFuel)
    } else {
        match is_type((f - 1) as nat, ctx, r, t) {
            Err(err) => Err(err),
            Ok(e_out) => Ok(Core::List(Box::new(e_out))),
        }
    }
}

/// `(Vec E n)` elaborated as a type.
pub open spec fn is_type_vector(f: nat, ctx: Ctx, r: Renaming, t: Core, n: Core) -> Result<
    Core,
    Error,
>
    decreases f, 0nat,
{
    if f == 0 {
        Err(Error::OutOfFuel)
    } else {
        let g = (f - 1) as nat;
        match is_type(g, ctx, r, t) {
            Err(err) => Err(err),
            Ok(e_out) => match check(g, ctx, r, n, Value::Nat) {
                Err(err) => Err(err),
                Ok(len_out) => Ok(Core::Vector(Box::new(e_out), Box::new(len_out))),
            },
        }
    }
}

/// `(= A from to)` elaborated as a type.
pub open spec fn is_type_equal(f: nat, ctx: Ctx, r: Renaming, q: Equal) -> Result<Core, Error>
    decreases f, 0nat,
{
    if f == 0 {
        Err(Error::OutOfFuel)
    } else {
        let g = (f - 1) as nat;
        match is_type(g, ctx, r, *q.typ) {
            Err(err) => Err(err),
            Ok(a_out) => equal_parts(g, ctx, r, q, a_out),
        }
    }
}

/// `(Either L R)` elaborated as a type.
pub open spec fn is_type_either(f: nat, ctx: Ctx, r: Renaming, l: Core, rt: Core) -> Result<
    Core,
    Error,
>
    decreases f, 0nat,
{
    if f == 0 {
        Err(Error::OutOfFuel)
    } else {
        let g = (f - 1) as nat;
        match is_type(g, ctx, r, l) {
            Err(err) => Err(err),
            Ok(l_out) => match is_type(g, ctx, r, rt) {
                Err(err) => Err(err),
                Ok(r_out) => Ok(Core::Either(Box::new(l_out), Box::new(r_out))),
            },
        }
    }
}

} // verus!
