//! Bidirectional elaboration: the dispatchers `synth`, `check` and
//! `is_type`, type and value comparison, and the helpers shared by the
//! type formers.
use vstd::prelude::*;
use crate::alpha::alpha_equiv;
use crate::model::typing as ty;
use crate::normalize::{DEFAULT_FUEL, read_back, read_back_type, val_in_ctx};
use crate::symbol::Symbol;
use crate::syntax::Core;
use crate::types::{
    absurd, annotation, atom, either, equality, functions, lists, natural, pairs, reference, todo,
    vectors,
};
use crate::value::{Ctx, Error, Renaming, Value};

verus! {

/// `Ok(())` when the two type values read back to α-equivalent types;
/// otherwise the two read-backs in a `NotTheSameType` error.
pub fn same_type(ctx: &Ctx, v1: &Value, v2: &Value, fuel: u64) -> (res: Result<(), Error>)
    ensures
        res == ty::same_type(fuel as nat, *ctx, *v1, *v2),
{
    if fuel == 0 {
        return Err(Error::OutOfFuel);
    }
    let c1 = read_back_type(ctx, v1, fuel - 1)?;
    let c2 = read_back_type(ctx, v2, fuel - 1)?;
    if alpha_equiv(&c1, &c2) {
        Ok(())
    } else {
        Err(Error::NotTheSameType(c1, c2))
    }
}

/// `Ok(())` when two values of type `tv` read back to α-equivalent terms;
/// otherwise the type and both read-backs in a `NotTheSame` error.
pub fn convert(ctx: &Ctx, tv: &Value, v1: &Value, v2: &Value, fuel: u64) -> (res: Result<(), Error>)
    ensures
        res == ty::convert(fuel as nat, *ctx, *tv, *v1, *v2),
{
    if fuel == 0 {
        return Err(Error::OutOfFuel);
    }
    let c1 = read_back(ctx, tv, v1, fuel - 1)?;
    let c2 = read_back(ctx, tv, v2, fuel - 1)?;
    if alpha_equiv(&c1, &c2) {
        Ok(())
    } else {
        let tc = read_back_type(ctx, tv, fuel - 1)?;
        Err(Error::NotTheSame(tc, c1, c2))
    }
}

/// The type of `e` and its elaborated form.
pub fn synth(ctx: &Ctx, r: &Renaming, e: &Core, fuel: u64) -> (res: Result<(Core, Core), Error>)
    ensures
        res == ty::synth(fuel as nat, *ctx, *r, *e),
    decreases fuel, 1nat,
{
    match e {
        Core::Invalid(s) => Err(Error::InvalidSyntax(s.clone())),
        Core::The(t) => annotation::synth_the(ctx, r, t, fuel),
        Core::Universe => Err(Error::UhasNoType),
        Core::Nat => Ok((Core::Universe, Core::Nat)),
        Core::Zero => Ok((Core::Nat, Core::Zero)),
        Core::Add1(n) => natural::synth_add1(ctx, r, n, fuel),
        Core::WhichNat(w) => natural::synth_which_nat(ctx, r, w, fuel),
        Core::IterNat(w) => natural::synth_iter_nat(ctx, r, w, fuel),
        Core::RecNat(w) => natural::synth_rec_nat(ctx, r, w, fuel),
        Core::IndNat(w) => natural::synth_ind_nat(ctx, r, w, fuel),
        Core::Atom => Ok((Core::Universe, Core::Atom)),
        Core::Quote(s) => if atom::atom_is_ok(s) {
            Ok((Core::Atom, Core::Quote(s.clone())))
        } else {
            Err(Error::InvalidAtom(s.clone()))
        },
        Core::Fun(ts) => functions::synth_fun(ctx, r, ts, fuel),
        Core::Pi(p) => functions::synth_pi(ctx, r, p, fuel),
        Core::PiStar(_, _) => Err(Error::NotSupported),
        Core::Lambda(_) | Core::LambdaStar(_, _) | Core::Cons(_, _) | Core::Nil | Core::VecNil
        | Core::VectorCons(_, _) | Core::ToDo(_) | Core::Left(_) | Core::Right(_) => Err(
            Error::CantDetermineType(e.clone()),
        ),
        Core::App(_) => Err(Error::NotSupported),
        Core::AppStar(g, args) => functions::synth_app_star(ctx, r, g, args, fuel),
        Core::Ref(x) => reference::synth_ref(ctx, r, x, fuel),
        Core::Sigma(s) => pairs::synth_sigma(ctx, r, s, fuel),
        Core::SigmaStar(bs, d) => pairs::synth_sigma_star(ctx, r, bs, d, fuel),
        Core::Pair(a, d) => pairs::synth_pair(ctx, r, a, d, fuel),
        Core::Car(p) => pairs::synth_car(ctx, r, p, fuel),
        Core::Cdr(p) => pairs::synth_cdr(ctx, r, p, fuel),
        Core::List(t) => lists::synth_list(ctx, r, t, fuel),
        Core::ListCons(h, t) => lists::synth_list_cons(ctx, r, h, t, fuel),
        Core::RecList(w) => lists::synth_rec_list(ctx, r, w, fuel),
        Core::IndList(w) => lists::synth_ind_list(ctx, r, w, fuel),
        Core::Vector(t, n) => vectors::synth_vector(ctx, r, t, n, fuel),
        Core::Head(v) => vectors::synth_head(ctx, r, v, fuel),
        Core::Tail(v) => vectors::synth_tail(ctx, r, v, fuel),
        Core::IndVec(w) => vectors::synth_ind_vec(ctx, r, w, fuel),
        Core::Equal(q) => equality::synth_equal(ctx, r, q, fuel),
        Core::Same(_) => Err(Error::NotSupported),
        Core::Replace(w) => equality::synth_replace(ctx, r, w, fuel),
        Core::Cong(p, g) => equality::synth_cong(ctx, r, p, g, fuel),
        Core::Cong2(_, _, _) => Err(Error::Stuck),
        Core::Symm(p) => equality::synth_symm(ctx, r, p, fuel),
        Core::Either(l, rt) => either::synth_either(ctx, r, l, rt, fuel),
        Core::IndEither(w) => either::synth_ind_either(ctx, r, w, fuel),
        Core::Trivial => Ok((Core::Universe, Core::Trivial)),
        Core::Sole => Ok((Core::Trivial, Core::Sole)),
        Core::Absurd => Ok((Core::Universe, Core::Absurd)),
        Core::IndAbsurd(w) => absurd::synth_ind_absurd(ctx, r, w, fuel),
    }
}

/// `e` checked against the type value `tv`, elaborated.
pub fn check(ctx: &Ctx, r: &Renaming, e: &Core, tv: &Value, fuel: u64) -> (res: Result<Core, Error>)
    ensures
        res == ty::check(fuel as nat, *ctx, *r, *e, *tv),
    decreases fuel, 1nat,
{
    match e {
        Core::Invalid(s) => Err(Error::InvalidSyntax(s.clone())),
        Core::Lambda(l) => functions::check_lambda(ctx, r, l, tv, fuel),
        Core::LambdaStar(ps, b) => functions::check_lambda_star(ctx, r, ps, b, tv, fuel),
        Core::Cons(a, d) => pairs::check_cons(ctx, r, a, d, tv, fuel),
        Core::Nil => lists::check_nil(ctx, tv, fuel),
        Core::VecNil => vectors::check_vecnil(ctx, tv, fuel),
        Core::VectorCons(h, t) => vectors::check_vector_cons(ctx, r, h, t, tv, fuel),
        Core::Same(x) => equality::check_same(ctx, r, x, tv, fuel),
        Core::Left(x) => either::check_left(ctx, r, x, tv, fuel),
        Core::Right(x) => either::check_right(ctx, r, x, tv, fuel),
        Core::ToDo(t) => todo::check_todo(ctx, t, tv, fuel),
        _ => check_by_synth(ctx, r, e, tv, fuel),
    }
}

/// `e` elaborated as a type.
pub fn is_type(ctx: &Ctx, r: &Renaming, e: &Core, fuel: u64) -> (res: Result<Core, Error>)
    ensures
        res == ty::is_type(fuel as nat, *ctx, *r, *e),
    decreases fuel, 1nat,
{
    match e {
        Core::Invalid(s) => Err(Error::InvalidSyntax(s.clone())),
        Core::Universe | Core::Nat | Core::Atom | Core::Trivial | Core::Absurd => Ok(e.clone()),
        Core::The(_) | Core::App(_) | Core::ToDo(_) => is_type_by_check(ctx, r, e, fuel),
        Core::Ref(x) => reference::is_type_ref(ctx, r, x, fuel),
        Core::Pi(p) => functions::is_type_pi(ctx, r, p, fuel),
        Core::PiStar(bs, res) => functions::is_type_pi_star(ctx, r, bs, res, fuel),
        Core::Fun(ts) => functions::is_type_fun(ctx, r, ts, fuel),
        Core::Sigma(s) => pairs::is_type_sigma(ctx, r, s, fuel),
        Core::SigmaStar(bs, d) => pairs::is_type_sigma_star(ctx, r, bs, d, fuel),
        Core::Pair(a, d) => pairs::is_type_pair(ctx, r, a, d, fuel),
        Core::List(t) => lists::is_type_list(ctx, r, t, fuel),
        Core::Vector(t, n) => vectors::is_type_vector(ctx, r, t, n, fuel),
        Core::Equal(q) => equality::is_type_equal(ctx, r, q, fuel),
        Core::Either(l, rt) => either::is_type_either(ctx, r, l, rt, fuel),
        Core::Car(_) | Core::Cdr(_) | Core::Head(_) | Core::Tail(_) | Core::Left(_)
        | Core::Right(_) | Core::Cong(_, _) | Core::Cong2(_, _, _) => Err(Error::NotSupported),
        _ => Err(Error::NotAType(e.clone())),
    }
}

/// Checking by synthesis: the synthesized type must be the same as `tv`.
pub fn check_by_synth(ctx: &Ctx, r: &Renaming, e: &Core, tv: &Value, fuel: u64) -> (res: Result<
    Core,
    Error,
>)
    ensures
        res == ty::check_by_synth(fuel as nat, *ctx, *r, *e, *tv),
    decreases fuel, 0nat,
{
    if fuel == 0 {
        return Err(Error::OutOfFuel);
    }
    let (t_out, e_out) = synth(ctx, r, e, fuel - 1)?;
    let tv2 = val_in_ctx(ctx, &t_out, fuel - 1)?;
    same_type(ctx, &tv2, tv, fuel - 1)?;
    Ok(e_out)
}

/// `e` is a type exactly when it checks against `U`.
pub fn is_type_by_check(ctx: &Ctx, r: &Renaming, e: &Core, fuel: u64) -> (res: Result<Core, Error>)
    ensures
        res == ty::is_type_by_check(fuel as nat, *ctx, *r, *e),
    decreases fuel, 0nat,
{
    if fuel == 0 {
        return Err(Error::OutOfFuel);
    }
    match check(ctx, r, e, &Value::Universe, fuel - 1) {
        Ok(t) => Ok(t),
        Err(_) => Err(Error::NotAType(e.clone())),
    }
}

/// A term's synthesized type, as a value, with its elaborated form.
pub fn synth_value(ctx: &Ctx, r: &Renaming, e: &Core, fuel: u64) -> (res: Result<
    (Value, Core),
    Error,
>)
    ensures
        res == ty::synth_value(fuel as nat, *ctx, *r, *e),
    decreases fuel, 0nat,
{
    if fuel == 0 {
        return Err(Error::OutOfFuel);
    }
    let (t, e_out) = synth(ctx, r, e, fuel - 1)?;
    let tv = val_in_ctx(ctx, &t, fuel - 1)?;
    Ok((tv, e_out))
}

/// A fresh name for `x`, `xt` checked against `U`, and `body` checked
/// against `U` with the fresh name bound to `xt`.
pub fn check_with_fresh_binding(
    ctx: &Ctx,
    r: &Renaming,
    x: &Symbol,
    xt: &Core,
    body: &Core,
    fuel: u64,
) -> (res: Result<(Symbol, Core, Core), Error>)
    ensures
        res == ty::check_with_fresh_binding(fuel as nat, *ctx, *r, *x, *xt, *body),
    decreases fuel, 0nat,
{
    if fuel == 0 {
        return Err(Error::OutOfFuel);
    }
    let x_hat = ctx.fresh(x)?;
    let a_out = check(ctx, r, xt, &Value::Universe, fuel - 1)?;
    let av = val_in_ctx(ctx, &a_out, fuel - 1)?;
    let b_out = check(
        &ctx.bind_free(x_hat.clone(), av),
        &r.extend(x.clone(), x_hat.clone()),
        body,
        &Value::Universe,
        fuel - 1,
    )?;
    Ok((x_hat, a_out, b_out))
}

/// As `check_with_fresh_binding`, with both parts elaborated as types.
pub fn is_type_with_fresh_binding(
    ctx: &Ctx,
    r: &Renaming,
    x: &Symbol,
    xt: &Core,
    body: &Core,
    fuel: u64,
) -> (res: Result<(Symbol, Core, Core), Error>)
    ensures
        res == ty::is_type_with_fresh_binding(fuel as nat, *ctx, *r, *x, *xt, *body),
    decreases fuel, 0nat,
{
    if fuel == 0 {
        return Err(Error::OutOfFuel);
    }
    let x_hat = ctx.fresh(x)?;
    let a_out = is_type(ctx, r, xt, fuel - 1)?;
    let av = val_in_ctx(ctx, &a_out, fuel - 1)?;
    let b_out = is_type(
        &ctx.bind_free(x_hat.clone(), av),
        &r.extend(x.clone(), x_hat.clone()),
        body,
        fuel - 1,
    )?;
    Ok((x_hat, a_out, b_out))
}

impl Core {
    /// This term's type and elaborated form, with the default fuel.
    pub fn synth(&self, ctx: &Ctx, r: &Renaming) -> (res: Result<(Core, Core), Error>)
        ensures
            res == ty::synth(DEFAULT_FUEL as nat, *ctx, *r, *self),
    {
        synth(ctx, r, self, DEFAULT_FUEL)
    }

    /// This term checked against `tv` and elaborated, with the default fuel.
    pub fn check(&self, ctx: &Ctx, r: &Renaming, tv: &Value) -> (res: Result<Core, Error>)
        ensures
            res == ty::check(DEFAULT_FUEL as nat, *ctx, *r, *self, *tv),
    {
        check(ctx, r, self, tv, DEFAULT_FUEL)
    }

    /// This term elaborated as a type, with the default fuel.
    pub fn is_type(&self, ctx: &Ctx, r: &Renaming) -> (res: Result<Core, Error>)
        ensures
            res == ty::is_type(DEFAULT_FUEL as nat, *ctx, *r, *self),
    {
        is_type(ctx, r, self, DEFAULT_FUEL)
    }
}

} // verus!
