//! What elaboration produces.
use vstd::prelude::*;
use crate::laws::alpha::alpha_equiv_symmetric;
use crate::laws::evaluation::typed_base;
use crate::model::readback::{read_back, read_back_type};
use crate::model::eval::{ap, const_closure, do_ap, either_branch_type, motive_type, pi_c, pi_v};
use crate::model::names::{bind_free, fresh_binder};
use crate::model::typing::{
    check, check_by_synth, convert, ind_list_step_check_type, ind_nat_step_check_type, same_type,
    synth, synth_fun, synth_ind_either, synth_ind_list, synth_ind_nat, synth_iter_nat,
    synth_rec_list, synth_rec_nat, synth_value, synth_which_nat, val_in_ctx,
};
use crate::symbol::sym;
use crate::syntax::{Core, CoreList, IndEither, IndList, IndNat, IterNat, MaybeTyped, RecList, RecNat, WhichNat};
use crate::value::Closure;
use crate::model::names::ctx_to_env;
use crate::value::{Ctx, Error, Renaming, Value};

verus! {

/// The base of a ternary eliminator (`which-Nat`, `iter-Nat`, `rec-Nat`,
/// `rec-List`).
pub open spec fn eliminator_base(e: Core) -> Option<MaybeTyped> {
    match e {
        Core::WhichNat(w) => Some(w.base),
        Core::IterNat(w) => Some(w.base),
        Core::RecNat(w) => Some(w.base),
        Core::RecList(w) => Some(w.base),
        _ => None,
    }
}

/// When elaboration of an eliminator succeeded, its base synthesized a
/// type; that type is the eliminator's type, and the elaborated eliminator
/// carries the base annotated with it.
pub open spec fn records_base_type(
    res: Result<(Core, Core), Error>,
    base: Result<(Core, Core), Error>,
) -> bool {
    match res {
        Err(_) => true,
        Ok((ty, e)) => match base {
            Err(_) => false,
            Ok((bt, bo)) => ty == bt && eliminator_base(e) == Some(typed_base(bt, bo)),
        },
    }
}

/// Elaborating `(iter-Nat t b s)` as written: the whole has the type that
/// the base synthesizes, and the elaborated `iter-Nat` records that type
/// on its base.
pub proof fn iter_nat_desugars(f: nat, ctx: Ctx, r: Renaming, t: Core, b: Core, s: Core)
    ensures
        records_base_type(synth(
            f,
            ctx,
            r,
            Core::IterNat(IterNat { target: Box::new(t), base: MaybeTyped::Plain(Box::new(b)), step: Box::new(s) }),
        ) , synth((f - 2) as nat, ctx, r, b)),
{
    let w = IterNat { target: Box::new(t), base: MaybeTyped::Plain(Box::new(b)), step: Box::new(s) };
    assert(synth(f, ctx, r, Core::IterNat(w)) == synth_iter_nat(f, ctx, r, w));
}

/// Elaborating `(rec-Nat t b s)` as written records the base's type, which
/// is the type of the whole.
pub proof fn rec_nat_desugars(f: nat, ctx: Ctx, r: Renaming, t: Core, b: Core, s: Core)
    ensures
        records_base_type(synth(
            f,
            ctx,
            r,
            Core::RecNat(RecNat { target: Box::new(t), base: MaybeTyped::Plain(Box::new(b)), step: Box::new(s) }),
        ) , synth((f - 2) as nat, ctx, r, b)),
{
    let w = RecNat { target: Box::new(t), base: MaybeTyped::Plain(Box::new(b)), step: Box::new(s) };
    assert(synth(f, ctx, r, Core::RecNat(w)) == synth_rec_nat(f, ctx, r, w));
}

/// Elaborating `(which-Nat t b s)` as written records the base's type,
/// which is the type of the whole.
pub proof fn which_nat_desugars(f: nat, ctx: Ctx, r: Renaming, t: Core, b: Core, s: Core)
    ensures
        records_base_type(synth(
            f,
            ctx,
            r,
            Core::WhichNat(WhichNat { target: Box::new(t), base: MaybeTyped::Plain(Box::new(b)), step: Box::new(s) }),
        ) , synth((f - 2) as nat, ctx, r, b)),
{
    let w = WhichNat { target: Box::new(t), base: MaybeTyped::Plain(Box::new(b)), step: Box::new(s) };
    assert(synth(f, ctx, r, Core::WhichNat(w)) == synth_which_nat(f, ctx, r, w));
}

/// Elaborating `(rec-List t b s)` as written records the base's type, which
/// is the type of the whole.
pub proof fn rec_list_desugars(f: nat, ctx: Ctx, r: Renaming, t: Core, b: Core, s: Core)
    ensures
        records_base_type(synth(
            f,
            ctx,
            r,
            Core::RecList(RecList { target: Box::new(t), base: MaybeTyped::Plain(Box::new(b)), step: Box::new(s) }),
        ) , synth((f - 1) as nat, ctx, r, b)),
{
    let w = RecList { target: Box::new(t), base: MaybeTyped::Plain(Box::new(b)), step: Box::new(s) };
    assert(synth(f, ctx, r, Core::RecList(w)) == synth_rec_list(f, ctx, r, w));
}

/// An eliminator whose base already carries its type is not elaborated
/// again.
pub proof fn typed_bases_are_not_elaborated(f: nat, ctx: Ctx, r: Renaming, t: Core, bt: Core, b: Core, s: Core)
    requires
        f > 0,
    ensures
        synth(f, ctx, r, Core::IterNat(IterNat { target: Box::new(t), base: typed_base(bt, b), step: Box::new(s) }))
            == Err::<(Core, Core), Error>(Error::NotSupported),
        synth(f, ctx, r, Core::RecNat(RecNat { target: Box::new(t), base: typed_base(bt, b), step: Box::new(s) }))
            == Err::<(Core, Core), Error>(Error::NotSupported),
        synth(f, ctx, r, Core::WhichNat(WhichNat { target: Box::new(t), base: typed_base(bt, b), step: Box::new(s) }))
            == Err::<(Core, Core), Error>(Error::NotSupported),
        synth(f, ctx, r, Core::RecList(RecList { target: Box::new(t), base: typed_base(bt, b), step: Box::new(s) }))
            == Err::<(Core, Core), Error>(Error::NotSupported),
{
    let b2 = typed_base(bt, b);
    let w1 = IterNat { target: Box::new(t), base: b2, step: Box::new(s) };
    let w2 = RecNat { target: Box::new(t), base: b2, step: Box::new(s) };
    let w3 = WhichNat { target: Box::new(t), base: b2, step: Box::new(s) };
    let w4 = RecList { target: Box::new(t), base: b2, step: Box::new(s) };
    assert(synth(f, ctx, r, Core::IterNat(w1)) == synth_iter_nat(f, ctx, r, w1));
    assert(synth(f, ctx, r, Core::RecNat(w2)) == synth_rec_nat(f, ctx, r, w2));
    assert(synth(f, ctx, r, Core::WhichNat(w3)) == synth_which_nat(f, ctx, r, w3));
    assert(synth(f, ctx, r, Core::RecList(w4)) == synth_rec_list(f, ctx, r, w4));
}

/// Subsumption: a term whose synthesized type is the same as `tv` checks
/// against `tv`, and checking elaborates it as synthesis did.
pub proof fn check_by_synthesis(
    f: nat,
    ctx: Ctx,
    r: Renaming,
    e: Core,
    tv: Value,
    t: Core,
    e_out: Core,
    tv2: Value,
)
    requires
        f > 0,
        synth((f - 1) as nat, ctx, r, e) == Ok::<(Core, Core), Error>((t, e_out)),
        val_in_ctx((f - 1) as nat, ctx, t) == Ok::<Value, Error>(tv2),
        same_type((f - 1) as nat, ctx, tv2, tv) == Ok::<(), Error>(()),
    ensures
        check(f, ctx, r, e, tv) == Ok::<Core, Error>(e_out),
{
    match e {
        Core::Invalid(_) | Core::Lambda(_) | Core::LambdaStar(_, _) | Core::Cons(_, _) | Core::Nil
        | Core::VecNil | Core::VectorCons(_, _) | Core::Same(_) | Core::Left(_) | Core::Right(_)
        | Core::ToDo(_) => {
            assert(synth((f - 1) as nat, ctx, r, e) is Err);
        },
        _ => {
            assert(check(f, ctx, r, e, tv) == check_by_synth(f, ctx, r, e, tv));
        },
    }
}

/// Being the same type does not depend on the order of the two types.
pub proof fn same_type_symmetric(f: nat, ctx: Ctx, v1: Value, v2: Value)
    ensures
        same_type(f, ctx, v1, v2) is Ok == same_type(f, ctx, v2, v1) is Ok,
{
    if f > 0 {
        let g = (f - 1) as nat;
        if read_back_type(g, ctx, v1) is Ok && read_back_type(g, ctx, v2) is Ok {
            alpha_equiv_symmetric(
                read_back_type(g, ctx, v1)->Ok_0,
                read_back_type(g, ctx, v2)->Ok_0,
            );
        }
    }
}

/// Two values of a type are the same regardless of their order.
pub proof fn convert_symmetric(f: nat, ctx: Ctx, tv: Value, v1: Value, v2: Value)
    ensures
        convert(f, ctx, tv, v1, v2) is Ok == convert(f, ctx, tv, v2, v1) is Ok,
{
    if f > 0 {
        let g = (f - 1) as nat;
        if read_back(g, ctx, tv, v1) is Ok && read_back(g, ctx, tv, v2) is Ok {
            alpha_equiv_symmetric(read_back(g, ctx, tv, v1)->Ok_0, read_back(g, ctx, tv, v2)->Ok_0);
        }
    }
}


/// An arrow of three or more types, `(-> A B C ...)`, elaborates as the
/// nested arrow `(Π ((z A)) (-> B C ...))`: `z` is a binder fresh for the
/// context and for `B C ...`, `A` is checked to be a type, and the arrow of
/// the remaining types is elaborated under `z : A`. The whole is a type.
pub proof fn arrow_is_nested_pi(f: nat, ctx: Ctx, r: Renaming, a: Core, b: Core, c: Core, cs: CoreList)
    requires
        f >= 3,
    ensures
        synth(
            f,
            ctx,
            r,
            Core::Fun(CoreList::More(Box::new(a), Box::new(CoreList::More(Box::new(b), Box::new(CoreList::More(Box::new(c), Box::new(cs))))))),
        ) == match fresh_binder(ctx, Core::AppStar(Box::new(b), CoreList::More(Box::new(c), Box::new(cs))), sym("x"@)) {
            Err(e) => Err(e),
            Ok(z) => match check((f - 1) as nat, ctx, r, a, Value::Universe) {
                Err(e) => Err(e),
                Ok(a_out) => match val_in_ctx((f - 1) as nat, ctx, a_out) {
                    Err(e) => Err(e),
                    Ok(av) => match synth(
                        (f - 2) as nat,
                        bind_free(ctx, z, av),
                        r,
                        Core::Fun(CoreList::More(Box::new(b), Box::new(CoreList::More(Box::new(c), Box::new(cs))))),
                    ) {
                        Err(e) => Err(e),
                        Ok((_, t_out)) => Ok((Core::Universe, pi_c(z, a_out, t_out))),
                    },
                },
            },
        },
{
    let rest = CoreList::More(Box::new(b), Box::new(CoreList::More(Box::new(c), Box::new(cs))));
    let all = CoreList::More(Box::new(a), Box::new(rest));
    assert(synth(f, ctx, r, Core::Fun(all)) == synth_fun(f, ctx, r, all));
    let g = (f - 1) as nat;
    match fresh_binder(ctx, Core::AppStar(Box::new(b), CoreList::More(Box::new(c), Box::new(cs))), sym("x"@)) {
        Err(_) => {},
        Ok(z) => match check(g, ctx, r, a, Value::Universe) {
            Err(_) => {},
            Ok(a_out) => match val_in_ctx(g, ctx, a_out) {
                Err(_) => {},
                Ok(av) => {
                    let ctx2 = bind_free(ctx, z, av);
                    assert(check(g, ctx2, r, Core::Fun(rest), Value::Universe) == check_by_synth(
                        g,
                        ctx2,
                        r,
                        Core::Fun(rest),
                        Value::Universe,
                    ));
                    let h = (g - 1) as nat;
                    assert(synth(h, ctx2, r, Core::Fun(rest)) == synth_fun(h, ctx2, r, rest));
                    assert(val_in_ctx(h, ctx2, Core::Universe) == Ok::<Value, Error>(Value::Universe));
                    assert(read_back_type((h - 1) as nat, ctx2, Value::Universe) == Ok::<Core, Error>(Core::Universe));
                    assert(crate::model::alpha::alpha_equiv(Core::Universe, Core::Universe));
                    assert(same_type(h, ctx2, Value::Universe, Value::Universe) == Ok::<(), Error>(()));
                },
            },
        },
    }
}


/// Elaborating `(ind-Nat t mot b s)`: when it succeeds, the target checked
/// against `Nat`, the motive checked against `(Π ((n Nat)) U)`, the base
/// checked against the motive applied to `zero`, and the step checked
/// against `(Π ((n Nat)) (-> (mot n) (mot (add1 n))))`; the whole has the
/// type `(mot t)` and is the `ind-Nat` of the elaborated parts.
pub proof fn ind_nat_elaboration(f: nat, ctx: Ctx, r: Renaming, t: Core, mot: Core, b: Core, s: Core)
    ensures
        ({
            let w = IndNat { target: Box::new(t), motive: Box::new(mot), base: Box::new(b), step: Box::new(s) };
            let res = synth(f, ctx, r, Core::IndNat(w));
            let g = (f - 1) as nat;
            let tgt = check(g, ctx, r, t, Value::Nat);
            let m = check(g, ctx, r, mot, pi_v(sym("n"@), Value::Nat, const_closure(sym("n"@), Value::Universe)));
            let mv = val_in_ctx(g, ctx, m.unwrap());
            let bt = do_ap(g, mv.unwrap(), Value::Zero);
            let bo = check(g, ctx, r, b, bt.unwrap());
            let so = check(g, ctx, r, s, ind_nat_step_check_type(mv.unwrap()));
            res is Ok ==> {
                &&& tgt is Ok && m is Ok && mv is Ok && bt is Ok && bo is Ok && so is Ok
                &&& res.unwrap().0 == ap(m.unwrap(), tgt.unwrap())
                &&& res.unwrap().1 == Core::IndNat(
                    IndNat {
                        target: Box::new(tgt.unwrap()),
                        motive: Box::new(m.unwrap()),
                        base: Box::new(bo.unwrap()),
                        step: Box::new(so.unwrap()),
                    },
                )
            }
        }),
{
    let w = IndNat { target: Box::new(t), motive: Box::new(mot), base: Box::new(b), step: Box::new(s) };
    assert(synth(f, ctx, r, Core::IndNat(w)) == synth_ind_nat(f, ctx, r, w));
}

/// Elaborating `(ind-List t mot b s)`: when it succeeds, the target
/// synthesized a type `(List E)`, the motive checked against
/// `(Π ((xs (List E))) U)`, the base checked against the motive applied to
/// `nil`, and the step checked against
/// `(Π ((e E)) (Π ((es (List E))) (-> (mot es) (mot (:: e es)))))`; the
/// whole has the type `(mot t)` and is the `ind-List` of the elaborated
/// parts.
pub proof fn ind_list_elaboration(f: nat, ctx: Ctx, r: Renaming, t: Core, mot: Core, b: Core, s: Core)
    ensures
        ({
            let w = IndList { target: Box::new(t), motive: Box::new(mot), base: Box::new(b), step: Box::new(s) };
            let res = synth(f, ctx, r, Core::IndList(w));
            let g = (f - 1) as nat;
            let tgt = synth_value(g, ctx, r, t);
            let ltv = tgt.unwrap().0;
            let m = check(g, ctx, r, mot, pi_v(sym("xs"@), ltv, Closure { env: ctx_to_env(ctx), var: sym("xs"@), expr: Core::Universe }));
            let mv = val_in_ctx(g, ctx, m.unwrap());
            let bt = do_ap(g, mv.unwrap(), Value::Nil);
            let bo = check(g, ctx, r, b, bt.unwrap());
            res is Ok ==> {
                &&& tgt is Ok && ltv is List && m is Ok && mv is Ok && bt is Ok && bo is Ok
                &&& check(g, ctx, r, s, ind_list_step_check_type(*ltv->List_0, ltv, mv.unwrap())) is Ok
                &&& res.unwrap().0 == ap(m.unwrap(), tgt.unwrap().1)
                &&& res.unwrap().1 == Core::IndList(
                    IndList {
                        target: Box::new(tgt.unwrap().1),
                        motive: Box::new(m.unwrap()),
                        base: Box::new(bo.unwrap()),
                        step: Box::new(check(g, ctx, r, s, ind_list_step_check_type(*ltv->List_0, ltv, mv.unwrap())).unwrap()),
                    },
                )
            }
        }),
{
    let w = IndList { target: Box::new(t), motive: Box::new(mot), base: Box::new(b), step: Box::new(s) };
    assert(synth(f, ctx, r, Core::IndList(w)) == synth_ind_list(f, ctx, r, w));
}

/// Elaborating `(ind-Either t mot l rt)`: when it succeeds, the target
/// synthesized a type `(Either L R)`, the motive checked against
/// `(Π ((x (Either L R))) U)`, the left branch checked against
/// `(Π ((x L)) (mot (left x)))` and the right one against
/// `(Π ((x R)) (mot (right x)))`; the whole has the type `(mot t)` and is
/// the `ind-Either` of the elaborated parts.
pub proof fn ind_either_elaboration(f: nat, ctx: Ctx, r: Renaming, t: Core, mot: Core, l: Core, rt: Core)
    ensures
        ({
            let w = IndEither { target: Box::new(t), motive: Box::new(mot), left: Box::new(l), right: Box::new(rt) };
            let res = synth(f, ctx, r, Core::IndEither(w));
            let g = (f - 1) as nat;
            let tgt = synth_value(g, ctx, r, t);
            let etv = tgt.unwrap().0;
            let m = check(g, ctx, r, mot, motive_type(sym("x"@), etv));
            let mv = val_in_ctx(g, ctx, m.unwrap());
            res is Ok ==> {
                &&& tgt is Ok && etv is Either && m is Ok && mv is Ok
                &&& check(g, ctx, r, l, either_branch_type(*etv->Either_0, mv.unwrap(), true)) is Ok
                &&& check(g, ctx, r, rt, either_branch_type(*etv->Either_1, mv.unwrap(), false)) is Ok
                &&& res.unwrap().0 == ap(m.unwrap(), tgt.unwrap().1)
                &&& res.unwrap().1 == Core::IndEither(
                    IndEither {
                        target: Box::new(tgt.unwrap().1),
                        motive: Box::new(m.unwrap()),
                        left: Box::new(check(g, ctx, r, l, either_branch_type(*etv->Either_0, mv.unwrap(), true)).unwrap()),
                        right: Box::new(check(g, ctx, r, rt, either_branch_type(*etv->Either_1, mv.unwrap(), false)).unwrap()),
                    },
                )
            }
        }),
{
    let w = IndEither { target: Box::new(t), motive: Box::new(mot), left: Box::new(l), right: Box::new(rt) };
    assert(synth(f, ctx, r, Core::IndEither(w)) == synth_ind_either(f, ctx, r, w));
}


/// A proof `(same x)` of `(= A from to)` is accepted only when `x` is an
/// `A` whose value is the same `A` as `from` and the same `A` as `to`: when
/// checking succeeds, `x` checked against `A`, its value converts with both
/// ends of the equation, and the result is `(same x')` for the elaborated
/// `x'`.
pub proof fn same_proves_both_ends(
    f: nat,
    ctx: Ctx,
    r: Renaming,
    x: Core,
    typ: Value,
    from: Value,
    to: Value,
)
    ensures
        ({
            let res = check(
                f,
                ctx,
                r,
                Core::Same(Box::new(x)),
                Value::Equal { typ: Box::new(typ), from: Box::new(from), to: Box::new(to) },
            );
            let g = (f - 1) as nat;
            let xo = check(g, ctx, r, x, typ);
            let xv = val_in_ctx(g, ctx, xo.unwrap());
            res is Ok ==> {
                &&& xo is Ok && xv is Ok
                &&& convert(g, ctx, typ, from, xv.unwrap()) is Ok
                &&& convert(g, ctx, typ, to, xv.unwrap()) is Ok
                &&& res == Ok::<Core, Error>(Core::Same(Box::new(xo.unwrap())))
            }
        }),
{
}


/// `(left x)` checks against `(Either L R)` exactly by checking `x` against
/// `L`, and `(right x)` by checking `x` against `R`; the result wraps the
/// elaborated `x`.
pub proof fn injections_check_their_side(f: nat, ctx: Ctx, r: Renaming, x: Core, l_type: Value, r_type: Value)
    requires
        f >= 1,
    ensures
        check(f, ctx, r, Core::Left(Box::new(x)), Value::Either(Box::new(l_type), Box::new(r_type)))
            == match check((f - 1) as nat, ctx, r, x, l_type) {
                Ok(c) => Ok(Core::Left(Box::new(c))),
                Err(e) => Err::<Core, Error>(e),
            },
        check(f, ctx, r, Core::Right(Box::new(x)), Value::Either(Box::new(l_type), Box::new(r_type)))
            == match check((f - 1) as nat, ctx, r, x, r_type) {
                Ok(c) => Ok(Core::Right(Box::new(c))),
                Err(e) => Err::<Core, Error>(e),
            },
{
}

/// `(cons a d)` checks against `(Σ ((x A)) D)` by checking `a` against `A`
/// and `d` against `D` with `x` bound to the value of the elaborated `a`;
/// the result pairs the elaborated parts, first part first.
pub proof fn pair_checks_part_by_part(
    f: nat,
    ctx: Ctx,
    r: Renaming,
    a: Core,
    d: Core,
    x: crate::symbol::Symbol,
    a_type: Value,
    d_type: Closure,
)
    ensures
        ({
            let res = check(
                f,
                ctx,
                r,
                Core::Cons(Box::new(a), Box::new(d)),
                Value::Sigma { arg_name: x, car_type: Box::new(a_type), cdr_type: Box::new(d_type) },
            );
            let g = (f - 1) as nat;
            let ao = check(g, ctx, r, a, a_type);
            let av = val_in_ctx(g, ctx, ao.unwrap());
            let dt = crate::model::eval::closure_val_of(g, d_type, av.unwrap());
            let dout = check(g, ctx, r, d, dt.unwrap());
            res is Ok ==> {
                &&& ao is Ok && av is Ok && dt is Ok && dout is Ok
                &&& res == Ok::<Core, Error>(Core::Cons(Box::new(ao.unwrap()), Box::new(dout.unwrap())))
            }
        }),
{
}

/// `(add1 n)` has type `Nat` exactly when `n` checks against `Nat`, and
/// elaborates to `(add1 n')` for the elaborated `n'`.
pub proof fn successor_is_a_nat(f: nat, ctx: Ctx, r: Renaming, n: Core)
    requires
        f >= 1,
    ensures
        synth(f, ctx, r, Core::Add1(Box::new(n))) == match check((f - 1) as nat, ctx, r, n, Value::Nat) {
            Ok(c) => Ok((Core::Nat, Core::Add1(Box::new(c)))),
            Err(e) => Err::<(Core, Core), Error>(e),
        },
{
}

} // verus!
