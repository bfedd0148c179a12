//! Constructors for terms, one per Pie form, taking names as strings and
//! sequences as vectors.
use vstd::prelude::*;
use crate::symbol::{name_of, sym, Symbol};
use crate::syntax::{
    App, BinderList, Core, CoreList, Equal, IndAbsurd, IndEither, IndList, IndNat, IndVec, IterNat,
    Lambda, MaybeTyped, Pi, RecList, RecNat, Ref, Replace, Sigma, SymbolList, The, ToDo, WhichNat,
};
use crate::types::reference::is_var_name;

verus! {

/// The term list holding the terms of `s` in order.
pub open spec fn core_list_of(s: Seq<Core>) -> CoreList
    decreases s.len(),
{
    if s.len() == 0 {
        CoreList::Empty
    } else {
        CoreList::More(Box::new(s[0]), Box::new(core_list_of(s.drop_first())))
    }
}

/// The binder list holding the binders of `s` in order.
pub open spec fn binder_list_of(s: Seq<(Symbol, Core)>) -> BinderList
    decreases s.len(),
{
    if s.len() == 0 {
        BinderList::Empty
    } else {
        BinderList::More(s[0].0, Box::new(s[0].1), Box::new(binder_list_of(s.drop_first())))
    }
}

/// The parameter list holding the names of `s` in order.
pub open spec fn symbol_list_of(s: Seq<Symbol>) -> SymbolList
    decreases s.len(),
{
    if s.len() == 0 {
        SymbolList::Empty
    } else {
        SymbolList::More(s[0], Box::new(symbol_list_of(s.drop_first())))
    }
}

/// The numeral `(add1 ... (add1 zero))` with `n` `add1`s.
pub open spec fn nat_core(n: nat) -> Core
    decreases n,
{
    if n == 0 {
        Core::Zero
    } else {
        Core::Add1(Box::new(nat_core((n - 1) as nat)))
    }
}

/// The terms of `ts` as a term list.
pub fn core_list(ts: &Vec<Core>) -> (res: CoreList)
    ensures
        res == core_list_of(ts@),
{
    let len = ts.len();
    let mut acc = CoreList::Empty;
    let mut i = len;
    assert(ts@.subrange(len as int, len as int) =~= Seq::<Core>::empty());
    while i > 0
        invariant
            i <= len,
            len == ts@.len(),
            acc == core_list_of(ts@.subrange(i as int, len as int)),
        decreases i,
    {
        i = i - 1;
        assert(ts@.subrange(i as int, len as int).drop_first() =~= ts@.subrange(i + 1, len as int));
        acc = CoreList::More(Box::new(ts[i].clone()), Box::new(acc));
    }
    assert(ts@.subrange(0, len as int) =~= ts@);
    acc
}

/// The binders of `bs` as a binder list.
pub fn binder_list(bs: &Vec<(Symbol, Core)>) -> (res: BinderList)
    ensures
        res == binder_list_of(bs@),
{
    let len = bs.len();
    let mut acc = BinderList::Empty;
    let mut i = len;
    assert(bs@.subrange(len as int, len as int) =~= Seq::<(Symbol, Core)>::empty());
    while i > 0
        invariant
            i <= len,
            len == bs@.len(),
            acc == binder_list_of(bs@.subrange(i as int, len as int)),
        decreases i,
    {
        i = i - 1;
        assert(bs@.subrange(i as int, len as int).drop_first() =~= bs@.subrange(i + 1, len as int));
        acc = BinderList::More(bs[i].0.clone(), Box::new(bs[i].1.clone()), Box::new(acc));
    }
    assert(bs@.subrange(0, len as int) =~= bs@);
    acc
}

/// The names of `ps` as a parameter list.
pub fn symbol_list(ps: &Vec<Symbol>) -> (res: SymbolList)
    ensures
        res == symbol_list_of(ps@),
{
    let len = ps.len();
    let mut acc = SymbolList::Empty;
    let mut i = len;
    assert(ps@.subrange(len as int, len as int) =~= Seq::<Symbol>::empty());
    while i > 0
        invariant
            i <= len,
            len == ps@.len(),
            acc == symbol_list_of(ps@.subrange(i as int, len as int)),
        decreases i,
    {
        i = i - 1;
        assert(ps@.subrange(i as int, len as int).drop_first() =~= ps@.subrange(i + 1, len as int));
        acc = SymbolList::More(ps[i].clone(), Box::new(acc));
    }
    assert(ps@.subrange(0, len as int) =~= ps@);
    acc
}

/// A piece of syntax that is not a Pie term, kept with its text.
pub fn invalid_syntax(s: &str) -> (res: Core)
    ensures
        res == Core::Invalid(name_of(s@)),
{
    Core::Invalid(Symbol::new(s).name)
}

/// `(the typ exp)`.
pub fn the(typ: Core, exp: Core) -> (res: Core)
    ensures
        res == Core::The(The { typ: Box::new(typ), exp: Box::new(exp) }),
{
    Core::The(The { typ: Box::new(typ), exp: Box::new(exp) })
}

/// `U`.
pub fn universe() -> (res: Core)
    ensures
        res == Core::Universe,
{
    Core::Universe
}

/// `Nat`.
pub fn nat_type() -> (res: Core)
    ensures
        res == Core::Nat,
{
    Core::Nat
}

/// `zero`.
pub fn zero() -> (res: Core)
    ensures
        res == Core::Zero,
{
    Core::Zero
}

/// `(add1 n)`.
pub fn add1(n: Core) -> (res: Core)
    ensures
        res == Core::Add1(Box::new(n)),
{
    Core::Add1(Box::new(n))
}

/// The numeral for `n`: `n` `add1`s around `zero`.
pub fn the_nat(n: u64) -> (res: Core)
    ensures
        res == nat_core(n as nat),
{
    let mut out = Core::Zero;
    let mut i: u64 = 0;
    while i < n
        invariant
            i <= n,
            out == nat_core(i as nat),
        decreases n - i,
    {
        out = Core::Add1(Box::new(out));
        i = i + 1;
    }
    out
}

/// `(which-Nat target base step)` as written.
pub fn which_nat(target: Core, base: Core, step: Core) -> (res: Core)
    ensures
        res == Core::WhichNat(
            WhichNat {
                target: Box::new(target),
                base: MaybeTyped::Plain(Box::new(base)),
                step: Box::new(step),
            },
        ),
{
    Core::WhichNat(WhichNat::untyped(target, base, step))
}

/// `which-Nat` with its base's type recorded, as elaboration leaves it.
pub fn which_nat_desugared(target: Core, base_type: Core, base: Core, step: Core) -> (res: Core)
    ensures
        res == Core::WhichNat(
            WhichNat {
                target: Box::new(target),
                base: MaybeTyped::The(Box::new(base_type), Box::new(base)),
                step: Box::new(step),
            },
        ),
{
    Core::WhichNat(WhichNat::typed(target, base_type, base, step))
}

/// `(iter-Nat target base step)` as written.
pub fn iter_nat(target: Core, base: Core, step: Core) -> (res: Core)
    ensures
        res == Core::IterNat(
            IterNat {
                target: Box::new(target),
                base: MaybeTyped::Plain(Box::new(base)),
                step: Box::new(step),
            },
        ),
{
    Core::IterNat(IterNat::untyped(target, base, step))
}

/// `iter-Nat` with its base's type recorded, as elaboration leaves it.
pub fn iter_nat_desugared(target: Core, base_type: Core, base: Core, step: Core) -> (res: Core)
    ensures
        res == Core::IterNat(
            IterNat {
                target: Box::new(target),
                base: MaybeTyped::The(Box::new(base_type), Box::new(base)),
                step: Box::new(step),
            },
        ),
{
    Core::IterNat(IterNat::typed(target, base_type, base, step))
}

/// `(rec-Nat target base step)` as written.
pub fn rec_nat(target: Core, base: Core, step: Core) -> (res: Core)
    ensures
        res == Core::RecNat(
            RecNat {
                target: Box::new(target),
                base: MaybeTyped::Plain(Box::new(base)),
                step: Box::new(step),
            },
        ),
{
    Core::RecNat(RecNat::untyped(target, base, step))
}

/// `rec-Nat` with its base's type recorded, as elaboration leaves it.
pub fn rec_nat_desugared(target: Core, base_type: Core, base: Core, step: Core) -> (res: Core)
    ensures
        res == Core::RecNat(
            RecNat {
                target: Box::new(target),
                base: MaybeTyped::The(Box::new(base_type), Box::new(base)),
                step: Box::new(step),
            },
        ),
{
    Core::RecNat(RecNat::typed(target, base_type, base, step))
}

/// `(ind-Nat target motive base step)`.
pub fn ind_nat(target: Core, motive: Core, base: Core, step: Core) -> (res: Core)
    ensures
        res == Core::IndNat(
            IndNat {
                target: Box::new(target),
                motive: Box::new(motive),
                base: Box::new(base),
                step: Box::new(step),
            },
        ),
{
    Core::IndNat(IndNat::new(target, motive, base, step))
}

/// `Atom`.
pub fn atom() -> (res: Core)
    ensures
        res == Core::Atom,
{
    Core::Atom
}

/// The quoted atom `'s`.
pub fn quote(s: &str) -> (res: Core)
    ensures
        res == Core::Quote(sym(s@)),
{
    Core::Quote(Symbol::new(s))
}

/// `(-> t ...)`.
pub fn fun(ts: Vec<Core>) -> (res: Core)
    ensures
        res == Core::Fun(core_list_of(ts@)),
{
    Core::Fun(core_list(&ts))
}

/// `(Π ((x arg_type)) res_type)`.
pub fn pi(x: &str, arg_type: Core, res_type: Core) -> (res: Core)
    ensures
        res == Core::Pi(Pi { arg_name: sym(x@), arg_type: Box::new(arg_type), res_type: Box::new(res_type) }),
{
    Core::Pi(Pi { arg_name: Symbol::new(x), arg_type: Box::new(arg_type), res_type: Box::new(res_type) })
}

/// `(Π ((x A) ...) res_type)`.
pub fn pi_star(binders: Vec<(Symbol, Core)>, res_type: Core) -> (res: Core)
    ensures
        res == Core::PiStar(binder_list_of(binders@), Box::new(res_type)),
{
    Core::PiStar(binder_list(&binders), Box::new(res_type))
}

/// `(λ (x) body)`.
pub fn lambda(x: &str, body: Core) -> (res: Core)
    ensures
        res == Core::Lambda(Lambda { arg_name: sym(x@), body: Box::new(body) }),
{
    Core::Lambda(Lambda::new(Symbol::new(x), body))
}

/// `(λ (x ...) body)`.
pub fn lambda_star(params: Vec<Symbol>, body: Core) -> (res: Core)
    ensures
        res == Core::LambdaStar(symbol_list_of(params@), Box::new(body)),
{
    Core::LambdaStar(symbol_list(&params), Box::new(body))
}

/// `(fun arg)`.
pub fn app(fun: Core, arg: Core) -> (res: Core)
    ensures
        res == Core::App(App { fun: Box::new(fun), arg: Box::new(arg) }),
{
    Core::App(App { fun: Box::new(fun), arg: Box::new(arg) })
}

/// `(fun arg ...)`.
pub fn app_star(fun: Core, args: Vec<Core>) -> (res: Core)
    ensures
        res == Core::AppStar(Box::new(fun), core_list_of(args@)),
{
    Core::AppStar(Box::new(fun), core_list(&args))
}

/// A reference to the variable `s`.
pub fn refer(s: &str) -> (res: Core)
    requires
        is_var_name(s@),
    ensures
        res == Core::Ref(Ref(sym(s@))),
{
    Core::Ref(Ref::new(s))
}

/// `(Σ ((x car_type)) cdr_type)`.
pub fn sigma(x: &str, car_type: Core, cdr_type: Core) -> (res: Core)
    ensures
        res == Core::Sigma(
            Sigma { arg_name: sym(x@), car_type: Box::new(car_type), cdr_type: Box::new(cdr_type) },
        ),
{
    Core::Sigma(Sigma { arg_name: Symbol::new(x), car_type: Box::new(car_type), cdr_type: Box::new(cdr_type) })
}

/// `(Σ ((x A) ...) res_type)`.
pub fn sigma_star(binders: Vec<(Symbol, Core)>, res_type: Core) -> (res: Core)
    ensures
        res == Core::SigmaStar(binder_list_of(binders@), Box::new(res_type)),
{
    Core::SigmaStar(binder_list(&binders), Box::new(res_type))
}

/// `(Pair a d)`.
pub fn pair(a: Core, d: Core) -> (res: Core)
    ensures
        res == Core::Pair(Box::new(a), Box::new(d)),
{
    Core::Pair(Box::new(a), Box::new(d))
}

/// `(cons car cdr)`.
pub fn cons(car: Core, cdr: Core) -> (res: Core)
    ensures
        res == Core::Cons(Box::new(car), Box::new(cdr)),
{
    Core::Cons(Box::new(car), Box::new(cdr))
}

/// `(car p)`.
pub fn car(p: Core) -> (res: Core)
    ensures
        res == Core::Car(Box::new(p)),
{
    Core::Car(Box::new(p))
}

/// `(cdr p)`.
pub fn cdr(p: Core) -> (res: Core)
    ensures
        res == Core::Cdr(Box::new(p)),
{
    Core::Cdr(Box::new(p))
}

/// `(List t)`.
pub fn list(t: Core) -> (res: Core)
    ensures
        res == Core::List(Box::new(t)),
{
    Core::List(Box::new(t))
}

/// `nil`.
pub fn nil() -> (res: Core)
    ensures
        res == Core::Nil,
{
    Core::Nil
}

/// `(:: head tail)`.
pub fn list_cons(head: Core, tail: Core) -> (res: Core)
    ensures
        res == Core::ListCons(Box::new(head), Box::new(tail)),
{
    Core::ListCons(Box::new(head), Box::new(tail))
}

/// `(rec-List target base step)` as written.
pub fn rec_list(target: Core, base: Core, step: Core) -> (res: Core)
    ensures
        res == Core::RecList(
            RecList {
                target: Box::new(target),
                base: MaybeTyped::Plain(Box::new(base)),
                step: Box::new(step),
            },
        ),
{
    Core::RecList(RecList::untyped(target, base, step))
}

/// `rec-List` with its base's type recorded, as elaboration leaves it.
pub fn rec_list_desugared(target: Core, base_type: Core, base: Core, step: Core) -> (res: Core)
    ensures
        res == Core::RecList(
            RecList {
                target: Box::new(target),
                base: MaybeTyped::The(Box::new(base_type), Box::new(base)),
                step: Box::new(step),
            },
        ),
{
    Core::RecList(RecList::typed(target, base_type, base, step))
}

/// `(ind-List target motive base step)`.
pub fn ind_list(target: Core, motive: Core, base: Core, step: Core) -> (res: Core)
    ensures
        res == Core::IndList(
            IndList {
                target: Box::new(target),
                motive: Box::new(motive),
                base: Box::new(base),
                step: Box::new(step),
            },
        ),
{
    Core::IndList(
        IndList {
            target: Box::new(target),
            motive: Box::new(motive),
            base: Box::new(base),
            step: Box::new(step),
        },
    )
}

/// `(Vec t n)`.
pub fn vec(t: Core, n: Core) -> (res: Core)
    ensures
        res == Core::Vector(Box::new(t), Box::new(n)),
{
    Core::Vector(Box::new(t), Box::new(n))
}

/// `vecnil`.
pub fn vecnil() -> (res: Core)
    ensures
        res == Core::VecNil,
{
    Core::VecNil
}

/// `(vec:: head tail)`.
pub fn vec_cons(head: Core, tail: Core) -> (res: Core)
    ensures
        res == Core::VectorCons(Box::new(head), Box::new(tail)),
{
    Core::VectorCons(Box::new(head), Box::new(tail))
}

/// `(head v)`.
pub fn head(v: Core) -> (res: Core)
    ensures
        res == Core::Head(Box::new(v)),
{
    Core::Head(Box::new(v))
}

/// `(tail v)`.
pub fn tail(v: Core) -> (res: Core)
    ensures
        res == Core::Tail(Box::new(v)),
{
    Core::Tail(Box::new(v))
}

/// `(ind-Vec len target motive base step)`.
pub fn ind_vec(len: Core, target: Core, motive: Core, base: Core, step: Core) -> (res: Core)
    ensures
        res == Core::IndVec(
            IndVec {
                len: Box::new(len),
                target: Box::new(target),
                motive: Box::new(motive),
                base: Box::new(base),
                step: Box::new(step),
            },
        ),
{
    Core::IndVec(
        IndVec {
            len: Box::new(len),
            target: Box::new(target),
            motive: Box::new(motive),
            base: Box::new(base),
            step: Box::new(step),
        },
    )
}

/// The hole `TODO` named `name`.
pub fn todo(name: &str) -> (res: Core)
    ensures
        res == Core::ToDo(ToDo { name: sym(name@), typ: None }),
{
    Core::ToDo(ToDo::new(name))
}

/// The hole named `name`, of type `typ`.
pub fn annotated_todo(name: &str, typ: Core) -> (res: Core)
    ensures
        res == Core::ToDo(ToDo { name: sym(name@), typ: Some(Box::new(typ)) }),
{
    Core::ToDo(ToDo::annotated(name, typ))
}

/// `(= typ from to)`.
pub fn equal(typ: Core, from: Core, to: Core) -> (res: Core)
    ensures
        res == Core::Equal(Equal { typ: Box::new(typ), from: Box::new(from), to: Box::new(to) }),
{
    Core::Equal(Equal { typ: Box::new(typ), from: Box::new(from), to: Box::new(to) })
}

/// `(same e)`.
pub fn same(e: Core) -> (res: Core)
    ensures
        res == Core::Same(Box::new(e)),
{
    Core::Same(Box::new(e))
}

/// `(replace target motive base)`.
pub fn replace(target: Core, motive: Core, base: Core) -> (res: Core)
    ensures
        res == Core::Replace(
            Replace { target: Box::new(target), motive: Box::new(motive), base: Box::new(base) },
        ),
{
    Core::Replace(Replace { target: Box::new(target), motive: Box::new(motive), base: Box::new(base) })
}

/// `(cong e f)` as written.
pub fn cong(e: Core, f: Core) -> (res: Core)
    ensures
        res == Core::Cong(Box::new(e), Box::new(f)),
{
    Core::Cong(Box::new(e), Box::new(f))
}

/// `cong` with the result type `t` recorded, as elaboration leaves it.
pub fn cong_desugared(e: Core, t: Core, f: Core) -> (res: Core)
    ensures
        res == Core::Cong2(Box::new(e), Box::new(t), Box::new(f)),
{
    Core::Cong2(Box::new(e), Box::new(t), Box::new(f))
}

/// `(symm e)`.
pub fn symm(e: Core) -> (res: Core)
    ensures
        res == Core::Symm(Box::new(e)),
{
    Core::Symm(Box::new(e))
}

/// `(Either l r)`.
pub fn either(l: Core, r: Core) -> (res: Core)
    ensures
        res == Core::Either(Box::new(l), Box::new(r)),
{
    Core::Either(Box::new(l), Box::new(r))
}

/// `(left lt)`.
pub fn left(lt: Core) -> (res: Core)
    ensures
        res == Core::Left(Box::new(lt)),
{
    Core::Left(Box::new(lt))
}

/// `(right rt)`.
pub fn right(rt: Core) -> (res: Core)
    ensures
        res == Core::Right(Box::new(rt)),
{
    Core::Right(Box::new(rt))
}

/// `(ind-Either t m l r)`.
pub fn ind_either(t: Core, m: Core, l: Core, r: Core) -> (res: Core)
    ensures
        res == Core::IndEither(
            IndEither { target: Box::new(t), motive: Box::new(m), left: Box::new(l), right: Box::new(r) },
        ),
{
    Core::IndEither(IndEither::new(t, m, l, r))
}

/// `Trivial`.
pub fn trivial() -> (res: Core)
    ensures
        res == Core::Trivial,
{
    Core::Trivial
}

/// `sole`.
pub fn sole() -> (res: Core)
    ensures
        res == Core::Sole,
{
    Core::Sole
}

/// `Absurd`.
pub fn absurd() -> (res: Core)
    ensures
        res == Core::Absurd,
{
    Core::Absurd
}

/// `(ind-Absurd target motive)`.
pub fn ind_absurd(target: Core, motive: Core) -> (res: Core)
    ensures
        res == Core::IndAbsurd(IndAbsurd { target: Box::new(target), motive: Box::new(motive) }),
{
    Core::IndAbsurd(IndAbsurd::new(target, motive))
}

} // verus!
