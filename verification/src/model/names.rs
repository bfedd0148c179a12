//! Names: fresh symbols, typing contexts, renamings and the names that occur
//! in a term.
use vstd::prelude::*;
use crate::symbol::{Name, Symbol};
use crate::syntax::{BinderList, Core, CoreList, MaybeTyped, SymbolList};
use crate::value::{Ctx, Env, Error, Neutral, Renaming, Value};

verus! {

/// The largest index among the symbols of `used` spelled `n`, or 0.
pub open spec fn max_index(used: Seq<Symbol>, n: Name) -> nat
    decreases used.len(),
{
    if used.len() == 0 {
        0
    } else {
        let m = max_index(used.drop_last(), n);
        let s = used.last();
        if s.name == n && s.index > m {
            s.index as nat
        } else {
            m
        }
    }
}

/// A symbol spelled like `x` that is not in `used`: `x` itself when it is
/// unused, else `x` with an index one above every index in use for that
/// spelling.
pub open spec fn fresh(used: Seq<Symbol>, x: Symbol) -> Result<Symbol, Error> {
    if !used.contains(x) {
        Ok(x)
    } else {
        let m = max_index(used, x.name);
        if m < u64::MAX {
            Ok(Symbol { name: x.name, index: (m + 1) as u64 })
        } else {
            Err(Error::NoFreshName)
        }
    }
}

/// The type bound to `x` in `ctx`, the most recent binding first.
pub open spec fn ctx_lookup(ctx: Ctx, x: Symbol) -> Option<Value>
    decreases ctx,
{
    match ctx {
        Ctx::Empty => None,
        Ctx::Free(y, tv, rest) => if y == x {
            Some(*tv)
        } else {
            ctx_lookup(*rest, x)
        },
    }
}

/// The type bound to `x`, or an error naming the unknown variable.
pub open spec fn var_type(ctx: Ctx, x: Symbol) -> Result<Value, Error> {
    match ctx_lookup(ctx, x) {
        Some(tv) => Ok(tv),
        None => Err(Error::UnknownVariable(x)),
    }
}

/// The variables of `ctx`, oldest first.
pub open spec fn ctx_names(ctx: Ctx) -> Seq<Symbol>
    decreases ctx,
{
    match ctx {
        Ctx::Empty => Seq::empty(),
        Ctx::Free(x, _, rest) => ctx_names(*rest).push(x),
    }
}

/// `ctx` with the variable `x` of type `tv` added.
pub open spec fn bind_free(ctx: Ctx, x: Symbol, tv: Value) -> Ctx {
    Ctx::Free(x, Box::new(tv), Box::new(ctx))
}

/// The environment that binds each variable of `ctx` to itself, as a
/// neutral value of its type.
pub open spec fn ctx_to_env(ctx: Ctx) -> Env
    decreases ctx,
{
    match ctx {
        Ctx::Empty => Env::Empty,
        Ctx::Free(x, tv, rest) => Env::Extend(
            x,
            Box::new(Value::Neutral { type_value: tv, kind: Box::new(Neutral::Var(x)) }),
            Box::new(ctx_to_env(*rest)),
        ),
    }
}

/// A symbol not bound in `ctx`, spelled like `x`.
pub open spec fn ctx_fresh(ctx: Ctx, x: Symbol) -> Result<Symbol, Error> {
    fresh(ctx_names(ctx), x)
}

/// A symbol bound neither in `ctx` nor anywhere in `e`, spelled like `x`.
pub open spec fn fresh_binder(ctx: Ctx, e: Core, x: Symbol) -> Result<Symbol, Error> {
    fresh(names_acc(e, ctx_names(ctx)), x)
}

/// The new name of `x`, or `x` itself when it has none.
pub open spec fn rename(r: Renaming, x: Symbol) -> Symbol
    decreases r,
{
    match r {
        Renaming::Empty => x,
        Renaming::Rename(from, to, rest) => if from == x {
            to
        } else {
            rename(*rest, x)
        },
    }
}

/// `r` with `x` renamed to `y`.
pub open spec fn extend_renaming(r: Renaming, x: Symbol, y: Symbol) -> Renaming {
    Renaming::Rename(x, y, Box::new(r))
}

/// `acc` followed by the names of a base, typed or not.
pub open spec fn maybe_typed_names(b: MaybeTyped, acc: Seq<Symbol>) -> Seq<Symbol>
    decreases b,
{
    match b {
        MaybeTyped::Plain(e) => names_acc(*e, acc),
        MaybeTyped::The(t, e) => names_acc(*e, names_acc(*t, acc)),
    }
}

/// `acc` followed by the names of each term of `l`.
pub open spec fn core_list_names(l: CoreList, acc: Seq<Symbol>) -> Seq<Symbol>
    decreases l,
{
    match l {
        CoreList::Empty => acc,
        CoreList::More(e, rest) => core_list_names(*rest, names_acc(*e, acc)),
    }
}

/// `acc` followed by each binder and the names of its type.
pub open spec fn binder_list_names(l: BinderList, acc: Seq<Symbol>) -> Seq<Symbol>
    decreases l,
{
    match l {
        BinderList::Empty => acc,
        BinderList::More(x, t, rest) => binder_list_names(*rest, names_acc(*t, acc.push(x))),
    }
}

/// `acc` followed by the symbols of `l`.
pub open spec fn symbol_list_names(l: SymbolList, acc: Seq<Symbol>) -> Seq<Symbol>
    decreases l,
{
    match l {
        SymbolList::Empty => acc,
        SymbolList::More(x, rest) => symbol_list_names(*rest, acc.push(x)),
    }
}

/// Every name that occurs in `e` (variables, binders and parameters),
/// appended to `acc`. Only which names occur matters to its users; the
/// order follows the term's structure, with a λ's parameters after its body.
pub open spec fn names_acc(e: Core, acc: Seq<Symbol>) -> Seq<Symbol>
    decreases e,
{
    match e {
        Core::Invalid(_) | Core::Universe | Core::Nat | Core::Zero | Core::Atom | Core::Quote(_)
        | Core::Nil | Core::VecNil | Core::Trivial | Core::Sole | Core::Absurd => acc,
        Core::The(t) => names_acc(*t.exp, names_acc(*t.typ, acc)),
        Core::Add1(n) => names_acc(*n, acc),
        Core::WhichNat(w) => names_acc(*w.step, maybe_typed_names(w.base, names_acc(*w.target, acc))),
        Core::IterNat(w) => names_acc(*w.step, maybe_typed_names(w.base, names_acc(*w.target, acc))),
        Core::RecNat(w) => names_acc(*w.step, maybe_typed_names(w.base, names_acc(*w.target, acc))),
        Core::IndNat(w) => names_acc(
            *w.step,
            names_acc(*w.base, names_acc(*w.motive, names_acc(*w.target, acc))),
        ),
        Core::Fun(ts) => core_list_names(ts, acc),
        Core::Pi(p) => names_acc(*p.res_type, names_acc(*p.arg_type, acc.push(p.arg_name))),
        Core::PiStar(bs, r) => names_acc(*r, binder_list_names(bs, acc)),
        Core::Lambda(l) => names_acc(*l.body, acc).push(l.arg_name),
        Core::LambdaStar(ps, b) => symbol_list_names(ps, names_acc(*b, acc)),
        Core::App(a) => names_acc(*a.arg, names_acc(*a.fun, acc)),
        Core::AppStar(g, args) => core_list_names(args, names_acc(*g, acc)),
        Core::Ref(r) => acc.push(r.0),
        Core::Sigma(s) => names_acc(*s.cdr_type, names_acc(*s.car_type, acc.push(s.arg_name))),
        Core::SigmaStar(bs, d) => names_acc(*d, binder_list_names(bs, acc)),
        Core::Pair(a, d) => names_acc(*d, names_acc(*a, acc)),
        Core::Cons(a, d) => names_acc(*d, names_acc(*a, acc)),
        Core::Car(p) => names_acc(*p, acc),
        Core::Cdr(p) => names_acc(*p, acc),
        Core::List(t) => names_acc(*t, acc),
        Core::ListCons(h, t) => names_acc(*t, names_acc(*h, acc)),
        Core::RecList(w) => names_acc(*w.step, maybe_typed_names(w.base, names_acc(*w.target, acc))),
        Core::IndList(w) => names_acc(
            *w.step,
            names_acc(*w.base, names_acc(*w.motive, names_acc(*w.target, acc))),
        ),
        Core::Vector(t, n) => names_acc(*n, names_acc(*t, acc)),
        Core::VectorCons(h, t) => names_acc(*t, names_acc(*h, acc)),
        Core::Head(v) => names_acc(*v, acc),
        Core::Tail(v) => names_acc(*v, acc),
        Core::IndVec(w) => names_acc(
            *w.step,
            names_acc(*w.base, names_acc(*w.motive, names_acc(*w.target, names_acc(*w.len, acc)))),
        ),
        Core::ToDo(t) => match t.typ {
            Some(ty) => names_acc(*ty, acc),
            None => acc,
        },
        Core::Equal(q) => names_acc(*q.to, names_acc(*q.from, names_acc(*q.typ, acc))),
        Core::Same(x) => names_acc(*x, acc),
        Core::Replace(r) => names_acc(*r.base, names_acc(*r.motive, names_acc(*r.target, acc))),
        Core::Cong(p, g) => names_acc(*g, names_acc(*p, acc)),
        Core::Cong2(p, t, _) => names_acc(*t, names_acc(*p, acc)),
        Core::Symm(p) => names_acc(*p, acc),
        Core::Either(l, r) => names_acc(*r, names_acc(*l, acc)),
        Core::Left(x) => names_acc(*x, acc),
        Core::Right(x) => names_acc(*x, acc),
        Core::IndEither(w) => names_acc(
            *w.right,
            names_acc(*w.left, names_acc(*w.motive, names_acc(*w.target, acc))),
        ),
        Core::IndAbsurd(w) => names_acc(*w.motive, names_acc(*w.target, acc)),
    }
}

/// Every name that occurs in `e`.
pub open spec fn occurring_names(e: Core) -> Seq<Symbol> {
    names_acc(e, Seq::empty())
}

} // verus!
