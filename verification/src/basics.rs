//! Contexts, renamings, fresh symbols and the names occurring in terms.
use vstd::prelude::*;
use crate::model::names as nm;
use crate::symbol::{Name, Symbol};
use crate::syntax::{BinderList, Core, CoreList, MaybeTyped, SymbolList};
use crate::value::{Ctx, Env, Error, Neutral, Renaming, Value};

verus! {

/// The largest index among the symbols of `used` spelled `n`, or 0.
pub fn max_index(used: &Vec<Symbol>, n: &Name) -> (res: u64)
    ensures
        res as nat == nm::max_index(used@, *n),
{
    let mut m: u64 = 0;
    let mut i: usize = 0;
    while i < used.len()
        invariant
            i <= used@.len(),
            m as nat == nm::max_index(used@.take(i as int), *n),
        decreases used@.len() - i,
    {
        assert(used@.take(i + 1).drop_last() =~= used@.take(i as int));
        assert(used@.take(i + 1).last() == used@[i as int]);
        let s = &used[i];
        if s.index > m && crate::symbol::name_eq(&s.name, n) {
            m = s.index;
        }
        i = i + 1;
    }
    assert(used@.take(used@.len() as int) =~= used@);
    m
}

/// Whether `x` is among `used`.
pub fn contains(used: &Vec<Symbol>, x: &Symbol) -> (res: bool)
    ensures
        res == used@.contains(*x),
{
    let mut i: usize = 0;
    while i < used.len()
        invariant
            i <= used@.len(),
            forall|j: int| 0 <= j < i ==> used@[j] != *x,
        decreases used@.len() - i,
    {
        if used[i].same(x) {
            return true;
        }
        i = i + 1;
    }
    false
}

/// A symbol spelled like `x` that is not among `used`.
pub fn fresh(used: &Vec<Symbol>, x: &Symbol) -> (res: Result<Symbol, Error>)
    ensures
        res == nm::fresh(used@, *x),
{
    if !contains(used, x) {
        return Ok(x.clone());
    }
    let m = max_index(used, &x.name);
    if m < u64::MAX {
        Ok(Symbol { name: x.name.clone(), index: m + 1 })
    } else {
        Err(Error::NoFreshName)
    }
}

impl Ctx {
    /// The empty context.
    pub fn new() -> (res: Ctx)
        ensures
            res == Ctx::Empty,
    {
        Ctx::Empty
    }

    /// The variables of this context, oldest first.
    pub fn names(&self) -> (res: Vec<Symbol>)
        ensures
            res@ == nm::ctx_names(*self),
        decreases self,
    {
        match self {
            Ctx::Empty => Vec::new(),
            Ctx::Free(x, _, rest) => {
                let mut v = rest.names();
                v.push(x.clone());
                v
            },
        }
    }

    /// The type of the variable `x`.
    pub fn var_type(&self, x: &Symbol) -> (res: Result<Value, Error>)
        ensures
            res == nm::var_type(*self, *x),
        decreases self,
    {
        match self {
            Ctx::Empty => Err(Error::UnknownVariable(x.clone())),
            Ctx::Free(y, tv, rest) => if y.same(x) {
                Ok((**tv).clone())
            } else {
                rest.var_type(x)
            },
        }
    }

    /// This context with `x : tv` added.
    pub fn bind_free(&self, x: Symbol, tv: Value) -> (res: Ctx)
        ensures
            res == nm::bind_free(*self, x, tv),
    {
        Ctx::Free(x, Box::new(tv), Box::new(self.clone()))
    }

    /// The environment binding every variable to itself as a neutral value.
    pub fn to_env(&self) -> (res: Env)
        ensures
            res == nm::ctx_to_env(*self),
        decreases self,
    {
        match self {
            Ctx::Empty => Env::Empty,
            Ctx::Free(x, tv, rest) => Env::Extend(
                x.clone(),
                Box::new(
                    Value::Neutral {
                        type_value: Box::new((**tv).clone()),
                        kind: Box::new(Neutral::Var(x.clone())),
                    },
                ),
                Box::new(rest.to_env()),
            ),
        }
    }

    /// A symbol spelled like `x` that this context does not bind.
    pub fn fresh(&self, x: &Symbol) -> (res: Result<Symbol, Error>)
        ensures
            res == nm::ctx_fresh(*self, *x),
    {
        fresh(&self.names(), x)
    }

    /// A symbol spelled like `x`, bound neither here nor anywhere in `e`.
    pub fn fresh_binder(&self, e: &Core, x: &Symbol) -> (res: Result<Symbol, Error>)
        ensures
            res == nm::fresh_binder(*self, *e, *x),
    {
        let mut used = self.names();
        names_into(e, &mut used);
        fresh(&used, x)
    }
}

impl Renaming {
    /// The empty renaming.
    pub fn new() -> (res: Renaming)
        ensures
            res == Renaming::Empty,
    {
        Renaming::Empty
    }

    /// The new name of `x`, or `x` itself.
    pub fn rename(&self, x: &Symbol) -> (res: Symbol)
        ensures
            res == nm::rename(*self, *x),
        decreases self,
    {
        match self {
            Renaming::Empty => x.clone(),
            Renaming::Rename(from, to, rest) => if from.same(x) {
                to.clone()
            } else {
                rest.rename(x)
            },
        }
    }

    /// This renaming with `x` renamed to `y`.
    pub fn extend(&self, x: Symbol, y: Symbol) -> (res: Renaming)
        ensures
            res == nm::extend_renaming(*self, x, y),
    {
        Renaming::Rename(x, y, Box::new(self.clone()))
    }
}

/// Every name that occurs in `e`.
pub fn occurring_names(e: &Core) -> (res: Vec<Symbol>)
    ensures
        res@ == nm::occurring_names(*e),
{
    let mut out = Vec::new();
    names_into(e, &mut out);
    out
}

fn maybe_typed_names_into(b: &MaybeTyped, out: &mut Vec<Symbol>)
    ensures
        final(out)@ == nm::maybe_typed_names(*b, old(out)@),
    decreases b,
{
    match b {
        MaybeTyped::Plain(e) => names_into(e, out),
        MaybeTyped::The(t, e) => {
            names_into(t, out);
            names_into(e, out);
        },
    }
}

fn core_list_names_into(l: &CoreList, out: &mut Vec<Symbol>)
    ensures
        final(out)@ == nm::core_list_names(*l, old(out)@),
    decreases l,
{
    match l {
        CoreList::Empty => {},
        CoreList::More(e, rest) => {
            names_into(e, out);
            core_list_names_into(rest, out);
        },
    }
}

fn binder_list_names_into(l: &BinderList, out: &mut Vec<Symbol>)
    ensures
        final(out)@ == nm::binder_list_names(*l, old(out)@),
    decreases l,
{
    match l {
        BinderList::Empty => {},
        BinderList::More(x, t, rest) => {
            out.push(x.clone());
            names_into(t, out);
            binder_list_names_into(rest, out);
        },
    }
}

fn symbol_list_into(l: &SymbolList, out: &mut Vec<Symbol>)
    ensures
        final(out)@ == nm::symbol_list_names(*l, old(out)@),
    decreases l,
{
    match l {
        SymbolList::Empty => {},
        SymbolList::More(x, rest) => {
            out.push(x.clone());
            symbol_list_into(rest, out);
        },
    }
}

/// Appends the names that occur in `e` to `out`.
pub fn names_into(e: &Core, out: &mut Vec<Symbol>)
    ensures
        final(out)@ == nm::names_acc(*e, old(out)@),
    decreases e,
{
    match e {
        Core::Invalid(_) | Core::Universe | Core::Nat | Core::Zero | Core::Atom | Core::Quote(_)
        | Core::Nil | Core::VecNil | Core::Trivial | Core::Sole | Core::Absurd => {},
        Core::Add1(a) | Core::Car(a) | Core::Cdr(a) | Core::List(a) | Core::Head(a) | Core::Tail(a)
        | Core::Same(a) | Core::Symm(a) | Core::Left(a) | Core::Right(a) => names_into(a, out),
        Core::Ref(r) => out.push(r.0.clone()),
        Core::Pair(a, b) | Core::Cons(a, b) | Core::ListCons(a, b) | Core::Vector(a, b)
        | Core::VectorCons(a, b) | Core::Cong(a, b) | Core::Either(a, b) | Core::Cong2(a, b, _) => {
            names_into(a, out);
            names_into(b, out);
        },
        Core::The(t) => {
            names_into(&t.typ, out);
            names_into(&t.exp, out);
        },
        Core::App(w) => {
            names_into(&w.fun, out);
            names_into(&w.arg, out);
        },
        Core::WhichNat(w) => {
            names_into(&w.target, out);
            maybe_typed_names_into(&w.base, out);
            names_into(&w.step, out);
        },
        Core::IterNat(w) => {
            names_into(&w.target, out);
            maybe_typed_names_into(&w.base, out);
            names_into(&w.step, out);
        },
        Core::RecNat(w) => {
            names_into(&w.target, out);
            maybe_typed_names_into(&w.base, out);
            names_into(&w.step, out);
        },
        Core::RecList(w) => {
            names_into(&w.target, out);
            maybe_typed_names_into(&w.base, out);
            names_into(&w.step, out);
        },
        Core::IndNat(w) => {
            names_into(&w.target, out);
            names_into(&w.motive, out);
            names_into(&w.base, out);
            names_into(&w.step, out);
        },
        Core::IndList(w) => {
            names_into(&w.target, out);
            names_into(&w.motive, out);
            names_into(&w.base, out);
            names_into(&w.step, out);
        },
        Core::IndVec(w) => {
            names_into(&w.len, out);
            names_into(&w.target, out);
            names_into(&w.motive, out);
            names_into(&w.base, out);
            names_into(&w.step, out);
        },
        Core::IndEither(w) => {
            names_into(&w.target, out);
            names_into(&w.motive, out);
            names_into(&w.left, out);
            names_into(&w.right, out);
        },
        Core::IndAbsurd(w) => {
            names_into(&w.target, out);
            names_into(&w.motive, out);
        },
        Core::Replace(w) => {
            names_into(&w.target, out);
            names_into(&w.motive, out);
            names_into(&w.base, out);
        },
        Core::Equal(w) => {
            names_into(&w.typ, out);
            names_into(&w.from, out);
            names_into(&w.to, out);
        },
        Core::ToDo(t) => match &t.typ {
            Some(ty) => names_into(ty, out),
            None => {},
        },
        Core::Fun(ts) => core_list_names_into(ts, out),
        Core::Pi(p) => {
            out.push(p.arg_name.clone());
            names_into(&p.arg_type, out);
            names_into(&p.res_type, out);
        },
        Core::Sigma(p) => {
            out.push(p.arg_name.clone());
            names_into(&p.car_type, out);
            names_into(&p.cdr_type, out);
        },
        Core::PiStar(bs, r) => {
            binder_list_names_into(bs, out);
            names_into(r, out);
        },
        Core::SigmaStar(bs, r) => {
            binder_list_names_into(bs, out);
            names_into(r, out);
        },
        Core::Lambda(l) => {
            names_into(&l.body, out);
            out.push(l.arg_name.clone());
        },
        Core::LambdaStar(ps, b) => {
            names_into(b, out);
            symbol_list_into(ps, out);
        },
        Core::AppStar(g, args) => {
            names_into(g, out);
            core_list_names_into(args, out);
        },
    }
}

impl MaybeTyped {
    /// Every name written in this base, its type first when it has one.
    pub fn occurring_names(&self) -> (res: Vec<Symbol>)
        ensures
            res@ == nm::maybe_typed_names(*self, Seq::empty()),
    {
        let mut out = Vec::new();
        maybe_typed_names_into(self, &mut out);
        out
    }
}

} // verus!
