//! The printed form of terms: Pie's s-expression syntax.
use vstd::prelude::*;
use vstd::string::*;
use crate::symbol::Name;
use crate::syntax::{BinderList, Core, CoreList, MaybeTyped, SymbolList};

verus! {

/// `acc` followed by the characters of `n`.
pub open spec fn name_acc(n: Name, acc: Seq<char>) -> Seq<char>
    decreases n,
{
    match n {
        Name::End => acc,
        Name::Ch(c, rest) => name_acc(*rest, acc.push(c)),
    }
}

/// `acc` followed by the parameter names of `ps`, separated by spaces.
pub open spec fn params_text_acc(ps: SymbolList, acc: Seq<char>) -> Seq<char> {
    match ps {
        SymbolList::Empty => acc,
        SymbolList::More(x, rest) => more_params_text_acc(*rest, name_acc(x.name, acc)),
    }
}

/// `acc` followed by the parameter names of `ps`, each after a space.
pub open spec fn more_params_text_acc(ps: SymbolList, acc: Seq<char>) -> Seq<char>
    decreases ps,
{
    match ps {
        SymbolList::Empty => acc,
        SymbolList::More(x, rest) => more_params_text_acc(*rest, name_acc(x.name, acc + " "@)),
    }
}

/// `acc` followed by a base as printed: the term, or `(the T b)`.
pub open spec fn base_text_acc(m: MaybeTyped, acc: Seq<char>) -> Seq<char>
    decreases m,
{
    match m {
        MaybeTyped::Plain(b) => text_acc(*b, acc),
        MaybeTyped::The(t, b) => text_acc(*b, text_acc(*t, acc + "(the "@) + " "@) + ")"@,
    }
}

/// `acc` followed by the terms of `ts`, each after a space.
pub open spec fn args_text_acc(ts: CoreList, acc: Seq<char>) -> Seq<char>
    decreases ts,
{
    match ts {
        CoreList::Empty => acc,
        CoreList::More(t, rest) => args_text_acc(*rest, text_acc(*t, acc + " "@)),
    }
}

/// `acc` followed by the binders of `bs` as `(x A)`, separated by spaces.
pub open spec fn binders_text_acc(bs: BinderList, acc: Seq<char>) -> Seq<char>
    decreases bs,
{
    match bs {
        BinderList::Empty => acc,
        BinderList::More(x, t, rest) => more_binders_text_acc(
            *rest,
            text_acc(*t, name_acc(x.name, acc + "("@) + " "@) + ")"@,
        ),
    }
}

/// `acc` followed by the binders of `bs` as `(x A)`, each after a space.
pub open spec fn more_binders_text_acc(bs: BinderList, acc: Seq<char>) -> Seq<char>
    decreases bs,
{
    match bs {
        BinderList::Empty => acc,
        BinderList::More(x, t, rest) => more_binders_text_acc(
            *rest,
            text_acc(*t, name_acc(x.name, acc + " ("@) + " "@) + ")"@,
        ),
    }
}

/// `acc` followed by the printed form of `e`. Variables and binders print
/// as their names, without their indices; quoted atoms with a leading `'`.
/// `iter-Nat` and `rec-List` print under the names `IterNat` and `RecList`,
/// and invalid syntax prints as `U`.
pub open spec fn text_acc(e: Core, acc: Seq<char>) -> Seq<char>
    decreases e,
{
    match e {
        Core::Invalid(_) => acc + "U"@,
        Core::The(t) => text_acc(*t.exp, text_acc(*t.typ, acc + "(the "@) + " "@) + ")"@,
        Core::Universe => acc + "U"@,
        Core::Nat => acc + "Nat"@,
        Core::Zero => acc + "zero"@,
        Core::Add1(n) => text_acc(*n, acc + "(add1 "@) + ")"@,
        Core::WhichNat(w) => text_acc(*w.step, base_text_acc(w.base, text_acc(*w.target, acc + "(which-Nat "@) + " "@) + " "@) + ")"@,
        Core::IterNat(w) => text_acc(*w.step, base_text_acc(w.base, text_acc(*w.target, acc + "(IterNat "@) + " "@) + " "@) + ")"@,
        Core::RecNat(w) => text_acc(*w.step, base_text_acc(w.base, text_acc(*w.target, acc + "(rec-Nat "@) + " "@) + " "@) + ")"@,
        Core::IndNat(w) => text_acc(*w.step, text_acc(*w.base, text_acc(*w.motive, text_acc(*w.target, acc + "(ind-Nat "@) + " "@) + " "@) + " "@) + ")"@,
        Core::Atom => acc + "Atom"@,
        Core::Quote(s) => name_acc(s.name, acc + "'"@),
        Core::Fun(ts) => args_text_acc(ts, acc + "(->"@) + ")"@,
        Core::Pi(p) => text_acc(*p.res_type, text_acc(*p.arg_type, name_acc(p.arg_name.name, acc + "(Π (("@) + " "@) + ")) "@) + ")"@,
        Core::PiStar(bs, r) => text_acc(*r, binders_text_acc(bs, acc + "(Π ("@) + ") "@) + ")"@,
        Core::Lambda(l) => text_acc(*l.body, name_acc(l.arg_name.name, acc + "(λ ("@) + ") "@) + ")"@,
        Core::LambdaStar(ps, b) => text_acc(*b, params_text_acc(ps, acc + "(λ ("@) + ") "@) + ")"@,
        Core::App(a) => text_acc(*a.arg, text_acc(*a.fun, acc + "("@) + " "@) + ")"@,
        Core::AppStar(g, args) => args_text_acc(args, text_acc(*g, acc + "("@)) + ")"@,
        Core::Ref(x) => name_acc(x.0.name, acc),
        Core::Sigma(p) => text_acc(*p.cdr_type, text_acc(*p.car_type, name_acc(p.arg_name.name, acc + "(Σ (("@) + " "@) + ")) "@) + ")"@,
        Core::SigmaStar(bs, d) => text_acc(*d, binders_text_acc(bs, acc + "(Σ ("@) + ") "@) + ")"@,
        Core::Pair(a, d) => text_acc(*d, text_acc(*a, acc + "(Pair "@) + " "@) + ")"@,
        Core::Cons(a, d) => text_acc(*d, text_acc(*a, acc + "(cons "@) + " "@) + ")"@,
        Core::Car(p) => text_acc(*p, acc + "(car "@) + ")"@,
        Core::Cdr(p) => text_acc(*p, acc + "(cdr "@) + ")"@,
        Core::List(t) => text_acc(*t, acc + "(List "@) + ")"@,
        Core::Nil => acc + "nil"@,
        Core::ListCons(h, t) => text_acc(*t, text_acc(*h, acc + "(:: "@) + " "@) + ")"@,
        Core::RecList(w) => text_acc(*w.step, base_text_acc(w.base, text_acc(*w.target, acc + "(RecList "@) + " "@) + " "@) + ")"@,
        Core::IndList(w) => text_acc(*w.step, text_acc(*w.base, text_acc(*w.motive, text_acc(*w.target, acc + "(ind-List "@) + " "@) + " "@) + " "@) + ")"@,
        Core::Vector(t, n) => text_acc(*n, text_acc(*t, acc + "(Vec "@) + " "@) + ")"@,
        Core::VecNil => acc + "vecnil"@,
        Core::VectorCons(h, t) => text_acc(*t, text_acc(*h, acc + "(vec:: "@) + " "@) + ")"@,
        Core::Head(v) => text_acc(*v, acc + "(head "@) + ")"@,
        Core::Tail(v) => text_acc(*v, acc + "(tail "@) + ")"@,
        Core::IndVec(w) => text_acc(*w.step, text_acc(*w.base, text_acc(*w.motive, text_acc(*w.target, text_acc(*w.len, acc + "(ind-Vec "@) + " "@) + " "@) + " "@) + " "@) + ")"@,
        Core::ToDo(t) => {
            let head = name_acc(t.name.name, acc + "(TODO "@) + ": "@;
            match t.typ {
                Some(ty) => text_acc(*ty, head) + ")"@,
                None => head + ")"@,
            }
        },
        Core::Equal(q) => text_acc(*q.to, text_acc(*q.from, text_acc(*q.typ, acc + "(= "@) + " "@) + " "@) + ")"@,
        Core::Same(x) => text_acc(*x, acc + "(same "@) + ")"@,
        Core::Replace(w) => text_acc(*w.base, text_acc(*w.motive, text_acc(*w.target, acc + "(replace "@) + " "@) + " "@) + ")"@,
        Core::Cong(p, g) => text_acc(*g, text_acc(*p, acc + "(cong "@) + " "@) + ")"@,
        Core::Cong2(p, t, g) => text_acc(*g, text_acc(*t, text_acc(*p, acc + "(cong2 "@) + " "@) + " "@) + ")"@,
        Core::Symm(p) => text_acc(*p, acc + "(symm "@) + ")"@,
        Core::Either(l, r) => text_acc(*r, text_acc(*l, acc + "(Either "@) + " "@) + ")"@,
        Core::Left(x) => text_acc(*x, acc + "(left "@) + ")"@,
        Core::Right(x) => text_acc(*x, acc + "(right "@) + ")"@,
        Core::IndEither(w) => text_acc(*w.right, text_acc(*w.left, text_acc(*w.motive, text_acc(*w.target, acc + "(ind-Either "@) + " "@) + " "@) + " "@) + ")"@,
        Core::Trivial => acc + "Trivial"@,
        Core::Sole => acc + "sole"@,
        Core::Absurd => acc + "Absurd"@,
        Core::IndAbsurd(w) => text_acc(*w.motive, text_acc(*w.target, acc + "(ind-Absurd "@) + " "@) + ")"@,
    }
}

/// The printed form of `e`.
pub open spec fn text_of(e: Core) -> Seq<char> {
    text_acc(e, Seq::empty())
}

/// Whether every hole in a base carries its type.
pub open spec fn base_holes_typed(m: MaybeTyped) -> bool
    decreases m,
{
    match m {
        MaybeTyped::Plain(b) => holes_typed(*b),
        MaybeTyped::The(t, b) => holes_typed(*t) && holes_typed(*b),
    }
}

/// Whether every hole in the terms of `ts` carries its type.
pub open spec fn args_holes_typed(ts: CoreList) -> bool
    decreases ts,
{
    match ts {
        CoreList::Empty => true,
        CoreList::More(t, rest) => holes_typed(*t) && args_holes_typed(*rest),
    }
}

/// Whether every hole in the binder types of `bs` carries its type.
pub open spec fn binders_holes_typed(bs: BinderList) -> bool
    decreases bs,
{
    match bs {
        BinderList::Empty => true,
        BinderList::More(_, t, rest) => holes_typed(*t) && binders_holes_typed(*rest),
    }
}

/// Whether every hole (`TODO`) in `e` carries its type, which is printed
/// with it.
pub open spec fn holes_typed(e: Core) -> bool
    decreases e,
{
    match e {
        Core::Invalid(_) => true,
        Core::The(t) => holes_typed(*t.typ) && holes_typed(*t.exp),
        Core::Universe => true,
        Core::Nat => true,
        Core::Zero => true,
        Core::Add1(n) => holes_typed(*n),
        Core::WhichNat(w) => holes_typed(*w.target) && holes_typed(*w.step) && base_holes_typed(w.base),
        Core::IterNat(w) => holes_typed(*w.target) && holes_typed(*w.step) && base_holes_typed(w.base),
        Core::RecNat(w) => holes_typed(*w.target) && holes_typed(*w.step) && base_holes_typed(w.base),
        Core::IndNat(w) => holes_typed(*w.target) && holes_typed(*w.motive) && holes_typed(*w.base) && holes_typed(*w.step),
        Core::Atom => true,
        Core::Quote(s) => true,
        Core::Fun(ts) => args_holes_typed(ts),
        Core::Pi(p) => holes_typed(*p.arg_type) && holes_typed(*p.res_type),
        Core::PiStar(bs, r) => holes_typed(*r) && binders_holes_typed(bs),
        Core::Lambda(l) => holes_typed(*l.body),
        Core::LambdaStar(ps, b) => holes_typed(*b),
        Core::App(a) => holes_typed(*a.fun) && holes_typed(*a.arg),
        Core::AppStar(g, args) => holes_typed(*g) && args_holes_typed(args),
        Core::Ref(x) => true,
        Core::Sigma(p) => holes_typed(*p.car_type) && holes_typed(*p.cdr_type),
        Core::SigmaStar(bs, d) => holes_typed(*d) && binders_holes_typed(bs),
        Core::Pair(a, d) => holes_typed(*a) && holes_typed(*d),
        Core::Cons(a, d) => holes_typed(*a) && holes_typed(*d),
        Core::Car(p) => holes_typed(*p),
        Core::Cdr(p) => holes_typed(*p),
        Core::List(t) => holes_typed(*t),
        Core::Nil => true,
        Core::ListCons(h, t) => holes_typed(*h) && holes_typed(*t),
        Core::RecList(w) => holes_typed(*w.target) && holes_typed(*w.step) && base_holes_typed(w.base),
        Core::IndList(w) => holes_typed(*w.target) && holes_typed(*w.motive) && holes_typed(*w.base) && holes_typed(*w.step),
        Core::Vector(t, n) => holes_typed(*t) && holes_typed(*n),
        Core::VecNil => true,
        Core::VectorCons(h, t) => holes_typed(*h) && holes_typed(*t),
        Core::Head(v) => holes_typed(*v),
        Core::Tail(v) => holes_typed(*v),
        Core::IndVec(w) => holes_typed(*w.len) && holes_typed(*w.target) && holes_typed(*w.motive) && holes_typed(*w.base) && holes_typed(*w.step),
        Core::ToDo(t) => (t.typ matches Some(ty) && holes_typed(*ty)),
        Core::Equal(q) => holes_typed(*q.typ) && holes_typed(*q.from) && holes_typed(*q.to),
        Core::Same(x) => holes_typed(*x),
        Core::Replace(w) => holes_typed(*w.target) && holes_typed(*w.motive) && holes_typed(*w.base),
        Core::Cong(p, g) => holes_typed(*p) && holes_typed(*g),
        Core::Cong2(p, t, g) => holes_typed(*p) && holes_typed(*t) && holes_typed(*g),
        Core::Symm(p) => holes_typed(*p),
        Core::Either(l, r) => holes_typed(*l) && holes_typed(*r),
        Core::Left(x) => holes_typed(*x),
        Core::Right(x) => holes_typed(*x),
        Core::IndEither(w) => holes_typed(*w.target) && holes_typed(*w.motive) && holes_typed(*w.left) && holes_typed(*w.right),
        Core::Trivial => true,
        Core::Sole => true,
        Core::Absurd => true,
        Core::IndAbsurd(w) => holes_typed(*w.target) && holes_typed(*w.motive),
    }
}

/// std's `String::push`: appends `c` to the end of `s`.
#[verifier::external_body]
fn push_char(s: &mut String, c: char)
    ensures
        final(s)@ == old(s)@.push(c),
{
    s.push(c);
}

/// Appends the characters of `n`.
pub fn write_name(n: &Name, out: &mut String)
    ensures
        final(out)@ == name_acc(*n, old(out)@),
    decreases n,
{
    match n {
        Name::End => {},
        Name::Ch(c, rest) => {
            push_char(out, *c);
            write_name(rest, out);
        },
    }
}

/// Appends parameter names after the first, each after a space.
fn write_more_params(ps: &SymbolList, out: &mut String)
    ensures
        final(out)@ == more_params_text_acc(*ps, old(out)@),
    decreases ps,
{
    match ps {
        SymbolList::Empty => {},
        SymbolList::More(x, rest) => {
            out.append(" ");
            write_name(&x.name, out);
            write_more_params(rest, out);
        },
    }
}

/// Appends parameter names separated by spaces.
pub fn write_params(ps: &SymbolList, out: &mut String)
    ensures
        final(out)@ == params_text_acc(*ps, old(out)@),
{
    match ps {
        SymbolList::Empty => {},
        SymbolList::More(x, rest) => {
            write_name(&x.name, out);
            write_more_params(rest, out);
        },
    }
}

/// Appends a base as printed.
pub fn write_base(m: &MaybeTyped, out: &mut String)
    requires
        base_holes_typed(*m),
    ensures
        final(out)@ == base_text_acc(*m, old(out)@),
    decreases m,
{
    match m {
        MaybeTyped::Plain(b) => write_text(b, out),
        MaybeTyped::The(t, b) => {
            out.append("(the ");
            write_text(t, out);
            out.append(" ");
            write_text(b, out);
            out.append(")");
        },
    }
}

/// Appends the terms of `ts`, each after a space.
pub fn write_args(ts: &CoreList, out: &mut String)
    requires
        args_holes_typed(*ts),
    ensures
        final(out)@ == args_text_acc(*ts, old(out)@),
    decreases ts,
{
    match ts {
        CoreList::Empty => {},
        CoreList::More(t, rest) => {
            out.append(" ");
            write_text(t, out);
            write_args(rest, out);
        },
    }
}

/// Appends binders as `(x A)`, separated by spaces.
pub fn write_binders(bs: &BinderList, out: &mut String)
    requires
        binders_holes_typed(*bs),
    ensures
        final(out)@ == binders_text_acc(*bs, old(out)@),
    decreases bs,
{
    match bs {
        BinderList::Empty => {},
        BinderList::More(x, t, rest) => {
            out.append("(");
            write_name(&x.name, out);
            out.append(" ");
            write_text(t, out);
            out.append(")");
            write_more_binders(rest, out);
        },
    }
}

/// Appends binders as `(x A)`, each after a space.
fn write_more_binders(bs: &BinderList, out: &mut String)
    requires
        binders_holes_typed(*bs),
    ensures
        final(out)@ == more_binders_text_acc(*bs, old(out)@),
    decreases bs,
{
    match bs {
        BinderList::Empty => {},
        BinderList::More(x, t, rest) => {
            out.append(" (");
            write_name(&x.name, out);
            out.append(" ");
            write_text(t, out);
            out.append(")");
            write_more_binders(rest, out);
        },
    }
}

/// Appends the printed form of `e`.
pub fn write_text(e: &Core, out: &mut String)
    requires
        holes_typed(*e),
    ensures
        final(out)@ == text_acc(*e, old(out)@),
    decreases e,
{
    match e {
        Core::Invalid(_) => {
            out.append("U");
        },
        Core::The(t) => {
            out.append("(the ");
            write_text(&t.typ, out);
            out.append(" ");
            write_text(&t.exp, out);
            out.append(")");
        },
        Core::Universe => {
            out.append("U");
        },
        Core::Nat => {
            out.append("Nat");
        },
        Core::Zero => {
            out.append("zero");
        },
        Core::Add1(n) => {
            out.append("(add1 ");
            write_text(&n, out);
            out.append(")");
        },
        Core::WhichNat(w) => {
            out.append("(which-Nat ");
            write_text(&w.target, out);
            out.append(" ");
            write_base(&w.base, out);
            out.append(" ");
            write_text(&w.step, out);
            out.append(")");
        },
        Core::IterNat(w) => {
            out.append("(IterNat ");
            write_text(&w.target, out);
            out.append(" ");
            write_base(&w.base, out);
            out.append(" ");
            write_text(&w.step, out);
            out.append(")");
        },
        Core::RecNat(w) => {
            out.append("(rec-Nat ");
            write_text(&w.target, out);
            out.append(" ");
            write_base(&w.base, out);
            out.append(" ");
            write_text(&w.step, out);
            out.append(")");
        },
        Core::IndNat(w) => {
            out.append("(ind-Nat ");
            write_text(&w.target, out);
            out.append(" ");
            write_text(&w.motive, out);
            out.append(" ");
            write_text(&w.base, out);
            out.append(" ");
            write_text(&w.step, out);
            out.append(")");
        },
        Core::Atom => {
            out.append("Atom");
        },
        Core::Quote(s) => {
            out.append("'");
            write_name(&s.name, out);
        },
        Core::Fun(ts) => {
            out.append("(->");
            write_args(ts, out);
            out.append(")");
        },
        Core::Pi(p) => {
            out.append("(Π ((");
            write_name(&p.arg_name.name, out);
            out.append(" ");
            write_text(&p.arg_type, out);
            out.append(")) ");
            write_text(&p.res_type, out);
            out.append(")");
        },
        Core::PiStar(bs, r) => {
            out.append("(Π (");
            write_binders(bs, out);
            out.append(") ");
            write_text(&r, out);
            out.append(")");
        },
        Core::Lambda(l) => {
            out.append("(λ (");
            write_name(&l.arg_name.name, out);
            out.append(") ");
            write_text(&l.body, out);
            out.append(")");
        },
        Core::LambdaStar(ps, b) => {
            out.append("(λ (");
            write_params(ps, out);
            out.append(") ");
            write_text(&b, out);
            out.append(")");
        },
        Core::App(a) => {
            out.append("(");
            write_text(&a.fun, out);
            out.append(" ");
            write_text(&a.arg, out);
            out.append(")");
        },
        Core::AppStar(g, args) => {
            out.append("(");
            write_text(&g, out);
            write_args(args, out);
            out.append(")");
        },
        Core::Ref(x) => {
            write_name(&x.0.name, out);
        },
        Core::Sigma(p) => {
            out.append("(Σ ((");
            write_name(&p.arg_name.name, out);
            out.append(" ");
            write_text(&p.car_type, out);
            out.append(")) ");
            write_text(&p.cdr_type, out);
            out.append(")");
        },
        Core::SigmaStar(bs, d) => {
            out.append("(Σ (");
            write_binders(bs, out);
            out.append(") ");
            write_text(&d, out);
            out.append(")");
        },
        Core::Pair(a, d) => {
            out.append("(Pair ");
            write_text(&a, out);
            out.append(" ");
            write_text(&d, out);
            out.append(")");
        },
        Core::Cons(a, d) => {
            out.append("(cons ");
            write_text(&a, out);
            out.append(" ");
            write_text(&d, out);
            out.append(")");
        },
        Core::Car(p) => {
            out.append("(car ");
            write_text(&p, out);
            out.append(")");
        },
        Core::Cdr(p) => {
            out.append("(cdr ");
            write_text(&p, out);
            out.append(")");
        },
        Core::List(t) => {
            out.append("(List ");
            write_text(&t, out);
            out.append(")");
        },
        Core::Nil => {
            out.append("nil");
        },
        Core::ListCons(h, t) => {
            out.append("(:: ");
            write_text(&h, out);
            out.append(" ");
            write_text(&t, out);
            out.append(")");
        },
        Core::RecList(w) => {
            out.append("(RecList ");
            write_text(&w.target, out);
            out.append(" ");
            write_base(&w.base, out);
            out.append(" ");
            write_text(&w.step, out);
            out.append(")");
        },
        Core::IndList(w) => {
            out.append("(ind-List ");
            write_text(&w.target, out);
            out.append(" ");
            write_text(&w.motive, out);
            out.append(" ");
            write_text(&w.base, out);
            out.append(" ");
            write_text(&w.step, out);
            out.append(")");
        },
        Core::Vector(t, n) => {
            out.append("(Vec ");
            write_text(&t, out);
            out.append(" ");
            write_text(&n, out);
            out.append(")");
        },
        Core::VecNil => {
            out.append("vecnil");
        },
        Core::VectorCons(h, t) => {
            out.append("(vec:: ");
            write_text(&h, out);
            out.append(" ");
            write_text(&t, out);
            out.append(")");
        },
        Core::Head(v) => {
            out.append("(head ");
            write_text(&v, out);
            out.append(")");
        },
        Core::Tail(v) => {
            out.append("(tail ");
            write_text(&v, out);
            out.append(")");
        },
        Core::IndVec(w) => {
            out.append("(ind-Vec ");
            write_text(&w.len, out);
            out.append(" ");
            write_text(&w.target, out);
            out.append(" ");
            write_text(&w.motive, out);
            out.append(" ");
            write_text(&w.base, out);
            out.append(" ");
            write_text(&w.step, out);
            out.append(")");
        },
        Core::ToDo(t) => {
            out.append("(TODO ");
            write_name(&t.name.name, out);
            out.append(": ");
            match &t.typ {
                Some(ty) => write_text(ty, out),
                None => {},
            }
            out.append(")");
        },
        Core::Equal(q) => {
            out.append("(= ");
            write_text(&q.typ, out);
            out.append(" ");
            write_text(&q.from, out);
            out.append(" ");
            write_text(&q.to, out);
            out.append(")");
        },
        Core::Same(x) => {
            out.append("(same ");
            write_text(&x, out);
            out.append(")");
        },
        Core::Replace(w) => {
            out.append("(replace ");
            write_text(&w.target, out);
            out.append(" ");
            write_text(&w.motive, out);
            out.append(" ");
            write_text(&w.base, out);
            out.append(")");
        },
        Core::Cong(p, g) => {
            out.append("(cong ");
            write_text(&p, out);
            out.append(" ");
            write_text(&g, out);
            out.append(")");
        },
        Core::Cong2(p, t, g) => {
            out.append("(cong2 ");
            write_text(&p, out);
            out.append(" ");
            write_text(&t, out);
            out.append(" ");
            write_text(&g, out);
            out.append(")");
        },
        Core::Symm(p) => {
            out.append("(symm ");
            write_text(&p, out);
            out.append(")");
        },
        Core::Either(l, r) => {
            out.append("(Either ");
            write_text(&l, out);
            out.append(" ");
            write_text(&r, out);
            out.append(")");
        },
        Core::Left(x) => {
            out.append("(left ");
            write_text(&x, out);
            out.append(")");
        },
        Core::Right(x) => {
            out.append("(right ");
            write_text(&x, out);
            out.append(")");
        },
        Core::IndEither(w) => {
            out.append("(ind-Either ");
            write_text(&w.target, out);
            out.append(" ");
            write_text(&w.motive, out);
            out.append(" ");
            write_text(&w.left, out);
            out.append(" ");
            write_text(&w.right, out);
            out.append(")");
        },
        Core::Trivial => {
            out.append("Trivial");
        },
        Core::Sole => {
            out.append("sole");
        },
        Core::Absurd => {
            out.append("Absurd");
        },
        Core::IndAbsurd(w) => {
            out.append("(ind-Absurd ");
            write_text(&w.target, out);
            out.append(" ");
            write_text(&w.motive, out);
            out.append(")");
        },
    }
}

impl Core {
    /// This term in Pie's s-expression syntax.
    pub fn to_text(&self) -> (res: String)
        requires
            holes_typed(*self),
        ensures
            res@ == text_of(*self),
    {
        let mut out = String::new();
        write_text(self, &mut out);
        out
    }
}

} // verus!
