//! The printed form of a term is built from the printed forms of its
//! parts: printing after some text gives that text followed by the
//! printed form.
use vstd::prelude::*;
use vstd::seq_lib::lemma_concat_associative;
use crate::symbol::{Name, Symbol};
use crate::syntax::{App, BinderList, Core, CoreList, Equal, Lambda, MaybeTyped, Pi, Ref, Sigma, SymbolList};
use crate::text::{
    args_text_acc, base_text_acc, binders_text_acc, more_binders_text_acc, more_params_text_acc,
    name_acc, params_text_acc, text_acc, text_of,
};

verus! {

proof fn concat_facts()
    ensures
        forall|x: Seq<char>, y: Seq<char>, z: Seq<char>| #[trigger] ((x + y) + z) == x + (y + z),
        forall|x: Seq<char>, y: Seq<char>, c: char| #[trigger] (x + y).push(c) == x + y.push(c),
        forall|x: Seq<char>| #[trigger] (x + Seq::<char>::empty()) == x,
{
    assert forall|x: Seq<char>, y: Seq<char>, z: Seq<char>| #[trigger] ((x + y) + z) == x + (y + z) by {
        lemma_concat_associative(x, y, z);
    }
    assert forall|x: Seq<char>, y: Seq<char>, c: char| #[trigger] (x + y).push(c) == x + y.push(c) by {
        assert((x + y).push(c) =~= x + y.push(c));
    }
    assert forall|x: Seq<char>| #[trigger] (x + Seq::<char>::empty()) == x by {
        assert(x + Seq::<char>::empty() =~= x);
    }
}

proof fn empty_prefix()
    ensures
        forall|x: Seq<char>| #[trigger] (Seq::<char>::empty() + x) == x,
{
    assert forall|x: Seq<char>| #[trigger] (Seq::<char>::empty() + x) == x by {
        assert(Seq::<char>::empty() + x =~= x);
    }
}

proof fn name_shift(n: Name, a: Seq<char>, b: Seq<char>)
    ensures
        name_acc(n, a + b) == a + name_acc(n, b),
    decreases n,
{
    match n {
        Name::End => {},
        Name::Ch(c, rest) => {
            assert((a + b).push(c) =~= a + b.push(c));
            name_shift(*rest, a, b.push(c));
        },
    }
}

proof fn more_params_shift(ps: SymbolList, a: Seq<char>, b: Seq<char>)
    ensures
        more_params_text_acc(ps, a + b) == a + more_params_text_acc(ps, b),
    decreases ps,
{
    concat_facts();
    match ps {
        SymbolList::Empty => {},
        SymbolList::More(x, rest) => {
            assert(more_params_text_acc(ps, a + b) == more_params_text_acc(*rest, name_acc(x.name, (a + b) + " "@)));
            assert(more_params_text_acc(ps, b) == more_params_text_acc(*rest, name_acc(x.name, b + " "@)));
            assert forall|a2: Seq<char>, b2: Seq<char>| #[trigger] name_acc(x.name, a2 + b2) == a2 + name_acc(x.name, b2) by {
                name_shift(x.name, a2, b2);
            }
            assert forall|a2: Seq<char>, b2: Seq<char>| #[trigger] more_params_text_acc(*rest, a2 + b2) == a2 + more_params_text_acc(*rest, b2) by {
                more_params_shift(*rest, a2, b2);
            }
        },
    }
}

proof fn params_shift(ps: SymbolList, a: Seq<char>, b: Seq<char>)
    ensures
        params_text_acc(ps, a + b) == a + params_text_acc(ps, b),
    decreases ps,
{
    concat_facts();
    match ps {
        SymbolList::Empty => {},
        SymbolList::More(x, rest) => {
            assert(params_text_acc(ps, a + b) == more_params_text_acc(*rest, name_acc(x.name, a + b)));
            assert(params_text_acc(ps, b) == more_params_text_acc(*rest, name_acc(x.name, b)));
            assert forall|a2: Seq<char>, b2: Seq<char>| #[trigger] name_acc(x.name, a2 + b2) == a2 + name_acc(x.name, b2) by {
                name_shift(x.name, a2, b2);
            }
            assert forall|a2: Seq<char>, b2: Seq<char>| #[trigger] more_params_text_acc(*rest, a2 + b2) == a2 + more_params_text_acc(*rest, b2) by {
                more_params_shift(*rest, a2, b2);
            }
        },
    }
}

proof fn base_shift(m: MaybeTyped, a: Seq<char>, b: Seq<char>)
    ensures
        base_text_acc(m, a + b) == a + base_text_acc(m, b),
    decreases m,
{
    concat_facts();
    match m {
        MaybeTyped::Plain(e) => {
            assert(base_text_acc(m, a + b) == text_acc(*e, a + b));
            assert(base_text_acc(m, b) == text_acc(*e, b));
            assert forall|a2: Seq<char>, b2: Seq<char>| #[trigger] text_acc(*e, a2 + b2) == a2 + text_acc(*e, b2) by {
                text_shift(*e, a2, b2);
            }
        },
        MaybeTyped::The(t, e) => {
            assert(base_text_acc(m, a + b) == text_acc(*e, text_acc(*t, (a + b) + "(the "@) + " "@) + ")"@);
            assert(base_text_acc(m, b) == text_acc(*e, text_acc(*t, b + "(the "@) + " "@) + ")"@);
            assert forall|a2: Seq<char>, b2: Seq<char>| #[trigger] text_acc(*t, a2 + b2) == a2 + text_acc(*t, b2) by {
                text_shift(*t, a2, b2);
            }
            assert forall|a2: Seq<char>, b2: Seq<char>| #[trigger] text_acc(*e, a2 + b2) == a2 + text_acc(*e, b2) by {
                text_shift(*e, a2, b2);
            }
        },
    }
}

proof fn args_shift(ts: CoreList, a: Seq<char>, b: Seq<char>)
    ensures
        args_text_acc(ts, a + b) == a + args_text_acc(ts, b),
    decreases ts,
{
    concat_facts();
    match ts {
        CoreList::Empty => {},
        CoreList::More(t, rest) => {
            assert forall|a2: Seq<char>, b2: Seq<char>| #[trigger] text_acc(*t, a2 + b2) == a2 + text_acc(*t, b2) by {
                text_shift(*t, a2, b2);
            }
            assert forall|a2: Seq<char>, b2: Seq<char>| #[trigger] args_text_acc(*rest, a2 + b2) == a2 + args_text_acc(*rest, b2) by {
                args_shift(*rest, a2, b2);
            }
            assert(args_text_acc(ts, a + b) == args_text_acc(*rest, text_acc(*t, (a + b) + " "@)));
            assert(args_text_acc(ts, b) == args_text_acc(*rest, text_acc(*t, b + " "@)));
        },
    }
}

proof fn more_binders_shift(bs: BinderList, a: Seq<char>, b: Seq<char>)
    ensures
        more_binders_text_acc(bs, a + b) == a + more_binders_text_acc(bs, b),
    decreases bs,
{
    concat_facts();
    match bs {
        BinderList::Empty => {},
        BinderList::More(x, t, rest) => {
            assert(more_binders_text_acc(bs, a + b) == more_binders_text_acc(*rest, text_acc(*t, name_acc(x.name, (a + b) + " ("@) + " "@) + ")"@));
            assert(more_binders_text_acc(bs, b) == more_binders_text_acc(*rest, text_acc(*t, name_acc(x.name, b + " ("@) + " "@) + ")"@));
            assert forall|a2: Seq<char>, b2: Seq<char>| #[trigger] name_acc(x.name, a2 + b2) == a2 + name_acc(x.name, b2) by {
                name_shift(x.name, a2, b2);
            }
            assert forall|a2: Seq<char>, b2: Seq<char>| #[trigger] text_acc(*t, a2 + b2) == a2 + text_acc(*t, b2) by {
                text_shift(*t, a2, b2);
            }
            assert forall|a2: Seq<char>, b2: Seq<char>| #[trigger] more_binders_text_acc(*rest, a2 + b2) == a2 + more_binders_text_acc(*rest, b2) by {
                more_binders_shift(*rest, a2, b2);
            }
        },
    }
}

proof fn binders_shift(bs: BinderList, a: Seq<char>, b: Seq<char>)
    ensures
        binders_text_acc(bs, a + b) == a + binders_text_acc(bs, b),
    decreases bs,
{
    concat_facts();
    match bs {
        BinderList::Empty => {},
        BinderList::More(x, t, rest) => {
            assert(binders_text_acc(bs, a + b) == more_binders_text_acc(*rest, text_acc(*t, name_acc(x.name, (a + b) + "("@) + " "@) + ")"@));
            assert(binders_text_acc(bs, b) == more_binders_text_acc(*rest, text_acc(*t, name_acc(x.name, b + "("@) + " "@) + ")"@));
            assert forall|a2: Seq<char>, b2: Seq<char>| #[trigger] name_acc(x.name, a2 + b2) == a2 + name_acc(x.name, b2) by {
                name_shift(x.name, a2, b2);
            }
            assert forall|a2: Seq<char>, b2: Seq<char>| #[trigger] text_acc(*t, a2 + b2) == a2 + text_acc(*t, b2) by {
                text_shift(*t, a2, b2);
            }
            assert forall|a2: Seq<char>, b2: Seq<char>| #[trigger] more_binders_text_acc(*rest, a2 + b2) == a2 + more_binders_text_acc(*rest, b2) by {
                more_binders_shift(*rest, a2, b2);
            }
        },
    }
}

/// Printing a term after the text `pa` gives `pa` followed by what
/// printing it after `pb` gives.
pub proof fn text_shift(e: Core, pa: Seq<char>, pb: Seq<char>)
    ensures
        text_acc(e, pa + pb) == pa + text_acc(e, pb),
    decreases e, 1nat,
{
    if e is Invalid || e is The || e is Universe || e is Nat || e is Zero {
        text_shift_part0(e, pa, pb);
    } else if e is Add1 || e is WhichNat || e is IterNat || e is RecNat || e is IndNat {
        text_shift_part1(e, pa, pb);
    } else if e is Atom || e is Quote || e is Fun || e is Pi || e is PiStar {
        text_shift_part2(e, pa, pb);
    } else if e is Lambda || e is LambdaStar || e is App || e is AppStar || e is Ref {
        text_shift_part3(e, pa, pb);
    } else if e is Sigma || e is SigmaStar || e is Pair || e is Cons || e is Car {
        text_shift_part4(e, pa, pb);
    } else if e is Cdr || e is List || e is Nil || e is ListCons || e is RecList {
        text_shift_part5(e, pa, pb);
    } else if e is IndList || e is Vector || e is VecNil || e is VectorCons || e is Head {
        text_shift_part6(e, pa, pb);
    } else if e is Tail || e is IndVec || e is ToDo || e is Equal || e is Same {
        text_shift_part7(e, pa, pb);
    } else if e is Replace || e is Cong || e is Cong2 || e is Symm || e is Either {
        text_shift_part8(e, pa, pb);
    } else if e is Left || e is Right || e is IndEither || e is Trivial || e is Sole {
        text_shift_part9(e, pa, pb);
    } else if e is Absurd || e is IndAbsurd {
        text_shift_part10(e, pa, pb);
    }
}

#[verifier::spinoff_prover]
#[verifier::rlimit(80)]
proof fn text_shift_part0(e: Core, pa: Seq<char>, pb: Seq<char>)
    requires
        e is Invalid || e is The || e is Universe || e is Nat || e is Zero,
    ensures
        text_acc(e, pa + pb) == pa + text_acc(e, pb),
    decreases e, 0nat,
{
    concat_facts();
    match e {
        Core::Invalid(_) => {
            assert(text_acc(e, pa + pb) == (pa + pb) + "U"@);
            assert(text_acc(e, pb) == pb + "U"@);
        },
        Core::The(t) => {
            assert(text_acc(e, pa + pb) == text_acc(*t.exp, text_acc(*t.typ, (pa + pb) + "(the "@) + " "@) + ")"@);
            assert(text_acc(e, pb) == text_acc(*t.exp, text_acc(*t.typ, pb + "(the "@) + " "@) + ")"@);
            assert forall|a2: Seq<char>, b2: Seq<char>| #[trigger] text_acc(*t.exp, a2 + b2) == a2 + text_acc(*t.exp, b2) by {
                text_shift(*t.exp, a2, b2);
            }
            assert forall|a2: Seq<char>, b2: Seq<char>| #[trigger] text_acc(*t.typ, a2 + b2) == a2 + text_acc(*t.typ, b2) by {
                text_shift(*t.typ, a2, b2);
            }
        },
        Core::Universe => {
            assert(text_acc(e, pa + pb) == (pa + pb) + "U"@);
            assert(text_acc(e, pb) == pb + "U"@);
        },
        Core::Nat => {
            assert(text_acc(e, pa + pb) == (pa + pb) + "Nat"@);
            assert(text_acc(e, pb) == pb + "Nat"@);
        },
        Core::Zero => {
            assert(text_acc(e, pa + pb) == (pa + pb) + "zero"@);
            assert(text_acc(e, pb) == pb + "zero"@);
        },
        _ => {},
    }
}

#[verifier::spinoff_prover]
#[verifier::rlimit(80)]
proof fn text_shift_part1(e: Core, pa: Seq<char>, pb: Seq<char>)
    requires
        e is Add1 || e is WhichNat || e is IterNat || e is RecNat || e is IndNat,
    ensures
        text_acc(e, pa + pb) == pa + text_acc(e, pb),
    decreases e, 0nat,
{
    concat_facts();
    match e {
        Core::Add1(n) => {
            assert(text_acc(e, pa + pb) == text_acc(*n, (pa + pb) + "(add1 "@) + ")"@);
            assert(text_acc(e, pb) == text_acc(*n, pb + "(add1 "@) + ")"@);
            assert forall|a2: Seq<char>, b2: Seq<char>| #[trigger] text_acc(*n, a2 + b2) == a2 + text_acc(*n, b2) by {
                text_shift(*n, a2, b2);
            }
        },
        Core::WhichNat(w) => {
            assert(text_acc(e, pa + pb) == text_acc(*w.step, base_text_acc(w.base, text_acc(*w.target, (pa + pb) + "(which-Nat "@) + " "@) + " "@) + ")"@);
            assert(text_acc(e, pb) == text_acc(*w.step, base_text_acc(w.base, text_acc(*w.target, pb + "(which-Nat "@) + " "@) + " "@) + ")"@);
            assert forall|a2: Seq<char>, b2: Seq<char>| #[trigger] text_acc(*w.step, a2 + b2) == a2 + text_acc(*w.step, b2) by {
                text_shift(*w.step, a2, b2);
            }
            assert forall|a2: Seq<char>, b2: Seq<char>| #[trigger] text_acc(*w.target, a2 + b2) == a2 + text_acc(*w.target, b2) by {
                text_shift(*w.target, a2, b2);
            }
            assert forall|a2: Seq<char>, b2: Seq<char>| #[trigger] base_text_acc(w.base, a2 + b2) == a2 + base_text_acc(w.base, b2) by {
                base_shift(w.base, a2, b2);
            }
        },
        Core::IterNat(w) => {
            assert(text_acc(e, pa + pb) == text_acc(*w.step, base_text_acc(w.base, text_acc(*w.target, (pa + pb) + "(IterNat "@) + " "@) + " "@) + ")"@);
            assert(text_acc(e, pb) == text_acc(*w.step, base_text_acc(w.base, text_acc(*w.target, pb + "(IterNat "@) + " "@) + " "@) + ")"@);
            assert forall|a2: Seq<char>, b2: Seq<char>| #[trigger] text_acc(*w.step, a2 + b2) == a2 + text_acc(*w.step, b2) by {
                text_shift(*w.step, a2, b2);
            }
            assert forall|a2: Seq<char>, b2: Seq<char>| #[trigger] text_acc(*w.target, a2 + b2) == a2 + text_acc(*w.target, b2) by {
                text_shift(*w.target, a2, b2);
            }
            assert forall|a2: Seq<char>, b2: Seq<char>| #[trigger] base_text_acc(w.base, a2 + b2) == a2 + base_text_acc(w.base, b2) by {
                base_shift(w.base, a2, b2);
            }
        },
        Core::RecNat(w) => {
            assert(text_acc(e, pa + pb) == text_acc(*w.step, base_text_acc(w.base, text_acc(*w.target, (pa + pb) + "(rec-Nat "@) + " "@) + " "@) + ")"@);
            assert(text_acc(e, pb) == text_acc(*w.step, base_text_acc(w.base, text_acc(*w.target, pb + "(rec-Nat "@) + " "@) + " "@) + ")"@);
            assert forall|a2: Seq<char>, b2: Seq<char>| #[trigger] text_acc(*w.step, a2 + b2) == a2 + text_acc(*w.step, b2) by {
                text_shift(*w.step, a2, b2);
            }
            assert forall|a2: Seq<char>, b2: Seq<char>| #[trigger] text_acc(*w.target, a2 + b2) == a2 + text_acc(*w.target, b2) by {
                text_shift(*w.target, a2, b2);
            }
            assert forall|a2: Seq<char>, b2: Seq<char>| #[trigger] base_text_acc(w.base, a2 + b2) == a2 + base_text_acc(w.base, b2) by {
                base_shift(w.base, a2, b2);
            }
        },
        Core::IndNat(w) => {
            assert(text_acc(e, pa + pb) == text_acc(*w.step, text_acc(*w.base, text_acc(*w.motive, text_acc(*w.target, (pa + pb) + "(ind-Nat "@) + " "@) + " "@) + " "@) + ")"@);
            assert(text_acc(e, pb) == text_acc(*w.step, text_acc(*w.base, text_acc(*w.motive, text_acc(*w.target, pb + "(ind-Nat "@) + " "@) + " "@) + " "@) + ")"@);
            assert forall|a2: Seq<char>, b2: Seq<char>| #[trigger] text_acc(*w.step, a2 + b2) == a2 + text_acc(*w.step, b2) by {
                text_shift(*w.step, a2, b2);
            }
            assert forall|a2: Seq<char>, b2: Seq<char>| #[trigger] text_acc(*w.base, a2 + b2) == a2 + text_acc(*w.base, b2) by {
                text_shift(*w.base, a2, b2);
            }
            assert forall|a2: Seq<char>, b2: Seq<char>| #[trigger] text_acc(*w.motive, a2 + b2) == a2 + text_acc(*w.motive, b2) by {
                text_shift(*w.motive, a2, b2);
            }
            assert forall|a2: Seq<char>, b2: Seq<char>| #[trigger] text_acc(*w.target, a2 + b2) == a2 + text_acc(*w.target, b2) by {
                text_shift(*w.target, a2, b2);
            }
        },
        _ => {},
    }
}

#[verifier::spinoff_prover]
#[verifier::rlimit(80)]
proof fn text_shift_part2(e: Core, pa: Seq<char>, pb: Seq<char>)
    requires
        e is Atom || e is Quote || e is Fun || e is Pi || e is PiStar,
    ensures
        text_acc(e, pa + pb) == pa + text_acc(e, pb),
    decreases e, 0nat,
{
    concat_facts();
    match e {
        Core::Atom => {
            assert(text_acc(e, pa + pb) == (pa + pb) + "Atom"@);
            assert(text_acc(e, pb) == pb + "Atom"@);
        },
        Core::Quote(s) => {
            assert(text_acc(e, pa + pb) == name_acc(s.name, (pa + pb) + "'"@));
            assert(text_acc(e, pb) == name_acc(s.name, pb + "'"@));
            assert forall|a2: Seq<char>, b2: Seq<char>| #[trigger] name_acc(s.name, a2 + b2) == a2 + name_acc(s.name, b2) by {
                name_shift(s.name, a2, b2);
            }
        },
        Core::Fun(ts) => {
            assert(text_acc(e, pa + pb) == args_text_acc(ts, (pa + pb) + "(->"@) + ")"@);
            assert(text_acc(e, pb) == args_text_acc(ts, pb + "(->"@) + ")"@);
            assert forall|a2: Seq<char>, b2: Seq<char>| #[trigger] args_text_acc(ts, a2 + b2) == a2 + args_text_acc(ts, b2) by {
                args_shift(ts, a2, b2);
            }
        },
        Core::Pi(p) => {
            assert(text_acc(e, pa + pb) == text_acc(*p.res_type, text_acc(*p.arg_type, name_acc(p.arg_name.name, (pa + pb) + "(Π (("@) + " "@) + ")) "@) + ")"@);
            assert(text_acc(e, pb) == text_acc(*p.res_type, text_acc(*p.arg_type, name_acc(p.arg_name.name, pb + "(Π (("@) + " "@) + ")) "@) + ")"@);
            assert forall|a2: Seq<char>, b2: Seq<char>| #[trigger] text_acc(*p.res_type, a2 + b2) == a2 + text_acc(*p.res_type, b2) by {
                text_shift(*p.res_type, a2, b2);
            }
            assert forall|a2: Seq<char>, b2: Seq<char>| #[trigger] text_acc(*p.arg_type, a2 + b2) == a2 + text_acc(*p.arg_type, b2) by {
                text_shift(*p.arg_type, a2, b2);
            }
            assert forall|a2: Seq<char>, b2: Seq<char>| #[trigger] name_acc(p.arg_name.name, a2 + b2) == a2 + name_acc(p.arg_name.name, b2) by {
                name_shift(p.arg_name.name, a2, b2);
            }
        },
        Core::PiStar(bs, r) => {
            assert(text_acc(e, pa + pb) == text_acc(*r, binders_text_acc(bs, (pa + pb) + "(Π ("@) + ") "@) + ")"@);
            assert(text_acc(e, pb) == text_acc(*r, binders_text_acc(bs, pb + "(Π ("@) + ") "@) + ")"@);
            assert forall|a2: Seq<char>, b2: Seq<char>| #[trigger] text_acc(*r, a2 + b2) == a2 + text_acc(*r, b2) by {
                text_shift(*r, a2, b2);
            }
            assert forall|a2: Seq<char>, b2: Seq<char>| #[trigger] binders_text_acc(bs, a2 + b2) == a2 + binders_text_acc(bs, b2) by {
                binders_shift(bs, a2, b2);
            }
        },
        _ => {},
    }
}

#[verifier::spinoff_prover]
#[verifier::rlimit(80)]
proof fn text_shift_part3(e: Core, pa: Seq<char>, pb: Seq<char>)
    requires
        e is Lambda || e is LambdaStar || e is App || e is AppStar || e is Ref,
    ensures
        text_acc(e, pa + pb) == pa + text_acc(e, pb),
    decreases e, 0nat,
{
    concat_facts();
    match e {
        Core::Lambda(l) => {
            assert(text_acc(e, pa + pb) == text_acc(*l.body, name_acc(l.arg_name.name, (pa + pb) + "(λ ("@) + ") "@) + ")"@);
            assert(text_acc(e, pb) == text_acc(*l.body, name_acc(l.arg_name.name, pb + "(λ ("@) + ") "@) + ")"@);
            assert forall|a2: Seq<char>, b2: Seq<char>| #[trigger] text_acc(*l.body, a2 + b2) == a2 + text_acc(*l.body, b2) by {
                text_shift(*l.body, a2, b2);
            }
            assert forall|a2: Seq<char>, b2: Seq<char>| #[trigger] name_acc(l.arg_name.name, a2 + b2) == a2 + name_acc(l.arg_name.name, b2) by {
                name_shift(l.arg_name.name, a2, b2);
            }
        },
        Core::LambdaStar(ps, b) => {
            assert(text_acc(e, pa + pb) == text_acc(*b, params_text_acc(ps, (pa + pb) + "(λ ("@) + ") "@) + ")"@);
            assert(text_acc(e, pb) == text_acc(*b, params_text_acc(ps, pb + "(λ ("@) + ") "@) + ")"@);
            assert forall|a2: Seq<char>, b2: Seq<char>| #[trigger] text_acc(*b, a2 + b2) == a2 + text_acc(*b, b2) by {
                text_shift(*b, a2, b2);
            }
            assert forall|a2: Seq<char>, b2: Seq<char>| #[trigger] params_text_acc(ps, a2 + b2) == a2 + params_text_acc(ps, b2) by {
                params_shift(ps, a2, b2);
            }
        },
        Core::App(a) => {
            assert(text_acc(e, pa + pb) == text_acc(*a.arg, text_acc(*a.fun, (pa + pb) + "("@) + " "@) + ")"@);
            assert(text_acc(e, pb) == text_acc(*a.arg, text_acc(*a.fun, pb + "("@) + " "@) + ")"@);
            assert forall|a2: Seq<char>, b2: Seq<char>| #[trigger] text_acc(*a.arg, a2 + b2) == a2 + text_acc(*a.arg, b2) by {
                text_shift(*a.arg, a2, b2);
            }
            assert forall|a2: Seq<char>, b2: Seq<char>| #[trigger] text_acc(*a.fun, a2 + b2) == a2 + text_acc(*a.fun, b2) by {
                text_shift(*a.fun, a2, b2);
            }
        },
        Core::AppStar(g, args) => {
            assert(text_acc(e, pa + pb) == args_text_acc(args, text_acc(*g, (pa + pb) + "("@)) + ")"@);
            assert(text_acc(e, pb) == args_text_acc(args, text_acc(*g, pb + "("@)) + ")"@);
            assert forall|a2: Seq<char>, b2: Seq<char>| #[trigger] text_acc(*g, a2 + b2) == a2 + text_acc(*g, b2) by {
                text_shift(*g, a2, b2);
            }
            assert forall|a2: Seq<char>, b2: Seq<char>| #[trigger] args_text_acc(args, a2 + b2) == a2 + args_text_acc(args, b2) by {
                args_shift(args, a2, b2);
            }
        },
        Core::Ref(x) => {
            assert(text_acc(e, pa + pb) == name_acc(x.0.name, (pa + pb)));
            assert(text_acc(e, pb) == name_acc(x.0.name, pb));
            assert forall|a2: Seq<char>, b2: Seq<char>| #[trigger] name_acc(x.0.name, a2 + b2) == a2 + name_acc(x.0.name, b2) by {
                name_shift(x.0.name, a2, b2);
            }
        },
        _ => {},
    }
}

#[verifier::spinoff_prover]
#[verifier::rlimit(80)]
proof fn text_shift_part4(e: Core, pa: Seq<char>, pb: Seq<char>)
    requires
        e is Sigma || e is SigmaStar || e is Pair || e is Cons || e is Car,
    ensures
        text_acc(e, pa + pb) == pa + text_acc(e, pb),
    decreases e, 0nat,
{
    concat_facts();
    match e {
        Core::Sigma(p) => {
            assert(text_acc(e, pa + pb) == text_acc(*p.cdr_type, text_acc(*p.car_type, name_acc(p.arg_name.name, (pa + pb) + "(Σ (("@) + " "@) + ")) "@) + ")"@);
            assert(text_acc(e, pb) == text_acc(*p.cdr_type, text_acc(*p.car_type, name_acc(p.arg_name.name, pb + "(Σ (("@) + " "@) + ")) "@) + ")"@);
            assert forall|a2: Seq<char>, b2: Seq<char>| #[trigger] text_acc(*p.cdr_type, a2 + b2) == a2 + text_acc(*p.cdr_type, b2) by {
                text_shift(*p.cdr_type, a2, b2);
            }
            assert forall|a2: Seq<char>, b2: Seq<char>| #[trigger] text_acc(*p.car_type, a2 + b2) == a2 + text_acc(*p.car_type, b2) by {
                text_shift(*p.car_type, a2, b2);
            }
            assert forall|a2: Seq<char>, b2: Seq<char>| #[trigger] name_acc(p.arg_name.name, a2 + b2) == a2 + name_acc(p.arg_name.name, b2) by {
                name_shift(p.arg_name.name, a2, b2);
            }
        },
        Core::SigmaStar(bs, d) => {
            assert(text_acc(e, pa + pb) == text_acc(*d, binders_text_acc(bs, (pa + pb) + "(Σ ("@) + ") "@) + ")"@);
            assert(text_acc(e, pb) == text_acc(*d, binders_text_acc(bs, pb + "(Σ ("@) + ") "@) + ")"@);
            assert forall|a2: Seq<char>, b2: Seq<char>| #[trigger] text_acc(*d, a2 + b2) == a2 + text_acc(*d, b2) by {
                text_shift(*d, a2, b2);
            }
            assert forall|a2: Seq<char>, b2: Seq<char>| #[trigger] binders_text_acc(bs, a2 + b2) == a2 + binders_text_acc(bs, b2) by {
                binders_shift(bs, a2, b2);
            }
        },
        Core::Pair(a, d) => {
            assert(text_acc(e, pa + pb) == text_acc(*d, text_acc(*a, (pa + pb) + "(Pair "@) + " "@) + ")"@);
            assert(text_acc(e, pb) == text_acc(*d, text_acc(*a, pb + "(Pair "@) + " "@) + ")"@);
            assert forall|a2: Seq<char>, b2: Seq<char>| #[trigger] text_acc(*d, a2 + b2) == a2 + text_acc(*d, b2) by {
                text_shift(*d, a2, b2);
            }
            assert forall|a2: Seq<char>, b2: Seq<char>| #[trigger] text_acc(*a, a2 + b2) == a2 + text_acc(*a, b2) by {
                text_shift(*a, a2, b2);
            }
        },
        Core::Cons(a, d) => {
            assert(text_acc(e, pa + pb) == text_acc(*d, text_acc(*a, (pa + pb) + "(cons "@) + " "@) + ")"@);
            assert(text_acc(e, pb) == text_acc(*d, text_acc(*a, pb + "(cons "@) + " "@) + ")"@);
            assert forall|a2: Seq<char>, b2: Seq<char>| #[trigger] text_acc(*d, a2 + b2) == a2 + text_acc(*d, b2) by {
                text_shift(*d, a2, b2);
            }
            assert forall|a2: Seq<char>, b2: Seq<char>| #[trigger] text_acc(*a, a2 + b2) == a2 + text_acc(*a, b2) by {
                text_shift(*a, a2, b2);
            }
        },
        Core::Car(p) => {
            assert(text_acc(e, pa + pb) == text_acc(*p, (pa + pb) + "(car "@) + ")"@);
            assert(text_acc(e, pb) == text_acc(*p, pb + "(car "@) + ")"@);
            assert forall|a2: Seq<char>, b2: Seq<char>| #[trigger] text_acc(*p, a2 + b2) == a2 + text_acc(*p, b2) by {
                text_shift(*p, a2, b2);
            }
        },
        _ => {},
    }
}

#[verifier::spinoff_prover]
#[verifier::rlimit(80)]
proof fn text_shift_part5(e: Core, pa: Seq<char>, pb: Seq<char>)
    requires
        e is Cdr || e is List || e is Nil || e is ListCons || e is RecList,
    ensures
        text_acc(e, pa + pb) == pa + text_acc(e, pb),
    decreases e, 0nat,
{
    concat_facts();
    match e {
        Core::Cdr(p) => {
            assert(text_acc(e, pa + pb) == text_acc(*p, (pa + pb) + "(cdr "@) + ")"@);
            assert(text_acc(e, pb) == text_acc(*p, pb + "(cdr "@) + ")"@);
            assert forall|a2: Seq<char>, b2: Seq<char>| #[trigger] text_acc(*p, a2 + b2) == a2 + text_acc(*p, b2) by {
                text_shift(*p, a2, b2);
            }
        },
        Core::List(t) => {
            assert(text_acc(e, pa + pb) == text_acc(*t, (pa + pb) + "(List "@) + ")"@);
            assert(text_acc(e, pb) == text_acc(*t, pb + "(List "@) + ")"@);
            assert forall|a2: Seq<char>, b2: Seq<char>| #[trigger] text_acc(*t, a2 + b2) == a2 + text_acc(*t, b2) by {
                text_shift(*t, a2, b2);
            }
        },
        Core::Nil => {
            assert(text_acc(e, pa + pb) == (pa + pb) + "nil"@);
            assert(text_acc(e, pb) == pb + "nil"@);
        },
        Core::ListCons(h, t) => {
            assert(text_acc(e, pa + pb) == text_acc(*t, text_acc(*h, (pa + pb) + "(:: "@) + " "@) + ")"@);
            assert(text_acc(e, pb) == text_acc(*t, text_acc(*h, pb + "(:: "@) + " "@) + ")"@);
            assert forall|a2: Seq<char>, b2: Seq<char>| #[trigger] text_acc(*t, a2 + b2) == a2 + text_acc(*t, b2) by {
                text_shift(*t, a2, b2);
            }
            assert forall|a2: Seq<char>, b2: Seq<char>| #[trigger] text_acc(*h, a2 + b2) == a2 + text_acc(*h, b2) by {
                text_shift(*h, a2, b2);
            }
        },
        Core::RecList(w) => {
            assert(text_acc(e, pa + pb) == text_acc(*w.step, base_text_acc(w.base, text_acc(*w.target, (pa + pb) + "(RecList "@) + " "@) + " "@) + ")"@);
            assert(text_acc(e, pb) == text_acc(*w.step, base_text_acc(w.base, text_acc(*w.target, pb + "(RecList "@) + " "@) + " "@) + ")"@);
            assert forall|a2: Seq<char>, b2: Seq<char>| #[trigger] text_acc(*w.step, a2 + b2) == a2 + text_acc(*w.step, b2) by {
                text_shift(*w.step, a2, b2);
            }
            assert forall|a2: Seq<char>, b2: Seq<char>| #[trigger] text_acc(*w.target, a2 + b2) == a2 + text_acc(*w.target, b2) by {
                text_shift(*w.target, a2, b2);
            }
            assert forall|a2: Seq<char>, b2: Seq<char>| #[trigger] base_text_acc(w.base, a2 + b2) == a2 + base_text_acc(w.base, b2) by {
                base_shift(w.base, a2, b2);
            }
        },
        _ => {},
    }
}

#[verifier::spinoff_prover]
#[verifier::rlimit(80)]
proof fn text_shift_part6(e: Core, pa: Seq<char>, pb: Seq<char>)
    requires
        e is IndList || e is Vector || e is VecNil || e is VectorCons || e is Head,
    ensures
        text_acc(e, pa + pb) == pa + text_acc(e, pb),
    decreases e, 0nat,
{
    concat_facts();
    match e {
        Core::IndList(w) => {
            assert(text_acc(e, pa + pb) == text_acc(*w.step, text_acc(*w.base, text_acc(*w.motive, text_acc(*w.target, (pa + pb) + "(ind-List "@) + " "@) + " "@) + " "@) + ")"@);
            assert(text_acc(e, pb) == text_acc(*w.step, text_acc(*w.base, text_acc(*w.motive, text_acc(*w.target, pb + "(ind-List "@) + " "@) + " "@) + " "@) + ")"@);
            assert forall|a2: Seq<char>, b2: Seq<char>| #[trigger] text_acc(*w.step, a2 + b2) == a2 + text_acc(*w.step, b2) by {
                text_shift(*w.step, a2, b2);
            }
            assert forall|a2: Seq<char>, b2: Seq<char>| #[trigger] text_acc(*w.base, a2 + b2) == a2 + text_acc(*w.base, b2) by {
                text_shift(*w.base, a2, b2);
            }
            assert forall|a2: Seq<char>, b2: Seq<char>| #[trigger] text_acc(*w.motive, a2 + b2) == a2 + text_acc(*w.motive, b2) by {
                text_shift(*w.motive, a2, b2);
            }
            assert forall|a2: Seq<char>, b2: Seq<char>| #[trigger] text_acc(*w.target, a2 + b2) == a2 + text_acc(*w.target, b2) by {
                text_shift(*w.target, a2, b2);
            }
        },
        Core::Vector(t, n) => {
            assert(text_acc(e, pa + pb) == text_acc(*n, text_acc(*t, (pa + pb) + "(Vec "@) + " "@) + ")"@);
            assert(text_acc(e, pb) == text_acc(*n, text_acc(*t, pb + "(Vec "@) + " "@) + ")"@);
            assert forall|a2: Seq<char>, b2: Seq<char>| #[trigger] text_acc(*n, a2 + b2) == a2 + text_acc(*n, b2) by {
                text_shift(*n, a2, b2);
            }
            assert forall|a2: Seq<char>, b2: Seq<char>| #[trigger] text_acc(*t, a2 + b2) == a2 + text_acc(*t, b2) by {
                text_shift(*t, a2, b2);
            }
        },
        Core::VecNil => {
            assert(text_acc(e, pa + pb) == (pa + pb) + "vecnil"@);
            assert(text_acc(e, pb) == pb + "vecnil"@);
        },
        Core::VectorCons(h, t) => {
            assert(text_acc(e, pa + pb) == text_acc(*t, text_acc(*h, (pa + pb) + "(vec:: "@) + " "@) + ")"@);
            assert(text_acc(e, pb) == text_acc(*t, text_acc(*h, pb + "(vec:: "@) + " "@) + ")"@);
            assert forall|a2: Seq<char>, b2: Seq<char>| #[trigger] text_acc(*t, a2 + b2) == a2 + text_acc(*t, b2) by {
                text_shift(*t, a2, b2);
            }
            assert forall|a2: Seq<char>, b2: Seq<char>| #[trigger] text_acc(*h, a2 + b2) == a2 + text_acc(*h, b2) by {
                text_shift(*h, a2, b2);
            }
        },
        Core::Head(v) => {
            assert(text_acc(e, pa + pb) == text_acc(*v, (pa + pb) + "(head "@) + ")"@);
            assert(text_acc(e, pb) == text_acc(*v, pb + "(head "@) + ")"@);
            assert forall|a2: Seq<char>, b2: Seq<char>| #[trigger] text_acc(*v, a2 + b2) == a2 + text_acc(*v, b2) by {
                text_shift(*v, a2, b2);
            }
        },
        _ => {},
    }
}

#[verifier::spinoff_prover]
#[verifier::rlimit(80)]
proof fn text_shift_part7(e: Core, pa: Seq<char>, pb: Seq<char>)
    requires
        e is Tail || e is IndVec || e is ToDo || e is Equal || e is Same,
    ensures
        text_acc(e, pa + pb) == pa + text_acc(e, pb),
    decreases e, 0nat,
{
    concat_facts();
    match e {
        Core::Tail(v) => {
            assert(text_acc(e, pa + pb) == text_acc(*v, (pa + pb) + "(tail "@) + ")"@);
            assert(text_acc(e, pb) == text_acc(*v, pb + "(tail "@) + ")"@);
            assert forall|a2: Seq<char>, b2: Seq<char>| #[trigger] text_acc(*v, a2 + b2) == a2 + text_acc(*v, b2) by {
                text_shift(*v, a2, b2);
            }
        },
        Core::IndVec(w) => {
            assert(text_acc(e, pa + pb) == text_acc(*w.step, text_acc(*w.base, text_acc(*w.motive, text_acc(*w.target, text_acc(*w.len, (pa + pb) + "(ind-Vec "@) + " "@) + " "@) + " "@) + " "@) + ")"@);
            assert(text_acc(e, pb) == text_acc(*w.step, text_acc(*w.base, text_acc(*w.motive, text_acc(*w.target, text_acc(*w.len, pb + "(ind-Vec "@) + " "@) + " "@) + " "@) + " "@) + ")"@);
            assert forall|a2: Seq<char>, b2: Seq<char>| #[trigger] text_acc(*w.step, a2 + b2) == a2 + text_acc(*w.step, b2) by {
                text_shift(*w.step, a2, b2);
            }
            assert forall|a2: Seq<char>, b2: Seq<char>| #[trigger] text_acc(*w.base, a2 + b2) == a2 + text_acc(*w.base, b2) by {
                text_shift(*w.base, a2, b2);
            }
            assert forall|a2: Seq<char>, b2: Seq<char>| #[trigger] text_acc(*w.motive, a2 + b2) == a2 + text_acc(*w.motive, b2) by {
                text_shift(*w.motive, a2, b2);
            }
            assert forall|a2: Seq<char>, b2: Seq<char>| #[trigger] text_acc(*w.target, a2 + b2) == a2 + text_acc(*w.target, b2) by {
                text_shift(*w.target, a2, b2);
            }
            assert forall|a2: Seq<char>, b2: Seq<char>| #[trigger] text_acc(*w.len, a2 + b2) == a2 + text_acc(*w.len, b2) by {
                text_shift(*w.len, a2, b2);
            }
        },
        Core::ToDo(t) => {
            assert(text_acc(e, pa + pb) == {
            let head = name_acc(t.name.name, (pa + pb) + "(TODO "@) + ": "@;
            match t.typ {
                Some(ty) => text_acc(*ty, head) + ")"@,
                None => head + ")"@,
            }
        });
            assert(text_acc(e, pb) == {
            let head = name_acc(t.name.name, pb + "(TODO "@) + ": "@;
            match t.typ {
                Some(ty) => text_acc(*ty, head) + ")"@,
                None => head + ")"@,
            }
        });
            assert forall|a2: Seq<char>, b2: Seq<char>| #[trigger] name_acc(t.name.name, a2 + b2) == a2 + name_acc(t.name.name, b2) by {
                name_shift(t.name.name, a2, b2);
            }
            match t.typ {
                Some(ty) => {
                    assert forall|a2: Seq<char>, b2: Seq<char>| #[trigger] text_acc(*ty, a2 + b2) == a2 + text_acc(*ty, b2) by {
                text_shift(*ty, a2, b2);
            }
                },
                None => {},
            }
        },
        Core::Equal(q) => {
            assert(text_acc(e, pa + pb) == text_acc(*q.to, text_acc(*q.from, text_acc(*q.typ, (pa + pb) + "(= "@) + " "@) + " "@) + ")"@);
            assert(text_acc(e, pb) == text_acc(*q.to, text_acc(*q.from, text_acc(*q.typ, pb + "(= "@) + " "@) + " "@) + ")"@);
            assert forall|a2: Seq<char>, b2: Seq<char>| #[trigger] text_acc(*q.to, a2 + b2) == a2 + text_acc(*q.to, b2) by {
                text_shift(*q.to, a2, b2);
            }
            assert forall|a2: Seq<char>, b2: Seq<char>| #[trigger] text_acc(*q.from, a2 + b2) == a2 + text_acc(*q.from, b2) by {
                text_shift(*q.from, a2, b2);
            }
            assert forall|a2: Seq<char>, b2: Seq<char>| #[trigger] text_acc(*q.typ, a2 + b2) == a2 + text_acc(*q.typ, b2) by {
                text_shift(*q.typ, a2, b2);
            }
        },
        Core::Same(x) => {
            assert(text_acc(e, pa + pb) == text_acc(*x, (pa + pb) + "(same "@) + ")"@);
            assert(text_acc(e, pb) == text_acc(*x, pb + "(same "@) + ")"@);
            assert forall|a2: Seq<char>, b2: Seq<char>| #[trigger] text_acc(*x, a2 + b2) == a2 + text_acc(*x, b2) by {
                text_shift(*x, a2, b2);
            }
        },
        _ => {},
    }
}

#[verifier::spinoff_prover]
#[verifier::rlimit(80)]
proof fn text_shift_part8(e: Core, pa: Seq<char>, pb: Seq<char>)
    requires
        e is Replace || e is Cong || e is Cong2 || e is Symm || e is Either,
    ensures
        text_acc(e, pa + pb) == pa + text_acc(e, pb),
    decreases e, 0nat,
{
    concat_facts();
    match e {
        Core::Replace(w) => {
            assert(text_acc(e, pa + pb) == text_acc(*w.base, text_acc(*w.motive, text_acc(*w.target, (pa + pb) + "(replace "@) + " "@) + " "@) + ")"@);
            assert(text_acc(e, pb) == text_acc(*w.base, text_acc(*w.motive, text_acc(*w.target, pb + "(replace "@) + " "@) + " "@) + ")"@);
            assert forall|a2: Seq<char>, b2: Seq<char>| #[trigger] text_acc(*w.base, a2 + b2) == a2 + text_acc(*w.base, b2) by {
                text_shift(*w.base, a2, b2);
            }
            assert forall|a2: Seq<char>, b2: Seq<char>| #[trigger] text_acc(*w.motive, a2 + b2) == a2 + text_acc(*w.motive, b2) by {
                text_shift(*w.motive, a2, b2);
            }
            assert forall|a2: Seq<char>, b2: Seq<char>| #[trigger] text_acc(*w.target, a2 + b2) == a2 + text_acc(*w.target, b2) by {
                text_shift(*w.target, a2, b2);
            }
        },
        Core::Cong(p, g) => {
            assert(text_acc(e, pa + pb) == text_acc(*g, text_acc(*p, (pa + pb) + "(cong "@) + " "@) + ")"@);
            assert(text_acc(e, pb) == text_acc(*g, text_acc(*p, pb + "(cong "@) + " "@) + ")"@);
            assert forall|a2: Seq<char>, b2: Seq<char>| #[trigger] text_acc(*g, a2 + b2) == a2 + text_acc(*g, b2) by {
                text_shift(*g, a2, b2);
            }
            assert forall|a2: Seq<char>, b2: Seq<char>| #[trigger] text_acc(*p, a2 + b2) == a2 + text_acc(*p, b2) by {
                text_shift(*p, a2, b2);
            }
        },
        Core::Cong2(p, t, g) => {
            assert(text_acc(e, pa + pb) == text_acc(*g, text_acc(*t, text_acc(*p, (pa + pb) + "(cong2 "@) + " "@) + " "@) + ")"@);
            assert(text_acc(e, pb) == text_acc(*g, text_acc(*t, text_acc(*p, pb + "(cong2 "@) + " "@) + " "@) + ")"@);
            assert forall|a2: Seq<char>, b2: Seq<char>| #[trigger] text_acc(*g, a2 + b2) == a2 + text_acc(*g, b2) by {
                text_shift(*g, a2, b2);
            }
            assert forall|a2: Seq<char>, b2: Seq<char>| #[trigger] text_acc(*t, a2 + b2) == a2 + text_acc(*t, b2) by {
                text_shift(*t, a2, b2);
            }
            assert forall|a2: Seq<char>, b2: Seq<char>| #[trigger] text_acc(*p, a2 + b2) == a2 + text_acc(*p, b2) by {
                text_shift(*p, a2, b2);
            }
        },
        Core::Symm(p) => {
            assert(text_acc(e, pa + pb) == text_acc(*p, (pa + pb) + "(symm "@) + ")"@);
            assert(text_acc(e, pb) == text_acc(*p, pb + "(symm "@) + ")"@);
            assert forall|a2: Seq<char>, b2: Seq<char>| #[trigger] text_acc(*p, a2 + b2) == a2 + text_acc(*p, b2) by {
                text_shift(*p, a2, b2);
            }
        },
        Core::Either(l, r) => {
            assert(text_acc(e, pa + pb) == text_acc(*r, text_acc(*l, (pa + pb) + "(Either "@) + " "@) + ")"@);
            assert(text_acc(e, pb) == text_acc(*r, text_acc(*l, pb + "(Either "@) + " "@) + ")"@);
            assert forall|a2: Seq<char>, b2: Seq<char>| #[trigger] text_acc(*r, a2 + b2) == a2 + text_acc(*r, b2) by {
                text_shift(*r, a2, b2);
            }
            assert forall|a2: Seq<char>, b2: Seq<char>| #[trigger] text_acc(*l, a2 + b2) == a2 + text_acc(*l, b2) by {
                text_shift(*l, a2, b2);
            }
        },
        _ => {},
    }
}

#[verifier::spinoff_prover]
#[verifier::rlimit(80)]
proof fn text_shift_part9(e: Core, pa: Seq<char>, pb: Seq<char>)
    requires
        e is Left || e is Right || e is IndEither || e is Trivial || e is Sole,
    ensures
        text_acc(e, pa + pb) == pa + text_acc(e, pb),
    decreases e, 0nat,
{
    concat_facts();
    match e {
        Core::Left(x) => {
            assert(text_acc(e, pa + pb) == text_acc(*x, (pa + pb) + "(left "@) + ")"@);
            assert(text_acc(e, pb) == text_acc(*x, pb + "(left "@) + ")"@);
            assert forall|a2: Seq<char>, b2: Seq<char>| #[trigger] text_acc(*x, a2 + b2) == a2 + text_acc(*x, b2) by {
                text_shift(*x, a2, b2);
            }
        },
        Core::Right(x) => {
            assert(text_acc(e, pa + pb) == text_acc(*x, (pa + pb) + "(right "@) + ")"@);
            assert(text_acc(e, pb) == text_acc(*x, pb + "(right "@) + ")"@);
            assert forall|a2: Seq<char>, b2: Seq<char>| #[trigger] text_acc(*x, a2 + b2) == a2 + text_acc(*x, b2) by {
                text_shift(*x, a2, b2);
            }
        },
        Core::IndEither(w) => {
            assert(text_acc(e, pa + pb) == text_acc(*w.right, text_acc(*w.left, text_acc(*w.motive, text_acc(*w.target, (pa + pb) + "(ind-Either "@) + " "@) + " "@) + " "@) + ")"@);
            assert(text_acc(e, pb) == text_acc(*w.right, text_acc(*w.left, text_acc(*w.motive, text_acc(*w.target, pb + "(ind-Either "@) + " "@) + " "@) + " "@) + ")"@);
            assert forall|a2: Seq<char>, b2: Seq<char>| #[trigger] text_acc(*w.right, a2 + b2) == a2 + text_acc(*w.right, b2) by {
                text_shift(*w.right, a2, b2);
            }
            assert forall|a2: Seq<char>, b2: Seq<char>| #[trigger] text_acc(*w.left, a2 + b2) == a2 + text_acc(*w.left, b2) by {
                text_shift(*w.left, a2, b2);
            }
            assert forall|a2: Seq<char>, b2: Seq<char>| #[trigger] text_acc(*w.motive, a2 + b2) == a2 + text_acc(*w.motive, b2) by {
                text_shift(*w.motive, a2, b2);
            }
            assert forall|a2: Seq<char>, b2: Seq<char>| #[trigger] text_acc(*w.target, a2 + b2) == a2 + text_acc(*w.target, b2) by {
                text_shift(*w.target, a2, b2);
            }
        },
        Core::Trivial => {
            assert(text_acc(e, pa + pb) == (pa + pb) + "Trivial"@);
            assert(text_acc(e, pb) == pb + "Trivial"@);
        },
        Core::Sole => {
            assert(text_acc(e, pa + pb) == (pa + pb) + "sole"@);
            assert(text_acc(e, pb) == pb + "sole"@);
        },
        _ => {},
    }
}

#[verifier::spinoff_prover]
#[verifier::rlimit(80)]
proof fn text_shift_part10(e: Core, pa: Seq<char>, pb: Seq<char>)
    requires
        e is Absurd || e is IndAbsurd,
    ensures
        text_acc(e, pa + pb) == pa + text_acc(e, pb),
    decreases e, 0nat,
{
    concat_facts();
    match e {
        Core::Absurd => {
            assert(text_acc(e, pa + pb) == (pa + pb) + "Absurd"@);
            assert(text_acc(e, pb) == pb + "Absurd"@);
        },
        Core::IndAbsurd(w) => {
            assert(text_acc(e, pa + pb) == text_acc(*w.motive, text_acc(*w.target, (pa + pb) + "(ind-Absurd "@) + " "@) + ")"@);
            assert(text_acc(e, pb) == text_acc(*w.motive, text_acc(*w.target, pb + "(ind-Absurd "@) + " "@) + ")"@);
            assert forall|a2: Seq<char>, b2: Seq<char>| #[trigger] text_acc(*w.motive, a2 + b2) == a2 + text_acc(*w.motive, b2) by {
                text_shift(*w.motive, a2, b2);
            }
            assert forall|a2: Seq<char>, b2: Seq<char>| #[trigger] text_acc(*w.target, a2 + b2) == a2 + text_acc(*w.target, b2) by {
                text_shift(*w.target, a2, b2);
            }
        },
        _ => {},
    }
}

/// Printing `e` after the text `acc` appends the printed form of `e`.
pub proof fn text_after(e: Core, acc: Seq<char>)
    ensures
        text_acc(e, acc) == acc + text_of(e),
{
    text_shift(e, acc, Seq::empty());
    assert(acc + Seq::<char>::empty() =~= acc);
}

/// An equation `(= A from to)` prints as `(= `, the printed type, the
/// printed `from` and the printed `to`, separated by spaces, then `)`.
pub proof fn equation_text(typ: Core, from: Core, to: Core)
    ensures
        text_of(Core::Equal(Equal { typ: Box::new(typ), from: Box::new(from), to: Box::new(to) }))
            == "(= "@ + text_of(typ) + " "@ + text_of(from) + " "@ + text_of(to) + ")"@,
{
    concat_facts();
    assert(Seq::<char>::empty() + "(= "@ =~= "(= "@);
    text_after(typ, "(= "@);
    text_after(from, "(= "@ + text_of(typ) + " "@);
    text_after(to, "(= "@ + text_of(typ) + " "@ + text_of(from) + " "@);
}


/// A one-part form prints as `(`, its keyword, a space, the printed part and
/// `)`: `(add1 n)`, `(car p)`, `(cdr p)`, `(List E)`, `(head v)`,
/// `(tail v)`, `(same x)`, `(symm p)`, `(left x)`, `(right x)`.
pub proof fn one_part_forms_text(a: Core)
    ensures
        text_of(Core::Add1(Box::new(a))) == "(add1 "@ + text_of(a) + ")"@,
        text_of(Core::Car(Box::new(a))) == "(car "@ + text_of(a) + ")"@,
        text_of(Core::Cdr(Box::new(a))) == "(cdr "@ + text_of(a) + ")"@,
        text_of(Core::List(Box::new(a))) == "(List "@ + text_of(a) + ")"@,
        text_of(Core::Head(Box::new(a))) == "(head "@ + text_of(a) + ")"@,
        text_of(Core::Tail(Box::new(a))) == "(tail "@ + text_of(a) + ")"@,
        text_of(Core::Same(Box::new(a))) == "(same "@ + text_of(a) + ")"@,
        text_of(Core::Symm(Box::new(a))) == "(symm "@ + text_of(a) + ")"@,
        text_of(Core::Left(Box::new(a))) == "(left "@ + text_of(a) + ")"@,
        text_of(Core::Right(Box::new(a))) == "(right "@ + text_of(a) + ")"@,
{
    concat_facts();
    empty_prefix();
    text_after(a, "(add1 "@);
    text_after(a, "(car "@);
    text_after(a, "(cdr "@);
    text_after(a, "(List "@);
    text_after(a, "(head "@);
    text_after(a, "(tail "@);
    text_after(a, "(same "@);
    text_after(a, "(symm "@);
    text_after(a, "(left "@);
    text_after(a, "(right "@);
}

/// A two-part form prints as `(`, its keyword, then each part after a
/// space, first part first, and `)`: `(Pair A D)`, `(cons a d)`,
/// `(:: h t)`, `(Vec E n)`, `(vec:: h t)`, `(cong p f)`, `(Either L R)`.
pub proof fn two_part_forms_text(a: Core, d: Core)
    ensures
        text_of(Core::Pair(Box::new(a), Box::new(d))) == "(Pair "@ + text_of(a) + " "@ + text_of(d) + ")"@,
        text_of(Core::Cons(Box::new(a), Box::new(d))) == "(cons "@ + text_of(a) + " "@ + text_of(d) + ")"@,
        text_of(Core::ListCons(Box::new(a), Box::new(d))) == "(:: "@ + text_of(a) + " "@ + text_of(d) + ")"@,
        text_of(Core::Vector(Box::new(a), Box::new(d))) == "(Vec "@ + text_of(a) + " "@ + text_of(d) + ")"@,
        text_of(Core::VectorCons(Box::new(a), Box::new(d))) == "(vec:: "@ + text_of(a) + " "@ + text_of(d) + ")"@,
        text_of(Core::Cong(Box::new(a), Box::new(d))) == "(cong "@ + text_of(a) + " "@ + text_of(d) + ")"@,
        text_of(Core::Either(Box::new(a), Box::new(d))) == "(Either "@ + text_of(a) + " "@ + text_of(d) + ")"@,
{
    concat_facts();
    empty_prefix();
    text_after(a, "(Pair "@);
    text_after(d, "(Pair "@ + text_of(a) + " "@);
    text_after(a, "(cons "@);
    text_after(d, "(cons "@ + text_of(a) + " "@);
    text_after(a, "(:: "@);
    text_after(d, "(:: "@ + text_of(a) + " "@);
    text_after(a, "(Vec "@);
    text_after(d, "(Vec "@ + text_of(a) + " "@);
    text_after(a, "(vec:: "@);
    text_after(d, "(vec:: "@ + text_of(a) + " "@);
    text_after(a, "(cong "@);
    text_after(d, "(cong "@ + text_of(a) + " "@);
    text_after(a, "(Either "@);
    text_after(d, "(Either "@ + text_of(a) + " "@);
}

/// An application `(f a)` prints as `(`, the printed function, a space,
/// the printed argument and `)`.
pub proof fn application_text(g: Core, a: Core)
    ensures
        text_of(Core::App(App { fun: Box::new(g), arg: Box::new(a) })) == "("@ + text_of(g) + " "@ + text_of(a) + ")"@,
{
    concat_facts();
    empty_prefix();
    text_after(g, "("@);
    text_after(a, "("@ + text_of(g) + " "@);
}


/// The printed form of a name.
pub open spec fn name_text(x: Symbol) -> Seq<char> {
    name_acc(x.name, Seq::empty())
}

proof fn name_after(x: Symbol, acc: Seq<char>)
    ensures
        name_acc(x.name, acc) == acc + name_text(x),
{
    name_shift(x.name, acc, Seq::empty());
    assert(acc + Seq::<char>::empty() =~= acc);
}

/// The binding forms print their binder's name, its type where it has one,
/// and the body, in that order: `(Π ((x A)) B)`, `(Σ ((x A)) D)` and
/// `(λ (x) b)`; a variable prints as its name and a quoted atom as `'`
/// followed by its name.
pub proof fn binding_forms_text(x: Symbol, a: Core, b: Core)
    ensures
        text_of(Core::Pi(Pi { arg_name: x, arg_type: Box::new(a), res_type: Box::new(b) }))
            == "(Π (("@ + name_text(x) + " "@ + text_of(a) + ")) "@ + text_of(b) + ")"@,
        text_of(Core::Sigma(Sigma { arg_name: x, car_type: Box::new(a), cdr_type: Box::new(b) }))
            == "(Σ (("@ + name_text(x) + " "@ + text_of(a) + ")) "@ + text_of(b) + ")"@,
        text_of(Core::Lambda(Lambda { arg_name: x, body: Box::new(b) }))
            == "(λ ("@ + name_text(x) + ") "@ + text_of(b) + ")"@,
        text_of(Core::Ref(Ref(x))) == name_text(x),
        text_of(Core::Quote(x)) == "'"@ + name_text(x),
{
    concat_facts();
    empty_prefix();
    name_after(x, "(Π (("@);
    text_after(a, "(Π (("@ + name_text(x) + " "@);
    text_after(b, "(Π (("@ + name_text(x) + " "@ + text_of(a) + ")) "@);
    name_after(x, "(Σ (("@);
    text_after(a, "(Σ (("@ + name_text(x) + " "@);
    text_after(b, "(Σ (("@ + name_text(x) + " "@ + text_of(a) + ")) "@);
    name_after(x, "(λ ("@);
    text_after(b, "(λ ("@ + name_text(x) + ") "@);
    name_after(x, "'"@);
}

} // verus!
