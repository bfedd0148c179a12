use pie::normalize::{eval, read_back, read_back_type, DEFAULT_FUEL};
use pie::basics::fresh;
use pie::symbol::Symbol;
use pie::types::{cores, values};
use pie::value::{Ctx, Env, Error, Renaming, Value};

fn synth(e: pie::syntax::Core) -> Result<(pie::syntax::Core, pie::syntax::Core), Error> {
    e.synth(&Ctx::new(), &Renaming::new())
}

fn check(e: pie::syntax::Core, tv: Value) -> Result<pie::syntax::Core, Error> {
    e.check(&Ctx::new(), &Renaming::new(), &tv)
}

#[test]
fn which_nat_desugars_to_typed_base() {
    let (typ, exp) = synth(cores::which_nat(
        cores::zero(),
        cores::quote("base"),
        cores::lambda("x", cores::quote("step")),
    ))
    .unwrap();
    assert_eq!(typ, cores::atom());
    assert_eq!(
        exp,
        cores::which_nat_desugared(
            cores::zero(),
            cores::atom(),
            cores::quote("base"),
            cores::lambda("x", cores::quote("step"))
        )
    );
}

#[test]
fn rec_list_desugars_to_typed_base() {
    let step = cores::lambda("h", cores::lambda("t", cores::lambda("ih", cores::refer("ih"))));
    let (typ, exp) = synth(cores::rec_list(
        cores::the(cores::list(cores::atom()), cores::nil()),
        cores::zero(),
        step.clone(),
    ))
    .unwrap();
    assert_eq!(typ, cores::nat_type());
    assert_eq!(
        exp,
        cores::rec_list_desugared(cores::nil(), cores::nat_type(), cores::zero(), step)
    );
}

#[test]
fn typed_bases_are_not_elaborated_again() {
    let e = cores::iter_nat_desugared(
        cores::zero(),
        cores::atom(),
        cores::quote("base"),
        cores::lambda("x", cores::quote("step")),
    );
    assert_eq!(synth(e), Err(Error::NotSupported));
}

#[test]
fn arrows_elaborate_to_pi_and_apply() {
    let f = cores::the(
        cores::fun(vec![cores::nat_type(), cores::nat_type()]),
        cores::lambda("x", cores::add1(cores::refer("x"))),
    );
    assert_eq!(
        synth(f.clone()).unwrap(),
        (
            cores::pi("x", cores::nat_type(), cores::nat_type()),
            cores::lambda("x", cores::add1(cores::refer("x")))
        )
    );
    assert_eq!(
        synth(cores::app_star(f, vec![cores::zero()])).unwrap(),
        (
            cores::nat_type(),
            cores::app(cores::lambda("x", cores::add1(cores::refer("x"))), cores::zero())
        )
    );
}

#[test]
fn checking_by_synthesis() {
    assert_eq!(check(cores::zero(), values::nat_type()), Ok(cores::zero()));
    assert_eq!(
        synth(cores::the(cores::nat_type(), cores::zero())),
        Ok((cores::nat_type(), cores::zero()))
    );
}

#[test]
fn synthesis_errors() {
    assert_eq!(synth(cores::universe()), Err(Error::UhasNoType));
    let id = cores::lambda("x", cores::refer("x"));
    assert_eq!(synth(id.clone()), Err(Error::CantDetermineType(id)));
    assert_eq!(synth(cores::quote("a1")), Err(Error::InvalidAtom(Symbol::new("a1"))));
    assert_eq!(
        synth(cores::invalid_syntax("(")),
        Err(Error::InvalidSyntax(Symbol::new("(").name))
    );
    assert_eq!(synth(cores::refer("x")), Err(Error::UnknownVariable(Symbol::new("x"))));
    assert_eq!(
        cores::zero().is_type(&Ctx::new(), &Renaming::new()),
        Err(Error::NotAType(cores::zero()))
    );
}

#[test]
fn a_variable_of_another_type_is_no_type() {
    let ctx = Ctx::new().bind_free(Symbol::new("x"), Value::Nat);
    assert_eq!(
        cores::refer("x").is_type(&ctx, &Renaming::new()),
        Err(Error::WrongType(cores::nat_type(), cores::universe()))
    );
}

#[test]
fn checking_errors() {
    let nat = values::nat_type();
    assert_eq!(
        check(cores::lambda("x", cores::refer("x")), nat.clone()),
        Err(Error::NotAFunctionType(cores::nat_type()))
    );
    assert_eq!(
        check(cores::cons(cores::zero(), cores::zero()), nat.clone()),
        Err(Error::NotASigmaType(cores::nat_type()))
    );
    assert_eq!(check(cores::nil(), nat.clone()), Err(Error::NotAListType(cores::nat_type())));
    assert_eq!(check(cores::vecnil(), nat.clone()), Err(Error::NotAVecType(cores::nat_type())));
    assert_eq!(
        check(cores::same(cores::zero()), nat.clone()),
        Err(Error::NotAnEqualType(cores::nat_type()))
    );
    assert_eq!(
        check(cores::left(cores::zero()), nat.clone()),
        Err(Error::NotAnEitherType(cores::nat_type()))
    );
    assert_eq!(
        check(cores::zero(), values::atom()),
        Err(Error::NotTheSameType(cores::nat_type(), cores::atom()))
    );
}

#[test]
fn vector_length_errors() {
    assert_eq!(
        check(
            cores::vec_cons(cores::zero(), cores::vecnil()),
            values::vec(values::nat_type(), values::zero())
        ),
        Err(Error::LengthZero(cores::zero()))
    );
    assert_eq!(
        check(cores::vecnil(), values::vec(values::nat_type(), values::the_nat(1))),
        Err(Error::LengthNotZero(cores::the_nat(1)))
    );
}

#[test]
fn same_needs_equal_ends() {
    let tv = values::equal(values::nat_type(), values::zero(), values::the_nat(1));
    assert_eq!(
        check(cores::same(cores::zero()), tv),
        Err(Error::NotTheSame(cores::nat_type(), cores::the_nat(1), cores::zero()))
    );
    let ok = values::equal(values::nat_type(), values::zero(), values::zero());
    assert_eq!(check(cores::same(cores::zero()), ok), Ok(cores::same(cores::zero())));
}

#[test]
fn evaluation_and_read_back_errors() {
    assert_eq!(
        eval(&Env::new(), &cores::add1(cores::zero()), 0),
        Err(Error::OutOfFuel)
    );
    assert_eq!(
        cores::fun(vec![cores::nat_type(), cores::nat_type()]).val_of(&Env::new()),
        Err(Error::NotSupported)
    );
    assert_eq!(cores::car(cores::zero()).val_of(&Env::new()), Err(Error::Stuck));
    assert_eq!(
        read_back_type(&Ctx::new(), &values::zero(), DEFAULT_FUEL),
        Err(Error::NotATypeVar(values::zero()))
    );
    assert_eq!(
        read_back(&Ctx::new(), &values::atom(), &values::zero(), DEFAULT_FUEL),
        Err(Error::TypeMismatchVar(values::zero(), values::atom()))
    );
}

#[test]
fn no_fresh_name_after_the_last_index() {
    let x = Symbol::new("x");
    let last = Symbol { name: x.name.clone(), index: u64::MAX };
    assert_eq!(fresh(&vec![x.clone(), last], &x), Err(Error::NoFreshName));
}

#[test]
fn ind_nat_elaborates_to_the_motive_at_the_target() {
    let motive = cores::lambda("k", cores::nat_type());
    let step = cores::lambda("n", cores::lambda("ih", cores::add1(cores::refer("ih"))));
    let e = cores::ind_nat(cores::the_nat(2), motive.clone(), cores::zero(), step.clone());
    assert_eq!(
        synth(e.clone()),
        Ok((cores::app(motive, cores::the_nat(2)), e))
    );
}

#[test]
fn ind_list_elaborates_to_the_motive_at_the_target() {
    let target = cores::list_cons(cores::quote("a"), cores::list_cons(cores::quote("b"), cores::nil()));
    let motive = cores::lambda("xs", cores::nat_type());
    let step = cores::lambda(
        "h",
        cores::lambda("t", cores::lambda("ih", cores::add1(cores::refer("ih")))),
    );
    let e = cores::ind_list(target.clone(), motive.clone(), cores::zero(), step);
    assert_eq!(synth(e.clone()), Ok((cores::app(motive, target), e)));
}

#[test]
fn ind_either_elaborates_to_the_motive_at_the_target() {
    let target = cores::the(cores::either(cores::nat_type(), cores::nat_type()), cores::left(cores::zero()));
    let motive = cores::lambda("x", cores::nat_type());
    let e = cores::ind_either(
        target,
        motive.clone(),
        cores::lambda("l", cores::add1(cores::refer("l"))),
        cores::lambda("r", cores::refer("r")),
    );
    let elaborated = cores::ind_either(
        cores::left(cores::zero()),
        motive.clone(),
        cores::lambda("l", cores::add1(cores::refer("l"))),
        cores::lambda("r", cores::refer("r")),
    );
    assert_eq!(synth(e), Ok((cores::app(motive, cores::left(cores::zero())), elaborated)));
}

#[test]
fn ind_nat_with_a_wrong_base_is_refused() {
    let e = cores::ind_nat(
        cores::the_nat(2),
        cores::lambda("k", cores::nat_type()),
        cores::quote("a"),
        cores::lambda("n", cores::lambda("ih", cores::add1(cores::refer("ih")))),
    );
    assert!(synth(e).is_err());
}
