use pie::normalize::read_back;
use pie::symbol::Symbol;
use pie::types::{cores, values};
use pie::value::{Ctx, Env, Error, Value};

fn oops() -> Error {
    Error::UnknownVariable(Symbol::new("oops"))
}

#[test]
fn unused_motive_and_step_are_never_evaluated() {
    let e = cores::ind_nat(cores::zero(), cores::refer("oops"), cores::quote("base"), cores::refer("oops"));
    assert_eq!(e.val_of(&Env::new()), Ok(values::quote("base")));
}

#[test]
fn unused_arrow_step_of_which_nat_is_never_evaluated() {
    let e = cores::which_nat_desugared(
        cores::zero(),
        cores::atom(),
        cores::quote("base"),
        cores::fun(vec![cores::nat_type(), cores::nat_type()]),
    );
    assert_eq!(e.val_of(&Env::new()), Ok(values::quote("base")));
}

#[test]
fn a_failing_part_fails_where_it_is_used() {
    let v = cores::add1(cores::refer("oops")).val_of(&Env::new()).unwrap();
    assert_eq!(v, values::add1(Value::Failed(Box::new(oops()))));
    assert_eq!(read_back(&Ctx::new(), &values::nat_type(), &v, 100), Err(oops()));
}

#[test]
fn a_failing_target_makes_the_eliminator_fail() {
    let e = cores::ind_nat(cores::refer("oops"), cores::refer("m"), cores::zero(), cores::refer("s"));
    assert!(e.val_of(&Env::new()).is_err());
}

#[test]
fn a_failing_argument_is_passed_on_unused() {
    let k = cores::lambda("x", cores::quote("k"));
    let e = cores::app(k, cores::refer("oops"));
    assert_eq!(e.val_of(&Env::new()), Ok(values::quote("k")));
}
