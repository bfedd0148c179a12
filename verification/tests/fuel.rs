use pie::normalize::{eval, read_back, DEFAULT_FUEL};
use pie::typechecker::{convert, same_type};
use pie::types::{cores, values};
use pie::value::{Ctx, Env, Error};

#[test]
fn enough_fuel_gives_the_default_result() {
    let e = cores::iter_nat_desugared(
        cores::the_nat(2),
        cores::nat_type(),
        cores::zero(),
        cores::lambda("x", cores::add1(cores::refer("x"))),
    );
    let with_default = eval(&Env::new(), &e, DEFAULT_FUEL);
    assert_eq!(with_default, Ok(values::the_nat(2)));
    assert_eq!(eval(&Env::new(), &e, 12), with_default);
    assert_eq!(eval(&Env::new(), &e, 40), with_default);
    assert_eq!(eval(&Env::new(), &e, 1), Err(Error::OutOfFuel));
}

#[test]
fn read_back_with_more_fuel() {
    let v = values::the_nat(3);
    assert_eq!(read_back(&Ctx::new(), &values::nat_type(), &v, 4), Ok(cores::the_nat(3)));
    assert_eq!(
        read_back(&Ctx::new(), &values::nat_type(), &v, DEFAULT_FUEL),
        Ok(cores::the_nat(3))
    );
    assert_eq!(read_back(&Ctx::new(), &values::nat_type(), &v, 3), Err(Error::OutOfFuel));
}

#[test]
fn sameness_is_reflexive_and_symmetric() {
    let ctx = Ctx::new();
    let list_nat = values::list(values::nat_type());
    assert_eq!(same_type(&ctx, &list_nat, &list_nat, DEFAULT_FUEL), Ok(()));
    assert_eq!(
        same_type(&ctx, &list_nat, &values::atom(), DEFAULT_FUEL),
        Err(Error::NotTheSameType(cores::list(cores::nat_type()), cores::atom()))
    );
    assert_eq!(
        same_type(&ctx, &values::atom(), &list_nat, DEFAULT_FUEL),
        Err(Error::NotTheSameType(cores::atom(), cores::list(cores::nat_type())))
    );
    let two = values::the_nat(2);
    assert_eq!(convert(&ctx, &values::nat_type(), &two, &two, DEFAULT_FUEL), Ok(()));
    assert!(convert(&ctx, &values::nat_type(), &two, &values::zero(), DEFAULT_FUEL).is_err());
    assert!(convert(&ctx, &values::nat_type(), &values::zero(), &two, DEFAULT_FUEL).is_err());
}
