use pie::syntax::RecNat;
use pie::types::{cores, values};
use pie::value::{Ctx, Env, Renaming};

#[test]
fn recnat_desugars_to_typed_base() {
    let (typ, exp) = RecNat::untyped(
        cores::zero(),
        cores::quote("base"),
        cores::lambda("x", cores::lambda("y", cores::quote("step"))),
    )
    .synth(&Ctx::new(), &Renaming::new())
    .unwrap();

    assert_eq!(typ, cores::atom());
    assert_eq!(
        exp,
        cores::rec_nat_desugared(
            cores::zero(),
            cores::atom(),
            cores::quote("base"),
            cores::lambda("x", cores::lambda("y", cores::quote("step")))
        )
    );
}

#[test]
fn rec_nat_first_commandment() {
    let exp = RecNat::typed(
        cores::zero(),
        cores::atom(),
        cores::quote("base"),
        cores::lambda("x", cores::lambda("y", cores::quote("step"))),
    );

    assert_eq!(exp.val_of(&Env::new()).unwrap(), values::quote("base"));
}

#[test]
fn rec_nat_second_commandment() {
    let exp = RecNat::typed(
        cores::add1(cores::zero()),
        cores::atom(),
        cores::quote("base"),
        cores::lambda("x", cores::lambda("y", cores::quote("step"))),
    );
    assert_eq!(exp.val_of(&Env::new()).unwrap(), values::quote("step"));

    let exp = RecNat::typed(
        cores::add1(cores::zero()),
        cores::nat_type(),
        cores::add1(cores::zero()),
        cores::lambda(
            "x",
            cores::lambda("y", cores::cons(cores::refer("x"), cores::refer("y"))),
        ),
    );
    assert_eq!(
        exp.val_of(&Env::new()).unwrap(),
        values::cons(values::zero(), values::add1(values::zero())),
    );
}
