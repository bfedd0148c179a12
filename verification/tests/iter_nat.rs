use pie::syntax::IterNat;
use pie::types::{cores, values};
use pie::value::{Ctx, Env, Renaming};

#[test]
fn iternat_desugars_to_typed_base() {
    let (typ, exp) = IterNat::untyped(
        cores::zero(),
        cores::quote("base"),
        cores::lambda("x", cores::quote("step")),
    )
    .synth(&Ctx::new(), &Renaming::new())
    .unwrap();

    assert_eq!(typ, cores::atom());
    assert_eq!(
        exp,
        cores::iter_nat_desugared(
            cores::zero(),
            cores::atom(),
            cores::quote("base"),
            cores::lambda("x", cores::quote("step"))
        )
    );
}

#[test]
fn iter_nat_first_commandment() {
    let exp = IterNat::typed(
        cores::zero(),
        cores::atom(),
        cores::quote("base"),
        cores::lambda("x", cores::quote("step")),
    );

    assert_eq!(exp.val_of(&Env::new()).unwrap(), values::quote("base"));
}

#[test]
fn iter_nat_second_commandment() {
    let exp = IterNat::typed(
        cores::add1(cores::zero()),
        cores::atom(),
        cores::quote("base"),
        cores::lambda("x", cores::quote("step")),
    );
    assert_eq!(exp.val_of(&Env::new()).unwrap(), values::quote("step"));

    let exp = IterNat::typed(
        cores::add1(cores::zero()),
        cores::atom(),
        cores::add1(cores::zero()),
        cores::lambda("x", cores::add1(cores::refer("x"))),
    );
    assert_eq!(
        exp.val_of(&Env::new()).unwrap(),
        values::add1(values::add1(values::zero()))
    );
}
