use pie::types::cores;

#[test]
fn prints_the_desugared_iter_nat() {
    let e = cores::iter_nat_desugared(
        cores::zero(),
        cores::atom(),
        cores::quote("base"),
        cores::lambda("x", cores::quote("step")),
    );
    assert_eq!(e.to_text(), "(IterNat zero (the Atom 'base) (λ (x) 'step))");
}

#[test]
fn prints_binding_forms() {
    assert_eq!(cores::pi("x", cores::nat_type(), cores::nat_type()).to_text(), "(Π ((x Nat)) Nat)");
    assert_eq!(
        cores::fun(vec![cores::nat_type(), cores::atom(), cores::universe()]).to_text(),
        "(-> Nat Atom U)"
    );
    assert_eq!(
        cores::sigma("a", cores::atom(), cores::list(cores::refer("a"))).to_text(),
        "(Σ ((a Atom)) (List a))"
    );
    assert_eq!(
        cores::app(cores::lambda("x", cores::add1(cores::refer("x"))), cores::zero()).to_text(),
        "((λ (x) (add1 x)) zero)"
    );
}

#[test]
fn prints_eliminators_and_holes() {
    assert_eq!(
        cores::rec_nat(cores::the_nat(1), cores::zero(), cores::refer("s")).to_text(),
        "(rec-Nat (add1 zero) zero s)"
    );
    assert_eq!(
        cores::which_nat_desugared(cores::zero(), cores::nat_type(), cores::zero(), cores::refer("s"))
            .to_text(),
        "(which-Nat zero (the Nat zero) s)"
    );
    assert_eq!(cores::annotated_todo("h", cores::nat_type()).to_text(), "(TODO h: Nat)");
    assert_eq!(
        cores::equal(cores::nat_type(), cores::zero(), cores::zero()).to_text(),
        "(= Nat zero zero)"
    );
    assert_eq!(
        cores::list_cons(cores::quote("a"), cores::nil()).to_text(),
        "(:: 'a nil)"
    );
}
