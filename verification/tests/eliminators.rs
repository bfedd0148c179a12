use pie::syntax::WhichNat;
use pie::types::{cores, values};
use pie::value::Env;

#[test]
fn which_nat_commandments() {
    let zero_case = WhichNat::typed(
        cores::zero(),
        cores::atom(),
        cores::quote("base"),
        cores::lambda("x", cores::quote("step")),
    );
    assert_eq!(zero_case.val_of(&Env::new()).unwrap(), values::quote("base"));

    let add1_case = WhichNat::typed(
        cores::the_nat(2),
        cores::nat_type(),
        cores::zero(),
        cores::lambda("x", cores::refer("x")),
    );
    assert_eq!(add1_case.val_of(&Env::new()).unwrap(), values::the_nat(1));
}

#[test]
fn ind_nat_counts_up() {
    let e = cores::ind_nat(
        cores::the_nat(2),
        cores::lambda("k", cores::nat_type()),
        cores::zero(),
        cores::lambda("n", cores::lambda("ih", cores::add1(cores::refer("ih")))),
    );
    assert_eq!(e.val_of(&Env::new()).unwrap(), values::the_nat(2));
}

#[test]
fn iter_nat_adds() {
    let e = cores::iter_nat_desugared(
        cores::the_nat(3),
        cores::nat_type(),
        cores::the_nat(2),
        cores::lambda("x", cores::add1(cores::refer("x"))),
    );
    assert_eq!(e.val_of(&Env::new()).unwrap(), values::the_nat(5));
}

fn two_atoms() -> pie::syntax::Core {
    cores::list_cons(cores::quote("a"), cores::list_cons(cores::quote("b"), cores::nil()))
}

#[test]
fn rec_list_computes_length() {
    let e = cores::rec_list_desugared(
        two_atoms(),
        cores::nat_type(),
        cores::zero(),
        cores::lambda("h", cores::lambda("t", cores::lambda("ih", cores::add1(cores::refer("ih"))))),
    );
    assert_eq!(e.val_of(&Env::new()).unwrap(), values::the_nat(2));

    let on_nil = cores::rec_list_desugared(
        cores::nil(),
        cores::nat_type(),
        cores::zero(),
        cores::lambda("h", cores::lambda("t", cores::lambda("ih", cores::add1(cores::refer("ih"))))),
    );
    assert_eq!(on_nil.val_of(&Env::new()).unwrap(), values::zero());
}

#[test]
fn ind_list_computes_length() {
    let e = cores::ind_list(
        two_atoms(),
        cores::lambda("xs", cores::nat_type()),
        cores::zero(),
        cores::lambda("h", cores::lambda("t", cores::lambda("ih", cores::add1(cores::refer("ih"))))),
    );
    assert_eq!(e.val_of(&Env::new()).unwrap(), values::the_nat(2));
}

#[test]
fn ind_vec_takes_the_head() {
    let e = cores::ind_vec(
        cores::the_nat(1),
        cores::vec_cons(cores::quote("a"), cores::vecnil()),
        cores::lambda("k", cores::lambda("es", cores::atom())),
        cores::quote("base"),
        cores::lambda(
            "k",
            cores::lambda("h", cores::lambda("t", cores::lambda("ih", cores::refer("h")))),
        ),
    );
    assert_eq!(e.val_of(&Env::new()).unwrap(), values::quote("a"));

    let empty = cores::ind_vec(
        cores::zero(),
        cores::vecnil(),
        cores::lambda("k", cores::lambda("es", cores::atom())),
        cores::quote("base"),
        cores::lambda(
            "k",
            cores::lambda("h", cores::lambda("t", cores::lambda("ih", cores::refer("h")))),
        ),
    );
    assert_eq!(empty.val_of(&Env::new()).unwrap(), values::quote("base"));
}

#[test]
fn ind_either_picks_the_branch() {
    let branches = |target| {
        cores::ind_either(
            target,
            cores::lambda("x", cores::nat_type()),
            cores::lambda("l", cores::add1(cores::refer("l"))),
            cores::lambda("r", cores::refer("r")),
        )
    };
    assert_eq!(
        branches(cores::left(cores::zero())).val_of(&Env::new()).unwrap(),
        values::the_nat(1)
    );
    assert_eq!(
        branches(cores::right(cores::zero())).val_of(&Env::new()).unwrap(),
        values::zero()
    );
}

#[test]
fn car_cdr_head_tail() {
    let p = cores::cons(cores::zero(), cores::quote("a"));
    assert_eq!(cores::car(p.clone()).val_of(&Env::new()).unwrap(), values::zero());
    assert_eq!(cores::cdr(p).val_of(&Env::new()).unwrap(), values::quote("a"));

    let v = cores::vec_cons(cores::zero(), cores::vecnil());
    assert_eq!(cores::head(v.clone()).val_of(&Env::new()).unwrap(), values::zero());
    assert_eq!(cores::tail(v).val_of(&Env::new()).unwrap(), values::vecnil());
}

#[test]
fn equality_eliminators_on_same() {
    let refl = cores::same(cores::zero());
    let replaced = cores::replace(
        refl.clone(),
        cores::lambda("k", cores::atom()),
        cores::quote("base"),
    );
    assert_eq!(replaced.val_of(&Env::new()).unwrap(), values::quote("base"));
    assert_eq!(
        cores::symm(refl.clone()).val_of(&Env::new()).unwrap(),
        values::same(values::zero())
    );
    let congruent = cores::cong_desugared(
        refl,
        cores::nat_type(),
        cores::lambda("x", cores::add1(cores::refer("x"))),
    );
    assert_eq!(
        congruent.val_of(&Env::new()).unwrap(),
        values::same(values::the_nat(1))
    );
}
