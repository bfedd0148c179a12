use pie::symbol::Symbol;
use pie::syntax::MaybeTyped;
use pie::types::cores;
use pie::value::{Ctx, Error, Renaming};

#[test]
fn non_dependent_pi_becomes_an_arrow() {
    let (names, e) = cores::pi("x", cores::nat_type(), cores::nat_type()).resugar().unwrap();
    assert!(names.is_empty());
    assert_eq!(e, cores::fun(vec![cores::nat_type(), cores::nat_type()]));
}

#[test]
fn nested_arrows_are_flattened() {
    let t = cores::pi("x", cores::nat_type(), cores::pi("y", cores::atom(), cores::nat_type()));
    let (_, e) = t.resugar().unwrap();
    assert_eq!(e, cores::fun(vec![cores::nat_type(), cores::atom(), cores::nat_type()]));
}

#[test]
fn dependent_pi_is_not_resugared() {
    let t = cores::pi("x", cores::universe(), cores::refer("x"));
    assert_eq!(t.resugar(), Err(Error::NotSupported));
}

#[test]
fn nested_lambdas_merge_and_bind_their_names() {
    let t = cores::lambda("x", cores::lambda("y", cores::app(cores::refer("x"), cores::refer("z"))));
    let (names, e) = t.resugar().unwrap();
    assert_eq!(names, vec![Symbol::new("z")]);
    assert_eq!(
        e,
        cores::lambda_star(
            vec![Symbol::new("x"), Symbol::new("y")],
            cores::app(cores::refer("x"), cores::refer("z"))
        )
    );
}

#[test]
fn elaborated_arrow_resugars_to_the_arrow() {
    let written = cores::fun(vec![cores::nat_type(), cores::atom(), cores::nat_type()]);
    let (_, elaborated) = written.synth(&Ctx::new(), &Renaming::new()).unwrap();
    let (names, e) = elaborated.resugar().unwrap();
    assert!(names.is_empty());
    assert_eq!(e, written);
}

#[test]
fn non_dependent_sigma_becomes_pair() {
    let (_, e) = cores::sigma("x", cores::nat_type(), cores::atom()).resugar().unwrap();
    assert_eq!(e, cores::pair(cores::nat_type(), cores::atom()));
}

#[test]
fn structural_forms_keep_their_shape() {
    let t = cores::ind_nat(cores::refer("n"), cores::refer("m"), cores::zero(), cores::refer("s"));
    let (names, e) = t.resugar().unwrap();
    assert_eq!(names, vec![Symbol::new("n"), Symbol::new("m"), Symbol::new("s")]);
    assert_eq!(e, t);
    let b = MaybeTyped::The(Box::new(cores::nat_type()), Box::new(cores::refer("b")));
    let (names, rb) = b.resugar().unwrap();
    assert_eq!(names, vec![Symbol::new("b")]);
    assert_eq!(rb, b);
}

#[test]
fn forms_without_resugaring() {
    assert_eq!(cores::todo("hole").resugar(), Err(Error::NotSupported));
    assert_eq!(cores::same(cores::zero()).resugar(), Err(Error::NotSupported));
    assert_eq!(cores::car(cores::refer("p")).resugar(), Err(Error::NotSupported));
    assert_eq!(cores::left(cores::zero()).resugar(), Err(Error::NotSupported));
    let hole = cores::annotated_todo("hole", cores::nat_type());
    assert_eq!(hole.resugar(), Ok((vec![], hole.clone())));
}

#[test]
fn arrow_elaborates_to_nested_pi() {
    let written = cores::fun(vec![cores::nat_type(), cores::atom(), cores::nat_type()]);
    let (typ, e) = written.synth(&Ctx::new(), &Renaming::new()).unwrap();
    assert_eq!(typ, cores::universe());
    match e {
        pie::syntax::Core::Pi(p) => {
            assert_eq!(p.arg_name, Symbol::new("x"));
            assert_eq!(*p.arg_type, cores::nat_type());
            match *p.res_type {
                pie::syntax::Core::Pi(q) => {
                    assert_ne!(q.arg_name, p.arg_name);
                    assert_eq!(*q.arg_type, cores::atom());
                    assert_eq!(*q.res_type, cores::nat_type());
                }
                other => panic!("expected a nested Π, got {:?}", other),
            }
        }
        other => panic!("expected a Π, got {:?}", other),
    }
}
