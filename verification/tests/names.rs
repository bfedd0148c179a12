use pie::alpha::alpha_equiv;
use pie::basics::occurring_names;
use pie::normalize::{read_back, DEFAULT_FUEL};
use pie::symbol::Symbol;
use pie::types::{cores, values};
use pie::value::{Ctx, Env, Error, Renaming, Value};

#[test]
fn fresh_names_avoid_the_context() {
    let x = Symbol::new("x");
    let ctx = Ctx::new().bind_free(x.clone(), Value::Nat);
    assert_eq!(ctx.fresh(&x), Ok(Symbol { name: x.name.clone(), index: 1 }));
    assert_eq!(ctx.fresh(&Symbol::new("y")), Ok(Symbol::new("y")));
    let ctx2 = ctx.bind_free(Symbol { name: x.name.clone(), index: 1 }, Value::Atom);
    assert_eq!(ctx2.fresh(&x), Ok(Symbol { name: x.name, index: 2 }));
}

#[test]
fn binding_and_renaming() {
    let x = Symbol::new("x");
    let y = Symbol::new("y");
    let ctx = Ctx::new().bind_free(x.clone(), Value::Nat);
    assert_eq!(ctx.var_type(&x), Ok(Value::Nat));
    assert_eq!(ctx.var_type(&y), Err(Error::UnknownVariable(y.clone())));
    let x1 = Symbol { name: x.name.clone(), index: 1 };
    let r = Renaming::new().extend(x.clone(), x1.clone());
    assert_eq!(r.rename(&x), x1);
    assert_eq!(r.rename(&y), y);
    let env = Env::new().extend(x.clone(), values::zero());
    assert_eq!(env.var_val(&x), Some(values::zero()));
    assert_eq!(env.var_val(&y), None);
}

#[test]
fn alpha_equivalence() {
    let id_x = cores::lambda("x", cores::refer("x"));
    let id_y = cores::lambda("y", cores::refer("y"));
    let const_y = cores::lambda("x", cores::refer("y"));
    assert!(alpha_equiv(&id_x, &id_y));
    assert!(alpha_equiv(&id_y, &id_x));
    assert!(!alpha_equiv(&const_y, &id_y));
    assert!(!alpha_equiv(&id_y, &const_y));
    assert!(alpha_equiv(&const_y, &const_y));
    let arrow = cores::fun(vec![cores::nat_type(), cores::nat_type()]);
    assert!(!alpha_equiv(&arrow, &arrow));
}

#[test]
fn numerals_normalize_to_themselves() {
    let v = cores::the_nat(3).val_of(&Env::new()).unwrap();
    assert_eq!(v, values::the_nat(3));
    assert_eq!(
        read_back(&Ctx::new(), &values::nat_type(), &v, DEFAULT_FUEL),
        Ok(cores::the_nat(3))
    );
    assert_eq!(
        cores::the_nat(2),
        cores::add1(cores::add1(cores::zero()))
    );
}

#[test]
fn occurring_names_of_a_lambda() {
    let e = cores::lambda("x", cores::app(cores::refer("f"), cores::refer("x")));
    assert_eq!(
        occurring_names(&e),
        vec![Symbol::new("f"), Symbol::new("x"), Symbol::new("x")]
    );
}
