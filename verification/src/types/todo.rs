//! Named holes (`TODO`).
use vstd::prelude::*;
use crate::model::eval as sem;
use crate::model::readback as rb;
use crate::model::typing as ty;
use crate::normalize::{deferred, eval, neu, read_back_type};
use crate::symbol::{sym, Symbol};
use crate::syntax::{Core, ToDo};
use crate::value::{Ctx, Env, Error, Neutral, Value};

verus! {

impl ToDo {
    /// A hole evaluates to a neutral value of its annotated type.
    pub fn val_of_fuel(&self, env: &Env, fuel: u64) -> (res: Result<Value, Error>)
        ensures
            res == sem::eval_todo(fuel as nat, *env, *self),
        decreases fuel, 0nat,
    {
        if fuel == 0 {
            return Err(Error::OutOfFuel);
        }
        match &self.typ {
            None => Err(Error::NotSupported),
            Some(ty) => {
                let tv = deferred(eval(env, ty, fuel - 1))?;
                Ok(neu(tv.clone(), Neutral::Todo(self.name.clone(), Box::new(tv))))
            },
        }
    }
}


/// Read-back of a neutral hole: the hole annotated with its type.
pub fn read_back_neutral_todo(ctx: &Ctx, name: &Symbol, tv: &Value, fuel: u64) -> (res: Result<
    Core,
    Error,
>)
    ensures
        res == rb::read_back_neutral(fuel as nat, *ctx, Neutral::Todo(*name, Box::new(*tv))),
    decreases fuel, 0nat,
{
    if fuel == 0 {
        return Err(Error::OutOfFuel);
    }
    let tc = read_back_type(ctx, tv, fuel - 1)?;
    Ok(Core::ToDo(ToDo { name: name.clone(), typ: Some(Box::new(tc)) }))
}

impl ToDo {
    /// A hole named `name`, its type not yet known.
    pub fn new(name: &str) -> (res: ToDo)
        ensures
            res == (ToDo { name: sym(name@), typ: None }),
    {
        ToDo { name: Symbol::new(name), typ: None }
    }

    /// A hole named `name` of type `typ`.
    pub fn annotated(name: &str, typ: Core) -> (res: ToDo)
        ensures
            res == (ToDo { name: sym(name@), typ: Some(Box::new(typ)) }),
    {
        ToDo { name: Symbol::new(name), typ: Some(Box::new(typ)) }
    }
}

/// A hole checks against any type, which it records.
pub fn check_todo(ctx: &Ctx, t: &ToDo, tv: &Value, fuel: u64) -> (res: Result<Core, Error>)
    ensures
        res == ty::check_todo(fuel as nat, *ctx, *t, *tv),
{
    if fuel == 0 {
        return Err(Error::OutOfFuel);
    }
    let tyc = read_back_type(ctx, tv, fuel - 1)?;
    Ok(Core::ToDo(ToDo { name: t.name.clone(), typ: Some(Box::new(tyc)) }))
}

} // verus!
