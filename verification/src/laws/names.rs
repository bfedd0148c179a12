//! How names are chosen and looked up.
use vstd::prelude::*;
use crate::model::eval::{env_extend, env_lookup};
use crate::model::names::{
    bind_free, ctx_fresh, ctx_names, extend_renaming, fresh, max_index, rename, var_type,
};
use crate::symbol::{Name, Symbol};
use crate::value::{Ctx, Env, Error, Renaming, Value};

verus! {

/// Every index in `used` for the spelling `n` is at most `max_index(used, n)`.
proof fn max_index_bounds(used: Seq<Symbol>, n: Name, i: int)
    requires
        0 <= i < used.len(),
        used[i].name == n,
    ensures
        used[i].index <= max_index(used, n),
    decreases used.len(),
{
    if i < used.len() - 1 {
        max_index_bounds(used.drop_last(), n, i);
    }
}

/// `fresh` keeps a name that is not in use, and otherwise returns a name
/// spelled the same way that is not in use either.
pub proof fn fresh_is_unused(used: Seq<Symbol>, x: Symbol)
    ensures
        !used.contains(x) ==> fresh(used, x) == Ok::<Symbol, Error>(x),
        fresh(used, x) matches Ok(y) ==> y.name == x.name && !used.contains(y),
{
    if used.contains(x) {
        let m = max_index(used, x.name);
        if m < u64::MAX {
            let y = Symbol { name: x.name, index: (m + 1) as u64 };
            if used.contains(y) {
                let i = choose|i: int| 0 <= i < used.len() && used[i] == y;
                max_index_bounds(used, x.name, i);
            }
        }
    }
}

/// The names of a context are exactly the ones it binds.
proof fn bound_names_are_listed(ctx: Ctx, y: Symbol)
    ensures
        var_type(ctx, y) is Ok ==> ctx_names(ctx).contains(y),
    decreases ctx,
{
    match ctx {
        Ctx::Empty => {},
        Ctx::Free(x, tv, rest) => {
            bound_names_are_listed(*rest, y);
            if x != y && var_type(*rest, y) is Ok {
                let i = choose|i: int| 0 <= i < ctx_names(*rest).len() && ctx_names(*rest)[i] == y;
                assert(ctx_names(ctx)[i] == y);
            }
            if x == y {
                assert(ctx_names(ctx).last() == y);
            }
        },
    }
}

/// A name chosen fresh for a context is not bound in it.
pub proof fn ctx_fresh_is_unbound(ctx: Ctx, x: Symbol)
    ensures
        ctx_fresh(ctx, x) matches Ok(y) ==> y.name == x.name && var_type(ctx, y) is Err,
{
    fresh_is_unused(ctx_names(ctx), x);
    if let Ok(y) = ctx_fresh(ctx, x) {
        bound_names_are_listed(ctx, y);
    }
}

/// A renaming maps its newest source name to its target and leaves every
/// other name to the older renaming.
pub proof fn rename_after_extend(r: Renaming, x: Symbol, y: Symbol, z: Symbol)
    ensures
        rename(extend_renaming(r, x, y), x) == y,
        z != x ==> rename(extend_renaming(r, x, y), z) == rename(r, z),
{
}

/// A context binding `x` gives `x` the type it was bound with and leaves
/// every other variable's type as it was.
pub proof fn var_type_after_bind(ctx: Ctx, x: Symbol, tv: Value, z: Symbol)
    ensures
        var_type(bind_free(ctx, x, tv), x) == Ok::<Value, Error>(tv),
        z != x ==> var_type(bind_free(ctx, x, tv), z) == var_type(ctx, z),
{
}

/// An environment extended with `x` gives `x`'s new value and leaves every
/// other variable's value as it was.
pub proof fn lookup_after_extend(env: Env, x: Symbol, v: Value, z: Symbol)
    ensures
        env_lookup(env_extend(env, x, v), x) == Some(v),
        z != x ==> env_lookup(env_extend(env, x, v), z) == env_lookup(env, z),
{
}

} // verus!
