//! Construction of values through their `Default` implementation.
use vstd::prelude::*;

verus! {

/// Creates a value using its [`Default`] implementation.
pub fn default<T: Default>() -> (r: T)
    ensures
        call_ensures(T::default, (), r),
{
    T::default()
}

/// Builds a default value by allowing `f` to initialize it through a mutable reference.
///
/// The result is the value that `f` left behind, starting from `T::default()`.
pub fn out_var<T, F>(f: F) -> (r: T)
    where
        T: Default,
        F: FnOnce(&mut T),
    requires
        forall|out: &mut T| call_requires(f, (out,)),
    ensures
        exists|init: T, out: &mut T|
            {
                &&& call_ensures(T::default, (), init)
                &&& *out == init
                &&& call_ensures(f, (out,), ())
                &&& r == *final(out)
            },
{
    let mut out = T::default();
    f(&mut out);
    out
}

/// Builds a default value through a fallible initializer.
///
/// If `f` fails, its error is returned and the partially initialized value is dropped;
/// otherwise the value that `f` left behind is returned.
pub fn out_var_or_err<T, E, F>(f: F) -> (r: Result<T, E>)
    where
        T: Default,
        F: FnOnce(&mut T) -> Result<(), E>,
    requires
        forall|out: &mut T| call_requires(f, (out,)),
    ensures
        exists|init: T, out: &mut T, status: Result<(), E>|
            {
                &&& call_ensures(T::default, (), init)
                &&& *out == init
                &&& call_ensures(f, (out,), status)
                &&& match status {
                    Ok(_) => r == Ok::<T, E>(*final(out)),
                    Err(e) => r == Err::<T, E>(e),
                }
            },
{
    let mut out = T::default();
    f(&mut out)?;
    Ok(out)
}

} // verus!
