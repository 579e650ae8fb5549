use vstd::prelude::*;

verus! {

/// Runs `f` on a default-initialised out-parameter and yields the parameter
/// when `f` succeeds, or `f`'s error otherwise.
pub fn try_out_param<T, F, E, O>(mut f: F) -> (r: Result<T, E>)
    where
        T: Default,
        F: FnMut(&mut T) -> Result<O, E>,
    requires
        forall|t: &mut T| #[trigger] call_requires(f, (t,)),
    ensures
        exists|t: &mut T, res: Result<O, E>|
            call_ensures(T::default, (), *t) && #[trigger] call_ensures(f, (t,), res) && match res {
                Ok(_) => r == Ok::<T, E>(mut_ref_future(t)),
                Err(e) => r == Err::<T, E>(e),
            },
{
    let mut t: T = Default::default();
    match f(&mut t) {
        Ok(_) => Ok(t),
        Err(e) => Err(e),
    }
}

/// Runs `f` on an empty optional out-parameter; on success `f` must have
/// filled it, and its content is returned.
pub fn try_out_ptr<T, F, E, O>(mut f: F) -> (r: Result<T, E>)
    where
        F: FnMut(&mut Option<T>) -> Result<O, E>,
    requires
        forall|t: &mut Option<T>| *t is None ==> #[trigger] call_requires(f, (t,)),
        forall|t: &mut Option<T>, res: Result<O, E>|
            *t is None && #[trigger] call_ensures(f, (t,), res) && res is Ok
                ==> mut_ref_future(t) is Some,
    ensures
        exists|t: &mut Option<T>, res: Result<O, E>|
            *t is None && #[trigger] call_ensures(f, (t,), res) && match res {
                Ok(_) => r == Ok::<T, E>(mut_ref_future(t)->Some_0),
                Err(e) => r == Err::<T, E>(e),
            },
{
    let mut t: Option<T> = None;
    match f(&mut t) {
        Ok(_) => Ok(t.unwrap()),
        Err(e) => Err(e),
    }
}

/// Runs `f` on two empty optional out-parameters: the first is the value on
/// success, the second a blob that describes a failure. On success the first
/// is returned; on failure the error is returned with the blob, which `f`
/// must then have filled.
pub fn try_out_err_blob<T1, T2, F, E, O>(mut f: F) -> (r: Result<T1, (E, T2)>)
    where
        F: FnMut(&mut Option<T1>, &mut Option<T2>) -> Result<O, E>,
    requires
        forall|t1: &mut Option<T1>, t2: &mut Option<T2>|
            *t1 is None && *t2 is None ==> #[trigger] call_requires(f, (t1, t2)),
        forall|t1: &mut Option<T1>, t2: &mut Option<T2>, res: Result<O, E>|
            *t1 is None && *t2 is None && #[trigger] call_ensures(f, (t1, t2), res) ==> match res {
                Ok(_) => mut_ref_future(t1) is Some,
                Err(_) => mut_ref_future(t2) is Some,
            },
    ensures
        exists|t1: &mut Option<T1>, t2: &mut Option<T2>, res: Result<O, E>|
            *t1 is None && *t2 is None && #[trigger] call_ensures(f, (t1, t2), res) && match res {
                Ok(_) => r == Ok::<T1, (E, T2)>(mut_ref_future(t1)->Some_0),
                Err(e) => r == Err::<T1, (E, T2)>((e, mut_ref_future(t2)->Some_0)),
            },
{
    let mut t1: Option<T1> = None;
    let mut t2: Option<T2> = None;
    match f(&mut t1, &mut t2) {
        Ok(_) => Ok(t1.unwrap()),
        Err(e) => Err((e, t2.unwrap())),
    }
}

/// Runs `f` once on a default-initialised out-parameter and returns what it
/// left there.
pub fn out_param<T: Default, F>(f: F) -> (r: T)
    where
        F: FnOnce(&mut T),
    requires
        forall|t: &mut T| #[trigger] call_requires(f, (t,)),
    ensures
        exists|t: &mut T|
            call_ensures(T::default, (), *t) && #[trigger] call_ensures(f, (t,), ())
                && r == mut_ref_future(t),
{
    let mut val: T = Default::default();
    f(&mut val);
    val
}

} // verus!
