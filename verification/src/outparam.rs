//! Calls that report their results through out-parameters, as COM-style
//! constructors do.
use vstd::prelude::*;

verus! {

/// Calls `f` with an empty out-parameter. When `f` succeeds, the value it
/// left in the out-parameter is returned; when it fails, its error. `f` must
/// fill the out-parameter whenever it succeeds.
pub fn try_out_ptr<T, F, E, O>(f: F) -> (r: Result<T, E>)
    where
        F: FnOnce(&mut Option<T>) -> Result<O, E>,
    requires
        forall|t: &mut Option<T>| *t is None ==> call_requires(f, (t,)),
        forall|t: &mut Option<T>, o: Result<O, E>| call_ensures(f, (t,), o) && o is Ok ==> *final(t) is Some,
    ensures
        exists|t: &mut Option<T>, o: Result<O, E>| {
            &&& *t is None
            &&& call_ensures(f, (t,), o)
            &&& match o {
                Ok(_) => r == Ok::<T, E>(final(t).unwrap()),
                Err(e) => r == Err::<T, E>(e),
            }
        },
{
    let mut t: Option<T> = None;
    match f(&mut t) {
        Ok(_) => Ok(t.unwrap()),
        Err(e) => Err(e),
    }
}

/// Calls `f` with two empty out-parameters: the result and an error report.
/// When `f` succeeds, the result it left is returned; when it fails, its
/// error together with the error report it left. `f` must fill the result
/// whenever it succeeds and the error report whenever it fails.
pub fn try_out_err_blob<T1, T2, F, E, O>(f: F) -> (r: Result<T1, (E, T2)>)
    where
        F: FnOnce(&mut Option<T1>, &mut Option<T2>) -> Result<O, E>,
    requires
        forall|t1: &mut Option<T1>, t2: &mut Option<T2>| *t1 is None && *t2 is None ==> call_requires(f, (t1, t2)),
        forall|t1: &mut Option<T1>, t2: &mut Option<T2>, o: Result<O, E>| call_ensures(f, (t1, t2), o) ==> (
            o is Ok ==> *final(t1) is Some) && (o is Err ==> *final(t2) is Some),
    ensures
        exists|t1: &mut Option<T1>, t2: &mut Option<T2>, o: Result<O, E>| {
            &&& *t1 is None
            &&& *t2 is None
            &&& call_ensures(f, (t1, t2), o)
            &&& match o {
                Ok(_) => r == Ok::<T1, (E, T2)>(final(t1).unwrap()),
                Err(e) => r == Err::<T1, (E, T2)>((e, final(t2).unwrap())),
            }
        },
{
    let mut t1: Option<T1> = None;
    let mut t2: Option<T2> = None;
    match f(&mut t1, &mut t2) {
        Ok(_) => Ok(t1.unwrap()),
        Err(e) => Err((e, t2.unwrap())),
    }
}

} // verus!
