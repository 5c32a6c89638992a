//! One attempt of an update: apply the update function to the value that was
//! read from the slot, and offer its result for installation.
use vstd::prelude::*;

verus! {

/// What one attempt of an update came to.
pub enum Attempt<E> {
    /// The candidate replaced the value it was computed from: the update is
    /// complete, and the superseded value is now retired by the installer.
    Installed,
    /// The update function refused the value it was given: the slot was not
    /// touched and the update ends with this error.
    Refused(E),
    /// Another writer replaced the value first: the candidate was never
    /// published, and the update must be attempted again on the new value.
    Contended,
}

impl<E> Attempt<E> {
    /// What the update returns once this attempt ends it: `Some` of its result
    /// when the candidate was installed or refused, `None` when the update must
    /// read the slot again and retry.
    pub fn outcome(self) -> (r: Option<Result<(), E>>)
        ensures
            match self {
                Attempt::Installed => r == Some(Ok::<(), E>(())),
                Attempt::Refused(e) => r == Some(Err::<(), E>(e)),
                Attempt::Contended => r is None,
            },
    {
        match self {
            Attempt::Installed => Some(Ok(())),
            Attempt::Refused(e) => Some(Err(e)),
            Attempt::Contended => None,
        }
    }
}

/// Runs one attempt of an update on `current`, the value just read from the
/// slot.
///
/// `f` computes the replacement. It may be called again on a later attempt,
/// so it must have no effect beyond its result. When it accepts `current`,
/// its result goes to `install`, which tries to swap it in place of
/// `current` and tells whether it did. `install` is called at most once, and
/// only with what `f` returned for `current`. Where no other writer can
/// change the slot, `install` always succeeds, and then so does the attempt
/// unless `f` refuses.
pub fn attempt_update<T, E, F, I>(current: &T, f: &F, install: I) -> (r: Attempt<E>) where
    F: Fn(&T) -> Result<T, E>,
    I: FnOnce(T) -> bool,
    requires
        f.requires((current,)),
        forall|t: T| install.requires((t,)),
    ensures
        match r {
            Attempt::Refused(e) => f.ensures((current,), Err(e)),
            Attempt::Installed => exists|t: T|
                f.ensures((current,), Ok(t)) && #[trigger] install.ensures((t,), true),
            Attempt::Contended => exists|t: T|
                f.ensures((current,), Ok(t)) && #[trigger] install.ensures((t,), false),
        },
        (forall|t: T, b: bool| #[trigger] install.ensures((t,), b) ==> b) ==> !(r is Contended),
{
    match f(current) {
        Err(e) => Attempt::Refused(e),
        Ok(t) => {
            if install(t) {
                Attempt::Installed
            } else {
                Attempt::Contended
            }
        },
    }
}

/// Runs one attempt of an update whose function never refuses, and tells
/// whether it installed its candidate.
///
/// As in [`attempt_update`], `f` may run once per attempt, and `install` is
/// called exactly once, with what `f` returned for `current`; `false` means
/// that another writer came first and the update must be attempted again.
pub fn attempt_replace<T, F, I>(current: &T, f: &F, install: I) -> (done: bool) where
    F: Fn(&T) -> T,
    I: FnOnce(T) -> bool,
    requires
        f.requires((current,)),
        forall|t: T| install.requires((t,)),
    ensures
        exists|t: T| f.ensures((current,), t) && #[trigger] install.ensures((t,), done),
        (forall|t: T, b: bool| #[trigger] install.ensures((t,), b) ==> b) ==> done,
{
    let lifted = |x: &T| -> (r: Result<T, ()>)
        requires
            f.requires((x,)),
        ensures
            exists|t: T| f.ensures((x,), t) && r == Ok::<T, ()>(t),
    { Ok(f(x)) };
    match attempt_update(current, &lifted, install) {
        Attempt::Installed => true,
        Attempt::Contended => false,
        Attempt::Refused(_) => {
            assert(false);
            false
        },
    }
}

} // verus!
