use vstd::prelude::*;

verus! {

/// The two families of notifications. The interpreter has one slot for each.
#[derive(Clone, Copy, Debug, PartialEq, Eq, Structural)]
pub enum Family {
    /// Calls, lines, returns, exceptions and opcodes.
    Trace,
    /// The trace events and the calls into native functions.
    Profile,
}

/// An install or uninstall that the interpreter refused.
pub struct HostRegistrationFailure {
    /// What the interpreter raised.
    pub error: pyo3::PyErr,
}

/// A registration that the interpreter refused. The observer goes back to
/// the caller.
pub struct RefusedRegistration<P> {
    pub failure: HostRegistrationFailure,
    pub observer: P,
}

/// The slot's occupant after the interpreter has answered the install of
/// `observer`: the observer where it accepted, else who was there before.
pub open spec fn occupant_after_register<P>(
    occupant: Option<P>,
    observer: P,
    host: Result<(), pyo3::PyErr>,
) -> Option<P> {
    if host is Ok {
        Some(observer)
    } else {
        occupant
    }
}

/// What the caller of a registration gets: the observer that was replaced,
/// or the interpreter's error with the observer that was not installed.
pub open spec fn register_result<P>(
    occupant: Option<P>,
    observer: P,
    host: Result<(), pyo3::PyErr>,
) -> Result<Option<P>, RefusedRegistration<P>> {
    match host {
        Ok(_) => Ok(occupant),
        Err(error) => Err(
            RefusedRegistration { failure: HostRegistrationFailure { error }, observer },
        ),
    }
}

/// The slot's occupant after the interpreter has answered an uninstall:
/// nobody where it accepted, else who was there before.
pub open spec fn occupant_after_deregister<P>(
    occupant: Option<P>,
    host: Result<(), pyo3::PyErr>,
) -> Option<P> {
    if host is Ok {
        None
    } else {
        occupant
    }
}

/// What the caller of a deregistration gets: the observer that was
/// registered, if any, or the interpreter's error.
pub open spec fn deregister_result<P>(occupant: Option<P>, host: Result<(), pyo3::PyErr>) -> Result<
    Option<P>,
    HostRegistrationFailure,
> {
    match host {
        Ok(_) => Ok(occupant),
        Err(error) => Err(HostRegistrationFailure { error }),
    }
}

/// The record of who is registered in one of the interpreter's slots. While
/// an observer is registered the slot owns it; deregistration hands it back.
pub struct Slot<P> {
    family: Family,
    occupant: Option<P>,
}

impl<P> Slot<P> {
    /// The observer that is registered, if any.
    pub closed spec fn occupant(self) -> Option<P> {
        self.occupant
    }

    /// The family of notifications that this slot is for.
    pub closed spec fn spec_family(self) -> Family {
        self.family
    }

    /// The empty slot of `family`.
    pub fn new(family: Family) -> (slot: Self)
        ensures
            slot.occupant() is None,
            slot.spec_family() == family,
    {
        Slot { family, occupant: None }
    }

    /// The family of notifications that this slot is for.
    pub fn family(&self) -> (family: Family)
        ensures
            family == self.spec_family(),
    {
        self.family
    }

    /// Whether an observer is registered.
    pub fn is_active(&self) -> (active: bool)
        ensures
            active == self.occupant() is Some,
    {
        self.occupant.is_some()
    }

    /// Records the interpreter's answer `host` to the install of `observer`.
    /// Where it accepted, the observer takes the slot and whoever held it is
    /// handed back; where it refused, the slot stays as it was and the
    /// observer is handed back with the error.
    pub fn register(&mut self, observer: P, host: Result<(), pyo3::PyErr>) -> (r: Result<
        Option<P>,
        RefusedRegistration<P>,
    >)
        ensures
            final(self).spec_family() == old(self).spec_family(),
            final(self).occupant() == occupant_after_register(old(self).occupant(), observer, host),
            r == register_result(old(self).occupant(), observer, host),
    {
        match host {
            Ok(_) => {
                let mut installed = Some(observer);
                core::mem::swap(&mut self.occupant, &mut installed);
                Ok(installed)
            },
            Err(error) => Err(
                RefusedRegistration { failure: HostRegistrationFailure { error }, observer },
            ),
        }
    }

    /// Records the interpreter's answer `host` to an uninstall. Where it
    /// accepted, the slot is empty and the observer that held it, if any, is
    /// handed back; where it refused, the slot stays as it was.
    pub fn deregister(&mut self, host: Result<(), pyo3::PyErr>) -> (r: Result<
        Option<P>,
        HostRegistrationFailure,
    >)
        ensures
            final(self).spec_family() == old(self).spec_family(),
            final(self).occupant() == occupant_after_deregister(old(self).occupant(), host),
            r == deregister_result(old(self).occupant(), host),
    {
        match host {
            Ok(_) => {
                let mut removed = None;
                core::mem::swap(&mut self.occupant, &mut removed);
                Ok(removed)
            },
            Err(error) => Err(HostRegistrationFailure { error }),
        }
    }
}

/// Deregistration is idempotent: after a deregistration that the interpreter
/// accepted the slot is empty, and a second one that it accepts succeeds too,
/// hands nobody back and leaves the slot as it was.
pub proof fn lemma_deregister_twice<P>(occupant: Option<P>)
    ensures
        ({
            let first = occupant_after_deregister(occupant, Ok(()));
            let second = occupant_after_deregister(first, Ok(()));
            &&& deregister_result(occupant, Ok(())) == Ok::<Option<P>, HostRegistrationFailure>(
                occupant,
            )
            &&& first is None
            &&& deregister_result(first, Ok(())) == Ok::<Option<P>, HostRegistrationFailure>(None)
            &&& second == first
        }),
{
}

/// A registration that the interpreter accepts replaces whoever held the
/// slot, and the deregistration that follows hands the new observer back.
pub proof fn lemma_register_then_deregister<P>(occupant: Option<P>, observer: P)
    ensures
        ({
            let held = occupant_after_register(occupant, observer, Ok(()));
            &&& register_result(occupant, observer, Ok(())) == Ok::<
                Option<P>,
                RefusedRegistration<P>,
            >(occupant)
            &&& held == Some(observer)
            &&& deregister_result(held, Ok(())) == Ok::<Option<P>, HostRegistrationFailure>(
                Some(observer),
            )
            &&& occupant_after_deregister(held, Ok(())) is None
        }),
{
}

} // verus!
