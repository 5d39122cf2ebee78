//! The ownership cell: the one place that holds the peripheral handles
//! after boot. Handles are taken from the hardware once, installed once,
//! and only lent out afterwards.

use crate::registers::Peripheral;
use vstd::prelude::*;

verus! {

/// The failures of a boot. Neither can be recovered from: the caller
/// halts.
#[derive(Clone, Copy, Debug, PartialEq, Eq, Structural)]
pub enum BootError {
    /// The peripherals had been taken from the hardware before.
    DoubleAcquire,
    /// A handle was asked for before it was installed.
    NotInstalled(Peripheral),
}

/// One handle for each peripheral the bring-up touches.
pub struct Handles<R, P, F> {
    pub rcc: R,
    pub pwr: P,
    pub flash: F,
}

/// One entry of the ownership cell.
pub enum Slot<H> {
    /// Nothing has been installed yet.
    Uninitialized,
    /// The handle is installed and stays so.
    Installed(H),
}

/// The peripheral handles of the system. The fields are public so that an
/// empty cell can be written down where no function may be called.
pub struct OwnershipCell<R, P, F> {
    pub rcc: Slot<R>,
    pub pwr: Slot<P>,
    pub flash: Slot<F>,
}

/// Turns the result of taking the peripherals from the hardware into the
/// handles, or into the failure that taking them twice is.
pub fn acquire_all<R, P, F>(taken: Option<Handles<R, P, F>>) -> (acquired: Result<
    Handles<R, P, F>,
    BootError,
>)
    ensures
        match taken {
            Some(handles) => acquired == Ok::<Handles<R, P, F>, BootError>(handles),
            None => acquired == Err::<Handles<R, P, F>, BootError>(BootError::DoubleAcquire),
        },
{
    match taken {
        Some(handles) => Ok(handles),
        None => Err(BootError::DoubleAcquire),
    }
}

impl<R, P, F> OwnershipCell<R, P, F> {
    /// No handle is installed.
    pub open spec fn spec_is_empty(self) -> bool {
        self.rcc is Uninitialized && self.pwr is Uninitialized && self.flash is Uninitialized
    }

    /// The cell holds exactly `handles`.
    pub open spec fn holds(self, handles: Handles<R, P, F>) -> bool {
        &&& self.rcc == Slot::Installed(handles.rcc)
        &&& self.pwr == Slot::Installed(handles.pwr)
        &&& self.flash == Slot::Installed(handles.flash)
    }

    /// Whether the handle of `kind` is installed.
    pub open spec fn spec_is_installed(self, kind: Peripheral) -> bool {
        match kind {
            Peripheral::Rcc => self.rcc is Installed,
            Peripheral::Pwr => self.pwr is Installed,
            Peripheral::Flash => self.flash is Installed,
        }
    }

    /// The cell before boot.
    pub fn new() -> (cell: Self)
        ensures
            cell.spec_is_empty(),
    {
        OwnershipCell {
            rcc: Slot::Uninitialized,
            pwr: Slot::Uninitialized,
            flash: Slot::Uninitialized,
        }
    }

    /// Whether no handle is installed.
    pub fn is_empty(&self) -> (empty: bool)
        ensures
            empty == self.spec_is_empty(),
    {
        matches!(self.rcc, Slot::Uninitialized) && matches!(self.pwr, Slot::Uninitialized)
            && matches!(self.flash, Slot::Uninitialized)
    }

    /// Whether the handle of `kind` is installed.
    pub fn is_installed(&self, kind: Peripheral) -> (installed: bool)
        ensures
            installed == self.spec_is_installed(kind),
    {
        match kind {
            Peripheral::Rcc => matches!(self.rcc, Slot::Installed(_)),
            Peripheral::Pwr => matches!(self.pwr, Slot::Installed(_)),
            Peripheral::Flash => matches!(self.flash, Slot::Installed(_)),
        }
    }

    /// Installs all handles at once. A cell is populated once only.
    pub fn install(&mut self, handles: Handles<R, P, F>)
        requires
            old(self).spec_is_empty(),
        ensures
            final(self).holds(handles),
    {
        self.rcc = Slot::Installed(handles.rcc);
        self.pwr = Slot::Installed(handles.pwr);
        self.flash = Slot::Installed(handles.flash);
    }

    /// Runs `f` on the clock control handle and hands back what it
    /// returns; refuses if the handle is not installed.
    pub fn with_rcc<T, G: FnOnce(&R) -> T>(&self, f: G) -> (out: Result<T, BootError>)
        requires
            self.rcc matches Slot::Installed(h) ==> f.requires((&h,)),
        ensures
            match self.rcc {
                Slot::Installed(h) => out is Ok && f.ensures((&h,), out->Ok_0),
                Slot::Uninitialized => out == Err::<T, BootError>(
                    BootError::NotInstalled(Peripheral::Rcc),
                ),
            },
    {
        match &self.rcc {
            Slot::Installed(h) => Ok(f(h)),
            Slot::Uninitialized => Err(BootError::NotInstalled(Peripheral::Rcc)),
        }
    }

    /// Runs `f` on the power control handle and hands back what it
    /// returns; refuses if the handle is not installed.
    pub fn with_pwr<T, G: FnOnce(&P) -> T>(&self, f: G) -> (out: Result<T, BootError>)
        requires
            self.pwr matches Slot::Installed(h) ==> f.requires((&h,)),
        ensures
            match self.pwr {
                Slot::Installed(h) => out is Ok && f.ensures((&h,), out->Ok_0),
                Slot::Uninitialized => out == Err::<T, BootError>(
                    BootError::NotInstalled(Peripheral::Pwr),
                ),
            },
    {
        match &self.pwr {
            Slot::Installed(h) => Ok(f(h)),
            Slot::Uninitialized => Err(BootError::NotInstalled(Peripheral::Pwr)),
        }
    }

    /// Runs `f` on the flash interface handle and hands back what it
    /// returns; refuses if the handle is not installed.
    pub fn with_flash<T, G: FnOnce(&F) -> T>(&self, f: G) -> (out: Result<T, BootError>)
        requires
            self.flash matches Slot::Installed(h) ==> f.requires((&h,)),
        ensures
            match self.flash {
                Slot::Installed(h) => out is Ok && f.ensures((&h,), out->Ok_0),
                Slot::Uninitialized => out == Err::<T, BootError>(
                    BootError::NotInstalled(Peripheral::Flash),
                ),
            },
    {
        match &self.flash {
            Slot::Installed(h) => Ok(f(h)),
            Slot::Uninitialized => Err(BootError::NotInstalled(Peripheral::Flash)),
        }
    }
}

} // verus!
