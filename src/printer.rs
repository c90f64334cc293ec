use rand::Rng;
use std::marker::PhantomData;
use vstd::prelude::*;

verus! {

/// A 3D printer whose state is part of its type, so that each operation is
/// only available in the state where it is allowed.
pub struct Printer3D<S> {
    _marker: PhantomData<S>,
}

/// The 3D printer encountered an error and needs resetting
pub struct ErrorState;

/// The 3D printer is waiting for a job
pub struct IdleState;

/// The 3D printer is currently printing
pub struct PrintingState;

/// The 3D printed product is ready
pub struct ProductReadyState;

/// Relies on rand's `thread_rng().gen_range(0..bound)`: a random number in
/// `[0, bound)`. It panics on an empty range, hence `bound > 0`.
#[verifier::external_body]
fn random_below(bound: usize) -> (r: usize)
    requires
        bound > 0,
    ensures
        r < bound,
{
    rand::thread_rng().gen_range(0..bound)
}

/// Whether a roll of the filament sensor, a number in `[0, 100)`, says that
/// the filament ran out: it does for a roll above 95.
pub fn out_of_filament(roll: usize) -> (r: bool)
    ensures
        r == (roll > 95),
{
    roll > 95
}

impl<CS> Printer3D<CS> {
    /// The same printer in another state.
    fn into_state<NS>(self) -> (r: Printer3D<NS>) {
        Printer3D { _marker: PhantomData }
    }
}

impl Printer3D<IdleState> {
    /// A new printer, waiting for a job.
    pub fn new() -> (r: Self) {
        Printer3D { _marker: PhantomData }
    }

    /// Starts a print job.
    pub fn start_print(self) -> (r: Printer3D<PrintingState>) {
        self.into_state()
    }
}

impl Default for Printer3D<IdleState> {
    fn default() -> (r: Self) {
        Self::new()
    }
}

impl Printer3D<PrintingState> {
    /// Checks the filament with a fresh sensor roll: the printer goes on
    /// printing, or enters the error state when the filament ran out.
    pub fn check_filament(self) -> (r: Result<Self, Printer3D<ErrorState>>) {
        let roll = random_below(100);
        self.check_filament_roll(roll)
    }

    /// Checks the filament against the sensor roll `roll`: the error state
    /// exactly when `out_of_filament(roll)` says so.
    pub fn check_filament_roll(self, roll: usize) -> (r: Result<Self, Printer3D<ErrorState>>)
        ensures
            r is Err <==> roll > 95,
    {
        if out_of_filament(roll) {
            Err(self.into_state())
        } else {
            Ok(self)
        }
    }

    /// Finishes the print job; the product is ready.
    pub fn finish_print(self) -> (r: Printer3D<ProductReadyState>) {
        self.into_state()
    }
}

impl Printer3D<ErrorState> {
    /// Resets the printer after an error.
    pub fn reset(self) -> (r: Printer3D<IdleState>) {
        self.into_state()
    }
}

impl Printer3D<ProductReadyState> {
    /// Takes the product out; the printer waits for a job again.
    pub fn retrieve_product(self) -> (r: Printer3D<IdleState>) {
        self.into_state()
    }
}

} // verus!
