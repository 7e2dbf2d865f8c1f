//! The registry: the one place where the console of a system is kept, so
//! that text can be printed from anywhere. It is a cell behind a spin lock
//! that starts empty and is filled once; every access takes the lock and
//! holds it for the whole of one operation.
use vstd::prelude::*;
use crate::console::Console;
use crate::fault::Fault;
use crate::vga::{FrameBufferWriter, Position};

verus! {

/// The spin lock of the registry.
#[verifier::external_type_specification]
#[verifier::external_body]
#[verifier::reject_recursive_types(T)]
#[verifier::reject_recursive_types(R)]
pub struct ExMutex<T: ?Sized, R>(spin::mutex::Mutex<T, R>);

/// The guard that stands for a held lock and releases it when dropped.
#[verifier::external_type_specification]
#[verifier::external_body]
#[verifier::reject_recursive_types(T)]
pub struct ExMutexGuard<'a, T: 'a + ?Sized>(spin::mutex::MutexGuard<'a, T>);

/// The strategy of the lock while it waits: busy waiting.
#[verifier::external_type_specification]
#[verifier::external_body]
pub struct ExSpin(spin::relax::Spin);

/// What the lock protects: no writer, or exactly one.
pub struct Slot {
    writer: Option<FrameBufferWriter>,
}

impl View for Slot {
    type V = Option<Console>;

    closed spec fn view(&self) -> Option<Console> {
        match self.writer {
            Some(writer) => Some(writer@),
            None => None,
        }
    }
}

/// What printing `text` does to a slot: nothing where it is empty, and
/// otherwise what writing the text does to the console in it.
pub open spec fn printed(slot: Option<Console>, text: Seq<char>) -> (
    Option<Console>,
    Result<(), Fault>,
) {
    match slot {
        None => (None, Ok(())),
        Some(console) => (Some(console.write_str(text).0), console.write_str(text).1),
    }
}

impl Slot {
    /// The empty slot.
    pub fn empty() -> (slot: Self)
        ensures
            slot@ is None,
    {
        Slot { writer: None }
    }

    /// Puts a writer into the slot, in place of what it held.
    pub fn install(&mut self, writer: FrameBufferWriter)
        ensures
            final(self)@ == Some(writer@),
    {
        self.writer = Some(writer);
    }

    /// The cursor of the installed writer, if there is one.
    pub fn position(&self) -> (position: Option<Position>)
        ensures
            position is Some <==> self@ is Some,
            position matches Some(p) ==> p.x == self@->Some_0.x && p.y == self@->Some_0.y,
    {
        match &self.writer {
            Some(writer) => Some(writer.position()),
            None => None,
        }
    }

    /// Writes `text` to the installed writer. Without one the text is
    /// dropped: the slot stays empty and no fault is reported.
    pub fn print(&mut self, text: &str) -> (outcome: Result<(), Fault>)
        ensures
            (final(self)@, outcome) == printed(old(self)@, text@),
            old(self)@ is None ==> final(self)@ is None && outcome is Ok,
    {
        match &mut self.writer {
            Some(writer) => writer.write_str(text),
            None => Ok(()),
        }
    }
}

/// What a lock was made with. What a lock holds changes behind a shared
/// reference, so nothing names what it holds now; what it held when it was
/// made never changes.
pub uninterp spec fn made_with(cell: spin::mutex::Mutex<Slot, spin::relax::Spin>) -> Option<
    Console,
>;

/// Wraps a slot in a lock, through `spin::mutex::Mutex::new`, which stores
/// the value it is given. The contract claims that the lock was made with
/// that slot, and nothing of the lock's state.
#[verifier::external_body]
fn new_cell(slot: Slot) -> (cell: spin::mutex::Mutex<Slot, spin::relax::Spin>)
    ensures
        made_with(cell) == slot@,
{
    spin::mutex::Mutex::new(slot)
}

/// Takes the lock, through `spin::mutex::Mutex::lock`, which spins until the
/// lock is free. It does not return while the caller itself holds the lock:
/// a fault reported from inside a print must not print again. Nothing is
/// claimed of the guard.
#[verifier::external_body]
fn lock_cell<'a>(cell: &'a spin::mutex::Mutex<Slot, spin::relax::Spin>) -> spin::mutex::MutexGuard<
    'a,
    Slot,
> {
    cell.lock()
}

/// Reaches the slot behind a held lock, through the guard's `deref_mut`.
/// What the slot holds depends on every earlier holder of the lock, so
/// nothing is claimed of it.
#[verifier::external_body]
fn slot_of<'a, 'b>(guard: &'a mut spin::mutex::MutexGuard<'b, Slot>) -> &'a mut Slot {
    &mut **guard
}

/// A slot behind a spin lock.
pub struct Registry {
    cell: spin::mutex::Mutex<Slot, spin::relax::Spin>,
}

impl Registry {
    /// What the registry held when it was made, before any call site could
    /// reach it.
    pub closed spec fn initial(&self) -> Option<Console> {
        made_with(self.cell)
    }

    /// A registry that starts empty: it is made with a slot that holds no
    /// writer.
    pub fn new() -> (registry: Self)
        ensures
            registry.initial() is None,
    {
        Registry { cell: new_cell(Slot::empty()) }
    }

    /// Takes the lock and puts the writer into the slot.
    pub fn install(&self, writer: FrameBufferWriter) {
        let mut guard = lock_cell(&self.cell);
        let slot = slot_of(&mut guard);
        slot.install(writer);
    }

    /// Takes the lock and tells where the cursor of the installed writer
    /// stands, if there is one.
    pub fn position(&self) -> Option<Position> {
        let mut guard = lock_cell(&self.cell);
        let slot = slot_of(&mut guard);
        slot.position()
    }

    /// Takes the lock and prints `text` to whatever the slot holds at that
    /// moment, as [`Slot::print`] says.
    pub fn print(&self, text: &str) -> (outcome: Result<(), Fault>)
        ensures
            exists|before: Option<Console>| outcome == printed(before, text@).1,
    {
        let mut guard = lock_cell(&self.cell);
        let slot = slot_of(&mut guard);
        let ghost before = slot@;
        let outcome = slot.print(text);
        assert(outcome == printed(before, text@).1);
        outcome
    }
}

/// Prints `text` through the registry: the target of the formatted-output
/// call sites.
pub fn _print(registry: &Registry, text: &str) -> (outcome: Result<(), Fault>)
    ensures
        exists|before: Option<Console>| outcome == printed(before, text@).1,
{
    registry.print(text)
}

} // verus!
