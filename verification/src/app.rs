//! Application state that outlives a frame.
//!
//! The application keeps its long-lived state in cells. A cell is made once, is
//! named by the identity it was given then, and holds one value; it is read and
//! updated by that identity. The cells are the only state that a frame's steps may
//! change and that is still there in the next frame.

use vstd::prelude::*;

verus! {

/// The identity of a state cell: its position among the cells of its
/// application.
#[derive(Clone, Copy, Debug, PartialEq, Eq, Structural)]
pub struct EntityId(pub usize);

/// A handle to a state cell.
#[derive(Clone, Copy, Debug, PartialEq, Eq, Structural)]
pub struct Model {
    pub id: EntityId,
}

/// A claim on the identity of a state cell that has no value yet.
#[derive(Debug, PartialEq, Eq)]
pub struct Reservation {
    id: EntityId,
}

/// Why an operation on application or window state was refused.
#[derive(Clone, Copy, Debug, PartialEq, Eq, Structural)]
pub enum StateError {
    /// The identity names no cell that holds a value.
    UnknownEntity,
    /// The reservation names no cell that still waits for its value.
    NotReserved,
    /// The handle names another window than the one at hand.
    WindowNotFound,
}

/// The application's state cells.
#[derive(Debug)]
pub struct AppContext {
    cells: Vec<Option<i64>>,
}

impl Reservation {
    /// The identity that the reservation claims.
    pub closed spec fn spec_id(&self) -> EntityId {
        self.id
    }

    /// The identity that the reservation claims.
    #[verifier::when_used_as_spec(spec_id)]
    pub fn id(&self) -> (id: EntityId)
        ensures
            id == self.spec_id(),
    {
        self.id
    }
}

impl View for AppContext {
    type V = Seq<Option<i64>>;

    /// The cells in the order of their identities: the value of each, or `None`
    /// for one that is reserved and has no value yet.
    closed spec fn view(&self) -> Seq<Option<i64>> {
        self.cells@
    }
}

impl AppContext {
    /// Whether `id` names a cell that holds a value.
    pub open spec fn holds(&self, id: EntityId) -> bool {
        id.0 < self@.len() && self@[id.0 as int] is Some
    }

    /// Whether `id` names a cell that is reserved and has no value yet.
    pub open spec fn awaits(&self, id: EntityId) -> bool {
        id.0 < self@.len() && self@[id.0 as int] is None
    }

    /// An application without state.
    pub fn new() -> (app: AppContext)
        ensures
            app@ == Seq::<Option<i64>>::empty(),
    {
        AppContext { cells: Vec::new() }
    }

    /// The number of cells, reserved ones included.
    pub fn entity_count(&self) -> (n: usize)
        ensures
            n == self@.len(),
    {
        self.cells.len()
    }

    /// Makes a new cell that holds `value`, and returns the handle to it.
    pub fn new_model(&mut self, value: i64) -> (handle: Model)
        ensures
            final(self)@ == old(self)@.push(Some(value)),
            handle.id.0 == old(self)@.len(),
    {
        let id: usize = self.cells.len();
        self.cells.push(Some(value));
        Model { id: EntityId(id) }
    }

    /// Claims the identity of a new cell, to be given its value later.
    pub fn reserve_model(&mut self) -> (reservation: Reservation)
        ensures
            final(self)@ == old(self)@.push(None),
            reservation.spec_id().0 == old(self)@.len(),
    {
        let id: usize = self.cells.len();
        self.cells.push(None);
        Reservation { id: EntityId(id) }
    }

    /// Gives the reserved cell its value.
    ///
    /// Refused, with the state unchanged, where the reservation names no cell of
    /// this application that still waits for its value.
    pub fn insert_model(&mut self, reservation: Reservation, value: i64) -> (r: Result<
        Model,
        StateError,
    >)
        ensures
            old(self).awaits(reservation.spec_id()) ==> r == Ok::<Model, StateError>(
                Model { id: reservation.spec_id() },
            ) && final(self)@ == old(self)@.update(reservation.spec_id().0 as int, Some(value)),
            !old(self).awaits(reservation.spec_id()) ==> r == Err::<Model, StateError>(
                StateError::NotReserved,
            ) && final(self)@ == old(self)@,
    {
        let id = reservation.id;
        if id.0 < self.cells.len() && self.cells[id.0].is_none() {
            self.cells.set(id.0, Some(value));
            Ok(Model { id })
        } else {
            Err(StateError::NotReserved)
        }
    }

    /// Reads the value of the cell behind `handle`.
    pub fn read_model(&self, handle: &Model) -> (r: Result<i64, StateError>)
        ensures
            self.holds(handle.id) ==> r == Ok::<i64, StateError>(self@[handle.id.0 as int]->0),
            !self.holds(handle.id) ==> r == Err::<i64, StateError>(StateError::UnknownEntity),
    {
        if handle.id.0 < self.cells.len() {
            match self.cells[handle.id.0] {
                Some(value) => Ok(value),
                None => Err(StateError::UnknownEntity),
            }
        } else {
            Err(StateError::UnknownEntity)
        }
    }

    /// Replaces the value of the cell behind `handle` by what `update` makes of
    /// it, and returns the new value.
    ///
    /// Refused, with the state unchanged and `update` not called, where the
    /// handle names no cell that holds a value.
    pub fn update_model<F: FnOnce(i64) -> i64>(&mut self, handle: &Model, update: F) -> (r: Result<
        i64,
        StateError,
    >)
        requires
            old(self).holds(handle.id) ==> update.requires((old(self)@[handle.id.0 as int]->0,)),
        ensures
            old(self).holds(handle.id) ==> r is Ok && update.ensures(
                (old(self)@[handle.id.0 as int]->0,),
                r->Ok_0,
            ) && final(self)@ == old(self)@.update(handle.id.0 as int, Some(r->Ok_0)),
            !old(self).holds(handle.id) ==> r == Err::<i64, StateError>(StateError::UnknownEntity)
                && final(self)@ == old(self)@,
    {
        if handle.id.0 < self.cells.len() {
            match self.cells[handle.id.0] {
                Some(value) => {
                    let next: i64 = update(value);
                    self.cells.set(handle.id.0, Some(next));
                    Ok(next)
                },
                None => Err(StateError::UnknownEntity),
            }
        } else {
            Err(StateError::UnknownEntity)
        }
    }
}

} // verus!
