use crate::error::Error;
use vstd::prelude::*;

verus! {

/// A handle on a table opened within one transaction: its index in the
/// transaction's list of open tables.
#[derive(Debug, Clone, Copy, PartialEq, Eq, PartialOrd, Ord, Hash, Structural)]
pub struct TableId {
    pub id: usize,
}

impl TableId {
    pub fn new(id: usize) -> (r: Self)
        ensures
            r.id == id,
    {
        TableId { id }
    }
}

/// The tables opened by one transaction, in the order they were opened. Each
/// opening appends a new entry, also for a table that is open already.
pub struct TableList<T> {
    tables: Vec<T>,
}

impl<T> View for TableList<T> {
    type V = Seq<T>;

    closed spec fn view(&self) -> Seq<T> {
        self.tables@
    }
}

impl<T> TableList<T> {
    pub fn new() -> (r: Self)
        ensures
            r@ == Seq::<T>::empty(),
    {
        TableList { tables: Vec::new() }
    }

    pub fn len(&self) -> (r: usize)
        ensures
            r == self@.len(),
    {
        self.tables.len()
    }

    /// Appends an opened table; its handle is the number of tables opened
    /// before it.
    pub fn push(&mut self, table: T) -> (r: TableId)
        ensures
            final(self)@ == old(self)@.push(table),
            r.id == old(self)@.len(),
    {
        let id = TableId::new(self.tables.len());
        self.tables.push(table);
        id
    }

    /// The table that `id` names, or `InvalidHandle` where it names none.
    pub fn get(&self, id: TableId) -> (r: Result<&T, Error>)
        ensures
            r is Ok <==> id.id < self@.len(),
            r is Ok ==> *r->Ok_0 == self@[id.id as int],
            r is Err ==> r == Err::<&T, Error>(Error::InvalidHandle),
    {
        if id.id < self.tables.len() {
            Ok(&self.tables[id.id])
        } else {
            Err(Error::InvalidHandle)
        }
    }
}

} // verus!
