use crate::error::Error;
use vstd::prelude::*;

verus! {

/// The state of a cursor, as a mathematical value.
pub struct CursorView {
    /// The most recently read key, if any.
    pub key: Option<Seq<u8>>,
    /// The value of `key`, once it has been loaded.
    pub value: Option<Seq<u8>>,
    /// Whether `key` is the first key of the scan.
    pub at_first: bool,
    /// Whether the forward scan is still in use (`last_key` ends it).
    pub scanning: bool,
}

/// The view of an optional byte vector.
pub open spec fn opt_view(o: Option<Vec<u8>>) -> Option<Seq<u8>> {
    match o {
        Some(v) => Some(v@),
        None => None,
    }
}

/// The key that a step of the forward scan delivers: what the scan produced,
/// or nothing once the scan is no longer in use.
pub open spec fn scanned(c: CursorView, row: Option<Seq<u8>>) -> Option<Seq<u8>> {
    if c.scanning {
        row
    } else {
        None
    }
}

/// The state after `next_key` on `c`, where the scan produced `row`.
pub open spec fn next_key_next(c: CursorView, row: Option<Seq<u8>>) -> CursorView {
    match scanned(c, row) {
        Some(k) => CursorView { key: Some(k), value: None, at_first: c.key is None, ..c },
        None => CursorView { key: None, value: None, at_first: false, ..c },
    }
}

/// An ascending iterator over the keys of one table, with the value of the
/// current key loaded lazily.
///
/// The cursor holds the decisions; the table's ordered index and its files
/// are read by the caller, who hands the outcome in: the next key of the
/// ascending scan, the maximum key, the value of the current key.
pub struct Cursor {
    current_key: Option<Vec<u8>>,
    current_value: Option<Vec<u8>>,
    is_at_first_key: bool,
    scanning: bool,
}

impl View for Cursor {
    type V = CursorView;

    closed spec fn view(&self) -> CursorView {
        CursorView {
            key: opt_view(self.current_key),
            value: opt_view(self.current_value),
            at_first: self.is_at_first_key,
            scanning: self.scanning,
        }
    }
}

fn clone_bytes(o: &Option<Vec<u8>>) -> (r: Option<Vec<u8>>)
    ensures
        opt_view(r) == opt_view(*o),
{
    match o {
        Some(v) => Some(v.clone()),
        None => None,
    }
}

impl Cursor {
    /// A cursor before its first key: nothing read, the scan at its start.
    pub fn new() -> (r: Self)
        ensures
            r@ == (CursorView { key: None, value: None, at_first: true, scanning: true }),
    {
        Cursor { current_key: None, current_value: None, is_at_first_key: true, scanning: true }
    }

    /// Whether the forward scan is still in use; once it is not, `next_key`
    /// ignores the row handed to it.
    pub fn scanning(&self) -> (r: bool)
        ensures
            r == self@.scanning,
    {
        self.scanning
    }

    /// The first key, read again without moving. `None` means that no key has
    /// been read yet: the caller then advances with `next_key`, whose result is
    /// the first key. Once the cursor has moved past the first key, this is an
    /// error: it peeks, it does not seek back to the start.
    pub fn first_key(&self) -> (r: Option<Result<Option<Vec<u8>>, Error>>)
        ensures
            r is None <==> self@.key is None,
            self@.key is Some && self@.at_first ==> r is Some && r->Some_0 is Ok && opt_view(
                r->Some_0->Ok_0,
            ) == self@.key,
            self@.key is Some && !self@.at_first ==> r == Some(
                Err::<Option<Vec<u8>>, Error>(Error::InvalidCursorState),
            ),
    {
        match &self.current_key {
            Some(k) => {
                if self.is_at_first_key {
                    Some(Ok(Some(k.clone())))
                } else {
                    Some(Err(Error::InvalidCursorState))
                }
            },
            None => None,
        }
    }

    /// Advances by one key. `row` is the next key of the ascending scan, or
    /// `None` at its end. At the end the cursor is exhausted: it has no current
    /// key or value and is no longer at the first key; otherwise the new key is
    /// current, its value
    /// is to be loaded again, and it is the first key exactly when no key had
    /// been read before.
    pub fn next_key(&mut self, row: Option<Vec<u8>>) -> (r: Option<Vec<u8>>)
        ensures
            final(self)@ == next_key_next(old(self)@, opt_view(row)),
            opt_view(r) == scanned(old(self)@, opt_view(row)),
    {
        let row = if self.scanning {
            row
        } else {
            None
        };
        match row {
            Some(k) => {
                self.is_at_first_key = self.current_key.is_none();
                self.current_key = Some(k.clone());
                self.current_value = None;
                Some(k)
            },
            None => {
                self.current_key = None;
                self.current_value = None;
                self.is_at_first_key = false;
                None
            },
        }
    }

    /// Moves to the largest key, `max`, as the table's ordered index reports
    /// it (`None` for an empty table), and ends the forward scan.
    pub fn last_key(&mut self, max: Option<Vec<u8>>) -> (r: Option<Vec<u8>>)
        ensures
            final(self)@ == (CursorView { key: opt_view(max), value: None, scanning: false, ..old(self)@ }),
            opt_view(r) == opt_view(max),
    {
        self.current_key = clone_bytes(&max);
        self.current_value = None;
        self.scanning = false;
        max
    }

    /// Whether reading the current entry first needs a step of the scan: no
    /// key has been read and the first one is still to come.
    pub fn needs_first_row(&self) -> (r: bool)
        ensures
            r == (self@.key is None && self@.at_first),
    {
        self.current_key.is_none() && self.is_at_first_key
    }

    /// The key whose value is to be read from its file before the current
    /// entry can be returned, if any.
    pub fn key_to_load(&self) -> (r: Option<Vec<u8>>)
        ensures
            opt_view(r) == (if self@.value is None {
                self@.key
            } else {
                None
            }),
    {
        if self.current_value.is_none() {
            clone_bytes(&self.current_key)
        } else {
            None
        }
    }

    /// Records the value read for the current key; without a current key
    /// nothing changes.
    pub fn set_value(&mut self, value: Vec<u8>)
        ensures
            final(self)@ == (if old(self)@.key is Some {
                CursorView { value: Some(value@), ..old(self)@ }
            } else {
                old(self)@
            }),
    {
        if self.current_key.is_some() {
            self.current_value = Some(value);
        }
    }

    /// The current entry: `None` where there is no current key (an empty or
    /// exhausted scan), the key and its value otherwise. The value must have
    /// been loaded (see `key_to_load`); where it has not, this is an error.
    pub fn get_current(&self) -> (r: Result<Option<(Vec<u8>, Vec<u8>)>, Error>)
        ensures
            self@.key is None ==> r == Ok::<Option<(Vec<u8>, Vec<u8>)>, Error>(None),
            self@.key is Some && self@.value is Some ==> r is Ok && r->Ok_0 is Some && r->Ok_0->Some_0.0@
                == self@.key->Some_0 && r->Ok_0->Some_0.1@ == self@.value->Some_0,
            self@.key is Some && self@.value is None ==> r == Err::<
                Option<(Vec<u8>, Vec<u8>)>,
                Error,
            >(Error::InvalidCursorState),
    {
        match &self.current_key {
            None => Ok(None),
            Some(k) => match &self.current_value {
                Some(v) => Ok(Some((k.clone(), v.clone()))),
                None => Err(Error::InvalidCursorState),
            },
        }
    }

    /// The current key, whose entry `delete_current` is about to remove from
    /// the index and from disk.
    pub fn current_key(&self) -> (r: Option<Vec<u8>>)
        ensures
            opt_view(r) == self@.key,
    {
        clone_bytes(&self.current_key)
    }

    /// Forgets the value of the current key after its entry was removed. The
    /// key itself stays current.
    pub fn delete_current(&mut self)
        ensures
            final(self)@ == (CursorView { value: None, ..old(self)@ }),
    {
        self.current_value = None;
    }
}

/// Once the scan has ended, the cursor is exhausted: it has no current entry,
/// reading the current entry takes no further step of the scan, and peeking at
/// the first key asks for another step, which the ended scan answers with
/// nothing.
pub proof fn lemma_exhausted_cursor(c: CursorView, row: Option<Seq<u8>>)
    requires
        scanned(c, row) is None,
    ensures
        next_key_next(c, row).key is None,
        next_key_next(c, row).value is None,
        !(next_key_next(c, row).key is None && next_key_next(c, row).at_first),
        scanned(next_key_next(c, row), None) is None,
        next_key_next(next_key_next(c, row), None) == next_key_next(c, row),
{
}

} // verus!
