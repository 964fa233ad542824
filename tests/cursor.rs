use cowdb::{Cursor, Error};
use std::collections::BTreeMap;

/// A table held in memory: the ordered key set and the value files.
struct Scan<'a> {
    table: &'a BTreeMap<Vec<u8>, Vec<u8>>,
    rows: std::vec::IntoIter<Vec<u8>>,
    cursor: Cursor,
}

impl<'a> Scan<'a> {
    fn new(table: &'a BTreeMap<Vec<u8>, Vec<u8>>) -> Self {
        let rows: Vec<Vec<u8>> = table.keys().cloned().collect();
        Scan { table, rows: rows.into_iter(), cursor: Cursor::new() }
    }

    fn next_key(&mut self) -> Result<Option<Vec<u8>>, Error> {
        let row = if self.cursor.scanning() { self.rows.next() } else { None };
        Ok(self.cursor.next_key(row))
    }

    fn first_key(&mut self) -> Result<Option<Vec<u8>>, Error> {
        match self.cursor.first_key() {
            Some(r) => r,
            None => self.next_key(),
        }
    }

    fn last_key(&mut self) -> Result<Option<Vec<u8>>, Error> {
        let max = self.table.keys().next_back().cloned();
        Ok(self.cursor.last_key(max))
    }

    fn get_current(&mut self) -> Result<Option<(Vec<u8>, Vec<u8>)>, Error> {
        if self.cursor.needs_first_row() {
            self.next_key()?;
        }
        if let Some(k) = self.cursor.key_to_load() {
            let v = self.table.get(&k).cloned().ok_or(Error::Io("missing".to_string()))?;
            self.cursor.set_value(v);
        }
        self.cursor.get_current()
    }
}

fn put(t: &mut BTreeMap<Vec<u8>, Vec<u8>>, k: &[u8], v: &[u8]) {
    t.insert(k.to_vec(), v.to_vec());
}

#[test]
fn insert_then_iterate() {
    let mut t = BTreeMap::new();
    put(&mut t, &[3], &[33]);
    put(&mut t, &[1], &[11]);
    put(&mut t, &[0], &[0]);
    put(&mut t, &[2], &[22]);

    let mut cursor = Scan::new(&t);
    assert_eq!(&*cursor.first_key().unwrap().unwrap(), &[0]);

    for i in 0..4u8 {
        let (k, v) = cursor.get_current().unwrap().unwrap();
        assert_eq!(*k, [i]);
        assert_eq!(*v, [i * 11]);
        cursor.next_key().unwrap();
    }

    assert_eq!(*cursor.last_key().unwrap().unwrap(), [3]);
    let (k, v) = cursor.get_current().unwrap().unwrap();
    assert_eq!(*k, [3]);
    assert_eq!(*v, [33]);
}

#[test]
fn empty_db_first_key() {
    let t = BTreeMap::new();
    let mut cursor = Scan::new(&t);
    assert_eq!(cursor.first_key().unwrap(), None);
}

#[test]
fn empty_db_last_key() {
    let t = BTreeMap::new();
    let mut cursor = Scan::new(&t);
    assert_eq!(cursor.last_key().unwrap(), None);
}

#[test]
fn empty_db_iter() {
    let t = BTreeMap::new();
    let mut cursor = Scan::new(&t);
    assert_eq!(cursor.next_key().unwrap(), None);
    assert_eq!(cursor.get_current().unwrap(), None);
}

#[test]
fn first_key_after_advancing_is_an_error() {
    let mut t = BTreeMap::new();
    put(&mut t, &[5], &[1]);
    put(&mut t, &[7], &[2]);
    let mut cursor = Scan::new(&t);
    assert_eq!(cursor.first_key().unwrap(), Some(vec![5]));
    assert_eq!(cursor.first_key().unwrap(), Some(vec![5]));
    assert_eq!(cursor.next_key().unwrap(), Some(vec![7]));
    assert_eq!(cursor.first_key(), Err(Error::InvalidCursorState));
}

#[test]
fn last_key_is_maximum_and_ends_scan() {
    let mut t = BTreeMap::new();
    put(&mut t, &[1, 0], &[1]);
    put(&mut t, &[9], &[9]);
    put(&mut t, &[2, 255], &[2]);
    let mut cursor = Scan::new(&t);
    assert_eq!(cursor.last_key().unwrap(), Some(vec![9]));
    assert!(!cursor.cursor.scanning());
    assert_eq!(cursor.get_current().unwrap(), Some((vec![9], vec![9])));
    assert_eq!(cursor.next_key().unwrap(), None);
    assert_eq!(cursor.get_current().unwrap(), None);
}

#[test]
fn delete_current_keeps_key_and_reloads_value() {
    let mut t = BTreeMap::new();
    put(&mut t, &[4], &[40]);
    let mut cursor = Cursor::new();
    cursor.next_key(Some(vec![4]));
    assert_eq!(cursor.get_current(), Err(Error::InvalidCursorState));
    assert_eq!(cursor.key_to_load(), Some(vec![4]));
    cursor.set_value(vec![40]);
    assert_eq!(cursor.key_to_load(), None);
    assert_eq!(cursor.get_current(), Ok(Some((vec![4], vec![40]))));
    cursor.delete_current();
    assert_eq!(cursor.current_key(), Some(vec![4]));
    assert_eq!(cursor.key_to_load(), Some(vec![4]));
}

#[test]
fn set_value_without_key_changes_nothing() {
    let mut cursor = Cursor::new();
    cursor.set_value(vec![1]);
    assert_eq!(cursor.key_to_load(), None);
    assert_eq!(cursor.get_current(), Ok(None));
    assert!(cursor.needs_first_row());
}

#[test]
fn exhausted_cursor_has_no_current_entry() {
    let mut t = BTreeMap::new();
    put(&mut t, &[8], &[80]);
    let mut cursor = Scan::new(&t);
    assert_eq!(cursor.next_key().unwrap(), Some(vec![8]));
    assert_eq!(cursor.get_current().unwrap(), Some((vec![8], vec![80])));
    assert_eq!(cursor.next_key().unwrap(), None);
    assert_eq!(cursor.get_current().unwrap(), None);
    assert_eq!(cursor.first_key().unwrap(), None);
    assert_eq!(cursor.cursor.current_key(), None);
}
