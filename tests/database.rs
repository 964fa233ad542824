use cowdb::{BeginAction, CommitAction, Generation, TableId, TableList, Versions, Error};

#[test]
fn incremented_alternates() {
    assert_eq!(Generation::Tick.incremented(), Generation::Tock);
    assert_eq!(Generation::Tock.incremented(), Generation::Tick);
    assert_eq!(Generation::default(), Generation::Tick);
    assert_eq!(Generation::Tick.name(), "tick");
    assert_eq!(Generation::Tock.name(), "tock");
}

#[test]
fn commits_alternate_roots() {
    let mut v = Versions::new();
    assert_eq!(v.begin(), BeginAction::Clone { from: Generation::Tick, to: Generation::Tock });
    assert_eq!(
        v.commit(),
        Some(CommitAction { published: Generation::Tock, removed: Generation::Tick })
    );
    assert_eq!(v.begin(), BeginAction::Clone { from: Generation::Tock, to: Generation::Tick });
    assert_eq!(
        v.commit(),
        Some(CommitAction { published: Generation::Tick, removed: Generation::Tock })
    );
    assert_eq!(v.committed, Generation::Tick);
    assert_eq!(v.writer, None);
}

#[test]
fn second_writer_waits() {
    let mut v = Versions::new();
    assert!(matches!(v.begin(), BeginAction::Clone { .. }));
    let before = v;
    assert_eq!(v.begin(), BeginAction::Wait);
    assert_eq!(v, before);
    assert_eq!(v.rollback(), Some(Generation::Tock));
    assert_eq!(v.begin(), BeginAction::Clone { from: Generation::Tick, to: Generation::Tock });
}

#[test]
fn dropped_transaction_is_not_published() {
    let mut v = Versions::new();
    v.begin();
    assert_eq!(v.rollback(), Some(Generation::Tock));
    assert_eq!(v.committed, Generation::Tick);
    assert_eq!(v.commit(), None);
    assert_eq!(v.rollback(), None);
}

#[test]
fn table_handles_are_positions() {
    let mut tables: TableList<&str> = TableList::new();
    assert_eq!(tables.push("michael"), TableId::new(0));
    assert_eq!(tables.push("michael"), TableId::new(1));
    assert_eq!(tables.len(), 2);
    assert_eq!(tables.get(TableId::new(1)), Ok(&"michael"));
    assert_eq!(tables.get(TableId::new(2)), Err(Error::InvalidHandle));
}
