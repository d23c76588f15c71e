use vstd::prelude::*;

verus! {

/// One step in setting up the database.
#[derive(Clone, Copy, Debug, PartialEq, Eq, Structural)]
pub enum SchemaStep {
    /// Create the enumeration of table states.
    CreateTableStatus,
    /// Create the enumeration of item states.
    CreateItemStatus,
    /// Create the tables of sessions, of items and of the items' history,
    /// each unless it exists.
    CreateTables,
}

/// True when a lookup said that the enumeration does not exist. A lookup
/// that failed leaves the enumeration alone.
pub open spec fn missing(lookup: Option<bool>) -> bool {
    lookup == Some(false)
}

/// The steps that set up the database, given what the lookups of the two
/// enumerations said: each enumeration is created only when it is missing,
/// and the tables are always asked for.
pub open spec fn schema_steps(table_status: Option<bool>, item_status: Option<bool>) -> Seq<
    SchemaStep,
> {
    (if missing(table_status) {
        seq![SchemaStep::CreateTableStatus]
    } else {
        Seq::empty()
    }) + (if missing(item_status) {
        seq![SchemaStep::CreateItemStatus]
    } else {
        Seq::empty()
    }) + seq![SchemaStep::CreateTables]
}

/// The steps that set up the database. Running them a second time, when
/// both enumerations exist, asks for the tables only.
pub fn init_steps(table_status: Option<bool>, item_status: Option<bool>) -> (steps: Vec<SchemaStep>)
    ensures
        steps@ == schema_steps(table_status, item_status),
{
    let mut steps: Vec<SchemaStep> = Vec::new();
    match table_status {
        Some(false) => {
            steps.push(SchemaStep::CreateTableStatus);
        },
        _ => {},
    }
    match item_status {
        Some(false) => {
            steps.push(SchemaStep::CreateItemStatus);
        },
        _ => {},
    }
    steps.push(SchemaStep::CreateTables);
    assert(steps@ =~= schema_steps(table_status, item_status));
    steps
}

} // verus!
