//! Reading back the entities a query returns, one column of a row at a time.
use vstd::prelude::*;
use vstd::string::*;
use crate::types::{DbEntityWrapper, EntityType};

verus! {

/// Whether a column returned as `entity_type` can be read from a row: only
/// nodes and relations can.
pub open spec fn readable(entity_type: EntityType) -> bool {
    entity_type == EntityType::Node || entity_type == EntityType::Relation
}

/// The message for a returned column that cannot be read.
pub open spec fn column_error(alias: Seq<char>, entity_type: EntityType) -> Seq<char> {
    match entity_type {
        EntityType::Node => "Failed to get Node from db for "@ + alias,
        EntityType::Relation => "Failed to get Relation from db for "@ + alias,
        _ => "Not a Node or Relation not sure what you were trying to return here, or why..."@,
    }
}

/// The entity a row gives for the column returned under `alias` as
/// `entity_type`, given what reading that column as a node or relation gave
/// (`None` where the row held none). A column of any other type, or one that
/// could not be read, is an error that names it.
pub fn returned_column(alias: &str, entity_type: EntityType, read: Option<DbEntityWrapper>) -> (r: Result<
    DbEntityWrapper,
    String,
>)
    ensures
        readable(entity_type) && read is Some ==> (r matches Ok(w) && w == read.unwrap()),
        !(readable(entity_type) && read is Some) ==> (r matches Err(e) && e@ == column_error(
            alias@,
            entity_type,
        )),
{
    match entity_type {
        EntityType::Node => match read {
            Some(w) => Ok(w),
            Option::None => {
                let mut m = String::from_str("Failed to get Node from db for ");
                m.append(alias);
                Err(m)
            },
        },
        EntityType::Relation => match read {
            Some(w) => Ok(w),
            Option::None => {
                let mut m = String::from_str("Failed to get Relation from db for ");
                m.append(alias);
                Err(m)
            },
        },
        _ => Err(String::from_str("Not a Node or Relation not sure what you were trying to return here, or why...")),
    }
}

} // verus!
