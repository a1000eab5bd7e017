//! A second, smaller vocabulary for builders: entity kinds, clauses, and
//! the marker types and traits that steer which calls may follow.
use vstd::prelude::*;

verus! {

/// Whether an entity is a node or a relation.
#[derive(Clone, Copy, Debug, PartialEq, Eq, Structural)]
pub enum EntityType {
    Node,
    Relation,
}

/// The clause the earlier builder was writing.
#[derive(Clone, Copy, Debug, PartialEq, Eq, Structural)]
pub enum Clause {
    Create,
    Merge,
    Match,
    Delete,
    Unset,
}

/// A property type of an entity.
pub trait Neo4gPropsTrait {}

/// A property that names itself and renders its value as text.
pub trait Neo4gProp {
    fn key(&self) -> &'static str;

    fn value(&self) -> String;
}

/// An entity that selects itself by properties given as trait objects,
/// rendering the pattern text and its parameters as name and text pairs.
pub trait ObjectSafeNeo4gEntity {
    fn match_by_obj(&self, props: &[Box<dyn Neo4gProp>]) -> (String, Vec<(String, String)>);

    fn merge_by_obj(&self, props: &[Box<dyn Neo4gProp>]) -> (String, Vec<(String, String)>);
}

pub trait CanMatch {}
pub trait CanCreate {}
pub trait CanInlineNode {}
pub trait CanInlineRelate {}
pub trait CanCall {}
pub trait CanReturn {}
pub trait CanRun {}
pub trait CanAddReturn {}

#[derive(Debug, Clone)]
pub struct Empty;

#[derive(Debug, Clone)]
pub struct CreatedNode;

#[derive(Debug, Clone)]
pub struct MatchedNode;

#[derive(Debug, Clone)]
pub struct CreatedInlineRelation;

#[derive(Debug, Clone)]
pub struct CreatedRelation;

#[derive(Debug, Clone)]
pub struct InLineRelation;

#[derive(Debug, Clone)]
pub struct ReturnSet;

#[derive(Debug, Clone)]
pub struct DeletedEntity;

#[derive(Debug, Clone)]
pub struct Called;

impl CanMatch for Empty {}
impl CanCreate for Empty {}
impl CanCall for Empty {}
impl CanInlineRelate for CreatedNode {}
impl CanReturn for CreatedNode {}
impl CanInlineRelate for MatchedNode {}
impl CanMatch for MatchedNode {}
impl CanCreate for MatchedNode {}
impl CanCall for MatchedNode {}
impl CanReturn for MatchedNode {}
impl CanInlineNode for CreatedInlineRelation {}
impl CanReturn for CreatedRelation {}
impl CanRun for ReturnSet {}
impl CanRun for DeletedEntity {}
impl CanReturn for Called {}
impl CanRun for Called {}
impl CanAddReturn for CreatedNode {}
impl CanAddReturn for MatchedNode {}
impl CanAddReturn for CreatedInlineRelation {}

} // verus!
