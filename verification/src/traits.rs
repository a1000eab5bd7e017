//! The interfaces entities and query pieces implement, and the marker types
//! and traits that steer which builder methods may follow which.
use vstd::prelude::*;
use neo4rs::{BoltString, BoltType};
use crate::collections::{Params, Piece, Token, pieces};
use crate::external::{bolt_string, bolt_string_text};
use crate::types::{DbEntityWrapper, EntityType};

verus! {

/// Something that renders as a piece of query text, possibly referring to
/// entities by id, with the parameters that text needs.
pub trait Paramable {
    /// The text pieces.
    spec fn text_spec(&self) -> Seq<Piece>;

    /// The entity ids the text refers to.
    spec fn ids_spec(&self) -> Seq<u128>;

    /// The parameters the text needs.
    spec fn params_spec(&self) -> Map<Seq<char>, BoltType>;

    fn to_query_uuid_param(&self) -> (r: (Vec<Token>, Vec<u128>, Params))
        ensures
            pieces(r.0@) == self.text_spec(),
            r.1@ == self.ids_spec(),
            r.2@ == self.params_spec(),
    ;
}

/// Something a query refers to by an alias, identified by an id.
pub trait Aliasable: Paramable {
    /// The current alias.
    spec fn alias_spec(&self) -> Seq<char>;

    /// The identity.
    spec fn uuid_spec(&self) -> u128;

    /// The alias kept after `set_alias(alias)`.
    spec fn alias_after(&self, alias: Seq<char>) -> Seq<char>;

    fn get_alias(&self) -> (r: String)
        ensures
            r@ == self.alias_spec(),
    ;

    /// Whether `self` holds what `other` holds in everything but the alias.
    spec fn same_but_alias(&self, other: &Self) -> bool;

    fn set_alias(&mut self, alias: &str)
        ensures
            final(self).alias_spec() == old(self).alias_after(alias@),
            final(self).uuid_spec() == old(self).uuid_spec(),
            final(self).same_but_alias(&*old(self)),
    ;

    fn get_uuid(&self) -> (r: u128)
        ensures
            r == self.uuid_spec(),
    ;
}

/// A property value of an entity, rendered as a parameter name and value.
pub trait QueryParam {
    /// The property's key.
    spec fn key_spec(&self) -> Seq<char>;

    /// The property's value.
    spec fn value_spec(&self) -> BoltType;

    fn to_query_param(&self) -> (r: (&'static str, BoltType))
        ensures
            r.0@ == self.key_spec(),
            r.1 == self.value_spec(),
    ;
}

/// A node or relation type whose values can be written into patterns.
pub trait Neo4gEntity: Aliasable {
    type Props: QueryParam;

    /// Whether this is a node or a relation.
    spec fn entity_type_spec(&self) -> EntityType;

    /// The label (or relation type).
    spec fn label_spec(&self) -> Seq<char>;

    /// The current values of all of the entity's properties.
    spec fn own_props(&self) -> Seq<Self::Props>;

    /// The pattern that selects this entity under `alias` by `props`.
    spec fn pattern_text(&self, alias: Seq<char>, props: Seq<Self::Props>) -> Seq<char>;

    /// The parameters that pattern needs.
    spec fn pattern_params(&self, alias: Seq<char>, props: Seq<Self::Props>) -> Map<Seq<char>, BoltType>;

    /// The property that `get_current(prop)` gives.
    spec fn current_spec(&self, prop: Self::Props) -> Self::Props;

    /// Nothing the builder writes of an entity depends on its alias, other
    /// than where the alias is given.
    proof fn lemma_alias_free(a: &Self, b: &Self)
        requires
            a.same_but_alias(b),
        ensures
            a.entity_type_spec() == b.entity_type_spec(),
            a.label_spec() == b.label_spec(),
            a.own_props() == b.own_props(),
            forall|alias: Seq<char>, props: Seq<Self::Props>|
                #![trigger a.pattern_text(alias, props)]
                #![trigger b.pattern_text(alias, props)]
                a.pattern_text(alias, props) == b.pattern_text(alias, props)
                    && a.pattern_params(alias, props) == b.pattern_params(alias, props),
            forall|p: Self::Props| #[trigger] a.current_spec(p) == b.current_spec(p),
    ;

    fn get_entity_type(&self) -> (r: EntityType)
        ensures
            r == self.entity_type_spec(),
    ;

    fn get_label(&self) -> (r: String)
        ensures
            r@ == self.label_spec(),
    ;

    fn entity_by(&self, alias: &str, props: &[Self::Props]) -> (r: (String, Params))
        ensures
            r.0@ == self.pattern_text(alias@, props@),
            r.1@ == self.pattern_params(alias@, props@),
    ;

    fn create_from_self(&self) -> (r: (String, Params))
        ensures
            r.0@ == self.pattern_text(self.alias_spec(), self.own_props()),
            r.1@ == self.pattern_params(self.alias_spec(), self.own_props()),
    ;

    fn get_current(&self, prop: &Self::Props) -> (r: Self::Props)
        ensures
            r == self.current_spec(*prop),
    ;
}

/// An enum over the application's entity types, as the query results are
/// unpacked into.
pub trait WrappedNeo4gEntity: Aliasable + Sized {
    /// Whether the wrapped entity is a node or a relation.
    spec fn wrapped_type_spec(&self) -> EntityType;

    fn from_db_entity(db_entity: DbEntityWrapper) -> Self;

    fn get_entity_type(&self) -> (r: EntityType)
        ensures
            r == self.wrapped_type_spec(),
    ;
}

/// A label that can be attached to a node.
pub trait Neo4gLabel {
    /// The label's text.
    spec fn label_text(&self) -> Seq<char>;

    fn to_string(&self) -> (r: String)
        ensures
            r@ == self.label_text(),
    ;
}

/// Reads the text inside a Bolt value for use in a comparison.
pub trait BoltTypeInComparison {
    fn inside(&self) -> String;
}

/// Calls `Display` on the `BoltString` inside a `BoltType::String`, which
/// writes the string's text; any other kind of value gives `None`. So a
/// string value made from a text gives that text back, and a text comes back
/// only from such a value.
#[verifier::external_body]
fn bolt_inside(b: &BoltType) -> (r: Option<String>)
    ensures
        forall|s: Seq<char>| *b == bolt_string(s) ==> r is Some && r.unwrap()@ == s,
        r is Some ==> *b == bolt_string(r.unwrap()@),
{
    match b {
        BoltType::String(v) => Some(format!("{}", v)),
        _ => None,
    }
}

impl BoltTypeInComparison for BoltType {
    /// The text of a string value; `not implemented` for any other kind of
    /// value.
    fn inside(&self) -> (r: String)
        ensures
            forall|s: Seq<char>| *self == bolt_string(s) ==> r@ == s,
            (forall|s: Seq<char>| *self != bolt_string(s)) ==> r@ == "not implemented"@,
    {
        match bolt_inside(self) {
            Some(t) => t,
            Option::None => String::from_str("not implemented"),
        }
    }
}

/// Calls `Display` on a `BoltString`, which writes the text it holds; the
/// contract names that text.
#[verifier::external_body]
fn bolt_string_display(b: &BoltString) -> (r: String)
    ensures
        r@ == bolt_string_text(*b),
{
    format!("{}", b)
}

impl BoltTypeInComparison for BoltString {
    /// The text the Bolt string holds.
    fn inside(&self) -> (r: String)
        ensures
            r@ == bolt_string_text(*self),
    {
        bolt_string_display(self)
    }
}

/// A property type that entity structs may hold.
pub trait Prop {}

pub trait CanMatch {}
pub trait CanCreate {}
pub trait CanNode {}
pub trait PossibleStatementEnd {}
pub trait CanWith {}
pub trait PossibleQueryEnd {}
pub trait CanAddReturn {}
pub trait CanDelete {}
pub trait CanWhere {}
pub trait CanSetWith {}

#[derive(Debug, Clone)]
pub struct Empty;

#[derive(Debug, Clone)]
pub struct Statement;

#[derive(Debug, Clone)]
pub struct CreatedNode;

#[derive(Debug, Clone)]
pub struct MatchedNode;

#[derive(Debug, Clone)]
pub struct CreatedRelation;

#[derive(Debug, Clone)]
pub struct MatchedRelation;

#[derive(Debug, Clone)]
pub struct ReturnSet;

#[derive(Debug, Clone)]
pub struct Called;

#[derive(Debug, Clone)]
pub struct DeletedEntity;

#[derive(Debug, Clone)]
pub struct Withed;

#[derive(Debug, Clone)]
pub struct WithCondition;

#[derive(Debug, Clone)]
pub struct WithConditioned;

impl CanMatch for Empty {}
impl CanCreate for Empty {}
impl CanDelete for MatchedNode {}
impl CanMatch for WithCondition {}
impl CanCreate for WithCondition {}
impl CanDelete for WithCondition {}
impl CanMatch for WithConditioned {}
impl CanCreate for WithConditioned {}
impl CanDelete for WithConditioned {}
impl CanSetWith for WithCondition {}
impl CanSetWith for Withed {}
impl CanWhere for Withed {}
impl CanWith for MatchedNode {}
impl CanWith for CreatedNode {}
impl CanWith for ReturnSet {}
impl CanWith for Called {}
impl CanMatch for Called {}
impl CanCreate for Called {}
impl PossibleQueryEnd for Called {}
impl CanWith for Empty {}
impl PossibleStatementEnd for MatchedNode {}
impl PossibleStatementEnd for CreatedNode {}
impl PossibleStatementEnd for ReturnSet {}
impl PossibleStatementEnd for Condition {}
impl PossibleStatementEnd for DeletedEntity {}
impl PossibleQueryEnd for DeletedEntity {}
impl PossibleQueryEnd for MatchedNode {}
impl PossibleQueryEnd for CreatedNode {}
impl PossibleQueryEnd for Withed {}
impl CanMatch for MatchedNode {}
impl CanCreate for MatchedNode {}
impl CanNode for CreatedRelation {}
impl CanNode for Empty {}
impl CanNode for MatchedRelation {}
impl CanAddReturn for CreatedNode {}
impl CanAddReturn for MatchedNode {}
impl CanAddReturn for CreatedRelation {}
impl CanAddReturn for MatchedRelation {}

pub trait CanCondition {}
pub trait CanJoin {}
pub trait CanBuild {}

#[derive(Debug, Clone)]
pub struct Condition;

#[derive(Debug, Clone)]
pub struct Joined;

impl CanCondition for Empty {}
impl CanJoin for Condition {}
impl CanBuild for Condition {}
impl CanCondition for Joined {}

} // verus!
