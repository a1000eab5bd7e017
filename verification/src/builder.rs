//! The typed query builder: a builder that strings statements together, and
//! the CREATE, MERGE and MATCH statements it opens. The marker type on each
//! builder decides which calls may follow.
use vstd::prelude::*;
use vstd::string::*;
use std::marker::PhantomData;
use neo4rs::BoltType;
use crate::collections::Params;
use crate::arrays::{Array, Unwinder};
use crate::functions::{FunctionCall, function_view};
use crate::external::bolt_list;
use crate::collections::resolve;
use crate::filter::{Where, WhereView};
use crate::state::{
    Core, CoreView, alias_assigned, chosen_alias, empty_core, entity_written, fresh_alias,
    inherited_core, insert_ref, ref_aliases, set_assignments, set_params, set_text, started,
    absorbed, append_query, dedup_refs, ends_with, ref_view, entity_begun, labels_applied,
};
use crate::types::OnString;
use crate::text::{decimal, join, join_text, replace_all, replace_text, string_views, text_eq, u32_text};
use crate::external::to_lowercase_text;
use crate::traits::{
    Aliasable, Called, CanAddReturn, CanCreate, CanMatch, CanNode, CanSetWith, CanWith, Condition,
    PossibleQueryEnd, WithCondition, WithConditioned, Withed, CreatedNode, CreatedRelation,
    DeletedEntity, Empty, MatchedNode, MatchedRelation, Neo4gEntity, Neo4gLabel, PossibleStatementEnd,
    QueryParam, WrappedNeo4gEntity,
};
use crate::types::{Clause, EntityType, Order};

verus! {

/// The mathematical form of a builder: the shared state and the ORDER BY
/// text kept for the end of the query.
#[verifier::ext_equal]
pub struct BuilderView {
    pub core: CoreView,
    pub order_by: Seq<char>,
}

/// Builds a Cypher query statement by statement.
#[derive(Debug)]
pub struct Neo4gBuilder<State> {
    core: Core,
    order_by_str: String,
    _state: PhantomData<State>,
}

impl<S> Clone for Neo4gBuilder<S> {
    fn clone(&self) -> (r: Self)
        ensures
            r@ == self@,
    {
        Neo4gBuilder { core: self.core.clone(), order_by_str: self.order_by_str.clone(), _state: PhantomData }
    }
}

impl<S> View for Neo4gBuilder<S> {
    type V = BuilderView;

    closed spec fn view(&self) -> BuilderView {
        BuilderView { core: self.core@, order_by: self.order_by_str@ }
    }
}

/// A builder with the given state and no ORDER BY text.
pub open spec fn plain_builder(c: CoreView) -> BuilderView {
    BuilderView { core: c, order_by: Seq::empty() }
}

/// The CREATE statement being written.
#[derive(Debug)]
pub struct Neo4gCreateStatement<State> {
    core: Core,
    _state: PhantomData<State>,
}

impl<S> Clone for Neo4gCreateStatement<S> {
    fn clone(&self) -> (r: Self)
        ensures
            r@ == self@,
    {
        Neo4gCreateStatement { core: self.core.clone(), _state: PhantomData }
    }
}

impl<S> View for Neo4gCreateStatement<S> {
    type V = CoreView;

    closed spec fn view(&self) -> CoreView {
        self.core@
    }
}

/// The alias an entity is written under as the `n`th of its kind.
pub open spec fn entity_alias<T: Neo4gEntity>(c: CoreView, e: T, n: u32) -> Seq<char> {
    chosen_alias(c, e.uuid_spec(), fresh_alias(e.label_spec(), n))
}

/// CREATE's node: the entity, written as the next node with all of its own
/// properties, becomes the entity `add_to_return` refers to.
pub open spec fn create_node_view<T: Neo4gEntity>(c: CoreView, before: T, after: T) -> CoreView {
    let n = (c.node_number + 1) as u32;
    let alias = entity_alias(c, before, n);
    entity_written(
        CoreView { node_number: n, ..c },
        before.uuid_spec(),
        alias,
        (alias, EntityType::Node),
        after.pattern_text(after.alias_spec(), after.own_props()),
        after.pattern_params(after.alias_spec(), after.own_props()),
    )
}

/// CREATE's relation: as for a node, numbered among the relations.
pub open spec fn create_relation_view<T: Neo4gEntity>(c: CoreView, before: T, after: T) -> CoreView {
    let n = (c.relation_number + 1) as u32;
    let alias = entity_alias(c, before, n);
    entity_written(
        CoreView { relation_number: n, ..c },
        before.uuid_spec(),
        alias,
        (alias, EntityType::Relation),
        after.pattern_text(after.alias_spec(), after.own_props()),
        after.pattern_params(after.alias_spec(), after.own_props()),
    )
}

/// `c` with the entity just written added to the returns.
pub open spec fn with_previous_returned(c: CoreView) -> CoreView {
    match c.previous_entity {
        Some(p) => CoreView { return_refs: insert_ref(c.return_refs, p), ..c },
        Option::None => c,
    }
}

/// `c` with the placeholders left for additional labels removed.
pub open spec fn placeholders_dropped(c: CoreView) -> CoreView {
    CoreView { query: replace_all(c.query, ":AdditionalLabels"@, Seq::empty()), ..c }
}

impl<S> Neo4gBuilder<S> {
    fn transition<N>(self) -> (r: Neo4gBuilder<N>)
        ensures
            r@ == self@,
    {
        Neo4gBuilder { core: self.core, order_by_str: self.order_by_str, _state: PhantomData }
    }

    fn from_core(core: Core) -> (r: Neo4gBuilder<S>)
        ensures
            r@ == plain_builder(core@),
    {
        Neo4gBuilder { core, order_by_str: String::new(), _state: PhantomData }
    }
}

impl Neo4gBuilder<Empty> {
    /// Creates a new query builder.
    pub fn new() -> (r: Self)
        ensures
            r@ == plain_builder(empty_core()),
    {
        Neo4gBuilder::from_core(Core::new())
    }

    /// An empty builder that continues the aliases and numbering of `parent`.
    fn new_with_parent<P>(parent: &Neo4gBuilder<P>) -> (r: Self)
        ensures
            r@ == plain_builder(inherited_core(parent@.core)),
    {
        Neo4gBuilder::from_core(Core::with_parent(&parent.core))
    }
}

impl<Q: CanCreate> Neo4gBuilder<Q> {
    /// Starts a CREATE statement.
    pub fn create(self) -> (r: Neo4gCreateStatement<Empty>)
        ensures
            r@ == started(self@.core, Clause::Create, "CREATE "@),
    {
        let mut core = self.core;
        core.start_statement(Clause::Create, "CREATE ");
        Neo4gCreateStatement { core, _state: PhantomData }
    }

    /// Starts a MERGE statement.
    pub fn merge(self) -> (r: Neo4gMergeStatement<Empty>)
        ensures
            r@ == fresh_merge(started(self@.core, Clause::Merge, "MERGE "@)),
    {
        let mut core = self.core;
        core.start_statement(Clause::Merge, "MERGE ");
        Neo4gMergeStatement::from_core(core)
    }
}

impl<Q: CanMatch> Neo4gBuilder<Q> {
    /// Starts a MATCH statement.
    pub fn get(self) -> (r: Neo4gMatchStatement<Empty>)
        ensures
            r@ == fresh_match(started(self@.core, Clause::Match, "MATCH "@)),
    {
        let mut core = self.core;
        core.start_statement(Clause::Match, "MATCH ");
        Neo4gMatchStatement::from_core(core)
    }

    /// Starts an OPTIONAL MATCH statement.
    pub fn optional_match(self) -> (r: Neo4gMatchStatement<Empty>)
        ensures
            r@ == fresh_match(started(self@.core, Clause::Match, "OPTIONAL MATCH "@)),
    {
        let mut core = self.core;
        core.start_statement(Clause::Match, "OPTIONAL MATCH ");
        Neo4gMatchStatement::from_core(core)
    }
}

impl<S> Neo4gCreateStatement<S> {
    fn transition<N>(self) -> (r: Neo4gCreateStatement<N>)
        ensures
            r@ == self@,
    {
        Neo4gCreateStatement { core: self.core, _state: PhantomData }
    }
}

impl<Q: CanNode> Neo4gCreateStatement<Q> {
    /// Writes a node with all of the entity's properties, under a fresh alias
    /// (or, after a UNION, the alias the entity already has).
    pub fn node<T: Neo4gEntity>(self, entity: &mut T) -> (r: Neo4gCreateStatement<CreatedNode>)
        requires
            self@.node_number < u32::MAX,
        ensures
            alias_assigned(
                self@,
                *old(entity),
                *final(entity),
                fresh_alias(old(entity).label_spec(), (self@.node_number + 1) as u32),
            ),
            r@ == create_node_view(self@, *old(entity), *final(entity)),
    {
        let mut s = self;
        let n = s.core.next_node();
        let alias = s.core.assign_alias(entity, n);
        let id = entity.get_uuid();
        let (text, params) = entity.create_from_self();
        let previous = alias.clone();
        s.core.finish_entity(id, alias, (previous, EntityType::Node), text.as_str(), params);
        s.transition()
    }

    /// Refers to an entity already in the query by its alias: `(alias)`.
    pub fn node_ref<T: Neo4gEntity>(self, node_to_alias: &T) -> (r: Neo4gCreateStatement<CreatedNode>)
        ensures
            r@ == append_query(entity_begun(self@), "("@ + node_to_alias.alias_spec() + ")"@),
    {
        let mut s = self;
        let a = node_to_alias.get_alias();
        s.core.begin_entity();
        s.core.push_query("(");
        s.core.push_query(a.as_str());
        s.core.push_query(")");
        s.transition()
    }
}

impl Neo4gCreateStatement<CreatedNode> {
    /// Writes a relation with all of the entity's properties, under a fresh
    /// alias (or, after a UNION, the alias the entity already has).
    pub fn relation<T: Neo4gEntity>(self, entity: &mut T) -> (r: Neo4gCreateStatement<CreatedRelation>)
        requires
            self@.relation_number < u32::MAX,
        ensures
            alias_assigned(
                self@,
                *old(entity),
                *final(entity),
                fresh_alias(old(entity).label_spec(), (self@.relation_number + 1) as u32),
            ),
            r@ == create_relation_view(self@, *old(entity), *final(entity)),
    {
        let mut s = self;
        let n = s.core.next_relation();
        let alias = s.core.assign_alias(entity, n);
        let id = entity.get_uuid();
        let (text, params) = entity.create_from_self();
        let previous = alias.clone();
        s.core.finish_entity(id, alias, (previous, EntityType::Relation), text.as_str(), params);
        s.transition()
    }

    /// Refers to a relation already in the query by its alias: `-[alias]->`.
    pub fn relation_ref<T: Neo4gEntity>(self, rel_to_alias: &T) -> (r: Neo4gCreateStatement<CreatedRelation>)
        ensures
            r@ == append_query(self@, "-["@ + rel_to_alias.alias_spec() + "]->"@),
    {
        let mut s = self;
        let a = rel_to_alias.get_alias();
        s.core.push_query("-[");
        s.core.push_query(a.as_str());
        s.core.push_query("]->");
        s.transition()
    }

    /// Puts the labels, separated by `:`, in place of the additional-labels
    /// placeholder of the node written just before; earlier placeholders are
    /// left for the end of the statement to remove.
    pub fn set_additional_labels<T: Neo4gLabel>(self, labels: &[T]) -> (r: Self)
        ensures
            r@ == labels_applied(self@, labels@.map_values(|l: T| l.label_text())),
    {
        let mut s = self;
        s.core.apply_labels(labels);
        s
    }
}

impl<Q: CanAddReturn> Neo4gCreateStatement<Q> {
    /// Adds the entity just written to what the query returns.
    pub fn add_to_return(self) -> (r: Self)
        ensures
            r@ == with_previous_returned(self@),
    {
        let mut s = self;
        s.core.add_previous_to_return();
        s
    }
}

impl<Q: PossibleStatementEnd> Neo4gCreateStatement<Q> {
    /// Ends the statement: removes the placeholders left for additional
    /// labels, so that a new statement can follow.
    pub fn end_statement(self) -> (r: Neo4gBuilder<CreatedNode>)
        ensures
            r@ == plain_builder(placeholders_dropped(self@)),
    {
        let mut core = self.core;
        core.drop_label_placeholders();
        Neo4gBuilder::from_core(core)
    }
}

/// The mathematical form of a MERGE statement: the shared state, the ON
/// CREATE and ON MATCH texts, and which of them the next SET extends.
#[verifier::ext_equal]
pub struct MergeView {
    pub core: CoreView,
    pub on_create: Seq<char>,
    pub on_match: Seq<char>,
    pub current_on: crate::types::OnString,
}

/// A MERGE statement just started on `c`.
pub open spec fn fresh_merge(c: CoreView) -> MergeView {
    MergeView {
        core: c,
        on_create: Seq::empty(),
        on_match: Seq::empty(),
        current_on: crate::types::OnString::Unset,
    }
}

/// The MERGE statement being written.
#[derive(Debug)]
pub struct Neo4gMergeStatement<State> {
    core: Core,
    on_create_str: String,
    on_match_str: String,
    current_on_str: crate::types::OnString,
    _state: PhantomData<State>,
}

impl<S> Clone for Neo4gMergeStatement<S> {
    fn clone(&self) -> (r: Self)
        ensures
            r@ == self@,
    {
        Neo4gMergeStatement {
            core: self.core.clone(),
            on_create_str: self.on_create_str.clone(),
            on_match_str: self.on_match_str.clone(),
            current_on_str: self.current_on_str,
            _state: PhantomData,
        }
    }
}

impl<S> View for Neo4gMergeStatement<S> {
    type V = MergeView;

    closed spec fn view(&self) -> MergeView {
        MergeView {
            core: self.core@,
            on_create: self.on_create_str@,
            on_match: self.on_match_str@,
            current_on: self.current_on_str,
        }
    }
}

impl<S> Neo4gMergeStatement<S> {
    fn from_core(core: Core) -> (r: Self)
        ensures
            r@ == fresh_merge(core@),
    {
        Neo4gMergeStatement {
            core,
            on_create_str: String::new(),
            on_match_str: String::new(),
            current_on_str: crate::types::OnString::Unset,
            _state: PhantomData,
        }
    }

    fn transition<N>(self) -> (r: Neo4gMergeStatement<N>)
        ensures
            r@ == self@,
    {
        Neo4gMergeStatement {
            core: self.core,
            on_create_str: self.on_create_str,
            on_match_str: self.on_match_str,
            current_on_str: self.current_on_str,
            _state: PhantomData,
        }
    }
}

/// The mathematical form of a MATCH statement: the shared state, the WHERE
/// text written so far, and the SET text kept for the statement's end.
#[verifier::ext_equal]
pub struct MatchView {
    pub core: CoreView,
    pub where_str: Seq<char>,
    pub set_str: Seq<char>,
}

/// A MATCH statement just started on `c`.
pub open spec fn fresh_match(c: CoreView) -> MatchView {
    MatchView { core: c, where_str: Seq::empty(), set_str: Seq::empty() }
}

/// The MATCH statement being written.
#[derive(Debug)]
pub struct Neo4gMatchStatement<State> {
    core: Core,
    where_str: String,
    set_str: String,
    _state: PhantomData<State>,
}

impl<S> Clone for Neo4gMatchStatement<S> {
    fn clone(&self) -> (r: Self)
        ensures
            r@ == self@,
    {
        Neo4gMatchStatement {
            core: self.core.clone(),
            where_str: self.where_str.clone(),
            set_str: self.set_str.clone(),
            _state: PhantomData,
        }
    }
}

impl<S> View for Neo4gMatchStatement<S> {
    type V = MatchView;

    closed spec fn view(&self) -> MatchView {
        MatchView { core: self.core@, where_str: self.where_str@, set_str: self.set_str@ }
    }
}

impl<S> Neo4gMatchStatement<S> {
    fn from_core(core: Core) -> (r: Self)
        ensures
            r@ == fresh_match(core@),
    {
        Neo4gMatchStatement { core, where_str: String::new(), set_str: String::new(), _state: PhantomData }
    }

    fn transition<N>(self) -> (r: Neo4gMatchStatement<N>)
        ensures
            r@ == self@,
    {
        Neo4gMatchStatement {
            core: self.core,
            where_str: self.where_str,
            set_str: self.set_str,
            _state: PhantomData,
        }
    }
}

/// The name a node pattern carries without properties: alias, label and
/// the placeholder for additional labels.
pub open spec fn node_name(alias: Seq<char>, label: Seq<char>) -> Seq<char> {
    alias + ":"@ + label + ":AdditionalLabels"@
}

/// The text of a node selected by `props`: the bare name in parentheses when
/// there are none.
pub open spec fn node_by_text<T: Neo4gEntity>(
    after: T,
    alias: Seq<char>,
    label: Seq<char>,
    props: Seq<T::Props>,
) -> Seq<char> {
    if props.len() == 0 {
        "("@ + node_name(alias, label) + ")"@
    } else {
        after.pattern_text(alias, props)
    }
}

/// The parameters of a node selected by `props`.
pub open spec fn node_by_params<T: Neo4gEntity>(after: T, alias: Seq<char>, props: Seq<T::Props>) -> Map<
    Seq<char>,
    BoltType,
> {
    if props.len() == 0 {
        Map::empty()
    } else {
        after.pattern_params(alias, props)
    }
}

/// MERGE's and MATCH's node: the entity, written as the next node selected
/// by `props`; `add_to_return` refers to it by its alias.
pub open spec fn node_by_view<T: Neo4gEntity>(c: CoreView, before: T, after: T, props: Seq<T::Props>) -> CoreView {
    let n = (c.node_number + 1) as u32;
    let alias = entity_alias(c, before, n);
    entity_written(
        CoreView { node_number: n, ..c },
        before.uuid_spec(),
        alias,
        (alias, EntityType::Node),
        node_by_text(after, alias, before.label_spec(), props),
        node_by_params(after, alias, props),
    )
}

/// A relation pattern with the minimum number of hops put in place.
pub open spec fn with_hops(text: Seq<char>, min_hops: u32) -> Seq<char> {
    replace_all(text, "min_hops"@, decimal(min_hops as nat))
}

/// A relation pattern with room for the number of hops before its
/// properties: `:TYPE {` becomes `:TYPE*min_hops.. {`.
pub open spec fn hop_pattern(text: Seq<char>, label: Seq<char>) -> Seq<char> {
    replace_all(text, ":"@ + label + " {"@, ":"@ + label + "*min_hops.. {"@)
}

/// A relation pattern with the variable-length part removed.
pub open spec fn single_hop(text: Seq<char>) -> Seq<char> {
    replace_all(text, "*min_hops.."@, Seq::empty())
}

/// A relation pattern with its arrow turned to point right to left.
pub open spec fn flipped(text: Seq<char>) -> Seq<char> {
    replace_all(replace_all(text, "-["@, "<-["@), "]->"@, "]-"@)
}

/// A relation written as the `n`th relation, selected by `props`, with its
/// pattern text passed through `shape`; `add_to_return` then refers to it
/// by `previous`.
pub open spec fn relation_by_view<T: Neo4gEntity>(
    c: CoreView,
    before: T,
    after: T,
    n: u32,
    previous: Seq<char>,
    text: Seq<char>,
    params: Map<Seq<char>, BoltType>,
) -> CoreView {
    entity_written(
        CoreView { relation_number: n, ..c },
        before.uuid_spec(),
        entity_alias(c, before, n),
        (previous, EntityType::Relation),
        text,
        params,
    )
}

/// The alias `nodes_by_unwound` writes the entity under: the one it has, or
/// a fresh one when it has none.
pub open spec fn unwound_node_alias<T: Neo4gEntity>(c: CoreView, before: T) -> Seq<char> {
    if before.alias_spec().len() == 0 {
        fresh_alias(before.label_spec(), (c.node_number + 1) as u32)
    } else {
        before.alias_spec()
    }
}

/// The aliases after `nodes_by_unwound`: a fresh alias is recorded.
pub open spec fn unwound_node_aliases<T: Neo4gEntity>(c: CoreView, before: T) -> Map<u128, Seq<char>> {
    if before.alias_spec().len() == 0 {
        c.aliases.insert(before.uuid_spec(), unwound_node_alias(c, before))
    } else {
        c.aliases
    }
}

/// The name the unwound value goes by: the unwinder's alias, or the one
/// recorded for it.
pub open spec fn unwound_value<T: Neo4gEntity>(c: CoreView, before: T, u_alias: Seq<char>, u_id: u128) -> Seq<char> {
    if u_alias.len() == 0 {
        unwound_node_aliases(c, before)[u_id]
    } else {
        u_alias
    }
}

/// `nodes_by_unwound`: `(alias:Label:AdditionalLabels {key: value})`, with the
/// unwound value for the property `key`; `add_to_return` refers to the node
/// by its alias.
pub open spec fn unwound_node_view<T: Neo4gEntity>(
    c: CoreView,
    before: T,
    key: Seq<char>,
    u_alias: Seq<char>,
    u_id: u128,
) -> CoreView {
    let alias = unwound_node_alias(c, before);
    CoreView {
        query: c.query + "("@ + node_name(alias, before.label_spec()) + " {"@ + key + ": "@ + unwound_value(
            c,
            before,
            u_alias,
            u_id,
        ) + "})"@,
        aliases: unwound_node_aliases(c, before),
        previous_entity: Some((alias, EntityType::Node)),
        node_number: (c.node_number + 1) as u32,
        label_start: c.query.len(),
        ..c
    }
}

/// How `nodes_by_unwound` changes the entity: given a fresh alias when it has
/// none, unchanged otherwise.
pub open spec fn unwound_entity_changed<T: Neo4gEntity>(c: CoreView, before: T, after: T) -> bool {
    if before.alias_spec().len() == 0 {
        &&& after.alias_spec() == before.alias_after(unwound_node_alias(c, before))
        &&& after.uuid_spec() == before.uuid_spec()
        &&& after.same_but_alias(&before)
    } else {
        after == before
    }
}

/// `c` after one more SET of `props`: counted, and its parameters added.
pub open spec fn set_counted<P: QueryParam>(c: CoreView, props: Seq<P>) -> CoreView {
    let n = (c.set_number + 1) as u32;
    CoreView { set_number: n, params: c.params.union_prefer_right(set_params(props, n)), ..c }
}

/// The ON CREATE or ON MATCH text after a SET: the first SET opens with
/// `SET `, later ones continue after a comma.
pub open spec fn on_text_after_set(on: Seq<char>, head: Seq<char>, text: Seq<char>) -> Seq<char> {
    if on == head {
        on + "\nSET "@ + text
    } else {
        on + ", "@ + text
    }
}

/// MERGE's SET: the assignments join the ON CREATE or ON MATCH text chosen
/// last; with neither chosen only the parameters are kept.
pub open spec fn merge_set_view<P: QueryParam>(m: MergeView, alias: Seq<char>, props: Seq<P>) -> MergeView {
    let text = set_assignments(alias, props, (m.core.set_number + 1) as u32);
    let core = set_counted(m.core, props);
    match m.current_on {
        OnString::Create => MergeView {
            core,
            on_create: on_text_after_set(m.on_create, "\nON CREATE"@, text),
            ..m
        },
        OnString::Match => MergeView {
            core,
            on_match: on_text_after_set(m.on_match, "\nON MATCH"@, text),
            ..m
        },
        OnString::Unset => MergeView { core, ..m },
    }
}

/// MATCH's SET: the assignments join the SET text kept for the statement's
/// end.
pub open spec fn match_set_view<P: QueryParam>(m: MatchView, alias: Seq<char>, props: Seq<P>) -> MatchView {
    let text = set_assignments(alias, props, (m.core.set_number + 1) as u32);
    MatchView {
        core: set_counted(m.core, props),
        set_str: if m.set_str.len() == 0 {
            "\nSET "@ + text
        } else {
            m.set_str + ", "@ + text
        },
        ..m
    }
}

/// MATCH's filter: the first opens the WHERE clause, later ones continue it;
/// references in the condition become aliases.
pub open spec fn match_filter_view(m: MatchView, w: WhereView) -> MatchView {
    let part = resolve(w.text, m.core.aliases);
    let added = if m.where_str.len() == 0 {
        "\nWHERE "@ + part
    } else {
        part
    };
    MatchView {
        core: CoreView {
            query: m.core.query + added,
            params: m.core.params.union_prefer_right(w.params),
            ..m.core
        },
        where_str: m.where_str + added,
        ..m
    }
}

/// The names DELETE lists: each entity's alias, or the alias recorded for it
/// when it has none.
pub open spec fn delete_names<T: WrappedNeo4gEntity>(c: CoreView, es: Seq<T>) -> Seq<Seq<char>> {
    es.map_values(
        |e: T|
            if e.alias_spec().len() == 0 {
                c.aliases[e.uuid_spec()]
            } else {
                e.alias_spec()
            },
    )
}

/// Whether DELETE can name each entity.
pub open spec fn deletable<T: WrappedNeo4gEntity>(c: CoreView, es: Seq<T>) -> bool {
    forall|i: int|
        0 <= i < es.len() ==> (#[trigger] es[i]).alias_spec().len() == 0 ==> c.aliases.contains_key(
            es[i].uuid_spec(),
        )
}

/// The end of a MATCH statement: the SET text, then, when there is a SET and
/// something to return, a WITH of the returns; the placeholders for
/// additional labels removed.
pub open spec fn match_end_view(m: MatchView) -> CoreView {
    let tail = if m.set_str.len() == 0 {
        Seq::empty()
    } else if m.core.return_refs.len() == 0 {
        m.set_str
    } else {
        m.set_str + "\nWITH "@ + join(ref_aliases(m.core.return_refs), ", "@)
    };
    placeholders_dropped(append_query(m.core, tail))
}

/// Writes the node of `nodes_by_unwound` for MERGE and MATCH alike.
fn write_unwound_node<T: Neo4gEntity>(core: &mut Core, entity: &mut T, key: &str, unwound: &Unwinder)
    requires
        old(core)@.node_number < u32::MAX,
        unwound.alias_spec().len() == 0 ==> unwound_node_aliases(old(core)@, *old(entity)).contains_key(
            unwound.uuid_spec(),
        ),
    ensures
        unwound_entity_changed(old(core)@, *old(entity), *final(entity)),
        final(core)@ == unwound_node_view(
            old(core)@,
            *old(entity),
            key@,
            unwound.alias_spec(),
            unwound.uuid_spec(),
        ),
{
    let n = core.next_node();
    core.begin_entity();
    let label = entity.get_label();
    let mut alias = entity.get_alias();
    if alias.as_str().unicode_len() == 0 {
        alias = to_lowercase_text(label.as_str());
        let number = u32_text(n);
        alias.append(number.as_str());
        entity.set_alias(alias.as_str());
        let id = entity.get_uuid();
        core.record_alias(id, alias.clone());
    }
    core.set_previous(alias.clone(), EntityType::Node);
    let mut name = alias;
    name.append(":");
    name.append(label.as_str());
    name.append(":AdditionalLabels");
    let mut value = unwound.get_alias();
    if value.as_str().unicode_len() == 0 {
        match core.lookup_alias(unwound.get_uuid()) {
            Some(a) => {
                value = a;
            },
            Option::None => {
                proof {
                    assert(false);
                }
            },
        }
    }
    let mut text = String::from_str("(");
    text.append(name.as_str());
    text.append(" {");
    text.append(key);
    text.append(": ");
    text.append(value.as_str());
    text.append("})");
    core.push_query(text.as_str());
}

impl<Q: CanNode> Neo4gMergeStatement<Q> {
    /// Writes a node selected by the properties the closure picks, under a
    /// fresh alias (or, after a UNION, the alias the entity already has).
    pub fn node<T, F>(self, entity: &mut T, props_macro: F) -> (r: Neo4gMergeStatement<CreatedNode>)
        where T: Neo4gEntity, F: FnOnce(&T) -> Vec<T::Props>
        requires
            self@.core.node_number < u32::MAX,
            call_requires(props_macro, (&*old(entity),)),
        ensures
            alias_assigned(
                self@.core,
                *old(entity),
                *final(entity),
                fresh_alias(old(entity).label_spec(), (self@.core.node_number + 1) as u32),
            ),
            exists|props: Vec<T::Props>|
                #[trigger] call_ensures(props_macro, (&*old(entity),), props) && r@ == (MergeView {
                    core: node_by_view(self@.core, *old(entity), *final(entity), props@),
                    ..self@
                }),
    {
        let mut s = self;
        let n = s.core.next_node();
        let props = props_macro(&*entity);
        let label = entity.get_label();
        let alias = s.core.assign_alias(entity, n);
        let id = entity.get_uuid();
        let previous = alias.clone();
        let mut name = alias.clone();
        name.append(":");
        name.append(label.as_str());
        name.append(":AdditionalLabels");
        if props.len() == 0 {
            let mut text = String::from_str("(");
            text.append(name.as_str());
            text.append(")");
            s.core.finish_entity(id, alias, (previous, EntityType::Node), text.as_str(), Params::new());
        } else {
            let (text, params) = entity.entity_by(alias.as_str(), props.as_slice());
            s.core.finish_entity(id, alias, (previous, EntityType::Node), text.as_str(), params);
        }
        s.transition()
    }

    /// Writes a node whose property `key` is matched against the unwound
    /// value: `(alias:Label:AdditionalLabels {key: value})`. An entity with no alias
    /// gets a fresh one.
    pub fn nodes_by_unwound<T, F>(self, entity: &mut T, prop_macro: F, unwound: &Unwinder) -> (r:
        Neo4gMergeStatement<CreatedNode>)
        where T: Neo4gEntity, F: FnOnce(&T) -> T::Props
        requires
            self@.core.node_number < u32::MAX,
            call_requires(prop_macro, (&*old(entity),)),
            unwound.alias_spec().len() == 0 ==> unwound_node_aliases(
                self@.core,
                *old(entity),
            ).contains_key(unwound.uuid_spec()),
        ensures
            unwound_entity_changed(self@.core, *old(entity), *final(entity)),
            exists|prop: T::Props|
                #[trigger] call_ensures(prop_macro, (&*old(entity),), prop) && r@ == (MergeView {
                    core: unwound_node_view(
                        self@.core,
                        *old(entity),
                        prop.key_spec(),
                        unwound.alias_spec(),
                        unwound.uuid_spec(),
                    ),
                    ..self@
                }),
    {
        let mut s = self;
        let prop = prop_macro(&*entity);
        let (key, _) = prop.to_query_param();
        write_unwound_node(&mut s.core, entity, key, unwound);
        s.transition()
    }

    /// Refers to an entity already in the query by its alias: `(alias)`.
    pub fn node_ref<T: Neo4gEntity>(self, node_to_alias: &T) -> (r: Neo4gMergeStatement<CreatedNode>)
        ensures
            r@ == (MergeView {
                core: append_query(entity_begun(self@.core), "("@ + node_to_alias.alias_spec() + ")"@),
                ..self@
            }),
    {
        let mut s = self;
        let a = node_to_alias.get_alias();
        s.core.begin_entity();
        s.core.push_query("(");
        s.core.push_query(a.as_str());
        s.core.push_query(")");
        s.transition()
    }
}

/// MERGE's and MATCH's `relations`: the `n`th relation selected by `props`,
/// with the minimum number of hops put in place, before the properties
/// where there are any. MATCH refers to it by the
/// fresh alias even where the entity kept an earlier one.
pub open spec fn relations_view<T: Neo4gEntity>(
    c: CoreView,
    before: T,
    after: T,
    props: Seq<T::Props>,
    min_hops: u32,
    fresh_previous: bool,
) -> CoreView {
    let n = (c.relation_number + 1) as u32;
    let alias = entity_alias(c, before, n);
    relation_by_view(
        c,
        before,
        after,
        n,
        if fresh_previous { fresh_alias(before.label_spec(), n) } else { alias },
        with_hops(hop_pattern(after.pattern_text(alias, props), before.label_spec()), min_hops),
        after.pattern_params(alias, props),
    )
}

/// MERGE's and MATCH's `relation`: the next relation selected by `props`,
/// one hop long.
pub open spec fn relation_view<T: Neo4gEntity>(c: CoreView, before: T, after: T, props: Seq<T::Props>) -> CoreView {
    let n = (c.relation_number + 1) as u32;
    let alias = entity_alias(c, before, n);
    relation_by_view(
        c,
        before,
        after,
        n,
        alias,
        single_hop(after.pattern_text(alias, props)),
        after.pattern_params(alias, props),
    )
}

/// MERGE's and MATCH's `relation_flipped`: the next relation selected by
/// `props`, one hop long, pointing right to left.
pub open spec fn flipped_view<T: Neo4gEntity>(c: CoreView, before: T, after: T, props: Seq<T::Props>) -> CoreView {
    let n = (c.relation_number + 1) as u32;
    let alias = entity_alias(c, before, n);
    relation_by_view(
        c,
        before,
        after,
        n,
        alias,
        flipped(single_hop(after.pattern_text(alias, props))),
        after.pattern_params(alias, props),
    )
}

/// MERGE's end: the placeholders for additional labels removed, then the ON
/// CREATE and ON MATCH texts.
pub open spec fn merge_end_view(m: MergeView) -> CoreView {
    append_query(placeholders_dropped(m.core), m.on_create + m.on_match)
}

impl Neo4gMergeStatement<CreatedNode> {
    /// Writes a relation selected by the properties the closure picks, with
    /// `min_hops` as the minimum number of hops.
    pub fn relations<T, F>(self, min_hops: u32, entity: &mut T, props_macro: F) -> (r:
        Neo4gMergeStatement<CreatedRelation>)
        where T: Neo4gEntity, F: FnOnce(&T) -> Vec<T::Props>
        requires
            self@.core.relation_number < u32::MAX,
            call_requires(props_macro, (&*old(entity),)),
        ensures
            alias_assigned(
                self@.core,
                *old(entity),
                *final(entity),
                fresh_alias(old(entity).label_spec(), (self@.core.relation_number + 1) as u32),
            ),
            exists|props: Vec<T::Props>|
                #[trigger] call_ensures(props_macro, (&*old(entity),), props) && r@ == (MergeView {
                    core: relations_view(self@.core, *old(entity), *final(entity), props@, min_hops, false),
                    ..self@
                }),
    {
        let mut s = self;
        let n = s.core.next_relation();
        let props = props_macro(&*entity);
        let (alias, id, text, params) = write_hops(&s.core, entity, n, props, min_hops);
        let previous = alias.clone();
        s.core.finish_entity(id, alias, (previous, EntityType::Relation), text.as_str(), params);
        s.transition()
    }

    /// Writes a relation selected by the properties the closure picks.
    pub fn relation<T, F>(self, entity: &mut T, props_macro: F) -> (r: Neo4gMergeStatement<CreatedRelation>)
        where T: Neo4gEntity, F: FnOnce(&T) -> Vec<T::Props>
        requires
            self@.core.relation_number < u32::MAX,
            call_requires(props_macro, (&*old(entity),)),
        ensures
            alias_assigned(
                self@.core,
                *old(entity),
                *final(entity),
                fresh_alias(old(entity).label_spec(), (self@.core.relation_number + 1) as u32),
            ),
            exists|props: Vec<T::Props>|
                #[trigger] call_ensures(props_macro, (&*old(entity),), props) && r@ == (MergeView {
                    core: relation_view(self@.core, *old(entity), *final(entity), props@),
                    ..self@
                }),
    {
        let mut s = self;
        let n = s.core.next_relation();
        let props = props_macro(&*entity);
        let (alias, id, text, params) = write_single_hop(&s.core, entity, n, props);
        let previous = alias.clone();
        s.core.finish_entity(id, alias, (previous, EntityType::Relation), text.as_str(), params);
        s.transition()
    }

    /// Writes a relation selected by the properties the closure picks,
    /// pointing right to left.
    pub fn relation_flipped<T, F>(self, entity: &mut T, props_macro: F) -> (r:
        Neo4gMergeStatement<CreatedRelation>)
        where T: Neo4gEntity, F: FnOnce(&T) -> Vec<T::Props>
        requires
            self@.core.relation_number < u32::MAX,
            call_requires(props_macro, (&*old(entity),)),
        ensures
            alias_assigned(
                self@.core,
                *old(entity),
                *final(entity),
                fresh_alias(old(entity).label_spec(), (self@.core.relation_number + 1) as u32),
            ),
            exists|props: Vec<T::Props>|
                #[trigger] call_ensures(props_macro, (&*old(entity),), props) && r@ == (MergeView {
                    core: flipped_view(self@.core, *old(entity), *final(entity), props@),
                    ..self@
                }),
    {
        let mut s = self;
        let n = s.core.next_relation();
        let props = props_macro(&*entity);
        let (alias, id, text, params) = write_single_hop(&s.core, entity, n, props);
        let text = flip_arrow(text.as_str());
        let previous = alias.clone();
        s.core.finish_entity(id, alias, (previous, EntityType::Relation), text.as_str(), params);
        s.transition()
    }

    /// Writes an undirected, unnamed relation: `--`.
    pub fn relation_undirected(self) -> (r: Neo4gMergeStatement<CreatedRelation>)
        ensures
            r@ == (MergeView { core: append_query(self@.core, "--"@), ..self@ }),
    {
        let mut s = self;
        s.core.push_query("--");
        s.transition()
    }

    /// Refers to a relation already in the query by its alias: `-[alias]->`.
    pub fn relation_ref<T: Neo4gEntity>(self, rel_to_alias: &T) -> (r: Neo4gMergeStatement<CreatedRelation>)
        ensures
            r@ == (MergeView { core: append_query(self@.core, "-["@ + rel_to_alias.alias_spec() + "]->"@), ..self@ }),
    {
        let mut s = self;
        let a = rel_to_alias.get_alias();
        s.core.push_query("-[");
        s.core.push_query(a.as_str());
        s.core.push_query("]->");
        s.transition()
    }

    /// Puts the labels, separated by `:`, in place of the additional-labels
    /// placeholder of the node written just before; earlier placeholders are
    /// left for the end of the statement to remove.
    pub fn set_additional_labels<T: Neo4gLabel>(self, labels: &[T]) -> (r: Self)
        ensures
            r@ == (MergeView {
                core: labels_applied(self@.core, labels@.map_values(|l: T| l.label_text())),
                ..self@
            }),
    {
        let mut s = self;
        s.core.apply_labels(labels);
        s
    }
}

impl<Q: CanAddReturn> Neo4gMergeStatement<Q> {
    /// Adds the entity just written to what the query returns.
    pub fn add_to_return(self) -> (r: Self)
        ensures
            r@ == (MergeView { core: with_previous_returned(self@.core), ..self@ }),
    {
        let mut s = self;
        s.core.add_previous_to_return();
        s
    }
}

impl<Q: PossibleStatementEnd> Neo4gMergeStatement<Q> {
    /// Makes the following SETs part of ON CREATE, opening it if needed.
    pub fn on_create(self) -> (r: Self)
        ensures
            r@ == (MergeView {
                current_on: OnString::Create,
                on_create: if self@.on_create.len() == 0 {
                    "\nON CREATE"@
                } else {
                    self@.on_create
                },
                ..self@
            }),
    {
        let mut s = self;
        s.current_on_str = OnString::Create;
        if s.on_create_str.as_str().unicode_len() == 0 {
            s.on_create_str.append("\nON CREATE");
        }
        s
    }

    /// Makes the following SETs part of ON MATCH, opening it if needed.
    pub fn on_match(self) -> (r: Self)
        ensures
            r@ == (MergeView {
                current_on: OnString::Match,
                on_match: if self@.on_match.len() == 0 {
                    "\nON MATCH"@
                } else {
                    self@.on_match
                },
                ..self@
            }),
    {
        let mut s = self;
        s.current_on_str = OnString::Match;
        if s.on_match_str.as_str().unicode_len() == 0 {
            s.on_match_str.append("\nON MATCH");
        }
        s
    }

    /// Sets the properties the closure picks on the entity:
    /// `alias.key = $setN_key`, with `N` the number of this SET.
    pub fn set<T, F>(self, entity: &T, props_macro: F) -> (r: Self)
        where T: Neo4gEntity, F: FnOnce(&T) -> Vec<T::Props>
        requires
            self@.core.set_number < u32::MAX,
            call_requires(props_macro, (entity,)),
        ensures
            exists|props: Vec<T::Props>|
                #[trigger] call_ensures(props_macro, (entity,), props) && r@ == merge_set_view(
                    self@,
                    entity.alias_spec(),
                    props@,
                ),
    {
        let mut s = self;
        let n = s.core.next_set();
        let props = props_macro(entity);
        let alias = entity.get_alias();
        let (text, params) = set_text(alias.as_str(), &props, n);
        s.core.add_params(params);
        match s.current_on_str {
            OnString::Create => {
                if text_eq(s.on_create_str.as_str(), "\nON CREATE") {
                    s.on_create_str.append("\nSET ");
                } else {
                    s.on_create_str.append(", ");
                }
                s.on_create_str.append(text.as_str());
            },
            OnString::Match => {
                if text_eq(s.on_match_str.as_str(), "\nON MATCH") {
                    s.on_match_str.append("\nSET ");
                } else {
                    s.on_match_str.append(", ");
                }
                s.on_match_str.append(text.as_str());
            },
            OnString::Unset => {},
        }
        s
    }

    /// Ends the statement: removes the placeholders left for additional
    /// labels and appends the ON CREATE and ON MATCH texts.
    pub fn end_statement(self) -> (r: Neo4gBuilder<CreatedNode>)
        ensures
            r@ == plain_builder(merge_end_view(self@)),
    {
        let mut core = self.core;
        core.drop_label_placeholders();
        core.push_query(self.on_create_str.as_str());
        core.push_query(self.on_match_str.as_str());
        Neo4gBuilder::from_core(core)
    }
}

/// Chooses the alias of a one-hop relation selected by `props` and renders
/// its pattern with the variable-length part removed.
fn write_single_hop<T: Neo4gEntity>(core: &Core, entity: &mut T, n: u32, props: Vec<T::Props>) -> (r: (
    String,
    u128,
    String,
    Params,
))
    ensures
        r.0@ == chosen_alias(core@, old(entity).uuid_spec(), fresh_alias(old(entity).label_spec(), n)),
        alias_assigned(core@, *old(entity), *final(entity), fresh_alias(old(entity).label_spec(), n)),
        r.1 == old(entity).uuid_spec(),
        r.2@ == single_hop(final(entity).pattern_text(r.0@, props@)),
        r.3@ == final(entity).pattern_params(r.0@, props@),
{
    let alias = core.assign_alias(entity, n);
    let id = entity.get_uuid();
    let (text, params) = entity.entity_by(alias.as_str(), props.as_slice());
    proof {
        reveal_strlit("*min_hops..");
    }
    let empty = String::new();
    let text = replace_text(text.as_str(), "*min_hops..", empty.as_str());
    (alias, id, text, params)
}

/// Chooses the alias of a relation selected by `props` and renders its
/// pattern with `min_hops` as the minimum number of hops.
fn write_hops<T: Neo4gEntity>(core: &Core, entity: &mut T, n: u32, props: Vec<T::Props>, min_hops: u32) -> (r: (
    String,
    u128,
    String,
    Params,
))
    ensures
        r.0@ == chosen_alias(core@, old(entity).uuid_spec(), fresh_alias(old(entity).label_spec(), n)),
        alias_assigned(core@, *old(entity), *final(entity), fresh_alias(old(entity).label_spec(), n)),
        r.1 == old(entity).uuid_spec(),
        r.2@ == with_hops(hop_pattern(final(entity).pattern_text(r.0@, props@), old(entity).label_spec()), min_hops),
        r.3@ == final(entity).pattern_params(r.0@, props@),
{
    let label = entity.get_label();
    let alias = core.assign_alias(entity, n);
    let id = entity.get_uuid();
    let (text, params) = entity.entity_by(alias.as_str(), props.as_slice());
    proof {
        reveal_strlit(":");
    }
    let mut pat = String::from_str(":");
    pat.append(label.as_str());
    pat.append(" {");
    let mut rep = String::from_str(":");
    rep.append(label.as_str());
    rep.append("*min_hops.. {");
    let text = replace_text(text.as_str(), pat.as_str(), rep.as_str());
    let hops = u32_text(min_hops);
    proof {
        reveal_strlit("min_hops");
    }
    let text = replace_text(text.as_str(), "min_hops", hops.as_str());
    (alias, id, text, params)
}

/// Turns a relation pattern's arrow to point right to left.
fn flip_arrow(text: &str) -> (r: String)
    ensures
        r@ == flipped(text@),
{
    proof {
        reveal_strlit("-[");
        reveal_strlit("]->");
    }
    let t = replace_text(text, "-[", "<-[");
    replace_text(t.as_str(), "]->", "]-")
}

impl<Q: CanNode> Neo4gMatchStatement<Q> {
    /// Writes a node selected by the properties the closure picks, under a
    /// fresh alias (or, after a UNION, the alias the entity already has).
    pub fn node<T, F>(self, entity: &mut T, props_macro: F) -> (r: Neo4gMatchStatement<MatchedNode>)
        where T: Neo4gEntity, F: FnOnce(&T) -> Vec<T::Props>
        requires
            self@.core.node_number < u32::MAX,
            call_requires(props_macro, (&*old(entity),)),
        ensures
            alias_assigned(
                self@.core,
                *old(entity),
                *final(entity),
                fresh_alias(old(entity).label_spec(), (self@.core.node_number + 1) as u32),
            ),
            exists|props: Vec<T::Props>|
                #[trigger] call_ensures(props_macro, (&*old(entity),), props) && r@ == (MatchView {
                    core: node_by_view(self@.core, *old(entity), *final(entity), props@),
                    ..self@
                }),
    {
        let mut s = self;
        let n = s.core.next_node();
        let props = props_macro(&*entity);
        let label = entity.get_label();
        let alias = s.core.assign_alias(entity, n);
        let id = entity.get_uuid();
        let previous = alias.clone();
        if props.len() == 0 {
            let mut name = alias.clone();
            name.append(":");
            name.append(label.as_str());
            name.append(":AdditionalLabels");
            let mut text = String::from_str("(");
            text.append(name.as_str());
            text.append(")");
            s.core.finish_entity(id, alias, (previous, EntityType::Node), text.as_str(), Params::new());
        } else {
            let (text, params) = entity.entity_by(alias.as_str(), props.as_slice());
            s.core.finish_entity(id, alias, (previous, EntityType::Node), text.as_str(), params);
        }
        s.transition()
    }

    /// Writes a node whose property `key` is matched against the unwound
    /// value: `(alias:Label:AdditionalLabels {key: value})`. An entity with no alias
    /// gets a fresh one.
    pub fn nodes_by_unwound<T, F>(self, entity: &mut T, prop_macro: F, unwound: &Unwinder) -> (r:
        Neo4gMatchStatement<MatchedNode>)
        where T: Neo4gEntity, F: FnOnce(&T) -> T::Props
        requires
            self@.core.node_number < u32::MAX,
            call_requires(prop_macro, (&*old(entity),)),
            unwound.alias_spec().len() == 0 ==> unwound_node_aliases(
                self@.core,
                *old(entity),
            ).contains_key(unwound.uuid_spec()),
        ensures
            unwound_entity_changed(self@.core, *old(entity), *final(entity)),
            exists|prop: T::Props|
                #[trigger] call_ensures(prop_macro, (&*old(entity),), prop) && r@ == (MatchView {
                    core: unwound_node_view(
                        self@.core,
                        *old(entity),
                        prop.key_spec(),
                        unwound.alias_spec(),
                        unwound.uuid_spec(),
                    ),
                    ..self@
                }),
    {
        let mut s = self;
        let prop = prop_macro(&*entity);
        let (key, _) = prop.to_query_param();
        write_unwound_node(&mut s.core, entity, key, unwound);
        s.transition()
    }

    /// Refers to an entity already in the query by its alias: `(alias)`.
    pub fn node_ref<T: Neo4gEntity>(self, node_to_alias: &T) -> (r: Neo4gMatchStatement<MatchedNode>)
        ensures
            r@ == (MatchView {
                core: append_query(entity_begun(self@.core), "("@ + node_to_alias.alias_spec() + ")"@),
                ..self@
            }),
    {
        let mut s = self;
        let a = node_to_alias.get_alias();
        s.core.begin_entity();
        s.core.push_query("(");
        s.core.push_query(a.as_str());
        s.core.push_query(")");
        s.transition()
    }
}

impl Neo4gMatchStatement<MatchedNode> {
    /// Writes a relation selected by the properties the closure picks, with
    /// `min_hops` as the minimum number of hops.
    pub fn relations<T, F>(self, min_hops: u32, entity: &mut T, props_macro: F) -> (r:
        Neo4gMatchStatement<MatchedRelation>)
        where T: Neo4gEntity, F: FnOnce(&T) -> Vec<T::Props>
        requires
            self@.core.relation_number < u32::MAX,
            call_requires(props_macro, (&*old(entity),)),
        ensures
            alias_assigned(
                self@.core,
                *old(entity),
                *final(entity),
                fresh_alias(old(entity).label_spec(), (self@.core.relation_number + 1) as u32),
            ),
            exists|props: Vec<T::Props>|
                #[trigger] call_ensures(props_macro, (&*old(entity),), props) && r@ == (MatchView {
                    core: relations_view(self@.core, *old(entity), *final(entity), props@, min_hops, true),
                    ..self@
                }),
    {
        let mut s = self;
        let n = s.core.next_relation();
        let props = props_macro(&*entity);
        let label = entity.get_label();
        let (alias, id, text, params) = write_hops(&s.core, entity, n, props, min_hops);
        let mut previous = to_lowercase_text(label.as_str());
        let number = u32_text(n);
        previous.append(number.as_str());
        s.core.finish_entity(id, alias, (previous, EntityType::Relation), text.as_str(), params);
        s.transition()
    }

    /// Writes a relation selected by the properties the closure picks.
    pub fn relation<T, F>(self, entity: &mut T, props_macro: F) -> (r: Neo4gMatchStatement<MatchedRelation>)
        where T: Neo4gEntity, F: FnOnce(&T) -> Vec<T::Props>
        requires
            self@.core.relation_number < u32::MAX,
            call_requires(props_macro, (&*old(entity),)),
        ensures
            alias_assigned(
                self@.core,
                *old(entity),
                *final(entity),
                fresh_alias(old(entity).label_spec(), (self@.core.relation_number + 1) as u32),
            ),
            exists|props: Vec<T::Props>|
                #[trigger] call_ensures(props_macro, (&*old(entity),), props) && r@ == (MatchView {
                    core: relation_view(self@.core, *old(entity), *final(entity), props@),
                    ..self@
                }),
    {
        let mut s = self;
        let n = s.core.next_relation();
        let props = props_macro(&*entity);
        let (alias, id, text, params) = write_single_hop(&s.core, entity, n, props);
        let previous = alias.clone();
        s.core.finish_entity(id, alias, (previous, EntityType::Relation), text.as_str(), params);
        s.transition()
    }

    /// Writes a relation selected by the properties the closure picks,
    /// pointing right to left.
    pub fn relation_flipped<T, F>(self, entity: &mut T, props_macro: F) -> (r:
        Neo4gMatchStatement<MatchedRelation>)
        where T: Neo4gEntity, F: FnOnce(&T) -> Vec<T::Props>
        requires
            self@.core.relation_number < u32::MAX,
            call_requires(props_macro, (&*old(entity),)),
        ensures
            alias_assigned(
                self@.core,
                *old(entity),
                *final(entity),
                fresh_alias(old(entity).label_spec(), (self@.core.relation_number + 1) as u32),
            ),
            exists|props: Vec<T::Props>|
                #[trigger] call_ensures(props_macro, (&*old(entity),), props) && r@ == (MatchView {
                    core: flipped_view(self@.core, *old(entity), *final(entity), props@),
                    ..self@
                }),
    {
        let mut s = self;
        let n = s.core.next_relation();
        let props = props_macro(&*entity);
        let (alias, id, text, params) = write_single_hop(&s.core, entity, n, props);
        let text = flip_arrow(text.as_str());
        let previous = alias.clone();
        s.core.finish_entity(id, alias, (previous, EntityType::Relation), text.as_str(), params);
        s.transition()
    }

    /// Writes an undirected, unnamed relation: `--`.
    pub fn relation_undirected(self) -> (r: Neo4gMatchStatement<MatchedRelation>)
        ensures
            r@ == (MatchView { core: append_query(self@.core, "--"@), ..self@ }),
    {
        let mut s = self;
        s.core.push_query("--");
        s.transition()
    }

    /// Refers to a relation already in the query by its alias: `-[alias]->`.
    pub fn relation_ref<T: Neo4gEntity>(self, rel_to_alias: &T) -> (r: Neo4gMatchStatement<MatchedRelation>)
        ensures
            r@ == (MatchView { core: append_query(self@.core, "-["@ + rel_to_alias.alias_spec() + "]->"@), ..self@ }),
    {
        let mut s = self;
        let a = rel_to_alias.get_alias();
        s.core.push_query("-[");
        s.core.push_query(a.as_str());
        s.core.push_query("]->");
        s.transition()
    }

    /// Puts the labels, separated by `:`, in place of the additional-labels
    /// placeholder of the node written just before; earlier placeholders are
    /// left for the end of the statement to remove.
    pub fn set_additional_labels<T: Neo4gLabel>(self, labels: &[T]) -> (r: Self)
        ensures
            r@ == (MatchView {
                core: labels_applied(self@.core, labels@.map_values(|l: T| l.label_text())),
                ..self@
            }),
    {
        let mut s = self;
        s.core.apply_labels(labels);
        s
    }
}

impl<Q: CanAddReturn> Neo4gMatchStatement<Q> {
    /// Adds the entity just written to what the query returns.
    pub fn add_to_return(self) -> (r: Self)
        ensures
            r@ == (MatchView { core: with_previous_returned(self@.core), ..self@ }),
    {
        let mut s = self;
        s.core.add_previous_to_return();
        s
    }
}

impl<Q: PossibleStatementEnd> Neo4gMatchStatement<Q> {
    /// Adds the conditions to the statement's WHERE clause, opening it on the
    /// first call; entity references become their aliases.
    pub fn filter(self, filter: Where<Condition>) -> (r: Self)
        ensures
            r@ == match_filter_view(self@, filter@),
    {
        let mut s = self;
        let (tokens, _ids, params) = filter.build();
        let part = s.core.render(&tokens);
        if s.where_str.as_str().unicode_len() == 0 {
            let mut added = String::from_str("\nWHERE ");
            added.append(part.as_str());
            s.where_str.append(added.as_str());
            s.core.push_query(added.as_str());
        } else {
            s.where_str.append(part.as_str());
            s.core.push_query(part.as_str());
        }
        s.core.add_params(params);
        s
    }

    /// Sets the properties the closure picks on the entity, in the SET text
    /// written at the statement's end: `alias.key = $setN_key`.
    pub fn set<T, F>(self, entity: &T, props_macro: F) -> (r: Self)
        where T: Neo4gEntity, F: FnOnce(&T) -> Vec<T::Props>
        requires
            self@.core.set_number < u32::MAX,
            call_requires(props_macro, (entity,)),
        ensures
            exists|props: Vec<T::Props>|
                #[trigger] call_ensures(props_macro, (entity,), props) && r@ == match_set_view(
                    self@,
                    entity.alias_spec(),
                    props@,
                ),
    {
        let mut s = self;
        let n = s.core.next_set();
        let props = props_macro(entity);
        let alias = entity.get_alias();
        let (text, params) = set_text(alias.as_str(), &props, n);
        s.core.add_params(params);
        if s.set_str.as_str().unicode_len() == 0 {
            s.set_str = String::from_str("\nSET ");
        } else {
            s.set_str.append(", ");
        }
        s.set_str.append(text.as_str());
        s
    }

    /// Deletes the entities, with their relations when `detach` is set:
    /// `DELETE [DETACH ]alias, ...`.
    pub fn delete<T: WrappedNeo4gEntity>(self, entities: &[T], detach: bool) -> (r: Neo4gMatchStatement<
        DeletedEntity,
    >)
        requires
            deletable(self@.core, entities@),
        ensures
            r@ == (MatchView {
                core: append_query(
                    self@.core,
                    (if detach {
                        "\nDELETE DETACH "@
                    } else {
                        "\nDELETE "@
                    }) + join(delete_names(self@.core, entities@), ", "@),
                ),
                ..self@
            }),
    {
        let mut s = self;
        let mut names: Vec<String> = Vec::new();
        let ghost target = delete_names(s.core@, entities@);
        let mut i: usize = 0;
        while i < entities.len()
            invariant
                i <= entities@.len(),
                s@ == self@,
                deletable(self@.core, entities@),
                target == delete_names(self@.core, entities@),
                string_views(names@) == target.take(i as int),
            decreases entities@.len() - i,
        {
            let e = &entities[i];
            let mut alias = e.get_alias();
            if alias.as_str().unicode_len() == 0 {
                match s.core.lookup_alias(e.get_uuid()) {
                    Some(a) => {
                        alias = a;
                    },
                    Option::None => {
                        proof {
                            assert(false);
                        }
                    },
                }
            }
            let ghost before = string_views(names@);
            names.push(alias);
            assert(string_views(names@) =~= before.push(target[i as int]));
            assert(target.take(i + 1) =~= target.take(i as int).push(target[i as int]));
            i += 1;
        }
        assert(target.take(entities@.len() as int) =~= target);
        let joined = join_text(&names, ", ");
        if detach {
            s.core.push_query("\nDELETE DETACH ");
        } else {
            s.core.push_query("\nDELETE ");
        }
        s.core.push_query(joined.as_str());
        proof {
            assert(s@.core.query =~= self@.core.query + ((if detach {
                "\nDELETE DETACH "@
            } else {
                "\nDELETE "@
            }) + join(delete_names(self@.core, entities@), ", "@)));
        }
        s.transition()
    }

    /// Ends the statement: writes the SET text and, after a SET, a WITH of
    /// the returns; removes the placeholders left for additional labels.
    pub fn end_statement(self) -> (r: Neo4gBuilder<MatchedNode>)
        ensures
            r@ == plain_builder(match_end_view(self@)),
    {
        let mut core = self.core;
        let ghost c0 = core@;
        if self.set_str.as_str().unicode_len() != 0 {
            core.push_query(self.set_str.as_str());
            if core.has_returns() {
                let names = core.returns_text();
                core.push_query("\nWITH ");
                core.push_query(names.as_str());
                assert(core@.query =~= c0.query + (self@.set_str + "\nWITH "@ + names@));
            }
        } else {
            assert(core@.query =~= c0.query + Seq::<char>::empty());
        }
        core.drop_label_placeholders();
        Neo4gBuilder::from_core(core)
    }
}

/// The aliases of the wrapped entities a CALL imports.
pub open spec fn wrapped_aliases<W: WrappedNeo4gEntity>(ws: Seq<W>) -> Seq<Seq<char>> {
    ws.map_values(|w: W| w.alias_spec())
}

/// Whether the query already names the array an unwinder unwinds.
pub open spec fn array_known(c: CoreView, u: Unwinder) -> bool {
    c.aliases.contains_key(u.array_id())
}

/// The name of the array an unwinder unwinds: the alias the query gave it,
/// or its own alias when the query has not named it yet.
pub open spec fn unwound_array_name(c: CoreView, u: Unwinder) -> Seq<char> {
    if array_known(c, u) {
        c.aliases[u.array_id()]
    } else {
        u.array_spec().alias_spec()
    }
}

/// The alias `unwind` gives an unwinder: the one it has, or
/// `unwound_<array name><n>` when it has none.
pub open spec fn unwinder_alias(c: CoreView, u: Unwinder) -> Seq<char> {
    if u.alias_spec().len() == 0 {
        "unwound_"@ + unwound_array_name(c, u) + decimal((c.unwind_number + 1) as nat)
    } else {
        u.alias_spec()
    }
}

/// UNWIND: `UNWIND <array alias> AS <unwinder alias>` for an array the query
/// names already; otherwise `UNWIND $<array alias> AS <unwinder alias>`, with
/// the array's list passed as that parameter. A fresh unwinder alias is
/// recorded.
pub open spec fn unwind_view(c: CoreView, u: Unwinder) -> CoreView {
    let alias = unwinder_alias(c, u);
    let name = unwound_array_name(c, u);
    CoreView {
        unwind_number: (c.unwind_number + 1) as u32,
        aliases: if u.alias_spec().len() == 0 {
            c.aliases.insert(u.uuid_spec(), alias)
        } else {
            c.aliases
        },
        query: c.query + "\nUNWIND "@ + (if array_known(c, u) {
            name
        } else {
            "$"@ + name
        }) + " AS "@ + alias,
        params: if array_known(c, u) {
            c.params
        } else {
            c.params.insert(name, bolt_list(u.array_spec().list_spec()))
        },
        ..c
    }
}

/// What separates a WITH item from the one before: nothing right after
/// `WITH `, a comma otherwise.
pub open spec fn with_item_sep(query: Seq<char>) -> Seq<char> {
    if ends_with(query, "WITH "@) {
        Seq::empty()
    } else {
        ", "@
    }
}

/// `c` with one more WITH item, `item`, written.
pub open spec fn with_item(c: CoreView, item: Seq<char>) -> CoreView {
    CoreView {
        with_number: (c.with_number + 1) as u32,
        query: c.query + with_item_sep(c.query) + item,
        ..c
    }
}

/// How an array is listed after WITH: `$alias AS alias` the first time it
/// is passed, its alias afterwards.
pub open spec fn array_item(a: Array) -> Seq<char> {
    if a.is_built_spec() {
        a.alias_spec()
    } else {
        "$"@ + a.alias_spec() + " AS "@ + a.alias_spec()
    }
}

/// The parameters after listing `arrs`: each array passed for the first
/// time adds its list under its alias.
pub open spec fn array_params(p: Map<Seq<char>, BoltType>, arrs: Seq<Array>) -> Map<Seq<char>, BoltType>
    decreases arrs.len(),
{
    if arrs.len() == 0 {
        p
    } else {
        let q = array_params(p, arrs.drop_last());
        let a = arrs.last();
        if a.is_built_spec() {
            q
        } else {
            q.insert(a.alias_spec(), bolt_list(a.list_spec()))
        }
    }
}

/// The aliases after listing `arrs`: each array's alias is recorded.
pub open spec fn array_aliases(m: Map<u128, Seq<char>>, arrs: Seq<Array>) -> Map<u128, Seq<char>>
    decreases arrs.len(),
{
    if arrs.len() == 0 {
        m
    } else {
        array_aliases(m, arrs.drop_last()).insert(arrs.last().uuid_spec(), arrs.last().alias_spec())
    }
}

/// `arrays`: the arrays listed after WITH, their lists passed as parameters
/// the first time.
pub open spec fn arrays_view(c: CoreView, arrs: Seq<Array>) -> CoreView {
    let w = with_item(c, join(arrs.map_values(|a: Array| array_item(a)), ", "@));
    CoreView { params: array_params(c.params, arrs), aliases: array_aliases(c.aliases, arrs), ..w }
}

/// `function`: `<call> AS with_fn_<n>`, the call's references written as
/// aliases; the call is recorded under that alias.
pub open spec fn function_item_view(c: CoreView, f: FunctionCall) -> CoreView {
    let n = (c.with_number + 1) as u32;
    let alias = "with_fn_"@ + decimal(n as nat);
    let parts = function_view(f.function_spec());
    let w = with_item(c, resolve(parts.text, c.aliases) + " AS "@ + alias);
    CoreView {
        aliases: c.aliases.insert(f.uuid_spec(), alias),
        params: c.params.union_prefer_right(parts.params),
        ..w
    }
}

/// The returns `set_returns` records: each entity's alias with the given
/// type, each kept once.
pub open spec fn returns_of<T: WrappedNeo4gEntity>(rs: Seq<(EntityType, T)>) -> Seq<(Seq<char>, EntityType)> {
    dedup_refs(rs.map_values(|p: (EntityType, T)| (p.1.alias_spec(), p.0)))
}

/// The RETURN clause for `c`'s returns, empty when there are none.
pub open spec fn return_clause(c: CoreView) -> Seq<char> {
    if c.return_refs.len() == 0 {
        Seq::empty()
    } else {
        "\nRETURN "@ + join(ref_aliases(c.return_refs), ", "@)
    }
}

/// The complete query text: the query, its RETURN clause and its ORDER BY.
pub open spec fn final_text(b: BuilderView) -> Seq<char> {
    b.core.query + return_clause(b.core) + b.order_by
}

impl<Q: CanMatch> Neo4gBuilder<Q> {
    /// Calls the query the closure builds, in braces: `CALL {...}`. The inner
    /// query continues this one's aliases and numbering.
    pub fn call<F, B>(self, inner_builder_closure: F) -> (r: Neo4gBuilder<Called>)
        where F: FnOnce(Neo4gBuilder<Empty>) -> Neo4gBuilder<B>, B: PossibleQueryEnd
        requires
            forall|i: Neo4gBuilder<Empty>|
                i@ == plain_builder(inherited_core(self@.core)) ==> #[trigger] call_requires(
                    inner_builder_closure,
                    (i,),
                ),
        ensures
            exists|i: Neo4gBuilder<Empty>, o: Neo4gBuilder<B>|
                i@ == plain_builder(inherited_core(self@.core)) && #[trigger] call_ensures(
                    inner_builder_closure,
                    (i,),
                    o,
                ) && r@ == (BuilderView { core: absorbed(self@.core, "\nCALL {"@, o@.core), ..self@ }),
    {
        let mut s = self;
        let inner = Neo4gBuilder::new_with_parent(&s);
        let out = inner_builder_closure(inner);
        s.core.absorb("\nCALL {", out.core);
        s.transition()
    }

    /// Calls the query the closure builds with the given entities imported:
    /// `CALL (alias, ...) {...}`.
    pub fn call_with<F, B, W>(self, wrapped_slice: &[W], inner_builder_closure: F) -> (r: Neo4gBuilder<Called>)
        where W: WrappedNeo4gEntity, F: FnOnce(Neo4gBuilder<Empty>) -> Neo4gBuilder<B>, B: PossibleQueryEnd
        requires
            forall|i: Neo4gBuilder<Empty>|
                i@ == plain_builder(inherited_core(self@.core)) ==> #[trigger] call_requires(
                    inner_builder_closure,
                    (i,),
                ),
        ensures
            exists|i: Neo4gBuilder<Empty>, o: Neo4gBuilder<B>|
                i@ == plain_builder(inherited_core(self@.core)) && #[trigger] call_ensures(
                    inner_builder_closure,
                    (i,),
                    o,
                ) && r@ == (BuilderView {
                    core: absorbed(
                        self@.core,
                        "\nCALL ("@ + join(wrapped_aliases(wrapped_slice@), ", "@) + ") {"@,
                        o@.core,
                    ),
                    ..self@
                }),
    {
        let mut s = self;
        let inner = Neo4gBuilder::new_with_parent(&s);
        let out = inner_builder_closure(inner);
        let mut names: Vec<String> = Vec::new();
        let mut i: usize = 0;
        while i < wrapped_slice.len()
            invariant
                i <= wrapped_slice@.len(),
                string_views(names@) == wrapped_aliases(wrapped_slice@).take(i as int),
            decreases wrapped_slice@.len() - i,
        {
            let ghost before = string_views(names@);
            names.push(wrapped_slice[i].get_alias());
            assert(string_views(names@) =~= before.push(wrapped_aliases(wrapped_slice@)[i as int]));
            assert(wrapped_aliases(wrapped_slice@).take(i + 1) =~= wrapped_aliases(wrapped_slice@).take(
                i as int,
            ).push(wrapped_aliases(wrapped_slice@)[i as int]));
            i += 1;
        }
        assert(wrapped_aliases(wrapped_slice@).take(wrapped_slice@.len() as int) =~= wrapped_aliases(
            wrapped_slice@,
        ));
        let joined = join_text(&names, ", ");
        let mut head = String::from_str("\nCALL (");
        head.append(joined.as_str());
        head.append(") {");
        s.core.absorb(head.as_str(), out.core);
        s.transition()
    }

    /// Names each element of the unwinder's array in turn:
    /// `UNWIND <array alias> AS <unwinder alias>` when the query already
    /// names the array, else `UNWIND $<array alias> AS <unwinder alias>` with
    /// the list passed as that parameter. An unwinder with no alias gets
    /// `unwound_<array alias><n>`.
    pub fn unwind(self, unwinder: &mut Unwinder) -> (r: Self)
        requires
            self@.core.unwind_number < u32::MAX,
        ensures
            final(unwinder).alias_spec() == unwinder_alias(self@.core, *old(unwinder)),
            final(unwinder).uuid_spec() == old(unwinder).uuid_spec(),
            final(unwinder).array_id() == old(unwinder).array_id(),
            r@ == (BuilderView { core: unwind_view(self@.core, *old(unwinder)), ..self@ }),
    {
        let mut s = self;
        let n = s.core.next_unwind();
        let (mut alias, array_id, _) = unwinder.unwind();
        let (own_name, list_param) = unwinder.array_parts();
        let known = s.core.lookup_alias(array_id);
        let array_name = match &known {
            Some(a) => a.clone(),
            Option::None => own_name,
        };
        if alias.as_str().unicode_len() == 0 {
            alias = String::from_str("unwound_");
            alias.append(array_name.as_str());
            let number = u32_text(n);
            alias.append(number.as_str());
            unwinder.set_unwound_alias(alias.clone());
            let id = unwinder.get_uuid();
            s.core.record_alias(id, alias.clone());
        }
        s.core.push_query("\nUNWIND ");
        if known.is_none() {
            s.core.push_query("$");
        }
        s.core.push_query(array_name.as_str());
        s.core.push_query(" AS ");
        s.core.push_query(alias.as_str());
        if known.is_none() {
            s.core.add_params(list_param);
        }
        let ghost c0 = self@.core;
        let ghost u0 = *old(unwinder);
        assert(s.core@.query =~= c0.query + "\nUNWIND "@ + (if array_known(c0, u0) {
            unwound_array_name(c0, u0)
        } else {
            "$"@ + unwound_array_name(c0, u0)
        }) + " AS "@ + unwinder_alias(c0, u0));
        assert(s.core@.params =~= unwind_view(c0, u0).params);
        s
    }
}

impl<Q: CanWith> Neo4gBuilder<Q> {
    /// Starts a WITH clause.
    pub fn with(self) -> (r: Neo4gBuilder<Withed>)
        ensures
            r@ == (BuilderView { core: append_query(self@.core, "\nWITH "@), ..self@ }),
    {
        let mut s = self;
        s.core.push_query("\nWITH ");
        s.transition()
    }
}

impl<Q: CanSetWith> Neo4gBuilder<Q> {
    /// Lists the entities' aliases after WITH; with no entities nothing is
    /// written.
    pub fn entities<T: WrappedNeo4gEntity>(self, entities: &[T]) -> (r: Neo4gBuilder<WithCondition>)
        requires
            entities@.len() > 0 ==> self@.core.with_number < u32::MAX,
        ensures
            r@ == (if entities@.len() == 0 {
                self@
            } else {
                BuilderView {
                    core: with_item(self@.core, join(wrapped_aliases(entities@), ", "@)),
                    ..self@
                }
            }),
    {
        let mut s = self;
        if entities.len() == 0 {
            return s.transition();
        }
        let mut names: Vec<String> = Vec::new();
        let mut i: usize = 0;
        while i < entities.len()
            invariant
                i <= entities@.len(),
                string_views(names@) == wrapped_aliases(entities@).take(i as int),
            decreases entities@.len() - i,
        {
            let ghost before = string_views(names@);
            names.push(entities[i].get_alias());
            assert(string_views(names@) =~= before.push(wrapped_aliases(entities@)[i as int]));
            assert(wrapped_aliases(entities@).take(i + 1) =~= wrapped_aliases(entities@).take(i as int).push(
                wrapped_aliases(entities@)[i as int],
            ));
            i += 1;
        }
        assert(wrapped_aliases(entities@).take(entities@.len() as int) =~= wrapped_aliases(entities@));
        let joined = join_text(&names, ", ");
        s.core.next_with();
        s.push_with_item(joined.as_str());
        s.transition()
    }

    /// Lists the arrays after WITH: `$alias AS alias` for an array passed
    /// for the first time, with its list as a parameter, its alias otherwise.
    /// Every array is marked as passed.
    pub fn arrays(self, arrays: &mut Vec<Array>) -> (r: Neo4gBuilder<WithCondition>)
        requires
            self@.core.with_number < u32::MAX,
        ensures
            final(arrays)@.len() == old(arrays)@.len(),
            forall|i: int|
                0 <= i < old(arrays)@.len() ==> {
                    &&& (#[trigger] final(arrays)@[i]).alias_spec() == old(arrays)@[i].alias_spec()
                    &&& final(arrays)@[i].uuid_spec() == old(arrays)@[i].uuid_spec()
                    &&& final(arrays)@[i].list_spec() == old(arrays)@[i].list_spec()
                    &&& final(arrays)@[i].is_built_spec()
                },
            r@ == (BuilderView { core: arrays_view(self@.core, old(arrays)@), ..self@ }),
    {
        let mut s = self;
        s.core.next_with();
        let sep_needed = !s.core.query_ends_with("WITH ");
        let mut taken: Vec<Array> = Vec::new();
        std::mem::swap(arrays, &mut taken);
        let ghost src = taken@;
        let ghost c1 = s.core@;
        let ghost items = src.map_values(|a: Array| array_item(a));
        let mut parts: Vec<String> = Vec::new();
        let mut i: usize = 0;
        while i < taken.len()
            invariant
                i <= taken@.len(),
                taken@ == src,
                s@.order_by == self@.order_by,
                items == src.map_values(|a: Array| array_item(a)),
                arrays@.len() == i,
                forall|j: int|
                    0 <= j < i ==> {
                        &&& (#[trigger] arrays@[j]).alias_spec() == src[j].alias_spec()
                        &&& arrays@[j].uuid_spec() == src[j].uuid_spec()
                        &&& arrays@[j].list_spec() == src[j].list_spec()
                        &&& arrays@[j].is_built_spec()
                    },
                string_views(parts@) == items.take(i as int),
                s.core@ == (CoreView {
                    params: array_params(c1.params, src.take(i as int)),
                    aliases: array_aliases(c1.aliases, src.take(i as int)),
                    ..c1
                }),
            decreases taken@.len() - i,
        {
            let mut a = taken[i].clone();
            let (alias, id, params, previously_built) = a.build();
            let ghost before_core = s.core@;
            s.core.add_params(params);
            s.core.record_alias(id, alias.clone());
            assert(src.take(i + 1).drop_last() =~= src.take(i as int));
            assert(s.core@.params =~= array_params(c1.params, src.take(i + 1)));
            let part = if previously_built {
                alias
            } else {
                let mut t = String::from_str("$");
                t.append(alias.as_str());
                t.append(" AS ");
                t.append(alias.as_str());
                t
            };
            let ghost before = string_views(parts@);
            parts.push(part);
            assert(string_views(parts@) =~= before.push(items[i as int]));
            assert(items.take(i + 1) =~= items.take(i as int).push(items[i as int]));
            arrays.push(a);
            i += 1;
        }
        assert(items.take(src.len() as int) =~= items);
        assert(src.take(src.len() as int) =~= src);
        let joined = join_text(&parts, ", ");
        if sep_needed {
            s.core.push_query(", ");
        }
        s.core.push_query(joined.as_str());
        assert(s.core@.query =~= c1.query + with_item_sep(c1.query) + join(items, ", "@));
        s.transition()
    }

    /// Lists the function call after WITH under the alias `with_fn_<n>`,
    /// which the call is given: `<call> AS with_fn_<n>`.
    pub fn function(self, function: &mut FunctionCall) -> (r: Neo4gBuilder<WithCondition>)
        requires
            self@.core.with_number < u32::MAX,
        ensures
            final(function).alias_spec() == "with_fn_"@ + decimal((self@.core.with_number + 1) as nat),
            final(function).uuid_spec() == old(function).uuid_spec(),
            r@ == (BuilderView { core: function_item_view(self@.core, *final(function)), ..self@ }),
    {
        let mut s = self;
        let n = s.core.next_with();
        let mut alias = String::from_str("with_fn_");
        let number = u32_text(n);
        alias.append(number.as_str());
        function.set_alias(alias.as_str());
        let (tokens, _ids, params) = function.function_parts();
        let text = s.core.render(&tokens);
        let mut item = text;
        item.append(" AS ");
        item.append(alias.as_str());
        s.push_with_item(item.as_str());
        let id = function.get_uuid();
        s.core.record_alias(id, alias);
        s.core.add_params(params);
        s.transition()
    }

    /// Writes a WITH item, after a comma unless it is the first.
    fn push_with_item(&mut self, item: &str)
        ensures
            final(self)@ == (BuilderView {
                core: CoreView {
                    query: old(self)@.core.query + with_item_sep(old(self)@.core.query) + item@,
                    ..old(self)@.core
                },
                ..old(self)@
            }),
    {
        if !self.core.query_ends_with("WITH ") {
            self.core.push_query(", ");
        }
        self.core.push_query(item);
        assert(self@.core.query =~= old(self)@.core.query + with_item_sep(old(self)@.core.query) + item@);
    }
}

impl Neo4gBuilder<WithCondition> {
    /// Filters the WITH items: ` WHERE <conditions>`, entity references
    /// written as aliases.
    pub fn filter(self, filter: Where<Condition>) -> (r: Neo4gBuilder<WithConditioned>)
        ensures
            r@ == (BuilderView {
                core: CoreView {
                    query: self@.core.query + " WHERE "@ + resolve(filter@.text, self@.core.aliases),
                    params: self@.core.params.union_prefer_right(filter@.params),
                    ..self@.core
                },
                ..self@
            }),
    {
        let mut s = self;
        let (tokens, _ids, params) = filter.build();
        let part = s.core.render(&tokens);
        s.core.push_query(" WHERE ");
        s.core.push_query(part.as_str());
        s.core.add_params(params);
        s.transition()
    }
}

impl<Q: PossibleQueryEnd> Neo4gBuilder<Q> {
    /// The query text and parameters written so far.
    pub fn build(self) -> (r: (String, Params))
        ensures
            r.0@ == self@.core.query,
            r.1@ == self@.core.params,
    {
        self.core.into_parts()
    }

    /// Replaces what the query returns by the given entities, each with the
    /// given type; with none given the returns stay as they are.
    pub fn set_returns<T: WrappedNeo4gEntity>(self, wanted: &[(EntityType, T)]) -> (r: Self)
        ensures
            r@ == (if wanted@.len() == 0 {
                self@
            } else {
                BuilderView {
                    core: CoreView { return_refs: returns_of(wanted@), ..self@.core },
                    ..self@
                }
            }),
    {
        let mut s = self;
        if wanted.len() != 0 {
            let ghost src = wanted@.map_values(|p: (EntityType, T)| (p.1.alias_spec(), p.0));
            let mut refs: Vec<(String, EntityType)> = Vec::new();
            let mut i: usize = 0;
            while i < wanted.len()
                invariant
                    i <= wanted@.len(),
                    src == wanted@.map_values(|p: (EntityType, T)| (p.1.alias_spec(), p.0)),
                    refs@.map_values(|x: (String, EntityType)| ref_view(x)) == src.take(i as int),
                decreases wanted@.len() - i,
            {
                let ghost before = refs@.map_values(|x: (String, EntityType)| ref_view(x));
                let alias = wanted[i].1.get_alias();
                refs.push((alias, wanted[i].0));
                assert(refs@.map_values(|x: (String, EntityType)| ref_view(x)) =~= before.push(src[i as int]));
                assert(src.take(i + 1) =~= src.take(i as int).push(src[i as int]));
                i += 1;
            }
            assert(src.take(wanted@.len() as int) =~= src);
            s.core.replace_returns(refs);
        }
        s
    }

    /// Appends `SKIP <n>` and a line break.
    pub fn skip(self, skip: u32) -> (r: Self)
        ensures
            r@ == (BuilderView { core: append_query(self@.core, "SKIP "@ + decimal(skip as nat) + "\n"@), ..self@ }),
    {
        let mut s = self;
        let number = u32_text(skip);
        s.core.push_query("SKIP ");
        s.core.push_query(number.as_str());
        s.core.push_query("\n");
        assert(s@.core.query =~= self@.core.query + ("SKIP "@ + decimal(skip as nat) + "\n"@));
        s
    }

    /// Appends `LIMIT <n>` and a line break.
    pub fn limit(self, limit: u32) -> (r: Self)
        ensures
            r@ == (BuilderView { core: append_query(self@.core, "LIMIT "@ + decimal(limit as nat) + "\n"@), ..self@ }),
    {
        let mut s = self;
        let number = u32_text(limit);
        s.core.push_query("LIMIT ");
        s.core.push_query(number.as_str());
        s.core.push_query("\n");
        assert(s@.core.query =~= self@.core.query + ("LIMIT "@ + decimal(limit as nat) + "\n"@));
        s
    }

    /// Orders the results by the entity's property the closure picks:
    /// `alias.key`, then ` DESC` for a descending order, after `ORDER BY `
    /// the first time.
    pub fn order_by<T, F>(self, entity: &mut T, order: Order, prop_macro: F) -> (r: Self)
        where T: Neo4gEntity, F: FnOnce(&T) -> T::Props
        requires
            call_requires(prop_macro, (&*old(entity),)),
        ensures
            *final(entity) == *old(entity),
            exists|prop: T::Props|
                #[trigger] call_ensures(prop_macro, (&*old(entity),), prop) && r@ == (BuilderView {
                    order_by: (if self@.order_by.len() == 0 {
                        "\nORDER BY "@
                    } else {
                        self@.order_by
                    }) + old(entity).alias_spec() + "."@ + prop.key_spec() + (if order.keyword().len() == 0 {
                        Seq::empty()
                    } else {
                        " "@ + order.keyword()
                    }),
                    ..self@
                }),
    {
        let mut s = self;
        if s.order_by_str.as_str().unicode_len() == 0 {
            s.order_by_str = String::from_str("\nORDER BY ");
        }
        let prop = prop_macro(&*entity);
        let (name, _) = prop.to_query_param();
        let alias = entity.get_alias();
        let o = order.to_string();
        s.order_by_str.append(alias.as_str());
        s.order_by_str.append(".");
        s.order_by_str.append(name);
        if o.as_str().unicode_len() != 0 {
            s.order_by_str.append(" ");
            s.order_by_str.append(o.as_str());
        }
        proof {
            if o@.len() == 0 {
                assert(o@ =~= Seq::<char>::empty());
            }
        }
        s
    }

    /// Returns what is recorded so far and starts the next query of a UNION:
    /// `RETURN ...` (when there is something to return), then `UNION`.
    /// Entities written after it keep the aliases they already have.
    pub fn union(self) -> (r: Neo4gBuilder<WithConditioned>)
        ensures
            r@ == (BuilderView {
                core: CoreView {
                    query: self@.core.query + return_clause(self@.core) + "\nUNION"@,
                    previous_entity: Option::None,
                    unioned: true,
                    ..self@.core
                },
                ..self@
            }),
    {
        let mut s = self;
        s.push_return_clause();
        s.core.push_query("\nUNION");
        s.core.clear_previous();
        s.core.mark_unioned();
        s.transition()
    }

    /// The complete query text (with its RETURN clause and ORDER BY), its
    /// parameters, and the returns in the order their columns come back.
    pub fn into_query(self) -> (r: (String, Params, Vec<(String, EntityType)>))
        ensures
            r.0@ == final_text(self@),
            r.1@ == self@.core.params,
            r.2@.map_values(|x: (String, EntityType)| ref_view(x)) == self@.core.return_refs,
    {
        let mut s = self;
        s.push_return_clause();
        let order = s.order_by_str.clone();
        s.core.push_query(order.as_str());
        s.core.into_run_parts()
    }

    /// Appends the RETURN clause.
    fn push_return_clause(&mut self)
        ensures
            final(self)@ == (BuilderView {
                core: CoreView { query: old(self)@.core.query + return_clause(old(self)@.core), ..old(self)@.core },
                ..old(self)@
            }),
    {
        if self.core.has_returns() {
            let names = self.core.returns_text();
            self.core.push_query("\nRETURN ");
            self.core.push_query(names.as_str());
            assert(self@.core.query =~= old(self)@.core.query + return_clause(old(self)@.core));
        } else {
            assert(self@.core.query =~= old(self)@.core.query + return_clause(old(self)@.core));
        }
    }
}

} // verus!
