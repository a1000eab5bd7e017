//! The state every query builder and statement carries, and the steps they
//! share: choosing aliases, recording returns, and rewriting placeholders.
use vstd::prelude::*;
use vstd::string::*;
use neo4rs::BoltType;
use crate::collections::{AliasMap, Params, Token, pieces, resolve, resolve_tokens};
use crate::external::{lower_form, to_lowercase_text};
use crate::text::{decimal, join, replace_all, string_views, join_text, replace_text, u32_text};
use crate::traits::{Aliasable, Neo4gEntity, Neo4gLabel, QueryParam};
use crate::types::{Clause, EntityType};

verus! {

/// The mathematical form of the shared query state.
#[verifier::ext_equal]
pub struct CoreView {
    pub query: Seq<char>,
    pub params: Map<Seq<char>, BoltType>,
    pub aliases: Map<u128, Seq<char>>,
    pub node_number: u32,
    pub relation_number: u32,
    pub unwind_number: u32,
    pub set_number: u32,
    pub with_number: u32,
    pub return_refs: Seq<(Seq<char>, EntityType)>,
    pub previous_entity: Option<(Seq<char>, EntityType)>,
    pub clause: Clause,
    pub unioned: bool,
    /// Where the text of the entity written last begins in the query.
    pub label_start: nat,
}

/// The state shared by the builder and its statements.
#[derive(Debug)]
pub struct Core {
    pub(crate) query: String,
    pub(crate) params: Params,
    pub(crate) entity_aliases: AliasMap,
    pub(crate) node_number: u32,
    pub(crate) relation_number: u32,
    pub(crate) unwind_number: u32,
    pub(crate) set_number: u32,
    pub(crate) with_number: u32,
    pub(crate) return_refs: Vec<(String, EntityType)>,
    pub(crate) previous_entity: Option<(String, EntityType)>,
    pub(crate) clause: Clause,
    pub(crate) unioned: bool,
    pub(crate) label_start: usize,
}

/// The view of a return reference.
pub open spec fn ref_view(r: (String, EntityType)) -> (Seq<char>, EntityType) {
    (r.0@, r.1)
}

/// The view of an optional return reference.
pub open spec fn opt_ref_view(r: Option<(String, EntityType)>) -> Option<(Seq<char>, EntityType)> {
    match r {
        Some(x) => Some(ref_view(x)),
        Option::None => Option::None,
    }
}

impl View for Core {
    type V = CoreView;

    closed spec fn view(&self) -> CoreView {
        CoreView {
            query: self.query@,
            params: self.params@,
            aliases: self.entity_aliases@,
            node_number: self.node_number,
            relation_number: self.relation_number,
            unwind_number: self.unwind_number,
            set_number: self.set_number,
            with_number: self.with_number,
            return_refs: self.return_refs@.map_values(|r: (String, EntityType)| ref_view(r)),
            previous_entity: opt_ref_view(self.previous_entity),
            clause: self.clause,
            unioned: self.unioned,
            label_start: self.label_start as nat,
        }
    }
}

impl Clone for Core {
    fn clone(&self) -> (r: Core)
        ensures
            r@ == self@,
    {
        let mut refs: Vec<(String, EntityType)> = Vec::new();
        let mut i: usize = 0;
        while i < self.return_refs.len()
            invariant
                i <= self.return_refs@.len(),
                refs@.len() == i,
                forall|j: int| 0 <= j < i ==> ref_view(#[trigger] refs@[j]) == ref_view(self.return_refs@[j]),
            decreases self.return_refs@.len() - i,
        {
            let r = (self.return_refs[i].0.clone(), self.return_refs[i].1);
            refs.push(r);
            i += 1;
        }
        assert(refs@.map_values(|x: (String, EntityType)| ref_view(x)) =~= self.return_refs@.map_values(
            |x: (String, EntityType)| ref_view(x),
        ));
        let previous_entity = match &self.previous_entity {
            Some(p) => Some((p.0.clone(), p.1)),
            Option::None => Option::None,
        };
        let r = Core {
            query: self.query.clone(),
            params: self.params.clone(),
            entity_aliases: self.entity_aliases.clone(),
            node_number: self.node_number,
            relation_number: self.relation_number,
            unwind_number: self.unwind_number,
            set_number: self.set_number,
            with_number: self.with_number,
            return_refs: refs,
            previous_entity,
            clause: self.clause,
            unioned: self.unioned,
            label_start: self.label_start,
        };
        assert(r@ =~= self@);
        r
    }
}

/// A state with empty text, parameters, aliases and returns, and all counters
/// at zero.
pub open spec fn empty_core() -> CoreView {
    CoreView {
        query: Seq::empty(),
        params: Map::empty(),
        aliases: Map::empty(),
        node_number: 0,
        relation_number: 0,
        unwind_number: 0,
        set_number: 0,
        with_number: 0,
        return_refs: Seq::empty(),
        previous_entity: Option::None,
        clause: Clause::Unset,
        unioned: false,
        label_start: 0,
    }
}

/// An empty state that continues the aliases and numbering of `c`.
pub open spec fn inherited_core(c: CoreView) -> CoreView {
    CoreView {
        aliases: c.aliases,
        node_number: c.node_number,
        relation_number: c.relation_number,
        unwind_number: c.unwind_number,
        set_number: c.set_number,
        with_number: c.with_number,
        ..empty_core()
    }
}

/// `c` after a statement starts: a line break unless the query is empty,
/// then `keyword`, with `clause` recorded.
pub open spec fn started(c: CoreView, clause: Clause, keyword: Seq<char>) -> CoreView {
    CoreView {
        query: (if c.query.len() == 0 {
            c.query
        } else {
            c.query + "\n"@
        }) + keyword,
        clause,
        ..c
    }
}

/// `c` after an entity is written: its text appended, its parameters added
/// (new values winning), its alias recorded under its id, `previous` as
/// the entity `add_to_return` refers to, and the start of its text kept.
pub open spec fn entity_written(
    c: CoreView,
    id: u128,
    alias: Seq<char>,
    previous: (Seq<char>, EntityType),
    text: Seq<char>,
    params: Map<Seq<char>, BoltType>,
) -> CoreView {
    CoreView {
        query: c.query + text,
        params: c.params.union_prefer_right(params),
        aliases: c.aliases.insert(id, alias),
        previous_entity: Some(previous),
        label_start: c.query.len(),
        ..c
    }
}

/// `c` after a CALL of an inner query: the inner text in braces after
/// `head`, the inner parameters and aliases added (the inner ones winning),
/// and the numbering continued from the inner query. What the inner query
/// would return is not carried over.
pub open spec fn absorbed(c: CoreView, head: Seq<char>, inner: CoreView) -> CoreView {
    CoreView {
        query: c.query + head + inner.query + " \n}"@,
        params: c.params.union_prefer_right(inner.params),
        aliases: c.aliases.union_prefer_right(inner.aliases),
        node_number: inner.node_number,
        relation_number: inner.relation_number,
        unwind_number: inner.unwind_number,
        set_number: inner.set_number,
        with_number: inner.with_number,
        ..c
    }
}

/// The alias a new entity with the given label gets as the `n`th of its kind.
pub open spec fn fresh_alias(label: Seq<char>, n: u32) -> Seq<char> {
    lower_form(label) + decimal(n as nat)
}

/// Whether an entity keeps the alias it already has in the query: after a
/// UNION, an entity that was given an alias before keeps it.
pub open spec fn keeps_alias(c: CoreView, id: u128) -> bool {
    c.unioned && c.aliases.contains_key(id)
}

/// The alias an entity with id `id` is written under, `fresh` when it gets a
/// new one.
pub open spec fn chosen_alias(c: CoreView, id: u128, fresh: Seq<char>) -> Seq<char> {
    if keeps_alias(c, id) {
        c.aliases[id]
    } else {
        fresh
    }
}

/// How an entity is changed by being written under an alias: unchanged when
/// it keeps its alias, otherwise given `fresh` with nothing else changed.
pub open spec fn alias_assigned<T: Aliasable>(c: CoreView, before: T, after: T, fresh: Seq<char>) -> bool {
    if keeps_alias(c, before.uuid_spec()) {
        after == before
    } else {
        &&& after.alias_spec() == before.alias_after(fresh)
        &&& after.uuid_spec() == before.uuid_spec()
        &&& after.same_but_alias(&before)
    }
}

/// `refs` with `r` added unless it is already there.
pub open spec fn insert_ref(refs: Seq<(Seq<char>, EntityType)>, r: (Seq<char>, EntityType)) -> Seq<
    (Seq<char>, EntityType),
> {
    if refs.contains(r) {
        refs
    } else {
        refs.push(r)
    }
}

/// The aliases of a list of return references.
pub open spec fn ref_aliases(refs: Seq<(Seq<char>, EntityType)>) -> Seq<Seq<char>> {
    refs.map_values(|r: (Seq<char>, EntityType)| r.0)
}

/// The references `refs` denote as a set, each kept once, in first-seen order.
pub open spec fn dedup_refs(refs: Seq<(Seq<char>, EntityType)>) -> Seq<(Seq<char>, EntityType)>
    decreases refs.len(),
{
    if refs.len() == 0 {
        Seq::empty()
    } else {
        insert_ref(dedup_refs(refs.drop_last()), refs.last())
    }
}

/// Where the labels of `set_additional_labels` may go: from the start of
/// the entity written last, or nowhere past the end of the query.
pub open spec fn label_from(c: CoreView) -> int {
    if c.label_start <= c.query.len() {
        c.label_start as int
    } else {
        c.query.len() as int
    }
}

/// `c` with the additional-labels placeholder of the entity written last
/// replaced by `labels`, separated by `:`; the text before it is kept.
pub open spec fn labels_applied(c: CoreView, labels: Seq<Seq<char>>) -> CoreView {
    let s = label_from(c);
    CoreView {
        query: c.query.subrange(0, s) + replace_all(
            c.query.subrange(s, c.query.len() as int),
            "AdditionalLabels"@,
            join(labels, ":"@),
        ),
        ..c
    }
}

/// `c` with the entity written next starting at the end of the query.
pub open spec fn entity_begun(c: CoreView) -> CoreView {
    CoreView { label_start: c.query.len(), ..c }
}

/// The query text of `c` with `s` appended.
pub open spec fn append_query(c: CoreView, s: Seq<char>) -> CoreView {
    CoreView { query: c.query + s, ..c }
}

/// The name of the parameter a SET numbered `n` gives property `key`:
/// `set<n>_<key>`.
pub open spec fn set_param_name(key: Seq<char>, n: u32) -> Seq<char> {
    "set"@ + decimal(n as nat) + "_"@ + key
}

/// The text of a SET for `alias`: `alias.key = $<parameter name>` for each
/// property, separated by `, `.
pub open spec fn set_assignments<P: QueryParam>(alias: Seq<char>, props: Seq<P>, n: u32) -> Seq<char> {
    join(
        props.map_values(|p: P| alias + "."@ + p.key_spec() + " = $"@ + set_param_name(p.key_spec(), n)),
        ", "@,
    )
}

/// The parameters of a SET: each property's value under its parameter name,
/// later ones winning.
pub open spec fn set_params<P: QueryParam>(props: Seq<P>, n: u32) -> Map<Seq<char>, BoltType>
    decreases props.len(),
{
    if props.len() == 0 {
        Map::empty()
    } else {
        set_params(props.drop_last(), n).insert(
            set_param_name(props.last().key_spec(), n),
            props.last().value_spec(),
        )
    }
}

/// The joined aliases of `refs`, as RETURN and WITH list them.
pub fn refs_alias_text(refs: &Vec<(String, EntityType)>) -> (r: String)
    ensures
        r@ == join(ref_aliases(refs@.map_values(|x: (String, EntityType)| ref_view(x))), ", "@),
{
    let mut names: Vec<String> = Vec::new();
    let mut i: usize = 0;
    let ghost target = ref_aliases(refs@.map_values(|x: (String, EntityType)| ref_view(x)));
    while i < refs.len()
        invariant
            i <= refs@.len(),
            target == ref_aliases(refs@.map_values(|x: (String, EntityType)| ref_view(x))),
            string_views(names@) == target.take(i as int),
        decreases refs@.len() - i,
    {
        let ghost before = string_views(names@);
        names.push(refs[i].0.clone());
        assert(string_views(names@) =~= before.push(refs@[i as int].0@));
        assert(target.take(i + 1) =~= target.take(i as int).push(target[i as int]));
        i += 1;
    }
    assert(target.take(refs@.len() as int) =~= target);
    join_text(&names, ", ")
}

/// The SET text and parameters for `alias` and `props`, numbered `n`.
pub fn set_text<P: QueryParam>(alias: &str, props: &Vec<P>, n: u32) -> (r: (String, Params))
    ensures
        r.0@ == set_assignments(alias@, props@, n),
        r.1@ == set_params(props@, n),
{
    let number = u32_text(n);
    let mut parts: Vec<String> = Vec::new();
    let mut params = Params::new();
    let ghost target = props@.map_values(
        |p: P| alias@ + "."@ + p.key_spec() + " = $"@ + set_param_name(p.key_spec(), n),
    );
    let mut i: usize = 0;
    while i < props.len()
        invariant
            i <= props@.len(),
            number@ == decimal(n as nat),
            target == props@.map_values(
                |p: P| alias@ + "."@ + p.key_spec() + " = $"@ + set_param_name(p.key_spec(), n),
            ),
            string_views(parts@) == target.take(i as int),
            params@ == set_params(props@.take(i as int), n),
        decreases props@.len() - i,
    {
        let (key, value) = props[i].to_query_param();
        let mut name = String::new();
        name.append("set");
        name.append(number.as_str());
        name.append("_");
        name.append(key);
        let mut part = String::from_str(alias);
        part.append(".");
        part.append(key);
        part.append(" = $");
        part.append(name.as_str());
        params.insert(name, value);
        let ghost before = string_views(parts@);
        parts.push(part);
        assert(string_views(parts@) =~= before.push(part@));
        assert(target.take(i + 1) =~= target.take(i as int).push(target[i as int]));
        assert(props@.take(i + 1).drop_last() =~= props@.take(i as int));
        i += 1;
    }
    assert(target.take(props@.len() as int) =~= target);
    assert(props@.take(props@.len() as int) =~= props@);
    (join_text(&parts, ", "), params)
}

/// Whether `s` ends with `suffix`.
pub open spec fn ends_with(s: Seq<char>, suffix: Seq<char>) -> bool {
    s.len() >= suffix.len() && s.subrange(s.len() - suffix.len(), s.len() as int) == suffix
}

/// Whether `s` ends with `suffix`.
pub fn text_ends_with(s: &str, suffix: &str) -> (r: bool)
    ensures
        r == ends_with(s@, suffix@),
{
    let n = s.unicode_len();
    let m = suffix.unicode_len();
    if m > n {
        return false;
    }
    let tail = s.substring_char(n - m, n);
    crate::text::text_eq(tail, suffix)
}

impl Core {
    /// The empty state.
    pub(crate) fn new() -> (r: Core)
        ensures
            r@ == empty_core(),
    {
        let r = Core {
            query: String::new(),
            params: Params::new(),
            entity_aliases: AliasMap::new(),
            node_number: 0,
            relation_number: 0,
            unwind_number: 0,
            set_number: 0,
            with_number: 0,
            return_refs: Vec::new(),
            previous_entity: Option::None,
            clause: Clause::Unset,
            unioned: false,
            label_start: 0,
        };
        assert(r@.return_refs =~= Seq::<(Seq<char>, EntityType)>::empty());
        assert(r@ =~= empty_core());
        r
    }

    /// An empty state that continues the aliases and numbering of `parent`.
    pub(crate) fn with_parent(parent: &Core) -> (r: Core)
        ensures
            r@ == inherited_core(parent@),
    {
        let r = Core {
            query: String::new(),
            params: Params::new(),
            entity_aliases: parent.entity_aliases.clone(),
            node_number: parent.node_number,
            relation_number: parent.relation_number,
            unwind_number: parent.unwind_number,
            set_number: parent.set_number,
            with_number: parent.with_number,
            return_refs: Vec::new(),
            previous_entity: Option::None,
            clause: Clause::Unset,
            unioned: false,
            label_start: 0,
        };
        assert(r@.return_refs =~= Seq::<(Seq<char>, EntityType)>::empty());
        assert(r@ =~= inherited_core(parent@));
        r
    }

    /// Appends text to the query.
    pub(crate) fn push_query(&mut self, s: &str)
        ensures
            final(self)@ == append_query(old(self)@, s@),
    {
        self.query.append(s);
    }

    /// Starts a statement: a line break unless the query is empty, then the
    /// keyword, and the clause recorded.
    pub(crate) fn start_statement(&mut self, clause: Clause, keyword: &str)
        ensures
            final(self)@ == started(old(self)@, clause, keyword@),
    {
        self.clause = clause;
        if self.query.as_str().unicode_len() != 0 {
            self.query.append("\n");
        }
        self.query.append(keyword);
    }

    /// Chooses the alias of an entity written as the `n`th of its kind, and
    /// gives the entity that alias unless it keeps an earlier one.
    pub(crate) fn assign_alias<T: Neo4gEntity>(&self, entity: &mut T, n: u32) -> (r: String)
        ensures
            r@ == chosen_alias(self@, old(entity).uuid_spec(), fresh_alias(old(entity).label_spec(), n)),
            alias_assigned(self@, *old(entity), *final(entity), fresh_alias(old(entity).label_spec(), n)),
    {
        let label = entity.get_label();
        let mut alias = to_lowercase_text(label.as_str());
        let number = u32_text(n);
        alias.append(number.as_str());
        if self.unioned {
            match self.entity_aliases.get(entity.get_uuid()) {
                Some(a) => {
                    return a;
                },
                Option::None => {
                    entity.set_alias(alias.as_str());
                },
            }
        } else {
            entity.set_alias(alias.as_str());
        }
        alias
    }

    /// Counts one more node and gives its number.
    pub(crate) fn next_node(&mut self) -> (r: u32)
        requires
            old(self)@.node_number < u32::MAX,
        ensures
            r == old(self)@.node_number + 1,
            final(self)@ == (CoreView { node_number: r, ..old(self)@ }),
    {
        self.node_number = self.node_number + 1;
        self.node_number
    }

    /// Counts one more relation and gives its number.
    pub(crate) fn next_relation(&mut self) -> (r: u32)
        requires
            old(self)@.relation_number < u32::MAX,
        ensures
            r == old(self)@.relation_number + 1,
            final(self)@ == (CoreView { relation_number: r, ..old(self)@ }),
    {
        self.relation_number = self.relation_number + 1;
        self.relation_number
    }

    /// Counts one more UNWIND and gives its number.
    pub(crate) fn next_unwind(&mut self) -> (r: u32)
        requires
            old(self)@.unwind_number < u32::MAX,
        ensures
            r == old(self)@.unwind_number + 1,
            final(self)@ == (CoreView { unwind_number: r, ..old(self)@ }),
    {
        self.unwind_number = self.unwind_number + 1;
        self.unwind_number
    }

    /// Counts one more SET and gives its number.
    pub(crate) fn next_set(&mut self) -> (r: u32)
        requires
            old(self)@.set_number < u32::MAX,
        ensures
            r == old(self)@.set_number + 1,
            final(self)@ == (CoreView { set_number: r, ..old(self)@ }),
    {
        self.set_number = self.set_number + 1;
        self.set_number
    }

    /// Counts one more WITH item and gives its number.
    pub(crate) fn next_with(&mut self) -> (r: u32)
        requires
            old(self)@.with_number < u32::MAX,
        ensures
            r == old(self)@.with_number + 1,
            final(self)@ == (CoreView { with_number: r, ..old(self)@ }),
    {
        self.with_number = self.with_number + 1;
        self.with_number
    }

    /// The alias recorded for entity `id`, if any.
    pub(crate) fn lookup_alias(&self, id: u128) -> (r: Option<String>)
        ensures
            r is Some <==> self@.aliases.contains_key(id),
            r matches Some(a) ==> a@ == self@.aliases[id],
    {
        self.entity_aliases.get(id)
    }

    /// The text of `tokens` with each reference replaced by its alias.
    pub(crate) fn render(&self, tokens: &Vec<Token>) -> (r: String)
        ensures
            r@ == resolve(pieces(tokens@), self@.aliases),
    {
        resolve_tokens(tokens, &self.entity_aliases)
    }

    /// Whether any return is recorded.
    pub(crate) fn has_returns(&self) -> (r: bool)
        ensures
            r == (self@.return_refs.len() > 0),
    {
        self.return_refs.len() > 0
    }

    /// The aliases of the returns, separated by `, `.
    pub(crate) fn returns_text(&self) -> (r: String)
        ensures
            r@ == join(ref_aliases(self@.return_refs), ", "@),
    {
        refs_alias_text(&self.return_refs)
    }

    /// Whether the query text ends with `suffix`.
    pub(crate) fn query_ends_with(&self, suffix: &str) -> (r: bool)
        ensures
            r == ends_with(self@.query, suffix@),
    {
        text_ends_with(self.query.as_str(), suffix)
    }

    /// Finishes writing an entity: appends its text and parameters, records
    /// its alias, and makes it the entity `add_to_return` refers to.
    pub(crate) fn finish_entity(
        &mut self,
        id: u128,
        alias: String,
        previous: (String, EntityType),
        text: &str,
        params: Params,
    )
        ensures
            final(self)@ == entity_written(old(self)@, id, alias@, ref_view(previous), text@, params@),
    {
        self.previous_entity = Some(previous);
        self.label_start = self.query.as_str().unicode_len();
        self.query.append(text);
        self.params.extend(params);
        self.entity_aliases.insert(id, alias);
    }

    /// Takes in the state of an inner query called from this one.
    pub(crate) fn absorb(&mut self, head: &str, inner: Core)
        ensures
            final(self)@ == absorbed(old(self)@, head@, inner@),
    {
        self.entity_aliases.extend(inner.entity_aliases);
        self.node_number = inner.node_number;
        self.relation_number = inner.relation_number;
        self.set_number = inner.set_number;
        self.with_number = inner.with_number;
        self.unwind_number = inner.unwind_number;
        self.query.append(head);
        self.query.append(inner.query.as_str());
        self.query.append(" \n}");
        self.params.extend(inner.params);
    }

    /// Forgets the entity `add_to_return` would refer to.
    pub(crate) fn clear_previous(&mut self)
        ensures
            final(self)@ == (CoreView { previous_entity: Option::None, ..old(self)@ }),
    {
        self.previous_entity = Option::None;
    }

    /// Records that a UNION has been written.
    pub(crate) fn mark_unioned(&mut self)
        ensures
            final(self)@ == (CoreView { unioned: true, ..old(self)@ }),
    {
        self.unioned = true;
    }

    /// The query text and parameters.
    pub(crate) fn into_parts(self) -> (r: (String, Params))
        ensures
            r.0@ == self@.query,
            r.1@ == self@.params,
    {
        (self.query, self.params)
    }

    /// The query text, parameters and returns.
    pub(crate) fn into_run_parts(self) -> (r: (String, Params, Vec<(String, EntityType)>))
        ensures
            r.0@ == self@.query,
            r.1@ == self@.params,
            r.2@.map_values(|x: (String, EntityType)| ref_view(x)) == self@.return_refs,
    {
        (self.query, self.params, self.return_refs)
    }

    /// Records `id` as written under `alias`.
    pub(crate) fn record_alias(&mut self, id: u128, alias: String)
        ensures
            final(self)@ == (CoreView { aliases: old(self)@.aliases.insert(id, alias@), ..old(self)@ }),
    {
        self.entity_aliases.insert(id, alias);
    }

    /// Adds parameters; on a shared name the new value wins.
    pub(crate) fn add_params(&mut self, p: Params)
        ensures
            final(self)@ == (CoreView { params: old(self)@.params.union_prefer_right(p@), ..old(self)@ }),
    {
        self.params.extend(p);
    }

    /// Records the entity just written as the one `add_to_return` refers to.
    pub(crate) fn set_previous(&mut self, alias: String, entity_type: EntityType)
        ensures
            final(self)@ == (CoreView { previous_entity: Some((alias@, entity_type)), ..old(self)@ }),
    {
        self.previous_entity = Some((alias, entity_type));
    }

    /// Adds a return reference unless it is already there.
    pub(crate) fn insert_return(&mut self, r: (String, EntityType))
        ensures
            final(self)@ == (CoreView { return_refs: insert_ref(old(self)@.return_refs, ref_view(r)), ..old(self)@ }),
    {
        let ghost old_refs = self@.return_refs;
        let mut i: usize = 0;
        while i < self.return_refs.len()
            invariant
                i <= self.return_refs@.len(),
                old_refs == self.return_refs@.map_values(|x: (String, EntityType)| ref_view(x)),
                forall|j: int| 0 <= j < i ==> old_refs[j] != ref_view(r),
            decreases self.return_refs@.len() - i,
        {
            if self.return_refs[i].0 == r.0 && self.return_refs[i].1 == r.1 {
                assert(old_refs[i as int] == ref_view(r));
                return;
            }
            i += 1;
        }
        assert(!old_refs.contains(ref_view(r)));
        self.return_refs.push(r);
        assert(self@.return_refs =~= old_refs.push(ref_view(r)));
    }

    /// `add_to_return`: adds the entity just written to the returns.
    pub(crate) fn add_previous_to_return(&mut self)
        ensures
            final(self)@ == (match old(self)@.previous_entity {
                Some(p) => CoreView { return_refs: insert_ref(old(self)@.return_refs, p), ..old(self)@ },
                Option::None => old(self)@,
            }),
    {
        match &self.previous_entity {
            Some(p) => {
                let pe = (p.0.clone(), p.1);
                self.insert_return(pe);
            },
            Option::None => {},
        }
    }

    /// Replaces the returns by the references `refs`, each kept once.
    pub(crate) fn replace_returns(&mut self, refs: Vec<(String, EntityType)>)
        ensures
            final(self)@ == (CoreView {
                return_refs: dedup_refs(refs@.map_values(|x: (String, EntityType)| ref_view(x))),
                ..old(self)@
            }),
    {
        self.return_refs = Vec::new();
        let ghost src = refs@.map_values(|x: (String, EntityType)| ref_view(x));
        let mut i: usize = 0;
        assert(self@.return_refs =~= dedup_refs(src.take(0)));
        while i < refs.len()
            invariant
                i <= refs@.len(),
                src == refs@.map_values(|x: (String, EntityType)| ref_view(x)),
                self@ == (CoreView { return_refs: dedup_refs(src.take(i as int)), ..old(self)@ }),
            decreases refs@.len() - i,
        {
            assert(src.take(i + 1).drop_last() =~= src.take(i as int));
            let r = (refs[i].0.clone(), refs[i].1);
            self.insert_return(r);
            i += 1;
        }
        assert(src.take(refs@.len() as int) =~= src);
    }

    /// Marks the end of the query as the start of the entity written next.
    pub(crate) fn begin_entity(&mut self)
        ensures
            final(self)@ == entity_begun(old(self)@),
    {
        self.label_start = self.query.as_str().unicode_len();
    }

    /// Puts the labels, separated by `:`, in place of the additional-labels
    /// placeholder of the entity written last.
    pub(crate) fn apply_labels<L: Neo4gLabel>(&mut self, labels: &[L])
        ensures
            final(self)@ == labels_applied(old(self)@, labels@.map_values(|l: L| l.label_text())),
    {
        let mut names: Vec<String> = Vec::new();
        let ghost target = labels@.map_values(|l: L| l.label_text());
        let mut i: usize = 0;
        while i < labels.len()
            invariant
                i <= labels@.len(),
                target == labels@.map_values(|l: L| l.label_text()),
                string_views(names@) == target.take(i as int),
            decreases labels@.len() - i,
        {
            let ghost before = string_views(names@);
            let t = labels[i].to_string();
            names.push(t);
            assert(string_views(names@) =~= before.push(t@));
            assert(target.take(i + 1) =~= target.take(i as int).push(target[i as int]));
            i += 1;
        }
        assert(target.take(labels@.len() as int) =~= target);
        let joined = join_text(&names, ":");
        proof {
            reveal_strlit("AdditionalLabels");
        }
        let n = self.query.as_str().unicode_len();
        let start = if self.label_start <= n {
            self.label_start
        } else {
            n
        };
        let mut text = String::from_str(self.query.as_str().substring_char(0, start));
        let tail = replace_text(self.query.as_str().substring_char(start, n), "AdditionalLabels", joined.as_str());
        text.append(tail.as_str());
        self.query = text;
    }

    /// Removes every `:AdditionalLabels` placeholder left in the query.
    pub(crate) fn drop_label_placeholders(&mut self)
        ensures
            final(self)@ == (CoreView {
                query: replace_all(old(self)@.query, ":AdditionalLabels"@, Seq::empty()),
                ..old(self)@
            }),
    {
        proof {
            reveal_strlit(":AdditionalLabels");
        }
        let empty = String::new();
        self.query = replace_text(self.query.as_str(), ":AdditionalLabels", empty.as_str());
    }
}

} // verus!
