//! The node and relation patterns entity types write into queries, with the
//! parameters they need.
use vstd::prelude::*;
use vstd::string::*;
use neo4rs::BoltType;
use crate::collections::Params;
use crate::external::{lower_form, to_lowercase_text};
use crate::text::{join, join_text, string_views};
use crate::traits::QueryParam;

verus! {

/// The name of the parameter that carries property `key` of the entity
/// aliased `alias`: the lowercased alias, `_`, the key.
pub open spec fn param_name(alias: Seq<char>, key: Seq<char>) -> Seq<char> {
    lower_form(alias) + "_"@ + key
}

/// The property entries of a pattern: `key: $<param name>` for each.
pub open spec fn prop_entries<P: QueryParam>(alias: Seq<char>, props: Seq<P>) -> Seq<Seq<char>> {
    props.map_values(|p: P| p.key_spec() + ": $"@ + param_name(alias, p.key_spec()))
}

/// The parameters of a pattern: each property's value under its parameter
/// name, later properties winning.
pub open spec fn prop_params<P: QueryParam>(alias: Seq<char>, props: Seq<P>) -> Map<Seq<char>, BoltType>
    decreases props.len(),
{
    if props.len() == 0 {
        Map::empty()
    } else {
        prop_params(alias, props.drop_last()).insert(
            param_name(alias, props.last().key_spec()),
            props.last().value_spec(),
        )
    }
}

/// A node pattern: `(alias:Label:AdditionalLabels {entries})`.
pub open spec fn node_pattern<P: QueryParam>(label: Seq<char>, alias: Seq<char>, props: Seq<P>) -> Seq<char> {
    "("@ + alias + ":"@ + label + ":AdditionalLabels {"@ + join(prop_entries(alias, props), ", "@) + "})"@
}

/// A relation pattern: `-[alias:TYPE {entries }]->`, or, with no
/// properties, `-[alias:TYPE*min_hops..]->` for the number of hops to be put
/// in.
pub open spec fn relation_pattern<P: QueryParam>(label: Seq<char>, alias: Seq<char>, props: Seq<P>) -> Seq<char> {
    "-["@ + alias + ":"@ + label + (if props.len() > 0 {
        " {"@ + join(prop_entries(alias, props), ", "@) + " }"@
    } else {
        "*min_hops.."@
    }) + "]->"@
}

/// The entries and parameters of a pattern for `props`.
fn entries<P: QueryParam>(alias: &str, props: &[P]) -> (r: (String, Params))
    ensures
        r.0@ == join(prop_entries(alias@, props@), ", "@),
        r.1@ == prop_params(alias@, props@),
{
    let lower = to_lowercase_text(alias);
    let mut parts: Vec<String> = Vec::new();
    let mut params = Params::new();
    let ghost target = prop_entries(alias@, props@);
    let mut i: usize = 0;
    while i < props.len()
        invariant
            i <= props@.len(),
            lower@ == lower_form(alias@),
            target == prop_entries(alias@, props@),
            string_views(parts@) == target.take(i as int),
            params@ == prop_params(alias@, props@.take(i as int)),
        decreases props@.len() - i,
    {
        let (key, value) = props[i].to_query_param();
        let mut name = lower.clone();
        name.append("_");
        name.append(key);
        let mut entry = String::from_str(key);
        entry.append(": $");
        entry.append(name.as_str());
        params.insert(name, value);
        let ghost before = string_views(parts@);
        parts.push(entry);
        assert(string_views(parts@) =~= before.push(target[i as int]));
        assert(target.take(i + 1) =~= target.take(i as int).push(target[i as int]));
        assert(props@.take(i + 1).drop_last() =~= props@.take(i as int));
        i += 1;
    }
    assert(target.take(props@.len() as int) =~= target);
    assert(props@.take(props@.len() as int) =~= props@);
    (join_text(&parts, ", "), params)
}

/// Renders a node pattern for `props` under `alias`.
pub fn node_by<P: QueryParam>(label: &str, alias: &str, props: &[P]) -> (r: (String, Params))
    ensures
        r.0@ == node_pattern(label@, alias@, props@),
        r.1@ == prop_params(alias@, props@),
{
    let (body, params) = entries(alias, props);
    let mut q = String::from_str("(");
    q.append(alias);
    q.append(":");
    q.append(label);
    q.append(":AdditionalLabels {");
    q.append(body.as_str());
    q.append("})");
    (q, params)
}

/// Renders a relation pattern for `props` under `alias`.
pub fn relation_by<P: QueryParam>(label: &str, alias: &str, props: &[P]) -> (r: (String, Params))
    ensures
        r.0@ == relation_pattern(label@, alias@, props@),
        r.1@ == prop_params(alias@, props@),
{
    let (body, params) = entries(alias, props);
    let mut q = String::from_str("-[");
    q.append(alias);
    q.append(":");
    q.append(label);
    if props.len() > 0 {
        q.append(" {");
        q.append(body.as_str());
        q.append(" }");
    } else {
        q.append("*min_hops..");
    }
    q.append("]->");
    (q, params)
}

} // verus!
