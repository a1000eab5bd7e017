//! What holds of the builder across calls: returns are a set, arrays are
//! passed once, aliases are unique and survive a UNION, filters and SETs
//! chain, filters list every entity they refer to, a flipped relation is the
//! plain one turned round, additional labels go to the last node, and a
//! stored component kind reads back as itself.
use vstd::prelude::*;
use crate::arrays::Array;
use crate::builder::{
    MatchView, MergeView, array_item, arrays_view, create_node_view, entity_alias, flipped, flipped_view,
    function_item_view, match_filter_view, merge_set_view, node_by_text, node_by_view, placeholders_dropped,
    relation_view, set_counted, single_hop, with_item_sep, with_previous_returned,
};
use crate::functions::FunctionCall;
use crate::objects::{ComponentType, component_type_named, component_type_read};
use crate::external::{ascii_lower, is_ascii_text, lower_form};
use crate::collections::{Piece, resolve};
use crate::filter::{
    OperatorView, WhereView, by_aliasable_view, condition_prop_view, condition_view, nest_view,
    prop_suffix, text_condition_view,
};
use crate::state::{
    CoreView, absorbed, alias_assigned, dedup_refs, entity_written, fresh_alias, insert_ref, keeps_alias,
    labels_applied, set_assignments,
};
use crate::text::{decimal, digit_char, join, occurs_at, replace_all};
use crate::traits::{Aliasable, Neo4gEntity, QueryParam};
use crate::types::{CompOper, CompareJoiner, EntityType, OnString};

verus! {

/// Adding the entity just written to the returns a second time changes
/// nothing.
pub proof fn law_add_to_return_idempotent(c: CoreView)
    ensures
        with_previous_returned(with_previous_returned(c)) == with_previous_returned(c),
{
    if let Some(p) = c.previous_entity {
        lemma_insert_ref(c.return_refs, p);
        assert(with_previous_returned(c).return_refs.contains(p));
    }
}

/// The returns never hold the same alias and type twice: adding to returns
/// that hold no duplicate leaves none.
pub proof fn law_returns_stay_distinct(c: CoreView)
    requires
        c.return_refs.no_duplicates(),
    ensures
        with_previous_returned(c).return_refs.no_duplicates(),
        forall|x: (Seq<char>, EntityType)|
            with_previous_returned(c).return_refs.contains(x) <==> (c.return_refs.contains(x) || Some(x)
                == c.previous_entity),
{
    if let Some(p) = c.previous_entity {
        lemma_insert_ref(c.return_refs, p);
    }
}

proof fn lemma_insert_ref(refs: Seq<(Seq<char>, EntityType)>, r: (Seq<char>, EntityType))
    ensures
        refs.no_duplicates() ==> insert_ref(refs, r).no_duplicates(),
        forall|x: (Seq<char>, EntityType)| insert_ref(refs, r).contains(x) <==> (refs.contains(x) || x == r),
{
    if !refs.contains(r) {
        assert forall|x: (Seq<char>, EntityType)| refs.push(r).contains(x) <==> (refs.contains(x) || x == r) by {
            if refs.push(r).contains(x) {
                let i = choose|i: int| 0 <= i < refs.push(r).len() && refs.push(r)[i] == x;
                if i < refs.len() {
                    assert(refs[i] == x);
                }
            }
            if refs.contains(x) {
                let i = choose|i: int| 0 <= i < refs.len() && refs[i] == x;
                assert(refs.push(r)[i] == x);
            }
            if x == r {
                assert(refs.push(r)[refs.len() as int] == x);
            }
        }
        if refs.no_duplicates() {
            assert forall|i: int, j: int|
                0 <= i < refs.push(r).len() && 0 <= j < refs.push(r).len() && i != j implies refs.push(r)[i]
                != refs.push(r)[j] by {
                if i == refs.len() {
                    assert(refs[j] != r);
                } else if j == refs.len() {
                    assert(refs[i] != r);
                }
            }
        }
    }
}

/// The returns `set_returns` records hold each given alias and type exactly
/// once.
pub proof fn law_set_returns_distinct(refs: Seq<(Seq<char>, EntityType)>)
    ensures
        dedup_refs(refs).no_duplicates(),
        forall|x: (Seq<char>, EntityType)| dedup_refs(refs).contains(x) <==> refs.contains(x),
    decreases refs.len(),
{
    if refs.len() > 0 {
        law_set_returns_distinct(refs.drop_last());
        lemma_insert_ref(dedup_refs(refs.drop_last()), refs.last());
        assert forall|x: (Seq<char>, EntityType)| refs.contains(x) <==> (refs.drop_last().contains(x) || x
            == refs.last()) by {
            if refs.contains(x) {
                let i = choose|i: int| 0 <= i < refs.len() && refs[i] == x;
                if i < refs.len() - 1 {
                    assert(refs.drop_last()[i] == x);
                }
            }
            if refs.drop_last().contains(x) {
                let i = choose|i: int| 0 <= i < refs.drop_last().len() && refs.drop_last()[i] == x;
                assert(refs[i] == x);
            }
            if x == refs.last() {
                assert(refs[refs.len() - 1] == x);
            }
        }
    } else {
        assert(dedup_refs(refs) =~= Seq::<(Seq<char>, EntityType)>::empty());
    }
}

/// An array's list is passed as a parameter only once: listing arrays that
/// were all passed before adds no parameter and writes their bare aliases.
pub proof fn law_arrays_passed_once(c: CoreView, arrs: Seq<Array>)
    requires
        forall|i: int| 0 <= i < arrs.len() ==> (#[trigger] arrs[i]).is_built_spec(),
    ensures
        arrays_view(c, arrs).params == c.params,
        arrays_view(c, arrs).query == c.query + with_item_sep(c.query) + join(
            arrs.map_values(|a: Array| a.alias_spec()),
            ", "@,
        ),
    decreases arrs.len(),
{
    lemma_built_params(c.params, arrs);
    assert(arrs.map_values(|a: Array| array_item(a)) =~= arrs.map_values(|a: Array| a.alias_spec()));
}

proof fn lemma_built_params(p: Map<Seq<char>, neo4rs::BoltType>, arrs: Seq<Array>)
    requires
        forall|i: int| 0 <= i < arrs.len() ==> (#[trigger] arrs[i]).is_built_spec(),
    ensures
        crate::builder::array_params(p, arrs) == p,
    decreases arrs.len(),
{
    if arrs.len() > 0 {
        assert(arrs.last() == arrs[arrs.len() - 1]);
        assert forall|i: int| 0 <= i < arrs.drop_last().len() implies (#[trigger] arrs.drop_last()[i]).is_built_spec() by {
            assert(arrs.drop_last()[i] == arrs[i]);
        }
        lemma_built_params(p, arrs.drop_last());
    }
}

/// Reading back the value stored for a component kind gives that kind.
pub proof fn law_component_type_round_trip(t: ComponentType)
    ensures
        component_type_read(t.name()) == t,
{
    reveal_strlit("Type1");
    reveal_strlit("Type2");
    assert("Type1"@[4] != "Type2"@[4]);
}

/// A component kind's name, read back in any case, gives that kind.
pub proof fn law_component_type_name_round_trip(t: ComponentType)
    ensures
        component_type_named(t.name()) == t,
{
    reveal_strlit("Type1");
    reveal_strlit("Type2");
    reveal_strlit("type2");
    assert(is_ascii_text("Type1"@));
    assert(is_ascii_text("Type2"@));
    assert(ascii_lower("Type2"@) =~= "type2"@);
    assert(ascii_lower("Type1"@)[4] != "type2"@[4]);
}

/// A joiner's keyword reads back as that joiner.
pub proof fn law_joiner_round_trip(j: CompareJoiner)
    ensures
        CompareJoiner::parsed(j.keyword()) == Some(j),
{
    reveal_strlit("AND");
    reveal_strlit("OR");
    reveal_strlit("NOT");
    reveal_strlit("and");
    reveal_strlit("or");
    reveal_strlit("not");
    assert(is_ascii_text("AND"@));
    assert(is_ascii_text("OR"@));
    assert(is_ascii_text("NOT"@));
    assert(ascii_lower("AND"@) =~= "and"@);
    assert(ascii_lower("OR"@) =~= "or"@);
    assert(ascii_lower("NOT"@) =~= "not"@);
    assert("not"@[0] != "and"@[0]);
    assert("or"@.len() != "and"@.len());
    assert("not"@.len() != "or"@.len());
}

/// Reading a joiner ignores case: texts with the same lower case name the
/// same joiner, or none.
pub proof fn law_joiner_ignores_case(s: Seq<char>, t: Seq<char>)
    requires
        lower_form(s) == lower_form(t),
    ensures
        CompareJoiner::parsed(s) == CompareJoiner::parsed(t),
{
}

/// `relation_flipped` writes what `relation` writes with the arrow turned to
/// point right to left, and changes everything else alike: the count, the
/// alias, the parameters and what `add_to_return` refers to.
pub proof fn law_flipped_is_relation_turned<T: Neo4gEntity>(c: CoreView, before: T, after: T, props: Seq<T::Props>)
    ensures
        ({
            let text = single_hop(
                after.pattern_text(entity_alias(c, before, (c.relation_number + 1) as u32), props),
            );
            &&& relation_view(c, before, after, props).query == c.query + text
            &&& flipped_view(c, before, after, props).query == c.query + flipped(text)
            &&& flipped_view(c, before, after, props) == (CoreView {
                query: c.query + flipped(text),
                ..relation_view(c, before, after, props)
            })
        }),
{
}

/// Called on the same statement and the same entity, `relation_flipped`
/// writes what `relation` writes with the arrow turned, and leaves the same
/// count, parameters, aliases and returns behind; the entity gets the same
/// alias from both.
pub proof fn law_flipped_call_is_relation_call_turned<T: Neo4gEntity>(
    c: CoreView,
    before: T,
    after_plain: T,
    after_flipped: T,
    props: Seq<T::Props>,
)
    requires
        alias_assigned(c, before, after_plain, fresh_alias(before.label_spec(), (c.relation_number + 1) as u32)),
        alias_assigned(c, before, after_flipped, fresh_alias(before.label_spec(), (c.relation_number + 1) as u32)),
    ensures
        after_flipped.alias_spec() == after_plain.alias_spec(),
        ({
            let plain = relation_view(c, before, after_plain, props);
            flipped_view(c, before, after_flipped, props) == (CoreView {
                query: c.query + flipped(plain.query.subrange(c.query.len() as int, plain.query.len() as int)),
                ..plain
            })
        }),
{
    if !keeps_alias(c, before.uuid_spec()) {
        T::lemma_alias_free(&after_plain, &before);
        T::lemma_alias_free(&after_flipped, &before);
    }
    let alias = entity_alias(c, before, (c.relation_number + 1) as u32);
    let text = single_hop(after_plain.pattern_text(alias, props));
    let plain = relation_view(c, before, after_plain, props);
    assert(plain.query == c.query + text);
    assert(plain.query.subrange(c.query.len() as int, plain.query.len() as int) =~= text);
}

/// `set_additional_labels` right after a node is written puts the labels
/// into that node's placeholder alone: the query before the node stays as it
/// was, and the node's text gets the labels, separated by `:`.
pub proof fn law_labels_apply_to_last_node<T: Neo4gEntity>(
    c: CoreView,
    before: T,
    after: T,
    props: Seq<T::Props>,
    labels: Seq<Seq<char>>,
)
    ensures
        labels_applied(node_by_view(c, before, after, props), labels) == (CoreView {
            query: c.query + replace_all(
                node_by_text(after, entity_alias(c, before, (c.node_number + 1) as u32), before.label_spec(), props),
                "AdditionalLabels"@,
                join(labels, ":"@),
            ),
            ..node_by_view(c, before, after, props)
        }),
{
    let w = node_by_view(c, before, after, props);
    let text = node_by_text(after, entity_alias(c, before, (c.node_number + 1) as u32), before.label_spec(), props);
    assert(w.query == c.query + text);
    assert(w.query.subrange(0, c.query.len() as int) =~= c.query);
    assert(w.query.subrange(c.query.len() as int, w.query.len() as int) =~= text);
}

/// After a UNION, an entity that already has an alias in the query is
/// written under that alias again, and `add_to_return` refers to it by it.
pub proof fn law_union_keeps_aliases<T: Neo4gEntity>(c: CoreView, e: T, props: Seq<T::Props>)
    requires
        c.unioned,
        c.aliases.contains_key(e.uuid_spec()),
    ensures
        create_node_view(c, e, e).aliases == c.aliases,
        create_node_view(c, e, e).previous_entity == Some((c.aliases[e.uuid_spec()], EntityType::Node)),
        node_by_view(c, e, e, props).aliases == c.aliases,
        node_by_view(c, e, e, props).previous_entity == Some(
            (c.aliases[e.uuid_spec()], EntityType::Node),
        ),
{
    assert(c.aliases.insert(e.uuid_spec(), c.aliases[e.uuid_spec()]) =~= c.aliases);
}

proof fn lemma_decimal_len(n: nat)
    ensures
        decimal(n).len() >= 1,
        n >= 10 ==> decimal(n).len() >= 2,
    decreases n,
{
    if n >= 10 {
        lemma_decimal_len(n / 10);
    }
}

proof fn lemma_digit_injective(a: nat, b: nat)
    requires
        a < 10,
        b < 10,
        digit_char(a) == digit_char(b),
    ensures
        a == b,
{
}

proof fn lemma_decimal_injective(n: nat, m: nat)
    requires
        decimal(n) == decimal(m),
    ensures
        n == m,
    decreases n,
{
    lemma_decimal_len(n);
    lemma_decimal_len(m);
    if n < 10 && m < 10 {
        assert(decimal(n) =~= seq![digit_char(n)]);
        assert(decimal(m) =~= seq![digit_char(m)]);
        assert(decimal(n)[0] == digit_char(n));
        assert(decimal(m)[0] == digit_char(m));
        lemma_digit_injective(n, m);
    } else if n >= 10 && m >= 10 {
        assert(decimal(n).drop_last() =~= decimal(n / 10));
        assert(decimal(m).drop_last() =~= decimal(m / 10));
        assert(decimal(n).last() == digit_char(n % 10));
        assert(decimal(m).last() == digit_char(m % 10));
        lemma_digit_injective(n % 10, m % 10);
        assert(decimal(n / 10) == decimal(m / 10));
        lemma_decimal_injective(n / 10, m / 10);
    }
}

/// Entities of one label written as different numbers get different
/// aliases.
pub proof fn law_fresh_aliases_distinct(label: Seq<char>, n: u32, m: u32)
    requires
        n != m,
    ensures
        fresh_alias(label, n) != fresh_alias(label, m),
{
    let lower = crate::external::lower_form(label);
    if fresh_alias(label, n) == fresh_alias(label, m) {
        assert((lower + decimal(n as nat)).subrange(lower.len() as int, (lower + decimal(n as nat)).len() as int)
            =~= decimal(n as nat));
        assert((lower + decimal(m as nat)).subrange(lower.len() as int, (lower + decimal(m as nat)).len() as int)
            =~= decimal(m as nat));
        lemma_decimal_injective(n as nat, m as nat);
    }
}

/// The first filter of a MATCH opens its WHERE clause and a second one
/// continues it, so two filters read as one run of conditions.
pub proof fn law_match_filters_chain(m: MatchView, w1: WhereView, w2: WhereView)
    requires
        m.where_str.len() == 0,
    ensures
        match_filter_view(match_filter_view(m, w1), w2).core.query == m.core.query + "\nWHERE "@ + resolve(
            w1.text,
            m.core.aliases,
        ) + resolve(w2.text, m.core.aliases),
        match_filter_view(match_filter_view(m, w1), w2).where_str == "\nWHERE "@ + resolve(
            w1.text,
            m.core.aliases,
        ) + resolve(w2.text, m.core.aliases),
{
    let once = match_filter_view(m, w1);
    reveal_strlit("\nWHERE ");
    assert("\nWHERE "@.len() == 7);
    assert(once.where_str.len() > 0);
    assert(match_filter_view(once, w2).core.query =~= m.core.query + "\nWHERE "@ + resolve(w1.text, m.core.aliases)
        + resolve(w2.text, m.core.aliases));
    assert(match_filter_view(once, w2).where_str =~= "\nWHERE "@ + resolve(w1.text, m.core.aliases) + resolve(
        w2.text,
        m.core.aliases,
    ));
}

/// Two SETs after ON CREATE share one SET clause: the first opens it, the
/// second follows after a comma, and each is numbered in turn.
pub proof fn law_merge_sets_share_clause<P: QueryParam, R: QueryParam>(
    m: MergeView,
    a1: Seq<char>,
    p1: Seq<P>,
    a2: Seq<char>,
    p2: Seq<R>,
)
    requires
        m.current_on == OnString::Create,
        m.on_create == "\nON CREATE"@,
        m.core.set_number < u32::MAX - 1,
    ensures
        merge_set_view(merge_set_view(m, a1, p1), a2, p2).on_create == "\nON CREATE"@ + "\nSET "@
            + set_assignments(a1, p1, (m.core.set_number + 1) as u32) + ", "@ + set_assignments(
            a2,
            p2,
            (m.core.set_number + 2) as u32,
        ),
        merge_set_view(merge_set_view(m, a1, p1), a2, p2).core.set_number == m.core.set_number + 2,
{
    let once = merge_set_view(m, a1, p1);
    reveal_strlit("\nSET ");
    assert(once.on_create.len() > "\nON CREATE"@.len());
    assert(once.on_create != "\nON CREATE"@);
    assert(merge_set_view(once, a2, p2).on_create =~= "\nON CREATE"@ + "\nSET "@ + set_assignments(
        a1,
        p1,
        (m.core.set_number + 1) as u32,
    ) + ", "@ + set_assignments(a2, p2, (m.core.set_number + 2) as u32));
}

/// Whether every entity reference in `text` is among `ids`.
pub open spec fn refs_listed(text: Seq<Piece>, ids: Seq<u128>) -> bool {
    forall|i: int| 0 <= i < text.len() ==> (#[trigger] text[i] matches Piece::Ref(id) ==> ids.contains(id))
}

proof fn lemma_contains_concat(a: Seq<u128>, b: Seq<u128>)
    ensures
        forall|x: u128| (a + b).contains(x) <==> (a.contains(x) || b.contains(x)),
{
    assert forall|x: u128| (a + b).contains(x) <==> (a.contains(x) || b.contains(x)) by {
        if (a + b).contains(x) {
            let k = choose|k: int| 0 <= k < (a + b).len() && (a + b)[k] == x;
            if k < a.len() {
                assert(a[k] == x);
            } else {
                assert(b[k - a.len()] == x);
            }
        }
        if a.contains(x) {
            let k = choose|k: int| 0 <= k < a.len() && a[k] == x;
            assert((a + b)[k] == x);
        }
        if b.contains(x) {
            let k = choose|k: int| 0 <= k < b.len() && b[k] == x;
            assert((a + b)[a.len() + k] == x);
        }
    }
}

proof fn lemma_refs_listed_mono(text: Seq<Piece>, ids: Seq<u128>, wider: Seq<u128>)
    requires
        refs_listed(text, ids),
        forall|x: u128| ids.contains(x) ==> wider.contains(x),
    ensures
        refs_listed(text, wider),
{
    assert forall|i: int| 0 <= i < text.len() implies (#[trigger] text[i] matches Piece::Ref(id) ==> wider.contains(
        id,
    )) by {
        if let Piece::Ref(id) = text[i] {
            assert(ids.contains(id));
        }
    }
}

proof fn lemma_refs_listed_concat(a: Seq<Piece>, b: Seq<Piece>, ids: Seq<u128>)
    requires
        refs_listed(a, ids),
        refs_listed(b, ids),
    ensures
        refs_listed(a + b, ids),
{
    assert forall|i: int| 0 <= i < (a + b).len() implies (#[trigger] (a + b)[i] matches Piece::Ref(id) ==> ids.contains(
        id,
    )) by {
        if i < a.len() {
            assert((a + b)[i] == a[i]);
        } else {
            assert((a + b)[i] == b[i - a.len()]);
        }
    }
}

/// A filter lists every entity it refers to: each way of adding a condition
/// keeps every reference in the text among the ids, given that the parts it
/// adds list theirs.
pub proof fn law_filter_refs_listed(
    w: WhereView,
    p_text: Seq<Piece>,
    p_ids: Seq<u128>,
    p_params: Map<Seq<char>, neo4rs::BoltType>,
    op: OperatorView,
    alias: Seq<char>,
    id: u128,
    key: Option<Seq<char>>,
    text: Seq<char>,
    inner: WhereView,
    operator: CompOper,
)
    requires
        refs_listed(w.text, w.ids),
        refs_listed(p_text, p_ids),
        refs_listed(op.text, op.ids),
        refs_listed(inner.text, inner.ids),
    ensures
        refs_listed(
            condition_view(w, p_text, p_ids, p_params, op).text,
            condition_view(w, p_text, p_ids, p_params, op).ids,
        ),
        refs_listed(
            condition_prop_view(w, alias, id, key, op).text,
            condition_prop_view(w, alias, id, key, op).ids,
        ),
        refs_listed(text_condition_view(w, text).text, text_condition_view(w, text).ids),
        refs_listed(nest_view(w, inner).text, nest_view(w, inner).ids),
        refs_listed(by_aliasable_view(operator, alias, id).text, by_aliasable_view(operator, alias, id).ids),
{
    // A condition on a paramable.
    let cv = condition_view(w, p_text, p_ids, p_params, op);
    let lhs = crate::filter::lhs_pieces(p_text, p_ids);
    lemma_contains_concat(w.ids, op.ids);
    lemma_contains_concat(w.ids + op.ids, p_ids);
    assert(refs_listed(lhs, p_ids)) by {
        if lhs != p_text {
            assert(p_ids.contains(p_ids[0]));
        }
    }
    lemma_refs_listed_mono(w.text, w.ids, cv.ids);
    lemma_refs_listed_mono(lhs, p_ids, cv.ids);
    lemma_refs_listed_mono(op.text, op.ids, cv.ids);
    assert(refs_listed(seq![Piece::Text(" "@)], cv.ids));
    lemma_refs_listed_concat(w.text, lhs, cv.ids);
    lemma_refs_listed_concat(w.text + lhs, seq![Piece::Text(" "@)], cv.ids);
    lemma_refs_listed_concat(w.text + lhs + seq![Piece::Text(" "@)], op.text, cv.ids);

    // A condition on an entity's property.
    let pv = condition_prop_view(w, alias, id, key, op);
    let subject = if alias.len() == 0 {
        Piece::Ref(id)
    } else {
        Piece::Text(alias)
    };
    let own = if alias.len() == 0 {
        op.ids.push(id)
    } else {
        op.ids
    };
    lemma_contains_concat(w.ids, own);
    lemma_contains_concat(op.ids, seq![id]);
    assert(op.ids.push(id) =~= op.ids + seq![id]);
    assert(seq![id][0] == id);
    assert(seq![id].contains(id));
    assert(refs_listed(seq![subject, Piece::Text(prop_suffix(key) + " "@)], pv.ids)) by {
        if alias.len() == 0 {
            assert(own.contains(id));
        }
    }
    lemma_refs_listed_mono(w.text, w.ids, pv.ids);
    lemma_refs_listed_mono(op.text, op.ids, pv.ids);
    lemma_refs_listed_concat(w.text, seq![subject, Piece::Text(prop_suffix(key) + " "@)], pv.ids);
    lemma_refs_listed_concat(w.text + seq![subject, Piece::Text(prop_suffix(key) + " "@)], op.text, pv.ids);

    // A condition written as text.
    assert(w.text.push(Piece::Text(text)) =~= w.text + seq![Piece::Text(text)]);
    lemma_refs_listed_concat(w.text, seq![Piece::Text(text)], w.ids);

    // A nested group of conditions.
    let nv = nest_view(w, inner);
    lemma_contains_concat(w.ids, inner.ids);
    lemma_refs_listed_mono(w.text, w.ids, nv.ids);
    lemma_refs_listed_mono(inner.text, inner.ids, nv.ids);
    assert(refs_listed(seq![Piece::Text("("@)], nv.ids));
    assert(refs_listed(seq![Piece::Text(")"@)], nv.ids));
    lemma_refs_listed_concat(w.text, seq![Piece::Text("("@)], nv.ids);
    lemma_refs_listed_concat(w.text + seq![Piece::Text("("@)], inner.text, nv.ids);
    lemma_refs_listed_concat(w.text + seq![Piece::Text("("@)] + inner.text, seq![Piece::Text(")"@)], nv.ids);

    // An operator comparing with an aliasable.
    assert(seq![id][0] == id);
    assert(seq![id].contains(id));
}

proof fn lemma_array_names_grow(c: CoreView, arrs: Seq<Array>)
    ensures
        c.params.dom().subset_of(crate::builder::array_params(c.params, arrs).dom()),
        c.aliases.dom().subset_of(crate::builder::array_aliases(c.aliases, arrs).dom()),
    decreases arrs.len(),
{
    if arrs.len() > 0 {
        lemma_array_names_grow(c, arrs.drop_last());
    }
}

/// No step loses a parameter or an alias: writing an entity, calling an
/// inner query, counting a SET, listing arrays or a function call after WITH,
/// and filtering a MATCH each keep every parameter name and every entity id
/// that was recorded before.
pub proof fn law_names_only_grow<P: QueryParam>(
    c: CoreView,
    id: u128,
    alias: Seq<char>,
    previous: (Seq<char>, EntityType),
    text: Seq<char>,
    params: Map<Seq<char>, neo4rs::BoltType>,
    head: Seq<char>,
    inner: CoreView,
    props: Seq<P>,
    arrs: Seq<Array>,
    f: FunctionCall,
    m: MatchView,
    w: WhereView,
)
    ensures
        c.params.dom().subset_of(entity_written(c, id, alias, previous, text, params).params.dom()),
        c.aliases.dom().subset_of(entity_written(c, id, alias, previous, text, params).aliases.dom()),
        c.params.dom().subset_of(absorbed(c, head, inner).params.dom()),
        c.aliases.dom().subset_of(absorbed(c, head, inner).aliases.dom()),
        c.params.dom().subset_of(set_counted(c, props).params.dom()),
        c.params.dom().subset_of(arrays_view(c, arrs).params.dom()),
        c.aliases.dom().subset_of(arrays_view(c, arrs).aliases.dom()),
        c.params.dom().subset_of(function_item_view(c, f).params.dom()),
        c.aliases.dom().subset_of(function_item_view(c, f).aliases.dom()),
        m.core.params.dom().subset_of(match_filter_view(m, w).core.params.dom()),
        m.core.aliases == match_filter_view(m, w).core.aliases,
{
    lemma_array_names_grow(c, arrs);
}

proof fn lemma_resolve_append(a: Seq<Piece>, b: Seq<Piece>, aliases: Map<u128, Seq<char>>)
    ensures
        resolve(a + b, aliases) == resolve(a, aliases) + resolve(b, aliases),
    decreases b.len(),
{
    if b.len() == 0 {
        assert(a + b =~= a);
        assert(resolve(a, aliases) + resolve(b, aliases) =~= resolve(a, aliases));
    } else {
        assert((a + b).drop_last() =~= a + b.drop_last());
        lemma_resolve_append(a, b.drop_last(), aliases);
        assert(resolve(a + b, aliases) =~= resolve(a, aliases) + resolve(b, aliases));
    }
}

proof fn lemma_resolve_text(t: Seq<char>, aliases: Map<u128, Seq<char>>)
    ensures
        resolve(seq![Piece::Text(t)], aliases) == t,
{
    assert(seq![Piece::Text(t)].drop_last() =~= Seq::<Piece>::empty());
    assert(resolve(Seq::<Piece>::empty(), aliases) == Seq::<char>::empty());
    assert(seq![Piece::Text(t)].last() == Piece::Text(t));
    assert(Seq::<char>::empty() + t =~= t);
}

/// A filter renders condition by condition: with one more condition it
/// renders as before, then the condition's subject, a space and its
/// operator; a nested group renders in parentheses after it; each
/// reference becomes its alias.
pub proof fn law_filter_renders_in_order(
    w: WhereView,
    p_text: Seq<Piece>,
    p_ids: Seq<u128>,
    p_params: Map<Seq<char>, neo4rs::BoltType>,
    op: OperatorView,
    inner: WhereView,
    aliases: Map<u128, Seq<char>>,
)
    ensures
        resolve(condition_view(w, p_text, p_ids, p_params, op).text, aliases) == resolve(w.text, aliases)
            + resolve(crate::filter::lhs_pieces(p_text, p_ids), aliases) + " "@ + resolve(op.text, aliases),
        resolve(nest_view(w, inner).text, aliases) == resolve(w.text, aliases) + "("@ + resolve(
            inner.text,
            aliases,
        ) + ")"@,
{
    let lhs = crate::filter::lhs_pieces(p_text, p_ids);
    let sp = seq![Piece::Text(" "@)];
    lemma_resolve_append(w.text, lhs, aliases);
    lemma_resolve_append(w.text + lhs, sp, aliases);
    lemma_resolve_append(w.text + lhs + sp, op.text, aliases);
    lemma_resolve_text(" "@, aliases);
    assert(resolve(condition_view(w, p_text, p_ids, p_params, op).text, aliases) =~= resolve(w.text, aliases)
        + resolve(lhs, aliases) + " "@ + resolve(op.text, aliases));
    let open = seq![Piece::Text("("@)];
    let close = seq![Piece::Text(")"@)];
    lemma_resolve_append(w.text, open, aliases);
    lemma_resolve_append(w.text + open, inner.text, aliases);
    lemma_resolve_append(w.text + open + inner.text, close, aliases);
    lemma_resolve_text("("@, aliases);
    lemma_resolve_text(")"@, aliases);
    assert(resolve(nest_view(w, inner).text, aliases) =~= resolve(w.text, aliases) + "("@ + resolve(
        inner.text,
        aliases,
    ) + ")"@);
}

/// Ending a statement whose query holds no placeholder for additional
/// labels leaves the query as it is.
pub proof fn law_end_without_placeholders(c: CoreView)
    requires
        forall|i: int| !occurs_at(c.query, ":AdditionalLabels"@, i),
    ensures
        placeholders_dropped(c) == c,
{
    reveal_strlit(":AdditionalLabels");
    lemma_replace_absent(c.query, ":AdditionalLabels"@, Seq::empty());
    assert(placeholders_dropped(c) =~= c);
}

proof fn lemma_replace_absent(s: Seq<char>, pat: Seq<char>, rep: Seq<char>)
    requires
        pat.len() > 0,
        forall|i: int| !occurs_at(s, pat, i),
    ensures
        replace_all(s, pat, rep) == s,
    decreases s.len(),
{
    if s.len() >= pat.len() {
        assert(!occurs_at(s, pat, 0));
        let t = s.subrange(1, s.len() as int);
        assert forall|i: int| !occurs_at(t, pat, i) by {
            if occurs_at(t, pat, i) {
                assert(s.subrange(i + 1, i + 1 + pat.len()) =~= t.subrange(i, i + pat.len()));
                assert(occurs_at(s, pat, i + 1));
            }
        }
        lemma_replace_absent(t, pat, rep);
        assert(s =~= seq![s[0]] + t);
    }
}

} // verus!
