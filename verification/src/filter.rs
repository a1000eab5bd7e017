//! WHERE conditions: the `Where` builder and the comparison operators that
//! make up its right-hand sides.
use vstd::prelude::*;
use vstd::string::*;
use core::marker::PhantomData;
use neo4rs::BoltType;
use crate::collections::{Params, Piece, Token, clone_tokens, pieces, is_blank, push_text, append_tokens, tokens_blank};
use crate::external::{is_lower_hex, new_id_text};
use crate::traits::{Aliasable, CanCondition, CanJoin, Condition, Empty, Joined, Neo4gEntity, Paramable, QueryParam};
use crate::types::{CompOper, CompareJoiner, RefType};

verus! {

/// The mathematical form of a `Where`: its text, the parameters it needs,
/// the entity ids its text may refer to, and how many conditions it has
/// numbered so far.
#[verifier::ext_equal]
pub struct WhereView {
    pub text: Seq<Piece>,
    pub params: Map<Seq<char>, BoltType>,
    pub ids: Seq<u128>,
    pub conditions: u32,
}

/// The mathematical form of a `CompareOperator`.
#[verifier::ext_equal]
pub struct OperatorView {
    pub text: Seq<Piece>,
    pub params: Map<Seq<char>, BoltType>,
    pub ids: Seq<u128>,
}

/// Builds the conditions of a WHERE clause.
#[derive(Debug)]
pub struct Where<State> {
    string: Vec<Token>,
    params: Params,
    uuids: Vec<u128>,
    condition_number: u32,
    _state: PhantomData<State>,
}

impl<S> Clone for Where<S> {
    fn clone(&self) -> (r: Self)
        ensures
            r@ == self@,
    {
        let uuids = self.uuids.clone();
        assert(uuids@ =~= self.uuids@);
        Where {
            string: clone_tokens(&self.string),
            params: self.params.clone(),
            uuids,
            condition_number: self.condition_number,
            _state: PhantomData,
        }
    }
}

impl<S> View for Where<S> {
    type V = WhereView;

    closed spec fn view(&self) -> WhereView {
        WhereView {
            text: pieces(self.string@),
            params: self.params@,
            ids: self.uuids@,
            conditions: self.condition_number,
        }
    }
}

/// A `Where` with no text, parameters or ids, numbered from `conditions`.
pub open spec fn fresh_where(conditions: u32) -> WhereView {
    WhereView {
        text: Seq::empty(),
        params: Map::empty(),
        ids: Seq::empty(),
        conditions,
    }
}

/// The left-hand side a paramable contributes to a condition: its text, or,
/// when that text is empty and it names exactly one entity, a reference to
/// that entity.
pub open spec fn lhs_pieces(text: Seq<Piece>, ids: Seq<u128>) -> Seq<Piece> {
    if is_blank(text) && ids.len() == 1 {
        seq![Piece::Ref(ids[0])]
    } else {
        text
    }
}

/// The `Where` after `.condition(p, op)`.
pub open spec fn condition_view(
    w: WhereView,
    p_text: Seq<Piece>,
    p_ids: Seq<u128>,
    p_params: Map<Seq<char>, BoltType>,
    op: OperatorView,
) -> WhereView {
    WhereView {
        text: w.text + lhs_pieces(p_text, p_ids) + seq![Piece::Text(" "@)] + op.text,
        params: w.params.union_prefer_right(op.params).union_prefer_right(p_params),
        ids: w.ids + op.ids + p_ids,
        conditions: (w.conditions + 1) as u32,
    }
}

/// The property part of a condition on an entity: `.key`, or nothing.
pub open spec fn prop_suffix(key: Option<Seq<char>>) -> Seq<char> {
    match key {
        Some(k) => "."@ + k,
        Option::None => Seq::empty(),
    }
}

/// The `Where` after `.condition_prop(entity, prop, op)` for an entity with
/// the given alias and id.
pub open spec fn condition_prop_view(
    w: WhereView,
    alias: Seq<char>,
    id: u128,
    key: Option<Seq<char>>,
    op: OperatorView,
) -> WhereView {
    let subject = if alias.len() == 0 {
        Piece::Ref(id)
    } else {
        Piece::Text(alias)
    };
    let ids = if alias.len() == 0 {
        op.ids.push(id)
    } else {
        op.ids
    };
    WhereView {
        text: w.text + seq![subject, Piece::Text(prop_suffix(key) + " "@)] + op.text,
        params: w.params.union_prefer_right(op.params),
        ids: w.ids + ids,
        conditions: (w.conditions + 1) as u32,
    }
}

/// The `Where` after appending `text` as one more condition.
pub open spec fn text_condition_view(w: WhereView, text: Seq<char>) -> WhereView {
    WhereView { text: w.text.push(Piece::Text(text)), conditions: (w.conditions + 1) as u32, ..w }
}

/// The `Where` after nesting the conditions of `inner` in parentheses.
pub open spec fn nest_view(w: WhereView, inner: WhereView) -> WhereView {
    WhereView {
        text: w.text + seq![Piece::Text("("@)] + inner.text + seq![Piece::Text(")"@)],
        params: w.params.union_prefer_right(inner.params),
        ids: w.ids + inner.ids,
        conditions: inner.conditions,
    }
}

impl<S> Where<S> {
    fn transition<NewState>(self) -> (r: Where<NewState>)
        ensures
            r@ == self@,
    {
        let Where { string, params, uuids, condition_number, .. } = self;
        Where { string, params, uuids, condition_number, _state: PhantomData }
    }

    fn build_inner(self) -> (r: (Vec<Token>, Params, Vec<u128>, u32))
        ensures
            pieces(r.0@) == self@.text,
            r.1@ == self@.params,
            r.2@ == self@.ids,
            r.3 == self@.conditions,
    {
        (self.string, self.params, self.uuids, self.condition_number)
    }
}

impl Where<Empty> {
    /// Creates a Where builder.
    pub fn new() -> (r: Self)
        ensures
            r@ == fresh_where(0),
    {
        let r = Where {
            string: Vec::new(),
            params: Params::new(),
            uuids: Vec::new(),
            condition_number: 0,
            _state: PhantomData,
        };
        assert(r@ =~= fresh_where(0));
        r
    }

    fn new_with_parent<S>(parent: &Where<S>) -> (r: Self)
        ensures
            r@ == fresh_where(parent@.conditions),
    {
        let r = Where {
            string: Vec::new(),
            params: Params::new(),
            uuids: Vec::new(),
            condition_number: parent.condition_number,
            _state: PhantomData,
        };
        assert(r@ =~= fresh_where(parent@.conditions));
        r
    }
}

impl<Q: CanCondition> Where<Q> {
    /// Appends NOT to the string.
    pub fn not(self) -> (r: Self)
        ensures
            r@ == (WhereView { text: self@.text.push(Piece::Text("NOT "@)), ..self@ }),
    {
        let mut s = self;
        push_text(&mut s.string, "NOT ");
        s
    }

    /// A condition with a paramable on the left-hand side, e.g.
    /// `paramable1alias_or_fncall > $co_intbeef`.
    pub fn condition<P: Paramable>(self, paramable: &P, operator: CompareOperator) -> (r: Where<Condition>)
        requires
            self@.conditions < u32::MAX,
        ensures
            r@ == condition_view(
                self@,
                paramable.text_spec(),
                paramable.ids_spec(),
                paramable.params_spec(),
                operator@,
            ),
    {
        let mut s = self;
        s.condition_number = s.condition_number + 1;
        let (op_string, op_uuids, op_params) = operator.into_parts();
        s.params.extend(op_params);
        let mut ou = op_uuids;
        s.uuids.append(&mut ou);
        let (p_string, p_uuids, p_params) = paramable.to_query_uuid_param();
        let mut lhs = p_string;
        if tokens_blank(&lhs) && p_uuids.len() == 1 {
            lhs = vec![Token::Ref(p_uuids[0])];
            assert(pieces(lhs@) =~= seq![Piece::Ref(p_uuids@[0])]);
        }
        s.params.extend(p_params);
        let mut pu = p_uuids;
        s.uuids.append(&mut pu);
        let ghost lhs_p = pieces(lhs@);
        let ghost op_p = pieces(op_string@);
        append_tokens(&mut s.string, lhs);
        push_text(&mut s.string, " ");
        append_tokens(&mut s.string, op_string);
        let r = s.transition::<Condition>();
        assert(r@.text =~= self@.text + lhs_p + seq![Piece::Text(" "@)] + op_p);
        assert(r@ =~= condition_view(
            self@,
            paramable.text_spec(),
            paramable.ids_spec(),
            paramable.params_spec(),
            operator@,
        ));
        r
    }

    /// A condition with an entity, and optionally one of its properties, on
    /// the left-hand side, e.g. `entity2alias.prop = entity3alias.prop`.
    pub fn condition_prop<T: Neo4gEntity>(
        self,
        entity: &T,
        optional_prop: Option<&T::Props>,
        operator: CompareOperator,
    ) -> (r: Where<Condition>)
        requires
            self@.conditions < u32::MAX,
        ensures
            r@ == condition_prop_view(
                self@,
                entity.alias_spec(),
                entity.uuid_spec(),
                match optional_prop {
                    Some(p) => Some(p.key_spec()),
                    Option::None => Option::None,
                },
                operator@,
            ),
    {
        let mut s = self;
        s.condition_number = s.condition_number + 1;
        let (string, uuids, params) = operator.into_parts();
        let mut uuids = uuids;
        let mut prop_name = String::new();
        if let Some(prop) = optional_prop {
            let (name, _) = prop.to_query_param();
            prop_name.append(".");
            prop_name.append(name);
        }
        assert(prop_name@ =~= prop_suffix(match optional_prop {
            Some(p) => Some(p.key_spec()),
            Option::None => Option::None,
        }));
        let entity_alias = entity.get_alias();
        let subject = if entity_alias.as_str().unicode_len() == 0 {
            let entity_uuid = entity.get_uuid();
            uuids.push(entity_uuid);
            Token::Ref(entity_uuid)
        } else {
            Token::Text(entity_alias)
        };
        s.params.extend(params);
        s.uuids.append(&mut uuids);
        s.string.push(subject);
        prop_name.append(" ");
        push_text(&mut s.string, prop_name.as_str());
        append_tokens(&mut s.string, string);
        let r = s.transition::<Condition>();
        assert(r@.text =~= self@.text + seq![subject@, Piece::Text(prop_name@)] + operator@.text);
        r
    }

    /// A condition that an entity is not null: `entityalias IS NOT NULL`.
    pub fn is_not_null<T: Neo4gEntity>(self, entity: &T) -> (r: Where<Condition>)
        requires
            self@.conditions < u32::MAX,
        ensures
            r@ == text_condition_view(self@, entity.alias_spec() + " IS NOT NULL"@),
    {
        let mut s = self;
        s.condition_number = s.condition_number + 1;
        let mut t = entity.get_alias();
        t.append(" IS NOT NULL");
        push_text(&mut s.string, t.as_str());
        s.transition::<Condition>()
    }

    /// A condition that an entity is null: `entityalias IS NULL`.
    pub fn is_null<T: Neo4gEntity>(self, entity: &T) -> (r: Where<Condition>)
        requires
            self@.conditions < u32::MAX,
        ensures
            r@ == text_condition_view(self@, entity.alias_spec() + " IS NULL"@),
    {
        let mut s = self;
        s.condition_number = s.condition_number + 1;
        let mut t = entity.get_alias();
        t.append(" IS NULL");
        push_text(&mut s.string, t.as_str());
        s.transition::<Condition>()
    }

    /// Nests the conditions the closure builds in parentheses.
    pub fn nest<F>(self, inner_builder_closure: F) -> (r: Where<Condition>)
        where F: FnOnce(Where<Empty>) -> Where<Condition>
        requires
            forall|w: Where<Empty>| #[trigger] call_requires(inner_builder_closure, (w,)),
        ensures
            exists|w: Where<Empty>, out: Where<Condition>|
                w@ == fresh_where(self@.conditions)
                && #[trigger] call_ensures(inner_builder_closure, (w,), out)
                && r@ == nest_view(self@, out@),
    {
        let mut s = self;
        let inner_builder = Where::new_with_parent(&s);
        let ghost w = inner_builder;
        let out = inner_builder_closure(inner_builder);
        let ghost out_v = out@;
        let (query, params, uuids, condition_number) = out.build_inner();
        s.condition_number = condition_number;
        let mut u = uuids;
        s.uuids.append(&mut u);
        push_text(&mut s.string, "(");
        append_tokens(&mut s.string, query);
        push_text(&mut s.string, ")");
        s.params.extend(params);
        let r = s.transition::<Condition>();
        assert(r@.text =~= self@.text + seq![Piece::Text("("@)] + out_v.text + seq![Piece::Text(")"@)]);
        assert(r@ =~= nest_view(self@, out_v));
        r
    }
}

impl<Q: CanJoin> Where<Q> {
    /// Appends the joiner: ` AND `, ` OR ` or ` NOT `.
    pub fn join(self, joiner: CompareJoiner) -> (r: Where<Joined>)
        ensures
            r@ == (WhereView {
                text: self@.text.push(Piece::Text(" "@ + joiner.keyword() + " "@)),
                ..self@
            }),
    {
        let mut s = self;
        let mut t = String::from_str(" ");
        let k = joiner.to_string();
        t.append(k.as_str());
        t.append(" ");
        push_text(&mut s.string, t.as_str());
        s.transition::<Joined>()
    }
}

impl Where<Condition> {
    /// The filter's text, ids and parameters.
    pub(crate) fn build(self) -> (r: (Vec<Token>, Vec<u128>, Params))
        ensures
            pieces(r.0@) == self@.text,
            r.1@ == self@.ids,
            r.2@ == self@.params,
    {
        (self.string, self.uuids, self.params)
    }
}

/// The comparison and right-hand side of a condition.
pub struct CompareOperator {
    query: Vec<Token>,
    params: Params,
    uuids: Vec<u128>,
}

impl View for CompareOperator {
    type V = OperatorView;

    closed spec fn view(&self) -> OperatorView {
        OperatorView { text: pieces(self.query@), params: self.params@, ids: self.uuids@ }
    }
}

/// The parameter name `by_prop` gives a value: `co_`, the property key and
/// four random characters.
pub open spec fn compare_param_name(key: Seq<char>, suffix: Seq<char>) -> Seq<char> {
    "co_"@ + key + suffix
}

/// The operator `by_prop` makes from a property with the given key and value.
pub open spec fn by_prop_view(
    operator: CompOper,
    key: Seq<char>,
    value: BoltType,
    ref_or_val: RefType,
    suffix: Seq<char>,
) -> OperatorView {
    match ref_or_val {
        RefType::Ref => OperatorView {
            text: seq![Piece::Text(operator.symbol() + " entity_alias."@ + key)],
            params: Map::empty(),
            ids: Seq::empty(),
        },
        RefType::Val => OperatorView {
            text: seq![Piece::Text(operator.symbol() + " $"@ + compare_param_name(key, suffix))],
            params: Map::empty().insert(compare_param_name(key, suffix), value),
            ids: Seq::empty(),
        },
    }
}

/// The operator `by_aliasable` makes from an aliasable with the given alias
/// and id.
pub open spec fn by_aliasable_view(operator: CompOper, alias: Seq<char>, id: u128) -> OperatorView {
    if alias.len() == 0 {
        OperatorView {
            text: seq![Piece::Text(operator.symbol() + " "@), Piece::Ref(id)],
            params: Map::empty(),
            ids: seq![id],
        }
    } else {
        OperatorView {
            text: seq![Piece::Text(operator.symbol() + " "@ + alias)],
            params: Map::empty(),
            ids: Seq::empty(),
        }
    }
}

/// The operator `by_entity_prop` makes from property `key` of the entity
/// with the given alias and id: `op alias.key`, or, while the entity has no
/// alias, a reference to it followed by `.key`.
pub open spec fn by_entity_prop_view(operator: CompOper, alias: Seq<char>, id: u128, key: Seq<char>) -> OperatorView {
    if alias.len() == 0 {
        OperatorView {
            text: seq![Piece::Text(operator.symbol() + " "@), Piece::Ref(id), Piece::Text("."@ + key)],
            params: Map::empty(),
            ids: seq![id],
        }
    } else {
        OperatorView {
            text: seq![Piece::Text(operator.symbol() + " "@ + alias + "."@ + key)],
            params: Map::empty(),
            ids: Seq::empty(),
        }
    }
}

impl CompareOperator {
    /// The operator with a property of an entity on the right-hand side,
    /// referred to through the entity's alias: `= entityalias.prop`. While
    /// the entity has no alias yet, the alias the query gives it is put in
    /// when the filter is written.
    pub fn by_entity_prop<T: Neo4gEntity>(operator: CompOper, entity: &T, prop: &T::Props) -> (r: Self)
        ensures
            r@ == by_entity_prop_view(operator, entity.alias_spec(), entity.uuid_spec(), prop.key_spec()),
    {
        let (key, _) = prop.to_query_param();
        let alias = entity.get_alias();
        let mut text = operator.to_string();
        text.append(" ");
        let mut tokens = Vec::new();
        let mut uuids = Vec::new();
        if alias.as_str().unicode_len() == 0 {
            let uuid = entity.get_uuid();
            uuids.push(uuid);
            push_text(&mut tokens, text.as_str());
            let ghost t1 = tokens@;
            tokens.push(Token::Ref(uuid));
            assert(pieces(tokens@) =~= pieces(t1).push(Piece::Ref(uuid)));
            let mut tail = String::from_str(".");
            tail.append(key);
            push_text(&mut tokens, tail.as_str());
            let r = CompareOperator { query: tokens, params: Params::new(), uuids };
            assert(r@.text =~= seq![Piece::Text(operator.symbol() + " "@), Piece::Ref(uuid), Piece::Text("."@ + key@)]);
            assert(r@.ids =~= seq![uuid]);
            r
        } else {
            text.append(alias.as_str());
            text.append(".");
            text.append(key);
            push_text(&mut tokens, text.as_str());
            let r = CompareOperator { query: tokens, params: Params::new(), uuids };
            assert(r@.text =~= seq![Piece::Text(operator.symbol() + " "@ + alias@ + "."@ + key@)]);
            r
        }
    }

    /// The operator with a property on the right-hand side, its parameter
    /// named with the given suffix: `> $co_int1a2b` for a value,
    /// `= entity_alias.prop` for a reference.
    pub fn by_prop_with_suffix<Q: QueryParam>(
        operator: CompOper,
        prop: &Q,
        ref_or_val: RefType,
        suffix: &str,
    ) -> (r: Self)
        ensures
            r@ == by_prop_view(operator, prop.key_spec(), prop.value_spec(), ref_or_val, suffix@),
    {
        let (query, bolt) = prop.to_query_param();
        let mut text = operator.to_string();
        match ref_or_val {
            RefType::Ref => {
                text.append(" entity_alias.");
                text.append(query);
                let mut tokens = Vec::new();
                push_text(&mut tokens, text.as_str());
                let r = CompareOperator { query: tokens, params: Params::new(), uuids: Vec::new() };
                assert(r@.text =~= seq![Piece::Text(operator.symbol() + " entity_alias."@ + prop.key_spec())]);
                r
            },
            RefType::Val => {
                let mut param_name = String::from_str("co_");
                param_name.append(query);
                param_name.append(suffix);
                text.append(" $");
                text.append(param_name.as_str());
                let mut tokens = Vec::new();
                push_text(&mut tokens, text.as_str());
                let mut params = Params::new();
                params.insert(param_name, bolt);
                let r = CompareOperator { query: tokens, params, uuids: Vec::new() };
                assert(r@.text =~= seq![Piece::Text(operator.symbol() + " $"@ + compare_param_name(prop.key_spec(), suffix@))]);
                r
            },
        }
    }

    /// The operator with a property on the right-hand side. A value becomes
    /// a parameter whose name ends in four characters of a fresh random
    /// uuid. A property carries no entity, so a reference is written with
    /// the literal `entity_alias` in place of one: `entity_alias.prop`;
    /// `by_entity_prop` names the entity.
    pub fn by_prop<Q: QueryParam>(operator: CompOper, prop: &Q, ref_or_val: RefType) -> (r: Self)
        ensures
            exists|suffix: Seq<char>|
                suffix.len() == 4
                && (forall|i: int| 0 <= i < 4 ==> is_lower_hex(#[trigger] suffix[i]))
                && r@ == by_prop_view(operator, prop.key_spec(), prop.value_spec(), ref_or_val, suffix),
    {
        match ref_or_val {
            RefType::Ref => {
                let r = Self::by_prop_with_suffix(operator, prop, RefType::Ref, "0000");
                proof {
                    reveal_strlit("0000");
                }
                assert(is_lower_hex("0000"@[0]) && is_lower_hex("0000"@[1]) && is_lower_hex("0000"@[2]) && is_lower_hex("0000"@[3]));
                r
            },
            RefType::Val => {
                let uuid_str = new_id_text();
                let rng_chars = uuid_str.as_str().substring_char(0, 4);
                assert(forall|i: int| 0 <= i < 4 ==> rng_chars@[i] == uuid_str@[i]);
                Self::by_prop_with_suffix(operator, prop, RefType::Val, rng_chars)
            },
        }
    }

    /// The operator with an aliasable on the right-hand side: `= entityalias`,
    /// `IN arrayalias`, or a reference to the aliasable when its alias is
    /// still empty.
    pub fn by_aliasable<A: Aliasable>(operator: CompOper, aliasable: &A) -> (r: Self)
        ensures
            r@ == by_aliasable_view(operator, aliasable.alias_spec(), aliasable.uuid_spec()),
    {
        let alias = aliasable.get_alias();
        let mut text = operator.to_string();
        text.append(" ");
        let mut tokens = Vec::new();
        let mut uuids = Vec::new();
        if alias.as_str().unicode_len() == 0 {
            let uuid = aliasable.get_uuid();
            uuids.push(uuid);
            push_text(&mut tokens, text.as_str());
            let ghost t1 = tokens@;
            tokens.push(Token::Ref(uuid));
            assert(pieces(tokens@) =~= pieces(t1).push(Piece::Ref(uuid)));
            let r = CompareOperator { query: tokens, params: Params::new(), uuids };
            assert(r@.text =~= seq![Piece::Text(operator.symbol() + " "@), Piece::Ref(uuid)]);
            assert(r@.ids =~= seq![uuid]);
            r
        } else {
            text.append(alias.as_str());
            push_text(&mut tokens, text.as_str());
            let r = CompareOperator { query: tokens, params: Params::new(), uuids };
            assert(r@.text =~= seq![Piece::Text(operator.symbol() + " "@ + alias@)]);
            r
        }
    }

    fn into_parts(self) -> (r: (Vec<Token>, Vec<u128>, Params))
        ensures
            pieces(r.0@) == self@.text,
            r.1@ == self@.ids,
            r.2@ == self@.params,
    {
        (self.query, self.uuids, self.params)
    }
}

} // verus!
