use neo4g::arrays::{Array, Unwinder};
use neo4g::builder::Neo4gBuilder;
use neo4g::entity_wrapper::Label;
use neo4g::filter::{CompareOperator, Where};
use neo4g::functions::{Expr, Function, FunctionCall};
use neo4g::objects::{Group, GroupProps, MemberOf};
use neo4g::traits::Aliasable;
use neo4g::types::{CompOper, CompareJoiner, EntityType, Order};
use neo4rs::BoltType;

fn group(id: &str, name: &str) -> Group {
    Group::new(id, name, false)
}

#[test]
fn create_node_with_all_props_and_return() {
    let mut g = group("g1", "admins");
    let (q, params, refs) = Neo4gBuilder::new().create().node(&mut g).add_to_return().end_statement().into_query();
    assert_eq!(
        q,
        "CREATE (group1:Group {id: $group1_id, name: $group1_name, deleted: $group1_deleted})\nRETURN group1"
    );
    assert_eq!(g.get_alias(), "group1");
    assert_eq!(params.get("group1_id"), Some(&BoltType::from("g1")));
    assert_eq!(params.get("group1_name"), Some(&BoltType::from("admins")));
    assert_eq!(params.get("group1_deleted"), Some(&BoltType::from(false)));
    assert_eq!(refs, vec![("group1".to_string(), EntityType::Node)]);
}

#[test]
fn create_path_numbers_nodes_and_relations() {
    let mut a = group("a", "first");
    let mut m = MemberOf::new(false);
    let mut b = group("b", "second");
    let (q, params, refs) =
        Neo4gBuilder::new().create().node(&mut a).relation(&mut m).node(&mut b).end_statement().into_query();
    assert_eq!(
        q,
        "CREATE (group1:Group {id: $group1_id, name: $group1_name, deleted: $group1_deleted})\
-[member_of1:MEMBER_OF {deleted: $member_of1_deleted }]->\
(group2:Group {id: $group2_id, name: $group2_name, deleted: $group2_deleted})"
    );
    assert_eq!(params.get("member_of1_deleted"), Some(&BoltType::from(false)));
    assert_eq!(params.get("group2_id"), Some(&BoltType::from("b")));
    assert!(refs.is_empty());
    assert_ne!(a.get_alias(), b.get_alias());
}

#[test]
fn add_to_return_twice_returns_once() {
    let mut g = group("g1", "admins");
    let (q, _, refs) = Neo4gBuilder::new()
        .get()
        .node(&mut g, |_e: &Group| Vec::new())
        .add_to_return()
        .add_to_return()
        .end_statement()
        .into_query();
    assert_eq!(q, "MATCH (group1:Group)\nRETURN group1");
    assert_eq!(refs.len(), 1);
}

#[test]
fn merge_on_create_and_on_match() {
    let mut g = group("g1", "admins");
    let (q, params) = Neo4gBuilder::new()
        .merge()
        .node(&mut g, |e: &Group| vec![e.id.clone()])
        .on_create()
        .set(&g, |_e: &Group| vec![GroupProps::Name("new".to_string())])
        .on_match()
        .set(&g, |_e: &Group| vec![GroupProps::Deleted(true)])
        .end_statement()
        .build();
    assert_eq!(
        q,
        "MERGE (group1:Group {id: $group1_id})\nON CREATE\nSET group1.name = $set1_name\nON MATCH\nSET group1.deleted = $set2_deleted"
    );
    assert_eq!(params.get("group1_id"), Some(&BoltType::from("g1")));
    assert_eq!(params.get("set1_name"), Some(&BoltType::from("new")));
    assert_eq!(params.get("set2_deleted"), Some(&BoltType::from(true)));
}

#[test]
fn merge_two_sets_share_one_set_clause() {
    let mut g = group("g1", "admins");
    let (q, _) = Neo4gBuilder::new()
        .merge()
        .node(&mut g, |e: &Group| vec![e.id.clone()])
        .on_create()
        .set(&g, |_e: &Group| vec![GroupProps::Name("n".to_string())])
        .set(&g, |_e: &Group| vec![GroupProps::Deleted(false)])
        .end_statement()
        .build();
    assert_eq!(
        q,
        "MERGE (group1:Group {id: $group1_id})\nON CREATE\nSET group1.name = $set1_name, group1.deleted = $set2_deleted"
    );
}

#[test]
fn merge_node_without_props_and_flipped_relation() {
    let mut a = group("a", "first");
    let mut m = MemberOf::new(true);
    let mut b = group("b", "second");
    let (q, params) = Neo4gBuilder::new()
        .merge()
        .node(&mut a, |_e: &Group| Vec::new())
        .add_to_return()
        .relation_flipped(&mut m, |e: &MemberOf| vec![e.deleted.clone()])
        .node(&mut b, |e: &Group| vec![e.name.clone()])
        .end_statement()
        .build();
    assert_eq!(
        q,
        "MERGE (group1:Group)<-[member_of1:MEMBER_OF {deleted: $member_of1_deleted }]-(group2:Group {name: $group2_name})"
    );
    assert_eq!(params.get("member_of1_deleted"), Some(&BoltType::from(true)));
    assert_eq!(m.get_alias(), "member_of1");
}

#[test]
fn merge_add_to_return_uses_alias() {
    let mut a = group("a", "first");
    let (q, _, refs) = Neo4gBuilder::new()
        .merge()
        .node(&mut a, |_e: &Group| Vec::new())
        .add_to_return()
        .end_statement()
        .into_query();
    assert_eq!(q, "MERGE (group1:Group)\nRETURN group1");
    assert_eq!(refs, vec![("group1".to_string(), EntityType::Node)]);
}

#[test]
fn match_filter_set_and_with() {
    let mut g = group("g1", "admins");
    let (q, params, _) = Neo4gBuilder::new()
        .get()
        .node(&mut g, |e: &Group| vec![e.name.clone()])
        .add_to_return()
        .filter(Where::new().is_not_null(&g))
        .set(&g, |_e: &Group| vec![GroupProps::Deleted(true)])
        .end_statement()
        .into_query();
    assert_eq!(
        q,
        "MATCH (group1:Group {name: $group1_name})\nWHERE group1 IS NOT NULL\nSET group1.deleted = $set1_deleted\nWITH group1\nRETURN group1"
    );
    assert_eq!(params.get("set1_deleted"), Some(&BoltType::from(true)));
}

#[test]
fn match_two_filters_continue_one_where() {
    let mut a = group("a", "first");
    let (q, _) = Neo4gBuilder::new()
        .get()
        .node(&mut a, |_e: &Group| Vec::new())
        .filter(Where::new().is_not_null(&a))
        .filter(Where::new().is_null(&a))
        .end_statement()
        .build();
    assert_eq!(q, "MATCH (group1:Group)\nWHERE group1 IS NOT NULLgroup1 IS NULL");
}

#[test]
fn match_relations_with_minimum_hops() {
    let mut a = group("a", "first");
    let mut m = MemberOf::new(false);
    let mut b = group("b", "second");
    let (q, _) = Neo4gBuilder::new()
        .get()
        .node(&mut a, |_e: &Group| Vec::new())
        .relations(3, &mut m, |_e: &MemberOf| Vec::new())
        .node(&mut b, |_e: &Group| Vec::new())
        .end_statement()
        .build();
    assert_eq!(q, "MATCH (group1:Group)-[member_of1:MEMBER_OF*3..]->(group2:Group)");
}

#[test]
fn match_single_relation_drops_hops() {
    let mut a = group("a", "first");
    let mut m = MemberOf::new(false);
    let (q, _) = Neo4gBuilder::new()
        .get()
        .node(&mut a, |_e: &Group| Vec::new())
        .relation(&mut m, |_e: &MemberOf| Vec::new())
        .node_ref(&a)
        .end_statement()
        .build();
    assert_eq!(q, "MATCH (group1:Group)-[member_of1:MEMBER_OF]->(group1)");
}

#[test]
fn match_filter_condition_with_entity_property() {
    let mut a = group("a", "first");
    let mut b = group("b", "second");
    let built = Neo4gBuilder::new()
        .get()
        .node(&mut a, |_e: &Group| Vec::new())
        .relation_undirected()
        .node(&mut b, |_e: &Group| Vec::new());
    let w = Where::new()
        .condition_prop(&a, Some(&GroupProps::Name("x".to_string())), CompareOperator::by_aliasable(CompOper::Eq, &b))
        .join(CompareJoiner::And)
        .is_not_null(&b);
    let (q, _) = built.filter(w).end_statement().build();
    assert_eq!(q, "MATCH (group1:Group)--(group2:Group)\nWHERE group1.name = group2 AND group2 IS NOT NULL");
}

#[test]
fn delete_detach_lists_aliases() {
    let mut g = group("g1", "admins");
    let s = Neo4gBuilder::new().get().node(&mut g, |_e: &Group| Vec::new());
    let (q, _) = s.delete(&[g.wrap()], true).end_statement().build();
    assert_eq!(q, "MATCH (group1:Group)\nDELETE DETACH group1");
}

#[test]
fn union_keeps_earlier_alias() {
    let mut g = group("g1", "admins");
    let (q, _, refs) = Neo4gBuilder::new()
        .get()
        .node(&mut g, |_e: &Group| Vec::new())
        .add_to_return()
        .end_statement()
        .union()
        .get()
        .node(&mut g, |_e: &Group| Vec::new())
        .add_to_return()
        .end_statement()
        .into_query();
    assert_eq!(q, "MATCH (group1:Group)\nRETURN group1\nUNION\nMATCH (group1:Group)\nRETURN group1");
    assert_eq!(refs.len(), 1);
    assert_eq!(g.get_alias(), "group1");
}

#[test]
fn arrays_are_passed_once() {
    let a = Array::new("ids", vec![BoltType::from(1), BoltType::from(2)]);
    let mut arrs = vec![a];
    let mut g = group("g1", "admins");
    let b = Neo4gBuilder::new().with().arrays(&mut arrs).arrays(&mut arrs);
    let mut u = Unwinder::new(&arrs[0]);
    let (q, params, _) =
        b.unwind(&mut u).get().node(&mut g, |_e: &Group| Vec::new()).end_statement().into_query();
    assert_eq!(q, "\nWITH $ids AS ids, ids\nUNWIND ids AS unwound_ids1\nMATCH (group1:Group)");
    assert_eq!(params.get("ids"), Some(&BoltType::from(vec![BoltType::from(1), BoltType::from(2)])));
    assert_eq!(params.into_entries().len(), 1);
    assert_eq!(u.get_alias(), "unwound_ids1");
}

#[test]
fn with_entities_function_and_filter() {
    let mut g = group("g1", "admins");
    let mut f = FunctionCall::from_function(Function::Collect(Box::new(Expr::from_aliasable(&g))));
    let b = Neo4gBuilder::new().get().node(&mut g, |_e: &Group| Vec::new()).end_statement();
    let b = b.with().entities(&[g.wrap()]).function(&mut f).filter(Where::new().is_null(&g));
    let mut h = group("h", "other");
    let (q, _, _) = b.get().node(&mut h, |_e: &Group| Vec::new()).end_statement().into_query();
    assert_eq!(
        q,
        "MATCH (group1:Group)\nWITH group1, collect(group1) AS with_fn_2 WHERE group1 IS NULL\nMATCH (group2:Group)"
    );
    assert_eq!(f.get_alias(), "with_fn_2");
}

#[test]
fn with_no_entities_writes_nothing() {
    let mut g = group("g1", "admins");
    let b = Neo4gBuilder::new().with().entities(&[] as &[neo4g::entity_wrapper::EntityWrapper]);
    let (q, _, _) = b.get().node(&mut g, |_e: &Group| Vec::new()).end_statement().into_query();
    assert_eq!(q, "\nWITH \nMATCH (group1:Group)");
}

#[test]
fn call_continues_numbering() {
    let mut a = group("a", "first");
    let mut b = group("b", "second");
    let built = Neo4gBuilder::new().call(|inner| inner.get().node(&mut a, |_e: &Group| Vec::new()).end_statement());
    let (q, _) = built.create().node(&mut b).end_statement().build();
    assert_eq!(
        q,
        "\nCALL {MATCH (group1:Group) \n}\nCREATE (group2:Group {id: $group2_id, name: $group2_name, deleted: $group2_deleted})"
    );
}

#[test]
fn call_with_imports_aliases() {
    let mut a = group("a", "first");
    let built = Neo4gBuilder::new().get().node(&mut a, |_e: &Group| Vec::new()).end_statement();
    let wrapped = [a.wrap()];
    let mut b = group("b", "second");
    let called = built.call_with(&wrapped, |inner| inner.get().node(&mut b, |_e: &Group| Vec::new()).end_statement());
    let (q, _) = called.build();
    assert_eq!(q, "MATCH (group1:Group)\nCALL (group1) {MATCH (group2:Group) \n}");
}

#[test]
fn returns_order_skip_and_limit() {
    let mut g = group("g1", "admins");
    let b = Neo4gBuilder::new().get().node(&mut g, |_e: &Group| Vec::new()).end_statement();
    let wrapped = [(EntityType::Node, g.wrap()), (EntityType::Node, g.wrap())];
    let (q, _, refs) = b
        .set_returns(&wrapped)
        .order_by(&mut g, Order::Desc, |e: &Group| e.name.clone())
        .skip(5)
        .limit(10)
        .into_query();
    assert_eq!(q, "MATCH (group1:Group)SKIP 5\nLIMIT 10\n\nRETURN group1\nORDER BY group1.name DESC");
    assert_eq!(refs, vec![("group1".to_string(), EntityType::Node)]);
}

#[test]
fn set_returns_with_none_keeps_returns() {
    let mut g = group("g1", "admins");
    let b = Neo4gBuilder::new().get().node(&mut g, |_e: &Group| Vec::new()).add_to_return().end_statement();
    let none: [(EntityType, neo4g::entity_wrapper::EntityWrapper); 0] = [];
    let (q, _, _) = b.set_returns(&none).into_query();
    assert_eq!(q, "MATCH (group1:Group)\nRETURN group1");
}

#[test]
fn additional_labels_are_inserted() {
    let mut g = group("g1", "admins");
    let (q, _) = Neo4gBuilder::new()
        .get()
        .node(&mut g, |_e: &Group| Vec::new())
        .set_additional_labels(&[Label::Any, Label::SysObj])
        .end_statement()
        .build();
    assert_eq!(q, "MATCH (group1:Group:Any:SysObj)");
}

#[test]
fn optional_match_after_match() {
    let mut a = group("a", "first");
    let mut b = group("b", "second");
    let (q, _) = Neo4gBuilder::new()
        .get()
        .node(&mut a, |_e: &Group| Vec::new())
        .end_statement()
        .optional_match()
        .node(&mut b, |_e: &Group| Vec::new())
        .end_statement()
        .build();
    assert_eq!(q, "MATCH (group1:Group)\nOPTIONAL MATCH (group2:Group)");
}

#[test]
fn nodes_by_unwound_match_against_unwinder() {
    let arr = Array::new("names", vec![BoltType::from("x")]);
    let mut arrs = vec![arr];
    let mut u = Unwinder::new(&arrs[0]);
    let mut g = group("g1", "admins");
    let (q, _) = Neo4gBuilder::new()
        .with()
        .arrays(&mut arrs)
        .unwind(&mut u)
        .merge()
        .nodes_by_unwound(&mut g, |e: &Group| e.name.clone(), &u)
        .end_statement()
        .build();
    assert_eq!(q, "\nWITH $names AS names\nUNWIND names AS unwound_names1\nMERGE (group1:Group {name: unwound_names1})");
}

#[test]
fn filter_refers_to_entities_written_later() {
    let mut a = group("a", "first");
    let mut b = group("b", "second");
    let w = Where::new().condition_prop(&a, None, CompareOperator::by_aliasable(CompOper::Ne, &b));
    let (q, _) = Neo4gBuilder::new()
        .get()
        .node(&mut a, |_e: &Group| Vec::new())
        .relation_undirected()
        .node(&mut b, |_e: &Group| Vec::new())
        .filter(w)
        .end_statement()
        .build();
    assert_eq!(q, "MATCH (group1:Group)--(group2:Group)\nWHERE group1 <> group2");
}

#[test]
fn filter_value_becomes_random_parameter() {
    let mut a = group("a", "first");
    let w = Where::new().condition_prop(
        &a,
        Some(&GroupProps::CurrentName),
        CompareOperator::by_prop(CompOper::Eq, &GroupProps::Name("x".to_string()), neo4g::types::RefType::Val),
    );
    let (q, params) = Neo4gBuilder::new().get().node(&mut a, |_e: &Group| Vec::new()).filter(w).end_statement().build();
    let entries = params.into_entries();
    assert_eq!(entries.len(), 1);
    let (name, value) = &entries[0];
    assert_eq!(name.len(), "co_name".len() + 4);
    assert!(name.starts_with("co_name"));
    assert!(name[7..].chars().all(|c| c.is_ascii_hexdigit() && !c.is_ascii_uppercase()));
    assert_eq!(value, &BoltType::from("x"));
    assert_eq!(q, format!("MATCH (group1:Group)\nWHERE group1.nope = ${}", name));
}

#[test]
fn filter_reference_to_property() {
    let mut a = group("a", "first");
    let w = Where::new().condition_prop(
        &a,
        Some(&GroupProps::Id("i".to_string())),
        CompareOperator::by_prop(CompOper::Lt, &GroupProps::Name("x".to_string()), neo4g::types::RefType::Ref),
    );
    let (q, params) = Neo4gBuilder::new().get().node(&mut a, |_e: &Group| Vec::new()).filter(w).end_statement().build();
    assert_eq!(q, "MATCH (group1:Group)\nWHERE group1.id < entity_alias.name");
    assert!(params.into_entries().is_empty());
}

#[test]
fn functions_render_references_as_aliases() {
    let mut g = group("g", "first");
    let mut h = group("h", "second");
    let stranger = group("s", "unknown");
    let built = Neo4gBuilder::new()
        .get()
        .node(&mut g, |_e: &Group| Vec::new())
        .relation_undirected()
        .node(&mut h, |_e: &Group| Vec::new())
        .end_statement();
    let mut coalesce = FunctionCall::from_function(Function::Coalesce(vec![
        Expr::from_aliasable(&g),
        Expr::from_function(Function::Id(Box::new(Expr::from_aliasable_refs(&[&g, &h])))),
    ]));
    let mut size = FunctionCall::from_function(Function::Size(Box::new(Expr::from_aliasable_slice(&[&g, &h], true))));
    let mut exists = FunctionCall::from_function(Function::Exists(Box::new(Expr::from_aliasable(&stranger))));
    let (q, _, _) = built
        .with()
        .function(&mut coalesce)
        .function(&mut size)
        .function(&mut exists)
        .get()
        .node_ref(&g)
        .end_statement()
        .into_query();
    assert_eq!(
        q,
        "MATCH (group1:Group)--(group2:Group)\nWITH coalesce(group1, id(group1, group2)) AS with_fn_1, \
size([group1, group2]) AS with_fn_2, exists(WTF?) AS with_fn_3\nMATCH (group1)"
    );
    assert_eq!(size.get_alias(), "with_fn_2");
}

#[test]
fn expression_lists_without_brackets() {
    let mut g = group("g", "first");
    g.set_alias("a");
    let mut h = group("h", "second");
    h.set_alias("b");
    let mut call = FunctionCall::from_function(Function::Collect(Box::new(Expr::from_aliasable_slice(&[&g, &h], false))));
    let (q, _, _) = Neo4gBuilder::new().with().function(&mut call).get().node_ref(&g).end_statement().into_query();
    assert_eq!(q, "\nWITH collect(a, b) AS with_fn_1\nMATCH (a)");
}

#[test]
fn match_relations_with_props_keep_minimum_hops() {
    let mut a = group("a", "first");
    let mut m = MemberOf::new(true);
    let mut b = group("b", "second");
    let (q, params) = Neo4gBuilder::new()
        .get()
        .node(&mut a, |_e: &Group| Vec::new())
        .relations(2, &mut m, |e: &MemberOf| vec![e.deleted.clone()])
        .node(&mut b, |_e: &Group| Vec::new())
        .end_statement()
        .build();
    assert_eq!(
        q,
        "MATCH (group1:Group)-[member_of1:MEMBER_OF*2.. {deleted: $member_of1_deleted }]->(group2:Group)"
    );
    assert_eq!(params.get("member_of1_deleted"), Some(&BoltType::from(true)));
}

#[test]
fn match_relation_flipped_uses_given_props() {
    let mut a = group("a", "first");
    let mut m = MemberOf::new(true);
    let mut b = group("b", "second");
    let (q, params, refs) = Neo4gBuilder::new()
        .get()
        .node(&mut a, |_e: &Group| Vec::new())
        .relation_flipped(&mut m, |_e: &MemberOf| Vec::new())
        .add_to_return()
        .node(&mut b, |_e: &Group| Vec::new())
        .end_statement()
        .into_query();
    assert_eq!(q, "MATCH (group1:Group)<-[member_of1:MEMBER_OF]-(group2:Group)\nRETURN member_of1");
    assert!(params.into_entries().is_empty());
    assert_eq!(refs, vec![("member_of1".to_string(), EntityType::Relation)]);
}

#[test]
fn additional_labels_go_to_the_last_node_only() {
    let mut x = group("x", "first");
    let mut m = MemberOf::new(false);
    let mut y = group("y", "second");
    let (q, _) = Neo4gBuilder::new()
        .merge()
        .node(&mut x, |_e: &Group| Vec::new())
        .relation(&mut m, |_e: &MemberOf| Vec::new())
        .node(&mut y, |_e: &Group| Vec::new())
        .set_additional_labels(&[Label::Any, Label::SysObj])
        .end_statement()
        .build();
    assert_eq!(q, "MERGE (group1:Group)-[member_of1:MEMBER_OF]->(group2:Group:Any:SysObj)");
}

#[test]
fn additional_labels_after_node_ref_change_nothing() {
    let mut x = group("x", "first");
    let (q, _) = Neo4gBuilder::new()
        .get()
        .node(&mut x, |_e: &Group| Vec::new())
        .end_statement()
        .get()
        .node_ref(&x)
        .set_additional_labels(&[Label::Any])
        .end_statement()
        .build();
    assert_eq!(q, "MATCH (group1:Group)\nMATCH (group1)");
}

#[test]
fn unwind_of_a_fresh_array_passes_its_list() {
    let mut u = Unwinder::new(&Array::new("example_array", vec![BoltType::from(1)]));
    let mut g = group("g1", "admins");
    let (q, params, _) = Neo4gBuilder::new()
        .with()
        .arrays(&mut vec![])
        .unwind(&mut u)
        .get()
        .node(&mut g, |_e: &Group| Vec::new())
        .end_statement()
        .into_query();
    assert_eq!(q, "\nWITH \nUNWIND $example_array AS unwound_example_array1\nMATCH (group1:Group)");
    assert_eq!(u.get_alias(), "unwound_example_array1");
    assert_eq!(params.get("example_array"), Some(&BoltType::from(vec![BoltType::from(1)])));
}

#[test]
fn cloned_builder_continues_alike() {
    let mut arrs = vec![Array::new("a1", vec![BoltType::from(1)])];
    let r1 = Neo4gBuilder::new().with().arrays(&mut arrs);
    let r2 = r1.clone().arrays(&mut arrs);
    let mut g = group("g1", "admins");
    let mut h = group("h1", "others");
    let (q1, p1, _) = r1.get().node(&mut g, |_e: &Group| Vec::new()).end_statement().into_query();
    let (q2, p2, _) = r2.get().node(&mut h, |_e: &Group| Vec::new()).end_statement().into_query();
    assert_eq!(q1, "\nWITH $a1 AS a1\nMATCH (group1:Group)");
    assert_eq!(q2, "\nWITH $a1 AS a1, a1\nMATCH (group1:Group)");
    assert_eq!(p1.get("a1"), Some(&BoltType::from(vec![BoltType::from(1)])));
    assert_eq!(p2.into_entries().len(), 1);
}

#[test]
fn filter_reference_to_entity_property() {
    let mut a = group("a", "first");
    let mut b = group("b", "second");
    let built = Neo4gBuilder::new()
        .get()
        .node(&mut a, |_e: &Group| Vec::new())
        .relation_undirected()
        .node(&mut b, |_e: &Group| Vec::new());
    let w = Where::new().condition_prop(
        &a,
        Some(&GroupProps::Id("i".to_string())),
        CompareOperator::by_entity_prop(CompOper::Lt, &b, &GroupProps::Name("x".to_string())),
    );
    let (q, params) = built.filter(w).end_statement().build();
    assert_eq!(q, "MATCH (group1:Group)--(group2:Group)\nWHERE group1.id < group2.name");
    assert!(params.into_entries().is_empty());
}

#[test]
fn filter_reference_to_entity_property_before_its_alias() {
    let mut a = group("a", "first");
    let mut b = group("b", "second");
    let w = Where::new().condition_prop(
        &a,
        Some(&GroupProps::Id("i".to_string())),
        CompareOperator::by_entity_prop(CompOper::Eq, &b, &GroupProps::Name("x".to_string())),
    );
    let (q, _) = Neo4gBuilder::new()
        .get()
        .node(&mut a, |_e: &Group| Vec::new())
        .relation_undirected()
        .node(&mut b, |_e: &Group| Vec::new())
        .filter(w)
        .end_statement()
        .build();
    assert_eq!(q, "MATCH (group1:Group)--(group2:Group)\nWHERE group1.id = group2.name");
}

#[test]
fn cloned_where_keeps_its_conditions() {
    let mut a = group("a", "first");
    let b = Neo4gBuilder::new().get().node(&mut a, |_e: &Group| Vec::new());
    let w = Where::new().is_not_null(&a);
    let w2 = w.clone();
    let (q, _) = b.filter(w2).end_statement().build();
    assert_eq!(q, "MATCH (group1:Group)\nWHERE group1 IS NOT NULL");
    drop(w);
}

#[test]
fn relation_flipped_is_relation_with_arrow_turned() {
    let mut a1 = group("a", "first");
    let mut m1 = MemberOf::new(true);
    let (q1, p1) = Neo4gBuilder::new()
        .merge()
        .node(&mut a1, |_e: &Group| Vec::new())
        .relation(&mut m1, |e: &MemberOf| vec![e.deleted.clone()])
        .node_ref(&a1)
        .end_statement()
        .build();
    let mut a2 = group("a", "first");
    let mut m2 = MemberOf::new(true);
    let (q2, p2) = Neo4gBuilder::new()
        .merge()
        .node(&mut a2, |_e: &Group| Vec::new())
        .relation_flipped(&mut m2, |e: &MemberOf| vec![e.deleted.clone()])
        .node_ref(&a2)
        .end_statement()
        .build();
    assert_eq!(q1, "MERGE (group1:Group)-[member_of1:MEMBER_OF {deleted: $member_of1_deleted }]->(group1)");
    assert_eq!(q2, q1.replace("-[", "<-[").replace("]->", "]-"));
    assert_eq!(p1.into_entries(), p2.into_entries());
    assert_eq!(m1.get_alias(), m2.get_alias());
}

#[test]
fn ascending_order_writes_no_keyword() {
    let mut g = group("g1", "admins");
    let (q, _, _) = Neo4gBuilder::new()
        .get()
        .node(&mut g, |_e: &Group| Vec::new())
        .add_to_return()
        .end_statement()
        .order_by(&mut g, Order::Asc, |e: &Group| e.id.clone())
        .into_query();
    assert_eq!(q, "MATCH (group1:Group)\nRETURN group1\nORDER BY group1.id");
}
