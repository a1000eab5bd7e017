use neo4g::collections::{AliasMap, Params};
use neo4g::entity_wrapper::{EntityWrapper, Label, Nothing, PropsWrapper};
use neo4g::example;
use neo4g::objects::{
    Component, ComponentProps, ComponentType, Group, GroupProps, GroupTemplate, MemberOf, User,
    UserTemplate,
};
use neo4g::patterns::{node_by, relation_by};
use neo4g::rows::returned_column;
use neo4g::text::capitalize;
use neo4g::traits::{Aliasable, BoltTypeInComparison, Neo4gEntity, Neo4gLabel, QueryParam, WrappedNeo4gEntity};
use neo4g::types::{
    CompOper, CompareJoiner, DbEntityWrapper, DbNode, DbRelation, DbValue, EntityType, Order,
};
use neo4rs::BoltType;

#[test]
fn node_pattern_lowercases_param_names() {
    let (q, params) = node_by("Group", "Grp1", &[GroupProps::Id("x".to_string())]);
    assert_eq!(q, "(Grp1:Group:AdditionalLabels {id: $grp1_id})");
    assert_eq!(params.get("grp1_id"), Some(&BoltType::from("x")));
}

#[test]
fn relation_pattern_without_props_leaves_hops() {
    let none: [GroupProps; 0] = [];
    let (q, params) = relation_by("KNOWS", "k1", &none);
    assert_eq!(q, "-[k1:KNOWS*min_hops..]->");
    assert!(params.into_entries().is_empty());
}

#[test]
fn relation_label_is_shouty_snake_case() {
    let m = MemberOf::new(false);
    assert_eq!(m.get_label(), "MEMBER_OF");
    assert_eq!(m.get_entity_type(), EntityType::Relation);
    let g = Group::new("a", "b", false);
    assert_eq!(g.get_label(), "Group");
    assert_eq!(g.get_entity_type(), EntityType::Node);
}

#[test]
fn set_alias_lowercases() {
    let mut g = Group::new("a", "b", false);
    g.set_alias("MyGroup");
    assert_eq!(g.get_alias(), "mygroup");
}

#[test]
fn current_props_read_the_entity() {
    let g = Group::new("a", "b", true);
    assert!(matches!(g.get_current(&GroupProps::CurrentName), GroupProps::Name(ref n) if n == "b"));
    assert!(matches!(g.get_current(&GroupProps::Id("z".to_string())), GroupProps::Id(ref n) if n == "z"));
    assert_eq!(GroupProps::CurrentId.to_query_param(), ("nope", BoltType::from(0)));
}

#[test]
fn entity_accessors_and_templates() {
    let g = Group::new("id7", "name7", true);
    assert_eq!(g.id(), "id7");
    assert_eq!(g.name(), "name7");
    assert_eq!(*g.deleted(), true);
    let t = GroupTemplate::from_entity(&g);
    assert_eq!(t.id, "id7");
    let back = Group::from_template(GroupTemplate::new("i", "n", false));
    assert_eq!(back.name(), "n");
    assert_eq!(back.get_alias(), "");
    let u = User::from_template(UserTemplate::new("u", "n", "p", "f", "s", false, Vec::new(), "e"));
    assert_eq!(u.self_to_props().len(), 7);
}

#[test]
fn distinct_entities_get_distinct_ids() {
    let a = Group::new("a", "b", false);
    let b = Group::new("a", "b", false);
    assert_ne!(a.get_uuid(), b.get_uuid());
}

#[test]
fn component_type_names_and_parsing() {
    assert_eq!(ComponentType::Type2.to_string(), "Type2");
    assert_eq!(ComponentType::from_string("TYPE2".to_string()), ComponentType::Type2);
    assert_eq!(ComponentType::from_string("other".to_string()), ComponentType::Type1);
    assert_eq!(ComponentType::default(), ComponentType::Type1);
    let c = Component::new("c", "/p", ComponentType::Type2);
    assert_eq!(
        ComponentProps::ComponentType(ComponentType::Type2).to_query_param(),
        ("component_type", BoltType::from("Type2"))
    );
    assert_eq!(c.self_to_props().len(), 3);
}

#[test]
fn node_read_from_database() {
    let node = DbNode {
        labels: vec!["Group".to_string()],
        props: vec![
            ("id".to_string(), DbValue::String("g9".to_string())),
            ("deleted".to_string(), DbValue::Boolean(true)),
            ("name".to_string(), DbValue::Integer(4)),
        ],
    };
    match EntityWrapper::from_db_entity(DbEntityWrapper::Node(node)) {
        EntityWrapper::Group(g) => {
            assert_eq!(g.id(), "g9");
            assert_eq!(g.name(), "");
            assert_eq!(*g.deleted(), true);
            assert_eq!(g.get_alias(), "");
        },
        other => panic!("unexpected {:?}", other),
    }
}

#[test]
fn relation_read_from_database() {
    let rel = DbRelation {
        typ: "MEMBER_OF".to_string(),
        props: vec![("deleted".to_string(), DbValue::Boolean(true))],
    };
    let w = EntityWrapper::from_db_entity(DbEntityWrapper::Relation(rel));
    assert!(matches!(w, EntityWrapper::MemberOf(ref m) if *m.deleted()));
    assert_eq!(w.get_entity_type(), EntityType::Relation);
}

#[test]
fn unknown_entity_reads_as_nothing() {
    let node = DbNode { labels: vec!["Stranger".to_string()], props: Vec::new() };
    let w = EntityWrapper::from_db_entity(DbEntityWrapper::Node(node));
    assert!(matches!(w, EntityWrapper::Nothing(_)));
    assert_eq!(w.get_alias(), "");
    let rel_label_on_node = DbNode { labels: vec!["MemberOf".to_string()], props: Vec::new() };
    let w2 = EntityWrapper::from_db_entity(DbEntityWrapper::Node(rel_label_on_node));
    assert!(matches!(w2, EntityWrapper::Nothing(_)));
}

#[test]
fn wrapper_equality_is_by_type() {
    let a = Group::new("a", "b", false).wrap();
    let b = Group::new("c", "d", true).wrap();
    let m = MemberOf::new(false).wrap();
    assert!(a == b);
    assert!(a != m);
    let n1 = EntityWrapper::Nothing(Nothing::new(true));
    let n2 = EntityWrapper::Nothing(Nothing::new(true));
    assert!(n1 != n2);
    assert!(matches!(EntityWrapper::from(MemberOf::new(true)), EntityWrapper::MemberOf(_)));
    assert!(a.get_group().is_some());
    assert!(a.get_user().is_none());
}

#[test]
fn wrapper_alias_follows_the_entity() {
    let mut w = Group::new("a", "b", false).wrap();
    w.set_alias("G1");
    assert_eq!(w.get_alias(), "g1");
    let mut n = EntityWrapper::Nothing(Nothing::new(true));
    n.set_alias("x");
    assert_eq!(n.get_alias(), "");
}

#[test]
fn props_wrapper_set_by() {
    let props = [
        PropsWrapper::GroupProps(GroupProps::Name("x".to_string())),
        PropsWrapper::from(GroupProps::Deleted(true)),
    ];
    let (q, params): (String, Params) = PropsWrapper::set_by("u", &props);
    assert_eq!(q, "u.name = $set_name\n, u.deleted = $set_deleted\n");
    assert_eq!(params.get("set_name"), Some(&BoltType::from("x")));
    assert_eq!(params.get("set_deleted"), Some(&BoltType::from(true)));
    assert!(props[0] == props[1]);
}

#[test]
fn labels_from_node_and_relation() {
    assert_eq!(Label::from_node(&vec!["Page".to_string(), "User".to_string()]), Label::User);
    assert_eq!(Label::from_node(&vec!["Stranger".to_string()]), Label::Nothing);
    assert_eq!(Label::from_relation("HAS_COMPONENT"), Label::HasComponent);
    assert_eq!(Label::SysObj.to_string(), "SysObj");
}

#[test]
fn capitalize_first_character() {
    assert_eq!(capitalize("hello"), "Hello");
    assert_eq!(capitalize(""), "");
    assert_eq!(capitalize("ßa"), "SSa");
    assert_eq!(capitalize("Done"), "Done");
}

#[test]
fn example_user_accessors() {
    let mut u = example::User::new(5, "ann");
    assert_eq!(u.get_id(), Some(5));
    assert_eq!(u.get_name(), Some("ann".to_string()));
    let copy = u.set_id(9);
    assert_eq!(u.get_id(), Some(9));
    assert_eq!(copy.get_id(), Some(9));
    let renamed = u.set_name("bob".to_string());
    assert_eq!(renamed.get_name(), Some("bob".to_string()));
    u.name = example::UserProps::Id(1);
    assert_eq!(u.get_name(), None);
}

#[test]
fn example_props_to_bolt() {
    assert_eq!(example::UserProps::to_query_param(example::UserProps::Id(3)), BoltType::from(3));
    assert_eq!(example::UserProps::to_query_param(example::UserProps::Name("n".to_string())), BoltType::from("n"));
}

#[test]
fn operators_joiners_and_orders() {
    assert_eq!(CompOper::Ge.to_string(), ">=");
    assert_eq!(CompOper::In.to_string(), "IN");
    assert_eq!(CompareJoiner::Or.to_string(), "OR");
    assert_eq!(CompareJoiner::try_from_str("and"), Some(CompareJoiner::And));
    assert_eq!(CompareJoiner::try_from_str("xor"), None);
    assert_eq!(Order::Asc.to_string(), "");
    assert_eq!(Order::try_from_str("DESC"), Some(Order::Desc));
    assert_eq!(Order::try_from_str(""), Some(Order::Unordered));
    assert_eq!(CompareJoiner::from("Or"), CompareJoiner::Or);
    assert_eq!(Order::from("asc"), Order::Asc);
}

#[test]
fn params_later_value_wins() {
    let mut p = Params::new();
    p.insert("a".to_string(), BoltType::from(1));
    p.insert("a".to_string(), BoltType::from(2));
    assert_eq!(p.get("a"), Some(&BoltType::from(2)));
    assert_eq!(p.get("b"), None);
}

#[test]
fn bolt_text_inside() {
    assert_eq!(BoltType::from("abc").inside(), "abc");
    assert_eq!(BoltType::from(1).inside(), "not implemented");
}

#[test]
fn component_type_to_bolt() {
    assert_eq!(ComponentType::Type1.to_bolt(), BoltType::from("Type1"));
    assert_eq!(ComponentType::read("Type2"), ComponentType::Type2);
    assert_eq!(ComponentType::read("type2"), ComponentType::Type1);
}

#[test]
fn returned_node_column_is_read() {
    let node = DbNode { labels: vec!["Group".to_string()], props: Vec::new() };
    match returned_column("group1", EntityType::Node, Some(DbEntityWrapper::Node(node))) {
        Ok(DbEntityWrapper::Node(n)) => assert_eq!(n.labels, vec!["Group".to_string()]),
        _ => panic!("expected the node back"),
    }
}

#[test]
fn unreadable_columns_are_named_errors() {
    match returned_column("group1", EntityType::Node, None) {
        Err(e) => assert_eq!(e, "Failed to get Node from db for group1"),
        Ok(_) => panic!("expected an error"),
    }
    match returned_column("member_of1", EntityType::Relation, None) {
        Err(e) => assert_eq!(e, "Failed to get Relation from db for member_of1"),
        Ok(_) => panic!("expected an error"),
    }
    let rel = DbRelation { typ: "MEMBER_OF".to_string(), props: Vec::new() };
    match returned_column("with_fn_1", EntityType::FunctionCall, Some(DbEntityWrapper::Relation(rel))) {
        Err(e) => assert_eq!(e, "Not a Node or Relation not sure what you were trying to return here, or why..."),
        Ok(_) => panic!("expected an error"),
    }
}

#[test]
fn set_alias_keeps_every_other_field() {
    let mut g = Group::new("i", "n", true);
    let id = g.get_uuid();
    g.set_alias("Grp7");
    assert_eq!(g.get_alias(), "grp7");
    assert_eq!(g.get_uuid(), id);
    assert_eq!(g.deleted(), &true);
    assert_eq!(g.id(), "i");
    assert_eq!(g.name(), "n");
}

#[test]
fn group_template_round_trip() {
    let t = GroupTemplate::new("gid", "gname", true);
    let back = GroupTemplate::from_entity(&Group::from_template(t));
    assert_eq!(back.id, "gid");
    assert_eq!(back.name, "gname");
    assert!(back.deleted);
}

#[test]
fn joiner_and_component_names_read_back() {
    for j in [CompareJoiner::And, CompareJoiner::Or, CompareJoiner::Not] {
        assert_eq!(CompareJoiner::from(j.to_string().as_str()), j);
    }
    assert_eq!(CompareJoiner::from("aNd"), CompareJoiner::And);
    for t in [ComponentType::Type1, ComponentType::Type2] {
        assert_eq!(ComponentType::from_string(t.to_string()), t);
    }
}

#[test]
fn bolt_string_inside_is_its_text() {
    assert_eq!(neo4rs::BoltString::new("abc").inside(), "abc");
}

#[test]
fn alias_map_extend_prefers_the_other() {
    let mut a = AliasMap::new();
    a.insert(1, "one".to_string());
    a.insert(2, "two".to_string());
    let mut b = AliasMap::new();
    b.insert(2, "deux".to_string());
    b.insert(3, "trois".to_string());
    a.extend(b);
    assert_eq!(a.get(1), Some("one".to_string()));
    assert_eq!(a.get(2), Some("deux".to_string()));
    assert_eq!(a.get(3), Some("trois".to_string()));
    assert_eq!(a.get(4), None);
    let c = a.clone();
    assert_eq!(c.get(2), Some("deux".to_string()));
}
