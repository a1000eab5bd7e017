//! How the names the library writes relate to what it reads and to each
//! other: comparison symbols, labels, relation types and property keys.
use vstd::prelude::*;
use crate::entity_wrapper::{
    EntityWrapper, Label, Nothing, NothingProps, label_of_node, label_of_relation, node_kind, read_from_db,
    relation_kind, nothing_read_from,
};
use crate::external::{ascii_lower, is_ascii_text, pascal_case_of, shouty_snake_of};
use crate::laws::law_component_type_round_trip;
use crate::objects::{
    Component, ComponentProps, ComponentType, Group, GroupProps, HasComponent, HasComponentProps, MemberOf,
    MemberOfProps, Page, PageProps, User, UserProps, component_read_from, group_read_from,
    has_component_read_from, member_of_read_from, page_read_from, user_read_from,
};
use crate::text::string_views;
use crate::traits::{Neo4gEntity, Neo4gLabel, QueryParam};
use crate::types::{CompOper, Order, DbNode, DbRelation, DbValue, DbEntityWrapper, db_lookup};

verus! {

/// Reveals the comparison symbols and their characters.
proof fn lemma_symbols()
    ensures
        "="@ == seq!['='],
        ">"@ == seq!['>'],
        ">="@ == seq!['>', '='],
        "<"@ == seq!['<'],
        "<="@ == seq!['<', '='],
        "<>"@ == seq!['<', '>'],
        "IN"@ == seq!['I', 'N'],
{
    reveal_strlit("=");
    reveal_strlit(">");
    reveal_strlit(">=");
    reveal_strlit("<");
    reveal_strlit("<=");
    reveal_strlit("<>");
    reveal_strlit("IN");
    assert("="@ =~= seq!['=']);
    assert(">"@ =~= seq!['>']);
    assert(">="@ =~= seq!['>', '=']);
    assert("<"@ =~= seq!['<']);
    assert("<="@ =~= seq!['<', '=']);
    assert("<>"@ =~= seq!['<', '>']);
    assert("IN"@ =~= seq!['I', 'N']);
}

/// Distinct comparison operators are written as distinct symbols.
pub proof fn law_comparison_symbols_distinct(a: CompOper, b: CompOper)
    ensures
        a != b ==> a.symbol() != b.symbol(),
{
    lemma_symbols();
    if a != b && a.symbol() == b.symbol() {
        assert(a.symbol().len() == b.symbol().len());
        assert(a.symbol()[0] == b.symbol()[0]);
        if a.symbol().len() == 2 {
            assert(a.symbol()[1] == b.symbol()[1]);
        }
    }
}

/// The comparison symbols are Cypher's: "equal", "greater" and "less" are
/// the characters `=`, `>` and `<`, membership is the word `IN`, and the
/// others are built from these: "at least" is "greater" followed by
/// "equal", "at most" is "less" followed by "equal", and "not equal" is
/// "less" followed by "greater".
pub proof fn law_comparison_symbols_compose()
    ensures
        CompOper::Eq.symbol() == seq!['='],
        CompOper::Gt.symbol() == seq!['>'],
        CompOper::Lt.symbol() == seq!['<'],
        CompOper::In.symbol() == seq!['I', 'N'],
        CompOper::Ge.symbol() == CompOper::Gt.symbol() + CompOper::Eq.symbol(),
        CompOper::Le.symbol() == CompOper::Lt.symbol() + CompOper::Eq.symbol(),
        CompOper::Ne.symbol() == CompOper::Lt.symbol() + CompOper::Gt.symbol(),
{
    lemma_symbols();
    assert(CompOper::Ge.symbol() =~= CompOper::Gt.symbol() + CompOper::Eq.symbol());
    assert(CompOper::Le.symbol() =~= CompOper::Lt.symbol() + CompOper::Eq.symbol());
    assert(CompOper::Ne.symbol() =~= CompOper::Lt.symbol() + CompOper::Gt.symbol());
}

/// An order's keyword reads back as an order that writes the same keyword;
/// only a descending order writes one.
pub proof fn law_order_keywords_read_back(o: Order)
    ensures
        Order::parsed(o.keyword()) matches Some(p) && p.keyword() == o.keyword(),
        o.keyword().len() > 0 <==> o == Order::Desc,
{
    reveal_strlit("DESC");
    reveal_strlit("desc");
    reveal_strlit("asc");
    assert(is_ascii_text("DESC"@));
    assert(ascii_lower("DESC"@) =~= "desc"@);
    assert(is_ascii_text(Seq::<char>::empty()));
    assert(ascii_lower(Seq::<char>::empty()) =~= Seq::<char>::empty());
    assert("desc"@[0] != "asc"@[0]);
}

/// Reveals the label names.
proof fn lemma_label_names()
    ensures
        "Any"@.len() == 3,
        "SysObj"@.len() == 6,
        "Nothing"@.len() == 7,
        "User"@.len() == 4,
        "Group"@.len() == 5,
        "MemberOf"@.len() == 8,
        "HasComponent"@.len() == 12,
        "Page"@.len() == 4,
        "Component"@.len() == 9,
        "User"@[0] == 'U',
        "Page"@[0] == 'P',
{
    reveal_strlit("Any");
    reveal_strlit("SysObj");
    reveal_strlit("Nothing");
    reveal_strlit("User");
    reveal_strlit("Group");
    reveal_strlit("MemberOf");
    reveal_strlit("HasComponent");
    reveal_strlit("Page");
    reveal_strlit("Component");
}

/// A node carrying just a label's name reads back as that label, and a
/// relation whose type is a label's name does too.
pub proof fn law_label_names_read_back(l: Label)
    ensures
        label_of_node(seq![l.label_text()]) == l,
        label_of_relation(l.label_text()) == l,
{
    lemma_label_names();
    let ls = seq![l.label_text()];
    assert(ls[0] == l.label_text());
    assert(ls.contains(l.label_text()));
    assert forall|x: Seq<char>| #[trigger] ls.contains(x) implies x == l.label_text() by {
        let i = choose|i: int| 0 <= i < ls.len() && ls[i] == x;
    }
}

/// Distinct labels are written as distinct names.
pub proof fn law_label_names_distinct(a: Label, b: Label)
    ensures
        a != b ==> a.label_text() != b.label_text(),
{
    law_label_names_read_back(a);
    law_label_names_read_back(b);
}

/// Each entity type is labelled with the name of its kind: a node type with
/// that name, a relation type with that name in SHOUTY_SNAKE_CASE.
pub proof fn law_entity_labels_follow_kinds(
    u: User,
    g: Group,
    m: MemberOf,
    h: HasComponent,
    p: Page,
    c: Component,
)
    ensures
        u.label_spec() == Label::User.label_text(),
        g.label_spec() == Label::Group.label_text(),
        m.label_spec() == shouty_snake_of(Label::MemberOf.label_text()),
        h.label_spec() == shouty_snake_of(Label::HasComponent.label_text()),
        p.label_spec() == Label::Page.label_text(),
        c.label_spec() == Label::Component.label_text(),
{
}

/// Whether `l` names an entity type, a node or a relation type.
pub open spec fn entity_kind(l: Label) -> bool {
    node_kind(l) || relation_kind(l)
}

/// A database node labelled with the name of a node type, and with the name
/// of no other entity type, reads as that type.
pub proof fn law_node_reads_as_its_label(d: DbNode, k: Label, w: EntityWrapper)
    requires
        node_kind(k),
        string_views(d.labels@).contains(k.label_text()),
        forall|j: Label|
            entity_kind(j) && j != k ==> !string_views(d.labels@).contains(#[trigger] j.label_text()),
        read_from_db(DbEntityWrapper::Node(d), w),
    ensures
        w.kind() == k,
{
    let ls = string_views(d.labels@);
    if k != Label::User {
        assert(!ls.contains(Label::User.label_text()));
    }
    if k != Label::Group {
        assert(!ls.contains(Label::Group.label_text()));
    }
    assert(!ls.contains(Label::MemberOf.label_text()));
    assert(!ls.contains(Label::HasComponent.label_text()));
    if k != Label::Page {
        assert(!ls.contains(Label::Page.label_text()));
    }
    if k != Label::Component {
        assert(!ls.contains(Label::Component.label_text()));
    }
}

/// A database relation whose type, in PascalCase, is the name of a relation
/// type reads as that type.
pub proof fn law_relation_reads_as_its_type(d: DbRelation, k: Label, w: EntityWrapper)
    requires
        relation_kind(k),
        pascal_case_of(d.typ@) == k.label_text(),
        read_from_db(DbEntityWrapper::Relation(d), w),
    ensures
        w.kind() == k,
{
    lemma_label_names();
}

/// Whether `v`, looked up among stored properties, holds the value of property
/// `p`: a text as a text, a flag as a boolean, a component kind as its name.
pub open spec fn nothing_stored(p: NothingProps, v: Option<DbValue>) -> bool {
    match p {
        NothingProps::Nothing(b) => v == Some(DbValue::Boolean(b)),
        _ => false,
    }
}

/// The keys a placeholder entity writes its properties under are the keys it is read back
/// by: stored under those keys, its values read back unchanged.
pub proof fn law_nothing_keys_read_back(e: Nothing, props: Seq<(String, DbValue)>, back: Nothing)
    requires
        e.nothing is Nothing,
        nothing_stored(e.nothing, db_lookup(props, e.nothing.key_spec())),
        nothing_read_from(props, back),
    ensures
        back.nothing.value_spec() == e.nothing.value_spec(),
{
    assert(e.nothing.key_spec() == "nothing"@);
}

/// Whether `v`, looked up among stored properties, holds the value of property
/// `p`: a text as a text, a flag as a boolean, a component kind as its name.
pub open spec fn user_stored(p: UserProps, v: Option<DbValue>) -> bool {
    match p {
        UserProps::Id(s) => v matches Some(DbValue::String(t)) && t@ == s@,
        UserProps::Name(s) => v matches Some(DbValue::String(t)) && t@ == s@,
        UserProps::Password(s) => v matches Some(DbValue::String(t)) && t@ == s@,
        UserProps::Forename(s) => v matches Some(DbValue::String(t)) && t@ == s@,
        UserProps::Surname(s) => v matches Some(DbValue::String(t)) && t@ == s@,
        UserProps::Deleted(b) => v == Some(DbValue::Boolean(b)),
        UserProps::Example(s) => v matches Some(DbValue::String(t)) && t@ == s@,
        _ => false,
    }
}

/// The keys a user writes its properties under are the keys it is read back
/// by: stored under those keys, its values read back unchanged.
pub proof fn law_user_keys_read_back(e: User, props: Seq<(String, DbValue)>, back: User)
    requires
        e.id is Id,
        e.name is Name,
        e.password is Password,
        e.forename is Forename,
        e.surname is Surname,
        e.deleted is Deleted,
        e.example is Example,
        user_stored(e.id, db_lookup(props, e.id.key_spec())),
        user_stored(e.name, db_lookup(props, e.name.key_spec())),
        user_stored(e.password, db_lookup(props, e.password.key_spec())),
        user_stored(e.forename, db_lookup(props, e.forename.key_spec())),
        user_stored(e.surname, db_lookup(props, e.surname.key_spec())),
        user_stored(e.deleted, db_lookup(props, e.deleted.key_spec())),
        user_stored(e.example, db_lookup(props, e.example.key_spec())),
        user_read_from(props, back),
    ensures
        back.id.value_spec() == e.id.value_spec(),
        back.name.value_spec() == e.name.value_spec(),
        back.password.value_spec() == e.password.value_spec(),
        back.forename.value_spec() == e.forename.value_spec(),
        back.surname.value_spec() == e.surname.value_spec(),
        back.deleted.value_spec() == e.deleted.value_spec(),
        back.example.value_spec() == e.example.value_spec(),
{
    assert(e.id.key_spec() == "id"@);
    assert(e.name.key_spec() == "name"@);
    assert(e.password.key_spec() == "password"@);
    assert(e.forename.key_spec() == "forename"@);
    assert(e.surname.key_spec() == "surname"@);
    assert(e.deleted.key_spec() == "deleted"@);
    assert(e.example.key_spec() == "example"@);
}

/// Distinct properties of a user are written under distinct keys.
pub proof fn law_user_keys_distinct(e: User)
    requires
        e.id is Id,
        e.name is Name,
        e.password is Password,
        e.forename is Forename,
        e.surname is Surname,
        e.deleted is Deleted,
        e.example is Example,
    ensures
        e.id.key_spec() != e.name.key_spec(),
        e.id.key_spec() != e.password.key_spec(),
        e.id.key_spec() != e.forename.key_spec(),
        e.id.key_spec() != e.surname.key_spec(),
        e.id.key_spec() != e.deleted.key_spec(),
        e.id.key_spec() != e.example.key_spec(),
        e.name.key_spec() != e.password.key_spec(),
        e.name.key_spec() != e.forename.key_spec(),
        e.name.key_spec() != e.surname.key_spec(),
        e.name.key_spec() != e.deleted.key_spec(),
        e.name.key_spec() != e.example.key_spec(),
        e.password.key_spec() != e.forename.key_spec(),
        e.password.key_spec() != e.surname.key_spec(),
        e.password.key_spec() != e.deleted.key_spec(),
        e.password.key_spec() != e.example.key_spec(),
        e.forename.key_spec() != e.surname.key_spec(),
        e.forename.key_spec() != e.deleted.key_spec(),
        e.forename.key_spec() != e.example.key_spec(),
        e.surname.key_spec() != e.deleted.key_spec(),
        e.surname.key_spec() != e.example.key_spec(),
        e.deleted.key_spec() != e.example.key_spec(),
{
    assert(e.id.key_spec() == "id"@);
    assert(e.name.key_spec() == "name"@);
    assert(e.password.key_spec() == "password"@);
    assert(e.forename.key_spec() == "forename"@);
    assert(e.surname.key_spec() == "surname"@);
    assert(e.deleted.key_spec() == "deleted"@);
    assert(e.example.key_spec() == "example"@);
    reveal_strlit("id");
    reveal_strlit("name");
    reveal_strlit("password");
    reveal_strlit("forename");
    reveal_strlit("surname");
    reveal_strlit("deleted");
    reveal_strlit("example");
    assert("password"@[0] != "forename"@[0]);
    assert("surname"@[0] != "deleted"@[0]);
    assert("surname"@[0] != "example"@[0]);
    assert("deleted"@[0] != "example"@[0]);
}

/// Whether `v`, looked up among stored properties, holds the value of property
/// `p`: a text as a text, a flag as a boolean, a component kind as its name.
pub open spec fn group_stored(p: GroupProps, v: Option<DbValue>) -> bool {
    match p {
        GroupProps::Id(s) => v matches Some(DbValue::String(t)) && t@ == s@,
        GroupProps::Name(s) => v matches Some(DbValue::String(t)) && t@ == s@,
        GroupProps::Deleted(b) => v == Some(DbValue::Boolean(b)),
        _ => false,
    }
}

/// The keys a group writes its properties under are the keys it is read back
/// by: stored under those keys, its values read back unchanged.
pub proof fn law_group_keys_read_back(e: Group, props: Seq<(String, DbValue)>, back: Group)
    requires
        e.id is Id,
        e.name is Name,
        e.deleted is Deleted,
        group_stored(e.id, db_lookup(props, e.id.key_spec())),
        group_stored(e.name, db_lookup(props, e.name.key_spec())),
        group_stored(e.deleted, db_lookup(props, e.deleted.key_spec())),
        group_read_from(props, back),
    ensures
        back.id.value_spec() == e.id.value_spec(),
        back.name.value_spec() == e.name.value_spec(),
        back.deleted.value_spec() == e.deleted.value_spec(),
{
    assert(e.id.key_spec() == "id"@);
    assert(e.name.key_spec() == "name"@);
    assert(e.deleted.key_spec() == "deleted"@);
}

/// Distinct properties of a group are written under distinct keys.
pub proof fn law_group_keys_distinct(e: Group)
    requires
        e.id is Id,
        e.name is Name,
        e.deleted is Deleted,
    ensures
        e.id.key_spec() != e.name.key_spec(),
        e.id.key_spec() != e.deleted.key_spec(),
        e.name.key_spec() != e.deleted.key_spec(),
{
    assert(e.id.key_spec() == "id"@);
    assert(e.name.key_spec() == "name"@);
    assert(e.deleted.key_spec() == "deleted"@);
    reveal_strlit("id");
    reveal_strlit("name");
    reveal_strlit("deleted");
}

/// Whether `v`, looked up among stored properties, holds the value of property
/// `p`: a text as a text, a flag as a boolean, a component kind as its name.
pub open spec fn member_of_stored(p: MemberOfProps, v: Option<DbValue>) -> bool {
    match p {
        MemberOfProps::Deleted(b) => v == Some(DbValue::Boolean(b)),
        _ => false,
    }
}

/// The keys a membership writes its properties under are the keys it is read back
/// by: stored under those keys, its values read back unchanged.
pub proof fn law_member_of_keys_read_back(e: MemberOf, props: Seq<(String, DbValue)>, back: MemberOf)
    requires
        e.deleted is Deleted,
        member_of_stored(e.deleted, db_lookup(props, e.deleted.key_spec())),
        member_of_read_from(props, back),
    ensures
        back.deleted.value_spec() == e.deleted.value_spec(),
{
    assert(e.deleted.key_spec() == "deleted"@);
}

/// Whether `v`, looked up among stored properties, holds the value of property
/// `p`: a text as a text, a flag as a boolean, a component kind as its name.
pub open spec fn has_component_stored(p: HasComponentProps, v: Option<DbValue>) -> bool {
    match p {
        HasComponentProps::Deleted(b) => v == Some(DbValue::Boolean(b)),
        _ => false,
    }
}

/// The keys a page-component link writes its properties under are the keys it is read back
/// by: stored under those keys, its values read back unchanged.
pub proof fn law_has_component_keys_read_back(e: HasComponent, props: Seq<(String, DbValue)>, back: HasComponent)
    requires
        e.deleted is Deleted,
        has_component_stored(e.deleted, db_lookup(props, e.deleted.key_spec())),
        has_component_read_from(props, back),
    ensures
        back.deleted.value_spec() == e.deleted.value_spec(),
{
    assert(e.deleted.key_spec() == "deleted"@);
}

/// Whether `v`, looked up among stored properties, holds the value of property
/// `p`: a text as a text, a flag as a boolean, a component kind as its name.
pub open spec fn page_stored(p: PageProps, v: Option<DbValue>) -> bool {
    match p {
        PageProps::Id(s) => v matches Some(DbValue::String(t)) && t@ == s@,
        PageProps::Path(s) => v matches Some(DbValue::String(t)) && t@ == s@,
        _ => false,
    }
}

/// The keys a page writes its properties under are the keys it is read back
/// by: stored under those keys, its values read back unchanged.
pub proof fn law_page_keys_read_back(e: Page, props: Seq<(String, DbValue)>, back: Page)
    requires
        e.id is Id,
        e.path is Path,
        page_stored(e.id, db_lookup(props, e.id.key_spec())),
        page_stored(e.path, db_lookup(props, e.path.key_spec())),
        page_read_from(props, back),
    ensures
        back.id.value_spec() == e.id.value_spec(),
        back.path.value_spec() == e.path.value_spec(),
{
    assert(e.id.key_spec() == "id"@);
    assert(e.path.key_spec() == "path"@);
}

/// Distinct properties of a page are written under distinct keys.
pub proof fn law_page_keys_distinct(e: Page)
    requires
        e.id is Id,
        e.path is Path,
    ensures
        e.id.key_spec() != e.path.key_spec(),
{
    assert(e.id.key_spec() == "id"@);
    assert(e.path.key_spec() == "path"@);
    reveal_strlit("id");
    reveal_strlit("path");

}

/// Whether `v`, looked up among stored properties, holds the value of property
/// `p`: a text as a text, a flag as a boolean, a component kind as its name.
pub open spec fn component_stored(p: ComponentProps, v: Option<DbValue>) -> bool {
    match p {
        ComponentProps::Id(s) => v matches Some(DbValue::String(t)) && t@ == s@,
        ComponentProps::Path(s) => v matches Some(DbValue::String(t)) && t@ == s@,
        ComponentProps::ComponentType(c) => v matches Some(DbValue::String(t)) && t@ == c.name(),
        _ => false,
    }
}

/// The keys a component writes its properties under are the keys it is read back
/// by: stored under those keys, its values read back unchanged.
pub proof fn law_component_keys_read_back(e: Component, props: Seq<(String, DbValue)>, back: Component)
    requires
        e.id is Id,
        e.path is Path,
        e.component_type is ComponentType,
        component_stored(e.id, db_lookup(props, e.id.key_spec())),
        component_stored(e.path, db_lookup(props, e.path.key_spec())),
        component_stored(e.component_type, db_lookup(props, e.component_type.key_spec())),
        component_read_from(props, back),
    ensures
        back.id.value_spec() == e.id.value_spec(),
        back.path.value_spec() == e.path.value_spec(),
        back.component_type.value_spec() == e.component_type.value_spec(),
{
    assert(e.id.key_spec() == "id"@);
    assert(e.path.key_spec() == "path"@);
    assert(e.component_type.key_spec() == "component_type"@);
    law_component_type_round_trip(match e.component_type { ComponentProps::ComponentType(c) => c, _ => ComponentType::Type1 });
}

/// Distinct properties of a component are written under distinct keys.
pub proof fn law_component_keys_distinct(e: Component)
    requires
        e.id is Id,
        e.path is Path,
        e.component_type is ComponentType,
    ensures
        e.id.key_spec() != e.path.key_spec(),
        e.id.key_spec() != e.component_type.key_spec(),
        e.path.key_spec() != e.component_type.key_spec(),
{
    assert(e.id.key_spec() == "id"@);
    assert(e.path.key_spec() == "path"@);
    assert(e.component_type.key_spec() == "component_type"@);
    reveal_strlit("id");
    reveal_strlit("path");
    reveal_strlit("component_type");

}

} // verus!
