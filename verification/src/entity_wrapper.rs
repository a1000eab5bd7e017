//! The enums over all entity types: entities as a query returns them, their
//! properties, and the labels a node may carry.
use vstd::prelude::*;
use vstd::string::*;
use neo4rs::BoltType;
use crate::collections::{Params, Piece, Token, pieces, push_text};
use crate::external::{
    bolt_boolean, bolt_from_bool, bolt_from_i32, bolt_from_string, bolt_integer, bolt_string,
    lower_form, new_id, pascal_case_of, to_lowercase_text, to_pascal_case_text,
};
use crate::objects::{
    Component, ComponentProps, Group, GroupProps, HasComponent, HasComponentProps, MemberOf,
    MemberOfProps, Page, PageProps, User, UserProps, component_read_from, group_read_from,
    has_component_read_from, member_of_read_from, page_read_from, user_read_from,
};
use crate::patterns::{node_by, node_pattern, prop_params};
use crate::state::set_assignments;
use crate::text::{join, join_text, string_views, text_eq};
use crate::traits::{Aliasable, Neo4gEntity, Neo4gLabel, Paramable, QueryParam, WrappedNeo4gEntity};
use crate::types::{DbEntityWrapper, DbValue, EntityType, db_flag, db_get_flag, db_get_text, db_text, has_label};

verus! {

/// The plain form of a placeholder entity, read back when nothing else fits, whose fields hold the values themselves.
#[derive(Debug)]
pub struct NothingTemplate {
    pub nothing: bool,
}

impl NothingTemplate {
    /// A template holding the given values.
    pub fn new(nothing: bool) -> (r: Self)
        ensures
            r.nothing == nothing,
    {
        NothingTemplate { nothing }
    }

    /// The plain values of `entity`.
    pub fn from_entity(entity: &Nothing) -> (r: Self)
        requires
            entity.nothing is Nothing,
        ensures
            entity.nothing == NothingProps::Nothing(r.nothing),
    {
        NothingTemplate { nothing: *entity.nothing() }
    }
}

/// The properties of a placeholder entity, read back when nothing else fits: each holds a value, or, as `Current...`,
/// stands for the value the Nothing holds.
#[derive(Debug)]
pub enum NothingProps {
    Nothing(bool),
    CurrentNothing,
}

impl Clone for NothingProps {
    fn clone(&self) -> (r: Self)
        ensures
            r == *self,
    {
        match self {
            NothingProps::Nothing(v) => NothingProps::Nothing(*v),
            NothingProps::CurrentNothing => NothingProps::CurrentNothing,
        }
    }
}

impl QueryParam for NothingProps {
    open spec fn key_spec(&self) -> Seq<char> {
        match self {
            NothingProps::Nothing(_) => "nothing"@,
            _ => "nope"@,
        }
    }

    open spec fn value_spec(&self) -> BoltType {
        match self {
            NothingProps::Nothing(v) => bolt_boolean(*v),
            _ => bolt_integer(0),
        }
    }

    fn to_query_param(&self) -> (r: (&'static str, BoltType)) {
        match self {
            NothingProps::Nothing(v) => ("nothing", bolt_from_bool(*v)),
            _ => ("nope", bolt_from_i32(0)),
        }
    }
}

impl NothingProps {
    /// The value of a `Nothing` property.
    pub fn nothing(&self) -> (r: &bool)
        requires
            *self is Nothing,
        ensures
            *self == NothingProps::Nothing(*r),
        decreases 0nat,
    {
        match self {
            NothingProps::Nothing(v) => v,
            _ => {
                proof {
                    assert(false);
                }
                self.nothing()
            },
        }
    }
}

/// A placeholder entity, read back when nothing else fits, as the query builder writes and reads it: an alias,
/// an id, and each property held as a `NothingProps`.
#[derive(Debug)]
pub struct Nothing {
    pub alias: String,
    pub uuid: u128,
    pub entity_type: EntityType,
    pub nothing: NothingProps,
}

impl Clone for Nothing {
    fn clone(&self) -> (r: Self)
        ensures
            r == *self,
    {
        Nothing { alias: self.alias.clone(), uuid: self.uuid, entity_type: self.entity_type, nothing: self.nothing.clone() }
    }
}

impl Default for Nothing {
    fn default() -> (r: Self)
        ensures
            r.alias@ == Seq::<char>::empty(),
            r.entity_type == EntityType::Node,
            r.nothing == NothingProps::Nothing(false),
    {
        Nothing { alias: String::new(), uuid: new_id(), entity_type: EntityType::Node, nothing: NothingProps::Nothing(false) }
    }
}

/// Whether `e` is a placeholder entity, read back when nothing else fits read from properties `props`: no alias yet,
/// each property read under its own name, any list left empty.
pub open spec fn nothing_read_from(props: Seq<(String, DbValue)>, e: Nothing) -> bool {
    &&& e.alias@ == Seq::<char>::empty()
    &&& e.entity_type == EntityType::Node
    &&& e.nothing == NothingProps::Nothing(db_flag(props, "nothing"@))
}

impl Nothing {
    /// A placeholder entity, read back when nothing else fits holding the given values, with no alias yet and a fresh
    /// random id.
    pub fn new(nothing: bool) -> (r: Self)
        ensures
            r.alias@ == Seq::<char>::empty(),
            r.entity_type == EntityType::Node,
            r.nothing == NothingProps::Nothing(nothing),
    {
        Nothing { alias: String::new(), uuid: new_id(), entity_type: EntityType::Node, nothing: NothingProps::Nothing(nothing) }
    }

    /// A placeholder entity, read back when nothing else fits holding the template's values, with no alias yet and a
    /// fresh random id.
    pub fn from_template(template: NothingTemplate) -> (r: Self)
        ensures
            r.alias@ == Seq::<char>::empty(),
            r.entity_type == EntityType::Node,
            r.nothing == NothingProps::Nothing(template.nothing),
    {
        Nothing { alias: String::new(), uuid: new_id(), entity_type: EntityType::Node, nothing: NothingProps::Nothing(template.nothing) }
    }

    /// The value of the `nothing` property.
    pub fn nothing(&self) -> (r: &bool)
        requires
            self.nothing is Nothing,
        ensures
            self.nothing == NothingProps::Nothing(*r),
    {
        self.nothing.nothing()
    }

    /// The entity's properties, in field order.
    pub fn self_to_props(&self) -> (r: Vec<NothingProps>)
        ensures
            r@ == self.own_props(),
    {
        let mut v = Vec::new();
        v.push(self.nothing.clone());
        assert(v@ =~= seq![self.nothing]);
        v
    }

    /// Wraps a copy of the entity.
    pub fn wrap(&self) -> (r: EntityWrapper)
        ensures
            r == EntityWrapper::Nothing(*self),
    {
        EntityWrapper::Nothing(self.clone())
    }

    /// Reads a placeholder entity, read back when nothing else fits from a database node, each property under its own name;
    /// anything else reads as `Nothing`.
    pub fn from_db_entity(db_entity: DbEntityWrapper) -> (r: EntityWrapper)
        ensures
            match db_entity {
                DbEntityWrapper::Node(d) => r matches EntityWrapper::Nothing(e) && nothing_read_from(d.props@, e),
                DbEntityWrapper::Relation(_) => r is Nothing,
            },
    {
        match db_entity {
            DbEntityWrapper::Node(d) => {
                EntityWrapper::Nothing(Nothing { alias: String::new(), uuid: new_id(), entity_type: EntityType::Node, nothing: NothingProps::Nothing(db_get_flag(&d.props, "nothing")) })
            },
            DbEntityWrapper::Relation(_) => EntityWrapper::Nothing(Nothing::default()),
        }
    }
}

impl Paramable for Nothing {
    open spec fn text_spec(&self) -> Seq<Piece> {
        seq![Piece::Text(self.alias@)]
    }

    open spec fn ids_spec(&self) -> Seq<u128> {
        Seq::empty()
    }

    open spec fn params_spec(&self) -> Map<Seq<char>, BoltType> {
        Map::empty()
    }

    fn to_query_uuid_param(&self) -> (r: (Vec<Token>, Vec<u128>, Params)) {
        let mut t = Vec::new();
        push_text(&mut t, self.alias.as_str());
        assert(pieces(t@) =~= seq![Piece::Text(self.alias@)]);
        (t, Vec::new(), Params::new())
    }
}

impl Aliasable for Nothing {
    open spec fn alias_spec(&self) -> Seq<char> {
        self.alias@
    }

    open spec fn uuid_spec(&self) -> u128 {
        self.uuid
    }

    open spec fn alias_after(&self, alias: Seq<char>) -> Seq<char> {
        lower_form(alias)
    }

    open spec fn same_but_alias(&self, other: &Self) -> bool {
        &&& self.uuid == other.uuid
        &&& self.entity_type == other.entity_type
        &&& self.nothing == other.nothing
    }

    fn get_alias(&self) -> (r: String) {
        self.alias.clone()
    }

    fn set_alias(&mut self, alias: &str) {
        self.alias = to_lowercase_text(alias);
    }

    fn get_uuid(&self) -> (r: u128) {
        self.uuid
    }
}

impl Neo4gEntity for Nothing {
    type Props = NothingProps;

    open spec fn entity_type_spec(&self) -> EntityType {
        self.entity_type
    }

    open spec fn label_spec(&self) -> Seq<char> {
        "Nothing"@
    }

    open spec fn own_props(&self) -> Seq<NothingProps> {
        seq![self.nothing]
    }

    open spec fn pattern_text(&self, alias: Seq<char>, props: Seq<NothingProps>) -> Seq<char> {
        node_pattern(self.label_spec(), alias, props)
    }

    open spec fn pattern_params(&self, alias: Seq<char>, props: Seq<NothingProps>) -> Map<Seq<char>, BoltType> {
        prop_params(alias, props)
    }

    open spec fn current_spec(&self, prop: NothingProps) -> NothingProps {
        match prop {
            NothingProps::CurrentNothing => self.nothing,
            _ => prop,
        }
    }

    proof fn lemma_alias_free(a: &Self, b: &Self) {
    }

    fn get_entity_type(&self) -> (r: EntityType) {
        self.entity_type
    }

    fn get_label(&self) -> (r: String) {
        String::from_str("Nothing")
    }

    fn entity_by(&self, alias: &str, props: &[NothingProps]) -> (r: (String, Params)) {
        let label = self.get_label();
        node_by(label.as_str(), alias, props)
    }

    fn create_from_self(&self) -> (r: (String, Params)) {
        let props = self.self_to_props();
        self.entity_by(self.alias.as_str(), props.as_slice())
    }

    fn get_current(&self, prop: &NothingProps) -> (r: NothingProps) {
        match prop {
            NothingProps::CurrentNothing => self.nothing.clone(),
            _ => prop.clone(),
        }
    }
}

/// An entity of any of the application's types, as a query returns it.
#[derive(Debug, Clone)]
pub enum EntityWrapper {
    Nothing(Nothing),
    User(User),
    Group(Group),
    MemberOf(MemberOf),
    HasComponent(HasComponent),
    Page(Page),
    Component(Component),
}

impl From<Nothing> for EntityWrapper {
    fn from(entity: Nothing) -> (r: Self) {
        EntityWrapper::Nothing(entity)
    }
}

impl vstd::std_specs::convert::FromSpecImpl<Nothing> for EntityWrapper {
    open spec fn obeys_from_spec() -> bool {
        true
    }

    open spec fn from_spec(entity: Nothing) -> Self {
        EntityWrapper::Nothing(entity)
    }
}

impl From<User> for EntityWrapper {
    fn from(entity: User) -> (r: Self) {
        EntityWrapper::User(entity)
    }
}

impl vstd::std_specs::convert::FromSpecImpl<User> for EntityWrapper {
    open spec fn obeys_from_spec() -> bool {
        true
    }

    open spec fn from_spec(entity: User) -> Self {
        EntityWrapper::User(entity)
    }
}

impl From<Group> for EntityWrapper {
    fn from(entity: Group) -> (r: Self) {
        EntityWrapper::Group(entity)
    }
}

impl vstd::std_specs::convert::FromSpecImpl<Group> for EntityWrapper {
    open spec fn obeys_from_spec() -> bool {
        true
    }

    open spec fn from_spec(entity: Group) -> Self {
        EntityWrapper::Group(entity)
    }
}

impl From<MemberOf> for EntityWrapper {
    fn from(entity: MemberOf) -> (r: Self) {
        EntityWrapper::MemberOf(entity)
    }
}

impl vstd::std_specs::convert::FromSpecImpl<MemberOf> for EntityWrapper {
    open spec fn obeys_from_spec() -> bool {
        true
    }

    open spec fn from_spec(entity: MemberOf) -> Self {
        EntityWrapper::MemberOf(entity)
    }
}

impl From<HasComponent> for EntityWrapper {
    fn from(entity: HasComponent) -> (r: Self) {
        EntityWrapper::HasComponent(entity)
    }
}

impl vstd::std_specs::convert::FromSpecImpl<HasComponent> for EntityWrapper {
    open spec fn obeys_from_spec() -> bool {
        true
    }

    open spec fn from_spec(entity: HasComponent) -> Self {
        EntityWrapper::HasComponent(entity)
    }
}

impl From<Page> for EntityWrapper {
    fn from(entity: Page) -> (r: Self) {
        EntityWrapper::Page(entity)
    }
}

impl vstd::std_specs::convert::FromSpecImpl<Page> for EntityWrapper {
    open spec fn obeys_from_spec() -> bool {
        true
    }

    open spec fn from_spec(entity: Page) -> Self {
        EntityWrapper::Page(entity)
    }
}

impl From<Component> for EntityWrapper {
    fn from(entity: Component) -> (r: Self) {
        EntityWrapper::Component(entity)
    }
}

impl vstd::std_specs::convert::FromSpecImpl<Component> for EntityWrapper {
    open spec fn obeys_from_spec() -> bool {
        true
    }

    open spec fn from_spec(entity: Component) -> Self {
        EntityWrapper::Component(entity)
    }
}

impl EntityWrapper {
    /// The wrapped Nothing, if it is one.
    pub fn get_nothing(&self) -> (r: Option<&Nothing>)
        ensures
            r is Some <==> *self is Nothing,
            r matches Some(e) ==> *self == EntityWrapper::Nothing(*e),
    {
        match self {
            EntityWrapper::Nothing(e) => Some(e),
            _ => None,
        }
    }

    /// The wrapped User, if it is one.
    pub fn get_user(&self) -> (r: Option<&User>)
        ensures
            r is Some <==> *self is User,
            r matches Some(e) ==> *self == EntityWrapper::User(*e),
    {
        match self {
            EntityWrapper::User(e) => Some(e),
            _ => None,
        }
    }

    /// The wrapped Group, if it is one.
    pub fn get_group(&self) -> (r: Option<&Group>)
        ensures
            r is Some <==> *self is Group,
            r matches Some(e) ==> *self == EntityWrapper::Group(*e),
    {
        match self {
            EntityWrapper::Group(e) => Some(e),
            _ => None,
        }
    }

    /// The wrapped MemberOf, if it is one.
    pub fn get_memberof(&self) -> (r: Option<&MemberOf>)
        ensures
            r is Some <==> *self is MemberOf,
            r matches Some(e) ==> *self == EntityWrapper::MemberOf(*e),
    {
        match self {
            EntityWrapper::MemberOf(e) => Some(e),
            _ => None,
        }
    }

    /// The wrapped HasComponent, if it is one.
    pub fn get_hascomponent(&self) -> (r: Option<&HasComponent>)
        ensures
            r is Some <==> *self is HasComponent,
            r matches Some(e) ==> *self == EntityWrapper::HasComponent(*e),
    {
        match self {
            EntityWrapper::HasComponent(e) => Some(e),
            _ => None,
        }
    }

    /// The wrapped Page, if it is one.
    pub fn get_page(&self) -> (r: Option<&Page>)
        ensures
            r is Some <==> *self is Page,
            r matches Some(e) ==> *self == EntityWrapper::Page(*e),
    {
        match self {
            EntityWrapper::Page(e) => Some(e),
            _ => None,
        }
    }

    /// The wrapped Component, if it is one.
    pub fn get_component(&self) -> (r: Option<&Component>)
        ensures
            r is Some <==> *self is Component,
            r matches Some(e) ==> *self == EntityWrapper::Component(*e),
    {
        match self {
            EntityWrapper::Component(e) => Some(e),
            _ => None,
        }
    }

    /// The type a database entity reads as: for a node, the first type
    /// (in declaration order) among its labels; for a relation, the type
    /// whose name is its relation type in PascalCase.
    pub open spec fn kind_of(db: DbEntityWrapper) -> Label {
        match db {
            DbEntityWrapper::Node(n) => {
                if string_views(n.labels@).contains("User"@) {
                    Label::User
                } else if string_views(n.labels@).contains("Group"@) {
                    Label::Group
                } else if string_views(n.labels@).contains("MemberOf"@) {
                    Label::MemberOf
                } else if string_views(n.labels@).contains("HasComponent"@) {
                    Label::HasComponent
                } else if string_views(n.labels@).contains("Page"@) {
                    Label::Page
                } else if string_views(n.labels@).contains("Component"@) {
                    Label::Component
                } else {
                    Label::Nothing
                }
            },
            DbEntityWrapper::Relation(rel) => {
                if pascal_case_of(rel.typ@) == "User"@ {
                    Label::User
                } else if pascal_case_of(rel.typ@) == "Group"@ {
                    Label::Group
                } else if pascal_case_of(rel.typ@) == "MemberOf"@ {
                    Label::MemberOf
                } else if pascal_case_of(rel.typ@) == "HasComponent"@ {
                    Label::HasComponent
                } else if pascal_case_of(rel.typ@) == "Page"@ {
                    Label::Page
                } else if pascal_case_of(rel.typ@) == "Component"@ {
                    Label::Component
                } else {
                    Label::Nothing
                }
            },
        }
    }

    /// The wrapped entity's type.
    pub open spec fn kind(&self) -> Label {
        match self {
            EntityWrapper::Nothing(_) => Label::Nothing,
            EntityWrapper::User(_) => Label::User,
            EntityWrapper::Group(_) => Label::Group,
            EntityWrapper::MemberOf(_) => Label::MemberOf,
            EntityWrapper::HasComponent(_) => Label::HasComponent,
            EntityWrapper::Page(_) => Label::Page,
            EntityWrapper::Component(_) => Label::Component,
        }
    }
}

/// Whether `w` holds what `db` reads as: the entity of the type `db` is
/// read as, its properties read from `db`, or `Nothing` when that type is
/// not of `db`'s kind (a node type for a node, a relation type for a
/// relation) or there is none.
pub open spec fn read_from_db(db: DbEntityWrapper, w: EntityWrapper) -> bool {
    match w {
        EntityWrapper::Nothing(_) => match db {
            DbEntityWrapper::Node(_) => !node_kind(EntityWrapper::kind_of(db)),
            DbEntityWrapper::Relation(_) => !relation_kind(EntityWrapper::kind_of(db)),
        },
        EntityWrapper::User(e) => EntityWrapper::kind_of(db) == Label::User && (db matches DbEntityWrapper::Node(d) && user_read_from(d.props@, e)),
        EntityWrapper::Group(e) => EntityWrapper::kind_of(db) == Label::Group && (db matches DbEntityWrapper::Node(d) && group_read_from(d.props@, e)),
        EntityWrapper::MemberOf(e) => EntityWrapper::kind_of(db) == Label::MemberOf && (db matches DbEntityWrapper::Relation(d) && member_of_read_from(d.props@, e)),
        EntityWrapper::HasComponent(e) => EntityWrapper::kind_of(db) == Label::HasComponent && (db matches DbEntityWrapper::Relation(d) && has_component_read_from(d.props@, e)),
        EntityWrapper::Page(e) => EntityWrapper::kind_of(db) == Label::Page && (db matches DbEntityWrapper::Node(d) && page_read_from(d.props@, e)),
        EntityWrapper::Component(e) => EntityWrapper::kind_of(db) == Label::Component && (db matches DbEntityWrapper::Node(d) && component_read_from(d.props@, e)),
    }
}

/// The alias of the wrapped entity; `Nothing` has none.
pub open spec fn wrapped_alias(w: EntityWrapper) -> Seq<char> {
    match w {
        EntityWrapper::Nothing(_) => Seq::empty(),
        EntityWrapper::User(e) => e.alias@,
        EntityWrapper::Group(e) => e.alias@,
        EntityWrapper::MemberOf(e) => e.alias@,
        EntityWrapper::HasComponent(e) => e.alias@,
        EntityWrapper::Page(e) => e.alias@,
        EntityWrapper::Component(e) => e.alias@,
    }
}

impl Paramable for EntityWrapper {
    open spec fn text_spec(&self) -> Seq<Piece> {
        seq![Piece::Text(wrapped_alias(*self))]
    }

    open spec fn ids_spec(&self) -> Seq<u128> {
        Seq::empty()
    }

    open spec fn params_spec(&self) -> Map<Seq<char>, BoltType> {
        Map::empty()
    }

    fn to_query_uuid_param(&self) -> (r: (Vec<Token>, Vec<u128>, Params)) {
        let a = self.get_alias();
        let mut t = Vec::new();
        push_text(&mut t, a.as_str());
        assert(pieces(t@) =~= seq![Piece::Text(wrapped_alias(*self))]);
        (t, Vec::new(), Params::new())
    }
}

impl Aliasable for EntityWrapper {
    open spec fn alias_spec(&self) -> Seq<char> {
        wrapped_alias(*self)
    }

    open spec fn uuid_spec(&self) -> u128 {
        match self {
            EntityWrapper::Nothing(e) => e.uuid,
            EntityWrapper::User(e) => e.uuid,
            EntityWrapper::Group(e) => e.uuid,
            EntityWrapper::MemberOf(e) => e.uuid,
            EntityWrapper::HasComponent(e) => e.uuid,
            EntityWrapper::Page(e) => e.uuid,
            EntityWrapper::Component(e) => e.uuid,
        }
    }

    open spec fn alias_after(&self, alias: Seq<char>) -> Seq<char> {
        match self {
            EntityWrapper::Nothing(_) => Seq::empty(),
            _ => lower_form(alias),
        }
    }

    open spec fn same_but_alias(&self, other: &Self) -> bool {
        match (self, other) {
            (EntityWrapper::Nothing(x), EntityWrapper::Nothing(y)) => x.same_but_alias(y),
            (EntityWrapper::User(x), EntityWrapper::User(y)) => x.same_but_alias(y),
            (EntityWrapper::Group(x), EntityWrapper::Group(y)) => x.same_but_alias(y),
            (EntityWrapper::MemberOf(x), EntityWrapper::MemberOf(y)) => x.same_but_alias(y),
            (EntityWrapper::HasComponent(x), EntityWrapper::HasComponent(y)) => x.same_but_alias(y),
            (EntityWrapper::Page(x), EntityWrapper::Page(y)) => x.same_but_alias(y),
            (EntityWrapper::Component(x), EntityWrapper::Component(y)) => x.same_but_alias(y),
            _ => false,
        }
    }

    fn get_alias(&self) -> (r: String) {
        match self {
            EntityWrapper::Nothing(_) => String::new(),
            EntityWrapper::User(e) => e.get_alias(),
            EntityWrapper::Group(e) => e.get_alias(),
            EntityWrapper::MemberOf(e) => e.get_alias(),
            EntityWrapper::HasComponent(e) => e.get_alias(),
            EntityWrapper::Page(e) => e.get_alias(),
            EntityWrapper::Component(e) => e.get_alias(),
        }
    }

    fn set_alias(&mut self, alias: &str) {
        match self {
            EntityWrapper::Nothing(_) => {},
            EntityWrapper::User(e) => e.set_alias(alias),
            EntityWrapper::Group(e) => e.set_alias(alias),
            EntityWrapper::MemberOf(e) => e.set_alias(alias),
            EntityWrapper::HasComponent(e) => e.set_alias(alias),
            EntityWrapper::Page(e) => e.set_alias(alias),
            EntityWrapper::Component(e) => e.set_alias(alias),
        }
    }

    fn get_uuid(&self) -> (r: u128) {
        match self {
            EntityWrapper::Nothing(e) => e.uuid,
            EntityWrapper::User(e) => e.uuid,
            EntityWrapper::Group(e) => e.uuid,
            EntityWrapper::MemberOf(e) => e.uuid,
            EntityWrapper::HasComponent(e) => e.uuid,
            EntityWrapper::Page(e) => e.uuid,
            EntityWrapper::Component(e) => e.uuid,
        }
    }
}

impl WrappedNeo4gEntity for EntityWrapper {
    open spec fn wrapped_type_spec(&self) -> EntityType {
        match self {
            EntityWrapper::Nothing(_) => EntityType::Node,
            EntityWrapper::User(e) => e.entity_type,
            EntityWrapper::Group(e) => e.entity_type,
            EntityWrapper::MemberOf(e) => e.entity_type,
            EntityWrapper::HasComponent(e) => e.entity_type,
            EntityWrapper::Page(e) => e.entity_type,
            EntityWrapper::Component(e) => e.entity_type,
        }
    }

    fn from_db_entity(db_entity: DbEntityWrapper) -> (r: Self)
        ensures
            read_from_db(db_entity, r),
    {
        let found = match &db_entity {
            DbEntityWrapper::Node(n) => {
                if has_label(&n.labels, "User") {
                    1u8
                } else if has_label(&n.labels, "Group") {
                    2u8
                } else if has_label(&n.labels, "MemberOf") {
                    3u8
                } else if has_label(&n.labels, "HasComponent") {
                    4u8
                } else if has_label(&n.labels, "Page") {
                    5u8
                } else if has_label(&n.labels, "Component") {
                    6u8
                } else {
                    0u8
                }
            },
            DbEntityWrapper::Relation(rel) => {
                let t = to_pascal_case_text(rel.typ.as_str());
                if text_eq(t.as_str(), "User") {
                    1u8
                } else if text_eq(t.as_str(), "Group") {
                    2u8
                } else if text_eq(t.as_str(), "MemberOf") {
                    3u8
                } else if text_eq(t.as_str(), "HasComponent") {
                    4u8
                } else if text_eq(t.as_str(), "Page") {
                    5u8
                } else if text_eq(t.as_str(), "Component") {
                    6u8
                } else {
                    0u8
                }
            },
        };
        match found {
            1u8 => User::from_db_entity(db_entity),
            2u8 => Group::from_db_entity(db_entity),
            3u8 => MemberOf::from_db_entity(db_entity),
            4u8 => HasComponent::from_db_entity(db_entity),
            5u8 => Page::from_db_entity(db_entity),
            6u8 => Component::from_db_entity(db_entity),
            _ => EntityWrapper::Nothing(Nothing::new(true)),
        }
    }

    fn get_entity_type(&self) -> (r: EntityType) {
        match self {
            EntityWrapper::Nothing(_) => EntityType::Node,
            EntityWrapper::User(e) => e.entity_type,
            EntityWrapper::Group(e) => e.entity_type,
            EntityWrapper::MemberOf(e) => e.entity_type,
            EntityWrapper::HasComponent(e) => e.entity_type,
            EntityWrapper::Page(e) => e.entity_type,
            EntityWrapper::Component(e) => e.entity_type,
        }
    }
}

/// Whether `kind` is a node type.
pub open spec fn node_kind(kind: Label) -> bool {
    kind == Label::User || kind == Label::Group || kind == Label::Page || kind == Label::Component
}

/// Whether `kind` is a relation type.
pub open spec fn relation_kind(kind: Label) -> bool {
    kind == Label::MemberOf || kind == Label::HasComponent
}

impl PartialEq for EntityWrapper {
    fn eq(&self, other: &Self) -> (r: bool) {
        match (self, other) {
            (EntityWrapper::User(_), EntityWrapper::User(_)) => true,
            (EntityWrapper::Group(_), EntityWrapper::Group(_)) => true,
            (EntityWrapper::MemberOf(_), EntityWrapper::MemberOf(_)) => true,
            (EntityWrapper::HasComponent(_), EntityWrapper::HasComponent(_)) => true,
            (EntityWrapper::Page(_), EntityWrapper::Page(_)) => true,
            (EntityWrapper::Component(_), EntityWrapper::Component(_)) => true,
            _ => false,
        }
    }
}

impl vstd::std_specs::cmp::PartialEqSpecImpl for EntityWrapper {
    open spec fn obeys_eq_spec() -> bool {
        true
    }

    open spec fn eq_spec(&self, other: &Self) -> bool {
        self.kind() == other.kind() && self.kind() != Label::Nothing
    }
}

/// A property of any of the application's entity types.
#[derive(Debug)]
pub enum PropsWrapper {
    NothingProps(NothingProps),
    UserProps(UserProps),
    GroupProps(GroupProps),
    MemberOfProps(MemberOfProps),
    HasComponentProps(HasComponentProps),
    PageProps(PageProps),
    ComponentProps(ComponentProps),
}

impl Clone for PropsWrapper {
    fn clone(&self) -> (r: Self)
        ensures
            r == *self,
    {
        match self {
            PropsWrapper::NothingProps(p) => PropsWrapper::NothingProps(p.clone()),
            PropsWrapper::UserProps(p) => PropsWrapper::UserProps(p.clone()),
            PropsWrapper::GroupProps(p) => PropsWrapper::GroupProps(p.clone()),
            PropsWrapper::MemberOfProps(p) => PropsWrapper::MemberOfProps(p.clone()),
            PropsWrapper::HasComponentProps(p) => PropsWrapper::HasComponentProps(p.clone()),
            PropsWrapper::PageProps(p) => PropsWrapper::PageProps(p.clone()),
            PropsWrapper::ComponentProps(p) => PropsWrapper::ComponentProps(p.clone()),
        }
    }
}

impl From<NothingProps> for PropsWrapper {
    fn from(props: NothingProps) -> (r: Self) {
        PropsWrapper::NothingProps(props)
    }
}

impl vstd::std_specs::convert::FromSpecImpl<NothingProps> for PropsWrapper {
    open spec fn obeys_from_spec() -> bool {
        true
    }

    open spec fn from_spec(props: NothingProps) -> Self {
        PropsWrapper::NothingProps(props)
    }
}

impl From<UserProps> for PropsWrapper {
    fn from(props: UserProps) -> (r: Self) {
        PropsWrapper::UserProps(props)
    }
}

impl vstd::std_specs::convert::FromSpecImpl<UserProps> for PropsWrapper {
    open spec fn obeys_from_spec() -> bool {
        true
    }

    open spec fn from_spec(props: UserProps) -> Self {
        PropsWrapper::UserProps(props)
    }
}

impl From<GroupProps> for PropsWrapper {
    fn from(props: GroupProps) -> (r: Self) {
        PropsWrapper::GroupProps(props)
    }
}

impl vstd::std_specs::convert::FromSpecImpl<GroupProps> for PropsWrapper {
    open spec fn obeys_from_spec() -> bool {
        true
    }

    open spec fn from_spec(props: GroupProps) -> Self {
        PropsWrapper::GroupProps(props)
    }
}

impl From<MemberOfProps> for PropsWrapper {
    fn from(props: MemberOfProps) -> (r: Self) {
        PropsWrapper::MemberOfProps(props)
    }
}

impl vstd::std_specs::convert::FromSpecImpl<MemberOfProps> for PropsWrapper {
    open spec fn obeys_from_spec() -> bool {
        true
    }

    open spec fn from_spec(props: MemberOfProps) -> Self {
        PropsWrapper::MemberOfProps(props)
    }
}

impl From<HasComponentProps> for PropsWrapper {
    fn from(props: HasComponentProps) -> (r: Self) {
        PropsWrapper::HasComponentProps(props)
    }
}

impl vstd::std_specs::convert::FromSpecImpl<HasComponentProps> for PropsWrapper {
    open spec fn obeys_from_spec() -> bool {
        true
    }

    open spec fn from_spec(props: HasComponentProps) -> Self {
        PropsWrapper::HasComponentProps(props)
    }
}

impl From<PageProps> for PropsWrapper {
    fn from(props: PageProps) -> (r: Self) {
        PropsWrapper::PageProps(props)
    }
}

impl vstd::std_specs::convert::FromSpecImpl<PageProps> for PropsWrapper {
    open spec fn obeys_from_spec() -> bool {
        true
    }

    open spec fn from_spec(props: PageProps) -> Self {
        PropsWrapper::PageProps(props)
    }
}

impl From<ComponentProps> for PropsWrapper {
    fn from(props: ComponentProps) -> (r: Self) {
        PropsWrapper::ComponentProps(props)
    }
}

impl vstd::std_specs::convert::FromSpecImpl<ComponentProps> for PropsWrapper {
    open spec fn obeys_from_spec() -> bool {
        true
    }

    open spec fn from_spec(props: ComponentProps) -> Self {
        PropsWrapper::ComponentProps(props)
    }
}

impl QueryParam for PropsWrapper {
    open spec fn key_spec(&self) -> Seq<char> {
        match self {
            PropsWrapper::NothingProps(p) => p.key_spec(),
            PropsWrapper::UserProps(p) => p.key_spec(),
            PropsWrapper::GroupProps(p) => p.key_spec(),
            PropsWrapper::MemberOfProps(p) => p.key_spec(),
            PropsWrapper::HasComponentProps(p) => p.key_spec(),
            PropsWrapper::PageProps(p) => p.key_spec(),
            PropsWrapper::ComponentProps(p) => p.key_spec(),
        }
    }

    open spec fn value_spec(&self) -> BoltType {
        match self {
            PropsWrapper::NothingProps(p) => p.value_spec(),
            PropsWrapper::UserProps(p) => p.value_spec(),
            PropsWrapper::GroupProps(p) => p.value_spec(),
            PropsWrapper::MemberOfProps(p) => p.value_spec(),
            PropsWrapper::HasComponentProps(p) => p.value_spec(),
            PropsWrapper::PageProps(p) => p.value_spec(),
            PropsWrapper::ComponentProps(p) => p.value_spec(),
        }
    }

    fn to_query_param(&self) -> (r: (&'static str, BoltType)) {
        match self {
            PropsWrapper::NothingProps(p) => p.to_query_param(),
            PropsWrapper::UserProps(p) => p.to_query_param(),
            PropsWrapper::GroupProps(p) => p.to_query_param(),
            PropsWrapper::MemberOfProps(p) => p.to_query_param(),
            PropsWrapper::HasComponentProps(p) => p.to_query_param(),
            PropsWrapper::PageProps(p) => p.to_query_param(),
            PropsWrapper::ComponentProps(p) => p.to_query_param(),
        }
    }
}

impl PropsWrapper {
    /// The wrapped Nothing property, if it is one.
    pub fn get_nothingprops(&self) -> (r: Option<&NothingProps>)
        ensures
            r is Some <==> *self is NothingProps,
            r matches Some(p) ==> *self == PropsWrapper::NothingProps(*p),
    {
        match self {
            PropsWrapper::NothingProps(p) => Some(p),
            _ => None,
        }
    }

    /// The wrapped User property, if it is one.
    pub fn get_userprops(&self) -> (r: Option<&UserProps>)
        ensures
            r is Some <==> *self is UserProps,
            r matches Some(p) ==> *self == PropsWrapper::UserProps(*p),
    {
        match self {
            PropsWrapper::UserProps(p) => Some(p),
            _ => None,
        }
    }

    /// The wrapped Group property, if it is one.
    pub fn get_groupprops(&self) -> (r: Option<&GroupProps>)
        ensures
            r is Some <==> *self is GroupProps,
            r matches Some(p) ==> *self == PropsWrapper::GroupProps(*p),
    {
        match self {
            PropsWrapper::GroupProps(p) => Some(p),
            _ => None,
        }
    }

    /// The wrapped MemberOf property, if it is one.
    pub fn get_memberofprops(&self) -> (r: Option<&MemberOfProps>)
        ensures
            r is Some <==> *self is MemberOfProps,
            r matches Some(p) ==> *self == PropsWrapper::MemberOfProps(*p),
    {
        match self {
            PropsWrapper::MemberOfProps(p) => Some(p),
            _ => None,
        }
    }

    /// The wrapped HasComponent property, if it is one.
    pub fn get_hascomponentprops(&self) -> (r: Option<&HasComponentProps>)
        ensures
            r is Some <==> *self is HasComponentProps,
            r matches Some(p) ==> *self == PropsWrapper::HasComponentProps(*p),
    {
        match self {
            PropsWrapper::HasComponentProps(p) => Some(p),
            _ => None,
        }
    }

    /// The wrapped Page property, if it is one.
    pub fn get_pageprops(&self) -> (r: Option<&PageProps>)
        ensures
            r is Some <==> *self is PageProps,
            r matches Some(p) ==> *self == PropsWrapper::PageProps(*p),
    {
        match self {
            PropsWrapper::PageProps(p) => Some(p),
            _ => None,
        }
    }

    /// The wrapped Component property, if it is one.
    pub fn get_componentprops(&self) -> (r: Option<&ComponentProps>)
        ensures
            r is Some <==> *self is ComponentProps,
            r matches Some(p) ==> *self == PropsWrapper::ComponentProps(*p),
    {
        match self {
            PropsWrapper::ComponentProps(p) => Some(p),
            _ => None,
        }
    }

    /// The SET assignments for `props` on the entity aliased `alias`:
    /// `alias.key = $set_key` and a line break for each, separated by `, `,
    /// with each value under `set_key`.
    pub fn set_by(alias: &str, props: &[PropsWrapper]) -> (r: (String, Params))
        ensures
            r.0@ == join(set_by_entries(alias@, props@), ", "@),
            r.1@ == set_by_params(props@),
    {
        let mut parts: Vec<String> = Vec::new();
        let mut params = Params::new();
        let ghost target = set_by_entries(alias@, props@);
        let mut i: usize = 0;
        while i < props.len()
            invariant
                i <= props@.len(),
                target == set_by_entries(alias@, props@),
                string_views(parts@) == target.take(i as int),
                params@ == set_by_params(props@.take(i as int)),
            decreases props@.len() - i,
        {
            let (key, value) = props[i].to_query_param();
            let mut name = String::from_str("set_");
            name.append(key);
            let mut part = String::from_str(alias);
            part.append(".");
            part.append(key);
            part.append(" = $set_");
            part.append(key);
            part.append("\n");
            params.insert(name, value);
            let ghost before = string_views(parts@);
            parts.push(part);
            assert(string_views(parts@) =~= before.push(target[i as int]));
            assert(target.take(i + 1) =~= target.take(i as int).push(target[i as int]));
            assert(props@.take(i + 1).drop_last() =~= props@.take(i as int));
            i += 1;
        }
        assert(target.take(props@.len() as int) =~= target);
        assert(props@.take(props@.len() as int) =~= props@);
        (join_text(&parts, ", "), params)
    }

    /// The entity type of the wrapped property.
    pub open spec fn kind(&self) -> Label {
        match self {
            PropsWrapper::NothingProps(_) => Label::Nothing,
            PropsWrapper::UserProps(_) => Label::User,
            PropsWrapper::GroupProps(_) => Label::Group,
            PropsWrapper::MemberOfProps(_) => Label::MemberOf,
            PropsWrapper::HasComponentProps(_) => Label::HasComponent,
            PropsWrapper::PageProps(_) => Label::Page,
            PropsWrapper::ComponentProps(_) => Label::Component,
        }
    }
}

/// The entries of `set_by`: `alias.key = $set_key` and a line break.
pub open spec fn set_by_entries(alias: Seq<char>, props: Seq<PropsWrapper>) -> Seq<Seq<char>> {
    props.map_values(|p: PropsWrapper| alias + "."@ + p.key_spec() + " = $set_"@ + p.key_spec() + "\n"@)
}

/// The parameters of `set_by`: each value under `set_key`, later ones
/// winning.
pub open spec fn set_by_params(props: Seq<PropsWrapper>) -> Map<Seq<char>, BoltType>
    decreases props.len(),
{
    if props.len() == 0 {
        Map::empty()
    } else {
        set_by_params(props.drop_last()).insert("set_"@ + props.last().key_spec(), props.last().value_spec())
    }
}

impl PartialEq for PropsWrapper {
    fn eq(&self, other: &Self) -> (r: bool) {
        match (self, other) {
            (PropsWrapper::UserProps(_), PropsWrapper::UserProps(_)) => true,
            (PropsWrapper::GroupProps(_), PropsWrapper::GroupProps(_)) => true,
            (PropsWrapper::MemberOfProps(_), PropsWrapper::MemberOfProps(_)) => true,
            (PropsWrapper::HasComponentProps(_), PropsWrapper::HasComponentProps(_)) => true,
            (PropsWrapper::PageProps(_), PropsWrapper::PageProps(_)) => true,
            (PropsWrapper::ComponentProps(_), PropsWrapper::ComponentProps(_)) => true,
            _ => false,
        }
    }
}

impl vstd::std_specs::cmp::PartialEqSpecImpl for PropsWrapper {
    open spec fn obeys_eq_spec() -> bool {
        true
    }

    open spec fn eq_spec(&self, other: &Self) -> bool {
        self.kind() == other.kind() && self.kind() != Label::Nothing
    }
}

/// A label a node may carry: two general ones and one per entity type.
#[derive(Debug, Clone, Copy, PartialEq, Eq, Structural)]
pub enum Label {
    Any,
    SysObj,
    Nothing,
    User,
    Group,
    MemberOf,
    HasComponent,
    Page,
    Component,
}

impl Label {
    /// The label's name.
    pub open spec fn name(&self) -> Seq<char> {
        match self {
            Label::Any => "Any"@,
            Label::SysObj => "SysObj"@,
            Label::Nothing => "Nothing"@,
            Label::User => "User"@,
            Label::Group => "Group"@,
            Label::MemberOf => "MemberOf"@,
            Label::HasComponent => "HasComponent"@,
            Label::Page => "Page"@,
            Label::Component => "Component"@,
        }
    }

    /// The first label (in declaration order) that a node with these labels
    /// carries, `Nothing` when it carries none of them.
    pub fn from_node(labels: &Vec<String>) -> (r: Label)
        ensures
            r == label_of_node(string_views(labels@)),
    {
        if has_label(labels, "Any") {
            Label::Any
        } else if has_label(labels, "SysObj") {
            Label::SysObj
        } else if has_label(labels, "Nothing") {
            Label::Nothing
        } else if has_label(labels, "User") {
            Label::User
        } else if has_label(labels, "Group") {
            Label::Group
        } else if has_label(labels, "MemberOf") {
            Label::MemberOf
        } else if has_label(labels, "HasComponent") {
            Label::HasComponent
        } else if has_label(labels, "Page") {
            Label::Page
        } else if has_label(labels, "Component") {
            Label::Component
        } else {
            Label::Nothing
        }
    }

    /// The label whose name is the relation type in PascalCase, `Nothing`
    /// when there is none.
    pub fn from_relation(typ: &str) -> (r: Label)
        ensures
            r == label_of_relation(pascal_case_of(typ@)),
    {
        let t = to_pascal_case_text(typ);
        if text_eq(t.as_str(), "Any") {
            Label::Any
        } else if text_eq(t.as_str(), "SysObj") {
            Label::SysObj
        } else if text_eq(t.as_str(), "Nothing") {
            Label::Nothing
        } else if text_eq(t.as_str(), "User") {
            Label::User
        } else if text_eq(t.as_str(), "Group") {
            Label::Group
        } else if text_eq(t.as_str(), "MemberOf") {
            Label::MemberOf
        } else if text_eq(t.as_str(), "HasComponent") {
            Label::HasComponent
        } else if text_eq(t.as_str(), "Page") {
            Label::Page
        } else if text_eq(t.as_str(), "Component") {
            Label::Component
        } else {
            Label::Nothing
        }
    }
}

/// The label `from_node` gives for the labels `ls`.
pub open spec fn label_of_node(ls: Seq<Seq<char>>) -> Label {
    if ls.contains("Any"@) {
        Label::Any
    } else if ls.contains("SysObj"@) {
        Label::SysObj
    } else if ls.contains("Nothing"@) {
        Label::Nothing
    } else if ls.contains("User"@) {
        Label::User
    } else if ls.contains("Group"@) {
        Label::Group
    } else if ls.contains("MemberOf"@) {
        Label::MemberOf
    } else if ls.contains("HasComponent"@) {
        Label::HasComponent
    } else if ls.contains("Page"@) {
        Label::Page
    } else if ls.contains("Component"@) {
        Label::Component
    } else {
        Label::Nothing
    }
}

/// The label `from_relation` gives for the PascalCase type `t`.
pub open spec fn label_of_relation(t: Seq<char>) -> Label {
    if t == "Any"@ {
        Label::Any
    } else if t == "SysObj"@ {
        Label::SysObj
    } else if t == "Nothing"@ {
        Label::Nothing
    } else if t == "User"@ {
        Label::User
    } else if t == "Group"@ {
        Label::Group
    } else if t == "MemberOf"@ {
        Label::MemberOf
    } else if t == "HasComponent"@ {
        Label::HasComponent
    } else if t == "Page"@ {
        Label::Page
    } else if t == "Component"@ {
        Label::Component
    } else {
        Label::Nothing
    }
}

impl Neo4gLabel for Label {
    open spec fn label_text(&self) -> Seq<char> {
        self.name()
    }

    fn to_string(&self) -> (r: String) {
        match self {
            Label::Any => String::from_str("Any"),
            Label::SysObj => String::from_str("SysObj"),
            Label::Nothing => String::from_str("Nothing"),
            Label::User => String::from_str("User"),
            Label::Group => String::from_str("Group"),
            Label::MemberOf => String::from_str("MemberOf"),
            Label::HasComponent => String::from_str("HasComponent"),
            Label::Page => String::from_str("Page"),
            Label::Component => String::from_str("Component"),
        }
    }
}

} // verus!
