//! The entity types of the application: for each, the plain template, the
//! properties enum, and the entity the query builder writes and reads.
use vstd::prelude::*;
use vstd::string::*;
use neo4rs::BoltType;
use crate::collections::{Params, Piece, Token, pieces, push_text};
use crate::entity_wrapper::{EntityWrapper, Nothing};
use crate::external::{
    bolt_boolean, bolt_from_bool, bolt_from_i32, bolt_from_string, bolt_integer, bolt_string,
    lower_form, new_id, shouty_snake_of, to_lowercase_text, to_shouty_snake_text,
};
use crate::patterns::{node_by, node_pattern, prop_params, relation_by, relation_pattern};
use crate::traits::{Aliasable, Neo4gEntity, Paramable, QueryParam};
use crate::text::text_eq;
use crate::types::{DbEntityWrapper, DbValue, EntityType, db_flag, db_get_flag, db_get_text, db_text};

verus! {

/// The kind of a page component.
#[derive(Debug, Clone, Copy, PartialEq, Eq, Structural)]
pub enum ComponentType {
    Type1,
    Type2,
}

impl ComponentType {
    /// The variant's name.
    pub open spec fn name(&self) -> Seq<char> {
        match self {
            ComponentType::Type1 => "Type1"@,
            ComponentType::Type2 => "Type2"@,
        }
    }

    /// The variant's name, as it is displayed.
    pub fn to_string(&self) -> (r: String)
        ensures
            r@ == self.name(),
    {
        match self {
            ComponentType::Type1 => String::from_str("Type1"),
            ComponentType::Type2 => String::from_str("Type2"),
        }
    }

    /// The kind a text names, ignoring case: `type2` for `Type2`, and
    /// `Type1` for anything else.
    pub fn from_string(value: String) -> (r: Self)
        ensures
            r == component_type_named(value@),
    {
        let v = to_lowercase_text(value.as_str());
        if text_eq(v.as_str(), "type2") {
            ComponentType::Type2
        } else {
            ComponentType::Type1
        }
    }

    /// The kind a stored value names exactly, `Type1` when it names none.
    pub fn read(value: &str) -> (r: Self)
        ensures
            r == component_type_read(value@),
    {
        if text_eq(value, "Type2") {
            ComponentType::Type2
        } else {
            ComponentType::Type1
        }
    }

    /// The value stored for the kind: its name as a text.
    pub fn to_bolt(self) -> (r: BoltType)
        ensures
            r == bolt_string(self.name()),
    {
        bolt_from_string(self.to_string())
    }
}

/// The kind a text names, ignoring case: `Type2` for `type2` in any case,
/// `Type1` for anything else.
pub open spec fn component_type_named(value: Seq<char>) -> ComponentType {
    if lower_form(value) == "type2"@ {
        ComponentType::Type2
    } else {
        ComponentType::Type1
    }
}

/// The kind a stored value names: `Type2` for exactly that name, `Type1`
/// otherwise.
pub open spec fn component_type_read(value: Seq<char>) -> ComponentType {
    if value == "Type2"@ {
        ComponentType::Type2
    } else {
        ComponentType::Type1
    }
}

impl Default for ComponentType {
    fn default() -> (r: Self)
        ensures
            r == ComponentType::Type1,
    {
        ComponentType::Type1
    }
}

/// The plain form of a user, whose fields hold the values themselves.
#[derive(Debug)]
pub struct UserTemplate {
    pub id: String,
    pub name: String,
    pub password: String,
    pub forename: String,
    pub surname: String,
    pub deleted: bool,
    pub groups: Vec<Group>,
    pub example: String,
}

impl UserTemplate {
    /// A template holding the given values.
    pub fn new(id: &str, name: &str, password: &str, forename: &str, surname: &str, deleted: bool, groups: Vec<Group>, example: &str) -> (r: Self)
        ensures
            r.id@ == id@,
            r.name@ == name@,
            r.password@ == password@,
            r.forename@ == forename@,
            r.surname@ == surname@,
            r.deleted == deleted,
            r.groups == groups,
            r.example@ == example@,
    {
        UserTemplate { id: String::from_str(id), name: String::from_str(name), password: String::from_str(password), forename: String::from_str(forename), surname: String::from_str(surname), deleted, groups, example: String::from_str(example) }
    }

    /// The plain values of `entity`.
    pub fn from_entity(entity: &User) -> (r: Self)
        requires
            entity.id is Id,
            entity.name is Name,
            entity.password is Password,
            entity.forename is Forename,
            entity.surname is Surname,
            entity.deleted is Deleted,
            entity.example is Example,
        ensures
            entity.id == UserProps::Id(r.id),
            entity.name == UserProps::Name(r.name),
            entity.password == UserProps::Password(r.password),
            entity.forename == UserProps::Forename(r.forename),
            entity.surname == UserProps::Surname(r.surname),
            entity.deleted == UserProps::Deleted(r.deleted),
            entity.example == UserProps::Example(r.example),
            r.groups@ == entity.groups@,
    {
        UserTemplate { id: entity.id().clone(), name: entity.name().clone(), password: entity.password().clone(), forename: entity.forename().clone(), surname: entity.surname().clone(), deleted: *entity.deleted(), example: entity.example().clone(), groups: clone_groups(&entity.groups) }
    }
}

/// The properties of a user: each holds a value, or, as `Current...`,
/// stands for the value the User holds.
#[derive(Debug)]
pub enum UserProps {
    Id(String),
    Name(String),
    Password(String),
    Forename(String),
    Surname(String),
    Deleted(bool),
    Example(String),
    CurrentId,
    CurrentName,
    CurrentPassword,
    CurrentForename,
    CurrentSurname,
    CurrentDeleted,
    CurrentExample,
}

impl Clone for UserProps {
    fn clone(&self) -> (r: Self)
        ensures
            r == *self,
    {
        match self {
            UserProps::Id(v) => UserProps::Id(v.clone()),
            UserProps::Name(v) => UserProps::Name(v.clone()),
            UserProps::Password(v) => UserProps::Password(v.clone()),
            UserProps::Forename(v) => UserProps::Forename(v.clone()),
            UserProps::Surname(v) => UserProps::Surname(v.clone()),
            UserProps::Deleted(v) => UserProps::Deleted(*v),
            UserProps::Example(v) => UserProps::Example(v.clone()),
            UserProps::CurrentId => UserProps::CurrentId,
            UserProps::CurrentName => UserProps::CurrentName,
            UserProps::CurrentPassword => UserProps::CurrentPassword,
            UserProps::CurrentForename => UserProps::CurrentForename,
            UserProps::CurrentSurname => UserProps::CurrentSurname,
            UserProps::CurrentDeleted => UserProps::CurrentDeleted,
            UserProps::CurrentExample => UserProps::CurrentExample,
        }
    }
}

impl QueryParam for UserProps {
    open spec fn key_spec(&self) -> Seq<char> {
        match self {
            UserProps::Id(_) => "id"@,
            UserProps::Name(_) => "name"@,
            UserProps::Password(_) => "password"@,
            UserProps::Forename(_) => "forename"@,
            UserProps::Surname(_) => "surname"@,
            UserProps::Deleted(_) => "deleted"@,
            UserProps::Example(_) => "example"@,
            _ => "nope"@,
        }
    }

    open spec fn value_spec(&self) -> BoltType {
        match self {
            UserProps::Id(v) => bolt_string(v@),
            UserProps::Name(v) => bolt_string(v@),
            UserProps::Password(v) => bolt_string(v@),
            UserProps::Forename(v) => bolt_string(v@),
            UserProps::Surname(v) => bolt_string(v@),
            UserProps::Deleted(v) => bolt_boolean(*v),
            UserProps::Example(v) => bolt_string(v@),
            _ => bolt_integer(0),
        }
    }

    fn to_query_param(&self) -> (r: (&'static str, BoltType)) {
        match self {
            UserProps::Id(v) => ("id", bolt_from_string(v.clone())),
            UserProps::Name(v) => ("name", bolt_from_string(v.clone())),
            UserProps::Password(v) => ("password", bolt_from_string(v.clone())),
            UserProps::Forename(v) => ("forename", bolt_from_string(v.clone())),
            UserProps::Surname(v) => ("surname", bolt_from_string(v.clone())),
            UserProps::Deleted(v) => ("deleted", bolt_from_bool(*v)),
            UserProps::Example(v) => ("example", bolt_from_string(v.clone())),
            _ => ("nope", bolt_from_i32(0)),
        }
    }
}

impl UserProps {
    /// The value of a `Id` property.
    pub fn id(&self) -> (r: &String)
        requires
            *self is Id,
        ensures
            *self == UserProps::Id(*r),
        decreases 0nat,
    {
        match self {
            UserProps::Id(v) => v,
            _ => {
                proof {
                    assert(false);
                }
                self.id()
            },
        }
    }

    /// The value of a `Name` property.
    pub fn name(&self) -> (r: &String)
        requires
            *self is Name,
        ensures
            *self == UserProps::Name(*r),
        decreases 0nat,
    {
        match self {
            UserProps::Name(v) => v,
            _ => {
                proof {
                    assert(false);
                }
                self.name()
            },
        }
    }

    /// The value of a `Password` property.
    pub fn password(&self) -> (r: &String)
        requires
            *self is Password,
        ensures
            *self == UserProps::Password(*r),
        decreases 0nat,
    {
        match self {
            UserProps::Password(v) => v,
            _ => {
                proof {
                    assert(false);
                }
                self.password()
            },
        }
    }

    /// The value of a `Forename` property.
    pub fn forename(&self) -> (r: &String)
        requires
            *self is Forename,
        ensures
            *self == UserProps::Forename(*r),
        decreases 0nat,
    {
        match self {
            UserProps::Forename(v) => v,
            _ => {
                proof {
                    assert(false);
                }
                self.forename()
            },
        }
    }

    /// The value of a `Surname` property.
    pub fn surname(&self) -> (r: &String)
        requires
            *self is Surname,
        ensures
            *self == UserProps::Surname(*r),
        decreases 0nat,
    {
        match self {
            UserProps::Surname(v) => v,
            _ => {
                proof {
                    assert(false);
                }
                self.surname()
            },
        }
    }

    /// The value of a `Deleted` property.
    pub fn deleted(&self) -> (r: &bool)
        requires
            *self is Deleted,
        ensures
            *self == UserProps::Deleted(*r),
        decreases 0nat,
    {
        match self {
            UserProps::Deleted(v) => v,
            _ => {
                proof {
                    assert(false);
                }
                self.deleted()
            },
        }
    }

    /// The value of a `Example` property.
    pub fn example(&self) -> (r: &String)
        requires
            *self is Example,
        ensures
            *self == UserProps::Example(*r),
        decreases 0nat,
    {
        match self {
            UserProps::Example(v) => v,
            _ => {
                proof {
                    assert(false);
                }
                self.example()
            },
        }
    }
}

/// A user, as the query builder writes and reads it: an alias,
/// an id, and each property held as a `UserProps`.
#[derive(Debug)]
pub struct User {
    pub alias: String,
    pub uuid: u128,
    pub entity_type: EntityType,
    pub id: UserProps,
    pub name: UserProps,
    pub password: UserProps,
    pub forename: UserProps,
    pub surname: UserProps,
    pub deleted: UserProps,
    pub groups: Vec<Group>,
    pub example: UserProps,
}

/// A copy of a list of groups.
fn clone_groups(v: &Vec<Group>) -> (r: Vec<Group>)
    ensures
        r@ == v@,
{
    let r = v.clone();
    assert(r@ =~= v@);
    r
}

/// A copy of a list of components.
fn clone_components(v: &Vec<Component>) -> (r: Vec<Component>)
    ensures
        r@ == v@,
{
    let r = v.clone();
    assert(r@ =~= v@);
    r
}

impl Clone for User {
    fn clone(&self) -> (r: Self)
        ensures
            r.alias == self.alias,
            r.uuid == self.uuid,
            r.entity_type == self.entity_type,
            r.id == self.id,
            r.name == self.name,
            r.password == self.password,
            r.forename == self.forename,
            r.surname == self.surname,
            r.deleted == self.deleted,
            r.example == self.example,
            r.groups@ == self.groups@,
    {
        User { alias: self.alias.clone(), uuid: self.uuid, entity_type: self.entity_type, id: self.id.clone(), name: self.name.clone(), password: self.password.clone(), forename: self.forename.clone(), surname: self.surname.clone(), deleted: self.deleted.clone(), groups: clone_groups(&self.groups), example: self.example.clone() }
    }
}

impl Default for User {
    fn default() -> (r: Self)
        ensures
            r.alias@ == Seq::<char>::empty(),
            r.entity_type == EntityType::Node,
            r.id matches UserProps::Id(v) && v@ == Seq::<char>::empty(),
            r.name matches UserProps::Name(v) && v@ == Seq::<char>::empty(),
            r.password matches UserProps::Password(v) && v@ == Seq::<char>::empty(),
            r.forename matches UserProps::Forename(v) && v@ == Seq::<char>::empty(),
            r.surname matches UserProps::Surname(v) && v@ == Seq::<char>::empty(),
            r.deleted == UserProps::Deleted(false),
            r.example matches UserProps::Example(v) && v@ == Seq::<char>::empty(),
            r.groups@.len() == 0,
    {
        User { alias: String::new(), uuid: new_id(), entity_type: EntityType::Node, id: UserProps::Id(String::new()), name: UserProps::Name(String::new()), password: UserProps::Password(String::new()), forename: UserProps::Forename(String::new()), surname: UserProps::Surname(String::new()), deleted: UserProps::Deleted(false), groups: Vec::new(), example: UserProps::Example(String::new()) }
    }
}

/// Whether `e` is a user read from properties `props`: no alias yet,
/// each property read under its own name, any list left empty.
pub open spec fn user_read_from(props: Seq<(String, DbValue)>, e: User) -> bool {
    &&& e.alias@ == Seq::<char>::empty()
    &&& e.entity_type == EntityType::Node
    &&& e.id matches UserProps::Id(v) && v@ == db_text(props, "id"@)
    &&& e.name matches UserProps::Name(v) && v@ == db_text(props, "name"@)
    &&& e.password matches UserProps::Password(v) && v@ == db_text(props, "password"@)
    &&& e.forename matches UserProps::Forename(v) && v@ == db_text(props, "forename"@)
    &&& e.surname matches UserProps::Surname(v) && v@ == db_text(props, "surname"@)
    &&& e.deleted == UserProps::Deleted(db_flag(props, "deleted"@))
    &&& e.example matches UserProps::Example(v) && v@ == db_text(props, "example"@)
    &&& e.groups@.len() == 0
}

impl User {
    /// A user holding the given values, with no alias yet and a fresh
    /// random id.
    pub fn new(id: &str, name: &str, password: &str, forename: &str, surname: &str, deleted: bool, groups: Vec<Group>, example: &str) -> (r: Self)
        ensures
            r.alias@ == Seq::<char>::empty(),
            r.entity_type == EntityType::Node,
            r.id matches UserProps::Id(v) && v@ == id@,
            r.name matches UserProps::Name(v) && v@ == name@,
            r.password matches UserProps::Password(v) && v@ == password@,
            r.forename matches UserProps::Forename(v) && v@ == forename@,
            r.surname matches UserProps::Surname(v) && v@ == surname@,
            r.deleted == UserProps::Deleted(deleted),
            r.groups == groups,
            r.example matches UserProps::Example(v) && v@ == example@,
    {
        User { alias: String::new(), uuid: new_id(), entity_type: EntityType::Node, id: UserProps::Id(String::from_str(id)), name: UserProps::Name(String::from_str(name)), password: UserProps::Password(String::from_str(password)), forename: UserProps::Forename(String::from_str(forename)), surname: UserProps::Surname(String::from_str(surname)), deleted: UserProps::Deleted(deleted), groups, example: UserProps::Example(String::from_str(example)) }
    }

    /// A user holding the template's values, with no alias yet and a
    /// fresh random id.
    pub fn from_template(template: UserTemplate) -> (r: Self)
        ensures
            r.alias@ == Seq::<char>::empty(),
            r.entity_type == EntityType::Node,
            r.id == UserProps::Id(template.id),
            r.name == UserProps::Name(template.name),
            r.password == UserProps::Password(template.password),
            r.forename == UserProps::Forename(template.forename),
            r.surname == UserProps::Surname(template.surname),
            r.deleted == UserProps::Deleted(template.deleted),
            r.groups == template.groups,
            r.example == UserProps::Example(template.example),
    {
        User { alias: String::new(), uuid: new_id(), entity_type: EntityType::Node, id: UserProps::Id(template.id), name: UserProps::Name(template.name), password: UserProps::Password(template.password), forename: UserProps::Forename(template.forename), surname: UserProps::Surname(template.surname), deleted: UserProps::Deleted(template.deleted), groups: template.groups, example: UserProps::Example(template.example) }
    }

    /// The value of the `id` property.
    pub fn id(&self) -> (r: &String)
        requires
            self.id is Id,
        ensures
            self.id == UserProps::Id(*r),
    {
        self.id.id()
    }

    /// The value of the `name` property.
    pub fn name(&self) -> (r: &String)
        requires
            self.name is Name,
        ensures
            self.name == UserProps::Name(*r),
    {
        self.name.name()
    }

    /// The value of the `password` property.
    pub fn password(&self) -> (r: &String)
        requires
            self.password is Password,
        ensures
            self.password == UserProps::Password(*r),
    {
        self.password.password()
    }

    /// The value of the `forename` property.
    pub fn forename(&self) -> (r: &String)
        requires
            self.forename is Forename,
        ensures
            self.forename == UserProps::Forename(*r),
    {
        self.forename.forename()
    }

    /// The value of the `surname` property.
    pub fn surname(&self) -> (r: &String)
        requires
            self.surname is Surname,
        ensures
            self.surname == UserProps::Surname(*r),
    {
        self.surname.surname()
    }

    /// The value of the `deleted` property.
    pub fn deleted(&self) -> (r: &bool)
        requires
            self.deleted is Deleted,
        ensures
            self.deleted == UserProps::Deleted(*r),
    {
        self.deleted.deleted()
    }

    /// The value of the `example` property.
    pub fn example(&self) -> (r: &String)
        requires
            self.example is Example,
        ensures
            self.example == UserProps::Example(*r),
    {
        self.example.example()
    }

    /// The entity's properties, in field order.
    pub fn self_to_props(&self) -> (r: Vec<UserProps>)
        ensures
            r@ == self.own_props(),
    {
        let mut v = Vec::new();
        v.push(self.id.clone());
        v.push(self.name.clone());
        v.push(self.password.clone());
        v.push(self.forename.clone());
        v.push(self.surname.clone());
        v.push(self.deleted.clone());
        v.push(self.example.clone());
        assert(v@ =~= seq![self.id, self.name, self.password, self.forename, self.surname, self.deleted, self.example]);
        v
    }

    /// Wraps a copy of the entity.
    pub fn wrap(&self) -> (r: EntityWrapper)
        ensures
            r matches EntityWrapper::User(e) && e.alias == self.alias && e.uuid == self.uuid,
    {
        EntityWrapper::User(self.clone())
    }

    /// Reads a user from a database node, each property under its own name;
    /// anything else reads as `Nothing`.
    pub fn from_db_entity(db_entity: DbEntityWrapper) -> (r: EntityWrapper)
        ensures
            match db_entity {
                DbEntityWrapper::Node(d) => r matches EntityWrapper::User(e) && user_read_from(d.props@, e),
                DbEntityWrapper::Relation(_) => r is Nothing,
            },
    {
        match db_entity {
            DbEntityWrapper::Node(d) => {
                EntityWrapper::User(User { alias: String::new(), uuid: new_id(), entity_type: EntityType::Node, id: UserProps::Id(db_get_text(&d.props, "id")), name: UserProps::Name(db_get_text(&d.props, "name")), password: UserProps::Password(db_get_text(&d.props, "password")), forename: UserProps::Forename(db_get_text(&d.props, "forename")), surname: UserProps::Surname(db_get_text(&d.props, "surname")), deleted: UserProps::Deleted(db_get_flag(&d.props, "deleted")), groups: Vec::new(), example: UserProps::Example(db_get_text(&d.props, "example")) })
            },
            DbEntityWrapper::Relation(_) => EntityWrapper::Nothing(Nothing::default()),
        }
    }
}

impl Paramable for User {
    open spec fn text_spec(&self) -> Seq<Piece> {
        seq![Piece::Text(self.alias@)]
    }

    open spec fn ids_spec(&self) -> Seq<u128> {
        Seq::empty()
    }

    open spec fn params_spec(&self) -> Map<Seq<char>, BoltType> {
        Map::empty()
    }

    fn to_query_uuid_param(&self) -> (r: (Vec<Token>, Vec<u128>, Params)) {
        let mut t = Vec::new();
        push_text(&mut t, self.alias.as_str());
        assert(pieces(t@) =~= seq![Piece::Text(self.alias@)]);
        (t, Vec::new(), Params::new())
    }
}

impl Aliasable for User {
    open spec fn alias_spec(&self) -> Seq<char> {
        self.alias@
    }

    open spec fn uuid_spec(&self) -> u128 {
        self.uuid
    }

    open spec fn alias_after(&self, alias: Seq<char>) -> Seq<char> {
        lower_form(alias)
    }

    open spec fn same_but_alias(&self, other: &Self) -> bool {
        &&& self.uuid == other.uuid
        &&& self.entity_type == other.entity_type
        &&& self.id == other.id
        &&& self.name == other.name
        &&& self.password == other.password
        &&& self.forename == other.forename
        &&& self.surname == other.surname
        &&& self.deleted == other.deleted
        &&& self.groups == other.groups
        &&& self.example == other.example
    }

    fn get_alias(&self) -> (r: String) {
        self.alias.clone()
    }

    fn set_alias(&mut self, alias: &str) {
        self.alias = to_lowercase_text(alias);
    }

    fn get_uuid(&self) -> (r: u128) {
        self.uuid
    }
}

impl Neo4gEntity for User {
    type Props = UserProps;

    open spec fn entity_type_spec(&self) -> EntityType {
        self.entity_type
    }

    open spec fn label_spec(&self) -> Seq<char> {
        "User"@
    }

    open spec fn own_props(&self) -> Seq<UserProps> {
        seq![self.id, self.name, self.password, self.forename, self.surname, self.deleted, self.example]
    }

    open spec fn pattern_text(&self, alias: Seq<char>, props: Seq<UserProps>) -> Seq<char> {
        node_pattern(self.label_spec(), alias, props)
    }

    open spec fn pattern_params(&self, alias: Seq<char>, props: Seq<UserProps>) -> Map<Seq<char>, BoltType> {
        prop_params(alias, props)
    }

    open spec fn current_spec(&self, prop: UserProps) -> UserProps {
        match prop {
            UserProps::CurrentId => self.id,
            UserProps::CurrentName => self.name,
            UserProps::CurrentPassword => self.password,
            UserProps::CurrentForename => self.forename,
            UserProps::CurrentSurname => self.surname,
            UserProps::CurrentDeleted => self.deleted,
            UserProps::CurrentExample => self.example,
            _ => prop,
        }
    }

    proof fn lemma_alias_free(a: &Self, b: &Self) {
    }

    fn get_entity_type(&self) -> (r: EntityType) {
        self.entity_type
    }

    fn get_label(&self) -> (r: String) {
        String::from_str("User")
    }

    fn entity_by(&self, alias: &str, props: &[UserProps]) -> (r: (String, Params)) {
        let label = self.get_label();
        node_by(label.as_str(), alias, props)
    }

    fn create_from_self(&self) -> (r: (String, Params)) {
        let props = self.self_to_props();
        self.entity_by(self.alias.as_str(), props.as_slice())
    }

    fn get_current(&self, prop: &UserProps) -> (r: UserProps) {
        match prop {
            UserProps::CurrentId => self.id.clone(),
            UserProps::CurrentName => self.name.clone(),
            UserProps::CurrentPassword => self.password.clone(),
            UserProps::CurrentForename => self.forename.clone(),
            UserProps::CurrentSurname => self.surname.clone(),
            UserProps::CurrentDeleted => self.deleted.clone(),
            UserProps::CurrentExample => self.example.clone(),
            _ => prop.clone(),
        }
    }
}
/// The plain form of a group of users, whose fields hold the values themselves.
#[derive(Debug)]
pub struct GroupTemplate {
    pub id: String,
    pub name: String,
    pub deleted: bool,
}

impl GroupTemplate {
    /// A template holding the given values.
    pub fn new(id: &str, name: &str, deleted: bool) -> (r: Self)
        ensures
            r.id@ == id@,
            r.name@ == name@,
            r.deleted == deleted,
    {
        GroupTemplate { id: String::from_str(id), name: String::from_str(name), deleted }
    }

    /// The plain values of `entity`.
    pub fn from_entity(entity: &Group) -> (r: Self)
        requires
            entity.id is Id,
            entity.name is Name,
            entity.deleted is Deleted,
        ensures
            entity.id == GroupProps::Id(r.id),
            entity.name == GroupProps::Name(r.name),
            entity.deleted == GroupProps::Deleted(r.deleted),
    {
        GroupTemplate { id: entity.id().clone(), name: entity.name().clone(), deleted: *entity.deleted() }
    }
}

/// The properties of a group of users: each holds a value, or, as `Current...`,
/// stands for the value the Group holds.
#[derive(Debug)]
pub enum GroupProps {
    Id(String),
    Name(String),
    Deleted(bool),
    CurrentId,
    CurrentName,
    CurrentDeleted,
}

impl Clone for GroupProps {
    fn clone(&self) -> (r: Self)
        ensures
            r == *self,
    {
        match self {
            GroupProps::Id(v) => GroupProps::Id(v.clone()),
            GroupProps::Name(v) => GroupProps::Name(v.clone()),
            GroupProps::Deleted(v) => GroupProps::Deleted(*v),
            GroupProps::CurrentId => GroupProps::CurrentId,
            GroupProps::CurrentName => GroupProps::CurrentName,
            GroupProps::CurrentDeleted => GroupProps::CurrentDeleted,
        }
    }
}

impl QueryParam for GroupProps {
    open spec fn key_spec(&self) -> Seq<char> {
        match self {
            GroupProps::Id(_) => "id"@,
            GroupProps::Name(_) => "name"@,
            GroupProps::Deleted(_) => "deleted"@,
            _ => "nope"@,
        }
    }

    open spec fn value_spec(&self) -> BoltType {
        match self {
            GroupProps::Id(v) => bolt_string(v@),
            GroupProps::Name(v) => bolt_string(v@),
            GroupProps::Deleted(v) => bolt_boolean(*v),
            _ => bolt_integer(0),
        }
    }

    fn to_query_param(&self) -> (r: (&'static str, BoltType)) {
        match self {
            GroupProps::Id(v) => ("id", bolt_from_string(v.clone())),
            GroupProps::Name(v) => ("name", bolt_from_string(v.clone())),
            GroupProps::Deleted(v) => ("deleted", bolt_from_bool(*v)),
            _ => ("nope", bolt_from_i32(0)),
        }
    }
}

impl GroupProps {
    /// The value of a `Id` property.
    pub fn id(&self) -> (r: &String)
        requires
            *self is Id,
        ensures
            *self == GroupProps::Id(*r),
        decreases 0nat,
    {
        match self {
            GroupProps::Id(v) => v,
            _ => {
                proof {
                    assert(false);
                }
                self.id()
            },
        }
    }

    /// The value of a `Name` property.
    pub fn name(&self) -> (r: &String)
        requires
            *self is Name,
        ensures
            *self == GroupProps::Name(*r),
        decreases 0nat,
    {
        match self {
            GroupProps::Name(v) => v,
            _ => {
                proof {
                    assert(false);
                }
                self.name()
            },
        }
    }

    /// The value of a `Deleted` property.
    pub fn deleted(&self) -> (r: &bool)
        requires
            *self is Deleted,
        ensures
            *self == GroupProps::Deleted(*r),
        decreases 0nat,
    {
        match self {
            GroupProps::Deleted(v) => v,
            _ => {
                proof {
                    assert(false);
                }
                self.deleted()
            },
        }
    }
}

/// A group of users, as the query builder writes and reads it: an alias,
/// an id, and each property held as a `GroupProps`.
#[derive(Debug)]
pub struct Group {
    pub alias: String,
    pub uuid: u128,
    pub entity_type: EntityType,
    pub id: GroupProps,
    pub name: GroupProps,
    pub deleted: GroupProps,
}

impl Clone for Group {
    fn clone(&self) -> (r: Self)
        ensures
            r == *self,
    {
        Group { alias: self.alias.clone(), uuid: self.uuid, entity_type: self.entity_type, id: self.id.clone(), name: self.name.clone(), deleted: self.deleted.clone() }
    }
}

impl Default for Group {
    fn default() -> (r: Self)
        ensures
            r.alias@ == Seq::<char>::empty(),
            r.entity_type == EntityType::Node,
            r.id matches GroupProps::Id(v) && v@ == Seq::<char>::empty(),
            r.name matches GroupProps::Name(v) && v@ == Seq::<char>::empty(),
            r.deleted == GroupProps::Deleted(false),
    {
        Group { alias: String::new(), uuid: new_id(), entity_type: EntityType::Node, id: GroupProps::Id(String::new()), name: GroupProps::Name(String::new()), deleted: GroupProps::Deleted(false) }
    }
}

/// Whether `e` is a group of users read from properties `props`: no alias yet,
/// each property read under its own name, any list left empty.
pub open spec fn group_read_from(props: Seq<(String, DbValue)>, e: Group) -> bool {
    &&& e.alias@ == Seq::<char>::empty()
    &&& e.entity_type == EntityType::Node
    &&& e.id matches GroupProps::Id(v) && v@ == db_text(props, "id"@)
    &&& e.name matches GroupProps::Name(v) && v@ == db_text(props, "name"@)
    &&& e.deleted == GroupProps::Deleted(db_flag(props, "deleted"@))
}

impl Group {
    /// A group of users holding the given values, with no alias yet and a fresh
    /// random id.
    pub fn new(id: &str, name: &str, deleted: bool) -> (r: Self)
        ensures
            r.alias@ == Seq::<char>::empty(),
            r.entity_type == EntityType::Node,
            r.id matches GroupProps::Id(v) && v@ == id@,
            r.name matches GroupProps::Name(v) && v@ == name@,
            r.deleted == GroupProps::Deleted(deleted),
    {
        Group { alias: String::new(), uuid: new_id(), entity_type: EntityType::Node, id: GroupProps::Id(String::from_str(id)), name: GroupProps::Name(String::from_str(name)), deleted: GroupProps::Deleted(deleted) }
    }

    /// A group of users holding the template's values, with no alias yet and a
    /// fresh random id.
    pub fn from_template(template: GroupTemplate) -> (r: Self)
        ensures
            r.alias@ == Seq::<char>::empty(),
            r.entity_type == EntityType::Node,
            r.id == GroupProps::Id(template.id),
            r.name == GroupProps::Name(template.name),
            r.deleted == GroupProps::Deleted(template.deleted),
    {
        Group { alias: String::new(), uuid: new_id(), entity_type: EntityType::Node, id: GroupProps::Id(template.id), name: GroupProps::Name(template.name), deleted: GroupProps::Deleted(template.deleted) }
    }

    /// The value of the `id` property.
    pub fn id(&self) -> (r: &String)
        requires
            self.id is Id,
        ensures
            self.id == GroupProps::Id(*r),
    {
        self.id.id()
    }

    /// The value of the `name` property.
    pub fn name(&self) -> (r: &String)
        requires
            self.name is Name,
        ensures
            self.name == GroupProps::Name(*r),
    {
        self.name.name()
    }

    /// The value of the `deleted` property.
    pub fn deleted(&self) -> (r: &bool)
        requires
            self.deleted is Deleted,
        ensures
            self.deleted == GroupProps::Deleted(*r),
    {
        self.deleted.deleted()
    }

    /// The entity's properties, in field order.
    pub fn self_to_props(&self) -> (r: Vec<GroupProps>)
        ensures
            r@ == self.own_props(),
    {
        let mut v = Vec::new();
        v.push(self.id.clone());
        v.push(self.name.clone());
        v.push(self.deleted.clone());
        assert(v@ =~= seq![self.id, self.name, self.deleted]);
        v
    }

    /// Wraps a copy of the entity.
    pub fn wrap(&self) -> (r: EntityWrapper)
        ensures
            r == EntityWrapper::Group(*self),
    {
        EntityWrapper::Group(self.clone())
    }

    /// Reads a group of users from a database node, each property under its own name;
    /// anything else reads as `Nothing`.
    pub fn from_db_entity(db_entity: DbEntityWrapper) -> (r: EntityWrapper)
        ensures
            match db_entity {
                DbEntityWrapper::Node(d) => r matches EntityWrapper::Group(e) && group_read_from(d.props@, e),
                DbEntityWrapper::Relation(_) => r is Nothing,
            },
    {
        match db_entity {
            DbEntityWrapper::Node(d) => {
                EntityWrapper::Group(Group { alias: String::new(), uuid: new_id(), entity_type: EntityType::Node, id: GroupProps::Id(db_get_text(&d.props, "id")), name: GroupProps::Name(db_get_text(&d.props, "name")), deleted: GroupProps::Deleted(db_get_flag(&d.props, "deleted")) })
            },
            DbEntityWrapper::Relation(_) => EntityWrapper::Nothing(Nothing::default()),
        }
    }
}

impl Paramable for Group {
    open spec fn text_spec(&self) -> Seq<Piece> {
        seq![Piece::Text(self.alias@)]
    }

    open spec fn ids_spec(&self) -> Seq<u128> {
        Seq::empty()
    }

    open spec fn params_spec(&self) -> Map<Seq<char>, BoltType> {
        Map::empty()
    }

    fn to_query_uuid_param(&self) -> (r: (Vec<Token>, Vec<u128>, Params)) {
        let mut t = Vec::new();
        push_text(&mut t, self.alias.as_str());
        assert(pieces(t@) =~= seq![Piece::Text(self.alias@)]);
        (t, Vec::new(), Params::new())
    }
}

impl Aliasable for Group {
    open spec fn alias_spec(&self) -> Seq<char> {
        self.alias@
    }

    open spec fn uuid_spec(&self) -> u128 {
        self.uuid
    }

    open spec fn alias_after(&self, alias: Seq<char>) -> Seq<char> {
        lower_form(alias)
    }

    open spec fn same_but_alias(&self, other: &Self) -> bool {
        &&& self.uuid == other.uuid
        &&& self.entity_type == other.entity_type
        &&& self.id == other.id
        &&& self.name == other.name
        &&& self.deleted == other.deleted
    }

    fn get_alias(&self) -> (r: String) {
        self.alias.clone()
    }

    fn set_alias(&mut self, alias: &str) {
        self.alias = to_lowercase_text(alias);
    }

    fn get_uuid(&self) -> (r: u128) {
        self.uuid
    }
}

impl Neo4gEntity for Group {
    type Props = GroupProps;

    open spec fn entity_type_spec(&self) -> EntityType {
        self.entity_type
    }

    open spec fn label_spec(&self) -> Seq<char> {
        "Group"@
    }

    open spec fn own_props(&self) -> Seq<GroupProps> {
        seq![self.id, self.name, self.deleted]
    }

    open spec fn pattern_text(&self, alias: Seq<char>, props: Seq<GroupProps>) -> Seq<char> {
        node_pattern(self.label_spec(), alias, props)
    }

    open spec fn pattern_params(&self, alias: Seq<char>, props: Seq<GroupProps>) -> Map<Seq<char>, BoltType> {
        prop_params(alias, props)
    }

    open spec fn current_spec(&self, prop: GroupProps) -> GroupProps {
        match prop {
            GroupProps::CurrentId => self.id,
            GroupProps::CurrentName => self.name,
            GroupProps::CurrentDeleted => self.deleted,
            _ => prop,
        }
    }

    proof fn lemma_alias_free(a: &Self, b: &Self) {
    }

    fn get_entity_type(&self) -> (r: EntityType) {
        self.entity_type
    }

    fn get_label(&self) -> (r: String) {
        String::from_str("Group")
    }

    fn entity_by(&self, alias: &str, props: &[GroupProps]) -> (r: (String, Params)) {
        let label = self.get_label();
        node_by(label.as_str(), alias, props)
    }

    fn create_from_self(&self) -> (r: (String, Params)) {
        let props = self.self_to_props();
        self.entity_by(self.alias.as_str(), props.as_slice())
    }

    fn get_current(&self, prop: &GroupProps) -> (r: GroupProps) {
        match prop {
            GroupProps::CurrentId => self.id.clone(),
            GroupProps::CurrentName => self.name.clone(),
            GroupProps::CurrentDeleted => self.deleted.clone(),
            _ => prop.clone(),
        }
    }
}
/// The plain form of a membership of a user in a group, whose fields hold the values themselves.
#[derive(Debug)]
pub struct MemberOfTemplate {
    pub deleted: bool,
}

impl MemberOfTemplate {
    /// A template holding the given values.
    pub fn new(deleted: bool) -> (r: Self)
        ensures
            r.deleted == deleted,
    {
        MemberOfTemplate { deleted }
    }

    /// The plain values of `entity`.
    pub fn from_entity(entity: &MemberOf) -> (r: Self)
        requires
            entity.deleted is Deleted,
        ensures
            entity.deleted == MemberOfProps::Deleted(r.deleted),
    {
        MemberOfTemplate { deleted: *entity.deleted() }
    }
}

/// The properties of a membership of a user in a group: each holds a value, or, as `Current...`,
/// stands for the value the MemberOf holds.
#[derive(Debug)]
pub enum MemberOfProps {
    Deleted(bool),
    CurrentDeleted,
}

impl Clone for MemberOfProps {
    fn clone(&self) -> (r: Self)
        ensures
            r == *self,
    {
        match self {
            MemberOfProps::Deleted(v) => MemberOfProps::Deleted(*v),
            MemberOfProps::CurrentDeleted => MemberOfProps::CurrentDeleted,
        }
    }
}

impl QueryParam for MemberOfProps {
    open spec fn key_spec(&self) -> Seq<char> {
        match self {
            MemberOfProps::Deleted(_) => "deleted"@,
            _ => "nope"@,
        }
    }

    open spec fn value_spec(&self) -> BoltType {
        match self {
            MemberOfProps::Deleted(v) => bolt_boolean(*v),
            _ => bolt_integer(0),
        }
    }

    fn to_query_param(&self) -> (r: (&'static str, BoltType)) {
        match self {
            MemberOfProps::Deleted(v) => ("deleted", bolt_from_bool(*v)),
            _ => ("nope", bolt_from_i32(0)),
        }
    }
}

impl MemberOfProps {
    /// The value of a `Deleted` property.
    pub fn deleted(&self) -> (r: &bool)
        requires
            *self is Deleted,
        ensures
            *self == MemberOfProps::Deleted(*r),
        decreases 0nat,
    {
        match self {
            MemberOfProps::Deleted(v) => v,
            _ => {
                proof {
                    assert(false);
                }
                self.deleted()
            },
        }
    }
}

/// A membership of a user in a group, as the query builder writes and reads it: an alias,
/// an id, and each property held as a `MemberOfProps`.
#[derive(Debug)]
pub struct MemberOf {
    pub alias: String,
    pub uuid: u128,
    pub entity_type: EntityType,
    pub deleted: MemberOfProps,
}

impl Clone for MemberOf {
    fn clone(&self) -> (r: Self)
        ensures
            r == *self,
    {
        MemberOf { alias: self.alias.clone(), uuid: self.uuid, entity_type: self.entity_type, deleted: self.deleted.clone() }
    }
}

impl Default for MemberOf {
    fn default() -> (r: Self)
        ensures
            r.alias@ == Seq::<char>::empty(),
            r.entity_type == EntityType::Relation,
            r.deleted == MemberOfProps::Deleted(false),
    {
        MemberOf { alias: String::new(), uuid: new_id(), entity_type: EntityType::Relation, deleted: MemberOfProps::Deleted(false) }
    }
}

/// Whether `e` is a membership of a user in a group read from properties `props`: no alias yet,
/// each property read under its own name, any list left empty.
pub open spec fn member_of_read_from(props: Seq<(String, DbValue)>, e: MemberOf) -> bool {
    &&& e.alias@ == Seq::<char>::empty()
    &&& e.entity_type == EntityType::Relation
    &&& e.deleted == MemberOfProps::Deleted(db_flag(props, "deleted"@))
}

impl MemberOf {
    /// A membership of a user in a group holding the given values, with no alias yet and a fresh
    /// random id.
    pub fn new(deleted: bool) -> (r: Self)
        ensures
            r.alias@ == Seq::<char>::empty(),
            r.entity_type == EntityType::Relation,
            r.deleted == MemberOfProps::Deleted(deleted),
    {
        MemberOf { alias: String::new(), uuid: new_id(), entity_type: EntityType::Relation, deleted: MemberOfProps::Deleted(deleted) }
    }

    /// A membership of a user in a group holding the template's values, with no alias yet and a
    /// fresh random id.
    pub fn from_template(template: MemberOfTemplate) -> (r: Self)
        ensures
            r.alias@ == Seq::<char>::empty(),
            r.entity_type == EntityType::Relation,
            r.deleted == MemberOfProps::Deleted(template.deleted),
    {
        MemberOf { alias: String::new(), uuid: new_id(), entity_type: EntityType::Relation, deleted: MemberOfProps::Deleted(template.deleted) }
    }

    /// The value of the `deleted` property.
    pub fn deleted(&self) -> (r: &bool)
        requires
            self.deleted is Deleted,
        ensures
            self.deleted == MemberOfProps::Deleted(*r),
    {
        self.deleted.deleted()
    }

    /// The entity's properties, in field order.
    pub fn self_to_props(&self) -> (r: Vec<MemberOfProps>)
        ensures
            r@ == self.own_props(),
    {
        let mut v = Vec::new();
        v.push(self.deleted.clone());
        assert(v@ =~= seq![self.deleted]);
        v
    }

    /// Wraps a copy of the entity.
    pub fn wrap(&self) -> (r: EntityWrapper)
        ensures
            r == EntityWrapper::MemberOf(*self),
    {
        EntityWrapper::MemberOf(self.clone())
    }

    /// Reads a membership of a user in a group from a database relation, each property under its own name;
    /// anything else reads as `Nothing`.
    pub fn from_db_entity(db_entity: DbEntityWrapper) -> (r: EntityWrapper)
        ensures
            match db_entity {
                DbEntityWrapper::Relation(d) => r matches EntityWrapper::MemberOf(e) && member_of_read_from(d.props@, e),
                DbEntityWrapper::Node(_) => r is Nothing,
            },
    {
        match db_entity {
            DbEntityWrapper::Relation(d) => {
                EntityWrapper::MemberOf(MemberOf { alias: String::new(), uuid: new_id(), entity_type: EntityType::Relation, deleted: MemberOfProps::Deleted(db_get_flag(&d.props, "deleted")) })
            },
            DbEntityWrapper::Node(_) => EntityWrapper::Nothing(Nothing::default()),
        }
    }
}

impl Paramable for MemberOf {
    open spec fn text_spec(&self) -> Seq<Piece> {
        seq![Piece::Text(self.alias@)]
    }

    open spec fn ids_spec(&self) -> Seq<u128> {
        Seq::empty()
    }

    open spec fn params_spec(&self) -> Map<Seq<char>, BoltType> {
        Map::empty()
    }

    fn to_query_uuid_param(&self) -> (r: (Vec<Token>, Vec<u128>, Params)) {
        let mut t = Vec::new();
        push_text(&mut t, self.alias.as_str());
        assert(pieces(t@) =~= seq![Piece::Text(self.alias@)]);
        (t, Vec::new(), Params::new())
    }
}

impl Aliasable for MemberOf {
    open spec fn alias_spec(&self) -> Seq<char> {
        self.alias@
    }

    open spec fn uuid_spec(&self) -> u128 {
        self.uuid
    }

    open spec fn alias_after(&self, alias: Seq<char>) -> Seq<char> {
        lower_form(alias)
    }

    open spec fn same_but_alias(&self, other: &Self) -> bool {
        &&& self.uuid == other.uuid
        &&& self.entity_type == other.entity_type
        &&& self.deleted == other.deleted
    }

    fn get_alias(&self) -> (r: String) {
        self.alias.clone()
    }

    fn set_alias(&mut self, alias: &str) {
        self.alias = to_lowercase_text(alias);
    }

    fn get_uuid(&self) -> (r: u128) {
        self.uuid
    }
}

impl Neo4gEntity for MemberOf {
    type Props = MemberOfProps;

    open spec fn entity_type_spec(&self) -> EntityType {
        self.entity_type
    }

    open spec fn label_spec(&self) -> Seq<char> {
        shouty_snake_of("MemberOf"@)
    }

    open spec fn own_props(&self) -> Seq<MemberOfProps> {
        seq![self.deleted]
    }

    open spec fn pattern_text(&self, alias: Seq<char>, props: Seq<MemberOfProps>) -> Seq<char> {
        relation_pattern(self.label_spec(), alias, props)
    }

    open spec fn pattern_params(&self, alias: Seq<char>, props: Seq<MemberOfProps>) -> Map<Seq<char>, BoltType> {
        prop_params(alias, props)
    }

    open spec fn current_spec(&self, prop: MemberOfProps) -> MemberOfProps {
        match prop {
            MemberOfProps::CurrentDeleted => self.deleted,
            _ => prop,
        }
    }

    proof fn lemma_alias_free(a: &Self, b: &Self) {
    }

    fn get_entity_type(&self) -> (r: EntityType) {
        self.entity_type
    }

    fn get_label(&self) -> (r: String) {
        to_shouty_snake_text("MemberOf")
    }

    fn entity_by(&self, alias: &str, props: &[MemberOfProps]) -> (r: (String, Params)) {
        let label = self.get_label();
        relation_by(label.as_str(), alias, props)
    }

    fn create_from_self(&self) -> (r: (String, Params)) {
        let props = self.self_to_props();
        self.entity_by(self.alias.as_str(), props.as_slice())
    }

    fn get_current(&self, prop: &MemberOfProps) -> (r: MemberOfProps) {
        match prop {
            MemberOfProps::CurrentDeleted => self.deleted.clone(),
            _ => prop.clone(),
        }
    }
}
/// The plain form of the link from a page to one of its components, whose fields hold the values themselves.
#[derive(Debug)]
pub struct HasComponentTemplate {
    pub deleted: bool,
}

impl HasComponentTemplate {
    /// A template holding the given values.
    pub fn new(deleted: bool) -> (r: Self)
        ensures
            r.deleted == deleted,
    {
        HasComponentTemplate { deleted }
    }

    /// The plain values of `entity`.
    pub fn from_entity(entity: &HasComponent) -> (r: Self)
        requires
            entity.deleted is Deleted,
        ensures
            entity.deleted == HasComponentProps::Deleted(r.deleted),
    {
        HasComponentTemplate { deleted: *entity.deleted() }
    }
}

/// The properties of the link from a page to one of its components: each holds a value, or, as `Current...`,
/// stands for the value the HasComponent holds.
#[derive(Debug)]
pub enum HasComponentProps {
    Deleted(bool),
    CurrentDeleted,
}

impl Clone for HasComponentProps {
    fn clone(&self) -> (r: Self)
        ensures
            r == *self,
    {
        match self {
            HasComponentProps::Deleted(v) => HasComponentProps::Deleted(*v),
            HasComponentProps::CurrentDeleted => HasComponentProps::CurrentDeleted,
        }
    }
}

impl QueryParam for HasComponentProps {
    open spec fn key_spec(&self) -> Seq<char> {
        match self {
            HasComponentProps::Deleted(_) => "deleted"@,
            _ => "nope"@,
        }
    }

    open spec fn value_spec(&self) -> BoltType {
        match self {
            HasComponentProps::Deleted(v) => bolt_boolean(*v),
            _ => bolt_integer(0),
        }
    }

    fn to_query_param(&self) -> (r: (&'static str, BoltType)) {
        match self {
            HasComponentProps::Deleted(v) => ("deleted", bolt_from_bool(*v)),
            _ => ("nope", bolt_from_i32(0)),
        }
    }
}

impl HasComponentProps {
    /// The value of a `Deleted` property.
    pub fn deleted(&self) -> (r: &bool)
        requires
            *self is Deleted,
        ensures
            *self == HasComponentProps::Deleted(*r),
        decreases 0nat,
    {
        match self {
            HasComponentProps::Deleted(v) => v,
            _ => {
                proof {
                    assert(false);
                }
                self.deleted()
            },
        }
    }
}

/// The link from a page to one of its components, as the query builder writes and reads it: an alias,
/// an id, and each property held as a `HasComponentProps`.
#[derive(Debug)]
pub struct HasComponent {
    pub alias: String,
    pub uuid: u128,
    pub entity_type: EntityType,
    pub deleted: HasComponentProps,
}

impl Clone for HasComponent {
    fn clone(&self) -> (r: Self)
        ensures
            r == *self,
    {
        HasComponent { alias: self.alias.clone(), uuid: self.uuid, entity_type: self.entity_type, deleted: self.deleted.clone() }
    }
}

impl Default for HasComponent {
    fn default() -> (r: Self)
        ensures
            r.alias@ == Seq::<char>::empty(),
            r.entity_type == EntityType::Relation,
            r.deleted == HasComponentProps::Deleted(false),
    {
        HasComponent { alias: String::new(), uuid: new_id(), entity_type: EntityType::Relation, deleted: HasComponentProps::Deleted(false) }
    }
}

/// Whether `e` is the link from a page to one of its components read from properties `props`: no alias yet,
/// each property read under its own name, any list left empty.
pub open spec fn has_component_read_from(props: Seq<(String, DbValue)>, e: HasComponent) -> bool {
    &&& e.alias@ == Seq::<char>::empty()
    &&& e.entity_type == EntityType::Relation
    &&& e.deleted == HasComponentProps::Deleted(db_flag(props, "deleted"@))
}

impl HasComponent {
    /// The link from a page to one of its components holding the given values, with no alias yet and a fresh
    /// random id.
    pub fn new(deleted: bool) -> (r: Self)
        ensures
            r.alias@ == Seq::<char>::empty(),
            r.entity_type == EntityType::Relation,
            r.deleted == HasComponentProps::Deleted(deleted),
    {
        HasComponent { alias: String::new(), uuid: new_id(), entity_type: EntityType::Relation, deleted: HasComponentProps::Deleted(deleted) }
    }

    /// The link from a page to one of its components holding the template's values, with no alias yet and a
    /// fresh random id.
    pub fn from_template(template: HasComponentTemplate) -> (r: Self)
        ensures
            r.alias@ == Seq::<char>::empty(),
            r.entity_type == EntityType::Relation,
            r.deleted == HasComponentProps::Deleted(template.deleted),
    {
        HasComponent { alias: String::new(), uuid: new_id(), entity_type: EntityType::Relation, deleted: HasComponentProps::Deleted(template.deleted) }
    }

    /// The value of the `deleted` property.
    pub fn deleted(&self) -> (r: &bool)
        requires
            self.deleted is Deleted,
        ensures
            self.deleted == HasComponentProps::Deleted(*r),
    {
        self.deleted.deleted()
    }

    /// The entity's properties, in field order.
    pub fn self_to_props(&self) -> (r: Vec<HasComponentProps>)
        ensures
            r@ == self.own_props(),
    {
        let mut v = Vec::new();
        v.push(self.deleted.clone());
        assert(v@ =~= seq![self.deleted]);
        v
    }

    /// Wraps a copy of the entity.
    pub fn wrap(&self) -> (r: EntityWrapper)
        ensures
            r == EntityWrapper::HasComponent(*self),
    {
        EntityWrapper::HasComponent(self.clone())
    }

    /// Reads the link from a page to one of its components from a database relation, each property under its own name;
    /// anything else reads as `Nothing`.
    pub fn from_db_entity(db_entity: DbEntityWrapper) -> (r: EntityWrapper)
        ensures
            match db_entity {
                DbEntityWrapper::Relation(d) => r matches EntityWrapper::HasComponent(e) && has_component_read_from(d.props@, e),
                DbEntityWrapper::Node(_) => r is Nothing,
            },
    {
        match db_entity {
            DbEntityWrapper::Relation(d) => {
                EntityWrapper::HasComponent(HasComponent { alias: String::new(), uuid: new_id(), entity_type: EntityType::Relation, deleted: HasComponentProps::Deleted(db_get_flag(&d.props, "deleted")) })
            },
            DbEntityWrapper::Node(_) => EntityWrapper::Nothing(Nothing::default()),
        }
    }
}

impl Paramable for HasComponent {
    open spec fn text_spec(&self) -> Seq<Piece> {
        seq![Piece::Text(self.alias@)]
    }

    open spec fn ids_spec(&self) -> Seq<u128> {
        Seq::empty()
    }

    open spec fn params_spec(&self) -> Map<Seq<char>, BoltType> {
        Map::empty()
    }

    fn to_query_uuid_param(&self) -> (r: (Vec<Token>, Vec<u128>, Params)) {
        let mut t = Vec::new();
        push_text(&mut t, self.alias.as_str());
        assert(pieces(t@) =~= seq![Piece::Text(self.alias@)]);
        (t, Vec::new(), Params::new())
    }
}

impl Aliasable for HasComponent {
    open spec fn alias_spec(&self) -> Seq<char> {
        self.alias@
    }

    open spec fn uuid_spec(&self) -> u128 {
        self.uuid
    }

    open spec fn alias_after(&self, alias: Seq<char>) -> Seq<char> {
        lower_form(alias)
    }

    open spec fn same_but_alias(&self, other: &Self) -> bool {
        &&& self.uuid == other.uuid
        &&& self.entity_type == other.entity_type
        &&& self.deleted == other.deleted
    }

    fn get_alias(&self) -> (r: String) {
        self.alias.clone()
    }

    fn set_alias(&mut self, alias: &str) {
        self.alias = to_lowercase_text(alias);
    }

    fn get_uuid(&self) -> (r: u128) {
        self.uuid
    }
}

impl Neo4gEntity for HasComponent {
    type Props = HasComponentProps;

    open spec fn entity_type_spec(&self) -> EntityType {
        self.entity_type
    }

    open spec fn label_spec(&self) -> Seq<char> {
        shouty_snake_of("HasComponent"@)
    }

    open spec fn own_props(&self) -> Seq<HasComponentProps> {
        seq![self.deleted]
    }

    open spec fn pattern_text(&self, alias: Seq<char>, props: Seq<HasComponentProps>) -> Seq<char> {
        relation_pattern(self.label_spec(), alias, props)
    }

    open spec fn pattern_params(&self, alias: Seq<char>, props: Seq<HasComponentProps>) -> Map<Seq<char>, BoltType> {
        prop_params(alias, props)
    }

    open spec fn current_spec(&self, prop: HasComponentProps) -> HasComponentProps {
        match prop {
            HasComponentProps::CurrentDeleted => self.deleted,
            _ => prop,
        }
    }

    proof fn lemma_alias_free(a: &Self, b: &Self) {
    }

    fn get_entity_type(&self) -> (r: EntityType) {
        self.entity_type
    }

    fn get_label(&self) -> (r: String) {
        to_shouty_snake_text("HasComponent")
    }

    fn entity_by(&self, alias: &str, props: &[HasComponentProps]) -> (r: (String, Params)) {
        let label = self.get_label();
        relation_by(label.as_str(), alias, props)
    }

    fn create_from_self(&self) -> (r: (String, Params)) {
        let props = self.self_to_props();
        self.entity_by(self.alias.as_str(), props.as_slice())
    }

    fn get_current(&self, prop: &HasComponentProps) -> (r: HasComponentProps) {
        match prop {
            HasComponentProps::CurrentDeleted => self.deleted.clone(),
            _ => prop.clone(),
        }
    }
}
/// The plain form of a page, whose fields hold the values themselves.
#[derive(Debug)]
pub struct PageTemplate {
    pub id: String,
    pub path: String,
    pub components: Vec<Component>,
}

impl PageTemplate {
    /// A template holding the given values.
    pub fn new(id: &str, path: &str, components: Vec<Component>) -> (r: Self)
        ensures
            r.id@ == id@,
            r.path@ == path@,
            r.components == components,
    {
        PageTemplate { id: String::from_str(id), path: String::from_str(path), components }
    }

    /// The plain values of `entity`.
    pub fn from_entity(entity: &Page) -> (r: Self)
        requires
            entity.id is Id,
            entity.path is Path,
        ensures
            entity.id == PageProps::Id(r.id),
            entity.path == PageProps::Path(r.path),
            r.components@ == entity.components@,
    {
        PageTemplate { id: entity.id().clone(), path: entity.path().clone(), components: clone_components(&entity.components) }
    }
}

/// The properties of a page: each holds a value, or, as `Current...`,
/// stands for the value the Page holds.
#[derive(Debug)]
pub enum PageProps {
    Id(String),
    Path(String),
    CurrentId,
    CurrentPath,
}

impl Clone for PageProps {
    fn clone(&self) -> (r: Self)
        ensures
            r == *self,
    {
        match self {
            PageProps::Id(v) => PageProps::Id(v.clone()),
            PageProps::Path(v) => PageProps::Path(v.clone()),
            PageProps::CurrentId => PageProps::CurrentId,
            PageProps::CurrentPath => PageProps::CurrentPath,
        }
    }
}

impl QueryParam for PageProps {
    open spec fn key_spec(&self) -> Seq<char> {
        match self {
            PageProps::Id(_) => "id"@,
            PageProps::Path(_) => "path"@,
            _ => "nope"@,
        }
    }

    open spec fn value_spec(&self) -> BoltType {
        match self {
            PageProps::Id(v) => bolt_string(v@),
            PageProps::Path(v) => bolt_string(v@),
            _ => bolt_integer(0),
        }
    }

    fn to_query_param(&self) -> (r: (&'static str, BoltType)) {
        match self {
            PageProps::Id(v) => ("id", bolt_from_string(v.clone())),
            PageProps::Path(v) => ("path", bolt_from_string(v.clone())),
            _ => ("nope", bolt_from_i32(0)),
        }
    }
}

impl PageProps {
    /// The value of a `Id` property.
    pub fn id(&self) -> (r: &String)
        requires
            *self is Id,
        ensures
            *self == PageProps::Id(*r),
        decreases 0nat,
    {
        match self {
            PageProps::Id(v) => v,
            _ => {
                proof {
                    assert(false);
                }
                self.id()
            },
        }
    }

    /// The value of a `Path` property.
    pub fn path(&self) -> (r: &String)
        requires
            *self is Path,
        ensures
            *self == PageProps::Path(*r),
        decreases 0nat,
    {
        match self {
            PageProps::Path(v) => v,
            _ => {
                proof {
                    assert(false);
                }
                self.path()
            },
        }
    }
}

/// A page, as the query builder writes and reads it: an alias,
/// an id, and each property held as a `PageProps`.
#[derive(Debug)]
pub struct Page {
    pub alias: String,
    pub uuid: u128,
    pub entity_type: EntityType,
    pub id: PageProps,
    pub path: PageProps,
    pub components: Vec<Component>,
}

impl Clone for Page {
    fn clone(&self) -> (r: Self)
        ensures
            r.alias == self.alias,
            r.uuid == self.uuid,
            r.entity_type == self.entity_type,
            r.id == self.id,
            r.path == self.path,
            r.components@ == self.components@,
    {
        Page { alias: self.alias.clone(), uuid: self.uuid, entity_type: self.entity_type, id: self.id.clone(), path: self.path.clone(), components: clone_components(&self.components) }
    }
}

impl Default for Page {
    fn default() -> (r: Self)
        ensures
            r.alias@ == Seq::<char>::empty(),
            r.entity_type == EntityType::Node,
            r.id matches PageProps::Id(v) && v@ == Seq::<char>::empty(),
            r.path matches PageProps::Path(v) && v@ == Seq::<char>::empty(),
            r.components@.len() == 0,
    {
        Page { alias: String::new(), uuid: new_id(), entity_type: EntityType::Node, id: PageProps::Id(String::new()), path: PageProps::Path(String::new()), components: Vec::new() }
    }
}

/// Whether `e` is a page read from properties `props`: no alias yet,
/// each property read under its own name, any list left empty.
pub open spec fn page_read_from(props: Seq<(String, DbValue)>, e: Page) -> bool {
    &&& e.alias@ == Seq::<char>::empty()
    &&& e.entity_type == EntityType::Node
    &&& e.id matches PageProps::Id(v) && v@ == db_text(props, "id"@)
    &&& e.path matches PageProps::Path(v) && v@ == db_text(props, "path"@)
    &&& e.components@.len() == 0
}

impl Page {
    /// A page holding the given values, with no alias yet and a fresh
    /// random id.
    pub fn new(id: &str, path: &str, components: Vec<Component>) -> (r: Self)
        ensures
            r.alias@ == Seq::<char>::empty(),
            r.entity_type == EntityType::Node,
            r.id matches PageProps::Id(v) && v@ == id@,
            r.path matches PageProps::Path(v) && v@ == path@,
            r.components == components,
    {
        Page { alias: String::new(), uuid: new_id(), entity_type: EntityType::Node, id: PageProps::Id(String::from_str(id)), path: PageProps::Path(String::from_str(path)), components }
    }

    /// A page holding the template's values, with no alias yet and a
    /// fresh random id.
    pub fn from_template(template: PageTemplate) -> (r: Self)
        ensures
            r.alias@ == Seq::<char>::empty(),
            r.entity_type == EntityType::Node,
            r.id == PageProps::Id(template.id),
            r.path == PageProps::Path(template.path),
            r.components == template.components,
    {
        Page { alias: String::new(), uuid: new_id(), entity_type: EntityType::Node, id: PageProps::Id(template.id), path: PageProps::Path(template.path), components: template.components }
    }

    /// The value of the `id` property.
    pub fn id(&self) -> (r: &String)
        requires
            self.id is Id,
        ensures
            self.id == PageProps::Id(*r),
    {
        self.id.id()
    }

    /// The value of the `path` property.
    pub fn path(&self) -> (r: &String)
        requires
            self.path is Path,
        ensures
            self.path == PageProps::Path(*r),
    {
        self.path.path()
    }

    /// The entity's properties, in field order.
    pub fn self_to_props(&self) -> (r: Vec<PageProps>)
        ensures
            r@ == self.own_props(),
    {
        let mut v = Vec::new();
        v.push(self.id.clone());
        v.push(self.path.clone());
        assert(v@ =~= seq![self.id, self.path]);
        v
    }

    /// Wraps a copy of the entity.
    pub fn wrap(&self) -> (r: EntityWrapper)
        ensures
            r matches EntityWrapper::Page(e) && e.alias == self.alias && e.uuid == self.uuid,
    {
        EntityWrapper::Page(self.clone())
    }

    /// Reads a page from a database node, each property under its own name;
    /// anything else reads as `Nothing`.
    pub fn from_db_entity(db_entity: DbEntityWrapper) -> (r: EntityWrapper)
        ensures
            match db_entity {
                DbEntityWrapper::Node(d) => r matches EntityWrapper::Page(e) && page_read_from(d.props@, e),
                DbEntityWrapper::Relation(_) => r is Nothing,
            },
    {
        match db_entity {
            DbEntityWrapper::Node(d) => {
                EntityWrapper::Page(Page { alias: String::new(), uuid: new_id(), entity_type: EntityType::Node, id: PageProps::Id(db_get_text(&d.props, "id")), path: PageProps::Path(db_get_text(&d.props, "path")), components: Vec::new() })
            },
            DbEntityWrapper::Relation(_) => EntityWrapper::Nothing(Nothing::default()),
        }
    }
}

impl Paramable for Page {
    open spec fn text_spec(&self) -> Seq<Piece> {
        seq![Piece::Text(self.alias@)]
    }

    open spec fn ids_spec(&self) -> Seq<u128> {
        Seq::empty()
    }

    open spec fn params_spec(&self) -> Map<Seq<char>, BoltType> {
        Map::empty()
    }

    fn to_query_uuid_param(&self) -> (r: (Vec<Token>, Vec<u128>, Params)) {
        let mut t = Vec::new();
        push_text(&mut t, self.alias.as_str());
        assert(pieces(t@) =~= seq![Piece::Text(self.alias@)]);
        (t, Vec::new(), Params::new())
    }
}

impl Aliasable for Page {
    open spec fn alias_spec(&self) -> Seq<char> {
        self.alias@
    }

    open spec fn uuid_spec(&self) -> u128 {
        self.uuid
    }

    open spec fn alias_after(&self, alias: Seq<char>) -> Seq<char> {
        lower_form(alias)
    }

    open spec fn same_but_alias(&self, other: &Self) -> bool {
        &&& self.uuid == other.uuid
        &&& self.entity_type == other.entity_type
        &&& self.id == other.id
        &&& self.path == other.path
        &&& self.components == other.components
    }

    fn get_alias(&self) -> (r: String) {
        self.alias.clone()
    }

    fn set_alias(&mut self, alias: &str) {
        self.alias = to_lowercase_text(alias);
    }

    fn get_uuid(&self) -> (r: u128) {
        self.uuid
    }
}

impl Neo4gEntity for Page {
    type Props = PageProps;

    open spec fn entity_type_spec(&self) -> EntityType {
        self.entity_type
    }

    open spec fn label_spec(&self) -> Seq<char> {
        "Page"@
    }

    open spec fn own_props(&self) -> Seq<PageProps> {
        seq![self.id, self.path]
    }

    open spec fn pattern_text(&self, alias: Seq<char>, props: Seq<PageProps>) -> Seq<char> {
        node_pattern(self.label_spec(), alias, props)
    }

    open spec fn pattern_params(&self, alias: Seq<char>, props: Seq<PageProps>) -> Map<Seq<char>, BoltType> {
        prop_params(alias, props)
    }

    open spec fn current_spec(&self, prop: PageProps) -> PageProps {
        match prop {
            PageProps::CurrentId => self.id,
            PageProps::CurrentPath => self.path,
            _ => prop,
        }
    }

    proof fn lemma_alias_free(a: &Self, b: &Self) {
    }

    fn get_entity_type(&self) -> (r: EntityType) {
        self.entity_type
    }

    fn get_label(&self) -> (r: String) {
        String::from_str("Page")
    }

    fn entity_by(&self, alias: &str, props: &[PageProps]) -> (r: (String, Params)) {
        let label = self.get_label();
        node_by(label.as_str(), alias, props)
    }

    fn create_from_self(&self) -> (r: (String, Params)) {
        let props = self.self_to_props();
        self.entity_by(self.alias.as_str(), props.as_slice())
    }

    fn get_current(&self, prop: &PageProps) -> (r: PageProps) {
        match prop {
            PageProps::CurrentId => self.id.clone(),
            PageProps::CurrentPath => self.path.clone(),
            _ => prop.clone(),
        }
    }
}
/// The plain form of a component of a page, whose fields hold the values themselves.
#[derive(Debug)]
pub struct ComponentTemplate {
    pub id: String,
    pub path: String,
    pub component_type: ComponentType,
}

impl ComponentTemplate {
    /// A template holding the given values.
    pub fn new(id: &str, path: &str, component_type: ComponentType) -> (r: Self)
        ensures
            r.id@ == id@,
            r.path@ == path@,
            r.component_type == component_type,
    {
        ComponentTemplate { id: String::from_str(id), path: String::from_str(path), component_type }
    }

    /// The plain values of `entity`.
    pub fn from_entity(entity: &Component) -> (r: Self)
        requires
            entity.id is Id,
            entity.path is Path,
            entity.component_type is ComponentType,
        ensures
            entity.id == ComponentProps::Id(r.id),
            entity.path == ComponentProps::Path(r.path),
            entity.component_type == ComponentProps::ComponentType(r.component_type),
    {
        ComponentTemplate { id: entity.id().clone(), path: entity.path().clone(), component_type: *entity.component_type() }
    }
}

/// The properties of a component of a page: each holds a value, or, as `Current...`,
/// stands for the value the Component holds.
#[derive(Debug)]
pub enum ComponentProps {
    Id(String),
    Path(String),
    ComponentType(ComponentType),
    CurrentId,
    CurrentPath,
    CurrentComponentType,
}

impl Clone for ComponentProps {
    fn clone(&self) -> (r: Self)
        ensures
            r == *self,
    {
        match self {
            ComponentProps::Id(v) => ComponentProps::Id(v.clone()),
            ComponentProps::Path(v) => ComponentProps::Path(v.clone()),
            ComponentProps::ComponentType(v) => ComponentProps::ComponentType(*v),
            ComponentProps::CurrentId => ComponentProps::CurrentId,
            ComponentProps::CurrentPath => ComponentProps::CurrentPath,
            ComponentProps::CurrentComponentType => ComponentProps::CurrentComponentType,
        }
    }
}

impl QueryParam for ComponentProps {
    open spec fn key_spec(&self) -> Seq<char> {
        match self {
            ComponentProps::Id(_) => "id"@,
            ComponentProps::Path(_) => "path"@,
            ComponentProps::ComponentType(_) => "component_type"@,
            _ => "nope"@,
        }
    }

    open spec fn value_spec(&self) -> BoltType {
        match self {
            ComponentProps::Id(v) => bolt_string(v@),
            ComponentProps::Path(v) => bolt_string(v@),
            ComponentProps::ComponentType(v) => bolt_string(v.name()),
            _ => bolt_integer(0),
        }
    }

    fn to_query_param(&self) -> (r: (&'static str, BoltType)) {
        match self {
            ComponentProps::Id(v) => ("id", bolt_from_string(v.clone())),
            ComponentProps::Path(v) => ("path", bolt_from_string(v.clone())),
            ComponentProps::ComponentType(v) => ("component_type", bolt_from_string(v.to_string())),
            _ => ("nope", bolt_from_i32(0)),
        }
    }
}

impl ComponentProps {
    /// The value of a `Id` property.
    pub fn id(&self) -> (r: &String)
        requires
            *self is Id,
        ensures
            *self == ComponentProps::Id(*r),
        decreases 0nat,
    {
        match self {
            ComponentProps::Id(v) => v,
            _ => {
                proof {
                    assert(false);
                }
                self.id()
            },
        }
    }

    /// The value of a `Path` property.
    pub fn path(&self) -> (r: &String)
        requires
            *self is Path,
        ensures
            *self == ComponentProps::Path(*r),
        decreases 0nat,
    {
        match self {
            ComponentProps::Path(v) => v,
            _ => {
                proof {
                    assert(false);
                }
                self.path()
            },
        }
    }

    /// The value of a `ComponentType` property.
    pub fn component_type(&self) -> (r: &ComponentType)
        requires
            *self is ComponentType,
        ensures
            *self == ComponentProps::ComponentType(*r),
        decreases 0nat,
    {
        match self {
            ComponentProps::ComponentType(v) => v,
            _ => {
                proof {
                    assert(false);
                }
                self.component_type()
            },
        }
    }
}

/// A component of a page, as the query builder writes and reads it: an alias,
/// an id, and each property held as a `ComponentProps`.
#[derive(Debug)]
pub struct Component {
    pub alias: String,
    pub uuid: u128,
    pub entity_type: EntityType,
    pub id: ComponentProps,
    pub path: ComponentProps,
    pub component_type: ComponentProps,
}

impl Clone for Component {
    fn clone(&self) -> (r: Self)
        ensures
            r == *self,
    {
        Component { alias: self.alias.clone(), uuid: self.uuid, entity_type: self.entity_type, id: self.id.clone(), path: self.path.clone(), component_type: self.component_type.clone() }
    }
}

impl Default for Component {
    fn default() -> (r: Self)
        ensures
            r.alias@ == Seq::<char>::empty(),
            r.entity_type == EntityType::Node,
            r.id matches ComponentProps::Id(v) && v@ == Seq::<char>::empty(),
            r.path matches ComponentProps::Path(v) && v@ == Seq::<char>::empty(),
            r.component_type == ComponentProps::ComponentType(ComponentType::Type1),
    {
        Component { alias: String::new(), uuid: new_id(), entity_type: EntityType::Node, id: ComponentProps::Id(String::new()), path: ComponentProps::Path(String::new()), component_type: ComponentProps::ComponentType(ComponentType::Type1) }
    }
}

/// Whether `e` is a component of a page read from properties `props`: no alias yet,
/// each property read under its own name, any list left empty.
pub open spec fn component_read_from(props: Seq<(String, DbValue)>, e: Component) -> bool {
    &&& e.alias@ == Seq::<char>::empty()
    &&& e.entity_type == EntityType::Node
    &&& e.id matches ComponentProps::Id(v) && v@ == db_text(props, "id"@)
    &&& e.path matches ComponentProps::Path(v) && v@ == db_text(props, "path"@)
    &&& e.component_type == ComponentProps::ComponentType(component_type_read(db_text(props, "component_type"@)))
}

impl Component {
    /// A component of a page holding the given values, with no alias yet and a fresh
    /// random id.
    pub fn new(id: &str, path: &str, component_type: ComponentType) -> (r: Self)
        ensures
            r.alias@ == Seq::<char>::empty(),
            r.entity_type == EntityType::Node,
            r.id matches ComponentProps::Id(v) && v@ == id@,
            r.path matches ComponentProps::Path(v) && v@ == path@,
            r.component_type == ComponentProps::ComponentType(component_type),
    {
        Component { alias: String::new(), uuid: new_id(), entity_type: EntityType::Node, id: ComponentProps::Id(String::from_str(id)), path: ComponentProps::Path(String::from_str(path)), component_type: ComponentProps::ComponentType(component_type) }
    }

    /// A component of a page holding the template's values, with no alias yet and a
    /// fresh random id.
    pub fn from_template(template: ComponentTemplate) -> (r: Self)
        ensures
            r.alias@ == Seq::<char>::empty(),
            r.entity_type == EntityType::Node,
            r.id == ComponentProps::Id(template.id),
            r.path == ComponentProps::Path(template.path),
            r.component_type == ComponentProps::ComponentType(template.component_type),
    {
        Component { alias: String::new(), uuid: new_id(), entity_type: EntityType::Node, id: ComponentProps::Id(template.id), path: ComponentProps::Path(template.path), component_type: ComponentProps::ComponentType(template.component_type) }
    }

    /// The value of the `id` property.
    pub fn id(&self) -> (r: &String)
        requires
            self.id is Id,
        ensures
            self.id == ComponentProps::Id(*r),
    {
        self.id.id()
    }

    /// The value of the `path` property.
    pub fn path(&self) -> (r: &String)
        requires
            self.path is Path,
        ensures
            self.path == ComponentProps::Path(*r),
    {
        self.path.path()
    }

    /// The value of the `component_type` property.
    pub fn component_type(&self) -> (r: &ComponentType)
        requires
            self.component_type is ComponentType,
        ensures
            self.component_type == ComponentProps::ComponentType(*r),
    {
        self.component_type.component_type()
    }

    /// The entity's properties, in field order.
    pub fn self_to_props(&self) -> (r: Vec<ComponentProps>)
        ensures
            r@ == self.own_props(),
    {
        let mut v = Vec::new();
        v.push(self.id.clone());
        v.push(self.path.clone());
        v.push(self.component_type.clone());
        assert(v@ =~= seq![self.id, self.path, self.component_type]);
        v
    }

    /// Wraps a copy of the entity.
    pub fn wrap(&self) -> (r: EntityWrapper)
        ensures
            r == EntityWrapper::Component(*self),
    {
        EntityWrapper::Component(self.clone())
    }

    /// Reads a component of a page from a database node, each property under its own name;
    /// anything else reads as `Nothing`.
    pub fn from_db_entity(db_entity: DbEntityWrapper) -> (r: EntityWrapper)
        ensures
            match db_entity {
                DbEntityWrapper::Node(d) => r matches EntityWrapper::Component(e) && component_read_from(d.props@, e),
                DbEntityWrapper::Relation(_) => r is Nothing,
            },
    {
        match db_entity {
            DbEntityWrapper::Node(d) => {
                EntityWrapper::Component(Component { alias: String::new(), uuid: new_id(), entity_type: EntityType::Node, id: ComponentProps::Id(db_get_text(&d.props, "id")), path: ComponentProps::Path(db_get_text(&d.props, "path")), component_type: ComponentProps::ComponentType(ComponentType::read(db_get_text(&d.props, "component_type").as_str())) })
            },
            DbEntityWrapper::Relation(_) => EntityWrapper::Nothing(Nothing::default()),
        }
    }
}

impl Paramable for Component {
    open spec fn text_spec(&self) -> Seq<Piece> {
        seq![Piece::Text(self.alias@)]
    }

    open spec fn ids_spec(&self) -> Seq<u128> {
        Seq::empty()
    }

    open spec fn params_spec(&self) -> Map<Seq<char>, BoltType> {
        Map::empty()
    }

    fn to_query_uuid_param(&self) -> (r: (Vec<Token>, Vec<u128>, Params)) {
        let mut t = Vec::new();
        push_text(&mut t, self.alias.as_str());
        assert(pieces(t@) =~= seq![Piece::Text(self.alias@)]);
        (t, Vec::new(), Params::new())
    }
}

impl Aliasable for Component {
    open spec fn alias_spec(&self) -> Seq<char> {
        self.alias@
    }

    open spec fn uuid_spec(&self) -> u128 {
        self.uuid
    }

    open spec fn alias_after(&self, alias: Seq<char>) -> Seq<char> {
        lower_form(alias)
    }

    open spec fn same_but_alias(&self, other: &Self) -> bool {
        &&& self.uuid == other.uuid
        &&& self.entity_type == other.entity_type
        &&& self.id == other.id
        &&& self.path == other.path
        &&& self.component_type == other.component_type
    }

    fn get_alias(&self) -> (r: String) {
        self.alias.clone()
    }

    fn set_alias(&mut self, alias: &str) {
        self.alias = to_lowercase_text(alias);
    }

    fn get_uuid(&self) -> (r: u128) {
        self.uuid
    }
}

impl Neo4gEntity for Component {
    type Props = ComponentProps;

    open spec fn entity_type_spec(&self) -> EntityType {
        self.entity_type
    }

    open spec fn label_spec(&self) -> Seq<char> {
        "Component"@
    }

    open spec fn own_props(&self) -> Seq<ComponentProps> {
        seq![self.id, self.path, self.component_type]
    }

    open spec fn pattern_text(&self, alias: Seq<char>, props: Seq<ComponentProps>) -> Seq<char> {
        node_pattern(self.label_spec(), alias, props)
    }

    open spec fn pattern_params(&self, alias: Seq<char>, props: Seq<ComponentProps>) -> Map<Seq<char>, BoltType> {
        prop_params(alias, props)
    }

    open spec fn current_spec(&self, prop: ComponentProps) -> ComponentProps {
        match prop {
            ComponentProps::CurrentId => self.id,
            ComponentProps::CurrentPath => self.path,
            ComponentProps::CurrentComponentType => self.component_type,
            _ => prop,
        }
    }

    proof fn lemma_alias_free(a: &Self, b: &Self) {
    }

    fn get_entity_type(&self) -> (r: EntityType) {
        self.entity_type
    }

    fn get_label(&self) -> (r: String) {
        String::from_str("Component")
    }

    fn entity_by(&self, alias: &str, props: &[ComponentProps]) -> (r: (String, Params)) {
        let label = self.get_label();
        node_by(label.as_str(), alias, props)
    }

    fn create_from_self(&self) -> (r: (String, Params)) {
        let props = self.self_to_props();
        self.entity_by(self.alias.as_str(), props.as_slice())
    }

    fn get_current(&self, prop: &ComponentProps) -> (r: ComponentProps) {
        match prop {
            ComponentProps::CurrentId => self.id.clone(),
            ComponentProps::CurrentPath => self.path.clone(),
            ComponentProps::CurrentComponentType => self.component_type.clone(),
            _ => prop.clone(),
        }
    }
}
} // verus!
