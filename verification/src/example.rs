//! A small hand-written entity model: users, things and groups whose
//! properties are held as enum values.
use vstd::prelude::*;
use vstd::string::*;
use neo4rs::BoltType;
use crate::external::{bolt_from_i32, bolt_from_string, bolt_integer, bolt_string};

verus! {

/// A user with an id and a name.
#[derive(Debug)]
pub struct User {
    pub id: UserProps,
    pub name: UserProps,
}

/// The properties of a user.
#[derive(Debug)]
pub enum UserProps {
    Id(i32),
    Name(String),
}

impl Clone for UserProps {
    fn clone(&self) -> (r: Self)
        ensures
            r == *self,
    {
        match self {
            UserProps::Id(id) => UserProps::Id(*id),
            UserProps::Name(name) => UserProps::Name(name.clone()),
        }
    }
}

impl Clone for User {
    fn clone(&self) -> (r: Self)
        ensures
            r == *self,
    {
        User { id: self.id.clone(), name: self.name.clone() }
    }
}

impl User {
    /// A user with the given id and name.
    pub fn new(id: i32, name: &str) -> (r: Self)
        ensures
            r.id == UserProps::Id(id),
            r.name matches UserProps::Name(n) && n@ == name@,
    {
        User { id: UserProps::Id(id), name: UserProps::Name(String::from_str(name)) }
    }

    /// The id, when the id property holds one.
    pub fn get_id(&self) -> (r: Option<i32>)
        ensures
            r == (match self.id {
                UserProps::Id(id) => Some(id),
                _ => Option::<i32>::None,
            }),
    {
        if let UserProps::Id(id) = self.id {
            return Some(id);
        } else {
            return None;
        }
    }

    /// Sets the id, and gives a copy of the user as it then is.
    pub fn set_id(&mut self, id: i32) -> (r: Self)
        ensures
            *final(self) == (User { id: UserProps::Id(id), ..*old(self) }),
            r == *final(self),
    {
        self.id = UserProps::Id(id);
        self.clone()
    }

    /// The name, when the name property holds one.
    pub fn get_name(&self) -> (r: Option<String>)
        ensures
            r == (match self.name {
                UserProps::Name(name) => Some(name),
                _ => Option::<String>::None,
            }),
    {
        if let UserProps::Name(name) = &self.name {
            return Some(name.clone());
        } else {
            return None;
        }
    }

    /// Sets the name, and gives a copy of the user as it then is.
    pub fn set_name(&mut self, name: String) -> (r: Self)
        ensures
            *final(self) == (User { name: UserProps::Name(name), ..*old(self) }),
            r == *final(self),
    {
        self.name = UserProps::Name(name);
        self.clone()
    }
}

impl UserProps {
    /// The Bolt value of a property: the id as an integer, the name as a
    /// text.
    pub fn to_query_param(prop: UserProps) -> (r: BoltType)
        ensures
            r == (match prop {
                UserProps::Id(id) => bolt_integer(id),
                UserProps::Name(name) => bolt_string(name@),
            }),
    {
        match prop {
            UserProps::Id(id) => bolt_from_i32(id),
            UserProps::Name(name) => bolt_from_string(name),
        }
    }
}

/// A thing with an id and a test text.
#[derive(Debug)]
pub struct Thing {
    pub id: ThingProps,
    pub test: ThingProps,
}

/// The properties of a thing.
#[derive(Debug)]
pub enum ThingProps {
    Id(i32),
    Test(String),
}

/// A group with an id, a name and one more text.
#[derive(Debug)]
pub struct Group {
    pub id: GroupProps,
    pub name: GroupProps,
    pub something: GroupProps,
}

/// The properties of a group.
#[derive(Debug)]
pub enum GroupProps {
    Id(i32),
    Name(String),
    Something(String),
}

} // verus!
