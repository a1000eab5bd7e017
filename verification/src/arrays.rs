//! Lists passed to a query as parameters, and the UNWIND of such a list.
use vstd::prelude::*;
use vstd::string::*;
use neo4rs::BoltType;
use crate::collections::{Params, Piece, Token, pieces, push_text};
use crate::external::{bolt_from_list, bolt_list, new_id};
use crate::traits::{Aliasable, Paramable};

verus! {

/// A list of values passed to the query as one parameter.
#[derive(Debug)]
pub struct Array {
    alias: String,
    uuid: u128,
    list: Vec<BoltType>,
    is_built: bool,
}

impl Array {
    /// The list's values.
    pub closed spec fn list_spec(&self) -> Seq<BoltType> {
        self.list@
    }

    /// Whether the list has already been passed to a query.
    pub closed spec fn is_built_spec(&self) -> bool {
        self.is_built
    }

    /// A list named `alias`, not yet passed to a query, with a fresh random id.
    pub fn new(alias: &str, list: Vec<BoltType>) -> (r: Self)
        ensures
            r.alias_spec() == alias@,
            r.list_spec() == list@,
            !r.is_built_spec(),
    {
        Array { alias: String::from_str(alias), uuid: new_id(), list, is_built: false }
    }

    /// The first call gives the alias, the id, the parameter that carries the
    /// list and `false`, and marks the list as passed; later calls give no
    /// parameter and `true`.
    pub(crate) fn build(&mut self) -> (r: (String, u128, Params, bool))
        ensures
            r.0@ == old(self).alias_spec(),
            r.1 == old(self).uuid_spec(),
            r.3 == old(self).is_built_spec(),
            r.3 ==> r.2@ == Map::<Seq<char>, BoltType>::empty(),
            !r.3 ==> r.2@ == Map::<Seq<char>, BoltType>::empty().insert(
                old(self).alias_spec(),
                bolt_list(old(self).list_spec()),
            ),
            final(self).alias_spec() == old(self).alias_spec(),
            final(self).uuid_spec() == old(self).uuid_spec(),
            final(self).list_spec() == old(self).list_spec(),
            final(self).is_built_spec(),
    {
        if self.is_built {
            (self.alias.clone(), self.uuid, Params::new(), true)
        } else {
            self.is_built = true;
            let mut params = Params::new();
            params.insert(self.alias.clone(), bolt_from_list(&self.list));
            (self.alias.clone(), self.uuid, params, false)
        }
    }

    /// A copy of the list's values.
    pub fn list(&self) -> (r: Vec<BoltType>)
        ensures
            r@ == self.list_spec(),
    {
        self.list.clone()
    }
}

impl Clone for Array {
    fn clone(&self) -> (r: Self)
        ensures
            r.alias_spec() == self.alias_spec(),
            r.uuid_spec() == self.uuid_spec(),
            r.list_spec() == self.list_spec(),
            r.is_built_spec() == self.is_built_spec(),
    {
        Array { alias: self.alias.clone(), uuid: self.uuid, list: self.list.clone(), is_built: self.is_built }
    }
}

impl Default for Array {
    fn default() -> (r: Self)
        ensures
            r.alias_spec() == Seq::<char>::empty(),
            r.uuid_spec() == 0,
            r.list_spec() == Seq::<BoltType>::empty(),
            !r.is_built_spec(),
    {
        Array { alias: String::new(), uuid: 0, list: Vec::new(), is_built: false }
    }
}

impl Paramable for Array {
    closed spec fn text_spec(&self) -> Seq<Piece> {
        seq![Piece::Text(self.alias@)]
    }

    closed spec fn ids_spec(&self) -> Seq<u128> {
        seq![self.uuid]
    }

    closed spec fn params_spec(&self) -> Map<Seq<char>, BoltType> {
        Map::empty().insert(self.alias@, bolt_list(self.list@))
    }

    fn to_query_uuid_param(&self) -> (r: (Vec<Token>, Vec<u128>, Params)) {
        let mut t = Vec::new();
        push_text(&mut t, self.alias.as_str());
        let mut params = Params::new();
        params.insert(self.alias.clone(), bolt_from_list(&self.list));
        assert(pieces(t@) =~= seq![Piece::Text(self.alias@)]);
        (t, vec![self.uuid], params)
    }
}

impl Aliasable for Array {
    closed spec fn alias_spec(&self) -> Seq<char> {
        self.alias@
    }

    closed spec fn uuid_spec(&self) -> u128 {
        self.uuid
    }

    open spec fn alias_after(&self, alias: Seq<char>) -> Seq<char> {
        alias
    }

    closed spec fn same_but_alias(&self, other: &Self) -> bool {
        &&& self.uuid == other.uuid
        &&& self.list == other.list
        &&& self.is_built == other.is_built
    }

    fn get_alias(&self) -> (r: String) {
        self.alias.clone()
    }

    fn set_alias(&mut self, alias: &str) {
        self.alias = String::from_str(alias);
    }

    fn get_uuid(&self) -> (r: u128) {
        self.uuid
    }
}

/// The UNWIND of an array: names each element of the list in turn.
#[derive(Debug)]
pub struct Unwinder {
    alias: String,
    uuid: u128,
    array: Array,
}

impl Unwinder {
    /// The unwound array.
    pub closed spec fn array_spec(&self) -> Array {
        self.array
    }

    /// The id of the unwound array.
    pub closed spec fn array_id(&self) -> u128 {
        self.array.uuid
    }

    /// An unwinder of a copy of `array`, with no alias yet and a fresh
    /// random id.
    pub fn new(array: &Array) -> (r: Self)
        ensures
            r.alias_spec() == Seq::<char>::empty(),
            r.array_id() == array.uuid_spec(),
            r.array_spec().alias_spec() == array.alias_spec(),
            r.array_spec().list_spec() == array.list_spec(),
    {
        Unwinder { alias: String::new(), uuid: new_id(), array: array.clone() }
    }

    /// The unwinder's alias, the id of its array, and no parameters.
    pub(crate) fn unwind(&mut self) -> (r: (String, u128, Params))
        ensures
            r.0@ == old(self).alias_spec(),
            r.1 == old(self).array_id(),
            r.2@ == Map::<Seq<char>, BoltType>::empty(),
            *final(self) == *old(self),
    {
        (self.alias.clone(), self.array.uuid, Params::new())
    }

    /// The alias of the unwound array, and the parameter that carries its
    /// list under that alias.
    pub(crate) fn array_parts(&self) -> (r: (String, Params))
        ensures
            r.0@ == self.array_spec().alias_spec(),
            r.1@ == Map::<Seq<char>, BoltType>::empty().insert(
                self.array_spec().alias_spec(),
                bolt_list(self.array_spec().list_spec()),
            ),
    {
        let mut params = Params::new();
        params.insert(self.array.alias.clone(), bolt_from_list(&self.array.list));
        (self.array.alias.clone(), params)
    }

    /// Records the alias the query gave this unwinder.
    pub(crate) fn set_unwound_alias(&mut self, alias: String)
        ensures
            final(self).alias_spec() == alias@,
            final(self).uuid_spec() == old(self).uuid_spec(),
            final(self).array_id() == old(self).array_id(),
    {
        self.alias = alias;
    }
}

impl Clone for Unwinder {
    fn clone(&self) -> (r: Self)
        ensures
            r.alias_spec() == self.alias_spec(),
            r.uuid_spec() == self.uuid_spec(),
            r.array_id() == self.array_id(),
            r.array_spec().alias_spec() == self.array_spec().alias_spec(),
            r.array_spec().list_spec() == self.array_spec().list_spec(),
            r.array_spec().is_built_spec() == self.array_spec().is_built_spec(),
    {
        Unwinder { alias: self.alias.clone(), uuid: self.uuid, array: self.array.clone() }
    }
}

impl Default for Unwinder {
    fn default() -> (r: Self)
        ensures
            r.alias_spec() == Seq::<char>::empty(),
            r.uuid_spec() == 0,
            r.array_id() == 0,
    {
        Unwinder { alias: String::new(), uuid: 0, array: Array::default() }
    }
}

impl Paramable for Unwinder {
    closed spec fn text_spec(&self) -> Seq<Piece> {
        seq![Piece::Text(self.alias@)]
    }

    closed spec fn ids_spec(&self) -> Seq<u128> {
        seq![self.array.uuid]
    }

    closed spec fn params_spec(&self) -> Map<Seq<char>, BoltType> {
        Map::empty().insert(self.alias@, bolt_list(self.array.list@))
    }

    fn to_query_uuid_param(&self) -> (r: (Vec<Token>, Vec<u128>, Params)) {
        let mut t = Vec::new();
        push_text(&mut t, self.alias.as_str());
        let mut params = Params::new();
        params.insert(self.alias.clone(), bolt_from_list(&self.array.list));
        assert(pieces(t@) =~= seq![Piece::Text(self.alias@)]);
        (t, vec![self.array.uuid], params)
    }
}

impl Aliasable for Unwinder {
    closed spec fn alias_spec(&self) -> Seq<char> {
        self.alias@
    }

    closed spec fn uuid_spec(&self) -> u128 {
        self.uuid
    }

    open spec fn alias_after(&self, alias: Seq<char>) -> Seq<char> {
        alias
    }

    closed spec fn same_but_alias(&self, other: &Self) -> bool {
        &&& self.uuid == other.uuid
        &&& self.array == other.array
    }

    fn get_alias(&self) -> (r: String) {
        self.alias.clone()
    }

    fn set_alias(&mut self, alias: &str) {
        self.alias = String::from_str(alias);
    }

    fn get_uuid(&self) -> (r: u128) {
        self.uuid
    }
}

} // verus!
