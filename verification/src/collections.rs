//! The query's parameter map, the map from entity ids to aliases, and query
//! fragments that refer to entities by id until their aliases are known.
use vstd::prelude::*;
use neo4rs::BoltType;
use vstd::string::*;
use crate::text::text_eq;
use std::collections::HashMap;
use vstd::std_specs::hash::spec_hash_map_iter;
use vstd::std_specs::iter::IteratorSpec;


verus! {

/// The map that a list of key/value entries denotes: each entry is inserted
/// in turn, so a later entry for a key overrides an earlier one.
pub open spec fn params_map(s: Seq<(String, BoltType)>) -> Map<Seq<char>, BoltType>
    decreases s.len(),
{
    if s.len() == 0 {
        Map::empty()
    } else {
        params_map(s.drop_last()).insert(s.last().0@, s.last().1)
    }
}

/// Query parameters: a map from parameter names to Bolt values.
#[derive(Debug)]
pub struct Params {
    entries: Vec<(String, BoltType)>,
}

impl View for Params {
    type V = Map<Seq<char>, BoltType>;

    closed spec fn view(&self) -> Map<Seq<char>, BoltType> {
        params_map(self.entries@)
    }
}

proof fn lemma_params_map_append(a: Seq<(String, BoltType)>, b: Seq<(String, BoltType)>)
    ensures
        params_map(a + b) == params_map(a).union_prefer_right(params_map(b)),
    decreases b.len(),
{
    if b.len() == 0 {
        assert(a + b =~= a);
        assert(params_map(a).union_prefer_right(params_map(b)) =~= params_map(a));
    } else {
        assert((a + b).drop_last() =~= a + b.drop_last());
        lemma_params_map_append(a, b.drop_last());
        assert(params_map(a + b) =~= params_map(a).union_prefer_right(params_map(b)));
    }
}

proof fn lemma_params_suffix(s: Seq<(String, BoltType)>, i: int, k: Seq<char>)
    requires
        0 <= i <= s.len(),
        forall|j: int| i <= j < s.len() ==> #[trigger] s[j].0@ != k,
    ensures
        params_map(s).contains_key(k) == params_map(s.take(i)).contains_key(k),
        params_map(s).contains_key(k) ==> params_map(s)[k] == params_map(s.take(i))[k],
        0 < i && s[i - 1].0@ == k ==> params_map(s.take(i)).contains_key(k) && params_map(s.take(i))[k] == s[i - 1].1,
        i == 0 ==> !params_map(s.take(i)).contains_key(k),
    decreases s.len(),
{
    if i == s.len() {
        assert(s.take(i) =~= s);
    } else {
        assert(s[s.len() - 1].0@ != k);
        lemma_params_suffix(s.drop_last(), i, k);
        assert(s.drop_last().take(i) =~= s.take(i));
    }
    if 0 < i {
        assert(s.take(i).drop_last() =~= s.take(i - 1));
    }
    if i == 0 {
        assert(s.take(0) =~= Seq::<(String, BoltType)>::empty());
    }
}

impl Params {
    /// An empty parameter map.
    pub fn new() -> (r: Params)
        ensures
            r@ == Map::<Seq<char>, BoltType>::empty(),
    {
        Params { entries: Vec::new() }
    }

    /// Sets the value of parameter `key`, replacing any earlier value.
    pub fn insert(&mut self, key: String, value: BoltType)
        ensures
            final(self)@ == old(self)@.insert(key@, value),
    {
        let ghost old_entries = self.entries@;
        self.entries.push((key, value));
        assert(self.entries@.drop_last() =~= old_entries);
    }

    /// Adds every parameter of `other`; where both have a key, `other` wins.
    pub fn extend(&mut self, other: Params)
        ensures
            final(self)@ == old(self)@.union_prefer_right(other@),
    {
        let ghost a = self.entries@;
        let ghost b = other.entries@;
        let mut o = other.entries;
        self.entries.append(&mut o);
        proof {
            lemma_params_map_append(a, b);
        }
    }

    /// The value of parameter `key`, if it has one.
    pub fn get(&self, key: &str) -> (r: Option<&BoltType>)
        ensures
            r matches Some(v) ==> self@.contains_key(key@) && self@[key@] == *v,
            r is None ==> !self@.contains_key(key@),
    {
        let mut i = self.entries.len();
        proof {
            lemma_params_suffix(self.entries@, i as int, key@);
        }
        while i > 0
            invariant
                i <= self.entries@.len(),
                forall|j: int| i <= j < self.entries@.len() ==> #[trigger] self.entries@[j].0@ != key@,
            decreases i,
        {
            if text_eq(self.entries[i - 1].0.as_str(), key) {
                proof {
                    lemma_params_suffix(self.entries@, i as int, key@);
                    assert(self.entries@.take(i as int).drop_last() =~= self.entries@.take(i - 1));
                }
                return Some(&self.entries[i - 1].1);
            }
            i -= 1;
        }
        proof {
            lemma_params_suffix(self.entries@, 0, key@);
        }
        None
    }

    /// The entries in insertion order; inserting them in turn into a map
    /// gives the map this value denotes.
    pub fn into_entries(self) -> (r: Vec<(String, BoltType)>)
        ensures
            params_map(r@) == self@,
    {
        self.entries
    }
}

impl Clone for Params {
    fn clone(&self) -> (r: Params)
        ensures
            r@ == self@,
    {
        let mut entries: Vec<(String, BoltType)> = Vec::new();
        let mut i: usize = 0;
        while i < self.entries.len()
            invariant
                i <= self.entries@.len(),
                entries@.len() == i,
                forall|j: int| 0 <= j < i ==> #[trigger] entries@[j].0@ == self.entries@[j].0@ && entries@[j].1 == self.entries@[j].1,
            decreases self.entries@.len() - i,
        {
            let k = self.entries[i].0.clone();
            let v = self.entries[i].1.clone();
            entries.push((k, v));
            i += 1;
        }
        proof {
            lemma_params_map_pointwise(entries@, self.entries@);
        }
        Params { entries }
    }
}

proof fn lemma_params_map_pointwise(a: Seq<(String, BoltType)>, b: Seq<(String, BoltType)>)
    requires
        a.len() == b.len(),
        forall|j: int| 0 <= j < a.len() ==> #[trigger] a[j].0@ == b[j].0@ && a[j].1 == b[j].1,
    ensures
        params_map(a) == params_map(b),
    decreases a.len(),
{
    if a.len() > 0 {
        lemma_params_map_pointwise(a.drop_last(), b.drop_last());
    }
}

/// The aliases a list of id/alias pairs gives; a later pair for an id
/// overrides an earlier one.
pub open spec fn pairs_map(s: Seq<(&u128, &String)>) -> Map<u128, Seq<char>>
    decreases s.len(),
{
    if s.len() == 0 {
        Map::empty()
    } else {
        pairs_map(s.drop_last()).insert(*s.last().0, s.last().1@)
    }
}

/// A list of pairs names an id exactly when some pair has it, and, where
/// every pair for an id carries the same text, gives that text.
proof fn lemma_pairs_map(s: Seq<(&u128, &String)>, m: Map<u128, String>)
    requires
        forall|i: int| 0 <= i < s.len() ==> m.contains_key(*(#[trigger] s[i]).0) && m[*s[i].0] == *s[i].1,
    ensures
        forall|k: u128|
            #[trigger] pairs_map(s).contains_key(k) <==> exists|i: int| 0 <= i < s.len() && *s[i].0 == k,
        forall|k: u128| #[trigger] pairs_map(s).contains_key(k) ==> pairs_map(s)[k] == m[k]@,
    decreases s.len(),
{
    if s.len() > 0 {
        let t = s.drop_last();
        assert forall|i: int| 0 <= i < t.len() implies m.contains_key(*(#[trigger] t[i]).0) && m[*t[i].0] == *t[i].1 by {
            assert(t[i] == s[i]);
        }
        lemma_pairs_map(t, m);
        assert forall|k: u128| #[trigger] pairs_map(s).contains_key(k) implies exists|i: int| 0 <= i < s.len() && *s[i].0 == k by {
            if k != *s.last().0 {
                assert(pairs_map(t).contains_key(k));
                let i = choose|i: int| 0 <= i < t.len() && *t[i].0 == k;
                assert(s[i] == t[i]);
            } else {
                assert(*s[s.len() - 1].0 == k);
            }
        }
        assert forall|k: u128| (exists|i: int| 0 <= i < s.len() && *s[i].0 == k) implies #[trigger] pairs_map(s).contains_key(k) by {
            let i = choose|i: int| 0 <= i < s.len() && *s[i].0 == k;
            if i < s.len() - 1 {
                assert(t[i] == s[i]);
                assert(pairs_map(t).contains_key(k));
            }
        }
        assert(m.contains_key(*s[s.len() - 1].0) && m[*s[s.len() - 1].0] == *s[s.len() - 1].1);
        assert forall|k: u128| #[trigger] pairs_map(s).contains_key(k) implies pairs_map(s)[k] == m[k]@ by {
            if k != *s.last().0 {
                assert(pairs_map(t).contains_key(k));
            }
        }
    }
}

/// The aliases given to entities so far, keyed by entity id.
#[derive(Debug)]
pub struct AliasMap {
    map: HashMap<u128, String>,
}

impl View for AliasMap {
    type V = Map<u128, Seq<char>>;

    closed spec fn view(&self) -> Map<u128, Seq<char>> {
        self.map@.map_values(|a: String| a@)
    }
}

impl AliasMap {
    /// No aliases.
    pub fn new() -> (r: AliasMap)
        ensures
            r@ == Map::<u128, Seq<char>>::empty(),
    {
        let r = AliasMap { map: HashMap::new() };
        assert(r@ =~= Map::<u128, Seq<char>>::empty());
        r
    }

    /// Records `alias` as the alias of entity `id`.
    pub fn insert(&mut self, id: u128, alias: String)
        ensures
            final(self)@ == old(self)@.insert(id, alias@),
    {
        broadcast use vstd::std_specs::hash::group_hash_axioms;
        let ghost a = alias@;
        self.map.insert(id, alias);
        assert(self@ =~= old(self)@.insert(id, a));
    }

    /// Adds every alias of `other`; where both have an id, `other` wins.
    pub fn extend(&mut self, other: AliasMap)
        ensures
            final(self)@ == old(self)@.union_prefer_right(other@),
    {
        broadcast use vstd::std_specs::hash::group_hash_axioms;
        let ghost start = self@;
        let ghost om = other.map@;
        let ghost all = spec_hash_map_iter(&other.map).remaining();
        for e in it: other.map.iter()
            invariant
                om == other.map@,
                all == spec_hash_map_iter(&other.map).remaining(),
                it.seq() == all,
                self@ == start.union_prefer_right(pairs_map(it.seq().take(it.index() as int))),
        {
            let (k, v) = e;
            let ghost before = it.seq().take(it.index() as int);
            let ghost step = self@;
            assert(e == it.seq()[it.index() as int]);
            self.map.insert(*k, v.clone());
            assert(it.seq().take(it.index() + 1) =~= before.push(it.seq()[it.index() as int]));
            assert(before.push(it.seq()[it.index() as int]).drop_last() =~= before);
            assert(self@ =~= step.insert(*k, v@));
            assert(self@ =~= start.union_prefer_right(pairs_map(it.seq().take(it.index() + 1))));
        }
        proof {
            assert(all.take(all.len() as int) =~= all);
            lemma_pairs_map(all, om);
            assert(pairs_map(all) =~= om.map_values(|a: String| a@));
        }
    }

    /// The alias recorded for entity `id`, if any.
    pub fn get(&self, id: u128) -> (r: Option<String>)
        ensures
            r matches Some(a) ==> self@.contains_key(id) && self@[id] == a@,
            r is None ==> !self@.contains_key(id),
    {
        broadcast use vstd::std_specs::hash::group_hash_axioms;
        match self.map.get(&id) {
            Some(a) => Some(a.clone()),
            Option::None => Option::None,
        }
    }
}

impl Clone for AliasMap {
    fn clone(&self) -> (r: AliasMap)
        ensures
            r@ == self@,
    {
        AliasMap { map: self.map.clone() }
    }
}

/// A piece of query text: literal text, or a reference to an entity by id
/// that stands for the entity's alias once the query knows it.
#[derive(Debug)]
pub enum Token {
    Text(String),
    Ref(u128),
}

impl Clone for Token {
    fn clone(&self) -> (r: Token)
        ensures
            r@ == self@,
    {
        match self {
            Token::Text(s) => Token::Text(s.clone()),
            Token::Ref(id) => Token::Ref(*id),
        }
    }
}

/// The mathematical form of a `Token`.
pub enum Piece {
    Text(Seq<char>),
    Ref(u128),
}

impl View for Token {
    type V = Piece;

    open spec fn view(&self) -> Piece {
        match self {
            Token::Text(s) => Piece::Text(s@),
            Token::Ref(id) => Piece::Ref(*id),
        }
    }
}

/// The pieces of a token list.
pub open spec fn pieces(v: Seq<Token>) -> Seq<Piece> {
    v.map_values(|t: Token| t@)
}

/// A copy of a token list.
pub fn clone_tokens(v: &Vec<Token>) -> (r: Vec<Token>)
    ensures
        pieces(r@) == pieces(v@),
{
    let mut r: Vec<Token> = Vec::new();
    let mut i: usize = 0;
    while i < v.len()
        invariant
            i <= v@.len(),
            r@.len() == i,
            forall|j: int| 0 <= j < i ==> (#[trigger] r@[j])@ == v@[j]@,
        decreases v@.len() - i,
    {
        let t = match &v[i] {
            Token::Text(s) => Token::Text(s.clone()),
            Token::Ref(id) => Token::Ref(*id),
        };
        r.push(t);
        i += 1;
    }
    assert(pieces(r@) =~= pieces(v@));
    r
}

/// The text a reference resolves to: the entity's alias, or `WTF?` when the
/// query has no alias for it.
pub open spec fn alias_or_unknown(aliases: Map<u128, Seq<char>>, id: u128) -> Seq<char> {
    if aliases.contains_key(id) {
        aliases[id]
    } else {
        "WTF?"@
    }
}

/// The text of a piece list once each reference is replaced by its alias.
pub open spec fn resolve(p: Seq<Piece>, aliases: Map<u128, Seq<char>>) -> Seq<char>
    decreases p.len(),
{
    if p.len() == 0 {
        Seq::empty()
    } else {
        resolve(p.drop_last(), aliases) + match p.last() {
            Piece::Text(s) => s,
            Piece::Ref(id) => alias_or_unknown(aliases, id),
        }
    }
}

/// Whether a piece list renders as empty text: it holds no reference and
/// only empty literal text.
pub open spec fn is_blank(p: Seq<Piece>) -> bool {
    forall|i: int| 0 <= i < p.len() ==> #[trigger] p[i] == Piece::Text(Seq::<char>::empty())
}

/// A single piece of literal text.
pub fn text_token(s: &str) -> (r: Token)
    ensures
        r@ == Piece::Text(s@),
{
    Token::Text(String::from_str(s))
}

/// Appends literal text to a token list.
pub fn push_text(v: &mut Vec<Token>, s: &str)
    ensures
        pieces(final(v)@) == pieces(old(v)@).push(Piece::Text(s@)),
{
    v.push(text_token(s));
    assert(pieces(v@) =~= pieces(old(v)@).push(Piece::Text(s@)));
}

/// Appends every token of `more` to `v`.
pub fn append_tokens(v: &mut Vec<Token>, more: Vec<Token>)
    ensures
        pieces(final(v)@) == pieces(old(v)@) + pieces(more@),
{
    let mut m = more;
    v.append(&mut m);
    assert(pieces(v@) =~= pieces(old(v)@) + pieces(more@));
}

/// Whether every token is empty literal text.
pub fn tokens_blank(v: &Vec<Token>) -> (r: bool)
    ensures
        r == is_blank(pieces(v@)),
{
    let mut i: usize = 0;
    while i < v.len()
        invariant
            i <= v@.len(),
            forall|j: int| 0 <= j < i ==> #[trigger] pieces(v@)[j] == Piece::Text(Seq::<char>::empty()),
        decreases v@.len() - i,
    {
        match &v[i] {
            Token::Text(s) => {
                if s.as_str().unicode_len() != 0 {
                    assert(pieces(v@)[i as int] != Piece::Text(Seq::<char>::empty()));
                    return false;
                }
                assert(s@ =~= Seq::<char>::empty());
            },
            Token::Ref(_) => {
                return false;
            },
        }
        i += 1;
    }
    true
}

/// The query text of `tokens`, each reference replaced by its alias in
/// `aliases` (or `WTF?` when there is none).
pub fn resolve_tokens(tokens: &Vec<Token>, aliases: &AliasMap) -> (r: String)
    ensures
        r@ == resolve(pieces(tokens@), aliases@),
{
    let mut res = String::new();
    let mut i: usize = 0;
    while i < tokens.len()
        invariant
            i <= tokens@.len(),
            res@ == resolve(pieces(tokens@).take(i as int), aliases@),
        decreases tokens@.len() - i,
    {
        assert(pieces(tokens@).take(i + 1).drop_last() =~= pieces(tokens@).take(i as int));
        match &tokens[i] {
            Token::Text(s) => {
                res.append(s.as_str());
            },
            Token::Ref(id) => {
                match aliases.get(*id) {
                    Some(a) => {
                        res.append(a.as_str());
                    },
                    None => {
                        res.append("WTF?");
                    },
                }
            },
        }
        i += 1;
    }
    assert(pieces(tokens@).take(tokens@.len() as int) =~= pieces(tokens@));
    res
}

} // verus!
