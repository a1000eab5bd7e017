//! The small vocabulary of the query builder: entity kinds, clauses,
//! comparison operators, joiners and sort orders.
use vstd::prelude::*;
use vstd::string::*;
use crate::external::{lower_form, to_lowercase_text};
use crate::text::{string_views, text_eq};

verus! {

/// What a query alias stands for.
#[derive(Clone, Copy, Debug, Hash, PartialEq, Eq, Structural)]
pub enum EntityType {
    Node,
    Relation,
    Unwinder,
    FunctionCall,
    Array,
}

/// The clause a builder is currently writing.
#[derive(Clone, Copy, Debug, PartialEq, Eq, Structural)]
pub enum Clause {
    Create,
    Merge,
    Match,
    Delete,
    Unset,
}

/// Which branch of a MERGE the next SET belongs to.
#[derive(Clone, Copy, Debug, PartialEq, Eq, Structural)]
pub enum OnString {
    Create,
    Match,
    Unset,
}

/// Whether the right-hand side of a comparison is a reference to a property
/// or a parameterised value.
#[derive(Clone, Copy, Debug, PartialEq, Eq, Structural)]
pub enum RefType {
    Ref,
    Val,
}

/// A comparison operator.
#[derive(Clone, Copy, Debug, PartialEq, Eq, Structural)]
pub enum CompOper {
    Eq,
    Gt,
    Ge,
    Lt,
    Le,
    Ne,
    In,
}

impl CompOper {
    /// The Cypher symbol of the operator.
    pub open spec fn symbol(&self) -> Seq<char> {
        match self {
            CompOper::Eq => "="@,
            CompOper::Gt => ">"@,
            CompOper::Ge => ">="@,
            CompOper::Lt => "<"@,
            CompOper::Le => "<="@,
            CompOper::Ne => "<>"@,
            CompOper::In => "IN"@,
        }
    }

    /// The Cypher symbol of the operator (what its `Display` writes).
    pub fn to_string(&self) -> (r: String)
        ensures
            r@ == self.symbol(),
    {
        let s = match self {
            CompOper::Eq => "=",
            CompOper::Gt => ">",
            CompOper::Ge => ">=",
            CompOper::Lt => "<",
            CompOper::Le => "<=",
            CompOper::Ne => "<>",
            CompOper::In => "IN",
        };
        String::from_str(s)
    }
}

/// A boolean connective between conditions.
#[derive(Clone, Copy, Debug, PartialEq, Eq, Structural)]
pub enum CompareJoiner {
    And,
    Or,
    Not,
}

impl CompareJoiner {
    /// The Cypher keyword of the joiner.
    pub open spec fn keyword(&self) -> Seq<char> {
        match self {
            CompareJoiner::And => "AND"@,
            CompareJoiner::Or => "OR"@,
            CompareJoiner::Not => "NOT"@,
        }
    }

    /// The Cypher keyword of the joiner (what its `Display` writes).
    pub fn to_string(&self) -> (r: String)
        ensures
            r@ == self.keyword(),
    {
        let s = match self {
            CompareJoiner::And => "AND",
            CompareJoiner::Or => "OR",
            CompareJoiner::Not => "NOT",
        };
        String::from_str(s)
    }

    /// The joiner a text names, compared after lower-casing: `and`, `or` or
    /// `not`; any other text names none.
    pub open spec fn parsed(s: Seq<char>) -> Option<CompareJoiner> {
        let l = lower_form(s);
        if l == "and"@ {
            Some(CompareJoiner::And)
        } else if l == "or"@ {
            Some(CompareJoiner::Or)
        } else if l == "not"@ {
            Some(CompareJoiner::Not)
        } else {
            Option::None
        }
    }

    /// Reads a joiner from text, ignoring case; `None` for any other text.
    pub fn try_from_str(s: &str) -> (r: Option<CompareJoiner>)
        ensures
            r == Self::parsed(s@),
    {
        let l = to_lowercase_text(s);
        if text_eq(l.as_str(), "and") || text_eq(l.as_str(), "or") || text_eq(l.as_str(), "not") {
            Some(Self::from(s))
        } else {
            Option::None
        }
    }

    /// Reads a joiner from text that names one, ignoring case.
    pub fn from(s: &str) -> (r: CompareJoiner)
        requires
            Self::parsed(s@) is Some,
        ensures
            Some(r) == Self::parsed(s@),
    {
        let l = to_lowercase_text(s);
        if text_eq(l.as_str(), "and") {
            CompareJoiner::And
        } else if text_eq(l.as_str(), "or") {
            CompareJoiner::Or
        } else {
            CompareJoiner::Not
        }
    }
}

/// A sort order for ORDER BY.
#[derive(Clone, Copy, Debug, PartialEq, Eq, Structural)]
pub enum Order {
    Asc,
    Desc,
    Unordered,
}

impl Order {
    /// The Cypher keyword of the order; ascending is the default and writes
    /// nothing.
    pub open spec fn keyword(&self) -> Seq<char> {
        match self {
            Order::Desc => "DESC"@,
            _ => Seq::empty(),
        }
    }

    /// The Cypher keyword of the order (what its `Display` writes).
    pub fn to_string(&self) -> (r: String)
        ensures
            r@ == self.keyword(),
    {
        match self {
            Order::Desc => String::from_str("DESC"),
            _ => String::new(),
        }
    }

    /// The order a text names, compared after lower-casing: `asc`, `desc`,
    /// or the empty text for no order; any other text names none.
    pub open spec fn parsed(s: Seq<char>) -> Option<Order> {
        let l = lower_form(s);
        if l == "asc"@ {
            Some(Order::Asc)
        } else if l == "desc"@ {
            Some(Order::Desc)
        } else if l == Seq::<char>::empty() {
            Some(Order::Unordered)
        } else {
            Option::None
        }
    }

    /// Reads an order from text, ignoring case; `None` for any other text.
    pub fn try_from_str(s: &str) -> (r: Option<Order>)
        ensures
            r == Self::parsed(s@),
    {
        let l = to_lowercase_text(s);
        if text_eq(l.as_str(), "asc") || text_eq(l.as_str(), "desc") || l.as_str().unicode_len() == 0 {
            proof {
                if l@.len() == 0 {
                    assert(l@ =~= Seq::<char>::empty());
                }
            }
            Some(Self::from(s))
        } else {
            Option::None
        }
    }

    /// Reads an order from text that names one, ignoring case.
    pub fn from(s: &str) -> (r: Order)
        requires
            Self::parsed(s@) is Some,
        ensures
            Some(r) == Self::parsed(s@),
    {
        let l = to_lowercase_text(s);
        if text_eq(l.as_str(), "asc") {
            Order::Asc
        } else if text_eq(l.as_str(), "desc") {
            Order::Desc
        } else {
            Order::Unordered
        }
    }
}

/// A property value read back from the database, as far as entities read
/// it: a text, a boolean, an integer, or something else.
#[derive(Debug)]
pub enum DbValue {
    String(String),
    Boolean(bool),
    Integer(i64),
    Other,
}

/// A node read back from the database: its labels and its properties.
#[derive(Debug)]
pub struct DbNode {
    pub labels: Vec<String>,
    pub props: Vec<(String, DbValue)>,
}

/// A relation read back from the database: its type and its properties.
#[derive(Debug)]
pub struct DbRelation {
    pub typ: String,
    pub props: Vec<(String, DbValue)>,
}

/// An entity read back from the database.
#[derive(Debug)]
pub enum DbEntityWrapper {
    Node(DbNode),
    Relation(DbRelation),
}

/// The value of property `key`: the first entry under that key.
pub open spec fn db_lookup(props: Seq<(String, DbValue)>, key: Seq<char>) -> Option<DbValue>
    decreases props.len(),
{
    if props.len() == 0 {
        Option::None
    } else if props[0].0@ == key {
        Some(props[0].1)
    } else {
        db_lookup(props.drop_first(), key)
    }
}

/// Property `key` read as a text: empty unless it holds one.
pub open spec fn db_text(props: Seq<(String, DbValue)>, key: Seq<char>) -> Seq<char> {
    match db_lookup(props, key) {
        Some(DbValue::String(s)) => s@,
        _ => Seq::empty(),
    }
}

/// Property `key` read as a boolean: false unless it holds one.
pub open spec fn db_flag(props: Seq<(String, DbValue)>, key: Seq<char>) -> bool {
    match db_lookup(props, key) {
        Some(DbValue::Boolean(b)) => b,
        _ => false,
    }
}

/// Reads property `key` as a text, empty when it holds none.
pub fn db_get_text(props: &Vec<(String, DbValue)>, key: &str) -> (r: String)
    ensures
        r@ == db_text(props@, key@),
{
    let mut i: usize = 0;
    assert(props@.skip(0) =~= props@);
    while i < props.len()
        invariant
            i <= props@.len(),
            db_lookup(props@, key@) == db_lookup(props@.skip(i as int), key@),
        decreases props@.len() - i,
    {
        assert(props@.skip(i as int).drop_first() =~= props@.skip(i + 1));
        assert(props@.skip(i as int)[0] == props@[i as int]);
        if text_eq(props[i].0.as_str(), key) {
            return match &props[i].1 {
                DbValue::String(s) => s.clone(),
                _ => String::new(),
            };
        }
        i += 1;
    }
    String::new()
}

/// Reads property `key` as a boolean, false when it holds none.
pub fn db_get_flag(props: &Vec<(String, DbValue)>, key: &str) -> (r: bool)
    ensures
        r == db_flag(props@, key@),
{
    let mut i: usize = 0;
    assert(props@.skip(0) =~= props@);
    while i < props.len()
        invariant
            i <= props@.len(),
            db_lookup(props@, key@) == db_lookup(props@.skip(i as int), key@),
        decreases props@.len() - i,
    {
        assert(props@.skip(i as int).drop_first() =~= props@.skip(i + 1));
        assert(props@.skip(i as int)[0] == props@[i as int]);
        if text_eq(props[i].0.as_str(), key) {
            return match &props[i].1 {
                DbValue::Boolean(b) => *b,
                _ => false,
            };
        }
        i += 1;
    }
    false
}

/// Whether `labels` holds `label`.
pub fn has_label(labels: &Vec<String>, label: &str) -> (r: bool)
    ensures
        r == string_views(labels@).contains(label@),
{
    let mut i: usize = 0;
    while i < labels.len()
        invariant
            i <= labels@.len(),
            forall|j: int| 0 <= j < i ==> labels@[j]@ != label@,
        decreases labels@.len() - i,
    {
        if text_eq(labels[i].as_str(), label) {
            assert(string_views(labels@)[i as int] == label@);
            return true;
        }
        i += 1;
    }
    assert forall|j: int| 0 <= j < string_views(labels@).len() implies string_views(labels@)[j] != label@ by {
        assert(string_views(labels@)[j] == labels@[j]@);
    }
    false
}

} // verus!
