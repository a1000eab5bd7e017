//! Cypher function calls (`id`, `coalesce`, `exists`, `size`, `collect`) and
//! the expressions they take.
use vstd::prelude::*;
use vstd::string::*;
use neo4rs::BoltType;
use crate::collections::{Params, Piece, Token, pieces, is_blank, push_text, append_tokens, tokens_blank};
use crate::external::new_id;
use crate::text::{join, join_text, string_views};
use crate::traits::{Aliasable, Paramable};

verus! {

/// The text, entity ids and parameters of an expression or function call.
#[verifier::ext_equal]
pub struct PartsView {
    pub text: Seq<Piece>,
    pub ids: Seq<u128>,
    pub params: Map<Seq<char>, BoltType>,
}

/// References to the given entities, separated by `, `.
pub open spec fn ref_list(ids: Seq<u128>) -> Seq<Piece>
    decreases ids.len(),
{
    if ids.len() == 0 {
        Seq::empty()
    } else if ids.len() == 1 {
        seq![Piece::Ref(ids[0])]
    } else {
        ref_list(ids.drop_last()) + seq![Piece::Text(", "@), Piece::Ref(ids.last())]
    }
}

/// The argument text of a function: the expression's own text, or, when it
/// is empty and the expression names entities, references to them.
pub open spec fn arg_pieces(text: Seq<Piece>, ids: Seq<u128>) -> Seq<Piece> {
    if is_blank(text) && ids.len() > 0 {
        ref_list(ids)
    } else {
        text
    }
}

/// The body of an expression.
#[derive(Debug)]
pub enum InnerExpr {
    Raw(String),
    Func(Function),
}

/// An expression a function can take.
#[derive(Debug)]
pub struct Expr {
    expr: InnerExpr,
    uuids: Vec<u128>,
    params: Params,
}

/// A Cypher function applied to expressions.
#[derive(Debug)]
pub enum Function {
    Id(Box<Expr>),
    Coalesce(Vec<Expr>),
    Exists(Box<Expr>),
    Size(Box<Expr>),
    Collect(Box<Expr>),
}

/// The parts of an expression.
pub closed spec fn expr_view(e: Expr) -> PartsView
    decreases e,
{
    match e.expr {
        InnerExpr::Raw(s) => PartsView { text: seq![Piece::Text(s@)], ids: e.uuids@, params: e.params@ },
        InnerExpr::Func(f) => function_view(f),
    }
}

/// A call of the named function on one expression.
pub open spec fn unary_call(name: Seq<char>, arg: PartsView) -> PartsView {
    PartsView {
        text: seq![Piece::Text(name + "("@)] + arg_pieces(arg.text, arg.ids) + seq![Piece::Text(")"@)],
        ids: arg.ids,
        params: arg.params,
    }
}

/// The comma-separated arguments of `coalesce`.
pub open spec fn coalesce_args(es: Seq<Expr>) -> PartsView
    decreases es,
{
    if es.len() == 0 {
        PartsView { text: Seq::empty(), ids: Seq::empty(), params: Map::empty() }
    } else {
        let prev = coalesce_args(es.drop_last());
        let e = expr_view(es.last());
        let a = arg_pieces(e.text, e.ids);
        PartsView {
            text: if es.len() == 1 { a } else { prev.text + seq![Piece::Text(", "@)] + a },
            ids: prev.ids + e.ids,
            params: prev.params.union_prefer_right(e.params),
        }
    }
}

/// The parts of a function call.
pub open spec fn function_view(f: Function) -> PartsView
    decreases f,
{
    match f {
        Function::Id(e) => unary_call("id"@, expr_view(*e)),
        Function::Coalesce(es) => {
            let a = coalesce_args(es@);
            PartsView {
                text: seq![Piece::Text("coalesce"@ + "("@)] + a.text + seq![Piece::Text(")"@)],
                ids: a.ids,
                params: a.params,
            }
        },
        Function::Exists(e) => unary_call("exists"@, expr_view(*e)),
        Function::Size(e) => unary_call("size"@, expr_view(*e)),
        Function::Collect(e) => unary_call("collect"@, expr_view(*e)),
    }
}

/// References to the given ids separated by `, `, as tokens.
fn ref_tokens(ids: &Vec<u128>) -> (r: Vec<Token>)
    ensures
        pieces(r@) == ref_list(ids@),
{
    let mut r: Vec<Token> = Vec::new();
    let mut i: usize = 0;
    while i < ids.len()
        invariant
            i <= ids@.len(),
            pieces(r@) == ref_list(ids@.take(i as int)),
        decreases ids@.len() - i,
    {
        assert(ids@.take(i + 1).drop_last() =~= ids@.take(i as int));
        let ghost before = pieces(r@);
        if i > 0 {
            push_text(&mut r, ", ");
        }
        let ghost mid = r@;
        r.push(Token::Ref(ids[i]));
        assert(pieces(r@) =~= pieces(mid).push(Piece::Ref(ids@[i as int])));
        if i > 0 {
            assert(pieces(r@) =~= before + seq![Piece::Text(", "@), Piece::Ref(ids@[i as int])]);
        } else {
            assert(pieces(r@) =~= seq![Piece::Ref(ids@[i as int])]);
        }
        i += 1;
    }
    assert(ids@.take(ids@.len() as int) =~= ids@);
    r
}

/// The argument tokens of a function on an expression with the given parts.
fn arg_tokens(q: Vec<Token>, ids: &Vec<u128>) -> (r: Vec<Token>)
    ensures
        pieces(r@) == arg_pieces(pieces(q@), ids@),
{
    if tokens_blank(&q) && ids.len() > 0 {
        ref_tokens(ids)
    } else {
        q
    }
}

/// Wraps argument tokens in a call of the named function.
fn call_tokens(name: &str, arg: Vec<Token>) -> (r: Vec<Token>)
    ensures
        pieces(r@) == seq![Piece::Text(name@ + "("@)] + pieces(arg@) + seq![Piece::Text(")"@)],
{
    let mut r: Vec<Token> = Vec::new();
    let mut open = String::from_str(name);
    open.append("(");
    push_text(&mut r, open.as_str());
    append_tokens(&mut r, arg);
    push_text(&mut r, ")");
    assert(pieces(r@) =~= seq![Piece::Text(name@ + "("@)] + pieces(arg@) + seq![Piece::Text(")"@)]);
    r
}

impl Expr {
    fn new(expr: InnerExpr, uuids: Vec<u128>, params: Params) -> (r: Self)
        ensures
            r.expr == expr,
            r.uuids@ == uuids@,
            r.params@ == params@,
    {
        Expr { expr, uuids, params }
    }

    /// The parts of this expression.
    pub open spec fn parts(self) -> PartsView {
        expr_view(self)
    }

    fn to_query_uuid_param(&self) -> (r: (Vec<Token>, Vec<u128>, Params))
        ensures
            pieces(r.0@) == expr_view(*self).text,
            r.1@ == expr_view(*self).ids,
            r.2@ == expr_view(*self).params,
        decreases *self, 0nat,
    {
        match &self.expr {
            InnerExpr::Raw(s) => {
                let mut t: Vec<Token> = Vec::new();
                push_text(&mut t, s.as_str());
                assert(pieces(t@) =~= seq![Piece::Text(s@)]);
                (t, self.uuids.clone(), self.params.clone())
            },
            InnerExpr::Func(func) => func.function_parts(),
        }
    }

    /// The aliases of the given aliasables, separated by `, ` and, when
    /// `as_array` holds, enclosed in brackets; the expression names their ids.
    pub fn from_aliasable_slice<A: Aliasable>(slice: &[&A], as_array: bool) -> (r: Self)
        ensures
            ({
                let aliases = join(slice@.map_values(|a: &A| a.alias_spec()), ", "@);
                expr_view(r) == (PartsView {
                    text: seq![Piece::Text(if as_array { "["@ + aliases + "]"@ } else { aliases })],
                    ids: slice@.map_values(|a: &A| a.uuid_spec()),
                    params: Map::empty(),
                })
            }),
    {
        let mut aliases: Vec<String> = Vec::new();
        let mut uuids: Vec<u128> = Vec::new();
        let mut i: usize = 0;
        while i < slice.len()
            invariant
                i <= slice@.len(),
                string_views(aliases@) == slice@.take(i as int).map_values(|a: &A| a.alias_spec()),
                uuids@ == slice@.take(i as int).map_values(|a: &A| a.uuid_spec()),
            decreases slice@.len() - i,
        {
            let ghost sv = string_views(aliases@);
            let a = slice[i].get_alias();
            aliases.push(a);
            assert(string_views(aliases@) =~= sv.push(a@));
            assert(slice@.take(i + 1) =~= slice@.take(i as int).push(slice@[i as int]));
            uuids.push(slice[i].get_uuid());
            assert(string_views(aliases@) =~= slice@.take(i + 1).map_values(|a: &A| a.alias_spec()));
            assert(uuids@ =~= slice@.take(i + 1).map_values(|a: &A| a.uuid_spec()));
            i += 1;
        }
        assert(slice@.take(slice@.len() as int) =~= slice@);
        let joined = join_text(&aliases, ", ");
        let raw = if as_array {
            let mut r = String::from_str("[");
            r.append(joined.as_str());
            r.append("]");
            r
        } else {
            joined
        };
        let r = Expr::new(InnerExpr::Raw(raw), uuids, Params::new());
        assert(expr_view(r) =~= PartsView {
            text: seq![Piece::Text(raw@)],
            ids: uuids@,
            params: Map::empty(),
        });
        r
    }

    /// The expression of a function call.
    pub fn from_function(func: Function) -> (r: Self)
        ensures
            expr_view(r) == function_view(func),
    {
        Expr::new(InnerExpr::Func(func), Vec::new(), Params::new())
    }

    /// The expression that names one aliasable: empty text and its id, so a
    /// function on it refers to it by alias.
    pub fn from_aliasable<A: Aliasable>(aliasable: &A) -> (r: Self)
        ensures
            expr_view(r) == (PartsView {
                text: seq![Piece::Text(Seq::empty())],
                ids: seq![aliasable.uuid_spec()],
                params: Map::empty(),
            }),
    {
        let r = Expr { expr: InnerExpr::Raw(String::new()), uuids: vec![aliasable.get_uuid()], params: Params::new() };
        assert(expr_view(r) =~= PartsView {
            text: seq![Piece::Text(Seq::empty())],
            ids: seq![aliasable.uuid_spec()],
            params: Map::empty(),
        });
        r
    }

    /// The expression that names several aliasables by id.
    pub fn from_aliasable_refs<A: Aliasable>(a_slice: &[&A]) -> (r: Self)
        ensures
            expr_view(r) == (PartsView {
                text: seq![Piece::Text(Seq::empty())],
                ids: a_slice@.map_values(|a: &A| a.uuid_spec()),
                params: Map::empty(),
            }),
    {
        let mut uuids: Vec<u128> = Vec::new();
        let mut i: usize = 0;
        while i < a_slice.len()
            invariant
                i <= a_slice@.len(),
                uuids@ == a_slice@.take(i as int).map_values(|a: &A| a.uuid_spec()),
            decreases a_slice@.len() - i,
        {
            uuids.push(a_slice[i].get_uuid());
            assert(uuids@ =~= a_slice@.take(i + 1).map_values(|a: &A| a.uuid_spec()));
            i += 1;
        }
        assert(a_slice@.take(a_slice@.len() as int) =~= a_slice@);
        let r = Expr { expr: InnerExpr::Raw(String::new()), uuids, params: Params::new() };
        assert(expr_view(r) =~= PartsView {
            text: seq![Piece::Text(Seq::empty())],
            ids: a_slice@.map_values(|a: &A| a.uuid_spec()),
            params: Map::empty(),
        });
        r
    }
}

impl Function {
    fn unary_parts(name: &str, e: &Expr) -> (r: (Vec<Token>, Vec<u128>, Params))
        ensures
            pieces(r.0@) == unary_call(name@, expr_view(*e)).text,
            r.1@ == expr_view(*e).ids,
            r.2@ == expr_view(*e).params,
        decreases *e, 1nat,
    {
        let (query, uuids, params) = e.to_query_uuid_param();
        let arg = arg_tokens(query, &uuids);
        (call_tokens(name, arg), uuids, params)
    }

    fn coalesce_parts(exprs: &Vec<Expr>) -> (r: (Vec<Token>, Vec<u128>, Params))
        ensures
            pieces(r.0@) == coalesce_args(exprs@).text,
            r.1@ == coalesce_args(exprs@).ids,
            r.2@ == coalesce_args(exprs@).params,
        decreases *exprs, 1nat,
    {
        let mut params = Params::new();
        let mut uuids: Vec<u128> = Vec::new();
        let mut query: Vec<Token> = Vec::new();
        let mut i: usize = 0;
        while i < exprs.len()
            invariant
                i <= exprs@.len(),
                pieces(query@) == coalesce_args(exprs@.take(i as int)).text,
                uuids@ == coalesce_args(exprs@.take(i as int)).ids,
                params@ == coalesce_args(exprs@.take(i as int)).params,
            decreases exprs@.len() - i,
        {
            assert(exprs@.take(i + 1).drop_last() =~= exprs@.take(i as int));
            proof {
                assert(decreases_to!(*exprs => exprs@));
                assert(decreases_to!(exprs@ => exprs@[i as int]));
            }
            let (q, u, p) = exprs[i].to_query_uuid_param();
            let arg = arg_tokens(q, &u);
            let ghost before = pieces(query@);
            if i > 0 {
                push_text(&mut query, ", ");
            }
            append_tokens(&mut query, arg);
            let mut u2 = u;
            uuids.append(&mut u2);
            params.extend(p);
            i += 1;
        }
        assert(exprs@.take(exprs@.len() as int) =~= exprs@);
        (query, uuids, params)
    }

    fn function_parts(&self) -> (r: (Vec<Token>, Vec<u128>, Params))
        ensures
            pieces(r.0@) == function_view(*self).text,
            r.1@ == function_view(*self).ids,
            r.2@ == function_view(*self).params,
        decreases *self, 0nat,
    {
        match self {
            Function::Id(expr) => {
                let r = Self::unary_parts("id", expr);
                assert(pieces(r.0@) == unary_call("id"@, expr_view(**expr)).text);
                assert(function_view(*self) == unary_call("id"@, expr_view(**expr)));
                r
            },
            Function::Coalesce(exprs) => {
                let (query, uuids, params) = Self::coalesce_parts(exprs);
                let r = call_tokens("coalesce", query);
                assert(pieces(r@) =~= function_view(*self).text);
                (r, uuids, params)
            },
            Function::Exists(expr) => {
                let r = Self::unary_parts("exists", expr);
                assert(function_view(*self) == unary_call("exists"@, expr_view(**expr)));
                r
            },
            Function::Size(expr) => {
                let r = Self::unary_parts("size", expr);
                assert(function_view(*self) == unary_call("size"@, expr_view(**expr)));
                r
            },
            Function::Collect(expr) => {
                let r = Self::unary_parts("collect", expr);
                assert(function_view(*self) == unary_call("collect"@, expr_view(**expr)));
                r
            },
        }
    }
}

impl Paramable for Function {
    open spec fn text_spec(&self) -> Seq<Piece> {
        function_view(*self).text
    }

    open spec fn ids_spec(&self) -> Seq<u128> {
        function_view(*self).ids
    }

    open spec fn params_spec(&self) -> Map<Seq<char>, BoltType> {
        function_view(*self).params
    }

    fn to_query_uuid_param(&self) -> (r: (Vec<Token>, Vec<u128>, Params)) {
        self.function_parts()
    }
}

/// A function call that a WITH clause can give an alias.
#[derive(Debug)]
pub struct FunctionCall {
    alias: String,
    uuid: u128,
    function: Function,
}

impl FunctionCall {
    /// The call's function.
    pub closed spec fn function_spec(&self) -> Function {
        self.function
    }

    /// A call of `function` with no alias yet and a fresh random id.
    pub fn from_function(function: Function) -> (r: Self)
        ensures
            r.alias_spec() == Seq::<char>::empty(),
            r.function_spec() == function,
    {
        FunctionCall { alias: String::new(), uuid: new_id(), function }
    }

    /// The parts of the call's function.
    pub(crate) fn function_parts(&self) -> (r: (Vec<Token>, Vec<u128>, Params))
        ensures
            pieces(r.0@) == function_view(self.function_spec()).text,
            r.1@ == function_view(self.function_spec()).ids,
            r.2@ == function_view(self.function_spec()).params,
    {
        self.function.function_parts()
    }
}

impl Paramable for FunctionCall {
    closed spec fn text_spec(&self) -> Seq<Piece> {
        function_view(self.function).text
    }

    closed spec fn ids_spec(&self) -> Seq<u128> {
        function_view(self.function).ids
    }

    closed spec fn params_spec(&self) -> Map<Seq<char>, BoltType> {
        function_view(self.function).params
    }

    fn to_query_uuid_param(&self) -> (r: (Vec<Token>, Vec<u128>, Params)) {
        self.function.function_parts()
    }
}

impl Aliasable for FunctionCall {
    closed spec fn alias_spec(&self) -> Seq<char> {
        self.alias@
    }

    closed spec fn uuid_spec(&self) -> u128 {
        self.uuid
    }

    open spec fn alias_after(&self, alias: Seq<char>) -> Seq<char> {
        alias
    }

    closed spec fn same_but_alias(&self, other: &Self) -> bool {
        &&& self.uuid == other.uuid
        &&& self.function == other.function
    }

    fn get_alias(&self) -> (r: String) {
        self.alias.clone()
    }

    fn set_alias(&mut self, alias: &str) {
        self.alias = String::from_str(alias);
    }

    fn get_uuid(&self) -> (r: u128) {
        self.uuid
    }
}

/// Something that can be written as an expression.
pub trait ToExpr {
    fn to_expr(&self) -> Expr;
}

} // verus!
