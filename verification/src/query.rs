//! Parameterised queries. A query is a sequence of pieces, each either a
//! fixed stretch of SQL or a value bound to the next numbered placeholder.
//! Caller-supplied values only ever enter as bound values.

use vstd::prelude::*;
use vstd::string::*;

use crate::primitives::Uuid;
use crate::structs::{GrievanceCategory, GrievancePriority, GrievanceStatus, UserRole, UserStatus};
use crate::text::{decimal_nat, push_decimal_nat};

verus! {

/// A value bound to a placeholder.
#[derive(Clone, Debug, PartialEq, Eq)]
pub enum SqlValue {
    Text(String),
    Int(i64),
    Id(Uuid),
    Role(UserRole),
    AccountStatus(UserStatus),
    Status(GrievanceStatus),
    Category(GrievanceCategory),
    Priority(GrievancePriority),
}

/// What a bound value stands for.
pub enum SqlArg {
    Text(Seq<char>),
    Int(int),
    Id(Uuid),
    Role(UserRole),
    AccountStatus(UserStatus),
    Status(GrievanceStatus),
    Category(GrievanceCategory),
    Priority(GrievancePriority),
}

impl View for SqlValue {
    type V = SqlArg;

    open spec fn view(&self) -> SqlArg {
        match *self {
            SqlValue::Text(s) => SqlArg::Text(s@),
            SqlValue::Int(n) => SqlArg::Int(n as int),
            SqlValue::Id(id) => SqlArg::Id(id),
            SqlValue::Role(r) => SqlArg::Role(r),
            SqlValue::AccountStatus(s) => SqlArg::AccountStatus(s),
            SqlValue::Status(s) => SqlArg::Status(s),
            SqlValue::Category(c) => SqlArg::Category(c),
            SqlValue::Priority(p) => SqlArg::Priority(p),
        }
    }
}

/// What an optional bound value stands for.
pub open spec fn arg_of(value: Option<SqlValue>) -> Option<SqlArg> {
    match value {
        Some(v) => Some(v@),
        None => None,
    }
}

/// One piece of a query.
pub enum Piece {
    /// A fixed stretch of SQL.
    Sql(Seq<char>),
    /// A value, written into the text as the next placeholder.
    Bind(SqlArg),
}

/// The values bound by `pieces`, in order.
pub open spec fn binds(pieces: Seq<Piece>) -> Seq<SqlArg>
    decreases pieces.len(),
{
    if pieces.len() == 0 {
        Seq::empty()
    } else {
        match pieces.last() {
            Piece::Sql(_) => binds(pieces.drop_last()),
            Piece::Bind(arg) => binds(pieces.drop_last()).push(arg),
        }
    }
}

/// The text of `pieces`: the SQL as it stands, and `$k` for the `k`-th bound
/// value, counting from 1.
pub open spec fn render(pieces: Seq<Piece>) -> Seq<char>
    decreases pieces.len(),
{
    if pieces.len() == 0 {
        Seq::empty()
    } else {
        match pieces.last() {
            Piece::Sql(sql) => render(pieces.drop_last()) + sql,
            Piece::Bind(_) => render(pieces.drop_last()) + seq!['$'] + decimal_nat(
                binds(pieces.drop_last()).len() + 1,
            ),
        }
    }
}

/// A condition that is only there when its value is: the SQL `sql` followed
/// by the bound value, or nothing.
pub open spec fn clause(sql: Seq<char>, arg: Option<SqlArg>) -> Seq<Piece> {
    match arg {
        Some(a) => seq![Piece::Sql(sql), Piece::Bind(a)],
        None => Seq::empty(),
    }
}

/// The pattern that matches every text holding `search` somewhere: `search`
/// between two `%`.
pub open spec fn search_pattern(search: Seq<char>) -> Seq<char> {
    seq!['%'] + search + seq!['%']
}

/// A substring search over several columns: `opening`, then for each column
/// the bound pattern and the SQL that follows it. `tails` holds that SQL, one
/// stretch per column. Nothing where no search is asked for.
pub open spec fn search_clause(
    opening: Seq<char>,
    tails: Seq<Seq<char>>,
    search: Option<String>,
) -> Seq<Piece> {
    match search {
        Some(s) => seq![Piece::Sql(opening)] + search_columns(tails, s@),
        None => Seq::empty(),
    }
}

/// For each of `tails`, the bound pattern for `search` and then the tail.
pub open spec fn search_columns(tails: Seq<Seq<char>>, search: Seq<char>) -> Seq<Piece>
    decreases tails.len(),
{
    if tails.len() == 0 {
        Seq::empty()
    } else {
        search_columns(tails.drop_last(), search) + seq![
            Piece::Bind(SqlArg::Text(search_pattern(search))),
            Piece::Sql(tails.last()),
        ]
    }
}

/// The end of a paged query: `ordering`, which must end in `LIMIT `, the
/// bound page size, ` OFFSET ` and the bound offset.
pub open spec fn window(ordering: Seq<char>, limit: int, offset: int) -> Seq<Piece> {
    seq![
        Piece::Sql(ordering),
        Piece::Bind(SqlArg::Int(limit)),
        Piece::Sql(" OFFSET "@),
        Piece::Bind(SqlArg::Int(offset)),
    ]
}

/// What of `pieces` is fixed before any value is known: each stretch of SQL
/// as it stands, and for each bound value only that one is bound there.
pub open spec fn shape(pieces: Seq<Piece>) -> Seq<Option<Seq<char>>> {
    pieces.map_values(
        |p: Piece|
            match p {
                Piece::Sql(sql) => Some(sql),
                Piece::Bind(_) => None,
            },
    )
}

/// The text of a query is settled by its shape: no bound value has any part
/// in it, and there are as many values as placeholders.
pub proof fn text_ignores_values(a: Seq<Piece>, b: Seq<Piece>)
    requires
        shape(a) == shape(b),
    ensures
        render(a) == render(b),
        binds(a).len() == binds(b).len(),
    decreases a.len(),
{
    assert(a.len() == shape(a).len());
    assert(b.len() == shape(b).len());
    if a.len() > 0 {
        assert(shape(a.drop_last()) =~= shape(a).drop_last());
        assert(shape(b.drop_last()) =~= shape(b).drop_last());
        text_ignores_values(a.drop_last(), b.drop_last());
        assert(shape(a).last() == shape(b).last());
    }
}

/// The shape of pieces put one behind the other is the shapes put one behind
/// the other.
pub proof fn shape_of_joined(a: Seq<Piece>, b: Seq<Piece>)
    ensures
        shape(a + b) == shape(a) + shape(b),
{
    assert(shape(a + b) =~= shape(a) + shape(b));
}

/// Pieces of the same shape put behind pieces of the same shape give pieces
/// of the same shape.
pub proof fn shape_of_both_joined(a: Seq<Piece>, x: Seq<Piece>, b: Seq<Piece>, y: Seq<Piece>)
    requires
        shape(a) == shape(b),
        shape(x) == shape(y),
    ensures
        shape(a + x) == shape(b + y),
{
    shape_of_joined(a, x);
    shape_of_joined(b, y);
}

/// The shape of a condition depends on whether its value is there, not on
/// the value.
pub proof fn shape_of_clause(sql: Seq<char>, a: Option<SqlArg>, b: Option<SqlArg>)
    requires
        a is Some == b is Some,
    ensures
        shape(clause(sql, a)) == shape(clause(sql, b)),
{
    assert(shape(clause(sql, a)) =~= shape(clause(sql, b)));
}

/// The shape of a search depends on whether one is asked for, not on what
/// is searched.
pub proof fn shape_of_search(
    opening: Seq<char>,
    tails: Seq<Seq<char>>,
    a: Option<String>,
    b: Option<String>,
)
    requires
        a is Some == b is Some,
    ensures
        shape(search_clause(opening, tails, a)) == shape(search_clause(opening, tails, b)),
{
    if a is Some {
        shape_of_columns(tails, a->0@, b->0@);
        shape_of_joined(seq![Piece::Sql(opening)], search_columns(tails, a->0@));
        shape_of_joined(seq![Piece::Sql(opening)], search_columns(tails, b->0@));
    }
}

proof fn shape_of_columns(tails: Seq<Seq<char>>, a: Seq<char>, b: Seq<char>)
    ensures
        shape(search_columns(tails, a)) == shape(search_columns(tails, b)),
    decreases tails.len(),
{
    if tails.len() > 0 {
        shape_of_columns(tails.drop_last(), a, b);
        let enda = seq![Piece::Bind(SqlArg::Text(search_pattern(a))), Piece::Sql(tails.last())];
        let endb = seq![Piece::Bind(SqlArg::Text(search_pattern(b))), Piece::Sql(tails.last())];
        shape_of_joined(search_columns(tails.drop_last(), a), enda);
        shape_of_joined(search_columns(tails.drop_last(), b), endb);
        assert(shape(enda) =~= shape(endb));
    }
}

/// The shape of the end of a paged query is the same for every page.
pub proof fn shape_of_window(ordering: Seq<char>, l1: int, o1: int, l2: int, o2: int)
    ensures
        shape(window(ordering, l1, o1)) == shape(window(ordering, l2, o2)),
{
    assert(shape(window(ordering, l1, o1)) =~= shape(window(ordering, l2, o2)));
}

/// A query ready to run: its text and the values for its placeholders.
#[derive(Clone, Debug, PartialEq, Eq)]
pub struct SqlQuery {
    pub text: String,
    pub params: Vec<SqlValue>,
}

impl SqlQuery {
    /// What the bound values stand for, in order.
    pub open spec fn args(&self) -> Seq<SqlArg> {
        self.params@.map_values(|v: SqlValue| v@)
    }

    /// Whether the query is the one that `pieces` spell.
    pub open spec fn spells(&self, pieces: Seq<Piece>) -> bool {
        &&& self.text@ == render(pieces)
        &&& self.args() == binds(pieces)
    }
}

/// Builds a query piece by piece. At every moment the text and the values
/// are those that the pieces pushed so far spell.
pub struct QueryBuilder {
    text: String,
    params: Vec<SqlValue>,
    pieces: Ghost<Seq<Piece>>,
}

impl QueryBuilder {
    #[verifier::type_invariant]
    spec fn agrees(&self) -> bool {
        &&& self.text@ == render(self.pieces@)
        &&& self.params@.map_values(|v: SqlValue| v@) == binds(self.pieces@)
    }

    /// The pieces pushed so far.
    pub closed spec fn pieces(&self) -> Seq<Piece> {
        self.pieces@
    }

    /// Starts a query with the SQL `sql`.
    pub fn new(sql: &str) -> (b: QueryBuilder)
        ensures
            b.pieces() == seq![Piece::Sql(sql@)],
    {
        let ghost first = seq![Piece::Sql(sql@)];
        let text = String::from_str(sql);
        let params: Vec<SqlValue> = Vec::new();
        proof {
            assert(first.drop_last() == Seq::<Piece>::empty());
            assert(render(first.drop_last()) == Seq::<char>::empty());
            assert(binds(first.drop_last()) == Seq::<SqlArg>::empty());
            assert(render(first) == Seq::<char>::empty() + sql@);
            assert(params@.map_values(|v: SqlValue| v@) == Seq::<SqlArg>::empty());
        }
        QueryBuilder { text, params, pieces: Ghost(first) }
    }

    /// Takes the builder apart, leaving an empty one in its place.
    fn take(&mut self) -> (taken: (String, Vec<SqlValue>, Ghost<Seq<Piece>>))
        ensures
            taken.2@ == old(self).pieces(),
            taken.0@ == render(taken.2@),
            taken.1@.map_values(|v: SqlValue| v@) == binds(taken.2@),
    {
        proof {
            use_type_invariant(&*self);
        }
        let ghost none = Seq::<Piece>::empty();
        let params: Vec<SqlValue> = Vec::new();
        assert(params@.map_values(|v: SqlValue| v@) == Seq::<SqlArg>::empty());
        let mut other = QueryBuilder { text: String::new(), params, pieces: Ghost(none) };
        std::mem::swap(self, &mut other);
        let QueryBuilder { text, params, pieces } = other;
        (text, params, pieces)
    }

    /// Appends the SQL `sql`.
    pub fn push_sql(&mut self, sql: &str)
        ensures
            final(self).pieces() == old(self).pieces().push(Piece::Sql(sql@)),
    {
        let (mut text, params, pieces) = self.take();
        text.append(sql);
        let ghost next = pieces@.push(Piece::Sql(sql@));
        assert(next.drop_last() =~= pieces@);
        *self = QueryBuilder { text, params, pieces: Ghost(next) };
    }

    /// Binds `value` to the next placeholder and appends the placeholder.
    pub fn push_bind(&mut self, value: SqlValue)
        ensures
            final(self).pieces() == old(self).pieces().push(Piece::Bind(value@)),
    {
        let (mut text, mut params, pieces) = self.take();
        let ghost text_before = text@;
        let ghost args_before = params@.map_values(|v: SqlValue| v@);
        let index: u128 = params.len() as u128;
        text.push('$');
        push_decimal_nat(&mut text, index + 1);
        params.push(value);
        let ghost next = pieces@.push(Piece::Bind(value@));
        proof {
            assert(next.drop_last() =~= pieces@);
            assert(params@.map_values(|v: SqlValue| v@) =~= args_before.push(value@));
            assert(text_before.push('$') + decimal_nat((index + 1) as nat) =~= text_before
                + seq!['$'] + decimal_nat((index + 1) as nat));
        }
        *self = QueryBuilder { text, params, pieces: Ghost(next) };
    }

    /// Appends `sql` and binds `value` behind it, if there is a value;
    /// otherwise appends nothing.
    pub fn push_clause(&mut self, sql: &str, value: Option<SqlValue>)
        ensures
            final(self).pieces() == old(self).pieces() + clause(sql@, arg_of(value)),
    {
        match value {
            Some(v) => {
                self.push_sql(sql);
                self.push_bind(v);
                assert(old(self).pieces().push(Piece::Sql(sql@)).push(Piece::Bind(v@)) == old(
                    self,
                ).pieces() + seq![Piece::Sql(sql@), Piece::Bind(v@)]);
            },
            None => {
                assert(old(self).pieces() + Seq::<Piece>::empty() == old(self).pieces());
            },
        }
    }

    /// Appends a substring search over one column per tail, if a search is
    /// asked for: `opening`, and for each tail the pattern and the tail.
    pub fn push_search(&mut self, opening: &str, tails: &Vec<&str>, search: &Option<String>)
        ensures
            final(self).pieces() == old(self).pieces() + search_clause(
                opening@,
                tails@.map_values(|t: &str| t@),
                *search,
            ),
    {
        match search {
            Some(s) => {
                let pattern = like_pattern(s.as_str());
                let ghost all = tails@.map_values(|t: &str| t@);
                self.push_sql(opening);
                let ghost start = self.pieces();
                let mut i: usize = 0;
                assert(all.take(0) =~= Seq::<Seq<char>>::empty());
                assert(start + search_columns(all.take(0), s@) =~= start);
                while i < tails.len()
                    invariant
                        i <= tails.len(),
                        all == tails@.map_values(|t: &str| t@),
                        pattern@ == search_pattern(s@),
                        self.pieces() == start + search_columns(all.take(i as int), s@),
                    decreases tails.len() - i,
                {
                    let ghost before = self.pieces();
                    self.push_bind(SqlValue::Text(pattern.clone()));
                    self.push_sql(tails[i]);
                    proof {
                        let head = all.take(i + 1);
                        assert(head.drop_last() =~= all.take(i as int));
                        assert(head.last() == tails@[i as int]@);
                        assert(self.pieces() =~= start + search_columns(head, s@));
                    }
                    i = i + 1;
                }
                assert(all.take(tails.len() as int) =~= all);
                assert(self.pieces() =~= old(self).pieces() + search_clause(
                    opening@,
                    all,
                    *search,
                ));
            },
            None => {
                assert(self.pieces() =~= old(self).pieces() + Seq::<Piece>::empty());
            },
        }
    }

    /// Appends the end of a paged query: `ordering`, the page size, the
    /// offset.
    pub fn push_window(&mut self, ordering: &str, limit: i64, offset: i64)
        ensures
            final(self).pieces() == old(self).pieces() + window(
                ordering@,
                limit as int,
                offset as int,
            ),
    {
        self.push_sql(ordering);
        self.push_bind(SqlValue::Int(limit));
        self.push_sql(" OFFSET ");
        self.push_bind(SqlValue::Int(offset));
        assert(self.pieces() =~= old(self).pieces() + window(
            ordering@,
            limit as int,
            offset as int,
        ));
    }

    /// The finished query.
    pub fn finish(self) -> (q: SqlQuery)
        ensures
            q.spells(self.pieces()),
    {
        proof {
            use_type_invariant(&self);
        }
        SqlQuery { text: self.text, params: self.params }
    }
}

/// The pattern for a substring search for `search`.
pub fn like_pattern(search: &str) -> (pattern: String)
    ensures
        pattern@ == search_pattern(search@),
{
    let mut pattern = String::new();
    pattern.push('%');
    pattern.append(search);
    pattern.push('%');
    assert(pattern@ =~= search_pattern(search@));
    pattern
}

/// Which stretch of a list is asked for.
#[derive(Clone, Copy, Debug, PartialEq, Eq, Structural)]
pub struct Pagination {
    /// The page, counted from 1.
    pub page: i64,
    /// How many rows a page holds.
    pub limit: i64,
    /// How many rows come before the page.
    pub offset: i64,
}

/// The page asked for: 1 where none is named, and never less than 1.
pub open spec fn page_number(page: Option<i64>) -> int {
    match page {
        Some(p) => if p < 1 { 1 } else { p as int },
        None => 1,
    }
}

/// The page size asked for: `default_size` where none is named, and in any
/// case held between 1 and `largest`.
pub open spec fn page_size(limit: Option<i64>, default_size: int, largest: int) -> int {
    let asked = match limit {
        Some(l) => l as int,
        None => default_size,
    };
    if asked < 1 {
        1
    } else if asked > largest {
        largest
    } else {
        asked
    }
}

/// The rows before page `page` of size `size`; where that number does not fit
/// in 64 bits, the largest that does, which lies beyond any table.
pub open spec fn page_offset(page: int, size: int) -> int {
    if (page - 1) * size > i64::MAX {
        i64::MAX as int
    } else {
        (page - 1) * size
    }
}

/// Settles page, page size and offset from what the request names.
pub fn paginate(page: Option<i64>, limit: Option<i64>, default_size: i64, largest: i64) -> (p:
    Pagination)
    requires
        1 <= largest,
    ensures
        p.page == page_number(page),
        p.limit == page_size(limit, default_size as int, largest as int),
        p.offset == page_offset(p.page as int, p.limit as int),
{
    let page: i64 = match page {
        Some(p) => if p < 1 { 1 } else { p },
        None => 1,
    };
    let asked: i64 = match limit {
        Some(l) => l,
        None => default_size,
    };
    let limit: i64 = if asked < 1 {
        1
    } else if asked > largest {
        largest
    } else {
        asked
    };
    let offset: i64 = match (page - 1).checked_mul(limit) {
        Some(o) => o,
        None => {
            assert((page - 1) * limit >= 0) by (nonlinear_arith)
                requires
                    page - 1 >= 0,
                    limit >= 1,
            ;
            i64::MAX
        },
    };
    Pagination { page, limit, offset }
}

} // verus!
