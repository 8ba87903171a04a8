//! The query builders: databases, tables, documents, indexes and arithmetic.
use crate::datum::{lemma_view_items, view_items, Datum, Value};
use crate::term::{term_value, FuncType, Term, TermModel};
use core::marker::PhantomData;
use vstd::prelude::*;

verus! {

/// The shape of result that a query decodes to.
#[derive(Clone, Copy, Debug, PartialEq, Eq, Structural)]
pub enum ResultShape {
    /// Nothing: the payload is discarded.
    Nothing,
    /// The raw payload.
    Value,
    /// A list of names.
    Strings,
    /// A summary of writes.
    Writes,
    /// A cursor over documents.
    Documents,
}

/// A term that can be run, with the shape of result it decodes to.
#[derive(Debug)]
pub struct Query {
    term: Term,
    shape: ResultShape,
}

/// The mathematical value of a `Query`.
pub struct QueryModel {
    pub term: TermModel,
    pub shape: ResultShape,
}

/// A term with no previous term.
pub open spec fn root(op: FuncType, args: Seq<Value>) -> TermModel {
    TermModel { op: op.spec_code(), previous: None, args, named: None }
}

/// A term chained from `prev`.
pub open spec fn chained(prev: TermModel, op: FuncType, args: Seq<Value>) -> TermModel {
    TermModel { op: op.spec_code(), previous: Some(term_value(prev)), args, named: None }
}

impl Query {
    pub closed spec fn view(&self) -> QueryModel {
        QueryModel { term: self.term@, shape: self.shape }
    }

    fn new(term: Term, shape: ResultShape) -> (r: Query)
        ensures
            r@ == (QueryModel { term: term@, shape }),
    {
        Query { term, shape }
    }

    /// The term of this query.
    pub fn term(&self) -> (r: &Term)
        ensures
            r@ == self@.term,
    {
        &self.term
    }

    /// The shape of result this query decodes to.
    pub fn shape(&self) -> (r: ResultShape)
        ensures
            r == self@.shape,
    {
        self.shape
    }

    /// The JSON text of this query's term.
    pub fn serialize(&self) -> (r: String)
        ensures
            r@ == crate::term::term_text(self@.term),
    {
        self.term.serialize()
    }
}

fn str_datum(s: &str) -> (r: Datum)
    ensures
        r@ == Value::Str(s@),
{
    Datum::Str(s.to_owned())
}

fn single(d: Datum) -> (r: Vec<Datum>)
    ensures
        view_items(r@) == seq![d@],
{
    let mut v: Vec<Datum> = Vec::new();
    v.push(d);
    proof {
        lemma_view_items(v@);
        assert(view_items(v@) =~= seq![d@]);
    }
    v
}

fn pair(a: Datum, b: Datum) -> (r: Vec<Datum>)
    ensures
        view_items(r@) == seq![a@, b@],
{
    let mut v: Vec<Datum> = Vec::new();
    v.push(a);
    v.push(b);
    proof {
        lemma_view_items(v@);
        assert(view_items(v@) =~= seq![a@, b@]);
    }
    v
}

fn none() -> (r: Vec<Datum>)
    ensures
        view_items(r@) == Seq::<Value>::empty(),
{
    let v: Vec<Datum> = Vec::new();
    proof {
        lemma_view_items(v@);
        assert(view_items(v@) =~= Seq::<Value>::empty());
    }
    v
}

/// A database, as the receiver of table operations.
#[derive(Debug)]
pub struct Db {
    term: Term,
}

impl Db {
    pub closed spec fn view(&self) -> TermModel {
        self.term@
    }

    /// The term of this database selection.
    pub fn into_term(self) -> (r: Term)
        ensures
            r@ == self@,
    {
        self.term
    }

    /// Select a table of this database.
    pub fn table(self, name: &str) -> (r: Table)
        ensures
            r@ == chained(self@, FuncType::Table, seq![Value::Str(name@)]),
    {
        Table { term: self.term.chain(FuncType::Table, single(str_datum(name))) }
    }

    /// Create a table in this database.
    pub fn table_create(self, name: &str) -> (r: Query)
        ensures
            r@ == (QueryModel {
                term: chained(self@, FuncType::TableCreate, seq![Value::Str(name@)]),
                shape: ResultShape::Nothing,
            }),
    {
        Query::new(self.term.chain(FuncType::TableCreate, single(str_datum(name))), ResultShape::Nothing)
    }

    /// Delete a table of this database.
    pub fn table_drop(self, name: &str) -> (r: Query)
        ensures
            r@ == (QueryModel {
                term: chained(self@, FuncType::TableDrop, seq![Value::Str(name@)]),
                shape: ResultShape::Nothing,
            }),
    {
        Query::new(self.term.chain(FuncType::TableDrop, single(str_datum(name))), ResultShape::Nothing)
    }

    /// List the tables of this database.
    pub fn table_list(self) -> (r: Query)
        ensures
            r@ == (QueryModel {
                term: chained(self@, FuncType::TableList, Seq::empty()),
                shape: ResultShape::Strings,
            }),
    {
        Query::new(self.term.chain(FuncType::TableList, none()), ResultShape::Strings)
    }

    /// The JSON text of this term.
    pub fn serialize(&self) -> (r: String)
        ensures
            r@ == crate::term::term_text(self@),
    {
        self.term.serialize()
    }
}

/// Select a database to act on.
pub fn db(name: &str) -> (r: Db)
    ensures
        r@ == root(FuncType::Db, seq![Value::Str(name@)]),
{
    Db { term: Term::start(FuncType::Db, single(str_datum(name))) }
}

/// Create a new database.
pub fn db_create(name: &str) -> (r: Query)
    ensures
        r@ == (QueryModel {
            term: root(FuncType::DbCreate, seq![Value::Str(name@)]),
            shape: ResultShape::Nothing,
        }),
{
    Query::new(Term::start(FuncType::DbCreate, single(str_datum(name))), ResultShape::Nothing)
}

/// Delete an existing database.
pub fn db_drop(name: &str) -> (r: Query)
    ensures
        r@ == (QueryModel {
            term: root(FuncType::DbDrop, seq![Value::Str(name@)]),
            shape: ResultShape::Nothing,
        }),
{
    Query::new(Term::start(FuncType::DbDrop, single(str_datum(name))), ResultShape::Nothing)
}

/// List all database names.
pub fn db_list() -> (r: Query)
    ensures
        r@ == (QueryModel { term: root(FuncType::DbList, Seq::empty()), shape: ResultShape::Strings }),
{
    Query::new(Term::start(FuncType::DbList, none()), ResultShape::Strings)
}

/// A table: a query over all its documents, and the receiver of
/// document and index operations.
#[derive(Debug)]
pub struct Table {
    term: Term,
}

impl Table {
    pub closed spec fn view(&self) -> TermModel {
        self.term@
    }

    /// The term of this table selection.
    pub fn into_term(self) -> (r: Term)
        ensures
            r@ == self@,
    {
        self.term
    }

    /// The document with the given primary key.
    pub fn get(self, key: &str) -> (r: Get)
        ensures
            r@ == chained(self@, FuncType::Get, seq![Value::Str(key@)]),
    {
        Get { term: self.term.chain(FuncType::Get, single(str_datum(key))) }
    }

    /// Insert a document.
    pub fn insert(self, document: Datum) -> (r: Query)
        ensures
            r@ == (QueryModel {
                term: chained(self@, FuncType::Insert, seq![document@]),
                shape: ResultShape::Writes,
            }),
    {
        Query::new(self.term.chain(FuncType::Insert, single(document)), ResultShape::Writes)
    }

    /// Create a secondary index.
    pub fn index_create(self, name: &str) -> (r: Query)
        ensures
            r@ == (QueryModel {
                term: chained(self@, FuncType::IndexCreate, seq![Value::Str(name@)]),
                shape: ResultShape::Nothing,
            }),
    {
        Query::new(self.term.chain(FuncType::IndexCreate, single(str_datum(name))), ResultShape::Nothing)
    }

    /// Delete a secondary index.
    pub fn index_drop(self, name: &str) -> (r: Query)
        ensures
            r@ == (QueryModel {
                term: chained(self@, FuncType::IndexDrop, seq![Value::Str(name@)]),
                shape: ResultShape::Nothing,
            }),
    {
        Query::new(self.term.chain(FuncType::IndexDrop, single(str_datum(name))), ResultShape::Nothing)
    }

    /// List the secondary indexes.
    pub fn index_list(self) -> (r: Query)
        ensures
            r@ == (QueryModel {
                term: chained(self@, FuncType::IndexList, Seq::empty()),
                shape: ResultShape::Strings,
            }),
    {
        Query::new(self.term.chain(FuncType::IndexList, none()), ResultShape::Strings)
    }

    /// All documents of the table, as a query that yields a cursor.
    pub fn into_query(self) -> (r: Query)
        ensures
            r@ == (QueryModel { term: self@, shape: ResultShape::Documents }),
    {
        Query::new(self.term, ResultShape::Documents)
    }

    /// The JSON text of this term.
    pub fn serialize(&self) -> (r: String)
        ensures
            r@ == crate::term::term_text(self@),
    {
        self.term.serialize()
    }
}

/// Select a table of the connection's default database.
pub fn table(name: &str) -> (r: Table)
    ensures
        r@ == root(FuncType::Table, seq![Value::Str(name@)]),
{
    Table { term: Term::start(FuncType::Table, single(str_datum(name))) }
}

/// Create a table in the connection's default database.
pub fn table_create(name: &str) -> (r: Query)
    ensures
        r@ == (QueryModel {
            term: root(FuncType::TableCreate, seq![Value::Str(name@)]),
            shape: ResultShape::Nothing,
        }),
{
    Query::new(Term::start(FuncType::TableCreate, single(str_datum(name))), ResultShape::Nothing)
}

/// Delete a table of the connection's default database.
pub fn table_drop(name: &str) -> (r: Query)
    ensures
        r@ == (QueryModel {
            term: root(FuncType::TableDrop, seq![Value::Str(name@)]),
            shape: ResultShape::Nothing,
        }),
{
    Query::new(Term::start(FuncType::TableDrop, single(str_datum(name))), ResultShape::Nothing)
}

/// List the tables of the connection's default database.
pub fn table_list() -> (r: Query)
    ensures
        r@ == (QueryModel { term: root(FuncType::TableList, Seq::empty()), shape: ResultShape::Strings }),
{
    Query::new(Term::start(FuncType::TableList, none()), ResultShape::Strings)
}

/// A single document, selected by its key.
#[derive(Debug)]
pub struct Get {
    term: Term,
}

impl Get {
    pub closed spec fn view(&self) -> TermModel {
        self.term@
    }

    /// The term of this document selection.
    pub fn into_term(self) -> (r: Term)
        ensures
            r@ == self@,
    {
        self.term
    }

    /// Delete the selected document.
    pub fn delete(self) -> (r: Query)
        ensures
            r@ == (QueryModel {
                term: chained(self@, FuncType::Delete, Seq::empty()),
                shape: ResultShape::Writes,
            }),
    {
        Query::new(self.term.chain(FuncType::Delete, none()), ResultShape::Writes)
    }

    /// The selected document, as a query that yields it.
    pub fn into_query(self) -> (r: Query)
        ensures
            r@ == (QueryModel { term: self@, shape: ResultShape::Value }),
    {
        Query::new(self.term, ResultShape::Value)
    }

    /// The JSON text of this term.
    pub fn serialize(&self) -> (r: String)
        ensures
            r@ == crate::term::term_text(self@),
    {
        self.term.serialize()
    }
}

/// The kind of numbers.
#[derive(Clone, Copy, Debug)]
pub struct Num;

/// The kind of strings.
#[derive(Clone, Copy, Debug)]
pub struct Str;

/// The kind of booleans.
#[derive(Clone, Copy, Debug)]
pub struct Bool;

/// A value that can stand as a literal of kind `K` in a query.
pub trait ToDatum<K> {
    spec fn datum_view(&self) -> Value;

    fn to_datum(&self) -> (r: Datum)
        ensures
            r@ == self.datum_view();
}

impl ToDatum<Num> for i8 {
    open spec fn datum_view(&self) -> Value {
        Value::Num(*self as int)
    }

    fn to_datum(&self) -> (r: Datum) {
        Datum::Int(*self as i64)
    }
}

impl ToDatum<Num> for u8 {
    open spec fn datum_view(&self) -> Value {
        Value::Num(*self as int)
    }

    fn to_datum(&self) -> (r: Datum) {
        Datum::UInt(*self as u64)
    }
}

impl ToDatum<Num> for i16 {
    open spec fn datum_view(&self) -> Value {
        Value::Num(*self as int)
    }

    fn to_datum(&self) -> (r: Datum) {
        Datum::Int(*self as i64)
    }
}

impl ToDatum<Num> for u16 {
    open spec fn datum_view(&self) -> Value {
        Value::Num(*self as int)
    }

    fn to_datum(&self) -> (r: Datum) {
        Datum::UInt(*self as u64)
    }
}

impl ToDatum<Num> for i32 {
    open spec fn datum_view(&self) -> Value {
        Value::Num(*self as int)
    }

    fn to_datum(&self) -> (r: Datum) {
        Datum::Int(*self as i64)
    }
}

impl ToDatum<Num> for i64 {
    open spec fn datum_view(&self) -> Value {
        Value::Num(*self as int)
    }

    fn to_datum(&self) -> (r: Datum) {
        Datum::Int(*self)
    }
}

impl ToDatum<Num> for u32 {
    open spec fn datum_view(&self) -> Value {
        Value::Num(*self as int)
    }

    fn to_datum(&self) -> (r: Datum) {
        Datum::UInt(*self as u64)
    }
}

impl ToDatum<Num> for u64 {
    open spec fn datum_view(&self) -> Value {
        Value::Num(*self as int)
    }

    fn to_datum(&self) -> (r: Datum) {
        Datum::UInt(*self)
    }
}

impl<'a> ToDatum<Str> for &'a str {
    open spec fn datum_view(&self) -> Value {
        Value::Str((*self)@)
    }

    fn to_datum(&self) -> (r: Datum) {
        Datum::Str((*self).to_owned())
    }
}

impl ToDatum<Str> for String {
    open spec fn datum_view(&self) -> Value {
        Value::Str(self@)
    }

    fn to_datum(&self) -> (r: Datum) {
        Datum::Str(self.clone())
    }
}

impl ToDatum<Bool> for bool {
    open spec fn datum_view(&self) -> Value {
        Value::Bool(*self)
    }

    fn to_datum(&self) -> (r: Datum) {
        Datum::Bool(*self)
    }
}

impl<K, T: ToDatum<K>> ToDatum<K> for Option<T> {
    open spec fn datum_view(&self) -> Value {
        match self {
            Some(x) => x.datum_view(),
            None => Value::Null,
        }
    }

    fn to_datum(&self) -> (r: Datum) {
        match self {
            Some(x) => x.to_datum(),
            None => Datum::Null,
        }
    }
}

/// A literal of kind `K`: a number or a string.
#[derive(Debug)]
pub struct Expr<K> {
    value: Datum,
    kind: PhantomData<K>,
}

/// A literal as a query expression.
pub fn expr<K, D: ToDatum<K>>(x: D) -> (r: Expr<K>)
    ensures
        r@ == x.datum_view(),
{
    Expr { value: x.to_datum(), kind: PhantomData }
}

impl<K> Expr<K> {
    pub closed spec fn view(&self) -> Value {
        self.value@
    }

    /// The value of this literal.
    pub fn to_datum(&self) -> (r: Datum)
        ensures
            r@ == self@,
    {
        self.value.deep_copy()
    }

    fn binary(self, op: FuncType, rhs: Datum) -> (r: Query)
        ensures
            r@ == (QueryModel { term: root(op, seq![self@, rhs@]), shape: ResultShape::Value }),
    {
        Query::new(Term::start(op, pair(self.value, rhs)), ResultShape::Value)
    }
}

impl Expr<Num> {
    /// The sum of this number and `rhs`.
    pub fn add<D: ToDatum<Num>>(self, rhs: D) -> (r: Query)
        ensures
            r@ == (QueryModel {
                term: root(FuncType::Add, seq![self@, rhs.datum_view()]),
                shape: ResultShape::Value,
            }),
    {
        self.binary(FuncType::Add, rhs.to_datum())
    }

    /// This number less `rhs`.
    pub fn sub<D: ToDatum<Num>>(self, rhs: D) -> (r: Query)
        ensures
            r@ == (QueryModel {
                term: root(FuncType::Sub, seq![self@, rhs.datum_view()]),
                shape: ResultShape::Value,
            }),
    {
        self.binary(FuncType::Sub, rhs.to_datum())
    }

    /// The product of this number and `rhs`.
    pub fn mul<D: ToDatum<Num>>(self, rhs: D) -> (r: Query)
        ensures
            r@ == (QueryModel {
                term: root(FuncType::Mul, seq![self@, rhs.datum_view()]),
                shape: ResultShape::Value,
            }),
    {
        self.binary(FuncType::Mul, rhs.to_datum())
    }

    /// This number divided by `rhs`.
    pub fn div<D: ToDatum<Num>>(self, rhs: D) -> (r: Query)
        ensures
            r@ == (QueryModel {
                term: root(FuncType::Div, seq![self@, rhs.datum_view()]),
                shape: ResultShape::Value,
            }),
    {
        self.binary(FuncType::Div, rhs.to_datum())
    }

    /// The remainder of this number divided by `rhs`.
    pub fn rem<D: ToDatum<Num>>(self, rhs: D) -> (r: Query)
        ensures
            r@ == (QueryModel {
                term: root(FuncType::Mod, seq![self@, rhs.datum_view()]),
                shape: ResultShape::Value,
            }),
    {
        self.binary(FuncType::Mod, rhs.to_datum())
    }
}

impl Expr<Str> {
    /// The concatenation of this string and `rhs`.
    pub fn add<D: ToDatum<Str>>(self, rhs: D) -> (r: Query)
        ensures
            r@ == (QueryModel {
                term: root(FuncType::Add, seq![self@, rhs.datum_view()]),
                shape: ResultShape::Value,
            }),
    {
        self.binary(FuncType::Add, rhs.to_datum())
    }
}

} // verus!
