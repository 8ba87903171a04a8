//! Query terms: nodes of the expression tree, and their wire form.
use crate::datum::{copy_items, copy_pairs, view_items, view_pairs, Datum, Value};
use crate::datum::{lemma_view_items, lemma_view_items_concat};
use crate::json::{encode, json_text};
use vstd::prelude::*;

verus! {

/// The operation a term stands for.
#[derive(Clone, Copy, Debug, PartialEq, Eq, Structural)]
pub enum FuncType {
    Db,
    Table,
    Get,
    Add,
    Sub,
    Mul,
    Div,
    Mod,
    Delete,
    Insert,
    DbCreate,
    DbDrop,
    DbList,
    TableCreate,
    TableDrop,
    TableList,
    IndexCreate,
    IndexDrop,
    IndexList,
}

impl FuncType {
    /// The opcode that the server knows the operation by.
    pub open spec fn spec_code(&self) -> int {
        match self {
            FuncType::Db => 14,
            FuncType::Table => 15,
            FuncType::Get => 16,
            FuncType::Add => 24,
            FuncType::Sub => 25,
            FuncType::Mul => 26,
            FuncType::Div => 27,
            FuncType::Mod => 28,
            FuncType::Delete => 54,
            FuncType::Insert => 56,
            FuncType::DbCreate => 57,
            FuncType::DbDrop => 58,
            FuncType::DbList => 59,
            FuncType::TableCreate => 60,
            FuncType::TableDrop => 61,
            FuncType::TableList => 62,
            FuncType::IndexCreate => 75,
            FuncType::IndexDrop => 76,
            FuncType::IndexList => 77,
        }
    }

    pub fn code(&self) -> (r: i64)
        ensures
            r == self.spec_code(),
    {
        match self {
            FuncType::Db => 14,
            FuncType::Table => 15,
            FuncType::Get => 16,
            FuncType::Add => 24,
            FuncType::Sub => 25,
            FuncType::Mul => 26,
            FuncType::Div => 27,
            FuncType::Mod => 28,
            FuncType::Delete => 54,
            FuncType::Insert => 56,
            FuncType::DbCreate => 57,
            FuncType::DbDrop => 58,
            FuncType::DbList => 59,
            FuncType::TableCreate => 60,
            FuncType::TableDrop => 61,
            FuncType::TableList => 62,
            FuncType::IndexCreate => 75,
            FuncType::IndexDrop => 76,
            FuncType::IndexList => 77,
        }
    }
}

/// A node of a query: an operation, the serialized term it is chained
/// from, its arguments in call order, and its named arguments.
#[derive(Debug)]
pub struct Term {
    opcode: FuncType,
    previous: Option<Datum>,
    args: Vec<Datum>,
    named_args: Option<Vec<(String, Datum)>>,
}

/// The mathematical value of a `Term`.
pub struct TermModel {
    pub op: int,
    pub previous: Option<Value>,
    pub args: Seq<Value>,
    pub named: Option<Seq<(Seq<char>, Value)>>,
}

/// The argument list of a term on the wire: the previous term first, where
/// there is one, then the arguments.
pub open spec fn wire_args(t: TermModel) -> Seq<Value> {
    match t.previous {
        Some(p) => seq![p] + t.args,
        None => t.args,
    }
}

/// The wire form of a term: `[opcode, arguments]`, or
/// `[opcode, arguments, named arguments]` where it has named arguments.
pub open spec fn term_value(t: TermModel) -> Value {
    match t.named {
        None => Value::Array(seq![Value::Num(t.op), Value::Array(wire_args(t))]),
        Some(n) => Value::Array(
            seq![Value::Num(t.op), Value::Array(wire_args(t)), Value::Object(n)],
        ),
    }
}

/// The JSON text of a term.
pub open spec fn term_text(t: TermModel) -> Seq<char> {
    json_text(term_value(t))
}

impl Term {
    pub closed spec fn view(&self) -> TermModel {
        TermModel {
            op: self.opcode.spec_code(),
            previous: match self.previous {
                Some(p) => Some(p@),
                None => None,
            },
            args: view_items(self.args@),
            named: match self.named_args {
                Some(n) => Some(view_pairs(n@)),
                None => None,
            },
        }
    }

    /// A term that is chained from nothing.
    pub fn start(opcode: FuncType, args: Vec<Datum>) -> (r: Term)
        ensures
            r@ == (TermModel {
                op: opcode.spec_code(),
                previous: None,
                args: view_items(args@),
                named: None,
            }),
    {
        Term { opcode, previous: None, args, named_args: None }
    }

    /// A term whose previous term is this one.
    pub fn chain(self, opcode: FuncType, args: Vec<Datum>) -> (r: Term)
        ensures
            r@ == (TermModel {
                op: opcode.spec_code(),
                previous: Some(term_value(self@)),
                args: view_items(args@),
                named: None,
            }),
    {
        let prev = self.into_datum();
        Term { opcode, previous: Some(prev), args, named_args: None }
    }

    /// This term with the given named arguments.
    pub fn with_named_args(self, named: Vec<(String, Datum)>) -> (r: Term)
        ensures
            r@ == (TermModel { named: Some(view_pairs(named@)), ..self@ }),
    {
        Term { named_args: Some(named), ..self }
    }

    fn wrap(opcode: FuncType, list: Vec<Datum>, named: Option<Vec<(String, Datum)>>) -> (r: Datum)
        ensures
            r@ == (match named {
                None => Value::Array(
                    seq![Value::Num(opcode.spec_code()), Value::Array(view_items(list@))],
                ),
                Some(n) => Value::Array(
                    seq![
                        Value::Num(opcode.spec_code()),
                        Value::Array(view_items(list@)),
                        Value::Object(view_pairs(n@)),
                    ],
                ),
            }),
    {
        let mut outer: Vec<Datum> = Vec::new();
        outer.push(Datum::Int(opcode.code()));
        outer.push(Datum::Array(list));
        let has_named = named.is_some();
        match named {
            Some(n) => outer.push(Datum::Object(n)),
            None => {},
        }
        proof {
            lemma_view_items(outer@);
            if has_named {
                assert(view_items(outer@) =~= seq![outer@[0]@, outer@[1]@, outer@[2]@]);
            } else {
                assert(view_items(outer@) =~= seq![outer@[0]@, outer@[1]@]);
            }
        }
        Datum::Array(outer)
    }

    /// The wire form of this term, consuming it.
    pub fn into_datum(self) -> (r: Datum)
        ensures
            r@ == term_value(self@),
    {
        let ghost m = self@;
        let Term { opcode, previous, args, named_args } = self;
        let mut list: Vec<Datum> = Vec::new();
        match previous {
            Some(p) => list.push(p),
            None => {},
        }
        let ghost head = list@;
        let mut rest = args;
        let ghost rest_seq = rest@;
        list.append(&mut rest);
        proof {
            lemma_view_items_concat(head, rest_seq);
            lemma_view_items(head);
            assert(view_items(list@) =~= wire_args(m));
        }
        Term::wrap(opcode, list, named_args)
    }

    /// The wire form of this term.
    pub fn to_datum(&self) -> (r: Datum)
        ensures
            r@ == term_value(self@),
    {
        let mut list: Vec<Datum> = Vec::new();
        match &self.previous {
            Some(p) => list.push(p.deep_copy()),
            None => {},
        }
        let ghost head = list@;
        let mut rest = copy_items(&self.args);
        let ghost rest_seq = rest@;
        list.append(&mut rest);
        proof {
            lemma_view_items_concat(head, rest_seq);
            lemma_view_items(head);
            assert(view_items(list@) =~= wire_args(self@));
        }
        let named = match &self.named_args {
            Some(n) => Some(copy_pairs(n)),
            None => None,
        };
        Term::wrap(self.opcode, list, named)
    }

    /// The JSON text of this term.
    pub fn serialize(&self) -> (r: String)
        ensures
            r@ == term_text(self@),
    {
        let d = self.to_datum();
        encode(&d)
    }
}

/// Chaining puts the wire form of the receiver first among the arguments.
pub proof fn lemma_chain_shape(prev: TermModel, op: int, args: Seq<Value>)
    ensures
        term_value(TermModel { op, previous: Some(term_value(prev)), args, named: None })
            == Value::Array(
            seq![Value::Num(op), Value::Array(seq![term_value(prev)] + args)],
        ),
{
}

/// Serializing a term twice gives the same text, and so the same bytes.
pub proof fn lemma_serialize_idempotent(t: &Term, first: String, second: String)
    requires
        first@ == term_text(t@),
        second@ == term_text(t@),
    ensures
        first@ == second@,
        vstd::utf8::encode_utf8(first@) == vstd::utf8::encode_utf8(second@),
{
}

} // verus!
