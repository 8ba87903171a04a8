//! JSON-shaped values: the leaf data of queries and the payload of responses.
use vstd::prelude::*;

verus! {

/// A JSON value as this library holds it. Integers are kept in the signed
/// or unsigned 64-bit form that the JSON reader produced; other numbers are
/// kept as their decimal text.
#[derive(Debug, PartialEq, Eq)]
pub enum Datum {
    Null,
    Bool(bool),
    Int(i64),
    UInt(u64),
    /// A number that is not an integer, as decimal text. Text that is no
    /// number is written out as `null`.
    Float(String),
    Str(String),
    Array(Vec<Datum>),
    Object(Vec<(String, Datum)>),
}

/// The mathematical value of a `Datum`.
pub enum Value {
    Null,
    Bool(bool),
    Num(int),
    Float(Seq<char>),
    Str(Seq<char>),
    Array(Seq<Value>),
    Object(Seq<(Seq<char>, Value)>),
}

impl Datum {
    pub open spec fn view(&self) -> Value
        decreases self,
    {
        match self {
            Datum::Null => Value::Null,
            Datum::Bool(b) => Value::Bool(*b),
            Datum::Int(n) => Value::Num(*n as int),
            Datum::UInt(n) => Value::Num(*n as int),
            Datum::Float(t) => Value::Float(t@),
            Datum::Str(s) => Value::Str(s@),
            Datum::Array(items) => Value::Array(view_items(items@)),
            Datum::Object(pairs) => Value::Object(view_pairs(pairs@)),
        }
    }
}

/// The values of a sequence of datums.
pub open spec fn view_items(s: Seq<Datum>) -> Seq<Value>
    decreases s,
{
    if s.len() == 0 {
        Seq::empty()
    } else {
        view_items(s.drop_last()).push(s.last().view())
    }
}

/// The keys and values of a sequence of object members.
pub open spec fn view_pairs(s: Seq<(String, Datum)>) -> Seq<(Seq<char>, Value)>
    decreases s,
{
    if s.len() == 0 {
        Seq::empty()
    } else {
        view_pairs(s.drop_last()).push((s.last().0@, s.last().1.view()))
    }
}


/// The value of the member named `key` in `pairs`: the first such member.
pub open spec fn lookup(pairs: Seq<(Seq<char>, Value)>, key: Seq<char>) -> Option<Value>
    decreases pairs.len(),
{
    if pairs.len() == 0 {
        None
    } else if pairs[0].0 == key {
        Some(pairs[0].1)
    } else {
        lookup(pairs.drop_first(), key)
    }
}

/// The member `key` of `v`, where `v` is an object.
pub open spec fn member(v: Value, key: Seq<char>) -> Option<Value> {
    match v {
        Value::Object(pairs) => lookup(pairs, key),
        _ => None,
    }
}

/// The values of datums, one by one.
pub proof fn lemma_view_items(s: Seq<Datum>)
    ensures
        view_items(s).len() == s.len(),
        forall|i: int| 0 <= i < s.len() ==> #[trigger] view_items(s)[i] == s[i].view(),
    decreases s.len(),
{
    if s.len() > 0 {
        lemma_view_items(s.drop_last());
    }
}

/// The keys and values of object members, one by one.
pub proof fn lemma_view_pairs(s: Seq<(String, Datum)>)
    ensures
        view_pairs(s).len() == s.len(),
        forall|i: int|
            0 <= i < s.len() ==> #[trigger] view_pairs(s)[i] == (s[i].0@, s[i].1.view()),
    decreases s.len(),
{
    if s.len() > 0 {
        lemma_view_pairs(s.drop_last());
    }
}

/// The values of two sequences of datums, one after the other.
pub proof fn lemma_view_items_concat(a: Seq<Datum>, b: Seq<Datum>)
    ensures
        view_items(a + b) == view_items(a) + view_items(b),
{
    lemma_view_items(a);
    lemma_view_items(b);
    lemma_view_items(a + b);
    assert(view_items(a + b) =~= view_items(a) + view_items(b));
}

proof fn lemma_lookup_skip(pairs: Seq<(Seq<char>, Value)>, key: Seq<char>, i: int)
    requires
        0 <= i < pairs.len(),
        pairs[i].0 != key,
    ensures
        lookup(pairs.subrange(i, pairs.len() as int), key) == lookup(
            pairs.subrange(i + 1, pairs.len() as int),
            key,
        ),
{
    assert(pairs.subrange(i, pairs.len() as int).drop_first() =~= pairs.subrange(
        i + 1,
        pairs.len() as int,
    ));
}

impl Datum {
    /// A copy of this datum, with the same value.
    pub fn deep_copy(&self) -> (r: Datum)
        ensures
            r@ == self@,
        decreases self,
    {
        match self {
            Datum::Null => Datum::Null,
            Datum::Bool(b) => Datum::Bool(*b),
            Datum::Int(n) => Datum::Int(*n),
            Datum::UInt(n) => Datum::UInt(*n),
            Datum::Float(t) => Datum::Float(t.clone()),
            Datum::Str(s) => Datum::Str(s.clone()),
            Datum::Array(items) => Datum::Array(copy_items(items)),
            Datum::Object(pairs) => Datum::Object(copy_pairs(pairs)),
        }
    }

    /// The member named `key`, where this datum is an object holding one.
    pub fn find(&self, key: &String) -> (r: Option<&Datum>)
        ensures
            match r {
                Some(d) => member(self@, key@) == Some(d@),
                None => member(self@, key@) is None,
            },
    {
        match self {
            Datum::Object(pairs) => {
                let ghost ps = view_pairs(pairs@);
                proof {
                    lemma_view_pairs(pairs@);
                    assert(ps.subrange(0, ps.len() as int) =~= ps);
                }
                let mut i: usize = 0;
                while i < pairs.len()
                    invariant
                        i <= pairs.len(),
                        ps == view_pairs(pairs@),
                        self@ == Value::Object(ps),
                        ps.len() == pairs.len(),
                        forall|j: int|
                            0 <= j < pairs.len() ==> #[trigger] ps[j] == (
                                pairs@[j].0@,
                                pairs@[j].1@,
                            ),
                        lookup(ps, key@) == lookup(ps.subrange(i as int, ps.len() as int), key@),
                    decreases pairs.len() - i,
                {
                    if pairs[i].0 == *key {
                        let ghost sub = ps.subrange(i as int, ps.len() as int);
                        assert(sub[0] == ps[i as int]);
                        return Some(&pairs[i].1);
                    }
                    proof {
                        lemma_lookup_skip(ps, key@, i as int);
                    }
                    i = i + 1;
                }
                None
            },
            _ => None,
        }
    }
}

/// Copies of the datums of `items`, in order.
pub fn copy_items(items: &Vec<Datum>) -> (r: Vec<Datum>)
    ensures
        view_items(r@) == view_items(items@),
    decreases items,
{
    let mut out: Vec<Datum> = Vec::new();
    let mut i: usize = 0;
    while i < items.len()
        invariant
            i <= items.len(),
            view_items(out@) == view_items(items@.subrange(0, i as int)),
        decreases items.len() - i,
    {
        proof {
            vstd::std_specs::vec::axiom_vec_index_decreases(*items, i as int);
        }
        let v = items[i].deep_copy();
        let ghost prev = out@;
        out.push(v);
        proof {
            assert(out@.drop_last() =~= prev);
            assert(items@.subrange(0, i + 1).drop_last() =~= items@.subrange(0, i as int));
        }
        i = i + 1;
    }
    assert(items@.subrange(0, items.len() as int) =~= items@);
    out
}

/// Copies of the members of `pairs`, in order.
pub fn copy_pairs(pairs: &Vec<(String, Datum)>) -> (r: Vec<(String, Datum)>)
    ensures
        view_pairs(r@) == view_pairs(pairs@),
    decreases pairs,
{
    let mut out: Vec<(String, Datum)> = Vec::new();
    let mut i: usize = 0;
    while i < pairs.len()
        invariant
            i <= pairs.len(),
            view_pairs(out@) == view_pairs(pairs@.subrange(0, i as int)),
        decreases pairs.len() - i,
    {
        proof {
            vstd::std_specs::vec::axiom_vec_index_decreases(*pairs, i as int);
            assert(decreases_to!(pairs[i as int] => pairs[i as int].1));
        }
        let k = pairs[i].0.clone();
        let v = pairs[i].1.deep_copy();
        let ghost prev = out@;
        out.push((k, v));
        proof {
            assert(out@.drop_last() =~= prev);
            assert(pairs@.subrange(0, i + 1).drop_last() =~= pairs@.subrange(0, i as int));
        }
        i = i + 1;
    }
    assert(pairs@.subrange(0, pairs.len() as int) =~= pairs@);
    out
}

} // verus!
