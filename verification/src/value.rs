//! The dynamically typed values that travel inside RPC messages.
//!
//! A [`Value`] is a MessagePack value held as plain data. Floating point
//! numbers are carried as their bit patterns, so that a value can be stored
//! and handed on without loss.

use vstd::prelude::*;

verus! {

/// A MessagePack value.
#[derive(Debug, PartialEq)]
pub enum Value {
    /// The nil value.
    Nil,
    /// A boolean.
    Boolean(bool),
    /// A non-negative integer.
    UInt(u64),
    /// A signed integer; used for the negative ones.
    Int(i64),
    /// A 32-bit float, as its bits.
    F32(u32),
    /// A 64-bit float, as its bits.
    F64(u64),
    /// A UTF-8 string.
    String(String),
    /// A byte array.
    Binary(Vec<u8>),
    /// A sequence of values.
    Array(Vec<Value>),
    /// A map, as its sequence of key and value pairs.
    Pairs(Vec<(Value, Value)>),
    /// An extension: a type tag and its bytes.
    Ext(i8, Vec<u8>),
}

/// The mathematical model of a [`Value`].
pub enum ValueView {
    Nil,
    Boolean(bool),
    Integer(int),
    F32(u32),
    F64(u64),
    String(Seq<char>),
    Binary(Seq<u8>),
    Array(Seq<ValueView>),
    Pairs(Seq<(ValueView, ValueView)>),
    Ext(i8, Seq<u8>),
}

impl ValueView {
    /// The unsigned integer that the value holds, if it holds one that fits
    /// in 64 bits.
    pub open spec fn as_u64(self) -> Option<u64> {
        match self {
            ValueView::Integer(i) => if 0 <= i <= u64::MAX {
                Some(i as u64)
            } else {
                None
            },
            _ => None,
        }
    }

    /// The text that the value holds, if it is a string.
    pub open spec fn as_str(self) -> Option<Seq<char>> {
        match self {
            ValueView::String(s) => Some(s),
            _ => None,
        }
    }

    /// The items that the value holds, if it is an array.
    pub open spec fn as_array(self) -> Option<Seq<ValueView>> {
        match self {
            ValueView::Array(items) => Some(items),
            _ => None,
        }
    }
}

/// The models of a sequence of values, item by item.
pub open spec fn view_all(items: Seq<Value>) -> Seq<ValueView> {
    Seq::new(items.len(), |i: int| items[i]@)
}

impl View for Value {
    type V = ValueView;

    open spec fn view(&self) -> ValueView
        decreases self,
    {
        match self {
            Value::Nil => ValueView::Nil,
            Value::Boolean(b) => ValueView::Boolean(*b),
            Value::UInt(n) => ValueView::Integer(*n as int),
            Value::Int(n) => ValueView::Integer(*n as int),
            Value::F32(bits) => ValueView::F32(*bits),
            Value::F64(bits) => ValueView::F64(*bits),
            Value::String(s) => ValueView::String(s@),
            Value::Binary(bytes) => ValueView::Binary(bytes@),
            Value::Array(items) => ValueView::Array(
                Seq::new(
                    items@.len(),
                    |i: int|
                        if 0 <= i < items@.len() {
                            items@[i].view()
                        } else {
                            ValueView::Nil
                        },
                ),
            ),
            Value::Pairs(pairs) => ValueView::Pairs(
                Seq::new(
                    pairs@.len(),
                    |i: int|
                        if 0 <= i < pairs@.len() {
                            (pairs@[i].0.view(), pairs@[i].1.view())
                        } else {
                            (ValueView::Nil, ValueView::Nil)
                        },
                ),
            ),
            Value::Ext(tag, bytes) => ValueView::Ext(*tag, bytes@),
        }
    }
}

/// The model of an array value is the models of its items.
pub proof fn lemma_array_view(v: Value)
    requires
        v is Array,
    ensures
        v@ == ValueView::Array(view_all(v->Array_0@)),
{
    reveal_with_fuel(<Value as View>::view, 2);
    assert(v@->Array_0 =~= view_all(v->Array_0@));
}

impl Value {
    /// Whether the value is nil.
    pub fn is_nil(&self) -> (r: bool)
        ensures
            r == (self@ == ValueView::Nil),
    {
        match self {
            Value::Nil => true,
            _ => false,
        }
    }

    /// The unsigned integer that the value holds, if any.
    pub fn as_u64(&self) -> (r: Option<u64>)
        ensures
            r == self@.as_u64(),
    {
        match self {
            Value::UInt(n) => Some(*n),
            Value::Int(n) => if *n >= 0 {
                Some(*n as u64)
            } else {
                None
            },
            _ => None,
        }
    }

    /// The text that the value holds, if it is a string.
    pub fn as_str(&self) -> (r: Option<&str>)
        ensures
            match r {
                Some(s) => self@.as_str() == Some(s@),
                None => self@.as_str().is_none(),
            },
    {
        match self {
            Value::String(s) => Some(s.as_str()),
            _ => None,
        }
    }

    /// The items that the value holds, if it is an array.
    pub fn as_array(&self) -> (r: Option<&Vec<Value>>)
        ensures
            match r {
                Some(items) => self@.as_array() == Some(view_all(items@)),
                None => self@.as_array().is_none(),
            },
    {
        match self {
            Value::Array(items) => {
                proof {
                    lemma_array_view(*self);
                }
                Some(items)
            },
            _ => None,
        }
    }

    /// The value that holds the unsigned integer `n`.
    pub fn from_u64(n: u64) -> (v: Value)
        ensures
            v@ == ValueView::Integer(n as int),
    {
        Value::UInt(n)
    }

    /// The value that holds the text `s`.
    pub fn from_str(s: &str) -> (v: Value)
        ensures
            v@ == ValueView::String(s@),
    {
        Value::String(String::from_str(s))
    }

    /// The array value that holds `items`.
    pub fn from_vec(items: Vec<Value>) -> (v: Value)
        ensures
            v@ == ValueView::Array(view_all(items@)),
    {
        let v = Value::Array(items);
        proof {
            lemma_array_view(v);
        }
        v
    }
}

} // verus!
