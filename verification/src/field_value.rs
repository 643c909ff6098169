//! The value a property resolves to. Absence of an optional remote field is
//! `Null`, never a defaulted zero or empty string, so that "field omitted"
//! stays distinct from "field explicitly empty". Fractional statistics are
//! carried as IEEE 754 bit patterns (`Float64Bits`); the surrounding
//! application converts to a native float at its boundary.

use vstd::prelude::*;

verus! {

/// A resolved property value.
#[derive(Clone, Debug, PartialEq)]
pub enum FieldValue {
    /// No value: the field or one of its enclosing optional structures is
    /// absent.
    Null,
    Boolean(bool),
    Uint64(u64),
    Int64(i64),
    /// The IEEE 754 bit pattern of a fractional value, kept exact.
    Float64Bits(u64),
    Text(String),
    /// An ordered collection of rendered display values, in upstream order.
    TextList(Vec<String>),
}

/// The mathematical model of a resolved value: text as character
/// sequences, lists as sequences of character sequences.
pub ghost enum FieldValueView {
    Null,
    Boolean(bool),
    Uint64(u64),
    Int64(i64),
    Float64Bits(u64),
    Text(Seq<char>),
    TextList(Seq<Seq<char>>),
}

impl View for FieldValue {
    type V = FieldValueView;

    open spec fn view(&self) -> FieldValueView {
        match self {
            FieldValue::Null => FieldValueView::Null,
            FieldValue::Boolean(b) => FieldValueView::Boolean(*b),
            FieldValue::Uint64(n) => FieldValueView::Uint64(*n),
            FieldValue::Int64(n) => FieldValueView::Int64(*n),
            FieldValue::Float64Bits(bits) => FieldValueView::Float64Bits(*bits),
            FieldValue::Text(s) => FieldValueView::Text(s@),
            FieldValue::TextList(v) => FieldValueView::TextList(v.deep_view()),
        }
    }
}

/// An optional text field: its value, or `Null` when absent.
pub open spec fn opt_text(o: Option<String>) -> FieldValueView {
    match o {
        Some(s) => FieldValueView::Text(s@),
        None => FieldValueView::Null,
    }
}

/// An optional boolean field: its value, or `Null` when absent.
pub open spec fn opt_bool(o: Option<bool>) -> FieldValueView {
    match o {
        Some(b) => FieldValueView::Boolean(b),
        None => FieldValueView::Null,
    }
}

/// An optional 32-bit count: its value widened, or `Null` when absent.
pub open spec fn opt_u32(o: Option<u32>) -> FieldValueView {
    match o {
        Some(n) => FieldValueView::Uint64(n as u64),
        None => FieldValueView::Null,
    }
}

/// An optional 16-bit count: its value widened, or `Null` when absent.
pub open spec fn opt_u16(o: Option<u16>) -> FieldValueView {
    match o {
        Some(n) => FieldValueView::Uint64(n as u64),
        None => FieldValueView::Null,
    }
}

/// An optional 32-bit signed coordinate: its value widened, or `Null` when
/// absent.
pub open spec fn opt_i32(o: Option<i32>) -> FieldValueView {
    match o {
        Some(n) => FieldValueView::Int64(n as i64),
        None => FieldValueView::Null,
    }
}

/// An optional fractional statistic: its bit pattern, or `Null` when
/// absent.
pub open spec fn opt_float_bits(o: Option<u64>) -> FieldValueView {
    match o {
        Some(bits) => FieldValueView::Float64Bits(bits),
        None => FieldValueView::Null,
    }
}

/// A text field that is always present.
pub open spec fn text(s: String) -> FieldValueView {
    FieldValueView::Text(s@)
}

/// A list of text values in upstream order.
pub open spec fn text_list(v: Vec<String>) -> FieldValueView {
    FieldValueView::TextList(v.deep_view())
}

impl FieldValue {
    /// Build the value of an optional text field.
    pub fn from_opt_text(o: &Option<String>) -> (r: FieldValue)
        ensures
            r@ == opt_text(*o),
    {
        match o {
            Some(s) => FieldValue::Text(s.clone()),
            None => FieldValue::Null,
        }
    }

    /// Build the value of an optional boolean field.
    pub fn from_opt_bool(o: &Option<bool>) -> (r: FieldValue)
        ensures
            r@ == opt_bool(*o),
    {
        match o {
            Some(b) => FieldValue::Boolean(*b),
            None => FieldValue::Null,
        }
    }

    /// Build the value of an optional 32-bit count.
    pub fn from_opt_u32(o: &Option<u32>) -> (r: FieldValue)
        ensures
            r@ == opt_u32(*o),
    {
        match o {
            Some(n) => FieldValue::Uint64(*n as u64),
            None => FieldValue::Null,
        }
    }

    /// Build the value of an optional 16-bit count.
    pub fn from_opt_u16(o: &Option<u16>) -> (r: FieldValue)
        ensures
            r@ == opt_u16(*o),
    {
        match o {
            Some(n) => FieldValue::Uint64(*n as u64),
            None => FieldValue::Null,
        }
    }

    /// Build the value of an optional signed coordinate.
    pub fn from_opt_i32(o: &Option<i32>) -> (r: FieldValue)
        ensures
            r@ == opt_i32(*o),
    {
        match o {
            Some(n) => FieldValue::Int64(*n as i64),
            None => FieldValue::Null,
        }
    }

    /// Build the value of an optional fractional statistic.
    pub fn from_opt_float_bits(o: &Option<u64>) -> (r: FieldValue)
        ensures
            r@ == opt_float_bits(*o),
    {
        match o {
            Some(bits) => FieldValue::Float64Bits(*bits),
            None => FieldValue::Null,
        }
    }

    /// Build the value of a text field.
    pub fn from_text(s: &String) -> (r: FieldValue)
        ensures
            r@ == text(*s),
    {
        FieldValue::Text(s.clone())
    }

    /// Build the value of a text-list field, keeping the upstream order.
    pub fn from_text_list(v: &Vec<String>) -> (r: FieldValue)
        ensures
            r@ == text_list(*v),
    {
        let mut out: Vec<String> = Vec::new();
        let mut i: usize = 0;
        while i < v.len()
            invariant
                i <= v.len(),
                out@ =~= v@.take(i as int),
            decreases v.len() - i,
        {
            out.push(v[i].clone());
            proof {
                assert(out@ =~= v@.take(i as int + 1));
            }
            i = i + 1;
        }
        proof {
            assert(out@ =~= v@);
            assert(out.deep_view() =~= v.deep_view());
        }
        FieldValue::TextList(out)
    }
}

} // verus!
