//! Structured metadata values attached to errors.
use vstd::prelude::*;

pub use crate::details::ErrorDetails;

use crate::text::{
    bool_text, bool_to_text, decimal, decimal_text, digits_value, is_digit, lemma_decimal_reads_back,
    signed_decimal, signed_decimal_text,
};

verus! {

/// A structured value stored inside error details.
///
/// Signed and unsigned integers are kept apart; floating-point values are
/// kept as their text so that comparison and ordering stay predictable.
#[derive(Debug, PartialEq, Eq, PartialOrd, Ord, Hash)]
#[non_exhaustive]
pub enum DetailValue {
    /// A textual metadata value.
    String(String),
    /// A signed integer metadata value.
    Integer(i64),
    /// An unsigned integer metadata value.
    Unsigned(u64),
    /// A floating-point metadata value stored in string form.
    Float(String),
    /// A boolean metadata value.
    Boolean(bool),
}

/// The mathematical value of a [`DetailValue`]: its variant and contents.
pub enum DetailValueView {
    String(Seq<char>),
    Integer(i64),
    Unsigned(u64),
    Float(Seq<char>),
    Boolean(bool),
}

impl View for DetailValue {
    type V = DetailValueView;

    open spec fn view(&self) -> DetailValueView {
        match self {
            DetailValue::String(s) => DetailValueView::String(s@),
            DetailValue::Integer(i) => DetailValueView::Integer(*i),
            DetailValue::Unsigned(u) => DetailValueView::Unsigned(*u),
            DetailValue::Float(s) => DetailValueView::Float(s@),
            DetailValue::Boolean(b) => DetailValueView::Boolean(*b),
        }
    }
}

/// The display text of a detail value: text as it is, numbers in decimal
/// notation, booleans as `true` or `false`.
pub open spec fn detail_text(v: DetailValueView) -> Seq<char> {
    match v {
        DetailValueView::String(s) => s,
        DetailValueView::Integer(i) => signed_decimal(i as int),
        DetailValueView::Unsigned(u) => decimal(u as nat),
        DetailValueView::Float(s) => s,
        DetailValueView::Boolean(b) => bool_text(b),
    }
}

impl DetailValue {
    /// Returns `true` if this value is a string.
    pub fn is_string(&self) -> (r: bool)
        ensures
            r == (self@ is String),
    {
        match self {
            DetailValue::String(_) => true,
            _ => false,
        }
    }

    /// Returns `true` if this value is a signed integer.
    pub fn is_integer(&self) -> (r: bool)
        ensures
            r == (self@ is Integer),
    {
        match self {
            DetailValue::Integer(_) => true,
            _ => false,
        }
    }

    /// Returns `true` if this value is an unsigned integer.
    pub fn is_unsigned(&self) -> (r: bool)
        ensures
            r == (self@ is Unsigned),
    {
        match self {
            DetailValue::Unsigned(_) => true,
            _ => false,
        }
    }

    /// Returns `true` if this value is a float stored as text.
    pub fn is_float(&self) -> (r: bool)
        ensures
            r == (self@ is Float),
    {
        match self {
            DetailValue::Float(_) => true,
            _ => false,
        }
    }

    /// Returns `true` if this value is a boolean.
    pub fn is_boolean(&self) -> (r: bool)
        ensures
            r == (self@ is Boolean),
    {
        match self {
            DetailValue::Boolean(_) => true,
            _ => false,
        }
    }

    /// Returns the inner string if this is a string value.
    pub fn as_string(&self) -> (r: Option<&str>)
        ensures
            r is Some <==> self@ is String,
            r matches Some(s) ==> self@ == DetailValueView::String(s@),
    {
        match self {
            DetailValue::String(value) => Some(value.as_str()),
            _ => None,
        }
    }

    /// Returns the inner `i64` if this is a signed integer value.
    pub fn as_integer(&self) -> (r: Option<i64>)
        ensures
            r == (match self@ {
                DetailValueView::Integer(i) => Some(i),
                _ => None,
            }),
    {
        match self {
            DetailValue::Integer(value) => Some(*value),
            _ => None,
        }
    }

    /// Returns the inner `u64` if this is an unsigned integer value.
    pub fn as_unsigned(&self) -> (r: Option<u64>)
        ensures
            r == (match self@ {
                DetailValueView::Unsigned(u) => Some(u),
                _ => None,
            }),
    {
        match self {
            DetailValue::Unsigned(value) => Some(*value),
            _ => None,
        }
    }

    /// Returns the inner float text if this is a float value.
    pub fn as_float_str(&self) -> (r: Option<&str>)
        ensures
            r is Some <==> self@ is Float,
            r matches Some(s) ==> self@ == DetailValueView::Float(s@),
    {
        match self {
            DetailValue::Float(value) => Some(value.as_str()),
            _ => None,
        }
    }

    /// Returns the inner boolean if this is a boolean value.
    pub fn as_boolean(&self) -> (r: Option<bool>)
        ensures
            r == (match self@ {
                DetailValueView::Boolean(b) => Some(b),
                _ => None,
            }),
    {
        match self {
            DetailValue::Boolean(value) => Some(*value),
            _ => None,
        }
    }

    /// Returns the display text of this value.
    pub fn to_string(&self) -> (text: String)
        ensures
            text@ == detail_text(self@),
    {
        match self {
            DetailValue::String(value) => value.clone(),
            DetailValue::Integer(value) => signed_decimal_text(*value),
            DetailValue::Unsigned(value) => decimal_text(*value as u128),
            DetailValue::Float(value) => value.clone(),
            DetailValue::Boolean(value) => bool_to_text(*value),
        }
    }
}

impl Clone for DetailValue {
    fn clone(&self) -> (copy: Self)
        ensures
            copy@ == self@,
    {
        match self {
            DetailValue::String(value) => DetailValue::String(value.clone()),
            DetailValue::Integer(value) => DetailValue::Integer(*value),
            DetailValue::Unsigned(value) => DetailValue::Unsigned(*value),
            DetailValue::Float(value) => DetailValue::Float(value.clone()),
            DetailValue::Boolean(value) => DetailValue::Boolean(*value),
        }
    }
}

/// A value that can be stored as a [`DetailValue`].
pub trait IntoDetailValue: Sized {
    /// The detail value that this value becomes.
    spec fn detail_view(&self) -> DetailValueView;

    /// Converts this value into a detail value.
    fn into_detail_value(self) -> (value: DetailValue)
        ensures
            value@ == self.detail_view(),
    ;
}

impl IntoDetailValue for DetailValue {
    open spec fn detail_view(&self) -> DetailValueView {
        self@
    }

    fn into_detail_value(self) -> (value: DetailValue) {
        self
    }
}

impl From<String> for DetailValue {
    fn from(value: String) -> (result: Self)
        ensures
            result@ == DetailValueView::String(value@),
    {
        DetailValue::String(value)
    }
}

impl vstd::std_specs::convert::FromSpecImpl<String> for DetailValue {
    open spec fn obeys_from_spec() -> bool {
        true
    }

    open spec fn from_spec(value: String) -> DetailValue {
        DetailValue::String(value)
    }
}

impl IntoDetailValue for String {
    open spec fn detail_view(&self) -> DetailValueView {
        DetailValueView::String(self@)
    }

    fn into_detail_value(self) -> (value: DetailValue) {
        DetailValue::from(self)
    }
}

impl<'a> From<&'a str> for DetailValue {
    fn from(value: &'a str) -> (result: Self)
        ensures
            result@ == DetailValueView::String(value@),
    {
        DetailValue::String(String::from_str(value))
    }
}

impl<'a> vstd::std_specs::convert::FromSpecImpl<&'a str> for DetailValue {
    open spec fn obeys_from_spec() -> bool {
        false
    }

    open spec fn from_spec(value: &'a str) -> DetailValue {
        vstd::pervasive::arbitrary()
    }
}

impl<'a> IntoDetailValue for &'a str {
    open spec fn detail_view(&self) -> DetailValueView {
        DetailValueView::String((*self)@)
    }

    fn into_detail_value(self) -> (value: DetailValue) {
        DetailValue::from(self)
    }
}

impl From<bool> for DetailValue {
    fn from(value: bool) -> (result: Self)
        ensures
            result@ == DetailValueView::Boolean(value),
    {
        DetailValue::Boolean(value)
    }
}

impl vstd::std_specs::convert::FromSpecImpl<bool> for DetailValue {
    open spec fn obeys_from_spec() -> bool {
        true
    }

    open spec fn from_spec(value: bool) -> DetailValue {
        DetailValue::Boolean(value)
    }
}

impl IntoDetailValue for bool {
    open spec fn detail_view(&self) -> DetailValueView {
        DetailValueView::Boolean(*self)
    }

    fn into_detail_value(self) -> (value: DetailValue) {
        DetailValue::from(self)
    }
}

impl From<i8> for DetailValue {
    fn from(value: i8) -> (result: Self)
        ensures
            result@ == DetailValueView::Integer(value as i64),
    {
        DetailValue::Integer(value as i64)
    }
}

impl vstd::std_specs::convert::FromSpecImpl<i8> for DetailValue {
    open spec fn obeys_from_spec() -> bool {
        true
    }

    open spec fn from_spec(value: i8) -> DetailValue {
        DetailValue::Integer(value as i64)
    }
}

impl IntoDetailValue for i8 {
    open spec fn detail_view(&self) -> DetailValueView {
        DetailValueView::Integer(*self as i64)
    }

    fn into_detail_value(self) -> (value: DetailValue) {
        DetailValue::from(self)
    }
}

impl From<i16> for DetailValue {
    fn from(value: i16) -> (result: Self)
        ensures
            result@ == DetailValueView::Integer(value as i64),
    {
        DetailValue::Integer(value as i64)
    }
}

impl vstd::std_specs::convert::FromSpecImpl<i16> for DetailValue {
    open spec fn obeys_from_spec() -> bool {
        true
    }

    open spec fn from_spec(value: i16) -> DetailValue {
        DetailValue::Integer(value as i64)
    }
}

impl IntoDetailValue for i16 {
    open spec fn detail_view(&self) -> DetailValueView {
        DetailValueView::Integer(*self as i64)
    }

    fn into_detail_value(self) -> (value: DetailValue) {
        DetailValue::from(self)
    }
}

impl From<i32> for DetailValue {
    fn from(value: i32) -> (result: Self)
        ensures
            result@ == DetailValueView::Integer(value as i64),
    {
        DetailValue::Integer(value as i64)
    }
}

impl vstd::std_specs::convert::FromSpecImpl<i32> for DetailValue {
    open spec fn obeys_from_spec() -> bool {
        true
    }

    open spec fn from_spec(value: i32) -> DetailValue {
        DetailValue::Integer(value as i64)
    }
}

impl IntoDetailValue for i32 {
    open spec fn detail_view(&self) -> DetailValueView {
        DetailValueView::Integer(*self as i64)
    }

    fn into_detail_value(self) -> (value: DetailValue) {
        DetailValue::from(self)
    }
}

impl From<i64> for DetailValue {
    fn from(value: i64) -> (result: Self)
        ensures
            result@ == DetailValueView::Integer(value),
    {
        DetailValue::Integer(value)
    }
}

impl vstd::std_specs::convert::FromSpecImpl<i64> for DetailValue {
    open spec fn obeys_from_spec() -> bool {
        true
    }

    open spec fn from_spec(value: i64) -> DetailValue {
        DetailValue::Integer(value)
    }
}

impl IntoDetailValue for i64 {
    open spec fn detail_view(&self) -> DetailValueView {
        DetailValueView::Integer(*self)
    }

    fn into_detail_value(self) -> (value: DetailValue) {
        DetailValue::from(self)
    }
}

impl From<isize> for DetailValue {
    fn from(value: isize) -> (result: Self)
        ensures
            result@ == DetailValueView::Integer(value as i64),
    {
        DetailValue::Integer(value as i64)
    }
}

impl vstd::std_specs::convert::FromSpecImpl<isize> for DetailValue {
    open spec fn obeys_from_spec() -> bool {
        true
    }

    open spec fn from_spec(value: isize) -> DetailValue {
        DetailValue::Integer(value as i64)
    }
}

impl IntoDetailValue for isize {
    open spec fn detail_view(&self) -> DetailValueView {
        DetailValueView::Integer(*self as i64)
    }

    fn into_detail_value(self) -> (value: DetailValue) {
        DetailValue::from(self)
    }
}

impl From<u8> for DetailValue {
    fn from(value: u8) -> (result: Self)
        ensures
            result@ == DetailValueView::Unsigned(value as u64),
    {
        DetailValue::Unsigned(value as u64)
    }
}

impl vstd::std_specs::convert::FromSpecImpl<u8> for DetailValue {
    open spec fn obeys_from_spec() -> bool {
        true
    }

    open spec fn from_spec(value: u8) -> DetailValue {
        DetailValue::Unsigned(value as u64)
    }
}

impl IntoDetailValue for u8 {
    open spec fn detail_view(&self) -> DetailValueView {
        DetailValueView::Unsigned(*self as u64)
    }

    fn into_detail_value(self) -> (value: DetailValue) {
        DetailValue::from(self)
    }
}

impl From<u16> for DetailValue {
    fn from(value: u16) -> (result: Self)
        ensures
            result@ == DetailValueView::Unsigned(value as u64),
    {
        DetailValue::Unsigned(value as u64)
    }
}

impl vstd::std_specs::convert::FromSpecImpl<u16> for DetailValue {
    open spec fn obeys_from_spec() -> bool {
        true
    }

    open spec fn from_spec(value: u16) -> DetailValue {
        DetailValue::Unsigned(value as u64)
    }
}

impl IntoDetailValue for u16 {
    open spec fn detail_view(&self) -> DetailValueView {
        DetailValueView::Unsigned(*self as u64)
    }

    fn into_detail_value(self) -> (value: DetailValue) {
        DetailValue::from(self)
    }
}

impl From<u32> for DetailValue {
    fn from(value: u32) -> (result: Self)
        ensures
            result@ == DetailValueView::Unsigned(value as u64),
    {
        DetailValue::Unsigned(value as u64)
    }
}

impl vstd::std_specs::convert::FromSpecImpl<u32> for DetailValue {
    open spec fn obeys_from_spec() -> bool {
        true
    }

    open spec fn from_spec(value: u32) -> DetailValue {
        DetailValue::Unsigned(value as u64)
    }
}

impl IntoDetailValue for u32 {
    open spec fn detail_view(&self) -> DetailValueView {
        DetailValueView::Unsigned(*self as u64)
    }

    fn into_detail_value(self) -> (value: DetailValue) {
        DetailValue::from(self)
    }
}

impl From<u64> for DetailValue {
    fn from(value: u64) -> (result: Self)
        ensures
            result@ == DetailValueView::Unsigned(value),
    {
        DetailValue::Unsigned(value)
    }
}

impl vstd::std_specs::convert::FromSpecImpl<u64> for DetailValue {
    open spec fn obeys_from_spec() -> bool {
        true
    }

    open spec fn from_spec(value: u64) -> DetailValue {
        DetailValue::Unsigned(value)
    }
}

impl IntoDetailValue for u64 {
    open spec fn detail_view(&self) -> DetailValueView {
        DetailValueView::Unsigned(*self)
    }

    fn into_detail_value(self) -> (value: DetailValue) {
        DetailValue::from(self)
    }
}

impl From<usize> for DetailValue {
    fn from(value: usize) -> (result: Self)
        ensures
            result@ == DetailValueView::Unsigned(value as u64),
    {
        DetailValue::Unsigned(value as u64)
    }
}

impl vstd::std_specs::convert::FromSpecImpl<usize> for DetailValue {
    open spec fn obeys_from_spec() -> bool {
        true
    }

    open spec fn from_spec(value: usize) -> DetailValue {
        DetailValue::Unsigned(value as u64)
    }
}

impl IntoDetailValue for usize {
    open spec fn detail_view(&self) -> DetailValueView {
        DetailValueView::Unsigned(*self as u64)
    }

    fn into_detail_value(self) -> (value: DetailValue) {
        DetailValue::from(self)
    }
}

/// Signed integers are stored as signed integer details with the same value,
/// unsigned integers as unsigned integer details with the same value, and
/// booleans and text as themselves, whatever the value.
pub proof fn lemma_detail_values_keep_kind_and_value(
    a: i8,
    b: i16,
    c: i32,
    d: i64,
    e: isize,
    f: u8,
    g: u16,
    h: u32,
    i: u64,
    j: usize,
    flag: bool,
    text: String,
    slice: &str,
)
    ensures
        a.detail_view() matches DetailValueView::Integer(x) && x as int == a as int,
        b.detail_view() matches DetailValueView::Integer(x) && x as int == b as int,
        c.detail_view() matches DetailValueView::Integer(x) && x as int == c as int,
        d.detail_view() matches DetailValueView::Integer(x) && x as int == d as int,
        e.detail_view() matches DetailValueView::Integer(x) && x as int == e as int,
        f.detail_view() matches DetailValueView::Unsigned(x) && x as int == f as int,
        g.detail_view() matches DetailValueView::Unsigned(x) && x as int == g as int,
        h.detail_view() matches DetailValueView::Unsigned(x) && x as int == h as int,
        i.detail_view() matches DetailValueView::Unsigned(x) && x as int == i as int,
        j.detail_view() matches DetailValueView::Unsigned(x) && x as int == j as int,
        flag.detail_view() matches DetailValueView::Boolean(x) && x == flag,
        text.detail_view() matches DetailValueView::String(x) && x == text@,
        slice.detail_view() matches DetailValueView::String(x) && x == slice@,
{
}

/// The text of a number reads back as that number: unsigned values are
/// digits whose base-ten value is the number; negative values are `-`
/// followed by the digits of their magnitude. Text is shown as it is.
pub proof fn lemma_detail_text_reads_back(value: DetailValueView)
    ensures
        value matches DetailValueView::Unsigned(u) ==> {
            &&& forall|k: int|
                0 <= k < detail_text(value).len() ==> is_digit(#[trigger] detail_text(value)[k])
            &&& digits_value(detail_text(value)) == u as int
        },
        value matches DetailValueView::Integer(x) ==> {
            &&& x >= 0 ==> digits_value(detail_text(value)) == x as int
            &&& x >= 0 ==> forall|k: int|
                0 <= k < detail_text(value).len() ==> is_digit(#[trigger] detail_text(value)[k])
            &&& x < 0 ==> detail_text(value)[0] == '-'
            &&& x < 0 ==> digits_value(detail_text(value).skip(1)) == -(x as int)
            &&& x < 0 ==> forall|k: int|
                1 <= k < detail_text(value).len() ==> is_digit(#[trigger] detail_text(value)[k])
        },
        value matches DetailValueView::String(t) ==> detail_text(value) == t,
        value matches DetailValueView::Float(t) ==> detail_text(value) == t,
{
    match value {
        DetailValueView::Unsigned(u) => {
            lemma_decimal_reads_back(u as nat);
        },
        DetailValueView::Integer(x) => {
            if x >= 0 {
                lemma_decimal_reads_back(x as nat);
            } else {
                let m = (-(x as int)) as nat;
                lemma_decimal_reads_back(m);
                let t = detail_text(value);
                assert(t =~= seq!['-'] + decimal(m));
                assert(t.skip(1) =~= decimal(m));
                assert forall|k: int| 1 <= k < t.len() implies is_digit(#[trigger] t[k]) by {
                    assert(t[k] == decimal(m)[k - 1]);
                }
            }
        },
        _ => {},
    }
}

} // verus!
