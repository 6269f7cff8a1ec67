//! The loosely-typed parameter bag of a request, and its typed accessors.
//!
//! A request arrives as an untyped mapping of field names to values (query
//! string or JSON body). Consumers read it only through typed accessors that
//! fail explicitly, with a validation failure naming the field, when a value
//! does not have the declared type.
//!
//! Coordinates and other non-integer numbers are carried in fixed point, as
//! micro-units (one millionth of a degree for geographic coordinates); the
//! unverified boundary converts a request's decimal numbers to this form.

use vstd::prelude::*;
use vstd::string::StrSliceExecFns;

use crate::errors::{invalid_param, is_invalid_param, Failure};

verus! {

/// Micro-units per whole unit of a fixed-point number.
pub const MICRO_PER_UNIT: i64 = 1_000_000;

/// The largest unsigned integer whose value in micro-units still fits an
/// `i64` (`i64::MAX / MICRO_PER_UNIT`).
pub const MAX_WHOLE_UNITS: u64 = 9_223_372_036_854;

/// One value of the untyped parameter mapping: the JSON shapes the service
/// reads. Unsigned integers and fixed-point numbers are distinct, as they
/// are in the wire format; `Num` holds micro-units. `Null` also stands for
/// any number the fixed-point form cannot hold; no typed accessor accepts
/// it.
#[derive(Debug)]
pub enum ParamValue {
    Null,
    Bool(bool),
    UInt(u64),
    Num(i64),
    Str(String),
    Arr(Vec<ParamValue>),
    Obj(Vec<(String, ParamValue)>),
}

/// The untyped mapping of request fields as received. No uniqueness or
/// ordering invariant holds; a lookup returns the first entry with the key.
pub struct RawParameters {
    pub entries: Vec<(String, ParamValue)>,
}

/// The first value bound to `key` in an association list, if any.
pub open spec fn lookup_seq(entries: Seq<(String, ParamValue)>, key: Seq<char>) -> Option<
    ParamValue,
>
    decreases entries.len(),
{
    if entries.len() == 0 {
        None
    } else if entries[0].0@ == key {
        Some(entries[0].1)
    } else {
        lookup_seq(entries.drop_first(), key)
    }
}

proof fn lemma_lookup_skip(entries: Seq<(String, ParamValue)>, key: Seq<char>, i: int)
    requires
        0 <= i <= entries.len(),
        forall|j: int| 0 <= j < i ==> entries[j].0@ != key,
    ensures
        lookup_seq(entries, key) == lookup_seq(entries.skip(i), key),
    decreases i,
{
    if i > 0 {
        lemma_lookup_skip(entries.drop_first(), key, i - 1);
        assert(entries.drop_first().skip(i - 1) =~= entries.skip(i));
    } else {
        assert(entries.skip(0) =~= entries);
    }
}

/// Holds when a value is a number usable in fixed point: either already in
/// micro-units, or an unsigned integer small enough to scale.
pub open spec fn num_ok(v: ParamValue) -> bool {
    match v {
        ParamValue::Num(_) => true,
        ParamValue::UInt(u) => u <= MAX_WHOLE_UNITS,
        _ => false,
    }
}

/// The micro-unit value of a number parameter.
pub open spec fn num_micro(v: ParamValue) -> i64
    recommends
        num_ok(v),
{
    match v {
        ParamValue::Num(d) => d,
        ParamValue::UInt(u) => (u * MICRO_PER_UNIT) as i64,
        _ => 0,
    }
}

/// The string a `key` lookup yields: absent is `Ok(None)`, a string is
/// `Ok(Some(..))`, any other type is a validation failure naming the field.
pub open spec fn str_param(params: RawParameters, key: Seq<char>) -> Result<
    Option<Seq<char>>,
    Seq<char>,
> {
    match lookup_seq(params.entries@, key) {
        Option::None => Ok(None),
        Option::Some(v) => match v {
            ParamValue::Str(s) => Ok(Some(s@)),
            _ => Err(key),
        },
    }
}

/// Whether a `key` lookup yields a boolean `true`; anything else, a missing
/// value included, reads as `false`.
pub open spec fn bool_param(params: RawParameters, key: Seq<char>) -> bool {
    lookup_seq(params.entries@, key) matches Some(ParamValue::Bool(b)) && b
}

/// The unsigned integer a `key` lookup yields: absent falls back to
/// `default`, a number that is not an unsigned integer (negative or
/// fractional) is not rejected at this layer and also falls back, and a
/// non-number type is a validation failure naming the field.
pub open spec fn u64_param(params: RawParameters, key: Seq<char>, default: u64) -> Result<
    u64,
    Seq<char>,
> {
    match lookup_seq(params.entries@, key) {
        Option::None => Ok(default),
        Option::Some(v) => match v {
            ParamValue::UInt(u) => Ok(u),
            ParamValue::Num(_) => Ok(default),
            _ => Err(key),
        },
    }
}

/// The fixed-point number a `key` lookup yields, in micro-units: absent is
/// `Ok(None)`, a usable number is `Ok(Some(..))`, anything else is a
/// validation failure naming the field.
pub open spec fn num_param(params: RawParameters, key: Seq<char>) -> Result<
    Option<i64>,
    Seq<char>,
> {
    match lookup_seq(params.entries@, key) {
        Option::None => Ok(None),
        Option::Some(v) => if num_ok(v) {
            Ok(Some(num_micro(v)))
        } else {
            Err(key)
        },
    }
}

/// The view of a string value; other values are irrelevant where it is used.
pub open spec fn str_of(v: ParamValue) -> Seq<char> {
    match v {
        ParamValue::Str(s) => s@,
        _ => Seq::empty(),
    }
}

/// The string list a `key` lookup yields: absent means no filter (`Ok(None)`,
/// not an empty list); an array of strings is kept in order, duplicates
/// included; an array with a non-string element, or a non-array value, is a
/// validation failure naming the field.
pub open spec fn str_list_param(params: RawParameters, key: Seq<char>) -> Result<
    Option<Seq<Seq<char>>>,
    Seq<char>,
> {
    match lookup_seq(params.entries@, key) {
        Option::None => Ok(None),
        Option::Some(v) => match v {
            ParamValue::Arr(items) => if forall|i: int|
                0 <= i < items@.len() ==> items@[i] is Str {
                Ok(Some(Seq::new(items@.len(), |i: int| str_of(items@[i]))))
            } else {
                Err(key)
            },
            _ => Err(key),
        },
    }
}

/// Finds the first entry of an association list whose key equals `key`.
pub fn assoc_find<'a>(entries: &'a Vec<(String, ParamValue)>, key: &str) -> (r: Option<
    &'a ParamValue,
>)
    ensures
        match r {
            Some(v) => lookup_seq(entries@, key@) == Some(*v),
            None => lookup_seq(entries@, key@) is None,
        },
{
    let mut i: usize = 0;
    while i < entries.len()
        invariant
            i <= entries.len(),
            forall|j: int| 0 <= j < i ==> entries@[j].0@ != key@,
        decreases entries.len() - i,
    {
        let pair = &entries[i];
        if str_eq(pair.0.as_str(), key) {
            proof {
                lemma_lookup_skip(entries@, key@, i as int);
                assert(entries@.skip(i as int)[0] == entries@[i as int]);
            }
            return Some(&pair.1);
        }
        i = i + 1;
    }
    proof {
        lemma_lookup_skip(entries@, key@, i as int);
    }
    None
}

/// Reads a value as a fixed-point number in micro-units, when it is one.
pub fn num_value(v: &ParamValue) -> (r: Option<i64>)
    ensures
        match r {
            Some(d) => num_ok(*v) && d == num_micro(*v),
            None => !num_ok(*v),
        },
{
    match v {
        ParamValue::Num(d) => Some(*d),
        ParamValue::UInt(u) => if *u <= MAX_WHOLE_UNITS {
            Some((*u as i64) * MICRO_PER_UNIT)
        } else {
            None
        },
        _ => None,
    }
}

impl RawParameters {
    /// The first value bound to `key`, if any.
    pub open spec fn lookup(&self, key: Seq<char>) -> Option<ParamValue> {
        lookup_seq(self.entries@, key)
    }

    /// Finds the first entry whose key equals `key`.
    pub fn find<'a>(&'a self, key: &str) -> (r: Option<&'a ParamValue>)
        ensures
            match r {
                Some(v) => self.lookup(key@) == Some(*v),
                None => self.lookup(key@) is None,
            },
    {
        assoc_find(&self.entries, key)
    }

    /// Reads an optional string-typed field; a present value of another type
    /// is a validation failure naming the field.
    pub fn get_str(&self, key: &str) -> (r: Result<Option<String>, Failure>)
        ensures
            match r {
                Ok(None) => str_param(*self, key@) == Ok::<Option<Seq<char>>, Seq<char>>(None),
                Ok(Some(s)) => str_param(*self, key@) == Ok::<Option<Seq<char>>, Seq<char>>(
                    Some(s@),
                ),
                Err(f) => str_param(*self, key@) matches Err(field) && is_invalid_param(f, field),
            },
    {
        match self.find(key) {
            None => Ok(None),
            Some(v) => match v {
                ParamValue::Str(s) => Ok(Some(s.clone())),
                _ => Err(invalid_param(key)),
            },
        }
    }

    /// Reads an optional boolean flag leniently: absent or of another type
    /// reads as `false`.
    pub fn get_bool_or_false(&self, key: &str) -> (r: bool)
        ensures
            r == bool_param(*self, key@),
    {
        match self.find(key) {
            Some(ParamValue::Bool(b)) => *b,
            _ => false,
        }
    }

    /// Reads an optional unsigned-integer field with a default: absent, or a
    /// number out of unsigned range (deferred to the backend, not rejected),
    /// falls back to the default; a non-number type is a validation failure
    /// naming the field.
    pub fn get_u64_or(&self, key: &str, default: u64) -> (r: Result<u64, Failure>)
        ensures
            match r {
                Ok(n) => u64_param(*self, key@, default) == Ok::<u64, Seq<char>>(n),
                Err(f) => u64_param(*self, key@, default) matches Err(field) && is_invalid_param(
                    f,
                    field,
                ),
            },
    {
        match self.find(key) {
            None => Ok(default),
            Some(v) => match v {
                ParamValue::UInt(u) => Ok(*u),
                ParamValue::Num(_) => Ok(default),
                _ => Err(invalid_param(key)),
            },
        }
    }

    /// Reads an optional fixed-point number field, in micro-units; a present
    /// value that is not a usable number is a validation failure naming the
    /// field.
    pub fn get_num(&self, key: &str) -> (r: Result<Option<i64>, Failure>)
        ensures
            match r {
                Ok(o) => num_param(*self, key@) == Ok::<Option<i64>, Seq<char>>(o),
                Err(f) => num_param(*self, key@) matches Err(field) && is_invalid_param(f, field),
            },
    {
        match self.find(key) {
            None => Ok(None),
            Some(v) => match num_value(v) {
                Some(d) => Ok(Some(d)),
                None => Err(invalid_param(key)),
            },
        }
    }

    /// Reads an optional list-of-strings field, preserving order and
    /// duplicates; a present value that is not an array of strings is a
    /// validation failure naming the field.
    pub fn get_str_list(&self, key: &str) -> (r: Result<Option<Vec<String>>, Failure>)
        ensures
            match r {
                Ok(None) => str_list_param(*self, key@) == Ok::<
                    Option<Seq<Seq<char>>>,
                    Seq<char>,
                >(None),
                Ok(Some(ts)) => str_list_param(*self, key@) == Ok::<
                    Option<Seq<Seq<char>>>,
                    Seq<char>,
                >(Some(ts.deep_view())),
                Err(f) => str_list_param(*self, key@) matches Err(field) && is_invalid_param(
                    f,
                    field,
                ),
            },
    {
        match self.find(key) {
            None => Ok(None),
            Some(v) => match v {
                ParamValue::Arr(items) => {
                    let mut out: Vec<String> = Vec::new();
                    let mut i: usize = 0;
                    while i < items.len()
                        invariant
                            i <= items.len(),
                            out@.len() == i,
                            lookup_seq(self.entries@, key@) == Some(ParamValue::Arr(*items)),
                            forall|j: int| 0 <= j < i ==> items@[j] is Str,
                            forall|j: int| 0 <= j < i ==> out@[j]@ == str_of(items@[j]),
                        decreases items.len() - i,
                    {
                        let item = &items[i];
                        match item {
                            ParamValue::Str(s) => out.push(s.clone()),
                            _ => {
                                proof {
                                    assert(!(items@[i as int] is Str));
                                }
                                return Err(invalid_param(key));
                            },
                        }
                        i = i + 1;
                    }
                    proof {
                        assert(out.deep_view() =~= Seq::new(
                            items@.len(),
                            |j: int| str_of(items@[j]),
                        ));
                    }
                    Ok(Some(out))
                },
                _ => Err(invalid_param(key)),
            },
        }
    }
}

/// Character-wise string equality, so that key comparison carries a
/// view-level contract.
pub fn str_eq(a: &str, b: &str) -> (r: bool)
    ensures
        r == (a@ == b@),
{
    let na = a.unicode_len();
    let nb = b.unicode_len();
    if na != nb {
        return false;
    }
    let mut i: usize = 0;
    while i < na
        invariant
            i <= na,
            na == a@.len() && nb == b@.len() && na == nb,
            forall|j: int| 0 <= j < i ==> a@[j] == b@[j],
        decreases na - i,
    {
        if a.get_char(i) != b.get_char(i) {
            return false;
        }
        i = i + 1;
    }
    proof {
        assert(a@ =~= b@);
    }
    true
}

} // verus!
