//! Reading scalars out of a YAML mapping.

use dbt_yaml::Mapping;
use vstd::prelude::*;
use vstd::string::*;

use crate::text::{or_else, text_of, trimmed};

verus! {

/// `dbt_yaml::Mapping`, a map from YAML values to YAML values.
#[verifier::external_type_specification]
#[verifier::external_body]
pub struct ExMapping(Mapping);

/// A YAML value in each of the ways in which it can be read; `None` where it cannot be read so.
pub struct YamlScalar {
    pub text: Option<String>,
    pub flag: Option<bool>,
    pub signed: Option<i64>,
    pub unsigned: Option<u64>,
}

/// A YAML value's readings as contracts speak of them.
pub struct ScalarView {
    pub text: Option<Seq<char>>,
    pub flag: Option<bool>,
    pub signed: Option<i64>,
    pub unsigned: Option<u64>,
}

impl View for YamlScalar {
    type V = ScalarView;

    open spec fn view(&self) -> ScalarView {
        ScalarView {
            text: text_of(self.text),
            flag: self.flag,
            signed: self.signed,
            unsigned: self.unsigned,
        }
    }
}

/// Whether the readings are those of one value: it is a text, a flag or a number and no two of them,
/// and a number that is an integer has each reading whose type holds it.
pub open spec fn of_one_value(value: ScalarView) -> bool {
    &&& value.text is Some ==> value.flag is None && value.signed is None && value.unsigned is None
    &&& value.flag is Some ==> value.signed is None && value.unsigned is None
    &&& value.signed matches Some(i) ==> value.unsigned == if i >= 0 {
        Some(i as u64)
    } else {
        None
    }
    &&& value.unsigned matches Some(u) ==> value.signed == if u <= i64::MAX {
        Some(u as i64)
    } else {
        None
    }
}

/// What a mapping holds under its string keys: for each of them the readings of its value.
pub uninterp spec fn mapping_entries(mapping: Mapping) -> Map<Seq<char>, ScalarView>;

/// `dbt_yaml::Mapping::get` with a string for its key finds the value of that key or nothing.
/// The value comes out as its readings by `dbt_yaml::Value`'s `as_str`, `as_bool`, `as_i64` and
/// `as_u64`, which see through a YAML tag: a string has the first alone, a flag the second alone, a
/// floating-point number none, and an integer the third and the fourth as far as an `i64` and a
/// `u64` hold it.
#[verifier::external_body]
fn mapping_get(mapping: &Mapping, key: &str) -> (r: Option<YamlScalar>)
    ensures
        match r {
            Some(value) => mapping_entries(*mapping).contains_key(key@)
                && mapping_entries(*mapping)[key@] == value@ && of_one_value(value@),
            None => !mapping_entries(*mapping).contains_key(key@),
        },
{
    match mapping.get(dbt_yaml::Value::from(key)) {
        Some(value) => Some(
            YamlScalar {
                text: match value.as_str() {
                    Some(s) => Some(s.to_owned()),
                    None => None,
                },
                flag: value.as_bool(),
                signed: value.as_i64(),
                unsigned: value.as_u64(),
            },
        ),
        None => None,
    }
}

/// The text under `key`, without the white space at its ends.
pub open spec fn yaml_str(mapping: Mapping, key: Seq<char>) -> Option<Seq<char>> {
    if mapping_entries(mapping).contains_key(key) {
        scalar_text(mapping_entries(mapping)[key])
    } else {
        None
    }
}

/// The flag under `key`.
pub open spec fn yaml_bool(mapping: Mapping, key: Seq<char>) -> Option<bool> {
    if mapping_entries(mapping).contains_key(key) {
        mapping_entries(mapping)[key].flag
    } else {
        None
    }
}

/// `n`, where a `u32` holds it.
pub open spec fn fits_u32(n: int) -> Option<u32> {
    if 0 <= n <= u32::MAX {
        Some(n as u32)
    } else {
        None
    }
}

/// A value's text, without the white space at its ends.
pub open spec fn scalar_text(value: ScalarView) -> Option<Seq<char>> {
    match value.text {
        Some(s) => Some(trimmed(s)),
        None => None,
    }
}

/// A value as an integer, where a `u32` holds it.
pub open spec fn scalar_u32(value: ScalarView) -> Option<u32> {
    or_else(
        match value.signed {
            Some(i) => fits_u32(i as int),
            None => None,
        },
        match value.unsigned {
            Some(u) => fits_u32(u as int),
            None => None,
        },
    )
}

/// The integer under `key`, where a `u32` holds it.
pub open spec fn yaml_u32(mapping: Mapping, key: Seq<char>) -> Option<u32> {
    if mapping_entries(mapping).contains_key(key) {
        scalar_u32(mapping_entries(mapping)[key])
    } else {
        None
    }
}

impl YamlScalar {
    /// The value's text, without the white space at its ends.
    pub fn trimmed_text(&self) -> (r: Option<String>)
        ensures
            text_of(r) == scalar_text(self@),
    {
        match &self.text {
            Some(s) => Some(s.as_str().trim().to_owned()),
            None => None,
        }
    }

    /// The value as an integer, where a `u32` holds it.
    pub fn as_u32(&self) -> (r: Option<u32>)
        ensures
            r == scalar_u32(self@),
    {
        if let Some(i) = self.signed {
            if 0 <= i && i <= 0xFFFF_FFFFi64 {
                return Some(i as u32);
            }
        }
        match self.unsigned {
            Some(u) => if u <= 0xFFFF_FFFFu64 {
                Some(u as u32)
            } else {
                None
            },
            None => None,
        }
    }
}

/// The text under `key`, without the white space at its ends. A text is no flag and no integer.
pub fn get_yaml_str(mapping: &Mapping, key: &str) -> (r: Option<String>)
    ensures
        text_of(r) == yaml_str(*mapping, key@),
        r is Some ==> yaml_bool(*mapping, key@) is None && yaml_u32(*mapping, key@) is None,
{
    match mapping_get(mapping, key) {
        Some(value) => value.trimmed_text(),
        None => None,
    }
}

/// The flag under `key`. A flag is no text and no integer.
pub fn get_yaml_bool(mapping: &Mapping, key: &str) -> (r: Option<bool>)
    ensures
        r == yaml_bool(*mapping, key@),
        r is Some ==> yaml_str(*mapping, key@) is None && yaml_u32(*mapping, key@) is None,
{
    match mapping_get(mapping, key) {
        Some(value) => value.flag,
        None => None,
    }
}

/// The integer under `key`, where a `u32` holds it. An integer is no text, so that a quoted number is
/// none, and no flag; both of its readings are that integer.
pub fn get_yaml_u32(mapping: &Mapping, key: &str) -> (r: Option<u32>)
    ensures
        r == yaml_u32(*mapping, key@),
        r is Some ==> yaml_str(*mapping, key@) is None && yaml_bool(*mapping, key@) is None,
        r matches Some(n) ==> mapping_entries(*mapping)[key@].signed == Some(n as i64)
            && mapping_entries(*mapping)[key@].unsigned == Some(n as u64),
{
    match mapping_get(mapping, key) {
        Some(value) => value.as_u32(),
        None => None,
    }
}

} // verus!
