//! The configuration abstraction: a section/key lookup over an
//! already-loaded document of plain values.
//!
//! The document holds only strings, integers and one level of nested
//! mappings, which is all the pipeline reads. Whatever backend parsed the
//! configuration file converts its own node type into [`ConfigValue`] before
//! the pipeline runs; the accessor itself is read-only and side-effect free.

use vstd::prelude::*;
use vstd::string::StringExecFns;
use crate::errors::AppError;
use crate::text::{spec_int_digits, i64_digits};

verus! {

/// One configuration value: a string, an integer, or a nested mapping.
#[derive(Debug)]
pub enum ConfigValue {
    Str(String),
    Int(i64),
    Mapping(Vec<(String, ConfigValue)>),
}

/// First-match lookup in a mapping's entries.
pub open spec fn spec_lookup(entries: Seq<(String, ConfigValue)>, key: Seq<char>) -> Option<
    ConfigValue,
>
    decreases entries.len(),
{
    if entries.len() == 0 {
        None
    } else if entries[0].0@ == key {
        Some(entries[0].1)
    } else {
        spec_lookup(entries.skip(1), key)
    }
}

proof fn lemma_lookup_skip(entries: Seq<(String, ConfigValue)>, key: Seq<char>, i: int)
    requires
        0 <= i <= entries.len(),
        forall|j: int| 0 <= j < i ==> entries[j].0@ != key,
    ensures
        spec_lookup(entries, key) == spec_lookup(entries.skip(i), key),
    decreases i,
{
    if i > 0 {
        assert(entries[0].0@ != key);
        assert(spec_lookup(entries, key) == spec_lookup(entries.skip(1), key));
        assert(forall|j: int|
            0 <= j < i - 1 ==> entries.skip(1)[j].0@ == entries[j + 1].0@ && entries[j + 1].0@
                != key);
        lemma_lookup_skip(entries.skip(1), key, i - 1);
        assert(entries.skip(1).skip(i - 1) =~= entries.skip(i));
    } else {
        assert(entries.skip(0) =~= entries);
    }
}

/// Finds the first entry with the given key.
fn find<'a>(entries: &'a Vec<(String, ConfigValue)>, key: &str) -> (r: Option<&'a ConfigValue>)
    ensures
        spec_lookup(entries@, key@) matches Some(v) ==> (r matches Some(p) && *p == v),
        spec_lookup(entries@, key@) is None ==> r is None,
{
    let key_owned = key.to_owned();
    let mut i: usize = 0;
    while i < entries.len()
        invariant
            i <= entries@.len(),
            key_owned@ == key@,
            forall|j: int| 0 <= j < i ==> entries@[j].0@ != key@,
        decreases entries@.len() - i,
    {
        let e = &entries[i];
        if e.0.eq(&key_owned) {
            proof {
                lemma_lookup_skip(entries@, key@, i as int);
                assert(entries@.skip(i as int)[0] == entries@[i as int]);
            }
            return Some(&e.1);
        }
        i += 1;
    }
    proof {
        lemma_lookup_skip(entries@, key@, entries@.len() as int);
    }
    None
}

/// The reading of one key inside a section.
pub enum Looked {
    /// The section is absent, or the key is not in it.
    Missing,
    /// The section exists but is not a mapping.
    NotHash,
    /// The key's value.
    Found(ConfigValue),
}

/// What looking a key up in a section view yields.
pub open spec fn spec_get(conf: Option<ConfigValue>, key: Seq<char>) -> Looked {
    match conf {
        Option::None => Looked::Missing,
        Option::Some(ConfigValue::Mapping(es)) => match spec_lookup(es@, key) {
            Option::Some(v) => Looked::Found(v),
            Option::None => Looked::Missing,
        },
        Option::Some(_) => Looked::NotHash,
    }
}

pub open spec fn missing_key_msg(key: Seq<char>, section: Seq<char>) -> Seq<char> {
    "Missing key '"@ + key + "' in section '"@ + section + "'"@
}

pub open spec fn section_not_hash_msg(section: Seq<char>) -> Seq<char> {
    "Section '"@ + section + "' is not a hash"@
}

pub open spec fn not_string_msg(key: Seq<char>, section: Seq<char>) -> Seq<char> {
    "Key '"@ + key + "' in Section '"@ + section + "' is not a string"@
}

pub open spec fn not_hash_msg(key: Seq<char>, section: Seq<char>) -> Seq<char> {
    "Key '"@ + key + "' in Section '"@ + section + "' is not a hash"@
}

pub open spec fn not_scalar_msg(key: Seq<char>, section: Seq<char>) -> Seq<char> {
    "Key '"@ + key + "' in Section '"@ + section + "' is not a hash of scalars"@
}

pub open spec fn must_be_int_msg(key: Seq<char>, section: Seq<char>) -> Seq<char> {
    "Value '"@ + key + "' in section '"@ + section + "' must be an integer"@
}

fn join5(a: &str, b: &str, c: &str, d: &str, e: &str) -> (r: String)
    ensures
        r@ == a@ + b@ + c@ + d@ + e@,
{
    a.to_owned().concat(b).concat(c).concat(d).concat(e)
}

fn join3(a: &str, b: &str, c: &str) -> (r: String)
    ensures
        r@ == a@ + b@ + c@,
{
    a.to_owned().concat(b).concat(c)
}

/// Wraps a message into the configuration error kind.
pub fn error(msg: &str) -> (r: AppError)
    ensures
        r matches AppError::Config(m) && m@ == msg@,
{
    AppError::Config(msg.to_owned())
}

/// A whole configuration document.
pub struct ConfigParser(pub ConfigValue);

/// The view a named section gives: its mapping value, if the document is a
/// mapping that contains the name.
pub open spec fn spec_section(doc: ConfigValue, name: Seq<char>) -> Option<ConfigValue> {
    match doc {
        ConfigValue::Mapping(es) => spec_lookup(es@, name),
        _ => Option::None,
    }
}

impl ConfigParser {
    /// Wraps an already-loaded document.
    pub fn new(doc: ConfigValue) -> (r: ConfigParser)
        ensures
            r.0 == doc,
    {
        ConfigParser(doc)
    }

    /// Scopes reads to a named section. An absent section yields a view in
    /// which every key is absent; it never fails eagerly.
    pub fn section<'b>(&'b self, name: &'b str) -> (r: SectionParser<'b>)
        ensures
            r.name@ == name@,
            r.conf_val() == spec_section(self.0, name@),
    {
        match &self.0 {
            ConfigValue::Mapping(entries) => match find(entries, name) {
                Option::Some(v) => SectionParser { conf: Some(v), name },
                Option::None => SectionParser { conf: None, name },
            },
            _ => SectionParser { conf: None, name },
        }
    }
}

/// A read-only view of one named section.
pub struct SectionParser<'a> {
    pub conf: Option<&'a ConfigValue>,
    pub name: &'a str,
}

/// Success or the message of a configuration error.
pub enum StrLookup {
    Found(Seq<char>),
    Fail(Seq<char>),
}

pub enum IntLookup {
    Found(i64),
    Fail(Seq<char>),
}

pub enum MapLookup {
    Found(Seq<(Seq<char>, Seq<char>)>),
    Fail(Seq<char>),
}

/// What a required string read yields.
pub open spec fn spec_get_str(conf: Option<ConfigValue>, key: Seq<char>, section: Seq<char>)
    -> StrLookup {
    match spec_get(conf, key) {
        Looked::Missing => StrLookup::Fail(missing_key_msg(key, section)),
        Looked::NotHash => StrLookup::Fail(section_not_hash_msg(section)),
        Looked::Found(ConfigValue::Str(s)) => StrLookup::Found(s@),
        Looked::Found(_) => StrLookup::Fail(not_string_msg(key, section)),
    }
}

/// What a string read with a default yields.
pub open spec fn spec_get_str_or(
    conf: Option<ConfigValue>,
    key: Seq<char>,
    section: Seq<char>,
    default: Seq<char>,
) -> Seq<char> {
    match spec_get_str(conf, key, section) {
        StrLookup::Found(s) => s,
        StrLookup::Fail(_) => default,
    }
}

/// What a required integer read yields.
pub open spec fn spec_get_i64(conf: Option<ConfigValue>, key: Seq<char>, section: Seq<char>)
    -> IntLookup {
    match spec_get(conf, key) {
        Looked::Missing => IntLookup::Fail(missing_key_msg(key, section)),
        Looked::NotHash => IntLookup::Fail(section_not_hash_msg(section)),
        Looked::Found(ConfigValue::Int(i)) => IntLookup::Found(i),
        Looked::Found(_) => IntLookup::Fail(must_be_int_msg(key, section)),
    }
}

/// A nested value coerced to request-field text: strings as they are,
/// integers in decimal; anything else cannot stand in a form field.
pub open spec fn coerce_scalar(v: ConfigValue) -> Option<Seq<char>> {
    match v {
        ConfigValue::Str(s) => Option::Some(s@),
        ConfigValue::Int(i) => Option::Some(spec_int_digits(i as int)),
        ConfigValue::Mapping(_) => Option::None,
    }
}

pub open spec fn entries_coercible(es: Seq<(String, ConfigValue)>) -> bool {
    forall|i: int| 0 <= i < es.len() ==> coerce_scalar(#[trigger] es[i].1) is Some
}

pub open spec fn coerced_entries(es: Seq<(String, ConfigValue)>) -> Seq<(Seq<char>, Seq<char>)> {
    Seq::new(es.len(), |i: int| (es[i].0@, coerce_scalar(es[i].1).unwrap()))
}

/// What a required mapping read yields: the entries coerced to text pairs.
pub open spec fn spec_get_hash(conf: Option<ConfigValue>, key: Seq<char>, section: Seq<char>)
    -> MapLookup {
    match spec_get(conf, key) {
        Looked::Missing => MapLookup::Fail(missing_key_msg(key, section)),
        Looked::NotHash => MapLookup::Fail(section_not_hash_msg(section)),
        Looked::Found(ConfigValue::Mapping(es)) => if entries_coercible(es@) {
            MapLookup::Found(coerced_entries(es@))
        } else {
            MapLookup::Fail(not_scalar_msg(key, section))
        },
        Looked::Found(_) => MapLookup::Fail(not_hash_msg(key, section)),
    }
}

/// The view of an owned list of text pairs.
pub open spec fn pairs_view(v: Seq<(String, String)>) -> Seq<(Seq<char>, Seq<char>)> {
    v.map_values(|p: (String, String)| (p.0@, p.1@))
}

/// Coerces a mapping's entries into text pairs.
fn coerce_map(
    es: &Vec<(String, ConfigValue)>,
    key: &str,
    section: &str,
) -> (r: Result<Vec<(String, String)>, AppError>)
    ensures
        entries_coercible(es@) ==> (r matches Ok(v) && pairs_view(v@) == coerced_entries(es@)),
        !entries_coercible(es@) ==> (r matches Err(e) && e matches AppError::Config(m) && m@
            == not_scalar_msg(key@, section@)),
{
    let mut out: Vec<(String, String)> = Vec::new();
    let mut i: usize = 0;
    while i < es.len()
        invariant
            i <= es@.len(),
            out@.len() == i,
            forall|j: int| 0 <= j < i ==> coerce_scalar(#[trigger] es@[j].1) is Some,
            forall|j: int|
                0 <= j < i ==> (#[trigger] out@[j]).0@ == es@[j].0@ && out@[j].1@ == coerce_scalar(
                    es@[j].1,
                ).unwrap(),
        decreases es@.len() - i,
    {
        let e = &es[i];
        match &e.1 {
            ConfigValue::Str(s) => out.push((e.0.clone(), s.clone())),
            ConfigValue::Int(n) => out.push((e.0.clone(), i64_digits(*n))),
            ConfigValue::Mapping(_) => {
                return Err(error(
                    join5("Key '", key, "' in Section '", section, "' is not a hash of scalars")
                        .as_str(),
                ));
            },
        }
        i += 1;
    }
    proof {
        assert(pairs_view(out@) =~= coerced_entries(es@));
    }
    Ok(out)
}

impl<'a> SectionParser<'a> {
    /// The section's mapping value as this view sees it.
    pub open spec fn conf_val(self) -> Option<ConfigValue> {
        match self.conf {
            Option::Some(c) => Option::Some(*c),
            Option::None => Option::None,
        }
    }

    /// Reads one raw value; absence of the section or of the key is a
    /// configuration error naming the key and the section.
    fn get(&self, key: &str) -> (r: Result<&'a ConfigValue, AppError>)
        ensures
            spec_get(self.conf_val(), key@) matches Looked::Found(v) ==> (r matches Ok(p) && *p
                == v),
            spec_get(self.conf_val(), key@) is Missing ==> (r matches Err(e) && e
                matches AppError::Config(m) && m@ == missing_key_msg(key@, self.name@)),
            spec_get(self.conf_val(), key@) is NotHash ==> (r matches Err(e) && e
                matches AppError::Config(m) && m@ == section_not_hash_msg(self.name@)),
    {
        match self.conf {
            Option::None => Err(error(
                join5("Missing key '", key, "' in section '", self.name, "'").as_str(),
            )),
            Option::Some(c) => match c {
                ConfigValue::Mapping(entries) => match find(entries, key) {
                    Option::Some(v) => Ok(v),
                    Option::None => Err(error(
                        join5("Missing key '", key, "' in section '", self.name, "'").as_str(),
                    )),
                },
                _ => Err(error(join3("Section '", self.name, "' is not a hash").as_str())),
            },
        }
    }

    /// Reads a required string value.
    pub fn get_str(&self, key: &str) -> (r: Result<String, AppError>)
        ensures
            spec_get_str(self.conf_val(), key@, self.name@) matches StrLookup::Found(t) ==> (r
                matches Ok(v) && v@ == t),
            spec_get_str(self.conf_val(), key@, self.name@) matches StrLookup::Fail(m) ==> (r
                matches Err(e) && e matches AppError::Config(mm) && mm@ == m),
    {
        match self.get(key) {
            Err(e) => Err(e),
            Ok(v) => match v {
                ConfigValue::Str(s) => Ok(s.clone()),
                _ => Err(error(
                    join5("Key '", key, "' in Section '", self.name, "' is not a string").as_str(),
                )),
            },
        }
    }

    /// Reads a string value, falling back to a default when it cannot be read.
    pub fn get_str_or(&self, key: &str, default: &str) -> (r: String)
        ensures
            r@ == spec_get_str_or(self.conf_val(), key@, self.name@, default@),
    {
        match self.get_str(key) {
            Ok(s) => s,
            Err(_) => default.to_owned(),
        }
    }

    /// Reads a string value, with absence as a first-class value.
    pub fn get_str_or_none(&self, key: &str) -> (r: Option<String>)
        ensures
            spec_get_str(self.conf_val(), key@, self.name@) matches StrLookup::Found(t) ==> (r
                matches Some(v) && v@ == t),
            spec_get_str(self.conf_val(), key@, self.name@) is Fail ==> r is None,
    {
        match self.get_str(key) {
            Ok(s) => Some(s),
            Err(_) => None,
        }
    }

    /// Reads a required mapping value, coerced to text pairs.
    pub fn get_hash(&self, key: &str) -> (r: Result<Vec<(String, String)>, AppError>)
        ensures
            spec_get_hash(self.conf_val(), key@, self.name@) matches MapLookup::Found(t) ==> (r
                matches Ok(v) && pairs_view(v@) == t),
            spec_get_hash(self.conf_val(), key@, self.name@) matches MapLookup::Fail(m) ==> (r
                matches Err(e) && e matches AppError::Config(mm) && mm@ == m),
    {
        match self.get(key) {
            Err(e) => Err(e),
            Ok(v) => match v {
                ConfigValue::Mapping(es) => coerce_map(es, key, self.name),
                _ => Err(error(
                    join5("Key '", key, "' in Section '", self.name, "' is not a hash").as_str(),
                )),
            },
        }
    }

    /// Reads a mapping value, swallowing every failure into absence.
    pub fn get_hash_or_none(&self, key: &str) -> (r: Option<Vec<(String, String)>>)
        ensures
            spec_get_hash(self.conf_val(), key@, self.name@) matches MapLookup::Found(t) ==> (r
                matches Some(v) && pairs_view(v@) == t),
            spec_get_hash(self.conf_val(), key@, self.name@) is Fail ==> r is None,
    {
        match self.get_hash(key) {
            Ok(v) => Some(v),
            Err(_) => None,
        }
    }

    /// Reads an optional mapping value: a genuinely absent key is absence,
    /// while a present but malformed one is a configuration error.
    pub fn get_hash_if_present(&self, key: &str) -> (r: Result<
        Option<Vec<(String, String)>>,
        AppError,
    >)
        ensures
            spec_get(self.conf_val(), key@) is Missing ==> (r matches Ok(o) && o is None),
            spec_get_hash(self.conf_val(), key@, self.name@) matches MapLookup::Found(t) ==> (r
                matches Ok(o) && o matches Some(v) && pairs_view(v@) == t),
            !(spec_get(self.conf_val(), key@) is Missing) ==> (spec_get_hash(
                self.conf_val(),
                key@,
                self.name@,
            ) matches MapLookup::Fail(m) ==> (r matches Err(e) && e matches AppError::Config(mm)
                && mm@ == m)),
    {
        match self.conf {
            Option::None => Ok(None),
            Option::Some(c) => match c {
                ConfigValue::Mapping(entries) => match find(entries, key) {
                    Option::None => Ok(None),
                    Option::Some(v) => match v {
                        ConfigValue::Mapping(es) => match coerce_map(es, key, self.name) {
                            Ok(pairs) => Ok(Some(pairs)),
                            Err(e) => Err(e),
                        },
                        _ => Err(error(
                            join5("Key '", key, "' in Section '", self.name, "' is not a hash")
                                .as_str(),
                        )),
                    },
                },
                _ => Err(error(join3("Section '", self.name, "' is not a hash").as_str())),
            },
        }
    }

    /// Reads a required integer value.
    pub fn get_i64(&self, key: &str) -> (r: Result<i64, AppError>)
        ensures
            spec_get_i64(self.conf_val(), key@, self.name@) matches IntLookup::Found(t) ==> r
                == Ok::<i64, AppError>(t),
            spec_get_i64(self.conf_val(), key@, self.name@) matches IntLookup::Fail(m) ==> (r
                matches Err(e) && e matches AppError::Config(mm) && mm@ == m),
    {
        match self.get(key) {
            Err(e) => Err(e),
            Ok(v) => match v {
                ConfigValue::Int(i) => Ok(*i),
                _ => Err(error(
                    join5("Value '", key, "' in section '", self.name, "' must be an integer")
                        .as_str(),
                )),
            },
        }
    }

    /// Reads an integer value, falling back to a default.
    pub fn get_i64_or(&self, key: &str, default: i64) -> (r: i64)
        ensures
            spec_get_i64(self.conf_val(), key@, self.name@) matches IntLookup::Found(t) ==> r == t,
            spec_get_i64(self.conf_val(), key@, self.name@) is Fail ==> r == default,
    {
        match self.get_i64(key) {
            Ok(i) => i,
            Err(_) => default,
        }
    }

    /// Reads an integer value, with absence as a first-class value.
    pub fn get_i64_or_none(&self, key: &str) -> (r: Option<i64>)
        ensures
            spec_get_i64(self.conf_val(), key@, self.name@) matches IntLookup::Found(t) ==> r
                == Some::<i64>(t),
            spec_get_i64(self.conf_val(), key@, self.name@) is Fail ==> r is None,
    {
        match self.get_i64(key) {
            Ok(i) => Some(i),
            Err(_) => None,
        }
    }
}

} // verus!
