//! The front matter's YAML data as plain values, and typed reads of its fields.
use vstd::prelude::*;
use crate::errors::Error;

verus! {

#[verifier::external_type_specification]
#[verifier::external_body]
pub struct ExPod(gray_matter::Pod);

/// A scalar YAML value. Floating-point numbers and nested structures are not
/// read and stand as `Other`.
#[derive(Clone, Debug)]
pub enum YamlScalar {
    Null,
    Text(String),
    Integer(i64),
    Boolean(bool),
    Other,
}

/// The value of a front-matter field: a scalar or a list of scalars.
#[derive(Clone, Debug)]
pub enum YamlValue {
    Scalar(YamlScalar),
    List(Vec<YamlScalar>),
}

/// A front-matter block's data: a mapping, as its keys and the values at the
/// same positions.
#[derive(Clone, Debug)]
pub struct FrontMatterData {
    pub keys: Vec<String>,
    pub values: Vec<YamlValue>,
}

/// Relies on the scalar variants of gray_matter's `Pod`, taken over one for one.
#[verifier::external_body]
fn scalar_of(p: &gray_matter::Pod) -> YamlScalar {
    match p {
        gray_matter::Pod::Null => YamlScalar::Null,
        gray_matter::Pod::String(s) => YamlScalar::Text(s.clone()),
        gray_matter::Pod::Integer(i) => YamlScalar::Integer(*i),
        gray_matter::Pod::Boolean(b) => YamlScalar::Boolean(*b),
        _ => YamlScalar::Other,
    }
}

/// Relies on gray_matter's `Pod::Array` variant: its items, one for one.
#[verifier::external_body]
fn value_of(p: &gray_matter::Pod) -> YamlValue {
    match p {
        gray_matter::Pod::Array(v) => YamlValue::List(v.iter().map(scalar_of).collect()),
        _ => YamlValue::Scalar(scalar_of(p)),
    }
}

/// The fields of a front-matter block's YAML data: none where the block holds
/// no data, `Some(None)` where the data is not a mapping, and otherwise the
/// mapping from each key to its value.
pub uninterp spec fn front_matter_fields(block: Seq<char>) -> Option<Option<Map<Seq<char>, YamlValue>>>;

/// What a front-matter block's YAML data holds.
#[derive(Clone, Debug)]
pub enum FrontMatter {
    /// The block holds no YAML data.
    Absent,
    /// The data is not a mapping.
    NotMapping,
    /// The data is a mapping with these fields.
    Fields(FrontMatterData),
}

/// Relies on gray_matter's `Matter::<YAML>::parse` and the variants of its
/// `Pod`: the data depends on the block alone, and a `Pod::Hash` has one
/// entry per key (its entries come in no set order).
#[verifier::external_body]
fn front_matter_data(block: &str) -> (r: FrontMatter)
    ensures
        r is Absent ==> front_matter_fields(block@) is None,
        r is NotMapping ==> front_matter_fields(block@) == Some(None::<Map<Seq<char>, YamlValue>>),
        r matches FrontMatter::Fields(d) ==> front_matter_fields(block@) == Some(Some(fields_of(d))),
{
    match gray_matter::Matter::<gray_matter::engine::YAML>::new().parse(block).data {
        None => FrontMatter::Absent,
        Some(gray_matter::Pod::Hash(m)) => {
            let (keys, values) = m.iter().map(|(k, v)| (k.clone(), value_of(v))).unzip();
            FrontMatter::Fields(FrontMatterData { keys, values })
        },
        Some(_) => FrontMatter::NotMapping,
    }
}

/// Reads the YAML data of a front-matter block.
pub fn parse_front_matter(block: &str) -> (r: FrontMatter)
    ensures
        r is Absent <==> front_matter_fields(block@) is None,
        r is NotMapping <==> front_matter_fields(block@) == Some(None::<Map<Seq<char>, YamlValue>>),
        r matches FrontMatter::Fields(d) ==> front_matter_fields(block@) == Some(Some(fields_of(d))),
{
    front_matter_data(block)
}

/// The mapping that the entries from position `i` on give: the first entry
/// of a key decides its value.
pub open spec fn fields_from(keys: Seq<String>, values: Seq<YamlValue>, i: int) -> Map<Seq<char>, YamlValue>
    decreases keys.len() - i,
{
    if i < 0 || i >= keys.len() || i >= values.len() {
        Map::empty()
    } else {
        fields_from(keys, values, i + 1).insert(keys[i]@, values[i])
    }
}

/// The mapping that a front-matter block's data holds.
pub open spec fn fields_of(d: FrontMatterData) -> Map<Seq<char>, YamlValue> {
    fields_from(d.keys@, d.values@, 0)
}

/// The value of the first entry at or after `i` whose key is `key`.
pub open spec fn lookup_from(
    keys: Seq<String>,
    values: Seq<YamlValue>,
    key: Seq<char>,
    i: int,
) -> Option<YamlValue>
    decreases keys.len() - i,
{
    if i < 0 || i >= keys.len() || i >= values.len() {
        None
    } else if keys[i]@ == key {
        Some(values[i])
    } else {
        lookup_from(keys, values, key, i + 1)
    }
}

proof fn lemma_lookup_is_get(keys: Seq<String>, values: Seq<YamlValue>, key: Seq<char>, i: int)
    requires
        0 <= i,
    ensures
        lookup_from(keys, values, key, i) == fields_from(keys, values, i).get(key),
    decreases keys.len() - i,
{
    if !(i >= keys.len() || i >= values.len()) {
        lemma_lookup_is_get(keys, values, key, i + 1);
    }
}

/// The value of field `key` of a mapping.
pub open spec fn field(m: Map<Seq<char>, YamlValue>, key: Seq<char>) -> Option<YamlValue> {
    m.get(key)
}

/// The text of field `key`, where it is text.
pub open spec fn text_field(m: Map<Seq<char>, YamlValue>, key: Seq<char>) -> Option<Seq<char>> {
    match field(m, key) {
        Some(YamlValue::Scalar(YamlScalar::Text(s))) => Some(s@),
        _ => None,
    }
}

/// The flag of field `key`: false where it is absent, none where it is
/// present but not a boolean.
pub open spec fn flag_field(m: Map<Seq<char>, YamlValue>, key: Seq<char>) -> Option<bool> {
    match field(m, key) {
        None => Some(false),
        Some(YamlValue::Scalar(YamlScalar::Boolean(b))) => Some(b),
        _ => None,
    }
}

/// The number of field `key`, where it is an integer from 0 to 65535.
pub open spec fn small_number_field(m: Map<Seq<char>, YamlValue>, key: Seq<char>) -> Option<u16> {
    match field(m, key) {
        Some(YamlValue::Scalar(YamlScalar::Integer(i))) => if 0 <= i <= 65535 {
            Some(i as u16)
        } else {
            None
        },
        _ => None,
    }
}

/// Every item of the list is text.
pub open spec fn all_text(v: Seq<YamlScalar>) -> bool {
    forall|i: int| 0 <= i < v.len() ==> (#[trigger] v[i]) is Text
}

/// The texts of a list of text items.
pub open spec fn texts(v: Seq<YamlScalar>) -> Seq<Seq<char>> {
    Seq::new(
        v.len(),
        |i: int|
            match v[i] {
                YamlScalar::Text(s) => s@,
                _ => Seq::empty(),
            },
    )
}

/// The texts of field `key`, where it is a list of text.
pub open spec fn text_list_field(m: Map<Seq<char>, YamlValue>, key: Seq<char>) -> Option<Seq<Seq<char>>> {
    match field(m, key) {
        Some(YamlValue::List(v)) => if all_text(v@) {
            Some(texts(v@))
        } else {
            None
        },
        _ => None,
    }
}

/// The value of field `key` of a mapping.
pub fn get_field<'a>(d: &'a FrontMatterData, key: &str) -> (r: Option<&'a YamlValue>)
    ensures
        r matches Some(v) ==> field(fields_of(*d), key@) == Some(*v),
        r is None ==> field(fields_of(*d), key@) is None,
{
    let keys = &d.keys;
    let values = &d.values;
    proof {
        lemma_lookup_is_get(keys@, values@, key@, 0);
    }
    let mut i: usize = 0;
    while i < keys.len() && i < values.len()
        invariant
            keys@ == d.keys@,
            values@ == d.values@,
            lookup_from(keys@, values@, key@, 0) == fields_from(keys@, values@, 0).get(key@),
            lookup_from(keys@, values@, key@, 0) == lookup_from(keys@, values@, key@, i as int),
        decreases keys@.len() - i,
    {
        if crate::text::same_text(keys[i].as_str(), key) {
            assert(lookup_from(keys@, values@, key@, i as int) == Some(values@[i as int]));
            return Some(&values[i]);
        }
        i = i + 1;
    }
    None
}

fn field_error(kind: &str, key: &str) -> (r: Error)
    ensures
        r is Undefined,
{
    let m = String::from_str(kind).concat(" field `").concat(key).concat("`");
    Error::Undefined(m)
}

/// The text of field `key`.
pub fn read_text(d: &FrontMatterData, key: &str) -> (r: Result<String, Error>)
    ensures
        r matches Ok(s) ==> text_field(fields_of(*d), key@) == Some(s@),
        r is Err ==> text_field(fields_of(*d), key@) is None,
        r matches Err(e) ==> e is Undefined,
{
    match get_field(d, key) {
        Some(YamlValue::Scalar(YamlScalar::Text(s))) => Ok(s.clone()),
        Some(_) => Err(field_error("invalid type for", key)),
        None => Err(field_error("missing", key)),
    }
}

/// The flag of field `key`, false where it is absent.
pub fn read_flag(d: &FrontMatterData, key: &str) -> (r: Result<bool, Error>)
    ensures
        r matches Ok(b) ==> flag_field(fields_of(*d), key@) == Some(b),
        r is Err ==> flag_field(fields_of(*d), key@) is None,
        r matches Err(e) ==> e is Undefined,
{
    match get_field(d, key) {
        None => Ok(false),
        Some(YamlValue::Scalar(YamlScalar::Boolean(b))) => Ok(*b),
        Some(_) => Err(field_error("invalid type for", key)),
    }
}

/// The number of field `key`, from 0 to 65535.
pub fn read_small_number(d: &FrontMatterData, key: &str) -> (r: Result<u16, Error>)
    ensures
        r matches Ok(n) ==> small_number_field(fields_of(*d), key@) == Some(n),
        r is Err ==> small_number_field(fields_of(*d), key@) is None,
        r matches Err(e) ==> e is Undefined,
{
    match get_field(d, key) {
        Some(YamlValue::Scalar(YamlScalar::Integer(i))) => if 0 <= *i && *i <= 65535 {
            Ok(*i as u16)
        } else {
            Err(field_error("out of range", key))
        },
        Some(_) => Err(field_error("invalid type for", key)),
        None => Err(field_error("missing", key)),
    }
}

/// The texts of field `key`, a list of text.
pub fn read_text_list(d: &FrontMatterData, key: &str) -> (r: Result<Vec<String>, Error>)
    ensures
        r matches Ok(v) ==> text_list_field(fields_of(*d), key@) == Some(v@.map_values(|s: String| s@)),
        r is Err ==> text_list_field(fields_of(*d), key@) is None,
        r matches Err(e) ==> e is Undefined,
{
    match get_field(d, key) {
        Some(YamlValue::List(items)) => {
            let mut out: Vec<String> = Vec::new();
            let mut i: usize = 0;
            while i < items.len()
                invariant
                    field(fields_of(*d), key@) matches Some(YamlValue::List(v)) && v@ == items@,
                    i <= items@.len(),
                    out@.len() == i,
                    forall|k: int| 0 <= k < i ==> (#[trigger] items@[k]) is Text,
                    out@.map_values(|s: String| s@) == texts(items@).subrange(0, i as int),
                decreases items@.len() - i,
            {
                match &items[i] {
                    YamlScalar::Text(s) => {
                        out.push(s.clone());
                    },
                    _ => {
                        assert(!(items@[i as int] is Text));
                        return Err(field_error("invalid item in", key));
                    },
                }
                i = i + 1;
                assert(out@.map_values(|s: String| s@) =~= texts(items@).subrange(0, i as int));
            }
            assert(texts(items@).subrange(0, i as int) =~= texts(items@));
            Ok(out)
        },
        Some(_) => Err(field_error("invalid type for", key)),
        None => Err(field_error("missing", key)),
    }
}

} // verus!
