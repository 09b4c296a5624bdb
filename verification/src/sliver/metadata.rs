//! The metadata document of a sliver (`meta.json`).

use vstd::prelude::*;
use vstd::string::StringExecFns;
use crate::text::str_eq;
use crate::sliver::format::FORMAT_VERSION;
use crate::sliver::error::SliverError;
use crate::sliver::json::{
    JsonValue, quoted, opt_quoted, string_members, pairs_view, push_text, push_quoted,
    push_opt_quoted, push_string_members, utf8_bytes, parse_json, json_parse,
};

verus! {

/// Descriptive data stored with a sliver.
#[derive(Debug)]
pub struct SliverMetadata {
    /// Hostname of the app the snapshot belongs to.
    pub hostname: String,
    /// Runtime version that wrote the sliver.
    pub nano_version: String,
    /// Archive format version.
    pub format_version: String,
    /// Creation time, RFC 3339.
    pub created_at: String,
    /// Optional display name.
    pub name: Option<String>,
    /// Optional free-text description.
    pub description: Option<String>,
    /// Further key/value pairs.
    pub custom: Vec<(String, String)>,
}

/// The mathematical value of [`SliverMetadata`].
pub struct MetadataView {
    pub hostname: Seq<char>,
    pub nano_version: Seq<char>,
    pub format_version: Seq<char>,
    pub created_at: Seq<char>,
    pub name: Option<Seq<char>>,
    pub description: Option<Seq<char>>,
    pub custom: Seq<(Seq<char>, Seq<char>)>,
}

/// The view of an optional string.
pub open spec fn opt_view(o: Option<String>) -> Option<Seq<char>> {
    match o {
        Some(s) => Some(s@),
        None => None,
    }
}

impl View for SliverMetadata {
    type V = MetadataView;

    open spec fn view(&self) -> MetadataView {
        MetadataView {
            hostname: self.hostname@,
            nano_version: self.nano_version@,
            format_version: self.format_version@,
            created_at: self.created_at@,
            name: opt_view(self.name),
            description: opt_view(self.description),
            custom: pairs_view(self.custom@),
        }
    }
}

/// Whether `i` is the first index of `key` in a list of pairs.
pub open spec fn first_key_at(m: Seq<(Seq<char>, Seq<char>)>, key: Seq<char>, i: int) -> bool {
    0 <= i < m.len() && m[i].0 == key && forall|j: int| 0 <= j < i ==> m[j].0 != key
}

/// The first index of `key` in a list of pairs, if it occurs.
pub open spec fn key_index(m: Seq<(Seq<char>, Seq<char>)>, key: Seq<char>) -> Option<int> {
    if exists|i: int| first_key_at(m, key, i) {
        Some(choose|i: int| first_key_at(m, key, i))
    } else {
        None
    }
}

/// The pairs after setting `key` to `value`: an existing pair is updated in
/// place, otherwise the pair is appended.
pub open spec fn set_pair(m: Seq<(Seq<char>, Seq<char>)>, key: Seq<char>, value: Seq<char>) -> Seq<
    (Seq<char>, Seq<char>),
> {
    match key_index(m, key) {
        Some(i) => m.update(i, (key, value)),
        None => m.push((key, value)),
    }
}

/// The JSON text of a metadata value: one object with the fields in a fixed
/// order, `null` for absent optional fields and an object for `custom`.
pub open spec fn metadata_text(m: MetadataView) -> Seq<char> {
    "{\"hostname\":"@ + quoted(m.hostname) + ",\"nano_version\":"@ + quoted(m.nano_version)
        + ",\"format_version\":"@ + quoted(m.format_version) + ",\"created_at\":"@ + quoted(
        m.created_at,
    ) + ",\"name\":"@ + opt_quoted(m.name) + ",\"description\":"@ + opt_quoted(m.description)
        + ",\"custom\":{"@ + string_members(m.custom) + "}}"@
}

/// The value of the first member named `key` of a JSON object.
pub open spec fn member(obj: Seq<(String, JsonValue)>, key: Seq<char>) -> Option<JsonValue>
    decreases obj.len(),
{
    if obj.len() == 0 {
        None
    } else if obj[0].0@ == key {
        Some(obj[0].1)
    } else {
        member(obj.drop_first(), key)
    }
}

/// A required string member: `None` when absent or not a string.
pub open spec fn string_member(obj: Seq<(String, JsonValue)>, key: Seq<char>) -> Option<Seq<char>> {
    match member(obj, key) {
        Some(JsonValue::Str(s)) => Some(s@),
        _ => None,
    }
}

/// An optional string member: `Some(None)` when absent or `null`,
/// `Some(Some(s))` for a string, `None` for any other value.
pub open spec fn optional_member(obj: Seq<(String, JsonValue)>, key: Seq<char>) -> Option<
    Option<Seq<char>>,
> {
    match member(obj, key) {
        None => Some(None),
        Some(JsonValue::Null) => Some(None),
        Some(JsonValue::Str(s)) => Some(Some(s@)),
        _ => None,
    }
}

/// The pairs of an object whose members are all strings, in order.
pub open spec fn string_pairs(obj: Seq<(String, JsonValue)>) -> Option<Seq<(Seq<char>, Seq<char>)>>
    decreases obj.len(),
{
    if obj.len() == 0 {
        Some(Seq::empty())
    } else {
        match (string_pairs(obj.drop_last()), obj.last().1) {
            (Some(p), JsonValue::Str(s)) => Some(p.push((obj.last().0@, s@))),
            _ => None,
        }
    }
}

/// The `custom` member: empty when absent, the pairs of an object of
/// strings, `None` otherwise.
pub open spec fn custom_member(obj: Seq<(String, JsonValue)>) -> Option<Seq<(Seq<char>, Seq<char>)>> {
    match member(obj, "custom"@) {
        None => Some(Seq::empty()),
        Some(JsonValue::Object(m)) => string_pairs(m@),
        _ => None,
    }
}

/// The metadata a JSON value describes, or `None` where it describes none.
/// Unknown members are ignored.
pub open spec fn metadata_of_json(v: JsonValue) -> Option<MetadataView> {
    match v {
        JsonValue::Object(obj) => {
            let o = obj@;
            match (
                string_member(o, "hostname"@),
                string_member(o, "nano_version"@),
                string_member(o, "format_version"@),
                string_member(o, "created_at"@),
                optional_member(o, "name"@),
                optional_member(o, "description"@),
                custom_member(o),
            ) {
                (Some(h), Some(nv), Some(fv), Some(c), Some(n), Some(d), Some(cu)) => Some(
                    MetadataView {
                        hostname: h,
                        nano_version: nv,
                        format_version: fv,
                        created_at: c,
                        name: n,
                        description: d,
                        custom: cu,
                    },
                ),
                _ => None,
            }
        },
        _ => None,
    }
}

/// The metadata read from a JSON text: `None` where the text is not JSON or
/// does not describe metadata.
pub open spec fn metadata_of_text(text: Seq<u8>) -> Option<MetadataView> {
    match json_parse(text) {
        Some(v) => metadata_of_json(v),
        None => None,
    }
}

/// The current time as an RFC 3339 text, from `chrono::Utc::now` and
/// `DateTime::to_rfc3339`. Nothing is promised of the text.
#[verifier::external_body]
fn now_rfc3339() -> String {
    chrono::Utc::now().to_rfc3339()
}

/// Finds the member named `key` in a JSON object.
fn find_member<'a>(obj: &'a Vec<(String, JsonValue)>, key: &str) -> (r: Option<&'a JsonValue>)
    ensures
        match r {
            Some(v) => member(obj@, key@) == Some(*v),
            None => member(obj@, key@) is None,
        },
{
    let mut i: usize = 0;
    assert(obj@.subrange(0, obj@.len() as int) =~= obj@);
    while i < obj.len()
        invariant
            i <= obj@.len(),
            member(obj@, key@) == member(obj@.subrange(i as int, obj@.len() as int), key@),
        decreases obj@.len() - i,
    {
        let ghost rest = obj@.subrange(i as int, obj@.len() as int);
        assert(rest.drop_first() =~= obj@.subrange(i + 1, obj@.len() as int));
        if str_eq(obj[i].0.as_str(), key) {
            return Some(&obj[i].1);
        }
        i = i + 1;
    }
    None
}

/// Reads a required string member.
fn read_string(obj: &Vec<(String, JsonValue)>, key: &str) -> (r: Result<String, SliverError>)
    ensures
        match r {
            Ok(s) => string_member(obj@, key@) == Some(s@),
            Err(e) => string_member(obj@, key@) is None && e is Json,
        },
{
    match find_member(obj, key) {
        Some(JsonValue::Str(s)) => Ok(s.clone()),
        _ => Err(SliverError::Json(String::from_str("metadata field missing or not a string"))),
    }
}

/// Reads an optional string member.
fn read_optional(obj: &Vec<(String, JsonValue)>, key: &str) -> (r: Result<Option<String>, SliverError>)
    ensures
        match r {
            Ok(o) => optional_member(obj@, key@) == Some(opt_view(o)),
            Err(e) => optional_member(obj@, key@) is None && e is Json,
        },
{
    match find_member(obj, key) {
        None => Ok(None),
        Some(JsonValue::Null) => Ok(None),
        Some(JsonValue::Str(s)) => Ok(Some(s.clone())),
        _ => Err(SliverError::Json(String::from_str("metadata field is not a string"))),
    }
}

/// Reads the pairs of an object of strings.
fn read_pairs(obj: &Vec<(String, JsonValue)>) -> (r: Result<Vec<(String, String)>, SliverError>)
    ensures
        match r {
            Ok(p) => string_pairs(obj@) == Some(pairs_view(p@)),
            Err(e) => string_pairs(obj@) is None && e is Json,
        },
{
    let mut out: Vec<(String, String)> = Vec::new();
    let mut i: usize = 0;
    while i < obj.len()
        invariant
            i <= obj@.len(),
            string_pairs(obj@.subrange(0, i as int)) == Some(pairs_view(out@)),
        decreases obj@.len() - i,
    {
        let ghost pre = obj@.subrange(0, i as int);
        let ghost next = obj@.subrange(0, i + 1);
        assert(next.drop_last() =~= pre);
        match &obj[i].1 {
            JsonValue::Str(s) => {
                out.push((obj[i].0.clone(), s.clone()));
                assert(pairs_view(out@) =~= pairs_view(out@.drop_last()).push(
                    (obj@[i as int].0@, s@),
                ));
            },
            _ => {
                proof {
                    lemma_string_pairs_stays_none(obj@, i as int + 1);
                }
                return Err(SliverError::Json(String::from_str("custom metadata value is not a string")));
            },
        }
        i = i + 1;
    }
    assert(obj@.subrange(0, obj@.len() as int) =~= obj@);
    Ok(out)
}

/// Once a prefix of an object has a non-string member, every longer prefix
/// has one too.
proof fn lemma_string_pairs_stays_none(obj: Seq<(String, JsonValue)>, k: int)
    requires
        0 < k <= obj.len(),
        string_pairs(obj.subrange(0, k)) is None,
    ensures
        string_pairs(obj) is None,
    decreases obj.len() - k,
{
    if k < obj.len() {
        assert(obj.subrange(0, k + 1).drop_last() =~= obj.subrange(0, k));
        lemma_string_pairs_stays_none(obj, k + 1);
    } else {
        assert(obj.subrange(0, k) =~= obj);
    }
}

impl SliverMetadata {
    /// Metadata for `hostname`, written by runtime `nano_version`, in the
    /// current format, created now, with no name, description or custom
    /// pairs.
    pub fn new(hostname: &str, nano_version: &str) -> (r: SliverMetadata)
        ensures
            r@.hostname == hostname@,
            r@.nano_version == nano_version@,
            r@.format_version == FORMAT_VERSION@,
            r@.name is None,
            r@.description is None,
            r@.custom.len() == 0,
    {
        SliverMetadata {
            hostname: hostname.to_owned(),
            nano_version: nano_version.to_owned(),
            format_version: String::from_str(FORMAT_VERSION),
            created_at: now_rfc3339(),
            name: None,
            description: None,
            custom: Vec::new(),
        }
    }

    /// Sets the custom pair `key` to `value`, replacing the value of an
    /// existing pair with that key.
    pub fn set_custom(&mut self, key: String, value: String)
        ensures
            final(self)@ == (MetadataView {
                custom: set_pair(old(self)@.custom, key@, value@),
                ..old(self)@
            }),
    {
        let ghost m = pairs_view(self.custom@);
        let mut i: usize = 0;
        while i < self.custom.len()
            invariant
                i <= self.custom@.len(),
                m == pairs_view(self.custom@),
                *self == *old(self),
                forall|j: int| 0 <= j < i ==> self.custom@[j].0@ != key@,
            decreases self.custom@.len() - i,
        {
            if str_eq(self.custom[i].0.as_str(), key.as_str()) {
                let ghost idx = i as int;
                proof {
                    assert(first_key_at(m, key@, idx));
                    let k = choose|k: int| first_key_at(m, key@, k);
                    assert(k == idx) by {
                        if k < idx {
                            assert(m[k].0 != key@);
                        }
                        if k > idx {
                            assert(m[idx].0 != key@);
                        }
                    }
                }
                assert(set_pair(m, key@, value@) == m.update(idx, (key@, value@)));
                let ghost kv = key@;
                let ghost vv = value@;
                self.custom.set(i, (key, value));
                assert(pairs_view(self.custom@) =~= m.update(idx, (kv, vv)));
                return;
            }
            i = i + 1;
        }
        assert forall|k: int| !first_key_at(m, key@, k) by {
            if 0 <= k < m.len() {
                assert(m[k].0 == self.custom@[k].0@);
            }
        }
        assert(set_pair(m, key@, value@) == m.push((key@, value@)));
        let ghost kv = key@;
        let ghost vv = value@;
        self.custom.push((key, value));
        assert(pairs_view(self.custom@) =~= m.push((kv, vv)));
    }

    /// The JSON text of this metadata, as UTF-8 bytes.
    pub fn to_json(&self) -> (r: Vec<u8>)
        ensures
            r@ == vstd::utf8::encode_utf8(metadata_text(self@)),
    {
        let mut out: Vec<char> = Vec::new();
        push_text(&mut out, "{\"hostname\":");
        push_quoted(&mut out, self.hostname.as_str());
        push_text(&mut out, ",\"nano_version\":");
        push_quoted(&mut out, self.nano_version.as_str());
        push_text(&mut out, ",\"format_version\":");
        push_quoted(&mut out, self.format_version.as_str());
        push_text(&mut out, ",\"created_at\":");
        push_quoted(&mut out, self.created_at.as_str());
        push_text(&mut out, ",\"name\":");
        push_opt_quoted(&mut out, &self.name);
        push_text(&mut out, ",\"description\":");
        push_opt_quoted(&mut out, &self.description);
        push_text(&mut out, ",\"custom\":{");
        push_string_members(&mut out, &self.custom);
        push_text(&mut out, "}}");
        assert(out@ =~= metadata_text(self@));
        let s = crate::text::string_from_chars(out.as_slice());
        utf8_bytes(s.as_str())
    }

    /// The metadata a JSON value describes.
    pub fn from_json_value(v: &JsonValue) -> (r: Result<SliverMetadata, SliverError>)
        ensures
            match r {
                Ok(m) => metadata_of_json(*v) == Some(m@),
                Err(e) => metadata_of_json(*v) is None && e is Json,
            },
    {
        match v {
            JsonValue::Object(obj) => {
                let hostname = read_string(obj, "hostname")?;
                let nano_version = read_string(obj, "nano_version")?;
                let format_version = read_string(obj, "format_version")?;
                let created_at = read_string(obj, "created_at")?;
                let name = read_optional(obj, "name")?;
                let description = read_optional(obj, "description")?;
                let custom = match find_member(obj, "custom") {
                    None => Vec::new(),
                    Some(JsonValue::Object(m)) => read_pairs(m)?,
                    Some(_) => {
                        return Err(SliverError::Json(String::from_str("custom metadata is not an object")));
                    },
                };
                let r = SliverMetadata {
                    hostname,
                    nano_version,
                    format_version,
                    created_at,
                    name,
                    description,
                    custom,
                };
                assert(pairs_view(Seq::<(String, String)>::empty()) =~= Seq::empty());
                Ok(r)
            },
            _ => Err(SliverError::Json(String::from_str("metadata is not a JSON object"))),
        }
    }

    /// The metadata read from a JSON text.
    pub fn from_json(text: &[u8]) -> (r: Result<SliverMetadata, SliverError>)
        ensures
            match r {
                Ok(m) => metadata_of_text(text@) == Some(m@),
                Err(e) => metadata_of_text(text@) is None && e is Json,
            },
    {
        match parse_json(text) {
            Some(v) => SliverMetadata::from_json_value(&v),
            None => Err(SliverError::Json(String::from_str("metadata is not valid JSON"))),
        }
    }
}

impl Clone for SliverMetadata {
    fn clone(&self) -> (r: Self)
        ensures
            r@ == self@,
    {
        let mut custom: Vec<(String, String)> = Vec::new();
        let mut i: usize = 0;
        while i < self.custom.len()
            invariant
                i <= self.custom@.len(),
                pairs_view(custom@) == pairs_view(self.custom@.subrange(0, i as int)),
            decreases self.custom@.len() - i,
        {
            let ghost before = custom@;
            let pair = (self.custom[i].0.clone(), self.custom[i].1.clone());
            custom.push(pair);
            assert(custom@ == before.push(pair));
            assert(pairs_view(custom@) =~= pairs_view(before).push((pair.0@, pair.1@)));
            assert(self.custom@.subrange(0, i + 1) =~= self.custom@.subrange(0, i as int).push(
                self.custom@[i as int],
            ));
            assert(pairs_view(self.custom@.subrange(0, i + 1)) =~= pairs_view(
                self.custom@.subrange(0, i as int),
            ).push((self.custom@[i as int].0@, self.custom@[i as int].1@)));
            i = i + 1;
        }
        assert(self.custom@.subrange(0, self.custom@.len() as int) =~= self.custom@);
        SliverMetadata {
            hostname: self.hostname.clone(),
            nano_version: self.nano_version.clone(),
            format_version: self.format_version.clone(),
            created_at: self.created_at.clone(),
            name: match &self.name {
                Some(s) => Some(s.clone()),
                None => None,
            },
            description: match &self.description {
                Some(s) => Some(s.clone()),
                None => None,
            },
            custom,
        }
    }
}

} // verus!
