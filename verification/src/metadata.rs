//! Decoding of a player's metadata map into typed fields.
//!
//! The transport hands the map over as key/value pairs whose values carry a
//! type signature; this module models those values as [`MetaValue`] and
//! extracts the well-known fields, reporting a typed error whenever a field
//! is present with the wrong kind of value.

use vstd::prelude::*;

use crate::errors::MetadataError;
use crate::errors::MprisError;
use crate::errors::MprisResult;
use crate::text::str_eq;

verus! {

/// One decoded metadata value: the kinds of payload the well-known fields
/// use, plus a catch-all that keeps only the payload's type signature.
#[derive(Debug, PartialEq)]
pub enum MetaValue {
    /// A string value (signature `s`).
    Str(String),
    /// An object-path value (signature `o`).
    ObjectPath(String),
    /// A signed 64-bit integer (signature `x`).
    I64(i64),
    /// An unsigned 64-bit integer (signature `t`).
    U64(u64),
    /// An array; the second field is the array's own type signature.
    Array(Vec<MetaValue>, String),
    /// Any other payload, kept as its type signature.
    Other(String),
}

/// The type signature of a metadata value.
pub open spec fn spec_sig(v: MetaValue) -> Seq<char> {
    match v {
        MetaValue::Str(_) => "s"@,
        MetaValue::ObjectPath(_) => "o"@,
        MetaValue::I64(_) => "x"@,
        MetaValue::U64(_) => "t"@,
        MetaValue::Array(_, sig) => sig@,
        MetaValue::Other(sig) => sig@,
    }
}

impl MetaValue {
    /// Gets the type signature of this value as text.
    pub fn sig_text(&self) -> (r: String)
        ensures
            r@ == spec_sig(*self),
    {
        match self {
            MetaValue::Str(_) => "s".to_owned(),
            MetaValue::ObjectPath(_) => "o".to_owned(),
            MetaValue::I64(_) => "x".to_owned(),
            MetaValue::U64(_) => "t".to_owned(),
            MetaValue::Array(_, sig) => sig.clone(),
            MetaValue::Other(sig) => sig.clone(),
        }
    }
}

/// The value stored under `key`, taking the first matching pair.
pub open spec fn lookup_field(entries: Seq<(String, MetaValue)>, key: Seq<char>) -> Option<
    MetaValue,
>
    decreases entries.len(),
{
    if entries.len() == 0 {
        None
    } else if entries[0].0@ == key {
        Some(entries[0].1)
    } else {
        lookup_field(entries.drop_first(), key)
    }
}

/// A track identifier read from the metadata.
#[derive(Debug, Clone, PartialEq)]
pub struct TrackId(String);

impl TrackId {
    /// The identifier's text.
    pub closed spec fn spec_str(&self) -> Seq<char> {
        self.0@
    }

    /// Gets the identifier as a string slice.
    pub fn as_ref(&self) -> (r: &str)
        ensures
            r@ == self.spec_str(),
    {
        self.0.as_str()
    }
}

/// The string elements of an array of metadata values, in order; elements of
/// any other kind are passed over.
pub open spec fn str_items(elems: Seq<MetaValue>) -> Seq<Seq<char>>
    decreases elems.len(),
{
    if elems.len() == 0 {
        Seq::empty()
    } else {
        let rest = str_items(elems.drop_first());
        match elems[0] {
            MetaValue::Str(s) => seq![s@] + rest,
            _ => rest,
        }
    }
}

/// Appending one element extends the string items by that element's text
/// when it is a string, and by nothing otherwise.
proof fn lemma_str_items_push(elems: Seq<MetaValue>, v: MetaValue)
    ensures
        str_items(elems.push(v)) == str_items(elems) + (match v {
            MetaValue::Str(s) => seq![s@],
            _ => Seq::<Seq<char>>::empty(),
        }),
    decreases elems.len(),
{
    let pushed = elems.push(v);
    if elems.len() == 0 {
        assert(pushed.drop_first() =~= Seq::<MetaValue>::empty());
        assert(pushed[0] == v);
        assert(str_items(elems) =~= Seq::<Seq<char>>::empty());
        assert(str_items(pushed.drop_first()) =~= Seq::<Seq<char>>::empty());
        match v {
            MetaValue::Str(s) => {
                assert(str_items(pushed) =~= str_items(elems) + seq![s@]);
            },
            _ => {
                assert(str_items(pushed) =~= str_items(elems));
            },
        }
    } else {
        assert(pushed.drop_first() =~= elems.drop_first().push(v));
        lemma_str_items_push(elems.drop_first(), v);
        match elems[0] {
            MetaValue::Str(s) => {
                assert(str_items(pushed) =~= str_items(elems) + (match v {
                    MetaValue::Str(t) => seq![t@],
                    _ => Seq::<Seq<char>>::empty(),
                }));
            },
            _ => {},
        }
    }
}

/// The metadata of one media-player endpoint, as key/value pairs. When a key
/// occurs more than once, the first pair counts.
#[derive(Debug)]
pub struct PlayerMetadata {
    entries: Vec<(String, MetaValue)>,
}

impl PlayerMetadata {
    /// The key/value pairs held.
    pub closed spec fn spec_entries(&self) -> Seq<(String, MetaValue)> {
        self.entries@
    }

    /// The value stored under `key`.
    pub open spec fn spec_field(&self, key: Seq<char>) -> Option<MetaValue> {
        lookup_field(self.spec_entries(), key)
    }

    /// Creates metadata from decoded key/value pairs.
    pub fn new(entries: Vec<(String, MetaValue)>) -> (r: PlayerMetadata)
        ensures
            r.spec_entries() == entries@,
    {
        PlayerMetadata { entries }
    }

    /// Gets the value stored under `key`, if any.
    fn field(&self, key: &str) -> (r: Option<&MetaValue>)
        ensures
            match self.spec_field(key@) {
                Some(v) => r matches Some(f) && *f == v,
                None => r is None,
            },
    {
        let n = self.entries.len();
        let mut i: usize = 0;
        while i < n
            invariant
                i <= n,
                n == self.entries@.len(),
                forall|j: int| 0 <= j < i ==> self.entries@[j].0@ != key@,
            decreases n - i,
        {
            if str_eq(self.entries[i].0.as_str(), key) {
                proof {
                    lemma_lookup_field_found(self.entries@, key@, i as int);
                }
                return Some(&self.entries[i].1);
            }
            i += 1;
        }
        proof {
            lemma_lookup_field_none(self.entries@, key@);
        }
        None
    }

    /// The track identifier under `mpris:trackid`: a string or object-path
    /// value; any other kind is a type error, and an absent field is `None`.
    pub fn track_id(&self) -> (r: MprisResult<Option<TrackId>>)
        ensures
            match self.spec_field("mpris:trackid"@) {
                None => r == Ok::<Option<TrackId>, MprisError>(None),
                Some(v) => match v {
                    MetaValue::Str(s) => (r matches Ok(Some(t)) && t.spec_str() == s@),
                    MetaValue::ObjectPath(s) => (r matches Ok(Some(t)) && t.spec_str() == s@),
                    _ => is_field_type_error(r, "mpris:trackid"@, "s or o"@, spec_sig(v)),
                },
            },
    {
        match self.field("mpris:trackid") {
            None => Ok(None),
            Some(MetaValue::Str(s)) => Ok(Some(TrackId(s.clone()))),
            Some(MetaValue::ObjectPath(s)) => Ok(Some(TrackId(s.clone()))),
            Some(v) => Err(field_type_error("mpris:trackid", "s or o", v)),
        }
    }

    /// The track title under `xesam:title`: a string value.
    pub fn title(&self) -> (r: MprisResult<Option<String>>)
        ensures
            string_field_post(r, self.spec_field("xesam:title"@), "xesam:title"@),
    {
        match self.field("xesam:title") {
            None => Ok(None),
            Some(MetaValue::Str(s)) => Ok(Some(s.clone())),
            Some(v) => Err(field_type_error("xesam:title", "s", v)),
        }
    }

    /// The album name under `xesam:album`: a string value.
    pub fn album(&self) -> (r: MprisResult<Option<String>>)
        ensures
            string_field_post(r, self.spec_field("xesam:album"@), "xesam:album"@),
    {
        match self.field("xesam:album") {
            None => Ok(None),
            Some(MetaValue::Str(s)) => Ok(Some(s.clone())),
            Some(v) => Err(field_type_error("xesam:album", "s", v)),
        }
    }

    /// The artists under `xesam:artist`: an array value whose string
    /// elements are returned in order, passing over elements of other kinds.
    pub fn artists(&self) -> (r: MprisResult<Option<Vec<String>>>)
        ensures
            match self.spec_field("xesam:artist"@) {
                None => r == Ok::<Option<Vec<String>>, MprisError>(None),
                Some(v) => match v {
                    MetaValue::Array(elems, _) => (r matches Ok(Some(names))
                        && names.deep_view() == str_items(elems@)),
                    _ => is_field_type_error(r, "xesam:artist"@, "as"@, spec_sig(v)),
                },
            },
    {
        match self.field("xesam:artist") {
            None => Ok(None),
            Some(MetaValue::Array(elems, _)) => {
                let n = elems.len();
                let mut names: Vec<String> = Vec::new();
                let mut i: usize = 0;
                while i < n
                    invariant
                        i <= n,
                        n == elems@.len(),
                        names.deep_view() == str_items(elems@.take(i as int)),
                    decreases n - i,
                {
                    proof {
                        lemma_str_items_push(elems@.take(i as int), elems@[i as int]);
                        assert(elems@.take(i + 1) =~= elems@.take(i as int).push(
                            elems@[i as int],
                        ));
                    }
                    match &elems[i] {
                        MetaValue::Str(s) => {
                            names.push(s.clone());
                            proof {
                                assert(names.deep_view() =~= str_items(elems@.take(i + 1)));
                            }
                        },
                        _ => {
                            proof {
                                assert(names.deep_view() =~= str_items(elems@.take(i + 1)));
                            }
                        },
                    }
                    i += 1;
                }
                proof {
                    assert(elems@.take(n as int) =~= elems@);
                }
                Ok(Some(names))
            },
            Some(v) => Err(field_type_error("xesam:artist", "as", v)),
        }
    }

    /// The track length under `mpris:length`, in microseconds: a signed or
    /// unsigned 64-bit value; a signed one is cast to unsigned.
    pub fn length(&self) -> (r: MprisResult<Option<u64>>)
        ensures
            match self.spec_field("mpris:length"@) {
                None => r == Ok::<Option<u64>, MprisError>(None),
                Some(v) => match v {
                    MetaValue::I64(l) => r == Ok::<Option<u64>, MprisError>(Some(l as u64)),
                    MetaValue::U64(l) => r == Ok::<Option<u64>, MprisError>(Some(l)),
                    _ => is_field_type_error(r, "mpris:length"@, "x or u64"@, spec_sig(v)),
                },
            },
    {
        match self.field("mpris:length") {
            None => Ok(None),
            Some(MetaValue::I64(l)) => Ok(Some(*l as u64)),
            Some(MetaValue::U64(l)) => Ok(Some(*l)),
            Some(v) => Err(field_type_error("mpris:length", "x or u64", v)),
        }
    }

    /// The artwork location under `mpris:artUrl`: a string value.
    pub fn art_url(&self) -> (r: MprisResult<Option<String>>)
        ensures
            string_field_post(r, self.spec_field("mpris:artUrl"@), "mpris:artUrl"@),
    {
        match self.field("mpris:artUrl") {
            None => Ok(None),
            Some(MetaValue::Str(s)) => Ok(Some(s.clone())),
            Some(v) => Err(field_type_error("mpris:artUrl", "s", v)),
        }
    }
}

/// What reading a string-typed field must return: the stored text when the
/// field holds a string, nothing when it is absent, and a type error naming
/// the field otherwise.
pub open spec fn string_field_post(
    r: MprisResult<Option<String>>,
    stored: Option<MetaValue>,
    field: Seq<char>,
) -> bool {
    match stored {
        None => r matches Ok(o) && o is None,
        Some(v) => match v {
            MetaValue::Str(s) => (r matches Ok(Some(t)) && t@ == s@),
            _ => is_field_type_error(r, field, "s"@, spec_sig(v)),
        },
    }
}

/// True when `r` is exactly the type error for `field` expecting `expected`
/// but finding a value whose signature is `got`.
pub open spec fn is_field_type_error<T>(
    r: MprisResult<T>,
    field: Seq<char>,
    expected: Seq<char>,
    got: Seq<char>,
) -> bool {
    r matches Err(MprisError::MetadataErr(MetadataError::MetadataInvalidFieldType {
        field: f,
        expected: e,
        got: g,
    })) && f@ == field && e@ == expected && g@ == got
}

/// Builds the type error for a field that held a value of the wrong kind.
fn field_type_error(field: &str, expected: &str, v: &MetaValue) -> (r: MprisError)
    ensures
        (r matches MprisError::MetadataErr(MetadataError::MetadataInvalidFieldType {
            field: f,
            expected: e,
            got: g,
        }) && f@ == field@ && e@ == expected@ && g@ == spec_sig(*v)),
{
    MprisError::MetadataErr(
        MetadataError::MetadataInvalidFieldType {
            field: field.to_owned(),
            expected: expected.to_owned(),
            got: v.sig_text(),
        },
    )
}

/// When index `i` holds the first pair whose key is `key`, the lookup
/// returns that pair's value.
proof fn lemma_lookup_field_found(entries: Seq<(String, MetaValue)>, key: Seq<char>, i: int)
    requires
        0 <= i < entries.len(),
        entries[i].0@ == key,
        forall|j: int| 0 <= j < i ==> entries[j].0@ != key,
    ensures
        lookup_field(entries, key) == Some(entries[i].1),
    decreases entries.len(),
{
    if i > 0 {
        assert forall|j: int| 0 <= j < i - 1 implies entries.drop_first()[j].0@ != key by {
            assert(entries.drop_first()[j] == entries[j + 1]);
        }
        assert(entries.drop_first()[i - 1] == entries[i]);
        lemma_lookup_field_found(entries.drop_first(), key, i - 1);
    }
}

/// When no pair's key is `key`, the lookup returns nothing.
proof fn lemma_lookup_field_none(entries: Seq<(String, MetaValue)>, key: Seq<char>)
    requires
        forall|j: int| 0 <= j < entries.len() ==> entries[j].0@ != key,
    ensures
        lookup_field(entries, key) is None,
    decreases entries.len(),
{
    if entries.len() > 0 {
        assert forall|j: int| 0 <= j < entries.drop_first().len() implies entries.drop_first()[j].0@
            != key by {
            assert(entries.drop_first()[j] == entries[j + 1]);
        }
        lemma_lookup_field_none(entries.drop_first(), key);
    }
}

} // verus!
