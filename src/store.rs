//! The persisted default location: a small JSON document whose
//! `default_parameters` array holds the default city and country at index 0.
use vstd::prelude::*;

verus! {

/// serde_json's `Value`, carried through unread: the fields of the document
/// that this library does not use.
#[verifier::external_type_specification]
#[verifier::external_body]
pub struct ExJsonValue(serde_json::Value);

/// serde_json's `Map`, carried through unread, like `Value`.
#[verifier::external_type_specification]
#[verifier::external_body]
#[verifier::reject_recursive_types(K)]
#[verifier::reject_recursive_types(V)]
pub struct ExJsonMap<K, V>(serde_json::Map<K, V>);

/// The keys of a JSON object.
pub uninterp spec fn json_map_keys(m: serde_json::Map<String, serde_json::Value>) -> Set<Seq<char>>;

/// Relies on serde_json's `Map::new`, which makes an empty object.
pub assume_specification[ serde_json::Map::<String, serde_json::Value>::new ]() -> (r:
    serde_json::Map<String, serde_json::Value>)
    ensures
        json_map_keys(r) == Set::<Seq<char>>::empty(),
;

/// A city and a country code. Both empty means that no default is set.
pub struct LocationRecord {
    pub city: String,
    pub country: String,
}

/// Whether a city and a country are the sentinel of an unset default: both fields empty.
pub open spec fn is_unset(city: Seq<char>, country: Seq<char>) -> bool {
    city.len() == 0 && country.len() == 0
}

impl LocationRecord {
    /// Whether this record is the sentinel of an unset default.
    pub fn is_unset(&self) -> (r: bool)
        ensures
            r == is_unset(self.city@, self.country@),
    {
        self.city.as_str().unicode_len() == 0 && self.country.as_str().unicode_len() == 0
    }
}

/// One element of `default_parameters`, with whatever other fields it holds,
/// which are kept as they are.
pub struct StoredEntry {
    pub city: String,
    pub country: String,
    pub other: serde_json::Map<String, serde_json::Value>,
}

/// The whole configuration document, with whatever other top-level fields it
/// holds, which are kept as they are.
pub struct ConfigDocument {
    pub default_parameters: Vec<StoredEntry>,
    pub other: serde_json::Map<String, serde_json::Value>,
}

/// What stands at the configuration path.
pub enum ConfigFile {
    /// No file.
    Absent,
    /// A file that does not hold a configuration document.
    Corrupt,
    /// A file holding a configuration document.
    Present(ConfigDocument),
}

/// Why the configuration could not be read or written.
#[derive(Clone, Copy, Debug, PartialEq, Eq, Structural)]
pub enum StoreError {
    /// There is no configuration file.
    Missing,
    /// The file does not hold a configuration document.
    Corrupt,
    /// The document holds no default location.
    Empty,
}

/// The document written when no configuration exists: one entry with an
/// empty city and an empty country, and no other field anywhere.
pub open spec fn is_bootstrap_document(d: ConfigDocument) -> bool {
    &&& d.default_parameters@.len() == 1
    &&& is_unset(d.default_parameters@[0].city@, d.default_parameters@[0].country@)
    &&& json_map_keys(d.default_parameters@[0].other) == Set::<Seq<char>>::empty()
    &&& json_map_keys(d.other) == Set::<Seq<char>>::empty()
}

/// The relation of the file before and after `ensure_exists`: an absent file
/// is replaced by the bootstrap document; anything else stays as it is.
pub open spec fn ensure_exists_post(before: ConfigFile, after: ConfigFile) -> bool {
    match before {
        ConfigFile::Absent => after is Present && is_bootstrap_document(after->Present_0),
        _ => after == before,
    }
}

/// What `load` gives for a file: the city and country of the first entry.
pub open spec fn load_result(f: ConfigFile) -> Result<(Seq<char>, Seq<char>), StoreError> {
    match f {
        ConfigFile::Absent => Err(StoreError::Missing),
        ConfigFile::Corrupt => Err(StoreError::Corrupt),
        ConfigFile::Present(d) => if d.default_parameters@.len() == 0 {
            Err(StoreError::Empty)
        } else {
            Ok((d.default_parameters@[0].city@, d.default_parameters@[0].country@))
        },
    }
}

/// The relation of the file before and after a successful `save` of `city`
/// and `country`: the first entry takes the new city and country; its other
/// fields, the other entries and the rest of the document stay as they were.
pub open spec fn save_post(before: ConfigFile, after: ConfigFile, city: Seq<char>, country: Seq<char>) -> bool {
    &&& before is Present
    &&& after is Present
    &&& {
        let b = before->Present_0;
        let a = after->Present_0;
        &&& a.other == b.other
        &&& a.default_parameters@.len() == b.default_parameters@.len()
        &&& forall|i: int| 0 < i < b.default_parameters@.len() ==> #[trigger] a.default_parameters@[i] == b.default_parameters@[i]
        &&& a.default_parameters@.len() > 0
        &&& a.default_parameters@[0].city@ == city
        &&& a.default_parameters@[0].country@ == country
        &&& a.default_parameters@[0].other == b.default_parameters@[0].other
    }
}

/// The error of `save` on a file that holds no document, or a document with
/// no entry to hold the default.
pub open spec fn save_error(f: ConfigFile) -> Option<StoreError> {
    match f {
        ConfigFile::Absent => Some(StoreError::Missing),
        ConfigFile::Corrupt => Some(StoreError::Corrupt),
        ConfigFile::Present(d) => if d.default_parameters@.len() == 0 {
            Some(StoreError::Empty)
        } else {
            None
        },
    }
}

/// Makes the bootstrap document.
pub fn bootstrap_document() -> (d: ConfigDocument)
    ensures
        is_bootstrap_document(d),
{
    let entry = StoredEntry {
        city: String::new(),
        country: String::new(),
        other: serde_json::Map::new(),
    };
    let mut params: Vec<StoredEntry> = Vec::new();
    params.push(entry);
    ConfigDocument { default_parameters: params, other: serde_json::Map::new() }
}

impl ConfigFile {
    /// Puts the bootstrap document in place of an absent file; returns
    /// whether it did.
    pub fn ensure_exists(&mut self) -> (created: bool)
        ensures
            ensure_exists_post(*old(self), *final(self)),
            created == (*old(self) is Absent),
    {
        if let ConfigFile::Absent = self {
            *self = ConfigFile::Present(bootstrap_document());
            true
        } else {
            false
        }
    }

    /// The default location: the city and country of the first entry.
    pub fn load(&self) -> (r: Result<LocationRecord, StoreError>)
        ensures
            match r {
                Ok(rec) => load_result(*self) == Ok::<(Seq<char>, Seq<char>), StoreError>(
                    (rec.city@, rec.country@),
                ),
                Err(e) => load_result(*self) == Err::<(Seq<char>, Seq<char>), StoreError>(e),
            },
    {
        match self {
            ConfigFile::Absent => Err(StoreError::Missing),
            ConfigFile::Corrupt => Err(StoreError::Corrupt),
            ConfigFile::Present(d) => {
                if d.default_parameters.len() == 0 {
                    Err(StoreError::Empty)
                } else {
                    let first = &d.default_parameters[0];
                    Ok(LocationRecord { city: first.city.clone(), country: first.country.clone() })
                }
            },
        }
    }

    /// Makes `city` and `country` the default location. A file without a
    /// document, or a document with no entry, is left as it is and the error
    /// says why: a written configuration always holds a default entry.
    pub fn save(&mut self, city: &String, country: &String) -> (r: Result<(), StoreError>)
        ensures
            match save_error(*old(self)) {
                Some(e) => r == Err::<(), StoreError>(e) && *final(self) == *old(self),
                None => r is Ok && save_post(*old(self), *final(self), city@, country@),
            },
    {
        match self {
            ConfigFile::Absent => Err(StoreError::Missing),
            ConfigFile::Corrupt => Err(StoreError::Corrupt),
            ConfigFile::Present(d) => {
                if d.default_parameters.len() == 0 {
                    Err(StoreError::Empty)
                } else {
                    let mut first = d.default_parameters.remove(0);
                    first.city = city.clone();
                    first.country = country.clone();
                    d.default_parameters.insert(0, first);
                    Ok(())
                }
            },
        }
    }
}

/// Ensuring that the configuration exists twice leaves it as the first call
/// did, and a file that already holds a document is never altered.
pub proof fn lemma_ensure_exists_idempotent(a: ConfigFile, b: ConfigFile, c: ConfigFile)
    requires
        ensure_exists_post(a, b),
        ensure_exists_post(b, c),
    ensures
        c == b,
        a is Present ==> b == a,
{
}

/// Saving a city and a country into a document that has a default entry,
/// then loading, gives back exactly that city and country.
pub proof fn lemma_save_then_load(
    before: ConfigFile,
    after: ConfigFile,
    city: Seq<char>,
    country: Seq<char>,
)
    requires
        before is Present,
        before->Present_0.default_parameters@.len() > 0,
        city.len() > 0,
        country.len() > 0,
        save_post(before, after, city, country),
    ensures
        load_result(after) == Ok::<(Seq<char>, Seq<char>), StoreError>((city, country)),
{
}

/// `load` gives the unset sentinel exactly when the stored first entry has
/// both fields empty.
pub proof fn lemma_sentinel_detection(f: ConfigFile)
    ensures
        (load_result(f) is Ok && is_unset(load_result(f)->Ok_0.0, load_result(f)->Ok_0.1)) <==> (
        f is Present && f->Present_0.default_parameters@.len() > 0 && is_unset(
            f->Present_0.default_parameters@[0].city@,
            f->Present_0.default_parameters@[0].country@,
        )),
{
}

} // verus!
