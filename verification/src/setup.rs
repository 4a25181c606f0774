//! Bootstrap helpers: recognizing the storage backend from its URL,
//! and turning the family-watcher configuration text (YAML) into
//! records.  Reading the environment and the file itself stays
//! outside; this module receives the text.

use vstd::prelude::*;
use crate::http_url::HttpUrlError;
use crate::models::{FamilyWatcherModel, JobFamilyWatcher};
use crate::repository::InMemoryJobFamilyWatcherRepository;
use crate::strutil::{first_colon_at, str_eq};

verus! {

/// True when the database URL names one of the in-memory SQLite
/// forms.
pub fn is_in_memory_sqlite(url: &str) -> (r: bool)
    ensures
        r == (url@ == "sqlite::memory:"@ || url@ == "sqlite://:memory:"@ || url@ == "sqlite:"@
            || url@ == "sqlite://"@),
{
    str_eq(url, "sqlite::memory:") || str_eq(url, "sqlite://:memory:") || str_eq(url, "sqlite:")
        || str_eq(url, "sqlite://")
}

/// The backend selector of a database URL: everything before the
/// first `:`, or the whole text when it has none.
pub fn database_scheme(url: &str) -> (r: String)
    ensures
        (exists|i: int| 0 <= i < url@.len() && url@[i] == ':') ==> exists|i: int|
            #[trigger] first_colon_at(url@, i) && r@ == url@.subrange(0, i),
        (forall|i: int| 0 <= i < url@.len() ==> url@[i] != ':') ==> r@ == url@,
{
    let n = url.unicode_len();
    let mut i: usize = 0;
    while i < n
        invariant
            i <= n,
            n == url@.len(),
            forall|k: int| 0 <= k < i ==> url@[k] != ':',
        decreases n - i,
    {
        if url.get_char(i) == ':' {
            let prefix = url.substring_char(0, i);
            proof {
                assert(first_colon_at(url@, i as int));
            }
            return prefix.to_owned();
        }
        i = i + 1;
    }
    url.to_owned()
}

// ---------------------------------------------------------------------
// Family-watcher configuration (YAML)
// ---------------------------------------------------------------------

#[verifier::external_type_specification]
#[verifier::external_body]
pub struct ExYaml(yaml_rust2::Yaml);

#[verifier::external_type_specification]
#[verifier::external_body]
pub struct ExScanError(yaml_rust2::ScanError);

/// Whether the configuration text scans as YAML.  The grammar is the
/// `yaml_rust2` crate's; success depends on the text alone.
pub uninterp spec fn yaml_scan_ok(s: Seq<char>) -> bool;

/// The mathematical shape of one configuration entry: the four string
/// fields an item of a document sequence binds, each absent when the
/// item does not bind it to a string.
#[verifier::ext_equal]
pub struct ConfigEntryModel {
    pub job_family: Option<Seq<char>>,
    pub url: Option<Seq<char>>,
    pub request_body: Option<Seq<char>>,
    pub description: Option<Seq<char>>,
}

/// One configuration entry as extracted from the text.
#[derive(Debug)]
pub struct ConfigEntryFields {
    pub job_family: Option<String>,
    pub url: Option<String>,
    pub request_body: Option<String>,
    pub description: Option<String>,
}

impl View for ConfigEntryFields {
    type V = ConfigEntryModel;

    open spec fn view(&self) -> ConfigEntryModel {
        ConfigEntryModel {
            job_family: match self.job_family {
                Some(s) => Some(s@),
                None => None,
            },
            url: match self.url {
                Some(s) => Some(s@),
                None => None,
            },
            request_body: match self.request_body {
                Some(s) => Some(s@),
                None => None,
            },
            description: match self.description {
                Some(s) => Some(s@),
                None => None,
            },
        }
    }
}

/// The configuration entries a text denotes: for every item of every
/// document sequence, in order, its four fields.  The walk is the
/// `yaml_rust2` crate's and depends on the text alone; the name stands
/// for parsing followed by that walk.
pub uninterp spec fn yaml_config_entries(s: Seq<char>) -> Seq<ConfigEntryModel>;

/// Relies on `yaml_rust2::YamlLoader::load_from_str` (parsing succeeds
/// if and only if every document parses), `Yaml`'s `IntoIterator`
/// (sequence items in order, nothing for other nodes), and — through
/// `yaml_str_entry` — `Yaml`'s `Index<&str>`: extracts the entries the
/// text denotes.
#[verifier::external_body]
fn read_yaml_config(content: &str) -> (r: Result<Vec<ConfigEntryFields>, yaml_rust2::ScanError>)
    ensures
        (r is Ok) == yaml_scan_ok(content@),
        r matches Ok(v) ==> v@.map_values(|e: ConfigEntryFields| e@) == yaml_config_entries(
            content@,
        ),
{
    let mut out = Vec::new();
    for root in yaml_rust2::YamlLoader::load_from_str(content)? {
        for item in root {
            out.push(ConfigEntryFields {
                job_family: yaml_str_entry(&item, "jobFamily"),
                url: yaml_str_entry(&item, "url"),
                request_body: yaml_str_entry(&item, "requestBody"),
                description: yaml_str_entry(&item, "description"),
            });
        }
    }
    Ok(out)
}

/// Relies on `Yaml`'s `Index<&str>` impl: the string value bound to
/// `key` when the node is a mapping holding a string there, and
/// nothing otherwise.
#[verifier::external_body]
fn yaml_str_entry(node: &yaml_rust2::Yaml, key: &str) -> (r: Option<String>)
{
    match &node[key] {
        yaml_rust2::Yaml::String(value) => Some(value.clone()),
        _ => None,
    }
}

/// The reasons the configuration is rejected.
#[derive(Debug)]
pub enum ConfigError {
    YamlSyntax(yaml_rust2::ScanError),
    MissingJobFamily,
    MissingUrl,
    InvalidUrl(HttpUrlError),
}

/// The text an absent optional field stands for.
pub open spec fn field_or_empty(field: Option<String>) -> Seq<char> {
    match field {
        Some(s) => s@,
        None => Seq::empty(),
    }
}

/// The text an absent optional entry field stands for.
pub open spec fn text_or_empty(field: Option<Seq<char>>) -> Seq<char> {
    match field {
        Some(s) => s,
        None => Seq::empty(),
    }
}

/// A configuration entry converts when it names a family and a URL
/// whose scheme and structure validate.
pub open spec fn entry_converts(e: ConfigEntryModel) -> bool {
    &&& e.job_family is Some
    &&& e.url is Some
    &&& crate::http_url::spec_is_http_or_https(text_or_empty(e.url))
    &&& crate::external::parsed_url(text_or_empty(e.url)) is Some
}

/// The family watcher a converting entry denotes: the named family,
/// the URL's normalized serialization, and the optional fields
/// defaulted to empty.
pub open spec fn entry_watcher_model(e: ConfigEntryModel) -> FamilyWatcherModel {
    FamilyWatcherModel {
        job_family: text_or_empty(e.job_family),
        url: match crate::external::parsed_url(text_or_empty(e.url)) {
            Some(u) => u,
            None => Seq::empty(),
        },
        request_body: text_or_empty(e.request_body),
        description: text_or_empty(e.description),
    }
}

/// Builds one family watcher from the fields of one configuration
/// entry: `jobFamily` and `url` are required, `requestBody` and
/// `description` default to empty, and the URL must validate.
pub fn family_watcher_from_fields(
    job_family: Option<String>,
    url: Option<String>,
    request_body: Option<String>,
    description: Option<String>,
) -> (r: Result<JobFamilyWatcher, ConfigError>)
    ensures
        (r matches Err(e) && e is MissingJobFamily) <==> job_family is None,
        (r matches Err(e) && e is MissingUrl) <==> (job_family is Some && url is None),
        (r matches Err(e) && e is InvalidUrl) <==> (job_family is Some && url is Some && !(
        crate::http_url::spec_is_http_or_https(field_or_empty(url))
            && crate::external::parsed_url(field_or_empty(url)) is Some)),
        (r is Ok) <==> (job_family is Some && url is Some && crate::http_url::spec_is_http_or_https(
            field_or_empty(url),
        ) && crate::external::parsed_url(field_or_empty(url)) is Some),
        r matches Ok(w) ==> {
            &&& job_family matches Some(jf) && w@.job_family == jf@
            &&& url matches Some(u) && crate::external::parsed_url(u@) == Some(w@.url)
            &&& w@.request_body == field_or_empty(request_body)
            &&& w@.description == field_or_empty(description)
        },
        r matches Err(e) ==> (e is MissingJobFamily || e is MissingUrl || e is InvalidUrl),
{
    let jf = match job_family {
        Some(jf) => jf,
        None => { return Err(ConfigError::MissingJobFamily) },
    };
    let u = match url {
        Some(u) => u,
        None => { return Err(ConfigError::MissingUrl) },
    };
    let body = match request_body {
        Some(b) => b,
        None => String::new(),
    };
    let desc = match description {
        Some(d) => d,
        None => String::new(),
    };
    match JobFamilyWatcher::new(jf.as_str(), u.as_str(), body.as_str(), desc.as_str()) {
        Ok(w) => Ok(w),
        Err(e) => Err(ConfigError::InvalidUrl(e)),
    }
}

/// Builds one family watcher from one YAML configuration entry by
/// extracting its four fields.  What each field holds comes from the
/// YAML node, so the exact field-level behaviour is stated on
/// `family_watcher_from_fields`.
pub fn family_watcher_from_yaml(node: &yaml_rust2::Yaml) -> (r: Result<
    JobFamilyWatcher,
    ConfigError,
>)
    ensures
        r matches Err(e) ==> (e is MissingJobFamily || e is MissingUrl || e is InvalidUrl),
{
    let job_family = yaml_str_entry(node, "jobFamily");
    let url = yaml_str_entry(node, "url");
    let request_body = yaml_str_entry(node, "requestBody");
    let description = yaml_str_entry(node, "description");
    family_watcher_from_fields(job_family, url, request_body, description)
}

/// Parses the whole configuration text: every entry of every document
/// must convert; the first failure aborts the bootstrap.  A text that
/// does not scan as YAML is rejected outright; otherwise the result is
/// exactly one family watcher per entry the text denotes, in order.
pub fn load_job_family_watchers(content: &str) -> (r: Result<Vec<JobFamilyWatcher>, ConfigError>)
    ensures
        (r matches Err(e) && e is YamlSyntax) <==> !yaml_scan_ok(content@),
        (r is Ok) <==> (yaml_scan_ok(content@) && forall|i: int|
            0 <= i < yaml_config_entries(content@).len() ==> entry_converts(
                #[trigger] yaml_config_entries(content@)[i],
            )),
        r matches Ok(ws) ==> ws@.len() == yaml_config_entries(content@).len(),
        r matches Ok(ws) ==> forall|i: int|
            0 <= i < yaml_config_entries(content@).len() ==> (#[trigger] ws@[i])@
                == entry_watcher_model(yaml_config_entries(content@)[i]),
        r matches Err(e) ==> (e is YamlSyntax || e is MissingJobFamily || e is MissingUrl
            || e is InvalidUrl),
        (r matches Err(e) && e is MissingJobFamily) ==> exists|i: int|
            0 <= i < yaml_config_entries(content@).len() && (#[trigger] yaml_config_entries(
                content@,
            )[i]).job_family is None,
        (r matches Err(e) && e is MissingUrl) ==> exists|i: int|
            0 <= i < yaml_config_entries(content@).len() && (#[trigger] yaml_config_entries(
                content@,
            )[i]).job_family is Some && yaml_config_entries(content@)[i].url is None,
        (r matches Err(e) && e is InvalidUrl) ==> exists|i: int|
            0 <= i < yaml_config_entries(content@).len() && !entry_converts(
                #[trigger] yaml_config_entries(content@)[i],
            ) && yaml_config_entries(content@)[i].job_family is Some && yaml_config_entries(
                content@,
            )[i].url is Some,
{
    let entries = match read_yaml_config(content) {
        Ok(v) => v,
        Err(e) => { return Err(ConfigError::YamlSyntax(e)) },
    };
    let mut out: Vec<JobFamilyWatcher> = Vec::new();
    let n = entries.len();
    let mut i: usize = 0;
    while i < n
        invariant
            i <= n,
            n == entries@.len(),
            yaml_scan_ok(content@),
            entries@.map_values(|e: ConfigEntryFields| e@) == yaml_config_entries(content@),
            out@.len() == i,
            forall|k: int|
                0 <= k < i ==> entry_converts(#[trigger] yaml_config_entries(content@)[k]),
            forall|k: int|
                0 <= k < i ==> (#[trigger] out@[k])@ == entry_watcher_model(
                    yaml_config_entries(content@)[k],
                ),
        decreases n - i,
    {
        proof {
            assert(yaml_config_entries(content@)[i as int] == entries@[i as int]@);
        }
        let entry = &entries[i];
        let job_family = clone_field(&entry.job_family);
        let url = clone_field(&entry.url);
        let request_body = clone_field(&entry.request_body);
        let description = clone_field(&entry.description);
        match family_watcher_from_fields(job_family, url, request_body, description) {
            Ok(w) => {
                proof {
                    assert(w@ =~= entry_watcher_model(yaml_config_entries(content@)[i as int]));
                }
                out.push(w);
            },
            Err(e) => {
                proof {
                    assert(!entry_converts(yaml_config_entries(content@)[i as int]));
                }
                return Err(e);
            },
        }
        i = i + 1;
    }
    proof {
        assert(yaml_config_entries(content@).len() == entries@.len());
    }
    Ok(out)
}

/// Copies one optional field.
fn clone_field(field: &Option<String>) -> (r: Option<String>)
    ensures
        r == *field,
{
    match field {
        Some(s) => Some(s.clone()),
        None => None,
    }
}

/// Persists a parsed batch of family watchers, in order.
pub fn bootstrap_job_family_watchers(
    job_family_watcher_repository: &mut InMemoryJobFamilyWatcherRepository,
    job_family_watchers: Vec<JobFamilyWatcher>,
) -> (r: Result<(), crate::repository::StorageError>)
    ensures
        r is Ok,
        final(job_family_watcher_repository)@ == old(job_family_watcher_repository)@
            + job_family_watchers@.map_values(|w: JobFamilyWatcher| w@),
{
    let n = job_family_watchers.len();
    let mut i: usize = 0;
    while i < n
        invariant
            i <= n,
            n == job_family_watchers@.len(),
            job_family_watcher_repository@ == old(job_family_watcher_repository)@
                + job_family_watchers@.subrange(0, i as int).map_values(
                |w: JobFamilyWatcher| w@,
            ),
        decreases n - i,
    {
        let w = job_family_watchers[i].clone();
        let _ = job_family_watcher_repository.create_job_family_watcher(w);
        proof {
            assert(job_family_watchers@.subrange(0, i + 1).drop_last()
                =~= job_family_watchers@.subrange(0, i as int));
            assert(job_family_watcher_repository@ =~= old(job_family_watcher_repository)@
                + job_family_watchers@.subrange(0, i + 1).map_values(|w: JobFamilyWatcher| w@));
        }
        i = i + 1;
    }
    proof {
        assert(job_family_watchers@.subrange(0, n as int) =~= job_family_watchers@);
        assert(job_family_watcher_repository@ =~= old(job_family_watcher_repository)@
            + job_family_watchers@.map_values(|w: JobFamilyWatcher| w@));
    }
    Ok(())
}

} // verus!
