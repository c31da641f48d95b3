//! The project descriptor and its validation against the directory the
//! project lives in and the identity of the local git user.

use crate::categories::Category;
use crate::cmd::check::{CheckErrorKind, CheckErrorView, OsedaCheckError};
use crate::text::{char_is_space, chars_of, is_space, same_chars, string_of};
use vstd::prelude::*;

verus! {

/// A point in time: whole seconds since the Unix epoch and the nanoseconds
/// into that second.
#[derive(Debug, Clone, Copy, PartialEq, Eq, Structural)]
pub struct Timestamp {
    pub secs: i64,
    pub nanos: u32,
}

impl Timestamp {
    /// Whether `self` is strictly earlier than `other`.
    pub open spec fn before(self, other: Timestamp) -> bool {
        self.secs < other.secs || (self.secs == other.secs && self.nanos < other.nanos)
    }

    /// The later of two points in time.
    pub open spec fn later(self, other: Timestamp) -> Timestamp {
        if self.before(other) {
            other
        } else {
            self
        }
    }

    /// Tells whether `self` is strictly earlier than `other`.
    pub fn is_before(&self, other: &Timestamp) -> (earlier: bool)
        ensures
            earlier == self.before(*other),
    {
        self.secs < other.secs || (self.secs == other.secs && self.nanos < other.nanos)
    }
}

/// The content of a project's `oseda-config.json`.
#[derive(Debug)]
pub struct OsedaConfig {
    pub title: String,
    pub author: String,
    pub category: Vec<Category>,
    /// Moves forward on each deployment and is otherwise left alone.
    pub last_updated: Timestamp,
}

/// A descriptor as data.
pub struct ConfigView {
    pub title: Seq<char>,
    pub author: Seq<char>,
    pub category: Seq<Category>,
    pub last_updated: Timestamp,
}

impl View for OsedaConfig {
    type V = ConfigView;

    open spec fn view(&self) -> ConfigView {
        ConfigView {
            title: self.title@,
            author: self.author@,
            category: self.category@,
            last_updated: self.last_updated,
        }
    }
}

/// What reading the descriptor file gave.
#[derive(Debug)]
pub enum Descriptor {
    /// There is no readable descriptor; the payload names the directory that
    /// was searched.
    Missing(String),
    /// The file is there but is not a well-formed descriptor.
    Malformed,
    /// The file parsed.
    Parsed(OsedaConfig),
}

/// What asking for the base name of the working directory gave.
#[derive(Debug)]
pub enum DirectoryName {
    /// The working directory itself could not be determined.
    Unavailable,
    /// The working directory has no base name.
    Unresolved,
    /// The base name is not text, so it equals no title.
    Unreadable,
    /// The base name.
    Named(String),
}

/// Everything validation looks at, gathered from the project directory and
/// its surroundings.
#[derive(Debug)]
pub struct ProjectSnapshot {
    pub descriptor: Descriptor,
    /// Leave the author unchecked.
    pub skip_git: bool,
    /// The `user.name` of the local git configuration, if it has one. Not
    /// looked at when `skip_git` is set.
    pub git_name: Option<String>,
    pub directory: DirectoryName,
}

/// Whether the author check passes: it is skipped, or git knows a user name
/// and it is the author.
pub open spec fn identity_accepted(snapshot: ProjectSnapshot, conf: OsedaConfig) -> bool {
    snapshot.skip_git || (snapshot.git_name matches Some(name) && name@ == conf.author@)
}

/// Whether the project sits in a directory named after its title.
pub open spec fn directory_accepted(snapshot: ProjectSnapshot, conf: OsedaConfig) -> bool {
    snapshot.directory matches DirectoryName::Named(name) && name@ == conf.title@
}

/// The one error that validation reports for a snapshot, or `None` when every
/// check passes. Checks run in a fixed order and the first failure wins: the
/// file is there, it parses, the author is the git user, the directory is
/// named after the title.
pub open spec fn validation_error(snapshot: ProjectSnapshot) -> Option<CheckErrorView> {
    match snapshot.descriptor {
        Descriptor::Missing(dir) => Some(
            CheckErrorView {
                kind: CheckErrorKind::MissingConfig,
                detail: "Could not find config file in "@ + dir@,
            },
        ),
        Descriptor::Malformed => Some(
            CheckErrorView {
                kind: CheckErrorKind::BadConfig,
                detail: "Could not parse oseda config file"@,
            },
        ),
        Descriptor::Parsed(conf) => {
            if !snapshot.skip_git && snapshot.git_name is None {
                Some(
                    CheckErrorView {
                        kind: CheckErrorKind::BadGitCredentials,
                        detail: "Could not get git user.name from git config"@,
                    },
                )
            } else if !identity_accepted(snapshot, conf) {
                Some(
                    CheckErrorView {
                        kind: CheckErrorKind::BadGitCredentials,
                        detail: "Config author does not match git credentials"@,
                    },
                )
            } else {
                match snapshot.directory {
                    DirectoryName::Unavailable => Some(
                        CheckErrorView {
                            kind: CheckErrorKind::DirectoryNameMismatch,
                            detail: "Could not get path of working directory"@,
                        },
                    ),
                    DirectoryName::Unresolved => Some(
                        CheckErrorView {
                            kind: CheckErrorKind::DirectoryNameMismatch,
                            detail: "Could not resolve path name"@,
                        },
                    ),
                    _ => if directory_accepted(snapshot, conf) {
                        None
                    } else {
                        Some(
                            CheckErrorView {
                                kind: CheckErrorKind::DirectoryNameMismatch,
                                detail: "Config title does not match directory name"@,
                            },
                        )
                    },
                }
            }
        },
    }
}

/// Validates a project: returns the parsed descriptor, unchanged, when every
/// check passes, and otherwise the error of the first check that fails.
pub fn read_and_validate_config(snapshot: ProjectSnapshot) -> (result: Result<
    OsedaConfig,
    OsedaCheckError,
>)
    ensures
        match result {
            Ok(conf) => validation_error(snapshot) is None && snapshot.descriptor
                == Descriptor::Parsed(conf),
            Err(err) => validation_error(snapshot) == Some(err@),
        },
{
    let ProjectSnapshot { descriptor, skip_git, git_name, directory } = snapshot;
    let conf = match descriptor {
        Descriptor::Missing(dir) => {
            let detail = String::from_str("Could not find config file in ").concat(dir.as_str());
            return Err(OsedaCheckError::MissingConfig(detail));
        },
        Descriptor::Malformed => {
            return Err(
                OsedaCheckError::BadConfig("Could not parse oseda config file".to_owned()),
            );
        },
        Descriptor::Parsed(conf) => conf,
    };
    if !skip_git {
        match git_name {
            None => {
                return Err(
                    OsedaCheckError::BadGitCredentials(
                        "Could not get git user.name from git config".to_owned(),
                    ),
                );
            },
            Some(name) => {
                if name != conf.author {
                    return Err(
                        OsedaCheckError::BadGitCredentials(
                            "Config author does not match git credentials".to_owned(),
                        ),
                    );
                }
            },
        }
    }
    match directory {
        DirectoryName::Unavailable => Err(
            OsedaCheckError::DirectoryNameMismatch(
                "Could not get path of working directory".to_owned(),
            ),
        ),
        DirectoryName::Unresolved => Err(
            OsedaCheckError::DirectoryNameMismatch("Could not resolve path name".to_owned()),
        ),
        DirectoryName::Unreadable => Err(
            OsedaCheckError::DirectoryNameMismatch(
                "Config title does not match directory name".to_owned(),
            ),
        ),
        DirectoryName::Named(name) => {
            if name != conf.title {
                Err(
                    OsedaCheckError::DirectoryNameMismatch(
                        "Config title does not match directory name".to_owned(),
                    ),
                )
            } else {
                Ok(conf)
            }
        },
    }
}

/// What validation gives for a snapshot, as data: the descriptor, or the
/// error.
pub open spec fn validation_outcome(snapshot: ProjectSnapshot) -> Result<
    ConfigView,
    CheckErrorView,
> {
    match validation_error(snapshot) {
        Some(err) => Err(err),
        None => match snapshot.descriptor {
            Descriptor::Parsed(conf) => Ok(conf@),
            _ => arbitrary(),
        },
    }
}

/// Whether two readings of a descriptor file hold the same content.
pub open spec fn same_descriptor(a: Descriptor, b: Descriptor) -> bool {
    match (a, b) {
        (Descriptor::Missing(x), Descriptor::Missing(y)) => x@ == y@,
        (Descriptor::Malformed, Descriptor::Malformed) => true,
        (Descriptor::Parsed(x), Descriptor::Parsed(y)) => x@ == y@,
        _ => false,
    }
}

/// Whether two lookups of the directory name gave the same answer.
pub open spec fn same_directory(a: DirectoryName, b: DirectoryName) -> bool {
    match (a, b) {
        (DirectoryName::Unavailable, DirectoryName::Unavailable) => true,
        (DirectoryName::Unresolved, DirectoryName::Unresolved) => true,
        (DirectoryName::Unreadable, DirectoryName::Unreadable) => true,
        (DirectoryName::Named(x), DirectoryName::Named(y)) => x@ == y@,
        _ => false,
    }
}

/// Whether two snapshots show the same project in the same surroundings.
pub open spec fn same_snapshot(a: ProjectSnapshot, b: ProjectSnapshot) -> bool {
    &&& same_descriptor(a.descriptor, b.descriptor)
    &&& a.skip_git == b.skip_git
    &&& match (a.git_name, b.git_name) {
        (Some(x), Some(y)) => x@ == y@,
        (None, None) => true,
        _ => false,
    }
    &&& same_directory(a.directory, b.directory)
}

/// Validation succeeds exactly when the descriptor parsed, the author check
/// passes and the directory is named after the title.
pub proof fn lemma_validation_succeeds_iff(snapshot: ProjectSnapshot)
    ensures
        validation_error(snapshot) is None <==> (snapshot.descriptor matches Descriptor::Parsed(
            conf,
        ) && identity_accepted(snapshot, conf) && directory_accepted(snapshot, conf)),
{
}

/// A project without a descriptor is reported as such, whatever else the
/// snapshot holds.
pub proof fn lemma_missing_descriptor_is_reported(snapshot: ProjectSnapshot)
    requires
        snapshot.descriptor is Missing,
    ensures
        validation_error(snapshot) matches Some(err) && err.kind == CheckErrorKind::MissingConfig,
{
}

/// A descriptor that does not parse is reported as a bad descriptor, whatever
/// else the snapshot holds.
pub proof fn lemma_malformed_descriptor_is_reported(snapshot: ProjectSnapshot)
    requires
        snapshot.descriptor is Malformed,
    ensures
        validation_error(snapshot) matches Some(err) && err.kind == CheckErrorKind::BadConfig,
{
}

/// When the author is checked and the git user is someone else, or nobody,
/// a parsed descriptor is rejected for its credentials.
pub proof fn lemma_identity_mismatch_is_reported(snapshot: ProjectSnapshot)
    requires
        snapshot.descriptor matches Descriptor::Parsed(conf) && !identity_accepted(snapshot, conf),
    ensures
        validation_error(snapshot) matches Some(err) && err.kind
            == CheckErrorKind::BadGitCredentials,
{
}

/// When the author check is skipped, the git user plays no part: the verdict
/// is the same under any other user name, and a parsed descriptor in the
/// directory named after its title passes.
pub proof fn lemma_skipped_identity_is_ignored(snapshot: ProjectSnapshot, other: Option<String>)
    requires
        snapshot.skip_git,
    ensures
        validation_error(
            ProjectSnapshot {
                descriptor: snapshot.descriptor,
                skip_git: true,
                git_name: other,
                directory: snapshot.directory,
            },
        ) == validation_error(snapshot),
        snapshot.descriptor matches Descriptor::Parsed(conf) && directory_accepted(snapshot, conf)
            ==> validation_error(snapshot) is None,
{
}

/// Once the descriptor parsed and the author check passes, the directory name
/// decides: the project is accepted if it equals the title and rejected for
/// its directory if not.
pub proof fn lemma_directory_decides(snapshot: ProjectSnapshot)
    requires
        snapshot.descriptor matches Descriptor::Parsed(conf) && identity_accepted(snapshot, conf),
    ensures
        snapshot.descriptor matches Descriptor::Parsed(conf) && (if directory_accepted(
            snapshot,
            conf,
        ) {
            validation_error(snapshot) is None
        } else {
            validation_error(snapshot) matches Some(err) && err.kind
                == CheckErrorKind::DirectoryNameMismatch
        }),
{
}

/// Validating an unchanged project again gives the same outcome.
pub proof fn lemma_validation_is_repeatable(first: ProjectSnapshot, second: ProjectSnapshot)
    requires
        same_snapshot(first, second),
    ensures
        validation_outcome(first) == validation_outcome(second),
{
}

/// The name of the descriptor file inside a project directory.
pub const CONFIG_FILE: &'static str = "oseda-config.json";

/// The environment variable that marks an automated environment.
pub const CI_MARKER: &'static str = "GITHUB_ACTIONS";

/// Whether the author check is to be skipped: the caller asks for it, or the
/// marker of an automated environment is set to `true`.
pub open spec fn skips_identity(requested: bool, marker: Option<Seq<char>>) -> bool {
    requested || marker == Some("true"@)
}

/// Decides whether to skip the author check, from the caller's wish and the
/// value of the automated-environment marker, if it is set.
pub fn skip_identity_check(requested: bool, marker: Option<&str>) -> (skip: bool)
    ensures
        skip == skips_identity(
            requested,
            match marker {
                Some(value) => Some(value@),
                None => None,
            },
        ),
{
    if requested {
        return true;
    }
    match marker {
        Some(value) => {
            let given = chars_of(value);
            let wanted = chars_of("true");
            same_chars(given.as_slice(), wanted.as_slice())
        },
        None => false,
    }
}

/// Where the descriptor of the project in `dir` is kept.
pub fn config_path(dir: &str) -> (path: String)
    ensures
        path@ == dir@ + "/"@ + CONFIG_FILE@,
{
    String::from_str(dir).concat("/").concat(CONFIG_FILE)
}

/// The shortest title that is accepted, in characters.
pub const MIN_TITLE_CHARS: usize = 2;

/// Tells whether what the user typed is long enough for a title.
pub fn title_is_long_enough(input: &str) -> (accepted: bool)
    ensures
        accepted == (input@.len() >= MIN_TITLE_CHARS),
{
    input.unicode_len() >= MIN_TITLE_CHARS
}

/// A title as it is stored: every whitespace character becomes a hyphen and
/// everything else stays as it is.
pub open spec fn normalized_title(raw: Seq<char>) -> Seq<char> {
    raw.map_values(
        |c: char|
            if is_space(c) {
                '-'
            } else {
                c
            },
    )
}

/// A stored title holds no whitespace and is as long as what was typed, so a
/// title that is long enough is not stored empty. Storing a stored title
/// again changes nothing.
pub proof fn lemma_normalized_title(raw: Seq<char>)
    ensures
        normalized_title(raw).len() == raw.len(),
        forall|i: int| 0 <= i < raw.len() ==> !is_space(#[trigger] normalized_title(raw)[i]),
        forall|i: int|
            0 <= i < raw.len() && !is_space(raw[i]) ==> #[trigger] normalized_title(raw)[i]
                == raw[i],
        raw.len() >= MIN_TITLE_CHARS ==> normalized_title(raw).len() > 0,
        normalized_title(normalized_title(raw)) == normalized_title(raw),
{
    assert(!is_space('-'));
    assert(normalized_title(normalized_title(raw)) =~= normalized_title(raw));
}

/// Brings a title into its stored form.
pub fn normalize_title(raw: &str) -> (title: String)
    ensures
        title@ == normalized_title(raw@),
{
    let given = chars_of(raw);
    let mut hyphened: Vec<char> = Vec::new();
    let mut i: usize = 0;
    while i < given.len()
        invariant
            i <= given.len(),
            hyphened.len() == i,
            forall|j: int|
                0 <= j < i ==> hyphened@[j] == (if is_space(given@[j]) {
                    '-'
                } else {
                    given@[j]
                }),
        decreases given.len() - i,
    {
        let c = given[i];
        hyphened.push(
            if char_is_space(c) {
                '-'
            } else {
                c
            },
        );
        i = i + 1;
    }
    assert(hyphened@ =~= normalized_title(given@));
    string_of(hyphened.as_slice())
}

/// The current time.
///
/// Wraps chrono's conversion of a `std::time::SystemTime` into a
/// `DateTime<Utc>`, applied to the system clock and read through
/// `DateTime::timestamp` and `DateTime::timestamp_subsec_nanos`. Nothing is
/// claimed of the value: it is whatever the system clock says. A clock that
/// stands before the Unix epoch gives negative seconds. chrono holds the
/// years from about -262,000 to 262,000, far beyond what a system clock
/// reads.
#[verifier::external_body]
pub(crate) fn get_time() -> (now: Timestamp) {
    let now = chrono::DateTime::<chrono::Utc>::from(std::time::SystemTime::now());
    Timestamp { secs: now.timestamp(), nanos: now.timestamp_subsec_nanos() }
}

/// A descriptor after a deployment at `now`: only `last_updated` changes, and
/// it never moves backwards.
pub open spec fn stamped(conf: ConfigView, now: Timestamp) -> ConfigView {
    ConfigView { last_updated: conf.last_updated.later(now), ..conf }
}

/// Marks a descriptor as deployed at `now`.
pub fn stamp(conf: OsedaConfig, now: Timestamp) -> (out: OsedaConfig)
    ensures
        out@ == stamped(conf@, now),
{
    let last_updated = if conf.last_updated.is_before(&now) {
        now
    } else {
        conf.last_updated
    };
    OsedaConfig { title: conf.title, author: conf.author, category: conf.category, last_updated }
}

/// Marks a descriptor as deployed now, by the system clock. Whatever the
/// clock says, only `last_updated` changes and it does not move backwards.
pub fn update_time(conf: OsedaConfig) -> (out: OsedaConfig)
    ensures
        exists|now: Timestamp| out@ == stamped(conf@, now),
        out@.title == conf@.title,
        out@.author == conf@.author,
        out@.category == conf@.category,
        !out@.last_updated.before(conf@.last_updated),
{
    let now = get_time();
    let out = stamp(conf, now);
    assert(out@ == stamped(conf@, now));
    out
}

/// A deployment never moves `last_updated` backwards, and moves it to the
/// time of the deployment unless that lies in the descriptor's past.
pub proof fn lemma_stamp_is_monotonic(conf: ConfigView, now: Timestamp)
    ensures
        !stamped(conf, now).last_updated.before(conf.last_updated),
        !now.before(conf.last_updated) ==> stamped(conf, now).last_updated == now,
        stamped(conf, now).title == conf.title,
        stamped(conf, now).author == conf.author,
        stamped(conf, now).category == conf.category,
{
}

/// Why a descriptor could not be created.
pub open spec fn no_git_user() -> Seq<char> {
    "Could not get github username. Please ensure you are signed into github"@
}

/// Creates the descriptor of a new project at the time `now`, from what the
/// user entered and the `user.name` of the local git configuration. The
/// title is stored in its normalized form, so it holds no whitespace and is
/// not empty if what was typed is long enough. The author is the git user,
/// the categories are kept in their order, and `last_updated` is `now`.
/// Without a git user there is no descriptor.
pub fn create_conf_at(
    title: &str,
    categories: Vec<Category>,
    user_name: Option<String>,
    now: Timestamp,
) -> (result: Result<OsedaConfig, String>)
    ensures
        match result {
            Ok(conf) => {
                &&& user_name matches Some(name) && conf.author == name
                &&& conf@.title == normalized_title(title@)
                &&& forall|i: int| 0 <= i < conf@.title.len() ==> !is_space(conf@.title[i])
                &&& title@.len() >= MIN_TITLE_CHARS ==> conf@.title.len() > 0
                &&& conf.category == categories
                &&& conf.last_updated == now
            },
            Err(reason) => user_name is None && reason@ == no_git_user(),
        },
{
    proof {
        lemma_normalized_title(title@);
    }
    match user_name {
        Some(author) => Ok(
            OsedaConfig {
                title: normalize_title(title),
                author,
                category: categories,
                last_updated: now,
            },
        ),
        None => Err(
            "Could not get github username. Please ensure you are signed into github".to_owned(),
        ),
    }
}

/// Creates the descriptor of a new project now, by the system clock.
/// Whatever the clock says, the descriptor is the one that `create_conf_at`
/// gives for that time.
pub fn create_conf(title: &str, categories: Vec<Category>, user_name: Option<String>) -> (result:
    Result<OsedaConfig, String>)
    ensures
        match result {
            Ok(conf) => {
                &&& user_name matches Some(name) && conf.author == name
                &&& conf@.title == normalized_title(title@)
                &&& forall|i: int| 0 <= i < conf@.title.len() ==> !is_space(conf@.title[i])
                &&& title@.len() >= MIN_TITLE_CHARS ==> conf@.title.len() > 0
                &&& conf.category == categories
            },
            Err(reason) => user_name is None && reason@ == no_git_user(),
        },
{
    let now = get_time();
    create_conf_at(title, categories, user_name, now)
}

} // verus!
