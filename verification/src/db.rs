//! What the controller computes around storage: the result of a sync, the
//! title a podcast is sorted by, the dates storage hands back, and the
//! decision whether the stored schema version has to be written.

use crate::merge::count_inserts;
use crate::merge::insert_positions;
use crate::merge::lemma_insert_positions;
use crate::merge::updated_ids;
use crate::merge::MergeStep;
use crate::types::EpisodeNoId;
use crate::types::NewEpisode;
use vstd::prelude::*;
use vstd::string::StringExecFns;

verus! {

/// What a sync changed: the episodes it added and the identifiers of those
/// it updated.
#[derive(Debug, Clone, PartialEq, Eq)]
pub struct SyncResult {
    pub added: Vec<NewEpisode>,
    pub updated: Vec<i64>,
}

/// The pattern of a leading article in a lowercased title.
pub const ARTICLE_PATTERN: &'static str = "^(a|an|the) ";

/// Result of `str::to_lowercase` on a text.
pub uninterp spec fn lowercased(text: Seq<char>) -> Seq<char>;

/// Whether `regex::Regex::new` accepts a pattern.
pub uninterp spec fn regex_compiles(pattern: Seq<char>) -> bool;

/// Result of `regex::Regex::replace` for a pattern that compiles: the
/// haystack with the leftmost match replaced, or the haystack itself where
/// nothing matches.
pub uninterp spec fn regex_replace_first(
    pattern: Seq<char>,
    haystack: Seq<char>,
    replacement: Seq<char>,
) -> Seq<char>;

/// The first second of the earliest date that `chrono` holds: the start of
/// the year -262143.
pub const MIN_TIMESTAMP: i64 = -8_334_601_228_800;

/// The last second of the latest date that `chrono` holds: the end of the
/// year 262142.
pub const MAX_TIMESTAMP: i64 = 8_210_266_876_799;

/// Whether a number of seconds since the epoch stands for a calendar date.
pub open spec fn has_date(secs: i64) -> bool {
    MIN_TIMESTAMP <= secs <= MAX_TIMESTAMP
}

/// Whether `semver::Version::parse` accepts a text.
pub uninterp spec fn semver_valid(text: Seq<char>) -> bool;

/// Whether, of two texts that `semver::Version::parse` accepts, the first
/// version is less than the second in the order of `semver::Version`.
pub uninterp spec fn semver_precedes(a: Seq<char>, b: Seq<char>) -> bool;

/// `str::to_lowercase` of std: the contract gives the result a name and
/// claims nothing more of it.
#[verifier::external_body]
fn lowercase(text: &str) -> (out: String)
    ensures
        out@ == lowercased(text@),
{
    text.to_lowercase()
}

/// `regex::Regex::new` followed by `Regex::replace`. The contract claims
/// that a result comes exactly where the pattern compiles, and names it.
#[verifier::external_body]
fn replace_first(pattern: &str, haystack: &str, replacement: &str) -> (out: Option<String>)
    ensures
        out is Some <==> regex_compiles(pattern@),
        out matches Some(text) ==> text@ == regex_replace_first(
            pattern@,
            haystack@,
            replacement@,
        ),
{
    match regex::Regex::new(pattern) {
        Ok(re) => Some(re.replace(haystack, replacement).into_owned()),
        Err(_) => None,
    }
}

/// `chrono::DateTime::<Utc>::from_timestamp` with no nanoseconds. The
/// contract claims that it returns a date exactly for the seconds from the
/// start of the year -262143 to the end of the year 262142, the years
/// between which it accepts a date.
#[verifier::external_body]
fn timestamp_has_date(secs: i64) -> (valid: bool)
    ensures
        valid == has_date(secs),
{
    chrono::DateTime::<chrono::Utc>::from_timestamp(secs, 0).is_some()
}

/// `semver::Version::parse`. The contract names whether it succeeds.
#[verifier::external_body]
fn version_parses(text: &str) -> (valid: bool)
    ensures
        valid == semver_valid(text@),
{
    semver::Version::parse(text).is_ok()
}

/// The `<` of `semver::Version` on two parsed texts. The contract claims a
/// result exactly where both texts parse, and names it.
#[verifier::external_body]
fn version_precedes(a: &str, b: &str) -> (older: Option<bool>)
    ensures
        older is Some <==> (semver_valid(a@) && semver_valid(b@)),
        older matches Some(less) ==> less == semver_precedes(a@, b@),
{
    match (semver::Version::parse(a), semver::Version::parse(b)) {
        (Ok(x), Ok(y)) => Some(x < y),
        _ => None,
    }
}

/// The title a podcast is sorted by, given its lowercased title and what
/// stripping a leading article from it gave: the stripped title, or the
/// lowercased one where the article pattern could not be used.
pub fn sort_title_from(lowered: String, stripped: Option<String>) -> (out: String)
    ensures
        out@ == match stripped {
            Some(text) => text@,
            None => lowered@,
        },
{
    match stripped {
        Some(text) => text,
        None => lowered,
    }
}

/// The title a podcast is sorted by: lowercased, with a leading "a ", "an "
/// or "the " removed.
pub fn sort_title(title: &str) -> (out: String)
    ensures
        out@ == if regex_compiles(ARTICLE_PATTERN@) {
            regex_replace_first(ARTICLE_PATTERN@, lowercased(title@), ""@)
        } else {
            lowercased(title@)
        },
{
    let lowered = lowercase(title);
    let stripped = replace_first(ARTICLE_PATTERN, lowered.as_str(), "");
    sort_title_from(lowered, stripped)
}

/// A stored date, given whether a calendar date exists for it: kept where
/// one does, dropped where none does or where storage had no date.
pub fn date_if_valid(stored: Option<i64>, valid: bool) -> (date: Option<i64>)
    ensures
        date == if stored is Some && valid {
            stored
        } else {
            None
        },
{
    match stored {
        Some(secs) => if valid {
            Some(secs)
        } else {
            None
        },
        None => None,
    }
}

/// Turns what storage holds as a date, seconds since the epoch or nothing,
/// into a date of the model. A number that stands for no calendar date is
/// dropped.
pub fn convert_date(stored: Option<i64>) -> (date: Option<i64>)
    ensures
        date == match stored {
            Some(secs) => if has_date(secs) {
                Some(secs)
            } else {
                None
            },
            None => None,
        },
{
    match stored {
        Some(secs) => date_if_valid(stored, timestamp_has_date(secs)),
        None => None,
    }
}

/// What to do with the version that storage records.
#[derive(Debug, Clone, Copy, PartialEq, Eq, Structural)]
pub enum VersionAction {
    /// The recorded version is the running one or a later one: write nothing.
    Keep,
    /// A version is recorded and is older: overwrite it.
    Update,
    /// No version is recorded: insert the running one.
    Insert,
}

/// Why no decision on the recorded version could be made.
#[derive(Debug, Clone, Copy, PartialEq, Eq, Structural)]
pub enum VersionError {
    /// The running version is no semantic version.
    InvalidCurrent,
    /// The recorded version is no semantic version.
    InvalidStored,
}

/// What has been learned of the recorded version.
#[derive(Debug, Clone, Copy, PartialEq, Eq, Structural)]
pub enum StoredVersion {
    /// Storage records none.
    Missing,
    /// Storage records a text that is no semantic version.
    Invalid,
    /// Storage records a version that is older than the running one.
    Older,
    /// Storage records the running version or a later one.
    Current,
}

/// Decides what to write, given whether the running version is a semantic
/// version and what has been learned of the recorded one. The running
/// version is looked at first.
pub fn version_action_from(current_valid: bool, stored: StoredVersion) -> (action: Result<
    VersionAction,
    VersionError,
>)
    ensures
        action == if !current_valid {
            Err::<VersionAction, VersionError>(VersionError::InvalidCurrent)
        } else {
            match stored {
                StoredVersion::Missing => Ok(VersionAction::Insert),
                StoredVersion::Invalid => Err(VersionError::InvalidStored),
                StoredVersion::Older => Ok(VersionAction::Update),
                StoredVersion::Current => Ok(VersionAction::Keep),
            }
        },
{
    if !current_valid {
        Err(VersionError::InvalidCurrent)
    } else {
        match stored {
            StoredVersion::Missing => Ok(VersionAction::Insert),
            StoredVersion::Invalid => Err(VersionError::InvalidStored),
            StoredVersion::Older => Ok(VersionAction::Update),
            StoredVersion::Current => Ok(VersionAction::Keep),
        }
    }
}

/// What is known of the recorded version `stored` against the running
/// version `current`, which must be a semantic version.
pub open spec fn stored_version_state(stored: Option<Seq<char>>, current: Seq<char>) -> StoredVersion {
    match stored {
        None => StoredVersion::Missing,
        Some(text) => if !semver_valid(text) {
            StoredVersion::Invalid
        } else if semver_precedes(text, current) {
            StoredVersion::Older
        } else {
            StoredVersion::Current
        },
    }
}

/// Model of an optional borrowed text.
pub open spec fn opt_str_text(s: Option<&str>) -> Option<Seq<char>> {
    match s {
        Some(t) => Some(t@),
        None => None,
    }
}

/// Decides, when storage is opened, what to do with the version it records:
/// `stored` is that version, if any, and `current` the running one.
pub fn version_action(stored: Option<&str>, current: &str) -> (action: Result<
    VersionAction,
    VersionError,
>)
    ensures
        action == if !semver_valid(current@) {
            Err::<VersionAction, VersionError>(VersionError::InvalidCurrent)
        } else {
            match stored_version_state(opt_str_text(stored), current@) {
                StoredVersion::Missing => Ok(VersionAction::Insert),
                StoredVersion::Invalid => Err(VersionError::InvalidStored),
                StoredVersion::Older => Ok(VersionAction::Update),
                StoredVersion::Current => Ok(VersionAction::Keep),
            }
        },
{
    let current_valid = version_parses(current);
    let state = match stored {
        None => StoredVersion::Missing,
        Some(text) => {
            if !current_valid {
                StoredVersion::Invalid
            } else {
                match version_precedes(text, current) {
                    None => StoredVersion::Invalid,
                    Some(true) => StoredVersion::Older,
                    Some(false) => StoredVersion::Current,
                }
            }
        },
    };
    version_action_from(current_valid, state)
}

/// The added episode with identifier `id` of podcast `pod_id`, with the
/// given title and podcast title, not selected.
pub open spec fn new_episode_is(
    e: NewEpisode,
    id: i64,
    pod_id: i64,
    title: Seq<char>,
    pod_title: Seq<char>,
) -> bool {
    &&& e.id == id
    &&& e.pod_id == pod_id
    &&& e.title@ == title
    &&& e.pod_title@ == pod_title
    &&& !e.selected
}

/// The added episodes are those of the inserts of `plan`, in order, each
/// with its identifier of `new_ids` and the title of its fetched episode.
pub open spec fn added_match(
    added: Seq<NewEpisode>,
    new_ids: Seq<i64>,
    pod_id: i64,
    pod_title: Seq<char>,
    fetched: Seq<EpisodeNoId>,
    plan: Seq<MergeStep>,
) -> bool {
    forall|k: int|
        0 <= k < added.len() ==> new_episode_is(
            #[trigger] added[k],
            new_ids[k],
            pod_id,
            fetched[insert_positions(plan)[k]].title@,
            pod_title,
        )
}

/// What a sync has changed, once its plan is carried out. `plan` holds the
/// decision for each fetched episode and `new_ids` the identifiers that
/// storage gave to the inserted ones, in plan order. The result lists an
/// added episode for each insert and the identifier of each update. There
/// is none where the plan is not as long as the feed or the identifiers are
/// not as many as the inserts.
pub fn sync_result(
    pod_id: i64,
    pod_title: &str,
    fetched: &Vec<EpisodeNoId>,
    plan: &Vec<MergeStep>,
    new_ids: &Vec<i64>,
) -> (result: Option<SyncResult>)
    ensures
        result is Some <==> (plan@.len() == fetched@.len() && new_ids@.len() == count_inserts(
            plan@,
        )),
        result matches Some(r) ==> {
            &&& r.updated@ == updated_ids(plan@)
            &&& r.added@.len() == new_ids@.len()
            &&& added_match(r.added@, new_ids@, pod_id, pod_title@, fetched@, plan@)
        },
{
    let n = plan.len();
    if fetched.len() != n {
        return None;
    }
    let mut added: Vec<NewEpisode> = Vec::new();
    let mut updated: Vec<i64> = Vec::new();
    let mut i: usize = 0;
    while i < n
        invariant
            i <= n,
            n == plan@.len(),
            n == fetched@.len(),
            added@.len() == insert_positions(plan@.take(i as int)).len(),
            added@.len() <= new_ids@.len(),
            added@.len() <= i,
            updated@ == updated_ids(plan@.take(i as int)),
            added_match(added@, new_ids@, pod_id, pod_title@, fetched@, plan@.take(i as int)),
        decreases n - i,
    {
        let ghost before = plan@.take(i as int);
        let ghost now = plan@.take(i as int + 1);
        let ghost had = added@;
        proof {
            assert(now.drop_last() =~= before);
            assert(now.last() == plan@[i as int]);
        }
        match plan[i] {
            MergeStep::Insert => {
                let k = added.len();
                if k >= new_ids.len() {
                    proof {
                        lemma_insert_positions(plan@, i as int + 1);
                    }
                    return None;
                }
                added.push(
                    NewEpisode {
                        id: new_ids[k],
                        pod_id,
                        title: fetched[i].title.clone(),
                        pod_title: String::from_str(pod_title),
                        selected: false,
                    },
                );
            },
            MergeStep::Update(id) => {
                updated.push(id);
            },
            MergeStep::Unchanged(_) => {},
        }
        i += 1;
        proof {
            assert(plan@.take(i as int) == now);
            assert forall|k: int| 0 <= k < added@.len() implies new_episode_is(
                #[trigger] added@[k],
                new_ids@[k],
                pod_id,
                fetched@[insert_positions(now)[k]].title@,
                pod_title@,
            ) by {
                if k < had.len() {
                    assert(added@[k] == had[k]);
                    assert(insert_positions(now)[k] == insert_positions(before)[k]);
                } else {
                    assert(plan@[i - 1] is Insert);
                    assert(insert_positions(now)[k] == i - 1);
                }
            }
        }
    }
    assert(plan@.take(n as int) =~= plan@);
    if added.len() != new_ids.len() {
        return None;
    }
    Some(SyncResult { added, updated })
}

} // verus!
