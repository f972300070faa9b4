//! The listing of the artifacts of a repository: where it is asked for, and
//! how the answer is read.

use crate::error::{ErrorKind, UpdateError};
use crate::json::{
    json_element, json_error_text, json_is_array, json_member, json_model, json_parsed,
    json_text, json_unsigned, parse_json, Json,
};
use crate::text::{decimal, to_decimal, views};
use vstd::prelude::*;
use vstd::string::StringExecFns;

verus! {

/// The address under which the build service keeps its repositories.
pub const GH_URL: &'static str = "https://api.github.com/repos";

/// The path of the artifact listing below a repository.
pub const GH_ARTIFACTS: &'static str = "actions/artifacts";

/// The message of the failure that a listing of the wrong shape gives.
pub const LISTING_MALFORMED: &'static str = "Artifact listing is malformed";

/// The message of the failure that a body which is no JSON document gives
/// starts with these words; the cause that the parser names follows.
pub const NOT_JSON: &'static str = "Json conversion failed";

/// The first line of the report of a listing.
pub const REPORT_HEADER: &'static str = "Available artifacts:";

/// One artifact of a listing.
#[derive(Debug, Clone, PartialEq, Eq)]
pub struct ArtifactEntry {
    pub name: String,
    pub download_url: String,
}

/// An `ArtifactEntry` as a mathematical value.
pub struct EntryView {
    pub name: Seq<char>,
    pub download_url: Seq<char>,
}

impl View for ArtifactEntry {
    type V = EntryView;

    open spec fn view(&self) -> EntryView {
        EntryView { name: self.name@, download_url: self.download_url@ }
    }
}

/// The artifacts of a repository, in the order of the listing, with their
/// number.
#[derive(Debug, PartialEq, Eq)]
pub struct ArtifactListing {
    count: usize,
    entries: Vec<ArtifactEntry>,
}

impl View for ArtifactListing {
    type V = Seq<EntryView>;

    closed spec fn view(&self) -> Seq<EntryView> {
        views(self.entries@)
    }
}

impl ArtifactListing {
    /// The count is the number of entries.
    #[verifier::type_invariant]
    spec fn well_formed(self) -> bool {
        self.count == self.entries@.len()
    }

    /// The listing of the first `total_count` of `entries`. A protocol error
    /// where there are fewer entries than that.
    pub fn new(total_count: u64, entries: Vec<ArtifactEntry>) -> (r: Result<
        ArtifactListing,
        UpdateError,
    >)
        ensures
            match r {
                Ok(listing) => total_count <= entries@.len() && listing@ == views(entries@).take(
                    total_count as int,
                ),
                Err(e) => total_count > entries@.len() && e.kind == ErrorKind::Protocol
                    && e.message@ == LISTING_MALFORMED@,
            },
    {
        if total_count > entries.len() as u64 {
            return Err(UpdateError::new(ErrorKind::Protocol, LISTING_MALFORMED));
        }
        let count = total_count as usize;
        let mut entries = entries;
        let ghost all = entries@;
        entries.truncate(count);
        assert(views(entries@) =~= views(all).take(total_count as int));
        Ok(ArtifactListing { count, entries })
    }

    /// The number of artifacts.
    pub fn count(&self) -> (n: usize)
        ensures
            n == self@.len(),
    {
        proof {
            use_type_invariant(self);
        }
        self.count
    }

    /// The artifact at index `n`, which is below the count.
    pub fn entry(&self, n: usize) -> (e: &ArtifactEntry)
        requires
            n < self@.len(),
        ensures
            e@ == self@[n as int],
    {
        &self.entries[n]
    }

    /// The artifact at index `n`; `None` from the count on.
    pub fn get(&self, n: usize) -> (e: Option<&ArtifactEntry>)
        ensures
            match e {
                Some(entry) => n < self@.len() && entry@ == self@[n as int],
                None => n >= self@.len(),
            },
    {
        if n < self.entries.len() {
            Some(&self.entries[n])
        } else {
            None
        }
    }
}

/// The address of the artifact listing of the repository `repo`.
pub open spec fn listing_address(repo: Seq<char>) -> Seq<char> {
    GH_URL@ + "/"@ + repo + "/"@ + GH_ARTIFACTS@
}

/// The address to ask for the artifact listing of the repository `repo`.
pub fn listing_url(repo: &str) -> (url: String)
    ensures
        url@ == listing_address(repo@),
{
    let mut url = GH_URL.to_owned();
    url.append("/");
    url.append(repo);
    url.append("/");
    url.append(GH_ARTIFACTS);
    url
}

/// The artifact that a JSON value describes: an object with a string `name`
/// and a string `archive_download_url`. `None` for any other value.
pub open spec fn entry_of(v: Json) -> Option<EntryView> {
    match (v.member("name"@), v.member("archive_download_url"@)) {
        (Some(n), Some(u)) => match (n.text(), u.text()) {
            (Some(name), Some(download_url)) => Some(EntryView { name, download_url }),
            _ => None,
        },
        _ => None,
    }
}

/// The artifact at index `i` of the array `artifacts` of a document.
pub open spec fn entry_at(doc: Json, i: int) -> Option<EntryView> {
    match doc.member("artifacts"@) {
        Some(artifacts) => match artifacts.element(i) {
            Some(e) => entry_of(e),
            None => None,
        },
        None => None,
    }
}

/// The listing that a document describes: an object whose `total_count` is
/// an integer that fits the machine word, and whose `artifacts` is an array
/// that holds an artifact at each index below that count. What the array
/// holds from the count on is not read. `None` for any other document.
pub open spec fn listing_of(doc: Json) -> Option<Seq<EntryView>> {
    match (doc.member("total_count"@), doc.member("artifacts"@)) {
        (Some(count), Some(artifacts)) => match count.unsigned() {
            Some(n) => if n <= usize::MAX && artifacts.is_array() && (forall|i: int|
                0 <= i < n ==> entry_at(doc, i) is Some) {
                Some(Seq::new(n as nat, |i: int| entry_at(doc, i)->0))
            } else {
                None
            },
            None => None,
        },
        _ => None,
    }
}

/// The listing that the text of a response describes; `None` where the text
/// is no JSON document or the document describes no listing.
pub open spec fn listing_of_text(body: Seq<char>) -> Option<Seq<EntryView>> {
    match json_parsed(body) {
        Some(doc) => listing_of(doc),
        None => None,
    }
}

fn malformed() -> (e: UpdateError)
    ensures
        e.kind == ErrorKind::Protocol,
        e.message@ == LISTING_MALFORMED@,
{
    UpdateError::new(ErrorKind::Protocol, LISTING_MALFORMED)
}

/// Reads one artifact from a JSON value.
fn entry_from_json(v: &serde_json::Value) -> (r: Option<ArtifactEntry>)
    ensures
        match r {
            Some(entry) => entry_of(json_model(*v)) == Some(entry@),
            None => entry_of(json_model(*v)) is None,
        },
{
    let name = match json_member(v, "name") {
        Some(n) => match json_text(n) {
            Some(s) => s.to_owned(),
            None => {
                return None;
            },
        },
        None => {
            return None;
        },
    };
    let download_url = match json_member(v, "archive_download_url") {
        Some(u) => match json_text(u) {
            Some(s) => s.to_owned(),
            None => {
                return None;
            },
        },
        None => {
            return None;
        },
    };
    Some(ArtifactEntry { name, download_url })
}

/// Reads the listing that a parsed response describes. A protocol error
/// where it describes none.
pub fn listing_from_json(doc: &serde_json::Value) -> (r: Result<ArtifactListing, UpdateError>)
    ensures
        match listing_of(json_model(*doc)) {
            Some(entries) => r is Ok && r->Ok_0@ == entries,
            None => r is Err && r->Err_0.kind == ErrorKind::Protocol && r->Err_0.message@
                == LISTING_MALFORMED@,
        },
{
    let total = match json_member(doc, "total_count") {
        Some(c) => match json_unsigned(c) {
            Some(n) => n,
            None => {
                return Err(malformed());
            },
        },
        None => {
            return Err(malformed());
        },
    };
    let artifacts = match json_member(doc, "artifacts") {
        Some(a) => a,
        None => {
            return Err(malformed());
        },
    };
    if total > usize::MAX as u64 || !json_is_array(artifacts) {
        return Err(malformed());
    }
    let count = total as usize;
    let mut entries: Vec<ArtifactEntry> = Vec::new();
    let mut i: usize = 0;
    while i < count
        invariant
            i <= count,
            count == total,
            json_model(*doc).member("total_count"@) is Some,
            json_model(*doc).member("total_count"@)->0.unsigned() == Some(total),
            json_model(*doc).member("artifacts"@) == Some(json_model(*artifacts)),
            json_model(*artifacts).is_array(),
            entries@.len() == i,
            forall|j: int|
                0 <= j < i ==> #[trigger] entry_at(json_model(*doc), j) == Some(entries@[j]@),
        decreases count - i,
    {
        let entry = match json_element(artifacts, i) {
            Some(e) => match entry_from_json(e) {
                Some(entry) => entry,
                None => {
                    assert(entry_at(json_model(*doc), i as int) is None);
                    return Err(malformed());
                },
            },
            None => {
                assert(entry_at(json_model(*doc), i as int) is None);
                return Err(malformed());
            },
        };
        entries.push(entry);
        i = i + 1;
    }
    assert(views(entries@) =~= listing_of(json_model(*doc))->0);
    assert(views(entries@).take(total as int) =~= views(entries@));
    ArtifactListing::new(total, entries)
}

/// Reads the listing from the body of a response. A protocol error where
/// the body is no JSON document or the document describes no listing.
pub fn parse_listing(body: &str) -> (r: Result<ArtifactListing, UpdateError>)
    ensures
        match listing_of_text(body@) {
            Some(entries) => r is Ok && r->Ok_0@ == entries,
            None => r is Err && r->Err_0.kind == ErrorKind::Protocol,
        },
        json_parsed(body@) is None ==> NOT_JSON@.is_prefix_of(r->Err_0.message@),
        json_parsed(body@) is Some && listing_of_text(body@) is None ==> r->Err_0.message@
            == LISTING_MALFORMED@,
{
    match parse_json(body) {
        Ok(doc) => listing_from_json(&doc),
        Err(e) => {
            let cause = json_error_text(&e);
            Err(UpdateError::with_cause(ErrorKind::Protocol, NOT_JSON, cause.as_str()))
        },
    }
}

/// The line of a report for the artifact at index `n`.
pub open spec fn report_line(n: nat, name: Seq<char>) -> Seq<char> {
    "\tartifact "@ + decimal(n) + " = "@ + name
}

/// The report of a listing: a header, then one line for each artifact, in
/// the order of the listing.
pub open spec fn report_of(entries: Seq<EntryView>) -> Seq<Seq<char>> {
    Seq::new(
        entries.len() + 1,
        |i: int|
            if i == 0 {
                REPORT_HEADER@
            } else {
                report_line((i - 1) as nat, entries[i - 1].name)
            },
    )
}

/// The lines that show a listing to the user.
pub fn artifact_report(listing: &ArtifactListing) -> (lines: Vec<String>)
    ensures
        views(lines@) == report_of(listing@),
{
    let count = listing.count();
    let mut lines: Vec<String> = Vec::new();
    lines.push(REPORT_HEADER.to_owned());
    let mut n: usize = 0;
    while n < count
        invariant
            n <= count,
            count == listing@.len(),
            lines@.len() == n + 1,
            lines@[0]@ == REPORT_HEADER@,
            forall|i: int| 1 <= i <= n ==> (#[trigger] lines@[i])@ == report_line(
                (i - 1) as nat,
                listing@[i - 1].name,
            ),
        decreases count - n,
    {
        let entry = listing.entry(n);
        let mut line = "\tartifact ".to_owned();
        line.append(to_decimal(n).as_str());
        line.append(" = ");
        line.append(entry.name.as_str());
        lines.push(line);
        n = n + 1;
    }
    assert(views(lines@) =~= report_of(listing@));
    lines
}

} // verus!
