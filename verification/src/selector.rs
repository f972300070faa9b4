//! Choosing the artifact to download from a listing.

use crate::error::{ErrorKind, UpdateError};
use crate::listing::{ArtifactListing, EntryView};
use vstd::prelude::*;
use vstd::string::StringExecFns;

verus! {

/// The message of the failure that an empty listing gives where no name is
/// asked for.
pub const NO_ARTIFACTS: &'static str = "No artifacts are available";

/// The entry at index `i` is the first of `entries` with the name `name`.
pub open spec fn first_named(entries: Seq<EntryView>, name: Seq<char>, i: int) -> bool {
    &&& 0 <= i < entries.len()
    &&& entries[i].name == name
    &&& forall|j: int| 0 <= j < i ==> entries[j].name != name
}

/// No entry of `entries` has the name `name`.
pub open spec fn none_named(entries: Seq<EntryView>, name: Seq<char>) -> bool {
    forall|j: int| 0 <= j < entries.len() ==> entries[j].name != name
}

/// The message of the failure that a name which is not in the listing gives.
pub open spec fn not_found_message(name: Seq<char>) -> Seq<char> {
    "Artifact named \""@ + name + "\" does not exists"@
}

/// Two first entries of one name are the same entry.
pub proof fn lemma_first_named_unique(entries: Seq<EntryView>, name: Seq<char>, i: int, k: int)
    requires
        first_named(entries, name, i),
        first_named(entries, name, k),
    ensures
        i == k,
{
    if i < k {
        assert(entries[i].name != name);
    } else if k < i {
        assert(entries[k].name != name);
    }
}

/// Where an entry has the name, there is a first entry that has it.
pub proof fn lemma_named_has_first(entries: Seq<EntryView>, name: Seq<char>, i: int) -> (k: int)
    requires
        0 <= i < entries.len(),
        entries[i].name == name,
    ensures
        first_named(entries, name, k),
        k <= i,
    decreases i,
{
    if exists|j: int| 0 <= j < i && entries[j].name == name {
        let j = choose|j: int| 0 <= j < i && entries[j].name == name;
        lemma_named_has_first(entries, name, j)
    } else {
        i
    }
}

/// The address from which to download: that of the first artifact of the
/// listing where no name is asked for, that of the first artifact with the
/// name where one is. A not-found error where the listing is empty, or has
/// no artifact of that name; the message then names the artifact asked for.
pub fn artifact_url(listing: &ArtifactListing, artifact_name: Option<String>) -> (r: Result<
    String,
    UpdateError,
>)
    ensures
        artifact_name is None ==> if listing@.len() >= 1 {
            r is Ok && r->Ok_0@ == listing@[0].download_url
        } else {
            r is Err && r->Err_0.kind == ErrorKind::NotFound && r->Err_0.message@ == NO_ARTIFACTS@
        },
        artifact_name matches Some(name) ==> match r {
            Ok(url) => exists|i: int|
                #[trigger] first_named(listing@, name@, i) && url@ == listing@[i].download_url,
            Err(e) => none_named(listing@, name@) && e.kind == ErrorKind::NotFound && e.message@
                == not_found_message(name@),
        },
{
    let count = listing.count();
    match artifact_name {
        None => {
            if count == 0 {
                Err(UpdateError::new(ErrorKind::NotFound, NO_ARTIFACTS))
            } else {
                Ok(listing.entry(0).download_url.clone())
            }
        },
        Some(name) => {
            let mut n: usize = 0;
            while n < count
                invariant
                    n <= count,
                    count == listing@.len(),
                    artifact_name == Some(name),
                    forall|j: int| 0 <= j < n ==> listing@[j].name != name@,
                decreases count - n,
            {
                let entry = listing.entry(n);
                if entry.name == name {
                    let url = entry.download_url.clone();
                    assert(first_named(listing@, artifact_name->0@, n as int));
                    return Ok(url);
                }
                n = n + 1;
            }
            let mut message = "Artifact named \"".to_owned();
            message.append(name.as_str());
            message.append("\" does not exists");
            Err(UpdateError { kind: ErrorKind::NotFound, message })
        },
    }
}

} // verus!
