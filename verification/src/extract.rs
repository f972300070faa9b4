//! Planning the unpacking of an untrusted archive.
//!
//! The archive is decoded from bytes held in memory into a plan: the
//! directories to create and the files to write, in container order, each
//! under a path relative to the target root. An entry whose path could lead
//! out of the target root is left out of the plan.

use crate::archive::{
    archive_entries, archive_len, enclosed_name, entry_data, entry_path, open_archive,
    zip_entries, zip_error_text, StoredEntry,
};
use crate::error::{ErrorKind, UpdateError};
use crate::text::{chars_of, views};
use vstd::prelude::*;

verus! {

/// One step of unpacking, relative to the target root.
#[derive(Debug, Clone, PartialEq, Eq)]
pub enum ExtractOp {
    /// Create the directory at `path` and every missing ancestor of it.
    CreateDir { path: String },
    /// Make sure the parent directory of `path` exists, then create the file
    /// at `path`, replacing one that is there, and write `data` into it.
    WriteFile { path: String, data: Vec<u8> },
}

/// An `ExtractOp` as a mathematical value.
pub enum OpView {
    CreateDir { path: Seq<char> },
    WriteFile { path: Seq<char>, data: Seq<u8> },
}

impl View for ExtractOp {
    type V = OpView;

    open spec fn view(&self) -> OpView {
        match *self {
            ExtractOp::CreateDir { path } => OpView::CreateDir { path: path@ },
            ExtractOp::WriteFile { path, data } => OpView::WriteFile { path: path@, data: data@ },
        }
    }
}

impl OpView {
    /// The path that the step touches.
    pub open spec fn path(self) -> Seq<char> {
        match self {
            OpView::CreateDir { path } => path,
            OpView::WriteFile { path, .. } => path,
        }
    }
}

/// A component `..` of `s` starts at index `i`.
pub open spec fn parent_component_at(s: Seq<char>, i: int) -> bool {
    &&& 0 <= i
    &&& i + 2 <= s.len()
    &&& s[i] == '.'
    &&& s[i + 1] == '.'
    &&& (i == 0 || s[i - 1] == '/')
    &&& (i + 2 == s.len() || s[i + 2] == '/')
}

/// The path is relative, has no NUL character and no component `..`.
pub open spec fn confined(path: Seq<char>) -> bool {
    &&& !(path.len() > 0 && path[0] == '/')
    &&& forall|i: int| 0 <= i < path.len() ==> path[i] != '\0'
    &&& forall|i: int| !parent_component_at(path, i)
}

/// The path names a directory: it ends in a separator.
pub open spec fn directory_name(path: Seq<char>) -> bool {
    path.len() > 0 && (path.last() == '/' || path.last() == '\\')
}

/// The index of the first separator of `s` at or after `from`; `s.len()`
/// where there is none.
pub open spec fn component_end(s: Seq<char>, from: int) -> int
    decreases s.len() - from,
{
    if from >= s.len() || s[from] == '/' {
        from
    } else {
        component_end(s, from + 1)
    }
}

/// Following the components of `s` from index `from` on, starting `depth`
/// directories below the root, never leads above the root.
pub open spec fn stays_below(s: Seq<char>, from: int, depth: nat) -> bool
    decreases s.len() - from,
{
    if from < 0 || from >= s.len() {
        true
    } else {
        let end = component_end(s, from);
        let component = s.subrange(from, end);
        let more = from <= end < s.len();
        if component == seq!['.', '.'] {
            depth > 0 && (more ==> stays_below(s, end + 1, (depth - 1) as nat))
        } else if component.len() == 0 || component == seq!['.'] {
            more ==> stays_below(s, end + 1, depth)
        } else {
            more ==> stays_below(s, end + 1, depth + 1)
        }
    }
}

/// Resolved against a root directory, the path names the root or something
/// below it.
pub open spec fn stays_inside(path: Seq<char>) -> bool {
    &&& !(path.len() > 0 && path[0] == '/')
    &&& stays_below(path, 0, 0)
}

/// What is done with an entry, once its name is known.
#[derive(Debug, Clone, PartialEq, Eq)]
pub enum Decision {
    /// The entry is left out.
    Skip,
    /// The entry is a directory to create at this path.
    Directory(String),
    /// The entry is a file to write at this path.
    File(String),
}

/// A `Decision` as a mathematical value.
pub enum DecisionView {
    Skip,
    Directory(Seq<char>),
    File(Seq<char>),
}

impl View for Decision {
    type V = DecisionView;

    open spec fn view(&self) -> DecisionView {
        match *self {
            Decision::Skip => DecisionView::Skip,
            Decision::Directory(path) => DecisionView::Directory(path@),
            Decision::File(path) => DecisionView::File(path@),
        }
    }
}

/// The decision for an entry whose name the `zip` crate made `enclosed` of.
pub open spec fn decision_for(enclosed: Option<Seq<char>>) -> DecisionView {
    match enclosed {
        None => DecisionView::Skip,
        Some(path) => if !confined(path) {
            DecisionView::Skip
        } else if directory_name(path) {
            DecisionView::Directory(path)
        } else {
            DecisionView::File(path)
        },
    }
}

/// The steps that one entry adds to the plan: none where it is skipped, one
/// otherwise; `None` where the entry cannot be opened, or is a file to write
/// whose data cannot be read.
pub open spec fn entry_ops(e: StoredEntry) -> Option<Seq<OpView>> {
    if !e.opens {
        None
    } else {
        match decision_for(enclosed_name(e.name)) {
            DecisionView::Skip => Some(Seq::empty()),
            DecisionView::Directory(path) => Some(seq![OpView::CreateDir { path }]),
            DecisionView::File(path) => match e.data {
                None => None,
                Some(data) => Some(seq![OpView::WriteFile { path, data }]),
            },
        }
    }
}

/// The plan for a sequence of entries: the steps of each entry, in container
/// order; `None` where some entry has none.
pub open spec fn plan_of(entries: Seq<StoredEntry>) -> Option<Seq<OpView>>
    decreases entries.len(),
{
    if entries.len() == 0 {
        Some(Seq::empty())
    } else {
        match (plan_of(entries.drop_last()), entry_ops(entries.last())) {
            (Some(ops), Some(more)) => Some(ops + more),
            _ => None,
        }
    }
}

/// The plan for a container made of `bytes`; `None` where the container or
/// one of its entries is malformed.
pub open spec fn extraction_of(bytes: Seq<u8>) -> Option<Seq<OpView>> {
    match zip_entries(bytes) {
        None => None,
        Some(entries) => plan_of(entries),
    }
}

/// Every step of the plan touches a confined path.
pub open spec fn plan_confined(ops: Seq<OpView>) -> bool {
    forall|i: int| 0 <= i < ops.len() ==> confined(#[trigger] ops[i].path())
}

/// Whether `path` names a directory.
pub fn is_directory_name(path: &str) -> (b: bool)
    ensures
        b == directory_name(path@),
{
    let chars = chars_of(path);
    let n = chars.len();
    n > 0 && (chars[n - 1] == '/' || chars[n - 1] == '\\')
}

/// Whether `path` is confined: relative, free of NUL and of `..` components.
pub fn is_confined(path: &str) -> (b: bool)
    ensures
        b == confined(path@),
{
    let chars = chars_of(path);
    let n = chars.len();
    let ghost s = chars@;
    // Where the component under the cursor starts, and how it reads so far:
    // 0 for nothing yet, 1 for ".", 2 for "..", 3 for anything else.
    let ghost start: int = 0;
    let mut shape: u8 = 0;
    let mut i: usize = 0;
    while i < n
        invariant
            s == chars@,
            s == path@,
            n == s.len(),
            0 <= start <= i <= n,
            start == 0 || s[start - 1] == '/',
            forall|j: int| start <= j < i ==> s[j] != '/',
            forall|j: int| 0 <= j < i ==> s[j] != '\0',
            i > 0 ==> s[0] != '/',
            forall|j: int| 0 <= j < start ==> !parent_component_at(s, j),
            shape == 0 <==> i == start,
            shape == 1 <==> (i == start + 1 && s[start] == '.'),
            shape == 2 <==> (i == start + 2 && s[start] == '.' && s[start + 1] == '.'),
            shape <= 3,
        decreases n - i,
    {
        let c = chars[i];
        if c == '\0' {
            return false;
        }
        if c == '/' {
            if i == 0 {
                return false;
            }
            if shape == 2 {
                assert(parent_component_at(s, start));
                return false;
            }
            proof {
                start = i + 1;
            }
            shape = 0;
        } else if c == '.' {
            shape = if shape == 0 {
                1
            } else if shape == 1 {
                2
            } else {
                3
            };
        } else {
            shape = 3;
        }
        i = i + 1;
    }
    if shape == 2 {
        assert(parent_component_at(s, start));
        false
    } else {
        true
    }
}

/// Decides what to do with an entry from what the `zip` crate made of its
/// name: an entry without a safe name is skipped, and so is one whose name
/// is not confined; a name that ends in a separator is a directory.
pub fn entry_decision(enclosed: Option<String>) -> (d: Decision)
    ensures
        d@ == decision_for(
            match enclosed {
                Some(path) => Some(path@),
                None => None,
            },
        ),
{
    match enclosed {
        None => Decision::Skip,
        Some(path) => {
            if !is_confined(path.as_str()) {
                Decision::Skip
            } else if is_directory_name(path.as_str()) {
                Decision::Directory(path)
            } else {
                Decision::File(path)
            }
        },
    }
}

/// The message of a format error starts with these words; the cause that the
/// `zip` crate names follows.
pub const MALFORMED: &'static str = "Invalid zip archive";

fn malformed(e: &zip::result::ZipError) -> (r: UpdateError)
    ensures
        r.kind == ErrorKind::Format,
        MALFORMED@.is_prefix_of(r.message@),
{
    let cause = zip_error_text(e);
    UpdateError::with_cause(ErrorKind::Format, MALFORMED, cause.as_str())
}

/// Decodes the zip container `bytes` and plans its unpacking.
///
/// The plan holds, in container order, one step for each entry that is not
/// skipped. It fails with a format error where the container is malformed,
/// an entry cannot be opened, or the data of a file to write cannot be read.
/// Every path in the plan is confined.
pub fn extraction_plan(bytes: Vec<u8>) -> (r: Result<Vec<ExtractOp>, UpdateError>)
    ensures
        match extraction_of(bytes@) {
            Some(ops) => r is Ok && views(r->Ok_0@) == ops,
            None => r is Err && r->Err_0.kind == ErrorKind::Format && MALFORMED@.is_prefix_of(
                r->Err_0.message@,
            ),
        },
        r matches Ok(plan) ==> plan_confined(views(plan@)),
{
    let mut archive = match open_archive(bytes) {
        Ok(a) => a,
        Err(e) => {
            return Err(malformed(&e));
        },
    };
    let ghost entries = archive_entries(archive);
    let n = archive_len(&archive);
    let mut plan: Vec<ExtractOp> = Vec::new();
    let mut i: usize = 0;
    assert(entries.take(0) =~= Seq::empty());
    assert(views(plan@) =~= Seq::empty());
    while i < n
        invariant
            archive_entries(archive) == entries,
            zip_entries(bytes@) == Some(entries),
            n == entries.len(),
            i <= n,
            plan_of(entries.take(i as int)) == Some(views(plan@)),
            plan_confined(views(plan@)),
        decreases n - i,
    {
        let ghost before = views(plan@);
        proof {
            lemma_plan_of_step(entries, i as int);
        }
        let enclosed = match entry_path(&mut archive, i) {
            Ok(p) => p,
            Err(e) => {
                proof {
                    lemma_plan_of_prefix(entries, i + 1);
                }
                return Err(malformed(&e));
            },
        };
        match entry_decision(enclosed) {
            Decision::Skip => {
                assert(before + Seq::<OpView>::empty() =~= before);
            },
            Decision::Directory(path) => {
                plan.push(ExtractOp::CreateDir { path });
                assert(views(plan@) =~= before + seq![OpView::CreateDir { path: path@ }]);
            },
            Decision::File(path) => {
                let data = match entry_data(&mut archive, i) {
                    Ok(d) => d,
                    Err(e) => {
                        proof {
                            lemma_plan_of_prefix(entries, i + 1);
                        }
                        return Err(malformed(&e));
                    },
                };
                plan.push(ExtractOp::WriteFile { path, data });
                assert(views(plan@) =~= before + seq![
                    OpView::WriteFile { path: path@, data: data@ },
                ]);
            },
        }
        i = i + 1;
    }
    assert(entries.take(n as int) =~= entries);
    Ok(plan)
}

/// The plan for one entry more is the plan so far, followed by the steps of
/// that entry.
proof fn lemma_plan_of_step(entries: Seq<StoredEntry>, i: int)
    requires
        0 <= i < entries.len(),
    ensures
        plan_of(entries.take(i + 1)) == match (plan_of(entries.take(i)), entry_ops(entries[i])) {
            (Some(ops), Some(more)) => Some(ops + more),
            _ => None,
        },
{
    assert(entries.take(i + 1).drop_last() =~= entries.take(i));
    assert(entries.take(i + 1).last() == entries[i]);
}

/// A plan that fails for a prefix of the entries fails for all of them.
proof fn lemma_plan_of_prefix(entries: Seq<StoredEntry>, k: int)
    requires
        0 <= k <= entries.len(),
        plan_of(entries.take(k)) is None,
    ensures
        plan_of(entries) is None,
    decreases entries.len(),
{
    if k < entries.len() {
        assert(entries.drop_last().take(k) =~= entries.take(k));
        lemma_plan_of_prefix(entries.drop_last(), k);
    } else {
        assert(entries.take(k) =~= entries);
    }
}

/// No step of a plan leaves the target root: every path in the plan of any
/// sequence of entries is confined.
pub proof fn lemma_plan_is_confined(entries: Seq<StoredEntry>)
    ensures
        plan_of(entries) matches Some(ops) ==> plan_confined(ops),
    decreases entries.len(),
{
    if entries.len() > 0 {
        lemma_plan_is_confined(entries.drop_last());
    }
}

/// A confined path, followed component by component from the target root,
/// never leads above it.
pub proof fn lemma_confined_stays_inside(path: Seq<char>)
    requires
        confined(path),
    ensures
        stays_inside(path),
{
    lemma_stays_below(path, 0, 0);
}

/// No step of a confined plan leads out of the target root.
pub proof fn lemma_plan_stays_inside(ops: Seq<OpView>)
    requires
        plan_confined(ops),
    ensures
        forall|i: int| 0 <= i < ops.len() ==> stays_inside(#[trigger] ops[i].path()),
{
    assert forall|i: int| 0 <= i < ops.len() implies stays_inside(#[trigger] ops[i].path()) by {
        lemma_confined_stays_inside(ops[i].path());
    }
}

proof fn lemma_component_end(s: Seq<char>, from: int)
    requires
        0 <= from <= s.len(),
    ensures
        from <= component_end(s, from) <= s.len(),
        component_end(s, from) < s.len() ==> s[component_end(s, from)] == '/',
        forall|j: int| from <= j < component_end(s, from) ==> s[j] != '/',
    decreases s.len() - from,
{
    if from < s.len() && s[from] != '/' {
        lemma_component_end(s, from + 1);
    }
}

proof fn lemma_stays_below(s: Seq<char>, from: int, depth: nat)
    requires
        0 <= from,
        from == 0 || (from <= s.len() && s[from - 1] == '/'),
        forall|i: int| !parent_component_at(s, i),
    ensures
        stays_below(s, from, depth),
    decreases s.len() - from,
{
    if from < s.len() {
        lemma_component_end(s, from);
        let end = component_end(s, from);
        let component = s.subrange(from, end);
        if component == seq!['.', '.'] {
            assert(component.len() == 2);
            assert(component[0] == '.' && component[1] == '.');
            assert(parent_component_at(s, from));
        } else if end < s.len() {
            if component.len() == 0 || component == seq!['.'] {
                lemma_stays_below(s, end + 1, depth);
            } else {
                lemma_stays_below(s, end + 1, depth + 1);
            }
        }
    }
}

/// Unpacking is repeatable: two plans that each meet what `extraction_plan`
/// promises for the same bytes are the same, step for step and byte for byte.
pub proof fn lemma_extraction_repeatable(bytes: Seq<u8>, first: Seq<OpView>, second: Seq<OpView>)
    requires
        extraction_of(bytes) == Some(first),
        extraction_of(bytes) == Some(second),
    ensures
        first == second,
{
}

} // verus!
