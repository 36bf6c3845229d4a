//! Diagnostics utilities: the logging sink, identity of configuration
//! entries, and the composable validator framework.

use vstd::prelude::*;

verus! {

use crate::error::Error;
use crate::error::ErrorView;
use crate::error::outcome_view;
use crate::error::event::Event;
use crate::error::severity::Severity;
use crate::text::directory_like;
use crate::text::is_directory_like;
use crate::text::str_eq;

/// Stores diagnostic records about the execution.
///
/// A record is a severity together with the message text; `entries` is the
/// sequence of records stored so far, oldest first.
pub trait Logger {
    /// The records stored so far, oldest first.
    spec fn entries(&self) -> Seq<(Severity, Seq<char>)>;

    /// Stores one record.
    fn log(&mut self, severity: Severity, description: &str)
        ensures
            final (self).entries() == old(self).entries().push((severity, description@)),
    ;
}

impl Logger for Vec<Event> {
    open spec fn entries(&self) -> Seq<(Severity, Seq<char>)> {
        self@.map(|i: int, e: Event| (e.severity_spec(), e.description_spec()))
    }

    fn log(&mut self, severity: Severity, description: &str) {
        self.push(Event::new(severity, description));
        proof {
            assert(self.entries() =~= old(self).entries().push((severity, description@)));
        }
    }
}

/// The record the uniqueness validator logs when it finds a duplicate.
pub open spec fn duplicate_note(severity: Severity) -> (Severity, Seq<char>) {
    (severity, "Unique item declared twice."@)
}

/// Uniquely identifies an item within a collection.
///
/// Whenever entries of a collection must be pairwise distinct in some of
/// their properties, those properties form the item's identifier, and the
/// entry type implements this trait so that a uniqueness check can compare
/// the identifiers.
pub trait Id {
    /// The mathematical type of the identifier.
    type Identifier;

    /// The identifier of this item.
    spec fn id_spec(&self) -> Self::Identifier;

    /// Whether this item and `other` share their identifier.
    fn same_id(&self, other: &Self) -> (r: bool)
        ensures
            r == (self.id_spec() == other.id_spec()),
    ;

    /// A short description of the kind of item, used in diagnostics.
    spec fn description_spec(&self) -> Seq<char>;

    /// A short description of the kind of item, used in diagnostics.
    fn description(&self) -> (r: &'static str)
        ensures
            r@ == self.description_spec(),
    ;
}

/// Validates an item, writing diagnostics to a logger.
///
/// `verdict` is the outcome the check must produce and `notes` are the
/// records it must log; `validate` is the executable check, bound to both.
/// A validator for an aggregate delegates to per-field validators and
/// short-circuits on the first fatal failure.
pub trait Validator<T> {
    /// The outcome validation produces for `item`.
    spec fn verdict(&self, item: &T) -> Result<(), ErrorView>;

    /// The records validation logs while checking `item`, oldest first.
    spec fn notes(&self, item: &T) -> Seq<(Severity, Seq<char>)>;

    /// Validates `item`, writing all detected conditions to `logger` and
    /// returning an error exactly when a fatal condition was found.
    fn validate<L: Logger>(&self, logger: &mut L, item: &T) -> (r: Result<(), Error>)
        ensures
            outcome_view(r) == self.verdict(item),
            final (logger).entries() == old(logger).entries() + self.notes(item),
    ;
}

/// What the filesystem showed for a path when it was probed.
#[derive(Copy, Clone, Debug, PartialEq, Eq, Structural)]
pub enum PathStatus {
    /// Nothing exists at the path.
    Missing,
    /// The path names an existing file.
    File,
    /// The path names an existing directory.
    Directory,
}

/// Kind of validation for paths.
#[derive(Copy, Clone, Debug)]
pub enum PathValidatorKind {
    /// The path must name an existing directory.
    ExistingDirectory,
    /// The path must name an existing file.
    ExistingFile,
    /// The path must be usable as a file name: it must not be
    /// directory-like, whether or not anything exists at it.
    FilePath,
}

/// A path together with the status the filesystem showed for it.
#[derive(Debug)]
pub struct ObservedPath {
    pub path: String,
    pub status: PathStatus,
}

impl View for ObservedPath {
    type V = (Seq<char>, PathStatus);

    open spec fn view(&self) -> (Seq<char>, PathStatus) {
        (self.path@, self.status)
    }
}

/// An observation of the filesystem: the status each probed path had.
/// Paths that were never recorded count as missing.
#[derive(Debug)]
pub struct FsSnapshot {
    entries: Vec<(String, PathStatus)>,
}

/// The status `path` has in the recorded sequence `entries`: the status of
/// the first entry for that path, or `Missing` where none was recorded.
pub open spec fn fs_lookup(entries: Seq<(Seq<char>, PathStatus)>, path: Seq<char>) -> PathStatus
    decreases entries.len(),
{
    if entries.len() == 0 {
        PathStatus::Missing
    } else if entries[0].0 == path {
        entries[0].1
    } else {
        fs_lookup(entries.drop_first(), path)
    }
}

proof fn lemma_fs_lookup_skip(entries: Seq<(Seq<char>, PathStatus)>, path: Seq<char>, k: int)
    requires
        0 <= k <= entries.len(),
        forall|j: int| 0 <= j < k ==> (#[trigger] entries[j]).0 != path,
    ensures
        fs_lookup(entries, path) == fs_lookup(entries.subrange(k, entries.len() as int), path),
    decreases k,
{
    if k > 0 {
        lemma_fs_lookup_skip(entries, path, k - 1);
        let tail = entries.subrange(k - 1, entries.len() as int);
        assert(tail.drop_first() =~= entries.subrange(k, entries.len() as int));
    } else {
        assert(entries.subrange(0, entries.len() as int) =~= entries);
    }
}

impl View for FsSnapshot {
    type V = Seq<(Seq<char>, PathStatus)>;

    closed spec fn view(&self) -> Seq<(Seq<char>, PathStatus)> {
        self.entries@.map(|i: int, e: (String, PathStatus)| (e.0@, e.1))
    }
}

impl FsSnapshot {
    /// An observation that recorded nothing: every path counts as missing.
    pub fn new() -> (r: FsSnapshot)
        ensures
            r@ == Seq::<(Seq<char>, PathStatus)>::empty(),
    {
        let r = FsSnapshot { entries: Vec::new() };
        proof {
            assert(r@ =~= Seq::<(Seq<char>, PathStatus)>::empty());
        }
        r
    }

    /// Records the status observed for one path.
    pub fn record(&mut self, path: &str, status: PathStatus)
        ensures
            final (self)@ == old(self)@.push((path@, status)),
    {
        self.entries.push((String::from_str(path), status));
        proof {
            assert(self@ =~= old(self)@.push((path@, status)));
        }
    }

    /// The status recorded for `path`.
    pub open spec fn status_spec(&self, path: Seq<char>) -> PathStatus {
        fs_lookup(self@, path)
    }

    /// The status recorded for `path`; a path never recorded is missing.
    pub fn status(&self, path: &str) -> (r: PathStatus)
        ensures
            r == self.status_spec(path@),
    {
        let n = self.entries.len();
        let mut i: usize = 0;
        while i < n
            invariant
                n == self.entries.len(),
                0 <= i <= n,
                forall|j: int| 0 <= j < i ==> (#[trigger] self@[j]).0 != path@,
            decreases n - i,
        {
            if str_eq(self.entries[i].0.as_str(), path) {
                proof {
                    lemma_fs_lookup_skip(self@, path@, i as int);
                }
                return self.entries[i].1;
            }
            i = i + 1;
        }
        proof {
            lemma_fs_lookup_skip(self@, path@, n as int);
        }
        PathStatus::Missing
    }

    /// The observed status of `path`, bundled with the path itself.
    pub fn observe(&self, path: &str) -> (r: ObservedPath)
        ensures
            r@ == (path@, self.status_spec(path@)),
    {
        ObservedPath { path: String::from_str(path), status: self.status(path) }
    }
}

/// Validates a path using the specified severity and validator kind.
#[derive(Copy, Clone, Debug)]
pub struct PathValidator(pub Severity, pub PathValidatorKind);

/// Whether an observed path passes a check of the given kind.
pub open spec fn path_passes(kind: PathValidatorKind, path: Seq<char>, status: PathStatus) -> bool {
    match kind {
        PathValidatorKind::ExistingDirectory => status is Directory,
        PathValidatorKind::ExistingFile => status is File,
        PathValidatorKind::FilePath => !directory_like(path),
    }
}

/// The failure a check of the given kind reports for `path`.
pub open spec fn path_failure(kind: PathValidatorKind, path: Seq<char>) -> ErrorView {
    match kind {
        PathValidatorKind::ExistingDirectory => ErrorView::FileNotFound(path),
        PathValidatorKind::ExistingFile => ErrorView::FileNotFound(path),
        PathValidatorKind::FilePath => ErrorView::InvalidFilePath(path),
    }
}

/// The record a check of the given kind logs when it fails.
pub open spec fn path_note(kind: PathValidatorKind, severity: Severity) -> (Severity, Seq<char>) {
    match kind {
        PathValidatorKind::ExistingDirectory => (severity, "Directory does not exist."@),
        PathValidatorKind::ExistingFile => (severity, "File does not exist."@),
        PathValidatorKind::FilePath => (severity, "Not a valid file name."@),
    }
}

/// The outcome of a path check: a failing check is fatal exactly when the
/// configured severity reaches `Error`; below that the condition is only
/// logged.
pub open spec fn path_verdict(
    severity: Severity,
    kind: PathValidatorKind,
    path: Seq<char>,
    status: PathStatus,
) -> Result<(), ErrorView> {
    if path_passes(kind, path, status) || !severity.is_fatal_spec() {
        Result::Ok(())
    } else {
        Result::Err(path_failure(kind, path))
    }
}

/// The records a path check logs: one note exactly when the check fails.
pub open spec fn path_notes(
    severity: Severity,
    kind: PathValidatorKind,
    path: Seq<char>,
    status: PathStatus,
) -> Seq<(Severity, Seq<char>)> {
    if path_passes(kind, path, status) {
        Seq::empty()
    } else {
        seq![path_note(kind, severity)]
    }
}

impl Validator<ObservedPath> for PathValidator {
    open spec fn verdict(&self, item: &ObservedPath) -> Result<(), ErrorView> {
        path_verdict(self.0, self.1, item@.0, item@.1)
    }

    open spec fn notes(&self, item: &ObservedPath) -> Seq<(Severity, Seq<char>)> {
        path_notes(self.0, self.1, item@.0, item@.1)
    }

    fn validate<L: Logger>(&self, logger: &mut L, item: &ObservedPath) -> (r: Result<(), Error>) {
        let severity = self.0;
        let passes = match self.1 {
            PathValidatorKind::ExistingDirectory => match item.status {
                PathStatus::Directory => true,
                _ => false,
            },
            PathValidatorKind::ExistingFile => match item.status {
                PathStatus::File => true,
                _ => false,
            },
            PathValidatorKind::FilePath => !is_directory_like(item.path.as_str()),
        };
        if passes {
            proof {
                assert(final (logger).entries() =~= old(logger).entries() + self.notes(item));
            }
            return Result::Ok(());
        }
        match self.1 {
            PathValidatorKind::ExistingDirectory => logger.log(severity, "Directory does not exist."),
            PathValidatorKind::ExistingFile => logger.log(severity, "File does not exist."),
            PathValidatorKind::FilePath => logger.log(severity, "Not a valid file name."),
        }
        proof {
            assert(final (logger).entries() =~= old(logger).entries() + self.notes(item));
        }
        if severity.is_fatal() {
            match self.1 {
                PathValidatorKind::ExistingDirectory => Result::Err(
                    Error::FileNotFound(item.path.clone()),
                ),
                PathValidatorKind::ExistingFile => Result::Err(Error::FileNotFound(item.path.clone())),
                PathValidatorKind::FilePath => Result::Err(Error::InvalidFilePath(item.path.clone())),
            }
        } else {
            Result::Ok(())
        }
    }
}

/// Whether some item before position `i` shares the identifier of the item
/// at `i`.
pub open spec fn has_earlier_duplicate<I: Id>(items: Seq<I>, i: int) -> bool {
    exists|j: int| 0 <= j < i && (#[trigger] items[j].id_spec()) == items[i].id_spec()
}

/// The outcome of uniqueness-validating `items` from position `i` on:
/// the first item that repeats an earlier identifier yields the
/// duplicate-item failure, an item the inner validator rejects yields that
/// failure, and the scan stops at the first failure.
pub open spec fn scan_verdict<I: Id, V: Validator<I>>(inner: V, items: Seq<I>, i: int) -> Result<
    (),
    ErrorView,
>
    decreases items.len() - i,
{
    if i < 0 || i >= items.len() {
        Result::Ok(())
    } else if has_earlier_duplicate(items, i) {
        Result::Err(ErrorView::DuplicateItem(items[i].description_spec()))
    } else {
        match inner.verdict(&items[i]) {
            Result::Err(e) => Result::Err(e),
            Result::Ok(_) => scan_verdict(inner, items, i + 1),
        }
    }
}

/// The records uniqueness-validating `items` from position `i` on logs:
/// each item's own validation notes in order, closed by the duplicate note
/// where a duplicate stops the scan.
pub open spec fn scan_notes<I: Id, V: Validator<I>>(
    severity: Severity,
    inner: V,
    items: Seq<I>,
    i: int,
) -> Seq<(Severity, Seq<char>)>
    decreases items.len() - i,
{
    if i < 0 || i >= items.len() {
        Seq::empty()
    } else if has_earlier_duplicate(items, i) {
        seq![duplicate_note(severity)]
    } else {
        match inner.verdict(&items[i]) {
            Result::Err(_) => inner.notes(&items[i]),
            Result::Ok(_) => inner.notes(&items[i]) + scan_notes(severity, inner, items, i + 1),
        }
    }
}

/// Validates a collection of identified items: checks that no identifier
/// repeats, and delegates each item to the inner validator. The scan is
/// fail-fast and processes the collection in its declared order.
pub struct IdValidator<V>(pub Severity, pub V);

impl<I: Id, V: Validator<I>> Validator<Vec<I>> for IdValidator<V> {
    open spec fn verdict(&self, items: &Vec<I>) -> Result<(), ErrorView> {
        scan_verdict(self.1, items@, 0)
    }

    open spec fn notes(&self, items: &Vec<I>) -> Seq<(Severity, Seq<char>)> {
        scan_notes(self.0, self.1, items@, 0)
    }

    #[verifier::loop_isolation(false)]
    fn validate<L: Logger>(&self, logger: &mut L, items: &Vec<I>) -> (r: Result<(), Error>) {
        let ghost s = items@;
        let ghost base = old(logger).entries();
        let ghost mut taken: Seq<(Severity, Seq<char>)> = Seq::empty();
        let n = items.len();
        let mut i: usize = 0;
        while i < n
            invariant
                n == items@.len(),
                0 <= i <= n,
                s == items@,
                scan_verdict(self.1, s, 0) == scan_verdict(self.1, s, i as int),
                scan_notes(self.0, self.1, s, 0) == taken + scan_notes(self.0, self.1, s, i as int),
                logger.entries() == base + taken,
            decreases n - i,
        {
            let mut j: usize = 0;
            let mut dup = false;
            while j < i
                invariant
                    n == items@.len(),
                    s == items@,
                    0 <= j <= i < n,
                    dup == exists|k: int|
                        0 <= k < j && (#[trigger] s[k].id_spec()) == s[i as int].id_spec(),
                decreases i - j,
            {
                if items[j].same_id(&items[i]) {
                    dup = true;
                }
                j = j + 1;
            }
            assert(dup == has_earlier_duplicate(s, i as int));
            if dup {
                logger.log(self.0, "Unique item declared twice.");
                let d = items[i].description();
                proof {
                    assert(scan_notes(self.0, self.1, s, i as int) == seq![duplicate_note(self.0)]);
                    assert(self.notes(items) =~= taken + seq![duplicate_note(self.0)]);
                    assert(logger.entries() =~= base + self.notes(items));
                }
                return Result::Err(Error::DuplicateItem(String::from_str(d)));
            }
            let inner_result = self.1.validate(logger, &items[i]);
            proof {
                taken = taken + self.1.notes(&s[i as int]);
                assert(logger.entries() =~= base + taken);
            }
            match inner_result {
                Result::Err(e) => {
                    proof {
                        assert(scan_notes(self.0, self.1, s, i as int) == self.1.notes(
                            &s[i as int],
                        ));
                        assert(self.notes(items) =~= taken);
                    }
                    return Result::Err(e);
                },
                Result::Ok(_) => {
                    i = i + 1;
                },
            }
        }
        proof {
            assert(taken + scan_notes(self.0, self.1, s, n as int) =~= taken);
        }
        Result::Ok(())
    }
}

/// The least position that repeats an earlier identifier, given any
/// position that does.
pub proof fn lemma_least_duplicate<I: Id>(items: Seq<I>, w: int) -> (d: int)
    requires
        0 <= w < items.len(),
        has_earlier_duplicate(items, w),
    ensures
        0 <= d <= w,
        has_earlier_duplicate(items, d),
        forall|k: int| 0 <= k < d ==> !has_earlier_duplicate(items, k),
    decreases w,
{
    if exists|k: int| 0 <= k < w && has_earlier_duplicate(items, k) {
        let k = choose|k: int| 0 <= k < w && has_earlier_duplicate(items, k);
        lemma_least_duplicate(items, k)
    } else {
        w
    }
}

proof fn lemma_scan_reaches_duplicate<I: Id, V: Validator<I>>(
    inner: V,
    items: Seq<I>,
    d: int,
    i: int,
)
    requires
        0 <= i <= d < items.len(),
        has_earlier_duplicate(items, d),
        forall|k: int| 0 <= k < d ==> !has_earlier_duplicate(items, k),
        forall|k: int| 0 <= k < d ==> (#[trigger] inner.verdict(&items[k])) is Ok,
    ensures
        scan_verdict(inner, items, i) == Result::<(), ErrorView>::Err(
            ErrorView::DuplicateItem(items[d].description_spec()),
        ),
    decreases d - i,
{
    if i < d {
        lemma_scan_reaches_duplicate(inner, items, d, i + 1);
    }
}

/// Law: where two items of a collection share an identifier, and the
/// items up to the later of the two pass the inner validator on their
/// own, uniqueness validation fails with the duplicate-item error. The
/// scan runs in the declared order, so every item before the first
/// repetition is still validated individually before the duplicate is
/// found.
pub proof fn lemma_duplicate_identifier_fails<I: Id, V: Validator<I>>(
    inner: V,
    items: Seq<I>,
    i: int,
    j: int,
)
    requires
        0 <= i < j < items.len(),
        items[i].id_spec() == items[j].id_spec(),
        forall|k: int| 0 <= k < j ==> (#[trigger] inner.verdict(&items[k])) is Ok,
    ensures
        scan_verdict(inner, items, 0) matches Result::Err(ErrorView::DuplicateItem(_)),
{
    assert(has_earlier_duplicate(items, j));
    let d = lemma_least_duplicate(items, j);
    lemma_scan_reaches_duplicate(inner, items, d, 0);
}

proof fn lemma_scan_ok_no_duplicate<I: Id, V: Validator<I>>(
    inner: V,
    items: Seq<I>,
    k: int,
    m: int,
)
    requires
        scan_verdict(inner, items, k) is Ok,
        0 <= k <= m < items.len(),
    ensures
        !has_earlier_duplicate(items, m),
    decreases m - k,
{
    if k < m {
        lemma_scan_ok_no_duplicate(inner, items, k + 1, m);
    }
}

/// Law: where uniqueness validation succeeds, the identifiers of the
/// collection are pairwise distinct.
pub proof fn lemma_unique_when_valid<I: Id, V: Validator<I>>(
    inner: V,
    items: Seq<I>,
    i: int,
    j: int,
)
    requires
        scan_verdict(inner, items, 0) is Ok,
        0 <= i < j < items.len(),
    ensures
        items[i].id_spec() != items[j].id_spec(),
{
    lemma_scan_ok_no_duplicate(inner, items, 0, j);
}

/// Law: path validation is deterministic: checking one path with one
/// observed status yields one outcome, so validating the same unchanged
/// path twice yields the same result both times.
pub proof fn lemma_path_validation_deterministic(
    v: PathValidator,
    first: &ObservedPath,
    second: &ObservedPath,
)
    requires
        first@ == second@,
    ensures
        v.verdict(first) == v.verdict(second),
        v.notes(first) == v.notes(second),
{
}

} // verus!
