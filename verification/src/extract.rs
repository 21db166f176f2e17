//! Which entries of a release archive are installed, and where.
//!
//! An archive is read front to back, one entry at a time. Of each entry
//! only its name and whether it is a directory matter here: the rules below
//! pick the runtime binary and the files of the companion runtime, and let
//! everything else pass.

use vstd::prelude::*;
use vstd::string::StringExecFns;
use crate::text::{chars_of, starts_with_in};

verus! {

/// The base name of the runtime binary begins with this.
pub const BINARY_PREFIX: &'static str = "Godot_";

/// The folder of the companion runtime, directly below the archive's top
/// folder, begins with this.
pub const COMPANION_FOLDER: &'static str = "GodotSharp";

/// One entry of an archive, as the reader meets it.
#[derive(Debug, Clone, PartialEq, Eq)]
pub struct ArchiveEntry {
    pub relative_path: String,
    pub is_directory: bool,
}

/// What is done with one entry.
#[derive(Debug, Clone, PartialEq, Eq)]
pub enum InstallTarget {
    /// The entry is passed over.
    Skip,
    /// The entry's content is written to `destination_path`, a path below
    /// the destination root, and the file is made executable for everyone
    /// if `executable` is set.
    Write { destination_path: String, executable: bool },
}

impl View for InstallTarget {
    type V = Option<(Seq<char>, bool)>;

    open spec fn view(&self) -> Option<(Seq<char>, bool)> {
        match *self {
            InstallTarget::Skip => None,
            InstallTarget::Write { destination_path, executable } => Some(
                (destination_path@, executable),
            ),
        }
    }
}

/// The number of characters from position `from` up to the next slash, or
/// up to the end where no slash follows.
pub open spec fn segment_len(path: Seq<char>, from: int) -> nat
    decreases path.len() - from,
{
    if from < 0 || from >= path.len() || path[from] == '/' {
        0
    } else {
        1 + segment_len(path, from + 1)
    }
}

/// The position at which the segment after the one at `from` begins: past
/// the slash that ends this one, or the end of `path` where none does.
pub open spec fn next_segment(path: Seq<char>, from: int) -> int {
    let end = from + segment_len(path, from);
    if end < path.len() {
        end + 1
    } else {
        path.len() as int
    }
}

/// A segment that names no step: an empty one, or a single dot.
pub open spec fn is_blank(segment: Seq<char>) -> bool {
    segment.len() == 0 || segment == seq!['.']
}

/// The segment that steps up to the parent: two dots.
pub open spec fn is_parent(segment: Seq<char>) -> bool {
    segment == seq!['.', '.']
}

/// Walking the segments of `path` from position `from`, having gone
/// `depth` folders down from the root, never steps above the root.
pub open spec fn stays_inside_from(path: Seq<char>, from: int, depth: int) -> bool
    decreases path.len() - from,
{
    if from < 0 || from >= path.len() {
        true
    } else {
        let len = segment_len(path, from);
        let segment = path.subrange(from, from + len);
        if is_parent(segment) {
            depth > 0 && stays_inside_from(path, next_segment(path, from), depth - 1)
        } else if is_blank(segment) {
            stays_inside_from(path, next_segment(path, from), depth)
        } else {
            stays_inside_from(path, next_segment(path, from), depth + 1)
        }
    }
}

/// `path` names a place at or below the folder it is resolved in: it holds
/// no NUL, is not absolute, and none of its prefixes steps up more often
/// than it has stepped down.
pub open spec fn enclosed(path: Seq<char>) -> bool {
    &&& !path.contains('\0')
    &&& !(path.len() > 0 && path[0] == '/')
    &&& stays_inside_from(path, 0, 0)
}

/// The last segment of `path` from position `from` on that is not blank,
/// or `found` where there is none.
pub open spec fn last_component_from(path: Seq<char>, from: int, found: Option<Seq<char>>) -> Option<
    Seq<char>,
>
    decreases path.len() - from,
{
    if from < 0 || from >= path.len() {
        found
    } else {
        let len = segment_len(path, from);
        let segment = path.subrange(from, from + len);
        last_component_from(
            path,
            next_segment(path, from),
            if is_blank(segment) {
                found
            } else {
                Some(segment)
            },
        )
    }
}

/// The base name of `path`: its last segment that is not blank, unless
/// that segment steps up to the parent.
pub open spec fn base_name(path: Seq<char>) -> Option<Seq<char>> {
    match last_component_from(path, 0, None) {
        Some(segment) => if is_parent(segment) {
            None
        } else {
            Some(segment)
        },
        None => None,
    }
}

/// What follows the first slash of `path`: the path below the top folder.
pub open spec fn below_top_folder(path: Seq<char>) -> Option<Seq<char>> {
    let len = segment_len(path, 0);
    if len < path.len() {
        Some(path.skip((len + 1) as int))
    } else {
        None
    }
}

/// Where the entry `name` goes, if anywhere. The rules, in order:
/// directories and names that are not enclosed are passed over; an entry
/// whose base name begins with the binary's prefix becomes `canonical`;
/// an entry whose path below the top folder begins with the companion
/// folder's name, and is itself enclosed, keeps that path; all others are
/// passed over.
pub open spec fn destination_of(name: Seq<char>, is_directory: bool, canonical: Seq<char>) -> Option<
    Seq<char>,
> {
    if is_directory || !enclosed(name) {
        None
    } else {
        match base_name(name) {
            None => None,
            Some(base) => if BINARY_PREFIX@.is_prefix_of(base) {
                Some(canonical)
            } else {
                match below_top_folder(name) {
                    Some(rest) => if COMPANION_FOLDER@.is_prefix_of(rest) && enclosed(rest) {
                        Some(rest)
                    } else {
                        None
                    },
                    None => None,
                }
            },
        }
    }
}

/// The target of an entry that goes to `destination`: written there, and
/// executable.
pub open spec fn target_of(destination: Option<Seq<char>>) -> Option<(Seq<char>, bool)> {
    match destination {
        Some(path) => Some((path, true)),
        None => None,
    }
}

/// The position at which the segment that begins at `from` ends.
fn segment_end(path: &Vec<char>, from: usize) -> (end: usize)
    requires
        from <= path.len(),
    ensures
        from <= end <= path.len(),
        end == from + segment_len(path@, from as int),
{
    let mut end: usize = from;
    while end < path.len() && path[end] != '/'
        invariant
            from <= end <= path.len(),
            from + segment_len(path@, from as int) == end + segment_len(path@, end as int),
        decreases path.len() - end,
    {
        end += 1;
    }
    end
}

/// Whether the segment between two positions steps up to the parent.
fn is_parent_segment(path: &Vec<char>, from: usize, end: usize) -> (parent: bool)
    requires
        from <= end <= path.len(),
    ensures
        parent == is_parent(path@.subrange(from as int, end as int)),
{
    let ghost segment = path@.subrange(from as int, end as int);
    assert(seq!['.', '.'].len() == 2 && seq!['.', '.'][0] == '.' && seq!['.', '.'][1] == '.');
    if end - from == 2 {
        assert(segment[0] == path@[from as int] && segment[1] == path@[from + 1]);
        let parent = path[from] == '.' && path[from + 1] == '.';
        assert(parent ==> segment =~= seq!['.', '.']);
        parent
    } else {
        false
    }
}

/// Whether the segment between two positions names no step.
fn is_blank_segment(path: &Vec<char>, from: usize, end: usize) -> (blank: bool)
    requires
        from <= end <= path.len(),
    ensures
        blank == is_blank(path@.subrange(from as int, end as int)),
{
    let ghost segment = path@.subrange(from as int, end as int);
    assert(seq!['.'].len() == 1 && seq!['.'][0] == '.');
    if end == from {
        true
    } else if end - from == 1 {
        assert(segment[0] == path@[from as int]);
        let blank = path[from] == '.';
        assert(blank ==> segment =~= seq!['.']);
        blank
    } else {
        false
    }
}

/// Whether `path` holds a NUL.
fn has_nul(path: &Vec<char>) -> (found: bool)
    ensures
        found == path@.contains('\0'),
{
    let mut i: usize = 0;
    while i < path.len()
        invariant
            i <= path.len(),
            forall|j: int| 0 <= j < i ==> path@[j] != '\0',
        decreases path.len() - i,
    {
        if path[i] == '\0' {
            return true;
        }
        i += 1;
    }
    false
}

/// Whether `path` is enclosed, in one walk over its segments.
fn chars_enclosed(path: &Vec<char>) -> (inside: bool)
    ensures
        inside == enclosed(path@),
{
    let n: usize = path.len();
    if n > 0 && path[0] == '/' {
        return false;
    }
    if has_nul(path) {
        return false;
    }
    let mut from: usize = 0;
    let mut depth: usize = 0;
    while from < n
        invariant
            from <= n,
            depth <= from,
            n == path.len(),
            !path@.contains('\0'),
            !(n > 0 && path@[0] == '/'),
            stays_inside_from(path@, 0, 0) == stays_inside_from(path@, from as int, depth as int),
        decreases n - from,
    {
        let end = segment_end(path, from);
        if is_parent_segment(path, from, end) {
            if depth == 0 {
                return false;
            }
            depth -= 1;
        } else if !is_blank_segment(path, from, end) {
            depth += 1;
        }
        if end == n {
            assert(stays_inside_from(path@, n as int, depth as int));
            return true;
        }
        from = end + 1;
    }
    true
}

/// The text between two positions of `path`, if `span` holds them.
pub open spec fn span_text(path: Seq<char>, span: Option<(usize, usize)>) -> Option<Seq<char>> {
    match span {
        Some((start, end)) => Some(path.subrange(start as int, end as int)),
        None => None,
    }
}

/// The two positions of `span`, if any, are in order and at most `len`.
pub open spec fn span_within(span: Option<(usize, usize)>, len: nat) -> bool {
    match span {
        Some((start, end)) => start <= end <= len,
        None => true,
    }
}

/// Where the last segment of `path` that is not blank begins and ends.
fn last_component(path: &Vec<char>) -> (span: Option<(usize, usize)>)
    ensures
        span_text(path@, span) == last_component_from(path@, 0, None),
        span_within(span, path@.len()),
{
    let n: usize = path.len();
    let mut span: Option<(usize, usize)> = None;
    let mut from: usize = 0;
    while from < n
        invariant
            from <= n,
            n == path.len(),
            span_within(span, path@.len()),
            last_component_from(path@, 0, None) == last_component_from(
                path@,
                from as int,
                span_text(path@, span),
            ),
        decreases n - from,
    {
        let end = segment_end(path, from);
        if !is_blank_segment(path, from, end) {
            span = Some((from, end));
        }
        if end == n {
            assert(last_component_from(path@, n as int, span_text(path@, span)) == span_text(
                path@,
                span,
            ));
            return span;
        }
        from = end + 1;
    }
    span
}

/// Whether `path` names a place at or below the folder it is resolved in.
pub fn is_enclosed(path: &str) -> (inside: bool)
    ensures
        inside == enclosed(path@),
{
    let chars = chars_of(path);
    chars_enclosed(&chars)
}

/// Decides what is done with one entry of the archive whose binary is
/// installed as `canonical_name`.
pub fn install_target(entry: &ArchiveEntry, canonical_name: &str) -> (target: InstallTarget)
    ensures
        target@ == target_of(
            destination_of(entry.relative_path@, entry.is_directory, canonical_name@),
        ),
{
    let name = entry.relative_path.as_str();
    let chars = chars_of(name);
    let n: usize = chars.len();
    if entry.is_directory || !chars_enclosed(&chars) {
        return InstallTarget::Skip;
    }
    let (start, end) = match last_component(&chars) {
        Some(span) => span,
        None => {
            return InstallTarget::Skip;
        },
    };
    if is_parent_segment(&chars, start, end) {
        return InstallTarget::Skip;
    }
    let prefix = chars_of(BINARY_PREFIX);
    if starts_with_in(&chars, start, end, &prefix) {
        return InstallTarget::Write {
            destination_path: String::from_str(canonical_name),
            executable: true,
        };
    }
    let top = segment_end(&chars, 0);
    if top >= n {
        return InstallTarget::Skip;
    }
    let rest = name.substring_char(top + 1, n);
    let rest_chars = chars_of(rest);
    assert(rest@ =~= name@.skip(top + 1));
    assert(rest_chars@.subrange(0, rest_chars@.len() as int) =~= rest_chars@);
    let folder = chars_of(COMPANION_FOLDER);
    if starts_with_in(&rest_chars, 0, rest_chars.len(), &folder) && chars_enclosed(&rest_chars) {
        InstallTarget::Write { destination_path: String::from_str(rest), executable: true }
    } else {
        InstallTarget::Skip
    }
}

/// Why an extraction was given up.
#[derive(Debug, Clone, Copy, PartialEq, Eq)]
pub enum UnzipError {
    /// The archive could not be opened.
    FileOpenError,
    /// A destination file could not be created.
    FileCreateError,
    /// An entry's content could not be copied to its file.
    StreamIOError,
    /// The archive is corrupt or ends too early.
    ExtractError,
}

/// What the reader of an archive or the writer of a file reports.
#[derive(Debug, Clone, PartialEq, Eq)]
pub enum ExtractEvent {
    /// The archive could not be opened.
    OpenFailed,
    /// The reader stands at an entry.
    Entry(ArchiveEntry),
    /// The reader met the end of the entries.
    EndOfEntries,
    /// The reader met a corrupt or cut-off entry.
    ReadFailed,
    /// The entry last asked for was written.
    Written,
    /// The file of the entry last asked for could not be created.
    CreateFailed,
    /// The content of the entry last asked for could not be copied.
    CopyFailed,
}

/// What is to be done next.
#[derive(Debug, Clone, PartialEq, Eq)]
pub enum ExtractAction {
    /// Go on to the next entry.
    ReadNext,
    /// Write the entry at hand to `destination_path`, a path below the
    /// destination root, executable for everyone if `executable` is set,
    /// then report back.
    Write { destination_path: String, executable: bool },
    /// The extraction is complete.
    Finish,
    /// The extraction is given up. Files written so far stay.
    Abort(UnzipError),
}

/// An action as plain values.
pub ghost enum Step {
    ReadNext,
    Write(Seq<char>, bool),
    Finish,
    Abort(UnzipError),
}

impl View for ExtractAction {
    type V = Step;

    open spec fn view(&self) -> Step {
        match *self {
            ExtractAction::ReadNext => Step::ReadNext,
            ExtractAction::Write { destination_path, executable } => Step::Write(
                destination_path@,
                executable,
            ),
            ExtractAction::Finish => Step::Finish,
            ExtractAction::Abort(error) => Step::Abort(error),
        }
    }
}

/// The step that answers `event` while the archive whose binary is
/// installed as `canonical` is extracted. Only the end of the entries
/// completes an extraction; every failure gives it up at once.
pub open spec fn step_for(event: ExtractEvent, canonical: Seq<char>) -> Step {
    match event {
        ExtractEvent::OpenFailed => Step::Abort(UnzipError::FileOpenError),
        ExtractEvent::Entry(entry) => match destination_of(
            entry.relative_path@,
            entry.is_directory,
            canonical,
        ) {
            Some(path) => Step::Write(path, true),
            None => Step::ReadNext,
        },
        ExtractEvent::EndOfEntries => Step::Finish,
        ExtractEvent::ReadFailed => Step::Abort(UnzipError::ExtractError),
        ExtractEvent::Written => Step::ReadNext,
        ExtractEvent::CreateFailed => Step::Abort(UnzipError::FileCreateError),
        ExtractEvent::CopyFailed => Step::Abort(UnzipError::StreamIOError),
    }
}

/// Answers one report of the reader or the writer with the next action.
pub fn next_action(event: &ExtractEvent, canonical_name: &str) -> (action: ExtractAction)
    ensures
        action@ == step_for(*event, canonical_name@),
{
    match event {
        ExtractEvent::OpenFailed => ExtractAction::Abort(UnzipError::FileOpenError),
        ExtractEvent::Entry(entry) => {
            match install_target(entry, canonical_name) {
                InstallTarget::Skip => ExtractAction::ReadNext,
                InstallTarget::Write { destination_path, executable } => ExtractAction::Write {
                    destination_path,
                    executable,
                },
            }
        },
        ExtractEvent::EndOfEntries => ExtractAction::Finish,
        ExtractEvent::ReadFailed => ExtractAction::Abort(UnzipError::ExtractError),
        ExtractEvent::Written => ExtractAction::ReadNext,
        ExtractEvent::CreateFailed => ExtractAction::Abort(UnzipError::FileCreateError),
        ExtractEvent::CopyFailed => ExtractAction::Abort(UnzipError::StreamIOError),
    }
}

/// The destinations that are written, in order, when `entries` are met in
/// this order.
pub open spec fn destinations(entries: Seq<ArchiveEntry>, canonical: Seq<char>) -> Seq<Seq<char>>
    decreases entries.len(),
{
    if entries.len() == 0 {
        Seq::empty()
    } else {
        let earlier = destinations(entries.drop_last(), canonical);
        match destination_of(entries.last().relative_path@, entries.last().is_directory, canonical) {
            Some(path) => earlier.push(path),
            None => earlier,
        }
    }
}

/// The characters of each string of `paths`.
pub open spec fn texts(paths: Seq<String>) -> Seq<Seq<char>> {
    Seq::new(paths.len(), |i: int| paths[i]@)
}

/// Lists, without reading or writing anything, the destinations that an
/// extraction writes when it meets `entries` in this order.
pub fn planned_writes(entries: &Vec<ArchiveEntry>, canonical_name: &str) -> (paths: Vec<String>)
    ensures
        texts(paths@) == destinations(entries@, canonical_name@),
{
    let mut paths: Vec<String> = Vec::new();
    let mut i: usize = 0;
    assert(texts(paths@) =~= destinations(entries@.take(0), canonical_name@));
    while i < entries.len()
        invariant
            i <= entries.len(),
            texts(paths@) == destinations(entries@.take(i as int), canonical_name@),
        decreases entries.len() - i,
    {
        let ghost before = texts(paths@);
        match install_target(&entries[i], canonical_name) {
            InstallTarget::Write { destination_path, executable } => {
                paths.push(destination_path);
                assert(texts(paths@) =~= before.push(destination_path@));
            },
            InstallTarget::Skip => {},
        }
        assert(entries@.take(i + 1).drop_last() =~= entries@.take(i as int));
        assert(entries@.take(i + 1).last() == entries@[i as int]);
        i += 1;
    }
    assert(entries@.take(entries@.len() as int) =~= entries@);
    paths
}

/// An entry whose name is not enclosed is never written, whatever else
/// its name holds.
pub proof fn law_escaping_entry_is_skipped(name: Seq<char>, is_directory: bool, canonical: Seq<char>)
    requires
        !enclosed(name),
    ensures
        destination_of(name, is_directory, canonical) is None,
{
}

/// Every destination is enclosed, so that nothing is written outside the
/// destination root, provided the canonical name is enclosed itself.
pub proof fn law_destinations_are_enclosed(entries: Seq<ArchiveEntry>, canonical: Seq<char>)
    requires
        enclosed(canonical),
    ensures
        forall|i: int|
            0 <= i < destinations(entries, canonical).len() ==> enclosed(
                #[trigger] destinations(entries, canonical)[i],
            ),
    decreases entries.len(),
{
    if entries.len() > 0 {
        law_destinations_are_enclosed(entries.drop_last(), canonical);
        let earlier = destinations(entries.drop_last(), canonical);
        let all = destinations(entries, canonical);
        assert forall|i: int| 0 <= i < all.len() implies enclosed(#[trigger] all[i]) by {
            if i < earlier.len() {
                assert(all[i] == earlier[i]);
            }
        }
    }
}

/// Every destination is the canonical name or lies in the companion
/// folder: no other entry is installed.
pub proof fn law_only_listed_entries_are_written(entries: Seq<ArchiveEntry>, canonical: Seq<char>)
    ensures
        forall|i: int|
            0 <= i < destinations(entries, canonical).len() ==> {
                let path = #[trigger] destinations(entries, canonical)[i];
                path == canonical || COMPANION_FOLDER@.is_prefix_of(path)
            },
    decreases entries.len(),
{
    if entries.len() > 0 {
        law_only_listed_entries_are_written(entries.drop_last(), canonical);
        let earlier = destinations(entries.drop_last(), canonical);
        let all = destinations(entries, canonical);
        assert forall|i: int| 0 <= i < all.len() implies (#[trigger] all[i]) == canonical
            || COMPANION_FOLDER@.is_prefix_of(all[i]) by {
            if i < earlier.len() {
                assert(all[i] == earlier[i]);
            }
        }
    }
}

/// An archive of which no entry is installed is extracted without a
/// write, and its end completes the extraction all the same.
pub proof fn law_nothing_to_install_succeeds(entries: Seq<ArchiveEntry>, canonical: Seq<char>)
    requires
        forall|i: int|
            0 <= i < entries.len() ==> destination_of(
                (#[trigger] entries[i]).relative_path@,
                entries[i].is_directory,
                canonical,
            ) is None,
    ensures
        destinations(entries, canonical).len() == 0,
        forall|i: int|
            0 <= i < entries.len() ==> step_for(ExtractEvent::Entry(#[trigger] entries[i]), canonical)
                == Step::ReadNext,
        step_for(ExtractEvent::EndOfEntries, canonical) == Step::Finish,
    decreases entries.len(),
{
    if entries.len() > 0 {
        law_nothing_to_install_succeeds(entries.drop_last(), canonical);
    }
}

} // verus!
