//! Which entries of a directory tree are candidates for indexing.
//!
//! The traversal itself is the caller's: it visits the tree depth first and
//! asks [`verdict`] about every entry it meets. The verdict depends only on the
//! entry's own description (its name, its kind and the names of the directories
//! above it), so it is the same whether or not the traversal leaves out the
//! subtrees it was told to skip.
use crate::text::{chars_of, listed};
use vstd::prelude::*;

verus! {

/// Inclusion and exclusion rules, by file name, directory name and extension.
///
/// A file or directory rule is a base name. An extension rule is written with
/// its dot, as in `.bin`.
#[derive(Clone, Debug)]
pub struct FilterRules {
    pub included_files: Vec<String>,
    pub included_directories: Vec<String>,
    pub included_extensions: Vec<String>,
    pub excluded_files: Vec<String>,
    pub excluded_directories: Vec<String>,
    pub excluded_extensions: Vec<String>,
}

/// The rules as sequences of names.
pub struct RulesView {
    pub included_files: Seq<Seq<char>>,
    pub included_directories: Seq<Seq<char>>,
    pub included_extensions: Seq<Seq<char>>,
    pub excluded_files: Seq<Seq<char>>,
    pub excluded_directories: Seq<Seq<char>>,
    pub excluded_extensions: Seq<Seq<char>>,
}

impl View for FilterRules {
    type V = RulesView;

    open spec fn view(&self) -> RulesView {
        RulesView {
            included_files: self.included_files.deep_view(),
            included_directories: self.included_directories.deep_view(),
            included_extensions: self.included_extensions.deep_view(),
            excluded_files: self.excluded_files.deep_view(),
            excluded_directories: self.excluded_directories.deep_view(),
            excluded_extensions: self.excluded_extensions.deep_view(),
        }
    }
}

impl FilterRules {
    /// Rules that exclude nothing but hidden entries and include everything.
    pub fn none() -> (rules: FilterRules)
        ensures
            rules@.included_files.len() == 0,
            rules@.included_directories.len() == 0,
            rules@.included_extensions.len() == 0,
            rules@.excluded_files.len() == 0,
            rules@.excluded_directories.len() == 0,
            rules@.excluded_extensions.len() == 0,
    {
        FilterRules {
            included_files: Vec::new(),
            included_directories: Vec::new(),
            included_extensions: Vec::new(),
            excluded_files: Vec::new(),
            excluded_directories: Vec::new(),
            excluded_extensions: Vec::new(),
        }
    }
}

/// What kind of thing an entry is, symbolic links followed.
#[derive(Clone, Copy, Debug, PartialEq, Eq, Structural)]
pub enum EntryKind {
    File,
    Directory,
    Other,
}

/// One entry met during a traversal.
#[derive(Clone, Debug)]
pub struct WalkEntry {
    /// Base names of the directories on the way from the traversal's root
    /// (included) down to the entry's parent. Empty for the root itself.
    pub ancestors: Vec<String>,
    /// The entry's base name.
    pub name: String,
    pub kind: EntryKind,
}

/// An entry as names.
pub struct EntryView {
    pub ancestors: Seq<Seq<char>>,
    pub name: Seq<char>,
    pub kind: EntryKind,
}

impl View for WalkEntry {
    type V = EntryView;

    open spec fn view(&self) -> EntryView {
        EntryView { ancestors: self.ancestors.deep_view(), name: self.name@, kind: self.kind }
    }
}

/// What the traversal does with an entry.
#[derive(Clone, Copy, Debug, PartialEq, Eq, Structural)]
pub enum Verdict {
    /// Not a candidate; if it is a directory, nothing below it is visited.
    Skip,
    /// A directory to descend into. Directories are never candidates themselves.
    Enter,
    /// A file that is a candidate for indexing.
    Yield,
}

/// A name is hidden when it starts with a dot.
pub open spec fn hidden_name(name: Seq<char>) -> bool {
    name.len() > 0 && name[0] == '.'
}

/// `ext` is the extension of `name`: it is the part of the name from its last
/// dot on, and that dot is not the name's first character.
pub open spec fn has_extension(name: Seq<char>, ext: Seq<char>) -> bool {
    &&& ext.len() >= 1
    &&& ext[0] == '.'
    &&& forall|i: int| 1 <= i < ext.len() ==> ext[i] != '.'
    &&& name.len() > ext.len()
    &&& name.subrange(name.len() - ext.len(), name.len() as int) == ext
}

/// Some rule of the list is the extension of `name`.
pub open spec fn extension_listed(list: Seq<Seq<char>>, name: Seq<char>) -> bool {
    exists|i: int| 0 <= i < list.len() && has_extension(name, #[trigger] list[i])
}

/// A directory of this name is never entered.
pub open spec fn blocked_directory(name: Seq<char>, rules: RulesView) -> bool {
    hidden_name(name) || rules.excluded_directories.contains(name)
}

/// No directory above the entry is hidden or excluded.
pub open spec fn reachable(ancestors: Seq<Seq<char>>, rules: RulesView) -> bool {
    forall|i: int| 0 <= i < ancestors.len() ==> !blocked_directory(#[trigger] ancestors[i], rules)
}

/// The entry itself is hidden or matches an exclusion rule for its kind.
pub open spec fn excluded(entry: EntryView, rules: RulesView) -> bool {
    match entry.kind {
        EntryKind::Directory => blocked_directory(entry.name, rules),
        _ => hidden_name(entry.name) || rules.excluded_files.contains(entry.name)
            || extension_listed(rules.excluded_extensions, entry.name),
    }
}

/// At least one inclusion rule set has a rule in it.
pub open spec fn inclusion_active(rules: RulesView) -> bool {
    rules.included_files.len() > 0 || rules.included_directories.len() > 0
        || rules.included_extensions.len() > 0
}

/// Some directory above the entry is named by an inclusion rule.
pub open spec fn under_included_directory(ancestors: Seq<Seq<char>>, rules: RulesView) -> bool {
    exists|i: int|
        0 <= i < ancestors.len() && rules.included_directories.contains(#[trigger] ancestors[i])
}

/// The entry matches at least one inclusion rule: by its name, by its
/// extension, or by a directory it lies under.
pub open spec fn matches_inclusion(entry: EntryView, rules: RulesView) -> bool {
    rules.included_files.contains(entry.name) || extension_listed(
        rules.included_extensions,
        entry.name,
    ) || under_included_directory(entry.ancestors, rules)
}

/// The filtering policy. Exclusion is checked first and is final; inclusion
/// rules, when there are any, further restrict which files are yielded.
pub open spec fn verdict_of(entry: EntryView, rules: RulesView) -> Verdict {
    if !reachable(entry.ancestors, rules) || excluded(entry, rules) {
        Verdict::Skip
    } else {
        match entry.kind {
            EntryKind::Directory => Verdict::Enter,
            EntryKind::File => if !inclusion_active(rules) || matches_inclusion(entry, rules) {
                Verdict::Yield
            } else {
                Verdict::Skip
            },
            EntryKind::Other => Verdict::Skip,
        }
    }
}

/// `below` lies somewhere under the directory `dir`.
pub open spec fn lies_under(below: EntryView, dir: EntryView) -> bool {
    let path = dir.ancestors.push(dir.name);
    path.len() <= below.ancestors.len() && below.ancestors.subrange(0, path.len() as int) == path
}

/// Skipping a directory loses nothing: every entry below a skipped directory
/// would be skipped as well.
pub proof fn skipped_directory_covers_subtree(dir: EntryView, below: EntryView, rules: RulesView)
    requires
        dir.kind == EntryKind::Directory,
        verdict_of(dir, rules) == Verdict::Skip,
        lies_under(below, dir),
    ensures
        verdict_of(below, rules) == Verdict::Skip,
{
    let path = dir.ancestors.push(dir.name);
    if !reachable(dir.ancestors, rules) {
        let i = choose|i: int|
            0 <= i < dir.ancestors.len() && blocked_directory(#[trigger] dir.ancestors[i], rules);
        assert(below.ancestors[i] == path[i]);
    } else {
        assert(below.ancestors[dir.ancestors.len() as int] == path[dir.ancestors.len() as int]);
    }
}

/// Whether a base name marks a hidden entry.
pub fn is_hidden(name: &str) -> (hidden: bool)
    ensures
        hidden == hidden_name(name@),
{
    !name.is_empty() && name.get_char(0) == '.'
}

/// Whether `ext` is the extension of `name`, both given as characters.
fn chars_have_extension(name: &Vec<char>, ext: &Vec<char>) -> (matches: bool)
    ensures
        matches == has_extension(name@, ext@),
{
    if ext.len() == 0 || name.len() <= ext.len() {
        return false;
    }
    let offset: usize = name.len() - ext.len();
    let ghost tail = name@.subrange(offset as int, name@.len() as int);
    let mut i: usize = 0;
    while i < ext.len()
        invariant
            i <= ext.len(),
            offset + ext.len() == name.len(),
            tail == name@.subrange(offset as int, name@.len() as int),
            forall|j: int| 0 <= j < i ==> tail[j] == ext@[j],
            i >= 1 ==> ext@[0] == '.',
            forall|j: int| 1 <= j < i ==> ext@[j] != '.',
        decreases ext.len() - i,
    {
        let c: char = ext[i];
        if name[offset + i] != c {
            return false;
        }
        if (i == 0) != (c == '.') {
            return false;
        }
        i += 1;
    }
    assert(tail =~= ext@);
    true
}

/// Whether some rule of the list is the extension of the name.
pub fn extension_matches(list: &Vec<String>, name: &str) -> (found: bool)
    ensures
        found == extension_listed(list.deep_view(), name@),
{
    if list.len() == 0 {
        return false;
    }
    let name_chars = chars_of(name);
    let mut i: usize = 0;
    while i < list.len()
        invariant
            i <= list.len(),
            name_chars@ == name@,
            forall|j: int| 0 <= j < i ==> !has_extension(name@, #[trigger] list.deep_view()[j]),
        decreases list.len() - i,
    {
        let rule_chars = chars_of(list[i].as_str());
        if chars_have_extension(&name_chars, &rule_chars) {
            assert(has_extension(name@, list.deep_view()[i as int]));
            return true;
        }
        i += 1;
    }
    false
}

/// Whether a directory of this name is never entered.
fn directory_blocked(name: &String, rules: &FilterRules) -> (blocked: bool)
    ensures
        blocked == blocked_directory(name@, rules@),
{
    is_hidden(name.as_str()) || listed(&rules.excluded_directories, name)
}

/// Whether every directory above an entry may be entered.
fn ancestors_reachable(ancestors: &Vec<String>, rules: &FilterRules) -> (open: bool)
    ensures
        open == reachable(ancestors.deep_view(), rules@),
{
    let mut i: usize = 0;
    while i < ancestors.len()
        invariant
            i <= ancestors.len(),
            forall|j: int|
                0 <= j < i ==> !blocked_directory(#[trigger] ancestors.deep_view()[j], rules@),
        decreases ancestors.len() - i,
    {
        if directory_blocked(&ancestors[i], rules) {
            assert(blocked_directory(ancestors.deep_view()[i as int], rules@));
            return false;
        }
        i += 1;
    }
    true
}

/// Whether some directory above an entry is named by an inclusion rule.
fn ancestors_included(ancestors: &Vec<String>, rules: &FilterRules) -> (found: bool)
    ensures
        found == under_included_directory(ancestors.deep_view(), rules@),
{
    if rules.included_directories.len() == 0 {
        return false;
    }
    let mut i: usize = 0;
    while i < ancestors.len()
        invariant
            i <= ancestors.len(),
            forall|j: int|
                0 <= j < i ==> !rules@.included_directories.contains(
                    #[trigger] ancestors.deep_view()[j],
                ),
        decreases ancestors.len() - i,
    {
        if listed(&rules.included_directories, &ancestors[i]) {
            assert(rules@.included_directories.contains(ancestors.deep_view()[i as int]));
            return true;
        }
        i += 1;
    }
    false
}

/// Decides what the traversal does with one entry.
pub fn verdict(entry: &WalkEntry, rules: &FilterRules) -> (v: Verdict)
    ensures
        v == verdict_of(entry@, rules@),
{
    if !ancestors_reachable(&entry.ancestors, rules) {
        return Verdict::Skip;
    }
    match entry.kind {
        EntryKind::Directory => {
            if directory_blocked(&entry.name, rules) {
                Verdict::Skip
            } else {
                Verdict::Enter
            }
        },
        EntryKind::File => {
            if is_hidden(entry.name.as_str()) || listed(&rules.excluded_files, &entry.name)
                || extension_matches(&rules.excluded_extensions, entry.name.as_str()) {
                return Verdict::Skip;
            }
            let unrestricted = rules.included_files.len() == 0 && rules.included_directories.len()
                == 0 && rules.included_extensions.len() == 0;
            if unrestricted || listed(&rules.included_files, &entry.name) || extension_matches(
                &rules.included_extensions,
                entry.name.as_str(),
            ) || ancestors_included(&entry.ancestors, rules) {
                Verdict::Yield
            } else {
                Verdict::Skip
            }
        },
        EntryKind::Other => Verdict::Skip,
    }
}

/// The positions, in a listing of entries, of the files that are candidates
/// for indexing, in the listing's order.
pub fn candidates(entries: &Vec<WalkEntry>, rules: &FilterRules) -> (picked: Vec<usize>)
    ensures
        forall|k: int, l: int| 0 <= k < l < picked@.len() ==> picked@[k] < picked@[l],
        forall|k: int|
            0 <= k < picked@.len() ==> picked@[k] < entries@.len() && verdict_of(
                #[trigger] entries@[picked@[k] as int]@,
                rules@,
            ) == Verdict::Yield,
        forall|i: int|
            0 <= i < entries@.len() && verdict_of(#[trigger] entries@[i]@, rules@)
                == Verdict::Yield ==> picked@.contains(i as usize),
{
    let mut picked: Vec<usize> = Vec::new();
    let mut i: usize = 0;
    while i < entries.len()
        invariant
            i <= entries.len(),
            forall|k: int, l: int| 0 <= k < l < picked@.len() ==> picked@[k] < picked@[l],
            forall|k: int| 0 <= k < picked@.len() ==> picked@[k] < i,
            forall|k: int|
                0 <= k < picked@.len() ==> verdict_of(
                    #[trigger] entries@[picked@[k] as int]@,
                    rules@,
                ) == Verdict::Yield,
            forall|j: int|
                0 <= j < i && verdict_of(#[trigger] entries@[j]@, rules@) == Verdict::Yield
                    ==> picked@.contains(j as usize),
        decreases entries.len() - i,
    {
        if verdict(&entries[i], rules) == Verdict::Yield {
            let ghost before = picked@;
            picked.push(i);
            assert forall|j: int|
                0 <= j < i + 1 && verdict_of(
                    #[trigger] entries@[j]@,
                    rules@,
                ) == Verdict::Yield implies picked@.contains(j as usize) by {
                if j < i {
                    let k = choose|k: int| 0 <= k < before.len() && before[k] == j as usize;
                    assert(picked@[k] == j as usize);
                } else {
                    assert(picked@[before.len() as int] == j as usize);
                }
            }
        }
        i += 1;
    }
    picked
}

} // verus!
