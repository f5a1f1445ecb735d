use crate::fingerprint::sha256_hex;
use crate::migrations::{migration_views, FileMigration, FileMigrationView, GraphMigrator};
use vstd::prelude::*;
use vstd::string::StrSliceExecFns;

verus! {

/// An entry of the migrations folder: the last component of its path, and
/// the text of the file where the caller read it. `None` stands for a file
/// that was not read or could not be read as text.
#[derive(Debug)]
pub struct ScriptFile {
    pub file_name: String,
    pub contents: Option<String>,
}

/// An entry of the migrations folder as the contracts see it.
pub struct ScriptFileView {
    pub file_name: Seq<char>,
    pub contents: Option<Seq<char>>,
}

impl View for ScriptFile {
    type V = ScriptFileView;

    open spec fn view(&self) -> ScriptFileView {
        ScriptFileView { file_name: self.file_name@, contents: text_view(self.contents) }
    }
}

/// The view of a text that may be absent.
pub open spec fn text_view(contents: Option<String>) -> Option<Seq<char>> {
    match contents {
        Some(text) => Some(text@),
        None => None,
    }
}

/// The views of a listing.
pub open spec fn listing_views(entries: Seq<ScriptFile>) -> Seq<ScriptFileView> {
    entries.map_values(|entry: ScriptFile| entry@)
}

/// `name` ends in a dot followed by `extension`, and something stands before
/// that dot. For an extension without a dot this says that `extension` is
/// what follows the last dot of the name, and that this dot is not the
/// name's first character.
pub open spec fn has_extension(name: Seq<char>, extension: Seq<char>) -> bool {
    &&& name.len() > extension.len() + 1
    &&& name[name.len() - extension.len() - 1] == '.'
    &&& name.subrange(name.len() - extension.len(), name.len() as int) == extension
}

/// A file of this name is a migration script: its extension is `cyp` or
/// `cypher`.
pub open spec fn is_migration_name(name: Seq<char>) -> bool {
    has_extension(name, "cyp"@) || has_extension(name, "cypher"@)
}

/// The migration that a folder entry gives, if it gives one: the file has the
/// name of a script and its text is at hand.
pub open spec fn processed(file_name: Seq<char>, contents: Option<Seq<char>>) -> Option<
    FileMigrationView,
> {
    match contents {
        Some(text) => if is_migration_name(file_name) {
            Some(
                FileMigrationView {
                    checksum: sha256_hex(text),
                    file_name: file_name,
                    cypher_text: text,
                },
            )
        } else {
            None
        },
        None => None,
    }
}

/// The migrations that a listing gives, in the order of the listing.
pub open spec fn gathered(entries: Seq<ScriptFileView>) -> Seq<FileMigrationView>
    decreases entries.len(),
{
    if entries.len() == 0 {
        Seq::empty()
    } else {
        let before = gathered(entries.drop_last());
        match processed(entries.last().file_name, entries.last().contents) {
            Some(migration) => before.push(migration),
            None => before,
        }
    }
}

/// An empty listing gives no migration.
pub proof fn law_empty_listing_gives_nothing()
    ensures
        gathered(Seq::empty()) == Seq::<FileMigrationView>::empty(),
{
}

/// An entry that is no script, or whose text is not at hand, is passed over:
/// a listing gives with it what it gives without it.
pub proof fn law_other_entries_are_passed_over(entries: Seq<ScriptFileView>, entry: ScriptFileView)
    requires
        !is_migration_name(entry.file_name) || entry.contents is None,
    ensures
        gathered(entries.push(entry)) == gathered(entries),
{
    assert(entries.push(entry).drop_last() == entries);
}

/// A script whose text is at hand gives one migration, which comes after
/// those of the entries before it: it has the entry's name and text, and the
/// digest of the text for its checksum.
pub proof fn law_script_is_gathered_in_place(entries: Seq<ScriptFileView>, entry: ScriptFileView)
    requires
        is_migration_name(entry.file_name),
        entry.contents is Some,
    ensures
        gathered(entries.push(entry)) == gathered(entries).push(
            FileMigrationView {
                checksum: sha256_hex(entry.contents->Some_0),
                file_name: entry.file_name,
                cypher_text: entry.contents->Some_0,
            },
        ),
{
    assert(entries.push(entry).drop_last() == entries);
}

/// Whether `name` ends in a dot and `extension`, with something before the dot.
pub fn ends_with_extension(name: &str, extension: &str) -> (ends: bool)
    ensures
        ends == has_extension(name@, extension@),
{
    let length = name.unicode_len();
    let tail = extension.unicode_len();
    if length <= tail || length - tail <= 1 {
        return false;
    }
    let start = length - tail;
    if name.get_char(start - 1) != '.' {
        return false;
    }
    let mut offset: usize = 0;
    while offset < tail
        invariant
            offset <= tail,
            tail == extension@.len(),
            start + tail == length,
            length == name@.len(),
            forall|j: int| 0 <= j < offset ==> name@[start + j] == extension@[j],
        decreases tail - offset,
    {
        if name.get_char(start + offset) != extension.get_char(offset) {
            return false;
        }
        offset = offset + 1;
    }
    assert(name@.subrange(start as int, name@.len() as int) =~= extension@);
    true
}

impl GraphMigrator {
    /// Whether a file of this name is read as a migration script.
    pub fn is_migration_file(&self, file_name: &str) -> (is_script: bool)
        ensures
            is_script == is_migration_name(file_name@),
    {
        ends_with_extension(file_name, "cyp") || ends_with_extension(file_name, "cypher")
    }

    /// Makes a migration of one folder entry, if it is a `.cyp` or `.cypher`
    /// file whose text was read.
    pub fn process_file(&self, file_name: &str, contents: Option<String>) -> (migration: Option<
        FileMigration,
    >)
        ensures
            match migration {
                Some(found) => processed(file_name@, text_view(contents)) == Some(
                    found@,
                ),
                None => processed(file_name@, text_view(contents)) is None,
            },
    {
        if !self.is_migration_file(file_name) {
            return None;
        }
        match contents {
            None => None,
            Some(cypher_text) => {
                let checksum = self.calculate_checksum(cypher_text.as_str());
                Some(FileMigration { checksum, file_name: file_name.to_owned(), cypher_text })
            },
        }
    }

    /// Gathers the migrations of a folder from its listing: every entry that
    /// is a script whose text was read, in the order of the listing. Other
    /// entries are passed over.
    pub fn gather_migrations(&self, entries: Vec<ScriptFile>) -> (migrations: Vec<FileMigration>)
        ensures
            migration_views(migrations@) == gathered(listing_views(entries@)),
    {
        let ghost listing = listing_views(entries@);
        let mut migrations: Vec<FileMigration> = Vec::new();
        for entry in it: entries
            invariant
                listing_views(it.seq()) == listing,
                migration_views(migrations@) == gathered(listing.take(it.index() as int)),
        {
            proof {
                let upto = listing.take(it.index() + 1);
                assert(upto.drop_last() == listing.take(it.index() as int));
            }
            if let Some(migration) = self.process_file(entry.file_name.as_str(), entry.contents) {
                migrations.push(migration);
            }
        }
        assert(listing.take(listing.len() as int) == listing);
        migrations
    }
}

} // verus!
