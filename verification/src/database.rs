//! The settings store: text keys with text values, read from and written as
//! a TOML document.
use vstd::prelude::*;
use vstd::string::StringExecFns;

verus! {

/// The directory under the home directory that holds the settings file.
pub const DATABASE_DIR: &'static str = ".ffs";

/// The name of the settings file.
pub const DATABASE_FILENAME: &'static str = "database.toml";

/// `toml::de::Error`, the error of `toml`'s parser: carried through, never looked into.
#[verifier::external_type_specification]
#[verifier::external_body]
pub struct ExParseError(toml::de::Error);

/// `toml::ser::Error`, the error of `toml`'s writer: carried through, never looked into.
#[verifier::external_type_specification]
#[verifier::external_body]
pub struct ExRenderError(toml::ser::Error);

/// Why the settings could not be read or written.
#[derive(Debug)]
pub enum DatabaseError {
    /// The text is not a TOML document.
    Parse(toml::de::Error),
    /// The settings could not be written as TOML.
    Render(toml::ser::Error),
}

/// The top-level table of the TOML document `text`, as `toml` reads it: its
/// keys in the table's order, each with its value where that is a string and
/// `None` where it is anything else. `None` where `text` is no TOML document.
pub uninterp spec fn toml_entries(text: Seq<char>) -> Option<Seq<(Seq<char>, Option<Seq<char>>)>>;

/// The TOML document that `toml` writes for a table of string values.
pub uninterp spec fn toml_text(pairs: Seq<(Seq<char>, Seq<char>)>) -> Seq<char>;

/// Keys with what a document gave them, as plain text.
pub open spec fn raw_view(raw: Seq<(String, Option<String>)>) -> Seq<(Seq<char>, Option<Seq<char>>)> {
    raw.map_values(
        |e: (String, Option<String>)|
            (
                e.0@,
                match e.1 {
                    Some(v) => Some(v@),
                    None => None,
                },
            ),
    )
}

/// Keys and values as plain text.
pub open spec fn pairs_view(pairs: Seq<(String, String)>) -> Seq<(Seq<char>, Seq<char>)> {
    pairs.map_values(|e: (String, String)| (e.0@, e.1@))
}

/// The settings that a document's top-level table gives: each key with its
/// string, or with the empty string where its value is no string. A key that
/// comes twice keeps what came last.
pub open spec fn settings_of(raw: Seq<(Seq<char>, Option<Seq<char>>)>) -> Map<Seq<char>, Seq<char>>
    decreases raw.len(),
{
    if raw.len() == 0 {
        Map::empty()
    } else {
        settings_of(raw.drop_last()).insert(
            raw.last().0,
            match raw.last().1 {
                Some(v) => v,
                None => Seq::empty(),
            },
        )
    }
}

/// The map that a list of pairs with distinct keys stands for.
pub open spec fn map_of(pairs: Seq<(Seq<char>, Seq<char>)>) -> Map<Seq<char>, Seq<char>> {
    Map::new(
        |k: Seq<char>| exists|i: int| 0 <= i < pairs.len() && #[trigger] pairs[i].0 == k,
        |k: Seq<char>| pairs[choose|i: int| 0 <= i < pairs.len() && #[trigger] pairs[i].0 == k].1,
    )
}

/// The list with `value` in the place of what it held for `key`, or at its
/// end where it held nothing for `key`.
pub open spec fn with_pair(
    pairs: Seq<(Seq<char>, Seq<char>)>,
    key: Seq<char>,
    value: Seq<char>,
) -> Seq<(Seq<char>, Seq<char>)> {
    if exists|i: int| 0 <= i < pairs.len() && #[trigger] pairs[i].0 == key {
        pairs.update(choose|i: int| 0 <= i < pairs.len() && #[trigger] pairs[i].0 == key, (key, value))
    } else {
        pairs.push((key, value))
    }
}

/// The list of pairs that a document's top-level table gives, each key in
/// the place where it first came.
pub open spec fn pairs_of(raw: Seq<(Seq<char>, Option<Seq<char>>)>) -> Seq<(Seq<char>, Seq<char>)>
    decreases raw.len(),
{
    if raw.len() == 0 {
        Seq::empty()
    } else {
        with_pair(
            pairs_of(raw.drop_last()),
            raw.last().0,
            match raw.last().1 {
                Some(v) => v,
                None => Seq::empty(),
            },
        )
    }
}

/// No key stands twice in the list.
pub open spec fn distinct_keys(pairs: Seq<(Seq<char>, Seq<char>)>) -> bool {
    forall|i: int, j: int|
        0 <= i < pairs.len() && 0 <= j < pairs.len() && #[trigger] pairs[i].0 == #[trigger] pairs[j].0
            ==> i == j
}

/// Parses `text` with `toml`'s `FromStr` for `toml::Table` and hands out each
/// top-level key with `Value::as_str` of its value. Believed: the outcome is
/// the one that `toml_entries` names for this text, an error exactly where it
/// names none.
#[verifier::external_body]
fn parse_table(text: &str) -> (r: Result<Vec<(String, Option<String>)>, toml::de::Error>)
    ensures
        match r {
            Ok(raw) => toml_entries(text@) == Some(raw_view(raw@)),
            Err(_) => toml_entries(text@) is None,
        },
{
    let table = text.parse::<toml::Table>()?;
    Ok(table.iter().map(|(k, v)| (k.clone(), v.as_str().map(|s| s.to_string()))).collect())
}

/// Writes the pairs as a TOML document with `toml::to_string`, from a
/// `toml::Table` that holds each key with its value as a TOML string.
/// Believed: where it succeeds, the text is the one that `toml_text` names.
#[verifier::external_body]
fn render_table(pairs: &Vec<(String, String)>) -> (r: Result<String, toml::ser::Error>)
    ensures
        r matches Ok(text) ==> text@ == toml_text(pairs_view(pairs@)),
{
    let table: toml::Table = pairs.iter().map(
        |e| (e.0.clone(), toml::Value::String(e.1.clone())),
    ).collect();
    toml::to_string(&table)
}

/// With distinct keys, the map holds each pair of the list and nothing else.
pub proof fn lemma_map_of(pairs: Seq<(Seq<char>, Seq<char>)>)
    requires
        distinct_keys(pairs),
    ensures
        forall|i: int|
            0 <= i < pairs.len() ==> map_of(pairs).contains_key(#[trigger] pairs[i].0) && map_of(
                pairs,
            )[pairs[i].0] == pairs[i].1,
        forall|k: Seq<char>| #[trigger]
            map_of(pairs).contains_key(k) ==> exists|i: int|
                0 <= i < pairs.len() && #[trigger] pairs[i].0 == k,
{
    assert forall|i: int| 0 <= i < pairs.len() implies map_of(pairs).contains_key(
        #[trigger] pairs[i].0,
    ) && map_of(pairs)[pairs[i].0] == pairs[i].1 by {
        let k = pairs[i].0;
        let j = choose|j: int| 0 <= j < pairs.len() && #[trigger] pairs[j].0 == k;
        assert(j == i);
    }
}

/// A flat store of settings: text keys, each with one text value.
pub struct Database {
    filename: String,
    data: Vec<(String, String)>,
}

impl View for Database {
    type V = Map<Seq<char>, Seq<char>>;

    open spec fn view(&self) -> Map<Seq<char>, Seq<char>> {
        map_of(self.pairs())
    }
}

impl Database {
    #[verifier::type_invariant]
    spec fn well_formed(self) -> bool {
        distinct_keys(pairs_view(self.data@))
    }

    /// The keys and values held, in the order in which the keys first came.
    pub closed spec fn pairs(&self) -> Seq<(Seq<char>, Seq<char>)> {
        pairs_view(self.data@)
    }

    /// The name of the file that `set` writes for.
    pub closed spec fn spec_filename(&self) -> Seq<char> {
        self.filename@
    }

    /// An empty store, bound to the settings file's name.
    pub fn new() -> (db: Database)
        ensures
            db@ == Map::<Seq<char>, Seq<char>>::empty(),
            db.pairs() == Seq::<(Seq<char>, Seq<char>)>::empty(),
            db.spec_filename() == DATABASE_FILENAME@,
    {
        let db = Database { filename: String::from_str(DATABASE_FILENAME), data: Vec::new() };
        assert(db@ =~= Map::<Seq<char>, Seq<char>>::empty());
        assert(db.pairs() =~= Seq::<(Seq<char>, Seq<char>)>::empty());
        db
    }

    /// The name of the file that `set` writes for.
    pub fn filename(&self) -> (name: &str)
        ensures
            name@ == self.spec_filename(),
    {
        self.filename.as_str()
    }

    fn position(&self, key: &str) -> (r: Option<usize>)
        ensures
            match r {
                Some(i) => i < self.data@.len() && self.data@[i as int].0@ == key@,
                None => forall|i: int| 0 <= i < self.data@.len() ==> self.data@[i].0@ != key@,
            },
    {
        let wanted = key.to_owned();
        let mut i: usize = 0;
        while i < self.data.len()
            invariant
                i <= self.data@.len(),
                wanted@ == key@,
                forall|j: int| 0 <= j < i ==> self.data@[j].0@ != key@,
            decreases self.data@.len() - i,
        {
            if self.data[i].0 == wanted {
                return Some(i);
            }
            i = i + 1;
        }
        None
    }

    /// The value held for `key`, if there is one.
    pub fn get(&self, key: &str) -> (r: Option<String>)
        ensures
            match r {
                Some(v) => self@.contains_key(key@) && v@ == self@[key@],
                None => !self@.contains_key(key@),
            },
    {
        proof {
            use_type_invariant(self);
        }
        let ghost pairs = pairs_view(self.data@);
        match self.position(key) {
            Some(i) => {
                assert(pairs[i as int].0 == key@);
                Some(self.data[i].1.clone())
            },
            None => {
                assert forall|i: int| 0 <= i < pairs.len() implies #[trigger] pairs[i].0 != key@ by {
                    assert(pairs[i].0 == self.data@[i].0@);
                }
                None
            },
        }
    }

    fn put(&mut self, key: String, value: String)
        ensures
            final(self)@ == old(self)@.insert(key@, value@),
            final(self).pairs() == with_pair(old(self).pairs(), key@, value@),
            final(self).spec_filename() == old(self).spec_filename(),
    {
        proof {
            use_type_invariant(&*self);
        }
        let ghost before = pairs_view(self.data@);
        let found = self.position(key.as_str());
        let ghost entry = (key@, value@);
        let mut data: Vec<(String, String)> = Vec::new();
        assert(pairs_view(data@) =~= Seq::<(Seq<char>, Seq<char>)>::empty());
        core::mem::swap(&mut self.data, &mut data);
        match found {
            Some(i) => {
                data.set(i, (key, value));
                let ghost after = pairs_view(data@);
                assert(after =~= before.update(i as int, entry));
                assert(before[i as int].0 == key@);
                assert(after == with_pair(before, key@, value@)) by {
                    let j = choose|j: int| 0 <= j < before.len() && #[trigger] before[j].0 == key@;
                    assert(j == i);
                }
                assert(distinct_keys(after)) by {
                    assert forall|a: int, b: int|
                        0 <= a < after.len() && 0 <= b < after.len() && #[trigger] after[a].0
                            == #[trigger] after[b].0 implies a == b by {
                        assert(after[a].0 == before[a].0);
                        assert(after[b].0 == before[b].0);
                    }
                }
                proof {
                    lemma_map_of(before);
                    lemma_map_of(after);
                    assert forall|k: Seq<char>| #[trigger]
                        map_of(after).contains_key(k) == map_of(before).insert(
                            entry.0,
                            entry.1,
                        ).contains_key(k) by {
                        if map_of(after).contains_key(k) {
                            let j = choose|j: int| 0 <= j < after.len() && #[trigger] after[j].0 == k;
                            assert(before[j].0 == k);
                        }
                        if map_of(before).contains_key(k) {
                            let j = choose|j: int|
                                0 <= j < before.len() && #[trigger] before[j].0 == k;
                            assert(after[j].0 == k);
                        }
                        if k == entry.0 {
                            assert(after[i as int].0 == k);
                        }
                    }
                    assert forall|k: Seq<char>| #[trigger]
                        map_of(after).contains_key(k) implies map_of(after)[k] == map_of(
                        before,
                    ).insert(entry.0, entry.1)[k] by {
                        let j = choose|j: int| 0 <= j < after.len() && #[trigger] after[j].0 == k;
                        assert(map_of(after)[after[j].0] == after[j].1);
                        if j != i {
                            assert(before[j] == after[j]);
                            assert(map_of(before)[before[j].0] == before[j].1);
                            assert(before[i as int].0 == key@);
                        }
                    }
                    assert(map_of(after) =~= map_of(before).insert(entry.0, entry.1));
                }
                self.data = data;
            },
            None => {
                data.push((key, value));
                let ghost after = pairs_view(data@);
                assert(after =~= before.push(entry));
                assert(after == with_pair(before, key@, value@)) by {
                    assert forall|j: int| 0 <= j < before.len() implies #[trigger] before[j].0
                        != key@ by {
                        assert(before[j].0 == old(self).data@[j].0@);
                    }
                }
                assert(distinct_keys(after)) by {
                    assert forall|a: int, b: int|
                        0 <= a < after.len() && 0 <= b < after.len() && #[trigger] after[a].0
                            == #[trigger] after[b].0 implies a == b by {
                        if a < before.len() {
                            assert(after[a].0 == old(self).data@[a].0@);
                        }
                        if b < before.len() {
                            assert(after[b].0 == old(self).data@[b].0@);
                        }
                    }
                }
                proof {
                    lemma_map_of(before);
                    lemma_map_of(after);
                    assert forall|k: Seq<char>| #[trigger]
                        map_of(after).contains_key(k) == map_of(before).insert(
                            entry.0,
                            entry.1,
                        ).contains_key(k) by {
                        if map_of(after).contains_key(k) {
                            let j = choose|j: int| 0 <= j < after.len() && #[trigger] after[j].0 == k;
                            if j < before.len() {
                                assert(before[j].0 == k);
                            }
                        }
                        if map_of(before).contains_key(k) {
                            let j = choose|j: int|
                                0 <= j < before.len() && #[trigger] before[j].0 == k;
                            assert(after[j].0 == k);
                        }
                        if k == entry.0 {
                            assert(after[before.len() as int].0 == k);
                        }
                    }
                    assert forall|k: Seq<char>| #[trigger]
                        map_of(after).contains_key(k) implies map_of(after)[k] == map_of(
                        before,
                    ).insert(entry.0, entry.1)[k] by {
                        let j = choose|j: int| 0 <= j < after.len() && #[trigger] after[j].0 == k;
                        assert(map_of(after)[after[j].0] == after[j].1);
                        if j < before.len() {
                            assert(before[j] == after[j]);
                            assert(map_of(before)[before[j].0] == before[j].1);
                            assert(old(self).data@[j].0@ != key@);
                        }
                    }
                    assert(map_of(after) =~= map_of(before).insert(entry.0, entry.1));
                }
                self.data = data;
            },
        }
    }

    /// Replaces what the store holds by the settings that a document's
    /// top-level table gives.
    pub fn load_entries(&mut self, raw: &Vec<(String, Option<String>)>)
        ensures
            final(self)@ == settings_of(raw_view(raw@)),
            final(self).pairs() == pairs_of(raw_view(raw@)),
            final(self).spec_filename() == old(self).spec_filename(),
    {
        self.data = Vec::new();
        assert(self@ =~= Map::<Seq<char>, Seq<char>>::empty());
        assert(self.pairs() =~= Seq::<(Seq<char>, Seq<char>)>::empty());
        let ghost all = raw_view(raw@);
        assert(all.take(0) =~= Seq::<(Seq<char>, Option<Seq<char>>)>::empty());
        let mut i: usize = 0;
        while i < raw.len()
            invariant
                i <= raw@.len(),
                all == raw_view(raw@),
                self@ == settings_of(all.take(i as int)),
                self.pairs() == pairs_of(all.take(i as int)),
                self.spec_filename() == old(self).spec_filename(),
            decreases raw@.len() - i,
        {
            let key = raw[i].0.clone();
            let value = match &raw[i].1 {
                Some(v) => v.clone(),
                None => String::new(),
            };
            assert(all.take(i + 1).drop_last() =~= all.take(i as int));
            assert(all.take(i + 1).last() == all[i as int]);
            self.put(key, value);
            i = i + 1;
        }
        assert(all.take(raw@.len() as int) =~= all);
    }

    /// Reads the settings from the text of a TOML document. Text that is no
    /// TOML document leaves the store as it was.
    pub fn load(&mut self, contents: &str) -> (r: Result<(), DatabaseError>)
        ensures
            match toml_entries(contents@) {
                Some(raw) => r is Ok && final(self)@ == settings_of(raw) && final(self).pairs()
                    == pairs_of(raw),
                None => r matches Err(DatabaseError::Parse(_)) && final(self)@ == old(self)@
                    && final(self).pairs() == old(self).pairs(),
            },
            final(self).spec_filename() == old(self).spec_filename(),
    {
        match parse_table(contents) {
            Ok(raw) => {
                self.load_entries(&raw);
                Ok(())
            },
            Err(e) => Err(DatabaseError::Parse(e)),
        }
    }

    /// Holds `value` for `key` from now on, and gives the TOML document to
    /// write to the file: the store is changed also where no document results.
    pub fn set(&mut self, key: &str, value: &str) -> (r: Result<String, DatabaseError>)
        ensures
            final(self)@ == old(self)@.insert(key@, value@),
            final(self).pairs() == with_pair(old(self).pairs(), key@, value@),
            final(self).spec_filename() == old(self).spec_filename(),
            match r {
                Ok(text) => text@ == toml_text(final(self).pairs()),
                Err(e) => e is Render,
            },
    {
        self.put(key.to_owned(), value.to_owned());
        match render_table(&self.data) {
            Ok(text) => Ok(text),
            Err(e) => Err(DatabaseError::Render(e)),
        }
    }
}

impl Default for Database {
    fn default() -> (db: Database)
        ensures
            db@ == Map::<Seq<char>, Seq<char>>::empty(),
            db.spec_filename() == DATABASE_FILENAME@,
    {
        Database::new()
    }
}

/// The directory that holds the settings file, under the home directory `home`.
pub fn database_dir(home: &str) -> (dir: String)
    ensures
        dir@ == home@ + "/"@ + DATABASE_DIR@,
{
    String::from_str(home).concat("/").concat(DATABASE_DIR)
}

/// The path of the settings file, under the home directory `home`.
pub fn database_file(home: &str) -> (path: String)
    ensures
        path@ == home@ + "/"@ + DATABASE_DIR@ + "/"@ + DATABASE_FILENAME@,
{
    database_dir(home).concat("/").concat(DATABASE_FILENAME)
}

} // verus!
