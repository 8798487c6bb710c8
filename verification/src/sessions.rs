//! The session table: which session identifier belongs to which user.
//!
//! The table is a finite map from identifier to username. It is kept as a
//! list of entries in which no identifier occurs twice.

use vstd::prelude::*;
use vstd::string::StringExecFns;

verus! {

/// One live session.
struct Session {
    id: String,
    username: String,
}

/// Some entry of `entries` has the identifier `id`.
spec fn holds_id(entries: Seq<Session>, id: Seq<char>) -> bool {
    exists|i: int| 0 <= i < entries.len() && (#[trigger] entries[i]).id@ == id
}

/// The place of an entry with the identifier `id`.
spec fn position_of(entries: Seq<Session>, id: Seq<char>) -> int {
    choose|i: int| 0 <= i < entries.len() && (#[trigger] entries[i]).id@ == id
}

/// No identifier occurs in two entries.
spec fn distinct_ids(entries: Seq<Session>) -> bool {
    forall|i: int, j: int|
        0 <= i < j < entries.len() ==> (#[trigger] entries[i]).id@ != (#[trigger] entries[j]).id@
}

/// The map that a list of entries stands for.
spec fn table_of(entries: Seq<Session>) -> Map<Seq<char>, Seq<char>> {
    Map::new(
        |id: Seq<char>| holds_id(entries, id),
        |id: Seq<char>| entries[position_of(entries, id)].username@,
    )
}

/// What is left of `sessions` once every session of `username` is removed.
pub open spec fn without_user(sessions: Map<Seq<char>, Seq<char>>, username: Seq<char>) -> Map<
    Seq<char>,
    Seq<char>,
> {
    Map::new(
        |id: Seq<char>| sessions.contains_key(id) && sessions[id] != username,
        |id: Seq<char>| sessions[id],
    )
}

/// In a list without repeated identifiers, each entry is what the map holds
/// under its identifier.
proof fn lemma_entry_in_table(entries: Seq<Session>, i: int)
    requires
        distinct_ids(entries),
        0 <= i < entries.len(),
    ensures
        table_of(entries).contains_key(entries[i].id@),
        table_of(entries)[entries[i].id@] == entries[i].username@,
{
    let id = entries[i].id@;
    assert(holds_id(entries, id));
    let p = position_of(entries, id);
    assert(0 <= p < entries.len() && entries[p].id@ == id);
    if p < i {
        assert(entries[p].id@ != entries[i].id@);
    } else if i < p {
        assert(entries[i].id@ != entries[p].id@);
    }
}

/// Each key of the map is the identifier of some entry.
proof fn lemma_key_has_entry(entries: Seq<Session>, id: Seq<char>) -> (i: int)
    requires
        table_of(entries).contains_key(id),
    ensures
        0 <= i < entries.len(),
        entries[i].id@ == id,
{
    assert(holds_id(entries, id));
    position_of(entries, id)
}

/// Adding an entry with a new identifier adds one key to the map.
proof fn lemma_push_entry(entries: Seq<Session>, entry: Session)
    requires
        distinct_ids(entries),
        !holds_id(entries, entry.id@),
    ensures
        distinct_ids(entries.push(entry)),
        table_of(entries.push(entry)) == table_of(entries).insert(entry.id@, entry.username@),
{
    let longer = entries.push(entry);
    assert forall|i: int, j: int| 0 <= i < j < longer.len() implies (#[trigger] longer[i]).id@ != (
    #[trigger] longer[j]).id@ by {
        if j < entries.len() {
            assert(entries[i].id@ != entries[j].id@);
        } else {
            assert(longer[i] == entries[i]);
        }
    }
    let grown = table_of(entries).insert(entry.id@, entry.username@);
    assert forall|id: Seq<char>| table_of(longer).contains_key(id) implies grown.contains_key(
        id,
    ) && grown[id] == table_of(longer)[id] by {
        let i = lemma_key_has_entry(longer, id);
        lemma_entry_in_table(longer, i);
        if i < entries.len() {
            assert(longer[i] == entries[i]);
            lemma_entry_in_table(entries, i);
        }
    }
    assert forall|id: Seq<char>| grown.contains_key(id) implies table_of(longer).contains_key(
        id,
    ) by {
        if id == entry.id@ {
            assert(longer[entries.len() as int] == entry);
            lemma_entry_in_table(longer, entries.len() as int);
        } else {
            let i = lemma_key_has_entry(entries, id);
            assert(longer[i] == entries[i]);
            lemma_entry_in_table(longer, i);
        }
    }
    assert(table_of(longer) =~= grown);
}

/// Replacing an entry by one with the same identifier changes that key's
/// value in the map.
proof fn lemma_replace_entry(entries: Seq<Session>, at: int, entry: Session)
    requires
        distinct_ids(entries),
        0 <= at < entries.len(),
        entries[at].id@ == entry.id@,
    ensures
        distinct_ids(entries.update(at, entry)),
        table_of(entries.update(at, entry)) == table_of(entries).insert(
            entry.id@,
            entry.username@,
        ),
{
    let changed = entries.update(at, entry);
    assert forall|i: int, j: int| 0 <= i < j < changed.len() implies (#[trigger] changed[i]).id@
        != (#[trigger] changed[j]).id@ by {
        assert(entries[i].id@ != entries[j].id@);
    }
    let grown = table_of(entries).insert(entry.id@, entry.username@);
    assert forall|id: Seq<char>| table_of(changed).contains_key(id) implies grown.contains_key(
        id,
    ) && grown[id] == table_of(changed)[id] by {
        let i = lemma_key_has_entry(changed, id);
        lemma_entry_in_table(changed, i);
        lemma_entry_in_table(entries, i);
    }
    assert forall|id: Seq<char>| grown.contains_key(id) implies table_of(changed).contains_key(
        id,
    ) by {
        if id == entry.id@ {
            lemma_entry_in_table(changed, at);
        } else {
            let i = lemma_key_has_entry(entries, id);
            lemma_entry_in_table(changed, i);
        }
    }
    assert(table_of(changed) =~= grown);
}

/// `entry` stands in `source` at or after `from` and does not belong to
/// `username`.
spec fn survives(source: Seq<Session>, from: int, username: Seq<char>, entry: Session) -> bool {
    exists|k: int|
        from <= k < source.len() && #[trigger] source[k] == entry && entry.username@
            != username
}

/// `kept` holds exactly the entries of `source` from `from` on that do not
/// belong to `username`.
spec fn kept_from(
    kept: Seq<Session>,
    source: Seq<Session>,
    from: int,
    username: Seq<char>,
) -> bool {
    &&& forall|j: int|
        0 <= j < kept.len() ==> survives(source, from, username, #[trigger] kept[j])
    &&& forall|k: int|
        from <= k < source.len() && (#[trigger] source[k]).username@ != username
            ==> kept.contains(source[k])
}

/// Going one entry further down `source`: the entry is kept unless it
/// belongs to `username`.
proof fn lemma_keep_step(
    source: Seq<Session>,
    kept: Seq<Session>,
    n: int,
    username: Seq<char>,
)
    requires
        distinct_ids(source),
        distinct_ids(kept),
        0 <= n < source.len(),
        kept_from(kept, source, n + 1, username),
    ensures
        source[n].username@ == username ==> kept_from(kept, source, n, username),
        source[n].username@ != username ==> {
            &&& !holds_id(kept, source[n].id@)
            &&& kept_from(kept.push(source[n]), source, n, username)
        },
{
    let entry = source[n];
    assert forall|j: int| 0 <= j < kept.len() implies survives(
        source,
        n,
        username,
        #[trigger] kept[j],
    ) && kept[j].id@ != entry.id@ by {
        assert(survives(source, n + 1, username, kept[j]));
        let k = choose|k: int|
            n + 1 <= k < source.len() && #[trigger] source[k] == kept[j]
                && kept[j].username@ != username;
        assert(source[n].id@ != source[k].id@);
    }
    if entry.username@ == username {
        assert forall|k: int|
            n <= k < source.len() && (#[trigger] source[k]).username@
                != username implies kept.contains(source[k]) by {
            assert(k >= n + 1);
        }
    } else {
        let longer = kept.push(entry);
        assert(!holds_id(kept, entry.id@));
        assert forall|j: int| 0 <= j < longer.len() implies survives(
            source,
            n,
            username,
            #[trigger] longer[j],
        ) by {
            if j < kept.len() {
                assert(longer[j] == kept[j]);
            } else {
                assert(longer[j] == source[n]);
            }
        }
        assert forall|k: int|
            n <= k < source.len() && (#[trigger] source[k]).username@
                != username implies longer.contains(source[k]) by {
            if k == n {
                assert(longer[kept.len() as int] == source[k]);
            } else {
                assert(kept.contains(source[k]));
                let j = choose|j: int| 0 <= j < kept.len() && kept[j] == source[k];
                assert(longer[j] == source[k]);
            }
        }
    }
}

/// A list that keeps exactly the entries of `source` that do not belong
/// to `username` stands for the map without that user's sessions.
proof fn lemma_kept_entries(source: Seq<Session>, kept: Seq<Session>, username: Seq<char>)
    requires
        distinct_ids(source),
        distinct_ids(kept),
        kept_from(kept, source, 0, username),
    ensures
        table_of(kept) == without_user(table_of(source), username),
{
    let expected = without_user(table_of(source), username);
    assert forall|id: Seq<char>| table_of(kept).contains_key(id) implies expected.contains_key(
        id,
    ) && expected[id] == table_of(kept)[id] by {
        let j = lemma_key_has_entry(kept, id);
        lemma_entry_in_table(kept, j);
        assert(survives(source, 0, username, kept[j]));
        let k = choose|k: int|
            0 <= k < source.len() && #[trigger] source[k] == kept[j] && kept[j].username@
                != username;
        lemma_entry_in_table(source, k);
    }
    assert forall|id: Seq<char>| expected.contains_key(id) implies table_of(kept).contains_key(
        id,
    ) by {
        let k = lemma_key_has_entry(source, id);
        lemma_entry_in_table(source, k);
        assert(kept.contains(source[k]));
        let j = choose|j: int| 0 <= j < kept.len() && kept[j] == source[k];
        lemma_entry_in_table(kept, j);
    }
    assert(table_of(kept) =~= expected);
}

/// The table of live sessions.
pub struct SessionTable {
    entries: Vec<Session>,
}

impl View for SessionTable {
    type V = Map<Seq<char>, Seq<char>>;

    /// The map from session identifier to username.
    closed spec fn view(&self) -> Map<Seq<char>, Seq<char>> {
        table_of(self.entries@)
    }
}

impl SessionTable {
    /// The table's invariant: no identifier occurs in two entries.
    pub closed spec fn well_formed(&self) -> bool {
        distinct_ids(self.entries@)
    }

    /// A table without sessions.
    pub fn new() -> (table: SessionTable)
        ensures
            table.well_formed(),
            table@ == Map::<Seq<char>, Seq<char>>::empty(),
    {
        let table = SessionTable { entries: Vec::new() };
        assert(table@ =~= Map::<Seq<char>, Seq<char>>::empty());
        table
    }

    /// Finds the place of the entry with the identifier `id`, if there is one.
    fn find(&self, id: &String) -> (at: Option<usize>)
        ensures
            match at {
                Some(i) => i < self.entries.len() && self.entries[i as int].id@ == id@,
                None => !holds_id(self.entries@, id@),
            },
    {
        let mut i: usize = 0;
        while i < self.entries.len()
            invariant
                i <= self.entries.len(),
                forall|k: int| 0 <= k < i ==> (#[trigger] self.entries[k]).id@ != id@,
            decreases self.entries.len() - i,
        {
            if self.entries[i].id == *id {
                return Some(i);
            }
            i += 1;
        }
        None
    }

    /// Looks up the user that owns the session `id`.
    pub fn get(&self, id: &str) -> (owner: Option<&String>)
        requires
            self.well_formed(),
        ensures
            match owner {
                Some(username) => self@.contains_key(id@) && username@ == self@[id@],
                None => !self@.contains_key(id@),
            },
    {
        let key = String::from_str(id);
        match self.find(&key) {
            Some(i) => {
                proof {
                    lemma_entry_in_table(self.entries@, i as int);
                }
                Some(&self.entries[i].username)
            },
            None => None,
        }
    }

    /// Tells whether the session `id` is live.
    pub fn contains(&self, id: &str) -> (live: bool)
        requires
            self.well_formed(),
        ensures
            live == self@.contains_key(id@),
    {
        self.get(id).is_some()
    }

    /// Records that the session `id` belongs to `username`. A session that
    /// already has this identifier is given to `username`.
    pub fn insert(&mut self, id: String, username: String)
        requires
            old(self).well_formed(),
        ensures
            final(self).well_formed(),
            final(self)@ == old(self)@.insert(id@, username@),
    {
        let at = self.find(&id);
        let entry = Session { id, username };
        match at {
            Some(i) => {
                proof {
                    lemma_replace_entry(self.entries@, i as int, entry);
                }
                self.entries.set(i, entry);
            },
            None => {
                proof {
                    lemma_push_entry(self.entries@, entry);
                }
                self.entries.push(entry);
            },
        }
    }

    /// Ends every session of `username`, whichever client holds it.
    pub fn end_sessions_for_user(&mut self, username: &str)
        requires
            old(self).well_formed(),
        ensures
            final(self).well_formed(),
            final(self)@ == without_user(old(self)@, username@),
    {
        let user = String::from_str(username);
        let ghost source = self.entries@;
        let mut kept: Vec<Session> = Vec::new();
        while self.entries.len() > 0
            invariant
                user@ == username@,
                distinct_ids(source),
                distinct_ids(kept@),
                self.entries.len() <= source.len(),
                self.entries@ == source.take(self.entries.len() as int),
                kept_from(kept@, source, self.entries.len() as int, username@),
            decreases self.entries.len(),
        {
            let last = self.entries.pop();
            let ghost n = self.entries.len() as int;
            assert(self.entries@ =~= source.take(n));
            proof {
                lemma_keep_step(source, kept@, n, username@);
            }
            match last {
                Some(entry) => {
                    assert(entry == source[n]);
                    if entry.username == user {
                    } else {
                        proof {
                            lemma_push_entry(kept@, entry);
                        }
                        kept.push(entry);
                    }
                },
                None => {},
            }
        }
        proof {
            lemma_kept_entries(source, kept@, username@);
        }
        self.entries = kept;
    }
}

} // verus!
