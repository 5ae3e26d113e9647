use vstd::prelude::*;

verus! {

/// One write: the file's path and what was written to it.
pub struct FileEntry {
    pub path: String,
    pub contents: Vec<u8>,
}

/// The files of the host as a run sees them: an ordered log of writes, of
/// which the latest to a path decides what the file holds. A caller fills it
/// with the files found on disk, hands it to the functions that read and
/// create credentials and configuration, and afterwards carries out the
/// writes that were added.
pub struct FileStore {
    entries: Vec<FileEntry>,
}

/// The files that a log of writes leaves behind.
pub open spec fn files_of(writes: Seq<(Seq<char>, Seq<u8>)>) -> Map<Seq<char>, Seq<u8>>
    decreases writes.len(),
{
    if writes.len() == 0 {
        Map::empty()
    } else {
        files_of(writes.drop_last()).insert(writes.last().0, writes.last().1)
    }
}

impl FileStore {
    /// The log of writes, oldest first.
    pub closed spec fn writes(&self) -> Seq<(Seq<char>, Seq<u8>)> {
        Seq::new(self.entries@.len(), |i: int| (self.entries@[i].path@, self.entries@[i].contents@))
    }

    /// A store without files.
    pub fn new() -> (store: FileStore)
        ensures
            store.writes() == Seq::<(Seq<char>, Seq<u8>)>::empty(),
            store@ == Map::<Seq<char>, Seq<u8>>::empty(),
    {
        let store = FileStore { entries: Vec::new() };
        assert(store.writes() =~= Seq::<(Seq<char>, Seq<u8>)>::empty());
        store
    }

    /// The number of writes in the log.
    pub fn len(&self) -> (n: usize)
        ensures
            n == self.writes().len(),
    {
        self.entries.len()
    }

    /// The write at position `index` of the log.
    pub fn entry(&self, index: usize) -> (entry: &FileEntry)
        requires
            index < self.writes().len(),
        ensures
            (entry.path@, entry.contents@) == self.writes()[index as int],
    {
        &self.entries[index]
    }

    /// Position of the latest write to `path` among the first `bound` writes.
    fn find(&self, path: &String, bound: usize) -> (found: Option<usize>)
        requires
            bound <= self.writes().len(),
        ensures
            match found {
                Some(i) => i < bound && self.writes()[i as int].0 == path@
                    && files_of(self.writes().take(bound as int)).contains_key(path@)
                    && files_of(self.writes().take(bound as int))[path@]
                    == self.writes()[i as int].1,
                None => !files_of(self.writes().take(bound as int)).contains_key(path@),
            },
        decreases bound,
    {
        if bound == 0 {
            return None;
        }
        let last = bound - 1;
        proof {
            let taken = self.writes().take(bound as int);
            assert(taken.drop_last() =~= self.writes().take(last as int));
            assert(taken.last() == self.writes()[last as int]);
        }
        if self.entries[last].path == *path {
            Some(last)
        } else {
            self.find(path, last)
        }
    }

    /// Whether a file stands at `path`.
    pub fn contains(&self, path: &str) -> (found: bool)
        ensures
            found == self@.contains_key(path@),
    {
        proof {
            assert(self.writes().take(self.writes().len() as int) =~= self.writes());
        }
        self.find(&path.to_owned(), self.entries.len()).is_some()
    }

    /// What the file at `path` holds, if there is one.
    pub fn read(&self, path: &str) -> (contents: Option<&Vec<u8>>)
        ensures
            match contents {
                Some(bytes) => self@.contains_key(path@) && bytes@ == self@[path@],
                None => !self@.contains_key(path@),
            },
    {
        proof {
            assert(self.writes().take(self.writes().len() as int) =~= self.writes());
        }
        match self.find(&path.to_owned(), self.entries.len()) {
            Some(i) => Some(&self.entries[i].contents),
            None => None,
        }
    }

    /// Writes `contents` to `path`, replacing what the file held.
    pub fn write(&mut self, path: &str, contents: Vec<u8>)
        ensures
            final(self).writes() == old(self).writes().push((path@, contents@)),
            final(self)@ == old(self)@.insert(path@, contents@),
    {
        let ghost before = self.writes();
        self.entries.push(FileEntry { path: path.to_owned(), contents });
        proof {
            let after = self.writes();
            assert(after =~= before.push((path@, contents@)));
            assert(after.drop_last() =~= before);
        }
    }
}

impl View for FileStore {
    type V = Map<Seq<char>, Seq<u8>>;

    /// The files by path.
    open spec fn view(&self) -> Map<Seq<char>, Seq<u8>> {
        files_of(self.writes())
    }
}

} // verus!
