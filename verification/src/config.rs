use vstd::prelude::*;

use crate::pier_error::PierError;
use crate::script::{Script, ScriptView};

verus! {

/// The keys of a list of entries, in order.
pub open spec fn keys_of(s: Seq<(String, Script)>) -> Seq<Seq<char>> {
    s.map_values(|e: (String, Script)| e.0@)
}

/// The scripts a list of entries describes; a later entry for a key wins.
pub open spec fn scripts_of(s: Seq<(String, Script)>) -> Map<Seq<char>, ScriptView>
    decreases s.len(),
{
    if s.len() == 0 {
        Map::empty()
    } else {
        scripts_of(s.drop_last()).insert(s.last().0@, s.last().1@)
    }
}

/// A configuration as plain values: its scripts by key, and the file it belongs to.
pub struct ConfigView {
    pub scripts: Map<Seq<char>, ScriptView>,
    pub path: Seq<char>,
}

impl ConfigView {
    /// A configuration with no scripts.
    pub open spec fn empty(path: Seq<char>) -> ConfigView {
        ConfigView { scripts: Map::empty(), path }
    }

    /// The script stored under `alias`, if any.
    pub open spec fn fetch_script(self, alias: Seq<char>) -> Option<ScriptView> {
        if self.scripts.contains_key(alias) {
            Some(self.scripts[alias])
        } else {
            None
        }
    }

    /// Stores `script` under its alias, unless a script is already stored there.
    pub open spec fn add_script(self, script: ScriptView) -> ConfigView {
        if self.scripts.contains_key(script.alias) {
            self
        } else {
            ConfigView { scripts: self.scripts.insert(script.alias, script), path: self.path }
        }
    }

    /// Drops the script stored under `alias`; `None` when there is none.
    pub open spec fn remove_script(self, alias: Seq<char>) -> Option<ConfigView> {
        if self.scripts.contains_key(alias) {
            Some(ConfigView { scripts: self.scripts.remove(alias), path: self.path })
        } else {
            None
        }
    }
}

/// `rows` lists the scripts of `c`: each key once, with its script's command.
pub open spec fn is_listing(rows: Seq<(String, String)>, c: ConfigView) -> bool {
    &&& forall|i: int, j: int|
        0 <= i < rows.len() && 0 <= j < rows.len() && i != j ==> rows[i].0@ != rows[j].0@
    &&& forall|i: int|
        0 <= i < rows.len() ==> #[trigger] c.scripts.contains_key(rows[i].0@)
            && c.scripts[rows[i].0@].command == rows[i].1@
    &&& forall|k: Seq<char>|
        #[trigger] c.scripts.contains_key(k) ==> exists|i: int| 0 <= i < rows.len() && rows[i].0@ == k
}

/// The scripts of a configuration file, keyed by name, and the file's path.
#[derive(Debug)]
pub struct Config {
    scripts: Vec<(String, Script)>,
    path: String,
}

impl View for Config {
    type V = ConfigView;

    closed spec fn view(&self) -> ConfigView {
        ConfigView { scripts: scripts_of(self.scripts@), path: self.path@ }
    }
}

proof fn lemma_keys_drop_last(s: Seq<(String, Script)>)
    requires
        s.len() > 0,
    ensures
        keys_of(s.drop_last()) == keys_of(s).drop_last(),
        keys_of(s).no_duplicates() ==> keys_of(s.drop_last()).no_duplicates(),
{
    assert(keys_of(s.drop_last()) =~= keys_of(s).drop_last());
}

proof fn lemma_scripts_of_contains(s: Seq<(String, Script)>, k: Seq<char>)
    ensures
        scripts_of(s).contains_key(k) <==> keys_of(s).contains(k),
    decreases s.len(),
{
    if s.len() > 0 {
        let t = s.drop_last();
        lemma_keys_drop_last(s);
        lemma_scripts_of_contains(t, k);
        if keys_of(s).contains(k) {
            let i = choose|i: int| 0 <= i < keys_of(s).len() && keys_of(s)[i] == k;
            if i < s.len() - 1 {
                assert(keys_of(t)[i] == k);
            }
        }
        if keys_of(t).contains(k) {
            let i = choose|i: int| 0 <= i < keys_of(t).len() && keys_of(t)[i] == k;
            assert(keys_of(s)[i] == k);
        }
        assert(keys_of(s)[s.len() - 1] == s.last().0@);
    }
}

proof fn lemma_scripts_of_at(s: Seq<(String, Script)>, i: int)
    requires
        keys_of(s).no_duplicates(),
        0 <= i < s.len(),
    ensures
        scripts_of(s).contains_key(s[i].0@),
        scripts_of(s)[s[i].0@] == s[i].1@,
    decreases s.len(),
{
    if i < s.len() - 1 {
        let t = s.drop_last();
        lemma_keys_drop_last(s);
        lemma_scripts_of_at(t, i);
        assert(keys_of(s)[i] != keys_of(s)[s.len() - 1]);
    }
}

proof fn lemma_scripts_of_push(s: Seq<(String, Script)>, e: (String, Script))
    ensures
        scripts_of(s.push(e)) == scripts_of(s).insert(e.0@, e.1@),
        keys_of(s.push(e)) == keys_of(s).push(e.0@),
        keys_of(s).no_duplicates() && !keys_of(s).contains(e.0@) ==> keys_of(
            s.push(e),
        ).no_duplicates(),
{
    assert(s.push(e).drop_last() =~= s);
    assert(keys_of(s.push(e)) =~= keys_of(s).push(e.0@));
    if keys_of(s).no_duplicates() && !keys_of(s).contains(e.0@) {
        let ks = keys_of(s.push(e));
        assert forall|a: int, b: int| 0 <= a < ks.len() && 0 <= b < ks.len() && a != b implies ks[a]
            != ks[b] by {
            if a == s.len() {
                assert(keys_of(s)[b] == ks[b]);
            } else if b == s.len() {
                assert(keys_of(s)[a] == ks[a]);
            }
        }
    }
}

proof fn lemma_scripts_of_remove(s: Seq<(String, Script)>, i: int)
    requires
        keys_of(s).no_duplicates(),
        0 <= i < s.len(),
    ensures
        scripts_of(s.remove(i)) == scripts_of(s).remove(s[i].0@),
        keys_of(s.remove(i)) == keys_of(s).remove(i),
        keys_of(s.remove(i)).no_duplicates(),
    decreases s.len(),
{
    let k = s[i].0@;
    let t = s.drop_last();
    lemma_keys_drop_last(s);
    assert(keys_of(s.remove(i)) =~= keys_of(s).remove(i));
    let ks = keys_of(s);
    let kr = keys_of(s.remove(i));
    assert forall|a: int, b: int| 0 <= a < kr.len() && 0 <= b < kr.len() && a != b implies kr[a]
        != kr[b] by {
        let a2 = if a < i { a } else { a + 1 };
        let b2 = if b < i { b } else { b + 1 };
        assert(kr[a] == ks[a2]);
        assert(kr[b] == ks[b2]);
    }
    if i == s.len() - 1 {
        assert(s.remove(i) =~= t);
        lemma_scripts_of_contains(t, k);
        assert(!keys_of(t).contains(k)) by {
            if keys_of(t).contains(k) {
                let j = choose|j: int| 0 <= j < keys_of(t).len() && keys_of(t)[j] == k;
                assert(ks[j] == ks[i]);
            }
        }
        assert(scripts_of(s.remove(i)) =~= scripts_of(s).remove(k));
    } else {
        lemma_scripts_of_remove(t, i);
        assert(s.remove(i).drop_last() =~= t.remove(i));
        assert(s.remove(i).last() == s.last());
        assert(ks[i] != ks[s.len() - 1]);
        assert(scripts_of(s.remove(i)) =~= scripts_of(s).remove(k));
    }
}

impl Config {
    /// The entries are keyed by distinct names.
    pub closed spec fn inv(&self) -> bool {
        keys_of(self.scripts@).no_duplicates()
    }

    /// Where the key `alias` stands among the entries.
    fn find_index(&self, alias: &str) -> (res: Option<usize>)
        requires
            self.inv(),
        ensures
            match res {
                Some(i) => i < self.scripts@.len() && self.scripts@[i as int].0@ == alias@,
                None => !keys_of(self.scripts@).contains(alias@),
            },
    {
        let key = alias.to_owned();
        let mut i: usize = 0;
        while i < self.scripts.len()
            invariant
                i <= self.scripts@.len(),
                key@ == alias@,
                forall|j: int| 0 <= j < i ==> self.scripts@[j].0@ != alias@,
            decreases self.scripts@.len() - i,
        {
            if self.scripts[i].0 == key {
                return Some(i);
            }
            i += 1;
        }
        proof {
            if keys_of(self.scripts@).contains(alias@) {
                let j = choose|j: int|
                    0 <= j < keys_of(self.scripts@).len() && keys_of(self.scripts@)[j] == alias@;
                assert(self.scripts@[j].0@ == alias@);
            }
        }
        None
    }

    /// A configuration for the file at `path`, with no scripts.
    pub fn new(path: &str) -> (res: Config)
        ensures
            res.inv(),
            res@ == ConfigView::empty(path@),
            res@.path == path@,
            res@.scripts == Map::<Seq<char>, ScriptView>::empty(),
    {
        let res = Config { scripts: Vec::new(), path: path.to_owned() };
        assert(res@.scripts =~= Map::empty());
        res
    }

    /// A fresh configuration for the file at `path`; writing it out is the caller's part.
    pub fn new_config(path: &str) -> (res: Result<Config, PierError>)
        ensures
            res matches Ok(c) && c.inv() && c@ == ConfigView::empty(path@) && c@.path == path@
                && c@.scripts == Map::<Seq<char>, ScriptView>::empty(),
    {
        Ok(Config::new(path))
    }

    /// A configuration for the file at `path` holding `entries`, each script
    /// under its key; of two entries with one key the later one stays.
    pub fn from_entries(path: &str, entries: Vec<(String, Script)>) -> (res: Config)
        ensures
            res.inv(),
            res@ == (ConfigView { scripts: scripts_of(entries@), path: path@ }),
    {
        let mut res = Config::new(path);
        let mut rest = entries;
        let ghost all = entries@;
        let ghost mut n: int = 0;
        while rest.len() > 0
            invariant
                0 <= n <= all.len(),
                rest@ == all.skip(n),
                res.inv(),
                res@ == (ConfigView { scripts: scripts_of(all.take(n)), path: path@ }),
            decreases rest@.len(),
        {
            let e = rest.remove(0);
            assert(e == all[n]);
            proof {
                assert(all.take(n + 1).drop_last() =~= all.take(n));
                assert(all.take(n + 1).last() == all[n]);
                assert(rest@ =~= all.skip(n + 1));
            }
            res.store(e);
            proof {
                n = n + 1;
            }
        }
        assert(all.take(n) =~= all);
        res
    }

    /// Stores `e.1` under the key `e.0`, in place of what was there.
    fn store(&mut self, e: (String, Script))
        requires
            old(self).inv(),
        ensures
            final(self).inv(),
            final(self)@ == (ConfigView {
                scripts: old(self)@.scripts.insert(e.0@, e.1@),
                path: old(self)@.path,
            }),
    {
        match self.find_index(e.0.as_str()) {
            Some(i) => {
                proof {
                    lemma_scripts_of_remove(self.scripts@, i as int);
                }
                let _ = self.scripts.remove(i);
                proof {
                    lemma_scripts_of_contains(self.scripts@, e.0@);
                    lemma_scripts_of_push(self.scripts@, e);
                    assert(!keys_of(self.scripts@).contains(e.0@));
                }
                self.scripts.push(e);
                assert(self@.scripts =~= old(self)@.scripts.insert(e.0@, e.1@));
            },
            None => {
                proof {
                    lemma_scripts_of_push(self.scripts@, e);
                }
                self.scripts.push(e);
            },
        }
    }

    /// The script stored under `alias`.
    pub fn fetch_script(&self, alias: &str) -> (res: Result<&Script, PierError>)
        requires
            self.inv(),
        ensures
            match res {
                Ok(s) => self@.fetch_script(alias@) == Some(s@),
                Err(e) => self@.fetch_script(alias@) is None && e.is_alias_not_found(alias@),
            },
            self@.scripts.contains_key(alias@) ==> (res matches Ok(s) && s@ == self@.scripts[alias@]),
            !self@.scripts.contains_key(alias@) ==> res is Err,
    {
        match self.find_index(alias) {
            Some(i) => {
                proof {
                    lemma_scripts_of_at(self.scripts@, i as int);
                }
                Ok(&self.scripts[i].1)
            },
            None => {
                proof {
                    lemma_scripts_of_contains(self.scripts@, alias@);
                }
                Err(PierError::alias_not_found(alias))
            },
        }
    }

    /// Stores `script` under its alias; a script already stored there stays as it is.
    pub fn add_script(&mut self, script: Script) -> (res: Result<(), PierError>)
        requires
            old(self).inv(),
        ensures
            final(self).inv(),
            final(self)@ == old(self)@.add_script(script@),
            res is Ok,
    {
        match self.find_index(script.alias.as_str()) {
            Some(i) => {
                proof {
                    lemma_scripts_of_at(self.scripts@, i as int);
                }
            },
            None => {
                let key = script.alias.clone();
                proof {
                    lemma_scripts_of_contains(self.scripts@, script.alias@);
                    lemma_scripts_of_push(self.scripts@, (key, script));
                }
                self.scripts.push((key, script));
            },
        }
        Ok(())
    }

    /// Drops the script stored under `alias`.
    pub fn remove_script(&mut self, alias: &str) -> (res: Result<(), PierError>)
        requires
            old(self).inv(),
        ensures
            final(self).inv(),
            match old(self)@.remove_script(alias@) {
                Some(c) => final(self)@ == c && res is Ok,
                None => final(self)@ == old(self)@ && (res matches Err(e) && e.is_alias_not_found(
                    alias@,
                )),
            },
            old(self)@.scripts.contains_key(alias@) ==> res is Ok && final(self)@.scripts
                == old(self)@.scripts.remove(alias@) && final(self)@.path == old(self)@.path,
            !old(self)@.scripts.contains_key(alias@) ==> res is Err,
    {
        match self.find_index(alias) {
            Some(i) => {
                proof {
                    lemma_scripts_of_remove(self.scripts@, i as int);
                    lemma_scripts_of_at(self.scripts@, i as int);
                }
                let _ = self.scripts.remove(i);
                Ok(())
            },
            None => {
                proof {
                    lemma_scripts_of_contains(self.scripts@, alias@);
                }
                Err(PierError::alias_not_found(alias))
            },
        }
    }

    /// The rows of the script listing: each key with its script's command,
    /// every stored script once.
    pub fn list_scripts(&self) -> (rows: Vec<(String, String)>)
        requires
            self.inv(),
        ensures
            is_listing(rows@, self@),
    {
        let mut rows: Vec<(String, String)> = Vec::new();
        let mut i: usize = 0;
        while i < self.scripts.len()
            invariant
                i <= self.scripts@.len(),
                rows@.len() == i,
                forall|j: int|
                    0 <= j < i ==> (#[trigger] rows@[j]).0@ == self.scripts@[j].0@ && rows@[j].1@
                        == self.scripts@[j].1.command@,
            decreases self.scripts@.len() - i,
        {
            let row = (self.scripts[i].0.clone(), self.scripts[i].1.command.clone());
            let ghost before = rows@;
            rows.push(row);
            assert forall|j: int| 0 <= j < i + 1 implies (#[trigger] rows@[j]).0@
                == self.scripts@[j].0@ && rows@[j].1@ == self.scripts@[j].1.command@ by {
                if j < i {
                    assert(rows@[j] == before[j]);
                }
            }
            i += 1;
        }
        proof {
            let s = self.scripts@;
            assert forall|a: int, b: int|
                0 <= a < rows@.len() && 0 <= b < rows@.len() && a != b implies rows@[a].0@
                != rows@[b].0@ by {
                assert(keys_of(s)[a] == rows@[a].0@);
                assert(keys_of(s)[b] == rows@[b].0@);
            }
            assert forall|a: int| 0 <= a < rows@.len() implies #[trigger] self@.scripts.contains_key(
                rows@[a].0@,
            ) && self@.scripts[rows@[a].0@].command == rows@[a].1@ by {
                lemma_scripts_of_at(s, a);
            }
            assert forall|k: Seq<char>| #[trigger] self@.scripts.contains_key(k) implies exists|
                a: int,
            | 0 <= a < rows@.len() && rows@[a].0@ == k by {
                lemma_scripts_of_contains(s, k);
                let a = choose|a: int| 0 <= a < keys_of(s).len() && keys_of(s)[a] == k;
                assert(rows@[a].0@ == k);
            }
        }
        rows
    }

    /// Every entry, each script under its key, for writing the configuration out.
    pub fn entries(&self) -> (res: Vec<(String, Script)>)
        requires
            self.inv(),
        ensures
            keys_of(res@).no_duplicates(),
            scripts_of(res@) == self@.scripts,
    {
        let mut res: Vec<(String, Script)> = Vec::new();
        let mut i: usize = 0;
        while i < self.scripts.len()
            invariant
                i <= self.scripts@.len(),
                res@.len() == i,
                forall|j: int|
                    0 <= j < i ==> (#[trigger] res@[j]).0@ == self.scripts@[j].0@ && res@[j].1@
                        == self.scripts@[j].1@,
            decreases self.scripts@.len() - i,
        {
            let e = (self.scripts[i].0.clone(), self.scripts[i].1.duplicate());
            let ghost before = res@;
            res.push(e);
            assert forall|j: int| 0 <= j < i + 1 implies (#[trigger] res@[j]).0@
                == self.scripts@[j].0@ && res@[j].1@ == self.scripts@[j].1@ by {
                if j < i {
                    assert(res@[j] == before[j]);
                }
            }
            i += 1;
        }
        proof {
            lemma_same_scripts(res@, self.scripts@);
        }
        res
    }

    /// The path of the configuration file.
    pub fn path(&self) -> (res: String)
        ensures
            res@ == self@.path,
    {
        self.path.clone()
    }
}

proof fn lemma_same_scripts(a: Seq<(String, Script)>, b: Seq<(String, Script)>)
    requires
        a.len() == b.len(),
        forall|j: int| 0 <= j < a.len() ==> #[trigger] a[j].0@ == b[j].0@ && a[j].1@ == b[j].1@,
    ensures
        keys_of(a) == keys_of(b),
        scripts_of(a) == scripts_of(b),
    decreases a.len(),
{
    assert(keys_of(a) =~= keys_of(b));
    if a.len() > 0 {
        lemma_same_scripts(a.drop_last(), b.drop_last());
    }
}

} // verus!
