//! The username/password store, built from the lines of a credential file.

use vstd::prelude::*;
use crate::codec::copy_range;

verus! {

/// The position of the first `:` in `line`, if any.
pub open spec fn first_colon(line: Seq<u8>) -> Option<int> {
    if exists|i: int| 0 <= i < line.len() && line[i] == 58u8 {
        Some(
            choose|i: int|
                0 <= i < line.len() && line[i] == 58u8 && forall|j: int|
                    0 <= j < i ==> line[j] != 58u8,
        )
    } else {
        None
    }
}

/// The credentials that the lines give: each line with a `:` maps the text
/// before its first `:` to the text after it; a later line wins over an
/// earlier one with the same username; other lines are skipped.
pub open spec fn credentials_of(lines: Seq<Seq<u8>>) -> Map<Seq<u8>, Seq<u8>>
    decreases lines.len(),
{
    if lines.len() == 0 {
        Map::empty()
    } else {
        let rest = credentials_of(lines.drop_last());
        let line = lines.last();
        match first_colon(line) {
            Some(i) => rest.insert(line.subrange(0, i), line.subrange(i + 1, line.len() as int)),
            None => rest,
        }
    }
}

/// The map that a list of pairs gives, a later pair winning.
pub open spec fn map_of_pairs(s: Seq<(Seq<u8>, Seq<u8>)>) -> Map<Seq<u8>, Seq<u8>>
    decreases s.len(),
{
    if s.len() == 0 {
        Map::empty()
    } else {
        map_of_pairs(s.drop_last()).insert(s.last().0, s.last().1)
    }
}

/// Usernames and their passwords, compared byte for byte.
pub struct Credentials {
    entries: Vec<(Vec<u8>, Vec<u8>)>,
}

impl Credentials {
    pub closed spec fn pairs(&self) -> Seq<(Seq<u8>, Seq<u8>)> {
        self.entries@.map_values(|e: (Vec<u8>, Vec<u8>)| (e.0@, e.1@))
    }
}

impl View for Credentials {
    type V = Map<Seq<u8>, Seq<u8>>;

    closed spec fn view(&self) -> Map<Seq<u8>, Seq<u8>> {
        map_of_pairs(self.pairs())
    }
}

proof fn lemma_lookup_suffix(s: Seq<(Seq<u8>, Seq<u8>)>, i: int, k: Seq<u8>)
    requires
        0 <= i <= s.len(),
        forall|j: int| i <= j < s.len() ==> s[j].0 != k,
    ensures
        map_of_pairs(s).contains_key(k) == map_of_pairs(s.subrange(0, i)).contains_key(k),
        map_of_pairs(s)[k] == map_of_pairs(s.subrange(0, i))[k],
    decreases s.len() - i,
{
    if i < s.len() {
        assert(s.drop_last() =~= s.subrange(0, s.len() - 1));
        assert(s.subrange(0, s.len() - 1).subrange(0, i) =~= s.subrange(0, i));
        lemma_lookup_suffix(s.drop_last(), i, k);
    } else {
        assert(s.subrange(0, i) =~= s);
    }
}

/// Where the first `:` of `line` is, if anywhere.
fn find_colon(line: &Vec<u8>) -> (r: Option<usize>)
    ensures
        match r {
            Some(i) => i < line@.len() && line@[i as int] == 58u8 && first_colon(line@) == Some(
                i as int,
            ),
            None => first_colon(line@) == None::<int>,
        },
{
    let mut i: usize = 0;
    while i < line.len()
        invariant
            i <= line@.len(),
            forall|j: int| 0 <= j < i ==> line@[j] != 58u8,
        decreases line.len() - i,
    {
        if line[i] == 58 {
            let ghost c = choose|c: int|
                0 <= c < line@.len() && line@[c] == 58u8 && forall|j: int|
                    0 <= j < c ==> line@[j] != 58u8;
            assert(0 <= i < line@.len() && line@[i as int] == 58u8 && forall|j: int|
                0 <= j < i ==> line@[j] != 58u8);
            proof {
                if c < i {
                } else if c > i {
                    assert(line@[i as int] != 58u8);
                }
            }
            return Some(i);
        }
        i = i + 1;
    }
    None
}

/// The text before and after the first `:` of `line`, if it has one.
fn split_line(line: &Vec<u8>) -> (r: Option<(Vec<u8>, Vec<u8>)>)
    ensures
        match first_colon(line@) {
            Some(i) => r matches Some(p) && p.0@ == line@.subrange(0, i) && p.1@ == line@.subrange(
                i + 1,
                line@.len() as int,
            ),
            None => r is None,
        },
{
    match find_colon(line) {
        Some(c) => {
            let n = line.len();
            Some((copy_range(line.as_slice(), 0, c), copy_range(line.as_slice(), c + 1, n)))
        },
        None => None,
    }
}

fn bytes_equal(a: &Vec<u8>, b: &[u8]) -> (r: bool)
    ensures
        r == (a@ == b@),
{
    if a.len() != b.len() {
        return false;
    }
    let mut i: usize = 0;
    while i < a.len()
        invariant
            a@.len() == b@.len(),
            i <= a@.len(),
            forall|j: int| 0 <= j < i ==> a@[j] == b@[j],
        decreases a.len() - i,
    {
        if a[i] != b[i] {
            return false;
        }
        i = i + 1;
    }
    assert(a@ =~= b@);
    true
}

impl Credentials {
    /// A store with no users.
    pub fn new() -> (r: Credentials)
        ensures
            r@ == Map::<Seq<u8>, Seq<u8>>::empty(),
    {
        Credentials { entries: Vec::new() }
    }

    /// The store that the lines of a credential file describe: each line is
    /// split at its first `:`, lines without one are skipped, nothing is
    /// trimmed, and a later line for a username replaces an earlier one.
    pub fn from_lines(lines: &Vec<Vec<u8>>) -> (r: Credentials)
        ensures
            r@ == credentials_of(lines.deep_view()),
    {
        let mut store = Credentials::new();
        let mut i: usize = 0;
        while i < lines.len()
            invariant
                i <= lines@.len(),
                store@ == credentials_of(lines.deep_view().subrange(0, i as int)),
            decreases lines.len() - i,
        {
            let line = &lines[i];
            assert(lines.deep_view().subrange(0, i + 1).drop_last() =~= lines.deep_view().subrange(
                0,
                i as int,
            ));
            assert(lines.deep_view().subrange(0, i + 1).last() == line@);
            match split_line(line) {
                Some(pair) => {
                    let (name, pass) = pair;
                    store.add(name, pass);
                },
                None => {},
            }
            i = i + 1;
        }
        assert(lines.deep_view().subrange(0, lines@.len() as int) =~= lines.deep_view());
        store
    }

    fn add(&mut self, name: Vec<u8>, pass: Vec<u8>)
        ensures
            final(self)@ == old(self)@.insert(name@, pass@),
    {
        let ghost before = self.pairs();
        self.entries.push((name, pass));
        assert(self.pairs().drop_last() =~= before);
    }

    /// Whether no username is known.
    pub fn is_empty(&self) -> (r: bool)
        ensures
            r == (self@ == Map::<Seq<u8>, Seq<u8>>::empty()),
    {
        let r = self.entries.len() == 0;
        proof {
            let s = self.pairs();
            if s.len() > 0 {
                assert(self@.contains_key(s.last().0));
                assert(!Map::<Seq<u8>, Seq<u8>>::empty().contains_key(s.last().0));
            } else {
                assert(self@ =~= Map::<Seq<u8>, Seq<u8>>::empty());
            }
        }
        r
    }

    /// Whether `username` is known and `password` is exactly its password.
    pub fn check(&self, username: &[u8], password: &[u8]) -> (r: bool)
        ensures
            r == (self@.contains_key(username@) && self@[username@] == password@),
    {
        let ghost s = self.pairs();
        let mut i: usize = self.entries.len();
        while i > 0
            invariant
                i <= self.entries@.len(),
                s == self.pairs(),
                forall|j: int| i <= j < s.len() ==> s[j].0 != username@,
            decreases i,
        {
            let e = &self.entries[i - 1];
            if bytes_equal(&e.0, username) {
                proof {
                    lemma_lookup_suffix(s, i as int, username@);
                    let p = s.subrange(0, i as int);
                    assert(p.drop_last() =~= s.subrange(0, i - 1));
                    assert(p.last() == (e.0@, e.1@));
                }
                return bytes_equal(&e.1, password);
            }
            i = i - 1;
        }
        proof {
            lemma_lookup_suffix(s, 0, username@);
            assert(s.subrange(0, 0) =~= Seq::<(Seq<u8>, Seq<u8>)>::empty());
        }
        false
    }
}

} // verus!
