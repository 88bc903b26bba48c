//! Which keystore accounts are exported to which environment variables.
use vstd::prelude::*;
use crate::path::{split_chars, split_on, views};

verus! {

/// What `str::trim` returns for a string.
pub uninterp spec fn trim_of(s: Seq<char>) -> Seq<char>;

/// What `str::to_uppercase` returns for a string.
pub uninterp spec fn upper_of(s: Seq<char>) -> Seq<char>;

/// Relies on `str::trim`: the string without leading and trailing whitespace,
/// which depends on the characters alone.
#[verifier::external_body]
fn trim_str(s: &str) -> (r: &str)
    ensures
        r@ == trim_of(s@),
{
    s.trim()
}

/// Relies on `str::to_uppercase`: the upper-case form of the string, which
/// depends on the characters alone.
#[verifier::external_body]
fn uppercase(s: &str) -> (r: String)
    ensures
        r@ == upper_of(s@),
{
    s.to_uppercase()
}

/// A map from keystore account names to environment variable names.
pub struct SecretMappings {
    entries: Vec<(String, String)>,
    model: Ghost<Map<Seq<char>, Seq<char>>>,
}

impl View for SecretMappings {
    type V = Map<Seq<char>, Seq<char>>;

    closed spec fn view(&self) -> Map<Seq<char>, Seq<char>> {
        self.model@
    }
}

impl SecretMappings {
    /// Every account appears once, and the entries are exactly the map.
    pub closed spec fn wf(&self) -> bool {
        let e = self.entries@;
        let m = self.model@;
        &&& m.dom().finite()
        &&& m.dom().len() == e.len()
        &&& forall|i: int, j: int| 0 <= i < j < e.len() ==> #[trigger] e[i].0@ != #[trigger] e[j].0@
        &&& forall|i: int|
            0 <= i < e.len() ==> m.contains_key(#[trigger] e[i].0@) && m[e[i].0@] == e[i].1@
        &&& forall|k: Seq<char>| #[trigger]
            m.contains_key(k) ==> exists|i: int| 0 <= i < e.len() && #[trigger] e[i].0@ == k
    }

    /// An empty map.
    pub fn new() -> (r: SecretMappings)
        ensures
            r.wf(),
            r@ == Map::<Seq<char>, Seq<char>>::empty(),
    {
        SecretMappings { entries: Vec::new(), model: Ghost(Map::empty()) }
    }

    fn find(&self, key: &str) -> (r: Option<usize>)
        requires
            self.wf(),
        ensures
            match r {
                Some(i) => i < self.entries@.len() && self.entries@[i as int].0@ == key@,
                None => !self@.contains_key(key@),
            },
    {
        let k = String::from_str(key);
        let mut i: usize = 0;
        while i < self.entries.len()
            invariant
                i <= self.entries@.len(),
                k@ == key@,
                forall|j: int| 0 <= j < i ==> self.entries@[j].0@ != key@,
            decreases self.entries@.len() - i,
        {
            if self.entries[i].0 == k {
                return Some(i);
            }
            i = i + 1;
        }
        None
    }

    /// Maps `account` to `env_var`, replacing any earlier variable for it.
    pub fn insert(&mut self, account: String, env_var: String)
        requires
            old(self).wf(),
        ensures
            final(self).wf(),
            final(self)@ == old(self)@.insert(account@, env_var@),
    {
        let ghost m0 = self.model@;
        let ghost k = account@;
        let ghost v = env_var@;
        match self.find(account.as_str()) {
            Some(j) => {
                self.entries.set(j, (account, env_var));
                self.model = Ghost(m0.insert(k, v));
                assert(m0.dom().insert(k) =~= m0.dom());
                assert forall|key: Seq<char>| #[trigger] self.model@.contains_key(key) implies exists|
                    i: int,
                | 0 <= i < self.entries@.len() && #[trigger] self.entries@[i].0@ == key by {
                    if key == k {
                        assert(self.entries@[j as int].0@ == key);
                    } else {
                        assert(m0.contains_key(key));
                        let i = choose|i: int|
                            0 <= i < self.entries@.len() && #[trigger] old(self).entries@[i].0@ == key;
                        assert(self.entries@[i].0@ == key);
                    }
                }
            },
            None => {
                let ghost n = self.entries@.len();
                self.entries.push((account, env_var));
                self.model = Ghost(m0.insert(k, v));
                assert forall|key: Seq<char>| #[trigger] self.model@.contains_key(key) implies exists|
                    i: int,
                | 0 <= i < self.entries@.len() && #[trigger] self.entries@[i].0@ == key by {
                    if key == k {
                        assert(self.entries@[n as int].0@ == key);
                    } else {
                        assert(m0.contains_key(key));
                        let i = choose|i: int| 0 <= i < n && #[trigger] old(self).entries@[i].0@ == key;
                        assert(self.entries@[i].0@ == key);
                    }
                }
            },
        }
    }

    /// The environment variable for `account`, if it has one.
    pub fn get(&self, account: &str) -> (r: Option<&String>)
        requires
            self.wf(),
        ensures
            match r {
                Some(v) => self@.contains_key(account@) && v@ == self@[account@],
                None => !self@.contains_key(account@),
            },
    {
        match self.find(account) {
            Some(i) => Some(&self.entries[i].1),
            None => None,
        }
    }

    /// Whether `account` has an environment variable.
    pub fn contains_key(&self, account: &str) -> (r: bool)
        requires
            self.wf(),
        ensures
            r == self@.contains_key(account@),
    {
        self.find(account).is_some()
    }

    fn copy_entries(&self) -> (r: Vec<(String, String)>)
        ensures
            r@ == self.entries@,
    {
        let mut out: Vec<(String, String)> = Vec::new();
        let mut i: usize = 0;
        while i < self.entries.len()
            invariant
                i <= self.entries@.len(),
                out@ == self.entries@.take(i as int),
            decreases self.entries@.len() - i,
        {
            let e = &self.entries[i];
            out.push((e.0.clone(), e.1.clone()));
            assert(out@ =~= self.entries@.take(i + 1));
            i = i + 1;
        }
        assert(self.entries@.take(i as int) =~= self.entries@);
        out
    }

    /// A copy of these mappings.
    pub fn duplicate(&self) -> (r: SecretMappings)
        requires
            self.wf(),
        ensures
            r.wf(),
            r@ == self@,
    {
        SecretMappings { entries: self.copy_entries(), model: Ghost(self.model@) }
    }

    /// Every pair of account and variable, each account once.
    pub fn to_pairs(&self) -> (r: Vec<(String, String)>)
        requires
            self.wf(),
        ensures
            r@.len() == self@.len(),
            forall|i: int|
                0 <= i < r@.len() ==> self@.contains_key(#[trigger] r@[i].0@) && self@[r@[i].0@]
                    == r@[i].1@,
            forall|i: int, j: int| 0 <= i < j < r@.len() ==> #[trigger] r@[i].0@ != #[trigger] r@[j].0@,
    {
        self.copy_entries()
    }

    /// The number of accounts.
    pub fn len(&self) -> (r: usize)
        requires
            self.wf(),
        ensures
            r == self@.len(),
    {
        self.entries.len()
    }

    /// Whether no account is mapped.
    pub fn is_empty(&self) -> (r: bool)
        requires
            self.wf(),
        ensures
            r == (self@.len() == 0),
    {
        self.entries.len() == 0
    }
}

/// The mappings `m` updated with the accounts named in `pieces`, in order: each
/// piece is trimmed, an empty one is skipped, and any other maps to its upper
/// case, replacing an earlier variable for that account.
pub open spec fn with_cli_accounts(
    m: Map<Seq<char>, Seq<char>>,
    pieces: Seq<Seq<char>>,
) -> Map<Seq<char>, Seq<char>>
    decreases pieces.len(),
{
    if pieces.len() == 0 {
        m
    } else {
        let prev = with_cli_accounts(m, pieces.drop_last());
        let account = trim_of(pieces.last());
        if account.len() == 0 {
            prev
        } else {
            prev.insert(account, upper_of(account))
        }
    }
}

/// Builds the account-to-variable mappings from the profile's mappings and the
/// comma-separated account names given on the command line, if any. Each named
/// account is exported under its own name in upper case, overriding the
/// profile's variable for the same account.
pub fn build_secret_mappings(cli_secrets: Option<&str>, profile_secrets: &SecretMappings) -> (r:
    SecretMappings)
    requires
        profile_secrets.wf(),
    ensures
        r.wf(),
        r@ == match cli_secrets {
            Some(arg) => with_cli_accounts(profile_secrets@, split_on(arg@, ',')),
            None => profile_secrets@,
        },
{
    let mut mappings = profile_secrets.duplicate();
    if let Some(arg) = cli_secrets {
        let pieces = split_chars(arg, ',');
        let ghost pv = views(pieces@);
        let mut i: usize = 0;
        assert(pv.take(0) =~= Seq::<Seq<char>>::empty());
        while i < pieces.len()
            invariant
                pv == views(pieces@),
                pv == split_on(arg@, ','),
                i <= pieces@.len(),
                mappings.wf(),
                mappings@ == with_cli_accounts(profile_secrets@, pv.take(i as int)),
            decreases pieces@.len() - i,
        {
            let account = trim_str(pieces[i].as_str());
            assert(pv.take(i + 1).drop_last() =~= pv.take(i as int));
            assert(pv.take(i + 1).last() == pieces@[i as int]@);
            if !account.is_empty() {
                let env_var = uppercase(account);
                mappings.insert(String::from_str(account), env_var);
            }
            i = i + 1;
        }
        assert(pv.take(pieces@.len() as int) =~= pv);
    }
    mappings
}

} // verus!
