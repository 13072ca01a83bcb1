//! The persisted accounts: at most one entry per e-mail address.

use vstd::prelude::*;

verus! {

/// One saved account: how to sign in, and the session it last had. The
/// session is carried as the serialized cookie jar; the store never looks
/// inside it.
#[derive(Debug, PartialEq, Eq)]
pub struct UserCredentials {
    pub email: String,
    pub password: String,
    pub cookies: String,
}

/// The view of a `UserCredentials`.
pub struct UserCredentialsView {
    pub email: Seq<char>,
    pub password: Seq<char>,
    pub cookies: Seq<char>,
}

impl UserCredentials {
    pub open spec fn view(&self) -> UserCredentialsView {
        UserCredentialsView { email: self.email@, password: self.password@, cookies: self.cookies@ }
    }
}

impl Clone for UserCredentials {
    fn clone(&self) -> (r: Self)
        ensures
            r == *self,
    {
        UserCredentials {
            email: self.email.clone(),
            password: self.password.clone(),
            cookies: self.cookies.clone(),
        }
    }
}

/// The views of a list of accounts, in order.
pub open spec fn accounts_view(v: Seq<UserCredentials>) -> Seq<UserCredentialsView> {
    v.map_values(|u: UserCredentials| u@)
}

/// No two entries share an e-mail address.
pub open spec fn unique_emails(s: Seq<UserCredentialsView>) -> bool {
    forall|i: int, j: int| 0 <= i < j < s.len() ==> (#[trigger] s[i]).email != (#[trigger] s[j]).email
}

/// Some entry of `s` has the address `email`.
pub open spec fn has_email(s: Seq<UserCredentialsView>, email: Seq<char>) -> bool {
    exists|i: int| 0 <= i < s.len() && (#[trigger] s[i]).email == email
}

/// Where the entry for `email` stands in `s`, if `has_email(s, email)`.
pub open spec fn index_of_email(s: Seq<UserCredentialsView>, email: Seq<char>) -> int {
    choose|i: int| 0 <= i < s.len() && (#[trigger] s[i]).email == email
}

/// `s` after storing `c` under its address: the entry for that address is
/// replaced in place, or `c` is added at the end.
pub open spec fn upserted(s: Seq<UserCredentialsView>, c: UserCredentialsView) -> Seq<
    UserCredentialsView,
> {
    if has_email(s, c.email) {
        s.update(index_of_email(s, c.email), c)
    } else {
        s.push(c)
    }
}

/// `s` without the entry for `email`.
pub open spec fn without_email(s: Seq<UserCredentialsView>, email: Seq<char>) -> Seq<
    UserCredentialsView,
> {
    if has_email(s, email) {
        s.remove(index_of_email(s, email))
    } else {
        s
    }
}

/// The store that results from storing the entries of `s` one after the
/// other, a later entry replacing an earlier one with the same address.
pub open spec fn merged(s: Seq<UserCredentialsView>) -> Seq<UserCredentialsView>
    decreases s.len(),
{
    if s.len() == 0 {
        Seq::empty()
    } else {
        upserted(merged(s.drop_last()), s.last())
    }
}

/// In a list without duplicates, the entry at `i` is the one that
/// `index_of_email` picks for its address.
pub proof fn lemma_index_of_email(s: Seq<UserCredentialsView>, i: int)
    requires
        unique_emails(s),
        0 <= i < s.len(),
    ensures
        has_email(s, s[i].email),
        index_of_email(s, s[i].email) == i,
{
    let k = index_of_email(s, s[i].email);
    assert(0 <= k < s.len() && s[k].email == s[i].email);
    if k < i {
        assert(s[k].email != s[i].email);
    } else if i < k {
        assert(s[i].email != s[k].email);
    }
}

/// Storing an entry keeps the addresses distinct, and the entry can be
/// found afterwards.
pub proof fn lemma_upserted(s: Seq<UserCredentialsView>, c: UserCredentialsView)
    requires
        unique_emails(s),
    ensures
        unique_emails(upserted(s, c)),
        has_email(upserted(s, c), c.email),
        upserted(s, c)[index_of_email(upserted(s, c), c.email)] == c,
        forall|e: Seq<char>| e != c.email ==> (has_email(upserted(s, c), e) <==> has_email(s, e)),
{
    let t = upserted(s, c);
    if has_email(s, c.email) {
        let k = index_of_email(s, c.email);
        assert(t[k] == c);
        assert forall|e: Seq<char>| e != c.email implies (has_email(t, e) <==> has_email(s, e)) by {
            if has_email(s, e) {
                let i = index_of_email(s, e);
                assert(t[i].email == e);
            }
            if has_email(t, e) {
                let i = index_of_email(t, e);
                assert(s[i].email == e);
            }
        }
    } else {
        assert(t[s.len() as int] == c);
        assert forall|e: Seq<char>| e != c.email implies (has_email(t, e) <==> has_email(s, e)) by {
            if has_email(s, e) {
                let i = index_of_email(s, e);
                assert(t[i].email == e);
            }
            if has_email(t, e) {
                let i = index_of_email(t, e);
                assert(s[i].email == e);
            }
        }
    }
    assert(unique_emails(t));
    let j = index_of_email(t, c.email);
    assert(0 <= j < t.len() && t[j].email == c.email);
    if has_email(s, c.email) {
        lemma_index_of_email(t, index_of_email(s, c.email));
    } else {
        lemma_index_of_email(t, s.len() as int);
    }
}

/// Removing an address keeps the others distinct and in order, and the
/// address cannot be found afterwards.
pub proof fn lemma_without_email(s: Seq<UserCredentialsView>, email: Seq<char>)
    requires
        unique_emails(s),
    ensures
        unique_emails(without_email(s, email)),
        !has_email(without_email(s, email), email),
        forall|e: Seq<char>| e != email ==> (has_email(without_email(s, email), e) <==> has_email(s, e)),
{
    let t = without_email(s, email);
    if has_email(s, email) {
        let k = index_of_email(s, email);
        assert forall|i: int| 0 <= i < t.len() implies (#[trigger] t[i]).email != email by {
            if i < k {
                assert(t[i] == s[i]);
                assert(s[i].email != s[k].email);
            } else {
                assert(t[i] == s[i + 1]);
                assert(s[k].email != s[i + 1].email);
            }
        }
        assert forall|i: int, j: int| 0 <= i < j < t.len() implies (#[trigger] t[i]).email != (
        #[trigger] t[j]).email by {
            let si = if i < k { i } else { i + 1 };
            let sj = if j < k { j } else { j + 1 };
            assert(t[i] == s[si] && t[j] == s[sj]);
            assert(s[si].email != s[sj].email);
        }
        assert forall|e: Seq<char>| e != email implies (has_email(t, e) <==> has_email(s, e)) by {
            if has_email(s, e) {
                let i = index_of_email(s, e);
                let ti = if i < k { i } else { i - 1 };
                assert(t[ti] == s[i]);
            }
            if has_email(t, e) {
                let i = index_of_email(t, e);
                let si = if i < k { i } else { i + 1 };
                assert(t[i] == s[si]);
            }
        }
    }
}

/// Every store built by `merged` has distinct addresses.
pub proof fn lemma_merged_unique(s: Seq<UserCredentialsView>)
    ensures
        unique_emails(merged(s)),
    decreases s.len(),
{
    if s.len() > 0 {
        lemma_merged_unique(s.drop_last());
        lemma_upserted(merged(s.drop_last()), s.last());
    }
}

/// The accounts that the application knows, keyed by e-mail address.
#[derive(Debug, PartialEq, Eq)]
pub struct Config {
    users: Vec<UserCredentials>,
}

impl Config {
    #[verifier::type_invariant]
    spec fn distinct(&self) -> bool {
        unique_emails(accounts_view(self.users@))
    }

    /// The saved accounts, in the order in which their addresses were first
    /// stored.
    pub closed spec fn view(&self) -> Seq<UserCredentialsView> {
        accounts_view(self.users@)
    }

    /// An empty store.
    pub fn new() -> (r: Config)
        ensures
            r@ == Seq::<UserCredentialsView>::empty(),
    {
        let r = Config { users: Vec::new() };
        assert(accounts_view(r.users@) =~= Seq::<UserCredentialsView>::empty());
        r
    }

    /// The store that holds `accounts`; of two entries with the same
    /// address the later one wins.
    pub fn from_accounts(accounts: Vec<UserCredentials>) -> (r: Config)
        ensures
            r@ == merged(accounts_view(accounts@)),
    {
        let mut r = Config::new();
        let mut i: usize = 0;
        while i < accounts.len()
            invariant
                0 <= i <= accounts.len(),
                r@ == merged(accounts_view(accounts@).subrange(0, i as int)),
            decreases accounts.len() - i,
        {
            let ghost before = accounts_view(accounts@).subrange(0, i as int);
            let ghost after = accounts_view(accounts@).subrange(0, i + 1);
            r.insert(accounts[i].clone());
            assert(after.drop_last() =~= before);
            assert(after.last() == accounts@[i as int]@);
            i = i + 1;
        }
        assert(accounts_view(accounts@).subrange(0, i as int) =~= accounts_view(accounts@));
        r
    }

    /// The number of saved accounts.
    pub fn len(&self) -> (r: usize)
        ensures
            r == self@.len(),
    {
        self.users.len()
    }

    /// Whether no account is saved.
    pub fn is_empty(&self) -> (r: bool)
        ensures
            r == (self@.len() == 0),
    {
        self.users.len() == 0
    }

    /// A copy of the saved accounts.
    pub fn accounts(&self) -> (r: Vec<UserCredentials>)
        ensures
            accounts_view(r@) == self@,
            unique_emails(self@),
    {
        proof {
            use_type_invariant(self);
        }
        let r = self.users.clone();
        assert(r@ =~= self.users@);
        r
    }

    /// Where the entry for `email` stands, if there is one.
    pub fn find(&self, email: &String) -> (r: Option<usize>)
        ensures
            r.is_some() == has_email(self@, email@),
            r.is_some() ==> r.unwrap() == index_of_email(self@, email@),
            unique_emails(self@),
    {
        proof {
            use_type_invariant(self);
        }
        let mut i: usize = 0;
        while i < self.users.len()
            invariant
                0 <= i <= self.users.len(),
                unique_emails(accounts_view(self.users@)),
                forall|j: int| 0 <= j < i ==> (#[trigger] accounts_view(self.users@)[j]).email != email@,
            decreases self.users.len() - i,
        {
            if self.users[i].email == *email {
                proof {
                    assert(accounts_view(self.users@)[i as int].email == email@);
                    lemma_index_of_email(accounts_view(self.users@), i as int);
                }
                return Some(i);
            }
            i = i + 1;
        }
        None
    }

    /// Whether an account with this address is saved.
    pub fn contains(&self, email: &String) -> (r: bool)
        ensures
            r == has_email(self@, email@),
    {
        self.find(email).is_some()
    }

    /// A copy of the entry for `email`.
    pub fn get(&self, email: &String) -> (r: Option<UserCredentials>)
        ensures
            r.is_some() == has_email(self@, email@),
            r.is_some() ==> r.unwrap()@ == self@[index_of_email(self@, email@)],
    {
        match self.find(email) {
            Some(i) => Some(self.users[i].clone()),
            None => None,
        }
    }

    /// Stores `creds` under its address, replacing the entry that is there.
    pub fn insert(&mut self, creds: UserCredentials)
        ensures
            final(self)@ == upserted(old(self)@, creds@),
            unique_emails(final(self)@),
    {
        let ghost before = accounts_view(self.users@);
        proof {
            use_type_invariant(&*self);
            lemma_upserted(before, creds@);
        }
        let found = self.find(&creds.email);
        let mut users = Vec::new();
        std::mem::swap(&mut self.users, &mut users);
        match found {
            Some(i) => {
                users.set(i, creds);
            },
            None => {
                users.push(creds);
            },
        }
        assert(accounts_view(users@) =~= upserted(before, creds@));
        self.users = users;
    }

    /// Drops the entry for `email`; says whether there was one.
    pub fn remove(&mut self, email: &String) -> (r: bool)
        ensures
            final(self)@ == without_email(old(self)@, email@),
            r == has_email(old(self)@, email@),
            unique_emails(final(self)@),
            !has_email(final(self)@, email@),
    {
        let ghost before = accounts_view(self.users@);
        proof {
            use_type_invariant(&*self);
            lemma_without_email(before, email@);
        }
        let found = self.find(email);
        let mut users = Vec::new();
        std::mem::swap(&mut self.users, &mut users);
        let removed = match found {
            Some(i) => {
                let _ = users.remove(i);
                true
            },
            None => false,
        };
        assert(accounts_view(users@) =~= without_email(before, email@));
        self.users = users;
        removed
    }
}

impl Default for Config {
    fn default() -> (r: Self)
        ensures
            r@ == Seq::<UserCredentialsView>::empty(),
    {
        Config::new()
    }
}

impl Clone for Config {
    fn clone(&self) -> (r: Self)
        ensures
            r@ == self@,
    {
        proof {
            use_type_invariant(self);
        }
        let users = self.users.clone();
        assert(users@ =~= self.users@);
        Config { users }
    }
}

} // verus!
