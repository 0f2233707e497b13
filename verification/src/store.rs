//! The durable store, modelled as two key-value tables: credential records
//! keyed by user, and access-token records keyed by `(user, device)`. Each
//! table holds at most one record per key; a put replaces the record
//! wholesale.

use vstd::prelude::*;
use crate::token::{AccessToken, AuthType};

verus! {

/// Spec-level image of one access-token record.
pub struct TokenView {
    pub token: Seq<char>,
    pub created: int,
    pub auth_type: AuthType,
    pub valid: bool,
}

/// The spec-level image of an executable record.
pub open spec fn token_view(t: AccessToken) -> TokenView {
    TokenView {
        token: t.token@,
        created: t.created as int,
        auth_type: t.auth_type,
        valid: t.valid,
    }
}

/// The map a registration table denotes: later entries shadow earlier ones,
/// though a well-formed table never holds a key twice.
pub open spec fn regs_map(s: Seq<(String, Vec<u8>)>) -> Map<Seq<char>, Seq<u8>>
    decreases s.len(),
{
    if s.len() == 0 {
        Map::empty()
    } else {
        regs_map(s.drop_last()).insert(s.last().0@, s.last().1@)
    }
}

/// The map a token table denotes.
pub open spec fn tokens_map(s: Seq<AccessToken>) -> Map<(Seq<char>, Seq<char>), TokenView>
    decreases s.len(),
{
    if s.len() == 0 {
        Map::empty()
    } else {
        tokens_map(s.drop_last()).insert(
            (s.last().user_id@, s.last().device_id@),
            token_view(s.last()),
        )
    }
}

/// No registration key occurs twice.
pub open spec fn unique_reg_keys(s: Seq<(String, Vec<u8>)>) -> bool {
    forall|i: int, j: int| 0 <= i < j < s.len() ==> s[i].0@ != s[j].0@
}

/// No `(user, device)` pair occurs twice.
pub open spec fn unique_token_keys(s: Seq<AccessToken>) -> bool {
    forall|i: int, j: int|
        0 <= i < j < s.len() ==> (s[i].user_id@, s[i].device_id@) != (
        s[j].user_id@,
        s[j].device_id@,
        )
}

/// The in-memory store backing both tables.
pub struct IdentityStore {
    registrations: Vec<(String, Vec<u8>)>,
    tokens: Vec<AccessToken>,
}

proof fn lemma_regs_map_contains(s: Seq<(String, Vec<u8>)>, k: Seq<char>)
    ensures
        regs_map(s).contains_key(k) <==> exists|i: int| 0 <= i < s.len() && s[i].0@ == k,
    decreases s.len(),
{
    if s.len() > 0 {
        let prefix = s.drop_last();
        lemma_regs_map_contains(prefix, k);
        if s.last().0@ == k {
            assert(s[s.len() - 1].0@ == k);
        } else {
            if regs_map(prefix).contains_key(k) {
                let i = choose|i: int| 0 <= i < prefix.len() && prefix[i].0@ == k;
                assert(s[i].0@ == k);
            }
            if exists|i: int| 0 <= i < s.len() && s[i].0@ == k {
                let i = choose|i: int| 0 <= i < s.len() && s[i].0@ == k;
                assert(prefix[i].0@ == k);
            }
        }
    }
}

proof fn lemma_regs_map_value(s: Seq<(String, Vec<u8>)>, i: int)
    requires
        unique_reg_keys(s),
        0 <= i < s.len(),
    ensures
        regs_map(s).contains_key(s[i].0@),
        regs_map(s)[s[i].0@] == s[i].1@,
    decreases s.len(),
{
    if i < s.len() - 1 {
        lemma_regs_map_value(s.drop_last(), i);
        assert(s.drop_last()[i].0@ == s[i].0@);
        assert(s.last().0@ != s[i].0@);
    }
}

proof fn lemma_regs_map_update(s: Seq<(String, Vec<u8>)>, i: int, v: (String, Vec<u8>))
    requires
        unique_reg_keys(s),
        0 <= i < s.len(),
        v.0@ == s[i].0@,
    ensures
        regs_map(s.update(i, v)) =~= regs_map(s).insert(v.0@, v.1@),
    decreases s.len(),
{
    let s2 = s.update(i, v);
    if i == s.len() - 1 {
        assert(s2.drop_last() =~= s.drop_last());
    } else {
        lemma_regs_map_update(s.drop_last(), i, v);
        assert(s2.drop_last() =~= s.drop_last().update(i, v));
        assert(s.last().0@ != s[i].0@);
        assert(s2.last() == s.last());
    }
}

proof fn lemma_tokens_map_contains(s: Seq<AccessToken>, k: (Seq<char>, Seq<char>))
    ensures
        tokens_map(s).contains_key(k) <==> exists|i: int|
            0 <= i < s.len() && (s[i].user_id@, s[i].device_id@) == k,
    decreases s.len(),
{
    if s.len() > 0 {
        let prefix = s.drop_last();
        lemma_tokens_map_contains(prefix, k);
        if (s.last().user_id@, s.last().device_id@) == k {
            assert((s[s.len() - 1].user_id@, s[s.len() - 1].device_id@) == k);
        } else {
            if tokens_map(prefix).contains_key(k) {
                let i = choose|i: int|
                    0 <= i < prefix.len() && (prefix[i].user_id@, prefix[i].device_id@) == k;
                assert((s[i].user_id@, s[i].device_id@) == k);
            }
            if exists|i: int| 0 <= i < s.len() && (s[i].user_id@, s[i].device_id@) == k {
                let i = choose|i: int|
                    0 <= i < s.len() && (s[i].user_id@, s[i].device_id@) == k;
                assert((prefix[i].user_id@, prefix[i].device_id@) == k);
            }
        }
    }
}

proof fn lemma_tokens_map_value(s: Seq<AccessToken>, i: int)
    requires
        unique_token_keys(s),
        0 <= i < s.len(),
    ensures
        tokens_map(s).contains_key((s[i].user_id@, s[i].device_id@)),
        tokens_map(s)[(s[i].user_id@, s[i].device_id@)] == token_view(s[i]),
    decreases s.len(),
{
    if i < s.len() - 1 {
        lemma_tokens_map_value(s.drop_last(), i);
        assert(s.drop_last()[i] == s[i]);
        assert((s.last().user_id@, s.last().device_id@) != (s[i].user_id@, s[i].device_id@));
    }
}

proof fn lemma_tokens_map_update(s: Seq<AccessToken>, i: int, v: AccessToken)
    requires
        unique_token_keys(s),
        0 <= i < s.len(),
        (v.user_id@, v.device_id@) == (s[i].user_id@, s[i].device_id@),
    ensures
        tokens_map(s.update(i, v)) =~= tokens_map(s).insert(
            (v.user_id@, v.device_id@),
            token_view(v),
        ),
    decreases s.len(),
{
    let s2 = s.update(i, v);
    if i == s.len() - 1 {
        assert(s2.drop_last() =~= s.drop_last());
    } else {
        lemma_tokens_map_update(s.drop_last(), i, v);
        assert(s2.drop_last() =~= s.drop_last().update(i, v));
        assert((s.last().user_id@, s.last().device_id@) != (s[i].user_id@, s[i].device_id@));
        assert(s2.last() == s.last());
    }
}

impl IdentityStore {
    /// The registration table as a map from user id to credential record.
    pub closed spec fn regs(&self) -> Map<Seq<char>, Seq<u8>> {
        regs_map(self.registrations@)
    }

    /// The token table as a map from `(user, device)` to the record view.
    pub closed spec fn tokens(&self) -> Map<(Seq<char>, Seq<char>), TokenView> {
        tokens_map(self.tokens@)
    }

    /// Well-formedness: each table holds each key at most once, and every
    /// stored token record is itself well-formed.
    pub closed spec fn wf(&self) -> bool {
        &&& unique_reg_keys(self.registrations@)
        &&& unique_token_keys(self.tokens@)
        &&& forall|i: int| 0 <= i < self.tokens@.len() ==> (#[trigger] self.tokens@[i]).wf()
    }

    /// An empty store.
    pub fn new() -> (r: IdentityStore)
        ensures
            r.wf(),
            r.regs() == Map::<Seq<char>, Seq<u8>>::empty(),
            r.tokens() == Map::<(Seq<char>, Seq<char>), TokenView>::empty(),
    {
        IdentityStore { registrations: Vec::new(), tokens: Vec::new() }
    }

    /// Fetches the credential record stored for `user_id`, if any.
    pub fn get_pake_registration(&self, user_id: &String) -> (r: Option<Vec<u8>>)
        requires
            self.wf(),
        ensures
            match r {
                Some(v) => self.regs().contains_key(user_id@) && v@ == self.regs()[user_id@],
                None => !self.regs().contains_key(user_id@),
            },
    {
        let n = self.registrations.len();
        let mut i: usize = 0;
        while i < n
            invariant
                n == self.registrations@.len(),
                i <= n,
                self.wf(),
                forall|j: int| 0 <= j < i ==> self.registrations@[j].0@ != user_id@,
            decreases n - i,
        {
            let entry = &self.registrations[i];
            if entry.0 == *user_id {
                proof {
                    lemma_regs_map_value(self.registrations@, i as int);
                }
                return Some(entry.1.clone());
            }
            i += 1;
        }
        proof {
            lemma_regs_map_contains(self.registrations@, user_id@);
        }
        None
    }

    /// Stores `registration` as the credential record for `user_id`,
    /// replacing any previous record wholesale.
    #[verifier::loop_isolation(false)]
    pub fn put_pake_registration(&mut self, user_id: String, registration: Vec<u8>)
        requires
            old(self).wf(),
        ensures
            final(self).wf(),
            final(self).regs() == old(self).regs().insert(user_id@, registration@),
            final(self).tokens() == old(self).tokens(),
    {
        let ghost uid: Seq<char> = user_id@;
        let ghost reg: Seq<u8> = registration@;
        let n = self.registrations.len();
        let mut i: usize = 0;
        while i < n
            invariant
                *self == *old(self),
                n == self.registrations@.len(),
                i <= n,
                self.wf(),
                forall|j: int| 0 <= j < i ==> self.registrations@[j].0@ != user_id@,
            decreases n - i,
        {
            let hit = self.registrations[i].0 == user_id;
            if hit {
                proof {
                    lemma_regs_map_update(
                        self.registrations@,
                        i as int,
                        (user_id, registration),
                    );
                }
                self.registrations[i] = (user_id, registration);
                assert(self.regs() =~= old(self).regs().insert(uid, reg));
                return;
            }
            i += 1;
        }
        proof {
            lemma_regs_map_contains(self.registrations@, user_id@);
        }
        self.registrations.push((user_id, registration));
        assert(self.registrations@.drop_last() =~= old(self).registrations@);
    }

    /// Fetches a copy of the token record stored for `(user_id, device_id)`,
    /// if any.
    pub fn get_token(&self, user_id: &String, device_id: &String) -> (r: Option<AccessToken>)
        requires
            self.wf(),
        ensures
            match r {
                Some(t) => self.tokens().contains_key((user_id@, device_id@)) && token_view(t)
                    == self.tokens()[(user_id@, device_id@)] && t.wf(),
                None => !self.tokens().contains_key((user_id@, device_id@)),
            },
    {
        let n = self.tokens.len();
        let mut i: usize = 0;
        while i < n
            invariant
                n == self.tokens@.len(),
                i <= n,
                self.wf(),
                forall|j: int| 0 <= j < i ==> (
                    self.tokens@[j].user_id@,
                    self.tokens@[j].device_id@,
                ) != (user_id@, device_id@),
            decreases n - i,
        {
            let entry = &self.tokens[i];
            if entry.user_id == *user_id && entry.device_id == *device_id {
                proof {
                    lemma_tokens_map_value(self.tokens@, i as int);
                }
                return Some(entry.duplicate());
            }
            i += 1;
        }
        proof {
            lemma_tokens_map_contains(self.tokens@, (user_id@, device_id@));
        }
        None
    }

    /// Stores `record` under its `(user_id, device_id)` key, superseding any
    /// previous token for that device.
    #[verifier::loop_isolation(false)]
    pub fn put_token(&mut self, record: AccessToken)
        requires
            old(self).wf(),
            record.wf(),
        ensures
            final(self).wf(),
            final(self).tokens() == old(self).tokens().insert(
                (record.user_id@, record.device_id@),
                token_view(record),
            ),
            final(self).regs() == old(self).regs(),
    {
        let n = self.tokens.len();
        let mut i: usize = 0;
        while i < n
            invariant
                *self == *old(self),
                n == self.tokens@.len(),
                i <= n,
                self.wf(),
                record.wf(),
                forall|j: int| 0 <= j < i ==> (
                    self.tokens@[j].user_id@,
                    self.tokens@[j].device_id@,
                ) != (record.user_id@, record.device_id@),
            decreases n - i,
        {
            let hit = self.tokens[i].user_id == record.user_id && self.tokens[i].device_id
                == record.device_id;
            if hit {
                proof {
                    lemma_tokens_map_update(self.tokens@, i as int, record);
                }
                self.tokens[i] = record;
                assert(self.tokens() =~= old(self).tokens().insert(
                    (record.user_id@, record.device_id@),
                    token_view(record),
                ));
                return;
            }
            i += 1;
        }
        proof {
            lemma_tokens_map_contains(self.tokens@, (record.user_id@, record.device_id@));
        }
        self.tokens.push(record);
        assert(self.tokens@.drop_last() =~= old(self).tokens@);
    }
}

} // verus!
