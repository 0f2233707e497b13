//! The store adapter's item model: attribute values and attribute maps in
//! the shape the durable store hands back, the primary-key construction, and
//! the typed parsing of token records out of raw items.

use vstd::prelude::*;
use crate::token::AuthType;

verus! {

/// Relies on `<str as PartialEq>::eq`: equality of two string slices is
/// equality of their character sequences.
pub assume_specification[ <str as PartialEq>::eq ](a: &str, b: &str) -> (r: bool)
    ensures
        r == (a@ == b@),
;

/// Spec-level image of one attribute value.
pub struct AttrView {
    pub s: Option<Seq<char>>,
    pub b: Option<Seq<u8>>,
    pub bool_value: Option<bool>,
}

/// One attribute value: a string, a byte blob, or a boolean, any of which
/// may be absent.
#[derive(Debug)]
pub struct Attr {
    pub s: Option<String>,
    pub b: Option<Vec<u8>>,
    pub bool_value: Option<bool>,
}

impl View for Attr {
    type V = AttrView;

    open spec fn view(&self) -> AttrView {
        AttrView {
            s: match self.s {
                Some(v) => Some(v@),
                None => None,
            },
            b: match self.b {
                Some(v) => Some(v@),
                None => None,
            },
            bool_value: self.bool_value,
        }
    }
}

impl PartialEq for Attr {
    fn eq(&self, other: &Attr) -> (r: bool) {
        let s_eq = match (&self.s, &other.s) {
            (Some(a), Some(b)) => *a == *b,
            (None, None) => true,
            _ => false,
        };
        let b_eq = match (&self.b, &other.b) {
            (Some(a), Some(b)) => {
                let same = *a == *b;
                proof {
                    if same {
                        assert(a@ =~= b@);
                    }
                }
                same
            },
            (None, None) => true,
            _ => false,
        };
        let bool_eq = match (&self.bool_value, &other.bool_value) {
            (Some(a), Some(b)) => *a == *b,
            (None, None) => true,
            _ => false,
        };
        s_eq && b_eq && bool_eq
    }
}

impl vstd::std_specs::cmp::PartialEqSpecImpl for Attr {
    open spec fn obeys_eq_spec() -> bool {
        true
    }

    open spec fn eq_spec(&self, other: &Attr) -> bool {
        self@ == other@
    }
}

impl Attr {
    /// A string attribute.
    pub fn string(value: String) -> (r: Attr)
        ensures
            r@ == (AttrView { s: Some(value@), b: None, bool_value: None }),
    {
        Attr { s: Some(value), b: None, bool_value: None }
    }

    /// A byte-blob attribute.
    pub fn binary(value: Vec<u8>) -> (r: Attr)
        ensures
            r@ == (AttrView { s: None, b: Some(value@), bool_value: None }),
    {
        Attr { s: None, b: Some(value), bool_value: None }
    }

    /// A boolean attribute.
    pub fn boolean(value: bool) -> (r: Attr)
        ensures
            r@ == (AttrView { s: None, b: None, bool_value: Some(value) }),
    {
        Attr { s: None, b: None, bool_value: Some(value) }
    }
}

/// The map an attribute list denotes.
pub open spec fn attrs_map(s: Seq<(String, Attr)>) -> Map<Seq<char>, AttrView>
    decreases s.len(),
{
    if s.len() == 0 {
        Map::empty()
    } else {
        attrs_map(s.drop_last()).insert(s.last().0@, s.last().1@)
    }
}

/// No attribute name occurs twice.
pub open spec fn unique_attr_keys(s: Seq<(String, Attr)>) -> bool {
    forall|i: int, j: int| 0 <= i < j < s.len() ==> s[i].0@ != s[j].0@
}

proof fn lemma_attrs_map_contains(s: Seq<(String, Attr)>, k: Seq<char>)
    ensures
        attrs_map(s).contains_key(k) <==> exists|i: int| 0 <= i < s.len() && s[i].0@ == k,
    decreases s.len(),
{
    if s.len() > 0 {
        let prefix = s.drop_last();
        lemma_attrs_map_contains(prefix, k);
        if s.last().0@ == k {
            assert(s[s.len() - 1].0@ == k);
        } else {
            if attrs_map(prefix).contains_key(k) {
                let i = choose|i: int| 0 <= i < prefix.len() && prefix[i].0@ == k;
                assert(s[i].0@ == k);
            }
            if exists|i: int| 0 <= i < s.len() && s[i].0@ == k {
                let i = choose|i: int| 0 <= i < s.len() && s[i].0@ == k;
                assert(prefix[i].0@ == k);
            }
        }
    }
}

proof fn lemma_attrs_map_value(s: Seq<(String, Attr)>, i: int)
    requires
        unique_attr_keys(s),
        0 <= i < s.len(),
    ensures
        attrs_map(s).contains_key(s[i].0@),
        attrs_map(s)[s[i].0@] == s[i].1@,
    decreases s.len(),
{
    if i < s.len() - 1 {
        lemma_attrs_map_value(s.drop_last(), i);
        assert(s.drop_last()[i].0@ == s[i].0@);
        assert(s.last().0@ != s[i].0@);
    }
}

proof fn lemma_attrs_map_update(s: Seq<(String, Attr)>, i: int, v: (String, Attr))
    requires
        unique_attr_keys(s),
        0 <= i < s.len(),
        v.0@ == s[i].0@,
    ensures
        attrs_map(s.update(i, v)) =~= attrs_map(s).insert(v.0@, v.1@),
    decreases s.len(),
{
    let s2 = s.update(i, v);
    if i == s.len() - 1 {
        assert(s2.drop_last() =~= s.drop_last());
    } else {
        lemma_attrs_map_update(s.drop_last(), i, v);
        assert(s2.drop_last() =~= s.drop_last().update(i, v));
        assert(s.last().0@ != s[i].0@);
        assert(s2.last() == s.last());
    }
}

proof fn lemma_attrs_map_dom_len(s: Seq<(String, Attr)>)
    requires
        unique_attr_keys(s),
    ensures
        attrs_map(s).dom().finite(),
        attrs_map(s).dom().len() == s.len(),
    decreases s.len(),
{
    if s.len() == 0 {
        assert(attrs_map(s).dom() =~= Set::<Seq<char>>::empty());
    } else {
        let prefix = s.drop_last();
        lemma_attrs_map_dom_len(prefix);
        lemma_attrs_map_contains(prefix, s.last().0@);
        assert forall|i: int| 0 <= i < prefix.len() implies prefix[i].0@ != s.last().0@ by {
            assert(s[i].0@ == prefix[i].0@);
            assert(s[i].0@ != s[s.len() - 1].0@);
        }
        assert(!attrs_map(prefix).contains_key(s.last().0@));
        assert(attrs_map(s).dom() =~= attrs_map(prefix).dom().insert(s.last().0@));
    }
}

/// An attribute map: at most one value per attribute name.
pub struct AttrMap {
    entries: Vec<(String, Attr)>,
}

impl View for AttrMap {
    type V = Map<Seq<char>, AttrView>;

    closed spec fn view(&self) -> Map<Seq<char>, AttrView> {
        attrs_map(self.entries@)
    }
}

impl AttrMap {
    /// Each attribute name occurs at most once.
    pub closed spec fn wf(&self) -> bool {
        unique_attr_keys(self.entries@)
    }

    /// An empty map.
    pub fn new() -> (r: AttrMap)
        ensures
            r.wf(),
            r@ == Map::<Seq<char>, AttrView>::empty(),
    {
        AttrMap { entries: Vec::new() }
    }

    /// Binds `name` to `value`, replacing any previous binding.
    #[verifier::loop_isolation(false)]
    pub fn insert(&mut self, name: String, value: Attr)
        requires
            old(self).wf(),
        ensures
            final(self).wf(),
            final(self)@ == old(self)@.insert(name@, value@),
    {
        let ghost k: Seq<char> = name@;
        let ghost v: AttrView = value@;
        let n = self.entries.len();
        let mut i: usize = 0;
        while i < n
            invariant
                *self == *old(self),
                n == self.entries@.len(),
                i <= n,
                self.wf(),
                forall|j: int| 0 <= j < i ==> self.entries@[j].0@ != name@,
            decreases n - i,
        {
            let hit = self.entries[i].0.as_str().eq(name.as_str());
            if hit {
                proof {
                    lemma_attrs_map_update(self.entries@, i as int, (name, value));
                }
                self.entries[i] = (name, value);
                assert(self@ =~= old(self)@.insert(k, v));
                return;
            }
            i += 1;
        }
        proof {
            lemma_attrs_map_contains(self.entries@, name@);
        }
        self.entries.push((name, value));
        assert(self.entries@.drop_last() =~= old(self).entries@);
    }

    /// Looks an attribute up by name.
    pub fn get(&self, name: &str) -> (r: Option<&Attr>)
        requires
            self.wf(),
        ensures
            match r {
                Some(a) => self@.contains_key(name@) && a@ == self@[name@],
                None => !self@.contains_key(name@),
            },
    {
        let n = self.entries.len();
        let mut i: usize = 0;
        while i < n
            invariant
                n == self.entries@.len(),
                i <= n,
                self.wf(),
                forall|j: int| 0 <= j < i ==> self.entries@[j].0@ != name@,
            decreases n - i,
        {
            let entry = &self.entries[i];
            if entry.0.as_str().eq(name) {
                proof {
                    lemma_attrs_map_value(self.entries@, i as int);
                }
                return Some(&entry.1);
            }
            i += 1;
        }
        proof {
            lemma_attrs_map_contains(self.entries@, name@);
        }
        None
    }

    /// How many attributes the map holds.
    pub fn len(&self) -> (r: usize)
        requires
            self.wf(),
        ensures
            r == self@.dom().len(),
    {
        proof {
            lemma_attrs_map_dom_len(self.entries@);
        }
        self.entries.len()
    }
}

/// Builds the primary key for a store item: the partition key's attribute,
/// and the sort key's attribute when one is given, each as a string value.
pub fn construct_primary_key_from_strings(
    partition_key: (String, String),
    sort_key: Option<(String, String)>,
) -> (r: AttrMap)
    ensures
        r.wf(),
        match sort_key {
            None => r@ == Map::<Seq<char>, AttrView>::empty().insert(
                partition_key.0@,
                AttrView { s: Some(partition_key.1@), b: None, bool_value: None },
            ),
            Some(sk) => r@ == Map::<Seq<char>, AttrView>::empty().insert(
                partition_key.0@,
                AttrView { s: Some(partition_key.1@), b: None, bool_value: None },
            ).insert(sk.0@, AttrView { s: Some(sk.1@), b: None, bool_value: None }),
        },
{
    let mut primary_key = AttrMap::new();
    primary_key.insert(partition_key.0, Attr::string(partition_key.1));
    match sort_key {
        None => primary_key,
        Some((name, value)) => {
            primary_key.insert(name, Attr::string(value));
            primary_key
        },
    }
}

/// The string value an item holds under `name`, if any.
pub open spec fn string_attr(m: Map<Seq<char>, AttrView>, name: Seq<char>) -> Option<Seq<char>> {
    if m.contains_key(name) {
        m[name].s
    } else {
        None
    }
}

/// The byte-blob value an item holds under `name`, if any.
pub open spec fn binary_attr(m: Map<Seq<char>, AttrView>, name: Seq<char>) -> Option<Seq<u8>> {
    if m.contains_key(name) {
        m[name].b
    } else {
        None
    }
}

/// The boolean value an item holds under `name`, if any.
pub open spec fn bool_attr(m: Map<Seq<char>, AttrView>, name: Seq<char>) -> Option<bool> {
    if m.contains_key(name) {
        m[name].bool_value
    } else {
        None
    }
}

/// Whether chrono accepts this text as a timestamp under its relaxed
/// RFC 3339 grammar: a function of the text alone.
pub uninterp spec fn rfc3339_ok(s: Seq<char>) -> bool;

/// The instant such a text denotes, as milliseconds since the Unix epoch: a
/// function of the text alone.
pub uninterp spec fn rfc3339_millis(s: Seq<char>) -> i64;

/// Relies on chrono's `FromStr` for `DateTime<Utc>` (a relaxed RFC 3339
/// grammar) and on `DateTime::timestamp_millis`: whether the text parses,
/// and which instant it denotes, depend on the text alone.
#[verifier::external_body]
fn parse_datetime_millis(s: &str) -> (r: Option<i64>)
    ensures
        r.is_some() == rfc3339_ok(s@),
        r matches Some(m) ==> m == rfc3339_millis(s@),
{
    s.parse::<chrono::DateTime<chrono::Utc>>().ok().map(|d| d.timestamp_millis())
}

/// The fields of a token record as far as a raw item yields them; each is
/// absent when its attribute is missing, has the wrong shape, or does not
/// parse.
#[derive(Debug)]
pub struct ParsedTokenRecord {
    pub token: Option<String>,
    pub created: Option<i64>,
    pub auth_type: Option<AuthType>,
    pub valid: Option<bool>,
}

/// Reads a token record out of a raw store item: the token text, the
/// creation instant (an RFC 3339 timestamp), the authentication type
/// (`"password"` or `"wallet"`), and the validity flag.
pub fn parse_token_attrs(item: &AttrMap) -> (r: ParsedTokenRecord)
    requires
        item.wf(),
    ensures
        match string_attr(item@, "token"@) {
            Some(t) => r.token matches Some(rt) && rt@ == t,
            None => r.token is None,
        },
        match string_attr(item@, "created"@) {
            Some(c) => if rfc3339_ok(c) {
                r.created == Some(rfc3339_millis(c))
            } else {
                r.created is None
            },
            None => r.created is None,
        },
        match string_attr(item@, "authType"@) {
            Some(t) => if t == "password"@ {
                r.auth_type == Some(AuthType::Password)
            } else if t == "wallet"@ {
                r.auth_type == Some(AuthType::Wallet)
            } else {
                r.auth_type is None
            },
            None => r.auth_type is None,
        },
        r.valid == bool_attr(item@, "valid"@),
{
    let token = match item.get("token") {
        Some(a) => match &a.s {
            Some(t) => Some(t.clone()),
            None => None,
        },
        None => None,
    };
    let created = match item.get("created") {
        Some(a) => match &a.s {
            Some(c) => parse_datetime_millis(c.as_str()),
            None => None,
        },
        None => None,
    };
    let auth_type = match item.get("authType") {
        Some(a) => match &a.s {
            Some(t) => {
                if t.as_str().eq("password") {
                    Some(AuthType::Password)
                } else if t.as_str().eq("wallet") {
                    Some(AuthType::Wallet)
                } else {
                    None
                }
            },
            None => None,
        },
        None => None,
    };
    let valid = match item.get("valid") {
        Some(a) => match &a.bool_value {
            Some(v) => Some(*v),
            None => None,
        },
        None => None,
    };
    ParsedTokenRecord { token, created, auth_type, valid }
}

/// Reads the credential record out of a raw registration item, if the item
/// carries one.
pub fn extract_registration_record(item: &AttrMap) -> (r: Option<Vec<u8>>)
    requires
        item.wf(),
    ensures
        match binary_attr(item@, "pakeRegistrationData"@) {
            Some(data) => r matches Some(v) && v@ == data,
            None => r is None,
        },
{
    match item.get("pakeRegistrationData") {
        Some(a) => match &a.b {
            Some(data) => Some(data.clone()),
            None => None,
        },
        None => None,
    }
}

} // verus!
