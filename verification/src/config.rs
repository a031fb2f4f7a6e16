//! The configuration the workflow reads: the global flags, the notification
//! channels, and one DNS-provider account entry per domain.
//!
//! Discovering and parsing the configuration file is the surrounding
//! process's concern; the accessors here — which entry serves a domain,
//! and what its credentials are — are verified.

use vstd::prelude::*;

use crate::notify::NotifyWith;
use crate::strutil::str_eq;

verus! {

/// The DNS zone and credentials serving one domain, with the contact
/// addresses used for ACME registration.
#[derive(Debug)]
pub struct CloudFlareAccount {
    pub cloudflare_api_token: String,
    pub cloudflare_zone_id: String,
    pub domain: String,
    pub contacts: Vec<String>,
}

impl Clone for CloudFlareAccount {
    /// An exact copy of the entry.
    fn clone(&self) -> (res: Self)
        ensures
            res.cloudflare_api_token == self.cloudflare_api_token,
            res.cloudflare_zone_id == self.cloudflare_zone_id,
            res.domain == self.domain,
            res.contacts@ == self.contacts@,
    {
        CloudFlareAccount {
            cloudflare_api_token: self.cloudflare_api_token.clone(),
            cloudflare_zone_id: self.cloudflare_zone_id.clone(),
            domain: self.domain.clone(),
            contacts: clone_strings(&self.contacts),
        }
    }
}

/// The whole configuration.
#[derive(Debug)]
pub struct Config {
    pub acme_staging: bool,
    pub notifications: Vec<NotifyWith>,
    pub accounts: Vec<CloudFlareAccount>,
}

/// An element-exact copy of a vector of strings.
fn clone_strings(v: &Vec<String>) -> (r: Vec<String>)
    ensures
        r@ == v@,
{
    let mut r: Vec<String> = Vec::new();
    let mut i: usize = 0;
    while i < v.len()
        invariant
            0 <= i <= v@.len(),
            r@ =~= v@.take(i as int),
        decreases v@.len() - i,
    {
        r.push(v[i].clone());
        proof {
            assert(r@ =~= v@.take(i + 1));
        }
        i = i + 1;
    }
    proof {
        assert(v@.take(v@.len() as int) =~= v@);
    }
    r
}

/// The first account entry whose domain is `domain`, if any.
pub open spec fn spec_find_account(
    accounts: Seq<CloudFlareAccount>,
    domain: Seq<char>,
) -> Option<CloudFlareAccount>
    decreases accounts.len(),
{
    if accounts.len() == 0 {
        Option::None
    } else if accounts[0].domain@ == domain {
        Option::Some(accounts[0])
    } else {
        spec_find_account(accounts.drop_first(), domain)
    }
}

/// When the first `i` entries do not serve `domain`, the search result is
/// decided by the remaining entries.
proof fn lemma_find_prefix(accounts: Seq<CloudFlareAccount>, domain: Seq<char>, i: int)
    requires
        0 <= i <= accounts.len(),
        forall|k: int| 0 <= k < i ==> #[trigger] accounts[k].domain@ != domain,
    ensures
        spec_find_account(accounts, domain) == spec_find_account(accounts.skip(i), domain),
    decreases i,
{
    if i > 0 {
        lemma_find_prefix(accounts, domain, i - 1);
        let s = accounts.skip(i - 1);
        assert(s[0] == accounts[i - 1]);
        assert(s.drop_first() =~= accounts.skip(i));
    } else {
        assert(accounts.skip(0) =~= accounts);
    }
}

impl Config {
    /// The configured domains, in configuration order.
    pub fn domains(&self) -> (r: Vec<String>)
        ensures
            r@.len() == self.accounts@.len(),
            forall|i: int| 0 <= i < r@.len() ==> r@[i] == self.accounts@[i].domain,
    {
        let mut r: Vec<String> = Vec::new();
        let mut i: usize = 0;
        while i < self.accounts.len()
            invariant
                0 <= i <= self.accounts@.len(),
                r@.len() == i,
                forall|k: int| 0 <= k < i ==> r@[k] == self.accounts@[k].domain,
            decreases self.accounts@.len() - i,
        {
            r.push(self.accounts[i].domain.clone());
            i = i + 1;
        }
        r
    }

    /// The contact addresses of the first entry serving `domain`; empty
    /// when no entry does.
    pub fn contacts_of(&self, domain: &str) -> (r: Vec<String>)
        ensures
            match spec_find_account(self.accounts@, domain@) {
                Option::Some(a) => r@ == a.contacts@,
                Option::None => r@.len() == 0,
            },
    {
        let n: usize = self.accounts.len();
        let mut i: usize = 0;
        while i < n
            invariant
                n == self.accounts@.len(),
                0 <= i <= n,
                forall|k: int| 0 <= k < i ==> #[trigger] self.accounts@[k].domain@ != domain@,
            decreases n - i,
        {
            let entry = &self.accounts[i];
            if str_eq(entry.domain.as_str(), domain) {
                proof {
                    lemma_find_prefix(self.accounts@, domain@, i as int);
                    assert(self.accounts@.skip(i as int)[0] == self.accounts@[i as int]);
                }
                return clone_strings(&entry.contacts);
            }
            i = i + 1;
        }
        proof {
            lemma_find_prefix(self.accounts@, domain@, n as int);
            assert(self.accounts@.skip(n as int) =~= Seq::<CloudFlareAccount>::empty());
        }
        Vec::new()
    }

    /// The DNS API token of the first entry serving `domain`; empty when
    /// no entry does.
    pub fn api_token_of(&self, domain: &str) -> (r: String)
        ensures
            match spec_find_account(self.accounts@, domain@) {
                Option::Some(a) => r == a.cloudflare_api_token,
                Option::None => r@ == Seq::<char>::empty(),
            },
    {
        let n: usize = self.accounts.len();
        let mut i: usize = 0;
        while i < n
            invariant
                n == self.accounts@.len(),
                0 <= i <= n,
                forall|k: int| 0 <= k < i ==> #[trigger] self.accounts@[k].domain@ != domain@,
            decreases n - i,
        {
            let entry = &self.accounts[i];
            if str_eq(entry.domain.as_str(), domain) {
                proof {
                    lemma_find_prefix(self.accounts@, domain@, i as int);
                    assert(self.accounts@.skip(i as int)[0] == self.accounts@[i as int]);
                }
                return entry.cloudflare_api_token.clone();
            }
            i = i + 1;
        }
        proof {
            lemma_find_prefix(self.accounts@, domain@, n as int);
            assert(self.accounts@.skip(n as int) =~= Seq::<CloudFlareAccount>::empty());
        }
        String::new()
    }

    /// The DNS zone identifier of the first entry serving `domain`; empty
    /// when no entry does.
    pub fn zone_id_of(&self, domain: &str) -> (r: String)
        ensures
            match spec_find_account(self.accounts@, domain@) {
                Option::Some(a) => r == a.cloudflare_zone_id,
                Option::None => r@ == Seq::<char>::empty(),
            },
    {
        let n: usize = self.accounts.len();
        let mut i: usize = 0;
        while i < n
            invariant
                n == self.accounts@.len(),
                0 <= i <= n,
                forall|k: int| 0 <= k < i ==> #[trigger] self.accounts@[k].domain@ != domain@,
            decreases n - i,
        {
            let entry = &self.accounts[i];
            if str_eq(entry.domain.as_str(), domain) {
                proof {
                    lemma_find_prefix(self.accounts@, domain@, i as int);
                    assert(self.accounts@.skip(i as int)[0] == self.accounts@[i as int]);
                }
                return entry.cloudflare_zone_id.clone();
            }
            i = i + 1;
        }
        proof {
            lemma_find_prefix(self.accounts@, domain@, n as int);
            assert(self.accounts@.skip(n as int) =~= Seq::<CloudFlareAccount>::empty());
        }
        String::new()
    }

    /// The configured notification channels, copied.
    pub fn notifications(&self) -> (r: Vec<NotifyWith>)
        ensures
            r@ == self.notifications@,
    {
        let mut r: Vec<NotifyWith> = Vec::new();
        let mut i: usize = 0;
        while i < self.notifications.len()
            invariant
                0 <= i <= self.notifications@.len(),
                r@ =~= self.notifications@.take(i as int),
            decreases self.notifications@.len() - i,
        {
            r.push(self.notifications[i].clone());
            proof {
                assert(r@ =~= self.notifications@.take(i + 1));
            }
            i = i + 1;
        }
        proof {
            assert(self.notifications@.take(self.notifications@.len() as int)
                =~= self.notifications@);
        }
        r
    }

    /// Whether the staging ACME endpoint is configured.
    pub fn acme_staging(&self) -> (r: bool)
        ensures
            r == self.acme_staging,
    {
        self.acme_staging
    }
}

} // verus!
