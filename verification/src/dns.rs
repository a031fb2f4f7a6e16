//! The compute side of the DNS challenge coordinator.
//!
//! The DNS provider's API is driven by the surrounding process; what is
//! verified here is the policy: which of the zone's records count as
//! `_acme-challenge` records for a domain (and must be deleted during
//! cleanup), and exactly what record a challenge creates.

use vstd::prelude::*;

use crate::consts::CHALLENGE_RECORD_TTL;
use crate::strutil::{contains_at, spec_contains, str_contains};

verus! {

/// What the coordinator reads of one DNS record returned by the provider:
/// its identifier, its full name, and whether it is a TXT record.
#[derive(Clone, Debug)]
pub struct DnsRecordInfo {
    pub id: String,
    pub name: String,
    pub is_txt: bool,
}

/// A TXT record name counts as a challenge record for `domain` when it
/// mentions both the challenge label and the domain.
pub open spec fn is_challenge_record_name(name: Seq<char>, domain: Seq<char>) -> bool {
    spec_contains(name, "_acme-challenge"@) && spec_contains(name, domain)
}

/// The identifiers of the challenge records for `domain`, in the order the
/// provider listed them.
pub open spec fn spec_challenge_ids(records: Seq<DnsRecordInfo>, domain: Seq<char>) -> Seq<
    Seq<char>,
>
    decreases records.len(),
{
    if records.len() == 0 {
        Seq::empty()
    } else {
        let rest = spec_challenge_ids(records.drop_last(), domain);
        let last = records.last();
        if last.is_txt && is_challenge_record_name(last.name@, domain) {
            rest.push(last.id@)
        } else {
            rest
        }
    }
}

/// Selects from a provider listing the identifiers of every record that the
/// challenge cleanup must delete.  An empty result is a valid outcome, not
/// an error: it simply means no stale challenge records exist.
pub fn acme_challenge_record_ids(records: &Vec<DnsRecordInfo>, domain: &str) -> (r: Vec<String>)
    ensures
        r.deep_view() == spec_challenge_ids(records@, domain@),
{
    let mut out: Vec<String> = Vec::new();
    let mut i: usize = 0;
    while i < records.len()
        invariant
            0 <= i <= records@.len(),
            out.deep_view() == spec_challenge_ids(records@.take(i as int), domain@),
        decreases records@.len() - i,
    {
        let rec = &records[i];
        let ghost prefix = records@.take(i as int);
        if rec.is_txt && str_contains(rec.name.as_str(), "_acme-challenge")
            && str_contains(rec.name.as_str(), domain) {
            out.push(rec.id.clone());
        }
        proof {
            assert(records@.take(i + 1).drop_last() =~= prefix);
            assert(records@.take(i + 1).last() == records@[i as int]);
            assert(out.deep_view() =~= spec_challenge_ids(records@.take(i + 1), domain@));
        }
        i = i + 1;
    }
    proof {
        assert(records@.take(records@.len() as int) =~= records@);
    }
    out
}

/// The fully qualified name of the challenge record for a domain.
pub open spec fn spec_challenge_record_name(domain: Seq<char>) -> Seq<char> {
    "_acme-challenge."@ + domain + "."@
}

pub fn challenge_record_name(domain: &str) -> (r: String)
    ensures
        r@ == spec_challenge_record_name(domain@),
{
    let mut s = String::from_str("_acme-challenge.");
    s.append(domain);
    s.append(".");
    proof {
        assert(s@ =~= spec_challenge_record_name(domain@));
    }
    s
}

/// The TXT record a challenge publishes: short-lived and never proxied.
#[derive(Clone, Debug)]
pub struct DnsCreateRequest {
    pub name: String,
    pub content: String,
    pub ttl: u32,
    pub proxied: bool,
}

/// Builds the creation request for the challenge record carrying the ACME
/// proof token.
pub fn create_challenge_request(domain: &str, proof_token: &str) -> (r: DnsCreateRequest)
    ensures
        r.name@ == spec_challenge_record_name(domain@),
        r.content@ == proof_token@,
        r.ttl == CHALLENGE_RECORD_TTL,
        !r.proxied,
{
    DnsCreateRequest {
        name: challenge_record_name(domain),
        content: proof_token.to_owned(),
        ttl: CHALLENGE_RECORD_TTL,
        proxied: false,
    }
}

/// The record that `create_challenge_request` publishes is itself matched
/// by the cleanup filter, so a later delete-all pass removes it: creation
/// never leaves a record the coordinator cannot find again.
pub proof fn lemma_created_record_is_cleanable(domain: Seq<char>)
    ensures
        is_challenge_record_name(spec_challenge_record_name(domain), domain),
{
    let full = spec_challenge_record_name(domain);
    reveal_strlit("_acme-challenge.");
    reveal_strlit("_acme-challenge");
    reveal_strlit(".");
    assert(contains_at(full, "_acme-challenge"@, 0)) by {
        assert(full.subrange(0, 15) =~= "_acme-challenge"@);
    }
    assert(contains_at(full, domain, 16)) by {
        assert(full.subrange(16, 16 + domain.len() as int) =~= domain);
    }
}

} // verus!
