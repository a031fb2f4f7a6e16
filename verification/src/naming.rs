//! The naming scheme for on-disk material and ACME order identifiers.
//!
//! One directory per domain variant (`<domain>` for the apex certificate,
//! `wild_<domain>` for the wildcard one) holds `domain.key` and
//! `chained.pem`; archived chains carry a `-YYYY-MM-DD` suffix.  The ACME
//! account key lives in `account.key` beside those directories.

use vstd::prelude::*;
use vstd::string::*;

use crate::date::{date_chars, date_wf, format_date, Date};

verus! {

/// The file holding the ACME account private key.
pub fn account_key_path() -> (r: &'static str)
    ensures
        r@ =~= "account.key"@,
{
    "account.key"
}

/// The storage directory of one domain variant.
pub open spec fn spec_domain_dir(domain: Seq<char>, wildcard: bool) -> Seq<char> {
    if wildcard {
        "wild_"@ + domain
    } else {
        domain
    }
}

pub fn domain_dir(domain: &str, wildcard: bool) -> (r: String)
    ensures
        r@ == spec_domain_dir(domain@, wildcard),
{
    if wildcard {
        let mut s = String::from_str("wild_");
        s.append(domain);
        s
    } else {
        domain.to_owned()
    }
}

/// The private-key file inside a domain directory.
pub open spec fn spec_domain_key_path(dir: Seq<char>) -> Seq<char> {
    dir + "/domain.key"@
}

pub fn domain_key_path(dir: &str) -> (r: String)
    ensures
        r@ == spec_domain_key_path(dir@),
{
    let mut s = dir.to_owned();
    s.append("/domain.key");
    s
}

/// The certificate-chain file inside a domain directory.
pub open spec fn spec_chain_path(dir: Seq<char>) -> Seq<char> {
    dir + "/chained.pem"@
}

pub fn chain_path(dir: &str) -> (r: String)
    ensures
        r@ == spec_chain_path(dir@),
{
    let mut s = dir.to_owned();
    s.append("/chained.pem");
    s
}

/// The date-suffixed name a previous chain is archived under.
pub open spec fn spec_archive_path(chain_file: Seq<char>, d: Date) -> Seq<char> {
    chain_file + "-"@ + date_chars(d)
}

pub fn archive_path(chain_file: &str, d: &Date) -> (r: String)
    requires
        date_wf(*d),
    ensures
        r@ == spec_archive_path(chain_file@, *d),
{
    let mut s = chain_file.to_owned();
    s.append("-");
    let ds = format_date(d);
    s.append(ds.as_str());
    proof {
        assert(s@ =~= spec_archive_path(chain_file@, *d));
    }
    s
}

/// The subject name an order is created for: `*.<domain>` for wildcard
/// certificates, the domain itself otherwise.
pub open spec fn spec_order_identifier(domain: Seq<char>, wildcard: bool) -> Seq<char> {
    if wildcard {
        "*."@ + domain
    } else {
        domain
    }
}

pub fn order_identifier(domain: &str, wildcard: bool) -> (r: String)
    ensures
        r@ == spec_order_identifier(domain@, wildcard),
{
    if wildcard {
        let mut s = String::from_str("*.");
        s.append(domain);
        s
    } else {
        domain.to_owned()
    }
}

/// The message sent to notification channels after a successful renewal.
pub open spec fn spec_success_message(domain: Seq<char>, wildcard: bool) -> Seq<char> {
    "Certificate renewal succeeded for the domain: "@ + spec_order_identifier(domain, wildcard)
        + "."@
}

pub fn success_message(domain: &str, wildcard: bool) -> (r: String)
    ensures
        r@ == spec_success_message(domain@, wildcard),
{
    let mut s = String::from_str("Certificate renewal succeeded for the domain: ");
    let name = order_identifier(domain, wildcard);
    s.append(name.as_str());
    s.append(".");
    proof {
        assert(s@ =~= spec_success_message(domain@, wildcard));
    }
    s
}

} // verus!
