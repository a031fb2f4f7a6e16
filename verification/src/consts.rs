//! Default tuning knobs of the renewal workflow.

use vstd::prelude::*;

verus! {

/// How many months before expiry a certificate is renewed.
pub const DEFAULT_MAX_CERT_VALIDITY_IN_MONTHS: u32 = 2;

/// Max polling iterations for one ACME order.
pub const DEFAULT_MAX_ATTEMPTS: usize = 5;

/// Max retries for notification delivery.
pub const DEFAULT_MAX_NOTIFICATION_RETRIES: usize = 5;

/// Pause between notification delivery retries.
pub const DEFAULT_NOTIFICATION_RETRY_PAUSE_MS: u64 = 5000;

/// Pause between ACME order polling iterations.
pub const DEFAULT_ACME_POLL_PAUSE_MS: u64 = 5000;

/// Cooldown before the whole renewal is retried after an API problem.
pub const DEFAULT_ACME_INVALID_STATUS_PAUSE_MS: u64 = 30000;

/// Pause granted to the ACME server while it validates a challenge.
pub const DEFAULT_ACME_CHALLENGE_VALIDATION_PAUSE_MS: u64 = 15000;

/// Owner-read/write-only mode for persisted private keys.
pub const PRIVATE_KEY_FILE_MODE: u32 = 0o600;

/// TTL of the `_acme-challenge` TXT record.
pub const CHALLENGE_RECORD_TTL: u32 = 60;

} // verus!
