//! The verification client: immutable configuration and request building.
//!
//! The client holds the service base URL, the subscription secret and the
//! optional opaque data, set once before use. Each verification call
//! derives the device identity afresh, builds a signed payload with the
//! current time, and leaves the single HTTP round trip to the caller.

use vstd::prelude::*;
use vstd::string::StringExecFns;

use crate::hexfmt::is_hex_digit_char;
use crate::payload::{body_text, build_body, PreparedRequest};

verus! {

/// Relies on `machineid_rs::IdBuilder` with the CPUID, SystemID and
/// DriveSerial components and SHA-256 encryption: a fingerprint of this
/// machine, keyed with the salt. The SHA-256 path renders a 32-byte HMAC
/// with lowercase hex digits, so a successful result is 64 such digits;
/// which digits depends on the machine, so nothing more is claimed. It
/// fails when a hardware identifier cannot be read.
#[verifier::external_body]
fn machine_identity(salt: &str) -> (r: Result<String, String>)
    ensures
        r matches Ok(id) ==> id@.len() == 64 && (forall|i: int|
            0 <= i < id@.len() ==> is_hex_digit_char(#[trigger] id@[i])),
{
    let mut builder = machineid_rs::IdBuilder::new(machineid_rs::Encryption::SHA256);
    builder.add_component(machineid_rs::HWIDComponent::CPUID);
    builder.add_component(machineid_rs::HWIDComponent::SystemID);
    builder.add_component(machineid_rs::HWIDComponent::DriveSerial);
    match builder.build(salt) {
        Ok(id) => Ok(id),
        Err(e) => Err(format!("{}", e)),
    }
}

/// Relies on `chrono::Utc::now`, converted to Unix seconds. The result
/// depends on the clock, so nothing is claimed of it.
#[verifier::external_body]
fn current_unix_timestamp() -> (r: i64) {
    chrono::Utc::now().timestamp()
}

/// The RFC 2822 rendering of a Unix instant, as chrono writes it in UTC:
/// a function of the second alone.
pub uninterp spec fn rfc2822_of(t: int) -> Seq<char>;

/// Relies on `chrono::Utc::now` and `DateTime::to_rfc2822`: the current
/// UTC time rendered per RFC 2822 for the `Date` header. Which instant is
/// sampled depends on the clock, so all that is claimed is that the
/// result is the RFC 2822 rendering of some instant.
#[verifier::external_body]
fn current_date_rfc2822() -> (r: String)
    ensures
        exists|t: int| r@ == rfc2822_of(t),
{
    chrono::Utc::now().to_rfc2822()
}

/// A client for the ARPStore activation service: the service base URL,
/// the subscription secret (credential and signing key in one) and the
/// optional opaque data, immutable after construction.
#[derive(Debug)]
pub struct Client {
    /// The subscription secret: the `X-API-KEY` header and the signing salt.
    pub subscription_key: String,
    /// Opaque caller data included in every signed payload; empty by default.
    pub data: String,
    /// The service base URL.
    pub arp_url: String,
}

impl Client {
    /// Create a new client for the service at `arp_url`, authenticated
    /// with `subscription_key`.
    pub fn new(arp_url: &str, subscription_key: &str) -> (r: Self)
        ensures
            r.arp_url@ == arp_url@,
            r.subscription_key@ == subscription_key@,
            r.data@ == Seq::<char>::empty(),
    {
        Client {
            subscription_key: String::from_str(subscription_key),
            data: String::new(),
            arp_url: String::from_str(arp_url),
        }
    }

    /// Attach opaque data to every payload; the default is the empty string.
    pub fn data(self, data: &str) -> (r: Self)
        ensures
            r.data@ == data@,
            r.subscription_key@ == self.subscription_key@,
            r.arp_url@ == self.arp_url@,
    {
        Client {
            subscription_key: self.subscription_key,
            data: String::from_str(data),
            arp_url: self.arp_url,
        }
    }

    /// The activation-check endpoint under the configured base URL.
    fn endpoint_url(&self) -> (r: String)
        ensures
            r@ == self.arp_url@ + "/activation_check"@,
    {
        let mut url = self.arp_url.clone();
        url.append("/activation_check");
        url
    }

    /// Assemble the request for one given timestamp and `Date` header
    /// value: the endpoint URL, the secret as `X-API-KEY`, and the body
    /// signed over this very timestamp.
    pub fn prepare_request(&self, device_hash: &str, timestamp: i64, date: &str) -> (r:
        PreparedRequest)
        ensures
            r.url@ == self.arp_url@ + "/activation_check"@,
            r.api_key@ == self.subscription_key@,
            r.date@ == date@,
            r.body@ == body_text(device_hash@, self.data@, timestamp as int, self.subscription_key@),
    {
        PreparedRequest {
            url: self.endpoint_url(),
            api_key: self.subscription_key.clone(),
            date: String::from_str(date),
            body: build_body(
                self.subscription_key.as_str(),
                device_hash,
                self.data.as_str(),
                timestamp,
            ),
        }
    }

    /// Assemble the request with the current time: the timestamp is
    /// sampled once, the body is signed over that one sample, and the
    /// `Date` header is the RFC 2822 rendering of an instant.
    pub fn build_request(&self, device_hash: &str) -> (r: PreparedRequest)
        ensures
            r.url@ == self.arp_url@ + "/activation_check"@,
            r.api_key@ == self.subscription_key@,
            exists|t: i64|
                r.body@ == body_text(
                    device_hash@,
                    self.data@,
                    t as int,
                    self.subscription_key@,
                ),
            exists|t: int| r.date@ == rfc2822_of(t),
    {
        let t = current_unix_timestamp();
        let date = current_date_rfc2822();
        let r = self.prepare_request(device_hash, t, date.as_str());
        proof {
            assert(r.body@ == body_text(device_hash@, self.data@, t as int, self.subscription_key@));
            let t0 = choose|ti: int| date@ == rfc2822_of(ti);
            assert(r.date@ == rfc2822_of(t0));
        }
        r
    }

    /// Derive this machine's identity, salted with the subscription
    /// secret: on success a 64-digit lowercase hexadecimal fingerprint.
    /// Which fingerprint depends on the machine; failure means a
    /// hardware identifier could not be read, which the service treats
    /// as an unrecoverable condition.
    pub fn device_identity(&self) -> (r: Result<String, String>)
        ensures
            r matches Ok(id) ==> id@.len() == 64 && (forall|i: int|
                0 <= i < id@.len() ==> is_hex_digit_char(#[trigger] id@[i])),
    {
        machine_identity(self.subscription_key.as_str())
    }
}

} // verus!
