//! Reporting a reading to the logging service.
//!
//! The crate composes the request and judges the answer; sending the request
//! is the driver's part. The answer is judged in two steps, the status first:
//! a body can be judged only once its status was accepted as a success,
//! because the service reports its own errors inside a body that comes with
//! status 200.

use vstd::prelude::*;
use vstd::string::*;
use crate::dose::DoseRate;
use crate::error::PublishError;
use crate::reading::CountReading;
use crate::text::{append_decimal, contains, contains_text, decimal, occurs_at};

verus! {

/// How long the driver may take to connect, in milliseconds.
pub const CONNECT_TIMEOUT_MILLIS: u64 = 10000;

/// How long the driver may wait for the answer, in milliseconds.
pub const READ_TIMEOUT_MILLIS: u64 = 2000;

/// A reading to be reported, with the identifiers it is reported under.
#[derive(Clone, Debug, PartialEq, Eq)]
pub struct PublishRequest {
    pub account_id: String,
    pub device_id: String,
    pub count: CountReading,
    pub dose: DoseRate,
}

/// An HTTP GET for the driver to issue.
#[derive(Clone, Debug, PartialEq, Eq)]
pub struct HttpGet {
    pub url: String,
    pub connect_timeout_millis: u64,
    pub read_timeout_millis: u64,
}

/// The text that a body must hold for the reading to count as logged.
pub open spec fn success_marker() -> Seq<char> {
    "OK.ERR0"@
}

/// Whether an HTTP status is a success: 200 to 299.
pub open spec fn is_success(status: u16) -> bool {
    200 <= status <= 299
}

/// The address a reading is reported to: the service's logging page, with the
/// account, the device, the count and the dose rate as its four parameters.
/// The identifiers and the dose rate go in as they are.
pub open spec fn url_text(
    account_id: Seq<char>,
    device_id: Seq<char>,
    count: u16,
    dose_text: Seq<char>,
) -> Seq<char> {
    "http://www.GMCmap.com/log2.asp?AID="@ + account_id + "&GID="@ + device_id + "&CPM="@
        + decimal(count as nat) + "&uSV="@ + dose_text
}

/// Composes the address for a reading whose dose rate is already written out.
pub fn request_url(account_id: &str, device_id: &str, count: CountReading, dose_text: &str) -> (url:
    String)
    ensures
        url@ == url_text(account_id@, device_id@, count.cpm, dose_text@),
{
    let mut url = String::from_str("http://www.GMCmap.com/log2.asp?AID=");
    url.append(account_id);
    url.append("&GID=");
    url.append(device_id);
    url.append("&CPM=");
    append_decimal(&mut url, count.cpm as u32);
    url.append("&uSV=");
    url.append(dose_text);
    assert(url@ =~= url_text(account_id@, device_id@, count.cpm, dose_text@));
    url
}

impl PublishRequest {
    /// The address this reading is reported to.
    pub open spec fn url(self) -> Seq<char> {
        url_text(self.account_id@, self.device_id@, self.count.cpm, self.dose.text())
    }

    /// The request that reports this reading: a GET of its address, with
    /// 10 s to connect and 2 s to read.
    pub fn to_get(&self) -> (get: HttpGet)
        ensures
            get.url@ == self.url(),
            get.connect_timeout_millis == 10000,
            get.read_timeout_millis == 2000,
    {
        let dose_text = self.dose.to_text();
        HttpGet {
            url: request_url(
                self.account_id.as_str(),
                self.device_id.as_str(),
                self.count,
                dose_text.as_str(),
            ),
            connect_timeout_millis: CONNECT_TIMEOUT_MILLIS,
            read_timeout_millis: READ_TIMEOUT_MILLIS,
        }
    }
}

/// An answer whose status was a success. Only with one of these can a body be
/// judged, and only [`check_status`] hands them out.
#[derive(Clone, Copy, Debug, PartialEq, Eq)]
pub struct Accepted {
    status: u16,
}

impl Accepted {
    #[verifier::type_invariant]
    spec fn well_formed(self) -> bool {
        is_success(self.status)
    }

    /// The status that was accepted.
    pub closed spec fn code(self) -> u16 {
        self.status
    }

    /// The status that was accepted: always a success.
    pub fn status(&self) -> (status: u16)
        ensures
            status == self.code(),
            is_success(status),
    {
        proof {
            use_type_invariant(self);
        }
        self.status
    }

    /// Judges the body that came with the accepted status. The reading is
    /// logged if and only if the body holds the success marker; a body without
    /// it is the service's error and is handed back as it came.
    pub fn check_body(self, body: String) -> (verdict: Result<(), PublishError>)
        ensures
            contains(body@, success_marker()) <==> verdict is Ok,
            !contains(body@, success_marker()) ==> verdict == Err::<(), PublishError>(
                PublishError::RemoteError { body },
            ),
    {
        if contains_text(body.as_str(), "OK.ERR0") {
            Ok(())
        } else {
            Err(PublishError::RemoteError { body })
        }
    }
}

/// Judges the status of the answer. A success status lets the driver go on to
/// read the body; any other ends the report with a transport error that
/// carries the status and its text, and leaves nothing to judge a body with.
pub fn check_status(status: u16, status_text: &str) -> (verdict: Result<Accepted, PublishError>)
    ensures
        is_success(status) <==> verdict is Ok,
        is_success(status) ==> verdict->Ok_0.code() == status,
        !is_success(status) ==> verdict->Err_0 is Transport && verdict->Err_0->status == status
            && verdict->Err_0->status_text@ == status_text@,
{
    if 200 <= status && status <= 299 {
        Ok(Accepted { status })
    } else {
        Err(PublishError::Transport { status, status_text: String::from_str(status_text) })
    }
}

/// A body that is the success marker and nothing else is a success, and so is
/// any body with the marker somewhere in it.
pub proof fn lemma_marker_is_found(before: Seq<char>, after: Seq<char>)
    ensures
        contains(success_marker(), success_marker()),
        contains(before + success_marker() + after, success_marker()),
{
    let marker = success_marker();
    assert(marker.subrange(0, marker.len() as int) =~= marker);
    assert(occurs_at(marker, marker, 0));
    let body = before + marker + after;
    assert(body.subrange(before.len() as int, (before.len() + marker.len()) as int) =~= marker);
    assert(occurs_at(body, marker, before.len() as int));
}

/// A body shorter than the marker is never a success; nor is a body, however
/// long, in which the marker's first character does not occur.
pub proof fn lemma_marker_is_missed(body: Seq<char>)
    requires
        body.len() < 7 || !body.contains('O'),
    ensures
        !contains(body, success_marker()),
{
    reveal_strlit("OK.ERR0");
    let marker = success_marker();
    assert forall|at: int| !occurs_at(body, marker, at) by {
        if occurs_at(body, marker, at) {
            assert(body.subrange(at, at + 7)[0] == marker[0]);
            assert(body[at] == 'O');
        }
    }
}

} // verus!
