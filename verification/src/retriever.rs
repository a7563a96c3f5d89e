//! The retrieval pipeline: build the request URL, classify the response
//! status, and hand a successful payload to the archive extractor.
//!
//! The pipeline runs strictly forward. The network call itself is the
//! caller's: it sends `GET <url>` with the headers of
//! [`crate::headers::get_headers`], then hands the status and the drained
//! body to [`handle_response`].

use vstd::prelude::*;
use vstd::string::StringExecFns;

use crate::archive::{extract_archive, wellformed_zip};
use crate::errors::{ErrorKind, RetrieverError};
use crate::headers::{bearer_chars, valid_header_value};
use crate::numerals::{dec_digits, u16_decimal};

verus! {

/// The arguments of one retrieval: where to ask, how to authenticate, which
/// bundle to fetch, and where to unpack it.
pub struct ConfigRetrieverArgs {
    pub access_token: String,
    pub output_path: std::path::PathBuf,
    pub host: String,
    pub stage: String,
    pub environment: String,
    pub component: String,
}

/// The request URL: the host, then the fixed path and the three coordinates
/// interpolated into the query string with no escaping.
pub open spec fn request_url_chars(
    host: Seq<char>,
    stage: Seq<char>,
    environment: Seq<char>,
    component: Seq<char>,
) -> Seq<char> {
    host + "/config?stage="@ + stage + "&environment="@ + environment + "&component="@
        + component
}

/// Builds the URL the retrieval asks, by straightforward interpolation.
pub fn build_request_url(args: &ConfigRetrieverArgs) -> (r: String)
    ensures
        r@ == request_url_chars(args.host@, args.stage@, args.environment@, args.component@),
{
    let mut url = args.host.clone();
    url.append("/config?stage=");
    url.append(args.stage.as_str());
    url.append("&environment=");
    url.append(args.environment.as_str());
    url.append("&component=");
    url.append(args.component.as_str());
    proof {
        assert(url@ =~= request_url_chars(
            args.host@,
            args.stage@,
            args.environment@,
            args.component@,
        ));
    }
    url
}

/// The verdict on a response status: only 200 proceeds; 401 means the token
/// was rejected; 400 and every unrecognized code are unexpected.
pub open spec fn status_verdict(status: u16) -> Result<(), ErrorKind> {
    if status == 401 {
        Err(ErrorKind::InvalidAccessToken)
    } else if status == 400 {
        Err(ErrorKind::UnexpectedError)
    } else if status == 200 {
        Ok(())
    } else {
        Err(ErrorKind::UnexpectedError)
    }
}

/// Maps the response status to the retrieval's outcome, with the message
/// each failure carries; an unrecognized code is reported with its literal
/// numeric value.
pub fn classify_status(status: u16) -> (r: Result<(), RetrieverError>)
    ensures
        r is Ok <==> status == 200,
        r matches Err(e) ==> e.kind == status_verdict(status)->Err_0,
        status == 401 ==> (r matches Err(e) && e.message@ == "invalid access token"@),
        status == 400 ==> (r matches Err(e) && e.message@ == "unexpected error: "@),
        status != 200 && status != 400 && status != 401 ==> (r matches Err(e) && e.message@
            == "unexpected status code received: "@ + dec_digits(status as nat)),
{
    match status {
        401u16 => Err(
            RetrieverError {
                kind: ErrorKind::InvalidAccessToken,
                message: "invalid access token".to_owned(),
            },
        ),
        400u16 => Err(
            RetrieverError {
                kind: ErrorKind::UnexpectedError,
                message: "unexpected error: ".to_owned(),
            },
        ),
        200u16 => Ok(()),
        _ => {
            let message = "unexpected status code received: ".to_owned().concat(
                u16_decimal(status).as_str(),
            );
            Err(RetrieverError { kind: ErrorKind::UnexpectedError, message })
        },
    }
}

/// The verdict on a full response: the status verdict first; a successful
/// status then stands or falls with the payload being a well-formed archive.
pub open spec fn response_verdict(status: u16, body: Seq<u8>) -> Result<(), ErrorKind> {
    match status_verdict(status) {
        Err(kind) => Err(kind),
        Ok(()) => if wellformed_zip(body) {
            Ok(())
        } else {
            Err(ErrorKind::DecompressFailure)
        },
    }
}

/// Classifies the response and, only when the status is 200, interprets the
/// body as a zip archive and extracts it under the output directory. The
/// extractor is the sole stage that touches disk, and it may still fail
/// there on a well-formed archive.
pub fn handle_response(status: u16, body: Vec<u8>, output_path: &std::path::PathBuf) -> (r: Result<
    (),
    RetrieverError,
>)
    ensures
        r is Ok ==> response_verdict(status, body@) is Ok,
        response_verdict(status, body@) matches Err(kind) ==> (r matches Err(e) && e.kind
            == kind),
        response_verdict(status, body@) is Ok ==> (r matches Err(e) ==> e.kind
            == ErrorKind::DecompressFailure),
        status == 401 ==> (r matches Err(e) && e.message@ == "invalid access token"@),
        status == 400 ==> (r matches Err(e) && e.message@ == "unexpected error: "@),
        status != 200 && status != 400 && status != 401 ==> (r matches Err(e) && e.message@
            == "unexpected status code received: "@ + dec_digits(status as nat)),
{
    match classify_status(status) {
        Err(e) => Err(e),
        Ok(()) => extract_archive(&body, output_path),
    }
}

/// Law: every stage of the pipeline is a pure function of its arguments.
/// Two retrievals with the same coordinates and token build the same URL and
/// the same authorization header, and against an unchanged response they
/// reach the same verdict and hand the same bytes to the extractor — so a
/// repeated successful retrieval overwrites the same files. What the
/// extractor then does on disk is beyond this model.
pub proof fn lemma_retrieval_idempotent(
    a: ConfigRetrieverArgs,
    b: ConfigRetrieverArgs,
    status_a: u16,
    status_b: u16,
    body_a: Seq<u8>,
    body_b: Seq<u8>,
)
    requires
        a.host@ == b.host@,
        a.stage@ == b.stage@,
        a.environment@ == b.environment@,
        a.component@ == b.component@,
        a.access_token@ == b.access_token@,
        status_a == status_b,
        body_a == body_b,
    ensures
        request_url_chars(a.host@, a.stage@, a.environment@, a.component@) == request_url_chars(
            b.host@,
            b.stage@,
            b.environment@,
            b.component@,
        ),
        bearer_chars(a.access_token@) == bearer_chars(b.access_token@),
        valid_header_value(a.access_token@) == valid_header_value(b.access_token@),
        response_verdict(status_a, body_a) == response_verdict(status_b, body_b),
{
}

} // verus!
