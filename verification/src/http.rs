//! The request/response cycle: one fixed route serves the encoded metrics
//! document, any other request line is answered with a 404, and a
//! request-time failure with a 500.

use vstd::prelude::*;

use crate::CmdArgs;
use crate::ExporterError;
use crate::exposition::encode_registry;
use crate::exposition::spec_doc;
use crate::prom_exporter::AuxDraws;
use crate::prom_exporter::MetricSample;
use crate::prom_exporter::create_metrics;
use crate::prom_exporter::create_ok;
use crate::prom_exporter::reg_wf;
use crate::spec_kind_of;

verus! {

/// The bytes of the one accepted request line, `GET /metrics HTTP/1.1` with
/// its line break.
pub open spec fn metrics_request_bytes() -> Seq<u8> {
    seq![
        71u8,
        69u8,
        84u8,
        32u8,
        47u8,
        109u8,
        101u8,
        116u8,
        114u8,
        105u8,
        99u8,
        115u8,
        32u8,
        72u8,
        84u8,
        84u8,
        80u8,
        47u8,
        49u8,
        46u8,
        49u8,
        13u8,
        10u8,
    ]
}

/// Whether the read buffer starts exactly with the accepted request line.
pub open spec fn spec_is_metrics_request(req: Seq<u8>) -> bool {
    req.len() >= 23 && req.take(23) == metrics_request_bytes()
}

/// The status line and headers that precede the document of a served scrape.
pub open spec fn ok_response_prefix() -> Seq<char> {
    "HTTP/1.1 200 OK\r\nContent-type: text/plain\r\n\r\n"@
}

/// The whole response to any request line other than the accepted one.
pub open spec fn notfound_response() -> Seq<char> {
    "HTTP/1.1 404 NOT FOUND\r\n\r\n404 not found"@
}

/// The response to a request whose scrape failed, carrying the failure
/// message.
pub open spec fn error_response(msg: Seq<char>) -> Seq<char> {
    "HTTP/1.1 500 Internal Server Error\r\n\r\n"@ + msg
}

/// The message of the failure that a scrape of this configuration reports.
pub open spec fn failure_message(args: CmdArgs) -> Seq<char> {
    if spec_kind_of(args.distribution@) is None {
        ExporterError::UnsupportedDistribution.spec_message()
    } else {
        ExporterError::InvalidParameter.spec_message()
    }
}

/// Checks the read buffer against the accepted request line.
pub fn is_metrics_request(buffer: &[u8]) -> (b: bool)
    ensures
        b == spec_is_metrics_request(buffer@),
{
    let expected: Vec<u8> = vec![
        71u8,
        69u8,
        84u8,
        32u8,
        47u8,
        109u8,
        101u8,
        116u8,
        114u8,
        105u8,
        99u8,
        115u8,
        32u8,
        72u8,
        84u8,
        84u8,
        80u8,
        47u8,
        49u8,
        46u8,
        49u8,
        13u8,
        10u8,
    ];
    proof {
        assert(expected@ =~= metrics_request_bytes());
    }
    if buffer.len() < 23 {
        return false;
    }
    for i in 0..23usize
        invariant
            buffer@.len() >= 23,
            expected@ =~= metrics_request_bytes(),
            expected@.len() == 23,
            forall|j: int| 0 <= j < i ==> buffer@[j] == metrics_request_bytes()[j],
    {
        if buffer[i] != expected[i] {
            assert(buffer@.take(23)[i as int] != metrics_request_bytes()[i as int]);
            return false;
        }
    }
    assert(buffer@.take(23) =~= metrics_request_bytes());
    true
}

/// Builds one scrape's document: a fresh registry, encoded.
pub fn get_metrics(args: &CmdArgs, aux: &AuxDraws) -> (r: Result<String, ExporterError>)
    requires
        aux.gauss_micros@.len() == args.elements,
        aux.chi_micros@.len() == args.elements,
    ensures
        r is Ok <==> create_ok(*args),
        r == Err::<String, ExporterError>(ExporterError::UnsupportedDistribution) <==> spec_kind_of(
            args.distribution@,
        ) is None,
        r matches Ok(doc) ==> exists|reg: Seq<MetricSample>|
            reg_wf(reg, *args, *aux) && doc@ == spec_doc(reg),
{
    match create_metrics(args, aux) {
        Ok(reg) => {
            let doc = encode_registry(&reg);
            proof {
                assert(reg_wf(reg.samples@, *args, *aux) && doc@ == spec_doc(reg.samples@));
            }
            Ok(doc)
        },
        Err(e) => Err(e),
    }
}

/// Answers one read buffer: the accepted request line is served the encoded
/// document under a 200 status; a scrape failure is reported under a 500
/// status; any other request line is answered 404.
pub fn handle_request(buffer: &[u8], args: &CmdArgs, aux: &AuxDraws) -> (response: String)
    requires
        aux.gauss_micros@.len() == args.elements,
        aux.chi_micros@.len() == args.elements,
    ensures
        !spec_is_metrics_request(buffer@) ==> response@ == notfound_response(),
        spec_is_metrics_request(buffer@) && !create_ok(*args) ==> response@ == error_response(
            failure_message(*args),
        ),
        spec_is_metrics_request(buffer@) && create_ok(*args) ==> exists|reg: Seq<MetricSample>|
            reg_wf(reg, *args, *aux) && response@ == ok_response_prefix() + spec_doc(reg),
{
    if is_metrics_request(buffer) {
        match get_metrics(args, aux) {
            Ok(doc) => {
                let mut response = String::from_str("HTTP/1.1 200 OK\r\nContent-type: text/plain\r\n\r\n");
                response.append(doc.as_str());
                proof {
                    let reg = choose|reg: Seq<MetricSample>|
                        reg_wf(reg, *args, *aux) && doc@ == spec_doc(reg);
                    assert(response@ == ok_response_prefix() + spec_doc(reg));
                }
                response
            },
            Err(e) => {
                let mut response = String::from_str("HTTP/1.1 500 Internal Server Error\r\n\r\n");
                response.append(e.message());
                response
            },
        }
    } else {
        String::from_str("HTTP/1.1 404 NOT FOUND\r\n\r\n404 not found")
    }
}

} // verus!
