//! SOAP envelope construction for the enterprise interface.
//!
//! The enterprise interface speaks SOAP over HTTP. An envelope carries a
//! message identifier, the action, and the request body; a stateful session
//! adds a session header with the session identifier, sequence number and
//! security token. Only the construction lives here: the enterprise
//! response parsing is not implemented, and the capability is a documented
//! stub.

use vstd::prelude::*;
use crate::text::{spec_decimal, u32_to_string};

verus! {

/// Enterprise authentication type.
#[derive(Debug, Clone)]
pub enum EnterpriseAuth {
    /// Stateless access-point token.
    Wsap(String),
    /// Stateful session authentication.
    Session { session_id: String, sequence_number: u32, security_token: String },
}

/// SOAP envelope for one enterprise request.
#[derive(Debug, Clone)]
pub struct SoapEnvelope {
    pub session_id: Option<String>,
    pub sequence_number: Option<u32>,
    pub security_token: Option<String>,
    pub message_id: String,
    pub action: String,
    pub body: String,
}

/// Relies on `uuid::Uuid::new_v4` and its `Display` form: a random
/// identifier rendered in the hyphenated format, which is 36 characters.
/// The value is random; nothing more is assumed of it.
#[verifier::external_body]
fn new_message_id() -> (id: String)
    ensures
        id@.len() == 36,
{
    uuid::Uuid::new_v4().to_string()
}

impl SoapEnvelope {
    /// Create an envelope without a session, for stateless calls.
    pub fn new_stateless(action: &str, body: &str) -> (envelope: SoapEnvelope)
        ensures
            envelope.session_id is None,
            envelope.sequence_number is None,
            envelope.security_token is None,
            envelope.message_id@.len() == 36,
            envelope.action@ == action@,
            envelope.body@ == body@,
    {
        SoapEnvelope {
            session_id: None,
            sequence_number: None,
            security_token: None,
            message_id: new_message_id(),
            action: String::from_str(action),
            body: String::from_str(body),
        }
    }

    /// Create an envelope carrying a session header.
    pub fn new_with_session(
        action: &str,
        body: &str,
        session_id: &str,
        sequence_number: u32,
        security_token: &str,
    ) -> (envelope: SoapEnvelope)
        ensures
            envelope.session_id matches Some(s) && s@ == session_id@,
            envelope.sequence_number == Some(sequence_number),
            envelope.security_token matches Some(t) && t@ == security_token@,
            envelope.message_id@.len() == 36,
            envelope.action@ == action@,
            envelope.body@ == body@,
    {
        SoapEnvelope {
            session_id: Some(String::from_str(session_id)),
            sequence_number: Some(sequence_number),
            security_token: Some(String::from_str(security_token)),
            message_id: new_message_id(),
            action: String::from_str(action),
            body: String::from_str(body),
        }
    }

    /// The session header of the envelope: present exactly when the session
    /// identifier, sequence number and security token all are.
    pub open spec fn spec_session_header(self) -> Seq<char> {
        match self.session_id {
            Some(sid) => match self.sequence_number {
                Some(seq_no) => match self.security_token {
                    Some(token) => SESSION_OPEN@ + (sid@ + (SESSION_SEQ@ + (spec_decimal(
                        seq_no as nat,
                    ) + (SESSION_TOKEN@ + (token@ + SESSION_CLOSE@))))),
                    None => Seq::empty(),
                },
                None => Seq::empty(),
            },
            None => Seq::empty(),
        }
    }

    /// The envelope's full XML document: the fixed head, the session header
    /// when a session is set, and the body framed by the fixed middle and
    /// tail.
    pub open spec fn spec_xml(self) -> Seq<char> {
        ENVELOPE_HEAD@ + (self.spec_session_header() + (ENVELOPE_MID@ + (self.body@
            + ENVELOPE_TAIL@)))
    }

    /// Build the complete SOAP XML envelope.
    pub fn to_xml(&self) -> (xml: String)
        ensures
            xml@ == self.spec_xml(),
    {
        let session_header: String = match (&self.session_id, self.sequence_number) {
            (Some(sid), Some(seq_no)) => match &self.security_token {
                Some(token) => {
                    let seq_text = u32_to_string(seq_no);
                    prepend(
                        SESSION_OPEN,
                        prepend(
                            sid.as_str(),
                            prepend(
                                SESSION_SEQ,
                                prepend(
                                    seq_text.as_str(),
                                    prepend(SESSION_TOKEN, prepend(token.as_str(), String::from_str(SESSION_CLOSE))),
                                ),
                            ),
                        ),
                    )
                },
                None => String::new(),
            },
            _ => String::new(),
        };
        let xml = prepend(
            ENVELOPE_HEAD,
            prepend(
                session_header.as_str(),
                prepend(ENVELOPE_MID, prepend(self.body.as_str(), String::from_str(ENVELOPE_TAIL))),
            ),
        );
        proof {
            assert(session_header@ == self.spec_session_header());
        }
        xml
    }
}

/// Prefix a string onto a tail.
fn prepend(prefix: &str, tail: String) -> (joined: String)
    ensures
        joined@ == prefix@ + tail@,
{
    let joined = String::from_str(prefix);
    joined.concat(tail.as_str())
}

/// Opening of the session header, up to the session identifier.
pub const SESSION_OPEN: &'static str = "\n    <awsse:Session TransactionStatusCode=\"InSeries\">\n      <awsse:SessionId>";

/// Between the session identifier and the sequence number.
pub const SESSION_SEQ: &'static str = "</awsse:SessionId>\n      <awsse:SequenceNumber>";

/// Between the sequence number and the security token.
pub const SESSION_TOKEN: &'static str = "</awsse:SequenceNumber>\n      <awsse:SecurityToken>";

/// Closing of the session header.
pub const SESSION_CLOSE: &'static str = "</awsse:SecurityToken>\n    </awsse:Session>";

/// Head of every envelope, up to the optional session header.
pub const ENVELOPE_HEAD: &'static str = "<?xml version=\"1.0\" encoding=\"UTF-8\"?>\n<soap:Envelope xmlns:soap=\"http://schemas.xmlsoap.org/soap/envelope/\"\n               xmlns:xsi=\"http://www.w3.org/2001/XMLSchema-instance\"\n               xmlns:xsd=\"http://www.w3.org/2001/XMLSchema\"\n               xmlns:awsse=\"http://xml.amadeus.com/2010/06/Session_v3\">\n  <soap:Header>\n    <awsse:AMA_SecurityHostedUser>\n      <awsse:UserID AgentDutyCode=\"SU\" PseudoCityCode=\"\"/>\n    </awsse:AMA_SecurityHostedUser>";

/// Between the session header and the body.
pub const ENVELOPE_MID: &'static str = "\n  </soap:Header>\n  <soap:Body>\n    ";

/// Tail of every envelope.
pub const ENVELOPE_TAIL: &'static str = "\n  </soap:Body>\n</soap:Envelope>";

} // verus!
