//! Request envelopes of the control calls, for each of the two dialects:
//! the SOAPACTION header value and the SOAP body of each action.
use vstd::prelude::*;
use vstd::string::StringExecFns;
use crate::control::ControlAction;
use crate::discovery::Dialect;
use crate::media::{escape_spec, push_escaped};

verus! {

/// The service type that holds the transport actions of a dialect.
pub open spec fn service_type_spec(d: Dialect) -> Seq<char> {
    match d {
        Dialect::AvTransport => "urn:schemas-upnp-org:service:AVTransport:1"@,
        Dialect::OpenHome => "urn:av-openhome-org:service:Playlist:1"@,
    }
}

/// The dialect's name of an action: OpenHome sets the stream by inserting it
/// into the renderer's playlist.
pub open spec fn action_name_spec(d: Dialect, a: ControlAction) -> Seq<char> {
    match (d, a) {
        (Dialect::AvTransport, ControlAction::SetTransportUri) => "SetAVTransportURI"@,
        (Dialect::OpenHome, ControlAction::SetTransportUri) => "Insert"@,
        (_, ControlAction::Play) => "Play"@,
        (_, ControlAction::Stop) => "Stop"@,
    }
}

/// The arguments of an action; `uri` is the stream URL and `meta` the media
/// description handed with it, both escaped.
pub open spec fn action_args_spec(d: Dialect, a: ControlAction, uri: Seq<char>, meta: Seq<char>) -> Seq<char> {
    match (d, a) {
        (Dialect::AvTransport, ControlAction::SetTransportUri) => "<InstanceID>0</InstanceID><CurrentURI>"@
            + escape_spec(uri) + "</CurrentURI><CurrentURIMetaData>"@ + escape_spec(meta)
            + "</CurrentURIMetaData>"@,
        (Dialect::AvTransport, ControlAction::Play) => "<InstanceID>0</InstanceID><Speed>1</Speed>"@,
        (Dialect::AvTransport, ControlAction::Stop) => "<InstanceID>0</InstanceID>"@,
        (Dialect::OpenHome, ControlAction::SetTransportUri) => "<AfterId>0</AfterId><Uri>"@
            + escape_spec(uri) + "</Uri><Metadata>"@ + escape_spec(meta) + "</Metadata>"@,
        (Dialect::OpenHome, _) => Seq::empty(),
    }
}

/// The SOAP body of an action.
pub open spec fn soap_body_spec(d: Dialect, a: ControlAction, uri: Seq<char>, meta: Seq<char>) -> Seq<char> {
    "<?xml version=\"1.0\" encoding=\"utf-8\"?><s:Envelope xmlns:s=\"http://schemas.xmlsoap.org/soap/envelope/\" s:encodingStyle=\"http://schemas.xmlsoap.org/soap/encoding/\"><s:Body><u:"@
        + action_name_spec(d, a) + " xmlns:u=\""@ + service_type_spec(d) + "\">"@
        + action_args_spec(d, a, uri, meta) + "</u:"@ + action_name_spec(d, a)
        + "></s:Body></s:Envelope>"@
}

/// The SOAPACTION header value of an action: the quoted service type and
/// action name.
pub open spec fn soap_action_spec(d: Dialect, a: ControlAction) -> Seq<char> {
    "\""@ + service_type_spec(d) + "#"@ + action_name_spec(d, a) + "\""@
}

pub fn service_type(d: Dialect) -> (r: &'static str)
    ensures
        r@ == service_type_spec(d),
{
    match d {
        Dialect::AvTransport => "urn:schemas-upnp-org:service:AVTransport:1",
        Dialect::OpenHome => "urn:av-openhome-org:service:Playlist:1",
    }
}

pub fn action_name(d: Dialect, a: ControlAction) -> (r: &'static str)
    ensures
        r@ == action_name_spec(d, a),
{
    match (d, a) {
        (Dialect::AvTransport, ControlAction::SetTransportUri) => "SetAVTransportURI",
        (Dialect::OpenHome, ControlAction::SetTransportUri) => "Insert",
        (_, ControlAction::Play) => "Play",
        (_, ControlAction::Stop) => "Stop",
    }
}

fn push_args(body: &mut String, d: Dialect, a: ControlAction, uri: &str, meta: &str)
    ensures
        final(body)@ == old(body)@ + action_args_spec(d, a, uri@, meta@),
{
    match (d, a) {
        (Dialect::AvTransport, ControlAction::SetTransportUri) => {
            body.append("<InstanceID>0</InstanceID><CurrentURI>");
            push_escaped(body, uri);
            body.append("</CurrentURI><CurrentURIMetaData>");
            push_escaped(body, meta);
            body.append("</CurrentURIMetaData>");
        },
        (Dialect::AvTransport, ControlAction::Play) => {
            body.append("<InstanceID>0</InstanceID><Speed>1</Speed>");
        },
        (Dialect::AvTransport, ControlAction::Stop) => {
            body.append("<InstanceID>0</InstanceID>");
        },
        (Dialect::OpenHome, ControlAction::SetTransportUri) => {
            body.append("<AfterId>0</AfterId><Uri>");
            push_escaped(body, uri);
            body.append("</Uri><Metadata>");
            push_escaped(body, meta);
            body.append("</Metadata>");
        },
        (Dialect::OpenHome, _) => {},
    }
    assert(final(body)@ =~= old(body)@ + action_args_spec(d, a, uri@, meta@));
}

/// The SOAP body of action `a` in dialect `d`, pointing the renderer at
/// `uri` with media description `meta` where the action takes them.
pub fn soap_body(d: Dialect, a: ControlAction, uri: &str, meta: &str) -> (r: String)
    ensures
        r@ == soap_body_spec(d, a, uri@, meta@),
{
    let name = action_name(d, a);
    let mut body = String::from_str(
        "<?xml version=\"1.0\" encoding=\"utf-8\"?><s:Envelope xmlns:s=\"http://schemas.xmlsoap.org/soap/envelope/\" s:encodingStyle=\"http://schemas.xmlsoap.org/soap/encoding/\"><s:Body><u:",
    );
    body.append(name);
    body.append(" xmlns:u=\"");
    body.append(service_type(d));
    body.append("\">");
    push_args(&mut body, d, a, uri, meta);
    body.append("</u:");
    body.append(name);
    body.append("></s:Body></s:Envelope>");
    assert(body@ =~= soap_body_spec(d, a, uri@, meta@));
    body
}

/// The SOAPACTION header value of action `a` in dialect `d`.
pub fn soap_action(d: Dialect, a: ControlAction) -> (r: String)
    ensures
        r@ == soap_action_spec(d, a),
{
    let mut h = String::from_str("\"");
    h.append(service_type(d));
    h.append("#");
    h.append(action_name(d, a));
    h.append("\"");
    assert(h@ =~= soap_action_spec(d, a));
    h
}

} // verus!
