use swyh_rs::control::ControlAction;
use swyh_rs::discovery::Dialect;
use swyh_rs::media::{didl_metadata, protocol_info, push_decimal, push_escaped, stream_url};
use swyh_rs::server::{route, Route};
use swyh_rs::soap::{soap_action, soap_body};
use swyh_rs::wav::AudioFormat;

fn ids() -> Vec<String> {
    vec!["stream/swyh.wav".to_string(), "stream/swyh.raw".to_string()]
}

#[test]
fn route_get_and_head_of_known_stream() {
    assert_eq!(
        route(&"GET".to_string(), &"/stream/swyh.raw".to_string(), &ids()),
        Route::Stream { index: 1, head_only: false }
    );
    assert_eq!(
        route(&"HEAD".to_string(), &"/stream/swyh.wav".to_string(), &ids()),
        Route::Stream { index: 0, head_only: true }
    );
}

#[test]
fn route_unknown_stream_is_not_found() {
    assert_eq!(route(&"GET".to_string(), &"/stream/other".to_string(), &ids()), Route::NotFound);
    assert_eq!(route(&"GET".to_string(), &"stream/swyh.wav".to_string(), &ids()), Route::NotFound);
    assert_eq!(route(&"GET".to_string(), &"/".to_string(), &vec![]), Route::NotFound);
}

#[test]
fn route_other_method_is_not_allowed() {
    assert_eq!(
        route(&"POST".to_string(), &"/stream/swyh.wav".to_string(), &ids()),
        Route::MethodNotAllowed
    );
    assert_eq!(route(&"get".to_string(), &"/x".to_string(), &ids()), Route::MethodNotAllowed);
}

#[test]
fn decimal_digits() {
    let mut s = String::from("n=");
    push_decimal(&mut s, 0);
    push_decimal(&mut s, 5901);
    push_decimal(&mut s, u32::MAX);
    assert_eq!(s, "n=059014294967295");
}

#[test]
fn escaping_markup() {
    let mut s = String::new();
    push_escaped(&mut s, "a<b>&\"c\" é");
    assert_eq!(s, "a&lt;b&gt;&amp;&quot;c&quot; é");
}

#[test]
fn stream_urls() {
    assert_eq!(stream_url("192.168.1.10", 5901, true), "http://192.168.1.10:5901/stream/swyh.wav");
    assert_eq!(stream_url("10.0.0.1", 80, false), "http://10.0.0.1:80/stream/swyh.raw");
}

#[test]
fn protocol_info_from_format() {
    let f = AudioFormat::new(44100, 2, 16, false).unwrap();
    assert_eq!(protocol_info(&f, true), "http-get:*:audio/wav:*");
    assert_eq!(protocol_info(&f, false), "http-get:*:audio/L16;rate=44100;channels=2:*");
}

#[test]
fn didl_metadata_escapes_its_values() {
    let d = didl_metadata("http://h/a&b", "http-get:*:audio/wav:*");
    assert!(d.contains("<res protocolInfo=\"http-get:*:audio/wav:*\">http://h/a&amp;b</res>"));
    assert!(d.starts_with("<DIDL-Lite "));
    assert!(d.ends_with("</DIDL-Lite>"));
}

#[test]
fn soap_set_uri_avtransport() {
    let b = soap_body(Dialect::AvTransport, ControlAction::SetTransportUri, "http://h:1/s", "<m>");
    assert!(b.starts_with("<?xml version=\"1.0\" encoding=\"utf-8\"?><s:Envelope"));
    assert!(b.contains(
        "<u:SetAVTransportURI xmlns:u=\"urn:schemas-upnp-org:service:AVTransport:1\"><InstanceID>0</InstanceID><CurrentURI>http://h:1/s</CurrentURI><CurrentURIMetaData>&lt;m&gt;</CurrentURIMetaData></u:SetAVTransportURI>"
    ));
    assert!(b.ends_with("</s:Body></s:Envelope>"));
}

#[test]
fn soap_play_and_stop_bodies() {
    let p = soap_body(Dialect::AvTransport, ControlAction::Play, "ignored", "ignored");
    assert!(p.contains("<u:Play xmlns:u=\"urn:schemas-upnp-org:service:AVTransport:1\"><InstanceID>0</InstanceID><Speed>1</Speed></u:Play>"));
    assert!(!p.contains("ignored"));
    let s = soap_body(Dialect::OpenHome, ControlAction::Stop, "u", "m");
    assert!(s.contains("<u:Stop xmlns:u=\"urn:av-openhome-org:service:Playlist:1\"></u:Stop>"));
    let i = soap_body(Dialect::OpenHome, ControlAction::SetTransportUri, "u", "m");
    assert!(i.contains("<u:Insert xmlns:u=\"urn:av-openhome-org:service:Playlist:1\"><AfterId>0</AfterId><Uri>u</Uri><Metadata>m</Metadata></u:Insert>"));
}

#[test]
fn soap_action_headers() {
    assert_eq!(
        soap_action(Dialect::AvTransport, ControlAction::SetTransportUri),
        "\"urn:schemas-upnp-org:service:AVTransport:1#SetAVTransportURI\""
    );
    assert_eq!(
        soap_action(Dialect::OpenHome, ControlAction::Play),
        "\"urn:av-openhome-org:service:Playlist:1#Play\""
    );
}
