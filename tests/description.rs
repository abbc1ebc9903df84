use swyh_rs::description::parse_description;
use swyh_rs::discovery::{unique_locations, Dialect, DiscoveryRegistry};

const AV_DOC: &str = "<?xml version=\"1.0\"?><root><device><deviceType>urn:schemas-upnp-org:device:MediaRenderer:1</deviceType><friendlyName>Kitchen</friendlyName><modelName>AVR 1</modelName><UDN>uuid:av-1</UDN><serviceList><service><serviceType>urn:schemas-upnp-org:service:RenderingControl:1</serviceType><controlURL>/rc/control</controlURL></service><service><serviceType>urn:schemas-upnp-org:service:AVTransport:1</serviceType><controlURL>/avt/control</controlURL></service></serviceList></device></root>";

const OH_DOC: &str = "<root><device><friendlyName>Lounge</friendlyName><modelName>Streamer</modelName><UDN>uuid:oh-1</UDN><serviceList><service><serviceType>urn:schemas-upnp-org:service:AVTransport:1</serviceType><controlURL>/avt</controlURL></service><service><serviceType>urn:av-openhome-org:service:Playlist:1</serviceType><controlURL>/playlist/control</controlURL></service></serviceList></device></root>";

#[test]
fn parses_avtransport_description() {
    let r = parse_description(AV_DOC, &"http://10.0.0.4:49152/desc.xml".to_string(), &"10.0.0.4".to_string())
        .unwrap();
    assert_eq!(r.dev_id, "uuid:av-1");
    assert_eq!(r.dev_name, "Kitchen");
    assert_eq!(r.dev_model, "AVR 1");
    assert_eq!(r.dialect, Dialect::AvTransport);
    assert_eq!(r.control_url, "/avt/control");
    assert_eq!(r.remote_addr, "10.0.0.4");
    assert_eq!(r.location, "http://10.0.0.4:49152/desc.xml");
}

#[test]
fn openhome_preferred_when_offered() {
    let r = parse_description(OH_DOC, &"http://h/d".to_string(), &"h".to_string()).unwrap();
    assert_eq!(r.dialect, Dialect::OpenHome);
    assert_eq!(r.control_url, "/playlist/control");
}

#[test]
fn malformed_descriptions_are_rejected() {
    let loc = "http://h/d".to_string();
    let rem = "h".to_string();
    assert!(parse_description("", &loc, &rem).is_none());
    assert!(parse_description("<root><UDN>uuid:x</UDN>", &loc, &rem).is_none());
    let no_service = AV_DOC.replace("urn:schemas-upnp-org:service:AVTransport:1", "urn:other");
    assert!(parse_description(&no_service, &loc, &rem).is_none());
    let unclosed = AV_DOC.replace("</friendlyName>", "");
    assert!(parse_description(&unclosed, &loc, &rem).is_none());
}

#[test]
fn malformed_responder_beside_valid_one_in_a_cycle() {
    let loc = "http://h/d".to_string();
    let found = vec![
        parse_description("<garbage", &loc, &"10.0.0.1".to_string()),
        parse_description(AV_DOC, &loc, &"10.0.0.4".to_string()),
    ];
    let mut reg = DiscoveryRegistry::new();
    let fresh = reg.absorb(found);
    assert_eq!(fresh.len(), 1);
    assert_eq!(fresh[0].dev_id, "uuid:av-1");
}

#[test]
fn description_urls_fetched_once() {
    let urls: Vec<String> = vec!["a".into(), "b".into(), "a".into(), "c".into(), "b".into()];
    assert_eq!(unique_locations(&urls), vec!["a".to_string(), "b".to_string(), "c".to_string()]);
    assert_eq!(unique_locations(&vec![]), Vec::<String>::new());
}

#[test]
fn renderer_found_by_remote_address() {
    let mut reg = DiscoveryRegistry::new();
    let loc = "http://h/d".to_string();
    reg.absorb(vec![
        parse_description(AV_DOC, &loc, &"10.0.0.4".to_string()),
        parse_description(OH_DOC, &loc, &"10.0.0.5".to_string()),
    ]);
    assert_eq!(reg.by_remote(&"10.0.0.5".to_string()).unwrap().dev_id, "uuid:oh-1");
    assert!(reg.by_remote(&"10.0.0.9".to_string()).is_none());
}
