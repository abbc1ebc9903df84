//! What a renderer is told about the stream: its URL, the protocol info
//! derived from the audio format, and the DIDL-Lite metadata carrying both,
//! escaped for embedding in a control request.
use vstd::prelude::*;
use vstd::string::{StrSliceExecFns, StringExecFns};
use crate::wav::AudioFormat;

verus! {

pub open spec fn digit_spec(d: nat) -> char {
    if d == 0 { '0' }
    else if d == 1 { '1' }
    else if d == 2 { '2' }
    else if d == 3 { '3' }
    else if d == 4 { '4' }
    else if d == 5 { '5' }
    else if d == 6 { '6' }
    else if d == 7 { '7' }
    else if d == 8 { '8' }
    else { '9' }
}

/// Decimal digits of `n`, without leading zeros.
pub open spec fn decimal_spec(n: nat) -> Seq<char>
    decreases n,
{
    if n < 10 {
        seq![digit_spec(n)]
    } else {
        decimal_spec(n / 10).push(digit_spec(n % 10))
    }
}

fn digit(d: u32) -> (r: &'static str)
    requires
        d < 10,
    ensures
        r@ == seq![digit_spec(d as nat)],
{
    proof {
        reveal_strlit("0");
        reveal_strlit("1");
        reveal_strlit("2");
        reveal_strlit("3");
        reveal_strlit("4");
        reveal_strlit("5");
        reveal_strlit("6");
        reveal_strlit("7");
        reveal_strlit("8");
        reveal_strlit("9");
    }
    if d == 0 { "0" }
    else if d == 1 { "1" }
    else if d == 2 { "2" }
    else if d == 3 { "3" }
    else if d == 4 { "4" }
    else if d == 5 { "5" }
    else if d == 6 { "6" }
    else if d == 7 { "7" }
    else if d == 8 { "8" }
    else { "9" }
}

/// Appends the decimal digits of `n`.
pub fn push_decimal(s: &mut String, n: u32)
    ensures
        final(s)@ == old(s)@ + decimal_spec(n as nat),
    decreases n,
{
    if n >= 10 {
        push_decimal(s, n / 10);
    }
    s.append(digit(n % 10));
    assert(final(s)@ =~= old(s)@ + decimal_spec(n as nat));
}

pub open spec fn escape_char_spec(c: char) -> Seq<char> {
    if c == '<' {
        "&lt;"@
    } else if c == '>' {
        "&gt;"@
    } else if c == '&' {
        "&amp;"@
    } else if c == '"' {
        "&quot;"@
    } else {
        seq![c]
    }
}

/// `s` with the XML markup characters replaced by entities.
pub open spec fn escape_spec(s: Seq<char>) -> Seq<char>
    decreases s.len(),
{
    if s.len() == 0 {
        Seq::empty()
    } else {
        escape_spec(s.drop_last()) + escape_char_spec(s.last())
    }
}

/// Appends `text` escaped for use inside an XML element or attribute.
pub fn push_escaped(out: &mut String, text: &str)
    ensures
        final(out)@ == old(out)@ + escape_spec(text@),
{
    let n = text.unicode_len();
    let mut i: usize = 0;
    while i < n
        invariant
            n == text@.len(),
            i <= n,
            out@ == old(out)@ + escape_spec(text@.take(i as int)),
        decreases n - i,
    {
        let c = text.get_char(i);
        let ghost prev = out@;
        if c == '<' {
            out.append("&lt;");
        } else if c == '>' {
            out.append("&gt;");
        } else if c == '&' {
            out.append("&amp;");
        } else if c == '"' {
            out.append("&quot;");
        } else {
            out.append(text.substring_char(i, i + 1));
            assert(text@.subrange(i as int, i as int + 1) =~= seq![c]);
        }
        assert(text@.take(i as int + 1).drop_last() =~= text@.take(i as int));
        assert(out@ =~= prev + escape_char_spec(c));
        i = i + 1;
    }
    assert(text@.take(n as int) =~= text@);
}

/// The URL of the stream served at `addr`:`port`, as a WAV file or as raw
/// PCM.
pub open spec fn stream_url_spec(addr: Seq<char>, port: u16, wav: bool) -> Seq<char> {
    "http://"@ + addr + ":"@ + decimal_spec(port as nat) + (if wav {
        "/stream/swyh.wav"@
    } else {
        "/stream/swyh.raw"@
    })
}

pub fn stream_url(addr: &str, port: u16, wav: bool) -> (r: String)
    ensures
        r@ == stream_url_spec(addr@, port, wav),
{
    let mut r = String::from_str("http://");
    r.append(addr);
    r.append(":");
    push_decimal(&mut r, port as u32);
    if wav {
        r.append("/stream/swyh.wav");
    } else {
        r.append("/stream/swyh.raw");
    }
    assert(r@ =~= stream_url_spec(addr@, port, wav));
    r
}

/// The protocol info of the stream: a WAV file, or raw big-endian PCM
/// declared with its rate and channel count.
pub open spec fn protocol_info_spec(f: AudioFormat, wav: bool) -> Seq<char> {
    if wav {
        "http-get:*:audio/wav:*"@
    } else {
        "http-get:*:audio/L"@ + decimal_spec(f.bits_per_sample as nat) + ";rate="@ + decimal_spec(
            f.sample_rate as nat,
        ) + ";channels="@ + decimal_spec(f.channels as nat) + ":*"@
    }
}

pub fn protocol_info(f: &AudioFormat, wav: bool) -> (r: String)
    ensures
        r@ == protocol_info_spec(*f, wav),
{
    if wav {
        return String::from_str("http-get:*:audio/wav:*");
    }
    let mut r = String::from_str("http-get:*:audio/L");
    push_decimal(&mut r, f.bits_per_sample as u32);
    r.append(";rate=");
    push_decimal(&mut r, f.sample_rate);
    r.append(";channels=");
    push_decimal(&mut r, f.channels as u32);
    r.append(":*");
    assert(r@ =~= protocol_info_spec(*f, wav));
    r
}

/// DIDL-Lite metadata of one audio item whose resource is `url` with
/// protocol info `info`, both escaped.
pub open spec fn didl_spec(url: Seq<char>, info: Seq<char>) -> Seq<char> {
    "<DIDL-Lite xmlns=\"urn:schemas-upnp-org:metadata-1-0/DIDL-Lite/\" xmlns:dc=\"http://purl.org/dc/elements/1.1/\" xmlns:upnp=\"urn:schemas-upnp-org:metadata-1-0/upnp/\"><item id=\"1\" parentID=\"0\" restricted=\"1\"><dc:title>swyh-rs</dc:title><res protocolInfo=\""@
        + escape_spec(info) + "\">"@ + escape_spec(url)
        + "</res><upnp:class>object.item.audioItem.musicTrack</upnp:class></item></DIDL-Lite>"@
}

pub fn didl_metadata(url: &str, info: &str) -> (r: String)
    ensures
        r@ == didl_spec(url@, info@),
{
    let mut r = String::from_str(
        "<DIDL-Lite xmlns=\"urn:schemas-upnp-org:metadata-1-0/DIDL-Lite/\" xmlns:dc=\"http://purl.org/dc/elements/1.1/\" xmlns:upnp=\"urn:schemas-upnp-org:metadata-1-0/upnp/\"><item id=\"1\" parentID=\"0\" restricted=\"1\"><dc:title>swyh-rs</dc:title><res protocolInfo=\"",
    );
    push_escaped(&mut r, info);
    r.append("\">");
    push_escaped(&mut r, url);
    r.append("</res><upnp:class>object.item.audioItem.musicTrack</upnp:class></item></DIDL-Lite>");
    assert(r@ =~= didl_spec(url@, info@));
    r
}

} // verus!
