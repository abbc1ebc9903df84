//! Reading a renderer out of its device description document: identifier,
//! friendly name, model, control dialect and the control endpoint of that
//! dialect's transport service.
use vstd::prelude::*;
use vstd::string::{StrSliceExecFns, StringExecFns};
use crate::discovery::{Dialect, Renderer, RendererView};

verus! {

/// `p` occurs in `t` at position `i`.
pub open spec fn occurs_at(t: Seq<char>, p: Seq<char>, i: int) -> bool {
    0 <= i && i + p.len() <= t.len() && t.subrange(i, i + p.len()) == p
}

/// The first position at or after `from` where `p` occurs in `t`, or -1.
pub open spec fn first_occ(t: Seq<char>, p: Seq<char>, from: int) -> int
    decreases t.len() + 1 - from,
{
    if from < 0 || from + p.len() > t.len() {
        -1
    } else if occurs_at(t, p, from) {
        from
    } else {
        first_occ(t, p, from + 1)
    }
}

/// The text of the first `<tag>...</tag>` element at or after `from`.
pub open spec fn element_spec(t: Seq<char>, tag: Seq<char>, from: int) -> Option<Seq<char>> {
    let open = "<"@ + tag + ">"@;
    let close = "</"@ + tag + ">"@;
    let a = first_occ(t, open, from);
    if a < 0 {
        None
    } else {
        let b = first_occ(t, close, a + open.len());
        if b < 0 {
            None
        } else {
            Some(t.subrange(a + open.len(), b))
        }
    }
}

/// The dialect a description offers: OpenHome when it lists the OpenHome
/// playlist service, otherwise AVTransport when it lists that service.
pub open spec fn dialect_spec(t: Seq<char>) -> Option<Dialect> {
    if first_occ(t, "urn:av-openhome-org:service:Playlist:1"@, 0) >= 0 {
        Some(Dialect::OpenHome)
    } else if first_occ(t, "urn:schemas-upnp-org:service:AVTransport:1"@, 0) >= 0 {
        Some(Dialect::AvTransport)
    } else {
        None
    }
}

pub open spec fn service_of(d: Dialect) -> Seq<char> {
    match d {
        Dialect::OpenHome => "urn:av-openhome-org:service:Playlist:1"@,
        Dialect::AvTransport => "urn:schemas-upnp-org:service:AVTransport:1"@,
    }
}

/// The renderer a description document declares, fetched from `location`
/// and answered from `remote`: `None` when the document lacks any of the
/// elements UDN, friendlyName, modelName, a supported service, or the
/// controlURL that follows that service's type.
pub open spec fn parse_spec(t: Seq<char>, location: Seq<char>, remote: Seq<char>) -> Option<
    RendererView,
> {
    match (
        element_spec(t, "UDN"@, 0),
        element_spec(t, "friendlyName"@, 0),
        element_spec(t, "modelName"@, 0),
        dialect_spec(t),
    ) {
        (Some(id), Some(name), Some(model), Some(d)) => match element_spec(
            t,
            "controlURL"@,
            first_occ(t, service_of(d), 0),
        ) {
            Some(ctl) => Some(
                RendererView {
                    dev_id: id,
                    dev_name: name,
                    dev_model: model,
                    dialect: d,
                    remote_addr: remote,
                    location,
                    control_url: ctl,
                },
            ),
            None => None,
        },
        _ => None,
    }
}

fn chars_of(s: &str) -> (r: Vec<char>)
    ensures
        r@ == s@,
{
    let n = s.unicode_len();
    let mut r: Vec<char> = Vec::new();
    let mut i: usize = 0;
    while i < n
        invariant
            n == s@.len(),
            i <= n,
            r@ == s@.take(i as int),
        decreases n - i,
    {
        r.push(s.get_char(i));
        assert(r@ =~= s@.take(i as int + 1));
        i = i + 1;
    }
    assert(s@.take(n as int) =~= s@);
    r
}

fn occurs(t: &Vec<char>, p: &Vec<char>, i: usize) -> (r: bool)
    requires
        i + p.len() <= t.len(),
    ensures
        r == occurs_at(t@, p@, i as int),
{
    let mut k: usize = 0;
    while k < p.len()
        invariant
            i + p.len() <= t.len(),
            k <= p.len(),
            forall|j: int| 0 <= j < k ==> t@[i + j] == p@[j],
        decreases p.len() - k,
    {
        if t[i + k] != p[k] {
            assert(t@.subrange(i as int, i + p.len())[k as int] != p@[k as int]);
            return false;
        }
        k = k + 1;
    }
    assert(t@.subrange(i as int, i + p.len()) =~= p@);
    true
}

/// The first position at or after `from` where `p` occurs in `t`.
fn find(t: &Vec<char>, p: &Vec<char>, from: usize) -> (r: Option<usize>)
    requires
        p.len() >= 1,
    ensures
        match r {
            Some(i) => i as int == first_occ(t@, p@, from as int),
            None => first_occ(t@, p@, from as int) == -1,
        },
{
    let mut i: usize = from;
    if p.len() > t.len() {
        return None;
    }
    while i <= t.len() - p.len()
        invariant
            from <= i,
            1 <= p.len() <= t.len(),
            i <= t.len() - p.len() + 1 || i == from,
            first_occ(t@, p@, i as int) == first_occ(t@, p@, from as int),
        decreases t.len() + 1 - i,
    {
        if occurs(t, p, i) {
            return Some(i);
        }
        i = i + 1;
    }
    None
}

/// The position of the text of the first `<tag>` element at or after `from`
/// and the position of its closing tag.
fn element(t: &Vec<char>, tag: &str, from: usize) -> (r: Option<(usize, usize)>)
    ensures
        match r {
            Some((a, b)) => a <= b <= t.len() && element_spec(t@, tag@, from as int) == Some(
                t@.subrange(a as int, b as int),
            ),
            None => element_spec(t@, tag@, from as int) is None,
        },
{
    proof {
        reveal_strlit("<");
        reveal_strlit(">");
        reveal_strlit("</");
    }
    let mut open = String::from_str("<");
    open.append(tag);
    open.append(">");
    let mut close = String::from_str("</");
    close.append(tag);
    close.append(">");
    let open_c = chars_of(open.as_str());
    let close_c = chars_of(close.as_str());
    assert(open_c@ =~= "<"@ + tag@ + ">"@);
    assert(close_c@ =~= "</"@ + tag@ + ">"@);
    match find(t, &open_c, from) {
        None => None,
        Some(a) => {
            proof {
                lemma_first_occ_occurs(t@, open_c@, from as int);
            }
            assert(occurs_at(t@, open_c@, a as int));
            assert(a + open_c.len() <= t.len());
            let s = a + open_c.len();
            match find(t, &close_c, s) {
                None => None,
                Some(b) => {
                    assert(occurs_at(t@, close_c@, b as int)) by {
                        lemma_first_occ_occurs(t@, close_c@, s as int);
                    }
                    assert(occurs_at(t@, open_c@, a as int)) by {
                        lemma_first_occ_occurs(t@, open_c@, from as int);
                    }
                    proof {
                        lemma_first_occ_at_least(t@, close_c@, s as int);
                    }
                    Some((s, b))
                },
            }
        },
    }
}

proof fn lemma_first_occ_occurs(t: Seq<char>, p: Seq<char>, from: int)
    ensures
        first_occ(t, p, from) >= 0 ==> occurs_at(t, p, first_occ(t, p, from)),
    decreases t.len() + 1 - from,
{
    if from >= 0 && from + p.len() <= t.len() && !occurs_at(t, p, from) {
        lemma_first_occ_occurs(t, p, from + 1);
    }
}

proof fn lemma_first_occ_at_least(t: Seq<char>, p: Seq<char>, from: int)
    ensures
        first_occ(t, p, from) >= 0 ==> first_occ(t, p, from) >= from,
    decreases t.len() + 1 - from,
{
    if from >= 0 && from + p.len() <= t.len() && !occurs_at(t, p, from) {
        lemma_first_occ_at_least(t, p, from + 1);
    }
}

fn text_of(doc: &str, t: &Vec<char>, tag: &str, from: usize) -> (r: Option<String>)
    requires
        t@ == doc@,
    ensures
        match r {
            Some(s) => element_spec(doc@, tag@, from as int) == Some(s@),
            None => element_spec(doc@, tag@, from as int) is None,
        },
{
    match element(t, tag, from) {
        None => None,
        Some((a, b)) => Some(String::from_str(doc.substring_char(a, b))),
    }
}

/// Reads the renderer declared by description `doc`, fetched from
/// `location` and answered from `remote`; `None` when the document is not a
/// usable renderer description.
pub fn parse_description(doc: &str, location: &String, remote: &String) -> (r: Option<Renderer>)
    ensures
        match r {
            Some(x) => parse_spec(doc@, location@, remote@) == Some(x@),
            None => parse_spec(doc@, location@, remote@) is None,
        },
{
    proof {
        reveal_strlit("urn:av-openhome-org:service:Playlist:1");
        reveal_strlit("urn:schemas-upnp-org:service:AVTransport:1");
    }
    let t = chars_of(doc);
    let oh = chars_of("urn:av-openhome-org:service:Playlist:1");
    let av = chars_of("urn:schemas-upnp-org:service:AVTransport:1");
    let id = text_of(doc, &t, "UDN", 0);
    let name = text_of(doc, &t, "friendlyName", 0);
    let model = text_of(doc, &t, "modelName", 0);
    let (dialect, at) = match find(&t, &oh, 0) {
        Some(i) => (Dialect::OpenHome, i),
        None => match find(&t, &av, 0) {
            Some(i) => (Dialect::AvTransport, i),
            None => return None,
        },
    };
    assert(dialect_spec(doc@) == Some(dialect));
    let (id, name, model) = match (id, name, model) {
        (Some(a), Some(b), Some(c)) => (a, b, c),
        _ => return None,
    };
    match text_of(doc, &t, "controlURL", at) {
        None => None,
        Some(ctl) => Some(
            Renderer {
                dev_id: id,
                dev_name: name,
                dev_model: model,
                dialect,
                remote_addr: remote.clone(),
                location: location.clone(),
                control_url: ctl,
            },
        ),
    }
}

} // verus!
