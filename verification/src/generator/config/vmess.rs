//! VMess share links from their settings as text.
use crate::generator::config::formats::single::{json_object, json_object_text, lemma_vmess_key_order, text_lt};
use crate::text::pair_views;
use crate::utils::base64::{base64, base64_encode};
use vstd::prelude::*;
use vstd::utf8::encode_utf8;

verus! {

/// The members of the JSON object of a VMess link, in the order of their
/// keys (as `serde_json` keeps an object's members).
pub open spec fn vmess_link_fields(
    remarks: Seq<char>,
    add: Seq<char>,
    port: Seq<char>,
    type_str: Seq<char>,
    id: Seq<char>,
    aid: Seq<char>,
    net: Seq<char>,
    path: Seq<char>,
    host: Seq<char>,
    tls: Seq<char>,
) -> Seq<(Seq<char>, Seq<char>)> {
    seq![
        ("add"@, add),
        ("aid"@, aid),
        ("host"@, host),
        ("id"@, id),
        ("net"@, net),
        ("path"@, path),
        ("port"@, port),
        ("ps"@, remarks),
        ("tls"@, tls),
        ("type"@, type_str),
        ("v"@, "2"@),
    ]
}

/// The `vmess://` link of the given settings: their JSON object (see
/// [`vmess_link_fields`]) in base64.
pub fn vmess_link_construct(
    remarks: &str,
    add: &str,
    port: &str,
    type_str: &str,
    id: &str,
    aid: &str,
    net: &str,
    path: &str,
    host: &str,
    tls: &str,
) -> (r: String)
    ensures
        r@ == "vmess://"@ + base64(
            encode_utf8(
                json_object(vmess_link_fields(remarks@, add@, port@, type_str@, id@, aid@, net@, path@, host@, tls@)),
            ),
        ),
{
    let mut ms: Vec<(String, String)> = Vec::new();
    ms.push(("add".to_owned(), add.to_owned()));
    ms.push(("aid".to_owned(), aid.to_owned()));
    ms.push(("host".to_owned(), host.to_owned()));
    ms.push(("id".to_owned(), id.to_owned()));
    ms.push(("net".to_owned(), net.to_owned()));
    ms.push(("path".to_owned(), path.to_owned()));
    ms.push(("port".to_owned(), port.to_owned()));
    ms.push(("ps".to_owned(), remarks.to_owned()));
    ms.push(("tls".to_owned(), tls.to_owned()));
    ms.push(("type".to_owned(), type_str.to_owned()));
    ms.push(("v".to_owned(), "2".to_owned()));
    assert(pair_views(ms@) =~= vmess_link_fields(remarks@, add@, port@, type_str@, id@, aid@, net@, path@, host@, tls@));
    proof {
        lemma_vmess_key_order();
        let mv = pair_views(ms@);
        assert forall|i: int| 0 <= i < mv.len() - 1 implies text_lt(#[trigger] mv[i].0, mv[i + 1].0) by {}
    }
    let json = json_object_text(&ms);
    let encoded = base64_encode(json.as_str());
    let mut v = crate::text::chars_of("vmess://");
    crate::text::push_str(&mut v, encoded.as_str());
    crate::text::string_of(v.as_slice())
}

} // verus!
