//! The subscription endpoint: its response, its query string, and the
//! boolean options it reads.
use crate::interfaces::subconverter::UploadStatus;
use crate::models::subconverter_target::{target_of_name, SubconverterTarget};
use crate::text::{
    chars_of, eq_str, find_char, kv_insert, kv_insert_exec, lemma_split_concat, lemma_split_no_sep,
    lemma_split_nonempty, pair_views, slice_chars, split,
    split_char, std_lowercase, string_of, to_lowercase_str, views, fold_lower,
};
use vstd::prelude::*;

verus! {

/// The Surge version a request means when it names none.
pub fn default_ver() -> (r: u32)
    ensures
        r == 3,
{
    3
}

/// The response of the subscription endpoint: body, its type, headers
/// (each name once), status and what became of the upload.
#[derive(Debug)]
pub struct SubResponse {
    pub content: String,
    pub content_type: String,
    pub headers: Vec<(String, String)>,
    pub status_code: u16,
    pub upload_status: UploadStatus,
}

/// Whether no upload was attempted (the status is then left out of the
/// serialized response).
pub fn is_not_attempted(status: &UploadStatus) -> (r: bool)
    ensures
        r == (*status is NotAttempted),
{
    match status {
        UploadStatus::NotAttempted => true,
        _ => false,
    }
}

impl SubResponse {
    /// A successful response: status 200, no headers, no upload.
    pub fn ok(content: String, content_type: String) -> (r: Self)
        ensures
            r.content == content,
            r.content_type == content_type,
            r.headers@.len() == 0,
            r.status_code == 200,
            r.upload_status is NotAttempted,
    {
        SubResponse {
            content,
            content_type,
            headers: Vec::new(),
            status_code: 200,
            upload_status: UploadStatus::NotAttempted,
        }
    }

    /// An error response: plain text with the given status, no headers, no
    /// upload.
    pub fn error(content: String, status_code: u16) -> (r: Self)
        ensures
            r.content == content,
            r.content_type@ == "text/plain"@,
            r.headers@.len() == 0,
            r.status_code == status_code,
            r.upload_status is NotAttempted,
    {
        SubResponse {
            content,
            content_type: "text/plain".to_owned(),
            headers: Vec::new(),
            status_code,
            upload_status: UploadStatus::NotAttempted,
        }
    }

    /// The same response with the given headers.
    pub fn with_headers(self, headers: Vec<(String, String)>) -> (r: Self)
        ensures
            r == (SubResponse { headers, ..self }),
    {
        let mut s = self;
        s.headers = headers;
        s
    }

    /// The same response with the given upload status.
    pub fn with_upload_status(self, status: UploadStatus) -> (r: Self)
        ensures
            r == (SubResponse { upload_status: status, ..self }),
    {
        let mut s = self;
        s.upload_status = status;
        s
    }
}

/// The message of the answer to a request whose `target` parameter cannot
/// be served: missing, naming no target, or asking for the target to be
/// chosen by user agent; `None` where it names a target.
pub open spec fn target_refusal(target: Option<Seq<char>>) -> Option<Seq<char>> {
    match target {
        None => Some("Missing target parameter"@),
        Some(t) => match target_of_name(fold_lower(t)) {
            None => Some("Invalid target parameter"@),
            Some(SubconverterTarget::Auto) => Some("Auto user agent is not supported for now."@),
            Some(_) => None,
        },
    }
}

/// The target of a request from its `target` parameter, or the status-400
/// answer to it (see [`target_refusal`]).
pub fn request_target(target: Option<&str>) -> (r: Result<SubconverterTarget, SubResponse>)
    ensures
        match target_refusal(
            match target {
                Some(t) => Some(t@),
                None => None,
            },
        ) {
            Some(m) => r matches Err(e) && e.content@ == m && e.status_code == 400 && e.content_type@
                == "text/plain"@ && e.headers@.len() == 0 && e.upload_status is NotAttempted,
            None => r matches Ok(t) && Some(t) == target_of_name(fold_lower(target->0@)),
        },
{
    match target {
        None => Err(SubResponse::error("Missing target parameter".to_owned(), 400)),
        Some(name) => match SubconverterTarget::from_str(name) {
            None => Err(SubResponse::error("Invalid target parameter".to_owned(), 400)),
            Some(SubconverterTarget::Auto) => Err(
                SubResponse::error("Auto user agent is not supported for now.".to_owned(), 400),
            ),
            Some(t) => Ok(t),
        },
    }
}

/// The key and value of one `key=value` piece of a query string: the value
/// is what follows the first `=`, empty where there is none.
pub open spec fn query_pair(piece: Seq<char>) -> (Seq<char>, Seq<char>) {
    let parts = split_char(piece, '=');
    if parts.len() > 1 {
        (parts[0], piece.skip(parts[0].len() as int + 1))
    } else {
        (piece, Seq::empty())
    }
}

/// The parameters of a query string: its `&`-separated pieces, in order,
/// later values replacing earlier ones for the same key.
pub open spec fn query_params(pieces: Seq<Seq<char>>) -> Seq<(Seq<char>, Seq<char>)>
    decreases pieces.len(),
{
    if pieces.len() == 0 {
        Seq::empty()
    } else {
        let kv = query_pair(pieces.last());
        kv_insert(query_params(pieces.drop_last()), kv.0, kv.1)
    }
}

/// The key and value of one piece (see [`query_pair`]).
fn query_pair_exec(piece: &[char]) -> (r: (String, String))
    ensures
        (r.0@, r.1@) == query_pair(piece@),
{
    match find_char(piece, '=') {
        Some(i) => {
            proof {
                let a = piece@.take(i as int);
                let b = piece@.skip(i + 1);
                assert(piece@ =~= a.push('=') + b);
                lemma_split_concat(a, '=', b);
                lemma_split_nonempty(b, '=');
            }
            assert(i < piece.len());
            let key = slice_chars(piece, 0, i);
            let value = slice_chars(piece, i + 1, piece.len());
            assert(value@ =~= piece@.skip(i + 1));
            (string_of(key.as_slice()), string_of(value.as_slice()))
        },
        None => {
            proof {
                lemma_split_no_sep(piece@, '=');
            }
            let key = slice_chars(piece, 0, piece.len());
            assert(key@ =~= piece@);
            (string_of(key.as_slice()), String::new())
        },
    }
}

/// The parameters of a query string (see [`query_params`]), each key once.
pub fn parse_query_string(query: &str) -> (r: Vec<(String, String)>)
    ensures
        pair_views(r@) == query_params(split_char(query@, '&')),
{
    let chars = chars_of(query);
    let pieces = split(chars.as_slice(), '&');
    let ghost pv = views(pieces@);
    let mut params: Vec<(String, String)> = Vec::new();
    let mut i: usize = 0;
    assert(pair_views(params@) =~= Seq::<(Seq<char>, Seq<char>)>::empty());
    while i < pieces.len()
        invariant
            i <= pieces@.len(),
            pv == views(pieces@),
            pair_views(params@) == query_params(pv.take(i as int)),
        decreases pieces@.len() - i,
    {
        assert(pv.take(i + 1).drop_last() =~= pv.take(i as int));
        let (k, v) = query_pair_exec(pieces[i].as_slice());
        kv_insert_exec(&mut params, k, v);
        i = i + 1;
    }
    assert(pv.take(pv.len() as int) =~= pv);
    params
}

/// The boolean an option's text means, compared without regard to case:
/// `true`, `yes`, `1` and `on` are true, `false`, `no`, `0` and `off` false;
/// any other text means nothing.
pub open spec fn bool_of_text(lowered: Seq<char>) -> Option<bool> {
    if lowered == "true"@ || lowered == "yes"@ || lowered == "1"@ || lowered == "on"@ {
        Some(true)
    } else if lowered == "false"@ || lowered == "no"@ || lowered == "0"@ || lowered == "off"@ {
        Some(false)
    } else {
        None
    }
}

/// The boolean an option's text means (see [`bool_of_text`]), the text
/// lowered with `str::to_lowercase`.
pub fn parse_bool_text(s: &str) -> (r: Option<bool>)
    ensures
        r == bool_of_text(std_lowercase(s@)),
{
    let lowered = to_lowercase_str(s);
    let l = chars_of(lowered.as_str());
    let l = l.as_slice();
    if eq_str(l, "true") || eq_str(l, "yes") || eq_str(l, "1") || eq_str(l, "on") {
        Some(true)
    } else if eq_str(l, "false") || eq_str(l, "no") || eq_str(l, "0") || eq_str(l, "off") {
        Some(false)
    } else {
        None
    }
}

/// The boolean an option's number means: 1 true, 0 false, any other nothing.
pub fn parse_bool_number(i: i64) -> (r: Option<bool>)
    ensures
        r == (if i == 1 {
            Some(true)
        } else if i == 0 {
            Some(false)
        } else {
            None
        }),
{
    if i == 0 {
        Some(false)
    } else if i == 1 {
        Some(true)
    } else {
        None
    }
}

} // verus!
