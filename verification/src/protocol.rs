use vstd::prelude::*;
use crate::text::{same_text, starts_with, spec_trim_end_char, spec_trim_start_matches, trim_end_char, trim_start_matches};

verus! {

/// The scheme through which the page asks for the launcher's own files.
pub const SCHEME: &'static str = "v22";

/// The file that a `v22://` address asks for: the address without its leading
/// `v22://`s and without its trailing `/`s.
pub open spec fn spec_requested_file(uri: Seq<char>) -> Seq<char> {
    spec_trim_end_char(spec_trim_start_matches(uri, "v22://"@), '/')
}

/// The file that a `v22://` address asks for.
pub fn requested_file(uri: &str) -> (res: String)
    ensures
        res@ == spec_requested_file(uri@),
{
    String::from_str(trim_end_char(trim_start_matches(uri, "v22://"), '/'))
}

/// Where a requested file is read from, relative to the working directory.
pub fn asset_path(file: &str) -> (res: String)
    ensures
        res@ == "src/Vortex2+2/"@ + file@,
{
    let mut res = String::from_str("src/Vortex2+2/");
    res.append(file);
    res
}

/// What `Path::extension` gives for a path, as text: a function of the path alone. Which
/// characters separate a path's parts is fixed by the target the program is built for
/// (on Windows `\` as well as `/`), never by anything at run time.
pub uninterp spec fn path_extension_of(path: Seq<char>) -> Option<Seq<char>>;

/// Calls `std::path::Path::extension` on `path` and keeps the extension as text.
/// Its documentation says the extension is the part of the file name after the
/// final `.`, so it holds no `.`; a file name holds no `/`. Where the file name starts
/// with its only `.`, or the path has no file name, there is none; which part of a
/// path is its file name is left unsaid here.
#[verifier::external_body]
fn path_extension(path: &str) -> (res: Option<String>)
    ensures
        res matches Some(e) ==> Some(e@) == path_extension_of(path@),
        res is None ==> path_extension_of(path@) is None,
        res matches Some(e) ==> !e@.contains('.') && !e@.contains('/'),
{
    match std::path::Path::new(path).extension() {
        Some(e) => e.to_str().map(str::to_string),
        None => None,
    }
}

/// The media type served for a file extension.
pub open spec fn spec_content_type_for(ext: Option<Seq<char>>) -> Seq<char> {
    match ext {
        Some(e) => if e == "js"@ {
            "application/javascript"@
        } else if e == "css"@ {
            "text/css"@
        } else if e == "png"@ {
            "image/png"@
        } else if e == "jpg"@ || e == "jpeg"@ {
            "image/jpeg"@
        } else {
            "text/plain"@
        },
        None => "text/plain"@,
    }
}

/// The media type served for a file extension.
pub fn content_type_for(ext: Option<&str>) -> (res: &'static str)
    ensures
        res@ == spec_content_type_for(match ext {
            Some(e) => Some(e@),
            None => None,
        }),
{
    match ext {
        Some(e) => {
            if same_text(e, "js") {
                "application/javascript"
            } else if same_text(e, "css") {
                "text/css"
            } else if same_text(e, "png") {
                "image/png"
            } else if same_text(e, "jpg") || same_text(e, "jpeg") {
                "image/jpeg"
            } else {
                "text/plain"
            }
        },
        None => "text/plain",
    }
}

/// The media type served for a requested file, by its extension.
pub fn content_type(file: &str) -> (res: &'static str)
    ensures
        res@ == spec_content_type_for(path_extension_of(file@)),
{
    let ext = path_extension(file);
    match &ext {
        Some(e) => content_type_for(Some(e.as_str())),
        None => content_type_for(None),
    }
}

/// The answer to a `v22://` request.
pub struct ProtocolResponse {
    pub status: u16,
    pub headers: Vec<(String, String)>,
    pub body: Vec<u8>,
}

/// The body of the answer to a file that cannot be read: `not found`.
pub open spec fn not_found_body() -> Seq<u8> {
    seq![110u8, 111u8, 116u8, 32u8, 102u8, 111u8, 117u8, 110u8, 100u8]
}

/// The headers of a served file of media type `ctype`.
pub open spec fn served_headers(ctype: Seq<char>) -> Seq<(Seq<char>, Seq<char>)> {
    seq![
        ("Content-Type"@, ctype),
        ("Access-Control-Allow-Origin"@, "*"@),
        ("Access-Control-Allow-Headers"@, "*"@),
        ("Cache-Control"@, "no-cache"@),
    ]
}

/// The headers of a response as text pairs.
pub open spec fn header_texts(headers: Seq<(String, String)>) -> Seq<(Seq<char>, Seq<char>)> {
    headers.map_values(|h: (String, String)| (h.0@, h.1@))
}

fn header(name: &str, value: &str) -> (res: (String, String))
    ensures
        res.0@ == name@,
        res.1@ == value@,
{
    (String::from_str(name), String::from_str(value))
}

/// Answers a request for the media type `ctype`: the file's bytes with status 200, or,
/// when the file could not be read (`None`), status 404 and `not found`.
pub fn file_response(ctype: &str, contents: Option<Vec<u8>>) -> (res: ProtocolResponse)
    ensures
        match contents {
            Some(bytes) => res.status == 200 && res.body@ == bytes@ && header_texts(res.headers@)
                == served_headers(ctype@),
            None => res.status == 404 && res.body@ == not_found_body() && res.headers@.len()
                == 0,
        },
{
    match contents {
        Some(bytes) => {
            let mut headers = Vec::new();
            headers.push(header("Content-Type", ctype));
            headers.push(header("Access-Control-Allow-Origin", "*"));
            headers.push(header("Access-Control-Allow-Headers", "*"));
            headers.push(header("Cache-Control", "no-cache"));
            assert(header_texts(headers@) =~= served_headers(ctype@));
            ProtocolResponse { status: 200, headers, body: bytes }
        },
        None => {
            let body = vec![110u8, 111u8, 116u8, 32u8, 102u8, 111u8, 117u8, 110u8, 100u8];
            assert(body@ =~= not_found_body());
            ProtocolResponse { status: 404, headers: Vec::new(), body }
        },
    }
}

/// Answers a request for `file`, given its contents or `None` when it could not be read.
pub fn protocol_response(file: &str, contents: Option<Vec<u8>>) -> (res: ProtocolResponse)
    ensures
        match contents {
            Some(bytes) => res.status == 200 && res.body@ == bytes@ && header_texts(res.headers@)
                == served_headers(spec_content_type_for(path_extension_of(file@))),
            None => res.status == 404 && res.body@ == not_found_body() && res.headers@.len()
                == 0,
        },
{
    match contents {
        Some(bytes) => file_response(content_type(file), Some(bytes)),
        None => file_response("text/plain", None),
    }
}

proof fn lemma_trim_start_clean(s: Seq<char>, p: Seq<char>)
    requires
        p.len() > 0,
    ensures
        !starts_with(spec_trim_start_matches(s, p), p),
        s.len() >= spec_trim_start_matches(s, p).len(),
    decreases s.len(),
{
    if starts_with(s, p) {
        lemma_trim_start_clean(s.skip(p.len() as int), p);
    }
}

proof fn lemma_trim_end_clean(s: Seq<char>, c: char)
    ensures
        ({
            let t = spec_trim_end_char(s, c);
            &&& !(t.len() > 0 && t.last() == c)
            &&& t.len() <= s.len()
            &&& t == s.take(t.len() as int)
        }),
    decreases s.len(),
{
    if s.len() > 0 && s.last() == c {
        lemma_trim_end_clean(s.drop_last(), c);
        let t = spec_trim_end_char(s, c);
        assert(s.drop_last().take(t.len() as int) =~= s.take(t.len() as int));
    } else {
        assert(s.take(s.len() as int) =~= s);
    }
}

/// The requested file never ends with `/` and never starts with `v22://`.
pub proof fn lemma_requested_file_is_bare(uri: Seq<char>)
    ensures
        ({
            let f = spec_requested_file(uri);
            &&& !(f.len() > 0 && f.last() == '/')
            &&& !starts_with(f, "v22://"@)
        }),
{
    reveal_strlit("v22://");
    let t = spec_trim_start_matches(uri, "v22://"@);
    lemma_trim_start_clean(uri, "v22://"@);
    lemma_trim_end_clean(t, '/');
    let f = spec_requested_file(uri);
    if starts_with(f, "v22://"@) {
        assert(t.take(6) =~= f.take(6));
        assert(starts_with(t, "v22://"@));
    }
}

} // verus!
