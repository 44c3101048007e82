//! Matrix content (`mxc://`) URIs and the HTTP addresses that serve their media.
use vstd::prelude::*;

use matrix_sdk::ruma::MxcUri;

verus! {

/// What `MxcUri::parts` of ruma returns for a URI: its server name and media ID when the
/// URI is a valid MXC URI, nothing otherwise.
pub uninterp spec fn mxc_parts(uri: Seq<char>) -> Option<(Seq<char>, Seq<char>)>;

/// Whether ruma can split `uri` where it means to: a URI with the `mxc://` scheme and more
/// than 256 characters has its first `/` after the scheme among its first 256 characters.
/// (ruma keeps the position of that `/` in a `u8`; for a valid URI the characters before it
/// are ASCII, so character and byte positions agree there.)
pub open spec fn slash_in_reach(uri: Seq<char>) -> bool {
    uri.len() > 256 && uri.take(6) == "mxc://"@ ==> exists|k: int|
        6 <= k < 256 && #[trigger] uri[k] == '/'
}

/// `MxcUri::parts` (ruma, through `matrix_sdk::ruma`).
/// Trusted: the result is the named result `mxc_parts` of the URI; when there is one, the URI
/// is `mxc://`, the server name, `/` and the media ID, and the server name holds no `/`
/// (ruma strips the scheme and splits at the first `/`). URIs where `slash_in_reach` fails are
/// not admitted: there ruma's `u8` position wraps, and it panics or splits at the wrong place.
#[verifier::external_body]
fn mxc_uri_parts(uri: &str) -> (r: Option<(String, String)>)
    requires
        slash_in_reach(uri@),
    ensures
        r.deep_view() == mxc_parts(uri@),
        r matches Some((server, media)) ==> {
            &&& uri@ == "mxc://"@ + server@ + seq!['/'] + media@
            &&& !server@.contains('/')
        },
{
    match <&MxcUri>::from(uri).parts() {
        Ok((server, media)) => Some((server.as_str().to_owned(), media.to_owned())),
        Err(_) => None,
    }
}

/// A URI that the media functions accept: valid for ruma, which can split it.
pub open spec fn mxc_valid(uri: Seq<char>) -> bool {
    &&& slash_in_reach(uri)
    &&& mxc_parts(uri) is Some
}

/// The characters of a string.
fn chars_of(s: &str) -> (v: Vec<char>)
    ensures
        v@ == s@,
{
    let mut v: Vec<char> = Vec::new();
    for c in it: s.chars()
        invariant
            it.seq() == s@,
            v@ == s@.take(it.index() as int),
    {
        proof {
            assert(s@.take(it.index() + 1).drop_last() =~= s@.take(it.index() as int));
        }
        v.push(c);
    }
    assert(s@.take(s@.len() as int) =~= s@);
    v
}

/// Whether `slash_in_reach` holds of `uri`.
pub fn is_slash_in_reach(uri: &str) -> (r: bool)
    ensures
        r == slash_in_reach(uri@),
{
    let chars = chars_of(uri);
    if chars.len() <= 256 {
        return true;
    }
    let scheme = chars[0] == 'm' && chars[1] == 'x' && chars[2] == 'c' && chars[3] == ':'
        && chars[4] == '/' && chars[5] == '/';
    proof {
        reveal_strlit("mxc://");
        if scheme {
            assert(uri@.take(6) =~= "mxc://"@);
        } else if uri@.take(6) == "mxc://"@ {
            assert(uri@.take(6)[0] == 'm' && uri@.take(6)[1] == 'x' && uri@.take(6)[2] == 'c');
            assert(uri@.take(6)[3] == ':' && uri@.take(6)[4] == '/' && uri@.take(6)[5] == '/');
        }
    }
    if !scheme {
        return true;
    }
    let mut k: usize = 6;
    while k < 256
        invariant
            6 <= k <= 256,
            chars@ == uri@,
            chars@.len() > 256,
            forall|j: int| 6 <= j < k ==> chars@[j] != '/',
        decreases 256 - k,
    {
        if chars[k] == '/' {
            return true;
        }
        k = k + 1;
    }
    false
}

/// The server name of a valid MXC URI.
pub open spec fn mxc_server(uri: Seq<char>) -> Seq<char> {
    mxc_parts(uri).unwrap().0
}

/// The media ID of a valid MXC URI.
pub open spec fn mxc_media_id(uri: Seq<char>) -> Seq<char> {
    mxc_parts(uri).unwrap().1
}

/// The download address of a media file on its own server:
/// `https://{server}/_matrix/media/v3/download/{server}/{media_id}`.
pub open spec fn media_url(uri: Seq<char>) -> Seq<char> {
    "https://"@ + mxc_server(uri) + "/_matrix/media/v3/download/"@ + mxc_server(uri) + seq!['/']
        + mxc_media_id(uri)
}

/// Server name and media ID of `uri`, or `None` where `mxc_valid` does not hold.
pub fn mxc_checked_parts(uri: &String) -> (r: Option<(String, String)>)
    ensures
        r is Some <==> mxc_valid(uri@),
        r matches Some((server, media)) ==> server@ == mxc_server(uri@) && media@ == mxc_media_id(
            uri@,
        ),
{
    if is_slash_in_reach(uri.as_str()) {
        mxc_uri_parts(uri.as_str())
    } else {
        None
    }
}

/// Whether `uri` is an MXC URI that the media functions accept.
pub fn is_valid_mxc(uri: &String) -> (r: bool)
    ensures
        r == mxc_valid(uri@),
{
    mxc_checked_parts(uri).is_some()
}

/// The download address of the media that a valid MXC URI names.
pub fn url(mxc: &String) -> (r: String)
    requires
        mxc_valid(mxc@),
    ensures
        r@ == media_url(mxc@),
{
    match mxc_checked_parts(mxc) {
        Some((server, media)) => {
            let mut r = String::new();
            r.append("https://");
            r.append(server.as_str());
            r.append("/_matrix/media/v3/download/");
            r.append(server.as_str());
            r.append("/");
            r.append(media.as_str());
            proof {
                reveal_strlit("/");
            }
            r
        },
        None => {
            proof {
                assert(false);
            }
            String::new()
        },
    }
}

/// The download address for an MXC URI, or `None` where the URI is not one that `url` accepts.
pub fn try_url(mxc: &String) -> (r: Option<String>)
    ensures
        r is Some <==> mxc_valid(mxc@),
        r matches Some(u) ==> u@ == media_url(mxc@),
{
    if is_valid_mxc(mxc) {
        Some(url(mxc))
    } else {
        None
    }
}

} // verus!
