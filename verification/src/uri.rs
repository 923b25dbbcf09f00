//! Addresses of media.

use vstd::prelude::*;
use vstd::string::StrSliceExecFns;

verus! {

/// The address of something to play, as an absolute URL.
#[derive(Debug, PartialEq, Eq)]
pub struct MediaUri {
    pub text: String,
}

/// What `url::Url::parse` makes of a text, written out again, if it takes it.
pub uninterp spec fn url_serialization(text: Seq<char>) -> Option<Seq<char>>;

/// What stands before the first colon of a text.
pub open spec fn before_colon(text: Seq<char>) -> Seq<char>
    decreases text.len(),
{
    if text.len() == 0 || text[0] == ':' {
        Seq::empty()
    } else {
        seq![text[0]] + before_colon(text.drop_first())
    }
}

/// The scheme of a text that `url::Url::parse` takes.
pub open spec fn url_scheme(text: Seq<char>) -> Option<Seq<char>> {
    match url_serialization(text) {
        Some(written) => Some(before_colon(written)),
        None => None,
    }
}

/// The path that `url::Url::path` gives of a text that `url::Url::parse` takes.
pub uninterp spec fn url_path(text: Seq<char>) -> Option<Seq<char>>;

/// `scheme` is one of those over which media are streamed.
pub open spec fn is_remote_scheme(scheme: Seq<char>) -> bool {
    scheme == "http"@ || scheme == "https"@
}

/// An address of something to stream.
pub open spec fn is_remote_address(address: Seq<char>) -> bool {
    "http:"@.is_prefix_of(address) || "https:"@.is_prefix_of(address)
}

/// An address of a file.
pub open spec fn is_file_address(address: Seq<char>) -> bool {
    "file:"@.is_prefix_of(address)
}

/// Calls `url::Url::parse` and returns the URL in its written form. The result
/// depends on the text alone.
#[verifier::external_body]
pub(crate) fn parse_url(text: &str) -> (serialization: Option<String>)
    ensures
        match serialization {
            Some(written) => url_serialization(text@) == Some(written@),
            None => url_serialization(text@) is None,
        },
{
    url::Url::parse(text).ok().map(String::from)
}

/// Calls `url::Url::scheme` on what `url::Url::parse` returns, where that takes
/// the text. The scheme is what stands before the first colon of the URL's
/// written form, which has one.
#[verifier::external_body]
pub(crate) fn scheme_of(text: &str) -> (scheme: Option<String>)
    ensures
        match scheme {
            Some(name) => {
                &&& url_serialization(text@) is Some
                &&& name@ == before_colon(url_serialization(text@)->0)
                &&& name@.push(':').is_prefix_of(url_serialization(text@)->0)
            },
            None => url_serialization(text@) is None,
        },
{
    url::Url::parse(text).ok().map(|url| url.scheme().to_owned())
}

/// Calls `url::Url::path` on what `url::Url::parse` returns, where that takes
/// the text. The result depends on the text alone, and there is one exactly
/// where there is a URL.
#[verifier::external_body]
fn path_of(text: &str) -> (path: Option<String>)
    ensures
        match path {
            Some(path) => url_path(text@) == Some(path@) && url_serialization(text@) is Some,
            None => url_path(text@) is None && url_serialization(text@) is None,
        },
{
    url::Url::parse(text).ok().map(|url| url.path().to_owned())
}

/// Calls `url::Url::to_file_path` on what `url::Url::parse` returns for an
/// address of the scheme `file`, and says whether there is such a path. Which
/// addresses have one differs between operating systems, so that nothing is
/// claimed of the answer. Lists are dropped this way on Linux alone; on Windows, in
/// a build with debug assertions, the call fails an assertion for an address whose
/// only segment is an encoded drive letter.
#[verifier::external_body]
fn has_file_path(text: &str) -> (local: bool)
    requires
        url_scheme(text@) == Some("file"@),
{
    url::Url::parse(text).is_ok_and(|url| url.to_file_path().is_ok())
}

/// `local` is an answer that `has_file_path` gives of an address.
pub closed spec fn is_path_answer(address: Seq<char>, local: bool) -> bool {
    exists|text: &str|
        #![trigger text@]
        text@ == address && call_ensures(has_file_path, (text,), local)
}

/// Whether an address of the scheme `file` has a local path.
pub(crate) fn is_local(text: &str) -> (local: bool)
    requires
        url_scheme(text@) == Some("file"@),
    ensures
        is_path_answer(text@, local),
{
    let ask = has_file_path;
    ask(text)
}

/// The written form of a URL tells its scheme.
pub(crate) proof fn lemma_scheme_is_a_prefix(scheme: Seq<char>, address: Seq<char>)
    requires
        scheme.push(':').is_prefix_of(address),
    ensures
        is_remote_scheme(scheme) ==> is_remote_address(address),
        scheme == "file"@ ==> is_file_address(address),
{
    reveal_strlit("http");
    reveal_strlit("https");
    reveal_strlit("file");
    reveal_strlit("http:");
    reveal_strlit("https:");
    reveal_strlit("file:");
    if scheme == "http"@ {
        assert(scheme.push(':') =~= "http:"@);
    }
    if scheme == "https"@ {
        assert(scheme.push(':') =~= "https:"@);
    }
    if scheme == "file"@ {
        assert(scheme.push(':') =~= "file:"@);
    }
}

pub(crate) fn remote_scheme(scheme: &String) -> (remote: bool)
    ensures
        remote == is_remote_scheme(scheme@),
{
    *scheme == "http".to_owned() || *scheme == "https".to_owned()
}

/// The media at a URL, given its scheme and its written form where there is a
/// URL, if they are streamed.
pub fn remote_media(scheme: Option<String>, written: Option<String>) -> (uri: Option<MediaUri>)
    ensures
        match (scheme, written, uri) {
            (Some(scheme), Some(written), Some(uri)) => is_remote_scheme(scheme@) && uri.text@
                == written@,
            (Some(scheme), Some(written), None) => !is_remote_scheme(scheme@),
            (_, _, uri) => uri is None,
        },
{
    match (scheme, written) {
        (Some(scheme), Some(text)) => {
            if remote_scheme(&scheme) {
                Some(MediaUri { text })
            } else {
                None
            }
        },
        _ => None,
    }
}

/// The address that a command line argument gives, if it is one to stream from;
/// any other argument names a file.
pub fn uri_from_argument(argument: &str) -> (uri: Option<MediaUri>)
    ensures
        match uri {
            Some(uri) => {
                &&& url_scheme(argument@) is Some
                &&& is_remote_scheme(url_scheme(argument@)->0)
                &&& url_serialization(argument@) == Some(uri.text@)
                &&& is_remote_address(uri.text@)
            },
            None => !(url_scheme(argument@) is Some && is_remote_scheme(url_scheme(argument@)->0)),
        },
{
    let scheme = scheme_of(argument);
    let written = parse_url(argument);
    proof {
        if scheme is Some {
            lemma_scheme_is_a_prefix((scheme->0)@, (written->0)@);
        }
    }
    remote_media(scheme, written)
}

/// The path of a file.
#[verifier::external_type_specification]
#[verifier::external_body]
pub struct ExPathBuf(std::path::PathBuf);

/// Calls `url::Url::from_file_path` and returns the URL in its written form,
/// which starts with the scheme `file`, a colon and two slashes. Which paths have
/// an address, and how it is written, differs between operating systems, so that
/// nothing more is claimed.
#[verifier::external_body]
fn file_address(path: &std::path::PathBuf) -> (address: Option<String>)
    ensures
        address matches Some(text) ==> "file://"@.is_prefix_of(text@),
{
    url::Url::from_file_path(path).ok().map(String::from)
}

/// `address` is an answer that `file_address` gives of a path.
pub closed spec fn is_address_answer(path: std::path::PathBuf, address: Option<String>) -> bool {
    call_ensures(file_address, (&path,), address)
}

/// There are media where there is an address, and that is theirs.
pub open spec fn are_media_at(address: Option<String>, uri: Option<MediaUri>) -> bool {
    match (address, uri) {
        (Some(address), Some(uri)) => uri.text@ == address@,
        (None, None) => true,
        _ => false,
    }
}

/// The media at the address of a file, where the file has one.
pub fn media_at(address: Option<String>) -> (uri: Option<MediaUri>)
    ensures
        are_media_at(address, uri),
{
    match address {
        Some(text) => Some(MediaUri { text }),
        None => None,
    }
}

/// The address of the file at an absolute path, where it has one.
///
/// Which paths have an address is up to the operating system; what is returned
/// is what `media_at` makes of the answer for this path.
pub fn file_uri(path: &std::path::PathBuf) -> (uri: Option<MediaUri>)
    ensures
        exists|address: Option<String>| #[trigger]
            is_address_answer(*path, address) && are_media_at(address, uri),
        uri matches Some(uri) ==> is_file_address(uri.text@) && "file://"@.is_prefix_of(uri.text@),
{
    let ask = file_address;
    let address = ask(path);
    proof {
        assert(is_address_answer(*path, address));
        reveal_strlit("file:");
        reveal_strlit("file://");
        assert("file:"@ =~= "file://"@.take(5));
    }
    media_at(address)
}

/// What follows the last slash of a path.
pub open spec fn last_segment(path: Seq<char>) -> Seq<char>
    decreases path.len(),
{
    if path.len() == 0 || path.last() == '/' {
        Seq::empty()
    } else {
        last_segment(path.drop_last()).push(path.last())
    }
}

/// The title under which media are shown, given the path of their address: the
/// last segment of the path, or the whole address where that is empty.
pub open spec fn title(address: Seq<char>, path: Option<Seq<char>>) -> Seq<char> {
    match path {
        Some(path) if last_segment(path).len() > 0 => last_segment(path),
        _ => address,
    }
}

proof fn lemma_last_segment(path: Seq<char>, start: int)
    requires
        0 <= start <= path.len(),
        forall|i: int| start <= i < path.len() ==> path[i] != '/',
        start > 0 ==> path[start - 1] == '/',
    ensures
        last_segment(path) == path.skip(start),
    decreases path.len(),
{
    if start == path.len() {
        assert(path.skip(start) =~= Seq::<char>::empty());
    } else {
        lemma_last_segment(path.drop_last(), start);
        assert(path.drop_last().skip(start).push(path.last()) =~= path.skip(start));
    }
}

/// The title under which media are shown, given the path of their address.
pub fn title_from_path(address: &str, path: Option<String>) -> (shown: String)
    ensures
        shown@ == title(
            address@,
            match path {
                Some(path) => Some(path@),
                None => None,
            },
        ),
{
    if let Some(path) = path {
        let length: usize = path.as_str().unicode_len();
        let mut start: usize = length;
        while start > 0 && path.as_str().get_char(start - 1) != '/'
            invariant
                length == path@.len(),
                start <= length,
                forall|i: int| start <= i < length ==> path@[i] != '/',
            decreases start,
        {
            start -= 1;
        }
        proof {
            lemma_last_segment(path@, start as int);
        }
        if start < length {
            let shown = path.as_str().substring_char(start, length).to_owned();
            assert(shown@ =~= path@.skip(start as int));
            return shown;
        }
    }
    address.to_owned()
}

/// The title under which media are shown.
pub fn media_title(uri: &MediaUri) -> (shown: String)
    ensures
        shown@ == title(uri.text@, url_path(uri.text@)),
{
    title_from_path(uri.text.as_str(), path_of(uri.text.as_str()))
}

} // verus!
