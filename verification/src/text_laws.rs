//! What is made of text and of addresses in it, for every text.

use vstd::prelude::*;
use crate::application::{App, Command};
use crate::text::{
    is_white_space, line_end, lines, split_lines, trim, trim_end, trim_start, trimmed,
};
use crate::uri::{
    before_colon, is_path_answer, is_remote_scheme, last_segment, media_at, media_title,
    remote_media, title_from_path, uri_from_argument, url_path, url_scheme, url_serialization,
    MediaUri,
};
use crate::wayland_drop::{
    accepts, choice, choose_media, choose_media_uri, entries, first_accepted,
    first_media_uri_from_uri_list, optional_texts, outcome_text, receive_uri_list, texts, DropState,
    UserEvent,
};

verus! {

/// The characters that Unicode calls white space, one by one.
pub proof fn law_white_space(c: char)
    ensures
        is_white_space(c) <==> seq![
            '\u{9}',
            '\u{a}',
            '\u{b}',
            '\u{c}',
            '\u{d}',
            '\u{20}',
            '\u{85}',
            '\u{a0}',
            '\u{1680}',
            '\u{2000}',
            '\u{2001}',
            '\u{2002}',
            '\u{2003}',
            '\u{2004}',
            '\u{2005}',
            '\u{2006}',
            '\u{2007}',
            '\u{2008}',
            '\u{2009}',
            '\u{200a}',
            '\u{2028}',
            '\u{2029}',
            '\u{202f}',
            '\u{205f}',
            '\u{3000}',
        ].contains(c),
{
    let all = seq![
        '\u{9}',
        '\u{a}',
        '\u{b}',
        '\u{c}',
        '\u{d}',
        '\u{20}',
        '\u{85}',
        '\u{a0}',
        '\u{1680}',
        '\u{2000}',
        '\u{2001}',
        '\u{2002}',
        '\u{2003}',
        '\u{2004}',
        '\u{2005}',
        '\u{2006}',
        '\u{2007}',
        '\u{2008}',
        '\u{2009}',
        '\u{200a}',
        '\u{2028}',
        '\u{2029}',
        '\u{202f}',
        '\u{205f}',
        '\u{3000}',
    ];
    if is_white_space(c) {
        let place: int = if c <= '\u{d}' {
            c as int - 9
        } else if c == '\u{20}' {
            5
        } else if c == '\u{85}' {
            6
        } else if c == '\u{a0}' {
            7
        } else if c == '\u{1680}' {
            8
        } else if c <= '\u{200a}' {
            c as int - 0x2000 + 9
        } else if c == '\u{2028}' {
            20
        } else if c == '\u{2029}' {
            21
        } else if c == '\u{202f}' {
            22
        } else if c == '\u{205f}' {
            23
        } else {
            24
        };
        assert(all[place] == c);
    }
}

proof fn lemma_line_end_before(first: Seq<char>, rest: Seq<char>)
    requires
        !first.contains('\n'),
    ensures
        line_end(first + seq!['\n'] + rest) == first.len(),
    decreases first.len(),
{
    let text = first + seq!['\n'] + rest;
    if first.len() > 0 {
        assert(first[0] != '\n') by {
            assert(first.contains(first[0]));
        }
        assert(text.drop_first() =~= first.drop_first() + seq!['\n'] + rest);
        assert(!first.drop_first().contains('\n')) by {
            if first.drop_first().contains('\n') {
                let i = choose|i: int|
                    0 <= i < first.drop_first().len() && first.drop_first()[i] == '\n';
                assert(first[i + 1] == '\n');
            }
        }
        lemma_line_end_before(first.drop_first(), rest);
    }
}

proof fn lemma_line_end_without(text: Seq<char>)
    requires
        !text.contains('\n'),
    ensures
        line_end(text) == text.len(),
    decreases text.len(),
{
    if text.len() > 0 {
        assert(text[0] != '\n') by {
            assert(text.contains(text[0]));
        }
        assert(!text.drop_first().contains('\n')) by {
            if text.drop_first().contains('\n') {
                let i = choose|i: int|
                    0 <= i < text.drop_first().len() && text.drop_first()[i] == '\n';
                assert(text[i + 1] == '\n');
            }
        }
        lemma_line_end_without(text.drop_first());
    }
}

/// A text that goes on behind a line feed has the line before it, without one
/// carriage return at its end, and then the lines of the rest. A text without line
/// feeds is a line of its own, if it is not empty.
pub proof fn law_lines_end_at_line_feeds(first: Seq<char>, rest: Seq<char>)
    requires
        !first.contains('\n'),
    ensures
        first.len() > 0 && first.last() == '\r' ==> lines(first + seq!['\n'] + rest) == seq![
            first.drop_last(),
        ] + lines(rest),
        !(first.len() > 0 && first.last() == '\r') ==> lines(first + seq!['\n'] + rest) == seq![
            first,
        ] + lines(rest),
        first.len() > 0 ==> lines(first) == seq![first],
        lines(Seq::empty()).len() == 0,
{
    let text = first + seq!['\n'] + rest;
    lemma_line_end_before(first, rest);
    lemma_line_end_without(first);
    assert(text.take(first.len() as int) =~= first);
    assert(text.skip((first.len() + 1) as int) =~= rest);
}

/// Splitting gives the lines, in order.
pub proof fn law_splitting_gives_the_lines(text: &str, found: Vec<String>)
    requires
        call_ensures(split_lines, (text,), found),
    ensures
        texts(found@) == lines(text@),
{
    assert(texts(found@) =~= lines(text@)) by {
        assert forall|i: int| 0 <= i < found@.len() implies texts(found@)[i] == lines(text@)[i] by {
            assert(found@[i]@ == lines(text@)[i]);
        }
    }
}

/// White space and nothing else.
pub open spec fn is_blank(text: Seq<char>) -> bool {
    forall|i: int| 0 <= i < text.len() ==> is_white_space(#[trigger] text[i])
}

proof fn lemma_trim_start_of(before: Seq<char>, rest: Seq<char>)
    requires
        is_blank(before),
        rest.len() > 0 ==> !is_white_space(rest[0]),
    ensures
        trim_start(before + rest) == rest,
    decreases before.len(),
{
    if before.len() > 0 {
        assert((before + rest).drop_first() =~= before.drop_first() + rest);
        lemma_trim_start_of(before.drop_first(), rest);
        assert(is_white_space(before[0]));
    } else {
        assert(before + rest =~= rest);
    }
}

proof fn lemma_trim_end_of(rest: Seq<char>, after: Seq<char>)
    requires
        is_blank(after),
        rest.len() > 0 ==> !is_white_space(rest.last()),
    ensures
        trim_end(rest + after) == rest,
    decreases after.len(),
{
    if after.len() > 0 {
        assert((rest + after).drop_last() =~= rest + after.drop_last());
        lemma_trim_end_of(rest, after.drop_last());
        assert(is_white_space(after.last()));
    } else {
        assert(rest + after =~= rest);
    }
}

/// Trimming takes the white space around a text and leaves what lies between,
/// white space within it included.
pub proof fn law_trimming_leaves_what_lies_between(
    before: Seq<char>,
    text: Seq<char>,
    after: Seq<char>,
)
    requires
        is_blank(before),
        is_blank(after),
        text.len() > 0,
        !is_white_space(text[0]),
        !is_white_space(text.last()),
    ensures
        trimmed(before + text + after) == text,
        trimmed(before) == Seq::<char>::empty(),
{
    assert(before + text + after =~= before + (text + after));
    lemma_trim_start_of(before, text + after);
    lemma_trim_end_of(text, after);
    lemma_trim_start_of(before, Seq::empty());
    assert(before + Seq::<char>::empty() =~= before);
}

/// Trimming gives the trimmed text.
pub proof fn law_trim_gives_the_trimmed_text(text: &str, rest: String)
    requires
        call_ensures(trim, (text,), rest),
    ensures
        rest@ == trimmed(text@),
{
}

/// The entries of a list are those of its parts, one part after another; a line
/// is an entry, without the white space around it, unless nothing is left or it
/// starts with a number sign.
pub proof fn law_entries_are_the_lines_that_say_something(
    found: Seq<Seq<char>>,
    line: Seq<char>,
)
    ensures
        ({
            let says_nothing = trimmed(line).len() == 0 || trimmed(line)[0] == '#';
            &&& says_nothing ==> entries(found.push(line)) == entries(found)
            &&& !says_nothing ==> entries(found.push(line)) == entries(found).push(trimmed(line))
            &&& entries(Seq::empty()).len() == 0
        }),
{
    assert(found.push(line).drop_last() =~= found);
}

/// The scheme of an address is what stands before its first colon.
pub proof fn law_the_scheme_stands_before_the_colon(scheme: Seq<char>, rest: Seq<char>)
    requires
        !scheme.contains(':'),
    ensures
        before_colon(scheme + seq![':'] + rest) == scheme,
    decreases scheme.len(),
{
    let text = scheme + seq![':'] + rest;
    if scheme.len() > 0 {
        assert(scheme[0] != ':') by {
            assert(scheme.contains(scheme[0]));
        }
        assert(text.drop_first() =~= scheme.drop_first() + seq![':'] + rest);
        assert(!scheme.drop_first().contains(':')) by {
            if scheme.drop_first().contains(':') {
                let i = choose|i: int|
                    0 <= i < scheme.drop_first().len() && scheme.drop_first()[i] == ':';
                assert(scheme[i + 1] == ':');
            }
        }
        law_the_scheme_stands_before_the_colon(scheme.drop_first(), rest);
        assert(seq![scheme[0]] + scheme.drop_first() =~= scheme);
    } else {
        assert(before_colon(text) =~= scheme);
    }
}

/// Two schemes are streamed from: http and https.
pub proof fn law_two_schemes_are_streamed_from(scheme: Seq<char>)
    ensures
        is_remote_scheme(scheme) <==> scheme == seq!['h', 't', 't', 'p'] || scheme == seq![
            'h',
            't',
            't',
            'p',
            's',
        ],
{
    reveal_strlit("http");
    reveal_strlit("https");
    assert("http"@ =~= seq!['h', 't', 't', 'p']);
    assert("https"@ =~= seq!['h', 't', 't', 'p', 's']);
}

/// Media are streamed exactly where there is a URL with one of these schemes, and
/// from the URL as it is written.
pub proof fn law_remote_media_are_where_their_url_says(
    scheme: Option<String>,
    written: Option<String>,
    uri: Option<MediaUri>,
)
    requires
        call_ensures(remote_media, (scheme, written), uri),
    ensures
        uri is Some <==> scheme is Some && written is Some && ((scheme->0)@ == seq![
            'h',
            't',
            't',
            'p',
        ] || (scheme->0)@ == seq!['h', 't', 't', 'p', 's']),
        uri matches Some(uri) ==> uri.text@ == (written->0)@,
{
    if let Some(scheme) = scheme {
        law_two_schemes_are_streamed_from(scheme@);
    }
}

/// Media with an address are at that address, and without one there are none.
pub proof fn law_media_are_at_their_address(address: Option<String>, uri: Option<MediaUri>)
    requires
        call_ensures(media_at, (address,), uri),
    ensures
        uri is Some <==> address is Some,
        uri matches Some(uri) ==> uri.text@ == (address->0)@,
{
}

proof fn lemma_last_segment_without(tail: Seq<char>)
    requires
        !tail.contains('/'),
    ensures
        last_segment(tail) == tail,
    decreases tail.len(),
{
    if tail.len() > 0 {
        assert(tail.last() != '/') by {
            assert(tail.contains(tail.last()));
        }
        assert(!tail.drop_last().contains('/')) by {
            if tail.drop_last().contains('/') {
                let i = choose|i: int|
                    0 <= i < tail.drop_last().len() && tail.drop_last()[i] == '/';
                assert(tail[i] == '/');
            }
        }
        lemma_last_segment_without(tail.drop_last());
        assert(tail.drop_last().push(tail.last()) =~= tail);
    }
}

proof fn lemma_last_segment_after(head: Seq<char>, tail: Seq<char>)
    requires
        !tail.contains('/'),
    ensures
        last_segment(head + seq!['/'] + tail) == tail,
    decreases tail.len(),
{
    let path = head + seq!['/'] + tail;
    if tail.len() > 0 {
        assert(tail.last() != '/') by {
            assert(tail.contains(tail.last()));
        }
        assert(!tail.drop_last().contains('/')) by {
            if tail.drop_last().contains('/') {
                let i = choose|i: int|
                    0 <= i < tail.drop_last().len() && tail.drop_last()[i] == '/';
                assert(tail[i] == '/');
            }
        }
        assert(path.drop_last() =~= head + seq!['/'] + tail.drop_last());
        lemma_last_segment_after(head, tail.drop_last());
        assert(tail.drop_last().push(tail.last()) =~= tail);
    } else {
        assert(path.last() == '/');
    }
}

/// The title of media is what follows the last slash of their path, or their
/// whole address where nothing follows or there is no path.
pub proof fn law_the_title_follows_the_last_slash(
    address: &str,
    path: Option<String>,
    head: Seq<char>,
    tail: Seq<char>,
    shown: String,
)
    requires
        call_ensures(title_from_path, (address, path), shown),
        !tail.contains('/'),
        path matches Some(path) ==> path@ == head + seq!['/'] + tail || path@ == tail,
    ensures
        path is Some && tail.len() > 0 ==> shown@ == tail,
        path is None || tail.len() == 0 ==> shown@ == address@,
{
    lemma_last_segment_after(head, tail);
    lemma_last_segment_without(tail);
}

/// The title of media is that of the path of their address.
pub proof fn law_media_have_the_title_of_their_path(
    uri: &MediaUri,
    address: &str,
    path: Option<String>,
    shown: String,
    title: String,
)
    requires
        call_ensures(media_title, (uri,), shown),
        address@ == uri.text@,
        match (path, url_path(uri.text@)) {
            (Some(path), Some(named)) => path@ == named,
            (None, None) => true,
            _ => false,
        },
        call_ensures(title_from_path, (address, path), title),
    ensures
        shown@ == title@,
{
}

/// An entry that can be played: it is a URL, and either streamed or a file with a
/// path.
pub open spec fn plays(scheme: Option<String>, written: Option<String>, local: bool) -> bool {
    &&& scheme is Some
    &&& written is Some
    &&& (scheme->0)@ == seq!['h', 't', 't', 'p'] || (scheme->0)@ == seq!['h', 't', 't', 'p', 's']
        || ((scheme->0)@ == seq!['f', 'i', 'l', 'e'] && local)
}

/// Of a list the first entry that can be played is taken, as its URL is written.
/// Where none can be played, there is a complaint about the first entry, or about
/// there being none.
pub proof fn law_the_first_entry_that_plays_is_taken(
    list: &Vec<String>,
    schemes: &Vec<Option<String>>,
    written: &Vec<Option<String>>,
    local: &Vec<bool>,
    outcome: Result<MediaUri, String>,
)
    requires
        schemes@.len() == list@.len(),
        written@.len() == list@.len(),
        local@.len() == list@.len(),
        call_ensures(choose_media, (list, schemes, written, local), outcome),
    ensures
        match outcome {
            Ok(uri) => exists|place: int|
                {
                    &&& 0 <= place < list@.len()
                    &&& #[trigger] plays(schemes@[place], written@[place], local@[place])
                    &&& uri.text@ == (written@[place]->0)@
                    &&& forall|i: int|
                        0 <= i < place ==> !#[trigger] plays(schemes@[i], written@[i], local@[i])
                },
            Err(complaint) => {
                &&& forall|i: int|
                    0 <= i < list@.len() ==> !#[trigger] plays(schemes@[i], written@[i], local@[i])
                &&& list@.len() > 0 ==> complaint@ == "unsupported dropped URI: "@ + list@[0]@
                &&& list@.len() == 0 ==> complaint@ == "the drop contained no local files"@
            },
        },
{
    let names = optional_texts(schemes@);
    let forms = optional_texts(written@);
    let first = first_accepted(names, forms, local@);
    crate::wayland_drop::lemma_first_accepted_is_the_first(names, forms, local@);
    reveal_strlit("http");
    reveal_strlit("https");
    reveal_strlit("file");
    assert("http"@ =~= seq!['h', 't', 't', 'p']);
    assert("https"@ =~= seq!['h', 't', 't', 'p', 's']);
    assert("file"@ =~= seq!['f', 'i', 'l', 'e']);
    assert forall|i: int| 0 <= i < list@.len() implies #[trigger] plays(
        schemes@[i],
        written@[i],
        local@[i],
    ) == accepts(names[i], forms[i], local@[i]) by {}
    assert forall|i: int| 0 <= i < first implies !#[trigger] plays(
        schemes@[i],
        written@[i],
        local@[i],
    ) by {
        assert(!accepts(names[i], forms[i], local@[i]));
    }
    if first < list@.len() {
        assert(plays(schemes@[first], written@[first], local@[first]));
    }
}

/// The scheme and the written form that a text has as a URL.
pub open spec fn is_url(text: Seq<char>, scheme: Seq<char>, written: Seq<char>) -> bool {
    &&& url_serialization(text) == Some(written)
    &&& url_scheme(text) == Some(scheme)
    &&& scheme == before_colon(written)
}

/// An entry of a list that can be played, with its written form.
pub open spec fn is_played_as(entry: Seq<char>, local: bool, written: Seq<char>) -> bool {
    exists|scheme: Seq<char>|
        {
            &&& #[trigger] is_url(entry, scheme, written)
            &&& scheme == seq!['h', 't', 't', 'p'] || scheme == seq!['h', 't', 't', 'p', 's'] || (
            scheme == seq!['f', 'i', 'l', 'e'] && local)
        }
}

proof fn lemma_played(entry: Seq<char>, local: bool)
    ensures
        crate::wayland_drop::is_playable(entry, local) <==> url_serialization(entry) is Some
            && is_played_as(entry, local, url_serialization(entry)->0),
        forall|written: Seq<char>| #[trigger]
            is_played_as(entry, local, written) ==> url_serialization(entry) == Some(written),
{
    reveal_strlit("http");
    reveal_strlit("https");
    reveal_strlit("file");
    assert("http"@ =~= seq!['h', 't', 't', 'p']);
    assert("https"@ =~= seq!['h', 't', 't', 'p', 's']);
    assert("file"@ =~= seq!['f', 'i', 'l', 'e']);
    if crate::wayland_drop::is_playable(entry, local) {
        assert(is_url(entry, url_scheme(entry)->0, url_serialization(entry)->0));
    }
}

/// What a list comes to, given which of its entries have a local path: the
/// written form of the first entry that can be played, or a complaint where none can.
pub proof fn law_a_list_comes_to_its_first_entry_that_plays(
    list: Seq<Seq<char>>,
    local: Seq<bool>,
)
    requires
        local.len() == list.len(),
    ensures
        match choice(list, local) {
            Ok(address) => exists|place: int|
                {
                    &&& 0 <= place < list.len()
                    &&& is_played_as(#[trigger] list[place], local[place], address)
                    &&& forall|i: int, written: Seq<char>|
                        0 <= i < place ==> !#[trigger] is_played_as(list[i], local[i], written)
                },
            Err(complaint) => {
                &&& forall|i: int, written: Seq<char>|
                    0 <= i < list.len() ==> !#[trigger] is_played_as(list[i], local[i], written)
                &&& list.len() > 0 ==> complaint == "unsupported dropped URI: "@ + list[0]
                &&& list.len() == 0 ==> complaint == "the drop contained no local files"@
            },
        },
{
    crate::wayland_drop::law_first_playable_is_the_first(list, local);
    let first = crate::wayland_drop::first_playable(list, local);
    assert forall|i: int, written: Seq<char>| 0 <= i < first implies !#[trigger] is_played_as(
        list[i],
        local[i],
        written,
    ) by {
        lemma_played(list[i], local[i]);
        assert(!crate::wayland_drop::is_playable(list[i], local[i]));
    }
    if first < list.len() {
        lemma_played(list[first], local[first]);
        assert(is_played_as(list[first], local[first], url_serialization(list[first])->0));
    }
}

/// Choosing from a list gives what the list comes to.
pub proof fn law_choosing_gives_what_the_list_comes_to(
    list: &Vec<String>,
    local: &Vec<bool>,
    outcome: Result<MediaUri, String>,
)
    requires
        call_ensures(choose_media_uri, (list, local), outcome),
    ensures
        outcome_text(outcome) == choice(texts(list@), local@),
        outcome is Ok <==> choice(texts(list@), local@) is Ok,
        outcome matches Ok(uri) ==> choice(texts(list@), local@)->Ok_0 == uri.text@,
        outcome matches Err(complaint) ==> choice(texts(list@), local@)->Err_0 == complaint@,
{
}

/// The operating system's answers on the entries of a list: each entry of the
/// scheme `file` has the answer that was given for it, and the others are not local.
pub open spec fn are_answers(list: Seq<Seq<char>>, local: Seq<bool>) -> bool {
    &&& local.len() == list.len()
    &&& forall|i: int|
        0 <= i < list.len() && url_scheme(#[trigger] list[i]) == Some("file"@) ==> is_path_answer(
            list[i],
            local[i],
        )
    &&& forall|i: int|
        0 <= i < list.len() && url_scheme(#[trigger] list[i]) != Some("file"@) ==> !local[i]
}

/// What was read of a drop leads to what its list comes to with the operating
/// system's answers, and a failed read to its error.
pub proof fn law_a_drop_leads_to_what_its_list_comes_to(
    data: Result<String, String>,
    event: UserEvent,
)
    requires
        call_ensures(receive_uri_list, (data,), event),
    ensures
        data matches Err(error) ==> (event matches UserEvent::DropError(text) && text@ == error@),
        data matches Ok(data) ==> exists|local: Seq<bool>|
            {
                &&& are_answers(entries(lines(data@)), local)
                &&& match #[trigger] choice(entries(lines(data@)), local) {
                    Ok(address) => event matches UserEvent::DroppedMedia(uri) && uri.text@
                        == address,
                    Err(complaint) => event matches UserEvent::DropError(text) && text@
                        == complaint,
                }
            },
{
    if let Ok(data) = data {
        let list = entries(lines(data@));
        let local = choose|local: Seq<bool>|
            {
                &&& crate::wayland_drop::are_local(list, local)
                &&& match #[trigger] choice(list, local) {
                    Ok(address) => event matches UserEvent::DroppedMedia(uri) && uri.text@
                        == address,
                    Err(complaint) => event matches UserEvent::DropError(text) && text@
                        == complaint,
                }
            };
        assert(are_answers(list, local));
    }
}

/// A text of a list comes to the same as what was read of it.
pub proof fn law_a_text_leads_to_what_its_list_comes_to(
    data: &str,
    outcome: Result<MediaUri, String>,
)
    requires
        call_ensures(first_media_uri_from_uri_list, (data,), outcome),
    ensures
        exists|local: Seq<bool>|
            {
                &&& are_answers(entries(lines(data@)), local)
                &&& match #[trigger] choice(entries(lines(data@)), local) {
                    Ok(address) => outcome matches Ok(uri) && uri.text@ == address,
                    Err(complaint) => outcome matches Err(text) && text@ == complaint,
                }
            },
{
    let list = entries(lines(data@));
    let local = choose|local: Seq<bool>|
        {
            &&& crate::wayland_drop::are_local(list, local)
            &&& outcome_text(outcome) == #[trigger] choice(list, local)
        };
    assert(are_answers(list, local));
}

/// An argument is an address to stream from exactly where it is a URL with the
/// scheme http or https, and the address is the URL as it is written.
pub proof fn law_an_argument_to_stream_from(
    argument: &str,
    uri: Option<MediaUri>,
)
    requires
        call_ensures(uri_from_argument, (argument,), uri),
    ensures
        uri matches Some(uri) ==> exists|scheme: Seq<char>|
            {
                &&& #[trigger] is_url(argument@, scheme, uri.text@)
                &&& scheme == seq!['h', 't', 't', 'p'] || scheme == seq!['h', 't', 't', 'p', 's']
            },
        uri is None ==> forall|scheme: Seq<char>, written: Seq<char>| #[trigger]
            is_url(argument@, scheme, written) ==> scheme != seq!['h', 't', 't', 'p'] && scheme
                != seq!['h', 't', 't', 'p', 's'],
{
    if url_scheme(argument@) is Some {
        law_two_schemes_are_streamed_from(url_scheme(argument@)->0);
        assert(is_url(argument@, url_scheme(argument@)->0, url_serialization(argument@)->0));
    }
}

/// Dropped media are loaded, and what is wrong with a drop is told.
pub proof fn law_drops_are_loaded_or_told(event: UserEvent, command: Command)
    requires
        call_ensures(App::user_event, (event,), command),
    ensures
        event matches UserEvent::DroppedMedia(uri) ==> command == Command::Load(uri),
        event matches UserEvent::DropError(error) ==> (command matches Command::Report(message)
            && message@ == "Could not read dropped media: "@ + error@),
{
}

/// A drag is accepted over the window exactly where it offers a list of addresses,
/// and a drop is read exactly where the last drag that entered was over the window,
/// has not left, and such a list is offered.
pub proof fn law_lists_are_taken_over_the_window(
    state: &mut DropState,
    gone: &mut DropState,
    on_target: bool,
    types: &Option<Vec<String>>,
    accept: bool,
    receive: bool,
    receive_later: bool,
)
    requires
        call_ensures(DropState::enter, (state, on_target, types), accept),
        call_ensures(DropState::drop_performed, (&*final(state), types), receive),
        *final(state) == *old(gone),
        call_ensures(DropState::leave, (gone,), ()),
        call_ensures(DropState::drop_performed, (&*final(gone), types), receive_later),
    ensures
        ({
            let listed = types matches Some(types) && texts(types@).contains("text/uri-list"@);
            &&& accept == (on_target && listed)
            &&& receive == (on_target && listed)
            &&& !receive_later
        }),
{
}

} // verus!
