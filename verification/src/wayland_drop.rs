//! Media that are dropped onto the window.

use vstd::prelude::*;
use vstd::string::{StrSliceExecFns, StringExecFns};
use crate::text::{
    is_white_space, law_trimming_leaves_no_outer_white_space, lines, split_lines, trim, trimmed,
};
use crate::uri::{
    is_file_address, is_local, is_path_answer, is_remote_address, is_remote_scheme,
    lemma_scheme_is_a_prefix, parse_url, remote_scheme, scheme_of, url_scheme, url_serialization,
    MediaUri,
};

verus! {

/// What a drop leads to.
#[derive(Debug, PartialEq, Eq)]
pub enum UserEvent {
    DroppedMedia(MediaUri),
    DropError(String),
}

/// A line of a list that is empty or a comment.
pub open spec fn is_ignored(line: Seq<char>) -> bool {
    line.len() == 0 || line[0] == '#'
}

/// The entries of a list of addresses: its lines without the white space
/// around them, save empty ones and comments.
pub open spec fn entries(found: Seq<Seq<char>>) -> Seq<Seq<char>>
    decreases found.len(),
{
    if found.len() == 0 {
        Seq::empty()
    } else {
        let before = entries(found.drop_last());
        let line = trimmed(found.last());
        if is_ignored(line) {
            before
        } else {
            before.push(line)
        }
    }
}

/// A URL with a scheme and a written form can be played: it is an address to
/// stream from, or that of a file, where `local` says that the file has a path.
pub open spec fn accepts(scheme: Option<Seq<char>>, written: Option<Seq<char>>, local: bool) -> bool {
    &&& written is Some
    &&& scheme matches Some(scheme) && (is_remote_scheme(scheme) || (scheme == "file"@ && local))
}

/// The place of the first URL that can be played, or the number of URLs.
pub open spec fn first_accepted(
    schemes: Seq<Option<Seq<char>>>,
    written: Seq<Option<Seq<char>>>,
    local: Seq<bool>,
) -> int
    decreases schemes.len(),
{
    if schemes.len() == 0 {
        0
    } else {
        let last = schemes.len() - 1;
        let before = first_accepted(schemes.drop_last(), written, local);
        if before < last || accepts(schemes[last], written[last], local[last]) {
            before
        } else {
            schemes.len() as int
        }
    }
}

/// What is taken of a list, given the schemes and written forms of its entries
/// and which of them have a local path: the first entry that can be played, or
/// else a complaint about the first entry.
pub open spec fn choice_among(
    list: Seq<Seq<char>>,
    schemes: Seq<Option<Seq<char>>>,
    written: Seq<Option<Seq<char>>>,
    local: Seq<bool>,
) -> Result<Seq<char>, Seq<char>> {
    let first = first_accepted(schemes, written, local);
    if first < list.len() {
        Ok(written[first]->0)
    } else if list.len() > 0 {
        Err("unsupported dropped URI: "@ + list[0])
    } else {
        Err("the drop contained no local files"@)
    }
}

/// The schemes of the entries that are URLs.
pub open spec fn schemes_of(list: Seq<Seq<char>>) -> Seq<Option<Seq<char>>> {
    Seq::new(list.len(), |i: int| url_scheme(list[i]))
}

/// The written forms of the entries that are URLs.
pub open spec fn written_forms(list: Seq<Seq<char>>) -> Seq<Option<Seq<char>>> {
    Seq::new(list.len(), |i: int| url_serialization(list[i]))
}

/// The entry `line` can be played.
pub open spec fn is_playable(line: Seq<char>, local: bool) -> bool {
    accepts(url_scheme(line), url_serialization(line), local)
}

/// The place of the first entry that can be played, or the number of entries.
pub open spec fn first_playable(list: Seq<Seq<char>>, local: Seq<bool>) -> int {
    first_accepted(schemes_of(list), written_forms(list), local)
}

/// What is taken of a list, given which entries have a local path.
pub open spec fn choice(list: Seq<Seq<char>>, local: Seq<bool>) -> Result<Seq<char>, Seq<char>> {
    choice_among(list, schemes_of(list), written_forms(list), local)
}

/// The text of an address or of a complaint.
pub open spec fn outcome_text(outcome: Result<MediaUri, String>) -> Result<Seq<char>, Seq<char>> {
    match outcome {
        Ok(uri) => Ok(uri.text@),
        Err(complaint) => Err(complaint@),
    }
}

/// The texts of some strings.
pub open spec fn texts(strings: Seq<String>) -> Seq<Seq<char>> {
    Seq::new(strings.len(), |i: int| strings[i]@)
}

/// The texts of some strings, where they are there.
pub open spec fn optional_texts(strings: Seq<Option<String>>) -> Seq<Option<Seq<char>>> {
    Seq::new(
        strings.len(),
        |i: int|
            match strings[i] {
                Some(text) => Some(text@),
                None => None,
            },
    )
}

/// The entries of a list of addresses.
fn list_entries(data: &str) -> (list: Vec<String>)
    ensures
        texts(list@) == entries(lines(data@)),
{
    let found = split_lines(data);
    let mut list: Vec<String> = Vec::new();
    let mut next: usize = 0;
    let ghost all = lines(data@);
    assert(texts(list@) =~= entries(all.take(0)));
    while next < found.len()
        invariant
            next <= found@.len(),
            found@.len() == all.len(),
            forall|i: int| 0 <= i < found@.len() ==> (#[trigger] found@[i])@ == all[i],
            texts(list@) == entries(all.take(next as int)),
        decreases found@.len() - next,
    {
        let line = trim(found[next].as_str());
        assert(all.take(next + 1).drop_last() =~= all.take(next as int));
        let ghost before = list@;
        if line.as_str().unicode_len() > 0 && line.as_str().get_char(0) != '#' {
            list.push(line);
            assert(texts(list@) =~= texts(before).push(line@));
        }
        next += 1;
    }
    assert(all.take(all.len() as int) =~= all);
    list
}

/// Takes the first entry that can be played, given the scheme and the written
/// form of each entry that is a URL, and whether it has a local path.
pub fn choose_media(
    list: &Vec<String>,
    schemes: &Vec<Option<String>>,
    written: &Vec<Option<String>>,
    local: &Vec<bool>,
) -> (outcome: Result<MediaUri, String>)
    requires
        schemes@.len() == list@.len(),
        written@.len() == list@.len(),
        local@.len() == list@.len(),
    ensures
        outcome_text(outcome) == choice_among(
            texts(list@),
            optional_texts(schemes@),
            optional_texts(written@),
            local@,
        ),
{
    let ghost names = optional_texts(schemes@);
    let ghost forms = optional_texts(written@);
    let mut next: usize = 0;
    while next < list.len()
        invariant
            schemes@.len() == list@.len(),
            written@.len() == list@.len(),
            local@.len() == list@.len(),
            names == optional_texts(schemes@),
            forms == optional_texts(written@),
            next <= list@.len(),
            first_accepted(names.take(next as int), forms, local@) == next,
        decreases list@.len() - next,
    {
        assert(names.take(next + 1).drop_last() =~= names.take(next as int));
        if let (Some(scheme), Some(text)) = (&schemes[next], &written[next]) {
            if remote_scheme(scheme) || (*scheme == "file".to_owned() && local[next]) {
                proof {
                    lemma_first_accepted(names, forms, local@, next as int);
                }
                return Ok(MediaUri { text: text.as_str().to_owned() });
            }
        }
        next += 1;
    }
    assert(names.take(names.len() as int) =~= names);
    if list.len() > 0 {
        Err("unsupported dropped URI: ".to_owned().concat(list[0].as_str()))
    } else {
        Err("the drop contained no local files".to_owned())
    }
}

/// Takes the first entry that can be played, where `local` says of each entry
/// whether it has a local path.
pub fn choose_media_uri(list: &Vec<String>, local: &Vec<bool>) -> (outcome: Result<
    MediaUri,
    String,
>)
    requires
        local@.len() == list@.len(),
    ensures
        outcome_text(outcome) == choice(texts(list@), local@),
        outcome matches Ok(uri) ==> is_remote_address(uri.text@) || is_file_address(uri.text@),
{
    let ghost all = texts(list@);
    let mut schemes: Vec<Option<String>> = Vec::new();
    let mut written: Vec<Option<String>> = Vec::new();
    let mut next: usize = 0;
    assert(optional_texts(schemes@) =~= schemes_of(all.take(0)));
    assert(optional_texts(written@) =~= written_forms(all.take(0)));
    while next < list.len()
        invariant
            all == texts(list@),
            next <= list@.len(),
            schemes@.len() == next,
            written@.len() == next,
            optional_texts(schemes@) == schemes_of(all.take(next as int)),
            optional_texts(written@) == written_forms(all.take(next as int)),
            forall|i: int|
                0 <= i < next ==> #[trigger] has_its_scheme(
                    url_scheme(all[i]),
                    url_serialization(all[i]),
                ),
        decreases list@.len() - next,
    {
        let ghost names = optional_texts(schemes@);
        let ghost forms = optional_texts(written@);
        schemes.push(scheme_of(list[next].as_str()));
        written.push(parse_url(list[next].as_str()));
        next += 1;
        let ghost line = all[next - 1];
        assert(optional_texts(schemes@) =~= names.push(url_scheme(line)));
        assert(optional_texts(written@) =~= forms.push(url_serialization(line)));
        assert(schemes_of(all.take(next as int)) =~= names.push(url_scheme(line)));
        assert(written_forms(all.take(next as int)) =~= forms.push(url_serialization(line)));
    }
    assert(all.take(next as int) =~= all);
    let outcome = choose_media(list, &schemes, &written, local);
    proof {
        law_first_playable_is_the_first(all, local@);
        let first = first_playable(all, local@);
        if first < all.len() {
            assert(has_its_scheme(url_scheme(all[first]), url_serialization(all[first])));
            lemma_scheme_is_a_prefix(
                url_scheme(all[first])->0,
                url_serialization(all[first])->0,
            );
        }
    }
    outcome
}

/// A URL's written form starts with its scheme and a colon.
spec fn has_its_scheme(scheme: Option<Seq<char>>, written: Option<Seq<char>>) -> bool {
    scheme is Some ==> written is Some && (scheme->0).push(':').is_prefix_of(written->0)
}

proof fn lemma_first_accepted(
    schemes: Seq<Option<Seq<char>>>,
    written: Seq<Option<Seq<char>>>,
    local: Seq<bool>,
    place: int,
)
    requires
        0 <= place < schemes.len(),
        first_accepted(schemes.take(place), written, local) == place,
        accepts(schemes[place], written[place], local[place]),
    ensures
        first_accepted(schemes, written, local) == place,
    decreases schemes.len(),
{
    if place == schemes.len() - 1 {
        assert(schemes.take(place) =~= schemes.drop_last());
    } else {
        assert(schemes.drop_last().take(place) =~= schemes.take(place));
        lemma_first_accepted(schemes.drop_last(), written, local, place);
    }
}

/// Which of the entries have a local path: of the scheme `file` those of which
/// the operating system says so, and no others.
pub open spec fn are_local(list: Seq<Seq<char>>, local: Seq<bool>) -> bool {
    &&& local.len() == list.len()
    &&& forall|i: int|
        0 <= i < list.len() ==> if url_scheme(#[trigger] list[i]) == Some("file"@) {
            is_path_answer(list[i], local[i])
        } else {
            !local[i]
        }
}

/// The first entry of a list of addresses that can be played, or a complaint.
///
/// Which entries of the scheme `file` have a local path is up to the operating
/// system; the outcome is what `choice` takes for one such answer per entry.
pub fn first_media_uri_from_uri_list(data: &str) -> (outcome: Result<MediaUri, String>)
    ensures
        exists|local: Seq<bool>|
            {
                &&& are_local(entries(lines(data@)), local)
                &&& outcome_text(outcome) == #[trigger] choice(entries(lines(data@)), local)
            },
        outcome matches Ok(uri) ==> is_remote_address(uri.text@) || is_file_address(uri.text@),
{
    let list = list_entries(data);
    let mut local: Vec<bool> = Vec::new();
    let mut next: usize = 0;
    while next < list.len()
        invariant
            next <= list@.len(),
            local@.len() == next,
            are_local(texts(list@).take(next as int), local@),
        decreases list@.len() - next,
    {
        let is_file: bool = match scheme_of(list[next].as_str()) {
            Some(scheme) => scheme == "file".to_owned(),
            None => false,
        };
        let ghost asked = texts(list@).take(next as int);
        let ghost before = local@;
        local.push(is_file && is_local(list[next].as_str()));
        next += 1;
        assert forall|i: int| 0 <= i < next implies if url_scheme(
            #[trigger] texts(list@).take(next as int)[i],
        ) == Some("file"@) {
            is_path_answer(texts(list@).take(next as int)[i], local@[i])
        } else {
            !local@[i]
        } by {
            if i < next - 1 {
                assert(asked[i] == texts(list@).take(next as int)[i]);
                assert(before[i] == local@[i]);
            }
        }
    }
    let outcome = choose_media_uri(&list, &local);
    assert(texts(list@).take(next as int) =~= texts(list@));
    outcome
}

/// What follows from reading the dropped data: the media that it lists, or what
/// went wrong.
pub fn receive_uri_list(data: Result<String, String>) -> (event: UserEvent)
    ensures
        match data {
            Err(error) => event matches UserEvent::DropError(text) && text@ == error@,
            Ok(data) => exists|local: Seq<bool>|
                {
                    &&& are_local(entries(lines(data@)), local)
                    &&& match #[trigger] choice(entries(lines(data@)), local) {
                        Ok(address) => event matches UserEvent::DroppedMedia(uri) && uri.text@
                            == address,
                        Err(complaint) => event matches UserEvent::DropError(text) && text@
                            == complaint,
                    }
                },
        },
        event matches UserEvent::DroppedMedia(uri) ==> is_remote_address(uri.text@)
            || is_file_address(uri.text@),
{
    match data {
        Err(error) => UserEvent::DropError(error),
        Ok(data) => match first_media_uri_from_uri_list(data.as_str()) {
            Ok(uri) => UserEvent::DroppedMedia(uri),
            Err(complaint) => UserEvent::DropError(complaint),
        },
    }
}

pub(crate) proof fn lemma_first_accepted_is_the_first(
    schemes: Seq<Option<Seq<char>>>,
    written: Seq<Option<Seq<char>>>,
    local: Seq<bool>,
)
    ensures
        ({
            let first = first_accepted(schemes, written, local);
            &&& 0 <= first <= schemes.len()
            &&& forall|i: int|
                0 <= i < first ==> !accepts(#[trigger] schemes[i], written[i], local[i])
            &&& first < schemes.len() ==> accepts(schemes[first], written[first], local[first])
        }),
    decreases schemes.len(),
{
    if schemes.len() > 0 {
        let shorter = schemes.drop_last();
        lemma_first_accepted_is_the_first(shorter, written, local);
        assert forall|i: int| 0 <= i < first_accepted(schemes, written, local) implies !accepts(
            #[trigger] schemes[i],
            written[i],
            local[i],
        ) by {
            if i < schemes.len() - 1 {
                assert(shorter[i] == schemes[i]);
            }
        }
    }
}

/// Everything before the first entry that can be played cannot be played, and
/// where no entry can be played the place is behind the last.
pub proof fn law_first_playable_is_the_first(list: Seq<Seq<char>>, local: Seq<bool>)
    ensures
        0 <= first_playable(list, local) <= list.len(),
        forall|i: int|
            0 <= i < first_playable(list, local) ==> !is_playable(#[trigger] list[i], local[i]),
        first_playable(list, local) < list.len() ==> is_playable(
            list[first_playable(list, local)],
            local[first_playable(list, local)],
        ),
{
    lemma_first_accepted_is_the_first(schemes_of(list), written_forms(list), local);
    assert forall|i: int| 0 <= i < first_playable(list, local) implies !is_playable(
        #[trigger] list[i],
        local[i],
    ) by {
        assert(schemes_of(list)[i] == url_scheme(list[i]));
    }
}

/// What local paths there are matters only to entries of the scheme `file`: a
/// list without such entries has one outcome.
pub proof fn law_remote_lists_have_one_outcome(
    list: Seq<Seq<char>>,
    local: Seq<bool>,
    other: Seq<bool>,
)
    requires
        forall|i: int| 0 <= i < list.len() ==> url_scheme(#[trigger] list[i]) != Some("file"@),
    ensures
        choice(list, local) == choice(list, other),
{
    law_first_playable_is_the_first(list, local);
    law_first_playable_is_the_first(list, other);
    let (first, second) = (first_playable(list, local), first_playable(list, other));
    if first < second {
        assert(!is_playable(list[first], other[first]));
        assert(is_playable(list[first], local[first]));
    } else if second < first {
        assert(!is_playable(list[second], local[second]));
        assert(is_playable(list[second], other[second]));
    }
}

/// No entry is empty, a comment, or surrounded by white space.
pub proof fn law_entries_are_neither_empty_nor_comments(found: Seq<Seq<char>>)
    ensures
        entries(found).len() <= found.len(),
        forall|i: int|
            0 <= i < entries(found).len() ==> {
                let entry = #[trigger] entries(found)[i];
                !is_ignored(entry) && !is_white_space(entry[0]) && !is_white_space(entry.last())
            },
    decreases found.len(),
{
    if found.len() > 0 {
        law_trimming_leaves_no_outer_white_space(found.last());
        law_entries_are_neither_empty_nor_comments(found.drop_last());
    }
}

/// There is an offer, and one of its types is that of lists of addresses.
pub open spec fn offers_uri_list(types: Option<Seq<Seq<char>>>) -> bool {
    match types {
        Some(types) => types.contains("text/uri-list"@),
        None => false,
    }
}

/// The types of an offer, if there is an offer.
pub open spec fn offered_texts(types: Option<Vec<String>>) -> Option<Seq<Seq<char>>> {
    match types {
        Some(types) => Some(texts(types@)),
        None => None,
    }
}

fn names_uri_list(types: &Vec<String>) -> (named: bool)
    ensures
        named == texts(types@).contains("text/uri-list"@),
{
    let mut next: usize = 0;
    while next < types.len()
        invariant
            next <= types@.len(),
            forall|i: int| 0 <= i < next ==> #[trigger] texts(types@)[i] != "text/uri-list"@,
        decreases types@.len() - next,
    {
        if types[next] == "text/uri-list".to_owned() {
            assert(0 <= next < texts(types@).len());
            assert(texts(types@)[next as int] == "text/uri-list"@);
            return true;
        }
        next += 1;
    }
    false
}

fn lists_uris(types: &Option<Vec<String>>) -> (listed: bool)
    ensures
        listed == offers_uri_list(offered_texts(*types)),
{
    match types {
        None => false,
        Some(types) => names_uri_list(types),
    }
}

/// A drag and drop operation as the window sees it.
#[derive(Clone, Copy, Debug, PartialEq, Eq, Structural)]
pub struct DropState {
    pub over_target: bool,
}

impl DropState {
    pub fn new() -> (state: Self)
        ensures
            !state.over_target,
    {
        DropState { over_target: false }
    }

    /// A drag enters a surface, which is the window's or is not, with the types
    /// of its offer, if there is one. Says whether the offer is accepted.
    pub fn enter(&mut self, on_target: bool, types: &Option<Vec<String>>) -> (accept: bool)
        ensures
            final(self).over_target == on_target,
            accept == (on_target && offers_uri_list(offered_texts(*types))),
    {
        self.over_target = on_target;
        if !self.over_target {
            return false;
        }
        lists_uris(types)
    }

    /// A drag leaves the window.
    pub fn leave(&mut self)
        ensures
            !final(self).over_target,
    {
        self.over_target = false;
    }

    /// Something is dropped. Says whether the offer is accepted and read.
    pub fn drop_performed(&self, types: &Option<Vec<String>>) -> (receive: bool)
        ensures
            receive == (self.over_target && offers_uri_list(offered_texts(*types))),
    {
        if !self.over_target {
            return false;
        }
        lists_uris(types)
    }
}

} // verus!
