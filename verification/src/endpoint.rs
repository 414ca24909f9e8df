//! The URLs of the backend.
use crate::config::opt_text;
use crate::text::{chars_of, texts};
use vstd::prelude::*;

verus! {

/// The longest URL or query, in characters, that is put together. The `url`
/// crate keeps positions in 32 bits; below this length none can overflow. No
/// client can send a URL beyond it: a URI of the `http` crate has at most 65534
/// bytes.
pub const URL_LIMIT: usize = 0x0400_0000;

/// The longest text, in characters, that is read as a URL. The `url` crate
/// counts the characters of a text in 32 bits with a sign.
pub const TEXT_LIMIT: usize = 0x7fff_ffff;

/// A character that a query keeps. Tabs and line breaks are dropped from it.
pub open spec fn query_keeps(c: char) -> bool {
    c != '\t' && c != '\n' && c != '\r'
}

/// The number of characters that a query keeps.
pub open spec fn query_len(query: Seq<char>) -> nat
    decreases query.len(),
{
    if query.len() == 0 {
        0
    } else if query_keeps(query.last()) {
        query_len(query.drop_last()) + 1
    } else {
        query_len(query.drop_last())
    }
}

/// Whether a query keeps no more characters than a URL may have.
fn query_fits(query: &str) -> (fits: bool)
    ensures
        fits == (query_len(query@) <= URL_LIMIT),
{
    let chars = chars_of(query);
    let mut kept: usize = 0;
    let mut i: usize = 0;
    while i < chars.len()
        invariant
            i <= chars@.len(),
            kept <= i,
            kept == query_len(chars@.take(i as int)),
        decreases chars@.len() - i,
    {
        let c = chars[i];
        assert(chars@.take(i + 1).drop_last() =~= chars@.take(i as int));
        if c != '\t' && c != '\n' && c != '\r' {
            kept += 1;
        }
        i += 1;
    }
    assert(chars@.take(i as int) =~= query@);
    kept <= URL_LIMIT
}

/// The URL that `url::Url::join` finds for `input` at the URL `base`.
pub uninterp spec fn url_joined(base: Seq<char>, input: Seq<char>) -> Option<Seq<char>>;

/// The URL `url` with the query that `url::Url::set_query` gives it.
pub uninterp spec fn url_with_query(url: Seq<char>, query: Seq<char>) -> Option<Seq<char>>;

/// The names of the pairs that `url::Url::query_pairs` lists, in order.
pub uninterp spec fn url_query_names(url: Seq<char>) -> Option<Seq<Seq<char>>>;

/// The URL `url` with the pair that `append_pair` of
/// `url::Url::query_pairs_mut` adds to its query.
pub uninterp spec fn url_with_pair(url: Seq<char>, name: Seq<char>, value: Seq<char>) -> Option<
    Seq<char>,
>;

/// `url::Url::join`, on the text of the base URL. Nothing comes back where the
/// base is no URL or the two cannot be joined.
#[verifier::external_body]
fn join(base: &str, input: &str) -> (joined: Option<String>)
    requires
        base@.len() <= TEXT_LIMIT,
        input@.len() <= TEXT_LIMIT,
    ensures
        opt_text(joined) == url_joined(base@, input@),
{
    url::Url::parse(base).ok()?.join(input).ok().map(String::from)
}

/// `url::Url::set_query`, on the text of the URL. Nothing comes back where the
/// text is no URL. Tabs and line breaks add nothing to the length of the result.
#[verifier::external_body]
fn set_query(url: &str, query: &str) -> (changed: Option<String>)
    requires
        url@.len() <= URL_LIMIT,
        query_len(query@) <= URL_LIMIT,
    ensures
        opt_text(changed) == url_with_query(url@, query@),
{
    let mut parsed = url::Url::parse(url).ok()?;
    parsed.set_query(Some(query));
    Some(String::from(parsed))
}

/// `url::Url::query_pairs`, on the text of the URL: the decoded names of the
/// pairs. Nothing comes back where the text is no URL.
#[verifier::external_body]
fn query_names(url: &str) -> (names: Option<Vec<String>>)
    requires
        url@.len() <= TEXT_LIMIT,
    ensures
        match names {
            Some(list) => url_query_names(url@) == Some(texts(list@)),
            None => url_query_names(url@) is None,
        },
{
    let parsed = url::Url::parse(url).ok()?;
    Some(parsed.query_pairs().map(|pair| pair.0.into_owned()).collect())
}

/// `append_pair` of `url::Url::query_pairs_mut`, on the text of the URL. Nothing
/// comes back where the text is no URL. Where the result can be read as a URL in
/// turn, a pair of that name stands last in its query, behind those that were
/// there. It cannot always: the crate does not read back every host it writes.
#[verifier::external_body]
fn append_pair(url: &str, name: &str, value: &str) -> (changed: Option<String>)
    requires
        url@.len() <= URL_LIMIT,
        name@.len() <= URL_LIMIT,
        value@.len() <= URL_LIMIT,
    ensures
        opt_text(changed) == url_with_pair(url@, name@, value@),
        changed matches Some(longer) ==> (url_query_names(longer@) matches Some(after) ==> (
        url_query_names(url@) matches Some(names) && after == names.push(name@))),
{
    let mut parsed = url::Url::parse(url).ok()?;
    parsed.query_pairs_mut().append_pair(name, value);
    Some(String::from(parsed))
}

/// The URL found for `input` at `base`, where `base` is not too long to be read.
pub open spec fn url_below(base: Seq<char>, input: Seq<char>) -> Option<Seq<char>> {
    if base.len() <= TEXT_LIMIT {
        url_joined(base, input)
    } else {
        None
    }
}

/// Joins a short reference to a base.
fn below(base: &str, input: &str) -> (joined: Option<String>)
    requires
        input@.len() <= TEXT_LIMIT,
    ensures
        opt_text(joined) == url_below(base@, input@),
{
    if base.unicode_len() > TEXT_LIMIT {
        return None;
    }
    join(base, input)
}

/// The URL of the Responses API below `base`.
pub fn responses_url(base: &str) -> (url: Option<String>)
    ensures
        opt_text(url) == url_below(base@, "responses"@),
{
    proof {
        reveal_strlit("responses");
    }
    below(base, "responses")
}

/// The URL of the account bootstrap below `base`.
pub fn bootstrap_url(base: &str) -> (url: Option<String>)
    ensures
        opt_text(url) == url_below(base@, "api/bootstrap"@),
{
    proof {
        reveal_strlit("api/bootstrap");
    }
    below(base, "api/bootstrap")
}

/// The URL of a request for the list of models, or what stands against it.
#[derive(Debug, PartialEq, Eq)]
pub enum ModelsUrl {
    Url(String),
    /// The URL would be longer than any client can send.
    Overlong,
    /// The base is no URL to join to, or the URL below it is one that the `url`
    /// crate writes but does not read back, as happens with very long
    /// internationalized hosts.
    NoBase,
}

/// A [`ModelsUrl`] as a mathematical value.
pub enum ModelsUrlView {
    Url(Seq<char>),
    Overlong,
    NoBase,
}

impl View for ModelsUrl {
    type V = ModelsUrlView;

    open spec fn view(&self) -> ModelsUrlView {
        match self {
            ModelsUrl::Url(url) => ModelsUrlView::Url(url@),
            ModelsUrl::Overlong => ModelsUrlView::Overlong,
            ModelsUrl::NoBase => ModelsUrlView::NoBase,
        }
    }
}

/// What the `url` crate made of a URL, if it is one.
pub open spec fn put_together(url: Option<Seq<char>>) -> ModelsUrlView {
    match url {
        Some(text) => ModelsUrlView::Url(text),
        None => ModelsUrlView::NoBase,
    }
}

/// The query of a models URL: as asked for, if anything was.
pub open spec fn models_url_asked(joined: Seq<char>, query: Seq<char>) -> ModelsUrlView {
    if query.len() == 0 {
        ModelsUrlView::Url(joined)
    } else if joined.len() <= URL_LIMIT && query_len(query) <= URL_LIMIT {
        put_together(url_with_query(joined, query))
    } else {
        ModelsUrlView::Overlong
    }
}

/// A URL that the `url` crate has extended, where it can read it back.
pub open spec fn read_back(url: Option<Seq<char>>) -> ModelsUrlView {
    match url {
        Some(text) => if text.len() > TEXT_LIMIT {
            ModelsUrlView::Overlong
        } else if url_query_names(text) is Some {
            ModelsUrlView::Url(text)
        } else {
            ModelsUrlView::NoBase
        },
        None => ModelsUrlView::NoBase,
    }
}

/// A models URL that names a client version: its own, or else 1.0.0.
pub open spec fn models_url_versioned(asked: Seq<char>) -> ModelsUrlView {
    if asked.len() > TEXT_LIMIT {
        ModelsUrlView::Overlong
    } else {
        match url_query_names(asked) {
            Some(names) => if names.contains("client_version"@) {
                ModelsUrlView::Url(asked)
            } else if asked.len() <= URL_LIMIT {
                read_back(url_with_pair(asked, "client_version"@, "1.0.0"@))
            } else {
                ModelsUrlView::Overlong
            },
            None => ModelsUrlView::NoBase,
        }
    }
}

/// The URL of the list of models.
pub open spec fn models_url_text(base: Seq<char>, query: Seq<char>) -> ModelsUrlView {
    match url_below(base, "models"@) {
        Some(joined) => match models_url_asked(joined, query) {
            ModelsUrlView::Url(asked) => models_url_versioned(asked),
            other => other,
        },
        None => ModelsUrlView::NoBase,
    }
}

/// Whether the names of the pairs of a query include the client version.
pub fn names_client_version(names: &Vec<String>) -> (found: bool)
    ensures
        found == texts(names@).contains("client_version"@),
{
    let ghost views = texts(names@);
    let wanted = "client_version".to_owned();
    let mut i: usize = 0;
    while i < names.len()
        invariant
            i <= names@.len(),
            wanted@ == "client_version"@,
            views == texts(names@),
            forall|k: int| 0 <= k < i ==> #[trigger] views[k] != wanted@,
        decreases names@.len() - i,
    {
        if names[i] == wanted {
            assert(views[i as int] == wanted@);
            return true;
        }
        i += 1;
    }
    false
}

/// Gives a models URL a client version, where it has none.
fn with_client_version(asked: String) -> (url: ModelsUrl)
    ensures
        url@ == models_url_versioned(asked@),
        url@ matches ModelsUrlView::Url(u) ==> (url_query_names(u) matches Some(names)
            && names.contains("client_version"@)),
{
    if asked.as_str().unicode_len() > TEXT_LIMIT {
        return ModelsUrl::Overlong;
    }
    match query_names(asked.as_str()) {
        Some(names) => {
            if names_client_version(&names) {
                return ModelsUrl::Url(asked);
            }
            if asked.as_str().unicode_len() > URL_LIMIT {
                return ModelsUrl::Overlong;
            }
            proof {
                reveal_strlit("client_version");
                reveal_strlit("1.0.0");
            }
            match append_pair(asked.as_str(), "client_version", "1.0.0") {
                Some(longer) => {
                    if longer.as_str().unicode_len() > TEXT_LIMIT {
                        return ModelsUrl::Overlong;
                    }
                    match query_names(longer.as_str()) {
                        Some(_) => {
                            proof {
                                let before = url_query_names(asked@)->0;
                                assert(before.push("client_version"@).last()
                                    == "client_version"@);
                            }
                            ModelsUrl::Url(longer)
                        },
                        None => ModelsUrl::NoBase,
                    }
                },
                None => ModelsUrl::NoBase,
            }
        },
        None => ModelsUrl::NoBase,
    }
}

/// The URL of the list of models below `base`, with the caller's query. The
/// backend wants to be told a client version, so the URL always names one.
pub fn models_url(base: &str, query: &str) -> (url: ModelsUrl)
    ensures
        url@ == models_url_text(base@, query@),
        url@ matches ModelsUrlView::Url(u) ==> (url_query_names(u) matches Some(names)
            && names.contains("client_version"@)),
{
    proof {
        reveal_strlit("models");
    }
    match below(base, "models") {
        Some(joined) => {
            if query.is_empty() {
                return with_client_version(joined);
            }
            if joined.as_str().unicode_len() > URL_LIMIT || !query_fits(query) {
                return ModelsUrl::Overlong;
            }
            match set_query(joined.as_str(), query) {
                Some(asked) => with_client_version(asked),
                None => ModelsUrl::NoBase,
            }
        },
        None => ModelsUrl::NoBase,
    }
}

} // verus!
