//! Finding the segment addresses in a playlist manifest.
//!
//! A manifest is text. Every place where `http://` or `https://` begins
//! outside an address starts an address, which runs up to the next
//! delimiter or to the end of the text.

use crate::text::{matches_at, occurs_at, texts, to_chars, to_text};
use vstd::prelude::*;

verus! {

/// The characters that end an address: blank, tab, line feed, carriage
/// return and the double quote.
pub open spec fn is_delimiter(c: char) -> bool {
    c == ' ' || c == '\t' || c == '\n' || c == '\r' || c == '"'
}

/// An address begins at position `at`: the text goes on with `http://` or
/// `https://` there.
pub open spec fn starts_url(text: Seq<char>, at: int) -> bool {
    occurs_at(text, at, "http://"@) || occurs_at(text, at, "https://"@)
}

/// The addresses found by reading `text` from position `at` on, one
/// character at a time, where `open` is the start of the address that the
/// reader is inside of, if it is inside one.
pub open spec fn scan(text: Seq<char>, at: int, open: Option<int>) -> Seq<Seq<char>>
    decreases text.len() - at,
{
    if at >= text.len() {
        match open {
            Some(start) => seq![text.subrange(start, text.len() as int)],
            None => Seq::empty(),
        }
    } else {
        match open {
            Some(start) => if is_delimiter(text[at]) {
                seq![text.subrange(start, at)] + scan(text, at + 1, None)
            } else {
                scan(text, at + 1, open)
            },
            None => if starts_url(text, at) {
                scan(text, at + 1, Some(at))
            } else {
                scan(text, at + 1, None)
            },
        }
    }
}

/// The addresses in a manifest, in the order in which they stand in it.
pub open spec fn url_tokens(text: Seq<char>) -> Seq<Seq<char>> {
    scan(text, 0, None)
}

/// Tells whether `c` ends an address.
pub fn delimiter(c: char) -> (r: bool)
    ensures
        r == is_delimiter(c),
{
    c == ' ' || c == '\t' || c == '\n' || c == '\r' || c == '"'
}

/// Extracts the addresses from a manifest by one pass over its characters.
pub fn extract_urls(manifest: &str) -> (urls: Vec<String>)
    ensures
        texts(urls@) == url_tokens(manifest@),
{
    let chars = to_chars(manifest);
    let plain = to_chars("http://");
    let secure = to_chars("https://");
    let mut urls: Vec<String> = Vec::new();
    let mut open: Option<usize> = None;
    let mut at: usize = 0;
    while at < chars.len()
        invariant
            at <= chars@.len(),
            plain@ == "http://"@,
            secure@ == "https://"@,
            open matches Some(start) ==> start <= at,
            texts(urls@) + scan(
                chars@,
                at as int,
                match open {
                    Some(start) => Some(start as int),
                    None => None,
                },
            ) == url_tokens(chars@),
        decreases chars@.len() - at,
    {
        match open {
            Some(start) => {
                if delimiter(chars[at]) {
                    let ghost before = texts(urls@);
                    let url = to_text(&chars, start, at);
                    urls.push(url);
                    assert(texts(urls@) =~= before + seq![
                        chars@.subrange(start as int, at as int),
                    ]);
                    assert(texts(urls@) + scan(chars@, at + 1, None) =~= before + (seq![
                        chars@.subrange(start as int, at as int),
                    ] + scan(chars@, at + 1, None)));
                    open = None;
                }
            },
            None => {
                if matches_at(&chars, at, &plain) || matches_at(&chars, at, &secure) {
                    open = Some(at);
                }
            },
        }
        at = at + 1;
    }
    if let Some(start) = open {
        let ghost before = texts(urls@);
        let url = to_text(&chars, start, chars.len());
        urls.push(url);
        assert(texts(urls@) =~= before + seq![
            chars@.subrange(start as int, chars@.len() as int),
        ]);
    } else {
        assert(texts(urls@) + Seq::<Seq<char>>::empty() =~= texts(urls@));
    }
    urls
}

/// `text` is an address: it begins with `http://` or `https://` and holds
/// no delimiter.
pub open spec fn is_url_token(text: Seq<char>) -> bool {
    &&& starts_url(text, 0)
    &&& forall|i: int| 0 <= i < text.len() ==> !is_delimiter(#[trigger] text[i])
}

/// A manifest that lists the given lines, each followed by a line feed.
pub open spec fn listing(lines: Seq<Seq<char>>) -> Seq<char>
    decreases lines.len(),
{
    if lines.len() == 0 {
        Seq::empty()
    } else {
        lines[0] + seq!['\n'] + listing(lines.drop_first())
    }
}

/// Neither `http://` nor `https://` holds a delimiter, so wherever one of
/// them occurs, no delimiter stands in its range.
proof fn scheme_has_no_delimiter(text: Seq<char>, at: int, i: int)
    requires
        starts_url(text, at),
        at <= i < at + 7,
    ensures
        i < text.len(),
        !is_delimiter(text[i]),
{
    reveal_strlit("http://");
    reveal_strlit("https://");
    if occurs_at(text, at, "http://"@) {
        let found = text.subrange(at, at + 7);
        assert(found[i - at] == text[i]);
        assert(found == "http://"@);
    } else {
        let found = text.subrange(at, at + 8);
        assert(found[i - at] == text[i]);
        assert(found == "https://"@);
    }
}

/// Whether an address begins at a place depends only on the characters from
/// that place on.
proof fn starts_url_after_prefix(prefix: Seq<char>, rest: Seq<char>, at: int)
    requires
        0 <= at,
    ensures
        starts_url(prefix + rest, prefix.len() + at) == starts_url(rest, at),
{
    let whole = prefix + rest;
    let plain = "http://"@;
    let secure = "https://"@;
    if at + plain.len() <= rest.len() {
        assert(whole.subrange(prefix.len() + at, prefix.len() + at + plain.len())
            =~= rest.subrange(at, at + plain.len()));
    }
    if at + secure.len() <= rest.len() {
        assert(whole.subrange(prefix.len() + at, prefix.len() + at + secure.len())
            =~= rest.subrange(at, at + secure.len()));
    }
}

/// Reading on behind a prefix finds what reading the rest alone finds.
proof fn scan_after_prefix(prefix: Seq<char>, rest: Seq<char>, at: int, open: Option<int>)
    requires
        0 <= at <= rest.len(),
        open matches Some(start) ==> 0 <= start <= at,
    ensures
        scan(
            prefix + rest,
            prefix.len() + at,
            match open {
                Some(start) => Some(prefix.len() + start),
                None => None,
            },
        ) == scan(rest, at, open),
    decreases rest.len() - at,
{
    let whole = prefix + rest;
    let offset = prefix.len() as int;
    if at >= rest.len() {
        if let Some(start) = open {
            assert(whole.subrange(offset + start, whole.len() as int) =~= rest.subrange(
                start,
                rest.len() as int,
            ));
        }
    } else {
        assert(whole[offset + at] == rest[at]);
        match open {
            Some(start) => {
                if is_delimiter(rest[at]) {
                    assert(whole.subrange(offset + start, offset + at) =~= rest.subrange(
                        start,
                        at,
                    ));
                    scan_after_prefix(prefix, rest, at + 1, None);
                } else {
                    scan_after_prefix(prefix, rest, at + 1, open);
                }
            },
            None => {
                starts_url_after_prefix(prefix, rest, at);
                if starts_url(rest, at) {
                    scan_after_prefix(prefix, rest, at + 1, Some(at));
                } else {
                    scan_after_prefix(prefix, rest, at + 1, None);
                }
            },
        }
    }
}

/// Reading up to a delimiter finds what reading the text before it finds;
/// the text behind it is read afresh.
proof fn scan_before_delimiter(
    front: Seq<char>,
    mark: char,
    back: Seq<char>,
    at: int,
    open: Option<int>,
)
    requires
        is_delimiter(mark),
        0 <= at <= front.len(),
        open matches Some(start) ==> 0 <= start <= at,
    ensures
        scan(front + seq![mark] + back, at, open) == scan(front, at, open) + url_tokens(back),
    decreases front.len() - at,
{
    let head = front + seq![mark];
    let whole = head + back;
    if at == front.len() {
        assert(whole[at] == mark);
        scan_after_prefix(head, back, 0, None);
        match open {
            Some(start) => {
                assert(whole.subrange(start, at) =~= front.subrange(start, front.len() as int));
            },
            None => {
                if starts_url(whole, at) {
                    scheme_has_no_delimiter(whole, at, at);
                }
                assert(Seq::<Seq<char>>::empty() + url_tokens(back) =~= url_tokens(back));
            },
        }
    } else {
        assert(whole[at] == front[at]);
        match open {
            Some(start) => {
                if is_delimiter(front[at]) {
                    assert(whole.subrange(start, at) =~= front.subrange(start, at));
                    scan_before_delimiter(front, mark, back, at + 1, None);
                    assert(seq![front.subrange(start, at)] + (scan(front, at + 1, None)
                        + url_tokens(back)) =~= (seq![front.subrange(start, at)] + scan(
                        front,
                        at + 1,
                        None,
                    )) + url_tokens(back));
                } else {
                    scan_before_delimiter(front, mark, back, at + 1, open);
                }
            },
            None => {
                assert(starts_url(whole, at) == starts_url(front, at)) by {
                    let plain = "http://"@;
                    let secure = "https://"@;
                    reveal_strlit("http://");
                    reveal_strlit("https://");
                    if starts_url(whole, at) {
                        scheme_has_no_delimiter(whole, at, at);
                        if at + 7 > front.len() {
                            scheme_has_no_delimiter(whole, at, front.len() as int);
                            assert(whole[front.len() as int] == mark);
                        }
                        if occurs_at(whole, at, plain) {
                            assert(whole.subrange(at, at + 7) =~= front.subrange(at, at + 7));
                        } else {
                            if at + 8 > front.len() {
                                let found = whole.subrange(at, at + 8);
                                assert(found[front.len() - at] == mark);
                                assert(found == secure);
                            }
                            assert(whole.subrange(at, at + 8) =~= front.subrange(at, at + 8));
                        }
                    }
                    if occurs_at(front, at, plain) {
                        assert(whole.subrange(at, at + 7) =~= front.subrange(at, at + 7));
                    }
                    if occurs_at(front, at, secure) {
                        assert(whole.subrange(at, at + 8) =~= front.subrange(at, at + 8));
                    }
                }
                if starts_url(front, at) {
                    scan_before_delimiter(front, mark, back, at + 1, Some(at));
                } else {
                    scan_before_delimiter(front, mark, back, at + 1, None);
                }
            },
        }
    }
}

/// Every address that the scan finds begins with `http://` or `https://`
/// and holds no delimiter.
proof fn scan_finds_urls(text: Seq<char>, at: int, open: Option<int>)
    requires
        0 <= at <= text.len(),
        open matches Some(start) ==> 0 <= start < at && starts_url(text, start) && forall|i: int|
            start <= i < at && i < text.len() ==> !is_delimiter(#[trigger] text[i]),
    ensures
        forall|k: int|
            0 <= k < scan(text, at, open).len() ==> is_url_token(
                #[trigger] scan(text, at, open)[k],
            ),
    decreases text.len() - at,
{
    reveal_strlit("http://");
    reveal_strlit("https://");
    let found = scan(text, at, open);
    if at >= text.len() {
        if let Some(start) = open {
            scheme_has_no_delimiter(text, start, start);
            url_prefix_of_range(text, start, text.len() as int);
            assert(found[0] == text.subrange(start, text.len() as int));
        }
    } else {
        match open {
            Some(start) => {
                if is_delimiter(text[at]) {
                    if at < start + 7 {
                        scheme_has_no_delimiter(text, start, at);
                    }
                    if occurs_at(text, start, "https://"@) && at == start + 7 {
                        let scheme = text.subrange(start, start + 8);
                        assert(scheme[7] == text[at]);
                        assert(scheme == "https://"@);
                    }
                    url_prefix_of_range(text, start, at);
                    scan_finds_urls(text, at + 1, None);
                    let later = scan(text, at + 1, None);
                    assert(found == seq![text.subrange(start, at)] + later);
                    assert forall|k: int| 0 <= k < found.len() implies is_url_token(
                        #[trigger] found[k],
                    ) by {
                        if k > 0 {
                            assert(found[k] == later[k - 1]);
                        }
                    }
                } else {
                    scan_finds_urls(text, at + 1, open);
                    assert(found == scan(text, at + 1, open));
                }
            },
            None => {
                if starts_url(text, at) {
                    scheme_has_no_delimiter(text, at, at);
                    scan_finds_urls(text, at + 1, Some(at));
                    assert(found == scan(text, at + 1, Some(at)));
                } else {
                    scan_finds_urls(text, at + 1, None);
                    assert(found == scan(text, at + 1, None));
                }
            },
        }
    }
}

/// A stretch of text that begins where an address begins, reaches past the
/// scheme and holds no delimiter is an address.
proof fn url_prefix_of_range(text: Seq<char>, start: int, end: int)
    requires
        0 <= start <= end <= text.len(),
        starts_url(text, start),
        occurs_at(text, start, "http://"@) ==> start + 7 <= end,
        occurs_at(text, start, "https://"@) ==> start + 8 <= end,
        forall|i: int| start <= i < end ==> !is_delimiter(#[trigger] text[i]),
    ensures
        is_url_token(text.subrange(start, end)),
{
    reveal_strlit("http://");
    reveal_strlit("https://");
    let token = text.subrange(start, end);
    if occurs_at(text, start, "http://"@) {
        assert(token.subrange(0, 7) =~= text.subrange(start, start + 7));
    }
    if occurs_at(text, start, "https://"@) {
        assert(token.subrange(0, 8) =~= text.subrange(start, start + 8));
    }
    assert forall|i: int| 0 <= i < token.len() implies !is_delimiter(#[trigger] token[i]) by {
        assert(token[i] == text[start + i]);
    }
}

/// Every address found in a manifest begins with `http://` or `https://`
/// and holds no delimiter.
pub proof fn tokens_are_urls(text: Seq<char>)
    ensures
        forall|k: int|
            0 <= k < url_tokens(text).len() ==> is_url_token(#[trigger] url_tokens(text)[k]),
{
    scan_finds_urls(text, 0, None);
}

/// A delimiter parts a manifest: the addresses of the whole are those of
/// the text before the delimiter, followed by those of the text behind it.
pub proof fn tokens_split_at_delimiter(front: Seq<char>, mark: char, back: Seq<char>)
    requires
        is_delimiter(mark),
    ensures
        url_tokens(front + seq![mark] + back) == url_tokens(front) + url_tokens(back),
{
    scan_before_delimiter(front, mark, back, 0, None);
}

/// Inside an address without a delimiter the scan reads to the end.
proof fn scan_inside_token(token: Seq<char>, at: int)
    requires
        1 <= at <= token.len(),
        forall|i: int| 0 <= i < token.len() ==> !is_delimiter(#[trigger] token[i]),
    ensures
        scan(token, at, Some(0)) == seq![token],
    decreases token.len() - at,
{
    if at < token.len() {
        scan_inside_token(token, at + 1);
    } else {
        assert(token.subrange(0, token.len() as int) =~= token);
    }
}

/// An address alone is found as itself.
pub proof fn token_alone_is_found(token: Seq<char>)
    requires
        is_url_token(token),
    ensures
        url_tokens(token) == seq![token],
{
    scheme_has_no_delimiter(token, 0, 0);
    scan_inside_token(token, 1);
}

/// Text in which no address begins holds none.
pub proof fn text_without_scheme_has_no_token(text: Seq<char>)
    requires
        forall|at: int| 0 <= at < text.len() ==> !starts_url(text, at),
    ensures
        url_tokens(text) == Seq::<Seq<char>>::empty(),
{
    scan_without_scheme(text, 0);
}

proof fn scan_without_scheme(text: Seq<char>, at: int)
    requires
        0 <= at,
        forall|at: int| 0 <= at < text.len() ==> !starts_url(text, at),
    ensures
        scan(text, at, None) == Seq::<Seq<char>>::empty(),
    decreases text.len() - at,
{
    if at < text.len() {
        scan_without_scheme(text, at + 1);
    }
}

/// A manifest that lists addresses one per line gives exactly these
/// addresses, in the order of the lines.
pub proof fn listing_gives_its_urls(urls: Seq<Seq<char>>)
    requires
        forall|i: int| 0 <= i < urls.len() ==> is_url_token(#[trigger] urls[i]),
    ensures
        url_tokens(listing(urls)) == urls,
    decreases urls.len(),
{
    if urls.len() > 0 {
        let rest = urls.drop_first();
        assert forall|i: int| 0 <= i < rest.len() implies is_url_token(#[trigger] rest[i]) by {
            assert(rest[i] == urls[i + 1]);
        }
        listing_gives_its_urls(rest);
        tokens_split_at_delimiter(urls[0], '\n', listing(rest));
        token_alone_is_found(urls[0]);
        assert(seq![urls[0]] + rest =~= urls);
    }
}

} // verus!
