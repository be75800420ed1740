//! Turning what a user submits into articles.
//!
//! A submission is a text with one address on each line. Every line becomes
//! an article whose title is derived from the address: the host, followed by
//! the last part of the path that says something the host does not.

use crate::articles::Article;
use crate::identifier::is_random_v4;
use vstd::prelude::*;
use vstd::string::{StrSliceExecFns, StringExecFns};

verus! {

/// The scheme that is dropped from the front of a secure address.
pub const HTTPS_SCHEME: &'static str = "https://";

/// The scheme that is dropped from the front of a plain address.
pub const HTTP_SCHEME: &'static str = "http://";

/// What stands between the two parts of a derived title.
pub const TITLE_SEPARATOR: &'static str = " - ";

/// The character that separates the parts of an address.
pub const PATH_SEPARATOR: char = '/';

/// The character that ends a line.
pub const LINE_FEED: char = '\n';

/// The character that may precede a line feed.
pub const CARRIAGE_RETURN: char = '\r';

/// The pieces of `s` between the occurrences of `sep`, in order.
///
/// There is always at least one piece: a text without `sep` is its own
/// single piece, and each occurrence of `sep` ends one piece and starts the
/// next, which may be empty.
pub open spec fn split(s: Seq<char>, sep: char) -> Seq<Seq<char>>
    decreases s.len(),
{
    if s.len() == 0 {
        seq![Seq::<char>::empty()]
    } else {
        let front = split(s.drop_last(), sep);
        if s.last() == sep {
            front.push(Seq::<char>::empty())
        } else {
            front.drop_last().push(front.last().push(s.last()))
        }
    }
}

/// The pieces `parts` put together again, with `sep` between neighbours.
pub open spec fn join(parts: Seq<Seq<char>>, sep: char) -> Seq<char>
    decreases parts.len(),
{
    if parts.len() == 0 {
        Seq::<char>::empty()
    } else if parts.len() == 1 {
        parts[0]
    } else {
        join(parts.drop_last(), sep).push(sep) + parts.last()
    }
}

/// `url` without a leading `https://` or `http://`.
pub open spec fn strip_scheme(url: Seq<char>) -> Seq<char> {
    if HTTPS_SCHEME@.is_prefix_of(url) {
        url.skip(HTTPS_SCHEME@.len() as int)
    } else if HTTP_SCHEME@.is_prefix_of(url) {
        url.skip(HTTP_SCHEME@.len() as int)
    } else {
        url
    }
}

/// The last of `parts`, the first one left aside, that is neither empty nor
/// equal to `first`.
pub open spec fn last_telling_part(parts: Seq<Seq<char>>, first: Seq<char>) -> Option<Seq<char>>
    decreases parts.len(),
{
    if parts.len() <= 1 {
        None
    } else if parts.last().len() > 0 && parts.last() != first {
        Some(parts.last())
    } else {
        last_telling_part(parts.drop_last(), first)
    }
}

/// The title derived from the address `url`.
///
/// The scheme is dropped and the rest is split at every `/`. The first part,
/// the host, always opens the title. If a later part is neither empty nor
/// the host again, the last such part follows after `" - "`.
pub open spec fn title_from_url(url: Seq<char>) -> Seq<char> {
    let parts = split(strip_scheme(url), PATH_SEPARATOR);
    let first = parts[0];
    match last_telling_part(parts, first) {
        Some(last) => first + TITLE_SEPARATOR@ + last,
        None => first,
    }
}

/// `line` without a carriage return at its end.
pub open spec fn strip_carriage_return(line: Seq<char>) -> Seq<char> {
    if line.len() > 0 && line.last() == CARRIAGE_RETURN {
        line.drop_last()
    } else {
        line
    }
}

/// The lines of `text`.
///
/// A line ends at a line feed, or at a carriage return directly followed by
/// a line feed; neither belongs to the line. What follows the last line feed
/// is a line of its own unless it is empty, so the empty text has no lines
/// and a line feed at the very end adds none.
pub open spec fn lines_of(text: Seq<char>) -> Seq<Seq<char>> {
    let pieces = split(text, LINE_FEED);
    let ended = pieces.drop_last().map_values(|piece: Seq<char>| strip_carriage_return(piece));
    if pieces.last().len() == 0 {
        ended
    } else {
        ended.push(pieces.last())
    }
}

/// Splitting yields at least one piece.
pub proof fn lemma_split_is_not_empty(s: Seq<char>, sep: char)
    ensures
        split(s, sep).len() >= 1,
    decreases s.len(),
{
    if s.len() > 0 {
        lemma_split_is_not_empty(s.drop_last(), sep);
    }
}

/// No piece holds the separator.
pub proof fn lemma_split_pieces_hold_no_separator(s: Seq<char>, sep: char)
    ensures
        forall|i: int, j: int|
            0 <= i < split(s, sep).len() && 0 <= j < split(s, sep)[i].len() ==> split(
                s,
                sep,
            )[i][j] != sep,
    decreases s.len(),
{
    if s.len() > 0 {
        lemma_split_pieces_hold_no_separator(s.drop_last(), sep);
        lemma_split_is_not_empty(s.drop_last(), sep);
    }
}

/// Putting the pieces together again, with the separator between
/// neighbours, gives the text back: splitting loses nothing and adds
/// nothing.
pub proof fn lemma_join_undoes_split(s: Seq<char>, sep: char)
    ensures
        join(split(s, sep), sep) == s,
    decreases s.len(),
{
    if s.len() > 0 {
        let shorter = s.drop_last();
        let front = split(shorter, sep);
        let pieces = split(s, sep);
        lemma_join_undoes_split(shorter, sep);
        lemma_split_is_not_empty(shorter, sep);
        if s.last() == sep {
            // A new, empty piece was started.
            assert(pieces.drop_last() =~= front);
        } else if front.len() > 1 {
            // The last piece grew by one character.
            assert(pieces.drop_last() =~= front.drop_last());
            assert(join(pieces, sep) =~= join(front, sep).push(s.last()));
        }
    }
}

/// A text without the separator is its own single piece.
pub proof fn lemma_split_without_separator(s: Seq<char>, sep: char)
    requires
        forall|i: int| 0 <= i < s.len() ==> s[i] != sep,
    ensures
        split(s, sep) == seq![s],
    decreases s.len(),
{
    if s.len() > 0 {
        lemma_split_without_separator(s.drop_last(), sep);
        assert(s.drop_last().push(s.last()) =~= s);
    } else {
        assert(s =~= Seq::<char>::empty());
    }
}

/// A text that holds the separator has at least two pieces.
pub proof fn lemma_split_with_separator(s: Seq<char>, sep: char, at: int)
    requires
        0 <= at < s.len(),
        s[at] == sep,
    ensures
        split(s, sep).len() >= 2,
    decreases s.len(),
{
    lemma_split_is_not_empty(s.drop_last(), sep);
    if at < s.len() - 1 {
        lemma_split_with_separator(s.drop_last(), sep, at);
    }
}

/// The last piece is what follows the last separator, and the pieces before
/// it are the pieces of what precedes that separator.
pub proof fn lemma_split_at_last_separator(s: Seq<char>, sep: char, at: int)
    requires
        0 <= at < s.len(),
        s[at] == sep,
        forall|i: int| at < i < s.len() ==> s[i] != sep,
    ensures
        split(s, sep) == split(s.take(at), sep).push(s.skip(at + 1)),
    decreases s.len(),
{
    if at == s.len() - 1 {
        assert(s.skip(at + 1) =~= Seq::<char>::empty());
    } else {
        let shorter = s.drop_last();
        lemma_split_at_last_separator(shorter, sep, at);
        assert(shorter.take(at) =~= s.take(at));
        assert(shorter.skip(at + 1).push(s.last()) =~= s.skip(at + 1));
    }
}

/// The first piece is what precedes the first separator, and the pieces
/// after it are the pieces of what follows that separator.
pub proof fn lemma_split_at_first_separator(s: Seq<char>, sep: char, at: int)
    requires
        0 <= at < s.len(),
        s[at] == sep,
        forall|i: int| 0 <= i < at ==> s[i] != sep,
    ensures
        split(s, sep) == seq![s.take(at)] + split(s.skip(at + 1), sep),
    decreases s.len(),
{
    let shorter = s.drop_last();
    if at == s.len() - 1 {
        lemma_split_without_separator(shorter, sep);
    } else {
        let tail = s.skip(at + 1);
        lemma_split_at_first_separator(shorter, sep, at);
        lemma_split_is_not_empty(tail.drop_last(), sep);
        assert(shorter.take(at) =~= s.take(at));
        assert(shorter.skip(at + 1) =~= tail.drop_last());
    }
}

/// Joining is undone by splitting: pieces that hold no separator are the
/// pieces of what they join to. Together with the two facts before, this
/// says all there is to say of `split`: the pieces of a text are the one
/// way to cut it into separator-free parts that join to it again.
pub proof fn lemma_split_undoes_join(parts: Seq<Seq<char>>, sep: char)
    requires
        parts.len() >= 1,
        forall|i: int, j: int|
            0 <= i < parts.len() && 0 <= j < parts[i].len() ==> parts[i][j] != sep,
    ensures
        split(join(parts, sep), sep) == parts,
    decreases parts.len(),
{
    if parts.len() == 1 {
        lemma_split_without_separator(parts[0], sep);
    } else {
        let front = parts.drop_last();
        let last = parts.last();
        let joined = join(parts, sep);
        let at = join(front, sep).len() as int;
        lemma_split_undoes_join(front, sep);
        // The separator that was put before the last part is the last one.
        lemma_split_at_last_separator(joined, sep, at);
        assert(joined.take(at) =~= join(front, sep));
        assert(joined.skip(at + 1) =~= last);
    }
}

/// The first piece is what precedes the first separator, or the whole text
/// if it holds none.
pub proof fn lemma_split_first_piece(s: Seq<char>, sep: char, end: int)
    requires
        0 <= end <= s.len(),
        forall|i: int| 0 <= i < end ==> s[i] != sep,
        end < s.len() ==> s[end] == sep,
    ensures
        split(s, sep).len() >= 1,
        split(s, sep)[0] == s.take(end),
{
    lemma_split_is_not_empty(s, sep);
    if end == s.len() {
        lemma_split_without_separator(s, sep);
    } else {
        lemma_split_at_first_separator(s, sep, end);
    }
}

/// The characters of `s`, in order.
fn chars_of(s: &str) -> (chars: Vec<char>)
    ensures
        chars@ == s@,
{
    let mut chars: Vec<char> = Vec::new();
    for c in it: s.chars()
        invariant
            it.seq() == s@,
            chars@ == it.seq().take(it.index()),
    {
        chars.push(c);
    }
    chars
}

/// Whether `chars` begins with `prefix`.
fn starts_with(chars: &Vec<char>, prefix: &Vec<char>) -> (found: bool)
    ensures
        found == prefix@.is_prefix_of(chars@),
{
    if prefix.len() > chars.len() {
        return false;
    }
    let mut i: usize = 0;
    while i < prefix.len()
        invariant
            i <= prefix.len() <= chars.len(),
            forall|k: int| 0 <= k < i ==> prefix@[k] == chars@[k],
        decreases prefix.len() - i,
    {
        if prefix[i] != chars[i] {
            return false;
        }
        i += 1;
    }
    true
}

/// The position of the first `sought` at or after `from`, or the length of
/// `chars` if there is none.
fn find_from(chars: &Vec<char>, from: usize, sought: char) -> (at: usize)
    requires
        from <= chars.len(),
    ensures
        from <= at <= chars.len(),
        forall|i: int| from <= i < at ==> chars@[i] != sought,
        at < chars.len() ==> chars@[at as int] == sought,
{
    let mut at: usize = from;
    while at < chars.len()
        invariant
            from <= at <= chars.len(),
            forall|i: int| from <= i < at ==> chars@[i] != sought,
        decreases chars.len() - at,
    {
        if chars[at] == sought {
            return at;
        }
        at += 1;
    }
    at
}

/// Where the run of characters other than `sought` that ends before `end`
/// begins, looking back no further than `from`.
fn run_start(chars: &Vec<char>, from: usize, end: usize, sought: char) -> (start: usize)
    requires
        from <= end <= chars.len(),
    ensures
        from <= start <= end,
        forall|i: int| start <= i < end ==> chars@[i] != sought,
        start > from ==> chars@[start - 1] == sought,
{
    let mut start: usize = end;
    while start > from
        invariant
            from <= start <= end <= chars.len(),
            forall|i: int| start <= i < end ==> chars@[i] != sought,
        decreases start,
    {
        if chars[start - 1] == sought {
            return start;
        }
        start -= 1;
    }
    start
}

/// Whether two stretches of `chars` hold the same characters.
fn same_stretch(chars: &Vec<char>, a: usize, a_end: usize, b: usize, b_end: usize) -> (same: bool)
    requires
        a <= a_end <= chars.len(),
        b <= b_end <= chars.len(),
    ensures
        same == (chars@.subrange(a as int, a_end as int) == chars@.subrange(
            b as int,
            b_end as int,
        )),
{
    let ghost left = chars@.subrange(a as int, a_end as int);
    let ghost right = chars@.subrange(b as int, b_end as int);
    if a_end - a != b_end - b {
        assert(left.len() != right.len());
        return false;
    }
    let len = a_end - a;
    let mut i: usize = 0;
    while i < len
        invariant
            a + len == a_end,
            b + len == b_end,
            a_end <= chars.len(),
            b_end <= chars.len(),
            i <= len,
            left == chars@.subrange(a as int, a_end as int),
            right == chars@.subrange(b as int, b_end as int),
            forall|k: int| 0 <= k < i ==> left[k] == right[k],
        decreases len - i,
    {
        if chars[a + i] != chars[b + i] {
            assert(left[i as int] != right[i as int]);
            return false;
        }
        i += 1;
    }
    assert(left =~= right);
    true
}

/// Derives the title of an article from its address.
///
/// `https://github.com/mrkline/modern-latex` becomes
/// `github.com - modern-latex`; an address without a telling path, such as
/// `https://github.com/`, becomes its host alone.
pub fn get_title_from_url(url: String) -> (title: String)
    ensures
        title@ == title_from_url(url@),
{
    let text = url.as_str();
    let chars = chars_of(text);
    let https = chars_of(HTTPS_SCHEME);
    let http = chars_of(HTTP_SCHEME);
    let start: usize = if starts_with(&chars, &https) {
        https.len()
    } else if starts_with(&chars, &http) {
        http.len()
    } else {
        0
    };
    let ghost rest = chars@.skip(start as int);
    assert(rest == strip_scheme(url@));
    let n = chars.len();
    let first_end = find_from(&chars, start, PATH_SEPARATOR);
    let ghost first = rest.take(first_end - start);
    proof {
        lemma_split_first_piece(rest, PATH_SEPARATOR, first_end - start);
    }
    let mut end: usize = n;
    assert(rest.take(end - start) =~= rest);
    loop
        invariant
            chars@ == text@,
            n == chars.len(),
            start <= first_end <= n,
            start <= end <= n,
            rest == chars@.skip(start as int),
            first == chars@.subrange(start as int, first_end as int),
            first == split(rest, PATH_SEPARATOR)[0],
            last_telling_part(split(rest, PATH_SEPARATOR), first) == last_telling_part(
                split(rest.take(end - start), PATH_SEPARATOR),
                first,
            ),
            title_from_url(url@) == match last_telling_part(split(rest, PATH_SEPARATOR), first) {
                Some(last) => first + TITLE_SEPARATOR@ + last,
                None => first,
            },
        decreases end,
    {
        let part_start = run_start(&chars, start, end, PATH_SEPARATOR);
        let ghost considered = rest.take(end - start);
        if part_start == start {
            proof {
                lemma_split_without_separator(considered, PATH_SEPARATOR);
            }
            return String::from_str(text.substring_char(start, first_end));
        }
        let ghost at = part_start - 1 - start;
        let ghost part = chars@.subrange(part_start as int, end as int);
        proof {
            // The part that ends here is the last piece of what is still
            // considered; the pieces before it are those of what precedes
            // its separator.
            let parts = split(considered, PATH_SEPARATOR);
            lemma_split_at_last_separator(considered, PATH_SEPARATOR, at);
            lemma_split_is_not_empty(considered.take(at), PATH_SEPARATOR);
            assert(considered.take(at) =~= rest.take(at));
            assert(parts.drop_last() =~= split(rest.take(at), PATH_SEPARATOR));
            assert(parts.last() == part);
        }
        if part_start < end && !same_stretch(&chars, part_start, end, start, first_end) {
            let host = text.substring_char(start, first_end);
            let last = text.substring_char(part_start, end);
            return String::from_str(host).concat(TITLE_SEPARATOR).concat(last);
        }
        end = part_start - 1;
    }
}

/// The lines of `text`, carriage returns before line feeds left out.
pub fn lines(text: &str) -> (lines: Vec<String>)
    ensures
        lines@.len() == lines_of(text@).len(),
        forall|i: int| 0 <= i < lines@.len() ==> (#[trigger] lines@[i])@ == lines_of(text@)[i],
{
    let chars = chars_of(text);
    let n = chars.len();
    let mut lines: Vec<String> = Vec::new();
    let mut start: usize = 0;
    let ghost mut ended: Seq<Seq<char>> = Seq::empty();
    assert(chars@.skip(0) =~= chars@);
    loop
        invariant
            chars@ == text@,
            n == chars.len(),
            start <= n,
            split(text@, LINE_FEED) == ended + split(chars@.skip(start as int), LINE_FEED),
            lines@.len() == ended.len(),
            forall|i: int|
                0 <= i < lines@.len() ==> (#[trigger] lines@[i])@ == strip_carriage_return(
                    ended[i],
                ),
        decreases n - start,
    {
        let ghost rest = chars@.skip(start as int);
        let at = find_from(&chars, start, LINE_FEED);
        if at == n {
            proof {
                // What is left holds no line feed: it is the last piece.
                lemma_split_without_separator(rest, LINE_FEED);
                assert(split(text@, LINE_FEED).drop_last() =~= ended);
            }
            if start < n {
                lines.push(String::from_str(text.substring_char(start, n)));
            }
            return lines;
        }
        let ghost piece = chars@.subrange(start as int, at as int);
        proof {
            // The piece up to the line feed is the first piece of what is
            // left; the rest of the pieces are those of what follows.
            let behind = split(chars@.skip(at + 1), LINE_FEED);
            lemma_split_at_first_separator(rest, LINE_FEED, at - start);
            assert(rest.take(at - start) =~= piece);
            assert(rest.skip(at - start + 1) =~= chars@.skip(at + 1));
            assert(ended + (seq![piece] + behind) =~= ended.push(piece) + behind);
        }
        let line_end: usize = if at > start && chars[at - 1] == CARRIAGE_RETURN {
            at - 1
        } else {
            at
        };
        let line = text.substring_char(start, line_end);
        proof {
            ended = ended.push(piece);
        }
        lines.push(String::from_str(line));
        start = at + 1;
    }
}

/// The articles that a submitted text asks for: one for every line, in
/// order, with the line as its address, the title derived from it and a
/// fresh random identifier. The empty text, and only the empty text, asks
/// for none.
pub fn articles_from_contents(file_contents: &str) -> (articles: Vec<Article>)
    ensures
        articles@.len() == lines_of(file_contents@).len(),
        forall|i: int|
            0 <= i < articles@.len() ==> {
                &&& (#[trigger] articles@[i])@.url == lines_of(file_contents@)[i]
                &&& articles@[i]@.title == title_from_url(lines_of(file_contents@)[i])
                &&& is_random_v4(articles@[i]@.uuid.bits)
            },
        articles@.len() == 0 <==> file_contents@.len() == 0,
{
    let lines = lines(file_contents);
    let mut articles: Vec<Article> = Vec::new();
    let mut i: usize = 0;
    while i < lines.len()
        invariant
            i <= lines.len(),
            lines@.len() == lines_of(file_contents@).len(),
            forall|k: int|
                0 <= k < lines@.len() ==> (#[trigger] lines@[k])@ == lines_of(file_contents@)[k],
            articles@.len() == i,
            forall|k: int|
                0 <= k < i ==> {
                    &&& (#[trigger] articles@[k])@.url == lines_of(file_contents@)[k]
                    &&& articles@[k]@.title == title_from_url(lines_of(file_contents@)[k])
                    &&& is_random_v4(articles@[k]@.uuid.bits)
                },
        decreases lines.len() - i,
    {
        let line = lines[i].clone();
        let title = get_title_from_url(line.clone());
        articles.push(Article::from_parts(title, line));
        i += 1;
    }
    proof {
        lemma_no_lines_only_in_empty_text(file_contents@);
    }
    articles
}

/// Whether a submission has resolved, and with a success.
pub open spec fn has_succeeded<E>(state: Option<&Result<(), E>>) -> bool {
    match state {
        Some(outcome) => outcome is Ok,
        None => false,
    }
}

/// What the input field holds once the state of the latest submission is
/// `state`: nothing after a success, so that the next addresses can be
/// entered; what it held, `links`, while the submission is under way and
/// after a failure, so that nothing the user typed is lost.
pub fn links_after_submission<E>(links: String, state: Option<&Result<(), E>>) -> (after: String)
    ensures
        after@ == if has_succeeded(state) {
            Seq::<char>::empty()
        } else {
            links@
        },
{
    match state {
        Some(Ok(_)) => String::new(),
        _ => links,
    }
}

/// Only the empty text has no lines.
pub proof fn lemma_no_lines_only_in_empty_text(text: Seq<char>)
    ensures
        lines_of(text).len() == 0 <==> text.len() == 0,
{
    let pieces = split(text, LINE_FEED);
    lemma_split_is_not_empty(text, LINE_FEED);
    if text.len() > 0 {
        if exists|i: int| 0 <= i < text.len() && text[i] == LINE_FEED {
            let at = choose|i: int| 0 <= i < text.len() && text[i] == LINE_FEED;
            lemma_split_with_separator(text, LINE_FEED, at);
        } else {
            lemma_split_without_separator(text, LINE_FEED);
        }
    }
}

} // verus!
