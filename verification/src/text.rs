//! Text handling: prefixes, lines, trimming, and the quoted fallback of reply bodies.

use vstd::prelude::*;

verus! {

/// `String::push` of the standard library appends the given character to the end of the string.
pub assume_specification[ String::push ](s: &mut String, ch: char)
    ensures
        final(s)@ == old(s)@.push(ch),
;

/// The characters of `s`, in order.
pub(crate) fn chars_of(s: &str) -> (r: Vec<char>)
    ensures
        r@ == s@,
{
    let mut out: Vec<char> = Vec::new();
    for c in it: s.chars()
        invariant
            out@ == s@.take(it.index()),
            it.seq() == s@,
    {
        out.push(c);
    }
    out
}

/// The text made of `chars[from..to]`.
pub(crate) fn text_between(chars: &Vec<char>, from: usize, to: usize) -> (r: String)
    requires
        from <= to <= chars@.len(),
    ensures
        r@ == chars@.subrange(from as int, to as int),
{
    let mut out = String::new();
    let mut i: usize = from;
    while i < to
        invariant
            from <= i <= to <= chars@.len(),
            out@ == chars@.subrange(from as int, i as int),
        decreases to - i,
    {
        out.push(chars[i]);
        i = i + 1;
    }
    out
}

/// Whether `s` begins with `prefix`.
pub(crate) fn starts_with(s: &str, prefix: &str) -> (r: bool)
    ensures
        r == prefix@.is_prefix_of(s@),
{
    let mut text = s.chars();
    let mut wanted = prefix.chars();
    let ghost mut n: int = 0;
    loop
        invariant
            0 <= n <= s@.len(),
            n <= prefix@.len(),
            vstd::std_specs::iter::IteratorSpec::remaining(&text) == s@.skip(n),
            vstd::std_specs::iter::IteratorSpec::remaining(&wanted) == prefix@.skip(n),
            s@.take(n) == prefix@.take(n),
        decreases prefix@.len() - n,
    {
        match wanted.next() {
            None => {
                assert(prefix@.take(n) == prefix@);
                return true;
            },
            Some(w) => {
                match text.next() {
                    Some(c) => {
                        if c != w {
                            return false;
                        }
                        proof {
                            n = n + 1;
                        }
                    },
                    None => {
                        return false;
                    },
                }
            },
        }
    }
}

/// Whether two texts are the same.
pub(crate) fn same_text(a: &str, b: &str) -> (r: bool)
    ensures
        r == (a@ == b@),
{
    let r = starts_with(a, b) && starts_with(b, a);
    assert(r ==> a@ == b@);
    r
}

/// Whether a character has the Unicode property `White_Space`.
pub open spec fn is_white_space(c: char) -> bool {
    ||| '\t' <= c <= '\r'
    ||| c == ' '
    ||| c == '\u{85}'
    ||| c == '\u{a0}'
    ||| c == '\u{1680}'
    ||| '\u{2000}' <= c <= '\u{200a}'
    ||| '\u{2028}' <= c <= '\u{2029}'
    ||| c == '\u{202f}'
    ||| c == '\u{205f}'
    ||| c == '\u{3000}'
}

/// `char::is_whitespace` says whether the character has the Unicode property `White_Space`.
pub assume_specification[ char::is_whitespace ](c: char) -> (r: bool)
    ensures
        r == is_white_space(c),
;

/// `s` from its first character that is not white space.
pub open spec fn trim_start(s: Seq<char>) -> Seq<char>
    decreases s.len(),
{
    if s.len() > 0 && is_white_space(s[0]) {
        trim_start(s.skip(1))
    } else {
        s
    }
}

/// `s` up to its last character that is not white space.
pub open spec fn trim_end(s: Seq<char>) -> Seq<char>
    decreases s.len(),
{
    if s.len() > 0 && is_white_space(s.last()) {
        trim_end(s.drop_last())
    } else {
        s
    }
}

/// `s` without the white space at its start and at its end.
pub open spec fn trimmed(s: Seq<char>) -> Seq<char> {
    trim_end(trim_start(s))
}

/// The text without the white space at its start and at its end.
pub(crate) fn trim(s: &str) -> (r: String)
    ensures
        r@ == trimmed(s@),
{
    let chars = chars_of(s);
    let mut from: usize = 0;
    assert(chars@.skip(0) == chars@);
    while from < chars.len() && chars[from].is_whitespace()
        invariant
            from <= chars@.len(),
            trim_start(chars@.skip(from as int)) == trim_start(chars@),
        decreases chars@.len() - from,
    {
        assert(chars@.skip(from as int).skip(1) == chars@.skip(from + 1));
        from = from + 1;
    }
    let ghost rest = chars@.skip(from as int);
    assert(trim_start(chars@) == rest);
    let mut to: usize = chars.len();
    assert(chars@.subrange(from as int, to as int) == rest);
    while to > from && chars[to - 1].is_whitespace()
        invariant
            from <= to <= chars@.len(),
            trim_end(chars@.subrange(from as int, to as int)) == trim_end(rest),
        decreases to,
    {
        assert(chars@.subrange(from as int, to as int).drop_last() == chars@.subrange(
            from as int,
            to - 1,
        ));
        to = to - 1;
    }
    text_between(&chars, from, to)
}

/// The views of a list of texts.
pub open spec fn texts(list: Seq<String>) -> Seq<Seq<char>> {
    list.map_values(|s: String| s@)
}

/// The number of characters of `s` before its first line feed, or all of them if it has none.
pub open spec fn line_length(s: Seq<char>) -> int
    decreases s.len(),
{
    if s.len() == 0 || s[0] == '\n' {
        0
    } else {
        1 + line_length(s.skip(1))
    }
}

/// `line` without the carriage return at its end, if there is one.
pub open spec fn without_cr(line: Seq<char>) -> Seq<char> {
    if line.len() > 0 && line.last() == '\r' {
        line.drop_last()
    } else {
        line
    }
}

/// The lines of `s`: each ends at a line feed or at a carriage return and line feed, neither of
/// which is part of it, or at the end of the text. A final line ending opens no further line.
pub open spec fn lines(s: Seq<char>) -> Seq<Seq<char>>
    decreases s.len(),
{
    if s.len() == 0 {
        seq![]
    } else if line_length(s) == s.len() {
        seq![s]
    } else {
        proof {
            lemma_line_length(s);
        }
        seq![without_cr(s.take(line_length(s)))] + lines(s.skip(line_length(s) + 1))
    }
}

/// `line_length` finds the first line feed.
pub proof fn lemma_line_length(s: Seq<char>)
    ensures
        0 <= line_length(s) <= s.len(),
        forall|j: int| 0 <= j < line_length(s) ==> s[j] != '\n',
        line_length(s) < s.len() ==> s[line_length(s)] == '\n',
    decreases s.len(),
{
    if s.len() > 0 && s[0] != '\n' {
        lemma_line_length(s.skip(1));
        assert forall|j: int| 0 <= j < line_length(s) implies s[j] != '\n' by {
            if j > 0 {
                assert(s[j] == s.skip(1)[j - 1]);
            }
        }
        if line_length(s) < s.len() {
            assert(s[line_length(s)] == s.skip(1)[line_length(s) - 1]);
        }
    }
}

/// A text whose first line feed is at `n`, or that has none and length `n`, has line length `n`.
proof fn lemma_line_length_is(s: Seq<char>, n: int)
    requires
        0 <= n <= s.len(),
        forall|j: int| 0 <= j < n ==> s[j] != '\n',
        n < s.len() ==> s[n] == '\n',
    ensures
        line_length(s) == n,
{
    lemma_line_length(s);
    if line_length(s) < n {
        assert(s[line_length(s)] == '\n');
    }
}

/// The lines of a text, as [`lines`] says.
fn split_lines(text: &str) -> (r: Vec<String>)
    ensures
        texts(r@) == lines(text@),
{
    let chars = chars_of(text);
    let mut out: Vec<String> = Vec::new();
    let mut start: usize = 0;
    assert(chars@.skip(0) == chars@);
    while start < chars.len()
        invariant
            chars@ == text@,
            start <= chars@.len(),
            texts(out@) + lines(chars@.skip(start as int)) == lines(chars@),
        decreases chars@.len() - start,
    {
        let ghost rest = chars@.skip(start as int);
        let mut end: usize = start;
        while end < chars.len() && chars[end] != '\n'
            invariant
                start <= end <= chars@.len(),
                forall|j: int| start <= j < end ==> chars@[j] != '\n',
            decreases chars@.len() - end,
        {
            end = end + 1;
        }
        proof {
            lemma_line_length_is(rest, end - start);
        }
        let ghost before = texts(out@);
        if end == chars.len() {
            let line = text_between(&chars, start, end);
            assert(line@ == rest);
            out.push(line);
            assert(texts(out@) == before.push(rest));
            start = end;
            assert(lines(chars@.skip(start as int)) == Seq::<Seq<char>>::empty());
        } else {
            let cut = if end > start && chars[end - 1] == '\r' {
                end - 1
            } else {
                end
            };
            let line = text_between(&chars, start, cut);
            assert(line@ == without_cr(rest.take(end - start)));
            out.push(line);
            assert(texts(out@) == before.push(line@));
            start = end + 1;
            assert(chars@.skip(start as int) == rest.skip(line_length(rest) + 1));
            assert(texts(out@) + lines(chars@.skip(start as int)) == before + lines(rest));
        }
    }
    assert(lines(chars@.skip(start as int)) == Seq::<Seq<char>>::empty());
    out
}

/// The given lines with a line feed between each two.
pub open spec fn join_lines(list: Seq<Seq<char>>) -> Seq<char>
    decreases list.len(),
{
    if list.len() == 0 {
        seq![]
    } else if list.len() == 1 {
        list[0]
    } else {
        list[0] + seq!['\n'] + join_lines(list.skip(1))
    }
}

/// Joins `list[from..]`, as [`join_lines`] says.
fn join_from(list: &Vec<String>, from: usize) -> (r: String)
    requires
        from <= list@.len(),
    ensures
        r@ == join_lines(texts(list@).skip(from as int)),
{
    let mut out = String::new();
    let mut i: usize = from;
    let ghost all = texts(list@);
    while i < list.len()
        invariant
            from <= i <= list@.len(),
            all == texts(list@),
            i == from ==> out@.len() == 0,
            i > from && i == list@.len() ==> out@ == join_lines(all.skip(from as int)),
            i > from && i < list@.len() ==> out@ + seq!['\n'] + join_lines(all.skip(i as int))
                == join_lines(all.skip(from as int)),
        decreases list@.len() - i,
    {
        let ghost before = out@;
        if i > from {
            out.push('\n');
        }
        out.append(list[i].as_str());
        let ghost tail = all.skip(i as int);
        assert(tail[0] == list@[i as int]@);
        assert(tail.skip(1) == all.skip(i + 1));
        proof {
            if i == from {
                if tail.len() == 1 {
                    assert(out@ == join_lines(all.skip(from as int)));
                } else {
                    assert(out@ + seq!['\n'] + join_lines(all.skip(i + 1)) == join_lines(
                        all.skip(from as int),
                    ));
                }
            } else {
                assert(out@ == before + seq!['\n'] + tail[0]);
                if tail.len() > 1 {
                    assert(out@ + seq!['\n'] + join_lines(all.skip(i + 1)) == before + seq!['\n']
                        + join_lines(tail));
                }
            }
        }
        i = i + 1;
    }
    out
}

/// Whether a line is part of the quoted fallback: it starts with `"> "`.
pub open spec fn is_quote(line: Seq<char>) -> bool {
    "> "@.is_prefix_of(line)
}

/// `list` from its first line that is no quote.
pub open spec fn after_quotes(list: Seq<Seq<char>>) -> Seq<Seq<char>>
    decreases list.len(),
{
    if list.len() > 0 && is_quote(list[0]) {
        after_quotes(list.skip(1))
    } else {
        list
    }
}

/// `list` without its first line, if that one is empty.
pub open spec fn after_blank(list: Seq<Seq<char>>) -> Seq<Seq<char>> {
    if list.len() > 0 && list[0].len() == 0 {
        list.skip(1)
    } else {
        list
    }
}

/// What a reply's body says beside its fallback: the lines after the leading quotes and the blank
/// line that follows them, or all of the body where nothing would be left.
pub open spec fn reply_text(body: Seq<char>) -> Seq<char> {
    let rest = join_lines(after_blank(after_quotes(lines(body))));
    if rest.len() == 0 {
        body
    } else {
        rest
    }
}

/// Strips the reply fallback from a message body.
///
/// Reply bodies look like `"> <@user:server> quoted text\n> more\n\nActual reply"`. The leading
/// lines that start with `"> "` go, and the blank line that separates them from the reply.
pub fn strip_reply_fallback(body: &str) -> (r: String)
    ensures
        r@ == reply_text(body@),
{
    let list = split_lines(body);
    let mut n: usize = 0;
    let ghost all = texts(list@);
    assert(all.skip(0) == all);
    while n < list.len() && starts_with(list[n].as_str(), "> ")
        invariant
            n <= list@.len(),
            all == texts(list@),
            after_quotes(all.skip(n as int)) == after_quotes(all),
        decreases list@.len() - n,
    {
        assert(all.skip(n as int).skip(1) == all.skip(n + 1));
        n = n + 1;
    }
    assert(after_quotes(all) == all.skip(n as int));
    if n < list.len() && list[n].as_str().is_empty() {
        assert(all.skip(n as int).skip(1) == all.skip(n + 1));
        n = n + 1;
    }
    let remaining = join_from(&list, n);
    if remaining.as_str().is_empty() {
        body.to_owned()
    } else {
        remaining
    }
}

/// Whether a text is given back by joining its lines: it has no line ending of two characters and
/// no line ending at its end.
pub open spec fn plain_line_ends(s: Seq<char>) -> bool {
    &&& s.len() > 0 ==> s.last() != '\n'
    &&& forall|i: int| 0 < i < s.len() && #[trigger] s[i] == '\n' ==> s[i - 1] != '\r'
}

/// Splitting a text into lines and joining them gives the text back.
pub proof fn law_lines_round_trip(s: Seq<char>)
    requires
        plain_line_ends(s),
    ensures
        join_lines(lines(s)) == s,
        s.len() > 0 ==> lines(s).len() > 0,
    decreases s.len(),
{
    if s.len() > 0 {
        lemma_line_length(s);
        let n = line_length(s);
        if n < s.len() {
            let tail = s.skip(n + 1);
            assert(n + 1 < s.len());
            assert(tail.last() == s.last());
            assert forall|i: int| 0 < i < tail.len() && #[trigger] tail[i] == '\n' implies tail[i
                - 1] != '\r' by {
                assert(tail[i] == s[i + n + 1]);
                assert(tail[i - 1] == s[i + n]);
            }
            law_lines_round_trip(tail);
            assert(without_cr(s.take(n)) == s.take(n));
            assert(lines(s).skip(1) == lines(tail));
            assert(s.take(n) + seq!['\n'] + tail == s);
        }
    }
}

/// The lines of a first line, its line feed and what follows.
proof fn lemma_first_line(line: Seq<char>, rest: Seq<char>)
    requires
        forall|j: int| 0 <= j < line.len() ==> line[j] != '\n',
    ensures
        lines(line + seq!['\n'] + rest) == seq![without_cr(line)] + lines(rest),
{
    let s = line + seq!['\n'] + rest;
    lemma_line_length_is(s, line.len() as int);
    assert(s.take(line.len() as int) == line);
    assert(s.skip(line.len() as int + 1) == rest);
}

/// A quoted fallback: each quoted line with its line feed.
pub open spec fn quoted(quotes: Seq<Seq<char>>) -> Seq<char>
    decreases quotes.len(),
{
    if quotes.len() == 0 {
        seq![]
    } else {
        quotes[0] + seq!['\n'] + quoted(quotes.skip(1))
    }
}

/// Whether every one of `quotes` is one line of a quoted fallback.
pub open spec fn quote_lines(quotes: Seq<Seq<char>>) -> bool {
    forall|i: int|
        0 <= i < quotes.len() ==> is_quote(#[trigger] quotes[i]) && !quotes[i].contains('\n')
}

proof fn lemma_is_quote(line: Seq<char>)
    ensures
        is_quote(line) <==> line.len() >= 2 && line[0] == '>' && line[1] == ' ',
{
    reveal_strlit("> ");
    if is_quote(line) {
        assert("> "@[0] == line[0] && "> "@[1] == line[1]);
    }
    if line.len() >= 2 && line[0] == '>' && line[1] == ' ' {
        assert("> "@ == line.subrange(0, 2));
    }
}

proof fn lemma_after_quotes(quotes: Seq<Seq<char>>, reply: Seq<char>)
    requires
        quote_lines(quotes),
    ensures
        after_quotes(lines(quoted(quotes) + seq!['\n'] + reply)) == seq![Seq::<char>::empty()]
            + lines(reply),
    decreases quotes.len(),
{
    if quotes.len() == 0 {
        lemma_is_quote(Seq::empty());
        assert(quoted(quotes) + seq!['\n'] + reply == Seq::<char>::empty() + seq!['\n'] + reply);
        lemma_first_line(Seq::empty(), reply);
    } else {
        let first = quotes[0];
        let rest = quoted(quotes.skip(1)) + seq!['\n'] + reply;
        assert(quoted(quotes) + seq!['\n'] + reply == first + seq!['\n'] + rest);
        lemma_first_line(first, rest);
        assert(is_quote(quotes[0]));
        lemma_is_quote(first);
        lemma_is_quote(without_cr(first));
        let list = lines(first + seq!['\n'] + rest);
        assert(list.skip(1) == lines(rest));
        lemma_after_quotes(quotes.skip(1), reply);
    }
}

/// A reply is recovered from a body that holds quoted lines, a blank line and the reply.
pub proof fn law_reply_is_recovered(quotes: Seq<Seq<char>>, reply: Seq<char>)
    requires
        quote_lines(quotes),
        reply.len() > 0,
        plain_line_ends(reply),
    ensures
        reply_text(quoted(quotes) + seq!['\n'] + reply) == reply,
{
    lemma_after_quotes(quotes, reply);
    let list = seq![Seq::<char>::empty()] + lines(reply);
    assert(list.skip(1) == lines(reply));
    law_lines_round_trip(reply);
}

/// Stripping leaves something of every body that is not empty.
pub proof fn law_stripping_never_empties(body: Seq<char>)
    ensures
        body.len() > 0 ==> reply_text(body).len() > 0,
        body.len() == 0 ==> reply_text(body) == body,
{
}

/// A body of nothing but quoted lines is kept whole.
pub proof fn law_bare_quotes_are_kept(body: Seq<char>)
    requires
        forall|i: int| 0 <= i < lines(body).len() ==> is_quote(#[trigger] lines(body)[i]),
    ensures
        reply_text(body) == body,
{
    lemma_all_quotes(lines(body));
}

proof fn lemma_all_quotes(list: Seq<Seq<char>>)
    requires
        forall|i: int| 0 <= i < list.len() ==> is_quote(#[trigger] list[i]),
    ensures
        after_quotes(list).len() == 0,
    decreases list.len(),
{
    if list.len() > 0 {
        assert(is_quote(list[0]));
        let tail = list.skip(1);
        assert forall|i: int| 0 <= i < tail.len() implies is_quote(#[trigger] tail[i]) by {
            assert(tail[i] == list[i + 1]);
        }
        lemma_all_quotes(tail);
    }
}

/// A body that starts with neither a quote nor a blank line is kept whole.
pub proof fn law_body_without_fallback_is_kept(body: Seq<char>)
    requires
        plain_line_ends(body),
        body.len() > 0 ==> !is_quote(lines(body)[0]) && lines(body)[0].len() > 0,
    ensures
        reply_text(body) == body,
{
    law_lines_round_trip(body);
}

/// A line of the quoted fallback is one that begins with a greater-than sign and a space.
pub proof fn law_quote_begins_with_its_mark(line: Seq<char>)
    ensures
        is_quote(line) <==> line.len() >= 2 && line[0] == '>' && line[1] == ' ',
{
    lemma_is_quote(line);
}

/// A line ends at a line feed or at a carriage return and line feed, which are no part of it, and
/// what follows is a line of its own. A text without a line feed is one line, unless it is empty.
pub proof fn law_lines_end_at_line_feeds(line: Seq<char>, rest: Seq<char>)
    requires
        !line.contains('\n'),
    ensures
        lines(line + seq!['\r', '\n'] + rest) == seq![line] + lines(rest),
        line.len() == 0 || line.last() != '\r' ==> lines(line + seq!['\n'] + rest) == seq![line]
            + lines(rest),
        line.len() > 0 ==> lines(line) == seq![line],
        lines(Seq::empty()) == Seq::<Seq<char>>::empty(),
{
    assert forall|j: int| 0 <= j < line.len() implies line[j] != '\n' by {
        assert(line.contains(line[j]));
    }
    lemma_first_line(line, rest);
    let with_cr = line.push('\r');
    lemma_first_line(with_cr, rest);
    assert(with_cr + seq!['\n'] + rest == line + seq!['\r', '\n'] + rest);
    assert(without_cr(with_cr) == line);
    lemma_line_length_is(line, line.len() as int);
}

/// Joined lines are the first one and, if there are more, a line feed and the others joined.
pub proof fn law_joined_lines_are_apart(first: Seq<char>, others: Seq<Seq<char>>)
    ensures
        join_lines(Seq::empty()) == Seq::<char>::empty(),
        join_lines(seq![first]) == first,
        others.len() > 0 ==> join_lines(seq![first] + others) == first + seq!['\n'] + join_lines(
            others,
        ),
{
    assert((seq![first] + others).skip(1) == others);
}

proof fn lemma_after_these_quotes(quotes: Seq<Seq<char>>, rest: Seq<Seq<char>>)
    requires
        forall|i: int| 0 <= i < quotes.len() ==> is_quote(#[trigger] quotes[i]),
        rest.len() > 0 ==> !is_quote(rest[0]),
    ensures
        after_quotes(quotes + rest) == rest,
    decreases quotes.len(),
{
    let all = quotes + rest;
    if quotes.len() == 0 {
        assert(all == rest);
    } else {
        assert(all[0] == quotes[0]);
        let tail = quotes.skip(1);
        assert forall|i: int| 0 <= i < tail.len() implies is_quote(#[trigger] tail[i]) by {
            assert(tail[i] == quotes[i + 1]);
        }
        assert(all.skip(1) == tail + rest);
        lemma_after_these_quotes(tail, rest);
    }
}

/// Stripping takes away the quoted lines at the beginning of a body and at most one blank line
/// after them, and nothing else: the other lines are left as they are, with a line feed between
/// them. Where nothing would be left, the body is.
pub proof fn law_only_the_fallback_goes(
    body: &str,
    r: String,
    quotes: Seq<Seq<char>>,
    rest: Seq<Seq<char>>,
)
    requires
        call_ensures(strip_reply_fallback, (body,), r),
        lines(body@) == quotes + rest,
        forall|i: int|
            0 <= i < quotes.len() ==> {
                &&& (#[trigger] quotes[i]).len() >= 2
                &&& quotes[i][0] == '>'
                &&& quotes[i][1] == ' '
            },
        rest.len() > 0 && rest[0].len() >= 2 ==> rest[0][0] != '>' || rest[0][1] != ' ',
    ensures
        ({
            let kept = if rest.len() > 0 && rest[0].len() == 0 {
                rest.skip(1)
            } else {
                rest
            };
            r@ == if join_lines(kept).len() == 0 {
                body@
            } else {
                join_lines(kept)
            }
        }),
{
    assert forall|i: int| 0 <= i < quotes.len() implies is_quote(#[trigger] quotes[i]) by {
        lemma_is_quote(quotes[i]);
    }
    if rest.len() > 0 {
        lemma_is_quote(rest[0]);
    }
    lemma_after_these_quotes(quotes, rest);
}

proof fn lemma_trim_start(s: Seq<char>) -> (i: int)
    ensures
        0 <= i <= s.len(),
        trim_start(s) == s.skip(i),
        forall|k: int| 0 <= k < i ==> is_white_space(#[trigger] s[k]),
        i < s.len() ==> !is_white_space(s[i]),
    decreases s.len(),
{
    if s.len() > 0 && is_white_space(s[0]) {
        let i = lemma_trim_start(s.skip(1));
        assert(s.skip(1).skip(i) == s.skip(i + 1));
        assert forall|k: int| 0 <= k < i + 1 implies is_white_space(#[trigger] s[k]) by {
            if k > 0 {
                assert(s.skip(1)[k - 1] == s[k]);
            }
        }
        i + 1
    } else {
        assert(s.skip(0) == s);
        0
    }
}

proof fn lemma_trim_end(s: Seq<char>) -> (n: int)
    ensures
        0 <= n <= s.len(),
        trim_end(s) == s.take(n),
        forall|k: int| n <= k < s.len() ==> is_white_space(#[trigger] s[k]),
        n > 0 ==> !is_white_space(s[n - 1]),
    decreases s.len(),
{
    if s.len() > 0 && is_white_space(s.last()) {
        let n = lemma_trim_end(s.drop_last());
        assert(s.drop_last().take(n) == s.take(n));
        assert forall|k: int| n <= k < s.len() implies is_white_space(#[trigger] s[k]) by {
            if k < s.len() - 1 {
                assert(s.drop_last()[k] == s[k]);
            }
        }
        n
    } else {
        assert(s.take(s.len() as int) == s);
        s.len() as int
    }
}

/// A trimmed text is the text without some white space at its start and some at its end, and has
/// none left at either.
pub proof fn law_trimming_takes_the_white_space_around(s: Seq<char>)
    ensures
        exists|i: int, j: int|
            {
                &&& 0 <= i <= j <= s.len()
                &&& trimmed(s) == #[trigger] s.subrange(i, j)
                &&& forall|k: int| 0 <= k < i ==> is_white_space(#[trigger] s[k])
                &&& forall|k: int| j <= k < s.len() ==> is_white_space(#[trigger] s[k])
                &&& i < j ==> !is_white_space(s[i]) && !is_white_space(s[j - 1])
            },
{
    let i = lemma_trim_start(s);
    let rest = s.skip(i);
    let n = lemma_trim_end(rest);
    let j = i + n;
    assert(trimmed(s) == s.subrange(i, j));
    assert forall|k: int| j <= k < s.len() implies is_white_space(#[trigger] s[k]) by {
        assert(rest[k - i] == s[k]);
    }
    if i < j {
        assert(rest[n - 1] == s[j - 1]);
    }
}

/// White space is what Unicode counts as such.
pub proof fn law_white_space_is_that_of_unicode(c: char)
    ensures
        is_white_space(c) <==> {
            let n = c as u32;
            ||| 0x9 <= n <= 0xd
            ||| n == 0x20
            ||| n == 0x85
            ||| n == 0xa0
            ||| n == 0x1680
            ||| 0x2000 <= n <= 0x200a
            ||| n == 0x2028
            ||| n == 0x2029
            ||| n == 0x202f
            ||| n == 0x205f
            ||| n == 0x3000
        },
{
}

} // verus!
