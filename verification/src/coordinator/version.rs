//! The versions of the tools in a container, as the tools print them.
use crate::text::{
    split_lines, split_once, split_words, same_text, trim, trim_end_matches, trim_start_matches,
};
use crate::text;
use vstd::prelude::*;

verus! {

/// The versions of the tools of one release channel.
#[derive(Debug, Clone, PartialEq, Eq)]
pub struct ChannelVersions {
    pub rustc: Version,
    pub rustfmt: Version,
    pub clippy: Version,
    pub miri: Option<Version>,
}

/// The version of one tool.
///
/// Parsing is lenient: what the text does not say is left empty.
#[derive(Debug, Clone, PartialEq, Eq)]
pub struct Version {
    pub release: String,
    pub commit_hash: String,
    pub commit_date: String,
}

/// The texts of a [`Version`].
pub struct VersionText {
    pub release: Seq<char>,
    pub commit_hash: Seq<char>,
    pub commit_date: Seq<char>,
}

impl View for Version {
    type V = VersionText;

    open spec fn view(&self) -> VersionText {
        VersionText {
            release: self.release@,
            commit_hash: self.commit_hash@,
            commit_date: self.commit_date@,
        }
    }
}

/// The key and the value of a line `key: value`, or `None` where it has no
/// colon.
pub open spec fn field(line: Seq<char>) -> Option<(Seq<char>, Seq<char>)> {
    let i = text::first_where(line, text::only(':'));
    if 0 <= i < line.len() {
        Some((text::trimmed(line.take(i)), text::trimmed(line.skip(i + 1))))
    } else {
        None
    }
}

/// The value of the last of `rows` whose key is `key`; empty where there is
/// none.
pub open spec fn last_value(rows: Seq<Seq<char>>, key: Seq<char>) -> Seq<char>
    decreases rows.len(),
{
    if rows.len() == 0 {
        Seq::empty()
    } else {
        match field(rows.last()) {
            Some((k, v)) => if k == key {
                v
            } else {
                last_value(rows.drop_last(), key)
            },
            None => last_value(rows.drop_last(), key),
        }
    }
}

/// All items but the first.
pub open spec fn after_first(rows: Seq<Seq<char>>) -> Seq<Seq<char>> {
    if rows.len() == 0 {
        rows
    } else {
        rows.skip(1)
    }
}

/// The version that the output of `rustc --version --verbose` tells: below a
/// first line, a line `key: value` for each item.
pub open spec fn rustc_version(text: Seq<char>) -> VersionText {
    let rows = after_first(text::lines(text));
    VersionText {
        release: last_value(rows, "release"@),
        commit_hash: last_value(rows, "commit-hash"@),
        commit_date: last_value(rows, "commit-date"@),
    }
}

/// The item at `i`; empty where there is none.
pub open spec fn nth_or_empty(items: Seq<Seq<char>>, i: int) -> Seq<char> {
    if 0 <= i < items.len() {
        items[i]
    } else {
        Seq::empty()
    }
}

/// The version that a text of the shape `toolname 0.0.0 (0000000 0000-00-00)`
/// tells.
pub open spec fn tool_version(text: Seq<char>) -> VersionText {
    VersionText {
        release: nth_or_empty(text::words(text), 1),
        commit_hash: text::strip_front(nth_or_empty(text::words(text), 2), text::only('(')),
        commit_date: text::strip_back(nth_or_empty(text::words(text), 3), text::only(')')),
    }
}

impl Version {
    /// Reads the output of `rustc --version --verbose`.
    pub fn parse_rustc_version_verbose(rustc_version: &str) -> (version: Version)
        ensures
            version@ == crate::coordinator::version::rustc_version(rustc_version@),
    {
        let rows: Vec<&str> = split_lines(rustc_version);
        let mut release: &str = "";
        let mut commit_hash: &str = "";
        let mut commit_date: &str = "";
        proof {
            reveal_strlit("");
            reveal_strlit("release");
            reveal_strlit("commit-hash");
            reveal_strlit("commit-date");
            assert("commit-hash"@[7] != "commit-date"@[7]);
        }
        let mut i: usize = 1;
        let ghost all = text::lines(rustc_version@);
        let ghost n = all.len() as int;
        assert(text::str_texts(rows@).len() == rows@.len());
        assert(release@ =~= Seq::<char>::empty());
        assert(commit_hash@ =~= Seq::<char>::empty());
        assert(commit_date@ =~= Seq::<char>::empty());
        assert(n > 0 ==> all.subrange(1, 1) =~= Seq::<Seq<char>>::empty());
        while i < rows.len()
            invariant
                text::str_texts(rows@) == all,
                rows@.len() == n,
                1 <= i,
                n > 0 ==> i <= n,
                n > 0 ==> release@ == last_value(all.subrange(1, i as int), "release"@),
                n > 0 ==> commit_hash@ == last_value(all.subrange(1, i as int), "commit-hash"@),
                n > 0 ==> commit_date@ == last_value(all.subrange(1, i as int), "commit-date"@),
                n == 0 ==> release@.len() == 0 && commit_hash@.len() == 0 && commit_date@.len()
                    == 0,
                "release"@.len() != "commit-hash"@.len(),
                "release"@.len() != "commit-date"@.len(),
                "commit-hash"@ != "commit-date"@,
            decreases n - i,
        {
            let row: &str = rows[i];
            proof {
                assert(all.subrange(1, i + 1).drop_last() =~= all.subrange(1, i as int));
                assert(text::str_texts(rows@)[i as int] == row@);
                assert(all.subrange(1, i + 1).last() == row@);
            }
            if let Some((left, right)) = split_once(row, ':') {
                let key: &str = trim(left);
                let value: &str = trim(right);
                if same_text(key, "release") {
                    release = value;
                } else if same_text(key, "commit-hash") {
                    commit_hash = value;
                } else if same_text(key, "commit-date") {
                    commit_date = value;
                }
            }
            i = i + 1;
        }
        proof {
            if n > 0 {
                assert(all.subrange(1, n) =~= after_first(all));
            } else {
                assert(release@ =~= Seq::<char>::empty());
                assert(commit_hash@ =~= Seq::<char>::empty());
                assert(commit_date@ =~= Seq::<char>::empty());
            }
        }
        Version {
            release: release.to_owned(),
            commit_hash: commit_hash.to_owned(),
            commit_date: commit_date.to_owned(),
        }
    }

    /// Reads a version of the shape `toolname 0.0.0 (0000000 0000-00-00)`.
    pub fn parse_tool_version(tool_version: &str) -> (version: Version)
        ensures
            version@ == crate::coordinator::version::tool_version(tool_version@),
    {
        let parts: Vec<&str> = split_words(tool_version);
        proof {
            reveal_strlit("");
            assert(""@ =~= Seq::<char>::empty());
            assert(forall|i: int|
                0 <= i < parts@.len() ==> #[trigger] text::str_texts(parts@)[i] == parts@[i]@);
            assert(text::str_texts(parts@).len() == parts@.len());
        }
        let release: &str = if parts.len() > 1 { parts[1] } else { "" };
        let commit_hash: &str = if parts.len() > 2 { parts[2] } else { "" };
        let commit_date: &str = if parts.len() > 3 { parts[3] } else { "" };
        Version {
            release: release.to_owned(),
            commit_hash: trim_start_matches(commit_hash, '(').to_owned(),
            commit_date: trim_end_matches(commit_date, ')').to_owned(),
        }
    }
}

/// `s` is a word: it is not empty and holds no white space.
pub open spec fn is_word(s: Seq<char>) -> bool {
    &&& s.len() > 0
    &&& forall|i: int| 0 <= i < s.len() ==> !text::white_space(#[trigger] s[i])
}

/// A word in front of white space is the first of the words.
proof fn lemma_first_word(word: Seq<char>, rest: Seq<char>)
    requires
        is_word(word),
        rest.len() > 0 ==> text::white_space(rest[0]),
    ensures
        text::words(word + rest) == seq![word] + text::words(rest),
{
    let s = word + rest;
    text::lemma_first_where_is(s, text::blank(), word.len() as int);
    assert(s[0] == word[0]);
    assert(s.take(word.len() as int) =~= word);
    assert(s.skip(word.len() as int) =~= rest);
}

/// A text `tool release (hash date)` yields its release, its hash and its date.
pub proof fn tool_version_reads_its_shape(
    tool: Seq<char>,
    release: Seq<char>,
    hash: Seq<char>,
    date: Seq<char>,
)
    requires
        is_word(tool),
        is_word(release),
        is_word(hash),
        is_word(date),
        hash[0] != '(',
        date.last() != ')',
    ensures
        tool_version(tool + " "@ + release + " ("@ + hash + " "@ + date + ")"@) == (VersionText {
            release,
            commit_hash: hash,
            commit_date: date,
        }),
{
    reveal_strlit(" ");
    reveal_strlit(" (");
    reveal_strlit(")");
    let space = seq![' '];
    assert(" "@ =~= space);
    let third = seq!['('] + hash;
    let fourth = date + seq![')'];
    let none = Seq::<char>::empty();
    let whole = tool + " "@ + release + " ("@ + hash + " "@ + date + ")"@;
    let t3 = space + fourth;
    let t2 = space + (third + t3);
    let t1 = space + (release + t2);
    assert(whole =~= tool + t1);
    assert(is_word(third)) by {
        assert forall|i: int| 0 <= i < third.len() implies !text::white_space(#[trigger] third[i]) by {
            if i > 0 {
                assert(third[i] == hash[i - 1]);
            }
        }
    }
    assert(is_word(fourth)) by {
        assert forall|i: int| 0 <= i < fourth.len() implies !text::white_space(
            #[trigger] fourth[i],
        ) by {
            if i < date.len() {
                assert(fourth[i] == date[i]);
            }
        }
    }
    lemma_first_word(tool, t1);
    lemma_first_word(release, t2);
    lemma_first_word(third, t3);
    lemma_first_word(fourth, none);
    assert(fourth + none =~= fourth);
    assert(t1.drop_first() =~= release + t2);
    assert(t2.drop_first() =~= third + t3);
    assert(t3.drop_first() =~= fourth);
    assert(text::words(none) =~= Seq::<Seq<char>>::empty());
    assert(text::words(whole) =~= seq![tool, release, third, fourth]);
    text::lemma_strip_front_is(third, text::only('('), 1);
    assert(third.skip(1) =~= hash);
    text::lemma_strip_back_is(fourth, text::only(')'), date.len() as int);
    assert(fourth.take(date.len() as int) =~= date);
}

/// A text that is empty or whose last line is complete.
pub open spec fn complete_lines(text: Seq<char>) -> bool {
    text.len() > 0 ==> text.last() == '\n'
}

/// A line added below complete lines is the last of the lines.
proof fn lemma_line_added(text: Seq<char>, line: Seq<char>)
    requires
        complete_lines(text),
        forall|i: int| 0 <= i < line.len() ==> line[i] != '\n',
    ensures
        text::lines(text + line + seq!['\n']) == text::lines(text).push(text::chomped(line)),
    decreases text.len(),
{
    let added = line + seq!['\n'];
    let whole = text + line + seq!['\n'];
    assert(whole =~= text + added);
    if text.len() == 0 {
        assert(whole =~= added);
        text::lemma_first_where_is(added, text::only('\n'), line.len() as int);
        assert(added.take(line.len() as int) =~= line);
        assert(added.skip(line.len() as int + 1) =~= Seq::<char>::empty());
        assert(text::lines(whole) =~= seq![text::chomped(line)] + text::lines(Seq::empty()));
        assert(text::lines(text) =~= Seq::<Seq<char>>::empty());
        assert(text::lines(whole) =~= text::lines(text).push(text::chomped(line)));
    } else {
        let i = text::first_where(text, text::only('\n'));
        text::lemma_first_where(text, text::only('\n'));
        if i == text.len() {
            assert(!text::only('\n')(text[text.len() - 1]));
        }
        assert forall|j: int| 0 <= j < i implies !text::only('\n')(#[trigger] whole[j]) by {
            assert(whole[j] == text[j]);
        }
        text::lemma_first_where_is(whole, text::only('\n'), i);
        let rest = text.skip(i + 1);
        lemma_line_added(rest, line);
        assert(whole.take(i) =~= text.take(i));
        assert(whole.skip(i + 1) =~= rest + line + seq!['\n']);
        assert(text::lines(whole) =~= text::lines(text).push(text::chomped(line)));
    }
}

/// A line `key: value` added to a report sets the item that `key` names and
/// leaves the other items as they were: each item is read without the others.
pub proof fn rustc_version_reads_each_item(text: Seq<char>, key: Seq<char>, value: Seq<char>)
    requires
        text.len() > 0,
        complete_lines(text),
        text::trimmed(key) == key,
        text::trimmed(value) == value,
        forall|i: int| 0 <= i < key.len() ==> key[i] != ':' && key[i] != '\n',
        forall|i: int| 0 <= i < value.len() ==> value[i] != '\n',
    ensures
        ({
            let was = rustc_version(text);
            let now = rustc_version(text + key + ": "@ + value + "\n"@);
            &&& now.release == if key == "release"@ {
                value
            } else {
                was.release
            }
            &&& now.commit_hash == if key == "commit-hash"@ {
                value
            } else {
                was.commit_hash
            }
            &&& now.commit_date == if key == "commit-date"@ {
                value
            } else {
                was.commit_date
            }
        }),
{
    reveal_strlit(": ");
    reveal_strlit("\n");
    let line = key + ": "@ + value;
    assert(text + key + ": "@ + value + "\n"@ =~= text + line + seq!['\n']);
    assert forall|i: int| 0 <= i < line.len() implies line[i] != '\n' by {
        if i >= key.len() + 2 {
            assert(line[i] == value[i - key.len() - 2]);
        }
    }
    lemma_line_added(text, line);
    lemma_trimmed_ends(value);
    assert(text::chomped(line) == line) by {
        if value.len() > 0 {
            assert(line.last() == value.last());
        } else {
            assert(line.last() == ' ');
        }
    }
    text::lemma_first_where_is(line, text::only(':'), key.len() as int);
    assert(line.take(key.len() as int) =~= key);
    assert(line.skip(key.len() as int + 1) =~= seq![' '] + value);
    lemma_trim_space(value);
    assert(field(line) == Some((key, value)));
    let rows = after_first(text::lines(text));
    let i = text::first_where(text, text::only('\n'));
    assert(text::lines(text).len() > 0);
    let more = after_first(text::lines(text).push(line));
    assert(more =~= rows.push(line));
    assert(more.drop_last() =~= rows);
}

/// A trimmed text neither begins nor ends with white space.
proof fn lemma_trimmed_ends(s: Seq<char>)
    requires
        text::trimmed(s) == s,
    ensures
        s.len() > 0 ==> !text::white_space(s[0]) && !text::white_space(s.last()),
{
    let front = text::strip_front(s, text::blank());
    lemma_strip_front_len(s);
    lemma_strip_back_len(front);
    if s.len() > 0 && text::white_space(s[0]) {
        lemma_strip_front_len(s.drop_first());
    }
    if s.len() > 0 && text::white_space(s.last()) && !text::white_space(s[0]) {
        assert(front == s);
        lemma_strip_back_len(s.drop_last());
    }
}

proof fn lemma_strip_front_len(s: Seq<char>)
    ensures
        text::strip_front(s, text::blank()).len() <= s.len(),
    decreases s.len(),
{
    if s.len() > 0 && text::white_space(s[0]) {
        lemma_strip_front_len(s.drop_first());
    }
}

proof fn lemma_strip_back_len(s: Seq<char>)
    ensures
        text::strip_back(s, text::blank()).len() <= s.len(),
    decreases s.len(),
{
    if s.len() > 0 && text::white_space(s.last()) {
        lemma_strip_back_len(s.drop_last());
    }
}

/// Trimming takes one space off in front of a trimmed text.
proof fn lemma_trim_space(value: Seq<char>)
    requires
        text::trimmed(value) == value,
    ensures
        text::trimmed(seq![' '] + value) == value,
{
    let s = seq![' '] + value;
    assert(s.drop_first() =~= value);
    assert(text::strip_front(s, text::blank()) == text::strip_front(value, text::blank()));
}

/// A report of one line says nothing of the release, the hash and the date.
pub proof fn rustc_version_of_banner_is_empty(banner: Seq<char>)
    requires
        forall|i: int| 0 <= i < banner.len() ==> banner[i] != '\n',
    ensures
        rustc_version(banner + "\n"@) == (VersionText {
            release: Seq::empty(),
            commit_hash: Seq::empty(),
            commit_date: Seq::empty(),
        }),
{
    reveal_strlit("\n");
    lemma_line_added(Seq::empty(), banner);
    assert(banner + "\n"@ =~= Seq::<char>::empty() + banner + seq!['\n']);
    assert(text::lines(Seq::<char>::empty()) =~= Seq::<Seq<char>>::empty());
    assert(after_first(text::lines(banner + "\n"@)) =~= Seq::<Seq<char>>::empty());
}

/// A line is split at its first colon, and key and value are all that stands before it and
/// after it, but for white space around them. A line without a colon says nothing.
pub proof fn line_is_split_at_its_first_colon(
    before_key: Seq<char>,
    key: Seq<char>,
    after_key: Seq<char>,
    before_value: Seq<char>,
    value: Seq<char>,
    after_value: Seq<char>,
)
    requires
        forall|j: int| 0 <= j < before_key.len() ==> text::white_space(#[trigger] before_key[j]),
        forall|j: int| 0 <= j < after_key.len() ==> text::white_space(#[trigger] after_key[j]),
        forall|j: int|
            0 <= j < before_value.len() ==> text::white_space(#[trigger] before_value[j]),
        forall|j: int| 0 <= j < after_value.len() ==> text::white_space(#[trigger] after_value[j]),
        forall|j: int| 0 <= j < key.len() ==> #[trigger] key[j] != ':',
        key.len() > 0 ==> !text::white_space(key[0]) && !text::white_space(key.last()),
        value.len() > 0 ==> !text::white_space(value[0]) && !text::white_space(value.last()),
    ensures
        field((before_key + key + after_key) + seq![':'] + (before_value + value + after_value))
            == Some((key, value)),
        field(before_key + key + after_key) is None,
{
    let left = before_key + key + after_key;
    let right = before_value + value + after_value;
    let line = left + seq![':'] + right;
    assert forall|j: int| 0 <= j < left.len() implies #[trigger] left[j] != ':' by {
        if j < before_key.len() {
            assert(left[j] == before_key[j]);
        } else if j < before_key.len() + key.len() {
            assert(left[j] == key[j - before_key.len()]);
        } else {
            assert(left[j] == after_key[j - before_key.len() - key.len()]);
        }
    }
    text::first_separator_is_found(left, right, ':');
    assert(line.take(left.len() as int) =~= left);
    assert(line.skip(left.len() as int + 1) =~= right);
    text::trimming_leaves_the_middle(before_key, key, after_key);
    text::trimming_leaves_the_middle(before_value, value, after_value);
}

/// Of several lines with the same key the last one counts, and lines with other keys, or
/// with none, do not.
pub proof fn last_line_of_a_key_counts(
    rows: Seq<Seq<char>>,
    key: Seq<char>,
    at: int,
    value: Seq<char>,
)
    requires
        0 <= at < rows.len(),
        field(rows[at]) == Some((key, value)),
        forall|j: int|
            at < j < rows.len() ==> (#[trigger] field(rows[j]) matches Some((k, _)) ==> k != key),
    ensures
        last_value(rows, key) == value,
    decreases rows.len(),
{
    if at < rows.len() - 1 {
        let rest = rows.drop_last();
        assert(field(rows[rows.len() - 1]) matches Some((k, _)) ==> k != key);
        assert forall|j: int| at < j < rest.len() implies (#[trigger] field(rest[j]) matches Some(
            (k, _),
        ) ==> k != key) by {
            assert(rest[j] == rows[j]);
            assert(field(rows[j]) matches Some((k, _)) ==> k != key);
        }
        last_line_of_a_key_counts(rest, key, at, value);
    }
}

/// A key that no line has is read as an empty text.
pub proof fn missing_key_is_empty(rows: Seq<Seq<char>>, key: Seq<char>)
    requires
        forall|j: int|
            0 <= j < rows.len() ==> (#[trigger] field(rows[j]) matches Some((k, _)) ==> k != key),
    ensures
        last_value(rows, key).len() == 0,
    decreases rows.len(),
{
    if rows.len() > 0 {
        let rest = rows.drop_last();
        assert(field(rows[rows.len() - 1]) matches Some((k, _)) ==> k != key);
        assert forall|j: int| 0 <= j < rest.len() implies (#[trigger] field(rest[j]) matches Some(
            (k, _),
        ) ==> k != key) by {
            assert(rest[j] == rows[j]);
            assert(field(rows[j]) matches Some((k, _)) ==> k != key);
        }
        missing_key_is_empty(rest, key);
    }
}

/// The release, the hash and the date of the compiler are read from the lines below the
/// first, each under the key of its name; where there is no such line, all are empty.
pub proof fn rustc_version_is_read_below_the_first_line(banner: Seq<char>, rest: Seq<char>)
    requires
        forall|j: int| 0 <= j < banner.len() ==> #[trigger] banner[j] != '\n',
    ensures
        ({
            let read = rustc_version(banner + seq!['\n'] + rest);
            &&& read.release == last_value(text::lines(rest), "release"@)
            &&& read.commit_hash == last_value(text::lines(rest), "commit-hash"@)
            &&& read.commit_date == last_value(text::lines(rest), "commit-date"@)
        }),
        ({
            let read = rustc_version(banner);
            &&& read.release.len() == 0
            &&& read.commit_hash.len() == 0
            &&& read.commit_date.len() == 0
        }),
{
    if banner.len() > 0 && banner.last() == '\r' {
        let line = banner.drop_last();
        text::lines_end_at_line_feeds(line, rest);
        assert(line + seq!['\r', '\n'] + rest =~= banner + seq!['\n'] + rest);
    }
    text::lines_end_at_line_feeds(banner, rest);
    let all = text::lines(banner + seq!['\n'] + rest);
    assert(after_first(all) =~= text::lines(rest));
    assert(after_first(text::lines(banner)) =~= Seq::<Seq<char>>::empty());
}

/// The version of a tool is read from the words of its text: the second is the release, the
/// third is the hash behind opening brackets, and the fourth is the date before closing
/// brackets, each of them whole; what is missing is empty.
pub proof fn tool_version_is_read_from_its_words(
    text: Seq<char>,
    opening: Seq<char>,
    hash: Seq<char>,
    date: Seq<char>,
    closing: Seq<char>,
)
    requires
        forall|j: int| 0 <= j < opening.len() ==> #[trigger] opening[j] == '(',
        forall|j: int| 0 <= j < closing.len() ==> #[trigger] closing[j] == ')',
        hash.len() > 0 ==> hash[0] != '(',
        date.len() > 0 ==> date.last() != ')',
    ensures
        ({
            let words = text::words(text);
            let read = tool_version(text);
            &&& words.len() > 1 ==> read.release == words[1]
            &&& words.len() <= 1 ==> read.release.len() == 0
            &&& words.len() > 2 && words[2] == opening + hash ==> read.commit_hash == hash
            &&& words.len() <= 2 ==> read.commit_hash.len() == 0
            &&& words.len() > 3 && words[3] == date + closing ==> read.commit_date == date
            &&& words.len() <= 3 ==> read.commit_date.len() == 0
        }),
{
    let none = Seq::<char>::empty();
    text::stripping_leaves_the_rest(opening, hash, text::only('('));
    text::stripping_leaves_the_rest(closing, date, text::only(')'));
    text::stripping_leaves_the_rest(none, none, text::only('('));
    text::stripping_leaves_the_rest(none, none, text::only(')'));
    assert(none + none =~= none);
}

/// The versions that are read of a text are those that are said of it here.
pub proof fn versions_are_read_as_stated(
    report: &str,
    of_rustc: Version,
    line: &str,
    of_tool: Version,
)
    requires
        call_ensures(Version::parse_rustc_version_verbose, (report,), of_rustc),
        call_ensures(Version::parse_tool_version, (line,), of_tool),
    ensures
        of_rustc.release@ == rustc_version(report@).release,
        of_rustc.commit_hash@ == rustc_version(report@).commit_hash,
        of_rustc.commit_date@ == rustc_version(report@).commit_date,
        of_tool.release@ == tool_version(line@).release,
        of_tool.commit_hash@ == tool_version(line@).commit_hash,
        of_tool.commit_date@ == tool_version(line@).commit_date,
{
}

} // verus!
