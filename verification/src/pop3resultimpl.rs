//! The decoders: from the lines of a reply to a typed result.
//!
//! A reply is handed over as the framing layer returns it: the status line
//! first, then the body lines of a multi-line reply, without the line that
//! closed it. A decoder accepts a reply only if every line it reads matches
//! its grammar from the first character to the last; it never returns part
//! of a reply.
//!
//! A listing comes in two shapes. The listing of a whole mailbox has one
//! body line for each message; its status line holds no entry and is never
//! read as one, so a reply without a body is the listing of an empty mailbox.
//! The listing of one message has no body: its one entry stands in the
//! status line, after `+OK` and a space, and has decoders of its own,
//! `POP3List::parse_one` and `POP3Uidl::parse_one`.

use std::collections::HashMap;
use vstd::hash_map::StringHashMap;
use vstd::prelude::*;
use vstd::string::*;
use crate::errors::{Error, ErrorView};
use crate::framing::{classify, status_of, Status, Verdict};
use crate::pop3result::{inverse_of, EmailMetadata, POP3List, POP3Retr, POP3Stat, POP3Uidl};
use crate::text::{
    chars_of, check_uid, content, content_len, ends_with_crlf, find, first_index, is_first_index,
    is_uid, lemma_first_index, number, parse_number, text_between,
};

verus! {

/// The texts of a sequence of strings.
pub open spec fn texts(lines: Seq<String>) -> Seq<Seq<char>> {
    lines.map_values(|line: String| line@)
}

/// Two numbers with one space between them, and nothing else.
pub open spec fn pair_of(s: Seq<char>) -> Option<(u32, u32)> {
    let k = first_index(s, ' ');
    if k < s.len() {
        match (number(s.take(k)), number(s.skip(k + 1))) {
            (Some(a), Some(b)) => Some((a, b)),
            _ => None,
        }
    } else {
        None
    }
}

/// A number, one space and a unique-id, and nothing else.
pub open spec fn uid_pair_of(s: Seq<char>) -> Option<(u32, Seq<char>)> {
    let k = first_index(s, ' ');
    if k < s.len() && is_uid(s.skip(k + 1)) {
        match number(s.take(k)) {
            Some(n) => Some((n, s.skip(k + 1))),
            None => None,
        }
    } else {
        None
    }
}

/// The text of a positive status line.
pub open spec fn positive_text(line: Seq<char>) -> Option<Seq<char>> {
    match status_of(line) {
        Some(Status::Positive(text)) => Some(text),
        _ => None,
    }
}

/// The statistics that a status line holds: the line is positive and its
/// text is the number of messages, a space and the size of the mailbox.
pub open spec fn stat_of(line: Seq<char>) -> Option<POP3Stat> {
    match positive_text(line) {
        Some(text) => match pair_of(text) {
            Some((count, size)) => Some(POP3Stat { mbox_size: size, num_mails: count }),
            None => None,
        },
        None => None,
    }
}

/// The body of a reply: its lines after the status line.
pub open spec fn body_of(lines: Seq<Seq<char>>) -> Seq<Seq<char>> {
    if lines.len() == 0 {
        Seq::empty()
    } else {
        lines.skip(1)
    }
}

/// The text in which a line holds its entry: the content of a body line, the
/// text of a positive status line.
pub open spec fn line_text(line: Seq<char>, in_body: bool) -> Option<Seq<char>> {
    if in_body {
        Some(content(line))
    } else {
        positive_text(line)
    }
}

/// The entry of a scan listing that a line holds, a message number, a space
/// and a size; `in_body` says whether the line is a body line or a status
/// line.
pub open spec fn scan_entry(line: Seq<char>, in_body: bool) -> Option<EmailMetadata> {
    match line_text(line, in_body) {
        Some(text) => match pair_of(text) {
            Some((id, size)) => Some(EmailMetadata { msg_id: id, msg_size: size }),
            None => None,
        },
        None => None,
    }
}

/// The entry of a unique-id listing that a line holds, a message number, a
/// space and a unique-id; `in_body` says whether the line is a body line or
/// a status line.
pub open spec fn uid_entry(line: Seq<char>, in_body: bool) -> Option<(u32, Seq<char>)> {
    match line_text(line, in_body) {
        Some(text) => uid_pair_of(text),
        None => None,
    }
}

/// The scan listing that a reply holds: the entries of its body lines in the
/// order of the lines, if every body line holds one. The status line holds
/// none.
pub open spec fn list_of(lines: Seq<Seq<char>>) -> Option<Seq<EmailMetadata>> {
    let body = body_of(lines);
    if forall|j: int| 0 <= j < body.len() ==> scan_entry(#[trigger] body[j], true) is Some {
        Some(Seq::new(body.len(), |j: int| scan_entry(body[j], true)->0))
    } else {
        None
    }
}

/// The scan listing of one message, which its status line holds.
pub open spec fn list_of_one(status: Seq<char>) -> Option<Seq<EmailMetadata>> {
    match scan_entry(status, false) {
        Some(entry) => Some(seq![entry]),
        None => None,
    }
}

/// The text of a retrieved message: the body lines one after the other, as
/// they came. Nothing is taken from them and nothing is put between them.
pub open spec fn retr_of(lines: Seq<Seq<char>>) -> Seq<char> {
    body_of(lines).flatten()
}

/// The entries of a unique-id listing: those of its body lines in the order
/// of the lines, if every body line holds one. The status line holds none.
pub open spec fn uidl_entries(lines: Seq<Seq<char>>) -> Option<Seq<(u32, Seq<char>)>> {
    let body = body_of(lines);
    if forall|j: int| 0 <= j < body.len() ==> uid_entry(#[trigger] body[j], true) is Some {
        Some(Seq::new(body.len(), |j: int| uid_entry(body[j], true)->0))
    } else {
        None
    }
}

/// Two entries clash: they have the same message number, or the same
/// unique-id.
pub open spec fn clash(a: (u32, Seq<char>), b: (u32, Seq<char>)) -> bool {
    a.0 == b.0 || a.1 == b.1
}

/// Two entries of the listing clash.
pub open spec fn has_repeat(entries: Seq<(u32, Seq<char>)>) -> bool {
    exists|i: int, j: int| 0 <= i < j < entries.len() && #[trigger] clash(entries[i], entries[j])
}

/// The map from message numbers to unique-ids that the entries make up.
pub open spec fn table_of(entries: Seq<(u32, Seq<char>)>) -> Map<u32, Seq<char>>
    decreases entries.len(),
{
    if entries.len() == 0 {
        Map::empty()
    } else {
        table_of(entries.drop_last()).insert(entries.last().0, entries.last().1)
    }
}

/// The unique-id listing that a reply holds. A line that does not match
/// makes the reply malformed; a reply whose lines all match is refused where
/// a message number or a unique-id occurs twice.
pub open spec fn uidl_of(lines: Seq<Seq<char>>) -> Result<Map<u32, Seq<char>>, ErrorView> {
    match uidl_entries(lines) {
        None => Err(ErrorView::Malformed),
        Some(entries) => if has_repeat(entries) {
            Err(ErrorView::Duplicate)
        } else {
            Ok(table_of(entries))
        },
    }
}

/// The unique-id listing of one message, which its status line holds.
pub open spec fn uidl_of_one(status: Seq<char>) -> Result<Map<u32, Seq<char>>, ErrorView> {
    match uid_entry(status, false) {
        Some((n, uid)) => Ok(Map::empty().insert(n, uid)),
        None => Err(ErrorView::Malformed),
    }
}

/// The table of entries without a repeat holds exactly those entries.
pub proof fn lemma_table_of(entries: Seq<(u32, Seq<char>)>)
    requires
        !has_repeat(entries),
    ensures
        forall|i: int|
            0 <= i < entries.len() ==> table_of(entries).contains_key((#[trigger] entries[i]).0)
                && table_of(entries)[entries[i].0] == entries[i].1,
        forall|n: u32| #[trigger]
            table_of(entries).contains_key(n) ==> exists|i: int|
                0 <= i < entries.len() && (#[trigger] entries[i]).0 == n,
    decreases entries.len(),
{
    if entries.len() > 0 {
        let front = entries.drop_last();
        let last = entries.len() - 1;
        assert forall|i: int, j: int| 0 <= i < j < front.len() implies !#[trigger] clash(
            front[i],
            front[j],
        ) by {
            assert(!clash(entries[i], entries[j]));
        }
        lemma_table_of(front);
        assert forall|i: int| 0 <= i < entries.len() implies table_of(entries).contains_key(
            (#[trigger] entries[i]).0,
        ) && table_of(entries)[entries[i].0] == entries[i].1 by {
            if i < last {
                assert(front[i] == entries[i]);
                assert(!clash(entries[i], entries[last]));
            }
        }
        assert forall|n: u32| #[trigger] table_of(entries).contains_key(n) implies exists|i: int|
            0 <= i < entries.len() && (#[trigger] entries[i]).0 == n by {
            if n == entries[last].0 {
            } else {
                assert(table_of(front).contains_key(n));
                let i = choose|i: int| 0 <= i < front.len() && (#[trigger] front[i]).0 == n;
                assert(entries[i] == front[i]);
            }
        }
    }
}

/// A status line holds no entry of a listing of the whole mailbox: a reply
/// that is its status line and nothing more lists no message, whatever the
/// status line says.
pub proof fn lemma_status_line_holds_no_entry(lines: Seq<Seq<char>>)
    requires
        lines.len() <= 1,
    ensures
        list_of(lines) == Some(Seq::<EmailMetadata>::empty()),
        uidl_of(lines) == Ok::<Map<u32, Seq<char>>, ErrorView>(Map::empty()),
{
    assert(list_of(lines)->0 =~= Seq::<EmailMetadata>::empty());
    assert(uidl_entries(lines)->0 =~= Seq::<(u32, Seq<char>)>::empty());
}

/// What stands after the number and the space of an entry must be a
/// unique-id: where it is empty, longer than 70 characters, or holds a space,
/// a control character or any other character that is not printable ASCII,
/// the text is no entry.
pub proof fn lemma_uid_pair_needs_uid(digits: Seq<char>, uid: Seq<char>)
    requires
        forall|i: int| 0 <= i < digits.len() ==> #[trigger] digits[i] != ' ',
        !is_uid(uid),
    ensures
        uid_pair_of(digits + seq![' '] + uid) is None,
{
    let s = digits + seq![' '] + uid;
    let k = digits.len() as int;
    assert forall|j: int| 0 <= j < k implies #[trigger] s[j] != ' ' by {
        assert(s[j] == digits[j]);
    }
    assert(s[k] == ' ');
    assert(is_first_index(s, ' ', k));
    lemma_first_index(s, ' ');
    assert(s.skip(k + 1) =~= uid);
}

/// A unique-id listing with such a line in its body is refused as
/// malformed, whatever its other lines hold.
pub proof fn lemma_uidl_rejects_bad_uid(
    lines: Seq<Seq<char>>,
    j: int,
    digits: Seq<char>,
    uid: Seq<char>,
)
    requires
        1 <= j < lines.len(),
        lines[j] == digits + seq![' '] + uid + seq!['\r', '\n'],
        forall|i: int| 0 <= i < digits.len() ==> #[trigger] digits[i] != ' ',
        !is_uid(uid),
    ensures
        uidl_of(lines) == Err::<Map<u32, Seq<char>>, ErrorView>(ErrorView::Malformed),
{
    let line = lines[j];
    assert(ends_with_crlf(line));
    assert(content(line) =~= digits + seq![' '] + uid);
    lemma_uid_pair_needs_uid(digits, uid);
    assert(body_of(lines)[j - 1] == line);
    assert(uid_entry(body_of(lines)[j - 1], true) is None);
}

/// What a unique-id listing holds when it is accepted: one entry for each
/// body line, and in every entry a unique-id of 1 to 70 printable characters
/// without a space.
pub proof fn lemma_uidl_of_is_sound(lines: Seq<Seq<char>>)
    requires
        uidl_of(lines) is Ok,
    ensures
        uidl_of(lines)->Ok_0.dom().finite(),
        uidl_of(lines)->Ok_0.len() == body_of(lines).len(),
        forall|n: u32| #[trigger]
            uidl_of(lines)->Ok_0.contains_key(n) ==> is_uid(uidl_of(lines)->Ok_0[n]),
{
    let entries = uidl_entries(lines)->0;
    let table = table_of(entries);
    lemma_table_of(entries);
    lemma_table_of_len(entries);
    assert forall|n: u32| #[trigger] table.contains_key(n) implies is_uid(table[n]) by {
        let i = choose|i: int| 0 <= i < entries.len() && (#[trigger] entries[i]).0 == n;
        assert(uid_entry(body_of(lines)[i], true) == Some(entries[i]));
    }
}

/// A table of entries without a repeat has as many entries as they are.
pub proof fn lemma_table_of_len(entries: Seq<(u32, Seq<char>)>)
    requires
        !has_repeat(entries),
    ensures
        table_of(entries).dom().finite(),
        table_of(entries).len() == entries.len(),
    decreases entries.len(),
{
    if entries.len() > 0 {
        let front = entries.drop_last();
        let last = entries.len() - 1;
        assert forall|i: int, j: int| 0 <= i < j < front.len() implies !#[trigger] clash(
            front[i],
            front[j],
        ) by {
            assert(!clash(entries[i], entries[j]));
        }
        lemma_table_of_len(front);
        lemma_table_of(front);
        if table_of(front).contains_key(entries[last].0) {
            let i = choose|i: int| 0 <= i < front.len() && (#[trigger] front[i]).0 == entries[last].0;
            assert(clash(entries[i], entries[last]));
        }
    }
}

/// Reads `s[from..to]` as two numbers with a space between them.
fn parse_pair(s: &Vec<char>, from: usize, to: usize) -> (r: Option<(u32, u32)>)
    requires
        from <= to <= s.len(),
    ensures
        r == pair_of(s@.subrange(from as int, to as int)),
{
    let ghost t = s@.subrange(from as int, to as int);
    let k: usize = find(s, from, to, ' ');
    if k >= to {
        return None;
    }
    proof {
        assert(t.take(k - from) =~= s@.subrange(from as int, k as int));
        assert(t.skip(k - from + 1) =~= s@.subrange(k + 1, to as int));
    }
    match parse_number(s, from, k) {
        Some(a) => match parse_number(s, k + 1, to) {
            Some(b) => Some((a, b)),
            None => None,
        },
        None => None,
    }
}

/// Reads `s[from..to]` as a number, a space and a unique-id. `s` holds the
/// characters of `line`.
fn parse_uid_pair(line: &str, s: &Vec<char>, from: usize, to: usize) -> (r: Option<(u32, String)>)
    requires
        s@ == line@,
        from <= to <= s.len(),
    ensures
        match uid_pair_of(s@.subrange(from as int, to as int)) {
            Some((n, uid)) => r matches Some((m, text)) && m == n && text@ == uid,
            None => r is None,
        },
{
    let ghost t = s@.subrange(from as int, to as int);
    let k: usize = find(s, from, to, ' ');
    if k >= to {
        return None;
    }
    proof {
        assert(t.take(k - from) =~= s@.subrange(from as int, k as int));
        assert(t.skip(k - from + 1) =~= s@.subrange(k + 1, to as int));
    }
    if !check_uid(s, k + 1, to) {
        return None;
    }
    match parse_number(s, from, k) {
        Some(n) => Some((n, text_between(line, k + 1, to))),
        None => None,
    }
}

/// The range of a line that holds an entry of a listing. `in_body` says
/// whether the line is a body line; otherwise it is read as a status line.
fn entry_range(s: &Vec<char>, in_body: bool) -> (r: Option<(usize, usize)>)
    ensures
        match r {
            Some((from, to)) => from <= to <= s.len() && s@.subrange(from as int, to as int) == (
            if in_body {
                content(s@)
            } else {
                positive_text(s@)->0
            }) && (!in_body ==> positive_text(s@) is Some),
            None => !in_body && positive_text(s@) is None,
        },
{
    if in_body {
        let n: usize = content_len(s);
        assert(s@.subrange(0, n as int) =~= s@.take(n as int));
        Some((0, n))
    } else {
        match classify(s) {
            Verdict::Positive { from, to } => Some((from, to)),
            _ => None,
        }
    }
}

/// Reads the entry of a scan listing that a line holds.
fn read_scan_entry(line: &str, in_body: bool) -> (r: Option<EmailMetadata>)
    ensures
        r == scan_entry(line@, in_body),
{
    let s = chars_of(line);
    match entry_range(&s, in_body) {
        Some((from, to)) => match parse_pair(&s, from, to) {
            Some((id, size)) => Some(EmailMetadata { msg_id: id, msg_size: size }),
            None => None,
        },
        None => None,
    }
}

/// Reads the entry of a unique-id listing that a line holds.
fn read_uid_entry(line: &str, in_body: bool) -> (r: Option<(u32, String)>)
    ensures
        match uid_entry(line@, in_body) {
            Some((n, uid)) => r matches Some((m, text)) && m == n && text@ == uid,
            None => r is None,
        },
{
    let s = chars_of(line);
    match entry_range(&s, in_body) {
        Some((from, to)) => parse_uid_pair(line, &s, from, to),
        None => None,
    }
}

/// The entries that were read, as the contracts speak of them.
pub open spec fn entries_of(found: Seq<(u32, String)>) -> Seq<(u32, Seq<char>)> {
    found.map_values(|pair: (u32, String)| (pair.0, pair.1@))
}

/// Makes the two maps of a unique-id listing from its entries, unless two
/// of them clash.
fn tabulate(found: Vec<(u32, String)>) -> (r: Result<POP3Uidl, Error>)
    ensures
        match r {
            Ok(uidl) => {
                &&& !has_repeat(entries_of(found@))
                &&& uidl@ == table_of(entries_of(found@))
                &&& uidl.wf()
                &&& uidl@.dom().finite() && uidl@.len() == found@.len()
                &&& uidl.reverse_map@.dom().finite() && uidl.reverse_map@.len() == found@.len()
            },
            Err(e) => has_repeat(entries_of(found@)) && e is Duplicate,
        },
{
    broadcast use vstd::std_specs::hash::group_hash_axioms;

    let ghost entries = entries_of(found@);
    let mut mailbox: HashMap<u32, String> = HashMap::new();
    let mut reverse_map: StringHashMap<u32> = StringHashMap::new();
    let total: usize = found.len();
    let mut k: usize = 0;
    assert(entries.take(0) =~= Seq::<(u32, Seq<char>)>::empty());
    assert(mailbox@.map_values(|uid: String| uid@) =~= Map::<u32, Seq<char>>::empty());
    while k < total
        invariant
            k <= total,
            total == found@.len(),
            entries == entries_of(found@),
            !has_repeat(entries.take(k as int)),
            mailbox@.map_values(|uid: String| uid@) == table_of(entries.take(k as int)),
            inverse_of(reverse_map@, table_of(entries.take(k as int))),
            mailbox@.dom().finite() && mailbox@.len() == k,
            reverse_map@.dom().finite() && reverse_map@.len() == k,
        decreases total - k,
    {
        let id: u32 = found[k].0;
        let uid: String = found[k].1.clone();
        let ghost before = entries.take(k as int);
        let ghost after = entries.take(k + 1);
        proof {
            assert(after.drop_last() =~= before);
            assert(after.last() == entries[k as int]);
            assert(entries[k as int] == (id, uid@));
            lemma_table_of(before);
        }
        if mailbox.contains_key(&id) || reverse_map.contains_key(uid.as_str()) {
            proof {
                let table = table_of(before);
                let hit: u32 = if table.contains_key(id) {
                    id
                } else {
                    reverse_map@[uid@]
                };
                assert(table.contains_key(hit));
                let w = choose|w: int| 0 <= w < before.len() && (#[trigger] before[w]).0 == hit;
                assert(entries[w] == before[w]);
                assert(table[before[w].0] == before[w].1);
                assert(clash(entries[w], entries[k as int]));
            }
            return Err(Error::Duplicate);
        }
        proof {
            let table = table_of(before);
            assert(!table.contains_key(id));
            assert forall|a: int, b: int| 0 <= a < b < after.len() implies !#[trigger] clash(
                after[a],
                after[b],
            ) by {
                assert(before[a] == after[a]);
                if b < k {
                    assert(before[b] == after[b]);
                    assert(!clash(before[a], before[b]));
                } else {
                    assert(table.contains_key(before[a].0));
                    assert(table[before[a].0] == before[a].1);
                    if after[a].1 == uid@ {
                        assert(reverse_map@.contains_key(table[before[a].0]));
                    }
                }
            }
        }
        mailbox.insert(id, uid.clone());
        reverse_map.insert(uid, id);
        proof {
            let table = table_of(before);
            assert(mailbox@.map_values(|uid: String| uid@) =~= table.insert(id, uid@));
            assert(table_of(after) == table.insert(id, uid@));
        }
        k += 1;
    }
    assert(entries.take(total as int) =~= entries);
    let uidl = POP3Uidl { mailbox, reverse_map };
    assert(uidl@.dom() =~= uidl.mailbox@.dom());
    Ok(uidl)
}

impl POP3Stat {
    /// Decodes the reply to `STAT` from its status line.
    ///
    /// The line must be `+OK`, a space, the number of messages, a space and
    /// the size of the mailbox, closed by CRLF or by nothing. Each number is
    /// a run of decimal digits that fits in 32 bits.
    pub fn parse(stat_line: &str) -> (r: Result<POP3Stat, Error>)
        ensures
            match stat_of(stat_line@) {
                Some(stat) => r == Ok::<POP3Stat, Error>(stat),
                None => r matches Err(Error::Malformed),
            },
    {
        let s = chars_of(stat_line);
        match entry_range(&s, false) {
            Some((from, to)) => match parse_pair(&s, from, to) {
                Some((count, size)) => Ok(POP3Stat { mbox_size: size, num_mails: count }),
                None => Err(Error::Malformed),
            },
            None => Err(Error::Malformed),
        }
    }
}

impl POP3List {
    /// Decodes the reply to `LIST` without a parameter, the listing of the
    /// whole mailbox.
    ///
    /// Every line after the first must be a message number, a space and a
    /// size. The entries come out in the order of the lines. The first line,
    /// the status line, is not read: a reply without a body is the listing
    /// of an empty mailbox.
    pub fn parse(list_data: &[String]) -> (r: Result<POP3List, Error>)
        ensures
            match list_of(texts(list_data@)) {
                Some(entries) => r matches Ok(list) && list@ == entries,
                None => r matches Err(Error::Malformed),
            },
    {
        let ghost body = body_of(texts(list_data@));
        let n: usize = list_data.len();
        let mut mbox: Vec<EmailMetadata> = Vec::new();
        let mut i: usize = 1;
        while i < n
            invariant
                1 <= i,
                i == 1 || i <= n,
                n == list_data@.len(),
                body == body_of(texts(list_data@)),
                mbox@.len() == i - 1,
                forall|j: int|
                    0 <= j < i - 1 ==> scan_entry(#[trigger] body[j], true) == Some(mbox@[j]),
            decreases n - i,
        {
            assert(body[i - 1] == list_data@[i as int]@);
            match read_scan_entry(list_data[i].as_str(), true) {
                Some(entry) => {
                    mbox.push(entry);
                },
                None => {
                    return Err(Error::Malformed);
                },
            }
            i += 1;
        }
        assert(texts(list_data@).len() == n);
        assert(body.len() == mbox@.len());
        assert(list_of(texts(list_data@)) is Some);
        assert(mbox@ =~= list_of(texts(list_data@))->0);
        Ok(POP3List { mailbox: mbox })
    }

    /// Decodes the reply to `LIST` with a parameter, the listing of one
    /// message, from its status line.
    ///
    /// The line must be `+OK`, a space, the message number, a space and the
    /// size, closed by CRLF or by nothing.
    pub fn parse_one(status_line: &str) -> (r: Result<POP3List, Error>)
        ensures
            match list_of_one(status_line@) {
                Some(entries) => r matches Ok(list) && list@ == entries,
                None => r matches Err(Error::Malformed),
            },
    {
        match read_scan_entry(status_line, false) {
            Some(entry) => {
                let mut mbox: Vec<EmailMetadata> = Vec::new();
                mbox.push(entry);
                assert(mbox@ =~= seq![entry]);
                Ok(POP3List { mailbox: mbox })
            },
            None => Err(Error::Malformed),
        }
    }
}

impl POP3Retr {
    /// Decodes the reply to `RETR`: the text of the message is every line
    /// after the status line, in order and unchanged. Line endings stay as
    /// they came, and a leading dot that the server doubled stays doubled.
    pub fn parse(retr_data: &[String]) -> (r: POP3Retr)
        ensures
            r@ == retr_of(texts(retr_data@)),
    {
        let ghost lines = texts(retr_data@);
        let n: usize = retr_data.len();
        let mut data = String::new();
        if n == 0 {
            return POP3Retr { msg_data: data };
        }
        let ghost body = lines.skip(1);
        let mut i: usize = 1;
        assert(body.take(0) =~= Seq::<Seq<char>>::empty());
        while i < n
            invariant
                1 <= i <= n,
                n == retr_data@.len(),
                lines == texts(retr_data@),
                body == lines.skip(1),
                data@ == body.take(i - 1).flatten(),
            decreases n - i,
        {
            proof {
                body.take(i - 1).lemma_flatten_push(body[i - 1]);
                assert(body.take(i - 1).push(body[i - 1]) =~= body.take(i as int));
            }
            data.append(retr_data[i].as_str());
            i += 1;
        }
        assert(body.take(n - 1) =~= body);
        POP3Retr { msg_data: data }
    }
}

impl POP3Uidl {
    /// Decodes the reply to `UIDL` without a parameter, the listing of the
    /// whole mailbox.
    ///
    /// Every line after the first must be a message number, a space and a
    /// unique-id of 1 to 70 printable characters without a space. The first
    /// line, the status line, is not read: a reply without a body is the
    /// listing of an empty mailbox. A listing in which a message number or
    /// a unique-id occurs twice is refused.
    ///
    /// An accepted listing has one entry for each body line, in both of its
    /// maps, and the maps agree.
    #[verifier::rlimit(40)]
    pub fn parse(uidl_data: &[String]) -> (r: Result<POP3Uidl, Error>)
        ensures
            match uidl_of(texts(uidl_data@)) {
                Ok(table) => {
                    &&& r matches Ok(uidl)
                    &&& uidl@ == table
                    &&& uidl.wf()
                    &&& uidl@.dom().finite()
                    &&& uidl.reverse_map@.dom().finite()
                    &&& uidl@.len() == body_of(texts(uidl_data@)).len()
                    &&& uidl.reverse_map@.len() == body_of(texts(uidl_data@)).len()
                    &&& forall|n: u32| #[trigger] uidl@.contains_key(n) ==> is_uid(uidl@[n])
                },
                Err(e) => r matches Err(x) && x@ == e,
            },
    {
        let ghost lines = texts(uidl_data@);
        let ghost body = body_of(lines);
        let n: usize = uidl_data.len();
        let mut found: Vec<(u32, String)> = Vec::new();
        let mut i: usize = 1;
        while i < n
            invariant
                1 <= i,
                i == 1 || i <= n,
                n == uidl_data@.len(),
                lines == texts(uidl_data@),
                body == body_of(lines),
                found@.len() == i - 1,
                forall|j: int|
                    0 <= j < i - 1 ==> uid_entry(#[trigger] body[j], true) == Some(
                        entries_of(found@)[j],
                    ),
            decreases n - i,
        {
            assert(body[i - 1] == uidl_data@[i as int]@);
            let ghost before = entries_of(found@);
            match read_uid_entry(uidl_data[i].as_str(), true) {
                Some(pair) => {
                    found.push(pair);
                },
                None => {
                    return Err(Error::Malformed);
                },
            }
            assert forall|j: int| 0 <= j < i implies uid_entry(#[trigger] body[j], true) == Some(
                entries_of(found@)[j],
            ) by {
                if j < i - 1 {
                    assert(entries_of(found@)[j] == before[j]);
                }
            }
            i += 1;
        }
        assert(lines.len() == n);
        assert(body.len() == found@.len());
        assert(uidl_entries(lines) is Some);
        assert(uidl_entries(lines)->0 =~= entries_of(found@));
        let r = tabulate(found);
        proof {
            if r is Ok {
                lemma_uidl_of_is_sound(lines);
            }
        }
        r
    }

    /// Decodes the reply to `UIDL` with a parameter, the listing of one
    /// message, from its status line.
    ///
    /// The line must be `+OK`, a space, the message number, a space and the
    /// unique-id, closed by CRLF or by nothing.
    pub fn parse_one(status_line: &str) -> (r: Result<POP3Uidl, Error>)
        ensures
            match uidl_of_one(status_line@) {
                Ok(table) => r matches Ok(uidl) && uidl@ == table && uidl.wf(),
                Err(e) => r matches Err(x) && x@ == e,
            },
    {
        match read_uid_entry(status_line, false) {
            Some(pair) => {
                let mut found: Vec<(u32, String)> = Vec::new();
                found.push(pair);
                proof {
                    let entries = entries_of(found@);
                    assert(entries.drop_last() =~= Seq::<(u32, Seq<char>)>::empty());
                    assert(table_of(entries.drop_last()) == Map::<u32, Seq<char>>::empty());
                    assert(!has_repeat(entries));
                }
                match tabulate(found) {
                    Ok(uidl) => Ok(uidl),
                    Err(_) => Err(Error::Malformed),
                }
            },
            None => Err(Error::Malformed),
        }
    }
}

} // verus!
