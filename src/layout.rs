use std::collections::VecDeque;
use vstd::prelude::*;
use vstd::string::*;
use vstd::utf8::*;

use crate::classify::{kind_of, message_kind, MessageKind};
use crate::codec::{byte_views, lossy_all, split_bytes, split_on, text_views};
use crate::text::decode_lossy;

verus! {

/// The number of screen rows that `len` bytes take at `width` bytes a row.
pub open spec fn rows_needed(len: nat, width: nat) -> nat
    recommends
        width > 0,
{
    len / width + if len % width > 0 {
        1nat
    } else {
        0nat
    }
}

/// The length of a text in bytes, as `str::len` gives it.
pub open spec fn utf8_len(s: Seq<char>) -> nat {
    (encode_utf8(s).len() as usize) as nat
}

/// The newest messages of `msgs` that fit whole in `height` rows of `width`
/// bytes, oldest first: taken from the newest back, up to the first one that
/// does not fit.
pub open spec fn newest_that_fit(msgs: Seq<Seq<char>>, width: nat, height: nat) -> Seq<Seq<char>>
    decreases msgs.len(),
{
    if msgs.len() == 0 {
        Seq::empty()
    } else {
        let rows = rows_needed(utf8_len(msgs.last()), width);
        if rows > height {
            Seq::empty()
        } else {
            newest_that_fit(msgs.drop_last(), width, (height - rows) as nat).push(msgs.last())
        }
    }
}

/// The text of each message of a queue.
pub open spec fn queue_texts(q: Seq<String>) -> Seq<Seq<char>> {
    q.map_values(|s: String| s@)
}

/// Keeps the newest messages that fit whole on a screen of `height` rows of
/// `width` bytes.
pub fn fit_newest_msg_into_screen(msg_vec: VecDeque<String>, width: usize, height: usize) -> (r:
    VecDeque<String>)
    requires
        width > 0,
    ensures
        queue_texts(r@) == newest_that_fit(queue_texts(msg_vec@), width as nat, height as nat),
{
    let mut pending = msg_vec;
    let mut rows_left = height;
    let mut res: VecDeque<String> = VecDeque::new();
    assert(queue_texts(res@) =~= Seq::<Seq<char>>::empty());
    assert(queue_texts(pending@) + queue_texts(res@) =~= queue_texts(pending@));
    loop
        invariant
            width > 0,
            newest_that_fit(queue_texts(msg_vec@), width as nat, height as nat) == newest_that_fit(
                queue_texts(pending@),
                width as nat,
                rows_left as nat,
            ) + queue_texts(res@),
        decreases pending@.len(),
    {
        let ghost before = pending@;
        match pending.pop_back() {
            None => {
                assert(before.len() == 0);
                assert(queue_texts(res@) =~= Seq::<Seq<char>>::empty() + queue_texts(res@));
                return res;
            },
            Some(msg) => {
                let len = msg.as_str().len();
                let whole = len / width;
                let extra: usize = if len % width > 0 {
                    1
                } else {
                    0
                };
                assert(whole + extra <= usize::MAX) by (nonlinear_arith)
                    requires
                        width > 0,
                        whole == len / width,
                        extra == 1 ==> len % width > 0,
                        extra <= 1,
                        len <= usize::MAX,
                ;
                let lines = whole + extra;
                assert(queue_texts(before).drop_last() =~= queue_texts(pending@));
                assert(queue_texts(before).last() == msg@);
                assert(lines == rows_needed(utf8_len(msg@), width as nat));
                if lines > rows_left {
                    assert(queue_texts(res@) =~= Seq::<Seq<char>>::empty() + queue_texts(res@));
                    return res;
                }
                let ghost tail = res@;
                let ghost text = msg@;
                assert(lines == rows_needed(utf8_len(text), width as nat));
                res.push_front(msg);
                assert(queue_texts(res@) =~= seq![text] + queue_texts(tail));
                assert(newest_that_fit(queue_texts(pending@), width as nat, (rows_left - lines) as nat).push(
                    text,
                ) + queue_texts(tail) =~= newest_that_fit(
                    queue_texts(pending@),
                    width as nat,
                    (rows_left - lines) as nat,
                ) + queue_texts(res@));
                rows_left = rows_left - lines;
            },
        }
    }
}

/// The space that separates words, as a byte.
pub const SPACE: u8 = 32;

/// The lines made so far and the line being filled, after one more word: the
/// word and a space go on the current line while it stays within `width`
/// bytes; otherwise the current line is closed (even when it is empty) and
/// the word starts the next one.
pub open spec fn wrap_step(acc: (Seq<Seq<u8>>, Seq<u8>), word: Seq<u8>, width: nat) -> (
    Seq<Seq<u8>>,
    Seq<u8>,
) {
    if acc.1.len() + word.len() > width {
        (acc.0.push(acc.1), word.push(SPACE))
    } else {
        (acc.0, acc.1 + word.push(SPACE))
    }
}

/// The lines and the current line after all of `words`, in order.
pub open spec fn wrap_all(words: Seq<Seq<u8>>, width: nat) -> (Seq<Seq<u8>>, Seq<u8>)
    decreases words.len(),
{
    if words.len() == 0 {
        (Seq::empty(), Seq::empty())
    } else {
        wrap_step(wrap_all(words.drop_last(), width), words.last(), width)
    }
}

/// The lines that a text is wrapped into at `width` bytes: its words, cut at
/// single spaces, each followed by a space, with the last line kept where it
/// is not empty.
pub open spec fn wrapped_lines(text: Seq<u8>, width: nat) -> Seq<Seq<u8>> {
    let (lines, last) = wrap_all(split_on(text, seq![SPACE]), width);
    if last.len() > 0 {
        lines.push(last)
    } else {
        lines
    }
}

fn append_bytes(dst: &mut Vec<u8>, src: &[u8])
    ensures
        final(dst)@ == old(dst)@ + src@,
{
    let mut k: usize = 0;
    while k < src.len()
        invariant
            k <= src@.len(),
            dst@ == old(dst)@ + src@.take(k as int),
        decreases src@.len() - k,
    {
        dst.push(src[k]);
        assert(src@.take(k + 1) =~= src@.take(k as int).push(src@[k as int]));
        k = k + 1;
    }
    assert(src@.take(k as int) =~= src@);
}

/// Wraps a text into lines of about `width` bytes at its spaces; a word
/// longer than a line stands on a line of its own.
pub fn wrap_words(text: &str, width: usize) -> (r: Vec<String>)
    ensures
        text_views(r@) == lossy_all(wrapped_lines(text.spec_bytes(), width as nat)),
{
    let space: [u8; 1] = [SPACE];
    assert(space@ =~= seq![SPACE]);
    let words = split_bytes(text.as_bytes(), space.as_slice());
    let ghost all = byte_views(words@);
    let mut lines: Vec<Vec<u8>> = Vec::new();
    let mut current: Vec<u8> = Vec::new();
    let mut i: usize = 0;
    while i < words.len()
        invariant
            i <= words@.len(),
            all == byte_views(words@),
            all == split_on(text.spec_bytes(), seq![SPACE]),
            wrap_all(all.take(i as int), width as nat) == (byte_views(lines@), current@),
        decreases words@.len() - i,
    {
        let word = words[i].as_slice();
        assert(all[i as int] == word@);
        assert(all.take(i + 1).drop_last() =~= all.take(i as int));
        let ghost before_lines = byte_views(lines@);
        if current.len() > width || word.len() > width - current.len() {
            let done = current;
            lines.push(done);
            assert(byte_views(lines@) =~= before_lines.push(done@));
            current = Vec::new();
        }
        append_bytes(&mut current, word);
        current.push(SPACE);
        proof {
            let prev = wrap_all(all.take(i as int), width as nat);
            if prev.1.len() + word@.len() <= width {
                assert(current@ =~= prev.1 + word@.push(SPACE));
            } else {
                assert(current@ =~= word@.push(SPACE));
            }
        }
        i = i + 1;
    }
    assert(all.take(i as int) =~= all);
    if current.len() > 0 {
        let ghost before_lines = byte_views(lines@);
        let last = current;
        lines.push(last);
        assert(byte_views(lines@) =~= before_lines.push(last@));
    }
    let mut r: Vec<String> = Vec::new();
    let mut j: usize = 0;
    while j < lines.len()
        invariant
            j <= lines@.len(),
            text_views(r@) == lossy_all(byte_views(lines@).take(j as int)),
        decreases lines@.len() - j,
    {
        let ghost prev = r@;
        let line = decode_lossy(lines[j].as_slice());
        r.push(line);
        proof {
            let b = byte_views(lines@);
            assert(b[j as int] == lines@[j as int]@);
            assert(b.take(j + 1) =~= b.take(j as int).push(b[j as int]));
            assert(text_views(r@) =~= text_views(prev).push(line@));
            assert(lossy_all(b.take(j + 1)) =~= lossy_all(b.take(j as int)).push(
                crate::text::lossy_utf8(b[j as int]),
            ));
        }
        j = j + 1;
    }
    assert(byte_views(lines@).take(j as int) =~= byte_views(lines@));
    r
}

/// One row of the chat window: a line of text and who wrote the message it
/// belongs to.
#[derive(Debug, Clone, PartialEq, Eq)]
pub struct ChatRow {
    pub text: String,
    pub kind: MessageKind,
}

/// The text and writer of each row.
pub open spec fn row_views(v: Seq<ChatRow>) -> Seq<(Seq<char>, MessageKind)> {
    v.map_values(|r: ChatRow| (r.text@, r.kind))
}

/// Each line paired with the writer `kind`.
pub open spec fn rows_of(lines: Seq<Seq<char>>, kind: MessageKind) -> Seq<(Seq<char>, MessageKind)> {
    lines.map_values(|l: Seq<char>| (l, kind))
}

/// The rows of the chat window, given the rows `acc` already placed below:
/// messages are taken from the newest back while fewer than `height` rows are
/// placed; a message within `width` bytes takes one row, a longer one is
/// wrapped and placed only where all its rows fit, and the first that does not
/// fit ends the window.
pub open spec fn chat_rows(
    msgs: Seq<Seq<char>>,
    width: nat,
    height: nat,
    username: Seq<char>,
    acc: Seq<(Seq<char>, MessageKind)>,
) -> Seq<(Seq<char>, MessageKind)>
    decreases msgs.len(),
{
    if acc.len() >= height || msgs.len() == 0 {
        acc
    } else {
        let m = msgs.last();
        let k = kind_of(m, username);
        if utf8_len(m) <= width {
            chat_rows(msgs.drop_last(), width, height, username, seq![(m, k)] + acc)
        } else {
            let ls = lossy_all(wrapped_lines(encode_utf8(m), width));
            if acc.len() + ls.len() > height {
                acc
            } else {
                chat_rows(msgs.drop_last(), width, height, username, rows_of(ls, k) + acc)
            }
        }
    }
}

/// Fills a chat window of `height` rows of `width` bytes with the newest
/// messages, each row marked with who wrote it.
pub fn fit_msg_into_chat_block(
    msg_vec: VecDeque<String>,
    width: usize,
    height: usize,
    username: &str,
) -> (r: VecDeque<ChatRow>)
    ensures
        row_views(r@) == chat_rows(
            queue_texts(msg_vec@),
            width as nat,
            height as nat,
            username@,
            Seq::empty(),
        ),
{
    let mut pending = msg_vec;
    let mut res: VecDeque<ChatRow> = VecDeque::new();
    assert(row_views(res@) =~= Seq::<(Seq<char>, MessageKind)>::empty());
    loop
        invariant
            chat_rows(queue_texts(msg_vec@), width as nat, height as nat, username@, Seq::empty())
                == chat_rows(
                queue_texts(pending@),
                width as nat,
                height as nat,
                username@,
                row_views(res@),
            ),
            res@.len() <= height,
        decreases pending@.len(),
    {
        if res.len() >= height {
            return res;
        }
        let ghost before = pending@;
        let msg = match pending.pop_back() {
            Some(m) => m,
            None => {
                return res;
            },
        };
        let ghost m = msg@;
        assert(queue_texts(before).drop_last() =~= queue_texts(pending@));
        assert(queue_texts(before).last() == m);
        let kind = message_kind(msg.as_str(), username);
        let ghost acc = row_views(res@);
        if msg.as_str().len() <= width {
            res.push_front(ChatRow { text: msg, kind });
            assert(row_views(res@) =~= seq![(m, kind)] + acc);
        } else {
            let lines = wrap_words(msg.as_str(), width);
            if lines.len() > height - res.len() {
                return res;
            }
            let ghost ls = text_views(lines@);
            let mut j: usize = lines.len();
            while j > 0
                invariant
                    j <= lines@.len(),
                    ls == text_views(lines@),
                    row_views(res@) == rows_of(ls.subrange(j as int, ls.len() as int), kind) + acc,
                    res@.len() == acc.len() + (ls.len() - j),
                decreases j,
            {
                j = j - 1;
                let ghost prev = row_views(res@);
                res.push_front(ChatRow { text: lines[j].clone(), kind });
                assert(ls[j as int] == lines@[j as int]@);
                assert(row_views(res@) =~= seq![(ls[j as int], kind)] + prev);
                assert(rows_of(ls.subrange(j as int, ls.len() as int), kind) =~= seq![
                    (ls[j as int], kind),
                ] + rows_of(ls.subrange(j + 1, ls.len() as int), kind));
            }
            assert(ls.subrange(0, ls.len() as int) =~= ls);
        }
    }
}

/// The text that separates two instructions.
pub const INSTRUCTION_GAP: &'static str = " ";

/// The lines of a list of instructions: each wrapped at `width` bytes and
/// followed by a separating line.
pub open spec fn instruction_lines(instructions: Seq<Seq<char>>, width: nat) -> Seq<Seq<char>>
    decreases instructions.len(),
{
    if instructions.len() == 0 {
        Seq::empty()
    } else {
        instruction_lines(instructions.drop_last(), width) + lossy_all(
            wrapped_lines(encode_utf8(instructions.last()), width),
        ) + seq![INSTRUCTION_GAP@]
    }
}

/// The text of each string slice.
pub open spec fn str_views(v: Seq<&str>) -> Seq<Seq<char>> {
    v.map_values(|s: &str| s@)
}

/// Lays out a list of instructions in a box `width` bytes wide.
pub fn fit_instructions_into_block(instructions: &[&str], width: u16) -> (r: Vec<String>)
    ensures
        text_views(r@) == instruction_lines(str_views(instructions@), width as nat),
{
    let ghost all = str_views(instructions@);
    let mut r: Vec<String> = Vec::new();
    let mut i: usize = 0;
    while i < instructions.len()
        invariant
            i <= instructions@.len(),
            all == str_views(instructions@),
            text_views(r@) == instruction_lines(all.take(i as int), width as nat),
        decreases instructions@.len() - i,
    {
        let ins: &str = instructions[i];
        let lines = wrap_words(ins, width as usize);
        let ghost before = text_views(r@);
        let mut j: usize = 0;
        while j < lines.len()
            invariant
                j <= lines@.len(),
                text_views(r@) == before + text_views(lines@).take(j as int),
            decreases lines@.len() - j,
        {
            let ghost prev = r@;
            r.push(lines[j].clone());
            assert(text_views(r@) =~= text_views(prev).push(lines@[j as int]@));
            assert(text_views(lines@).take(j + 1) =~= text_views(lines@).take(j as int).push(
                lines@[j as int]@,
            ));
            j = j + 1;
        }
        assert(text_views(lines@).take(j as int) =~= text_views(lines@));
        let ghost mid = r@;
        r.push(String::from_str(INSTRUCTION_GAP));
        proof {
            assert(all[i as int] == ins@);
            assert(all.take(i + 1).drop_last() =~= all.take(i as int));
            assert(text_views(r@) =~= text_views(mid).push(INSTRUCTION_GAP@));
        }
        i = i + 1;
    }
    assert(all.take(i as int) =~= all);
    r
}

/// The rows that one room of the room list takes.
pub const ROOM_LIST_HEIGHT: usize = 4;

/// Which part of the room list is on screen: the rooms from `start` up to
/// `end` (excluded), as page `current` of `total`.
#[derive(Debug, Clone, Copy, PartialEq, Eq, Structural)]
pub struct RoomPage {
    pub start: usize,
    pub end: usize,
    pub current: usize,
    pub total: usize,
}

/// The number of rooms that fit in `height` rows; at least one.
pub open spec fn rooms_per_page(height: nat) -> nat {
    if height / (ROOM_LIST_HEIGHT as nat) == 0 {
        1
    } else {
        height / (ROOM_LIST_HEIGHT as nat)
    }
}

/// The page of `count` rooms, shown `height` rows high, that holds the room
/// at `index`.
pub open spec fn room_page_of(index: nat, count: nat, height: nat) -> (nat, nat, nat, nat) {
    let per = rooms_per_page(height);
    let start = (index / per) * per;
    let end = if start + per < count {
        start + per
    } else {
        count
    };
    let total = count / per + if count % per != 0 {
        1nat
    } else {
        0nat
    };
    (start, end, index / per + 1, total)
}

/// Pages the room list for a window of `height` rows, keeping the room at
/// `room_idx` on screen.
pub fn room_page(room_idx: usize, room_count: usize, height: usize) -> (r: RoomPage)
    requires
        room_idx < room_count,
    ensures
        (r.start as nat, r.end as nat, r.current as nat, r.total as nat) == room_page_of(
            room_idx as nat,
            room_count as nat,
            height as nat,
        ),
        r.start <= room_idx < r.end <= room_count,
{
    let mut per = height / ROOM_LIST_HEIGHT;
    if per == 0 {
        per = 1;
    }
    let page = room_idx / per;
    assert(page * per <= room_idx) by (nonlinear_arith)
        requires
            per > 0,
            page == room_idx / per,
    ;
    assert(room_idx < page * per + per) by (nonlinear_arith)
        requires
            per > 0,
            page == room_idx / per,
    ;
    let start = page * per;
    let end = if room_count - start > per {
        start + per
    } else {
        room_count
    };
    let extra: usize = if room_count % per != 0 {
        1
    } else {
        0
    };
    assert(room_count / per + extra <= usize::MAX) by (nonlinear_arith)
        requires
            per > 0,
            extra == 1 ==> room_count % per != 0,
            extra <= 1,
            room_count <= usize::MAX,
    ;
    assert(page + 1 <= usize::MAX) by (nonlinear_arith)
        requires
            per > 0,
            page == room_idx / per,
            room_idx < room_count,
            room_count <= usize::MAX,
    ;
    RoomPage { start, end, current: page + 1, total: room_count / per + extra }
}

} // verus!
