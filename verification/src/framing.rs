//! What a frame of the client tells its reader.
//!
//! A frame always tells the variant of the message it was written from
//! (`encode::lemma_frame_tells_variant`). This file shows that it tells the
//! whole message where none of the message's texts needs escaping: then
//! every character of the frame is known, and the frame can be taken apart
//! again. For a text with escapes the same holds if the
//! string literals of `serde_json` can be told apart wherever they stand,
//! which is a fact about `serde_json` that this crate does not state.

use vstd::prelude::*;

use crate::encode::{
    action_json, client_frame, config_json, decimal, digit_char, frame_head,
    lemma_frame_tells_variant, player_json, quoted,
};
use crate::json::{in_quotes, plain_char, plain_text};
use crate::model::{ClientMessageView, GameConfig, PlayerView};

verus! {

/// A message none of whose texts needs escaping.
pub open spec fn plain_message(message: ClientMessageView) -> bool {
    match message {
        ClientMessageView::JoinGame(player) => plain_text(player.id) && plain_text(player.name),
        ClientMessageView::KickPlayer(id) => plain_text(id),
        ClientMessageView::StartGame(_) => true,
        ClientMessageView::Gameplay { action, text } => plain_text(action) && plain_text(text),
    }
}

/// A character that is one of the ten digits.
pub open spec fn is_digit(c: char) -> bool {
    exists|d: nat| d < 10 && c == digit_char(d)
}

/// The number that a run of digits stands for.
pub open spec fn number_of(digits: Seq<char>) -> nat
    decreases digits.len(),
{
    if digits.len() == 0 {
        0
    } else {
        10 * number_of(digits.drop_last()) + digit_of(digits.last())
    }
}

/// The digit that a character stands for.
pub open spec fn digit_of(c: char) -> nat {
    choose|d: nat| d < 10 && c == digit_char(d)
}

proof fn lemma_digit_of(d: nat)
    requires
        d < 10,
    ensures
        digit_of(digit_char(d)) == d,
        is_digit(digit_char(d)),
{
    let found = digit_of(digit_char(d));
    assert(found < 10 && digit_char(d) == digit_char(found));
}

/// The decimal digits of a number are digits, at least one, and stand for
/// the number.
pub proof fn lemma_decimal_reads_back(n: nat)
    ensures
        decimal(n).len() > 0,
        forall|i: int| 0 <= i < decimal(n).len() ==> is_digit(#[trigger] decimal(n)[i]),
        number_of(decimal(n)) == n,
    decreases n,
{
    if n < 10 {
        lemma_digit_of(n);
        assert(decimal(n).drop_last() =~= Seq::<char>::empty());
        assert(number_of(decimal(n).drop_last()) == 0);
    } else {
        lemma_decimal_reads_back(n / 10);
        lemma_digit_of(n % 10);
        assert(decimal(n).drop_last() =~= decimal(n / 10));
        assert(decimal(n).last() == digit_char(n % 10));
    }
}

/// What follows a common beginning of two equal texts is equal too.
proof fn lemma_cancel_prefix(head: Seq<char>, x: Seq<char>, y: Seq<char>)
    requires
        head + x == head + y,
    ensures
        x == y,
{
    assert(x =~= (head + x).subrange(head.len() as int, (head + x).len() as int));
    assert(y =~= (head + y).subrange(head.len() as int, (head + y).len() as int));
}

/// Two plain texts in quotes, each followed by more, are told apart: if the
/// whole is the same, so are the texts and what follows them.
proof fn lemma_plain_quotes_end(s: Seq<char>, x: Seq<char>, t: Seq<char>, y: Seq<char>)
    requires
        plain_text(s),
        plain_text(t),
        quoted(s) + x == quoted(t) + y,
    ensures
        s == t,
        x == y,
{
    let u = in_quotes(s) + x;
    let v = in_quotes(t) + y;
    assert(u == v);
    assert forall|i: int| 0 <= i < s.len() implies u[1 + i] == s[i] by {}
    assert forall|i: int| 0 <= i < t.len() implies v[1 + i] == t[i] by {}
    assert(u[1 + s.len() as int] == '"');
    assert(v[1 + t.len() as int] == '"');
    if s.len() < t.len() {
        assert(plain_char(t[s.len() as int]));
        assert(v[1 + s.len() as int] == t[s.len() as int]);
    }
    if t.len() < s.len() {
        assert(plain_char(s[t.len() as int]));
        assert(u[1 + t.len() as int] == s[t.len() as int]);
    }
    assert(s =~= t) by {
        assert forall|i: int| 0 <= i < s.len() implies s[i] == t[i] by {
            assert(u[1 + i] == v[1 + i]);
        }
    }
    lemma_cancel_prefix(in_quotes(s), x, y);
}

/// Two numbers in decimal digits, each followed by something that is no
/// digit, are told apart: if the whole is the same, so are the numbers and
/// what follows them.
proof fn lemma_decimal_ends(a: nat, x: Seq<char>, b: nat, y: Seq<char>)
    requires
        x.len() > 0 && !is_digit(x[0]),
        y.len() > 0 && !is_digit(y[0]),
        decimal(a) + x == decimal(b) + y,
    ensures
        a == b,
        x == y,
{
    lemma_decimal_reads_back(a);
    lemma_decimal_reads_back(b);
    let da = decimal(a);
    let db = decimal(b);
    let u = da + x;
    let v = db + y;
    if da.len() < db.len() {
        assert(u[da.len() as int] == x[0]);
        assert(v[da.len() as int] == db[da.len() as int]);
        assert(is_digit(db[da.len() as int]));
    }
    if db.len() < da.len() {
        assert(v[db.len() as int] == y[0]);
        assert(u[db.len() as int] == da[db.len() as int]);
        assert(is_digit(da[db.len() as int]));
    }
    assert(da =~= db) by {
        assert forall|i: int| 0 <= i < da.len() implies da[i] == db[i] by {
            assert(u[i] == v[i]);
        }
    }
    lemma_cancel_prefix(da, x, y);
}

proof fn lemma_two_texts_end(
    head: Seq<char>,
    s1: Seq<char>,
    middle: Seq<char>,
    s2: Seq<char>,
    tail: Seq<char>,
    t1: Seq<char>,
    t2: Seq<char>,
)
    requires
        plain_text(s1) && plain_text(s2) && plain_text(t1) && plain_text(t2),
        head + quoted(s1) + middle + quoted(s2) + tail == head + quoted(t1) + middle + quoted(t2)
            + tail,
    ensures
        s1 == t1,
        s2 == t2,
{
    let rest_s = middle + (quoted(s2) + tail);
    let rest_t = middle + (quoted(t2) + tail);
    assert(head + quoted(s1) + middle + quoted(s2) + tail =~= head + (quoted(s1) + rest_s));
    assert(head + quoted(t1) + middle + quoted(t2) + tail =~= head + (quoted(t1) + rest_t));
    lemma_cancel_prefix(head, quoted(s1) + rest_s, quoted(t1) + rest_t);
    lemma_plain_quotes_end(s1, rest_s, t1, rest_t);
    lemma_cancel_prefix(middle, quoted(s2) + tail, quoted(t2) + tail);
    lemma_plain_quotes_end(s2, tail, t2, tail);
}

proof fn lemma_regroup(
    head: Seq<char>,
    open: Seq<char>,
    first: Seq<char>,
    middle: Seq<char>,
    second: Seq<char>,
    close: Seq<char>,
    end: Seq<char>,
)
    ensures
        head + (open + first + middle + second + close) + end == (head + open) + first + middle
            + second + (close + end),
        head + (open + first + middle + second + close) + end == (head + open) + (first + (middle
            + (second + (close + end)))),
{
    let whole = head + (open + first + middle + second + close) + end;
    assert(whole =~= (head + open) + first + middle + second + (close + end));
    assert(whole =~= (head + open) + (first + (middle + (second + (close + end)))));
}

proof fn lemma_join_frames(p: PlayerView, q: PlayerView, head: Seq<char>, end: Seq<char>)
    requires
        plain_text(p.id) && plain_text(p.name) && plain_text(q.id) && plain_text(q.name),
        head + player_json(p) + end == head + player_json(q) + end,
    ensures
        p == q,
{
    let open = "{\"id\":"@;
    let middle = ",\"name\":"@;
    let close = "}"@;
    lemma_regroup(head, open, quoted(p.id), middle, quoted(p.name), close, end);
    lemma_regroup(head, open, quoted(q.id), middle, quoted(q.name), close, end);
    lemma_two_texts_end(head + open, p.id, middle, p.name, close + end, q.id, q.name);
}

proof fn lemma_action_frames(
    s1: Seq<char>,
    s2: Seq<char>,
    t1: Seq<char>,
    t2: Seq<char>,
    head: Seq<char>,
    end: Seq<char>,
)
    requires
        plain_text(s1) && plain_text(s2) && plain_text(t1) && plain_text(t2),
        head + action_json(s1, s2) + end == head + action_json(t1, t2) + end,
    ensures
        s1 == t1,
        s2 == t2,
{
    let open = "{\"action\":"@;
    let middle = ",\"text\":"@;
    let close = "}"@;
    lemma_regroup(head, open, quoted(s1), middle, quoted(s2), close, end);
    lemma_regroup(head, open, quoted(t1), middle, quoted(t2), close, end);
    lemma_two_texts_end(head + open, s1, middle, s2, close + end, t1, t2);
}

proof fn lemma_kick_frames(s: Seq<char>, t: Seq<char>, head: Seq<char>, end: Seq<char>)
    requires
        plain_text(s) && plain_text(t),
        head + quoted(s) + end == head + quoted(t) + end,
    ensures
        s == t,
{
    assert(head + quoted(s) + end =~= head + (quoted(s) + end));
    assert(head + quoted(t) + end =~= head + (quoted(t) + end));
    lemma_cancel_prefix(head, quoted(s) + end, quoted(t) + end);
    lemma_plain_quotes_end(s, end, t, end);
}

proof fn lemma_start_frames(c: GameConfig, d: GameConfig, head: Seq<char>, end: Seq<char>)
    requires
        head + config_json(c) + end == head + config_json(d) + end,
    ensures
        c == d,
{
    let open = "{\"lettersPerAcronym\":{\"min\":"@;
    let middle = ",\"max\":"@;
    let close = "}}"@;
    let c_min = c.letters_per_acronym.min as nat;
    let c_max = c.letters_per_acronym.max as nat;
    let d_min = d.letters_per_acronym.min as nat;
    let d_max = d.letters_per_acronym.max as nat;
    lemma_regroup(head, open, decimal(c_min), middle, decimal(c_max), close, end);
    lemma_regroup(head, open, decimal(d_min), middle, decimal(d_max), close, end);
    let tail = close + end;
    let rest_c = middle + (decimal(c_max) + tail);
    let rest_d = middle + (decimal(d_max) + tail);
    lemma_cancel_prefix(head + open, decimal(c_min) + rest_c, decimal(d_min) + rest_d);
    reveal_strlit(",\"max\":");
    reveal_strlit("}}");
    lemma_not_a_digit(',');
    lemma_not_a_digit('}');
    assert(rest_c[0] == ',');
    assert(rest_d[0] == ',');
    lemma_decimal_ends(c_min, rest_c, d_min, rest_d);
    lemma_cancel_prefix(middle, decimal(c_max) + tail, decimal(d_max) + tail);
    assert(tail[0] == '}');
    lemma_decimal_ends(c_max, tail, d_max, tail);
}

/// A frame tells the message it was written from, where no text of the
/// message needs escaping: two such messages with the same frame are the
/// same message.
pub proof fn lemma_frame_tells_plain_message(a: ClientMessageView, b: ClientMessageView)
    requires
        plain_message(a),
        plain_message(b),
    ensures
        client_frame(a) == client_frame(b) ==> a == b,
{
    if client_frame(a) == client_frame(b) {
        lemma_frame_tells_variant(a, b);
        let head = frame_head(a);
        let end = "}"@;
        assert(frame_head(a) == frame_head(b));
        match (a, b) {
            (ClientMessageView::JoinGame(p), ClientMessageView::JoinGame(q)) => {
                lemma_join_frames(p, q, head, end);
            },
            (ClientMessageView::KickPlayer(s), ClientMessageView::KickPlayer(t)) => {
                lemma_kick_frames(s, t, head, end);
            },
            (ClientMessageView::StartGame(c), ClientMessageView::StartGame(d)) => {
                lemma_start_frames(c, d, head, end);
            },
            (
                ClientMessageView::Gameplay { action: s1, text: s2 },
                ClientMessageView::Gameplay { action: t1, text: t2 },
            ) => {
                lemma_action_frames(s1, s2, t1, t2, head, end);
            },
            _ => {},
        }
    }
}

proof fn lemma_not_a_digit(c: char)
    requires
        c == ',' || c == '}',
    ensures
        !is_digit(c),
{
}

} // verus!
