//! SQL statements built from untrusted text: the text is placed inside a
//! single-quoted literal with every quote doubled, so that the literal
//! reads back as exactly that text.

use vstd::prelude::*;
use crate::ids::{uuid_text, uuid_text_of};
use crate::text::{chars_of, owned, push_char, push_str};

verus! {

/// PostgreSQL channel used for feed NOTIFY events.
pub const FEED_NOTIFY_CHANNEL: &'static str = "ficus_feed_events";

/// The escaped form of one character inside a quoted literal.
pub open spec fn escape_piece(c: char) -> Seq<char> {
    if c == '\'' {
        seq!['\'', '\'']
    } else {
        seq![c]
    }
}

/// `s` with every single quote doubled (`str::replace('\'', "''")`).
pub open spec fn escape_quotes(s: Seq<char>) -> Seq<char>
    decreases s.len(),
{
    if s.len() == 0 {
        Seq::empty()
    } else {
        escape_quotes(s.drop_last()) + escape_piece(s.last())
    }
}

/// How SQL reads the body of a single-quoted literal: a doubled quote is
/// one quote, and a lone quote would end the literal early (`None`).
pub open spec fn literal_body(t: Seq<char>) -> Option<Seq<char>>
    decreases t.len(),
{
    if t.len() == 0 {
        Some(Seq::empty())
    } else if t[0] == '\'' {
        if t.len() >= 2 && t[1] == '\'' {
            match literal_body(t.subrange(2, t.len() as int)) {
                Some(rest) => Some(seq!['\''] + rest),
                None => None,
            }
        } else {
            None
        }
    } else {
        match literal_body(t.subrange(1, t.len() as int)) {
            Some(rest) => Some(seq![t[0]] + rest),
            None => None,
        }
    }
}

/// Statement that takes the transaction-scoped advisory lock of a
/// `(sender, key)` idempotency scope.
pub open spec fn advisory_lock_text(sender_user_id: u128, key: Seq<char>) -> Seq<char> {
    "SELECT pg_advisory_xact_lock(hashtext('"@ + escape_quotes(
        uuid_text_of(sender_user_id) + seq![':'] + key,
    ) + "'))"@
}

/// Statement that publishes a feed payload on the notify channel.
pub open spec fn notify_text(payload: Seq<char>) -> Seq<char> {
    "NOTIFY "@ + FEED_NOTIFY_CHANNEL@ + ", '"@ + escape_quotes(payload) + "'"@
}

proof fn lemma_escape_concat(a: Seq<char>, b: Seq<char>)
    ensures
        escape_quotes(a + b) == escape_quotes(a) + escape_quotes(b),
    decreases b.len(),
{
    if b.len() == 0 {
        assert(a + b =~= a);
        assert(escape_quotes(b) =~= Seq::<char>::empty());
        assert(escape_quotes(a) + escape_quotes(b) =~= escape_quotes(a));
    } else {
        lemma_escape_concat(a, b.drop_last());
        assert((a + b).drop_last() =~= a + b.drop_last());
        assert((a + b).last() == b.last());
        assert(escape_quotes(a) + escape_quotes(b) =~= escape_quotes(a) + escape_quotes(
            b.drop_last(),
        ) + escape_piece(b.last()));
    }
}

proof fn lemma_escape_front(s: Seq<char>)
    requires
        s.len() > 0,
    ensures
        escape_quotes(s) == escape_piece(s[0]) + escape_quotes(s.subrange(1, s.len() as int)),
{
    let head = seq![s[0]];
    let tail = s.subrange(1, s.len() as int);
    assert(s =~= head + tail);
    lemma_escape_concat(head, tail);
    assert(head.drop_last() =~= Seq::<char>::empty());
    assert(escape_quotes(head.drop_last()) == Seq::<char>::empty());
    assert(head.last() == s[0]);
    assert(escape_quotes(head) =~= escape_piece(s[0]));
}

/// Doubling quotes is safe: the quoted literal reads back as exactly the
/// text it was built from, whatever quotes it holds.
pub proof fn law_escaped_literal_reads_back(s: Seq<char>)
    ensures
        literal_body(escape_quotes(s)) == Some(s),
    decreases s.len(),
{
    if s.len() > 0 {
        let tail = s.subrange(1, s.len() as int);
        lemma_escape_front(s);
        law_escaped_literal_reads_back(tail);
        let t = escape_quotes(s);
        if s[0] == '\'' {
            assert(t.subrange(2, t.len() as int) =~= escape_quotes(tail));
            assert(seq!['\''] + tail =~= s);
        } else {
            assert(t.subrange(1, t.len() as int) =~= escape_quotes(tail));
            assert(seq![s[0]] + tail =~= s);
        }
    } else {
        assert(escape_quotes(s) =~= Seq::<char>::empty());
        assert(s =~= Seq::<char>::empty());
    }
}

fn push_escaped(out: &mut String, s: &Vec<char>)
    ensures
        final(out)@ == old(out)@ + escape_quotes(s@),
{
    let mut i: usize = 0;
    while i < s.len()
        invariant
            i <= s@.len(),
            out@ == old(out)@ + escape_quotes(s@.take(i as int)),
        decreases s@.len() - i,
    {
        let c = s[i];
        proof {
            assert(s@.take(i + 1).drop_last() =~= s@.take(i as int));
            assert(s@.take(i + 1).last() == c);
        }
        if c == '\'' {
            push_char(out, '\'');
            push_char(out, '\'');
        } else {
            push_char(out, c);
        }
        assert(out@ =~= old(out)@ + escape_quotes(s@.take(i + 1)));
        i += 1;
    }
    assert(s@.take(s@.len() as int) =~= s@);
}

/// The advisory-lock statement for a sender and idempotency key.
pub fn advisory_lock_sql(sender_user_id: u128, idempotency_key: &str) -> (r: String)
    ensures
        r@ == advisory_lock_text(sender_user_id, idempotency_key@),
{
    let mut key = uuid_text(sender_user_id);
    push_char(&mut key, ':');
    push_str(&mut key, idempotency_key);
    assert(key@ =~= uuid_text_of(sender_user_id) + seq![':'] + idempotency_key@);
    let key_chars = chars_of(key.as_str());
    let mut sql = owned("SELECT pg_advisory_xact_lock(hashtext('");
    push_escaped(&mut sql, &key_chars);
    push_str(&mut sql, "'))");
    assert(sql@ =~= advisory_lock_text(sender_user_id, idempotency_key@));
    sql
}

/// The NOTIFY statement publishing a feed payload.
pub fn notify_sql(payload: &str) -> (r: String)
    ensures
        r@ == notify_text(payload@),
{
    let mut sql = owned("NOTIFY ");
    push_str(&mut sql, FEED_NOTIFY_CHANNEL);
    push_str(&mut sql, ", '");
    let cs = chars_of(payload);
    push_escaped(&mut sql, &cs);
    push_str(&mut sql, "'");
    assert(sql@ =~= notify_text(payload@));
    sql
}

} // verus!
