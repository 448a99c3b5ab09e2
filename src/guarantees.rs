//! What holds of the client over several operations.
use vstd::prelude::*;
use crate::console::{after_group, after_group_end, after_set_uri, dispatched, lemma_resolve_has_scheme, Action, ConsoleView};
use crate::endpoint::{has_prefix, is_white_space, pieces, resolve_raw, trim_end, trim_start, trimmed, wants_port, with_scheme};
use crate::envelope::LogType;

verus! {

/// Replays group calls from state `v`: `Some(label)` opens a group (as
/// `group` and `group_collapsed` do), `None` closes one (as `group_end`
/// does). Gives the state after them and the number of closing messages
/// that were dispatched.
pub open spec fn replay_groups(v: ConsoleView, calls: Seq<Option<Seq<char>>>) -> (ConsoleView, nat)
    decreases calls.len(),
{
    if calls.len() == 0 {
        (v, 0)
    } else {
        let (w, n) = replay_groups(v, calls.drop_last());
        match calls.last() {
            Some(label) => (after_group(w, label), n),
            None => (after_group_end(w), if w.groups.len() > 0 { n + 1 } else { n }),
        }
    }
}

/// The number of calls that open a group.
pub open spec fn opens(calls: Seq<Option<Seq<char>>>) -> nat
    decreases calls.len(),
{
    if calls.len() == 0 {
        0
    } else {
        opens(calls.drop_last()) + if calls.last() is Some { 1nat } else { 0nat }
    }
}

/// Over any sequence of group calls, the closing messages dispatched never
/// outnumber the groups open at the start plus those opened, and the open
/// groups are exactly those minus the ones closed.
pub proof fn lemma_group_closes_bounded(v: ConsoleView, calls: Seq<Option<Seq<char>>>)
    ensures
        replay_groups(v, calls).1 <= v.groups.len() + opens(calls),
        replay_groups(v, calls).0.groups.len() + replay_groups(v, calls).1
            == v.groups.len() + opens(calls),
        replay_groups(v, calls).0.uri == v.uri,
        replay_groups(v, calls).0.enabled == v.enabled,
        replay_groups(v, calls).0.connected == v.connected,
        replay_groups(v, calls).0.info == v.info,
    decreases calls.len(),
{
    if calls.len() > 0 {
        lemma_group_closes_bounded(v, calls.drop_last());
    }
}

/// While logging is off, no operation connects or sends, whatever the
/// connection state.
pub proof fn lemma_disabled_is_silent(v: ConsoleView, kind: LogType, items: Seq<Seq<char>>, a: Action)
    requires
        !v.enabled,
        dispatched(v, kind, items, a),
    ensures
        a is Skip,
{
}

/// After the endpoint is set from `raw`, the next message connects to the
/// endpoint resolved from `raw`, even where a connection was live.
pub proof fn lemma_new_endpoint_reconnects(
    v: ConsoleView,
    raw: Seq<char>,
    kind: LogType,
    items: Seq<Seq<char>>,
    a: Action,
)
    requires
        v.enabled,
        dispatched(after_set_uri(v, raw), kind, items, a),
    ensures
        a is Connect,
        a->Connect_0@ == resolve_raw(raw),
{
}

/// A live connection is kept whatever became of earlier sends: after any
/// group calls, the next message is again sent on it.
pub proof fn lemma_sends_continue(
    v: ConsoleView,
    calls: Seq<Option<Seq<char>>>,
    kind: LogType,
    items: Seq<Seq<char>>,
    a: Action,
)
    requires
        v.enabled,
        v.connected,
        dispatched(replay_groups(v, calls).0, kind, items, a),
    ensures
        a is Send,
{
    lemma_group_closes_bounded(v, calls);
}

proof fn lemma_trim_end_last(s: Seq<char>)
    ensures
        trim_end(s).len() > 0 ==> !is_white_space(trim_end(s).last()),
    decreases s.len(),
{
    if s.len() > 0 && is_white_space(s.last()) {
        lemma_trim_end_last(s.drop_last());
    }
}

proof fn lemma_pieces_push(s: Seq<char>, c: char, sep: char)
    ensures
        pieces(s.push(c), sep).len() == pieces(s, sep).len() + if c == sep { 1int } else { 0int },
    decreases s.len(),
{
    assert(s.push(c).drop_last() =~= s);
    lemma_pieces_nonempty(s, sep);
}

proof fn lemma_pieces_nonempty(s: Seq<char>, sep: char)
    ensures
        pieces(s, sep).len() >= 1,
    decreases s.len(),
{
    if s.len() > 0 {
        lemma_pieces_nonempty(s.drop_last(), sep);
    }
}

/// Resolving a resolved endpoint gives it back unchanged.
pub proof fn lemma_resolve_idempotent(raw: Seq<char>)
    ensures
        resolve_raw(resolve_raw(raw)) == resolve_raw(raw),
{
    reveal_strlit("ws://");
    reveal_strlit("wss://");
    reveal_strlit(":9090");
    let t = trimmed(raw);
    let u = with_scheme(t);
    let r = resolve_raw(raw);
    lemma_trim_end_last(trim_start(raw));
    lemma_resolve_has_scheme(raw);
    if has_prefix(t, "ws://"@) || has_prefix(t, "wss://"@) {
        assert(u == t);
        assert(u.len() > 0 && !is_white_space(u.last()));
    } else {
        if t.len() > 0 {
            assert(u.last() == t.last());
        } else {
            assert(u.last() == '/');
        }
    }
    assert(u.len() > 0 && !is_white_space(u.last()));
    if wants_port(u) {
        assert(r.last() == '0');
        let p = u.push(':').push('9').push('0').push('9');
        assert(r =~= p.push('0'));
        lemma_pieces_push(u, ':', ':');
        lemma_pieces_push(u.push(':'), '9', ':');
        lemma_pieces_push(u.push(':').push('9'), '0', ':');
        lemma_pieces_push(u.push(':').push('9').push('0'), '9', ':');
        lemma_pieces_push(p, '0', ':');
        assert(!wants_port(r));
    }
    assert(r.len() > 0 && !is_white_space(r.last()));
    assert(r[0] == 'w') by {
        assert(r.subrange(0, 5)[0] == r[0]);
    }
    assert(trim_start(r) == r);
    assert(trim_end(r) == r);
    assert(trimmed(r) == r);
    assert(with_scheme(r) == r);
}

} // verus!
