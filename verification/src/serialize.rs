//! Serialization of the status tagged sum as a discriminated JSON value: a
//! quoted name for the plain statuses, an object with the reason for
//! `Failed`. The encoding is proved lossless: rendering is injective, and a
//! rendered status parses back to itself.

use vstd::prelude::*;
use crate::status::{InstanceStatus, StatusView};
use crate::strutil::str_eq;
use crate::qmp::str_starts_with;

verus! {

/// A character as it appears inside a JSON string: quote and backslash are
/// escaped, everything else stands for itself.
pub open spec fn esc_char(c: char) -> Seq<char> {
    if c == '"' || c == '\\' {
        seq!['\\', c]
    } else {
        seq![c]
    }
}

/// A character sequence as it appears inside a JSON string.
pub open spec fn escaped(s: Seq<char>) -> Seq<char>
    decreases s.len(),
{
    if s.len() == 0 {
        Seq::empty()
    } else {
        esc_char(s[0]) + escaped(s.drop_first())
    }
}

/// The inverse of `escaped`: rejects a bare quote, a backslash before
/// anything but a quote or backslash, and a trailing backslash.
pub open spec fn unescaped(m: Seq<char>) -> Option<Seq<char>>
    decreases m.len(),
{
    if m.len() == 0 {
        Some(Seq::empty())
    } else if m[0] == '"' {
        None
    } else if m[0] == '\\' {
        if m.len() < 2 || !(m[1] == '"' || m[1] == '\\') {
            None
        } else {
            match unescaped(m.subrange(2, m.len() as int)) {
                Some(rest) => Some(seq![m[1]] + rest),
                None => None,
            }
        }
    } else {
        match unescaped(m.subrange(1, m.len() as int)) {
            Some(rest) => Some(seq![m[0]] + rest),
            None => None,
        }
    }
}

/// Law: unescaping inverts escaping — the payload of a rendered failure is
/// recovered exactly.
pub proof fn lemma_unescape_escaped(s: Seq<char>)
    ensures
        unescaped(escaped(s)) == Some(s),
    decreases s.len(),
{
    if s.len() == 0 {
        assert(escaped(s) =~= Seq::<char>::empty());
    } else {
        let tail = s.drop_first();
        lemma_unescape_escaped(tail);
        let m = escaped(s);
        if s[0] == '"' || s[0] == '\\' {
            assert(m[0] == '\\' && m[1] == s[0]);
            assert(m.subrange(2, m.len() as int) =~= escaped(tail));
            assert(seq![s[0]] + tail =~= s);
        } else {
            assert(m[0] == s[0]);
            assert(m.subrange(1, m.len() as int) =~= escaped(tail));
            assert(seq![s[0]] + tail =~= s);
        }
    }
}

/// Law: escaping is injective — two different reasons never render alike.
pub proof fn lemma_escaped_injective(a: Seq<char>, b: Seq<char>)
    requires
        escaped(a) == escaped(b),
    ensures
        a == b,
{
    lemma_unescape_escaped(a);
    lemma_unescape_escaped(b);
}

/// The JSON rendering of a status.
pub open spec fn status_json(s: StatusView) -> Seq<char> {
    match s {
        StatusView::Created => "\"Created\""@,
        StatusView::Starting => "\"Starting\""@,
        StatusView::Running => "\"Running\""@,
        StatusView::Pausing => "\"Pausing\""@,
        StatusView::Paused => "\"Paused\""@,
        StatusView::Resuming => "\"Resuming\""@,
        StatusView::Suspending => "\"Suspending\""@,
        StatusView::Suspended => "\"Suspended\""@,
        StatusView::Stopping => "\"Stopping\""@,
        StatusView::Stopped => "\"Stopped\""@,
        StatusView::Failed { error } => "{\"Failed\":{\"error\":\""@ + escaped(error) + "\"}}"@,
    }
}

/// Escape a failure reason for embedding in a JSON string.
fn escape_reason(s: &str) -> (r: String)
    ensures
        r@ == escaped(s@),
{
    proof {
        reveal_strlit("\\\"");
        reveal_strlit("\\\\");
    }
    let len = s.unicode_len();
    let mut r = String::new();
    let mut i: usize = 0;
    while i < len
        invariant
            0 <= i <= len,
            len == s@.len(),
            r@ =~= escaped(s@.subrange(0, i as int)),
        decreases len - i,
    {
        let c = s.get_char(i);
        if c == '"' {
            r.append("\\\"");
        } else if c == '\\' {
            r.append("\\\\");
        } else {
            r.append(s.substring_char(i, i + 1));
        }
        proof {
            reveal_strlit("\\\"");
            reveal_strlit("\\\\");
            lemma_escaped_snoc(s@.subrange(0, i as int), s@[i as int]);
            assert(s@.subrange(0, i as int).push(s@[i as int]) =~= s@.subrange(0, i as int + 1));
            assert(s@.subrange(i as int, i as int + 1) =~= seq![s@[i as int]]);
            assert(r@ =~= escaped(s@.subrange(0, i as int + 1)));
        }
        i = i + 1;
    }
    proof {
        assert(s@.subrange(0, len as int) =~= s@);
    }
    r
}

/// Escaping distributes over appending one character.
proof fn lemma_escaped_snoc(s: Seq<char>, c: char)
    ensures
        escaped(s.push(c)) == escaped(s) + esc_char(c),
    decreases s.len(),
{
    if s.len() == 0 {
        assert(s.push(c)[0] == c);
        assert(s.push(c).drop_first() =~= Seq::<char>::empty());
        assert(escaped(s.push(c)) == esc_char(s.push(c)[0]) + escaped(s.push(c).drop_first()));
        assert(escaped(Seq::<char>::empty()) =~= Seq::<char>::empty());
        assert(esc_char(c) + Seq::<char>::empty() =~= esc_char(c));
        assert(escaped(s) + esc_char(c) =~= esc_char(c));
    } else {
        assert(s.push(c).drop_first() =~= s.drop_first().push(c));
        lemma_escaped_snoc(s.drop_first(), c);
        assert(s.push(c)[0] == s[0]);
        assert(escaped(s.push(c)) =~= escaped(s) + esc_char(c));
    }
}

/// Unescape the payload of a rendered failure. Returns the reason exactly
/// when the input is a well-formed escape of it.
fn unescape_reason(m: &str) -> (r: Option<String>)
    ensures
        match r {
            Some(out) => unescaped(m@) == Some(out@),
            None => unescaped(m@) is None,
        },
{
    let len = m.unicode_len();
    let mut out = String::new();
    let mut i: usize = 0;
    proof {
        assert(m@.subrange(0, len as int) =~= m@);
        if unescaped(m@) is Some {
            let rest = unescaped(m@)->0;
            assert(out@ + rest =~= rest);
        }
    }
    while i < len
        invariant
            0 <= i <= len,
            len == m@.len(),
            unescaped(m@) == match unescaped(m@.subrange(i as int, len as int)) {
                Some(rest) => Some(out@ + rest),
                None => None::<Seq<char>>,
            },
        decreases len - i,
    {
        let ghost pre = m@.subrange(i as int, len as int);
        let c = m.get_char(i);
        if c == '"' {
            proof {
                assert(pre[0] == '"');
            }
            return None;
        } else if c == '\\' {
            if i + 1 >= len {
                proof {
                    assert(pre.len() < 2);
                }
                return None;
            }
            let d = m.get_char(i + 1);
            if d == '"' || d == '\\' {
                out.append(m.substring_char(i + 1, i + 2));
                proof {
                    assert(pre[0] == '\\' && pre[1] == m@[i as int + 1]);
                    assert(pre.subrange(2, pre.len() as int) =~= m@.subrange(
                        i as int + 2,
                        len as int,
                    ));
                    assert(m@.subrange(i as int + 1, i as int + 2) =~= seq![m@[i as int + 1]]);
                    lemma_option_seq_assoc(
                        out@,
                        m@[i as int + 1],
                        m@.subrange(i as int + 2, len as int),
                    );
                }
                i = i + 2;
            } else {
                proof {
                    assert(pre[0] == '\\' && !(pre[1] == '"' || pre[1] == '\\'));
                }
                return None;
            }
        } else {
            out.append(m.substring_char(i, i + 1));
            proof {
                assert(pre[0] == m@[i as int]);
                assert(pre.subrange(1, pre.len() as int) =~= m@.subrange(
                    i as int + 1,
                    len as int,
                ));
                assert(m@.subrange(i as int, i as int + 1) =~= seq![m@[i as int]]);
                lemma_option_seq_assoc(out@, m@[i as int], m@.subrange(i as int + 1, len as int));
            }
            i = i + 1;
        }
    }
    proof {
        assert(m@.subrange(len as int, len as int) =~= Seq::<char>::empty());
        assert(unescaped(Seq::<char>::empty()) == Some(Seq::<char>::empty()));
        assert(out@ + Seq::<char>::empty() =~= out@);
    }
    Some(out)
}

/// Rebracketing of the peeled character: appending it to the output and
/// prepending it to the remainder describe the same sequence.
proof fn lemma_option_seq_assoc(out: Seq<char>, c: char, rest_src: Seq<char>)
    ensures
        forall|rest: Seq<char>| (out + (seq![c] + rest)) =~= ((out + seq![c]) + rest),
{
}

impl InstanceStatus {
    /// Render the status as a discriminated JSON value.
    pub fn to_json(&self) -> (r: String)
        ensures
            r@ == status_json(self@),
    {
        proof {
            reveal_strlit("\"Created\"");
            reveal_strlit("\"Starting\"");
            reveal_strlit("\"Running\"");
            reveal_strlit("\"Pausing\"");
            reveal_strlit("\"Paused\"");
            reveal_strlit("\"Resuming\"");
            reveal_strlit("\"Suspending\"");
            reveal_strlit("\"Suspended\"");
            reveal_strlit("\"Stopping\"");
            reveal_strlit("\"Stopped\"");
            reveal_strlit("{\"Failed\":{\"error\":\"");
            reveal_strlit("\"}}");
        }
        match self {
            InstanceStatus::Created => String::from_str("\"Created\""),
            InstanceStatus::Starting => String::from_str("\"Starting\""),
            InstanceStatus::Running => String::from_str("\"Running\""),
            InstanceStatus::Pausing => String::from_str("\"Pausing\""),
            InstanceStatus::Paused => String::from_str("\"Paused\""),
            InstanceStatus::Resuming => String::from_str("\"Resuming\""),
            InstanceStatus::Suspending => String::from_str("\"Suspending\""),
            InstanceStatus::Suspended => String::from_str("\"Suspended\""),
            InstanceStatus::Stopping => String::from_str("\"Stopping\""),
            InstanceStatus::Stopped => String::from_str("\"Stopped\""),
            InstanceStatus::Failed { error } => {
                let mut r = String::from_str("{\"Failed\":{\"error\":\"");
                r.append(escape_reason(error.as_str()).as_str());
                r.append("\"}}");
                r
            },
        }
    }

    /// Parse a status from its JSON rendering. Sound and complete: whatever
    /// parses is a status whose rendering is exactly the input, and every
    /// rendering parses. With `lemma_status_json_injective` this makes the
    /// encoding a round trip: a rendered status parses back to itself and to
    /// nothing else.
    pub fn from_json(s: &str) -> (r: Option<InstanceStatus>)
        ensures
            r matches Some(st) ==> s@ == status_json(st@),
            r is None ==> forall|st: StatusView| s@ != status_json(st),
    {
        proof {
            reveal_strlit("\"Created\"");
            reveal_strlit("\"Starting\"");
            reveal_strlit("\"Running\"");
            reveal_strlit("\"Pausing\"");
            reveal_strlit("\"Paused\"");
            reveal_strlit("\"Resuming\"");
            reveal_strlit("\"Suspending\"");
            reveal_strlit("\"Suspended\"");
            reveal_strlit("\"Stopping\"");
            reveal_strlit("\"Stopped\"");
            reveal_strlit("{\"Failed\":{\"error\":\"");
            reveal_strlit("\"}}");
        }
        if str_eq(s, "\"Created\"") {
            return Some(InstanceStatus::Created);
        }
        if str_eq(s, "\"Starting\"") {
            return Some(InstanceStatus::Starting);
        }
        if str_eq(s, "\"Running\"") {
            return Some(InstanceStatus::Running);
        }
        if str_eq(s, "\"Pausing\"") {
            return Some(InstanceStatus::Pausing);
        }
        if str_eq(s, "\"Paused\"") {
            return Some(InstanceStatus::Paused);
        }
        if str_eq(s, "\"Resuming\"") {
            return Some(InstanceStatus::Resuming);
        }
        if str_eq(s, "\"Suspending\"") {
            return Some(InstanceStatus::Suspending);
        }
        if str_eq(s, "\"Suspended\"") {
            return Some(InstanceStatus::Suspended);
        }
        if str_eq(s, "\"Stopping\"") {
            return Some(InstanceStatus::Stopping);
        }
        if str_eq(s, "\"Stopped\"") {
            return Some(InstanceStatus::Stopped);
        }
        let prefix = "{\"Failed\":{\"error\":\"";
        let suffix = "\"}}";
        if !str_starts_with(s, prefix) {
            proof {
                assert forall|st: StatusView| s@ != status_json(st) by {
                    if st is Failed {
                        if s@ == status_json(st) {
                            assert(s@.subrange(0, prefix@.len() as int) =~= prefix@);
                        }
                    }
                }
            }
            return None;
        }
        let slen = s.unicode_len();
        let plen = prefix.unicode_len();
        if slen < plen + 3 {
            proof {
                assert forall|st: StatusView| s@ != status_json(st) by {
                    if st is Failed {
                        assert(status_json(st).len() >= prefix@.len() + 3);
                    }
                }
            }
            return None;
        }
        let middle = s.substring_char(plen, slen - 3);
        let tail = s.substring_char(slen - 3, slen);
        if !str_eq(tail, suffix) {
            proof {
                assert forall|st: StatusView| s@ != status_json(st) by {
                    if st is Failed {
                        if s@ == status_json(st) {
                            assert(tail@ =~= suffix@);
                        }
                    }
                }
            }
            return None;
        }
        match unescape_reason(middle) {
            Some(reason) => {
                proof {
                    lemma_unescaped_sound(middle@);
                    assert(s@ =~= prefix@ + middle@ + suffix@);
                }
                Some(InstanceStatus::Failed { error: reason })
            },
            None => {
                proof {
                    assert forall|st: StatusView| s@ != status_json(st) by {
                        if st is Failed {
                            if s@ == status_json(st) {
                                let error = st->error;
                                assert(middle@ =~= escaped(error));
                                lemma_unescape_escaped(error);
                            }
                        }
                    }
                }
                None
            },
        }
    }
}

/// Whatever unescapes successfully is the escape of the result: scanning is
/// the inverse direction of `escaped`.
proof fn lemma_unescaped_sound(m: Seq<char>)
    ensures
        unescaped(m) matches Some(e) ==> m == escaped(e),
    decreases m.len(),
{
    if m.len() == 0 {
    } else if m[0] == '"' {
    } else if m[0] == '\\' {
        if m.len() >= 2 && (m[1] == '"' || m[1] == '\\') {
            let rest = m.subrange(2, m.len() as int);
            lemma_unescaped_sound(rest);
            if unescaped(rest) is Some {
                let e = unescaped(rest)->0;
                let full = seq![m[1]] + e;
                assert(full[0] == m[1]);
                assert(full.drop_first() =~= e);
                assert(escaped(full) =~= seq!['\\', m[1]] + escaped(e));
                assert(m =~= seq!['\\', m[1]] + rest);
            }
        }
    } else {
        let rest = m.subrange(1, m.len() as int);
        lemma_unescaped_sound(rest);
        if unescaped(rest) is Some {
            let e = unescaped(rest)->0;
            let full = seq![m[0]] + e;
            assert(full[0] == m[0]);
            assert(full.drop_first() =~= e);
            assert(escaped(full) =~= seq![m[0]] + escaped(e));
            assert(m =~= seq![m[0]] + rest);
        }
    }
}

/// Law: the JSON rendering of a status is injective — two statuses with the
/// same rendering are the same status, the failure reason included.
pub proof fn lemma_status_json_injective(a: StatusView, b: StatusView)
    requires
        status_json(a) == status_json(b),
    ensures
        a == b,
{
    reveal_strlit("\"Created\"");
    reveal_strlit("\"Starting\"");
    reveal_strlit("\"Running\"");
    reveal_strlit("\"Pausing\"");
    reveal_strlit("\"Paused\"");
    reveal_strlit("\"Resuming\"");
    reveal_strlit("\"Suspending\"");
    reveal_strlit("\"Suspended\"");
    reveal_strlit("\"Stopping\"");
    reveal_strlit("\"Stopped\"");
    reveal_strlit("{\"Failed\":{\"error\":\"");
    reveal_strlit("\"}}");
    lemma_status_names_distinct();
    if a is Failed && b is Failed {
        let e1 = a->error;
        let e2 = b->error;
        let p = "{\"Failed\":{\"error\":\""@;
        let q = "\"}}"@;
        assert(escaped(e1) =~= (p + escaped(e1) + q).subrange(
            p.len() as int,
            (p + escaped(e1) + q).len() - q.len(),
        ));
        assert(escaped(e2) =~= (p + escaped(e2) + q).subrange(
            p.len() as int,
            (p + escaped(e2) + q).len() - q.len(),
        ));
        lemma_escaped_injective(e1, e2);
    } else if a is Failed {
        let e = a->error;
        assert(a == StatusView::Failed { error: e });
        assert(status_json(b) != status_json(StatusView::Failed { error: e }));
    } else if b is Failed {
        let e = b->error;
        assert(b == StatusView::Failed { error: e });
        assert(status_json(a) != status_json(StatusView::Failed { error: e }));
    } else {
        if !a.same_discriminant(b) {
            assert(status_json(a) != status_json(b));
        }
    }
}

/// The renderings of the plain statuses are pairwise distinct, and every
/// failure rendering differs from all of them (it begins with a brace).
proof fn lemma_status_names_distinct()
    ensures
        forall|a: StatusView, b: StatusView|
            #![trigger status_json(a), status_json(b)]
            !(a matches StatusView::Failed { .. }) && !(b matches StatusView::Failed { .. })
                && !a.same_discriminant(b) ==> status_json(a) != status_json(b),
        forall|a: StatusView, e: Seq<char>|
            #![trigger status_json(a), status_json(StatusView::Failed { error: e })]
            !(a matches StatusView::Failed { .. }) ==> status_json(a) != status_json(
                StatusView::Failed { error: e },
            ),
{
    reveal_strlit("\"Created\"");
    reveal_strlit("\"Starting\"");
    reveal_strlit("\"Running\"");
    reveal_strlit("\"Pausing\"");
    reveal_strlit("\"Paused\"");
    reveal_strlit("\"Resuming\"");
    reveal_strlit("\"Suspending\"");
    reveal_strlit("\"Suspended\"");
    reveal_strlit("\"Stopping\"");
    reveal_strlit("\"Stopped\"");
    reveal_strlit("{\"Failed\":{\"error\":\"");
    // Pin one differing character for each pair of equal-length names.
    assert("\"Created\""@[1] == 'C' && "\"Running\""@[1] == 'R' && "\"Pausing\""@[1] == 'P'
        && "\"Stopped\""@[1] == 'S');
    assert("\"Starting\""@[3] == 'a' && "\"Resuming\""@[1] == 'R' && "\"Stopping\""@[3]
        == 'o' && "\"Starting\""@[1] == 'S');
    assert(forall|e: Seq<char>|
        (#[trigger] status_json(StatusView::Failed { error: e }))[0] == '{');
    assert("\"Created\""@[0] == '"' && "\"Starting\""@[0] == '"' && "\"Running\""@[0] == '"'
        && "\"Pausing\""@[0] == '"' && "\"Paused\""@[0] == '"' && "\"Resuming\""@[0] == '"'
        && "\"Suspending\""@[0] == '"' && "\"Suspended\""@[0] == '"' && "\"Stopping\""@[0]
        == '"' && "\"Stopped\""@[0] == '"');
    assert forall|a: StatusView, b: StatusView|
        !(a matches StatusView::Failed { .. }) && !(b matches StatusView::Failed { .. })
            && !a.same_discriminant(b) implies #[trigger] status_json(a) != #[trigger] status_json(
        b,
    ) by {
        if status_json(a) == status_json(b) {
            assert(status_json(a).len() == status_json(b).len());
            assert(status_json(a)[1] == status_json(b)[1]);
            assert(status_json(a)[3] == status_json(b)[3]);
            assert(false);
        }
    }
}

impl StatusView {
    /// Two statuses carry the same tag.
    pub open spec fn same_discriminant(self, other: StatusView) -> bool {
        match (self, other) {
            (StatusView::Created, StatusView::Created) => true,
            (StatusView::Starting, StatusView::Starting) => true,
            (StatusView::Running, StatusView::Running) => true,
            (StatusView::Pausing, StatusView::Pausing) => true,
            (StatusView::Paused, StatusView::Paused) => true,
            (StatusView::Resuming, StatusView::Resuming) => true,
            (StatusView::Suspending, StatusView::Suspending) => true,
            (StatusView::Suspended, StatusView::Suspended) => true,
            (StatusView::Stopping, StatusView::Stopping) => true,
            (StatusView::Stopped, StatusView::Stopped) => true,
            (StatusView::Failed { .. }, StatusView::Failed { .. }) => true,
            _ => false,
        }
    }
}

} // verus!
