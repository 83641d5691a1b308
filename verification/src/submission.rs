//! Reading the uuid out of what a user pastes into the "edit" form: either
//! the bare uuid or the proxy address of a calendar, `<root>/<uuid>/events.ics`.

use vstd::prelude::*;
use crate::text::chars_of;

verus! {

/// Index of the last '/' in `s`, or -1 when there is none.
pub open spec fn last_slash(s: Seq<char>) -> int
    decreases s.len(),
{
    if s.len() == 0 {
        -1
    } else if s.last() == '/' {
        s.len() - 1
    } else {
        last_slash(s.drop_last())
    }
}

/// `last_slash` points at a '/' and no '/' follows it.
pub proof fn lemma_last_slash(s: Seq<char>)
    ensures
        -1 <= last_slash(s) < s.len(),
        last_slash(s) >= 0 ==> s[last_slash(s)] == '/',
        forall|j: int| last_slash(s) < j < s.len() ==> s[j] != '/',
    decreases s.len(),
{
    if s.len() > 0 && s.last() != '/' {
        lemma_last_slash(s.drop_last());
        assert forall|j: int| last_slash(s) < j < s.len() implies s[j] != '/' by {
            if j < s.len() - 1 {
                assert(s.drop_last()[j] == s[j]);
            }
        }
    }
}

/// The pieces of `s` between its '/' characters, in order, as `str::split('/')`
/// yields them: one more piece than there are slashes.
pub open spec fn segments(s: Seq<char>) -> Seq<Seq<char>>
    decreases s.len(),
{
    let i = last_slash(s);
    if i < 0 {
        seq![s]
    } else {
        proof {
            lemma_last_slash(s);
        }
        segments(s.take(i)).push(s.skip(i + 1))
    }
}

/// The text taken as the uuid of a submitted link: the second-to-last piece
/// between slashes when there are at least two pieces, else the whole text.
pub open spec fn uuid_candidate(link: Seq<char>) -> Seq<char> {
    let parts = segments(link);
    if parts.len() > 1 {
        parts[parts.len() - 2]
    } else {
        link
    }
}

/// There is always at least one piece, and the last one is what follows the
/// last slash.
pub proof fn lemma_segments_last(s: Seq<char>)
    ensures
        segments(s).len() >= 1,
        segments(s).last() == s.skip(last_slash(s) + 1),
        segments(s).len() > 1 <==> last_slash(s) >= 0,
    decreases s.len(),
{
    lemma_last_slash(s);
    let i = last_slash(s);
    if i >= 0 {
        lemma_segments_last(s.take(i));
    } else {
        assert(s.skip(0) =~= s);
    }
}

/// Whether `s` holds no '/'.
pub open spec fn slash_free(s: Seq<char>) -> bool {
    forall|j: int| 0 <= j < s.len() ==> s[j] != '/'
}

/// A slash-free text has no last slash; after `a/b` with `b` slash-free the
/// last slash is the one that ends `a/`.
proof fn lemma_last_slash_of_join(a: Seq<char>, b: Seq<char>)
    requires
        slash_free(b),
    ensures
        last_slash(b) == -1,
        last_slash(a + seq!['/'] + b) == a.len(),
    decreases b.len(),
{
    let s = a + seq!['/'] + b;
    if b.len() > 0 {
        assert(s.drop_last() =~= a + seq!['/'] + b.drop_last());
        assert(b.last() == b[b.len() - 1]);
        lemma_last_slash_of_join(a, b.drop_last());
    } else {
        assert(s.drop_last() =~= a);
    }
}

/// Pasting a bare uuid (no slash) submits that uuid.
pub proof fn lemma_bare_uuid_submitted(u: Seq<char>)
    requires
        slash_free(u),
    ensures
        uuid_candidate(u) == u,
{
    lemma_last_slash_of_join(seq![], u);
}

/// Pasting any address that ends in `/<uuid>/<file>`, such as the proxy's own
/// `<root>/<uuid>/events.ics`, submits `<uuid>` when neither it nor `<file>`
/// holds a slash.
pub proof fn lemma_proxy_link_submits_uuid(prefix: Seq<char>, u: Seq<char>, file: Seq<char>)
    requires
        slash_free(u),
        slash_free(file),
    ensures
        uuid_candidate(prefix + seq!['/'] + u + seq!['/'] + file) == u,
{
    let head = prefix + seq!['/'] + u;
    let s = head + seq!['/'] + file;
    lemma_last_slash_of_join(head, file);
    lemma_last_slash_of_join(prefix, u);
    lemma_segments_last(s);
    lemma_segments_last(head);
    assert(s.take(head.len() as int) =~= head);
    assert(segments(s) == segments(head).push(s.skip(head.len() as int + 1)));
    assert(head.skip(prefix.len() as int + 1) =~= u);
}

/// The uuid text of a submitted link: what lies between the last two slashes,
/// or before the only slash, or the whole link when it holds no slash.
pub fn submitted_uuid_text(link: &str) -> (out: String)
    ensures
        out@ == uuid_candidate(link@),
{
    let cs = chars_of(link);
    let ghost s = link@;
    // position just past the previous slash, and of the last slash seen so far
    let mut last: Option<usize> = None;
    let mut prev: Option<usize> = None;
    let mut i: usize = 0;
    while i < cs.len()
        invariant
            cs@ == s,
            s == link@,
            i <= cs.len(),
            match last {
                None => last_slash(s.take(i as int)) == -1,
                Some(l) => l < i && last_slash(s.take(i as int)) == l && match prev {
                    None => last_slash(s.take(l as int)) == -1,
                    Some(p) => p < l && last_slash(s.take(l as int)) == p,
                },
            },
            last is None ==> prev is None,
        decreases cs.len() - i,
    {
        assert(s.take(i + 1).drop_last() =~= s.take(i as int));
        if cs[i] == '/' {
            prev = last;
            last = Some(i);
        }
        i = i + 1;
    }
    assert(s.take(i as int) =~= s);
    proof {
        lemma_segments_last(s);
    }
    match last {
        None => String::from_str(link),
        Some(l) => {
            proof {
                lemma_last_slash(s);
                lemma_segments_last(s.take(l as int));
                assert(segments(s) == segments(s.take(l as int)).push(s.skip(l + 1)));
            }
            match prev {
                None => {
                    assert(s.take(l as int).skip(0) =~= s.subrange(0, l as int));
                    String::from_str(link.substring_char(0, l))
                },
                Some(p) => {
                    assert(s.take(l as int).skip(p + 1) =~= s.subrange(p + 1, l as int));
                    String::from_str(link.substring_char(p + 1, l))
                },
            }
        },
    }
}

} // verus!
