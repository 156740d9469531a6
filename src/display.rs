//! Text shown by the picker and the history graph: session ages, the
//! round line-drawing style, and the choice and order of listed sessions.
use vstd::prelude::*;
use crate::picker::{unix_now, SessionInfo};
use crate::text::{chars_of, decimal, push_decimal, push_str, string_of};

verus! {

/// "`n`<unit> ago".
pub open spec fn ago(n: nat, unit: Seq<char>) -> Seq<char> {
    decimal(n) + unit + " ago"@
}

/// How long ago, in the largest unit that fits, something `diff` seconds old happened.
pub open spec fn age_text(diff: nat) -> Seq<char> {
    if diff < 60 {
        ago(diff, "s"@)
    } else if diff < 3600 {
        ago(diff / 60, "m"@)
    } else if diff < 86400 {
        ago(diff / 3600, "h"@)
    } else if diff < 604800 {
        ago(diff / 86400, "d"@)
    } else if diff < 2592000 {
        ago(diff / 604800, "w"@)
    } else if diff < 31536000 {
        ago(diff / 2592000, "mo"@)
    } else {
        ago(diff / 31536000, "y"@)
    }
}

/// The age, seen at `now`, of a file modified at `mtime` (Unix seconds); a
/// time in the future counts as now.
pub open spec fn age_at(now: u64, mtime: u64) -> Seq<char> {
    age_text(if now >= mtime { (now - mtime) as nat } else { 0 })
}

/// The age, seen at `now`, of a file modified at `mtime`.
pub fn format_age(now: u64, mtime: u64) -> (r: String)
    ensures
        r@ == age_at(now, mtime),
{
    let diff = now.saturating_sub(mtime);
    let (n, unit): (u64, &str) = if diff < 60 {
        (diff, "s")
    } else if diff < 3600 {
        (diff / 60, "m")
    } else if diff < 86400 {
        (diff / 3600, "h")
    } else if diff < 604800 {
        (diff / 86400, "d")
    } else if diff < 2592000 {
        (diff / 604800, "w")
    } else if diff < 31536000 {
        (diff / 2592000, "mo")
    } else {
        (diff / 31536000, "y")
    };
    let mut s = String::new();
    push_decimal(&mut s, n);
    push_str(&mut s, unit);
    push_str(&mut s, " ago");
    assert(s@ =~= age_text(diff as nat));
    s
}

/// The age of a file modified at `mtime`, from the clock.
pub fn format_relative_time(mtime: u64) -> (r: String)
    ensures
        exists|now: u64| r@ == #[trigger] age_at(now, mtime),
{
    let now = unix_now();
    format_age(now, mtime)
}

/// The round line-drawing counterpart of an ASCII graph character.
pub open spec fn round_char(c: char) -> char {
    if c == '*' {
        '●'
    } else if c == '|' {
        '│'
    } else if c == '\\' {
        '╲'
    } else if c == '/' {
        '╱'
    } else if c == '-' {
        '─'
    } else {
        c
    }
}

/// An ASCII history-graph line drawn with round line-drawing characters.
pub open spec fn round_style(s: Seq<char>) -> Seq<char> {
    Seq::new(s.len(), |i: int| round_char(s[i]))
}

/// Redraws an ASCII history-graph line with round line-drawing characters.
pub fn convert_to_round_style(line: &str) -> (r: String)
    ensures
        r@ == round_style(line@),
{
    let v = chars_of(line);
    let mut out: Vec<char> = Vec::new();
    let mut i: usize = 0;
    while i < v.len()
        invariant
            v@ == line@,
            i <= v@.len(),
            out@ == round_style(v@.subrange(0, i as int)),
        decreases v@.len() - i,
    {
        let c = v[i];
        let d = if c == '*' {
            '●'
        } else if c == '|' {
            '│'
        } else if c == '\\' {
            '╲'
        } else if c == '/' {
            '╱'
        } else if c == '-' {
            '─'
        } else {
            c
        };
        out.push(d);
        assert(out@ =~= round_style(v@.subrange(0, i + 1)));
        i = i + 1;
    }
    assert(v@.subrange(0, i as int) =~= v@);
    string_of(out.as_slice())
}

/// Most sessions the picker lists.
pub const MAX_LISTED_SESSIONS: usize = 100;

/// Sessions recorded for directory `cwd`, or for no directory.
pub open spec fn in_dir(s: Seq<SessionInfo>, cwd: Seq<char>) -> Seq<SessionInfo>
    decreases s.len(),
{
    if s.len() == 0 {
        Seq::empty()
    } else if s.last().cwd@.len() == 0 || s.last().cwd@ == cwd {
        in_dir(s.drop_last(), cwd).push(s.last())
    } else {
        in_dir(s.drop_last(), cwd)
    }
}

/// Where `x` goes among `s` (newest first): after every session at least as new.
pub open spec fn insert_pos(s: Seq<SessionInfo>, x: SessionInfo) -> int
    decreases s.len(),
{
    if s.len() == 0 {
        0
    } else if s.last().mtime >= x.mtime {
        s.len() as int
    } else {
        insert_pos(s.drop_last(), x)
    }
}

/// `s` ordered newest first; sessions of equal time keep their order.
pub open spec fn newest_first(s: Seq<SessionInfo>) -> Seq<SessionInfo>
    decreases s.len(),
{
    if s.len() == 0 {
        Seq::empty()
    } else {
        let rest = newest_first(s.drop_last());
        rest.insert(insert_pos(rest, s.last()), s.last())
    }
}

proof fn lemma_insert_pos_bounds(s: Seq<SessionInfo>, x: SessionInfo)
    ensures
        0 <= insert_pos(s, x) <= s.len(),
    decreases s.len(),
{
    if s.len() > 0 && s.last().mtime < x.mtime {
        lemma_insert_pos_bounds(s.drop_last(), x);
    }
}

proof fn lemma_newest_first_len(s: Seq<SessionInfo>)
    ensures
        newest_first(s).len() == s.len(),
    decreases s.len(),
{
    if s.len() > 0 {
        lemma_newest_first_len(s.drop_last());
        lemma_insert_pos_bounds(newest_first(s.drop_last()), s.last());
    }
}

fn insert_newest_first(v: &mut Vec<SessionInfo>, x: SessionInfo)
    ensures
        final(v)@ == old(v)@.insert(insert_pos(old(v)@, x), x),
{
    let mut j: usize = v.len();
    assert(v@.subrange(0, j as int) =~= v@);
    while j > 0 && v[j - 1].mtime < x.mtime
        invariant
            j <= v@.len(),
            v@ == old(v)@,
            insert_pos(v@, x) == insert_pos(v@.subrange(0, j as int), x),
        decreases j,
    {
        assert(v@.subrange(0, j as int).drop_last() =~= v@.subrange(0, j - 1));
        j = j - 1;
    }
    assert(insert_pos(v@.subrange(0, j as int), x) == j);
    v.insert(j, x);
}

/// The sessions to list for directory `cwd`: those of `cwd` or of no
/// directory, newest first, at most `MAX_LISTED_SESSIONS` of them; an error
/// when there are none.
pub fn select_sessions(found: Vec<SessionInfo>, cwd: &str) -> (r: Result<Vec<SessionInfo>, String>)
    ensures
        ({
            let all = newest_first(in_dir(found@, cwd@));
            if all.len() == 0 {
                r matches Err(e) && e@ == "No sessions found in current working directory"@
            } else {
                r matches Ok(v) && v@ == all.subrange(
                    0,
                    if all.len() <= MAX_LISTED_SESSIONS { all.len() as int } else { MAX_LISTED_SESSIONS as int },
                )
            }
        }),
{
    let dir = cwd.to_owned();
    let mut kept: Vec<SessionInfo> = Vec::new();
    let mut i: usize = 0;
    while i < found.len()
        invariant
            i <= found@.len(),
            dir@ == cwd@,
            kept@ == newest_first(in_dir(found@.subrange(0, i as int), cwd@)),
        decreases found@.len() - i,
    {
        let s = &found[i];
        let ghost pre = found@.subrange(0, i as int);
        let ghost cur = found@.subrange(0, i + 1);
        proof {
            assert(cur.drop_last() =~= pre);
            assert(cur.last() == found@[i as int]);
        }
        if s.cwd.as_str().is_empty() || s.cwd == dir {
            let c = s.clone();
            insert_newest_first(&mut kept, c);
            proof {
                assert(in_dir(cur, cwd@) == in_dir(pre, cwd@).push(found@[i as int]));
                assert(in_dir(pre, cwd@).push(found@[i as int]).drop_last() =~= in_dir(pre, cwd@));
            }
        }
        i = i + 1;
    }
    assert(found@.subrange(0, i as int) =~= found@);
    proof {
        lemma_newest_first_len(in_dir(found@, cwd@));
    }
    if kept.len() == 0 {
        return Err("No sessions found in current working directory".to_owned());
    }
    kept.truncate(MAX_LISTED_SESSIONS);
    assert(kept@ =~= newest_first(in_dir(found@, cwd@)).subrange(
        0,
        if newest_first(in_dir(found@, cwd@)).len() <= MAX_LISTED_SESSIONS {
            newest_first(in_dir(found@, cwd@)).len() as int
        } else {
            MAX_LISTED_SESSIONS as int
        },
    ));
    Ok(kept)
}

} // verus!
