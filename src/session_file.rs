//! What the picker reads out of a saved session: one JSON record per line,
//! the first holding the session's metadata under `payload`, and messages
//! typed `user_message` or `assistant_message`.
use vstd::prelude::*;
use crate::json::{json_count_at, json_str_at, json_text_at, json_u64_at};
use crate::picker::PreviewMessage;

verus! {

/// The role of a record of type `kind`, when it is a message.
pub open spec fn role_of(kind: Option<Seq<char>>) -> Option<Seq<char>> {
    match kind {
        Some(k) => if k == "user_message"@ {
            Some("User"@)
        } else if k == "assistant_message"@ {
            Some("Assistant"@)
        } else {
            None
        },
        None => None,
    }
}

/// The role of a record of type `kind`, when it is a message.
pub fn message_role(kind: &Option<String>) -> (r: Option<String>)
    ensures
        (match r {
            Some(s) => Some(s@),
            None => None::<Seq<char>>,
        }) == role_of(
            match kind {
                Some(k) => Some(k@),
                None => None,
            },
        ),
{
    match kind {
        Some(k) => {
            let user = "user_message".to_owned();
            let assistant = "assistant_message".to_owned();
            if *k == user {
                Some("User".to_owned())
            } else if *k == assistant {
                Some("Assistant".to_owned())
            } else {
                None
            }
        },
        None => None,
    }
}

/// Message count, last role and last reported token total of a session.
#[derive(Debug)]
pub struct SessionTally {
    pub message_count: usize,
    pub last_role: String,
    pub total_tokens: usize,
}

/// The tally after a record of type `kind` whose usage reports `tokens`.
pub open spec fn tallied(t: (usize, Seq<char>, usize), kind: Option<Seq<char>>, tokens: Option<u64>) -> (
    usize,
    Seq<char>,
    usize,
) {
    match role_of(kind) {
        Some(role) => (
            if t.0 < usize::MAX { (t.0 + 1) as usize } else { t.0 },
            role,
            match tokens {
                Some(n) => n as usize,
                None => t.2,
            },
        ),
        None => t,
    }
}

/// The record types, and reported token totals, of the lines `lines`.
pub open spec fn tally_lines(lines: Seq<String>) -> (usize, Seq<char>, usize)
    decreases lines.len(),
{
    if lines.len() == 0 {
        (0usize, "-"@, 0usize)
    } else {
        let l = lines.last()@;
        tallied(
            tally_lines(lines.drop_last()),
            json_text_at(l, "/type"@),
            json_count_at(l, "/payload/usage/total_tokens"@),
        )
    }
}

impl SessionTally {
    pub open spec fn triple(&self) -> (usize, Seq<char>, usize) {
        (self.message_count, self.last_role@, self.total_tokens)
    }

    /// No messages, last role "-".
    pub fn new() -> (r: SessionTally)
        ensures
            r.triple() == (0usize, "-"@, 0usize),
    {
        SessionTally { message_count: 0, last_role: "-".to_owned(), total_tokens: 0 }
    }

    /// Counts a record of type `kind` whose usage reports `tokens`.
    pub fn add_record(&mut self, kind: Option<String>, tokens: Option<u64>)
        ensures
            final(self).triple() == tallied(
                old(self).triple(),
                match kind {
                    Some(k) => Some(k@),
                    None => None,
                },
                tokens,
            ),
    {
        if let Some(role) = message_role(&kind) {
            self.message_count = self.message_count.saturating_add(1);
            self.last_role = role;
            if let Some(n) = tokens {
                self.total_tokens = n as usize;
            }
        }
    }
}

/// Tallies the records of a session file's lines.
pub fn tally_session(lines: &Vec<String>) -> (r: SessionTally)
    ensures
        r.triple() == tally_lines(lines@),
{
    let mut t = SessionTally::new();
    let mut i: usize = 0;
    while i < lines.len()
        invariant
            i <= lines@.len(),
            t.triple() == tally_lines(lines@.subrange(0, i as int)),
        decreases lines@.len() - i,
    {
        let line = lines[i].as_str();
        let kind = json_str_at(line, "/type");
        let tokens = json_u64_at(line, "/payload/usage/total_tokens");
        t.add_record(kind, tokens);
        assert(lines@.subrange(0, i + 1).drop_last() =~= lines@.subrange(0, i as int));
        i = i + 1;
    }
    assert(lines@.subrange(0, i as int) =~= lines@);
    t
}

/// Id, directory and model of a session whose first record reports `id`,
/// `cwd` and `model`; the id falls back to the file's name and the model to
/// "unknown".
pub open spec fn header(file_name: Seq<char>, id: Option<Seq<char>>, cwd: Option<Seq<char>>, model: Option<
    Seq<char>,
>) -> (Seq<char>, Seq<char>, Seq<char>) {
    (
        match id {
            Some(s) => if s.len() > 0 { s } else { file_name },
            None => file_name,
        },
        match cwd {
            Some(c) => c,
            None => Seq::empty(),
        },
        match model {
            Some(m) => m,
            None => "unknown"@,
        },
    )
}

pub open spec fn opt_view(o: Option<String>) -> Option<Seq<char>> {
    match o {
        Some(s) => Some(s@),
        None => None,
    }
}

/// Id, directory and model of a session (see `header`).
pub fn session_header(file_name: &str, id: Option<String>, cwd: Option<String>, model: Option<String>) -> (r: (
    String,
    String,
    String,
))
    ensures
        (r.0@, r.1@, r.2@) == header(file_name@, opt_view(id), opt_view(cwd), opt_view(model)),
{
    let id = match id {
        Some(s) => if s.as_str().is_empty() {
            file_name.to_owned()
        } else {
            s
        },
        None => file_name.to_owned(),
    };
    let cwd = match cwd {
        Some(c) => c,
        None => String::new(),
    };
    let model = match model {
        Some(m) => m,
        None => "unknown".to_owned(),
    };
    (id, cwd, model)
}

/// Id, directory, message count, last role, token total and model of the
/// session file `file_name` with lines `lines`.
pub fn session_meta(file_name: &str, lines: &Vec<String>) -> (r: (String, String, usize, String, usize, String))
    ensures
        ({
            let first = if lines@.len() > 0 { lines@[0]@ } else { Seq::empty() };
            let h = if lines@.len() > 0 {
                header(
                    file_name@,
                    json_text_at(first, "/payload/id"@),
                    json_text_at(first, "/payload/cwd"@),
                    json_text_at(first, "/payload/model"@),
                )
            } else {
                header(file_name@, None, None, None)
            };
            let t = tally_lines(lines@);
            (r.0@, r.1@, r.5@) == h && (r.2, r.3@, r.4) == t
        }),
{
    let (id, cwd, model) = if lines.len() > 0 {
        let first = lines[0].as_str();
        session_header(
            file_name,
            json_str_at(first, "/payload/id"),
            json_str_at(first, "/payload/cwd"),
            json_str_at(first, "/payload/model"),
        )
    } else {
        session_header(file_name, None, None, None)
    };
    let t = tally_session(lines);
    (id, cwd, t.message_count, t.last_role, t.total_tokens, model)
}

/// The preview message of a record of type `kind` with `content` and
/// `timestamp`, when it is a message with text content.
pub open spec fn preview_entry(kind: Option<Seq<char>>, content: Option<Seq<char>>, timestamp: Option<
    Seq<char>,
>) -> Option<(Seq<char>, Seq<char>, Seq<char>)> {
    match (role_of(kind), content) {
        (Some(role), Some(c)) => Some(
            (
                role,
                c,
                match timestamp {
                    Some(t) => t,
                    None => "--:--:--"@,
                },
            ),
        ),
        _ => None,
    }
}

/// The preview message of a record of type `kind` with `content` and
/// `timestamp` (see `preview_entry`).
pub fn preview_message(kind: Option<String>, content: Option<String>, timestamp: Option<String>) -> (r:
    Option<PreviewMessage>)
    ensures
        (match r {
            Some(m) => Some((m.0@, m.1@, m.2@)),
            None => None::<(Seq<char>, Seq<char>, Seq<char>)>,
        }) == preview_entry(opt_view(kind), opt_view(content), opt_view(timestamp)),
{
    match (message_role(&kind), content) {
        (Some(role), Some(c)) => {
            let t = match timestamp {
                Some(t) => t,
                None => "--:--:--".to_owned(),
            };
            Some((role, c, t))
        },
        _ => None,
    }
}

/// The preview messages of the lines `lines`, in order.
pub open spec fn line_messages(lines: Seq<String>) -> Seq<(Seq<char>, Seq<char>, Seq<char>)>
    decreases lines.len(),
{
    if lines.len() == 0 {
        Seq::empty()
    } else {
        let l = lines.last()@;
        match preview_entry(
            json_text_at(l, "/type"@),
            json_text_at(l, "/payload/content"@),
            json_text_at(l, "/payload/timestamp"@),
        ) {
            Some(m) => line_messages(lines.drop_last()).push(m),
            None => line_messages(lines.drop_last()),
        }
    }
}

pub open spec fn message_views(v: Seq<PreviewMessage>) -> Seq<(Seq<char>, Seq<char>, Seq<char>)> {
    v.map_values(|m: PreviewMessage| (m.0@, m.1@, m.2@))
}

/// The last `n` of `s` (all of them when there are fewer).
pub open spec fn last_n<T>(s: Seq<T>, n: nat) -> Seq<T> {
    if s.len() <= n {
        s
    } else {
        s.subrange(s.len() - n, s.len() as int)
    }
}

/// The last `limit` preview messages of a session file's lines.
pub fn recent_messages(lines: &Vec<String>, limit: usize) -> (r: Vec<PreviewMessage>)
    ensures
        message_views(r@) == last_n(line_messages(lines@), limit as nat),
{
    let mut all: Vec<PreviewMessage> = Vec::new();
    let mut i: usize = 0;
    while i < lines.len()
        invariant
            i <= lines@.len(),
            message_views(all@) == line_messages(lines@.subrange(0, i as int)),
        decreases lines@.len() - i,
    {
        let line = lines[i].as_str();
        let kind = json_str_at(line, "/type");
        let content = json_str_at(line, "/payload/content");
        let timestamp = json_str_at(line, "/payload/timestamp");
        assert(lines@.subrange(0, i + 1).drop_last() =~= lines@.subrange(0, i as int));
        if let Some(m) = preview_message(kind, content, timestamp) {
            all.push(m);
            assert(message_views(all@) =~= line_messages(lines@.subrange(0, i + 1)));
        }
        i = i + 1;
    }
    assert(lines@.subrange(0, i as int) =~= lines@);
    if all.len() <= limit {
        return all;
    }
    let skip = all.len() - limit;
    let mut out: Vec<PreviewMessage> = Vec::new();
    let mut j: usize = skip;
    while j < all.len()
        invariant
            skip <= j <= all@.len(),
            out@ == all@.subrange(skip as int, j as int),
        decreases all@.len() - j,
    {
        let m = &all[j];
        out.push((m.0.clone(), m.1.clone(), m.2.clone()));
        assert(out@ =~= all@.subrange(skip as int, j + 1));
        j = j + 1;
    }
    assert(message_views(all@).subrange(skip as int, all@.len() as int) =~= message_views(
        all@.subrange(skip as int, all@.len() as int),
    ));
    out
}

} // verus!
