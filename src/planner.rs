//! The planner: turns the worker's free-form answer into a list of agent roles.
use vstd::prelude::*;
use crate::error::TumixError;
use crate::text::{
    all_space, chars_of, decimal, is_space_char, prefix, push_char, push_decimal, push_str,
    string_of, take_chars, trim_range, trimmed,
};

verus! {

/// What the planning worker is asked for, after the optional task line: a
/// JSON array of roles sized to the task (the bands are advice to the worker).
pub const PLANNING_INSTRUCTIONS: &'static str = r#"基于当前对话历史中用户的需求，分析任务复杂度，设计合适数量的专业角色来协作完成。

根据任务复杂度灵活决定agent数量：
- 简单任务：2-3个agent（如单一功能实现）
- 中等任务：4-6个agent（如小型系统）
- 复杂任务：7-10个agent（如完整项目）
- 超大任务：10-15个agent（如企业级系统）

输出agent配置的JSON数组，示例格式：
[
  {
    "id": "01",
    "name": "系统架构师",
    "role": "设计整体架构和模块划分"
  },
  {
    "id": "02",
    "name": "后端工程师",
    "role": "实现核心业务逻辑"
  },
  {
    "id": "03",
    "name": "前端工程师",
    "role": "实现用户界面"
  }
]

要求：
- 根据任务复杂度灵活决定agent数量（2-15个）
- id从"01"开始连续编号（如01, 02, 03...）
- 每个角色要有明确的专业分工，避免重复
- 角色设计要符合实际项目分工逻辑
- 只输出JSON数组，不要其他内容
"#;

/// One agent role proposed by the planner.
#[derive(Clone, Debug)]
pub struct AgentConfig {
    pub id: String,
    pub name: String,
    pub role: String,
}

/// `p` occurs in `t` at position `i`.
pub open spec fn occurs_at(t: Seq<char>, p: Seq<char>, i: int) -> bool {
    0 <= i && i + p.len() <= t.len() && t.subrange(i, i + p.len()) == p
}

/// First position at or after `i` where `p` occurs in `t`.
pub open spec fn find_from(t: Seq<char>, p: Seq<char>, i: int) -> Option<int>
    decreases t.len() + 1 - i,
{
    if i < 0 || i + p.len() > t.len() {
        None
    } else if occurs_at(t, p, i) {
        Some(i)
    } else {
        find_from(t, p, i + 1)
    }
}

/// Last position below `end` that holds `c`.
pub open spec fn rfind_char(t: Seq<char>, c: char, end: int) -> Option<int>
    decreases end,
{
    if end <= 0 || end > t.len() {
        None
    } else if t[end - 1] == c {
        Some(end - 1)
    } else {
        rfind_char(t, c, end - 1)
    }
}

pub open spec fn fence() -> Seq<char> {
    seq!['`', '`', '`']
}

pub open spec fn tagged_fence() -> Seq<char> {
    seq!['`', '`', '`', 'j', 's', 'o', 'n']
}

/// The body of the first fence tagged `json`, if that fence is closed.
pub open spec fn tagged_block(t: Seq<char>) -> Option<Seq<char>> {
    match find_from(t, tagged_fence(), 0) {
        Some(s) => match find_from(t, fence(), s + 7) {
            Some(e) => Some(trimmed(t.subrange(s + 7, e))),
            None => None,
        },
        None => None,
    }
}

/// Where the body of a fence opened at `s` starts: after the first line
/// break that follows the fence (which skips a language tag), or right after
/// the fence when no line break follows.
pub open spec fn body_start(t: Seq<char>, s: int) -> int {
    match find_from(t, seq!['\n'], s + 3) {
        Some(n) => n + 1,
        None => s + 3,
    }
}

/// The body of the first fence, if it is closed.
pub open spec fn any_block(t: Seq<char>) -> Option<Seq<char>> {
    match find_from(t, fence(), 0) {
        Some(s) => match find_from(t, fence(), body_start(t, s)) {
            Some(e) => Some(trimmed(t.subrange(body_start(t, s), e))),
            None => None,
        },
        None => None,
    }
}

/// The text from the first `[` to the last `]`, when it begins with `[` and
/// ends with `]` once trimmed.
pub open spec fn bracketed(t: Seq<char>) -> Option<Seq<char>> {
    match (find_from(t, seq!['['], 0), rfind_char(t, ']', t.len() as int)) {
        (Some(a), Some(b)) => if b > a {
            let j = trimmed(t.subrange(a, b + 1));
            if j.len() > 0 && j[0] == '[' && j.last() == ']' {
                Some(j)
            } else {
                None
            }
        } else {
            None
        },
        _ => None,
    }
}

/// The JSON text found in the planner's output: a block fenced and tagged
/// `json`, else any fenced block, else the outermost brackets.
pub open spec fn extracted_json(t: Seq<char>) -> Option<Seq<char>> {
    if tagged_block(t) is Some {
        tagged_block(t)
    } else if any_block(t) is Some {
        any_block(t)
    } else {
        bracketed(t)
    }
}

fn occurs_at_exec(t: &Vec<char>, p: &Vec<char>, i: usize) -> (r: bool)
    ensures
        r == occurs_at(t@, p@, i as int),
{
    if i > t.len() || p.len() > t.len() - i {
        return false;
    }
    let mut k: usize = 0;
    while k < p.len()
        invariant
            i + p@.len() <= t@.len() <= usize::MAX,
            k <= p@.len(),
            forall|j: int| 0 <= j < k ==> t@[i + j] == p@[j],
        decreases p@.len() - k,
    {
        if t[i + k] != p[k] {
            assert(t@.subrange(i as int, i + p@.len())[k as int] != p@[k as int]);
            return false;
        }
        k = k + 1;
    }
    assert(t@.subrange(i as int, i + p@.len()) =~= p@);
    true
}

fn find_exec(t: &Vec<char>, p: &Vec<char>, from: usize) -> (r: Option<usize>)
    requires
        p@.len() > 0,
    ensures
        match r {
            Some(i) => find_from(t@, p@, from as int) == Some(i as int),
            None => find_from(t@, p@, from as int) is None,
        },
        r matches Some(i) ==> from <= i && i + p@.len() <= t@.len(),
{
    let mut i: usize = from;
    while i < t.len()
        invariant
            from <= i,
            find_from(t@, p@, from as int) == find_from(t@, p@, i as int),
        decreases t@.len() - i,
    {
        if occurs_at_exec(t, p, i) {
            return Some(i);
        }
        i = i + 1;
    }
    None
}

fn rfind_exec(t: &Vec<char>, c: char) -> (r: Option<usize>)
    ensures
        match r {
            Some(i) => rfind_char(t@, c, t@.len() as int) == Some(i as int),
            None => rfind_char(t@, c, t@.len() as int) is None,
        },
        r matches Some(i) ==> i < t@.len(),
{
    let mut end: usize = t.len();
    while end > 0
        invariant
            end <= t@.len(),
            rfind_char(t@, c, t@.len() as int) == rfind_char(t@, c, end as int),
        decreases end,
    {
        if t[end - 1] == c {
            return Some(end - 1);
        }
        end = end - 1;
    }
    None
}

/// Finds the JSON array in the planner's output (see `extracted_json`).
pub fn extract_json(text: &str) -> (r: Result<String, TumixError>)
    ensures
        match extracted_json(text@) {
            Some(j) => r matches Ok(s) && s@ == j,
            None => r matches Err(TumixError::PlanningFailed { .. }),
        },
{
    let t = chars_of(text);
    let _n = t.len();
    let fence_v: Vec<char> = vec!['`', '`', '`'];
    let tagged_v: Vec<char> = vec!['`', '`', '`', 'j', 's', 'o', 'n'];
    let newline_v: Vec<char> = vec!['\n'];
    let open_v: Vec<char> = vec!['['];
    assert(fence_v@ =~= fence());
    assert(tagged_v@ =~= tagged_fence());
    assert(newline_v@ =~= seq!['\n']);
    assert(open_v@ =~= seq!['[']);
    if let Some(s) = find_exec(&t, &tagged_v, 0) {
        if let Some(e) = find_exec(&t, &fence_v, s + 7) {
            let body = trim_range(&t, s + 7, e);
            assert(tagged_block(t@) == Some(body@));
            let out = string_of(body.as_slice());
            assert(out@ == body@);
            return Ok(out);
        }
    }
    assert(tagged_block(t@) is None);
    if let Some(s) = find_exec(&t, &fence_v, 0) {
        let after = s + 3;
        let start = match find_exec(&t, &newline_v, after) {
            Some(n) => n + 1,
            None => after,
        };
        assert(start == body_start(t@, s as int));
        if let Some(e) = find_exec(&t, &fence_v, start) {
            let body = trim_range(&t, start, e);
            assert(any_block(t@) == Some(body@));
            let out = string_of(body.as_slice());
            return Ok(out);
        }
    }
    assert(any_block(t@) is None);
    if let (Some(a), Some(b)) = (find_exec(&t, &open_v, 0), rfind_exec(&t, ']')) {
        if b > a {
            let j = trim_range(&t, a, b + 1);
            if j.len() > 0 && j[0] == '[' && j[j.len() - 1] == ']' {
                assert(bracketed(t@) == Some(j@));
                let out = string_of(j.as_slice());
                return Ok(out);
            }
        }
    }
    Err(TumixError::PlanningFailed { reason: "Could not find JSON array in output".to_owned() })
}

/// The id expected at 0-based position `i`: `i + 1` written with at least two digits.
pub open spec fn expected_id(i: nat) -> Seq<char> {
    if i + 1 < 10 {
        seq!['0'] + decimal(i + 1)
    } else {
        decimal(i + 1)
    }
}

/// The id expected at 0-based position `i`.
pub fn expected_agent_id(i: usize) -> (r: String)
    requires
        i < u64::MAX,
    ensures
        r@ == expected_id(i as nat),
{
    let n: u64 = i as u64 + 1;
    let mut s = String::new();
    if n < 10 {
        push_str(&mut s, "0");
        proof {
            reveal_strlit("0");
        }
    }
    push_decimal(&mut s, n);
    proof {
        if n < 10 {
            assert(s@ =~= seq!['0'] + decimal(n as nat));
        } else {
            assert(s@ =~= decimal(n as nat));
        }
    }
    s
}

/// An agent whose id is not the one its position calls for.
#[derive(Clone, Debug)]
pub struct IdMismatch {
    pub index: usize,
    pub found: String,
    pub expected: String,
}

impl IdMismatch {
    pub open spec fn triple(&self) -> (int, Seq<char>, Seq<char>) {
        (self.index as int, self.found@, self.expected@)
    }
}

/// The agents of a validated plan, in the planner's order, with the ids that
/// were out of sequence (reported, never rejected).
pub struct Plan {
    pub agents: Vec<AgentConfig>,
    pub warnings: Vec<IdMismatch>,
}

/// Position, id found and id expected of each agent among the first `n`
/// whose id is out of sequence, in order of position.
pub open spec fn id_mismatches(a: Seq<AgentConfig>, n: int) -> Seq<(int, Seq<char>, Seq<char>)>
    decreases n,
{
    if n <= 0 {
        Seq::empty()
    } else if a[n - 1].id@ != expected_id((n - 1) as nat) {
        id_mismatches(a, n - 1).push((n - 1, a[n - 1].id@, expected_id((n - 1) as nat)))
    } else {
        id_mismatches(a, n - 1)
    }
}

/// Checks the planner's list: an empty list fails; ids out of sequence are
/// only reported, and the order of the list stays authoritative.
pub fn validate_agents(agents: Vec<AgentConfig>) -> (r: Result<Plan, TumixError>)
    ensures
        agents@.len() == 0 <==> r matches Err(TumixError::PlanningFailed { .. }),
        agents@.len() > 0 ==> r is Ok,
        r matches Ok(p) ==> p.agents@ == agents@ && p.warnings@.map_values(
            |w: IdMismatch| w.triple(),
        ) == id_mismatches(agents@, agents@.len() as int),
{
    if agents.len() == 0 {
        return Err(TumixError::PlanningFailed { reason: "the planner returned no agents".to_owned() });
    }
    let mut warnings: Vec<IdMismatch> = Vec::new();
    let mut i: usize = 0;
    while i < agents.len()
        invariant
            i <= agents@.len(),
            warnings@.map_values(|w: IdMismatch| w.triple()) == id_mismatches(agents@, i as int),
        decreases agents@.len() - i,
    {
        let expected = expected_agent_id(i);
        if agents[i].id != expected {
            let w = IdMismatch { index: i, found: agents[i].id.clone(), expected };
            warnings.push(w);
        }
        proof {
            assert(warnings@.map_values(|w: IdMismatch| w.triple()) =~= id_mismatches(
                agents@,
                i + 1,
            ));
        }
        i = i + 1;
    }
    Ok(Plan { agents, warnings })
}

fn all_space_exec(s: &str) -> (r: bool)
    ensures
        r == all_space(s@),
{
    let v = chars_of(s);
    let mut i: usize = 0;
    while i < v.len()
        invariant
            v@ == s@,
            i <= v@.len(),
            all_space(v@.subrange(0, i as int)),
        decreases v@.len() - i,
    {
        if !is_space_char(v[i]) {
            assert(!crate::text::is_space(v@[i as int]));
            return false;
        }
        assert(all_space(v@.subrange(0, i + 1))) by {
            assert forall|k: int| 0 <= k < i + 1 implies crate::text::is_space(
                #[trigger] v@.subrange(0, i + 1)[k],
            ) by {
                if k < i {
                    assert(v@.subrange(0, i + 1)[k] == v@.subrange(0, i as int)[k]);
                }
            }
        }
        i = i + 1;
    }
    assert(v@.subrange(0, i as int) =~= v@);
    true
}

/// What the planning step makes of the worker's exit status and output.
pub open spec fn planner_outcome(success: bool, stdout: Seq<char>, stderr: Seq<char>) -> Result<
    Seq<char>,
    Seq<char>,
> {
    if all_space(stdout) && !success {
        Err("the planner failed: "@ + stderr)
    } else if all_space(stdout) {
        Err("the planner produced no output; stderr: "@ + prefix(stderr, 500))
    } else {
        match extracted_json(stdout) {
            Some(j) => Ok(j),
            None => Err("could not find a JSON array in the planner output: "@ + prefix(stdout, 500)),
        }
    }
}

/// The JSON text of the plan in the worker's output. A failure status is
/// fatal only when the output is blank.
pub fn planner_json(success: bool, stdout: &str, stderr: &str) -> (r: Result<String, TumixError>)
    ensures
        match planner_outcome(success, stdout@, stderr@) {
            Ok(j) => r matches Ok(s) && s@ == j,
            Err(m) => r matches Err(TumixError::PlanningFailed { reason }) && reason@ == m,
        },
{
    if all_space_exec(stdout) {
        if !success {
            let mut reason = "the planner failed: ".to_owned();
            push_str(&mut reason, stderr);
            return Err(TumixError::PlanningFailed { reason });
        }
        let mut reason = "the planner produced no output; stderr: ".to_owned();
        let head = take_chars(stderr, 500);
        push_str(&mut reason, head.as_str());
        return Err(TumixError::PlanningFailed { reason });
    }
    match extract_json(stdout) {
        Ok(j) => Ok(j),
        Err(_) => {
            let mut reason = "could not find a JSON array in the planner output: ".to_owned();
            let head = take_chars(stdout, 500);
            push_str(&mut reason, head.as_str());
            Err(TumixError::PlanningFailed { reason })
        },
    }
}

/// The planning prompt: a line break, the user's task when one is given,
/// then the instructions.
pub open spec fn planning_prompt_text(task: Option<Seq<char>>) -> Seq<char> {
    let task_part = match task {
        Some(t) => "用户任务："@ + t + "\n\n"@,
        None => Seq::empty(),
    };
    "\n"@ + task_part + PLANNING_INSTRUCTIONS@
}

/// The prompt of the planning worker.
pub fn planning_prompt(task: Option<&str>) -> (r: String)
    ensures
        r@ == planning_prompt_text(
            match task {
                Some(t) => Some(t@),
                None => None,
            },
        ),
{
    let mut p = "\n".to_owned();
    match task {
        Some(t) => {
            push_str(&mut p, "用户任务：");
            push_str(&mut p, t);
            push_str(&mut p, "\n\n");
        },
        None => {},
    }
    push_str(&mut p, PLANNING_INSTRUCTIONS);
    proof {
        if task is None {
            assert(p@ =~= "\n"@ + Seq::<char>::empty() + PLANNING_INSTRUCTIONS@);
        }
    }
    p
}

/// `s` with every double quote escaped by a backslash.
pub open spec fn quote_escaped(s: Seq<char>) -> Seq<char>
    decreases s.len(),
{
    if s.len() == 0 {
        Seq::empty()
    } else if s.last() == '"' {
        quote_escaped(s.drop_last()) + seq!['\\', '"']
    } else {
        quote_escaped(s.drop_last()).push(s.last())
    }
}

/// The items of `v` separated by `sep`.
pub open spec fn separated(v: Seq<Seq<char>>, sep: Seq<char>) -> Seq<char>
    decreases v.len(),
{
    if v.len() == 0 {
        Seq::empty()
    } else if v.len() == 1 {
        v[0]
    } else {
        separated(v.drop_last(), sep) + sep + v.last()
    }
}

/// Shell script that re-runs the planning command: the worker `bin` with
/// `args`, one per continued line, then the quoted `prompt`.
pub open spec fn planning_script(stamp: Seq<char>, bin: Seq<char>, args: Seq<Seq<char>>, prompt: Seq<char>) -> Seq<char> {
    "#!/bin/bash\n# Meta-agent command executed at "@ + stamp + "\n\n"@ + bin + " \\\n  "@
        + separated(args, " \\\n  "@) + " \\\n  \""@ + quote_escaped(prompt) + "\"\n"@
}

/// The debug script that re-runs the planning command (see `planning_script`).
pub fn command_script(stamp: &str, bin: &str, args: &Vec<String>, prompt: &str) -> (r: String)
    ensures
        r@ == planning_script(stamp@, bin@, crate::worker::views(args@), prompt@),
{
    let mut s = "#!/bin/bash\n# Meta-agent command executed at ".to_owned();
    push_str(&mut s, stamp);
    push_str(&mut s, "\n\n");
    push_str(&mut s, bin);
    push_str(&mut s, " \\\n  ");
    let ghost head = s@;
    let mut i: usize = 0;
    while i < args.len()
        invariant
            i <= args@.len(),
            s@ == head + separated(crate::worker::views(args@.subrange(0, i as int)), " \\\n  "@),
        decreases args@.len() - i,
    {
        let ghost v = crate::worker::views(args@.subrange(0, i + 1));
        assert(v.drop_last() =~= crate::worker::views(args@.subrange(0, i as int)));
        if i > 0 {
            push_str(&mut s, " \\\n  ");
        }
        push_str(&mut s, args[i].as_str());
        proof {
            if i == 0 {
                assert(s@ =~= head + separated(v, " \\\n  "@));
            } else {
                assert(s@ =~= head + separated(v, " \\\n  "@));
            }
        }
        i = i + 1;
    }
    assert(args@.subrange(0, i as int) =~= args@);
    push_str(&mut s, " \\\n  \"");
    let p = chars_of(prompt);
    let ghost mid = s@;
    let mut j: usize = 0;
    while j < p.len()
        invariant
            j <= p@.len(),
            p@ == prompt@,
            s@ == mid + quote_escaped(p@.subrange(0, j as int)),
        decreases p@.len() - j,
    {
        assert(p@.subrange(0, j + 1).drop_last() =~= p@.subrange(0, j as int));
        if p[j] == '"' {
            push_char(&mut s, '\\');
        }
        push_char(&mut s, p[j]);
        assert(s@ =~= mid + quote_escaped(p@.subrange(0, j + 1)));
        j = j + 1;
    }
    assert(p@.subrange(0, j as int) =~= p@);
    push_str(&mut s, "\"\n");
    s
}

} // verus!
