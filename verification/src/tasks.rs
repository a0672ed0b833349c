//! The task record served by the mobile companion API, and the pure rules
//! that normalize its fields and order its listings. Storage and HTTP are
//! plain I/O that the unverified shell performs; the rules live here.

use vstd::prelude::*;
use vstd::string::{StrSliceExecFns, StringExecFns};
use crate::strutil::str_eq;

verus! {

/// One task, as stored and served. Optional time fields are omitted from
/// serialized output when absent; the shell owns that encoding.
#[derive(Debug, Clone)]
pub struct Todo {
    pub id: String,
    pub content: String,
    pub status: String,
    pub reminder_time: Option<String>,
    pub start_time: Option<String>,
    pub end_time: Option<String>,
    pub importance: String,
    pub group_id: Option<String>,
    pub sort_order: i64,
}

/// The normalized importance of a stored or requested value: the English
/// and Chinese words for "urgent" and "important" map to their canonical
/// forms, everything else to "normal".
pub open spec fn spec_norm_importance(s: Seq<char>) -> Seq<char> {
    if s == "urgent"@ || s == "紧急"@ {
        "urgent"@
    } else if s == "important"@ || s == "重要"@ {
        "important"@
    } else {
        "normal"@
    }
}

/// Normalize a requested importance value to one of the three canonical
/// words; an absent value means "normal".
pub fn norm_importance(s: Option<&String>) -> (r: &'static str)
    ensures
        s matches Some(v) ==> r@ == spec_norm_importance(v@),
        s is None ==> r@ == "normal"@,
{
    match s {
        Some(v) => {
            let vs = v.as_str();
            if str_eq(vs, "urgent") || str_eq(vs, "紧急") {
                "urgent"
            } else if str_eq(vs, "important") || str_eq(vs, "重要") {
                "important"
            } else {
                "normal"
            }
        },
        None => "normal",
    }
}

/// The normalized status of a stored or requested value: "completed" stands,
/// everything else is "pending".
pub open spec fn spec_todo_status(s: Seq<char>) -> Seq<char> {
    if s == "completed"@ {
        "completed"@
    } else {
        "pending"@
    }
}

/// Normalize a requested status to "completed" or "pending".
pub fn todo_status(s: &str) -> (r: &'static str)
    ensures
        r@ == spec_todo_status(s@),
{
    if str_eq(s, "completed") {
        "completed"
    } else {
        "pending"
    }
}

/// The ORDER BY clause a listing uses for a requested sort key: importance
/// first, deadline first, or the comprehensive default that weighs deadline,
/// then importance.
pub open spec fn spec_order_by_clause(sort: Seq<char>) -> Seq<char> {
    if sort == "importance"@ {
        "ORDER BY CASE importance WHEN 'urgent' THEN 0 WHEN 'important' THEN 1 ELSE 2 END ASC, sort_order ASC, id ASC"@
    } else if sort == "deadline"@ {
        "ORDER BY CASE WHEN end_time IS NULL THEN 1 ELSE 0 END ASC, end_time ASC, sort_order ASC, id ASC"@
    } else {
        "ORDER BY CASE WHEN end_time IS NULL THEN 1 ELSE 0 END ASC, end_time ASC, sort_order ASC, CASE importance WHEN 'urgent' THEN 0 WHEN 'important' THEN 1 ELSE 2 END ASC, id ASC"@
    }
}

/// The ORDER BY clause for a requested sort key.
pub fn order_by_clause(sort: &str) -> (r: &'static str)
    ensures
        r@ == spec_order_by_clause(sort@),
{
    if str_eq(sort, "importance") {
        "ORDER BY CASE importance WHEN 'urgent' THEN 0 WHEN 'important' THEN 1 ELSE 2 END ASC, sort_order ASC, id ASC"
    } else if str_eq(sort, "deadline") {
        "ORDER BY CASE WHEN end_time IS NULL THEN 1 ELSE 0 END ASC, end_time ASC, sort_order ASC, id ASC"
    } else {
        "ORDER BY CASE WHEN end_time IS NULL THEN 1 ELSE 0 END ASC, end_time ASC, sort_order ASC, CASE importance WHEN 'urgent' THEN 0 WHEN 'important' THEN 1 ELSE 2 END ASC, id ASC"
    }
}

/// A partial update of one task: every present field is written, every
/// absent one left alone.
#[derive(Debug, Clone)]
pub struct TodoPatch {
    pub content: Option<String>,
    pub status: Option<String>,
    pub start_time: Option<String>,
    pub end_time: Option<String>,
    pub importance: Option<String>,
    pub group_id: Option<String>,
}

/// Whether a patch writes anything at all.
pub open spec fn spec_has_update(p: TodoPatch) -> bool {
    ||| p.content is Some
    ||| p.status is Some
    ||| p.start_time is Some
    ||| p.end_time is Some
    ||| p.importance is Some
    ||| p.group_id is Some
}

/// The SET list of the update statement a patch produces: one `field = ?`
/// clause per present field, comma-separated, in this fixed order.
pub open spec fn spec_update_set_list(p: TodoPatch) -> Seq<char> {
    let s0 = "UPDATE todos SET "@;
    let s1 = match p.content {
        Some(_) => s0 + "content = ?"@,
        None => s0,
    };
    let a1 = p.content is Some;
    let s2 = match p.status {
        Some(_) => if a1 {
            (s1 + ", "@) + "status = ?"@
        } else {
            s1 + "status = ?"@
        },
        None => s1,
    };
    let a2 = a1 || p.status is Some;
    let s3 = match p.start_time {
        Some(_) => if a2 {
            (s2 + ", "@) + "start_time = ?"@
        } else {
            s2 + "start_time = ?"@
        },
        None => s2,
    };
    let a3 = a2 || p.start_time is Some;
    let s4 = match p.end_time {
        Some(_) => if a3 {
            (s3 + ", "@) + "end_time = ?"@
        } else {
            s3 + "end_time = ?"@
        },
        None => s3,
    };
    let a4 = a3 || p.end_time is Some;
    let s5 = match p.importance {
        Some(_) => if a4 {
            (s4 + ", "@) + "importance = ?"@
        } else {
            s4 + "importance = ?"@
        },
        None => s4,
    };
    let a5 = a4 || p.importance is Some;
    match p.group_id {
        Some(_) => if a5 {
            (s5 + ", "@) + "group_id = ?"@
        } else {
            s5 + "group_id = ?"@
        },
        None => s5,
    }
}

/// The values bound to the statement's placeholders, in clause order, with
/// status and importance normalized exactly as a direct write would be.
pub open spec fn spec_update_binds(p: TodoPatch) -> Seq<Seq<char>> {
    let b0 = Seq::<Seq<char>>::empty();
    let b1 = match p.content {
        Some(c) => b0.push(c@),
        None => b0,
    };
    let b2 = match p.status {
        Some(s) => b1.push(spec_todo_status(s@)),
        None => b1,
    };
    let b3 = match p.start_time {
        Some(v) => b2.push(v@),
        None => b2,
    };
    let b4 = match p.end_time {
        Some(v) => b3.push(v@),
        None => b3,
    };
    let b5 = match p.importance {
        Some(v) => b4.push(spec_norm_importance(v@)),
        None => b4,
    };
    match p.group_id {
        Some(v) => b5.push(v@),
        None => b5,
    }
}

/// Build the update statement and its bind values for a patch, or nothing
/// when the patch writes no field (the caller then just reads the row back).
pub fn build_update_query(p: &TodoPatch) -> (r: Option<(String, Vec<String>)>)
    ensures
        (r is Some) <==> spec_has_update(*p),
        r matches Some(q) ==> {
            &&& q.0@ == spec_update_set_list(*p) + " WHERE id = ?"@
            &&& q.1@.len() == spec_update_binds(*p).len()
            &&& forall|i: int|
                0 <= i < q.1@.len() ==> (#[trigger] q.1@[i])@ == spec_update_binds(*p)[i]
        },
{
    let mut sql = String::from_str("UPDATE todos SET ");
    let mut binds: Vec<String> = Vec::new();
    let mut any = false;
    if let Some(c) = &p.content {
        sql.append("content = ?");
        binds.push(c.clone());
        any = true;
    }
    if let Some(s) = &p.status {
        if any {
            sql.append(", ");
        }
        sql.append("status = ?");
        binds.push(todo_status(s.as_str()).to_owned());
        any = true;
    }
    if let Some(v) = &p.start_time {
        if any {
            sql.append(", ");
        }
        sql.append("start_time = ?");
        binds.push(v.clone());
        any = true;
    }
    if let Some(v) = &p.end_time {
        if any {
            sql.append(", ");
        }
        sql.append("end_time = ?");
        binds.push(v.clone());
        any = true;
    }
    if let Some(v) = &p.importance {
        if any {
            sql.append(", ");
        }
        sql.append("importance = ?");
        binds.push(norm_importance(Some(v)).to_owned());
        any = true;
    }
    if let Some(v) = &p.group_id {
        if any {
            sql.append(", ");
        }
        sql.append("group_id = ?");
        binds.push(v.clone());
        any = true;
    }
    if !any {
        return None;
    }
    sql.append(" WHERE id = ?");
    Some((sql, binds))
}

/// How one character of a suggestion query is escaped for a LIKE pattern:
/// the wildcards get a backslash, everything else stands as it is.
pub open spec fn spec_escape_like_char(c: char) -> Seq<char> {
    if c == '%' {
        seq!['\\', '%']
    } else if c == '_' {
        seq!['\\', '_']
    } else {
        seq![c]
    }
}

/// A suggestion query with both LIKE wildcards escaped.
pub open spec fn spec_escape_like(s: Seq<char>) -> Seq<char>
    decreases s.len(),
{
    if s.len() == 0 {
        Seq::empty()
    } else {
        spec_escape_like_char(s[0]) + spec_escape_like(s.drop_first())
    }
}

proof fn lemma_escape_like_push(s: Seq<char>, c: char)
    ensures
        spec_escape_like(s.push(c)) == spec_escape_like(s) + spec_escape_like_char(c),
    decreases s.len(),
{
    let p = s.push(c);
    if s.len() == 0 {
        assert(p[0] == c);
        assert(p.drop_first() =~= Seq::<char>::empty());
        assert(spec_escape_like(p.drop_first()) =~= Seq::<char>::empty());
        assert(spec_escape_like(p) =~= spec_escape_like_char(c));
        assert(spec_escape_like(s) =~= Seq::<char>::empty());
        assert(spec_escape_like(s) + spec_escape_like_char(c) =~= spec_escape_like_char(c));
    } else {
        assert(p[0] == s[0]);
        assert(p.drop_first() =~= s.drop_first().push(c));
        lemma_escape_like_push(s.drop_first(), c);
        assert(spec_escape_like(p) =~= spec_escape_like_char(s[0]) + (spec_escape_like(
            s.drop_first(),
        ) + spec_escape_like_char(c)));
        assert(spec_escape_like_char(s[0]) + (spec_escape_like(s.drop_first())
            + spec_escape_like_char(c)) =~= (spec_escape_like_char(s[0]) + spec_escape_like(
            s.drop_first(),
        )) + spec_escape_like_char(c));
    }
}

/// The LIKE pattern that matches every stored content containing the query:
/// the query with its wildcards escaped, wrapped in a pair of wildcards.
pub fn like_pattern(q: &str) -> (r: String)
    ensures
        r@ == seq!['%'] + spec_escape_like(q@) + seq!['%'],
{
    proof {
        reveal_strlit("%");
        reveal_strlit("\\%");
        reveal_strlit("\\_");
    }
    let mut out = String::from_str("%");
    let n = q.unicode_len();
    let mut i: usize = 0;
    while i < n
        invariant
            i <= n,
            n == q@.len(),
            out@ == seq!['%'] + spec_escape_like(q@.take(i as int)),
        decreases n - i,
    {
        let c = q.get_char(i);
        if c == '%' {
            out.append("\\%");
            proof {
                reveal_strlit("\\%");
            }
        } else if c == '_' {
            out.append("\\_");
            proof {
                reveal_strlit("\\_");
            }
        } else {
            let piece = q.substring_char(i, i + 1);
            out.append(piece);
            proof {
                assert(piece@ =~= seq![q@[i as int]]);
            }
        }
        proof {
            lemma_escape_like_push(q@.take(i as int), q@[i as int]);
            assert(q@.take(i + 1 as int) =~= q@.take(i as int).push(q@[i as int]));
            assert(seq!['%'] + spec_escape_like(q@.take(i + 1 as int)) =~= (seq!['%']
                + spec_escape_like(q@.take(i as int))) + spec_escape_like_char(q@[i as int]));
        }
        i = i + 1;
    }
    proof {
        assert(q@.take(n as int) =~= q@);
    }
    out.append("%");
    proof {
        reveal_strlit("%");
        assert(out@ =~= seq!['%'] + spec_escape_like(q@) + seq!['%']);
    }
    out
}

} // verus!
