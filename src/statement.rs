use vstd::prelude::*;
use vstd::string::{StrSliceExecFns, StringExecFns};

verus! {

/// A statement batch run in the namespace `ns` and database `db` of the store.
pub open spec fn scoped_sql(ns: Seq<char>, db: Seq<char>, body: Seq<char>) -> Seq<char> {
    "USE NS "@ + ns + " DB "@ + db + "; "@ + body
}

/// Prefixes `body` with the switch to namespace `ns` and database `db`, so that
/// the scope travels with the statements in one round trip.
pub fn scoped(ns: &str, db: &str, body: &str) -> (r: String)
    ensures
        r@ == scoped_sql(ns@, db@, body@),
{
    let mut s = String::from_str("USE NS ");
    s.append(ns);
    s.append(" DB ");
    s.append(db);
    s.append("; ");
    s.append(body);
    s
}

/// How a character is written inside a single-quoted string of a statement.
pub open spec fn escape_char(c: char) -> Seq<char> {
    if c == '\'' {
        seq!['\\', '\'']
    } else if c == '\\' {
        seq!['\\', '\\']
    } else {
        seq![c]
    }
}

/// Text written so that, inside single quotes, it reads back unchanged.
pub open spec fn escaped(s: Seq<char>) -> Seq<char>
    decreases s.len(),
{
    if s.len() == 0 {
        Seq::empty()
    } else {
        escaped(s.drop_last()) + escape_char(s.last())
    }
}

/// A character written as it is.
pub open spec fn plain(c: char) -> bool {
    c != '\'' && c != '\\'
}

proof fn lemma_escaped_plain_run(s: Seq<char>, start: int, j: int)
    requires
        0 <= start <= j <= s.len(),
        forall|k: int| start <= k < j ==> plain(#[trigger] s[k]),
    ensures
        escaped(s.subrange(0, j)) == escaped(s.subrange(0, start)) + s.subrange(start, j),
    decreases j - start,
{
    if j > start {
        lemma_escaped_plain_run(s, start, j - 1);
        let t = s.subrange(0, j);
        assert(t.drop_last() =~= s.subrange(0, j - 1));
        assert(plain(s[j - 1]));
        assert(s.subrange(start, j) =~= s.subrange(start, j - 1) + seq![s[j - 1]]);
    } else {
        assert(s.subrange(start, j) =~= Seq::<char>::empty());
    }
}

/// Escapes quotes and backslashes of `s` for a single-quoted string.
pub fn escape_quoted(s: &str) -> (r: String)
    ensures
        r@ == escaped(s@),
{
    let n = s.unicode_len();
    let mut r = String::new();
    let mut start: usize = 0;
    let mut i: usize = 0;
    while i < n
        invariant
            n == s@.len(),
            start <= i <= n,
            r@ == escaped(s@.subrange(0, start as int)),
            forall|k: int| start <= k < i ==> plain(#[trigger] s@[k]),
        decreases n - i,
    {
        let c = s.get_char(i);
        if c == '\'' || c == '\\' {
            r.append(s.substring_char(start, i));
            proof {
                lemma_escaped_plain_run(s@, start as int, i as int);
                reveal_strlit("\\'");
                reveal_strlit("\\\\");
                assert(s@.subrange(0, i + 1).drop_last() =~= s@.subrange(0, i as int));
            }
            if c == '\'' {
                r.append("\\'");
            } else {
                r.append("\\\\");
            }
            start = i + 1;
        }
        i = i + 1;
    }
    r.append(s.substring_char(start, n));
    proof {
        lemma_escaped_plain_run(s@, start as int, n as int);
        assert(s@.subrange(0, n as int) =~= s@);
    }
    r
}

/// Every event of a tenant.
pub const SELECT_EVENTS: &'static str = "SELECT * FROM events;";

/// The record bound to `$b_id`.
pub const SELECT_RECORD: &'static str = "SELECT * FROM $b_id;";

/// Replaces the record bound to `$b_id` by the content bound to `$b_content`.
pub const REPLACE_RECORD: &'static str = "UPDATE $b_id CONTENT $b_content;";

/// Runs the script bound to `$b_script` through the tenant's own procedure.
pub const RUN_SCRIPT: &'static str = "fn::on_cron($b_script);";

/// Reads every event of the tenant.
pub fn select_events_sql(center: &str, project: &str) -> (r: String)
    ensures
        r@ == scoped_sql(center@, project@, SELECT_EVENTS@),
{
    scoped(center, project, SELECT_EVENTS)
}

/// Reads one event of the tenant.
pub fn select_event_sql(center: &str, project: &str) -> (r: String)
    ensures
        r@ == scoped_sql(center@, project@, SELECT_RECORD@),
{
    scoped(center, project, SELECT_RECORD)
}

/// Writes one event of the tenant back.
pub fn update_event_sql(center: &str, project: &str) -> (r: String)
    ensures
        r@ == scoped_sql(center@, project@, REPLACE_RECORD@),
{
    scoped(center, project, REPLACE_RECORD)
}

/// Runs an event's script in the tenant.
pub fn event_execute_sql(center: &str, project: &str) -> (r: String)
    ensures
        r@ == scoped_sql(center@, project@, RUN_SCRIPT@),
{
    scoped(center, project, RUN_SCRIPT)
}

} // verus!
