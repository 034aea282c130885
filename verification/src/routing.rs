//! Routing of raw statements between the query path and the execute path,
//! and the framing of the audit-log entry that every accepted statement gets.
//!
//! A statement whose first token after leading whitespace spells `select` in
//! any mix of cases is routed to the query path; every other statement goes
//! to the execute path. Either way the caller owes the audit log exactly one
//! fenced copy of the statement's literal text, which `route_and_log`
//! appends.

use vstd::prelude::*;
use vstd::string::StrSliceExecFns;
use vstd::string::StringExecFns;

verus! {

/// Where a raw statement is routed.
#[derive(Clone, Copy, Debug, PartialEq, Eq, Structural)]
pub enum Route {
    /// The statement reads rows; they are fetched and printed.
    Query,
    /// The statement is executed for its effect on the store.
    Execute,
}

/// The whitespace characters trimmed ahead of the first token.
pub open spec fn is_space(c: char) -> bool {
    c == ' ' || c == '\t' || c == '\n' || c == '\r'
}

/// True when the text begins with `select` in any mix of cases.
pub open spec fn starts_with_select(s: Seq<char>) -> bool {
    &&& s.len() >= 6
    &&& (s[0] == 's' || s[0] == 'S')
    &&& (s[1] == 'e' || s[1] == 'E')
    &&& (s[2] == 'l' || s[2] == 'L')
    &&& (s[3] == 'e' || s[3] == 'E')
    &&& (s[4] == 'c' || s[4] == 'C')
    &&& (s[5] == 't' || s[5] == 'T')
}

/// True when the statement, after any leading whitespace, begins with
/// `select` in any mix of cases.
pub open spec fn spec_is_select(s: Seq<char>) -> bool
    decreases s.len(),
{
    if s.len() == 0 {
        false
    } else if is_space(s[0]) {
        spec_is_select(s.drop_first())
    } else {
        starts_with_select(s)
    }
}

/// Leading whitespace does not decide the route.
proof fn lemma_skip_spaces(s: Seq<char>, i: int)
    requires
        0 <= i <= s.len(),
        forall|k: int| 0 <= k < i ==> is_space(#[trigger] s[k]),
    ensures
        spec_is_select(s) == spec_is_select(s.skip(i)),
    decreases i,
{
    if i > 0 {
        assert(is_space(s[0]));
        assert forall|k: int| 0 <= k < i - 1 implies is_space(#[trigger] s.drop_first()[k]) by {
            assert(s.drop_first()[k] == s[k + 1]);
        }
        lemma_skip_spaces(s.drop_first(), i - 1);
        assert(s.drop_first().skip(i - 1) =~= s.skip(i));
    } else {
        assert(s.skip(0) =~= s);
    }
}

fn is_space_at(s: &str, i: usize) -> (r: bool)
    requires
        i < s@.len(),
    ensures
        r == is_space(s@[i as int]),
{
    let c = s.get_char(i);
    c == ' ' || c == '\t' || c == '\n' || c == '\r'
}

/// True when the statement, after any leading whitespace, begins with
/// `select` in any mix of cases: such a statement is routed to the query
/// path, every other one to the execute path.
pub fn is_select_statement(s: &str) -> (r: bool)
    ensures
        r == spec_is_select(s@),
{
    let n = s.unicode_len();
    let mut i: usize = 0;
    while i < n
        invariant_except_break
            i <= n,
            n == s@.len(),
            forall|k: int| 0 <= k < i ==> is_space(#[trigger] s@[k]),
        ensures
            i <= n,
            n == s@.len(),
            forall|k: int| 0 <= k < i ==> is_space(#[trigger] s@[k]),
            i < n ==> !is_space(s@[i as int]),
        decreases n - i,
    {
        if !is_space_at(s, i) {
            break ;
        }
        i += 1;
    }
    proof {
        lemma_skip_spaces(s@, i as int);
    }
    if i == n {
        proof {
            assert(s@.skip(i as int) =~= Seq::<char>::empty());
        }
        return false;
    }
    proof {
        assert(s@.skip(i as int)[0] == s@[i as int]);
    }
    if n - i < 6 {
        return false;
    }
    proof {
        assert(s@.skip(i as int)[1] == s@[i as int + 1]);
        assert(s@.skip(i as int)[2] == s@[i as int + 2]);
        assert(s@.skip(i as int)[3] == s@[i as int + 3]);
        assert(s@.skip(i as int)[4] == s@[i as int + 4]);
        assert(s@.skip(i as int)[5] == s@[i as int + 5]);
    }
    let c0 = s.get_char(i);
    let c1 = s.get_char(i + 1);
    let c2 = s.get_char(i + 2);
    let c3 = s.get_char(i + 3);
    let c4 = s.get_char(i + 4);
    let c5 = s.get_char(i + 5);
    (c0 == 's' || c0 == 'S') && (c1 == 'e' || c1 == 'E') && (c2 == 'l' || c2 == 'L') && (c3 == 'e'
        || c3 == 'E') && (c4 == 'c' || c4 == 'C') && (c5 == 't' || c5 == 'T')
}

/// Route a raw statement: the query path exactly when it begins, after
/// leading whitespace, with `select` in any mix of cases.
pub fn route_statement(stmt: &str) -> (r: Route)
    ensures
        r == Route::Query <==> spec_is_select(stmt@),
        r == Route::Execute <==> !spec_is_select(stmt@),
{
    if is_select_statement(stmt) {
        Route::Query
    } else {
        Route::Execute
    }
}

/// One audit-log entry: the statement's literal text fenced as a code block,
/// newline-terminated.
pub open spec fn spec_audit_entry(stmt: Seq<char>) -> Seq<char> {
    "```\n"@ + stmt + "\n```\n"@
}

/// The audit-log entry for one accepted statement.
pub fn audit_entry(stmt: &str) -> (r: String)
    ensures
        r@ == spec_audit_entry(stmt@),
{
    let mut r = String::new();
    r.append("```\n");
    r.append(stmt);
    r.append("\n```\n");
    proof {
        assert(r@ =~= spec_audit_entry(stmt@));
    }
    r
}

/// Route a raw statement and append its audit entry to the log text: exactly
/// one fenced copy of the statement's literal text, whichever way the
/// statement is routed.
pub fn route_and_log(stmt: &str, log: &mut String) -> (r: Route)
    ensures
        r == Route::Query <==> spec_is_select(stmt@),
        r == Route::Execute <==> !spec_is_select(stmt@),
        final(log)@ == old(log)@ + spec_audit_entry(stmt@),
{
    let entry = audit_entry(stmt);
    log.append(entry.as_str());
    route_statement(stmt)
}

} // verus!
