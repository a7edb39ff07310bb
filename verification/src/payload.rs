//! Semantic accessors over a webhook payload: the named fields each
//! decoder reads, the decimal run counters, and the repository identity
//! drawn from its two independent encodings.

use vstd::prelude::*;
use vstd::string::*;

use crate::events::RepoModel;
use crate::events::Repository;
use crate::events::RunningInfo;
use crate::json::JsonValue;
use crate::json::get_of;
use crate::json::has_field;
use crate::json::str_at;
use crate::json::str_eq;
use crate::json::str_of;
use crate::json::uint_at;
use crate::json::uint_of;

verus! {

// ------------------------------------------------------------------
// Option-carrying lookup helpers.
// ------------------------------------------------------------------

/// Lookup of `key` under an optional object.
pub open spec fn get_in(o: Option<JsonValue>, key: Seq<char>) -> Option<JsonValue> {
    match o {
        Some(v) => get_of(v, key),
        None => None,
    }
}

/// String bound to `key` under an optional object.
pub open spec fn str_in(o: Option<JsonValue>, key: Seq<char>) -> Option<Seq<char>> {
    match o {
        Some(v) => str_at(v, key),
        None => None,
    }
}

/// Number bound to `key` under an optional object.
pub open spec fn uint_in(o: Option<JsonValue>, key: Seq<char>) -> Option<u64> {
    match o {
        Some(v) => uint_at(v, key),
        None => None,
    }
}

/// A payload number usable as an identifier: it must fit the platform's
/// index type.
pub open spec fn fit_index(o: Option<u64>) -> Option<usize> {
    match o {
        Some(n) => if n as int <= usize::MAX as int {
            Some(n as usize)
        } else {
            None
        },
        None => None,
    }
}

// ------------------------------------------------------------------
// The named fields of the envelope and of the nested event object.
// ------------------------------------------------------------------

/// Top-level discriminator naming the event family.
pub open spec fn family_of(p: JsonValue) -> Option<Seq<char>> {
    str_at(p, "event_name"@)
}

/// The nested event object.
pub open spec fn event_of(p: JsonValue) -> Option<JsonValue> {
    get_of(p, "event"@)
}

/// The event's `action` field.
pub open spec fn action_of(p: JsonValue) -> Option<Seq<char>> {
    str_in(event_of(p), "action"@)
}

/// The nested issue object.
pub open spec fn issue_of(p: JsonValue) -> Option<JsonValue> {
    get_in(event_of(p), "issue"@)
}

/// The nested pull-request object.
pub open spec fn pull_request_of(p: JsonValue) -> Option<JsonValue> {
    get_in(event_of(p), "pull_request"@)
}

/// The nested comment object.
pub open spec fn comment_of(p: JsonValue) -> Option<JsonValue> {
    get_in(event_of(p), "comment"@)
}

/// The event's `changes` object.
pub open spec fn changes_of(p: JsonValue) -> Option<JsonValue> {
    get_in(event_of(p), "changes"@)
}

/// The event's legacy `changed` object, read by the title branch of the
/// update decoders.
pub open spec fn changed_of(p: JsonValue) -> Option<JsonValue> {
    get_in(event_of(p), "changed"@)
}

/// Whether the issue object carries the pull-request marker, in which
/// case an `"issues"` payload really describes pull-request activity.
pub open spec fn pr_marker(p: JsonValue) -> bool {
    match issue_of(p) {
        Some(issue) => has_field(issue, "pull_request"@),
        None => false,
    }
}

/// Whether the `changes` object carries a `body` key, which decides the
/// changed field of an update event.
pub open spec fn changes_has_body(p: JsonValue) -> bool {
    match changes_of(p) {
        Some(changes) => has_field(changes, "body"@),
        None => false,
    }
}

/// `changes.body.from`: the previous text in the body branch.
pub open spec fn changes_body_from(p: JsonValue) -> Option<Seq<char>> {
    str_in(get_in(changes_of(p), "body"@), "from"@)
}

/// `changed.body.from`: the previous text in the title branch, read
/// from the legacy path.
pub open spec fn changed_body_from(p: JsonValue) -> Option<Seq<char>> {
    str_in(get_in(changed_of(p), "body"@), "from"@)
}

/// `changes.from`: the previous text of an edited comment.
pub open spec fn changes_from(p: JsonValue) -> Option<Seq<char>> {
    str_in(changes_of(p), "from"@)
}

/// The issue's number, as an identifier.
pub open spec fn issue_id(p: JsonValue) -> Option<usize> {
    fit_index(uint_in(issue_of(p), "number"@))
}

/// The issue's title.
pub open spec fn issue_title(p: JsonValue) -> Option<Seq<char>> {
    str_in(issue_of(p), "title"@)
}

/// The issue's body.
pub open spec fn issue_body(p: JsonValue) -> Option<Seq<char>> {
    str_in(issue_of(p), "body"@)
}

/// The issue author's login.
pub open spec fn issue_user(p: JsonValue) -> Option<Seq<char>> {
    str_in(get_in(issue_of(p), "user"@), "login"@)
}

/// The pull request's number, as an identifier.
pub open spec fn pull_request_id(p: JsonValue) -> Option<usize> {
    fit_index(uint_in(pull_request_of(p), "number"@))
}

/// The pull request's title.
pub open spec fn pull_request_title(p: JsonValue) -> Option<Seq<char>> {
    str_in(pull_request_of(p), "title"@)
}

/// The pull request's body.
pub open spec fn pull_request_body(p: JsonValue) -> Option<Seq<char>> {
    str_in(pull_request_of(p), "body"@)
}

/// The pull-request author's login.
pub open spec fn pull_request_user(p: JsonValue) -> Option<Seq<char>> {
    str_in(get_in(pull_request_of(p), "user"@), "login"@)
}

/// Login of the account owning the merge proposal's source repository.
pub open spec fn head_user(p: JsonValue) -> Option<Seq<char>> {
    str_in(get_in(get_in(pull_request_of(p), "head"@), "user"@), "login"@)
}

/// Name of the merge proposal's source repository.
pub open spec fn head_repo_name(p: JsonValue) -> Option<Seq<char>> {
    str_in(get_in(get_in(pull_request_of(p), "head"@), "repo"@), "name"@)
}

/// Top-level source branch ref.
pub open spec fn head_ref_of(p: JsonValue) -> Option<Seq<char>> {
    str_at(p, "head_ref"@)
}

/// Top-level target branch ref.
pub open spec fn base_ref_of(p: JsonValue) -> Option<Seq<char>> {
    str_at(p, "base_ref"@)
}

/// The comment's id, as an identifier.
pub open spec fn comment_id(p: JsonValue) -> Option<usize> {
    fit_index(uint_in(comment_of(p), "id"@))
}

/// The commenting user's login.
pub open spec fn comment_user(p: JsonValue) -> Option<Seq<char>> {
    str_in(get_in(comment_of(p), "user"@), "login"@)
}

/// The comment's current body.
pub open spec fn comment_body(p: JsonValue) -> Option<Seq<char>> {
    str_in(comment_of(p), "body"@)
}

// ------------------------------------------------------------------
// Decimal run counters.
// ------------------------------------------------------------------

/// Value of a digit sequence read as a decimal numeral.
pub open spec fn dec_val(s: Seq<char>) -> int
    decreases s.len(),
{
    if s.len() == 0 {
        0
    } else {
        dec_val(s.drop_last()) * 10 + (s.last() as u32 - 48)
    }
}

/// Whether every character of `s` is a decimal digit.
pub open spec fn all_digits(s: Seq<char>) -> bool {
    forall|i: int| 0 <= i < s.len() ==> 48 <= #[trigger] (s[i] as u32) <= 57
}

/// A decimal numeral as the run counters transmit it: an optional `+`
/// sign, then at least one digit, the whole value fitting `usize`.
pub open spec fn parse_dec(s: Seq<char>) -> Option<usize> {
    let t = if s.len() > 0 && s[0] == '+' {
        s.drop_first()
    } else {
        s
    };
    if t.len() > 0 && all_digits(t) && dec_val(t) <= usize::MAX as int {
        Some(dec_val(t) as usize)
    } else {
        None
    }
}

proof fn lemma_dec_val_nonneg(s: Seq<char>)
    requires
        all_digits(s),
    ensures
        dec_val(s) >= 0,
    decreases s.len(),
{
    if s.len() > 0 {
        assert(all_digits(s.drop_last()));
        lemma_dec_val_nonneg(s.drop_last());
    }
}

proof fn lemma_dec_val_prefix(s: Seq<char>, k: int)
    requires
        all_digits(s),
        0 <= k <= s.len(),
    ensures
        dec_val(s.take(k)) <= dec_val(s),
    decreases s.len() - k,
{
    if k < s.len() {
        assert(all_digits(s.take(k))) by {
            assert(forall|i: int| 0 <= i < k ==> s.take(k)[i] == s[i]);
        }
        lemma_dec_val_nonneg(s.take(k));
        assert(s.take(k + 1).drop_last() =~= s.take(k));
        assert(s.take(k + 1).last() == s[k]);
        lemma_dec_val_prefix(s, k + 1);
    } else {
        assert(s.take(k) =~= s);
    }
}

/// Parse a decimal numeral, exactly as [`parse_dec`] describes it.
pub fn parse_dec_str(s: &str) -> (r: Option<usize>)
    ensures
        r == parse_dec(s@),
{
    let n = s.unicode_len();
    if n == 0 {
        return None;
    }
    let first = s.get_char(0);
    let start: usize = if first == '+' {
        1
    } else {
        0
    };
    let ghost t: Seq<char> = s@.subrange(start as int, n as int);
    proof {
        if first == '+' {
            assert(t =~= s@.drop_first());
        } else {
            assert(t =~= s@);
        }
    }
    if start == n {
        return None;
    }
    let mut acc: usize = 0;
    let mut i: usize = start;
    while i < n
        invariant
            start <= i <= n,
            n == s@.len(),
            start < n,
            start <= 1,
            t == s@.subrange(start as int, n as int),
            parse_dec(s@) == (if t.len() > 0 && all_digits(t) && dec_val(t) <= usize::MAX as int {
                Some(dec_val(t) as usize)
            } else {
                None::<usize>
            }),
            all_digits(t.take(i - start)),
            acc == dec_val(t.take(i - start)),
        decreases n - i,
    {
        let c = s.get_char(i);
        let d32 = c as u32;
        proof {
            assert(t[i - start] == s@[i as int]);
        }
        if d32 < 48 || d32 > 57 {
            proof {
                assert(!all_digits(t));
            }
            return None;
        }
        let d = (d32 - 48) as usize;
        let stepped: Option<usize> = match acc.checked_mul(10) {
            Some(m) => m.checked_add(d),
            None => None,
        };
        proof {
            assert(t.take(i + 1 - start).drop_last() =~= t.take(i - start));
            assert(t.take(i + 1 - start).last() == t[i - start]);
        }
        match stepped {
            Some(next) => {
                acc = next;
                i = i + 1;
                proof {
                    assert(all_digits(t.take(i - start))) by {
                        assert(forall|j: int|
                            0 <= j < i - start ==> t.take(i - start)[j] == t[j]);
                    }
                }
            },
            None => {
                // The counter exceeds the index range: every longer
                // digit string only grows the value.
                proof {
                    assert(dec_val(t.take(i + 1 - start)) > usize::MAX as int);
                    if all_digits(t) {
                        lemma_dec_val_prefix(t, i + 1 - start);
                    }
                }
                return None;
            },
        }
    }
    proof {
        assert(t.take(i - start) =~= t);
    }
    Some(acc)
}

// ------------------------------------------------------------------
// Repository identity.
// ------------------------------------------------------------------

/// Index of the first `/` in `s` at or after `i`, or `s.len()` if none.
pub open spec fn slash_from(s: Seq<char>, i: int) -> int
    decreases s.len() - i,
{
    if i < 0 || i >= s.len() {
        s.len() as int
    } else if s[i] == '/' {
        i
    } else {
        slash_from(s, i + 1)
    }
}

/// The first `/`-separated segment of `s`: the text before the first
/// `/`. None when `s` has no `/` at all, that is, fewer than two
/// segments.
pub open spec fn first_segment(s: Seq<char>) -> Option<Seq<char>> {
    let i = slash_from(s, 0);
    if i == s.len() {
        None
    } else {
        Some(s.subrange(0, i))
    }
}

/// The second `/`-separated segment of `s`: the text between the first
/// `/` and the next one (or the end). None when `s` has no `/` at all,
/// that is, fewer than two segments.
pub open spec fn second_segment(s: Seq<char>) -> Option<Seq<char>> {
    let i = slash_from(s, 0);
    if i == s.len() {
        None
    } else {
        Some(s.subrange(i + 1, slash_from(s, i + 1)))
    }
}

/// The repository's full `owner/name` string at the top level.
pub open spec fn full_repo_name(p: JsonValue) -> Option<Seq<char>> {
    str_at(p, "repository"@)
}

/// The owner's login, from the nested repository object.
pub open spec fn repo_owner(p: JsonValue) -> Option<Seq<char>> {
    str_in(get_in(get_in(event_of(p), "repository"@), "owner"@), "login"@)
}

/// The repository identity a payload describes: owner from the nested
/// repository object, name as the second path segment of the top-level
/// full-name string. The two encodings must agree: the text before the
/// full name's first `/` must equal the nested owner login. None when
/// either encoding is absent or malformed, or when they disagree.
pub open spec fn repo_of(p: JsonValue) -> Option<RepoModel> {
    match (repo_owner(p), full_repo_name(p)) {
        (Some(owner), Some(full)) => match (first_segment(full), second_segment(full)) {
            (Some(lead), Some(name)) => if lead == owner {
                Some(RepoModel { owner, name })
            } else {
                None
            },
            _ => None,
        },
        _ => None,
    }
}

/// The run metadata a payload carries: nothing when neither counter is
/// present, both counters when both parse as decimal numerals, and no
/// result at all (malformed) otherwise.
pub open spec fn run_of(p: JsonValue) -> Option<Option<RunningInfo>> {
    if !has_field(p, "run_id"@) && !has_field(p, "run_number"@) {
        Some(None)
    } else {
        match (str_at(p, "run_id"@), str_at(p, "run_number"@)) {
            (Some(a), Some(b)) => match (parse_dec(a), parse_dec(b)) {
                (Some(run_id), Some(run_number)) => Some(Some(RunningInfo { run_id, run_number })),
                _ => None,
            },
            _ => None,
        }
    }
}

/// Index of the first `/` in `s` at or after `from`, as an exec search.
fn find_slash(s: &str, from: usize) -> (r: usize)
    requires
        from <= s@.len(),
    ensures
        r == slash_from(s@, from as int),
        from <= r <= s@.len(),
{
    let n = s.unicode_len();
    let mut i: usize = from;
    while i < n
        invariant
            from <= i <= n,
            n == s@.len(),
            slash_from(s@, from as int) == slash_from(s@, i as int),
        decreases n - i,
    {
        if s.get_char(i) == '/' {
            return i;
        }
        i = i + 1;
    }
    n
}

/// Extract the repository identity, exactly as [`repo_of`] describes it.
pub fn extract_repo_info(p: &JsonValue) -> (r: Option<Repository>)
    ensures
        match r {
            Some(repo) => repo_of(*p) == Some(repo@),
            None => repo_of(*p) is None,
        },
{
    let event = match p.get("event") {
        Some(v) => v,
        None => {
            return None;
        },
    };
    let repository = match event.get("repository") {
        Some(v) => v,
        None => {
            return None;
        },
    };
    let owner_obj = match repository.get("owner") {
        Some(v) => v,
        None => {
            return None;
        },
    };
    let owner = match owner_obj.get_str("login") {
        Some(s) => s,
        None => {
            return None;
        },
    };
    let full = match p.get_str("repository") {
        Some(s) => s,
        None => {
            return None;
        },
    };
    let i = find_slash(full, 0);
    if i == full.unicode_len() {
        return None;
    }
    let lead = full.substring_char(0, i);
    if !str_eq(lead, owner) {
        return None;
    }
    let j = find_slash(full, i + 1);
    let name = full.substring_char(i + 1, j);
    Some(Repository { owner: owner.to_owned(), name: name.to_owned() })
}

/// Extract the run metadata, exactly as [`run_of`] describes it.
pub fn extract_running_info(p: &JsonValue) -> (r: Option<Option<RunningInfo>>)
    ensures
        r == run_of(*p),
{
    let has_id = p.has("run_id");
    let has_number = p.has("run_number");
    if !has_id && !has_number {
        return Some(None);
    }
    let id_str = match p.get_str("run_id") {
        Some(s) => s,
        None => {
            return None;
        },
    };
    let number_str = match p.get_str("run_number") {
        Some(s) => s,
        None => {
            return None;
        },
    };
    let run_id = match parse_dec_str(id_str) {
        Some(v) => v,
        None => {
            return None;
        },
    };
    let run_number = match parse_dec_str(number_str) {
        Some(v) => v,
        None => {
            return None;
        },
    };
    Some(Some(RunningInfo { run_id, run_number }))
}

} // verus!
