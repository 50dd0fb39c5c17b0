//! The hypervisor query: the script sent to the management shell and the
//! handling of what comes back.
//!
//! The shell itself is run by the caller; this module builds the one-line
//! query for a VM name and trims the captured output down to the IP text.
//! The expansion of the target path, which must happen before any file
//! operation, lives here as well.
//! The VM name is interpolated without escaping, so a name holding a single
//! quote breaks the query — a documented limitation.

use vstd::prelude::*;
use vstd::string::StringExecFns;
use vstd::string::StrSliceExecFns;
use crate::errors::RunError;

verus! {

/// The query text for a VM name: selects the first network adapter IP
/// address of the named VM.
pub open spec fn spec_query_script(vm: Seq<char>) -> Seq<char> {
    "(Get-VM -Name '"@ + vm + "').NetworkAdapters.IPAddresses[0]"@
}

/// Builds the query exactly as `spec_query_script` states it.
pub fn build_query_script(vm: &str) -> (s: String)
    ensures
        s@ == spec_query_script(vm@),
{
    let mut s: String = "(Get-VM -Name '".to_owned();
    s.append(vm);
    s.append("').NetworkAdapters.IPAddresses[0]");
    s
}

/// A whitespace character: one of the code points with Unicode's
/// White_Space property, the set `str::trim` removes.
pub open spec fn is_ws_char(c: char) -> bool {
    c == '\u{0009}' || c == '\u{000A}' || c == '\u{000B}' || c == '\u{000C}' || c == '\u{000D}'
        || c == '\u{0020}' || c == '\u{0085}' || c == '\u{00A0}' || c == '\u{1680}'
        || c == '\u{2000}' || c == '\u{2001}' || c == '\u{2002}' || c == '\u{2003}'
        || c == '\u{2004}' || c == '\u{2005}' || c == '\u{2006}' || c == '\u{2007}'
        || c == '\u{2008}' || c == '\u{2009}' || c == '\u{200A}' || c == '\u{2028}'
        || c == '\u{2029}' || c == '\u{202F}' || c == '\u{205F}' || c == '\u{3000}'
}

/// `s` without its leading whitespace.
pub open spec fn trim_start_rec(s: Seq<char>) -> Seq<char>
    decreases s.len(),
{
    if s.len() > 0 && is_ws_char(s[0]) {
        trim_start_rec(s.drop_first())
    } else {
        s
    }
}

/// `s` without its trailing whitespace.
pub open spec fn trim_end_rec(s: Seq<char>) -> Seq<char>
    decreases s.len(),
{
    if s.len() > 0 && is_ws_char(s[s.len() - 1]) {
        trim_end_rec(s.drop_last())
    } else {
        s
    }
}

/// `s` without leading and trailing whitespace.
pub open spec fn spec_trim(s: Seq<char>) -> Seq<char> {
    trim_end_rec(trim_start_rec(s))
}

/// Dropping a whitespace prefix does not change the trimmed front.
proof fn lemma_trim_start_skip(s: Seq<char>, k: int)
    requires
        0 <= k <= s.len(),
        forall|i: int| 0 <= i < k ==> is_ws_char(s[i]),
    ensures
        trim_start_rec(s) == trim_start_rec(s.subrange(k, s.len() as int)),
    decreases k,
{
    if k > 0 {
        assert(s.drop_first() =~= s.subrange(1, s.len() as int));
        lemma_trim_start_skip(s.drop_first(), k - 1);
        assert(s.drop_first().subrange(k - 1, s.drop_first().len() as int) =~= s.subrange(
            k,
            s.len() as int,
        ));
    } else {
        assert(s.subrange(0, s.len() as int) =~= s);
    }
}

/// Dropping a whitespace suffix does not change the trimmed back.
proof fn lemma_trim_end_take(s: Seq<char>, k: int)
    requires
        0 <= k <= s.len(),
        forall|i: int| k <= i < s.len() ==> is_ws_char(s[i]),
    ensures
        trim_end_rec(s) == trim_end_rec(s.subrange(0, k)),
    decreases s.len() - k,
{
    if k < s.len() {
        assert(is_ws_char(s[s.len() - 1]));
        assert(s.drop_last() =~= s.subrange(0, s.len() - 1));
        lemma_trim_end_take(s.drop_last(), k);
        assert(s.drop_last().subrange(0, k) =~= s.subrange(0, k));
    } else {
        assert(s.subrange(0, s.len() as int) =~= s);
    }
}

/// Returns whether `c` has the White_Space property.
fn is_ws(c: char) -> (b: bool)
    ensures
        b == is_ws_char(c),
{
    c == '\u{0009}' || c == '\u{000A}' || c == '\u{000B}' || c == '\u{000C}' || c == '\u{000D}'
        || c == '\u{0020}' || c == '\u{0085}' || c == '\u{00A0}' || c == '\u{1680}'
        || c == '\u{2000}' || c == '\u{2001}' || c == '\u{2002}' || c == '\u{2003}'
        || c == '\u{2004}' || c == '\u{2005}' || c == '\u{2006}' || c == '\u{2007}'
        || c == '\u{2008}' || c == '\u{2009}' || c == '\u{200A}' || c == '\u{2028}'
        || c == '\u{2029}' || c == '\u{202F}' || c == '\u{205F}' || c == '\u{3000}'
}

/// `s` with leading and trailing whitespace removed, exactly as `spec_trim`
/// states it.
pub fn trim_ws(s: &str) -> (r: String)
    ensures
        r@ == spec_trim(s@),
{
    let n = s.unicode_len();
    let mut start: usize = 0;
    while start < n && is_ws(s.get_char(start))
        invariant
            0 <= start <= n == s@.len(),
            forall|i: int| 0 <= i < start ==> is_ws_char(s@[i]),
        decreases n - start,
    {
        start = start + 1;
    }
    let mut end: usize = n;
    while end > start && is_ws(s.get_char(end - 1))
        invariant
            start <= end <= n == s@.len(),
            forall|i: int| end <= i < n ==> is_ws_char(s@[i]),
        decreases end,
    {
        end = end - 1;
    }
    let r = s.substring_char(start, end).to_owned();
    proof {
        lemma_trim_start_skip(s@, start as int);
        let t = s@.subrange(start as int, n as int);
        if start < n {
            assert(!is_ws_char(t[0]));
        }
        assert(trim_start_rec(t) == t);
        lemma_trim_end_take(t, end - start);
        assert(t.subrange(0, end - start) =~= s@.subrange(start as int, end as int));
        let u = s@.subrange(start as int, end as int);
        if end > start {
            assert(u[u.len() - 1] == s@[end - 1]);
            assert(!is_ws_char(u[u.len() - 1]));
        }
        assert(trim_end_rec(u) == u);
    }
    r
}

/// The IP text of a query's captured output: the output trimmed, and the
/// empty string when the shell produced no output at all. No check is made
/// that the text is in fact an IP address.
pub fn extract_ip(stdout: Option<String>) -> (r: String)
    ensures
        r@ == spec_trim(
            match stdout {
                Some(s) => s@,
                None => Seq::<char>::empty(),
            },
        ),
{
    match stdout {
        Some(s) => trim_ws(s.as_str()),
        None => {
            proof {
                assert(trim_start_rec(Seq::<char>::empty()) =~= Seq::<char>::empty());
                assert(trim_end_rec(Seq::<char>::empty()) =~= Seq::<char>::empty());
            }
            String::new()
        },
    }
}

/// Relies on `shellexpand::full`: expands a leading `~` to the user's home
/// directory and each `$VAR` or `${VAR}` reference to that variable's value.
/// A path with no leading `~` and no `$` is returned unchanged. A reference
/// to a variable that is not set fails, before any file operation; such a
/// failure can only come from a `$` in the path. A path that begins with `~`
/// and holds no `$` cannot fail, and comes back either unchanged (when no
/// home directory is available, or the `~` names another user) or as the
/// home directory followed by the rest of the path. What `~` and `$VAR`
/// expand to depends on the environment, so no more is stated.
#[verifier::external_body]
pub fn expand_path(input: &str) -> (r: Result<String, RunError>)
    ensures
        match r {
            Ok(s) => {
                &&& (input@.len() > 0 && input@[0] == '~') || input@.contains('$') || s@
                    == input@
                &&& input@.len() > 0 && input@[0] == '~' && !input@.contains('$') ==> (s@
                    == input@ || exists|h: Seq<char>| s@ == h + input@.skip(1))
            },
            Err(e) => e == RunError::PathExpansionFailure && input@.contains('$'),
        },
{
    match shellexpand::full(input) {
        Ok(s) => Ok(s.into_owned()),
        Err(_) => Err(RunError::PathExpansionFailure),
    }
}

} // verus!
