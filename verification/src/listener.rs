//! Incoming webhooks: the branch a push names must match the branch the
//! resource follows, `refs/heads/` and surrounding whitespace aside.
use vstd::prelude::*;

use crate::report::ErrorChain;
use crate::text::{chars_of, has_prefix, push_chars, push_str, starts_with, string_of};

verus! {

/// Whether a character is white space in the Unicode sense (the White_Space
/// property that `char::is_whitespace` tests): tab through carriage return,
/// space, next line, no-break space, ogham space mark, the spaces from en quad
/// to hair space, line and paragraph separators, narrow no-break space,
/// medium mathematical space and ideographic space.
pub open spec fn char_is_whitespace(c: char) -> bool {
    let u = c as u32;
    (0x09 <= u && u <= 0x0D) || u == 0x20 || u == 0x85 || u == 0xA0 || u == 0x1680
        || (0x2000 <= u && u <= 0x200A) || u == 0x2028 || u == 0x2029 || u == 0x202F
        || u == 0x205F || u == 0x3000
}

/// Whether a character is Unicode white space (as `char::is_whitespace`).
pub fn is_whitespace(c: char) -> (r: bool)
    ensures
        r == char_is_whitespace(c),
{
    let u = c as u32;
    (0x09 <= u && u <= 0x0D) || u == 0x20 || u == 0x85 || u == 0xA0 || u == 0x1680
        || (0x2000 <= u && u <= 0x200A) || u == 0x2028 || u == 0x2029 || u == 0x202F
        || u == 0x205F || u == 0x3000
}

pub open spec fn trim_start_seq(s: Seq<char>) -> Seq<char>
    decreases s.len(),
{
    if s.len() > 0 && char_is_whitespace(s[0]) {
        trim_start_seq(s.drop_first())
    } else {
        s
    }
}

pub open spec fn trim_end_seq(s: Seq<char>) -> Seq<char>
    decreases s.len(),
{
    if s.len() > 0 && char_is_whitespace(s.last()) {
        trim_end_seq(s.drop_last())
    } else {
        s
    }
}

/// `str::trim`: leading and trailing white space removed.
pub open spec fn trimmed(s: Seq<char>) -> Seq<char> {
    trim_end_seq(trim_start_seq(s))
}

/// The characters of `s` without leading and trailing white space.
pub fn trim(s: &[char]) -> (r: Vec<char>)
    ensures
        r@ == trimmed(s@),
{
    let n = s.len();
    let mut i: usize = 0;
    assert(s@.skip(0) =~= s@);
    while i < n && is_whitespace(s[i])
        invariant
            n == s.len(),
            i <= n,
            trim_start_seq(s@) == trim_start_seq(s@.skip(i as int)),
        decreases n - i,
    {
        assert(s@.skip(i as int).drop_first() =~= s@.skip(i + 1));
        i = i + 1;
    }
    assert(trim_start_seq(s@.skip(i as int)) == s@.skip(i as int));
    assert(s@.skip(i as int) =~= s@.subrange(i as int, n as int));
    let mut j: usize = n;
    while j > i && is_whitespace(s[j - 1])
        invariant
            n == s.len(),
            i <= j <= n,
            trim_end_seq(s@.subrange(i as int, n as int)) == trim_end_seq(s@.subrange(i as int, j as int)),
        decreases j,
    {
        assert(s@.subrange(i as int, j as int).drop_last() =~= s@.subrange(i as int, j - 1));
        j = j - 1;
    }
    assert(trim_end_seq(s@.subrange(i as int, j as int)) == s@.subrange(i as int, j as int));
    let mut r: Vec<char> = Vec::new();
    let mut k: usize = i;
    while k < j
        invariant
            i <= k <= j <= n,
            n == s.len(),
            r@ == s@.subrange(i as int, k as int),
        decreases j - k,
    {
        r.push(s[k]);
        assert(r@ =~= s@.subrange(i as int, k + 1));
        k = k + 1;
    }
    r
}

/// A branch as named in a webhook or in a resource: trimmed, and without a
/// leading `refs/heads/`.
pub open spec fn normalized_branch(branch: Seq<char>) -> Seq<char> {
    let t = trimmed(branch);
    if has_prefix(t, "refs/heads/"@) {
        t.skip(("refs/heads/"@).len() as int)
    } else {
        t
    }
}

pub fn normalize_branch(branch: &str) -> (r: String)
    ensures
        r@ == normalized_branch(branch@),
{
    let cs = chars_of(branch);
    let t = trim(&cs);
    let prefix = chars_of("refs/heads/");
    if starts_with(&t, &prefix) {
        let mut rest: Vec<char> = Vec::new();
        let mut k: usize = prefix.len();
        assert(t@.skip(prefix@.len() as int) =~= t@.subrange(prefix@.len() as int, t@.len() as int));
        while k < t.len()
            invariant
                prefix.len() <= k <= t.len(),
                rest@ == t@.subrange(prefix.len() as int, k as int),
            decreases t.len() - k,
        {
            rest.push(t[k]);
            assert(rest@ =~= t@.subrange(prefix.len() as int, k + 1));
            k = k + 1;
        }
        string_of(&rest)
    } else {
        string_of(&t)
    }
}

pub open spec fn branch_mismatch_message(branch: Seq<char>, expected: Seq<char>) -> Seq<char> {
    "request branch '"@ + branch + "' does not match expected '"@ + expected + "'"@
}

/// Accepts a push to `branch` for a resource following `expected` when both
/// name the same branch once normalized.
pub fn check_branch(branch: &str, expected: &str) -> (r: Result<(), ErrorChain>)
    ensures
        normalized_branch(branch@) == normalized_branch(expected@) ==> r is Ok,
        normalized_branch(branch@) != normalized_branch(expected@) ==> (r matches Err(e)
            && e.view_chain() == seq![
            branch_mismatch_message(normalized_branch(branch@), normalized_branch(expected@)),
        ]),
{
    let b = normalize_branch(branch);
    let e = normalize_branch(expected);
    if b == e {
        Ok(())
    } else {
        let mut m: Vec<char> = Vec::new();
        push_str(&mut m, "request branch '");
        push_str(&mut m, b.as_str());
        push_str(&mut m, "' does not match expected '");
        push_str(&mut m, e.as_str());
        push_str(&mut m, "'");
        Err(ErrorChain::single(string_of(&m)))
    }
}

/// The string member `key` of the JSON object `body`, when `body` parses as
/// JSON and that member is a string.
pub uninterp spec fn json_string_member(body: Seq<char>, key: Seq<char>) -> Option<Seq<char>>;

/// Parses `body` as JSON (`serde_json::from_str` into a `serde_json::Value`)
/// and reads the member `key` (`Value::get`) when it is a string. The result
/// depends on the two strings alone; the contract only names it.
#[verifier::external_body]
fn json_string_field(body: &str, key: &str) -> (r: Option<String>)
    ensures
        match r {
            Some(v) => json_string_member(body@, key@) == Some(v@),
            None => json_string_member(body@, key@) is None,
        },
{
    match serde_json::from_str::<serde_json::Value>(body) {
        Ok(value) => match value.get(key) {
            Some(serde_json::Value::String(member)) => Some(member.clone()),
            _ => None,
        },
        Err(_) => None,
    }
}

pub open spec fn missing_ref_message() -> Seq<char> {
    "webhook body has no string 'ref' field"@
}

/// The GitHub webhook integration.
pub struct Github;

impl Github {
    /// The branch a GitHub push names: the `ref` member of its JSON body.
    pub fn extract_branch(body: &str) -> (r: Result<String, ErrorChain>)
        ensures
            json_string_member(body@, "ref"@) matches Some(b) ==> (r matches Ok(s) && s@ == b),
            json_string_member(body@, "ref"@) is None ==> (r matches Err(e) && e.view_chain() == seq![
                missing_ref_message(),
            ]),
    {
        match json_string_field(body, "ref") {
            Some(branch) => Ok(branch),
            None => Err(ErrorChain::single(string_of(&chars_of("webhook body has no string 'ref' field")))),
        }
    }

    /// Checks that a GitHub push is for the expected branch.
    pub fn verify_branch(body: &str, expected: &str) -> (r: Result<(), ErrorChain>)
        ensures
            json_string_member(body@, "ref"@) is None ==> (r matches Err(e) && e.view_chain() == seq![
                missing_ref_message(),
            ]),
            json_string_member(body@, "ref"@) matches Some(b) ==> (
            (normalized_branch(b) == normalized_branch(expected@) ==> r is Ok)
            && (normalized_branch(b) != normalized_branch(expected@) ==> (r matches Err(e)
                && e.view_chain() == seq![
                branch_mismatch_message(normalized_branch(b), normalized_branch(expected@)),
            ]))),
    {
        let branch = Github::extract_branch(body)?;
        check_branch(branch.as_str(), expected)
    }
}

// ----- laws of branch names -----

proof fn lemma_trim_start_suffix(s: Seq<char>)
    ensures
        trim_start_seq(s).len() <= s.len(),
        trim_start_seq(s) == s.skip(s.len() - trim_start_seq(s).len()),
        trim_start_seq(s).len() > 0 ==> !char_is_whitespace(trim_start_seq(s)[0]),
    decreases s.len(),
{
    if s.len() > 0 && char_is_whitespace(s[0]) {
        lemma_trim_start_suffix(s.drop_first());
        let t = trim_start_seq(s.drop_first());
        assert(s.drop_first().skip(s.drop_first().len() - t.len()) =~= s.skip(s.len() - t.len()));
    } else {
        assert(s.skip(0) =~= s);
    }
}

proof fn lemma_trim_end_prefix(s: Seq<char>)
    ensures
        trim_end_seq(s).len() <= s.len(),
        trim_end_seq(s) == s.take(trim_end_seq(s).len() as int),
        trim_end_seq(s).len() > 0 ==> !char_is_whitespace(trim_end_seq(s).last()),
    decreases s.len(),
{
    if s.len() > 0 && char_is_whitespace(s.last()) {
        lemma_trim_end_prefix(s.drop_last());
        let t = trim_end_seq(s.drop_last());
        assert(s.drop_last().take(t.len() as int) =~= s.take(t.len() as int));
    } else {
        assert(s.take(s.len() as int) =~= s);
    }
}

/// A trimmed name has no white space at either end, and trimming leaves it.
proof fn lemma_trimmed_ends(x: Seq<char>)
    requires
        trimmed(x) == x,
    ensures
        trim_start_seq(x) == x,
        trim_end_seq(x) == x,
        x.len() > 0 ==> !char_is_whitespace(x[0]) && !char_is_whitespace(x.last()),
{
    lemma_trim_start_suffix(x);
    lemma_trim_end_prefix(trim_start_seq(x));
    assert(trim_start_seq(x).len() == x.len());
    assert(x.skip(0) =~= x);
}

proof fn lemma_trim_keeps_clean_ends(s: Seq<char>)
    requires
        s.len() > 0,
        !char_is_whitespace(s[0]),
        !char_is_whitespace(s.last()),
    ensures
        trimmed(s) == s,
{
}

/// Branch names match whatever the surrounding white space and with or
/// without `refs/heads/`: a name that is already trimmed and does not itself
/// start with `refs/heads/` normalizes to itself, also when written as
/// `refs/heads/<name>` or with white space around it.
pub proof fn law_branch_forms_normalize_alike(x: Seq<char>)
    requires
        trimmed(x) == x,
        !has_prefix(x, "refs/heads/"@),
    ensures
        normalized_branch("refs/heads/"@ + x) == x,
        normalized_branch(seq![' ', ' '] + x + seq!['\n']) == x,
        normalized_branch(x) == x,
{
    reveal_strlit("refs/heads/");
    let p = "refs/heads/"@;
    assert(p.len() == 11);
    lemma_trimmed_ends(x);
    // the prefixed form has no white space at its ends
    let a = p + x;
    assert(a[0] == 'r');
    if x.len() > 0 {
        assert(a.last() == x.last());
    } else {
        assert(a.last() == '/');
    }
    lemma_trim_keeps_clean_ends(a);
    assert(has_prefix(a, p)) by {
        assert(a.subrange(0, 11) =~= p);
    }
    assert(a.skip(11) =~= x);
    // the padded form loses exactly its padding
    let b = seq![' ', ' '] + x + seq!['\n'];
    let b1 = x + seq!['\n'];
    assert(char_is_whitespace(' '));
    assert(char_is_whitespace('\n'));
    assert(b[0] == ' ');
    assert(trim_start_seq(b) == trim_start_seq(b.drop_first()));
    assert(b.drop_first()[0] == ' ');
    assert(trim_start_seq(b.drop_first()) == trim_start_seq(b.drop_first().drop_first()));
    assert(b.drop_first().drop_first() =~= b1);
    assert(trim_start_seq(b) == trim_start_seq(b1));
    if x.len() > 0 {
        assert(b1[0] == x[0]);
        assert(trim_start_seq(b1) == b1);
    } else {
        assert(b1[0] == '\n');
        assert(b1.drop_first() =~= Seq::<char>::empty());
        assert(trim_start_seq(b1) == trim_start_seq(b1.drop_first()));
        assert(trim_start_seq(b1) =~= Seq::<char>::empty());
    }
    assert(b1.drop_last() =~= x);
    assert(trim_end_seq(b1) == trim_end_seq(x));
    assert(trimmed(b) == x);
}

} // verus!
