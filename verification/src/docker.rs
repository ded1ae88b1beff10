//! Docker registry login: the arguments it runs with, the redaction of the
//! registry token from what it prints, and the error it reports.
use vstd::prelude::*;

use crate::command::{output_success, CommandOutput};
use crate::report::{push_all, strings_of, ErrorChain};
use crate::text::{chars_of, nonempty_lines, nonempty_pieces, push_chars, push_decimal_i64, push_str, split_on, string_of, decimal_int};

verus! {

/// Whether a character is alphanumeric in the Unicode sense (`char::is_alphanumeric`).
pub uninterp spec fn char_is_alphanumeric(c: char) -> bool;

/// `char::is_alphanumeric`.
#[verifier::external_body]
fn is_alphanumeric(c: char) -> (r: bool)
    ensures
        r == char_is_alphanumeric(c),
{
    c.is_alphanumeric()
}

/// The arguments of `docker login`; the token is passed on stdin, never here.
pub open spec fn login_args(domain: Seq<char>, account: Seq<char>) -> Seq<Seq<char>> {
    seq!["login"@, domain, "--username"@, account, "--password-stdin"@]
}

pub fn docker_login_args(domain: &str, account: &str) -> (r: Vec<String>)
    ensures
        r@.len() == 5,
        forall|k: int| 0 <= k < 5 ==> #[trigger] r@[k]@ == login_args(domain@, account@)[k],
{
    let mut r: Vec<String> = Vec::new();
    r.push(string_of(&chars_of("login")));
    r.push(string_of(&chars_of(domain)));
    r.push(string_of(&chars_of("--username")));
    r.push(string_of(&chars_of(account)));
    r.push(string_of(&chars_of("--password-stdin")));
    r
}

// ----- longest token fragment -----

/// The length of the common prefix of `a` and `b`, counting from index `j`
/// (`j` when they differ there or either ends).
pub open spec fn common_prefix_from(a: Seq<char>, b: Seq<char>, j: int) -> int
    decreases a.len() - j,
{
    if 0 <= j && j < a.len() && j < b.len() && a[j] == b[j] {
        common_prefix_from(a, b, j + 1)
    } else {
        j
    }
}

/// The length of the longest common prefix of `a` and `b`.
pub open spec fn common_prefix(a: Seq<char>, b: Seq<char>) -> int {
    common_prefix_from(a, b, 0)
}

/// The longest prefix of `text` that occurs in `token` starting at one of its
/// first `n` positions.
pub open spec fn best_fragment(text: Seq<char>, token: Seq<char>, n: int) -> int
    decreases n,
{
    if n <= 0 {
        0
    } else {
        let prev = best_fragment(text, token, n - 1);
        let here = common_prefix(text, token.skip(n - 1));
        if here > prev {
            here
        } else {
            prev
        }
    }
}

/// The longest prefix of `text` that is a substring of `token`.
pub open spec fn longest_fragment(text: Seq<char>, token: Seq<char>) -> int {
    best_fragment(text, token, token.len() as int)
}

pub proof fn lemma_common_prefix_bounds(a: Seq<char>, b: Seq<char>, j: int)
    requires
        0 <= j <= a.len(),
    ensures
        j <= common_prefix_from(a, b, j) <= a.len(),
    decreases a.len() - j,
{
    if j < a.len() && j < b.len() && a[j] == b[j] {
        lemma_common_prefix_bounds(a, b, j + 1);
    }
}

pub proof fn lemma_best_fragment_bounds(text: Seq<char>, token: Seq<char>, n: int)
    ensures
        0 <= best_fragment(text, token, n) <= text.len(),
    decreases n,
{
    if n > 0 {
        lemma_best_fragment_bounds(text, token, n - 1);
        lemma_common_prefix_bounds(text, token.skip(n - 1), 0);
    }
}

/// The length of the longest prefix of `text` that occurs somewhere in the token.
pub fn longest_token_fragment_match(text: &[char], registry_token: &[char]) -> (r: usize)
    ensures
        r == longest_fragment(text@, registry_token@),
{
    let mut best: usize = 0;
    for token_start in 0..registry_token.len()
        invariant
            best == best_fragment(text@, registry_token@, token_start as int),
    {
        let ghost rest = registry_token@.skip(token_start as int);
        let mut len: usize = 0;
        while len < text.len() && token_start + len < registry_token.len()
            && text[len] == registry_token[token_start + len]
            invariant
                0 <= token_start < registry_token.len(),
                len <= text.len(),
                token_start + len <= registry_token.len(),
                rest == registry_token@.skip(token_start as int),
                common_prefix_from(text@, rest, len as int) == common_prefix(text@, rest),
            decreases text.len() - len,
        {
            assert(rest[len as int] == registry_token@[token_start + len]);
            len = len + 1;
        }
        proof {
            if len < text.len() && len < rest.len() {
                assert(rest[len as int] == registry_token@[token_start + len]);
            }
            assert(common_prefix_from(text@, rest, len as int) == len);
        }
        if len > best {
            best = len;
        }
    }
    best
}

// ----- delimited short fragments -----

/// A character bounds a fragment when it is absent (the text ends) or is not
/// alphanumeric.
pub open spec fn is_boundary(c: Option<char>) -> bool {
    match c {
        Some(ch) => !char_is_alphanumeric(ch),
        None => true,
    }
}

pub open spec fn char_at(text: Seq<char>, i: int) -> Option<char> {
    if 0 <= i < text.len() {
        Some(text[i])
    } else {
        None
    }
}

/// A non-empty fragment at `start` that has a boundary on both sides.
pub open spec fn delimited_fragment(text: Seq<char>, start: int, len: int) -> bool {
    &&& len != 0
    &&& is_boundary(if start >= 1 { char_at(text, start - 1) } else { None })
    &&& is_boundary(char_at(text, start + len))
}

pub fn is_non_alphanumeric_boundary(character: Option<char>) -> (r: bool)
    ensures
        r == is_boundary(character),
{
    match character {
        Some(c) => !is_alphanumeric(c),
        None => true,
    }
}

pub fn is_delimited_short_token_fragment(text: &[char], start: usize, match_len: usize) -> (r: bool)
    requires
        start + match_len <= usize::MAX,
    ensures
        r == delimited_fragment(text@, start as int, match_len as int),
{
    if match_len == 0 {
        return false;
    }
    let before: Option<char> = if start >= 1 && start - 1 < text.len() {
        Some(text[start - 1])
    } else {
        None
    };
    let after: Option<char> = if start + match_len < text.len() {
        Some(text[start + match_len])
    } else {
        None
    };
    is_non_alphanumeric_boundary(before) && is_non_alphanumeric_boundary(after)
}

// ----- redaction -----

/// A fragment shorter than this must be delimited to be redacted.
pub open spec fn min_fragment_len(token: Seq<char>) -> int {
    if token.len() < 4 {
        token.len() as int
    } else {
        4
    }
}

pub open spec fn redaction_marker() -> Seq<char> {
    "[REDACTED]"@
}

/// The redaction of `text` from index `i` on: at each position the longest
/// prefix that is a substring of the token is replaced by the marker when it is
/// at least `min_match_len` long, or when it is non-empty and delimited by
/// non-alphanumeric characters; otherwise one character is kept.
pub open spec fn redact_from(text: Seq<char>, token: Seq<char>, i: int) -> Seq<char>
    decreases text.len() - i,
{
    if i < 0 || i >= text.len() {
        Seq::empty()
    } else {
        let m = longest_fragment(text.skip(i), token);
        if m > 0 && (m >= min_fragment_len(token) || delimited_fragment(text, i, m)) {
            proof {
                lemma_best_fragment_bounds(text.skip(i), token, token.len() as int);
            }
            redaction_marker() + redact_from(text, token, i + m)
        } else {
            seq![text[i]] + redact_from(text, token, i + 1)
        }
    }
}

/// `text` with every fragment of the token redacted (unchanged for an empty token).
pub open spec fn redacted(text: Seq<char>, token: Seq<char>) -> Seq<char> {
    if token.len() == 0 {
        text
    } else {
        redact_from(text, token, 0)
    }
}

pub fn redact_docker_login_token_fragments(text: &str, registry_token: &str) -> (r: String)
    ensures
        r@ == redacted(text@, registry_token@),
{
    let text_chars = chars_of(text);
    let token_chars = chars_of(registry_token);
    let min_match_len: usize = if token_chars.len() < 4 { token_chars.len() } else { 4 };
    if min_match_len == 0 {
        return string_of(&text_chars);
    }
    let mut redacted: Vec<char> = Vec::new();
    let mut index: usize = 0;
    let marker = chars_of("[REDACTED]");
    while index < text_chars.len()
        invariant
            min_match_len == min_fragment_len(token_chars@),
            min_match_len > 0,
            text_chars@ == text@,
            token_chars@ == registry_token@,
            marker@ == redaction_marker(),
            index <= text_chars.len(),
            redacted@ + redact_from(text@, registry_token@, index as int) == redact_from(text@, registry_token@, 0),
        decreases text_chars.len() - index,
    {
        let (_, rest) = text_chars.as_slice().split_at(index);
        let match_len = longest_token_fragment_match(rest, &token_chars);
        proof {
            assert(rest@ =~= text@.skip(index as int));
            lemma_best_fragment_bounds(text@.skip(index as int), registry_token@, registry_token@.len() as int);
        }
        if match_len >= min_match_len || is_delimited_short_token_fragment(&text_chars, index, match_len) {
            let ghost before = redacted@;
            push_chars(&mut redacted, &marker);
            index = index + match_len;
            assert(redacted@ + redact_from(text@, registry_token@, index as int) =~= before
                + (redaction_marker() + redact_from(text@, registry_token@, index as int)));
            continue;
        }
        let ghost before = redacted@;
        redacted.push(text_chars[index]);
        index = index + 1;
        assert(redacted@ + redact_from(text@, registry_token@, index as int) =~= before
            + (seq![text@[index - 1]] + redact_from(text@, registry_token@, index as int)));
    }
    assert(redacted@ =~= redact_from(text@, registry_token@, 0));
    string_of(&redacted)
}

/// The output with the token's fragments redacted from stdout and stderr
/// (unchanged for an empty token).
pub fn sanitize_docker_login_output(output: CommandOutput, registry_token: &str) -> (r: CommandOutput)
    ensures
        r.code == output.code,
        r.stdout@ == redacted(output.stdout@, registry_token@),
        r.stderr@ == redacted(output.stderr@, registry_token@),
{
    if registry_token.is_empty() {
        return output;
    }
    CommandOutput {
        stdout: redact_docker_login_token_fragments(output.stdout.as_str(), registry_token),
        stderr: redact_docker_login_token_fragments(output.stderr.as_str(), registry_token),
        ..output
    }
}

/// The output reported when `docker login` could not be run at all.
pub fn docker_login_error_output(stderr: String) -> (r: CommandOutput)
    ensures
        r.code is None,
        r.stdout@ == Seq::<char>::empty(),
        r.stderr@ == stderr@,
{
    CommandOutput { code: None, stdout: String::new(), stderr }
}

/// Login is attempted only with both a registry domain and an account.
pub fn docker_login_required(domain: &str, account: &str) -> (r: bool)
    ensures
        r == (domain@.len() > 0 && account@.len() > 0),
{
    !domain.is_empty() && !account.is_empty()
}

pub open spec fn login_error_header(domain: Seq<char>) -> Seq<char> {
    "Registry "@ + domain + " login error"@
}

/// The chain a failed login reports: the registry header, the non-empty lines
/// of stdout, the non-empty lines of stderr, and a final "End of trace".
pub open spec fn login_error_chain(domain: Seq<char>, stdout: Seq<char>, stderr: Seq<char>) -> Seq<Seq<char>> {
    seq![login_error_header(domain)]
        + nonempty_pieces(split_on(stdout, '\n'))
        + nonempty_pieces(split_on(stderr, '\n'))
        + seq!["End of trace"@]
}

/// Decides a login from what `docker login` printed: the token's fragments are
/// redacted first; success means logged in, failure yields the error chain of
/// the redacted output.
pub fn docker_login_outcome(domain: &str, output: CommandOutput, registry_token: &str) -> (r: Result<bool, ErrorChain>)
    ensures
        output_success(output) ==> r == Ok::<bool, ErrorChain>(true),
        !output_success(output) ==> (r matches Err(e) && e.view_chain() == login_error_chain(
            domain@,
            redacted(output.stdout@, registry_token@),
            redacted(output.stderr@, registry_token@),
        )),
{
    let output = sanitize_docker_login_output(output, registry_token);
    if output.success() {
        return Ok(true);
    }
    let mut chain: Vec<String> = Vec::new();
    let mut header: Vec<char> = Vec::new();
    push_str(&mut header, "Registry ");
    push_str(&mut header, domain);
    push_str(&mut header, " login error");
    chain.push(string_of(&header));
    let ghost c1 = strings_of(chain@);
    assert(c1 =~= seq![login_error_header(domain@)]);
    let out_lines = nonempty_lines(output.stdout.as_str());
    let err_lines = nonempty_lines(output.stderr.as_str());
    proof {
        assert(strings_of(out_lines@) =~= nonempty_pieces(split_on(output.stdout@, '\n')));
        assert(strings_of(err_lines@) =~= nonempty_pieces(split_on(output.stderr@, '\n')));
    }
    push_all(&mut chain, &out_lines);
    push_all(&mut chain, &err_lines);
    let ghost c2 = chain@;
    chain.push(string_of(&chars_of("End of trace")));
    assert(strings_of(chain@) =~= strings_of(c2).push("End of trace"@));
    let ghost d = domain@;
    assert(strings_of(chain@) =~= login_error_chain(d, output.stdout@, output.stderr@));
    Err(ErrorChain { chain })
}

/// The `docker stop` command line for a container, with the optional signal
/// and grace period.
pub open spec fn stop_command(name: Seq<char>, signal: Option<Seq<char>>, time: Option<i32>) -> Seq<char> {
    "docker stop"@
        + (match signal { Some(s) => " --signal "@ + s, None => Seq::empty() })
        + (match time { Some(t) => " --time "@ + decimal_int(t as int), None => Seq::empty() })
        + " "@ + name
}

pub fn stop_container_command(container_name: &str, signal: Option<&str>, time: Option<i32>) -> (r: String)
    ensures
        r@ == stop_command(
            container_name@,
            match signal { Some(s) => Some(s@), None => None },
            time,
        ),
{
    let mut out: Vec<char> = Vec::new();
    push_str(&mut out, "docker stop");
    if let Some(s) = signal {
        push_str(&mut out, " --signal ");
        push_str(&mut out, s);
    }
    if let Some(t) = time {
        push_str(&mut out, " --time ");
        push_decimal_i64(&mut out, t as i64);
    }
    push_str(&mut out, " ");
    push_str(&mut out, container_name);
    string_of(&out)
}

/// The `docker pull` command line for an image.
pub fn pull_image_command(image: &str) -> (r: String)
    ensures
        r@ == "docker pull "@ + image@,
{
    let mut out: Vec<char> = Vec::new();
    push_str(&mut out, "docker pull ");
    push_str(&mut out, image);
    string_of(&out)
}

// ----- what redaction keeps -----

/// Position `j` of `text` is copied unchanged by the redaction that scans
/// from index `i` on (see `redact_from`).
pub open spec fn kept_from(text: Seq<char>, token: Seq<char>, i: int, j: int) -> bool
    decreases text.len() - i,
{
    if i < 0 || i >= text.len() {
        false
    } else {
        let m = longest_fragment(text.skip(i), token);
        if m > 0 && (m >= min_fragment_len(token) || delimited_fragment(text, i, m)) {
            proof {
                lemma_best_fragment_bounds(text.skip(i), token, token.len() as int);
            }
            kept_from(text, token, i + m, j)
        } else {
            j == i || kept_from(text, token, i + 1, j)
        }
    }
}

/// Position `j` of `text` is copied unchanged into the redacted text.
pub open spec fn kept_position(text: Seq<char>, token: Seq<char>, j: int) -> bool {
    token.len() > 0 && kept_from(text, token, 0, j)
}

proof fn lemma_kept_position_is_clean(text: Seq<char>, token: Seq<char>, i: int, j: int)
    requires
        kept_from(text, token, i, j),
    ensures
        0 <= j < text.len(),
        longest_fragment(text.skip(j), token) == 0 || (longest_fragment(text.skip(j), token)
            < min_fragment_len(token) && !delimited_fragment(text, j, longest_fragment(text.skip(j), token))),
    decreases text.len() - i,
{
    let m = longest_fragment(text.skip(i), token);
    lemma_best_fragment_bounds(text.skip(i), token, token.len() as int);
    if m > 0 && (m >= min_fragment_len(token) || delimited_fragment(text, i, m)) {
        lemma_kept_position_is_clean(text, token, i + m, j);
    } else if j != i {
        lemma_kept_position_is_clean(text, token, i + 1, j);
    }
}

proof fn lemma_common_prefix_at_least(a: Seq<char>, b: Seq<char>, j: int, k: int)
    requires
        0 <= j <= k <= a.len(),
        k <= b.len(),
        a.subrange(0, k) == b.subrange(0, k),
    ensures
        common_prefix_from(a, b, j) >= k,
    decreases k - j,
{
    if j < k {
        assert(a[j] == a.subrange(0, k)[j]);
        assert(b[j] == b.subrange(0, k)[j]);
        lemma_common_prefix_at_least(a, b, j + 1, k);
    } else {
        lemma_common_prefix_bounds(a, b, j);
    }
}

proof fn lemma_best_fragment_at_least(text: Seq<char>, token: Seq<char>, n: int, p: int)
    requires
        0 <= p < n,
    ensures
        best_fragment(text, token, n) >= common_prefix(text, token.skip(p)),
    decreases n,
{
    if p < n - 1 {
        lemma_best_fragment_at_least(text, token, n - 1, p);
    }
}

/// Redaction keeps no long piece of the token: from a position that is
/// copied unchanged, no run of the text that is at least `min(4, token
/// length)` long occurs anywhere in the token; and where a shorter piece of
/// the token starts there, it is not bounded by non-alphanumeric characters
/// (or the text's ends) on both sides.
pub proof fn law_redaction_keeps_no_token_piece(text: Seq<char>, token: Seq<char>, j: int)
    requires
        kept_position(text, token, j),
    ensures
        0 <= j < text.len(),
        forall|k: int, p: int|
            min_fragment_len(token) <= k && j + k <= text.len() && 0 <= p && p + k <= token.len()
                ==> #[trigger] text.subrange(j, j + k) != #[trigger] token.subrange(p, p + k),
        longest_fragment(text.skip(j), token) > 0 ==> !delimited_fragment(
            text,
            j,
            longest_fragment(text.skip(j), token),
        ),
{
    lemma_kept_position_is_clean(text, token, 0, j);
    assert forall|k: int, p: int|
        min_fragment_len(token) <= k && j + k <= text.len() && 0 <= p && p + k <= token.len()
            implies #[trigger] text.subrange(j, j + k) != #[trigger] token.subrange(p, p + k) by {
        if text.subrange(j, j + k) == token.subrange(p, p + k) {
            let t = text.skip(j);
            let u = token.skip(p);
            assert(t.subrange(0, k) =~= text.subrange(j, j + k));
            assert(u.subrange(0, k) =~= token.subrange(p, p + k));
            lemma_common_prefix_at_least(t, u, 0, k);
            lemma_best_fragment_at_least(t, token, token.len() as int, p);
        }
    }
}

/// An empty token redacts nothing.
pub proof fn law_empty_token_keeps_text(text: Seq<char>)
    ensures
        redacted(text, Seq::empty()) == text,
{
}

/// How redaction treats the piece of the token that starts at a position:
/// a piece of at least four characters, or as long as the whole token, is
/// replaced; a shorter piece is replaced only when the characters on both
/// sides of it are not alphanumeric (or the text ends there), and otherwise
/// the character at the position is copied unchanged; where no piece of the
/// token starts, the character is copied.
pub proof fn law_fragment_redaction_rules(text: Seq<char>, token: Seq<char>, i: int)
    requires
        0 <= i < text.len(),
        token.len() > 0,
    ensures
        ({
            let m = longest_fragment(text.skip(i), token);
            let before_bounds = i == 0 || !char_is_alphanumeric(text[i - 1]);
            let after_bounds = i + m >= text.len() || !char_is_alphanumeric(text[i + m]);
            &&& 0 <= m <= text.len() - i
            &&& m == 0 ==> redact_from(text, token, i) == seq![text[i]] + redact_from(text, token, i + 1)
            &&& (m >= 4 || m >= token.len()) ==> redact_from(text, token, i)
                == "[REDACTED]"@ + redact_from(text, token, i + m)
            &&& 0 < m && m < 4 && m < token.len() && before_bounds && after_bounds ==> redact_from(text, token, i)
                == "[REDACTED]"@ + redact_from(text, token, i + m)
            &&& 0 < m && m < 4 && m < token.len() && !(before_bounds && after_bounds) ==> redact_from(text, token, i)
                == seq![text[i]] + redact_from(text, token, i + 1)
        }),
{
    lemma_best_fragment_bounds(text.skip(i), token, token.len() as int);
    let m = longest_fragment(text.skip(i), token);
    if i + m < text.len() {
        assert(char_at(text, i + m) == Some(text[i + m]));
    } else {
        assert(char_at(text, i + m) is None);
    }
    if i >= 1 {
        assert(char_at(text, i - 1) == Some(text[i - 1]));
    }
}

} // verus!
