//! Commands sent to the running instance over its named pipe: the text is
//! split into tokens (a double-quoted run of at least one char, or a run of
//! non-white-space chars; surrounding double quotes are stripped), the first
//! token names the command and the others are its arguments.
use crate::profile::Profile;
use crate::text::{chars_of, is_white_space, is_whitespace, lowercase, to_lowercase};
use vstd::prelude::*;

verus! {

/// The first index at or after `k` that holds a double quote, or the length.
pub open spec fn next_quote(s: Seq<char>, k: int) -> int
    decreases s.len() - k,
{
    if k < 0 || k >= s.len() {
        s.len() as int
    } else if s[k] == '"' {
        k
    } else {
        next_quote(s, k + 1)
    }
}

/// The first index at or after `k` that holds white space, or the length.
pub open spec fn run_end(s: Seq<char>, k: int) -> int
    decreases s.len() - k,
{
    if k < 0 || k >= s.len() {
        s.len() as int
    } else if is_white_space(s[k]) {
        k
    } else {
        run_end(s, k + 1)
    }
}

/// A quoted token starts at `i`: a double quote, at least one other char, and
/// the closing double quote.
pub open spec fn quoted_at(s: Seq<char>, i: int) -> bool {
    &&& s[i] == '"'
    &&& next_quote(s, i + 1) < s.len()
    &&& next_quote(s, i + 1) > i + 1
}

/// The end of the token that starts at `i`.
pub open spec fn token_end(s: Seq<char>, i: int) -> int {
    if quoted_at(s, i) {
        next_quote(s, i + 1) + 1
    } else {
        run_end(s, i)
    }
}

/// The first index in `[k, e)` that holds no double quote, or `e`.
pub open spec fn lead_end(s: Seq<char>, k: int, e: int) -> int
    decreases e - k,
{
    if k >= e {
        e
    } else if s[k] == '"' {
        lead_end(s, k + 1, e)
    } else {
        k
    }
}

/// The end of `[p, k)` once the double quotes at its end are dropped.
pub open spec fn trail_start(s: Seq<char>, p: int, k: int) -> int
    decreases k - p,
{
    if k <= p {
        p
    } else if s[k - 1] == '"' {
        trail_start(s, p, k - 1)
    } else {
        k
    }
}

/// The chars `s[a..b]` without the double quotes at either end.
pub open spec fn trimmed(s: Seq<char>, a: int, b: int) -> Seq<char> {
    let p = lead_end(s, a, b);
    s.subrange(p, trail_start(s, p, b))
}

pub proof fn lemma_next_quote_bounds(s: Seq<char>, k: int)
    requires
        0 <= k,
    ensures
        k <= next_quote(s, k) || k > s.len(),
        next_quote(s, k) <= s.len(),
    decreases s.len() - k,
{
    if k < s.len() && s[k] != '"' {
        lemma_next_quote_bounds(s, k + 1);
    }
}

pub proof fn lemma_run_end_bounds(s: Seq<char>, k: int)
    requires
        0 <= k,
    ensures
        k <= run_end(s, k) || k > s.len(),
        run_end(s, k) <= s.len(),
    decreases s.len() - k,
{
    if k < s.len() && !is_white_space(s[k]) {
        lemma_run_end_bounds(s, k + 1);
    }
}

pub proof fn lemma_token_end_bounds(s: Seq<char>, i: int)
    requires
        0 <= i < s.len(),
        !is_white_space(s[i]),
    ensures
        i < token_end(s, i) <= s.len(),
{
    lemma_next_quote_bounds(s, i + 1);
    lemma_run_end_bounds(s, i + 1);
}

/// The tokens of `s` from index `i` on.
pub open spec fn tokens_from(s: Seq<char>, i: int) -> Seq<Seq<char>>
    decreases s.len() - i,
{
    if i < 0 || i >= s.len() {
        Seq::empty()
    } else if is_white_space(s[i]) {
        tokens_from(s, i + 1)
    } else {
        let e = token_end(s, i);
        proof {
            lemma_token_end_bounds(s, i);
        }
        seq![trimmed(s, i, e)] + tokens_from(s, e)
    }
}

/// The tokens of a command text.
pub open spec fn tokens(s: Seq<char>) -> Seq<Seq<char>> {
    tokens_from(s, 0)
}

pub open spec fn string_views(v: Seq<String>) -> Seq<Seq<char>> {
    v.map_values(|t: String| t@)
}

fn scan_next_quote(v: &Vec<char>, k: usize) -> (r: usize)
    ensures
        r == next_quote(v@, k as int),
{
    let mut j = k;
    if j > v.len() {
        return v.len();
    }
    while j < v.len()
        invariant
            k <= j <= v@.len(),
            next_quote(v@, k as int) == next_quote(v@, j as int),
        decreases v@.len() - j,
    {
        if v[j] == '"' {
            return j;
        }
        j = j + 1;
    }
    j
}

fn scan_run_end(v: &Vec<char>, k: usize) -> (r: usize)
    requires
        k <= v@.len(),
    ensures
        r == run_end(v@, k as int),
{
    let mut j = k;
    while j < v.len()
        invariant
            k <= j <= v@.len(),
            run_end(v@, k as int) == run_end(v@, j as int),
        decreases v@.len() - j,
    {
        if is_whitespace(v[j]) {
            return j;
        }
        j = j + 1;
    }
    j
}

fn scan_lead_end(v: &Vec<char>, a: usize, b: usize) -> (r: usize)
    requires
        a <= b <= v@.len(),
    ensures
        r == lead_end(v@, a as int, b as int),
        a <= r <= b,
{
    let mut k = a;
    while k < b
        invariant
            a <= k <= b <= v@.len(),
            lead_end(v@, a as int, b as int) == lead_end(v@, k as int, b as int),
        decreases b - k,
    {
        if v[k] != '"' {
            return k;
        }
        k = k + 1;
    }
    k
}

fn scan_trail_start(v: &Vec<char>, p: usize, b: usize) -> (r: usize)
    requires
        p <= b <= v@.len(),
    ensures
        r == trail_start(v@, p as int, b as int),
        p <= r <= b,
{
    let mut k = b;
    while k > p
        invariant
            p <= k <= b <= v@.len(),
            trail_start(v@, p as int, b as int) == trail_start(v@, p as int, k as int),
        decreases k - p,
    {
        if v[k - 1] != '"' {
            return k;
        }
        k = k - 1;
    }
    k
}

/// Splits a command text into its tokens.
pub fn tokenize_command(input: &str) -> (r: Vec<String>)
    ensures
        string_views(r@) == tokens(input@),
{
    let v = chars_of(input);
    let n = v.len();
    let mut out: Vec<String> = Vec::new();
    let mut i: usize = 0;
    while i < n
        invariant
            v@ == input@,
            n == v@.len(),
            i <= n,
            string_views(out@) + tokens_from(v@, i as int) == tokens(v@),
        decreases n - i,
    {
        if is_whitespace(v[i]) {
            i = i + 1;
        } else {
            proof {
                lemma_token_end_bounds(v@, i as int);
            }
            let mut e: usize;
            let q = if i + 1 <= n { scan_next_quote(&v, i + 1) } else { n };
            if v[i] == '"' && q < n && q > i + 1 {
                e = q + 1;
            } else {
                e = scan_run_end(&v, i);
            }
            assert(e == token_end(v@, i as int));
            let p = scan_lead_end(&v, i, e);
            let t = scan_trail_start(&v, p, e);
            let tok = input.substring_char(p, t).to_owned();
            assert(tok@ == trimmed(v@, i as int, e as int));
            let ghost before = string_views(out@);
            out.push(tok);
            assert(string_views(out@) =~= before.push(tok@));
            assert(before.push(tok@) + tokens_from(v@, e as int) =~= before + (seq![tok@] + tokens_from(v@, e as int)));
            i = e;
        }
    }
    out
}

proof fn lemma_next_quote_skips(s: Seq<char>, k: int, q: int)
    requires
        0 <= k <= q < s.len(),
        s[q] == '"',
        forall|j: int| k <= j < q ==> s[j] != '"',
    ensures
        next_quote(s, k) == q,
    decreases q - k,
{
    if k < q {
        lemma_next_quote_skips(s, k + 1, q);
    }
}

/// A text made of one argument in double quotes (at least one char, no double
/// quote inside) is that one argument, without its quotes, even when it holds
/// white space.
pub proof fn lemma_quoted_argument(t: Seq<char>)
    requires
        t.len() > 0,
        forall|j: int| 0 <= j < t.len() ==> t[j] != '"',
    ensures
        tokens(seq!['"'] + t + seq!['"']) == seq![t],
{
    let s = seq!['"'] + t + seq!['"'];
    let n = s.len() as int;
    assert(s[0] == '"');
    assert(s[n - 1] == '"');
    assert forall|j: int| 1 <= j < n - 1 implies s[j] != '"' by {
        assert(s[j] == t[j - 1]);
    }
    lemma_next_quote_skips(s, 1, n - 1);
    assert(quoted_at(s, 0));
    assert(token_end(s, 0) == n);
    assert(s[1] == t[0]);
    assert(lead_end(s, 0, n) == 1) by {
        assert(lead_end(s, 1, n) == 1);
    }
    assert(s[n - 2] == t[t.len() - 1]);
    assert(trail_start(s, 1, n) == n - 1) by {
        assert(trail_start(s, 1, n - 1) == n - 1);
    }
    assert(trimmed(s, 0, n) =~= t);
    assert(tokens_from(s, n) == Seq::<Seq<char>>::empty());
    assert(tokens_from(s, 0) =~= seq![t]);
}

proof fn lemma_run_end_skips(s: Seq<char>, k: int, e: int)
    requires
        0 <= k <= e < s.len(),
        is_white_space(s[e]),
        forall|j: int| k <= j < e ==> !is_white_space(s[j]),
    ensures
        run_end(s, k) == e,
    decreases e - k,
{
    if k < e {
        lemma_run_end_skips(s, k + 1, e);
    }
}

/// `apply-profile "<name>"` is the command name followed by the name, whatever
/// white space the name holds (the name has at least one char and no double
/// quote).
pub proof fn lemma_apply_profile_command(t: Seq<char>)
    requires
        t.len() > 0,
        forall|j: int| 0 <= j < t.len() ==> t[j] != '"',
    ensures
        tokens("apply-profile"@ + seq![' '] + (seq!['"'] + t + seq!['"'])) == seq!["apply-profile"@, t],
{
    reveal_strlit("apply-profile");
    let c = "apply-profile"@;
    let s = c + seq![' '] + (seq!['"'] + t + seq!['"']);
    let n = s.len() as int;
    assert(c.len() == 13);
    assert forall|j: int| 0 <= j < 13 implies s[j] == c[j] && !is_white_space(#[trigger] s[j]) && s[j] != '"' by {
        assert(s[j] == c[j]);
    }
    assert(s[13] == ' ');
    lemma_run_end_skips(s, 0, 13);
    assert(!quoted_at(s, 0));
    assert(token_end(s, 0) == 13);
    assert(lead_end(s, 0, 13) == 0);
    assert(trail_start(s, 0, 13) == 13);
    assert(trimmed(s, 0, 13) =~= c);
    assert(tokens_from(s, 13) == tokens_from(s, 14));
    assert(s[14] == '"');
    assert(s[n - 1] == '"');
    assert forall|j: int| 15 <= j < n - 1 implies s[j] != '"' by {
        assert(s[j] == t[j - 15]);
    }
    lemma_next_quote_skips(s, 15, n - 1);
    assert(quoted_at(s, 14));
    assert(token_end(s, 14) == n);
    assert(s[15] == t[0]);
    assert(lead_end(s, 14, n) == 15) by {
        assert(lead_end(s, 15, n) == 15);
    }
    assert(s[n - 2] == t[t.len() - 1]);
    assert(trail_start(s, 15, n) == n - 1) by {
        assert(trail_start(s, 15, n - 1) == n - 1);
    }
    assert(trimmed(s, 14, n) =~= t);
    assert(tokens_from(s, n) == Seq::<Seq<char>>::empty());
    assert(tokens_from(s, 14) =~= seq![t]);
    assert(tokens_from(s, 0) =~= seq![c, t]);
}

/// A command received over the pipe.
#[derive(Debug, PartialEq, Eq)]
pub enum IpcCommand {
    /// No token at all: nothing to do.
    Empty,
    /// Show and focus the main window.
    Show,
    /// Apply the profile with this name; the name is in lower case.
    ApplyProfile { name: String },
    /// `apply-profile` without a profile name.
    MissingProfileName,
    /// Any other command: ignored.
    Other,
}

/// The command that a token sequence stands for.
pub open spec fn command_of(t: Seq<Seq<char>>, cmd: IpcCommand) -> bool {
    if t.len() == 0 {
        cmd == IpcCommand::Empty
    } else if t[0] == "show"@ {
        cmd == IpcCommand::Show
    } else if t[0] == "apply-profile"@ {
        if t.len() >= 2 {
            cmd matches IpcCommand::ApplyProfile { name } && name@ == lowercase(t[1])
        } else {
            cmd == IpcCommand::MissingProfileName
        }
    } else {
        cmd == IpcCommand::Other
    }
}

/// Reads a command from the text received over the pipe.
pub fn parse_ipc_command(input: &str) -> (r: IpcCommand)
    ensures
        command_of(tokens(input@), r),
{
    let toks = tokenize_command(input);
    assert(toks@.len() == tokens(input@).len());
    if toks.len() == 0 {
        return IpcCommand::Empty;
    }
    assert(toks@[0]@ == tokens(input@)[0]);
    let show = "show".to_owned();
    let apply = "apply-profile".to_owned();
    if toks[0] == show {
        IpcCommand::Show
    } else if toks[0] == apply {
        if toks.len() >= 2 {
            assert(toks@[1]@ == tokens(input@)[1]);
            IpcCommand::ApplyProfile { name: to_lowercase(toks[1].as_str()) }
        } else {
            IpcCommand::MissingProfileName
        }
    } else {
        IpcCommand::Other
    }
}

/// `i` is the first profile whose name, in lower case, is `lowered`.
pub open spec fn is_first_named(profiles: Seq<Profile>, lowered: Seq<char>, i: int) -> bool {
    &&& 0 <= i < profiles.len()
    &&& lowercase(profiles[i].name@) == lowered
    &&& forall|j: int| 0 <= j < i ==> lowercase(#[trigger] profiles[j].name@) != lowered
}

/// The first profile whose name, in lower case, equals `lowered`.
pub fn find_profile_by_name(profiles: &Vec<Profile>, lowered: &str) -> (r: Option<usize>)
    ensures
        match r {
            Some(i) => is_first_named(profiles@, lowered@, i as int),
            None => forall|j: int| 0 <= j < profiles@.len() ==> lowercase(#[trigger] profiles@[j].name@) != lowered@,
        },
{
    let target = lowered.to_owned();
    let mut k: usize = 0;
    while k < profiles.len()
        invariant
            target@ == lowered@,
            k <= profiles@.len(),
            forall|j: int| 0 <= j < k ==> lowercase(#[trigger] profiles@[j].name@) != lowered@,
        decreases profiles@.len() - k,
    {
        let name = to_lowercase(profiles[k].name.as_str());
        if name == target {
            return Some(k);
        }
        k = k + 1;
    }
    None
}

/// A command is `apply-profile` with a name exactly when its first token is
/// `apply-profile` and a second token follows; the name is that second token in
/// lower case, whatever follows it. Without a second token the name is
/// reported missing.
pub proof fn lemma_apply_profile_name(t: Seq<Seq<char>>, cmd: IpcCommand)
    requires
        command_of(t, cmd),
    ensures
        cmd is ApplyProfile <==> (t.len() >= 2 && t[0] == "apply-profile"@),
        t.len() >= 2 && t[0] == "apply-profile"@ ==> (cmd matches IpcCommand::ApplyProfile { name } && name@ == lowercase(t[1])),
        cmd is MissingProfileName <==> (t.len() == 1 && t[0] == "apply-profile"@),
{
    reveal_strlit("show");
    reveal_strlit("apply-profile");
    assert("show"@ != "apply-profile"@) by {
        assert("show"@.len() != "apply-profile"@.len());
    }
}

/// The pipe text `apply-profile "<name>"` applies the profile whose name is
/// `<name>` in lower case, whatever white space the name holds.
pub proof fn lemma_apply_profile_text(n: Seq<char>, cmd: IpcCommand)
    requires
        n.len() > 0,
        forall|j: int| 0 <= j < n.len() ==> n[j] != '"',
        command_of(tokens("apply-profile"@ + seq![' '] + (seq!['"'] + n + seq!['"'])), cmd),
    ensures
        cmd matches IpcCommand::ApplyProfile { name } && name@ == lowercase(n),
{
    lemma_apply_profile_command(n);
    lemma_apply_profile_name(tokens("apply-profile"@ + seq![' '] + (seq!['"'] + n + seq!['"'])), cmd);
}

} // verus!
