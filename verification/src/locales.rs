//! Language files: which languages a locale directory offers, and the bundled
//! fallback when a language file is missing.
use crate::ipc::string_views;
use crate::text::chars_of;
use vstd::prelude::*;

verus! {

/// Lexicographic order of char sequences by code point (which is also the
/// byte order of their UTF-8 encodings).
pub open spec fn lex_le(a: Seq<char>, b: Seq<char>) -> bool
    decreases a.len(),
{
    if a.len() == 0 {
        true
    } else if b.len() == 0 {
        false
    } else if a[0] != b[0] {
        (a[0] as int) < (b[0] as int)
    } else {
        lex_le(a.drop_first(), b.drop_first())
    }
}

pub proof fn lemma_lex_le_total(a: Seq<char>, b: Seq<char>)
    ensures
        lex_le(a, b) || lex_le(b, a),
    decreases a.len(),
{
    if a.len() > 0 && b.len() > 0 {
        if a[0] == b[0] {
            lemma_lex_le_total(a.drop_first(), b.drop_first());
        } else {
            assert((a[0] as int) != (b[0] as int));
        }
    }
}

pub proof fn lemma_lex_le_trans(a: Seq<char>, b: Seq<char>, c: Seq<char>)
    requires
        lex_le(a, b),
        lex_le(b, c),
    ensures
        lex_le(a, c),
    decreases a.len(),
{
    if a.len() > 0 && b.len() > 0 && c.len() > 0 && a[0] == b[0] && b[0] == c[0] {
        lemma_lex_le_trans(a.drop_first(), b.drop_first(), c.drop_first());
    }
}

pub proof fn lemma_lex_le_antisym(a: Seq<char>, b: Seq<char>)
    requires
        lex_le(a, b),
        lex_le(b, a),
    ensures
        a == b,
    decreases a.len(),
{
    if a.len() > 0 && b.len() > 0 {
        lemma_lex_le_antisym(a.drop_first(), b.drop_first());
        assert(a =~= seq![a[0]] + a.drop_first());
        assert(b =~= seq![b[0]] + b.drop_first());
    }
}

/// The sequence is in lexicographic order.
pub open spec fn lex_sorted(s: Seq<Seq<char>>) -> bool {
    forall|i: int, j: int| 0 <= i < j < s.len() ==> lex_le(#[trigger] s[i], #[trigger] s[j])
}

fn lex_le_exec(a: &Vec<char>, b: &Vec<char>) -> (r: bool)
    ensures
        r == lex_le(a@, b@),
{
    let mut k: usize = 0;
    assert(a@.skip(0) =~= a@);
    assert(b@.skip(0) =~= b@);
    while k < a.len() && k < b.len()
        invariant
            k <= a@.len(),
            k <= b@.len(),
            lex_le(a@, b@) == lex_le(a@.skip(k as int), b@.skip(k as int)),
        decreases a@.len() - k,
    {
        assert(a@.skip(k as int)[0] == a@[k as int]);
        assert(b@.skip(k as int)[0] == b@[k as int]);
        if a[k] != b[k] {
            return a[k] < b[k];
        }
        assert(a@.skip(k as int).drop_first() =~= a@.skip(k + 1));
        assert(b@.skip(k as int).drop_first() =~= b@.skip(k + 1));
        k = k + 1;
    }
    k == a.len()
}

/// Sorts strings in lexicographic order, as `slice::sort` on `String` does.
pub fn sort_strings(v: Vec<String>) -> (r: Vec<String>)
    ensures
        lex_sorted(string_views(r@)),
        string_views(r@).to_multiset() == string_views(v@).to_multiset(),
{
    broadcast use vstd::seq_lib::group_to_multiset_ensures;
    let mut out: Vec<String> = Vec::new();
    let mut keys: Vec<Vec<char>> = Vec::new();
    let mut i: usize = 0;
    while i < v.len()
        invariant
            i <= v@.len(),
            keys@.len() == out@.len(),
            forall|k: int| 0 <= k < out@.len() ==> (#[trigger] keys@[k])@ == out@[k]@,
            lex_sorted(string_views(out@)),
            string_views(out@).to_multiset() == string_views(v@.take(i as int)).to_multiset(),
        decreases v@.len() - i,
    {
        let x = v[i].clone();
        let xk = chars_of(x.as_str());
        let mut pos: usize = 0;
        while pos < out.len() && lex_le_exec(&keys[pos], &xk)
            invariant
                pos <= out@.len(),
                keys@.len() == out@.len(),
                forall|k: int| 0 <= k < out@.len() ==> (#[trigger] keys@[k])@ == out@[k]@,
                xk@ == x@,
                forall|k: int| 0 <= k < pos ==> lex_le((#[trigger] out@[k])@, x@),
            decreases out@.len() - pos,
        {
            pos = pos + 1;
        }
        let ghost old_views = string_views(out@);
        proof {
            if pos < out@.len() {
                lemma_lex_le_total(out@[pos as int]@, x@);
            }
            assert forall|k: int| pos <= k < out@.len() implies lex_le(x@, #[trigger] old_views[k]) by {
                if k > pos {
                    assert(lex_le(old_views[pos as int], old_views[k]));
                    lemma_lex_le_trans(x@, old_views[pos as int], old_views[k]);
                }
            }
        }
        out.insert(pos, x);
        keys.insert(pos, xk);
        let ghost new_views = string_views(out@);
        assert(new_views =~= old_views.insert(pos as int, x@));
        assert forall|a: int, b: int| 0 <= a < b < new_views.len() implies lex_le(#[trigger] new_views[a], #[trigger] new_views[b]) by {
            if a < pos && b == pos {
            } else if a < pos && b > pos {
                assert(lex_le(old_views[a], old_views[b - 1]));
            } else if a == pos {
            } else if a > pos {
                assert(lex_le(old_views[a - 1], old_views[b - 1]));
            } else {
                assert(lex_le(old_views[a], old_views[b]));
            }
        }
        proof {
            vstd::seq_lib::to_multiset_insert(old_views, pos as int, x@);
            assert(string_views(v@.take(i + 1)) =~= string_views(v@.take(i as int)).push(x@));
            vstd::seq_lib::to_multiset_build(string_views(v@.take(i as int)), x@);
        }
        i = i + 1;
    }
    assert(v@.take(v@.len() as int) =~= v@);
    out
}

/// The index of the last `.` before index `k`, or -1.
pub open spec fn last_dot(s: Seq<char>, k: int) -> int
    decreases k,
{
    if k <= 0 {
        -1
    } else if s[k - 1] == '.' {
        k - 1
    } else {
        last_dot(s, k - 1)
    }
}

/// The file stem of a file name whose extension is `json`: the extension is
/// what follows the last dot, unless that dot is the name's first char.
pub open spec fn json_stem(name: Seq<char>) -> Option<Seq<char>> {
    let d = last_dot(name, name.len() as int);
    if d > 0 && name.skip(d + 1) == "json"@ {
        Some(name.take(d))
    } else {
        None
    }
}

/// The stems of the `json` files among `names`, in their order.
pub open spec fn json_stems(names: Seq<Seq<char>>) -> Seq<Seq<char>>
    decreases names.len(),
{
    if names.len() == 0 {
        Seq::empty()
    } else {
        let rest = json_stems(names.drop_last());
        match json_stem(names.last()) {
            Some(s) => rest.push(s),
            None => rest,
        }
    }
}

/// The stem of `name` if its extension is `json`.
pub fn json_file_stem(name: &str) -> (r: Option<String>)
    ensures
        r matches Some(s) ==> json_stem(name@) == Some(s@),
        r is None ==> json_stem(name@) is None,
{
    let v = chars_of(name);
    let mut k: usize = v.len();
    while k > 0
        invariant
            k <= v@.len(),
            v@ == name@,
            last_dot(v@, v@.len() as int) == last_dot(v@, k as int),
        ensures
            k <= v@.len(),
            v@ == name@,
            last_dot(v@, v@.len() as int) == last_dot(v@, k as int),
            k == 0 || v@[k - 1] == '.',
        decreases k,
    {
        if v[k - 1] == '.' {
            break;
        }
        k = k - 1;
    }
    if k <= 1 {
        return None;
    }
    let d = k - 1;
    assert(d == last_dot(name@, name@.len() as int));
    let ext = name.substring_char(d + 1, v.len()).to_owned();
    if ext == "json".to_owned() {
        Some(name.substring_char(0, d).to_owned())
    } else {
        None
    }
}

/// The languages a locale directory offers, given the names of its files
/// (names that are not valid UTF-8 left out): the stems of its `json` files,
/// sorted.
pub fn locale_names(file_names: &Vec<String>) -> (r: Vec<String>)
    ensures
        lex_sorted(string_views(r@)),
        string_views(r@).to_multiset() == json_stems(string_views(file_names@)).to_multiset(),
{
    let mut stems: Vec<String> = Vec::new();
    let mut i: usize = 0;
    while i < file_names.len()
        invariant
            i <= file_names@.len(),
            string_views(stems@) == json_stems(string_views(file_names@.take(i as int))),
        decreases file_names@.len() - i,
    {
        assert(string_views(file_names@.take(i + 1)).drop_last() =~= string_views(file_names@.take(i as int)));
        assert(string_views(file_names@.take(i + 1)).last() == file_names@[i as int]@);
        let ghost before = string_views(stems@);
        match json_file_stem(file_names[i].as_str()) {
            Some(s) => {
                stems.push(s);
                assert(string_views(stems@) =~= before.push(stems@.last()@));
            },
            None => {},
        }
        i = i + 1;
    }
    assert(file_names@.take(file_names@.len() as int) =~= file_names@);
    sort_strings(stems)
}

/// The content of the bundled locale file of `lang`, or the error that no such
/// locale exists.
pub open spec fn bundled_locale_spec(lang: Seq<char>, bundled: Seq<(String, String)>) -> Result<Seq<char>, Seq<char>> {
    if exists|i: int| 0 <= i < bundled.len() && (#[trigger] bundled[i]).0@ == lang {
        let i = choose|i: int| 0 <= i < bundled.len() && (#[trigger] bundled[i]).0@ == lang && forall|j: int| 0 <= j < i ==> (#[trigger] bundled[j]).0@ != lang;
        Ok(bundled[i].1@)
    } else {
        Err("Locale '"@ + lang + "' not found"@)
    }
}

/// Looks `lang` up among the bundled locale files (language, content), for a
/// language whose file is missing from the locale directory.
pub fn bundled_locale(lang: &str, bundled: &Vec<(String, String)>) -> (r: Result<String, String>)
    ensures
        match r {
            Ok(c) => bundled_locale_spec(lang@, bundled@) == Ok::<Seq<char>, Seq<char>>(c@),
            Err(e) => bundled_locale_spec(lang@, bundled@) == Err::<Seq<char>, Seq<char>>(e@),
        },
{
    let target = lang.to_owned();
    let mut i: usize = 0;
    while i < bundled.len()
        invariant
            target@ == lang@,
            i <= bundled@.len(),
            forall|j: int| 0 <= j < i ==> (#[trigger] bundled@[j]).0@ != lang@,
        decreases bundled@.len() - i,
    {
        if bundled[i].0 == target {
            let ghost k = choose|k: int| 0 <= k < bundled@.len() && (#[trigger] bundled@[k]).0@ == lang@ && forall|j: int| 0 <= j < k ==> (#[trigger] bundled@[j]).0@ != lang@;
            proof {
                assert(0 <= i < bundled@.len() && bundled@[i as int].0@ == lang@ && forall|j: int| 0 <= j < i ==> (#[trigger] bundled@[j]).0@ != lang@);
                if k < i {
                    assert(bundled@[k].0@ != lang@);
                }
                if i < k {
                    assert(bundled@[i as int].0@ != lang@);
                }
            }
            return Ok(bundled[i].1.clone());
        }
        i = i + 1;
    }
    let mut msg = "Locale '".to_owned();
    msg.append(lang);
    msg.append("' not found");
    Err(msg)
}

} // verus!
