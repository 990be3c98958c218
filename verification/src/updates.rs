//! The update check started from the tray: which dialog follows each outcome,
//! with the version or the error filled into its message.
use crate::text::{chars_of, occurs_at};
use crate::tray::TrayStrings;
use vstd::prelude::*;

verus! {

/// `s` with every occurrence of `pat` replaced by `with`, occurrences taken
/// from the left without overlap, as `str::replace` does; an empty pattern
/// matches before every char and at the end.
pub open spec fn replace_all(s: Seq<char>, pat: Seq<char>, with: Seq<char>) -> Seq<char>
    decreases s.len(),
{
    if pat.len() == 0 {
        if s.len() == 0 {
            with
        } else {
            with + seq![s[0]] + replace_all(s.drop_first(), pat, with)
        }
    } else if s.len() >= pat.len() && s.take(pat.len() as int) == pat {
        with + replace_all(s.skip(pat.len() as int), pat, with)
    } else if s.len() == 0 {
        Seq::empty()
    } else {
        seq![s[0]] + replace_all(s.drop_first(), pat, with)
    }
}

/// Replaces every occurrence of `pat` in `text` by `with`.
pub fn replace_placeholder(text: &str, pat: &str, with: &str) -> (r: String)
    ensures
        r@ == replace_all(text@, pat@, with@),
{
    let v = chars_of(text);
    let p = chars_of(pat);
    let n = v.len();
    let mut out = "".to_owned();
    proof {
        reveal_strlit("");
    }
    let mut i: usize = 0;
    assert(v@.skip(0) =~= v@);
    while i < n
        invariant
            v@ == text@,
            p@ == pat@,
            n == v@.len(),
            i <= n,
            out@ + replace_all(v@.skip(i as int), p@, with@) == replace_all(v@, p@, with@),
        decreases n - i,
    {
        let ghost rest = v@.skip(i as int);
        let ghost before = out@;
        assert(rest.len() > 0);
        assert(rest[0] == v@[i as int]);
        assert(rest.drop_first() =~= v@.skip(i + 1));
        let one = text.substring_char(i, i + 1);
        assert(one@ =~= seq![v@[i as int]]);
        if p.len() == 0 {
            out.append(with);
            out.append(one);
            assert(before + replace_all(rest, p@, with@) =~= out@ + replace_all(v@.skip(i + 1), p@, with@));
            i = i + 1;
        } else if p.len() <= n - i && occurs_at(&v, &p, i) {
            assert(rest.take(p@.len() as int) =~= v@.subrange(i as int, i + p@.len()));
            assert(rest.skip(p@.len() as int) =~= v@.skip(i + p@.len()));
            out.append(with);
            assert(before + replace_all(rest, p@, with@) =~= out@ + replace_all(v@.skip(i + p@.len()), p@, with@));
            i = i + p.len();
        } else {
            proof {
                if rest.len() >= p@.len() {
                    assert(rest.take(p@.len() as int) =~= v@.subrange(i as int, i + p@.len()));
                }
            }
            out.append(one);
            assert(before + replace_all(rest, p@, with@) =~= out@ + replace_all(v@.skip(i + 1), p@, with@));
            i = i + 1;
        }
    }
    assert(v@.skip(n as int) =~= Seq::<char>::empty());
    if p.len() == 0 {
        out.append(with);
    }
    assert(out@ =~= replace_all(v@, p@, with@));
    out
}

/// An outcome of a step of the update check.
pub enum UpdateEvent {
    /// The check ended: the version of an available update, `None` when the
    /// installed version is the latest, or the error of the check.
    Checked(Result<Option<String>, String>),
    /// The user's answer to the question whether to install the update.
    Answered(bool),
    /// The installation ended, or failed with this error.
    Installed(Result<(), String>),
}

/// What the update check does next.
#[derive(Debug, PartialEq, Eq)]
pub enum UpdateAction {
    /// Ask a yes-or-no question and report the answer.
    Ask { title: String, message: String },
    /// Show a message; the check is over.
    Inform { title: String, message: String },
    /// Download and install the update, and report the outcome.
    Install,
    /// Restart the application.
    Restart,
    /// Nothing more to do.
    Done,
}

pub open spec fn is_ask(a: UpdateAction, title: Seq<char>, message: Seq<char>) -> bool {
    a matches UpdateAction::Ask { title: t, message: m } && t@ == title && m@ == message
}

pub open spec fn is_inform(a: UpdateAction, title: Seq<char>, message: Seq<char>) -> bool {
    a matches UpdateAction::Inform { title: t, message: m } && t@ == title && m@ == message
}

/// The next step of the update check: an available update is offered with its
/// version in the message; a user who accepts gets it installed, then the
/// application restarts; an installation error, a failed check and an
/// up-to-date installation are reported, errors filled into their message.
pub open spec fn update_step_spec(s: TrayStrings, event: UpdateEvent, a: UpdateAction) -> bool {
    match event {
        UpdateEvent::Checked(Ok(Some(version))) => is_ask(
            a,
            s.update_available_title@,
            replace_all(s.update_available_msg@, "{{version}}"@, version@),
        ),
        UpdateEvent::Checked(Ok(None)) => is_inform(a, s.up_to_date_title@, s.up_to_date_msg@),
        UpdateEvent::Checked(Err(e)) => is_inform(
            a,
            s.update_check_failed_title@,
            replace_all(s.update_check_failed_msg@, "{{error}}"@, e@),
        ),
        UpdateEvent::Answered(yes) => a == if yes {
            UpdateAction::Install
        } else {
            UpdateAction::Done
        },
        UpdateEvent::Installed(Ok(())) => a == UpdateAction::Restart,
        UpdateEvent::Installed(Err(e)) => is_inform(
            a,
            s.update_error_title@,
            replace_all(s.update_error_msg@, "{{error}}"@, e@),
        ),
    }
}

/// Decides the next step of the update check from the outcome of the last one.
pub fn update_step(strings: &TrayStrings, event: UpdateEvent) -> (a: UpdateAction)
    ensures
        update_step_spec(*strings, event, a),
{
    match event {
        UpdateEvent::Checked(Ok(Some(version))) => UpdateAction::Ask {
            title: strings.update_available_title.clone(),
            message: replace_placeholder(strings.update_available_msg.as_str(), "{{version}}", version.as_str()),
        },
        UpdateEvent::Checked(Ok(None)) => UpdateAction::Inform {
            title: strings.up_to_date_title.clone(),
            message: strings.up_to_date_msg.clone(),
        },
        UpdateEvent::Checked(Err(e)) => UpdateAction::Inform {
            title: strings.update_check_failed_title.clone(),
            message: replace_placeholder(strings.update_check_failed_msg.as_str(), "{{error}}", e.as_str()),
        },
        UpdateEvent::Answered(yes) => if yes {
            UpdateAction::Install
        } else {
            UpdateAction::Done
        },
        UpdateEvent::Installed(Ok(())) => UpdateAction::Restart,
        UpdateEvent::Installed(Err(e)) => UpdateAction::Inform {
            title: strings.update_error_title.clone(),
            message: replace_placeholder(strings.update_error_msg.as_str(), "{{error}}", e.as_str()),
        },
    }
}

/// No char of `x` opens a placeholder.
pub open spec fn no_brace(x: Seq<char>) -> bool {
    forall|i: int| 0 <= i < x.len() ==> x[i] != '{'
}

/// A text in which the pattern's first char never occurs is left as it is.
pub proof fn lemma_replace_absent(t: Seq<char>, pat: Seq<char>, with: Seq<char>)
    requires
        pat.len() > 0,
        forall|i: int| 0 <= i < t.len() ==> t[i] != pat[0],
    ensures
        replace_all(t, pat, with) == t,
    decreases t.len(),
{
    if t.len() > 0 {
        if t.len() >= pat.len() {
            assert(t.take(pat.len() as int)[0] == t[0]);
        }
        lemma_replace_absent(t.drop_first(), pat, with);
        assert(seq![t[0]] + t.drop_first() =~= t);
    }
}

/// The first occurrence of the pattern, after a part in which its first char
/// does not occur, is replaced, and the rest is treated the same way.
pub proof fn lemma_replace_splice(x: Seq<char>, pat: Seq<char>, y: Seq<char>, with: Seq<char>)
    requires
        pat.len() > 0,
        forall|i: int| 0 <= i < x.len() ==> x[i] != pat[0],
    ensures
        replace_all(x + pat + y, pat, with) == x + with + replace_all(y, pat, with),
    decreases x.len(),
{
    let s = x + pat + y;
    if x.len() == 0 {
        assert(s =~= pat + y);
        assert(s.take(pat.len() as int) =~= pat);
        assert(s.skip(pat.len() as int) =~= y);
        assert(x + with + replace_all(y, pat, with) =~= with + replace_all(y, pat, with));
    } else {
        assert(s[0] == x[0]);
        assert(s.take(pat.len() as int)[0] == x[0]);
        assert(s.drop_first() =~= x.drop_first() + pat + y);
        lemma_replace_splice(x.drop_first(), pat, y, with);
        assert(seq![x[0]] + (x.drop_first() + with + replace_all(y, pat, with)) =~= x + with + replace_all(y, pat, with));
    }
}

/// Every dialog of the update check shows the texts of the given tray strings,
/// in whatever language: the up-to-date dialog its two texts as they are; the
/// other dialogs their title as it is and their message template with the
/// version or the error put in place of the placeholder (a template without a
/// placeholder is shown as it is); accepting installs, declining stops, and a
/// finished installation restarts.
pub proof fn lemma_update_dialog_texts(s: TrayStrings, event: UpdateEvent, a: UpdateAction, x: Seq<char>, y: Seq<char>)
    requires
        update_step_spec(s, event, a),
    ensures
        event matches UpdateEvent::Checked(Ok(None)) ==> is_inform(a, s.up_to_date_title@, s.up_to_date_msg@),
        event matches UpdateEvent::Checked(Ok(Some(v))) ==> {
            &&& a matches UpdateAction::Ask { title, message }
            &&& title@ == s.update_available_title@
            &&& no_brace(s.update_available_msg@) ==> message@ == s.update_available_msg@
            &&& (s.update_available_msg@ == x + "{{version}}"@ + y && no_brace(x) && no_brace(y))
                ==> message@ == x + v@ + y
        },
        event matches UpdateEvent::Checked(Err(e)) ==> {
            &&& a matches UpdateAction::Inform { title, message }
            &&& title@ == s.update_check_failed_title@
            &&& no_brace(s.update_check_failed_msg@) ==> message@ == s.update_check_failed_msg@
            &&& (s.update_check_failed_msg@ == x + "{{error}}"@ + y && no_brace(x) && no_brace(y))
                ==> message@ == x + e@ + y
        },
        event matches UpdateEvent::Installed(Err(e)) ==> {
            &&& a matches UpdateAction::Inform { title, message }
            &&& title@ == s.update_error_title@
            &&& no_brace(s.update_error_msg@) ==> message@ == s.update_error_msg@
            &&& (s.update_error_msg@ == x + "{{error}}"@ + y && no_brace(x) && no_brace(y))
                ==> message@ == x + e@ + y
        },
        event == UpdateEvent::Answered(true) ==> a == UpdateAction::Install,
        event == UpdateEvent::Answered(false) ==> a == UpdateAction::Done,
        event == UpdateEvent::Installed(Ok(())) ==> a == UpdateAction::Restart,
{
    reveal_strlit("{{version}}");
    reveal_strlit("{{error}}");
    let ver = "{{version}}"@;
    let err = "{{error}}"@;
    assert(ver[0] == '{');
    assert(err[0] == '{');
    match event {
        UpdateEvent::Checked(Ok(Some(v))) => {
            let t = s.update_available_msg@;
            if no_brace(t) {
                lemma_replace_absent(t, ver, v@);
            }
            if t == x + ver + y && no_brace(x) && no_brace(y) {
                lemma_replace_splice(x, ver, y, v@);
                lemma_replace_absent(y, ver, v@);
            }
        },
        UpdateEvent::Checked(Err(e)) => {
            let t = s.update_check_failed_msg@;
            if no_brace(t) {
                lemma_replace_absent(t, err, e@);
            }
            if t == x + err + y && no_brace(x) && no_brace(y) {
                lemma_replace_splice(x, err, y, e@);
                lemma_replace_absent(y, err, e@);
            }
        },
        UpdateEvent::Installed(Err(e)) => {
            let t = s.update_error_msg@;
            if no_brace(t) {
                lemma_replace_absent(t, err, e@);
            }
            if t == x + err + y && no_brace(x) && no_brace(y) {
                lemma_replace_splice(x, err, y, e@);
                lemma_replace_absent(y, err, e@);
            }
        },
        _ => {},
    }
}

} // verus!
