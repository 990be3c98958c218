//! The optional session log: when it is switched on, what happens to the log
//! of the previous session, and how a line is written.
use vstd::prelude::*;

verus! {

/// Number of numbered backups kept beside the current log.
pub const MAX_ROTATED_LOGS: u32 = 10;

/// What switching logging on or off does to the log file.
#[derive(Debug, Clone, Copy, PartialEq, Eq, Structural)]
pub enum LogSwitchAction {
    /// Close the log file; it stays on disk.
    Close,
    /// Leave the open log file as it is.
    Keep,
    /// Rotate the previous logs aside and start a fresh log file.
    OpenFresh,
}

/// Switching logging off closes the file; switching it on while it is already
/// on with an open file changes nothing; otherwise a fresh file is started.
pub open spec fn log_switch_spec(was_enabled: bool, file_open: bool, enabled: bool) -> LogSwitchAction {
    if !enabled {
        LogSwitchAction::Close
    } else if was_enabled && file_open {
        LogSwitchAction::Keep
    } else {
        LogSwitchAction::OpenFresh
    }
}

/// Decides what a request to switch logging on (`enabled`) or off does, given
/// whether logging was on and whether a log file is open.
pub fn log_switch_action(was_enabled: bool, file_open: bool, enabled: bool) -> (r: LogSwitchAction)
    ensures
        r == log_switch_spec(was_enabled, file_open, enabled),
{
    if !enabled {
        LogSwitchAction::Close
    } else if was_enabled && file_open {
        LogSwitchAction::Keep
    } else {
        LogSwitchAction::OpenFresh
    }
}

/// Once a fresh log file is open, switching logging on again, any number of
/// times, keeps that file: an unrelated settings change does not split the
/// session's log.
pub proof fn lemma_reenable_keeps_log(was_enabled: bool, file_open: bool)
    ensures
        log_switch_spec(was_enabled, file_open, true) == LogSwitchAction::OpenFresh
            || log_switch_spec(was_enabled, file_open, true) == LogSwitchAction::Keep,
        log_switch_spec(true, true, true) == LogSwitchAction::Keep,
        forall|open: bool| log_switch_spec(was_enabled, open, false) == LogSwitchAction::Close,
{
}

/// A rename of log `from` to log `to`; number 0 is the current log, number
/// `n > 0` the `n`-th backup.
#[derive(Debug, Clone, Copy, PartialEq, Eq, Structural)]
pub struct LogRename {
    pub from: u32,
    pub to: u32,
}

/// Backup `i` exists; `exists[i - 1]` tells whether it does.
pub open spec fn backup_exists(exists: Seq<bool>, i: int) -> bool {
    1 <= i && i - 1 < exists.len() && exists[i - 1]
}

/// The renames of the backups numbered `i` down to 1: each existing one moves
/// one number up.
pub open spec fn backup_renames(exists: Seq<bool>, i: int) -> Seq<(int, int)>
    decreases i,
{
    if i <= 0 {
        Seq::empty()
    } else {
        (if backup_exists(exists, i) {
            seq![(i, i + 1)]
        } else {
            Seq::empty()
        }) + backup_renames(exists, i - 1)
    }
}

/// The renames that set the previous session's log aside: nothing when there
/// is no current log; otherwise every existing backup, from the highest
/// number down, moves one number up, and then the current log becomes backup 1.
pub open spec fn rotation_plan_spec(current_exists: bool, exists: Seq<bool>) -> Seq<(int, int)> {
    if !current_exists {
        Seq::empty()
    } else {
        backup_renames(exists, MAX_ROTATED_LOGS - 1).push((0, 1))
    }
}

pub open spec fn rename_views(v: Seq<LogRename>) -> Seq<(int, int)> {
    v.map_values(|r: LogRename| (r.from as int, r.to as int))
}

/// The renames that rotate the logs, given whether the current log exists and,
/// at index `i - 1`, whether backup `i` exists (a missing index counts as no
/// backup).
pub fn rotation_plan(current_exists: bool, exists: &Vec<bool>) -> (r: Vec<LogRename>)
    ensures
        rename_views(r@) == rotation_plan_spec(current_exists, exists@),
{
    let mut out: Vec<LogRename> = Vec::new();
    if !current_exists {
        assert(rename_views(out@) =~= Seq::<(int, int)>::empty());
        return out;
    }
    let mut i: u32 = MAX_ROTATED_LOGS - 1;
    while i > 0
        invariant
            i <= MAX_ROTATED_LOGS - 1,
            rename_views(out@) + backup_renames(exists@, i as int) == backup_renames(
                exists@,
                MAX_ROTATED_LOGS - 1,
            ),
        decreases i,
    {
        let ghost before = rename_views(out@);
        let present = (i as usize) <= exists.len() && exists[(i - 1) as usize];
        if present {
            out.push(LogRename { from: i, to: i + 1 });
            assert(rename_views(out@) =~= before.push((i as int, i + 1)));
            assert(before.push((i as int, i + 1)) + backup_renames(exists@, i - 1) =~= before + (
            seq![(i as int, i + 1)] + backup_renames(exists@, i - 1)));
        } else {
            assert(seq![] + backup_renames(exists@, i - 1) =~= backup_renames(exists@, i - 1));
        }
        i = i - 1;
    }
    assert(rename_views(out@) + Seq::<(int, int)>::empty() =~= rename_views(out@));
    let ghost before = rename_views(out@);
    out.push(LogRename { from: 0, to: 1 });
    assert(rename_views(out@) =~= before.push((0, 1)));
    out
}

pub proof fn lemma_backup_renames(exists: Seq<bool>, i: int)
    ensures
        forall|p: int| 0 <= p < backup_renames(exists, i).len() ==> {
            let r = #[trigger] backup_renames(exists, i)[p];
            &&& 1 <= r.0 <= i
            &&& r.1 == r.0 + 1
            &&& backup_exists(exists, r.0)
        },
        forall|p: int, q: int| 0 <= p < q < backup_renames(exists, i).len() ==> #[trigger] backup_renames(exists, i)[p].0 > #[trigger] backup_renames(exists, i)[q].0,
        forall|k: int| 1 <= k <= i && backup_exists(exists, k) ==> exists|p: int| 0 <= p < backup_renames(exists, i).len() && #[trigger] backup_renames(exists, i)[p].0 == k,
    decreases i,
{
    if i > 0 {
        lemma_backup_renames(exists, i - 1);
        let head: Seq<(int, int)> = if backup_exists(exists, i) { seq![(i, i + 1)] } else { Seq::empty() };
        let rest = backup_renames(exists, i - 1);
        let all = backup_renames(exists, i);
        assert(all == head + rest);
        assert forall|p: int| 0 <= p < all.len() implies {
            let r = #[trigger] all[p];
            &&& 1 <= r.0 <= i
            &&& r.1 == r.0 + 1
            &&& backup_exists(exists, r.0)
        } by {
            if p >= head.len() {
                assert(all[p] == rest[p - head.len()]);
            }
        }
        assert forall|p: int, q: int| 0 <= p < q < all.len() implies #[trigger] all[p].0 > #[trigger] all[q].0 by {
            if p >= head.len() {
                assert(all[p] == rest[p - head.len()]);
                assert(all[q] == rest[q - head.len()]);
            } else {
                assert(all[q] == rest[q - head.len()]);
                assert(rest[q - head.len()].0 <= i - 1);
            }
        }
        assert forall|k: int| 1 <= k <= i && backup_exists(exists, k) implies exists|p: int| 0 <= p < all.len() && #[trigger] all[p].0 == k by {
            if k == i {
                assert(all[0].0 == k);
            } else {
                let p = choose|p: int| 0 <= p < rest.len() && #[trigger] rest[p].0 == k;
                assert(all[p + head.len()] == rest[p]);
            }
        }
    }
}

/// Rotation moves every log one number up, from the highest number down, each
/// log at most once and the current log last; the only existing log that a
/// rename replaces is the highest backup. So no backup below the highest is
/// ever lost.
pub proof fn lemma_rotation_keeps_backups(current_exists: bool, exists: Seq<bool>)
    ensures
        !current_exists ==> rotation_plan_spec(current_exists, exists).len() == 0,
        current_exists ==> rotation_plan_spec(current_exists, exists).last() == (0int, 1int),
        forall|p: int| 0 <= p < rotation_plan_spec(current_exists, exists).len() ==> {
            let r = #[trigger] rotation_plan_spec(current_exists, exists)[p];
            &&& 0 <= r.0 < MAX_ROTATED_LOGS
            &&& r.1 == r.0 + 1
        },
        forall|p: int, q: int| 0 <= p < q < rotation_plan_spec(current_exists, exists).len()
            ==> #[trigger] rotation_plan_spec(current_exists, exists)[p].0 > #[trigger] rotation_plan_spec(current_exists, exists)[q].0,
        forall|q: int| 0 <= q < rotation_plan_spec(current_exists, exists).len()
            && #[trigger] rotation_plan_spec(current_exists, exists)[q].1 < MAX_ROTATED_LOGS
            && backup_exists(exists, rotation_plan_spec(current_exists, exists)[q].1)
            ==> exists|p: int| 0 <= p < q && #[trigger] rotation_plan_spec(current_exists, exists)[p].0
                == rotation_plan_spec(current_exists, exists)[q].1,
{
    let i = MAX_ROTATED_LOGS - 1;
    lemma_backup_renames(exists, i as int);
    if current_exists {
        let b = backup_renames(exists, i as int);
        let plan = rotation_plan_spec(current_exists, exists);
        assert(plan == b.push((0, 1)));
        assert forall|p: int| 0 <= p < plan.len() implies {
            let r = #[trigger] plan[p];
            &&& 0 <= r.0 < MAX_ROTATED_LOGS
            &&& r.1 == r.0 + 1
        } by {
            if p < b.len() {
                assert(plan[p] == b[p]);
            }
        }
        assert forall|p: int, q: int| 0 <= p < q < plan.len() implies #[trigger] plan[p].0 > #[trigger] plan[q].0 by {
            assert(plan[p] == b[p]);
            if q < b.len() {
                assert(plan[q] == b[q]);
            }
        }
        assert forall|q: int| 0 <= q < plan.len() && #[trigger] plan[q].1 < MAX_ROTATED_LOGS && backup_exists(exists, plan[q].1)
            implies exists|p: int| 0 <= p < q && #[trigger] plan[p].0 == plan[q].1 by {
            let t = plan[q].1;
            if q < b.len() {
                assert(plan[q] == b[q]);
            }
            let p = choose|p: int| 0 <= p < b.len() && #[trigger] b[p].0 == t;
            assert(plan[p] == b[p]);
            if q < b.len() {
                if p >= q {
                    if p > q {
                        assert(b[q].0 > b[p].0);
                    }
                }
            }
        }
    }
}

/// A line of the log: the time stamp in square brackets, a space, the message.
pub fn log_line(timestamp: &str, message: &str) -> (r: String)
    ensures
        r@ == "["@ + timestamp@ + "] "@ + message@,
{
    let mut line = "[".to_owned();
    line.append(timestamp);
    line.append("] ");
    line.append(message);
    line
}

/// The decimal digit of `d` (0 to 9).
pub open spec fn digit_char(d: int) -> char {
    (48 + d) as char
}

/// The decimal text of `n`, without leading zeros.
pub open spec fn decimal(n: nat) -> Seq<char>
    decreases n,
{
    if n < 10 {
        seq![digit_char(n as int)]
    } else {
        decimal(n / 10).push(digit_char((n % 10) as int))
    }
}

fn digit_str(d: u32) -> (r: &'static str)
    requires
        d < 10,
    ensures
        r@ == seq![digit_char(d as int)],
{
    proof {
        reveal_strlit("0");
        reveal_strlit("1");
        reveal_strlit("2");
        reveal_strlit("3");
        reveal_strlit("4");
        reveal_strlit("5");
        reveal_strlit("6");
        reveal_strlit("7");
        reveal_strlit("8");
        reveal_strlit("9");
    }
    let r = match d {
        0 => "0",
        1 => "1",
        2 => "2",
        3 => "3",
        4 => "4",
        5 => "5",
        6 => "6",
        7 => "7",
        8 => "8",
        _ => "9",
    };
    assert(r@ =~= seq![digit_char(d as int)]);
    r
}

/// The decimal text of a number.
pub fn decimal_string(n: u32) -> (r: String)
    ensures
        r@ == decimal(n as nat),
{
    let mut m = n / 10;
    let mut r = digit_str(n % 10).to_owned();
    while m > 0
        invariant
            m as nat * 10 <= n,
            m > 0 ==> decimal(n as nat) == decimal(m as nat) + r@,
            m == 0 ==> decimal(n as nat) == r@,
        decreases m,
    {
        let ghost old_m = m;
        let ghost old_r = r@;
        let d = digit_str(m % 10);
        r = d.to_owned().concat(r.as_str());
        m = m / 10;
        proof {
            if m > 0 {
                assert(decimal(old_m as nat) == decimal(m as nat).push(digit_char((old_m % 10) as int)));
                assert(decimal(m as nat) + r@ =~= decimal(m as nat).push(digit_char((old_m % 10) as int)) + old_r);
            } else {
                assert(decimal(old_m as nat) == seq![digit_char(old_m as int)]);
            }
        }
    }
    proof {
        if n >= 10 {
            assert(decimal(n as nat) == decimal((n / 10) as nat).push(digit_char((n % 10) as int)));
        }
    }
    r
}

/// The name of log number `number`: `resize-rabbit.log` for the current log,
/// `resize-rabbit.<number>.log` for a backup.
pub open spec fn log_file_name_spec(number: u32) -> Seq<char> {
    if number == 0 {
        "resize-rabbit.log"@
    } else {
        "resize-rabbit."@ + decimal(number as nat) + ".log"@
    }
}

/// The file name of the current log (number 0) or of a backup.
pub fn log_file_name(number: u32) -> (r: String)
    ensures
        r@ == log_file_name_spec(number),
{
    if number == 0 {
        "resize-rabbit.log".to_owned()
    } else {
        let mut name = "resize-rabbit.".to_owned();
        let digits = decimal_string(number);
        name.append(digits.as_str());
        name.append(".log");
        name
    }
}

} // verus!
