//! The tray menu: its texts in the user's language, its entries for the saved
//! profiles, and what a click on an entry asks for.
use crate::json_text::{json_lookup, lookup_json, JsonLookup, JsonLookupView};
use crate::profile::Profile;
use crate::text::chars_of;
use crate::uuid_text::{parse_uuid, uuid_parse, uuid_text, uuid_to_string};
use vstd::prelude::*;

verus! {

/// The texts of the tray menu and of the update dialogs.
#[derive(Debug, Clone, PartialEq, Eq)]
pub struct TrayStrings {
    pub show: String,
    pub apply: String,
    pub check_updates: String,
    pub exit: String,
    pub update_available_title: String,
    pub update_available_msg: String,
    pub update_error_title: String,
    pub update_error_msg: String,
    pub up_to_date_title: String,
    pub up_to_date_msg: String,
    pub update_check_failed_title: String,
    pub update_check_failed_msg: String,
}

/// The string entries of the `tray` section of a locale file; `None` where the
/// entry is missing or is not a string.
#[derive(Debug, Clone, PartialEq, Eq)]
pub struct TraySection {
    pub show: Option<String>,
    pub apply: Option<String>,
    pub check_updates: Option<String>,
    pub exit: Option<String>,
    pub update_available_title: Option<String>,
    pub update_available_msg: Option<String>,
    pub update_error_title: Option<String>,
    pub update_error_msg: Option<String>,
    pub up_to_date_title: Option<String>,
    pub up_to_date_msg: Option<String>,
    pub update_check_failed_title: Option<String>,
    pub update_check_failed_msg: Option<String>,
}

/// A locale file as the tray reads it: its `tray` section when there is one.
#[derive(Debug, Clone, PartialEq, Eq)]
pub struct LocaleDoc {
    pub tray: Option<TraySection>,
}

pub open spec fn or_default(o: Option<String>, d: Seq<char>) -> Seq<char> {
    match o {
        Some(s) => s@,
        None => d,
    }
}

/// The texts of `t` are those of `sec`, with the English text wherever `sec`
/// has none.
pub open spec fn strings_from(t: TrayStrings, sec: TraySection) -> bool {
    &&& t.show@ == or_default(sec.show, "Show"@)
    &&& t.apply@ == or_default(sec.apply, "Apply"@)
    &&& t.check_updates@ == or_default(sec.check_updates, "Check for Updates"@)
    &&& t.exit@ == or_default(sec.exit, "Exit"@)
    &&& t.update_available_title@ == or_default(sec.update_available_title, "Update Available"@)
    &&& t.update_available_msg@ == or_default(
        sec.update_available_msg,
        "Version {{version}} is available. Install now?"@,
    )
    &&& t.update_error_title@ == or_default(sec.update_error_title, "Update Error"@)
    &&& t.update_error_msg@ == or_default(sec.update_error_msg, "Failed to install update: {{error}}"@)
    &&& t.up_to_date_title@ == or_default(sec.up_to_date_title, "Up to Date"@)
    &&& t.up_to_date_msg@ == or_default(sec.up_to_date_msg, "You are running the latest version."@)
    &&& t.update_check_failed_title@ == or_default(sec.update_check_failed_title, "Update Check Failed"@)
    &&& t.update_check_failed_msg@ == or_default(
        sec.update_check_failed_msg,
        "Could not check for updates: {{error}}"@,
    )
}

/// A section with no entries.
pub open spec fn empty_section() -> TraySection {
    TraySection {
        show: None,
        apply: None,
        check_updates: None,
        exit: None,
        update_available_title: None,
        update_available_msg: None,
        update_error_title: None,
        update_error_msg: None,
        up_to_date_title: None,
        up_to_date_msg: None,
        update_check_failed_title: None,
        update_check_failed_msg: None,
    }
}

fn text_or(o: &Option<String>, d: &str) -> (r: String)
    ensures
        r@ == or_default(*o, d@),
{
    match o {
        Some(s) => s.clone(),
        None => d.to_owned(),
    }
}

impl TrayStrings {
    /// The texts of a `tray` section, with the English text wherever the
    /// section has none.
    pub fn from_section(sec: &TraySection) -> (r: TrayStrings)
        ensures
            strings_from(r, *sec),
    {
        TrayStrings {
            show: text_or(&sec.show, "Show"),
            apply: text_or(&sec.apply, "Apply"),
            check_updates: text_or(&sec.check_updates, "Check for Updates"),
            exit: text_or(&sec.exit, "Exit"),
            update_available_title: text_or(&sec.update_available_title, "Update Available"),
            update_available_msg: text_or(
                &sec.update_available_msg,
                "Version {{version}} is available. Install now?",
            ),
            update_error_title: text_or(&sec.update_error_title, "Update Error"),
            update_error_msg: text_or(&sec.update_error_msg, "Failed to install update: {{error}}"),
            up_to_date_title: text_or(&sec.up_to_date_title, "Up to Date"),
            up_to_date_msg: text_or(&sec.up_to_date_msg, "You are running the latest version."),
            update_check_failed_title: text_or(&sec.update_check_failed_title, "Update Check Failed"),
            update_check_failed_msg: text_or(
                &sec.update_check_failed_msg,
                "Could not check for updates: {{error}}",
            ),
        }
    }
}

impl Default for TrayStrings {
    /// The English texts.
    fn default() -> (r: Self)
        ensures
            strings_from(r, empty_section()),
    {
        let none = TraySection {
            show: None,
            apply: None,
            check_updates: None,
            exit: None,
            update_available_title: None,
            update_available_msg: None,
            update_error_title: None,
            update_error_msg: None,
            up_to_date_title: None,
            up_to_date_msg: None,
            update_check_failed_title: None,
            update_check_failed_msg: None,
        };
        TrayStrings::from_section(&none)
    }
}

/// The locale file whose texts the tray uses: the one in the application data
/// directory if it has a `tray` section, else the bundled file of the
/// language, else the bundled English file.
pub open spec fn chosen_locale(
    appdata: Option<LocaleDoc>,
    bundled: Option<LocaleDoc>,
    bundled_en: Option<LocaleDoc>,
) -> Option<LocaleDoc> {
    if appdata matches Some(d) && d.tray is Some {
        appdata
    } else if bundled is Some {
        bundled
    } else {
        bundled_en
    }
}

/// The section whose texts are used: that of the chosen file, an empty one
/// when the file has none or no file is available.
pub open spec fn chosen_section(doc: Option<LocaleDoc>) -> TraySection {
    match doc {
        Some(d) => match d.tray {
            Some(s) => s,
            None => empty_section(),
        },
        None => empty_section(),
    }
}

/// The tray texts for a language, from its locale file in the application data
/// directory (`appdata`), its bundled locale file (`bundled`) and the bundled
/// English file (`bundled_en`); `None` stands for a file that is missing or
/// not valid JSON.
pub fn tray_strings_for_lang(
    appdata: Option<LocaleDoc>,
    bundled: Option<LocaleDoc>,
    bundled_en: Option<LocaleDoc>,
) -> (r: TrayStrings)
    ensures
        strings_from(r, chosen_section(chosen_locale(appdata, bundled, bundled_en))),
{
    let chosen = match appdata {
        Some(d) if d.tray.is_some() => Some(d),
        _ => match bundled {
            Some(b) => Some(b),
            None => bundled_en,
        },
    };
    match chosen {
        Some(d) => match d.tray {
            Some(s) => TrayStrings::from_section(&s),
            None => TrayStrings::default(),
        },
        None => TrayStrings::default(),
    }
}

pub open spec fn opt_view(o: Option<String>) -> Option<Seq<char>> {
    match o {
        Some(s) => Some(s@),
        None => None,
    }
}

pub open spec fn or_default_view(o: Option<Seq<char>>, d: Seq<char>) -> Seq<char> {
    match o {
        Some(s) => s,
        None => d,
    }
}

/// The tray texts, in the order: show, apply, check for updates, exit, update
/// available (title, message), update error (title, message), up to date
/// (title, message), update check failed (title, message).
pub open spec fn tray_fields(t: TrayStrings) -> Seq<Seq<char>> {
    seq![
        t.show@, t.apply@, t.check_updates@, t.exit@,
        t.update_available_title@, t.update_available_msg@,
        t.update_error_title@, t.update_error_msg@,
        t.up_to_date_title@, t.up_to_date_msg@,
        t.update_check_failed_title@, t.update_check_failed_msg@,
    ]
}

/// The English texts, in the order of `tray_fields`.
pub open spec fn tray_defaults() -> Seq<Seq<char>> {
    seq![
        "Show"@, "Apply"@, "Check for Updates"@, "Exit"@,
        "Update Available"@, "Version {{version}} is available. Install now?"@,
        "Update Error"@, "Failed to install update: {{error}}"@,
        "Up to Date"@, "You are running the latest version."@,
        "Update Check Failed"@, "Could not check for updates: {{error}}"@,
    ]
}

/// The keys of the entries of a locale file's `tray` section, in the order of
/// `tray_fields`.
pub open spec fn tray_json_keys() -> Seq<Seq<char>> {
    seq![
        "show"@, "apply"@, "checkForUpdates"@, "exit"@,
        "updateAvailableTitle"@, "updateAvailableMsg"@,
        "updateErrorTitle"@, "updateErrorMsg"@,
        "upToDateTitle"@, "upToDateMsg"@,
        "updateCheckFailedTitle"@, "updateCheckFailedMsg"@,
    ]
}

/// The entries of a section, in the order of `tray_fields`.
pub open spec fn section_entries(s: TraySection) -> Seq<Option<Seq<char>>> {
    seq![
        opt_view(s.show), opt_view(s.apply), opt_view(s.check_updates), opt_view(s.exit),
        opt_view(s.update_available_title), opt_view(s.update_available_msg),
        opt_view(s.update_error_title), opt_view(s.update_error_msg),
        opt_view(s.up_to_date_title), opt_view(s.up_to_date_msg),
        opt_view(s.update_check_failed_title), opt_view(s.update_check_failed_msg),
    ]
}

/// Twelve missing entries.
pub open spec fn no_entries() -> Seq<Option<Seq<char>>> {
    Seq::new(12, |i: int| None)
}

/// The texts of `t` are the entries `e`, with the English text wherever an
/// entry is missing.
pub open spec fn strings_from_entries(t: TrayStrings, e: Seq<Option<Seq<char>>>) -> bool {
    &&& e.len() == 12
    &&& tray_fields(t) == Seq::new(12, |i: int| or_default_view(e[i], tray_defaults()[i]))
}

/// The locale text is valid JSON.
pub open spec fn locale_valid(text: Seq<char>) -> bool {
    !(json_lookup(text, "/tray"@) is Invalid)
}

/// The locale text is valid JSON and has a `tray` entry that is not `null`.
pub open spec fn locale_has_tray(text: Seq<char>) -> bool {
    json_lookup(text, "/tray"@) is Str || json_lookup(text, "/tray"@) is Other
}

/// The string at `tray.<key>` of a locale text, if there is one.
pub open spec fn locale_entry(text: Seq<char>, key: Seq<char>) -> Option<Seq<char>> {
    match json_lookup(text, "/tray/"@ + key) {
        JsonLookupView::Str(s) => Some(s),
        _ => None,
    }
}

/// The `tray` entries of a locale text, in the order of `tray_fields`.
pub open spec fn text_entries(text: Seq<char>) -> Seq<Option<Seq<char>>> {
    Seq::new(12, |i: int| locale_entry(text, tray_json_keys()[i]))
}

fn locale_entry_exec(text: &str, key: &str) -> (r: Option<String>)
    ensures
        opt_view(r) == locale_entry(text@, key@),
{
    let mut pointer = "/tray/".to_owned();
    pointer.append(key);
    match lookup_json(text, pointer.as_str()) {
        JsonLookup::Str(s) => Some(s),
        _ => None,
    }
}

/// Reads a locale file's text: `None` when it is not valid JSON; otherwise its
/// `tray` section, missing when `tray` is absent or `null`, with each entry
/// that is a string.
pub fn parse_locale_doc(text: &str) -> (r: Option<LocaleDoc>)
    ensures
        r is None <==> !locale_valid(text@),
        r matches Some(d) ==> (d.tray is Some <==> locale_has_tray(text@)),
        r matches Some(d) ==> (d.tray is Some ==> section_entries(d.tray->0) == text_entries(text@)),
{
    match lookup_json(text, "/tray") {
        JsonLookup::Invalid => None,
        JsonLookup::Absent | JsonLookup::Null => Some(LocaleDoc { tray: None }),
        _ => {
            let sec = TraySection {
                show: locale_entry_exec(text, "show"),
                apply: locale_entry_exec(text, "apply"),
                check_updates: locale_entry_exec(text, "checkForUpdates"),
                exit: locale_entry_exec(text, "exit"),
                update_available_title: locale_entry_exec(text, "updateAvailableTitle"),
                update_available_msg: locale_entry_exec(text, "updateAvailableMsg"),
                update_error_title: locale_entry_exec(text, "updateErrorTitle"),
                update_error_msg: locale_entry_exec(text, "updateErrorMsg"),
                up_to_date_title: locale_entry_exec(text, "upToDateTitle"),
                up_to_date_msg: locale_entry_exec(text, "upToDateMsg"),
                update_check_failed_title: locale_entry_exec(text, "updateCheckFailedTitle"),
                update_check_failed_msg: locale_entry_exec(text, "updateCheckFailedMsg"),
            };
            assert(section_entries(sec) =~= text_entries(text@));
            Some(LocaleDoc { tray: Some(sec) })
        },
    }
}

/// The locale text whose texts the tray uses: the one from the application
/// data directory if it has a `tray` entry, else the bundled text of the
/// language if it is valid JSON, else the bundled English text if it is.
pub open spec fn chosen_text(
    appdata: Option<Seq<char>>,
    bundled: Option<Seq<char>>,
    bundled_en: Option<Seq<char>>,
) -> Option<Seq<char>> {
    if appdata matches Some(t) && locale_has_tray(t) {
        appdata
    } else if bundled matches Some(t) && locale_valid(t) {
        bundled
    } else if bundled_en matches Some(t) && locale_valid(t) {
        bundled_en
    } else {
        None
    }
}

/// The entries used from the chosen text: its `tray` entries if it has a
/// `tray` entry, none otherwise.
pub open spec fn chosen_entries(t: Option<Seq<char>>) -> Seq<Option<Seq<char>>> {
    if t is Some && locale_has_tray(t->0) {
        text_entries(t->0)
    } else {
        no_entries()
    }
}

pub open spec fn str_view(o: Option<&str>) -> Option<Seq<char>> {
    match o {
        Some(s) => Some(s@),
        None => None,
    }
}

proof fn lemma_strings_from_entries(t: TrayStrings, sec: TraySection)
    requires
        strings_from(t, sec),
    ensures
        strings_from_entries(t, section_entries(sec)),
{
    reveal_strlit("Show");
    assert(tray_fields(t) =~= Seq::new(12, |i: int| or_default_view(section_entries(sec)[i], tray_defaults()[i])));
}

/// The tray texts from the locale texts of a language: the one in the
/// application data directory, the bundled one and the bundled English one
/// (`None` for a text that could not be read).
pub fn tray_strings_from_texts(
    appdata: Option<&str>,
    bundled: Option<&str>,
    bundled_en: Option<&str>,
) -> (r: TrayStrings)
    ensures
        strings_from_entries(r, chosen_entries(chosen_text(str_view(appdata), str_view(bundled), str_view(bundled_en)))),
{
    let da = match appdata {
        Some(t) => parse_locale_doc(t),
        None => None,
    };
    let db = match bundled {
        Some(t) => parse_locale_doc(t),
        None => None,
    };
    let dc = match bundled_en {
        Some(t) => parse_locale_doc(t),
        None => None,
    };
    let ghost (ga, gb, gc) = (da, db, dc);
    let r = tray_strings_for_lang(da, db, dc);
    proof {
        let sec = chosen_section(chosen_locale(ga, gb, gc));
        lemma_strings_from_entries(r, sec);
        assert(section_entries(empty_section()) =~= no_entries());
    }
    r
}

/// Without a locale text in the application data directory, a valid bundled
/// text of the language gives the tray texts (its `tray` entries, English
/// where it has none), whatever the bundled English text holds.
pub proof fn lemma_bundled_language_first(b: Seq<char>, en: Option<Seq<char>>)
    requires
        locale_valid(b),
    ensures
        chosen_text(None, Some(b), en) == Some(b),
        chosen_entries(chosen_text(None, Some(b), en)) == if locale_has_tray(b) {
            text_entries(b)
        } else {
            no_entries()
        },
{
}

/// A locale text in the application data directory that has a `tray` entry
/// gives the tray texts, whatever the bundled texts hold; one without a `tray`
/// entry is passed over.
pub proof fn lemma_appdata_text_first(a: Seq<char>, b: Option<Seq<char>>, en: Option<Seq<char>>)
    ensures
        locale_has_tray(a) ==> chosen_entries(chosen_text(Some(a), b, en)) == text_entries(a),
        !locale_has_tray(a) ==> chosen_text(Some(a), b, en) == chosen_text(None, b, en),
{
}

/// The same choice on parsed locale files: with no application data file, a
/// bundled file of the language is used, whatever the English file holds.
pub proof fn lemma_bundled_doc_first(d: LocaleDoc, en: Option<LocaleDoc>)
    ensures
        chosen_locale(None, Some(d), en) == Some(d),
        chosen_section(chosen_locale(None, Some(d), en)) == match d.tray {
            Some(s) => s,
            None => empty_section(),
        },
{
}

/// The greyed-out line of a profile submenu that shows its shortcut.
#[derive(Debug, Clone, PartialEq, Eq)]
pub struct ShortcutLine {
    pub id: String,
    pub text: String,
}

/// The submenu of one profile.
#[derive(Debug, Clone, PartialEq, Eq)]
pub struct ProfileMenu {
    /// The profile's name.
    pub title: String,
    /// The id of the entry that applies the profile.
    pub apply_id: String,
    /// The text of that entry.
    pub apply_title: String,
    /// The shortcut line, for a profile with a non-empty shortcut.
    pub shortcut: Option<ShortcutLine>,
}

/// An entry of the tray menu.
#[derive(Debug, Clone, PartialEq, Eq)]
pub enum TrayMenuEntry {
    Item { id: String, title: String },
    Separator,
    Profile(ProfileMenu),
}

/// The id of the entry that applies the profile with identifier `u`.
pub open spec fn apply_item_id(u: u128) -> Seq<char> {
    "apply-"@ + uuid_text(u)
}

/// The id of the shortcut line of the profile with identifier `u`.
pub open spec fn shortcut_item_id(u: u128) -> Seq<char> {
    "shortcut-"@ + uuid_text(u)
}

pub open spec fn is_item(e: TrayMenuEntry, id: Seq<char>, title: Seq<char>) -> bool {
    e matches TrayMenuEntry::Item { id: i, title: t } && i@ == id && t@ == title
}

/// `e` is the submenu of `p`: named after it, with an entry that applies it
/// and, when its shortcut is not empty, a line that shows the shortcut.
pub open spec fn is_profile_menu(e: TrayMenuEntry, p: Profile, apply_title: Seq<char>) -> bool {
    &&& e matches TrayMenuEntry::Profile(m)
    &&& m.title@ == p.name@
    &&& m.apply_id@ == apply_item_id(p.uuid)
    &&& m.apply_title@ == apply_title
    &&& if p.shortcut is Some && p.shortcut->0@.len() > 0 {
        m.shortcut matches Some(l) && l.id@ == shortcut_item_id(p.uuid) && l.text@ == p.shortcut->0@
    } else {
        m.shortcut is None
    }
}

/// The whole tray menu for `profiles`: "show", a separator, one submenu per
/// profile in list order, a separator, "check-updates" and "exit".
pub open spec fn is_tray_menu(m: Seq<TrayMenuEntry>, profiles: Seq<Profile>, strings: TrayStrings) -> bool {
    let n = profiles.len() as int;
    &&& m.len() == n + 5
    &&& is_item(m[0], "show"@, strings.show@)
    &&& m[1] is Separator
    &&& forall|i: int| 0 <= i < n ==> is_profile_menu(#[trigger] m[i + 2], profiles[i], strings.apply@)
    &&& m[n + 2] is Separator
    &&& is_item(m[n + 3], "check-updates"@, strings.check_updates@)
    &&& is_item(m[n + 4], "exit"@, strings.exit@)
}

fn prefixed_id(prefix: &str, u: u128) -> (r: String)
    ensures
        r@ == prefix@ + uuid_text(u),
{
    let mut id = prefix.to_owned();
    let text = uuid_to_string(u);
    id.append(text.as_str());
    id
}

fn profile_menu(p: &Profile, apply_title: &String) -> (e: TrayMenuEntry)
    ensures
        is_profile_menu(e, *p, apply_title@),
{
    let shortcut = match &p.shortcut {
        Some(s) => {
            if s.as_str().unicode_len() > 0 {
                Some(ShortcutLine { id: prefixed_id("shortcut-", p.uuid), text: s.clone() })
            } else {
                None
            }
        },
        None => None,
    };
    TrayMenuEntry::Profile(
        ProfileMenu {
            title: p.name.clone(),
            apply_id: prefixed_id("apply-", p.uuid),
            apply_title: apply_title.clone(),
            shortcut,
        },
    )
}

/// Builds the tray menu for the saved profiles.
pub fn build_tray_menu(profiles: &Vec<Profile>, strings: &TrayStrings) -> (m: Vec<TrayMenuEntry>)
    ensures
        is_tray_menu(m@, profiles@, *strings),
{
    let mut m: Vec<TrayMenuEntry> = Vec::new();
    m.push(TrayMenuEntry::Item { id: "show".to_owned(), title: strings.show.clone() });
    m.push(TrayMenuEntry::Separator);
    let mut i: usize = 0;
    while i < profiles.len()
        invariant
            i <= profiles@.len(),
            m@.len() == i + 2,
            is_item(m@[0], "show"@, strings.show@),
            m@[1] is Separator,
            forall|j: int| 0 <= j < i ==> is_profile_menu(#[trigger] m@[j + 2], profiles@[j], strings.apply@),
        decreases profiles@.len() - i,
    {
        let e = profile_menu(&profiles[i], &strings.apply);
        m.push(e);
        i = i + 1;
    }
    m.push(TrayMenuEntry::Separator);
    m.push(TrayMenuEntry::Item { id: "check-updates".to_owned(), title: strings.check_updates.clone() });
    m.push(TrayMenuEntry::Item { id: "exit".to_owned(), title: strings.exit.clone() });
    m
}

/// What a click on a tray menu entry asks for.
#[derive(Debug, Clone, Copy, PartialEq, Eq, Structural)]
pub enum TrayCommand {
    Show,
    Exit,
    CheckUpdates,
    /// Apply the profile with this identifier.
    ApplyProfile(u128),
    /// Nothing to do.
    Ignore,
}

/// The command of the menu entry with id `id`.
pub open spec fn tray_command_spec(id: Seq<char>) -> TrayCommand {
    let prefix = "apply-"@;
    if id == "show"@ {
        TrayCommand::Show
    } else if id == "exit"@ {
        TrayCommand::Exit
    } else if id == "check-updates"@ {
        TrayCommand::CheckUpdates
    } else if id.len() >= prefix.len() && id.take(prefix.len() as int) == prefix {
        match uuid_parse(id.skip(prefix.len() as int)) {
            Some(u) => TrayCommand::ApplyProfile(u),
            None => TrayCommand::Ignore,
        }
    } else {
        TrayCommand::Ignore
    }
}

fn starts_with_chars(v: &Vec<char>, p: &Vec<char>) -> (r: bool)
    ensures
        r == (v@.len() >= p@.len() && v@.take(p@.len() as int) == p@),
{
    if v.len() < p.len() {
        return false;
    }
    let mut k: usize = 0;
    while k < p.len()
        invariant
            p@.len() <= v@.len(),
            k <= p@.len(),
            forall|j: int| 0 <= j < k ==> v@[j] == p@[j],
        decreases p@.len() - k,
    {
        if v[k] != p[k] {
            assert(v@.take(p@.len() as int)[k as int] != p@[k as int]);
            return false;
        }
        k = k + 1;
    }
    assert(v@.take(p@.len() as int) =~= p@);
    true
}

/// Reads the command of a clicked tray menu entry. The entry that applies a
/// profile asks for that profile; the shortcut line of a profile asks for
/// nothing.
pub fn tray_command(id: &str) -> (r: TrayCommand)
    ensures
        r == tray_command_spec(id@),
        forall|u: u128| id@ == apply_item_id(u) ==> r == TrayCommand::ApplyProfile(u),
        forall|u: u128| id@ == shortcut_item_id(u) ==> r == TrayCommand::Ignore,
{
    proof {
        reveal_strlit("show");
        reveal_strlit("exit");
        reveal_strlit("check-updates");
        reveal_strlit("apply-");
        reveal_strlit("shortcut-");
    }
    let s = id.to_owned();
    let r = if s == "show".to_owned() {
        TrayCommand::Show
    } else if s == "exit".to_owned() {
        TrayCommand::Exit
    } else if s == "check-updates".to_owned() {
        TrayCommand::CheckUpdates
    } else {
        let v = chars_of(id);
        let p = chars_of("apply-");
        if starts_with_chars(&v, &p) {
            let rest = id.substring_char(p.len(), v.len());
            assert(rest@ =~= id@.skip(6));
            let parsed = parse_uuid(rest);
            assert forall|u: u128| id@ == apply_item_id(u) implies parsed == Some(u) by {
                assert(rest@ =~= uuid_text(u));
            }
            match parsed {
                Some(u) => TrayCommand::ApplyProfile(u),
                None => TrayCommand::Ignore,
            }
        } else {
            assert forall|u: u128| id@ != apply_item_id(u) by {
                if id@ == apply_item_id(u) {
                    assert(id@.take(6) =~= "apply-"@);
                }
            }
            TrayCommand::Ignore
        }
    };
    assert forall|u: u128| id@ == apply_item_id(u) implies r == TrayCommand::ApplyProfile(u) by {
        assert(id@.len() == 42);
        assert(id@.take(6) =~= "apply-"@);
    }
    assert forall|u: u128| id@ == shortcut_item_id(u) implies r == TrayCommand::Ignore by {
        assert(id@.len() == 45);
        assert(id@[0] == 's');
        assert(id@.take(6)[0] == 's');
    }
    r
}

} // verus!
