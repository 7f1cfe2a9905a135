//! The decisions of the interactive session: parsing a typed line into a
//! command, completing a partial line, and when the session locks itself.
use crate::text::{
    chars_of, join_words, parse_usize, spec_join_words, spec_parse_usize, spec_starts_with,
    spec_trim, spec_trim_end, spec_trim_start, spec_views, spec_words, split_whitespace, starts_with, str_eq, string_from_range,
    to_owned_string, trim, is_whitespace, spec_is_whitespace,
};
use vstd::prelude::*;

verus! {

broadcast use vstd::string::group_string_axioms;

/// A command typed at the `cista>` prompt.
#[derive(Debug)]
pub enum ReplCommand {
    Add,
    Get(String),
    List,
    Search(Option<String>),
    Edit(String),
    Rm(String),
    Passwd,
    Generate { length: usize, no_symbols: bool, exclude_ambiguous: bool },
    Lock,
    Unlock,
    Help,
    Exit,
}

/// The abstract content of a [`ReplCommand`].
pub enum ReplCommandView {
    Add,
    Get(Seq<char>),
    List,
    Search(Option<Seq<char>>),
    Edit(Seq<char>),
    Rm(Seq<char>),
    Passwd,
    Generate { length: usize, no_symbols: bool, exclude_ambiguous: bool },
    Lock,
    Unlock,
    Help,
    Exit,
}

impl View for ReplCommand {
    type V = ReplCommandView;

    open spec fn view(&self) -> ReplCommandView {
        match self {
            ReplCommand::Add => ReplCommandView::Add,
            ReplCommand::Get(s) => ReplCommandView::Get(s@),
            ReplCommand::List => ReplCommandView::List,
            ReplCommand::Search(t) => ReplCommandView::Search(
                match t {
                    Some(s) => Some(s@),
                    None => None,
                },
            ),
            ReplCommand::Edit(s) => ReplCommandView::Edit(s@),
            ReplCommand::Rm(s) => ReplCommandView::Rm(s@),
            ReplCommand::Passwd => ReplCommandView::Passwd,
            ReplCommand::Generate { length, no_symbols, exclude_ambiguous } => {
                ReplCommandView::Generate {
                    length: *length,
                    no_symbols: *no_symbols,
                    exclude_ambiguous: *exclude_ambiguous,
                }
            },
            ReplCommand::Lock => ReplCommandView::Lock,
            ReplCommand::Unlock => ReplCommandView::Unlock,
            ReplCommand::Help => ReplCommandView::Help,
            ReplCommand::Exit => ReplCommandView::Exit,
        }
    }
}

/// Flags of `generate`, read left to right: `--length N` / `-l N` sets the
/// length (an unparsable `N` gives the default; a trailing `--length` is
/// ignored), `--no-symbols` and `--exclude-ambiguous` set their switch,
/// anything else is skipped.
pub open spec fn spec_gen_flags(
    args: Seq<Seq<char>>,
    default_len: usize,
    state: (usize, bool, bool),
) -> (usize, bool, bool)
    decreases args.len(),
{
    if args.len() == 0 {
        state
    } else {
        let a = args[0];
        if a == "--length"@ || a == "-l"@ {
            if args.len() >= 2 {
                let len = match spec_parse_usize(args[1]) {
                    Some(n) => n,
                    None => default_len,
                };
                spec_gen_flags(args.subrange(2, args.len() as int), default_len, (len, state.1, state.2))
            } else {
                state
            }
        } else if a == "--no-symbols"@ {
            spec_gen_flags(args.drop_first(), default_len, (state.0, true, state.2))
        } else if a == "--exclude-ambiguous"@ {
            spec_gen_flags(args.drop_first(), default_len, (state.0, state.1, true))
        } else {
            spec_gen_flags(args.drop_first(), default_len, state)
        }
    }
}

/// The command a typed line stands for. The first word names it; the
/// remaining words, joined by single spaces, are its argument.
/// `default_len` is the configured default password length.
pub open spec fn spec_parse_command(line: Seq<char>, default_len: usize) -> ReplCommandView {
    let ws = spec_words(line);
    let cmd = if ws.len() > 0 {
        ws[0]
    } else {
        Seq::<char>::empty()
    };
    let rest = if ws.len() > 0 {
        ws.drop_first()
    } else {
        ws
    };
    let arg = spec_join_words(rest);
    if ws.len() == 0 {
        ReplCommandView::Help
    } else if cmd == "add"@ {
        ReplCommandView::Add
    } else if cmd == "list"@ || cmd == "ls"@ {
        ReplCommandView::List
    } else if cmd == "search"@ {
        ReplCommandView::Search(
            if rest.len() == 0 {
                None
            } else {
                Some(arg)
            },
        )
    } else if cmd == "get"@ {
        ReplCommandView::Get(arg)
    } else if cmd == "edit"@ {
        ReplCommandView::Edit(arg)
    } else if cmd == "rm"@ || cmd == "remove"@ || cmd == "delete"@ {
        ReplCommandView::Rm(arg)
    } else if cmd == "passwd"@ || cmd == "password"@ {
        ReplCommandView::Passwd
    } else if cmd == "generate"@ || cmd == "gen"@ {
        let flags = spec_gen_flags(rest, default_len, (default_len, false, false));
        ReplCommandView::Generate {
            length: flags.0,
            no_symbols: flags.1,
            exclude_ambiguous: flags.2,
        }
    } else if cmd == "lock"@ {
        ReplCommandView::Lock
    } else if cmd == "unlock"@ {
        ReplCommandView::Unlock
    } else if cmd == "help"@ || cmd == "?"@ {
        ReplCommandView::Help
    } else if cmd == "exit"@ || cmd == "quit"@ || cmd == "q"@ {
        ReplCommandView::Exit
    } else {
        ReplCommandView::Help
    }
}

/// Reads the flags of `generate` from `words[1..]`.
fn parse_gen_flags(words: &Vec<String>, default_len: usize) -> (r: (usize, bool, bool))
    requires
        words@.len() >= 1,
    ensures
        r == spec_gen_flags(spec_views(words@).drop_first(), default_len, (default_len, false, false)),
{
    let ghost all = spec_views(words@).drop_first();
    let mut length = default_len;
    let mut no_symbols = false;
    let mut exclude_ambiguous = false;
    let mut i: usize = 1;
    assert(all.subrange(0, all.len() as int) =~= all);
    while i < words.len()
        invariant
            1 <= i <= words@.len(),
            all == spec_views(words@).drop_first(),
            spec_gen_flags(all, default_len, (default_len, false, false)) == spec_gen_flags(
                all.subrange(i - 1, all.len() as int),
                default_len,
                (length, no_symbols, exclude_ambiguous),
            ),
        decreases words@.len() - i,
    {
        let a = words[i].as_str();
        let ghost tail = all.subrange(i - 1, all.len() as int);
        assert(tail[0] == a@);
        if str_eq(a, "--length") || str_eq(a, "-l") {
            if i + 1 < words.len() {
                let v = words[i + 1].as_str();
                assert(tail[1] == v@);
                length = match parse_usize(v) {
                    Some(n) => n,
                    None => default_len,
                };
                assert(tail.subrange(2, tail.len() as int) =~= all.subrange(i + 1, all.len() as int));
                i = i + 2;
            } else {
                assert(all.subrange(i as int, all.len() as int) =~= Seq::<Seq<char>>::empty());
                i = i + 1;
            }
        } else {
            if str_eq(a, "--no-symbols") {
                no_symbols = true;
            } else if str_eq(a, "--exclude-ambiguous") {
                exclude_ambiguous = true;
            }
            assert(tail.drop_first() =~= all.subrange(i as int, all.len() as int));
            i = i + 1;
        }
    }
    assert(all.subrange(all.len() as int, all.len() as int) =~= Seq::<Seq<char>>::empty());
    (length, no_symbols, exclude_ambiguous)
}

/// Parses a typed line (`default_len` is the configured default length of
/// generated passwords). Unknown commands fall back to `help`.
pub fn parse_command(line: &str, default_len: usize) -> (r: ReplCommand)
    ensures
        r@ == spec_parse_command(line@, default_len),
{
    let words = split_whitespace(line);
    if words.len() == 0 {
        return ReplCommand::Help;
    }
    let c = words[0].as_str();
    assert(spec_views(words@)[0] == c@);
    assert(spec_views(words@).drop_first() =~= spec_views(words@).subrange(1, words@.len() as int));
    if str_eq(c, "add") {
        ReplCommand::Add
    } else if str_eq(c, "list") || str_eq(c, "ls") {
        ReplCommand::List
    } else if str_eq(c, "search") {
        if words.len() <= 1 {
            ReplCommand::Search(None)
        } else {
            ReplCommand::Search(Some(join_words(&words, 1)))
        }
    } else if str_eq(c, "get") {
        ReplCommand::Get(rest_of(&words))
    } else if str_eq(c, "edit") {
        ReplCommand::Edit(rest_of(&words))
    } else if str_eq(c, "rm") || str_eq(c, "remove") || str_eq(c, "delete") {
        ReplCommand::Rm(rest_of(&words))
    } else if str_eq(c, "passwd") || str_eq(c, "password") {
        ReplCommand::Passwd
    } else if str_eq(c, "generate") || str_eq(c, "gen") {
        let (length, no_symbols, exclude_ambiguous) = parse_gen_flags(&words, default_len);
        ReplCommand::Generate { length, no_symbols, exclude_ambiguous }
    } else if str_eq(c, "lock") {
        ReplCommand::Lock
    } else if str_eq(c, "unlock") {
        ReplCommand::Unlock
    } else if str_eq(c, "help") || str_eq(c, "?") {
        ReplCommand::Help
    } else if str_eq(c, "exit") || str_eq(c, "quit") || str_eq(c, "q") {
        ReplCommand::Exit
    } else {
        ReplCommand::Help
    }
}

/// The words after the first, joined by single spaces (empty when there are
/// none).
fn rest_of(words: &Vec<String>) -> (r: String)
    ensures
        r@ == spec_join_words(
            if words@.len() > 0 {
                spec_views(words@).drop_first()
            } else {
                spec_views(words@)
            },
        ),
{
    if words.len() == 0 {
        return String::new();
    }
    let r = join_words(words, 1);
    assert(spec_views(words@).drop_first() =~= spec_views(words@).subrange(1, words@.len() as int));
    r
}

/// The session has been idle long enough to lock itself: it is unlocked,
/// auto-lock is enabled (a timeout of 0 disables it) and at least the timeout
/// has elapsed.
pub open spec fn spec_session_expired(locked: bool, auto_lock_seconds: u64, elapsed_nanos: u128) -> bool {
    !locked && auto_lock_seconds != 0 && elapsed_nanos >= auto_lock_seconds * 1_000_000_000
}

/// Whether an idle session must lock itself, given the time elapsed since
/// the last command in nanoseconds.
pub fn session_expired(locked: bool, auto_lock_seconds: u64, elapsed_nanos: u128) -> (b: bool)
    ensures
        b == spec_session_expired(locked, auto_lock_seconds, elapsed_nanos),
{
    let limit = (auto_lock_seconds as u128) * 1_000_000_000u128;
    !locked && auto_lock_seconds != 0 && elapsed_nanos >= limit
}

/// What to do with a line typed at the prompt.
#[derive(Debug)]
pub enum LineDecision {
    /// A blank line: prompt again.
    Skip,
    /// The session is locked and the command is neither `unlock` nor `exit`.
    Refuse,
    /// Run this command.
    Run(ReplCommand),
}

/// `r` is the decision for `line` in a session whose lock state is `locked`:
/// a blank line is skipped; otherwise the trimmed line is parsed, and the
/// command runs unless the session is locked and it is neither `unlock` nor
/// `exit`, in which case it is refused.
pub open spec fn spec_line_decided(locked: bool, line: Seq<char>, default_len: usize, r: LineDecision) -> bool {
    let c = spec_parse_command(spec_trim(line), default_len);
    if spec_trim(line).len() == 0 {
        r is Skip
    } else if !locked || c is Unlock || c is Exit {
        r matches LineDecision::Run(cmd) && cmd@ == c
    } else {
        r is Refuse
    }
}

/// The decision for a typed line: blank lines are skipped; otherwise the
/// trimmed line is parsed, and while locked only `unlock` and `exit` run.
pub fn decide_line(locked: bool, line: &str, default_len: usize) -> (r: LineDecision)
    ensures
        spec_line_decided(locked, line@, default_len, r),
{
    let trimmed = trim(line);
    if trimmed.as_str().is_empty() {
        return LineDecision::Skip;
    }
    let cmd = parse_command(trimmed.as_str(), default_len);
    if command_allowed(locked, &cmd) {
        LineDecision::Run(cmd)
    } else {
        LineDecision::Refuse
    }
}

/// An interactive session over one vault file.
pub struct ReplSession {
    pub path: String,
    pub vault: Option<crate::model::Vault>,
    pub password: Option<crate::model::SecretString>,
    pub locked: bool,
    /// Monotonic time of the last command, in nanoseconds.
    pub last_activity: u128,
    pub auto_lock_seconds: u64,
}

impl ReplSession {
    /// A session on an unlocked vault, active at `now`.
    pub fn new(
        path: String,
        vault: crate::model::Vault,
        password: crate::model::SecretString,
        auto_lock_seconds: u64,
        now: u128,
    ) -> (r: ReplSession)
        ensures
            r.path@ == path@,
            r.vault == Some(vault),
            r.password == Some(password),
            !r.locked,
            r.last_activity == now,
            r.auto_lock_seconds == auto_lock_seconds,
    {
        ReplSession {
            path,
            vault: Some(vault),
            password: Some(password),
            locked: false,
            last_activity: now,
            auto_lock_seconds,
        }
    }

    /// Forgets the vault and the master password.
    pub fn lock(&mut self)
        ensures
            *final(self) == (ReplSession {
                vault: None,
                password: None,
                locked: true,
                ..*old(self)
            }),
    {
        self.vault = None;
        self.password = None;
        self.locked = true;
    }

    /// Takes the vault and password of a successful unlock at `now`.
    pub fn unlocked(&mut self, vault: crate::model::Vault, password: crate::model::SecretString, now: u128)
        ensures
            *final(self) == (ReplSession {
                vault: Some(vault),
                password: Some(password),
                locked: false,
                last_activity: now,
                ..*old(self)
            }),
    {
        self.vault = Some(vault);
        self.password = Some(password);
        self.locked = false;
        self.last_activity = now;
    }

    /// Registers activity at `now`.
    pub fn touch(&mut self, now: u128)
        ensures
            *final(self) == (ReplSession { last_activity: now, ..*old(self) }),
    {
        self.last_activity = now;
    }

    /// The session has been idle for its timeout at `now` (a clock reading
    /// before the last activity counts as no time elapsed).
    pub open spec fn spec_expired_at(self, now: u128) -> bool {
        spec_session_expired(
            self.locked,
            self.auto_lock_seconds,
            if now >= self.last_activity {
                (now - self.last_activity) as u128
            } else {
                0
            },
        )
    }

    /// Whether the session has been idle for the timeout (never while locked,
    /// never with a timeout of zero).
    pub fn is_expired(&self, now: u128) -> (b: bool)
        ensures
            b == self.spec_expired_at(now),
    {
        let elapsed = if now >= self.last_activity {
            now - self.last_activity
        } else {
            0
        };
        session_expired(self.locked, self.auto_lock_seconds, elapsed)
    }

    /// Locks the session if it has been idle for its timeout at `now`, and
    /// says whether it did; otherwise the session is left as it was.
    pub fn expire_if_idle(&mut self, now: u128) -> (expired: bool)
        ensures
            expired == old(self).spec_expired_at(now),
            expired ==> *final(self) == (ReplSession {
                vault: None,
                password: None,
                locked: true,
                ..*old(self)
            }),
            !expired ==> *final(self) == *old(self),
    {
        let expired = self.is_expired(now);
        if expired {
            self.lock();
        }
        expired
    }

    /// Handles a line typed at `now`: a session idle for its timeout is
    /// locked first, then the line is decided against the lock state that
    /// results. The first component says whether the session was locked for
    /// inactivity.
    pub fn step_line(&mut self, now: u128, line: &str, default_len: usize) -> (r: (bool, LineDecision))
        ensures
            r.0 == old(self).spec_expired_at(now),
            r.0 ==> *final(self) == (ReplSession {
                vault: None,
                password: None,
                locked: true,
                ..*old(self)
            }),
            !r.0 ==> *final(self) == *old(self),
            spec_line_decided(final(self).locked, line@, default_len, r.1),
    {
        let expired = self.expire_if_idle(now);
        let decision = decide_line(self.locked, line, default_len);
        (expired, decision)
    }

    /// The prompt: it shows whether the session is locked.
    pub fn prompt(&self) -> (p: &'static str)
        ensures
            self.locked ==> p@ == "cista (locked)> "@,
            !self.locked ==> p@ == "cista> "@,
    {
        if self.locked {
            "cista (locked)> "
        } else {
            "cista> "
        }
    }
}

/// Whether a command may run: everything while unlocked, only `unlock` and
/// `exit` while locked.
pub fn command_allowed(locked: bool, cmd: &ReplCommand) -> (b: bool)
    ensures
        b == (!locked || cmd@ is Unlock || cmd@ is Exit),
{
    !locked || matches!(cmd, ReplCommand::Unlock | ReplCommand::Exit)
}

/// The commands offered for completion of the first word.
pub open spec fn spec_commands() -> Seq<Seq<char>> {
    seq![
        "add"@,
        "get"@,
        "list"@,
        "search"@,
        "edit"@,
        "rm"@,
        "passwd"@,
        "generate"@,
        "lock"@,
        "unlock"@,
        "help"@,
        "exit"@,
    ]
}

/// Commands whose second argument is an entry name, completed from the vault.
pub open spec fn spec_name_commands() -> Seq<Seq<char>> {
    seq!["get"@, "edit"@, "rm"@]
}

/// Position just after the last white space of `s` (0 if there is none).
pub open spec fn spec_word_start(s: Seq<char>) -> nat
    decreases s.len(),
{
    if s.len() == 0 {
        0
    } else if spec_is_whitespace(s.last()) {
        s.len()
    } else {
        spec_word_start(s.drop_last())
    }
}

/// Number of bytes of `c` in UTF-8 (`char::len_utf8`).
pub open spec fn spec_utf8_width(c: char) -> nat {
    if (c as u32) < 0x80 {
        1
    } else if (c as u32) < 0x800 {
        2
    } else if (c as u32) < 0x10000 {
        3
    } else {
        4
    }
}

/// Number of bytes of `s` in UTF-8.
pub open spec fn spec_utf8_len(s: Seq<char>) -> nat
    decreases s.len(),
{
    if s.len() == 0 {
        0
    } else {
        spec_utf8_len(s.drop_last()) + spec_utf8_width(s.last())
    }
}

/// The candidates among `options` that start with `partial`, in order.
pub open spec fn spec_prefixed(options: Seq<Seq<char>>, partial: Seq<char>) -> Seq<Seq<char>> {
    options.filter(|o: Seq<char>| spec_starts_with(o, partial))
}

/// What completing the text `before` the cursor offers: the byte offset
/// where the word under the cursor starts, and the candidates for it. The
/// first word completes to a command; the second word of `get`, `edit` and
/// `rm` completes to an entry name; nothing else completes.
pub open spec fn spec_complete(before: Seq<char>, entry_names: Seq<Seq<char>>) -> (
    nat,
    Seq<Seq<char>>,
) {
    let k = spec_word_start(before);
    let partial = before.subrange(k as int, before.len() as int);
    let prefix = spec_trim(before.subrange(0, k as int));
    let start = spec_utf8_len(before.subrange(0, k as int));
    if prefix.len() == 0 {
        (start, spec_prefixed(spec_commands(), partial))
    } else {
        let first = spec_words(prefix)[0];
        if spec_name_commands().contains(first) {
            (start, spec_prefixed(entry_names, partial))
        } else {
            (start, Seq::empty())
        }
    }
}

/// UTF-8 width of one character.
fn utf8_width(c: char) -> (n: usize)
    ensures
        n == spec_utf8_width(c),
{
    let u = c as u32;
    if u < 0x80 {
        1
    } else if u < 0x800 {
        2
    } else if u < 0x10000 {
        3
    } else {
        4
    }
}

/// The options that start with `partial`, copied, in order.
fn prefixed(options: &Vec<String>, partial: &str) -> (r: Vec<String>)
    ensures
        spec_views(r@) == spec_prefixed(spec_views(options@), partial@),
{
    let ghost all = spec_views(options@);
    let ghost pred = |o: Seq<char>| spec_starts_with(o, partial@);
    let mut r: Vec<String> = Vec::new();
    let mut i: usize = 0;
    assert(spec_views(r@) =~= Seq::<Seq<char>>::empty());
    while i < options.len()
        invariant
            i <= options@.len(),
            all == spec_views(options@),
            pred == (|o: Seq<char>| spec_starts_with(o, partial@)),
            spec_views(r@) == all.take(i as int).filter(pred),
        decreases options@.len() - i,
    {
        let o = options[i].as_str();
        proof {
            reveal_with_fuel(Seq::<_>::filter, 1);
            assert(all.take(i + 1).drop_last() =~= all.take(i as int));
            assert(all.take(i + 1).last() == o@);
        }
        if starts_with(o, partial) {
            let copy = to_owned_string(o);
            let ghost before = spec_views(r@);
            r.push(copy);
            assert(spec_views(r@) =~= before.push(o@));
        }
        i = i + 1;
    }
    assert(all.take(options@.len() as int) =~= all);
    r
}

/// The commands offered for completion, as a list.
fn command_list() -> (r: Vec<String>)
    ensures
        spec_views(r@) == spec_commands(),
{
    let mut r: Vec<String> = Vec::new();
    r.push(to_owned_string("add"));
    r.push(to_owned_string("get"));
    r.push(to_owned_string("list"));
    r.push(to_owned_string("search"));
    r.push(to_owned_string("edit"));
    r.push(to_owned_string("rm"));
    r.push(to_owned_string("passwd"));
    r.push(to_owned_string("generate"));
    r.push(to_owned_string("lock"));
    r.push(to_owned_string("unlock"));
    r.push(to_owned_string("help"));
    r.push(to_owned_string("exit"));
    assert(spec_views(r@) =~= spec_commands());
    r
}

/// Completes the word under the cursor; `before` is the line up to the
/// cursor and `entry_names` are the names of the vault's entries.
pub fn complete(before: &str, entry_names: &Vec<String>) -> (r: (usize, Vec<String>))
    requires
        spec_utf8_len(before@) <= usize::MAX,
    ensures
        r.0 == spec_complete(before@, spec_views(entry_names@)).0,
        spec_views(r.1@) == spec_complete(before@, spec_views(entry_names@)).1,
{
    let v = chars_of(before);
    let mut k: usize = v.len();
    assert(v@.take(v@.len() as int) =~= v@);
    while k > 0 && !is_whitespace(v[k - 1])
        invariant
            k <= v@.len(),
            spec_word_start(v@) == spec_word_start(v@.take(k as int)),
        decreases k,
    {
        assert(v@.take(k as int).drop_last() =~= v@.take(k - 1));
        k = k - 1;
    }
    proof {
        if k > 0 {
            assert(v@.take(k as int).last() == v@[k - 1]);
        }
        assert(spec_word_start(v@.take(k as int)) == k);
    }
    let mut start: usize = 0;
    let mut j: usize = 0;
    assert(v@.subrange(0, 0) =~= Seq::<char>::empty());
    while j < k
        invariant
            j <= k <= v@.len(),
            start == spec_utf8_len(v@.subrange(0, j as int)),
            v@ == before@,
            spec_utf8_len(before@) <= usize::MAX,
        decreases k - j,
    {
        assert(v@.subrange(0, j + 1).drop_last() =~= v@.subrange(0, j as int));
        proof {
            lemma_utf8_len_prefix(v@, j + 1);
        }
        start = start + utf8_width(v[j]);
        j = j + 1;
    }
    let partial = string_from_range(&v, k, v.len());
    let head = string_from_range(&v, 0, k);
    let prefix = trim(head.as_str());
    if prefix.as_str().is_empty() {
        let commands = command_list();
        return (start, prefixed(&commands, partial.as_str()));
    }
    let words = split_whitespace(prefix.as_str());
    proof {
        lemma_nonblank_has_word(prefix@, head@);
    }
    let first = words[0].as_str();
    if str_eq(first, "get") || str_eq(first, "edit") || str_eq(first, "rm") {
        proof {
            assert(spec_name_commands().contains(first@)) by {
                if first@ == "get"@ {
                    assert(spec_name_commands()[0] == first@);
                } else if first@ == "edit"@ {
                    assert(spec_name_commands()[1] == first@);
                } else {
                    assert(spec_name_commands()[2] == first@);
                }
            }
        }
        return (start, prefixed(entry_names, partial.as_str()));
    }
    proof {
        assert(!spec_name_commands().contains(first@)) by {
            if spec_name_commands().contains(first@) {
                let i = choose|i: int| 0 <= i < 3 && spec_name_commands()[i] == first@;
                assert(i == 0 || i == 1 || i == 2);
            }
        }
    }
    (start, Vec::new())
}

/// A prefix is never longer in UTF-8 than the whole text.
proof fn lemma_utf8_len_prefix(s: Seq<char>, j: int)
    requires
        0 <= j <= s.len(),
    ensures
        spec_utf8_len(s.subrange(0, j)) <= spec_utf8_len(s),
    decreases s.len() - j,
{
    if j < s.len() {
        lemma_utf8_len_prefix(s, j + 1);
        assert(s.subrange(0, j + 1).drop_last() =~= s.subrange(0, j));
    } else {
        assert(s.subrange(0, j) =~= s);
    }
}

/// A trimmed, non-empty text has at least one word.
proof fn lemma_nonblank_has_word(s: Seq<char>, t: Seq<char>)
    requires
        s.len() > 0,
        s == spec_trim(t),
    ensures
        spec_words(s).len() > 0,
{
    lemma_trim_end_last(spec_trim_start(t));
    assert(!spec_is_whitespace(s.last()));
}

/// Text with trailing white space removed does not end in white space.
proof fn lemma_trim_end_last(s: Seq<char>)
    ensures
        spec_trim_end(s).len() > 0 ==> !spec_is_whitespace(spec_trim_end(s).last()),
    decreases s.len(),
{
    if s.len() > 0 && spec_is_whitespace(s.last()) {
        lemma_trim_end_last(s.drop_last());
    }
}

} // verus!
