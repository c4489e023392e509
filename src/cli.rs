//! The command-line grammar. `Cli::try_parse_from` reads the program's
//! arguments (the program name first) into a command.
//!
//! After the command word (and, for `category` and `config`, the subcommand
//! word) come positionals and options in any order. An option is written
//! `--name value`, `--name=value` or `-c value`; a flag is `--name` or `-c`.
//! An unknown option, a missing value, a value given to a flag and an option
//! given twice are errors.

use vstd::prelude::*;
use crate::text::{parse_u32, text_eq, u32_value};

verus! {

broadcast use vstd::seq_lib::group_seq_properties;

/// A priority as written on the command line.
#[derive(Clone, Copy, Debug, PartialEq, Eq, Structural)]
pub enum Priority {
    High,
    Medium,
    Low,
}

/// A parsed command line.
#[derive(Debug)]
pub struct Cli {
    pub command: Commands,
}

#[derive(Debug)]
pub enum Commands {
    /// Add a new task.
    Add { title: String, category: String, priority: Option<Priority> },
    /// Delete a task.
    Delete { title_or_id: String, category: String },
    /// Rename a task.
    Update { title_or_id: String, new_title: String, category: String },
    /// Check off a task (also `x`, `mark`).
    Check { title_or_id: String, category: Option<String> },
    /// Uncheck a task (also `o`, `unmark`).
    Uncheck { title_or_id: String, category: Option<String> },
    /// Check off all tasks of the current category.
    CheckAll,
    /// Uncheck all tasks of the current category.
    UncheckAll,
    /// Move a task to another category.
    Move {
        task_name_or_id: Option<String>,
        to_category: Option<String>,
        from_category: Option<String>,
        task: Option<String>,
    },
    /// List tasks.
    List { search: Option<String>, completed: bool, priority: Option<Priority> },
    /// Category management.
    Category { command: CategoryCommands },
    /// Configuration management.
    Config { command: ConfigCommands },
    /// Purge deleted tasks.
    Flush,
}

/// The two ways of naming a move.
#[derive(Debug)]
pub enum MoveCommands {
    Simple { task_name_or_id: String, to_category: String },
    Extended { from_category: String, to_category: Option<String>, task_name_or_id: String },
}

#[derive(Debug)]
pub enum CategoryCommands {
    Use { category: String },
    Clear,
    Show,
    Add { name: String },
    Delete { name_or_id: String, new_category: Option<String> },
    Update { old_name: String, new_name: String },
    List,
    Order { category: String, position: u32 },
    Reorder { categories: Vec<String> },
}

#[derive(Debug)]
pub enum ConfigCommands {
    SetValue { key_value: String },
    Default { key: String },
    Reset,
    List,
}

#[derive(Debug)]
pub enum CliError {
    MissingCommand,
    UnknownCommand(String),
    UnknownOption(String),
    MissingValue(String),
    UnexpectedValue(String),
    RepeatedOption(String),
    MissingArgument(String),
    UnexpectedArgument(String),
    InvalidValue(String),
}

/// One option a command accepts.
#[derive(Clone, Copy, Debug)]
pub struct OptSpec {
    pub long: &'static str,
    pub short: Option<char>,
    pub takes_value: bool,
}

/// The outcome of scanning arguments: the positionals in order, and per
/// option its value (a flag that is present has the empty text).
pub struct ScanView {
    pub positionals: Seq<Seq<char>>,
    pub values: Seq<Option<Seq<char>>>,
}

pub open spec fn opt_view(o: Option<String>) -> Option<Seq<char>> {
    match o {
        Some(s) => Some(s@),
        None => None,
    }
}

pub open spec fn arg_views(args: Seq<String>) -> Seq<Seq<char>> {
    args.map_values(|a: String| a@)
}

pub open spec fn empty_scan(n: nat) -> ScanView {
    ScanView { positionals: Seq::empty(), values: Seq::new(n, |i: int| None::<Seq<char>>) }
}

/// The first option at or after `k` with long name `name`.
pub open spec fn long_index(opts: Seq<OptSpec>, name: Seq<char>, k: int) -> Option<int>
    decreases opts.len() - k,
{
    if k < 0 || k >= opts.len() {
        None
    } else if opts[k].long@ == name {
        Some(k)
    } else {
        long_index(opts, name, k + 1)
    }
}

/// The first option at or after `k` with short name `c`.
pub open spec fn short_index(opts: Seq<OptSpec>, c: char, k: int) -> Option<int>
    decreases opts.len() - k,
{
    if k < 0 || k >= opts.len() {
        None
    } else if opts[k].short == Some(c) {
        Some(k)
    } else {
        short_index(opts, c, k + 1)
    }
}

/// The first `=` at or after `k`.
pub open spec fn eq_index(s: Seq<char>, k: int) -> Option<int>
    decreases s.len() - k,
{
    if k < 0 || k >= s.len() {
        None
    } else if s[k] == '=' {
        Some(k)
    } else {
        eq_index(s, k + 1)
    }
}

pub open spec fn is_long(a: Seq<char>) -> bool {
    a.len() > 2 && a[0] == '-' && a[1] == '-'
}

pub open spec fn is_short(a: Seq<char>) -> bool {
    a.len() == 2 && a[0] == '-' && a[1] != '-'
}

/// Records value `v` of option `o`; refused when the option was given before.
pub open spec fn record(st: ScanView, o: int, v: Seq<char>) -> Option<ScanView> {
    if st.values[o] is Some {
        None
    } else {
        Some(ScanView { positionals: st.positionals, values: st.values.update(o, Some(v)) })
    }
}

/// Scans `args` from position `i` on, starting from `st`; `None` on error.
pub open spec fn scan_from(args: Seq<Seq<char>>, opts: Seq<OptSpec>, i: int, st: ScanView) -> Option<ScanView>
    decreases args.len() - i,
{
    if i < 0 || i >= args.len() || st.values.len() != opts.len() {
        if st.values.len() == opts.len() { Some(st) } else { None }
    } else {
        let a = args[i];
        if is_long(a) {
            let body = a.subrange(2, a.len() as int);
            match eq_index(body, 0) {
                Some(e) => match long_index(opts, body.subrange(0, e), 0) {
                    Some(o) => if opts[o].takes_value {
                        match record(st, o, body.subrange(e + 1, body.len() as int)) {
                            Some(s2) => scan_from(args, opts, i + 1, s2),
                            None => None,
                        }
                    } else {
                        None
                    },
                    None => None,
                },
                None => match long_index(opts, body, 0) {
                    Some(o) => if opts[o].takes_value {
                        if i + 1 < args.len() {
                            match record(st, o, args[i + 1]) {
                                Some(s2) => scan_from(args, opts, i + 2, s2),
                                None => None,
                            }
                        } else {
                            None
                        }
                    } else {
                        match record(st, o, Seq::empty()) {
                            Some(s2) => scan_from(args, opts, i + 1, s2),
                            None => None,
                        }
                    },
                    None => None,
                },
            }
        } else if is_short(a) {
            match short_index(opts, a[1], 0) {
                Some(o) => if opts[o].takes_value {
                    if i + 1 < args.len() {
                        match record(st, o, args[i + 1]) {
                            Some(s2) => scan_from(args, opts, i + 2, s2),
                            None => None,
                        }
                    } else {
                        None
                    }
                } else {
                    match record(st, o, Seq::empty()) {
                        Some(s2) => scan_from(args, opts, i + 1, s2),
                        None => None,
                    }
                },
                None => None,
            }
        } else {
            scan_from(args, opts, i + 1, ScanView { positionals: st.positionals.push(a), values: st.values })
        }
    }
}

/// What scanning the arguments after position `from` gives.
pub open spec fn scanned(args: Seq<Seq<char>>, opts: Seq<OptSpec>, from: int) -> Option<ScanView> {
    scan_from(args, opts, from, empty_scan(opts.len()))
}

/// Scanned positionals and option values.
pub struct Scanned {
    pub positionals: Vec<String>,
    pub values: Vec<Option<String>>,
}

impl Scanned {
    pub open spec fn view(&self) -> ScanView {
        ScanView {
            positionals: self.positionals@.map_values(|s: String| s@),
            values: self.values@.map_values(|o: Option<String>| opt_view(o)),
        }
    }
}

fn find_long(opts: &Vec<OptSpec>, name: &str) -> (r: Option<usize>)
    ensures
        r matches Some(o) ==> long_index(opts@, name@, 0) == Some(o as int) && o < opts@.len(),
        r is None ==> long_index(opts@, name@, 0) is None,
{
    let mut k: usize = 0;
    while k < opts.len()
        invariant
            k <= opts@.len(),
            long_index(opts@, name@, 0) == long_index(opts@, name@, k as int),
        decreases opts@.len() - k,
    {
        if text_eq(opts[k].long, name) {
            return Some(k);
        }
        k += 1;
    }
    None
}

fn find_short(opts: &Vec<OptSpec>, c: char) -> (r: Option<usize>)
    ensures
        r matches Some(o) ==> short_index(opts@, c, 0) == Some(o as int) && o < opts@.len(),
        r is None ==> short_index(opts@, c, 0) is None,
{
    let mut k: usize = 0;
    while k < opts.len()
        invariant
            k <= opts@.len(),
            short_index(opts@, c, 0) == short_index(opts@, c, k as int),
        decreases opts@.len() - k,
    {
        if opts[k].short == Some(c) {
            return Some(k);
        }
        k += 1;
    }
    None
}

fn find_eq(s: &str) -> (r: Option<usize>)
    ensures
        r matches Some(e) ==> eq_index(s@, 0) == Some(e as int) && e < s@.len(),
        r is None ==> eq_index(s@, 0) is None,
{
    let n = s.unicode_len();
    let mut k: usize = 0;
    while k < n
        invariant
            n == s@.len(),
            k <= n,
            eq_index(s@, 0) == eq_index(s@, k as int),
        decreases n - k,
    {
        if s.get_char(k) == '=' {
            return Some(k);
        }
        k += 1;
    }
    None
}

/// Stores value `v` for option `o`, unless the option was given before.
fn record_value(st: &mut Scanned, o: usize, v: String) -> (ok: bool)
    requires
        o < old(st).values@.len(),
    ensures
        record(old(st)@, o as int, v@) matches Some(s2) ==> ok && final(st)@ == s2,
        record(old(st)@, o as int, v@) is None ==> !ok,
{
    if st.values[o].is_some() {
        return false;
    }
    let ghost before = st.values@;
    st.values.set(o, Some(v));
    assert(st.values@.map_values(|x: Option<String>| opt_view(x))
        =~= before.map_values(|x: Option<String>| opt_view(x)).update(o as int, Some(v@)));
    true
}

/// Scans the arguments from position `from` on against the options `opts`.
pub fn scan(args: &Vec<String>, opts: &Vec<OptSpec>, from: usize) -> (r: Result<Scanned, CliError>)
    ensures
        r is Ok <==> scanned(arg_views(args@), opts@, from as int) is Some,
        r matches Ok(s) ==> scanned(arg_views(args@), opts@, from as int) == Some(s@),
        r matches Ok(s) ==> s.values@.len() == opts@.len() && s@.values.len() == opts@.len(),
{
    let ghost argv = arg_views(args@);
    let mut values: Vec<Option<String>> = Vec::new();
    let mut k: usize = 0;
    while k < opts.len()
        invariant
            k <= opts@.len(),
            values@.len() == k,
            forall|j: int| 0 <= j < k ==> (#[trigger] values@[j]) is None,
        decreases opts@.len() - k,
    {
        values.push(None);
        k += 1;
    }
    let mut st = Scanned { positionals: Vec::new(), values };
    assert(st@.values =~= empty_scan(opts@.len()).values);
    assert(st@.positionals =~= empty_scan(opts@.len()).positionals);
    if from >= args.len() {
        return Ok(st);
    }
    let mut i: usize = from;
    while i < args.len()
        invariant
            argv == arg_views(args@),
            from <= i,
            st@.values.len() == opts@.len(),
            st.values@.len() == opts@.len(),
            scanned(argv, opts@, from as int) == scan_from(argv, opts@, i as int, st@),
        decreases args@.len() - i,
    {
        let a = &args[i];
        let n = a.unicode_len();
        assert(argv[i as int] == a@);
        if n > 2 && a.get_char(0) == '-' && a.get_char(1) == '-' {
            let body = a.as_str().substring_char(2, n);
            match find_eq(body) {
                Some(e) => {
                    let name = body.substring_char(0, e);
                    match find_long(opts, name) {
                        Some(o) => {
                            if !opts[o].takes_value {
                                return Err(CliError::UnexpectedValue(name.to_string()));
                            }
                            let v = body.substring_char(e + 1, body.unicode_len()).to_string();
                            if !record_value(&mut st, o, v) {
                                return Err(CliError::RepeatedOption(name.to_string()));
                            }
                            i += 1;
                        },
                        None => return Err(CliError::UnknownOption(a.clone())),
                    }
                },
                None => match find_long(opts, body) {
                    Some(o) => {
                        if opts[o].takes_value {
                            if i + 1 >= args.len() {
                                return Err(CliError::MissingValue(a.clone()));
                            }
                            assert(argv[i + 1] == args@[i + 1]@);
                            if !record_value(&mut st, o, args[i + 1].clone()) {
                                return Err(CliError::RepeatedOption(a.clone()));
                            }
                            i += 2;
                        } else {
                            if !record_value(&mut st, o, String::new()) {
                                return Err(CliError::RepeatedOption(a.clone()));
                            }
                            i += 1;
                        }
                    },
                    None => return Err(CliError::UnknownOption(a.clone())),
                },
            }
        } else if n == 2 && a.get_char(0) == '-' && a.get_char(1) != '-' {
            match find_short(opts, a.get_char(1)) {
                Some(o) => {
                    if opts[o].takes_value {
                        if i + 1 >= args.len() {
                            return Err(CliError::MissingValue(a.clone()));
                        }
                        assert(argv[i + 1] == args@[i + 1]@);
                        if !record_value(&mut st, o, args[i + 1].clone()) {
                            return Err(CliError::RepeatedOption(a.clone()));
                        }
                        i += 2;
                    } else {
                        if !record_value(&mut st, o, String::new()) {
                            return Err(CliError::RepeatedOption(a.clone()));
                        }
                        i += 1;
                    }
                },
                None => return Err(CliError::UnknownOption(a.clone())),
            }
        } else {
            let ghost before = st@;
            st.positionals.push(a.clone());
            assert(st@.positionals =~= before.positionals.push(a@));
            i += 1;
        }
    }
    Ok(st)
}

/// The command words, aliases included.
#[derive(Clone, Copy, Debug, PartialEq, Eq, Structural)]
pub enum CommandWord {
    Add,
    Delete,
    Update,
    Check,
    Uncheck,
    CheckAll,
    UncheckAll,
    Move,
    List,
    Category,
    Config,
    Flush,
}

pub open spec fn word_of(w: Seq<char>) -> Option<CommandWord> {
    if w == "add"@ {
        Some(CommandWord::Add)
    } else if w == "delete"@ {
        Some(CommandWord::Delete)
    } else if w == "update"@ {
        Some(CommandWord::Update)
    } else if w == "check"@ || w == "x"@ || w == "mark"@ {
        Some(CommandWord::Check)
    } else if w == "uncheck"@ || w == "o"@ || w == "unmark"@ {
        Some(CommandWord::Uncheck)
    } else if w == "check-all"@ {
        Some(CommandWord::CheckAll)
    } else if w == "uncheck-all"@ {
        Some(CommandWord::UncheckAll)
    } else if w == "move"@ {
        Some(CommandWord::Move)
    } else if w == "list"@ {
        Some(CommandWord::List)
    } else if w == "category"@ {
        Some(CommandWord::Category)
    } else if w == "config"@ {
        Some(CommandWord::Config)
    } else if w == "flush"@ {
        Some(CommandWord::Flush)
    } else {
        None
    }
}

fn parse_word(w: &str) -> (r: Option<CommandWord>)
    ensures
        r == word_of(w@),
{
    if text_eq(w, "add") {
        Some(CommandWord::Add)
    } else if text_eq(w, "delete") {
        Some(CommandWord::Delete)
    } else if text_eq(w, "update") {
        Some(CommandWord::Update)
    } else if text_eq(w, "check") || text_eq(w, "x") || text_eq(w, "mark") {
        Some(CommandWord::Check)
    } else if text_eq(w, "uncheck") || text_eq(w, "o") || text_eq(w, "unmark") {
        Some(CommandWord::Uncheck)
    } else if text_eq(w, "check-all") {
        Some(CommandWord::CheckAll)
    } else if text_eq(w, "uncheck-all") {
        Some(CommandWord::UncheckAll)
    } else if text_eq(w, "move") {
        Some(CommandWord::Move)
    } else if text_eq(w, "list") {
        Some(CommandWord::List)
    } else if text_eq(w, "category") {
        Some(CommandWord::Category)
    } else if text_eq(w, "config") {
        Some(CommandWord::Config)
    } else if text_eq(w, "flush") {
        Some(CommandWord::Flush)
    } else {
        None
    }
}

pub open spec fn priority_of(v: Seq<char>) -> Option<Priority> {
    if v == "high"@ {
        Some(Priority::High)
    } else if v == "medium"@ {
        Some(Priority::Medium)
    } else if v == "low"@ {
        Some(Priority::Low)
    } else {
        None
    }
}

/// A priority option: absent, or present and naming a priority.
pub open spec fn priority_field(v: Option<Seq<char>>, p: Option<Priority>) -> bool {
    match v {
        None => p is None,
        Some(t) => p is Some && p == priority_of(t),
    }
}

fn read_priority(v: &Option<String>) -> (r: Result<Option<Priority>, CliError>)
    ensures
        r matches Ok(p) ==> priority_field(opt_view(*v), p),
        (v matches Some(t) && priority_of(t@) is None) <==> r is Err,
{
    match v {
        None => Ok(None),
        Some(t) => if text_eq(t.as_str(), "high") {
            Ok(Some(Priority::High))
        } else if text_eq(t.as_str(), "medium") {
            Ok(Some(Priority::Medium))
        } else if text_eq(t.as_str(), "low") {
            Ok(Some(Priority::Low))
        } else {
            Err(CliError::InvalidValue(t.clone()))
        },
    }
}

pub open spec fn opt(long: &'static str, short: Option<char>, takes_value: bool) -> OptSpec {
    OptSpec { long, short, takes_value }
}

/// The options of `add`: category, priority.
pub open spec fn add_opts() -> Seq<OptSpec> {
    seq![opt("category", Some('c'), true), opt("priority", Some('p'), true)]
}

/// The options of `delete`, `check` and `uncheck`: category.
pub open spec fn category_opts() -> Seq<OptSpec> {
    seq![opt("category", Some('c'), true)]
}

/// The options of `update`: new title, category.
pub open spec fn update_opts() -> Seq<OptSpec> {
    seq![opt("to", Some('t'), true), opt("category", Some('c'), true)]
}

/// The options of `move`: target, source, task.
pub open spec fn move_opts() -> Seq<OptSpec> {
    seq![opt("to", Some('t'), true), opt("from", None, true), opt("task", None, true)]
}

/// The options of `list`: search, completed (a flag), priority.
pub open spec fn list_opts() -> Seq<OptSpec> {
    seq![opt("search", Some('s'), true), opt("completed", Some('c'), false), opt("priority", Some('p'), true)]
}

/// The options of `category delete`: the category that takes the tasks.
pub open spec fn new_category_opts() -> Seq<OptSpec> {
    seq![opt("new-category", Some('n'), true)]
}

fn options_of(word: CommandWord) -> (r: Vec<OptSpec>)
    ensures
        r@ == match word {
            CommandWord::Add => add_opts(),
            CommandWord::Delete | CommandWord::Check | CommandWord::Uncheck => category_opts(),
            CommandWord::Update => update_opts(),
            CommandWord::Move => move_opts(),
            CommandWord::List => list_opts(),
            _ => Seq::<OptSpec>::empty(),
        },
{
    let mut r: Vec<OptSpec> = Vec::new();
    match word {
        CommandWord::Add => {
            r.push(OptSpec { long: "category", short: Some('c'), takes_value: true });
            r.push(OptSpec { long: "priority", short: Some('p'), takes_value: true });
        },
        CommandWord::Delete | CommandWord::Check | CommandWord::Uncheck => {
            r.push(OptSpec { long: "category", short: Some('c'), takes_value: true });
        },
        CommandWord::Update => {
            r.push(OptSpec { long: "to", short: Some('t'), takes_value: true });
            r.push(OptSpec { long: "category", short: Some('c'), takes_value: true });
        },
        CommandWord::Move => {
            r.push(OptSpec { long: "to", short: Some('t'), takes_value: true });
            r.push(OptSpec { long: "from", short: None, takes_value: true });
            r.push(OptSpec { long: "task", short: None, takes_value: true });
        },
        CommandWord::List => {
            r.push(OptSpec { long: "search", short: Some('s'), takes_value: true });
            r.push(OptSpec { long: "completed", short: Some('c'), takes_value: false });
            r.push(OptSpec { long: "priority", short: Some('p'), takes_value: true });
        },
        _ => {},
    }
    assert(r@ =~= match word {
        CommandWord::Add => add_opts(),
        CommandWord::Delete | CommandWord::Check | CommandWord::Uncheck => category_opts(),
        CommandWord::Update => update_opts(),
        CommandWord::Move => move_opts(),
        CommandWord::List => list_opts(),
        _ => Seq::<OptSpec>::empty(),
    });
    r
}

/// Scanning from `from` with `opts` succeeds with exactly the positionals `ps`.
pub open spec fn scan_gives(argv: Seq<Seq<char>>, opts: Seq<OptSpec>, from: int, ps: Seq<Seq<char>>) -> bool {
    scanned(argv, opts, from) matches Some(sv) && sv.positionals == ps
}

/// The value of option `o` when scanning from `from` with `opts`.
pub open spec fn value_of(argv: Seq<Seq<char>>, opts: Seq<OptSpec>, from: int, o: int) -> Option<Seq<char>> {
    match scanned(argv, opts, from) {
        Some(sv) => sv.values[o],
        None => None,
    }
}

/// `c` is what the words of `argv` (the program name first) describe.
pub open spec fn describes(argv: Seq<Seq<char>>, c: Commands) -> bool {
    argv.len() >= 2 && match c {
        Commands::Add { title, category, priority } => word_of(argv[1]) == Some(CommandWord::Add)
            && scan_gives(argv, add_opts(), 2, seq![title@])
            && value_of(argv, add_opts(), 2, 0) == Some(category@)
            && priority_field(value_of(argv, add_opts(), 2, 1), priority),
        Commands::Delete { title_or_id, category } => word_of(argv[1]) == Some(CommandWord::Delete)
            && scan_gives(argv, category_opts(), 2, seq![title_or_id@])
            && value_of(argv, category_opts(), 2, 0) == Some(category@),
        Commands::Update { title_or_id, new_title, category } => word_of(argv[1]) == Some(CommandWord::Update)
            && scan_gives(argv, update_opts(), 2, seq![title_or_id@])
            && value_of(argv, update_opts(), 2, 0) == Some(new_title@)
            && value_of(argv, update_opts(), 2, 1) == Some(category@),
        Commands::Check { title_or_id, category } => word_of(argv[1]) == Some(CommandWord::Check)
            && scan_gives(argv, category_opts(), 2, seq![title_or_id@])
            && value_of(argv, category_opts(), 2, 0) == opt_view(category),
        Commands::Uncheck { title_or_id, category } => word_of(argv[1]) == Some(CommandWord::Uncheck)
            && scan_gives(argv, category_opts(), 2, seq![title_or_id@])
            && value_of(argv, category_opts(), 2, 0) == opt_view(category),
        Commands::CheckAll => word_of(argv[1]) == Some(CommandWord::CheckAll)
            && scan_gives(argv, Seq::empty(), 2, Seq::empty()),
        Commands::UncheckAll => word_of(argv[1]) == Some(CommandWord::UncheckAll)
            && scan_gives(argv, Seq::empty(), 2, Seq::empty()),
        Commands::Move { task_name_or_id, to_category, from_category, task } => word_of(argv[1]) == Some(CommandWord::Move)
            && (scanned(argv, move_opts(), 2) matches Some(sv)
            && (match task_name_or_id {
                Some(t) => sv.positionals == seq![t@],
                None => sv.positionals.len() == 0,
            })
            && sv.values[0] == opt_view(to_category)
            && sv.values[1] == opt_view(from_category)
            && sv.values[2] == opt_view(task)),
        Commands::List { search, completed, priority } => word_of(argv[1]) == Some(CommandWord::List)
            && scan_gives(argv, list_opts(), 2, Seq::empty())
            && value_of(argv, list_opts(), 2, 0) == opt_view(search)
            && completed == (value_of(argv, list_opts(), 2, 1) is Some)
            && priority_field(value_of(argv, list_opts(), 2, 2), priority),
        Commands::Category { command } => word_of(argv[1]) == Some(CommandWord::Category)
            && argv.len() >= 3 && describes_category(argv, command),
        Commands::Config { command } => word_of(argv[1]) == Some(CommandWord::Config)
            && argv.len() >= 3 && describes_config(argv, command),
        Commands::Flush => word_of(argv[1]) == Some(CommandWord::Flush)
            && scan_gives(argv, Seq::empty(), 2, Seq::empty()),
    }
}

/// `c` is what the words after `category` describe.
pub open spec fn describes_category(argv: Seq<Seq<char>>, c: CategoryCommands) -> bool {
    let w = argv[2];
    match c {
        CategoryCommands::Use { category } => w == "use"@ && scan_gives(argv, Seq::empty(), 3, seq![category@]),
        CategoryCommands::Clear => w == "clear"@ && scan_gives(argv, Seq::empty(), 3, Seq::empty()),
        CategoryCommands::Show => w == "show"@ && scan_gives(argv, Seq::empty(), 3, Seq::empty()),
        CategoryCommands::Add { name } => w == "add"@ && scan_gives(argv, Seq::empty(), 3, seq![name@]),
        CategoryCommands::Delete { name_or_id, new_category } => w == "delete"@
            && scan_gives(argv, new_category_opts(), 3, seq![name_or_id@])
            && value_of(argv, new_category_opts(), 3, 0) == opt_view(new_category),
        CategoryCommands::Update { old_name, new_name } => w == "update"@
            && scan_gives(argv, Seq::empty(), 3, seq![old_name@, new_name@]),
        CategoryCommands::List => w == "list"@ && scan_gives(argv, Seq::empty(), 3, Seq::empty()),
        CategoryCommands::Order { category, position } => w == "order"@
            && (scanned(argv, Seq::empty(), 3) matches Some(sv) && sv.positionals.len() == 2
            && sv.positionals[0] == category@ && u32_value(sv.positionals[1]) == Some(position)),
        CategoryCommands::Reorder { categories } => w == "reorder"@
            && scan_gives(argv, Seq::empty(), 3, categories@.map_values(|s: String| s@)),
    }
}

/// `c` is what the words after `config` describe.
pub open spec fn describes_config(argv: Seq<Seq<char>>, c: ConfigCommands) -> bool {
    let w = argv[2];
    match c {
        ConfigCommands::SetValue { key_value } => w == "set"@ && scan_gives(argv, Seq::empty(), 3, seq![key_value@]),
        ConfigCommands::Default { key } => w == "default"@ && scan_gives(argv, Seq::empty(), 3, seq![key@]),
        ConfigCommands::Reset => w == "reset"@ && scan_gives(argv, Seq::empty(), 3, Seq::empty()),
        ConfigCommands::List => w == "list"@ && scan_gives(argv, Seq::empty(), 3, Seq::empty()),
    }
}

/// Takes the one positional a command requires.
fn one_positional(s: &Scanned, what: &str) -> (r: Result<String, CliError>)
    ensures
        r matches Ok(p) ==> s@.positionals == seq![p@],
        s@.positionals.len() == 1 ==> r is Ok,
{
    if s.positionals.len() == 0 {
        return Err(CliError::MissingArgument(what.to_string()));
    }
    if s.positionals.len() > 1 {
        return Err(CliError::UnexpectedArgument(s.positionals[1].clone()));
    }
    let p = s.positionals[0].clone();
    assert(s@.positionals =~= seq![p@]);
    Ok(p)
}

/// Checks that a command got no positional.
fn no_positional(s: &Scanned) -> (r: Result<(), CliError>)
    ensures
        r is Ok <==> s@.positionals.len() == 0,
{
    if s.positionals.len() > 0 {
        return Err(CliError::UnexpectedArgument(s.positionals[0].clone()));
    }
    Ok(())
}

/// Takes the value of a required option.
fn required_value(s: &Scanned, o: usize, what: &str) -> (r: Result<String, CliError>)
    requires
        o < s@.values.len(),
    ensures
        r matches Ok(v) ==> s@.values[o as int] == Some(v@),
        s@.values[o as int] is Some ==> r is Ok,
{
    match &s.values[o] {
        Some(v) => Ok(v.clone()),
        None => Err(CliError::MissingArgument(what.to_string())),
    }
}

fn optional_value(s: &Scanned, o: usize) -> (r: Option<String>)
    requires
        o < s@.values.len(),
    ensures
        opt_view(r) == s@.values[o as int],
{
    crate::text::copy_text(&s.values[o])
}

impl Cli {
    /// Reads a command line; the first argument is the program name.
    pub fn try_parse_from(args: &Vec<String>) -> (r: Result<Cli, CliError>)
        ensures
            r matches Ok(c) ==> describes(arg_views(args@), c.command),
            r is Err ==> forall|c: Commands| !#[trigger] describes(arg_views(args@), c),
            args@.len() < 2 ==> (r matches Err(CliError::MissingCommand)),
            args@.len() >= 2 && word_of(args@[1]@) is None ==> (r matches Err(CliError::UnknownCommand(_))),
    {
        let ghost argv = arg_views(args@);
        if args.len() < 2 {
            return Err(CliError::MissingCommand);
        }
        assert(argv[1] == args@[1]@);
        let word = match parse_word(args[1].as_str()) {
            Some(w) => w,
            None => return Err(CliError::UnknownCommand(args[1].clone())),
        };
        let command = match word {
            CommandWord::Category => Commands::Category { command: match parse_category(args) {
                Ok(c) => c,
                Err(e) => return Err(e),
            } },
            CommandWord::Config => Commands::Config { command: match parse_config(args) {
                Ok(c) => c,
                Err(e) => return Err(e),
            } },
            _ => {
                let opts = options_of(word);
                let s = match scan(args, &opts, 2) {
                    Ok(s) => s,
                    Err(e) => return Err(e),
                };
                match word {
                    CommandWord::Add => {
                        let title = match one_positional(&s, "title") { Ok(p) => p, Err(e) => return Err(e) };
                        let category = match required_value(&s, 0, "--category") { Ok(v) => v, Err(e) => return Err(e) };
                        let priority = match read_priority(&s.values[1]) { Ok(p) => p, Err(e) => return Err(e) };
                        Commands::Add { title, category, priority }
                    },
                    CommandWord::Delete => {
                        let title_or_id = match one_positional(&s, "title or id") { Ok(p) => p, Err(e) => return Err(e) };
                        let category = match required_value(&s, 0, "--category") { Ok(v) => v, Err(e) => return Err(e) };
                        Commands::Delete { title_or_id, category }
                    },
                    CommandWord::Update => {
                        let title_or_id = match one_positional(&s, "title or id") { Ok(p) => p, Err(e) => return Err(e) };
                        let new_title = match required_value(&s, 0, "--to") { Ok(v) => v, Err(e) => return Err(e) };
                        let category = match required_value(&s, 1, "--category") { Ok(v) => v, Err(e) => return Err(e) };
                        Commands::Update { title_or_id, new_title, category }
                    },
                    CommandWord::Check => {
                        let title_or_id = match one_positional(&s, "title or id") { Ok(p) => p, Err(e) => return Err(e) };
                        Commands::Check { title_or_id, category: optional_value(&s, 0) }
                    },
                    CommandWord::Uncheck => {
                        let title_or_id = match one_positional(&s, "title or id") { Ok(p) => p, Err(e) => return Err(e) };
                        Commands::Uncheck { title_or_id, category: optional_value(&s, 0) }
                    },
                    CommandWord::Move => {
                        if s.positionals.len() > 1 {
                            assert(s@.positionals.len() == s.positionals@.len());
                            assert(forall|a: Seq<char>| (#[trigger] seq![a]).len() == 1);
                            return Err(CliError::UnexpectedArgument(s.positionals[1].clone()));
                        }
                        let task_name_or_id = if s.positionals.len() == 1 {
                            assert(s@.positionals =~= seq![s.positionals@[0]@]);
                            Some(s.positionals[0].clone())
                        } else {
                            None
                        };
                        Commands::Move {
                            task_name_or_id,
                            to_category: optional_value(&s, 0),
                            from_category: optional_value(&s, 1),
                            task: optional_value(&s, 2),
                        }
                    },
                    CommandWord::List => {
                        match no_positional(&s) { Ok(()) => {}, Err(e) => return Err(e) }
                        let priority = match read_priority(&s.values[2]) { Ok(p) => p, Err(e) => return Err(e) };
                        Commands::List { search: optional_value(&s, 0), completed: s.values[1].is_some(), priority }
                    },
                    CommandWord::CheckAll => {
                        match no_positional(&s) { Ok(()) => {}, Err(e) => return Err(e) }
                        Commands::CheckAll
                    },
                    CommandWord::UncheckAll => {
                        match no_positional(&s) { Ok(()) => {}, Err(e) => return Err(e) }
                        Commands::UncheckAll
                    },
                    _ => {
                        match no_positional(&s) { Ok(()) => {}, Err(e) => return Err(e) }
                        Commands::Flush
                    },
                }
            },
        };
        Ok(Cli { command })
    }
}

/// The subcommand words that the parsers tell apart by their first letter.
proof fn lemma_subcommand_words_distinct()
    ensures
        "delete"@ != "use"@, "delete"@ != "clear"@, "delete"@ != "show"@, "delete"@ != "add"@,
        "delete"@ != "update"@, "delete"@ != "list"@, "delete"@ != "order"@, "delete"@ != "reorder"@,
        "set"@ != "default"@, "set"@ != "reset"@, "set"@ != "list"@,
        "default"@ != "reset"@, "default"@ != "list"@,
        "use"@ != "clear"@, "use"@ != "show"@, "use"@ != "add"@, "use"@ != "update"@,
        "use"@ != "list"@, "use"@ != "order"@, "use"@ != "reorder"@,
        "add"@ != "clear"@, "add"@ != "show"@, "add"@ != "update"@,
        "add"@ != "list"@, "add"@ != "order"@, "add"@ != "reorder"@,
        "update"@ != "clear"@, "update"@ != "show"@, "update"@ != "list"@, "update"@ != "order"@,
        "update"@ != "reorder"@,
        "order"@ != "clear"@, "order"@ != "show"@, "order"@ != "list"@, "order"@ != "reorder"@,
{
    reveal_strlit("delete");
    reveal_strlit("use");
    reveal_strlit("clear");
    reveal_strlit("show");
    reveal_strlit("add");
    reveal_strlit("update");
    reveal_strlit("list");
    reveal_strlit("order");
    reveal_strlit("reorder");
    reveal_strlit("set");
    reveal_strlit("default");
    reveal_strlit("reset");
    assert("delete"@[0] != "use"@[0]);
    assert("delete"@[0] != "clear"@[0]);
    assert("delete"@[0] != "show"@[0]);
    assert("delete"@[0] != "add"@[0]);
    assert("delete"@[0] != "update"@[0]);
    assert("delete"@[0] != "list"@[0]);
    assert("delete"@[0] != "order"@[0]);
    assert("delete"@[0] != "reorder"@[0]);
    assert("set"@[0] != "default"@[0]);
    assert("set"@[0] != "reset"@[0]);
    assert("set"@[0] != "list"@[0]);
    assert("default"@[0] != "reset"@[0]);
    assert("default"@[0] != "list"@[0]);
    assert("use"@[0] != "clear"@[0]);
    assert("use"@[0] != "show"@[0]);
    assert("use"@[0] != "add"@[0]);
    assert("use"@[1] != "update"@[1]);
    assert("use"@[0] != "list"@[0]);
    assert("use"@[0] != "order"@[0]);
    assert("use"@[0] != "reorder"@[0]);
    assert("add"@[0] != "clear"@[0]);
    assert("add"@[0] != "show"@[0]);
    assert("add"@[0] != "update"@[0]);
    assert("add"@[0] != "list"@[0]);
    assert("add"@[0] != "order"@[0]);
    assert("add"@[0] != "reorder"@[0]);
    assert("update"@[0] != "clear"@[0]);
    assert("update"@[0] != "show"@[0]);
    assert("update"@[0] != "list"@[0]);
    assert("update"@[0] != "order"@[0]);
    assert("update"@[0] != "reorder"@[0]);
    assert("order"@[0] != "clear"@[0]);
    assert("order"@[0] != "show"@[0]);
    assert("order"@[0] != "list"@[0]);
    assert("order"@[0] != "reorder"@[0]);
}

fn parse_category(args: &Vec<String>) -> (r: Result<CategoryCommands, CliError>)
    requires
        args@.len() >= 2,
    ensures
        r matches Ok(c) ==> arg_views(args@).len() >= 3 && describes_category(arg_views(args@), c),
        r is Err ==> forall|c: CategoryCommands| !(arg_views(args@).len() >= 3 && #[trigger] describes_category(arg_views(args@), c)),
{
    let ghost argv = arg_views(args@);
    proof {
        lemma_subcommand_words_distinct();
    }
    if args.len() < 3 {
        return Err(CliError::MissingCommand);
    }
    let w = args[2].as_str();
    assert(argv[2] == w@);
    let none: Vec<OptSpec> = Vec::new();
    if text_eq(w, "delete") {
        let mut opts: Vec<OptSpec> = Vec::new();
        opts.push(OptSpec { long: "new-category", short: Some('n'), takes_value: true });
        assert(opts@ =~= new_category_opts());
        let s = match scan(args, &opts, 3) { Ok(s) => s, Err(e) => return Err(e) };
        let name_or_id = match one_positional(&s, "name or id") { Ok(p) => p, Err(e) => return Err(e) };
        return Ok(CategoryCommands::Delete { name_or_id, new_category: optional_value(&s, 0) });
    }
    assert(none@ =~= Seq::<OptSpec>::empty());
    let s = match scan(args, &none, 3) { Ok(s) => s, Err(e) => return Err(e) };
    if text_eq(w, "use") {
        let category = match one_positional(&s, "category") { Ok(p) => p, Err(e) => return Err(e) };
        Ok(CategoryCommands::Use { category })
    } else if text_eq(w, "add") {
        let name = match one_positional(&s, "name") { Ok(p) => p, Err(e) => return Err(e) };
        Ok(CategoryCommands::Add { name })
    } else if text_eq(w, "update") {
        if s.positionals.len() != 2 {
            assert(s@.positionals.len() == s.positionals@.len());
            assert(forall|a: Seq<char>, b: Seq<char>| (#[trigger] seq![a, b]).len() == 2);
            return Err(CliError::MissingArgument("old and new name".to_string()));
        }
        let old_name = s.positionals[0].clone();
        let new_name = s.positionals[1].clone();
        assert(s@.positionals =~= seq![old_name@, new_name@]);
        Ok(CategoryCommands::Update { old_name, new_name })
    } else if text_eq(w, "order") {
        if s.positionals.len() != 2 {
            return Err(CliError::MissingArgument("category and position".to_string()));
        }
        let category = s.positionals[0].clone();
        let position = match parse_u32(s.positionals[1].as_str()) {
            Some(n) => n,
            None => return Err(CliError::InvalidValue(s.positionals[1].clone())),
        };
        Ok(CategoryCommands::Order { category, position })
    } else if text_eq(w, "reorder") {
        let categories = s.positionals;
        Ok(CategoryCommands::Reorder { categories })
    } else if text_eq(w, "clear") || text_eq(w, "show") || text_eq(w, "list") {
        match no_positional(&s) { Ok(()) => {}, Err(e) => return Err(e) }
        if text_eq(w, "clear") {
            Ok(CategoryCommands::Clear)
        } else if text_eq(w, "show") {
            Ok(CategoryCommands::Show)
        } else {
            Ok(CategoryCommands::List)
        }
    } else {
        Err(CliError::UnknownCommand(args[2].clone()))
    }
}

fn parse_config(args: &Vec<String>) -> (r: Result<ConfigCommands, CliError>)
    requires
        args@.len() >= 2,
    ensures
        r matches Ok(c) ==> arg_views(args@).len() >= 3 && describes_config(arg_views(args@), c),
        r is Err ==> forall|c: ConfigCommands| !(arg_views(args@).len() >= 3 && #[trigger] describes_config(arg_views(args@), c)),
{
    let ghost argv = arg_views(args@);
    proof {
        lemma_subcommand_words_distinct();
    }
    if args.len() < 3 {
        return Err(CliError::MissingCommand);
    }
    let w = args[2].as_str();
    assert(argv[2] == w@);
    let none: Vec<OptSpec> = Vec::new();
    assert(none@ =~= Seq::<OptSpec>::empty());
    let s = match scan(args, &none, 3) { Ok(s) => s, Err(e) => return Err(e) };
    if text_eq(w, "set") {
        let key_value = match one_positional(&s, "key=value") { Ok(p) => p, Err(e) => return Err(e) };
        Ok(ConfigCommands::SetValue { key_value })
    } else if text_eq(w, "default") {
        let key = match one_positional(&s, "key") { Ok(p) => p, Err(e) => return Err(e) };
        Ok(ConfigCommands::Default { key })
    } else if text_eq(w, "reset") || text_eq(w, "list") {
        match no_positional(&s) { Ok(()) => {}, Err(e) => return Err(e) }
        if text_eq(w, "reset") {
            Ok(ConfigCommands::Reset)
        } else {
            Ok(ConfigCommands::List)
        }
    } else {
        Err(CliError::UnknownCommand(args[2].clone()))
    }
}

} // verus!
