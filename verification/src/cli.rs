//! Raw command-line arguments: split into command, positionals and flags,
//! plus the options shared by many commands.

use vstd::prelude::*;
use crate::text::str_eq;

verus! {

/// An argument is a flag when it starts with `-`.
pub open spec fn is_flag(a: Seq<char>) -> bool {
    a.len() > 0 && a[0] == '-'
}

/// Index of the first argument after the program name and the command.
pub open spec fn arg_start(n: nat, has_command: bool) -> int {
    if has_command { 2 } else { 1 }
}

/// The arguments of `args` that are (when `want_flags`) or are not flags, in order.
pub open spec fn select_args(args: Seq<String>, want_flags: bool) -> Seq<String>
    decreases args.len(),
{
    if args.len() == 0 {
        Seq::empty()
    } else {
        let rest = select_args(args.drop_last(), want_flags);
        if is_flag(args.last()@) == want_flags {
            rest.push(args.last())
        } else {
            rest
        }
    }
}

/// The arguments that follow the program name and the command.
pub open spec fn tail_args(raw: Seq<String>) -> Seq<String> {
    if raw.len() > 1 {
        raw.subrange(2, raw.len() as int)
    } else {
        Seq::empty()
    }
}

/// Value of a decimal digit character.
pub open spec fn digit_val(c: char) -> nat {
    (c as nat - '0' as nat) as nat
}

/// Whether `c` is one of `0`..`9`.
pub open spec fn is_digit(c: char) -> bool {
    '0' <= c && c <= '9'
}

/// Numeric value of a string of decimal digits.
pub open spec fn digits_value(d: Seq<char>) -> nat
    decreases d.len(),
{
    if d.len() == 0 {
        0
    } else {
        digits_value(d.drop_last()) * 10 + digit_val(d.last())
    }
}

/// The digits of a number written with an optional leading `+`.
pub open spec fn unsigned_digits(s: Seq<char>) -> Seq<char> {
    if s.len() > 0 && s[0] == '+' {
        s.drop_first()
    } else {
        s
    }
}

/// What `str::parse::<usize>` returns: the value of the optionally `+`-prefixed,
/// non-empty digit string when it fits in a `usize`, else nothing.
pub open spec fn parse_usize_spec(s: Seq<char>) -> Option<usize> {
    let d = unsigned_digits(s);
    if d.len() > 0 && (forall|i: int| 0 <= i < d.len() ==> is_digit(#[trigger] d[i]))
        && digits_value(d) <= usize::MAX {
        Some(digits_value(d) as usize)
    } else {
        None
    }
}

proof fn lemma_digits_value_prefix_mono(d: Seq<char>, i: int, j: int)
    requires
        0 <= i <= j <= d.len(),
    ensures
        digits_value(d.subrange(0, i)) <= digits_value(d.subrange(0, j)),
    decreases j - i,
{
    if i < j {
        lemma_digits_value_prefix_mono(d, i, j - 1);
        assert(d.subrange(0, j).drop_last() =~= d.subrange(0, j - 1));
    }
}

/// `s.parse::<usize>().ok()`.
pub fn parse_usize(s: &str) -> (r: Option<usize>)
    ensures
        r == parse_usize_spec(s@),
{
    let n = s.unicode_len();
    let start: usize = if n > 0 && s.get_char(0) == '+' { 1 } else { 0 };
    let ghost d = unsigned_digits(s@);
    assert(d =~= s@.subrange(start as int, n as int));
    if start == n {
        assert(d.len() == 0);
        return None;
    }
    let mut acc: usize = 0;
    let mut i: usize = start;
    while i < n
        invariant
            n == s@.len(),
            start <= i <= n,
            d == s@.subrange(start as int, n as int),
            d == unsigned_digits(s@),
            forall|k: int| 0 <= k < i - start ==> is_digit(#[trigger] d[k]),
            acc == digits_value(d.subrange(0, i - start)),
        decreases n - i,
    {
        let c = s.get_char(i);
        if c < '0' || c > '9' {
            assert(!is_digit(d[i - start]));
            assert(!(forall|k: int| 0 <= k < d.len() ==> is_digit(#[trigger] d[k])));
            assert(parse_usize_spec(s@) is None);
            return None;
        }
        let v: usize = if c == '0' { 0 } else if c == '1' { 1 } else if c == '2' { 2 }
            else if c == '3' { 3 } else if c == '4' { 4 } else if c == '5' { 5 }
            else if c == '6' { 6 } else if c == '7' { 7 } else if c == '8' { 8 } else { 9 };
        assert(v == digit_val(c));
        assert(d.subrange(0, i + 1 - start).drop_last() =~= d.subrange(0, i - start));
        let ghost next = digits_value(d.subrange(0, i + 1 - start));
        assert(next == acc * 10 + v);
        if acc > (usize::MAX - v) / 10 {
            proof {
                let q = (usize::MAX - v) as int;
                let a = acc as int;
                assert(a * 10 + v > usize::MAX) by (nonlinear_arith)
                    requires a > q / 10, q == usize::MAX - v, v <= 9;
                lemma_digits_value_prefix_mono(d, i + 1 - start, d.len() as int);
                assert(d.subrange(0, d.len() as int) =~= d);
                assert(digits_value(d) > usize::MAX);
                assert(parse_usize_spec(s@) is None);
            }
            return None;
        }
        acc = acc * 10 + v;
        i = i + 1;
    }
    assert(d.subrange(0, n - start) =~= d);
    Some(acc)
}

/// Parsed command-line arguments.
#[derive(Debug, Clone)]
pub struct Args {
    /// Raw command line arguments (including program name at index 0)
    pub raw: Vec<String>,
    /// Command name (e.g., "log", "diff", "tui")
    pub command: Option<String>,
    /// Positional arguments
    pub positional: Vec<String>,
    /// Flag arguments (e.g., "--verbose", "-v")
    pub flags: Vec<String>,
}

/// Position in `raw`, at or after `from`, of the first argument equal to `flag`.
pub open spec fn first_index_from(raw: Seq<String>, from: int, flag: Seq<char>) -> Option<int> {
    if exists|i: int| from <= i < raw.len() && raw[i]@ == flag {
        Some(choose|i: int| from <= i < raw.len() && raw[i]@ == flag
            && forall|j: int| from <= j < i ==> raw[j]@ != flag)
    } else {
        None
    }
}

proof fn lemma_first_index_found(raw: Seq<String>, from: int, flag: Seq<char>, i: int)
    requires
        from <= i < raw.len(),
        raw[i]@ == flag,
        forall|k: int| from <= k < i && k < raw.len() ==> raw[k]@ != flag,
    ensures
        first_index_from(raw, from, flag) == Some(i),
{
    let c = choose|c: int| from <= c < raw.len() && raw[c]@ == flag
        && forall|j: int| from <= j < c ==> raw[j]@ != flag;
    assert(from <= i < raw.len() && raw[i]@ == flag
        && forall|j: int| from <= j < i ==> raw[j]@ != flag);
    if c < i {
        assert(raw[c]@ != flag);
    } else if c > i {
        assert(raw[i]@ != flag);
    }
}

proof fn lemma_first_index_absent(raw: Seq<String>, from: int, flag: Seq<char>)
    requires
        forall|k: int| from <= k < raw.len() ==> raw[k]@ != flag,
    ensures
        first_index_from(raw, from, flag) is None,
{
}

/// Position in `raw`, at or after `from`, of the first argument equal to `flag`.
fn find_arg(raw: &Vec<String>, from: usize, flag: &str) -> (r: Option<usize>)
    ensures
        r matches Some(i) ==> i < raw@.len() && first_index_from(raw@, from as int, flag@) == Some(i as int),
        r is None ==> first_index_from(raw@, from as int, flag@) is None,
{
    let mut i: usize = from;
    while i < raw.len()
        invariant
            from <= i,
            forall|k: int| from <= k < i && k < raw@.len() ==> (#[trigger] raw@[k])@ != flag@,
        decreases raw.len() - i,
    {
        if str_eq(raw[i].as_str(), flag) {
            proof {
                lemma_first_index_found(raw@, from as int, flag@, i as int);
            }
            return Some(i);
        }
        i = i + 1;
    }
    proof {
        lemma_first_index_absent(raw@, from as int, flag@);
    }
    None
}

impl Args {
    /// The value that `flag_value` gives: the argument that follows the first
    /// occurrence of the flag (after the command), when the flag was given.
    pub open spec fn flag_value_spec(self, flag: Seq<char>) -> Option<String> {
        if exists|j: int| 0 <= j < self.flags@.len() && self.flags@[j]@ == flag {
            match first_index_from(self.raw@, arg_start(self.raw@.len(), self.command is Some), flag) {
                Some(i) => if i + 1 < self.raw@.len() { Some(self.raw@[i + 1]) } else { None },
                None => None,
            }
        } else {
            None
        }
    }

    /// Parse command line arguments.
    pub fn parse(raw: Vec<String>) -> (r: Self)
        ensures
            r.raw@ == raw@,
            r.command == (if raw@.len() > 1 { Some(raw@[1]) } else { None::<String> }),
            r.flags@ == select_args(tail_args(raw@), true),
            r.positional@ == select_args(tail_args(raw@), false),
    {
        let command = if raw.len() > 1 { Some(raw[1].clone()) } else { None };
        let start: usize = if command.is_some() { 2 } else { 1 };
        let mut positional: Vec<String> = Vec::new();
        let mut flags: Vec<String> = Vec::new();
        let ghost tail = tail_args(raw@);
        let mut i: usize = start;
        if raw.len() <= 1 {
            assert(select_args(tail_args(raw@), true) =~= Seq::<String>::empty());
            assert(select_args(tail_args(raw@), false) =~= Seq::<String>::empty());
            return Args { raw, command, positional, flags };
        }
        while i < raw.len()
            invariant
                start == (if raw@.len() > 1 { 2usize } else { 1usize }),
                start <= i <= raw@.len(),
                tail == raw@.subrange(start as int, raw@.len() as int),
                flags@ == select_args(raw@.subrange(start as int, i as int), true),
                positional@ == select_args(raw@.subrange(start as int, i as int), false),
            decreases raw.len() - i,
        {
            let arg = &raw[i];
            let is_f = arg.as_str().unicode_len() > 0 && arg.as_str().get_char(0) == '-';
            assert(raw@.subrange(start as int, i + 1).drop_last() =~= raw@.subrange(start as int, i as int));
            if is_f {
                flags.push(arg.clone());
            } else {
                positional.push(arg.clone());
            }
            i = i + 1;
        }
        assert(raw@.subrange(start as int, raw@.len() as int) =~= tail);
        Args { raw, command, positional, flags }
    }

    /// Check if a flag is present.
    pub fn has_flag(&self, flag: &str) -> (r: bool)
        ensures
            r == exists|j: int| 0 <= j < self.flags@.len() && self.flags@[j]@ == flag@,
    {
        let mut j: usize = 0;
        while j < self.flags.len()
            invariant
                j <= self.flags@.len(),
                forall|k: int| 0 <= k < j ==> self.flags@[k]@ != flag@,
            decreases self.flags.len() - j,
        {
            if str_eq(self.flags[j].as_str(), flag) {
                return true;
            }
            j = j + 1;
        }
        false
    }

    /// Get a flag value (e.g., "--limit 10" returns Some("10")).
    pub fn flag_value(&self, flag: &str) -> (r: Option<&String>)
        ensures
            match self.flag_value_spec(flag@) {
                Some(v) => r is Some && *r->0 == v,
                None => r is None,
            },
    {
        if !self.has_flag(flag) {
            return None;
        }
        let start: usize = if self.command.is_some() { 2 } else { 1 };
        match find_arg(&self.raw, start, flag) {
            Some(i) => {
                if i < self.raw.len() - 1 {
                    Some(&self.raw[i + 1])
                } else {
                    None
                }
            },
            None => None,
        }
    }

    /// Get a positional argument by index.
    pub fn get(&self, index: usize) -> (r: Option<&String>)
        ensures
            index < self.positional@.len() ==> r is Some && *r->0 == self.positional@[index as int],
            index >= self.positional@.len() ==> r is None,
    {
        if index < self.positional.len() {
            Some(&self.positional[index])
        } else {
            None
        }
    }
}

/// How many entries a listing shows when no `--limit` is given: the
/// default that the subcommands' `--limit` option declares.
pub const DEFAULT_LIMIT: usize = 20;

/// Common command options that appear across multiple commands.
#[derive(Debug, Clone)]
pub struct CommonOptions {
    /// Limit the number of results
    pub limit: Option<usize>,
    /// Filter by branch
    pub branch: Option<String>,
    /// Verbose output
    pub verbose: bool,
    /// Dry run (don't make changes)
    pub dry_run: bool,
}

/// Whether a flag was given, as `Args::has_flag` decides it.
pub open spec fn has_flag_spec(args: Args, flag: Seq<char>) -> bool {
    exists|j: int| 0 <= j < args.flags@.len() && args.flags@[j]@ == flag
}

impl CommonOptions {
    /// The listing length asked for, or the default one.
    pub fn limit_or_default(&self) -> (r: usize)
        ensures
            r == match self.limit {
                Some(l) => l,
                None => DEFAULT_LIMIT,
            },
    {
        match self.limit {
            Some(l) => l,
            None => DEFAULT_LIMIT,
        }
    }

    /// Parse common options from args.
    pub fn from_args(args: &Args) -> (r: Self)
        ensures
            r.limit == (match (if args.flag_value_spec("--limit"@) is Some {
                args.flag_value_spec("--limit"@)
            } else {
                args.flag_value_spec("-l"@)
            }) {
                Some(v) => parse_usize_spec(v@),
                None => None,
            }),
            r.branch == (if args.flag_value_spec("--branch"@) is Some {
                args.flag_value_spec("--branch"@)
            } else {
                args.flag_value_spec("-b"@)
            }),
            r.verbose == (has_flag_spec(*args, "--verbose"@) || has_flag_spec(*args, "-v"@)),
            r.dry_run == (has_flag_spec(*args, "--dry-run"@) || has_flag_spec(*args, "-n"@)),
    {
        let lv = match args.flag_value("--limit") {
            Some(v) => Some(v),
            None => args.flag_value("-l"),
        };
        let limit = match lv {
            Some(v) => parse_usize(v.as_str()),
            None => None,
        };
        let bv = match args.flag_value("--branch") {
            Some(v) => Some(v),
            None => args.flag_value("-b"),
        };
        let branch = match bv {
            Some(v) => Some(v.clone()),
            None => None,
        };
        let verbose = args.has_flag("--verbose") || args.has_flag("-v");
        let dry_run = args.has_flag("--dry-run") || args.has_flag("-n");
        CommonOptions { limit, branch, verbose, dry_run }
    }
}

} // verus!
