//! What the library asks of the outside world and what it reads back: command
//! lines for the compiler and the package manager, and the captured result of
//! running one. Running them is left to the caller.
use vstd::prelude::*;

verus! {

/// One command line: the program to run and its arguments.
#[derive(Clone, Debug, PartialEq, Eq)]
pub struct Invocation {
    pub program: String,
    pub args: Vec<String>,
}

impl Invocation {
    /// The program and the arguments, as text.
    pub open spec fn text(&self) -> (Seq<char>, Seq<Seq<char>>) {
        (self.program@, self.args.deep_view())
    }
}

/// What a finished process left behind: whether it exited with status zero,
/// and its standard output and standard error decoded as text.
#[derive(Clone, Debug, PartialEq, Eq)]
pub struct ProcessOutput {
    pub success: bool,
    pub stdout: String,
    pub stderr: String,
}

/// EVM versions that the compiler can target.
#[derive(Clone, Copy, Debug, PartialEq, Eq, PartialOrd, Ord, Hash, Structural)]
pub enum Evm {
    Byzantium,
    Constantinople,
    Petersburg,
    Istanbul,
    Berlin,
    Paris,
    Shanghai,
    Cancun,
    Atlantis,
    Agharta,
}

/// The command-line name of an EVM version.
pub open spec fn evm_flag(evm: Evm) -> Seq<char> {
    match evm {
        Evm::Byzantium => "byzantium"@,
        Evm::Constantinople => "constantinople"@,
        Evm::Petersburg => "petersburg"@,
        Evm::Istanbul => "istanbul"@,
        Evm::Berlin => "berlin"@,
        Evm::Paris => "paris"@,
        Evm::Shanghai => "shanghai"@,
        Evm::Cancun => "cancun"@,
        Evm::Atlantis => "atlantis"@,
        Evm::Agharta => "agharta"@,
    }
}

impl Evm {
    /// The lower-case name that `--evm-version` takes.
    pub fn as_str(&self) -> (r: &'static str)
        ensures
            r@ == evm_flag(*self),
    {
        match self {
            Evm::Byzantium => "byzantium",
            Evm::Constantinople => "constantinople",
            Evm::Petersburg => "petersburg",
            Evm::Istanbul => "istanbul",
            Evm::Berlin => "berlin",
            Evm::Paris => "paris",
            Evm::Shanghai => "shanghai",
            Evm::Cancun => "cancun",
            Evm::Atlantis => "atlantis",
            Evm::Agharta => "agharta",
        }
    }

    /// Same as `as_str`, as an owned string.
    pub fn to_string(&self) -> (r: String)
        ensures
            r@ == evm_flag(*self),
    {
        String::from_str(self.as_str())
    }
}

/// The artifact that the compiler is asked to print.
#[derive(Clone, Copy, Debug, PartialEq, Eq, Hash, Structural)]
pub enum Format {
    /// Creation bytecode; the compiler's default, asked for with no flag.
    Bytecode,
    BlueprintBytecode,
    Abi,
    Layout,
    Ast,
    ExternalInterface,
    Opcodes,
    OpcodesRuntime,
    Userdoc,
    Devdoc,
}

/// The value given to `-f` for a format, or `None` for the default one.
pub open spec fn format_flag(format: Format) -> Option<Seq<char>> {
    match format {
        Format::Bytecode => None,
        Format::BlueprintBytecode => Some("blueprint_bytecode"@),
        Format::Abi => Some("abi"@),
        Format::Layout => Some("layout"@),
        Format::Ast => Some("ast"@),
        Format::ExternalInterface => Some("external_interface"@),
        Format::Opcodes => Some("opcodes"@),
        Format::OpcodesRuntime => Some("opcodes_runtime"@),
        Format::Userdoc => Some("userdoc"@),
        Format::Devdoc => Some("devdoc"@),
    }
}

impl Format {
    /// The value given to `-f`, or `None` for the default format.
    pub fn flag(&self) -> (r: Option<&'static str>)
        ensures
            match r {
                Some(s) => format_flag(*self) == Some(s@),
                None => format_flag(*self) is None,
            },
    {
        match self {
            Format::Bytecode => None,
            Format::BlueprintBytecode => Some("blueprint_bytecode"),
            Format::Abi => Some("abi"),
            Format::Layout => Some("layout"),
            Format::Ast => Some("ast"),
            Format::ExternalInterface => Some("external_interface"),
            Format::Opcodes => Some("opcodes"),
            Format::OpcodesRuntime => Some("opcodes_runtime"),
            Format::Userdoc => Some("userdoc"),
            Format::Devdoc => Some("devdoc"),
        }
    }
}

/// The compiler's arguments: `<source> [--evm-version <target>] [-f <format>]`.
pub open spec fn compiler_args_spec(source: Seq<char>, evm: Option<Evm>, format: Format) -> Seq<
    Seq<char>,
> {
    seq![source] + match evm {
        Some(e) => seq!["--evm-version"@, evm_flag(e)],
        None => Seq::empty(),
    } + match format_flag(format) {
        Some(f) => seq!["-f"@, f],
        None => Seq::empty(),
    }
}

/// Builds the compiler's arguments for one source file.
pub fn compiler_args(source: &str, evm: Option<Evm>, format: Format) -> (r: Vec<String>)
    ensures
        r.deep_view() == compiler_args_spec(source@, evm, format),
{
    let mut args: Vec<String> = Vec::new();
    args.push(String::from_str(source));
    match evm {
        Some(e) => {
            args.push(String::from_str("--evm-version"));
            args.push(e.to_string());
        },
        None => {},
    }
    match format.flag() {
        Some(f) => {
            args.push(String::from_str("-f"));
            args.push(String::from_str(f));
        },
        None => {},
    }
    assert(args.deep_view() =~= compiler_args_spec(source@, evm, format));
    args
}

/// Characters that surround the compiler's output and are not part of it.
pub open spec fn is_blank(c: char) -> bool {
    c == ' ' || c == '\t' || c == '\n' || c == '\r'
}

/// `s` without the blanks at its end.
pub open spec fn trim_end(s: Seq<char>) -> Seq<char>
    decreases s.len(),
{
    if s.len() > 0 && is_blank(s.last()) {
        trim_end(s.drop_last())
    } else {
        s
    }
}

/// `s` without the blanks at its start.
pub open spec fn trim_start(s: Seq<char>) -> Seq<char>
    decreases s.len(),
{
    if s.len() > 0 && is_blank(s[0]) {
        trim_start(s.drop_first())
    } else {
        s
    }
}

/// `s` without the blanks at either end.
pub open spec fn trimmed(s: Seq<char>) -> Seq<char> {
    trim_start(trim_end(s))
}

/// What follows the last `:` of `s`, or all of `s` when it holds none.
pub open spec fn after_last_colon(s: Seq<char>) -> Seq<char>
    decreases s.len(),
{
    if s.len() == 0 {
        s
    } else if s.last() == ':' {
        Seq::empty()
    } else {
        after_last_colon(s.drop_last()).push(s.last())
    }
}

/// Whether `s` starts with `0x`.
pub open spec fn has_hex_prefix(s: Seq<char>) -> bool {
    s.len() >= 2 && s[0] == '0' && s[1] == 'x'
}

/// The bytecode in the compiler's standard output: the trimmed output when it
/// starts with `0x`, else what follows its last `:`.
pub open spec fn bytecode_of(stdout: Seq<char>) -> Seq<char> {
    let t = trimmed(stdout);
    if has_hex_prefix(t) {
        t
    } else {
        after_last_colon(t)
    }
}

/// Returns `s` without the blanks at either end.
pub fn trim_blanks(s: &str) -> (r: &str)
    ensures
        r@ == trimmed(s@),
{
    let n = s.unicode_len();
    let mut end: usize = n;
    assert(s@.subrange(0, n as int) =~= s@);
    while end > 0 && is_blank_char(s.get_char(end - 1))
        invariant
            n == s@.len(),
            end <= n,
            trim_end(s@) == trim_end(s@.subrange(0, end as int)),
        decreases end,
    {
        assert(s@.subrange(0, end as int).drop_last() =~= s@.subrange(0, end - 1));
        end = end - 1;
    }
    let t = s.substring_char(0, end);
    assert(trim_end(s@) == t@);
    let mut start: usize = 0;
    assert(t@.subrange(0, end as int) =~= t@);
    while start < end && is_blank_char(t.get_char(start))
        invariant
            end == t@.len(),
            start <= end,
            trim_start(t@) == trim_start(t@.subrange(start as int, end as int)),
        decreases end - start,
    {
        assert(t@.subrange(start as int, end as int).drop_first() =~= t@.subrange(
            start + 1,
            end as int,
        ));
        start = start + 1;
    }
    t.substring_char(start, end)
}

fn is_blank_char(c: char) -> (r: bool)
    ensures
        r == is_blank(c),
{
    c == ' ' || c == '\t' || c == '\n' || c == '\r'
}

/// Returns what follows the last `:` of `s`, or all of `s` when it holds none.
pub fn after_colon(s: &str) -> (r: &str)
    ensures
        r@ == after_last_colon(s@),
{
    let n = s.unicode_len();
    let mut i: usize = n;
    assert(s@.subrange(0, n as int) =~= s@);
    assert(s@.subrange(n as int, n as int) =~= Seq::<char>::empty());
    while i > 0 && s.get_char(i - 1) != ':'
        invariant
            n == s@.len(),
            i <= n,
            after_last_colon(s@) == after_last_colon(s@.subrange(0, i as int)) + s@.subrange(
                i as int,
                n as int,
            ),
        decreases i,
    {
        let ghost p = s@.subrange(0, i as int);
        assert(p.drop_last() =~= s@.subrange(0, i - 1));
        assert(s@.subrange(i - 1, n as int) =~= seq![p.last()] + s@.subrange(i as int, n as int));
        assert(after_last_colon(p) == after_last_colon(p.drop_last()).push(p.last()));
        i = i - 1;
    }
    if i == 0 {
        assert(s@.subrange(0, n as int) =~= s@);
    }
    s.substring_char(i, n)
}

/// Extracts the bytecode from the compiler's standard output.
pub fn extract_bytecode(stdout: &str) -> (r: String)
    ensures
        r@ == bytecode_of(stdout@),
{
    let t = trim_blanks(stdout);
    let n = t.unicode_len();
    if n >= 2 && t.get_char(0) == '0' && t.get_char(1) == 'x' {
        String::from_str(t)
    } else {
        String::from_str(after_colon(t))
    }
}

} // verus!
