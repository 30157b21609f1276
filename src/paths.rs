//! Paths: where the compiler and the package manager live for an optional
//! environment root, where an ABI goes by default, and which files are contracts.
use vstd::prelude::*;

verus! {

/// The text of an optional path.
pub open spec fn opt_text(p: Option<String>) -> Option<Seq<char>> {
    match p {
        Some(s) => Some(s@),
        None => None,
    }
}

/// The compiler inside the environment rooted at `root`, or the one on `PATH`.
pub open spec fn vyper_binary(root: Option<Seq<char>>) -> Seq<char> {
    match root {
        Some(r) => r + "/bin/vyper"@,
        None => "vyper"@,
    }
}

/// The package manager inside the environment rooted at `root`, or the one on `PATH`.
pub open spec fn pip_binary(root: Option<Seq<char>>) -> Seq<char> {
    match root {
        Some(r) => r + "/bin/pip3"@,
        None => "pip3"@,
    }
}

/// Resolves the compiler for an optional environment root.
pub fn resolve_vyper(root: &Option<String>) -> (r: String)
    ensures
        r@ == vyper_binary(opt_text(*root)),
{
    match root {
        Some(dir) => dir.clone().concat("/bin/vyper"),
        None => String::from_str("vyper"),
    }
}

/// Resolves the package manager for an optional environment root.
pub fn resolve_pip(root: &Option<String>) -> (r: String)
    ensures
        r@ == pip_binary(opt_text(*root)),
{
    match root {
        Some(dir) => dir.clone().concat("/bin/pip3"),
        None => String::from_str("pip3"),
    }
}

/// The path that `std::path::Path::with_extension(path, "json")` gives.
pub uninterp spec fn json_sibling(path: Seq<char>) -> Seq<char>;

/// Relies on `std::path::Path::with_extension`: the same path with its
/// extension replaced by `json`, read back as text.
#[verifier::external_body]
pub(crate) fn with_json_extension(path: &str) -> (r: String)
    ensures
        r@ == json_sibling(path@),
{
    std::path::Path::new(path).with_extension("json").to_string_lossy().into_owned()
}

/// Whether `path` names a Vyper source file: it ends with `.vy`.
pub open spec fn is_contract(path: Seq<char>) -> bool {
    path.len() >= 3 && path.subrange(path.len() - 3, path.len() as int) == ".vy"@
}

/// The entries of a directory listing that name Vyper source files, in order.
pub open spec fn contracts_among(entries: Seq<Seq<char>>) -> Seq<Seq<char>>
    decreases entries.len(),
{
    if entries.len() == 0 {
        Seq::empty()
    } else if is_contract(entries.last()) {
        contracts_among(entries.drop_last()).push(entries.last())
    } else {
        contracts_among(entries.drop_last())
    }
}

fn ends_with_vy(path: &String) -> (r: bool)
    ensures
        r == is_contract(path@),
{
    let s = path.as_str();
    let n = s.unicode_len();
    proof {
        reveal_strlit(".vy");
    }
    if n < 3 {
        return false;
    }
    let r = s.get_char(n - 3) == '.' && s.get_char(n - 2) == 'v' && s.get_char(n - 1) == 'y';
    let ghost tail = s@.subrange(n - 3, n as int);
    assert(r ==> tail =~= ".vy"@);
    assert(tail == ".vy"@ ==> tail[0] == '.' && tail[1] == 'v' && tail[2] == 'y');
    r
}

/// Keeps the entries of a directory listing that name Vyper source files.
pub fn contracts_in(entries: &Vec<String>) -> (r: Vec<String>)
    ensures
        r.deep_view() == contracts_among(entries.deep_view()),
{
    let mut out: Vec<String> = Vec::new();
    let mut i: usize = 0;
    while i < entries.len()
        invariant
            i <= entries.len(),
            out.deep_view() == contracts_among(entries.deep_view().take(i as int)),
        decreases entries.len() - i,
    {
        let ghost before = entries.deep_view().take(i as int);
        assert(entries.deep_view().take(i + 1).drop_last() =~= before);
        if ends_with_vy(&entries[i]) {
            out.push(entries[i].clone());
        }
        assert(out.deep_view() =~= contracts_among(entries.deep_view().take(i + 1)));
        i = i + 1;
    }
    assert(entries.deep_view().take(i as int) =~= entries.deep_view());
    out
}

} // verus!
