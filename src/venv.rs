//! Provisioning of the compiler as a typestate machine. A `Venv<S>` can only do
//! what state `S` allows: contracts can be built only from `Venv<Ready>` (in an
//! isolated environment) or `Venv<Complete>` (with the global compiler), and
//! those states are reached only through a transition that saw the compiler
//! installed. Each transition takes what the outside world answered (a
//! process's output, whether a file exists) and decides the next state; the
//! commands to run are built here too.
use core::marker::PhantomData;
use vstd::prelude::*;

use crate::errors::VyperErrors;
use crate::paths::{contracts_among, json_sibling, opt_text, pip_binary, vyper_binary};
use crate::process::{Invocation, ProcessOutput};
use crate::vyper::{first_failure, lemma_first_failure, Vyper};
use crate::vypers::{derived_abis, Vypers};

verus! {

/// Default state on construction. Can move to `Initialized` or `Skip`.
#[derive(Clone, Copy, Eq, PartialEq, Debug, Structural)]
pub struct NotInitialized;

/// The isolated environment exists. The compiler can be installed into it, or
/// found there, to move to `Ready`.
#[derive(Clone, Copy, Eq, PartialEq, Debug, Structural)]
pub struct Initialized;

/// No isolated environment is used. The compiler can be installed globally, or
/// found on `PATH`, to move to `Complete`.
#[derive(Clone, Copy, Eq, PartialEq, Debug, Structural)]
pub struct Skip;

/// The compiler is installed in the isolated environment.
#[derive(Clone, Copy, Eq, PartialEq, Debug, Structural)]
pub struct Ready;

/// The compiler is installed globally.
#[derive(Clone, Copy, Eq, PartialEq, Debug, Structural)]
pub struct Complete;

/// Where the isolated environment lives unless told otherwise.
pub const DEFAULT_VENV: &'static str = "./venv";

/// The compiler's toolchain, in state `State`.
#[derive(Eq, PartialEq, Debug)]
pub struct Venv<State = NotInitialized> {
    venv_path: String,
    state: PhantomData<State>,
}

impl<State> Clone for Venv<State> {
    fn clone(&self) -> Self {
        Venv { venv_path: self.venv_path.clone(), state: PhantomData }
    }
}

/// The arguments that install the compiler, pinned to `version` when given.
pub open spec fn install_args(version: Option<Seq<char>>) -> Seq<Seq<char>> {
    seq![
        "install"@,
        match version {
            Some(v) => "vyper=="@ + v,
            None => "vyper"@,
        },
    ]
}

/// The commands that create the environment rooted at `root`: none when it is
/// already there, else a directory and a Python virtual environment in it.
pub open spec fn init_steps_spec(root: Seq<char>, present: bool) -> Seq<
    (Seq<char>, Seq<Seq<char>>),
> {
    if present {
        Seq::empty()
    } else {
        seq![("mkdir"@, seq![root]), ("python3"@, seq!["-m"@, "venv"@, root])]
    }
}

fn install_invocation(program: String, version: Option<&str>) -> (r: Invocation)
    ensures
        r.program == program,
        r.args.deep_view() == install_args(
            match version {
                Some(v) => Some(v@),
                None => None,
            },
        ),
{
    let mut args: Vec<String> = Vec::new();
    args.push(String::from_str("install"));
    match version {
        Some(v) => args.push(String::from_str("vyper==").concat(v)),
        None => args.push(String::from_str("vyper")),
    }
    let r = Invocation { program, args };
    assert(r.args.deep_view() =~= install_args(
        match version {
            Some(v) => Some(v@),
            None => None,
        },
    ));
    r
}

impl<State> Venv<State> {
    /// The root of the isolated environment, as text.
    pub closed spec fn root(&self) -> Seq<char> {
        self.venv_path@
    }

    /// The root of the isolated environment.
    pub fn path(&self) -> (r: &str)
        ensures
            r@ == self.root(),
    {
        self.venv_path.as_str()
    }

    fn into_state<Next>(self) -> (r: Venv<Next>)
        ensures
            r.root() == self.root(),
    {
        Venv { venv_path: self.venv_path, state: PhantomData }
    }
}

impl Default for Venv<NotInitialized> {
    fn default() -> (r: Self)
        ensures
            r.root() == DEFAULT_VENV@,
    {
        Venv { venv_path: String::from_str(DEFAULT_VENV), state: PhantomData }
    }
}

impl Venv<NotInitialized> {
    /// A toolchain whose isolated environment lives at `venv_path`.
    pub fn new(venv_path: &str) -> (r: Venv<NotInitialized>)
        ensures
            r.root() == venv_path@,
    {
        Venv { venv_path: String::from_str(venv_path), state: PhantomData }
    }

    /// The commands that create the environment, given whether its root
    /// already exists; they are to be run in order, stopping at the first failure.
    pub fn init_steps(&self, present: bool) -> (r: Vec<Invocation>)
        ensures
            r@.map_values(|i: Invocation| i.text()) == init_steps_spec(self.root(), present),
    {
        let mut steps: Vec<Invocation> = Vec::new();
        if !present {
            let mut mkdir_args: Vec<String> = Vec::new();
            mkdir_args.push(self.venv_path.clone());
            steps.push(Invocation { program: String::from_str("mkdir"), args: mkdir_args });
            let mut venv_args: Vec<String> = Vec::new();
            venv_args.push(String::from_str("-m"));
            venv_args.push(String::from_str("venv"));
            venv_args.push(self.venv_path.clone());
            steps.push(Invocation { program: String::from_str("python3"), args: venv_args });
            assert(steps@[0].args.deep_view() =~= seq![self.root()]);
            assert(steps@[1].args.deep_view() =~= seq!["-m"@, "venv"@, self.root()]);
        }
        assert(steps@.map_values(|i: Invocation| i.text()) =~= init_steps_spec(
            self.root(),
            present,
        ));
        steps
    }

    /// Moves to `Initialized` once the steps of `init_steps` have run, given
    /// their outputs up to and including the first that failed. Fails with
    /// the stderr of that one.
    pub fn init(self, outs: &Vec<ProcessOutput>) -> (r: Result<Venv<Initialized>, VyperErrors>)
        ensures
            r is Ok <==> first_failure(outs@) == outs@.len(),
            r matches Ok(v) ==> v.root() == self.root(),
            r matches Err(e) ==> (e matches VyperErrors::VenvError(s) && s@ == outs@[first_failure(
                outs@,
            )].stderr@),
    {
        proof {
            lemma_first_failure(outs@);
        }
        let mut i: usize = 0;
        while i < outs.len()
            invariant
                i <= outs@.len(),
                forall|k: int| 0 <= k < i ==> (#[trigger] outs@[k]).success,
                0 <= first_failure(outs@) <= outs@.len(),
                forall|k: int| 0 <= k < first_failure(outs@) ==> (#[trigger] outs@[k]).success,
                first_failure(outs@) < outs@.len() ==> !outs@[first_failure(outs@)].success,
            decreases outs@.len() - i,
        {
            if !outs[i].success {
                return Err(VyperErrors::VenvError(outs[i].stderr.clone()));
            }
            i = i + 1;
        }
        Ok(self.into_state())
    }

    /// Declines the isolated environment, to use the global compiler.
    pub fn skip() -> (r: Venv<Skip>)
        ensures
            r.root() == DEFAULT_VENV@,
    {
        Venv { venv_path: String::from_str(DEFAULT_VENV), state: PhantomData }
    }
}

impl Venv<Initialized> {
    /// The command that installs the compiler into the environment, pinned
    /// to `version` when given.
    pub fn install(&self, version: Option<&str>) -> (r: Invocation)
        ensures
            r.program@ == pip_binary(Some(self.root())),
            r.args.deep_view() == install_args(
                match version {
                    Some(v) => Some(v@),
                    None => None,
                },
            ),
    {
        let program = self.venv_path.clone().concat("/bin/pip3");
        install_invocation(program, version)
    }

    /// Moves to `Ready` when the installation succeeded; else fails with its stderr.
    pub fn ivyper_venv(self, out: &ProcessOutput) -> (r: Result<Venv<Ready>, VyperErrors>)
        ensures
            r is Ok <==> out.success,
            r matches Ok(v) ==> v.root() == self.root(),
            r matches Err(e) ==> (e matches VyperErrors::PipError(s) && s@ == out.stderr@),
    {
        if out.success {
            Ok(self.into_state())
        } else {
            Err(VyperErrors::PipError(out.stderr.clone()))
        }
    }

    /// Where the compiler is once installed in the environment.
    pub fn vyper_path(&self) -> (r: String)
        ensures
            r@ == vyper_binary(Some(self.root())),
    {
        self.venv_path.clone().concat("/bin/vyper")
    }

    /// Moves to `Ready`, without installing anything, when the compiler is
    /// already at `vyper_path`; else fails with `NotInstalled`.
    pub fn try_ready(self, installed: bool) -> (r: Result<Venv<Ready>, VyperErrors>)
        ensures
            r is Ok <==> installed,
            r matches Ok(v) ==> v.root() == self.root(),
            r matches Err(e) ==> e is NotInstalled,
    {
        if installed {
            Ok(self.into_state())
        } else {
            Err(VyperErrors::NotInstalled)
        }
    }
}

impl Venv<Skip> {
    /// The command that installs the compiler globally, pinned to `version`
    /// when given.
    pub fn install(&self, version: Option<&str>) -> (r: Invocation)
        ensures
            r.program@ == pip_binary(None),
            r.args.deep_view() == install_args(
                match version {
                    Some(v) => Some(v@),
                    None => None,
                },
            ),
    {
        install_invocation(String::from_str("pip3"), version)
    }

    /// Moves to `Complete` when the installation succeeded; else fails with its stderr.
    pub fn ivyper_pip(self, out: &ProcessOutput) -> (r: Result<Venv<Complete>, VyperErrors>)
        ensures
            r is Ok <==> out.success,
            r matches Ok(v) ==> v.root() == self.root(),
            r matches Err(e) ==> (e matches VyperErrors::PipError(s) && s@ == out.stderr@),
    {
        if out.success {
            Ok(self.into_state())
        } else {
            Err(VyperErrors::PipError(out.stderr.clone()))
        }
    }

    /// Moves to `Complete` when the compiler on `PATH` could be started; else
    /// fails with `NotInstalled`.
    pub fn try_ready(self, found: bool) -> (r: Result<Venv<Complete>, VyperErrors>)
        ensures
            r is Ok <==> found,
            r matches Ok(v) ==> v.root() == self.root(),
            r matches Err(e) ==> e is NotInstalled,
    {
        if found {
            Ok(self.into_state())
        } else {
            Err(VyperErrors::NotInstalled)
        }
    }
}

impl Venv<Complete> {
    /// A contract built by the global compiler.
    pub fn vyper(self, path_to_contract: &str) -> (r: Vyper)
        ensures
            r.path_to_code@ == path_to_contract@,
            r.abi@ == json_sibling(path_to_contract@),
            r.bytecode is None,
            r.venv is None,
    {
        Vyper::new(path_to_contract)
    }

    /// A batch built by the global compiler.
    pub fn vypers(self, paths: Vec<String>) -> (r: Vypers)
        ensures
            r.well_formed(),
            r.path_to_code == paths,
            derived_abis(paths@, r.abi@),
            r.bytecode is None,
            r.venv is None,
    {
        Vypers::new(paths)
    }

    /// A contract built by the global compiler, its ABI going to `abi`.
    pub fn vyper_with_abi(self, path: &str, abi: String) -> (r: Vyper)
        ensures
            r.path_to_code@ == path@,
            r.abi == abi,
            r.bytecode is None,
            r.venv is None,
    {
        Vyper::with_abi(path, abi)
    }

    /// The batch of the Vyper sources in a directory listing, built by the
    /// global compiler; `None` when the directory could not be read.
    pub fn vypers_from_dir(self, listing: Option<Vec<String>>) -> (r: Option<Vypers>)
        ensures
            listing is None <==> r is None,
            listing matches Some(entries) ==> (r matches Some(v) && v.well_formed()
                && v.path_to_code.deep_view() == contracts_among(entries.deep_view())
                && derived_abis(v.path_to_code@, v.abi@) && v.bytecode is None
                && v.venv is None),
    {
        Vypers::in_dir(listing)
    }
}

impl Venv<Ready> {
    /// A contract built by the environment's compiler.
    pub fn vyper(self, path_to_contract: &str) -> (r: Vyper)
        ensures
            r.path_to_code@ == path_to_contract@,
            r.abi@ == json_sibling(path_to_contract@),
            r.bytecode is None,
            opt_text(r.venv) == Some(self.root()),
    {
        Vyper::with_venv(path_to_contract, self.venv_path.as_str())
    }

    /// A batch built by the environment's compiler.
    pub fn vypers(self, paths: Vec<String>) -> (r: Vypers)
        ensures
            r.well_formed(),
            r.path_to_code == paths,
            derived_abis(paths@, r.abi@),
            r.bytecode is None,
            opt_text(r.venv) == Some(self.root()),
    {
        Vypers::with_venv(paths, self.venv_path.as_str())
    }

    /// A contract built by the environment's compiler, its ABI going to `abi`.
    pub fn vyper_with_abi(self, path: &str, abi: String) -> (r: Vyper)
        ensures
            r.path_to_code@ == path@,
            r.abi == abi,
            r.bytecode is None,
            opt_text(r.venv) == Some(self.root()),
    {
        Vyper::with_venv_and_abi(path, self.venv_path.as_str(), abi)
    }

    /// The batch of the Vyper sources in a directory listing, built by the
    /// environment's compiler; `None` when the directory could not be read.
    pub fn vypers_from_dir(self, listing: Option<Vec<String>>) -> (r: Option<Vypers>)
        ensures
            listing is None <==> r is None,
            listing matches Some(entries) ==> (r matches Some(v) && v.well_formed()
                && v.path_to_code.deep_view() == contracts_among(entries.deep_view())
                && derived_abis(v.path_to_code@, v.abi@) && v.bytecode is None
                && opt_text(v.venv) == Some(self.root())),
    {
        match Vypers::in_dir(listing) {
            Some(v) => Some(v.set_venv(self.venv_path)),
            None => None,
        }
    }
}

} // verus!
