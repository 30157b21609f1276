//! One Vyper contract: where its source is, where its ABI goes, which compiler
//! builds it, and what the compiler's output means for it.
use vstd::prelude::*;

use crate::errors::VyperErrors;
use crate::json::{is_json, parse_json};
use crate::paths::{
    json_sibling, opt_text, pip_binary, resolve_pip, resolve_vyper, vyper_binary,
    with_json_extension,
};
use crate::process::{
    bytecode_of, compiler_args, compiler_args_spec, extract_bytecode, Evm, Format, Invocation,
    ProcessOutput,
};

verus! {

/// A Vyper contract. The ABI path need not exist yet: it is where the ABI is written.
#[derive(Debug, Clone, PartialEq, Eq, PartialOrd, Ord, Hash)]
pub struct Vyper {
    pub path_to_code: String,
    pub bytecode: Option<String>,
    pub abi: String,
    /// Root of the isolated environment whose compiler builds this contract;
    /// `None` for the compiler on `PATH`.
    pub venv: Option<String>,
}

/// `after` is `before` once the compiler's output `out` has been applied: the
/// bytecode is replaced on success and kept on failure, the rest is kept.
pub open spec fn compiled_unit(before: Vyper, after: Vyper, out: ProcessOutput) -> bool {
    &&& after.path_to_code == before.path_to_code
    &&& after.abi == before.abi
    &&& after.venv == before.venv
    &&& if out.success {
        after.bytecode matches Some(b) && b@ == bytecode_of(out.stdout@)
    } else {
        after.bytecode == before.bytecode
    }
}

/// `e` is the error that the compiler's failed run `out` stands for.
pub open spec fn is_compiler_error(e: VyperErrors, out: ProcessOutput) -> bool {
    e matches VyperErrors::CompilerError(s) && s@ == out.stderr@
}

/// Whether the compiler succeeded and printed a JSON value.
pub open spec fn yields_json(out: ProcessOutput) -> bool {
    out.success && is_json(out.stdout@)
}

/// `e` is the error that `out` stands for when it yields no JSON value.
pub open spec fn is_json_error(e: VyperErrors, out: ProcessOutput) -> bool {
    if out.success {
        e is SerializationError
    } else {
        is_compiler_error(e, out)
    }
}

/// Reads the JSON value that the compiler printed (an ABI, a storage layout, an AST).
pub fn json_from_output(out: &ProcessOutput) -> (r: Result<serde_json::Value, VyperErrors>)
    ensures
        r is Ok <==> yields_json(*out),
        r matches Err(e) ==> is_json_error(e, *out),
{
    if !out.success {
        return Err(VyperErrors::CompilerError(out.stderr.clone()));
    }
    match parse_json(out.stdout.as_str()) {
        Ok(v) => Ok(v),
        Err(e) => Err(VyperErrors::SerializationError(e)),
    }
}

/// Reads the text that the compiler printed (an interface, opcodes, documentation).
pub fn text_from_output(out: &ProcessOutput) -> (r: Result<String, VyperErrors>)
    ensures
        out.success ==> (r matches Ok(s) && s@ == out.stdout@),
        !out.success ==> (r matches Err(e) && is_compiler_error(e, *out)),
{
    if out.success {
        Ok(out.stdout.clone())
    } else {
        Err(VyperErrors::CompilerError(out.stderr.clone()))
    }
}

impl Vyper {
    /// A contract whose ABI goes next to its source, with a `.json` extension.
    pub fn new(path: &str) -> (r: Self)
        ensures
            r.path_to_code@ == path@,
            r.bytecode is None,
            r.abi@ == json_sibling(path@),
            r.venv is None,
    {
        Vyper {
            path_to_code: String::from_str(path),
            bytecode: None,
            abi: with_json_extension(path),
            venv: None,
        }
    }

    /// A contract whose ABI goes to `abi_path`.
    pub fn with_abi(root: &str, abi_path: String) -> (r: Self)
        ensures
            r.path_to_code@ == root@,
            r.bytecode is None,
            r.abi == abi_path,
            r.venv is None,
    {
        Vyper { path_to_code: String::from_str(root), bytecode: None, abi: abi_path, venv: None }
    }

    /// A contract built by the compiler of the environment rooted at `venv`.
    pub fn with_venv(path: &str, venv: &str) -> (r: Self)
        ensures
            r.path_to_code@ == path@,
            r.bytecode is None,
            r.abi@ == json_sibling(path@),
            opt_text(r.venv) == Some(venv@),
    {
        Vyper {
            path_to_code: String::from_str(path),
            bytecode: None,
            abi: with_json_extension(path),
            venv: Some(String::from_str(venv)),
        }
    }

    /// A contract built in the environment rooted at `venv`, its ABI going to `abi`.
    pub fn with_venv_and_abi(path: &str, venv: &str, abi: String) -> (r: Self)
        ensures
            r.path_to_code@ == path@,
            r.bytecode is None,
            r.abi == abi,
            opt_text(r.venv) == Some(venv@),
    {
        Vyper {
            path_to_code: String::from_str(path),
            bytecode: None,
            abi,
            venv: Some(String::from_str(venv)),
        }
    }

    /// The ABI path, to be changed in place.
    pub fn abi_mut(&mut self) -> (r: &mut String)
        ensures
            *r == old(self).abi,
            final(self).abi == *final(r),
            final(self).path_to_code == old(self).path_to_code,
            final(self).bytecode == old(self).bytecode,
            final(self).venv == old(self).venv,
    {
        &mut self.abi
    }

    /// The compiler that builds this contract.
    pub fn get_vyper(&self) -> (r: String)
        ensures
            r@ == vyper_binary(opt_text(self.venv)),
    {
        resolve_vyper(&self.venv)
    }

    /// The package manager of the environment that builds this contract.
    pub fn get_pip(&self) -> (r: String)
        ensures
            r@ == pip_binary(opt_text(self.venv)),
    {
        resolve_pip(&self.venv)
    }

    /// The command that asks the compiler for `format` of this contract,
    /// targeting `evm` when given.
    pub fn invocation(&self, evm: Option<Evm>, format: Format) -> (r: Invocation)
        ensures
            r.program@ == vyper_binary(opt_text(self.venv)),
            r.args.deep_view() == compiler_args_spec(self.path_to_code@, evm, format),
    {
        Invocation {
            program: self.get_vyper(),
            args: compiler_args(self.path_to_code.as_str(), evm, format),
        }
    }

    /// The command that runs this contract's compiler with the single argument `flag`
    /// (`--version` to ask its version, `-h` to see that it can be started).
    pub fn probe(&self, flag: &str) -> (r: Invocation)
        ensures
            r.program@ == vyper_binary(opt_text(self.venv)),
            r.args.deep_view() == seq![flag@],
    {
        let mut args: Vec<String> = Vec::new();
        args.push(String::from_str(flag));
        assert(args.deep_view() =~= seq![flag@]);
        Invocation { program: self.get_vyper(), args }
    }

    /// Applies the output of a bytecode request: on success the bytecode is
    /// what the compiler printed; on failure the contract is left as it was.
    pub fn compile(&mut self, out: &ProcessOutput) -> (r: Result<(), VyperErrors>)
        ensures
            compiled_unit(*old(self), *final(self), *out),
            r is Ok <==> out.success,
            r matches Err(e) ==> is_compiler_error(e, *out),
    {
        if out.success {
            self.bytecode = Some(extract_bytecode(out.stdout.as_str()));
            Ok(())
        } else {
            Err(VyperErrors::CompilerError(out.stderr.clone()))
        }
    }

    /// Reads the ABI out of the output of an ABI request for this contract.
    pub fn get_abi(&self, out: &ProcessOutput) -> (r: Result<serde_json::Value, VyperErrors>)
        ensures
            r is Ok <==> yields_json(*out),
            r matches Err(e) ==> is_json_error(e, *out),
    {
        json_from_output(out)
    }

    /// Reads the compiler's version out of the output of a version request.
    pub fn get_version(&self, out: &ProcessOutput) -> (r: Result<String, VyperErrors>)
        ensures
            out.success ==> (r matches Ok(v) && v@ == out.stdout@),
            !out.success ==> (r matches Err(VyperErrors::VersionQueryError(e)) && e@
                == out.stderr@),
    {
        if out.success {
            Ok(out.stdout.clone())
        } else {
            Err(VyperErrors::VersionQueryError(out.stderr.clone()))
        }
    }
}

/// Index of the first unsuccessful output, or the number of outputs when all succeeded.
pub open spec fn first_failure(outs: Seq<ProcessOutput>) -> int
    decreases outs.len(),
{
    if outs.len() == 0 {
        0
    } else if first_failure(outs.drop_last()) < outs.len() - 1 {
        first_failure(outs.drop_last())
    } else if outs.last().success {
        outs.len() as int
    } else {
        outs.len() - 1
    }
}

/// `first_failure` is the index of the first unsuccessful output, or the
/// number of outputs when none failed.
pub proof fn lemma_first_failure(outs: Seq<ProcessOutput>)
    ensures
        0 <= first_failure(outs) <= outs.len(),
        forall|k: int| 0 <= k < first_failure(outs) ==> (#[trigger] outs[k]).success,
        first_failure(outs) < outs.len() ==> !outs[first_failure(outs)].success,
    decreases outs.len(),
{
    if outs.len() > 0 {
        lemma_first_failure(outs.drop_last());
        assert forall|k: int| 0 <= k < first_failure(outs) implies (#[trigger] outs[k]).success by {
            if k < outs.len() - 1 {
                assert(outs[k] == outs.drop_last()[k]);
            }
        }
    }
}

/// Contracts compiled side by side, each by its own compiler run.
#[derive(Debug, Clone, PartialEq, Eq, PartialOrd, Ord, Hash, Default)]
pub struct VyperStack(pub Vec<Vyper>);

impl VyperStack {
    /// The command for each contract, in order.
    pub fn invocations(&self, evm: Option<Evm>, format: Format) -> (r: Vec<Invocation>)
        ensures
            r@.len() == self.0@.len(),
            forall|i: int|
                0 <= i < r@.len() ==> (#[trigger] r@[i]).program@ == vyper_binary(
                    opt_text(self.0@[i].venv),
                ) && r@[i].args.deep_view() == compiler_args_spec(
                    self.0@[i].path_to_code@,
                    evm,
                    format,
                ),
    {
        let mut out: Vec<Invocation> = Vec::new();
        let mut i: usize = 0;
        while i < self.0.len()
            invariant
                i <= self.0@.len(),
                out@.len() == i,
                forall|k: int|
                    0 <= k < i ==> (#[trigger] out@[k]).program@ == vyper_binary(
                        opt_text(self.0@[k].venv),
                    ) && out@[k].args.deep_view() == compiler_args_spec(
                        self.0@[k].path_to_code@,
                        evm,
                        format,
                    ),
            decreases self.0@.len() - i,
        {
            out.push(self.0[i].invocation(evm, format));
            i = i + 1;
        }
        out
    }

    /// Applies each contract's output to it, outputs aligned with the contracts.
    /// Every contract whose run succeeded gets its bytecode; the result is the
    /// error of the first contract whose run failed, if any.
    pub fn compile_many(&mut self, outs: &Vec<ProcessOutput>) -> (r: Result<(), VyperErrors>)
        requires
            outs@.len() == old(self).0@.len(),
        ensures
            final(self).0@.len() == old(self).0@.len(),
            forall|i: int|
                0 <= i < outs@.len() ==> compiled_unit(
                    old(self).0@[i],
                    #[trigger] final(self).0@[i],
                    outs@[i],
                ),
            r is Ok <==> first_failure(outs@) == outs@.len(),
            r matches Err(e) ==> is_compiler_error(e, outs@[first_failure(outs@)]),
    {
        let ghost before = self.0@;
        proof {
            lemma_first_failure(outs@);
        }
        let mut first: Option<usize> = None;
        let mut i: usize = 0;
        while i < outs.len()
            invariant
                outs@.len() == before.len(),
                self.0@.len() == before.len(),
                i <= before.len(),
                forall|k: int| 0 <= k < i ==> compiled_unit(before[k], #[trigger] self.0@[k], outs@[k]),
                forall|k: int| i <= k < before.len() ==> #[trigger] self.0@[k] == before[k],
                0 <= first_failure(outs@) <= outs@.len(),
                forall|k: int| 0 <= k < first_failure(outs@) ==> (#[trigger] outs@[k]).success,
                first_failure(outs@) < outs@.len() ==> !outs@[first_failure(outs@)].success,
                match first {
                    Some(j) => j == first_failure(outs@) && j < i,
                    None => first_failure(outs@) >= i,
                },
            decreases before.len() - i,
        {
            let res = self.0[i].compile(&outs[i]);
            if res.is_err() && first.is_none() {
                first = Some(i);
            }
            i = i + 1;
        }
        match first {
            Some(j) => Err(VyperErrors::CompilerError(outs[j].stderr.clone())),
            None => Ok(()),
        }
    }
}

} // verus!
