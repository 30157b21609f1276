//! A batch of Vyper contracts compiled together. Index `i` of the source
//! paths, of the ABI paths and of the bytecode always denotes the same contract.
use vstd::prelude::*;

use crate::errors::VyperErrors;
use crate::paths::{
    contracts_among, contracts_in, json_sibling, opt_text, pip_binary, resolve_pip,
    resolve_vyper, vyper_binary, with_json_extension,
};
use crate::process::{
    bytecode_of, compiler_args, compiler_args_spec, extract_bytecode, Evm, Format, Invocation,
    ProcessOutput,
};
use crate::vyper::{
    json_from_output, yields_json, first_failure, is_json_error, is_compiler_error,
    lemma_first_failure, Vyper,
};

verus! {

/// A batch of contracts.
#[derive(Debug, Clone, PartialEq, Eq, PartialOrd, Ord, Hash, Default)]
pub struct Vypers {
    pub path_to_code: Vec<String>,
    /// The bytecode of each contract, once the batch has been compiled.
    pub bytecode: Option<Vec<String>>,
    pub abi: Vec<String>,
    /// Root of the isolated environment whose compiler builds the batch;
    /// `None` for the compiler on `PATH`.
    pub venv: Option<String>,
}

/// Whether `abis` are the `.json` siblings of `paths`, one for one.
pub open spec fn derived_abis(paths: Seq<String>, abis: Seq<String>) -> bool {
    &&& abis.len() == paths.len()
    &&& forall|i: int| 0 <= i < paths.len() ==> (#[trigger] abis[i])@ == json_sibling(paths[i]@)
}

/// The environment of the last of `units`, or none when there are no units.
pub open spec fn last_venv(units: Seq<Vyper>) -> Option<String> {
    if units.len() == 0 {
        None
    } else {
        units.last().venv
    }
}

impl Vypers {
    /// Every contract has one ABI path and, once compiled, one bytecode.
    pub open spec fn well_formed(&self) -> bool {
        &&& self.abi@.len() == self.path_to_code@.len()
        &&& self.bytecode matches Some(b) ==> b@.len() == self.path_to_code@.len()
    }

    fn json_siblings(paths: &Vec<String>) -> (r: Vec<String>)
        ensures
            derived_abis(paths@, r@),
    {
        let mut abis: Vec<String> = Vec::new();
        let mut i: usize = 0;
        while i < paths.len()
            invariant
                i <= paths@.len(),
                abis@.len() == i,
                forall|k: int| 0 <= k < i ==> (#[trigger] abis@[k])@ == json_sibling(paths@[k]@),
            decreases paths@.len() - i,
        {
            abis.push(with_json_extension(paths[i].as_str()));
            i = i + 1;
        }
        abis
    }

    /// A batch with explicit ABI paths, refused when the two lists differ in length.
    pub fn with_all(paths: Vec<String>, abi_paths: Vec<String>, venv: Option<String>) -> (r: Result<
        Self,
        VyperErrors,
    >)
        ensures
            paths@.len() != abi_paths@.len() ==> (r matches Err(VyperErrors::LengthMismatch(
                p,
                a,
            )) && p == paths@.len() && a == abi_paths@.len()),
            paths@.len() == abi_paths@.len() ==> (r matches Ok(v) && v.well_formed()
                && v.path_to_code == paths && v.abi == abi_paths && v.venv == venv
                && v.bytecode is None),
    {
        if paths.len() != abi_paths.len() {
            return Err(VyperErrors::LengthMismatch(paths.len(), abi_paths.len()));
        }
        Ok(Vypers { path_to_code: paths, bytecode: None, abi: abi_paths, venv })
    }

    /// A batch whose ABIs go next to their sources, with a `.json` extension.
    pub fn new(paths: Vec<String>) -> (r: Self)
        ensures
            r.well_formed(),
            r.path_to_code == paths,
            derived_abis(paths@, r.abi@),
            r.bytecode is None,
            r.venv is None,
    {
        let abi = Self::json_siblings(&paths);
        Vypers { path_to_code: paths, bytecode: None, abi, venv: None }
    }

    /// The batch of the Vyper sources in a directory listing; `None` when the
    /// directory could not be read.
    pub fn in_dir(listing: Option<Vec<String>>) -> (r: Option<Vypers>)
        ensures
            listing is None <==> r is None,
            listing matches Some(entries) ==> (r matches Some(v) && v.well_formed()
                && v.path_to_code.deep_view() == contracts_among(entries.deep_view())
                && derived_abis(v.path_to_code@, v.abi@) && v.bytecode is None
                && v.venv is None),
    {
        match listing {
            Some(entries) => Some(Vypers::new(contracts_in(&entries))),
            None => None,
        }
    }

    /// A batch built by the compiler of the environment rooted at `venv`.
    pub fn with_venv(paths: Vec<String>, venv: &str) -> (r: Self)
        ensures
            r.well_formed(),
            r.path_to_code == paths,
            derived_abis(paths@, r.abi@),
            r.bytecode is None,
            opt_text(r.venv) == Some(venv@),
    {
        let abi = Self::json_siblings(&paths);
        Vypers { path_to_code: paths, bytecode: None, abi, venv: Some(String::from_str(venv)) }
    }

    /// The same batch, built by the compiler of the environment rooted at `venv`.
    pub fn set_venv(self, venv: String) -> (r: Vypers)
        ensures
            r.venv == Some(venv),
            r.path_to_code == self.path_to_code,
            r.abi == self.abi,
            r.bytecode == self.bytecode,
    {
        let mut s = self;
        s.venv = Some(venv);
        s
    }

    /// The batch of the given contracts, in order. Their ABIs go next to their
    /// sources, and the batch is built in the environment of the last contract.
    pub fn from_units(units: Vec<Vyper>) -> (r: Vypers)
        ensures
            r.well_formed(),
            r.path_to_code@.len() == units@.len(),
            forall|i: int|
                0 <= i < units@.len() ==> (#[trigger] r.path_to_code@[i])@
                    == units@[i].path_to_code@,
            derived_abis(r.path_to_code@, r.abi@),
            opt_text(r.venv) == opt_text(last_venv(units@)),
            r.bytecode is None,
    {
        let mut paths: Vec<String> = Vec::new();
        let mut venv: Option<String> = None;
        let mut i: usize = 0;
        while i < units.len()
            invariant
                i <= units@.len(),
                paths@.len() == i,
                forall|k: int|
                    0 <= k < i ==> (#[trigger] paths@[k])@ == units@[k].path_to_code@,
                opt_text(venv) == opt_text(last_venv(units@.take(i as int))),
            decreases units@.len() - i,
        {
            paths.push(units[i].path_to_code.clone());
            venv = units[i].venv.clone();
            assert(units@.take(i + 1).last() == units@[i as int]);
            i = i + 1;
        }
        assert(units@.take(i as int) =~= units@);
        match venv {
            Some(v) => Vypers::with_venv(paths, v.as_str()),
            None => Vypers::new(paths),
        }
    }

    /// The compiler that builds the batch.
    pub fn get_vyper(&self) -> (r: String)
        ensures
            r@ == vyper_binary(opt_text(self.venv)),
    {
        resolve_vyper(&self.venv)
    }

    /// The package manager of the environment that builds the batch.
    pub fn get_pip(&self) -> (r: String)
        ensures
            r@ == pip_binary(opt_text(self.venv)),
    {
        resolve_pip(&self.venv)
    }

    /// The command for each contract, aligned with the source paths; all of
    /// them run the one compiler of the batch.
    pub fn invocations(&self, evm: Option<Evm>, format: Format) -> (r: Vec<Invocation>)
        ensures
            r@.len() == self.path_to_code@.len(),
            forall|i: int|
                0 <= i < r@.len() ==> (#[trigger] r@[i]).program@ == vyper_binary(
                    opt_text(self.venv),
                ) && r@[i].args.deep_view() == compiler_args_spec(
                    self.path_to_code@[i]@,
                    evm,
                    format,
                ),
    {
        let program = self.get_vyper();
        let mut out: Vec<Invocation> = Vec::new();
        let mut i: usize = 0;
        while i < self.path_to_code.len()
            invariant
                i <= self.path_to_code@.len(),
                out@.len() == i,
                program@ == vyper_binary(opt_text(self.venv)),
                forall|k: int|
                    0 <= k < i ==> (#[trigger] out@[k]).program@ == vyper_binary(
                        opt_text(self.venv),
                    ) && out@[k].args.deep_view() == compiler_args_spec(
                        self.path_to_code@[k]@,
                        evm,
                        format,
                    ),
            decreases self.path_to_code@.len() - i,
        {
            let args = compiler_args(self.path_to_code[i].as_str(), evm, format);
            out.push(Invocation { program: program.clone(), args });
            i = i + 1;
        }
        out
    }

    /// Applies the outputs of the batch's bytecode requests, aligned with the
    /// source paths. When every run succeeded, bytecode `i` is what run `i`
    /// printed; otherwise the batch is left as it was and the error is that of
    /// the first run that failed.
    pub fn compile_many(&mut self, outs: Vec<ProcessOutput>) -> (r: Result<(), VyperErrors>)
        requires
            outs@.len() == old(self).path_to_code@.len(),
        ensures
            r is Ok <==> first_failure(outs@) == outs@.len(),
            r is Ok ==> (final(self).bytecode matches Some(b) && b@.len() == outs@.len()
                && forall|i: int|
                0 <= i < outs@.len() ==> (#[trigger] b@[i])@ == bytecode_of(outs@[i].stdout@)),
            r is Ok ==> final(self).path_to_code == old(self).path_to_code && final(self).abi
                == old(self).abi && final(self).venv == old(self).venv,
            r matches Err(e) ==> is_compiler_error(e, outs@[first_failure(outs@)]),
            r is Err ==> *final(self) == *old(self),
    {
        proof {
            lemma_first_failure(outs@);
        }
        let mut codes: Vec<String> = Vec::new();
        let mut i: usize = 0;
        while i < outs.len()
            invariant
                i <= outs@.len(),
                codes@.len() == i,
                forall|k: int| 0 <= k < i ==> (#[trigger] outs@[k]).success,
                forall|k: int| 0 <= k < i ==> (#[trigger] codes@[k])@ == bytecode_of(outs@[k].stdout@),
                0 <= first_failure(outs@) <= outs@.len(),
                forall|k: int| 0 <= k < first_failure(outs@) ==> (#[trigger] outs@[k]).success,
                first_failure(outs@) < outs@.len() ==> !outs@[first_failure(outs@)].success,
            decreases outs@.len() - i,
        {
            if !outs[i].success {
                return Err(VyperErrors::CompilerError(outs[i].stderr.clone()));
            }
            codes.push(extract_bytecode(outs[i].stdout.as_str()));
            i = i + 1;
        }
        self.bytecode = Some(codes);
        Ok(())
    }

    /// Reads the ABIs out of the outputs of the batch's ABI requests, aligned
    /// with the source paths; the error is that of the first request that failed.
    pub fn get_abi_many(&self, outs: &Vec<ProcessOutput>) -> (r: Result<
        Vec<serde_json::Value>,
        VyperErrors,
    >)
        requires
            outs@.len() == self.path_to_code@.len(),
        ensures
            r is Ok <==> forall|i: int| 0 <= i < outs@.len() ==> yields_json(#[trigger] outs@[i]),
            r matches Ok(v) ==> v@.len() == outs@.len(),
            r matches Err(e) ==> exists|j: int|
                0 <= j < outs@.len() && !yields_json(#[trigger] outs@[j]) && (forall|k: int|
                    0 <= k < j ==> yields_json(#[trigger] outs@[k])) && is_json_error(
                    e,
                    outs@[j],
                ),
    {
        let mut values: Vec<serde_json::Value> = Vec::new();
        let mut i: usize = 0;
        while i < outs.len()
            invariant
                i <= outs@.len(),
                values@.len() == i,
                forall|k: int| 0 <= k < i ==> yields_json(#[trigger] outs@[k]),
            decreases outs@.len() - i,
        {
            match json_from_output(&outs[i]) {
                Ok(v) => values.push(v),
                Err(e) => {
                    assert(!yields_json(outs@[i as int]));
                    return Err(e);
                },
            }
            i = i + 1;
        }
        Ok(values)
    }
}

impl From<Vec<Vyper>> for Vypers {
    /// Same as `Vypers::from_units`.
    fn from(units: Vec<Vyper>) -> Vypers {
        Vypers::from_units(units)
    }
}

impl vstd::std_specs::convert::FromSpecImpl<Vec<Vyper>> for Vypers {
    open spec fn obeys_from_spec() -> bool {
        false
    }

    open spec fn from_spec(units: Vec<Vyper>) -> Vypers {
        arbitrary()
    }
}

} // verus!
