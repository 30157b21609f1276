use vyper_rs::errors::VyperErrors;
use vyper_rs::process::{compiler_args, extract_bytecode, Evm, Format, ProcessOutput};
use vyper_rs::vyper::Vyper;
use vyper_rs::vypers::Vypers;

fn ok(stdout: &str) -> ProcessOutput {
    ProcessOutput { success: true, stdout: stdout.to_string(), stderr: String::new() }
}

fn failed(stderr: &str) -> ProcessOutput {
    ProcessOutput { success: false, stdout: String::new(), stderr: stderr.to_string() }
}

fn strings(items: &[&str]) -> Vec<String> {
    items.iter().map(|s| s.to_string()).collect()
}

#[test]
fn basic() {
    let mut vyper_contract = Vyper::new("./multisig.vy");
    let run = vyper_contract.invocation(None, Format::Bytecode);
    assert_eq!(run.program, "vyper");
    assert_eq!(run.args, strings(&["./multisig.vy"]));
    vyper_contract.compile(&ok("0x6003600c60003960036000f3600035\n")).unwrap();
    vyper_contract.get_abi(&ok("[]\n")).unwrap();
    assert!(vyper_contract.bytecode.unwrap().starts_with("0x"));
}

#[test]
fn compile_version() {
    let mut vyper_contract = Vyper::new("./multisig.vy");
    let run = vyper_contract.invocation(Some(Evm::Shanghai), Format::Bytecode);
    assert_eq!(run.args, strings(&["./multisig.vy", "--evm-version", "shanghai"]));
    vyper_contract.compile(&ok("0x00\n")).unwrap();
}

#[test]
fn bp() {
    let mut vyper_contract = Vyper::new("./multisig.vy");
    let run = vyper_contract.invocation(None, Format::BlueprintBytecode);
    assert_eq!(run.args, strings(&["./multisig.vy", "-f", "blueprint_bytecode"]));
    vyper_contract.compile(&ok("0xfe710000\n")).unwrap();
    assert_eq!(vyper_contract.bytecode, Some("0xfe710000".to_string()));
}

#[test]
fn interface() {
    let vyper_contract = Vyper::new("./multisig.vy");
    let run = vyper_contract.invocation(None, Format::ExternalInterface);
    assert_eq!(run.args, strings(&["./multisig.vy", "-f", "external_interface"]));
}

#[test]
fn storage() {
    let vyper_contract = Vyper::new("./multisig.vy");
    let run = vyper_contract.invocation(None, Format::Layout);
    assert_eq!(run.args, strings(&["./multisig.vy", "-f", "layout"]));
    assert!(vyper_contract.get_abi(&ok("{\"owners\": {\"slot\": 0}}")).is_ok());
}

#[test]
fn opcodes() {
    let vyper_contract = Vyper::new("./multisig.vy");
    assert_eq!(
        vyper_contract.invocation(None, Format::Opcodes).args,
        strings(&["./multisig.vy", "-f", "opcodes"])
    );
    assert_eq!(
        vyper_contract.invocation(None, Format::OpcodesRuntime).args,
        strings(&["./multisig.vy", "-f", "opcodes_runtime"])
    );
}

#[test]
fn ast() {
    let vyper_contract = Vyper::new("./multisig.vy");
    let run = vyper_contract.invocation(None, Format::Ast);
    assert_eq!(run.args, strings(&["./multisig.vy", "-f", "ast"]));
}

#[test]
fn version_detect() {
    let contract = Vyper::new("./multisig.vy");
    let probe = contract.probe("--version");
    assert_eq!(probe.program, "vyper");
    assert_eq!(probe.args, strings(&["--version"]));
    assert_eq!(contract.get_version(&ok("0.3.10+commit.9136169\n")).unwrap(), "0.3.10+commit.9136169\n");
    match contract.get_version(&failed("vyper: not found")) {
        Err(VyperErrors::VersionQueryError(e)) => assert_eq!(e, "vyper: not found"),
        other => panic!("unexpected {:?}", other),
    }
}

#[test]
fn vyper_macro_test() {
    let c = Vyper::new("./multisig.vy");
    let c_assertion = Vyper::new("./multisig.vy");
    assert_eq!(c, c_assertion);
    let c2_assertion = Vypers::from(vec![Vyper::new("./multisig.vy"), Vyper::new("./multisig.vy")]);
    let c2 = Vypers::from(vec![Vyper::new("./multisig.vy"), Vyper::new("./multisig.vy")]);
    assert_eq!(c2, c2_assertion);
}

#[test]
fn vypers_macro_test() {
    let vys_assertion = Vypers::new(strings(&["./multisig.vy", "./multisig.vy"]));
    let vys = Vypers::from(vec![Vyper::new("./multisig.vy"), Vyper::new("./multisig.vy")]);
    assert_eq!(vys, vys_assertion);
}

#[test]
fn abi_path_replaces_the_extension() {
    assert_eq!(Vyper::new("./multisig.vy").abi, "./multisig.json");
    assert_eq!(Vyper::new("contracts/token").abi, "contracts/token.json");
    assert_eq!(Vyper::with_abi("a.vy", "out/a_abi.json".to_string()).abi, "out/a_abi.json");
}

#[test]
fn venv_paths_resolve_inside_the_environment() {
    let c = Vyper::with_venv("./multisig.vy", "/opt/env");
    assert_eq!(c.get_vyper(), "/opt/env/bin/vyper");
    assert_eq!(c.get_pip(), "/opt/env/bin/pip3");
    assert_eq!(c.abi, "./multisig.json");
    let global = Vyper::new("./multisig.vy");
    assert_eq!(global.get_vyper(), "vyper");
    assert_eq!(global.get_pip(), "pip3");
    let both = Vyper::with_venv_and_abi("x.vy", "env", "y.json".to_string());
    assert_eq!(both.get_vyper(), "env/bin/vyper");
    assert_eq!(both.abi, "y.json");
}

#[test]
fn abi_mut_changes_only_the_abi() {
    let mut c = Vyper::new("./multisig.vy");
    *c.abi_mut() = "elsewhere.json".to_string();
    assert_eq!(c.abi, "elsewhere.json");
    assert_eq!(c.path_to_code, "./multisig.vy");
}

#[test]
fn failed_compile_keeps_bytecode() {
    let mut c = Vyper::new("./multisig.vy");
    c.compile(&ok("0xaa\n")).unwrap();
    match c.compile(&failed("SyntaxException: bad token")) {
        Err(VyperErrors::CompilerError(e)) => assert_eq!(e, "SyntaxException: bad token"),
        other => panic!("unexpected {:?}", other),
    }
    assert_eq!(c.bytecode, Some("0xaa".to_string()));
}

#[test]
fn bytecode_is_taken_after_the_last_colon() {
    assert_eq!(extract_bytecode("0x6001\n"), "0x6001");
    assert_eq!(extract_bytecode("  0x6001 \r\n"), "0x6001");
    assert_eq!(extract_bytecode("contract.vy: 6001\n"), " 6001");
    assert_eq!(extract_bytecode("a:b:6002"), "6002");
    assert_eq!(extract_bytecode("plain"), "plain");
    assert_eq!(extract_bytecode(""), "");
}

#[test]
fn evm_flags_are_lower_case() {
    let all = [
        (Evm::Byzantium, "byzantium"),
        (Evm::Constantinople, "constantinople"),
        (Evm::Petersburg, "petersburg"),
        (Evm::Istanbul, "istanbul"),
        (Evm::Berlin, "berlin"),
        (Evm::Paris, "paris"),
        (Evm::Shanghai, "shanghai"),
        (Evm::Cancun, "cancun"),
        (Evm::Atlantis, "atlantis"),
        (Evm::Agharta, "agharta"),
    ];
    for (evm, flag) in all.iter() {
        assert_eq!(evm.as_str(), *flag);
        assert_eq!(evm.to_string(), *flag);
    }
}

#[test]
fn compiler_args_follow_the_command_line_shape() {
    assert_eq!(
        compiler_args("c.vy", Some(Evm::Paris), Format::Abi),
        strings(&["c.vy", "--evm-version", "paris", "-f", "abi"])
    );
    assert_eq!(compiler_args("c.vy", None, Format::Userdoc), strings(&["c.vy", "-f", "userdoc"]));
    assert_eq!(compiler_args("c.vy", None, Format::Devdoc), strings(&["c.vy", "-f", "devdoc"]));
}

#[test]
fn abi_errors_tell_compiler_from_json() {
    let c = Vyper::new("./multisig.vy");
    assert!(matches!(c.get_abi(&failed("boom")), Err(VyperErrors::CompilerError(e)) if e == "boom"));
    assert!(matches!(c.get_abi(&ok("not json")), Err(VyperErrors::SerializationError(_))));
    let v = c.get_abi(&ok("[{\"name\": \"owner\"}]")).unwrap();
    assert_eq!(v[0]["name"], "owner");
}

#[test]
fn compile_macro_test() {
    let mut contract_assertion = Vyper::new("./multisig.vy");
    contract_assertion.compile(&ok("0x6001\n")).unwrap();
    let mut contract = Vyper::new("./multisig.vy");
    contract.compile(&ok("0x6001\n")).unwrap();
    assert_eq!(contract, contract_assertion);
}

#[test]
fn compabijson_macro_test() {
    let c_assertion = Vyper::new("./multisig.vy");
    let abi = c_assertion.get_abi(&ok("[{\"type\": \"constructor\"}]\n")).unwrap();
    let c = Vyper::new("./multisig.vy").get_abi(&ok("[{\"type\": \"constructor\"}]\n")).unwrap();
    assert_eq!(c, abi);
}
