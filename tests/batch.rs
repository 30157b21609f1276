use vyper_rs::errors::VyperErrors;
use vyper_rs::paths::contracts_in;
use vyper_rs::process::{Evm, Format, ProcessOutput};
use vyper_rs::slots::Slots;
use vyper_rs::vyper::{Vyper, VyperStack};
use vyper_rs::vypers::Vypers;

fn ok(stdout: &str) -> ProcessOutput {
    ProcessOutput { success: true, stdout: stdout.to_string(), stderr: String::new() }
}

fn failed(stderr: &str) -> ProcessOutput {
    ProcessOutput { success: false, stdout: String::new(), stderr: stderr.to_string() }
}

fn strings(items: &[&str]) -> Vec<String> {
    items.iter().map(|s| s.to_string()).collect()
}

#[test]
fn concurrent_compilation() {
    let mut vyper_contracts = Vypers::new(strings(&[
        "./multisig.vy",
        "./multisig.vy",
        "./multisig.vy",
        "./multisig.vy",
    ]));
    let runs = vyper_contracts.invocations(None, Format::Bytecode);
    assert_eq!(runs.len(), 4);
    let outs: Vec<ProcessOutput> = (0..4).map(|_| ok("0x6001\n")).collect();
    vyper_contracts.compile_many(outs).unwrap();
    assert!(!vyper_contracts.bytecode.is_none());
}

#[test]
fn concurrent_compilation_vers() {
    let mut vyper_contracts = Vypers::new(strings(&[
        "./multisig.vy",
        "./multisig.vy",
        "./multisig.vy",
        "./multisig.vy",
    ]));
    let runs = vyper_contracts.invocations(Some(Evm::Shanghai), Format::Bytecode);
    for run in runs.iter() {
        assert_eq!(run.program, "vyper");
        assert_eq!(run.args, strings(&["./multisig.vy", "--evm-version", "shanghai"]));
    }
    let outs: Vec<ProcessOutput> = (0..4).map(|_| ok("0x6001\n")).collect();
    vyper_contracts.compile_many(outs).unwrap();
    assert!(!vyper_contracts.bytecode.is_none());
}

#[test]
fn test_stack_mt() {
    let mut contracts =
        VyperStack(vec![Vyper::new("./multsig.vy"), Vyper::new("./multsig.vy")]);
    let runs = contracts.invocations(None, Format::Abi);
    assert_eq!(runs[1].args, strings(&["./multsig.vy", "-f", "abi"]));
    contracts.compile_many(&vec![ok("0x01\n"), failed("no such file")]).unwrap_err();
    assert_eq!(contracts.0[0].bytecode, Some("0x01".to_string()));
    assert_eq!(contracts.0[1].bytecode, None);
    contracts.compile_many(&vec![ok("0x01\n"), ok("0x02\n")]).unwrap();
    assert_eq!(contracts.0[1].bytecode, Some("0x02".to_string()));
}

#[test]
fn mismatched_path_counts_are_refused() {
    for (n, m) in [(0usize, 1usize), (2, 1), (1, 3), (5, 0)] {
        let paths: Vec<String> = (0..n).map(|i| format!("c{}.vy", i)).collect();
        let abis: Vec<String> = (0..m).map(|i| format!("c{}.json", i)).collect();
        match Vypers::with_all(paths, abis, None) {
            Err(VyperErrors::LengthMismatch(p, a)) => assert_eq!((p, a), (n, m)),
            other => panic!("unexpected {:?}", other),
        }
    }
    let ok_batch =
        Vypers::with_all(strings(&["a.vy"]), strings(&["out/a.json"]), Some("env".to_string()))
            .unwrap();
    assert_eq!(ok_batch.abi, strings(&["out/a.json"]));
    assert_eq!(ok_batch.get_vyper(), "env/bin/vyper");
}

#[test]
fn results_stay_aligned_whatever_the_completion_order() {
    let paths = strings(&["a.vy", "b.vy", "c.vy", "d.vy"]);
    let outputs = vec![ok("0xa0\n"), ok("0xb0\n"), ok("0xc0\n"), ok("0xd0\n")];
    for order in [[0usize, 1, 2, 3], [3, 2, 1, 0], [2, 0, 3, 1], [1, 3, 0, 2]] {
        let mut slots: Slots<ProcessOutput> = Slots::new(paths.len());
        for &i in order.iter() {
            slots.put(i, outputs[i].clone());
        }
        let mut batch = Vypers::new(paths.clone());
        batch.compile_many(slots.into_results().unwrap()).unwrap();
        assert_eq!(batch.bytecode, Some(strings(&["0xa0", "0xb0", "0xc0", "0xd0"])));
    }
}

#[test]
fn unfilled_slots_give_no_results() {
    let mut slots: Slots<u32> = Slots::new(3);
    slots.put(2, 7);
    slots.put(0, 5);
    assert_eq!(slots.len(), 3);
    assert!(slots.into_results().is_none());
    let empty: Slots<u32> = Slots::new(0);
    assert_eq!(empty.into_results(), Some(vec![]));
}

#[test]
fn batch_fails_with_the_first_failure() {
    let mut batch = Vypers::new(strings(&["a.vy", "b.vy", "c.vy"]));
    let outs = vec![ok("0x01\n"), failed("error in b"), failed("error in c")];
    match batch.compile_many(outs) {
        Err(VyperErrors::CompilerError(e)) => assert_eq!(e, "error in b"),
        other => panic!("unexpected {:?}", other),
    }
    assert_eq!(batch.bytecode, None);
}

#[test]
fn abis_of_a_batch() {
    let batch = Vypers::new(strings(&["a.vy", "b.vy"]));
    let values = batch.get_abi_many(&vec![ok("[1]"), ok("{\"x\": 2}")]).unwrap();
    assert_eq!(values.len(), 2);
    assert_eq!(values[0][0], 1);
    assert_eq!(values[1]["x"], 2);
    assert!(matches!(
        batch.get_abi_many(&vec![ok("[1]"), ok("{oops")]),
        Err(VyperErrors::SerializationError(_))
    ));
    assert!(matches!(
        batch.get_abi_many(&vec![failed("first"), ok("{oops")]),
        Err(VyperErrors::CompilerError(e)) if e == "first"
    ));
}

#[test]
fn batch_from_units_takes_the_last_environment() {
    let units = vec![Vyper::new("a.vy"), Vyper::with_venv("b.vy", "env")];
    let batch = Vypers::from(units);
    assert_eq!(batch.path_to_code, strings(&["a.vy", "b.vy"]));
    assert_eq!(batch.abi, strings(&["a.json", "b.json"]));
    assert_eq!(batch.venv, Some("env".to_string()));
    let none = Vypers::from(vec![Vyper::with_venv("a.vy", "env"), Vyper::new("b.vy")]);
    assert_eq!(none.venv, None);
}

#[test]
fn directory_listing_keeps_vyper_sources() {
    let entries = strings(&["src/a.vy", "src/readme.md", "src/b.vy", "vy", "src/c.vyi"]);
    assert_eq!(contracts_in(&entries), strings(&["src/a.vy", "src/b.vy"]));
    let batch = Vypers::in_dir(Some(entries)).unwrap();
    assert_eq!(batch.abi, strings(&["src/a.json", "src/b.json"]));
    assert!(Vypers::in_dir(None).is_none());
    let moved = batch.set_venv("env".to_string());
    assert_eq!(moved.get_pip(), "env/bin/pip3");
    let other = Vypers::with_venv(strings(&["x.vy"]), "e2");
    assert_eq!(other.get_vyper(), "e2/bin/vyper");
}

#[test]
fn compile_mt_macro_test() {
    let mut vys_assertion = Vypers::from(vec![Vyper::new("./multisig.vy"), Vyper::new("./multisig.vy")]);
    vys_assertion.compile_many(vec![ok("0x01\n"), ok("0x01\n")]).unwrap();
    let mut vys = Vypers::new(strings(&["./multisig.vy", "./multisig.vy"]));
    vys.compile_many(vec![ok("0x01\n"), ok("0x01\n")]).unwrap();
    assert_eq!(vys, vys_assertion);
}

#[test]
fn compabijson_mt_macro_test() {
    let vys_assertion = Vypers::new(strings(&["./multisig.vy", "./multisig.vy"]));
    let outs = vec![ok("[]"), ok("[]")];
    let abis = vys_assertion.get_abi_many(&outs).unwrap();
    let vys = Vypers::new(strings(&["./multisig.vy", "./multisig.vy"])).get_abi_many(&outs).unwrap();
    assert_eq!(vys, abis);
}
