use zwasm_sdk::construction::{limits, Limits, Release, LIMITS_MAX_DEFAULT};
use zwasm_sdk::engine::Engine;
use zwasm_sdk::error::{non_null, non_null_addr, trap_into_result, trap_to_error, Error, Trap};
use zwasm_sdk::ffi::{import_call_slices, import_call_succeeded};
use zwasm_sdk::func::Func;
use zwasm_sdk::global::{Global, MUTABILITY_CONST, MUTABILITY_VAR};
use zwasm_sdk::imports::Imports;
use zwasm_sdk::instance::{bytes_eq, Instance};
use zwasm_sdk::memory::Memory;
use zwasm_sdk::module::Module;
use zwasm_sdk::store::Store;
use zwasm_sdk::table::Table;
use zwasm_sdk::utils::{decimal_string, to_u32_len};
use zwasm_sdk::val::{Val, KIND_FUNCREF, KIND_I32, KIND_I64};
use zwasm_sdk::wasi::{c_string, to_cstrings, WasiConfig};
use zwasm_sdk::{Config, ZwasmError};

fn message_of(e: &Error) -> String {
    match e {
        Error::Message(m) => m.clone(),
        Error::Trap(m) => panic!("unexpected trap: {m}"),
    }
}

fn trap_of(e: &Error) -> String {
    match e {
        Error::Trap(m) => m.clone(),
        Error::Message(m) => panic!("unexpected message: {m}"),
    }
}

// (func (export "f") (result i32) (i32.const 42)): its export section names "f".
fn return42_export_names() -> Vec<Vec<u8>> {
    vec![b"f".to_vec()]
}

// (func (export "add") ...): its export section names "add".
fn add_export_names() -> Vec<Vec<u8>> {
    vec![b"add".to_vec()]
}

#[test]
fn test_get_func_by_name() {
    let instance = Instance::new(None, 0x1000).unwrap();
    let index = instance
        .get_func_by_name(&return42_export_names(), "f")
        .unwrap();
    assert_eq!(index, 0);
}

#[test]
fn test_get_func_by_name_not_found() {
    let instance = Instance::new(None, 0x1000).unwrap();
    let func = instance.get_func_by_name(&return42_export_names(), "nonexistent");
    assert!(func.is_err());
    assert_eq!(message_of(&func.unwrap_err()), "export 'nonexistent' not found");
}

#[test]
fn test_get_func_by_name_add() {
    let instance = Instance::new(None, 0x1000).unwrap();
    let index = instance.get_func_by_name(&add_export_names(), "add").unwrap();
    assert_eq!(index, 0);
}

#[test]
fn imports_reject_nul_names() {
    let mut imports = Imports::new(0x2000, None).expect("imports creation should succeed");

    assert!(imports.add_fn("en\0v", "add", 2, 1).is_err());
    assert!(imports.add_fn("env", "ad\0d", 2, 1).is_err());
}

#[test]
fn wasi_config_rejects_nul_bytes() {
    let mut wasi = WasiConfig::new(0x3000).expect("wasi config should be created");
    assert!(wasi.set_args(&["ok", "bad\0arg"]).is_err());
    assert!(wasi.set_envs(&[("K\0EY", "v")]).is_err());
    assert!(wasi.set_envs(&[("KEY", "v\0")]).is_err());
    assert!(wasi.preopen_dir(".\0", "/sandbox").is_err());
    assert!(wasi.preopen_dir(".", "/sa\0ndbox").is_err());
}

#[test]
fn export_lookup_takes_first_of_equal_names_by_position() {
    let instance = Instance::new(None, 0x1000).unwrap();
    let names = vec![b"memory".to_vec(), b"run".to_vec(), b"run".to_vec(), b"r".to_vec()];
    assert_eq!(instance.get_func_by_name(&names, "run").unwrap(), 1);
    assert_eq!(instance.get_func_by_name(&names, "r").unwrap(), 3);
    assert_eq!(instance.get_func_by_name(&names, "memory").unwrap(), 0);
    assert!(instance.get_func_by_name(&names, "ru").is_err());
    assert!(instance.get_func_by_name(&Vec::new(), "run").is_err());
}

#[test]
fn export_lookup_compares_utf8_bytes() {
    let instance = Instance::new(None, 0x1000).unwrap();
    let names = vec!["é".as_bytes().to_vec(), b"e".to_vec()];
    assert_eq!(instance.get_func_by_name(&names, "é").unwrap(), 0);
    assert_eq!(instance.get_func_by_name(&names, "e").unwrap(), 1);
}

#[test]
fn bytes_eq_compares_contents() {
    assert!(bytes_eq(b"abc", b"abc"));
    assert!(!bytes_eq(b"abc", b"abd"));
    assert!(!bytes_eq(b"abc", b"ab"));
    assert!(bytes_eq(b"", b""));
}

#[test]
fn non_null_reports_the_message() {
    let ok: Result<u8, Error> = non_null(Some(7u8), "boom");
    assert_eq!(ok.unwrap(), 7);
    let err = non_null::<u8>(None, "boom").unwrap_err();
    assert_eq!(message_of(&err), "boom");
    assert_eq!(non_null_addr(12, "x").unwrap(), 12);
    assert_eq!(message_of(&non_null_addr(0, "x").unwrap_err()), "x");
}

#[test]
fn constructors_report_null_with_their_message() {
    assert_eq!(message_of(&Engine::new(0).unwrap_err()), "failed to create engine");
    assert_eq!(Engine::new(0x10).unwrap().handle(), 0x10);
    assert_eq!(message_of(&Store::new(0).unwrap_err()), "failed to create store");
    assert_eq!(Store::new(0x20).unwrap().handle(), 0x20);
    assert_eq!(message_of(&Module::new(0).unwrap_err()), "failed to create module");
    assert_eq!(Module::new(0x30).unwrap().handle(), 0x30);
    assert_eq!(message_of(&Func::new_host(0).unwrap_err()), "failed to create host function");
    assert_eq!(message_of(&Func::from_export(0).unwrap_err()), "export is not a function");
    assert_eq!(Func::from_export(0x40).unwrap().handle(), 0x40);
    assert_eq!(
        message_of(&WasiConfig::new(0).unwrap_err()),
        "failed to create WASI config"
    );
    assert_eq!(message_of(&Instance::new(None, 0).unwrap_err()), "failed to create instance");
}

#[test]
fn get_func_reports_missing_index() {
    let instance = Instance::new(None, 0x1000).unwrap();
    assert_eq!(message_of(&instance.get_func(0).unwrap_err()), "function not found");
    assert_eq!(instance.get_func(0x50).unwrap().handle(), 0x50);
}

#[test]
fn instance_trap_takes_precedence() {
    let trap = Trap { message: Some(b"unreachable".to_vec()) };
    let err = Instance::new(Some(trap), 0x1000).unwrap_err();
    assert_eq!(trap_of(&err), "unreachable");
    assert_eq!(err.message(), "unreachable");
}

#[test]
fn trap_messages() {
    assert_eq!(trap_of(&trap_to_error(Trap { message: None })), "trap with no message");
    assert_eq!(
        trap_of(&trap_to_error(Trap { message: Some("div by zéro".as_bytes().to_vec()) })),
        "div by zéro"
    );
    // Invalid UTF-8 is replaced, not rejected.
    assert_eq!(
        trap_of(&trap_to_error(Trap { message: Some(vec![b'a', 0xff, b'b']) })),
        "a\u{FFFD}b"
    );
    assert!(trap_into_result(None).is_ok());
    assert!(trap_into_result(Some(Trap { message: None })).is_err());
}

#[test]
fn finish_call_returns_results_or_trap() {
    let f = Func::from_export(0x40).unwrap();
    let r = f.finish_call(None, vec![Val::I32(42)]).unwrap();
    assert_eq!(r, vec![Val::I32(42)]);
    let e = f
        .finish_call(Some(Trap { message: Some(b"oops".to_vec()) }), vec![Val::I32(0)])
        .unwrap_err();
    assert_eq!(trap_of(&e), "oops");
}

#[test]
fn to_u32_len_bounds_and_message() {
    assert_eq!(to_u32_len(0).unwrap(), 0);
    assert_eq!(to_u32_len(4).unwrap(), 4);
    assert_eq!(to_u32_len(u32::MAX as usize).unwrap(), u32::MAX);
    if usize::BITS > 32 {
        let len = u32::MAX as usize + 1;
        let ZwasmError(msg) = to_u32_len(len).unwrap_err();
        assert_eq!(msg, "length exceeds u32::MAX: 4294967296");
        let ZwasmError(msg) = to_u32_len(usize::MAX).unwrap_err();
        assert_eq!(msg, format!("length exceeds u32::MAX: {}", usize::MAX));
    }
}

#[test]
fn decimal_string_matches_format() {
    for n in [0usize, 1, 9, 10, 11, 99, 100, 101, 4096, 65535, 1_000_000, usize::MAX] {
        assert_eq!(decimal_string(n), format!("{n}"));
    }
}

#[test]
fn c_strings_carry_a_terminator() {
    assert_eq!(c_string("ab").unwrap(), vec![b'a', b'b', 0]);
    assert_eq!(c_string("").unwrap(), vec![0]);
    assert!(c_string("a\0b").is_none());
    let all = to_cstrings(&["guest", "--ok"]).unwrap();
    assert_eq!(all, vec![b"guest\0".to_vec(), b"--ok\0".to_vec()]);
    assert_eq!(
        message_of(&to_cstrings(&["a", "b\0"]).unwrap_err()),
        "string contains an interior null byte"
    );
}

#[test]
fn wasi_settings_hand_over_c_strings() {
    let mut wasi = WasiConfig::new(0x3000).unwrap();
    assert_eq!(
        wasi.set_args(&["guest", "--ok"]).unwrap(),
        vec![b"guest\0".to_vec(), b"--ok\0".to_vec()]
    );
    let (keys, vals) = wasi.set_envs(&[("DEMO", "1"), ("X", "")]).unwrap();
    assert_eq!(keys, vec![b"DEMO\0".to_vec(), b"X\0".to_vec()]);
    assert_eq!(vals, vec![b"1\0".to_vec(), b"\0".to_vec()]);
    let (host, guest) = wasi.preopen_dir(".", "/sandbox").unwrap();
    assert_eq!(host, b".\0".to_vec());
    assert_eq!(guest, b"/sandbox\0".to_vec());
    assert_eq!(
        message_of(&wasi.preopen_dir(".\0", "/sa\0ndbox").unwrap_err()),
        "host path contains an interior null byte"
    );
    assert_eq!(
        message_of(&wasi.preopen_dir(".", "/sa\0ndbox").unwrap_err()),
        "guest path contains an interior null byte"
    );
    assert!(wasi.preopen_outcome(true).is_ok());
    assert_eq!(
        message_of(&wasi.preopen_outcome(false).unwrap_err()),
        "failed to preopen directory"
    );
    assert!(wasi.inherit_env(true).is_ok());
    assert_eq!(message_of(&wasi.inherit_env(false).unwrap_err()), "failed to inherit env");
}

#[test]
fn imports_register_in_order() {
    let mut imports = Imports::new(0x2000, None).unwrap();
    assert_eq!(imports.len(), 0);
    assert_eq!(imports.add_fn("env", "add", 2, 1).unwrap(), 0);
    assert_eq!(imports.add_fn("env", "log", 1, 0).unwrap(), 1);
    let ZwasmError(m) = imports.add_fn("en\0v", "ad\0d", 2, 1).unwrap_err();
    assert_eq!(m, "module name contains NUL byte");
    let ZwasmError(m) = imports.add_fn("env", "ad\0d", 2, 1).unwrap_err();
    assert_eq!(m, "function name contains NUL byte");
    assert_eq!(imports.len(), 2);
    let first = imports.entry(0);
    assert_eq!(first.module_name, b"env\0".to_vec());
    assert_eq!(first.func_name, b"add\0".to_vec());
    assert_eq!((first.param_count, first.result_count), (2, 1));
    assert_eq!(imports.entry(1).func_name, b"log\0".to_vec());
}

#[test]
fn imports_and_config_report_last_error() {
    let ZwasmError(m) = Imports::new(0, None).err().unwrap();
    assert_eq!(m, "Unknown error");
    let ZwasmError(m) = Imports::new(0, Some("out of memory".to_string())).err().unwrap();
    assert_eq!(m, "out of memory");
    let ZwasmError(m) = Config::new(0, None).err().unwrap();
    assert_eq!(m, "Unknown error");
    assert_eq!(Config::new(0x60, None).unwrap().handle(), 0x60);
}

#[test]
fn host_call_plan() {
    let mut imports = Imports::new(0x2000, None).unwrap();
    imports.add_fn("env", "add", 2, 1).unwrap();
    imports.add_fn("env", "tick", 0, 0).unwrap();
    let add = imports.entry(0);
    let tick = imports.entry(1);
    assert_eq!(import_call_slices(None, true, true), None);
    assert_eq!(import_call_slices(Some(add), true, true), Some((2, 1)));
    assert_eq!(import_call_slices(Some(add), false, true), None);
    assert_eq!(import_call_slices(Some(add), true, false), None);
    assert_eq!(import_call_slices(Some(tick), false, false), Some((0, 0)));
    assert!(import_call_succeeded(Some(Ok(()))));
    assert!(!import_call_succeeded(Some(Err("invalid arg/result count".to_string()))));
    assert!(!import_call_succeeded(None));
}

#[test]
fn global_construction_releases_intermediates() {
    assert_eq!(Global::mutability(true), MUTABILITY_VAR);
    assert_eq!(Global::mutability(false), MUTABILITY_CONST);

    let (r, rel) = Global::new(0, 5, 6);
    assert_eq!(message_of(&r.err().unwrap()), "failed to create value type");
    assert_eq!(rel, Release { value_type: 0, object_type: 0 });

    let (r, rel) = Global::new(4, 0, 6);
    assert_eq!(message_of(&r.err().unwrap()), "failed to create global type");
    assert_eq!(rel, Release { value_type: 4, object_type: 0 });

    let (r, rel) = Global::new(4, 5, 0);
    assert_eq!(message_of(&r.err().unwrap()), "failed to create global");
    assert_eq!(rel, Release { value_type: 0, object_type: 5 });

    let (r, rel) = Global::new(4, 5, 6);
    assert_eq!(r.unwrap().handle(), 6);
    assert_eq!(rel, Release { value_type: 0, object_type: 5 });
}

#[test]
fn table_construction_and_growth() {
    assert_eq!(Table::element_kind(), KIND_FUNCREF);
    let (r, rel) = Table::new(4, 0, 6);
    assert_eq!(message_of(&r.err().unwrap()), "failed to create table type");
    assert_eq!(rel, Release { value_type: 4, object_type: 0 });
    let (r, rel) = Table::new(4, 5, 0);
    assert_eq!(message_of(&r.err().unwrap()), "failed to create table");
    assert_eq!(rel, Release { value_type: 0, object_type: 5 });
    let (r, _) = Table::new(4, 5, 6);
    let mut table = r.unwrap();
    assert!(table.grow(true).is_ok());
    assert_eq!(message_of(&table.grow(false).unwrap_err()), "failed to grow table");
    assert_eq!(table.handle(), 6);
}

#[test]
fn memory_construction_and_growth() {
    let (r, rel) = Memory::new(0, 9);
    assert_eq!(message_of(&r.err().unwrap()), "failed to create memory type");
    assert_eq!(rel, Release { value_type: 0, object_type: 0 });
    let (r, rel) = Memory::new(8, 0);
    assert_eq!(message_of(&r.err().unwrap()), "failed to create memory");
    assert_eq!(rel, Release { value_type: 0, object_type: 8 });
    let (r, rel) = Memory::new(8, 9);
    let mut memory = r.unwrap();
    assert_eq!(rel, Release { value_type: 0, object_type: 8 });
    assert!(memory.grow(true).is_ok());
    assert_eq!(message_of(&memory.grow(false).unwrap_err()), "failed to grow memory");
}

#[test]
fn limits_default_to_no_maximum() {
    assert_eq!(limits(1, None), Limits { min: 1, max: LIMITS_MAX_DEFAULT });
    assert_eq!(limits(1, Some(4)), Limits { min: 1, max: 4 });
    assert_eq!(LIMITS_MAX_DEFAULT, u32::MAX);
}

#[test]
fn value_kinds() {
    assert_eq!(Val::I32(42).kind(), KIND_I32);
    assert_eq!(Val::I64(-1).kind(), KIND_I64);
    assert_eq!(Val::F32(0).kind(), 2);
    assert_eq!(Val::F64(0).kind(), 3);
    assert_eq!(Val::ExternRef(0).kind(), 128);
    assert_eq!(Val::FuncRef(0).kind(), 129);
}
