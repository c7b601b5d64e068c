use wasm_modding::bindings::{a, get_player, get_player_rt, received_line_len, received_string_ok};
use wasm_modding::escape::print as print_lines;
use wasm_modding::modapi::{self, ModEnvData};
use wasm_modding::modhandlers::{self, ModWasmState};
use wasm_modding::result_with_length;
use wasm_modding::transfer::{arbitrary_status, ReceiveArbitraryResult};
use wasm_modding::wasm_interface::{parse_import_args, wasm_export, wasm_import, AttrToken, ImportArgsError};

fn lit(s: &str) -> AttrToken {
    AttrToken::Literal(s.to_string())
}

fn comma() -> AttrToken {
    AttrToken::Punct(',')
}

#[test]
fn packs_status_high_and_length_low() {
    assert_eq!(result_with_length::new(1, 5), (1u64 << 32) | 5);
    assert_eq!(result_with_length::new(0, 0), 0);
    assert_eq!(result_with_length::new(u32::MAX, u32::MAX), u64::MAX);
    assert_eq!(result_with_length::new(2, 0x1234), 0x2_0000_1234);
}

#[test]
fn split_undoes_new() {
    assert_eq!(result_with_length::split(result_with_length::new(1, 5)), (true, 5));
    assert_eq!(result_with_length::split(result_with_length::new(0, 7)), (false, 7));
    assert_eq!(result_with_length::split(result_with_length::new(7, u32::MAX)), (true, u32::MAX));
    assert_eq!(result_with_length::split(0x1_0000_0000), (true, 0));
}

#[test]
fn print_cuts_lines_and_escapes() {
    let lines = print_lines(b"hi\n\"x\x01\xff~ ");
    assert_eq!(lines, vec![b"hi".to_vec(), b"\"x\\x01\\xFF~ ".to_vec()]);
}

#[test]
fn print_keeps_the_last_line_even_empty() {
    assert_eq!(print_lines(b""), vec![Vec::<u8>::new()]);
    assert_eq!(print_lines(b"a\n"), vec![b"a".to_vec(), Vec::new()]);
    assert_eq!(print_lines(b"\n\n"), vec![Vec::<u8>::new(), Vec::new(), Vec::new()]);
}

#[test]
fn print_escapes_tab_delete_and_high_bytes() {
    assert_eq!(print_lines(b"\t\x7f\x80\x1f"), vec![b"\\x09\\x7F\\x80\\x1F".to_vec()]);
    assert_eq!(modhandlers::print(b"a\\b"), vec![b"a\\b".to_vec()]);
}

#[test]
fn hostmath_tests_divisibility() {
    assert_eq!(modapi::hostmath(3, -1, 2), 1);
    assert_eq!(modapi::hostmath(3, 1, 5), 0);
    assert_eq!(modapi::hostmath(0, -300, 3), 1);
    assert_eq!(modapi::hostmath(1, -2, 2), 0);
    assert_eq!(modapi::hostmath(255, i16::MAX, 1), 1);
    assert_eq!(modapi::hostmath(0, i16::MIN, 255), 0);
}

#[test]
fn getline_queues_the_trimmed_line_for_bulkdump() {
    let mut st = ModWasmState::new();
    let r = modhandlers::getline(&mut st, "hello \r\n");
    assert_eq!(r, result_with_length::new(1, 5));
    assert_eq!(result_with_length::split(r), (true, 5));
    assert_eq!(modhandlers::bulkdump(&mut st), Some(b"hello".to_vec()));
    assert_eq!(modhandlers::bulkdump(&mut st), None);
}

#[test]
fn getline_trims_unicode_white_space_and_counts_bytes() {
    let mut st = ModWasmState::new();
    let r = modhandlers::getline(&mut st, " \u{e9}\u{3000}\u{a0}\t");
    assert_eq!(result_with_length::split(r), (true, 3));
    assert_eq!(modhandlers::bulkdump(&mut st), Some(vec![0x20, 0xc3, 0xa9]));
    let r = modhandlers::getline(&mut st, "\n");
    assert_eq!(r, result_with_length::new(1, 0));
    let r = modhandlers::getline(&mut st, "second");
    assert_eq!(r, result_with_length::new(1, 6));
    assert_eq!(modhandlers::bulkdump(&mut st), Some(b"second".to_vec()));
}

#[test]
fn fncounter_counts_up_from_zero() {
    let mut st = ModWasmState::new();
    assert_eq!(st.fncounter_count, 0);
    assert!(st.memory_sendbuf.is_none());
    assert_eq!(modhandlers::fncounter(&mut st), 1);
    assert_eq!(modhandlers::fncounter(&mut st), 2);
    assert_eq!(st.fncounter_count, 2);
    let _ = modhandlers::rand64(&mut st);
    assert_eq!(st.fncounter_count, 2);
}

#[test]
fn recv128_is_the_fixed_pattern() {
    assert_eq!(modhandlers::recv128(), 0x001122334455667788_99aabbccddeeff);
}

#[test]
fn info_fn_shows_the_count_before_the_call() {
    let mut env = ModEnvData { counterfn_count: 0, queued_arbitrary: None };
    assert_eq!(modapi::info_fn(&mut env), 0);
    assert_eq!(modapi::info_fn(&mut env), 1);
    assert_eq!(env.counterfn_count, 2);
}

#[test]
fn prepared_string_is_sent_once() {
    let mut env = ModEnvData { counterfn_count: 0, queued_arbitrary: None };
    assert_eq!(modapi::send_arbitrary(&mut env), None);
    assert_eq!(modapi::send_arbitrary_code(false, true), 2);
    assert_eq!(modapi::prepare_arbitrary_string(&mut env, "abc  \n"), 3);
    let sent = modapi::send_arbitrary(&mut env);
    assert_eq!(sent, Some(b"abc".to_vec()));
    assert_eq!(modapi::send_arbitrary_code(true, true), 0);
    assert_eq!(modapi::send_arbitrary(&mut env), None);
}

#[test]
fn send_arbitrary_code_for_a_buffer_that_does_not_fit() {
    assert_eq!(modapi::send_arbitrary_code(true, false), 1);
    assert_eq!(arbitrary_status(true, false), ReceiveArbitraryResult::GenericFailure);
    assert_eq!(arbitrary_status(false, false), ReceiveArbitraryResult::NotPrepared);
    assert_eq!(arbitrary_status(true, true), ReceiveArbitraryResult::Sucess);
}

#[test]
fn status_codes_round_trip() {
    for s in [ReceiveArbitraryResult::Sucess, ReceiveArbitraryResult::GenericFailure, ReceiveArbitraryResult::NotPrepared] {
        assert_eq!(ReceiveArbitraryResult::from_code(s.code()), Some(s));
    }
    assert_eq!(ReceiveArbitraryResult::Sucess.code(), 0);
    assert_eq!(ReceiveArbitraryResult::GenericFailure.code(), 1);
    assert_eq!(ReceiveArbitraryResult::NotPrepared.code(), 2);
    assert_eq!(ReceiveArbitraryResult::from_code(3), None);
    assert_eq!(ReceiveArbitraryResult::from_code(255), None);
}

#[test]
fn demo_print_decodes_or_gives_the_notice() {
    let notice = "I was going to say something - but the string I passed was invalid.";
    assert_eq!(modapi::print(Some(b"abc".to_vec())), "abc");
    assert_eq!(modapi::print(Some("\u{e9}t\u{e9}".as_bytes().to_vec())), "\u{e9}t\u{e9}");
    assert_eq!(modapi::print(Some(vec![0xff, 0x41])), notice);
    assert_eq!(modapi::print(None), notice);
}

#[test]
fn random_values_have_their_shapes() {
    assert!(modapi::rand_2().1 <= 1);
    assert_eq!(modapi::rand_buffer().len(), 24);
    let _ = modapi::rand();
}

#[test]
fn big_buffer_has_its_size() {
    assert_eq!(modapi::send_big_buffer().len(), 104857600);
}

#[test]
fn import_args_in_their_documented_forms() {
    let r = parse_import_args(&vec![]).unwrap();
    assert_eq!((r.import_name, r.module_name), (None, None));
    let r = parse_import_args(&vec![lit("\"f\"")]).unwrap();
    assert_eq!((r.import_name, r.module_name), (Some("\"f\"".to_string()), None));
    let r = parse_import_args(&vec![lit("\"f\""), comma()]).unwrap();
    assert_eq!((r.import_name, r.module_name), (Some("\"f\"".to_string()), None));
    let r = parse_import_args(&vec![lit("\"f\""), comma(), lit("\"game\"")]).unwrap();
    assert_eq!((r.import_name, r.module_name), (Some("\"f\"".to_string()), Some("\"game\"".to_string())));
    let r = parse_import_args(&vec![comma(), lit("\"game\"")]).unwrap();
    assert_eq!((r.import_name, r.module_name), (None, Some("\"game\"".to_string())));
    let r = parse_import_args(&vec![comma()]).unwrap();
    assert_eq!((r.import_name, r.module_name), (None, None));
}

#[test]
fn import_args_refused() {
    assert_eq!(parse_import_args(&vec![AttrToken::Other]).err(), Some(ImportArgsError::ImportNameNotString));
    assert_eq!(parse_import_args(&vec![AttrToken::Punct(';')]).err(), Some(ImportArgsError::ImportNameNotString));
    assert_eq!(parse_import_args(&vec![lit("1"), lit("2")]).err(), Some(ImportArgsError::ExpectedCommaOrEnd));
    assert_eq!(parse_import_args(&vec![comma(), AttrToken::Other]).err(), Some(ImportArgsError::ModuleNameNotString));
    assert_eq!(parse_import_args(&vec![lit("1"), comma(), comma()]).err(), Some(ImportArgsError::ModuleNameNotString));
    assert_eq!(parse_import_args(&vec![comma(), lit("\"m\""), comma()]).err(), Some(ImportArgsError::ExpectedEnd));
    assert_eq!(
        parse_import_args(&vec![lit("\"f\""), comma(), lit("\"m\""), lit("\"x\"")]).err(),
        Some(ImportArgsError::ExpectedEnd)
    );
}

#[test]
fn import_expansion_text() {
    let x = wasm_import(&vec![comma(), lit("\"game\"")]).unwrap();
    assert_eq!(x.outer, "#[cfg(target_family = \"wasm\")]#[link(wasm_import_module=\"game\")]extern \"C\"");
    assert_eq!(x.inner_prefix, "");
    let x = wasm_import(&vec![lit("\"f\"")]).unwrap();
    assert_eq!(x.outer, "#[cfg(target_family = \"wasm\")]extern \"C\"");
    assert_eq!(x.inner_prefix, "#[link_name=\"f\"]");
    assert_eq!(wasm_import(&vec![AttrToken::Other]).err(), Some(ImportArgsError::ImportNameNotString));
}

#[test]
fn export_expansion_text() {
    assert_eq!(wasm_export(""), "#[no_mangle] pub extern \"C\"");
    assert_eq!(wasm_export("\"modmain\""), "#[link_name=\"modmain\"]pub unsafe extern \"C\"");
}

#[test]
fn player_from_its_layout() {
    let rt = get_player_rt { name_ptr: 64, name_len: 5, uuid: 42 };
    let p = get_player(&rt, b"Steve".to_vec());
    assert_eq!(p.name, "Steve");
    assert_eq!(p.uuid, 42);
}

#[test]
fn flag_byte_reads_as_bool() {
    assert_eq!(a(7, 1).to_pair(), (7, true));
    assert_eq!(a(7, 0).to_pair(), (7, false));
    assert_eq!(a(0, 200).to_pair(), (0, true));
}

#[test]
fn counter_and_queue_leave_the_generator_alone() {
    let mut st = ModWasmState::new();
    let before = st.rand.clone();
    for k in 1..=5 {
        assert_eq!(modhandlers::fncounter(&mut st), k);
    }
    modhandlers::getline(&mut st, "x");
    modhandlers::bulkdump(&mut st);
    assert!(st.rand == before);
    assert_eq!(st.fncounter_count, 5);
}

#[test]
fn guest_reads_the_line_length_only_on_success() {
    assert_eq!(received_line_len(result_with_length::new(1, 12)), Some(12));
    assert_eq!(received_line_len(result_with_length::new(0, 12)), None);
    assert_eq!(received_line_len(0x8000_0000_0000_0003), Some(3));
}

#[test]
fn guest_accepts_only_the_success_status() {
    assert!(received_string_ok(0));
    assert!(!received_string_ok(1));
    assert!(!received_string_ok(2));
    assert!(!received_string_ok(9));
}
