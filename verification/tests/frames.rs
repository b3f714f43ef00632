use wasm_trap::{
    wasm_byte_vec_t, wasm_frame_func_index, wasm_frame_t, wasm_frame_vec_t, wasm_trap_message,
    wasm_trap_origin, wasm_trap_t, wasm_trap_trace, wasmtime_frame_func_name,
    wasmtime_frame_module_name, RawFrame,
};

fn row(func_index: u32, func_name: Option<&str>, module_name: Option<&str>) -> RawFrame {
    RawFrame {
        func_index,
        func_name: func_name.map(String::from),
        module_name: module_name.map(String::from),
    }
}

fn three_deep() -> wasm_trap_t {
    wasm_trap_t::new(
        String::from("wasm trap: unreachable"),
        vec![
            row(7, Some("inner"), Some("demo")),
            row(3, None, Some("demo")),
            row(0, Some("_start"), None),
        ],
    )
}

fn views_of(trap: &wasm_trap_t) -> Vec<Box<wasm_frame_t>> {
    let mut out = wasm_frame_vec_t { data: Vec::new() };
    wasm_trap_trace(trap, &mut out);
    let mut views = Vec::new();
    for entry in out.data {
        views.push(entry.expect("every row has a view"));
    }
    views
}

fn bytes_of(name: Option<&wasm_byte_vec_t>) -> Option<Vec<u8>> {
    name.map(|bytes| bytes.as_slice().to_vec())
}

#[test]
fn trace_has_one_view_for_each_row() {
    let trap = three_deep();
    let mut out = wasm_frame_vec_t { data: Vec::new() };
    wasm_trap_trace(&trap, &mut out);
    assert_eq!(out.as_slice().len(), 3);
    assert!(out.as_slice().iter().all(|entry| entry.is_some()));
}

#[test]
fn views_follow_the_rows_in_order() {
    let views = views_of(&three_deep());
    assert_eq!(wasm_frame_func_index(&views[0]), 7);
    assert_eq!(wasm_frame_func_index(&views[1]), 3);
    assert_eq!(wasm_frame_func_index(&views[2]), 0);
}

#[test]
fn trace_of_one_row() {
    let trap = wasm_trap_t::new(String::from("one"), vec![row(42, None, None)]);
    let views = views_of(&trap);
    assert_eq!(views.len(), 1);
    assert_eq!(wasm_frame_func_index(&views[0]), 42);
}

#[test]
fn trace_replaces_what_the_container_held() {
    let mut out = wasm_frame_vec_t { data: Vec::new() };
    wasm_trap_trace(&three_deep(), &mut out);
    assert_eq!(out.as_slice().len(), 3);
    let shallow = wasm_trap_t::new(String::from("shallow"), vec![row(9, None, None)]);
    wasm_trap_trace(&shallow, &mut out);
    assert_eq!(out.as_slice().len(), 1);
    let only = out.as_slice()[0].as_ref().expect("the row has a view");
    assert_eq!(wasm_frame_func_index(only), 9);
}

#[test]
fn origin_is_the_innermost_row() {
    let origin = wasm_trap_origin(&three_deep()).expect("the stack is not empty");
    assert_eq!(wasm_frame_func_index(&origin), 7);
}

#[test]
fn origin_is_absent_without_rows() {
    let trap = wasm_trap_t::new(String::from("bare"), Vec::new());
    assert!(wasm_trap_origin(&trap).is_none());
    assert!(views_of(&trap).is_empty());
}

#[test]
fn function_index_reads_the_full_range() {
    let trap = wasm_trap_t::new(
        String::from("range"),
        vec![row(u32::MAX, None, None), row(0, None, None)],
    );
    let views = views_of(&trap);
    assert_eq!(wasm_frame_func_index(&views[0]), u32::MAX);
    assert_eq!(wasm_frame_func_index(&views[1]), 0);
}

#[test]
fn function_name_is_its_utf8_bytes_without_terminator() {
    let mut views = views_of(&three_deep());
    assert_eq!(bytes_of(wasmtime_frame_func_name(&mut views[0])), Some(b"inner".to_vec()));
    assert_eq!(bytes_of(wasmtime_frame_func_name(&mut views[2])), Some(b"_start".to_vec()));
}

#[test]
fn missing_function_name_is_absent() {
    let mut views = views_of(&three_deep());
    assert_eq!(bytes_of(wasmtime_frame_func_name(&mut views[1])), None);
    assert_eq!(bytes_of(wasmtime_frame_func_name(&mut views[1])), None);
}

#[test]
fn empty_name_is_present_and_empty() {
    let trap = wasm_trap_t::new(String::from("anonymous"), vec![row(1, Some(""), Some(""))]);
    let mut origin = wasm_trap_origin(&trap).expect("the stack is not empty");
    assert_eq!(bytes_of(wasmtime_frame_func_name(&mut origin)), Some(Vec::new()));
    assert_eq!(bytes_of(wasmtime_frame_module_name(&mut origin)), Some(Vec::new()));
}

#[test]
fn multibyte_name_is_encoded_in_utf8() {
    let trap = wasm_trap_t::new(String::from("named"), vec![row(1, Some("f\u{fc}r"), None)]);
    let mut origin = wasm_trap_origin(&trap).expect("the stack is not empty");
    assert_eq!(
        bytes_of(wasmtime_frame_func_name(&mut origin)),
        Some(vec![0x66, 0xc3, 0xbc, 0x72])
    );
}

#[test]
fn function_name_is_the_same_on_every_query() {
    let mut origin = wasm_trap_origin(&three_deep()).expect("the stack is not empty");
    let first = bytes_of(wasmtime_frame_func_name(&mut origin));
    let second = bytes_of(wasmtime_frame_func_name(&mut origin));
    let third = bytes_of(wasmtime_frame_func_name(&mut origin));
    assert_eq!(first, Some(b"inner".to_vec()));
    assert_eq!(second, first);
    assert_eq!(third, first);
}

#[test]
fn module_name_is_the_same_on_every_query() {
    let mut views = views_of(&three_deep());
    let first = bytes_of(wasmtime_frame_module_name(&mut views[1]));
    let second = bytes_of(wasmtime_frame_module_name(&mut views[1]));
    assert_eq!(first, Some(b"demo".to_vec()));
    assert_eq!(second, first);
}

#[test]
fn missing_module_name_is_absent() {
    let mut views = views_of(&three_deep());
    assert_eq!(bytes_of(wasmtime_frame_module_name(&mut views[2])), None);
    assert_eq!(bytes_of(wasmtime_frame_module_name(&mut views[2])), None);
}

#[test]
fn the_two_names_have_slots_of_their_own() {
    let mut origin = wasm_trap_origin(&three_deep()).expect("the stack is not empty");
    assert_eq!(bytes_of(wasmtime_frame_module_name(&mut origin)), Some(b"demo".to_vec()));
    assert_eq!(bytes_of(wasmtime_frame_func_name(&mut origin)), Some(b"inner".to_vec()));
    assert_eq!(bytes_of(wasmtime_frame_module_name(&mut origin)), Some(b"demo".to_vec()));
    assert_eq!(wasm_frame_func_index(&origin), 7);
}

#[test]
fn copy_of_a_resolved_view_resolves_the_same_name() {
    let mut origin = wasm_trap_origin(&three_deep()).expect("the stack is not empty");
    let resolved = bytes_of(wasmtime_frame_func_name(&mut origin));
    let mut copy = origin.as_ref().clone();
    assert_eq!(wasm_frame_func_index(&copy), 7);
    assert_eq!(bytes_of(wasmtime_frame_func_name(&mut copy)), resolved);
    assert_eq!(bytes_of(wasmtime_frame_module_name(&mut copy)), Some(b"demo".to_vec()));
}

#[test]
fn copy_outlives_the_view_it_was_made_from() {
    let mut origin = wasm_trap_origin(&three_deep()).expect("the stack is not empty");
    let _ = wasmtime_frame_func_name(&mut origin);
    let mut copy = origin.as_ref().clone();
    drop(origin);
    assert_eq!(bytes_of(wasmtime_frame_func_name(&mut copy)), Some(b"inner".to_vec()));
}

#[test]
fn view_outlives_the_handle_it_was_made_from() {
    let trap = Box::new(three_deep());
    let mut views = views_of(&trap);
    let mut origin = wasm_trap_origin(&trap).expect("the stack is not empty");
    drop(trap);
    assert_eq!(wasm_frame_func_index(&origin), 7);
    assert_eq!(bytes_of(wasmtime_frame_func_name(&mut origin)), Some(b"inner".to_vec()));
    assert_eq!(wasm_frame_func_index(&views[2]), 0);
    assert_eq!(bytes_of(wasmtime_frame_func_name(&mut views[2])), Some(b"_start".to_vec()));
    assert_eq!(bytes_of(wasmtime_frame_module_name(&mut views[1])), Some(b"demo".to_vec()));
}

#[test]
fn views_do_not_depend_on_each_other() {
    let mut views = views_of(&three_deep());
    let last = views.pop().expect("there are three views");
    drop(views);
    assert_eq!(wasm_frame_func_index(&last), 0);
}

#[test]
fn message_of_a_trap_with_a_stack() {
    let mut out = wasm_byte_vec_t::from(Vec::new());
    wasm_trap_message(&three_deep(), &mut out);
    assert_eq!(out.as_slice(), b"wasm trap: unreachable\0");
}
