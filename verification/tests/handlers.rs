use hassle_rs::handler::{
    include_response, load_include, DxcIncludeHandler, IncludeServer, SourceTable,
};
use hassle_rs::os::{CP_UTF8, E_FILE_NOT_FOUND, E_INVALIDARG, S_OK};
use hassle_rs::utils::to_wide;
use std::cell::RefCell;

struct Table {
    asked: RefCell<Vec<String>>,
}

impl DxcIncludeHandler for Table {
    fn load_source(&self, filename: String) -> Option<String> {
        self.asked.borrow_mut().push(filename.clone());
        match filename.as_str() {
            "common.hlsl" => Some(String::from("float4 one() { return 1; }")),
            "sub/gr\u{fc}n.hlsl" => Some(String::from("// gr\u{fc}n")),
            _ => None,
        }
    }
}

fn wide16(text: &str) -> Vec<u16> {
    to_wide::<u16>(text).unwrap()
}

fn wide32(text: &str) -> Vec<u32> {
    to_wide::<u32>(text).unwrap()
}

fn shared() -> SourceTable {
    let mut table = SourceTable::new();
    table.insert(String::from("common.hlsl"), String::from("float4 one() { return 1; }"));
    table.insert(String::from("sub/gr\u{fc}n.hlsl"), String::from("// gr\u{fc}n"));
    table.insert(String::from("common.hlsl"), String::from("never reached"));
    table
}

#[test]
fn a_source_that_is_found_goes_back_as_a_utf8_blob() {
    let table = Table { asked: RefCell::new(Vec::new()) };
    let response = load_include(&table, &wide32("common.hlsl"));
    assert_eq!(response.status, S_OK);
    let blob = response.source.unwrap();
    assert_eq!(blob.to_vec(), b"float4 one() { return 1; }".to_vec());
    assert_eq!(blob.encoding(), Some(CP_UTF8));
}

#[test]
fn a_source_that_is_not_found_goes_back_as_a_status() {
    let table = Table { asked: RefCell::new(Vec::new()) };
    let response = load_include(&table, &wide16("missing.hlsl"));
    assert_eq!(response.status, E_FILE_NOT_FOUND);
    assert_eq!(response.status as u32, 0x80070002);
    assert!(response.source.is_none());
}

#[test]
fn the_handler_is_asked_once_for_each_request_by_the_name_as_sent() {
    let table = Table { asked: RefCell::new(Vec::new()) };
    let names = ["common.hlsl", "sub/gr\u{fc}n.hlsl", "missing.hlsl", "common.hlsl"];
    for name in names {
        load_include(&table, &wide16(name));
    }
    assert_eq!(*table.asked.borrow(), names.to_vec());
}

#[test]
fn the_answers_do_not_depend_on_the_order_of_the_requests() {
    let forward = Table { asked: RefCell::new(Vec::new()) };
    let first = load_include(&forward, &wide32("common.hlsl")).source.unwrap().to_vec();
    let second = load_include(&forward, &wide32("sub/gr\u{fc}n.hlsl")).source.unwrap().to_vec();
    let backward = Table { asked: RefCell::new(Vec::new()) };
    assert_eq!(load_include(&backward, &wide32("sub/gr\u{fc}n.hlsl")).source.unwrap().to_vec(), second);
    assert_eq!(load_include(&backward, &wide32("common.hlsl")).source.unwrap().to_vec(), first);
    assert_eq!(second, vec![0x2f, 0x2f, 0x20, 0x67, 0x72, 0xc3, 0xbc, 0x6e]);
}

#[test]
fn a_name_that_is_no_text_is_not_put_to_the_handler() {
    let table = Table { asked: RefCell::new(Vec::new()) };
    let response = load_include(&table, &[0x61u16, 0xD800, 0]);
    assert_eq!(response.status, E_INVALIDARG);
    assert_eq!(response.status as u32, 0x80070057);
    assert!(response.source.is_none());
    assert!(table.asked.borrow().is_empty());
}

#[test]
fn an_answer_is_wrapped_as_it_is() {
    let found = include_response(Some(String::new()));
    assert_eq!(found.status, S_OK);
    assert_eq!(found.source.unwrap().len(), 0);
    let missing = include_response(None);
    assert_eq!(missing.status, E_FILE_NOT_FOUND);
    assert!(missing.source.is_none());
}

#[test]
fn a_table_answers_with_the_first_entry_of_the_name() {
    let table = shared();
    assert_eq!(
        table.load_source(String::from("common.hlsl")),
        Some(String::from("float4 one() { return 1; }"))
    );
    assert_eq!(
        table.load_source(String::from("sub/gr\u{fc}n.hlsl")),
        Some(String::from("// gr\u{fc}n"))
    );
    assert_eq!(table.load_source(String::from("Common.hlsl")), None);
    assert_eq!(table.load_source(String::new()), None);
    assert_eq!(SourceTable::new().load_source(String::from("common.hlsl")), None);
}

#[test]
fn a_server_puts_each_request_once_under_the_name_as_sent() {
    let names = ["common.hlsl", "./common.hlsl", "sub/gr\u{fc}n.hlsl", " common.hlsl", "common.hlsl"];
    let mut server = IncludeServer::new(shared());
    assert!(server.names().is_empty());
    let mut statuses = Vec::new();
    for name in names {
        statuses.push(server.serve(&wide16(name)).status);
    }
    assert_eq!(*server.names(), names.to_vec());
    assert_eq!(statuses, vec![S_OK, E_FILE_NOT_FOUND, S_OK, E_FILE_NOT_FOUND, S_OK]);
}

#[test]
fn a_server_answers_the_same_whatever_it_served_before() {
    let mut fresh = IncludeServer::new(shared());
    let first = fresh.serve(&wide32("common.hlsl")).source.unwrap().to_vec();
    let mut used = IncludeServer::new(shared());
    used.serve(&wide32("missing.hlsl"));
    used.serve(&wide32("sub/gr\u{fc}n.hlsl"));
    assert_eq!(used.serve(&wide32("common.hlsl")).source.unwrap().to_vec(), first);
    assert_eq!(fresh.serve(&wide32("common.hlsl")).source.unwrap().to_vec(), first);
    assert_eq!(first, b"float4 one() { return 1; }".to_vec());
}

#[test]
fn a_server_does_not_record_a_name_that_is_no_text() {
    let mut server = IncludeServer::new(shared());
    assert_eq!(server.serve(&[0xD800u16, 0]).status, E_INVALIDARG);
    assert_eq!(server.serve(&[0x110000u32, 0]).status, E_INVALIDARG);
    assert!(server.names().is_empty());
    assert_eq!(server.serve(&[0u16]).status, E_FILE_NOT_FOUND);
    assert_eq!(*server.names(), vec![String::new()]);
}
