use azul::memory::{parse_node_list, parse_search_output, MemoryClient};

#[test]
fn test_memory_client_creation() {
    let client = MemoryClient::new("test-scope".to_string(), None);
    assert!(!client.scope().is_empty());
}

#[test]
fn disabled_client_refuses_commands() {
    let client = MemoryClient::new("s".to_string(), None);
    assert!(!client.is_available());
    assert_eq!(client.search_args("q"), Err("mem-layer is not available".to_string()));
    assert_eq!(client.mem_layer_path(), "mem-layer");
}

#[test]
fn add_note_arguments_carry_tags_and_priority() {
    let client = MemoryClient::new("s".to_string(), Some("/usr/bin/mem-layer".to_string()));
    let args = client.add_note_args("hello", &vec!["a".to_string(), "b".to_string()], Some("low")).unwrap();
    assert_eq!(args, vec!["add", "note", "hello", "--scope", "s", "--tags", "a,b", "--priority", "low"]);
    let args = client.list_args(Some("note"), Some(20)).unwrap();
    assert_eq!(args, vec!["list", "--scope", "s", "--type", "note", "--limit", "20"]);
}

#[test]
fn node_list_keeps_only_table_rows() {
    let out = "┏━━━┓\n┡━━━┩\n  ID  content\n2024 INFO - loading\n  n1  first  \n\n└───┘\nn2 second";
    assert_eq!(parse_node_list(out), vec!["n1  first".to_string(), "n2 second".to_string()]);
    assert_eq!(parse_search_output("a\n\nb\n"), vec!["a".to_string(), "b".to_string()]);
}
