use zeroos::{generate_linker_script, parse_address, GenerateLinkerArgs, LinkerConfig};

#[test]
fn test_default_config() {
    let config = LinkerConfig::default();
    assert_eq!(config.memory_origin, 0x8000_0000);
    assert_eq!(config.memory_size, 128 * 1024 * 1024);
    assert_eq!(config.stack_size, 1024 * 1024);
    assert!(config.heap_size.is_none());
}

#[test]
fn test_heap_size_calculation() {
    let config = LinkerConfig::new()
        .with_memory(0x80000000, 128 * 1024 * 1024)
        .with_stack_size(8 * 1024 * 1024);

    assert_eq!(config.heap_size(), 120 * 1024 * 1024);
}

#[test]
fn test_explicit_heap_size() {
    let config = LinkerConfig::new().with_heap_size(64 * 1024 * 1024);

    assert_eq!(config.heap_size(), 64 * 1024 * 1024);
}

#[test]
fn render_substitutes_layout_values() {
    let config = LinkerConfig::new()
        .with_memory(0x8000_0000, 128 * 1024 * 1024)
        .with_stack_size(2 * 1024 * 1024)
        .with_heap_size(64 * 1024 * 1024);
    let script = config.render(None);
    assert!(script.contains("ORIGIN = 0x80000000"));
    assert!(script.contains("LENGTH = 0x8000000"));
    assert!(script.contains("_heap_size = 0x4000000;"));
    assert!(script.contains("_stack_size = 0x200000;"));
    // Backtrace sections appear only when asked for.
    assert!(!script.contains(".eh_frame"));
    let script = config.with_backtrace(true).render(None);
    assert!(script.contains(".eh_frame"));
}

#[test]
fn parse_address_reads_hex_and_decimal() {
    assert_eq!(parse_address("0x80000000"), Ok(0x8000_0000));
    assert_eq!(parse_address("1024"), Ok(1024));
    assert!(parse_address("0xzz").is_err());
    assert!(parse_address("12p").is_err());
    assert!(parse_address("").is_err());
}

fn args(ram_start: &str, ram_size: &str, heap: &str, stack: &str) -> GenerateLinkerArgs {
    GenerateLinkerArgs {
        ram_start: ram_start.to_string(),
        ram_size: ram_size.to_string(),
        heap_size: heap.to_string(),
        stack_size: stack.to_string(),
        backtrace: true,
        entry_point: "_start".to_string(),
    }
}

#[test]
fn generate_linker_script_parses_unit_sizes() {
    // "128Mi" must reach the script as 128 * 1024 * 1024 bytes: the
    // size reader did real work on the suffix.
    let result = generate_linker_script(&args("0x80000000", "128Mi", "64Mi", "2Mi")).unwrap();
    let script = result.script_content;
    assert!(script.contains("ORIGIN = 0x80000000"));
    assert!(script.contains("LENGTH = 0x8000000"));
    assert!(script.contains("_heap_size = 0x4000000;"));
    assert!(script.contains("_stack_size = 0x200000;"));
    assert!(script.contains("ENTRY(_start)"));
    assert!(script.contains(".eh_frame"));
}

#[test]
fn generate_linker_script_rejects_bad_sizes() {
    let err = generate_linker_script(&args("0x80000000", "lots", "64Mi", "2Mi")).unwrap_err();
    assert!(err.contains("Invalid ram_size"));
    let err = generate_linker_script(&args("wat", "128Mi", "64Mi", "2Mi")).unwrap_err();
    assert!(err.contains("Invalid decimal address"));
    let err = generate_linker_script(&args("0x80000000", "128Mi", "sixty", "2Mi")).unwrap_err();
    assert!(err.contains("Invalid heap_size"));
    let err = generate_linker_script(&args("0x80000000", "128Mi", "64Mi", "much")).unwrap_err();
    assert!(err.contains("Invalid stack_size"));
}

#[test]
fn generate_linker_script_rejects_oversized_numerals() {
    // Twenty-one digits: past the digit budget the size reader is safe
    // for, so the string is rejected rather than parsed.
    let err =
        generate_linker_script(&args("0x80000000", "184467440737095516159", "64Mi", "2Mi"))
            .unwrap_err();
    assert!(err.contains("Invalid ram_size"));
    // Nineteen digits stay within the budget and parse as plain bytes.
    let ok =
        generate_linker_script(&args("0x80000000", "1152921504606846976", "64Mi", "2Mi")).unwrap();
    assert!(ok.script_content.contains("LENGTH = 0x1000000000000000"));
}

#[test]
fn generate_linker_script_replaces_entry_point() {
    let mut a = args("0x80000000", "128Mi", "64Mi", "2Mi");
    a.entry_point = "main".to_string();
    let script = generate_linker_script(&a).unwrap().script_content;
    assert!(script.contains("ENTRY(main)"));
    assert!(!script.contains("ENTRY(_start)"));
}
