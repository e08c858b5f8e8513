use zeroos::{
    clean_symbolized_line, generate_target_spec, hex_string, parse_backtrace_unknown_frame,
    parse_decimal, parse_hex, parse_hexadecimal, parse_target_triple, str_find,
    GenerateTargetArgs, TargetRenderOptions, UserPtr,
};

#[test]
fn parse_target_triple_reads_four_part_triples() {
    let cfg = parse_target_triple("riscv64gc-unknown-linux-musl").unwrap();
    assert_eq!(cfg.arch, "riscv64gc");
    assert_eq!(cfg.vendor, "unknown");
    assert_eq!(cfg.os, "linux");
    assert_eq!(cfg.abi, "musl");
}

#[test]
fn parse_target_triple_reads_three_part_triples() {
    let cfg = parse_target_triple("aarch64-apple-darwin").unwrap();
    assert_eq!(cfg.arch, "aarch64");
    assert_eq!(cfg.vendor, "apple");
    assert_eq!(cfg.os, "darwin");
    assert_eq!(cfg.abi, "");
}

#[test]
fn parse_target_triple_rejects_other_shapes() {
    assert!(parse_target_triple("riscv64").is_none());
    assert!(parse_target_triple("a-b").is_none());
    assert!(parse_target_triple("a-b-c-d-e").is_none());
}

#[test]
fn generate_target_spec_from_profile() {
    let args = GenerateTargetArgs {
        profile: Some("riscv64imac-zero-linux-musl".to_string()),
        ..Default::default()
    };
    let json = generate_target_spec(&args, TargetRenderOptions::default()).unwrap();
    assert!(json.contains("\"arch\": \"riscv64\""));
    assert!(json.contains("\"llvm-target\": \"riscv64-unknown-linux-musl\""));
    assert!(json.contains("\"backtrace\": true"));
}

#[test]
fn generate_target_spec_applies_overrides() {
    let args = GenerateTargetArgs {
        profile: Some("riscv64imac-zero-linux-musl".to_string()),
        features: Some("+m,+a".to_string()),
        ..Default::default()
    };
    let json = generate_target_spec(&args, TargetRenderOptions { backtrace: false }).unwrap();
    assert!(json.contains("\"features\": \"+m,+a\""));
    assert!(json.contains("\"backtrace\": false"));
}

#[test]
fn generate_target_spec_rejects_incomplete_inputs() {
    let err = generate_target_spec(&GenerateTargetArgs::default(), TargetRenderOptions::default())
        .unwrap_err();
    assert!(err.contains("required"));

    let args = GenerateTargetArgs {
        profile: Some("no-such-profile".to_string()),
        ..Default::default()
    };
    let err = generate_target_spec(&args, TargetRenderOptions::default()).unwrap_err();
    assert!(err.contains("Unknown profile"));

    let args = GenerateTargetArgs {
        target: Some("riscv64-unknown-linux-musl".to_string()),
        ..Default::default()
    };
    let err = generate_target_spec(&args, TargetRenderOptions::default()).unwrap_err();
    assert!(err.contains("llvm_target is required"));

    let args = GenerateTargetArgs {
        target: Some("nonsense".to_string()),
        ..Default::default()
    };
    let err = generate_target_spec(&args, TargetRenderOptions::default()).unwrap_err();
    assert!(err.contains("Cannot parse target triple"));
}

#[test]
fn backtrace_frame_lines_are_recognized() {
    let line = "  19:         0x80019fa2 - <unknown>";
    let (frame, hex) = parse_backtrace_unknown_frame(line).unwrap();
    assert_eq!(frame, 19);
    assert_eq!(hex, "80019fa2");

    assert!(parse_backtrace_unknown_frame("  19:  0x80019fa2 - my_func").is_none());
    assert!(parse_backtrace_unknown_frame("no colon 0x1 - <unknown>").is_none());
    assert!(parse_backtrace_unknown_frame("  7: nothing - <unknown>").is_none());
}

#[test]
fn symbolizer_lines_are_cleaned() {
    assert_eq!(
        clean_symbolized_line("my_func at /src/main.rs:10\n"),
        Some("my_func at /src/main.rs:10".to_string())
    );
    // An address prefix before ": " is dropped.
    assert_eq!(
        clean_symbolized_line("0x80000000: boot_start at /src/boot.rs:3"),
        Some("boot_start at /src/boot.rs:3".to_string())
    );
    // Unknown locations keep the bare symbol name.
    assert_eq!(clean_symbolized_line("early_stub at ??:?"), Some("early_stub".to_string()));
    assert_eq!(clean_symbolized_line("early_stub at ??:0"), Some("early_stub".to_string()));
    // A blank or unresolved name yields nothing.
    assert_eq!(clean_symbolized_line("?? at ??:0"), None);
    assert_eq!(clean_symbolized_line("   "), None);
}

#[test]
fn parse_hex_reads_or_defaults_to_zero() {
    assert_eq!(parse_hex("80019fa2"), 0x80019fa2);
    assert_eq!(parse_hex("ff"), 255);
    assert_eq!(parse_hex(""), 0);
    assert_eq!(parse_hex("0x10"), 0);
    assert_eq!(parse_hex("zz"), 0);
    // A leading plus sign is accepted, as the radix parser accepts it.
    assert_eq!(parse_hex("+1a"), 26);
    assert_eq!(parse_hex("+"), 0);
}

#[test]
fn numeral_helpers_agree_with_their_specs() {
    assert_eq!(parse_decimal("123"), Some(123));
    assert_eq!(parse_decimal("0"), Some(0));
    assert_eq!(parse_decimal(""), None);
    assert_eq!(parse_decimal("12a"), None);
    assert_eq!(parse_hexadecimal("dead"), Some(0xdead));
    assert_eq!(parse_hexadecimal("DEAD"), Some(0xdead));
    assert_eq!(hex_string(0), "0x0");
    assert_eq!(hex_string(0x8000_0000), "0x80000000");
    assert_eq!(hex_string(255), "0xff");
    assert_eq!(str_find("abcabc", "bc", 0), Some(1));
    assert_eq!(str_find("abcabc", "bc", 2), Some(4));
    assert_eq!(str_find("abcabc", "zz", 0), None);
}

#[test]
fn user_pointers_check_null_and_alignment() {
    let p: UserPtr<u64> = UserPtr::new(0x1000);
    assert_eq!(p.as_ptr(), 0x1000);
    assert!(!p.is_null());
    assert_eq!(p.check(), Ok(()));

    let null: UserPtr<u64> = UserPtr::new(0);
    assert!(null.is_null());
    assert_eq!(null.check(), Err(-14));

    let odd: UserPtr<u64> = UserPtr::new(0x1003);
    assert_eq!(odd.check(), Err(-22));

    let byte: UserPtr<u8> = UserPtr::new(0x1003);
    assert_eq!(byte.check(), Ok(()));
}
