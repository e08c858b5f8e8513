//! Linker-script configuration and generation.

use crate::strings::{
    all_dec_digits, all_hex_digits, count_dec_digits, dec_digit_count, dec_value, has_prefix,
    hex_digits_of, hex_value, hex_string, parse_decimal, parse_hexadecimal, replace_first,
    str_eq_str, str_starts_with,
};
use crate::template::{render, render_spec, Context};
use vstd::prelude::*;
use vstd::string::StrSliceExecFns;
use vstd::string::StringExecFns;

verus! {

/// Default base address of the memory region.
pub const DEFAULT_MEMORY_ORIGIN: usize = 0x8000_0000;

/// Default size of the memory region.
pub const DEFAULT_MEMORY_SIZE: usize = 128 * 1024 * 1024;

/// Default size of the stack region.
pub const DEFAULT_STACK_SIZE: usize = 1024 * 1024;

/// The memory layout a linker script is generated from.
#[derive(Debug, Clone)]
pub struct LinkerConfig {
    /// Base address of the memory region.
    pub memory_origin: usize,
    /// Size of the memory region.
    pub memory_size: usize,
    /// Explicit heap size; when absent the heap takes what the stack
    /// leaves of the memory region.
    pub heap_size: Option<usize>,
    /// Size of the stack region.
    pub stack_size: usize,
    /// Whether the script keeps the sections backtraces need.
    pub backtrace: bool,
    /// A carried template that `render` falls back to.
    pub template: Option<String>,
}

impl Default for LinkerConfig {
    /// The default layout.
    fn default() -> (c: LinkerConfig)
        ensures
            c.memory_origin == DEFAULT_MEMORY_ORIGIN,
            c.memory_size == DEFAULT_MEMORY_SIZE,
            c.heap_size is None,
            c.stack_size == DEFAULT_STACK_SIZE,
            !c.backtrace,
            c.template is None,
    {
        LinkerConfig::new()
    }
}

impl LinkerConfig {
    /// A configuration with the default layout.
    pub fn new() -> (c: LinkerConfig)
        ensures
            c.memory_origin == DEFAULT_MEMORY_ORIGIN,
            c.memory_size == DEFAULT_MEMORY_SIZE,
            c.heap_size is None,
            c.stack_size == DEFAULT_STACK_SIZE,
            !c.backtrace,
            c.template is None,
    {
        LinkerConfig {
            memory_origin: DEFAULT_MEMORY_ORIGIN,
            memory_size: DEFAULT_MEMORY_SIZE,
            heap_size: None,
            stack_size: DEFAULT_STACK_SIZE,
            backtrace: false,
            template: None,
        }
    }

    /// Fix the heap size explicitly.
    pub fn with_heap_size(self, size: usize) -> (c: LinkerConfig)
        ensures
            c == (LinkerConfig { heap_size: Some(size), ..self }),
    {
        let mut c = self;
        c.heap_size = Some(size);
        c
    }

    /// Set the stack size.
    pub fn with_stack_size(self, size: usize) -> (c: LinkerConfig)
        ensures
            c == (LinkerConfig { stack_size: size, ..self }),
    {
        let mut c = self;
        c.stack_size = size;
        c
    }

    /// Set the memory region.
    pub fn with_memory(self, origin: usize, size: usize) -> (c: LinkerConfig)
        ensures
            c == (LinkerConfig { memory_origin: origin, memory_size: size, ..self }),
    {
        let mut c = self;
        c.memory_origin = origin;
        c.memory_size = size;
        c
    }

    /// Carry a custom template.
    pub fn with_template(self, template: String) -> (c: LinkerConfig)
        ensures
            c == (LinkerConfig { template: Some(template), ..self }),
    {
        let mut c = self;
        c.template = Some(template);
        c
    }

    /// Set whether backtrace sections are kept.
    pub fn with_backtrace(self, backtrace: bool) -> (c: LinkerConfig)
        ensures
            c == (LinkerConfig { backtrace, ..self }),
    {
        let mut c = self;
        c.backtrace = backtrace;
        c
    }

    /// The effective heap size: the explicit one, or what the stack
    /// leaves of the memory region, floored at zero.
    pub fn heap_size(&self) -> (r: usize)
        ensures
            r == effective_heap_size(*self),
    {
        match self.heap_size {
            Some(h) => h,
            None => {
                if self.memory_size >= self.stack_size {
                    self.memory_size - self.stack_size
                } else {
                    0
                }
            },
        }
    }

    /// Render the linker script: `template` if given, else the carried
    /// template, else the built-in one, against this configuration's
    /// layout values; a template that fails to render comes back
    /// unchanged.
    pub fn render(&self, template: Option<String>) -> (r: String)
        ensures
            ({
                let chosen = chosen_template(*self, template);
                match render_spec(chosen, linker_bools(*self), linker_strs(*self)) {
                    Ok(o) => r@ == o,
                    Err(_) => r@ == chosen,
                }
            }),
    {
        let ghost chosen_v = chosen_template(*self, template);
        let origin = hex_string(self.memory_origin);
        let mem_size = hex_string(self.memory_size);
        let heap_size = hex_string(self.heap_size());
        let stack_size = hex_string(self.stack_size);

        let chosen: String = match template {
            Some(t) => t,
            None => match &self.template {
                Some(t) => t.clone(),
                None => String::from_str(LINKER_SCRIPT_TEMPLATE),
            },
        };
        assert(chosen@ == chosen_v);

        let ctx = Context::new().with_bool("backtrace", self.backtrace).with_str(
            "MEMORY_ORIGIN",
            origin.as_str(),
        ).with_str("MEMORY_SIZE", mem_size.as_str()).with_str(
            "HEAP_SIZE",
            heap_size.as_str(),
        ).with_str("STACK_SIZE", stack_size.as_str());
        proof {
            assert(ctx.bools_view() =~= linker_bools(*self));
            assert(ctx.strs_view() =~= linker_strs(*self));
        }

        match render(chosen.as_str(), &ctx) {
            Ok(s) => s,
            Err(_) => chosen,
        }
    }
}

/// The effective heap size of a configuration: the explicit one, or
/// what the stack leaves of the memory region, floored at zero.
pub open spec fn effective_heap_size(c: LinkerConfig) -> usize {
    match c.heap_size {
        Some(h) => h,
        None => if c.memory_size >= c.stack_size {
            (c.memory_size - c.stack_size) as usize
        } else {
            0usize
        },
    }
}

/// The template `render` chooses: the argument if given, else the
/// carried one, else the built-in script.
pub open spec fn chosen_template(c: LinkerConfig, template: Option<String>) -> Seq<char> {
    match template {
        Some(t) => t@,
        None => match c.template {
            Some(t) => t@,
            None => LINKER_SCRIPT_TEMPLATE@,
        },
    }
}

/// The boolean bindings the linker template is rendered against.
pub open spec fn linker_bools(c: LinkerConfig) -> Seq<(Seq<char>, bool)> {
    seq![("backtrace"@, c.backtrace)]
}

/// The string bindings the linker template is rendered against: the
/// four layout values, hex-formatted.
pub open spec fn linker_strs(c: LinkerConfig) -> Seq<(Seq<char>, Seq<char>)> {
    seq![
        ("MEMORY_ORIGIN"@, seq!['0', 'x'] + hex_digits_of(c.memory_origin as int)),
        ("MEMORY_SIZE"@, seq!['0', 'x'] + hex_digits_of(c.memory_size as int)),
        ("HEAP_SIZE"@, seq!['0', 'x'] + hex_digits_of(effective_heap_size(c) as int)),
        ("STACK_SIZE"@, seq!['0', 'x'] + hex_digits_of(c.stack_size as int)),
    ]
}

/// The built-in linker-script template.
pub const LINKER_SCRIPT_TEMPLATE: &'static str = "ENTRY(_start)

MEMORY
{
    RAM (rwx) : ORIGIN = {{ MEMORY_ORIGIN }}, LENGTH = {{ MEMORY_SIZE }}
}

_heap_size = {{ HEAP_SIZE }};
_stack_size = {{ STACK_SIZE }};

SECTIONS
{
    .text : ALIGN(4K)
    {
        KEEP(*(.text._start))
        *(.text .text.*)
    } > RAM

    .rodata : ALIGN(4K)
    {
        *(.rodata .rodata.*)
    } > RAM
{% if backtrace %}
    .eh_frame : ALIGN(8)
    {
        __eh_frame_start = .;
        KEEP(*(.eh_frame))
        __eh_frame_end = .;
    } > RAM
{% endif %}
    .data : ALIGN(4K)
    {
        *(.sdata .sdata.*)
        *(.data .data.*)
    } > RAM

    .bss (NOLOAD) : ALIGN(4K)
    {
        __bss_start = .;
        *(.sbss .sbss.*)
        *(.bss .bss.*)
        __bss_end = .;
    } > RAM

    . = ALIGN(4K);
    __heap_start = .;
    . += _heap_size;
    __heap_end = .;

    . = ALIGN(16);
    __stack_bottom = .;
    . += _stack_size;
    __stack_top = .;
}
";

/// The value an address string denotes: hexadecimal after a `0x`
/// prefix, decimal otherwise.
pub open spec fn parse_address_spec(s: Seq<char>) -> Option<int> {
    if has_prefix(s, seq!['0', 'x']) {
        let h = s.skip(2);
        if h.len() > 0 && all_hex_digits(h) {
            Some(hex_value(h))
        } else {
            None
        }
    } else {
        if s.len() > 0 && all_dec_digits(s) {
            Some(dec_value(s))
        } else {
            None
        }
    }
}

/// Parse an address: hexadecimal after a `0x` prefix, decimal
/// otherwise.
pub fn parse_address(s: &str) -> (r: Result<usize, String>)
    ensures
        match r {
            Ok(v) => parse_address_spec(s@) == Some(v as int),
            Err(_) => (match parse_address_spec(s@) {
                Some(v) => v > usize::MAX,
                None => true,
            }),
        },
{
    proof {
        reveal_strlit("0x");
    }
    let prefix = "0x";
    proof {
        assert(prefix@ =~= seq!['0', 'x']);
    }
    if str_starts_with(s, prefix) {
        let len = s.unicode_len();
        let hex = s.substring_char(2, len);
        proof {
            assert(hex@ =~= s@.skip(2));
        }
        match parse_hexadecimal(hex) {
            Some(v) => Ok(v),
            None => Err(String::from_str("Invalid hex address: ").concat(s)),
        }
    } else {
        match parse_decimal(s) {
            Some(v) => Ok(v),
            None => Err(String::from_str("Invalid decimal address: ").concat(s)),
        }
    }
}

/// What a size string denotes, as parse-size reads it.
///
/// The reading accepts plain byte counts and unit suffixes; it is a
/// function of the string alone, so it carries a name here rather than
/// a transcription.
pub uninterp spec fn parsed_size(s: Seq<char>) -> Option<u64>;

/// Relies on parse_size::parse_size: turns a size string ("128Mi",
/// "64KB", "1024") into a byte count, a function of the string alone;
/// a string it cannot read is reported as nothing.
///
/// The wrapped parser folds digits into a 64-bit mantissa and rounds
/// the mantissa up when a further digit overflows it; at a mantissa of
/// exactly the 64-bit maximum that round-up itself overflows, a panic
/// under overflow checks. At most nineteen decimal-digit characters
/// keep the mantissa strictly below that, so the call cannot panic;
/// its remaining arithmetic is checked or saturating.
#[verifier::external_body]
fn parse_size_str(s: &str) -> (r: Option<u64>)
    requires
        dec_digit_count(s@) <= 19,
    ensures
        r == parsed_size(s@),
{
    match parse_size::parse_size(s) {
        Ok(v) => Some(v),
        Err(_) => None,
    }
}

/// The inputs a linker script is generated from, as the command line
/// hands them over: addresses and sizes still in string form.
#[derive(Debug, Clone)]
pub struct GenerateLinkerArgs {
    /// Base address of RAM, decimal or `0x`-hexadecimal.
    pub ram_start: String,
    /// RAM size, with optional unit suffix.
    pub ram_size: String,
    /// Heap size, with optional unit suffix.
    pub heap_size: String,
    /// Stack size, with optional unit suffix.
    pub stack_size: String,
    /// Whether the script keeps the sections backtraces need.
    pub backtrace: bool,
    /// Entry symbol; `_start` keeps the template's own entry line.
    pub entry_point: String,
}

/// A generated linker script.
#[derive(Debug)]
pub struct LinkerGeneratorResult {
    /// The script text.
    pub script_content: String,
}

/// A size string reads as a byte count that fits the machine word.
pub open spec fn usable_size(s: Seq<char>) -> bool {
    match parsed_size(s) {
        Some(v) => v <= usize::MAX,
        None => false,
    }
}

/// A size string the generator accepts: it reads as a byte count that
/// fits the machine word, and it stays within the nineteen-digit
/// budget the size reader is safe for.
pub open spec fn size_accepted(s: Seq<char>) -> bool {
    usable_size(s) && dec_digit_count(s) <= 19
}

/// Generate a linker script from command-line inputs: parse the
/// addresses and sizes, then render the built-in template.
///
/// A size string carrying more than nineteen decimal-digit characters
/// is rejected outright (every practical size fits well within that),
/// keeping the size reader on inputs it is safe for.
pub fn generate_linker_script(args: &GenerateLinkerArgs) -> (r: Result<
    LinkerGeneratorResult,
    String,
>)
    ensures
        r is Ok <==> {
            &&& (match parse_address_spec(args.ram_start@) {
                Some(v) => v <= usize::MAX,
                None => false,
            })
            &&& size_accepted(args.ram_size@)
            &&& size_accepted(args.heap_size@)
            &&& size_accepted(args.stack_size@)
        },
{
    let ram_start = match parse_address(args.ram_start.as_str()) {
        Ok(v) => v,
        Err(e) => {
            return Err(e);
        },
    };
    let ram_size = match parse_size_checked(args.ram_size.as_str()) {
        Some(v) => v,
        None => {
            return Err(String::from_str("Invalid ram_size: ").concat(args.ram_size.as_str()));
        },
    };
    let heap_size = match parse_size_checked(args.heap_size.as_str()) {
        Some(v) => v,
        None => {
            return Err(String::from_str("Invalid heap_size: ").concat(args.heap_size.as_str()));
        },
    };
    let stack_size = match parse_size_checked(args.stack_size.as_str()) {
        Some(v) => v,
        None => {
            return Err(String::from_str("Invalid stack_size: ").concat(args.stack_size.as_str()));
        },
    };

    let cfg = LinkerConfig::new().with_memory(ram_start, ram_size).with_heap_size(
        heap_size,
    ).with_stack_size(stack_size).with_backtrace(args.backtrace);

    let mut script_content = cfg.render(Some(String::from_str(LINKER_SCRIPT_TEMPLATE)));

    if !str_eq_str(args.entry_point.as_str(), "_start") {
        let replacement = String::from_str("ENTRY(").concat(args.entry_point.as_str()).concat(")");
        script_content = replace_first(
            script_content.as_str(),
            "ENTRY(_start)",
            replacement.as_str(),
        );
    }

    Ok(LinkerGeneratorResult { script_content })
}

/// Parse a size string to a byte count that fits the machine word,
/// refusing strings beyond the digit budget the size reader is safe
/// for.
fn parse_size_checked(s: &str) -> (r: Option<usize>)
    ensures
        match r {
            Some(v) => parsed_size(s@) == Some(v as u64) && size_accepted(s@),
            None => !size_accepted(s@),
        },
{
    if count_dec_digits(s) > 19 {
        return None;
    }
    match parse_size_str(s) {
        Some(v) => {
            if v <= usize::MAX as u64 {
                Some(v as usize)
            } else {
                None
            }
        },
        None => None,
    }
}

} // verus!
