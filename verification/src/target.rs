//! Target-specification generation: parse a target triple, pick the
//! architecture profile, and render the target-spec JSON template.

use crate::strings::{dec_digits_of, dec_string, split_at_char, split_char, str_eq_str};
use crate::template::{render, render_spec, Context};
use vstd::prelude::*;
use vstd::string::StrSliceExecFns;
use vstd::string::StringExecFns;

verus! {

/// The four parts of a target triple: `{arch}-{vendor}-{sys}[-{abi}]`.
#[derive(Debug, Clone)]
pub struct TargetConfig {
    pub arch: String,
    pub vendor: String,
    pub os: String,
    pub abi: String,
}

impl TargetConfig {
    /// Bundle the four parts of a target triple.
    pub fn new(arch: String, vendor: String, os: String, abi: String) -> (c: TargetConfig)
        ensures
            c.arch == arch,
            c.vendor == vendor,
            c.os == os,
            c.abi == abi,
    {
        TargetConfig { arch, vendor, os, abi }
    }
}

/// Fixed per-architecture facts a target specification needs.
#[derive(Debug, Clone, Copy)]
pub struct ArchSpec {
    pub arch: &'static str,
    pub cpu: &'static str,
    pub pointer_width: &'static str,
    pub endian: &'static str,
    pub max_atomic_width: &'static str,
}

/// The LLVM-facing properties of a target.
#[derive(Debug, Clone)]
pub struct LLVMConfig {
    pub llvm_target: String,
    pub features: String,
    pub abi: String,
    pub data_layout: String,
}

/// How rendering is tuned.
#[derive(Debug, Clone, Copy)]
pub struct TargetRenderOptions {
    /// Whether the generated target keeps frame pointers for
    /// backtraces.
    pub backtrace: bool,
}

impl Default for TargetRenderOptions {
    /// Backtraces are kept by default.
    fn default() -> (r: TargetRenderOptions)
        ensures
            r.backtrace,
    {
        TargetRenderOptions { backtrace: true }
    }
}

/// A complete, named target profile.
#[derive(Debug, Clone)]
pub struct TargetProfile {
    pub config: TargetConfig,
    pub arch_spec: ArchSpec,
    pub llvm_config: LLVMConfig,
}

/// The per-architecture facts table, view level: architecture name,
/// CPU, pointer width, endianness, and maximum atomic width.
pub open spec fn arch_views(arch: Seq<char>) -> (Seq<char>, Seq<char>, Seq<char>, Seq<char>, Seq<
    char,
>) {
    if arch == "riscv64"@ || arch == "riscv64gc"@ || arch == "riscv64imac"@ {
        ("riscv64"@, "generic-rv64"@, "64"@, "little"@, "64"@)
    } else if arch == "riscv32"@ {
        ("riscv32"@, "generic-rv32"@, "32"@, "little"@, "32"@)
    } else if arch == "aarch64"@ {
        ("aarch64"@, "generic"@, "64"@, "little"@, "128"@)
    } else {
        ("x86_64"@, "generic"@, "64"@, "little"@, "64"@)
    }
}

/// The views of an architecture-facts record.
pub open spec fn arch_spec_views(a: ArchSpec) -> (Seq<char>, Seq<char>, Seq<char>, Seq<char>, Seq<
    char,
>) {
    (a.arch@, a.cpu@, a.pointer_width@, a.endian@, a.max_atomic_width@)
}

/// The architecture facts for a named architecture; a generic 64-bit
/// little-endian record for one not known here.
pub fn get_arch_spec(arch: &str) -> (r: ArchSpec)
    ensures
        arch_spec_views(r) == arch_views(arch@),
{
    if str_eq_str(arch, "riscv64") || str_eq_str(arch, "riscv64gc") || str_eq_str(
        arch,
        "riscv64imac",
    ) {
        ArchSpec {
            arch: "riscv64",
            cpu: "generic-rv64",
            pointer_width: "64",
            endian: "little",
            max_atomic_width: "64",
        }
    } else if str_eq_str(arch, "riscv32") {
        ArchSpec {
            arch: "riscv32",
            cpu: "generic-rv32",
            pointer_width: "32",
            endian: "little",
            max_atomic_width: "32",
        }
    } else if str_eq_str(arch, "aarch64") {
        ArchSpec {
            arch: "aarch64",
            cpu: "generic",
            pointer_width: "64",
            endian: "little",
            max_atomic_width: "128",
        }
    } else {
        ArchSpec {
            arch: "x86_64",
            cpu: "generic",
            pointer_width: "64",
            endian: "little",
            max_atomic_width: "64",
        }
    }
}

/// The names of the built-in target profiles.
pub fn list_profiles() -> Vec<String> {
    let mut names: Vec<String> = Vec::new();
    names.push(String::from_str("riscv64imac-zero-linux-musl"));
    names
}

/// The built-in profile registered under `name`, if any.
pub fn load_target_profile(name: &str) -> (r: Option<TargetProfile>)
    ensures
        r is Some <==> name@ == "riscv64imac-zero-linux-musl"@,
        r matches Some(p) ==> {
            &&& p.config.os@ == "linux"@
            &&& p.config.abi@ == "musl"@
            &&& p.config.vendor@ == "zero"@
            &&& arch_spec_views(p.arch_spec) == arch_views("riscv64"@)
            &&& p.llvm_config.llvm_target@ == "riscv64-unknown-linux-musl"@
            &&& p.llvm_config.features@ == "+m,+a,+c"@
            &&& p.llvm_config.abi@ == "lp64"@
            &&& p.llvm_config.data_layout@ == "e-m:e-p:64:64-i64:64-i128:128-n32:64-S128"@
        },
{
    if str_eq_str(name, "riscv64imac-zero-linux-musl") {
        Some(
            TargetProfile {
                config: TargetConfig::new(
                    String::from_str("riscv64imac"),
                    String::from_str("zero"),
                    String::from_str("linux"),
                    String::from_str("musl"),
                ),
                arch_spec: get_arch_spec("riscv64"),
                llvm_config: LLVMConfig {
                    llvm_target: String::from_str("riscv64-unknown-linux-musl"),
                    features: String::from_str("+m,+a,+c"),
                    abi: String::from_str("lp64"),
                    data_layout: String::from_str(
                        "e-m:e-p:64:64-i64:64-i128:128-n32:64-S128",
                    ),
                },
            },
        )
    } else {
        None
    }
}

/// The JSON template a target specification is rendered from.
pub const GENERIC_LINUX_TEMPLATE: &'static str = "{
  \"arch\": \"{{ ARCH }}\",
  \"cpu\": \"{{ CPU }}\",
  \"features\": \"{{ FEATURES }}\",
  \"llvm-target\": \"{{ LLVM_TARGET }}\",
  \"llvm-abiname\": \"{{ ABI }}\",
  \"data-layout\": \"{{ DATA_LAYOUT }}\",
  \"target-pointer-width\": \"{{ POINTER_WIDTH }}\",
  \"target-endian\": \"{{ ENDIAN }}\",
  \"os\": \"{{ OS }}\",
  \"env\": \"{{ ENV }}\",
  \"vendor\": \"{{ VENDOR }}\",
  \"max-atomic-width\": {{ MAX_ATOMIC_WIDTH }},
  \"eliminate-frame-pointer\": false,
  \"frame-pointer\": \"always\",
  \"has-rpath\": false,
  \"disable-redzone\": true,
  \"panic-strategy\": \"abort\",
  \"relocation-model\": \"static\",
  \"code-model\": \"medium\",
  \"executables\": true,
  \"backtrace\": {{ BACKTRACE }}
}
";

/// Split a target triple `{arch}-{vendor}-{sys}[-{abi}]` into its
/// parts; a triple with fewer than three or more than four parts is
/// rejected.
pub fn parse_target_triple(target: &str) -> (r: Option<TargetConfig>)
    ensures
        ({
            let parts = split_at_char(target@, '-');
            match r {
                Some(cfg) => {
                    &&& 3 <= parts.len() <= 4
                    &&& cfg.arch@ == parts[0]
                    &&& cfg.vendor@ == parts[1]
                    &&& cfg.os@ == parts[2]
                    &&& cfg.abi@ == (if parts.len() == 4 {
                        parts[3]
                    } else {
                        Seq::<char>::empty()
                    })
                },
                None => parts.len() < 3 || parts.len() > 4,
            }
        }),
{
    let sep = "-";
    proof {
        reveal_strlit("-");
        assert(sep@ =~= seq!['-']);
    }
    let parts = split_char(target, sep);
    if parts.len() < 3 || parts.len() > 4 {
        return None;
    }
    let abi: String = if parts.len() == 4 {
        parts[3].clone()
    } else {
        String::new()
    };
    Some(
        TargetConfig {
            arch: parts[0].clone(),
            vendor: parts[1].clone(),
            os: parts[2].clone(),
            abi,
        },
    )
}

/// The bindings a target specification is rendered against: the
/// architecture facts, the LLVM properties, the triple's own parts,
/// and the backtrace switch.
pub open spec fn target_bindings(
    cfg: TargetConfig,
    a: ArchSpec,
    l: LLVMConfig,
    opts: TargetRenderOptions,
) -> Seq<(Seq<char>, Seq<char>)> {
    seq![
        ("ARCH"@, a.arch@),
        ("CPU"@, a.cpu@),
        ("FEATURES"@, l.features@),
        ("LLVM_TARGET"@, l.llvm_target@),
        ("ABI"@, l.abi@),
        ("DATA_LAYOUT"@, l.data_layout@),
        ("POINTER_WIDTH"@, a.pointer_width@),
        ("ENDIAN"@, a.endian@),
        ("OS"@, cfg.os@),
        ("ENV"@, cfg.abi@),
        ("VENDOR"@, cfg.vendor@),
        ("MAX_ATOMIC_WIDTH"@, a.max_atomic_width@),
        (
            "BACKTRACE"@,
            if opts.backtrace {
                "true"@
            } else {
                "false"@
            },
        ),
    ]
}

impl TargetConfig {
    /// Render the target-spec JSON for this triple, the architecture
    /// facts and the LLVM properties; a template that fails to render
    /// is reported as the failure message with its position.
    pub fn render(
        &self,
        arch_spec: &ArchSpec,
        llvm_config: &LLVMConfig,
        opts: TargetRenderOptions,
    ) -> (r: Result<String, String>)
        ensures
            ({
                let bindings = target_bindings(*self, *arch_spec, *llvm_config, opts);
                match render_spec(GENERIC_LINUX_TEMPLATE@, Seq::empty(), bindings) {
                    Ok(o) => r matches Ok(s) && s@ == o,
                    Err(e) => r matches Err(m) && m@ == e.1 + " (at offset "@ + dec_digits_of(e.0)
                        + ")"@,
                }
            }),
    {
        let ctx = Context::new().with_str("ARCH", arch_spec.arch).with_str(
            "CPU",
            arch_spec.cpu,
        ).with_str("FEATURES", llvm_config.features.as_str()).with_str(
            "LLVM_TARGET",
            llvm_config.llvm_target.as_str(),
        ).with_str("ABI", llvm_config.abi.as_str()).with_str(
            "DATA_LAYOUT",
            llvm_config.data_layout.as_str(),
        ).with_str("POINTER_WIDTH", arch_spec.pointer_width).with_str(
            "ENDIAN",
            arch_spec.endian,
        ).with_str("OS", self.os.as_str()).with_str("ENV", self.abi.as_str()).with_str(
            "VENDOR",
            self.vendor.as_str(),
        ).with_str("MAX_ATOMIC_WIDTH", arch_spec.max_atomic_width).with_str(
            "BACKTRACE",
            if opts.backtrace {
                "true"
            } else {
                "false"
            },
        );
        proof {
            assert(ctx.bools_view() =~= Seq::<(Seq<char>, bool)>::empty());
            assert(ctx.strs_view() =~= target_bindings(*self, *arch_spec, *llvm_config, opts));
        }

        match render(GENERIC_LINUX_TEMPLATE, &ctx) {
            Ok(s) => Ok(s),
            Err(e) => Err(
                e.message.concat(" (at offset ").concat(dec_string(e.byte_offset).as_str()).concat(
                    ")",
                ),
            ),
        }
    }
}

/// The inputs a target specification is generated from, as the command
/// line hands them over.
#[derive(Debug, Clone, Default)]
pub struct GenerateTargetArgs {
    /// A built-in profile name; overrides nothing else being needed.
    pub profile: Option<String>,
    /// A target triple, required without a profile.
    pub target: Option<String>,
    /// LLVM target name; with a profile, an override.
    pub llvm_target: Option<String>,
    /// LLVM ABI name (e.g. "lp64"); with a profile, an override.
    pub abi: Option<String>,
    /// LLVM feature string; with a profile, an override.
    pub features: Option<String>,
    /// LLVM data layout; with a profile, an override.
    pub data_layout: Option<String>,
}

/// An optional override applied over a base value, view level.
pub open spec fn override_or(field: Option<String>, base: Seq<char>) -> Seq<char> {
    match field {
        Some(v) => v@,
        None => base,
    }
}

/// The bindings `generate_target_spec` renders with once its inputs
/// name a usable base: the profile's values, or the triple's parts
/// with the supplied LLVM properties, the explicit overrides applied
/// either way.
pub open spec fn resolved_bindings(
    args: GenerateTargetArgs,
    opts: TargetRenderOptions,
) -> Seq<(Seq<char>, Seq<char>)> {
    match args.profile {
        Some(_) => {
            let a = arch_views("riscv64"@);
            let lt = override_or(args.llvm_target, "riscv64-unknown-linux-musl"@);
            let f = override_or(args.features, "+m,+a,+c"@);
            let ab = override_or(args.abi, "lp64"@);
            let dl = override_or(
                args.data_layout,
                "e-m:e-p:64:64-i64:64-i128:128-n32:64-S128"@,
            );
            assembled_bindings(a, ("linux"@, "musl"@, "zero"@), (lt, f, ab, dl), opts)
        },
        None => {
            let tv = match args.target {
                Some(t) => t@,
                None => Seq::<char>::empty(),
            };
            let parts = split_at_char(tv, '-');
            let a = arch_views(parts[0]);
            let abi_part = if parts.len() == 4 {
                parts[3]
            } else {
                Seq::<char>::empty()
            };
            let lt = override_or(args.llvm_target, Seq::empty());
            let f = override_or(args.features, Seq::empty());
            let ab = override_or(args.abi, Seq::empty());
            let dl = override_or(args.data_layout, Seq::empty());
            assembled_bindings(a, (parts[2], abi_part, parts[1]), (lt, f, ab, dl), opts)
        },
    }
}

/// Bindings assembled from architecture facts, the triple's
/// (system, environment, vendor) parts, and the LLVM properties.
pub open spec fn assembled_bindings(
    a: (Seq<char>, Seq<char>, Seq<char>, Seq<char>, Seq<char>),
    cfg: (Seq<char>, Seq<char>, Seq<char>),
    llvm: (Seq<char>, Seq<char>, Seq<char>, Seq<char>),
    opts: TargetRenderOptions,
) -> Seq<(Seq<char>, Seq<char>)> {
    seq![
        ("ARCH"@, a.0),
        ("CPU"@, a.1),
        ("FEATURES"@, llvm.1),
        ("LLVM_TARGET"@, llvm.0),
        ("ABI"@, llvm.2),
        ("DATA_LAYOUT"@, llvm.3),
        ("POINTER_WIDTH"@, a.2),
        ("ENDIAN"@, a.3),
        ("OS"@, cfg.0),
        ("ENV"@, cfg.1),
        ("VENDOR"@, cfg.2),
        ("MAX_ATOMIC_WIDTH"@, a.4),
        (
            "BACKTRACE"@,
            if opts.backtrace {
                "true"@
            } else {
                "false"@
            },
        ),
    ]
}

/// The inputs name a usable base: a known profile, or a readable
/// target triple with every LLVM property supplied.
pub open spec fn target_inputs_usable(args: GenerateTargetArgs) -> bool {
    match args.profile {
        Some(p) => p@ == "riscv64imac-zero-linux-musl"@,
        None => match args.target {
            Some(t) => {
                let parts = split_at_char(t@, '-');
                &&& 3 <= parts.len() <= 4
                &&& args.llvm_target is Some
                &&& args.features is Some
                &&& args.abi is Some
                &&& args.data_layout is Some
            },
            None => false,
        },
    }
}

/// Generate the target-spec JSON: resolve the base configuration from
/// a profile or a triple plus explicit LLVM properties, apply the
/// overrides, and render the template.
///
/// Inputs that name no usable base are rejected; rendering reports its
/// own failure as the message.
pub fn generate_target_spec(args: &GenerateTargetArgs, render_opts: TargetRenderOptions) -> (r:
    Result<String, String>)
    ensures
        r is Ok ==> target_inputs_usable(*args),
        r matches Ok(s) ==> render_spec(
            GENERIC_LINUX_TEMPLATE@,
            Seq::empty(),
            resolved_bindings(*args, render_opts),
        ) == Ok::<Seq<char>, (int, Seq<char>)>(s@),
        target_inputs_usable(*args) && render_spec(
            GENERIC_LINUX_TEMPLATE@,
            Seq::empty(),
            resolved_bindings(*args, render_opts),
        ) is Ok ==> r is Ok,
{
    let resolved: (TargetConfig, ArchSpec, LLVMConfig) = match &args.profile {
        Some(profile_name) => {
            match load_target_profile(profile_name.as_str()) {
                None => {
                    let mut msg = String::from_str("Unknown profile: '").concat(
                        profile_name.as_str(),
                    ).concat("'. Available profiles: ");
                    let names = list_profiles();
                    let mut i: usize = 0;
                    while i < names.len()
                        decreases names.len() - i,
                    {
                        if i > 0 {
                            msg = msg.concat(", ");
                        }
                        msg = msg.concat(names[i].as_str());
                        i = i + 1;
                    }
                    return Err(msg);
                },
                Some(profile) => {
                    proof {
                        reveal_strlit("riscv64imac-zero-linux-musl");
                    }
                    (profile.config, profile.arch_spec, profile.llvm_config)
                },
            }
        },
        None => {
            let target = match &args.target {
                None => {
                    return Err(
                        String::from_str("Either --profile or --target is required"),
                    );
                },
                Some(t) => t,
            };
            let config = match parse_target_triple(target.as_str()) {
                None => {
                    return Err(
                        String::from_str("Cannot parse target triple: ").concat(target.as_str()),
                    );
                },
                Some(c) => c,
            };
            let arch_spec = get_arch_spec(config.arch.as_str());
            let llvm_target = match &args.llvm_target {
                None => {
                    return Err(
                        String::from_str("llvm_target is required when not using profile"),
                    );
                },
                Some(v) => v.clone(),
            };
            let features = match &args.features {
                None => {
                    return Err(
                        String::from_str("features is required when not using profile"),
                    );
                },
                Some(v) => v.clone(),
            };
            let abi = match &args.abi {
                None => {
                    return Err(String::from_str("abi is required when not using profile"));
                },
                Some(v) => v.clone(),
            };
            let data_layout = match &args.data_layout {
                None => {
                    return Err(
                        String::from_str("data_layout is required when not using profile"),
                    );
                },
                Some(v) => v.clone(),
            };
            (config, arch_spec, LLVMConfig { llvm_target, features, abi, data_layout })
        },
    };

    let config = resolved.0;
    let arch_spec = resolved.1;
    let mut llvm_config = resolved.2;

    if let Some(llvm_target) = &args.llvm_target {
        llvm_config.llvm_target = llvm_target.clone();
    }
    if let Some(features) = &args.features {
        llvm_config.features = features.clone();
    }
    if let Some(abi) = &args.abi {
        llvm_config.abi = abi.clone();
    }
    if let Some(data_layout) = &args.data_layout {
        llvm_config.data_layout = data_layout.clone();
    }

    proof {
        assert(target_bindings(config, arch_spec, llvm_config, render_opts) =~= resolved_bindings(
            *args,
            render_opts,
        ));
    }
    config.render(&arch_spec, &llvm_config, render_opts)
}

} // verus!
