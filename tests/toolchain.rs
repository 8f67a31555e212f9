use chained::toolchain::{linker_var, Config, Toolchain};
use chained::triple::{Arch, Endian, NoneAbi, Os};
use chained::triple::Triple;

fn toolchain(triple: &str, prefix: &str) -> Toolchain {
    Toolchain {
        triple: Triple::parse(triple).unwrap(),
        gcc_src: "https://example.org/gcc.git".to_string(),
        basedir: format!("/data/{}", triple),
        json_spec: format!("/data/{}/target.json", triple),
        prefix: prefix.to_string(),
    }
}

fn config(toolchains: Vec<Toolchain>) -> Config {
    Config {
        cache_dir: "/cache".to_string(),
        data_dir: "/data".to_string(),
        toolchain: toolchains,
    }
}

#[test]
fn crosstool_config_text() {
    let tc = toolchain("m68k-linux-gnu", "/data/m68k/prefix");
    let cfg = config(vec![]);
    let expected = "CT_ARCH_M68K=y\n\
CT_ARCH_LE=y\n\
CT_ARCH_32=y\n\
CT_TARGET_VENDOR=unknown\n\
CT_KERNEL_LINUX=y\n\
CT_LIBC_GLIBC=y\n\
CT_LOCAL_TARBALLS_DIR=\"/cache\"\n\
CT_PREFIX_DIR=\"/data/m68k/prefix\"\n\
CT_GCC_SRC_DEVEL=y\n\
CT_GCC_DEVEL_URL=\"https://example.org/gcc.git\"\n\
CT_CC_LANG_JIT=y\n\
CT_EXPERIMENTAL=y\n\
CT_CC_GCC_EXTRA_CONFIG_ARRAY=\"--enable-host-shared --disable-bootstrap\"\n";
    assert_eq!(tc.crosstool_config(&cfg), expected);
}

#[test]
fn crosstool_config_is_deterministic() {
    let a = toolchain("sh3-unknown-none-elf", "/p");
    let b = toolchain("sh3-none-elf", "/p");
    let cfg = config(vec![]);
    assert_eq!(a.crosstool_config(&cfg), b.crosstool_config(&cfg));
    assert!(a.crosstool_config(&cfg).ends_with("--disable-bootstrap\"\n"));
}

#[test]
fn find_toolchain_returns_first_match() {
    let cfg = config(vec![
        toolchain("mips-linux-gnu", "/first"),
        toolchain("arm64-linux-gnu", "/second"),
        toolchain("aarch64-unknown-linux-gnu", "/third"),
    ]);
    let name = Triple::parse("aarch64-linux-gnu").unwrap();
    assert_eq!(cfg.find_toolchain(&name).unwrap().prefix, "/second");
    let missing = Triple::parse("i686-linux-gnu").unwrap();
    assert!(cfg.find_toolchain(&missing).is_none());
    assert!(config(vec![]).find_toolchain(&name).is_none());
}

#[test]
fn linker_variable_is_upper_case_with_underscores() {
    let tc = toolchain("m68k-linux-gnu", "/p");
    assert_eq!(
        tc.linker_env_var().unwrap(),
        "CARGO_TARGET_M68K_UNKNOWN_LINUX_GNU_LINKER=m68k-unknown-linux-gnu-gcc"
    );
    let tc = toolchain("x86_64-pc-none-elf", "/p");
    assert_eq!(
        tc.linker_env_var().unwrap(),
        "CARGO_TARGET_X86_64_PC_NONE_ELF_LINKER=x86_64-pc-none-elf-gcc"
    );
}

#[test]
fn linker_variable_needs_a_canonical_triple() {
    let mut tc = toolchain("sh3-none-elf", "/p");
    tc.triple = Triple::new3(Arch::Sh3(Endian::Big), Os::BareMetal(NoneAbi::Elf));
    assert_eq!(tc.linker_env_var(), None);
}

#[test]
fn linker_variable_from_parts() {
    assert_eq!(linker_var("A_B", "a-b"), "CARGO_TARGET_A_B_LINKER=a-b-gcc");
    assert_eq!(linker_var("", ""), "CARGO_TARGET__LINKER=-gcc");
}
