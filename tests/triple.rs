use chained::triple::{ident, Arch, Endian, LinuxLibc, NoneAbi, Os, Triple, TripleError, X86Variant};
use std::str::FromStr;

#[test]
fn _if_no_vendor_then_unknown() {
    assert_eq!(
        Triple::from_str("m68k-linux-musl").unwrap(),
        Triple::from_str("m68k-unknown-linux-musl").unwrap()
    );
    assert_eq!(
        Triple::from_str("m68k-linux-gnu").unwrap(),
        Triple::from_str("m68k-unknown-linux-gnu").unwrap()
    );
}

#[test]
fn parse_arm64() {
    let aarch64_linux_gnu = Triple::new3(Arch::Arm64(Endian::Little), Os::Linux(LinuxLibc::Gnu));
    assert_eq!(aarch64_linux_gnu, Triple::from_str("aarch64-linux-gnu").unwrap());
    assert_eq!(aarch64_linux_gnu, Triple::from_str("arm64-linux-gnu").unwrap());
}

#[test]
fn parse_m68k() {
    let m68k_unknown_linux_gnu = Triple::new3(Arch::M68k, Os::Linux(LinuxLibc::Gnu));
    assert_eq!(m68k_unknown_linux_gnu, Triple::from_str("m68k-unknown-linux-gnu").unwrap());

    let m68k_unknown_linux_musl = Triple::new3(Arch::M68k, Os::Linux(LinuxLibc::Musl));
    assert_eq!(m68k_unknown_linux_musl, Triple::from_str("m68k-unknown-linux-musl").unwrap());

    let m68k_unknown_elf = Triple::new3(Arch::M68k, Os::BareMetal(NoneAbi::Elf));
    assert_eq!(m68k_unknown_elf, Triple::from_str("m68k-unknown-elf").unwrap());
}

#[test]
fn parse_mips() {
    let mips_linux_gnu = Triple::new3(Arch::Mips32(Endian::Big), Os::Linux(LinuxLibc::Gnu));
    assert_eq!(mips_linux_gnu, Triple::from_str("mips-linux-gnu").unwrap());

    let mipsel_linux_gnu = Triple::new3(Arch::Mips32(Endian::Little), Os::Linux(LinuxLibc::Gnu));
    assert_eq!(mipsel_linux_gnu, Triple::from_str("mipsel-linux-gnu").unwrap());

    let mips64_linux_gnu = Triple::new3(Arch::Mips64(Endian::Big), Os::Linux(LinuxLibc::Gnu));
    assert_eq!(mips64_linux_gnu, Triple::from_str("mips64-linux-gnu").unwrap());

    let mips64el_linux_gnu = Triple::new3(Arch::Mips64(Endian::Little), Os::Linux(LinuxLibc::Gnu));
    assert_eq!(mips64el_linux_gnu, Triple::from_str("mips64el-linux-gnu").unwrap());
}

#[test]
fn parse_superh() {
    let sh3_unknown_elf = Triple::new3(Arch::Sh3(Endian::Little), Os::BareMetal(NoneAbi::Elf));
    assert_eq!(sh3_unknown_elf, Triple::from_str("sh3-unknown-elf").unwrap());
}

const ARCH_TOKENS: [&str; 14] = [
    "m68k", "aarch64", "arm64", "aarch64_be", "mipsel", "mips", "mips64", "mips64el", "i386",
    "i586", "i686", "x86_64", "x86_64h", "sh3",
];

const OS_TOKENS: [(&str, &str); 6] = [
    ("linux", "gnu"),
    ("linux", "musl"),
    ("linux", "uclibc"),
    ("none", "elf"),
    ("unknown", "elf"),
    ("linux", "bionic"),
];

fn all_arches() -> Vec<Arch> {
    let mut v = vec![Arch::M68k];
    for e in [Endian::Little, Endian::Big] {
        v.push(Arch::Arm64(e));
        v.push(Arch::Mips32(e));
        v.push(Arch::Mips64(e));
        v.push(Arch::Sh3(e));
    }
    for x in [X86Variant::I386, X86Variant::I586, X86Variant::I686, X86Variant::X86_64, X86Variant::X86_64h] {
        v.push(Arch::X86(x));
    }
    v
}

fn all_oses() -> Vec<Os> {
    vec![
        Os::Linux(LinuxLibc::Gnu),
        Os::Linux(LinuxLibc::Musl),
        Os::Linux(LinuxLibc::Uclibc),
        Os::BareMetal(NoneAbi::Elf),
    ]
}

fn emit(t: &Triple) -> Vec<String> {
    let mut opts = Vec::new();
    t.emit_crosstool_config(&mut opts);
    opts
}

#[test]
fn alias_parses_equal() {
    assert_eq!(Triple::parse("aarch64-linux-gnu"), Triple::parse("arm64-linux-gnu"));
    assert!(Triple::parse("arm64-linux-gnu").is_ok());
}

#[test]
fn omitted_vendor_equals_unknown_for_every_combination() {
    for a in ARCH_TOKENS {
        for (k, b) in OS_TOKENS {
            let three = format!("{}-{}-{}", a, k, b);
            let four = format!("{}-unknown-{}-{}", a, k, b);
            assert_eq!(Triple::parse(&three), Triple::parse(&four), "{}", three);
        }
    }
}

#[test]
fn display_then_parse_round_trips() {
    let mut checked = 0;
    for a in all_arches() {
        for os in all_oses() {
            for vendor in ["unknown", "pc", "apple", "Vendor_2"] {
                let t = Triple::new4(a, vendor, os);
                match t.display() {
                    Some(s) => {
                        assert_eq!(Triple::parse(&s), Ok(t.clone()), "{}", s);
                        checked += 1;
                    }
                    None => assert_eq!(a, Arch::Sh3(Endian::Big)),
                }
            }
        }
    }
    assert_eq!(checked, 13 * 4 * 4);
}

#[test]
fn alias_is_never_displayed() {
    let t = Triple::parse("arm64-linux-gnu").unwrap();
    assert_eq!(t.display().unwrap(), "aarch64-unknown-linux-gnu");
}

#[test]
fn big_endian_superh_has_no_canonical_string() {
    let t = Triple::new3(Arch::Sh3(Endian::Big), Os::BareMetal(NoneAbi::Elf));
    assert_eq!(t.display(), None);
    assert_eq!(Arch::Sh3(Endian::Big).name(), None);
}

#[test]
fn malformed_inputs_are_rejected() {
    assert_eq!(Triple::parse("only-two"), Err(TripleError::TokenCount));
    assert_eq!(Triple::parse("riscv-linux-gnu"), Err(TripleError::UnknownArch));
    assert_eq!(Triple::parse("m68k-linux-bionic"), Err(TripleError::UnknownAbi));
}

#[test]
fn each_error_has_an_input() {
    assert_eq!(Triple::parse(""), Err(TripleError::Lexical));
    assert_eq!(Triple::parse("m68k-linux-9nu"), Err(TripleError::Lexical));
    assert_eq!(Triple::parse("m68k-linux-gnu-"), Err(TripleError::Lexical));
    assert_eq!(Triple::parse("m68k--linux-gnu"), Err(TripleError::Lexical));
    assert_eq!(Triple::parse("m68k-linux-gnu!"), Err(TripleError::Lexical));
    assert_eq!(Triple::parse("m68k"), Err(TripleError::TokenCount));
    assert_eq!(Triple::parse("a-b-c-d-e"), Err(TripleError::TokenCount));
    assert_eq!(Triple::parse("M68K-linux-gnu"), Err(TripleError::UnknownArch));
    assert_eq!(Triple::parse("m68k-windows-gnu"), Err(TripleError::UnknownOs));
    assert_eq!(Triple::parse("m68k-linux-GNU"), Err(TripleError::UnknownAbi));
    assert_eq!(Triple::parse("m68k-none-gnu"), Err(TripleError::UnknownAbi));
    assert_eq!(Triple::parse("riscv-windows-x"), Err(TripleError::UnknownArch));
}

#[test]
fn vendor_is_kept_verbatim() {
    let t = Triple::parse("x86_64-pc-linux-musl").unwrap();
    assert_eq!(t.vendor(), "pc");
    assert_eq!(t.arch(), Arch::X86(X86Variant::X86_64));
    assert_eq!(t.os(), Os::Linux(LinuxLibc::Musl));
    assert_eq!(t.display().unwrap(), "x86_64-pc-linux-musl");
}

#[test]
fn emission_is_deterministic() {
    let a = Triple::parse("mips64el-acme-linux-uclibc").unwrap();
    let b = Triple::parse("mips64el-acme-linux-uclibc").unwrap();
    assert_eq!(emit(&a), emit(&b));
    assert_eq!(emit(&a), emit(&a));
}

#[test]
fn endian_and_width_follow_the_architecture() {
    let mips64 = Triple::new3(Arch::Mips64(Endian::Big), Os::Linux(LinuxLibc::Gnu));
    let d = emit(&mips64);
    assert!(d.contains(&"CT_ARCH_BE=y".to_string()));
    assert!(d.contains(&"CT_ARCH_64=y".to_string()));
    let m68k = Triple::new3(Arch::M68k, Os::Linux(LinuxLibc::Gnu));
    let d = emit(&m68k);
    assert!(d.contains(&"CT_ARCH_LE=y".to_string()));
    assert!(d.contains(&"CT_ARCH_32=y".to_string()));
    assert_eq!(Arch::Mips64(Endian::Big).endian(), Endian::Big);
    assert_eq!(Arch::Mips64(Endian::Big).bits(), 64);
    assert_eq!(Arch::M68k.endian(), Endian::Little);
    assert_eq!(Arch::M68k.bits(), 32);
    assert_eq!(Arch::X86(X86Variant::X86_64h).bits(), 64);
    assert_eq!(Arch::X86(X86Variant::I686).bits(), 32);
    assert_eq!(Arch::X86(X86Variant::I686).endian_cfg(), "CT_ARCH_LE=y");
    assert_eq!(Arch::Arm64(Endian::Big).bitness_cfg(), "CT_ARCH_64=y");
}

#[test]
fn superh_bare_metal_scenario() {
    let t = Triple::parse("sh3-unknown-elf").unwrap();
    assert_eq!(t, Triple::new4(Arch::Sh3(Endian::Little), "unknown", Os::BareMetal(NoneAbi::Elf)));
    let s = t.display().unwrap();
    assert_eq!(s, "sh3-unknown-none-elf");
    assert_eq!(Triple::parse(&s), Ok(t.clone()));
    assert_eq!(
        emit(&t),
        vec![
            "CT_ARCH_SH=y",
            "CT_ARCH_LE=y",
            "CT_ARCH_32=y",
            "CT_TARGET_VENDOR=unknown",
            "CT_KERNEL_BARE_METAL=y",
        ]
    );
}

#[test]
fn linux_directives_in_order() {
    let t = Triple::parse("aarch64_be-foo-linux-gnu").unwrap();
    assert_eq!(
        emit(&t),
        vec![
            "CT_ARCH_ARM=y",
            "CT_ARCH_BE=y",
            "CT_ARCH_64=y",
            "CT_TARGET_VENDOR=foo",
            "CT_KERNEL_LINUX=y",
            "CT_LIBC_GLIBC=y",
        ]
    );
    let musl = emit(&Triple::parse("i386-linux-musl").unwrap());
    assert_eq!(musl[0], "CT_ARCH_X86=y");
    assert_eq!(musl[5], "CT_LIBC_MUSL=y");
    let uclibc = emit(&Triple::parse("mipsel-linux-uclibc").unwrap());
    assert_eq!(uclibc[0], "CT_ARCH_MIPS=y");
    assert_eq!(uclibc[5], "CT_LIBC_UCLIBC_NG");
    let m68k = emit(&Triple::parse("m68k-linux-gnu").unwrap());
    assert_eq!(m68k[0], "CT_ARCH_M68K=y");
}

#[test]
fn emission_appends_to_existing_lines() {
    let t = Triple::parse("x86_64h-linux-gnu").unwrap();
    let mut opts = vec!["FIRST".to_string()];
    t.emit_crosstool_config(&mut opts);
    assert_eq!(opts.len(), 7);
    assert_eq!(opts[0], "FIRST");
    assert_eq!(opts[1], "CT_ARCH_X86=y");
}

#[test]
fn ident_splits_at_the_first_non_identifier_character() {
    assert_eq!(ident("x86_64-linux"), Some(("x86_64", "-linux")));
    assert_eq!(ident("_a1"), Some(("_a1", "")));
    assert_eq!(ident("9abc"), None);
    assert_eq!(ident("-abc"), None);
    assert_eq!(ident(""), None);
    assert_eq!(ident("ab\u{e9}c"), Some(("ab", "\u{e9}c")));
}

#[test]
fn os_and_abi_tables() {
    assert_eq!(Os::parse_osabi("unknown", "elf"), Ok(Os::BareMetal(NoneAbi::Elf)));
    assert_eq!(Os::parse_osabi("linux", "uclibc"), Ok(Os::Linux(LinuxLibc::Uclibc)));
    assert_eq!(Os::parse_osabi("bsd", "elf"), Err(TripleError::UnknownOs));
    assert_eq!(LinuxLibc::parse("Gnu"), None);
    assert_eq!(NoneAbi::parse("elf"), Some(NoneAbi::Elf));
    assert_eq!(Arch::parse1("arm64"), Some(Arch::Arm64(Endian::Little)));
    assert_eq!(Arch::parse1("aarch64_be"), Some(Arch::Arm64(Endian::Big)));
    assert_eq!(Arch::parse1("x86"), None);
    assert_eq!(Os::BareMetal(NoneAbi::Elf).kernel_name(), "none");
    assert_eq!(Os::Linux(LinuxLibc::Musl).abi_name(), "musl");
}
