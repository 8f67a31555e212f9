//! Target triples: their parts, the grammar that reads them, their canonical
//! string and the build directives they imply.

use vstd::prelude::*;

pub use crate::lexer::ident;
use crate::lexer::{
    dash_split, is_ident, is_ident_token, lemma_ident_no_dash, lemma_split3, lemma_split4, split_dash,
    str_eq, views,
};

verus! {

/// Byte order of an architecture.
#[derive(Debug, Clone, Copy, PartialEq, Eq, Structural)]
pub enum Endian {
    Little,
    Big,
}

/// The members of the x86 family.
#[derive(Debug, Clone, Copy, PartialEq, Eq, Structural)]
pub enum X86Variant {
    I386,
    I586,
    I686,
    X86_64,
    X86_64h,
}

/// Instruction-set family, with the byte order or sub-variant it was built for.
#[derive(Debug, Clone, Copy, PartialEq, Eq, Structural)]
pub enum Arch {
    Arm64(Endian),
    M68k,
    Mips32(Endian),
    Mips64(Endian),
    Sh3(Endian),
    X86(X86Variant),
}

/// The C libraries available on Linux.
#[derive(Debug, Clone, Copy, PartialEq, Eq, Structural)]
pub enum LinuxLibc {
    Gnu,
    Musl,
    Uclibc,
}

/// The binary interfaces available on bare metal.
#[derive(Debug, Clone, Copy, PartialEq, Eq, Structural)]
pub enum NoneAbi {
    Elf,
}

/// Kernel together with its C library or ABI.
#[derive(Debug, Clone, Copy, PartialEq, Eq, Structural)]
pub enum Os {
    Linux(LinuxLibc),
    BareMetal(NoneAbi),
}

/// Why a string is not a supported target triple.
#[derive(Debug, Clone, Copy, PartialEq, Eq, Structural)]
pub enum TripleError {
    /// A dash-separated token is not an identifier.
    Lexical,
    /// The string has neither three nor four tokens.
    TokenCount,
    /// The first token names no known architecture.
    UnknownArch,
    /// The kernel token is not `linux`, `none` or `unknown`.
    UnknownOs,
    /// The ABI token is not known for the kernel.
    UnknownAbi,
}

// ---------------------------------------------------------------------------
// Architecture table

/// The architecture that a token names, aliases included.
pub open spec fn arch_of(tok: Seq<char>) -> Option<Arch> {
    if tok == "m68k"@ {
        Some(Arch::M68k)
    } else if tok == "aarch64"@ || tok == "arm64"@ {
        Some(Arch::Arm64(Endian::Little))
    } else if tok == "aarch64_be"@ {
        Some(Arch::Arm64(Endian::Big))
    } else if tok == "mipsel"@ {
        Some(Arch::Mips32(Endian::Little))
    } else if tok == "mips"@ {
        Some(Arch::Mips32(Endian::Big))
    } else if tok == "mips64"@ {
        Some(Arch::Mips64(Endian::Big))
    } else if tok == "mips64el"@ {
        Some(Arch::Mips64(Endian::Little))
    } else if tok == "i386"@ {
        Some(Arch::X86(X86Variant::I386))
    } else if tok == "i586"@ {
        Some(Arch::X86(X86Variant::I586))
    } else if tok == "i686"@ {
        Some(Arch::X86(X86Variant::I686))
    } else if tok == "x86_64"@ {
        Some(Arch::X86(X86Variant::X86_64))
    } else if tok == "x86_64h"@ {
        Some(Arch::X86(X86Variant::X86_64h))
    } else if tok == "sh3"@ {
        Some(Arch::Sh3(Endian::Little))
    } else {
        None
    }
}

/// The canonical spelling of an architecture; big-endian SuperH has none.
pub open spec fn arch_name(a: Arch) -> Option<Seq<char>> {
    match a {
        Arch::Arm64(Endian::Little) => Some("aarch64"@),
        Arch::Arm64(Endian::Big) => Some("aarch64_be"@),
        Arch::M68k => Some("m68k"@),
        Arch::Mips32(Endian::Little) => Some("mipsel"@),
        Arch::Mips32(Endian::Big) => Some("mips"@),
        Arch::Mips64(Endian::Little) => Some("mips64el"@),
        Arch::Mips64(Endian::Big) => Some("mips64"@),
        Arch::Sh3(Endian::Little) => Some("sh3"@),
        Arch::Sh3(Endian::Big) => None,
        Arch::X86(X86Variant::I386) => Some("i386"@),
        Arch::X86(X86Variant::I586) => Some("i586"@),
        Arch::X86(X86Variant::I686) => Some("i686"@),
        Arch::X86(X86Variant::X86_64) => Some("x86_64"@),
        Arch::X86(X86Variant::X86_64h) => Some("x86_64h"@),
    }
}

/// The byte order that an architecture implies.
pub open spec fn endian_of(a: Arch) -> Endian {
    match a {
        Arch::Arm64(e) | Arch::Mips32(e) | Arch::Mips64(e) | Arch::Sh3(e) => e,
        Arch::M68k | Arch::X86(_) => Endian::Little,
    }
}

/// The word width in bits that an architecture implies.
pub open spec fn bits_of(a: Arch) -> nat {
    match a {
        Arch::Arm64(_) | Arch::Mips64(_) => 64,
        Arch::X86(X86Variant::X86_64) | Arch::X86(X86Variant::X86_64h) => 64,
        _ => 32,
    }
}

impl Arch {
    /// Looks up an architecture token, aliases included.
    pub fn parse1(tok: &str) -> (r: Option<Arch>)
        ensures
            r == arch_of(tok@),
    {
        if str_eq(tok, "m68k") {
            Some(Arch::M68k)
        } else if str_eq(tok, "aarch64") || str_eq(tok, "arm64") {
            Some(Arch::Arm64(Endian::Little))
        } else if str_eq(tok, "aarch64_be") {
            Some(Arch::Arm64(Endian::Big))
        } else if str_eq(tok, "mipsel") {
            Some(Arch::Mips32(Endian::Little))
        } else if str_eq(tok, "mips") {
            Some(Arch::Mips32(Endian::Big))
        } else if str_eq(tok, "mips64") {
            Some(Arch::Mips64(Endian::Big))
        } else if str_eq(tok, "mips64el") {
            Some(Arch::Mips64(Endian::Little))
        } else if str_eq(tok, "i386") {
            Some(Arch::X86(X86Variant::I386))
        } else if str_eq(tok, "i586") {
            Some(Arch::X86(X86Variant::I586))
        } else if str_eq(tok, "i686") {
            Some(Arch::X86(X86Variant::I686))
        } else if str_eq(tok, "x86_64") {
            Some(Arch::X86(X86Variant::X86_64))
        } else if str_eq(tok, "x86_64h") {
            Some(Arch::X86(X86Variant::X86_64h))
        } else if str_eq(tok, "sh3") {
            Some(Arch::Sh3(Endian::Little))
        } else {
            None
        }
    }

    /// The canonical spelling; `None` for big-endian SuperH, which has none.
    pub fn name(&self) -> (r: Option<&'static str>)
        ensures
            match r {
                Some(s) => arch_name(*self) == Some(s@),
                None => arch_name(*self) is None,
            },
    {
        match self {
            Arch::Arm64(Endian::Little) => Some("aarch64"),
            Arch::Arm64(Endian::Big) => Some("aarch64_be"),
            Arch::M68k => Some("m68k"),
            Arch::Mips32(Endian::Little) => Some("mipsel"),
            Arch::Mips32(Endian::Big) => Some("mips"),
            Arch::Mips64(Endian::Little) => Some("mips64el"),
            Arch::Mips64(Endian::Big) => Some("mips64"),
            Arch::Sh3(Endian::Little) => Some("sh3"),
            Arch::Sh3(Endian::Big) => None,
            Arch::X86(X86Variant::I386) => Some("i386"),
            Arch::X86(X86Variant::I586) => Some("i586"),
            Arch::X86(X86Variant::I686) => Some("i686"),
            Arch::X86(X86Variant::X86_64) => Some("x86_64"),
            Arch::X86(X86Variant::X86_64h) => Some("x86_64h"),
        }
    }

    /// The byte order this architecture implies.
    pub fn endian(&self) -> (r: Endian)
        ensures
            r == endian_of(*self),
    {
        match self {
            Arch::Arm64(e) | Arch::Mips32(e) | Arch::Mips64(e) | Arch::Sh3(e) => *e,
            Arch::M68k | Arch::X86(_) => Endian::Little,
        }
    }

    /// The word width in bits this architecture implies.
    pub fn bits(&self) -> (r: u8)
        ensures
            r as nat == bits_of(*self),
    {
        match self {
            Arch::Arm64(_) | Arch::Mips64(_) => 64,
            Arch::X86(X86Variant::X86_64) | Arch::X86(X86Variant::X86_64h) => 64,
            _ => 32,
        }
    }
}

// ---------------------------------------------------------------------------
// Kernel and ABI tables

/// The Linux C library that a token names.
pub open spec fn libc_of(tok: Seq<char>) -> Option<LinuxLibc> {
    if tok == "gnu"@ {
        Some(LinuxLibc::Gnu)
    } else if tok == "musl"@ {
        Some(LinuxLibc::Musl)
    } else if tok == "uclibc"@ {
        Some(LinuxLibc::Uclibc)
    } else {
        None
    }
}

/// The bare-metal ABI that a token names.
pub open spec fn none_abi_of(tok: Seq<char>) -> Option<NoneAbi> {
    if tok == "elf"@ {
        Some(NoneAbi::Elf)
    } else {
        None
    }
}

/// The operating system named by a kernel token and an ABI token.
pub open spec fn os_of(kernel: Seq<char>, abi: Seq<char>) -> Result<Os, TripleError> {
    if kernel == "linux"@ {
        match libc_of(abi) {
            Some(l) => Ok(Os::Linux(l)),
            None => Err(TripleError::UnknownAbi),
        }
    } else if kernel == "none"@ || kernel == "unknown"@ {
        match none_abi_of(abi) {
            Some(a) => Ok(Os::BareMetal(a)),
            None => Err(TripleError::UnknownAbi),
        }
    } else {
        Err(TripleError::UnknownOs)
    }
}

/// The canonical kernel token of an operating system.
pub open spec fn kernel_name(os: Os) -> Seq<char> {
    match os {
        Os::Linux(_) => "linux"@,
        Os::BareMetal(_) => "none"@,
    }
}

/// The canonical ABI token of an operating system.
pub open spec fn abi_name(os: Os) -> Seq<char> {
    match os {
        Os::Linux(LinuxLibc::Gnu) => "gnu"@,
        Os::Linux(LinuxLibc::Musl) => "musl"@,
        Os::Linux(LinuxLibc::Uclibc) => "uclibc"@,
        Os::BareMetal(NoneAbi::Elf) => "elf"@,
    }
}

impl LinuxLibc {
    /// Looks up a C library token; the match is exact and case-sensitive.
    pub fn parse(tok: &str) -> (r: Option<LinuxLibc>)
        ensures
            r == libc_of(tok@),
    {
        if str_eq(tok, "gnu") {
            Some(LinuxLibc::Gnu)
        } else if str_eq(tok, "musl") {
            Some(LinuxLibc::Musl)
        } else if str_eq(tok, "uclibc") {
            Some(LinuxLibc::Uclibc)
        } else {
            None
        }
    }
}

impl NoneAbi {
    /// Looks up a bare-metal ABI token; the match is exact and case-sensitive.
    pub fn parse(tok: &str) -> (r: Option<NoneAbi>)
        ensures
            r == none_abi_of(tok@),
    {
        if str_eq(tok, "elf") {
            Some(NoneAbi::Elf)
        } else {
            None
        }
    }
}

impl Os {
    /// Resolves a kernel token and an ABI token.
    pub fn parse_osabi(os: &str, abiname: &str) -> (r: Result<Os, TripleError>)
        ensures
            r == os_of(os@, abiname@),
    {
        if str_eq(os, "linux") {
            match LinuxLibc::parse(abiname) {
                Some(l) => Ok(Os::Linux(l)),
                None => Err(TripleError::UnknownAbi),
            }
        } else if str_eq(os, "none") || str_eq(os, "unknown") {
            match NoneAbi::parse(abiname) {
                Some(a) => Ok(Os::BareMetal(a)),
                None => Err(TripleError::UnknownAbi),
            }
        } else {
            Err(TripleError::UnknownOs)
        }
    }

    /// The canonical kernel token.
    pub fn kernel_name(&self) -> (r: &'static str)
        ensures
            r@ == kernel_name(*self),
    {
        match self {
            Os::Linux(_) => "linux",
            Os::BareMetal(_) => "none",
        }
    }

    /// The canonical ABI token.
    pub fn abi_name(&self) -> (r: &'static str)
        ensures
            r@ == abi_name(*self),
    {
        match self {
            Os::Linux(LinuxLibc::Gnu) => "gnu",
            Os::Linux(LinuxLibc::Musl) => "musl",
            Os::Linux(LinuxLibc::Uclibc) => "uclibc",
            Os::BareMetal(NoneAbi::Elf) => "elf",
        }
    }
}

// ---------------------------------------------------------------------------
// Triples

/// The mathematical value of a [`Triple`].
pub ghost struct TripleModel {
    pub arch: Arch,
    pub vendor: Seq<char>,
    pub os: Os,
}

/// A target triple: architecture, vendor and operating system.
#[derive(Debug, Clone)]
pub struct Triple {
    arch: Arch,
    vendor: String,
    os: Os,
}

impl View for Triple {
    type V = TripleModel;

    closed spec fn view(&self) -> TripleModel {
        TripleModel { arch: self.arch, vendor: self.vendor@, os: self.os }
    }
}

/// The triple built from its tokens, the architecture resolved first.
pub open spec fn triple_of(arch: Seq<char>, vendor: Seq<char>, kernel: Seq<char>, abi: Seq<char>) -> Result<TripleModel, TripleError> {
    match arch_of(arch) {
        None => Err(TripleError::UnknownArch),
        Some(a) => match os_of(kernel, abi) {
            Err(e) => Err(e),
            Ok(os) => Ok(TripleModel { arch: a, vendor, os }),
        },
    }
}

/// Every token is an identifier.
pub open spec fn all_idents(toks: Seq<Seq<char>>) -> bool {
    forall|j: int| 0 <= j < toks.len() ==> is_ident(#[trigger] toks[j])
}

/// What parsing `s` yields: every token must be an identifier, and there
/// must be three of them (the vendor is then `unknown`) or four.
pub open spec fn parse_spec(s: Seq<char>) -> Result<TripleModel, TripleError> {
    let toks = dash_split(s);
    if !all_idents(toks) {
        Err(TripleError::Lexical)
    } else if toks.len() == 3 {
        triple_of(toks[0], "unknown"@, toks[1], toks[2])
    } else if toks.len() == 4 {
        triple_of(toks[0], toks[1], toks[2], toks[3])
    } else {
        Err(TripleError::TokenCount)
    }
}

/// The view of a parse result.
pub open spec fn result_view(r: Result<Triple, TripleError>) -> Result<TripleModel, TripleError> {
    match r {
        Ok(t) => Ok(t@),
        Err(e) => Err(e),
    }
}

impl Triple {
    /// Parses a whole dash-separated triple.
    pub fn parse(s: &str) -> (r: Result<Triple, TripleError>)
        ensures
            result_view(r) == parse_spec(s@),
    {
        let toks = split_dash(s);
        let ghost tv = dash_split(s@);
        assert(tv.len() == toks@.len());
        let mut k: usize = 0;
        while k < toks.len()
            invariant
                views(toks@) == tv,
                tv == dash_split(s@),
                k <= toks@.len(),
                forall|j: int| 0 <= j < k ==> is_ident(#[trigger] tv[j]),
            decreases toks@.len() - k,
        {
            assert(tv[k as int] == toks@[k as int]@);
            if !is_ident_token(toks[k]) {
                assert(!is_ident(tv[k as int]));

                return Err(TripleError::Lexical);
            }
            k += 1;
        }
        let (arch_tok, vendor, os_tok, abi_tok) = if toks.len() == 3 {
            (toks[0], String::from_str("unknown"), toks[1], toks[2])
        } else if toks.len() == 4 {
            (toks[0], String::from_str(toks[1]), toks[2], toks[3])
        } else {
            return Err(TripleError::TokenCount);
        };
        let arch = match Arch::parse1(arch_tok) {
            Some(a) => a,
            None => return Err(TripleError::UnknownArch),
        };
        let os = match Os::parse_osabi(os_tok, abi_tok) {
            Ok(o) => o,
            Err(e) => return Err(e),
        };
        Ok(Triple { arch, vendor, os })
    }
}

/// The canonical string of a triple, `{arch}-{vendor}-{kernel}-{abi}`;
/// `None` where the architecture has no canonical spelling.
pub open spec fn display_spec(t: TripleModel) -> Option<Seq<char>> {
    match arch_name(t.arch) {
        None => None,
        Some(a) => Some(
            a + seq!['-'] + t.vendor + seq!['-'] + kernel_name(t.os) + seq!['-'] + abi_name(t.os),
        ),
    }
}

// ---------------------------------------------------------------------------
// Configuration directives

/// The directive naming the architecture family.
pub open spec fn family_directive(a: Arch) -> Seq<char> {
    match a {
        Arch::Arm64(_) => "CT_ARCH_ARM=y"@,
        Arch::Mips32(_) | Arch::Mips64(_) => "CT_ARCH_MIPS=y"@,
        Arch::Sh3(_) => "CT_ARCH_SH=y"@,
        Arch::M68k => "CT_ARCH_M68K=y"@,
        Arch::X86(_) => "CT_ARCH_X86=y"@,
    }
}

/// The directive for a byte order.
pub open spec fn endian_directive(e: Endian) -> Seq<char> {
    match e {
        Endian::Little => "CT_ARCH_LE=y"@,
        Endian::Big => "CT_ARCH_BE=y"@,
    }
}

/// The directive for a word width.
pub open spec fn bits_directive(bits: nat) -> Seq<char> {
    if bits == 64 {
        "CT_ARCH_64=y"@
    } else {
        "CT_ARCH_32=y"@
    }
}

/// Family, byte order and word width, in that order.
pub open spec fn arch_directives(a: Arch) -> Seq<Seq<char>> {
    seq![family_directive(a), endian_directive(endian_of(a)), bits_directive(bits_of(a))]
}

/// The directive for a Linux C library; uClibc's carries no `=y`.
pub open spec fn libc_directive(l: LinuxLibc) -> Seq<char> {
    match l {
        LinuxLibc::Gnu => "CT_LIBC_GLIBC=y"@,
        LinuxLibc::Musl => "CT_LIBC_MUSL=y"@,
        LinuxLibc::Uclibc => "CT_LIBC_UCLIBC_NG"@,
    }
}

/// The kernel directive, then the C library directive on Linux.
pub open spec fn os_directives(os: Os) -> Seq<Seq<char>> {
    match os {
        Os::Linux(l) => seq!["CT_KERNEL_LINUX=y"@, libc_directive(l)],
        Os::BareMetal(_) => seq!["CT_KERNEL_BARE_METAL=y"@],
    }
}

/// The directive carrying the vendor.
pub open spec fn vendor_directive(vendor: Seq<char>) -> Seq<char> {
    "CT_TARGET_VENDOR="@ + vendor
}

/// All directives of a triple, in emission order.
pub open spec fn directives(t: TripleModel) -> Seq<Seq<char>> {
    arch_directives(t.arch) + seq![vendor_directive(t.vendor)] + os_directives(t.os)
}

/// The character sequences held by a list of strings.
pub open spec fn string_views(v: Seq<String>) -> Seq<Seq<char>> {
    v.map_values(|s: String| s@)
}

pub(crate) fn push_str(opts: &mut Vec<String>, s: &str)
    ensures
        string_views(final(opts)@) == string_views(old(opts)@).push(s@),
{
    opts.push(String::from_str(s));
    assert(string_views(final(opts)@) =~= string_views(old(opts)@).push(s@));
}

impl Arch {
    /// The byte-order directive.
    pub fn endian_cfg(&self) -> (r: &'static str)
        ensures
            r@ == endian_directive(endian_of(*self)),
    {
        match self.endian() {
            Endian::Little => "CT_ARCH_LE=y",
            Endian::Big => "CT_ARCH_BE=y",
        }
    }

    /// The word-width directive.
    pub fn bitness_cfg(&self) -> (r: &'static str)
        ensures
            r@ == bits_directive(bits_of(*self)),
    {
        if self.bits() == 64 {
            "CT_ARCH_64=y"
        } else {
            "CT_ARCH_32=y"
        }
    }

    /// Appends the family, byte-order and word-width directives.
    pub fn emit_crosstool_config(&self, opts: &mut Vec<String>)
        ensures
            string_views(final(opts)@) == string_views(old(opts)@) + arch_directives(*self),
    {
        let arch_cfg = match self {
            Arch::Arm64(_) => "CT_ARCH_ARM=y",
            Arch::Mips32(_) | Arch::Mips64(_) => "CT_ARCH_MIPS=y",
            Arch::Sh3(_) => "CT_ARCH_SH=y",
            Arch::M68k => "CT_ARCH_M68K=y",
            Arch::X86(_) => "CT_ARCH_X86=y",
        };
        push_str(opts, arch_cfg);
        push_str(opts, self.endian_cfg());
        push_str(opts, self.bitness_cfg());
        assert(string_views(opts@) =~= string_views(old(opts)@) + arch_directives(*self));
    }
}

impl Os {
    /// Appends the kernel directive and, on Linux, the C library directive.
    pub fn emit_crosstool_config(&self, opts: &mut Vec<String>)
        ensures
            string_views(final(opts)@) == string_views(old(opts)@) + os_directives(*self),
    {
        match self {
            Os::Linux(libc) => {
                push_str(opts, "CT_KERNEL_LINUX=y");
                match libc {
                    LinuxLibc::Gnu => push_str(opts, "CT_LIBC_GLIBC=y"),
                    LinuxLibc::Musl => push_str(opts, "CT_LIBC_MUSL=y"),
                    LinuxLibc::Uclibc => push_str(opts, "CT_LIBC_UCLIBC_NG"),
                }
            },
            Os::BareMetal(abi) => {
                push_str(opts, "CT_KERNEL_BARE_METAL=y");
                match abi {
                    NoneAbi::Elf => {},
                }
            },
        }
        assert(string_views(opts@) =~= string_views(old(opts)@) + os_directives(*self));
    }
}

impl Triple {
    /// A triple from its parts.
    pub fn new4(arch: Arch, vendor: &str, os: Os) -> (r: Triple)
        ensures
            r@ == (TripleModel { arch, vendor: vendor@, os }),
    {
        Triple { arch, vendor: String::from_str(vendor), os }
    }

    /// A triple with the vendor `unknown`.
    pub fn new3(arch: Arch, os: Os) -> (r: Triple)
        ensures
            r@ == (TripleModel { arch, vendor: "unknown"@, os }),
    {
        Triple::new4(arch, "unknown", os)
    }

    pub fn arch(&self) -> (r: Arch)
        ensures
            r == self@.arch,
    {
        self.arch
    }

    pub fn vendor(&self) -> (r: &str)
        ensures
            r@ == self@.vendor,
    {
        self.vendor.as_str()
    }

    pub fn os(&self) -> (r: Os)
        ensures
            r == self@.os,
    {
        self.os
    }

    /// The canonical string; `None` where the architecture has no canonical
    /// spelling (big-endian SuperH).
    pub fn display(&self) -> (r: Option<String>)
        ensures
            match r {
                Some(s) => display_spec(self@) == Some(s@),
                None => display_spec(self@) is None,
            },
    {
        let arch = match self.arch.name() {
            Some(a) => a,
            None => return None,
        };
        proof {
            reveal_strlit("-");
        }
        let s = String::from_str(arch).concat("-").concat(self.vendor.as_str()).concat("-").concat(
            self.os.kernel_name(),
        ).concat("-").concat(self.os.abi_name());
        assert(s@ =~= display_spec(self@)->0);
        Some(s)
    }

    /// Appends every directive of this triple, in order: architecture
    /// family, byte order, word width, vendor, then kernel and C library.
    pub fn emit_crosstool_config(&self, opts: &mut Vec<String>)
        ensures
            string_views(final(opts)@) == string_views(old(opts)@) + directives(self@),
    {
        self.arch.emit_crosstool_config(opts);
        let vendor_cfg = String::from_str("CT_TARGET_VENDOR=").concat(self.vendor.as_str());
        opts.push(vendor_cfg);
        assert(string_views(opts@) =~= string_views(old(opts)@) + arch_directives(self.arch) + seq![
            vendor_directive(self.vendor@),
        ]);
        self.os.emit_crosstool_config(opts);
        assert(string_views(opts@) =~= string_views(old(opts)@) + directives(self@));
    }
}

impl PartialEq for Triple {
    fn eq(&self, other: &Triple) -> (r: bool) {
        self.arch == other.arch && self.vendor == other.vendor && self.os == other.os
    }
}

impl vstd::std_specs::cmp::PartialEqSpecImpl for Triple {
    open spec fn obeys_eq_spec() -> bool {
        true
    }

    open spec fn eq_spec(&self, other: &Triple) -> bool {
        self@ == other@
    }
}

impl Eq for Triple {

}

impl std::str::FromStr for Triple {
    type Err = TripleError;

    fn from_str(s: &str) -> (r: Result<Triple, TripleError>)
        ensures
            result_view(r) == parse_spec(s@),
    {
        Triple::parse(s)
    }
}


// ---------------------------------------------------------------------------
// Laws

/// Lengths and distinguishing characters of the architecture spellings.
proof fn lemma_arch_spellings()
    ensures
        "m68k"@.len() == 4,
        "aarch64"@.len() == 7,
        "arm64"@.len() == 5,
        "aarch64_be"@.len() == 10,
        "mipsel"@.len() == 6,
        "mips"@.len() == 4,
        "mips64"@.len() == 6,
        "mips64el"@.len() == 8,
        "i386"@.len() == 4,
        "i586"@.len() == 4,
        "i686"@.len() == 4,
        "x86_64"@.len() == 6,
        "x86_64h"@.len() == 7,
        "sh3"@.len() == 3,
        "m68k"@[0] == 'm' && "m68k"@[1] == '6',
        "mips"@[0] == 'm' && "mips"@[1] == 'i',
        "i386"@[0] == 'i' && "i386"@[1] == '3',
        "i586"@[0] == 'i' && "i586"@[1] == '5',
        "i686"@[0] == 'i' && "i686"@[1] == '6',
        "mipsel"@[0] == 'm' && "mipsel"@[4] == 'e',
        "mips64"@[0] == 'm' && "mips64"@[4] == '6',
        "x86_64"@[0] == 'x' && "x86_64"@[4] == '6',
        "aarch64"@[0] == 'a',
        "x86_64h"@[0] == 'x',
{
    reveal_strlit("m68k");
    reveal_strlit("aarch64");
    reveal_strlit("arm64");
    reveal_strlit("aarch64_be");
    reveal_strlit("mipsel");
    reveal_strlit("mips");
    reveal_strlit("mips64");
    reveal_strlit("mips64el");
    reveal_strlit("i386");
    reveal_strlit("i586");
    reveal_strlit("i686");
    reveal_strlit("x86_64");
    reveal_strlit("x86_64h");
    reveal_strlit("sh3");
}

/// Lengths and distinguishing characters of the kernel and ABI spellings.
proof fn lemma_os_spellings()
    ensures
        "linux"@.len() == 5,
        "none"@.len() == 4,
        "unknown"@.len() == 7,
        "gnu"@.len() == 3,
        "musl"@.len() == 4,
        "uclibc"@.len() == 6,
        "elf"@.len() == 3,
        "gnu"@[0] == 'g' && "elf"@[0] == 'e',
{
    reveal_strlit("linux");
    reveal_strlit("none");
    reveal_strlit("unknown");
    reveal_strlit("gnu");
    reveal_strlit("musl");
    reveal_strlit("uclibc");
    reveal_strlit("elf");
}

/// Every canonical architecture spelling is an identifier that names that
/// architecture again.
proof fn lemma_arch_name_round_trip(a: Arch)
    requires
        arch_name(a) is Some,
    ensures
        is_ident(arch_name(a)->0),
        arch_of(arch_name(a)->0) == Some(a),
{
    lemma_arch_spellings();
    reveal_strlit("m68k");
    reveal_strlit("aarch64");
    reveal_strlit("arm64");
    reveal_strlit("aarch64_be");
    reveal_strlit("mipsel");
    reveal_strlit("mips");
    reveal_strlit("mips64");
    reveal_strlit("mips64el");
    reveal_strlit("i386");
    reveal_strlit("i586");
    reveal_strlit("i686");
    reveal_strlit("x86_64");
    reveal_strlit("x86_64h");
    reveal_strlit("sh3");
}

/// Every canonical kernel and ABI spelling is an identifier, and together
/// they name the operating system again.
proof fn lemma_os_name_round_trip(os: Os)
    ensures
        is_ident(kernel_name(os)),
        is_ident(abi_name(os)),
        os_of(kernel_name(os), abi_name(os)) == Ok::<Os, TripleError>(os),
{
    lemma_os_spellings();
    reveal_strlit("linux");
    reveal_strlit("none");
    reveal_strlit("unknown");
    reveal_strlit("gnu");
    reveal_strlit("musl");
    reveal_strlit("uclibc");
    reveal_strlit("elf");
}

/// Parsing the canonical string of a triple gives that triple back, for
/// every architecture with a canonical spelling and every vendor that is an
/// identifier.
pub proof fn lemma_round_trip(t: TripleModel)
    requires
        arch_name(t.arch) is Some,
        is_ident(t.vendor),
    ensures
        display_spec(t) is Some,
        parse_spec(display_spec(t)->0) == Ok::<TripleModel, TripleError>(t),
{
    let a = arch_name(t.arch)->0;
    let k = kernel_name(t.os);
    let b = abi_name(t.os);
    lemma_arch_name_round_trip(t.arch);
    lemma_os_name_round_trip(t.os);
    lemma_ident_no_dash(a);
    lemma_ident_no_dash(t.vendor);
    lemma_ident_no_dash(k);
    lemma_ident_no_dash(b);
    lemma_split4(a, t.vendor, k, b);
    let toks = seq![a, t.vendor, k, b];
    assert(all_idents(toks)) by {
        assert forall|j: int| 0 <= j < toks.len() implies is_ident(#[trigger] toks[j]) by {
            if j == 0 {
            } else if j == 1 {
            } else if j == 2 {
            } else {
            }
        }
    }
}

/// Leaving the vendor out parses as writing `unknown`, for any three
/// identifiers.
pub proof fn lemma_default_vendor(arch: Seq<char>, kernel: Seq<char>, abi: Seq<char>)
    requires
        is_ident(arch),
        is_ident(kernel),
        is_ident(abi),
    ensures
        parse_spec(arch + seq!['-'] + kernel + seq!['-'] + abi) == parse_spec(
            arch + seq!['-'] + "unknown"@ + seq!['-'] + kernel + seq!['-'] + abi,
        ),
{
    let u = "unknown"@;
    assert(is_ident(u)) by {
        reveal_strlit("unknown");
    }
    lemma_ident_no_dash(arch);
    lemma_ident_no_dash(u);
    lemma_ident_no_dash(kernel);
    lemma_ident_no_dash(abi);
    lemma_split3(arch, kernel, abi);
    lemma_split4(arch, u, kernel, abi);
    let t3 = seq![arch, kernel, abi];
    let t4 = seq![arch, u, kernel, abi];
    assert(all_idents(t3)) by {
        assert forall|j: int| 0 <= j < t3.len() implies is_ident(#[trigger] t3[j]) by {
            if j == 0 {
            } else if j == 1 {
            } else {
            }
        }
    }
    assert(all_idents(t4)) by {
        assert forall|j: int| 0 <= j < t4.len() implies is_ident(#[trigger] t4[j]) by {
            if j == 0 {
            } else if j == 1 {
            } else if j == 2 {
            } else {
            }
        }
    }
}

} // verus!
