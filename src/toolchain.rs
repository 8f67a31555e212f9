//! Toolchains set up for a target, and the configuration that lists them.

use vstd::prelude::*;

use crate::triple::{directives, display_spec, push_str, string_views, Triple};

verus! {

/// A toolchain that has been set up for one target.
#[derive(Debug, Clone)]
pub struct Toolchain {
    pub triple: Triple,
    pub gcc_src: String,
    pub basedir: String,
    pub json_spec: String,
    pub prefix: String,
}

/// The persisted configuration: where downloads and toolchains live, and
/// the toolchains set up so far.
#[derive(Debug, Clone)]
pub struct Config {
    pub cache_dir: String,
    pub data_dir: String,
    pub toolchain: Vec<Toolchain>,
}

/// `{key}"{value}"`.
pub open spec fn quoted(key: Seq<char>, value: Seq<char>) -> Seq<char> {
    key + value + "\""@
}

/// Every configuration line of a toolchain, in order: the triple's
/// directives, then the cache and install locations, the compiler source and
/// the fixed build options.
pub open spec fn crosstool_lines(tc: Toolchain, cfg: Config) -> Seq<Seq<char>> {
    directives(tc.triple@) + seq![
        quoted("CT_LOCAL_TARBALLS_DIR=\""@, cfg.cache_dir@),
        quoted("CT_PREFIX_DIR=\""@, tc.prefix@),
        "CT_GCC_SRC_DEVEL=y"@,
        quoted("CT_GCC_DEVEL_URL=\""@, tc.gcc_src@),
        "CT_CC_LANG_JIT=y"@,
        "CT_EXPERIMENTAL=y"@,
        "CT_CC_GCC_EXTRA_CONFIG_ARRAY=\"--enable-host-shared --disable-bootstrap\""@,
    ]
}

/// The lines, each followed by a newline.
pub open spec fn join_lines(lines: Seq<Seq<char>>) -> Seq<char>
    decreases lines.len(),
{
    if lines.len() == 0 {
        Seq::empty()
    } else {
        join_lines(lines.drop_last()) + lines.last() + "\n"@
    }
}

fn push_quoted(opts: &mut Vec<String>, key: &str, value: &str)
    ensures
        string_views(final(opts)@) == string_views(old(opts)@).push(quoted(key@, value@)),
{
    let line = String::from_str(key).concat(value).concat("\"");
    opts.push(line);
    assert(string_views(opts@) =~= string_views(old(opts)@).push(quoted(key@, value@)));
}

impl Toolchain {
    /// The crosstool-NG `defconfig` text of this toolchain.
    pub fn crosstool_config(&self, cfg: &Config) -> (r: String)
        ensures
            r@ == join_lines(crosstool_lines(*self, *cfg)),
    {
        let mut opts: Vec<String> = Vec::new();
        self.triple.emit_crosstool_config(&mut opts);
        push_quoted(&mut opts, "CT_LOCAL_TARBALLS_DIR=\"", cfg.cache_dir.as_str());
        push_quoted(&mut opts, "CT_PREFIX_DIR=\"", self.prefix.as_str());
        push_str(&mut opts, "CT_GCC_SRC_DEVEL=y");
        push_quoted(&mut opts, "CT_GCC_DEVEL_URL=\"", self.gcc_src.as_str());
        push_str(&mut opts, "CT_CC_LANG_JIT=y");
        push_str(&mut opts, "CT_EXPERIMENTAL=y");
        push_str(
            &mut opts,
            "CT_CC_GCC_EXTRA_CONFIG_ARRAY=\"--enable-host-shared --disable-bootstrap\"",
        );
        let ghost lines = crosstool_lines(*self, *cfg);
        assert(string_views(opts@) =~= lines);
        let mut out = String::new();
        let mut i: usize = 0;
        while i < opts.len()
            invariant
                i <= opts@.len(),
                string_views(opts@) == lines,
                out@ == join_lines(lines.take(i as int)),
            decreases opts@.len() - i,
        {
            assert(lines.take(i + 1).drop_last() =~= lines.take(i as int));
            assert(lines[i as int] == opts@[i as int]@);
            out = out.concat(opts[i].as_str()).concat("\n");
            i += 1;
        }
        assert(lines.take(i as int) =~= lines);
        out
    }
}

/// Index of the first toolchain in `v` built for `name`.
pub open spec fn is_first_match(v: Seq<Toolchain>, name: Triple, i: int) -> bool {
    &&& 0 <= i < v.len()
    &&& v[i].triple@ == name@
    &&& forall|j: int| 0 <= j < i ==> v[j].triple@ != name@
}

impl Config {
    /// The first toolchain built for `name`, if any.
    pub fn find_toolchain(&self, name: &Triple) -> (r: Option<&Toolchain>)
        ensures
            match r {
                Some(t) => exists|i: int|
                    is_first_match(self.toolchain@, *name, i) && self.toolchain@[i] == *t,
                None => forall|i: int|
                    0 <= i < self.toolchain@.len() ==> self.toolchain@[i].triple@ != name@,
            },
    {
        let mut i: usize = 0;
        while i < self.toolchain.len()
            invariant
                i <= self.toolchain@.len(),
                forall|j: int| 0 <= j < i ==> self.toolchain@[j].triple@ != name@,
            decreases self.toolchain@.len() - i,
        {
            if self.toolchain[i].triple == *name {
                assert(is_first_match(self.toolchain@, *name, i as int));
                return Some(&self.toolchain[i]);
            }
            i += 1;
        }
        None
    }
}

/// What `str::to_uppercase` returns for a string.
pub uninterp spec fn uppercase_of(s: Seq<char>) -> Seq<char>;

/// Relies on `str::to_uppercase`: the result depends on the characters alone.
#[verifier::external_body]
fn to_uppercase(s: &str) -> (r: String)
    ensures
        r@ == uppercase_of(s@),
{
    s.to_uppercase()
}

/// `s` with every `-` turned into `_`.
pub open spec fn dashes_to_underscores(s: Seq<char>) -> Seq<char> {
    s.map_values(|c: char| if c == '-' { '_' } else { c })
}

/// Relies on `str::replace`: every match of the pattern is replaced, the
/// other characters are kept in order.
#[verifier::external_body]
fn replace_dashes(s: &str) -> (r: String)
    ensures
        r@ == dashes_to_underscores(s@),
{
    s.replace('-', "_")
}

/// The variable that points cargo at this target's C compiler:
/// `CARGO_TARGET_{TRIPLE}_LINKER={triple}-gcc`, where `{TRIPLE}` is the
/// canonical string with dashes as underscores, in upper case.
pub open spec fn linker_var_spec(triple: Seq<char>) -> Seq<char> {
    linker_var_of(uppercase_of(dashes_to_underscores(triple)), triple)
}

/// `CARGO_TARGET_{upper}_LINKER={triple}-gcc`.
pub open spec fn linker_var_of(upper: Seq<char>, triple: Seq<char>) -> Seq<char> {
    "CARGO_TARGET_"@ + upper + "_LINKER="@ + triple + "-gcc"@
}

/// Assembles the cargo linker variable from the upper-cased target name and
/// the canonical triple.
pub fn linker_var(upper: &str, triple: &str) -> (r: String)
    ensures
        r@ == linker_var_of(upper@, triple@),
{
    String::from_str("CARGO_TARGET_").concat(upper).concat("_LINKER=").concat(triple).concat("-gcc")
}

impl Toolchain {
    /// The cargo linker variable for this toolchain; `None` where the triple
    /// has no canonical string.
    pub fn linker_env_var(&self) -> (r: Option<String>)
        ensures
            match display_spec(self.triple@) {
                Some(t) => r matches Some(v) && v@ == linker_var_spec(t),
                None => r is None,
            },
    {
        let triple = match self.triple.display() {
            Some(t) => t,
            None => return None,
        };
        let underscored = replace_dashes(triple.as_str());
        let upper = to_uppercase(underscored.as_str());
        Some(linker_var(upper.as_str(), triple.as_str()))
    }
}

/// The configuration text is a function of the values alone: toolchains
/// with equal triples, prefixes and compiler sources, under configurations
/// with equal cache directories, give the same lines in the same order.
pub proof fn lemma_crosstool_deterministic(t1: Toolchain, t2: Toolchain, c1: Config, c2: Config)
    requires
        t1.triple@ == t2.triple@,
        t1.prefix@ == t2.prefix@,
        t1.gcc_src@ == t2.gcc_src@,
        c1.cache_dir@ == c2.cache_dir@,
    ensures
        crosstool_lines(t1, c1) == crosstool_lines(t2, c2),
        join_lines(crosstool_lines(t1, c1)) == join_lines(crosstool_lines(t2, c2)),
{
}

} // verus!
