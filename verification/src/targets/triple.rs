//! The target triple: architecture, vendor and operating system.

use vstd::prelude::*;
use vstd::string::StringExecFns;

use crate::error::Error;

verus! {

/// Represents a target triple, which consists of architecture, vendor, and target OS information.
#[derive(Debug, Clone, Copy, PartialEq, Eq, Structural)]
pub struct TargetTriple {
    /// The architecture of the target.
    pub arch: Arch,
    /// The vendor of the target.
    pub vendor: Vendor,
    /// The target operating system.
    pub os: TargetOS,
}

/// Represents different architectures that a target can have.
#[derive(Debug, Clone, Copy, PartialEq, Eq, Structural)]
pub enum Arch {
    /// x86 architecture.
    X86,
    /// x86_64 architecture.
    X86_64,
    /// ARM architecture.
    Arm,
    /// ARM 64-bit architecture (Aarch64).
    Aarch64,
    /// MIPS architecture.
    Mips,
    /// Little-endian MIPS architecture.
    Mipsel,
    /// PowerPC architecture.
    Powerpc,
    /// 64-bit PowerPC architecture.
    Powerpc64,
    /// IBM zSeries architecture (s390x).
    S390x,
}

/// Represents different vendors for the target.
#[derive(Debug, Clone, Copy, PartialEq, Eq, Structural)]
pub enum Vendor {
    /// Unknown vendor.
    Unknown,
    /// Apple vendor.
    Apple,
    /// PC (Personal Computer) vendor.
    PC,
    /// Sony Computer Entertainment, Inc. (SCEI) vendor.
    SCEI,
}

/// Represents different target operating systems.
#[derive(Debug, Clone, Copy, PartialEq, Eq, Structural)]
pub enum TargetOS {
    /// Unknown operating system.
    Unknown,
    /// Linux operating system.
    Linux,
    /// Apple's macOS (Darwin) operating system.
    Darwin,
    /// Microsoft Windows operating system.
    Windows,
    /// Android operating system.
    Android,
    /// Native Client (NaCl) operating system.
    NaCl,
    /// FreeBSD operating system.
    FreeBSD,
    /// OpenBSD operating system.
    OpenBSD,
    /// NetBSD operating system.
    NetBSD,
    /// DragonFlyBSD operating system.
    DragonFlyBSD,
    /// Oracle Solaris operating system.
    Solaris,
    /// Haiku operating system.
    Haiku,
    /// Minix operating system.
    Minix,
    /// Real-Time Executive for Multiprocessor Systems (RTEMS) operating system.
    RTEMS,
    /// Native Client (NaCl) ARM architecture operating system.
    NaClArm,
    /// Emscripten operating system (targeting web assembly).
    Emscripten,
    /// Google's Fuchsia operating system.
    Fuchsia,
}

impl Arch {
    /// The name of the architecture in a triple; 32-bit x86 is written `i686`.
    pub open spec fn name(self) -> Seq<char> {
        match self {
            Arch::X86 => "i686"@,
            Arch::X86_64 => "x86_64"@,
            Arch::Arm => "arm"@,
            Arch::Aarch64 => "aarch64"@,
            Arch::Mips => "mips"@,
            Arch::Mipsel => "mipsel"@,
            Arch::Powerpc => "powerpc"@,
            Arch::Powerpc64 => "powerpc64"@,
            Arch::S390x => "s390x"@,
        }
    }

    /// The architecture that a triple's first component names: `i686`, `i586`, `i486`
    /// and `i386` all name 32-bit x86.
    pub open spec fn from_name(s: Seq<char>) -> Option<Arch> {
        if s == "i686"@ || s == "i586"@ || s == "i486"@ || s == "i386"@ {
            Some(Arch::X86)
        } else if s == "x86_64"@ {
            Some(Arch::X86_64)
        } else if s == "arm"@ {
            Some(Arch::Arm)
        } else if s == "aarch64"@ {
            Some(Arch::Aarch64)
        } else if s == "mips"@ {
            Some(Arch::Mips)
        } else if s == "mipsel"@ {
            Some(Arch::Mipsel)
        } else if s == "powerpc"@ {
            Some(Arch::Powerpc)
        } else if s == "powerpc64"@ {
            Some(Arch::Powerpc64)
        } else if s == "s390x"@ {
            Some(Arch::S390x)
        } else {
            None
        }
    }

    /// The architecture that a host configuration names; there 32-bit x86 is `x86`.
    pub open spec fn from_host_name(s: Seq<char>) -> Option<Arch> {
        if s == "x86"@ {
            Some(Arch::X86)
        } else if s == "x86_64"@ {
            Some(Arch::X86_64)
        } else if s == "arm"@ {
            Some(Arch::Arm)
        } else if s == "aarch64"@ {
            Some(Arch::Aarch64)
        } else if s == "mips"@ {
            Some(Arch::Mips)
        } else if s == "mipsel"@ {
            Some(Arch::Mipsel)
        } else if s == "powerpc"@ {
            Some(Arch::Powerpc)
        } else if s == "powerpc64"@ {
            Some(Arch::Powerpc64)
        } else if s == "s390x"@ {
            Some(Arch::S390x)
        } else {
            None
        }
    }

    /// The name of the architecture in a triple.
    fn name_str(self) -> (r: &'static str)
        ensures
            r@ == self.name(),
    {
        match self {
            Arch::X86 => "i686",
            Arch::X86_64 => "x86_64",
            Arch::Arm => "arm",
            Arch::Aarch64 => "aarch64",
            Arch::Mips => "mips",
            Arch::Mipsel => "mipsel",
            Arch::Powerpc => "powerpc",
            Arch::Powerpc64 => "powerpc64",
            Arch::S390x => "s390x",
        }
    }

    /// Looks up the architecture that a triple's first component names.
    fn lookup(word: &Vec<char>) -> (r: Option<Arch>)
        ensures
            r == Self::from_name(word@),
    {
        if is_word(word, "i686") || is_word(word, "i586") || is_word(word, "i486") || is_word(
            word,
            "i386",
        ) {
            Some(Arch::X86)
        } else if is_word(word, "x86_64") {
            Some(Arch::X86_64)
        } else if is_word(word, "arm") {
            Some(Arch::Arm)
        } else if is_word(word, "aarch64") {
            Some(Arch::Aarch64)
        } else if is_word(word, "mips") {
            Some(Arch::Mips)
        } else if is_word(word, "mipsel") {
            Some(Arch::Mipsel)
        } else if is_word(word, "powerpc") {
            Some(Arch::Powerpc)
        } else if is_word(word, "powerpc64") {
            Some(Arch::Powerpc64)
        } else if is_word(word, "s390x") {
            Some(Arch::S390x)
        } else {
            None
        }
    }

    /// Looks up the architecture that a host configuration names.
    fn lookup_host(word: &Vec<char>) -> (r: Option<Arch>)
        ensures
            r == Self::from_host_name(word@),
    {
        if is_word(word, "x86") {
            Some(Arch::X86)
        } else if is_word(word, "x86_64") {
            Some(Arch::X86_64)
        } else if is_word(word, "arm") {
            Some(Arch::Arm)
        } else if is_word(word, "aarch64") {
            Some(Arch::Aarch64)
        } else if is_word(word, "mips") {
            Some(Arch::Mips)
        } else if is_word(word, "mipsel") {
            Some(Arch::Mipsel)
        } else if is_word(word, "powerpc") {
            Some(Arch::Powerpc)
        } else if is_word(word, "powerpc64") {
            Some(Arch::Powerpc64)
        } else if is_word(word, "s390x") {
            Some(Arch::S390x)
        } else {
            None
        }
    }
}

impl Vendor {
    /// The name of the vendor in a triple.
    pub open spec fn name(self) -> Seq<char> {
        match self {
            Vendor::Unknown => "unknown"@,
            Vendor::Apple => "apple"@,
            Vendor::PC => "pc"@,
            Vendor::SCEI => "scei"@,
        }
    }

    /// The vendor that a name stands for.
    pub open spec fn from_name(s: Seq<char>) -> Option<Vendor> {
        if s == "unknown"@ {
            Some(Vendor::Unknown)
        } else if s == "apple"@ {
            Some(Vendor::Apple)
        } else if s == "pc"@ {
            Some(Vendor::PC)
        } else if s == "scei"@ {
            Some(Vendor::SCEI)
        } else {
            None
        }
    }

    /// The name of the vendor in a triple.
    fn name_str(self) -> (r: &'static str)
        ensures
            r@ == self.name(),
    {
        match self {
            Vendor::Unknown => "unknown",
            Vendor::Apple => "apple",
            Vendor::PC => "pc",
            Vendor::SCEI => "scei",
        }
    }

    /// Looks up the vendor that a name stands for.
    fn lookup(word: &Vec<char>) -> (r: Option<Vendor>)
        ensures
            r == Self::from_name(word@),
    {
        if is_word(word, "unknown") {
            Some(Vendor::Unknown)
        } else if is_word(word, "apple") {
            Some(Vendor::Apple)
        } else if is_word(word, "pc") {
            Some(Vendor::PC)
        } else if is_word(word, "scei") {
            Some(Vendor::SCEI)
        } else {
            None
        }
    }
}

impl TargetOS {
    /// The name of the operating system in a triple.
    pub open spec fn name(self) -> Seq<char> {
        match self {
            TargetOS::Unknown => "unknown"@,
            TargetOS::Linux => "linux"@,
            TargetOS::Darwin => "darwin"@,
            TargetOS::Windows => "windows"@,
            TargetOS::Android => "android"@,
            TargetOS::NaCl => "nacl"@,
            TargetOS::FreeBSD => "freebsd"@,
            TargetOS::OpenBSD => "openbsd"@,
            TargetOS::NetBSD => "netbsd"@,
            TargetOS::DragonFlyBSD => "dragonfly"@,
            TargetOS::Solaris => "solaris"@,
            TargetOS::Haiku => "haiku"@,
            TargetOS::Minix => "minix"@,
            TargetOS::RTEMS => "rtems"@,
            TargetOS::NaClArm => "naclarm"@,
            TargetOS::Emscripten => "emscripten"@,
            TargetOS::Fuchsia => "fuchsia"@,
        }
    }

    /// The operating system that a name stands for.
    pub open spec fn from_name(s: Seq<char>) -> Option<TargetOS> {
        if s == "unknown"@ {
            Some(TargetOS::Unknown)
        } else if s == "linux"@ {
            Some(TargetOS::Linux)
        } else if s == "darwin"@ {
            Some(TargetOS::Darwin)
        } else if s == "windows"@ {
            Some(TargetOS::Windows)
        } else if s == "android"@ {
            Some(TargetOS::Android)
        } else if s == "nacl"@ {
            Some(TargetOS::NaCl)
        } else if s == "freebsd"@ {
            Some(TargetOS::FreeBSD)
        } else if s == "openbsd"@ {
            Some(TargetOS::OpenBSD)
        } else if s == "netbsd"@ {
            Some(TargetOS::NetBSD)
        } else if s == "dragonfly"@ {
            Some(TargetOS::DragonFlyBSD)
        } else if s == "solaris"@ {
            Some(TargetOS::Solaris)
        } else if s == "haiku"@ {
            Some(TargetOS::Haiku)
        } else if s == "minix"@ {
            Some(TargetOS::Minix)
        } else if s == "rtems"@ {
            Some(TargetOS::RTEMS)
        } else if s == "naclarm"@ {
            Some(TargetOS::NaClArm)
        } else if s == "emscripten"@ {
            Some(TargetOS::Emscripten)
        } else if s == "fuchsia"@ {
            Some(TargetOS::Fuchsia)
        } else {
            None
        }
    }

    /// The name of the operating system in a triple.
    fn name_str(self) -> (r: &'static str)
        ensures
            r@ == self.name(),
    {
        match self {
            TargetOS::Unknown => "unknown",
            TargetOS::Linux => "linux",
            TargetOS::Darwin => "darwin",
            TargetOS::Windows => "windows",
            TargetOS::Android => "android",
            TargetOS::NaCl => "nacl",
            TargetOS::FreeBSD => "freebsd",
            TargetOS::OpenBSD => "openbsd",
            TargetOS::NetBSD => "netbsd",
            TargetOS::DragonFlyBSD => "dragonfly",
            TargetOS::Solaris => "solaris",
            TargetOS::Haiku => "haiku",
            TargetOS::Minix => "minix",
            TargetOS::RTEMS => "rtems",
            TargetOS::NaClArm => "naclarm",
            TargetOS::Emscripten => "emscripten",
            TargetOS::Fuchsia => "fuchsia",
        }
    }

    /// Looks up the operating system that a name stands for.
    fn lookup(word: &Vec<char>) -> (r: Option<TargetOS>)
        ensures
            r == Self::from_name(word@),
    {
        if is_word(word, "unknown") {
            Some(TargetOS::Unknown)
        } else if is_word(word, "linux") {
            Some(TargetOS::Linux)
        } else if is_word(word, "darwin") {
            Some(TargetOS::Darwin)
        } else if is_word(word, "windows") {
            Some(TargetOS::Windows)
        } else if is_word(word, "android") {
            Some(TargetOS::Android)
        } else if is_word(word, "nacl") {
            Some(TargetOS::NaCl)
        } else if is_word(word, "freebsd") {
            Some(TargetOS::FreeBSD)
        } else if is_word(word, "openbsd") {
            Some(TargetOS::OpenBSD)
        } else if is_word(word, "netbsd") {
            Some(TargetOS::NetBSD)
        } else if is_word(word, "dragonfly") {
            Some(TargetOS::DragonFlyBSD)
        } else if is_word(word, "solaris") {
            Some(TargetOS::Solaris)
        } else if is_word(word, "haiku") {
            Some(TargetOS::Haiku)
        } else if is_word(word, "minix") {
            Some(TargetOS::Minix)
        } else if is_word(word, "rtems") {
            Some(TargetOS::RTEMS)
        } else if is_word(word, "naclarm") {
            Some(TargetOS::NaClArm)
        } else if is_word(word, "emscripten") {
            Some(TargetOS::Emscripten)
        } else if is_word(word, "fuchsia") {
            Some(TargetOS::Fuchsia)
        } else {
            None
        }
    }
}

/// The index of the first `-` of `s` at or after `from`, or the length of `s`
/// where there is none: the end of the component that starts at `from`.
pub open spec fn component_end(s: Seq<char>, from: int) -> int
    decreases s.len() - from,
{
    if from < 0 || from >= s.len() {
        s.len() as int
    } else if s[from] == '-' {
        from
    } else {
        component_end(s, from + 1)
    }
}

/// Whether no character of `s` is a `-`.
pub open spec fn no_dash(s: Seq<char>) -> bool {
    forall|i: int| 0 <= i < s.len() ==> s[i] != '-'
}

/// A component that starts at `from` ends at `end` where no `-` stands
/// between the two and `end` is a `-` or the end of the text.
proof fn lemma_component_end(s: Seq<char>, from: int, end: int)
    requires
        0 <= from <= end <= s.len(),
        forall|i: int| from <= i < end ==> s[i] != '-',
        end == s.len() || s[end] == '-',
    ensures
        component_end(s, from) == end,
    decreases end - from,
{
    if from < end {
        lemma_component_end(s, from + 1, end);
    }
}

/// Three names without a `-`, joined by `-`, are cut into the same three names.
proof fn lemma_parse_joined(a: Seq<char>, v: Seq<char>, o: Seq<char>)
    requires
        no_dash(a),
        no_dash(v),
        no_dash(o),
    ensures
        TargetTriple::parse(a + "-"@ + v + "-"@ + o) == TargetTriple::from_names(
            Arch::from_name(a),
            Vendor::from_name(v),
            TargetOS::from_name(o),
        ),
{
    reveal_strlit("-");
    let s = a + "-"@ + v + "-"@ + o;
    let e1 = a.len() as int;
    let e2 = e1 + 1 + v.len();
    let e3 = e2 + 1 + o.len();
    assert(s.len() == e3);
    assert forall|i: int| 0 <= i < e1 implies s[i] != '-' by {
        assert(s[i] == a[i]);
    }
    assert(s[e1] == '-');
    assert forall|i: int| e1 + 1 <= i < e2 implies s[i] != '-' by {
        assert(s[i] == v[i - e1 - 1]);
    }
    assert(s[e2] == '-');
    assert forall|i: int| e2 + 1 <= i < e3 implies s[i] != '-' by {
        assert(s[i] == o[i - e2 - 1]);
    }
    lemma_component_end(s, 0, e1);
    lemma_component_end(s, e1 + 1, e2);
    lemma_component_end(s, e2 + 1, e3);
    assert(s.subrange(0, e1) =~= a);
    assert(s.subrange(e1 + 1, e2) =~= v);
    assert(s.subrange(e2 + 1, e3) =~= o);
}

/// The name of an architecture holds no `-` and names that architecture.
proof fn lemma_arch_name(arch: Arch)
    ensures
        no_dash(arch.name()),
        Arch::from_name(arch.name()) == Some(arch),
{
    reveal_strlit("i686");
    assert("i686"@ =~= seq!['i', '6', '8', '6']);
    reveal_strlit("i586");
    assert("i586"@ =~= seq!['i', '5', '8', '6']);
    reveal_strlit("i486");
    assert("i486"@ =~= seq!['i', '4', '8', '6']);
    reveal_strlit("i386");
    assert("i386"@ =~= seq!['i', '3', '8', '6']);
    reveal_strlit("x86_64");
    assert("x86_64"@ =~= seq!['x', '8', '6', '_', '6', '4']);
    reveal_strlit("arm");
    assert("arm"@ =~= seq!['a', 'r', 'm']);
    reveal_strlit("aarch64");
    assert("aarch64"@ =~= seq!['a', 'a', 'r', 'c', 'h', '6', '4']);
    reveal_strlit("mips");
    assert("mips"@ =~= seq!['m', 'i', 'p', 's']);
    reveal_strlit("mipsel");
    assert("mipsel"@ =~= seq!['m', 'i', 'p', 's', 'e', 'l']);
    reveal_strlit("powerpc");
    assert("powerpc"@ =~= seq!['p', 'o', 'w', 'e', 'r', 'p', 'c']);
    reveal_strlit("powerpc64");
    assert("powerpc64"@ =~= seq!['p', 'o', 'w', 'e', 'r', 'p', 'c', '6', '4']);
    reveal_strlit("s390x");
    assert("s390x"@ =~= seq!['s', '3', '9', '0', 'x']);
}

/// The name of a vendor holds no `-` and names that vendor.
proof fn lemma_vendor_name(vendor: Vendor)
    ensures
        no_dash(vendor.name()),
        Vendor::from_name(vendor.name()) == Some(vendor),
{
    reveal_strlit("unknown");
    assert("unknown"@ =~= seq!['u', 'n', 'k', 'n', 'o', 'w', 'n']);
    reveal_strlit("apple");
    assert("apple"@ =~= seq!['a', 'p', 'p', 'l', 'e']);
    reveal_strlit("pc");
    assert("pc"@ =~= seq!['p', 'c']);
    reveal_strlit("scei");
    assert("scei"@ =~= seq!['s', 'c', 'e', 'i']);
}

/// The name of an operating system holds no `-` and names that system.
proof fn lemma_os_name(os: TargetOS)
    ensures
        no_dash(os.name()),
        TargetOS::from_name(os.name()) == Some(os),
{
    reveal_strlit("unknown");
    assert("unknown"@ =~= seq!['u', 'n', 'k', 'n', 'o', 'w', 'n']);
    reveal_strlit("linux");
    assert("linux"@ =~= seq!['l', 'i', 'n', 'u', 'x']);
    reveal_strlit("darwin");
    assert("darwin"@ =~= seq!['d', 'a', 'r', 'w', 'i', 'n']);
    reveal_strlit("windows");
    assert("windows"@ =~= seq!['w', 'i', 'n', 'd', 'o', 'w', 's']);
    reveal_strlit("android");
    assert("android"@ =~= seq!['a', 'n', 'd', 'r', 'o', 'i', 'd']);
    reveal_strlit("nacl");
    assert("nacl"@ =~= seq!['n', 'a', 'c', 'l']);
    reveal_strlit("freebsd");
    assert("freebsd"@ =~= seq!['f', 'r', 'e', 'e', 'b', 's', 'd']);
    reveal_strlit("openbsd");
    assert("openbsd"@ =~= seq!['o', 'p', 'e', 'n', 'b', 's', 'd']);
    reveal_strlit("netbsd");
    assert("netbsd"@ =~= seq!['n', 'e', 't', 'b', 's', 'd']);
    reveal_strlit("dragonfly");
    assert("dragonfly"@ =~= seq!['d', 'r', 'a', 'g', 'o', 'n', 'f', 'l', 'y']);
    reveal_strlit("solaris");
    assert("solaris"@ =~= seq!['s', 'o', 'l', 'a', 'r', 'i', 's']);
    reveal_strlit("haiku");
    assert("haiku"@ =~= seq!['h', 'a', 'i', 'k', 'u']);
    reveal_strlit("minix");
    assert("minix"@ =~= seq!['m', 'i', 'n', 'i', 'x']);
    reveal_strlit("rtems");
    assert("rtems"@ =~= seq!['r', 't', 'e', 'm', 's']);
    reveal_strlit("naclarm");
    assert("naclarm"@ =~= seq!['n', 'a', 'c', 'l', 'a', 'r', 'm']);
    reveal_strlit("emscripten");
    assert("emscripten"@ =~= seq!['e', 'm', 's', 'c', 'r', 'i', 'p', 't', 'e', 'n']);
    reveal_strlit("fuchsia");
    assert("fuchsia"@ =~= seq!['f', 'u', 'c', 'h', 's', 'i', 'a']);
}

/// The text of a triple denotes that triple.
pub proof fn lemma_text_parses_back(t: TargetTriple)
    ensures
        TargetTriple::parse(t.text()) == Some(t),
{
    lemma_arch_name(t.arch);
    lemma_vendor_name(t.vendor);
    lemma_os_name(t.os);
    lemma_parse_joined(t.arch.name(), t.vendor.name(), t.os.name());
}

/// The characters of a string slice.
fn chars_of(s: &str) -> (r: Vec<char>)
    ensures
        r@ == s@,
{
    let mut out: Vec<char> = Vec::new();
    for c in it: s.chars()
        invariant
            out@ == it.seq().subrange(0, it.index()),
            it.seq() == s@,
    {
        out.push(c);
        assert(out@ =~= it.seq().subrange(0, it.index() + 1));
    }
    assert(out@ =~= s@);
    out
}

/// Whether `word` spells exactly `lit`.
fn is_word(word: &Vec<char>, lit: &str) -> (r: bool)
    ensures
        r == (word@ == lit@),
{
    let other = chars_of(lit);
    if word.len() != other.len() {
        return false;
    }
    let mut i: usize = 0;
    while i < word.len()
        invariant
            word.len() == other.len(),
            other@ == lit@,
            i <= word.len(),
            forall|j: int| 0 <= j < i ==> word@[j] == other@[j],
        decreases word.len() - i,
    {
        if word[i] != other[i] {
            assert(word@[i as int] != other@[i as int]);
            return false;
        }
        i += 1;
    }
    assert(word@ =~= other@);
    true
}

/// Finds the end of the component that starts at `from`.
fn find_component_end(chars: &Vec<char>, from: usize) -> (end: usize)
    requires
        from <= chars.len(),
    ensures
        end == component_end(chars@, from as int),
        from <= end <= chars.len(),
{
    let mut i: usize = from;
    while i < chars.len() && chars[i] != '-'
        invariant
            from <= i <= chars.len(),
            component_end(chars@, from as int) == component_end(chars@, i as int),
        decreases chars.len() - i,
    {
        i += 1;
    }
    i
}

/// Copies the characters of `chars` from `from` up to `to`.
fn copy_range(chars: &Vec<char>, from: usize, to: usize) -> (r: Vec<char>)
    requires
        from <= to <= chars.len(),
    ensures
        r@ == chars@.subrange(from as int, to as int),
{
    let mut out: Vec<char> = Vec::new();
    let mut i: usize = from;
    while i < to
        invariant
            from <= i <= to <= chars.len(),
            out@ == chars@.subrange(from as int, i as int),
        decreases to - i,
    {
        out.push(chars[i]);
        assert(out@ =~= chars@.subrange(from as int, i + 1));
        i += 1;
    }
    out
}

impl TargetTriple {
    /// The triple that the text `s` denotes. The text is cut at each `-`; its
    /// first three components name the architecture, the vendor and the
    /// operating system, and further components are ignored. There is no triple
    /// where a component is missing or names nothing known.
    pub open spec fn parse(s: Seq<char>) -> Option<TargetTriple> {
        let e1 = component_end(s, 0);
        let e2 = component_end(s, e1 + 1);
        let e3 = component_end(s, e2 + 1);
        if e1 >= s.len() || e2 >= s.len() {
            None
        } else {
            Self::from_names(
                Arch::from_name(s.subrange(0, e1)),
                Vendor::from_name(s.subrange(e1 + 1, e2)),
                TargetOS::from_name(s.subrange(e2 + 1, e3)),
            )
        }
    }

    /// The triple of three components, where each of them is known.
    pub open spec fn from_names(
        arch: Option<Arch>,
        vendor: Option<Vendor>,
        os: Option<TargetOS>,
    ) -> Option<TargetTriple> {
        match (arch, vendor, os) {
            (Some(arch), Some(vendor), Some(os)) => Some(TargetTriple { arch, vendor, os }),
            _ => None,
        }
    }

    /// The triple of a host whose configuration names its architecture, vendor
    /// and operating system as given.
    pub open spec fn host_triple(arch: Seq<char>, vendor: Seq<char>, os: Seq<char>) -> Option<
        TargetTriple,
    > {
        Self::from_names(
            Arch::from_host_name(arch),
            Vendor::from_name(vendor),
            TargetOS::from_name(os),
        )
    }

    /// The text of the triple: the three names with a `-` between them.
    pub open spec fn text(self) -> Seq<char> {
        self.arch.name() + "-"@ + self.vendor.name() + "-"@ + self.os.name()
    }

    /// Creates a new target triple from the given string.
    pub fn new(triple: &str) -> (r: Result<Self, Error>)
        ensures
            r == match Self::parse(triple@) {
                Some(t) => Ok::<TargetTriple, Error>(t),
                None => Err(Error::InvalidTargetTriple),
            },
    {
        let chars = chars_of(triple);
        let e1 = find_component_end(&chars, 0);
        if e1 >= chars.len() {
            return Err(Error::InvalidTargetTriple);
        }
        let e2 = find_component_end(&chars, e1 + 1);
        if e2 >= chars.len() {
            return Err(Error::InvalidTargetTriple);
        }
        let e3 = find_component_end(&chars, e2 + 1);
        let arch = Arch::lookup(&copy_range(&chars, 0, e1));
        let vendor = Vendor::lookup(&copy_range(&chars, e1 + 1, e2));
        let os = TargetOS::lookup(&copy_range(&chars, e2 + 1, e3));
        match (arch, vendor, os) {
            (Some(arch), Some(vendor), Some(os)) => Ok(TargetTriple { arch, vendor, os }),
            _ => Err(Error::InvalidTargetTriple),
        }
    }

    /// Creates a target triple from its three parts.
    pub fn from_parts(arch: Arch, vendor: Vendor, os: TargetOS) -> (r: Self)
        ensures
            r == (TargetTriple { arch, vendor, os }),
    {
        TargetTriple { arch, vendor, os }
    }

    /// Returns the target triple as a string.
    pub fn as_str(&self) -> (r: String)
        ensures
            r@ == self.text(),
    {
        let mut out = self.arch.name_str().to_owned();
        out.append("-");
        out.append(self.vendor.name_str());
        out.append("-");
        out.append(self.os.name_str());
        out
    }

    /// Creates the target triple of the host from the names that its
    /// configuration gives to its architecture, vendor and operating system.
    pub fn from_host(arch: &str, vendor: &str, os: &str) -> (r: Result<Self, Error>)
        ensures
            r == match Self::host_triple(arch@, vendor@, os@) {
                Some(t) => Ok::<TargetTriple, Error>(t),
                None => Err(Error::InvalidTargetTriple),
            },
    {
        let arch = match Arch::lookup_host(&chars_of(arch)) {
            Some(arch) => arch,
            None => {
                return Err(Error::InvalidTargetTriple);
            },
        };
        let vendor = match Vendor::lookup(&chars_of(vendor)) {
            Some(vendor) => vendor,
            None => {
                return Err(Error::InvalidTargetTriple);
            },
        };
        let os = match TargetOS::lookup(&chars_of(os)) {
            Some(os) => os,
            None => {
                return Err(Error::InvalidTargetTriple);
            },
        };
        Ok(TargetTriple { arch, vendor, os })
    }

    /// Returns the target triple of a host that is known.
    pub fn host(arch: &str, vendor: &str, os: &str) -> (r: Self)
        requires
            Self::host_triple(arch@, vendor@, os@) is Some,
        ensures
            Self::host_triple(arch@, vendor@, os@) == Some(r),
    {
        match Self::from_host(arch, vendor, os) {
            Ok(t) => t,
            Err(_) => vstd::pervasive::unreached(),
        }
    }

    /// Returns the target triple of a host that is known, as a string.
    pub fn host_str(arch: &str, vendor: &str, os: &str) -> (r: String)
        requires
            Self::host_triple(arch@, vendor@, os@) is Some,
        ensures
            r@ == Self::host_triple(arch@, vendor@, os@)->Some_0.text(),
    {
        Self::host(arch, vendor, os).as_str()
    }

    /// Returns whether the target triple is that of the host, which is known.
    pub fn is_host(&self, arch: &str, vendor: &str, os: &str) -> (r: bool)
        requires
            Self::host_triple(arch@, vendor@, os@) is Some,
        ensures
            r == (Self::host_triple(arch@, vendor@, os@) == Some(*self)),
    {
        let host = Self::host(arch, vendor, os);
        self.arch == host.arch && self.vendor == host.vendor && self.os == host.os
    }

    /// Get the architecture of the target.
    pub fn arch(&self) -> (r: Arch)
        ensures
            r == self.arch,
    {
        self.arch
    }

    /// Get the vendor of the target.
    pub fn vendor(&self) -> (r: Vendor)
        ensures
            r == self.vendor,
    {
        self.vendor
    }

    /// Get the target operating system.
    pub fn os(&self) -> (r: TargetOS)
        ensures
            r == self.os,
    {
        self.os
    }
}

} // verus!
