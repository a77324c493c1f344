use crate::error::DebError;
use vstd::prelude::*;
use vstd::string::StringExecFns;

verus! {

/// The mode of a regular file that its owner may write and everyone may read
/// (`rw-r--r--`).
pub const MODE_REGULAR: u32 = 33188;

/// The mode of a regular file that, in addition, everyone may execute
/// (`rwxr-xr-x`).
pub const MODE_EXECUTABLE: u32 = 33261;

/// Whether a string is, character for character, the given text.
pub fn str_is(text: &str, wanted: &str) -> (r: bool)
    ensures
        r == (text@ == wanted@),
{
    String::from_str(text) == String::from_str(wanted)
}

/// Represents the [various architectures Deb supports](https://wiki.debian.org/SupportedArchitectures).
#[derive(Clone, Copy, Debug, PartialEq, Eq, Structural)]
pub enum DebArchitecture {
    /// For architecture independent packages, such as interpreted software
    /// or configuration files.
    All,
    Alpha,
    /// Arm versions 5T and 6
    Armel,
    /// Armv7 (hard float)
    Armhf,
    /// Armv8
    Arm64,
    Hppa,
    /// 32-bit x86
    I386,
    /// 64-bit x86_64
    Amd64,
    Ia64,
    M68k,
    Mips,
    /// Little-endian 32-bit
    Mipsel,
    /// Little-endian 64-bit
    Mips64el,
    PowerPC,
    Ppc64,
    Ppc64el,
    Riscv64,
    S390x,
    Sh4,
    Sparc4,
    X32,
    /// 32-bit x86 for GNU/Hurd
    HurdI386,
    /// 32-bit x86 for FreeBSD
    KFreebsdI386,
    /// 64-bit x86_64 for FreeBSD
    KFreebsdAmd64,
}

impl DebArchitecture {
    /// The text that stands for this architecture in a control file.
    pub open spec fn token(self) -> Seq<char> {
        match self {
            DebArchitecture::All => "all"@,
            DebArchitecture::Alpha => "Alpha"@,
            DebArchitecture::Armel => "Armel"@,
            DebArchitecture::Armhf => "armhf"@,
            DebArchitecture::Arm64 => "arm64"@,
            DebArchitecture::Hppa => "hppa"@,
            DebArchitecture::I386 => "i386"@,
            DebArchitecture::Amd64 => "amd64"@,
            DebArchitecture::Ia64 => "ia64"@,
            DebArchitecture::M68k => "m68k"@,
            DebArchitecture::Mips => "mips"@,
            DebArchitecture::Mipsel => "mipsel"@,
            DebArchitecture::Mips64el => "mips64el"@,
            DebArchitecture::PowerPC => "PowerPC"@,
            DebArchitecture::Ppc64 => "PPC64"@,
            DebArchitecture::Ppc64el => "ppc64el"@,
            DebArchitecture::Riscv64 => "riscv64"@,
            DebArchitecture::S390x => "s390x"@,
            DebArchitecture::Sh4 => "SH4"@,
            DebArchitecture::Sparc4 => "sparc4"@,
            DebArchitecture::X32 => "x32"@,
            DebArchitecture::HurdI386 => "hurd-i386"@,
            DebArchitecture::KFreebsdI386 => "kfreebsd-i386"@,
            DebArchitecture::KFreebsdAmd64 => "kfreebsd-amd64"@,
        }
    }

    /// The architecture that a text stands for, if it stands for one. The match is
    /// exact and case-sensitive.
    pub open spec fn parse(text: Seq<char>) -> Option<DebArchitecture> {
        if text == "all"@ {
            Some(DebArchitecture::All)
        } else if text == "Alpha"@ {
            Some(DebArchitecture::Alpha)
        } else if text == "Armel"@ {
            Some(DebArchitecture::Armel)
        } else if text == "armhf"@ {
            Some(DebArchitecture::Armhf)
        } else if text == "arm64"@ {
            Some(DebArchitecture::Arm64)
        } else if text == "hppa"@ {
            Some(DebArchitecture::Hppa)
        } else if text == "i386"@ {
            Some(DebArchitecture::I386)
        } else if text == "amd64"@ {
            Some(DebArchitecture::Amd64)
        } else if text == "ia64"@ {
            Some(DebArchitecture::Ia64)
        } else if text == "m68k"@ {
            Some(DebArchitecture::M68k)
        } else if text == "mips"@ {
            Some(DebArchitecture::Mips)
        } else if text == "mipsel"@ {
            Some(DebArchitecture::Mipsel)
        } else if text == "mips64el"@ {
            Some(DebArchitecture::Mips64el)
        } else if text == "PowerPC"@ {
            Some(DebArchitecture::PowerPC)
        } else if text == "PPC64"@ {
            Some(DebArchitecture::Ppc64)
        } else if text == "ppc64el"@ {
            Some(DebArchitecture::Ppc64el)
        } else if text == "riscv64"@ {
            Some(DebArchitecture::Riscv64)
        } else if text == "s390x"@ {
            Some(DebArchitecture::S390x)
        } else if text == "SH4"@ {
            Some(DebArchitecture::Sh4)
        } else if text == "sparc4"@ {
            Some(DebArchitecture::Sparc4)
        } else if text == "x32"@ {
            Some(DebArchitecture::X32)
        } else if text == "hurd-i386"@ {
            Some(DebArchitecture::HurdI386)
        } else if text == "kfreebsd-i386"@ {
            Some(DebArchitecture::KFreebsdI386)
        } else if text == "kfreebsd-amd64"@ {
            Some(DebArchitecture::KFreebsdAmd64)
        } else {
            None
        }
    }

    /// Converts DebArchitecture to &str.
    pub fn as_str(&self) -> (s: &'static str)
        ensures
            s@ == self.token(),
    {
        match self {
            DebArchitecture::All => "all",
            DebArchitecture::Alpha => "Alpha",
            DebArchitecture::Armel => "Armel",
            DebArchitecture::Armhf => "armhf",
            DebArchitecture::Arm64 => "arm64",
            DebArchitecture::Hppa => "hppa",
            DebArchitecture::I386 => "i386",
            DebArchitecture::Amd64 => "amd64",
            DebArchitecture::Ia64 => "ia64",
            DebArchitecture::M68k => "m68k",
            DebArchitecture::Mips => "mips",
            DebArchitecture::Mipsel => "mipsel",
            DebArchitecture::Mips64el => "mips64el",
            DebArchitecture::PowerPC => "PowerPC",
            DebArchitecture::Ppc64 => "PPC64",
            DebArchitecture::Ppc64el => "ppc64el",
            DebArchitecture::Riscv64 => "riscv64",
            DebArchitecture::S390x => "s390x",
            DebArchitecture::Sh4 => "SH4",
            DebArchitecture::Sparc4 => "sparc4",
            DebArchitecture::X32 => "x32",
            DebArchitecture::HurdI386 => "hurd-i386",
            DebArchitecture::KFreebsdI386 => "kfreebsd-i386",
            DebArchitecture::KFreebsdAmd64 => "kfreebsd-amd64",
        }
    }

    /// Converts &str to DebArchitecture.
    ///
    /// Fails with `UnsupportedToken` when the string is not the name of any architecture.
    pub fn from(input: &str) -> (r: Result<Self, DebError>)
        ensures
            r == (match Self::parse(input@) {
                Some(v) => Ok::<Self, DebError>(v),
                None => Err::<Self, DebError>(DebError::UnsupportedToken),
            }),
    {
        if str_is(input, "all") {
            Ok(DebArchitecture::All)
        } else if str_is(input, "Alpha") {
            Ok(DebArchitecture::Alpha)
        } else if str_is(input, "Armel") {
            Ok(DebArchitecture::Armel)
        } else if str_is(input, "armhf") {
            Ok(DebArchitecture::Armhf)
        } else if str_is(input, "arm64") {
            Ok(DebArchitecture::Arm64)
        } else if str_is(input, "hppa") {
            Ok(DebArchitecture::Hppa)
        } else if str_is(input, "i386") {
            Ok(DebArchitecture::I386)
        } else if str_is(input, "amd64") {
            Ok(DebArchitecture::Amd64)
        } else if str_is(input, "ia64") {
            Ok(DebArchitecture::Ia64)
        } else if str_is(input, "m68k") {
            Ok(DebArchitecture::M68k)
        } else if str_is(input, "mips") {
            Ok(DebArchitecture::Mips)
        } else if str_is(input, "mipsel") {
            Ok(DebArchitecture::Mipsel)
        } else if str_is(input, "mips64el") {
            Ok(DebArchitecture::Mips64el)
        } else if str_is(input, "PowerPC") {
            Ok(DebArchitecture::PowerPC)
        } else if str_is(input, "PPC64") {
            Ok(DebArchitecture::Ppc64)
        } else if str_is(input, "ppc64el") {
            Ok(DebArchitecture::Ppc64el)
        } else if str_is(input, "riscv64") {
            Ok(DebArchitecture::Riscv64)
        } else if str_is(input, "s390x") {
            Ok(DebArchitecture::S390x)
        } else if str_is(input, "SH4") {
            Ok(DebArchitecture::Sh4)
        } else if str_is(input, "sparc4") {
            Ok(DebArchitecture::Sparc4)
        } else if str_is(input, "x32") {
            Ok(DebArchitecture::X32)
        } else if str_is(input, "hurd-i386") {
            Ok(DebArchitecture::HurdI386)
        } else if str_is(input, "kfreebsd-i386") {
            Ok(DebArchitecture::KFreebsdI386)
        } else if str_is(input, "kfreebsd-amd64") {
            Ok(DebArchitecture::KFreebsdAmd64)
        } else {
            Err(DebError::UnsupportedToken)
        }
    }

    /// Reading back the text of an architecture gives that architecture: the table of
    /// tokens is one-to-one.
    pub proof fn lemma_parse_token(self)
        ensures
            Self::parse(self.token()) == Some(self),
    {
        Self::lemma_tokens_known();
    }

    /// A text that stands for an architecture is the text of that architecture.
    pub proof fn lemma_token_parse(text: Seq<char>)
        ensures
            Self::parse(text) matches Some(v) ==> v.token() == text,
    {
    }

    /// The characters of every token.
    pub proof fn lemma_tokens_known()
        ensures
            DebArchitecture::All.token().len() == 3,
            DebArchitecture::All.token()[0] == 'a',
            DebArchitecture::All.token()[1] == 'l',
            DebArchitecture::All.token()[2] == 'l',
            DebArchitecture::Alpha.token().len() == 5,
            DebArchitecture::Alpha.token()[0] == 'A',
            DebArchitecture::Alpha.token()[1] == 'l',
            DebArchitecture::Alpha.token()[2] == 'p',
            DebArchitecture::Alpha.token()[3] == 'h',
            DebArchitecture::Alpha.token()[4] == 'a',
            DebArchitecture::Armel.token().len() == 5,
            DebArchitecture::Armel.token()[0] == 'A',
            DebArchitecture::Armel.token()[1] == 'r',
            DebArchitecture::Armel.token()[2] == 'm',
            DebArchitecture::Armel.token()[3] == 'e',
            DebArchitecture::Armel.token()[4] == 'l',
            DebArchitecture::Armhf.token().len() == 5,
            DebArchitecture::Armhf.token()[0] == 'a',
            DebArchitecture::Armhf.token()[1] == 'r',
            DebArchitecture::Armhf.token()[2] == 'm',
            DebArchitecture::Armhf.token()[3] == 'h',
            DebArchitecture::Armhf.token()[4] == 'f',
            DebArchitecture::Arm64.token().len() == 5,
            DebArchitecture::Arm64.token()[0] == 'a',
            DebArchitecture::Arm64.token()[1] == 'r',
            DebArchitecture::Arm64.token()[2] == 'm',
            DebArchitecture::Arm64.token()[3] == '6',
            DebArchitecture::Arm64.token()[4] == '4',
            DebArchitecture::Hppa.token().len() == 4,
            DebArchitecture::Hppa.token()[0] == 'h',
            DebArchitecture::Hppa.token()[1] == 'p',
            DebArchitecture::Hppa.token()[2] == 'p',
            DebArchitecture::Hppa.token()[3] == 'a',
            DebArchitecture::I386.token().len() == 4,
            DebArchitecture::I386.token()[0] == 'i',
            DebArchitecture::I386.token()[1] == '3',
            DebArchitecture::I386.token()[2] == '8',
            DebArchitecture::I386.token()[3] == '6',
            DebArchitecture::Amd64.token().len() == 5,
            DebArchitecture::Amd64.token()[0] == 'a',
            DebArchitecture::Amd64.token()[1] == 'm',
            DebArchitecture::Amd64.token()[2] == 'd',
            DebArchitecture::Amd64.token()[3] == '6',
            DebArchitecture::Amd64.token()[4] == '4',
            DebArchitecture::Ia64.token().len() == 4,
            DebArchitecture::Ia64.token()[0] == 'i',
            DebArchitecture::Ia64.token()[1] == 'a',
            DebArchitecture::Ia64.token()[2] == '6',
            DebArchitecture::Ia64.token()[3] == '4',
            DebArchitecture::M68k.token().len() == 4,
            DebArchitecture::M68k.token()[0] == 'm',
            DebArchitecture::M68k.token()[1] == '6',
            DebArchitecture::M68k.token()[2] == '8',
            DebArchitecture::M68k.token()[3] == 'k',
            DebArchitecture::Mips.token().len() == 4,
            DebArchitecture::Mips.token()[0] == 'm',
            DebArchitecture::Mips.token()[1] == 'i',
            DebArchitecture::Mips.token()[2] == 'p',
            DebArchitecture::Mips.token()[3] == 's',
            DebArchitecture::Mipsel.token().len() == 6,
            DebArchitecture::Mipsel.token()[0] == 'm',
            DebArchitecture::Mipsel.token()[1] == 'i',
            DebArchitecture::Mipsel.token()[2] == 'p',
            DebArchitecture::Mipsel.token()[3] == 's',
            DebArchitecture::Mipsel.token()[4] == 'e',
            DebArchitecture::Mipsel.token()[5] == 'l',
            DebArchitecture::Mips64el.token().len() == 8,
            DebArchitecture::Mips64el.token()[0] == 'm',
            DebArchitecture::Mips64el.token()[1] == 'i',
            DebArchitecture::Mips64el.token()[2] == 'p',
            DebArchitecture::Mips64el.token()[3] == 's',
            DebArchitecture::Mips64el.token()[4] == '6',
            DebArchitecture::Mips64el.token()[5] == '4',
            DebArchitecture::Mips64el.token()[6] == 'e',
            DebArchitecture::Mips64el.token()[7] == 'l',
            DebArchitecture::PowerPC.token().len() == 7,
            DebArchitecture::PowerPC.token()[0] == 'P',
            DebArchitecture::PowerPC.token()[1] == 'o',
            DebArchitecture::PowerPC.token()[2] == 'w',
            DebArchitecture::PowerPC.token()[3] == 'e',
            DebArchitecture::PowerPC.token()[4] == 'r',
            DebArchitecture::PowerPC.token()[5] == 'P',
            DebArchitecture::PowerPC.token()[6] == 'C',
            DebArchitecture::Ppc64.token().len() == 5,
            DebArchitecture::Ppc64.token()[0] == 'P',
            DebArchitecture::Ppc64.token()[1] == 'P',
            DebArchitecture::Ppc64.token()[2] == 'C',
            DebArchitecture::Ppc64.token()[3] == '6',
            DebArchitecture::Ppc64.token()[4] == '4',
            DebArchitecture::Ppc64el.token().len() == 7,
            DebArchitecture::Ppc64el.token()[0] == 'p',
            DebArchitecture::Ppc64el.token()[1] == 'p',
            DebArchitecture::Ppc64el.token()[2] == 'c',
            DebArchitecture::Ppc64el.token()[3] == '6',
            DebArchitecture::Ppc64el.token()[4] == '4',
            DebArchitecture::Ppc64el.token()[5] == 'e',
            DebArchitecture::Ppc64el.token()[6] == 'l',
            DebArchitecture::Riscv64.token().len() == 7,
            DebArchitecture::Riscv64.token()[0] == 'r',
            DebArchitecture::Riscv64.token()[1] == 'i',
            DebArchitecture::Riscv64.token()[2] == 's',
            DebArchitecture::Riscv64.token()[3] == 'c',
            DebArchitecture::Riscv64.token()[4] == 'v',
            DebArchitecture::Riscv64.token()[5] == '6',
            DebArchitecture::Riscv64.token()[6] == '4',
            DebArchitecture::S390x.token().len() == 5,
            DebArchitecture::S390x.token()[0] == 's',
            DebArchitecture::S390x.token()[1] == '3',
            DebArchitecture::S390x.token()[2] == '9',
            DebArchitecture::S390x.token()[3] == '0',
            DebArchitecture::S390x.token()[4] == 'x',
            DebArchitecture::Sh4.token().len() == 3,
            DebArchitecture::Sh4.token()[0] == 'S',
            DebArchitecture::Sh4.token()[1] == 'H',
            DebArchitecture::Sh4.token()[2] == '4',
            DebArchitecture::Sparc4.token().len() == 6,
            DebArchitecture::Sparc4.token()[0] == 's',
            DebArchitecture::Sparc4.token()[1] == 'p',
            DebArchitecture::Sparc4.token()[2] == 'a',
            DebArchitecture::Sparc4.token()[3] == 'r',
            DebArchitecture::Sparc4.token()[4] == 'c',
            DebArchitecture::Sparc4.token()[5] == '4',
            DebArchitecture::X32.token().len() == 3,
            DebArchitecture::X32.token()[0] == 'x',
            DebArchitecture::X32.token()[1] == '3',
            DebArchitecture::X32.token()[2] == '2',
            DebArchitecture::HurdI386.token().len() == 9,
            DebArchitecture::HurdI386.token()[0] == 'h',
            DebArchitecture::HurdI386.token()[1] == 'u',
            DebArchitecture::HurdI386.token()[2] == 'r',
            DebArchitecture::HurdI386.token()[3] == 'd',
            DebArchitecture::HurdI386.token()[4] == '-',
            DebArchitecture::HurdI386.token()[5] == 'i',
            DebArchitecture::HurdI386.token()[6] == '3',
            DebArchitecture::HurdI386.token()[7] == '8',
            DebArchitecture::HurdI386.token()[8] == '6',
            DebArchitecture::KFreebsdI386.token().len() == 13,
            DebArchitecture::KFreebsdI386.token()[0] == 'k',
            DebArchitecture::KFreebsdI386.token()[1] == 'f',
            DebArchitecture::KFreebsdI386.token()[2] == 'r',
            DebArchitecture::KFreebsdI386.token()[3] == 'e',
            DebArchitecture::KFreebsdI386.token()[4] == 'e',
            DebArchitecture::KFreebsdI386.token()[5] == 'b',
            DebArchitecture::KFreebsdI386.token()[6] == 's',
            DebArchitecture::KFreebsdI386.token()[7] == 'd',
            DebArchitecture::KFreebsdI386.token()[8] == '-',
            DebArchitecture::KFreebsdI386.token()[9] == 'i',
            DebArchitecture::KFreebsdI386.token()[10] == '3',
            DebArchitecture::KFreebsdI386.token()[11] == '8',
            DebArchitecture::KFreebsdI386.token()[12] == '6',
            DebArchitecture::KFreebsdAmd64.token().len() == 14,
            DebArchitecture::KFreebsdAmd64.token()[0] == 'k',
            DebArchitecture::KFreebsdAmd64.token()[1] == 'f',
            DebArchitecture::KFreebsdAmd64.token()[2] == 'r',
            DebArchitecture::KFreebsdAmd64.token()[3] == 'e',
            DebArchitecture::KFreebsdAmd64.token()[4] == 'e',
            DebArchitecture::KFreebsdAmd64.token()[5] == 'b',
            DebArchitecture::KFreebsdAmd64.token()[6] == 's',
            DebArchitecture::KFreebsdAmd64.token()[7] == 'd',
            DebArchitecture::KFreebsdAmd64.token()[8] == '-',
            DebArchitecture::KFreebsdAmd64.token()[9] == 'a',
            DebArchitecture::KFreebsdAmd64.token()[10] == 'm',
            DebArchitecture::KFreebsdAmd64.token()[11] == 'd',
            DebArchitecture::KFreebsdAmd64.token()[12] == '6',
            DebArchitecture::KFreebsdAmd64.token()[13] == '4',
    {
        reveal_strlit("all");
        reveal_strlit("Alpha");
        reveal_strlit("Armel");
        reveal_strlit("armhf");
        reveal_strlit("arm64");
        reveal_strlit("hppa");
        reveal_strlit("i386");
        reveal_strlit("amd64");
        reveal_strlit("ia64");
        reveal_strlit("m68k");
        reveal_strlit("mips");
        reveal_strlit("mipsel");
        reveal_strlit("mips64el");
        reveal_strlit("PowerPC");
        reveal_strlit("PPC64");
        reveal_strlit("ppc64el");
        reveal_strlit("riscv64");
        reveal_strlit("s390x");
        reveal_strlit("SH4");
        reveal_strlit("sparc4");
        reveal_strlit("x32");
        reveal_strlit("hurd-i386");
        reveal_strlit("kfreebsd-i386");
        reveal_strlit("kfreebsd-amd64");
    }
}

/// Used for [Deb's Priority field](https://www.debian.org/doc/debian-policy/ch-archive.html#s-priorities).
#[derive(Clone, Copy, Debug, PartialEq, Eq, Structural)]
pub enum DebPriority {
    Required,
    Important,
    Standard,
    Optional,
    Extra,
}

impl DebPriority {
    /// The text that stands for this priority in a control file.
    pub open spec fn token(self) -> Seq<char> {
        match self {
            DebPriority::Required => "required"@,
            DebPriority::Important => "important"@,
            DebPriority::Standard => "standard"@,
            DebPriority::Optional => "optional"@,
            DebPriority::Extra => "extra"@,
        }
    }

    /// The priority that a text stands for, if it stands for one. The match is
    /// exact and case-sensitive.
    pub open spec fn parse(text: Seq<char>) -> Option<DebPriority> {
        if text == "required"@ {
            Some(DebPriority::Required)
        } else if text == "important"@ {
            Some(DebPriority::Important)
        } else if text == "standard"@ {
            Some(DebPriority::Standard)
        } else if text == "optional"@ {
            Some(DebPriority::Optional)
        } else if text == "extra"@ {
            Some(DebPriority::Extra)
        } else {
            None
        }
    }

    /// Converts DebPriority to &str.
    pub fn as_str(&self) -> (s: &'static str)
        ensures
            s@ == self.token(),
    {
        match self {
            DebPriority::Required => "required",
            DebPriority::Important => "important",
            DebPriority::Standard => "standard",
            DebPriority::Optional => "optional",
            DebPriority::Extra => "extra",
        }
    }

    /// Converts &str to DebPriority.
    ///
    /// Fails with `UnsupportedToken` when the string is not the name of any priority.
    pub fn from(input: &str) -> (r: Result<Self, DebError>)
        ensures
            r == (match Self::parse(input@) {
                Some(v) => Ok::<Self, DebError>(v),
                None => Err::<Self, DebError>(DebError::UnsupportedToken),
            }),
    {
        if str_is(input, "required") {
            Ok(DebPriority::Required)
        } else if str_is(input, "important") {
            Ok(DebPriority::Important)
        } else if str_is(input, "standard") {
            Ok(DebPriority::Standard)
        } else if str_is(input, "optional") {
            Ok(DebPriority::Optional)
        } else if str_is(input, "extra") {
            Ok(DebPriority::Extra)
        } else {
            Err(DebError::UnsupportedToken)
        }
    }

    /// Reading back the text of a priority gives that priority: the table of
    /// tokens is one-to-one.
    pub proof fn lemma_parse_token(self)
        ensures
            Self::parse(self.token()) == Some(self),
    {
        Self::lemma_tokens_known();
    }

    /// A text that stands for a priority is the text of that priority.
    pub proof fn lemma_token_parse(text: Seq<char>)
        ensures
            Self::parse(text) matches Some(v) ==> v.token() == text,
    {
    }

    /// The characters of every token.
    pub proof fn lemma_tokens_known()
        ensures
            DebPriority::Required.token().len() == 8,
            DebPriority::Required.token()[0] == 'r',
            DebPriority::Required.token()[1] == 'e',
            DebPriority::Required.token()[2] == 'q',
            DebPriority::Required.token()[3] == 'u',
            DebPriority::Required.token()[4] == 'i',
            DebPriority::Required.token()[5] == 'r',
            DebPriority::Required.token()[6] == 'e',
            DebPriority::Required.token()[7] == 'd',
            DebPriority::Important.token().len() == 9,
            DebPriority::Important.token()[0] == 'i',
            DebPriority::Important.token()[1] == 'm',
            DebPriority::Important.token()[2] == 'p',
            DebPriority::Important.token()[3] == 'o',
            DebPriority::Important.token()[4] == 'r',
            DebPriority::Important.token()[5] == 't',
            DebPriority::Important.token()[6] == 'a',
            DebPriority::Important.token()[7] == 'n',
            DebPriority::Important.token()[8] == 't',
            DebPriority::Standard.token().len() == 8,
            DebPriority::Standard.token()[0] == 's',
            DebPriority::Standard.token()[1] == 't',
            DebPriority::Standard.token()[2] == 'a',
            DebPriority::Standard.token()[3] == 'n',
            DebPriority::Standard.token()[4] == 'd',
            DebPriority::Standard.token()[5] == 'a',
            DebPriority::Standard.token()[6] == 'r',
            DebPriority::Standard.token()[7] == 'd',
            DebPriority::Optional.token().len() == 8,
            DebPriority::Optional.token()[0] == 'o',
            DebPriority::Optional.token()[1] == 'p',
            DebPriority::Optional.token()[2] == 't',
            DebPriority::Optional.token()[3] == 'i',
            DebPriority::Optional.token()[4] == 'o',
            DebPriority::Optional.token()[5] == 'n',
            DebPriority::Optional.token()[6] == 'a',
            DebPriority::Optional.token()[7] == 'l',
            DebPriority::Extra.token().len() == 5,
            DebPriority::Extra.token()[0] == 'e',
            DebPriority::Extra.token()[1] == 'x',
            DebPriority::Extra.token()[2] == 't',
            DebPriority::Extra.token()[3] == 'r',
            DebPriority::Extra.token()[4] == 'a',
    {
        reveal_strlit("required");
        reveal_strlit("important");
        reveal_strlit("standard");
        reveal_strlit("optional");
        reveal_strlit("extra");
    }
}
/// Used to configure which compression format is used for data and control archives.
///
/// Zstd is preferred, though XZ is available as a legacy option.
#[derive(Clone, Copy, Debug, PartialEq, Eq, Structural)]
pub enum DebCompression {
    Xz,
    Zstd,
}

/// What a [`DebFile`] holds, as mathematical values.
pub struct FileView {
    /// The bytes of the file.
    pub contents: Seq<u8>,
    /// The permission and file-type bits.
    pub mode: u32,
    /// Where the file goes once the package is installed.
    pub path: Seq<char>,
}

/// Used in the DebPackage struct to represent files in a package's archives.
///
/// This struct contains the file's contents, permissions, and it's path in
/// the final package.
#[derive(Debug)]
pub struct DebFile {
    contents: Vec<u8>,  // The contents of the file
    mode: u32,  // The file's permissions in octal form
    path: String,  // The path the file goes to in the archive
}

impl View for DebFile {
    type V = FileView;

    closed spec fn view(&self) -> FileView {
        FileView { contents: self.contents@, mode: self.mode, path: self.path@ }
    }
}

impl DebFile {
    /// Creates a DebFile from a buffer.
    ///
    /// `buf` is a buffer which will be added as the file's contents.
    /// `to` is where the file will go once the package is installed on a user's system.
    ///
    /// The file's mode is set to 33188. Permission's must be managed manually.
    pub fn from_buf(buf: Vec<u8>, to: &str) -> (file: Self)
        ensures
            file@ == (FileView { contents: buf@, mode: MODE_REGULAR, path: to@ }),
    {
        Self { contents: buf, mode: MODE_REGULAR, path: String::from_str(to) }
    }

    /// Sets the file's mode to have executable permissions.
    pub fn is_exec(self) -> (file: Self)
        ensures
            file@ == (FileView { mode: MODE_EXECUTABLE, ..self@ }),
    {
        let mut file = self;
        file.mode = MODE_EXECUTABLE;
        file
    }

    /// Sets the file's mode to have read/write permissions, without executable.
    pub fn is_conf(self) -> (file: Self)
        ensures
            file@ == (FileView { mode: MODE_REGULAR, ..self@ }),
    {
        let mut file = self;
        file.mode = MODE_REGULAR;
        file
    }

    /// Sets the file's contents to `contents`.
    pub fn set_contents(self, contents: Vec<u8>) -> (file: Self)
        ensures
            file@ == (FileView { contents: contents@, ..self@ }),
    {
        let mut file = self;
        file.contents = contents;
        file
    }

    /// Sets the file's mode to `mode`.
    pub fn set_mode(self, mode: u32) -> (file: Self)
        ensures
            file@ == (FileView { mode: mode, ..self@ }),
    {
        let mut file = self;
        file.mode = mode;
        file
    }

    /// Sets the file's path to `to`.
    pub fn set_path(self, to: &str) -> (file: Self)
        ensures
            file@ == (FileView { path: to@, ..self@ }),
    {
        let mut file = self;
        file.path = String::from_str(to);
        file
    }

    /// A file with the same contents, mode and path.
    pub(crate) fn duplicate(&self) -> (file: Self)
        ensures
            file@ == self@,
    {
        let contents = self.contents.clone();
        assert(contents@ =~= self.contents@);
        Self { contents, mode: self.mode, path: self.path.clone() }
    }

    /// Returns the file's contents.
    pub fn contents(&self) -> (contents: &Vec<u8>)
        ensures
            contents@ == self@.contents,
    {
        &self.contents
    }

    /// Returns the file's mode.
    pub fn mode(&self) -> (mode: &u32)
        ensures
            *mode == self@.mode,
    {
        &self.mode
    }

    /// Returns the file's path.
    pub fn path(&self) -> (path: &String)
        ensures
            path@ == self@.path,
    {
        &self.path
    }
}

} // verus!
